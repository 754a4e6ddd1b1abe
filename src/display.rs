//! Display monitor descriptors.
use vstd::prelude::*;

use crate::error::EnumerationError;
use crate::text::{is_padded_name, lemma_padded_name_clean, lemma_padded_name_unique, padded_name};

verus! {

/// Capacity, in UTF-16 code units, of a monitor's device-name buffer.
pub const CCHDEVICENAME: usize = 32;

/// What `String::from_utf16_lossy` makes of a sequence of UTF-16 code units.
pub uninterp spec fn utf16_lossy(units: Seq<u16>) -> Seq<char>;

/// Relies on `String::from_utf16_lossy`: the decoded text depends on the code units alone.
#[verifier::external_body]
fn decode_utf16_lossy(units: &[u16]) -> (r: String)
    ensures
        r@ == utf16_lossy(units@),
{
    String::from_utf16_lossy(units)
}

/// One active display monitor.
#[derive(Clone, Debug)]
pub struct DisplayInfo {
    pub handle: isize,
    /// Device name: the buffer's text without its NUL padding.
    pub display_name: String,
}

/// What the metadata query reported for one monitor: its device-name buffer,
/// or `None` where the query failed.
#[derive(Clone, Debug)]
pub struct MonitorReport {
    pub handle: isize,
    pub device_name: Option<Vec<u16>>,
}

/// `d` is the descriptor of the monitor `handle` whose device-name buffer held `units`.
pub open spec fn built_from(d: DisplayInfo, handle: isize, units: Seq<u16>) -> bool {
    d.handle == handle && is_padded_name(utf16_lossy(units), d.display_name@)
}

impl DisplayInfo {
    /// Builds the descriptor of a monitor from the outcome of its metadata query.
    pub fn new(monitor_handle: isize, device_name: Option<Vec<u16>>) -> (r: Result<
        Self,
        EnumerationError,
    >)
        ensures
            device_name is None ==> r == Err::<Self, EnumerationError>(
                EnumerationError::MonitorQueryFailed { handle: monitor_handle },
            ),
            device_name is Some ==> r is Ok && built_from(
                r->Ok_0,
                monitor_handle,
                device_name->Some_0@,
            ),
    {
        match device_name {
            None => Err(EnumerationError::MonitorQueryFailed { handle: monitor_handle }),
            Some(units) => {
                let decoded = decode_utf16_lossy(units.as_slice());
                let display_name = padded_name(decoded.as_str());
                Ok(DisplayInfo { handle: monitor_handle, display_name })
            },
        }
    }
}

pub open spec fn all_queries_succeeded(reports: Seq<MonitorReport>) -> bool {
    forall|i: int| 0 <= i < reports.len() ==> (#[trigger] reports[i]).device_name is Some
}

/// Finishes a monitor enumeration: `enumerated` tells whether the operating
/// system's walk succeeded, `reports` holds what it visited, in order.
/// The first monitor whose query failed fails the whole call.
pub fn enumerate_displays(enumerated: bool, reports: Vec<MonitorReport>) -> (r: Result<
    Vec<DisplayInfo>,
    EnumerationError,
>)
    ensures
        !enumerated ==> r == Err::<Vec<DisplayInfo>, EnumerationError>(
            EnumerationError::EnumerationFailed,
        ),
        enumerated ==> (r is Ok <==> all_queries_succeeded(reports@)),
        r is Ok ==> r->Ok_0@.len() == reports@.len() && forall|i: int|
            0 <= i < reports@.len() ==> built_from(
                #[trigger] r->Ok_0@[i],
                reports@[i].handle,
                reports@[i].device_name->Some_0@,
            ),
        enumerated && !all_queries_succeeded(reports@) ==> exists|i: int|
            0 <= i < reports@.len() && (#[trigger] reports@[i]).device_name is None
                && all_queries_succeeded(reports@.subrange(0, i)) && r
                == Err::<Vec<DisplayInfo>, EnumerationError>(
                EnumerationError::MonitorQueryFailed { handle: reports@[i].handle },
            ),
{
    if !enumerated {
        return Err(EnumerationError::EnumerationFailed);
    }
    let n = reports.len();
    let ghost all = reports@;
    let mut rest = reports;
    let mut found: Vec<DisplayInfo> = Vec::new();
    let mut k: usize = 0;
    while rest.len() > 0
        invariant
            enumerated,
            all == reports@,
            all.len() == n,
            k + rest@.len() == all.len(),
            rest@ == all.subrange(k as int, all.len() as int),
            found@.len() == k,
            all_queries_succeeded(all.subrange(0, k as int)),
            forall|i: int|
                0 <= i < k ==> built_from(
                    #[trigger] found@[i],
                    all[i].handle,
                    all[i].device_name->Some_0@,
                ),
        decreases rest@.len(),
    {
        let report = rest.remove(0);
        assert(report == all[k as int]);
        match DisplayInfo::new(report.handle, report.device_name) {
            Ok(display) => {
                found.push(display);
            },
            Err(e) => {
                assert(!all_queries_succeeded(all));
                return Err(e);
            },
        }
        assert(all_queries_succeeded(all.subrange(0, k + 1))) by {
            assert forall|i: int| 0 <= i < k + 1 implies (#[trigger] all.subrange(0, k + 1)[i]).device_name is Some by {
                if i < k {
                    assert(all.subrange(0, k + 1)[i] == all.subrange(0, k as int)[i]);
                }
            }
        }
        k = k + 1;
        assert(rest@ =~= all.subrange(k as int, all.len() as int));
    }
    assert(all.subrange(0, k as int) =~= all);
    Ok(found)
}

/// Building the descriptor of one monitor twice from the same device-name
/// buffer gives the same handle and the same name.
pub proof fn lemma_display_construction_repeatable(
    handle: isize,
    units: Seq<u16>,
    a: DisplayInfo,
    b: DisplayInfo,
)
    requires
        built_from(a, handle, units),
        built_from(b, handle, units),
    ensures
        a.handle == b.handle,
        a.display_name@ == b.display_name@,
{
    lemma_padded_name_unique(utf16_lossy(units), a.display_name@, b.display_name@);
}

/// The descriptors of an enumeration stand one for each reported monitor,
/// with its handle, and no device name holds a NUL.
pub proof fn lemma_display_names_clean(reports: Seq<MonitorReport>, displays: Seq<DisplayInfo>)
    requires
        displays.len() == reports.len(),
        forall|i: int|
            0 <= i < reports.len() ==> built_from(
                #[trigger] displays[i],
                reports[i].handle,
                reports[i].device_name->Some_0@,
            ),
    ensures
        forall|i: int| 0 <= i < displays.len() ==> (#[trigger] displays[i]).handle == reports[i].handle,
        forall|i: int, k: int|
            0 <= i < displays.len() && 0 <= k < displays[i].display_name@.len()
                ==> #[trigger] displays[i].display_name@[k] != '\0',
{
    assert forall|i: int, k: int|
        0 <= i < displays.len() && 0 <= k < displays[i].display_name@.len()
        implies #[trigger] displays[i].display_name@[k] != '\0' by {
        assert(built_from(displays[i], reports[i].handle, reports[i].device_name->Some_0@));
        lemma_padded_name_clean(utf16_lossy(reports[i].device_name->Some_0@), displays[i].display_name@);
    }
}

} // verus!
