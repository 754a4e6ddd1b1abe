use capture_targets::display::{enumerate_displays, DisplayInfo, MonitorReport, CCHDEVICENAME};
use capture_targets::error::EnumerationError;
use capture_targets::text::padded_name;

fn buffer(name: &str) -> Vec<u16> {
    let mut units: Vec<u16> = name.encode_utf16().collect();
    units.resize(CCHDEVICENAME, 0);
    units
}

#[test]
fn device_name_padding_is_trimmed() {
    let d = DisplayInfo::new(0x100, Some(buffer("\\\\.\\DISPLAY1"))).unwrap();
    assert_eq!(d.handle, 0x100);
    assert_eq!(d.display_name, "\\\\.\\DISPLAY1");
}

#[test]
fn name_ends_at_the_first_null_after_leading_ones() {
    let units: Vec<u16> = vec![0, 0, 'A' as u16, 0, 'B' as u16, 0, 0];
    let d = DisplayInfo::new(1, Some(units)).unwrap();
    assert_eq!(d.display_name, "A");
    assert!(!d.display_name.contains('\0'));
}

#[test]
fn all_null_buffer_gives_empty_name() {
    let d = DisplayInfo::new(1, Some(vec![0u16; CCHDEVICENAME])).unwrap();
    assert_eq!(d.display_name, "");
    let d = DisplayInfo::new(1, Some(Vec::new())).unwrap();
    assert_eq!(d.display_name, "");
}

#[test]
fn full_buffer_without_terminator_is_kept_whole() {
    let units: Vec<u16> = vec!['X' as u16; CCHDEVICENAME];
    let d = DisplayInfo::new(1, Some(units)).unwrap();
    assert_eq!(d.display_name, "X".repeat(CCHDEVICENAME));
}

#[test]
fn unpaired_surrogate_is_replaced() {
    let units: Vec<u16> = vec!['A' as u16, 0xD800, 'B' as u16, 0];
    let d = DisplayInfo::new(1, Some(units)).unwrap();
    assert_eq!(d.display_name, "A\u{FFFD}B");
}

#[test]
fn failed_metadata_query_is_an_error() {
    let r = DisplayInfo::new(0x42, None);
    assert_eq!(r.unwrap_err(), EnumerationError::MonitorQueryFailed { handle: 0x42 });
}

#[test]
fn repeated_construction_gives_equal_descriptors() {
    let a = DisplayInfo::new(7, Some(buffer("\\\\.\\DISPLAY2"))).unwrap();
    let b = DisplayInfo::new(7, Some(buffer("\\\\.\\DISPLAY2"))).unwrap();
    assert_eq!(a.handle, b.handle);
    assert_eq!(a.display_name, b.display_name);
}

#[test]
fn one_descriptor_per_monitor_in_order() {
    let reports = vec![
        MonitorReport { handle: 11, device_name: Some(buffer("\\\\.\\DISPLAY1")) },
        MonitorReport { handle: 22, device_name: Some(buffer("\\\\.\\DISPLAY2")) },
        MonitorReport { handle: 33, device_name: Some(buffer("\\\\.\\DISPLAY3")) },
    ];
    let displays = enumerate_displays(true, reports).unwrap();
    assert_eq!(displays.len(), 3);
    let handles: Vec<isize> = displays.iter().map(|d| d.handle).collect();
    assert_eq!(handles, vec![11, 22, 33]);
    assert_eq!(displays[2].display_name, "\\\\.\\DISPLAY3");
    for d in &displays {
        assert!(!d.display_name.contains('\0'));
    }
}

#[test]
fn no_monitors_gives_empty_list() {
    let displays = enumerate_displays(true, Vec::new()).unwrap();
    assert!(displays.is_empty());
}

#[test]
fn first_failed_monitor_query_fails_the_enumeration() {
    let reports = vec![
        MonitorReport { handle: 11, device_name: Some(buffer("\\\\.\\DISPLAY1")) },
        MonitorReport { handle: 22, device_name: None },
        MonitorReport { handle: 33, device_name: None },
    ];
    let r = enumerate_displays(true, reports);
    assert_eq!(r.unwrap_err(), EnumerationError::MonitorQueryFailed { handle: 22 });
}

#[test]
fn failed_monitor_enumeration_is_an_error() {
    let reports = vec![MonitorReport { handle: 11, device_name: Some(buffer("\\\\.\\DISPLAY1")) }];
    let r = enumerate_displays(false, reports);
    assert_eq!(r.unwrap_err(), EnumerationError::EnumerationFailed);
}

#[test]
fn padded_name_examples() {
    assert_eq!(padded_name("\0\0abc\0"), "abc");
    assert_eq!(padded_name("abc"), "abc");
    assert_eq!(padded_name("\0"), "");
    assert_eq!(padded_name(""), "");
    assert_eq!(padded_name("\0é\0ü\0"), "é");
    assert_eq!(padded_name("DISPLAY1\0garbage"), "DISPLAY1");
}
