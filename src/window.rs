//! Top-level window descriptors and the rule chain that decides which of them
//! may be offered as capture targets.
use vstd::prelude::*;

use crate::error::EnumerationError;
use crate::text::str_equals;

verus! {

/// Style bit of a window that does not take input.
pub const WS_DISABLED: i32 = 0x0800_0000;

/// Extended style bit of a tool window (tooltips, floating palettes).
pub const WS_EX_TOOLWINDOW: i32 = 0x80;

/// Cloak reason reported for a window that the shell keeps from rendering.
pub const DWM_CLOAKED_SHELL: u32 = 0x2;

/// Window class of a UWP core window.
pub const CORE_WINDOW_CLASS: &'static str = "Windows.UI.Core.CoreWindow";

/// Window class of a UWP application frame.
pub const APPLICATION_FRAME_CLASS: &'static str = "ApplicationFrameWindow";

/// Window class of a windowed XAML popup.
pub const XAML_POPUP_CLASS: &'static str = "Xaml_WindowedPopupClass";

/// Caption of the task view surface.
pub const TASK_VIEW_TITLE: &'static str = "Task View";

/// Caption of a XAML island host.
pub const XAML_SOURCE_TITLE: &'static str = "DesktopWindowXamlSource";

/// Caption of a XAML popup host.
pub const POPUP_HOST_TITLE: &'static str = "PopupHost";

/// One top-level window as seen at enumeration time.
#[derive(Clone, Debug)]
pub struct WindowInfo {
    /// Identity of the window; the key of every attribute query.
    pub handle: isize,
    /// Current caption; may be empty.
    pub title: String,
    /// Registered window class.
    pub class_name: String,
}

/// What the window manager reported about one window when it was enumerated.
#[derive(Clone, Copy, Debug, PartialEq, Eq)]
pub struct WindowState {
    /// Handle of the desktop shell window.
    pub shell_window: isize,
    /// Whether the window is visible.
    pub visible: bool,
    /// The window's root ancestor.
    pub root_ancestor: isize,
    /// Style bits.
    pub style: i32,
    /// Extended style bits.
    pub ex_style: i32,
    /// Cloak reason, or `None` where the cloak query failed or was not made.
    pub cloaked: Option<u32>,
}

/// A window together with the attribute state it had when it was enumerated.
#[derive(Clone, Debug)]
pub struct WindowCandidate {
    pub info: WindowInfo,
    pub state: WindowState,
}

/// A style test as the rule chain phrases it: the masked flags compared with one,
/// not with zero. For a mask other than bit zero it never fires, so neither the
/// disabled rule nor the tool-window rule rejects a window; which windows those
/// rules should filter is left open, and the literal comparison stands.
pub open spec fn style_test(flags: i32, mask: i32) -> bool {
    flags & mask == 1
}

pub open spec fn is_uwp_host_class(class_name: Seq<char>) -> bool {
    class_name == CORE_WINDOW_CLASS@ || class_name == APPLICATION_FRAME_CLASS@
}

/// A UWP host window whose cloak query succeeded with the shell reason.
pub open spec fn cloaked_by_shell(class_name: Seq<char>, cloaked: Option<u32>) -> bool {
    is_uwp_host_class(class_name) && cloaked == Some(DWM_CLOAKED_SHELL)
}

/// The fixed table of (title, class) pairs that pass every structural rule
/// yet have nothing to capture.
pub open spec fn is_known_blocked(title: Seq<char>, class_name: Seq<char>) -> bool {
    (title == TASK_VIEW_TITLE@ && class_name == CORE_WINDOW_CLASS@)
        || (title == XAML_SOURCE_TITLE@ && class_name == CORE_WINDOW_CLASS@)
        || (title == POPUP_HOST_TITLE@ && class_name == XAML_POPUP_CLASS@)
}

/// The structural rules: a titled, visible, enabled top-level window that is
/// neither the shell window nor a tool window.
pub open spec fn passes_structural_rules(info: WindowInfo, state: WindowState) -> bool {
    info.title@.len() > 0
        && info.handle != state.shell_window
        && state.visible
        && state.root_ancestor == info.handle
        && !style_test(state.style, WS_DISABLED)
        && !style_test(state.ex_style, WS_EX_TOOLWINDOW)
}

/// Whether a window may be offered as a capture target.
pub open spec fn capturable(info: WindowInfo, state: WindowState) -> bool {
    passes_structural_rules(info, state)
        && !cloaked_by_shell(info.class_name@, state.cloaked)
        && !is_known_blocked(info.title@, info.class_name@)
}

impl WindowInfo {
    pub fn new(handle: isize, title: String, class_name: String) -> (r: Self)
        ensures
            r.handle == handle,
            r.title@ == title@,
            r.class_name@ == class_name@,
    {
        WindowInfo { handle, title, class_name }
    }

    pub fn matches_title_and_class_name(&self, title: &str, class_name: &str) -> (r: bool)
        ensures
            r == (self.title@ == title@ && self.class_name@ == class_name@),
    {
        str_equals(self.title.as_str(), title) && str_equals(self.class_name.as_str(), class_name)
    }
}

/// Whether the window is one of the known blocked system surfaces.
pub fn is_known_blocked_window(window_info: &WindowInfo) -> (r: bool)
    ensures
        r == is_known_blocked(window_info.title@, window_info.class_name@),
{
    window_info.matches_title_and_class_name(TASK_VIEW_TITLE, CORE_WINDOW_CLASS)
        || window_info.matches_title_and_class_name(XAML_SOURCE_TITLE, CORE_WINDOW_CLASS)
        || window_info.matches_title_and_class_name(POPUP_HOST_TITLE, XAML_POPUP_CLASS)
}

/// Whether the window belongs to one of the UWP host classes, the only
/// windows whose cloak state the rule chain reads.
pub fn is_uwp_host_window(info: &WindowInfo) -> (r: bool)
    ensures
        r == is_uwp_host_class(info.class_name@),
{
    str_equals(info.class_name.as_str(), CORE_WINDOW_CLASS) || str_equals(
        info.class_name.as_str(),
        APPLICATION_FRAME_CLASS,
    )
}

/// Runs the rule chain on one window, stopping at the first rule that rejects it.
pub fn is_capturable(info: &WindowInfo, state: &WindowState) -> (r: bool)
    ensures
        r == capturable(*info, *state),
{
    if info.title.as_str().unicode_len() == 0 || info.handle == state.shell_window
        || !state.visible || state.root_ancestor != info.handle {
        return false;
    }
    if state.style & WS_DISABLED == 1 {
        return false;
    }
    // No tooltips.
    if state.ex_style & WS_EX_TOOLWINDOW == 1 {
        return false;
    }
    // A UWP frame that the shell cloaks is a placeholder with nothing rendered.
    if is_uwp_host_window(info) {
        match state.cloaked {
            Some(reason) => {
                if reason == DWM_CLOAKED_SHELL {
                    return false;
                }
            },
            None => {},
        }
    }
    !is_known_blocked_window(info)
}

/// A window that can be asked whether it should be offered for capture.
pub trait CaptureWindowCandidate {
    spec fn capturable_spec(&self) -> bool;

    fn is_capturable_window(&self) -> (r: bool)
        ensures
            r == self.capturable_spec(),
    ;
}

impl CaptureWindowCandidate for WindowCandidate {
    open spec fn capturable_spec(&self) -> bool {
        capturable(self.info, self.state)
    }

    fn is_capturable_window(&self) -> (r: bool) {
        is_capturable(&self.info, &self.state)
    }
}

/// The windows of `candidates` that pass the rule chain, in visitation order.
pub open spec fn capturable_infos(candidates: Seq<WindowCandidate>) -> Seq<WindowInfo>
    decreases candidates.len(),
{
    if candidates.len() == 0 {
        Seq::empty()
    } else {
        let earlier = capturable_infos(candidates.drop_last());
        let last = candidates.last();
        if capturable(last.info, last.state) {
            earlier.push(last.info)
        } else {
            earlier
        }
    }
}

/// The per-window step of an enumeration: keeps the window if it is capturable.
pub fn accept_window(found: &mut Vec<WindowInfo>, candidate: WindowCandidate)
    ensures
        final(found)@ == if capturable(candidate.info, candidate.state) {
            old(found)@.push(candidate.info)
        } else {
            old(found)@
        },
{
    if candidate.is_capturable_window() {
        found.push(candidate.info);
    }
}

/// Finishes a window enumeration: `enumerated` tells whether the operating
/// system's walk succeeded, `candidates` holds what it visited, in order.
pub fn enumerate_capturable_windows(enumerated: bool, candidates: Vec<WindowCandidate>) -> (r:
    Result<Vec<WindowInfo>, EnumerationError>)
    ensures
        !enumerated ==> r == Err::<Vec<WindowInfo>, EnumerationError>(
            EnumerationError::EnumerationFailed,
        ),
        enumerated ==> r is Ok && r->Ok_0@ == capturable_infos(candidates@),
{
    if !enumerated {
        return Err(EnumerationError::EnumerationFailed);
    }
    let n = candidates.len();
    let ghost all = candidates@;
    let mut rest = candidates;
    let mut found: Vec<WindowInfo> = Vec::new();
    let mut k: usize = 0;
    while rest.len() > 0
        invariant
            all.len() == n,
            k + rest@.len() == all.len(),
            rest@ == all.subrange(k as int, all.len() as int),
            found@ == capturable_infos(all.subrange(0, k as int)),
        decreases rest@.len(),
    {
        let candidate = rest.remove(0);
        accept_window(&mut found, candidate);
        proof {
            assert(all.subrange(0, k + 1).drop_last() =~= all.subrange(0, k as int));
        }
        k = k + 1;
        assert(rest@ =~= all.subrange(k as int, all.len() as int));
    }
    assert(all.subrange(0, k as int) =~= all);
    Ok(found)
}

/// No two windows of the sequence share a handle.
pub open spec fn distinct_handles(infos: Seq<WindowInfo>) -> bool {
    forall|i: int, j: int| 0 <= i < j < infos.len() ==> infos[i].handle != infos[j].handle
}

pub open spec fn distinct_candidates(candidates: Seq<WindowCandidate>) -> bool {
    forall|i: int, j: int|
        0 <= i < j < candidates.len() ==> candidates[i].info.handle != candidates[j].info.handle
}

/// With the masks of the disabled and tool-window rules, the style test is
/// false for every value of the flags.
pub proof fn lemma_style_tests_never_fire(style: i32, ex_style: i32)
    ensures
        !style_test(style, WS_DISABLED),
        !style_test(ex_style, WS_EX_TOOLWINDOW),
{
    assert(style & 0x0800_0000i32 != 1i32) by (bit_vector);
    assert(ex_style & 0x80i32 != 1i32) by (bit_vector);
}

/// A window without a title is never capturable.
pub proof fn lemma_untitled_window_rejected(info: WindowInfo, state: WindowState)
    requires
        info.title@.len() == 0,
    ensures
        !capturable(info, state),
{
}

/// A titled, visible, enabled top-level window that is neither the shell window
/// nor a tool window is capturable unless the shell cloaks it or it is a known
/// blocked surface.
pub proof fn lemma_structurally_sound_window(info: WindowInfo, state: WindowState)
    requires
        state.style & WS_DISABLED == 0,
        state.ex_style & WS_EX_TOOLWINDOW == 0,
        info.title@.len() > 0,
        state.visible,
        state.root_ancestor == info.handle,
        info.handle != state.shell_window,
    ensures
        capturable(info, state) == (!cloaked_by_shell(info.class_name@, state.cloaked)
            && !is_known_blocked(info.title@, info.class_name@)),
{
}

/// The three known blocked (title, class) pairs are rejected whatever else
/// holds of the window.
pub proof fn lemma_known_blocked_rejected(info: WindowInfo, state: WindowState)
    requires
        (info.title@ == TASK_VIEW_TITLE@ && info.class_name@ == CORE_WINDOW_CLASS@)
            || (info.title@ == XAML_SOURCE_TITLE@ && info.class_name@ == CORE_WINDOW_CLASS@)
            || (info.title@ == POPUP_HOST_TITLE@ && info.class_name@ == XAML_POPUP_CLASS@),
    ensures
        !capturable(info, state),
{
}

/// A core window cloaked by the shell is rejected; cloaked for another reason,
/// it is accepted when every other rule passes.
pub proof fn lemma_core_window_cloak(info: WindowInfo, state: WindowState)
    requires
        info.class_name@ == CORE_WINDOW_CLASS@,
    ensures
        state.cloaked == Some(DWM_CLOAKED_SHELL) ==> !capturable(info, state),
        state.cloaked is Some && state.cloaked != Some(DWM_CLOAKED_SHELL) && passes_structural_rules(
            info,
            state,
        ) && !is_known_blocked(info.title@, info.class_name@) ==> capturable(info, state),
{
}

/// `info` is one of the visited windows, and passes the rule chain.
pub open spec fn kept_from(candidates: Seq<WindowCandidate>, info: WindowInfo) -> bool {
    exists|j: int|
        0 <= j < candidates.len() && candidates[j].info == info && capturable(
            candidates[j].info,
            candidates[j].state,
        )
}

/// Every window that an enumeration keeps is a visited window that passes the
/// rule chain, and where the visited windows have distinct handles so do the
/// kept ones.
pub proof fn lemma_enumeration_sound(candidates: Seq<WindowCandidate>)
    ensures
        forall|i: int|
            0 <= i < capturable_infos(candidates).len() ==> kept_from(
                candidates,
                #[trigger] capturable_infos(candidates)[i],
            ),
        distinct_candidates(candidates) ==> distinct_handles(capturable_infos(candidates)),
    decreases candidates.len(),
{
    if candidates.len() > 0 {
        let earlier = candidates.drop_last();
        lemma_enumeration_sound(earlier);
        let found = capturable_infos(candidates);
        let j_last = candidates.len() - 1;
        assert forall|i: int| 0 <= i < found.len() implies kept_from(candidates, #[trigger] found[i]) by {
            if i < capturable_infos(earlier).len() {
                assert(found[i] == capturable_infos(earlier)[i]);
                assert(kept_from(earlier, capturable_infos(earlier)[i]));
                let j = choose|j: int|
                    0 <= j < earlier.len() && earlier[j].info == capturable_infos(earlier)[i]
                        && capturable(earlier[j].info, earlier[j].state);
                assert(candidates[j] == earlier[j]);
            } else {
                assert(found[i] == candidates[j_last].info);
            }
        }
        if distinct_candidates(candidates) {
            assert(distinct_candidates(earlier));
            let last = candidates.last();
            if capturable(last.info, last.state) {
                assert forall|i: int| 0 <= i < capturable_infos(earlier).len() implies capturable_infos(
                    earlier,
                )[i].handle != last.info.handle by {
                    assert(kept_from(earlier, capturable_infos(earlier)[i]));
                    let j = choose|j: int|
                        0 <= j < earlier.len() && earlier[j].info == capturable_infos(earlier)[i]
                            && capturable(earlier[j].info, earlier[j].state);
                    assert(candidates[j] == earlier[j]);
                }
            }
        }
    }
}

} // verus!
