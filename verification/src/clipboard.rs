use vstd::prelude::*;

verus! {

/// Outcome of one clipboard delivery attempt. The three cases keep
/// "not attempted" (no display session) apart from "attempted and failed".
pub enum ClipboardResult {
    Success,
    Unavailable,
    Error(String),
}

/// A context is headless when neither display-session indicator is present:
/// no X11-style display marker and no Wayland session marker.
pub open spec fn spec_headless(display_present: bool, wayland_present: bool) -> bool {
    !display_present && !wayland_present
}

/// Decides whether the environment is headless, given whether each of the
/// two display-session indicators is present. The caller reads the process
/// environment and hands the two facts in as plain booleans.
pub fn is_headless(display_present: bool, wayland_present: bool) -> (r: bool)
    ensures
        r == spec_headless(display_present, wayland_present),
{
    !display_present && !wayland_present
}

/// Relies on arboard::Clipboard::new and arboard::Clipboard::set_text:
/// acquiring the clipboard handle and writing the text each either succeed
/// or fail with an error of the clipboard subsystem, so the outcome is
/// Success or Error, never Unavailable.
#[verifier::external_body]
fn copy_direct(text: &str) -> (r: ClipboardResult)
    ensures
        !(r is Unavailable),
{
    match arboard::Clipboard::new() {
        Ok(mut clipboard) => match clipboard.set_text(text) {
            Ok(()) => ClipboardResult::Success,
            Err(e) => ClipboardResult::Error(e.to_string()),
        },
        Err(e) => ClipboardResult::Error(e.to_string()),
    }
}

/// Copy strategy for display-server platforms whose clipboard contents die
/// with the owning process. A detached holder process would make the copy
/// outlive this process; until that exists, the direct set is used and the
/// contents persist only where a clipboard manager runs.
pub fn copy_linux(text: &str) -> (r: ClipboardResult)
    ensures
        !(r is Unavailable),
{
    copy_direct(text)
}

/// Delivers `text` to the system clipboard. In a headless environment the
/// attempt is skipped and the outcome is Unavailable; otherwise a write is
/// attempted and the outcome reports how it went, never Unavailable.
pub fn copy_text(text: &str, display_present: bool, wayland_present: bool) -> (r: ClipboardResult)
    ensures
        spec_headless(display_present, wayland_present) ==> r is Unavailable,
        !spec_headless(display_present, wayland_present) ==> !(r is Unavailable),
{
    if is_headless(display_present, wayland_present) {
        return ClipboardResult::Unavailable;
    }
    copy_linux(text)
}

} // verus!
