//! Odd host services: the colour chooser.

use crate::basic;
use crate::farapi::FarApi;
use crate::ffi;
use vstd::prelude::*;

verus! {

/// Reads the colour chooser's outcome: a nonzero code means the user picked
/// the returned colour, zero means cancellation.
pub fn color_result(code: isize, color: ffi::FarColor) -> (r: Option<ffi::FarColor>)
    ensures
        code != 0 ==> r == Some(color),
        code == 0 ==> r is None,
{
    if code != 0 {
        Some(color)
    } else {
        None
    }
}

/// Shows the host's colour chooser and hands back what the user picked, or
/// nothing on cancellation.
pub fn show_color_chooser_dialog<A: FarApi>(
    api: &mut A,
    context: &basic::ctx::Context,
    flags: u64,
) -> (r: Option<ffi::FarColor>)
    requires
        context.has_global_info(),
{
    let guid = context.plugin_guid();
    let (code, color) = api.color_dialog(&guid, flags, ffi::FarColor::default());
    color_result(code, color)
}

} // verus!
