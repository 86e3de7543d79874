//! Opening the host's viewer on a file.

use crate::common::string::WideString;
use crate::farapi::FarApi;
use vstd::prelude::*;

verus! {

/// The viewer flag word for a plain opening.
pub const VF_NONE: u64 = 0;

/// The code-page word that lets the host pick the code page itself.
pub const CP_DEFAULT: usize = usize::MAX;

/// Opens the viewer on a file, full-screen, with the host detecting the
/// code page.
pub fn open_viewer<A: FarApi>(api: &mut A, path: String) {
    let file_name = WideString::from_str(path.as_str());
    let _ = api.viewer(&file_name, None, 0, 0, -1, -1, VF_NONE, CP_DEFAULT);
}

} // verus!
