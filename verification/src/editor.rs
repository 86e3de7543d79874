//! Opening the host's editor on a file.

use crate::common::string::WideString;
use crate::farapi::FarApi;
use vstd::prelude::*;

verus! {

/// The editor flag word for a plain opening.
pub const EN_NONE: u64 = 0;

/// Opens the editor on a file, full-screen, cursor at the top, with the
/// host detecting the code page.
pub fn open_editor<A: FarApi>(api: &mut A, path: WideString) {
    let _ = api.editor(&path, None, 0, 0, -1, -1, EN_NONE, 1, 1, crate::viewer::CP_DEFAULT);
}

} // verus!
