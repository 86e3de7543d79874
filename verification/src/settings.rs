//! The settings side of the binding: the configuration entry point.

use crate::ffi;
use vstd::prelude::*;

verus! {

/// A configuration request: which of the plugin's configuration items the
/// host asks for.
pub struct ConfigureInfo {
    pub guid: ffi::GUID,
}

/// The settings capability a plugin may implement; the default declines.
pub trait ExportFunctions {
    fn configure(&self, _info: &ConfigureInfo) -> isize {
        0
    }
}

/// The configuration entry point: hands the requested item's GUID to the
/// plugin and passes its code through.
pub fn configure<P: ExportFunctions>(plugin: &P, guid: ffi::GUID) -> isize {
    plugin.configure(&ConfigureInfo { guid })
}

} // verus!
