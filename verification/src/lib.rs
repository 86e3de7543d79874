//! A safe, verified model of the Far Manager plugin binding's marshalling core:
//! the wide-string codec, the owned raw-array wrapper, the per-handle context
//! store that keeps host-visible buffers alive, and the dispatch shims that
//! validate the host's struct-size handshake.

use vstd::prelude::*;

pub mod basic;
pub mod common;
pub mod dialog;
pub mod editor;
pub mod farapi;
pub mod ffi;
pub mod misc;
pub mod panel;
pub mod settings;
pub mod viewer;

pub use common::string::WideString;
pub use ffi::GUID;
pub use ffi::HANDLE;

verus! {

/// The failure value a plugin operation reports to the dispatch layer.
#[derive(Clone, Copy, PartialEq, Eq, Structural, Debug)]
pub struct Error {
    pub code: isize,
}

impl Error {
    pub fn new(code: isize) -> (r: Error)
        ensures
            r.code == code,
    {
        Error { code }
    }
}

/// A plugin as the binding sees it: every plugin answers the basic
/// describe-and-open calls; the panel and settings capabilities are taken
/// up by additionally implementing those traits, and the entry points the
/// surrounding library exports decide which capabilities the host sees.
pub trait FarPlugin: basic::ExportFunctions {
}

/// Chooses the line reported for a caught panic: the panic's own text when
/// its payload carried one, a fixed line otherwise. Reading the payload is
/// the caller's part; this is the whole of the decision.
pub fn handle_panic(payload: Option<String>) -> (r: String)
    ensures
        payload matches Some(text) ==> r@ == text@,
        payload is None ==> r@ == "Oups! Something went wrong."@,
{
    match payload {
        Some(text) => text,
        None => "Oups! Something went wrong.".to_owned(),
    }
}

/// The two results a simple panel operation reports to the host.
pub enum ReturnCode {
    Success,
    UserCancel,
}

impl ReturnCode {
    /// The code the ABI writes for this result.
    pub open spec fn value_spec(&self) -> isize {
        match self {
            ReturnCode::Success => 1isize,
            ReturnCode::UserCancel => -1isize,
        }
    }

    pub fn value(&self) -> (r: isize)
        ensures
            r == self.value_spec(),
    {
        match self {
            ReturnCode::Success => 1isize,
            ReturnCode::UserCancel => -1isize,
        }
    }
}

} // verus!
