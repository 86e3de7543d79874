//! Shared marshalling machinery: translation traits and the owned raw-array
//! wrapper that backs every array pointer handed to the host.

use vstd::prelude::*;

pub mod ffi;
pub mod string;

verus! {

/// Fills a host-layout record from an owned source, installing the backing
/// buffers into a context so they outlive the call.
pub trait Enrichable<C, S> {
    fn enrich(&mut self, ctx: &mut C, source: S);
}

/// Releases whatever a context entry holds for a record.
pub trait Cleanable<C> {
    fn cleanup(&mut self, _ctx: &mut C) {
    }
}

} // verus!
