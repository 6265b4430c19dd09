//! Device firmware partition reconciliation.
//!
//! The library resolves a device identity to a manifest URL, parses the
//! partition manifest, classifies each partition as up-to-date or stale by
//! comparing content digests, and drives the download / flash / re-verify
//! cycle through an explicit state machine.  All I/O (HTTP, raw partition
//! reads and writes, platform properties) is performed by the surrounding
//! application, which feeds results back to the state machine as events.

use vstd::prelude::*;

pub mod digest;
pub mod engine;
pub mod json;
pub mod manifest;

verus! {

/// Failure taxonomy of a reconciliation run.
///
/// `NetworkError` covers transport failures, `ParseError` invalid JSON,
/// `MalformedManifest` valid JSON of the wrong shape, `UnknownDevice` a
/// device id absent from the device manifest, and `IoError` a local read
/// or write failure.
#[derive(Clone, Copy, Debug, PartialEq, Eq, Structural)]
pub enum UpdateError {
    NetworkError,
    ParseError,
    MalformedManifest,
    UnknownDevice,
    IoError,
}

/// The device identity as the reconciliation logic sees it: the value of the
/// platform's product-name property when it is set, and the empty string when
/// it is not.  The property read itself happens outside the library.
pub fn get_device(property: Option<String>) -> (r: String)
    ensures
        match property {
            Some(s) => r@ == s@,
            None => r@ == Seq::<char>::empty(),
        },
{
    match property {
        Some(s) => s,
        None => String::new(),
    }
}

} // verus!
