//! The typed errors every fallible operation surfaces.

use vstd::prelude::*;

verus! {

/// Failure reported by the facade or by the capture device behind it.
///
/// Every variant carries the original cause as a string, so a caller can
/// inspect what went wrong without the process aborting:
/// - `DeviceInitError`: the device could not be opened or configured at
///   construction; no partial facade is returned.
/// - `GetPropertyError` / `SetPropertyError`: a property read or write failed;
///   the variant names the property (and for a write the refused value).  An
///   embedding that finds its lock poisoned reports it through these variants.
/// - `OpenStreamError`: the device refused to start producing frames.
/// - `ReadFrameError`: a single capture failed; the worker skips the iteration
///   and a synchronous poll surfaces this to its caller.
/// - `StreamShutdownError`: stopping the stream failed; the termination signal
///   is set regardless, so the worker still exits.
#[derive(Clone, PartialEq, Eq, Debug)]
pub enum CameraError {
    DeviceInitError(String),
    GetPropertyError { property: String, error: String },
    SetPropertyError { property: String, value: String, error: String },
    OpenStreamError(String),
    ReadFrameError(String),
    StreamShutdownError(String),
}

} // verus!
