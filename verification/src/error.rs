//! Error kinds surfaced by the tracer core.

use vstd::prelude::*;

verus! {

/// Why a recompute or an encode was refused. The previous image and ray
/// state are always left unchanged when one of these is returned.
#[derive(Clone, Copy, PartialEq, Eq, Structural, Debug)]
pub enum TracerError {
    /// A zero width or height was requested.
    Configuration,
    /// The requested resolution is beyond what this host will allocate.
    ResourceExhaustion,
    /// The scene cannot be serialized (a list length exceeds the explicit
    /// 32-bit length field of the flat buffer layout).
    Encoding,
}

} // verus!
