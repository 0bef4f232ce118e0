use vstd::prelude::*;

verus! {

/// An ownership-transfer wrapper around one chunk of host-owned media data.
///
/// The engine never reads the memory behind a buffer; it only moves the
/// buffer between the host and the parser.  A buffer therefore carries just
/// an opaque, address-sized token naming the chunk, plus the chunk's length
/// in bytes.  Exclusive ownership of the chunk follows ownership of the
/// `Buffer` value: the type is deliberately neither `Clone` nor `Copy`, so a
/// chunk that has been transferred out can never be touched again.
#[derive(Debug, PartialEq, Eq, Structural)]
pub struct Buffer {
    /// Opaque token under which the host knows the chunk.  This layer never
    /// interprets it.
    pub handle: u64,
    /// Length of the chunk in bytes.
    pub size: u64,
}

impl Buffer {
    /// Wraps a host-owned chunk.  From here on the `Buffer` value stands for
    /// exclusive ownership of the chunk.
    pub fn new(handle: u64, size: u64) -> (b: Buffer)
        ensures
            b == (Buffer { handle, size }),
    {
        Buffer { handle, size }
    }
}

} // verus!
