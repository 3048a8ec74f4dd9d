//! Serialised values as they are sent, with a hint of how hard to compress them.

use vstd::prelude::*;

verus! {

/// How much effort compressing a value is worth.
#[derive(Debug, Copy, Clone, PartialEq, Eq, Structural)]
pub enum CompressionHint {
    /// The value is not worth compressing.
    NoCompression,
    Fast,
    High,
}

/// Values that know how they should be compressed.
pub trait CompressionHinting {
    /// The hint for this value.
    spec fn spec_compression_hint(&self) -> CompressionHint;

    fn compression_hint(&self) -> (res: CompressionHint)
        ensures
            res == self.spec_compression_hint(),
    ;
}

/// The encoded bytes of a value, ready to be sent; no compression is applied yet.
#[derive(Debug)]
pub enum CompressedBox {
    Plain(Vec<u8>),
}

impl CompressedBox {
    /// The box holding `data` as it is.
    pub fn uncompressed(data: Vec<u8>) -> (res: CompressedBox)
        ensures
            res == CompressedBox::Plain(data),
    {
        CompressedBox::Plain(data)
    }

    /// The encoded bytes of the value in the box.
    pub fn into_bytes(self) -> (res: Vec<u8>)
        ensures
            match self {
                CompressedBox::Plain(data) => res@ == data@,
            },
    {
        match self {
            CompressedBox::Plain(data) => data,
        }
    }
}

} // verus!
