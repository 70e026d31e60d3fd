use vstd::prelude::*;

verus! {

/// A value with a canonical wire form: the flat run of bytes that stands for
/// it on the far side of the foreign boundary.
pub trait SerializeBuffer {
    /// The canonical wire form of the value.
    spec fn wire(&self) -> Seq<u8>;

    /// Hands out an owned buffer that holds the wire form of the value.
    /// Encoding cannot fail and leaves the value as it was.
    fn to_buffer(&self) -> (buf: Vec<u8>)
        ensures
            buf@ == self.wire(),
    ;
}

/// A value that is rebuilt from a buffer of one fixed width.
///
/// The width belongs to the type, not to the call: every buffer handed to
/// `from_buffer` holds exactly `width()` bytes, and nothing else about its
/// contents is looked at.
pub trait DeserializeBuffer: Sized {
    /// The buffer that a value is rebuilt from.
    type Slice: View<V = Seq<u8>>;

    /// The declared width: how many bytes stand for one value.
    spec fn width() -> nat;

    /// The value that `bytes` stand for, where `bytes` has the declared width.
    spec fn decode(bytes: Seq<u8>) -> Self;

    /// Rebuilds the value that the bytes of `buf` stand for.
    fn from_buffer(buf: Self::Slice) -> (value: Self)
        requires
            buf@.len() == Self::width(),
        ensures
            value == Self::decode(buf@),
    ;
}

} // verus!
