use super::buffer::{array_of, lemma_array_of_view};
use super::traits::{DeserializeBuffer, SerializeBuffer};
use vstd::prelude::*;
use vstd::slice::slice_to_vec;

verus! {

/// Copies the 32 bytes of `buf` that start at `start` into an array of their own.
fn copy_half(buf: &[u8; 64], start: usize) -> (half: [u8; 32])
    requires
        start + 32 <= 64,
    ensures
        half@ == buf@.subrange(start as int, start + 32),
{
    let mut half: [u8; 32] = [0; 32];
    let mut i: usize = 0;
    while i < 32
        invariant
            i <= 32,
            start + 32 <= 64,
            forall|j: int| 0 <= j < i ==> half@[j] == buf@[start + j],
        decreases 32 - i,
    {
        half[i] = buf[start + i];
        i += 1;
    }
    assert(half@ =~= buf@.subrange(start as int, start + 32));
    half
}

/// An element of the scalar field, held as 32 opaque bytes.
/// No byte pattern is ruled out here: whether the bytes name a number below
/// the field's modulus is for the native engine to say.
pub struct Fr {
    pub data: [u8; 32],
}

impl View for Fr {
    type V = Seq<u8>;

    /// The payload, as a sequence of 32 bytes.
    open spec fn view(&self) -> Seq<u8> {
        self.data@
    }
}

impl SerializeBuffer for Fr {
    /// A scalar goes over the wire as its payload, unchanged.
    open spec fn wire(&self) -> Seq<u8> {
        self@
    }

    /// Copies the payload out: 32 bytes, whatever they hold.
    fn to_buffer(&self) -> (buf: Vec<u8>)
        ensures
            buf@ == self@,
            buf@.len() == 32,
    {
        slice_to_vec(self.data.as_slice())
    }
}

impl DeserializeBuffer for Fr {
    type Slice = [u8; 32];

    open spec fn width() -> nat {
        32
    }

    /// The scalar whose payload is `bytes`.
    open spec fn decode(bytes: Seq<u8>) -> Fr {
        Fr { data: array_of::<32>(bytes) }
    }

    /// Takes the 32 bytes of `buf` as the payload, byte for byte.
    fn from_buffer(buf: [u8; 32]) -> (value: Fr)
        ensures
            value.data == buf,
            value.wire() == buf@,
    {
        proof {
            lemma_array_of_view::<32>(buf);
        }
        Fr { data: buf }
    }
}

/// An element of the base field, held as 32 opaque bytes.
/// It has the layout of `Fr` and is a type of its own, so that a value of one
/// field is never taken for a value of the other.
pub struct Fq {
    pub data: [u8; 32],
}

impl View for Fq {
    type V = Seq<u8>;

    /// The payload, as a sequence of 32 bytes.
    open spec fn view(&self) -> Seq<u8> {
        self.data@
    }
}

impl SerializeBuffer for Fq {
    /// A scalar goes over the wire as its payload, unchanged.
    open spec fn wire(&self) -> Seq<u8> {
        self@
    }

    /// Copies the payload out: 32 bytes, whatever they hold.
    fn to_buffer(&self) -> (buf: Vec<u8>)
        ensures
            buf@ == self@,
            buf@.len() == 32,
    {
        slice_to_vec(self.data.as_slice())
    }
}

impl DeserializeBuffer for Fq {
    type Slice = [u8; 32];

    open spec fn width() -> nat {
        32
    }

    /// The scalar whose payload is `bytes`.
    open spec fn decode(bytes: Seq<u8>) -> Fq {
        Fq { data: array_of::<32>(bytes) }
    }

    /// Takes the 32 bytes of `buf` as the payload, byte for byte.
    fn from_buffer(buf: [u8; 32]) -> (value: Fq)
        ensures
            value.data == buf,
            value.wire() == buf@,
    {
        proof {
            lemma_array_of_view::<32>(buf);
        }
        Fq { data: buf }
    }
}

/// A curve point in affine form: its two coordinates, first `x`, then `y`.
/// Nothing here asks whether the pair lies on a curve.
pub struct Point {
    pub x: Fr,
    pub y: Fr,
}

impl View for Point {
    type V = (Seq<u8>, Seq<u8>);

    /// The payloads of the two coordinates, `x` first.
    open spec fn view(&self) -> (Seq<u8>, Seq<u8>) {
        (self.x@, self.y@)
    }
}

impl SerializeBuffer for Point {
    /// The wire form of `x` followed at once by the wire form of `y`:
    /// no length in front, no padding between or after.
    open spec fn wire(&self) -> Seq<u8> {
        self.x.wire() + self.y.wire()
    }

    /// Writes out the 32 bytes of `x` and after them the 32 bytes of `y`.
    fn to_buffer(&self) -> (buf: Vec<u8>)
        ensures
            buf@ == self.x@ + self.y@,
            buf@.len() == 64,
    {
        let mut buf = self.x.to_buffer();
        let mut tail = self.y.to_buffer();
        buf.append(&mut tail);
        buf
    }
}

impl DeserializeBuffer for Point {
    type Slice = [u8; 64];

    open spec fn width() -> nat {
        64
    }

    /// The point whose `x` is what the first half of `bytes` stands for and
    /// whose `y` is what the second half stands for.
    open spec fn decode(bytes: Seq<u8>) -> Point {
        Point { x: Fr::decode(bytes.subrange(0, 32)), y: Fr::decode(bytes.subrange(32, 64)) }
    }

    /// Splits `buf` at its midpoint, copies each half into a buffer of its
    /// own, and rebuilds `x` from the first and `y` from the second.
    fn from_buffer(buf: [u8; 64]) -> (value: Point)
        ensures
            value@ == (buf@.subrange(0, 32), buf@.subrange(32, 64)),
            value.wire() == buf@,
    {
        let first = copy_half(&buf, 0);
        let second = copy_half(&buf, 32);
        let value = Point { x: Fr::from_buffer(first), y: Fr::from_buffer(second) };
        assert(value.wire() =~= buf@);
        value
    }
}

} // verus!
