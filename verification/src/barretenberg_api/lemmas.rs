use super::buffer::{lemma_array_of_seq, lemma_array_of_view};
use super::models::{Fq, Fr, Point};
use super::traits::{DeserializeBuffer, SerializeBuffer};
use vstd::prelude::*;

verus! {

/// The wire form of a value is as wide as the width that its type declares
/// for decoding: 32 bytes for either scalar, and for a point twice the width
/// of a coordinate, whatever the payloads hold.
pub proof fn lemma_wire_width(r: Fr, q: Fq, p: Point)
    ensures
        r.wire().len() == Fr::width() == 32,
        q.wire().len() == Fq::width() == 32,
        p.wire().len() == Point::width() == 2 * Fr::width() == 64,
{
}

/// Two scalars of the scalar field with the same wire form are the same scalar.
pub proof fn lemma_fr_wire_injective(a: Fr, b: Fr)
    requires
        a.wire() == b.wire(),
    ensures
        a == b,
{
    assert(a.data =~= b.data);
}

/// Two scalars of the base field with the same wire form are the same scalar.
pub proof fn lemma_fq_wire_injective(a: Fq, b: Fq)
    requires
        a.wire() == b.wire(),
    ensures
        a == b,
{
    assert(a.data =~= b.data);
}

/// Two points with the same wire form are the same point.
pub proof fn lemma_point_wire_injective(a: Point, b: Point)
    requires
        a.wire() == b.wire(),
    ensures
        a == b,
{
    assert(a.x.wire() =~= a.wire().subrange(0, 32));
    assert(b.x.wire() =~= b.wire().subrange(0, 32));
    assert(a.y.wire() =~= a.wire().subrange(32, 64));
    assert(b.y.wire() =~= b.wire().subrange(32, 64));
    lemma_fr_wire_injective(a.x, b.x);
    lemma_fr_wire_injective(a.y, b.y);
}

/// Encoding the scalar built from a payload and decoding the result gives
/// back a scalar with that very payload.
pub proof fn lemma_fr_round_trip(b: [u8; 32])
    ensures
        Fr::decode((Fr { data: b }).wire()) == (Fr { data: b }),
        Fr::decode((Fr { data: b }).wire()).data == b,
{
    lemma_array_of_view::<32>(b);
}

/// Encoding the base-field scalar built from a payload and decoding the
/// result gives back a scalar with that very payload.
pub proof fn lemma_fq_round_trip(b: [u8; 32])
    ensures
        Fq::decode((Fq { data: b }).wire()) == (Fq { data: b }),
        Fq::decode((Fq { data: b }).wire()).data == b,
{
    lemma_array_of_view::<32>(b);
}

/// Decoding the 64 bytes made of one payload followed by another gives the
/// point with those two payloads as `x` and `y`, and encoding that point
/// gives the same 64 bytes again.
pub proof fn lemma_point_round_trip(b1: [u8; 32], b2: [u8; 32])
    ensures
        Point::decode(b1@ + b2@) == (Point { x: Fr { data: b1 }, y: Fr { data: b2 } }),
        Point::decode(b1@ + b2@).wire() == b1@ + b2@,
{
    let bytes = b1@ + b2@;
    assert(bytes.subrange(0, 32) =~= b1@);
    assert(bytes.subrange(32, 64) =~= b2@);
    lemma_array_of_view::<32>(b1);
    lemma_array_of_view::<32>(b2);
}

/// The order of the coordinates shows in the wire form: swapping two
/// coordinates that differ changes the encoding.
pub proof fn lemma_point_order_matters(a: Fr, b: Fr)
    requires
        a != b,
    ensures
        (Point { x: a, y: b }).wire() != (Point { x: b, y: a }).wire(),
{
    if (Point { x: a, y: b }).wire() == (Point { x: b, y: a }).wire() {
        lemma_point_wire_injective(Point { x: a, y: b }, Point { x: b, y: a });
    }
}

/// Decoding any 32 bytes as a scalar of the scalar field and encoding the
/// result gives the same 32 bytes again.
pub proof fn lemma_fr_decode_then_wire(bytes: Seq<u8>)
    requires
        bytes.len() == Fr::width(),
    ensures
        Fr::decode(bytes).wire() == bytes,
{
    lemma_array_of_seq::<32>(bytes);
}

/// Decoding any 32 bytes as a scalar of the base field and encoding the
/// result gives the same 32 bytes again.
pub proof fn lemma_fq_decode_then_wire(bytes: Seq<u8>)
    requires
        bytes.len() == Fq::width(),
    ensures
        Fq::decode(bytes).wire() == bytes,
{
    lemma_array_of_seq::<32>(bytes);
}

/// Decoding any 64 bytes as a point and encoding the result gives the same
/// 64 bytes again.
pub proof fn lemma_point_decode_then_wire(bytes: Seq<u8>)
    requires
        bytes.len() == Point::width(),
    ensures
        Point::decode(bytes).wire() == bytes,
{
    lemma_fr_decode_then_wire(bytes.subrange(0, 32));
    lemma_fr_decode_then_wire(bytes.subrange(32, 64));
    assert(bytes.subrange(0, 32) + bytes.subrange(32, 64) =~= bytes);
}

} // verus!
