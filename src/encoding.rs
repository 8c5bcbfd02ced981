//! Text forms of the derived points.

use crate::generators::Generators;
use vstd::prelude::*;

verus! {

/// The sixteen lower-case hexadecimal digits.
pub open spec fn hex_digits() -> Seq<char> {
    seq!['0', '1', '2', '3', '4', '5', '6', '7', '8', '9', 'a', 'b', 'c', 'd', 'e', 'f']
}

/// Lower-case hexadecimal text of bytes: two digits per byte, the high half first.
pub open spec fn hex_of(b: Seq<u8>) -> Seq<char> {
    Seq::new(
        2 * b.len(),
        |i: int|
            if i % 2 == 0 {
                hex_digits()[b[i / 2] as int / 16]
            } else {
                hex_digits()[b[i / 2] as int % 16]
            },
    )
}

/// Relies on `hex::encode`, which writes each byte as two lower-case digits,
/// the high half first.
#[verifier::external_body]
fn encode_hex(b: &[u8]) -> (r: String)
    ensures
        r@ == hex_of(b@),
{
    hex::encode(b)
}

/// The hexadecimal text of a compressed point.
pub fn point_hex(p: &[u8; 48]) -> (r: String)
    ensures
        r@ == hex_of(p@),
{
    encode_hex(p.as_slice())
}

/// The hexadecimal text of each message generator, in order.
pub fn generators_hex(g: &Generators) -> (r: Vec<String>)
    ensures
        r@.len() == g.message_generators@.len(),
        forall|i: int| 0 <= i < r@.len() ==> (#[trigger] r@[i])@ == hex_of(g.message_generators@[i]@),
{
    let mut out: Vec<String> = Vec::new();
    let mut i: usize = 0;
    while i < g.message_generators.len()
        invariant
            i <= g.message_generators@.len(),
            out@.len() == i,
            forall|j: int| 0 <= j < i ==> (#[trigger] out@[j])@ == hex_of(g.message_generators@[j]@),
        decreases g.message_generators@.len() - i,
    {
        out.push(point_hex(&g.message_generators[i]));
        i = i + 1;
    }
    out
}

} // verus!
