//! Where the seed of a derivation comes from: the suite's own constant, or a
//! signer's public key.

use crate::generators::{count_in_reach, make_generators, spec_derive, Generators};
use crate::suite::Ciphersuite;
use bls12_381_plus::{G2Projective, Scalar};
use ff::Field;
use group::Curve;
use vstd::prelude::*;

verus! {

/// The order of the BLS12-381 scalar field, from its four 64-bit limbs, the
/// most significant first.
pub open spec fn scalar_modulus() -> nat {
    let w: nat = 0xffff_ffff_ffff_ffff + 1;
    ((0x73ed_a753_299d_7d48nat * w + 0x3339_d808_09a1_d805nat) * w + 0x53bd_a402_fffe_5bfenat) * w
        + 0xffff_ffff_0000_0001nat
}

/// The integer that a little-endian byte string encodes.
pub open spec fn le_value(b: Seq<u8>) -> nat
    decreases b.len(),
{
    if b.len() == 0 {
        0
    } else {
        b[0] as nat + 256 * le_value(b.subrange(1, b.len() as int))
    }
}

/// Whether 32 little-endian bytes encode a scalar below the field order.
pub open spec fn is_canonical_scalar(sk: Seq<u8>) -> bool {
    sk.len() == 32 && le_value(sk) < scalar_modulus()
}

/// The compressed encoding of the public key: the generator of G2 times the
/// scalar that the bytes of `sk` encode.
pub uninterp spec fn g2_public_key(sk: Seq<u8>) -> Seq<u8>;

/// Relies on `Scalar::from_bytes` of bls12_381_plus, which accepts exactly the
/// canonical little-endian encodings, and on multiplying `G2Projective::GENERATOR`
/// by the scalar, given in its 96-byte compressed form.
#[verifier::external_body]
fn public_key_of(sk: &[u8; 32]) -> (r: Option<[u8; 96]>)
    ensures
        r is Some <==> is_canonical_scalar(sk@),
        r matches Some(pk) ==> pk@ == g2_public_key(sk@),
{
    let s: Option<Scalar> = Scalar::from_bytes(sk).into();
    match s {
        Some(s) => Some((G2Projective::GENERATOR * s).to_affine().to_compressed()),
        None => None,
    }
}

/// Relies on `Field::random` of bls12_381_plus's `Scalar` drawn from
/// `rand::thread_rng`, and on `Scalar::to_bytes`, which writes the reduced
/// value in little-endian order.
#[verifier::external_body]
fn random_secret_key() -> (r: [u8; 32])
    ensures
        is_canonical_scalar(r@),
{
    Scalar::random(rand::thread_rng()).to_bytes()
}

/// What a signer-specific derivation with the secret key `sk` gives.
pub open spec fn spec_signer_derive(suite: Ciphersuite, sk: Seq<u8>, n: nat) -> (Seq<u8>, Seq<Seq<u8>>) {
    spec_derive(suite, g2_public_key(sk), n)
}

/// The base point and `len` generators of `suite`, seeded by the suite's own
/// generator seed.
pub fn global_generators(suite: Ciphersuite, len: usize) -> (r: Generators)
    requires
        count_in_reach(len as nat),
    ensures
        r@ == spec_derive(suite, suite.spec_generator_seed(), len as nat),
{
    make_generators(suite, None, len)
}

/// The base point and `len` generators of `suite`, seeded by the compressed
/// public key of the secret key `sk`; `None` where `sk` is no canonical scalar.
pub fn generators_for_secret_key(suite: Ciphersuite, sk: &[u8; 32], len: usize) -> (r: Option<Generators>)
    requires
        count_in_reach(len as nat),
    ensures
        r is Some <==> is_canonical_scalar(sk@),
        r matches Some(g) ==> g@ == spec_signer_derive(suite, sk@, len as nat),
{
    match public_key_of(sk) {
        Some(pk) => Some(make_generators(suite, Some(pk.as_slice()), len)),
        None => None,
    }
}

/// The base point and `len` generators of `suite`, seeded by the public key
/// of a freshly drawn secret key.
pub fn signer_specific_generators(suite: Ciphersuite, len: usize) -> (r: Generators)
    requires
        count_in_reach(len as nat),
    ensures
        exists|sk: Seq<u8>| is_canonical_scalar(sk) && r@ == spec_signer_derive(suite, sk, len as nat),
{
    let sk = random_secret_key();
    match public_key_of(&sk) {
        Some(pk) => make_generators(suite, Some(pk.as_slice()), len),
        None => {
            proof {
                assert(false);
            }
            make_generators(suite, None, len)
        },
    }
}

} // verus!
