//! The base point and the stream of message generators.

use crate::suite::{append_bytes, xof_hash_to_g1, xof_suite_id, Ciphersuite};
use crate::suite::hash_to_g1_xof_shake256;
use sha3::digest::{ExtendableOutput, Update, XofReader};
use sha3::Shake256;
use vstd::prelude::*;
use vstd::string::StringSliceAdditionalSpecFns;

verus! {

/// The number of bytes squeezed from the seed's stream for each generator.
pub const BLOCK_LEN: usize = 64;

/// The length of the buffer that the base point derivation expands into.
pub const EXPAND_LEN: usize = 48;

/// Whether a derivation of `n` generators is in reach: the stream that they
/// are read from must fit in the address space.
pub open spec fn count_in_reach(n: nat) -> bool {
    BLOCK_LEN * n <= usize::MAX
}

/// The first `len` bytes of the SHAKE-256 output stream for `input`.
pub uninterp spec fn shake256_output(input: Seq<u8>, len: nat) -> Seq<u8>;

/// Relies on `sha3::Shake256` (digest 0.9 `Update`, `ExtendableOutput` and
/// `XofReader`): absorbs `input` and squeezes `len` bytes. An extendable output
/// is a single stream, so each prefix of the bytes read is the output of that
/// shorter length.
#[verifier::external_body]
fn shake256_squeeze(input: &[u8], len: usize) -> (r: Vec<u8>)
    ensures
        r@.len() == len,
        forall|k: nat| k <= len ==> #[trigger] shake256_output(input@, k) == r@.subrange(0, k as int),
{
    let mut out = vec![0u8; len];
    Shake256::default().chain(input).finalize_xof().read(&mut out);
    out
}

/// The base point and the message generators, each a compressed point of G1.
#[derive(Debug)]
pub struct Generators {
    pub g1_base_point: [u8; 48],
    pub message_generators: Vec<[u8; 48]>,
}

impl View for Generators {
    type V = (Seq<u8>, Seq<Seq<u8>>);

    open spec fn view(&self) -> (Seq<u8>, Seq<Seq<u8>>) {
        (self.g1_base_point@, self.message_generators@.map_values(|p: [u8; 48]| p@))
    }
}

/// The placeholder that stands for the length of the expanded buffer: the
/// four low bytes of a zero machine word.
pub open spec fn length_placeholder() -> Seq<u8> {
    seq![0u8, 0u8, 0u8, 0u8]
}

/// The base point of a suite: its base point seed is expanded, expanded once
/// more with the placeholder appended, and hashed to the curve.
pub open spec fn spec_base_point(suite: Ciphersuite) -> Seq<u8> {
    let v = suite.spec_expand(suite.spec_bp_generator_seed(), suite.spec_generator_seed_dst(), EXPAND_LEN as nat);
    let v2 = suite.spec_expand(v + length_placeholder(), suite.spec_generator_seed_dst(), EXPAND_LEN as nat);
    suite.spec_hash_to_curve(v2, suite.spec_generator_dst())
}

/// The tag under which every message generator is hashed to the curve.
pub open spec fn generator_hash_dst() -> Seq<u8> {
    xof_suite_id()
}

/// The bytes of the seed's stream that generator `i` (from zero) is made from.
pub open spec fn generator_block(seed: Seq<u8>, i: nat) -> Seq<u8> {
    shake256_output(seed, (BLOCK_LEN * (i + 1)) as nat).subrange(BLOCK_LEN * i, BLOCK_LEN * (i + 1))
}

/// Generator `i` (from zero) of a seed.
pub open spec fn spec_generator(seed: Seq<u8>, i: nat) -> Seq<u8> {
    hash_to_g1_xof_shake256(generator_block(seed, i), generator_hash_dst())
}

/// The first `n` generators of a seed.
pub open spec fn spec_generators(seed: Seq<u8>, n: nat) -> Seq<Seq<u8>> {
    Seq::new(n, |i: int| spec_generator(seed, i as nat))
}

/// What a derivation for a suite, a seed and a count gives.
pub open spec fn spec_derive(suite: Ciphersuite, seed: Seq<u8>, n: nat) -> (Seq<u8>, Seq<Seq<u8>>) {
    (spec_base_point(suite), spec_generators(seed, n))
}

/// The seed of a derivation: the one given, else the suite's own.
pub open spec fn seed_or_default(suite: Ciphersuite, seed: Option<&[u8]>) -> Seq<u8> {
    match seed {
        Some(s) => s@,
        None => suite.spec_generator_seed(),
    }
}

/// The base point of `suite`.
pub fn make_g1_base_point(suite: Ciphersuite) -> (r: [u8; 48])
    ensures
        r@ == spec_base_point(suite),
{
    let seed_dst = suite.generator_seed_dst();
    let v = suite.expand_unchecked(suite.bp_generator_seed().as_slice(), seed_dst.as_slice(), EXPAND_LEN);
    let mut buffer: Vec<u8> = Vec::new();
    append_bytes(&mut buffer, v.as_slice());
    let extra: [u8; 4] = [0u8; 4];
    append_bytes(&mut buffer, extra.as_slice());
    assert(extra@ == length_placeholder());
    let v = suite.expand_unchecked(buffer.as_slice(), seed_dst.as_slice(), EXPAND_LEN);
    suite.hash_to_curve_unchecked(v.as_slice(), suite.generator_dst().as_slice())
}

/// Copies `BLOCK_LEN` bytes of `stream` from `start` on.
fn copy_block(stream: &Vec<u8>, start: usize) -> (r: Vec<u8>)
    requires
        start + BLOCK_LEN <= stream@.len(),
        start + BLOCK_LEN <= usize::MAX,
    ensures
        r@ == stream@.subrange(start as int, start + BLOCK_LEN),
{
    let mut block: Vec<u8> = Vec::new();
    let mut j: usize = 0;
    while j < BLOCK_LEN
        invariant
            j <= BLOCK_LEN,
            start + BLOCK_LEN <= stream@.len(),
            start + BLOCK_LEN <= usize::MAX,
            block@ == stream@.subrange(start as int, start + j),
        decreases BLOCK_LEN - j,
    {
        block.push(stream[start + j]);
        j = j + 1;
        assert(block@ =~= stream@.subrange(start as int, start + j));
    }
    block
}

/// The tag under which every message generator is hashed to the curve.
fn generator_dst_bytes() -> (r: Vec<u8>)
    ensures
        r@ == generator_hash_dst(),
{
    let mut v: Vec<u8> = Vec::new();
    append_bytes(&mut v, "BBS_BLS12381G1_XOF:SHAKE-256_SSWU_RO_".as_bytes());
    v
}

/// Derives the base point of `suite` and `len` generators from `seed`, or from
/// the suite's own generator seed where none is given.
pub fn make_generators(suite: Ciphersuite, seed: Option<&[u8]>, len: usize) -> (r: Generators)
    requires
        count_in_reach(len as nat),
    ensures
        r@ == spec_derive(suite, seed_or_default(suite, seed), len as nat),
{
    let default_seed = suite.generator_seed();
    let seed: &[u8] = match seed {
        Some(s) => s,
        None => default_seed.as_slice(),
    };
    let ghost seed_view = seed@;
    let base_point = make_g1_base_point(suite);
    let stream = shake256_squeeze(seed, BLOCK_LEN * len);
    let dst = generator_dst_bytes();
    let mut generators: Vec<[u8; 48]> = Vec::new();
    let mut i: usize = 0;
    while i < len
        invariant
            i <= len,
            count_in_reach(len as nat),
            seed@ == seed_view,
            dst@ == generator_hash_dst(),
            stream@.len() == BLOCK_LEN * len,
            forall|k: nat| k <= BLOCK_LEN * len ==> #[trigger] shake256_output(seed_view, k) == stream@.subrange(0, k as int),
            generators@.len() == i,
            forall|j: int| 0 <= j < i ==> (#[trigger] generators@[j])@ == spec_generator(seed_view, j as nat),
        decreases len - i,
    {
        let block = copy_block(&stream, BLOCK_LEN * i);
        proof {
            let end = BLOCK_LEN * (i + 1);
            assert(shake256_output(seed_view, end as nat) == stream@.subrange(0, end as int));
            assert(generator_block(seed_view, i as nat) =~= block@);
        }
        let gi = xof_hash_to_g1(block.as_slice(), dst.as_slice());
        generators.push(gi);
        i = i + 1;
    }
    let r = Generators { g1_base_point: base_point, message_generators: generators };
    assert(r@.1 =~= spec_generators(seed_view, len as nat));
    r
}

} // verus!
