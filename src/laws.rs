//! What holds of every derivation.

use crate::generators::{spec_derive, spec_generators, Generators};
use crate::modes::spec_signer_derive;
use crate::suite::Ciphersuite;
use vstd::prelude::*;

verus! {

/// Derivation is deterministic: two results for the same suite, seed and count
/// are identical, byte for byte.
pub proof fn lemma_derive_deterministic(suite: Ciphersuite, seed: Seq<u8>, n: nat, a: Generators, b: Generators)
    requires
        a@ == spec_derive(suite, seed, n),
        b@ == spec_derive(suite, seed, n),
    ensures
        a.g1_base_point == b.g1_base_point,
        a.message_generators@ == b.message_generators@,
{
    assert(a.g1_base_point@ == b.g1_base_point@);
    assert(a.g1_base_point =~= b.g1_base_point);
    assert(a@.1.len() == a.message_generators@.len());
    assert(b@.1.len() == b.message_generators@.len());
    assert forall|i: int| 0 <= i < a.message_generators@.len() implies
        a.message_generators@[i] == b.message_generators@[i] by {
        assert(a@.1[i] == a.message_generators@[i]@);
        assert(b@.1[i] == b.message_generators@[i]@);
        assert(a.message_generators@[i] =~= b.message_generators@[i]);
    }
    assert(a.message_generators@ =~= b.message_generators@);
}

/// Derivation is stable under prefixes: the first `k` of `n` generators are
/// the `k` generators of the same seed.
pub proof fn lemma_prefix_stable(suite: Ciphersuite, seed: Seq<u8>, n: nat, k: nat)
    requires
        k <= n,
    ensures
        spec_derive(suite, seed, n).1.subrange(0, k as int) == spec_derive(suite, seed, k).1,
{
    assert(spec_generators(seed, n).subrange(0, k as int) =~= spec_generators(seed, k));
}

/// The base point depends on the suite alone: the global mode and the
/// signer-specific mode, with any key and any counts, give the same one.
pub proof fn lemma_base_point_mode_independent(suite: Ciphersuite, n: nat, sk: Seq<u8>, m: nat)
    ensures
        spec_derive(suite, suite.spec_generator_seed(), n).0 == spec_signer_derive(suite, sk, m).0,
{
}

/// The base point ignores the seed: two seeds and two counts give the same one.
pub proof fn lemma_base_point_seed_independent(suite: Ciphersuite, seed1: Seq<u8>, n: nat, seed2: Seq<u8>, m: nat)
    ensures
        spec_derive(suite, seed1, n).0 == spec_derive(suite, seed2, m).0,
{
}

/// The signer-specific mode with a secret key is the derivation seeded by the
/// compressed public key of that key.
pub proof fn lemma_signer_seeded_by_public_key(suite: Ciphersuite, sk: Seq<u8>, n: nat)
    ensures
        spec_signer_derive(suite, sk, n) == spec_derive(suite, crate::modes::g2_public_key(sk), n),
{
}

/// A count of zero gives no generators.
pub proof fn lemma_empty_count(suite: Ciphersuite, seed: Seq<u8>)
    ensures
        spec_derive(suite, seed, 0).1 == Seq::<Seq<u8>>::empty(),
{
    assert(spec_generators(seed, 0) =~= Seq::<Seq<u8>>::empty());
}

} // verus!
