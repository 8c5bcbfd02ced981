use bls12_381_plus::{G2Projective, Scalar};
use group::Curve;
use message_generators::generators::{make_g1_base_point, make_generators, Generators};
use message_generators::modes::{generators_for_secret_key, global_generators, signer_specific_generators};
use message_generators::suite::Ciphersuite;

fn same(a: &Generators, b: &Generators) -> bool {
    a.g1_base_point == b.g1_base_point && a.message_generators == b.message_generators
}

fn secret_key(seed: u8) -> [u8; 32] {
    let mut sk = [0u8; 32];
    for (i, b) in sk.iter_mut().enumerate() {
        *b = seed.wrapping_add(i as u8);
    }
    sk[31] = 0x01;
    sk
}

fn public_key(sk: &[u8; 32]) -> [u8; 96] {
    let s = Scalar::from_bytes(sk).unwrap();
    (G2Projective::GENERATOR * s).to_affine().to_compressed()
}

#[test]
fn global_derivation_is_deterministic() {
    for suite in [Ciphersuite::Sha256, Ciphersuite::Shake256] {
        let a = global_generators(suite, 4);
        let b = global_generators(suite, 4);
        assert!(same(&a, &b));
        assert_eq!(a.message_generators.len(), 4);
    }
}

#[test]
fn seeded_derivation_is_deterministic() {
    let seed = b"some signer seed".to_vec();
    let a = make_generators(Ciphersuite::Sha256, Some(&seed), 3);
    let b = make_generators(Ciphersuite::Sha256, Some(&seed), 3);
    assert!(same(&a, &b));
}

#[test]
fn generators_are_prefix_stable() {
    for suite in [Ciphersuite::Sha256, Ciphersuite::Shake256] {
        let long = global_generators(suite, 6);
        for k in 0..=6 {
            let short = global_generators(suite, k);
            assert_eq!(&long.message_generators[..k], &short.message_generators[..]);
        }
    }
}

#[test]
fn base_point_does_not_depend_on_mode_or_count() {
    for suite in [Ciphersuite::Sha256, Ciphersuite::Shake256] {
        let global = global_generators(suite, 3);
        let signer = signer_specific_generators(suite, 1);
        assert_eq!(global.g1_base_point, signer.g1_base_point);
        assert_eq!(global.g1_base_point, make_g1_base_point(suite));
        let seeded = make_generators(suite, Some(&[7u8; 10]), 0);
        assert_eq!(global.g1_base_point, seeded.g1_base_point);
    }
}

#[test]
fn suites_diverge() {
    let sha = global_generators(Ciphersuite::Sha256, 2);
    let shake = global_generators(Ciphersuite::Shake256, 2);
    assert_ne!(sha.g1_base_point, shake.g1_base_point);
    assert_ne!(sha.message_generators, shake.message_generators);
    for (a, b) in sha.message_generators.iter().zip(shake.message_generators.iter()) {
        assert_ne!(a, b);
    }
}

#[test]
fn signer_mode_is_seeded_by_the_public_key() {
    let sk = secret_key(3);
    let pk = public_key(&sk);
    for suite in [Ciphersuite::Sha256, Ciphersuite::Shake256] {
        let by_key = generators_for_secret_key(suite, &sk, 3).unwrap();
        let by_seed = make_generators(suite, Some(&pk), 3);
        assert!(same(&by_key, &by_seed));
        let global = global_generators(suite, 3);
        assert_ne!(by_key.message_generators, global.message_generators);
    }
}

#[test]
fn non_canonical_secret_key_is_refused() {
    let sk = [0xffu8; 32];
    assert!(generators_for_secret_key(Ciphersuite::Shake256, &sk, 2).is_none());
}

#[test]
fn two_signer_derivations_differ() {
    let a = signer_specific_generators(Ciphersuite::Shake256, 2);
    let b = signer_specific_generators(Ciphersuite::Shake256, 2);
    assert_eq!(a.message_generators.len(), 2);
    assert_ne!(a.message_generators, b.message_generators);
}

#[test]
fn empty_count_gives_no_generators() {
    for suite in [Ciphersuite::Sha256, Ciphersuite::Shake256] {
        let g = global_generators(suite, 0);
        assert!(g.message_generators.is_empty());
        assert_eq!(g.g1_base_point.len(), 48);
        assert_ne!(g.g1_base_point, [0u8; 48]);
        // a compressed point carries the compression flag in its top bit
        assert_eq!(g.g1_base_point[0] & 0x80, 0x80);
        // and is not the point at infinity
        assert_eq!(g.g1_base_point[0] & 0x40, 0);
    }
}

#[test]
fn generators_are_distinct_points() {
    let g = global_generators(Ciphersuite::Shake256, 5);
    for i in 0..5 {
        assert_ne!(g.message_generators[i], g.g1_base_point);
        for j in (i + 1)..5 {
            assert_ne!(g.message_generators[i], g.message_generators[j]);
        }
    }
}
