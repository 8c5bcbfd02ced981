use message_generators::encoding::{generators_hex, point_hex};
use message_generators::modes::global_generators;
use message_generators::options::{GenType, OutputType};
use message_generators::suite::{Ciphersuite, ConfigurationError};

#[test]
fn suite_constants() {
    let s = Ciphersuite::Shake256;
    assert_eq!(s.generator_seed(), b"BBS_BLS12381G1_XOF:SHAKE-256_SSWU_RO_MESSAGE_GENERATOR_SEED".to_vec());
    assert_eq!(s.bp_generator_seed(), b"BBS_BLS12381G1_XOF:SHAKE-256_SSWU_RO_BP_MESSAGE_GENERATOR_SEED".to_vec());
    assert_eq!(s.generator_seed_dst(), b"BBS_BLS12381G1_XOF:SHAKE-256_SSWU_RO_SIG_GENERATOR_SEED_".to_vec());
    assert_eq!(s.generator_dst(), b"BBS_BLS12381G1_XOF:SHAKE-256_SSWU_RO_SIG_GENERATOR_DST_".to_vec());
    let s = Ciphersuite::Sha256;
    assert_eq!(s.generator_seed(), b"BBS_BLS12381G1_XMD:SHA-256_SSWU_RO_MESSAGE_GENERATOR_SEED".to_vec());
    assert_eq!(s.generator_dst(), b"BBS_BLS12381G1_XMD:SHA-256_SSWU_RO_SIG_GENERATOR_DST_".to_vec());
}

#[test]
fn expander_refuses_oversized_tag() {
    for suite in [Ciphersuite::Sha256, Ciphersuite::Shake256] {
        let long = vec![b'a'; 256];
        assert_eq!(suite.expand_message(b"msg", &long, 48), Err(ConfigurationError::OversizedDst));
        assert_eq!(suite.hash_to_curve(b"msg", &long), Err(ConfigurationError::OversizedDst));
        let limit = vec![b'a'; 255];
        assert_eq!(suite.expand_message(b"msg", &limit, 48).unwrap().len(), 48);
        assert!(suite.hash_to_curve(b"msg", &limit).is_ok());
    }
}

#[test]
fn expander_is_deterministic_and_separated() {
    let s = Ciphersuite::Shake256;
    let a = s.expand_message(b"msg", b"DST-A", 48).unwrap();
    let b = s.expand_message(b"msg", b"DST-A", 48).unwrap();
    let c = s.expand_message(b"msg", b"DST-B", 48).unwrap();
    assert_eq!(a, b);
    assert_ne!(a, c);
    let x = Ciphersuite::Sha256.expand_message(b"msg", b"DST-A", 48).unwrap();
    assert_ne!(a, x);
    assert_ne!(&a[..3], b"msg");
}

#[test]
fn expander_gives_the_length_asked_for() {
    for suite in [Ciphersuite::Sha256, Ciphersuite::Shake256] {
        assert_eq!(suite.expand_message(b"msg", b"DST", 0).unwrap().len(), 0);
        assert_eq!(suite.expand_message(b"msg", b"DST", 1).unwrap().len(), 1);
        assert_eq!(suite.expand_message(b"msg", b"DST", 200).unwrap().len(), 200);
        assert_eq!(suite.expand_message(b"msg", b"DST", 288).unwrap().len(), 288);
    }
    assert_eq!(Ciphersuite::Shake256.expand_message(b"msg", b"DST", 65535).unwrap().len(), 65535);
    // the output length is part of the input, so a longer output is no extension
    let s = Ciphersuite::Shake256;
    let short = s.expand_message(b"msg", b"DST", 32).unwrap();
    let long = s.expand_message(b"msg", b"DST", 64).unwrap();
    assert_ne!(&long[..32], &short[..]);
}

#[test]
fn hash_to_curve_gives_compressed_points() {
    for suite in [Ciphersuite::Sha256, Ciphersuite::Shake256] {
        let p = suite.hash_to_curve(b"msg", b"DST").unwrap();
        assert_eq!(p[0] & 0xc0, 0x80);
        let q = suite.hash_to_curve(b"other", b"DST").unwrap();
        assert_ne!(p, q);
    }
}

#[test]
fn suite_names() {
    for name in ["sha", "sha2", "sha25", "sha256", "xmd", "SHA256", "Xmd"] {
        assert_eq!(Ciphersuite::from_str(name), Ok(Ciphersuite::Sha256));
    }
    for name in ["shake", "shake2", "shake25", "shake256", "xof", "Shake", "XOF"] {
        assert_eq!(Ciphersuite::from_str(name), Ok(Ciphersuite::Shake256));
    }
    for name in ["", "sh", "sha3", "shake512", "blake"] {
        assert_eq!(Ciphersuite::from_str(name), Err(ConfigurationError::InvalidValue));
    }
    assert_eq!(Ciphersuite::from_lowercase("SHA"), Err(ConfigurationError::InvalidValue));
}

#[test]
fn mode_names() {
    for name in ["g", "gl", "glo", "glob", "globa", "global", "Global"] {
        assert_eq!(GenType::from_str(name), Ok(GenType::Global));
    }
    for name in ["s", "si", "sig", "sign", "signe", "signer", "Signer"] {
        assert_eq!(GenType::from_str(name), Ok(GenType::SignerSpecific));
    }
    for name in ["", "globals", "signers", "x"] {
        assert_eq!(GenType::from_str(name), Err(ConfigurationError::InvalidValue));
    }
}

#[test]
fn output_names() {
    for name in ["f", "fi", "fil", "file", "File"] {
        assert_eq!(OutputType::from_str(name), Ok(OutputType::File));
    }
    for name in ["p", "pr", "pri", "print", "Print", "PRINT"] {
        assert_eq!(OutputType::from_str(name), Ok(OutputType::Print));
    }
    for name in ["", "prin", "files", "stdout"] {
        assert_eq!(OutputType::from_str(name), Err(ConfigurationError::InvalidValue));
    }
}

#[test]
fn point_text_is_lower_case_hex() {
    let mut p = [0u8; 48];
    p[0] = 0xab;
    p[1] = 0x0f;
    p[47] = 0x90;
    let text = point_hex(&p);
    assert_eq!(text.len(), 96);
    assert!(text.starts_with("ab0f00"));
    assert!(text.ends_with("0090"));
}

#[test]
fn generator_texts_follow_the_generators() {
    let g = global_generators(Ciphersuite::Shake256, 3);
    let texts = generators_hex(&g);
    assert_eq!(texts.len(), 3);
    for (t, p) in texts.iter().zip(g.message_generators.iter()) {
        assert_eq!(t, &hex::encode(p));
        assert_eq!(t.len(), 96);
    }
}
