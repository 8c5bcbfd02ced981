//! The two BLS12-381 ciphersuites: their constant byte strings and their
//! expand-message and hash-to-curve capabilities.

use bls12_381_plus::{ExpandMsg, ExpandMsgXmd, ExpandMsgXof, G1Projective};
use group::Curve;
use sha2::Sha256;
use sha3::Shake256;
use vstd::prelude::*;
use vstd::string::is_ascii_spec_bytes;
use vstd::string::StringSliceAdditionalSpecFns;

verus! {

/// Longest domain-separation tag that expand-message takes as it is.
pub const MAX_DST_LEN: usize = 255;

/// The most bytes that expand_message_xmd over SHA-256 produces here: the
/// implementation gathers its output blocks in a buffer of 288 bytes.
pub const MAX_XMD_LEN: usize = 288;

/// The most bytes that expand_message_xof produces: the length is encoded in
/// two bytes.
pub const MAX_XOF_LEN: usize = 65535;

#[derive(Clone, Copy, Debug, PartialEq, Eq, Structural)]
pub enum Ciphersuite {
    /// Hash-to-curve with expand_message_xmd over SHA-256.
    Sha256,
    /// Hash-to-curve with expand_message_xof over SHAKE-256.
    Shake256,
}

#[derive(Clone, Copy, Debug, PartialEq, Eq, Structural)]
pub enum ConfigurationError {
    /// A selection (suite, mode or output) that names no known value.
    InvalidValue,
    /// A domain-separation tag longer than `MAX_DST_LEN` bytes.
    OversizedDst,
}

/// `expand_message_xmd` with SHA-256, producing `len` bytes.
pub uninterp spec fn expand_message_xmd_sha256(msg: Seq<u8>, dst: Seq<u8>, len: nat) -> Seq<u8>;

/// `expand_message_xof` with SHAKE-256, producing `len` bytes.
pub uninterp spec fn expand_message_xof_shake256(msg: Seq<u8>, dst: Seq<u8>, len: nat) -> Seq<u8>;

/// The compressed encoding of the G1 point that hash-to-curve with
/// expand_message_xmd over SHA-256 gives.
pub uninterp spec fn hash_to_g1_xmd_sha256(msg: Seq<u8>, dst: Seq<u8>) -> Seq<u8>;

/// The compressed encoding of the G1 point that hash-to-curve with
/// expand_message_xof over SHAKE-256 gives.
pub uninterp spec fn hash_to_g1_xof_shake256(msg: Seq<u8>, dst: Seq<u8>) -> Seq<u8>;

/// Relies on `ExpandMsgXmd::<Sha256>::expand_message` of bls12_381_plus, which
/// fills the whole output buffer; it gathers the blocks in 288 bytes and
/// panics on a longer output.
#[verifier::external_body]
fn xmd_expand(msg: &[u8], dst: &[u8], len: usize) -> (r: Vec<u8>)
    requires
        len <= MAX_XMD_LEN,
    ensures
        r@ == expand_message_xmd_sha256(msg@, dst@, len as nat),
        r@.len() == len,
{
    let mut out = vec![0u8; len];
    <ExpandMsgXmd<Sha256> as ExpandMsg>::expand_message(msg, dst, &mut out);
    out
}

/// Relies on `ExpandMsgXof::<Shake256>::expand_message` of bls12_381_plus, which
/// fills the whole output buffer.
#[verifier::external_body]
fn xof_expand(msg: &[u8], dst: &[u8], len: usize) -> (r: Vec<u8>)
    requires
        len <= MAX_XOF_LEN,
    ensures
        r@ == expand_message_xof_shake256(msg@, dst@, len as nat),
        r@.len() == len,
{
    let mut out = vec![0u8; len];
    <ExpandMsgXof<Shake256> as ExpandMsg>::expand_message(msg, dst, &mut out);
    out
}

/// Relies on `G1Projective::hash::<ExpandMsgXmd<Sha256>>` of bls12_381_plus and on
/// the 48-byte compressed encoding of the resulting point.
#[verifier::external_body]
fn xmd_hash_to_g1(msg: &[u8], dst: &[u8]) -> (r: [u8; 48])
    ensures
        r@ == hash_to_g1_xmd_sha256(msg@, dst@),
{
    G1Projective::hash::<ExpandMsgXmd<Sha256>>(msg, dst).to_affine().to_compressed()
}

/// Relies on `G1Projective::hash::<ExpandMsgXof<Shake256>>` of bls12_381_plus and
/// on the 48-byte compressed encoding of the resulting point.
#[verifier::external_body]
pub(crate) fn xof_hash_to_g1(msg: &[u8], dst: &[u8]) -> (r: [u8; 48])
    ensures
        r@ == hash_to_g1_xof_shake256(msg@, dst@),
{
    G1Projective::hash::<ExpandMsgXof<Shake256>>(msg, dst).to_affine().to_compressed()
}

/// Appends the bytes of `s` to `v`.
pub fn append_bytes(v: &mut Vec<u8>, s: &[u8])
    ensures
        final(v)@ == old(v)@ + s@,
{
    let mut i: usize = 0;
    while i < s.len()
        invariant
            0 <= i <= s@.len(),
            v@ == old(v)@ + s@.subrange(0, i as int),
        decreases s@.len() - i,
    {
        v.push(s[i]);
        i = i + 1;
        assert(s@.subrange(0, i as int) == s@.subrange(0, i - 1) + seq![s@[i - 1]]);
    }
    assert(s@.subrange(0, s@.len() as int) == s@);
}

/// The bytes of a string.
fn str_bytes(s: &str) -> (r: Vec<u8>)
    ensures
        r@ == s.spec_bytes(),
{
    let mut v: Vec<u8> = Vec::new();
    append_bytes(&mut v, s.as_bytes());
    v
}

/// The concatenation of the bytes of two strings.
fn concat_str_bytes(a: &str, b: &str) -> (r: Vec<u8>)
    ensures
        r@ == a.spec_bytes() + b.spec_bytes(),
{
    let mut v = str_bytes(a);
    append_bytes(&mut v, b.as_bytes());
    v
}

pub open spec fn xmd_suite_id() -> Seq<u8> {
    "BBS_BLS12381G1_XMD:SHA-256_SSWU_RO_".spec_bytes()
}

pub open spec fn xof_suite_id() -> Seq<u8> {
    "BBS_BLS12381G1_XOF:SHAKE-256_SSWU_RO_".spec_bytes()
}

pub open spec fn generator_seed_suffix() -> Seq<u8> {
    "MESSAGE_GENERATOR_SEED".spec_bytes()
}

pub open spec fn bp_generator_seed_suffix() -> Seq<u8> {
    "BP_MESSAGE_GENERATOR_SEED".spec_bytes()
}

pub open spec fn generator_seed_dst_suffix() -> Seq<u8> {
    "SIG_GENERATOR_SEED_".spec_bytes()
}

pub open spec fn generator_dst_suffix() -> Seq<u8> {
    "SIG_GENERATOR_DST_".spec_bytes()
}

/// The lengths of the constant strings that the suites are built from.
pub proof fn lemma_constant_lengths()
    ensures
        xmd_suite_id().len() == 35,
        xof_suite_id().len() == 37,
        generator_seed_suffix().len() == 22,
        bp_generator_seed_suffix().len() == 25,
        generator_seed_dst_suffix().len() == 19,
        generator_dst_suffix().len() == 18,
{
    reveal_strlit("BBS_BLS12381G1_XMD:SHA-256_SSWU_RO_");
    reveal_strlit("BBS_BLS12381G1_XOF:SHAKE-256_SSWU_RO_");
    reveal_strlit("MESSAGE_GENERATOR_SEED");
    reveal_strlit("BP_MESSAGE_GENERATOR_SEED");
    reveal_strlit("SIG_GENERATOR_SEED_");
    reveal_strlit("SIG_GENERATOR_DST_");
    is_ascii_spec_bytes("BBS_BLS12381G1_XMD:SHA-256_SSWU_RO_");
    is_ascii_spec_bytes("BBS_BLS12381G1_XOF:SHAKE-256_SSWU_RO_");
    is_ascii_spec_bytes("MESSAGE_GENERATOR_SEED");
    is_ascii_spec_bytes("BP_MESSAGE_GENERATOR_SEED");
    is_ascii_spec_bytes("SIG_GENERATOR_SEED_");
    is_ascii_spec_bytes("SIG_GENERATOR_DST_");
}

impl Ciphersuite {
    /// The identifier that prefixes every constant of the suite.
    pub open spec fn spec_id(self) -> Seq<u8> {
        match self {
            Ciphersuite::Sha256 => xmd_suite_id(),
            Ciphersuite::Shake256 => xof_suite_id(),
        }
    }

    pub open spec fn spec_generator_seed(self) -> Seq<u8> {
        self.spec_id() + generator_seed_suffix()
    }

    pub open spec fn spec_bp_generator_seed(self) -> Seq<u8> {
        self.spec_id() + bp_generator_seed_suffix()
    }

    pub open spec fn spec_generator_seed_dst(self) -> Seq<u8> {
        self.spec_id() + generator_seed_dst_suffix()
    }

    pub open spec fn spec_generator_dst(self) -> Seq<u8> {
        self.spec_id() + generator_dst_suffix()
    }

    /// The suite's expander, producing `len` bytes.
    pub open spec fn spec_expand(self, msg: Seq<u8>, dst: Seq<u8>, len: nat) -> Seq<u8> {
        match self {
            Ciphersuite::Sha256 => expand_message_xmd_sha256(msg, dst, len),
            Ciphersuite::Shake256 => expand_message_xof_shake256(msg, dst, len),
        }
    }

    /// The most bytes that the suite's expander produces.
    pub open spec fn spec_max_expand_len(self) -> nat {
        match self {
            Ciphersuite::Sha256 => MAX_XMD_LEN as nat,
            Ciphersuite::Shake256 => MAX_XOF_LEN as nat,
        }
    }

    /// The suite's hash-to-curve method, as a compressed point.
    pub open spec fn spec_hash_to_curve(self, msg: Seq<u8>, dst: Seq<u8>) -> Seq<u8> {
        match self {
            Ciphersuite::Sha256 => hash_to_g1_xmd_sha256(msg, dst),
            Ciphersuite::Shake256 => hash_to_g1_xof_shake256(msg, dst),
        }
    }

    /// Every constant of a suite is a short tag.
    pub proof fn lemma_constants_fit(self)
        ensures
            self.spec_generator_seed().len() <= 64,
            self.spec_bp_generator_seed().len() <= 64,
            self.spec_generator_seed_dst().len() <= MAX_DST_LEN,
            self.spec_generator_dst().len() <= MAX_DST_LEN,
    {
        lemma_constant_lengths();
    }

    fn id_str(&self) -> (r: &'static str)
        ensures
            r.spec_bytes() == self.spec_id(),
    {
        match self {
            Ciphersuite::Sha256 => "BBS_BLS12381G1_XMD:SHA-256_SSWU_RO_",
            Ciphersuite::Shake256 => "BBS_BLS12381G1_XOF:SHAKE-256_SSWU_RO_",
        }
    }

    /// The seed of the generators in global mode.
    pub fn generator_seed(&self) -> (r: Vec<u8>)
        ensures
            r@ == self.spec_generator_seed(),
    {
        concat_str_bytes(self.id_str(), "MESSAGE_GENERATOR_SEED")
    }

    /// The seed that the base point is derived from.
    pub fn bp_generator_seed(&self) -> (r: Vec<u8>)
        ensures
            r@ == self.spec_bp_generator_seed(),
    {
        concat_str_bytes(self.id_str(), "BP_MESSAGE_GENERATOR_SEED")
    }

    /// The tag under which seeds are expanded.
    pub fn generator_seed_dst(&self) -> (r: Vec<u8>)
        ensures
            r@ == self.spec_generator_seed_dst(),
    {
        concat_str_bytes(self.id_str(), "SIG_GENERATOR_SEED_")
    }

    /// The tag under which the base point is hashed to the curve.
    pub fn generator_dst(&self) -> (r: Vec<u8>)
        ensures
            r@ == self.spec_generator_dst(),
    {
        concat_str_bytes(self.id_str(), "SIG_GENERATOR_DST_")
    }

    pub(crate) fn expand_unchecked(&self, msg: &[u8], dst: &[u8], len: usize) -> (r: Vec<u8>)
        requires
            len <= self.spec_max_expand_len(),
        ensures
            r@ == self.spec_expand(msg@, dst@, len as nat),
            r@.len() == len,
    {
        match self {
            Ciphersuite::Sha256 => xmd_expand(msg, dst, len),
            Ciphersuite::Shake256 => xof_expand(msg, dst, len),
        }
    }

    pub(crate) fn hash_to_curve_unchecked(&self, msg: &[u8], dst: &[u8]) -> (r: [u8; 48])
        ensures
            r@ == self.spec_hash_to_curve(msg@, dst@),
    {
        match self {
            Ciphersuite::Sha256 => xmd_hash_to_g1(msg, dst),
            Ciphersuite::Shake256 => xof_hash_to_g1(msg, dst),
        }
    }

    /// Expands `msg` under `dst` into `out_len` pseudorandom bytes; a tag
    /// longer than `MAX_DST_LEN` bytes is refused.
    pub fn expand_message(&self, msg: &[u8], dst: &[u8], out_len: usize) -> (r: Result<Vec<u8>, ConfigurationError>)
        requires
            out_len <= self.spec_max_expand_len(),
        ensures
            dst@.len() > MAX_DST_LEN ==> r == Err::<Vec<u8>, ConfigurationError>(
                ConfigurationError::OversizedDst,
            ),
            dst@.len() <= MAX_DST_LEN ==> (r matches Ok(v) && v@ == self.spec_expand(msg@, dst@, out_len as nat)),
    {
        if dst.len() > MAX_DST_LEN {
            Err(ConfigurationError::OversizedDst)
        } else {
            Ok(self.expand_unchecked(msg, dst, out_len))
        }
    }

    /// Hashes `msg` under `dst` to a point of G1, given compressed; a tag
    /// longer than `MAX_DST_LEN` bytes is refused.
    pub fn hash_to_curve(&self, msg: &[u8], dst: &[u8]) -> (r: Result<[u8; 48], ConfigurationError>)
        ensures
            dst@.len() > MAX_DST_LEN ==> r == Err::<[u8; 48], ConfigurationError>(
                ConfigurationError::OversizedDst,
            ),
            dst@.len() <= MAX_DST_LEN ==> (r matches Ok(p) && p@ == self.spec_hash_to_curve(msg@, dst@)),
    {
        if dst.len() > MAX_DST_LEN {
            Err(ConfigurationError::OversizedDst)
        } else {
            Ok(self.hash_to_curve_unchecked(msg, dst))
        }
    }
}

} // verus!
