//! The selections a caller makes by name: the suite, the mode and the output.
//! Names are read without regard to case; each selection takes its name and
//! the shorter forms listed with it.

use crate::suite::{Ciphersuite, ConfigurationError};
use vstd::prelude::*;

verus! {

/// Where the seed of the generators comes from.
#[derive(Clone, Copy, Debug, PartialEq, Eq, Structural)]
pub enum GenType {
    /// The suite's own generator seed.
    Global,
    /// The public key of a freshly drawn secret key.
    SignerSpecific,
}

/// Where the derived points go.
#[derive(Clone, Copy, Debug, PartialEq, Eq, Structural)]
pub enum OutputType {
    Print,
    File,
}

/// The lower-case form of a string.
pub uninterp spec fn lowercase_of(s: Seq<char>) -> Seq<char>;

/// Relies on `str::to_lowercase`, whose result depends on the characters alone.
#[verifier::external_body]
fn to_lowercase(s: &str) -> (r: String)
    ensures
        r@ == lowercase_of(s@),
{
    s.to_lowercase()
}

fn str_eq(a: &str, b: &str) -> (r: bool)
    ensures
        r == (a@ == b@),
{
    a.to_owned() == b.to_owned()
}

/// The value that a name selects, or the error for a name that selects none.
pub open spec fn selected<T>(v: Option<T>) -> Result<T, ConfigurationError> {
    match v {
        Some(t) => Ok(t),
        None => Err(ConfigurationError::InvalidValue),
    }
}

pub open spec fn spec_suite_named(t: Seq<char>) -> Option<Ciphersuite> {
    if t == "sha"@ || t == "sha2"@ || t == "sha25"@ || t == "sha256"@ || t == "xmd"@ {
        Some(Ciphersuite::Sha256)
    } else if t == "shake"@ || t == "shake2"@ || t == "shake25"@ || t == "shake256"@ || t == "xof"@ {
        Some(Ciphersuite::Shake256)
    } else {
        None
    }
}

pub open spec fn spec_gen_type_named(t: Seq<char>) -> Option<GenType> {
    if t == "g"@ || t == "gl"@ || t == "glo"@ || t == "glob"@ || t == "globa"@ || t == "global"@ {
        Some(GenType::Global)
    } else if t == "s"@ || t == "si"@ || t == "sig"@ || t == "sign"@ || t == "signe"@ || t == "signer"@ {
        Some(GenType::SignerSpecific)
    } else {
        None
    }
}

pub open spec fn spec_output_type_named(t: Seq<char>) -> Option<OutputType> {
    if t == "f"@ || t == "fi"@ || t == "fil"@ || t == "file"@ {
        Some(OutputType::File)
    } else if t == "p"@ || t == "pr"@ || t == "pri"@ || t == "print"@ {
        Some(OutputType::Print)
    } else {
        None
    }
}

impl Ciphersuite {
    /// The suite that a lower-case name selects.
    pub fn from_lowercase(t: &str) -> (r: Result<Ciphersuite, ConfigurationError>)
        ensures
            r == selected(spec_suite_named(t@)),
    {
        if str_eq(t, "sha") || str_eq(t, "sha2") || str_eq(t, "sha25") || str_eq(t, "sha256")
            || str_eq(t, "xmd") {
            Ok(Ciphersuite::Sha256)
        } else if str_eq(t, "shake") || str_eq(t, "shake2") || str_eq(t, "shake25") || str_eq(
            t,
            "shake256",
        ) || str_eq(t, "xof") {
            Ok(Ciphersuite::Shake256)
        } else {
            Err(ConfigurationError::InvalidValue)
        }
    }

    /// The suite that a name selects, in any case.
    pub fn from_str(s: &str) -> (r: Result<Ciphersuite, ConfigurationError>)
        ensures
            r == selected(spec_suite_named(lowercase_of(s@))),
    {
        let t = to_lowercase(s);
        Ciphersuite::from_lowercase(t.as_str())
    }
}

impl GenType {
    /// The mode that a lower-case name selects.
    pub fn from_lowercase(t: &str) -> (r: Result<GenType, ConfigurationError>)
        ensures
            r == selected(spec_gen_type_named(t@)),
    {
        if str_eq(t, "g") || str_eq(t, "gl") || str_eq(t, "glo") || str_eq(t, "glob") || str_eq(
            t,
            "globa",
        ) || str_eq(t, "global") {
            Ok(GenType::Global)
        } else if str_eq(t, "s") || str_eq(t, "si") || str_eq(t, "sig") || str_eq(t, "sign")
            || str_eq(t, "signe") || str_eq(t, "signer") {
            Ok(GenType::SignerSpecific)
        } else {
            Err(ConfigurationError::InvalidValue)
        }
    }

    /// The mode that a name selects, in any case.
    pub fn from_str(s: &str) -> (r: Result<GenType, ConfigurationError>)
        ensures
            r == selected(spec_gen_type_named(lowercase_of(s@))),
    {
        let t = to_lowercase(s);
        GenType::from_lowercase(t.as_str())
    }
}

impl OutputType {
    /// The output that a lower-case name selects.
    pub fn from_lowercase(t: &str) -> (r: Result<OutputType, ConfigurationError>)
        ensures
            r == selected(spec_output_type_named(t@)),
    {
        if str_eq(t, "f") || str_eq(t, "fi") || str_eq(t, "fil") || str_eq(t, "file") {
            Ok(OutputType::File)
        } else if str_eq(t, "p") || str_eq(t, "pr") || str_eq(t, "pri") || str_eq(t, "print") {
            Ok(OutputType::Print)
        } else {
            Err(ConfigurationError::InvalidValue)
        }
    }

    /// The output that a name selects, in any case.
    pub fn from_str(s: &str) -> (r: Result<OutputType, ConfigurationError>)
        ensures
            r == selected(spec_output_type_named(lowercase_of(s@))),
    {
        let t = to_lowercase(s);
        OutputType::from_lowercase(t.as_str())
    }
}

} // verus!
