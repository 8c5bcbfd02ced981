//! Derivation of the public message generators and the base point of the
//! BBS signature scheme over BLS12-381.

pub mod suite;
pub mod generators;
pub mod modes;
pub mod laws;
pub mod options;
pub mod encoding;
