//! Decoding and verification of compact, signed health-certificate tokens.
//!
//! A token is a restricted-alphabet text string wrapping a compressed,
//! signed envelope whose payload is a keyed-map binary record. This crate
//! decodes each layer, reconstructs the typed certificate record while
//! ignoring unknown fields, and verifies the envelope signature against a
//! trust list of signer certificates.

pub mod b45;
pub mod cbor;
pub mod cert;
pub mod cwt;
pub mod dcc;
pub mod sig;
pub mod valuesets;
