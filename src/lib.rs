//! Checks a build provenance attestation against the caller's expectations:
//! decodes the provenance document, the certificate's source extensions and the
//! in-toto statement, and compares the attested commit, subject and repository.

pub mod attestation;
pub mod certificate;
pub mod decode;
mod error;
pub mod json;
pub mod laws;
pub mod verification;

pub use error::{Error, SourceExtension};
