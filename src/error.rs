use vstd::prelude::*;

verus! {

/// The two certificate extensions that name a build's source.
#[derive(Debug, Clone, Copy, PartialEq, Eq, Structural)]
pub enum SourceExtension {
    /// Object identifier 1.3.6.1.4.1.57264.1.12: the source repository URI.
    RepositoryUri,
    /// Object identifier 1.3.6.1.4.1.57264.1.13: the source repository digest (the commit).
    RepositoryDigest,
}

impl SourceExtension {
    /// The name used for this extension in messages.
    pub fn label(&self) -> (r: &'static str)
        ensures
            r@ == self.label_spec(),
    {
        match self {
            SourceExtension::RepositoryUri => "source repository uri",
            SourceExtension::RepositoryDigest => "source repository digest",
        }
    }

    /// The name used for this extension in messages.
    pub open spec fn label_spec(&self) -> Seq<char> {
        match self {
            SourceExtension::RepositoryUri => "source repository uri"@,
            SourceExtension::RepositoryDigest => "source repository digest"@,
        }
    }
}

/// Why a provenance document could not be turned into a summary.
///
/// Each variant names the stage that failed; the first failing stage wins.
#[derive(Debug, Clone, Copy, PartialEq, Eq, Structural)]
pub enum Error {
    /// The document is not JSON of the provenance shape.
    ProvenanceJson,
    /// The document lists no attestation bundle.
    NoBundles,
    /// The first bundle lists no attestation.
    NoAttestations,
    /// The attestation's certificate is not valid base64.
    CertificateBase64,
    /// The decoded certificate is not a well-formed X.509 certificate.
    CertificateFormat,
    /// The certificate lacks this extension.
    MissingExtension(SourceExtension),
    /// This extension's payload is not UTF-8 text after its two-byte header.
    ExtensionEncoding(SourceExtension),
    /// The attestation's statement is not valid base64.
    StatementBase64,
    /// The decoded statement is not JSON of the in-toto statement shape.
    StatementJson,
    /// The statement names no subject.
    NoSubject,
}

} // verus!
