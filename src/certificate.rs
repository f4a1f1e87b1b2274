use vstd::prelude::*;
use vstd::utf8::*;
use crate::decode::{same_bytes, utf8_text};
use crate::error::{Error, SourceExtension};

verus! {

/// The source claims that a signing certificate carries.
#[derive(Debug)]
pub struct Certificate {
    pub repository: String,
    pub commit: String,
}

/// What a `Certificate` says, as text.
pub struct CertificateView {
    pub repository: Seq<char>,
    pub commit: Seq<char>,
}

impl View for Certificate {
    type V = CertificateView;

    open spec fn view(&self) -> CertificateView {
        CertificateView { repository: self.repository@, commit: self.commit@ }
    }
}

/// One extension of a certificate: the content octets of its object
/// identifier (DER, without tag and length) and its raw value.
#[derive(Debug)]
pub struct Extension {
    pub oid: Vec<u8>,
    pub value: Vec<u8>,
}

/// The extensions, as (identifier, value) pairs, in certificate order.
pub open spec fn extensions_view(extensions: Seq<Extension>) -> Seq<(Seq<u8>, Seq<u8>)> {
    extensions.map_values(|e: Extension| (e.oid@, e.value@))
}

/// The extensions that x509-parser reads from DER bytes, in certificate order;
/// `None` where the bytes are not one X.509 certificate.
pub uninterp spec fn x509_extensions_of(der: Seq<u8>) -> Option<Seq<(Seq<u8>, Seq<u8>)>>;

/// Relies on `x509_parser::parse_x509_certificate` and on the certificate's
/// `extensions()`: each extension's identifier (`Oid::as_bytes`) and raw value.
#[verifier::external_body]
pub(crate) fn x509_extensions(der: &[u8]) -> (r: Option<Vec<Extension>>)
    ensures
        match r {
            Some(v) => x509_extensions_of(der@) == Some(extensions_view(v@)),
            None => x509_extensions_of(der@) is None,
        },
{
    x509_parser::parse_x509_certificate(der).ok().map(|(_, c)| {
        c.extensions().iter().map(|e| Extension { oid: e.oid.as_bytes().to_vec(), value: e.value.to_vec() }).collect()
    })
}

impl SourceExtension {
    /// The content octets of this extension's object identifier.
    pub open spec fn oid_spec(&self) -> Seq<u8> {
        match self {
            SourceExtension::RepositoryUri => seq![0x2b, 0x06, 0x01, 0x04, 0x01, 0x83, 0xbf, 0x30, 0x01, 0x0c],
            SourceExtension::RepositoryDigest => seq![0x2b, 0x06, 0x01, 0x04, 0x01, 0x83, 0xbf, 0x30, 0x01, 0x0d],
        }
    }

    /// The content octets of this extension's object identifier
    /// (1.3.6.1.4.1.57264.1.12 or 1.3.6.1.4.1.57264.1.13).
    pub fn oid(&self) -> (r: Vec<u8>)
        ensures
            r@ == self.oid_spec(),
    {
        let r = match self {
            SourceExtension::RepositoryUri => vec![0x2bu8, 0x06, 0x01, 0x04, 0x01, 0x83, 0xbf, 0x30, 0x01, 0x0c],
            SourceExtension::RepositoryDigest => vec![0x2bu8, 0x06, 0x01, 0x04, 0x01, 0x83, 0xbf, 0x30, 0x01, 0x0d],
        };
        assert(r@ =~= self.oid_spec());
        r
    }
}

/// The value of the last extension with identifier `oid`, if any.
pub open spec fn extension_value(extensions: Seq<(Seq<u8>, Seq<u8>)>, oid: Seq<u8>) -> Option<Seq<u8>>
    decreases extensions.len(),
{
    if extensions.len() == 0 {
        None
    } else if extensions.last().0 == oid {
        Some(extensions.last().1)
    } else {
        extension_value(extensions.drop_last(), oid)
    }
}

/// The text of extension `which`: its value less the two-byte tag and length
/// header, decoded as UTF-8.
///
/// The fixed two-byte header fits a short UTF8String and nothing else; a
/// longer or differently tagged encoding is read wrongly, not rejected.
pub open spec fn extension_text(extensions: Seq<(Seq<u8>, Seq<u8>)>, which: SourceExtension) -> Result<Seq<char>, Error> {
    match extension_value(extensions, which.oid_spec()) {
        None => Err(Error::MissingExtension(which)),
        Some(v) => if v.len() >= 2 && valid_utf8(v.skip(2)) {
            Ok(decode_utf8(v.skip(2)))
        } else {
            Err(Error::ExtensionEncoding(which))
        },
    }
}

/// The certificate that the extensions describe: repository URI first, then
/// the commit digest.
pub open spec fn certificate_from(extensions: Seq<(Seq<u8>, Seq<u8>)>) -> Result<CertificateView, Error> {
    match extension_text(extensions, SourceExtension::RepositoryUri) {
        Err(e) => Err(e),
        Ok(repository) => match extension_text(extensions, SourceExtension::RepositoryDigest) {
            Err(e) => Err(e),
            Ok(commit) => Ok(CertificateView { repository, commit }),
        },
    }
}

/// The certificate that DER bytes describe.
pub open spec fn certificate_of(der: Seq<u8>) -> Result<CertificateView, Error> {
    match x509_extensions_of(der) {
        None => Err(Error::CertificateFormat),
        Some(extensions) => certificate_from(extensions),
    }
}

/// The view of a result, its error kept.
pub open spec fn text_result(r: Result<String, Error>) -> Result<Seq<char>, Error> {
    match r {
        Ok(s) => Ok(s@),
        Err(e) => Err(e),
    }
}

/// The view of a result, its error kept.
pub open spec fn certificate_result(r: Result<Certificate, Error>) -> Result<CertificateView, Error> {
    match r {
        Ok(c) => Ok(c@),
        Err(e) => Err(e),
    }
}

/// Finds the value of the last extension whose identifier is `oid`.
fn find_extension<'a>(extensions: &'a Vec<Extension>, oid: &Vec<u8>) -> (r: Option<&'a Vec<u8>>)
    ensures
        match r {
            Some(v) => extension_value(extensions_view(extensions@), oid@) == Some(v@),
            None => extension_value(extensions_view(extensions@), oid@) is None,
        },
{
    let ghost all = extensions_view(extensions@);
    let mut i: usize = extensions.len();
    assert(all.subrange(0, i as int) =~= all);
    while i > 0
        invariant
            all == extensions_view(extensions@),
            i <= extensions@.len(),
            extension_value(all, oid@) == extension_value(all.subrange(0, i as int), oid@),
        decreases i,
    {
        assert(all.subrange(0, i as int).drop_last() =~= all.subrange(0, i - 1));
        assert(all.subrange(0, i as int).last() == (extensions@[i - 1].oid@, extensions@[i - 1].value@));
        if same_bytes(extensions[i - 1].oid.as_slice(), oid.as_slice()) {
            return Some(&extensions[i - 1].value);
        }
        i = i - 1;
    }
    None
}

/// The text of extension `which`: its value less the two-byte header, as UTF-8.
pub fn x509_extension_utf8(extensions: &Vec<Extension>, which: SourceExtension) -> (r: Result<String, Error>)
    ensures
        text_result(r) == extension_text(extensions_view(extensions@), which),
{
    let oid = which.oid();
    let value = match find_extension(extensions, &oid) {
        Some(v) => v,
        None => return Err(Error::MissingExtension(which)),
    };
    if value.len() < 2 {
        return Err(Error::ExtensionEncoding(which));
    }
    let (_header, payload) = value.as_slice().split_at(2);
    assert(payload@ =~= value@.skip(2));
    match utf8_text(payload) {
        Some(text) => Ok(text),
        None => Err(Error::ExtensionEncoding(which)),
    }
}

/// Reads the repository URI and the commit digest out of a certificate's extensions.
pub fn from_extensions(extensions: &Vec<Extension>) -> (r: Result<Certificate, Error>)
    ensures
        certificate_result(r) == certificate_from(extensions_view(extensions@)),
{
    let repository = match x509_extension_utf8(extensions, SourceExtension::RepositoryUri) {
        Ok(t) => t,
        Err(e) => return Err(e),
    };
    let commit = match x509_extension_utf8(extensions, SourceExtension::RepositoryDigest) {
        Ok(t) => t,
        Err(e) => return Err(e),
    };
    Ok(Certificate { repository, commit })
}

/// Parses a DER certificate and reads its source repository URI and commit digest.
pub fn parse(bytes: &[u8]) -> (r: Result<Certificate, Error>)
    ensures
        certificate_result(r) == certificate_of(bytes@),
{
    match x509_extensions(bytes) {
        Some(extensions) => from_extensions(&extensions),
        None => Err(Error::CertificateFormat),
    }
}

} // verus!
