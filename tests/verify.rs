use pypi_provenance_auth::attestation::AttestationSummary;
use pypi_provenance_auth::certificate::{from_extensions, x509_extension_utf8, Extension};
use pypi_provenance_auth::decode::{same_bytes, same_text};
use pypi_provenance_auth::json::Json;
use pypi_provenance_auth::verification::{
    verify, verify_argument, verify_attestation, Field, FieldCheck,
};
use pypi_provenance_auth::{Error, SourceExtension};

fn attested() -> AttestationSummary {
    AttestationSummary {
        commit: "5050fe5a0cf7f5c023e5068724f443eafb7cbca9".to_string(),
        repository: "https://github.com/pyca/cryptography".to_string(),
        subject: "cryptography-43.0.3.tar.gz".to_string(),
    }
}

#[test]
fn matching_subject_and_commit_pass() {
    let s = attested();
    let v = verify(&s, &s.subject, &s.commit, None);
    assert!(!v.failed);
    assert_eq!(v.checks.len(), 2);
    assert!(v.checks.iter().all(|c| c.matched));
}

#[test]
fn altered_subject_fails_naming_subject() {
    let s = attested();
    let v = verify(&s, "cryptography-43.0.4.tar.gz", &s.commit, None);
    assert!(v.failed);
    let bad: Vec<&FieldCheck> = v.checks.iter().filter(|c| !c.matched).collect();
    assert_eq!(bad.len(), 1);
    assert_eq!(bad[0].field, Field::Subject);
    assert_eq!(bad[0].field.label(), "Subject");
    assert_eq!(bad[0].expected, "cryptography-43.0.4.tar.gz");
    assert_eq!(bad[0].attested, "cryptography-43.0.3.tar.gz");
}

#[test]
fn both_mismatches_are_reported() {
    let s = attested();
    let v = verify(&s, "other.tar.gz", "0000000000000000000000000000000000000000", None);
    assert!(v.failed);
    assert_eq!(v.checks[0].field, Field::Commit);
    assert!(!v.checks[0].matched);
    assert_eq!(v.checks[1].field, Field::Subject);
    assert!(!v.checks[1].matched);
}

#[test]
fn repository_is_optional() {
    let mut s = attested();
    s.repository = "https://example.com/anything".to_string();
    let v = verify(&s, &s.subject, &s.commit, None);
    assert!(!v.failed);
    assert!(v.checks.iter().all(|c| c.field != Field::Repository));
}

#[test]
fn repository_mismatch_fails() {
    let s = attested();
    let v = verify(&s, &s.subject, &s.commit, Some("https://github.com/pyca/Cryptography"));
    assert!(v.failed);
    assert_eq!(v.checks.len(), 3);
    assert_eq!(v.checks[2].field, Field::Repository);
    assert!(!v.checks[2].matched);
}

#[test]
fn correct_repository_does_not_rescue_wrong_commit() {
    let s = attested();
    let v = verify(&s, &s.subject, "5050FE5A0CF7F5C023E5068724F443EAFB7CBCA9", Some(&s.repository));
    assert!(v.failed);
    assert!(!v.checks[0].matched);
    assert!(v.checks[1].matched);
    assert!(v.checks[2].matched);
}

#[test]
fn verify_argument_keeps_earlier_failure() {
    let mut failed = true;
    let mut checks = Vec::new();
    verify_argument(&mut failed, &mut checks, Field::Commit, "a", "a");
    assert!(failed);
    assert_eq!(checks.len(), 1);
    assert!(checks[0].matched);
    let mut failed = false;
    verify_argument(&mut failed, &mut checks, Field::Repository, "a", "b");
    assert!(failed);
    assert_eq!(checks.len(), 2);
    assert_eq!(checks[1].field.label(), "Repository");
}

#[test]
fn unparsable_document_is_an_error_not_a_mismatch() {
    let r = verify_attestation(b"[]", "s", "c", None);
    assert_eq!(r.err(), Some(Error::ProvenanceJson));
    let r = verify_attestation(b"{\"attestation_bundles\": []}", "s", "c", Some("r"));
    assert_eq!(r.err(), Some(Error::NoBundles));
}

#[test]
fn json_field_takes_last_member() {
    let j = Json::Object(vec![
        ("k".to_string(), Json::Str("first".to_string())),
        ("other".to_string(), Json::Null),
        ("k".to_string(), Json::Str("last".to_string())),
    ]);
    assert_eq!(j.field("k").and_then(|v| v.text()).map(|s| s.as_str()), Some("last"));
    assert!(j.field("missing").is_none());
    assert!(Json::Array(vec![]).field("k").is_none());
    assert!(Json::Bool(true).text().is_none());
}

#[test]
fn text_and_byte_comparison() {
    assert!(same_text("abc", "abc"));
    assert!(!same_text("abc", "abd"));
    assert!(!same_text("abc", "ab"));
    assert!(same_bytes(&[1, 2], &[1, 2]));
    assert!(!same_bytes(&[1, 2], &[1]));
}

#[test]
fn extension_identifiers() {
    assert_eq!(
        SourceExtension::RepositoryUri.oid(),
        vec![0x2b, 0x06, 0x01, 0x04, 0x01, 0x83, 0xbf, 0x30, 0x01, 0x0c]
    );
    assert_eq!(
        SourceExtension::RepositoryDigest.oid(),
        vec![0x2b, 0x06, 0x01, 0x04, 0x01, 0x83, 0xbf, 0x30, 0x01, 0x0d]
    );
    assert_eq!(SourceExtension::RepositoryDigest.label(), "source repository digest");
}

fn ext(which: SourceExtension, value: &[u8]) -> Extension {
    Extension { oid: which.oid(), value: value.to_vec() }
}

#[test]
fn extension_value_skips_two_byte_header() {
    let exts = vec![ext(SourceExtension::RepositoryUri, b"\x0c\x03abc")];
    assert_eq!(x509_extension_utf8(&exts, SourceExtension::RepositoryUri), Ok("abc".to_string()));
    let exts = vec![ext(SourceExtension::RepositoryUri, b"\x0c")];
    assert_eq!(
        x509_extension_utf8(&exts, SourceExtension::RepositoryUri),
        Err(Error::ExtensionEncoding(SourceExtension::RepositoryUri))
    );
    let exts = vec![ext(SourceExtension::RepositoryUri, b"\x0c\x02\xc3\xa9")];
    assert_eq!(x509_extension_utf8(&exts, SourceExtension::RepositoryUri), Ok("é".to_string()));
}

#[test]
fn from_extensions_takes_last_of_repeated_identifier() {
    let exts = vec![
        ext(SourceExtension::RepositoryDigest, b"\x0c\x01a"),
        Extension { oid: vec![0x55, 0x1d, 0x0f], value: vec![0x03, 0x02, 0x07, 0x80] },
        ext(SourceExtension::RepositoryUri, b"\x0c\x01r"),
        ext(SourceExtension::RepositoryDigest, b"\x0c\x01b"),
    ];
    let c = from_extensions(&exts).unwrap();
    assert_eq!(c.repository, "r");
    assert_eq!(c.commit, "b");
    assert_eq!(
        from_extensions(&vec![]).err(),
        Some(Error::MissingExtension(SourceExtension::RepositoryUri))
    );
}
