use vstd::prelude::*;
use crate::certificate::{self, Certificate, CertificateView, certificate_of};
use crate::decode::base64_decode;
use crate::decode::base64_of;
use crate::error::Error;
use crate::json::{Json, field_of, json_of, parse_json, text_of};

verus! {

/// The claims that survive a parse: where the artifact was built from, and what it is.
#[derive(Debug)]
pub struct AttestationSummary {
    pub commit: String,
    pub repository: String,
    pub subject: String,
}

/// What an `AttestationSummary` says, as text.
pub struct SummaryView {
    pub commit: Seq<char>,
    pub repository: Seq<char>,
    pub subject: Seq<char>,
}

impl View for AttestationSummary {
    type V = SummaryView;

    open spec fn view(&self) -> SummaryView {
        SummaryView { commit: self.commit@, repository: self.repository@, subject: self.subject@ }
    }
}

impl PartialEq for AttestationSummary {
    fn eq(&self, other: &AttestationSummary) -> (r: bool)
        ensures
            r == (self@ == other@),
    {
        self.commit == other.commit && self.repository == other.repository && self.subject == other.subject
    }
}

impl vstd::std_specs::cmp::PartialEqSpecImpl for AttestationSummary {
    open spec fn obeys_eq_spec() -> bool {
        true
    }

    open spec fn eq_spec(&self, other: &AttestationSummary) -> bool {
        self@ == other@
    }
}

/// A provenance document: its attestation bundles, in order.
#[derive(Debug)]
pub struct Provenance {
    pub attestation_bundles: Vec<AttestationBundle>,
}

/// A bundle: its attestations, in order.
#[derive(Debug)]
pub struct AttestationBundle {
    pub attestations: Vec<Attestation>,
}

/// One attestation: the signed statement and the certificate that came with it.
#[derive(Debug)]
pub struct Attestation {
    pub envelope: Envelope,
    pub verification_material: VerificationMaterial,
}

/// The envelope of an attestation; `statement` is base64 of the statement's JSON.
#[derive(Debug)]
pub struct Envelope {
    pub statement: String,
}

/// The certificate of an attestation, as base64 of its DER bytes.
#[derive(Debug)]
pub struct VerificationMaterial {
    pub certificate: String,
}

/// An in-toto statement: a type tag and the artifacts it speaks of.
#[derive(Debug)]
pub struct InTotoStatement {
    pub _type: String,
    pub subject: Vec<InTotoSubject>,
}

/// One artifact named by a statement.
#[derive(Debug)]
pub struct InTotoSubject {
    pub name: String,
}

/// An attestation's two encoded fields.
pub struct AttestationView {
    pub statement: Seq<char>,
    pub certificate: Seq<char>,
}

/// What an `InTotoStatement` says: its type tag and its subjects' names.
pub struct StatementView {
    pub type_tag: Seq<char>,
    pub subjects: Seq<Seq<char>>,
}

impl View for Attestation {
    type V = AttestationView;

    open spec fn view(&self) -> AttestationView {
        AttestationView {
            statement: self.envelope.statement@,
            certificate: self.verification_material.certificate@,
        }
    }
}

impl View for InTotoStatement {
    type V = StatementView;

    open spec fn view(&self) -> StatementView {
        StatementView {
            type_tag: self._type@,
            subjects: self.subject@.map_values(|s: InTotoSubject| s.name@),
        }
    }
}

// The document's shape, read from its JSON value. Members other than those
// named here are ignored, and of a document only the path to its first
// bundle's first attestation is read.

/// The text of member `key` of `j`, where it is a string.
pub open spec fn text_member(j: Json, key: Seq<char>) -> Option<Seq<char>> {
    match field_of(j, key) {
        Some(v) => text_of(v),
        None => None,
    }
}

/// The attestation that a JSON value holds, where it has that shape.
pub open spec fn attestation_of(j: Json) -> Option<AttestationView> {
    match (field_of(j, "envelope"@), field_of(j, "verification_material"@)) {
        (Some(envelope), Some(material)) => match (
            text_member(envelope, "statement"@),
            text_member(material, "certificate"@),
        ) {
            (Some(statement), Some(certificate)) => Some(AttestationView { statement, certificate }),
            _ => None,
        },
        _ => None,
    }
}

/// The statement that a JSON value holds: a string `_type` and a `subject`
/// array whose every entry has a string `name`.
pub open spec fn statement_json_of(j: Json) -> Option<StatementView> {
    match (text_member(j, "_type"@), field_of(j, "subject"@)) {
        (Some(type_tag), Some(Json::Array(items))) => if forall|k: int| 0 <= k < items@.len() ==> (#[trigger] text_member(items@[k], "name"@)) is Some {
            Some(StatementView { type_tag, subjects: items@.map_values(|x: Json| text_member(x, "name"@)->0) })
        } else {
            None
        },
        _ => None,
    }
}

/// The statement that base64 text encodes.
pub open spec fn statement_of(text: Seq<char>) -> Result<StatementView, Error> {
    match base64_of(text) {
        None => Err(Error::StatementBase64),
        Some(bytes) => match json_of(bytes) {
            None => Err(Error::StatementJson),
            Some(j) => match statement_json_of(j) {
                None => Err(Error::StatementJson),
                Some(s) => Ok(s),
            },
        },
    }
}

/// The summary of a certificate's claims and a statement's first subject.
pub open spec fn summary_from(certificate: CertificateView, statement: StatementView) -> Result<SummaryView, Error> {
    if statement.subjects.len() == 0 {
        Err(Error::NoSubject)
    } else {
        Ok(SummaryView {
            commit: certificate.commit,
            repository: certificate.repository,
            subject: statement.subjects[0],
        })
    }
}

/// The summary of one attestation: certificate first, then statement.
pub open spec fn attestation_summary(a: AttestationView) -> Result<SummaryView, Error> {
    match base64_of(a.certificate) {
        None => Err(Error::CertificateBase64),
        Some(der) => match certificate_of(der) {
            Err(e) => Err(e),
            Ok(c) => match statement_of(a.statement) {
                Err(e) => Err(e),
                Ok(s) => summary_from(c, s),
            },
        },
    }
}

/// The elements of member `key` of `j`, where it is an array.
pub open spec fn array_member(j: Json, key: Seq<char>) -> Option<Seq<Json>> {
    match field_of(j, key) {
        Some(Json::Array(items)) => Some(items@),
        _ => None,
    }
}

/// The JSON value of the attestation a document is judged by: the first of
/// its first bundle. Only the path to it is read; later bundles and later
/// attestations may hold anything.
pub open spec fn first_attestation_json(doc: Json) -> Result<Json, Error> {
    match array_member(doc, "attestation_bundles"@) {
        None => Err(Error::ProvenanceJson),
        Some(bundles) => if bundles.len() == 0 {
            Err(Error::NoBundles)
        } else {
            match array_member(bundles[0], "attestations"@) {
                None => Err(Error::ProvenanceJson),
                Some(attestations) => if attestations.len() == 0 {
                    Err(Error::NoAttestations)
                } else {
                    Ok(attestations[0])
                },
            }
        },
    }
}

/// The attestation a document is judged by, where it has the attestation shape.
pub open spec fn selected_json_attestation(doc: Json) -> Result<AttestationView, Error> {
    match first_attestation_json(doc) {
        Err(e) => Err(e),
        Ok(a) => match attestation_of(a) {
            Some(v) => Ok(v),
            None => Err(Error::ProvenanceJson),
        },
    }
}

/// The summary of a provenance document's JSON value.
pub open spec fn summary_of_json(doc: Json) -> Result<SummaryView, Error> {
    match selected_json_attestation(doc) {
        Err(e) => Err(e),
        Ok(a) => attestation_summary(a),
    }
}

/// The summary of a provenance document's bytes.
pub open spec fn summary_of(bytes: Seq<u8>) -> Result<SummaryView, Error> {
    match json_of(bytes) {
        None => Err(Error::ProvenanceJson),
        Some(doc) => summary_of_json(doc),
    }
}

/// The view of a result, its error kept.
pub open spec fn attestation_result(r: Result<Attestation, Error>) -> Result<AttestationView, Error> {
    match r {
        Ok(a) => Ok(a@),
        Err(e) => Err(e),
    }
}

/// The view of a result, its error kept.
pub open spec fn summary_result(r: Result<AttestationSummary, Error>) -> Result<SummaryView, Error> {
    match r {
        Ok(s) => Ok(s@),
        Err(e) => Err(e),
    }
}

/// The view of a result, its error kept.
pub open spec fn statement_result(r: Result<InTotoStatement, Error>) -> Result<StatementView, Error> {
    match r {
        Ok(s) => Ok(s@),
        Err(e) => Err(e),
    }
}

/// Clones the text of member `key` of `j`, where it is a string.
fn text_member_of(j: &Json, key: &str) -> (r: Option<String>)
    ensures
        match r {
            Some(s) => text_member(*j, key@) == Some(s@),
            None => text_member(*j, key@) is None,
        },
{
    match j.field(key) {
        Some(v) => match v.text() {
            Some(s) => Some(s.clone()),
            None => None,
        },
        None => None,
    }
}

impl Attestation {
    /// Reads an attestation from its JSON value.
    pub fn from_json(j: &Json) -> (r: Option<Attestation>)
        ensures
            match r {
                Some(a) => attestation_of(*j) == Some(a@),
                None => attestation_of(*j) is None,
            },
    {
        let envelope = match j.field("envelope") {
            Some(v) => v,
            None => return None,
        };
        let material = match j.field("verification_material") {
            Some(v) => v,
            None => return None,
        };
        let statement = match text_member_of(envelope, "statement") {
            Some(s) => s,
            None => return None,
        };
        let certificate = match text_member_of(material, "certificate") {
            Some(s) => s,
            None => return None,
        };
        Some(Attestation {
            envelope: Envelope { statement },
            verification_material: VerificationMaterial { certificate },
        })
    }
}

impl InTotoStatement {
    /// Reads a statement from its JSON value; every subject must have a string `name`.
    pub fn from_json(j: &Json) -> (r: Option<InTotoStatement>)
        ensures
            match r {
                Some(s) => statement_json_of(*j) == Some(s@),
                None => statement_json_of(*j) is None,
            },
    {
        let type_tag = match text_member_of(j, "_type") {
            Some(t) => t,
            None => return None,
        };
        let items = match j.field("subject") {
            Some(Json::Array(items)) => items,
            _ => return None,
        };
        let mut subject: Vec<InTotoSubject> = Vec::new();
        let mut i: usize = 0;
        while i < items.len()
            invariant
                field_of(*j, "subject"@) == Some(Json::Array(*items)),
                text_member(*j, "_type"@) == Some(type_tag@),
                i <= items@.len(),
                subject@.len() == i,
                forall|k: int| 0 <= k < i ==> text_member(#[trigger] items@[k], "name"@) == Some(subject@[k].name@),
            decreases items@.len() - i,
        {
            match text_member_of(&items[i], "name") {
                Some(name) => subject.push(InTotoSubject { name }),
                None => {
                    assert(text_member(items@[i as int], "name"@) is None);
                    return None;
                },
            }
            i = i + 1;
        }
        let s = InTotoStatement { _type: type_tag, subject };
        assert(forall|k: int| 0 <= k < items@.len() ==> (#[trigger] text_member(items@[k], "name"@)) is Some);
        assert(s@.subjects =~= items@.map_values(|x: Json| text_member(x, "name"@)->0));
        Some(s)
    }

    /// Decodes a statement from base64 text of its JSON.
    pub fn parse(text: &str) -> (r: Result<InTotoStatement, Error>)
        ensures
            statement_result(r) == statement_of(text@),
    {
        let bytes = match base64_decode(text) {
            Some(b) => b,
            None => return Err(Error::StatementBase64),
        };
        let j = match parse_json(bytes.as_slice()) {
            Some(j) => j,
            None => return Err(Error::StatementJson),
        };
        match InTotoStatement::from_json(&j) {
            Some(s) => Ok(s),
            None => Err(Error::StatementJson),
        }
    }
}

/// Joins a certificate's claims with the statement's first subject.
pub fn summary_from_parts(certificate: Certificate, statement: InTotoStatement) -> (r: Result<AttestationSummary, Error>)
    ensures
        summary_result(r) == summary_from(certificate@, statement@),
{
    if statement.subject.len() == 0 {
        return Err(Error::NoSubject);
    }
    let subject = statement.subject[0].name.clone();
    Ok(AttestationSummary { commit: certificate.commit, repository: certificate.repository, subject })
}

/// Summarises one attestation: decodes its certificate, then its statement.
pub fn summarize_attestation(attestation: &Attestation) -> (r: Result<AttestationSummary, Error>)
    ensures
        summary_result(r) == attestation_summary(attestation@),
{
    let der = match base64_decode(attestation.verification_material.certificate.as_str()) {
        Some(d) => d,
        None => return Err(Error::CertificateBase64),
    };
    let cert = match certificate::parse(der.as_slice()) {
        Ok(c) => c,
        Err(e) => return Err(e),
    };
    let statement = match InTotoStatement::parse(attestation.envelope.statement.as_str()) {
        Ok(s) => s,
        Err(e) => return Err(e),
    };
    summary_from_parts(cert, statement)
}

/// Finds the attestation a document is judged by, the first of its first
/// bundle, reading only the path to it.
pub fn select_json_attestation(doc: &Json) -> (r: Result<Attestation, Error>)
    ensures
        attestation_result(r) == selected_json_attestation(*doc),
{
    let bundles = match doc.field("attestation_bundles") {
        Some(Json::Array(items)) => items,
        _ => return Err(Error::ProvenanceJson),
    };
    if bundles.len() == 0 {
        return Err(Error::NoBundles);
    }
    let attestations = match bundles[0].field("attestations") {
        Some(Json::Array(items)) => items,
        _ => return Err(Error::ProvenanceJson),
    };
    if attestations.len() == 0 {
        return Err(Error::NoAttestations);
    }
    match Attestation::from_json(&attestations[0]) {
        Some(a) => Ok(a),
        None => Err(Error::ProvenanceJson),
    }
}

/// Parses a provenance document and summarises it. Each stage stops the
/// parse at its first failure, with an error that names the stage.
pub fn parse(bytes: &[u8]) -> (r: Result<AttestationSummary, Error>)
    ensures
        summary_result(r) == summary_of(bytes@),
{
    let doc = match parse_json(bytes) {
        Some(j) => j,
        None => return Err(Error::ProvenanceJson),
    };
    match select_json_attestation(&doc) {
        Ok(a) => summarize_attestation(&a),
        Err(e) => Err(e),
    }
}

} // verus!
