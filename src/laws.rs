use vstd::prelude::*;
use crate::attestation::{
    StatementView, SummaryView, array_member, statement_json_of, statement_of, summary_from,
    summary_of_json, text_member,
};
use crate::decode::base64_of;
use crate::error::Error;
use crate::json::{Json, field_of, json_of};
use crate::verification::{Field, Verification, outcome_of, outcome_result, verification_of};

verus! {

/// A decoded statement holds every subject name exactly as its JSON wrote it,
/// in the same order, and no other.
pub proof fn statement_keeps_subject_names(text: Seq<char>)
    requires
        statement_of(text) is Ok,
    ensures
        base64_of(text) is Some,
        json_of(base64_of(text)->0) is Some,
        match field_of(json_of(base64_of(text)->0)->0, "subject"@) {
            Some(Json::Array(items)) => {
                let names = statement_of(text)->Ok_0.subjects;
                &&& names.len() == items@.len()
                &&& forall|k: int| 0 <= k < names.len() ==> text_member(#[trigger] items@[k], "name"@) == Some(names[k])
            },
            _ => false,
        },
{
    let j = json_of(base64_of(text)->0)->0;
    let s = statement_json_of(j)->0;
    match field_of(j, "subject"@) {
        Some(Json::Array(items)) => {
            assert forall|k: int| 0 <= k < s.subjects.len() implies text_member(#[trigger] items@[k], "name"@) == Some(s.subjects[k]) by {
                assert(text_member(items@[k], "name"@) is Some);
            }
        },
        _ => {},
    }
}

/// Checking the same bytes against the same expectations twice gives the
/// same result.
pub proof fn verification_is_deterministic(
    data: Seq<u8>,
    expected_subject: Seq<char>,
    expected_commit: Seq<char>,
    expected_repository: Option<Seq<char>>,
    first: Result<Verification, Error>,
    second: Result<Verification, Error>,
)
    requires
        outcome_result(first) == outcome_of(data, expected_subject, expected_commit, expected_repository),
        outcome_result(second) == outcome_of(data, expected_subject, expected_commit, expected_repository),
    ensures
        outcome_result(first) == outcome_result(second),
{
}

/// Values of any kind appended to a document's bundle array never change its
/// summary, once the array has a first bundle.
pub proof fn later_bundles_are_ignored(doc: Json, longer: Json)
    requires
        array_member(doc, "attestation_bundles"@) is Some,
        array_member(doc, "attestation_bundles"@)->0.len() > 0,
        array_member(longer, "attestation_bundles"@) is Some,
        array_member(doc, "attestation_bundles"@)->0.is_prefix_of(array_member(longer, "attestation_bundles"@)->0),
    ensures
        summary_of_json(longer) == summary_of_json(doc),
{
    let b = array_member(doc, "attestation_bundles"@)->0;
    let b2 = array_member(longer, "attestation_bundles"@)->0;
    assert(b2[0] == b[0]);
}

/// Values of any kind appended to the first bundle's attestation array never
/// change a document's summary, once the array has a first attestation.
/// Nothing else of the first bundle, nor any later bundle, plays a part.
pub proof fn later_attestations_are_ignored(doc: Json, longer: Json)
    requires
        array_member(doc, "attestation_bundles"@) is Some,
        array_member(doc, "attestation_bundles"@)->0.len() > 0,
        array_member(longer, "attestation_bundles"@) is Some,
        array_member(longer, "attestation_bundles"@)->0.len() > 0,
        array_member(array_member(doc, "attestation_bundles"@)->0[0], "attestations"@) is Some,
        array_member(array_member(doc, "attestation_bundles"@)->0[0], "attestations"@)->0.len() > 0,
        array_member(array_member(longer, "attestation_bundles"@)->0[0], "attestations"@) is Some,
        array_member(array_member(doc, "attestation_bundles"@)->0[0], "attestations"@)->0.is_prefix_of(
            array_member(array_member(longer, "attestation_bundles"@)->0[0], "attestations"@)->0,
        ),
    ensures
        summary_of_json(longer) == summary_of_json(doc),
{
    let a = array_member(array_member(doc, "attestation_bundles"@)->0[0], "attestations"@)->0;
    let a2 = array_member(array_member(longer, "attestation_bundles"@)->0[0], "attestations"@)->0;
    assert(a2[0] == a[0]);
}

/// A document with an empty bundle array fails at bundle selection, one whose
/// first bundle has an empty attestation array at attestation selection, and
/// a statement without subjects at subject selection.
pub proof fn empty_lists_fail_at_their_stage(
    doc: Json,
    certificate: crate::certificate::CertificateView,
    type_tag: Seq<char>,
)
    ensures
        array_member(doc, "attestation_bundles"@) == Some(Seq::<Json>::empty())
            ==> summary_of_json(doc) == Err::<SummaryView, Error>(Error::NoBundles),
        ({
            let bundles = array_member(doc, "attestation_bundles"@);
            bundles is Some && bundles->0.len() > 0
                && array_member(bundles->0[0], "attestations"@) == Some(Seq::<Json>::empty())
        }) ==> summary_of_json(doc) == Err::<SummaryView, Error>(Error::NoAttestations),
        summary_from(certificate, StatementView { type_tag, subjects: Seq::empty() }) == Err::<SummaryView, Error>(Error::NoSubject),
{
}

/// A wrong commit and a wrong subject are both reported, the commit first.
pub proof fn every_mismatch_is_reported(
    summary: SummaryView,
    expected_subject: Seq<char>,
    expected_commit: Seq<char>,
    expected_repository: Option<Seq<char>>,
)
    requires
        expected_commit != summary.commit,
        expected_subject != summary.subject,
    ensures
        ({
            let v = verification_of(summary, expected_subject, expected_commit, expected_repository);
            &&& v.failed
            &&& v.checks[0].field == Field::Commit && !v.checks[0].matched
            &&& v.checks[1].field == Field::Subject && !v.checks[1].matched
        }),
{
    let v = verification_of(summary, expected_subject, expected_commit, expected_repository);
    assert(!v.checks[0].matched);
}

/// Without an expected repository, the attested repository plays no part: the
/// result fails exactly where the commit or the subject differs.
pub proof fn unexpected_repository_is_not_checked(
    summary: SummaryView,
    other_repository: Seq<char>,
    expected_subject: Seq<char>,
    expected_commit: Seq<char>,
)
    ensures
        verification_of(summary, expected_subject, expected_commit, None).failed
            == (expected_commit != summary.commit || expected_subject != summary.subject),
        verification_of(summary, expected_subject, expected_commit, None).failed
            == verification_of(SummaryView { repository: other_repository, ..summary }, expected_subject, expected_commit, None).failed,
{
    let v = verification_of(summary, expected_subject, expected_commit, None);
    if expected_commit != summary.commit {
        assert(!v.checks[0].matched);
    } else if expected_subject != summary.subject {
        assert(!v.checks[1].matched);
    }
    let w = verification_of(SummaryView { repository: other_repository, ..summary }, expected_subject, expected_commit, None);
    if expected_commit != summary.commit {
        assert(!w.checks[0].matched);
    } else if expected_subject != summary.subject {
        assert(!w.checks[1].matched);
    }
}

/// A matching repository does not rescue a wrong commit.
pub proof fn wrong_commit_fails_despite_repository(
    summary: SummaryView,
    expected_subject: Seq<char>,
    expected_commit: Seq<char>,
)
    requires
        expected_commit != summary.commit,
    ensures
        verification_of(summary, expected_subject, expected_commit, Some(summary.repository)).failed,
{
    let v = verification_of(summary, expected_subject, expected_commit, Some(summary.repository));
    assert(!v.checks[0].matched);
}

} // verus!
