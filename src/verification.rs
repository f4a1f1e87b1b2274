use vstd::prelude::*;
use crate::attestation::{AttestationSummary, SummaryView, parse, summary_of};
use crate::error::Error;
use crate::decode::same_text;

verus! {

/// A claim of the attestation that the caller's expectations are compared with.
#[derive(Debug, Clone, Copy, PartialEq, Eq, Structural)]
pub enum Field {
    Commit,
    Subject,
    Repository,
}

impl Field {
    /// The field's name, as diagnostics give it.
    pub fn label(&self) -> (r: &'static str)
        ensures
            r@ == self.label_spec(),
    {
        match self {
            Field::Commit => "Commit",
            Field::Subject => "Subject",
            Field::Repository => "Repository",
        }
    }

    /// The field's name, as diagnostics give it.
    pub open spec fn label_spec(&self) -> Seq<char> {
        match self {
            Field::Commit => "Commit"@,
            Field::Subject => "Subject"@,
            Field::Repository => "Repository"@,
        }
    }
}

/// The outcome of one comparison: what was expected, what the attestation
/// says, and whether the two are the same text.
#[derive(Debug)]
pub struct FieldCheck {
    pub field: Field,
    pub expected: String,
    pub attested: String,
    pub matched: bool,
}

/// What a `FieldCheck` says, with its texts as character sequences.
pub struct FieldCheckView {
    pub field: Field,
    pub expected: Seq<char>,
    pub attested: Seq<char>,
    pub matched: bool,
}

impl View for FieldCheck {
    type V = FieldCheckView;

    open spec fn view(&self) -> FieldCheckView {
        FieldCheckView { field: self.field, expected: self.expected@, attested: self.attested@, matched: self.matched }
    }
}

/// Every comparison that was made, in order, and whether any of them failed.
#[derive(Debug)]
pub struct Verification {
    pub checks: Vec<FieldCheck>,
    pub failed: bool,
}

/// What a `Verification` says.
pub struct VerificationView {
    pub checks: Seq<FieldCheckView>,
    pub failed: bool,
}

impl View for Verification {
    type V = VerificationView;

    open spec fn view(&self) -> VerificationView {
        VerificationView { checks: self.checks@.map_values(|c: FieldCheck| c@), failed: self.failed }
    }
}

/// One comparison: exact, case-sensitive equality of the texts.
pub open spec fn check_of(field: Field, expected: Seq<char>, attested: Seq<char>) -> FieldCheckView {
    FieldCheckView { field, expected, attested, matched: expected == attested }
}

/// The comparisons made for a summary: commit, subject, and the repository
/// only where one is expected.
pub open spec fn checks_of(
    summary: SummaryView,
    expected_subject: Seq<char>,
    expected_commit: Seq<char>,
    expected_repository: Option<Seq<char>>,
) -> Seq<FieldCheckView> {
    let both = seq![
        check_of(Field::Commit, expected_commit, summary.commit),
        check_of(Field::Subject, expected_subject, summary.subject),
    ];
    match expected_repository {
        Some(r) => both.push(check_of(Field::Repository, r, summary.repository)),
        None => both,
    }
}

/// Whether any of the comparisons failed.
pub open spec fn any_mismatch(checks: Seq<FieldCheckView>) -> bool {
    exists|k: int| 0 <= k < checks.len() && !(#[trigger] checks[k]).matched
}

/// The comparisons made for a summary, and whether any failed.
pub open spec fn verification_of(
    summary: SummaryView,
    expected_subject: Seq<char>,
    expected_commit: Seq<char>,
    expected_repository: Option<Seq<char>>,
) -> VerificationView {
    let checks = checks_of(summary, expected_subject, expected_commit, expected_repository);
    VerificationView { checks, failed: any_mismatch(checks) }
}

/// The view of an optional text.
pub open spec fn option_text(o: Option<&str>) -> Option<Seq<char>> {
    match o {
        Some(s) => Some(s@),
        None => None,
    }
}

/// Compares one expected value with the attested one, records the outcome in
/// `checks`, and raises `verification_failed` on a mismatch. An earlier
/// failure is kept.
pub fn verify_argument(
    verification_failed: &mut bool,
    checks: &mut Vec<FieldCheck>,
    field: Field,
    expected: &str,
    attestation: &str,
)
    ensures
        *final(verification_failed) == (*old(verification_failed) || expected@ != attestation@),
        final(checks)@.map_values(|c: FieldCheck| c@) == old(checks)@.map_values(|c: FieldCheck| c@).push(
            check_of(field, expected@, attestation@),
        ),
{
    let matched = same_text(expected, attestation);
    if !matched {
        *verification_failed = true;
    }
    checks.push(FieldCheck { field, expected: expected.to_owned(), attested: attestation.to_owned(), matched });
    assert(final(checks)@.map_values(|c: FieldCheck| c@) =~= old(checks)@.map_values(|c: FieldCheck| c@).push(
        check_of(field, expected@, attestation@),
    ));
}

/// Compares a summary with what the caller expects. Every comparison is made,
/// whatever an earlier one found; the repository is compared only where one
/// is expected. The result fails where any comparison did.
pub fn verify(
    summary: &AttestationSummary,
    expected_subject: &str,
    expected_commit: &str,
    expected_repository: Option<&str>,
) -> (r: Verification)
    ensures
        r@ == verification_of(summary@, expected_subject@, expected_commit@, option_text(expected_repository)),
{
    let mut failed = false;
    let mut checks: Vec<FieldCheck> = Vec::new();
    verify_argument(&mut failed, &mut checks, Field::Commit, expected_commit, summary.commit.as_str());
    verify_argument(&mut failed, &mut checks, Field::Subject, expected_subject, summary.subject.as_str());
    match expected_repository {
        Some(repository) => {
            verify_argument(&mut failed, &mut checks, Field::Repository, repository, summary.repository.as_str());
        },
        None => {},
    }
    let r = Verification { checks, failed };
    let ghost want = checks_of(summary@, expected_subject@, expected_commit@, option_text(expected_repository));
    assert(r@.checks =~= want);
    assert(r@.checks[0] == want[0]);
    assert(r@.checks[1] == want[1]);
    proof {
        if r.failed {
            if !want[0].matched {
                assert(!r@.checks[0].matched);
            } else if !want[1].matched {
                assert(!r@.checks[1].matched);
            } else {
                assert(!r@.checks[2].matched);
            }
        } else {
            assert forall|k: int| 0 <= k < want.len() implies (#[trigger] want[k]).matched by {
                if k == 2 {
                    assert(want[2] == r@.checks[2]);
                }
            }
        }
    }
    r
}

/// What checking a document's bytes against expectations comes to.
pub open spec fn outcome_of(
    data: Seq<u8>,
    expected_subject: Seq<char>,
    expected_commit: Seq<char>,
    expected_repository: Option<Seq<char>>,
) -> Result<VerificationView, Error> {
    match summary_of(data) {
        Err(e) => Err(e),
        Ok(s) => Ok(verification_of(s, expected_subject, expected_commit, expected_repository)),
    }
}

/// The view of a result, its error kept.
pub open spec fn outcome_result(r: Result<Verification, Error>) -> Result<VerificationView, Error> {
    match r {
        Ok(v) => Ok(v@),
        Err(e) => Err(e),
    }
}

/// Parses a provenance document and compares it with what the caller expects.
/// A document that does not parse is an error; a parsed one gives the
/// comparisons, failed or not.
pub fn verify_attestation(
    data: &[u8],
    expected_subject: &str,
    expected_commit: &str,
    expected_repository: Option<&str>,
) -> (r: Result<Verification, Error>)
    ensures
        outcome_result(r) == outcome_of(data@, expected_subject@, expected_commit@, option_text(expected_repository)),
{
    match parse(data) {
        Ok(summary) => Ok(verify(&summary, expected_subject, expected_commit, expected_repository)),
        Err(e) => Err(e),
    }
}

} // verus!
