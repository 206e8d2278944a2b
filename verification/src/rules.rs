//! The rules that decide a mutating call.
//!
//! Each rule works on plain values: the call's context, its arguments and the
//! few facts about the stored state that the decision depends on. A host that
//! keeps the entries elsewhere reads those facts, asks the rule, and applies
//! the writes that the rule hands back.

use vstd::prelude::*;
use crate::error::Error;
use crate::identity::Identity;
use crate::record::{DataKey, VerificationRecord, MAX_CONFIDENCE};

verus! {

/// Retention horizon granted to an entry whenever it is written, in ledger
/// ticks: about one year at five seconds per tick. The same value serves as
/// the threshold below which retention is extended and as the new horizon.
pub const RETENTION_LEDGERS: u32 = 6_307_200;

/// What a mutating call knows about its origin: who signed it and what the
/// ledger clock showed when it ran.
#[derive(Copy, Clone, Debug, PartialEq, Eq)]
pub struct Invocation {
    /// The identity whose signature the call carries.
    pub signer: Identity,
    /// The ledger clock, in seconds.
    pub timestamp: u64,
}

/// The writes of an accepted submission.
#[derive(Copy, Clone, Debug, PartialEq, Eq)]
pub struct Submission {
    /// Where the new record goes.
    pub key: DataKey,
    /// The new record.
    pub record: VerificationRecord,
    /// The new value of the attestation counter.
    pub count: u32,
    /// Remaining retention below which the record's and the counter's
    /// retention are extended.
    pub ttl_threshold: u32,
    /// The retention that both entries are extended to.
    pub ttl_extend_to: u32,
}

/// The writes of an accepted update.
#[derive(Copy, Clone, Debug, PartialEq, Eq)]
pub struct Revision {
    /// Where the revised record goes.
    pub key: DataKey,
    /// The revised record.
    pub record: VerificationRecord,
    /// Remaining retention below which the record's retention is extended.
    pub ttl_threshold: u32,
    /// The retention that the record is extended to.
    pub ttl_extend_to: u32,
}

/// Why a mutating call is rejected before any stored entry is looked at, if
/// it is: the signer is checked first, then the score.
pub open spec fn call_rejection(call: &Invocation, submitter: &Identity, score: u32) -> Option<
    Error,
> {
    if call.signer != *submitter {
        Some(Error::Unauthorized)
    } else if score > MAX_CONFIDENCE {
        Some(Error::InvalidConfidence)
    } else {
        None
    }
}

/// Why a submission is rejected, if it is. The signer is checked first, then
/// the score, then whether the key is already `occupied`.
pub open spec fn submission_rejection(
    call: &Invocation,
    submitter: &Identity,
    confidence_score: u32,
    occupied: bool,
) -> Option<Error> {
    match call_rejection(call, submitter, confidence_score) {
        Some(e) => Some(e),
        None => if occupied {
            Some(Error::DuplicateVerification)
        } else {
            None
        },
    }
}

/// Why an update is rejected, if it is. The signer is checked first, then the
/// score, then whether a record is `present` at the key.
pub open spec fn update_rejection(
    call: &Invocation,
    submitter: &Identity,
    new_confidence: u32,
    present: bool,
) -> Option<Error> {
    match call_rejection(call, submitter, new_confidence) {
        Some(e) => Some(e),
        None => if !present {
            Some(Error::NotFound)
        } else {
            None
        },
    }
}

/// The value of the attestation counter, given what is stored for it: zero
/// while nothing is.
pub open spec fn spec_counter_value(stored: Option<u32>) -> u32 {
    match stored {
        Some(count) => count,
        None => 0,
    }
}

/// The writes of a submission that is accepted when `count` attestations
/// exist.
pub open spec fn planned_submission(
    call: &Invocation,
    submitter: Identity,
    video_hash: [u8; 32],
    is_ai_generated: bool,
    confidence_score: u32,
    count: u32,
) -> Submission
    recommends
        count < u32::MAX,
{
    Submission {
        key: DataKey::Verification(video_hash, submitter),
        record: VerificationRecord {
            record_id: (count + 1) as u32,
            video_hash,
            submitter,
            is_ai_generated,
            confidence_score,
            timestamp: call.timestamp,
        },
        count: (count + 1) as u32,
        ttl_threshold: RETENTION_LEDGERS,
        ttl_extend_to: RETENTION_LEDGERS,
    }
}

/// The writes of an accepted update of `existing`, stored under the key of
/// `video_hash` and `submitter`.
pub open spec fn planned_revision(
    call: &Invocation,
    submitter: Identity,
    video_hash: [u8; 32],
    new_confidence: u32,
    existing: VerificationRecord,
) -> Revision {
    Revision {
        key: DataKey::Verification(video_hash, submitter),
        record: existing.spec_revised(new_confidence, call.timestamp),
        ttl_threshold: RETENTION_LEDGERS,
        ttl_extend_to: RETENTION_LEDGERS,
    }
}

/// Tells whether `score` is an admissible confidence percentage.
pub fn valid_confidence(score: u32) -> (valid: bool)
    ensures
        valid == (score <= MAX_CONFIDENCE),
{
    score <= MAX_CONFIDENCE
}

/// Returns the identifier of the next attestation when `count` exist, or
/// `None` when the identifiers are used up. Identifiers never wrap around.
pub fn next_record_id(count: u32) -> (id: Option<u32>)
    ensures
        count < u32::MAX ==> id == Some((count + 1) as u32),
        count == u32::MAX ==> id is None,
{
    count.checked_add(1)
}

/// Returns the value of the attestation counter, given what is stored for
/// it: zero while nothing is.
#[verifier::when_used_as_spec(spec_counter_value)]
pub fn counter_value(stored: Option<u32>) -> (count: u32)
    ensures
        count == spec_counter_value(stored),
{
    match stored {
        Some(count) => count,
        None => 0,
    }
}

/// Lists the attestations of `submitter`, `limit` at most, from position
/// `start`. No index from submitters to keys is kept, so the list is always
/// empty.
pub fn listed_records(submitter: &Identity, start: u32, limit: u32) -> (page: Vec<
    VerificationRecord,
>)
    ensures
        page@ == Seq::<VerificationRecord>::empty(),
{
    let page: Vec<VerificationRecord> = Vec::new();
    assert(page@ =~= Seq::empty());
    page
}

/// Makes the checks of a mutating call that look at no stored entry, so that
/// a host can reject the call before it reads anything: `Unauthorized` when
/// the call is not signed by `submitter`, else `InvalidConfidence` when
/// `score` exceeds 100.
pub fn check_call(call: &Invocation, submitter: &Identity, score: u32) -> (verdict: Result<
    (),
    Error,
>)
    ensures
        verdict == match call_rejection(call, submitter, score) {
            Some(e) => Err::<(), Error>(e),
            None => Ok::<(), Error>(()),
        },
{
    if !call.signer.same_as(submitter) {
        Err(Error::Unauthorized)
    } else if !valid_confidence(score) {
        Err(Error::InvalidConfidence)
    } else {
        Ok(())
    }
}

/// Decides whether a submission may proceed.
///
/// `occupied` says whether a record is stored at the key of the submitted
/// hash and submitter.
pub fn check_submission(
    call: &Invocation,
    submitter: &Identity,
    confidence_score: u32,
    occupied: bool,
) -> (verdict: Result<(), Error>)
    ensures
        verdict == match submission_rejection(call, submitter, confidence_score, occupied) {
            Some(e) => Err::<(), Error>(e),
            None => Ok::<(), Error>(()),
        },
{
    match check_call(call, submitter, confidence_score) {
        Err(e) => Err(e),
        Ok(()) => if occupied {
            Err(Error::DuplicateVerification)
        } else {
            Ok(())
        },
    }
}

/// Decides whether an update may proceed.
///
/// `present` says whether a record is stored at the key of the addressed
/// hash and submitter.
pub fn check_update(
    call: &Invocation,
    submitter: &Identity,
    new_confidence: u32,
    present: bool,
) -> (verdict: Result<(), Error>)
    ensures
        verdict == match update_rejection(call, submitter, new_confidence, present) {
            Some(e) => Err::<(), Error>(e),
            None => Ok::<(), Error>(()),
        },
{
    match check_call(call, submitter, new_confidence) {
        Err(e) => Err(e),
        Ok(()) => if !present {
            Err(Error::NotFound)
        } else {
            Ok(())
        },
    }
}

/// Builds the writes of an accepted submission whose record gets the
/// identifier `record_id`.
fn accepted_submission(
    call: &Invocation,
    submitter: Identity,
    video_hash: [u8; 32],
    is_ai_generated: bool,
    confidence_score: u32,
    record_id: u32,
) -> (plan: Submission)
    requires
        record_id >= 1,
    ensures
        plan == planned_submission(
            call,
            submitter,
            video_hash,
            is_ai_generated,
            confidence_score,
            (record_id - 1) as u32,
        ),
{
    Submission {
        key: DataKey::Verification(video_hash, submitter),
        record: VerificationRecord {
            record_id,
            video_hash,
            submitter,
            is_ai_generated,
            confidence_score,
            timestamp: call.timestamp,
        },
        count: record_id,
        ttl_threshold: RETENTION_LEDGERS,
        ttl_extend_to: RETENTION_LEDGERS,
    }
}

/// Decides a submission and, when it is accepted, says what to write.
///
/// `occupied` says whether a record is stored at the key of `video_hash` and
/// `submitter`; `count` is the current value of the attestation counter. An
/// accepted submission needs a fresh identifier, so it must not arrive when
/// `count` is `u32::MAX`; [`try_plan_submission`] serves callers that cannot
/// rule this out.
pub fn plan_submission(
    call: &Invocation,
    submitter: Identity,
    video_hash: [u8; 32],
    is_ai_generated: bool,
    confidence_score: u32,
    occupied: bool,
    count: u32,
) -> (plan: Result<Submission, Error>)
    requires
        submission_rejection(call, &submitter, confidence_score, occupied) is None ==> count
            < u32::MAX,
    ensures
        plan == match submission_rejection(call, &submitter, confidence_score, occupied) {
            Some(e) => Err::<Submission, Error>(e),
            None => Ok::<Submission, Error>(
                planned_submission(
                    call,
                    submitter,
                    video_hash,
                    is_ai_generated,
                    confidence_score,
                    count,
                ),
            ),
        },
{
    match check_submission(call, &submitter, confidence_score, occupied) {
        Err(e) => Err(e),
        Ok(()) => Ok(
            accepted_submission(
                call,
                submitter,
                video_hash,
                is_ai_generated,
                confidence_score,
                count + 1,
            ),
        ),
    }
}

/// Decides a submission for any value of the counter.
///
/// Returns `None`, the signal to abort the call without writing, exactly
/// when the submission passes every check but `count` is `u32::MAX`, so that
/// no identifier is left for it. Otherwise returns what [`plan_submission`]
/// returns.
pub fn try_plan_submission(
    call: &Invocation,
    submitter: Identity,
    video_hash: [u8; 32],
    is_ai_generated: bool,
    confidence_score: u32,
    occupied: bool,
    count: u32,
) -> (plan: Option<Result<Submission, Error>>)
    ensures
        plan is None <==> submission_rejection(call, &submitter, confidence_score, occupied)
            is None && count == u32::MAX,
        plan is Some ==> plan->0 == match submission_rejection(
            call,
            &submitter,
            confidence_score,
            occupied,
        ) {
            Some(e) => Err::<Submission, Error>(e),
            None => Ok::<Submission, Error>(
                planned_submission(
                    call,
                    submitter,
                    video_hash,
                    is_ai_generated,
                    confidence_score,
                    count,
                ),
            ),
        },
{
    match check_submission(call, &submitter, confidence_score, occupied) {
        Err(e) => Some(Err(e)),
        Ok(()) => match next_record_id(count) {
            None => None,
            Some(record_id) => Some(
                Ok(
                    accepted_submission(
                        call,
                        submitter,
                        video_hash,
                        is_ai_generated,
                        confidence_score,
                        record_id,
                    ),
                ),
            ),
        },
    }
}

/// Decides an update and, when it is accepted, says what to write.
///
/// `existing` is the record stored at the key of `video_hash` and
/// `submitter`, if there is one.
pub fn plan_update(
    call: &Invocation,
    submitter: Identity,
    video_hash: [u8; 32],
    new_confidence: u32,
    existing: Option<VerificationRecord>,
) -> (plan: Result<Revision, Error>)
    ensures
        plan == match update_rejection(call, &submitter, new_confidence, existing is Some) {
            Some(e) => Err::<Revision, Error>(e),
            None => Ok::<Revision, Error>(
                planned_revision(call, submitter, video_hash, new_confidence, existing.unwrap()),
            ),
        },
{
    match check_update(call, &submitter, new_confidence, existing.is_some()) {
        Err(e) => Err(e),
        Ok(()) => {
            let current = existing.unwrap();
            Ok(
                Revision {
                    key: DataKey::Verification(video_hash, submitter),
                    record: current.revised(new_confidence, call.timestamp),
                    ttl_threshold: RETENTION_LEDGERS,
                    ttl_extend_to: RETENTION_LEDGERS,
                },
            )
        },
    }
}

} // verus!
