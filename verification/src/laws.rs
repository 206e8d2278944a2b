//! Laws of the ledger, proved of every state and every call.

use vstd::prelude::*;
use crate::error::Error;
use crate::identity::Identity;
use crate::record::{DataKey, VerificationRecord, MAX_CONFIDENCE};
use crate::rules::{Invocation, RETENTION_LEDGERS};
use crate::state::LedgerState;

verus! {

/// The empty ledger is well formed, counts zero and holds no record.
pub proof fn lemma_empty_ledger(video_hash: [u8; 32], submitter: Identity)
    ensures
        LedgerState::empty().wf(),
        LedgerState::empty().count == 0,
        LedgerState::empty().get(video_hash, submitter) is None,
{
}

/// A submission keeps the ledger well formed, whether it is accepted or
/// not.
pub proof fn lemma_submit_preserves_wf(
    s: LedgerState,
    call: Invocation,
    submitter: Identity,
    video_hash: [u8; 32],
    is_ai_generated: bool,
    confidence_score: u32,
)
    requires
        s.wf(),
    ensures
        s.submit(&call, submitter, video_hash, is_ai_generated, confidence_score).wf(),
{
}

/// An update keeps the ledger well formed, whether it is accepted or
/// rejected.
pub proof fn lemma_update_preserves_wf(
    s: LedgerState,
    call: Invocation,
    submitter: Identity,
    video_hash: [u8; 32],
    new_confidence: u32,
)
    requires
        s.wf(),
    ensures
        s.update(&call, submitter, video_hash, new_confidence).wf(),
{
}

/// First submission: a signed submission with a score of at most 100, for a
/// key that holds no record yet, is accepted. It returns an identifier one
/// above the counter, which no stored record carries; afterwards the key
/// reads back exactly the submitted fields with the time of the call, the
/// counter stands at the new identifier, and every other key reads as before.
pub proof fn lemma_first_submission_succeeds(
    s: LedgerState,
    call: Invocation,
    submitter: Identity,
    video_hash: [u8; 32],
    is_ai_generated: bool,
    confidence_score: u32,
)
    requires
        s.wf(),
        s.count < u32::MAX,
        call.signer == submitter,
        confidence_score <= MAX_CONFIDENCE,
        !s.has(video_hash, submitter),
    ensures
        ({
            let next = s.submit(&call, submitter, video_hash, is_ai_generated, confidence_score);
            let id = (s.count + 1) as u32;
            &&& s.submit_outcome(&call, submitter, video_hash, confidence_score) == Ok::<u32, Error>(id)
            &&& forall|k: DataKey| #[trigger] s.records.contains_key(k) ==> s.records[k].record_id < id
            &&& next.get(video_hash, submitter) == Some(
                VerificationRecord {
                    record_id: id,
                    video_hash,
                    submitter,
                    is_ai_generated,
                    confidence_score,
                    timestamp: call.timestamp,
                },
            )
            &&& next.count == s.count + 1
            &&& forall|h: [u8; 32], who: Identity|
                h != video_hash || who != submitter ==> #[trigger] next.get(h, who) == s.get(h, who)
        }),
{
}

/// Timestamps follow the clock: when the clock of an accepted call has not
/// run behind any stored record, the record that the call writes carries a
/// timestamp at least as late as that of every record in the ledger.
pub proof fn lemma_written_timestamp_is_latest(
    s: LedgerState,
    call: Invocation,
    submitter: Identity,
    video_hash: [u8; 32],
    is_ai_generated: bool,
    confidence_score: u32,
)
    requires
        forall|k: DataKey| #[trigger] s.records.contains_key(k) ==> s.records[k].timestamp <= call.timestamp,
    ensures
        ({
            let created = s.submit(&call, submitter, video_hash, is_ai_generated, confidence_score);
            let revised = s.update(&call, submitter, video_hash, confidence_score);
            let key = DataKey::Verification(video_hash, submitter);
            &&& s.accepts_submission(&call, submitter, video_hash, confidence_score) ==> {
                &&& created.records[key].timestamp == call.timestamp
                &&& forall|k: DataKey| #[trigger]
                    created.records.contains_key(k) ==> created.records[k].timestamp
                        <= created.records[key].timestamp
            }
            &&& s.update_rejection(&call, submitter, video_hash, confidence_score) is None ==> {
                &&& revised.records[key].timestamp == call.timestamp
                &&& forall|k: DataKey| #[trigger]
                    revised.records.contains_key(k) ==> revised.records[k].timestamp
                        <= revised.records[key].timestamp
            }
        }),
{
}

/// Scores above 100: a signed submission or update with such a score fails
/// with `InvalidConfidence` and leaves the ledger, and so every read and the
/// counter, as it was.
pub proof fn lemma_invalid_confidence_rejected(
    s: LedgerState,
    call: Invocation,
    submitter: Identity,
    video_hash: [u8; 32],
    is_ai_generated: bool,
    score: u32,
)
    requires
        call.signer == submitter,
        score > MAX_CONFIDENCE,
    ensures
        s.submit_outcome(&call, submitter, video_hash, score) == Err::<u32, Error>(
            Error::InvalidConfidence,
        ),
        s.submit(&call, submitter, video_hash, is_ai_generated, score) == s,
        s.update_outcome(&call, submitter, video_hash, score) == Err::<(), Error>(
            Error::InvalidConfidence,
        ),
        s.update(&call, submitter, video_hash, score) == s,
{
}

/// Duplicates: once a submission for a key has been accepted, every further
/// submission for that key is rejected and changes nothing, so the key keeps
/// its first record and the counter does not move. A further submission that
/// is signed and carries a score of at most 100 fails with
/// `DuplicateVerification`.
pub proof fn lemma_duplicate_rejected(
    s: LedgerState,
    first: Invocation,
    submitter: Identity,
    video_hash: [u8; 32],
    is_ai_generated: bool,
    confidence_score: u32,
    second: Invocation,
    second_verdict: bool,
    second_score: u32,
)
    requires
        s.accepts_submission(&first, submitter, video_hash, confidence_score),
    ensures
        ({
            let stored = s.submit(&first, submitter, video_hash, is_ai_generated, confidence_score);
            &&& stored.submit_outcome(&second, submitter, video_hash, second_score) is Err
            &&& stored.submit(&second, submitter, video_hash, second_verdict, second_score) == stored
            &&& second.signer == submitter && second_score <= MAX_CONFIDENCE
                ==> stored.submit_outcome(&second, submitter, video_hash, second_score) == Err::<
                u32,
                Error,
            >(Error::DuplicateVerification)
        }),
{
}

/// Counter: in a well-formed ledger the counter is exactly the number of
/// keys that hold a record.
pub proof fn lemma_count_is_number_of_records(s: LedgerState)
    requires
        s.wf(),
    ensures
        s.records.dom().finite(),
        s.count == s.records.dom().len(),
{
}

/// Counter: an accepted submission adds exactly its own key and raises the
/// counter by one; an accepted update adds no key and keeps the counter.
pub proof fn lemma_accepted_calls_and_the_counter(
    s: LedgerState,
    call: Invocation,
    submitter: Identity,
    video_hash: [u8; 32],
    is_ai_generated: bool,
    confidence_score: u32,
)
    requires
        s.wf(),
    ensures
        ({
            let created = s.submit(&call, submitter, video_hash, is_ai_generated, confidence_score);
            let revised = s.update(&call, submitter, video_hash, confidence_score);
            let key = DataKey::Verification(video_hash, submitter);
            &&& s.accepts_submission(&call, submitter, video_hash, confidence_score) ==> {
                &&& !s.records.contains_key(key)
                &&& created.records.dom() == s.records.dom().insert(key)
                &&& created.count == s.count + 1
            }
            &&& s.update_rejection(&call, submitter, video_hash, confidence_score) is None ==> {
                &&& revised.records.dom() == s.records.dom()
                &&& revised.count == s.count
            }
        }),
{
}

/// Failures change nothing: a submission or an update that is not accepted,
/// for whatever reason, leaves the ledger, and so the counter and every
/// read, as it was.
pub proof fn lemma_rejected_calls_change_nothing(
    s: LedgerState,
    call: Invocation,
    submitter: Identity,
    video_hash: [u8; 32],
    is_ai_generated: bool,
    confidence_score: u32,
)
    ensures
        s.submit_outcome(&call, submitter, video_hash, confidence_score) is Err ==> s.submit(
            &call,
            submitter,
            video_hash,
            is_ai_generated,
            confidence_score,
        ) == s,
        !s.accepts_submission(&call, submitter, video_hash, confidence_score) ==> s.submit(
            &call,
            submitter,
            video_hash,
            is_ai_generated,
            confidence_score,
        ) == s,
        s.update_outcome(&call, submitter, video_hash, confidence_score) is Err ==> s.update(
            &call,
            submitter,
            video_hash,
            confidence_score,
        ) == s,
{
}

/// Retention: an accepted submission extends the retention of the new
/// record and of the counter to the configured horizon, an accepted update
/// that of the revised record; the retention of every other entry stays as
/// it was.
pub proof fn lemma_writes_extend_retention(
    s: LedgerState,
    call: Invocation,
    submitter: Identity,
    video_hash: [u8; 32],
    is_ai_generated: bool,
    confidence_score: u32,
)
    ensures
        ({
            let created = s.submit(&call, submitter, video_hash, is_ai_generated, confidence_score);
            let revised = s.update(&call, submitter, video_hash, confidence_score);
            let key = DataKey::Verification(video_hash, submitter);
            &&& s.accepts_submission(&call, submitter, video_hash, confidence_score) ==> {
                &&& created.retention.contains_key(key)
                &&& created.retention[key] == RETENTION_LEDGERS
                &&& created.retention.contains_key(DataKey::VerificationCount)
                &&& created.retention[DataKey::VerificationCount] == RETENTION_LEDGERS
                &&& forall|k: DataKey|
                    k != key && k != DataKey::VerificationCount ==> (
                    #[trigger] created.retention.contains_key(k) <==> s.retention.contains_key(k))
                        && created.retention[k] == s.retention[k]
            }
            &&& s.update_rejection(&call, submitter, video_hash, confidence_score) is None ==> {
                &&& revised.retention.contains_key(key)
                &&& revised.retention[key] == RETENTION_LEDGERS
                &&& forall|k: DataKey|
                    k != key ==> (#[trigger] revised.retention.contains_key(k)
                        <==> s.retention.contains_key(k)) && revised.retention[k] == s.retention[k]
            }
        }),
{
}

/// Authorization: a submission or an update whose signer is not the
/// submitter it names fails with `Unauthorized`, whatever else it carries,
/// and changes nothing.
pub proof fn lemma_unauthorized_rejected(
    s: LedgerState,
    call: Invocation,
    submitter: Identity,
    video_hash: [u8; 32],
    is_ai_generated: bool,
    score: u32,
)
    requires
        call.signer != submitter,
    ensures
        s.submit_outcome(&call, submitter, video_hash, score) == Err::<u32, Error>(
            Error::Unauthorized,
        ),
        s.submit(&call, submitter, video_hash, is_ai_generated, score) == s,
        s.update_outcome(&call, submitter, video_hash, score) == Err::<(), Error>(
            Error::Unauthorized,
        ),
        s.update(&call, submitter, video_hash, score) == s,
{
}

/// Updates: an accepted update changes the confidence and the timestamp of
/// the addressed record and nothing else. The record keeps its identifier,
/// hash, submitter and verdict; every other key reads as before; no key is
/// added or removed; the counter stays.
pub proof fn lemma_update_changes_confidence_and_time_only(
    s: LedgerState,
    call: Invocation,
    submitter: Identity,
    video_hash: [u8; 32],
    new_confidence: u32,
)
    requires
        s.wf(),
        s.update_rejection(&call, submitter, video_hash, new_confidence) is None,
    ensures
        ({
            let next = s.update(&call, submitter, video_hash, new_confidence);
            let before = s.get(video_hash, submitter);
            let after = next.get(video_hash, submitter);
            &&& before is Some
            &&& after is Some
            &&& after->0.record_id == before->0.record_id
            &&& after->0.video_hash == video_hash
            &&& after->0.video_hash == before->0.video_hash
            &&& after->0.submitter == submitter
            &&& after->0.submitter == before->0.submitter
            &&& after->0.is_ai_generated == before->0.is_ai_generated
            &&& after->0.confidence_score == new_confidence
            &&& after->0.timestamp == call.timestamp
            &&& next.count == s.count
            &&& next.records.dom() == s.records.dom()
            &&& forall|h: [u8; 32], who: Identity|
                h != video_hash || who != submitter ==> #[trigger] next.get(h, who) == s.get(h, who)
        }),
{
}

} // verus!
