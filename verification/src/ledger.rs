//! The ledger kept in memory.

use vstd::prelude::*;
use crate::error::Error;
use crate::identity::Identity;
use crate::record::{DataKey, VerificationRecord, MAX_CONFIDENCE};
use crate::rules::{
    listed_records, plan_submission, plan_update, try_plan_submission, Invocation,
    RETENTION_LEDGERS,
};
use crate::state::LedgerState;

verus! {

/// The map that a creation log stands for: each record at its own key.
spec fn log_map(log: Seq<VerificationRecord>) -> Map<DataKey, VerificationRecord>
    decreases log.len(),
{
    if log.len() == 0 {
        Map::empty()
    } else {
        log_map(log.drop_last()).insert(log.last().spec_key(), log.last())
    }
}

/// A creation log holds the records in the order of their creation: the
/// record at position `i` has identifier `i + 1`, scores are at most 100, and
/// no key occurs twice.
spec fn log_wf(log: Seq<VerificationRecord>) -> bool {
    &&& log.len() <= u32::MAX
    &&& forall|i: int|
        0 <= i < log.len() ==> {
            &&& (#[trigger] log[i]).record_id == i + 1
            &&& log[i].confidence_score <= MAX_CONFIDENCE
        }
    &&& forall|i: int, j: int|
        0 <= i < j < log.len() ==> (#[trigger] log[i]).spec_key() != (#[trigger] log[j]).spec_key()
}

/// The ledger state that a creation log stands for. Every entry of the log,
/// and the counter once the log is not empty, was last written with the
/// configured retention.
spec fn log_state(log: Seq<VerificationRecord>) -> LedgerState {
    LedgerState {
        records: log_map(log),
        count: log.len(),
        retention: Map::new(
            |k: DataKey| log_map(log).contains_key(k) || (k == DataKey::VerificationCount && log.len() > 0),
            |k: DataKey| RETENTION_LEDGERS,
        ),
    }
}

/// The map of a well-formed log holds exactly the keys of the log's records,
/// each with its record, and as many keys as the log has records.
proof fn lemma_log_map(log: Seq<VerificationRecord>)
    requires
        log_wf(log),
    ensures
        log_map(log).dom().finite(),
        log_map(log).dom().len() == log.len(),
        forall|k: DataKey| #[trigger]
            log_map(log).contains_key(k) <==> exists|i: int|
                0 <= i < log.len() && (#[trigger] log[i]).spec_key() == k,
        forall|i: int|
            0 <= i < log.len() ==> log_map(log).contains_key((#[trigger] log[i]).spec_key())
                && log_map(log)[log[i].spec_key()] == log[i],
    decreases log.len(),
{
    if log.len() > 0 {
        let front = log.drop_last();
        let last = log.last();
        assert(log_wf(front)) by {
            assert forall|i: int| 0 <= i < front.len() implies {
                &&& (#[trigger] front[i]).record_id == i + 1
                &&& front[i].confidence_score <= MAX_CONFIDENCE
            } by {
                assert(front[i] == log[i]);
            }
            assert forall|i: int, j: int| 0 <= i < j < front.len() implies (#[trigger] front[i]).spec_key()
                != (#[trigger] front[j]).spec_key() by {
                assert(front[i] == log[i]);
                assert(front[j] == log[j]);
            }
        }
        lemma_log_map(front);
        assert(!log_map(front).contains_key(last.spec_key())) by {
            if log_map(front).contains_key(last.spec_key()) {
                let i = choose|i: int| 0 <= i < front.len() && (#[trigger] front[i]).spec_key() == last.spec_key();
                assert(front[i] == log[i]);
                assert(log[log.len() - 1] == last);
            }
        }
        assert forall|k: DataKey| #[trigger]
            log_map(log).contains_key(k) <==> exists|i: int|
                0 <= i < log.len() && (#[trigger] log[i]).spec_key() == k by {
            if log_map(log).contains_key(k) {
                if k == last.spec_key() {
                    assert(log[log.len() - 1].spec_key() == k);
                } else {
                    assert(log_map(front).contains_key(k));
                    let i = choose|i: int| 0 <= i < front.len() && (#[trigger] front[i]).spec_key() == k;
                    assert(log[i].spec_key() == k);
                }
            }
            if exists|i: int| 0 <= i < log.len() && (#[trigger] log[i]).spec_key() == k {
                let i = choose|i: int| 0 <= i < log.len() && (#[trigger] log[i]).spec_key() == k;
                if i < front.len() {
                    assert(front[i].spec_key() == k);
                    assert(log_map(front).contains_key(k));
                }
            }
        }
        assert forall|i: int| 0 <= i < log.len() implies log_map(log).contains_key(
            (#[trigger] log[i]).spec_key(),
        ) && log_map(log)[log[i].spec_key()] == log[i] by {
            if i < front.len() {
                assert(front[i] == log[i]);
                assert(log[i].spec_key() != log[log.len() - 1].spec_key());
            }
        }
    }
}

/// The state of a well-formed log is a well-formed ledger state.
proof fn lemma_log_state_wf(log: Seq<VerificationRecord>)
    requires
        log_wf(log),
    ensures
        log_state(log).wf(),
{
    lemma_log_map(log);
    let s = log_state(log);
    assert forall|k: DataKey| #[trigger] s.records.contains_key(k) implies {
        &&& s.records[k].spec_key() == k
        &&& s.records[k].confidence_score <= MAX_CONFIDENCE
        &&& 1 <= s.records[k].record_id <= s.count
    } by {
        let i = choose|i: int| 0 <= i < log.len() && (#[trigger] log[i]).spec_key() == k;
        assert(s.records[log[i].spec_key()] == log[i]);
    }
    assert forall|j: DataKey, k: DataKey|
        #![trigger s.records[j], s.records[k]]
        s.records.contains_key(j) && s.records.contains_key(k) && s.records[j].record_id
            == s.records[k].record_id implies j == k by {
        let a = choose|i: int| 0 <= i < log.len() && (#[trigger] log[i]).spec_key() == j;
        let b = choose|i: int| 0 <= i < log.len() && (#[trigger] log[i]).spec_key() == k;
        assert(s.records[log[a].spec_key()] == log[a]);
        assert(s.records[log[b].spec_key()] == log[b]);
        assert(a == b);
    }
    assert forall|k: DataKey| #[trigger] s.retention.contains_key(k) <==> s.has_entry(k) by {}
}

/// Appending a record stores it at its key, counts it, and extends the
/// retention of its entry and of the counter.
proof fn lemma_log_push(log: Seq<VerificationRecord>, record: VerificationRecord)
    ensures
        log_map(log.push(record)) == log_map(log).insert(record.spec_key(), record),
        log_state(log.push(record)) == (LedgerState {
            records: log_map(log).insert(record.spec_key(), record),
            count: log.len() + 1,
            retention: log_state(log).retention.insert(record.spec_key(), RETENTION_LEDGERS).insert(
                DataKey::VerificationCount,
                RETENTION_LEDGERS,
            ),
        }),
{
    assert(log.push(record).drop_last() =~= log);
    assert(log.push(record).last() == record);
    assert(log_state(log.push(record)).retention =~= log_state(log).retention.insert(
        record.spec_key(),
        RETENTION_LEDGERS,
    ).insert(DataKey::VerificationCount, RETENTION_LEDGERS));
}

/// Replacing a record by one with the same key rewrites the entry at that
/// key and no other.
proof fn lemma_log_update(log: Seq<VerificationRecord>, at: int, record: VerificationRecord)
    requires
        log_wf(log),
        0 <= at < log.len(),
        record.spec_key() == log[at].spec_key(),
        record.record_id == log[at].record_id,
        record.confidence_score <= MAX_CONFIDENCE,
    ensures
        log_wf(log.update(at, record)),
        log_map(log.update(at, record)) == log_map(log).insert(record.spec_key(), record),
        log_state(log.update(at, record)) == (LedgerState {
            records: log_map(log).insert(record.spec_key(), record),
            count: log.len(),
            retention: log_state(log).retention.insert(record.spec_key(), RETENTION_LEDGERS),
        }),
{
    let next = log.update(at, record);
    assert(log_wf(next)) by {
        assert forall|i: int, j: int| 0 <= i < j < next.len() implies (#[trigger] next[i]).spec_key()
            != (#[trigger] next[j]).spec_key() by {
            assert(next[i].spec_key() == log[i].spec_key());
            assert(next[j].spec_key() == log[j].spec_key());
        }
    }
    lemma_log_map(log);
    lemma_log_map(next);
    let lhs = log_map(next);
    let rhs = log_map(log).insert(record.spec_key(), record);
    assert forall|k: DataKey| lhs.contains_key(k) <==> rhs.contains_key(k) by {
        if lhs.contains_key(k) {
            let i = choose|i: int| 0 <= i < next.len() && (#[trigger] next[i]).spec_key() == k;
            assert(log[i].spec_key() == k);
        }
        if rhs.contains_key(k) {
            if k == record.spec_key() {
                assert(next[at].spec_key() == k);
            } else {
                let i = choose|i: int| 0 <= i < log.len() && (#[trigger] log[i]).spec_key() == k;
                assert(next[i].spec_key() == k);
            }
        }
    }
    assert forall|k: DataKey| lhs.contains_key(k) implies lhs[k] == rhs[k] by {
        let i = choose|i: int| 0 <= i < next.len() && (#[trigger] next[i]).spec_key() == k;
        assert(lhs[next[i].spec_key()] == next[i]);
        if i != at {
            assert(next[i] == log[i]);
            assert(log_map(log)[log[i].spec_key()] == log[i]);
            if i < at {
                assert(log[i].spec_key() != log[at].spec_key());
            } else {
                assert(log[at].spec_key() != log[i].spec_key());
            }
        }
    }
    assert(lhs =~= rhs);
    assert(log_state(next).retention =~= log_state(log).retention.insert(
        record.spec_key(),
        RETENTION_LEDGERS,
    ));
}

/// A ledger of attestations, held in memory.
///
/// The ledger is driven by discrete calls. A mutating call either performs
/// all of its writes or, when it is rejected, none of them.
pub struct VideoVerificationContract {
    records: Vec<VerificationRecord>,
}

impl View for VideoVerificationContract {
    type V = LedgerState;

    closed spec fn view(&self) -> LedgerState {
        log_state(self.records@)
    }
}

impl VideoVerificationContract {
    #[verifier::type_invariant]
    spec fn inv(self) -> bool {
        log_wf(self.records@)
    }

    /// Creates a ledger with no attestations.
    pub fn new() -> (ledger: Self)
        ensures
            ledger@ == LedgerState::empty(),
            ledger@.wf(),
    {
        let ledger = VideoVerificationContract { records: Vec::new() };
        proof {
            lemma_log_state_wf(ledger.records@);
            assert(ledger@.retention =~= Map::empty());
        }
        ledger
    }

    /// Finds the position in the creation log of the record for `video_hash`
    /// and `submitter`.
    fn find(&self, video_hash: &[u8; 32], submitter: &Identity) -> (at: Option<usize>)
        ensures
            match at {
                Some(i) => i < self.records@.len() && self.records@[i as int].spec_key()
                    == DataKey::Verification(*video_hash, *submitter),
                None => forall|i: int|
                    0 <= i < self.records@.len() ==> (#[trigger] self.records@[i]).spec_key()
                        != DataKey::Verification(*video_hash, *submitter),
            },
    {
        let mut i: usize = 0;
        while i < self.records.len()
            invariant
                0 <= i <= self.records@.len(),
                forall|j: int|
                    0 <= j < i ==> (#[trigger] self.records@[j]).spec_key() != DataKey::Verification(
                        *video_hash,
                        *submitter,
                    ),
            decreases self.records@.len() - i,
        {
            if self.records[i].attests(video_hash, submitter) {
                return Some(i);
            }
            i += 1;
        }
        None
    }

    /// Appends `record` to the creation log.
    fn append(&mut self, record: VerificationRecord)
        requires
            log_wf(old(self).records@.push(record)),
        ensures
            final(self).records@ == old(self).records@.push(record),
    {
        let mut log: Vec<VerificationRecord> = Vec::new();
        std::mem::swap(&mut self.records, &mut log);
        log.push(record);
        self.records = log;
    }

    /// Puts `record` in place of the record at position `at` of the creation
    /// log.
    fn replace(&mut self, at: usize, record: VerificationRecord)
        requires
            at < old(self).records@.len(),
            log_wf(old(self).records@.update(at as int, record)),
        ensures
            final(self).records@ == old(self).records@.update(at as int, record),
    {
        let mut log: Vec<VerificationRecord> = Vec::new();
        std::mem::swap(&mut self.records, &mut log);
        log.set(at, record);
        self.records = log;
    }

    /// Records a new attestation of `video_hash` by `submitter` and returns
    /// its identifier.
    ///
    /// The call is rejected, and the ledger left unchanged, with
    /// `Unauthorized` when the call is not signed by `submitter`, else with
    /// `InvalidConfidence` when `confidence_score` exceeds 100, else with
    /// `DuplicateVerification` when `submitter` has already attested
    /// `video_hash`. Identifiers are never reused: a submission that would be
    /// accepted must not arrive once `u32::MAX` attestations exist.
    /// [`VideoVerificationContract::try_submit_verification`] serves callers
    /// that cannot rule this out.
    pub fn submit_verification(
        &mut self,
        call: &Invocation,
        submitter: Identity,
        video_hash: [u8; 32],
        is_ai_generated: bool,
        confidence_score: u32,
    ) -> (outcome: Result<u32, Error>)
        requires
            old(self)@.submit_rejection(call, submitter, video_hash, confidence_score) is None
                ==> old(self)@.count < u32::MAX,
        ensures
            outcome == old(self)@.submit_outcome(call, submitter, video_hash, confidence_score),
            final(self)@ == old(self)@.submit(
                call,
                submitter,
                video_hash,
                is_ai_generated,
                confidence_score,
            ),
            final(self)@.wf(),
    {
        proof {
            use_type_invariant(&*self);
            lemma_log_map(self.records@);
            lemma_log_state_wf(self.records@);
        }
        let occupied = self.find(&video_hash, &submitter).is_some();
        let count: u32 = self.records.len() as u32;
        match plan_submission(
            call,
            submitter,
            video_hash,
            is_ai_generated,
            confidence_score,
            occupied,
            count,
        ) {
            Err(e) => Err(e),
            Ok(plan) => {
                proof {
                    lemma_log_push(self.records@, plan.record);
                    lemma_log_state_wf(self.records@.push(plan.record));
                }
                self.append(plan.record);
                Ok(plan.record.record_id)
            },
        }
    }

    /// Records a new attestation as
    /// [`VideoVerificationContract::submit_verification`] does, for a ledger
    /// of any size.
    ///
    /// Returns `None`, and leaves the ledger unchanged, exactly when the
    /// submission passes every check but `u32::MAX` attestations exist
    /// already, so that no identifier is left for it.
    pub fn try_submit_verification(
        &mut self,
        call: &Invocation,
        submitter: Identity,
        video_hash: [u8; 32],
        is_ai_generated: bool,
        confidence_score: u32,
    ) -> (outcome: Option<Result<u32, Error>>)
        ensures
            outcome is None <==> old(self)@.submit_rejection(
                call,
                submitter,
                video_hash,
                confidence_score,
            ) is None && old(self)@.count == u32::MAX,
            outcome is Some ==> outcome->0 == old(self)@.submit_outcome(
                call,
                submitter,
                video_hash,
                confidence_score,
            ),
            final(self)@ == old(self)@.submit(
                call,
                submitter,
                video_hash,
                is_ai_generated,
                confidence_score,
            ),
            final(self)@.wf(),
    {
        proof {
            use_type_invariant(&*self);
            lemma_log_map(self.records@);
            lemma_log_state_wf(self.records@);
        }
        let occupied = self.find(&video_hash, &submitter).is_some();
        let count: u32 = self.records.len() as u32;
        match try_plan_submission(
            call,
            submitter,
            video_hash,
            is_ai_generated,
            confidence_score,
            occupied,
            count,
        ) {
            None => None,
            Some(Err(e)) => Some(Err(e)),
            Some(Ok(plan)) => {
                proof {
                    lemma_log_push(self.records@, plan.record);
                    lemma_log_state_wf(self.records@.push(plan.record));
                }
                self.append(plan.record);
                Some(Ok(plan.record.record_id))
            },
        }
    }

    /// Returns the attestation of `video_hash` by `submitter`, if there is
    /// one. Reading changes nothing.
    pub fn get_verification(&self, video_hash: [u8; 32], submitter: Identity) -> (record: Option<
        VerificationRecord,
    >)
        ensures
            record == self@.get(video_hash, submitter),
            self@.wf(),
    {
        proof {
            use_type_invariant(self);
            lemma_log_map(self.records@);
            lemma_log_state_wf(self.records@);
        }
        match self.find(&video_hash, &submitter) {
            Some(i) => Some(self.records[i]),
            None => None,
        }
    }

    /// Returns the number of attestations created so far: zero until the
    /// first submission is accepted.
    pub fn get_verification_count(&self) -> (count: u32)
        ensures
            count == self@.count,
            self@.wf(),
    {
        proof {
            use_type_invariant(self);
            lemma_log_state_wf(self.records@);
        }
        self.records.len() as u32
    }

    /// Lists the attestations of `submitter`, `limit` at most, from position
    /// `start`. The ledger keeps no index by submitter, so the list is always
    /// empty.
    pub fn get_verifications_by_submitter(&self, submitter: Identity, start: u32, limit: u32) -> (page:
        Vec<VerificationRecord>)
        ensures
            page@ == self@.listing(submitter, start, limit),
            page@.len() == 0,
    {
        listed_records(&submitter, start, limit)
    }

    /// Revises the confidence of the attestation of `video_hash` by
    /// `submitter`, and stamps it with the time of the call. Nothing else
    /// changes.
    ///
    /// The call is rejected, and the ledger left unchanged, with
    /// `Unauthorized` when the call is not signed by `submitter`, else with
    /// `InvalidConfidence` when `new_confidence` exceeds 100, else with
    /// `NotFound` when `submitter` has not attested `video_hash`.
    pub fn update_verification(
        &mut self,
        call: &Invocation,
        submitter: Identity,
        video_hash: [u8; 32],
        new_confidence: u32,
    ) -> (outcome: Result<(), Error>)
        ensures
            outcome == old(self)@.update_outcome(call, submitter, video_hash, new_confidence),
            final(self)@ == old(self)@.update(call, submitter, video_hash, new_confidence),
            final(self)@.wf(),
    {
        proof {
            use_type_invariant(&*self);
            lemma_log_map(self.records@);
            lemma_log_state_wf(self.records@);
        }
        let at = self.find(&video_hash, &submitter);
        let existing = match at {
            Some(i) => Some(self.records[i]),
            None => None,
        };
        match plan_update(call, submitter, video_hash, new_confidence, existing) {
            Err(e) => Err(e),
            Ok(plan) => {
                let i: usize = at.unwrap();
                proof {
                    lemma_log_update(self.records@, i as int, plan.record);
                    lemma_log_state_wf(self.records@.update(i as int, plan.record));
                }
                self.replace(i, plan.record);
                Ok(())
            },
        }
    }
}

} // verus!
