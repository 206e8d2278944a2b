//! The ledger as a mathematical state machine.
//!
//! A state is a finite map from keys to records together with the counter of
//! attestations. Each operation of the ledger is a function from a state and
//! the call's inputs to an outcome and a next state.

use vstd::prelude::*;
use crate::error::Error;
use crate::identity::Identity;
use crate::record::{DataKey, VerificationRecord, MAX_CONFIDENCE};
use crate::rules::{
    planned_revision, planned_submission, submission_rejection, update_rejection, Invocation,
    RETENTION_LEDGERS,
};

verus! {

/// The abstract contents of a ledger.
pub struct LedgerState {
    /// The stored attestations, by key.
    pub records: Map<DataKey, VerificationRecord>,
    /// The number of attestations ever created.
    pub count: nat,
    /// For each stored entry, the counter's included, the retention horizon
    /// in ledger ticks that its last write extended it to.
    pub retention: Map<DataKey, u32>,
}

impl LedgerState {
    /// The ledger before any call: no records, counter at zero.
    pub open spec fn empty() -> LedgerState {
        LedgerState { records: Map::empty(), count: 0, retention: Map::empty() }
    }

    /// Whether an entry is stored at `key`: a record, or the counter once the
    /// first attestation has been created.
    pub open spec fn has_entry(self, key: DataKey) -> bool {
        self.records.contains_key(key) || (key == DataKey::VerificationCount && self.count > 0)
    }

    /// What holds of every state that calls can reach from the empty ledger:
    /// the counter is the number of stored records and fits 32 bits; every
    /// record sits at its own key, carries a score of at most 100 and an
    /// identifier between 1 and the counter; no two records share an
    /// identifier; and every stored entry is retained for the configured
    /// horizon.
    pub open spec fn wf(self) -> bool {
        &&& self.records.dom().finite()
        &&& self.records.dom().len() == self.count
        &&& self.count <= u32::MAX
        &&& forall|k: DataKey| #[trigger]
            self.records.contains_key(k) ==> {
                &&& self.records[k].spec_key() == k
                &&& self.records[k].confidence_score <= MAX_CONFIDENCE
                &&& 1 <= self.records[k].record_id <= self.count
            }
        &&& forall|j: DataKey, k: DataKey|
            #![trigger self.records[j], self.records[k]]
            self.records.contains_key(j) && self.records.contains_key(k)
                && self.records[j].record_id == self.records[k].record_id ==> j == k
        &&& forall|k: DataKey| #[trigger] self.retention.contains_key(k) <==> self.has_entry(k)
        &&& forall|k: DataKey| #[trigger]
            self.retention.contains_key(k) ==> self.retention[k] == RETENTION_LEDGERS
    }

    /// Whether a record is stored for `video_hash` and `submitter`.
    pub open spec fn has(self, video_hash: [u8; 32], submitter: Identity) -> bool {
        self.records.contains_key(DataKey::Verification(video_hash, submitter))
    }

    /// The record stored for `video_hash` and `submitter`, if any.
    pub open spec fn get(self, video_hash: [u8; 32], submitter: Identity) -> Option<
        VerificationRecord,
    > {
        if self.has(video_hash, submitter) {
            Some(self.records[DataKey::Verification(video_hash, submitter)])
        } else {
            None
        }
    }

    /// Why a submission to this state is rejected, if it is.
    pub open spec fn submit_rejection(
        self,
        call: &Invocation,
        submitter: Identity,
        video_hash: [u8; 32],
        confidence_score: u32,
    ) -> Option<Error> {
        submission_rejection(call, &submitter, confidence_score, self.has(video_hash, submitter))
    }

    /// Whether this state accepts a submission: no check rejects it, and an
    /// identifier is left for it.
    pub open spec fn accepts_submission(
        self,
        call: &Invocation,
        submitter: Identity,
        video_hash: [u8; 32],
        confidence_score: u32,
    ) -> bool {
        self.submit_rejection(call, submitter, video_hash, confidence_score) is None && self.count
            < u32::MAX
    }

    /// What a submission to this state returns: the new record's identifier,
    /// or the reason for the rejection.
    pub open spec fn submit_outcome(
        self,
        call: &Invocation,
        submitter: Identity,
        video_hash: [u8; 32],
        confidence_score: u32,
    ) -> Result<u32, Error>
        recommends
            self.count < u32::MAX,
    {
        match self.submit_rejection(call, submitter, video_hash, confidence_score) {
            Some(e) => Err(e),
            None => Ok((self.count + 1) as u32),
        }
    }

    /// The state after a submission: with the new record stored, the counter
    /// one higher, and the retention of both entries extended when the
    /// submission is accepted, and unchanged when it is not.
    pub open spec fn submit(
        self,
        call: &Invocation,
        submitter: Identity,
        video_hash: [u8; 32],
        is_ai_generated: bool,
        confidence_score: u32,
    ) -> LedgerState {
        if self.accepts_submission(call, submitter, video_hash, confidence_score) {
            let plan = planned_submission(
                call,
                submitter,
                video_hash,
                is_ai_generated,
                confidence_score,
                self.count as u32,
            );
            LedgerState {
                records: self.records.insert(plan.key, plan.record),
                count: plan.count as nat,
                retention: self.retention.insert(plan.key, plan.ttl_extend_to).insert(
                    DataKey::VerificationCount,
                    plan.ttl_extend_to,
                ),
            }
        } else {
            self
        }
    }

    /// Why an update of this state is rejected, if it is.
    pub open spec fn update_rejection(
        self,
        call: &Invocation,
        submitter: Identity,
        video_hash: [u8; 32],
        new_confidence: u32,
    ) -> Option<Error> {
        update_rejection(call, &submitter, new_confidence, self.has(video_hash, submitter))
    }

    /// What an update of this state returns.
    pub open spec fn update_outcome(
        self,
        call: &Invocation,
        submitter: Identity,
        video_hash: [u8; 32],
        new_confidence: u32,
    ) -> Result<(), Error> {
        match self.update_rejection(call, submitter, video_hash, new_confidence) {
            Some(e) => Err(e),
            None => Ok(()),
        }
    }

    /// The state after an update: unchanged when the update is rejected, else
    /// with the addressed record revised in place and its retention extended.
    pub open spec fn update(
        self,
        call: &Invocation,
        submitter: Identity,
        video_hash: [u8; 32],
        new_confidence: u32,
    ) -> LedgerState {
        match self.update_rejection(call, submitter, video_hash, new_confidence) {
            Some(_) => self,
            None => {
                let plan = planned_revision(
                    call,
                    submitter,
                    video_hash,
                    new_confidence,
                    self.records[DataKey::Verification(video_hash, submitter)],
                );
                LedgerState {
                    records: self.records.insert(plan.key, plan.record),
                    count: self.count,
                    retention: self.retention.insert(plan.key, plan.ttl_extend_to),
                }
            },
        }
    }

    /// The records listed for a submitter. Without an index from submitters
    /// to keys the ledger lists nothing, whatever the page asked for.
    pub open spec fn listing(self, submitter: Identity, start: u32, limit: u32) -> Seq<
        VerificationRecord,
    > {
        Seq::empty()
    }
}

} // verus!
