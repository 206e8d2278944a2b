//! Histories: the ledger as the result of every call made so far.

use vstd::prelude::*;
use crate::identity::Identity;
use crate::laws::{lemma_submit_preserves_wf, lemma_update_preserves_wf};
use crate::record::DataKey;
use crate::rules::Invocation;
use crate::state::LedgerState;

verus! {

/// One mutating call with its inputs.
#[derive(Copy, Clone, Debug, PartialEq, Eq)]
pub enum Call {
    /// A submission of a new attestation.
    Submit {
        /// The context of the call.
        call: Invocation,
        /// The identity that the attestation is submitted for.
        submitter: Identity,
        /// The attested video hash.
        video_hash: [u8; 32],
        /// The verdict.
        is_ai_generated: bool,
        /// The confidence of the verdict.
        confidence_score: u32,
    },
    /// An update of an attestation's confidence.
    Update {
        /// The context of the call.
        call: Invocation,
        /// The identity whose attestation is addressed.
        submitter: Identity,
        /// The attested video hash.
        video_hash: [u8; 32],
        /// The new confidence.
        new_confidence: u32,
    },
}

impl LedgerState {
    /// The state after `c`.
    pub open spec fn apply(self, c: Call) -> LedgerState {
        match c {
            Call::Submit { call, submitter, video_hash, is_ai_generated, confidence_score } => self.submit(
                &call,
                submitter,
                video_hash,
                is_ai_generated,
                confidence_score,
            ),
            Call::Update { call, submitter, video_hash, new_confidence } => self.update(
                &call,
                submitter,
                video_hash,
                new_confidence,
            ),
        }
    }

    /// The key that `c` creates in this state: that of its hash and
    /// submitter when `c` is a submission that this state accepts, and none
    /// when `c` is not accepted or is an update.
    pub open spec fn created_by(self, c: Call) -> Option<DataKey> {
        match c {
            Call::Submit { call, submitter, video_hash, is_ai_generated, confidence_score } => {
                if self.accepts_submission(&call, submitter, video_hash, confidence_score) {
                    Some(DataKey::Verification(video_hash, submitter))
                } else {
                    None
                }
            },
            Call::Update { .. } => None,
        }
    }
}

impl Call {
    /// The ledger clock at the time of the call.
    pub open spec fn timestamp(self) -> u64 {
        match self {
            Call::Submit { call, .. } => call.timestamp,
            Call::Update { call, .. } => call.timestamp,
        }
    }
}

/// Whether the ledger clock never ran backwards from one call of `calls` to
/// a later one.
pub open spec fn clock_never_runs_back(calls: Seq<Call>) -> bool {
    forall|i: int, j: int|
        0 <= i <= j < calls.len() ==> (#[trigger] calls[i]).timestamp() <= (#[trigger] calls[j]).timestamp()
}

/// The state that the empty ledger reaches through `calls`, in order.
pub open spec fn replay(calls: Seq<Call>) -> LedgerState
    decreases calls.len(),
{
    if calls.len() == 0 {
        LedgerState::empty()
    } else {
        replay(calls.drop_last()).apply(calls.last())
    }
}

/// The keys for which a submission among `calls` was accepted.
pub open spec fn created_keys(calls: Seq<Call>) -> Set<DataKey>
    decreases calls.len(),
{
    if calls.len() == 0 {
        Set::empty()
    } else {
        let earlier = created_keys(calls.drop_last());
        match replay(calls.drop_last()).created_by(calls.last()) {
            Some(key) => earlier.insert(key),
            None => earlier,
        }
    }
}

/// Whatever calls were made, in whatever order and with whatever outcome,
/// the ledger they lead to is well formed, it holds a record at exactly the
/// keys for which a submission was accepted, and its counter is the number
/// of those keys. Failed calls and updates add nothing to either.
pub proof fn lemma_count_is_number_of_created_keys(calls: Seq<Call>)
    ensures
        replay(calls).wf(),
        replay(calls).records.dom() == created_keys(calls),
        created_keys(calls).finite(),
        replay(calls).count == created_keys(calls).len(),
        replay(calls).count <= calls.len(),
    decreases calls.len(),
{
    if calls.len() == 0 {
        assert(replay(calls).records.dom() =~= created_keys(calls));
    } else {
        let earlier = calls.drop_last();
        let before = replay(earlier);
        let after = replay(calls);
        lemma_count_is_number_of_created_keys(earlier);
        match calls.last() {
            Call::Submit { call, submitter, video_hash, is_ai_generated, confidence_score } => {
                lemma_submit_preserves_wf(
                    before,
                    call,
                    submitter,
                    video_hash,
                    is_ai_generated,
                    confidence_score,
                );
                if before.accepts_submission(&call, submitter, video_hash, confidence_score) {
                    let key = DataKey::Verification(video_hash, submitter);
                    assert(after.records.dom() =~= before.records.dom().insert(key));
                }
            },
            Call::Update { call, submitter, video_hash, new_confidence } => {
                lemma_update_preserves_wf(before, call, submitter, video_hash, new_confidence);
                if before.update_rejection(&call, submitter, video_hash, new_confidence) is None {
                    assert(before.records.contains_key(DataKey::Verification(video_hash, submitter)));
                    assert(after.records.dom() =~= before.records.dom());
                }
            },
        }
    }
}

/// Under a clock that never runs backwards, no stored record carries a
/// timestamp later than the clock of the latest call. A record written by
/// the latest call carries exactly that clock, so its timestamp is at least
/// that of every record written before.
pub proof fn lemma_timestamps_follow_the_clock(calls: Seq<Call>)
    requires
        calls.len() > 0,
        clock_never_runs_back(calls),
    ensures
        forall|k: DataKey| #[trigger]
            replay(calls).records.contains_key(k) ==> replay(calls).records[k].timestamp
                <= calls.last().timestamp(),
    decreases calls.len(),
{
    let earlier = calls.drop_last();
    let before = replay(earlier);
    let after = replay(calls);
    let now = calls.last().timestamp();
    assert(calls[calls.len() - 1] == calls.last());
    if earlier.len() > 0 {
        assert(clock_never_runs_back(earlier)) by {
            assert forall|i: int, j: int| 0 <= i <= j < earlier.len() implies (#[trigger] earlier[i]).timestamp()
                <= (#[trigger] earlier[j]).timestamp() by {
                assert(earlier[i] == calls[i]);
                assert(earlier[j] == calls[j]);
            }
        }
        lemma_timestamps_follow_the_clock(earlier);
        assert(earlier.last() == calls[calls.len() - 2]);
        assert(earlier.last().timestamp() <= now);
    }
    assert forall|k: DataKey| #[trigger] after.records.contains_key(k) implies after.records[k].timestamp
        <= now by {
        if before.records.contains_key(k) {
            assert(earlier.len() > 0);
            assert(before.records[k].timestamp <= now);
        }
    }
}

} // verus!
