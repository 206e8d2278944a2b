//! Storage keys and attestation records.

use vstd::prelude::*;
use crate::digest::{append_digest, bytes_equal};
use crate::identity::Identity;

verus! {

/// Largest confidence score that a record may carry.
pub const MAX_CONFIDENCE: u32 = 100;

/// Address of an entry in the ledger's key-value namespace.
///
/// Attestations are unique per submitter: the same video hash may be attested
/// by several identities, each under its own key.
#[derive(Copy, Clone, Debug, PartialEq, Eq, Hash)]
pub enum DataKey {
    /// The attestation of a video hash by a submitter.
    Verification([u8; 32], Identity),
    /// The counter of attestations created so far.
    VerificationCount,
}

impl DataKey {
    /// The serialized form of this key. An attestation key is the byte 0,
    /// then the 32 bytes of the hash, then the serialized submitter; the
    /// counter key is the single byte 1.
    pub open spec fn spec_to_bytes(&self) -> Seq<u8> {
        match *self {
            DataKey::Verification(video_hash, submitter) => seq![0u8] + video_hash@
                + submitter.spec_to_bytes(),
            DataKey::VerificationCount => seq![1u8],
        }
    }

    /// Returns the serialized form of this key.
    pub fn to_bytes(&self) -> (bytes: Vec<u8>)
        ensures
            bytes@ == self.spec_to_bytes(),
    {
        let mut bytes: Vec<u8> = Vec::new();
        match self {
            DataKey::Verification(video_hash, submitter) => {
                bytes.push(0);
                append_digest(&mut bytes, video_hash);
                submitter.write_to(&mut bytes);
            },
            DataKey::VerificationCount => {
                bytes.push(1);
            },
        }
        bytes
    }

    /// Keys with the same serialized form are the same key, so distinct
    /// hashes, distinct submitters and the counter never share an entry.
    pub proof fn lemma_to_bytes_injective(a: DataKey, b: DataKey)
        requires
            a.spec_to_bytes() == b.spec_to_bytes(),
        ensures
            a == b,
    {
        let x = a.spec_to_bytes();
        let y = b.spec_to_bytes();
        assert(x.len() == y.len());
        match (a, b) {
            (DataKey::Verification(h1, s1), DataKey::Verification(h2, s2)) => {
                assert forall|i: int| 0 <= i < 32 implies h1[i] == h2[i] by {
                    assert(x[i + 1] == h1@[i]);
                    assert(y[i + 1] == h2@[i]);
                }
                assert(h1 =~= h2);
                assert(s1.spec_to_bytes() =~= x.subrange(33, 66));
                assert(s2.spec_to_bytes() =~= y.subrange(33, 66));
                Identity::lemma_to_bytes_injective(s1, s2);
            },
            (DataKey::VerificationCount, DataKey::VerificationCount) => {},
            _ => {},
        }
    }

    /// Tells whether `self` and `other` address the same entry.
    pub fn same_as(&self, other: &DataKey) -> (same: bool)
        ensures
            same == (*self == *other),
    {
        match (self, other) {
            (DataKey::Verification(h1, s1), DataKey::Verification(h2, s2)) => {
                bytes_equal(h1, h2) && s1.same_as(s2)
            },
            (DataKey::VerificationCount, DataKey::VerificationCount) => true,
            _ => false,
        }
    }
}

/// One attestation: the verdict of an analysis of one video, as submitted by
/// one identity.
#[derive(Copy, Clone, Debug, PartialEq, Eq)]
pub struct VerificationRecord {
    /// Position of this attestation in the order of creation, starting at 1.
    pub record_id: u32,
    /// Digest of the video's content.
    pub video_hash: [u8; 32],
    /// The identity that submitted the attestation.
    pub submitter: Identity,
    /// Whether the analysis judged the video to be AI-generated.
    pub is_ai_generated: bool,
    /// Confidence of the verdict, in percent.
    pub confidence_score: u32,
    /// Ledger time, in seconds, at which the record was last written.
    pub timestamp: u64,
}

impl VerificationRecord {
    /// The key under which this record is stored.
    pub open spec fn spec_key(&self) -> DataKey {
        DataKey::Verification(self.video_hash, self.submitter)
    }

    /// Returns the key under which this record is stored.
    #[verifier::when_used_as_spec(spec_key)]
    pub fn key(&self) -> (key: DataKey)
        ensures
            key == self.spec_key(),
    {
        DataKey::Verification(self.video_hash, self.submitter)
    }

    /// Whether this record attests `video_hash` on behalf of `submitter`.
    pub open spec fn spec_attests(&self, video_hash: &[u8; 32], submitter: &Identity) -> bool {
        self.video_hash == *video_hash && self.submitter == *submitter
    }

    /// Tells whether this record attests `video_hash` on behalf of
    /// `submitter`.
    #[verifier::when_used_as_spec(spec_attests)]
    pub fn attests(&self, video_hash: &[u8; 32], submitter: &Identity) -> (hit: bool)
        ensures
            hit == self.spec_attests(video_hash, submitter),
            hit == (self.spec_key() == DataKey::Verification(*video_hash, *submitter)),
    {
        bytes_equal(&self.video_hash, video_hash) && self.submitter.same_as(submitter)
    }

    /// This record with its confidence and timestamp replaced and every other
    /// field kept.
    pub open spec fn spec_revised(&self, confidence_score: u32, timestamp: u64) -> VerificationRecord {
        VerificationRecord {
            record_id: self.record_id,
            video_hash: self.video_hash,
            submitter: self.submitter,
            is_ai_generated: self.is_ai_generated,
            confidence_score,
            timestamp,
        }
    }

    /// Returns this record with its confidence and timestamp replaced and
    /// every other field kept.
    #[verifier::when_used_as_spec(spec_revised)]
    pub fn revised(&self, confidence_score: u32, timestamp: u64) -> (record: VerificationRecord)
        ensures
            record == self.spec_revised(confidence_score, timestamp),
    {
        VerificationRecord {
            record_id: self.record_id,
            video_hash: self.video_hash,
            submitter: self.submitter,
            is_ai_generated: self.is_ai_generated,
            confidence_score,
            timestamp,
        }
    }
}

} // verus!
