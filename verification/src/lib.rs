//! A ledger of video-authenticity attestations.
//!
//! Each attestation records, for one video hash and one submitter, whether the
//! video was judged AI-generated and with what confidence. A submitter may
//! attest a hash once and may later revise the confidence of their own
//! attestation; a counter numbers the attestations in the order they were
//! created.
//!
//! The crate is laid out in layers:
//!
//! - [`rules`] decides each mutating call from plain values and lists the
//!   writes of an accepted one, for a host that keeps the entries itself;
//! - [`state`] states the ledger as a mathematical state machine built on
//!   those rules, [`laws`] and [`history`] prove what holds of every state
//!   and every sequence of calls;
//! - [`ledger`] is the ledger held in memory, proved to follow the state
//!   machine call by call.

pub mod digest;
pub mod error;
pub mod history;
pub mod identity;
pub mod laws;
pub mod ledger;
pub mod record;
pub mod rules;
pub mod state;

pub use crate::error::Error;
pub use crate::digest::{append_digest, bytes_equal, video_hash_from_slice, DIGEST_LEN};
pub use crate::identity::Identity;
pub use crate::ledger::VideoVerificationContract;
pub use crate::record::{DataKey, VerificationRecord, MAX_CONFIDENCE};
pub use crate::rules::{
    check_call, check_submission, check_update, counter_value, listed_records, next_record_id,
    plan_submission, plan_update, try_plan_submission, valid_confidence, Invocation, Revision,
    Submission, RETENTION_LEDGERS,
};
pub use crate::state::LedgerState;
