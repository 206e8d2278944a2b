use video_verification::{
    append_digest, bytes_equal, check_call, check_submission, check_update, counter_value,
    listed_records, next_record_id, plan_submission, plan_update, try_plan_submission,
    valid_confidence, video_hash_from_slice, DataKey, Error, Identity, Invocation, Revision,
    Submission, VerificationRecord, DIGEST_LEN, MAX_CONFIDENCE, RETENTION_LEDGERS,
};

const HASH: [u8; 32] = [0x5A; 32];

fn alice() -> Identity {
    Identity::Account([0xA1; 32])
}

fn bob() -> Identity {
    Identity::Contract([0xB0; 32])
}

fn at(signer: Identity, timestamp: u64) -> Invocation {
    Invocation { signer, timestamp }
}

#[test]
fn constants_have_their_documented_values() {
    assert_eq!(MAX_CONFIDENCE, 100);
    assert_eq!(RETENTION_LEDGERS, 6_307_200);
    assert_eq!(DIGEST_LEN, 32);
}

#[test]
fn hash_of_wrong_length_is_invalid() {
    assert_eq!(video_hash_from_slice(&[]), Err(Error::InvalidHash));
    assert_eq!(video_hash_from_slice(&[1u8; 31]), Err(Error::InvalidHash));
    assert_eq!(video_hash_from_slice(&[1u8; 33]), Err(Error::InvalidHash));
    assert_eq!(video_hash_from_slice(&[1u8; 64]), Err(Error::InvalidHash));
}

#[test]
fn hash_of_right_length_is_read_byte_for_byte() {
    let bytes: Vec<u8> = (100u8..132).collect();
    let hash = video_hash_from_slice(&bytes).unwrap();
    assert_eq!(&hash[..], &bytes[..]);
    assert_eq!(video_hash_from_slice(&[0u8; 32]), Ok([0u8; 32]));
}

#[test]
fn digest_is_appended_after_what_is_there() {
    let mut out = vec![9u8, 8];
    let mut digest = [0u8; 32];
    digest[0] = 1;
    digest[31] = 2;
    append_digest(&mut out, &digest);
    assert_eq!(out.len(), 34);
    assert_eq!(&out[..2], &[9u8, 8][..]);
    assert_eq!(&out[2..], &digest[..]);
}

#[test]
fn counter_reads_zero_while_nothing_is_stored() {
    assert_eq!(counter_value(None), 0);
    assert_eq!(counter_value(Some(0)), 0);
    assert_eq!(counter_value(Some(17)), 17);
    assert_eq!(counter_value(Some(u32::MAX)), u32::MAX);
}

#[test]
fn listing_rule_lists_nothing() {
    assert!(listed_records(&alice(), 0, 10).is_empty());
    assert!(listed_records(&bob(), 5, u32::MAX).is_empty());
    assert!(listed_records(&alice(), 0, 0).is_empty());
}

#[test]
fn call_checks_need_no_state() {
    assert_eq!(check_call(&at(alice(), 0), &alice(), 0), Ok(()));
    assert_eq!(check_call(&at(alice(), 0), &alice(), 100), Ok(()));
    assert_eq!(check_call(&at(alice(), 0), &alice(), 101), Err(Error::InvalidConfidence));
    assert_eq!(check_call(&at(bob(), 0), &alice(), 50), Err(Error::Unauthorized));
    assert_eq!(check_call(&at(bob(), 0), &alice(), 101), Err(Error::Unauthorized));
}

#[test]
fn error_codes_are_stable() {
    assert_eq!(Error::InvalidConfidence.code(), 1);
    assert_eq!(Error::DuplicateVerification.code(), 2);
    assert_eq!(Error::Unauthorized.code(), 3);
    assert_eq!(Error::NotFound.code(), 4);
    assert_eq!(Error::InvalidHash.code(), 5);
}

#[test]
fn error_codes_decode_to_their_errors() {
    assert_eq!(Error::from_code(0), None);
    assert_eq!(Error::from_code(1), Some(Error::InvalidConfidence));
    assert_eq!(Error::from_code(2), Some(Error::DuplicateVerification));
    assert_eq!(Error::from_code(3), Some(Error::Unauthorized));
    assert_eq!(Error::from_code(4), Some(Error::NotFound));
    assert_eq!(Error::from_code(5), Some(Error::InvalidHash));
    assert_eq!(Error::from_code(6), None);
    assert_eq!(Error::from_code(u32::MAX), None);
}

#[test]
fn error_messages_differ() {
    let all = [
        Error::InvalidConfidence,
        Error::DuplicateVerification,
        Error::Unauthorized,
        Error::NotFound,
        Error::InvalidHash,
    ];
    for (i, a) in all.iter().enumerate() {
        assert!(!a.message().is_empty());
        for b in all.iter().skip(i + 1) {
            assert_ne!(a.message(), b.message());
        }
    }
    assert_eq!(Error::NotFound.message(), "verification record not found");
}

#[test]
fn confidence_bounds() {
    assert!(valid_confidence(0));
    assert!(valid_confidence(100));
    assert!(!valid_confidence(101));
    assert!(!valid_confidence(u32::MAX));
}

#[test]
fn record_identifiers_never_wrap() {
    assert_eq!(next_record_id(0), Some(1));
    assert_eq!(next_record_id(41), Some(42));
    assert_eq!(next_record_id(u32::MAX - 1), Some(u32::MAX));
    assert_eq!(next_record_id(u32::MAX), None);
}

#[test]
fn submission_checks_in_order() {
    assert_eq!(check_submission(&at(alice(), 0), &alice(), 100, false), Ok(()));
    assert_eq!(
        check_submission(&at(bob(), 0), &alice(), 101, true),
        Err(Error::Unauthorized)
    );
    assert_eq!(
        check_submission(&at(alice(), 0), &alice(), 101, true),
        Err(Error::InvalidConfidence)
    );
    assert_eq!(
        check_submission(&at(alice(), 0), &alice(), 100, true),
        Err(Error::DuplicateVerification)
    );
}

#[test]
fn update_checks_in_order() {
    assert_eq!(check_update(&at(alice(), 0), &alice(), 100, true), Ok(()));
    assert_eq!(
        check_update(&at(bob(), 0), &alice(), 101, false),
        Err(Error::Unauthorized)
    );
    assert_eq!(
        check_update(&at(alice(), 0), &alice(), 101, false),
        Err(Error::InvalidConfidence)
    );
    assert_eq!(check_update(&at(alice(), 0), &alice(), 100, false), Err(Error::NotFound));
}

#[test]
fn accepted_submission_lists_its_writes() {
    let plan = plan_submission(&at(alice(), 77), alice(), HASH, true, 85, false, 6);
    assert_eq!(
        plan,
        Ok(Submission {
            key: DataKey::Verification(HASH, alice()),
            record: VerificationRecord {
                record_id: 7,
                video_hash: HASH,
                submitter: alice(),
                is_ai_generated: true,
                confidence_score: 85,
                timestamp: 77,
            },
            count: 7,
            ttl_threshold: 6_307_200,
            ttl_extend_to: 6_307_200,
        })
    );
}

#[test]
fn rejected_submission_lists_no_writes() {
    assert_eq!(
        plan_submission(&at(bob(), 77), alice(), HASH, true, 85, false, 6),
        Err(Error::Unauthorized)
    );
    assert_eq!(
        plan_submission(&at(alice(), 77), alice(), HASH, true, 185, false, 6),
        Err(Error::InvalidConfidence)
    );
    assert_eq!(
        plan_submission(&at(alice(), 77), alice(), HASH, true, 85, true, 6),
        Err(Error::DuplicateVerification)
    );
}

#[test]
fn submission_at_exhausted_counter_is_refused_not_wrapped() {
    assert_eq!(
        try_plan_submission(&at(alice(), 1), alice(), HASH, true, 85, false, u32::MAX),
        None
    );
    assert_eq!(
        try_plan_submission(&at(alice(), 1), alice(), HASH, true, 101, false, u32::MAX),
        Some(Err(Error::InvalidConfidence))
    );
    assert_eq!(
        try_plan_submission(&at(alice(), 1), alice(), HASH, true, 85, true, u32::MAX),
        Some(Err(Error::DuplicateVerification))
    );
    assert_eq!(
        try_plan_submission(&at(bob(), 1), alice(), HASH, true, 85, false, u32::MAX),
        Some(Err(Error::Unauthorized))
    );
    let last = try_plan_submission(&at(alice(), 1), alice(), HASH, true, 85, false, u32::MAX - 1)
        .unwrap()
        .unwrap();
    assert_eq!(last.record.record_id, u32::MAX);
    assert_eq!(last.count, u32::MAX);
}

#[test]
fn try_plan_agrees_with_plan() {
    assert_eq!(
        try_plan_submission(&at(alice(), 9), alice(), HASH, false, 0, false, 0),
        Some(plan_submission(&at(alice(), 9), alice(), HASH, false, 0, false, 0))
    );
    let plan = plan_submission(&at(alice(), 9), alice(), HASH, false, 0, false, 0).unwrap();
    assert_eq!(plan.record.record_id, 1);
    assert_eq!(plan.count, 1);
}

#[test]
fn accepted_update_revises_confidence_and_time_only() {
    let existing = VerificationRecord {
        record_id: 3,
        video_hash: HASH,
        submitter: alice(),
        is_ai_generated: false,
        confidence_score: 80,
        timestamp: 10,
    };
    assert_eq!(
        plan_update(&at(alice(), 99), alice(), HASH, 60, Some(existing)),
        Ok(Revision {
            key: DataKey::Verification(HASH, alice()),
            record: VerificationRecord {
                record_id: 3,
                video_hash: HASH,
                submitter: alice(),
                is_ai_generated: false,
                confidence_score: 60,
                timestamp: 99,
            },
            ttl_threshold: 6_307_200,
            ttl_extend_to: 6_307_200,
        })
    );
}

#[test]
fn rejected_update_lists_no_writes() {
    let existing = VerificationRecord {
        record_id: 3,
        video_hash: HASH,
        submitter: alice(),
        is_ai_generated: false,
        confidence_score: 80,
        timestamp: 10,
    };
    assert_eq!(
        plan_update(&at(bob(), 99), alice(), HASH, 60, Some(existing)),
        Err(Error::Unauthorized)
    );
    assert_eq!(
        plan_update(&at(alice(), 99), alice(), HASH, 160, Some(existing)),
        Err(Error::InvalidConfidence)
    );
    assert_eq!(plan_update(&at(alice(), 99), alice(), HASH, 60, None), Err(Error::NotFound));
}

#[test]
fn record_helpers() {
    let record = VerificationRecord {
        record_id: 3,
        video_hash: HASH,
        submitter: alice(),
        is_ai_generated: false,
        confidence_score: 80,
        timestamp: 10,
    };
    assert_eq!(record.key(), DataKey::Verification(HASH, alice()));
    assert!(record.attests(&HASH, &alice()));
    assert!(!record.attests(&HASH, &bob()));
    assert!(!record.attests(&[0x5B; 32], &alice()));
    let revised = record.revised(81, 11);
    assert_eq!(revised.confidence_score, 81);
    assert_eq!(revised.timestamp, 11);
    assert_eq!(revised.record_id, 3);
    assert_eq!(revised.video_hash, HASH);
    assert_eq!(revised.submitter, alice());
    assert_eq!(revised.is_ai_generated, false);
}

#[test]
fn byte_comparison() {
    let a = [3u8; 32];
    let mut b = [3u8; 32];
    assert!(bytes_equal(&a, &b));
    b[0] = 4;
    assert!(!bytes_equal(&a, &b));
    b[0] = 3;
    b[31] = 4;
    assert!(!bytes_equal(&a, &b));
}

#[test]
fn identity_comparison() {
    assert!(alice().same_as(&alice()));
    assert!(!alice().same_as(&bob()));
    assert!(!Identity::Account([1; 32]).same_as(&Identity::Contract([1; 32])));
    assert!(!Identity::Account([1; 32]).same_as(&Identity::Account([2; 32])));
    assert!(Identity::Contract([9; 32]).same_as(&Identity::Contract([9; 32])));
    assert!(alice().is_account());
    assert!(!bob().is_account());
    assert_eq!(alice().payload(), [0xA1; 32]);
    assert_eq!(bob().payload(), [0xB0; 32]);
}

#[test]
fn key_comparison() {
    let key = DataKey::Verification(HASH, alice());
    assert!(key.same_as(&DataKey::Verification(HASH, alice())));
    assert!(!key.same_as(&DataKey::Verification(HASH, bob())));
    assert!(!key.same_as(&DataKey::Verification([0; 32], alice())));
    assert!(!key.same_as(&DataKey::VerificationCount));
    assert!(DataKey::VerificationCount.same_as(&DataKey::VerificationCount));
}

#[test]
fn identity_bytes_are_tag_then_payload() {
    let mut expected = vec![0u8];
    expected.extend_from_slice(&[0xA1; 32]);
    assert_eq!(alice().to_bytes(), expected);
    let mut expected = vec![1u8];
    expected.extend_from_slice(&[0xB0; 32]);
    assert_eq!(bob().to_bytes(), expected);
}

#[test]
fn key_bytes_are_tag_hash_then_submitter() {
    let mut hash = [0u8; 32];
    for (i, byte) in hash.iter_mut().enumerate() {
        *byte = i as u8;
    }
    let bytes = DataKey::Verification(hash, bob()).to_bytes();
    assert_eq!(bytes.len(), 66);
    assert_eq!(bytes[0], 0);
    assert_eq!(&bytes[1..33], &hash[..]);
    assert_eq!(bytes[33], 1);
    assert_eq!(&bytes[34..66], &[0xB0; 32][..]);
    assert_eq!(DataKey::VerificationCount.to_bytes(), vec![1u8]);
}

#[test]
fn distinct_keys_have_distinct_bytes() {
    let keys = [
        DataKey::Verification(HASH, alice()),
        DataKey::Verification(HASH, bob()),
        DataKey::Verification([0; 32], alice()),
        DataKey::Verification(HASH, Identity::Contract([0xA1; 32])),
        DataKey::VerificationCount,
    ];
    for (i, a) in keys.iter().enumerate() {
        for (j, b) in keys.iter().enumerate() {
            assert_eq!(a.to_bytes() == b.to_bytes(), i == j);
        }
    }
}
