use video_verification::{Error, Identity, Invocation, VideoVerificationContract};

fn account(seed: u8) -> Identity {
    Identity::Account([seed; 32])
}

fn signed_by(signer: Identity) -> Invocation {
    Invocation { signer, timestamp: 0 }
}

#[test]
fn test_submit_and_retrieve_verification() {
    let mut contract = VideoVerificationContract::new();

    let submitter = account(0xA1);
    let video_hash = [1u8; 32];
    let is_ai_generated = true;
    let confidence_score = 85;

    let call = signed_by(submitter);

    let result = contract.submit_verification(
        &call,
        submitter,
        video_hash,
        is_ai_generated,
        confidence_score,
    );
    assert!(result.is_ok());

    let record = contract.get_verification(video_hash, submitter);
    assert!(record.is_some());

    let record = record.unwrap();
    assert_eq!(record.submitter, submitter);
    assert_eq!(record.is_ai_generated, is_ai_generated);
    assert_eq!(record.confidence_score, confidence_score);

    let count = contract.get_verification_count();
    assert_eq!(count, 1);
}

#[test]
fn test_duplicate_verification_fails() {
    let mut contract = VideoVerificationContract::new();

    let submitter = account(0xA2);
    let video_hash = [2u8; 32];

    let call = signed_by(submitter);

    let result = contract.submit_verification(&call, submitter, video_hash, false, 90);
    assert!(result.is_ok());

    let result = contract.submit_verification(&call, submitter, video_hash, true, 95);
    assert_eq!(result, Err(Error::DuplicateVerification));
}

#[test]
fn test_invalid_confidence_score() {
    let mut contract = VideoVerificationContract::new();

    let submitter = account(0xA3);
    let video_hash = [3u8; 32];

    let call = signed_by(submitter);

    let result = contract.submit_verification(&call, submitter, video_hash, true, 150);
    assert_eq!(result, Err(Error::InvalidConfidence));
}

#[test]
fn test_update_verification() {
    let mut contract = VideoVerificationContract::new();

    let submitter = account(0xA4);
    let video_hash = [4u8; 32];

    let call = signed_by(submitter);

    contract.submit_verification(&call, submitter, video_hash, true, 75).unwrap();

    let result = contract.update_verification(&call, submitter, video_hash, 90);
    assert!(result.is_ok());

    let record = contract.get_verification(video_hash, submitter).unwrap();
    assert_eq!(record.confidence_score, 90);
}

#[test]
fn test_update_nonexistent_verification() {
    let mut contract = VideoVerificationContract::new();

    let submitter = account(0xA5);
    let video_hash = [5u8; 32];

    let call = signed_by(submitter);

    let result = contract.update_verification(&call, submitter, video_hash, 80);
    assert_eq!(result, Err(Error::NotFound));
}

#[test]
fn test_different_submitters_same_hash() {
    let mut contract = VideoVerificationContract::new();

    let submitter1 = account(0xA6);
    let submitter2 = account(0xB6);
    let video_hash = [6u8; 32];

    let result1 =
        contract.submit_verification(&signed_by(submitter1), submitter1, video_hash, true, 80);
    let result2 =
        contract.submit_verification(&signed_by(submitter2), submitter2, video_hash, false, 90);

    assert!(result1.is_ok());
    assert!(result2.is_ok());

    let record1 = contract.get_verification(video_hash, submitter1).unwrap();
    let record2 = contract.get_verification(video_hash, submitter2).unwrap();

    assert_eq!(record1.is_ai_generated, true);
    assert_eq!(record2.is_ai_generated, false);
    assert_eq!(record1.confidence_score, 80);
    assert_eq!(record2.confidence_score, 90);

    let count = contract.get_verification_count();
    assert_eq!(count, 2);
}

#[test]
fn test_get_verification_returns_none_for_nonexistent() {
    let contract = VideoVerificationContract::new();

    let submitter = account(0xA7);
    let video_hash = [99u8; 32];

    let result = contract.get_verification(video_hash, submitter);
    assert!(result.is_none());

    assert_eq!(contract.get_verification_count(), 0);
}

#[test]
fn test_confidence_boundary_values() {
    let mut contract = VideoVerificationContract::new();

    let submitter = account(0xA8);
    let call = signed_by(submitter);

    let hash_0 = [10u8; 32];
    let result = contract.submit_verification(&call, submitter, hash_0, false, 0);
    assert!(result.is_ok());

    let hash_100 = [11u8; 32];
    let result = contract.submit_verification(&call, submitter, hash_100, true, 100);
    assert!(result.is_ok());

    let hash_101 = [12u8; 32];
    let result = contract.submit_verification(&call, submitter, hash_101, true, 101);
    assert_eq!(result, Err(Error::InvalidConfidence));
}

#[test]
fn test_verification_count_increments_correctly() {
    let mut contract = VideoVerificationContract::new();

    let submitter = account(0xA9);
    let call = signed_by(submitter);

    assert_eq!(contract.get_verification_count(), 0);

    for i in 0u8..3 {
        let hash = [20 + i; 32];
        contract.submit_verification(&call, submitter, hash, true, 50).unwrap();
        assert_eq!(contract.get_verification_count(), (i as u32) + 1);
    }

    let dup_hash = [20u8; 32];
    let _ = contract.submit_verification(&call, submitter, dup_hash, true, 50);
    assert_eq!(contract.get_verification_count(), 3);
}
