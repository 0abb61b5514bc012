use rc_validator::chain::{Call, ClientBuilder, DEFAULT_URL, TASK_PALLET};
use rc_validator::das::DasError;
use rc_validator::looper::{Looper, Next, METADATA_ID};

#[test]
fn message_is_metadata_then_identifier_then_nonce() {
    let looper = Looper::new();
    assert_eq!(looper.nonce(), 0);
    assert_eq!(METADATA_ID, 1);
    let message = looper.message(1, &vec![0xaa, 0xbb], true);
    assert_eq!(message, vec![1, 0, 0, 0, 8, 0xaa, 0xbb, 1, 1, 0, 0, 0, 0, 0, 0, 0]);
    let other = looper.message(0x0102_0304, &vec![], false);
    assert_eq!(other, vec![4, 3, 2, 1, 0, 0, 1, 0, 0, 0, 0, 0, 0, 0]);
}

#[test]
fn accepted_submission_moves_to_the_next_nonce() {
    let mut looper = Looper::new();
    assert!(matches!(looper.after_submit(true), Next::Proceed(())));
    assert_eq!(looper.nonce(), 1);
    assert!(matches!(looper.after_submit(true), Next::Proceed(())));
    assert_eq!(looper.nonce(), 2);
    let message = looper.message(1, &vec![0xaa], true);
    assert_eq!(message, vec![1, 0, 0, 0, 4, 0xaa, 1, 1, 0, 0, 0, 2, 0, 0, 0]);
}

#[test]
fn rejected_submission_ends_the_loop_and_keeps_the_nonce() {
    let mut looper = Looper::new();
    looper.after_submit(true);
    assert!(matches!(looper.after_submit(false), Next::Stop));
    assert_eq!(looper.nonce(), 1);
}

#[test]
fn answers_lead_on_skip_or_stop() {
    let looper = Looper::new();
    let block: Result<Option<(u32, Vec<u8>)>, DasError> = Ok(Some((3, vec![1])));
    assert!(matches!(looper.after_latest_block(block), Next::Proceed((3, hash)) if hash == vec![1]));
    let none: Result<Option<(u32, Vec<u8>)>, DasError> = Ok(None);
    assert!(matches!(looper.after_latest_block(none), Next::Skip));
    let failed: Result<Option<(u32, Vec<u8>)>, DasError> = Err(DasError::InvalidHash);
    assert!(matches!(looper.after_latest_block(failed), Next::Stop));
    assert!(matches!(looper.after_availability::<DasError>(Ok(Some(false))), Next::Proceed(false)));
    assert!(matches!(looper.after_availability::<DasError>(Ok(None)), Next::Skip));
    assert!(matches!(
        looper.after_availability(Err(DasError::UnexpectedFormat)),
        Next::Stop
    ));
}

#[test]
fn availability_is_asked_by_the_hash_in_lower_case_hex() {
    let looper = Looper::new();
    assert_eq!(looper.availability_query(&vec![0x00, 0xab, 0xCD, 0x9f]), "00abcd9f");
    assert_eq!(looper.availability_query(&vec![]), "");
}

#[test]
fn builder_keeps_url_and_signer() {
    let builder = ClientBuilder::new("ws://node:9944", 7u8);
    assert_eq!(builder.url, "ws://node:9944");
    assert_eq!(builder.signer, 7);
    let moved = builder.set_url("ws://other:9944");
    assert_eq!(moved.url, "ws://other:9944");
    assert_eq!(moved.signer, 7);
    let default = ClientBuilder::with_default_url(9u8);
    assert_eq!(default.url, "ws://127.0.0.1:9944");
    assert_eq!(DEFAULT_URL, "ws://127.0.0.1:9944");
    assert_eq!(default.signer, 9);
}

#[test]
fn calls_carry_their_arguments() {
    assert_eq!(TASK_PALLET, "Task");
    let call = Call::new_key(&[1, 2]);
    assert_eq!(call.name(), "new_key");
    assert!(matches!(call, Call::NewKey { key } if key == vec![1, 2]));
    let call = Call::submit_metadata(&[3], 1, 4, &[5, 6]);
    assert_eq!(call.name(), "new_metadata");
    assert!(matches!(
        call,
        Call::NewMetadata { id: 1, nonce: 4, metadata, signature }
            if metadata == vec![4, 3] && signature == vec![5, 6]
    ));
    let empty = Call::submit_metadata(&[], 1, 0, &[]);
    assert!(matches!(empty, Call::NewMetadata { metadata, .. } if metadata == vec![0]));
    let long = Call::submit_metadata(&[7u8; 64], 1, 0, &[]);
    assert!(matches!(
        long,
        Call::NewMetadata { metadata, .. }
            if metadata.len() == 66 && metadata[..2] == [0x01, 0x01] && metadata[2..] == [7u8; 64]
    ));
    let call = Call::rotate_key(&[7], &[8]);
    assert_eq!(call.name(), "rotate_key");
    assert!(matches!(call, Call::RotateKey { key, signature } if key == vec![7] && signature == vec![8]));
}

#[test]
fn length_of_the_hash_is_written_compactly() {
    let looper = Looper::new();
    let short = looper.message(0, &vec![9u8; 63], false);
    assert_eq!(short.len(), 4 + 1 + 63 + 1 + 8);
    assert_eq!(short[4], 0xfc);
    let two = looper.message(0, &vec![9u8; 64], false);
    assert_eq!(two.len(), 4 + 2 + 64 + 1 + 8);
    assert_eq!(two[4..6], [0x01, 0x01]);
    let widest_two = looper.message(0, &vec![9u8; 16383], false);
    assert_eq!(widest_two[4..6], [0xfd, 0xff]);
    let four = looper.message(0, &vec![9u8; 16384], true);
    assert_eq!(four.len(), 4 + 4 + 16384 + 1 + 8);
    assert_eq!(four[4..8], [0x02, 0x00, 0x01, 0x00]);
    assert_eq!(four[8 + 16384], 1);
}
