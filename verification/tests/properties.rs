//! Behavior of the security block, the password derivation, the unmap
//! chunking, the unlock error classification and the sleep timer.
use sha2::{Digest, Sha256};
use wd_vsc::cipher::Cipher;
use wd_vsc::command::Command;
use wd_vsc::native::{default_salt, DEFAULT_ITERATION_COUNT};
use wd_vsc::password_utility::create_password_blob;
use wd_vsc::result::Error;
use wd_vsc::result_data::ResultData;
use wd_vsc::security_block::{
    build_security_block, parse_security_block, parse_security_block_or_default,
};
use wd_vsc::unlock_encryption::UnlockEncryption;
use wd_vsc::unmap::plan_unmap_chunks;

fn utf16le(s: &str) -> Vec<u8> {
    s.encode_utf16().flat_map(|u| u.to_le_bytes()).collect()
}

#[test]
fn security_block_sums_to_zero() {
    let block = build_security_block(1234, &[9, 8, 7, 6, 5, 4, 3, 2], "hello").unwrap();
    assert_eq!(block.len(), 512);
    let sum = block.iter().fold(0u8, |a, b| a.wrapping_add(*b));
    assert_eq!(sum, 0);
}

#[test]
fn security_block_round_trip() {
    let salt = [1, 0, 2, 0, 3, 0, 4, 0];
    let block = build_security_block(77, &salt, "a hint").unwrap();
    let parsed = parse_security_block(&block).unwrap();
    assert_eq!(parsed.iteration_count, 77);
    assert_eq!(parsed.salt, salt);
    let expected_hint: Vec<u16> = "a hint".encode_utf16().collect();
    assert_eq!(parsed.hint, expected_hint);
}

#[test]
fn security_block_hint_is_trimmed_on_read() {
    let block = build_security_block(1, &[0; 8], "  spaced  ").unwrap();
    let parsed = parse_security_block(&block).unwrap();
    let expected_hint: Vec<u16> = "spaced".encode_utf16().collect();
    assert_eq!(parsed.hint, expected_hint);
}

#[test]
fn security_block_bad_signature_gives_defaults() {
    let mut block = build_security_block(42, &[1; 8], "x").unwrap();
    block[2] = 0xAA;
    assert!(matches!(parse_security_block(&block), Err(Error::InvalidSecurityBlock)));
    let (fallback, from_block) = parse_security_block_or_default(&block);
    assert!(!from_block);
    assert_eq!(fallback.iteration_count, DEFAULT_ITERATION_COUNT);
    assert_eq!(fallback.salt, default_salt());
    assert!(fallback.hint.is_empty());
}

#[test]
fn security_block_bad_checksum_gives_defaults() {
    let mut block = build_security_block(42, &[1; 8], "x").unwrap();
    block[511] = block[511].wrapping_add(1);
    assert!(matches!(parse_security_block(&block), Err(Error::InvalidSecurityBlock)));
    let (fallback, from_block) = parse_security_block_or_default(&block);
    assert!(!from_block);
    assert_eq!(fallback.iteration_count, DEFAULT_ITERATION_COUNT);
    assert_eq!(fallback.salt, default_salt());
    assert!(fallback.hint.is_empty());
}

#[test]
fn security_block_valid_is_used() {
    let block = build_security_block(2000, &[5; 8], "").unwrap();
    let (read, from_block) = parse_security_block_or_default(&block);
    assert!(from_block);
    assert_eq!(read.iteration_count, 2000);
    assert_eq!(read.salt, [5; 8]);
}

#[test]
fn security_block_rejects_oversized_hint() {
    let long_hint: String = std::iter::repeat('h').take(101).collect();
    assert!(matches!(
        build_security_block(1, &[0; 8], &long_hint),
        Err(Error::HintTooLong)
    ));
    let just_fits: String = std::iter::repeat('h').take(100).collect();
    assert!(build_security_block(1, &[0; 8], &just_fits).is_ok());
}

#[test]
fn password_blob_matches_iterated_digest() {
    let salt = [87, 0, 68, 0, 67, 0, 46, 0];
    let blob = create_password_blob(Cipher::Aes256Xts, &salt, 2, "pw").unwrap();
    let mut expected: Vec<u8> = salt.to_vec();
    expected.extend_from_slice(&utf16le("pw"));
    for _ in 0..2 {
        expected = Sha256::digest(&expected).to_vec();
    }
    assert_eq!(blob, expected);
}

#[test]
fn password_blob_is_deterministic() {
    let salt = [1, 2, 3, 4, 5, 6, 7, 8];
    let a = create_password_blob(Cipher::Aes128Ecb, &salt, 1000, "secret").unwrap();
    let b = create_password_blob(Cipher::Aes128Ecb, &salt, 1000, "secret").unwrap();
    assert_eq!(a, b);
}

#[test]
fn password_blob_length_matches_cipher() {
    let salt = [0; 8];
    assert_eq!(create_password_blob(Cipher::Aes128Cbc, &salt, 1, "p").unwrap().len(), 16);
    assert_eq!(create_password_blob(Cipher::Aes256Cbc, &salt, 1, "p").unwrap().len(), 32);
    assert_eq!(create_password_blob(Cipher::Aes256Xts, &salt, 1000, "p").unwrap().len(), 32);
}

#[test]
fn password_blob_depends_on_every_input() {
    let salt = [1, 2, 3, 4, 5, 6, 7, 8];
    let base = create_password_blob(Cipher::Aes256Xts, &salt, 10, "pw").unwrap();
    let other_salt = create_password_blob(Cipher::Aes256Xts, &[9; 8], 10, "pw").unwrap();
    let other_count = create_password_blob(Cipher::Aes256Xts, &salt, 11, "pw").unwrap();
    let other_password = create_password_blob(Cipher::Aes256Xts, &salt, 10, "pw2").unwrap();
    let other_cipher = create_password_blob(Cipher::Aes128Ecb, &salt, 10, "pw").unwrap();
    assert_ne!(base, other_salt);
    assert_ne!(base, other_count);
    assert_ne!(base, other_password);
    assert_ne!(base, other_cipher);
}

#[test]
fn password_blob_rejects_unsupported_ciphers() {
    assert!(matches!(
        create_password_blob(Cipher::NoEncryption, &[0; 8], 1, "p"),
        Err(Error::UnsupportedCipher)
    ));
    assert!(matches!(
        create_password_blob(Cipher::Unknown, &[0; 8], 1, "p"),
        Err(Error::UnsupportedCipher)
    ));
}

#[test]
fn unmap_chunks_cover_example_range() {
    let chunks = plan_unmap_chunks(0, 5_000_000, 2_000_000);
    assert_eq!(
        chunks,
        vec![(0, 2_000_000), (2_000_000, 2_000_000), (4_000_000, 1_000_000)]
    );
}

#[test]
fn unmap_chunks_edge_cases() {
    assert_eq!(plan_unmap_chunks(10, 0, 5), vec![]);
    assert_eq!(plan_unmap_chunks(10, 5, 5), vec![(10, 5)]);
    assert_eq!(plan_unmap_chunks(10, 6, 5), vec![(10, 5), (15, 1)]);
    assert_eq!(plan_unmap_chunks(7, 3, 100), vec![(7, 3)]);
}

fn unlock_check_condition(key: u8, asc: u8, ascq: u8) -> ResultData {
    let mut sense = vec![0u8; 34];
    sense[2] = key;
    sense[12] = asc;
    sense[13] = ascq;
    ResultData {
        ioctl_result: 0,
        os_error: 0,
        transfered_data_length: 0,
        data: vec![],
        transfered_sense_length: 18,
        sense_buffer: sense,
        masked_status: 0x01,
        host_status: 0,
        driver_status: 0,
    }
}

#[test]
fn unlock_classifies_password_incorrect() {
    let command = UnlockEncryption::new(vec![0; 32]).unwrap();
    let outcome = command.process_result(&unlock_check_condition(0x05, 0x74, 0x40));
    assert!(matches!(outcome, Err(Error::PasswordIncorrect)));
}

#[test]
fn unlock_classifies_exceeded_attempts() {
    let command = UnlockEncryption::new(vec![0; 32]).unwrap();
    let outcome = command.process_result(&unlock_check_condition(0x05, 0x74, 0x80));
    assert!(matches!(outcome, Err(Error::ExceedUnlockAttempts)));
}

#[test]
fn unlock_classifies_already_unlocked() {
    let command = UnlockEncryption::new(vec![0; 32]).unwrap();
    let outcome = command.process_result(&unlock_check_condition(0x05, 0x74, 0x81));
    assert!(matches!(outcome, Err(Error::NotLocked(_))));
}

#[test]
fn unlock_classifies_wrong_blob_size() {
    let command = UnlockEncryption::new(vec![0; 32]).unwrap();
    assert!(matches!(
        command.process_result(&unlock_check_condition(0x05, 0x24, 0x00)),
        Err(Error::PasswordBlobSizeIncorrect)
    ));
    assert!(matches!(
        command.process_result(&unlock_check_condition(0x05, 0x26, 0x00)),
        Err(Error::PasswordBlobSizeIncorrect)
    ));
}

#[test]
fn unlock_other_sense_falls_back_to_generic() {
    let command = UnlockEncryption::new(vec![0; 32]).unwrap();
    let outcome = command.process_result(&unlock_check_condition(0x05, 0x74, 0x99));
    assert!(matches!(outcome, Err(Error::ScsiError(_))));
}

#[test]
fn sleep_timer_round_trip() {
    let page = [0u8; 48];
    let set_45 = wd_vsc::power_condition_mode_page::apply_sleep_timer(&page, 45);
    assert_eq!(wd_vsc::power_condition_mode_page::sleep_timer_from_page(&set_45), 60);
    let set_0 = wd_vsc::power_condition_mode_page::apply_sleep_timer(&page, 0);
    assert_eq!(wd_vsc::power_condition_mode_page::sleep_timer_from_page(&set_0), 0);
    let set_30000 = wd_vsc::power_condition_mode_page::apply_sleep_timer(&page, 30000);
    assert_eq!(wd_vsc::power_condition_mode_page::sleep_timer_from_page(&set_30000), 28800);
    let set_600 = wd_vsc::power_condition_mode_page::apply_sleep_timer(&page, 600);
    assert_eq!(wd_vsc::power_condition_mode_page::sleep_timer_from_page(&set_600), 600);
}

#[test]
fn sleep_timer_page_sets_enable_bit_and_units() {
    let mut page = [0u8; 48];
    page[11] = 0xF0;
    let set = wd_vsc::power_condition_mode_page::apply_sleep_timer(&page, 120);
    assert_eq!(set[11], 0xF1);
    // 120 seconds stored as 1200 units of 100 ms, big-endian
    assert_eq!(&set[16..20], &[0, 0, 0x04, 0xB0]);
    let disabled = wd_vsc::power_condition_mode_page::apply_sleep_timer(&page, 0);
    assert_eq!(disabled[11], 0xF0);
}
