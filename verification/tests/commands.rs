//! Exact command bytes, reply parsing, and the status classification.
use wd_vsc::change_encryption_passphrase::ChangeEncryptionPassphrase;
use wd_vsc::cipher::Cipher;
use wd_vsc::command::Command;
use wd_vsc::data_direction::DataDirection;
use wd_vsc::encryption_status::EncryptionStatusCommand;
use wd_vsc::error::Error as ScsiError;
use wd_vsc::host_status::HostStatus;
use wd_vsc::inquiry::{BlockLimitsVPDPage, Inquiry, LogicalBlockProvisioningVPDPage, StandardInquiryData};
use wd_vsc::mode_select::ModeSelect;
use wd_vsc::mode_sense::ModeSense;
use wd_vsc::read_capacity::ReadCapacity16;
use wd_vsc::read_handy_capacity::ReadHandyCapacity;
use wd_vsc::read_handy_store::ReadHandyStore;
use wd_vsc::reset_data_encryption_key::ResetDataEncryptionKey;
use wd_vsc::result::Error;
use wd_vsc::result_data::{check_error_status_any_sense, check_ioctl_result, ResultData};
use wd_vsc::scsi::{scsi_generic_version_supported, Switch};
use wd_vsc::security_status::{check_device_unlocked, SecurityStatus};
use wd_vsc::send_diagnostic::{SendDiagnostic, TestResult};
use wd_vsc::unlock_encryption::UnlockEncryption;
use wd_vsc::unmap::{build_unmap_parameter_list, Unmap};
use wd_vsc::erase::{check_erase_cipher, should_issue_unmap};
use wd_vsc::password_utility::{check_password_change_allowed, create_salt_blob, resolve_salt_and_iteration_count};
use wd_vsc::security_block::SecurityBlock;
use wd_vsc::sense::{bytes_sense_buffer_value, fixed_sense_buffer_value, FixedSenseBuffer};
use wd_vsc::write_handy_store::WriteHandyStore;

fn nominal_result(data: Vec<u8>) -> ResultData {
    let len = data.len();
    ResultData {
        ioctl_result: 0,
        os_error: 0,
        transfered_data_length: len,
        data,
        transfered_sense_length: 0,
        sense_buffer: vec![0; 255],
        masked_status: 0,
        host_status: 0,
        driver_status: 0,
    }
}

#[test]
fn inquiry_cdb_bytes() {
    let plain = Inquiry::new(None, 32);
    assert_eq!(plain.get_command(), vec![0x12, 0, 0, 0, 32, 0]);
    assert!(matches!(plain.get_direction(), DataDirection::FromDevice));
    assert_eq!(plain.get_data_size(), 32);
    let vpd = Inquiry::new(Some(0xb0), 64);
    assert_eq!(vpd.get_command(), vec![0x12, 1, 0xb0, 0, 64, 0]);
    assert_eq!(vpd.get_data(), vec![0; 64]);
    assert_eq!(vpd.get_sense_buffer().len(), 255);
}

#[test]
fn inquiry_returns_reply_buffer() {
    let command = Inquiry::new(None, 4);
    let reply = command.process_result(&nominal_result(vec![1, 2, 3, 4])).unwrap();
    assert_eq!(reply, vec![1, 2, 3, 4]);
}

#[test]
fn product_identification_field() {
    let mut raw = vec![0u8; 32];
    raw[16..32].copy_from_slice(b"My Passport 0820");
    let data = StandardInquiryData::from_bytes(raw).unwrap();
    assert_eq!(data.product_identification(), b"My Passport 0820".to_vec());
    assert!(StandardInquiryData::from_bytes(vec![0; 31]).is_none());
}

#[test]
fn block_limits_page_reads_unmap_limit() {
    let mut raw = vec![0u8; 64];
    raw[20..24].copy_from_slice(&[0x00, 0x1E, 0x84, 0x80]);
    let page = BlockLimitsVPDPage::from_bytes(raw).unwrap();
    assert_eq!(page.maximum_unmap_lba_count(), 2_000_000);
}

#[test]
fn logical_block_provisioning_page_reads_lbpu() {
    let mut raw = vec![0u8; 64];
    raw[5] = 0x80;
    let page = LogicalBlockProvisioningVPDPage::from_bytes(raw).unwrap();
    assert!(page.unmap_supported());
    let off = LogicalBlockProvisioningVPDPage::from_bytes(vec![0; 64]).unwrap();
    assert!(!off.unmap_supported());
}

#[test]
fn mode_sense_cdb_bytes() {
    let command = ModeSense::new(0x1a, 48);
    assert_eq!(command.get_command(), vec![0x5a, 0x08, 0x1a, 0, 0, 0, 0, 0, 48, 0]);
}

#[test]
fn mode_select_cdb_bytes() {
    let command = ModeSelect::new(vec![7; 16]).unwrap();
    assert_eq!(command.get_command(), vec![0x55, 0x11, 0, 0, 0, 0, 0, 0, 16, 0]);
    assert_eq!(command.get_data(), vec![7; 16]);
    assert!(matches!(command.get_direction(), DataDirection::ToDevice));
}

#[test]
fn read_capacity_parses_reply() {
    let command = ReadCapacity16::new();
    assert_eq!(
        command.get_command(),
        vec![0x9e, 0x10, 0, 0, 0, 0, 0, 0, 0, 0, 0, 0, 0, 0x20, 0, 0]
    );
    let mut data = vec![0u8; 32];
    // 0x12345677 blocks reported as the last block address
    data[0..8].copy_from_slice(&[0, 0, 0, 0, 0x12, 0x34, 0x56, 0x77]);
    data[8..12].copy_from_slice(&[0, 0, 2, 0]);
    let capacity = command.process_result(&nominal_result(data)).unwrap();
    assert_eq!(capacity.logical_block_count, 0x12345678);
    assert_eq!(capacity.logical_block_length_in_bytes, 512);
}

#[test]
fn send_diagnostic_intercepts_hardware_error() {
    let command = SendDiagnostic::new();
    assert_eq!(command.get_command(), vec![0x1d, 0x04, 0, 0, 0, 0]);
    let mut result = nominal_result(vec![]);
    result.sense_buffer = vec![0; 34];
    result.sense_buffer[2] = 0x04;
    result.masked_status = 0x01;
    result.transfered_sense_length = 18;
    assert!(matches!(command.process_result(&result), Ok(TestResult::HardwareError)));
    let mut ok = nominal_result(vec![]);
    ok.sense_buffer = vec![0; 34];
    assert!(matches!(command.process_result(&ok), Ok(TestResult::Passed)));
}

#[test]
fn unmap_cdb_and_parameter_bytes() {
    let command = Unmap::new(0x11_22_33_44, 0x0100);
    assert_eq!(command.get_command(), vec![0x42, 0, 0, 0, 0, 0, 0, 0, 24, 0]);
    let expected_data: Vec<u8> = vec![
        0, 22, 0, 16, 0, 0, 0, 0, // list header
        0, 0, 0, 0, 0x11, 0x22, 0x33, 0x44, // block address
        0, 0, 1, 0, // block count
        0, 0, 0, 0, // reserved
    ];
    assert_eq!(command.get_data(), expected_data);
    let two = build_unmap_parameter_list(&vec![(1, 2), (3, 4)]);
    assert_eq!(&two[0..4], &[0, 38, 0, 32]);
    assert_eq!(two.len(), 40);
}

#[test]
fn encryption_status_parses_reply() {
    let command = EncryptionStatusCommand::new();
    assert_eq!(command.get_command(), vec![0xc0, 0x45, 0, 0, 0, 0, 0, 0, 0x30, 0]);
    let mut data = vec![0u8; 48];
    data[0] = 0x45;
    data[3] = 2; // unlocked
    data[4] = 0x28; // AES-256 XTS
    data[6..8].copy_from_slice(&[0, 32]);
    data[8..12].copy_from_slice(&[0xDE, 0xAD, 0xBE, 0xEF]);
    data[15] = 2;
    data[16] = 0x28;
    data[17] = 0x30;
    let status = command.process_result(&nominal_result(data)).unwrap();
    assert!(matches!(status.security_status, SecurityStatus::Unlocked));
    assert!(matches!(status.current_cipher, Cipher::Aes256Xts));
    assert_eq!(status.blob_password_length, 32);
    assert_eq!(status.key_reset_enabler, 0xDEADBEEF);
    assert_eq!(status.supported_ciphers, vec![Cipher::Aes256Xts, Cipher::FullDiscEncryption]);
}

#[test]
fn encryption_status_clamps_cipher_count() {
    let command = EncryptionStatusCommand::new();
    let mut data = vec![0u8; 48];
    data[0] = 0x45;
    data[3] = 1;
    data[15] = 255; // advertises more ciphers than the reply can hold
    let status = command.process_result(&nominal_result(data)).unwrap();
    assert_eq!(status.supported_ciphers.len(), 32);
}

#[test]
fn encryption_status_rejects_bad_signature() {
    let command = EncryptionStatusCommand::new();
    let mut data = vec![0u8; 48];
    data[0] = 0x46;
    assert!(matches!(
        command.process_result(&nominal_result(data)),
        Err(Error::UnsupportedDevice)
    ));
}

#[test]
fn encryption_status_rejects_unknown_security_status() {
    let command = EncryptionStatusCommand::new();
    let mut data = vec![0u8; 48];
    data[0] = 0x45;
    data[3] = 5;
    assert!(matches!(
        command.process_result(&nominal_result(data)),
        Err(Error::UnsupportedDevice)
    ));
}

#[test]
fn unlock_cdb_and_data_bytes() {
    let command = UnlockEncryption::new(vec![0xAB; 16]).unwrap();
    assert_eq!(command.get_command(), vec![0xc1, 0xe1, 0, 0, 0, 0, 0, 0, 24, 0]);
    let data = command.get_data();
    assert_eq!(data.len(), 40);
    assert_eq!(data[0], 0x45);
    assert_eq!(&data[6..8], &[0, 16]);
    assert_eq!(&data[8..24], &[0xAB; 16]);
    assert_eq!(&data[24..40], &[0; 16]);
    assert_eq!(command.get_data_size(), 24);
}

#[test]
fn unlock_rejects_oversized_blob() {
    assert!(matches!(
        UnlockEncryption::new(vec![0; 33]),
        Err(Error::PasswordBlobSizeIncorrect)
    ));
}

#[test]
fn change_passphrase_data_bytes() {
    let new_password = vec![1u8; 16];
    let old_password = vec![2u8; 16];
    let both = ChangeEncryptionPassphrase::new(
        Cipher::Aes128Ecb,
        Some(new_password.clone()),
        Some(old_password.clone()),
    )
    .unwrap();
    assert_eq!(both.get_command(), vec![0xc1, 0xe2, 0, 0, 0, 0, 0, 0, 40, 0]);
    let data = both.get_data();
    assert_eq!(data.len(), 72);
    assert_eq!(data[0], 0x45);
    assert_eq!(data[3], 0); // both passwords given
    assert_eq!(&data[6..8], &[0, 16]);
    assert_eq!(&data[8..24], old_password.as_slice());
    assert_eq!(&data[24..40], new_password.as_slice());
    let no_old =
        ChangeEncryptionPassphrase::new(Cipher::Aes128Ecb, Some(new_password), None).unwrap();
    assert_eq!(no_old.get_data()[3], 0x01);
    let no_new =
        ChangeEncryptionPassphrase::new(Cipher::Aes128Ecb, None, Some(old_password)).unwrap();
    assert_eq!(no_new.get_data()[3], 0x10);
}

#[test]
fn change_passphrase_validates_blobs() {
    assert!(matches!(
        ChangeEncryptionPassphrase::new(Cipher::Aes256Xts, Some(vec![0; 16]), None),
        Err(Error::PasswordBlobSizeIncorrect)
    ));
    assert!(matches!(
        ChangeEncryptionPassphrase::new(Cipher::NoEncryption, Some(vec![0; 16]), None),
        Err(Error::UnsupportedCipher)
    ));
    assert!(matches!(
        ChangeEncryptionPassphrase::new(Cipher::Aes256Xts, None, None),
        Err(Error::Other(_))
    ));
}

#[test]
fn reset_key_cdb_and_data_bytes() {
    let command = ResetDataEncryptionKey::new(Cipher::Aes256Xts, 0x01020304).unwrap();
    assert_eq!(
        command.get_command(),
        vec![0xc1, 0xe3, 0x01, 0x02, 0x03, 0x04, 0, 0, 40, 0]
    );
    let data = command.get_data();
    assert_eq!(data.len(), 40);
    assert_eq!(data[0], 0x45);
    assert_eq!(data[3], 0); // no key combining
    assert_eq!(data[4], 0x28);
    assert_eq!(&data[6..8], &[1, 0]); // 256 bits
    assert_eq!(command.get_data_size(), 40);
}

#[test]
fn reset_key_draws_fresh_key_material() {
    let first = ResetDataEncryptionKey::new(Cipher::Aes256Xts, 0).unwrap();
    let second = ResetDataEncryptionKey::new(Cipher::Aes256Xts, 0).unwrap();
    assert_eq!(first.key.len(), 32);
    assert_ne!(first.key, second.key);
    let keyless = ResetDataEncryptionKey::new(Cipher::FullDiscEncryption, 0).unwrap();
    assert_eq!(keyless.key.len(), 0);
    assert_eq!(keyless.get_data_size(), 8);
    assert!(matches!(
        ResetDataEncryptionKey::new(Cipher::Unknown, 0),
        Err(Error::UnsupportedCipher)
    ));
}

#[test]
fn handy_store_cdb_bytes() {
    let read = ReadHandyStore::new(1);
    assert_eq!(read.get_command(), vec![0xd8, 0, 0, 0, 0, 1, 0, 0, 1, 0]);
    assert_eq!(read.get_data_size(), 512);
    let write = WriteHandyStore::new(1, vec![9; 512]).unwrap();
    assert_eq!(write.get_command(), vec![0xda, 0, 0, 0, 0, 1, 0, 0, 1, 0]);
    assert_eq!(write.get_data(), vec![9; 512]);
    assert!(WriteHandyStore::new(1, vec![9; 511]).is_none());
}

#[test]
fn handy_capacity_parses_reply() {
    let command = ReadHandyCapacity::new();
    assert_eq!(command.get_command(), vec![0xd5, 0, 0, 0, 0, 0, 0, 0, 0, 0]);
    let mut data = vec![0u8; 12];
    data[0..4].copy_from_slice(&[0, 0, 0, 15]);
    data[4..8].copy_from_slice(&[0, 0, 2, 0]);
    data[10..12].copy_from_slice(&[0, 1]);
    let capacity = command.process_result(&nominal_result(data)).unwrap();
    assert_eq!(capacity.last_handy_block_address, 15);
    assert_eq!(capacity.block_length, 512);
    assert_eq!(capacity.maximum_transfer_length, 1);
}

#[test]
fn ioctl_failure_is_reported_with_os_error() {
    let mut result = nominal_result(vec![]);
    result.ioctl_result = -1;
    result.os_error = 13;
    assert!(matches!(result.check_ioctl_error(), Err(ScsiError::IO(13))));
    assert!(matches!(check_ioctl_result(-1, 13), Err(ScsiError::IO(13))));
    assert!(check_ioctl_result(0, 0).is_ok());
}

#[test]
fn common_error_composes_all_channels() {
    let mut result = nominal_result(vec![]);
    result.masked_status = 0x01;
    result.host_status = 0x03;
    result.driver_status = 0x08;
    result.transfered_sense_length = 2;
    result.sense_buffer = vec![0x70, 0x42, 0, 0];
    match result.check_common_error() {
        Err(ScsiError::CheckCondition(summary)) => {
            assert_eq!(summary.masked_status, 0x01);
            assert_eq!(summary.host_status, 0x03);
            assert_eq!(summary.driver_status, 0x08);
            assert_eq!(summary.sense, vec![0x70, 0x42]);
        }
        other => panic!("unexpected classification: {:?}", other),
    }
    assert!(nominal_result(vec![]).check_common_error().is_ok());
}

#[test]
fn error_status_any_sense_matches_channels() {
    assert!(check_error_status_any_sense(0, 0, 0, 0, None).is_ok());
    let sense = vec![1, 2, 3, 4];
    match check_error_status_any_sense(0, 0, 6, 3, Some(&sense)) {
        Err(ScsiError::CheckCondition(summary)) => {
            assert_eq!(summary.driver_status, 6);
            assert_eq!(summary.sense, vec![1, 2, 3]);
        }
        other => panic!("unexpected classification: {:?}", other),
    }
}

#[test]
fn virtual_cd_page_round_trip() {
    let mut page = vec![0xFFu8; 16];
    page[12] = 0x02;
    assert!(!wd_vsc::device_configuration_page::is_virtual_cd_on(&page));
    let enabled = wd_vsc::device_configuration_page::apply_virtual_cd_status(&page, true);
    assert!(wd_vsc::device_configuration_page::is_virtual_cd_on(&enabled));
    assert_eq!(&enabled[0..8], &[0; 8]);
    assert_eq!(enabled[8], 0x7F);
    let disabled = wd_vsc::device_configuration_page::apply_virtual_cd_status(&page, false);
    assert!(!wd_vsc::device_configuration_page::is_virtual_cd_on(&disabled));
}

#[test]
fn led_brightness_page_round_trip() {
    let mut page = vec![0u8; 20];
    page[16] = 5;
    assert_eq!(wd_vsc::operations_page::get_led_brightness_from_page(&page), 5);
    let set = wd_vsc::operations_page::apply_led_brightness(&page, 200);
    assert_eq!(wd_vsc::operations_page::get_led_brightness_from_page(&set), 200);
}

#[test]
fn status_and_direction_codes() {
    assert!(matches!(HostStatus::from_code(0), HostStatus::Okay));
    assert!(matches!(HostStatus::from_code(3), HostStatus::TimeOut));
    assert!(matches!(HostStatus::from_code(0x55), HostStatus::Unknown));
    assert_eq!(DataDirection::NoData.raw_value(), -1);
    assert_eq!(DataDirection::ToDevice.raw_value(), -2);
    assert_eq!(DataDirection::FromDevice.raw_value(), -3);
    assert!(scsi_generic_version_supported(30000));
    assert!(!scsi_generic_version_supported(29999));
    assert!(Switch::On.is_on());
    assert!(!Switch::Off.is_on());
}

#[test]
fn cipher_codes_round_trip() {
    let ciphers = [
        Cipher::NoEncryption,
        Cipher::Aes128Ecb,
        Cipher::Aes128Cbc,
        Cipher::Aes128Xts,
        Cipher::Aes256Ecb,
        Cipher::Aes256Cbc,
        Cipher::Aes256Xts,
        Cipher::FullDiscEncryption,
    ];
    for cipher in ciphers {
        assert_eq!(Cipher::from_code(cipher.code()), cipher);
    }
    assert_eq!(Cipher::from_code(0x77), Cipher::Unknown);
    assert_eq!(Cipher::Aes128Xts.get_password_blob_size().unwrap(), 16);
    assert_eq!(Cipher::FullDiscEncryption.get_password_blob_size().unwrap(), 32);
}

#[test]
fn security_status_codes() {
    assert!(matches!(SecurityStatus::from_code(0), Ok(SecurityStatus::NoUserPassword)));
    assert!(matches!(SecurityStatus::from_code(1), Ok(SecurityStatus::Locked)));
    assert!(matches!(SecurityStatus::from_code(2), Ok(SecurityStatus::Unlocked)));
    assert!(matches!(SecurityStatus::from_code(6), Ok(SecurityStatus::UnlockAttemptExceeded)));
    assert!(matches!(SecurityStatus::from_code(7), Ok(SecurityStatus::NoEncryption)));
    assert!(matches!(SecurityStatus::from_code(3), Err(Error::UnsupportedDevice)));
}

#[test]
fn device_lock_checks() {
    assert!(check_device_unlocked(&SecurityStatus::Unlocked, "m").is_ok());
    assert!(check_device_unlocked(&SecurityStatus::NoUserPassword, "m").is_ok());
    assert!(matches!(
        check_device_unlocked(&SecurityStatus::Locked, "m"),
        Err(Error::NotUnlocked(_))
    ));
    assert!(matches!(
        check_device_unlocked(&SecurityStatus::UnlockAttemptExceeded, "m"),
        Err(Error::NotUnlocked(_))
    ));
    assert!(check_password_change_allowed(&SecurityStatus::NoEncryption).is_ok());
    assert!(matches!(
        check_password_change_allowed(&SecurityStatus::Locked),
        Err(Error::NotUnlocked(_))
    ));
    assert!(matches!(
        check_password_change_allowed(&SecurityStatus::UnlockAttemptExceeded),
        Err(Error::ExceedUnlockAttempts)
    ));
}

#[test]
fn erase_decisions() {
    let supported = vec![Cipher::Aes256Xts, Cipher::FullDiscEncryption];
    assert!(check_erase_cipher(None, &supported).is_ok());
    assert!(check_erase_cipher(Some(Cipher::Aes256Xts), &supported).is_ok());
    assert!(matches!(
        check_erase_cipher(Some(Cipher::Aes128Ecb), &supported),
        Err(Error::UnsupportedCipher)
    ));
    assert!(should_issue_unmap(true, 1));
    assert!(!should_issue_unmap(false, 1));
    assert!(!should_issue_unmap(true, 0));
}

#[test]
fn salt_blob_and_resolution() {
    assert_eq!(create_salt_blob(None).unwrap(), None);
    let blob = create_salt_blob(Some("AB".to_owned())).unwrap().unwrap();
    assert_eq!(blob, [65, 0, 66, 0, 0, 0, 0, 0]);
    assert!(matches!(
        create_salt_blob(Some("ABCDE".to_owned())),
        Err(Error::SaltTooLong)
    ));
    let block = SecurityBlock { iteration_count: 500, salt: [3; 8], hint: vec![] };
    let (salt, count) = resolve_salt_and_iteration_count(None, None, &block);
    assert_eq!(salt, [3; 8]);
    assert_eq!(count, 500);
    let (salt, count) = resolve_salt_and_iteration_count(Some([7; 8]), Some(9), &block);
    assert_eq!(salt, [7; 8]);
    assert_eq!(count, 9);
}

#[test]
fn sense_accessors_read_fixed_layout() {
    assert_eq!(bytes_sense_buffer_value().len(), 255);
    let zeroed = fixed_sense_buffer_value();
    assert_eq!(zeroed.as_slice().len(), 34);
    let mut bytes = vec![0u8; 34];
    bytes[0] = 0xF0;
    bytes[2] = 0x25;
    bytes[12] = 0x74;
    bytes[13] = 0x40;
    let sense = FixedSenseBuffer { bytes };
    assert!(sense.valid());
    assert_eq!(sense.response_code(), 0x70);
    assert_eq!(sense.sense_key(), 0x05);
    assert_eq!(sense.additional_sense_code(), 0x74);
    assert_eq!(sense.additional_sense_code_qualifier(), 0x40);
}

#[test]
fn read_capacity_rejects_degenerate_replies() {
    let command = ReadCapacity16::new();
    let mut short = nominal_result(vec![0u8; 8]);
    short.transfered_data_length = 8;
    assert!(matches!(command.process_result(&short), Err(ScsiError::Other(_))));
    let all_ones = nominal_result(vec![0xFF; 32]);
    assert!(matches!(command.process_result(&all_ones), Err(ScsiError::Other(_))));
}
