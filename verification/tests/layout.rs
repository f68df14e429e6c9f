//! Total byte sizes of every command descriptor block, payload and page,
//! held against the protocol's fixed lengths.
use wd_vsc::change_encryption_passphrase::ChangeEncryptionPassphrase;
use wd_vsc::cipher::Cipher;
use wd_vsc::command::Command;
use wd_vsc::encryption_status::EncryptionStatusCommand;
use wd_vsc::inquiry::{BlockLimitsVPDPage, Inquiry, LogicalBlockProvisioningVPDPage, StandardInquiryData};
use wd_vsc::mode_select::ModeSelect;
use wd_vsc::mode_sense::ModeSense;
use wd_vsc::read_capacity::ReadCapacity16;
use wd_vsc::read_handy_capacity::ReadHandyCapacity;
use wd_vsc::read_handy_store::ReadHandyStore;
use wd_vsc::reset_data_encryption_key::ResetDataEncryptionKey;
use wd_vsc::security_block::build_security_block;
use wd_vsc::send_diagnostic::SendDiagnostic;
use wd_vsc::unlock_encryption::UnlockEncryption;
use wd_vsc::unmap::{build_unmap_parameter_list, Unmap};
use wd_vsc::write_handy_store::WriteHandyStore;

const INQUIRY_COMMAND_LENGTH: usize = 6;
const BLOCK_LIMITS_VPD_PAGE_LENGTH: usize = 64;
const LOGICAL_BLOCK_PROVISIONING_VPD_PAGE_LENGTH: usize = 64;
const STANDARD_INQUIRY_DATA_LENGTH: usize = 32;
const MODE_SENSE_COMMAND_LENGTH: usize = 10;
const SG_READ_CAPACITY16_CMD_LEN: usize = 16;
const SG_READ_CAPACITY16_PARAMETER_LEN: usize = 32;
const SEND_DIAGNOSTIC_COMMAND_LENGTH: usize = 6;
const SG_UNMAP_CMD_LEN: usize = 10;
const SG_UNMAP_PARAMETER_1_LEN: usize = 8 + 16;
const SG_UNMAP_PARAMETER_2_LEN: usize = 8 + 16 * 2;
const CHANGE_ENCRYPTION_PASSPHRASE_COMMAND_LENGTH: usize = 10;
const CHANGE_ENCRYPTION_PASSPHRASE_DATA_LENGTH: usize = 8 + 32 * 2;
const ENCRYPTION_STATUS_COMMAND_LENGTH: usize = 10;
const ENCRYPTION_STATUS_TOTAL_DATA_SIZE: usize = 0x30;
const DEVICE_CONFIGURATION_PAGE_SIZE: usize = 8 + 8;
const OPERATIONS_PAGE_SIZE: usize = 8 + 12;
const POWER_CONDITION_MODE_PAGE_SIZE: usize = 8 + 40;
const READ_HANDY_CAPACITY_COMMAND_LENGTH: usize = 10;
const READ_HANDY_CAPACITY_DATA_LENGTH: usize = 12;
const READ_HANDY_STORE_COMMAND_LENGTH: usize = 10;
const RESET_DATA_ENCRYPTION_KEY_COMMAND_LENGTH: usize = 10;
const RESET_DATA_ENCRYPTION_KEY_DATA_LENGTH: usize = 8 + 32;
const UNLOCK_ENCRYPTION_COMMAND_LENGTH: usize = 10;
const UNLOCK_ENCRYPTION_DATA_LENGTH: usize = 40;
const HANDY_STORE_BLOCK_SIZE: usize = 512;

#[test]
fn mod_layout_test() {
    let command = Inquiry::new(None, 32);
    assert_eq!(
        command.get_command().len(),
        INQUIRY_COMMAND_LENGTH,
        "Size of: InquiryCommand"
    );
}

#[test]
fn block_limits_vpd_layout_test() {
    let page = BlockLimitsVPDPage::from_bytes(vec![0; 64]).unwrap();
    assert_eq!(
        page.bytes.len(),
        BLOCK_LIMITS_VPD_PAGE_LENGTH,
        "Size of: BlockLimitsVPDPage"
    );
}

#[test]
fn logical_block_provisioning_vpd_layout_test() {
    let page = LogicalBlockProvisioningVPDPage::from_bytes(vec![0; 64]).unwrap();
    assert_eq!(
        page.bytes.len(),
        LOGICAL_BLOCK_PROVISIONING_VPD_PAGE_LENGTH,
        "Size of: LogicalBlockProvisioningVPDPage"
    );
}

#[test]
fn product_identification_layout_test() {
    let data = StandardInquiryData::from_bytes(vec![0; 32]).unwrap();
    assert_eq!(
        data.bytes.len(),
        STANDARD_INQUIRY_DATA_LENGTH,
        "Size of: StandardInquiryData"
    );
}

#[test]
fn mode_sense_layout_test() {
    let command = ModeSense::new(0x1a, 48);
    assert_eq!(
        command.get_command().len(),
        MODE_SENSE_COMMAND_LENGTH,
        "Size of: ModeSenseCommand"
    );
}

#[test]
fn mode_select_layout_test() {
    let command = ModeSelect::new(vec![0; 48]).unwrap();
    assert_eq!(
        command.get_command().len(),
        MODE_SENSE_COMMAND_LENGTH,
        "Size of: ModeSenseCommand"
    );
}

#[test]
fn read_capacity_layout_test() {
    let command = ReadCapacity16::new();
    assert_eq!(
        command.get_command().len(),
        SG_READ_CAPACITY16_CMD_LEN,
        "Size of: ReadCapacity16Command"
    );
    assert_eq!(
        command.get_data().len(),
        SG_READ_CAPACITY16_PARAMETER_LEN,
        "Size of: ReadCapacity16ParameterData"
    );
}

#[test]
fn send_diagnostic_layout_test() {
    let command = SendDiagnostic::new();
    assert_eq!(
        command.get_command().len(),
        SEND_DIAGNOSTIC_COMMAND_LENGTH,
        "Size of: SendDiagnosticCommand"
    );
}

#[test]
fn unmap_layout_test() {
    let command = Unmap::new(0, 8);
    assert_eq!(command.get_command().len(), SG_UNMAP_CMD_LEN, "Size of: UnmapCommand");
    assert_eq!(
        build_unmap_parameter_list(&vec![(0, 8)]).len(),
        SG_UNMAP_PARAMETER_1_LEN,
        "Size of: UnmapParameterList<1>"
    );
    assert_eq!(
        build_unmap_parameter_list(&vec![(0, 8), (8, 8)]).len(),
        SG_UNMAP_PARAMETER_2_LEN,
        "Size of: UnmapParameterList<2>"
    );
}

#[test]
fn change_encryption_passphrase_layout_test() {
    let command =
        ChangeEncryptionPassphrase::new(Cipher::Aes256Xts, Some(vec![1; 32]), None).unwrap();
    assert_eq!(
        command.get_command().len(),
        CHANGE_ENCRYPTION_PASSPHRASE_COMMAND_LENGTH,
        "Size of: ChangeEncryptionPassphraseCommand"
    );
    assert_eq!(
        command.get_data().len(),
        CHANGE_ENCRYPTION_PASSPHRASE_DATA_LENGTH,
        "Size of: ChangeEncryptionPassphraseData"
    );
}

#[test]
fn encryption_status_layout_test() {
    let command = EncryptionStatusCommand::new();
    assert_eq!(
        command.get_command().len(),
        ENCRYPTION_STATUS_COMMAND_LENGTH,
        "Size of: EncryptionStatusCommand"
    );
    assert_eq!(
        command.get_data().len(),
        ENCRYPTION_STATUS_TOTAL_DATA_SIZE,
        "Size of: EncryptionStatusDataWithCiphers"
    );
}

#[test]
fn device_configuration_page_layout_test() {
    let page = wd_vsc::device_configuration_page::apply_virtual_cd_status(&[0u8; 16], true);
    assert_eq!(page.len(), DEVICE_CONFIGURATION_PAGE_SIZE, "Size of: DeviceConfigurationPage");
}

#[test]
fn operations_page_layout_test() {
    let page = wd_vsc::operations_page::apply_led_brightness(&[0u8; 20], 0);
    assert_eq!(page.len(), OPERATIONS_PAGE_SIZE, "Size of: OperationsPage");
}

#[test]
fn power_condition_mode_page_layout_test() {
    let page = wd_vsc::power_condition_mode_page::apply_sleep_timer(&[0u8; 48], 0);
    assert_eq!(page.len(), POWER_CONDITION_MODE_PAGE_SIZE, "Size of: PowerConditionModePage");
}

#[test]
fn read_handy_capacity_layout_test() {
    let command = ReadHandyCapacity::new();
    assert_eq!(
        command.get_command().len(),
        READ_HANDY_CAPACITY_COMMAND_LENGTH,
        "Size of: ReadHandyCapacityCommand"
    );
    assert_eq!(
        command.get_data().len(),
        READ_HANDY_CAPACITY_DATA_LENGTH,
        "Size of: ReadHandyCapacityData"
    );
}

#[test]
fn read_handy_store_layout_test() {
    let command = ReadHandyStore::new(1);
    assert_eq!(
        command.get_command().len(),
        READ_HANDY_STORE_COMMAND_LENGTH,
        "Size of: ReadHandyStoreCommand"
    );
}

#[test]
fn write_handy_store_layout_test() {
    let command = WriteHandyStore::new(1, vec![0; 512]).unwrap();
    assert_eq!(
        command.get_command().len(),
        READ_HANDY_STORE_COMMAND_LENGTH,
        "Size of: ReadHandyStoreCommand"
    );
}

#[test]
fn reset_data_encryption_key_layout_test() {
    let command = ResetDataEncryptionKey::new(Cipher::Aes256Xts, 0).unwrap();
    assert_eq!(
        command.get_command().len(),
        RESET_DATA_ENCRYPTION_KEY_COMMAND_LENGTH,
        "Size of: ResetDataEncryptionKeyCommand"
    );
    assert_eq!(
        command.get_data().len(),
        RESET_DATA_ENCRYPTION_KEY_DATA_LENGTH,
        "Size of: ResetDataEncryptionKeyData"
    );
}

#[test]
fn unlock_encryption_layout_test() {
    let command = UnlockEncryption::new(vec![1; 32]).unwrap();
    assert_eq!(
        command.get_command().len(),
        UNLOCK_ENCRYPTION_COMMAND_LENGTH,
        "Size of: UnlockEncryptionCommand"
    );
    assert_eq!(
        command.get_data().len(),
        UNLOCK_ENCRYPTION_DATA_LENGTH,
        "Size of: UnlockEncryptionData"
    );
}

#[test]
fn security_block_layout_test() {
    let block = build_security_block(1000, &[0; 8], "").unwrap();
    assert_eq!(block.len(), HANDY_STORE_BLOCK_SIZE, "Size of: SecurityBlockRaw");
}
