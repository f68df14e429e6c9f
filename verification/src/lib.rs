//! Verified core of a SCSI Generic passthrough library with a vendor-specific
//! command set for hardware-encrypted external drives: byte-exact command
//! descriptor blocks and payloads, status and sense classification, the
//! persisted security block, and deterministic password derivation.
//!
//! Everything that touches the operating system (opening the device node and
//! issuing the passthrough ioctl) lives outside this crate; the types here
//! produce the exact bytes to send and interpret the raw outcome bytes that
//! come back.
pub mod change_encryption_passphrase;
pub mod cipher;
pub mod codec;
pub mod command;
pub mod data_direction;
pub mod device_configuration_page;
pub mod encryption_status;
pub mod erase;
pub mod error;
pub mod host_status;
pub mod inquiry;
pub mod mode_select;
pub mod native;
pub mod operations_page;
pub mod password_utility;
pub mod power_condition_mode_page;
pub mod mode_sense;
pub mod read_capacity;
pub mod read_handy_capacity;
pub mod read_handy_store;
pub mod reset_data_encryption_key;
pub mod result;
pub mod result_data;
pub mod scsi;
pub mod security_block;
pub mod security_status;
pub mod send_diagnostic;
pub mod sense;
pub mod unlock_encryption;
pub mod utf16;
pub mod write_handy_store;
pub mod unmap;

pub use cipher::Cipher;
pub use command::Command;
pub use data_direction::DataDirection;
pub use error::Error;
pub use host_status::HostStatus;
pub use result_data::ResultData;
pub use scsi::Switch;
pub use security_status::SecurityStatus;
