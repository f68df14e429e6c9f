//! The Inquiry command (opcode 0x12), the standard inquiry data, and the
//! two vital product data pages the library reads: Block Limits and
//! Logical Block Provisioning.
use vstd::prelude::*;
use crate::codec::{
    copy_bytes, push_be16, push_zeros, spec_be16, spec_read_be32, spec_zeros, subrange_bytes,
};
use crate::command::Command;
use crate::data_direction::DataDirection;
use crate::error::Error;
use crate::result_data::ResultData;

verus! {

pub const INQUIRY_OPERATION_CODE: u8 = 0x12;

/// Page code of the Block Limits vital product data page.
pub const BLOCK_LIMITS_VPD_PAGE_CODE: u8 = 0xb0;

/// Page code of the Logical Block Provisioning vital product data page.
pub const LOGICAL_BLOCK_PROVISIONING_VPD_PAGE_CODE: u8 = 0xb2;

/// The 6-byte Inquiry command descriptor block: opcode, 6 reserved bits
/// and 2 flag bits (of which only the vital-product-data enable is used),
/// page code, big-endian 16-bit allocation length, control byte.
pub open spec fn spec_inquiry_cdb(enable_vpd: bool, page_code: u8, allocation_length: u16) -> Seq<
    u8,
> {
    seq![
        0x12u8,
        if enable_vpd {
            1u8
        } else {
            0u8
        },
        page_code,
    ] + spec_be16(allocation_length) + seq![0u8]
}

/// An Inquiry command: the standard inquiry data when `enable_vpd` is
/// false, otherwise the vital product data page named by `page_code`.
pub struct Inquiry {
    pub enable_vpd: bool,
    pub page_code: u8,
    pub allocation_length: u16,
}

impl Inquiry {
    /// A standard inquiry (no page code) or a vital product data page
    /// inquiry, with the given reply buffer size.
    pub fn new(page_code: Option<u8>, allocation_length: u16) -> (r: Inquiry)
        ensures
            r.enable_vpd == page_code is Some,
            r.page_code == if page_code is Some {
                page_code.unwrap()
            } else {
                0u8
            },
            r.allocation_length == allocation_length,
    {
        match page_code {
            Some(code) => Inquiry { enable_vpd: true, page_code: code, allocation_length },
            Option::None => Inquiry { enable_vpd: false, page_code: 0, allocation_length },
        }
    }
}

impl Command for Inquiry {
    type ReturnType = crate::error::Result<Vec<u8>>;

    open spec fn spec_direction(&self) -> DataDirection {
        DataDirection::FromDevice
    }

    open spec fn spec_command(&self) -> Seq<u8> {
        spec_inquiry_cdb(self.enable_vpd, self.page_code, self.allocation_length)
    }

    open spec fn spec_data(&self) -> Seq<u8> {
        spec_zeros(self.allocation_length as nat)
    }

    open spec fn spec_data_size(&self) -> u32 {
        self.allocation_length as u32
    }

    open spec fn spec_sense_size(&self) -> nat {
        255
    }

    open spec fn result_spec(&self, result: &ResultData, r: Self::ReturnType) -> bool {
        if result.ioctl_result != 0 {
            r == Err::<Vec<u8>, Error>(Error::IO(result.os_error))
        } else {
            match r {
                Ok(d) => result.spec_nominal() && d@ == result.data@,
                Err(e) => result.spec_status_failure(e),
            }
        }
    }

    fn get_direction(&self) -> (r: DataDirection) {
        DataDirection::FromDevice
    }

    fn get_command(&self) -> (r: Vec<u8>) {
        let mut cdb: Vec<u8> = Vec::new();
        cdb.push(0x12);
        cdb.push(if self.enable_vpd {
            1
        } else {
            0
        });
        cdb.push(self.page_code);
        push_be16(&mut cdb, self.allocation_length);
        cdb.push(0);
        proof {
            assert(cdb@ =~= self.spec_command());
        }
        cdb
    }

    fn get_data(&self) -> (r: Vec<u8>) {
        let mut data: Vec<u8> = Vec::new();
        push_zeros(&mut data, self.allocation_length as usize);
        proof {
            assert(data@ =~= self.spec_data());
        }
        data
    }

    fn get_sense_buffer(&self) -> (r: Vec<u8>) {
        crate::sense::bytes_sense_buffer_value()
    }

    fn get_data_size(&self) -> (r: u32) {
        self.allocation_length as u32
    }

    fn process_result(&self, result: &ResultData) -> (r: Self::ReturnType) {
        if let Err(e) = result.check_ioctl_error() {
            return Err(e);
        }
        if let Err(e) = result.check_common_error() {
            return Err(e);
        }
        Ok(copy_bytes(result.data.as_slice()))
    }
}

/// The 32 bytes of standard inquiry data the library keeps: the leading
/// bytes it is not interested in, then the 16-byte product identification.
#[derive(Debug)]
pub struct StandardInquiryData {
    pub bytes: Vec<u8>,
}

impl StandardInquiryData {
    pub open spec fn wf(&self) -> bool {
        self.bytes@.len() == 32
    }

    /// Wraps a 32-byte standard inquiry reply; anything shorter or longer
    /// is rejected.
    pub fn from_bytes(bytes: Vec<u8>) -> (r: Option<StandardInquiryData>)
        ensures
            r is Some <==> bytes@.len() == 32,
            r is Some ==> r.unwrap().bytes@ == bytes@ && r.unwrap().wf(),
    {
        if bytes.len() == 32 {
            Some(StandardInquiryData { bytes })
        } else {
            Option::None
        }
    }

    /// The product identification field: bytes 16 through 31.
    pub fn product_identification(&self) -> (r: Vec<u8>)
        requires
            self.wf(),
        ensures
            r@ == self.bytes@.subrange(16, 32),
    {
        subrange_bytes(self.bytes.as_slice(), 16, 32)
    }
}

/// The 64-byte Block Limits vital product data page.
#[derive(Debug)]
pub struct BlockLimitsVPDPage {
    pub bytes: Vec<u8>,
}

impl BlockLimitsVPDPage {
    pub open spec fn wf(&self) -> bool {
        self.bytes@.len() == 64
    }

    /// Wraps a 64-byte Block Limits page reply; anything else is rejected.
    pub fn from_bytes(bytes: Vec<u8>) -> (r: Option<BlockLimitsVPDPage>)
        ensures
            r is Some <==> bytes@.len() == 64,
            r is Some ==> r.unwrap().bytes@ == bytes@ && r.unwrap().wf(),
    {
        if bytes.len() == 64 {
            Some(BlockLimitsVPDPage { bytes })
        } else {
            Option::None
        }
    }

    /// The maximum unmap LBA count: big-endian 32 bits at byte offset 20.
    pub fn maximum_unmap_lba_count(&self) -> (r: u32)
        requires
            self.wf(),
        ensures
            r == spec_read_be32(self.bytes@, 20),
    {
        crate::codec::read_be32(self.bytes.as_slice(), 20)
    }
}

/// The 64-byte Logical Block Provisioning vital product data page.
#[derive(Debug)]
pub struct LogicalBlockProvisioningVPDPage {
    pub bytes: Vec<u8>,
}

impl LogicalBlockProvisioningVPDPage {
    pub open spec fn wf(&self) -> bool {
        self.bytes@.len() == 64
    }

    /// Wraps a 64-byte Logical Block Provisioning page reply; anything
    /// else is rejected.
    pub fn from_bytes(bytes: Vec<u8>) -> (r: Option<LogicalBlockProvisioningVPDPage>)
        ensures
            r is Some <==> bytes@.len() == 64,
            r is Some ==> r.unwrap().bytes@ == bytes@ && r.unwrap().wf(),
    {
        if bytes.len() == 64 {
            Some(LogicalBlockProvisioningVPDPage { bytes })
        } else {
            Option::None
        }
    }

    /// Whether the device supports Unmap: the LBPU bit, bit 7 of byte 5.
    pub fn unmap_supported(&self) -> (r: bool)
        requires
            self.wf(),
        ensures
            r == (self.bytes@[5] / 0x80 != 0),
    {
        self.bytes[5] / 0x80 != 0
    }
}

} // verus!
