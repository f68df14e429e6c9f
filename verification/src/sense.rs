//! Sense buffers: the 255-byte variable form offered to most commands, and
//! the fixed structured form whose fields some commands intercept.
use vstd::prelude::*;
use crate::codec::spec_zeros;

verus! {

/// Length of the variable sense buffer.
pub const BYTES_SENSE_BUFFER_SIZE: usize = 255;

/// Length of the fixed structured sense buffer.
pub const FIXED_SENSE_BUFFER_SIZE: usize = 34;

/// A fresh zeroed variable sense buffer.
pub fn bytes_sense_buffer_value() -> (r: Vec<u8>)
    ensures
        r@ == spec_zeros(255),
{
    let mut v: Vec<u8> = Vec::new();
    crate::codec::push_zeros(&mut v, 255);
    proof {
        assert(v@ =~= spec_zeros(255));
    }
    v
}

/// The valid bit of a fixed sense buffer: bit 7 of byte 0.
pub open spec fn spec_sense_valid(s: Seq<u8>) -> bool {
    s.len() > 0 && s[0] / 0x80 != 0
}

/// The response code of a fixed sense buffer: low 7 bits of byte 0.
pub open spec fn spec_sense_response_code(s: Seq<u8>) -> u8 {
    if s.len() > 0 {
        (s[0] % 0x80) as u8
    } else {
        0
    }
}

/// The sense key of a fixed sense buffer: low 4 bits of byte 2.
pub open spec fn spec_sense_key(s: Seq<u8>) -> u8 {
    if s.len() > 2 {
        (s[2] % 0x10) as u8
    } else {
        0
    }
}

/// The additional sense code: byte 12.
pub open spec fn spec_additional_sense_code(s: Seq<u8>) -> u8 {
    if s.len() > 12 {
        s[12]
    } else {
        0
    }
}

/// The additional sense code qualifier: byte 13.
pub open spec fn spec_additional_sense_code_qualifier(s: Seq<u8>) -> u8 {
    if s.len() > 13 {
        s[13]
    } else {
        0
    }
}

/// The sense key of raw sense bytes.
pub fn sense_key_of(s: &[u8]) -> (r: u8)
    ensures
        r == spec_sense_key(s@),
{
    if s.len() > 2 {
        s[2] % 0x10
    } else {
        0
    }
}

/// The additional sense code of raw sense bytes.
pub fn additional_sense_code_of(s: &[u8]) -> (r: u8)
    ensures
        r == spec_additional_sense_code(s@),
{
    if s.len() > 12 {
        s[12]
    } else {
        0
    }
}

/// The additional sense code qualifier of raw sense bytes.
pub fn additional_sense_code_qualifier_of(s: &[u8]) -> (r: u8)
    ensures
        r == spec_additional_sense_code_qualifier(s@),
{
    if s.len() > 13 {
        s[13]
    } else {
        0
    }
}

/// The fixed structured sense buffer: valid bit, response code, sense key,
/// additional sense code and qualifier at their standard byte offsets.
#[derive(Debug)]
pub struct FixedSenseBuffer {
    pub bytes: Vec<u8>,
}

impl FixedSenseBuffer {
    /// The buffer holds exactly its fixed length.
    pub open spec fn wf(&self) -> bool {
        self.bytes@.len() == 34
    }

    /// A fresh zeroed fixed sense buffer.
    pub fn new() -> (r: FixedSenseBuffer)
        ensures
            r.wf(),
            r.bytes@ == spec_zeros(34),
    {
        let mut v: Vec<u8> = Vec::new();
        crate::codec::push_zeros(&mut v, 34);
        proof {
            assert(v@ =~= spec_zeros(34));
        }
        FixedSenseBuffer { bytes: v }
    }

    pub fn as_slice(&self) -> (r: &[u8])
        ensures
            r@ == self.bytes@,
    {
        self.bytes.as_slice()
    }

    pub fn valid(&self) -> (r: bool)
        ensures
            r == spec_sense_valid(self.bytes@),
    {
        self.bytes.len() > 0 && self.bytes[0] / 0x80 != 0
    }

    pub fn response_code(&self) -> (r: u8)
        ensures
            r == spec_sense_response_code(self.bytes@),
    {
        if self.bytes.len() > 0 {
            self.bytes[0] % 0x80
        } else {
            0
        }
    }

    pub fn sense_key(&self) -> (r: u8)
        ensures
            r == spec_sense_key(self.bytes@),
    {
        sense_key_of(self.bytes.as_slice())
    }

    pub fn additional_sense_code(&self) -> (r: u8)
        ensures
            r == spec_additional_sense_code(self.bytes@),
    {
        additional_sense_code_of(self.bytes.as_slice())
    }

    pub fn additional_sense_code_qualifier(&self) -> (r: u8)
        ensures
            r == spec_additional_sense_code_qualifier(self.bytes@),
    {
        additional_sense_code_qualifier_of(self.bytes.as_slice())
    }
}

/// A fresh zeroed fixed sense buffer.
pub fn fixed_sense_buffer_value() -> (r: FixedSenseBuffer)
    ensures
        r.wf(),
        r.bytes@ == spec_zeros(34),
{
    FixedSenseBuffer::new()
}

} // verus!
