//! The contract a command type satisfies: produce the command descriptor
//! block, the data buffer, the sense buffer and the transfer direction, and
//! interpret the raw outcome of the call into a typed result.
//!
//! The transport executor is generic over this trait: it sends exactly the
//! bytes `get_command` and `get_data` produce (the command's self-declared
//! `get_data_size` is authoritative for the transport), and hands the raw
//! outcome back to `process_result`.
use vstd::prelude::*;
use crate::data_direction::DataDirection;
use crate::result_data::ResultData;

verus! {

pub trait Command: Sized {
    type ReturnType;

    /// Direction of the data phase.
    spec fn spec_direction(&self) -> DataDirection;

    /// Exact bytes of the command descriptor block.
    spec fn spec_command(&self) -> Seq<u8>;

    /// Exact bytes of the data buffer handed to the transport: the payload
    /// for a write command, a zeroed receive buffer for a read command.
    spec fn spec_data(&self) -> Seq<u8>;

    /// The byte count the transport must transfer; authoritative, and at
    /// most the data buffer's length.
    spec fn spec_data_size(&self) -> u32;

    /// Length of the sense buffer to offer the driver.
    spec fn spec_sense_size(&self) -> nat;

    /// Holds when `r` is the typed outcome this command assigns to the raw
    /// result `result`.
    spec fn result_spec(&self, result: &ResultData, r: Self::ReturnType) -> bool;

    fn get_direction(&self) -> (r: DataDirection)
        ensures
            r == self.spec_direction(),
    ;

    fn get_command(&self) -> (r: Vec<u8>)
        ensures
            r@ == self.spec_command(),
    ;

    fn get_data(&self) -> (r: Vec<u8>)
        ensures
            r@ == self.spec_data(),
    ;

    fn get_sense_buffer(&self) -> (r: Vec<u8>)
        ensures
            r@ == crate::codec::spec_zeros(self.spec_sense_size()),
    ;

    fn get_data_size(&self) -> (r: u32)
        ensures
            r == self.spec_data_size(),
    ;

    fn process_result(&self, result: &ResultData) -> (r: Self::ReturnType)
        requires
            result.spec_wf(),
        ensures
            self.result_spec(result, r),
    ;
}

} // verus!
