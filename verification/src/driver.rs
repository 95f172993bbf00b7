//! The driver: which transaction reads a quantity, and what its outcome means.
//!
//! The driver never touches the bus. For each quantity it names the one
//! write-then-read transaction that fetches it, and it turns the outcome of that
//! transaction, the two bytes read or the error of the transport, into the
//! reading or the same error.

use core::marker::PhantomData;
use vstd::prelude::*;

use crate::decode::{microvolts, nanoamps, spec_microvolts, spec_nanoamps, spec_word, word};
use crate::registers::{
    device_addr, reg_addr, spec_device_addr, spec_reg_addr, Registers, ADDR_LOWER,
};
use crate::status::Status;

verus! {

/// Number of bytes that every read of a register returns.
pub const RESPONSE_LEN: usize = 2;

/// The quantities that the driver reads.
#[derive(Clone, Copy, Debug, PartialEq, Eq, Structural)]
pub enum Query {
    /// The alert and event flags.
    Status,
    /// The reported state of charge.
    StateOfCharge,
    /// The pack voltage.
    Voltage,
    /// The instantaneous current.
    Current,
}

/// One write-then-read transaction: write the single byte `offset` to the
/// device at bus address `device`, then read `RESPONSE_LEN` bytes from it.
#[derive(Clone, Copy, Debug, PartialEq, Eq, Structural)]
pub struct Request {
    /// 7-bit bus address of the device.
    pub device: u8,
    /// The byte to write: the register's offset within its bank.
    pub offset: u8,
}

impl Query {
    /// The register that holds the quantity.
    pub open spec fn spec_register(self) -> Registers {
        match self {
            Query::Status => Registers::Status,
            Query::StateOfCharge => Registers::RepSOC,
            Query::Voltage => Registers::Batt,
            Query::Current => Registers::Current,
        }
    }

    /// The register that holds the quantity.
    #[verifier::when_used_as_spec(spec_register)]
    pub fn register(self) -> (reg: Registers)
        ensures
            reg == self.spec_register(),
    {
        match self {
            Query::Status => Registers::Status,
            Query::StateOfCharge => Registers::RepSOC,
            Query::Voltage => Registers::Batt,
            Query::Current => Registers::Current,
        }
    }

    /// The transaction that reads the quantity.
    pub open spec fn spec_request(self) -> Request {
        Request {
            device: spec_device_addr(self.spec_register()),
            offset: spec_reg_addr(self.spec_register()),
        }
    }

    /// The transaction that reads the quantity: the offset of its register,
    /// written to the bus address of the register's bank.
    #[verifier::when_used_as_spec(spec_request)]
    pub fn request(self) -> (request: Request)
        ensures
            request == self.spec_request(),
            request.device == ADDR_LOWER,
            request.offset == self.spec_register().spec_address(),
    {
        let reg = self.register();
        Request { device: device_addr(reg), offset: reg_addr(reg) }
    }
}

/// What the outcome `response` of the status transaction means: the flags of
/// the word read, or the error of the transport.
pub open spec fn spec_status<E>(response: Result<[u8; 2], E>) -> Result<Status, E> {
    match response {
        Ok(raw) => Ok(Status::spec_decode(spec_word(raw))),
        Err(e) => Err(e),
    }
}

/// What the outcome `response` of the state-of-charge transaction means: the
/// word read, which counts 1/256 of a percent, or the error of the transport.
pub open spec fn spec_state_of_charge<E>(response: Result<[u8; 2], E>) -> Result<u16, E> {
    match response {
        Ok(raw) => Ok(spec_word(raw)),
        Err(e) => Err(e),
    }
}

/// What the outcome `response` of the voltage transaction means: the pack
/// voltage in microvolts, or the error of the transport.
pub open spec fn spec_voltage<E>(response: Result<[u8; 2], E>) -> Result<u32, E> {
    match response {
        Ok(raw) => Ok(spec_microvolts(spec_word(raw))),
        Err(e) => Err(e),
    }
}

/// What the outcome `response` of the current transaction means: the current in
/// nanoamperes, or the error of the transport.
pub open spec fn spec_current<E>(response: Result<[u8; 2], E>) -> Result<i64, E> {
    match response {
        Ok(raw) => Ok(spec_nanoamps(spec_word(raw))),
        Err(e) => Err(e),
    }
}

/// A handle on a MAX1720x fuel gauge behind a bus of type `I2C` whose
/// transactions fail with `E`. It holds no state of the gauge.
pub struct MAX1720x<I2C, E> {
    phantom: PhantomData<I2C>,
    phantom_e: PhantomData<E>,
}

impl<I2C, E> MAX1720x<I2C, E> {
    /// Make a new driver for the gauge on `_bus`. The bus is left as it is.
    pub fn new(_bus: &mut I2C) -> (driver: Self)
        ensures
            *final(_bus) == *old(_bus),
    {
        Self { phantom: PhantomData, phantom_e: PhantomData }
    }

    /// Get the fuel gauge status from the outcome of `Query::Status.request()`.
    pub fn status(&mut self, response: Result<[u8; 2], E>) -> (result: Result<Status, E>)
        ensures
            result == spec_status(response),
            response is Err ==> result is Err && result->Err_0 == response->Err_0,
            *final(self) == *old(self),
    {
        match response {
            Ok(raw) => Ok(Status::decode(word(raw))),
            Err(e) => Err(e),
        }
    }

    /// Get the estimated state of charge, in 1/256 of a percent, from the
    /// outcome of `Query::StateOfCharge.request()`.
    pub fn state_of_charge(&mut self, response: Result<[u8; 2], E>) -> (result: Result<u16, E>)
        ensures
            result == spec_state_of_charge(response),
            response is Err ==> result is Err && result->Err_0 == response->Err_0,
            *final(self) == *old(self),
    {
        match response {
            Ok(raw) => Ok(word(raw)),
            Err(e) => Err(e),
        }
    }

    /// Get the pack voltage, in microvolts, from the outcome of
    /// `Query::Voltage.request()`.
    pub fn voltage(&mut self, response: Result<[u8; 2], E>) -> (result: Result<u32, E>)
        ensures
            result == spec_voltage(response),
            response is Err ==> result is Err && result->Err_0 == response->Err_0,
            *final(self) == *old(self),
    {
        match response {
            Ok(raw) => Ok(microvolts(word(raw))),
            Err(e) => Err(e),
        }
    }

    /// Get the pack current, in nanoamperes, from the outcome of
    /// `Query::Current.request()`. A negative current discharges the pack.
    pub fn current(&mut self, response: Result<[u8; 2], E>) -> (result: Result<i64, E>)
        ensures
            result == spec_current(response),
            response is Err ==> result is Err && result->Err_0 == response->Err_0,
            *final(self) == *old(self),
    {
        match response {
            Ok(raw) => Ok(nanoamps(word(raw))),
            Err(e) => Err(e),
        }
    }
}

/// Reading is repeatable: two transactions that return the same two bytes give
/// the same reading, whichever quantity is read.
pub proof fn lemma_same_bytes_same_reading<E>(first: [u8; 2], second: [u8; 2])
    requires
        first[0] == second[0],
        first[1] == second[1],
    ensures
        spec_status::<E>(Ok(first)) == spec_status::<E>(Ok(second)),
        spec_state_of_charge::<E>(Ok(first)) == spec_state_of_charge::<E>(Ok(second)),
        spec_voltage::<E>(Ok(first)) == spec_voltage::<E>(Ok(second)),
        spec_current::<E>(Ok(first)) == spec_current::<E>(Ok(second)),
{
}

/// A failed transaction yields its own error and no reading, whichever quantity
/// is read.
pub proof fn lemma_error_is_passed_on<E>(error: E)
    ensures
        spec_status(Err::<[u8; 2], E>(error)) == Err::<Status, E>(error),
        spec_state_of_charge(Err::<[u8; 2], E>(error)) == Err::<u16, E>(error),
        spec_voltage(Err::<[u8; 2], E>(error)) == Err::<u32, E>(error),
        spec_current(Err::<[u8; 2], E>(error)) == Err::<i64, E>(error),
{
}

} // verus!
