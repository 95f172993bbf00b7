//! The register map and the rule that turns a register into a bus address and
//! an offset.

use vstd::prelude::*;

verus! {

/// Bus address (7-bit) on which the gauge serves its lower register bank.
pub const ADDR_LOWER: u8 = 0x36;

/// Bus address (7-bit) on which the gauge serves its upper register bank.
pub const ADDR_UPPER: u8 = 0x0b;

/// The registers of the gauge that this crate knows by name.
#[derive(Clone, Copy, Debug, PartialEq, Eq, Structural)]
pub enum Registers {
    /// Status flags.
    Status,
    /// Reported capacity, LSB = 0.5 mAh.
    RepCap,
    /// Reported state of charge, LSB = 1/256 %.
    RepSOC,
    /// Lowest of the cell voltages, LSB = 0.078125 mV.
    Voltage,
    /// Instantaneous current, LSB = 156.25 uA.
    Current,
    /// Time to empty.
    Tte,
    /// Time to full.
    Ttf,
    /// Full capacity, LSB = 0.5 mAh.
    FullCapRep,
    /// Raw coulomb count.
    Coulomb,
    /// Pack voltage, LSB = 1.25 mV.
    Batt,
    /// Pack configuration.
    NPackCfg,
    /// Unique 64-bit ROM id.
    NRomID,
    /// Sense resistor.
    NRSense,
}

impl Registers {
    /// The register's address in the gauge's 9-bit register space.
    pub open spec fn spec_address(self) -> u16 {
        match self {
            Registers::Status => 0x000,
            Registers::RepCap => 0x005,
            Registers::RepSOC => 0x006,
            Registers::Voltage => 0x009,
            Registers::Current => 0x00A,
            Registers::Tte => 0x011,
            Registers::Ttf => 0x020,
            Registers::FullCapRep => 0x035,
            Registers::Coulomb => 0x04D,
            Registers::Batt => 0x0DA,
            Registers::NPackCfg => 0x1B5,
            Registers::NRomID => 0x1BC,
            Registers::NRSense => 0x1CF,
        }
    }

    /// The register's address in the gauge's 9-bit register space.
    #[verifier::when_used_as_spec(spec_address)]
    pub fn address(self) -> (a: u16)
        ensures
            a == self.spec_address(),
            a <= 0x1FF,
    {
        match self {
            Registers::Status => 0x000,
            Registers::RepCap => 0x005,
            Registers::RepSOC => 0x006,
            Registers::Voltage => 0x009,
            Registers::Current => 0x00A,
            Registers::Tte => 0x011,
            Registers::Ttf => 0x020,
            Registers::FullCapRep => 0x035,
            Registers::Coulomb => 0x04D,
            Registers::Batt => 0x0DA,
            Registers::NPackCfg => 0x1B5,
            Registers::NRomID => 0x1BC,
            Registers::NRSense => 0x1CF,
        }
    }
}

/// The bus address that serves the register address `address`: the upper one
/// strictly above 0x100, the lower one up to and including 0x100.
pub open spec fn spec_bank_addr(address: u16) -> u8 {
    if address > 0x100 {
        ADDR_UPPER
    } else {
        ADDR_LOWER
    }
}

/// Return the bus address that serves the register address `address`.
#[verifier::when_used_as_spec(spec_bank_addr)]
pub fn bank_addr(address: u16) -> (device: u8)
    ensures
        device == spec_bank_addr(address),
        address > 0x100 ==> device == ADDR_UPPER,
        address <= 0x100 ==> device == ADDR_LOWER,
{
    if address > 0x100 {
        ADDR_UPPER
    } else {
        ADDR_LOWER
    }
}

/// The bus address used to reach `reg`.
pub open spec fn spec_device_addr(reg: Registers) -> u8 {
    spec_bank_addr(reg.spec_address())
}

/// Return the bus address used to communicate when accessing this register.
#[verifier::when_used_as_spec(spec_device_addr)]
pub fn device_addr(reg: Registers) -> (device: u8)
    ensures
        device == spec_device_addr(reg),
        reg.spec_address() > 0x100 ==> device == ADDR_UPPER,
        reg.spec_address() <= 0x100 ==> device == ADDR_LOWER,
{
    bank_addr(reg.address())
}

/// The offset of `reg` within its bank: the low eight bits of its address.
pub open spec fn spec_reg_addr(reg: Registers) -> u8 {
    (reg.spec_address() % 0x100) as u8
}

/// Return the register offset used to access this register.
#[verifier::when_used_as_spec(spec_reg_addr)]
pub fn reg_addr(reg: Registers) -> (offset: u8)
    ensures
        offset == spec_reg_addr(reg),
        offset == reg.spec_address() & 0xFF,
{
    let address: u16 = reg.address();
    assert(address & 0xFF == address % 0x100) by (bit_vector);
    assert(address & 0xFF < 0x100) by (bit_vector);
    (address & 0xFF) as u8
}

/// Every register lies in the gauge's 9-bit register space.
pub proof fn lemma_address_in_range(reg: Registers)
    ensures
        reg.spec_address() <= 0x1FF,
{
}

/// No register sits on the boundary address 0x100 itself, so for every register
/// the strict comparison of the addressing rule selects the bank that the
/// register's address lies in: the upper one from 0x100 on, the lower one below.
pub proof fn lemma_device_addr_is_bank(reg: Registers)
    ensures
        reg.spec_address() != 0x100,
        spec_device_addr(reg) == ADDR_UPPER <==> reg.spec_address() >= 0x100,
        spec_device_addr(reg) == ADDR_LOWER <==> reg.spec_address() < 0x100,
{
}

/// Bus address and offset together identify the register: two registers that
/// are reached by the same address and offset are the same register.
pub proof fn lemma_addressing_is_injective(a: Registers, b: Registers)
    requires
        spec_device_addr(a) == spec_device_addr(b),
        spec_reg_addr(a) == spec_reg_addr(b),
    ensures
        a == b,
{
}

} // verus!
