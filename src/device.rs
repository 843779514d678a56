use vstd::prelude::*;

use crate::charger::ChargerFunctionSetting;
use crate::register::Register;
use crate::transaction::Transaction;

verus! {

/// Driver state for one ADP5360: the bus that reaches it, owned exclusively,
/// and its 7-bit device address, fixed at construction.
///
/// Each operation yields the single bus transaction that carries it out; the
/// caller issues it on the bus and, for a read, hands the outcome to
/// `read_result`.
pub struct ADP5360<I2C> {
    i2c: I2C,
    address: u8,
}

impl<I2C> ADP5360<I2C> {
    /// The device address given at construction.
    pub closed spec fn spec_address(&self) -> u8 {
        self.address
    }

    /// The bus that the driver owns.
    pub closed spec fn spec_bus(&self) -> I2C {
        self.i2c
    }

    /// The transaction that writes `value` to `register`.
    pub open spec fn write_request(&self, register: Register, value: u8) -> Transaction {
        Transaction::Write { address: self.spec_address(), register: register.spec_address(), value }
    }

    /// The transaction that reads `register`.
    pub open spec fn read_request(&self, register: Register) -> Transaction {
        Transaction::WriteRead { address: self.spec_address(), register: register.spec_address() }
    }

    /// Creates a driver for the device at `address` (typically 0x68) on `i2c`.
    ///
    /// The address is not checked: a wrong one shows as a bus fault.
    pub fn new(i2c: I2C, address: u8) -> (r: Self)
        ensures
            r.spec_address() == address,
            r.spec_bus() == i2c,
    {
        ADP5360 { i2c, address }
    }

    /// The device address given at construction.
    pub fn address(&self) -> (r: u8)
        ensures
            r == self.spec_address(),
    {
        self.address
    }

    /// The bus, to issue a transaction on; the device address stays as it was.
    pub fn bus_mut(&mut self) -> (r: &mut I2C)
        ensures
            *r == old(self).spec_bus(),
            final(self).spec_bus() == *final(r),
            final(self).spec_address() == old(self).spec_address(),
    {
        &mut self.i2c
    }

    /// The single write that stores `value` in `register`: `[register, value]`
    /// sent to the device address.
    pub fn write_register(&self, register: Register, value: u8) -> (t: Transaction)
        ensures
            t == self.write_request(register, value),
    {
        Transaction::Write { address: self.address, register: register.address(), value }
    }

    /// The single write-then-read that fetches `register`: `[register]` sent
    /// to the device address, then one byte received.
    pub fn read_register(&self, register: Register) -> (t: Transaction)
        ensures
            t == self.read_request(register),
    {
        Transaction::WriteRead { address: self.address, register: register.address() }
    }

    /// The write that enables the battery charger.
    ///
    /// It stores the enable-charging bit as the whole Charger Function Setting
    /// byte, so the other bits of that register are cleared; use `set_bits`
    /// on a value read first to keep them.
    pub fn enable_charger(&self) -> (t: Transaction)
        ensures
            t == self.write_request(Register::ChargerFunctionSetting, ChargerFunctionSetting::EN_CHG),
            t == (Transaction::Write { address: self.spec_address(), register: 0x07, value: 0x01 }),
    {
        self.write_register(Register::ChargerFunctionSetting, ChargerFunctionSetting::EN_CHG)
    }

    /// The read of the battery gauge: the one-byte Battery SOC register (0x21),
    /// whose raw content is the result.
    pub fn read_battery_voltage(&self) -> (t: Transaction)
        ensures
            t == self.read_request(Register::BatterySoc),
            t == (Transaction::WriteRead { address: self.spec_address(), register: 0x21 }),
    {
        self.read_register(Register::BatterySoc)
    }

    /// The write of a read-modify-write that sets the bits of `mask` in
    /// `register`, whose content was read as `current`.
    pub fn set_bits(&self, register: Register, current: u8, mask: u8) -> (t: Transaction)
        ensures
            t == self.write_request(register, current | mask),
    {
        self.write_register(register, current | mask)
    }

    /// The write of a read-modify-write that clears the bits of `mask` in
    /// `register`, whose content was read as `current`.
    pub fn clear_bits(&self, register: Register, current: u8, mask: u8) -> (t: Transaction)
        ensures
            t == self.write_request(register, current & !mask),
    {
        self.write_register(register, current & !mask)
    }
}

} // verus!
