use vstd::prelude::*;

use crate::charger::ChargerFunctionSetting;
use crate::device::ADP5360;
use crate::register::Register;
use crate::transaction::{read_outcome, Transaction};

verus! {

/// Writing `value` to `register` is exactly one plain write, directed at the
/// device's address, whose payload is `[register address, value]`, and which
/// reads nothing back.
pub proof fn lemma_write_register_transaction<I2C>(
    dev: ADP5360<I2C>,
    register: Register,
    value: u8,
)
    ensures
        dev.write_request(register, value) is Write,
        dev.write_request(register, value).spec_target() == dev.spec_address(),
        dev.write_request(register, value).spec_payload() == seq![register.spec_address(), value],
        dev.write_request(register, value).spec_read_len() == 0,
{
}

/// Reading `register` is exactly one write-then-read, directed at the device's
/// address, whose write payload is `[register address]` and whose read buffer
/// holds one byte; a successful read returns the byte that the transport
/// supplied.
pub proof fn lemma_read_register_transaction<I2C, E>(
    dev: ADP5360<I2C>,
    register: Register,
    byte: u8,
)
    ensures
        dev.read_request(register) is WriteRead,
        dev.read_request(register).spec_target() == dev.spec_address(),
        dev.read_request(register).spec_payload() == seq![register.spec_address()],
        dev.read_request(register).spec_read_len() == 1,
        read_outcome::<E>(Ok(()), byte) == Ok::<u8, E>(byte),
{
}

/// Enabling the charger is the same transaction as writing 0x01 (the
/// enable-charging bit) to the Charger Function Setting register at 0x07.
pub proof fn lemma_enable_charger_is_register_write<I2C>(dev: ADP5360<I2C>)
    ensures
        Register::ChargerFunctionSetting.spec_address() == 0x07,
        ChargerFunctionSetting::EN_CHG == 0x01,
        dev.write_request(Register::ChargerFunctionSetting, ChargerFunctionSetting::EN_CHG)
            == dev.write_request(Register::ChargerFunctionSetting, 0x01),
        dev.write_request(Register::ChargerFunctionSetting, 0x01).spec_payload() == seq![0x07u8, 0x01u8],
{
}

/// The battery read fetches the one-byte Battery SOC register at 0x21 and
/// returns its raw content, the single byte that the transport supplied.
pub proof fn lemma_battery_read<I2C, E>(dev: ADP5360<I2C>, byte: u8)
    ensures
        Register::BatterySoc.spec_address() == 0x21,
        dev.read_request(Register::BatterySoc).spec_target() == dev.spec_address(),
        dev.read_request(Register::BatterySoc).spec_payload() == seq![0x21u8],
        dev.read_request(Register::BatterySoc).spec_read_len() == 1,
        read_outcome::<E>(Ok(()), byte) == Ok::<u8, E>(byte),
{
}

/// Reading a register twice issues two full transactions, each fixed by the
/// device address and the register alone, and each read returns what the
/// transport supplied that time: nothing is cached between reads.
pub proof fn lemma_reads_are_not_cached<I2C, E>(
    dev: ADP5360<I2C>,
    register: Register,
    first: u8,
    second: u8,
)
    ensures
        dev.read_request(register) == (Transaction::WriteRead {
            address: dev.spec_address(),
            register: register.spec_address(),
        }),
        read_outcome::<E>(Ok(()), first) == Ok::<u8, E>(first),
        read_outcome::<E>(Ok(()), second) == Ok::<u8, E>(second),
{
}

/// A transport fault on a register read is returned unchanged, whatever the
/// read buffer holds.
pub proof fn lemma_read_fault_propagates<E>(fault: E, byte: u8)
    ensures
        read_outcome::<E>(Err(fault), byte) == Err::<u8, E>(fault),
{
}

/// Setting or clearing a mask that leaves out the reserved bit of the Charger
/// Function Setting register keeps that bit as it was read.
pub proof fn lemma_masks_keep_reserved_bit(current: u8, mask: u8)
    requires
        mask & ChargerFunctionSetting::RESERVED == 0,
    ensures
        (current | mask) & ChargerFunctionSetting::RESERVED == current & ChargerFunctionSetting::RESERVED,
        (current & !mask) & ChargerFunctionSetting::RESERVED == current & ChargerFunctionSetting::RESERVED,
{
    assert((current | mask) & 0x20u8 == current & 0x20u8 && (current & !mask) & 0x20u8 == current & 0x20u8)
        by (bit_vector)
        requires
            mask & 0x20u8 == 0,
    ;
}

} // verus!
