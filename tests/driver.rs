use adp5360::{read_result, ChargerFunctionSetting, Register, Transaction, ADP5360};

/// A stand-in for a bus: it records nothing and is only carried by the driver.
#[derive(Debug, PartialEq)]
struct Bus {
    id: u32,
}

#[derive(Debug, PartialEq, Clone, Copy)]
enum BusFault {
    Nack,
    ArbitrationLoss,
}

fn pmic() -> ADP5360<Bus> {
    ADP5360::new(Bus { id: 1 }, 0x68)
}

#[test]
fn test_enable_charger() {
    let adp5360 = pmic();
    let t = adp5360.enable_charger();
    assert_eq!(t, Transaction::Write { address: 0x68, register: 0x07, value: 0x01 });
    assert_eq!(t.target(), 0x68);
    assert_eq!(t.payload(), vec![0x07, 0x01]);
    assert_eq!(t.read_len(), 0);
}

#[test]
fn test_read_battery_voltage() {
    let adp5360 = pmic();
    let t = adp5360.read_battery_voltage();
    assert_eq!(t.target(), 0x68);
    assert_eq!(t.payload(), vec![Register::BatterySoc.address()]);
    assert_eq!(t.read_len(), 1);
    let result = read_result::<BusFault>(Ok(()), 0x12);
    assert!(result.is_ok());
    assert_eq!(result.unwrap(), 0x12);
}

#[test]
fn test_read_register() {
    let adp5360 = pmic();
    let t = adp5360.read_register(Register::ChargerStatus1);
    assert_eq!(t.target(), 0x68);
    assert_eq!(t.payload(), vec![Register::ChargerStatus1.address()]);
    assert_eq!(t.read_len(), 1);
    let result = read_result::<BusFault>(Ok(()), 0x55);
    assert!(result.is_ok());
    assert_eq!(result.unwrap(), 0x55);
}

#[test]
fn test_write_register() {
    let adp5360 = pmic();
    let t = adp5360.write_register(Register::ChargerFunctionSetting, 0x01);
    assert_eq!(t.target(), 0x68);
    assert_eq!(t.payload(), vec![Register::ChargerFunctionSetting.address(), 0x01]);
    assert_eq!(t.read_len(), 0);
}

#[test]
fn write_register_payload_is_address_then_value() {
    let adp5360 = ADP5360::new(Bus { id: 2 }, 0x46);
    let t = adp5360.write_register(Register::ShipMode, 0xA5);
    assert_eq!(t, Transaction::Write { address: 0x46, register: 0x36, value: 0xA5 });
    assert_eq!(t.payload(), vec![0x36, 0xA5]);
}

#[test]
fn read_register_is_one_write_read_of_one_byte() {
    let adp5360 = ADP5360::new(Bus { id: 3 }, 0x11);
    let t = adp5360.read_register(Register::InterruptFlag2);
    assert_eq!(t, Transaction::WriteRead { address: 0x11, register: 0x35 });
    assert_eq!(t.payload(), vec![0x35]);
    assert_eq!(t.read_len(), 1);
}

#[test]
fn enable_charger_equals_write_of_enable_bit() {
    let adp5360 = pmic();
    assert_eq!(adp5360.enable_charger(), adp5360.write_register(Register::ChargerFunctionSetting, 0x01));
}

#[test]
fn battery_read_targets_soc_register() {
    let adp5360 = pmic();
    assert_eq!(adp5360.read_battery_voltage(), Transaction::WriteRead { address: 0x68, register: 0x21 });
    assert_eq!(read_result::<BusFault>(Ok(()), 0x34), Ok(0x34));
}

#[test]
fn repeated_reads_are_not_cached() {
    let adp5360 = pmic();
    let first = adp5360.read_register(Register::ChargerStatus2);
    let second = adp5360.read_register(Register::ChargerStatus2);
    assert_eq!(first, second);
    assert_eq!(read_result::<BusFault>(Ok(()), 0x01), Ok(0x01));
    assert_eq!(read_result::<BusFault>(Ok(()), 0x02), Ok(0x02));
}

#[test]
fn read_fault_is_returned_unchanged() {
    assert_eq!(read_result(Err(BusFault::Nack), 0x77), Err(BusFault::Nack));
    assert_eq!(read_result(Err(BusFault::ArbitrationLoss), 0x00), Err(BusFault::ArbitrationLoss));
}

#[test]
fn scenario_enable_then_read_battery() {
    let adp5360 = pmic();
    assert_eq!(adp5360.address(), 0x68);
    let enable = adp5360.enable_charger();
    assert_eq!((enable.target(), enable.payload()), (0x68, vec![0x07, 0x01]));
    let read = adp5360.read_battery_voltage();
    assert_eq!((read.target(), read.payload(), read.read_len()), (0x68, vec![0x21], 1));
    assert_eq!(read_result::<BusFault>(Ok(()), 0x12), Ok(0x12));
}

#[test]
fn register_map_edges() {
    assert_eq!(Register::ManufacturerModelId.address(), 0x00);
    assert_eq!(Register::ChargerFunctionSetting.address(), 0x07);
    assert_eq!(Register::ThresholdVoltageHigh.address(), 0x10);
    assert_eq!(Register::BatterySoc.address(), 0x21);
    assert_eq!(Register::BatterySocAccumulationLow.address(), 0x24);
    assert_eq!(Register::PGoodStatus.address(), 0x2F);
    assert_eq!(Register::ShipMode.address(), 0x36);
}

#[test]
fn bus_can_be_reached_and_address_is_kept() {
    let mut adp5360 = pmic();
    adp5360.bus_mut().id = 9;
    assert_eq!(*adp5360.bus_mut(), Bus { id: 9 });
    assert_eq!(adp5360.address(), 0x68);
}

#[test]
fn set_and_clear_bits_keep_other_bits() {
    let adp5360 = pmic();
    let set = adp5360.set_bits(Register::ChargerFunctionSetting, 0x2C, ChargerFunctionSetting::EN_CHG);
    assert_eq!(set, Transaction::Write { address: 0x68, register: 0x07, value: 0x2D });
    let clear = adp5360.clear_bits(Register::ChargerFunctionSetting, 0x2D, ChargerFunctionSetting::EN_LDO);
    assert_eq!(clear, Transaction::Write { address: 0x68, register: 0x07, value: 0x25 });
}

#[test]
fn charger_flags_combine() {
    let chg = ChargerFunctionSetting::from_bits_retain(ChargerFunctionSetting::EN_CHG);
    let eoc = ChargerFunctionSetting::from_bits_retain(ChargerFunctionSetting::EN_EOC);
    let both = chg.union(eoc);
    assert_eq!(both.bits(), 0x05);
    assert!(both.contains(chg));
    assert!(!chg.contains(both));
    assert_eq!(both.difference(chg).bits(), 0x04);
    assert_eq!(ChargerFunctionSetting::empty().bits(), 0);

    let mut value = ChargerFunctionSetting::from_bits_retain(0xA0);
    value.insert(chg);
    assert_eq!(value.bits(), 0xA1);
    value.remove(ChargerFunctionSetting::from_bits_retain(ChargerFunctionSetting::EN_JEITA));
    assert_eq!(value.bits(), 0x21);
    assert!(value.contains(ChargerFunctionSetting::from_bits_retain(ChargerFunctionSetting::RESERVED)));
}

#[test]
fn charger_flag_masks() {
    assert_eq!(ChargerFunctionSetting::EN_CHG, 0x01);
    assert_eq!(ChargerFunctionSetting::EN_ADPICHG, 0x02);
    assert_eq!(ChargerFunctionSetting::EN_EOC, 0x04);
    assert_eq!(ChargerFunctionSetting::EN_LDO, 0x08);
    assert_eq!(ChargerFunctionSetting::OFF_ISOFET, 0x10);
    assert_eq!(ChargerFunctionSetting::RESERVED, 0x20);
    assert_eq!(ChargerFunctionSetting::ILIM_JEITA_COOL, 0x40);
    assert_eq!(ChargerFunctionSetting::EN_JEITA, 0x80);
}
