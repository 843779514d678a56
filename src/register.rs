use vstd::prelude::*;

verus! {
/// The I2C registers of the ADP5360, each at a fixed offset of its memory map.
#[derive(Clone, Copy, Debug, PartialEq, Eq, Structural)]
pub enum Register {
    /// Manufacturer and Model ID.
    ManufacturerModelId,
    /// Silicon Revision.
    SiliconRevision,
    /// Charger VBUS ILIM.
    ChargerVbusIlim,
    /// Charger Termination Setting.
    ChargerTerminationSetting,
    /// Charger Current Setting.
    ChargerCurrentSetting,
    /// Charger Voltage Threshold.
    ChargerVoltageThreshold,
    /// Charger Timer Setting.
    ChargerTimerSetting,
    /// Charger Function Setting.
    ChargerFunctionSetting,
    /// Charger Status 1.
    ChargerStatus1,
    /// Charger Status 2.
    ChargerStatus2,
    /// Battery Thermistor Control.
    BatteryThermistorControl,
    /// Thermistor 60 C Threshold.
    Thermistor60CThreshold,
    /// Thermistor 45 C Threshold.
    Thermistor45CThreshold,
    /// Thermistor 10 C Threshold.
    Thermistor10CThreshold,
    /// Thermistor 0 C Threshold.
    Thermistor0CThreshold,
    /// Threshold Voltage Low.
    ThresholdVoltageLow,
    /// Threshold Voltage High.
    ThresholdVoltageHigh,
    /// Battery Protection Control.
    BatteryProtectionControl,
    /// Battery Protection Undervoltage Setting.
    BatteryProtectionUndervoltageSetting,
    /// Battery Protection Overcharge Setting.
    BatteryProtectionOverchargeSetting,
    /// Battery Protection Overvoltage Setting.
    BatteryProtectionOvervoltageSetting,
    /// Battery Protection Charge Overcharge Setting.
    BatteryProtectionChargeOverchargeSetting,
    /// Voltage SOC 0.
    VoltageSoc0,
    /// Voltage SOC 5.
    VoltageSoc5,
    /// Voltage SOC 11.
    VoltageSoc11,
    /// Voltage SOC 19.
    VoltageSoc19,
    /// Voltage SOC 28.
    VoltageSoc28,
    /// Voltage SOC 41.
    VoltageSoc41,
    /// Voltage SOC 55.
    VoltageSoc55,
    /// Voltage SOC 69.
    VoltageSoc69,
    /// Voltage SOC 84.
    VoltageSoc84,
    /// Voltage SOC 100.
    VoltageSoc100,
    /// Battery Capacity.
    BatteryCapacity,
    /// Battery SOC.
    BatterySoc,
    /// Battery SOC Accumulation Control.
    BatterySocAccumulationControl,
    /// Battery SOC Accumulation High.
    BatterySocAccumulationHigh,
    /// Battery SOC Accumulation Low.
    BatterySocAccumulationLow,
    /// PGOOD Status.
    PGoodStatus,
    /// PGOOD1 Mask.
    PGood1Mask,
    /// PGOOD2 Mask.
    PGood2Mask,
    /// Interrupt Enable 1.
    InterruptEnable1,
    /// Interrupt Enable 2.
    InterruptEnable2,
    /// Interrupt Flag 1.
    InterruptFlag1,
    /// Interrupt Flag 2.
    InterruptFlag2,
    /// Ship Mode.
    ShipMode,
}

impl Register {
    /// The offset of the register in the device's memory map.
    pub open spec fn spec_address(self) -> u8 {
        match self {
            Register::ManufacturerModelId => 0x00,
            Register::SiliconRevision => 0x01,
            Register::ChargerVbusIlim => 0x02,
            Register::ChargerTerminationSetting => 0x03,
            Register::ChargerCurrentSetting => 0x04,
            Register::ChargerVoltageThreshold => 0x05,
            Register::ChargerTimerSetting => 0x06,
            Register::ChargerFunctionSetting => 0x07,
            Register::ChargerStatus1 => 0x08,
            Register::ChargerStatus2 => 0x09,
            Register::BatteryThermistorControl => 0x0A,
            Register::Thermistor60CThreshold => 0x0B,
            Register::Thermistor45CThreshold => 0x0C,
            Register::Thermistor10CThreshold => 0x0D,
            Register::Thermistor0CThreshold => 0x0E,
            Register::ThresholdVoltageLow => 0x0F,
            Register::ThresholdVoltageHigh => 0x10,
            Register::BatteryProtectionControl => 0x11,
            Register::BatteryProtectionUndervoltageSetting => 0x12,
            Register::BatteryProtectionOverchargeSetting => 0x13,
            Register::BatteryProtectionOvervoltageSetting => 0x14,
            Register::BatteryProtectionChargeOverchargeSetting => 0x15,
            Register::VoltageSoc0 => 0x16,
            Register::VoltageSoc5 => 0x17,
            Register::VoltageSoc11 => 0x18,
            Register::VoltageSoc19 => 0x19,
            Register::VoltageSoc28 => 0x1A,
            Register::VoltageSoc41 => 0x1B,
            Register::VoltageSoc55 => 0x1C,
            Register::VoltageSoc69 => 0x1D,
            Register::VoltageSoc84 => 0x1E,
            Register::VoltageSoc100 => 0x1F,
            Register::BatteryCapacity => 0x20,
            Register::BatterySoc => 0x21,
            Register::BatterySocAccumulationControl => 0x22,
            Register::BatterySocAccumulationHigh => 0x23,
            Register::BatterySocAccumulationLow => 0x24,
            Register::PGoodStatus => 0x2F,
            Register::PGood1Mask => 0x30,
            Register::PGood2Mask => 0x31,
            Register::InterruptEnable1 => 0x32,
            Register::InterruptEnable2 => 0x33,
            Register::InterruptFlag1 => 0x34,
            Register::InterruptFlag2 => 0x35,
            Register::ShipMode => 0x36,
        }
    }

    /// The offset of the register, as sent on the bus to select it.
    pub fn address(&self) -> (r: u8)
        ensures
            r == self.spec_address(),
    {
        match self {
            Register::ManufacturerModelId => 0x00,
            Register::SiliconRevision => 0x01,
            Register::ChargerVbusIlim => 0x02,
            Register::ChargerTerminationSetting => 0x03,
            Register::ChargerCurrentSetting => 0x04,
            Register::ChargerVoltageThreshold => 0x05,
            Register::ChargerTimerSetting => 0x06,
            Register::ChargerFunctionSetting => 0x07,
            Register::ChargerStatus1 => 0x08,
            Register::ChargerStatus2 => 0x09,
            Register::BatteryThermistorControl => 0x0A,
            Register::Thermistor60CThreshold => 0x0B,
            Register::Thermistor45CThreshold => 0x0C,
            Register::Thermistor10CThreshold => 0x0D,
            Register::Thermistor0CThreshold => 0x0E,
            Register::ThresholdVoltageLow => 0x0F,
            Register::ThresholdVoltageHigh => 0x10,
            Register::BatteryProtectionControl => 0x11,
            Register::BatteryProtectionUndervoltageSetting => 0x12,
            Register::BatteryProtectionOverchargeSetting => 0x13,
            Register::BatteryProtectionOvervoltageSetting => 0x14,
            Register::BatteryProtectionChargeOverchargeSetting => 0x15,
            Register::VoltageSoc0 => 0x16,
            Register::VoltageSoc5 => 0x17,
            Register::VoltageSoc11 => 0x18,
            Register::VoltageSoc19 => 0x19,
            Register::VoltageSoc28 => 0x1A,
            Register::VoltageSoc41 => 0x1B,
            Register::VoltageSoc55 => 0x1C,
            Register::VoltageSoc69 => 0x1D,
            Register::VoltageSoc84 => 0x1E,
            Register::VoltageSoc100 => 0x1F,
            Register::BatteryCapacity => 0x20,
            Register::BatterySoc => 0x21,
            Register::BatterySocAccumulationControl => 0x22,
            Register::BatterySocAccumulationHigh => 0x23,
            Register::BatterySocAccumulationLow => 0x24,
            Register::PGoodStatus => 0x2F,
            Register::PGood1Mask => 0x30,
            Register::PGood2Mask => 0x31,
            Register::InterruptEnable1 => 0x32,
            Register::InterruptEnable2 => 0x33,
            Register::InterruptFlag1 => 0x34,
            Register::InterruptFlag2 => 0x35,
            Register::ShipMode => 0x36,
        }
    }
}

} // verus!
