//! Register catalog of the fuel gauge: bus addresses and register addresses.
//!
//! Every readable quantity of the device is selected by a one-byte register
//! address written at the start of a write-then-read transaction. The catalog
//! is a closed, fixed set; each variant carries its address through `value`.

use vstd::prelude::*;

verus! {

/// Bus addresses of the device.
#[derive(Copy, Clone, PartialEq, Eq, Structural, Debug)]
pub enum Address {
    /// The device itself: every read transaction is addressed here.
    Dev,
    /// Manufacturer-access sub-address; reserved, used by no read path.
    Mac,
}

impl Address {
    /// The one-byte bus address that the variant names.
    pub open spec fn spec_value(self) -> u8 {
        match self {
            Address::Dev => 0x0B,
            Address::Mac => 0x44,
        }
    }

    /// Executable form of [`Self::spec_value`].
    pub fn value(self) -> (r: u8)
        ensures
            r == self.spec_value(),
    {
        match self {
            Address::Dev => 0x0B,
            Address::Mac => 0x44,
        }
    }
}

/// Registers that reply with one two-byte little-endian word.
#[derive(Copy, Clone, PartialEq, Eq, Structural, Debug)]
pub enum Cmd {
    TemperatureReg,
    VoltageReg,
    CurrentReg,
    AverageCurrentReg,
    MaxErrorReg,
    RelativeSocReg,
    AbsoluteSocReg,
    RemainingCapacityReg,
    FullChargeCapacityReg,
    ChargingCurrentReg,
    ChargingVoltageReg,
    BatteryStatusReg,
    CycleCountReg,
    CellVoltage4Reg,
    CellVoltage3Reg,
    CellVoltage2Reg,
    CellVoltage1Reg,
    SohReg,
}

impl Cmd {
    /// The one-byte register address that the variant names.
    pub open spec fn spec_value(self) -> u8 {
        match self {
            Cmd::TemperatureReg => 0x08,
            Cmd::VoltageReg => 0x09,
            Cmd::CurrentReg => 0x0A,
            Cmd::AverageCurrentReg => 0x0B,
            Cmd::MaxErrorReg => 0x0C,
            Cmd::RelativeSocReg => 0x0D,
            Cmd::AbsoluteSocReg => 0x0E,
            Cmd::RemainingCapacityReg => 0x0F,
            Cmd::FullChargeCapacityReg => 0x10,
            Cmd::ChargingCurrentReg => 0x14,
            Cmd::ChargingVoltageReg => 0x15,
            Cmd::BatteryStatusReg => 0x16,
            Cmd::CycleCountReg => 0x17,
            Cmd::CellVoltage4Reg => 0x3C,
            Cmd::CellVoltage3Reg => 0x3D,
            Cmd::CellVoltage2Reg => 0x3E,
            Cmd::CellVoltage1Reg => 0x3F,
            Cmd::SohReg => 0x4F,
        }
    }

    /// Executable form of [`Self::spec_value`].
    pub fn value(self) -> (r: u8)
        ensures
            r == self.spec_value(),
    {
        match self {
            Cmd::TemperatureReg => 0x08,
            Cmd::VoltageReg => 0x09,
            Cmd::CurrentReg => 0x0A,
            Cmd::AverageCurrentReg => 0x0B,
            Cmd::MaxErrorReg => 0x0C,
            Cmd::RelativeSocReg => 0x0D,
            Cmd::AbsoluteSocReg => 0x0E,
            Cmd::RemainingCapacityReg => 0x0F,
            Cmd::FullChargeCapacityReg => 0x10,
            Cmd::ChargingCurrentReg => 0x14,
            Cmd::ChargingVoltageReg => 0x15,
            Cmd::BatteryStatusReg => 0x16,
            Cmd::CycleCountReg => 0x17,
            Cmd::CellVoltage4Reg => 0x3C,
            Cmd::CellVoltage3Reg => 0x3D,
            Cmd::CellVoltage2Reg => 0x3E,
            Cmd::CellVoltage1Reg => 0x3F,
            Cmd::SohReg => 0x4F,
        }
    }
}

/// Registers that reply with a variable-length block rather than one word.
#[derive(Copy, Clone, PartialEq, Eq, Structural, Debug)]
pub enum CmdBlock {
    DEVICENAMEReg,
}

impl CmdBlock {
    /// The one-byte register address that the variant names.
    pub open spec fn spec_value(self) -> u8 {
        match self {
            CmdBlock::DEVICENAMEReg => 0x21,
        }
    }

    /// Executable form of [`Self::spec_value`].
    pub fn value(self) -> (r: u8)
        ensures
            r == self.spec_value(),
    {
        match self {
            CmdBlock::DEVICENAMEReg => 0x21,
        }
    }
}

} // verus!
