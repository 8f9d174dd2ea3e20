//! The four read commands and what each of them yields.

use vstd::prelude::*;
use crate::measurement::{
    lookup, spec_lookup, Measurement, Quantity, CLASS_SIGNED, CLASS_UNSIGNED,
    LRI_BATTERY_CHARGE, LRI_BATTERY_CURRENT, LRI_BATTERY_TEMPERATURE, LRI_BATTERY_VOLTAGE,
    LRI_DC_CURRENT, LRI_DC_VOLTAGE, LRI_ENERGY_DAILY, LRI_ENERGY_TOTAL,
};

verus! {

/// Opcode of the commands that read spot values.
pub const OPCODE_READ_SPOT: u32 = 0x5100_0200;

/// Opcode of the command that reads the energy meters.
pub const OPCODE_READ_ENERGY: u32 = 0x5400_0200;

/// First and last register of the battery block.
pub const WINDOW_BATTERY_INFO: u32 = 0x0049_5B00;

/// First and last register of the DC spot values.
pub const WINDOW_DC: u32 = 0x0025_1E00;

/// First and last register of the battery's state of charge.
pub const WINDOW_BATTERY_CHARGE: u32 = 0x0029_5A00;

/// First and last register of the metering totals.
pub const WINDOW_ENERGY: u32 = 0x0026_0100;

/// A read command.
#[derive(Clone, Copy, Debug, PartialEq, Eq, Structural)]
pub enum Command {
    BatteryInfo,
    DcVoltage,
    BatteryChargeStatus,
    EnergyProduction,
}

/// One value for each of the lines A, B and C; `None` where there is none.
#[derive(Clone, Copy, Debug, PartialEq, Eq)]
pub struct PerLine {
    pub a: Option<Quantity>,
    pub b: Option<Quantity>,
    pub c: Option<Quantity>,
}

/// One value for each of the strings 1 and 2; `None` where there is none.
#[derive(Clone, Copy, Debug, PartialEq, Eq)]
pub struct PerString {
    pub first: Option<Quantity>,
    pub second: Option<Quantity>,
}

/// The battery block: millivolts, milliamperes and degrees Celsius.
#[derive(Clone, Copy, Debug, PartialEq, Eq)]
pub struct BatteryInfo {
    pub voltage: PerLine,
    pub current: PerLine,
    pub temperature: PerLine,
}

/// The DC spot values: millivolts and milliamperes.
#[derive(Clone, Copy, Debug, PartialEq, Eq)]
pub struct DcValues {
    pub voltage: PerString,
    pub current: PerString,
}

/// The energy meters, in watt-hours.
#[derive(Clone, Copy, Debug, PartialEq, Eq)]
pub struct Energy {
    pub total_wh: Option<Quantity>,
    pub daily_wh: Option<Quantity>,
}

/// What a read command yields.
#[derive(Clone, Copy, Debug, PartialEq, Eq)]
pub enum PollData {
    BatteryInfo(BatteryInfo),
    DcVoltage(DcValues),
    BatteryChargeStatus(PerLine),
    EnergyProduction(Energy),
}

impl Command {
    /// The opcode of the command's request.
    pub open spec fn spec_opcode(self) -> u32 {
        match self {
            Command::EnergyProduction => OPCODE_READ_ENERGY,
            _ => OPCODE_READ_SPOT,
        }
    }

    /// The register that is both the first and the last of the command's window.
    pub open spec fn spec_window(self) -> u32 {
        match self {
            Command::BatteryInfo => WINDOW_BATTERY_INFO,
            Command::DcVoltage => WINDOW_DC,
            Command::BatteryChargeStatus => WINDOW_BATTERY_CHARGE,
            Command::EnergyProduction => WINDOW_ENERGY,
        }
    }

    /// The class of the registers that the command asks for.
    pub open spec fn spec_class(self) -> u8 {
        match self {
            Command::BatteryInfo => CLASS_SIGNED,
            Command::DcVoltage => CLASS_SIGNED,
            Command::BatteryChargeStatus => CLASS_UNSIGNED,
            Command::EnergyProduction => CLASS_UNSIGNED,
        }
    }

    /// The opcode of the command's request.
    pub fn opcode(&self) -> (opcode: u32)
        ensures
            opcode == self.spec_opcode(),
    {
        match self {
            Command::EnergyProduction => OPCODE_READ_ENERGY,
            _ => OPCODE_READ_SPOT,
        }
    }

    /// The register that is both the first and the last of the command's window.
    pub fn window(&self) -> (lri: u32)
        ensures
            lri == self.spec_window(),
    {
        match self {
            Command::BatteryInfo => WINDOW_BATTERY_INFO,
            Command::DcVoltage => WINDOW_DC,
            Command::BatteryChargeStatus => WINDOW_BATTERY_CHARGE,
            Command::EnergyProduction => WINDOW_ENERGY,
        }
    }

    /// The class of the registers that the command asks for.
    pub fn class(&self) -> (class: u8)
        ensures
            class == self.spec_class(),
    {
        match self {
            Command::BatteryInfo => CLASS_SIGNED,
            Command::DcVoltage => CLASS_SIGNED,
            Command::BatteryChargeStatus => CLASS_UNSIGNED,
            Command::EnergyProduction => CLASS_UNSIGNED,
        }
    }
}

/// The read commands in the order in which a device is polled.
pub open spec fn spec_commands() -> Seq<Command> {
    seq![
        Command::BatteryInfo,
        Command::DcVoltage,
        Command::BatteryChargeStatus,
        Command::EnergyProduction,
    ]
}

/// Lists the read commands in the order in which a device is polled.
pub fn commands() -> (all: Vec<Command>)
    ensures
        all@ == spec_commands(),
{
    let mut all: Vec<Command> = Vec::new();
    all.push(Command::BatteryInfo);
    all.push(Command::DcVoltage);
    all.push(Command::BatteryChargeStatus);
    all.push(Command::EnergyProduction);
    assert(all@ =~= spec_commands());
    all
}

/// The values of channels 0, 1 and 2 of a register, as lines A, B and C.
pub open spec fn spec_per_line(found: Seq<Measurement>, lri: u32) -> PerLine {
    PerLine {
        a: spec_lookup(found, lri, 0),
        b: spec_lookup(found, lri, 1),
        c: spec_lookup(found, lri, 2),
    }
}

/// The values of channels 0 and 1 of a register, as strings 1 and 2.
pub open spec fn spec_per_string(found: Seq<Measurement>, lri: u32) -> PerString {
    PerString { first: spec_lookup(found, lri, 0), second: spec_lookup(found, lri, 1) }
}

/// What a command yields from the measurements of its reply.
pub open spec fn spec_poll_data(command: Command, found: Seq<Measurement>) -> PollData {
    match command {
        Command::BatteryInfo => PollData::BatteryInfo(
            BatteryInfo {
                voltage: spec_per_line(found, LRI_BATTERY_VOLTAGE),
                current: spec_per_line(found, LRI_BATTERY_CURRENT),
                temperature: spec_per_line(found, LRI_BATTERY_TEMPERATURE),
            },
        ),
        Command::DcVoltage => PollData::DcVoltage(
            DcValues {
                voltage: spec_per_string(found, LRI_DC_VOLTAGE),
                current: spec_per_string(found, LRI_DC_CURRENT),
            },
        ),
        Command::BatteryChargeStatus => PollData::BatteryChargeStatus(
            spec_per_line(found, LRI_BATTERY_CHARGE),
        ),
        Command::EnergyProduction => PollData::EnergyProduction(
            Energy {
                total_wh: spec_lookup(found, LRI_ENERGY_TOTAL, 0),
                daily_wh: spec_lookup(found, LRI_ENERGY_DAILY, 0),
            },
        ),
    }
}

fn per_line(found: &Vec<Measurement>, lri: u32) -> (lines: PerLine)
    ensures
        lines == spec_per_line(found@, lri),
{
    PerLine { a: lookup(found, lri, 0), b: lookup(found, lri, 1), c: lookup(found, lri, 2) }
}

fn per_string(found: &Vec<Measurement>, lri: u32) -> (strings: PerString)
    ensures
        strings == spec_per_string(found@, lri),
{
    PerString { first: lookup(found, lri, 0), second: lookup(found, lri, 1) }
}

/// Gathers what a command yields from the measurements of its reply.
pub fn poll_data(command: Command, found: &Vec<Measurement>) -> (data: PollData)
    ensures
        data == spec_poll_data(command, found@),
{
    match command {
        Command::BatteryInfo => PollData::BatteryInfo(
            BatteryInfo {
                voltage: per_line(found, LRI_BATTERY_VOLTAGE),
                current: per_line(found, LRI_BATTERY_CURRENT),
                temperature: per_line(found, LRI_BATTERY_TEMPERATURE),
            },
        ),
        Command::DcVoltage => PollData::DcVoltage(
            DcValues {
                voltage: per_string(found, LRI_DC_VOLTAGE),
                current: per_string(found, LRI_DC_CURRENT),
            },
        ),
        Command::BatteryChargeStatus => PollData::BatteryChargeStatus(
            per_line(found, LRI_BATTERY_CHARGE),
        ),
        Command::EnergyProduction => PollData::EnergyProduction(
            Energy {
                total_wh: lookup(found, LRI_ENERGY_TOTAL, 0),
                daily_wh: lookup(found, LRI_ENERGY_DAILY, 0),
            },
        ),
    }
}

} // verus!
