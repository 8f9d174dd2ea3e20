//! The gauges that an exporter keeps for one device: eighteen samples under
//! keys that never change, each holding the last value that a read yielded.

use vstd::prelude::*;
use crate::discovery::InverterAddress;
use crate::measurement::Quantity;
use crate::readings::{Command, PerLine, PerString, PollData};
use crate::session::{spec_poll_outcome, SessionError, REPLY_DATA_OFFSET, STATUS_UNSUPPORTED};
use crate::settings::{dotted, spec_dotted};

verus! {

/// The number of samples kept for one device.
pub const GAUGE_COUNT: usize = 18;

/// An exported metric.
#[derive(Clone, Copy, Debug, PartialEq, Eq, Structural)]
pub enum Metric {
    BatteryVoltage,
    BatteryCurrent,
    BatteryTemperature,
    BatteryCharge,
    DcVoltage,
    DcCurrent,
    MeteringTotal,
    MeteringDaily,
}

/// The label that tells the samples of one metric apart.
#[derive(Clone, Copy, Debug, PartialEq, Eq, Structural)]
pub enum Label {
    /// The label `line`, with value `A`.
    LineA,
    /// The label `line`, with value `B`.
    LineB,
    /// The label `line`, with value `C`.
    LineC,
    /// The label `line`, with value `1`.
    String1,
    /// The label `line`, with value `2`.
    String2,
    /// The label `inverter`, with the device's IPv4 address as value.
    Inverter,
}

/// One sample of a scrape.
#[derive(Clone, Copy, Debug, PartialEq, Eq)]
pub struct Sample {
    pub metric: Metric,
    pub label: Label,
    pub value: Quantity,
}

/// The samples of one device.
#[derive(Clone, Debug, PartialEq, Eq)]
pub struct Gauges {
    pub values: Vec<Quantity>,
}

/// The metric of the sample at index `i`.
pub open spec fn spec_metric(i: int) -> Metric {
    if i < 3 {
        Metric::BatteryVoltage
    } else if i < 6 {
        Metric::BatteryCurrent
    } else if i < 9 {
        Metric::BatteryTemperature
    } else if i < 12 {
        Metric::BatteryCharge
    } else if i < 14 {
        Metric::DcVoltage
    } else if i < 16 {
        Metric::DcCurrent
    } else if i == 16 {
        Metric::MeteringTotal
    } else {
        Metric::MeteringDaily
    }
}

/// The label of the sample at index `i`.
pub open spec fn spec_label(i: int) -> Label {
    if i < 12 {
        if i % 3 == 0 {
            Label::LineA
        } else if i % 3 == 1 {
            Label::LineB
        } else {
            Label::LineC
        }
    } else if i < 16 {
        if i % 2 == 0 {
            Label::String1
        } else {
            Label::String2
        }
    } else {
        Label::Inverter
    }
}

/// The keys of a scrape, in order.
pub open spec fn spec_keys() -> Seq<(Metric, Label)> {
    Seq::new(GAUGE_COUNT as nat, |i: int| (spec_metric(i), spec_label(i)))
}

/// The scrape of the values `values`.
pub open spec fn spec_samples(values: Seq<Quantity>) -> Seq<Sample> {
    Seq::new(
        GAUGE_COUNT as nat,
        |i: int| Sample { metric: spec_metric(i), label: spec_label(i), value: values[i] },
    )
}

/// The keys under which a scrape exposes its samples.
pub open spec fn spec_keys_of(samples: Seq<Sample>) -> Seq<(Metric, Label)> {
    Seq::new(samples.len(), |i: int| (samples[i].metric, samples[i].label))
}

/// The values after one slot has taken a reading: an absent reading leaves
/// the last value in place.
pub open spec fn spec_put(values: Seq<Quantity>, i: int, reading: Option<Quantity>) -> Seq<
    Quantity,
> {
    match reading {
        Some(q) => values.update(i, q),
        None => values,
    }
}

/// The values after the three slots from `base` have taken the readings of lines A, B and C.
pub open spec fn spec_put_lines(values: Seq<Quantity>, base: int, lines: PerLine) -> Seq<Quantity> {
    spec_put(spec_put(spec_put(values, base, lines.a), base + 1, lines.b), base + 2, lines.c)
}

/// The values after the two slots from `base` have taken the readings of strings 1 and 2.
pub open spec fn spec_put_strings(values: Seq<Quantity>, base: int, strings: PerString) -> Seq<
    Quantity,
> {
    spec_put(spec_put(values, base, strings.first), base + 1, strings.second)
}

/// The values after the outcome of a read command: a failed command leaves
/// every value in place, and a command that yields values overwrites the
/// slots of its metrics for which it has a reading.
pub open spec fn spec_record(values: Seq<Quantity>, outcome: Result<PollData, SessionError>) -> Seq<
    Quantity,
> {
    match outcome {
        Err(_) => values,
        Ok(PollData::BatteryInfo(info)) => spec_put_lines(
            spec_put_lines(spec_put_lines(values, 0, info.voltage), 3, info.current),
            6,
            info.temperature,
        ),
        Ok(PollData::BatteryChargeStatus(charge)) => spec_put_lines(values, 9, charge),
        Ok(PollData::DcVoltage(dc)) => spec_put_strings(
            spec_put_strings(values, 12, dc.voltage),
            14,
            dc.current,
        ),
        Ok(PollData::EnergyProduction(energy)) => spec_put(
            spec_put(values, 16, energy.total_wh),
            17,
            energy.daily_wh,
        ),
    }
}

impl Metric {
    /// The name under which the metric is exported.
    pub open spec fn spec_name(self) -> Seq<char> {
        match self {
            Metric::BatteryVoltage => "smainverter_battery_voltage_millivolts"@,
            Metric::BatteryCurrent => "smainverter_battery_current_milliamperes"@,
            Metric::BatteryTemperature => "smainverter_battery_temperature_degreescelsius"@,
            Metric::BatteryCharge => "smainverter_battery_charge_percentage"@,
            Metric::DcVoltage => "smainverter_spot_dc_voltage_millivolts"@,
            Metric::DcCurrent => "smainverter_spot_dc_current_milliamperes"@,
            Metric::MeteringTotal => "smainverter_metering_total_watthours"@,
            Metric::MeteringDaily => "smainverter_metering_daily_watthours"@,
        }
    }

    /// The name under which the metric is exported.
    pub fn name(&self) -> (name: &'static str)
        ensures
            name@ == self.spec_name(),
    {
        match self {
            Metric::BatteryVoltage => "smainverter_battery_voltage_millivolts",
            Metric::BatteryCurrent => "smainverter_battery_current_milliamperes",
            Metric::BatteryTemperature => "smainverter_battery_temperature_degreescelsius",
            Metric::BatteryCharge => "smainverter_battery_charge_percentage",
            Metric::DcVoltage => "smainverter_spot_dc_voltage_millivolts",
            Metric::DcCurrent => "smainverter_spot_dc_current_milliamperes",
            Metric::MeteringTotal => "smainverter_metering_total_watthours",
            Metric::MeteringDaily => "smainverter_metering_daily_watthours",
        }
    }
}

impl Label {
    /// The key of the label.
    pub open spec fn spec_key(self) -> Seq<char> {
        match self {
            Label::Inverter => "inverter"@,
            _ => "line"@,
        }
    }

    /// The value of the label, as ASCII, on a sample of the device at `address`.
    pub open spec fn spec_value(self, address: InverterAddress) -> Seq<u8> {
        match self {
            Label::LineA => seq![0x41u8],
            Label::LineB => seq![0x42u8],
            Label::LineC => seq![0x43u8],
            Label::String1 => seq![0x31u8],
            Label::String2 => seq![0x32u8],
            Label::Inverter => spec_dotted(address),
        }
    }

    /// The key of the label.
    pub fn key(&self) -> (key: &'static str)
        ensures
            key@ == self.spec_key(),
    {
        match self {
            Label::Inverter => "inverter",
            _ => "line",
        }
    }

    /// The value of the label, as ASCII, on a sample of the device at
    /// `address`: `A`, `B`, `C`, `1`, `2`, or the address in dotted decimal.
    pub fn value(&self, address: InverterAddress) -> (value: Vec<u8>)
        ensures
            value@ == self.spec_value(address),
    {
        let letter: u8 = match self {
            Label::LineA => 0x41,
            Label::LineB => 0x42,
            Label::LineC => 0x43,
            Label::String1 => 0x31,
            Label::String2 => 0x32,
            Label::Inverter => {
                return dotted(address);
            },
        };
        let mut value: Vec<u8> = Vec::new();
        value.push(letter);
        assert(value@ =~= self.spec_value(address));
        value
    }
}

fn metric_at(i: usize) -> (metric: Metric)
    ensures
        metric == spec_metric(i as int),
{
    if i < 3 {
        Metric::BatteryVoltage
    } else if i < 6 {
        Metric::BatteryCurrent
    } else if i < 9 {
        Metric::BatteryTemperature
    } else if i < 12 {
        Metric::BatteryCharge
    } else if i < 14 {
        Metric::DcVoltage
    } else if i < 16 {
        Metric::DcCurrent
    } else if i == 16 {
        Metric::MeteringTotal
    } else {
        Metric::MeteringDaily
    }
}

fn label_at(i: usize) -> (label: Label)
    ensures
        label == spec_label(i as int),
{
    if i < 12 {
        if i % 3 == 0 {
            Label::LineA
        } else if i % 3 == 1 {
            Label::LineB
        } else {
            Label::LineC
        }
    } else if i < 16 {
        if i % 2 == 0 {
            Label::String1
        } else {
            Label::String2
        }
    } else {
        Label::Inverter
    }
}

impl Gauges {
    /// Whether the gauges hold one value for each key.
    pub open spec fn wf(&self) -> bool {
        self.values@.len() == GAUGE_COUNT
    }

    /// Gauges that have seen no reading yet: every value is zero.
    pub fn new() -> (gauges: Gauges)
        ensures
            gauges.wf(),
            forall|i: int|
                0 <= i < GAUGE_COUNT ==> gauges.values@[i] == (Quantity { whole: 0, tenths: 0 }),
    {
        let mut values: Vec<Quantity> = Vec::new();
        let mut i: usize = 0;
        while i < GAUGE_COUNT
            invariant
                i <= GAUGE_COUNT,
                values@.len() == i,
                forall|j: int| 0 <= j < i ==> values@[j] == (Quantity { whole: 0, tenths: 0 }),
            decreases GAUGE_COUNT - i,
        {
            values.push(Quantity { whole: 0, tenths: 0 });
            i += 1;
        }
        Gauges { values }
    }

    fn put(&mut self, i: usize, reading: Option<Quantity>)
        requires
            old(self).wf(),
            i < GAUGE_COUNT,
        ensures
            final(self).wf(),
            final(self).values@ == spec_put(old(self).values@, i as int, reading),
    {
        match reading {
            Some(q) => {
                self.values.set(i, q);
            },
            None => {},
        }
    }

    fn put_lines(&mut self, base: usize, lines: &PerLine)
        requires
            old(self).wf(),
            base + 3 <= GAUGE_COUNT,
        ensures
            final(self).wf(),
            final(self).values@ == spec_put_lines(old(self).values@, base as int, *lines),
    {
        self.put(base, lines.a);
        self.put(base + 1, lines.b);
        self.put(base + 2, lines.c);
    }

    fn put_strings(&mut self, base: usize, strings: &PerString)
        requires
            old(self).wf(),
            base + 2 <= GAUGE_COUNT,
        ensures
            final(self).wf(),
            final(self).values@ == spec_put_strings(old(self).values@, base as int, *strings),
    {
        self.put(base, strings.first);
        self.put(base + 1, strings.second);
    }

    /// Takes the outcome of a read command into the gauges.
    ///
    /// A command that failed, in whatever way, leaves every value as it was.
    pub fn record(&mut self, outcome: &Result<PollData, SessionError>)
        requires
            old(self).wf(),
        ensures
            final(self).wf(),
            final(self).values@ == spec_record(old(self).values@, *outcome),
            outcome.is_err() ==> final(self).values@ == old(self).values@,
    {
        match outcome {
            Err(_) => {},
            Ok(PollData::BatteryInfo(info)) => {
                self.put_lines(0, &info.voltage);
                self.put_lines(3, &info.current);
                self.put_lines(6, &info.temperature);
            },
            Ok(PollData::BatteryChargeStatus(charge)) => {
                self.put_lines(9, charge);
            },
            Ok(PollData::DcVoltage(dc)) => {
                self.put_strings(12, &dc.voltage);
                self.put_strings(14, &dc.current);
            },
            Ok(PollData::EnergyProduction(energy)) => {
                self.put(16, energy.total_wh);
                self.put(17, energy.daily_wh);
            },
        }
    }

    /// The samples of a scrape: one for each key, in the order of the keys.
    pub fn samples(&self) -> (samples: Vec<Sample>)
        requires
            self.wf(),
        ensures
            samples@ == spec_samples(self.values@),
            spec_keys_of(samples@) == spec_keys(),
    {
        let mut samples: Vec<Sample> = Vec::new();
        let mut i: usize = 0;
        while i < GAUGE_COUNT
            invariant
                i <= GAUGE_COUNT,
                self.wf(),
                samples@.len() == i,
                forall|j: int| 0 <= j < i ==> samples@[j] == spec_samples(self.values@)[j],
            decreases GAUGE_COUNT - i,
        {
            samples.push(Sample { metric: metric_at(i), label: label_at(i), value: self.values[i] });
            i += 1;
        }
        assert(samples@ =~= spec_samples(self.values@));
        assert(spec_keys_of(samples@) =~= spec_keys());
        samples
    }
}

/// Every scrape exposes the same keys, whatever values the gauges hold and
/// whichever commands succeeded before it.
pub proof fn lemma_keys_never_change(before: Seq<Quantity>, after: Seq<Quantity>)
    ensures
        spec_keys_of(spec_samples(before)) == spec_keys(),
        spec_keys_of(spec_samples(before)) == spec_keys_of(spec_samples(after)),
{
    assert(spec_keys_of(spec_samples(before)) =~= spec_keys());
    assert(spec_keys_of(spec_samples(after)) =~= spec_keys());
}

/// A command that failed changes no value, so no value falls back to zero,
/// and whatever a command yields, the gauges keep one value for each key.
pub proof fn lemma_failed_poll_keeps_values(
    values: Seq<Quantity>,
    outcome: Result<PollData, SessionError>,
)
    requires
        values.len() == GAUGE_COUNT,
    ensures
        outcome.is_err() ==> spec_record(values, outcome) == values,
        outcome.is_err() ==> spec_samples(spec_record(values, outcome)) == spec_samples(values),
        spec_record(values, outcome).len() == GAUGE_COUNT,
{
}

/// A reply that says that the device does not support a command ends the
/// command as unsupported, and no gauge changes on it.
pub proof fn lemma_unsupported_changes_nothing(
    values: Seq<Quantity>,
    command: Command,
    payload: Seq<u8>,
)
    requires
        payload.len() >= REPLY_DATA_OFFSET,
        payload[0] == STATUS_UNSUPPORTED,
    ensures
        spec_poll_outcome(command, payload) == Err::<PollData, SessionError>(
            SessionError::Unsupported,
        ),
        spec_record(values, spec_poll_outcome(command, payload)) == values,
{
}

} // verus!
