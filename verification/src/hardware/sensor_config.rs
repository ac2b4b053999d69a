//! Which entries of the sensor configuration file describe a chain that can be built,
//! and how: the input they read, the provider, the sensor kind and its constraints. An
//! entry that cannot be built is refused with a message naming its `hw_input`; loading a
//! group stops at the first such entry (fail-fast).

use crate::hardware::hw_providers::{input_name, input_named, HWInput};
use crate::text::{concat3, decimal, push_decimal};
use vstd::prelude::*;
use vstd::utf8::encode_utf8;

verus! {

/// The kind of sensor an entry configures.
#[derive(Debug, Clone, Copy, PartialEq, Eq, Structural)]
pub enum SensorKind {
    GenericDigital,
    GenericAnalog,
    OneWireTemp,
    VoltageDividerAnalog,
    CalibratedAnalog,
}

/// How an entry gives its value constraints: a named digital preset, or the raw range
/// and thresholds (which need no checking).
#[derive(Debug, Clone, PartialEq, Eq)]
pub enum ConstraintsEntry {
    Preset(String),
    Raw,
}

/// One entry of the sensor configuration file, as far as deciding whether and how to
/// build it goes.
#[derive(Debug, Clone, PartialEq, Eq)]
pub struct ChainEntry {
    /// Which caller the entry belongs to ("sensor", "button", ...).
    pub group: String,
    /// Configuration name of the input.
    pub hw_input: String,
    /// "adc" or "adc_temp".
    pub provider: String,
    /// One-wire ROM address, for the "adc_temp" provider.
    pub rom: Option<String>,
    /// Number of digital processors listed.
    pub digital_processors: usize,
    /// Number of analog processors listed.
    pub analog_processors: usize,
    pub sensor: SensorKind,
    /// Number of points of a calibrated sensor's curve.
    pub curve_points: usize,
    /// Whether every point of a calibrated sensor's curve is finite.
    pub curve_finite: bool,
    pub constraints: ConstraintsEntry,
}

/// The digital constraint presets.
#[derive(Debug, Clone, Copy, PartialEq, Eq, Structural)]
pub enum DigitalPreset {
    Default,
    Warning,
    Critical,
}

/// The constraints a built sensor gets.
#[derive(Debug, Clone, Copy, PartialEq, Eq, Structural)]
pub enum ConstraintsPlan {
    Preset(DigitalPreset),
    Raw,
}

/// Where a chain reads its raw data.
#[derive(Debug, Clone, Copy, PartialEq, Eq, Structural)]
pub enum ChainSource {
    /// A channel of the ADC frame.
    Adc,
    /// A one-wire temperature of the temperature frame, by ROM address.
    AdcTemp,
}

/// How to build an accepted entry.
#[derive(Debug, Clone, Copy, PartialEq, Eq, Structural)]
pub struct ChainPlan {
    pub input: HWInput,
    pub source: ChainSource,
    pub sensor: SensorKind,
    pub constraints: ConstraintsPlan,
}

/// "sensor config: hw_input '<h>' <rest>".
pub open spec fn about(h: Seq<char>, rest: Seq<char>) -> Seq<char> {
    "sensor config: hw_input '"@ + h + "' "@ + rest
}

/// Whether a byte is an ASCII hex digit (either case).
pub open spec fn is_hex_byte(b: u8) -> bool {
    (0x30 <= b <= 0x39) || (0x41 <= b <= 0x46) || (0x61 <= b <= 0x66)
}

/// A well-formed ROM address: exactly 16 bytes, each an ASCII hex digit.
pub open spec fn rom_ok(rom: Seq<char>) -> bool {
    let b = encode_utf8(rom);
    b.len() == 16 && forall|i: int| 0 <= i < 16 ==> #[trigger] is_hex_byte(b[i])
}

/// The constraints of entry `e` (whose input is named `h`), or why they are refused.
pub open spec fn constraints_plan(h: Seq<char>, c: ConstraintsEntry) -> Result<ConstraintsPlan, Seq<char>> {
    match c {
        ConstraintsEntry::Raw => Ok(ConstraintsPlan::Raw),
        ConstraintsEntry::Preset(p) => if p@ == "default"@ {
            Ok(ConstraintsPlan::Preset(DigitalPreset::Default))
        } else if p@ == "warning"@ {
            Ok(ConstraintsPlan::Preset(DigitalPreset::Warning))
        } else if p@ == "critical"@ {
            Ok(ConstraintsPlan::Preset(DigitalPreset::Critical))
        } else {
            Err(about(h, "has unknown digital_preset '"@ + p@ + "' (expected default/warning/critical)"@))
        },
    }
}

/// The plan once the sensor checks passed: the constraints decide.
pub open spec fn with_constraints(e: ChainEntry, input: HWInput, source: ChainSource) -> Result<ChainPlan, Seq<char>> {
    match constraints_plan(e.hw_input@, e.constraints) {
        Ok(c) => Ok(ChainPlan { input, source, sensor: e.sensor, constraints: c }),
        Err(m) => Err(m),
    }
}

/// How an "adc" entry is built, or why it is refused.
pub open spec fn adc_plan(e: ChainEntry, input: HWInput) -> Result<ChainPlan, Seq<char>> {
    let h = e.hw_input@;
    match e.sensor {
        SensorKind::GenericDigital => if e.analog_processors > 0 {
            Err(about(h, "is a digital sensor but lists analog_processors"@))
        } else {
            with_constraints(e, input, ChainSource::Adc)
        },
        SensorKind::GenericAnalog | SensorKind::VoltageDividerAnalog => if e.digital_processors > 0 {
            Err(about(h, "is an analog sensor but lists digital_processors"@))
        } else {
            with_constraints(e, input, ChainSource::Adc)
        },
        SensorKind::CalibratedAnalog => if e.digital_processors > 0 {
            Err(about(h, "is an analog sensor but lists digital_processors"@))
        } else if e.curve_points < 2 {
            Err(about(h, "calibrated_analog curve needs at least 2 points, has "@ + decimal(e.curve_points as nat)))
        } else if !e.curve_finite {
            Err(about(h, "calibrated_analog curve has a non-finite ohm/value"@))
        } else {
            with_constraints(e, input, ChainSource::Adc)
        },
        SensorKind::OneWireTemp => Err(about(h, "has sensor kind \"one_wire_temp\" but provider is not \"adc_temp\""@)),
    }
}

/// How an "adc_temp" entry is built, or why it is refused; `temp_frame` tells whether a
/// one-wire temperature frame is available.
pub open spec fn adc_temp_plan(e: ChainEntry, input: HWInput, temp_frame: bool) -> Result<ChainPlan, Seq<char>> {
    let h = e.hw_input@;
    if !temp_frame {
        Err(about(h, "uses provider \"adc_temp\" but no one-wire temperature frame is available"@))
    } else if e.sensor != SensorKind::OneWireTemp {
        Err(about(h, "uses provider \"adc_temp\" but sensor kind is not \"one_wire_temp\""@))
    } else {
        match e.rom {
            None => Err(about(h, "uses provider \"adc_temp\" but has no \"rom\" address"@)),
            Some(rom) => if !rom_ok(rom@) {
                Err(about(h, "has malformed rom '"@ + rom@ + "' (expected 16 hex characters)"@))
            } else if e.digital_processors > 0 {
                Err(about(h, "is a temperature (analog) sensor but lists digital_processors"@))
            } else {
                with_constraints(e, input, ChainSource::AdcTemp)
            },
        }
    }
}

/// How entry `e` is built, or why it is refused.
pub open spec fn chain_plan(e: ChainEntry, temp_frame: bool) -> Result<ChainPlan, Seq<char>> {
    match input_named(e.hw_input@) {
        None => Err("sensor config: unknown hw_input '"@ + e.hw_input@ + "'"@),
        Some(input) => if e.provider@ == "adc"@ {
            adc_plan(e, input)
        } else if e.provider@ == "adc_temp"@ {
            adc_temp_plan(e, input, temp_frame)
        } else {
            Err(about(e.hw_input@, "has unsupported provider '"@ + e.provider@ + "' (expected \"adc\" or \"adc_temp\")"@))
        },
    }
}

/// Loading the entries of `group` among the first `n` entries: the plans of the
/// accepted ones in order, up to the first refused one, whose message ends the load.
pub open spec fn group_plans(entries: Seq<ChainEntry>, n: nat, group: Seq<char>, temp_frame: bool) -> (Seq<ChainPlan>, Option<Seq<char>>)
    decreases n,
{
    if n == 0 {
        (Seq::empty(), None)
    } else {
        let (plans, err) = group_plans(entries, (n - 1) as nat, group, temp_frame);
        let e = entries[n - 1];
        if err is Some || e.group@ != group {
            (plans, err)
        } else {
            match chain_plan(e, temp_frame) {
                Ok(p) => (plans.push(p), None),
                Err(m) => (plans, Some(m)),
            }
        }
    }
}

fn about_exec(h: &str, rest: &str) -> (r: String)
    ensures
        r@ == about(h@, rest@),
{
    let mut m = String::from_str("sensor config: hw_input '");
    m.append(h);
    m.append("' ");
    m.append(rest);
    m
}

fn is_hex_byte_exec(b: u8) -> (r: bool)
    ensures
        r == is_hex_byte(b),
{
    (0x30 <= b && b <= 0x39) || (0x41 <= b && b <= 0x46) || (0x61 <= b && b <= 0x66)
}

/// Whether `rom` is a well-formed one-wire ROM address (16 ASCII hex digits).
pub fn check_rom(rom: &str) -> (r: bool)
    ensures
        r == rom_ok(rom@),
{
    let b = rom.as_bytes();
    if b.len() != 16 {
        return false;
    }
    let mut i: usize = 0;
    while i < 16
        invariant
            b@ == encode_utf8(rom@),
            b@.len() == 16,
            i <= 16,
            forall|j: int| 0 <= j < i ==> #[trigger] is_hex_byte(b@[j]),
        decreases 16 - i,
    {
        if !is_hex_byte_exec(b[i]) {
            assert(!is_hex_byte(encode_utf8(rom@)[i as int]));
            return false;
        }
        i = i + 1;
    }
    true
}

fn constraints_exec(h: &str, c: &ConstraintsEntry) -> (r: Result<ConstraintsPlan, String>)
    ensures
        match (r, constraints_plan(h@, *c)) {
            (Ok(x), Ok(y)) => x == y,
            (Err(m), Err(n)) => m@ == n,
            _ => false,
        },
{
    match c {
        ConstraintsEntry::Raw => Ok(ConstraintsPlan::Raw),
        ConstraintsEntry::Preset(p) => {
            if *p == String::from_str("default") {
                Ok(ConstraintsPlan::Preset(DigitalPreset::Default))
            } else if *p == String::from_str("warning") {
                Ok(ConstraintsPlan::Preset(DigitalPreset::Warning))
            } else if *p == String::from_str("critical") {
                Ok(ConstraintsPlan::Preset(DigitalPreset::Critical))
            } else {
                let rest = concat3("has unknown digital_preset '", p.as_str(), "' (expected default/warning/critical)");
                Err(about_exec(h, rest.as_str()))
            }
        },
    }
}

fn with_constraints_exec(e: &ChainEntry, input: HWInput, source: ChainSource) -> (r: Result<ChainPlan, String>)
    ensures
        match (r, with_constraints(*e, input, source)) {
            (Ok(x), Ok(y)) => x == y,
            (Err(m), Err(n)) => m@ == n,
            _ => false,
        },
{
    match constraints_exec(e.hw_input.as_str(), &e.constraints) {
        Ok(c) => Ok(ChainPlan { input, source, sensor: e.sensor, constraints: c }),
        Err(m) => Err(m),
    }
}

fn adc_exec(e: &ChainEntry, input: HWInput) -> (r: Result<ChainPlan, String>)
    ensures
        match (r, adc_plan(*e, input)) {
            (Ok(x), Ok(y)) => x == y,
            (Err(m), Err(n)) => m@ == n,
            _ => false,
        },
{
    let h = e.hw_input.as_str();
    match e.sensor {
        SensorKind::GenericDigital => {
            if e.analog_processors > 0 {
                Err(about_exec(h, "is a digital sensor but lists analog_processors"))
            } else {
                with_constraints_exec(e, input, ChainSource::Adc)
            }
        },
        SensorKind::GenericAnalog | SensorKind::VoltageDividerAnalog => {
            if e.digital_processors > 0 {
                Err(about_exec(h, "is an analog sensor but lists digital_processors"))
            } else {
                with_constraints_exec(e, input, ChainSource::Adc)
            }
        },
        SensorKind::CalibratedAnalog => {
            if e.digital_processors > 0 {
                Err(about_exec(h, "is an analog sensor but lists digital_processors"))
            } else if e.curve_points < 2 {
                let mut rest = String::from_str("calibrated_analog curve needs at least 2 points, has ");
                push_decimal(&mut rest, e.curve_points);
                Err(about_exec(h, rest.as_str()))
            } else if !e.curve_finite {
                Err(about_exec(h, "calibrated_analog curve has a non-finite ohm/value"))
            } else {
                with_constraints_exec(e, input, ChainSource::Adc)
            }
        },
        SensorKind::OneWireTemp => Err(about_exec(h, "has sensor kind \"one_wire_temp\" but provider is not \"adc_temp\"")),
    }
}

fn adc_temp_exec(e: &ChainEntry, input: HWInput, temp_frame: bool) -> (r: Result<ChainPlan, String>)
    ensures
        match (r, adc_temp_plan(*e, input, temp_frame)) {
            (Ok(x), Ok(y)) => x == y,
            (Err(m), Err(n)) => m@ == n,
            _ => false,
        },
{
    let h = e.hw_input.as_str();
    if !temp_frame {
        Err(about_exec(h, "uses provider \"adc_temp\" but no one-wire temperature frame is available"))
    } else if e.sensor != SensorKind::OneWireTemp {
        Err(about_exec(h, "uses provider \"adc_temp\" but sensor kind is not \"one_wire_temp\""))
    } else {
        match &e.rom {
            None => Err(about_exec(h, "uses provider \"adc_temp\" but has no \"rom\" address")),
            Some(rom) => {
                if !check_rom(rom.as_str()) {
                    let rest = concat3("has malformed rom '", rom.as_str(), "' (expected 16 hex characters)");
                    Err(about_exec(h, rest.as_str()))
                } else if e.digital_processors > 0 {
                    Err(about_exec(h, "is a temperature (analog) sensor but lists digital_processors"))
                } else {
                    with_constraints_exec(e, input, ChainSource::AdcTemp)
                }
            },
        }
    }
}

/// Decides whether entry `e` can be built and how; `temp_frame` tells whether a one-wire
/// temperature frame is available for "adc_temp" entries.
pub fn plan_chain(e: &ChainEntry, temp_frame: bool) -> (r: Result<ChainPlan, String>)
    ensures
        match (r, chain_plan(*e, temp_frame)) {
            (Ok(x), Ok(y)) => x == y,
            (Err(m), Err(n)) => m@ == n,
            _ => false,
        },
{
    match HWInput::from_config_name(e.hw_input.as_str()) {
        None => Err(concat3("sensor config: unknown hw_input '", e.hw_input.as_str(), "'")),
        Some(input) => {
            if e.provider == String::from_str("adc") {
                adc_exec(e, input)
            } else if e.provider == String::from_str("adc_temp") {
                adc_temp_exec(e, input, temp_frame)
            } else {
                let rest = concat3("has unsupported provider '", e.provider.as_str(), "' (expected \"adc\" or \"adc_temp\")");
                Err(about_exec(e.hw_input.as_str(), rest.as_str()))
            }
        },
    }
}

/// Plans the entries of `group`, in file order, stopping at the first one refused: the
/// plans of the entries accepted before it, and its message (none when all were
/// accepted).
pub fn plan_chains(entries: &Vec<ChainEntry>, group: &str, temp_frame: bool) -> (r: (Vec<ChainPlan>, Option<String>))
    ensures
        r.0@ == group_plans(entries@, entries@.len(), group@, temp_frame).0,
        match (r.1, group_plans(entries@, entries@.len(), group@, temp_frame).1) {
            (Some(m), Some(n)) => m@ == n,
            (None, None) => true,
            _ => false,
        },
{
    let target = String::from_str(group);
    let mut plans: Vec<ChainPlan> = Vec::new();
    let mut i: usize = 0;
    while i < entries.len()
        invariant
            i <= entries.len(),
            target@ == group@,
            plans@ == group_plans(entries@, i as nat, group@, temp_frame).0,
            group_plans(entries@, i as nat, group@, temp_frame).1 is None,
        decreases entries.len() - i,
    {
        if entries[i].group == target {
            match plan_chain(&entries[i], temp_frame) {
                Ok(p) => {
                    plans.push(p);
                },
                Err(m) => {
                    proof {
                        lemma_group_plans_stop(entries@, (i + 1) as nat, entries@.len(), group@, temp_frame);
                    }
                    return (plans, Some(m));
                },
            }
        }
        i = i + 1;
    }
    (plans, None)
}

/// An accepted entry is built as it says: the plan reads the input the entry names,
/// keeps its sensor kind, and the processors listed suit that kind; a temperature chain
/// is built only from a one-wire sensor with a well-formed ROM address, and a curve
/// sensor only from a curve of at least two finite points.
pub proof fn lemma_plan_respects_entry(e: ChainEntry, temp_frame: bool)
    requires
        chain_plan(e, temp_frame) is Ok,
    ensures
        ({
            let p = chain_plan(e, temp_frame)->Ok_0;
            &&& input_name(p.input) == e.hw_input@
            &&& p.sensor == e.sensor
            &&& (p.sensor == SensorKind::GenericDigital ==> e.analog_processors == 0)
            &&& (p.sensor != SensorKind::GenericDigital ==> e.digital_processors == 0)
            &&& (p.source == ChainSource::AdcTemp <==> p.sensor == SensorKind::OneWireTemp)
            &&& (p.source == ChainSource::AdcTemp ==> temp_frame && e.rom is Some && rom_ok(e.rom->0@))
            &&& (p.sensor == SensorKind::CalibratedAnalog ==> e.curve_points >= 2 && e.curve_finite)
        }),
{
    let input = input_named(e.hw_input@)->0;
    crate::hardware::hw_providers::lemma_config_name_exact(e.hw_input@, input);
}

/// Entries of other groups never affect loading a group.
pub proof fn lemma_other_groups_ignored(entries: Seq<ChainEntry>, n: nat, group: Seq<char>, temp_frame: bool)
    requires
        n < entries.len(),
        entries[n as int].group@ != group,
    ensures
        group_plans(entries, n + 1, group, temp_frame) == group_plans(entries, n, group, temp_frame),
{
}

/// Once loading has stopped at a refused entry, later entries change nothing.
proof fn lemma_group_plans_stop(entries: Seq<ChainEntry>, n: nat, m: nat, group: Seq<char>, temp_frame: bool)
    requires
        n <= m,
        group_plans(entries, n, group, temp_frame).1 is Some,
    ensures
        group_plans(entries, m, group, temp_frame) == group_plans(entries, n, group, temp_frame),
    decreases m - n,
{
    if n < m {
        lemma_group_plans_stop(entries, n, (m - 1) as nat, group, temp_frame);
    }
}

/// Each digital preset name gives its own preset, and no other name gives one: an entry
/// naming "default", "warning" or "critical" gets that preset, raw constraints stay raw,
/// and any other preset name is refused.
pub proof fn lemma_preset_follows_name(h: Seq<char>, c: ConstraintsEntry)
    ensures
        (constraints_plan(h, c) == Ok::<ConstraintsPlan, Seq<char>>(ConstraintsPlan::Preset(DigitalPreset::Default)))
            <==> (c matches ConstraintsEntry::Preset(p) && p@ == "default"@),
        (constraints_plan(h, c) == Ok::<ConstraintsPlan, Seq<char>>(ConstraintsPlan::Preset(DigitalPreset::Warning)))
            <==> (c matches ConstraintsEntry::Preset(p) && p@ == "warning"@),
        (constraints_plan(h, c) == Ok::<ConstraintsPlan, Seq<char>>(ConstraintsPlan::Preset(DigitalPreset::Critical)))
            <==> (c matches ConstraintsEntry::Preset(p) && p@ == "critical"@),
        (constraints_plan(h, c) == Ok::<ConstraintsPlan, Seq<char>>(ConstraintsPlan::Raw)) <==> c is Raw,
        constraints_plan(h, c) is Err <==> (c matches ConstraintsEntry::Preset(p)
            && p@ != "default"@ && p@ != "warning"@ && p@ != "critical"@),
{
    reveal_strlit("default");
    reveal_strlit("warning");
    reveal_strlit("critical");
    assert("default"@ != "warning"@) by {
        assert("default"@[0] != "warning"@[0]);
    }
    assert("default"@ != "critical"@) by {
        assert("default"@[0] != "critical"@[0]);
    }
    assert("warning"@ != "critical"@) by {
        assert("warning"@[0] != "critical"@[0]);
    }
}

/// An accepted entry's plan carries the constraints its entry names: the preset named
/// in the entry, or raw constraints for a raw entry.
pub proof fn lemma_plan_constraints_follow_entry(e: ChainEntry, temp_frame: bool)
    requires
        chain_plan(e, temp_frame) is Ok,
    ensures
        ({
            let p = chain_plan(e, temp_frame)->Ok_0;
            &&& (p.constraints == ConstraintsPlan::Preset(DigitalPreset::Default)
                <==> (e.constraints matches ConstraintsEntry::Preset(n) && n@ == "default"@))
            &&& (p.constraints == ConstraintsPlan::Preset(DigitalPreset::Warning)
                <==> (e.constraints matches ConstraintsEntry::Preset(n) && n@ == "warning"@))
            &&& (p.constraints == ConstraintsPlan::Preset(DigitalPreset::Critical)
                <==> (e.constraints matches ConstraintsEntry::Preset(n) && n@ == "critical"@))
            &&& (p.constraints == ConstraintsPlan::Raw <==> e.constraints is Raw)
        }),
{
    lemma_preset_follows_name(e.hw_input@, e.constraints);
    assert(constraints_plan(e.hw_input@, e.constraints) == Ok::<ConstraintsPlan, Seq<char>>(
        chain_plan(e, temp_frame)->Ok_0.constraints,
    ));
}

} // verus!
