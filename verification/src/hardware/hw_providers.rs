//! Hardware input identifiers and the providers that read raw data for them.

use crate::clock::{instant_now, nanos_between, since};
use crate::hardware::gpio_input::PinState;
use std::time::Instant;
use vstd::prelude::*;

verus! {

/// Every input the dashboard reads.
#[derive(Debug, Clone, Copy, PartialEq, Eq, Hash, Structural)]
pub enum HWInput {
    // Analog inputs
    Hw12v,
    HwFuelLvl,
    HwOilPress,
    HwEngineCoolantTemp,
    // Digital inputs
    HwBrakeFluidLvlLow,
    HwCharge,
    HwCheckEngine,
    HwDiffLock,
    HwExtLights,
    HwFuelLvlLow,
    HwHighBeam,
    HwInstrIllum,
    HwOilPressLow,
    HwParkBrake,
    HwSpeed,
    HwTacho,
    HwTurnSignal,
}

/// The name of an input in configuration files: the variant's own name.
pub open spec fn input_name(input: HWInput) -> Seq<char> {
    match input {
        HWInput::Hw12v => "Hw12v"@,
        HWInput::HwFuelLvl => "HwFuelLvl"@,
        HWInput::HwOilPress => "HwOilPress"@,
        HWInput::HwEngineCoolantTemp => "HwEngineCoolantTemp"@,
        HWInput::HwBrakeFluidLvlLow => "HwBrakeFluidLvlLow"@,
        HWInput::HwCharge => "HwCharge"@,
        HWInput::HwCheckEngine => "HwCheckEngine"@,
        HWInput::HwDiffLock => "HwDiffLock"@,
        HWInput::HwExtLights => "HwExtLights"@,
        HWInput::HwFuelLvlLow => "HwFuelLvlLow"@,
        HWInput::HwHighBeam => "HwHighBeam"@,
        HWInput::HwInstrIllum => "HwInstrIllum"@,
        HWInput::HwOilPressLow => "HwOilPressLow"@,
        HWInput::HwParkBrake => "HwParkBrake"@,
        HWInput::HwSpeed => "HwSpeed"@,
        HWInput::HwTacho => "HwTacho"@,
        HWInput::HwTurnSignal => "HwTurnSignal"@,
    }
}

/// The input a configuration name denotes, if any.
pub open spec fn input_named(name: Seq<char>) -> Option<HWInput> {
    if name == "Hw12v"@ {
        Some(HWInput::Hw12v)
    } else if name == "HwFuelLvl"@ {
        Some(HWInput::HwFuelLvl)
    } else if name == "HwOilPress"@ {
        Some(HWInput::HwOilPress)
    } else if name == "HwEngineCoolantTemp"@ {
        Some(HWInput::HwEngineCoolantTemp)
    } else if name == "HwBrakeFluidLvlLow"@ {
        Some(HWInput::HwBrakeFluidLvlLow)
    } else if name == "HwCharge"@ {
        Some(HWInput::HwCharge)
    } else if name == "HwCheckEngine"@ {
        Some(HWInput::HwCheckEngine)
    } else if name == "HwDiffLock"@ {
        Some(HWInput::HwDiffLock)
    } else if name == "HwExtLights"@ {
        Some(HWInput::HwExtLights)
    } else if name == "HwFuelLvlLow"@ {
        Some(HWInput::HwFuelLvlLow)
    } else if name == "HwHighBeam"@ {
        Some(HWInput::HwHighBeam)
    } else if name == "HwInstrIllum"@ {
        Some(HWInput::HwInstrIllum)
    } else if name == "HwOilPressLow"@ {
        Some(HWInput::HwOilPressLow)
    } else if name == "HwParkBrake"@ {
        Some(HWInput::HwParkBrake)
    } else if name == "HwSpeed"@ {
        Some(HWInput::HwSpeed)
    } else if name == "HwTacho"@ {
        Some(HWInput::HwTacho)
    } else if name == "HwTurnSignal"@ {
        Some(HWInput::HwTurnSignal)
    } else {
        None
    }
}

impl HWInput {
    /// The input's name in configuration files.
    pub fn config_name(&self) -> (r: &'static str)
        ensures
            r@ == input_name(*self),
    {
        match self {
            HWInput::Hw12v => "Hw12v",
            HWInput::HwFuelLvl => "HwFuelLvl",
            HWInput::HwOilPress => "HwOilPress",
            HWInput::HwEngineCoolantTemp => "HwEngineCoolantTemp",
            HWInput::HwBrakeFluidLvlLow => "HwBrakeFluidLvlLow",
            HWInput::HwCharge => "HwCharge",
            HWInput::HwCheckEngine => "HwCheckEngine",
            HWInput::HwDiffLock => "HwDiffLock",
            HWInput::HwExtLights => "HwExtLights",
            HWInput::HwFuelLvlLow => "HwFuelLvlLow",
            HWInput::HwHighBeam => "HwHighBeam",
            HWInput::HwInstrIllum => "HwInstrIllum",
            HWInput::HwOilPressLow => "HwOilPressLow",
            HWInput::HwParkBrake => "HwParkBrake",
            HWInput::HwSpeed => "HwSpeed",
            HWInput::HwTacho => "HwTacho",
            HWInput::HwTurnSignal => "HwTurnSignal",
        }
    }

    /// The input named `name` in a configuration file; `None` for an unknown name.
    pub fn from_config_name(name: &str) -> (r: Option<HWInput>)
        ensures
            r == input_named(name@),
    {
        let name = String::from_str(name);
        if name == String::from_str("Hw12v") {
            Some(HWInput::Hw12v)
        } else if name == String::from_str("HwFuelLvl") {
            Some(HWInput::HwFuelLvl)
        } else if name == String::from_str("HwOilPress") {
            Some(HWInput::HwOilPress)
        } else if name == String::from_str("HwEngineCoolantTemp") {
            Some(HWInput::HwEngineCoolantTemp)
        } else if name == String::from_str("HwBrakeFluidLvlLow") {
            Some(HWInput::HwBrakeFluidLvlLow)
        } else if name == String::from_str("HwCharge") {
            Some(HWInput::HwCharge)
        } else if name == String::from_str("HwCheckEngine") {
            Some(HWInput::HwCheckEngine)
        } else if name == String::from_str("HwDiffLock") {
            Some(HWInput::HwDiffLock)
        } else if name == String::from_str("HwExtLights") {
            Some(HWInput::HwExtLights)
        } else if name == String::from_str("HwFuelLvlLow") {
            Some(HWInput::HwFuelLvlLow)
        } else if name == String::from_str("HwHighBeam") {
            Some(HWInput::HwHighBeam)
        } else if name == String::from_str("HwInstrIllum") {
            Some(HWInput::HwInstrIllum)
        } else if name == String::from_str("HwOilPressLow") {
            Some(HWInput::HwOilPressLow)
        } else if name == String::from_str("HwParkBrake") {
            Some(HWInput::HwParkBrake)
        } else if name == String::from_str("HwSpeed") {
            Some(HWInput::HwSpeed)
        } else if name == String::from_str("HwTacho") {
            Some(HWInput::HwTacho)
        } else if name == String::from_str("HwTurnSignal") {
            Some(HWInput::HwTurnSignal)
        } else {
            None
        }
    }
}

/// Configuration names round-trip: the name of an input denotes that input.
pub proof fn lemma_config_name_round_trip(input: HWInput)
    ensures
        input_named(input_name(input)) == Some(input),
{
    match input {
        HWInput::Hw12v => {
            reveal_strlit("Hw12v");
        },
        HWInput::HwFuelLvl => {
            reveal_strlit("HwFuelLvl");
            reveal_strlit("Hw12v");
            assert("Hw12v"@.len() != "HwFuelLvl"@.len());
        },
        HWInput::HwOilPress => {
            reveal_strlit("HwOilPress");
            reveal_strlit("Hw12v");
            assert("Hw12v"@.len() != "HwOilPress"@.len());
            reveal_strlit("HwFuelLvl");
            assert("HwFuelLvl"@.len() != "HwOilPress"@.len());
        },
        HWInput::HwEngineCoolantTemp => {
            reveal_strlit("HwEngineCoolantTemp");
            reveal_strlit("Hw12v");
            assert("Hw12v"@.len() != "HwEngineCoolantTemp"@.len());
            reveal_strlit("HwFuelLvl");
            assert("HwFuelLvl"@.len() != "HwEngineCoolantTemp"@.len());
            reveal_strlit("HwOilPress");
            assert("HwOilPress"@.len() != "HwEngineCoolantTemp"@.len());
        },
        HWInput::HwBrakeFluidLvlLow => {
            reveal_strlit("HwBrakeFluidLvlLow");
            reveal_strlit("Hw12v");
            assert("Hw12v"@.len() != "HwBrakeFluidLvlLow"@.len());
            reveal_strlit("HwFuelLvl");
            assert("HwFuelLvl"@.len() != "HwBrakeFluidLvlLow"@.len());
            reveal_strlit("HwOilPress");
            assert("HwOilPress"@.len() != "HwBrakeFluidLvlLow"@.len());
            reveal_strlit("HwEngineCoolantTemp");
            assert("HwEngineCoolantTemp"@.len() != "HwBrakeFluidLvlLow"@.len());
        },
        HWInput::HwCharge => {
            reveal_strlit("HwCharge");
            reveal_strlit("Hw12v");
            assert("Hw12v"@.len() != "HwCharge"@.len());
            reveal_strlit("HwFuelLvl");
            assert("HwFuelLvl"@.len() != "HwCharge"@.len());
            reveal_strlit("HwOilPress");
            assert("HwOilPress"@.len() != "HwCharge"@.len());
            reveal_strlit("HwEngineCoolantTemp");
            assert("HwEngineCoolantTemp"@.len() != "HwCharge"@.len());
            reveal_strlit("HwBrakeFluidLvlLow");
            assert("HwBrakeFluidLvlLow"@.len() != "HwCharge"@.len());
        },
        HWInput::HwCheckEngine => {
            reveal_strlit("HwCheckEngine");
            reveal_strlit("Hw12v");
            assert("Hw12v"@.len() != "HwCheckEngine"@.len());
            reveal_strlit("HwFuelLvl");
            assert("HwFuelLvl"@.len() != "HwCheckEngine"@.len());
            reveal_strlit("HwOilPress");
            assert("HwOilPress"@.len() != "HwCheckEngine"@.len());
            reveal_strlit("HwEngineCoolantTemp");
            assert("HwEngineCoolantTemp"@.len() != "HwCheckEngine"@.len());
            reveal_strlit("HwBrakeFluidLvlLow");
            assert("HwBrakeFluidLvlLow"@.len() != "HwCheckEngine"@.len());
            reveal_strlit("HwCharge");
            assert("HwCharge"@.len() != "HwCheckEngine"@.len());
        },
        HWInput::HwDiffLock => {
            reveal_strlit("HwDiffLock");
            reveal_strlit("Hw12v");
            assert("Hw12v"@.len() != "HwDiffLock"@.len());
            reveal_strlit("HwFuelLvl");
            assert("HwFuelLvl"@.len() != "HwDiffLock"@.len());
            reveal_strlit("HwOilPress");
            assert("HwOilPress"@[2] != "HwDiffLock"@[2]);
            reveal_strlit("HwEngineCoolantTemp");
            assert("HwEngineCoolantTemp"@.len() != "HwDiffLock"@.len());
            reveal_strlit("HwBrakeFluidLvlLow");
            assert("HwBrakeFluidLvlLow"@.len() != "HwDiffLock"@.len());
            reveal_strlit("HwCharge");
            assert("HwCharge"@.len() != "HwDiffLock"@.len());
            reveal_strlit("HwCheckEngine");
            assert("HwCheckEngine"@.len() != "HwDiffLock"@.len());
        },
        HWInput::HwExtLights => {
            reveal_strlit("HwExtLights");
            reveal_strlit("Hw12v");
            assert("Hw12v"@.len() != "HwExtLights"@.len());
            reveal_strlit("HwFuelLvl");
            assert("HwFuelLvl"@.len() != "HwExtLights"@.len());
            reveal_strlit("HwOilPress");
            assert("HwOilPress"@.len() != "HwExtLights"@.len());
            reveal_strlit("HwEngineCoolantTemp");
            assert("HwEngineCoolantTemp"@.len() != "HwExtLights"@.len());
            reveal_strlit("HwBrakeFluidLvlLow");
            assert("HwBrakeFluidLvlLow"@.len() != "HwExtLights"@.len());
            reveal_strlit("HwCharge");
            assert("HwCharge"@.len() != "HwExtLights"@.len());
            reveal_strlit("HwCheckEngine");
            assert("HwCheckEngine"@.len() != "HwExtLights"@.len());
            reveal_strlit("HwDiffLock");
            assert("HwDiffLock"@.len() != "HwExtLights"@.len());
        },
        HWInput::HwFuelLvlLow => {
            reveal_strlit("HwFuelLvlLow");
            reveal_strlit("Hw12v");
            assert("Hw12v"@.len() != "HwFuelLvlLow"@.len());
            reveal_strlit("HwFuelLvl");
            assert("HwFuelLvl"@.len() != "HwFuelLvlLow"@.len());
            reveal_strlit("HwOilPress");
            assert("HwOilPress"@.len() != "HwFuelLvlLow"@.len());
            reveal_strlit("HwEngineCoolantTemp");
            assert("HwEngineCoolantTemp"@.len() != "HwFuelLvlLow"@.len());
            reveal_strlit("HwBrakeFluidLvlLow");
            assert("HwBrakeFluidLvlLow"@.len() != "HwFuelLvlLow"@.len());
            reveal_strlit("HwCharge");
            assert("HwCharge"@.len() != "HwFuelLvlLow"@.len());
            reveal_strlit("HwCheckEngine");
            assert("HwCheckEngine"@.len() != "HwFuelLvlLow"@.len());
            reveal_strlit("HwDiffLock");
            assert("HwDiffLock"@.len() != "HwFuelLvlLow"@.len());
            reveal_strlit("HwExtLights");
            assert("HwExtLights"@.len() != "HwFuelLvlLow"@.len());
        },
        HWInput::HwHighBeam => {
            reveal_strlit("HwHighBeam");
            reveal_strlit("Hw12v");
            assert("Hw12v"@.len() != "HwHighBeam"@.len());
            reveal_strlit("HwFuelLvl");
            assert("HwFuelLvl"@.len() != "HwHighBeam"@.len());
            reveal_strlit("HwOilPress");
            assert("HwOilPress"@[2] != "HwHighBeam"@[2]);
            reveal_strlit("HwEngineCoolantTemp");
            assert("HwEngineCoolantTemp"@.len() != "HwHighBeam"@.len());
            reveal_strlit("HwBrakeFluidLvlLow");
            assert("HwBrakeFluidLvlLow"@.len() != "HwHighBeam"@.len());
            reveal_strlit("HwCharge");
            assert("HwCharge"@.len() != "HwHighBeam"@.len());
            reveal_strlit("HwCheckEngine");
            assert("HwCheckEngine"@.len() != "HwHighBeam"@.len());
            reveal_strlit("HwDiffLock");
            assert("HwDiffLock"@[2] != "HwHighBeam"@[2]);
            reveal_strlit("HwExtLights");
            assert("HwExtLights"@.len() != "HwHighBeam"@.len());
            reveal_strlit("HwFuelLvlLow");
            assert("HwFuelLvlLow"@.len() != "HwHighBeam"@.len());
        },
        HWInput::HwInstrIllum => {
            reveal_strlit("HwInstrIllum");
            reveal_strlit("Hw12v");
            assert("Hw12v"@.len() != "HwInstrIllum"@.len());
            reveal_strlit("HwFuelLvl");
            assert("HwFuelLvl"@.len() != "HwInstrIllum"@.len());
            reveal_strlit("HwOilPress");
            assert("HwOilPress"@.len() != "HwInstrIllum"@.len());
            reveal_strlit("HwEngineCoolantTemp");
            assert("HwEngineCoolantTemp"@.len() != "HwInstrIllum"@.len());
            reveal_strlit("HwBrakeFluidLvlLow");
            assert("HwBrakeFluidLvlLow"@.len() != "HwInstrIllum"@.len());
            reveal_strlit("HwCharge");
            assert("HwCharge"@.len() != "HwInstrIllum"@.len());
            reveal_strlit("HwCheckEngine");
            assert("HwCheckEngine"@.len() != "HwInstrIllum"@.len());
            reveal_strlit("HwDiffLock");
            assert("HwDiffLock"@.len() != "HwInstrIllum"@.len());
            reveal_strlit("HwExtLights");
            assert("HwExtLights"@.len() != "HwInstrIllum"@.len());
            reveal_strlit("HwFuelLvlLow");
            assert("HwFuelLvlLow"@[2] != "HwInstrIllum"@[2]);
            reveal_strlit("HwHighBeam");
            assert("HwHighBeam"@.len() != "HwInstrIllum"@.len());
        },
        HWInput::HwOilPressLow => {
            reveal_strlit("HwOilPressLow");
            reveal_strlit("Hw12v");
            assert("Hw12v"@.len() != "HwOilPressLow"@.len());
            reveal_strlit("HwFuelLvl");
            assert("HwFuelLvl"@.len() != "HwOilPressLow"@.len());
            reveal_strlit("HwOilPress");
            assert("HwOilPress"@.len() != "HwOilPressLow"@.len());
            reveal_strlit("HwEngineCoolantTemp");
            assert("HwEngineCoolantTemp"@.len() != "HwOilPressLow"@.len());
            reveal_strlit("HwBrakeFluidLvlLow");
            assert("HwBrakeFluidLvlLow"@.len() != "HwOilPressLow"@.len());
            reveal_strlit("HwCharge");
            assert("HwCharge"@.len() != "HwOilPressLow"@.len());
            reveal_strlit("HwCheckEngine");
            assert("HwCheckEngine"@[2] != "HwOilPressLow"@[2]);
            reveal_strlit("HwDiffLock");
            assert("HwDiffLock"@.len() != "HwOilPressLow"@.len());
            reveal_strlit("HwExtLights");
            assert("HwExtLights"@.len() != "HwOilPressLow"@.len());
            reveal_strlit("HwFuelLvlLow");
            assert("HwFuelLvlLow"@.len() != "HwOilPressLow"@.len());
            reveal_strlit("HwHighBeam");
            assert("HwHighBeam"@.len() != "HwOilPressLow"@.len());
            reveal_strlit("HwInstrIllum");
            assert("HwInstrIllum"@.len() != "HwOilPressLow"@.len());
        },
        HWInput::HwParkBrake => {
            reveal_strlit("HwParkBrake");
            reveal_strlit("Hw12v");
            assert("Hw12v"@.len() != "HwParkBrake"@.len());
            reveal_strlit("HwFuelLvl");
            assert("HwFuelLvl"@.len() != "HwParkBrake"@.len());
            reveal_strlit("HwOilPress");
            assert("HwOilPress"@.len() != "HwParkBrake"@.len());
            reveal_strlit("HwEngineCoolantTemp");
            assert("HwEngineCoolantTemp"@.len() != "HwParkBrake"@.len());
            reveal_strlit("HwBrakeFluidLvlLow");
            assert("HwBrakeFluidLvlLow"@.len() != "HwParkBrake"@.len());
            reveal_strlit("HwCharge");
            assert("HwCharge"@.len() != "HwParkBrake"@.len());
            reveal_strlit("HwCheckEngine");
            assert("HwCheckEngine"@.len() != "HwParkBrake"@.len());
            reveal_strlit("HwDiffLock");
            assert("HwDiffLock"@.len() != "HwParkBrake"@.len());
            reveal_strlit("HwExtLights");
            assert("HwExtLights"@[2] != "HwParkBrake"@[2]);
            reveal_strlit("HwFuelLvlLow");
            assert("HwFuelLvlLow"@.len() != "HwParkBrake"@.len());
            reveal_strlit("HwHighBeam");
            assert("HwHighBeam"@.len() != "HwParkBrake"@.len());
            reveal_strlit("HwInstrIllum");
            assert("HwInstrIllum"@.len() != "HwParkBrake"@.len());
            reveal_strlit("HwOilPressLow");
            assert("HwOilPressLow"@.len() != "HwParkBrake"@.len());
        },
        HWInput::HwSpeed => {
            reveal_strlit("HwSpeed");
            reveal_strlit("Hw12v");
            assert("Hw12v"@.len() != "HwSpeed"@.len());
            reveal_strlit("HwFuelLvl");
            assert("HwFuelLvl"@.len() != "HwSpeed"@.len());
            reveal_strlit("HwOilPress");
            assert("HwOilPress"@.len() != "HwSpeed"@.len());
            reveal_strlit("HwEngineCoolantTemp");
            assert("HwEngineCoolantTemp"@.len() != "HwSpeed"@.len());
            reveal_strlit("HwBrakeFluidLvlLow");
            assert("HwBrakeFluidLvlLow"@.len() != "HwSpeed"@.len());
            reveal_strlit("HwCharge");
            assert("HwCharge"@.len() != "HwSpeed"@.len());
            reveal_strlit("HwCheckEngine");
            assert("HwCheckEngine"@.len() != "HwSpeed"@.len());
            reveal_strlit("HwDiffLock");
            assert("HwDiffLock"@.len() != "HwSpeed"@.len());
            reveal_strlit("HwExtLights");
            assert("HwExtLights"@.len() != "HwSpeed"@.len());
            reveal_strlit("HwFuelLvlLow");
            assert("HwFuelLvlLow"@.len() != "HwSpeed"@.len());
            reveal_strlit("HwHighBeam");
            assert("HwHighBeam"@.len() != "HwSpeed"@.len());
            reveal_strlit("HwInstrIllum");
            assert("HwInstrIllum"@.len() != "HwSpeed"@.len());
            reveal_strlit("HwOilPressLow");
            assert("HwOilPressLow"@.len() != "HwSpeed"@.len());
            reveal_strlit("HwParkBrake");
            assert("HwParkBrake"@.len() != "HwSpeed"@.len());
        },
        HWInput::HwTacho => {
            reveal_strlit("HwTacho");
            reveal_strlit("Hw12v");
            assert("Hw12v"@.len() != "HwTacho"@.len());
            reveal_strlit("HwFuelLvl");
            assert("HwFuelLvl"@.len() != "HwTacho"@.len());
            reveal_strlit("HwOilPress");
            assert("HwOilPress"@.len() != "HwTacho"@.len());
            reveal_strlit("HwEngineCoolantTemp");
            assert("HwEngineCoolantTemp"@.len() != "HwTacho"@.len());
            reveal_strlit("HwBrakeFluidLvlLow");
            assert("HwBrakeFluidLvlLow"@.len() != "HwTacho"@.len());
            reveal_strlit("HwCharge");
            assert("HwCharge"@.len() != "HwTacho"@.len());
            reveal_strlit("HwCheckEngine");
            assert("HwCheckEngine"@.len() != "HwTacho"@.len());
            reveal_strlit("HwDiffLock");
            assert("HwDiffLock"@.len() != "HwTacho"@.len());
            reveal_strlit("HwExtLights");
            assert("HwExtLights"@.len() != "HwTacho"@.len());
            reveal_strlit("HwFuelLvlLow");
            assert("HwFuelLvlLow"@.len() != "HwTacho"@.len());
            reveal_strlit("HwHighBeam");
            assert("HwHighBeam"@.len() != "HwTacho"@.len());
            reveal_strlit("HwInstrIllum");
            assert("HwInstrIllum"@.len() != "HwTacho"@.len());
            reveal_strlit("HwOilPressLow");
            assert("HwOilPressLow"@.len() != "HwTacho"@.len());
            reveal_strlit("HwParkBrake");
            assert("HwParkBrake"@.len() != "HwTacho"@.len());
            reveal_strlit("HwSpeed");
            assert("HwSpeed"@[2] != "HwTacho"@[2]);
        },
        HWInput::HwTurnSignal => {
            reveal_strlit("HwTurnSignal");
            reveal_strlit("Hw12v");
            assert("Hw12v"@.len() != "HwTurnSignal"@.len());
            reveal_strlit("HwFuelLvl");
            assert("HwFuelLvl"@.len() != "HwTurnSignal"@.len());
            reveal_strlit("HwOilPress");
            assert("HwOilPress"@.len() != "HwTurnSignal"@.len());
            reveal_strlit("HwEngineCoolantTemp");
            assert("HwEngineCoolantTemp"@.len() != "HwTurnSignal"@.len());
            reveal_strlit("HwBrakeFluidLvlLow");
            assert("HwBrakeFluidLvlLow"@.len() != "HwTurnSignal"@.len());
            reveal_strlit("HwCharge");
            assert("HwCharge"@.len() != "HwTurnSignal"@.len());
            reveal_strlit("HwCheckEngine");
            assert("HwCheckEngine"@.len() != "HwTurnSignal"@.len());
            reveal_strlit("HwDiffLock");
            assert("HwDiffLock"@.len() != "HwTurnSignal"@.len());
            reveal_strlit("HwExtLights");
            assert("HwExtLights"@.len() != "HwTurnSignal"@.len());
            reveal_strlit("HwFuelLvlLow");
            assert("HwFuelLvlLow"@[2] != "HwTurnSignal"@[2]);
            reveal_strlit("HwHighBeam");
            assert("HwHighBeam"@.len() != "HwTurnSignal"@.len());
            reveal_strlit("HwInstrIllum");
            assert("HwInstrIllum"@[2] != "HwTurnSignal"@[2]);
            reveal_strlit("HwOilPressLow");
            assert("HwOilPressLow"@.len() != "HwTurnSignal"@.len());
            reveal_strlit("HwParkBrake");
            assert("HwParkBrake"@.len() != "HwTurnSignal"@.len());
            reveal_strlit("HwSpeed");
            assert("HwSpeed"@.len() != "HwTurnSignal"@.len());
            reveal_strlit("HwTacho");
            assert("HwTacho"@.len() != "HwTurnSignal"@.len());
        },
    }
}

/// A name denotes an input only if it is that input's configuration name.
pub proof fn lemma_config_name_exact(name: Seq<char>, input: HWInput)
    requires
        input_named(name) == Some(input),
    ensures
        input_name(input) == name,
{
}

/// Reads raw analog data (ADC counts) for one input.
pub trait HWAnalogProvider {
    /// The input this provider serves.
    fn input(&self) -> HWInput;

    /// Reads the current raw value of `input`.
    fn read_analog(&self, input: HWInput) -> Result<u16, String>;
}

/// Reads raw digital levels for one input.
pub trait HWDigitalProvider {
    /// The input this provider serves.
    fn input(&self) -> HWInput;

    /// Reads the current level of `input`.
    fn read_digital(&self, input: HWInput) -> Result<PinState, String>;
}

/// Digital input read directly from a GPIO pin.
pub struct GPIOProvider {
    input: HWInput,
}

impl GPIOProvider {
    pub closed spec fn configured_input(&self) -> HWInput {
        self.input
    }

    pub fn new(input: HWInput) -> (p: Self)
        ensures
            p.configured_input() == input,
    {
        GPIOProvider { input }
    }
}

impl HWDigitalProvider for GPIOProvider {
    fn input(&self) -> (r: HWInput)
        ensures
            r == self.configured_input(),
    {
        self.input
    }

    /// The pin interface is not wired yet: every read reports a low level.
    fn read_digital(&self, input: HWInput) -> (r: Result<PinState, String>)
        ensures
            r == Ok::<PinState, String>(PinState::Low),
    {
        Ok(PinState::Low)
    }
}

/// Inputs read from an external microcontroller over I2C.
pub struct I2CProvider {
    input: HWInput,
}

impl I2CProvider {
    pub closed spec fn configured_input(&self) -> HWInput {
        self.input
    }

    pub fn new(input: HWInput) -> (p: Self)
        ensures
            p.configured_input() == input,
    {
        I2CProvider { input }
    }
}

impl HWAnalogProvider for I2CProvider {
    fn input(&self) -> HWInput
        returns
            self.configured_input(),
    {
        self.input
    }

    /// The bus is not wired yet: every read reports zero.
    fn read_analog(&self, input: HWInput) -> (r: Result<u16, String>)
        ensures
            r == Ok::<u16, String>(0u16),
    {
        Ok(0)
    }
}

impl HWDigitalProvider for I2CProvider {
    fn input(&self) -> HWInput
        returns
            self.configured_input(),
    {
        self.input
    }

    /// The bus is not wired yet: every read reports a low level.
    fn read_digital(&self, input: HWInput) -> (r: Result<PinState, String>)
        ensures
            r == Ok::<PinState, String>(PinState::Low),
    {
        Ok(PinState::Low)
    }
}

/// How long the digital test provider reports the active level after creation.
pub const TEST_DIGITAL_ACTIVE_NS: u128 = 4_000_000_000;

/// The level the digital test provider reports `elapsed_ns` nanoseconds after creation.
pub open spec fn test_digital_level(elapsed_ns: nat) -> PinState {
    if elapsed_ns < TEST_DIGITAL_ACTIVE_NS { PinState::High } else { PinState::Low }
}

/// Test provider: reports the active (high) level for the first four seconds after its
/// creation, then the inactive (low) level.
pub struct TestDigitalDataProvider {
    input: HWInput,
    start_time: Instant,
}

impl TestDigitalDataProvider {
    pub closed spec fn configured_input(&self) -> HWInput {
        self.input
    }

    /// The instant the provider was created, from which its pattern is timed.
    pub closed spec fn started(&self) -> Instant {
        self.start_time
    }

    pub fn new(input: HWInput) -> (p: Self)
        ensures
            p.configured_input() == input,
    {
        TestDigitalDataProvider { input, start_time: instant_now() }
    }

    /// The level reported `elapsed_ns` nanoseconds after creation.
    pub fn level_at(elapsed_ns: u128) -> (l: PinState)
        ensures
            l == test_digital_level(elapsed_ns as nat),
    {
        if elapsed_ns < TEST_DIGITAL_ACTIVE_NS {
            PinState::High
        } else {
            PinState::Low
        }
    }
}

impl HWDigitalProvider for TestDigitalDataProvider {
    fn input(&self) -> (r: HWInput)
        ensures
            r == self.configured_input(),
    {
        self.input
    }

    /// The level for the time from creation to the current reading of the monotonic
    /// clock.
    fn read_digital(&self, input: HWInput) -> (r: Result<PinState, String>)
        ensures
            exists|now: Instant|
                r == Ok::<PinState, String>(test_digital_level(#[trigger] since(now, self.started()))),
    {
        let now = instant_now();
        let e = nanos_between(&now, &self.start_time);
        assert(e == since(now, self.started()));
        Ok(Self::level_at(e))
    }
}

/// Full period of the analog test pattern, in milliseconds.
pub const TEST_ANALOG_CYCLE_MS: u128 = 5000;
/// Half period of the analog test pattern, in milliseconds.
pub const TEST_ANALOG_HALF_CYCLE_MS: u128 = 2500;
/// Top of the analog test pattern (a 10-bit ADC's full scale).
pub const TEST_ANALOG_MAX: u128 = 1023;

/// The analog test pattern `elapsed_ms` milliseconds after creation: over each five
/// second cycle it ramps from 0 up to 1023 in the first half and back down to 0 in the
/// second, i.e. `floor(1023 * x / 2500)` rising and `floor(1023 - 1023 * x / 2500)`
/// falling, where `x` is the time into the half cycle.
pub open spec fn test_analog_value(elapsed_ms: nat) -> u16 {
    let x = elapsed_ms % 2500;
    if elapsed_ms % 5000 < 2500 {
        ((x * 1023) / 2500) as u16
    } else {
        (1023 - (x * 1023 + 2499) / 2500) as u16
    }
}

/// Test provider: a triangle wave between 0 and 1023 with a five second period, starting
/// at 0 at its creation.
pub struct TestAnalogDataProvider {
    input: HWInput,
    start_time: Instant,
}

impl TestAnalogDataProvider {
    pub closed spec fn configured_input(&self) -> HWInput {
        self.input
    }

    /// The instant the provider was created, from which its pattern is timed.
    pub closed spec fn started(&self) -> Instant {
        self.start_time
    }

    pub fn new(input: HWInput) -> (p: Self)
        ensures
            p.configured_input() == input,
    {
        TestAnalogDataProvider { input, start_time: instant_now() }
    }

    /// The value reported `elapsed_ms` milliseconds after creation.
    pub fn value_at(elapsed_ms: u128) -> (v: u16)
        ensures
            v == test_analog_value(elapsed_ms as nat),
            v <= 1023,
    {
        let x = elapsed_ms % TEST_ANALOG_HALF_CYCLE_MS;
        if elapsed_ms % TEST_ANALOG_CYCLE_MS < TEST_ANALOG_HALF_CYCLE_MS {
            let v = (x * TEST_ANALOG_MAX) / TEST_ANALOG_HALF_CYCLE_MS;
            assert(v <= 1023) by (nonlinear_arith)
                requires
                    x < 2500,
                    v == (x * 1023) / 2500,
            ;
            v as u16
        } else {
            let up = (x * TEST_ANALOG_MAX + (TEST_ANALOG_HALF_CYCLE_MS - 1)) / TEST_ANALOG_HALF_CYCLE_MS;
            assert(up <= 1023) by (nonlinear_arith)
                requires
                    x < 2500,
                    up == (x * 1023 + 2499) / 2500,
            ;
            (TEST_ANALOG_MAX - up) as u16
        }
    }
}

impl HWAnalogProvider for TestAnalogDataProvider {
    fn input(&self) -> (r: HWInput)
        ensures
            r == self.configured_input(),
    {
        self.input
    }

    /// The pattern's value for the whole milliseconds from creation to the current
    /// reading of the monotonic clock.
    fn read_analog(&self, input: HWInput) -> (r: Result<u16, String>)
        ensures
            exists|now: Instant|
                r == Ok::<u16, String>(
                    test_analog_value(#[trigger] since(now, self.started()) / 1_000_000),
                ),
    {
        let now = instant_now();
        let e = nanos_between(&now, &self.start_time);
        assert(e == since(now, self.started()));
        let ms = e / 1_000_000;
        Ok(Self::value_at(ms))
    }
}

/// Test provider that always reports zero.
pub struct TestZeroAnalogDataProvider {
    input: HWInput,
}

impl TestZeroAnalogDataProvider {
    pub closed spec fn configured_input(&self) -> HWInput {
        self.input
    }

    pub fn new(input: HWInput) -> (p: Self)
        ensures
            p.configured_input() == input,
    {
        TestZeroAnalogDataProvider { input }
    }
}

impl HWAnalogProvider for TestZeroAnalogDataProvider {
    fn input(&self) -> (r: HWInput)
        ensures
            r == self.configured_input(),
    {
        self.input
    }

    fn read_analog(&self, _input: HWInput) -> (r: Result<u16, String>)
        ensures
            r == Ok::<u16, String>(0u16),
    {
        Ok(0)
    }
}

/// Test provider that always reports the middle of the 10-bit range (512).
pub struct TestMiddleAnalogDataProvider {
    input: HWInput,
}

impl TestMiddleAnalogDataProvider {
    pub closed spec fn configured_input(&self) -> HWInput {
        self.input
    }

    pub fn new(input: HWInput) -> (p: Self)
        ensures
            p.configured_input() == input,
    {
        TestMiddleAnalogDataProvider { input }
    }
}

impl HWAnalogProvider for TestMiddleAnalogDataProvider {
    fn input(&self) -> (r: HWInput)
        ensures
            r == self.configured_input(),
    {
        self.input
    }

    fn read_analog(&self, _input: HWInput) -> (r: Result<u16, String>)
        ensures
            r == Ok::<u16, String>(512u16),
    {
        Ok(512)
    }
}

/// Test provider that always reports the top of the 10-bit range (1023).
pub struct TestMaxAnalogDataProvider {
    input: HWInput,
}

impl TestMaxAnalogDataProvider {
    pub closed spec fn configured_input(&self) -> HWInput {
        self.input
    }

    pub fn new(input: HWInput) -> (p: Self)
        ensures
            p.configured_input() == input,
    {
        TestMaxAnalogDataProvider { input }
    }
}

impl HWAnalogProvider for TestMaxAnalogDataProvider {
    fn input(&self) -> (r: HWInput)
        ensures
            r == self.configured_input(),
    {
        self.input
    }

    fn read_analog(&self, _input: HWInput) -> (r: Result<u16, String>)
        ensures
            r == Ok::<u16, String>(1023u16),
    {
        Ok(1023)
    }
}

/// The analog test pattern stays within the 10-bit range.
pub proof fn lemma_test_analog_in_range(ms: nat)
    ensures
        test_analog_value(ms) <= 1023,
{
    let x = ms % 2500;
    assert(x < 2500);
    assert((x * 1023) / 2500 <= 1023) by (nonlinear_arith)
        requires
            x < 2500,
    ;
    assert((x * 1023 + 2499) / 2500 <= 1023) by (nonlinear_arith)
        requires
            x < 2500,
    ;
}

/// The analog test pattern starts at zero, peaks at full scale at the half cycle and
/// is back at zero after a full cycle.
pub proof fn lemma_test_analog_shape()
    ensures
        test_analog_value(0) == 0,
        test_analog_value(2500) == 1023,
        test_analog_value(5000) == 0,
{
}

/// The analog test pattern rises during the first half of each cycle.
pub proof fn lemma_test_analog_rises(a: nat, b: nat)
    requires
        a <= b,
        b < 2500,
    ensures
        test_analog_value(a) <= test_analog_value(b),
{
    assert((a * 1023) / 2500 <= (b * 1023) / 2500) by (nonlinear_arith)
        requires
            a <= b,
    ;
}

} // verus!
