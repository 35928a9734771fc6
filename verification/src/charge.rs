//! Battery readings and the rule that decides when one is worth publishing.

use vstd::prelude::*;

verus! {

/// Charge state of the power source, as reported on the bus.
#[derive(Clone, Copy, Debug, PartialEq, Eq, Structural)]
pub enum ChargeState {
    Unknown,
    Charging,
    Discharging,
    Empty,
    Full,
}

impl ChargeState {
    /// The name under which the state appears in a state message.
    pub open spec fn spec_name(self) -> Seq<char> {
        match self {
            ChargeState::Unknown => "Unknown"@,
            ChargeState::Charging => "Charging"@,
            ChargeState::Discharging => "Discharging"@,
            ChargeState::Empty => "Empty"@,
            ChargeState::Full => "Full"@,
        }
    }

    /// The name under which the state appears in a state message.
    pub fn name(&self) -> (text: &'static str)
        ensures
            text@ == self.spec_name(),
    {
        match self {
            ChargeState::Unknown => "Unknown",
            ChargeState::Charging => "Charging",
            ChargeState::Discharging => "Discharging",
            ChargeState::Empty => "Empty",
            ChargeState::Full => "Full",
        }
    }
}

/// One sample of the power source.
///
/// The percentage is a single-precision number; it is held as its IEEE 754
/// bit pattern, so that two readings are equal exactly when they hold the
/// same bits and the same state.
#[derive(Clone, Copy, Debug, PartialEq, Eq, Structural)]
pub struct ChargeInfo {
    pub percentage_bits: u32,
    pub state: ChargeState,
}

impl ChargeInfo {
    /// The reading that stands for "nothing known": zero percent, state unknown.
    pub open spec fn spec_unknown() -> ChargeInfo {
        ChargeInfo { percentage_bits: 0, state: ChargeState::Unknown }
    }

    /// A reading of the given percentage, by its bit pattern, and state.
    pub fn new(percentage_bits: u32, state: ChargeState) -> (info: ChargeInfo)
        ensures
            info == (ChargeInfo { percentage_bits, state }),
    {
        ChargeInfo { percentage_bits, state }
    }

    /// The reading that stands for "nothing known": zero percent, state unknown.
    pub fn unknown() -> (info: ChargeInfo)
        ensures
            info == ChargeInfo::spec_unknown(),
    {
        ChargeInfo { percentage_bits: 0, state: ChargeState::Unknown }
    }

    /// What one look at the machine's batteries amounts to. A battery that
    /// could not be read spoils the whole look; otherwise the battery listed
    /// last speaks for the machine, and a machine without batteries reports
    /// nothing known.
    pub open spec fn spec_from_batteries(batteries: Seq<Option<ChargeInfo>>) -> Option<
        ChargeInfo,
    > {
        if exists|i: int| 0 <= i < batteries.len() && batteries[i] is None {
            None
        } else if batteries.len() == 0 {
            Some(ChargeInfo::spec_unknown())
        } else {
            batteries.last()
        }
    }

    /// Sums up one look at the machine's batteries, each entry being what
    /// one battery reported, or `None` where it could not be read.
    pub fn from_batteries(batteries: &Vec<Option<ChargeInfo>>) -> (info: Option<ChargeInfo>)
        ensures
            info == ChargeInfo::spec_from_batteries(batteries@),
    {
        let mut latest = ChargeInfo::unknown();
        let mut i: usize = 0;
        while i < batteries.len()
            invariant
                i <= batteries.len(),
                forall|k: int| 0 <= k < i ==> batteries@[k] is Some,
                i == 0 ==> latest == ChargeInfo::spec_unknown(),
                i > 0 ==> Some(latest) == batteries@[i - 1],
            decreases batteries.len() - i,
        {
            match batteries[i] {
                Some(reading) => {
                    latest = reading;
                },
                None => {
                    return None;
                },
            }
            i += 1;
        }
        Some(latest)
    }
}

/// The reading that a sampling attempt stands for: what the sensor gave, or
/// "nothing known" where the sensor could not be read.
pub open spec fn spec_or_unknown(sample: Option<ChargeInfo>) -> ChargeInfo {
    match sample {
        Some(info) => info,
        None => ChargeInfo::spec_unknown(),
    }
}

/// The reading that a sampling attempt stands for.
pub fn or_unknown(sample: Option<ChargeInfo>) -> (info: ChargeInfo)
    ensures
        info == spec_or_unknown(sample),
{
    match sample {
        Some(info) => info,
        None => ChargeInfo::unknown(),
    }
}

/// Decides whether `candidate` must be published after `previous`, the
/// reading published last: exactly when the two differ.
pub fn should_publish(previous: ChargeInfo, candidate: ChargeInfo) -> (publish: bool)
    ensures
        publish == (previous != candidate),
{
    previous != candidate
}

} // verus!
