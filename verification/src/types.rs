//! Plain value types shared by the session and the worker: voltages,
//! configuration parameters, channel identifiers, and the error taxonomy.

use vstd::prelude::*;

verus! {

/// A voltage held as a whole number of microvolts.
///
/// The chip's reference voltages are exact in this unit (3.3 V and 5.0 V),
/// and the sample scaling below stays in exact integer arithmetic.
#[derive(Clone, Copy, PartialEq, Eq, Structural, Debug)]
pub struct Volt {
    pub microvolts: u64,
}

/// The chip's supply rail: one of the two supported nominal voltages.
#[derive(Clone, Copy, PartialEq, Eq, Structural, Debug)]
pub enum Vdd {
    Positive3v3,
    Positive5v,
}

/// The reference voltage used to scale samples: either the supply rail's
/// nominal voltage, or an explicit override.
#[derive(Clone, Copy, PartialEq, Eq, Structural, Debug)]
pub enum Vref {
    EqualToVdd,
    Other { voltage: Volt },
}

/// Caller-supplied configuration for a session.
#[derive(Clone, Copy, PartialEq, Eq, Structural, Debug)]
pub struct Params {
    pub voltage_drain: Vdd,
    pub voltage_ref: Vref,
}

/// One of the eight analog input pins addressable on the chip.
#[derive(Clone, Copy, PartialEq, Eq, Structural, Debug)]
pub enum Channel {
    Ch0,
    Ch1,
    Ch2,
    Ch3,
    Ch4,
    Ch5,
    Ch6,
    Ch7,
}

impl Channel {
    /// The 3-bit address of the channel, as packed into the command frame.
    pub open spec fn index_spec(self) -> u8 {
        match self {
            Channel::Ch0 => 0,
            Channel::Ch1 => 1,
            Channel::Ch2 => 2,
            Channel::Ch3 => 3,
            Channel::Ch4 => 4,
            Channel::Ch5 => 5,
            Channel::Ch6 => 6,
            Channel::Ch7 => 7,
        }
    }

    pub fn index(self) -> (r: u8)
        ensures
            r == self.index_spec(),
            r < 8,
    {
        match self {
            Channel::Ch0 => 0,
            Channel::Ch1 => 1,
            Channel::Ch2 => 2,
            Channel::Ch3 => 3,
            Channel::Ch4 => 4,
            Channel::Ch5 => 5,
            Channel::Ch6 => 6,
            Channel::Ch7 => 7,
        }
    }
}

/// The bus clock rate allowed by the chip at the given supply rail, in hertz.
pub open spec fn clock_rate_spec(vdd: Vdd) -> u32 {
    match vdd {
        Vdd::Positive3v3 => 1_350_000,
        Vdd::Positive5v => 3_600_000,
    }
}

pub fn clock_rate_hz(vdd: Vdd) -> (r: u32)
    ensures
        r == clock_rate_spec(vdd),
{
    match vdd {
        Vdd::Positive3v3 => 1_350_000,
        Vdd::Positive5v => 3_600_000,
    }
}

/// The nominal voltage of a supply rail, the default reference when the
/// caller asked for "equal to supply".
pub open spec fn nominal_spec(vdd: Vdd) -> Volt {
    match vdd {
        Vdd::Positive3v3 => Volt { microvolts: 3_300_000 },
        Vdd::Positive5v => Volt { microvolts: 5_000_000 },
    }
}

/// The effective reference voltage: an explicit override always wins over
/// the rail's nominal default.
pub open spec fn resolve_v_ref_spec(params: Params) -> Volt {
    match params.voltage_ref {
        Vref::EqualToVdd => nominal_spec(params.voltage_drain),
        Vref::Other { voltage } => voltage,
    }
}

pub fn resolve_v_ref(params: &Params) -> (r: Volt)
    ensures
        r == resolve_v_ref_spec(*params),
{
    match params.voltage_ref {
        Vref::EqualToVdd => match params.voltage_drain {
            Vdd::Positive3v3 => Volt { microvolts: 3_300_000 },
            Vdd::Positive5v => Volt { microvolts: 5_000_000 },
        },
        Vref::Other { voltage } => voltage,
    }
}

/// A terminal failure of a session. None of these is retried: each ends
/// either the construction, the session, or the worker.
#[derive(Debug)]
pub enum Error {
    /// The worker thread could not be created.
    SpiThreadSpawn(std::io::Error),
    /// The worker is gone while the caller still expects a reply.
    SpiThreadLost,
    /// The bus could not be opened or configured; the worker ends before
    /// ever signalling readiness.
    SpiInitialize(rppal::spi::Error),
    /// A bus transaction failed; the worker ends after reporting it.
    SpiTransferSegments(rppal::spi::Error),
    /// The worker broke the protocol: it sent a reading before signalling
    /// readiness, or a readiness signal while a probe was outstanding.
    SpiProtocol,
}

/// A worker-bound message.
#[derive(Clone, Copy, PartialEq, Eq, Structural, Debug)]
pub enum Request {
    ProbeChannel { channel: Channel },
}

/// A caller-bound message. The worker emits `SpiInitialized` at most once,
/// then zero or more `ChannelRead` events, and ends its stream on the
/// first `Error` or on normal shutdown.
#[derive(Debug)]
pub enum Event {
    SpiInitialized,
    ChannelRead { channel: Channel, value: Volt },
    Error(Error),
}

} // verus!
