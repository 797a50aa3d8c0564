//! The SGP30 gas sensor: the commands sent to it, the replies read from
//! it, the order of its start-up and the warm-up of its readings. The bus
//! transfers themselves are the application's.

use vstd::prelude::*;
use crate::checksum::{read_u16_be, u16_be};
use vstd::slice::slice_subrange;

verus! {

/// Command: start the air-quality algorithm.
pub const SGP30_IAQ_INIT: [u8; 2] = [0x20, 0x03];

/// Command: measure air quality.
pub const SGP30_MEASURE_IAQ: [u8; 2] = [0x20, 0x08];

/// Command: set the absolute humidity.
pub const SGP30_SET_ABS_HUMIDITY: [u8; 2] = [0x20, 0x61];

/// Command: read the inceptive TVOC baseline.
pub const SGP30_GET_INCEPTIVE_BASELINE: [u8; 2] = [0x20, 0xB3];

/// Command: set the inceptive TVOC baseline.
pub const SGP30_SET_INCEPTIVE_BASELINE: [u8; 2] = [0x20, 0x77];

/// Command: read the serial number.
pub const SGP30_GET_SERIAL: [u8; 2] = [0x36, 0x82];

/// Absolute humidity set at start-up, 11.8 g/m³ in 8.8 fixed point.
pub const ABS_HUMIDITY: [u8; 2] = [11, 204];

/// Number of samples after which readings are taken to be settled.
pub const WARM_UP_SAMPLES: u32 = 15;

/// The latest settled reading.
#[derive(Debug, Clone, Copy, PartialEq, Eq, Structural)]
pub struct State {
    /// CO₂ equivalent in ppm.
    pub co2_eq: u16,
    /// Total volatile organic compounds in ppb.
    pub tvoc: u16,
}

impl State {
    /// The state before the first settled reading.
    pub fn new() -> (s: Self)
        ensures
            s.co2_eq == 0,
            s.tvoc == 0,
    {
        State { co2_eq: 0, tvoc: 0 }
    }

    /// Whether no settled reading has been taken yet.
    pub fn is_zero(&self) -> (z: bool)
        ensures
            z == (self.co2_eq == 0 && self.tvoc == 0),
    {
        self.co2_eq == 0 && self.tvoc == 0
    }
}

/// A command word followed by a two-byte value and the value's CRC.
pub open spec fn framed(command: [u8; 2], value: [u8; 2], crc: u8) -> Seq<u8> {
    seq![command[0], command[1], value[0], value[1], crc]
}

/// The message that sets the absolute humidity to `value`, whose CRC is
/// `crc`.
pub fn abs_humidity_command(value: &[u8; 2], crc: u8) -> (cmd: [u8; 5])
    ensures
        cmd@ == framed(SGP30_SET_ABS_HUMIDITY, *value, crc),
{
    [SGP30_SET_ABS_HUMIDITY[0], SGP30_SET_ABS_HUMIDITY[1], value[0], value[1], crc]
}

/// The message that sets the TVOC baseline to `value`, whose CRC is `crc`.
pub fn tvoc_baseline_command(value: &[u8; 2], crc: u8) -> (cmd: [u8; 5])
    ensures
        cmd@ == framed(SGP30_SET_INCEPTIVE_BASELINE, *value, crc),
{
    [SGP30_SET_INCEPTIVE_BASELINE[0], SGP30_SET_INCEPTIVE_BASELINE[1], value[0], value[1], crc]
}

/// The serial number in a reply of three words: each word is two bytes
/// followed by a CRC byte, which is left out.
pub fn serial_id(reply: &[u8; 9]) -> (id: [u8; 6])
    ensures
        id@ == seq![reply[0], reply[1], reply[3], reply[4], reply[6], reply[7]],
{
    [reply[0], reply[1], reply[3], reply[4], reply[6], reply[7]]
}

/// The baseline value in a reply of one word with its CRC.
pub fn baseline_value(reply: &[u8; 3]) -> (value: [u8; 2])
    ensures
        value@ == seq![reply[0], reply[1]],
{
    [reply[0], reply[1]]
}

/// The reading in a reply to the measure command: CO₂ equivalent, then
/// TVOC, each a big-endian word followed by a CRC byte.
pub fn iaq_reading(reply: &[u8; 6]) -> (r: (u16, u16))
    ensures
        r.0 == u16_be(reply[0], reply[1]),
        r.1 == u16_be(reply[3], reply[4]),
{
    let bytes: &[u8] = reply.as_slice();
    let co2_eq: u16 = read_u16_be(slice_subrange(bytes, 0, 2));
    let tvoc: u16 = read_u16_be(slice_subrange(bytes, 3, 5));
    (co2_eq, tvoc)
}

/// One step of the sensor's start-up, in the order in which they are taken.
#[derive(Debug, Clone, Copy, PartialEq, Eq, Structural)]
pub enum InitStep {
    /// Ask whether the device answers at all.
    Probe,
    /// Read the serial number.
    GetSerial,
    /// Start the air-quality algorithm.
    IaqInit,
    /// Set the absolute humidity.
    SetAbsHumidity,
    /// Read the inceptive TVOC baseline.
    GetBaseline,
    /// Write that baseline back.
    SetBaseline,
}

/// Where the start-up stands after a step.
#[derive(Debug, Clone, Copy, PartialEq, Eq, Structural)]
pub enum InitProgress {
    /// The step to take next.
    Next(InitStep),
    /// Every step succeeded: the sensor can be read.
    Ready,
    /// The step that failed; the start-up is given up.
    Failed(InitStep),
}

impl InitStep {
    /// Position of the step in the start-up, from 0.
    pub open spec fn index(self) -> int {
        match self {
            InitStep::Probe => 0,
            InitStep::GetSerial => 1,
            InitStep::IaqInit => 2,
            InitStep::SetAbsHumidity => 3,
            InitStep::GetBaseline => 4,
            InitStep::SetBaseline => 5,
        }
    }

    /// The first step.
    pub fn first() -> (step: InitStep)
        ensures
            step.index() == 0,
    {
        InitStep::Probe
    }

    /// What follows a step: after a failure nothing more is tried; after a
    /// success the next step in order, and after the last one the sensor is
    /// ready.
    pub fn after(self, succeeded: bool) -> (p: InitProgress)
        ensures
            !succeeded ==> p == InitProgress::Failed(self),
            succeeded && self.index() == 5 ==> p == InitProgress::Ready,
            succeeded && self.index() < 5 ==> p is Next && p->Next_0.index() == self.index() + 1,
    {
        if !succeeded {
            return InitProgress::Failed(self);
        }
        match self {
            InitStep::Probe => InitProgress::Next(InitStep::GetSerial),
            InitStep::GetSerial => InitProgress::Next(InitStep::IaqInit),
            InitStep::IaqInit => InitProgress::Next(InitStep::SetAbsHumidity),
            InitStep::SetAbsHumidity => InitProgress::Next(InitStep::GetBaseline),
            InitStep::GetBaseline => InitProgress::Next(InitStep::SetBaseline),
            InitStep::SetBaseline => InitProgress::Ready,
        }
    }
}

/// The sensor has to be read once a second from the start, but what it
/// reports is only shown once it has settled.
pub struct Sampler {
    state: State,
    current_sample: u32,
}

/// Mathematical content of a [`Sampler`].
pub struct SamplerView {
    pub state: State,
    pub current_sample: u32,
}

impl View for Sampler {
    type V = SamplerView;

    closed spec fn view(&self) -> SamplerView {
        SamplerView { state: self.state, current_sample: self.current_sample }
    }
}

/// The sampler after a measurement, which may have failed.
pub open spec fn sampled(v: SamplerView, reading: Option<(u16, u16)>) -> SamplerView {
    match reading {
        None => v,
        Some((co2_eq, tvoc)) => SamplerView {
            state: if v.current_sample > WARM_UP_SAMPLES {
                State { co2_eq, tvoc }
            } else {
                v.state
            },
            current_sample: if v.current_sample == u32::MAX {
                0
            } else {
                (v.current_sample + 1) as u32
            },
        },
    }
}

impl Sampler {
    /// A sampler that has measured nothing yet.
    pub fn new() -> (s: Sampler)
        ensures
            s@.state == (State { co2_eq: 0, tvoc: 0 }),
            s@.current_sample == 0,
    {
        Sampler { state: State::new(), current_sample: 0 }
    }

    /// The latest settled reading.
    pub fn state(&self) -> (s: State)
        ensures
            s == self@.state,
    {
        self.state
    }

    /// Number of measurements that succeeded.
    pub fn current_sample(&self) -> (n: u32)
        ensures
            n == self@.current_sample,
    {
        self.current_sample
    }

    /// Takes the result of one measurement. A failed one changes nothing. A
    /// successful one is counted, and shown if more than
    /// `WARM_UP_SAMPLES` were counted before it. Returns whether the
    /// display has to be redrawn.
    pub fn record(&mut self, reading: Option<(u16, u16)>) -> (refresh: bool)
        ensures
            final(self)@ == sampled(old(self)@, reading),
            refresh == (reading is Some && old(self)@.current_sample > WARM_UP_SAMPLES),
    {
        match reading {
            None => false,
            Some((co2_eq, tvoc)) => {
                let settled: bool = self.current_sample > WARM_UP_SAMPLES;
                if settled {
                    self.state = State { co2_eq, tvoc };
                }
                self.current_sample = self.current_sample.wrapping_add(1);
                settled
            },
        }
    }
}

} // verus!
