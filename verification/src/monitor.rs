//! The state that the application shares between the transport's delivery
//! callback and the display: the current reading and a sample counter, and
//! the decision when a change of tier is to be signalled.

use vstd::prelude::*;
use crate::aqi::{classify, AirQualityIndex};
use crate::decoder::{next_buffer, outcome, ChunkOutcome, FrameDecoder};
use crate::measurement::{zero_measurement, Measurement};

verus! {

/// What the application has to do after a chunk.
#[derive(Debug, Clone, Copy, PartialEq, Eq, Structural)]
pub struct Effects {
    /// The tier to announce, if the tier has changed.
    pub notify: Option<AirQualityIndex>,
    /// Whether the display has to be redrawn.
    pub refresh: bool,
}

/// The tier to announce when `next` replaces `prev`: the new tier if it
/// differs from the old one.
pub open spec fn notification(prev: Measurement, next: Measurement) -> Option<AirQualityIndex> {
    if classify(next) != classify(prev) {
        Some(classify(next))
    } else {
        None
    }
}

/// Colour of the notification LED for a tier, as red, green and blue.
pub open spec fn tier_rgb(tier: AirQualityIndex) -> (u8, u8, u8) {
    match tier {
        AirQualityIndex::Good => (0u8, 228u8, 0u8),
        AirQualityIndex::Moderate => (255u8, 255u8, 0u8),
        AirQualityIndex::Sensitive => (255u8, 126u8, 0u8),
        AirQualityIndex::Unhealthy => (255u8, 0u8, 0u8),
        AirQualityIndex::VeryUnhealthy => (143u8, 63u8, 151u8),
        AirQualityIndex::Hazardous => (126u8, 0u8, 35u8),
    }
}

/// Colour of the notification LED for a tier, as red, green and blue.
pub fn notification_rgb(tier: AirQualityIndex) -> (rgb: (u8, u8, u8))
    ensures
        rgb == tier_rgb(tier),
{
    match tier {
        AirQualityIndex::Good => (0, 228, 0),
        AirQualityIndex::Moderate => (255, 255, 0),
        AirQualityIndex::Sensitive => (255, 126, 0),
        AirQualityIndex::Unhealthy => (255, 0, 0),
        AirQualityIndex::VeryUnhealthy => (143, 63, 151),
        AirQualityIndex::Hazardous => (126, 0, 35),
    }
}

/// Mathematical content of a [`Monitor`].
pub struct MonitorView {
    pub values: Measurement,
    pub sample_count: u32,
}

/// Current reading and number of readings taken so far.
pub struct Monitor {
    values: Measurement,
    sample_count: u32,
}

impl View for Monitor {
    type V = MonitorView;

    closed spec fn view(&self) -> MonitorView {
        MonitorView { values: self.values, sample_count: self.sample_count }
    }
}

/// The counter after one more sample; it wraps around at `u32::MAX`.
pub open spec fn next_count(n: u32) -> u32 {
    if n == u32::MAX {
        0
    } else {
        (n + 1) as u32
    }
}

impl Monitor {
    /// The state before any reading: all zero.
    pub fn new() -> (m: Monitor)
        ensures
            m@.values == zero_measurement(),
            m@.sample_count == 0,
    {
        Monitor { values: Measurement::new(), sample_count: 0 }
    }

    /// The current reading.
    pub fn values(&self) -> (m: Measurement)
        ensures
            m == self@.values,
    {
        self.values
    }

    /// The number of readings taken.
    pub fn sample_count(&self) -> (n: u32)
        ensures
            n == self@.sample_count,
    {
        self.sample_count
    }

    /// The tier of the current reading.
    pub fn tier(&self) -> (t: AirQualityIndex)
        ensures
            t == classify(self@.values),
    {
        self.values.air_quality_index()
    }

    /// Takes a new reading: it replaces the current one as a whole and the
    /// counter goes up by one. Returns the tier to announce, which is the
    /// new tier if it differs from the one before.
    pub fn accept(&mut self, reading: Measurement) -> (notify: Option<AirQualityIndex>)
        ensures
            final(self)@.values == reading,
            final(self)@.sample_count == next_count(old(self)@.sample_count),
            notify == notification(old(self)@.values, reading),
    {
        let last: AirQualityIndex = self.values.air_quality_index();
        self.values = reading;
        self.sample_count = self.sample_count.wrapping_add(1);
        let now: AirQualityIndex = reading.air_quality_index();
        if now != last {
            Some(now)
        } else {
            None
        }
    }

    /// What follows from the outcome of one chunk: a reading is taken and
    /// the display redrawn; anything else changes nothing.
    pub fn react(&mut self, out: ChunkOutcome) -> (e: Effects)
        ensures
            out matches ChunkOutcome::Measured(m) ==> {
                &&& final(self)@.values == m
                &&& final(self)@.sample_count == next_count(old(self)@.sample_count)
                &&& e == (Effects { notify: notification(old(self)@.values, m), refresh: true })
            },
            !(out is Measured) ==> {
                &&& final(self)@ == old(self)@
                &&& e == (Effects { notify: None, refresh: false })
            },
    {
        match out {
            ChunkOutcome::Measured(m) => {
                let notify = self.accept(m);
                Effects { notify, refresh: true }
            },
            _ => Effects { notify: None, refresh: false },
        }
    }
}

/// Decoder and shared state together: what the transport's delivery
/// callback works on.
pub struct Receiver {
    decoder: FrameDecoder,
    monitor: Monitor,
}

/// Mathematical content of a [`Receiver`].
pub struct ReceiverView {
    pub buffer: Seq<u8>,
    pub monitor: MonitorView,
}

impl View for Receiver {
    type V = ReceiverView;

    closed spec fn view(&self) -> ReceiverView {
        ReceiverView { buffer: self.decoder@, monitor: self.monitor@ }
    }
}

impl Receiver {
    /// A receiver that has seen nothing yet.
    pub fn new() -> (r: Receiver)
        ensures
            r@.buffer == Seq::<u8>::empty(),
            r@.monitor.values == zero_measurement(),
            r@.monitor.sample_count == 0,
    {
        Receiver { decoder: FrameDecoder::new(), monitor: Monitor::new() }
    }

    /// The shared state.
    pub fn monitor(&self) -> (m: &Monitor)
        ensures
            m@ == self@.monitor,
    {
        &self.monitor
    }

    /// Handles one chunk from the transport, from the bytes to the effects:
    /// only a chunk that completes a valid frame changes the state.
    pub fn receive(&mut self, data: &[u8]) -> (e: Effects)
        ensures
            final(self)@.buffer == next_buffer(old(self)@.buffer, data@),
            outcome(old(self)@.buffer, data@) matches ChunkOutcome::Measured(m) ==> {
                &&& final(self)@.monitor.values == m
                &&& final(self)@.monitor.sample_count == next_count(
                    old(self)@.monitor.sample_count,
                )
                &&& e == (Effects {
                    notify: notification(old(self)@.monitor.values, m),
                    refresh: true,
                })
            },
            !(outcome(old(self)@.buffer, data@) is Measured) ==> {
                &&& final(self)@.monitor == old(self)@.monitor
                &&& e == (Effects { notify: None, refresh: false })
            },
    {
        let out = self.decoder.push_chunk(data);
        self.monitor.react(out)
    }
}

/// A tier is announced at most once per change: taking the same reading
/// again announces nothing.
pub proof fn lemma_no_repeated_notification(prev: Measurement, m: Measurement)
    ensures
        notification(m, m) is None,
        notification(prev, m) is Some <==> classify(m) != classify(prev),
        notification(prev, m) is Some ==> notification(prev, m) == Some(classify(m)),
{
}

} // verus!
