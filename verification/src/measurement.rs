//! One reading of the multi-gas sensor, and how a reading is recovered from
//! a 26-byte response frame.

use vstd::prelude::*;
use vstd::slice::slice_subrange;
use crate::checksum::{calculate_checksum, checksum_of, read_u16_be, u16_be};

verus! {

/// Length in bytes of a response frame.
pub const RESPONSE_SIZE: usize = 26;

/// First byte of every response frame.
pub const START_BIT: u8 = 0xFF;

/// Command that asks the sensor for a new reading; its last byte is the
/// checksum of the seven bytes before it.
pub const CMD_FETCH: [u8; 9] = [0xFF, 0x01, 0x86, 0x00, 0x00, 0x00, 0x00, 0x00, 0x79];

/// VOC level reported by the sensor.
#[derive(Debug, Clone, Copy, PartialEq, Eq, Structural)]
pub enum VOCLevel {
    Clean,
    Light,
    Moderate,
    Severe,
}

/// One reading: every field is the raw integer sent on the wire, in the
/// fixed-point unit given for it.
#[derive(Debug, Clone, Copy, PartialEq, Eq, Structural)]
pub struct Measurement {
    /// PM 1.0 in µg/m³.
    pub pm_1: u16,
    /// PM 2.5 in µg/m³.
    pub pm_2_5: u16,
    /// PM 10 in µg/m³.
    pub pm_10: u16,
    /// CO₂ in ppm.
    pub co2: u16,
    /// VOC level, 0 to 3.
    pub voc: u8,
    /// Temperature in 0.1 °C, offset by +50.0 °C.
    pub temp: u16,
    /// Relative humidity in %.
    pub relative_humidity: u16,
    /// Formaldehyde in 0.001 mg/m³.
    pub ch2o: u16,
    /// CO in 0.1 ppm.
    pub co: u16,
    /// O₃ in 0.01 ppm.
    pub o3: u16,
    /// NO₂ in 0.01 ppm.
    pub no2: u16,
}

/// The reading with every field zero.
pub open spec fn zero_measurement() -> Measurement {
    Measurement {
        pm_1: 0,
        pm_2_5: 0,
        pm_10: 0,
        co2: 0,
        voc: 0,
        temp: 0,
        relative_humidity: 0,
        ch2o: 0,
        co: 0,
        o3: 0,
        no2: 0,
    }
}

/// A frame is accepted when it has the full length and its last byte is the
/// checksum of bytes 1 to 24.
pub open spec fn frame_valid(s: Seq<u8>) -> bool {
    s.len() == RESPONSE_SIZE && checksum_of(s.subrange(1, 25)) == s[25]
}

/// The reading that a frame of full length carries, field by field.
pub open spec fn parse_frame(s: Seq<u8>) -> Measurement {
    Measurement {
        pm_1: u16_be(s[2], s[3]),
        pm_2_5: u16_be(s[4], s[5]),
        pm_10: u16_be(s[6], s[7]),
        co2: u16_be(s[8], s[9]),
        voc: s[10],
        temp: u16_be(s[11], s[12]),
        relative_humidity: u16_be(s[13], s[14]),
        ch2o: u16_be(s[15], s[16]),
        co: u16_be(s[17], s[18]),
        o3: u16_be(s[19], s[20]),
        no2: u16_be(s[21], s[22]),
    }
}

/// What decoding a buffer gives: the reading of a valid frame, nothing
/// otherwise.
pub open spec fn decode(s: Seq<u8>) -> Option<Measurement> {
    if frame_valid(s) {
        Some(parse_frame(s))
    } else {
        None
    }
}

/// Checksum round trip: any 24 bytes, put behind a first byte and followed
/// by their checksum, make a frame that is accepted.
pub proof fn lemma_checksum_round_trip(first: u8, body: Seq<u8>)
    requires
        body.len() == 24,
    ensures
        frame_valid(seq![first] + body + seq![checksum_of(body)]),
{
    let f = seq![first] + body + seq![checksum_of(body)];
    assert(f.subrange(1, 25) =~= body);
}

/// A frame whose last byte differs from that of an accepted frame, with
/// bytes 1 to 24 the same, is rejected.
pub proof fn lemma_wrong_checksum_rejected(f: Seq<u8>, g: Seq<u8>)
    requires
        frame_valid(f),
        g.len() == f.len(),
        g.subrange(1, 25) == f.subrange(1, 25),
        g[25] != f[25],
    ensures
        !frame_valid(g),
        decode(g) is None,
{
}

/// Flipping any single bit of the checksum byte of an accepted frame gives
/// a frame that is rejected.
pub proof fn lemma_checksum_bit_flip_rejected(f: Seq<u8>, bit: u8)
    requires
        frame_valid(f),
        bit < 8,
    ensures
        !frame_valid(f.update(25, f[25] ^ (1u8 << bit))),
        decode(f.update(25, f[25] ^ (1u8 << bit))) is None,
{
    let c: u8 = f[25];
    let flipped: u8 = c ^ (1u8 << bit);
    assert(flipped != c) by (bit_vector)
        requires
            bit < 8,
            flipped == c ^ (1u8 << bit),
    ;
    let g = f.update(25, flipped);
    assert(g.subrange(1, 25) =~= f.subrange(1, 25));
    lemma_wrong_checksum_rejected(f, g);
}

/// The VOC level that a raw value of 0 to 3 stands for.
pub open spec fn voc_level(raw: u8) -> VOCLevel
    recommends
        raw <= 3,
{
    if raw == 0 {
        VOCLevel::Clean
    } else if raw == 1 {
        VOCLevel::Light
    } else if raw == 2 {
        VOCLevel::Moderate
    } else {
        VOCLevel::Severe
    }
}

impl Measurement {
    /// Particulate matter in µg/m³, for PM 1.0, PM 2.5 and PM 10.
    pub fn pm(&self) -> (r: (u16, u16, u16))
        ensures
            r == (self.pm_1, self.pm_2_5, self.pm_10),
    {
        (self.pm_1, self.pm_2_5, self.pm_10)
    }

    /// Carbon dioxide in ppm.
    pub fn co2(&self) -> (r: u16)
        ensures
            r == self.co2,
    {
        self.co2
    }

    /// Level of volatile organic compounds. The raw value must be one of
    /// the four that the sensor defines.
    pub fn voc(&self) -> (r: VOCLevel)
        requires
            self.voc <= 3,
        ensures
            r == voc_level(self.voc),
    {
        if self.voc == 0 {
            VOCLevel::Clean
        } else if self.voc == 1 {
            VOCLevel::Light
        } else if self.voc == 2 {
            VOCLevel::Moderate
        } else {
            VOCLevel::Severe
        }
    }

    /// Temperature in tenths of a degree Celsius: the raw value less the
    /// offset of 50.0 °C.
    pub fn temperature(&self) -> (r: i32)
        ensures
            r == self.temp as int - 500,
    {
        self.temp as i32 - 500
    }

    /// Relative humidity in %.
    pub fn relative_humidity(&self) -> (r: u16)
        ensures
            r == self.relative_humidity,
    {
        self.relative_humidity
    }

    /// Formaldehyde in thousandths of a mg/m³.
    pub fn ch2o(&self) -> (r: u16)
        ensures
            r == self.ch2o,
    {
        self.ch2o
    }

    /// Carbon monoxide in tenths of a ppm.
    pub fn co(&self) -> (r: u16)
        ensures
            r == self.co,
    {
        self.co
    }

    /// Ozone in hundredths of a ppm.
    pub fn o3(&self) -> (r: u16)
        ensures
            r == self.o3,
    {
        self.o3
    }

    /// Nitrogen dioxide in hundredths of a ppm.
    pub fn no2(&self) -> (r: u16)
        ensures
            r == self.no2,
    {
        self.no2
    }

    /// The all-zero reading shown before the first frame arrives.
    pub fn new() -> (m: Measurement)
        ensures
            m == zero_measurement(),
    {
        Measurement {
            pm_1: 0,
            pm_2_5: 0,
            pm_10: 0,
            co2: 0,
            voc: 0,
            temp: 0,
            relative_humidity: 0,
            ch2o: 0,
            co: 0,
            o3: 0,
            no2: 0,
        }
    }

    /// Decodes one frame. Succeeds exactly on buffers of 26 bytes whose last
    /// byte is the checksum of bytes 1 to 24.
    pub fn try_from(buffer: &[u8]) -> (r: Result<Measurement, ()>)
        ensures
            r is Ok <==> frame_valid(buffer@),
            r is Ok ==> r->Ok_0 == parse_frame(buffer@),
            r.ok() == decode(buffer@),
    {
        if buffer.len() != RESPONSE_SIZE {
            return Err(());
        }
        let checksum: u8 = calculate_checksum(slice_subrange(buffer, 1, 25));
        if checksum != buffer[25] {
            return Err(());
        }
        Ok(
            Measurement {
                pm_1: read_u16_be(slice_subrange(buffer, 2, 4)),
                pm_2_5: read_u16_be(slice_subrange(buffer, 4, 6)),
                pm_10: read_u16_be(slice_subrange(buffer, 6, 8)),
                co2: read_u16_be(slice_subrange(buffer, 8, 10)),
                voc: buffer[10],
                temp: read_u16_be(slice_subrange(buffer, 11, 13)),
                relative_humidity: read_u16_be(slice_subrange(buffer, 13, 15)),
                ch2o: read_u16_be(slice_subrange(buffer, 15, 17)),
                co: read_u16_be(slice_subrange(buffer, 17, 19)),
                o3: read_u16_be(slice_subrange(buffer, 19, 21)),
                no2: read_u16_be(slice_subrange(buffer, 21, 23)),
            },
        )
    }
}

} // verus!
