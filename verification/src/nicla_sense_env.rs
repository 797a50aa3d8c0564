//! The Nicla Sense Env board: what the bits of its status and control
//! registers mean. The register transfers themselves are the
//! application's.

use vstd::prelude::*;

verus! {

/// Mode of the outdoor air-quality sensor.
#[derive(Clone, Copy, PartialEq, Eq, Debug, Structural)]
pub enum OutdoorSensorMode {
    /// The sensor is off.
    Off,
    /// A thermal cleaning cycle runs.
    Cleaning,
    /// Outdoor air quality is measured.
    OutdoorAirQuality,
}

/// Mode of the indoor air-quality sensor.
#[derive(Clone, Copy, PartialEq, Eq, Debug, Structural)]
pub enum IndoorSensorMode {
    /// The sensor is off.
    Off,
    /// A thermal cleaning cycle runs.
    Cleaning,
    /// Indoor air quality is measured.
    IndoorAirQuality,
    /// Indoor air quality at low power and lower accuracy.
    IndoorAirQualityLowPower,
    /// Air quality of a public building.
    PublicBuildingAirQuality,
    /// Sulfur odour is detected.
    Sulfur,
}

/// Baud rates that the three low bits of the UART control register select.
pub const BAUD_RATE_MAP: [u32; 8] = [1200, 2400, 4800, 9600, 19200, 38400, 57600, 115200];

impl OutdoorSensorMode {
    /// The number that stands for the mode in the status register.
    pub open spec fn code(self) -> u8 {
        match self {
            OutdoorSensorMode::Off => 0,
            OutdoorSensorMode::Cleaning => 1,
            OutdoorSensorMode::OutdoorAirQuality => 2,
        }
    }

    /// The number that stands for the mode in the status register.
    pub fn to_code(self) -> (c: u8)
        ensures
            c == self.code(),
            c < 3,
    {
        match self {
            OutdoorSensorMode::Off => 0,
            OutdoorSensorMode::Cleaning => 1,
            OutdoorSensorMode::OutdoorAirQuality => 2,
        }
    }

    /// The mode that a number stands for, if any.
    pub fn from_code(c: u8) -> (m: Option<OutdoorSensorMode>)
        ensures
            c < 3 <==> m is Some,
            m is Some ==> m->Some_0.code() == c,
    {
        if c == 0 {
            Some(OutdoorSensorMode::Off)
        } else if c == 1 {
            Some(OutdoorSensorMode::Cleaning)
        } else if c == 2 {
            Some(OutdoorSensorMode::OutdoorAirQuality)
        } else {
            None
        }
    }
}

impl Default for OutdoorSensorMode {
    fn default() -> (m: Self)
        ensures
            m == OutdoorSensorMode::OutdoorAirQuality,
    {
        OutdoorSensorMode::OutdoorAirQuality
    }
}

impl IndoorSensorMode {
    /// The number that stands for the mode in the status register.
    pub open spec fn code(self) -> u8 {
        match self {
            IndoorSensorMode::Off => 0,
            IndoorSensorMode::Cleaning => 1,
            IndoorSensorMode::IndoorAirQuality => 2,
            IndoorSensorMode::IndoorAirQualityLowPower => 3,
            IndoorSensorMode::PublicBuildingAirQuality => 4,
            IndoorSensorMode::Sulfur => 5,
        }
    }

    /// The number that stands for the mode in the status register.
    pub fn to_code(self) -> (c: u8)
        ensures
            c == self.code(),
            c < 6,
    {
        match self {
            IndoorSensorMode::Off => 0,
            IndoorSensorMode::Cleaning => 1,
            IndoorSensorMode::IndoorAirQuality => 2,
            IndoorSensorMode::IndoorAirQualityLowPower => 3,
            IndoorSensorMode::PublicBuildingAirQuality => 4,
            IndoorSensorMode::Sulfur => 5,
        }
    }

    /// The mode that a number stands for, if any.
    pub fn from_code(c: u8) -> (m: Option<IndoorSensorMode>)
        ensures
            c < 6 <==> m is Some,
            m is Some ==> m->Some_0.code() == c,
    {
        if c == 0 {
            Some(IndoorSensorMode::Off)
        } else if c == 1 {
            Some(IndoorSensorMode::Cleaning)
        } else if c == 2 {
            Some(IndoorSensorMode::IndoorAirQuality)
        } else if c == 3 {
            Some(IndoorSensorMode::IndoorAirQualityLowPower)
        } else if c == 4 {
            Some(IndoorSensorMode::PublicBuildingAirQuality)
        } else if c == 5 {
            Some(IndoorSensorMode::Sulfur)
        } else {
            None
        }
    }
}

impl Default for IndoorSensorMode {
    fn default() -> (m: Self)
        ensures
            m == IndoorSensorMode::IndoorAirQuality,
    {
        IndoorSensorMode::IndoorAirQuality
    }
}

/// Bits 4 and 5 of the status register: the outdoor mode's number.
pub open spec fn outdoor_bits(status: u8) -> u8 {
    (status >> 4) & 3
}

/// Bits 1 to 3 of the status register: the indoor mode's number.
pub open spec fn indoor_bits(status: u8) -> u8 {
    (status >> 1) & 7
}

/// The outdoor mode that the status register shows. Of the four numbers
/// that its two bits can hold, the last stands for no mode.
pub fn outdoor_sensor_mode(status: u8) -> (m: Option<OutdoorSensorMode>)
    ensures
        m is Some <==> outdoor_bits(status) < 3,
        m is Some ==> m->Some_0.code() == outdoor_bits(status),
{
    OutdoorSensorMode::from_code((status >> 4) & 3)
}

/// The status register with the outdoor mode set to `mode` and every other
/// bit as it was.
pub fn set_outdoor_sensor_mode(status: u8, mode: OutdoorSensorMode) -> (new_status: u8)
    ensures
        new_status == (status & !(3u8 << 4)) | (mode.code() << 4),
        outdoor_bits(new_status) == mode.code(),
        new_status & !(3u8 << 4) == status & !(3u8 << 4),
{
    let code: u8 = mode.to_code();
    let new_status: u8 = (status & !(3u8 << 4)) | (code << 4);
    assert((new_status >> 4) & 3 == code && new_status & !(3u8 << 4) == status & !(3u8 << 4))
        by (bit_vector)
        requires
            code < 3,
            new_status == (status & !(3u8 << 4)) | (code << 4),
    ;
    new_status
}

/// The indoor mode that the status register shows. Of the eight numbers
/// that its three bits can hold, the last two stand for no mode.
pub fn indoor_sensor_mode(status: u8) -> (m: Option<IndoorSensorMode>)
    ensures
        m is Some <==> indoor_bits(status) < 6,
        m is Some ==> m->Some_0.code() == indoor_bits(status),
{
    IndoorSensorMode::from_code((status >> 1) & 7)
}

/// The status register with the indoor mode set to `mode` and every other
/// bit as it was.
pub fn set_indoor_sensor_mode(status: u8, mode: IndoorSensorMode) -> (new_status: u8)
    ensures
        new_status == (status & !(7u8 << 1)) | (mode.code() << 1),
        indoor_bits(new_status) == mode.code(),
        new_status & !(7u8 << 1) == status & !(7u8 << 1),
{
    let code: u8 = mode.to_code();
    let new_status: u8 = (status & !(7u8 << 1)) | (code << 1);
    assert((new_status >> 1) & 7 == code && new_status & !(7u8 << 1) == status & !(7u8 << 1))
        by (bit_vector)
        requires
            code < 6,
            new_status == (status & !(7u8 << 1)) | (code << 1),
    ;
    new_status
}

/// The control value that resets the board: the status with bit 7 set.
pub fn reset(status: u8) -> (control: u8)
    ensures
        control == status | 0x80,
{
    let control: u8 = status | (1u8 << 7);
    assert(control == status | 0x80) by (bit_vector)
        requires
            control == status | (1u8 << 7),
    ;
    control
}

/// The control value that sends the board to deep sleep: the status with
/// bit 6 set.
pub fn deep_sleep(status: u8) -> (control: u8)
    ensures
        control == status | 0x40,
{
    let control: u8 = status | (1u8 << 6);
    assert(control == status | 0x40) by (bit_vector)
        requires
            control == status | (1u8 << 6),
    ;
    control
}

/// The baud rate that the UART control register selects with its three low
/// bits.
pub fn uart_baud_rate(control: u8) -> (rate: u32)
    ensures
        rate == BAUD_RATE_MAP[(control & 0x07) as int],
{
    let index: u8 = control & 0x07;
    assert(index < 8) by (bit_vector)
        requires
            index == control & 0x07,
    ;
    BAUD_RATE_MAP[index as usize]
}

/// Setting one mode leaves the other as it was.
pub proof fn lemma_modes_independent(status: u8, code: u8)
    by (bit_vector)
    ensures
        code < 3 ==> ((((status & !(3u8 << 4)) | (code << 4)) >> 1) & 7) == ((status >> 1) & 7),
        code < 6 ==> ((((status & !(7u8 << 1)) | (code << 1)) >> 4) & 3) == ((status >> 4) & 3),
{
}

} // verus!
