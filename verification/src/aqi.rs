//! Air-quality tiers and the classifier that maps a reading to its tier.

use vstd::prelude::*;
use crate::measurement::Measurement;

verus! {

/// Air-quality tier, from best to worst.
#[derive(Debug, Clone, Copy, PartialEq, Eq, Structural, PartialOrd, Ord, Hash)]
pub enum AirQualityIndex {
    Good,
    Moderate,
    Sensitive,
    Unhealthy,
    VeryUnhealthy,
    Hazardous,
}

/// Thresholds of one tier, each in the unit in which it is a whole number.
pub struct Thresholds {
    /// O₃ in 0.001 ppm.
    pub o3: int,
    /// PM 2.5 in µg/m³.
    pub pm_2_5: int,
    /// PM 10 in µg/m³.
    pub pm_10: int,
    /// CO in 0.1 ppm.
    pub co: int,
    /// NO₂ in 0.001 ppm.
    pub no2: int,
}

/// The thresholds above which a reading belongs to `tier` or a worse one.
/// Those of `Good` lie below zero: every reading reaches it.
pub open spec fn thresholds(tier: AirQualityIndex) -> Thresholds {
    match tier {
        AirQualityIndex::Hazardous => Thresholds { o3: 200, pm_2_5: 250, pm_10: 424, co: 300, no2: 1249 },
        AirQualityIndex::VeryUnhealthy => Thresholds { o3: 105, pm_2_5: 150, pm_10: 354, co: 154, no2: 649 },
        AirQualityIndex::Unhealthy => Thresholds { o3: 85, pm_2_5: 55, pm_10: 254, co: 124, no2: 360 },
        AirQualityIndex::Sensitive => Thresholds { o3: 70, pm_2_5: 35, pm_10: 154, co: 94, no2: 100 },
        AirQualityIndex::Moderate => Thresholds { o3: 54, pm_2_5: 12, pm_10: 54, co: 44, no2: 53 },
        AirQualityIndex::Good => Thresholds { o3: -1, pm_2_5: -1, pm_10: -1, co: -1, no2: -1 },
    }
}

/// O₃ of a reading in 0.001 ppm.
pub open spec fn o3_ppb(m: Measurement) -> int {
    m.o3 as int * 10
}

/// NO₂ of a reading in 0.001 ppm.
pub open spec fn no2_ppb(m: Measurement) -> int {
    m.no2 as int * 10
}

/// A reading reaches a tier when at least one of its five monitored
/// quantities is above that tier's threshold. PM 1.0 takes no part.
pub open spec fn reaches(m: Measurement, tier: AirQualityIndex) -> bool {
    let t = thresholds(tier);
    ||| o3_ppb(m) > t.o3
    ||| m.pm_2_5 as int > t.pm_2_5
    ||| m.pm_10 as int > t.pm_10
    ||| m.co as int > t.co
    ||| no2_ppb(m) > t.no2
}

/// The tier of a reading: the worst tier that it reaches.
pub open spec fn classify(m: Measurement) -> AirQualityIndex {
    if reaches(m, AirQualityIndex::Hazardous) {
        AirQualityIndex::Hazardous
    } else if reaches(m, AirQualityIndex::VeryUnhealthy) {
        AirQualityIndex::VeryUnhealthy
    } else if reaches(m, AirQualityIndex::Unhealthy) {
        AirQualityIndex::Unhealthy
    } else if reaches(m, AirQualityIndex::Sensitive) {
        AirQualityIndex::Sensitive
    } else if reaches(m, AirQualityIndex::Moderate) {
        AirQualityIndex::Moderate
    } else {
        AirQualityIndex::Good
    }
}

impl AirQualityIndex {
    /// Position of the tier in the order from `Good` (0) to `Hazardous` (5).
    pub open spec fn rank(self) -> int {
        match self {
            AirQualityIndex::Good => 0,
            AirQualityIndex::Moderate => 1,
            AirQualityIndex::Sensitive => 2,
            AirQualityIndex::Unhealthy => 3,
            AirQualityIndex::VeryUnhealthy => 4,
            AirQualityIndex::Hazardous => 5,
        }
    }

    /// Position of the tier in the order from `Good` (0) to `Hazardous` (5).
    pub fn severity(self) -> (r: u8)
        ensures
            r as int == self.rank(),
    {
        match self {
            AirQualityIndex::Good => 0,
            AirQualityIndex::Moderate => 1,
            AirQualityIndex::Sensitive => 2,
            AirQualityIndex::Unhealthy => 3,
            AirQualityIndex::VeryUnhealthy => 4,
            AirQualityIndex::Hazardous => 5,
        }
    }
}

impl Measurement {
    /// Overall air quality of the reading.
    pub fn air_quality_index(&self) -> (tier: AirQualityIndex)
        ensures
            tier == classify(*self),
    {
        let o3: u32 = self.o3 as u32 * 10;
        let no2: u32 = self.no2 as u32 * 10;
        let pm_2_5: u16 = self.pm_2_5;
        let pm_10: u16 = self.pm_10;
        let co: u16 = self.co;

        if o3 > 200 || pm_2_5 > 250 || pm_10 > 424 || co > 300 || no2 > 1249 {
            return AirQualityIndex::Hazardous;
        }
        if o3 > 105 || pm_2_5 > 150 || pm_10 > 354 || co > 154 || no2 > 649 {
            return AirQualityIndex::VeryUnhealthy;
        }
        if o3 > 85 || pm_2_5 > 55 || pm_10 > 254 || co > 124 || no2 > 360 {
            return AirQualityIndex::Unhealthy;
        }
        if o3 > 70 || pm_2_5 > 35 || pm_10 > 154 || co > 94 || no2 > 100 {
            return AirQualityIndex::Sensitive;
        }
        if o3 > 54 || pm_2_5 > 12 || pm_10 > 54 || co > 44 || no2 > 53 {
            return AirQualityIndex::Moderate;
        }
        AirQualityIndex::Good
    }
}

/// One reading is nowhere below another in the five monitored quantities.
pub open spec fn monitored_le(a: Measurement, b: Measurement) -> bool {
    &&& a.o3 <= b.o3
    &&& a.pm_2_5 <= b.pm_2_5
    &&& a.pm_10 <= b.pm_10
    &&& a.co <= b.co
    &&& a.no2 <= b.no2
}

/// The classifier is monotone: a reading that is nowhere lower than another
/// in ozone, PM 2.5, PM 10, CO and NO₂ never gets a better tier. Raising a
/// single one of them while the others stay fixed is the special case.
pub proof fn lemma_classify_monotone(a: Measurement, b: Measurement)
    requires
        monitored_le(a, b),
    ensures
        classify(a).rank() <= classify(b).rank(),
{
}

/// The tier does not depend on the quantities that are only reported.
pub proof fn lemma_classify_ignores_unmonitored(a: Measurement, b: Measurement)
    requires
        a.o3 == b.o3,
        a.pm_2_5 == b.pm_2_5,
        a.pm_10 == b.pm_10,
        a.co == b.co,
        a.no2 == b.no2,
    ensures
        classify(a) == classify(b),
{
}

/// A reading has exactly the tier `t` when it reaches `t` and no worse tier.
pub proof fn lemma_classify_is_worst_reached(m: Measurement, t: AirQualityIndex)
    ensures
        classify(m) == t <==> (reaches(m, t) && forall|u: AirQualityIndex|
            u.rank() > t.rank() ==> !reaches(m, u)),
{
}

} // verus!
