use air_sensors::aqi::AirQualityIndex;
use air_sensors::measurement::Measurement;
use air_sensors::monitor::{notification_rgb, Effects, Monitor, Receiver};

const FRAME: [u8; 26] = [
    0xFF, 0x86, 0x00, 0x65, 0x00, 0x36, 0x00, 0x96, 0x01, 0x9A, 0x00, 0x02, 0xFD, 0x00, 0x28,
    0x00, 0x28, 0x00, 0x05, 0x00, 0x20, 0x00, 0x50, 0x00, 0x00, 0xEA,
];

fn reading(o3: u16, pm_2_5: u16, pm_10: u16, co: u16, no2: u16) -> Measurement {
    let mut m = Measurement::new();
    m.o3 = o3;
    m.pm_2_5 = pm_2_5;
    m.pm_10 = pm_10;
    m.co = co;
    m.no2 = no2;
    m
}

fn tier(o3: u16, pm_2_5: u16, pm_10: u16, co: u16, no2: u16) -> AirQualityIndex {
    reading(o3, pm_2_5, pm_10, co, no2).air_quality_index()
}

#[test]
fn ozone_thresholds() {
    // O3 is held in hundredths of a ppm.
    assert_eq!(tier(5, 0, 0, 0, 0), AirQualityIndex::Good);
    assert_eq!(tier(6, 0, 0, 0, 0), AirQualityIndex::Moderate);
    assert_eq!(tier(7, 0, 0, 0, 0), AirQualityIndex::Moderate);
    assert_eq!(tier(8, 0, 0, 0, 0), AirQualityIndex::Sensitive);
    assert_eq!(tier(9, 0, 0, 0, 0), AirQualityIndex::Unhealthy);
    assert_eq!(tier(10, 0, 0, 0, 0), AirQualityIndex::Unhealthy);
    assert_eq!(tier(11, 0, 0, 0, 0), AirQualityIndex::VeryUnhealthy);
    assert_eq!(tier(20, 0, 0, 0, 0), AirQualityIndex::VeryUnhealthy);
    assert_eq!(tier(21, 0, 0, 0, 0), AirQualityIndex::Hazardous);
    assert_eq!(tier(u16::MAX, 0, 0, 0, 0), AirQualityIndex::Hazardous);
}

#[test]
fn pm_2_5_thresholds() {
    assert_eq!(tier(0, 12, 0, 0, 0), AirQualityIndex::Good);
    assert_eq!(tier(0, 13, 0, 0, 0), AirQualityIndex::Moderate);
    assert_eq!(tier(0, 35, 0, 0, 0), AirQualityIndex::Moderate);
    assert_eq!(tier(0, 36, 0, 0, 0), AirQualityIndex::Sensitive);
    assert_eq!(tier(0, 55, 0, 0, 0), AirQualityIndex::Sensitive);
    assert_eq!(tier(0, 56, 0, 0, 0), AirQualityIndex::Unhealthy);
    assert_eq!(tier(0, 150, 0, 0, 0), AirQualityIndex::Unhealthy);
    assert_eq!(tier(0, 151, 0, 0, 0), AirQualityIndex::VeryUnhealthy);
    assert_eq!(tier(0, 250, 0, 0, 0), AirQualityIndex::VeryUnhealthy);
    assert_eq!(tier(0, 251, 0, 0, 0), AirQualityIndex::Hazardous);
}

#[test]
fn pm_10_thresholds() {
    assert_eq!(tier(0, 0, 54, 0, 0), AirQualityIndex::Good);
    assert_eq!(tier(0, 0, 55, 0, 0), AirQualityIndex::Moderate);
    assert_eq!(tier(0, 0, 154, 0, 0), AirQualityIndex::Moderate);
    assert_eq!(tier(0, 0, 155, 0, 0), AirQualityIndex::Sensitive);
    assert_eq!(tier(0, 0, 254, 0, 0), AirQualityIndex::Sensitive);
    assert_eq!(tier(0, 0, 255, 0, 0), AirQualityIndex::Unhealthy);
    assert_eq!(tier(0, 0, 354, 0, 0), AirQualityIndex::Unhealthy);
    assert_eq!(tier(0, 0, 355, 0, 0), AirQualityIndex::VeryUnhealthy);
    assert_eq!(tier(0, 0, 424, 0, 0), AirQualityIndex::VeryUnhealthy);
    assert_eq!(tier(0, 0, 425, 0, 0), AirQualityIndex::Hazardous);
}

#[test]
fn co_thresholds() {
    // CO is held in tenths of a ppm.
    assert_eq!(tier(0, 0, 0, 44, 0), AirQualityIndex::Good);
    assert_eq!(tier(0, 0, 0, 45, 0), AirQualityIndex::Moderate);
    assert_eq!(tier(0, 0, 0, 94, 0), AirQualityIndex::Moderate);
    assert_eq!(tier(0, 0, 0, 95, 0), AirQualityIndex::Sensitive);
    assert_eq!(tier(0, 0, 0, 124, 0), AirQualityIndex::Sensitive);
    assert_eq!(tier(0, 0, 0, 125, 0), AirQualityIndex::Unhealthy);
    assert_eq!(tier(0, 0, 0, 154, 0), AirQualityIndex::Unhealthy);
    assert_eq!(tier(0, 0, 0, 155, 0), AirQualityIndex::VeryUnhealthy);
    assert_eq!(tier(0, 0, 0, 300, 0), AirQualityIndex::VeryUnhealthy);
    assert_eq!(tier(0, 0, 0, 301, 0), AirQualityIndex::Hazardous);
}

#[test]
fn no2_thresholds() {
    // NO2 is held in hundredths of a ppm.
    assert_eq!(tier(0, 0, 0, 0, 5), AirQualityIndex::Good);
    assert_eq!(tier(0, 0, 0, 0, 6), AirQualityIndex::Moderate);
    assert_eq!(tier(0, 0, 0, 0, 10), AirQualityIndex::Moderate);
    assert_eq!(tier(0, 0, 0, 0, 11), AirQualityIndex::Sensitive);
    assert_eq!(tier(0, 0, 0, 0, 36), AirQualityIndex::Sensitive);
    assert_eq!(tier(0, 0, 0, 0, 37), AirQualityIndex::Unhealthy);
    assert_eq!(tier(0, 0, 0, 0, 64), AirQualityIndex::Unhealthy);
    assert_eq!(tier(0, 0, 0, 0, 65), AirQualityIndex::VeryUnhealthy);
    assert_eq!(tier(0, 0, 0, 0, 124), AirQualityIndex::VeryUnhealthy);
    assert_eq!(tier(0, 0, 0, 0, 125), AirQualityIndex::Hazardous);
}

#[test]
fn worst_quantity_decides() {
    assert_eq!(tier(6, 36, 255, 155, 125), AirQualityIndex::Hazardous);
    assert_eq!(tier(6, 36, 255, 155, 0), AirQualityIndex::VeryUnhealthy);
    assert_eq!(tier(6, 36, 255, 0, 0), AirQualityIndex::Unhealthy);
    assert_eq!(tier(6, 36, 0, 0, 0), AirQualityIndex::Sensitive);
}

#[test]
fn pm_1_and_the_rest_take_no_part() {
    let mut m = Measurement::new();
    m.pm_1 = u16::MAX;
    m.co2 = u16::MAX;
    m.voc = 3;
    m.temp = u16::MAX;
    m.relative_humidity = u16::MAX;
    m.ch2o = u16::MAX;
    assert_eq!(m.air_quality_index(), AirQualityIndex::Good);
}

#[test]
fn raising_one_quantity_never_improves_the_tier() {
    let steps: [u16; 12] = [0, 5, 6, 12, 13, 44, 45, 55, 154, 155, 425, 2000];
    let base = [(0, 0, 0, 0, 0), (6, 13, 55, 45, 6), (9, 56, 255, 125, 37), (3, 200, 10, 100, 1)];
    for (o3, pm25, pm10, co, no2) in base {
        for which in 0..5 {
            let mut last = 0;
            for s in steps {
                let mut q = [o3, pm25, pm10, co, no2];
                if s < q[which] {
                    continue;
                }
                q[which] = s;
                let t = tier(q[0], q[1], q[2], q[3], q[4]).severity();
                assert!(t >= last);
                assert!(t >= tier(o3, pm25, pm10, co, no2).severity());
                last = t;
            }
        }
    }
}

#[test]
fn severity_follows_the_order_of_the_tiers() {
    assert_eq!(AirQualityIndex::Good.severity(), 0);
    assert_eq!(AirQualityIndex::Moderate.severity(), 1);
    assert_eq!(AirQualityIndex::Sensitive.severity(), 2);
    assert_eq!(AirQualityIndex::Unhealthy.severity(), 3);
    assert_eq!(AirQualityIndex::VeryUnhealthy.severity(), 4);
    assert_eq!(AirQualityIndex::Hazardous.severity(), 5);
    assert!(AirQualityIndex::Good < AirQualityIndex::Moderate);
    assert!(AirQualityIndex::VeryUnhealthy < AirQualityIndex::Hazardous);
}

#[test]
fn one_colour_per_tier() {
    assert_eq!(notification_rgb(AirQualityIndex::Good), (0, 228, 0));
    assert_eq!(notification_rgb(AirQualityIndex::Moderate), (255, 255, 0));
    assert_eq!(notification_rgb(AirQualityIndex::Sensitive), (255, 126, 0));
    assert_eq!(notification_rgb(AirQualityIndex::Unhealthy), (255, 0, 0));
    assert_eq!(notification_rgb(AirQualityIndex::VeryUnhealthy), (143, 63, 151));
    assert_eq!(notification_rgb(AirQualityIndex::Hazardous), (126, 0, 35));
}

#[test]
fn monitor_announces_a_tier_once() {
    let mut mon = Monitor::new();
    assert_eq!(mon.sample_count(), 0);
    assert_eq!(mon.tier(), AirQualityIndex::Good);
    assert_eq!(mon.accept(reading(0, 0, 0, 0, 0)), None);
    assert_eq!(mon.accept(reading(0, 13, 0, 0, 0)), Some(AirQualityIndex::Moderate));
    assert_eq!(mon.accept(reading(0, 14, 0, 0, 0)), None);
    assert_eq!(mon.accept(reading(0, 14, 0, 0, 0)), None);
    assert_eq!(mon.accept(reading(21, 0, 0, 0, 0)), Some(AirQualityIndex::Hazardous));
    assert_eq!(mon.accept(reading(0, 0, 0, 0, 0)), Some(AirQualityIndex::Good));
    assert_eq!(mon.sample_count(), 6);
    assert_eq!(mon.values(), reading(0, 0, 0, 0, 0));
}

#[test]
fn receiver_goes_from_bytes_to_effects() {
    let quiet = Effects { notify: None, refresh: false };
    let mut r = Receiver::new();
    assert_eq!(r.receive(&[0x00, 0x01]), quiet);
    assert_eq!(r.receive(&FRAME[..13]), quiet);
    assert_eq!(r.monitor().sample_count(), 0);
    assert_eq!(
        r.receive(&FRAME[13..]),
        Effects { notify: Some(AirQualityIndex::Hazardous), refresh: true }
    );
    assert_eq!(r.monitor().sample_count(), 1);
    assert_eq!(r.monitor().values().co2(), 410);
    assert_eq!(r.receive(&FRAME), Effects { notify: None, refresh: true });
    assert_eq!(r.monitor().sample_count(), 2);

    let mut bad = FRAME;
    bad[25] ^= 0x40;
    assert_eq!(r.receive(&bad), quiet);
    assert_eq!(r.monitor().sample_count(), 2);
    assert_eq!(r.monitor().values().co2(), 410);
    assert_eq!(r.monitor().tier(), AirQualityIndex::Hazardous);
}
