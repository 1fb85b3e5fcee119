use breathalyzer_firmware::breathalyzer::{classify, Breathalyzer, Ladder, BAC};
use breathalyzer_firmware::pin::PinLevel;

fn ladder() -> Ladder {
    Ladder { low: 10, medium: 20, high: 30, very_high: 40, death: 50 }
}

#[test]
fn rank_follows_the_severity_scale() {
    assert_eq!(BAC::NONE.code(), 0);
    assert_eq!(BAC::LOW.code(), 1);
    assert_eq!(BAC::MEDIUM.code(), 2);
    assert_eq!(BAC::HIGH.code(), 3);
    assert_eq!(BAC::VERY_HIGH.code(), 4);
    assert_eq!(BAC::DEATH.code(), 5);
}

#[test]
fn classify_gives_exact_level_for_each_band() {
    let l = ladder();
    assert_eq!(classify(&l, 0, 1000), BAC::NONE);
    assert_eq!(classify(&l, 99, 1000), BAC::NONE);
    assert_eq!(classify(&l, 100, 1000), BAC::LOW);
    assert_eq!(classify(&l, 199, 1000), BAC::LOW);
    assert_eq!(classify(&l, 200, 1000), BAC::MEDIUM);
    assert_eq!(classify(&l, 250, 1000), BAC::MEDIUM);
    assert_eq!(classify(&l, 300, 1000), BAC::HIGH);
    assert_eq!(classify(&l, 400, 1000), BAC::VERY_HIGH);
    assert_eq!(classify(&l, 499, 1000), BAC::VERY_HIGH);
    assert_eq!(classify(&l, 500, 1000), BAC::DEATH);
    assert_eq!(classify(&l, 65535, 1000), BAC::DEATH);
}

#[test]
fn classify_rounds_the_percentage_down() {
    let l = ladder();
    // 299 * 100 / 1499 = 19, 300 * 100 / 1499 = 20
    assert_eq!(classify(&l, 299, 1499), BAC::LOW);
    assert_eq!(classify(&l, 300, 1499), BAC::MEDIUM);
}

#[test]
fn classify_with_large_sample_does_not_overflow() {
    let l = Ladder { low: 1, medium: 2, high: 3, very_high: 4, death: 6_553_500 };
    assert_eq!(classify(&l, 65535, 1), BAC::DEATH);
    assert_eq!(classify(&l, 65534, 1), BAC::VERY_HIGH);
}

#[test]
fn classify_without_baseline_is_none() {
    let l = ladder();
    assert_eq!(classify(&l, 0, 0), BAC::NONE);
    assert_eq!(classify(&l, 4095, 0), BAC::NONE);
}

#[test]
fn classify_scans_from_the_highest_level_down() {
    // Bounds that do not rise with the level: the highest level reached wins.
    let l = Ladder { low: 90, medium: 80, high: 65, very_high: 200, death: 300 };
    assert_eq!(classify(&l, 95, 100), BAC::HIGH);
    assert_eq!(classify(&l, 70, 100), BAC::HIGH);
    assert_eq!(classify(&l, 64, 100), BAC::NONE);
    assert_eq!(classify(&l, 250, 100), BAC::VERY_HIGH);
}

#[test]
fn classify_is_monotonic_in_the_sample() {
    let l = ladder();
    let mut last = 0;
    let mut sample: u16 = 0;
    while sample < 2000 {
        let rank = classify(&l, sample, 700).code();
        assert!(rank >= last);
        last = rank;
        sample += 7;
    }
    assert_eq!(last, 5);
}

#[test]
fn new_sensor_is_off_without_baseline() {
    let sensor = Breathalyzer::new(ladder());
    assert!(!sensor.state);
    assert_eq!(sensor.curr_val, 0);
    assert_eq!(sensor.ladder, ladder());
}

#[test]
fn on_and_off_drive_the_heater_pin() {
    let mut sensor = Breathalyzer::new(ladder());
    assert_eq!(sensor.on(), PinLevel::Low);
    assert!(sensor.state);
    assert_eq!(sensor.off(), PinLevel::High);
    assert!(!sensor.state);
}

#[test]
fn sensor_that_is_off_gives_no_reading() {
    let mut sensor = Breathalyzer::new(ladder());
    sensor.curr_val = 1000;
    assert_eq!(sensor.read(300), None);
    assert_eq!(sensor.read_curr(300), None);
}

#[test]
fn read_classifies_against_the_baseline() {
    let mut sensor = Breathalyzer::new(ladder());
    sensor.on();
    sensor.curr_val = 1000;
    assert_eq!(sensor.read(300), Some(BAC::HIGH));
    assert_eq!(sensor.read(50), Some(BAC::NONE));
    sensor.curr_val = 0;
    assert_eq!(sensor.read(300), Some(BAC::NONE));
}

#[test]
fn read_curr_gives_the_raw_sample() {
    let mut sensor = Breathalyzer::new(ladder());
    sensor.on();
    assert_eq!(sensor.read_curr(0), Some(0));
    assert_eq!(sensor.read_curr(4095), Some(4095));
}
