use breathalyzer_firmware::buzzer::{Buzzer, BuzzerState, TonePhase};
use breathalyzer_firmware::pin::PinLevel;

#[test]
fn new_buzzer_is_disabled_with_pin_low() {
    let buzzer = Buzzer::new();
    assert_eq!(buzzer.state, BuzzerState::Disabled);
    assert!(!buzzer.enabled());
    assert_eq!(buzzer.pin(), PinLevel::Low);
}

#[test]
fn three_toggles_after_enable_give_high_low_high() {
    let mut buzzer = Buzzer::new();
    assert_eq!(buzzer.pin(), PinLevel::Low);
    buzzer.enable();
    assert_eq!(buzzer.pin(), PinLevel::Low);
    assert_eq!(buzzer.toggle_pwm(), Some(PinLevel::High));
    assert_eq!(buzzer.pin(), PinLevel::High);
    assert_eq!(buzzer.toggle_pwm(), Some(PinLevel::Low));
    assert_eq!(buzzer.pin(), PinLevel::Low);
    assert_eq!(buzzer.toggle_pwm(), Some(PinLevel::High));
    assert_eq!(buzzer.pin(), PinLevel::High);
}

#[test]
fn toggle_of_disabled_buzzer_does_nothing() {
    let mut buzzer = Buzzer::new();
    assert_eq!(buzzer.toggle_pwm(), None);
    assert_eq!(buzzer.state, BuzzerState::Disabled);
    assert_eq!(buzzer.pin(), PinLevel::Low);
}

#[test]
fn disable_forces_pin_low_and_forgets_phase() {
    let mut buzzer = Buzzer::new();
    buzzer.enable();
    buzzer.toggle_pwm();
    assert_eq!(buzzer.state, BuzzerState::Enabled { tone_phase: TonePhase::On });
    assert_eq!(buzzer.disable(), PinLevel::Low);
    assert_eq!(buzzer.state, BuzzerState::Disabled);
    assert_eq!(buzzer.pin(), PinLevel::Low);
    buzzer.enable();
    assert_eq!(buzzer.state, BuzzerState::Enabled { tone_phase: TonePhase::Off });
}

#[test]
fn enable_keeps_phase_of_enabled_buzzer() {
    let mut buzzer = Buzzer::new();
    buzzer.enable();
    buzzer.toggle_pwm();
    buzzer.enable();
    assert_eq!(buzzer.state, BuzzerState::Enabled { tone_phase: TonePhase::On });
    assert!(buzzer.enabled());
}

#[test]
fn tone_has_period_of_two_ticks() {
    let mut buzzer = Buzzer::new();
    buzzer.enable();
    let start = buzzer;
    buzzer.toggle_pwm();
    assert_ne!(buzzer, start);
    buzzer.toggle_pwm();
    assert_eq!(buzzer, start);
}

#[test]
fn stale_tick_after_disable_leaves_pin_low() {
    let mut buzzer = Buzzer::new();
    buzzer.enable();
    buzzer.toggle_pwm();
    buzzer.disable();
    assert_eq!(buzzer.toggle_pwm(), None);
    assert_eq!(buzzer.pin(), PinLevel::Low);
}
