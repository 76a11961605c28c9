use framework_tool_tui::framework::fingerprint::{
    adjust_led_brightness_level_by_delta, led_brightness_level_to_percentage,
    led_brightness_percentage_to_level, led_brightness_percentage_to_level_name, Fingerprint,
    FpLedBrightnessLevel,
};

#[test]
fn adjust_led_brightness_by_delta_for_percentage() {
    let fingerprint = Fingerprint::percentage();

    let result_five = fingerprint.adjust_led_brightness_by_delta(10, -5);
    let result_six = fingerprint.adjust_led_brightness_by_delta(11, -5);
    let result_less_than_five = fingerprint.adjust_led_brightness_by_delta(9, -5);

    assert!(result_five == 5);
    assert!(result_six == 6);
    assert!(result_less_than_five == 9);
}

#[test]
fn adjust_led_brightness_by_delta_for_level_cycles_forward() {
    let fingerprint = Fingerprint::level();

    // 10 is in the low band; a positive delta moves to the medium
    // representative, then high, then wraps back to low.
    assert_eq!(fingerprint.adjust_led_brightness_by_delta(10, 5), 40);
    assert_eq!(fingerprint.adjust_led_brightness_by_delta(40, 5), 55);
    assert_eq!(fingerprint.adjust_led_brightness_by_delta(55, 5), 15);
}

#[test]
fn adjust_led_brightness_by_delta_for_level_cycles_backward() {
    let fingerprint = Fingerprint::level();

    // A non-positive delta rotates the other way round.
    assert_eq!(fingerprint.adjust_led_brightness_by_delta(15, -5), 55);
    assert_eq!(fingerprint.adjust_led_brightness_by_delta(55, -5), 40);
    assert_eq!(fingerprint.adjust_led_brightness_by_delta(40, -5), 15);
    // Zero counts as non-positive and still changes the level.
    assert_eq!(fingerprint.adjust_led_brightness_by_delta(15, 0), 55);
}

#[test]
fn level_round_trip_returns_to_start() {
    for level in [
        FpLedBrightnessLevel::Low,
        FpLedBrightnessLevel::Medium,
        FpLedBrightnessLevel::High,
    ] {
        let forward = adjust_led_brightness_level_by_delta(level, 5);
        assert_eq!(adjust_led_brightness_level_by_delta(forward, -5), level);
        let backward = adjust_led_brightness_level_by_delta(level, -5);
        assert_eq!(adjust_led_brightness_level_by_delta(backward, 5), level);
    }
}

#[test]
fn percentage_band_boundaries() {
    assert_eq!(led_brightness_percentage_to_level(0), FpLedBrightnessLevel::Low);
    assert_eq!(led_brightness_percentage_to_level(15), FpLedBrightnessLevel::Low);
    assert_eq!(led_brightness_percentage_to_level(16), FpLedBrightnessLevel::Medium);
    assert_eq!(led_brightness_percentage_to_level(40), FpLedBrightnessLevel::Medium);
    assert_eq!(led_brightness_percentage_to_level(41), FpLedBrightnessLevel::High);
    assert_eq!(led_brightness_percentage_to_level(100), FpLedBrightnessLevel::High);
}

#[test]
fn level_names_match_bands() {
    assert_eq!(led_brightness_percentage_to_level_name(15), "Low");
    assert_eq!(led_brightness_percentage_to_level_name(40), "Medium");
    assert_eq!(led_brightness_percentage_to_level_name(41), "High");
}

#[test]
fn level_representatives() {
    assert_eq!(led_brightness_level_to_percentage(FpLedBrightnessLevel::Low), 15);
    assert_eq!(led_brightness_level_to_percentage(FpLedBrightnessLevel::Medium), 40);
    assert_eq!(led_brightness_level_to_percentage(FpLedBrightnessLevel::High), 55);
}

#[test]
fn percentage_adjustment_is_not_capped_at_the_top() {
    // The floor guards the bottom only; the panel rejects answers over 100.
    let fingerprint = Fingerprint::percentage();
    assert_eq!(fingerprint.adjust_led_brightness_by_delta(100, 5), 105);
}
