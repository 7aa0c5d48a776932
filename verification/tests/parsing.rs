//! Tests for the text-output parsers, the wire decoders and the config
//! parser.

use asusctl_backend::AsusctlError;
use asusctl_backend::AuraMode;
use asusctl_backend::KeyboardBrightness;
use asusctl_backend::PowerProfile;
use asusctl_backend::SlashMode;
use asusctl_backend::extract_number;
use asusctl_backend::extract_section;
use asusctl_backend::extract_string_value;
use asusctl_backend::parse_dbus_bool;
use asusctl_backend::parse_dbus_byte;
use asusctl_backend::parse_dbus_uint;
use asusctl_backend::parse_keyboard_brightness;
use asusctl_backend::parse_profile_state;
use asusctl_backend::parse_slash_config;
use asusctl_backend::parse_supported_features;
use asusctl_backend::parse_system_info;

#[test]
fn test_parse_system_info() {
    let output = r#"Starting version 6.2.0
asusctl v6.2.0
asusctl version: 6.2.0
 Product family: ROG Zephyrus G14
     Board name: GA403UV"#;

    let info = parse_system_info(output).unwrap();
    assert_eq!(info.asusctl_version, "6.2.0");
    assert_eq!(info.product_family, "ROG Zephyrus G14");
    assert_eq!(info.board_name, "GA403UV");
}

#[test]
fn test_parse_keyboard_brightness() {
    let output = "Starting version 6.2.0\nCurrent keyboard led brightness: High";
    let brightness = parse_keyboard_brightness(output).unwrap();
    assert_eq!(brightness, KeyboardBrightness::High);
}

#[test]
fn test_parse_profile_state() {
    let output = r#"Starting version 6.2.0
Active profile is Quiet
Profile on AC is Quiet
Profile on Battery is Quiet"#;

    let state = parse_profile_state(output).unwrap();
    assert_eq!(state.active, PowerProfile::Quiet);
    assert_eq!(state.on_ac, PowerProfile::Quiet);
    assert_eq!(state.on_battery, PowerProfile::Quiet);
}

#[test]
fn test_brightness_from_str() {
    assert_eq!(
        KeyboardBrightness::from_str("High").unwrap(),
        KeyboardBrightness::High
    );
    assert_eq!(
        KeyboardBrightness::from_str("off").unwrap(),
        KeyboardBrightness::Off
    );
}

#[test]
fn system_info_missing_labels_stay_empty() {
    let info = parse_system_info("nothing labeled here\nat all").unwrap();
    assert_eq!(info.asusctl_version, "");
    assert_eq!(info.product_family, "");
    assert_eq!(info.board_name, "");
}

#[test]
fn profile_state_missing_lines_default() {
    let state = parse_profile_state("Active profile is Performance").unwrap();
    assert_eq!(state.active, PowerProfile::Performance);
    assert_eq!(state.on_ac, PowerProfile::Balanced);
    assert_eq!(state.on_battery, PowerProfile::Balanced);
}

#[test]
fn profile_state_unknown_name_fails() {
    let err = parse_profile_state("Active profile is Turbo").unwrap_err();
    assert_eq!(
        err,
        AsusctlError::ParseError("Unknown power profile: Turbo".to_string())
    );
}

#[test]
fn keyboard_brightness_report_not_found() {
    let err = parse_keyboard_brightness("no brightness here").unwrap_err();
    assert_eq!(
        err,
        AsusctlError::ParseError("Could not find brightness level in output".to_string())
    );
}

#[test]
fn keyboard_brightness_report_bad_level() {
    let err = parse_keyboard_brightness("Current keyboard led brightness: blinding").unwrap_err();
    assert_eq!(
        err,
        AsusctlError::ParseError("Unknown brightness level: blinding".to_string())
    );
}

#[test]
fn section_extractor_bracketed_list() {
    let output = "Supported Aura Modes:\n[Static, Breathe, Pulse]\nSomething else";
    let section = extract_section(output, "Supported Aura Modes:");
    assert!(section.contains("Static"));
    assert!(section.contains("Breathe"));
    assert!(section.contains("Pulse"));
    assert!(!section.contains("Something else"));
}

#[test]
fn section_extractor_missing_header_is_empty() {
    let output = "no header in sight\n[Static]\n";
    assert_eq!(extract_section(output, "Supported Aura Modes:"), "");
}

#[test]
fn section_extractor_tracks_bracket_depth() {
    let output = "Header:\nstart [outer\n[inner]\nclose]\nafter";
    let section = extract_section(output, "Header:");
    assert_eq!(section, "start [outer\n[inner]\nclose]\n");
}

#[test]
fn supported_features_flags_and_lists() {
    let output = "xyz.ljones.Aura\nxyz.ljones.Platform\nChargeControlEndThreshold\n\
Supported Keyboard Brightness:\n[Off, Low, High]\nSupported Aura Modes:\n[Static, Pulse]\n";
    let features = parse_supported_features(output).unwrap();
    assert!(features.has_aura);
    assert!(features.has_platform);
    assert!(features.has_charge_control);
    assert!(!features.has_fan_curves);
    assert!(!features.has_slash);
    assert!(!features.has_throttle_policy);
    assert_eq!(
        features.keyboard_brightness_levels,
        vec![
            KeyboardBrightness::Off,
            KeyboardBrightness::Low,
            KeyboardBrightness::High
        ]
    );
    assert_eq!(features.aura_modes, vec![AuraMode::Static, AuraMode::Pulse]);
}

#[test]
fn dbus_bool_decoding() {
    assert_eq!(parse_dbus_bool("b true").unwrap(), true);
    assert_eq!(parse_dbus_bool("b false").unwrap(), false);
    assert_eq!(
        parse_dbus_bool("b maybe").unwrap_err(),
        AsusctlError::ParseError("Invalid boolean value: maybe".to_string())
    );
    assert_eq!(
        parse_dbus_bool("u 1").unwrap_err(),
        AsusctlError::ParseError("Expected boolean, got: u 1".to_string())
    );
}

#[test]
fn dbus_byte_decoding() {
    assert_eq!(parse_dbus_byte("y 255").unwrap(), 255);
    assert_eq!(parse_dbus_byte("y 0").unwrap(), 0);
    assert_eq!(
        parse_dbus_byte("y 256").unwrap_err(),
        AsusctlError::ParseError("Invalid byte value: 256".to_string())
    );
    assert_eq!(
        parse_dbus_byte("b true").unwrap_err(),
        AsusctlError::ParseError("Expected byte, got: b true".to_string())
    );
}

#[test]
fn dbus_uint_decoding() {
    assert_eq!(parse_dbus_uint("u 2").unwrap(), 2);
    assert_eq!(parse_dbus_uint("u 4294967295").unwrap(), u32::MAX);
    assert_eq!(
        parse_dbus_uint("u many").unwrap_err(),
        AsusctlError::ParseError("Invalid uint value: many".to_string())
    );
}

#[test]
fn config_numeric_extraction() {
    assert_eq!(extract_number("brightness: 255,"), Some(255));
    assert_eq!(extract_number("display_interval: 3,"), Some(3));
    assert_eq!(extract_number("brightness: none,"), None);
    assert_eq!(extract_number("no colon here"), None);
}

#[test]
fn config_numeric_grammar_details() {
    assert_eq!(extract_number("brightness: +7,"), Some(7));
    assert_eq!(extract_number("brightness: 007,"), Some(7));
    assert_eq!(extract_number("brightness: 255,,,"), Some(255));
    assert_eq!(extract_number("brightness: -1,"), None);
    assert_eq!(extract_number("brightness: 2 55,"), None);
    assert_eq!(extract_number("brightness: 4294967296,"), None);
}

#[test]
fn config_string_extraction() {
    assert_eq!(
        extract_string_value("display_mode: BitStream,").as_deref(),
        Some("BitStream")
    );
    assert_eq!(extract_string_value("bare text"), None);
}

#[test]
fn config_file_full_parse() {
    let content = "(\n    enabled: true,\n    brightness: 128,\n    display_interval: 2,\n    display_mode: BitStream,\n)";
    let state = parse_slash_config(Ok(content.to_string())).unwrap();
    assert!(state.enabled);
    assert_eq!(state.brightness, 128);
    assert_eq!(state.interval, 2);
    assert_eq!(state.mode, SlashMode::BitStream);
}

#[test]
fn config_unknown_mode_falls_back() {
    let content = "display_mode: Disco,";
    let state = parse_slash_config(Ok(content.to_string())).unwrap();
    assert_eq!(state.mode, SlashMode::Flow);
}

#[test]
fn config_read_failure_is_parse_error() {
    let err = parse_slash_config(Err("permission denied".to_string())).unwrap_err();
    assert_eq!(
        err,
        AsusctlError::ParseError("Failed to read slash config: permission denied".to_string())
    );
}
