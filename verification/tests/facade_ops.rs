//! Tests for outcome classification, the facade's fallback reads, the
//! argument lists of the write operations, and the enum conversions.

use asusctl_backend::AsusctlError;
use asusctl_backend::AuraMode;
use asusctl_backend::ExecOutcome;
use asusctl_backend::KeyboardBrightness;
use asusctl_backend::PowerProfile;
use asusctl_backend::SlashMode;
use asusctl_backend::check_availability;
use asusctl_backend::confirm_write;
use asusctl_backend::dbus_property_request;
use asusctl_backend::disable_slash;
use asusctl_backend::enable_slash;
use asusctl_backend::get_charge_limit_dbus;
use asusctl_backend::get_keyboard_brightness;
use asusctl_backend::get_keyboard_brightness_dbus;
use asusctl_backend::get_platform_profile_dbus;
use asusctl_backend::get_slash_enabled;
use asusctl_backend::get_slash_enabled_dbus;
use asusctl_backend::get_slash_mode;
use asusctl_backend::get_slash_state;
use asusctl_backend::get_system_info;
use asusctl_backend::read_dbus_property;
use asusctl_backend::run_asusctl;
use asusctl_backend::set_charge_limit;
use asusctl_backend::set_keyboard_brightness;
use asusctl_backend::set_profile;
use asusctl_backend::set_profile_outcome;
use asusctl_backend::set_slash_brightness;
use asusctl_backend::set_slash_show_on_boot;
use asusctl_backend::version_request;

fn completed(success: bool, stdout: &str, stderr: &str) -> ExecOutcome {
    ExecOutcome::Completed {
        success,
        stdout: stdout.to_string(),
        stderr: stderr.to_string(),
    }
}

#[test]
fn executor_service_token_wins_over_zero_exit() {
    let outcome = completed(true, "usable output", "asusd could not be reached");
    assert_eq!(
        run_asusctl(outcome).unwrap_err(),
        AsusctlError::ServiceNotRunning
    );
}

#[test]
fn executor_connection_refused_is_service_error() {
    let outcome = completed(false, "", "Connection refused");
    assert_eq!(
        run_asusctl(outcome).unwrap_err(),
        AsusctlError::ServiceNotRunning
    );
}

#[test]
fn executor_nonzero_exit_still_returns_stdout() {
    let outcome = completed(false, "usable data", "warning: something minor");
    assert_eq!(run_asusctl(outcome).unwrap(), "usable data");
}

#[test]
fn executor_spawn_failures_classified() {
    let missing = ExecOutcome::SpawnError {
        not_found: true,
        message: "No such file or directory".to_string(),
    };
    assert_eq!(run_asusctl(missing).unwrap_err(), AsusctlError::NotInstalled);

    let other = ExecOutcome::SpawnError {
        not_found: false,
        message: "resource exhausted".to_string(),
    };
    assert_eq!(
        run_asusctl(other).unwrap_err(),
        AsusctlError::CommandFailed("resource exhausted".to_string())
    );
}

#[test]
fn error_messages_are_stable() {
    assert_eq!(
        AsusctlError::NotInstalled.message(),
        "asusctl is not installed"
    );
    assert_eq!(
        AsusctlError::ServiceNotRunning.message(),
        "asusd service is not running"
    );
    assert_eq!(
        AsusctlError::CommandFailed("boom".to_string()).message(),
        "Command failed: boom"
    );
    assert_eq!(
        AsusctlError::ParseError("bad".to_string()).message(),
        "Parse error: bad"
    );
}

#[test]
fn bus_reader_classification() {
    let ok = completed(true, "  b true \n", "");
    assert_eq!(read_dbus_property(ok).unwrap(), "b true");

    let gone = completed(false, "", "No such object path");
    assert_eq!(
        read_dbus_property(gone).unwrap_err(),
        AsusctlError::ServiceNotRunning
    );

    let failed = completed(false, "", "some other failure");
    assert_eq!(
        read_dbus_property(failed).unwrap_err(),
        AsusctlError::CommandFailed("some other failure".to_string())
    );

    let spawn = ExecOutcome::SpawnError {
        not_found: true,
        message: "busctl missing".to_string(),
    };
    assert_eq!(
        read_dbus_property(spawn).unwrap_err(),
        AsusctlError::CommandFailed("busctl failed: busctl missing".to_string())
    );
}

#[test]
fn availability_follows_version_invocation() {
    assert!(check_availability(completed(true, "asusctl v6.2.0", "")).is_ok());
    assert_eq!(
        check_availability(completed(true, "", "asusd down")).unwrap_err(),
        AsusctlError::ServiceNotRunning
    );
}

#[test]
fn system_info_through_facade() {
    let outcome = completed(true, "asusctl version: 6.2.0\nBoard name: GA403UV", "");
    let info = get_system_info(outcome).unwrap();
    assert_eq!(info.asusctl_version, "6.2.0");
    assert_eq!(info.board_name, "GA403UV");
}

#[test]
fn keyboard_brightness_through_facade() {
    let outcome = completed(false, "Current keyboard led brightness: Med", "");
    assert_eq!(
        get_keyboard_brightness(outcome).unwrap(),
        KeyboardBrightness::Med
    );
}

#[test]
fn platform_profile_codes_decode() {
    assert_eq!(
        get_platform_profile_dbus(completed(true, "u 0", "")).unwrap(),
        PowerProfile::Quiet
    );
    assert_eq!(
        get_platform_profile_dbus(completed(true, "u 2", "")).unwrap(),
        PowerProfile::Performance
    );
    assert_eq!(
        get_platform_profile_dbus(completed(true, "u 7", "")).unwrap_err(),
        AsusctlError::ParseError("Unknown profile value: 7".to_string())
    );
}

#[test]
fn keyboard_brightness_codes_decode() {
    assert_eq!(
        get_keyboard_brightness_dbus(completed(true, "u 3", "")).unwrap(),
        KeyboardBrightness::High
    );
    assert_eq!(
        get_keyboard_brightness_dbus(completed(true, "u 9", "")).unwrap_err(),
        AsusctlError::ParseError("Unknown brightness value: 9".to_string())
    );
}

#[test]
fn charge_limit_decodes_byte() {
    assert_eq!(get_charge_limit_dbus(completed(true, "y 80", "")).unwrap(), 80);
}

#[test]
fn slash_enabled_bus_path() {
    assert_eq!(
        get_slash_enabled_dbus(completed(true, "b true", "")).unwrap(),
        true
    );
}

#[test]
fn slash_enabled_falls_back_to_config() {
    let bus: Result<bool, AsusctlError> = Err(AsusctlError::ServiceNotRunning);
    let config = Some(Ok("enabled: true,".to_string()));
    assert_eq!(get_slash_enabled(bus, config).unwrap(), true);
}

#[test]
fn slash_enabled_prefers_bus() {
    let bus: Result<bool, AsusctlError> = Ok(false);
    assert_eq!(get_slash_enabled(bus, None).unwrap(), false);
}

#[test]
fn slash_state_from_bus_leaves_default_mode() {
    let state = get_slash_state(Ok(true), Ok(200), Ok(3), None).unwrap();
    assert!(state.enabled);
    assert_eq!(state.brightness, 200);
    assert_eq!(state.interval, 3);
    assert_eq!(state.mode, SlashMode::Flow);
}

#[test]
fn slash_state_falls_back_to_config() {
    let config = "enabled: false,\nbrightness: 10,\ndisplay_interval: 1,\ndisplay_mode: Hazard,";
    let state = get_slash_state(
        Err(AsusctlError::ServiceNotRunning),
        Ok(200),
        Ok(3),
        Some(Ok(config.to_string())),
    )
    .unwrap();
    assert!(!state.enabled);
    assert_eq!(state.brightness, 10);
    assert_eq!(state.interval, 1);
    assert_eq!(state.mode, SlashMode::Hazard);
}

#[test]
fn slash_mode_reads_config_only() {
    assert_eq!(
        get_slash_mode(Ok("display_mode: Spectrum,".to_string())).unwrap(),
        SlashMode::Spectrum
    );
}

#[test]
fn version_request_arguments() {
    let plan = version_request();
    assert_eq!(plan.program, "asusctl");
    assert_eq!(plan.args, vec!["--version"]);
}

#[test]
fn dbus_request_arguments() {
    let plan = dbus_property_request("/xyz/ljones", "xyz.ljones.Platform", "PlatformProfile");
    assert_eq!(plan.program, "busctl");
    assert_eq!(
        plan.args,
        vec![
            "get-property",
            "xyz.ljones.Asusd",
            "/xyz/ljones",
            "xyz.ljones.Platform",
            "PlatformProfile"
        ]
    );
}

#[test]
fn write_plans_build_exact_arguments() {
    let plan = set_keyboard_brightness(KeyboardBrightness::Low);
    assert_eq!(plan.program, "asusctl");
    assert_eq!(plan.args, vec!["--kbd-bright", "low"]);

    assert_eq!(set_slash_brightness(255).args, vec!["slash", "--brightness", "255"]);
    assert_eq!(set_charge_limit(80).args, vec!["--chg-limit", "80"]);
    assert_eq!(enable_slash().args, vec!["slash", "--enable"]);
    assert_eq!(disable_slash().args, vec!["slash", "--disable"]);
    assert_eq!(
        set_slash_show_on_boot(true).args,
        vec!["slash", "--show-on-boot", "true"]
    );
    assert_eq!(
        set_slash_show_on_boot(false).args,
        vec!["slash", "--show-on-boot", "false"]
    );
    assert_eq!(
        asusctl_backend::set_slash_mode(SlashMode::GameOver).args,
        vec!["slash", "--mode", "GameOver"]
    );
    assert_eq!(
        asusctl_backend::set_slash_interval(5).args,
        vec!["slash", "--interval", "5"]
    );
    assert_eq!(
        asusctl_backend::set_slash_show_battery_warning(true).args,
        vec!["slash", "--show-battery-warning", "true"]
    );
}

#[test]
fn slash_brightness_and_interval_fall_back() {
    let config = "brightness: 33,\ndisplay_interval: 4,";
    assert_eq!(
        asusctl_backend::get_slash_brightness(
            Err(AsusctlError::ServiceNotRunning),
            Some(Ok(config.to_string()))
        )
        .unwrap(),
        33
    );
    assert_eq!(
        asusctl_backend::get_slash_interval(
            Err(AsusctlError::ServiceNotRunning),
            Some(Ok(config.to_string()))
        )
        .unwrap(),
        4
    );
    assert_eq!(
        asusctl_backend::get_slash_brightness(Ok(9), None).unwrap(),
        9
    );
}

#[test]
fn profile_setter_strategies_in_order() {
    let plans = set_profile(PowerProfile::Quiet);
    assert_eq!(plans.len(), 2);
    assert_eq!(plans[0].program, "powerprofilesctl");
    assert_eq!(plans[0].args, vec!["set", "power-saver"]);
    assert_eq!(plans[1].program, "asusctl");
    assert_eq!(plans[1].args, vec!["profile", "--profile-set", "Quiet"]);
}

#[test]
fn profile_setter_surfaces_only_last_outcome() {
    let attempts = vec![
        ExecOutcome::SpawnError {
            not_found: true,
            message: "powerprofilesctl missing".to_string(),
        },
        completed(true, "done", ""),
    ];
    assert!(set_profile_outcome(attempts).is_ok());

    let failures = vec![
        completed(true, "", "asusd gone"),
        ExecOutcome::SpawnError {
            not_found: true,
            message: "missing".to_string(),
        },
    ];
    assert_eq!(
        set_profile_outcome(failures).unwrap_err(),
        AsusctlError::NotInstalled
    );
}

#[test]
fn confirm_write_discards_output() {
    assert!(confirm_write(completed(false, "some text", "")).is_ok());
    assert_eq!(
        confirm_write(completed(true, "", "asusd unreachable")).unwrap_err(),
        AsusctlError::ServiceNotRunning
    );
}

#[test]
fn brightness_names_round_trip_any_case() {
    for level in [
        KeyboardBrightness::Off,
        KeyboardBrightness::Low,
        KeyboardBrightness::Med,
        KeyboardBrightness::High,
    ] {
        let name = level.as_str();
        assert_eq!(name, name.to_lowercase());
        assert_eq!(KeyboardBrightness::from_str(name).unwrap(), level);
        assert_eq!(
            KeyboardBrightness::from_str(&name.to_uppercase()).unwrap(),
            level
        );
    }
    assert_eq!(
        KeyboardBrightness::from_str("bogus").unwrap_err(),
        AsusctlError::ParseError("Unknown brightness level: bogus".to_string())
    );
}

#[test]
fn profile_names_round_trip_any_case() {
    for profile in [
        PowerProfile::Quiet,
        PowerProfile::Balanced,
        PowerProfile::Performance,
    ] {
        let name = profile.as_str();
        assert_eq!(PowerProfile::from_str(name).unwrap(), profile);
        assert_eq!(
            PowerProfile::from_str(&name.to_uppercase()).unwrap(),
            profile
        );
        assert_eq!(
            PowerProfile::from_str(&name.to_lowercase()).unwrap(),
            profile
        );
    }
    assert_eq!(
        PowerProfile::from_str("turbo").unwrap_err(),
        AsusctlError::ParseError("Unknown power profile: turbo".to_string())
    );
}

#[test]
fn slash_mode_parsing_is_case_sensitive() {
    assert_eq!(
        SlashMode::from_str("BitStream").unwrap(),
        SlashMode::BitStream
    );
    assert_eq!(
        SlashMode::from_str("bitstream").unwrap_err(),
        AsusctlError::ParseError("Unknown slash mode: bitstream".to_string())
    );
    assert_eq!(
        SlashMode::from_str("BITSTREAM").unwrap_err(),
        AsusctlError::ParseError("Unknown slash mode: BITSTREAM".to_string())
    );
    for mode in [
        SlashMode::Bounce,
        SlashMode::Slash,
        SlashMode::Loading,
        SlashMode::BitStream,
        SlashMode::Transmission,
        SlashMode::Flow,
        SlashMode::Flux,
        SlashMode::Phantom,
        SlashMode::Spectrum,
        SlashMode::Hazard,
        SlashMode::Interfacing,
        SlashMode::Ramp,
        SlashMode::GameOver,
        SlashMode::Start,
        SlashMode::Buzzer,
    ] {
        assert_eq!(SlashMode::from_str(mode.as_str()).unwrap(), mode);
    }
}

#[test]
fn defaults_match_the_documented_ones() {
    assert_eq!(KeyboardBrightness::default(), KeyboardBrightness::High);
    assert_eq!(PowerProfile::default(), PowerProfile::Balanced);
    assert_eq!(AuraMode::default(), AuraMode::Static);
    assert_eq!(SlashMode::default(), SlashMode::Flow);
    let state = asusctl_backend::ProfileState::default();
    assert_eq!(state.active, PowerProfile::Balanced);
    let slash = asusctl_backend::SlashState::default();
    assert_eq!(slash.mode, SlashMode::Flow);
    assert!(!slash.enabled);
}

#[test]
fn bus_request_builders_name_fixed_objects() {
    let plan = asusctl_backend::slash_enabled_request();
    assert_eq!(plan.program, "busctl");
    assert_eq!(
        plan.args,
        vec![
            "get-property",
            "xyz.ljones.Asusd",
            "/xyz/ljones/aura/193b_5_5",
            "xyz.ljones.Slash",
            "Enabled"
        ]
    );
    let plan = asusctl_backend::keyboard_brightness_dbus_request();
    assert_eq!(
        plan.args,
        vec![
            "get-property",
            "xyz.ljones.Asusd",
            "/xyz/ljones/aura/19b6_4_4",
            "xyz.ljones.Aura",
            "Brightness"
        ]
    );
    let plan = asusctl_backend::charge_limit_request();
    assert_eq!(
        plan.args,
        vec![
            "get-property",
            "xyz.ljones.Asusd",
            "/xyz/ljones",
            "xyz.ljones.Platform",
            "ChargeControlEndThreshold"
        ]
    );
}

#[test]
fn profile_slot_bus_reads_share_decoding() {
    assert_eq!(
        asusctl_backend::get_profile_on_ac_dbus(completed(true, "u 1", "")).unwrap(),
        PowerProfile::Balanced
    );
    assert_eq!(
        asusctl_backend::get_profile_on_battery_dbus(completed(true, "u 0", "")).unwrap(),
        PowerProfile::Quiet
    );
    assert_eq!(
        asusctl_backend::get_slash_show_on_sleep(completed(true, "b false", "")).unwrap(),
        false
    );
}

#[test]
fn aura_mode_round_trip() {
    assert_eq!(AuraMode::from_str("BREATHE").unwrap(), AuraMode::Breathe);
    assert_eq!(AuraMode::from_str("static").unwrap(), AuraMode::Static);
    assert_eq!(
        AuraMode::from_str("rainbow").unwrap_err(),
        AsusctlError::ParseError("Unknown aura mode: rainbow".to_string())
    );
}
