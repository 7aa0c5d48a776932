//! The public operation set. Every read is split in two: a request builder
//! that names the exact external invocation, and an interpreter that turns
//! the captured outcome into a typed value. Every write is a request
//! builder whose outcome is judged by `confirm_write`. The caller performs
//! the invocations and hands the outcomes back.

use vstd::prelude::*;
use vstd::string::StrSliceExecFns;
use crate::command::CommandPlan;
use crate::command::ExecOutcome;
use crate::command::dbus_property_request;
use crate::command::is_plan;
use crate::command::plan1;
use crate::command::plan2;
use crate::command::plan3;
use crate::command::read_dbus_property;
use crate::command::run_asusctl;
use crate::command::spec_asusctl_err;
use crate::command::spec_asusctl_ok;
use crate::command::spec_asusctl_stdout;
use crate::command::spec_bus_err;
use crate::command::spec_bus_ok;
use crate::command::spec_bus_value;
use crate::domain::KeyboardBrightness;
use crate::domain::PowerProfile;
use crate::domain::ProfileState;
use crate::domain::SlashMode;
use crate::domain::SlashState;
use crate::domain::SupportedFeatures;
use crate::domain::SystemInfo;
use crate::error::AsusctlError;
use crate::error::is_parse_error;
use crate::error::parse_error;
use crate::error::parse_result_matches;
use crate::parse::parse_keyboard_brightness;
use crate::parse::parse_profile_state;
use crate::parse::parse_supported_features;
use crate::parse::parse_system_info;
use crate::parse::spec_kbd_brightness;
use crate::parse::spec_profile_state;
use crate::parse::spec_supported_features;
use crate::parse::spec_system_info;
use crate::config::parse_slash_config;
use crate::config::spec_slash_config;
use crate::text::u32_dec;
use crate::text::dec_str;

verus! {

// ---------------------------------------------------------------------------
// Control-tool requests
// ---------------------------------------------------------------------------

/// The invocation behind availability checks and system info.
pub fn version_request() -> (p: CommandPlan)
    ensures
        is_plan(p, "asusctl"@, seq!["--version"@]),
{
    plan1("asusctl", "--version")
}

/// The invocation behind the feature-support dump.
pub fn supported_features_request() -> (p: CommandPlan)
    ensures
        is_plan(p, "asusctl"@, seq!["--show-supported"@]),
{
    plan1("asusctl", "--show-supported")
}

/// The invocation behind the keyboard brightness report.
pub fn keyboard_brightness_request() -> (p: CommandPlan)
    ensures
        is_plan(p, "asusctl"@, seq!["--kbd-bright"@]),
{
    plan1("asusctl", "--kbd-bright")
}

/// The invocation behind the profile report.
pub fn profile_state_request() -> (p: CommandPlan)
    ensures
        is_plan(p, "asusctl"@, seq!["profile"@, "--profile-get"@]),
{
    plan2("asusctl", "profile", "--profile-get")
}

// ---------------------------------------------------------------------------
// Control-tool reads
// ---------------------------------------------------------------------------

/// Judge the outcome of the availability probe: available exactly when the
/// version invocation produced usable output.
pub fn check_availability(outcome: ExecOutcome) -> (r: Result<(), AsusctlError>)
    ensures
        spec_asusctl_ok(outcome) ==> r == Ok::<(), AsusctlError>(()),
        !spec_asusctl_ok(outcome) ==> r is Err && spec_asusctl_err(outcome, r->Err_0),
{
    match run_asusctl(outcome) {
        Ok(_) => Ok(()),
        Err(e) => Err(e),
    }
}

/// Interpret the version invocation's outcome as system information.
pub fn get_system_info(outcome: ExecOutcome) -> (r: Result<SystemInfo, AsusctlError>)
    ensures
        spec_asusctl_ok(outcome) ==> r is Ok && r->Ok_0@ == spec_system_info(
            spec_asusctl_stdout(outcome),
        ),
        !spec_asusctl_ok(outcome) ==> r is Err && spec_asusctl_err(outcome, r->Err_0),
{
    match run_asusctl(outcome) {
        Ok(output) => parse_system_info(output.as_str()),
        Err(e) => Err(e),
    }
}

/// Interpret the feature-dump invocation's outcome.
pub fn get_supported_features(outcome: ExecOutcome) -> (r: Result<SupportedFeatures, AsusctlError>)
    ensures
        spec_asusctl_ok(outcome) ==> r is Ok && r->Ok_0@ == spec_supported_features(
            spec_asusctl_stdout(outcome),
        ),
        !spec_asusctl_ok(outcome) ==> r is Err && spec_asusctl_err(outcome, r->Err_0),
{
    match run_asusctl(outcome) {
        Ok(output) => parse_supported_features(output.as_str()),
        Err(e) => Err(e),
    }
}

/// Interpret the brightness-report invocation's outcome.
pub fn get_keyboard_brightness(outcome: ExecOutcome) -> (r: Result<
    KeyboardBrightness,
    AsusctlError,
>)
    ensures
        spec_asusctl_ok(outcome) ==> parse_result_matches(
            r,
            spec_kbd_brightness(spec_asusctl_stdout(outcome)),
        ),
        !spec_asusctl_ok(outcome) ==> r is Err && spec_asusctl_err(outcome, r->Err_0),
{
    match run_asusctl(outcome) {
        Ok(output) => parse_keyboard_brightness(output.as_str()),
        Err(e) => Err(e),
    }
}

/// Interpret the profile-report invocation's outcome.
pub fn get_profile_state(outcome: ExecOutcome) -> (r: Result<ProfileState, AsusctlError>)
    ensures
        spec_asusctl_ok(outcome) ==> parse_result_matches(
            r,
            spec_profile_state(spec_asusctl_stdout(outcome)),
        ),
        !spec_asusctl_ok(outcome) ==> r is Err && spec_asusctl_err(outcome, r->Err_0),
{
    match run_asusctl(outcome) {
        Ok(output) => parse_profile_state(output.as_str()),
        Err(e) => Err(e),
    }
}

// ---------------------------------------------------------------------------
// Write confirmation
// ---------------------------------------------------------------------------

/// Judge the outcome of any control-tool write: success exactly when the
/// run produced usable output, its text discarded.
pub fn confirm_write(outcome: ExecOutcome) -> (r: Result<(), AsusctlError>)
    ensures
        spec_asusctl_ok(outcome) ==> r == Ok::<(), AsusctlError>(()),
        !spec_asusctl_ok(outcome) ==> r is Err && spec_asusctl_err(outcome, r->Err_0),
{
    match run_asusctl(outcome) {
        Ok(_) => Ok(()),
        Err(e) => Err(e),
    }
}

// ---------------------------------------------------------------------------
// Property-bus requests
// ---------------------------------------------------------------------------

/// A platform-interface property read at the default object path.
fn platform_request(property: &str) -> (p: CommandPlan)
    ensures
        is_plan(
            p,
            "busctl"@,
            seq![
                "get-property"@,
                "xyz.ljones.Asusd"@,
                "/xyz/ljones"@,
                "xyz.ljones.Platform"@,
                property@,
            ],
        ),
{
    dbus_property_request("/xyz/ljones", "xyz.ljones.Platform", property)
}

/// A LED-bar property read at the LED bar's object path.
fn slash_request(property: &str) -> (p: CommandPlan)
    ensures
        is_plan(
            p,
            "busctl"@,
            seq![
                "get-property"@,
                "xyz.ljones.Asusd"@,
                "/xyz/ljones/aura/193b_5_5"@,
                "xyz.ljones.Slash"@,
                property@,
            ],
        ),
{
    dbus_property_request("/xyz/ljones/aura/193b_5_5", "xyz.ljones.Slash", property)
}

/// The bus read behind the active platform profile.
pub fn platform_profile_request() -> (p: CommandPlan)
    ensures
        is_plan(
            p,
            "busctl"@,
            seq![
                "get-property"@,
                "xyz.ljones.Asusd"@,
                "/xyz/ljones"@,
                "xyz.ljones.Platform"@,
                "PlatformProfile"@,
            ],
        ),
{
    platform_request("PlatformProfile")
}

/// The bus read behind the charge limit.
pub fn charge_limit_request() -> (p: CommandPlan)
    ensures
        is_plan(
            p,
            "busctl"@,
            seq![
                "get-property"@,
                "xyz.ljones.Asusd"@,
                "/xyz/ljones"@,
                "xyz.ljones.Platform"@,
                "ChargeControlEndThreshold"@,
            ],
        ),
{
    platform_request("ChargeControlEndThreshold")
}

/// The bus read behind the profile used on AC power.
pub fn profile_on_ac_request() -> (p: CommandPlan)
    ensures
        is_plan(
            p,
            "busctl"@,
            seq![
                "get-property"@,
                "xyz.ljones.Asusd"@,
                "/xyz/ljones"@,
                "xyz.ljones.Platform"@,
                "PlatformProfileOnAc"@,
            ],
        ),
{
    platform_request("PlatformProfileOnAc")
}

/// The bus read behind the profile used on battery.
pub fn profile_on_battery_request() -> (p: CommandPlan)
    ensures
        is_plan(
            p,
            "busctl"@,
            seq![
                "get-property"@,
                "xyz.ljones.Asusd"@,
                "/xyz/ljones"@,
                "xyz.ljones.Platform"@,
                "PlatformProfileOnBattery"@,
            ],
        ),
{
    platform_request("PlatformProfileOnBattery")
}

/// The bus read behind the keyboard brightness level.
pub fn keyboard_brightness_dbus_request() -> (p: CommandPlan)
    ensures
        is_plan(
            p,
            "busctl"@,
            seq![
                "get-property"@,
                "xyz.ljones.Asusd"@,
                "/xyz/ljones/aura/19b6_4_4"@,
                "xyz.ljones.Aura"@,
                "Brightness"@,
            ],
        ),
{
    dbus_property_request("/xyz/ljones/aura/19b6_4_4", "xyz.ljones.Aura", "Brightness")
}

/// The bus read behind the LED-bar enabled flag.
pub fn slash_enabled_request() -> (p: CommandPlan)
    ensures
        is_plan(
            p,
            "busctl"@,
            seq![
                "get-property"@,
                "xyz.ljones.Asusd"@,
                "/xyz/ljones/aura/193b_5_5"@,
                "xyz.ljones.Slash"@,
                "Enabled"@,
            ],
        ),
{
    slash_request("Enabled")
}

/// The bus read behind the LED-bar brightness.
pub fn slash_brightness_request() -> (p: CommandPlan)
    ensures
        is_plan(
            p,
            "busctl"@,
            seq![
                "get-property"@,
                "xyz.ljones.Asusd"@,
                "/xyz/ljones/aura/193b_5_5"@,
                "xyz.ljones.Slash"@,
                "Brightness"@,
            ],
        ),
{
    slash_request("Brightness")
}

/// The bus read behind the LED-bar animation interval.
pub fn slash_interval_request() -> (p: CommandPlan)
    ensures
        is_plan(
            p,
            "busctl"@,
            seq![
                "get-property"@,
                "xyz.ljones.Asusd"@,
                "/xyz/ljones/aura/193b_5_5"@,
                "xyz.ljones.Slash"@,
                "Interval"@,
            ],
        ),
{
    slash_request("Interval")
}

/// The bus read behind the LED-bar numeric mode code.
pub fn slash_mode_request() -> (p: CommandPlan)
    ensures
        is_plan(
            p,
            "busctl"@,
            seq![
                "get-property"@,
                "xyz.ljones.Asusd"@,
                "/xyz/ljones/aura/193b_5_5"@,
                "xyz.ljones.Slash"@,
                "Mode"@,
            ],
        ),
{
    slash_request("Mode")
}

/// The bus read behind the show-on-boot flag.
pub fn slash_show_on_boot_request() -> (p: CommandPlan)
    ensures
        is_plan(
            p,
            "busctl"@,
            seq![
                "get-property"@,
                "xyz.ljones.Asusd"@,
                "/xyz/ljones/aura/193b_5_5"@,
                "xyz.ljones.Slash"@,
                "ShowOnBoot"@,
            ],
        ),
{
    slash_request("ShowOnBoot")
}

/// The bus read behind the show-on-shutdown flag.
pub fn slash_show_on_shutdown_request() -> (p: CommandPlan)
    ensures
        is_plan(
            p,
            "busctl"@,
            seq![
                "get-property"@,
                "xyz.ljones.Asusd"@,
                "/xyz/ljones/aura/193b_5_5"@,
                "xyz.ljones.Slash"@,
                "ShowOnShutdown"@,
            ],
        ),
{
    slash_request("ShowOnShutdown")
}

/// The bus read behind the show-on-sleep flag.
pub fn slash_show_on_sleep_request() -> (p: CommandPlan)
    ensures
        is_plan(
            p,
            "busctl"@,
            seq![
                "get-property"@,
                "xyz.ljones.Asusd"@,
                "/xyz/ljones/aura/193b_5_5"@,
                "xyz.ljones.Slash"@,
                "ShowOnSleep"@,
            ],
        ),
{
    slash_request("ShowOnSleep")
}

/// The bus read behind the show-on-battery flag.
pub fn slash_show_on_battery_request() -> (p: CommandPlan)
    ensures
        is_plan(
            p,
            "busctl"@,
            seq![
                "get-property"@,
                "xyz.ljones.Asusd"@,
                "/xyz/ljones/aura/193b_5_5"@,
                "xyz.ljones.Slash"@,
                "ShowOnBattery"@,
            ],
        ),
{
    slash_request("ShowOnBattery")
}

/// The bus read behind the low-battery warning flag.
pub fn slash_show_battery_warning_request() -> (p: CommandPlan)
    ensures
        is_plan(
            p,
            "busctl"@,
            seq![
                "get-property"@,
                "xyz.ljones.Asusd"@,
                "/xyz/ljones/aura/193b_5_5"@,
                "xyz.ljones.Slash"@,
                "ShowBatteryWarning"@,
            ],
        ),
{
    slash_request("ShowBatteryWarning")
}

// ---------------------------------------------------------------------------
// Property-bus reads
// ---------------------------------------------------------------------------

/// What interpreting a profile-coded bus read yields.
pub open spec fn spec_profile_from_wire(s: Seq<char>) -> Result<PowerProfile, Seq<char>> {
    match crate::wire::spec_dbus_uint(s) {
        Ok(v) => match PowerProfile::spec_from_code(v) {
            Some(prof) => Ok(prof),
            None => Err("Unknown profile value: "@ + dec_str(v as nat)),
        },
        Err(m) => Err(m),
    }
}

/// Decode a profile-coded bus outcome into a profile.
fn profile_from_outcome(outcome: ExecOutcome) -> (r: Result<PowerProfile, AsusctlError>)
    ensures
        spec_bus_ok(outcome) ==> parse_result_matches(
            r,
            spec_profile_from_wire(spec_bus_value(outcome)),
        ),
        !spec_bus_ok(outcome) ==> r is Err && spec_bus_err(outcome, r->Err_0),
{
    let wire = match read_dbus_property(outcome) {
        Ok(v) => v,
        Err(e) => {
            return Err(e);
        },
    };
    let value = match crate::wire::parse_dbus_uint(wire.as_str()) {
        Ok(v) => v,
        Err(e) => {
            return Err(e);
        },
    };
    if value == 0 {
        Ok(PowerProfile::Quiet)
    } else if value == 1 {
        Ok(PowerProfile::Balanced)
    } else if value == 2 {
        Ok(PowerProfile::Performance)
    } else {
        Err(parse_error("Unknown profile value: ", u32_dec(value).as_str()))
    }
}

/// Interpret the active-profile bus outcome (codes 0, 1, 2).
pub fn get_platform_profile_dbus(outcome: ExecOutcome) -> (r: Result<PowerProfile, AsusctlError>)
    ensures
        spec_bus_ok(outcome) ==> parse_result_matches(
            r,
            spec_profile_from_wire(spec_bus_value(outcome)),
        ),
        !spec_bus_ok(outcome) ==> r is Err && spec_bus_err(outcome, r->Err_0),
{
    profile_from_outcome(outcome)
}

/// Interpret the on-AC-profile bus outcome.
pub fn get_profile_on_ac_dbus(outcome: ExecOutcome) -> (r: Result<PowerProfile, AsusctlError>)
    ensures
        spec_bus_ok(outcome) ==> parse_result_matches(
            r,
            spec_profile_from_wire(spec_bus_value(outcome)),
        ),
        !spec_bus_ok(outcome) ==> r is Err && spec_bus_err(outcome, r->Err_0),
{
    profile_from_outcome(outcome)
}

/// Interpret the on-battery-profile bus outcome.
pub fn get_profile_on_battery_dbus(outcome: ExecOutcome) -> (r: Result<PowerProfile, AsusctlError>)
    ensures
        spec_bus_ok(outcome) ==> parse_result_matches(
            r,
            spec_profile_from_wire(spec_bus_value(outcome)),
        ),
        !spec_bus_ok(outcome) ==> r is Err && spec_bus_err(outcome, r->Err_0),
{
    profile_from_outcome(outcome)
}

/// Interpret the charge-limit bus outcome.
pub fn get_charge_limit_dbus(outcome: ExecOutcome) -> (r: Result<u8, AsusctlError>)
    ensures
        spec_bus_ok(outcome) ==> parse_result_matches(
            r,
            crate::wire::spec_dbus_byte(spec_bus_value(outcome)),
        ),
        !spec_bus_ok(outcome) ==> r is Err && spec_bus_err(outcome, r->Err_0),
{
    match read_dbus_property(outcome) {
        Ok(wire) => crate::wire::parse_dbus_byte(wire.as_str()),
        Err(e) => Err(e),
    }
}

/// What interpreting the keyboard-brightness bus read yields (codes 0-3).
pub open spec fn spec_brightness_from_wire(s: Seq<char>) -> Result<KeyboardBrightness, Seq<char>> {
    match crate::wire::spec_dbus_uint(s) {
        Ok(v) => match KeyboardBrightness::spec_from_code(v) {
            Some(level) => Ok(level),
            None => Err("Unknown brightness value: "@ + dec_str(v as nat)),
        },
        Err(m) => Err(m),
    }
}

/// Interpret the keyboard-brightness bus outcome (codes 0-3).
pub fn get_keyboard_brightness_dbus(outcome: ExecOutcome) -> (r: Result<
    KeyboardBrightness,
    AsusctlError,
>)
    ensures
        spec_bus_ok(outcome) ==> parse_result_matches(
            r,
            spec_brightness_from_wire(spec_bus_value(outcome)),
        ),
        !spec_bus_ok(outcome) ==> r is Err && spec_bus_err(outcome, r->Err_0),
{
    let wire = match read_dbus_property(outcome) {
        Ok(v) => v,
        Err(e) => {
            return Err(e);
        },
    };
    let value = match crate::wire::parse_dbus_uint(wire.as_str()) {
        Ok(v) => v,
        Err(e) => {
            return Err(e);
        },
    };
    if value == 0 {
        Ok(KeyboardBrightness::Off)
    } else if value == 1 {
        Ok(KeyboardBrightness::Low)
    } else if value == 2 {
        Ok(KeyboardBrightness::Med)
    } else if value == 3 {
        Ok(KeyboardBrightness::High)
    } else {
        Err(parse_error("Unknown brightness value: ", u32_dec(value).as_str()))
    }
}

/// Interpret a boolean LED-bar bus outcome.
fn slash_bool_from_outcome(outcome: ExecOutcome) -> (r: Result<bool, AsusctlError>)
    ensures
        spec_bus_ok(outcome) ==> parse_result_matches(
            r,
            crate::wire::spec_dbus_bool(spec_bus_value(outcome)),
        ),
        !spec_bus_ok(outcome) ==> r is Err && spec_bus_err(outcome, r->Err_0),
{
    match read_dbus_property(outcome) {
        Ok(wire) => crate::wire::parse_dbus_bool(wire.as_str()),
        Err(e) => Err(e),
    }
}

/// Interpret a byte LED-bar bus outcome.
fn slash_byte_from_outcome(outcome: ExecOutcome) -> (r: Result<u8, AsusctlError>)
    ensures
        spec_bus_ok(outcome) ==> parse_result_matches(
            r,
            crate::wire::spec_dbus_byte(spec_bus_value(outcome)),
        ),
        !spec_bus_ok(outcome) ==> r is Err && spec_bus_err(outcome, r->Err_0),
{
    match read_dbus_property(outcome) {
        Ok(wire) => crate::wire::parse_dbus_byte(wire.as_str()),
        Err(e) => Err(e),
    }
}

/// Interpret the LED-bar enabled bus outcome.
pub fn get_slash_enabled_dbus(outcome: ExecOutcome) -> (r: Result<bool, AsusctlError>)
    ensures
        spec_bus_ok(outcome) ==> parse_result_matches(
            r,
            crate::wire::spec_dbus_bool(spec_bus_value(outcome)),
        ),
        !spec_bus_ok(outcome) ==> r is Err && spec_bus_err(outcome, r->Err_0),
{
    slash_bool_from_outcome(outcome)
}

/// Interpret the LED-bar brightness bus outcome.
pub fn get_slash_brightness_dbus(outcome: ExecOutcome) -> (r: Result<u8, AsusctlError>)
    ensures
        spec_bus_ok(outcome) ==> parse_result_matches(
            r,
            crate::wire::spec_dbus_byte(spec_bus_value(outcome)),
        ),
        !spec_bus_ok(outcome) ==> r is Err && spec_bus_err(outcome, r->Err_0),
{
    slash_byte_from_outcome(outcome)
}

/// Interpret the LED-bar interval bus outcome.
pub fn get_slash_interval_dbus(outcome: ExecOutcome) -> (r: Result<u8, AsusctlError>)
    ensures
        spec_bus_ok(outcome) ==> parse_result_matches(
            r,
            crate::wire::spec_dbus_byte(spec_bus_value(outcome)),
        ),
        !spec_bus_ok(outcome) ==> r is Err && spec_bus_err(outcome, r->Err_0),
{
    slash_byte_from_outcome(outcome)
}

/// Interpret the LED-bar mode bus outcome: the raw numeric code, never
/// mapped to a mode name.
pub fn get_slash_mode_dbus(outcome: ExecOutcome) -> (r: Result<u8, AsusctlError>)
    ensures
        spec_bus_ok(outcome) ==> parse_result_matches(
            r,
            crate::wire::spec_dbus_byte(spec_bus_value(outcome)),
        ),
        !spec_bus_ok(outcome) ==> r is Err && spec_bus_err(outcome, r->Err_0),
{
    slash_byte_from_outcome(outcome)
}

/// Interpret the show-on-boot bus outcome.
pub fn get_slash_show_on_boot(outcome: ExecOutcome) -> (r: Result<bool, AsusctlError>)
    ensures
        spec_bus_ok(outcome) ==> parse_result_matches(
            r,
            crate::wire::spec_dbus_bool(spec_bus_value(outcome)),
        ),
        !spec_bus_ok(outcome) ==> r is Err && spec_bus_err(outcome, r->Err_0),
{
    slash_bool_from_outcome(outcome)
}

/// Interpret the show-on-shutdown bus outcome.
pub fn get_slash_show_on_shutdown(outcome: ExecOutcome) -> (r: Result<bool, AsusctlError>)
    ensures
        spec_bus_ok(outcome) ==> parse_result_matches(
            r,
            crate::wire::spec_dbus_bool(spec_bus_value(outcome)),
        ),
        !spec_bus_ok(outcome) ==> r is Err && spec_bus_err(outcome, r->Err_0),
{
    slash_bool_from_outcome(outcome)
}

/// Interpret the show-on-sleep bus outcome.
pub fn get_slash_show_on_sleep(outcome: ExecOutcome) -> (r: Result<bool, AsusctlError>)
    ensures
        spec_bus_ok(outcome) ==> parse_result_matches(
            r,
            crate::wire::spec_dbus_bool(spec_bus_value(outcome)),
        ),
        !spec_bus_ok(outcome) ==> r is Err && spec_bus_err(outcome, r->Err_0),
{
    slash_bool_from_outcome(outcome)
}

/// Interpret the show-on-battery bus outcome.
pub fn get_slash_show_on_battery(outcome: ExecOutcome) -> (r: Result<bool, AsusctlError>)
    ensures
        spec_bus_ok(outcome) ==> parse_result_matches(
            r,
            crate::wire::spec_dbus_bool(spec_bus_value(outcome)),
        ),
        !spec_bus_ok(outcome) ==> r is Err && spec_bus_err(outcome, r->Err_0),
{
    slash_bool_from_outcome(outcome)
}

/// Interpret the show-battery-warning bus outcome.
pub fn get_slash_show_battery_warning(outcome: ExecOutcome) -> (r: Result<bool, AsusctlError>)
    ensures
        spec_bus_ok(outcome) ==> parse_result_matches(
            r,
            crate::wire::spec_dbus_bool(spec_bus_value(outcome)),
        ),
        !spec_bus_ok(outcome) ==> r is Err && spec_bus_err(outcome, r->Err_0),
{
    slash_bool_from_outcome(outcome)
}

// ---------------------------------------------------------------------------
// Writes
// ---------------------------------------------------------------------------

/// The invocation that sets the keyboard brightness, named in lowercase.
pub fn set_keyboard_brightness(level: KeyboardBrightness) -> (p: CommandPlan)
    ensures
        is_plan(p, "asusctl"@, seq!["--kbd-bright"@, level.spec_name()]),
{
    plan2("asusctl", "--kbd-bright", level.as_str())
}

/// The ordered profile-setter strategies: first the secondary
/// power-management tool with its own vocabulary, then the control tool.
/// The caller tries them in sequence, stopping at the first that
/// `confirm_write` accepts, and surfaces only the last outcome through
/// `set_profile_outcome`.
pub fn set_profile(profile: PowerProfile) -> (plans: Vec<CommandPlan>)
    ensures
        plans@.len() == 2,
        is_plan(plans@[0], "powerprofilesctl"@, seq!["set"@, profile.spec_ppd_name()]),
        is_plan(
            plans@[1],
            "asusctl"@,
            seq!["profile"@, "--profile-set"@, profile.spec_name()],
        ),
{
    let mut plans: Vec<CommandPlan> = Vec::new();
    plans.push(plan2("powerprofilesctl", "set", profile.ppd_name()));
    plans.push(plan3("asusctl", "profile", "--profile-set", profile.as_str()));
    plans
}

/// Judge a profile-set attempt sequence: only the last outcome counts, so
/// every earlier strategy's failure is swallowed.
pub fn set_profile_outcome(attempted: Vec<ExecOutcome>) -> (r: Result<(), AsusctlError>)
    requires
        attempted@.len() >= 1,
    ensures
        spec_asusctl_ok(attempted@.last()) ==> r == Ok::<(), AsusctlError>(()),
        !spec_asusctl_ok(attempted@.last()) ==> r is Err && spec_asusctl_err(
            attempted@.last(),
            r->Err_0,
        ),
{
    let mut attempted = attempted;
    let last = attempted.pop().unwrap();
    confirm_write(last)
}

/// The invocation that turns the LED bar on.
pub fn enable_slash() -> (p: CommandPlan)
    ensures
        is_plan(p, "asusctl"@, seq!["slash"@, "--enable"@]),
{
    plan2("asusctl", "slash", "--enable")
}

/// The invocation that turns the LED bar off.
pub fn disable_slash() -> (p: CommandPlan)
    ensures
        is_plan(p, "asusctl"@, seq!["slash"@, "--disable"@]),
{
    plan2("asusctl", "slash", "--disable")
}

/// The invocation that sets the LED-bar brightness.
pub fn set_slash_brightness(brightness: u8) -> (p: CommandPlan)
    ensures
        is_plan(p, "asusctl"@, seq!["slash"@, "--brightness"@, dec_str(brightness as nat)]),
{
    let n = u32_dec(brightness as u32);
    plan3("asusctl", "slash", "--brightness", n.as_str())
}

/// The invocation that sets the charge limit.
pub fn set_charge_limit(limit: u8) -> (p: CommandPlan)
    ensures
        is_plan(p, "asusctl"@, seq!["--chg-limit"@, dec_str(limit as nat)]),
{
    let n = u32_dec(limit as u32);
    plan2("asusctl", "--chg-limit", n.as_str())
}

/// The invocation that sets the LED-bar animation mode, named with exact
/// case.
pub fn set_slash_mode(mode: SlashMode) -> (p: CommandPlan)
    ensures
        is_plan(p, "asusctl"@, seq!["slash"@, "--mode"@, mode.spec_name()]),
{
    plan3("asusctl", "slash", "--mode", mode.as_str())
}

/// The invocation that sets the LED-bar animation interval.
pub fn set_slash_interval(interval: u8) -> (p: CommandPlan)
    ensures
        is_plan(p, "asusctl"@, seq!["slash"@, "--interval"@, dec_str(interval as nat)]),
{
    let n = u32_dec(interval as u32);
    plan3("asusctl", "slash", "--interval", n.as_str())
}

/// A boolean as the command line spells it.
fn bool_str(value: bool) -> (r: &'static str)
    ensures
        r@ == (if value {
            "true"@
        } else {
            "false"@
        }),
{
    if value {
        "true"
    } else {
        "false"
    }
}

/// The invocation that sets whether the LED bar shows at boot.
pub fn set_slash_show_on_boot(value: bool) -> (p: CommandPlan)
    ensures
        is_plan(
            p,
            "asusctl"@,
            seq![
                "slash"@,
                "--show-on-boot"@,
                (if value {
                    "true"@
                } else {
                    "false"@
                }),
            ],
        ),
{
    plan3("asusctl", "slash", "--show-on-boot", bool_str(value))
}

/// The invocation that sets whether the LED bar shows at shutdown.
pub fn set_slash_show_on_shutdown(value: bool) -> (p: CommandPlan)
    ensures
        is_plan(
            p,
            "asusctl"@,
            seq![
                "slash"@,
                "--show-on-shutdown"@,
                (if value {
                    "true"@
                } else {
                    "false"@
                }),
            ],
        ),
{
    plan3("asusctl", "slash", "--show-on-shutdown", bool_str(value))
}

/// The invocation that sets whether the LED bar shows during sleep.
pub fn set_slash_show_on_sleep(value: bool) -> (p: CommandPlan)
    ensures
        is_plan(
            p,
            "asusctl"@,
            seq![
                "slash"@,
                "--show-on-sleep"@,
                (if value {
                    "true"@
                } else {
                    "false"@
                }),
            ],
        ),
{
    plan3("asusctl", "slash", "--show-on-sleep", bool_str(value))
}

/// The invocation that sets whether the LED bar shows on battery power.
pub fn set_slash_show_on_battery(value: bool) -> (p: CommandPlan)
    ensures
        is_plan(
            p,
            "asusctl"@,
            seq![
                "slash"@,
                "--show-on-battery"@,
                (if value {
                    "true"@
                } else {
                    "false"@
                }),
            ],
        ),
{
    plan3("asusctl", "slash", "--show-on-battery", bool_str(value))
}

/// The invocation that sets whether the LED bar warns on low battery.
pub fn set_slash_show_battery_warning(value: bool) -> (p: CommandPlan)
    ensures
        is_plan(
            p,
            "asusctl"@,
            seq![
                "slash"@,
                "--show-battery-warning"@,
                (if value {
                    "true"@
                } else {
                    "false"@
                }),
            ],
        ),
{
    plan3("asusctl", "slash", "--show-battery-warning", bool_str(value))
}

// ---------------------------------------------------------------------------
// Fallback reads
// ---------------------------------------------------------------------------

/// The LED-bar state: wholly from the three bus reads when they all
/// succeeded (the mode left at its default, since the bus exposes only a
/// numeric code), otherwise wholly from the config file.
pub fn get_slash_state(
    enabled: Result<bool, AsusctlError>,
    brightness: Result<u8, AsusctlError>,
    interval: Result<u8, AsusctlError>,
    config: Option<Result<String, String>>,
) -> (r: Result<SlashState, AsusctlError>)
    requires
        enabled is Err || brightness is Err || interval is Err ==> config is Some,
    ensures
        enabled is Ok && brightness is Ok && interval is Ok ==> r == Ok::<
            SlashState,
            AsusctlError,
        >(
            SlashState {
                enabled: enabled->Ok_0,
                brightness: brightness->Ok_0,
                interval: interval->Ok_0,
                mode: SlashMode::Flow,
            },
        ),
        !(enabled is Ok && brightness is Ok && interval is Ok) ==> match config->Some_0 {
            Ok(content) => r == Ok::<SlashState, AsusctlError>(spec_slash_config(content@)),
            Err(e) => r is Err && is_parse_error(r->Err_0, "Failed to read slash config: "@ + e@),
        },
{
    match (enabled, brightness, interval) {
        (Ok(en), Ok(br), Ok(iv)) => Ok(
            SlashState { enabled: en, brightness: br, interval: iv, mode: SlashMode::Flow },
        ),
        _ => parse_slash_config(config.unwrap()),
    }
}

/// Whether the LED bar is enabled: the bus answer when it succeeded, else
/// the config file's.
pub fn get_slash_enabled(
    bus: Result<bool, AsusctlError>,
    config: Option<Result<String, String>>,
) -> (r: Result<bool, AsusctlError>)
    requires
        bus is Err ==> config is Some,
    ensures
        bus is Ok ==> r == Ok::<bool, AsusctlError>(bus->Ok_0),
        bus is Err ==> match config->Some_0 {
            Ok(content) => r == Ok::<bool, AsusctlError>(spec_slash_config(content@).enabled),
            Err(e) => r is Err && is_parse_error(r->Err_0, "Failed to read slash config: "@ + e@),
        },
{
    match bus {
        Ok(v) => Ok(v),
        Err(_) => match parse_slash_config(config.unwrap()) {
            Ok(st) => Ok(st.enabled),
            Err(e) => Err(e),
        },
    }
}

/// The LED-bar brightness: the bus answer when it succeeded, else the
/// config file's.
pub fn get_slash_brightness(
    bus: Result<u8, AsusctlError>,
    config: Option<Result<String, String>>,
) -> (r: Result<u8, AsusctlError>)
    requires
        bus is Err ==> config is Some,
    ensures
        bus is Ok ==> r == Ok::<u8, AsusctlError>(bus->Ok_0),
        bus is Err ==> match config->Some_0 {
            Ok(content) => r == Ok::<u8, AsusctlError>(spec_slash_config(content@).brightness),
            Err(e) => r is Err && is_parse_error(r->Err_0, "Failed to read slash config: "@ + e@),
        },
{
    match bus {
        Ok(v) => Ok(v),
        Err(_) => match parse_slash_config(config.unwrap()) {
            Ok(st) => Ok(st.brightness),
            Err(e) => Err(e),
        },
    }
}

/// The LED-bar animation interval: the bus answer when it succeeded, else
/// the config file's.
pub fn get_slash_interval(
    bus: Result<u8, AsusctlError>,
    config: Option<Result<String, String>>,
) -> (r: Result<u8, AsusctlError>)
    requires
        bus is Err ==> config is Some,
    ensures
        bus is Ok ==> r == Ok::<u8, AsusctlError>(bus->Ok_0),
        bus is Err ==> match config->Some_0 {
            Ok(content) => r == Ok::<u8, AsusctlError>(spec_slash_config(content@).interval),
            Err(e) => r is Err && is_parse_error(r->Err_0, "Failed to read slash config: "@ + e@),
        },
{
    match bus {
        Ok(v) => Ok(v),
        Err(_) => match parse_slash_config(config.unwrap()) {
            Ok(st) => Ok(st.interval),
            Err(e) => Err(e),
        },
    }
}

/// The LED-bar animation mode, from the config file alone: the bus's
/// numeric code is never consulted.
pub fn get_slash_mode(config: Result<String, String>) -> (r: Result<SlashMode, AsusctlError>)
    ensures
        match config {
            Ok(content) => r == Ok::<SlashMode, AsusctlError>(spec_slash_config(content@).mode),
            Err(e) => r is Err && is_parse_error(r->Err_0, "Failed to read slash config: "@ + e@),
        },
{
    match parse_slash_config(config) {
        Ok(st) => Ok(st.mode),
        Err(e) => Err(e),
    }
}

} // verus!
