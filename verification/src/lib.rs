//! Device-state translation layer for an ASUS laptop control tool.
//!
//! The library turns the text output of the `asusctl` command-line tool and
//! of a property-bus introspection utility into typed, validated values, and
//! maps typed commands back into the exact argument lists those tools
//! expect. All functions here are pure: callers run the subprocesses and
//! read the config file themselves, and hand captured output in as plain
//! values.

pub mod command;
pub mod config;
pub mod domain;
pub mod error;
pub mod facade;
pub mod parse;
pub mod text;
pub mod wire;

pub use command::CommandPlan;
pub use command::ExecOutcome;
pub use command::dbus_property_request;
pub use command::read_dbus_property;
pub use command::run_asusctl;
pub use config::extract_number;
pub use config::extract_string_value;
pub use config::parse_slash_config;
pub use domain::AuraMode;
pub use domain::KeyboardBrightness;
pub use domain::PowerProfile;
pub use domain::ProfileState;
pub use domain::SlashMode;
pub use domain::SlashState;
pub use domain::SupportedFeatures;
pub use domain::SystemInfo;
pub use error::AsusctlError;
pub use parse::extract_section;
pub use parse::parse_keyboard_brightness;
pub use parse::parse_profile_state;
pub use parse::parse_supported_features;
pub use parse::parse_system_info;
pub use wire::parse_dbus_bool;
pub use wire::parse_dbus_byte;
pub use wire::parse_dbus_uint;
pub use facade::charge_limit_request;
pub use facade::check_availability;
pub use facade::confirm_write;
pub use facade::disable_slash;
pub use facade::enable_slash;
pub use facade::get_charge_limit_dbus;
pub use facade::get_keyboard_brightness;
pub use facade::get_keyboard_brightness_dbus;
pub use facade::get_platform_profile_dbus;
pub use facade::get_profile_on_ac_dbus;
pub use facade::get_profile_on_battery_dbus;
pub use facade::get_profile_state;
pub use facade::get_slash_brightness;
pub use facade::get_slash_brightness_dbus;
pub use facade::get_slash_enabled;
pub use facade::get_slash_enabled_dbus;
pub use facade::get_slash_interval;
pub use facade::get_slash_interval_dbus;
pub use facade::get_slash_mode;
pub use facade::get_slash_mode_dbus;
pub use facade::get_slash_show_battery_warning;
pub use facade::get_slash_show_on_battery;
pub use facade::get_slash_show_on_boot;
pub use facade::get_slash_show_on_sleep;
pub use facade::get_slash_show_on_shutdown;
pub use facade::get_slash_state;
pub use facade::get_supported_features;
pub use facade::get_system_info;
pub use facade::keyboard_brightness_dbus_request;
pub use facade::keyboard_brightness_request;
pub use facade::platform_profile_request;
pub use facade::profile_on_ac_request;
pub use facade::profile_on_battery_request;
pub use facade::profile_state_request;
pub use facade::set_charge_limit;
pub use facade::set_keyboard_brightness;
pub use facade::set_profile;
pub use facade::set_profile_outcome;
pub use facade::set_slash_brightness;
pub use facade::set_slash_interval;
pub use facade::set_slash_mode;
pub use facade::set_slash_show_battery_warning;
pub use facade::set_slash_show_on_battery;
pub use facade::set_slash_show_on_boot;
pub use facade::set_slash_show_on_sleep;
pub use facade::set_slash_show_on_shutdown;
pub use facade::slash_brightness_request;
pub use facade::slash_enabled_request;
pub use facade::slash_interval_request;
pub use facade::slash_mode_request;
pub use facade::slash_show_battery_warning_request;
pub use facade::slash_show_on_battery_request;
pub use facade::slash_show_on_boot_request;
pub use facade::slash_show_on_sleep_request;
pub use facade::slash_show_on_shutdown_request;
pub use facade::supported_features_request;
pub use facade::version_request;
