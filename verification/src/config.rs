//! Fallback parser for the LED-bar daemon's config file: a line-oriented
//! key-colon-value format with optional trailing commas.

use vstd::prelude::*;
use crate::domain::SlashMode;
use crate::domain::SlashState;
use crate::domain::slash_mode_of_str;
use crate::error::AsusctlError;
use crate::error::is_parse_error;
use crate::error::parse_error;
use crate::text::after_colon;
use crate::text::clean_value;
use crate::text::contains;
use crate::text::contains_seq;
use crate::text::parse_u32;
use crate::text::spec_after_colon;
use crate::text::spec_lines;
use crate::text::spec_parse_u32;
use crate::text::spec_trim;
use crate::text::split_lines;
use crate::text::starts_with;
use crate::text::strip_trailing_commas;
use crate::text::trim;
use crate::text::views_of;

verus! {

/// The number on a line like `brightness: 255,`: everything after the first
/// colon, trimmed, stripped of trailing commas, read as an unsigned integer.
pub open spec fn spec_extract_number(line: Seq<char>) -> Option<u32> {
    match spec_after_colon(line) {
        Some(seg) => spec_parse_u32(strip_trailing_commas(spec_trim(seg))),
        None => None,
    }
}

/// Runtime extraction matching `spec_extract_number`.
pub fn extract_number(line: &str) -> (r: Option<u32>)
    ensures
        r == spec_extract_number(line@),
{
    match after_colon(line) {
        Some(seg) => parse_u32(clean_value(seg)),
        None => None,
    }
}

/// The text on a line like `display_mode: BitStream,`: everything after the
/// first colon, trimmed, stripped of trailing commas.
pub open spec fn spec_extract_string_value(line: Seq<char>) -> Option<Seq<char>> {
    match spec_after_colon(line) {
        Some(seg) => Some(strip_trailing_commas(spec_trim(seg))),
        None => None,
    }
}

/// Runtime extraction matching `spec_extract_string_value`.
pub fn extract_string_value(line: &str) -> (r: Option<String>)
    ensures
        match spec_extract_string_value(line@) {
            Some(v) => r is Some && r->Some_0@ == v,
            None => r is None,
        },
{
    match after_colon(line) {
        Some(seg) => Some(clean_value(seg).to_owned()),
        None => None,
    }
}

/// Fold of the config file over its lines: recognized keys overwrite their
/// field, malformed numbers and unrecognized mode names are ignored, and
/// every other line is skipped.
pub open spec fn spec_slash_config_lines(lines: Seq<Seq<char>>, st: SlashState) -> SlashState
    decreases lines.len(),
{
    if lines.len() == 0 {
        st
    } else {
        let line = spec_trim(lines.first());
        let st2 = if "enabled:"@.is_prefix_of(line) {
            SlashState { enabled: contains_seq(line, "true"@), ..st }
        } else if "brightness:"@.is_prefix_of(line) {
            match spec_extract_number(line) {
                Some(v) => SlashState { brightness: (v % 256) as u8, ..st },
                None => st,
            }
        } else if "display_interval:"@.is_prefix_of(line) {
            match spec_extract_number(line) {
                Some(v) => SlashState { interval: (v % 256) as u8, ..st },
                None => st,
            }
        } else if "display_mode:"@.is_prefix_of(line) {
            match spec_extract_string_value(line) {
                Some(m) => SlashState {
                    mode: match slash_mode_of_str(m) {
                        Some(md) => md,
                        None => SlashMode::Flow,
                    },
                    ..st
                },
                None => st,
            }
        } else {
            st
        };
        spec_slash_config_lines(lines.drop_first(), st2)
    }
}

/// What a whole config file denotes, starting from the all-default state.
pub open spec fn spec_slash_config(content: Seq<char>) -> SlashState {
    spec_slash_config_lines(
        spec_lines(content),
        SlashState { enabled: false, brightness: 0, interval: 0, mode: SlashMode::Flow },
    )
}

/// Parse the config file from its read result. A failed read becomes a
/// `ParseError` wrapping the reader's message; parsing itself never fails.
pub fn parse_slash_config(read: Result<String, String>) -> (r: Result<SlashState, AsusctlError>)
    ensures
        match read {
            Ok(content) => r == Ok::<SlashState, AsusctlError>(spec_slash_config(content@)),
            Err(e) => r is Err && is_parse_error(r->Err_0, "Failed to read slash config: "@ + e@),
        },
{
    let content = match read {
        Ok(content) => content,
        Err(e) => {
            return Err(parse_error("Failed to read slash config: ", e.as_str()));
        },
    };
    let lines = split_lines(content.as_str());
    let ghost all = views_of(lines@);
    let ghost init = SlashState {
        enabled: false,
        brightness: 0,
        interval: 0,
        mode: SlashMode::Flow,
    };
    let mut st = SlashState::default();
    let n = lines.len();
    let mut i: usize = 0;
    proof {
        assert(all.skip(0) =~= all);
    }
    while i < n
        invariant
            i <= n,
            n == lines@.len(),
            all == views_of(lines@),
            all == spec_lines(content@),
            init == (SlashState {
                enabled: false,
                brightness: 0,
                interval: 0,
                mode: SlashMode::Flow,
            }),
            spec_slash_config_lines(all, init) == spec_slash_config_lines(
                all.skip(i as int),
                st,
            ),
        decreases n - i,
    {
        proof {
            assert(all.skip(i as int).first() == lines@[i as int]@);
            assert(all.skip(i as int).drop_first() =~= all.skip(i as int + 1));
        }
        let line = trim(lines[i].as_str());
        if starts_with(line, "enabled:") {
            st = SlashState { enabled: contains(line, "true"), ..st };
        } else if starts_with(line, "brightness:") {
            match extract_number(line) {
                Some(v) => {
                    st = SlashState { brightness: (v % 256) as u8, ..st };
                },
                None => {},
            }
        } else if starts_with(line, "display_interval:") {
            match extract_number(line) {
                Some(v) => {
                    st = SlashState { interval: (v % 256) as u8, ..st };
                },
                None => {},
            }
        } else if starts_with(line, "display_mode:") {
            match extract_string_value(line) {
                Some(m) => {
                    let mode = match SlashMode::from_str(m.as_str()) {
                        Ok(md) => md,
                        Err(_) => SlashMode::Flow,
                    };
                    st = SlashState { mode, ..st };
                },
                None => {},
            }
        }
        i += 1;
    }
    Ok(st)
}

} // verus!
