//! Decoders for the property bus's wire format: a one-letter type tag, a
//! space, then the value literal.

use vstd::prelude::*;
use vstd::string::StrSliceExecFns;
use crate::error::AsusctlError;
use crate::error::parse_error;
use crate::error::parse_result_matches;
use crate::text::spec_parse_u32;
use crate::text::parse_u32;
use crate::text::starts_with;
use crate::text::str_eq;

verus! {

/// What decoding a boolean wire value (`b true` / `b false`) yields: the
/// boolean, or the exact error message.
pub open spec fn spec_dbus_bool(s: Seq<char>) -> Result<bool, Seq<char>> {
    if !"b "@.is_prefix_of(s) {
        Err("Expected boolean, got: "@ + s)
    } else {
        let v = s.skip("b "@.len() as int);
        if v == "true"@ {
            Ok(true)
        } else if v == "false"@ {
            Ok(false)
        } else {
            Err("Invalid boolean value: "@ + v)
        }
    }
}

/// Decode a boolean property (`b true` / `b false`).
pub fn parse_dbus_bool(output: &str) -> (r: Result<bool, AsusctlError>)
    ensures
        parse_result_matches(r, spec_dbus_bool(output@)),
{
    let tag = "b ";
    if !starts_with(output, tag) {
        return Err(parse_error("Expected boolean, got: ", output));
    }
    let v = output.substring_char(tag.unicode_len(), output.unicode_len());
    if str_eq(v, "true") {
        Ok(true)
    } else if str_eq(v, "false") {
        Ok(false)
    } else {
        Err(parse_error("Invalid boolean value: ", v))
    }
}

/// What decoding a byte wire value (`y 255`) yields: the byte, or the exact
/// error message.
pub open spec fn spec_dbus_byte(s: Seq<char>) -> Result<u8, Seq<char>> {
    if !"y "@.is_prefix_of(s) {
        Err("Expected byte, got: "@ + s)
    } else {
        let v = s.skip("y "@.len() as int);
        if spec_parse_u32(v) is Some && spec_parse_u32(v)->Some_0 <= 255 {
            Ok(spec_parse_u32(v)->Some_0 as u8)
        } else {
            Err("Invalid byte value: "@ + v)
        }
    }
}

/// Decode a byte property (`y 255`).
pub fn parse_dbus_byte(output: &str) -> (r: Result<u8, AsusctlError>)
    ensures
        parse_result_matches(r, spec_dbus_byte(output@)),
{
    let tag = "y ";
    if !starts_with(output, tag) {
        return Err(parse_error("Expected byte, got: ", output));
    }
    let v = output.substring_char(tag.unicode_len(), output.unicode_len());
    match parse_u32(v) {
        Some(x) if x <= 255 => Ok(x as u8),
        _ => Err(parse_error("Invalid byte value: ", v)),
    }
}

/// What decoding an unsigned-integer wire value (`u 2`) yields: the number,
/// or the exact error message.
pub open spec fn spec_dbus_uint(s: Seq<char>) -> Result<u32, Seq<char>> {
    if !"u "@.is_prefix_of(s) {
        Err("Expected uint, got: "@ + s)
    } else {
        let v = s.skip("u "@.len() as int);
        match spec_parse_u32(v) {
            Some(x) => Ok(x),
            None => Err("Invalid uint value: "@ + v),
        }
    }
}

/// Decode an unsigned-integer property (`u 2`).
pub fn parse_dbus_uint(output: &str) -> (r: Result<u32, AsusctlError>)
    ensures
        parse_result_matches(r, spec_dbus_uint(output@)),
{
    let tag = "u ";
    if !starts_with(output, tag) {
        return Err(parse_error("Expected uint, got: ", output));
    }
    let v = output.substring_char(tag.unicode_len(), output.unicode_len());
    match parse_u32(v) {
        Some(x) => Ok(x),
        None => Err(parse_error("Invalid uint value: ", v)),
    }
}

} // verus!
