//! Command-line vocabulary: the subcommands and the number syntax of their
//! arguments.

use vstd::prelude::*;
use vstd::string::StringSliceAdditionalSpecFns;
use vstd::utf8::{encode_utf8_valid_utf8, is_char_boundary, is_char_boundary_start_end_of_seq, length_of_first_scalar,
    pop_first_scalar, valid_utf8};

verus! {

#[verifier::external_type_specification]
#[verifier::external_body]
pub struct ExParseIntError(std::num::ParseIntError);

/// The subcommands.
#[allow(non_camel_case_types)]
#[derive(Debug, PartialEq, Eq)]
pub enum Cmd {
    /// Reset the device into user-space app.
    resetIntoApp,
    /// Reset the device into bootloader, usually for flashing.
    resetIntoBootloader,
    /// Various device information.
    info,
    /// The current mode of the device.
    bininfo,
    /// The internal log buffer, if any.
    dmesg,
    /// Flash the image in `file` at `address`.
    flash { file: String, address: u32 },
    /// Verify the image in `file` against the device from `address`.
    verify { file: String, address: u32 },
}

/// The value of an ASCII digit in `radix`: `0`-`9`, then `a`-`z` or `A`-`Z`.
pub open spec fn digit_value(c: u8, radix: nat) -> Option<nat> {
    let v: int = if 48 <= c <= 57 {
        c - 48
    } else if 97 <= c <= 122 {
        c - 87
    } else if 65 <= c <= 90 {
        c - 55
    } else {
        radix as int
    };
    if v < radix {
        Some(v as nat)
    } else {
        None
    }
}

/// The value of a string of digits, most significant first.
pub open spec fn digits_value(s: Seq<u8>, radix: nat) -> Option<nat>
    decreases s.len(),
{
    if s.len() == 0 {
        Some(0)
    } else {
        match (digits_value(s.drop_last(), radix), digit_value(s.last(), radix)) {
            (Some(v), Some(d)) => Some(v * radix + d),
            _ => None,
        }
    }
}

/// An unsigned number as std reads it: an optional `+`, then one or more
/// digits.
pub open spec fn unsigned_value(s: Seq<u8>, radix: nat) -> Option<nat> {
    let t = if s.len() > 0 && s[0] == 43 {
        s.drop_first()
    } else {
        s
    };
    if t.len() == 0 {
        None
    } else {
        digits_value(t, radix)
    }
}

/// A number written in hexadecimal after `0x`, else in decimal.
pub open spec fn hex_or_decimal(s: Seq<u8>) -> Option<nat> {
    if s.len() >= 2 && s[0] == 48 && s[1] == 120 {
        unsigned_value(s.subrange(2, s.len() as int), 16)
    } else {
        unsigned_value(s, 10)
    }
}

/// Relies on `u32::from_str_radix`: an optional `+` and digits of `radix`,
/// whose value fits in `u32`.
#[verifier::external_body]
fn u32_from_str_radix(s: &str, radix: u32) -> (r: Result<u32, std::num::ParseIntError>)
    requires
        2 <= radix <= 36,
    ensures
        r is Ok <==> (unsigned_value(s.spec_bytes(), radix as nat) matches Some(v) && v <= u32::MAX),
        r is Ok ==> unsigned_value(s.spec_bytes(), radix as nat) == Some(r->Ok_0 as nat),
{
    u32::from_str_radix(s, radix)
}

/// Relies on `u16::from_str_radix`: an optional `+` and digits of `radix`,
/// whose value fits in `u16`.
#[verifier::external_body]
fn u16_from_str_radix(s: &str, radix: u32) -> (r: Result<u16, std::num::ParseIntError>)
    requires
        2 <= radix <= 36,
    ensures
        r is Ok <==> (unsigned_value(s.spec_bytes(), radix as nat) matches Some(v) && v <= u16::MAX),
        r is Ok ==> unsigned_value(s.spec_bytes(), radix as nat) == Some(r->Ok_0 as nat),
{
    u16::from_str_radix(s, radix)
}

/// Splits off a leading `0x`, if any.
fn hex_digits(input: &str) -> (r: Option<&str>)
    ensures
        r is Some <==> (input.spec_bytes().len() >= 2 && input.spec_bytes()[0] == 48
            && input.spec_bytes()[1] == 120),
        r is Some ==> r->Some_0.spec_bytes() == input.spec_bytes().subrange(
            2,
            input.spec_bytes().len() as int,
        ),
{
    let b = input.as_bytes();
    if b.len() >= 2 && b[0] == 48 && b[1] == 120 {
        proof {
            let s = input.spec_bytes();
            encode_utf8_valid_utf8(input@);
            if s.len() == 2 {
                is_char_boundary_start_end_of_seq(s);
            } else {
                let s1 = pop_first_scalar(s);
                assert(length_of_first_scalar(s) == 1);
                assert(valid_utf8(s1));
                assert(s1[0] == 120);
                assert(length_of_first_scalar(s1) == 1);
                assert(valid_utf8(pop_first_scalar(s1)));
                assert(is_char_boundary(pop_first_scalar(s1), 0));
                assert(is_char_boundary(s1, 1));
                assert(is_char_boundary(s, 2));
            }
        }
        let (_, rest) = input.split_at(2);
        Some(rest)
    } else {
        None
    }
}

/// Reads a `u32` written in hexadecimal after `0x`, else in decimal.
pub fn parse_hex_32(input: &str) -> (r: Result<u32, std::num::ParseIntError>)
    ensures
        r is Ok <==> (hex_or_decimal(input.spec_bytes()) matches Some(v) && v <= u32::MAX),
        r is Ok ==> hex_or_decimal(input.spec_bytes()) == Some(r->Ok_0 as nat),
{
    match hex_digits(input) {
        Some(rest) => u32_from_str_radix(rest, 16),
        None => u32_from_str_radix(input, 10),
    }
}

/// Reads a `u16` written in hexadecimal after `0x`, else in decimal.
pub fn parse_hex_16(input: &str) -> (r: Result<u16, std::num::ParseIntError>)
    ensures
        r is Ok <==> (hex_or_decimal(input.spec_bytes()) matches Some(v) && v <= u16::MAX),
        r is Ok ==> hex_or_decimal(input.spec_bytes()) == Some(r->Ok_0 as nat),
{
    match hex_digits(input) {
        Some(rest) => u16_from_str_radix(rest, 16),
        None => u16_from_str_radix(input, 10),
    }
}

} // verus!
