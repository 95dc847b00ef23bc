//! Scalar readers: interpret the raw text of one source file as a boolean
//! flag, a decimal counter, or a hexadecimal mask. A missing source and
//! unparsable content are indistinguishable to callers — both collapse to
//! "no value" and are never an error.

use vstd::prelude::*;

use crate::numbers::spec_parse_dec;
use crate::numbers::spec_parse_hex;
use crate::numbers::parse_dec_u64;
use crate::numbers::parse_hex_u64;
use crate::text::spec_first_content_line;
use crate::text::first_content_line;

verus! {

/// What a flag file says: its first non-empty line, trimmed, is exactly
/// "1".
pub open spec fn spec_read_flag(s: Seq<char>) -> bool {
    match spec_first_content_line(s) {
        Some(t) => t == seq!['1'],
        None => false,
    }
}

/// Reads a boolean flag from file content: true exactly when the first
/// non-empty line, trimmed, is "1"; anything else is false.
pub fn read_flag(content: &str) -> (r: bool)
    ensures
        r == spec_read_flag(content@),
{
    match first_content_line(content) {
        Some(t) => {
            let one = String::from_str("1");
            proof {
                reveal_strlit("1");
                assert("1"@ =~= seq!['1']);
            }
            t == one
        },
        None => false,
    }
}

/// What an integer file holds: its first non-empty line, trimmed, parsed
/// as unsigned decimal.
pub open spec fn spec_read_integer(s: Seq<char>) -> Option<u64> {
    match spec_first_content_line(s) {
        Some(t) => spec_parse_dec(t),
        None => None,
    }
}

/// Reads an unsigned decimal counter from file content; `None` when every
/// line is blank or the first non-empty line does not parse.
pub fn read_integer(content: &str) -> (r: Option<u64>)
    ensures
        r == spec_read_integer(content@),
{
    match first_content_line(content) {
        Some(t) => parse_dec_u64(t.as_str()),
        None => None,
    }
}

/// `t` with one leading "0x" removed.
pub open spec fn strip_hex_prefix(t: Seq<char>) -> Seq<char> {
    if t.len() >= 2 && t[0] == '0' && t[1] == 'x' {
        t.skip(2)
    } else {
        t
    }
}

/// What a mask file holds: its first non-empty line, trimmed, with an
/// optional "0x" prefix stripped, parsed as unsigned hexadecimal.
pub open spec fn spec_read_hex_mask(s: Seq<char>) -> Option<u64> {
    match spec_first_content_line(s) {
        Some(t) => spec_parse_hex(strip_hex_prefix(t)),
        None => None,
    }
}

/// Reads a 64-bit mask from file content; `None` when every line is blank
/// or the first non-empty line does not parse as hexadecimal.
pub fn read_hex_mask(content: &str) -> (r: Option<u64>)
    ensures
        r == spec_read_hex_mask(content@),
{
    match first_content_line(content) {
        Some(t) => {
            let ts = t.as_str();
            let n = ts.unicode_len();
            let stripped = if n >= 2 && ts.get_char(0) == '0' && ts.get_char(1) == 'x' {
                ts.substring_char(2, n)
            } else {
                ts
            };
            proof {
                assert(stripped@ =~= strip_hex_prefix(t@));
            }
            parse_hex_u64(stripped)
        },
        None => None,
    }
}

/// The flag read from an optional source: an absent source reads as false.
pub open spec fn spec_opt_flag(o: Option<Seq<char>>) -> bool {
    match o {
        Some(s) => spec_read_flag(s),
        None => false,
    }
}

/// The integer read from an optional source: absent means no value.
pub open spec fn spec_opt_integer(o: Option<Seq<char>>) -> Option<u64> {
    match o {
        Some(s) => spec_read_integer(s),
        None => None,
    }
}

/// The mask read from an optional source: absent means no value.
pub open spec fn spec_opt_hex_mask(o: Option<Seq<char>>) -> Option<u64> {
    match o {
        Some(s) => spec_read_hex_mask(s),
        None => None,
    }
}

} // verus!
