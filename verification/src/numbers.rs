//! Unsigned 64-bit numbers as text: parsing the decimal and hexadecimal
//! notation the source files use, and formatting numbers for report
//! entries. Parsing accepts one optional leading `+`, requires at least
//! one digit, and fails on any other character or on overflow.

use vstd::prelude::*;

verus! {

/// Whether `c` is a decimal digit.
pub open spec fn is_dec_digit(c: char) -> bool {
    48 <= c as u32 <= 57
}

/// The value of a decimal digit.
pub open spec fn dec_digit_value(c: char) -> int {
    c as u32 - 48
}

/// Whether `c` is a hexadecimal digit (either case).
pub open spec fn is_hex_digit(c: char) -> bool {
    (48 <= c as u32 <= 57) || (97 <= c as u32 <= 102) || (65 <= c as u32 <= 70)
}

/// The value of a hexadecimal digit (either case).
pub open spec fn hex_digit_value(c: char) -> int {
    if 48 <= c as u32 <= 57 {
        c as u32 - 48
    } else if 97 <= c as u32 <= 102 {
        c as u32 - 87
    } else {
        c as u32 - 55
    }
}

/// The number denoted by `s` read as decimal digits, most significant
/// first.
pub open spec fn dec_seq_value(s: Seq<char>) -> int
    decreases s.len(),
{
    if s.len() == 0 {
        0
    } else {
        dec_seq_value(s.take(s.len() - 1)) * 10 + dec_digit_value(s[s.len() - 1])
    }
}

/// The number denoted by `s` read as hexadecimal digits, most significant
/// first.
pub open spec fn hex_seq_value(s: Seq<char>) -> int
    decreases s.len(),
{
    if s.len() == 0 {
        0
    } else {
        hex_seq_value(s.take(s.len() - 1)) * 16 + hex_digit_value(s[s.len() - 1])
    }
}

/// `s` with one leading plus sign removed.
pub open spec fn strip_plus(s: Seq<char>) -> Seq<char> {
    if s.len() > 0 && s[0] == '+' {
        s.skip(1)
    } else {
        s
    }
}

/// The result of parsing `s` as an unsigned decimal number: after an
/// optional `+` there must be at least one digit, nothing but digits, and
/// the value must fit in 64 bits.
pub open spec fn spec_parse_dec(s: Seq<char>) -> Option<u64> {
    let d = strip_plus(s);
    if d.len() > 0 && (forall|j: int| 0 <= j < d.len() ==> is_dec_digit(d[j])) && dec_seq_value(d)
        <= u64::MAX {
        Some(dec_seq_value(d) as u64)
    } else {
        None
    }
}

/// The result of parsing `s` as an unsigned hexadecimal number, with the
/// same shape requirements as the decimal parser.
pub open spec fn spec_parse_hex(s: Seq<char>) -> Option<u64> {
    let d = strip_plus(s);
    if d.len() > 0 && (forall|j: int| 0 <= j < d.len() ==> is_hex_digit(d[j])) && hex_seq_value(d)
        <= u64::MAX {
        Some(hex_seq_value(d) as u64)
    } else {
        None
    }
}

proof fn lemma_dec_value_nonneg(d: Seq<char>)
    requires
        forall|j: int| 0 <= j < d.len() ==> is_dec_digit(d[j]),
    ensures
        dec_seq_value(d) >= 0,
    decreases d.len(),
{
    if d.len() > 0 {
        lemma_dec_value_nonneg(d.take(d.len() - 1));
    }
}

proof fn lemma_dec_value_prefix_le(d: Seq<char>, k: int)
    requires
        0 <= k <= d.len(),
        forall|j: int| 0 <= j < d.len() ==> is_dec_digit(d[j]),
    ensures
        dec_seq_value(d.take(k)) <= dec_seq_value(d),
    decreases d.len() - k,
{
    if k < d.len() {
        lemma_dec_value_nonneg(d.take(k));
        assert(d.take(k + 1).take(k) =~= d.take(k));
        lemma_dec_value_prefix_le(d, k + 1);
    } else {
        assert(d.take(k) =~= d);
    }
}

proof fn lemma_hex_value_nonneg(d: Seq<char>)
    requires
        forall|j: int| 0 <= j < d.len() ==> is_hex_digit(d[j]),
    ensures
        hex_seq_value(d) >= 0,
    decreases d.len(),
{
    if d.len() > 0 {
        lemma_hex_value_nonneg(d.take(d.len() - 1));
    }
}

proof fn lemma_hex_value_prefix_le(d: Seq<char>, k: int)
    requires
        0 <= k <= d.len(),
        forall|j: int| 0 <= j < d.len() ==> is_hex_digit(d[j]),
    ensures
        hex_seq_value(d.take(k)) <= hex_seq_value(d),
    decreases d.len() - k,
{
    if k < d.len() {
        lemma_hex_value_nonneg(d.take(k));
        assert(d.take(k + 1).take(k) =~= d.take(k));
        lemma_hex_value_prefix_le(d, k + 1);
    } else {
        assert(d.take(k) =~= d);
    }
}

/// Parses `s` as an unsigned decimal number; `None` on an empty digit
/// string, a non-digit character, or a value over `u64::MAX`.
pub fn parse_dec_u64(s: &str) -> (r: Option<u64>)
    ensures
        r == spec_parse_dec(s@),
{
    let n = s.unicode_len();
    let start: usize = if n > 0 && s.get_char(0) == '+' {
        1
    } else {
        0
    };
    let ghost d = strip_plus(s@);
    proof {
        assert(d =~= s@.skip(start as int));
    }
    if start == n {
        proof {
            assert(d.len() == 0);
        }
        return None;
    }
    let mut acc: u64 = 0;
    let mut i: usize = start;
    while i < n
        invariant
            start <= i <= n,
            n == s@.len(),
            d == strip_plus(s@),
            d == s@.skip(start as int),
            d.len() == n - start,
            forall|j: int| 0 <= j < i - start ==> is_dec_digit(d[j]),
            acc == dec_seq_value(d.take(i - start)),
        decreases n - i,
    {
        let c = s.get_char(i);
        let v = c as u32;
        proof {
            assert(d[i - start] == s@[i as int]);
        }
        if !(48 <= v && v <= 57) {
            proof {
                assert(0 <= i - start < d.len() && !is_dec_digit(d[i - start]));
                assert(spec_parse_dec(s@) is None);
            }
            return None;
        }
        let digit = (v - 48) as u64;
        if acc > 1844674407370955161u64 || (acc == 1844674407370955161u64 && digit > 5) {
            proof {
                let k = i - start + 1;
                assert(d.take(k).take(k - 1) =~= d.take(k - 1));
                assert(d.take(k)[k - 1] == d[i - start]);
                assert(dec_seq_value(d.take(k)) == acc * 10 + digit);
                if forall|j: int| 0 <= j < d.len() ==> is_dec_digit(d[j]) {
                    lemma_dec_value_prefix_le(d, k);
                    assert(dec_seq_value(d) > u64::MAX);
                }
                assert(spec_parse_dec(s@) is None);
            }
            return None;
        }
        proof {
            let k = i - start + 1;
            assert(d.take(k).take(k - 1) =~= d.take(k - 1));
            assert(d.take(k)[k - 1] == d[i - start]);
        }
        acc = acc * 10 + digit;
        i += 1;
    }
    proof {
        assert(d.take(d.len() as int) =~= d);
    }
    Some(acc)
}

/// Parses `s` as an unsigned hexadecimal number; `None` on an empty digit
/// string, a non-digit character, or a value over `u64::MAX`.
pub fn parse_hex_u64(s: &str) -> (r: Option<u64>)
    ensures
        r == spec_parse_hex(s@),
{
    let n = s.unicode_len();
    let start: usize = if n > 0 && s.get_char(0) == '+' {
        1
    } else {
        0
    };
    let ghost d = strip_plus(s@);
    proof {
        assert(d =~= s@.skip(start as int));
    }
    if start == n {
        proof {
            assert(d.len() == 0);
        }
        return None;
    }
    let mut acc: u64 = 0;
    let mut i: usize = start;
    while i < n
        invariant
            start <= i <= n,
            n == s@.len(),
            d == strip_plus(s@),
            d == s@.skip(start as int),
            d.len() == n - start,
            forall|j: int| 0 <= j < i - start ==> is_hex_digit(d[j]),
            acc == hex_seq_value(d.take(i - start)),
        decreases n - i,
    {
        let c = s.get_char(i);
        let v = c as u32;
        proof {
            assert(d[i - start] == s@[i as int]);
        }
        let digit: u64 = if 48 <= v && v <= 57 {
            (v - 48) as u64
        } else if 97 <= v && v <= 102 {
            (v - 87) as u64
        } else if 65 <= v && v <= 70 {
            (v - 55) as u64
        } else {
            proof {
                assert(0 <= i - start < d.len() && !is_hex_digit(d[i - start]));
                assert(spec_parse_hex(s@) is None);
            }
            return None;
        };
        if acc > 1152921504606846975u64 {
            proof {
                let k = i - start + 1;
                assert(d.take(k).take(k - 1) =~= d.take(k - 1));
                assert(d.take(k)[k - 1] == d[i - start]);
                assert(hex_seq_value(d.take(k)) == acc * 16 + digit);
                if forall|j: int| 0 <= j < d.len() ==> is_hex_digit(d[j]) {
                    lemma_hex_value_prefix_le(d, k);
                    assert(hex_seq_value(d) > u64::MAX);
                }
                assert(spec_parse_hex(s@) is None);
            }
            return None;
        }
        proof {
            let k = i - start + 1;
            assert(d.take(k).take(k - 1) =~= d.take(k - 1));
            assert(d.take(k)[k - 1] == d[i - start]);
        }
        acc = acc * 16 + digit;
        i += 1;
    }
    proof {
        assert(d.take(d.len() as int) =~= d);
    }
    Some(acc)
}

/// The character of a decimal digit value.
pub open spec fn dec_digit_char(v: int) -> char {
    if v == 0 {
        '0'
    } else if v == 1 {
        '1'
    } else if v == 2 {
        '2'
    } else if v == 3 {
        '3'
    } else if v == 4 {
        '4'
    } else if v == 5 {
        '5'
    } else if v == 6 {
        '6'
    } else if v == 7 {
        '7'
    } else if v == 8 {
        '8'
    } else {
        '9'
    }
}

/// The character of a hexadecimal digit value, lower case.
pub open spec fn hex_digit_char(v: int) -> char {
    if v < 10 {
        dec_digit_char(v)
    } else if v == 10 {
        'a'
    } else if v == 11 {
        'b'
    } else if v == 12 {
        'c'
    } else if v == 13 {
        'd'
    } else if v == 14 {
        'e'
    } else {
        'f'
    }
}

/// The decimal notation of `n`, without a sign and without leading zeros.
pub open spec fn spec_dec_chars(n: int) -> Seq<char>
    decreases n when n >= 0
{
    if n < 10 {
        seq![dec_digit_char(n)]
    } else {
        spec_dec_chars(n / 10).push(dec_digit_char(n % 10))
    }
}

/// The hexadecimal notation of `n`, lower case, without a prefix and
/// without leading zeros.
pub open spec fn spec_hex_chars(n: int) -> Seq<char>
    decreases n when n >= 0
{
    if n < 16 {
        seq![hex_digit_char(n)]
    } else {
        spec_hex_chars(n / 16).push(hex_digit_char(n % 16))
    }
}

fn dec_digit_str(v: u64) -> (r: &'static str)
    requires
        v < 10,
    ensures
        r@ == seq![dec_digit_char(v as int)],
{
    proof {
        reveal_strlit("0");
        reveal_strlit("1");
        reveal_strlit("2");
        reveal_strlit("3");
        reveal_strlit("4");
        reveal_strlit("5");
        reveal_strlit("6");
        reveal_strlit("7");
        reveal_strlit("8");
        reveal_strlit("9");
        assert("0"@ =~= seq!['0']);
        assert("1"@ =~= seq!['1']);
        assert("2"@ =~= seq!['2']);
        assert("3"@ =~= seq!['3']);
        assert("4"@ =~= seq!['4']);
        assert("5"@ =~= seq!['5']);
        assert("6"@ =~= seq!['6']);
        assert("7"@ =~= seq!['7']);
        assert("8"@ =~= seq!['8']);
        assert("9"@ =~= seq!['9']);
    }
    match v {
        0 => "0",
        1 => "1",
        2 => "2",
        3 => "3",
        4 => "4",
        5 => "5",
        6 => "6",
        7 => "7",
        8 => "8",
        _ => "9",
    }
}

fn hex_digit_str(v: u64) -> (r: &'static str)
    requires
        v < 16,
    ensures
        r@ == seq![hex_digit_char(v as int)],
{
    if v < 10 {
        dec_digit_str(v)
    } else {
        proof {
            reveal_strlit("a");
            reveal_strlit("b");
            reveal_strlit("c");
            reveal_strlit("d");
            reveal_strlit("e");
            reveal_strlit("f");
            assert("a"@ =~= seq!['a']);
            assert("b"@ =~= seq!['b']);
            assert("c"@ =~= seq!['c']);
            assert("d"@ =~= seq!['d']);
            assert("e"@ =~= seq!['e']);
            assert("f"@ =~= seq!['f']);
        }
        match v {
            10 => "a",
            11 => "b",
            12 => "c",
            13 => "d",
            14 => "e",
            _ => "f",
        }
    }
}

/// Formats `n` in decimal.
pub fn dec_string(n: u64) -> (r: String)
    ensures
        r@ == spec_dec_chars(n as int),
    decreases n,
{
    if n < 10 {
        String::from_str(dec_digit_str(n))
    } else {
        let mut s = dec_string(n / 10);
        s.append(dec_digit_str(n % 10));
        proof {
            assert(s@ =~= spec_dec_chars((n / 10) as int).push(dec_digit_char((n % 10) as int)));
        }
        s
    }
}

/// Formats `n` in hexadecimal, lower case.
pub fn hex_string(n: u64) -> (r: String)
    ensures
        r@ == spec_hex_chars(n as int),
    decreases n,
{
    if n < 16 {
        String::from_str(hex_digit_str(n))
    } else {
        let mut s = hex_string(n / 16);
        s.append(hex_digit_str(n % 16));
        proof {
            assert(s@ =~= spec_hex_chars((n / 16) as int).push(hex_digit_char((n % 16) as int)));
        }
        s
    }
}

} // verus!
