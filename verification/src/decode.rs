//! The bit decoder: maps a 64-bit mask and an ordered description table to
//! an ordered list of active-bit descriptions. Line index 0 of the table
//! describes bit 63 (the most significant bit), line index k bit 63 - k.
//! Reserved line indices are reported as confidential regardless of their
//! text; a line whose trimmed text is exactly "Reserved" is reported as a
//! reserved-bit marker; set bits beyond the table are reported as raw
//! active bits when the caller asks for that fallback.

use vstd::prelude::*;

use crate::numbers::spec_dec_chars;
use crate::numbers::dec_string;
use crate::text::spec_trim;
use crate::text::spec_split_lines;
use crate::text::trim_of;
use crate::text::split_lines;

verus! {

/// The sentinel a category reports in place of an empty entry list.
pub open spec fn no_entries_text() -> Seq<char> {
    "no active entries"@
}

/// Whether the bit described by table line `line_index` is set in `mask`.
pub open spec fn bit_active(mask: u64, line_index: int) -> bool
    recommends
        0 <= line_index < 64,
{
    mask & (1u64 << ((63 - line_index) as u64)) != 0
}

/// The marker for a line index in the reserved set.
pub open spec fn confidential_entry(i: int) -> Seq<char> {
    "Confidential - report as reserved Bit-"@ + spec_dec_chars(i)
}

/// The marker for a table line whose trimmed text is exactly "Reserved".
pub open spec fn reserved_entry(i: int) -> Seq<char> {
    "Reserved Bit-"@ + spec_dec_chars(i)
}

/// The marker for a set bit past the end of the table.
pub open spec fn beyond_entry(i: int) -> Seq<char> {
    "Bit-"@ + spec_dec_chars(i) + " is active"@
}

/// The text reported for an active bit at line index `i`: the confidential
/// marker when `i` is reserved, the reserved-bit marker when the table line
/// reads "Reserved", the table line verbatim otherwise, and the raw
/// active-bit marker past the end of the table.
pub open spec fn entry_at(table: Seq<Seq<char>>, reserved: Seq<usize>, i: int) -> Seq<char> {
    if i < table.len() {
        if reserved.contains(i as usize) {
            confidential_entry(i)
        } else if spec_trim(table[i]) == "Reserved"@ {
            reserved_entry(i)
        } else {
            table[i]
        }
    } else {
        beyond_entry(i)
    }
}

/// Whether line index `i` produces an entry: its bit is set, and it is
/// either described by the table or reported through the beyond-table
/// fallback.
pub open spec fn emits_at(mask: u64, table_len: int, beyond: bool, i: int) -> bool {
    bit_active(mask, i) && (i < table_len || beyond)
}

/// The entries for line indices `i` to 63, in order of increasing line
/// index.
pub open spec fn decode_entries_from(
    mask: u64,
    table: Seq<Seq<char>>,
    reserved: Seq<usize>,
    beyond: bool,
    i: int,
) -> Seq<Seq<char>>
    decreases 64 - i when 0 <= i <= 64
{
    if i >= 64 {
        Seq::empty()
    } else {
        let rest = decode_entries_from(mask, table, reserved, beyond, i + 1);
        if emits_at(mask, table.len() as int, beyond, i) {
            seq![entry_at(table, reserved, i)] + rest
        } else {
            rest
        }
    }
}

/// All entries of the decoded report, in order of increasing line index,
/// which is decreasing bit position.
pub open spec fn decode_entries(
    mask: u64,
    table: Seq<Seq<char>>,
    reserved: Seq<usize>,
    beyond: bool,
) -> Seq<Seq<char>> {
    decode_entries_from(mask, table, reserved, beyond, 0)
}

/// The decoded report: the entries, or the sentinel alone when no bit
/// produced one.
pub open spec fn spec_decode_report(
    mask: u64,
    table: Seq<Seq<char>>,
    reserved: Seq<usize>,
    beyond: bool,
) -> Seq<Seq<char>> {
    let es = decode_entries(mask, table, reserved, beyond);
    if es.len() == 0 {
        seq![no_entries_text()]
    } else {
        es
    }
}

/// The line indices that produce entries, from `i` up, in increasing
/// order.
pub open spec fn active_indices_from(mask: u64, table_len: int, beyond: bool, i: int) -> Seq<int>
    decreases 64 - i when 0 <= i <= 64
{
    if i >= 64 {
        Seq::empty()
    } else {
        let rest = active_indices_from(mask, table_len, beyond, i + 1);
        if emits_at(mask, table_len, beyond, i) {
            seq![i] + rest
        } else {
            rest
        }
    }
}

/// All line indices that produce entries, in increasing order.
pub open spec fn active_indices(mask: u64, table_len: int, beyond: bool) -> Seq<int> {
    active_indices_from(mask, table_len, beyond, 0)
}

proof fn lemma_entries_map_indices_from(
    mask: u64,
    table: Seq<Seq<char>>,
    reserved: Seq<usize>,
    beyond: bool,
    i: int,
)
    requires
        0 <= i <= 64,
    ensures
        decode_entries_from(mask, table, reserved, beyond, i) == active_indices_from(
            mask,
            table.len() as int,
            beyond,
            i,
        ).map_values(|j: int| entry_at(table, reserved, j)),
    decreases 64 - i,
{
    let f = |j: int| entry_at(table, reserved, j);
    if i >= 64 {
        assert(Seq::<int>::empty().map_values(f) =~= Seq::<Seq<char>>::empty());
    } else {
        lemma_entries_map_indices_from(mask, table, reserved, beyond, i + 1);
        let rest_idx = active_indices_from(mask, table.len() as int, beyond, i + 1);
        if emits_at(mask, table.len() as int, beyond, i) {
            assert((seq![i] + rest_idx).map_values(f) =~= seq![f(i)] + rest_idx.map_values(f));
        }
    }
}

proof fn lemma_indices_from_increasing(mask: u64, table_len: int, beyond: bool, i: int)
    requires
        0 <= i <= 64,
    ensures
        forall|a: int|
            0 <= a < active_indices_from(mask, table_len, beyond, i).len() ==> i <= #[trigger] active_indices_from(
                mask,
                table_len,
                beyond,
                i,
            )[a] < 64,
        forall|a: int, b: int|
            0 <= a < b < active_indices_from(mask, table_len, beyond, i).len()
                ==> active_indices_from(mask, table_len, beyond, i)[a] < active_indices_from(
                mask,
                table_len,
                beyond,
                i,
            )[b],
    decreases 64 - i,
{
    if i < 64 {
        lemma_indices_from_increasing(mask, table_len, beyond, i + 1);
        let rest = active_indices_from(mask, table_len, beyond, i + 1);
        let s = active_indices_from(mask, table_len, beyond, i);
        if emits_at(mask, table_len, beyond, i) {
            assert(s == seq![i] + rest);
            assert forall|a: int| 0 <= a < s.len() implies i <= #[trigger] s[a] < 64 by {
                if a > 0 {
                    assert(s[a] == rest[a - 1]);
                }
            }
            assert forall|a: int, b: int| 0 <= a < b < s.len() implies s[a] < s[b] by {
                assert(s[b] == rest[b - 1]);
                if a > 0 {
                    assert(s[a] == rest[a - 1]);
                }
            }
        }
    }
}

/// Bit-order law: the decoded entries are exactly the entries of the
/// emitting line indices, and those indices are strictly increasing — that
/// is, the entries appear in strictly decreasing bit-position order, bit
/// positions being 63 minus the line index.
pub proof fn lemma_decode_order(mask: u64, table: Seq<Seq<char>>, reserved: Seq<usize>, beyond: bool)
    ensures
        decode_entries(mask, table, reserved, beyond) == active_indices(
            mask,
            table.len() as int,
            beyond,
        ).map_values(|j: int| entry_at(table, reserved, j)),
        forall|a: int|
            0 <= a < active_indices(mask, table.len() as int, beyond).len() ==> 0 <= #[trigger] active_indices(
                mask,
                table.len() as int,
                beyond,
            )[a] < 64,
        forall|a: int, b: int|
            0 <= a < b < active_indices(mask, table.len() as int, beyond).len()
                ==> active_indices(mask, table.len() as int, beyond)[a] < active_indices(
                mask,
                table.len() as int,
                beyond,
            )[b],
{
    lemma_entries_map_indices_from(mask, table, reserved, beyond, 0);
    lemma_indices_from_increasing(mask, table.len() as int, beyond, 0);
}

proof fn lemma_zero_mask_entries_from(
    table: Seq<Seq<char>>,
    reserved: Seq<usize>,
    beyond: bool,
    i: int,
)
    requires
        0 <= i <= 64,
    ensures
        decode_entries_from(0, table, reserved, beyond, i) == Seq::<Seq<char>>::empty(),
    decreases 64 - i,
{
    assert(forall|sh: u64| (0u64 & (1u64 << sh)) == 0) by (bit_vector);
    if i < 64 {
        lemma_zero_mask_entries_from(table, reserved, beyond, i + 1);
    }
}

/// Zero-mask law: a mask with no bit set decodes to exactly the sentinel,
/// whatever the table and the reserved set.
pub proof fn lemma_decode_zero_mask(table: Seq<Seq<char>>, reserved: Seq<usize>, beyond: bool)
    ensures
        spec_decode_report(0, table, reserved, beyond) == seq![no_entries_text()],
{
    lemma_zero_mask_entries_from(table, reserved, beyond, 0);
}

proof fn lemma_entries_contain_from(
    mask: u64,
    table: Seq<Seq<char>>,
    reserved: Seq<usize>,
    beyond: bool,
    i: int,
    j: int,
)
    requires
        0 <= j <= i < 64,
        emits_at(mask, table.len() as int, beyond, i),
    ensures
        decode_entries_from(mask, table, reserved, beyond, j).contains(
            entry_at(table, reserved, i),
        ),
    decreases i - j,
{
    let e = entry_at(table, reserved, i);
    if j == i {
        let s = decode_entries_from(mask, table, reserved, beyond, i);
        assert(s[0] == e);
    } else {
        lemma_entries_contain_from(mask, table, reserved, beyond, i, j + 1);
        let rest = decode_entries_from(mask, table, reserved, beyond, j + 1);
        let k = choose|k: int| 0 <= k < rest.len() && rest[k] == e;
        let s = decode_entries_from(mask, table, reserved, beyond, j);
        if emits_at(mask, table.len() as int, beyond, j) {
            assert(s[k + 1] == e);
        } else {
            assert(s[k] == e);
        }
    }
}

/// Reserved-bit law: an active bit whose line index is in the reserved set
/// always contributes the confidential marker to the report, regardless of
/// the table text at that line.
pub proof fn lemma_reserved_bit_confidential(
    mask: u64,
    table: Seq<Seq<char>>,
    reserved: Seq<usize>,
    beyond: bool,
    i: int,
)
    requires
        0 <= i < 64,
        i < table.len(),
        reserved.contains(i as usize),
        bit_active(mask, i),
    ensures
        spec_decode_report(mask, table, reserved, beyond).contains(confidential_entry(i)),
{
    lemma_entries_contain_from(mask, table, reserved, beyond, i, 0);
    assert(entry_at(table, reserved, i) == confidential_entry(i));
}

/// Whether `x` occurs in `v`.
fn contains_index(v: &[usize], x: usize) -> (r: bool)
    ensures
        r == v@.contains(x),
{
    let mut k: usize = 0;
    while k < v.len()
        invariant
            k <= v@.len(),
            forall|j: int| 0 <= j < k ==> v@[j] != x,
        decreases v@.len() - k,
    {
        if v[k] == x {
            return true;
        }
        k += 1;
    }
    false
}

/// The entry for an active, table-described bit at line index `i`.
fn line_entry_of(table: &Vec<String>, reserved_bits: &[usize], i: usize) -> (r: String)
    requires
        i < table@.len(),
        i < 64,
    ensures
        r@ == entry_at(table.deep_view(), reserved_bits@, i as int),
{
    let ghost tv = table.deep_view();
    proof {
        assert(tv[i as int] == table@[i as int]@);
    }
    if contains_index(reserved_bits, i) {
        let mut e = String::from_str("Confidential - report as reserved Bit-");
        e.append(dec_string(i as u64).as_str());
        e
    } else {
        let trimmed = trim_of(table[i].as_str());
        let marker = String::from_str("Reserved");
        if String::from_str(trimmed) == marker {
            let mut e = String::from_str("Reserved Bit-");
            e.append(dec_string(i as u64).as_str());
            e
        } else {
            table[i].clone()
        }
    }
}

/// Decodes `mask` against a description table: one entry per set bit, in
/// decreasing bit-position order, with the reserved and "Reserved"
/// policies of `entry_at`; set bits beyond the table are reported only
/// when `beyond` asks for the fallback; the sentinel stands in for an
/// empty result.
pub fn decode_bitmask(mask: u64, table: &Vec<String>, reserved_bits: &[usize], beyond: bool) -> (r:
    Vec<String>)
    ensures
        r.deep_view() == spec_decode_report(mask, table.deep_view(), reserved_bits@, beyond),
{
    let ghost tv = table.deep_view();
    let ghost rs = reserved_bits@;
    let mut out: Vec<String> = Vec::new();
    let mut i: usize = 0;
    while i < 64
        invariant
            i <= 64,
            tv == table.deep_view(),
            rs == reserved_bits@,
            out.deep_view() + decode_entries_from(mask, tv, rs, beyond, i as int)
                == decode_entries(mask, tv, rs, beyond),
        decreases 64 - i,
    {
        let ghost prev = out.deep_view();
        let bit_pos: u64 = 63 - (i as u64);
        if mask & (1u64 << bit_pos) != 0 {
            proof {
                assert(bit_active(mask, i as int));
            }
            if i < table.len() {
                let e = line_entry_of(table, reserved_bits, i);
                out.push(e);
                proof {
                    assert(out.deep_view() =~= prev.push(entry_at(tv, rs, i as int)));
                }
            } else if beyond {
                let mut e = String::from_str("Bit-");
                e.append(dec_string(i as u64).as_str());
                e.append(" is active");
                out.push(e);
                proof {
                    assert(out.deep_view() =~= prev.push(beyond_entry(i as int)));
                }
            }
        } else {
            proof {
                assert(!bit_active(mask, i as int));
            }
        }
        proof {
            assert(out.deep_view() + decode_entries_from(mask, tv, rs, beyond, i + 1 as int)
                =~= prev + decode_entries_from(mask, tv, rs, beyond, i as int));
        }
        i += 1;
    }
    if out.len() == 0 {
        out.push(String::from_str("no active entries"));
        proof {
            assert(out.deep_view() =~= seq![no_entries_text()]);
        }
    } else {
        proof {
            assert(out.deep_view() =~= decode_entries(mask, tv, rs, beyond));
        }
    }
    out
}

/// Decodes `mask` against the raw content of a description file: the
/// file's lines are the table. As in `decode_bitmask`, the sentinel stands
/// in for an empty result.
pub fn collect_bitmask_with_desc(
    mask: u64,
    desc_content: &str,
    reserved_bits: &[usize],
    beyond: bool,
) -> (r: Vec<String>)
    ensures
        r.deep_view() == spec_decode_report(
            mask,
            spec_split_lines(desc_content@),
            reserved_bits@,
            beyond,
        ),
{
    let table = split_lines(desc_content);
    decode_bitmask(mask, &table, reserved_bits, beyond)
}

} // verus!
