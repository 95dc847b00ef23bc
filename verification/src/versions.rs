//! The version decoder: interprets each set bit of a mask as a supported
//! protocol version rather than a named capability. Bit 0, the least
//! significant, stands for version 0x100; bit b for version (b + 1) * 0x100.

use vstd::prelude::*;

use crate::numbers::spec_hex_chars;
use crate::numbers::hex_string;

verus! {

/// The sentinel reported when no version bit is set.
pub open spec fn no_versions_text() -> Seq<char> {
    "no supported versions"@
}

/// Whether version bit `b` (counted from the least significant end) is set.
pub open spec fn version_bit_set(mask: u64, b: int) -> bool
    recommends
        0 <= b < 64,
{
    mask & (1u64 << (b as u64)) != 0
}

/// The version number encoded by bit `b`.
pub open spec fn spec_version_value(b: int) -> int {
    (b + 1) * 0x100
}

/// The entry emitted for version bit `b`: the version number in
/// hexadecimal.
pub open spec fn version_entry(b: int) -> Seq<char> {
    "version "@ + spec_hex_chars(spec_version_value(b)) + " hex is supported"@
}

/// The version entries for bits `b` to 63, in order of increasing bit
/// position, which is increasing version number.
pub open spec fn version_entries_from(mask: u64, b: int) -> Seq<Seq<char>>
    decreases 64 - b when 0 <= b <= 64
{
    if b >= 64 {
        Seq::empty()
    } else {
        let rest = version_entries_from(mask, b + 1);
        if version_bit_set(mask, b) {
            seq![version_entry(b)] + rest
        } else {
            rest
        }
    }
}

/// The decoded version report: one entry per set bit in increasing version
/// order, or the sentinel alone when no bit is set.
pub open spec fn spec_collect_version_mask(mask: u64) -> Seq<Seq<char>> {
    let es = version_entries_from(mask, 0);
    if es.len() == 0 {
        seq![no_versions_text()]
    } else {
        es
    }
}

/// Decodes a version mask: one "version N hex is supported" entry per set
/// bit, version numbers ascending, or "no supported versions" when the
/// mask is zero.
pub fn collect_version_mask(mask: u64) -> (r: Vec<String>)
    ensures
        r.deep_view() == spec_collect_version_mask(mask),
{
    let mut out: Vec<String> = Vec::new();
    let mut b: usize = 0;
    while b < 64
        invariant
            b <= 64,
            out.deep_view() + version_entries_from(mask, b as int) == version_entries_from(
                mask,
                0,
            ),
        decreases 64 - b,
    {
        let ghost prev = out.deep_view();
        if mask & (1u64 << (b as u64)) != 0 {
            let version: u64 = (b as u64 + 1) * 0x100;
            let mut e = String::from_str("version ");
            e.append(hex_string(version).as_str());
            e.append(" hex is supported");
            out.push(e);
            proof {
                assert(out.deep_view() =~= prev.push(version_entry(b as int)));
            }
        }
        proof {
            assert(out.deep_view() + version_entries_from(mask, b + 1 as int) =~= prev
                + version_entries_from(mask, b as int));
        }
        b += 1;
    }
    if out.len() == 0 {
        out.push(String::from_str("no supported versions"));
        proof {
            assert(out.deep_view() =~= seq![no_versions_text()]);
        }
    } else {
        proof {
            assert(out.deep_view() =~= version_entries_from(mask, 0));
        }
    }
    out
}

proof fn lemma_version_contain_from(mask: u64, b: int, j: int)
    requires
        0 <= j <= b < 64,
        version_bit_set(mask, b),
    ensures
        version_entries_from(mask, j).contains(version_entry(b)),
    decreases b - j,
{
    let e = version_entry(b);
    if j == b {
        let s = version_entries_from(mask, b);
        assert(s[0] == e);
    } else {
        lemma_version_contain_from(mask, b, j + 1);
        let rest = version_entries_from(mask, j + 1);
        let k = choose|k: int| 0 <= k < rest.len() && rest[k] == e;
        let s = version_entries_from(mask, j);
        if version_bit_set(mask, j) {
            assert(s[k + 1] == e);
        } else {
            assert(s[k] == e);
        }
    }
}

/// Version law: bit `b` always encodes version (b + 1) * 256 — bit 0 maps
/// to 0x100 and bit 63 to 0x4000 — and every set bit contributes its entry
/// to the report.
pub proof fn lemma_version_values(mask: u64)
    ensures
        spec_version_value(0) == 0x100,
        spec_version_value(63) == 0x4000,
        forall|b: int| spec_version_value(b) == (b + 1) * 256,
        forall|b: int|
            0 <= b < 64 && version_bit_set(mask, b) ==> spec_collect_version_mask(mask).contains(
                version_entry(b),
            ),
{
    assert forall|b: int| 0 <= b < 64 && version_bit_set(mask, b) implies spec_collect_version_mask(
        mask,
    ).contains(version_entry(b)) by {
        lemma_version_contain_from(mask, b, 0);
    }
}

} // verus!
