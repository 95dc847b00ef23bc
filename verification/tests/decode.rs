use pvinfo::collect_bitmask_with_desc;
use pvinfo::collect_version_mask;
use pvinfo::decode_bitmask;

fn table(lines: &[&str]) -> Vec<String> {
    lines.iter().map(|l| l.to_string()).collect()
}

#[test]
fn zero_mask_yields_sentinel() {
    let t = table(&["First", "Second", "Reserved"]);
    let r = decode_bitmask(0, &t, &[1], false);
    assert_eq!(r, vec!["no active entries".to_string()]);
}

#[test]
fn zero_mask_yields_sentinel_with_fallback() {
    let t = table(&["Only line"]);
    let r = decode_bitmask(0, &t, &[], true);
    assert_eq!(r, vec!["no active entries".to_string()]);
}

#[test]
fn msb_with_one_line_reserved_table() {
    // Bit 63 is described by line index 0; the line reads exactly "Reserved".
    let t = table(&["Reserved"]);
    let r = decode_bitmask(0x8000000000000000, &t, &[], false);
    assert_eq!(r, vec!["Reserved Bit-0".to_string()]);
}

#[test]
fn reserved_index_overrides_table_text() {
    let t = table(&["Perfectly ordinary text"]);
    let r = decode_bitmask(0x8000000000000000, &t, &[0], false);
    assert_eq!(r, vec!["Confidential - report as reserved Bit-0".to_string()]);
}

#[test]
fn verbatim_line_is_kept_unchanged() {
    let t = table(&["  Enable feature X  "]);
    let r = decode_bitmask(0x8000000000000000, &t, &[], false);
    assert_eq!(r, vec!["  Enable feature X  ".to_string()]);
}

#[test]
fn reserved_text_check_trims_whitespace() {
    let t = table(&["   Reserved\t"]);
    let r = decode_bitmask(0x8000000000000000, &t, &[], false);
    assert_eq!(r, vec!["Reserved Bit-0".to_string()]);
}

#[test]
fn reserved_text_check_is_exact_equality() {
    // "Reserved for future use" is not exactly "Reserved": verbatim.
    let t = table(&["Reserved for future use"]);
    let r = decode_bitmask(0x8000000000000000, &t, &[], false);
    assert_eq!(r, vec!["Reserved for future use".to_string()]);
}

#[test]
fn lsb_against_full_table_gives_last_line() {
    let lines: Vec<String> = (0..64).map(|i| format!("line number {}", i)).collect();
    let r = decode_bitmask(0x0000000000000001, &lines, &[], false);
    assert_eq!(r, vec!["line number 63".to_string()]);
}

#[test]
fn lsb_against_full_table_reserved_last_index() {
    let lines: Vec<String> = (0..64).map(|i| format!("line number {}", i)).collect();
    let r = decode_bitmask(0x0000000000000001, &lines, &[63], false);
    assert_eq!(r, vec!["Confidential - report as reserved Bit-63".to_string()]);
}

#[test]
fn entries_follow_decreasing_bit_position() {
    // Bits 63, 62 and 60 set: line indices 0, 1 and 3 in that order.
    let t = table(&["top", "second", "third", "fourth"]);
    let mask = (1u64 << 63) | (1u64 << 62) | (1u64 << 60);
    let r = decode_bitmask(mask, &t, &[], false);
    assert_eq!(
        r,
        vec!["top".to_string(), "second".to_string(), "fourth".to_string()]
    );
}

#[test]
fn bits_beyond_table_ignored_without_fallback() {
    let t = table(&["top"]);
    let mask = (1u64 << 63) | (1u64 << 62) | 1u64;
    let r = decode_bitmask(mask, &t, &[], false);
    assert_eq!(r, vec!["top".to_string()]);
}

#[test]
fn bits_beyond_table_reported_with_fallback() {
    let t = table(&["top"]);
    let mask = (1u64 << 63) | (1u64 << 62) | 1u64;
    let r = decode_bitmask(mask, &t, &[], true);
    assert_eq!(
        r,
        vec![
            "top".to_string(),
            "Bit-1 is active".to_string(),
            "Bit-63 is active".to_string()
        ]
    );
}

#[test]
fn reserved_indices_outside_table_are_inert() {
    let t = table(&["top"]);
    let r = decode_bitmask(1u64 << 63, &t, &[5, 700], false);
    assert_eq!(r, vec!["top".to_string()]);
}

#[test]
fn table_lines_beyond_64_are_unreachable() {
    let lines: Vec<String> = (0..70).map(|i| format!("entry {}", i)).collect();
    // Every bit set: only lines 0..64 can appear.
    let r = decode_bitmask(u64::MAX, &lines, &[], false);
    assert_eq!(r.len(), 64);
    assert_eq!(r[0], "entry 0");
    assert_eq!(r[63], "entry 63");
}

#[test]
fn desc_content_split_into_lines() {
    let desc = "alpha\nbeta\ngamma\n";
    let r = collect_bitmask_with_desc(0xE000000000000000, desc, &[], false);
    assert_eq!(
        r,
        vec!["alpha".to_string(), "beta".to_string(), "gamma".to_string()]
    );
}

#[test]
fn desc_content_with_crlf_lines() {
    let desc = "alpha\r\nbeta\r\n";
    let r = collect_bitmask_with_desc(0xC000000000000000, desc, &[], false);
    assert_eq!(r, vec!["alpha".to_string(), "beta".to_string()]);
}

#[test]
fn empty_desc_content_means_empty_table() {
    let r = collect_bitmask_with_desc(u64::MAX, "", &[], false);
    assert_eq!(r, vec!["no active entries".to_string()]);
}

#[test]
fn version_mask_zero_yields_sentinel() {
    let r = collect_version_mask(0);
    assert_eq!(r, vec!["no supported versions".to_string()]);
}

#[test]
fn version_bit_zero_is_version_100() {
    let r = collect_version_mask(1);
    assert_eq!(r, vec!["version 100 hex is supported".to_string()]);
}

#[test]
fn version_bit_63_is_version_4000() {
    let r = collect_version_mask(1u64 << 63);
    assert_eq!(r, vec!["version 4000 hex is supported".to_string()]);
}

#[test]
fn version_entries_ascend_with_bit_position() {
    let r = collect_version_mask(0b11);
    assert_eq!(
        r,
        vec![
            "version 100 hex is supported".to_string(),
            "version 200 hex is supported".to_string()
        ]
    );
}

#[test]
fn version_values_are_hexadecimal_lower_case() {
    // Bit 9 encodes version 10 * 0x100 = 0xa00.
    let r = collect_version_mask(1u64 << 9);
    assert_eq!(r, vec!["version a00 hex is supported".to_string()]);
}
