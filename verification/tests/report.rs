use pvinfo::collect_add_secret_flags;
use pvinfo::collect_add_secret_req_versions;
use pvinfo::collect_all;
use pvinfo::collect_attestation_flags;
use pvinfo::collect_attestation_req_versions;
use pvinfo::collect_facilities;
use pvinfo::collect_feature_indications;
use pvinfo::collect_limits;
use pvinfo::collect_plaintext_control_flags;
use pvinfo::collect_se_header_versions;
use pvinfo::collect_se_status;
use pvinfo::collect_secret_types;
use pvinfo::resolve_mode;
use pvinfo::SEMode;
use pvinfo::SourceData;

fn some(s: &str) -> Option<String> {
    Some(s.to_string())
}

fn empty_sources() -> SourceData {
    SourceData {
        prot_virt_guest: None,
        prot_virt_host: None,
        facilities: None,
        facilities_desc: None,
        feature_indications: None,
        feature_indications_desc: None,
        supp_add_secret_pcf: None,
        supp_add_secret_req_ver: None,
        supp_att_req_hdr_ver: None,
        supp_se_hdr_pcf: None,
        supp_se_hdr_pcf_desc: None,
        supp_se_hdr_ver: None,
        supp_att_pflags: None,
        supp_att_pflags_desc: None,
        supp_secret_types: None,
        supp_secret_types_desc: None,
        max_address: None,
        max_assoc_secrets: None,
        max_cpus: None,
        max_guests: None,
        max_retr_secrets: None,
        max_secrets: None,
    }
}

#[test]
fn mode_resolver_covers_all_four_pairs() {
    assert_eq!(resolve_mode(true, false), SEMode::GuestMode);
    assert_eq!(resolve_mode(false, true), SEMode::HostMode);
    assert_eq!(resolve_mode(false, false), SEMode::Disabled);
    assert_eq!(resolve_mode(true, true), SEMode::ConfigurationError);
}

#[test]
fn se_status_guest() {
    let r = collect_se_status(&some("1\n"), &some("0\n"));
    assert_eq!(r, "Secure Execution Guest Mode");
}

#[test]
fn se_status_host() {
    let r = collect_se_status(&some("0\n"), &some("1\n"));
    assert_eq!(r, "Secure Execution Host Mode");
}

#[test]
fn se_status_disabled_when_sources_absent() {
    let r = collect_se_status(&None, &None);
    assert_eq!(r, "Secure Execution is disabled");
}

#[test]
fn se_status_configuration_error() {
    let r = collect_se_status(&some("1"), &some("1"));
    assert_eq!(r, "Configuration error: both Guest and Host enabled");
}

#[test]
fn add_secret_flags_bit_zero_disables_dumping() {
    let r = collect_add_secret_flags(&some("0x1\n"));
    assert_eq!(r, vec!["Disable dumping".to_string()]);
}

#[test]
fn add_secret_flags_zero_mask() {
    let r = collect_add_secret_flags(&some("0x0\n"));
    assert_eq!(r, vec!["no active flags".to_string()]);
}

#[test]
fn add_secret_flags_other_bits_unnamed() {
    let r = collect_add_secret_flags(&some("0x2\n"));
    assert_eq!(r, vec!["no active flags".to_string()]);
}

#[test]
fn add_secret_flags_absent_source() {
    let r = collect_add_secret_flags(&None);
    assert_eq!(r, vec!["no active flags".to_string()]);
}

#[test]
fn facilities_reserves_line_index_10() {
    // Bit 53 is described by line index 10, which is reserved for this
    // category whatever its text says.
    let mask = format!("{:x}\n", 1u64 << 53);
    let desc: String = (0..11)
        .map(|i| format!("facility {}\n", i))
        .collect::<Vec<_>>()
        .join("");
    let r = collect_facilities(&Some(mask), &Some(desc));
    assert_eq!(r, vec!["Confidential - report as reserved Bit-10".to_string()]);
}

#[test]
fn facilities_ordinary_lines_verbatim() {
    let r = collect_facilities(&some("0x8000000000000000"), &some("Create SE guest\n"));
    assert_eq!(r, vec!["Create SE guest".to_string()]);
}

#[test]
fn facilities_absent_mask_source() {
    let r = collect_facilities(&None, &some("Create SE guest\n"));
    assert_eq!(r, vec!["no active entries".to_string()]);
}

#[test]
fn facilities_malformed_mask_source() {
    let r = collect_facilities(&some("not hex\n"), &some("Create SE guest\n"));
    assert_eq!(r, vec!["no active entries".to_string()]);
}

#[test]
fn facilities_absent_description() {
    let r = collect_facilities(&some("0x8000000000000000"), &None);
    assert_eq!(r, vec!["no active entries".to_string()]);
}

#[test]
fn feature_indications_reserve_indices_0_2_3() {
    let mask = format!("{:x}\n", 0xF000000000000000u64);
    let desc = "first\nsecond\nthird\nfourth\n".to_string();
    let r = collect_feature_indications(&Some(mask), &Some(desc));
    assert_eq!(
        r,
        vec![
            "Confidential - report as reserved Bit-0".to_string(),
            "second".to_string(),
            "Confidential - report as reserved Bit-2".to_string(),
            "Confidential - report as reserved Bit-3".to_string()
        ]
    );
}

#[test]
fn secret_types_have_no_reserved_indices() {
    let r = collect_secret_types(&some("0x8000000000000000"), &some("Null secret\n"));
    assert_eq!(r, vec!["Null secret".to_string()]);
}

#[test]
fn add_secret_req_versions_decode() {
    let r = collect_add_secret_req_versions(&some("0x1\n"));
    assert_eq!(r, vec!["version 100 hex is supported".to_string()]);
}

#[test]
fn attestation_req_versions_decode() {
    let r = collect_attestation_req_versions(&some("0x3\n"));
    assert_eq!(
        r,
        vec![
            "version 100 hex is supported".to_string(),
            "version 200 hex is supported".to_string()
        ]
    );
}

#[test]
fn se_header_versions_absent_source() {
    let r = collect_se_header_versions(&None);
    assert_eq!(r, vec!["no supported versions".to_string()]);
}

#[test]
fn plaintext_control_flags_decode() {
    let r = collect_plaintext_control_flags(
        &some("0xc000000000000000\n"),
        &some("PCKMO encrypt DEA\nPCKMO encrypt TDEA\n"),
    );
    assert_eq!(
        r,
        vec![
            "PCKMO encrypt DEA".to_string(),
            "PCKMO encrypt TDEA".to_string()
        ]
    );
}

#[test]
fn attestation_flags_reserved_text_line() {
    let r = collect_attestation_flags(&some("0x4000000000000000\n"), &some("phkh\nReserved\n"));
    assert_eq!(r, vec!["Reserved Bit-1".to_string()]);
}

#[test]
fn limits_all_present() {
    let l = collect_limits(
        &some("1\n"),
        &some("2\n"),
        &some("3\n"),
        &some("4\n"),
        &some("5\n"),
        &some("6\n"),
    );
    assert_eq!(l.maximal_address, 1);
    assert_eq!(l.maximal_number_of_associated_secrets, 2);
    assert_eq!(l.maximal_number_of_cpus, 3);
    assert_eq!(l.maximal_number_of_se_guests, 4);
    assert_eq!(l.maximal_number_of_retrievable_secrets, 5);
    assert_eq!(l.maximal_number_of_secrets, 6);
}

#[test]
fn limits_one_absent_source_zeros_only_its_field() {
    let l = collect_limits(
        &some("1\n"),
        &None,
        &some("3\n"),
        &some("4\n"),
        &some("5\n"),
        &some("6\n"),
    );
    assert_eq!(l.maximal_address, 1);
    assert_eq!(l.maximal_number_of_associated_secrets, 0);
    assert_eq!(l.maximal_number_of_cpus, 3);
    assert_eq!(l.maximal_number_of_se_guests, 4);
    assert_eq!(l.maximal_number_of_retrievable_secrets, 5);
    assert_eq!(l.maximal_number_of_secrets, 6);
}

#[test]
fn limits_each_field_tracks_its_own_source() {
    let sources = ["10", "20", "30", "40", "50", "60"];
    for absent in 0..6 {
        let opt = |k: usize| {
            if k == absent {
                None
            } else {
                Some(sources[k].to_string())
            }
        };
        let l = collect_limits(&opt(0), &opt(1), &opt(2), &opt(3), &opt(4), &opt(5));
        let got = [
            l.maximal_address,
            l.maximal_number_of_associated_secrets,
            l.maximal_number_of_cpus,
            l.maximal_number_of_se_guests,
            l.maximal_number_of_retrievable_secrets,
            l.maximal_number_of_secrets,
        ];
        for k in 0..6 {
            if k == absent {
                assert_eq!(got[k], 0);
            } else {
                assert_eq!(got[k], (k as u64 + 1) * 10);
            }
        }
    }
}

#[test]
fn limits_malformed_source_reads_as_zero() {
    let l = collect_limits(
        &some("bogus\n"),
        &some("2\n"),
        &some("3\n"),
        &some("4\n"),
        &some("5\n"),
        &some("6\n"),
    );
    assert_eq!(l.maximal_address, 0);
    assert_eq!(l.maximal_number_of_associated_secrets, 2);
}

#[test]
fn aggregate_report_with_no_sources() {
    let info = collect_all(&empty_sources());
    assert_eq!(info.se_status, vec!["Secure Execution is disabled".to_string()]);
    assert_eq!(info.facilities, vec!["no active entries".to_string()]);
    assert_eq!(info.feature_indications, vec!["no active entries".to_string()]);
    assert_eq!(
        info.supported_plaintext_add_secret_flags,
        vec!["no active flags".to_string()]
    );
    assert_eq!(
        info.supported_add_secret_request_versions,
        vec!["no supported versions".to_string()]
    );
    assert_eq!(
        info.supported_attestation_request_versions,
        vec!["no supported versions".to_string()]
    );
    assert_eq!(
        info.supported_plaintext_control_flags,
        vec!["no active entries".to_string()]
    );
    assert_eq!(
        info.supported_se_header_versions,
        vec!["no supported versions".to_string()]
    );
    assert_eq!(
        info.supported_plaintext_attestation_flags,
        vec!["no active entries".to_string()]
    );
    assert_eq!(info.supported_secret_types, vec!["no active entries".to_string()]);
    assert_eq!(info.limits.maximal_address, 0);
    assert_eq!(info.limits.maximal_number_of_secrets, 0);
}

#[test]
fn aggregate_report_with_mixed_sources() {
    let mut src = empty_sources();
    src.prot_virt_host = some("1\n");
    src.facilities = some("0xc000000000000000\n");
    src.facilities_desc = some("Call one\nCall two\n");
    src.supp_se_hdr_ver = some("0x100\n");
    src.max_cpus = some("248\n");
    let info = collect_all(&src);
    assert_eq!(info.se_status, vec!["Secure Execution Host Mode".to_string()]);
    assert_eq!(
        info.facilities,
        vec!["Call one".to_string(), "Call two".to_string()]
    );
    assert_eq!(info.feature_indications, vec!["no active entries".to_string()]);
    assert_eq!(
        info.supported_se_header_versions,
        vec!["version 900 hex is supported".to_string()]
    );
    assert_eq!(info.limits.maximal_number_of_cpus, 248);
    assert_eq!(info.limits.maximal_address, 0);
}
