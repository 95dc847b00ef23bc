//! The report assembler: one collector per category, each a pure function
//! of the raw content of its source files, and `collect_all`, which builds
//! the aggregate record. An absent or unparsable source degrades its own
//! category to the sentinel or to zero and never aborts the report.
//!
//! Per-category policy: no category reports set bits beyond its
//! description table, and the reserved line indices are 10 for the
//! facilities table and 0, 2 and 3 for the feature-indications table.

use vstd::prelude::*;

use crate::decode::no_entries_text;
use crate::decode::spec_decode_report;
use crate::decode::collect_bitmask_with_desc;
use crate::mode::spec_collect_se_status;
use crate::mode::collect_se_status;
use crate::readers::spec_opt_hex_mask;
use crate::readers::spec_opt_integer;
use crate::readers::read_hex_mask;
use crate::readers::read_integer;
use crate::text::spec_split_lines;
use crate::versions::no_versions_text;
use crate::versions::spec_collect_version_mask;
use crate::versions::collect_version_mask;

verus! {

/// The six limit counters. Each is independently optional at the source:
/// an absent or unparsable counter file reads as 0.
#[derive(Clone, Copy, Debug, PartialEq, Eq, Structural)]
pub struct Limits {
    pub maximal_address: u64,
    pub maximal_number_of_associated_secrets: u64,
    pub maximal_number_of_cpus: u64,
    pub maximal_number_of_se_guests: u64,
    pub maximal_number_of_retrievable_secrets: u64,
    pub maximal_number_of_secrets: u64,
}

/// The aggregate report: the status line, every decoded category, and the
/// limits.
#[derive(Clone, Debug)]
pub struct PvInfo {
    pub se_status: Vec<String>,
    pub facilities: Vec<String>,
    pub feature_indications: Vec<String>,
    pub supported_plaintext_add_secret_flags: Vec<String>,
    pub supported_add_secret_request_versions: Vec<String>,
    pub supported_attestation_request_versions: Vec<String>,
    pub supported_plaintext_control_flags: Vec<String>,
    pub supported_se_header_versions: Vec<String>,
    pub supported_plaintext_attestation_flags: Vec<String>,
    pub supported_secret_types: Vec<String>,
    pub limits: Limits,
}

/// The raw content of every source file of one invocation, each `None`
/// where the file is absent or unreadable. Mask and counter files come
/// from the live query directory; description files ship with the tool.
pub struct SourceData {
    pub prot_virt_guest: Option<String>,
    pub prot_virt_host: Option<String>,
    pub facilities: Option<String>,
    pub facilities_desc: Option<String>,
    pub feature_indications: Option<String>,
    pub feature_indications_desc: Option<String>,
    pub supp_add_secret_pcf: Option<String>,
    pub supp_add_secret_req_ver: Option<String>,
    pub supp_att_req_hdr_ver: Option<String>,
    pub supp_se_hdr_pcf: Option<String>,
    pub supp_se_hdr_pcf_desc: Option<String>,
    pub supp_se_hdr_ver: Option<String>,
    pub supp_att_pflags: Option<String>,
    pub supp_att_pflags_desc: Option<String>,
    pub supp_secret_types: Option<String>,
    pub supp_secret_types_desc: Option<String>,
    pub max_address: Option<String>,
    pub max_assoc_secrets: Option<String>,
    pub max_cpus: Option<String>,
    pub max_guests: Option<String>,
    pub max_retr_secrets: Option<String>,
    pub max_secrets: Option<String>,
}

/// The content of an optional description source; absent reads as empty,
/// which makes an empty table.
pub open spec fn desc_or_empty(o: Option<Seq<char>>) -> Seq<char> {
    match o {
        Some(s) => s,
        None => Seq::empty(),
    }
}

/// The report of a mask-plus-description category: the mask source read as
/// hexadecimal and decoded against the description's lines, or the
/// sentinel when the mask source yields no value.
pub open spec fn spec_masked_desc_report(
    mask_src: Option<Seq<char>>,
    desc_src: Option<Seq<char>>,
    reserved: Seq<usize>,
) -> Seq<Seq<char>> {
    match spec_opt_hex_mask(mask_src) {
        Some(m) => spec_decode_report(m, spec_split_lines(desc_or_empty(desc_src)), reserved, false),
        None => seq![no_entries_text()],
    }
}

fn masked_desc_report(
    mask_src: &Option<String>,
    desc_src: &Option<String>,
    reserved_bits: &[usize],
) -> (r: Vec<String>)
    ensures
        r.deep_view() == spec_masked_desc_report(
            mask_src.deep_view(),
            desc_src.deep_view(),
            reserved_bits@,
        ),
{
    let mask = match mask_src {
        Some(c) => read_hex_mask(c.as_str()),
        None => None,
    };
    match mask {
        Some(m) => {
            match desc_src {
                Some(d) => collect_bitmask_with_desc(m, d.as_str(), reserved_bits, false),
                None => {
                    proof {
                        reveal_strlit("");
                        assert(""@ =~= Seq::<char>::empty());
                    }
                    collect_bitmask_with_desc(m, "", reserved_bits, false)
                },
            }
        },
        None => {
            let mut out: Vec<String> = Vec::new();
            out.push(String::from_str("no active entries"));
            proof {
                assert(out.deep_view() =~= seq![no_entries_text()]);
            }
            out
        },
    }
}

/// The reserved line indices of the facilities table.
pub open spec fn facilities_reserved() -> Seq<usize> {
    seq![10usize]
}

/// The facilities category: installed calls, reserved line index 10.
pub open spec fn spec_collect_facilities(
    mask_src: Option<Seq<char>>,
    desc_src: Option<Seq<char>>,
) -> Seq<Seq<char>> {
    spec_masked_desc_report(mask_src, desc_src, facilities_reserved())
}

/// Decodes the facilities mask against the facilities description table.
pub fn collect_facilities(mask_src: &Option<String>, desc_src: &Option<String>) -> (r: Vec<String>)
    ensures
        r.deep_view() == spec_collect_facilities(mask_src.deep_view(), desc_src.deep_view()),
{
    let mut rs: Vec<usize> = Vec::new();
    rs.push(10);
    proof {
        assert(rs@ =~= facilities_reserved());
    }
    masked_desc_report(mask_src, desc_src, rs.as_slice())
}

/// The reserved line indices of the feature-indications table.
pub open spec fn feature_indications_reserved() -> Seq<usize> {
    seq![0usize, 2usize, 3usize]
}

/// The feature-indications category: reserved line indices 0, 2 and 3.
pub open spec fn spec_collect_feature_indications(
    mask_src: Option<Seq<char>>,
    desc_src: Option<Seq<char>>,
) -> Seq<Seq<char>> {
    spec_masked_desc_report(mask_src, desc_src, feature_indications_reserved())
}

/// Decodes the feature-indications mask against its description table.
pub fn collect_feature_indications(mask_src: &Option<String>, desc_src: &Option<String>) -> (r:
    Vec<String>)
    ensures
        r.deep_view() == spec_collect_feature_indications(
            mask_src.deep_view(),
            desc_src.deep_view(),
        ),
{
    let mut rs: Vec<usize> = Vec::new();
    rs.push(0);
    rs.push(2);
    rs.push(3);
    proof {
        assert(rs@ =~= feature_indications_reserved());
    }
    masked_desc_report(mask_src, desc_src, rs.as_slice())
}

/// The plaintext-control-flags category: no reserved indices.
pub open spec fn spec_collect_plaintext_control_flags(
    mask_src: Option<Seq<char>>,
    desc_src: Option<Seq<char>>,
) -> Seq<Seq<char>> {
    spec_masked_desc_report(mask_src, desc_src, Seq::empty())
}

/// Decodes the plaintext-control-flags mask against its description table.
pub fn collect_plaintext_control_flags(
    mask_src: &Option<String>,
    desc_src: &Option<String>,
) -> (r: Vec<String>)
    ensures
        r.deep_view() == spec_collect_plaintext_control_flags(
            mask_src.deep_view(),
            desc_src.deep_view(),
        ),
{
    let rs: Vec<usize> = Vec::new();
    proof {
        assert(rs@ =~= Seq::<usize>::empty());
    }
    masked_desc_report(mask_src, desc_src, rs.as_slice())
}

/// The attestation-flags category: no reserved indices.
pub open spec fn spec_collect_attestation_flags(
    mask_src: Option<Seq<char>>,
    desc_src: Option<Seq<char>>,
) -> Seq<Seq<char>> {
    spec_masked_desc_report(mask_src, desc_src, Seq::empty())
}

/// Decodes the plaintext-attestation-flags mask against its description
/// table.
pub fn collect_attestation_flags(mask_src: &Option<String>, desc_src: &Option<String>) -> (r:
    Vec<String>)
    ensures
        r.deep_view() == spec_collect_attestation_flags(mask_src.deep_view(), desc_src.deep_view()),
{
    let rs: Vec<usize> = Vec::new();
    proof {
        assert(rs@ =~= Seq::<usize>::empty());
    }
    masked_desc_report(mask_src, desc_src, rs.as_slice())
}

/// The secret-types category: no reserved indices.
pub open spec fn spec_collect_secret_types(
    mask_src: Option<Seq<char>>,
    desc_src: Option<Seq<char>>,
) -> Seq<Seq<char>> {
    spec_masked_desc_report(mask_src, desc_src, Seq::empty())
}

/// Decodes the supported-secret-types mask against its description table.
pub fn collect_secret_types(mask_src: &Option<String>, desc_src: &Option<String>) -> (r:
    Vec<String>)
    ensures
        r.deep_view() == spec_collect_secret_types(mask_src.deep_view(), desc_src.deep_view()),
{
    let rs: Vec<usize> = Vec::new();
    proof {
        assert(rs@ =~= Seq::<usize>::empty());
    }
    masked_desc_report(mask_src, desc_src, rs.as_slice())
}

/// The sentinel of the add-secret-flags category.
pub open spec fn no_flags_text() -> Seq<char> {
    "no active flags"@
}

/// The add-secret-flags category: bit 0 of the mask means "Disable
/// dumping"; no other bit is named, and a mask without bit 0, like an
/// absent source, reports the sentinel.
pub open spec fn spec_collect_add_secret_flags(mask_src: Option<Seq<char>>) -> Seq<Seq<char>> {
    match spec_opt_hex_mask(mask_src) {
        Some(m) => if m & 1 != 0 {
            seq!["Disable dumping"@]
        } else {
            seq![no_flags_text()]
        },
        None => seq![no_flags_text()],
    }
}

/// Reports the plaintext add-secret flags: "Disable dumping" when bit 0 of
/// the mask is set, the sentinel otherwise.
pub fn collect_add_secret_flags(mask_src: &Option<String>) -> (r: Vec<String>)
    ensures
        r.deep_view() == spec_collect_add_secret_flags(mask_src.deep_view()),
{
    let mask = match mask_src {
        Some(c) => read_hex_mask(c.as_str()),
        None => None,
    };
    let mut out: Vec<String> = Vec::new();
    match mask {
        Some(m) => {
            if m & 1 != 0 {
                out.push(String::from_str("Disable dumping"));
                proof {
                    assert(out.deep_view() =~= seq!["Disable dumping"@]);
                }
            } else {
                out.push(String::from_str("no active flags"));
                proof {
                    assert(out.deep_view() =~= seq![no_flags_text()]);
                }
            }
        },
        None => {
            out.push(String::from_str("no active flags"));
            proof {
                assert(out.deep_view() =~= seq![no_flags_text()]);
            }
        },
    }
    out
}

/// The report of a version-mask category: the mask source read as
/// hexadecimal and decoded as a version mask, or the sentinel when it
/// yields no value.
pub open spec fn spec_masked_version_report(mask_src: Option<Seq<char>>) -> Seq<Seq<char>> {
    match spec_opt_hex_mask(mask_src) {
        Some(m) => spec_collect_version_mask(m),
        None => seq![no_versions_text()],
    }
}

fn masked_version_report(mask_src: &Option<String>) -> (r: Vec<String>)
    ensures
        r.deep_view() == spec_masked_version_report(mask_src.deep_view()),
{
    let mask = match mask_src {
        Some(c) => read_hex_mask(c.as_str()),
        None => None,
    };
    match mask {
        Some(m) => collect_version_mask(m),
        None => {
            let mut out: Vec<String> = Vec::new();
            out.push(String::from_str("no supported versions"));
            proof {
                assert(out.deep_view() =~= seq![no_versions_text()]);
            }
            out
        },
    }
}

/// The supported add-secret request versions.
pub open spec fn spec_collect_add_secret_req_versions(
    mask_src: Option<Seq<char>>,
) -> Seq<Seq<char>> {
    spec_masked_version_report(mask_src)
}

/// Reports the supported add-secret request versions.
pub fn collect_add_secret_req_versions(mask_src: &Option<String>) -> (r: Vec<String>)
    ensures
        r.deep_view() == spec_collect_add_secret_req_versions(mask_src.deep_view()),
{
    masked_version_report(mask_src)
}

/// The supported attestation request versions.
pub open spec fn spec_collect_attestation_req_versions(
    mask_src: Option<Seq<char>>,
) -> Seq<Seq<char>> {
    spec_masked_version_report(mask_src)
}

/// Reports the supported attestation request versions.
pub fn collect_attestation_req_versions(mask_src: &Option<String>) -> (r: Vec<String>)
    ensures
        r.deep_view() == spec_collect_attestation_req_versions(mask_src.deep_view()),
{
    masked_version_report(mask_src)
}

/// The supported SE header versions.
pub open spec fn spec_collect_se_header_versions(mask_src: Option<Seq<char>>) -> Seq<Seq<char>> {
    spec_masked_version_report(mask_src)
}

/// Reports the supported SE header versions.
pub fn collect_se_header_versions(mask_src: &Option<String>) -> (r: Vec<String>)
    ensures
        r.deep_view() == spec_collect_se_header_versions(mask_src.deep_view()),
{
    masked_version_report(mask_src)
}

/// The value of one limit counter: the source read as decimal, absent or
/// unparsable reading as 0.
pub open spec fn spec_limit_of(src: Option<Seq<char>>) -> u64 {
    match spec_opt_integer(src) {
        Some(v) => v,
        None => 0,
    }
}

fn limit_of(src: &Option<String>) -> (r: u64)
    ensures
        r == spec_limit_of(src.deep_view()),
{
    let v = match src {
        Some(c) => read_integer(c.as_str()),
        None => None,
    };
    match v {
        Some(v) => v,
        None => 0,
    }
}

/// The limits record: each field from its own source alone.
pub open spec fn spec_collect_limits(
    address_src: Option<Seq<char>>,
    assoc_secrets_src: Option<Seq<char>>,
    cpus_src: Option<Seq<char>>,
    guests_src: Option<Seq<char>>,
    retr_secrets_src: Option<Seq<char>>,
    secrets_src: Option<Seq<char>>,
) -> Limits {
    Limits {
        maximal_address: spec_limit_of(address_src),
        maximal_number_of_associated_secrets: spec_limit_of(assoc_secrets_src),
        maximal_number_of_cpus: spec_limit_of(cpus_src),
        maximal_number_of_se_guests: spec_limit_of(guests_src),
        maximal_number_of_retrievable_secrets: spec_limit_of(retr_secrets_src),
        maximal_number_of_secrets: spec_limit_of(secrets_src),
    }
}

/// Collects the six limit counters, each from the raw content of its own
/// source file; an absent or unparsable counter reads as 0 and leaves the
/// other five untouched.
pub fn collect_limits(
    address_src: &Option<String>,
    assoc_secrets_src: &Option<String>,
    cpus_src: &Option<String>,
    guests_src: &Option<String>,
    retr_secrets_src: &Option<String>,
    secrets_src: &Option<String>,
) -> (r: Limits)
    ensures
        r == spec_collect_limits(
            address_src.deep_view(),
            assoc_secrets_src.deep_view(),
            cpus_src.deep_view(),
            guests_src.deep_view(),
            retr_secrets_src.deep_view(),
            secrets_src.deep_view(),
        ),
{
    Limits {
        maximal_address: limit_of(address_src),
        maximal_number_of_associated_secrets: limit_of(assoc_secrets_src),
        maximal_number_of_cpus: limit_of(cpus_src),
        maximal_number_of_se_guests: limit_of(guests_src),
        maximal_number_of_retrievable_secrets: limit_of(retr_secrets_src),
        maximal_number_of_secrets: limit_of(secrets_src),
    }
}

/// Limits-independence law: every limit field is a function of its own
/// source alone — the other five sources do not enter it — and an absent
/// source yields 0 for its field.
pub proof fn lemma_limits_independence(
    address_src: Option<Seq<char>>,
    assoc_secrets_src: Option<Seq<char>>,
    cpus_src: Option<Seq<char>>,
    guests_src: Option<Seq<char>>,
    retr_secrets_src: Option<Seq<char>>,
    secrets_src: Option<Seq<char>>,
)
    ensures
        spec_collect_limits(
            address_src,
            assoc_secrets_src,
            cpus_src,
            guests_src,
            retr_secrets_src,
            secrets_src,
        ) == (Limits {
            maximal_address: spec_limit_of(address_src),
            maximal_number_of_associated_secrets: spec_limit_of(assoc_secrets_src),
            maximal_number_of_cpus: spec_limit_of(cpus_src),
            maximal_number_of_se_guests: spec_limit_of(guests_src),
            maximal_number_of_retrievable_secrets: spec_limit_of(retr_secrets_src),
            maximal_number_of_secrets: spec_limit_of(secrets_src),
        }),
        (spec_limit_of(None::<Seq<char>>) == 0),
{
}

/// Builds the aggregate report from the raw content of every source:
/// status line, the ten decoded categories, and the limits. Any absent
/// subset of the sources degrades only its own categories.
pub fn collect_all(src: &SourceData) -> (r: PvInfo)
    ensures
        r.se_status.deep_view() == seq![
            spec_collect_se_status(
                src.prot_virt_guest.deep_view(),
                src.prot_virt_host.deep_view(),
            ),
        ],
        r.facilities.deep_view() == spec_collect_facilities(
            src.facilities.deep_view(),
            src.facilities_desc.deep_view(),
        ),
        r.feature_indications.deep_view() == spec_collect_feature_indications(
            src.feature_indications.deep_view(),
            src.feature_indications_desc.deep_view(),
        ),
        r.supported_plaintext_add_secret_flags.deep_view() == spec_collect_add_secret_flags(
            src.supp_add_secret_pcf.deep_view(),
        ),
        r.supported_add_secret_request_versions.deep_view() == spec_collect_add_secret_req_versions(
            src.supp_add_secret_req_ver.deep_view(),
        ),
        r.supported_attestation_request_versions.deep_view()
            == spec_collect_attestation_req_versions(src.supp_att_req_hdr_ver.deep_view()),
        r.supported_plaintext_control_flags.deep_view() == spec_collect_plaintext_control_flags(
            src.supp_se_hdr_pcf.deep_view(),
            src.supp_se_hdr_pcf_desc.deep_view(),
        ),
        r.supported_se_header_versions.deep_view() == spec_collect_se_header_versions(
            src.supp_se_hdr_ver.deep_view(),
        ),
        r.supported_plaintext_attestation_flags.deep_view() == spec_collect_attestation_flags(
            src.supp_att_pflags.deep_view(),
            src.supp_att_pflags_desc.deep_view(),
        ),
        r.supported_secret_types.deep_view() == spec_collect_secret_types(
            src.supp_secret_types.deep_view(),
            src.supp_secret_types_desc.deep_view(),
        ),
        r.limits == spec_collect_limits(
            src.max_address.deep_view(),
            src.max_assoc_secrets.deep_view(),
            src.max_cpus.deep_view(),
            src.max_guests.deep_view(),
            src.max_retr_secrets.deep_view(),
            src.max_secrets.deep_view(),
        ),
{
    let status = collect_se_status(&src.prot_virt_guest, &src.prot_virt_host);
    let mut status_list: Vec<String> = Vec::new();
    status_list.push(status);
    proof {
        assert(status_list.deep_view() =~= seq![
            spec_collect_se_status(
                src.prot_virt_guest.deep_view(),
                src.prot_virt_host.deep_view(),
            ),
        ]);
    }
    PvInfo {
        se_status: status_list,
        facilities: collect_facilities(&src.facilities, &src.facilities_desc),
        feature_indications: collect_feature_indications(
            &src.feature_indications,
            &src.feature_indications_desc,
        ),
        supported_plaintext_add_secret_flags: collect_add_secret_flags(&src.supp_add_secret_pcf),
        supported_add_secret_request_versions: collect_add_secret_req_versions(
            &src.supp_add_secret_req_ver,
        ),
        supported_attestation_request_versions: collect_attestation_req_versions(
            &src.supp_att_req_hdr_ver,
        ),
        supported_plaintext_control_flags: collect_plaintext_control_flags(
            &src.supp_se_hdr_pcf,
            &src.supp_se_hdr_pcf_desc,
        ),
        supported_se_header_versions: collect_se_header_versions(&src.supp_se_hdr_ver),
        supported_plaintext_attestation_flags: collect_attestation_flags(
            &src.supp_att_pflags,
            &src.supp_att_pflags_desc,
        ),
        supported_secret_types: collect_secret_types(
            &src.supp_secret_types,
            &src.supp_secret_types_desc,
        ),
        limits: collect_limits(
            &src.max_address,
            &src.max_assoc_secrets,
            &src.max_cpus,
            &src.max_guests,
            &src.max_retr_secrets,
            &src.max_secrets,
        ),
    }
}

} // verus!
