//! Decoding engine for Secure-Execution (Protected Virtualization) capability
//! reports: bitmask decoding against description tables, version masks,
//! guest/host mode resolution, limit counters, and the aggregate report.

pub mod decode;
pub mod mode;
pub mod numbers;
pub mod readers;
pub mod report;
pub mod text;
pub mod versions;

pub use decode::collect_bitmask_with_desc;
pub use decode::decode_bitmask;
pub use mode::SEMode;
pub use mode::collect_se_status;
pub use mode::resolve_mode;
pub use readers::read_flag;
pub use readers::read_hex_mask;
pub use readers::read_integer;
pub use report::Limits;
pub use report::PvInfo;
pub use report::SourceData;
pub use report::collect_add_secret_flags;
pub use report::collect_add_secret_req_versions;
pub use report::collect_all;
pub use report::collect_attestation_flags;
pub use report::collect_attestation_req_versions;
pub use report::collect_facilities;
pub use report::collect_feature_indications;
pub use report::collect_limits;
pub use report::collect_plaintext_control_flags;
pub use report::collect_se_header_versions;
pub use report::collect_secret_types;
pub use versions::collect_version_mask;
