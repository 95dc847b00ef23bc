//! The mode resolver: combines the guest and host flags into one of four
//! mutually exclusive Secure-Execution states.

use vstd::prelude::*;

use crate::readers::spec_opt_flag;
use crate::readers::read_flag;

verus! {

/// The Secure-Execution status of the system, derived from the two
/// independent guest/host flags. Both flags set at once is an invariant
/// violation of the firmware interface; it is reported as
/// `ConfigurationError`, not treated as a crash.
#[derive(Clone, Copy, Debug, PartialEq, Eq, Structural)]
pub enum SEMode {
    GuestMode,
    HostMode,
    Disabled,
    ConfigurationError,
}

/// The truth table of the mode resolver.
pub open spec fn spec_resolve_mode(guest: bool, host: bool) -> SEMode {
    if guest && host {
        SEMode::ConfigurationError
    } else if guest {
        SEMode::GuestMode
    } else if host {
        SEMode::HostMode
    } else {
        SEMode::Disabled
    }
}

/// Maps the guest/host flag pair onto the four `SEMode` values:
/// (true, false) is guest, (false, true) is host, (false, false) is
/// disabled, and (true, true) is the reportable configuration error.
pub fn resolve_mode(guest: bool, host: bool) -> (m: SEMode)
    ensures
        m == spec_resolve_mode(guest, host),
{
    if guest && host {
        SEMode::ConfigurationError
    } else if guest {
        SEMode::GuestMode
    } else if host {
        SEMode::HostMode
    } else {
        SEMode::Disabled
    }
}

/// The status line reported for each mode.
pub open spec fn spec_mode_text(m: SEMode) -> Seq<char> {
    match m {
        SEMode::GuestMode => "Secure Execution Guest Mode"@,
        SEMode::HostMode => "Secure Execution Host Mode"@,
        SEMode::Disabled => "Secure Execution is disabled"@,
        SEMode::ConfigurationError => "Configuration error: both Guest and Host enabled"@,
    }
}

/// The status line derived from the raw content of the two flag sources:
/// an absent source reads as a cleared flag.
pub open spec fn spec_collect_se_status(
    guest_src: Option<Seq<char>>,
    host_src: Option<Seq<char>>,
) -> Seq<char> {
    spec_mode_text(spec_resolve_mode(spec_opt_flag(guest_src), spec_opt_flag(host_src)))
}

/// Reads the guest and host flags from their raw file content (absent
/// means cleared) and reports the resolved Secure-Execution status line.
pub fn collect_se_status(guest_src: &Option<String>, host_src: &Option<String>) -> (r: String)
    ensures
        r@ == spec_collect_se_status(guest_src.deep_view(), host_src.deep_view()),
{
    let guest = match guest_src {
        Some(c) => read_flag(c.as_str()),
        None => false,
    };
    let host = match host_src {
        Some(c) => read_flag(c.as_str()),
        None => false,
    };
    match resolve_mode(guest, host) {
        SEMode::GuestMode => String::from_str("Secure Execution Guest Mode"),
        SEMode::HostMode => String::from_str("Secure Execution Host Mode"),
        SEMode::Disabled => String::from_str("Secure Execution is disabled"),
        SEMode::ConfigurationError => String::from_str(
            "Configuration error: both Guest and Host enabled",
        ),
    }
}

/// The mode resolver is total and one-to-one: the four boolean input pairs
/// map onto exactly the four `SEMode` values, each pair to a distinct one.
pub proof fn lemma_mode_totality()
    ensures
        spec_resolve_mode(true, false) == SEMode::GuestMode,
        spec_resolve_mode(false, true) == SEMode::HostMode,
        spec_resolve_mode(false, false) == SEMode::Disabled,
        spec_resolve_mode(true, true) == SEMode::ConfigurationError,
        forall|g1: bool, h1: bool, g2: bool, h2: bool|
            spec_resolve_mode(g1, h1) == spec_resolve_mode(g2, h2) ==> g1 == g2 && h1 == h2,
{
}

} // verus!
