//! The operating-system families the library distinguishes, and the few
//! platform-wide decisions that depend only on the family.

use vstd::prelude::*;

verus! {

/// Operating-system family a capture or listener session runs under.
#[derive(Clone, Copy, Debug, PartialEq, Eq, Structural)]
pub enum Platform {
    Windows,
    MacOs,
    Linux,
    Other,
}

/// Name reported for each platform family.
pub open spec fn spec_platform_name(p: Platform) -> Seq<char> {
    match p {
        Platform::Windows => "windows"@,
        Platform::MacOs => "macos"@,
        Platform::Linux => "linux"@,
        Platform::Other => "unknown"@,
    }
}

/// Lower-case name of the platform family.
pub fn platform_name(p: Platform) -> (r: String)
    ensures
        r@ == spec_platform_name(p),
{
    match p {
        Platform::Windows => String::from_str("windows"),
        Platform::MacOs => String::from_str("macos"),
        Platform::Linux => String::from_str("linux"),
        Platform::Other => String::from_str("unknown"),
    }
}

/// Window metadata, process listing, capture and notifications are offered
/// on the three desktop families only.
pub fn platform_supported(p: Platform) -> (r: bool)
    ensures
        r == !(p is Other),
{
    match p {
        Platform::Other => false,
        _ => true,
    }
}

/// Polling interval for the window listener, in milliseconds.  Faster on
/// platforms where querying the active window is cheap.
pub fn polling_interval_ms(p: Platform) -> (r: u64)
    ensures
        p is Windows ==> r == 300,
        p is MacOs ==> r == 500,
        p is Linux || p is Other ==> r == 700,
{
    match p {
        Platform::Windows => 300,
        Platform::MacOs => 500,
        _ => 700,
    }
}

} // verus!
