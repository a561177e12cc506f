//! Entry points of the platform-specific capture paths, kept so the
//! public surface is the same on every platform.
//!
//! The captures themselves spawn OS tools and shell interpreters, which
//! the verified core never does; the host layer drives them through the
//! chain in `capture`, with the decisions of `toolcmd`, `winenv`,
//! `artifacts` and `validate`.  Called on the library itself, each entry
//! point reports that the platform-specific path is not taken here.

use vstd::prelude::*;

use crate::errors::CaptureError;

verus! {

/// The error every in-library platform-specific entry point reports.
fn unsupported_text() -> (r: Result<String, CaptureError>)
    ensures
        r matches Err(e) && e is PlatformUnsupported,
{
    Err(CaptureError::PlatformUnsupported)
}

/// The error every in-library platform-specific check reports.
fn unsupported_unit() -> (r: Result<(), CaptureError>)
    ensures
        r matches Err(e) && e is PlatformUnsupported,
{
    Err(CaptureError::PlatformUnsupported)
}

/// Windows environment assessment; the host layer performs the probes.
pub fn check_windows_environment() -> (r: Result<(), CaptureError>)
    ensures
        r matches Err(e) && e is PlatformUnsupported,
{
    unsupported_unit()
}

/// Extraction of the bundled capture utility; the host layer reads and
/// writes the files.
pub fn extract_bundled_nircmd() -> (r: Result<String, CaptureError>)
    ensures
        r matches Err(e) && e is PlatformUnsupported,
{
    unsupported_text()
}

/// Probe for an installed capture utility; the host layer spawns it.
pub fn is_nircmd_available() -> (r: bool)
    ensures
        r == false,
{
    false
}

pub fn take_screenshot_windows_nircmd() -> (r: Result<String, CaptureError>)
    ensures
        r matches Err(e) && e is PlatformUnsupported,
{
    unsupported_text()
}

pub fn take_screenshot_windows_powershell() -> (r: Result<String, CaptureError>)
    ensures
        r matches Err(e) && e is PlatformUnsupported,
{
    unsupported_text()
}

pub fn take_screenshot_windows_win32() -> (r: Result<String, CaptureError>)
    ensures
        r matches Err(e) && e is PlatformUnsupported,
{
    unsupported_text()
}

pub fn take_screenshot_windows_ffmpeg() -> (r: Result<String, CaptureError>)
    ensures
        r matches Err(e) && e is PlatformUnsupported,
{
    unsupported_text()
}

pub fn take_screenshot_windows_vbscript() -> (r: Result<String, CaptureError>)
    ensures
        r matches Err(e) && e is PlatformUnsupported,
{
    unsupported_text()
}

pub fn take_screenshot_windows_csharp() -> (r: Result<String, CaptureError>)
    ensures
        r matches Err(e) && e is PlatformUnsupported,
{
    unsupported_text()
}

pub fn take_screenshot_windows_wmi() -> (r: Result<String, CaptureError>)
    ensures
        r matches Err(e) && e is PlatformUnsupported,
{
    unsupported_text()
}

pub fn take_screenshot_windows_directshow() -> (r: Result<String, CaptureError>)
    ensures
        r matches Err(e) && e is PlatformUnsupported,
{
    unsupported_text()
}

pub fn take_screenshot_windows_memory() -> (r: Result<String, CaptureError>)
    ensures
        r matches Err(e) && e is PlatformUnsupported,
{
    unsupported_text()
}

pub fn test_nircmd_capabilities() -> (r: Result<String, CaptureError>)
    ensures
        r matches Err(e) && e is PlatformUnsupported,
{
    unsupported_text()
}

pub fn test_nircmd_screenshot_simple() -> (r: Result<String, CaptureError>)
    ensures
        r matches Err(e) && e is PlatformUnsupported,
{
    unsupported_text()
}

pub fn test_nircmd_availability() -> (r: bool)
    ensures
        r == false,
{
    false
}

pub fn test_bundled_nircmd_extraction() -> (r: Result<String, CaptureError>)
    ensures
        r matches Err(e) && e is PlatformUnsupported,
{
    unsupported_text()
}

pub fn test_windows_environment_check() -> (r: Result<(), CaptureError>)
    ensures
        r matches Err(e) && e is PlatformUnsupported,
{
    unsupported_unit()
}

pub fn test_windows_method_1_nircmd() -> (r: Result<String, CaptureError>)
    ensures
        r matches Err(e) && e is PlatformUnsupported,
{
    unsupported_text()
}

pub fn test_windows_method_2_powershell() -> (r: Result<String, CaptureError>)
    ensures
        r matches Err(e) && e is PlatformUnsupported,
{
    unsupported_text()
}

pub fn test_windows_method_3_memory() -> (r: Result<String, CaptureError>)
    ensures
        r matches Err(e) && e is PlatformUnsupported,
{
    unsupported_text()
}

pub fn test_windows_method_4_directshow() -> (r: Result<String, CaptureError>)
    ensures
        r matches Err(e) && e is PlatformUnsupported,
{
    unsupported_text()
}

pub fn test_windows_method_5_win32() -> (r: Result<String, CaptureError>)
    ensures
        r matches Err(e) && e is PlatformUnsupported,
{
    unsupported_text()
}

pub fn test_windows_method_6_wmi() -> (r: Result<String, CaptureError>)
    ensures
        r matches Err(e) && e is PlatformUnsupported,
{
    unsupported_text()
}

pub fn test_windows_method_7_ffmpeg() -> (r: Result<String, CaptureError>)
    ensures
        r matches Err(e) && e is PlatformUnsupported,
{
    unsupported_text()
}

pub fn test_windows_method_8_csharp() -> (r: Result<String, CaptureError>)
    ensures
        r matches Err(e) && e is PlatformUnsupported,
{
    unsupported_text()
}

pub fn test_windows_method_9_vbscript() -> (r: Result<String, CaptureError>)
    ensures
        r matches Err(e) && e is PlatformUnsupported,
{
    unsupported_text()
}

/// Linux environment check; the host layer reads the session variables.
pub fn check_linux_environment() -> (r: Result<(), CaptureError>)
    ensures
        r matches Err(e) && e is PlatformUnsupported,
{
    unsupported_unit()
}

/// Linux shell-tool capture; the host layer spawns the tools.
pub fn take_screenshot_linux_fallback() -> (r: Result<String, CaptureError>)
    ensures
        r matches Err(e) && e is PlatformUnsupported,
{
    unsupported_text()
}

pub fn test_linux_environment_check() -> (r: Result<(), CaptureError>)
    ensures
        r matches Err(e) && e is PlatformUnsupported,
{
    unsupported_unit()
}

pub fn test_linux_fallback_methods() -> (r: Result<String, CaptureError>)
    ensures
        r matches Err(e) && e is PlatformUnsupported,
{
    unsupported_text()
}

} // verus!
