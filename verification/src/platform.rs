//! The platform probe: static descriptive strings chosen by build target.
//!
//! The target is resolved once, at startup, into a tagged variant; every
//! descriptor is then a total function of that variant, so the whole mapping
//! is testable in a single build.

use vstd::prelude::*;
use vstd::string::StringExecFns;
use crate::text::{join_with, seq_views, spec_join};

verus! {

/// The build targets the probe distinguishes; anything else reports the
/// fallback descriptors.
#[derive(Clone, Copy, Debug, PartialEq, Eq, Structural)]
pub enum Target {
    Windows,
    MacOs,
    Linux,
    Wasm,
    Android,
    Ios,
    Other,
}

/// The platform's display name.
pub open spec fn spec_platform_name(t: Target) -> Seq<char> {
    match t {
        Target::Windows => "Windows"@,
        Target::MacOs => "macOS"@,
        Target::Linux => "Linux"@,
        Target::Wasm => "WebAssembly"@,
        Target::Android => "Android"@,
        Target::Ios => "iOS"@,
        Target::Other => "Unknown"@,
    }
}

/// The windowing backend's name; targets without a dedicated backend report
/// the default one.
pub open spec fn spec_backend_name(t: Target) -> Seq<char> {
    match t {
        Target::Windows => "Win32"@,
        Target::MacOs => "Cocoa"@,
        Target::Linux => "X11/Wayland"@,
        Target::Wasm => "WebGL"@,
        Target::Android => "Default"@,
        Target::Ios => "Default"@,
        Target::Other => "Default"@,
    }
}

/// The feature list: the common features, then the browser ones on the web
/// target and the desktop ones everywhere else.
pub open spec fn spec_features(t: Target) -> Seq<Seq<char>> {
    seq!["Basic UI"@, "Animations"@, "Theming"@] + if t is Wasm {
        seq!["Web integration"@, "Browser storage"@]
    } else {
        seq!["File dialogs"@, "System tray"@, "Multiple windows"@]
    }
}

/// The platform's display name.
pub fn platform_name(t: Target) -> (r: &'static str)
    ensures
        r@ == spec_platform_name(t),
{
    match t {
        Target::Windows => "Windows",
        Target::MacOs => "macOS",
        Target::Linux => "Linux",
        Target::Wasm => "WebAssembly",
        Target::Android => "Android",
        Target::Ios => "iOS",
        Target::Other => "Unknown",
    }
}

/// The windowing backend's name.
pub fn backend_name(t: Target) -> (r: &'static str)
    ensures
        r@ == spec_backend_name(t),
{
    match t {
        Target::Windows => "Win32",
        Target::MacOs => "Cocoa",
        Target::Linux => "X11/Wayland",
        Target::Wasm => "WebGL",
        Target::Android => "Default",
        Target::Ios => "Default",
        Target::Other => "Default",
    }
}

/// The features available on the target, in display order.
pub fn available_features(t: Target) -> (r: Vec<&'static str>)
    ensures
        seq_views(r@) == spec_features(t),
{
    let mut v: Vec<&'static str> = Vec::new();
    v.push("Basic UI");
    v.push("Animations");
    v.push("Theming");
    match t {
        Target::Wasm => {
            v.push("Web integration");
            v.push("Browser storage");
        },
        _ => {
            v.push("File dialogs");
            v.push("System tray");
            v.push("Multiple windows");
        },
    }
    proof {
        assert(seq_views(v@) =~= spec_features(t));
    }
    v
}

/// The three-line platform report the UI shows: platform, backend, and the
/// feature list joined with commas.
pub open spec fn spec_platform_report(t: Target) -> Seq<char> {
    "Platform: "@ + spec_platform_name(t) + "\nBackend: "@ + spec_backend_name(t)
        + "\nFeatures: "@ + spec_join(spec_features(t), ", "@)
}

/// Builds the platform report shown by the platform-info handler.
pub fn platform_report(t: Target) -> (r: String)
    ensures
        r@ == spec_platform_report(t),
{
    let mut s = String::from_str("Platform: ");
    s.append(platform_name(t));
    s.append("\nBackend: ");
    s.append(backend_name(t));
    s.append("\nFeatures: ");
    let features = available_features(t);
    let joined = join_with(&features, ", ");
    s.append(joined.as_str());
    proof {
        assert(s@ =~= spec_platform_report(t));
    }
    s
}

/// The feature-test report: one line per probe, newline separated.  The
/// threading and file-system lines depend on whether the build runs in a
/// browser.
pub open spec fn spec_test_report(t: Target) -> Seq<char> {
    "Window operations: OK\n"@ + if t is Wasm {
        "Threading: Limited\nFile system: Browser storage\n"@
    } else {
        "Threading: Available\nFile system: Available\n"@
    } + "Graphics: Hardware accelerated"@
}

/// Builds the feature-test report shown by the feature-test handler.
pub fn test_report(t: Target) -> (r: String)
    ensures
        r@ == spec_test_report(t),
{
    let mut s = String::from_str("Window operations: OK\n");
    match t {
        Target::Wasm => s.append("Threading: Limited\nFile system: Browser storage\n"),
        _ => s.append("Threading: Available\nFile system: Available\n"),
    }
    s.append("Graphics: Hardware accelerated");
    proof {
        assert(s@ =~= spec_test_report(t));
    }
    s
}

} // verus!
