use ui_glue::platform::{
    available_features, backend_name, platform_name, platform_report, test_report, Target,
};

#[test]
fn platform_names_cover_every_target() {
    assert_eq!(platform_name(Target::Windows), "Windows");
    assert_eq!(platform_name(Target::MacOs), "macOS");
    assert_eq!(platform_name(Target::Linux), "Linux");
    assert_eq!(platform_name(Target::Wasm), "WebAssembly");
    assert_eq!(platform_name(Target::Android), "Android");
    assert_eq!(platform_name(Target::Ios), "iOS");
    assert_eq!(platform_name(Target::Other), "Unknown");
}

#[test]
fn backend_names_fall_back_to_default() {
    assert_eq!(backend_name(Target::Windows), "Win32");
    assert_eq!(backend_name(Target::MacOs), "Cocoa");
    assert_eq!(backend_name(Target::Linux), "X11/Wayland");
    assert_eq!(backend_name(Target::Wasm), "WebGL");
    assert_eq!(backend_name(Target::Android), "Default");
    assert_eq!(backend_name(Target::Ios), "Default");
    assert_eq!(backend_name(Target::Other), "Default");
}

#[test]
fn every_target_resolves_each_descriptor_once() {
    let all_targets = [
        Target::Windows,
        Target::MacOs,
        Target::Linux,
        Target::Wasm,
        Target::Android,
        Target::Ios,
        Target::Other,
    ];
    for t in all_targets {
        assert!(!platform_name(t).is_empty());
        assert!(!backend_name(t).is_empty());
        assert!(!available_features(t).is_empty());
    }
}

#[test]
fn desktop_features_extend_the_common_set() {
    let features = available_features(Target::Linux);
    assert_eq!(
        features,
        vec![
            "Basic UI",
            "Animations",
            "Theming",
            "File dialogs",
            "System tray",
            "Multiple windows",
        ]
    );
}

#[test]
fn web_features_extend_the_common_set() {
    let features = available_features(Target::Wasm);
    assert_eq!(
        features,
        vec!["Basic UI", "Animations", "Theming", "Web integration", "Browser storage"]
    );
}

#[test]
fn platform_report_lists_platform_backend_and_features() {
    assert_eq!(
        platform_report(Target::Linux),
        "Platform: Linux\nBackend: X11/Wayland\nFeatures: Basic UI, Animations, Theming, \
         File dialogs, System tray, Multiple windows"
    );
    assert_eq!(
        platform_report(Target::Wasm),
        "Platform: WebAssembly\nBackend: WebGL\nFeatures: Basic UI, Animations, Theming, \
         Web integration, Browser storage"
    );
}

#[test]
fn test_report_branches_on_the_web_target() {
    assert_eq!(
        test_report(Target::Windows),
        "Window operations: OK\nThreading: Available\nFile system: Available\n\
         Graphics: Hardware accelerated"
    );
    assert_eq!(
        test_report(Target::Wasm),
        "Window operations: OK\nThreading: Limited\nFile system: Browser storage\n\
         Graphics: Hardware accelerated"
    );
}
