use deskmon::capture::CaptureMethod;
use deskmon::errors::CaptureError;
use deskmon::platform::Platform;
use deskmon::platform_api;
use deskmon::procs::{get_process_access_info, matching_name_positions, process_name_matches};
use deskmon::toolcmd::{
    csc_compile_args, csc_probe_paths, csharp_next_compilation, ffmpeg_capture_args,
    linux_tool_args, linux_tool_names, nircmd_invocation_args, nircmd_launch_paths,
    nircmd_next_invocation, nircmd_probe_paths, nircmd_salvage_decision,
    screen_permission_verdict, select_linux_tool, wayland_without_x_bridge, CsharpCompilation,
    NircmdInvocation,
};
use deskmon::winenv::{assess_windows_environment, CapabilityGrade, WindowsCapabilities};

fn caps(
    nircmd: bool,
    powershell: bool,
    forms: bool,
    wmi: bool,
    ffmpeg: bool,
    csharp_compiler: bool,
    vbscript: bool,
) -> WindowsCapabilities {
    WindowsCapabilities {
        interactive_session: true,
        nircmd,
        powershell,
        forms,
        wmi,
        ffmpeg,
        csharp_compiler,
        vbscript,
    }
}

#[test]
fn full_capability_set_scores_above_every_band() {
    let a = assess_windows_environment(caps(true, true, true, true, true, true, true)).unwrap();
    assert_eq!(a.score, 25 + 20 + 16 + 15 + 14 + 12 + 10 + 8 + 4);
    assert_eq!(a.score, 124);
    // Scores above one hundred fall outside every named band.
    assert_eq!(a.grade, CapabilityGrade::Poor);
    assert_eq!(
        a.methods,
        vec![
            CaptureMethod::BundledNircmd,
            CaptureMethod::MemoryPowershell,
            CaptureMethod::DirectShowScript,
            CaptureMethod::Win32Gdi,
            CaptureMethod::PowershellDrawing,
            CaptureMethod::WmiScript,
            CaptureMethod::FfmpegGrab,
            CaptureMethod::CsharpInline,
            CaptureMethod::VbScript,
        ]
    );
}

#[test]
fn grade_bands_are_hit_by_realistic_mixes() {
    // Scripting shell plus utility plus drawing classes: 25+51+14+6 = 96.
    let a = assess_windows_environment(caps(true, true, true, false, false, false, false))
        .unwrap();
    assert_eq!(a.score, 96);
    assert_eq!(a.grade, CapabilityGrade::Excellent);

    // Shell, drawing classes and legacy scripting: 51+14+6+4 = 75.
    let a = assess_windows_environment(caps(false, true, true, false, false, false, true))
        .unwrap();
    assert_eq!(a.score, 75);
    assert_eq!(a.grade, CapabilityGrade::VeryGood);

    // Shell alone: 51+6 = 57.
    let a = assess_windows_environment(caps(false, true, false, false, false, false, false))
        .unwrap();
    assert_eq!(a.score, 57);
    assert_eq!(a.grade, CapabilityGrade::Good);
    assert_eq!(
        a.methods,
        vec![
            CaptureMethod::MemoryPowershell,
            CaptureMethod::DirectShowScript,
            CaptureMethod::Win32Gdi,
            CaptureMethod::CsharpInline,
        ]
    );

    // Utility and drawing classes, no shell: 25+14 = 39.
    let a = assess_windows_environment(caps(true, false, true, false, false, false, false))
        .unwrap();
    assert_eq!(a.score, 39);
    assert_eq!(a.grade, CapabilityGrade::Fair);

    // Utility alone: 25.
    let a = assess_windows_environment(caps(true, false, false, false, false, false, false))
        .unwrap();
    assert_eq!(a.score, 25);
    assert_eq!(a.grade, CapabilityGrade::Poor);
}

#[test]
fn hostile_environments_are_refused() {
    let mut c = caps(true, true, true, true, true, true, true);
    c.interactive_session = false;
    assert!(matches!(
        assess_windows_environment(c),
        Err(CaptureError::PermissionDenied)
    ));

    let nothing = caps(false, false, false, false, false, false, false);
    match assess_windows_environment(nothing) {
        Err(CaptureError::MethodUnavailable(m)) => {
            assert_eq!(m, "no screenshot methods available on this system");
        }
        other => panic!("expected no methods, got {:?}", other),
    }
}

#[test]
fn process_access_advice_is_platform_specific() {
    assert!(get_process_access_info(Platform::MacOs).contains("macOS"));
    assert!(get_process_access_info(Platform::Linux).contains("Linux"));
    assert!(get_process_access_info(Platform::Windows).contains("Windows"));
    assert_eq!(
        get_process_access_info(Platform::Other),
        "Access to process information may be restricted on this platform."
    );
}

#[test]
fn process_names_match_case_insensitively() {
    assert!(process_name_matches("FireFox", "fox"));
    assert!(process_name_matches("FireFox", "FOX"));
    assert!(process_name_matches("firefox", "firefox"));
    assert!(!process_name_matches("chrome", "fox"));
    let names = vec![
        "Chrome".to_string(),
        "firefox".to_string(),
        "FireFox Nightly".to_string(),
    ];
    assert_eq!(matching_name_positions(&names, "fire"), vec![1, 2]);
    assert_eq!(matching_name_positions(&names, "opera"), Vec::<usize>::new());
}

#[test]
fn nircmd_probe_and_launch_orders() {
    let probe = nircmd_probe_paths();
    assert_eq!(probe[0], "nircmd.exe");
    assert_eq!(probe.len(), 5);

    let plain = nircmd_launch_paths(None);
    assert_eq!(plain.len(), 8);
    assert_eq!(plain[0], "nircmd");

    let with_asset = nircmd_launch_paths(Some("C:\\tmp\\tools\\nircmd.exe".to_string()));
    assert_eq!(with_asset.len(), 9);
    assert_eq!(with_asset[0], "C:\\tmp\\tools\\nircmd.exe");
    assert_eq!(with_asset[1], "nircmd");
}

#[test]
fn nircmd_retries_once_with_the_delayed_form() {
    assert_eq!(
        nircmd_next_invocation(NircmdInvocation::Direct, false),
        Some(NircmdInvocation::Delayed)
    );
    assert_eq!(nircmd_next_invocation(NircmdInvocation::Direct, true), None);
    assert_eq!(nircmd_next_invocation(NircmdInvocation::Delayed, false), None);
    assert_eq!(nircmd_next_invocation(NircmdInvocation::Delayed, true), None);

    assert_eq!(
        nircmd_invocation_args(NircmdInvocation::Direct, "out.png"),
        vec!["savescreenshot".to_string(), "out.png".to_string()]
    );
    assert_eq!(
        nircmd_invocation_args(NircmdInvocation::Delayed, "out.png"),
        vec![
            "cmdwait".to_string(),
            "1000".to_string(),
            "savescreenshot".to_string(),
            "out.png".to_string(),
        ]
    );
}

#[test]
fn salvage_requires_a_file_above_a_thousand_bytes() {
    assert!(!nircmd_salvage_decision(false, 5000));
    assert!(!nircmd_salvage_decision(true, 1000));
    assert!(nircmd_salvage_decision(true, 1001));
}

#[test]
fn helper_compilers_and_their_one_fallback() {
    let compilers = csc_probe_paths();
    assert_eq!(compilers.len(), 5);
    assert_eq!(compilers[0], "csc");
    assert_eq!(
        compilers[1],
        "C:\\Windows\\Microsoft.NET\\Framework64\\v4.0.30319\\csc.exe"
    );

    assert_eq!(
        csc_compile_args("out.exe", "cap.cs"),
        vec![
            "/target:exe".to_string(),
            "/reference:System.Drawing.dll".to_string(),
            "/reference:System.Windows.Forms.dll".to_string(),
            "/out:out.exe".to_string(),
            "cap.cs".to_string(),
        ]
    );

    assert_eq!(
        csharp_next_compilation(CsharpCompilation::NativeCompiler, false),
        Some(CsharpCompilation::ScriptedCompilation)
    );
    assert_eq!(csharp_next_compilation(CsharpCompilation::NativeCompiler, true), None);
    assert_eq!(csharp_next_compilation(CsharpCompilation::ScriptedCompilation, false), None);
    assert_eq!(csharp_next_compilation(CsharpCompilation::ScriptedCompilation, true), None);
}

#[test]
fn ffmpeg_grabs_one_desktop_frame() {
    assert_eq!(
        ffmpeg_capture_args("shot.png"),
        vec![
            "-f".to_string(),
            "gdigrab".to_string(),
            "-framerate".to_string(),
            "1".to_string(),
            "-i".to_string(),
            "desktop".to_string(),
            "-vframes".to_string(),
            "1".to_string(),
            "-y".to_string(),
            "shot.png".to_string(),
        ]
    );
}

#[test]
fn linux_tools_are_preferred_in_order() {
    assert_eq!(
        linux_tool_names(),
        vec![
            "gnome-screenshot".to_string(),
            "import".to_string(),
            "scrot".to_string(),
        ]
    );
    assert_eq!(select_linux_tool(&vec![false, true, true]), Some(1));
    assert_eq!(select_linux_tool(&vec![true, false, false]), Some(0));
    assert_eq!(select_linux_tool(&vec![false, false, false]), None);

    assert_eq!(
        linux_tool_args(0, "f.png"),
        vec!["-f".to_string(), "f.png".to_string()]
    );
    assert_eq!(
        linux_tool_args(1, "f.png"),
        vec!["-window".to_string(), "root".to_string(), "f.png".to_string()]
    );
    assert_eq!(linux_tool_args(2, "f.png"), vec!["f.png".to_string()]);
}

#[test]
fn permission_probe_verdict() {
    assert!(screen_permission_verdict(true, true));
    assert!(!screen_permission_verdict(true, false));
    assert!(screen_permission_verdict(false, false));
    assert!(screen_permission_verdict(false, true));
}

#[test]
fn wayland_without_x_bridge_is_flagged() {
    assert!(wayland_without_x_bridge(true, true, false, false));
    assert!(!wayland_without_x_bridge(true, true, true, false));
    assert!(!wayland_without_x_bridge(true, true, false, true));
    assert!(!wayland_without_x_bridge(false, true, false, false));
    assert!(!wayland_without_x_bridge(true, false, false, false));
}

#[test]
fn in_library_platform_entry_points_defer_to_the_host() {
    assert!(matches!(
        platform_api::take_screenshot_windows_nircmd(),
        Err(CaptureError::PlatformUnsupported)
    ));
    assert!(matches!(
        platform_api::check_windows_environment(),
        Err(CaptureError::PlatformUnsupported)
    ));
    assert!(matches!(
        platform_api::take_screenshot_linux_fallback(),
        Err(CaptureError::PlatformUnsupported)
    ));
    assert!(!platform_api::is_nircmd_available());
    assert!(!platform_api::test_nircmd_availability());
}
