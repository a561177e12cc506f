use deskmon::artifacts::{judge_file_artifact, temp_artifact_name};
use deskmon::assets::{
    asset_candidate_valid, extraction_verified, plan_extraction, select_asset_candidate,
    AssetCandidate, CacheAction,
};
use deskmon::capture::{CaptureMethod, MethodOutcome};
use deskmon::textutil::decimal_string;

#[test]
fn decimal_rendering_is_exact() {
    assert_eq!(decimal_string(0), "0");
    assert_eq!(decimal_string(7), "7");
    assert_eq!(decimal_string(42), "42");
    assert_eq!(decimal_string(1000), "1000");
    assert_eq!(decimal_string(u64::MAX), "18446744073709551615");
}

#[test]
fn artifact_names_carry_method_prefix_stamp_and_extension() {
    assert_eq!(
        temp_artifact_name(CaptureMethod::BundledNircmd, 123),
        "taskwatch_nircmd_123.png"
    );
    assert_eq!(
        temp_artifact_name(CaptureMethod::Win32Gdi, 0),
        "screenshot_win32_0.bmp"
    );
    assert_eq!(
        temp_artifact_name(CaptureMethod::FfmpegGrab, 99),
        "screenshot_ffmpeg_99.png"
    );
    assert_eq!(
        temp_artifact_name(CaptureMethod::LinuxShellTools, 7),
        "screenshot_7.png"
    );
}

#[test]
fn repeated_calls_use_independent_artifacts() {
    // Two capture calls never share a temporary path.
    let a = temp_artifact_name(CaptureMethod::BundledNircmd, 1111);
    let b = temp_artifact_name(CaptureMethod::BundledNircmd, 1112);
    assert_ne!(a, b);
    // Nor do two different file-writing methods, even with one stamp.
    assert_ne!(a, temp_artifact_name(CaptureMethod::WmiScript, 1111));
    assert_ne!(
        temp_artifact_name(CaptureMethod::DirectShowScript, 5),
        temp_artifact_name(CaptureMethod::Win32Gdi, 5)
    );
    assert_ne!(
        temp_artifact_name(CaptureMethod::PowershellDrawing, 5),
        temp_artifact_name(CaptureMethod::Win32Gdi, 5)
    );
}

#[test]
fn artifact_judgment_always_cleans_up_what_exists() {
    let missing = judge_file_artifact(false, None);
    assert!(!missing.remove_artifact);
    assert!(matches!(missing.outcome, MethodOutcome::Failure(_)));

    let unreadable = judge_file_artifact(true, None);
    assert!(unreadable.remove_artifact);
    assert!(matches!(unreadable.outcome, MethodOutcome::Failure(_)));

    let mut png = vec![0x89, 0x50, 0x4e, 0x47, 0x0d, 0x0a, 0x1a, 0x0a];
    png.resize(1500, 0x11);
    let good = judge_file_artifact(true, Some(png.clone()));
    assert!(good.remove_artifact);
    assert!(good.png_signature_ok);
    match good.outcome {
        MethodOutcome::Success(bytes) => assert_eq!(bytes, png),
        other => panic!("expected the bytes back, got {:?}", other),
    }

    // A small file is still read and removed; the chain rejects it later.
    let small = judge_file_artifact(true, Some(vec![1, 2, 3]));
    assert!(small.remove_artifact);
    assert!(!small.png_signature_ok);
    assert!(matches!(small.outcome, MethodOutcome::Success(_)));
}

fn executable_head() -> Vec<u8> {
    let mut head = vec![0x4d, 0x5a];
    head.resize(64, 0);
    head
}

#[test]
fn asset_candidates_are_screened_by_size_and_header() {
    let good = AssetCandidate { size: 20000, head: executable_head() };
    assert!(asset_candidate_valid(&good));

    let too_small = AssetCandidate { size: 10000, head: executable_head() };
    assert!(!asset_candidate_valid(&too_small));

    let too_large = AssetCandidate { size: 5_000_000, head: executable_head() };
    assert!(!asset_candidate_valid(&too_large));

    let mut wrong = executable_head();
    wrong[0] = 0x00;
    let bad_header = AssetCandidate { size: 20000, head: wrong };
    assert!(!asset_candidate_valid(&bad_header));

    let short_head = AssetCandidate { size: 20000, head: vec![0x4d, 0x5a] };
    assert!(!asset_candidate_valid(&short_head));
}

#[test]
fn first_acceptable_candidate_wins() {
    let candidates = vec![
        AssetCandidate { size: 1, head: Vec::new() },
        AssetCandidate { size: 20000, head: executable_head() },
        AssetCandidate { size: 30000, head: executable_head() },
    ];
    assert_eq!(select_asset_candidate(&candidates), Some(1));
    assert_eq!(select_asset_candidate(&Vec::new()), None);
}

#[test]
fn identical_size_reuses_the_cached_extraction() {
    // A previously extracted copy of the source's exact size is reused:
    // nothing is copied over it.
    assert_eq!(plan_extraction(Some(123456), 123456), CacheAction::Reuse);
    assert_eq!(plan_extraction(Some(123455), 123456), CacheAction::Copy);
    assert_eq!(plan_extraction(None, 123456), CacheAction::Copy);
}

#[test]
fn extraction_is_verified_by_size() {
    assert!(extraction_verified(500, 500));
    assert!(!extraction_verified(499, 500));
}
