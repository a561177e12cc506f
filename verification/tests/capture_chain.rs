use deskmon::capture::{
    capture_method_order, run_capture_chain, CaptureChain, CaptureMethod, ChainStep,
    MethodOutcome,
};
use deskmon::encode64::{capture_screenshot, finish_capture};
use deskmon::errors::CaptureError;
use deskmon::platform::Platform;

fn png_bytes(total_len: usize) -> Vec<u8> {
    let mut v = vec![0x89, 0x50, 0x4e, 0x47, 0x0d, 0x0a, 0x1a, 0x0a];
    while v.len() < total_len {
        v.push(0xab);
    }
    v
}

#[test]
fn method_orders_per_platform() {
    let w = capture_method_order(Platform::Windows);
    assert_eq!(
        w,
        vec![
            CaptureMethod::BundledNircmd,
            CaptureMethod::CaptureLibrary,
            CaptureMethod::MemoryPowershell,
            CaptureMethod::DirectShowScript,
            CaptureMethod::Win32Gdi,
            CaptureMethod::PowershellDrawing,
            CaptureMethod::WmiScript,
            CaptureMethod::FfmpegGrab,
            CaptureMethod::CsharpInline,
            CaptureMethod::VbScript,
        ]
    );
    assert_eq!(
        capture_method_order(Platform::Linux),
        vec![CaptureMethod::CaptureLibrary, CaptureMethod::LinuxShellTools]
    );
    assert_eq!(
        capture_method_order(Platform::MacOs),
        vec![CaptureMethod::CaptureLibrary]
    );
    assert_eq!(
        capture_method_order(Platform::Other),
        vec![CaptureMethod::CaptureLibrary]
    );
}

#[test]
fn chain_stops_at_first_valid_method_in_order() {
    // Only the fifth Windows method produces a valid image: the chain
    // must observe the four earlier failures first, then succeed there.
    let mut outcomes = Vec::new();
    for i in 0..10 {
        if i == 4 {
            outcomes.push(MethodOutcome::Success(png_bytes(2000)));
        } else {
            outcomes.push(MethodOutcome::Failure(format!("method {} failed", i)));
        }
    }
    let report = run_capture_chain(Platform::Windows, outcomes);
    assert_eq!(
        report.attempted,
        vec![
            CaptureMethod::BundledNircmd,
            CaptureMethod::CaptureLibrary,
            CaptureMethod::MemoryPowershell,
            CaptureMethod::DirectShowScript,
            CaptureMethod::Win32Gdi,
        ]
    );
    let bytes = report.result.expect("chain should succeed at the fifth method");
    assert_eq!(bytes.len(), 2000);
}

#[test]
fn undersized_success_is_never_accepted() {
    // A method that "succeeds" with fewer than the minimum bytes is
    // rejected like a failure: no empty or tiny capture ever comes back.
    let outcomes = vec![MethodOutcome::Success(vec![1u8; 999])];
    let report = run_capture_chain(Platform::MacOs, outcomes);
    assert!(matches!(
        report.result,
        Err(CaptureError::ValidationFailed(999))
    ));
    assert_eq!(report.attempted, vec![CaptureMethod::CaptureLibrary]);
}

#[test]
fn exhausted_chain_surfaces_last_failure() {
    let outcomes = vec![
        MethodOutcome::Failure("library failed".to_string()),
        MethodOutcome::Failure("no tool installed".to_string()),
    ];
    let report = run_capture_chain(Platform::Linux, outcomes);
    match report.result {
        Err(CaptureError::MethodFailed(reason)) => {
            assert_eq!(reason, "no tool installed");
        }
        other => panic!("expected the last failure, got {:?}", other),
    }
    assert_eq!(
        report.attempted,
        vec![CaptureMethod::CaptureLibrary, CaptureMethod::LinuxShellTools]
    );
}

#[test]
fn stepwise_chain_walks_methods_in_order() {
    let mut chain = CaptureChain::new(Platform::Linux);
    assert_eq!(chain.current_method(), Some(CaptureMethod::CaptureLibrary));
    let step = chain.advance(MethodOutcome::Failure("library failed".to_string()));
    assert!(matches!(step, ChainStep::Continue));
    assert_eq!(chain.current_method(), Some(CaptureMethod::LinuxShellTools));
    let step = chain.advance(MethodOutcome::Success(png_bytes(1500)));
    match step {
        ChainStep::Done(bytes) => assert_eq!(bytes.len(), 1500),
        other => panic!("expected the capture to finish, got {:?}", other),
    }
}

#[test]
fn stepwise_chain_exhausts_with_final_rejection() {
    let mut chain = CaptureChain::new(Platform::MacOs);
    let step = chain.advance(MethodOutcome::Failure("permission denied".to_string()));
    match step {
        ChainStep::Exhausted(CaptureError::MethodFailed(reason)) => {
            assert_eq!(reason, "permission denied");
        }
        other => panic!("expected exhaustion, got {:?}", other),
    }
    assert_eq!(chain.current_method(), None);
}

#[test]
fn fallback_to_shell_tool_yields_valid_png_base64() {
    // The capture library is unavailable, but one command-line tool
    // produces a PNG: the call must return base64 whose decoded bytes
    // exceed the minimum and start with the PNG signature.
    let png = png_bytes(1500);
    let outcomes = vec![
        MethodOutcome::Failure("capture library unavailable".to_string()),
        MethodOutcome::Success(png.clone()),
    ];
    let report = run_capture_chain(Platform::Linux, outcomes);
    let encoded = finish_capture(report).expect("capture should succeed");
    let decoded = base64::Engine::decode(
        &base64::engine::general_purpose::STANDARD,
        encoded.as_str(),
    )
    .expect("the capture must be valid base64");
    assert!(decoded.len() > 1000);
    assert_eq!(&decoded[0..8], &[0x89, 0x50, 0x4e, 0x47, 0x0d, 0x0a, 0x1a, 0x0a]);
    assert_eq!(decoded, png);
}

#[test]
fn whole_capture_call_encodes_the_accepted_outcome() {
    let png = png_bytes(1200);
    let outcomes = vec![
        MethodOutcome::Failure("capture library unavailable".to_string()),
        MethodOutcome::Success(png.clone()),
    ];
    let encoded = capture_screenshot(Platform::Linux, outcomes).unwrap();
    let direct = base64::Engine::encode(&base64::engine::general_purpose::STANDARD, &png);
    assert_eq!(encoded, direct);

    let outcomes = vec![
        MethodOutcome::Failure("a".to_string()),
        MethodOutcome::Failure("b".to_string()),
    ];
    match capture_screenshot(Platform::Linux, outcomes) {
        Err(CaptureError::MethodFailed(reason)) => assert_eq!(reason, "b"),
        other => panic!("expected the last failure, got {:?}", other),
    }
}
