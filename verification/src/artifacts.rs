//! Temporary capture artifacts: the path a method writes under, stamped
//! per call, and the rule that every artifact a method leaves behind is
//! removed before the attempt reports its outcome.

use vstd::prelude::*;

use crate::capture::{CaptureMethod, MethodOutcome};
use crate::textutil::{
    decimal_of, decimal_string, is_decimal_digit, lemma_decimal_of_digits, lemma_decimal_of_len,
    lemma_decimal_of_injective,
};
use crate::validate::is_png_signature;

verus! {

/// File-name prefix each method stamps its temporary artifact with.
pub open spec fn artifact_prefix(m: CaptureMethod) -> Seq<char> {
    match m {
        CaptureMethod::BundledNircmd => "taskwatch_nircmd_"@,
        CaptureMethod::CaptureLibrary => "screenshot_"@,
        CaptureMethod::MemoryPowershell => "screenshot_"@,
        CaptureMethod::DirectShowScript => "screenshot_ds_"@,
        CaptureMethod::Win32Gdi => "screenshot_win32_"@,
        CaptureMethod::PowershellDrawing => "screenshot_"@,
        CaptureMethod::WmiScript => "screenshot_wmi_"@,
        CaptureMethod::FfmpegGrab => "screenshot_ffmpeg_"@,
        CaptureMethod::CsharpInline => "screenshot_cs_"@,
        CaptureMethod::VbScript => "screenshot_vbs_"@,
        CaptureMethod::LinuxShellTools => "screenshot_"@,
    }
}

/// File extension of each method's artifact.  Methods whose tool writes a
/// bitmap use `.bmp`; the rest write PNG.
pub open spec fn artifact_extension(m: CaptureMethod) -> Seq<char> {
    match m {
        CaptureMethod::Win32Gdi => ".bmp"@,
        CaptureMethod::WmiScript => ".bmp"@,
        CaptureMethod::VbScript => ".bmp"@,
        _ => ".png"@,
    }
}

/// Full artifact file name for one capture attempt: the method's prefix,
/// the call's timestamp, the method's extension.
pub open spec fn artifact_name(m: CaptureMethod, stamp: nat) -> Seq<char> {
    artifact_prefix(m) + decimal_of(stamp) + artifact_extension(m)
}

fn artifact_prefix_text(m: CaptureMethod) -> (r: &'static str)
    ensures
        r@ == artifact_prefix(m),
{
    match m {
        CaptureMethod::BundledNircmd => "taskwatch_nircmd_",
        CaptureMethod::CaptureLibrary => "screenshot_",
        CaptureMethod::MemoryPowershell => "screenshot_",
        CaptureMethod::DirectShowScript => "screenshot_ds_",
        CaptureMethod::Win32Gdi => "screenshot_win32_",
        CaptureMethod::PowershellDrawing => "screenshot_",
        CaptureMethod::WmiScript => "screenshot_wmi_",
        CaptureMethod::FfmpegGrab => "screenshot_ffmpeg_",
        CaptureMethod::CsharpInline => "screenshot_cs_",
        CaptureMethod::VbScript => "screenshot_vbs_",
        CaptureMethod::LinuxShellTools => "screenshot_",
    }
}

fn artifact_extension_text(m: CaptureMethod) -> (r: &'static str)
    ensures
        r@ == artifact_extension(m),
{
    match m {
        CaptureMethod::Win32Gdi => ".bmp",
        CaptureMethod::WmiScript => ".bmp",
        CaptureMethod::VbScript => ".bmp",
        _ => ".png",
    }
}

/// The file name under which a method writes its temporary artifact for
/// the capture call stamped `stamp`.
pub fn temp_artifact_name(m: CaptureMethod, stamp: u64) -> (r: String)
    ensures
        r@ == artifact_name(m, stamp as nat),
{
    let mut r = String::from_str(artifact_prefix_text(m));
    let digits = decimal_string(stamp);
    r.append(digits.as_str());
    r.append(artifact_extension_text(m));
    r
}

/// Repeated capture calls are stamped differently, and differently
/// stamped calls write to different paths: their temporary artifacts are
/// independent.
pub proof fn lemma_artifact_names_independent(m: CaptureMethod, s1: u64, s2: u64)
    requires
        s1 != s2,
    ensures
        artifact_name(m, s1 as nat) != artifact_name(m, s2 as nat),
{
    let p = artifact_prefix(m);
    let e = artifact_extension(m);
    let d1 = decimal_of(s1 as nat);
    let d2 = decimal_of(s2 as nat);
    if artifact_name(m, s1 as nat) == artifact_name(m, s2 as nat) {
        assert(artifact_name(m, s1 as nat) == p + d1 + e);
        assert(artifact_name(m, s2 as nat) == p + d2 + e);
        assert((p + d1 + e).len() == p.len() + d1.len() + e.len());
        assert((p + d2 + e).len() == p.len() + d2.len() + e.len());
        assert(p.len() + d1.len() + e.len() == p.len() + d2.len() + e.len());
        assert((p + d1 + e).subrange(p.len() as int, p.len() as int + d1.len() as int) =~= d1);
        assert((p + d2 + e).subrange(p.len() as int, p.len() as int + d2.len() as int) =~= d2);
        assert(d1 == d2);
        lemma_decimal_of_injective(s1 as nat, s2 as nat);
    }
}

/// Artifacts are not shared across methods either: methods with
/// distinct prefixes write to distinct paths whatever the stamps, so
/// within one chain every file-writing method owns its artifact.  (All
/// file-writing methods of one platform's list carry distinct
/// prefixes.)
pub proof fn lemma_artifact_names_distinct_across_methods(
    m1: CaptureMethod,
    m2: CaptureMethod,
    s1: u64,
    s2: u64,
)
    requires
        artifact_prefix(m1) != artifact_prefix(m2),
    ensures
        artifact_name(m1, s1 as nat) != artifact_name(m2, s2 as nat),
{
    reveal_strlit("taskwatch_nircmd_");
    reveal_strlit("screenshot_");
    reveal_strlit("screenshot_ds_");
    reveal_strlit("screenshot_win32_");
    reveal_strlit("screenshot_wmi_");
    reveal_strlit("screenshot_ffmpeg_");
    reveal_strlit("screenshot_cs_");
    reveal_strlit("screenshot_vbs_");
    let p1 = artifact_prefix(m1);
    let p2 = artifact_prefix(m2);
    let d1 = decimal_of(s1 as nat);
    let d2 = decimal_of(s2 as nat);
    let e1 = artifact_extension(m1);
    let e2 = artifact_extension(m2);
    lemma_decimal_of_len(s1 as nat);
    lemma_decimal_of_len(s2 as nat);
    lemma_decimal_of_digits(s1 as nat);
    lemma_decimal_of_digits(s2 as nat);
    if artifact_name(m1, s1 as nat) == artifact_name(m2, s2 as nat) {
        assert(artifact_name(m1, s1 as nat) == p1 + d1 + e1);
        assert(artifact_name(m2, s2 as nat) == p2 + d2 + e2);
        if exists|i: int| 0 <= i < p1.len() && i < p2.len() && p1[i] != #[trigger] p2[i] {
            // The prefixes part within their common length: the names
            // differ right there.
            let i = choose|i: int| 0 <= i < p1.len() && i < p2.len() && p1[i] != #[trigger] p2[i];
            assert((p1 + d1 + e1)[i] == p1[i]);
            assert((p2 + d2 + e2)[i] == p2[i]);
            assert(false);
        } else {
            // The prefixes agree on their common length, so one is a
            // proper prefix of the other; at the boundary the longer
            // prefix continues with a letter where the shorter one's
            // name already shows a digit of the stamp.
            assert(forall|i: int|
                0 <= i < p1.len() && i < p2.len() ==> p1[i] == #[trigger] p2[i]);
            if p1.len() == p2.len() {
                assert(p1 =~= p2);
                assert(false);
            } else if p1.len() < p2.len() {
                assert(p1[0] == p2[0]);
                if p1.len() > 11 {
                    assert(p1[11] == p2[11]);
                }
                if p1.len() > 12 {
                    assert(p1[12] == p2[12]);
                }
                let b = p1.len() as int;
                assert((p1 + d1 + e1)[b] == d1[0]);
                assert((p2 + d2 + e2)[b] == p2[b]);
                assert(is_decimal_digit(d1[0]));
                assert(!is_decimal_digit(p2[b]));
                assert(false);
            } else {
                assert(p2[0] == p1[0]);
                if p2.len() > 11 {
                    assert(p2[11] == p1[11]);
                }
                if p2.len() > 12 {
                    assert(p2[12] == p1[12]);
                }
                let b = p2.len() as int;
                assert((p2 + d2 + e2)[b] == d2[0]);
                assert((p1 + d1 + e1)[b] == p1[b]);
                assert(is_decimal_digit(d2[0]));
                assert(!is_decimal_digit(p1[b]));
                assert(false);
            }
        }
    }
}

/// What one file-producing capture attempt concluded.
pub struct ArtifactJudgment {
    /// The outcome the method reports to the chain.
    pub outcome: MethodOutcome,
    /// Whether the temporary file must be removed before reporting.
    pub remove_artifact: bool,
    /// Whether the produced bytes carry the PNG signature.  A mismatch is
    /// only reported, never a reason for rejection.
    pub png_signature_ok: bool,
}

/// Judge a file-producing capture attempt once its tool has run:
/// `file_exists` is whether the artifact is on disk, `contents` what could
/// be read from it (`None` when the read failed).
///
/// Whenever the tool left a file behind, the judgment orders its removal —
/// on success and on failure alike — so no attempt leaks an artifact.
pub fn judge_file_artifact(file_exists: bool, contents: Option<Vec<u8>>) -> (r: ArtifactJudgment)
    ensures
        r.remove_artifact == file_exists,
        !file_exists ==> (r.outcome matches MethodOutcome::Failure(reason) && reason@
            == "method did not create a capture file"@),
        file_exists && contents is None ==> (r.outcome matches MethodOutcome::Failure(reason)
            && reason@ == "capture file could not be read"@),
        file_exists ==> (contents matches Some(b) ==> r.outcome
            == MethodOutcome::Success(b)),
        r.png_signature_ok == (contents matches Some(b) && is_png_signature(b@)),
{
    let png_signature_ok = match &contents {
        Some(b) => crate::validate::png_signature_matches(b),
        None => false,
    };
    if !file_exists {
        ArtifactJudgment {
            outcome: MethodOutcome::Failure(
                String::from_str("method did not create a capture file"),
            ),
            remove_artifact: false,
            png_signature_ok,
        }
    } else {
        match contents {
            Some(bytes) => ArtifactJudgment {
                outcome: MethodOutcome::Success(bytes),
                remove_artifact: true,
                png_signature_ok,
            },
            None => ArtifactJudgment {
                outcome: MethodOutcome::Failure(
                    String::from_str("capture file could not be read"),
                ),
                remove_artifact: true,
                png_signature_ok,
            },
        }
    }
}

} // verus!
