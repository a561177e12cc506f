//! Assessment of a Windows environment before a capture: which methods
//! the probed capabilities make available, a reliability score, and a
//! grade.

use vstd::prelude::*;

use crate::capture::CaptureMethod;
use crate::errors::CaptureError;

verus! {

/// What probing a Windows session found.  Each flag reports one probe:
/// whether the session is interactive, whether the bundled or installed
/// capture utility answered, whether the scripting shell runs, whether
/// its drawing classes load, and whether the other tools answered.
pub struct WindowsCapabilities {
    pub interactive_session: bool,
    pub nircmd: bool,
    pub powershell: bool,
    pub forms: bool,
    pub wmi: bool,
    pub ffmpeg: bool,
    pub csharp_compiler: bool,
    pub vbscript: bool,
}

/// The capture methods the probed capabilities make available, in the
/// order the assessment reports them.  The three scripted methods ride
/// on the scripting shell; the helper-program method also works through
/// the shell when no native compiler is present.
pub open spec fn spec_available_methods(c: WindowsCapabilities) -> Seq<CaptureMethod> {
    let v0 = Seq::<CaptureMethod>::empty();
    let v1 = if c.nircmd {
        v0.push(CaptureMethod::BundledNircmd)
    } else {
        v0
    };
    let v2 = if c.powershell {
        v1.push(CaptureMethod::MemoryPowershell)
    } else {
        v1
    };
    let v3 = if c.powershell {
        v2.push(CaptureMethod::DirectShowScript)
    } else {
        v2
    };
    let v4 = if c.powershell {
        v3.push(CaptureMethod::Win32Gdi)
    } else {
        v3
    };
    let v5 = if c.forms {
        v4.push(CaptureMethod::PowershellDrawing)
    } else {
        v4
    };
    let v6 = if c.wmi {
        v5.push(CaptureMethod::WmiScript)
    } else {
        v5
    };
    let v7 = if c.ffmpeg {
        v6.push(CaptureMethod::FfmpegGrab)
    } else {
        v6
    };
    let v8 = if c.csharp_compiler || c.powershell {
        v7.push(CaptureMethod::CsharpInline)
    } else {
        v7
    };
    if c.vbscript {
        v8.push(CaptureMethod::VbScript)
    } else {
        v8
    }
}

/// Reliability score of the probed capabilities: each available method
/// contributes its weight; the helper-program method counts a little
/// less when it must compile through the scripting shell.
pub open spec fn spec_capability_score(c: WindowsCapabilities) -> int {
    (if c.nircmd {
        25int
    } else {
        0int
    }) + (if c.powershell {
        20int + 16int + 15int
    } else {
        0int
    }) + (if c.forms {
        14int
    } else {
        0int
    }) + (if c.wmi {
        12int
    } else {
        0int
    }) + (if c.ffmpeg {
        10int
    } else {
        0int
    }) + (if c.csharp_compiler {
        8int
    } else if c.powershell {
        6int
    } else {
        0int
    }) + (if c.vbscript {
        4int
    } else {
        0int
    })
}

/// Grade bands over the reliability score.
#[derive(Clone, Copy, Debug, PartialEq, Eq, Structural)]
pub enum CapabilityGrade {
    Excellent,
    VeryGood,
    Good,
    Fair,
    Poor,
}

/// The grade a score falls in.  Only scores up to one hundred have a
/// named band; anything outside every band — including a score above one
/// hundred — is graded lowest.
pub open spec fn spec_grade(score: int) -> CapabilityGrade {
    if 90 <= score <= 100 {
        CapabilityGrade::Excellent
    } else if 70 <= score <= 89 {
        CapabilityGrade::VeryGood
    } else if 50 <= score <= 69 {
        CapabilityGrade::Good
    } else if 30 <= score <= 49 {
        CapabilityGrade::Fair
    } else {
        CapabilityGrade::Poor
    }
}

/// What the assessment reports back.
#[derive(Debug)]
pub struct EnvironmentAssessment {
    pub methods: Vec<CaptureMethod>,
    pub score: u32,
    pub grade: CapabilityGrade,
}

/// Assess a probed Windows session.  A session that is not interactive
/// cannot capture the screen at all; one where no method is available
/// has nothing to try; otherwise the available methods, their score and
/// its grade are reported.
pub fn assess_windows_environment(c: WindowsCapabilities) -> (r: Result<
    EnvironmentAssessment,
    CaptureError,
>)
    ensures
        !c.interactive_session ==> (r matches Err(e) && e is PermissionDenied),
        c.interactive_session && spec_available_methods(c).len() == 0 ==> (r matches Err(e)
            && e matches CaptureError::MethodUnavailable(m) && m@
            == "no screenshot methods available on this system"@),
        c.interactive_session && spec_available_methods(c).len() > 0 ==> (r matches Ok(a) && {
            &&& a.methods@ == spec_available_methods(c)
            &&& a.score == spec_capability_score(c)
            &&& a.grade == spec_grade(spec_capability_score(c))
        }),
{
    if !c.interactive_session {
        return Err(CaptureError::PermissionDenied);
    }
    let mut methods: Vec<CaptureMethod> = Vec::new();
    let mut score: u32 = 0;
    if c.nircmd {
        methods.push(CaptureMethod::BundledNircmd);
        score = score + 25;
    }
    if c.powershell {
        methods.push(CaptureMethod::MemoryPowershell);
        score = score + 20;
    }
    if c.powershell {
        methods.push(CaptureMethod::DirectShowScript);
        score = score + 16;
    }
    if c.powershell {
        methods.push(CaptureMethod::Win32Gdi);
        score = score + 15;
    }
    if c.forms {
        methods.push(CaptureMethod::PowershellDrawing);
        score = score + 14;
    }
    if c.wmi {
        methods.push(CaptureMethod::WmiScript);
        score = score + 12;
    }
    if c.ffmpeg {
        methods.push(CaptureMethod::FfmpegGrab);
        score = score + 10;
    }
    if c.csharp_compiler {
        methods.push(CaptureMethod::CsharpInline);
        score = score + 8;
    } else if c.powershell {
        methods.push(CaptureMethod::CsharpInline);
        score = score + 6;
    }
    if c.vbscript {
        methods.push(CaptureMethod::VbScript);
        score = score + 4;
    }
    if methods.len() == 0 {
        return Err(
            CaptureError::MethodUnavailable(
                String::from_str("no screenshot methods available on this system"),
            ),
        );
    }
    let grade = if 90 <= score && score <= 100 {
        CapabilityGrade::Excellent
    } else if 70 <= score && score <= 89 {
        CapabilityGrade::VeryGood
    } else if 50 <= score && score <= 69 {
        CapabilityGrade::Good
    } else if 30 <= score && score <= 49 {
        CapabilityGrade::Fair
    } else {
        CapabilityGrade::Poor
    };
    Ok(EnvironmentAssessment { methods, score, grade })
}

} // verus!
