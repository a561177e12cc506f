//! Probe orders, command lines and retry rules for the external capture
//! tools the methods drive.

use vstd::prelude::*;

use crate::textutil::texts_of;

verus! {

/// Locations probed to decide whether the capture utility is installed
/// on the system.
pub fn nircmd_probe_paths() -> (r: Vec<String>)
    ensures
        texts_of(r@) == seq![
            "nircmd.exe"@,
            "C:\\Windows\\nircmd.exe"@,
            "C:\\Windows\\System32\\nircmd.exe"@,
            "C:\\Program Files\\nircmd\\nircmd.exe"@,
            "C:\\Program Files (x86)\\nircmd\\nircmd.exe"@,
        ],
{
    let mut r: Vec<String> = Vec::new();
    r.push(String::from_str("nircmd.exe"));
    r.push(String::from_str("C:\\Windows\\nircmd.exe"));
    r.push(String::from_str("C:\\Windows\\System32\\nircmd.exe"));
    r.push(String::from_str("C:\\Program Files\\nircmd\\nircmd.exe"));
    r.push(String::from_str("C:\\Program Files (x86)\\nircmd\\nircmd.exe"));
    proof {
        assert(texts_of(r@) =~= seq![
            "nircmd.exe"@,
            "C:\\Windows\\nircmd.exe"@,
            "C:\\Windows\\System32\\nircmd.exe"@,
            "C:\\Program Files\\nircmd\\nircmd.exe"@,
            "C:\\Program Files (x86)\\nircmd\\nircmd.exe"@,
        ]);
    }
    r
}

/// The texts of the fixed locations tried when launching the capture
/// utility, after the freshly extracted copy.
pub open spec fn nircmd_fixed_launch_paths() -> Seq<Seq<char>> {
    seq![
        "nircmd"@,
        "nircmd.exe"@,
        "C:\\Windows\\nircmd.exe"@,
        "C:\\Windows\\System32\\nircmd.exe"@,
        "C:\\Program Files\\NirCmd\\nircmd.exe"@,
        "C:\\Program Files (x86)\\NirCmd\\nircmd.exe"@,
        ".\\tools\\nircmd.exe"@,
        ".\\nircmd.exe"@,
    ]
}

/// Locations tried, in order, when launching the capture utility.  A
/// freshly extracted bundled copy comes first; the fixed system
/// locations follow.
pub fn nircmd_launch_paths(extracted: Option<String>) -> (r: Vec<String>)
    ensures
        extracted matches Some(p) ==> texts_of(r@) == seq![p@] + nircmd_fixed_launch_paths(),
        extracted is None ==> texts_of(r@) == nircmd_fixed_launch_paths(),
{
    let mut r: Vec<String> = Vec::new();
    match extracted {
        Some(p) => r.push(p),
        None => (),
    }
    let ghost head = r@;
    r.push(String::from_str("nircmd"));
    r.push(String::from_str("nircmd.exe"));
    r.push(String::from_str("C:\\Windows\\nircmd.exe"));
    r.push(String::from_str("C:\\Windows\\System32\\nircmd.exe"));
    r.push(String::from_str("C:\\Program Files\\NirCmd\\nircmd.exe"));
    r.push(String::from_str("C:\\Program Files (x86)\\NirCmd\\nircmd.exe"));
    r.push(String::from_str(".\\tools\\nircmd.exe"));
    r.push(String::from_str(".\\nircmd.exe"));
    proof {
        assert(texts_of(r@) =~= texts_of(head) + nircmd_fixed_launch_paths());
        if extracted is Some {
            assert(texts_of(head) =~= seq![extracted->0@]);
        } else {
            assert(texts_of(head) =~= Seq::<Seq<char>>::empty());
            assert(Seq::<Seq<char>>::empty() + nircmd_fixed_launch_paths()
                =~= nircmd_fixed_launch_paths());
        }
    }
    r
}

/// The capture utility's two invocation forms: the plain one, and the
/// delayed one used for the single in-method retry.
#[derive(Clone, Copy, Debug, PartialEq, Eq, Structural)]
pub enum NircmdInvocation {
    Direct,
    Delayed,
}

/// The one bounded retry the bundled-utility method makes: a failed
/// plain invocation is retried once with the delayed form, and nothing
/// is retried after that or after a success.
pub fn nircmd_next_invocation(current: NircmdInvocation, succeeded: bool) -> (r: Option<
    NircmdInvocation,
>)
    ensures
        succeeded ==> r is None,
        !succeeded && current is Direct ==> r == Some(NircmdInvocation::Delayed),
        !succeeded && current is Delayed ==> r is None,
{
    if succeeded {
        None
    } else {
        match current {
            NircmdInvocation::Direct => Some(NircmdInvocation::Delayed),
            NircmdInvocation::Delayed => None,
        }
    }
}

/// Arguments of one capture-utility invocation writing to `outfile`.
pub fn nircmd_invocation_args(inv: NircmdInvocation, outfile: &str) -> (r: Vec<String>)
    ensures
        inv is Direct ==> texts_of(r@) == seq!["savescreenshot"@, outfile@],
        inv is Delayed ==> texts_of(r@) == seq![
            "cmdwait"@,
            "1000"@,
            "savescreenshot"@,
            outfile@,
        ],
{
    let mut r: Vec<String> = Vec::new();
    match inv {
        NircmdInvocation::Direct => {
            r.push(String::from_str("savescreenshot"));
            r.push(String::from_str(outfile));
            proof {
                assert(texts_of(r@) =~= seq!["savescreenshot"@, outfile@]);
            }
        },
        NircmdInvocation::Delayed => {
            r.push(String::from_str("cmdwait"));
            r.push(String::from_str("1000"));
            r.push(String::from_str("savescreenshot"));
            r.push(String::from_str(outfile));
            proof {
                assert(texts_of(r@) =~= seq!["cmdwait"@, "1000"@, "savescreenshot"@, outfile@]);
            }
        },
    }
    r
}

/// When both invocation forms have failed, a capture file the utility
/// nevertheless left behind is salvaged exactly when it is larger than a
/// thousand bytes; anything smaller is an error artifact.
pub fn nircmd_salvage_decision(file_exists: bool, size: u64) -> (r: bool)
    ensures
        r == (file_exists && size > 1000),
{
    file_exists && size > 1000
}

/// Compilers tried, in order, to build the capture helper program.
pub fn csc_probe_paths() -> (r: Vec<String>)
    ensures
        texts_of(r@) == seq![
            "csc"@,
            "C:\\Windows\\Microsoft.NET\\Framework64\\v4.0.30319\\csc.exe"@,
            "C:\\Windows\\Microsoft.NET\\Framework\\v4.0.30319\\csc.exe"@,
            "C:\\Program Files (x86)\\Microsoft Visual Studio\\2019\\BuildTools\\MSBuild\\Current\\Bin\\Roslyn\\csc.exe"@,
            "C:\\Program Files\\Microsoft Visual Studio\\2022\\Community\\MSBuild\\Current\\Bin\\Roslyn\\csc.exe"@,
        ],
{
    let mut r: Vec<String> = Vec::new();
    r.push(String::from_str("csc"));
    r.push(String::from_str("C:\\Windows\\Microsoft.NET\\Framework64\\v4.0.30319\\csc.exe"));
    r.push(String::from_str("C:\\Windows\\Microsoft.NET\\Framework\\v4.0.30319\\csc.exe"));
    r.push(
        String::from_str(
            "C:\\Program Files (x86)\\Microsoft Visual Studio\\2019\\BuildTools\\MSBuild\\Current\\Bin\\Roslyn\\csc.exe",
        ),
    );
    r.push(
        String::from_str(
            "C:\\Program Files\\Microsoft Visual Studio\\2022\\Community\\MSBuild\\Current\\Bin\\Roslyn\\csc.exe",
        ),
    );
    proof {
        assert(texts_of(r@) =~= seq![
            "csc"@,
            "C:\\Windows\\Microsoft.NET\\Framework64\\v4.0.30319\\csc.exe"@,
            "C:\\Windows\\Microsoft.NET\\Framework\\v4.0.30319\\csc.exe"@,
            "C:\\Program Files (x86)\\Microsoft Visual Studio\\2019\\BuildTools\\MSBuild\\Current\\Bin\\Roslyn\\csc.exe"@,
            "C:\\Program Files\\Microsoft Visual Studio\\2022\\Community\\MSBuild\\Current\\Bin\\Roslyn\\csc.exe"@,
        ]);
    }
    r
}

/// Arguments that compile the helper source into the helper executable.
pub fn csc_compile_args(exe_file: &str, source_file: &str) -> (r: Vec<String>)
    ensures
        texts_of(r@) == seq![
            "/target:exe"@,
            "/reference:System.Drawing.dll"@,
            "/reference:System.Windows.Forms.dll"@,
            "/out:"@ + exe_file@,
            source_file@,
        ],
{
    let mut out_arg = String::from_str("/out:");
    out_arg.append(exe_file);
    let mut r: Vec<String> = Vec::new();
    r.push(String::from_str("/target:exe"));
    r.push(String::from_str("/reference:System.Drawing.dll"));
    r.push(String::from_str("/reference:System.Windows.Forms.dll"));
    r.push(out_arg);
    r.push(String::from_str(source_file));
    proof {
        assert(texts_of(r@) =~= seq![
            "/target:exe"@,
            "/reference:System.Drawing.dll"@,
            "/reference:System.Windows.Forms.dll"@,
            "/out:"@ + exe_file@,
            source_file@,
        ]);
    }
    r
}

/// How the capture helper program is produced: by a native compiler, or
/// compiled in-process through the scripting shell.
#[derive(Clone, Copy, Debug, PartialEq, Eq, Structural)]
pub enum CsharpCompilation {
    NativeCompiler,
    ScriptedCompilation,
}

/// The helper-program method's one bounded fallback: when no native
/// compiler produced the helper, compiling through the scripting shell
/// is tried once, and nothing follows a success or that second try.
pub fn csharp_next_compilation(current: CsharpCompilation, succeeded: bool) -> (r: Option<
    CsharpCompilation,
>)
    ensures
        succeeded ==> r is None,
        !succeeded && current is NativeCompiler ==> r == Some(
            CsharpCompilation::ScriptedCompilation,
        ),
        !succeeded && current is ScriptedCompilation ==> r is None,
{
    if succeeded {
        None
    } else {
        match current {
            CsharpCompilation::NativeCompiler => Some(CsharpCompilation::ScriptedCompilation),
            CsharpCompilation::ScriptedCompilation => None,
        }
    }
}

/// Locations tried when looking for the external video tool.
pub fn ffmpeg_probe_paths() -> (r: Vec<String>)
    ensures
        texts_of(r@) == seq![
            "ffmpeg"@,
            "ffmpeg.exe"@,
            "C:\\ffmpeg\\bin\\ffmpeg.exe"@,
            "C:\\Program Files\\ffmpeg\\bin\\ffmpeg.exe"@,
            "C:\\Program Files (x86)\\ffmpeg\\bin\\ffmpeg.exe"@,
            "C:\\tools\\ffmpeg\\bin\\ffmpeg.exe"@,
        ],
{
    let mut r: Vec<String> = Vec::new();
    r.push(String::from_str("ffmpeg"));
    r.push(String::from_str("ffmpeg.exe"));
    r.push(String::from_str("C:\\ffmpeg\\bin\\ffmpeg.exe"));
    r.push(String::from_str("C:\\Program Files\\ffmpeg\\bin\\ffmpeg.exe"));
    r.push(String::from_str("C:\\Program Files (x86)\\ffmpeg\\bin\\ffmpeg.exe"));
    r.push(String::from_str("C:\\tools\\ffmpeg\\bin\\ffmpeg.exe"));
    proof {
        assert(texts_of(r@) =~= seq![
            "ffmpeg"@,
            "ffmpeg.exe"@,
            "C:\\ffmpeg\\bin\\ffmpeg.exe"@,
            "C:\\Program Files\\ffmpeg\\bin\\ffmpeg.exe"@,
            "C:\\Program Files (x86)\\ffmpeg\\bin\\ffmpeg.exe"@,
            "C:\\tools\\ffmpeg\\bin\\ffmpeg.exe"@,
        ]);
    }
    r
}

/// Arguments that grab one desktop frame with the video tool.
pub fn ffmpeg_capture_args(outfile: &str) -> (r: Vec<String>)
    ensures
        texts_of(r@) == seq![
            "-f"@,
            "gdigrab"@,
            "-framerate"@,
            "1"@,
            "-i"@,
            "desktop"@,
            "-vframes"@,
            "1"@,
            "-y"@,
            outfile@,
        ],
{
    let mut r: Vec<String> = Vec::new();
    r.push(String::from_str("-f"));
    r.push(String::from_str("gdigrab"));
    r.push(String::from_str("-framerate"));
    r.push(String::from_str("1"));
    r.push(String::from_str("-i"));
    r.push(String::from_str("desktop"));
    r.push(String::from_str("-vframes"));
    r.push(String::from_str("1"));
    r.push(String::from_str("-y"));
    r.push(String::from_str(outfile));
    proof {
        assert(texts_of(r@) =~= seq![
            "-f"@,
            "gdigrab"@,
            "-framerate"@,
            "1"@,
            "-i"@,
            "desktop"@,
            "-vframes"@,
            "1"@,
            "-y"@,
            outfile@,
        ]);
    }
    r
}

/// The common Linux screenshot tools, in preference order.
pub fn linux_tool_names() -> (r: Vec<String>)
    ensures
        texts_of(r@) == seq!["gnome-screenshot"@, "import"@, "scrot"@],
{
    let mut r: Vec<String> = Vec::new();
    r.push(String::from_str("gnome-screenshot"));
    r.push(String::from_str("import"));
    r.push(String::from_str("scrot"));
    proof {
        assert(texts_of(r@) =~= seq!["gnome-screenshot"@, "import"@, "scrot"@]);
    }
    r
}

/// The first available Linux tool, by preference order; `available[i]`
/// says whether tool `i` of `linux_tool_names` is installed.
#[verifier::loop_isolation(false)]
pub fn select_linux_tool(available: &Vec<bool>) -> (r: Option<usize>)
    ensures
        r matches Some(i) ==> i < available@.len() && available@[i as int] && (forall|j: int|
            0 <= j < i ==> !available@[j]),
        r is None ==> forall|j: int| 0 <= j < available@.len() ==> !available@[j],
{
    let mut i: usize = 0;
    while i < available.len()
        invariant
            i <= available@.len(),
            forall|j: int| 0 <= j < i ==> !available@[j],
        decreases available@.len() - i,
    {
        if available[i] {
            return Some(i);
        }
        i = i + 1;
    }
    None
}

/// Arguments of the selected Linux tool writing to `outfile`.
pub fn linux_tool_args(tool: usize, outfile: &str) -> (r: Vec<String>)
    requires
        tool < 3,
    ensures
        tool == 0 ==> texts_of(r@) == seq!["-f"@, outfile@],
        tool == 1 ==> texts_of(r@) == seq!["-window"@, "root"@, outfile@],
        tool == 2 ==> texts_of(r@) == seq![outfile@],
{
    let mut r: Vec<String> = Vec::new();
    if tool == 0 {
        r.push(String::from_str("-f"));
        r.push(String::from_str(outfile));
        proof {
            assert(texts_of(r@) =~= seq!["-f"@, outfile@]);
        }
    } else if tool == 1 {
        r.push(String::from_str("-window"));
        r.push(String::from_str("root"));
        r.push(String::from_str(outfile));
        proof {
            assert(texts_of(r@) =~= seq!["-window"@, "root"@, outfile@]);
        }
    } else {
        r.push(String::from_str(outfile));
        proof {
            assert(texts_of(r@) =~= seq![outfile@]);
        }
    }
    r
}

/// Verdict of the macOS screen-recording permission probe: when the
/// probe tool ran, anything on its error stream means the permission is
/// in place; when the tool is missing, permission is assumed.
pub fn screen_permission_verdict(probe_ran: bool, stderr_nonempty: bool) -> (r: bool)
    ensures
        probe_ran ==> r == stderr_nonempty,
        !probe_ran ==> r == true,
{
    if probe_ran {
        stderr_nonempty
    } else {
        true
    }
}

/// A Wayland session without a reachable X compatibility layer: capture
/// is likely limited there, which is worth a warning before the chain
/// starts.
pub fn wayland_without_x_bridge(
    wayland_display_set: bool,
    session_type_is_wayland: bool,
    x_display_socket: bool,
    x_unix_socket: bool,
) -> (r: bool)
    ensures
        r == (wayland_display_set && session_type_is_wayland && !x_display_socket
            && !x_unix_socket),
{
    wayland_display_set && session_type_is_wayland && !x_display_socket && !x_unix_socket
}

} // verus!
