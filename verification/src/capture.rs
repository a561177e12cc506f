//! The screenshot fallback chain: an ordered, platform-dependent list of
//! capture methods tried in sequence until one produces a validated image.
//!
//! The host side performs the actual captures (library calls, spawned
//! tools, scripted OS calls); this module owns every decision: which
//! methods to try, in what order, what counts as a valid outcome, when to
//! move on, and which failure is surfaced when the chain is exhausted.

use vstd::prelude::*;

use crate::errors::CaptureError;
use crate::platform::Platform;
use crate::validate::MIN_IMAGE_BYTES;

verus! {

/// One concrete technique for obtaining a screen image.
#[derive(Clone, Copy, Debug, PartialEq, Eq, Structural)]
pub enum CaptureMethod {
    /// Bundled external capture utility, extracted from the application's
    /// assets; zero external dependencies.
    BundledNircmd,
    /// General cross-platform capture library.
    CaptureLibrary,
    /// Scripted in-memory capture that never touches the filesystem.
    MemoryPowershell,
    /// Scripted capture through low-level multimedia interfaces.
    DirectShowScript,
    /// Scripted capture through direct graphics-device calls.
    Win32Gdi,
    /// Scripted capture through the standard drawing classes.
    PowershellDrawing,
    /// Scripted capture through management instrumentation.
    WmiScript,
    /// External video tool grabbing a single desktop frame.
    FfmpegGrab,
    /// Helper program compiled on the fly, then executed.
    CsharpInline,
    /// Legacy scripting-host capture, last resort.
    VbScript,
    /// Whichever of the common Linux screenshot tools is installed.
    LinuxShellTools,
}

/// What one attempt of one method yielded: raw bytes, or a reason.
/// A method never yields anything in between.
#[derive(Debug)]
pub enum MethodOutcome {
    Success(Vec<u8>),
    Failure(String),
}

/// The candidate methods for a platform, in the order they are tried.
///
/// Windows puts the bundled utility first (no external dependency), then
/// the capture library, then progressively more exotic scripted methods.
/// Everywhere else the capture library comes first; Linux keeps its shell
/// tools as a fallback.
pub open spec fn method_order(p: Platform) -> Seq<CaptureMethod> {
    match p {
        Platform::Windows => seq![
            CaptureMethod::BundledNircmd,
            CaptureMethod::CaptureLibrary,
            CaptureMethod::MemoryPowershell,
            CaptureMethod::DirectShowScript,
            CaptureMethod::Win32Gdi,
            CaptureMethod::PowershellDrawing,
            CaptureMethod::WmiScript,
            CaptureMethod::FfmpegGrab,
            CaptureMethod::CsharpInline,
            CaptureMethod::VbScript,
        ],
        Platform::Linux => seq![CaptureMethod::CaptureLibrary, CaptureMethod::LinuxShellTools],
        Platform::MacOs => seq![CaptureMethod::CaptureLibrary],
        Platform::Other => seq![CaptureMethod::CaptureLibrary],
    }
}

/// Every platform has at least one candidate method.
pub proof fn lemma_method_order_nonempty(p: Platform)
    ensures
        method_order(p).len() >= 1,
{
}

/// The ordered candidate list, as a vector.
pub fn capture_method_order(p: Platform) -> (r: Vec<CaptureMethod>)
    ensures
        r@ == method_order(p),
{
    match p {
        Platform::Windows => {
            let r = vec![
                CaptureMethod::BundledNircmd,
                CaptureMethod::CaptureLibrary,
                CaptureMethod::MemoryPowershell,
                CaptureMethod::DirectShowScript,
                CaptureMethod::Win32Gdi,
                CaptureMethod::PowershellDrawing,
                CaptureMethod::WmiScript,
                CaptureMethod::FfmpegGrab,
                CaptureMethod::CsharpInline,
                CaptureMethod::VbScript,
            ];
            proof {
                assert(r@ =~= method_order(p));
            }
            r
        },
        Platform::Linux => {
            let r = vec![CaptureMethod::CaptureLibrary, CaptureMethod::LinuxShellTools];
            proof {
                assert(r@ =~= method_order(p));
            }
            r
        },
        Platform::MacOs => {
            let r = vec![CaptureMethod::CaptureLibrary];
            proof {
                assert(r@ =~= method_order(p));
            }
            r
        },
        Platform::Other => {
            let r = vec![CaptureMethod::CaptureLibrary];
            proof {
                assert(r@ =~= method_order(p));
            }
            r
        },
    }
}

/// An outcome is accepted exactly when it produced bytes of at least the
/// minimum size.  A failure, or a success below the threshold, is not.
pub open spec fn outcome_valid(o: MethodOutcome) -> bool {
    match o {
        MethodOutcome::Success(b) => b@.len() >= MIN_IMAGE_BYTES,
        MethodOutcome::Failure(_) => false,
    }
}

/// The bytes a successful outcome carries.
pub open spec fn outcome_bytes(o: MethodOutcome) -> Seq<u8> {
    match o {
        MethodOutcome::Success(b) => b@,
        MethodOutcome::Failure(_) => Seq::empty(),
    }
}

/// The error under which a rejected outcome is recorded: a failure keeps
/// its reason; an undersized success is a validation failure.
pub open spec fn rejection_of(o: MethodOutcome) -> CaptureError {
    match o {
        MethodOutcome::Failure(reason) => CaptureError::MethodFailed(reason),
        MethodOutcome::Success(b) => CaptureError::ValidationFailed(b@.len() as usize),
    }
}

/// Position of the first accepted outcome, or `outcomes.len()` when none
/// is accepted.
pub open spec fn first_valid_index(outcomes: Seq<MethodOutcome>) -> int
    decreases outcomes.len(),
{
    if outcomes.len() == 0 {
        0
    } else if outcome_valid(outcomes[0]) {
        0
    } else {
        1 + first_valid_index(outcomes.skip(1))
    }
}

/// `first_valid_index` is in bounds, points at an accepted outcome when one
/// exists, and everything before it is rejected.
pub proof fn lemma_first_valid_index(outcomes: Seq<MethodOutcome>)
    ensures
        0 <= first_valid_index(outcomes) <= outcomes.len(),
        first_valid_index(outcomes) < outcomes.len() ==> outcome_valid(
            outcomes[first_valid_index(outcomes)],
        ),
        forall|j: int| 0 <= j < first_valid_index(outcomes) ==> !outcome_valid(outcomes[j]),
    decreases outcomes.len(),
{
    if outcomes.len() == 0 {
    } else if outcome_valid(outcomes[0]) {
    } else {
        let rest = outcomes.skip(1);
        lemma_first_valid_index(rest);
        let k = first_valid_index(outcomes);
        assert(k == 1 + first_valid_index(rest));
        if k < outcomes.len() {
            assert(rest[k - 1] == outcomes[k]);
        }
        assert forall|j: int| 0 <= j < k implies !outcome_valid(outcomes[j]) by {
            if j > 0 {
                assert(rest[j - 1] == outcomes[j]);
            }
        }
    }
}

/// Fallback ordering: in an environment where only the method at position
/// `n` yields an accepted outcome, the chain's first accepted attempt is
/// exactly `n` — every earlier method is observed failing first.
pub proof fn lemma_fallback_ordering(platform: Platform, outcomes: Seq<MethodOutcome>, n: int)
    requires
        outcomes.len() == method_order(platform).len(),
        0 <= n < outcomes.len(),
        outcome_valid(outcomes[n]),
        forall|j: int| 0 <= j < outcomes.len() && j != n ==> !outcome_valid(outcomes[j]),
    ensures
        first_valid_index(outcomes) == n,
{
    lemma_first_valid_index(outcomes);
    let k = first_valid_index(outcomes);
    if k < n {
        assert(outcome_valid(outcomes[k]));
        assert(false);
    }
    if k > n {
        assert(!outcome_valid(outcomes[n]));
        assert(false);
    }
}

/// What one step of the chain decides after a method was attempted.
#[derive(Debug)]
pub enum ChainStep {
    /// The outcome was accepted; these are the capture's bytes.
    Done(Vec<u8>),
    /// The outcome was rejected and another method remains to be tried.
    Continue,
    /// The outcome was rejected and no method remains; the error records
    /// the final rejection.
    Exhausted(CaptureError),
}

/// Progress of one capture call through its platform's method list.
///
/// The host repeatedly asks for `current_method`, attempts it, and feeds
/// the outcome to `advance`, until `advance` answers `Done` or
/// `Exhausted`.  Methods are attempted strictly in list order, one at a
/// time, and the chain never revisits a method.
pub struct CaptureChain {
    pub platform: Platform,
    pub methods: Vec<CaptureMethod>,
    pub next: usize,
}

impl CaptureChain {
    /// The method list matches the platform and the cursor is in bounds.
    pub open spec fn wf(self) -> bool {
        &&& self.methods@ == method_order(self.platform)
        &&& self.next <= self.methods@.len()
    }

    /// A fresh chain, positioned at the platform's first candidate method.
    pub fn new(platform: Platform) -> (r: Self)
        ensures
            r.wf(),
            r.platform == platform,
            r.next == 0,
    {
        CaptureChain { platform, methods: capture_method_order(platform), next: 0 }
    }

    /// The method to attempt next, or `None` when the chain is exhausted.
    pub fn current_method(&self) -> (r: Option<CaptureMethod>)
        requires
            self.wf(),
        ensures
            self.next < self.methods@.len() ==> r == Some(method_order(self.platform)[self.next as int]),
            self.next == self.methods@.len() ==> r is None,
    {
        if self.next < self.methods.len() {
            Some(self.methods[self.next])
        } else {
            None
        }
    }

    /// Record what the current method produced and decide how to go on.
    ///
    /// An accepted outcome ends the chain with its bytes — never fewer
    /// than the minimum size.  A rejected outcome moves the cursor to the
    /// next method, or ends the chain with the rejection when it was the
    /// last; only that final rejection is surfaced.
    pub fn advance(&mut self, outcome: MethodOutcome) -> (r: ChainStep)
        requires
            old(self).wf(),
            old(self).next < old(self).methods@.len(),
        ensures
            final(self).wf(),
            final(self).platform == old(self).platform,
            outcome_valid(outcome) ==> {
                &&& r matches ChainStep::Done(b) && b@ == outcome_bytes(outcome)
                &&& final(self).next == old(self).next
            },
            !outcome_valid(outcome) && old(self).next + 1 < old(self).methods@.len() ==> {
                &&& r is Continue
                &&& final(self).next == old(self).next + 1
            },
            !outcome_valid(outcome) && old(self).next + 1 == old(self).methods@.len() ==> {
                &&& r matches ChainStep::Exhausted(e) && e == rejection_of(outcome)
                &&& final(self).next == old(self).next + 1
            },
            r matches ChainStep::Done(b) ==> b@.len() >= MIN_IMAGE_BYTES,
    {
        match outcome {
            MethodOutcome::Success(bytes) => {
                if bytes.len() >= MIN_IMAGE_BYTES {
                    ChainStep::Done(bytes)
                } else {
                    self.next = self.next + 1;
                    if self.next < self.methods.len() {
                        ChainStep::Continue
                    } else {
                        ChainStep::Exhausted(CaptureError::ValidationFailed(bytes.len()))
                    }
                }
            },
            MethodOutcome::Failure(reason) => {
                self.next = self.next + 1;
                if self.next < self.methods.len() {
                    ChainStep::Continue
                } else {
                    ChainStep::Exhausted(CaptureError::MethodFailed(reason))
                }
            },
        }
    }
}

/// What a full run of the chain did: which methods were attempted, in
/// order, and how it ended.
pub struct ChainReport {
    pub attempted: Vec<CaptureMethod>,
    pub result: Result<Vec<u8>, CaptureError>,
}

/// Run the whole chain against a given environment: `outcomes[i]` is what
/// attempting method `i` of the platform's list yields.
///
/// Methods are consumed strictly in order; the run stops at the first
/// accepted outcome and returns its bytes — never fewer than the minimum
/// size, never an empty success.  When every outcome is rejected, all
/// methods are attempted and only the last rejection is surfaced.
#[verifier::loop_isolation(false)]
pub fn run_capture_chain(platform: Platform, outcomes: Vec<MethodOutcome>) -> (r: ChainReport)
    requires
        outcomes@.len() == method_order(platform).len(),
    ensures
        ({
            let env = outcomes@;
            let k = first_valid_index(env);
            &&& k < env.len() ==> {
                &&& r.result matches Ok(b) && b@ == outcome_bytes(env[k])
                &&& r.attempted@ == method_order(platform).take(k + 1)
            }
            &&& k == env.len() ==> {
                &&& r.result matches Err(e) && e == rejection_of(env[k - 1])
                &&& r.attempted@ == method_order(platform)
            }
        }),
        r.result matches Ok(b) ==> b@.len() >= MIN_IMAGE_BYTES,
{
    let ghost env = outcomes@;
    let mut remaining = outcomes;
    let order = capture_method_order(platform);
    let mut attempted: Vec<CaptureMethod> = Vec::new();
    let mut last_rejection: Option<CaptureError> = None;
    let n = remaining.len();
    let mut i: usize = 0;
    while i < n
        invariant
            n == env.len(),
            env.len() == method_order(platform).len(),
            remaining@ == env.skip(i as int),
            order@ == method_order(platform),
            attempted@ == method_order(platform).take(i as int),
            i <= n,
            forall|j: int| 0 <= j < i ==> !outcome_valid(env[j]),
            i == 0 ==> last_rejection is None,
            i > 0 ==> (last_rejection matches Some(e) && e == rejection_of(env[i - 1])),
        decreases n - i,
    {
        attempted.push(order[i]);
        proof {
            assert(method_order(platform).take(i + 1) =~= method_order(platform).take(
                i as int,
            ).push(method_order(platform)[i as int]));
        }
        let o = remaining.remove(0);
        proof {
            assert(env.skip(i as int)[0] == env[i as int]);
            assert(o == env[i as int]);
            assert(remaining@ =~= env.skip(i + 1));
        }
        match o {
            MethodOutcome::Success(bytes) => {
                if bytes.len() >= MIN_IMAGE_BYTES {
                    proof {
                        lemma_first_valid_index(env);
                        let k = first_valid_index(env);
                        assert(outcome_valid(env[i as int]));
                        if k < i {
                            assert(!outcome_valid(env[k]));
                        }
                        if k > i {
                            assert(!outcome_valid(env[i as int]));
                        }
                        assert(k == i);
                        assert(outcome_bytes(env[k]) == bytes@);
                        assert(attempted@ == method_order(platform).take(k + 1));
                    }
                    return ChainReport { attempted, result: Ok(bytes) };
                } else {
                    last_rejection = Some(CaptureError::ValidationFailed(bytes.len()));
                }
            },
            MethodOutcome::Failure(reason) => {
                last_rejection = Some(CaptureError::MethodFailed(reason));
            },
        }
        i = i + 1;
    }
    proof {
        lemma_method_order_nonempty(platform);
        lemma_first_valid_index(env);
        let k = first_valid_index(env);
        if k < env.len() {
            assert(!outcome_valid(env[k]));
        }
        assert(k == env.len());
    }
    match last_rejection {
        Some(e) => ChainReport { attempted, result: Err(e) },
        None => {
            proof {
                assert(false);
            }
            ChainReport { attempted, result: Err(CaptureError::PlatformUnsupported) }
        },
    }
}

} // verus!
