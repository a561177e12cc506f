//! Base64 transport encoding of capture results, and validation of
//! captures that arrive already encoded.

use vstd::prelude::*;

use crate::capture::{
    first_valid_index, method_order, outcome_bytes, rejection_of, run_capture_chain, ChainReport,
    MethodOutcome,
};
use crate::errors::CaptureError;
use crate::platform::Platform;
use crate::validate::MIN_IMAGE_BYTES;

verus! {

/// The standard base64 text of a byte sequence, with padding: a function
/// of the bytes alone.
pub uninterp spec fn base64_chars_of(bytes: Seq<u8>) -> Seq<char>;

/// Relies on base64's standard engine `encode`: the text depends only on
/// the bytes, four characters for every started group of three bytes.
/// Inputs near `usize::MAX` are excluded because the engine aborts when
/// the encoded length cannot be computed.
#[verifier::external_body]
fn base64_encode(bytes: &Vec<u8>) -> (r: String)
    requires
        bytes@.len() <= usize::MAX / 2,
    ensures
        r@ == base64_chars_of(bytes@),
        r@.len() == 4 * ((bytes@.len() + 2) / 3),
{
    base64::Engine::encode(&base64::engine::general_purpose::STANDARD, bytes)
}

/// Relies on base64's standard engine `decode`: it inverts `encode`, and
/// accepts exactly the texts `encode` produces (canonical padding, no
/// stray trailing bits).  Because only canonical texts are accepted and
/// decoding is deterministic, the decoded buffer is the one preimage the
/// text has under `encode`.
#[verifier::external_body]
fn base64_decode(text: &str) -> (r: Option<Vec<u8>>)
    ensures
        r matches Some(b) ==> base64_chars_of(b@) == text@,
        (exists|b: Seq<u8>| text@ == base64_chars_of(b)) ==> r is Some,
        r matches Some(b) ==> (forall|b2: Seq<u8>| text@ == #[trigger] base64_chars_of(b2)
            ==> b2 == b@),
{
    match base64::Engine::decode(&base64::engine::general_purpose::STANDARD, text) {
        Ok(b) => Some(b),
        Err(_) => None,
    }
}

/// Encode a capture for transport across the host boundary.  `None` only
/// for buffers so large that the encoded form could not exist in memory.
pub fn encode_capture(bytes: &Vec<u8>) -> (r: Option<String>)
    ensures
        r is Some <==> bytes@.len() <= usize::MAX / 2,
        r matches Some(s) ==> s@ == base64_chars_of(bytes@),
{
    if bytes.len() <= usize::MAX / 2 {
        Some(base64_encode(bytes))
    } else {
        None
    }
}

/// Turn a finished chain run into what the capture call returns: the
/// accepted bytes encoded for transport, or the chain's error.  A buffer
/// too large to encode is the one further failure.
pub fn finish_capture(report: ChainReport) -> (r: Result<String, CaptureError>)
    ensures
        report.result matches Ok(b) ==> {
            &&& b@.len() <= usize::MAX / 2 ==> (r matches Ok(s) && s@ == base64_chars_of(b@))
            &&& b@.len() > usize::MAX / 2 ==> (r matches Err(e) && e
                matches CaptureError::MethodFailed(m) && m@ == "capture too large to encode"@)
        },
        report.result matches Err(e) ==> r == Err::<String, CaptureError>(e),
{
    match report.result {
        Ok(bytes) => {
            match encode_capture(&bytes) {
                Some(s) => Ok(s),
                None => Err(
                    CaptureError::MethodFailed(String::from_str("capture too large to encode")),
                ),
            }
        },
        Err(e) => Err(e),
    }
}

/// One whole capture call against a given environment: run the fallback
/// chain and encode what it accepts.
///
/// The call succeeds exactly when some method's outcome is accepted and
/// fits the encoder; the text is then the encoding of the first accepted
/// method's bytes — never fewer than the minimum, never an empty
/// success.  When every method is rejected, only the last rejection is
/// surfaced.
pub fn capture_screenshot(platform: Platform, outcomes: Vec<MethodOutcome>) -> (r: Result<
    String,
    CaptureError,
>)
    requires
        outcomes@.len() == method_order(platform).len(),
    ensures
        ({
            let env = outcomes@;
            let k = first_valid_index(env);
            &&& k < env.len() && outcome_bytes(env[k]).len() <= usize::MAX / 2 ==> (r matches Ok(
                s,
            ) && s@ == base64_chars_of(outcome_bytes(env[k])))
            &&& k < env.len() && outcome_bytes(env[k]).len() > usize::MAX / 2 ==> (r matches Err(
                e,
            ) && e matches CaptureError::MethodFailed(m) && m@
                == "capture too large to encode"@)
            &&& k == env.len() ==> (r matches Err(e) && e == rejection_of(env[k - 1]))
        }),
{
    finish_capture(run_capture_chain(platform, outcomes))
}

/// Validate a capture that a method delivered as base64 text instead of a
/// file: decode it and hold it to the minimum size.
///
/// The call succeeds whenever the text encodes a buffer of at least the
/// minimum size, and then returns exactly that buffer; an undersized
/// encoding is rejected with the buffer's size, any other text as not
/// being base64.
pub fn validate_encoded_capture(text: &String) -> (r: Result<Vec<u8>, CaptureError>)
    ensures
        r matches Ok(b) ==> base64_chars_of(b@) == text@ && b@.len() >= MIN_IMAGE_BYTES,
        (exists|b: Seq<u8>| text@ == #[trigger] base64_chars_of(b) && b.len()
            >= MIN_IMAGE_BYTES) ==> r is Ok,
        r matches Err(e) ==> (e is MethodFailed || e is ValidationFailed),
        r matches Err(e) ==> (e matches CaptureError::ValidationFailed(n) ==> n
            < MIN_IMAGE_BYTES && (exists|b: Seq<u8>| text@ == #[trigger] base64_chars_of(b)
            && b.len() == n)),
        r matches Err(e) ==> (e matches CaptureError::MethodFailed(m) ==> m@
            == "output is not base64 text"@ && !(exists|b: Seq<u8>| text@
            == #[trigger] base64_chars_of(b))),
{
    match base64_decode(text.as_str()) {
        Some(bytes) => {
            if bytes.len() >= MIN_IMAGE_BYTES {
                Ok(bytes)
            } else {
                proof {
                    assert(text@ == base64_chars_of(bytes@));
                    assert forall|b: Seq<u8>| text@ == #[trigger] base64_chars_of(b)
                        implies b == bytes@ by {}
                }
                Err(CaptureError::ValidationFailed(bytes.len()))
            }
        },
        None => Err(CaptureError::MethodFailed(String::from_str("output is not base64 text"))),
    }
}

} // verus!
