//! The service boundary: archives arrive and output leaves base64-encoded.

use crate::docker::{self, ExecutionRequest};
use crate::AppError;
use base64::engine::general_purpose::STANDARD;
use base64::{DecodeError, Engine};
use vstd::prelude::*;

verus! {

/// Memory ceiling of every sandbox: 100 MiB.
pub const MAX_MEMORY: i64 = 100 * 0x100000;

/// Output of a run as the service reports it: both streams base64-encoded.
#[derive(Debug, PartialEq, Eq)]
pub struct RunCodeResponse {
    pub stdout: String,
    pub stderr: String,
    pub exit_code: Option<i64>,
}

/// The bytes that standard, padded base64 text decodes to; `None` for text
/// that is not valid base64.
pub uninterp spec fn base64_decoded(s: Seq<char>) -> Option<Seq<u8>>;

/// The standard, padded base64 text of some bytes.
pub uninterp spec fn base64_encoded(b: Seq<u8>) -> Seq<char>;

#[verifier::external_type_specification]
#[verifier::external_body]
pub struct ExDecodeError(DecodeError);

/// Relies on `Engine::decode` of base64's `STANDARD` engine: the decoded
/// bytes, or an error for text that is not valid base64.
#[verifier::external_body]
fn decode_base64(s: &str) -> (r: Result<Vec<u8>, DecodeError>)
    ensures
        match r {
            Ok(v) => base64_decoded(s@) == Some(v@),
            Err(_) => base64_decoded(s@) is None,
        },
{
    STANDARD.decode(s)
}

/// Relies on `Engine::encode` of base64's `STANDARD` engine: padded output,
/// four characters for each started group of three bytes.
#[verifier::external_body]
fn encode_base64(b: &Vec<u8>) -> (r: String)
    ensures
        r@ == base64_encoded(b@),
        r@.len() == 4 * ((b@.len() + 2) / 3),
{
    STANDARD.encode(b)
}

/// Accepts a request whose archive has been decoded already: `None` stands
/// for an archive that was not valid base64.
pub fn request_from_decoded(decoded: Option<Vec<u8>>, time_budget_ms: u64) -> (r: Result<
    ExecutionRequest,
    AppError,
>)
    ensures
        decoded is None ==> r == Err::<ExecutionRequest, AppError>(AppError::InvalidBase64),
        decoded matches Some(v) ==> (r matches Ok(q) && q.archive@ == v@ && q.time_budget_ms
            == time_budget_ms && q.max_memory == MAX_MEMORY),
{
    match decoded {
        Some(archive) => Ok(ExecutionRequest { archive, time_budget_ms, max_memory: MAX_MEMORY }),
        None => Err(AppError::InvalidBase64),
    }
}

/// Accepts a request: its archive as base64 text and its time budget in
/// milliseconds. Text that is not valid base64 is refused before any sandbox
/// exists.
pub fn accept_request(base_64_tar_gz: &str, time_budget_ms: u64) -> (r: Result<
    ExecutionRequest,
    AppError,
>)
    ensures
        base64_decoded(base_64_tar_gz@) is None ==> r == Err::<ExecutionRequest, AppError>(
            AppError::InvalidBase64,
        ),
        base64_decoded(base_64_tar_gz@) matches Some(v) ==> (r matches Ok(q) && q.archive@ == v
            && q.time_budget_ms == time_budget_ms && q.max_memory == MAX_MEMORY),
{
    let decoded = match decode_base64(base_64_tar_gz) {
        Ok(v) => Some(v),
        Err(_) => None,
    };
    request_from_decoded(decoded, time_budget_ms)
}

/// The service's report of a run: output streams encoded, exit code as is.
pub fn encode_response(resp: &docker::RunCodeResponse) -> (r: RunCodeResponse)
    ensures
        r.stdout@ == base64_encoded(resp.stdout@),
        r.stderr@ == base64_encoded(resp.stderr@),
        r.exit_code == resp.exit_code,
{
    RunCodeResponse {
        stdout: encode_base64(&resp.stdout),
        stderr: encode_base64(&resp.stderr),
        exit_code: resp.exit_code,
    }
}

} // verus!
