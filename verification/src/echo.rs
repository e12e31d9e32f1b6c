//! The echo request handler: what it answers to a parsed request, and how an
//! outcome becomes a response. Reading the request, parsing its JSON body
//! and serialising the answer are left to the caller.

use crate::text::str_eq;
use crate::upstream::frame_of;
use crate::upstream::hash_value;
use crate::upstream::request_frame;
use crate::upstream::too_long_message;
use crate::upstream::HashError;
use crate::upstream::MAX_MESSAGE_LEN;
use vstd::prelude::*;
use vstd::string::StrSliceExecFns;
use vstd::utf8::encode_utf8;

verus! {

/// Status of a response that carries the handler's answer.
pub const STATUS_OK: u16 = 200;

/// Status of a response that reports a failed request to the client.
pub const STATUS_BAD_REQUEST: u16 = 400;

/// The body of a request.
#[derive(Debug, PartialEq, Eq)]
pub struct Input {
    pub message: String,
}

/// The body of the answer: the message again, and its digest in lowercase
/// hex where one was asked for.
#[derive(Debug, PartialEq, Eq)]
pub struct Output {
    pub message: String,
    pub hash: Option<String>,
}

/// A response reduced to what the handler decides.
#[derive(Debug, PartialEq, Eq)]
pub struct Response {
    pub status: u16,
    pub body: Vec<u8>,
}

/// The sixteen hex digits, lowercase.
pub open spec fn hex_digits() -> Seq<char> {
    seq!['0', '1', '2', '3', '4', '5', '6', '7', '8', '9', 'a', 'b', 'c', 'd', 'e', 'f']
}

/// `bytes` in hex: two lowercase digits per byte, high nibble first.
pub open spec fn hex_of(bytes: Seq<u8>) -> Seq<char> {
    Seq::new(
        2 * bytes.len(),
        |i: int|
            hex_digits()[if i % 2 == 0 {
                bytes[i / 2] as int / 16
            } else {
                bytes[i / 2] as int % 16
            }],
    )
}

/// `hex::encode`: every byte becomes two digits out of `0123456789abcdef`,
/// the high nibble first, in the order of the input.
#[verifier::external_body]
fn hex_encode(bytes: &[u8]) -> (text: String)
    ensures
        text@ == hex_of(bytes@),
{
    hex::encode(bytes)
}

/// Whether a request to `path` asks for the digest.
pub fn wants_hash(path: &str) -> (wanted: bool)
    ensures
        wanted == (path@ == "/hash"@),
{
    str_eq(path, "/hash")
}

/// What a request calls for, decided before anything is sent upstream.
#[derive(Debug, PartialEq, Eq)]
pub enum Plan {
    /// Echo the message; no digest was asked for.
    Echo,
    /// Send this frame upstream and answer with the digest that comes back.
    Hash(Vec<u8>),
    /// Refuse: a digest was asked for and the message is too long to send.
    Refuse,
}

/// Decides what a request to `path` with the given message calls for. Only
/// a request to `/hash` is hashed, and only if its message, in bytes, fits
/// the length prefix.
pub fn plan(path: &str, message: &str) -> (plan: Plan)
    ensures
        match plan {
            Plan::Echo => path@ != "/hash"@,
            Plan::Hash(frame) => path@ == "/hash"@ && encode_utf8(message@).len() <= MAX_MESSAGE_LEN
                && frame@ == frame_of(encode_utf8(message@)),
            Plan::Refuse => path@ == "/hash"@ && encode_utf8(message@).len() > MAX_MESSAGE_LEN,
        },
{
    if !wants_hash(path) {
        return Plan::Echo;
    }
    match request_frame(message.as_bytes()) {
        Some(frame) => Plan::Hash(frame),
        None => Plan::Refuse,
    }
}

/// The answer to a request: its message, and the digest in hex if one was
/// obtained.
pub fn answer(input: Input, digest: Option<[u8; 32]>) -> (out: Output)
    ensures
        out.message == input.message,
        match digest {
            Some(d) => out.hash matches Some(text) && text@ == hex_of(d@),
            None => out.hash is None,
        },
{
    match digest {
        Some(d) => {
            let text = hex_encode(d.as_slice());
            Output { message: input.message, hash: Some(text) }
        },
        None => Output { message: input.message, hash: None },
    }
}

/// Whether `r` is the answer to a request for the digest of `message` whose
/// exchange with the upstream resource ended in `got`.
pub open spec fn answers<E>(
    r: Result<Output, HashError<E>>,
    message: String,
    got: Result<[u8; 32], E>,
) -> bool {
    match got {
        Ok(digest) => r matches Ok(out) && out.message == message && (out.hash matches Some(text)
            && text@ == hex_of(digest@)),
        Err(e) => r == Err::<Output, HashError<E>>(HashError::Exchange(e)),
    }
}

/// Answers one request. Only a request to `/hash` reaches the upstream
/// resource: its message is hashed through `exchange` and the digest is
/// returned in hex. Any other path echoes the message without a digest and
/// leaves `exchange` alone.
pub fn digest_handler<E, F: FnOnce(Vec<u8>) -> Result<[u8; 32], E>>(
    path: &str,
    input: Input,
    exchange: F,
) -> (r: Result<Output, HashError<E>>)
    requires
        path@ == "/hash"@ && encode_utf8(input.message@).len() <= MAX_MESSAGE_LEN ==> forall|
            frame: Vec<u8>,
        |
            frame@ == frame_of(encode_utf8(input.message@)) ==> exchange.requires((frame,)),
    ensures
        path@ != "/hash"@ ==> (r matches Ok(out) && out.message == input.message && out.hash
            is None),
        path@ == "/hash"@ && encode_utf8(input.message@).len() > MAX_MESSAGE_LEN ==> r == Err::<
            Output,
            HashError<E>,
        >(HashError::TooLong),
        path@ == "/hash"@ && encode_utf8(input.message@).len() <= MAX_MESSAGE_LEN ==> exists|
            frame: Vec<u8>,
            got: Result<[u8; 32], E>,
        |
            frame@ == frame_of(encode_utf8(input.message@)) && #[trigger] exchange.ensures(
                (frame,),
                got,
            ) && answers(r, input.message, got),
{
    if wants_hash(path) {
        match hash_value(input.message.as_str().as_bytes(), exchange) {
            Ok(digest) => Ok(answer(input, Some(digest))),
            Err(HashError::TooLong) => Err(HashError::TooLong),
            Err(HashError::Exchange(e)) => Err(HashError::Exchange(e)),
        }
    } else {
        Ok(answer(input, None))
    }
}

/// The text sent to the client for a failed request: the fixed sentence for
/// a message that is too long, and what `describe` makes of any other
/// failure.
pub fn refusal_text<E, D: FnOnce(E) -> String>(error: HashError<E>, describe: D) -> (text: String)
    requires
        error matches HashError::Exchange(e) ==> describe.requires((e,)),
    ensures
        match error {
            HashError::TooLong => text@ == "Message length exceeds 65535 bytes"@,
            HashError::Exchange(e) => describe.ensures((e,), text),
        },
{
    match error {
        HashError::TooLong => too_long_message(),
        HashError::Exchange(e) => describe(e),
    }
}

/// Turns the handler's outcome into a response. An answer is sent as it
/// is; a failure is reported to the client as a bad request that carries
/// the failure's text, and goes no further.
pub fn handle_request(outcome: Result<Vec<u8>, String>) -> (response: Response)
    ensures
        match outcome {
            Ok(body) => response.status == STATUS_OK && response.body == body,
            Err(text) => response.status == STATUS_BAD_REQUEST && response.body@ == encode_utf8(
                text@,
            ),
        },
{
    match outcome {
        Ok(body) => Response { status: STATUS_OK, body },
        Err(text) => Response { status: STATUS_BAD_REQUEST, body: text.as_str().as_bytes_vec() },
    }
}

} // verus!
