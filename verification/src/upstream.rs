//! The wire protocol of the upstream hashing resource, from both ends.
//!
//! A request is a two-byte little-endian length followed by that many
//! message bytes; the reply is a 32-byte digest. A length of zero ends the
//! session and is not answered. Reading and writing the stream is the
//! caller's business: the requester side frames and checks, the service
//! side is a state machine fed with the bytes that were read.

use sha2::Digest;
use sha2::Sha256;
use vstd::prelude::*;

verus! {

/// Longest message the length prefix can announce.
pub const MAX_MESSAGE_LEN: usize = 65535;

/// Size of the reply to one request.
pub const DIGEST_LEN: usize = 32;

/// Size of the length prefix.
pub const PREFIX_LEN: usize = 2;

/// The SHA-256 digest of `data`, as `sha2` computes it.
pub uninterp spec fn sha256_of(data: Seq<u8>) -> Seq<u8>;

/// `sha2::Sha256::digest` on the whole input in one call. The digest is a
/// function of the input bytes alone.
#[verifier::external_body]
fn sha256(data: &[u8]) -> (digest: [u8; 32])
    ensures
        digest@ == sha256_of(data@),
{
    Sha256::digest(data).into()
}

/// The two bytes that announce a message of `len` bytes, low byte first.
pub open spec fn length_prefix(len: int) -> Seq<u8> {
    seq![(len % 256) as u8, (len / 256) as u8]
}

/// The length that a two-byte prefix announces.
pub open spec fn announced(prefix: Seq<u8>) -> int {
    prefix[0] as int + 256 * (prefix[1] as int)
}

/// A request as it goes over the wire.
pub open spec fn frame_of(message: Seq<u8>) -> Seq<u8> {
    length_prefix(message.len() as int) + message
}

/// Why no digest came back.
#[derive(Debug, PartialEq, Eq)]
pub enum HashError<E> {
    /// The message is longer than [`MAX_MESSAGE_LEN`] bytes. Nothing was
    /// sent.
    TooLong,
    /// The exchange with the upstream resource failed.
    Exchange(E),
}

impl<E> HashError<E> {
    /// Whether the message was refused for its length.
    pub fn is_too_long(&self) -> (b: bool)
        ensures
            b == (self is TooLong),
    {
        match self {
            HashError::TooLong => true,
            HashError::Exchange(_) => false,
        }
    }
}

/// What the requester is told when its message does not fit the prefix.
pub fn too_long_message() -> (text: String)
    ensures
        text@ == "Message length exceeds 65535 bytes"@,
{
    "Message length exceeds 65535 bytes".to_owned()
}

/// Frames `value` for the wire, or refuses it when the prefix cannot
/// announce its length.
pub fn request_frame(value: &[u8]) -> (r: Option<Vec<u8>>)
    ensures
        r is Some <==> value@.len() <= MAX_MESSAGE_LEN,
        r matches Some(frame) ==> frame@ == frame_of(value@),
{
    let len: usize = value.len();
    if len > MAX_MESSAGE_LEN {
        return None;
    }
    let mut frame: Vec<u8> = Vec::new();
    frame.push((len % 256) as u8);
    frame.push((len / 256) as u8);
    let mut i: usize = 0;
    while i < len
        invariant
            i <= len,
            len == value@.len(),
            frame@ == length_prefix(len as int) + value@.take(i as int),
        decreases len - i,
    {
        frame.push(value[i]);
        i = i + 1;
    }
    Some(frame)
}

/// What the exchange itself returned, read off the result of
/// [`hash_value`]; nothing if the message was refused before any exchange.
pub open spec fn exchanged<E>(r: Result<[u8; 32], HashError<E>>) -> Option<Result<[u8; 32], E>> {
    match r {
        Ok(digest) => Some(Ok(digest)),
        Err(HashError::Exchange(e)) => Some(Err(e)),
        Err(HashError::TooLong) => None,
    }
}

/// Asks the upstream resource for the digest of `value`. The length is
/// checked first: a message over [`MAX_MESSAGE_LEN`] bytes is refused and
/// `exchange` is not run. Otherwise `exchange` gets the framed request once;
/// it is expected to obtain a connection, write the frame and read the
/// 32-byte reply, and what it returns is passed on.
pub fn hash_value<E, F: FnOnce(Vec<u8>) -> Result<[u8; 32], E>>(value: &[u8], exchange: F) -> (r:
    Result<[u8; 32], HashError<E>>)
    requires
        value@.len() <= MAX_MESSAGE_LEN ==> forall|frame: Vec<u8>|
            frame@ == frame_of(value@) ==> exchange.requires((frame,)),
    ensures
        value@.len() > MAX_MESSAGE_LEN ==> r == Err::<[u8; 32], HashError<E>>(HashError::TooLong),
        value@.len() <= MAX_MESSAGE_LEN ==> exchanged(r) is Some && exists|frame: Vec<u8>|
            frame@ == frame_of(value@) && #[trigger] exchange.ensures(
                (frame,),
                exchanged(r).unwrap(),
            ),
{
    match request_frame(value) {
        None => Err(HashError::TooLong),
        Some(frame) => {
            let ghost sent = frame;
            let r = match exchange(frame) {
                Ok(digest) => Ok(digest),
                Err(e) => Err(HashError::Exchange(e)),
            };
            assert(exchange.ensures((sent,), exchanged(r).unwrap()));
            r
        },
    }
}

/// What the service is waiting for.
#[derive(Clone, Copy, PartialEq, Eq, Structural, Debug)]
pub enum Session {
    /// The two bytes of the next length prefix.
    Length,
    /// The message the last prefix announced, of this many bytes.
    Payload(u16),
    /// Nothing: the session is over and the connection can be closed.
    Ended,
}

/// One move of the service.
#[derive(Debug, PartialEq, Eq)]
pub struct Served {
    /// What the service waits for next.
    pub next: Session,
    /// The digest to write before reading on, if a message was completed.
    pub reply: Option<[u8; 32]>,
}

/// The number of bytes to read before the next call of [`serve`].
pub open spec fn wanted_of(state: Session) -> nat {
    match state {
        Session::Length => PREFIX_LEN as nat,
        Session::Payload(len) => len as nat,
        Session::Ended => 0,
    }
}

/// The state after `input` arrived in `state`.
pub open spec fn next_of(state: Session, input: Seq<u8>) -> Session {
    match state {
        Session::Length => if input.len() == PREFIX_LEN && announced(input) != 0 {
            Session::Payload(announced(input) as u16)
        } else {
            Session::Ended
        },
        Session::Payload(len) => if input.len() == len {
            Session::Length
        } else {
            Session::Ended
        },
        Session::Ended => Session::Ended,
    }
}

/// The digest owed once `input` arrived in `state`, if any.
pub open spec fn reply_of(state: Session, input: Seq<u8>) -> Option<Seq<u8>> {
    match state {
        Session::Payload(len) => if input.len() == len {
            Some(sha256_of(input))
        } else {
            None
        },
        _ => None,
    }
}

/// The number of bytes to read before the next call of [`serve`].
pub fn wanted(state: Session) -> (n: usize)
    ensures
        n == wanted_of(state),
{
    match state {
        Session::Length => PREFIX_LEN,
        Session::Payload(len) => len as usize,
        Session::Ended => 0,
    }
}

/// Advances the service by the bytes just read. A prefix of zero ends the
/// session; any other prefix asks for that many message bytes; a complete
/// message is answered with its digest and the service waits for the next
/// prefix. Input of any other size than [`wanted`] ends the session
/// unanswered.
pub fn serve(state: Session, input: &[u8]) -> (served: Served)
    ensures
        served.next == next_of(state, input@),
        match served.reply {
            Some(digest) => reply_of(state, input@) == Some(digest@),
            None => reply_of(state, input@) is None,
        },
{
    match state {
        Session::Length => {
            if input.len() != PREFIX_LEN {
                return Served { next: Session::Ended, reply: None };
            }
            let len: u16 = input[0] as u16 + 256 * (input[1] as u16);
            if len == 0 {
                Served { next: Session::Ended, reply: None }
            } else {
                Served { next: Session::Payload(len), reply: None }
            }
        },
        Session::Payload(len) => {
            if input.len() != len as usize {
                return Served { next: Session::Ended, reply: None };
            }
            Served { next: Session::Length, reply: Some(sha256(input)) }
        },
        Session::Ended => Served { next: Session::Ended, reply: None },
    }
}

/// The prefix says how long the message is: what the requester announces is
/// what the service reads.
pub proof fn lemma_prefix_round_trip(len: int)
    requires
        0 <= len <= MAX_MESSAGE_LEN,
    ensures
        length_prefix(len).len() == PREFIX_LEN,
        announced(length_prefix(len)) == len,
{
}

/// A service fed the frame of a message that is neither empty nor too long
/// replies with the SHA-256 digest of exactly that message and is ready for
/// the next request. The frame of an empty message ends the session
/// unanswered.
pub proof fn lemma_frame_is_served(message: Seq<u8>)
    requires
        message.len() <= MAX_MESSAGE_LEN,
    ensures
        frame_of(message).take(PREFIX_LEN as int) == length_prefix(message.len() as int),
        frame_of(message).skip(PREFIX_LEN as int) == message,
        message.len() > 0 ==> {
            let awaiting = next_of(Session::Length, length_prefix(message.len() as int));
            &&& awaiting == Session::Payload(message.len() as u16)
            &&& wanted_of(awaiting) == message.len()
            &&& reply_of(awaiting, message) == Some(sha256_of(message))
            &&& next_of(awaiting, message) == Session::Length
        },
        message.len() == 0 ==> next_of(Session::Length, length_prefix(0)) == Session::Ended,
{
    lemma_prefix_round_trip(message.len() as int);
}

} // verus!
