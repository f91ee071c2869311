//! The wire format: plaintext payloads exchanged inside the encrypted tunnel,
//! the 4-byte big-endian length prefix that frames packets on a TCP stream,
//! the public-key frame of the handshake, and the retry decision of a
//! non-blocking write.

use vstd::prelude::*;
use vstd::slice::*;
use vstd::utf8::*;
use crate::text::utf8_to_string;

verus! {

broadcast use {encode_utf8_valid_utf8, encode_utf8_decode_utf8};

/// A chat message (UTF-8 text).
pub const TAG_TEXT: u8 = 0x01;
/// The announcement of an incoming file: 8-byte size, then the UTF-8 name.
pub const TAG_FILE_START: u8 = 0x02;
/// One chunk of file data: 4-byte chunk index, then the data.
pub const TAG_FILE_CHUNK: u8 = 0x03;
/// The end of the current file.
pub const TAG_FILE_COMPLETE: u8 = 0x04;
/// The peer leaves the session.
pub const TAG_CLOSE: u8 = 0x05;
/// The sender's user name (UTF-8 text).
pub const TAG_USERNAME: u8 = 0x06;

/// A message of the chat protocol, as carried in one decrypted payload.
pub enum PeerMessage {
    Text(String),
    Username(String),
    FileStart { size: u64, filename: String },
    FileChunk { index: u32, data: Vec<u8> },
    FileComplete,
    Close,
}

/// The mathematical value of a [`PeerMessage`].
pub enum MessageValue {
    Text(Seq<char>),
    Username(Seq<char>),
    FileStart { size: u64, filename: Seq<char> },
    FileChunk { index: u32, data: Seq<u8> },
    FileComplete,
    Close,
}

impl View for PeerMessage {
    type V = MessageValue;

    open spec fn view(&self) -> MessageValue {
        match self {
            PeerMessage::Text(t) => MessageValue::Text(t@),
            PeerMessage::Username(n) => MessageValue::Username(n@),
            PeerMessage::FileStart { size, filename } => MessageValue::FileStart {
                size: *size,
                filename: filename@,
            },
            PeerMessage::FileChunk { index, data } => MessageValue::FileChunk {
                index: *index,
                data: data@,
            },
            PeerMessage::FileComplete => MessageValue::FileComplete,
            PeerMessage::Close => MessageValue::Close,
        }
    }
}

/// The big-endian bytes of a `u32` (`u32::to_be_bytes`).
pub open spec fn be32_bytes(v: u32) -> Seq<u8> {
    seq![(v >> 24u32) as u8, (v >> 16u32) as u8, (v >> 8u32) as u8, v as u8]
}

/// The `u32` whose big-endian bytes are `b[0..4]` (`u32::from_be_bytes`).
pub open spec fn be32_value(b: Seq<u8>) -> u32 {
    ((b[0] as u32) << 24u32) | ((b[1] as u32) << 16u32) | ((b[2] as u32) << 8u32) | (b[3] as u32)
}

/// The big-endian bytes of a `u64` (`u64::to_be_bytes`).
pub open spec fn be64_bytes(v: u64) -> Seq<u8> {
    seq![
        (v >> 56u64) as u8,
        (v >> 48u64) as u8,
        (v >> 40u64) as u8,
        (v >> 32u64) as u8,
        (v >> 24u64) as u8,
        (v >> 16u64) as u8,
        (v >> 8u64) as u8,
        v as u8,
    ]
}

/// The `u64` whose big-endian bytes are `b[0..8]` (`u64::from_be_bytes`).
pub open spec fn be64_value(b: Seq<u8>) -> u64 {
    ((b[0] as u64) << 56u64) | ((b[1] as u64) << 48u64) | ((b[2] as u64) << 40u64) | ((
    b[3] as u64) << 32u64) | ((b[4] as u64) << 24u64) | ((b[5] as u64) << 16u64) | ((
    b[6] as u64) << 8u64) | (b[7] as u64)
}

/// Reading back the big-endian bytes of a `u32` gives the number.
pub proof fn lemma_be32_roundtrip(v: u32)
    ensures
        be32_bytes(v).len() == 4,
        be32_value(be32_bytes(v)) == v,
{
    let b0 = (v >> 24u32) as u8;
    let b1 = (v >> 16u32) as u8;
    let b2 = (v >> 8u32) as u8;
    let b3 = v as u8;
    assert(((b0 as u32) << 24u32) | ((b1 as u32) << 16u32) | ((b2 as u32) << 8u32) | (b3 as u32)
        == v) by (bit_vector)
        requires
            b0 == (v >> 24u32) as u8,
            b1 == (v >> 16u32) as u8,
            b2 == (v >> 8u32) as u8,
            b3 == v as u8,
    ;
}

/// Reading back the big-endian bytes of a `u64` gives the number.
pub proof fn lemma_be64_roundtrip(v: u64)
    ensures
        be64_bytes(v).len() == 8,
        be64_value(be64_bytes(v)) == v,
{
    let b0 = (v >> 56u64) as u8;
    let b1 = (v >> 48u64) as u8;
    let b2 = (v >> 40u64) as u8;
    let b3 = (v >> 32u64) as u8;
    let b4 = (v >> 24u64) as u8;
    let b5 = (v >> 16u64) as u8;
    let b6 = (v >> 8u64) as u8;
    let b7 = v as u8;
    assert(((b0 as u64) << 56u64) | ((b1 as u64) << 48u64) | ((b2 as u64) << 40u64) | ((
    b3 as u64) << 32u64) | ((b4 as u64) << 24u64) | ((b5 as u64) << 16u64) | ((b6 as u64)
        << 8u64) | (b7 as u64) == v) by (bit_vector)
        requires
            b0 == (v >> 56u64) as u8,
            b1 == (v >> 48u64) as u8,
            b2 == (v >> 40u64) as u8,
            b3 == (v >> 32u64) as u8,
            b4 == (v >> 24u64) as u8,
            b5 == (v >> 16u64) as u8,
            b6 == (v >> 8u64) as u8,
            b7 == v as u8,
    ;
}

/// The payload bytes that carry a message.
pub open spec fn encode_message(m: MessageValue) -> Seq<u8> {
    match m {
        MessageValue::Text(t) => seq![TAG_TEXT] + encode_utf8(t),
        MessageValue::Username(n) => seq![TAG_USERNAME] + encode_utf8(n),
        MessageValue::FileStart { size, filename } => seq![TAG_FILE_START] + be64_bytes(size)
            + encode_utf8(filename),
        MessageValue::FileChunk { index, data } => seq![TAG_FILE_CHUNK] + be32_bytes(index)
            + data,
        MessageValue::FileComplete => seq![TAG_FILE_COMPLETE],
        MessageValue::Close => seq![TAG_CLOSE],
    }
}

/// The message a received payload carries, if any. An empty payload, an
/// unknown tag, text that is not UTF-8, or a file announcement or chunk too
/// short for its header carries none; trailing bytes after the tag of a
/// completion or close message are ignored.
pub open spec fn decode_message(p: Seq<u8>) -> Option<MessageValue> {
    if p.len() == 0 {
        None
    } else if p[0] == TAG_TEXT {
        if valid_utf8(p.skip(1)) {
            Some(MessageValue::Text(decode_utf8(p.skip(1))))
        } else {
            None
        }
    } else if p[0] == TAG_USERNAME {
        if valid_utf8(p.skip(1)) {
            Some(MessageValue::Username(decode_utf8(p.skip(1))))
        } else {
            None
        }
    } else if p[0] == TAG_FILE_START {
        if p.len() >= 9 && valid_utf8(p.skip(9)) {
            Some(
                MessageValue::FileStart {
                    size: be64_value(p.subrange(1, 9)),
                    filename: decode_utf8(p.skip(9)),
                },
            )
        } else {
            None
        }
    } else if p[0] == TAG_FILE_CHUNK {
        if p.len() >= 5 {
            Some(MessageValue::FileChunk { index: be32_value(p.subrange(1, 5)), data: p.skip(5) })
        } else {
            None
        }
    } else if p[0] == TAG_FILE_COMPLETE {
        Some(MessageValue::FileComplete)
    } else if p[0] == TAG_CLOSE {
        Some(MessageValue::Close)
    } else {
        None
    }
}

/// Every message survives encoding and decoding: the receiver reads what
/// the sender wrote.
pub proof fn lemma_decode_encode(m: MessageValue)
    ensures
        decode_message(encode_message(m)) == Some(m),
{
    let p = encode_message(m);
    match m {
        MessageValue::Text(t) => {
            assert(p.skip(1) =~= encode_utf8(t));
        },
        MessageValue::Username(n) => {
            assert(p.skip(1) =~= encode_utf8(n));
        },
        MessageValue::FileStart { size, filename } => {
            lemma_be64_roundtrip(size);
            assert(p.subrange(1, 9) =~= be64_bytes(size));
            assert(p.skip(9) =~= encode_utf8(filename));
        },
        MessageValue::FileChunk { index, data } => {
            lemma_be32_roundtrip(index);
            assert(p.subrange(1, 5) =~= be32_bytes(index));
            assert(p.skip(5) =~= data);
        },
        MessageValue::FileComplete => {},
        MessageValue::Close => {},
    }
}

/// Appends every byte of `s` to `v`.
fn append_bytes(v: &mut Vec<u8>, s: &[u8])
    ensures
        final(v)@ == old(v)@ + s@,
{
    let mut i: usize = 0;
    while i < s.len()
        invariant
            i <= s@.len(),
            v@ == old(v)@ + s@.subrange(0, i as int),
        decreases s@.len() - i,
    {
        assert(s@.subrange(0, i + 1) =~= s@.subrange(0, i as int).push(s@[i as int]));
        v.push(s[i]);
        i = i + 1;
    }
    assert(s@.subrange(0, s@.len() as int) =~= s@);
}

/// The big-endian bytes of `v`.
pub fn be32_encode(v: u32) -> (r: [u8; 4])
    ensures
        r@ == be32_bytes(v),
{
    let r = [(v >> 24u32) as u8, (v >> 16u32) as u8, (v >> 8u32) as u8, v as u8];
    assert(r@ =~= be32_bytes(v));
    r
}

/// The big-endian bytes of `v`.
pub fn be64_encode(v: u64) -> (r: [u8; 8])
    ensures
        r@ == be64_bytes(v),
{
    let r = [
        (v >> 56u64) as u8,
        (v >> 48u64) as u8,
        (v >> 40u64) as u8,
        (v >> 32u64) as u8,
        (v >> 24u64) as u8,
        (v >> 16u64) as u8,
        (v >> 8u64) as u8,
        v as u8,
    ];
    assert(r@ =~= be64_bytes(v));
    r
}

/// The `u32` stored big-endian in `b[at..at + 4]`.
pub fn be32_decode(b: &[u8], at: usize) -> (r: u32)
    requires
        at + 4 <= b@.len(),
    ensures
        r == be32_value(b@.subrange(at as int, at + 4)),
{
    ((b[at] as u32) << 24u32) | ((b[at + 1] as u32) << 16u32) | ((b[at + 2] as u32) << 8u32) | (
    b[at + 3] as u32)
}

/// The `u64` stored big-endian in `b[at..at + 8]`.
pub fn be64_decode(b: &[u8], at: usize) -> (r: u64)
    requires
        at + 8 <= b@.len(),
    ensures
        r == be64_value(b@.subrange(at as int, at + 8)),
{
    ((b[at] as u64) << 56u64) | ((b[at + 1] as u64) << 48u64) | ((b[at + 2] as u64) << 40u64) | ((
    b[at + 3] as u64) << 32u64) | ((b[at + 4] as u64) << 24u64) | ((b[at + 5] as u64) << 16u64)
        | ((b[at + 6] as u64) << 8u64) | (b[at + 7] as u64)
}

/// The payload of a chat message.
pub fn text_payload(text: &str) -> (p: Vec<u8>)
    ensures
        p@ == encode_message(MessageValue::Text(text@)),
{
    let mut p: Vec<u8> = Vec::new();
    p.push(TAG_TEXT);
    append_bytes(&mut p, text.as_bytes());
    p
}

/// The payload that announces the sender's user name.
pub fn username_payload(name: &str) -> (p: Vec<u8>)
    ensures
        p@ == encode_message(MessageValue::Username(name@)),
{
    let mut p: Vec<u8> = Vec::new();
    p.push(TAG_USERNAME);
    append_bytes(&mut p, name.as_bytes());
    p
}

/// The payload that announces a file of `size` bytes named `filename`.
pub fn file_start_payload(size: u64, filename: &str) -> (p: Vec<u8>)
    ensures
        p@ == encode_message(MessageValue::FileStart { size, filename: filename@ }),
{
    let mut p: Vec<u8> = Vec::new();
    p.push(TAG_FILE_START);
    let b = be64_encode(size);
    append_bytes(&mut p, &b);
    append_bytes(&mut p, filename.as_bytes());
    p
}

/// The payload that carries chunk number `index` of a file.
pub fn file_chunk_payload(index: u32, data: &[u8]) -> (p: Vec<u8>)
    ensures
        p@ == encode_message(MessageValue::FileChunk { index, data: data@ }),
{
    let mut p: Vec<u8> = Vec::new();
    p.push(TAG_FILE_CHUNK);
    let b = be32_encode(index);
    append_bytes(&mut p, &b);
    append_bytes(&mut p, data);
    p
}

/// The payload that ends the current file.
pub fn file_complete_payload() -> (p: Vec<u8>)
    ensures
        p@ == encode_message(MessageValue::FileComplete),
{
    let mut p: Vec<u8> = Vec::new();
    p.push(TAG_FILE_COMPLETE);
    assert(p@ =~= seq![TAG_FILE_COMPLETE]);
    p
}

/// The payload with which a peer leaves the session.
pub fn close_payload() -> (p: Vec<u8>)
    ensures
        p@ == encode_message(MessageValue::Close),
{
    let mut p: Vec<u8> = Vec::new();
    p.push(TAG_CLOSE);
    assert(p@ =~= seq![TAG_CLOSE]);
    p
}

/// The UTF-8 text in `p[from..]`, if valid.
fn text_after(p: &[u8], from: usize) -> (r: Option<String>)
    requires
        from <= p@.len(),
    ensures
        r is Some <==> valid_utf8(p@.skip(from as int)),
        r matches Some(s) ==> s@ == decode_utf8(p@.skip(from as int)),
{
    let rest = slice_to_vec(slice_subrange(p, from, p.len()));
    assert(rest@ =~= p@.skip(from as int));
    utf8_to_string(rest)
}

/// The message a received payload carries, if any.
pub fn parse_payload(p: &[u8]) -> (r: Option<PeerMessage>)
    ensures
        match r {
            Some(m) => decode_message(p@) == Some(m@),
            None => decode_message(p@) is None,
        },
{
    let n = p.len();
    if n == 0 {
        return None;
    }
    let tag = p[0];
    if tag == TAG_TEXT {
        match text_after(p, 1) {
            Some(t) => Some(PeerMessage::Text(t)),
            None => None,
        }
    } else if tag == TAG_USERNAME {
        match text_after(p, 1) {
            Some(t) => Some(PeerMessage::Username(t)),
            None => None,
        }
    } else if tag == TAG_FILE_START {
        if n < 9 {
            return None;
        }
        let size = be64_decode(p, 1);
        match text_after(p, 9) {
            Some(filename) => Some(PeerMessage::FileStart { size, filename }),
            None => None,
        }
    } else if tag == TAG_FILE_CHUNK {
        if n < 5 {
            return None;
        }
        let index = be32_decode(p, 1);
        let data = slice_to_vec(slice_subrange(p, 5, n));
        assert(data@ =~= p@.skip(5));
        Some(PeerMessage::FileChunk { index, data })
    } else if tag == TAG_FILE_COMPLETE {
        Some(PeerMessage::FileComplete)
    } else if tag == TAG_CLOSE {
        Some(PeerMessage::Close)
    } else {
        None
    }
}

/// The 4-byte header that precedes a packet of `len` bytes on a TCP stream:
/// `len` cut to 32 bits (the `as u32` cast) in big-endian order.
pub fn frame_header(len: usize) -> (r: [u8; 4])
    ensures
        r@ == be32_bytes(len as u32),
{
    be32_encode(len as u32)
}

/// The packet length announced by a frame header.
pub fn frame_length(header: [u8; 4]) -> (r: usize)
    ensures
        r == be32_value(header@),
{
    let h: &[u8] = &header;
    be32_decode(h, 0) as usize
}

/// A header announces the length it was made for, for every length that
/// fits in 32 bits.
pub proof fn lemma_frame_roundtrip(len: usize)
    requires
        len <= u32::MAX,
    ensures
        be32_value(be32_bytes(len as u32)) == len,
{
    lemma_be32_roundtrip(len as u32);
}

/// The length of an X25519 public key in bytes.
pub const PUBLIC_KEY_LEN: usize = 32;

/// The peer's public key, if a handshake frame holds exactly one.
pub fn handshake_key(frame: &[u8]) -> (r: Option<[u8; 32]>)
    ensures
        r is Some <==> frame@.len() == PUBLIC_KEY_LEN,
        r matches Some(k) ==> k@ == frame@,
{
    if frame.len() != PUBLIC_KEY_LEN {
        return None;
    }
    let mut k = [0u8; 32];
    let mut i: usize = 0;
    while i < PUBLIC_KEY_LEN
        invariant
            i <= PUBLIC_KEY_LEN,
            frame@.len() == PUBLIC_KEY_LEN,
            forall|j: int| 0 <= j < i ==> k@[j] == frame@[j],
        decreases PUBLIC_KEY_LEN - i,
    {
        k[i] = frame[i];
        i = i + 1;
    }
    assert(k@ =~= frame@);
    Some(k)
}

/// What one attempt to write to a non-blocking stream reported.
pub enum WriteOutcome {
    /// The stream accepted this many bytes.
    Written(usize),
    /// The stream was not ready.
    WouldBlock,
    /// Any other error.
    Failed,
}

/// What to do after one attempt to write the rest of a buffer.
#[derive(PartialEq, Eq, Structural)]
pub enum WriteStep {
    /// Go on with this many bytes left (none left: the buffer is written).
    Advance { remaining: usize },
    /// Wait a moment and try again.
    Retry,
    /// The stream accepted nothing: the buffer cannot be written whole.
    WriteZero,
    /// The write failed.
    Fail,
}

/// The decision after one write attempt on a buffer with `remaining` bytes
/// left: a write of zero bytes is an error, a write of `n` bytes leaves
/// `remaining - n`, a stream that would block is tried again.
pub fn write_step(remaining: usize, outcome: WriteOutcome) -> (r: WriteStep)
    requires
        outcome matches WriteOutcome::Written(n) ==> n <= remaining,
    ensures
        r == match outcome {
            WriteOutcome::Written(n) => if n == 0 {
                WriteStep::WriteZero
            } else {
                WriteStep::Advance { remaining: (remaining - n) as usize }
            },
            WriteOutcome::WouldBlock => WriteStep::Retry,
            WriteOutcome::Failed => WriteStep::Fail,
        },
{
    match outcome {
        WriteOutcome::Written(n) => {
            if n == 0 {
                WriteStep::WriteZero
            } else {
                WriteStep::Advance { remaining: remaining - n }
            }
        },
        WriteOutcome::WouldBlock => WriteStep::Retry,
        WriteOutcome::Failed => WriteStep::Fail,
    }
}

} // verus!
