//! File transfers. The receiving side is a state machine: each decrypted
//! payload, with the download in progress, decides what the program does
//! next. The sending side counts chunks and bytes.

use vstd::prelude::*;
use vstd::string::*;
use crate::text::{decimal_seq, push_decimal, push_text};
use crate::wire::{
    MessageValue,
    PeerMessage,
    decode_message,
    encode_message,
    file_chunk_payload,
    file_complete_payload,
    file_start_payload,
    lemma_decode_encode,
    parse_payload,
};

verus! {

/// A download in progress.
pub struct IncomingTransfer {
    pub filename: String,
    pub total_size: u64,
    pub bytes_written: u64,
}

/// The value of an [`IncomingTransfer`].
pub struct TransferValue {
    pub filename: Seq<char>,
    pub total_size: u64,
    pub bytes_written: u64,
}

impl View for IncomingTransfer {
    type V = TransferValue;

    open spec fn view(&self) -> TransferValue {
        TransferValue {
            filename: self.filename@,
            total_size: self.total_size,
            bytes_written: self.bytes_written,
        }
    }
}

/// What the receiving side knows between packets: the download in
/// progress, if any.
pub struct ReceiveState {
    pub current: Option<IncomingTransfer>,
}

impl View for ReceiveState {
    type V = Option<TransferValue>;

    open spec fn view(&self) -> Option<TransferValue> {
        match self.current {
            Some(t) => Some(t@),
            None => None,
        }
    }
}

/// What the program does with one decrypted payload.
pub enum ReceiveAction {
    /// Nothing.
    Ignore,
    /// Show a chat message from the peer.
    ShowMessage(String),
    /// The peer announced its user name.
    PeerName(String),
    /// Create (or truncate) the file at `path` for an announced download;
    /// when that succeeds, [`ReceiveState::start_download`] records it.
    OpenDownload { path: String, filename: String, size: u64 },
    /// Append these bytes to the open download; when that succeeds,
    /// [`ReceiveState::record_written`] counts them.
    WriteChunk(Vec<u8>),
    /// The download of this file is complete.
    FinishDownload(String),
    /// The peer left: stop receiving.
    PeerClosed,
}

/// The value of a [`ReceiveAction`].
pub enum ActionValue {
    Ignore,
    ShowMessage(Seq<char>),
    PeerName(Seq<char>),
    OpenDownload { path: Seq<char>, filename: Seq<char>, size: u64 },
    WriteChunk(Seq<u8>),
    FinishDownload(Seq<char>),
    PeerClosed,
}

impl View for ReceiveAction {
    type V = ActionValue;

    open spec fn view(&self) -> ActionValue {
        match self {
            ReceiveAction::Ignore => ActionValue::Ignore,
            ReceiveAction::ShowMessage(t) => ActionValue::ShowMessage(t@),
            ReceiveAction::PeerName(n) => ActionValue::PeerName(n@),
            ReceiveAction::OpenDownload { path, filename, size } => ActionValue::OpenDownload {
                path: path@,
                filename: filename@,
                size: *size,
            },
            ReceiveAction::WriteChunk(d) => ActionValue::WriteChunk(d@),
            ReceiveAction::FinishDownload(f) => ActionValue::FinishDownload(f@),
            ReceiveAction::PeerClosed => ActionValue::PeerClosed,
        }
    }
}

/// Where a download named `filename` is saved.
pub open spec fn download_path_seq(filename: Seq<char>) -> Seq<char> {
    "downloaded_"@ + filename
}

/// One step of the receiving side: the state after a payload that carries
/// `m`, and the action it calls for. Chunks and completions without a
/// download in progress are ignored; a completion ends the download.
pub open spec fn receive_step(state: Option<TransferValue>, m: Option<MessageValue>) -> (
    Option<TransferValue>,
    ActionValue,
) {
    match m {
        None => (state, ActionValue::Ignore),
        Some(MessageValue::Text(t)) => (state, ActionValue::ShowMessage(t)),
        Some(MessageValue::Username(n)) => (state, ActionValue::PeerName(n)),
        Some(MessageValue::FileStart { size, filename }) => (
            state,
            ActionValue::OpenDownload { path: download_path_seq(filename), filename, size },
        ),
        Some(MessageValue::FileChunk { index, data }) => match state {
            Some(_) => (state, ActionValue::WriteChunk(data)),
            None => (state, ActionValue::Ignore),
        },
        Some(MessageValue::FileComplete) => match state {
            Some(t) => (None, ActionValue::FinishDownload(t.filename)),
            None => (state, ActionValue::Ignore),
        },
        Some(MessageValue::Close) => (state, ActionValue::PeerClosed),
    }
}

/// The receiver follows what the sender encodes: a chat message is shown,
/// a user name is taken as the peer's, an announced file is opened as its
/// download, each chunk of a download in progress is written as sent, the
/// completion ends the download under its name, and a close ends the
/// session; none of these but the completion changes the receiving state.
pub proof fn lemma_receiver_follows_sender(
    state: Option<TransferValue>,
    text: Seq<char>,
    size: u64,
    filename: Seq<char>,
    index: u32,
    data: Seq<u8>,
)
    ensures
        receive_step(state, decode_message(encode_message(MessageValue::Text(text)))) == (
            state,
            ActionValue::ShowMessage(text),
        ),
        receive_step(state, decode_message(encode_message(MessageValue::Username(text)))) == (
            state,
            ActionValue::PeerName(text),
        ),
        receive_step(
            state,
            decode_message(encode_message(MessageValue::FileStart { size, filename })),
        ) == (
            state,
            ActionValue::OpenDownload { path: download_path_seq(filename), filename, size },
        ),
        state is Some ==> receive_step(
            state,
            decode_message(encode_message(MessageValue::FileChunk { index, data })),
        ) == (state, ActionValue::WriteChunk(data)),
        state matches Some(t) ==> receive_step(
            state,
            decode_message(encode_message(MessageValue::FileComplete)),
        ) == (None::<TransferValue>, ActionValue::FinishDownload(t.filename)),
        receive_step(state, decode_message(encode_message(MessageValue::Close))) == (
            state,
            ActionValue::PeerClosed,
        ),
{
    lemma_decode_encode(MessageValue::Text(text));
    lemma_decode_encode(MessageValue::Username(text));
    lemma_decode_encode(MessageValue::FileStart { size, filename });
    lemma_decode_encode(MessageValue::FileChunk { index, data });
    lemma_decode_encode(MessageValue::FileComplete);
    lemma_decode_encode(MessageValue::Close);
}

/// The final receiving state and the actions for a sequence of payloads,
/// one step after the other.
pub open spec fn receive_all(state: Option<TransferValue>, payloads: Seq<Seq<u8>>) -> (
    Option<TransferValue>,
    Seq<ActionValue>,
)
    decreases payloads.len(),
{
    if payloads.len() == 0 {
        (state, Seq::empty())
    } else {
        let step = receive_step(state, decode_message(payloads[0]));
        let rest = receive_all(step.0, payloads.drop_first());
        (rest.0, seq![step.1] + rest.1)
    }
}

/// The payloads that carry the chunks of a file, chunk `i` under index
/// `indices[i]`.
pub open spec fn chunk_payloads(indices: Seq<u32>, chunks: Seq<Seq<u8>>) -> Seq<Seq<u8>> {
    Seq::new(
        chunks.len(),
        |i: int| encode_message(MessageValue::FileChunk { index: indices[i], data: chunks[i] }),
    )
}

/// The bytes that the write actions append to the download, in order.
pub open spec fn written_bytes(actions: Seq<ActionValue>) -> Seq<u8>
    decreases actions.len(),
{
    if actions.len() == 0 {
        Seq::empty()
    } else {
        (match actions[0] {
            ActionValue::WriteChunk(d) => d,
            _ => Seq::<u8>::empty(),
        }) + written_bytes(actions.drop_first())
    }
}

/// A whole download: once a download is in progress, the chunk payloads
/// and the completion that the sender encodes make the receiver write each
/// chunk in turn and then finish the download under its name, after which no
/// download is in progress. The file holds exactly the sent chunks, in order
/// (the chunk indices play no part).
pub proof fn lemma_whole_transfer(t: TransferValue, indices: Seq<u32>, chunks: Seq<Seq<u8>>)
    requires
        indices.len() == chunks.len(),
    ensures
        receive_all(
            Some(t),
            chunk_payloads(indices, chunks).push(encode_message(MessageValue::FileComplete)),
        ).0 is None,
        receive_all(
            Some(t),
            chunk_payloads(indices, chunks).push(encode_message(MessageValue::FileComplete)),
        ).1 == Seq::new(chunks.len(), |i: int| ActionValue::WriteChunk(chunks[i])).push(
            ActionValue::FinishDownload(t.filename),
        ),
        written_bytes(
            receive_all(
                Some(t),
                chunk_payloads(indices, chunks).push(encode_message(MessageValue::FileComplete)),
            ).1,
        ) == chunks.flatten(),
    decreases chunks.len(),
{
    let complete = encode_message(MessageValue::FileComplete);
    let payloads = chunk_payloads(indices, chunks).push(complete);
    lemma_decode_encode(MessageValue::FileComplete);
    if chunks.len() == 0 {
        assert(payloads =~= seq![complete]);
        assert(payloads[0] == complete);
        assert(payloads.drop_first() =~= Seq::<Seq<u8>>::empty());
        assert(receive_all(None, payloads.drop_first()) == (
            None::<TransferValue>,
            Seq::<ActionValue>::empty(),
        ));
        let acts = receive_all(Some(t), payloads).1;
        assert(acts =~= seq![ActionValue::FinishDownload(t.filename)]);
        assert(acts.drop_first() =~= Seq::<ActionValue>::empty());
        assert(written_bytes(acts.drop_first()) == Seq::<u8>::empty());
        assert(written_bytes(acts) =~= Seq::<u8>::empty());
        assert(Seq::new(chunks.len(), |i: int| ActionValue::WriteChunk(chunks[i])).push(
            ActionValue::FinishDownload(t.filename),
        ) =~= seq![ActionValue::FinishDownload(t.filename)]);
    } else {
        lemma_decode_encode(MessageValue::FileChunk { index: indices[0], data: chunks[0] });
        let rest_payloads = chunk_payloads(indices.drop_first(), chunks.drop_first()).push(
            complete,
        );
        assert(payloads.drop_first() =~= rest_payloads);
        assert(payloads[0] == encode_message(
            MessageValue::FileChunk { index: indices[0], data: chunks[0] },
        ));
        lemma_whole_transfer(t, indices.drop_first(), chunks.drop_first());
        let acts = receive_all(Some(t), payloads).1;
        let rest_acts = receive_all(Some(t), rest_payloads).1;
        assert(acts == seq![ActionValue::WriteChunk(chunks[0])] + rest_acts);
        assert(acts =~= Seq::new(chunks.len(), |i: int| ActionValue::WriteChunk(chunks[i])).push(
            ActionValue::FinishDownload(t.filename),
        ));
        assert(acts.drop_first() =~= rest_acts);
        assert(written_bytes(acts) == chunks[0] + written_bytes(rest_acts));
        assert(chunks.flatten() == chunks.first() + chunks.drop_first().flatten());
    }
}

/// The text of the notice that a download has started.
pub open spec fn download_notice_seq(filename: Seq<char>, size: u64) -> Seq<char> {
    "[FILE] Downloading: "@ + filename + " ("@ + decimal_seq(size as nat) + " bytes)"@
}

/// `a` followed by `b`.
fn joined(a: &str, b: &str) -> (r: String)
    ensures
        r@ == a@ + b@,
{
    let mut s = String::from_str(a);
    push_text(&mut s, b);
    s
}

/// The file name under which a download is saved.
pub fn download_path(filename: &str) -> (r: String)
    ensures
        r@ == download_path_seq(filename@),
{
    joined("downloaded_", filename)
}

/// The notice that a download of `size` bytes has started.
pub fn download_notice(filename: &str, size: u64) -> (r: String)
    ensures
        r@ == download_notice_seq(filename@, size),
{
    let mut s = joined("[FILE] Downloading: ", filename);
    push_text(&mut s, " (");
    push_decimal(&mut s, size);
    push_text(&mut s, " bytes)");
    s
}

/// The notice that a file is being sent.
pub fn outgoing_notice(filename: &str) -> (r: String)
    ensures
        r@ == "[FILE] Outgoing file: "@ + filename@,
{
    joined("[FILE] Outgoing file: ", filename)
}

/// The notice that sending a file failed.
pub fn transfer_failed_notice(filename: &str) -> (r: String)
    ensures
        r@ == "[ERROR] Transfer failed: "@ + filename@,
{
    joined("[ERROR] Transfer failed: ", filename)
}

/// The notice that a file was sent whole.
pub fn transfer_done_notice(filename: &str) -> (r: String)
    ensures
        r@ == "[SUCCESS] Finished sending: "@ + filename@,
{
    joined("[SUCCESS] Finished sending: ", filename)
}

/// The notice that a file to send could not be opened.
pub fn open_failed_notice(path: &str) -> (r: String)
    ensures
        r@ == "[ERROR] Failed to open file: "@ + path@,
{
    joined("[ERROR] Failed to open file: ", path)
}

/// The notice that a file to send does not exist.
pub fn not_found_notice(path: &str) -> (r: String)
    ensures
        r@ == "[ERROR] File not found: "@ + path@,
{
    joined("[ERROR] File not found: ", path)
}

/// The notice that a packet from the peer could not be opened.
pub fn decrypt_failed_notice() -> (r: String)
    ensures
        r@ == "[WARN] Failed to decrypt packet"@,
{
    String::from_str("[WARN] Failed to decrypt packet")
}

/// The notice that the size of a file to send could not be read.
pub fn metadata_failed_notice() -> (r: String)
    ensures
        r@ == "[ERROR] Failed to read metadata"@,
{
    String::from_str("[ERROR] Failed to read metadata")
}

impl ReceiveState {
    /// No download in progress.
    pub fn new() -> (s: Self)
        ensures
            s@ is None,
    {
        ReceiveState { current: None }
    }

    /// Decides what a decrypted payload calls for, and ends the download
    /// when the payload completes it.
    pub fn on_payload(&mut self, plaintext: &[u8]) -> (r: ReceiveAction)
        ensures
            (final(self)@, r@) == receive_step(old(self)@, decode_message(plaintext@)),
    {
        match parse_payload(plaintext) {
            None => ReceiveAction::Ignore,
            Some(PeerMessage::Text(t)) => ReceiveAction::ShowMessage(t),
            Some(PeerMessage::Username(n)) => ReceiveAction::PeerName(n),
            Some(PeerMessage::FileStart { size, filename }) => {
                let path = download_path(filename.as_str());
                ReceiveAction::OpenDownload { path, filename, size }
            },
            Some(PeerMessage::FileChunk { index, data }) => {
                if self.current.is_some() {
                    ReceiveAction::WriteChunk(data)
                } else {
                    ReceiveAction::Ignore
                }
            },
            Some(PeerMessage::FileComplete) => {
                match self.current.take() {
                    Some(t) => ReceiveAction::FinishDownload(t.filename),
                    None => ReceiveAction::Ignore,
                }
            },
            Some(PeerMessage::Close) => ReceiveAction::PeerClosed,
        }
    }

    /// Records that the file for a download was opened: the download of
    /// `size` bytes named `filename` starts with nothing written, in place of
    /// any earlier one. Returns the notice to show.
    pub fn start_download(&mut self, filename: String, size: u64) -> (notice: String)
        ensures
            final(self)@ == Some(
                TransferValue { filename: filename@, total_size: size, bytes_written: 0 },
            ),
            notice@ == download_notice_seq(filename@, size),
    {
        let notice = download_notice(filename.as_str(), size);
        self.current = Some(IncomingTransfer { filename, total_size: size, bytes_written: 0 });
        notice
    }

    /// Counts `n` more bytes written to the download in progress; returns its
    /// name, the bytes written so far and the announced size.
    pub fn record_written(&mut self, n: u64) -> (r: (String, u64, u64))
        requires
            old(self)@ is Some,
            old(self)@->Some_0.bytes_written + n <= u64::MAX,
        ensures
            final(self)@ == Some(
                TransferValue {
                    bytes_written: (old(self)@->Some_0.bytes_written + n) as u64,
                    ..old(self)@->Some_0
                },
            ),
            r.0@ == old(self)@->Some_0.filename,
            r.1 == old(self)@->Some_0.bytes_written + n,
            r.2 == old(self)@->Some_0.total_size,
    {
        let t = self.current.take().unwrap();
        let written = t.bytes_written + n;
        let name = t.filename.clone();
        let total = t.total_size;
        self.current = Some(IncomingTransfer { filename: t.filename, total_size: total, bytes_written: written });
        (name, written, total)
    }
}

/// The size of the blocks in which a file is read and sent: 256 KiB.
pub const FILE_CHUNK_SIZE: usize = 262144;

/// A file being sent: the chunks and bytes that went out so far.
pub struct OutgoingTransfer {
    pub filename: String,
    pub file_size: u64,
    pub chunk_index: u32,
    pub bytes_sent: u64,
}

impl OutgoingTransfer {
    /// A transfer of `file_size` bytes named `filename`, with nothing sent.
    pub fn new(filename: String, file_size: u64) -> (t: Self)
        ensures
            t.filename@ == filename@,
            t.file_size == file_size,
            t.chunk_index == 0,
            t.bytes_sent == 0,
    {
        OutgoingTransfer { filename, file_size, chunk_index: 0, bytes_sent: 0 }
    }

    /// The payload that announces the file.
    pub fn start_payload(&self) -> (p: Vec<u8>)
        ensures
            p@ == encode_message(
                MessageValue::FileStart { size: self.file_size, filename: self.filename@ },
            ),
    {
        file_start_payload(self.file_size, self.filename.as_str())
    }

    /// The payload that carries the next chunk.
    pub fn chunk_payload(&self, data: &[u8]) -> (p: Vec<u8>)
        ensures
            p@ == encode_message(
                MessageValue::FileChunk { index: self.chunk_index, data: data@ },
            ),
    {
        file_chunk_payload(self.chunk_index, data)
    }

    /// Counts a chunk of `n` bytes that went out.
    pub fn record_sent(&mut self, n: u64)
        requires
            old(self).chunk_index < u32::MAX,
            old(self).bytes_sent + n <= u64::MAX,
        ensures
            final(self).chunk_index == old(self).chunk_index + 1,
            final(self).bytes_sent == old(self).bytes_sent + n,
            final(self).filename == old(self).filename,
            final(self).file_size == old(self).file_size,
    {
        self.chunk_index = self.chunk_index + 1;
        self.bytes_sent = self.bytes_sent + n;
    }

    /// The payload that ends the file.
    pub fn complete_payload(&self) -> (p: Vec<u8>)
        ensures
            p@ == encode_message(MessageValue::FileComplete),
    {
        file_complete_payload()
    }

    /// How the transfer ends: when every chunk went out, the completion
    /// payload to send and the success notice; after a failure, no payload
    /// and the failure notice.
    pub fn finish(&self, success: bool) -> (r: (Option<Vec<u8>>, String))
        ensures
            success ==> (r.0 matches Some(p) && p@ == encode_message(MessageValue::FileComplete)),
            success ==> r.1@ == "[SUCCESS] Finished sending: "@ + self.filename@,
            !success ==> r.0 is None,
            !success ==> r.1@ == "[ERROR] Transfer failed: "@ + self.filename@,
    {
        if success {
            (Some(self.complete_payload()), transfer_done_notice(self.filename.as_str()))
        } else {
            (None, transfer_failed_notice(self.filename.as_str()))
        }
    }
}

} // verus!
