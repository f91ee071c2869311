//! The command line and the commands typed in the chat: which mode the
//! program runs in, room codes, the relay address, user names, and what a
//! typed line asks for.

use rand::Rng;
use vstd::prelude::*;
use vstd::string::*;
use vstd::utf8::*;
use crate::text::{
    decimal_seq,
    decimal_text,
    has_infix,
    has_prefix,
    is_space_char,
    lemma_trim_line,
    lemma_trim_unpadded,
    push_char,
    push_text,
    contains_text,
    same_text,
    starts_with_text,
    trim_seq,
    trim_text,
};

verus! {

/// The relay used when `RELAY_SERVER` is not set.
pub const DEFAULT_RELAY: &'static str = "fsociety-qzjr.onrender.com";

/// The TCP port of the local (direct) mode.
pub const LOCAL_PORT: u16 = 8766;

/// What `char::is_numeric` returns: whether the character belongs to one of
/// Unicode's general categories for numbers.
pub uninterp spec fn spec_is_numeric(c: char) -> bool;

/// `char::is_numeric`. Its result is the name `spec_is_numeric`; among ASCII
/// characters exactly the ten digits are numeric.
#[verifier::external_body]
fn char_is_numeric(c: char) -> (b: bool)
    ensures
        b == spec_is_numeric(c),
        (c as u32) < 0x80 ==> (b <==> ('0' <= c <= '9')),
{
    c.is_numeric()
}

/// `rand::Rng::gen_range(100000..999999)` on `rand::thread_rng`: a random
/// number in that range.
#[verifier::external_body]
fn random_room_number() -> (r: u32)
    ensures
        100000 <= r < 999999,
{
    rand::thread_rng().gen_range(100000..999999)
}

/// A room code given on the command line is accepted when it is six bytes
/// long and every character is numeric.
pub open spec fn valid_room_code_seq(code: Seq<char>) -> bool {
    encode_utf8(code).len() == 6 && forall|i: int| 0 <= i < code.len() ==> spec_is_numeric(
        #[trigger] code[i],
    )
}

/// Whether a custom room code is accepted.
pub fn is_valid_room_code(code: &str) -> (r: bool)
    ensures
        r == valid_room_code_seq(code@),
{
    if code.as_bytes().len() != 6 {
        return false;
    }
    let n = code.unicode_len();
    let mut i: usize = 0;
    while i < n
        invariant
            i <= n,
            n == code@.len(),
            forall|j: int| 0 <= j < i ==> spec_is_numeric(#[trigger] code@[j]),
        decreases n - i,
    {
        if !char_is_numeric(code.get_char(i)) {
            return false;
        }
        i = i + 1;
    }
    true
}

/// A number in the `{:06}` format: decimal, padded with zeros to six digits.
pub open spec fn room_code_seq(n: nat) -> Seq<char> {
    let d = decimal_seq(n);
    if d.len() < 6 {
        Seq::new((6 - d.len()) as nat, |i: int| '0') + d
    } else {
        d
    }
}

/// The room code for a number.
pub fn format_room_code(n: u32) -> (r: String)
    ensures
        r@ == room_code_seq(n as nat),
{
    let digits = decimal_text(n as u64);
    let len = digits.as_str().unicode_len();
    let mut s = String::new();
    if len < 6 {
        let pad = 6 - len;
        let mut i: usize = 0;
        while i < pad
            invariant
                i <= pad,
                s@ == Seq::new(i as nat, |k: int| '0'),
            decreases pad - i,
        {
            push_char(&mut s, '0');
            i = i + 1;
            assert(s@ =~= Seq::new(i as nat, |k: int| '0'));
        }
    }
    push_text(&mut s, digits.as_str());
    s
}

/// A generated room code is six decimal digits.
pub proof fn lemma_room_code_six_digits(n: nat)
    requires
        100000 <= n < 999999,
    ensures
        room_code_seq(n).len() == 6,
        forall|i: int| 0 <= i < 6 ==> '0' <= #[trigger] room_code_seq(n)[i] <= '9',
{
    reveal_with_fuel(decimal_seq, 7);
    assert(decimal_seq(n).len() == 6);
}

/// A random room code: six decimal digits, from 100000 to 999998.
pub fn generate_room_code() -> (r: String)
    ensures
        exists|n: nat| 100000 <= n < 999999 && r@ == room_code_seq(n),
{
    let n = random_room_number();
    format_room_code(n)
}

/// Which room to register when staging through the relay.
pub enum RoomChoice {
    /// The code given on the command line.
    Custom(String),
    /// A code given on the command line that is not valid: warn, then
    /// generate one.
    Rejected(String),
    /// No code was given: generate one.
    Random,
}

/// The mode selected by the command line.
pub enum CliCommand {
    /// `stage --local`: wait for a direct TCP connection.
    StageLocal,
    /// `stage [code]`: register a room on the relay.
    StageRelay(RoomChoice),
    /// `connect --local <ip:port>`: connect directly.
    ConnectLocal(String),
    /// `connect <code>`: join a room on the relay.
    ConnectRelay(String),
    /// `connect` with nothing after it.
    MissingTarget,
    /// `connect --local` with no address.
    MissingLocalAddress,
    /// Any other command.
    Unknown,
}

/// The value of a [`RoomChoice`].
pub enum RoomChoiceValue {
    Custom(Seq<char>),
    Rejected(Seq<char>),
    Random,
}

/// The value of a [`CliCommand`].
pub enum CliValue {
    StageLocal,
    StageRelay(RoomChoiceValue),
    ConnectLocal(Seq<char>),
    ConnectRelay(Seq<char>),
    MissingTarget,
    MissingLocalAddress,
    Unknown,
}

impl View for CliCommand {
    type V = CliValue;

    open spec fn view(&self) -> CliValue {
        match self {
            CliCommand::StageLocal => CliValue::StageLocal,
            CliCommand::StageRelay(RoomChoice::Custom(c)) => CliValue::StageRelay(
                RoomChoiceValue::Custom(c@),
            ),
            CliCommand::StageRelay(RoomChoice::Rejected(c)) => CliValue::StageRelay(
                RoomChoiceValue::Rejected(c@),
            ),
            CliCommand::StageRelay(RoomChoice::Random) => CliValue::StageRelay(
                RoomChoiceValue::Random,
            ),
            CliCommand::ConnectLocal(a) => CliValue::ConnectLocal(a@),
            CliCommand::ConnectRelay(r) => CliValue::ConnectRelay(r@),
            CliCommand::MissingTarget => CliValue::MissingTarget,
            CliCommand::MissingLocalAddress => CliValue::MissingLocalAddress,
            CliCommand::Unknown => CliValue::Unknown,
        }
    }
}

/// The mode that the arguments (program name first) select.
pub open spec fn parse_args_spec(args: Seq<Seq<char>>) -> CliValue {
    if args[1] == "stage"@ {
        if args.len() >= 3 && args[2] == "--local"@ {
            CliValue::StageLocal
        } else if args.len() >= 3 {
            if valid_room_code_seq(args[2]) {
                CliValue::StageRelay(RoomChoiceValue::Custom(args[2]))
            } else {
                CliValue::StageRelay(RoomChoiceValue::Rejected(args[2]))
            }
        } else {
            CliValue::StageRelay(RoomChoiceValue::Random)
        }
    } else if args[1] == "connect"@ {
        if args.len() < 3 {
            CliValue::MissingTarget
        } else if args[2] == "--local"@ {
            if args.len() < 4 {
                CliValue::MissingLocalAddress
            } else {
                CliValue::ConnectLocal(args[3])
            }
        } else {
            CliValue::ConnectRelay(args[2])
        }
    } else {
        CliValue::Unknown
    }
}

/// Reads the mode from the arguments; the program name comes first, and a
/// command after it is required.
pub fn parse_args(args: &Vec<String>) -> (r: CliCommand)
    requires
        args@.len() >= 2,
    ensures
        r@ == parse_args_spec(args@.map_values(|a: String| a@)),
{
    let ghost v = args@.map_values(|a: String| a@);
    assert(v[1] == args@[1]@);
    let n = args.len();
    if same_text(args[1].as_str(), "stage") {
        if n >= 3 && same_text(args[2].as_str(), "--local") {
            CliCommand::StageLocal
        } else if n >= 3 {
            assert(v[2] == args@[2]@);
            let code = args[2].clone();
            if is_valid_room_code(code.as_str()) {
                CliCommand::StageRelay(RoomChoice::Custom(code))
            } else {
                CliCommand::StageRelay(RoomChoice::Rejected(code))
            }
        } else {
            CliCommand::StageRelay(RoomChoice::Random)
        }
    } else if same_text(args[1].as_str(), "connect") {
        if n < 3 {
            CliCommand::MissingTarget
        } else if same_text(args[2].as_str(), "--local") {
            if n < 4 {
                CliCommand::MissingLocalAddress
            } else {
                assert(v[3] == args@[3]@);
                CliCommand::ConnectLocal(args[3].clone())
            }
        } else {
            assert(v[2] == args@[2]@);
            CliCommand::ConnectRelay(args[2].clone())
        }
    } else {
        CliCommand::Unknown
    }
}

/// The warning shown when a custom room code is refused.
pub fn rejected_code_warning(code: &str) -> (r: String)
    ensures
        r@ == " [fsociety] Warning: '"@ + code@
            + "' is not a valid 6-digit numeric code. Generating random code."@,
{
    let mut s = String::from_str(" [fsociety] Warning: '");
    push_text(&mut s, code);
    push_text(&mut s, "' is not a valid 6-digit numeric code. Generating random code.");
    s
}

/// The relay host: the one configured, or the default.
pub fn relay_host(configured: Option<String>) -> (r: String)
    ensures
        r@ == match configured {
            Some(h) => h@,
            None => DEFAULT_RELAY@,
        },
{
    match configured {
        Some(h) => h,
        None => String::from_str(DEFAULT_RELAY),
    }
}

/// Plain WebSocket for a relay on this machine or at an explicit port,
/// TLS otherwise.
pub open spec fn relay_scheme_seq(host: Seq<char>) -> Seq<char> {
    if has_prefix(host, "localhost"@) || has_infix(host, "127.0.0.1"@) || has_infix(host, ":"@) {
        "ws"@
    } else {
        "wss"@
    }
}

/// The WebSocket scheme for a relay host.
pub fn relay_scheme(host: &str) -> (r: &'static str)
    ensures
        r@ == relay_scheme_seq(host@),
{
    if starts_with_text(host, "localhost") || contains_text(host, "127.0.0.1") || contains_text(
        host,
        ":",
    ) {
        "ws"
    } else {
        "wss"
    }
}

/// The address of a room on the relay.
pub open spec fn relay_url_seq(host: Seq<char>, room: Seq<char>) -> Seq<char> {
    relay_scheme_seq(host) + "://"@ + host + "/ws/"@ + room
}

/// The address of a room on the relay.
pub fn relay_url(host: &str, room: &str) -> (r: String)
    ensures
        r@ == relay_url_seq(host@, room@),
{
    let mut s = String::from_str(relay_scheme(host));
    push_text(&mut s, "://");
    push_text(&mut s, host);
    push_text(&mut s, "/ws/");
    push_text(&mut s, room);
    s
}

#[verifier::external_type_specification]
#[verifier::external_body]
pub struct ExUrl(url::Url);

#[verifier::external_type_specification]
#[verifier::external_body]
pub struct ExUrlParseError(url::ParseError);

/// What `url::Url::parse` returns for a text: the parsed absolute URL, or
/// the reason none could be read from it.
pub uninterp spec fn spec_url_parse(s: Seq<char>) -> Result<url::Url, url::ParseError>;

/// Whether `url::Url::parse` reads an absolute URL from a text.
pub open spec fn spec_url_parses(s: Seq<char>) -> bool {
    spec_url_parse(s) is Ok
}

/// `url::Url::parse`. Its result is the name `spec_url_parse` applied to the
/// text; the parsed value is opaque here, so nothing more is said of it.
#[verifier::external_body]
fn url_parse(s: &str) -> (r: Result<url::Url, url::ParseError>)
    ensures
        r == spec_url_parse(s@),
{
    url::Url::parse(s)
}

/// The parsed address of a room on the relay, ready to be dialled; an
/// address that does not parse is refused before any connection is tried.
pub fn relay_endpoint(host: &str, room: &str) -> (r: Result<url::Url, url::ParseError>)
    ensures
        r == spec_url_parse(relay_url_seq(host@, room@)),
        r is Ok <==> spec_url_parses(relay_url_seq(host@, room@)),
{
    let address = relay_url(host, room);
    url_parse(address.as_str())
}

/// The user name for what was typed at the prompt: trimmed, and
/// `Anonymous` when nothing is left.
pub open spec fn username_seq(input: Seq<char>) -> Seq<char> {
    if trim_seq(input).len() == 0 {
        "Anonymous"@
    } else {
        trim_seq(input)
    }
}

/// A user name is never empty.
pub proof fn lemma_username_nonempty(input: Seq<char>)
    ensures
        username_seq(input).len() > 0,
{
    reveal_strlit("Anonymous");
}

/// The user name for what was typed at the prompt.
pub fn normalize_username(input: &str) -> (r: String)
    ensures
        r@ == username_seq(input@),
{
    let t = trim_text(input);
    if t.is_empty() {
        String::from_str("Anonymous")
    } else {
        String::from_str(t)
    }
}

/// The user name saved in a file, if the file holds more than whitespace.
pub fn saved_username(contents: &str) -> (r: Option<String>)
    ensures
        match r {
            Some(name) => trim_seq(contents@).len() > 0 && name@ == trim_seq(contents@),
            None => trim_seq(contents@).len() == 0,
        },
{
    let t = trim_text(contents);
    if t.is_empty() {
        None
    } else {
        Some(String::from_str(t))
    }
}

/// What a line typed in the chat asks for.
pub enum ChatCommand {
    /// `/send <path>`: send the file at the trimmed path.
    SendFile(String),
    /// `/exit`: leave the session.
    Exit,
    /// Anything else is a chat message.
    Message(String),
}

/// The value of a [`ChatCommand`].
pub enum ChatCommandValue {
    SendFile(Seq<char>),
    Exit,
    Message(Seq<char>),
}

impl View for ChatCommand {
    type V = ChatCommandValue;

    open spec fn view(&self) -> ChatCommandValue {
        match self {
            ChatCommand::SendFile(p) => ChatCommandValue::SendFile(p@),
            ChatCommand::Exit => ChatCommandValue::Exit,
            ChatCommand::Message(m) => ChatCommandValue::Message(m@),
        }
    }
}

/// What a typed line asks for.
pub open spec fn chat_command_spec(line: Seq<char>) -> ChatCommandValue {
    if has_prefix(line, "/send "@) {
        ChatCommandValue::SendFile(trim_seq(line.skip(6)))
    } else if line == "/exit"@ {
        ChatCommandValue::Exit
    } else {
        ChatCommandValue::Message(line)
    }
}

/// Reads a typed line.
pub fn parse_chat_command(line: &str) -> (r: ChatCommand)
    ensures
        r@ == chat_command_spec(line@),
{
    if starts_with_text(line, "/send ") {
        proof {
            reveal_strlit("/send ");
        }
        let rest = line.substring_char(6, line.unicode_len());
        assert(rest@ =~= line@.skip(6));
        ChatCommand::SendFile(String::from_str(trim_text(rest)))
    } else if same_text(line, "/exit") {
        ChatCommand::Exit
    } else {
        ChatCommand::Message(String::from_str(line))
    }
}

/// `/send <path>` asks to send the file at the path: the text right after
/// the six characters `/send `, trimmed, with none of its characters
/// dropped.
pub proof fn lemma_send_reads_path(p: Seq<char>)
    ensures
        chat_command_spec("/send "@ + p) == ChatCommandValue::SendFile(trim_seq(p)),
{
    reveal_strlit("/send ");
    let line = "/send "@ + p;
    assert(line.subrange(0, 6) =~= "/send "@);
    assert(line.skip(6) =~= p);
}

/// A path with no whitespace at either end is sent exactly as typed.
pub proof fn lemma_send_keeps_whole_path(p: Seq<char>)
    requires
        p.len() > 0,
        !is_space_char(p[0]),
        !is_space_char(p.last()),
    ensures
        chat_command_spec("/send "@ + p) == ChatCommandValue::SendFile(p),
{
    lemma_send_reads_path(p);
    lemma_trim_unpadded(p);
}

/// `/exit` leaves; a line that neither starts with `/send ` nor is `/exit`
/// is sent as a chat message, unchanged.
pub proof fn lemma_other_lines(line: Seq<char>)
    ensures
        line == "/exit"@ ==> chat_command_spec(line) == ChatCommandValue::Exit,
        (line.len() < 6 || line.subrange(0, 6) != "/send "@) && line != "/exit"@
            ==> chat_command_spec(line) == ChatCommandValue::Message(line),
{
    reveal_strlit("/send ");
    reveal_strlit("/exit");
    if line == "/exit"@ {
        assert(line.len() == 5);
    }
}

/// The relay is reached over plain WebSocket exactly when its host starts
/// with `localhost`, contains `127.0.0.1` or contains a `:`; every other
/// host, whichever it is, is reached over TLS. The room's address is the
/// scheme, `://`, the host, `/ws/` and the room.
pub proof fn lemma_relay_scheme_by_host(host: Seq<char>, room: Seq<char>)
    ensures
        ((host.len() >= 9 && host.subrange(0, 9) == "localhost"@)
            || (exists|i: int| 0 <= i && i + 9 <= host.len() && #[trigger] host.subrange(i, i + 9) == "127.0.0.1"@)
            || (exists|i: int| 0 <= i < host.len() && #[trigger] host[i] == ':'))
            ==> relay_scheme_seq(host) == "ws"@
                && relay_url_seq(host, room) == "ws://"@ + host + "/ws/"@ + room,
        !((host.len() >= 9 && host.subrange(0, 9) == "localhost"@)
            || (exists|i: int| 0 <= i && i + 9 <= host.len() && #[trigger] host.subrange(i, i + 9) == "127.0.0.1"@)
            || (exists|i: int| 0 <= i < host.len() && #[trigger] host[i] == ':'))
            ==> relay_scheme_seq(host) == "wss"@
                && relay_url_seq(host, room) == "wss://"@ + host + "/ws/"@ + room,
{
    reveal_strlit("localhost");
    reveal_strlit("127.0.0.1");
    reveal_strlit(":");
    reveal_strlit("ws");
    reveal_strlit("wss");
    reveal_strlit("://");
    reveal_strlit("ws://");
    reveal_strlit("wss://");
    let local = host.len() >= 9 && host.subrange(0, 9) == "localhost"@;
    let loopback = exists|i: int| 0 <= i && i + 9 <= host.len() && #[trigger] host.subrange(i, i + 9) == "127.0.0.1"@;
    let colon = exists|i: int| 0 <= i < host.len() && #[trigger] host[i] == ':';
    assert(has_prefix(host, "localhost"@) == local);
    if loopback {
        let i = choose|i: int| 0 <= i && i + 9 <= host.len() && #[trigger] host.subrange(i, i + 9) == "127.0.0.1"@;
        assert(host.subrange(i, i + "127.0.0.1"@.len()) == "127.0.0.1"@);
        assert(has_infix(host, "127.0.0.1"@));
    }
    if has_infix(host, "127.0.0.1"@) {
        let i = choose|i: int| 0 <= i <= host.len() - "127.0.0.1"@.len() && #[trigger] host.subrange(i, i + "127.0.0.1"@.len()) == "127.0.0.1"@;
        assert(host.subrange(i, i + 9) == "127.0.0.1"@);
        assert(loopback);
    }
    if colon {
        let i = choose|i: int| 0 <= i < host.len() && #[trigger] host[i] == ':';
        assert(host.subrange(i, i + 1) =~= ":"@);
        assert(has_infix(host, ":"@));
    }
    if has_infix(host, ":"@) {
        let i = choose|i: int| 0 <= i <= host.len() - 1 && #[trigger] host.subrange(i, i + 1) == ":"@;
        assert(host.subrange(i, i + 1)[0] == ':');
        assert(host[i] == ':');
    }
    assert("ws"@ + "://"@ =~= "ws://"@);
    assert("wss"@ + "://"@ =~= "wss://"@);
}

/// `stage <code>` registers the given code exactly when it is six bytes of
/// numeric characters, whatever its first digit; any other code is refused
/// (a warning, then a random room).
pub proof fn lemma_stage_code_choice(args: Seq<Seq<char>>)
    requires
        args.len() >= 3,
        args[1] == "stage"@,
        args[2] != "--local"@,
    ensures
        encode_utf8(args[2]).len() == 6 && (forall|i: int| 0 <= i < args[2].len() ==> spec_is_numeric(#[trigger] args[2][i]))
            ==> parse_args_spec(args) == CliValue::StageRelay(RoomChoiceValue::Custom(args[2])),
        !(encode_utf8(args[2]).len() == 6 && (forall|i: int| 0 <= i < args[2].len() ==> spec_is_numeric(#[trigger] args[2][i])))
            ==> parse_args_spec(args) == CliValue::StageRelay(RoomChoiceValue::Rejected(args[2])),
{
}

/// The other modes of the command line: `stage` alone registers a random
/// room, `stage --local` waits for a direct connection, `connect <code>`
/// joins that room, `connect --local <ip:port>` dials that address, a
/// `connect` that lacks its target is refused, and any other command is
/// unknown.
pub proof fn lemma_parse_args_modes(args: Seq<Seq<char>>)
    requires
        args.len() >= 2,
    ensures
        args[1] == "stage"@ && args.len() == 2 ==> parse_args_spec(args) == CliValue::StageRelay(
            RoomChoiceValue::Random,
        ),
        args[1] == "stage"@ && args.len() >= 3 && args[2] == "--local"@ ==> parse_args_spec(args)
            == CliValue::StageLocal,
        args[1] == "connect"@ && args.len() == 2 ==> parse_args_spec(args) == CliValue::MissingTarget,
        args[1] == "connect"@ && args.len() >= 3 && args[2] != "--local"@ ==> parse_args_spec(args)
            == CliValue::ConnectRelay(args[2]),
        args[1] == "connect"@ && args.len() == 3 && args[2] == "--local"@ ==> parse_args_spec(args)
            == CliValue::MissingLocalAddress,
        args[1] == "connect"@ && args.len() >= 4 && args[2] == "--local"@ ==> parse_args_spec(args)
            == CliValue::ConnectLocal(args[3]),
        args[1] != "stage"@ && args[1] != "connect"@ ==> parse_args_spec(args) == CliValue::Unknown,
{
    reveal_strlit("stage");
    reveal_strlit("connect");
    assert("stage"@.len() != "connect"@.len());
}

/// A name typed at the prompt is kept whole, spaces inside it included, once
/// the whitespace around it is trimmed; only an input that is all whitespace
/// gives `Anonymous`.
pub proof fn lemma_username_is_trimmed_input(input: Seq<char>)
    ensures
        trim_seq(input).len() > 0 ==> username_seq(input) == trim_seq(input),
        trim_seq(input).len() == 0 ==> username_seq(input) == "Anonymous"@,
{
}

/// A name typed and ended by a line break is that name.
pub proof fn lemma_username_line(name: Seq<char>)
    requires
        name.len() > 0,
        !is_space_char(name[0]),
        !is_space_char(name.last()),
    ensures
        username_seq(name + "\n"@) == name,
{
    lemma_trim_line(name);
}

} // verus!
