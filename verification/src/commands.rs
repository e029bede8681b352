//! The command model and the frame-synchronizing decoder.
//!
//! A request frame is a sentinel byte `?`, an identifier byte, and the
//! identified command's fields.  The decoder scans a byte buffer for
//! the sentinel, discarding noise, and decodes the first complete frame
//! it finds; an unrecognized identifier sends it back to scanning, so
//! a damaged frame never ends the session.

use vstd::prelude::*;

use crate::codec::{
    lemma_text_round_trip, lemma_u16_round_trip, lemma_u32_codec, read_byte, read_string,
    read_u16, read_u32, spec_read_string, spec_string_bytes, spec_text_bytes, spec_text_fits,
    spec_u16, spec_u16_bytes, spec_u32, spec_u32_bytes, spec_u32_reread, write_byte,
    write_string, write_u16, write_u32,
};

verus! {

/// The byte that opens every request frame.
pub const SENTINEL: u8 = 63;

/// Fields of a file-read request: which file, from where, how much.
#[derive(Debug, PartialEq, Eq)]
pub struct SendFileOptions {
    pub path: String,
    pub offset: u32,
    pub length: u16,
}

/// Fields of a directory-listing request: which directory, which entry.
#[derive(Debug, PartialEq, Eq)]
pub struct ReadDirectoryOptions {
    pub path: String,
    pub index: u16,
}

/// One request from the remote client, fully decoded.
#[derive(Debug, PartialEq, Eq)]
pub enum Command {
    Identify { nonce: u16 },
    SendFile { options: SendFileOptions },
    RequestChar,
    PrintChar { character: char },
    StatFile { path: String },
    ReadDirectory { options: ReadDirectoryOptions },
}

/// The mathematical value of `SendFileOptions`.
pub struct SendFileOptionsV {
    pub path: Seq<char>,
    pub offset: u32,
    pub length: u16,
}

/// The mathematical value of `ReadDirectoryOptions`.
pub struct ReadDirectoryOptionsV {
    pub path: Seq<char>,
    pub index: u16,
}

/// The mathematical value of a `Command`.
pub enum CommandV {
    Identify { nonce: u16 },
    SendFile { options: SendFileOptionsV },
    RequestChar,
    PrintChar { character: char },
    StatFile { path: Seq<char> },
    ReadDirectory { options: ReadDirectoryOptionsV },
}

impl View for SendFileOptions {
    type V = SendFileOptionsV;

    open spec fn view(&self) -> SendFileOptionsV {
        SendFileOptionsV { path: self.path@, offset: self.offset, length: self.length }
    }
}

impl View for ReadDirectoryOptions {
    type V = ReadDirectoryOptionsV;

    open spec fn view(&self) -> ReadDirectoryOptionsV {
        ReadDirectoryOptionsV { path: self.path@, index: self.index }
    }
}

impl View for Command {
    type V = CommandV;

    open spec fn view(&self) -> CommandV {
        match self {
            Command::Identify { nonce } => CommandV::Identify { nonce: *nonce },
            Command::SendFile { options } => CommandV::SendFile { options: options@ },
            Command::RequestChar => CommandV::RequestChar,
            Command::PrintChar { character } => CommandV::PrintChar { character: *character },
            Command::StatFile { path } => CommandV::StatFile { path: path@ },
            Command::ReadDirectory { options } => CommandV::ReadDirectory { options: options@ },
        }
    }
}

/// The fields that follow a recognized identifier byte, decoded from
/// position `i`, or `None` when the buffer ends inside them.
pub open spec fn spec_decode_fields(s: Seq<u8>, i: int, id: u8) -> Option<(CommandV, int)> {
    match id {
        0 => if i + 2 > s.len() {
            None
        } else {
            Some((CommandV::Identify { nonce: spec_u16(s[i], s[i + 1]) }, i + 2))
        },
        1 => match spec_read_string(s, i) {
            None => None,
            Some((path, j)) => if j + 6 > s.len() {
                None
            } else {
                Some((
                    CommandV::SendFile {
                        options: SendFileOptionsV {
                            path,
                            offset: spec_u32(
                                spec_u16(s[j], s[j + 1]),
                                spec_u16(s[j + 2], s[j + 3]),
                            ),
                            length: spec_u16(s[j + 4], s[j + 5]),
                        },
                    },
                    j + 6,
                ))
            },
        },
        2 => Some((CommandV::RequestChar, i)),
        3 => if i + 1 > s.len() {
            None
        } else {
            Some((CommandV::PrintChar { character: s[i] as char }, i + 1))
        },
        4 => match spec_read_string(s, i) {
            None => None,
            Some((path, j)) => Some((CommandV::StatFile { path }, j)),
        },
        5 => if i + 2 > s.len() {
            None
        } else {
            match spec_read_string(s, i + 2) {
                None => None,
                Some((path, j)) => Some((
                    CommandV::ReadDirectory {
                        options: ReadDirectoryOptionsV { path, index: spec_u16(s[i], s[i + 1]) },
                    },
                    j,
                )),
            }
        },
        _ => None,
    }
}

/// The first complete frame at or after position `i` of `s`: bytes
/// before the sentinel are discarded, an unrecognized identifier sends
/// the scan onward, and a buffer with no complete frame gives `None`.
pub open spec fn spec_read_command(s: Seq<u8>, i: int) -> Option<(CommandV, int)>
    decreases s.len() - i,
{
    if i < 0 || i >= s.len() {
        None
    } else if s[i] != SENTINEL {
        spec_read_command(s, i + 1)
    } else if i + 1 >= s.len() {
        None
    } else if s[i + 1] <= 5 {
        spec_decode_fields(s, i + 2, s[i + 1])
    } else {
        spec_read_command(s, i + 2)
    }
}

/// What a decode attempt on a buffer can end in: a command and the
/// position just past its frame, or the need for more bytes.
#[derive(Debug, PartialEq, Eq)]
pub enum DecodeResult {
    Decoded { command: Command, next: usize },
    Incomplete,
}

fn read_identify(input: &Vec<u8>, pos: usize) -> (r: Option<(Command, usize)>)
    ensures
        match spec_decode_fields(input@, pos as int, 0) {
            Some((cv, next)) => r matches Some(p) && p.0@ == cv && p.1 == next,
            None => r is None,
        },
{
    match read_u16(input, pos) {
        Some((nonce, next)) => Some((Command::Identify { nonce }, next)),
        None => None,
    }
}

fn read_send_file(input: &Vec<u8>, pos: usize) -> (r: Option<(Command, usize)>)
    ensures
        match spec_decode_fields(input@, pos as int, 1) {
            Some((cv, next)) => r matches Some(p) && p.0@ == cv && p.1 == next,
            None => r is None,
        },
{
    match read_string(input, pos) {
        Some((path, p)) => match read_u32(input, p) {
            Some((offset, q)) => match read_u16(input, q) {
                Some((length, next)) => Some((
                    Command::SendFile { options: SendFileOptions { path, offset, length } },
                    next,
                )),
                None => None,
            },
            None => None,
        },
        None => None,
    }
}

fn read_request_char() -> (r: Option<(Command, usize)>)
    ensures
        r matches Some(p) && p.0 is RequestChar,
{
    Some((Command::RequestChar, 0))
}

fn read_print_char(input: &Vec<u8>, pos: usize) -> (r: Option<(Command, usize)>)
    ensures
        match spec_decode_fields(input@, pos as int, 3) {
            Some((cv, next)) => r matches Some(p) && p.0@ == cv && p.1 == next,
            None => r is None,
        },
{
    match read_byte(input, pos) {
        Some((b, next)) => Some((Command::PrintChar { character: b as char }, next)),
        None => None,
    }
}

fn read_stat_file(input: &Vec<u8>, pos: usize) -> (r: Option<(Command, usize)>)
    ensures
        match spec_decode_fields(input@, pos as int, 4) {
            Some((cv, next)) => r matches Some(p) && p.0@ == cv && p.1 == next,
            None => r is None,
        },
{
    match read_string(input, pos) {
        Some((path, next)) => Some((Command::StatFile { path }, next)),
        None => None,
    }
}

fn read_read_directory(input: &Vec<u8>, pos: usize) -> (r: Option<(Command, usize)>)
    ensures
        match spec_decode_fields(input@, pos as int, 5) {
            Some((cv, next)) => r matches Some(p) && p.0@ == cv && p.1 == next,
            None => r is None,
        },
{
    match read_u16(input, pos) {
        Some((index, p)) => match read_string(input, p) {
            Some((path, next)) => Some((
                Command::ReadDirectory { options: ReadDirectoryOptions { path, index } },
                next,
            )),
            None => None,
        },
        None => None,
    }
}

/// Scans `input` from `start` for the first complete request frame.
/// Bytes before the sentinel are discarded, and a sentinel followed by
/// an unrecognized identifier resynchronizes instead of failing; the
/// decoder gives `Incomplete` only when the buffer holds no complete
/// frame, so the caller reads more bytes and tries again.
pub fn read_command(input: &Vec<u8>, start: usize) -> (r: DecodeResult)
    ensures
        match spec_read_command(input@, start as int) {
            Some((cv, next)) => r matches DecodeResult::Decoded {
                command,
                next: n,
            } && command@ == cv && n == next,
            None => r is Incomplete,
        },
{
    let mut i: usize = start;
    if i >= input.len() {
        return DecodeResult::Incomplete;
    }
    while i < input.len()
        invariant
            start <= i <= input.len(),
            spec_read_command(input@, start as int) == spec_read_command(input@, i as int),
        decreases input.len() - i,
    {
        if input[i] != SENTINEL {
            i += 1;
        } else {
            if i + 1 >= input.len() {
                return DecodeResult::Incomplete;
            }
            let id = input[i + 1];
            if id <= 5 {
                let fields = if id == 0 {
                    read_identify(input, i + 2)
                } else if id == 1 {
                    read_send_file(input, i + 2)
                } else if id == 2 {
                    match read_request_char() {
                        Some((command, _unused)) => Some((command, i + 2)),
                        None => None,
                    }
                } else if id == 3 {
                    read_print_char(input, i + 2)
                } else if id == 4 {
                    read_stat_file(input, i + 2)
                } else {
                    read_read_directory(input, i + 2)
                };
                match fields {
                    Some((command, next)) => {
                        return DecodeResult::Decoded { command, next };
                    },
                    None => {
                        return DecodeResult::Incomplete;
                    },
                }
            } else {
                i += 2;
            }
        }
    }
    DecodeResult::Incomplete
}

/// Whether a command can travel on the wire at all: its text fields
/// fit the 16-bit length prefix and the one-byte characters, and a
/// printed character fits its single byte.
pub open spec fn spec_encodable(c: CommandV) -> bool {
    match c {
        CommandV::Identify { .. } => true,
        CommandV::SendFile { options } => options.path.len() <= 0xFFFF && spec_text_fits(
            options.path,
        ),
        CommandV::RequestChar => true,
        CommandV::PrintChar { character } => (character as u32) < 256,
        CommandV::StatFile { path } => path.len() <= 0xFFFF && spec_text_fits(path),
        CommandV::ReadDirectory { options } => options.path.len() <= 0xFFFF && spec_text_fits(
            options.path,
        ),
    }
}

/// The identifier byte of each command variant.
pub open spec fn spec_identifier(c: CommandV) -> u8 {
    match c {
        CommandV::Identify { .. } => 0,
        CommandV::SendFile { .. } => 1,
        CommandV::RequestChar => 2,
        CommandV::PrintChar { .. } => 3,
        CommandV::StatFile { .. } => 4,
        CommandV::ReadDirectory { .. } => 5,
    }
}

/// The full request frame of a command: sentinel, identifier, fields.
pub open spec fn spec_encode(c: CommandV) -> Seq<u8> {
    seq![SENTINEL, spec_identifier(c)] + match c {
        CommandV::Identify { nonce } => spec_u16_bytes(nonce),
        CommandV::SendFile { options } => spec_string_bytes(options.path) + spec_u32_bytes(
            options.offset,
        ) + spec_u16_bytes(options.length),
        CommandV::RequestChar => Seq::<u8>::empty(),
        CommandV::PrintChar { character } => seq![(character as u32) as u8],
        CommandV::StatFile { path } => spec_string_bytes(path),
        CommandV::ReadDirectory { options } => spec_u16_bytes(options.index) + spec_string_bytes(
            options.path,
        ),
    }
}

/// Encodes a command as the request frame a client would send.  The
/// decoder is this function's inverse: see `lemma_command_round_trip`.
pub fn encode_command(command: &Command) -> (r: Vec<u8>)
    requires
        spec_encodable(command@),
    ensures
        r@ == spec_encode(command@),
{
    let mut frame: Vec<u8> = Vec::new();
    write_byte(&mut frame, SENTINEL);
    match command {
        Command::Identify { nonce } => {
            write_byte(&mut frame, 0);
            write_u16(&mut frame, *nonce);
        },
        Command::SendFile { options } => {
            write_byte(&mut frame, 1);
            write_string(&mut frame, options.path.as_str());
            write_u32(&mut frame, options.offset);
            write_u16(&mut frame, options.length);
        },
        Command::RequestChar => {
            write_byte(&mut frame, 2);
        },
        Command::PrintChar { character } => {
            write_byte(&mut frame, 3);
            let code = *character as u32;
            #[verifier::truncate]
            let b: u8 = code as u8;
            write_byte(&mut frame, b);
        },
        Command::StatFile { path } => {
            write_byte(&mut frame, 4);
            write_string(&mut frame, path.as_str());
        },
        Command::ReadDirectory { options } => {
            write_byte(&mut frame, 5);
            write_u16(&mut frame, options.index);
            write_string(&mut frame, options.path.as_str());
        },
    }
    assert(frame@ =~= spec_encode(command@));
    frame
}

/// Reading a length-prefixed string finds exactly the text whose
/// encoding sits at that position.
proof fn lemma_read_string_at(s: Seq<u8>, i: int, t: Seq<char>)
    requires
        0 <= i,
        t.len() <= 0xFFFF,
        spec_text_fits(t),
        i + 2 + t.len() <= s.len(),
        s.subrange(i, i + 2 + t.len()) == spec_string_bytes(t),
    ensures
        spec_read_string(s, i) == Some((t, i + 2 + t.len() as int)),
{
    let n = t.len() as int;
    let sb = spec_string_bytes(t);
    assert(s.subrange(i, i + 2 + n)[0] == s[i]);
    assert(s.subrange(i, i + 2 + n)[1] == s[i + 1]);
    assert(sb[0] == spec_u16_bytes(t.len() as u16)[0]);
    assert(sb[1] == spec_u16_bytes(t.len() as u16)[1]);
    lemma_u16_round_trip(t.len() as u16);
    assert(spec_u16(s[i], s[i + 1]) == t.len() as u16);
    assert(s.subrange(i + 2, i + 2 + n) =~= spec_text_bytes(t)) by {
        assert forall|m: int| 0 <= m < n implies s.subrange(i + 2, i + 2 + n)[m]
            == spec_text_bytes(t)[m] by {
            assert(s.subrange(i + 2, i + 2 + n)[m] == s[i + 2 + m]);
            assert(s.subrange(i, i + 2 + n)[2 + m] == s[i + (2 + m)]);
            assert(sb[2 + m] == spec_text_bytes(t)[m]);
        }
    }
    lemma_text_round_trip(t);
    assert(spec_read_string(s, i) == Some((t, i + 2 + n)));
}

/// Decoding an encoded command finds that command again, and consumes
/// exactly its frame.  The one caveat is the 32-bit offset of a file
/// read: the asymmetric 32-bit pair (see `spec_u32_reread`) must be
/// lossless for the offset at hand, which every offset below 256
/// satisfies.
pub proof fn lemma_command_round_trip(c: CommandV)
    requires
        spec_encodable(c),
        c matches CommandV::SendFile { options } ==> spec_u32_reread(options.offset)
            == options.offset,
    ensures
        spec_read_command(spec_encode(c), 0) == Some((c, spec_encode(c).len() as int)),
{
    let s = spec_encode(c);
    assert(s[0] == SENTINEL);
    assert(s[1] == spec_identifier(c));
    match c {
        CommandV::Identify { nonce } => {
            let nb = spec_u16_bytes(nonce);
            assert(s[2] == nb[0] && s[3] == nb[1]);
            lemma_u16_round_trip(nonce);
        },
        CommandV::SendFile { options } => {
            let n = options.path.len() as int;
            let sb = spec_string_bytes(options.path);
            let ub = spec_u32_bytes(options.offset);
            let lb = spec_u16_bytes(options.length);
            assert(s.len() == 2 + sb.len() + 4 + 2);
            assert(s.subrange(2, 2 + 2 + n) =~= sb);
            lemma_read_string_at(s, 2, options.path);
            let j = 4 + n;
            assert(s[j] == ub[0] && s[j + 1] == ub[1] && s[j + 2] == ub[2] && s[j + 3] == ub[3]);
            lemma_u32_codec(options.offset);
            assert(s[j + 4] == lb[0] && s[j + 5] == lb[1]);
            lemma_u16_round_trip(options.length);
            assert(spec_decode_fields(s, 2, 1) == Some((c, j + 6)));
        },
        CommandV::RequestChar => {
            assert(s.len() == 2);
        },
        CommandV::PrintChar { character } => {
            let v: u32 = character as u32;
            let b: u8 = (character as u32) as u8;
            assert(s[2] == b);
            assert(((v as u8) as u32) == v) by (bit_vector)
                requires
                    v < 256,
            ;
            vstd::utf8::char_u32_cast(character, v);
            vstd::utf8::char_u32_cast(b as char, (b as char) as u32);
            assert(b as char == character);
        },
        CommandV::StatFile { path } => {
            let n = path.len() as int;
            assert(s.subrange(2, 2 + 2 + n) =~= spec_string_bytes(path));
            lemma_read_string_at(s, 2, path);
        },
        CommandV::ReadDirectory { options } => {
            let n = options.path.len() as int;
            let ib = spec_u16_bytes(options.index);
            assert(s[2] == ib[0] && s[3] == ib[1]);
            lemma_u16_round_trip(options.index);
            assert(s.subrange(4, 4 + 2 + n) =~= spec_string_bytes(options.path));
            lemma_read_string_at(s, 4, options.path);
        },
    }
}

/// A buffer with no sentinel byte never yields a command: the decoder
/// consumes it all and asks for more input.
pub proof fn lemma_no_sentinel_incomplete(s: Seq<u8>, i: int)
    requires
        0 <= i,
        forall|j: int| i <= j < s.len() ==> s[j] != SENTINEL,
    ensures
        spec_read_command(s, i) is None,
    decreases s.len() - i,
{
    if i < s.len() {
        lemma_no_sentinel_incomplete(s, i + 1);
    }
}

} // verus!
