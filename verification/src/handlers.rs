//! One handler per command, each producing the complete response
//! frame as bytes: a sentinel, a status byte, and a payload only on
//! success.
//!
//! Earlier revisions of this protocol numbered the statuses 2 and 3;
//! this implementation standardizes on one documented mapping, Ok = 0
//! and NotAvailable = 1, for every response it writes.
//!
//! A handler never touches the file system or the terminal itself: the
//! caller looks the resource up and passes what it found, and the
//! handler turns that observation into the one response the protocol
//! owes for it.

use vstd::prelude::*;

use crate::codec::{
    spec_string_bytes, spec_text_fits, spec_u16_bytes, spec_u32_bytes, text_fits, write_byte,
    write_string, write_u16, write_u32, write_vec,
};
use crate::commands::{Command, SendFileOptions};
use crate::keys::{spec_to_hc800, to_hc800, KeyEvent};

verus! {

/// The byte that opens every response frame.
pub const RESPONSE_SENTINEL: u8 = 33;

/// The status byte of a successful response.
pub const STATUS_OK: u8 = 0;

/// The status byte of a response whose resource was not obtainable.
pub const STATUS_NOT_AVAILABLE: u8 = 1;

/// A successful response frame: sentinel, Ok status, payload.
pub open spec fn spec_ok_frame(payload: Seq<u8>) -> Seq<u8> {
    seq![RESPONSE_SENTINEL, STATUS_OK] + payload
}

/// A failed response frame: sentinel, NotAvailable status, no payload.
pub open spec fn spec_not_available_frame() -> Seq<u8> {
    seq![RESPONSE_SENTINEL, STATUS_NOT_AVAILABLE]
}

/// What a file's metadata told the caller.
#[derive(Debug, PartialEq, Eq)]
pub struct FileStat {
    pub is_directory: bool,
    pub length: u64,
}

/// One entry of a directory listing, in the platform's iteration
/// order.
#[derive(Debug, PartialEq, Eq)]
pub struct DirectoryEntry {
    pub name: String,
    pub length: u64,
    pub is_directory: bool,
}

/// Begins a response frame with the given status byte.
fn write_frame_start(output: &mut Vec<u8>, status: u8)
    ensures
        final(output)@ == old(output)@ + seq![RESPONSE_SENTINEL, status],
{
    write_byte(output, RESPONSE_SENTINEL);
    write_byte(output, status);
    assert(output@ =~= old(output)@ + seq![RESPONSE_SENTINEL, status]);
}

/// The response to an identification request: the bitwise complement
/// of the nonce, echoed as a 16-bit value.
pub open spec fn spec_identity_response(nonce: u16) -> Seq<u8> {
    spec_ok_frame(spec_u16_bytes(!nonce))
}

/// Answers an identification request: always Ok, with the bitwise
/// complement of the received nonce as payload.
pub fn handle_identity(nonce: u16) -> (r: Vec<u8>)
    ensures
        r@ == spec_identity_response(nonce),
{
    let mut response: Vec<u8> = Vec::new();
    write_frame_start(&mut response, STATUS_OK);
    write_u16(&mut response, !nonce);
    response
}

/// The bytes a file read yields: starting at `offset`, the whole rest
/// of the file when `length` is zero, otherwise at most `length`
/// bytes; a shorter file gives fewer bytes, and an offset past the end
/// gives none.
pub open spec fn spec_file_slice(contents: Seq<u8>, offset: u32, length: u16) -> Seq<u8> {
    let to_read = if length == 0 {
        contents.len() as int
    } else {
        length as int
    };
    let start = if offset <= contents.len() {
        offset as int
    } else {
        contents.len() as int
    };
    let end = if start + to_read <= contents.len() {
        start + to_read
    } else {
        contents.len() as int
    };
    contents.subrange(start, end)
}

/// Copies the requested range out of a file's contents: see
/// `spec_file_slice`.
pub fn file_payload(contents: &Vec<u8>, offset: u32, length: u16) -> (r: Vec<u8>)
    ensures
        r@ == spec_file_slice(contents@, offset, length),
{
    let to_read: usize = if length == 0 {
        contents.len()
    } else {
        length as usize
    };
    let start: usize = if offset as usize <= contents.len() {
        offset as usize
    } else {
        contents.len()
    };
    let end: usize = if to_read <= contents.len() - start {
        start + to_read
    } else {
        contents.len()
    };
    let mut payload: Vec<u8> = Vec::new();
    let mut k: usize = start;
    while k < end
        invariant
            start <= k <= end <= contents.len(),
            payload@ =~= contents@.subrange(start as int, k as int),
        decreases end - k,
    {
        payload.push(contents[k]);
        k += 1;
        assert(payload@ =~= contents@.subrange(start as int, k as int));
    }
    payload
}

/// The response to a file-read request, given what opening the file
/// produced: Ok plus a length-prefixed payload when the file opened,
/// NotAvailable when it did not.
pub open spec fn spec_send_file_response(
    file: Option<Seq<u8>>,
    offset: u32,
    length: u16,
) -> Seq<u8> {
    match file {
        Some(contents) => {
            let payload = spec_file_slice(contents, offset, length);
            spec_ok_frame(spec_u16_bytes(payload.len() as u16) + payload)
        },
        None => spec_not_available_frame(),
    }
}

/// Answers a file-read request.  The caller opens the file and passes
/// its whole contents, or `None` when it could not be opened.  A
/// whole-file read (`length` zero) must fit the 16-bit payload length,
/// so the caller clamps before asking.
pub fn handle_send_file(file: Option<&Vec<u8>>, options: &SendFileOptions) -> (r: Vec<u8>)
    requires
        match file {
            Some(contents) => options.length == 0 ==> contents@.len() <= options.offset + 0xFFFF,
            None => true,
        },
    ensures
        r@ == spec_send_file_response(
            match file {
                Some(contents) => Some(contents@),
                None => None,
            },
            options.offset,
            options.length,
        ),
{
    let mut response: Vec<u8> = Vec::new();
    match file {
        Some(contents) => {
            let payload = file_payload(contents, options.offset, options.length);
            write_frame_start(&mut response, STATUS_OK);
            write_vec(&mut response, &payload);
        },
        None => {
            write_frame_start(&mut response, STATUS_NOT_AVAILABLE);
        },
    }
    response
}

/// The response to a stat request: an is-directory flag and the 32
/// low bits of the length when the path opened, NotAvailable when it
/// did not.
pub open spec fn spec_stat_response(stat: Option<FileStat>) -> Seq<u8> {
    match stat {
        Some(s) => {
            #[verifier::truncate]
            let length: u32 = s.length as u32;
            spec_ok_frame(
                seq![
                    if s.is_directory {
                        1u8
                    } else {
                        0u8
                    },
                ] + spec_u32_bytes(length),
            )
        },
        None => spec_not_available_frame(),
    }
}

/// Answers a stat request.  The caller opens the path for metadata and
/// passes what it learned, or `None` when the path could not be
/// opened.
pub fn handle_stat_file(stat: Option<&FileStat>) -> (r: Vec<u8>)
    ensures
        r@ == spec_stat_response(
            match stat {
                Some(s) => Some(*s),
                None => None,
            },
        ),
{
    let mut response: Vec<u8> = Vec::new();
    match stat {
        Some(s) => {
            write_frame_start(&mut response, STATUS_OK);
            write_byte(&mut response, if s.is_directory { 1 } else { 0 });
            #[verifier::truncate]
            let length: u32 = s.length as u32;
            write_u32(&mut response, length);
            assert(response@ =~= spec_stat_response(Some(*s)));
        },
        None => {
            write_frame_start(&mut response, STATUS_NOT_AVAILABLE);
        },
    }
    response
}

/// Whether a directory entry's name can travel on the wire.
pub open spec fn spec_entry_sendable(entry: DirectoryEntry) -> bool {
    entry.name@.len() <= 0xFFFF && spec_text_fits(entry.name@)
}

/// The response to a directory-listing request: the entry at `index`
/// in iteration order — its name, an is-directory flag and the 32 low
/// bits of its length — or NotAvailable when the directory is missing,
/// the index is past the last entry, or the entry's name cannot be
/// written as wire text.
pub open spec fn spec_directory_response(
    entries: Option<Seq<DirectoryEntry>>,
    index: u16,
) -> Seq<u8> {
    match entries {
        Some(list) => if index >= list.len() {
            spec_not_available_frame()
        } else {
            let entry = list[index as int];
            if spec_entry_sendable(entry) {
                #[verifier::truncate]
                let length: u32 = entry.length as u32;
                spec_ok_frame(
                    spec_string_bytes(entry.name@) + seq![
                        if entry.is_directory {
                            1u8
                        } else {
                            0u8
                        },
                    ] + spec_u32_bytes(length),
                )
            } else {
                spec_not_available_frame()
            }
        },
        None => spec_not_available_frame(),
    }
}

/// Answers a directory-listing request.  The caller enumerates the
/// directory in the platform's order and passes the entries, or `None`
/// when the directory could not be read.  An entry whose name cannot
/// travel as wire text degrades to NotAvailable for that one request
/// rather than ending the session.
pub fn handle_read_directory(entries: Option<&Vec<DirectoryEntry>>, index: u16) -> (r: Vec<u8>)
    ensures
        r@ == spec_directory_response(
            match entries {
                Some(list) => Some(list@),
                None => None,
            },
            index,
        ),
{
    let mut response: Vec<u8> = Vec::new();
    match entries {
        Some(list) => {
            if (index as usize) < list.len() {
                let entry = &list[index as usize];
                if text_fits(entry.name.as_str()) {
                    write_frame_start(&mut response, STATUS_OK);
                    write_string(&mut response, entry.name.as_str());
                    write_byte(&mut response, if entry.is_directory { 1 } else { 0 });
                    #[verifier::truncate]
                    let length: u32 = entry.length as u32;
                    write_u32(&mut response, length);
                    assert(response@ =~= spec_directory_response(Some(list@), index));
                } else {
                    write_frame_start(&mut response, STATUS_NOT_AVAILABLE);
                }
            } else {
                write_frame_start(&mut response, STATUS_NOT_AVAILABLE);
            }
        },
        None => {
            write_frame_start(&mut response, STATUS_NOT_AVAILABLE);
        },
    }
    response
}

/// The response to a character request, given what the terminal
/// offered: Ok plus the translated key code when the captured event
/// has one, NotAvailable when no event arrived or the event has no
/// code in the client's space.
pub open spec fn spec_request_char_response(event: Option<KeyEvent>) -> Seq<u8> {
    match event {
        Some(e) => match spec_to_hc800(e) {
            Some(code) => spec_ok_frame(seq![code]),
            None => spec_not_available_frame(),
        },
        None => spec_not_available_frame(),
    }
}

/// Answers a character request.  The caller polls the terminal and
/// passes the captured event, or `None` when no terminal is attached
/// or nothing was pressed.
pub fn handle_request_char(event: Option<&KeyEvent>) -> (r: Vec<u8>)
    ensures
        r@ == spec_request_char_response(
            match event {
                Some(e) => Some(*e),
                None => None,
            },
        ),
{
    let mut response: Vec<u8> = Vec::new();
    match event {
        Some(e) => match to_hc800(e) {
            Some(code) => {
                write_frame_start(&mut response, STATUS_OK);
                write_byte(&mut response, code);
                assert(response@ =~= spec_ok_frame(seq![code]));
            },
            None => {
                write_frame_start(&mut response, STATUS_NOT_AVAILABLE);
            },
        },
        None => {
            write_frame_start(&mut response, STATUS_NOT_AVAILABLE);
        },
    }
    response
}

/// The response to a print request: always Ok, with no payload.
/// Showing the character locally is the caller's side effect and its
/// failure is not a protocol error.
pub open spec fn spec_print_char_response() -> Seq<u8> {
    spec_ok_frame(Seq::<u8>::empty())
}

/// Answers a print request: always Ok with no payload.
pub fn handle_print_char() -> (r: Vec<u8>)
    ensures
        r@ == spec_print_char_response(),
{
    let mut response: Vec<u8> = Vec::new();
    write_frame_start(&mut response, STATUS_OK);
    assert(response@ =~= spec_print_char_response());
    response
}

/// What the caller observed while gathering the resource a command
/// asks for: file contents, metadata, a directory listing, a terminal
/// event, or nothing for the commands that need no resource.
pub enum Observation {
    FileContents { file: Option<Vec<u8>> },
    Stat { stat: Option<FileStat> },
    Listing { entries: Option<Vec<DirectoryEntry>> },
    Key { event: Option<KeyEvent> },
    Nothing,
}

/// Routes a decoded command to exactly one handler and returns its
/// response frame.  The observation must be of the kind the command
/// asks for; a mismatched one yields `None` and no frame, so a caller
/// that pairs them correctly always gets a response.
pub fn respond(command: &Command, observation: &Observation) -> (r: Option<Vec<u8>>)
    requires
        match (command, observation) {
            (
                Command::SendFile { options },
                Observation::FileContents { file: Some(contents) },
            ) => options.length == 0 ==> contents@.len() <= options.offset + 0xFFFF,
            _ => true,
        },
    ensures
        match *command {
            Command::Identify { nonce } => r matches Some(v) && v@ == spec_identity_response(
                nonce,
            ),
            Command::SendFile { options } => match *observation {
                Observation::FileContents { file } => r matches Some(v) && v@
                    == spec_send_file_response(
                    match file {
                        Some(contents) => Some(contents@),
                        None => None,
                    },
                    options.offset,
                    options.length,
                ),
                _ => r is None,
            },
            Command::RequestChar => match *observation {
                Observation::Key { event } => r matches Some(v) && v@
                    == spec_request_char_response(event),
                _ => r is None,
            },
            Command::PrintChar { .. } => r matches Some(v) && v@ == spec_print_char_response(),
            Command::StatFile { .. } => match *observation {
                Observation::Stat { stat } => r matches Some(v) && v@ == spec_stat_response(stat),
                _ => r is None,
            },
            Command::ReadDirectory { options } => match *observation {
                Observation::Listing { entries } => r matches Some(v) && v@
                    == spec_directory_response(
                    match entries {
                        Some(list) => Some(list@),
                        None => None,
                    },
                    options.index,
                ),
                _ => r is None,
            },
        },
{
    match command {
        Command::Identify { nonce } => Some(handle_identity(*nonce)),
        Command::SendFile { options } => match observation {
            Observation::FileContents { file } => Some(
                handle_send_file(file.as_ref(), options),
            ),
            _ => None,
        },
        Command::RequestChar => match observation {
            Observation::Key { event } => Some(handle_request_char(event.as_ref())),
            _ => None,
        },
        Command::PrintChar { .. } => Some(handle_print_char()),
        Command::StatFile { .. } => match observation {
            Observation::Stat { stat } => Some(handle_stat_file(stat.as_ref())),
            _ => None,
        },
        Command::ReadDirectory { options } => match observation {
            Observation::Listing { entries } => Some(
                handle_read_directory(entries.as_ref(), options.index),
            ),
            _ => None,
        },
    }
}

} // verus!
