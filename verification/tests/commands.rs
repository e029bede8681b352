//! Decoder and encoder checks: frame synchronization, field layout,
//! and the encode/decode round trip.

use uartfileserver::commands::{
    encode_command, read_command, Command, DecodeResult, ReadDirectoryOptions, SendFileOptions,
};

fn decoded(input: &[u8]) -> (Command, usize) {
    match read_command(&input.to_vec(), 0) {
        DecodeResult::Decoded { command, next } => (command, next),
        DecodeResult::Incomplete => panic!("expected a complete frame"),
    }
}

fn incomplete(input: &[u8]) -> bool {
    matches!(read_command(&input.to_vec(), 0), DecodeResult::Incomplete)
}

#[test]
fn decode_identify() {
    let (command, next) = decoded(&[b'?', 0x00, 0x2A, 0x00]);
    assert_eq!(command, Command::Identify { nonce: 42 });
    assert_eq!(next, 4);
}

#[test]
fn decode_discards_noise_before_sentinel() {
    let (command, next) = decoded(&[0xAA, 0x55, 0x00, b'?', 0x00, 0xFF, 0xFF]);
    assert_eq!(command, Command::Identify { nonce: 0xFFFF });
    assert_eq!(next, 7);
}

#[test]
fn decode_resynchronizes_after_bad_identifier() {
    // A sentinel followed by identifier 9 is noise; the decoder scans
    // on and finds the real frame behind it.
    let (command, next) = decoded(&[b'?', 9, b'?', 0x00, 0x2A, 0x00]);
    assert_eq!(command, Command::Identify { nonce: 42 });
    assert_eq!(next, 6);
}

#[test]
fn decode_without_sentinel_never_returns_a_command() {
    // No sentinel anywhere: the decoder consumes everything and asks
    // for more input.
    assert!(incomplete(&[0x01, 0x02, 0x03, 0xFA, 0x21, 0x00]));
    assert!(incomplete(&[]));
}

#[test]
fn decode_partial_frame_is_incomplete() {
    // A send-file frame whose string says five characters but only one
    // arrived.
    assert!(incomplete(&[b'?', 1, 5, 0, b'a']));
    // A lone sentinel at the very end.
    assert!(incomplete(&[0x10, b'?']));
}

#[test]
fn decode_send_file() {
    let (command, next) = decoded(&[
        b'?', 1, 2, 0, b'/', b'a', 0x07, 0x00, 0x00, 0x00, 0x10, 0x00,
    ]);
    assert_eq!(
        command,
        Command::SendFile {
            options: SendFileOptions { path: "/a".to_string(), offset: 7, length: 16 }
        }
    );
    assert_eq!(next, 12);
}

#[test]
fn decode_request_char() {
    let (command, next) = decoded(&[b'?', 2]);
    assert_eq!(command, Command::RequestChar);
    assert_eq!(next, 2);
}

#[test]
fn decode_print_char() {
    let (command, next) = decoded(&[b'?', 3, b'A']);
    assert_eq!(command, Command::PrintChar { character: 'A' });
    assert_eq!(next, 3);
}

#[test]
fn decode_stat_file() {
    let (command, next) = decoded(&[b'?', 4, 4, 0, b'/', b'd', b'i', b'r']);
    assert_eq!(command, Command::StatFile { path: "/dir".to_string() });
    assert_eq!(next, 8);
}

#[test]
fn decode_read_directory() {
    let (command, next) = decoded(&[b'?', 5, 0x03, 0x00, 2, 0, b'/', b'x']);
    assert_eq!(
        command,
        Command::ReadDirectory {
            options: ReadDirectoryOptions { path: "/x".to_string(), index: 3 }
        }
    );
    assert_eq!(next, 8);
}

#[test]
fn decode_starts_at_given_position() {
    let input = vec![b'?', 0, 1, 0, b'?', 0, 2, 0];
    match read_command(&input, 4) {
        DecodeResult::Decoded { command, next } => {
            assert_eq!(command, Command::Identify { nonce: 2 });
            assert_eq!(next, 8);
        }
        DecodeResult::Incomplete => panic!("expected a complete frame"),
    }
}

#[test]
fn encode_identify_bytes() {
    let frame = encode_command(&Command::Identify { nonce: 42 });
    assert_eq!(frame, vec![b'?', 0, 0x2A, 0x00]);
}

#[test]
fn encode_decode_identify() {
    let command = Command::Identify { nonce: 0xBEEF };
    let frame = encode_command(&command);
    let (back, next) = decoded(&frame);
    assert_eq!(back, command);
    assert_eq!(next, frame.len());
}

#[test]
fn encode_decode_send_file_small_offset() {
    let command = Command::SendFile {
        options: SendFileOptions { path: "/dir/file.bin".to_string(), offset: 255, length: 512 },
    };
    let frame = encode_command(&command);
    let (back, next) = decoded(&frame);
    assert_eq!(back, command);
    assert_eq!(next, frame.len());
}

#[test]
fn encode_decode_send_file_large_offset_is_asymmetric() {
    // The asymmetric 32-bit pair reshuffles large offsets: this pins
    // the behavior as it is on the wire today.
    let command = Command::SendFile {
        options: SendFileOptions { path: "/f".to_string(), offset: 0x12345678, length: 0 },
    };
    let frame = encode_command(&command);
    let (back, _next) = decoded(&frame);
    assert_eq!(
        back,
        Command::SendFile {
            options: SendFileOptions { path: "/f".to_string(), offset: 0x34565678, length: 0 }
        }
    );
}

#[test]
fn encode_decode_request_char() {
    let command = Command::RequestChar;
    let frame = encode_command(&command);
    assert_eq!(frame, vec![b'?', 2]);
    let (back, next) = decoded(&frame);
    assert_eq!(back, command);
    assert_eq!(next, 2);
}

#[test]
fn encode_decode_print_char() {
    let command = Command::PrintChar { character: '\u{e9}' };
    let frame = encode_command(&command);
    assert_eq!(frame, vec![b'?', 3, 0xE9]);
    let (back, next) = decoded(&frame);
    assert_eq!(back, command);
    assert_eq!(next, 3);
}

#[test]
fn encode_decode_stat_file() {
    let command = Command::StatFile { path: "/some/path".to_string() };
    let frame = encode_command(&command);
    let (back, next) = decoded(&frame);
    assert_eq!(back, command);
    assert_eq!(next, frame.len());
}

#[test]
fn encode_decode_read_directory() {
    let command = Command::ReadDirectory {
        options: ReadDirectoryOptions { path: "/".to_string(), index: 7 },
    };
    let frame = encode_command(&command);
    let (back, next) = decoded(&frame);
    assert_eq!(back, command);
    assert_eq!(next, frame.len());
}

#[test]
fn encode_decode_empty_path() {
    let command = Command::StatFile { path: String::new() };
    let frame = encode_command(&command);
    assert_eq!(frame, vec![b'?', 4, 0, 0]);
    let (back, next) = decoded(&frame);
    assert_eq!(back, command);
    assert_eq!(next, 4);
}
