//! The primitive codec: single bytes and fixed-width little-endian
//! integers, read from and written to plain byte buffers.
//!
//! A reader takes a buffer and a position and returns the decoded value
//! together with the position just past it, or `None` when the buffer
//! ends too early.  A writer appends the encoding to a growing buffer.

use vstd::prelude::*;

verus! {

/// The value of a 16-bit field transmitted low byte first.
pub open spec fn spec_u16(lo: u8, hi: u8) -> u16 {
    ((hi as u16) << 8) | (lo as u16)
}

/// The two bytes of a 16-bit value on the wire, low byte first.
pub open spec fn spec_u16_bytes(value: u16) -> Seq<u8> {
    seq![value as u8, (value >> 8) as u8]
}

/// Reads one byte at `pos`.
pub fn read_byte(input: &Vec<u8>, pos: usize) -> (r: Option<(u8, usize)>)
    ensures
        pos < input.len() ==> r == Some((input[pos as int], (pos + 1) as usize)),
        pos >= input.len() ==> r is None,
{
    if pos < input.len() {
        Some((input[pos], pos + 1))
    } else {
        None
    }
}

/// Appends one byte.
pub fn write_byte(output: &mut Vec<u8>, value: u8)
    ensures
        final(output)@ == old(output)@.push(value),
{
    output.push(value);
}

/// Reads a 16-bit value at `pos`: low byte first, then high byte.
pub fn read_u16(input: &Vec<u8>, pos: usize) -> (r: Option<(u16, usize)>)
    ensures
        pos + 2 <= input.len() ==> r == Some((
            spec_u16(input[pos as int], input[pos + 1]),
            (pos + 2) as usize,
        )),
        pos + 2 > input.len() ==> r is None,
{
    match read_byte(input, pos) {
        Some((low, p)) => match read_byte(input, p) {
            Some((high, q)) => Some((((high as u16) << 8) | (low as u16), q)),
            None => None,
        },
        None => None,
    }
}

/// Appends a 16-bit value: low byte first, then high byte.
pub fn write_u16(output: &mut Vec<u8>, value: u16)
    ensures
        final(output)@ == old(output)@ + spec_u16_bytes(value),
{
    #[verifier::truncate]
    let low: u8 = value as u8;
    #[verifier::truncate]
    let high: u8 = (value >> 8) as u8;
    write_byte(output, low);
    write_byte(output, high);
    assert(output@ =~= old(output)@ + spec_u16_bytes(value));
}

/// Encoding then decoding a 16-bit value gives the value back.
pub proof fn lemma_u16_round_trip(value: u16)
    ensures
        spec_u16(spec_u16_bytes(value)[0], spec_u16_bytes(value)[1]) == value,
{
    assert(((((value >> 8) as u8) as u16) << 8) | ((value as u8) as u16) == value)
        by (bit_vector);
}

/// The value of a 32-bit field transmitted as two 16-bit fields: the
/// first is the low half, the second the high half.
pub open spec fn spec_u32(lo: u16, hi: u16) -> u32 {
    ((hi as u32) << 16) | (lo as u32)
}

/// The four bytes of a 32-bit value on the wire.  The high half is the
/// value shifted by 8 bits, not 16: the writer and the reader of 32-bit
/// fields genuinely disagree in this protocol, and the wire format
/// keeps the writer's shift.  `lemma_u32_codec` states exactly what a
/// reader gets back, and `lemma_u32_round_trip_exact` says for which
/// values the pair is lossless.
pub open spec fn spec_u32_bytes(value: u32) -> Seq<u8> {
    #[verifier::truncate]
    let low: u16 = value as u16;
    #[verifier::truncate]
    let high: u16 = (value >> 8) as u16;
    spec_u16_bytes(low) + spec_u16_bytes(high)
}

/// Reads a 32-bit value at `pos` as two 16-bit fields, low half first.
pub fn read_u32(input: &Vec<u8>, pos: usize) -> (r: Option<(u32, usize)>)
    ensures
        pos + 4 <= input.len() ==> r == Some((
            spec_u32(
                spec_u16(input[pos as int], input[pos + 1]),
                spec_u16(input[pos + 2], input[pos + 3]),
            ),
            (pos + 4) as usize,
        )),
        pos + 4 > input.len() ==> r is None,
{
    match read_u16(input, pos) {
        Some((low, p)) => match read_u16(input, p) {
            Some((high, q)) => Some((((high as u32) << 16) | (low as u32), q)),
            None => None,
        },
        None => None,
    }
}

/// Appends a 32-bit value as two 16-bit fields: the value's low half,
/// then the value shifted by 8 bits (see `spec_u32_bytes`).
pub fn write_u32(output: &mut Vec<u8>, value: u32)
    ensures
        final(output)@ == old(output)@ + spec_u32_bytes(value),
{
    #[verifier::truncate]
    let low: u16 = value as u16;
    #[verifier::truncate]
    let high: u16 = (value >> 8) as u16;
    write_u16(output, low);
    write_u16(output, high);
    assert(output@ =~= old(output)@ + spec_u32_bytes(value));
}

/// What decoding an encoded 32-bit value yields: bits 8 to 23 of the
/// original land in the high half, bits 0 to 15 in the low half.
pub open spec fn spec_u32_reread(value: u32) -> u32 {
    #[verifier::truncate]
    let low: u16 = value as u16;
    #[verifier::truncate]
    let high: u16 = (value >> 8) as u16;
    spec_u32(low, high)
}

/// Writing then reading a 32-bit field gives `spec_u32_reread`, not the
/// original value: the asymmetry of the two shifts, stated exactly.
pub proof fn lemma_u32_codec(value: u32)
    ensures
        spec_u32(
            spec_u16(spec_u32_bytes(value)[0], spec_u32_bytes(value)[1]),
            spec_u16(spec_u32_bytes(value)[2], spec_u32_bytes(value)[3]),
        ) == spec_u32_reread(value),
{
    #[verifier::truncate]
    let low: u16 = value as u16;
    #[verifier::truncate]
    let high: u16 = (value >> 8) as u16;
    assert(spec_u32_bytes(value)[0] == spec_u16_bytes(low)[0]);
    assert(spec_u32_bytes(value)[1] == spec_u16_bytes(low)[1]);
    assert(spec_u32_bytes(value)[2] == spec_u16_bytes(high)[0]);
    assert(spec_u32_bytes(value)[3] == spec_u16_bytes(high)[1]);
    lemma_u16_round_trip(low);
    lemma_u16_round_trip(high);
}

/// A 32-bit value survives the write/read pair exactly when its high
/// half equals bits 8 to 23; a writer that shifted by 16 bits instead
/// of 8 would make the pair lossless for every value.
pub proof fn lemma_u32_round_trip_exact(value: u32)
    ensures
        spec_u32_reread(value) == value <==> (value >> 16) == ((value >> 8) & 0xFFFF),
{
    assert(((((value >> 8) as u16) as u32) << 16) | ((value as u16) as u32) == value
        <==> (value >> 16) == ((value >> 8) & 0xFFFF)) by (bit_vector);
}

/// Whether every character of `t` fits in one wire byte.  The
/// protocol's text is one code point per byte, so only characters
/// below 256 can travel.
pub open spec fn spec_text_fits(t: Seq<char>) -> bool {
    forall|i: int| 0 <= i < t.len() ==> (#[trigger] t[i] as u32) < 256
}

/// The wire bytes of a piece of text: one byte per character.
pub open spec fn spec_text_bytes(t: Seq<char>) -> Seq<u8> {
    t.map_values(|c: char| (c as u32) as u8)
}

/// The text read back from wire bytes: one character per byte.
pub open spec fn spec_text_chars(b: Seq<u8>) -> Seq<char> {
    b.map_values(|b0: u8| b0 as char)
}

/// Text whose characters all fit a byte survives the byte/character
/// round trip unchanged.
pub proof fn lemma_text_round_trip(t: Seq<char>)
    requires
        spec_text_fits(t),
    ensures
        spec_text_chars(spec_text_bytes(t)) =~= t,
{
    assert forall|i: int| 0 <= i < t.len() implies spec_text_chars(spec_text_bytes(t))[i] == t[i] by {
        assert((t[i] as u32) < 256);
        let v: u32 = t[i] as u32;
        assert(((v as u8) as u32) == v) by (bit_vector)
            requires
                v < 256,
        ;
        let b: u8 = v as u8;
        let c = b as char;
        assert((c as u32) == v);
        vstd::utf8::char_u32_cast(t[i], v);
        vstd::utf8::char_u32_cast(c, c as u32);
        assert(c == t[i]);
    }
}

/// Decides whether a piece of text can travel as a length-prefixed
/// string: its length fits the 16-bit count and every character fits
/// one byte.
pub fn text_fits(text: &str) -> (r: bool)
    ensures
        r == (text@.len() <= 0xFFFF && spec_text_fits(text@)),
{
    let n = text.unicode_len();
    if n > 0xFFFF {
        return false;
    }
    let mut k: usize = 0;
    while k < n
        invariant
            k <= n,
            n == text@.len(),
            forall|i: int| 0 <= i < k ==> (#[trigger] text@[i] as u32) < 256,
        decreases n - k,
    {
        let c = text.get_char(k);
        if c as u32 >= 256 {
            return false;
        }
        k += 1;
    }
    true
}

/// The wire bytes of a length-prefixed string: a 16-bit character
/// count, then one byte per character.
pub open spec fn spec_string_bytes(t: Seq<char>) -> Seq<u8> {
    spec_u16_bytes(t.len() as u16) + spec_text_bytes(t)
}

/// The result of reading a length-prefixed string at position `i` of
/// `s`: a 16-bit character count, then one byte per character.
pub open spec fn spec_read_string(s: Seq<u8>, i: int) -> Option<(Seq<char>, int)> {
    if i + 2 > s.len() {
        None
    } else {
        let n = spec_u16(s[i], s[i + 1]) as int;
        if i + 2 + n > s.len() {
            None
        } else {
            Some((spec_text_chars(s.subrange(i + 2, i + 2 + n)), i + 2 + n))
        }
    }
}

/// Relies on `String::push`: appends the given character to the end of
/// the string.
#[verifier::external_body]
fn push_char(text: &mut String, c: char)
    ensures
        final(text)@ == old(text)@.push(c),
{
    text.push(c);
}

/// Reads a length-prefixed string at `pos`: a 16-bit count, then that
/// many bytes, each byte one character.
pub fn read_string(input: &Vec<u8>, pos: usize) -> (r: Option<(String, usize)>)
    ensures
        match spec_read_string(input@, pos as int) {
            Some((text, next)) => r matches Some(p) && p.0@ == text && p.1 == next,
            None => r is None,
        },
{
    match read_u16(input, pos) {
        None => None,
        Some((count, p)) => {
            let n = count as usize;
            if n > input.len() - p {
                return None;
            }
            let mut text = String::new();
            let mut k: usize = 0;
            while k < n
                invariant
                    k <= n,
                    p + n <= input.len(),
                    text@ =~= spec_text_chars(input@.subrange(p as int, p + k)),
                decreases n - k,
            {
                let b = input[p + k];
                push_char(&mut text, b as char);
                k += 1;
                assert(text@ =~= spec_text_chars(input@.subrange(p as int, p + k)));
            }
            Some((text, p + n))
        },
    }
}

/// Appends a length-prefixed string: a 16-bit character count, then one
/// byte per character.  The count field caps the length, and a
/// character above 255 has no wire byte, so both are required.
pub fn write_string(output: &mut Vec<u8>, text: &str)
    requires
        text@.len() <= 0xFFFF,
        spec_text_fits(text@),
    ensures
        final(output)@ == old(output)@ + spec_string_bytes(text@),
{
    let n = text.unicode_len();
    #[verifier::truncate]
    let count: u16 = n as u16;
    write_u16(output, count);
    let mut k: usize = 0;
    while k < n
        invariant
            k <= n,
            n == text@.len() <= 0xFFFF,
            spec_text_fits(text@),
            output@ =~= old(output)@ + spec_u16_bytes(text@.len() as u16) + spec_text_bytes(
                text@.subrange(0, k as int),
            ),
        decreases n - k,
    {
        let c = text.get_char(k);
        #[verifier::truncate]
        let b: u8 = c as u8;
        write_byte(output, b);
        k += 1;
        assert(output@ =~= old(output)@ + spec_u16_bytes(text@.len() as u16) + spec_text_bytes(
            text@.subrange(0, k as int),
        ));
    }
    assert(text@.subrange(0, text@.len() as int) =~= text@);
}

/// Appends a length-prefixed byte payload: a 16-bit count, then the
/// bytes themselves.  The count field caps the payload at 65535 bytes;
/// callers clamp before writing.
pub fn write_vec(output: &mut Vec<u8>, data: &Vec<u8>)
    requires
        data.len() <= 0xFFFF,
    ensures
        final(output)@ == old(output)@ + spec_u16_bytes(data.len() as u16) + data@,
{
    #[verifier::truncate]
    let count: u16 = data.len() as u16;
    write_u16(output, count);
    let mut k: usize = 0;
    while k < data.len()
        invariant
            k <= data.len() <= 0xFFFF,
            output@ =~= old(output)@ + spec_u16_bytes(data.len() as u16) + data@.subrange(
                0,
                k as int,
            ),
        decreases data.len() - k,
    {
        write_byte(output, data[k]);
        k += 1;
        assert(output@ =~= old(output)@ + spec_u16_bytes(data.len() as u16) + data@.subrange(
            0,
            k as int,
        ));
    }
    assert(data@.subrange(0, data.len() as int) =~= data@);
}

} // verus!
