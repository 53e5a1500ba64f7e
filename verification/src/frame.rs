//! Framing of messages on the byte stream: a four-byte length in the host's
//! byte order, then that many bytes of UTF-8 text.

use byteorder::{BigEndian, ByteOrder, LittleEndian, NativeEndian};
use vstd::prelude::*;
use vstd::slice::slice_subrange;
use vstd::string::StringSliceAdditionalSpecFns;
use vstd::utf8::{encode_utf8, encode_utf8_decode_utf8, encode_utf8_valid_utf8, valid_utf8};

verus! {

/// The order in which the four bytes of a length stand.
#[derive(Clone, Copy, Debug, PartialEq, Eq, Structural)]
pub enum Endian {
    /// Least significant byte first.
    Little,
    /// Most significant byte first.
    Big,
}

/// Why no frame can be built around a text.
#[derive(Clone, Copy, Debug, PartialEq, Eq, Structural)]
pub enum EncodeError {
    /// The text's length in bytes does not fit the four-byte prefix.
    TooLong,
}

/// Why the bytes after a complete length prefix are no message.
#[derive(Clone, Copy, Debug, PartialEq, Eq, Structural)]
pub enum DecodeError {
    /// Fewer bytes follow the prefix than it announces.
    Truncated,
    /// The announced bytes are not UTF-8.
    InvalidUtf8,
}

/// A message taken from the front of a buffer.
#[derive(Clone, Copy, Debug, PartialEq, Eq)]
pub struct Frame<'a> {
    /// The message's text.
    pub text: &'a str,
    /// How many bytes of the buffer the frame took, prefix included.
    pub consumed: usize,
}

/// The four bytes of `n`, least significant first.
pub open spec fn le_bytes(n: u32) -> Seq<u8> {
    seq![
        (n % 256) as u8,
        ((n / 256) % 256) as u8,
        ((n / 65536) % 256) as u8,
        (n / 16777216) as u8,
    ]
}

/// The four bytes of `n`, most significant first.
pub open spec fn be_bytes(n: u32) -> Seq<u8> {
    seq![
        (n / 16777216) as u8,
        ((n / 65536) % 256) as u8,
        ((n / 256) % 256) as u8,
        (n % 256) as u8,
    ]
}

/// The number whose four bytes, least significant first, open `bytes`.
pub open spec fn le_value(bytes: Seq<u8>) -> int
    recommends
        bytes.len() >= 4,
{
    bytes[0] + 256 * bytes[1] + 65536 * bytes[2] + 16777216 * bytes[3]
}

/// The number whose four bytes, most significant first, open `bytes`.
pub open spec fn be_value(bytes: Seq<u8>) -> int
    recommends
        bytes.len() >= 4,
{
    16777216 * bytes[0] + 65536 * bytes[1] + 256 * bytes[2] + bytes[3]
}

/// The length prefix that announces `n` bytes.
pub open spec fn prefix_bytes(n: u32, order: Endian) -> Seq<u8> {
    match order {
        Endian::Little => le_bytes(n),
        Endian::Big => be_bytes(n),
    }
}

/// The length that the first four bytes of `bytes` announce.
pub open spec fn prefix_value(bytes: Seq<u8>, order: Endian) -> int
    recommends
        bytes.len() >= 4,
{
    match order {
        Endian::Little => le_value(bytes),
        Endian::Big => be_value(bytes),
    }
}

/// The frame around `body`: its length, then the body itself.
pub open spec fn frame_of(body: Seq<u8>, order: Endian) -> Seq<u8>
    recommends
        body.len() <= u32::MAX,
{
    prefix_bytes(body.len() as u32, order) + body
}

/// What the front of a buffer holds.
pub enum Decoded {
    /// Not even a whole length prefix: nothing to act on.
    NoCommand,
    /// A whole prefix, and fewer bytes behind it than it announces.
    Truncated,
    /// A whole frame whose body is not UTF-8.
    InvalidUtf8,
    /// A whole frame with a UTF-8 body, and the bytes it takes in all.
    Text { body: Seq<u8>, consumed: int },
}

/// What the front of `input` holds, read in the given byte order.
pub open spec fn decoded(input: Seq<u8>, order: Endian) -> Decoded {
    if input.len() < 4 {
        Decoded::NoCommand
    } else if input.len() - 4 < prefix_value(input, order) {
        Decoded::Truncated
    } else {
        let body = input.subrange(4, 4 + prefix_value(input, order));
        if valid_utf8(body) {
            Decoded::Text { body, consumed: 4 + prefix_value(input, order) }
        } else {
            Decoded::InvalidUtf8
        }
    }
}

/// `byteorder::LittleEndian::read_u32`: the number that the first four bytes
/// of the buffer spell, least significant byte first. It panics on a buffer
/// of fewer than four bytes, which the precondition leaves out.
#[verifier::external_body]
fn read_u32_le(buf: &[u8]) -> (n: u32)
    requires
        buf@.len() >= 4,
    ensures
        n == le_value(buf@),
{
    LittleEndian::read_u32(buf)
}

/// `byteorder::BigEndian::read_u32`: the number that the first four bytes of
/// the buffer spell, most significant byte first. It panics on a buffer of
/// fewer than four bytes, which the precondition leaves out.
#[verifier::external_body]
fn read_u32_be(buf: &[u8]) -> (n: u32)
    requires
        buf@.len() >= 4,
    ensures
        n == be_value(buf@),
{
    BigEndian::read_u32(buf)
}

/// `byteorder::NativeEndian::read_u32`: the number that the first four bytes
/// of the buffer spell in the host's byte order, which is one of the two.
#[verifier::external_body]
fn read_u32_native(buf: &[u8]) -> (n: u32)
    requires
        buf@.len() >= 4,
    ensures
        n == le_value(buf@) || n == be_value(buf@),
{
    NativeEndian::read_u32(buf)
}

/// `byteorder::LittleEndian::write_u32` into a buffer of four bytes: the
/// buffer then holds the bytes of the number, least significant first.
#[verifier::external_body]
fn u32_bytes_le(n: u32) -> (out: Vec<u8>)
    ensures
        out@ == le_bytes(n),
{
    let mut buf = vec![0u8; 4];
    LittleEndian::write_u32(&mut buf, n);
    buf
}

/// `byteorder::BigEndian::write_u32` into a buffer of four bytes: the buffer
/// then holds the bytes of the number, most significant first.
#[verifier::external_body]
fn u32_bytes_be(n: u32) -> (out: Vec<u8>)
    ensures
        out@ == be_bytes(n),
{
    let mut buf = vec![0u8; 4];
    BigEndian::write_u32(&mut buf, n);
    buf
}

/// `core::str::Utf8Error`, the error of `core::str::from_utf8`.
#[verifier::external_type_specification]
#[verifier::external_body]
pub struct ExUtf8Error(core::str::Utf8Error);

/// `core::str::from_utf8` succeeds exactly on valid UTF-8, and the text it
/// returns is made of the very bytes it was given.
pub assume_specification[ core::str::from_utf8 ](v: &[u8]) -> (r: Result<&str, core::str::Utf8Error>)
    ensures
        r is Ok <==> valid_utf8(v@),
        r is Ok ==> r->Ok_0.spec_bytes() == v@,
;

impl Endian {
    /// The byte order of this machine: the one that spells its reading of the probe.
    pub fn native() -> (order: Endian) {
        let mut bytes: Vec<u8> = Vec::new();
        bytes.push(1u8);
        bytes.push(0u8);
        bytes.push(0u8);
        bytes.push(0u8);
        assert(bytes@ =~= probe());
        let answer: u32 = read_u32_native(bytes.as_slice());
        Endian::spelling(answer)
    }

    /// The order in which the probe spells `answer`: least significant byte
    /// first where the answer is one, most significant first otherwise. For
    /// either of the two numbers that the probe can spell, the probe read in
    /// the order returned gives that number, and read in the other order it
    /// does not.
    pub fn spelling(answer: u32) -> (order: Endian)
        ensures
            order == if answer == 1 {
                Endian::Little
            } else {
                Endian::Big
            },
            answer == le_value(probe()) || answer == be_value(probe()) ==> prefix_value(
                probe(),
                order,
            ) == answer,
            answer == le_value(probe()) || answer == be_value(probe()) ==> prefix_value(
                probe(),
                order.other(),
            ) != answer,
    {
        if answer == 1 {
            Endian::Little
        } else {
            Endian::Big
        }
    }

    /// The opposite byte order.
    pub open spec fn other(self) -> Endian {
        match self {
            Endian::Little => Endian::Big,
            Endian::Big => Endian::Little,
        }
    }
}

/// The four bytes that the host is asked to read to show its byte order: the
/// number one, least significant byte first.
pub open spec fn probe() -> Seq<u8> {
    seq![1u8, 0u8, 0u8, 0u8]
}

/// The length prefix for a body of `n` bytes.
pub fn length_prefix(n: u32, order: Endian) -> (out: Vec<u8>)
    ensures
        out@ == prefix_bytes(n, order),
{
    match order {
        Endian::Little => u32_bytes_le(n),
        Endian::Big => u32_bytes_be(n),
    }
}

/// Builds the frame that carries `text`: the length of the text in bytes as a
/// four-byte prefix, then the text. A text too long for the prefix is
/// refused.
pub fn encode_frame(text: &str, order: Endian) -> (r: Result<Vec<u8>, EncodeError>)
    ensures
        text.spec_bytes().len() <= u32::MAX ==> r is Ok && r->Ok_0@ == frame_of(
            text.spec_bytes(),
            order,
        ),
        text.spec_bytes().len() > u32::MAX ==> r == Err::<Vec<u8>, EncodeError>(
            EncodeError::TooLong,
        ),
{
    let body = text.as_bytes();
    if body.len() > 0xffff_ffff {
        return Err(EncodeError::TooLong);
    }
    let mut out = length_prefix(body.len() as u32, order);
    let ghost prefix = out@;
    let mut i: usize = 0;
    while i < body.len()
        invariant
            i <= body.len(),
            out@ == prefix + body@.subrange(0, i as int),
        decreases body.len() - i,
    {
        out.push(body[i]);
        i += 1;
        assert(out@ =~= prefix + body@.subrange(0, i as int));
    }
    assert(body@.subrange(0, i as int) =~= body@);
    Ok(out)
}

/// The length that a prefix announces, or nothing where the prefix is cut
/// short.
pub fn body_length(prefix: &[u8], order: Endian) -> (len: Option<u32>)
    ensures
        prefix@.len() < 4 ==> len is None,
        prefix@.len() >= 4 ==> len == Some(prefix_value(prefix@, order) as u32),
        prefix@.len() >= 4 ==> 0 <= prefix_value(prefix@, order) <= u32::MAX,
{
    if prefix.len() < 4 {
        return None;
    }
    let n = match order {
        Endian::Little => read_u32_le(prefix),
        Endian::Big => read_u32_be(prefix),
    };
    Some(n)
}

/// Reads the announced bytes as text. Bytes that are not UTF-8 are an error.
pub fn decode_body<'a>(body: &'a [u8]) -> (r: Result<&'a str, DecodeError>)
    ensures
        valid_utf8(body@) ==> r is Ok && r->Ok_0.spec_bytes() == body@,
        !valid_utf8(body@) ==> r == Err::<&str, DecodeError>(DecodeError::InvalidUtf8),
{
    match core::str::from_utf8(body) {
        Ok(text) => Ok(text),
        Err(_) => Err(DecodeError::InvalidUtf8),
    }
}

/// Takes one frame from the front of `input`. Without a whole length prefix
/// there is no command and no error. After a whole prefix, too few bytes or
/// bytes that are not UTF-8 are errors.
pub fn decode_frame<'a>(input: &'a [u8], order: Endian) -> (r: Result<
    Option<Frame<'a>>,
    DecodeError,
>)
    ensures
        match decoded(input@, order) {
            Decoded::NoCommand => r == Ok::<Option<Frame<'a>>, DecodeError>(None),
            Decoded::Truncated => r == Err::<Option<Frame<'a>>, DecodeError>(
                DecodeError::Truncated,
            ),
            Decoded::InvalidUtf8 => r == Err::<Option<Frame<'a>>, DecodeError>(
                DecodeError::InvalidUtf8,
            ),
            Decoded::Text { body, consumed } => r is Ok && r->Ok_0 is Some
                && r->Ok_0->Some_0.text.spec_bytes() == body && r->Ok_0->Some_0.consumed
                == consumed,
        },
{
    let len = match body_length(input, order) {
        None => {
            return Ok(None);
        },
        Some(len) => len,
    };
    if input.len() - 4 < len as usize {
        return Err(DecodeError::Truncated);
    }
    let end: usize = 4 + len as usize;
    let body = slice_subrange(input, 4, end);
    match decode_body(body) {
        Ok(text) => Ok(Some(Frame { text, consumed: end })),
        Err(e) => Err(e),
    }
}

/// A frame decodes to the body it was built around: where the body is UTF-8,
/// the decoder returns exactly that body and takes the whole frame; where it
/// is not, the decoder reports that, and nothing else.
pub proof fn lemma_frame_round_trip(body: Seq<u8>, order: Endian)
    requires
        body.len() <= u32::MAX,
    ensures
        frame_of(body, order).len() == 4 + body.len(),
        prefix_value(frame_of(body, order), order) == body.len(),
        valid_utf8(body) ==> decoded(frame_of(body, order), order) == (Decoded::Text {
            body,
            consumed: 4 + body.len() as int,
        }),
        !valid_utf8(body) ==> decoded(frame_of(body, order), order) == Decoded::InvalidUtf8,
{
    let n = body.len() as u32;
    let frame = frame_of(body, order);
    assert(frame.subrange(4, 4 + body.len() as int) =~= body);
    match order {
        Endian::Little => {
            assert(frame[0] == le_bytes(n)[0]);
            assert(frame[1] == le_bytes(n)[1]);
            assert(frame[2] == le_bytes(n)[2]);
            assert(frame[3] == le_bytes(n)[3]);
        },
        Endian::Big => {
            assert(frame[0] == be_bytes(n)[0]);
            assert(frame[1] == be_bytes(n)[1]);
            assert(frame[2] == be_bytes(n)[2]);
            assert(frame[3] == be_bytes(n)[3]);
        },
    }
}

/// Every text survives framing: the frame around a text's bytes decodes to
/// those bytes, takes the whole frame, and no other text has those bytes.
pub proof fn lemma_text_round_trip(text: Seq<char>, order: Endian)
    requires
        encode_utf8(text).len() <= u32::MAX,
    ensures
        decoded(frame_of(encode_utf8(text), order), order) == (Decoded::Text {
            body: encode_utf8(text),
            consumed: 4 + encode_utf8(text).len() as int,
        }),
        forall|other: Seq<char>| #[trigger] encode_utf8(other) == encode_utf8(text) ==> other == text,
{
    encode_utf8_valid_utf8(text);
    lemma_frame_round_trip(encode_utf8(text), order);
    assert forall|other: Seq<char>| #[trigger] encode_utf8(other) == encode_utf8(text) implies other
        == text by {
        encode_utf8_decode_utf8(other);
        encode_utf8_decode_utf8(text);
    }
}

/// A frame that was cut short: with fewer than four bytes left there is no
/// command; with the prefix whole and the body cut, the frame is truncated.
pub proof fn lemma_cut_frame(body: Seq<u8>, order: Endian, kept: int)
    requires
        body.len() <= u32::MAX,
        0 <= kept < 4 + body.len(),
    ensures
        kept < 4 ==> decoded(frame_of(body, order).take(kept), order) == Decoded::NoCommand,
        kept >= 4 ==> decoded(frame_of(body, order).take(kept), order) == Decoded::Truncated,
{
    lemma_frame_round_trip(body, order);
    let frame = frame_of(body, order);
    let cut = frame.take(kept);
    if kept >= 4 {
        assert(cut[0] == frame[0] && cut[1] == frame[1] && cut[2] == frame[2] && cut[3]
            == frame[3]);
    }
}

} // verus!
