//! The protocol codec: frames the device's byte stream into responses and
//! renders commands as the lines the device expects.
//!
//! A frame is the run of bytes before the first carriage return. Leading
//! colons are link noise and are dropped before a frame is read. A frame that
//! begins with `PWR=` or `SOURCE=` carries a two-digit hexadecimal code; any
//! other frame is passed through as text.

use crate::buffer::{advance, as_slice, buffered, write_str};
use crate::protocol::{Power, PowerStatus, Source};
use bytes::BytesMut;
use vstd::prelude::*;
use vstd::string::{StringExecFns, StringSliceAdditionalSpecFns};
use vstd::utf8::{decode_utf8, valid_utf8};

verus! {

/// Carriage return, the byte that ends a frame.
pub const CR: u8 = 0x0d;

/// Line feed, the second byte of the terminator of an outbound line.
pub const LF: u8 = 0x0a;

/// Colon, the sentinel byte that may precede a frame.
pub const COLON: u8 = 0x3a;

/// The codec. It keeps no state of its own: what is left undecoded stays in
/// the buffer that the caller hands in.
pub struct EpsonCodec {}

/// A response decoded from one frame.
#[derive(Debug, PartialEq, Eq)]
pub enum EpsonOutput {
    InvalidLine(String),
    PowerStatus(PowerStatus),
    SourceStatus(Source),
}

/// A command for the device.
#[derive(Clone, Copy, Debug, PartialEq, Eq, Structural)]
pub enum EpsonInput {
    QueryPower,
    QuerySource,
    SetPower(Power),
    SetSource(Source),
}

/// Why a frame could not be decoded, or a command not be written.
#[derive(Debug, PartialEq, Eq)]
pub enum CodecError {
    /// The bytes where a two-digit hexadecimal code was expected; at most the
    /// first two bytes that follow the prefix.
    MalformedHex(Vec<u8>),
    /// A well-formed code that stands for no power status.
    UnknownPowerStatus(u8),
    /// A well-formed code that stands for no source.
    UnknownSource(u8),
    /// A source without a numeric code.
    InvalidSource(Source),
    /// The output buffer could not take the line.
    WriteFailed,
}

/// What an `EpsonOutput` holds, with its text as a sequence of characters.
pub enum Response {
    InvalidLine(Seq<char>),
    PowerStatus(PowerStatus),
    SourceStatus(Source),
}

/// What a `CodecError` holds, with its bytes as a sequence.
pub enum CodecFault {
    MalformedHex(Seq<u8>),
    UnknownPowerStatus(u8),
    UnknownSource(u8),
    InvalidSource(Source),
    WriteFailed,
}

impl View for EpsonOutput {
    type V = Response;

    open spec fn view(&self) -> Response {
        match self {
            EpsonOutput::InvalidLine(text) => Response::InvalidLine(text@),
            EpsonOutput::PowerStatus(status) => Response::PowerStatus(*status),
            EpsonOutput::SourceStatus(source) => Response::SourceStatus(*source),
        }
    }
}

impl View for CodecError {
    type V = CodecFault;

    open spec fn view(&self) -> CodecFault {
        match self {
            CodecError::MalformedHex(text) => CodecFault::MalformedHex(text@),
            CodecError::UnknownPowerStatus(code) => CodecFault::UnknownPowerStatus(*code),
            CodecError::UnknownSource(code) => CodecFault::UnknownSource(*code),
            CodecError::InvalidSource(source) => CodecFault::InvalidSource(*source),
            CodecError::WriteFailed => CodecFault::WriteFailed,
        }
    }
}

/// The outcome of one decoding step as a mathematical value.
pub open spec fn decoded_view(result: Result<Option<EpsonOutput>, CodecError>) -> Result<
    Option<Response>,
    CodecFault,
> {
    match result {
        Ok(None) => Ok(None),
        Ok(Some(output)) => Ok(Some(output@)),
        Err(error) => Err(error@),
    }
}

/// The outcome of reading one frame as a mathematical value.
pub open spec fn parsed_view(result: Result<EpsonOutput, CodecError>) -> Result<
    Response,
    CodecFault,
> {
    match result {
        Ok(output) => Ok(output@),
        Err(error) => Err(error@),
    }
}

// ---------------------------------------------------------------------------
// Hexadecimal digits
// ---------------------------------------------------------------------------
/// The value of an ASCII hexadecimal digit, upper or lower case.
pub open spec fn hex_value(digit: u8) -> Option<u8> {
    if ('0' as u8) <= digit <= ('9' as u8) {
        Some((digit - ('0' as u8)) as u8)
    } else if ('a' as u8) <= digit <= ('f' as u8) {
        Some((digit - ('a' as u8) + 10) as u8)
    } else if ('A' as u8) <= digit <= ('F' as u8) {
        Some((digit - ('A' as u8) + 10) as u8)
    } else {
        None
    }
}

/// The lower-case ASCII hexadecimal digit for a value below sixteen.
pub open spec fn hex_digit(value: u8) -> u8
    recommends
        value < 16,
{
    if value < 10 {
        (('0' as u8) + value) as u8
    } else {
        (('a' as u8) + (value - 10)) as u8
    }
}

/// A code rendered as two lower-case hexadecimal digits, high digit first.
pub open spec fn hex_pair(code: u8) -> Seq<u8> {
    seq![hex_digit(code / 16), hex_digit(code % 16)]
}

/// The code that the first two bytes of `digits` spell in hexadecimal, or
/// the malformed text: the first two bytes, or all of them where there are
/// fewer.
pub open spec fn parse_code(digits: Seq<u8>) -> Result<u8, CodecFault> {
    if digits.len() >= 2 && hex_value(digits[0]) is Some && hex_value(digits[1]) is Some {
        Ok((16 * hex_value(digits[0])->0 + hex_value(digits[1])->0) as u8)
    } else if digits.len() >= 2 {
        Err(CodecFault::MalformedHex(digits.take(2)))
    } else {
        Err(CodecFault::MalformedHex(digits))
    }
}

fn hex_digit_value(digit: u8) -> (value: Option<u8>)
    ensures
        value == hex_value(digit),
        value matches Some(v) ==> v < 16,
{
    if ('0' as u8) <= digit && digit <= ('9' as u8) {
        Some(digit - ('0' as u8))
    } else if ('a' as u8) <= digit && digit <= ('f' as u8) {
        Some(digit - ('a' as u8) + 10)
    } else if ('A' as u8) <= digit && digit <= ('F' as u8) {
        Some(digit - ('A' as u8) + 10)
    } else {
        None
    }
}

// ---------------------------------------------------------------------------
// Frames
// ---------------------------------------------------------------------------
/// The prefix of a power status report, `PWR=`.
pub open spec fn power_prefix() -> Seq<u8> {
    seq![('P' as u8), ('W' as u8), ('R' as u8), ('=' as u8)]
}

/// The prefix of a source report, `SOURCE=`.
pub open spec fn source_prefix() -> Seq<u8> {
    seq![('S' as u8), ('O' as u8), ('U' as u8), ('R' as u8), ('C' as u8), ('E' as u8), ('=' as u8)]
}

/// A frame without its leading colons.
pub open spec fn strip_colons(frame: Seq<u8>) -> Seq<u8>
    decreases frame.len(),
{
    if frame.len() > 0 && frame[0] == COLON {
        strip_colons(frame.skip(1))
    } else {
        frame
    }
}

/// The message of the error that the standard library reports for bytes that
/// are not valid UTF-8.
pub uninterp spec fn utf8_error_text(bytes: Seq<u8>) -> Seq<char>;

/// `std::str::from_utf8`, with both outcomes as owned strings: the text that
/// the bytes encode where they are valid UTF-8, and otherwise the message of
/// the error that the standard library reports for them.
#[verifier::external_body]
fn text_of(bytes: &[u8]) -> (text: Result<String, String>)
    ensures
        text is Ok <==> valid_utf8(bytes@),
        text matches Ok(decoded) ==> decoded@ == decode_utf8(bytes@),
        text matches Err(message) ==> message@ == utf8_error_text(bytes@),
{
    match std::str::from_utf8(bytes) {
        Ok(decoded) => Ok(decoded.to_string()),
        Err(error) => Err(error.to_string()),
    }
}

/// The text that stands for an unrecognised line: the line itself where it is
/// valid UTF-8, and otherwise a description of why it is not.
pub open spec fn line_text(line: Seq<u8>) -> Seq<char> {
    if valid_utf8(line) {
        decode_utf8(line)
    } else {
        "failed to decode; error = "@ + utf8_error_text(line)
    }
}

/// The response that a line stands for, once its leading colons are gone.
pub open spec fn parse_line(line: Seq<u8>) -> Result<Response, CodecFault> {
    if power_prefix().is_prefix_of(line) {
        match parse_code(line.skip(4)) {
            Ok(code) => match PowerStatus::of_code(code) {
                Some(status) => Ok(Response::PowerStatus(status)),
                None => Err(CodecFault::UnknownPowerStatus(code)),
            },
            Err(fault) => Err(fault),
        }
    } else if source_prefix().is_prefix_of(line) {
        match parse_code(line.skip(7)) {
            Ok(code) => match Source::of_code(code) {
                Some(source) => Ok(Response::SourceStatus(source)),
                None => Err(CodecFault::UnknownSource(code)),
            },
            Err(fault) => Err(fault),
        }
    } else {
        Ok(Response::InvalidLine(line_text(line)))
    }
}

/// One decoding step on a buffer: what it yields, and what it leaves.
pub struct Decoded {
    pub result: Result<Option<Response>, CodecFault>,
    pub rest: Seq<u8>,
}

/// One decoding step. Without a carriage return nothing is consumed and
/// nothing yielded. A carriage return in front is consumed alone. Otherwise
/// the bytes before the first carriage return are consumed and read as a
/// frame; the carriage return itself stays.
pub open spec fn decode_step(buf: Seq<u8>) -> Decoded {
    match buf.index_of_first(CR) {
        None => Decoded { result: Ok(None), rest: buf },
        Some(at) => if at == 0 {
            Decoded { result: Ok(None), rest: buf.skip(1) }
        } else {
            Decoded {
                result: match parse_line(strip_colons(buf.take(at))) {
                    Ok(response) => Ok(Some(response)),
                    Err(fault) => Err(fault),
                },
                rest: buf.skip(at),
            }
        },
    }
}

// ---------------------------------------------------------------------------
// Decoding
// ---------------------------------------------------------------------------
/// The index of the first carriage return among `bytes`.
fn find_frame_end(bytes: &[u8]) -> (at: Option<usize>)
    ensures
        match at {
            Some(index) => index < bytes@.len() && bytes@.index_of_first(CR) == Some(index as int),
            None => bytes@.index_of_first(CR) is None,
        },
{
    let mut index: usize = 0;
    while index < bytes.len()
        invariant
            index <= bytes.len(),
            forall|i: int| 0 <= i < index ==> bytes@[i] != CR,
        decreases bytes.len() - index,
    {
        if bytes[index] == CR {
            proof {
                lemma_first_index(bytes@, CR, index as int);
            }
            return Some(index);
        }
        index += 1;
    }
    proof {
        bytes@.index_of_first_ensures(CR);
    }
    None
}

/// Where a byte occurs at `at` and not before, `at` is its first index.
pub proof fn lemma_first_index(bytes: Seq<u8>, needle: u8, at: int)
    requires
        0 <= at < bytes.len(),
        bytes[at] == needle,
        forall|i: int| 0 <= i < at ==> bytes[i] != needle,
    ensures
        bytes.index_of_first(needle) == Some(at),
{
    bytes.index_of_first_ensures(needle);
    assert(bytes.contains(needle));
}

/// Whether `bytes` begins with `prefix`.
fn starts_with(bytes: &[u8], prefix: &[u8]) -> (yes: bool)
    ensures
        yes == prefix@.is_prefix_of(bytes@),
{
    if bytes.len() < prefix.len() {
        return false;
    }
    let mut index: usize = 0;
    while index < prefix.len()
        invariant
            index <= prefix.len() <= bytes.len(),
            forall|i: int| 0 <= i < index ==> bytes@[i] == prefix@[i],
        decreases prefix.len() - index,
    {
        if bytes[index] != prefix[index] {
            assert(bytes@.subrange(0, prefix@.len() as int)[index as int] != prefix@[index as int]);
            return false;
        }
        index += 1;
    }
    assert(prefix@ =~= bytes@.subrange(0, prefix@.len() as int));
    true
}

impl EpsonCodec {
    pub fn new() -> (codec: Self) {
        Self {  }
    }

    /// Drops the colons in front of a line.
    fn skip_colons(line: &mut BytesMut)
        ensures
            buffered(*final(line)) == strip_colons(buffered(*old(line))),
    {
        loop
            invariant
                strip_colons(buffered(*line)) == strip_colons(buffered(*old(line))),
            ensures
                buffered(*line) == strip_colons(buffered(*old(line))),
            decreases buffered(*line).len(),
        {
            let bytes = as_slice(line);
            if bytes.len() > 0 && bytes[0] == COLON {
                advance(line, 1);
            } else {
                break;
            }
        }
    }

    /// Takes the two hexadecimal digits in front of `line` and gives the code
    /// they spell.
    fn parse_u8(line: &mut BytesMut) -> (code: Result<u8, CodecError>)
        ensures
            match code {
                Ok(value) => parse_code(buffered(*old(line))) == Ok::<u8, CodecFault>(value),
                Err(error) => parse_code(buffered(*old(line))) == Err::<u8, CodecFault>(error@),
            },
    {
        if line.len() < 2 {
            let text = vstd::slice::slice_to_vec(as_slice(line));
            return Err(CodecError::MalformedHex(text));
        }
        let digits = line.split_to(2);
        let text = as_slice(&digits);
        match (hex_digit_value(text[0]), hex_digit_value(text[1])) {
            (Some(high), Some(low)) => Ok(16 * high + low),
            _ => Err(CodecError::MalformedHex(vstd::slice::slice_to_vec(text))),
        }
    }

    /// Reads a line that begins with `PWR=`.
    fn parse_power_status(line: &mut BytesMut) -> (output: Result<EpsonOutput, CodecError>)
        requires
            power_prefix().is_prefix_of(buffered(*old(line))),
        ensures
            parsed_view(output) == parse_line(buffered(*old(line))),
    {
        advance(line, 4);
        match Self::parse_u8(line) {
            Ok(code) => match PowerStatus::from_u8(code) {
                Some(status) => Ok(EpsonOutput::PowerStatus(status)),
                None => Err(CodecError::UnknownPowerStatus(code)),
            },
            Err(error) => Err(error),
        }
    }

    /// Reads a line that begins with `SOURCE=`.
    fn parse_source_status(line: &mut BytesMut) -> (output: Result<EpsonOutput, CodecError>)
        requires
            source_prefix().is_prefix_of(buffered(*old(line))),
            !power_prefix().is_prefix_of(buffered(*old(line))),
        ensures
            parsed_view(output) == parse_line(buffered(*old(line))),
    {
        advance(line, 7);
        match Self::parse_u8(line) {
            Ok(code) => match Source::from_u8(code) {
                Some(source) => Ok(EpsonOutput::SourceStatus(source)),
                None => Err(CodecError::UnknownSource(code)),
            },
            Err(error) => Err(error),
        }
    }

    /// Reads a line that is neither report: its text.
    fn parse_other(line: &BytesMut) -> (output: EpsonOutput)
        requires
            !power_prefix().is_prefix_of(buffered(*line)),
            !source_prefix().is_prefix_of(buffered(*line)),
        ensures
            Ok::<Response, CodecFault>(output@) == parse_line(buffered(*line)),
    {
        match text_of(as_slice(line)) {
            Ok(text) => EpsonOutput::InvalidLine(text),
            Err(message) => {
                let mut text = String::from_str("failed to decode; error = ");
                text.append(message.as_str());
                EpsonOutput::InvalidLine(text)
            },
        }
    }

    /// Takes the next frame off the front of `src` and decodes it.
    ///
    /// Without a carriage return in `src` there is no frame yet: the result
    /// is `Ok(None)` and `src` is left as it was. A carriage return in front
    /// is consumed and yields nothing. Otherwise the bytes before the first
    /// carriage return leave `src` and are decoded, leading colons dropped:
    /// a power or source report gives its status or a decode error, any other
    /// line is passed on as `InvalidLine`.
    pub fn decode(&mut self, src: &mut BytesMut) -> (result: Result<
        Option<EpsonOutput>,
        CodecError,
    >)
        ensures
            decoded_view(result) == decode_step(buffered(*old(src))).result,
            buffered(*final(src)) == decode_step(buffered(*old(src))).rest,
    {
        match find_frame_end(as_slice(src)) {
            None => Ok(None),
            Some(offset) => {
                if offset == 0 {
                    advance(src, 1);
                    return Ok(None);
                }
                let mut line = src.split_to(offset);
                Self::skip_colons(&mut line);
                let power: [u8; 4] = [('P' as u8), ('W' as u8), ('R' as u8), ('=' as u8)];
                let source: [u8; 7] = [('S' as u8), ('O' as u8), ('U' as u8), ('R' as u8), ('C' as u8), ('E' as u8), ('=' as u8)];
                if starts_with(as_slice(&line), &power) {
                    match Self::parse_power_status(&mut line) {
                        Ok(output) => Ok(Some(output)),
                        Err(error) => Err(error),
                    }
                } else if starts_with(as_slice(&line), &source) {
                    match Self::parse_source_status(&mut line) {
                        Ok(output) => Ok(Some(output)),
                        Err(error) => Err(error),
                    }
                } else {
                    Ok(Some(Self::parse_other(&line)))
                }
            },
        }
    }
}

// ---------------------------------------------------------------------------
// Encoding
// ---------------------------------------------------------------------------
/// The bytes of a text of ASCII characters.
pub open spec fn ascii(text: Seq<char>) -> Seq<u8> {
    Seq::new(text.len(), |i: int| text[i] as u8)
}

/// The line that stands for a command, without its terminator.
pub open spec fn command_line(item: EpsonInput) -> Seq<u8> {
    match item {
        EpsonInput::QueryPower => ascii("PWR?"@),
        EpsonInput::QuerySource => ascii("SOURCE?"@),
        EpsonInput::SetPower(Power::On) => ascii("POWER ON"@),
        EpsonInput::SetPower(Power::Off) => ascii("POWER OFF"@),
        EpsonInput::SetSource(source) => ascii("SOURCE "@) + hex_pair(source.code()),
    }
}

/// The bytes that a command puts on the wire: its line, then carriage return
/// and line feed.
pub open spec fn encoded(item: EpsonInput) -> Seq<u8> {
    command_line(item) + seq![CR, LF]
}

/// Writing a line to a buffer: how it ends, and what the buffer then holds.
pub struct Written {
    pub result: Result<(), CodecFault>,
    pub buffer: Seq<u8>,
}

/// Writing `line` and its terminator to a buffer that holds `buf`. Each of
/// the two is written whole or not at all, and only while the buffer stays
/// within `isize::MAX` bytes; the first that does not fit ends the writing
/// with `WriteFailed`.
pub open spec fn write_step(line: Seq<u8>, buf: Seq<u8>) -> Written {
    if buf.len() + line.len() > isize::MAX {
        Written { result: Err(CodecFault::WriteFailed), buffer: buf }
    } else if buf.len() + line.len() + 2 > isize::MAX {
        Written { result: Err(CodecFault::WriteFailed), buffer: buf + line }
    } else {
        Written { result: Ok(()), buffer: buf + line + seq![CR, LF] }
    }
}

/// The outcome of writing as a mathematical value.
pub open spec fn written_view(result: Result<(), CodecError>) -> Result<(), CodecFault> {
    match result {
        Ok(()) => Ok(()),
        Err(error) => Err(error@),
    }
}

/// The bytes of an ASCII string are its characters, one byte each.
proof fn lemma_ascii_bytes(text: &str)
    requires
        vstd::utf8::is_ascii_chars(text@),
    ensures
        text.spec_bytes() == ascii(text@),
{
    vstd::string::is_ascii_spec_bytes(text);
    assert(text.spec_bytes() =~= ascii(text@));
}

/// The lower-case hexadecimal digit for `value`, as a string of one character.
fn hex_digit_text(value: u8) -> (text: &'static str)
    requires
        value < 16,
    ensures
        text@ == seq![hex_digit(value) as char],
{
    let text = match value {
        0 => "0",
        1 => "1",
        2 => "2",
        3 => "3",
        4 => "4",
        5 => "5",
        6 => "6",
        7 => "7",
        8 => "8",
        9 => "9",
        10 => "a",
        11 => "b",
        12 => "c",
        13 => "d",
        14 => "e",
        _ => "f",
    };
    proof {
        reveal_strlit("0");
        reveal_strlit("1");
        reveal_strlit("2");
        reveal_strlit("3");
        reveal_strlit("4");
        reveal_strlit("5");
        reveal_strlit("6");
        reveal_strlit("7");
        reveal_strlit("8");
        reveal_strlit("9");
        reveal_strlit("a");
        reveal_strlit("b");
        reveal_strlit("c");
        reveal_strlit("d");
        reveal_strlit("e");
        reveal_strlit("f");
        assert(text@ =~= seq![hex_digit(value) as char]);
    }
    text
}

impl EpsonCodec {
    /// Writes `line`, then carriage return and line feed.
    fn write_line(dst: &mut BytesMut, line: &str) -> (result: Result<(), CodecError>)
        requires
            vstd::utf8::is_ascii_chars(line@),
        ensures
            written_view(result) == write_step(ascii(line@), buffered(*old(dst))).result,
            buffered(*final(dst)) == write_step(ascii(line@), buffered(*old(dst))).buffer,
    {
        proof {
            lemma_ascii_bytes(line);
        }
        if !write_str(dst, line) {
            return Err(CodecError::WriteFailed);
        }
        let terminator = "\r\n";
        proof {
            reveal_strlit("\r\n");
            lemma_ascii_bytes(terminator);
            assert(ascii(terminator@) =~= seq![CR, LF]);
        }
        if !write_str(dst, terminator) {
            return Err(CodecError::WriteFailed);
        }
        Ok(())
    }

    fn write_query_power(dst: &mut BytesMut) -> (result: Result<(), CodecError>)
        ensures
            written_view(result) == write_step(
                command_line(EpsonInput::QueryPower),
                buffered(*old(dst)),
            ).result,
            buffered(*final(dst)) == write_step(
                command_line(EpsonInput::QueryPower),
                buffered(*old(dst)),
            ).buffer,
    {
        proof {
            reveal_strlit("PWR?");
        }
        Self::write_line(dst, "PWR?")
    }

    fn write_query_source(dst: &mut BytesMut) -> (result: Result<(), CodecError>)
        ensures
            written_view(result) == write_step(
                command_line(EpsonInput::QuerySource),
                buffered(*old(dst)),
            ).result,
            buffered(*final(dst)) == write_step(
                command_line(EpsonInput::QuerySource),
                buffered(*old(dst)),
            ).buffer,
    {
        proof {
            reveal_strlit("SOURCE?");
        }
        Self::write_line(dst, "SOURCE?")
    }

    fn write_set_power(dst: &mut BytesMut, power: Power) -> (result: Result<(), CodecError>)
        ensures
            written_view(result) == write_step(
                command_line(EpsonInput::SetPower(power)),
                buffered(*old(dst)),
            ).result,
            buffered(*final(dst)) == write_step(
                command_line(EpsonInput::SetPower(power)),
                buffered(*old(dst)),
            ).buffer,
    {
        proof {
            reveal_strlit("POWER ON");
            reveal_strlit("POWER OFF");
        }
        match power {
            Power::On => Self::write_line(dst, "POWER ON"),
            Power::Off => Self::write_line(dst, "POWER OFF"),
        }
    }

    fn write_set_source(dst: &mut BytesMut, source: Source) -> (result: Result<(), CodecError>)
        ensures
            written_view(result) == write_step(
                command_line(EpsonInput::SetSource(source)),
                buffered(*old(dst)),
            ).result,
            buffered(*final(dst)) == write_step(
                command_line(EpsonInput::SetSource(source)),
                buffered(*old(dst)),
            ).buffer,
    {
        let source_value = match source.to_u8() {
            Some(value) => value,
            None => {
                return Err(CodecError::InvalidSource(source));
            },
        };
        let mut cmd = String::from_str("SOURCE ");
        cmd.append(hex_digit_text(source_value / 16));
        cmd.append(hex_digit_text(source_value % 16));
        proof {
            reveal_strlit("SOURCE ");
            assert(ascii(cmd@) =~= ascii("SOURCE "@) + hex_pair(source.code()));
        }
        Self::write_line(dst, cmd.as_str())
    }

    /// Appends to `dst` the line that stands for `item`, ended by carriage
    /// return and line feed.
    ///
    /// The line and its terminator are appended one after the other, each
    /// only if `dst` stays within `isize::MAX` bytes with it. The result is
    /// `Ok` when both were appended, and `WriteFailed` otherwise. Every
    /// command has a line: no other error comes back.
    pub fn encode(&mut self, item: EpsonInput, dst: &mut BytesMut) -> (result: Result<
        (),
        CodecError,
    >)
        ensures
            written_view(result) == write_step(command_line(item), buffered(*old(dst))).result,
            buffered(*final(dst)) == write_step(command_line(item), buffered(*old(dst))).buffer,
    {
        match item {
            EpsonInput::QueryPower => Self::write_query_power(dst),
            EpsonInput::QuerySource => Self::write_query_source(dst),
            EpsonInput::SetPower(power) => Self::write_set_power(dst, power),
            EpsonInput::SetSource(source) => Self::write_set_source(dst, source),
        }
    }
}

} // verus!
