//! Laws of the codec, stated over its mathematical model.

use crate::epson_codec::{
    decode_step, hex_digit, hex_pair, hex_value, lemma_first_index, parse_code, parse_line,
    power_prefix, source_prefix, strip_colons, CodecFault, Decoded, Response, COLON, CR,
};
use crate::protocol::{PowerStatus, Source};
use vstd::prelude::*;

verus! {

/// A buffer without a carriage return holds no complete frame: decoding
/// yields nothing, reports no error, and consumes nothing.
pub proof fn lemma_no_carriage_return(buf: Seq<u8>)
    requires
        !buf.contains(CR),
    ensures
        decode_step(buf) == (Decoded { result: Ok(None), rest: buf }),
{
    buf.index_of_first_ensures(CR);
}

/// A carriage return in front of the buffer is an empty frame: it is
/// consumed, alone, and yields no response.
pub proof fn lemma_leading_carriage_return(buf: Seq<u8>)
    requires
        buf.len() > 0,
        buf[0] == CR,
    ensures
        decode_step(buf) == (Decoded { result: Ok(None), rest: buf.skip(1) }),
{
    lemma_first_index(buf, CR, 0);
}

/// A frame of at least one byte, followed by a carriage return and anything
/// else: the frame is consumed and read without its leading colons, and the
/// carriage return stays in the buffer with what follows it.
pub proof fn lemma_frame(frame: Seq<u8>, tail: Seq<u8>)
    requires
        frame.len() > 0,
        !frame.contains(CR),
    ensures
        decode_step(frame + seq![CR] + tail).rest == seq![CR] + tail,
        decode_step(frame + seq![CR] + tail).result == match parse_line(strip_colons(frame)) {
            Ok(response) => Ok::<Option<Response>, CodecFault>(Some(response)),
            Err(fault) => Err(fault),
        },
{
    let buf = frame + seq![CR] + tail;
    let at = frame.len() as int;
    assert forall|i: int| 0 <= i < at implies buf[i] != CR by {
        assert(buf[i] == frame[i]);
        assert(frame.contains(frame[i]));
    }
    lemma_first_index(buf, CR, at);
    assert(buf.take(at) =~= frame);
    assert(buf.skip(at) =~= seq![CR] + tail);
}

/// Two hexadecimal digits spell the code sixteen times the first plus the
/// second; two bytes that are not both hexadecimal digits are malformed.
pub proof fn lemma_parse_code_pair(high: u8, low: u8)
    ensures
        parse_code(seq![high, low]) == match (hex_value(high), hex_value(low)) {
            (Some(h), Some(l)) => Ok::<u8, CodecFault>((16 * h + l) as u8),
            _ => Err(CodecFault::MalformedHex(seq![high, low])),
        },
{
    let digits = seq![high, low];
    assert(digits.take(2) =~= digits);
}

/// Rendering a code as two hexadecimal digits and reading them back gives
/// the code.
pub proof fn lemma_hex_round_trip(code: u8)
    ensures
        parse_code(hex_pair(code)) == Ok::<u8, CodecFault>(code),
        hex_value(hex_digit(code / 16)) == Some((code / 16) as u8),
        hex_value(hex_digit(code % 16)) == Some((code % 16) as u8),
        !hex_pair(code).contains(CR),
        hex_pair(code).len() == 2,
{
    let pair = hex_pair(code);
    assert(pair[0] == hex_digit(code / 16));
    assert(pair[1] == hex_digit(code % 16));
    assert(16 * (code / 16) + code % 16 == code);
}

/// A power report with two hexadecimal digits decodes to the power status
/// that the digits stand for where they stand for one, namely for the codes
/// 00, 01, 02, 03, 05 and 07, and fails as an unknown power status for every
/// other code.
pub proof fn lemma_decode_power_report(high: u8, low: u8)
    requires
        hex_value(high) is Some,
        hex_value(low) is Some,
    ensures
        ({
            let code = (16 * hex_value(high)->0 + hex_value(low)->0) as u8;
            let step = decode_step(power_prefix() + seq![high, low] + seq![CR]);
            &&& step.rest == seq![CR]
            &&& step.result == match PowerStatus::of_code(code) {
                Some(status) => Ok::<Option<Response>, CodecFault>(
                    Some(Response::PowerStatus(status)),
                ),
                None => Err(CodecFault::UnknownPowerStatus(code)),
            }
            &&& PowerStatus::of_code(code) is Some <==> (code == 0x00 || code == 0x01 || code
                == 0x02 || code == 0x03 || code == 0x05 || code == 0x07)
        }),
{
    let code = (16 * hex_value(high)->0 + hex_value(low)->0) as u8;
    let frame = power_prefix() + seq![high, low];
    assert(!frame.contains(CR));
    lemma_frame(frame, Seq::empty());
    assert(frame + seq![CR] + Seq::<u8>::empty() =~= power_prefix() + seq![high, low] + seq![CR]);
    assert(seq![CR] + Seq::<u8>::empty() =~= seq![CR]);
    assert(strip_colons(frame) == frame);
    assert(power_prefix() =~= frame.subrange(0, 4));
    assert(frame.skip(4) =~= seq![high, low]);
    lemma_parse_code_pair(high, low);
    PowerStatus::lemma_code_table(PowerStatus::LampOn, code);
}

/// A power report whose two bytes are not both hexadecimal digits fails to
/// decode, and the error names the two bytes.
pub proof fn lemma_decode_malformed_power_report(high: u8, low: u8)
    requires
        hex_value(high) is None || hex_value(low) is None,
        high != CR,
        low != CR,
    ensures
        decode_step(power_prefix() + seq![high, low] + seq![CR]).result == Err::<
            Option<Response>,
            CodecFault,
        >(CodecFault::MalformedHex(seq![high, low])),
{
    let frame = power_prefix() + seq![high, low];
    assert(!frame.contains(CR));
    lemma_frame(frame, Seq::empty());
    assert(frame + seq![CR] + Seq::<u8>::empty() =~= power_prefix() + seq![high, low] + seq![CR]);
    assert(strip_colons(frame) == frame);
    assert(power_prefix() =~= frame.subrange(0, 4));
    assert(frame.skip(4) =~= seq![high, low]);
    lemma_parse_code_pair(high, low);
}

/// Each source comes back from its own code: a source report that carries
/// the code of a source, rendered as the two hexadecimal digits that a
/// command carries, decodes to that source.
pub proof fn lemma_source_round_trip(source: Source)
    ensures
        Source::of_code(source.code()) == Some(source),
        decode_step(source_prefix() + hex_pair(source.code()) + seq![CR]).result == Ok::<
            Option<Response>,
            CodecFault,
        >(Some(Response::SourceStatus(source))),
{
    let code = source.code();
    let frame = source_prefix() + hex_pair(code);
    lemma_hex_round_trip(code);
    assert(!frame.contains(CR));
    lemma_frame(frame, Seq::empty());
    assert(frame + seq![CR] + Seq::<u8>::empty() =~= source_prefix() + hex_pair(code) + seq![CR]);
    assert(strip_colons(frame) == frame);
    assert(source_prefix() =~= frame.subrange(0, 7));
    assert(!power_prefix().is_prefix_of(frame)) by {
        assert(frame.subrange(0, 4)[0] == frame[0]);
    }
    assert(frame.skip(7) =~= hex_pair(code));
    Source::lemma_code_table(source, code);
}

/// Each power status comes back from its own code in the same way.
pub proof fn lemma_power_status_round_trip(status: PowerStatus)
    ensures
        PowerStatus::of_code(status.code()) == Some(status),
        decode_step(power_prefix() + hex_pair(status.code()) + seq![CR]).result == Ok::<
            Option<Response>,
            CodecFault,
        >(Some(Response::PowerStatus(status))),
{
    let code = status.code();
    lemma_hex_round_trip(code);
    let pair = hex_pair(code);
    assert(pair =~= seq![pair[0], pair[1]]);
    lemma_decode_power_report(pair[0], pair[1]);
    PowerStatus::lemma_code_table(status, code);
}

/// `count` colons.
pub open spec fn colons(count: nat) -> Seq<u8> {
    Seq::new(count, |i: int| COLON)
}

/// Colons in front of a frame do not change what it is read as.
pub proof fn lemma_strip_leading_colons(count: nat, frame: Seq<u8>)
    ensures
        strip_colons(colons(count) + frame) == strip_colons(frame),
    decreases count,
{
    if count == 0 {
        assert(colons(count) + frame =~= frame);
    } else {
        let all = colons(count) + frame;
        assert(all[0] == COLON);
        assert(all.skip(1) =~= colons((count - 1) as nat) + frame);
        lemma_strip_leading_colons((count - 1) as nat, frame);
    }
}

/// Leading colons are stripped: a buffer that does not begin with a carriage
/// return decodes to the same result with any number of colons put in front
/// of it, and where it holds a frame, the same bytes are left over.
///
/// A buffer that begins with a carriage return is left out: alone it is an
/// empty frame and yields nothing, while behind a colon it ends a frame of
/// its own, which is passed on as an empty line.
pub proof fn lemma_leading_colons(count: nat, buf: Seq<u8>)
    requires
        buf.len() > 0 ==> buf[0] != CR,
    ensures
        decode_step(colons(count) + buf).result == decode_step(buf).result,
        buf.contains(CR) ==> decode_step(colons(count) + buf).rest == decode_step(buf).rest,
{
    let all = colons(count) + buf;
    buf.index_of_first_ensures(CR);
    match buf.index_of_first(CR) {
        None => {
            assert(!all.contains(CR)) by {
                if all.contains(CR) {
                    let i = choose|i: int| 0 <= i < all.len() && all[i] == CR;
                    assert(i >= count);
                    assert(buf[i - count] == CR);
                    assert(buf.contains(CR));
                }
            }
            lemma_no_carriage_return(all);
        },
        Some(at) => {
            assert(at > 0);
            let frame = buf.take(at);
            let tail = buf.skip(at + 1);
            assert(buf =~= frame + seq![CR] + tail);
            assert(!frame.contains(CR)) by {
                if frame.contains(CR) {
                    let i = choose|i: int| 0 <= i < frame.len() && frame[i] == CR;
                    assert(buf[i] == CR);
                }
            }
            lemma_frame(frame, tail);
            let longer = colons(count) + frame;
            assert(all =~= longer + seq![CR] + tail);
            assert(!longer.contains(CR)) by {
                if longer.contains(CR) {
                    let i = choose|i: int| 0 <= i < longer.len() && longer[i] == CR;
                    if i >= count {
                        assert(frame[i - count] == CR);
                        assert(frame.contains(CR));
                    }
                }
            }
            lemma_frame(longer, tail);
            lemma_strip_leading_colons(count, frame);
        },
    }
}

} // verus!
