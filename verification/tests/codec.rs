use bytes::BytesMut;
use epson_bridge::epson_codec::{CodecError, EpsonCodec, EpsonInput, EpsonOutput};
use epson_bridge::protocol::{Power, PowerStatus, Source};

fn decode_all(input: &[u8]) -> (Result<Option<EpsonOutput>, CodecError>, Vec<u8>) {
    let mut codec = EpsonCodec::new();
    let mut buf = BytesMut::from(input);
    let result = codec.decode(&mut buf);
    (result, buf.to_vec())
}

fn encode_one(item: EpsonInput) -> Vec<u8> {
    let mut codec = EpsonCodec::new();
    let mut buf = BytesMut::with_capacity(1000);
    codec.encode(item, &mut buf).unwrap();
    buf.to_vec()
}

#[test]
fn test_decode() {
    let mut codec = EpsonCodec::new();
    let mut buf = BytesMut::from(&b":PWR=00\r:"[..]);

    let packet = codec.decode(&mut buf).unwrap().unwrap();
    assert_eq!(
        EpsonOutput::PowerStatus(PowerStatus::StandbyModeNetworkOff),
        packet
    );

    let packet = codec.decode(&mut buf).unwrap();
    assert!(packet.is_none(), "packet: {packet:?}");
}

#[test]
fn test_encode() {
    let mut codec = EpsonCodec::new();
    let mut buf = BytesMut::with_capacity(1000);
    codec.encode(EpsonInput::QueryPower, &mut buf).unwrap();
    assert_eq!("PWR?\r\n", std::str::from_utf8(&buf).unwrap());
}

#[test]
fn decode_leaves_the_carriage_return_then_consumes_it() {
    let mut codec = EpsonCodec::new();
    let mut buf = BytesMut::from(&b":PWR=00\r:"[..]);
    codec.decode(&mut buf).unwrap();
    assert_eq!(&buf[..], b"\r:");
    assert_eq!(codec.decode(&mut buf), Ok(None));
    assert_eq!(&buf[..], b":");
    assert_eq!(codec.decode(&mut buf), Ok(None));
    assert_eq!(&buf[..], b":");
}

#[test]
fn encode_set_source_renders_two_lowercase_hex_digits() {
    assert_eq!(encode_one(EpsonInput::SetSource(Source::Input1)), b"SOURCE 10\r\n");
    assert_eq!(encode_one(EpsonInput::SetSource(Source::Hdmi2)), b"SOURCE a0\r\n");
    assert_eq!(encode_one(EpsonInput::SetPower(Power::On)), b"POWER ON\r\n");
    assert_eq!(decode_all(b"SOURCE=A0\r").0, Ok(Some(EpsonOutput::SourceStatus(Source::Hdmi2))));
}

#[test]
fn decode_without_carriage_return_needs_more_data() {
    let (result, rest) = decode_all(b"PWR=01");
    assert_eq!(result, Ok(None));
    assert_eq!(rest, b"PWR=01");
    let (result, rest) = decode_all(b"");
    assert_eq!(result, Ok(None));
    assert_eq!(rest, b"");
}

#[test]
fn decode_discards_a_leading_carriage_return() {
    let (result, rest) = decode_all(b"\r");
    assert_eq!(result, Ok(None));
    assert_eq!(rest, b"");
    let (result, rest) = decode_all(b"\rPWR=01\r");
    assert_eq!(result, Ok(None));
    assert_eq!(rest, b"PWR=01\r");
}

#[test]
fn decode_strips_leading_colons() {
    let plain = decode_all(b"PWR=01\r");
    let noisy = decode_all(b"::PWR=01\r");
    assert_eq!(plain.0, Ok(Some(EpsonOutput::PowerStatus(PowerStatus::LampOn))));
    assert_eq!(plain, noisy);
    assert_eq!(noisy.1, b"\r");
}

#[test]
fn decode_colon_before_carriage_return_is_an_empty_line() {
    let (result, rest) = decode_all(b":\r");
    assert_eq!(result, Ok(Some(EpsonOutput::InvalidLine(String::new()))));
    assert_eq!(rest, b"\r");
}

#[test]
fn decode_every_power_code() {
    let digits = b"0123456789abcdef";
    for high in 0..16u8 {
        for low in 0..16u8 {
            let code = high * 16 + low;
            let frame = [b'P', b'W', b'R', b'=', digits[high as usize], digits[low as usize], b'\r'];
            let expected = match PowerStatus::from_u8(code) {
                Some(status) => Ok(Some(EpsonOutput::PowerStatus(status))),
                None => Err(CodecError::UnknownPowerStatus(code)),
            };
            assert_eq!(decode_all(&frame).0, expected);
            assert_eq!(
                PowerStatus::from_u8(code).is_some(),
                [0x00, 0x01, 0x02, 0x03, 0x05, 0x07].contains(&code)
            );
        }
    }
}

#[test]
fn decode_power_statuses_by_name() {
    let cases: [(&[u8], PowerStatus); 6] = [
        (b"PWR=00\r", PowerStatus::StandbyModeNetworkOff),
        (b"PWR=01\r", PowerStatus::LampOn),
        (b"PWR=02\r", PowerStatus::Warmup),
        (b"PWR=03\r", PowerStatus::CoolDown),
        (b"PWR=05\r", PowerStatus::AbnormalityStandby),
        (b"PWR=07\r", PowerStatus::WirelessHdStandby),
    ];
    for (frame, status) in cases {
        assert_eq!(decode_all(frame).0, Ok(Some(EpsonOutput::PowerStatus(status))));
    }
}

#[test]
fn source_codes_round_trip() {
    let sources = [
        (Source::Input1, 0x10u8),
        (Source::Input2DSub15, 0x20),
        (Source::Input2Rgb, 0x21),
        (Source::Input3Hdmi, 0x30),
        (Source::Input3DigitalRgb, 0x31),
        (Source::Video, 0x40),
        (Source::VideoRca, 0x41),
        (Source::Hdmi2, 0xa0),
    ];
    for (source, code) in sources {
        assert_eq!(source.to_u8(), Some(code));
        assert_eq!(Source::from_u8(code), Some(source));
        let sent = encode_one(EpsonInput::SetSource(source));
        assert_eq!(sent, format!("SOURCE {:02x}\r\n", code).into_bytes());
        let mut reply = b"SOURCE=".to_vec();
        reply.extend_from_slice(&sent[7..9]);
        reply.push(b'\r');
        assert_eq!(decode_all(&reply).0, Ok(Some(EpsonOutput::SourceStatus(source))));
    }
}

#[test]
fn decode_errors() {
    assert_eq!(decode_all(b"PWR=zz\r").0, Err(CodecError::MalformedHex(b"zz".to_vec())));
    assert_eq!(decode_all(b"PWR=+1\r").0, Err(CodecError::MalformedHex(b"+1".to_vec())));
    assert_eq!(decode_all(b"PWR=1\r").0, Err(CodecError::MalformedHex(b"1".to_vec())));
    assert_eq!(decode_all(b"PWR=\r").0, Err(CodecError::MalformedHex(Vec::new())));
    assert_eq!(decode_all(b"SOURCE=\xff\xfe\r").0, Err(CodecError::MalformedHex(vec![0xff, 0xfe])));
    assert_eq!(decode_all(b"PWR=04\r").0, Err(CodecError::UnknownPowerStatus(0x04)));
    assert_eq!(decode_all(b"PWR=FF\r").0, Err(CodecError::UnknownPowerStatus(0xff)));
    assert_eq!(decode_all(b"SOURCE=11\r").0, Err(CodecError::UnknownSource(0x11)));
    assert_eq!(decode_all(b"PWR=zz\rnext").1, b"\rnext");
}

#[test]
fn decode_ignores_what_follows_the_code() {
    assert_eq!(
        decode_all(b"PWR=01 and more\r").0,
        Ok(Some(EpsonOutput::PowerStatus(PowerStatus::LampOn)))
    );
}

#[test]
fn decode_passes_other_lines_through() {
    assert_eq!(
        decode_all(b"ERR\r").0,
        Ok(Some(EpsonOutput::InvalidLine("ERR".to_string())))
    );
    assert_eq!(
        decode_all(b":pwr=01\r").0,
        Ok(Some(EpsonOutput::InvalidLine("pwr=01".to_string())))
    );
    assert_eq!(
        decode_all("caf\u{e9}\r".as_bytes()).0,
        Ok(Some(EpsonOutput::InvalidLine("caf\u{e9}".to_string())))
    );
}

#[test]
fn decode_describes_bytes_that_are_no_text() {
    let bytes = b"ab\xff";
    let reason = std::str::from_utf8(bytes).unwrap_err();
    let mut frame = bytes.to_vec();
    frame.push(b'\r');
    assert_eq!(
        decode_all(&frame).0,
        Ok(Some(EpsonOutput::InvalidLine(format!("failed to decode; error = {reason}"))))
    );
}

#[test]
fn encode_every_command() {
    assert_eq!(encode_one(EpsonInput::QueryPower), b"PWR?\r\n");
    assert_eq!(encode_one(EpsonInput::QuerySource), b"SOURCE?\r\n");
    assert_eq!(encode_one(EpsonInput::SetPower(Power::On)), b"POWER ON\r\n");
    assert_eq!(encode_one(EpsonInput::SetPower(Power::Off)), b"POWER OFF\r\n");
    assert_eq!(encode_one(EpsonInput::SetSource(Source::Video)), b"SOURCE 40\r\n");
}

#[test]
fn encode_appends_to_what_the_buffer_holds() {
    let mut codec = EpsonCodec::new();
    let mut buf = BytesMut::from(&b"PWR?\r\n"[..]);
    assert_eq!(codec.encode(EpsonInput::QuerySource, &mut buf), Ok(()));
    assert_eq!(&buf[..], b"PWR?\r\nSOURCE?\r\n");
}

#[test]
fn decode_is_repeatable() {
    let input = b"::SOURCE=30\rPWR=01\r";
    assert_eq!(decode_all(input), decode_all(input));
    let mut codec = EpsonCodec::new();
    let mut buf = BytesMut::from(&input[..]);
    assert_eq!(codec.decode(&mut buf), Ok(Some(EpsonOutput::SourceStatus(Source::Input3Hdmi))));
    assert_eq!(codec.decode(&mut buf), Ok(None));
    assert_eq!(codec.decode(&mut buf), Ok(Some(EpsonOutput::PowerStatus(PowerStatus::LampOn))));
    assert_eq!(codec.decode(&mut buf), Ok(None));
    assert_eq!(&buf[..], b"");
}
