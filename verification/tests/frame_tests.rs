use media_mind::frame::{
    body_length, decode_body, decode_frame, encode_frame, length_prefix, DecodeError, Endian,
    Frame,
};

fn frame_le(text: &str) -> Vec<u8> {
    encode_frame(text, Endian::Little).unwrap()
}

#[test]
fn encode_little_endian_is_length_then_text() {
    let frame = frame_le("{\"command\":\"Play\"}");
    let mut expected = vec![18u8, 0, 0, 0];
    expected.extend_from_slice(b"{\"command\":\"Play\"}");
    assert_eq!(frame, expected);
}

#[test]
fn encode_big_endian_is_length_then_text() {
    let frame = encode_frame("{\"command\":\"Play\"}", Endian::Big).unwrap();
    let mut expected = vec![0u8, 0, 0, 18];
    expected.extend_from_slice(b"{\"command\":\"Play\"}");
    assert_eq!(frame, expected);
}

#[test]
fn encode_counts_bytes_not_characters() {
    let frame = frame_le("\u{e9}\u{20ac}");
    assert_eq!(frame, vec![5u8, 0, 0, 0, 0xc3, 0xa9, 0xe2, 0x82, 0xac]);
}

#[test]
fn encode_empty_text() {
    assert_eq!(frame_le(""), vec![0u8, 0, 0, 0]);
    assert_eq!(encode_frame("", Endian::Big), Ok(vec![0u8, 0, 0, 0]));
}

#[test]
fn length_prefix_of_a_million() {
    assert_eq!(length_prefix(1_000_000, Endian::Little), vec![0x40, 0x42, 0x0f, 0x00]);
    assert_eq!(length_prefix(1_000_000, Endian::Big), vec![0x00, 0x0f, 0x42, 0x40]);
    assert_eq!(length_prefix(u32::MAX, Endian::Little), vec![0xff; 4]);
    assert_eq!(length_prefix(0, Endian::Big), vec![0; 4]);
}

#[test]
fn body_length_reads_both_orders() {
    let prefix = [0x40u8, 0x42, 0x0f, 0x00];
    assert_eq!(body_length(&prefix, Endian::Little), Some(1_000_000));
    assert_eq!(body_length(&prefix, Endian::Big), Some(0x4042_0f00));
    assert_eq!(body_length(&[0xff; 4], Endian::Big), Some(u32::MAX));
}

#[test]
fn body_length_reads_only_the_first_four_bytes() {
    let bytes = [1u8, 2, 3, 4, 5, 6];
    assert_eq!(body_length(&bytes, Endian::Little), Some(0x0403_0201));
    assert_eq!(body_length(&bytes, Endian::Big), Some(0x0102_0304));
}

#[test]
fn body_length_of_a_cut_prefix_is_none() {
    assert_eq!(body_length(&[], Endian::Little), None);
    assert_eq!(body_length(&[1], Endian::Little), None);
    assert_eq!(body_length(&[1, 0], Endian::Big), None);
    assert_eq!(body_length(&[1, 0, 0], Endian::Big), None);
}

#[test]
fn native_order_is_the_hosts() {
    let order = Endian::native();
    assert_eq!(length_prefix(0x0102_0304, order), 0x0102_0304u32.to_ne_bytes().to_vec());
    assert_eq!(body_length(&0x0a0b_0c0du32.to_ne_bytes(), order), Some(0x0a0b_0c0d));
    let expected = if 1u32.to_ne_bytes()[0] == 1 { Endian::Little } else { Endian::Big };
    assert_eq!(order, expected);
}

#[test]
fn spelling_of_the_probe() {
    assert_eq!(Endian::spelling(1), Endian::Little);
    assert_eq!(Endian::spelling(0x0100_0000), Endian::Big);
    assert_eq!(Endian::spelling(u32::from_le_bytes([1, 0, 0, 0])), Endian::Little);
    assert_eq!(Endian::spelling(u32::from_be_bytes([1, 0, 0, 0])), Endian::Big);
    assert_eq!(Endian::spelling(u32::from_ne_bytes([1, 0, 0, 0])), Endian::native());
    assert_eq!(Endian::spelling(0), Endian::Big);
}

#[test]
fn decode_returns_what_encode_framed() {
    for order in [Endian::Little, Endian::Big] {
        for text in ["", "{}", "{\"command\":\"Next\"}", "caf\u{e9} \u{1f3b5}"] {
            let frame = encode_frame(text, order).unwrap();
            assert_eq!(
                decode_frame(&frame, order),
                Ok(Some(Frame { text, consumed: 4 + text.len() }))
            );
        }
    }
}

#[test]
fn decode_of_a_cut_prefix_is_no_command() {
    let frame = frame_le("{\"command\":\"Pause\"}");
    for kept in 0..4 {
        assert_eq!(decode_frame(&frame[..kept], Endian::Little), Ok(None));
        assert_eq!(decode_frame(&frame[..kept], Endian::Big), Ok(None));
    }
}

#[test]
fn decode_of_a_cut_body_is_truncated() {
    let frame = frame_le("{\"command\":\"Pause\"}");
    for kept in 4..frame.len() {
        assert_eq!(decode_frame(&frame[..kept], Endian::Little), Err(DecodeError::Truncated));
    }
    assert!(decode_frame(&frame, Endian::Little).is_ok());
}

#[test]
fn decode_of_bytes_that_are_not_utf8_fails() {
    let input = [2u8, 0, 0, 0, 0xff, 0xfe];
    assert_eq!(decode_frame(&input, Endian::Little), Err(DecodeError::InvalidUtf8));
    let cut_char = [1u8, 0, 0, 0, 0xc3, 0xa9];
    assert_eq!(decode_frame(&cut_char, Endian::Little), Err(DecodeError::InvalidUtf8));
}

#[test]
fn decode_takes_one_frame_and_leaves_the_rest() {
    let mut input = frame_le("first");
    input.extend_from_slice(&frame_le("second"));
    let one = decode_frame(&input, Endian::Little).unwrap().unwrap();
    assert_eq!(one, Frame { text: "first", consumed: 9 });
    let two = decode_frame(&input[one.consumed..], Endian::Little).unwrap().unwrap();
    assert_eq!(two, Frame { text: "second", consumed: 10 });
    assert_eq!(decode_frame(&input[19..], Endian::Little), Ok(None));
}

#[test]
fn decode_in_the_other_order_reads_another_length() {
    let frame = frame_le("ab");
    assert_eq!(decode_frame(&frame, Endian::Big), Err(DecodeError::Truncated));
}

#[test]
fn decode_of_an_empty_frame() {
    assert_eq!(
        decode_frame(&[0, 0, 0, 0, b'x'], Endian::Big),
        Ok(Some(Frame { text: "", consumed: 4 }))
    );
}

#[test]
fn decode_body_checks_utf8() {
    assert_eq!(decode_body(b"{\"command\":\"Raise\"}"), Ok("{\"command\":\"Raise\"}"));
    assert_eq!(decode_body(&[0xe2, 0x82, 0xac]), Ok("\u{20ac}"));
    assert_eq!(decode_body(&[0xe2, 0x82]), Err(DecodeError::InvalidUtf8));
    assert_eq!(decode_body(&[0xed, 0xa0, 0x80]), Err(DecodeError::InvalidUtf8));
    assert_eq!(decode_body(&[]), Ok(""));
}

#[test]
fn decode_takes_exactly_the_announced_bytes() {
    let text = "{\"command\":\"Update\",\"data\":{\"status\":\"Playing\",\"title\":\"Song\",\
                \"artists\":[\"Artist\"],\"art_url\":null,\"can_go_next\":true,\
                \"can_go_previous\":false,\"can_play\":false,\"can_pause\":true}}";
    let mut input = vec![41u8, 0, 0, 0];
    input.extend_from_slice(text.as_bytes());
    assert_eq!(
        decode_frame(&input, Endian::Little),
        Ok(Some(Frame { text: "{\"command\":\"Update\",\"data\":{\"status\":\"Pla", consumed: 45 }))
    );
    let whole = frame_le(text);
    assert_eq!(&whole[..4], &[text.len() as u8, 0, 0, 0]);
    assert_eq!(
        decode_frame(&whole, Endian::Little),
        Ok(Some(Frame { text, consumed: 4 + text.len() }))
    );
}
