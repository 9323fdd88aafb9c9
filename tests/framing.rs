use native_tools::framing::{
    parse_framed_message, write_framed_message, FRAME_HEADER_LEN, MSG_TYPE_AUDIO, MSG_TYPE_JSON,
};
use native_tools::pcm::{append_pcm16_le, write_audio_chunk};

#[test]
fn test_write_framed_message_structure() {
    let mut buffer = Vec::new();
    let test_data = b"test";

    write_framed_message(&mut buffer, MSG_TYPE_JSON, test_data).unwrap();

    // [msg_type(1)] + [length(4)] + [data(4)]
    assert_eq!(buffer.len(), 9);
    assert_eq!(buffer[0], MSG_TYPE_JSON);

    let length = u32::from_le_bytes([buffer[1], buffer[2], buffer[3], buffer[4]]);
    assert_eq!(length, 4);

    assert_eq!(&buffer[5..9], test_data);
}

#[test]
fn test_write_framed_message_audio_type() {
    let mut buffer = Vec::new();
    let audio_data = vec![0u8; 100];

    write_framed_message(&mut buffer, MSG_TYPE_AUDIO, &audio_data).unwrap();

    assert_eq!(buffer[0], MSG_TYPE_AUDIO);
    let length = u32::from_le_bytes([buffer[1], buffer[2], buffer[3], buffer[4]]);
    assert_eq!(length, 100);
}

#[test]
fn framed_message_appends_after_existing_bytes() {
    let mut buffer = vec![9u8, 9];
    write_framed_message(&mut buffer, MSG_TYPE_JSON, b"").unwrap();
    assert_eq!(buffer, vec![9, 9, 1, 0, 0, 0, 0]);
}

#[test]
fn framed_message_length_is_little_endian() {
    let mut buffer = Vec::new();
    let data = vec![7u8; 0x0102];
    write_framed_message(&mut buffer, MSG_TYPE_AUDIO, &data).unwrap();
    assert_eq!(&buffer[0..5], &[2, 0x02, 0x01, 0, 0]);
    assert_eq!(buffer.len(), 5 + 0x0102);
}

#[test]
fn framed_message_round_trip() {
    let mut buffer = Vec::new();
    let payload = br#"{"type":"drain-complete"}"#;
    write_framed_message(&mut buffer, MSG_TYPE_JSON, payload).unwrap();
    write_framed_message(&mut buffer, MSG_TYPE_AUDIO, &[1, 2, 3, 4]).unwrap();

    let (first, used) = parse_framed_message(&buffer).unwrap();
    assert_eq!(first.kind, MSG_TYPE_JSON);
    assert_eq!(first.payload, payload.to_vec());
    assert_eq!(used, FRAME_HEADER_LEN + payload.len());

    let (second, used2) = parse_framed_message(&buffer[used..]).unwrap();
    assert_eq!(second.kind, MSG_TYPE_AUDIO);
    assert_eq!(second.payload, vec![1, 2, 3, 4]);
    assert_eq!(used + used2, buffer.len());
}

#[test]
fn incomplete_frames_do_not_parse() {
    assert!(parse_framed_message(&[]).is_none());
    assert!(parse_framed_message(&[1, 4, 0, 0]).is_none());
    assert!(parse_framed_message(&[1, 4, 0, 0, 0, b't', b'e', b's']).is_none());
    let (m, used) = parse_framed_message(&[1, 0, 0, 0, 0]).unwrap();
    assert_eq!(m.kind, 1);
    assert!(m.payload.is_empty());
    assert_eq!(used, 5);
}

#[test]
fn pcm_samples_are_little_endian_twos_complement() {
    let mut out = Vec::new();
    append_pcm16_le(&mut out, &[0, 1, -1, 32767, -32767, -32768, 0x1234]);
    assert_eq!(
        out,
        vec![0, 0, 1, 0, 0xff, 0xff, 0xff, 0x7f, 0x01, 0x80, 0x00, 0x80, 0x34, 0x12]
    );
}

#[test]
fn audio_chunk_is_framed_pcm() {
    let mut buffer = Vec::new();
    write_audio_chunk(&mut buffer, &[16383, -2]).unwrap();
    assert_eq!(buffer, vec![2, 4, 0, 0, 0, 0xff, 0x3f, 0xfe, 0xff]);

    let mut empty = Vec::new();
    write_audio_chunk(&mut empty, &[]).unwrap();
    assert_eq!(empty, vec![2, 0, 0, 0, 0]);
}
