use sma_inverter_exporter::bytes::{read_u16_be, read_u16_le, read_u32_le};
use sma_inverter_exporter::frame::{DeviceAddress, Endpoint, Field, Frame, MAX_PAYLOAD};

fn codec_sample(payload: Vec<u8>) -> Frame {
    Frame {
        group: 0,
        destination: Endpoint {
            address: DeviceAddress { low: 0x0403_0201, high: 0x0605 },
            susy_id: 0x0807,
        },
        source: Endpoint {
            address: DeviceAddress { low: 0x1413_1211, high: 0x1615 },
            susy_id: 0x1817,
        },
        control: 0x00A0,
        counter: 0x8001,
        session_id: 0xAABB_CCDD,
        opcode: 0x5100_0200,
        payload,
    }
}

fn codec_sample_bytes() -> Vec<u8> {
    vec![
        0x53, 0x4D, 0x41, 0x00, 0x00, 0x04, 0x02, 0xA0, 0x00, 0x00, 0x00, 0x00, 0x00, 0x28,
        0x00, 0x10, 0x00, 0x60, 0x01, 0x02, 0x03, 0x04, 0x05, 0x06, 0x07, 0x08, 0x11, 0x12,
        0x13, 0x14, 0x15, 0x16, 0x17, 0x18, 0xA0, 0x00, 0x01, 0x80, 0xDD, 0xCC, 0xBB, 0xAA,
        0x09, 0x00, 0x00, 0x00, 0x00, 0x02, 0x00, 0x51, 0x01, 0x02, 0x03, 0x04, 0x05, 0x00,
        0x00, 0x00,
    ]
}

#[test]
fn encode_writes_every_field_at_its_offset() {
    let bytes = codec_sample(vec![1, 2, 3, 4, 5]).encode().unwrap();
    assert_eq!(bytes, codec_sample_bytes());
}

#[test]
fn decode_reads_every_field() {
    let frame = Frame::decode(&codec_sample_bytes()).unwrap();
    assert_eq!(frame, codec_sample(vec![1, 2, 3, 4, 5]));
}

#[test]
fn round_trip_keeps_opcode_counter_and_body() {
    for len in 0..40usize {
        let payload: Vec<u8> = (0..len).map(|i| (i * 7 + 3) as u8).collect();
        let frame = codec_sample(payload.clone());
        let bytes = frame.encode().unwrap();
        assert_eq!(bytes.len() % 4, 2);
        let back = Frame::decode(&bytes).unwrap();
        assert_eq!(back.opcode, 0x5100_0200);
        assert_eq!(back.counter, 0x8001);
        assert_eq!(back.payload, payload);
        assert_eq!(back, frame);
    }
}

#[test]
fn round_trip_of_the_longest_payload() {
    let frame = codec_sample(vec![0xEE; MAX_PAYLOAD]);
    let bytes = frame.encode().unwrap();
    assert_eq!(bytes.len(), 18 + 65532);
    assert_eq!(Frame::decode(&bytes).unwrap(), frame);
}

#[test]
fn encode_refuses_a_payload_that_cannot_be_declared() {
    assert_eq!(codec_sample(vec![0; MAX_PAYLOAD + 1]).encode(), None);
}

#[test]
fn outer_length_is_big_endian() {
    let bytes = codec_sample(vec![0; 300]).encode().unwrap();
    assert_eq!(read_u16_be(&bytes, 12), 28 + 304);
    assert_eq!(bytes[12], 0x01);
    assert_eq!(bytes[13], 0x4C);
}

#[test]
fn inner_fields_are_little_endian() {
    let bytes = codec_sample_bytes();
    assert_eq!(read_u16_le(&bytes, 36), 0x8001);
    assert_eq!(read_u32_le(&bytes, 46), 0x5100_0200);
    assert_eq!(read_u32_le(&bytes, 38), 0xAABB_CCDD);
}

#[test]
fn decode_names_a_short_datagram() {
    assert_eq!(Frame::decode(&[]), Err(Field::Length));
    assert_eq!(Frame::decode(&codec_sample_bytes()[..17]), Err(Field::Length));
}

#[test]
fn decode_names_the_magic() {
    let mut bytes = codec_sample_bytes();
    bytes[2] = 0x42;
    assert_eq!(Frame::decode(&bytes), Err(Field::Magic));
}

#[test]
fn decode_names_the_tag() {
    let mut bytes = codec_sample_bytes();
    bytes[7] = 0xA1;
    assert_eq!(Frame::decode(&bytes), Err(Field::Tag));
    let mut bytes = codec_sample_bytes();
    bytes[17] = 0x65;
    assert_eq!(Frame::decode(&bytes), Err(Field::Tag));
}

#[test]
fn decode_names_a_truncated_body() {
    let bytes = codec_sample_bytes();
    assert_eq!(Frame::decode(&bytes[..57]), Err(Field::Body));
    assert_eq!(Frame::decode(&bytes[..18]), Err(Field::Body));
    let mut bytes = codec_sample_bytes();
    bytes[13] = 28;
    assert_eq!(Frame::decode(&bytes), Err(Field::Length));
    bytes.truncate(18 + 28);
    assert_eq!(Frame::decode(&bytes), Err(Field::Body));
}

#[test]
fn decode_refuses_trailing_bytes_outside_the_broadcast_group() {
    let mut bytes = codec_sample_bytes();
    bytes.push(0);
    assert_eq!(Frame::decode(&bytes), Err(Field::Length));
}

#[test]
fn decode_accepts_trailing_bytes_in_the_broadcast_group() {
    let mut frame = codec_sample(vec![1, 2, 3, 4, 5]);
    frame.group = 0xFFFF_FFFF;
    let mut bytes = frame.encode().unwrap();
    bytes.extend_from_slice(&[9, 9, 9]);
    assert_eq!(Frame::decode(&bytes), Ok(frame));
}

#[test]
fn decode_names_bad_padding() {
    let mut bytes = codec_sample_bytes();
    bytes[57] = 1;
    assert_eq!(Frame::decode(&bytes), Err(Field::Padding));
    let mut bytes = codec_sample_bytes();
    bytes[42] = 3;
    assert_eq!(Frame::decode(&bytes), Err(Field::Padding));
    let mut bytes = codec_sample_bytes();
    bytes[42] = 13;
    assert_eq!(Frame::decode(&bytes), Err(Field::Padding));
    let mut bytes = codec_sample_bytes();
    bytes[42] = 8;
    assert_eq!(Frame::decode(&bytes), Err(Field::Padding));
    let mut bytes = codec_sample_bytes();
    bytes[13] = 0x27;
    bytes.pop();
    assert_eq!(Frame::decode(&bytes), Err(Field::Padding));
}

#[test]
fn control_flags_survive_an_echo() {
    let mut frame = codec_sample(vec![]);
    frame.control = 0xE5C3;
    let bytes = frame.encode().unwrap();
    assert_eq!(&bytes[34..36], &[0xC3, 0xE5]);
    let echoed = Frame::decode(&bytes).unwrap().encode().unwrap();
    assert_eq!(echoed, bytes);
}
