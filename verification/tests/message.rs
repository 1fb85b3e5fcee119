use breathalyzer_firmware::message::{Channel, Message, RECORD_LEN};
use breathalyzer_firmware::packet::{Packet, PACKET_CAPACITY};

#[test]
fn serialize_lays_out_nine_bytes() {
    let message = Message { id: 0x0102_0304, channel: Channel::Two, data: 0xA0B0_C0D0 };
    let packet = message.serialize();
    assert_eq!(packet.as_slice(), &[0x04, 0x03, 0x02, 0x01, 0x01, 0xD0, 0xC0, 0xB0, 0xA0]);
    assert_eq!(packet.as_slice().len(), RECORD_LEN);
}

#[test]
fn serialize_of_small_fields() {
    let message = Message { id: 6, channel: Channel::One, data: 3 };
    assert_eq!(message.serialize().as_slice(), &[6, 0, 0, 0, 0, 3, 0, 0, 0]);
}

#[test]
fn deserialize_reads_each_field() {
    let bytes = [0xEF, 0xBE, 0xAD, 0xDE, 0x00, 0x78, 0x56, 0x34, 0x12];
    assert_eq!(
        Message::deserialize(&bytes),
        Some(Message { id: 0xDEAD_BEEF, channel: Channel::One, data: 0x1234_5678 })
    );
}

#[test]
fn round_trip_gives_the_record_back() {
    let ids = [0u32, 1, 2, 6, 255, 256, 65535, 65536, 0x00FF_FFFF, 0x0100_0000, u32::MAX];
    let datas = [0u32, 5, 0x8000_0000, u32::MAX];
    for id in ids {
        for data in datas {
            for channel in [Channel::One, Channel::Two] {
                let message = Message { id, channel, data };
                let packet = message.serialize();
                assert_eq!(Message::deserialize(packet.as_slice()), Some(message));
            }
        }
    }
}

#[test]
fn deserialize_of_truncated_input_is_none() {
    let packet = Message { id: 6, channel: Channel::One, data: 3 }.serialize();
    let bytes = packet.as_slice();
    for len in 0..RECORD_LEN {
        assert_eq!(Message::deserialize(&bytes[..len]), None);
    }
}

#[test]
fn deserialize_of_overlong_input_is_none() {
    assert_eq!(Message::deserialize(&[6, 0, 0, 0, 0, 3, 0, 0, 0, 0]), None);
}

#[test]
fn deserialize_of_unknown_channel_is_none() {
    assert_eq!(Message::deserialize(&[6, 0, 0, 0, 2, 3, 0, 0, 0]), None);
    assert_eq!(Message::deserialize(&[6, 0, 0, 0, 255, 3, 0, 0, 0]), None);
}

#[test]
fn bytes_that_decode_are_the_encoding_of_what_they_decode_to() {
    let bytes = [9, 8, 7, 6, 1, 5, 4, 3, 2];
    let message = Message::deserialize(&bytes).unwrap();
    assert_eq!(message.serialize().as_slice(), &bytes);
}

#[test]
fn new_packet_is_empty() {
    let packet = Packet::new();
    assert!(packet.as_slice().is_empty());
}

#[test]
fn packet_keeps_bytes_in_push_order() {
    let mut packet = Packet::new();
    assert_eq!(packet.push(7), Ok(()));
    assert_eq!(packet.push(8), Ok(()));
    assert_eq!(packet.push(9), Ok(()));
    assert_eq!(packet.as_slice(), &[7, 8, 9]);
}

#[test]
fn full_packet_hands_the_byte_back() {
    let mut packet = Packet::new();
    for i in 0..PACKET_CAPACITY {
        assert_eq!(packet.push(i as u8), Ok(()));
    }
    assert_eq!(packet.as_slice().len(), 90);
    assert_eq!(packet.push(200), Err(200));
    assert_eq!(packet.as_slice().len(), 90);
    assert_eq!(packet.as_slice()[89], 89);
}
