//! The record that travels on the radio link: nine bytes, the recipient's
//! identifier as four little-endian bytes, one byte for the channel, and the
//! payload as four little-endian bytes.

use crate::packet::Packet;
use vstd::arithmetic::div_mod::lemma_fundamental_div_mod_converse;
use vstd::prelude::*;

verus! {

/// Length in bytes of an encoded record.
pub const RECORD_LEN: usize = 9;

/// The channel a record speaks of.
#[derive(Debug, Clone, Copy, PartialEq, Eq, Structural)]
pub enum Channel {
    One,
    Two,
}

/// One record of the radio link.
#[derive(Debug, Clone, Copy, PartialEq, Eq, Structural)]
pub struct Message {
    pub id: u32,
    pub channel: Channel,
    pub data: u32,
}

/// The four bytes of `x`, least significant first.
pub open spec fn word_bytes(x: u32) -> Seq<u8> {
    seq![
        (x % 256) as u8,
        (x / 256 % 256) as u8,
        (x / 65536 % 256) as u8,
        (x / 16777216) as u8,
    ]
}

/// The number whose four bytes, least significant first, start at `at`.
pub open spec fn word_value(bytes: Seq<u8>, at: int) -> int
    recommends
        0 <= at,
        at + 4 <= bytes.len(),
{
    bytes[at] + 256 * bytes[at + 1] + 65536 * bytes[at + 2] + 16777216 * bytes[at + 3]
}

impl Channel {
    /// The byte that stands for the channel on the wire.
    pub open spec fn tag(self) -> u8 {
        match self {
            Channel::One => 0,
            Channel::Two => 1,
        }
    }
}

impl Message {
    /// The nine bytes of the record.
    pub open spec fn encoding(self) -> Seq<u8> {
        word_bytes(self.id) + seq![self.channel.tag()] + word_bytes(self.data)
    }

    /// The record that `bytes` encode: there is one exactly when there are
    /// nine bytes and the fifth is a channel's tag.
    pub open spec fn decoding(bytes: Seq<u8>) -> Option<Message> {
        if bytes.len() == RECORD_LEN && bytes[4] <= 1 {
            Some(
                Message {
                    id: word_value(bytes, 0) as u32,
                    channel: if bytes[4] == 0 {
                        Channel::One
                    } else {
                        Channel::Two
                    },
                    data: word_value(bytes, 5) as u32,
                },
            )
        } else {
            None
        }
    }

    /// Encodes the record into a packet.
    pub fn serialize(&self) -> (packet: Packet)
        ensures
            packet@ == self.encoding(),
    {
        let mut packet = Packet::new();
        push_word(&mut packet, self.id);
        let tag: u8 = match self.channel {
            Channel::One => 0,
            Channel::Two => 1,
        };
        let pushed = packet.push(tag);
        assert(pushed is Ok);
        push_word(&mut packet, self.data);
        assert(packet@ =~= self.encoding());
        packet
    }

    /// Decodes a record.  Input of another length than nine bytes, or with a
    /// fifth byte that is no channel's tag, holds no record.
    pub fn deserialize(bytes: &[u8]) -> (message: Option<Message>)
        ensures
            message == Self::decoding(bytes@),
    {
        if bytes.len() != RECORD_LEN {
            return None;
        }
        let tag: u8 = bytes[4];
        if tag > 1 {
            return None;
        }
        let channel = if tag == 0 {
            Channel::One
        } else {
            Channel::Two
        };
        Some(Message { id: read_word(bytes, 0), channel, data: read_word(bytes, 5) })
    }
}

/// Appends the four bytes of `x` to a packet that has room for them.
fn push_word(packet: &mut Packet, x: u32)
    requires
        old(packet)@.len() + 4 <= crate::packet::PACKET_CAPACITY,
    ensures
        final(packet)@ == old(packet)@ + word_bytes(x),
{
    let b0 = packet.push((x % 256) as u8);
    let b1 = packet.push((x / 256 % 256) as u8);
    let b2 = packet.push((x / 65536 % 256) as u8);
    let b3 = packet.push((x / 16777216) as u8);
    assert(b0 is Ok && b1 is Ok && b2 is Ok && b3 is Ok);
    assert(packet@ =~= old(packet)@ + word_bytes(x));
}

/// Reads the four bytes that start at `at` as a number, least significant
/// byte first.
fn read_word(bytes: &[u8], at: usize) -> (x: u32)
    requires
        at + 4 <= bytes@.len(),
    ensures
        x == word_value(bytes@, at as int),
{
    let b0: u32 = bytes[at] as u32;
    let b1: u32 = bytes[at + 1] as u32;
    let b2: u32 = bytes[at + 2] as u32;
    let b3: u32 = bytes[at + 3] as u32;
    b0 + 256 * b1 + 65536 * b2 + 16777216 * b3
}

/// Decoding what was encoded gives the record back, whatever its fields.
pub proof fn lemma_round_trip(message: Message)
    ensures
        message.encoding().len() == RECORD_LEN,
        Message::decoding(message.encoding()) == Some(message),
{
    let bytes = message.encoding();
    lemma_word_round_trip(message.id);
    lemma_word_round_trip(message.data);
    assert(word_value(bytes, 0) == word_value(word_bytes(message.id), 0));
    assert(word_value(bytes, 5) == word_value(word_bytes(message.data), 0));
}

/// Bytes that decode to a record are that record's encoding: no two inputs
/// decode to the same record.
pub proof fn lemma_decoding_is_exact(bytes: Seq<u8>)
    requires
        Message::decoding(bytes) is Some,
    ensures
        Message::decoding(bytes)->Some_0.encoding() == bytes,
{
    let message = Message::decoding(bytes)->Some_0;
    lemma_bytes_round_trip(bytes, 0);
    lemma_bytes_round_trip(bytes, 5);
    assert(message.encoding() =~= bytes);
}

/// The four bytes of a number give the number back.
pub proof fn lemma_word_round_trip(x: u32)
    ensures
        word_bytes(x).len() == 4,
        word_value(word_bytes(x), 0) == x,
{
}

/// Four bytes are the bytes of the number they give.
pub proof fn lemma_bytes_round_trip(bytes: Seq<u8>, at: int)
    requires
        0 <= at,
        at + 4 <= bytes.len(),
    ensures
        0 <= word_value(bytes, at) <= u32::MAX,
        word_bytes(word_value(bytes, at) as u32) == bytes.subrange(at, at + 4),
{
    let b0 = bytes[at] as int;
    let b1 = bytes[at + 1] as int;
    let b2 = bytes[at + 2] as int;
    let b3 = bytes[at + 3] as int;
    let v = word_value(bytes, at);
    lemma_fundamental_div_mod_converse(v, 256, b1 + 256 * b2 + 65536 * b3, b0);
    lemma_fundamental_div_mod_converse(v, 65536, b2 + 256 * b3, b0 + 256 * b1);
    lemma_fundamental_div_mod_converse(v, 16777216, b3, b0 + 256 * b1 + 65536 * b2);
    lemma_fundamental_div_mod_converse(v / 256, 256, b2 + 256 * b3, b1);
    lemma_fundamental_div_mod_converse(v / 65536, 256, b3, b2);
    assert(word_bytes(v as u32) =~= bytes.subrange(at, at + 4));
}

} // verus!
