//! The bounded byte buffer that carries an encoded radio record: a
//! `heapless::Vec` of at most 90 bytes, which lives without a heap.

use vstd::prelude::*;

verus! {

/// The most bytes a packet holds.
pub const PACKET_CAPACITY: usize = 90;

/// Up to [`PACKET_CAPACITY`] bytes, kept in a `heapless::Vec<u8, U90>`.  The
/// verifier does not look inside: what it knows of a packet it has from the
/// three functions below, which state what `heapless` does.
#[verifier::external_body]
#[derive(Debug, PartialEq, Eq)]
pub struct Packet {
    bytes: heapless::Vec<u8, heapless::consts::U90>,
}

/// The bytes that a packet holds, first pushed first.
pub uninterp spec fn packet_bytes(packet: Packet) -> Seq<u8>;

impl View for Packet {
    type V = Seq<u8>;

    open spec fn view(&self) -> Seq<u8> {
        packet_bytes(*self)
    }
}

/// `heapless::Vec::new`: a packet that holds no byte.
#[verifier::external_body]
fn packet_new() -> (packet: Packet)
    ensures
        packet_bytes(packet) == Seq::<u8>::empty(),
{
    Packet { bytes: heapless::Vec::new() }
}

/// `heapless::Vec::push`: while the packet holds fewer than 90 bytes the byte
/// is appended and `Ok` comes back; a full packet is left as it was and the
/// byte comes back in `Err`.
#[verifier::external_body]
fn packet_push(packet: &mut Packet, byte: u8) -> (r: Result<(), u8>)
    ensures
        r is Ok <==> packet_bytes(*old(packet)).len() < PACKET_CAPACITY,
        r is Ok ==> packet_bytes(*final(packet)) == packet_bytes(*old(packet)).push(byte),
        r is Err ==> r->Err_0 == byte && packet_bytes(*final(packet)) == packet_bytes(
            *old(packet),
        ),
{
    packet.bytes.push(byte)
}

/// `heapless::Vec::deref`: the slice of the bytes pushed so far, in order.
#[verifier::external_body]
fn packet_slice(packet: &Packet) -> (bytes: &[u8])
    ensures
        bytes@ == packet_bytes(*packet),
{
    &packet.bytes
}

impl Packet {
    /// A packet that holds no byte.
    pub fn new() -> (packet: Packet)
        ensures
            packet@ == Seq::<u8>::empty(),
    {
        packet_new()
    }

    /// Appends `byte`, or hands it back when the packet is full.
    pub fn push(&mut self, byte: u8) -> (r: Result<(), u8>)
        ensures
            r is Ok <==> old(self)@.len() < PACKET_CAPACITY,
            r is Ok ==> final(self)@ == old(self)@.push(byte),
            r is Err ==> r == Err::<(), u8>(byte) && final(self)@ == old(self)@,
    {
        packet_push(self, byte)
    }

    /// The bytes of the packet, in order.
    pub fn as_slice(&self) -> (bytes: &[u8])
        ensures
            bytes@ == self@,
    {
        packet_slice(self)
    }
}

} // verus!
