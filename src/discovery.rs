//! The LAN discovery handshake: a client broadcasts a fixed greeting and the
//! server answers with another.

use vstd::prelude::*;

verus! {

/// UDP port the greeting is sent to.
pub const HANDSHAKE_BEGIN_PORT: u16 = 31337;

/// UDP port of the client that the answer is sent to.
pub const HANDSHAKE_END_PORT: u16 = 31338;

/// Size of a greeting packet.
pub const HANDSHAKE_PACKET_SIZE: usize = 16;

/// Length of the greeting text and of the answer text.
pub const HANDSHAKE_TEXT_LEN: usize = 14;

/// The greeting, `HelloDearRusty` in ASCII.
pub open spec fn request_text() -> Seq<u8> {
    seq![72u8, 101, 108, 108, 111, 68, 101, 97, 114, 82, 117, 115, 116, 121]
}

/// The answer, `HeyoDearClient` in ASCII.
pub open spec fn response_text() -> Seq<u8> {
    seq![72u8, 101, 121, 111, 68, 101, 97, 114, 67, 108, 105, 101, 110, 116]
}

/// The greeting bytes.
pub fn handshake_request() -> (r: [u8; 14])
    ensures
        r@ == request_text(),
{
    let r: [u8; 14] = [72, 101, 108, 108, 111, 68, 101, 97, 114, 82, 117, 115, 116, 121];
    assert(r@ =~= request_text());
    r
}

/// The answer bytes.
pub fn handshake_response() -> (r: [u8; 14])
    ensures
        r@ == response_text(),
{
    let r: [u8; 14] = [72, 101, 121, 111, 68, 101, 97, 114, 67, 108, 105, 101, 110, 116];
    assert(r@ =~= response_text());
    r
}

/// Whether a received packet starts with the greeting.
pub fn is_handshake_request(packet: &[u8]) -> (r: bool)
    ensures
        r == (packet@.len() >= HANDSHAKE_TEXT_LEN
            && packet@.subrange(0, HANDSHAKE_TEXT_LEN as int) == request_text()),
{
    if packet.len() < HANDSHAKE_TEXT_LEN {
        return false;
    }
    let expected = handshake_request();
    let mut i: usize = 0;
    while i < HANDSHAKE_TEXT_LEN
        invariant
            i <= HANDSHAKE_TEXT_LEN,
            packet@.len() >= HANDSHAKE_TEXT_LEN,
            expected@ == request_text(),
            forall|j: int| 0 <= j < i ==> packet@[j] == request_text()[j],
        decreases HANDSHAKE_TEXT_LEN - i,
    {
        if packet[i] != expected[i] {
            assert(packet@.subrange(0, HANDSHAKE_TEXT_LEN as int)[i as int] != request_text()[i as int]);
            return false;
        }
        i = i + 1;
    }
    assert(packet@.subrange(0, HANDSHAKE_TEXT_LEN as int) =~= request_text());
    true
}

} // verus!
