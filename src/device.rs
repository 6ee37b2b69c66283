//! Framing of the device's control channel: every request is one request-id
//! byte, a four-byte big-endian payload length and the payload.

use vstd::prelude::*;

verus! {

/// Request identifiers understood by the device's control channel.
#[derive(Clone, Copy, Debug, PartialEq, Eq, Structural)]
pub enum RequestId {
    SetPlatform,
    SetCodec,
    Start,
    Poll,
}

/// The byte that identifies a request on the wire.
pub open spec fn request_code(id: RequestId) -> u8 {
    match id {
        RequestId::SetPlatform => 101,
        RequestId::SetCodec => 102,
        RequestId::Start => 103,
        RequestId::Poll => 105,
    }
}

impl RequestId {
    pub fn code(&self) -> (r: u8)
        ensures
            r == request_code(*self),
    {
        match self {
            RequestId::SetPlatform => 101,
            RequestId::SetCodec => 102,
            RequestId::Start => 103,
            RequestId::Poll => 105,
        }
    }
}

/// Reserved byte repeated twice at the start of the platform payload.
pub const PLATFORM_RESERVED: u8 = 4;

/// Platform/capability code announced to the device.
pub const PLATFORM_CODE: u32 = 100663296;

/// Codec identifier of Opus.
pub const CODEC_OPUS: u8 = 2;

/// Sample-rate class identifier of the 48 kHz profile.
pub const RATE_48K: u8 = 2;

/// The four big-endian bytes of `v`.
pub open spec fn be_u32(v: u32) -> Seq<u8> {
    seq![
        (v as int / 0x1000000) as u8,
        (v as int / 0x10000 % 0x100) as u8,
        (v as int / 0x100 % 0x100) as u8,
        (v as int % 0x100) as u8,
    ]
}

/// One request on the wire: id byte, big-endian length, payload.
pub open spec fn frame(id: RequestId, payload: Seq<u8>) -> Seq<u8> {
    seq![request_code(id)] + be_u32(payload.len() as u32) + payload
}

/// Payload of `SetPlatform`: two reserved bytes, then the platform code.
pub open spec fn platform_payload() -> Seq<u8> {
    seq![PLATFORM_RESERVED, PLATFORM_RESERVED] + be_u32(PLATFORM_CODE)
}

/// Payload of `SetCodec`: codec id, rate class, then the UDP port as a
/// big-endian 32-bit field (its last two bytes are the port itself).
pub open spec fn codec_payload(udp_port: u16) -> Seq<u8> {
    seq![CODEC_OPUS, RATE_48K] + be_u32(udp_port as u32)
}

/// Appends the big-endian bytes of `v` to `out`.
fn push_be_u32(out: &mut Vec<u8>, v: u32)
    ensures
        final(out)@ == old(out)@ + be_u32(v),
{
    out.push((v / 0x1000000) as u8);
    out.push((v / 0x10000 % 0x100) as u8);
    out.push((v / 0x100 % 0x100) as u8);
    out.push((v % 0x100) as u8);
    assert(final(out)@ =~= old(out)@ + be_u32(v));
}

/// Encodes one control-channel request.
pub fn encode_frame(id: RequestId, payload: &[u8]) -> (r: Vec<u8>)
    requires
        payload@.len() <= u32::MAX,
    ensures
        r@ == frame(id, payload@),
{
    let mut out: Vec<u8> = Vec::new();
    out.push(id.code());
    push_be_u32(&mut out, payload.len() as u32);
    let ghost head = out@;
    let mut i: usize = 0;
    while i < payload.len()
        invariant
            i <= payload@.len(),
            out@ == head + payload@.subrange(0, i as int),
        decreases payload@.len() - i,
    {
        out.push(payload[i]);
        i += 1;
        assert(out@ =~= head + payload@.subrange(0, i as int));
    }
    assert(payload@.subrange(0, payload@.len() as int) =~= payload@);
    out
}

/// The `SetPlatform` request.
pub fn set_platform_frame() -> (r: Vec<u8>)
    ensures
        r@ == frame(RequestId::SetPlatform, platform_payload()),
{
    let mut payload: Vec<u8> = Vec::new();
    payload.push(PLATFORM_RESERVED);
    payload.push(PLATFORM_RESERVED);
    push_be_u32(&mut payload, PLATFORM_CODE);
    assert(payload@ =~= platform_payload());
    encode_frame(RequestId::SetPlatform, payload.as_slice())
}

/// The `SetCodec` request, naming the UDP port the device streams to.
pub fn set_codec_frame(udp_port: u16) -> (r: Vec<u8>)
    ensures
        r@ == frame(RequestId::SetCodec, codec_payload(udp_port)),
{
    let mut payload: Vec<u8> = Vec::new();
    payload.push(CODEC_OPUS);
    payload.push(RATE_48K);
    push_be_u32(&mut payload, udp_port as u32);
    assert(payload@ =~= codec_payload(udp_port));
    encode_frame(RequestId::SetCodec, payload.as_slice())
}

/// The `Start` request, which has no payload.
pub fn start_frame() -> (r: Vec<u8>)
    ensures
        r@ == frame(RequestId::Start, Seq::empty()),
{
    let payload: Vec<u8> = Vec::new();
    let r = encode_frame(RequestId::Start, payload.as_slice());
    assert(payload@ =~= Seq::<u8>::empty());
    r
}

/// The keep-alive heartbeat, which has no payload.
pub fn poll_frame() -> (r: Vec<u8>)
    ensures
        r@ == frame(RequestId::Poll, Seq::empty()),
{
    let payload: Vec<u8> = Vec::new();
    let r = encode_frame(RequestId::Poll, payload.as_slice());
    assert(payload@ =~= Seq::<u8>::empty());
    r
}

/// The requests that configure and start a session, in the order in which
/// they must be written: `SetPlatform`, `SetCodec`, `Start`.
pub fn configure_and_start(udp_port: u16) -> (r: Vec<Vec<u8>>)
    ensures
        r@.len() == 3,
        r@[0]@ == frame(RequestId::SetPlatform, platform_payload()),
        r@[1]@ == frame(RequestId::SetCodec, codec_payload(udp_port)),
        r@[2]@ == frame(RequestId::Start, Seq::empty()),
{
    let mut r: Vec<Vec<u8>> = Vec::new();
    r.push(set_platform_frame());
    r.push(set_codec_frame(udp_port));
    r.push(start_frame());
    r
}

} // verus!
