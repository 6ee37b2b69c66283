//! The audio ingest step run once per sink-callback period: strip the
//! device's framing header from a received datagram, and fill the sink's
//! output buffer with the decoded samples, or with silence on underrun.

use vstd::prelude::*;

verus! {

/// Bytes of device framing that precede the encoded audio in a datagram.
pub const HEADER_OFFSET: usize = 11;

/// Capacity of the datagram receive buffer.
pub const RECV_CAPACITY: usize = 3000;

/// Capacity, in samples, of the decoded PCM buffer.
pub const PCM_CAPACITY: usize = 1000;

/// Bytes per sample of the mono 16-bit output.
pub const SAMPLE_STRIDE: usize = 2;

/// Sample rate of the one supported profile.
pub const SAMPLE_RATE: u32 = 48000;

/// Channel count of the one supported profile.
pub const CHANNELS: u32 = 1;

/// The scratch buffers owned by the audio-callback context, allocated once
/// and reused every period.
pub struct IngestBuffers {
    pub recv: Vec<u8>,
    pub pcm: Vec<i16>,
}

impl IngestBuffers {
    /// Zeroed buffers of the fixed capacities.
    pub fn new() -> (r: IngestBuffers)
        ensures
            r.recv@ == Seq::new(RECV_CAPACITY as nat, |i: int| 0u8),
            r.pcm@ == Seq::new(PCM_CAPACITY as nat, |i: int| 0i16),
    {
        let mut recv: Vec<u8> = Vec::new();
        let mut i: usize = 0;
        while i < RECV_CAPACITY
            invariant
                i <= RECV_CAPACITY,
                recv@ == Seq::new(i as nat, |k: int| 0u8),
            decreases RECV_CAPACITY - i,
        {
            recv.push(0);
            i += 1;
            assert(recv@ =~= Seq::new(i as nat, |k: int| 0u8));
        }
        let mut pcm: Vec<i16> = Vec::new();
        let mut j: usize = 0;
        while j < PCM_CAPACITY
            invariant
                j <= PCM_CAPACITY,
                pcm@ == Seq::new(j as nat, |k: int| 0i16),
            decreases PCM_CAPACITY - j,
        {
            pcm.push(0);
            j += 1;
            assert(pcm@ =~= Seq::new(j as nat, |k: int| 0i16));
        }
        IngestBuffers { recv, pcm }
    }
}

/// Where a period's audio sits in the sink's chunk.
pub struct ChunkLayout {
    pub offset: u32,
    pub stride: i32,
    pub size: u32,
}

/// The chunk layout for `size` bytes of mono 16-bit audio at the start of
/// the sink's buffer.
pub fn chunk_layout(size: usize) -> (r: ChunkLayout)
    requires
        size <= u32::MAX,
    ensures
        r.offset == 0,
        r.stride == SAMPLE_STRIDE as i32,
        r.size == size,
{
    ChunkLayout { offset: 0, stride: SAMPLE_STRIDE as i32, size: size as u32 }
}

/// The encoded audio carried by a receive of `received` bytes into `recv`:
/// nothing if no datagram arrived or it is shorter than the header; an
/// empty payload when it is exactly the header.
pub open spec fn payload_of(recv: Seq<u8>, received: Option<usize>) -> Option<Seq<u8>> {
    match received {
        Some(n) => if HEADER_OFFSET <= n && n <= recv.len() {
            Some(recv.subrange(HEADER_OFFSET as int, n as int))
        } else {
            None
        },
        None => None,
    }
}

/// Picks the encoded payload out of the receive buffer.
pub fn encoded_payload(recv: &[u8], received: Option<usize>) -> (r: Option<&[u8]>)
    ensures
        match payload_of(recv@, received) {
            Some(p) => r is Some && r->0@ == p,
            None => r is None,
        },
{
    match received {
        Some(n) => {
            if HEADER_OFFSET <= n && n <= recv.len() {
                Some(vstd::slice::slice_subrange(recv, HEADER_OFFSET, n))
            } else {
                None
            }
        },
        None => None,
    }
}

/// The unsigned 16-bit pattern of a sample.
pub open spec fn sample_bits(s: i16) -> int {
    if s < 0 {
        s as int + 0x10000
    } else {
        s as int
    }
}

/// Byte `j` of the little-endian encoding of `samples`.
pub open spec fn pcm_byte(samples: Seq<i16>, j: int) -> u8 {
    if j % 2 == 0 {
        (sample_bits(samples[j / 2]) % 0x100) as u8
    } else {
        (sample_bits(samples[j / 2]) / 0x100) as u8
    }
}

/// The little-endian 16-bit encoding of `samples`.
pub open spec fn pcm_bytes(samples: Seq<i16>) -> Seq<u8> {
    Seq::new(2 * samples.len(), |j: int| pcm_byte(samples, j))
}

/// Whether a decode of `count` samples out of `pcm` fits an output buffer of
/// `out_len` bytes.
pub open spec fn decoded_fits(pcm_len: nat, count: usize, out_len: nat) -> bool {
    count <= pcm_len && 2 * count <= out_len
}

/// The bytes a period produces: the decoded samples when a decode fits, else
/// silence over the whole output buffer.
pub open spec fn rendered(pcm: Seq<i16>, decoded: Option<usize>, out_len: nat) -> Seq<u8> {
    match decoded {
        Some(k) => if decoded_fits(pcm.len(), k, out_len) {
            pcm_bytes(pcm.subrange(0, k as int))
        } else {
            Seq::new(out_len, |i: int| 0u8)
        },
        None => Seq::new(out_len, |i: int| 0u8),
    }
}

/// Fills the sink's output buffer for one period, from the first `decoded`
/// samples of `pcm`, or with silence when nothing was decoded or the decode
/// does not fit. Returns the number of bytes that hold audio; bytes past it
/// are left as they were.
pub fn render_period(pcm: &[i16], decoded: Option<usize>, out: &mut [u8]) -> (size: usize)
    ensures
        size == rendered(pcm@, decoded, old(out)@.len()).len(),
        size <= old(out)@.len(),
        final(out)@.len() == old(out)@.len(),
        final(out)@.subrange(0, size as int) == rendered(pcm@, decoded, old(out)@.len()),
        final(out)@.subrange(size as int, final(out)@.len() as int) == old(out)@.subrange(
            size as int,
            old(out)@.len() as int,
        ),
{
    let fits = match decoded {
        Some(k) => k <= pcm.len() && k <= out.len() / 2,
        None => false,
    };
    if fits {
        let k = decoded.unwrap();
        let n = out.len();
        let ghost samples = pcm@.subrange(0, k as int);
        let mut i: usize = 0;
        while i < k
            invariant
                k <= pcm@.len(),
                2 * k <= out@.len(),
                n == out@.len(),
                i <= k,
                samples == pcm@.subrange(0, k as int),
                out@.len() == old(out)@.len(),
                forall|j: int| 0 <= j < 2 * i ==> #[trigger] out@[j] == pcm_byte(samples, j),
                forall|j: int| 2 * k <= j < out@.len() ==> #[trigger] out@[j] == old(out)@[j],
            decreases k - i,
        {
            let v: i16 = pcm[i];
            let bits: u16 = if v < 0 {
                (v as i32 + 0x10000) as u16
            } else {
                v as u16
            };
            assert(bits as int == sample_bits(samples[i as int]));
            out[2 * i] = (bits % 0x100) as u8;
            out[2 * i + 1] = (bits / 0x100) as u8;
            i += 1;
        }
        assert(out@.subrange(0, 2 * k as int) =~= pcm_bytes(samples));
        assert(out@.subrange(2 * k as int, out@.len() as int) =~= old(out)@.subrange(
            2 * k as int,
            old(out)@.len() as int,
        ));
        2 * k
    } else {
        let n = out.len();
        let mut i: usize = 0;
        while i < n
            invariant
                n == out@.len(),
                i <= n,
                out@.len() == old(out)@.len(),
                forall|j: int| 0 <= j < i ==> #[trigger] out@[j] == 0u8,
            decreases n - i,
        {
            out[i] = 0;
            i += 1;
        }
        assert(out@.subrange(0, n as int) =~= Seq::new(n as nat, |i: int| 0u8));
        assert(out@.subrange(n as int, n as int) =~= old(out)@.subrange(n as int, n as int));
        n
    }
}

/// Decoded samples that fit the PCM buffer and the sink's buffer reach the
/// sink unchanged: the period produces two bytes per sample, and each pair is
/// the sample's little-endian 16-bit pattern.
pub proof fn lemma_decoded_samples_pass_through(pcm: Seq<i16>, k: usize, out_len: nat)
    requires
        k <= pcm.len(),
        2 * k <= out_len,
    ensures
        rendered(pcm, Some(k), out_len) == pcm_bytes(pcm.subrange(0, k as int)),
        rendered(pcm, Some(k), out_len).len() == 2 * k,
        forall|i: int|
            0 <= i < k ==> #[trigger] sample_bits(pcm[i]) == rendered(pcm, Some(k), out_len)[2 * i]
                + 0x100 * rendered(pcm, Some(k), out_len)[2 * i + 1],
{
    let r = rendered(pcm, Some(k), out_len);
    let samples = pcm.subrange(0, k as int);
    assert forall|i: int| 0 <= i < k implies #[trigger] sample_bits(pcm[i]) == r[2 * i] + 0x100
        * r[2 * i + 1] by {
        let b = sample_bits(pcm[i]);
        assert((2 * i) / 2 == i);
        assert((2 * i + 1) / 2 == i);
        assert((2 * i) % 2 == 0);
        assert((2 * i + 1) % 2 == 1);
        assert(samples[i] == pcm[i]);
        assert(0 <= b < 0x10000);
        assert(r[2 * i] == (b % 0x100) as u8);
        assert(r[2 * i + 1] == (b / 0x100) as u8);
        assert(b % 0x100 + 0x100 * (b / 0x100) == b) by (nonlinear_arith)
            requires 0 <= b;
        assert(b / 0x100 < 0x100) by (nonlinear_arith)
            requires 0 <= b < 0x10000;
    }
}

/// A datagram shorter than the framing header carries no audio, and a period
/// without decoded audio is silence over the whole output buffer.
pub proof fn lemma_short_datagram_is_silence(
    recv: Seq<u8>,
    n: usize,
    pcm: Seq<i16>,
    out_len: nat,
)
    requires
        n < HEADER_OFFSET,
    ensures
        payload_of(recv, Some(n)) is None,
        rendered(pcm, None, out_len) == Seq::new(out_len, |i: int| 0u8),
        rendered(pcm, None, out_len).len() == out_len,
{
}

} // verus!
