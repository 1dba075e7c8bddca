use vstd::prelude::*;

verus! {

// The chunk tags of a RIFF wave file, as bytes.
pub const RIFF: [u8; 4] = [0x52, 0x49, 0x46, 0x46];
pub const WAVE: [u8; 4] = [0x57, 0x41, 0x56, 0x45];
pub const FMT: [u8; 4] = [0x66, 0x6D, 0x74, 0x20];
pub const DATA: [u8; 4] = [0x64, 0x61, 0x74, 0x61];

/// The length of a `WAVE_FORMAT_PCM` format chunk.
pub const PCM_LEN: u32 = 16;

/// The size of the header before the samples: the RIFF header (12 bytes),
/// the format chunk (8 + 16) and the head of the data chunk (8).
pub const HEADER_LEN: usize = 44;

/// The integer of two little-endian bytes at `at`.
pub open spec fn le16_at(b: Seq<u8>, at: int) -> int {
    b[at] + 256 * b[at + 1]
}

/// The integer of four little-endian bytes at `at`.
pub open spec fn le32_at(b: Seq<u8>, at: int) -> int {
    b[at] + 256 * b[at + 1] + 65536 * b[at + 2] + 16777216 * b[at + 3]
}

/// Whether the four bytes at `at` are `tag`.
pub open spec fn tag_at(b: Seq<u8>, at: int, tag: [u8; 4]) -> bool {
    b[at] == tag[0] && b[at + 1] == tag[1] && b[at + 2] == tag[2] && b[at + 3] == tag[3]
}

/// The sample format of a PCM wave, as its format chunk gives it.
#[derive(Clone, Copy, PartialEq, Eq, Structural, Debug)]
pub struct PcmFormat {
    pub format_tag: u16,
    pub channels: u16,
    pub samples_per_sec: u32,
    pub avg_bytes_per_sec: u32,
    pub block_align: u16,
    pub bits_per_sample: u16,
}

/// A wave file's sample format and samples.
pub struct Wave {
    pub format: PcmFormat,
    pub data: Vec<u8>,
}

/// Whether `b` is a wave file that can be played: a RIFF header whose size
/// field is the file's size less 8 (modulo 2^32) and whose type is `WAVE`, a
/// 16-byte `fmt ` chunk right after it, then a `data` chunk whose samples
/// are all there.
pub open spec fn wave_ok(b: Seq<u8>) -> bool {
    &&& b.len() >= HEADER_LEN
    &&& tag_at(b, 0, RIFF)
    &&& le32_at(b, 4) == (b.len() - 8) % 0x1_0000_0000
    &&& tag_at(b, 8, WAVE)
    &&& tag_at(b, 12, FMT)
    &&& le32_at(b, 16) == PCM_LEN
    &&& tag_at(b, 36, DATA)
    &&& HEADER_LEN + le32_at(b, 40) <= b.len()
}

/// The sample format in the format chunk of a wave file.
pub open spec fn spec_pcm_format(b: Seq<u8>) -> PcmFormat {
    PcmFormat {
        format_tag: le16_at(b, 20) as u16,
        channels: le16_at(b, 22) as u16,
        samples_per_sec: le32_at(b, 24) as u32,
        avg_bytes_per_sec: le32_at(b, 28) as u32,
        block_align: le16_at(b, 32) as u16,
        bits_per_sample: le16_at(b, 34) as u16,
    }
}

/// The samples of a wave file: as many bytes after the header as its data chunk announces.
pub open spec fn spec_samples(b: Seq<u8>) -> Seq<u8> {
    b.subrange(HEADER_LEN as int, HEADER_LEN + le32_at(b, 40))
}

fn le16(b: &[u8], at: usize) -> (r: u16)
    requires
        at + 2 <= b@.len(),
    ensures
        r == le16_at(b@, at as int),
{
    b[at] as u16 + b[at + 1] as u16 * 256
}

fn le32(b: &[u8], at: usize) -> (r: u32)
    requires
        at + 4 <= b@.len(),
    ensures
        r == le32_at(b@, at as int),
{
    b[at] as u32 + b[at + 1] as u32 * 256 + b[at + 2] as u32 * 65536 + b[at + 3] as u32 * 16777216
}

fn has_tag(b: &[u8], at: usize, tag: [u8; 4]) -> (r: bool)
    requires
        at + 4 <= b@.len(),
    ensures
        r == tag_at(b@, at as int, tag),
{
    b[at] == tag[0] && b[at + 1] == tag[1] && b[at + 2] == tag[2] && b[at + 3] == tag[3]
}

/// Reads a wave file: its sample format and samples, or `None` where the
/// file is not a PCM wave that can be played (see [`wave_ok`]).
pub fn parse_wave(b: &[u8]) -> (r: Option<Wave>)
    ensures
        match r {
            Some(w) => wave_ok(b@) && w.format == spec_pcm_format(b@) && w.data@ == spec_samples(b@),
            None => !wave_ok(b@),
        },
{
    let n = b.len();
    if n < HEADER_LEN {
        return None;
    }
    let riff_size: u64 = (n as u64 - 8) % 0x1_0000_0000;
    if !has_tag(b, 0, RIFF) || le32(b, 4) as u64 != riff_size || !has_tag(b, 8, WAVE) {
        return None;
    }
    if !has_tag(b, 12, FMT) || le32(b, 16) != PCM_LEN {
        return None;
    }
    if !has_tag(b, 36, DATA) {
        return None;
    }
    let size = le32(b, 40) as usize;
    if size > n - HEADER_LEN {
        return None;
    }
    let format = PcmFormat {
        format_tag: le16(b, 20),
        channels: le16(b, 22),
        samples_per_sec: le32(b, 24),
        avg_bytes_per_sec: le32(b, 28),
        block_align: le16(b, 32),
        bits_per_sample: le16(b, 34),
    };
    let mut data: Vec<u8> = Vec::with_capacity(size);
    let mut i: usize = 0;
    while i < size
        invariant
            size <= n - HEADER_LEN,
            n == b@.len(),
            i <= size,
            data@ == b@.subrange(HEADER_LEN as int, HEADER_LEN + i),
        decreases size - i,
    {
        data.push(b[HEADER_LEN + i]);
        i = i + 1;
        assert(data@ =~= b@.subrange(HEADER_LEN as int, HEADER_LEN + i));
    }
    Some(Wave { format, data })
}

} // verus!
