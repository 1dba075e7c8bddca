use i44::misc::wave::{parse_wave, PcmFormat};

/// A PCM wave file: 2 channels, 44100 Hz, 16 bits, with the given samples.
fn wave(samples: &[u8]) -> Vec<u8> {
    let mut b = Vec::new();
    b.extend_from_slice(b"RIFF");
    b.extend_from_slice(&((36 + samples.len()) as u32).to_le_bytes());
    b.extend_from_slice(b"WAVE");
    b.extend_from_slice(b"fmt ");
    b.extend_from_slice(&16u32.to_le_bytes());
    b.extend_from_slice(&1u16.to_le_bytes());
    b.extend_from_slice(&2u16.to_le_bytes());
    b.extend_from_slice(&44100u32.to_le_bytes());
    b.extend_from_slice(&176400u32.to_le_bytes());
    b.extend_from_slice(&4u16.to_le_bytes());
    b.extend_from_slice(&16u16.to_le_bytes());
    b.extend_from_slice(b"data");
    b.extend_from_slice(&(samples.len() as u32).to_le_bytes());
    b.extend_from_slice(samples);
    b
}

#[test]
fn wave_reads_format_and_samples() {
    let b = wave(&[1, 2, 3, 4, 5, 6, 7, 8]);
    let w = parse_wave(&b).expect("a PCM wave");
    assert_eq!(
        w.format,
        PcmFormat {
            format_tag: 1,
            channels: 2,
            samples_per_sec: 44100,
            avg_bytes_per_sec: 176400,
            block_align: 4,
            bits_per_sample: 16,
        }
    );
    assert_eq!(w.data, vec![1, 2, 3, 4, 5, 6, 7, 8]);
}

#[test]
fn wave_takes_only_the_announced_samples() {
    let mut b = wave(&[9, 9]);
    // a trailing byte that the data chunk does not announce; the RIFF size counts it
    b.push(7);
    let riff = (b.len() - 8) as u32;
    b[4..8].copy_from_slice(&riff.to_le_bytes());
    let w = parse_wave(&b).expect("a PCM wave");
    assert_eq!(w.data, vec![9, 9]);
}

#[test]
fn wave_with_no_samples() {
    let w = parse_wave(&wave(&[])).expect("a PCM wave");
    assert!(w.data.is_empty());
}

#[test]
fn wave_refuses_a_wrong_riff_size() {
    let mut b = wave(&[1, 2]);
    b[4] = b[4].wrapping_add(1);
    assert!(parse_wave(&b).is_none());
}

#[test]
fn wave_refuses_other_tags() {
    for at in [0usize, 8, 12, 36] {
        let mut b = wave(&[1, 2]);
        b[at] = b'x';
        assert!(parse_wave(&b).is_none(), "tag at {at}");
    }
}

#[test]
fn wave_refuses_a_longer_format_chunk() {
    let mut b = wave(&[1, 2]);
    b[16] = 18;
    assert!(parse_wave(&b).is_none());
}

#[test]
fn wave_refuses_missing_samples() {
    let mut b = wave(&[1, 2, 3, 4]);
    b.truncate(b.len() - 1);
    let riff = (b.len() - 8) as u32;
    b[4..8].copy_from_slice(&riff.to_le_bytes());
    assert!(parse_wave(&b).is_none());
}

#[test]
fn wave_refuses_a_short_file() {
    let b = wave(&[]);
    assert!(parse_wave(&b[..43]).is_none());
    assert!(parse_wave(&[]).is_none());
}
