use rusttgcalls::media::frame_reader::{
    check_page_header, ivf_frame_size, parse_opus_packet_duration, payload_size, IvfStream, OggOpusParser,
};
use rusttgcalls::models::errors::RustTgCallsError;
use rusttgcalls::utils::ringbuf::RingBuffer;

#[test]
fn opus_duration_from_toc() {
    assert_eq!(parse_opus_packet_duration(&[]), 20_000_000);
    assert_eq!(parse_opus_packet_duration(&[0x08]), 20_000_000);
    assert_eq!(parse_opus_packet_duration(&[0x00]), 10_000_000);
    assert_eq!(parse_opus_packet_duration(&[0x80]), 2_500_000);
    assert_eq!(parse_opus_packet_duration(&[0x09]), 40_000_000);
    assert_eq!(parse_opus_packet_duration(&[0x1B, 0x02]), 120_000_000);
    assert_eq!(parse_opus_packet_duration(&[0x0B, 0x00]), 20_000_000);
    assert_eq!(parse_opus_packet_duration(&[0x0B]), 20_000_000);
    assert_eq!(parse_opus_packet_duration(&[0xA8]), 5_000_000);
}

#[test]
fn opus_duration_is_a_multiple_of_two_and_a_half_ms() {
    for toc in 0u8..=255 {
        for second in [0u8, 1, 7, 63, 255] {
            let d = parse_opus_packet_duration(&[toc, second]);
            assert!(d >= 2_500_000);
            assert_eq!(d % 2_500_000, 0);
        }
    }
}

#[test]
fn page_header_checks_magic() {
    let mut h = [0u8; 27];
    h[..4].copy_from_slice(b"OggS");
    h[26] = 3;
    assert_eq!(check_page_header(&h), Ok(3));
    h[0] = b'X';
    assert_eq!(check_page_header(&h), Err(RustTgCallsError::Internal("invalid Ogg magic header".to_string())));
}

#[test]
fn payload_size_sums_lacing() {
    assert_eq!(payload_size(&[255, 10]), 265);
    assert_eq!(payload_size(&[]), 0);
}

#[test]
fn ogg_parser_skips_headers_and_queues_audio() {
    let mut p = OggOpusParser::new();
    p.ingest_page(&[8], b"OpusHead");
    assert!(!p.has_packet());
    p.ingest_page(&[8], b"OpusTags");
    assert!(!p.has_packet());
    p.ingest_page(&[3, 2], &[0x08, 1, 2, 0x80, 5]);
    assert!(p.has_packet());
    assert_eq!(p.pop_packet(), Some((vec![0x08, 1, 2], 20_000_000)));
    assert_eq!(p.pop_packet(), Some((vec![0x80, 5], 2_500_000)));
    assert_eq!(p.pop_packet(), None);
}

#[test]
fn ogg_parser_joins_packets_across_pages() {
    let mut p = OggOpusParser::new();
    let first = vec![0x08u8; 255];
    p.ingest_page(&[255], &first);
    assert!(!p.has_packet());
    p.ingest_page(&[1], &[9]);
    let (pkt, dur) = p.pop_packet().unwrap();
    assert_eq!(pkt.len(), 256);
    assert_eq!(pkt[255], 9);
    assert_eq!(dur, 20_000_000);
}

#[test]
fn ogg_parser_drops_empty_packets() {
    let mut p = OggOpusParser::new();
    p.ingest_page(&[0, 0], &[]);
    assert!(!p.has_packet());
}

#[test]
fn ivf_header_sets_frame_duration() {
    let mut s = IvfStream::new();
    assert_eq!(s.frame_nanos, 33_333_333);
    let mut h = [0u8; 32];
    h[..4].copy_from_slice(b"DKIF");
    h[16] = 60;
    h[20] = 1;
    assert_eq!(s.read_header(&h), Ok(()));
    assert!(s.header_read);
    assert_eq!(s.frame_nanos, 16_666_666);
}

#[test]
fn ivf_header_rejects_bad_magic_and_keeps_duration_on_zero_timebase() {
    let mut s = IvfStream::new();
    let mut h = [0u8; 32];
    assert_eq!(s.read_header(&h), Err(RustTgCallsError::Internal("invalid IVF magic header".to_string())));
    assert!(!s.header_read);
    h[..4].copy_from_slice(b"DKIF");
    assert_eq!(s.read_header(&h), Ok(()));
    assert_eq!(s.frame_nanos, 33_333_333);
}

#[test]
fn ivf_frame_size_is_little_endian() {
    assert_eq!(ivf_frame_size(&[0x10, 0x27, 0, 0, 0, 0, 0, 0, 0, 0, 0, 0]), 10000);
}

#[test]
fn ring_keeps_the_last_bytes() {
    let mut r = RingBuffer::new(4);
    assert_eq!(r.write(b"ab"), 2);
    assert_eq!(r.snapshot(), b"ab".to_vec());
    assert_eq!(r.write(b"cdef"), 4);
    assert_eq!(r.snapshot(), b"cdef".to_vec());
    assert_eq!(r.write(b"g"), 1);
    assert_eq!(r.snapshot(), b"defg".to_vec());
    assert_eq!(r.write(b"0123456789"), 10);
    assert_eq!(r.snapshot(), b"6789".to_vec());
    r.flush();
    assert_eq!(r.snapshot(), b"6789".to_vec());
}

#[test]
fn ring_holds_the_tail_of_its_whole_history() {
    let chunks: [&[u8]; 4] = [b"hello ", b"wor", b"ld, ", b"ring buffer"];
    let mut r = RingBuffer::new(7);
    let mut history = Vec::new();
    for c in chunks {
        r.write(c);
        history.extend_from_slice(c);
        let tail = &history[history.len().saturating_sub(7)..];
        assert_eq!(r.snapshot(), tail.to_vec());
    }
}

#[test]
fn ring_default_capacity() {
    let mut r = RingBuffer::new(0);
    let data = vec![1u8; 5000];
    r.write(&data);
    assert_eq!(r.snapshot().len(), 4096);
}

#[test]
fn ogg_stream_yields_its_audio_packets_in_order() {
    let mut p = OggOpusParser::new();
    p.ingest_page(&[19], b"OpusHead\x01\x02\x38\x01\x80\xbb\x00\x00\x00\x00\x00");
    p.ingest_page(&[8], b"OpusTags");
    let long = vec![0x08u8; 300];
    let mut body = long.clone();
    body.extend_from_slice(&[0x80, 5]);
    p.ingest_page(&[255, 45, 2], &body);
    p.ingest_page(&[1], &[0x08]);
    assert_eq!(p.pop_packet(), Some((long, 20_000_000)));
    assert_eq!(p.pop_packet(), Some((vec![0x80, 5], 2_500_000)));
    assert_eq!(p.pop_packet(), Some((vec![0x08], 20_000_000)));
    assert_eq!(p.pop_packet(), None);
}

#[test]
fn ivf_frames_read_back() {
    let frames: Vec<Vec<u8>> = vec![vec![1, 2, 3], vec![], vec![9; 300]];
    let mut body = Vec::new();
    for (k, f) in frames.iter().enumerate() {
        body.extend_from_slice(&(f.len() as u32).to_le_bytes());
        body.extend_from_slice(&(k as u64).to_le_bytes());
        body.extend_from_slice(f);
    }
    let mut at = 0;
    let mut read = Vec::new();
    while at + 12 <= body.len() {
        let n = ivf_frame_size(&body[at..at + 12]);
        read.push(body[at + 12..at + 12 + n].to_vec());
        at += 12 + n;
    }
    assert_eq!(read, frames);
}

#[test]
fn ring_keeps_the_last_bytes_of_all_writes() {
    let mut r = RingBuffer::new(5);
    let writes: [&[u8]; 4] = [b"ab", b"cdef", b"", b"ghi"];
    let mut all = Vec::new();
    for w in writes {
        r.write(w);
        all.extend_from_slice(w);
    }
    assert_eq!(r.snapshot(), all[all.len() - 5..].to_vec());
}
