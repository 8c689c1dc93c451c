use rtc::rtcp::payload_feedbacks::picture_loss_indication::PictureLossIndication;
use rtc::shared::marshal::Marshal;
use rtc::stun::message::{Message, TransactionId, BINDING_REQUEST, BINDING_SUCCESS};
use rusttgcalls::wrtc::native::keys::{negotiated_profile, ProtectionProfile};
use rusttgcalls::models::errors::RustTgCallsError;
use rusttgcalls::models::media_state::ConnState;
use rusttgcalls::wrtc::jsonparams::types::{Candidate, Fingerprint, RemoteParams as Answer, Transport};
use rusttgcalls::wrtc::keepalive::{keepalive_payload, MonitorAction, MonitorClock, MonitorEntry};
use rusttgcalls::wrtc::native::certpool::fingerprint_of;
use rusttgcalls::wrtc::native::direct_transport::{
    abs_send_time_bytes, audio_header_extensions, credential_from, audio_ts_step, classify_datagram, get_current_ntp_time,
    is_audio_payload, ntp_from_unix, parse_port, plan_connect, rtcp_asks_keyframe, select_candidate, stun_binding_request,
    video_header_extensions,
    video_ts_step, AudioPacketHeader, DatagramKind, IpFamily, RtpState, TransportCore,
};
use rusttgcalls::wrtc::native::factory::{FactoryCore, FactoryOptions};

fn cand(protocol: &str, ip: &str, port: &str) -> Candidate {
    Candidate {
        generation: String::new(),
        component: String::new(),
        protocol: protocol.to_string(),
        port: port.to_string(),
        ip: ip.to_string(),
        foundation: String::new(),
        id: String::new(),
        priority: String::new(),
        candidate_type: String::new(),
        network: String::new(),
        rel_addr: String::new(),
        rel_port: String::new(),
        tcp_type: String::new(),
    }
}

fn answer(fp: &str, candidates: Vec<Candidate>) -> Answer {
    Answer {
        transport: Transport {
            ufrag: "rUf".to_string(),
            pwd: "rPw".to_string(),
            fingerprints: vec![Fingerprint { hash: "sha-256".into(), setup: "active".into(), fingerprint: fp.into() }],
            candidates,
        },
    }
}

#[test]
fn ports_parse_as_u16() {
    assert_eq!(parse_port("443"), Some(443));
    assert_eq!(parse_port("+80"), Some(80));
    assert_eq!(parse_port("0"), Some(0));
    assert_eq!(parse_port("65535"), Some(65535));
    assert_eq!(parse_port("00012"), Some(12));
    assert_eq!(parse_port("65536"), None);
    assert_eq!(parse_port("99999999999999999999"), None);
    assert_eq!(parse_port(""), None);
    assert_eq!(parse_port("+"), None);
    assert_eq!(parse_port("-1"), None);
    assert_eq!(parse_port("12a"), None);
    assert_eq!(parse_port(" 1"), None);
    for s in ["1", "+7", "0443", "65535", "65536", "x", "", "1 ", "++1"] {
        assert_eq!(parse_port(s), s.parse::<u16>().ok(), "{}", s);
    }
}

#[test]
fn selection_prefers_first_usable_ipv4() {
    let cs = vec![
        cand("tcp", "9.9.9.9", "1"),
        cand("UDP", "::1", "10"),
        cand("udp", "1.1.1.1", "0"),
        cand("Udp", "2.2.2.2", "20"),
        cand("udp", "3.3.3.3", "30"),
    ];
    let fams = vec![IpFamily::V4, IpFamily::V6, IpFamily::V4, IpFamily::V4, IpFamily::V4];
    assert_eq!(select_candidate(&cs, &fams), Some((3, 20)));
}

#[test]
fn selection_falls_back_to_first_usable() {
    let cs = vec![cand("udp", "bad", "5"), cand("udp", "::1", "10"), cand("udp", "::2", "11")];
    let fams = vec![IpFamily::Invalid, IpFamily::V6, IpFamily::V6];
    assert_eq!(select_candidate(&cs, &fams), Some((1, 10)));
    let fams_short = vec![IpFamily::Invalid];
    assert_eq!(select_candidate(&cs, &fams_short), None);
    assert_eq!(select_candidate(&vec![], &vec![]), None);
}

#[test]
fn connection_plan() {
    let a = answer("AA:BB", vec![cand("udp", "1.2.3.4", "443")]);
    let plan = plan_connect(false, "lUf", false, Ok(a), &vec![IpFamily::V4]).unwrap();
    assert_eq!(plan.stun_username, "rUf:lUf");
    assert_eq!((plan.candidate, plan.port), (0, 443));
    assert_eq!(plan.remote.pwd, "rPw");
}

#[test]
fn connection_plan_errors() {
    let a = answer("AA", vec![cand("udp", "1.2.3.4", "443")]);
    assert_eq!(
        plan_connect(true, "l", false, Ok(a), &vec![IpFamily::V4]).err(),
        Some(RustTgCallsError::Internal("transport is closed".to_string()))
    );
    let a = answer("", vec![cand("udp", "1.2.3.4", "443")]);
    assert_eq!(
        plan_connect(false, "l", false, Ok(a), &vec![IpFamily::V4]).err(),
        Some(RustTgCallsError::InvalidParams("empty remote DTLS fingerprint".to_string()))
    );
    let a = answer("AA", vec![cand("tcp", "1.2.3.4", "443")]);
    assert_eq!(
        plan_connect(false, "l", false, Ok(a), &vec![IpFamily::V4]).err(),
        Some(RustTgCallsError::InvalidParams("no valid remote UDP candidate found".to_string()))
    );
    let a = answer("AA", vec![]);
    assert_eq!(plan_connect(false, "l", true, Ok(a), &vec![]).err(), Some(RustTgCallsError::UnsupportedCallMode));
}

#[test]
fn datagram_kinds() {
    let mut stun = vec![0u8; 20];
    stun[4..8].copy_from_slice(&[0x21, 0x12, 0xa4, 0x42]);
    assert_eq!(classify_datagram(&stun), DatagramKind::Stun);
    assert_eq!(classify_datagram(&[22, 254, 253]), DatagramKind::Dtls);
    assert_eq!(classify_datagram(&[0x80, 0xc8]), DatagramKind::Srtp);
    assert_eq!(classify_datagram(&[5]), DatagramKind::Other);
    assert_eq!(classify_datagram(&[]), DatagramKind::Other);
    let mut short = vec![0u8; 19];
    short[0] = 0x90;
    short[4..8].copy_from_slice(&[0x21, 0x12, 0xa4, 0x42]);
    assert_eq!(classify_datagram(&short), DatagramKind::Srtp);
}

#[test]
fn ntp_conversion() {
    assert_eq!(ntp_from_unix(0, 0), 2_208_988_800u64 << 32);
    assert_eq!(ntp_from_unix(1, 500_000_000), ((2_208_988_801u64) << 32) | 0x8000_0000);
    assert_eq!(ntp_from_unix(2_085_978_496, 0) >> 32, 0);
    let now = get_current_ntp_time();
    assert!(now >> 32 > 3_900_000_000);
}

#[test]
fn abs_send_time() {
    let ntp: u64 = (5u64 << 32) | 0x8000_0000;
    let b = abs_send_time_bytes(ntp);
    let v = ((ntp >> 14) & 0xFF_FFFF) as u32;
    assert_eq!(b, [(v >> 16) as u8, (v >> 8) as u8, v as u8]);
    assert_eq!(b, [0x16, 0x00, 0x00]);
}

#[test]
fn timestamp_steps() {
    assert_eq!(audio_ts_step(20_000_000), 960);
    assert_eq!(audio_ts_step(2_500_000), 120);
    assert_eq!(video_ts_step(33_333_333), 3000);
    assert_eq!(video_ts_step(16_666_666), 1500);
    assert_eq!(video_ts_step(66_000_000), 5940);
    assert!(is_audio_payload(111));
    assert!(!is_audio_payload(100));
}

#[test]
fn audio_packets_are_consecutive() {
    let mut s = RtpState::new(65535, 10);
    s.audio_ts = u32::MAX - 100;
    let p1 = s.next_audio(20_000_000);
    let p2 = s.next_audio(20_000_000);
    assert_eq!(p1, AudioPacketHeader { seq: 65535, ts: u32::MAX - 100, marker: true });
    assert_eq!(p2, AudioPacketHeader { seq: 0, ts: 859, marker: false });
    s.record_audio_sent(100);
    s.record_audio_sent(50);
    assert_eq!((s.audio_packets, s.audio_octets), (2, 150));
}

#[test]
fn video_frames_and_reset() {
    let mut s = RtpState::new(1, 2000);
    assert!(s.start_epoch(77));
    assert!(!s.start_epoch(99));
    assert_eq!(s.epoch.unwrap().ntp, 77);
    let ts = s.next_video_frame(33_333_333);
    assert_eq!(ts, 0);
    assert_eq!(s.next_video_seq(), 2000);
    assert_eq!(s.next_video_seq(), 2001);
    s.record_video_sent(1180);
    s.request_keyframe();
    assert!(s.pli_requested);
    s.reset_track_state();
    assert!(s.first_audio && s.first_video && s.epoch.is_none() && !s.pli_requested);
    assert_eq!((s.video_seq, s.video_ts, s.video_packets, s.video_octets), (2002, 3000, 1, 1180));
}

#[test]
fn header_extension_lists() {
    let abs = [1u8, 2, 3];
    assert_eq!(audio_header_extensions(&abs), vec![(1, vec![0x80]), (2, vec![1, 2, 3]), (4, b"0".to_vec())]);
    assert_eq!(video_header_extensions(&abs), vec![(2, vec![1, 2, 3]), (4, b"1".to_vec()), (5, vec![0])]);
}

#[test]
fn transport_identity_and_lifecycle() {
    let mut t = TransportCore::new_with_ssrc("AA:BB", 1234, 5678);
    let alphabet = "ABCDEFGHIJKLMNOPQRSTUVWXYZabcdefghijklmnopqrstuvwxyz0123456789-_";
    assert_eq!(t.ufrag().len(), 16);
    assert_eq!(t.pwd().len(), 32);
    assert!(t.ufrag().chars().all(|c| alphabet.contains(c)));
    assert!(t.pwd().chars().all(|c| alphabet.contains(c)));
    assert_eq!((t.audio_ssrc(), t.video_ssrc()), (1234, 5678));
    assert!((1000..5000).contains(&t.rtp().audio_seq));
    assert_eq!(t.state(), ConnState::Connecting);
    let lp = t.build_local_params().unwrap();
    assert_eq!(lp.ufrag, t.ufrag());
    assert_eq!(lp.ssrc_groups[0].sources, vec![5678, 5679]);
    assert_eq!(t.connect_outcome().err(), Some(RustTgCallsError::Internal("timeout waiting for DTLS handshake to complete with Telegram SFU".to_string())));
    assert!(t.on_handshake_complete(false));
    assert_eq!(t.state(), ConnState::Connected);
    assert!(!t.on_handshake_complete(true));
    assert_eq!(t.connect_outcome(), Ok(()));
    assert!(t.check_open().is_ok());
    assert!(t.close());
    assert_eq!(t.state(), ConnState::Closed);
    assert!(!t.close());
    assert!(t.is_closed());
    assert_eq!(t.check_open().err(), Some(RustTgCallsError::Internal("transport is closed".to_string())));
}

#[test]
fn random_transports_differ() {
    let a = TransportCore::new("F");
    let b = TransportCore::new("F");
    assert!((0x1000_0000..=0x7FFF_FFFF).contains(&a.audio_ssrc()));
    assert!((0x1000_0000..=0x7FFF_FFFF).contains(&a.video_ssrc()));
    assert_ne!(a.ufrag(), b.ufrag());
}

#[test]
fn begin_connect_on_closed_transport() {
    let mut t = TransportCore::new_with_ssrc("F", 1, 2);
    t.close();
    let r = t.begin_connect(false, Ok(answer("AA", vec![cand("udp", "1.1.1.1", "1")])), &vec![IpFamily::V4]);
    assert_eq!(r.err(), Some(RustTgCallsError::Internal("transport is closed".to_string())));
    assert_eq!(t.state(), ConnState::Closed);
    let mut u = TransportCore::new_with_ssrc("F", 1, 2);
    u.on_handshake_complete(false);
    let plan = u.begin_connect(false, Ok(answer("AA", vec![cand("udp", "1.1.1.1", "1")])), &vec![IpFamily::V4]).unwrap();
    assert_eq!(u.state(), ConnState::Connecting);
    assert!(plan.stun_username.starts_with("rUf:"));
}

#[test]
fn sender_reports_after_media_starts() {
    let mut t = TransportCore::new_with_ssrc("F", 0x1111_1111, 0x2222_2222);
    assert!(t.sender_reports(5).is_none());
    assert!(t.start_epoch(ntp_from_unix(1, 0)));
    t.next_audio(20_000_000);
    t.record_audio_sent(10);
    let (a, v) = t.sender_reports(0x0102_0304_0506_0708).unwrap();
    let a = a.unwrap();
    let v = v.unwrap();
    assert_eq!(a.len(), 52);
    assert_eq!(&a[0..8], &[0x80, 200, 0, 6, 0x11, 0x11, 0x11, 0x11]);
    assert_eq!(&a[8..16], &[1, 2, 3, 4, 5, 6, 7, 8]);
    assert_eq!(&a[16..20], &960u32.to_be_bytes());
    assert_eq!(&a[20..24], &1u32.to_be_bytes());
    assert_eq!(&a[24..28], &10u32.to_be_bytes());
    assert_eq!(&a[28..30], &[0x81, 202]);
    assert_eq!(&a[36..38], &[1, 11]);
    assert_eq!(&a[38..49], b"rusttgcalls");
    assert_eq!(&a[49..52], &[0, 0, 2]);
    assert_eq!(&a[30..32], &[0, 5]);
    assert_eq!(&a[32..36], &[0x11, 0x11, 0x11, 0x11]);
    assert_eq!(&v[4..8], &[0x22, 0x22, 0x22, 0x22]);
}

#[test]
fn rtp_packets_are_marshalled() {
    let mut t = TransportCore::new_with_ssrc("F", 0x0102_0304, 0x0A0B_0C0D);
    let seq = t.rtp().audio_seq;
    let abs = [7u8, 8, 9];
    let a = t.audio_packet(111, 20_000_000, &abs, &[0xAA, 0xBB]).unwrap();
    assert_eq!(a.len(), 12 + 4 + 8 + 2);
    assert_eq!(&a[0..2], &[0x90, 0x80 | 111]);
    assert_eq!(&a[2..4], &seq.to_be_bytes());
    assert_eq!(&a[4..8], &[0, 0, 0, 0]);
    assert_eq!(&a[8..12], &[1, 2, 3, 4]);
    assert_eq!(&a[12..16], &[0xBE, 0xDE, 0, 2]);
    assert_eq!(&a[16..24], &[0x10, 0x80, 0x22, 7, 8, 9, 0x40, 0x30]);
    assert_eq!(&a[24..26], &[0xAA, 0xBB]);
    let b = t.audio_packet(111, 20_000_000, &abs, &[1]).unwrap();
    assert_eq!(&b[0..2], &[0x90, 111]);
    assert_eq!(&b[2..4], &seq.wrapping_add(1).to_be_bytes());
    assert_eq!(&b[4..8], &960u32.to_be_bytes());

    let vseq = t.rtp().video_seq;
    let ts = t.next_video_frame(33_333_333);
    let first = t.video_packet(ts, &abs, &[5, 6, 7], 0, 2).unwrap();
    let last = t.video_packet(ts, &abs, &[8], 1, 2).unwrap();
    assert_eq!(&first[0..2], &[0x90, 100]);
    assert_eq!(&last[0..2], &[0x90, 0x80 | 100]);
    assert_eq!(&first[2..4], &vseq.to_be_bytes());
    assert_eq!(&last[2..4], &vseq.wrapping_add(1).to_be_bytes());
    assert_eq!(&first[8..12], &[0x0A, 0x0B, 0x0C, 0x0D]);
    assert_eq!(&first[12..24], &[0xBE, 0xDE, 0, 2, 0x22, 7, 8, 9, 0x40, 0x31, 0x50, 0x00]);
    assert_eq!(&first[24..], &[5, 6, 7]);
    assert_eq!(&last[24..], &[8]);
}

#[test]
fn fingerprint_is_first_value_upper_cased() {
    assert_eq!(fingerprint_of(&vec!["ab:cd:0f".to_string(), "x".to_string()]), "AB:CD:0F");
    assert_eq!(fingerprint_of(&vec![]), "");
}

#[test]
fn ssrc_allocation() {
    let mut f = FactoryCore::with_seed(FactoryOptions { cert_pool_size: 0, use_direct_transport: false }, 10);
    assert_eq!(f.cert_pool_size, 8);
    assert_eq!(f.ssrc_counter, 11);
    assert_eq!(f.new_stack_ssrcs(true), Ok((11, 12)));
    assert_eq!(f.ssrc_counter, 14);
    assert_eq!(f.new_stack_ssrcs(false), Ok((14, 0)));
    f.ssrc_counter = u32::MAX;
    assert_eq!(f.allocate_ssrc(), u32::MAX);
    assert_eq!(f.allocate_ssrc(), 1);
    f.close();
    assert_eq!(f.new_stack_ssrcs(true), Err(RustTgCallsError::Closed));
    assert_eq!(f.check_open(), Err(RustTgCallsError::Closed));
    let d = FactoryOptions::default();
    assert_eq!((d.cert_pool_size, d.use_direct_transport), (8, false));
    let r = FactoryCore::new(d);
    assert_eq!(r.ssrc_counter % 2, 1);
}

#[test]
fn monitor_closes_stuck_connections_and_warms_video() {
    let mut e = MonitorEntry::new();
    assert_eq!(e.tick(false, 1_000, false, true), MonitorAction::Nothing);
    assert_eq!(e.checking_ns, 1_000);
    assert_eq!(e.tick(false, 35_000_001_000, false, true), MonitorAction::Nothing);
    assert_eq!(e.tick(false, 35_000_001_001, false, true), MonitorAction::Close);
    let mut c = MonitorEntry::new();
    assert_eq!(c.tick(true, 5, true, true), MonitorAction::Keepalive);
    assert_eq!(c.tick(true, 6, true, false), MonitorAction::Nothing);
    assert_eq!(c.tick(true, 7, false, true), MonitorAction::Nothing);
    assert_eq!(c.tick(false, 10_000_000_000_000, false, true), MonitorAction::Nothing);
    let mut clock = MonitorClock::new();
    assert!(!clock.tick());
    assert!(clock.tick());
    assert!(!clock.tick());
    assert_eq!(keepalive_payload(), vec![0x90, 0x80, 0xe0, 0x00, 0x00]);
}

#[test]
fn stun_binding_requests_are_recognised() {
    let id = [1u8, 2, 3, 4, 5, 6, 7, 8, 9, 10, 11, 12];
    let mut req = Message::new();
    req.build(&[Box::new(BINDING_REQUEST), Box::new(TransactionId(id))]).unwrap();
    assert_eq!(stun_binding_request(&req.raw), Some(id));
    let mut resp = Message::new();
    resp.build(&[Box::new(BINDING_SUCCESS), Box::new(TransactionId(id))]).unwrap();
    assert_eq!(stun_binding_request(&resp.raw), None);
    assert_eq!(stun_binding_request(&[0x16, 0xfe, 0xfd, 0, 0]), None);
}

#[test]
fn rtcp_feedback_requests_a_keyframe() {
    let pli = PictureLossIndication { sender_ssrc: 1, media_ssrc: 2 }.marshal().unwrap();
    assert!(rtcp_asks_keyframe(&pli));
    let mut t = TransportCore::new_with_ssrc("F", 7, 8);
    assert!(t.start_epoch(ntp_from_unix(1, 0)));
    let (a, _) = t.sender_reports(9).unwrap();
    let report = a.unwrap();
    assert!(!rtcp_asks_keyframe(&report));
    assert!(!rtcp_asks_keyframe(&[1, 2, 3]));
    assert!(!t.on_rtcp(&report));
    assert!(!t.rtp().pli_requested);
    assert!(t.on_rtcp(&pli));
    assert!(t.rtp().pli_requested);
}

#[test]
fn negotiated_profiles() {
    assert_eq!(negotiated_profile(0x0007), ProtectionProfile::AeadAes128Gcm);
    assert_eq!(negotiated_profile(0x0001), ProtectionProfile::Aes128CmHmacSha1_80);
    assert_eq!(negotiated_profile(0x0002), ProtectionProfile::Aes128CmHmacSha1_80);
}

#[test]
fn every_packet_of_a_video_frame() {
    let mut t = TransportCore::new_with_ssrc("F", 1, 0x0A0B_0C0D);
    let seq = t.rtp().video_seq;
    let abs = [1u8, 2, 3];
    let frame: Vec<u8> = (0..2500u32).map(|i| (i % 251) as u8).collect();
    let packets = t.video_frame_packets(3000, &abs, &frame, true);
    assert_eq!(packets.len(), 3);
    let mut rebuilt = Vec::new();
    for (k, (p, chunk_len)) in packets.iter().enumerate() {
        let marker = if k == 2 { 0x80 } else { 0 };
        assert_eq!(&p[0..2], &[0x90, marker | 100]);
        assert_eq!(&p[2..4], &seq.wrapping_add(k as u16).to_be_bytes());
        assert_eq!(&p[4..8], &3000u32.to_be_bytes());
        assert_eq!(*chunk_len, p.len() - 24);
        assert!(*chunk_len <= 1180);
        let start = if k == 0 { 0x90 } else { 0x80 };
        assert_eq!(&p[24..27], &[start, 0x80, 0x00]);
        rebuilt.extend_from_slice(&p[27..]);
    }
    assert_eq!(rebuilt, frame);
    assert_eq!(t.rtp().video_seq, seq.wrapping_add(3));
    let next = t.video_frame_packets(6000, &abs, &[7, 8], true);
    assert_eq!(next.len(), 1);
    assert_eq!(&next[0].0[24..], &[0x90, 0x80, 0x01, 7, 8]);
    assert!(t.video_frame_packets(9000, &abs, &[], true).is_empty());
    assert!(t.video_frame_packets(9000, &abs, &[1, 2, 3], false).is_empty());
    assert_eq!(t.rtp().video_seq, seq.wrapping_add(4));
}

#[test]
fn credentials_spell_their_draws() {
    assert_eq!(credential_from(&vec![0, 25, 26, 51, 52, 61, 62, 63]), "AZaz09-_");
    assert_eq!(credential_from(&vec![]), "");
}

#[test]
fn allocated_ssrcs_are_distinct_across_the_wrap() {
    let mut f = FactoryCore::with_seed(FactoryOptions { cert_pool_size: 1, use_direct_transport: false }, 0);
    f.ssrc_counter = u32::MAX - 2;
    let got: Vec<u32> = (0..6).map(|_| f.allocate_ssrc()).collect();
    assert_eq!(got, vec![u32::MAX - 2, u32::MAX - 1, u32::MAX, 1, 2, 3]);
}

#[test]
fn fingerprint_upper_cases_beyond_ascii() {
    assert_eq!(fingerprint_of(&vec!["ab:éß".to_string()]), "AB:ÉSS");
}
