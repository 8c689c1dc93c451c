use rusttgcalls::models::errors::RustTgCallsError;
use rusttgcalls::wrtc::jsonparams::decode::parse_remote;
use rusttgcalls::wrtc::jsonparams::types::{is_zero_u16, Candidate, Fingerprint, RemoteParams as Answer, Transport};
use rusttgcalls::wrtc::native::keys::{
    derive_srtp_keying_material, derive_srtp_keying_material_both, translate_profile, ProtectionProfile,
};
use rusttgcalls::wrtc::native::remote::{build_ice_candidate, parse_remote_json};
use rusttgcalls::wrtc::native::signaling::{
    build_local_params, URI_ABS_SEND_TIME, URI_AUDIO_LEVEL, URI_SDES_MID, URI_TRANSPORT_CC, URI_VIDEO_ORIENTATION,
};

fn cand(ip: &str, port: &str) -> Candidate {
    Candidate {
        generation: String::new(),
        component: String::new(),
        protocol: String::new(),
        port: port.to_string(),
        ip: ip.to_string(),
        foundation: String::new(),
        id: String::new(),
        priority: String::new(),
        candidate_type: String::new(),
        network: String::new(),
        rel_addr: String::new(),
        rel_port: String::new(),
        tcp_type: String::new(),
    }
}

fn fp(v: &str) -> Fingerprint {
    Fingerprint { hash: "sha-256".to_string(), setup: "active".to_string(), fingerprint: v.to_string() }
}

fn answer(ufrag: &str, pwd: &str, fps: Vec<Fingerprint>) -> Answer {
    Answer {
        transport: Transport {
            ufrag: ufrag.to_string(),
            pwd: pwd.to_string(),
            fingerprints: fps,
            candidates: vec![cand("1.2.3.4", "443")],
        },
    }
}

#[test]
fn candidate_line_with_defaults() {
    let mut c = cand("1.2.3.4", "443");
    c.generation = "0".to_string();
    assert_eq!(build_ice_candidate(&c).unwrap(), "1 1 UDP 2130706431 1.2.3.4 443 typ host generation 0");
}

#[test]
fn candidate_line_with_every_field() {
    let mut c = cand("::1", "80");
    c.foundation = "f".to_string();
    c.component = "2".to_string();
    c.protocol = "tcp".to_string();
    c.priority = "100".to_string();
    c.candidate_type = "srflx".to_string();
    c.rel_addr = "10.0.0.1".to_string();
    c.rel_port = "5000".to_string();
    c.tcp_type = "passive".to_string();
    assert_eq!(
        build_ice_candidate(&c).unwrap(),
        "f 2 tcp 100 ::1 80 typ srflx raddr 10.0.0.1 rport 5000 tcptype passive"
    );
}

#[test]
fn candidate_line_needs_both_related_parts() {
    let mut c = cand("1.1.1.1", "1");
    c.rel_addr = "10.0.0.1".to_string();
    assert_eq!(build_ice_candidate(&c).unwrap(), "1 1 UDP 2130706431 1.1.1.1 1 typ host");
}

#[test]
fn candidate_without_ip_or_port_is_refused() {
    let err = Some(RustTgCallsError::InvalidParams("candidate missing ip/port".to_string()));
    assert_eq!(build_ice_candidate(&cand("", "443")).err(), err);
    assert_eq!(build_ice_candidate(&cand("1.2.3.4", "")).err(), err);
}

#[test]
fn remote_answer_checks() {
    assert_eq!(parse_remote(true, Ok(answer("u", "p", vec![fp("AA")]))).err(), Some(RustTgCallsError::UnsupportedCallMode));
    assert_eq!(
        parse_remote(false, Err("expected value at line 1".to_string())).err(),
        Some(RustTgCallsError::InvalidParams("decode remote params: expected value at line 1".to_string()))
    );
    assert_eq!(
        parse_remote(false, Ok(answer("", "p", vec![fp("AA")]))).err(),
        Some(RustTgCallsError::InvalidParams("remote params missing ice creds".to_string()))
    );
    assert_eq!(
        parse_remote(false, Ok(answer("u", "", vec![fp("AA")]))).err(),
        Some(RustTgCallsError::InvalidParams("remote params missing ice creds".to_string()))
    );
    assert_eq!(
        parse_remote(false, Ok(answer("u", "p", vec![]))).err(),
        Some(RustTgCallsError::InvalidParams("remote params missing fingerprint".to_string()))
    );
    let ok = parse_remote(false, Ok(answer("u", "p", vec![fp("AA")]))).unwrap();
    assert_eq!(ok.transport.ufrag, "u");
}

#[test]
fn remote_json_keeps_the_transport() {
    let p = parse_remote_json(false, Ok(answer("uf", "pw", vec![fp("AB:CD")]))).unwrap();
    assert_eq!(p.ufrag, "uf");
    assert_eq!(p.pwd, "pw");
    assert_eq!(p.fingerprints.len(), 1);
    assert_eq!(p.fingerprints[0].fingerprint, "AB:CD");
    assert_eq!(p.candidates.len(), 1);
    assert_eq!(p.candidates[0].ip, "1.2.3.4");
    assert_eq!(parse_remote_json(true, Ok(answer("u", "p", vec![fp("A")]))).err(), Some(RustTgCallsError::UnsupportedCallMode));
}

#[test]
fn local_params_full_shape() {
    let lp = build_local_params("ufrag1", "pwd1", "AA:BB", 1111, 2222).unwrap();
    assert_eq!(lp.ufrag, "ufrag1");
    assert_eq!(lp.pwd, "pwd1");
    assert_eq!(lp.ssrc, 1111);
    assert_eq!(lp.fingerprints.len(), 1);
    assert_eq!(lp.fingerprints[0].hash, "sha-256");
    assert_eq!(lp.fingerprints[0].setup, "passive");
    assert_eq!(lp.fingerprints[0].fingerprint, "AA:BB");
    assert_eq!(lp.ssrc_groups.len(), 1);
    assert_eq!(lp.ssrc_groups[0].semantics, "FID");
    assert_eq!(lp.ssrc_groups[0].sources, vec![2222, 2223]);
    let opus = &lp.payload_types[0];
    assert_eq!((opus.id, opus.name.as_str(), opus.clockrate, opus.channels), (111, "opus", 48000, 2));
    let params: Vec<(String, String)> = opus.parameters.clone().unwrap();
    assert_eq!(
        params,
        vec![
            ("minptime".to_string(), "10".to_string()),
            ("useinbandfec".to_string(), "1".to_string()),
            ("stereo".to_string(), "1".to_string()),
            ("sprop-stereo".to_string(), "1".to_string()),
            ("maxaveragebitrate".to_string(), "510000".to_string()),
        ]
    );
    assert_eq!(opus.rtcp_fbs.len(), 1);
    assert_eq!(opus.rtcp_fbs[0].feedback_type, "transport-cc");
    let vp8 = &lp.payload_types[1];
    assert_eq!((vp8.id, vp8.name.as_str(), vp8.clockrate, vp8.channels), (100, "VP8", 90000, 0));
    assert!(vp8.parameters.is_none());
    let fbs: Vec<(String, String)> =
        vp8.rtcp_fbs.iter().map(|f| (f.feedback_type.clone(), f.subtype.clone())).collect();
    assert_eq!(
        fbs,
        vec![
            ("goog-remb".to_string(), String::new()),
            ("transport-cc".to_string(), String::new()),
            ("ccm".to_string(), "fir".to_string()),
            ("nack".to_string(), String::new()),
            ("nack".to_string(), "pli".to_string()),
        ]
    );
    let exts: Vec<(u8, String)> = lp.rtp_hdrexts.iter().map(|e| (e.id, e.uri.clone())).collect();
    assert_eq!(
        exts,
        vec![
            (1, URI_AUDIO_LEVEL.to_string()),
            (2, URI_ABS_SEND_TIME.to_string()),
            (3, URI_TRANSPORT_CC.to_string()),
            (4, URI_SDES_MID.to_string()),
            (5, URI_VIDEO_ORIENTATION.to_string()),
        ]
    );
}

#[test]
fn local_params_without_video_and_wrapping_rtx() {
    assert!(build_local_params("u", "p", "F", 5, 0).unwrap().ssrc_groups.is_empty());
    assert_eq!(build_local_params("u", "p", "F", 5, u32::MAX).unwrap().ssrc_groups[0].sources, vec![u32::MAX, 0]);
}

#[test]
fn local_params_errors() {
    let empty = Some(RustTgCallsError::InvalidParams("empty ufrag, pwd, or fingerprint".to_string()));
    assert_eq!(build_local_params("", "p", "F", 1, 0).err(), empty);
    assert_eq!(build_local_params("u", "", "F", 1, 0).err(), empty);
    assert_eq!(build_local_params("u", "p", "", 1, 0).err(), empty);
    assert_eq!(
        build_local_params("u", "p", "F", 0, 7).err(),
        Some(RustTgCallsError::InvalidParams("audio_ssrc cannot be zero".to_string()))
    );
}

#[test]
fn zero_channel_count_is_skipped() {
    assert!(is_zero_u16(&0));
    assert!(!is_zero_u16(&2));
}

#[test]
fn keying_material_split_gcm() {
    let m: Vec<u8> = (0u8..60).collect();
    let (sk, ss, ck, cs) = derive_srtp_keying_material_both(&m, ProtectionProfile::AeadAes128Gcm).unwrap();
    assert_eq!(ck.to_vec(), (0u8..16).collect::<Vec<u8>>());
    assert_eq!(sk.to_vec(), (16u8..32).collect::<Vec<u8>>());
    assert_eq!(cs, (32u8..44).collect::<Vec<u8>>());
    assert_eq!(ss, (44u8..56).collect::<Vec<u8>>());
    let (sk2, ss2) = derive_srtp_keying_material(&m, ProtectionProfile::AeadAes128Gcm).unwrap();
    assert_eq!((sk2, ss2), (sk, ss));
}

#[test]
fn keying_material_split_cm_and_too_short() {
    let m: Vec<u8> = (0u8..60).collect();
    let (_sk, ss, _ck, cs) = derive_srtp_keying_material_both(&m, ProtectionProfile::Aes128CmHmacSha1_80).unwrap();
    assert_eq!(cs, (32u8..46).collect::<Vec<u8>>());
    assert_eq!(ss, (46u8..60).collect::<Vec<u8>>());
    assert_eq!(
        derive_srtp_keying_material(&m[..59], ProtectionProfile::Aes128CmHmacSha1_80).err(),
        Some(RustTgCallsError::InvalidParams("keying material buffer too small".to_string()))
    );
    assert!(derive_srtp_keying_material(&m[..56], ProtectionProfile::AeadAes128Gcm).is_ok());
}

#[test]
fn profiles() {
    assert_eq!(ProtectionProfile::AeadAes128Gcm.key_len(), 16);
    assert_eq!(ProtectionProfile::AeadAes128Gcm.salt_len(), 12);
    assert_eq!(ProtectionProfile::Aes128CmHmacSha1_80.salt_len(), 14);
    assert_eq!(translate_profile(7), Ok(ProtectionProfile::AeadAes128Gcm));
    assert_eq!(translate_profile(1), Ok(ProtectionProfile::Aes128CmHmacSha1_80));
    assert_eq!(
        translate_profile(0xab2),
        Err(RustTgCallsError::InvalidParams("unsupported SRTP profile value 0x0ab2".to_string()))
    );
}

#[test]
fn error_messages() {
    assert_eq!(RustTgCallsError::Closed.message(), "rusttgcalls: client closed");
    assert_eq!(
        RustTgCallsError::InvalidParams("x".to_string()).message(),
        "rusttgcalls: malformed telegram params: x"
    );
    assert_eq!(RustTgCallsError::SeekUnsupported.message(), "rusttgcalls: source is not seekable");
    assert_eq!(RustTgCallsError::WrongMode.message(), "rusttgcalls: operation not valid for call mode");
}
