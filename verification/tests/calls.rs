use rusttgcalls::client_options::{ClientOptions, NetworkType, NETWORK_TYPE_TCP4};
use rusttgcalls::instances::group_call::{upgrade_if_changed, EndNotice, GroupCallState, SourceReadiness};
use rusttgcalls::instances::rtmp_call::{build_rtmp_args, RtmpCallState};
use rusttgcalls::io::shell_reader::{exit_error, stdout_missing, ExitOutcome, ReaderState};
use rusttgcalls::media::source::EncodeOptions;
use rusttgcalls::media::streamer::Pacer;
use rusttgcalls::models::errors::RustTgCallsError;
use rusttgcalls::models::media_state::{ConnState, MediaState};
use rusttgcalls::utils::dispatch::DispatchQueue;
use rusttgcalls::wrtc::peer_factory::NetworkType as PeerNetworkType;

#[test]
fn group_call_pause_resume_restores_state() {
    let mut c = GroupCallState::new(-100, 0);
    assert_eq!(c.connect_timeout_ns, 10_000_000_000);
    let before = c.current_state();
    assert_eq!(c.pause(), Ok(true));
    assert!(c.current_state().paused && c.current_state().presentation_paused);
    assert_eq!(c.pause(), Ok(false));
    assert_eq!(c.resume(), Ok(true));
    assert_eq!(c.resume(), Ok(false));
    assert_eq!(c.current_state(), before);
}

#[test]
fn group_call_mute_reports_silence() {
    let mut c = GroupCallState::new(1, 5);
    assert_eq!(c.connect_timeout_ns, 5);
    assert_eq!(c.mute(), Ok(true));
    let s = c.current_state();
    assert_eq!(s, MediaState { muted: true, paused: true, video_stopped: true, presentation_paused: true });
    assert_eq!(c.mute(), Ok(false));
    assert_eq!(c.unmute(), Ok(true));
    assert_eq!(c.unmute(), Ok(false));
    assert!(!c.current_state().paused);
}

#[test]
fn group_call_stop_is_final() {
    let mut c = GroupCallState::new(1, 0);
    c.pause().unwrap();
    c.mute().unwrap();
    assert!(c.stop());
    assert!(!c.stop());
    assert_eq!(c.pause(), Err(RustTgCallsError::Closed));
    assert_eq!(c.resume(), Err(RustTgCallsError::Closed));
    assert_eq!(c.mute(), Err(RustTgCallsError::Closed));
    assert_eq!(c.unmute(), Err(RustTgCallsError::Closed));
    assert_eq!(c.check_open(), Err(RustTgCallsError::Closed));
    assert_eq!(c.begin_connect(), Err(RustTgCallsError::Closed));
    assert!(!c.current_state().paused && !c.current_state().muted);
    assert_eq!(c.on_stream_end(), None);
}

#[test]
fn group_call_source_switch_and_end_once() {
    let mut c = GroupCallState::new(1, 0);
    assert_eq!(c.source_readiness(ConnState::Connecting), SourceReadiness::Check);
    assert_eq!(c.begin_connect(), Ok(()));
    assert_eq!(c.source_readiness(ConnState::Connecting), SourceReadiness::WaitThenCheck);
    assert_eq!(c.source_readiness(ConnState::Connected), SourceReadiness::Proceed);
    assert!(c.on_state_change(ConnState::Connected));
    assert_eq!(c.net_state(), ConnState::Connected);
    assert_eq!(c.source_readiness(ConnState::Connecting), SourceReadiness::Proceed);
    assert_eq!(
        GroupCallState::connection_check(ConnState::Failed).err(),
        Some(RustTgCallsError::Internal("WebRTC connection timed out before set_source".to_string()))
    );
    c.mute().unwrap();
    let plan = c.begin_switch(true, true);
    assert!(plan.barrier && plan.audio_starts_paused && !plan.video_starts_paused && !plan.video_reports_end);
    assert!(!plan.stop_audio && !plan.stop_video);
    assert_eq!(c.on_stream_end(), None);
    let up = c.finish_switch(plan.prev);
    assert_eq!(up, Some(MediaState { muted: true, paused: true, video_stopped: false, presentation_paused: true }));
    assert_eq!(
        c.on_stream_end(),
        Some(EndNotice { stop_audio: true, stop_video: true, report_video: true, report_audio: true })
    );
    assert_eq!(c.on_stream_end(), None);
    let plan2 = c.begin_switch(false, true);
    assert!(plan2.stop_audio && plan2.stop_video && plan2.video_reports_end && !plan2.barrier);
    assert_eq!(c.finish_switch(plan2.prev), None);
    assert_eq!(c.seek_by(5), Err(RustTgCallsError::SeekUnsupported));
    assert_eq!(c.elapsed_ms(), 0);
}

#[test]
fn upgrade_only_on_change() {
    let a = MediaState::new();
    let b = MediaState { muted: true, ..a };
    assert_eq!(upgrade_if_changed(a, a), None);
    assert_eq!(upgrade_if_changed(a, b), Some(b));
}

#[test]
fn rtmp_pause_resume_restarts_at_saved_position() {
    let mut c = RtmpCallState::new(7, "rtmp://t/k");
    assert_eq!(c.net_state(), ConnState::Connecting);
    let args = c.source_args().unwrap();
    assert_eq!(args, build_rtmp_args("input.mp4", 0, &EncodeOptions::default(), "rtmp://t/k"));
    c.on_source_started();
    assert_eq!(c.net_state(), ConnState::Connected);
    assert_eq!(c.elapsed_ms(1500), 1500);
    assert_eq!(c.seek_by(2000, 1500), Ok(()));
    assert_eq!(c.resume_ms, 3500);
    assert_eq!(c.pause(), Ok(true));
    assert_eq!(c.net_state(), ConnState::Connecting);
    assert_eq!(c.elapsed_ms(999_999), 3500);
    assert_eq!(c.pause(), Ok(false));
    let restart = c.resume().unwrap().unwrap();
    assert_eq!(restart, build_rtmp_args("input.mp4", 3500, &EncodeOptions::default(), "rtmp://t/k"));
    assert_eq!(c.resume(), Ok(None));
    c.on_resume_started();
    assert_eq!(c.elapsed_ms(10), 3510);
}

#[test]
fn rtmp_seek_before_start_stops() {
    let mut c = RtmpCallState::new(7, "rtmp://t/k");
    c.on_source_started();
    assert_eq!(c.seek_by(-5000, 1000), Ok(()));
    assert!(c.closed);
    assert_eq!(c.net_state(), ConnState::Closed);
    assert_eq!(c.seek_by(1, 0), Err(RustTgCallsError::Closed));
    assert_eq!(c.pause(), Err(RustTgCallsError::Closed));
    assert_eq!(c.source_args(), Err(RustTgCallsError::Closed));
    assert!(!c.stop());
}

#[test]
fn rtmp_mute_and_state() {
    let mut c = RtmpCallState::new(7, "u");
    assert_eq!(c.mute(), Ok(true));
    assert_eq!(c.mute(), Ok(false));
    assert_eq!(c.current_state(), MediaState { muted: true, paused: true, video_stopped: false, presentation_paused: true });
    assert_eq!(c.unmute(), Ok(true));
    assert_eq!(c.elapsed_ms(50), 0);
    assert_eq!(RtmpCallState::wrong_mode(), RustTgCallsError::WrongMode);
    assert!(c.stop());
    assert_eq!(c.resume_ms, 0);
}

#[test]
fn pacing_is_drift_free_and_resyncs() {
    let mut p = Pacer::new();
    assert!(p.needs_start());
    p.start_at(1_000);
    assert!(!p.needs_start());
    assert_eq!(p.after_sample(20, 1_005), Some(15));
    assert_eq!(p.next_deadline_ns, 1_020);
    assert_eq!(p.after_sample(20, 1_100), None);
    assert_eq!(p.next_deadline_ns, 1_040);
    assert_eq!(p.after_sample(20, 1_000_000_000), None);
    assert_eq!(p.next_deadline_ns, 1_000_000_000);
    assert_eq!(p.ns_sent, 60);
    p.on_paused();
    assert!(p.needs_start());
    assert!(Pacer::should_send(false));
    assert!(!Pacer::should_send(true));
}

#[test]
fn dispatch_queue_drops_oldest_when_full() {
    let mut q: DispatchQueue<u32> = DispatchQueue::new(2);
    assert!(q.submit(1));
    assert!(q.submit(2));
    assert!(q.submit(3));
    assert_eq!(q.len(), 2);
    assert_eq!(q.pop(), Some(2));
    assert_eq!(q.pop(), Some(3));
    assert_eq!(q.pop(), None);
    q.submit(4);
    q.close();
    assert!(q.is_closed());
    assert!(!q.submit(5));
    assert_eq!(q.pop(), Some(4));
    assert_eq!(q.pop(), None);
    let d: DispatchQueue<u8> = DispatchQueue::new(0);
    let mut d = d;
    for i in 0..300u32 {
        d.submit(i as u8);
    }
    assert_eq!(d.len(), 256);
}

#[test]
fn client_options_defaults_and_builders() {
    let o = ClientOptions::default();
    assert_eq!(o.ffmpeg_path, "ffmpeg");
    assert_eq!((o.connect_timeout_secs, o.dispatch_buf, o.cert_pool_size), (10, 256, 8));
    assert_eq!(o.network_types, vec![NetworkType::UDP4, NetworkType::UDP6]);
    assert!(!o.shared_udp_mux && !o.ffmpeg_stderr_log && !o.use_direct_transport && !o.debug_logs);
    let o = ClientOptions::new()
        .with_ffmpeg_path("/opt/ffmpeg")
        .with_debug_logs()
        .with_ffmpeg_stderr_log()
        .with_shared_udp_mux()
        .with_dtls_cert_pool(3)
        .with_dispatch_buffer(9)
        .with_network_types(vec![NETWORK_TYPE_TCP4, NetworkType::UDP6])
        .with_connect_timeout(30)
        .with_direct_transport(true)
        .with_verbose_connection_logs();
    assert_eq!(o.ffmpeg_path, "/opt/ffmpeg");
    assert!(o.debug_logs && o.ffmpeg_stderr_log && o.shared_udp_mux && o.use_direct_transport && o.verbose_connection_logs);
    assert_eq!((o.cert_pool_size, o.dispatch_buf, o.connect_timeout_secs), (3, 9, 30));
    let f = o.factory_options();
    assert_eq!(f.network_types, vec![PeerNetworkType::TCP4, PeerNetworkType::UDP6]);
    assert_eq!(f.cert_pool_size, 3);
    assert!(f.shared_udp_mux);
    assert_eq!(NetworkType::TCP6.code(), 4);
    assert_eq!(NetworkType::UDP4.code(), 1);
}

#[test]
fn exit_errors() {
    assert_eq!(exit_error(&ExitOutcome::Success), None);
    assert_eq!(
        exit_error(&ExitOutcome::Failed("exit status: 1".to_string())),
        Some(RustTgCallsError::FFmpegCrashed("ffmpeg exited with code exit status: 1".to_string()))
    );
    assert_eq!(
        exit_error(&ExitOutcome::WaitFailed("no child".to_string())),
        Some(RustTgCallsError::FFmpegCrashed("no child".to_string()))
    );
    assert_eq!(stdout_missing(), RustTgCallsError::FFmpegSpawn("failed to capture ffmpeg stdout".to_string()));
    let mut r = ReaderState::new();
    assert!(r.must_wait());
    assert!(r.close());
    assert!(!r.close());
    assert!(!r.must_wait());
}
