# rusttgcalls

Streaming audio and video into Telegram group calls over a direct
ICE/DTLS/SRTP transport, with ffmpeg as the media source.

The library under `src/` is written in Verus: every function there carries a
contract, and the decisions of the streaming stack are proved against them.

- `utils`: the bounded stderr ring buffer, the callback queue, text helpers.
- `models`: errors, media descriptions, participant media state and
  connection states.
- `media`: ffmpeg argument building and checking, seek injection, shell
  tokenizing, the Ogg/Opus and IVF frame readers, and the streamer's pacing.
- `wrtc`: the Telegram signaling JSON (local parameters, remote answer),
  candidate selection, datagram classification, RTP sequencing and
  timestamps, sender reports, SRTP keying, SSRC allocation and the
  connection monitor.
- `instances`: the state machines of a WebRTC group call and of an RTMP call.
- `io`: the decisions of the ffmpeg process reader.

Laws that span several operations are public proof functions named
`lemma_*` beside the functions they speak of.

`app/` holds what Verus does not read: the tokio tasks, sockets and
processes, rtc's DTLS and SRTP engines, serde copies of the library's types,
and the client that ties them together. It drives the library's state
machines and performs the actions they return.

`tests/` runs the library on concrete values with the outside crates linked.
