# sfu

A selective forwarding unit (SFU) for WebRTC rooms. Participants join a room
over a websocket, publish audio and simulcast video, and receive the other
participants' streams; the server picks for each subscriber the video layer
that its connection allows.

## Layout

- `src/` is the verified library. It holds the server's decisions as plain
  values and state machines, each with a contract proved by Verus:
  - `keyframe`, `feedback`: reading RTP payloads (key frames of VP8, VP9 and
    H.264) and RTCP feedback (NACK lists);
  - `router`, `subscribers`, `forwarder`, `offset_forwarder`, `audio`:
    routing packets of a published stream to its subscribers and rewriting
    them into one continuous outgoing stream;
  - `layer_manager`, `quality_monitor`, `keyframe_request`, `simulcast`:
    choosing and switching simulcast layers, asking sources for key frames,
    reporting silent layers once;
  - `room`, `server`, `table`, `user`, `signal`, `subscriber`, `publisher`,
    `ice`, `tracks`, `gateway`, `ids`, `network`, `actor`, `quality`,
    `packet`: rooms, participants, signaling and the data they exchange.
- `app/` is the program around the library: the HTTP and websocket server,
  the actors that drive the state machines, the WebRTC peer connections and
  the floating point quality estimate.
- `tests/` runs the library on concrete inputs.
