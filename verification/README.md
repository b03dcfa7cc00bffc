# gcs_afv

Control software for an autonomous fire-fighting vehicle (AFV) and its ground
control station (GCS), with its decision logic verified by Verus.

## Layout

- `src/` — the verified library.
  - `flir_analysis` — fire detection on infra-red frames: thresholding and the
    median centroids of the fire signature.
  - `video` — turning the camera's H.264 packets into RGB frames (openh264).
  - `scan`, `scanner` — which hosts and ports a network scan tries, round by
    round, and the ground station's interactive scanner.
  - `net`, `messages` — the bus messages, message equality as the bridges use
    it, and the decisions of bridges, rosters and viewers.
  - `control` — the drivers' and operators' decisions: device latches, stream
    gates, auto-targeting, the nozzle engagement sequence, turret commands.
  - `link`, `bus` — framing and heartbeats of a point-to-point link, and the
    in-process message bus.
  - `vehicle` — turret links and simulators, main controller messages.
- `tests/` — tests of the library on concrete values.
- `app/` — the vehicle program: sockets, tokio tasks, the RTSP camera client,
  the board drivers, and the float arithmetic of aiming.
