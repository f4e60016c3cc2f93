# oyasumivr

The Linux side of OyasumiVR, a VR sleep companion: the core's audio device,
power profile, notification, OSC, GPU, headset and VR bookkeeping, and the
overlay sidecar's configuration, page channel and command line.

The decisions live in `src/`, written in Verus and proved against their
contracts:

- `audio` — PulseAudio device list, device requests and sequence numbers
- `power` — power profile providers and the commands that drive them
- `notifications` — desktop notification inhibition
- `osc` — OSC whitelist, argument conversion, VRChat service addresses
- `vr` — VR models, OpenXR loop decisions, head-shake switches, sleep window
- `system` — command output, sounds, bindings, LACT, Bigscreen Beyond, VRCX
- `overlay_config` — overlay defaults and configuration files
- `overlay_ipc` — the scripts run in the overlay page and the calls it makes
- `sidecar` — the sidecar's command line, addresses, kill switch and requests
- `text` — decimal numbers, suffixes and the string functions of std

`app/` holds the program around them: sockets, processes, the session bus,
the web servers, and the floating-point parts (volume curves, framerate
expressions, head-pose distances). `tests/` runs the library on concrete
values.

Some library functions decide for hosts that this build does not contain
(the OpenXR runner, the overlay browser, the gRPC services, the VRCX pipe,
the sound player): among them `overlay_poll_step`, `status_after_event`,
`core_poll_delay_ms`, the bindings functions, `sound_file_path` and the
`NotificationSender`. `app/` does not call them; they are tested in `tests/`.
