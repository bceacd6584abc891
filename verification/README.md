# aurisd

A daemon and a command line tool for AirPods on Linux. The daemon speaks the
AirPods' own protocol (AAP) over L2CAP, publishes battery, noise control, ear
detection and settings, writes settings and reads them back, and takes part in
the ownership handoff between hosts.

`src/` is the library. It is written in Verus: every function states what it
returns or changes, and the verifier proves it. It reads no clock and does no
I/O. `app/` is the program around it: sockets, D-Bus, files, timers and the
command line.

| Module | What it decides |
| --- | --- |
| `aap::codec` | AAP packets, from bytes and to bytes |
| `aap::session` | the connection state machine: who may dial, what is published, when a link is given up |
| `aap::socket` | the L2CAP socket address and what a send came to |
| `handoff` | when this host yields the audio and when it takes over |
| `audio_route` | which PipeWire card profile fits, and how to reach it |
| `autoconnect` | when to page AirPods that appeared nearby |
| `ear_media` | pausing and resuming players when a bud leaves an ear |
| `ble` | battery levels from encrypted adverts |
| `bluez` | what BlueZ's properties, objects and errors mean |
| `settings`, `cli`, `ctl_proto`, `ctl_server` | typed settings, commands, the control socket's lines and answers |
| `state`, `store` | the published document, and how each report changes it |
| `config`, `cache`, `models` | defaults and paths, cached readings, product names |
| `text`, `clock`, `address`, `json` | the values all of these are made of |

What holds across functions is stated as public proof functions next to what
they are about; those of the supervisor as a whole are in
`aap::session::laws`. Calls into other crates (`aes`, `bluer`, `chrono`,
`serde_json`, `toml_edit`) and to the few standard library functions without a
specification stand in small private wrappers whose doc comments say what is
taken on trust.
