# rtjam_rust

The logic of RTJam, a real time music jam system, as a Verus-verified library.

In RTJam a broadcast server keeps a table of the players in a room and
forwards each player's audio packets to everybody else; sound units send and
receive those packets and keep boards of effect pedals for their inputs.  This
crate holds the decisions and bookkeeping of those parts; the audio signal
processing itself (mixing, the pedals' effects) is floating point and is not
part of it.

- `src/` is the verified library: command messages and their decoding
  (including which texts are integers and floating point numbers), the room's
  player list and one turn of the room's packet loop, the metronome, the
  jitter buffer, the channel map that gives room members mixer channels, the
  packet stamping of the socket connection, the routing of commands in the
  sound unit and in its engine, MIDI event decoding, and the pedal board with
  the pedal trait, setting changes and saved boards in JSON.
- `app/` is a thin layer of ordinary Rust around it: JSON output, a UDP
  socket, files and processes, a pedal type that records its settings, and a
  few floating point helpers (a fader, timing statistics, levels in dB).  It
  holds no audio engine and no room server loop.
- `tests/` runs the library on concrete values.
