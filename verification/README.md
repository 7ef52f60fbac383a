# snout

The verified core of Snout, a face and eye tracker for Project Babble style
avatars. `src/` is a Verus library: Verus verifies every executable function
there against its contract. The few calls into outside crates and std stand
behind small trusted functions, whose contracts are taken from those crates'
documentation and source; a handful of functions (the cancellation flag, the
emitter constructors) have nothing that a contract could state. `app/` is ordinary Rust around it: the `snout-remote`
program, sockets, cameras, threads, the C interface and the stages that
compute with floating point numbers.

Layout of `src/`:

- `calibration`: the face and eye blend shapes (names, model order, Babble and
  ETVR addresses) and the frame window of a calibration pass.
- `osc`, `control`: the OSC messages of the control channel and how a datagram
  is decoded into control events.
- `remote`: the commands of the remote control client and their messages.
- `capture`: frames, cropping, side-by-side splitting, MJPEG stream framing,
  pixel formats and JPEG decoding.
- `pipeline`: the composite image of the eye model and the output map of the
  face model.
- `output`: the messages the Babble and ETVR protocols send.
- `track`, `error`, `config`: errors and their codes across the C interface,
  and when the eye tracker reopens its camera.
- `cli`, `cancel`, `text`: small decisions of the command line tracker,
  cancellation, and string helpers.

Floating point values (weights, bounds) are carried through `src/` by their
IEEE-754 bit patterns.
