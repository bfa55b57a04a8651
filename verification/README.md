# amberol_core

The decisions of a GTK music player, verified with Verus.

- `src/playback.rs` — the player's repeat modes, states and actions.
- `src/mpris.rs` — the MPRIS bridge: the statuses published for the player's
  state and repeat mode, the action that answers each remote request, the
  track metadata and position published, in microseconds, through
  `mpris_server::Time`.
- `src/waveform_generator.rs` — gathering a song's peaks from the level
  messages of a decoding pipeline, and the bus watch's reply to each message.
- `src/waveform_view.rs` — the layout of the waveform: which peaks each bar
  averages and where it is drawn.

`app/` holds the widgets, the GStreamer pipeline and the D-Bus service, which
hand plain values to the library and act on its replies; the floating-point
work (normalising levels, averaging peaks, painting) stays there.
