# media_controller

The state and the decisions of an MPRIS media session (the D-Bus interface
through which desktop environments show and control what a player is
playing), verified with Verus.

- `src/models.rs`: playback status, repeat mode, playback information and
  track metadata. Seconds and rates travel as the bit patterns of their
  `f64` values.
- `src/text.rs`: prefix and substring tests on characters.
- `src/mpris.rs`: MPRIS names of statuses and loop modes, the playback
  properties and the `Metadata` dictionary that the session publishes.
- `src/remote.rs`: which bus names are other players, and what the session
  reads from another player's metadata dictionary.
- `src/controller.rs`: the session controller; each request updates its
  state and returns what to register or announce on the bus; finding the
  metadata to report is a sequence of steps driven by the caller.
- `src/laws.rs`: properties that span requests (read after write, defaults,
  what the lookup steps compute).
- `app/`: the bus side (connection, exported object, signals, queries of
  other players) with the `dbus` and `dbus-crossroads` crates, and the
  floating-point conversions to microseconds.
