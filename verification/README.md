# dway_server

The decision logic of a Wayland compositor with an Xwayland window manager,
written in Verus and proved against its contracts.

- `src/` is the verified library. Each protocol object keeps its state in a
  plain type (surfaces, buffers, regions, positioners, toplevels, popups,
  data sources and offers, DMA-buffer parameters, X11 windows and displays),
  and each request or event is a function from that state to the next state
  and to what the compositor has to send. Rectangles and points live in
  `util::rect`.
- The few calls into other crates (the `rstar` r-tree that indexes region
  rectangles, ISO-8859-1 decoding from `encoding`, UUIDs from `uuid`) sit
  behind small trusted wrappers whose contracts state what those calls do.
- `app/` holds what cannot be verified: conversions from `wayland-server`,
  `wayland-protocols` and `x11rb` values, sending the planned events, the X
  connection, and the display lock files.
- `app/surface.rs` answers the `wl_surface` requests: each goes to the
  library's `WlSurface`, and what comes back (buffers to release, the
  invalid-offset error, a popup's first configure) is sent or recorded.
- `app/xevents.rs` runs the X11 event loop: the library decides each event
  (`x11::events::process_x11_event`) and the loop carries the decision out
  with the library's verified steps (`apply_moveresize`,
  `apply_configure_request`, `apply_position`, `map_request_steps`,
  `mapped_requests`, `unmap_requests`), sending the planned requests. Map,
  unmap and `_NET_WM_STATE` writes are planned with a server grab around
  them; a request that fails skips the rest of its grab but not the release
  (`x11::systems::resume_after_failure`).
- `tests/` runs the library on concrete values.

## Scope

The library covers the state of the Wayland protocol objects and the
Xwayland window manager. The compositor's device and display backend (DRM
and udev devices, rendering, frame timing, seat input, the smithay-based
shell) is outside it: that work is device and socket I/O, drawing and
floating-point timing, done through `smithay`, `winit` and the compositor's
own protocol crate, none of which this crate depends on.

The compositor's ECS glue (the `bevy` world, its systems, and the `Dispatch`
implementations that route the other protocols' requests to the functions
here) is not part of this crate either: `bevy` is not among its
dependencies. `app/` shows, for surfaces and for the X11 connection, the
conversions and the sending that such glue performs.
