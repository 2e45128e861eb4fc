# cubixwm

The core of a small Wayland window manager, verified with Verus.

- `src/` is the library. `wm/` holds the window manager (`manager.rs`), the
  grab and resize arithmetic (`grabs.rs`, `resize.rs`), the laws proved of
  them (`laws.rs`) and of sequences of calls (`history.rs`); `desktop/` the geometry, windows, focus and stacking;
  `backend/`, `input/`, `protocol/`, `render/`, `x11/` and `app/` the
  subsystems' state and the boot sequence; `backend/tty.rs` the test-pattern
  painter and the output choice of the DRM backend; `command.rs` the command
  line.
- `app/` is the program: argument handling, printing, the nested smithay
  compositor, and the DRM backend (`app/tty.rs`). The DRM backend needs a
  `tty-backend` feature, which this manifest does not declare (it needs
  smithay's libseat and udev support and their system libraries), so in
  this build the `tty` command reports that the backend is disabled.
- `tests/` exercises the library.
