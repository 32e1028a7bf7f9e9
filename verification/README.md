# window_capture

The decisions behind recording one window of a Windows desktop, written in Verus: when a frame is
due, what it shows, how lateness is made up for, how a lost window is found again, and which
failures a recording survives.

- `src/` is the verified library. A recording is a state machine: `capture::get_frames` starts
  one, `Capture::action` names the outside work that is due, `Capture::step` takes the answer.
  `frame` holds the work on one frame, `timing` the pacing, `window` the tracking of the window,
  `cursor` the drawing of the mouse cursor, `send` the sending of a sample, `error` the reaction
  to failures, `com` the initialization of COM. `laws` states what holds of whole recordings.
- `app/` performs the actions with the `windows` crate.
- `tests/` runs the library on concrete recordings.
