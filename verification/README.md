# render_baby

The core of RenderBaby, a progressive GPU path tracer, as a library whose logic is
proved correct with Verus.

## Layout

- `src/` — the verified library:
  - `command_stack` — undo/redo of user commands; commands name their callbacks by
    handle, and each operation returns the handle to run.
  - `render_config` — change tracking of scene configurations (`Change`,
    `RenderConfig`, `RenderConfigBuilder`) and their validation.
  - `gpu_plan` — what an engine does with its GPU buffers for an incoming
    configuration, the counts it uploads, the sizes of its first buffers, and the
    handling of the pixels it reads back.
  - `progressive` — splitting a render into passes.
  - `texture` — texture data and its flattening into one buffer.
  - `bvh` — the node layout of the bounding volume hierarchy.
  - `frame`, `frame_buffer` — rendered frames and the decisions of the frame
    buffer's worker.
  - `deferred` — switching to a cheap mode and back after a delay.
  - `message`, `log_buffer` — user-facing messages and the log text buffer.
  - `control` — the main window's events and its per-frame decisions (`MainView`).
  - `file_picker` — one file dialog at a time, and the errors of a dialog.
  - `engine_types`, `action_stack` — small shared types.
- `app/` — the application layer: scene data with floating-point values, the wgpu
  engine, worker threads, logging, the egui window and elements. It calls the library for
  every decision and is not verified.
- `tests/` — tests of the library on concrete values.
