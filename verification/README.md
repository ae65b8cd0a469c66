# camera_man

The decision-making core of CameraMan, a macOS virtual camera that
composes several camera and synthetic sources into one 1080p output, written
in Verus so that each function's contract is proved.

## Layout

- `src/` — the verified library. Frames and their limits (`frame`,
  `frame_integrity`, `frame_export`, `pixel_writer`), capture policy and the
  background capture worker (`capture`, `capture_worker`, `camera_reads`),
  what a scene shows
  (`scene_sources`, `source_frames`, `scene_history`, `scene_render`,
  `source_health`), the virtual camera's sample pump (`output_stream`,
  `frame_pump`), preferences and the app workflow (`preferences`, `workflow`,
  `ui_layout`), diagnostics and benchmarks (`diagnostics`, `benchmarking`,
  `benchmark_reports`, `benchmark_series`, `summary_arguments`,
  `benchmark_environment`, `soak`), and bundle, path and signing metadata
  (`paths`, `bundle_info`, `app_group`, `atomic_file`, `release`,
  `client_authorization`).
- `tests/` — tests of the library's public functions.
- `app/` — a command-line front end (`camera-man-support`): it reads files,
  property lists, system tools and clocks, runs threads and processes, and
  hands plain values to the library.

Laws that span several functions are public proof functions named `law_*`.
