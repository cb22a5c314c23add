# windows_settings

A Windows tuning utility (UWP apps, telemetry, memory, disk cleanup,
services, Windows Update, self-update) whose decision logic is a library
verified with Verus.

- `src/` is the verified library: the tables of managed items, the
  PowerShell scripts and the parsers of their output, the settings and
  configuration file formats, the JSON string escaping, the application
  state and how each background reply changes it, and what the pages show.
  Each public function states its result in `ensures`; the laws that relate
  several functions (round trips of the file formats and escapings, what a
  reply does to the state) are public proof functions.
- `app/` is the program around it: the window (eframe/egui), the threads,
  running PowerShell, file and network I/O, and the self-update.
- `tests/` runs the library on concrete values.
