# Sistem Bakım Aracı — verified core

A Windows maintenance and repair tool (cleanup, SFC/DISM repair, disk
information, power plans and turbo control, known fixes, microcode check)
whose decisions are written in Verus and proved against their contracts.

Layout:

- `src/` — the verified library.
  - `text.rs` — character-level helpers (trimming, searching, number
    formatting and parsing, UTF-8 lengths, joining).
  - `actions/` — the tools: output decoding (`decode`), streaming a
    program's output (`stream`), CPU and microcode report (`cpu`), GUIDs in
    `powercfg` output (`guid`), power plans and turbo as step-by-step jobs
    (`power`, `turbo`), known fixes (`fixes`), ISO repair (`iso`),
    maintenance scripts (`script`, `jobs`), log copying (`logs`), the
    operating-system line (`osinfo`).
  - `console.rs` — the job writer and the console buffer.
  - `theme.rs`, `config.rs` — palettes, colour overrides and settings.
  - `sections.rs`, `emoji.rs`, `ui.rs`, `fit.rs`, `i18n.rs` — what the
    window lists and shows, and which job a tool starts.
  - `winutil.rs` — UTF-16 strings, command lines and registry text for the
    Windows API.
  - `laws.rs` — properties over several operations.
- `tests/` — tests on concrete values.
- `app/` — the window (eframe/egui), processes, files, registry and
  dialogs, driving the library's jobs.
