# unni — a terminal pet, verified

A small digital pet that lives in the terminal. The library in `src/` holds
its logic, proved with Verus; `app/` is the program around it (SQLite
storage, the Ratatui screen, keyboard input, printing).

| Module | What it holds |
|---|---|
| `src/pet.rs` | `Pet`, the four actions, experience and levels, clamping, the status line, and the laws on them |
| `src/personality.rs` | the mood rules and the pools of lines a pet may say |
| `src/app.rs` | the interactive screen's state and what each key press does to it |
| `src/cli.rs` | reading `pet <command>` and the text each command prints |
| `src/text.rs` | decimal numbers, right alignment and placeholder replacement |
| `src/clock.rs` | timestamps and the system clock |
| `app/` | the database, the terminal screen, the event loop and `main` |

The original README describes a catch-up of elapsed time in 30-minute steps
(`Pet::apply_elapsed`, `Database::load_current`). Its source holds neither
function, nor what one step does to the stats, so this crate has no catch-up:
a pet loaded from the database is exactly as it was saved.
