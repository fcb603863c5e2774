# badkat

A desktop cat that closes your doomscrolling: it watches the foreground
window, and when a rule (YouTube Shorts, Reels, TikTok, ...) has held it
for the rule's grace period, the cat walks over and closes the tab.

The decisions are a Verus-verified library; the desktop plumbing around
it is ordinary Rust.

## Layout

- `src/` — the verified library.
  - `text.rs` — character-level string handling the rest is specified over.
  - `config.rs` — settings, defaults, strict `HH:MM` parsing, field-addressed
    validation, and what loading `config.json` decides.
  - `rules.rs` — which rule matches a window, and the action for it.
  - `win.rs` — the window snapshot, title and process-name handling, the
    checks before and after closing, and the address-bar reader's cache.
  - `action_tickets.rs` — single-use, expiring tickets that authorize a close.
  - `progress.rs` — the level curve and XP awards.
  - `usage.rs` — the daily allowance, the weekly schedule and usage tracking.
  - `storage.rs` — recoverable JSON files: the load decision and the save
    protocol as a step machine, with its recovery laws.
  - `patrol.rs` — the watch: grace, busts, the trail, pats, snoozes.
  - `shared.rs` — the state everything shares, and each event on it: a poll
    of the foreground window, an enforcement attempt (a step machine from the
    authorized ticket through delivery to confirmation), a pat, a settings
    change.
  - `commands.rs` — links, hitbox placement and update reports.
- `tests/` — tests of the library against concrete values.
- `app/` — the Tauri application: windows, tray, the monitor thread, file
  I/O, Win32 and UI Automation calls. It carries out what the library names.

Instants in the library are nanoseconds on the application's monotonic
clock; the cat's scale and speed are kept as IEEE-754 bit patterns.
