# hark

Hark is push-to-talk dictation for the desktop: hold a shortcut, speak,
release, and the words are typed at the cursor. This crate is its core,
written in Verus: every function in `src/` carries a contract that the
verifier proves.

## Layout

- `src/` — the verified library.
  - Audio: `window` (which samples a press covers, how large the capture
    ring must be), `ring` (the capture ring and its range reads), `assemble`
    (planning the read of one utterance), `resample` (output lengths at
    16 kHz), `device` (which microphone and format capture asks for, the
    picker, capture errors).
  - Text: `text` (trimming, words, decimals, character-safe previews) and
    `format` (counts, durations, dates and times as the pages show them).
  - Pages: `history`, `history_page`, `stats`, `invocations`, `alternates`, `terms`,
    `dictionary`, `spellbook`, `spellbook_terms`, `spellbook_page`,
    `settings`, `keys`, `cleanup`, `capture`, `footer`, `pages`.
  - Background work: `pipeline` (the dictation pipeline's status machine),
    `update` and `model_download` (the updater's and the model download's
    state machines).
  - Shell: `tray`, `feedback` (the recording overlay's states),
    `window_behavior`, `autostart` (the login entry's text), `startup`.
- `tests/` — tests of the library on concrete values.
- `app/` — ordinary Rust around the library: the lock-free capture memory,
  the overlay feedback cell shared between threads,
  floating-point loudness and gain, resampling through `rubato`, the login
  entry on disk, the log file, and the tray icon bitmaps.

Times and dates go through `jiff`, behind small trusted wrappers whose
contracts say what the library relies on.
