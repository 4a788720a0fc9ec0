# vnikey

A Vietnamese input method for Linux. The library in `src/` is verified with
Verus: every public function carries a `requires`/`ensures` contract over
mathematical models (`Seq`, `Map`, `Set`, spec functions), and the laws of
the library are stated and proved as public proof functions.

Library modules:

- `letters`, `telex`: characters, tones and vowel modifiers.
- `buffer`: the sixteen-character buffer that holds a word.
- `validation`: whether a run of characters is one Vietnamese syllable.
- `compose`, `engine`: the Telex/VNI/VIQR composing engine (keys in,
  preedit and commit actions out), with its spell check, Smart W,
  recomposing a committed word on Backspace, and the method cycle
  (Telex → VNI → VIQR).
- `abbreviation`: replacing a committed word by the text it abbreviates
  (`abbr.toml`, such as `vn` → `Việt Nam`).
- `prototype`: the first, five-rule Telex engine and its plain syllable check.
- `window_state`: per-window Vietnamese/English state.
- `config`, `settings`: the settings and the settings window's state.
- `hotkey`, `ibus`, `frontend`, `tray`: the decisions of the front ends
  (IBus engine, Wayland and X11 input methods, tray icon).
- `text`: ASCII case-insensitive comparison and substring search.

`app/` holds the programs around the library: settings file I/O, the IBus
D-Bus engine, the Wayland and X11 front ends, the tray icon and the settings
window (`vnikey [ibus | wayland | x11 | gui]`). The IBus engine reads
`~/.config/vnikey/abbr.toml` for abbreviations.
