# switch-theme

A terminal color-theme switcher: bundled themes, custom themes and overrides
saved in `~/.config/switch-theme/config.toml`, the OSC escape sequences that
recolor a terminal, and an interactive picker.

## Layout

- `src/` is the verified library (`switch_theme`), proved with Verus:
  - `theme` — the bundled themes and lookup by slug or name;
  - `config` — the saved configuration, the resolved theme list, saving and
    deleting custom themes and overrides;
  - `apply` — the escape sequences that recolor or reset a terminal;
  - `colors`, `contrast` — color text: `#RRGGBB`, named colors, ANSI
    256-color indexes, channels;
  - `shell` — the shell hook block and how it is put into a profile;
  - `cli` — what each subcommand computes;
  - `tui` — the picker's state and its key handling, as functions from a
    state and a key to a new state and an action (`wizard` holds the
    step-by-step variant);
  - `text` — character-level helpers (trimming, case, slugs, search).
- `app/` is the program around it. Started without a subcommand it runs the
  form-based picker (`tui::AppState`: launcher, library with filters and
  search, and a creator form); the step-by-step creator (`tui::wizard`) is
  verified and tested in the library but not wired into the program. Also in
  `app/`: argument parsing (clap), the TOML file
  (serde, toml, dirs), terminal I/O and drawing (crossterm, ratatui), and the
  floating-point color blends and contrast ratios.
- `tests/` exercises the library on concrete values.
