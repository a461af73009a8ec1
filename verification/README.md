# wayscriber

The decision logic of a screen-annotation overlay for Wayland compositors, written in
Verus with its behaviour stated as contracts and proved.

Layout:

- `src/` — the verified library. Each module holds one part of the overlay's logic:
  command-line parsing and conflicts (`cli`), launch planning (`launch`), desktop and
  output preferences (`desktop`), presentation modes (`presentation`), overlay
  suppression and keyboard focus bookkeeping (`overlay`), surface and configure
  handling (`surface`, `configure`), pointer, keyboard and tablet routing (`pointer`,
  `keys`, `tablet`), cursor selection (`cursor`), capture flow (`capture`), the event
  loop's timeouts (`event_loop`), zoom panning (`zoom`), toolbar fallback (`toolbar_sync`), the command
  palette, help overlay, radial menu and colour picker (`command_palette`,
  `help_overlay`, `radial`, `color_picker`, `color`), selection editing and geometry
  (`selection`, `geometry`, `interaction`, `undo`), text helpers (`text`) and the
  configurator's editable settings and their exchange with the configuration
  (`config_draft`, `config_ui`).
- `tests/` — tests run against the compiled library.
- `app/` — the program around the library: argument parsing with clap, the overlay
  lock file, detaching from the terminal, and launch dispatch. The Wayland backend that
  would carry out the library's plans (suppression changes, captures, toolbar syncs) is not
  part of this build: the backend, daemon, session and about commands report that they are
  unavailable.
