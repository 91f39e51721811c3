# hermes_clicker

The logic of a rapid auto-clicker for Windows, verified with Verus.

- `src/` is the library:
  - `text.rs`: trimming, ASCII case folding, splitting, and decimal numbers
    as `str::parse` and `Display` treat them;
  - `worker.rs`: click rates and the decisions of the clicking thread
    (which step comes next, burst cycle counting, how to wait);
  - `jitter.rs`: the cursor-jitter state machine;
  - `hotkey.rs`: bindable keys, the `Ctrl+Alt+F8` hotkey syntax, hotkey
    event parity and registration messages;
  - `config.rs`: the `key=value` settings file, with the proof that written
    settings are read back unchanged;
  - `session.rs`: hotkey capture and window-position bookkeeping;
  - `winutil.rs`: the mouse events of a click burst.
- `app/` is the program around it: the egui window, the clicking thread,
  the hotkey manager, and the Windows API calls.
- `tests/` runs the library on concrete inputs.
