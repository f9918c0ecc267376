# pm-win-shutdown

A silent Windows helper that runs the user's `.bat` scripts at login and after
waking from sleep, keeps a dated log, installs itself as a per-user autostart
entry, and keeps a small window that asks to be consulted first when the
session ends.

- `src/` — the verified library (Verus): the directory layout, the log's
  timestamp and file names, UTF-16 text for Win32, the replies of the window
  to system messages, and the steps of running a script, of installing, and
  of a normal run, each with its contract and the properties proved of it.
- `tests/` — tests of the library on concrete values.
- `app/` — the Windows program around it: environment, files, registry,
  processes and the window, carrying out what the library decides.
