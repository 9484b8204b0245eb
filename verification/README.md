# xiee

Verified core of the Xiee OS desktop components, written in Verus.

- `src/` — the library, verified by Verus:
  - `text` — Unicode whitespace, trimming, character search and comparison over `str`;
  - `icons` — the icon for a downloaded file, chosen by its lowercased extension;
  - `shortcut` — desktop shortcut files (`name|command|icon`), their file names and the desktop's icon list;
  - `download` — the plan of an accepted download: destination, `curl` arguments, desktop shortcut, notification and messages;
  - `components` — window title bar actions, button and taskbar colours;
  - `notify` — notification levels, command-line defaults and the four-second lifetime;
  - `splash` — the splash screen's one-time login start;
  - `desktop` — selection, launcher, taskbar applications, icon reloading and the icon grid.
- `tests/` — tests of the library on concrete values.
- `app/` — the programs around it (desktop, notification popup, splash screen, download helper): windowing, drawing, files and processes.
