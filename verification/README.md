# screen_locker

Confines the cursor to one selected monitor, on Windows. The decisions are a library whose
contracts Verus proves; the program around it makes the Win32 calls and draws the window.

- `src/` is the library:
  - `text`: trimming, splitting, ASCII case, decimal numbers
  - `utf16`: text that the system hands over
  - `keys`: virtual-key codes and their names
  - `hotkey`: binds, how they are written and read, and when they are held
  - `capture`: recording a bind from input events
  - `geometry`: rectangles, and the steps that put the cursor in one
  - `monitor`: monitors, the rectangle around them, their drawing
  - `settings`: the settings and the text of the settings file
  - `registration`: the thread that listens for the reserved hotkey
  - `locker`: the state, and what each event does to it
  - `laws`: what holds of the whole
- `app/` is the program.
- `tests/` run the library.

An operation of `locker` changes the state and returns the commands that follow and, where an
answer is needed (could the cursor be put on the monitor, what came of listening), what to
report back. The program carries the commands out in order and reports.

Settings are saved to `%LOCALAPPDATA%\screen_locker\settings.ini`. `Ctrl+Alt+Esc`
unlocks where Windows gives it out; otherwise a bind has to be set before the cursor can be
locked.
