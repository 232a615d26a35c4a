# auto_spell_checker

A Windows tray program that sends the clipboard's text to Naver's speller when
Left Ctrl + Left Alt is pressed, and puts the corrected text back, with an
installer and a patcher that keep it up to date.

- `src/` is the verified library (Verus): reading version strings and
  comparing them, finding the passport key in the search page, reading the
  corrected text out of the speller's JSON reply, the hotkey and tray
  decisions, the updater's state machine, which processes to end, and the
  paths and download requests that the programs use.
- `app/` is the program around it: network requests, the clipboard, the
  keyboard hook, notifications, the tray icon, files and processes.
- `tests/` runs the library on concrete inputs, and compares the number
  reading with `str::parse`.
