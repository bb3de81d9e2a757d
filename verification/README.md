# micloop

Loops the microphone back to the speakers on Linux, from a hotkey. The library in `src/`
holds the logic and proves it with Verus; `app/` is the program around it.

- `config`: the settings, how they are stored, how a hotkey is shown
- `listener`: key events, modifiers, recording a hotkey
- `loopback`: switching the loopback on and off, with `process` for what is asked of the
  system and what it answers
- `engine`: what the hotkey does to the loopback, and what the tray shows of it
- `instance`: one instance at a time
- `settings`, `history`, `tray`: what the windows and the tray decide
- `desktop`, `headless`: the launcher's entry, and running in the foreground
- `text`, `path`: decimal numbers, white space, paths as bytes

Where something has to be done outside, a type of the library says what comes next (an
action), and takes what came of it (a reply). `app/` carries the actions out.

Proof functions named `law_...` state what holds across functions: that no process is ever
lost track of, that a recorded hotkey is one that fires, that a release of the hotkey is
always noticed, that the hotkey is never watched for twice nor while the settings are open,
that the tray shows the state the loopback really is in, and so on.

What is believed without proof is in `listener` (the names of keys and the key sets of
devices, from `evdev`) and in `text` (reading bytes as UTF-8).
