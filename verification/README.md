# binkybox

A keyboard and mouse driven window manager for Windows: Win+number switches
virtual desktops (taking the active window along with Shift), Win+arrows snap
the active window into halves and quadrants, Win+drag moves windows, Win+Enter
opens a terminal, and a tray icon shows the current desktop.

`src/` is the verified library, checked with Verus: the snap layouts and
their transitions, the shortcut table, the keyboard hook as a state machine
(Win key interception, chords, Start menu replay), the Win+drag gesture and
the mouse hook, the virtual desktop bookkeeping, and the window filters.

`app/` is the Windows program around it: the low-level hooks, the action and
move workers, the calls into Win32, the virtual desktop API and the tray.
