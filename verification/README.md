# edge-kvm

A software KVM for two computers: the pointer crosses an edge of one screen
and controls the other computer, with its clipboard and its audio, over one
encrypted session.

`src/` is the library. Everything that decides is there and is proved with
Verus: what frames and packets hold, when a peer is trusted, what a session does
when a frame, a timer, a key or a menu item arrives, what is captured and played,
what the clipboards exchange, and how audio is routed and buffered. Each
executable function states in its contract what it returns, over spec functions
of the same module; properties that span several functions are public proof
functions whose names begin with `law_`.

| Modules | What they hold |
| --- | --- |
| `protocol`, `framing`, `bytes`, `text`, `clock`, `hash` | frames, their lengths on the wire, and the ground they stand on |
| `identity`, `pins`, `noise`, `pairing` | keys, trust, the encrypted session, and how two computers agree to talk |
| `session`, `listener`, `connector`, `session_laws` | what either side of a session does at each event |
| `windows_session`, `supervisor` | the Windows side, and the loops around sessions |
| `clipboard`, `jpeg`, `jpeg_scan`, `image_transfer`, `clipboard_sync`, `live_clipboard` | what was copied, and how it goes over |
| `audio`, `jitter`, `pcm`, `linux_audio` | audio packets, their order, samples, and routing |
| `held`, `keymap`, `injection`, `wayland_input`, `libei` | keys and buttons that are played |
| `capture`, `capture_guard`, `portal_capture`, `live_input` | keys and movements that are captured |
| `desktop`, `cursor_handoff`, `pointer_monitor`, `tray` | screens, edges, pointers, and what the tray shows |
| `config`, `listen`, `stats`, `self_test` | settings, counters, and trials |

A session is a value with a function for each event; the function returns the
new value and a list of effects. Time is an argument. Floating-point numbers go
through the library as their bits.

`app/` is the program: sockets, files, processes, the desktop portals and the
tray. It hands the library what happened and does what it says. What is computed
in floating point stays there too.

`tests/` runs the library on concrete values.
