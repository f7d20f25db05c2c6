# campusflow

Automatic login to a campus network portal, with a background guard that
repairs the connection when the outside network goes down.

- `src/` is the library, verified with Verus: the portal protocol (request
  bodies, reply parsing, carrier choice), the repair flow as a state machine,
  the guard's and the start-up check's decisions, the configuration and its
  updates, the bounded log, the network probes' verdicts, and the stored
  password format. Each public function states what it returns in its
  `ensures`; the laws that span several functions are public proof functions
  named `lemma_*`.
- `tests/` runs the library on concrete values.
- `app/` is the desktop program around it (Tauri): HTTP, threads, timers,
  the tray, files, and the Windows calls. It performs the actions that the
  library's state machines ask for and hands back what came of them.
