# navidrome-htpc

A remote-controlled desktop music client for Navidrome / Subsonic servers,
driven entirely by arrow keys, Enter, Escape and Space, with mpv as the
audio engine.

The decisions of the client live in a library verified with Verus (`src/`):

- `state`, `focus` — the view stack and the three-zone keyboard focus;
- `app` — the frame logic: fetching on view entry, the debounced search,
  how fetched data and engine state land in the application state, the
  context-menu actions on the play queue, and queue advancement;
- `ui` — what each screen's buttons, rows and cards do, the context menu,
  toasts, the transport bar and the first-launch wizard;
- `subsonic` — the domain model, the API request each command becomes, how
  server records map to the model, URLs and cover-cache file names;
- `mpv` — the engine state machine and the JSON-IPC commands;
- `config`, `sort`, `shuffle`, `text` — defaults and paths, stable sorting,
  shuffling and the small text routines the rest relies on.

`app/` is the program around it: the egui screens, the Subsonic client
thread (tokio + `opensubsonic`), the mpv process and its socket, the
configuration file and the cover-art cache.
