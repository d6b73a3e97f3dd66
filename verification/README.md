# swoncord

Discord rich presence for the Swinsian music player on macOS, as a menu-bar
app. The library in `src/` holds the logic, each function with a contract
proved by Verus:

- `track`, `swinsian`: notification names and playback states, track data.
- `playback`: the playback state machine (progress anchors, pauses, artwork
  generations and retry backoff), with its laws.
- `transport`: the Discord connection (reconnect backoff, write throttle)
  and the presence payload; every call on the transport is recorded in its
  log, so the contracts say which calls each publish makes; `worker` runs
  one round of the presence worker.
- `ipc`: Discord IPC framing and the meaning of each reply; `json` reads
  the string members of replies with `serde_json`.
- `albumart`, `artwork`: the MusicBrainz search plan, Cover Art Archive
  checks, and the decisions of the artwork helper process.
- `direct`: a single-threaded presence client's decisions.
- `latest`: the newest-value slot of the worker mailboxes.
- `logging`, `source`: log rotation bookkeeping and track-source details.

`app/` is the program around it: threads and mailboxes, sockets, HTTP,
AppKit menus and notification observers, and logging.
