# space_game_client

The decision logic of the space game's client, verified with Verus, and the Bevy app around it.

- `src/` is the library. Every function in it carries a contract that Verus proves:
  - `backdrop`: the per-cell tile, mirroring and turn of the streamed backdrop (a murmur-style
    hash of the cell), and the book-keeping of live chunks (retire what left the view, follow
    what stayed, spawn what entered).
  - `focus`: prediction availability across window focus loss, checkpoint selection and the
    rollback that has to complete before prediction resumes.
  - `network::connection` and `network::recovery`: the guest connection's retry state machine
    and the suspension of sessions whose frames stalled.
  - `guest`: which guest endpoints are acceptable (over `url`'s parser) and which HTTP answers.
  - `hud`, `menu`, `frame`, `flame`, `input`, `remote_health`, `palette`, `components`: the text,
    visibility and book-keeping rules of the overlays and sprites.
  - `text`: character-level helpers (decimal rendering, comparison, first-occurrence search).
  Public `law_*` proof functions state properties that span several operations.
- `tests/` runs the library on concrete values.
- `app/` is the Bevy client: ECS systems, rendering, input devices, HTTP and the networking
  stack. It measures and draws in floating point and hands plain values to the library.
