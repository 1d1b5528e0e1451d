# muse

A terminal music player for Apple Music and Spotify. The player's logic is a
library verified with Verus; the terminal, network, file and player plumbing
is a thin program around it.

- `src/` — the verified library:
  - `state`, `backend`: the application state and what players report;
  - `nav`, `handlers`, `events`: key handling, list navigation and filtering,
    and how playback reports and background results change the state (side
    effects are returned as actions);
  - `listing`, `display`: what each panel shows;
  - `playlist`: the saved queue position and the `next` / `prev` commands;
  - `config`, `theme`: reading the TOML configuration and theme files
    (parsed by the `toml` crate), settings, legacy-file migration, colors
    and themes;
  - `lastfm`: when a track is scrobbled;
  - `spotify`, `crypto`: Web API requests and replies, OAuth with PKCE,
    SHA-256, base64url and percent-encoding;
  - `apple`: the Music bridge's status codes;
  - `text`, `clock`: string helpers and the wall clock.
- `app/` — the program: terminal drawing, HTTP, files, threads and the
  Music bridge.
- `tests/` — tests of the library on concrete values.
