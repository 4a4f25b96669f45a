# spotify_backend

The decision logic of a Spotify Connect backend for the Noctalia Spotify
plugin, written in Verus with its contracts proved.

`src/` is the verified library:

- `oauth` – OAuth with PKCE: client ID from the environment or `config.toml`,
  random state and verifier, the authorization address, token request forms,
  the session holding token, verifier and expected state, the callback steps.
- `api` – the Web API calls (method, endpoint, query) and the plan for each
  HTTP reply (refresh and retry on 401, fail, `null`, or parse).
- `playback` – the `/me/player` reply turned into the plugin's player state;
  repeat state and loop status.
- `player` – what each player command does given the last polled state.
- `protocol` – routing of socket requests (JSON lines, v1) and their replies.
- `engine` – the Connect device id and librespot playback events.
- `cache` – token rows and cache time stamps as RFC 3339 text.
- `types`, `time`, `json`, `text`, `encoding` – data, UTC instants, JSON
  values, character handling and the digests/encodings taken from outside crates.

`app/` holds the program around it: the tokio runtime, the Unix socket, the
axum OAuth server, reqwest calls, the SQLite cache and the librespot engine.
`tests/` exercises the library with the real outside crates.
