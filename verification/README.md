# ya_player

A small desktop client for Yandex Music: sign in with an OAuth token, play
liked tracks, search, and listen to "My wave" and other stations.

The crate is written in Verus. `src/` is the verified library; `app/` is the
window, the audio output, the HTTP transport and the settings file around it.

## Library modules

- `text` — Unicode white space, trimming, decimal and form encoding, joining.
- `json` — a JSON document as plain values and reading members out of it.
- `auth` — the authorization address and reading a token out of pasted text
  or the browser's address.
- `api` — the service's records and errors, the `HttpClient` transport trait,
  and `YandexMusicClient`, whose requests and answers are specified.
- `responses` — what each answer of the service means.
- `download` — reading download-info documents and signing MP3 addresses.
- `player` — the play queue, with its navigation laws.
- `controller` — the decisions the window takes on commands, track ends,
  media controls and station loading.
- `session` — what the window holds and how answers change it.
- `presentation`, `config`, `hotkeys`, `media_controls` — labels, settings,
  and the mapping of media keys and system media events to commands.

Run `cargo test` for the tests in `tests/`; the proofs are checked by Verus.
