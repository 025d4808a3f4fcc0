# sporcli

A terminal Spotify client. The library under `src/` holds its logic, verified
with Verus; `app/` is the terminal program around it.

- `src/app_state.rs`: the interface state, how the worker's updates change it
  and how key presses move focus and selections, with the laws of navigation;
  the tracks of each playlist are kept by playlist id once loaded.
- `src/events/message.rs`: actions, state updates and the data they carry; the
  ordered map of playlist tracks.
- `src/json.rs`: a plain model of decoded JSON, its lookups, and the decoding
  of reply bodies with `serde_json`.
- `src/spotify/client.rs`: the Web API requests and the readers of their replies.
- `src/spotify/auth_handler.rs`: scopes, PKCE, the authorization address, the
  callback's code, tokens and the choice of authentication path.
- `src/worker/spotify_worker.rs`: which call each action asks for and how its
  outcome is reported.
- `src/worker/ui.rs`: the text and style of every panel, the pages shown
  before signing in, their titles and command bars.
- `app/`: terminal, HTTP, the callback server, the credentials file and the
  async loops.
