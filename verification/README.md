# shush

The playback and session logic of shush, a small Spotify client built on
librespot, written in Verus with its contracts proved.

- `src/error.rs`: the client's error type and the text it shows.
- `src/compat/`: credentials, OAuth tokens and Spotify URIs as plain values;
  the one call into librespot that parses URIs.
- `src/backend/config.rs`: the stored configuration and the path of its file.
- `src/backend/session.rs`: player events, the session's record of playback,
  and how requests become player commands; login helpers.
- `src/components/prot_play.rs`: the player screen as a state machine.
- `src/components/auth_wizard.rs`, `src/iced_gui/components/auth_wizard.rs`:
  the login screens.
- `src/iced_gui/mod.rs`: the application, routing messages between screens,
  session and runtime.
- `src/util.rs`: reading the list of OAuth scopes.
- `src/clock.rs`: the monotonic clock.
- `app/`: the window (iced), file I/O, the live librespot session and player,
  and the web API client; it performs what the library asks for.
