# veloren

Verified decision logic of a game server, written in Verus.

- `src/glide.rs`: what the glider state does in a tick (go on, land, go idle, leave), the
  speed cap, the boost push, when steering is taken up, and which booster carries over.
- `src/ui_api.rs`: the web UI API's session-cookie check, the register of client addresses
  that have used it, and the answers of its `/players` and `/logs` endpoints.
- `src/version.rs`: the date-time and time fields of the git version, its timestamp (read by
  chrono), and the displayed version strings.

`app/` holds what cannot be verified: the HTTP routes (axum, tokio), the floating-point
parts of the glider state that stand on their own (its construction, the boost and booster
pushes on a velocity, the steering and pitch helpers, on vek types) and the version statics
read from the environment. The glider's orientation update is not part of this crate.
`tests/` runs the library on concrete values.
