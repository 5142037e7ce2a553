# Ory Shield UI

The browser-facing application for Ory Kratos self-service flows and the
login and consent application of Ory Hydra.

- `src/` is the library, verified with Verus: the requests sent to Kratos and
  Hydra, what their answers mean, the flow handlers as step functions
  (state and outcome in, next step out), URL and header rewriting, what the
  pages show, and the laws that hold across these functions (`src/laws.rs`).
- `app/` is the service around it: configuration, the HTTP client, the axum
  routes that run the flow handlers' steps, the wire forms of Kratos and
  Hydra values (serde), and the HTML (leptos).
- `tests/` runs the library on concrete values.

Configuration: built-in defaults, then `config.yml` / `config-$APP_ENV.yml`
(or the file given with `--config`), then `ORY_UI__*` environment variables
(`listen_addr`, `public_base_url`, `kratos_public_url`, `hydra_admin_url`).
