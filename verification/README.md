# aiway_plugins

Plugins for the aiway gateway, with their logic verified by Verus.

- `src/` is the verified library. Each plugin has a module of its own
  (`rate_limiter`, `jwt_validator`, `header_operator`, `rewrite_path`, the
  model adapters `aha*`, `bailian*`, `zhipu*`, and the small `demo`, `echo`,
  `http_demo`, `volcengine`). Shared pieces: `json` (a JSON document and its
  mathematical model), `json_text` (the texts `serde_json`
  writes for one), `text` (string helpers with contracts), `headers`
  (`http::HeaderMap` behind trusted wrappers), `codec` (base64), `clock`,
  `model` (provider and body changes) and `error`.
  Each module states its contracts over spec functions; the properties that
  span calls stand as `law_*` proof functions.
- `app/` holds the gateway side: one `aiway_plugin::Plugin` implementation
  per plugin, the serde forms of the configurations, JSON conversion, and
  the HTTP calls the Zhipu plugins make.
- `tests/` exercises the library on concrete values.
