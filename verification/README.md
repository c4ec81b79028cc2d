# codex_image_cli

A client for OpenAI-compatible image generation (`POST /images/generations`)
and image edit (`POST /images/edits`) endpoints, driven by the provider that
Codex is configured with.

- `src/` is the verified library (Verus). It decides which provider, base URL
  and credential source a configuration selects (`connection`), which
  requests are accepted (`request`), how image data is recognised (`format`),
  how response items are decoded, bounded and named (`response`), how a batch
  is staged and committed all or nothing (`batch`), and how much time is left
  of the overall deadline (`clock`). `laws` states properties that span these
  functions.
- `app/` is the `codex-image` command: argument parsing, reading
  `config.toml`, `auth.json` and the environment, HTTP requests and
  downloads, and the file system work, each decision taken by a call into the
  library.
- `tests/` exercises the library on concrete values.
