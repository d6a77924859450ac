# SafeGuard

A Telegram bot that protects groups (ranks, content locks, bans, flood
control) and lets people chat with AI models in private and in groups.

- `src/` is the verified library: the bot's decisions and texts, with
  their contracts and laws, checked by Verus.
  - `text` — character-level string helpers (trim, split, parse, format).
  - `antispam` — per-user flood control.
  - `store` — the rules applied to what the database holds.
  - `protection` — lock types, lock and rank commands, content types.
  - `bot` — models, routing of private and group messages, buttons.
  - `replies`, `reports` — the texts the bot sends.
  - `client` — emoji entities, rich-message direction and fallback,
    keyboard layout.
  - `ai` — stream framing, reply accumulation, forgetting history, the
    provider request shapes and the reformatting check.
- `app/` is the program around it: configuration, SQLite storage, the
  Telegram and model HTTP calls, and the handlers that wire them to the
  library.
- `tests/` runs the library on concrete values.
