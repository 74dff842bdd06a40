# waypoints_bot

A Discord bot that keeps a shared list of Minecraft waypoints in PostgreSQL.
Members propose waypoints, which wait as pending until a moderator approves them.

- `src/` is the verified library: how waypoints and pages of them are rendered,
  the permission check, the moderation commands as state machines (with proofs
  that nothing is approved or rejected without permission), the queries'
  pieces and bound values, and the text helpers they rest on (decimal text,
  `u64` parsing, cutting text into messages).
- `app/` is the bot itself: Discord (poise/serenity), the database (sqlx),
  logging and configuration. It performs what the library decides.
- `tests/` runs the library on concrete values.
