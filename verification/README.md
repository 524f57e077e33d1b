# chat_services

The verified core of two services: a Discord bot that tracks manga chapters, and a chat
messages service. The library (`src/`) holds their rules and decisions, each with a Verus
contract; `app/` runs them against Discord, MongoDB, Postgres, HTTP and Kafka.

- `src/text.rs` — string algorithms (trimming, ASCII case, search and replace, decimal
  text and parsing, UTF-8 length), proved against spec functions.
- `src/clock.rs` — instants as plain values, and the calls that read the clock.
- `src/messages/` — message validation, the message service's steps around its store,
  events and their routing, configuration, Kafka topic handling.
- `src/discord/` — the bot's domain, its manga intake, the periodic update run (a state
  machine the app drives), page reading, command answers and notifications.
- `app/` — the services' async adapters and `main`.
