# Starship

A Discord bot that runs raids of *Realm of the Mad God* guilds: it posts headcounts,
waits for the items that a dungeon needs, turns a headcount into a run that its leader
controls, verifies players by a code on their RealmEye page, and keeps its emojis and
dungeons in step with the RealmEye wiki.

## Layout

- `src/` is the library, written in Verus. It holds what the bot decides and computes, and
  each function states in its contract what it gives back.
  - `commands/` and `handlers/` say what slash commands, buttons, menus and forms lead to.
    Where something has to be looked up first, a function takes what is known so far and
    says what to do next: the caller does it, adds what came of it, and asks again.
  - `cli/sync_wiki/` reads the wiki's pages and runs the sync as a machine of states,
    actions and events: `session.rs` from the opening of the database to the dump, `run.rs`
    the scraping in between. `cli/curating.rs` asks in the same way what is kept of it, and
    `cli/curate.rs` and `curation.rs` hold what was picked.
  - `embeds/` and `ui.rs` are the messages, as plain values.
  - `db/` holds the rows and the rules on them, `gates.rs` who may start a raid and when one
    was left behind.
  - `text.rs`, `unicode.rs`, `clock.rs`, `mention.rs` and `name_map.rs` are the ground that
    the rest stands on.
- `app/` is the program around it: Discord, Postgres, the network, files and the shell.
- `tests/` run the library on given values.

What is taken on trust is marked `external_body` or `assume_specification`: a few
functions of the standard library, and the calls into `scraper`, `image`, `base64` and
`serde_json`. Each says above it what it takes for granted.
