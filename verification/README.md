# election_bot

The decision logic of a Discord bot that runs elections in servers, verified
with Verus, and the program around it.

- `src/` is the verified library:
  - `text.rs`: words (as `split_whitespace` yields them), prefixes, decimal
    numbers, with their laws;
  - `config.rs`, `models.rs`: the settings and the database records;
  - `discord/routers/`: the text-command, slash-command and interaction
    routers, and the law that an interaction goes to the first accepting
    handler;
  - `discord/helper.rs`: member names, mentions, the search for the first
    mentioned member, the nomination message;
  - `discord/interactions/`: the nomination buttons (their custom ids and the
    law that a button is read back as what it was made for) and the slash
    command handler;
  - `discord/commands/`: `ping`, `nominate` and `setup`.
- `app/` is the program: the Discord gateway and HTTP client, the database,
  the settings file, and the loops that carry out the library's decisions.
- `tests/` runs the library on concrete values.
