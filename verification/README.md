# game_server

The game rules of an MMO game server, as a library verified with Verus, and
the Bevy plugins that run them.

- `src/` — the verified library:
  - `items`, `inventory`, `shots`: item instances and templates, a
    character's inventory and paper doll, and what adding, dropping,
    destroying, equipping, unequipping and using items (shots among them) do;
  - `chat`, `cooldown`, `commands`, `text`: the say handler, per-channel chat
    flood protection, the buffered chat log, and chat commands;
  - `world`: doors, who knows about whom, what an entity is introduced with,
    and the database pause and migration switches;
  - `characters`: checks on character creation and deletion;
  - `repo`: repository names, keys and raw query arguments read from
    script values;
  - `gui`: the decisions of the developer window.
- `tests/` — tests of the library on concrete values.
- `app/` — the Bevy plugins: they read the ECS world, call the library,
  and carry out what it answers (packets, database, files, GUI).
