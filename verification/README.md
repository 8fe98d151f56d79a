# reaper

The decision logic of Reaper, a Discord bot for moderation, levelling and
giveaways, written in Verus: each function states in its contract what it
decides, and Verus proves it.

Layout:

- `src/` — the library, verified.
  - `config/` — the `/config` wizard: each stage's answer, the settings it
    writes and how many stages it skips; the blacklist and reward editors.
  - `moderation/` — checks and texts of the moderation commands, strike
    durations and escalations, purging, history search.
  - `permissions.rs`, `permission_panel.rs` — the bot's permissions, who
    holds them, and the panel that edits them.
  - `levelling.rs`, `rank_card.rs`, `levels.rs` — levels from XP, rewards,
    level-up messages and the `/xp` command.
  - `giveaway.rs`, `global.rs` — giveaways and global kills.
  - `commands.rs`, `legacy/` — what every command registers, and how the
    earlier command set routed its commands.
  - `duration.rs`, `options.rs`, `logging.rs`, `text.rs`, `numbers.rs` —
    shared building blocks.
- `tests/` — tests on concrete values.
- `app/` — the bot process around the library: Discord and the database.
