# sonetto

Game-server logic for a Reverse: 1999 private server, written in Verus.
The functions of `src/` are verified against their contracts, except the
few marked `#[verifier::external_body]`: thin wrappers around std, chrono,
serde_json and bcrypt whose contracts are trusted, each with a doc comment
saying what it claims. Functions that read the clock (`time_ms_u64`,
`ServerTime::now_sec_i32` and the like) have little or no `ensures`, since
nothing holds of every clock reading; the functions that turn a reading
into milliseconds or seconds carry exact contracts.

## Layout

- `src/` — the verified library.
  - `time` — server time: the server day (reset at 05:00 UTC), week and
    month, and the clock.
  - `text`, `json`, `select` — text splitting and number parsing, JSON
    lookups with defaults, and row selection over data tables.
  - `game_config`, `hero_tables`, `exceldb`, `codegen` — the data tables,
    the per-hero columns read from them, a keyed table store, and the
    generator that writes table stores.
  - `hero`, `hero_rules`, `hero_group` — hero creation and the starter
    roster, touches, insight skins, talent styles and schemes, show slots,
    group equipment and snapshot sort ids.
  - `inventory`, `starter`, `summon`, `room` — stock changes, expiry of
    timed items, equipment grants and mail rewards; the starting state of a
    new account and its home room.
  - `sign_in`, `dungeon`, `gm`, `account`, `config` — login flags and
    shop resets, dungeon records, GM chat commands, accounts and password
    checks, and the server configuration.
- `tests/` — tests on concrete values, run against the compiled library.
- `app/` — the unverified edges: SQLite access, reading the configuration
  and the JSON assets, logging.

Laws that span several functions are public proof functions whose names
begin with `lemma_`.
