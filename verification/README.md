# synixe_bot

The logic of the Synixe Contractors Discord bot, verified with Verus: what
the bot decides and says when members schedule and answer missions, file
after-action reports, use the bank, the garage, gear modifications and
certifications, and talk to the assistant.

- `src/` is the library. Every function carries a `requires`/`ensures`
  contract over spec functions, and the library's laws stand there as
  public proof functions (named `law_...`). The steps that alternate with
  Discord or database calls (paying out a report, checking permission,
  spawning a vehicle, removing a scheduled mission) are step functions
  from a stage and an event to the next stage and an action.
- `tests/` runs the library on concrete values.
- `app/` is the bot around the library: the Discord client, the NATS
  event handlers and the calendar feed. It performs the calls the library
  asks for and hands back what came of them.

Verify with `verus` on `src/lib.rs` (crate type `lib`), with the outside
crates in `Cargo.toml` built.
