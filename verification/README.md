# opentempus

Self-hostable calendar synchronization and selective sharing: calendars flow
in over iCal URLs and CalDAV, rules decide what flows out to friends, feeds,
agents and write-back calendars.

The logic is a library verified with Verus (`src/`); the server around it
(`app/`: HTTP routing, Postgres, the HTTP client, the scheduler loop) is
ordinary Rust that calls the library.

## Layout

```
src/
  sharing.rs        filters, visibility, projection, free slots
  ics/parse.rs      VCALENDAR → parsed events (zones, durations, RSVP, markers)
  ics/expand.rs     recurrence expansion into occurrences in a window
  ics/generate.rs   feeds and mirrored objects (folding, escaping)
  ics/tz.rs         Windows and prefixed zone names → IANA
  sync/             store plans, write-back plans, CalDAV replies, connectors,
                    scheduling decisions
  routes/           what each API request may do and is answered
  auth.rs           passwords, session tokens
  text.rs, urls.rs, timefmt.rs, ids.rs, digest.rs
                    text helpers and the calls into url, chrono, uuid, sha2, hex
app/                main, configuration, database rows, handlers, HTTP client
tests/              tests of the library
```

Every public function of `src/` states its result in its `ensures`; the
laws the library promises (least privilege by default, projections reveal
only visible fields, write-back converges, mirrored events are never
imported back, …) are public proof functions named `law_*`.

Calls into outside crates go through small trusted wrappers whose contracts
name what the crate computes; they are marked `#[verifier::external_body]`.
