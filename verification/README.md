# moli_protocol

Protocol logic of the Moli browser, written in Verus: executable Rust whose
behaviour is stated in contracts and proved.

- `src/routing`: several DevTools frontends over one protocol connection. Every
  command gets a number of its own; its answer goes back to its sender, under
  the sender's number. Sessions and what debugs them form a tree that is taken
  down from the root.
- `src/facts`: one frontend's cursor over the facts that Browser Core publishes.
  A fact is claimed at most once, in order, and a cursor that was lost stays
  lost.
- `src/connection`: the physical slots of contexts, Targets and Pages, held
  against Browser Core's registries. A refused change leaves the slots as they
  were; an accepted one keeps both sides in agreement.
- `src/scheduler`: what runs next and in what order output leaves, around
  navigations in flight. Whatever waits asynchronously is a state machine here:
  it says what comes next and is told what came of it.
- `src/host`: the owner loop that serves requests of frontends.
- `src/server`: routes, addresses and headers.
- `app`: channels, timers and the HTTP server around the library.

Statements about several functions at once are public proof functions whose
names begin with `law_`, mostly in the files `laws.rs`, `agreement.rs` and
`endings.rs`.

What is believed without proof stands in `src/json.rs`, `src/text.rs` and
`src/addresses.rs`: what `serde_json`, `url` and the standard library's `Debug`
of a text do, one call each.
