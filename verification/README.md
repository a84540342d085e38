# IdeaDog

IdeaDog is a social platform for sharing one's ideas with the world. This
crate is its service logic, written in Verus and proved against its
contracts:

- `src/models*` — ideas, users, tags and login challenges;
- `src/handler*` — the AQL queries sent to ArangoDB for each request, and what
  is made of the answers (vote planning, vote tallies);
- `src/params.rs` — the parameters that requests carry (pages, listing
  order, tag lists, vote and deletion requests, new ideas);
- `src/auth.rs` — challenge and bearer tokens, their expiry, and the check
  before protected routes;
- `src/connect.rs` — the listening address and the rule for retrying the
  database connection;
- `src/text.rs` — splitting, joining, comparing and decimal notation.

`app/` is the HTTP server (actix-web) and the database driver (arangors)
around the library.
