# bible_api

The request logic of a read-only Bible API, verified with Verus.

- `src/canon.rs`: the 66 books (names, abbreviations, chapter and verse
  counts), lookups by name or abbreviation, testaments.
- `src/query.rs`: a query as SQL text pieces and bound values.
- `src/verses.rs`: verse listings, random verses, book lists, chapter counts.
- `src/search.rs`: the text search query.
- `src/nav.rs`: navigation to the previous and next page, as a state machine
  that asks the database one question at a time, with its laws.
- `src/text.rs`: string helpers and the contracts of the std string calls.
- `app/`: the actix-web server: it runs the queries against PostgreSQL with
  sqlx and writes JSON.
