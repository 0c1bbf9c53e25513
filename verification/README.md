# web3_proxy

The request-handling decisions and user-statistics queries of a web3 RPC
proxy, written in Verus with their behaviour stated in contracts and proved.

Layout:

- `src/` — the verified library.
  - `text`, `decimal`, `hex` — string comparison and search, decimal integer
    parsing (the rules of `u64`/`i64` `from_str`), and `0x` hex rendering.
  - `query_params`, `clock` — the request's query parameters (a
    `hashbrown::HashMap`), the system clock, and the range of timestamps
    that chrono's date-times hold.
  - `user_queries`, `stats_query` — reading the stats endpoints' parameters
    and planning their database queries and responses.
  - `request` — choosing a provider, settling how a failed request is
    handled, classifying and logging errors, marking rate limits, and the
    records of saved reverts.
  - `jsonrpc_error_count` — which results the JSON-RPC error metric counts,
    and its count over a run of results.
  - `entities` — rows of the database tables and their enumerations.
- `tests/` — tests of the library against concrete values and against std,
  chrono and ethers.
- `app/` — the I/O around the library: sending requests through ethers
  providers, the metered metric, randomness, logging, and the async stats
  endpoints with their cache and database lookups handed in.
