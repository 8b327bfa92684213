# dlsite_gamebox

A client library for the DLsite catalogue, written in Verus.

`src/` is the verified library:

- `interface/` — languages, sites, work types, age categories and the other
  values that appear in requests and answers, with the names they are
  written under;
- `path.rs`, `client/search/query.rs`, `client/circle/query.rs` — how search
  and circle queries become request paths;
- `client/search/` — reading products out of search result HTML, item by
  item, with the HTML itself read through `scraper`;
- `client/circle/`, `client/product/`, `client/product_api/` — circle pages
  and profiles, product API, AJAX and review request paths, review answers,
  release dates;
- `client/fetch.rs`, `retry.rs` — the rate limit (how long a request waits
  and the departure time the client records), the handling of HTTP
  statuses, the attempts of one request, and the retry policy with
  exponential backoff;
- `cache.rs` — a least-recently-used cache whose entries expire;
- `adapters/` — the DLsite Play v3 endpoints;
- `text.rs`, `html.rs` — string helpers and the `scraper` queries.

`app/` is the asynchronous HTTP client built on it with `reqwest`, `tokio`
and `rayon`, and the `serde` forms of the library's data.
