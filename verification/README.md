# randimg_core

The core of a service that crawls Pixiv illustrations, extracts their colour
palettes and serves them over HTTP, written in Verus: the rules of the
service are executable Rust with `requires`/`ensures` contracts, proved by
Verus.

## Layout

- `src/` — the verified library.
  - `text` — characters, prefixes, substrings, splitting, decimal numbers,
    UTF-8 lengths, whitespace trimming.
  - `task_enum`, `task_queue`, `task_api`, `task_tree`, `root_query` — task
    statuses and types, crawl types, the request rules of the task
    endpoints, task trees and their status rollup, the root-listing query.
  - `jobs`, `retry`, `fingerprint`, `watchdog`, `seeds`, `credential` —
    job payloads and their wiring, retries after authentication failures,
    deduplication of tasks, worker health, seed choice, credentials.
  - `illust`, `crawl` — which pages of an illustration are kept and where
    they are stored, query parameters, and the paging of a crawl.
  - `image_api`, `color`, `config`, `auth`, `error`, `pixiv_error` — image
    endpoint rules, the integer steps of colour extraction, settings,
    authentication, error answers.
- `tests/` — tests of the library on concrete values.
- `app/` — the code around the library: environment, tokens, HTTP
  plumbing, JSON payloads, floating-point colour work, and the loops that
  drive retries, crawls and the watchdog.

Laws that relate several operations are stated as public proof functions
named `law_*` next to the operations they speak of.
