# atmb-us-non-cmra

Finds the US mailbox locations of Anytime Mailbox, checks each address with
Smarty (CMRA flag, residential delivery indicator) and with the USPS ZIP code
lookup, and writes the results as CSV files with a Markdown summary.

## Layout

- `src/` is the library, verified with Verus:
  - `text.rs`: the string operations the parsers use, with their specifications;
  - `config.rs`: states, scopes and the checking of settings;
  - `state_table.rs`: what the table of states guarantees (every name and code
    reads back as its entry's code);
  - `model.rs`: addresses and mailboxes;
  - `scrape.rs`: the calls into `scraper` and `regex`, each behind a trusted wrapper;
  - `page.rs`: reading the country page, the state pages and the detail pages;
  - `crawl.rs`: which pages a crawl visits and how they combine into mailboxes;
  - `json.rs`, `smarty.rs`, `usps.rs`: the two services' answers, their retries,
    the switching of Smarty credentials and the stop after repeated USPS errors
    (the diagnostic text of a failed USPS answer is written by `serde_json`, behind
    a trusted wrapper);
  - `record.rs`: the rows of the result files, their order and their CSV columns;
  - `report.rs`: the summary, the output directory and the publication decision;
  - `laws.rs`: properties that span several functions.
- `app/` is the program: settings from the environment, HTTP requests, files.
- `tests/` runs the library on concrete pages, answers and records.

## Settings

| Variable | Default | Meaning |
| --- | --- | --- |
| `ADDRESS_SCOPE` | `tax-free-nv` | `tax-free-nv`, `tax-free` or `all` |
| `MAX_ADDRESSES` | `0` | 0 for a full run; N checks only the first N addresses and writes under `result/smoke/` |
| `USPS_INTERVAL_MS` | `1000` | pause before each USPS lookup |
| `ATMB_INTERVAL_MS` | `1500` | pause before each Anytime Mailbox request, retries included |
| `USPS_ENABLED` | `true` | `true` or `false` |
| `USPS_INPUT_CSV` | unset | re-check USPS for the rows of an earlier `checks.csv` |
| `CREDENTIALS` | unset | `ID1=TOKEN1,ID2=TOKEN2`; else `SMARTY_AUTH_ID` and `SMARTY_AUTH_TOKEN` |
| `SOURCE_RUN_ID` | unset | noted in the summary when results are reused |
