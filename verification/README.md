# torbox_companion

Verified rule evaluation for download automation: a rule's conditions are
checked against torrents, web downloads and usenet downloads, the matching
transfers are selected, and the outcome of applying the rule's action to
each is summed up in an `ExecutionResult`. The account page's figures (plan
thresholds, billing-cycle usage, byte counts and dates) are computed here too.

Layout of `src/`:

- `model` – rules, conditions, transfers, results.
- `conditions` – what each condition measures on each kind of transfer.
- `quantity` – exact comparison of a measured quantity with a condition's value.
- `engine` – whether a rule's conditions all hold; selecting the matches.
- `actions` – service operations for an action, retry decisions for attempts and fetches.
- `run` – the record of a run and the result it sums up to.
- `account`, `bytes` – account page figures; byte counts for display.
- `text`, `clock` – text helpers; the clock and RFC 3339 times (chrono).

Fractional numbers (ratios, progress, availability, condition values) are
held as whole millionths, and every comparison is made exactly, as between the
real numbers they stand for.

`app/` holds the asynchronous side: the calls to the service, the waits and
timeouts, and the serde forms of the records.
