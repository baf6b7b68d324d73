# pm_sim

Verified core of a simulation-only prediction-market toolkit: market
screening and scan statistics, start-up health checks, module timing, the
data-source layer's snapshot, validation and cache, the paging plan and
merge of the Gamma markets endpoint, provider capabilities, the risk engine's rules,
decisions and event bookkeeping, the paper portfolio's risk verdicts, and the
settlement engine's validation, identifiers, counters and course of events.

- `src/` — the library, written in Verus; every function there carries a
  contract that Verus proves. Prices and money amounts are floating point and
  stay outside; the library receives the outcome of their comparisons.
- `tests/` — tests of the library on concrete values.
- `app/` — ordinary Rust around the library: probes, printing, CSV and TOML
  files, floating-point arithmetic of the portfolio, the risk score and
  rules, and serialisable copies of library types.
