# batchalign_core

The control plane of a batch speech and NLP job server, written in Verus:
the functions under `src/` are proved against their `requires`/`ensures`
contracts, and the properties that span several functions are stated and
proved as `lemma_*` proof functions next to them.

## Layout

- `src/` — the verified library.
  - `job`, `lifecycle` — the job model: per-file transitions, the local
    dispatch lease, cancellation, restart and recovery, API projections, and
    the fixed step sequences of one file's attempts.
  - `host_memory` — machine-wide memory admission over a shared ledger.
  - `commands`, `capabilities`, `plan`, `pipeline` — the released command
    catalog, the worker capability gate, dispatch plans and stage plans.
  - `submission`, `runner`, `hosted`, `attempts` — accepting a job, choosing
    its dispatch path, the state machine of one hosted run, and the attempt
    loop of one media file.
  - `batching`, `batch_infer`, `fa`, `compare`, `transcription`, `revai` —
    the decisions of each dispatch path.
  - `temporal`, `queue`, `routes`, `bug_reports`, `runtime` — the workflow
    loop, queue waiting, HTTP-level rules, report listing and shutdown.
  - `paths`, `text`, `ordered`, `error`, `progress` — shared helpers.
- `tests/` — tests of the library through its public API.
- `app/` — process glue that Verus does not see: the ledger file and its
  lock, staging of uploads, wire formats with serde, concurrent uploads, the
  bug-report files, and the loop that runs a hosted job on its host.

Calls into `std::path`, `std::time`, `sysinfo`, `uuid` and `format!` stand
behind small `#[verifier::external_body]` wrappers whose contracts say only
what those functions document.
