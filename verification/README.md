# forme

Contracts of a governed agent kernel, written in Verus and proved: the
protocol objects an agent run exchanges, the rules that decide whether an
object or an action is admissible, the memory read models rebuilt from stored
events, and the policy engine that decides what an action may do.

## Layout

- `src/` — the verified library.
  - `primitives`, `event`, `control`, `lifecycle`, `tags`, `m2_c` … `m5`,
    `v1_closure`: protocol objects, their validation rules and their canonical
    byte encodings (`canon`, `digest`).
  - `provider`, `registry`: external providers, the autonomy envelopes they
    may be granted, and the registry that moves them from discovery to trust.
  - `models`, `json`: model profiles, requests and responses, the
    chat-completions request body and reply reading, and the transport
    configuration.
  - `memory`: memory-graph facts, scopes, intentions and their stored forms,
    candidate and intention lifecycles, claim and transition decisions.
  - `memory_state`: the memory state that events fold into, its replay, the
    leased claim plan for due intentions, candidate transitions, scoped
    search and recall, and capability-update review.
  - `growth`, `adaptation`: capability growth ceilings from recorded results,
    and model scaffolds chosen from measured strength with the registry of
    adaptation versions.
  - `projection`, `hot_cold`, `lineage`, `strategy_memory`: read models
    rebuilt from stored events — store order, hot/cold tiers with recall, the
    lineage of a long-term goal, and strategy memory with its maintenance
    recommendations.
  - `policy`, `action`: policy layers and their evaluation, execution-time
    rechecks, and the action intents they judge.
- `tests/` — tests run against the compiled library.
- `app/` — process-side plumbing: the HTTP transport of the chat-completions
  provider, conversion of parsed JSON documents, and a registry shared
  between threads.

Verus checks every function in `src/`, and the public ones state their
results in contracts; the proof functions named `lemma_*` state properties
that hold across functions, such
as round trips of stored forms, the independence of rebuilt read models from
the order in which events arrive, and the invariants the provider registry
keeps.
