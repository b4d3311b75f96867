# brug

Brug switches a process's memory allocations between several allocator
backends (the system allocator, jemalloc, mimalloc and anonymous `mmap`)
under one of six modes: one of the four backends, a size-based template,
or an adaptive mode that learns from measured reallocation times. An
optional monitor records, per object, how often it was reallocated and
moved, and how much time that took.

Layout:

- `src/` — the verified library: the modes and the template (`mode.rs`,
  `template.rs`), the state with its bookkeeping (`brug.rs`), the decisions
  taken for each allocation, release and reallocation (`allocator.rs`), and
  the laws proved of them (`laws.rs`). Durations are nanosecond counts.
- `app/` — the `#[global_allocator]` glue: it holds the process-wide state,
  asks the library which backend serves each request, calls that backend,
  and reports back.
- `tests/` — the workloads and the behaviour of the policies on concrete
  values.
