# CodeGraph

The core of the CodeGraph command line tool, verified with Verus, and the program around it.

- `src/` is the library. Its functions are verified against their contracts, but for those that only
  call another crate, whose contracts are trusted: `format_utc` in `clock`; `mmap_as_slice`,
  `mmap_mut_as_slice` and `mmap_mut_as_mut_slice` in `mapping`; `new_table`, `insert_entry`,
  `entry_names`, `lookup` and `mark_all_stopped` in `registry`; `sort_by_falling_rank` in `vector`.
  `PathBuf::clone`, too, has a trusted contract, in `registry`.
  - Mapped memory: `mapping`, `zero_copy`, `mapped_file`, `circular`.
  - Vectors: `vector` plans operations and ranks their results.
  - Servers: `launch`, `process`, `registry`, `shutdown`, `serve`, `status`, `clock`.
  - Commands: `memory`, `indexing`, `estimate`, `watch`, `config`, `agent`.
  - Shared: `error`, `json`, `report`, `text`.
- `tests/` runs the library on concrete values.
- `app/` is the program: arguments, files, processes, the network, the terminal, and arithmetic on
  floating-point numbers. The indexer, the configuration, the server and the daemon come from the
  other crates of CodeGraph, which `app/workspace.rs` names.

Numbers with a fraction reach the library as their IEEE 754 bit patterns. Lines for the terminal leave
it as `report::Report`, whose pieces of text carry their style, and documents as `json::Json`.
