# wuma_tracker

Verified core of a tracker that reads the player's position out of a running
game client's memory.

- `src/` — the library, verified with Verus:
  - `mac_proc.rs`: the attached process, pointer normalisation, process-name
    matching, and the walks that locate the player;
  - `fetch.rs`: a pointer-chain walk, one memory read at a time;
  - `discovery.rs`: the search for a moved world pointer;
  - `locator.rs`: the choice among the offsets of several client builds;
  - `image_base.rs`: finding the main executable's load address;
  - `native_collector.rs`: the decisions of the collection loop;
  - `platform_proc.rs`: the process access of unsupported platforms;
  - `errors.rs`, `offsets.rs`, `names.rs`, `text.rs`: errors and their texts,
    offsets, name normalisation, hex and decimal rendering and substring search.
- `app/` — the system calls, memory reads, float arithmetic and the tokio loop
  that drive the library.
- `tests/` — tests of the library on concrete values.
