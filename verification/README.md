# aya programs, verified

The bookkeeping of eBPF programs, in Verus: which program type each kind of
program is loaded as, what a `BPF_PROG_LOAD`, `BPF_OBJ_PIN` or
`BPF_PROG_QUERY` request holds, when a request is refused before it reaches
the kernel, and what the kernel's answers turn into.

- `src/` is the verified library. It never calls the kernel: functions that
  need it return the request to make, or take the kernel's reply as an
  argument. `src/laws.rs` states the properties that hold across calls
  (load then unload, unloading twice, taking a link twice).
- `app/` makes the `bpf(2)` calls with `libc`, reads clocks and `/proc`, and
  holds the error types with their `thiserror` derives.
- `tests/` runs the library on concrete values.
