# voluntary_servitude

Atomic cells and a thread-safe appendable list whose iterators keep growing until they are
exhausted, written in Verus.

## Layout

- `src/` — the verified library.
  - `atomics/` — `Atomic`, `AtomicOption`, `FillOnceAtomicOption`, `FillOnceAtomicArc`.
  - `voluntary_servitude.rs` — `Inner` (a chain of elements shared by a list and its
    iterators) and `VoluntaryServitude` (`VS`), the list.
  - `segments.rs` — where a chain keeps its elements: segments of write-once slots, read
    without a lock.
  - `iterator.rs` — `Iter`, its step relation and the laws it keeps.
  - `pg_array.rs` — the PostgreSQL binary array format: reading, writing, and the proof that
    reading gives back what was written.
  - `ffi.rs` — what the C interface answers for each call, NULL arguments included.
  - `cells.rs`, `locks.rs`, `byte_order.rs` — the standard library's `Arc` and `OnceLock`,
    `parking_lot`'s lock and `byteorder`'s big-endian integers, each call behind a function
    whose contract states what the call does.
- `tests/` — tests run against the compiled library.
- `app/` — serde and rayon integrations and the `extern "C"` functions.

## What is proved

Lists and cells are shared between threads, so what a read finds depends on what other threads
did before it; the contracts of such reads state only what holds of every outcome. A chain
keeps the elements it was made with for good, and those are stated exactly: reading them by
position, and what an iterator over the chain yields of them — the first at its start, then
each in order, one per step. Also proved: how an iterator's position moves, that an exhausted
iterator stays exhausted, that an iterator which has yielded nothing and has nothing to yield
stays so and no other becomes so, that an `Atomic` is never empty, the transition of
`try_store`, what a fill-once cell made with a value gives back, the
array format in both directions and its round trip, and the status codes of the C interface.
What is appended through a shared reference is not part of the model, so what an iterator
yields past the chain's first elements is tested, not proved.
