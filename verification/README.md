# xearthlayer

The decision core of XEarthLayer, written and proved in Verus: the rules behind
its virtual file system, its mount handling, its memory telemetry and its
directory layout.

- `src/` is the library. Its decisions are functions of the values handed in,
  with contracts that Verus proves. It reads the clock, the user's directories
  and the process sizes itself; nothing is claimed of such a reading, and what
  follows from it stands in a function that is handed the reading.
  - `fuse/windows/` decides what a scenery pack mounted through Dokan looks
    like: which files pass through from disk, which textures are made on
    demand, what a read gives, and how a mount begins and ends.
  - `metrics/memory_probe.rs` reads the process's thread count and swapped-out
    memory from `/proc/self/status` and puts memory samples together.
  - `system/unmount.rs` chooses unmount commands, judges their outcome, and
    tells dead FUSE mounts from healthy ones.
  - `platform.rs` places the application's directories.
  - `text.rs` holds the text handling that these need.
- `app/` reads files, runs commands, logs, and talks to the driver. The Dokan
  handler is compiled on Windows only.
- `tests/` runs the library together with the crates it calls.

What the library takes on trust stands in functions marked
`#[verifier::external_body]` and in `assume_specification` items, each with a
note on what is claimed of the outside code.
