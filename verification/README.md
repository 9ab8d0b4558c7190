# rufus_core

The safety rules that Rufus checks before it writes to a physical disk, verified
with Verus.

- `src/drive.rs`: physical disk numbers, the UI drive-index encoding, and the
  `\\.\PhysicalDriveN` path (as text and as a NUL-terminated byte buffer).
- `src/target.rs`: the snapshot of a target disk and its validation.
- `src/write.rs`: write plans and the final revalidation `authorize_write`.
- `src/c_api.rs`: the integer-valued entry points of the C side.
- `src/text.rs`: Unicode white space and decimal rendering.
- `app/lib.rs`: the `extern "C"` symbols, forwarding to `c_api`.
