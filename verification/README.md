# membreak

A memory tool for a game process, reached through memflow. The verified
library (`src/`) holds what the tool decides and computes:

- `sdk::offsets` — lookups in the JSON offset table (`get_signature`,
  `get_netvar`), the timestamp check against the published table
  (`check_updated`), and the loading protocol as a state machine (`step`),
  with the laws that a finished load is never older than the published
  table and that every refresh is followed by a re-read.
- `sdk` — the addresses of every field the tool reads or writes, from the
  table's offsets and base addresses, checked against 64-bit overflow; the
  weapon check `is_valid_weapon`; the weapon-handle and local-index
  conversions.
- `cheat` — the integer decisions of a tick: live enemies, the spotted-mask
  bit test, module lookup, glow field addresses (with the law that no two
  glow writes overlap).

`app/` is the program: terminal menu, file and network access, memory
reads and writes through memflow, and the floating-point angle arithmetic.
