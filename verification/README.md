# bevy_rapier2d_f64 (verified core)

The double-precision (`f64`, 2D) pose pipeline between Bevy and the Rapier solver.

- `src/` — the verified library: poses as IEEE-754 bit patterns with `f64` equality
  (`float_bits`, `physics_transform`), the record of the last pose handed to or read from the
  solver (`tracking`), the per-body decisions of the user-change and write-back systems
  (`systems`, `solver_bodies`), the render origin (`render_bridge`), and the laws that relate
  the decisions across calls (`laws`).
- `app/` — the Bevy side: components, resource, plugin, the systems that perform the
  library's decisions on the solver, and the floating-point pose conversions.
- `tests/` — tests of the library, including against a real Rapier rigid-body set.
