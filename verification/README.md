# scarlet_core

Game rules of a vertical-scrolling bullet-hell shooter, verified with Verus.

- `src/` is the rule library: difficulty scaling, run resources, fragment
  extends, bombs and counter-bombs, the power-stage shot table, item drops
  and pick-ups, stage flow and boss phase progression. Every function carries
  a contract, and the cross-cutting properties (difficulty monotonicity, the
  order of boss phases and of stages, bomb stock accounting, extend caps,
  reset keeping the best score) are stated and proved as public lemmas.
- `tests/` runs the library on concrete values.
- `app/` is the Bevy program around the library: window, input, rendering,
  RON configuration loading, and the parts that work on fractional world
  units (movement, collision circles, bullet fans, point-item interpolation).

Verify with Verus on `src/lib.rs`; build `app/` as an ordinary binary crate
depending on the library.
