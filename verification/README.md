# missile_intercept

The rules of a small missile-interception game, verified with Verus.

- `src/` is the verified library: the player's state (health, score, whether
  the cannon may fire, game over), what happens when an area enters the
  player's hit zone, an explosion or a bullet stopper, when a click fires the
  cannon or restarts the round, which speed a new bullet gets, and the text of
  the heads-up display. `src/laws.rs` states and proves the properties that
  hold across these operations.
- `app/` is the Godot extension built with `godot` (gdext): the scene nodes,
  which describe what they observe to the library and carry out its
  decisions. Movement, random spawning and the spawn interval work on
  floating-point values and stay there.
- `tests/` runs the library on concrete values.
