# boss_fight

The decision logic of a grapple game's boss fights and of the run around
them, verified with Verus.

Each fight keeps its state in integers and advances it one tick at a time.
The library holds the rules of a tick: when a part attacks and when its
weakpoint opens, what a hit or a bolt costs, how phase gating exposes the
next part, when a fight is won, when the arena opens and closes, and what the
score pays. The engine measures what those rules take as input (where the
player is, what they reach or touch), carries out what comes back, and keeps
the floating-point side of the game: positions, distances, easing, drawing.

## Layout

- `src/parts.rs`, `src/buff.rs`: boss parts, their health and phase gating;
  the player's solar buff.
- `src/colossus.rs`, `src/serpent.rs`, `src/single.rs`, `src/sun_devourer.rs`:
  the bosses' attack cycles and hit rules.
- `src/arena.rs`, `src/level.rs`, `src/roster.rs`: entering, clearing and
  finishing an arena; the object pools it clears and the tether nodes it
  places; which fight loop runs a boss.
- `src/run.rs`, `src/pause.rs`, `src/backdrop.rs`: scoring, per-frame
  counters, death; the keyboard and the pause menu; the background theme.
- `src/pools.rs`, `src/picture.rs`, `src/tech_bounce.rs`: the names of the
  pooled objects; procedural sprites drawn into `image` buffers; the bounce
  pad's animation cut from its GIF.
- `tests/`: tests of each module on concrete values.
- `app/`: the engine side: floating-point geometry, sprites whose making is
  floating point, the fights' ticks against the engine (`app/fights.rs`) and
  the wiring of the game scene into the engine.

Each module states its rules as `ensures` of its functions and its laws as
public proof functions named `law_*`.
