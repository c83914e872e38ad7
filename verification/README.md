# Eldritch Hero

A survivor game: a lone survivor fights ever larger waves of horrors,
gathers echoes to level up, picks upgrade cards and collects relics.

- `src/` is the `eldritch_hero` library: the game's rules over integer
  models, with contracts proved by Verus. Progression and the echo ledger
  (`survivor`), hits, shields and healing (`combat`), projectiles and their
  hit planning (`projectiles`), skills and cooldowns (`skills`), relic
  libraries and pickups (`items`, `relics`), upgrade cards (`upgrades`),
  auras and cone sweeps (`weapons`), channeled beams and charge-up shots (`channeling`), horror spawning and behaviour (`horror`) and the
  session, screens and HUD readouts (`game`). Random picks go through the
  `rand` crate (`random`).
- `tests/` runs the library on concrete games.
- `app/` drives the rules with bevy's ECS, clocks and input. It holds the
  real-valued tuning (speeds, radii, chances, timers), the data tables of
  weapons, relics, skills and cards, and the horrors' base statistics.
  Drawing, audio and menus are not part of it: it logs what a player would
  see and hear.
