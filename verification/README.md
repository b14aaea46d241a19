# lunar

A lunar lander game whose integer-valued rules are verified with Verus.

- `src/` is the verified library:
  - `score` assembles the landing score from its fuel and softness parts;
  - `flight` holds the flight status and outcome, the per-frame decisions on
    the player's commands, the level seed and the stepping limits;
  - `stars` is the xorshift stream that places the stars of a terrain;
  - `hud` gives the status banner and the autopilot label;
  - `mesh` triangulates the lander's fill outline;
  - `dust` chooses the shape of each dust streak;
  - `screenshot` counts frames towards an automatic screenshot and reads the
    screenshot and scene settings.
- `app/` is the bevy game around it: physics, autopilot, terrain, rendering
  and input, all floating point or engine code.
- `tests/` exercises the library on concrete values.
