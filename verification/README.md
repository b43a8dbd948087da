# Toy Hover Battle

A small isometric two-player hover-craft arena game (macroquad), with its
rules kept in a Verus-verified library.

- `src/` — the verified library `toy_hover_battle`:
  - `control` — controller kinds, AI difficulty, the setup cycle and its laws;
    behaviour labels; AI seeds.
  - `layout` — single/split viewport choice and sizes; match speed.
  - `sfx` — sound events, their volume and rate limit, the rate limiter.
  - `pads` — gamepad slot assignment, rocket-press queue, edge-triggered menu input.
  - `menu` — the start/setup/help/match screen state machine.
  - `chunks` — chunk seeds, the 3×3 lookup block, the loaded-chunk set and what each update generates and drops.
  - `atlas` — atlas cell arithmetic and RGBA image copying.
  - `scoring` — kills and the rocket allowance.
- `app/` — the game itself: rendering, audio, gamepad and keyboard input,
  physics and the AI (all floating point), calling the library for the rules
  above. It reads its sprites, sounds, shader and icons from an `assets/`
  directory in the working directory at start-up.
- `tests/` — tests of the library.
