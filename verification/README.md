# rustbyve

The rules of a 2D basketball shooting game that runs in the browser with
Bevy, proved with Verus.

- `src/` — the verified library:
  - `session` — score, shots taken, shot limit (0 = unlimited) and the
    game-over flag; counting baskets and shots, restarting a game;
  - `shooting` — the per-frame decision of the hold-to-charge shooting
    mechanic (re-spot key, game-over freeze, charge, launch);
  - `hud` — the HUD line (`Made: 3   Shots: 7/10`, `GAME OVER`);
  - `bridge` — the values exchanged with the HTML control panel and the
    inbound sync (limit every frame, one-shot reset);
  - `practice` — the free-throw practice count of the first lesson;
  - `laws` — properties over several calls, such as the shot limit
    capping the shots of a game whatever the player does.
- `app/` — the Bevy program around it: rendering, input, floating-point
  physics and the wasm-bindgen bridge to the page.
- `tests/` — tests of the library on concrete values.
