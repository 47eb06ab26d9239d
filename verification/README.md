# scorpius

The presentation rules of Scorpius, a turn-based tactics game, as a Verus
library: the screen decisions it holds are functions of plain battle and
campaign facts, stated in `requires`/`ensures` and proved.

What is not here: the construction of the Bevy scenes and widget trees
(battle HUD, menu, campaign screens), which these functions feed, and the
pannable regional map view (focus, zoom, culling, minimap), whose geometry
is floating point. Neither stands in `src/` or in `app/`.

- `src/model.rs` — the battle facts the screens read (units, weapons,
  intents, objectives, events).
- `src/layout.rs` — integer geometry of the 1920×1080 canvas and the
  isometric board.
- `src/theme.rs`, `src/assets.rs` — palette, icon atlas, fonts, archetype
  glyphs, and the asset readiness gate.
- `src/interaction.rs`, `src/menu.rs` — pointer, keyboard and command
  routing; routes name the one rules-engine call they need and a `settle`
  step finishes them.
- `src/hud.rs` — the HUD snapshot, its copy and its button states.
- `src/playback.rs` — timed event playback and the recent battle log.
- `src/sync.rs` — board markers derived from the battle and reconciled.
- `src/campaign.rs` — campaign routing, dialogue paging, briefing, hangar
  and ending values.
- `app/` — Bevy glue: the frame loop against the rules engine, and the
  floating-point canvas, picking and animation curves.
