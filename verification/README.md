# war_v2

The rules of War.v2, an isometric WWI trench-warfare scene built with Bevy,
as a Verus-verified library, with the Bevy program around it in `app/`.

- `src/text.rs` — characters of a string, splitting at a separator
  (`str::split` semantics), comparing a range with a literal.
- `src/setup.rs` — theatre and weather codes from the setup page, their
  names, crater density, shadows and fog, and the subtitle line.
- `src/roster.rs` — factions, unit types and their codes, and the parts of
  each unit's model.
- `src/deploy.rs` — the `side:type:x:z,...` placement string.
- `src/layout.rs` — the sandbagged trench and the automatic garrison of each
  faction, in centimetres.
- `src/rng.rs` — the xorshift random stream.
- `src/controls.rs` — camera pan keys, and the side selection and arrow-key
  push of the open-field skirmish.

`app/main.rs` is the trench scene and `app/skirmish.rs` the earlier
open-field skirmish; both keep colours, lighting, float positions and
physics, and call the library for everything above.
