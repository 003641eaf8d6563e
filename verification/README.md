# layer_effects

Background effects of layer surfaces in a Wayland compositor: which effects are drawn behind a
surface, in which shape, and with which settings.

- `src/background_effect.rs`: resolving rules to effects, damage, and what is drawn.
- `src/subregion.rs`: the region behind which an effect is drawn, and the damage inside it.
- `src/kde_blur.rs`: the KDE blur protocol as a state machine.
- `src/layer.rs`: a layer surface on an output, and the elements with which it is drawn.
- `src/style.rs`: settings and rules.
- `src/geometry.rs`, `src/float.rs`, `src/math.rs`: rectangles, floating-point values by their bits,
  and the arithmetic that the library leaves to its user.
- `app/`: the same on top of smithay.

Everything under `src/` is verified with Verus. Floating-point arithmetic is not part of it: the
trait `RenderMath` stands for it, and contracts say which computation was made on which values.
