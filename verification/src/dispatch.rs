//! Closed dispatch over the planet-type and render-type selectors, and the
//! per-draw selector pair with its ring/moon overrides.

use vstd::prelude::*;

verus! {

/// The five procedural planet surfaces, plus the flat-gray fallback chosen
/// for every selector outside `0..=4`.
#[derive(Clone, Copy, PartialEq, Eq, Structural, Debug)]
pub enum PlanetKind {
    Rocky,
    GasGiantA,
    GasGiantB,
    Biome,
    Ocean,
    Fallback,
}

/// The three vertex position generators: ordinary planet geometry, the
/// flattened ring annulus, and the orbiting moon.
#[derive(Clone, Copy, PartialEq, Eq, Structural, Debug)]
pub enum RenderKind {
    Planet,
    Ring,
    Moon,
}

/// The surface that a planet-type selector denotes: `0..=4` name the five
/// procedural surfaces in order, anything else the fallback.
pub open spec fn planet_kind_spec(selector: int) -> PlanetKind {
    if selector == 0 {
        PlanetKind::Rocky
    } else if selector == 1 {
        PlanetKind::GasGiantA
    } else if selector == 2 {
        PlanetKind::GasGiantB
    } else if selector == 3 {
        PlanetKind::Biome
    } else if selector == 4 {
        PlanetKind::Ocean
    } else {
        PlanetKind::Fallback
    }
}

/// The position generator that a render-type selector denotes: `1` is the
/// ring, `2` the moon, and every other value plain planet geometry.
pub open spec fn render_kind_spec(selector: int) -> RenderKind {
    if selector == 1 {
        RenderKind::Ring
    } else if selector == 2 {
        RenderKind::Moon
    } else {
        RenderKind::Planet
    }
}

/// The canonical selector value of a render kind.
pub open spec fn render_selector_spec(kind: RenderKind) -> int {
    match kind {
        RenderKind::Planet => 0,
        RenderKind::Ring => 1,
        RenderKind::Moon => 2,
    }
}

/// Maps a planet-type selector to the surface it denotes; any selector
/// outside `0..=4` falls back to the flat gray surface rather than failing.
pub fn planet_kind(selector: i32) -> (kind: PlanetKind)
    ensures
        kind == planet_kind_spec(selector as int),
{
    match selector {
        0 => PlanetKind::Rocky,
        1 => PlanetKind::GasGiantA,
        2 => PlanetKind::GasGiantB,
        3 => PlanetKind::Biome,
        4 => PlanetKind::Ocean,
        _ => PlanetKind::Fallback,
    }
}

/// Maps a render-type selector to its position generator; any selector other
/// than `1` or `2` is treated as ordinary planet geometry.
pub fn render_kind(selector: i32) -> (kind: RenderKind)
    ensures
        kind == render_kind_spec(selector as int),
{
    match selector {
        1 => RenderKind::Ring,
        2 => RenderKind::Moon,
        _ => RenderKind::Planet,
    }
}

/// The canonical selector value of a render kind; it always maps back to the
/// kind it came from (see [`lemma_render_selector_round_trip`]).
pub fn render_selector(kind: RenderKind) -> (selector: i32)
    ensures
        selector as int == render_selector_spec(kind),
{
    match kind {
        RenderKind::Planet => 0,
        RenderKind::Ring => 1,
        RenderKind::Moon => 2,
    }
}

/// The canonical selector of each render kind denotes that kind again, so an
/// override written through [`Selectors::with_render`] is read back intact.
pub proof fn lemma_render_selector_round_trip(kind: RenderKind)
    ensures
        render_kind_spec(render_selector_spec(kind)) == kind,
{
}

/// The flat-gray fallback surface is chosen exactly for the selectors
/// outside `0..=4`: dispatch never fails, and no in-range selector is ever
/// mistaken for the fallback.
pub proof fn lemma_fallback_exactly_outside_range(selector: int)
    ensures
        planet_kind_spec(selector) == PlanetKind::Fallback <==> !(0 <= selector <= 4),
{
}

/// The two integer selectors of a per-draw configuration. The matrices and
/// the clock ride alongside these in the caller's uniforms; only the
/// selectors decide which shading path runs.
#[derive(Clone, Copy, PartialEq, Eq, Structural, Debug)]
pub struct Selectors {
    /// Chooses the vertex position generator; read through [`render_kind`].
    pub render_type: i32,
    /// Chooses the planet surface; read through [`planet_kind`].
    pub planet_type: i32,
}

impl Selectors {
    /// A copy of these selectors with the render type overridden to the given
    /// kind and the planet type untouched. The ring and moon renderers derive
    /// their configuration this way instead of mutating the caller's value.
    pub fn with_render(self, kind: RenderKind) -> (overridden: Selectors)
        ensures
            overridden.render_type as int == render_selector_spec(kind),
            overridden.planet_type == self.planet_type,
    {
        Selectors { render_type: render_selector(kind), planet_type: self.planet_type }
    }
}

/// Planet selection travels inside the per-draw selectors; this hook keeps
/// the interface of a global setter and takes no action.
pub fn set_planet_type(_planet_type: i32) {
}

} // verus!
