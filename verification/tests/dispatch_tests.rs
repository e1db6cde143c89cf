use shaders::dispatch::planet_kind;
use shaders::dispatch::render_kind;
use shaders::dispatch::render_selector;
use shaders::dispatch::set_planet_type;
use shaders::dispatch::PlanetKind;
use shaders::dispatch::RenderKind;
use shaders::dispatch::Selectors;

#[test]
fn planet_kind_maps_each_selector() {
    assert_eq!(planet_kind(0), PlanetKind::Rocky);
    assert_eq!(planet_kind(1), PlanetKind::GasGiantA);
    assert_eq!(planet_kind(2), PlanetKind::GasGiantB);
    assert_eq!(planet_kind(3), PlanetKind::Biome);
    assert_eq!(planet_kind(4), PlanetKind::Ocean);
}

#[test]
fn planet_kind_falls_back_outside_range() {
    assert_eq!(planet_kind(-1), PlanetKind::Fallback);
    assert_eq!(planet_kind(5), PlanetKind::Fallback);
    assert_eq!(planet_kind(i32::MIN), PlanetKind::Fallback);
    assert_eq!(planet_kind(i32::MAX), PlanetKind::Fallback);
}

#[test]
fn render_kind_maps_each_selector() {
    assert_eq!(render_kind(1), RenderKind::Ring);
    assert_eq!(render_kind(2), RenderKind::Moon);
    assert_eq!(render_kind(0), RenderKind::Planet);
}

#[test]
fn render_kind_treats_unknown_selectors_as_planet() {
    assert_eq!(render_kind(-7), RenderKind::Planet);
    assert_eq!(render_kind(3), RenderKind::Planet);
    assert_eq!(render_kind(i32::MAX), RenderKind::Planet);
}

#[test]
fn render_selector_round_trips_through_render_kind() {
    for kind in [RenderKind::Planet, RenderKind::Ring, RenderKind::Moon] {
        assert_eq!(render_kind(render_selector(kind)), kind);
    }
}

#[test]
fn with_render_overrides_only_the_render_type() {
    let base = Selectors { render_type: 0, planet_type: 4 };
    let ring = base.with_render(RenderKind::Ring);
    assert_eq!(ring.render_type, 1);
    assert_eq!(ring.planet_type, 4);
    let moon = base.with_render(RenderKind::Moon);
    assert_eq!(moon.render_type, 2);
    assert_eq!(moon.planet_type, 4);
    // the caller's value is a copy and stays untouched
    assert_eq!(base.render_type, 0);
    assert_eq!(base.planet_type, 4);
}

#[test]
fn set_planet_type_is_a_stateless_hook() {
    set_planet_type(3);
    set_planet_type(-1);
    // selection still travels in the selectors, unaffected by the hook
    assert_eq!(planet_kind(0), PlanetKind::Rocky);
}
