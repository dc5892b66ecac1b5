use mandelbulb::fixed::ONE;
use mandelbulb::params::{FractalParameters, ParameterStore, Palette, Point3};

#[test]
fn initial_parameters_match_default_view() {
    let p = ParameterStore::new().params();
    assert_eq!(p, FractalParameters::initial());
    assert_eq!(p.power, 8 * ONE);
    assert_eq!(p.mandel_iterations, 20);
    assert_eq!(p.ray_step_count, 100);
    assert_eq!(p.max_march_distance, 40 * ONE);
    assert_eq!(p.hit_threshold, 2_000);
    assert_eq!(p.camera_zoom, 2_500_000);
    assert!(!p.julia_enabled);
    assert_eq!(p.julia_constant, Point3 { x: 350_000, y: 350_000, z: -350_000 });
    assert_eq!(p.palette, Palette::Standard);
}

#[test]
fn power_above_range_is_clamped_to_sixteen() {
    let mut s = ParameterStore::new();
    s.set_power(20 * ONE);
    assert_eq!(s.params().power, 16 * ONE);
    s.set_power(0);
    assert_eq!(s.params().power, ONE);
    s.set_power(3 * ONE);
    assert_eq!(s.params().power, 3 * ONE);
}

#[test]
fn zero_iterations_are_clamped_to_one() {
    let mut s = ParameterStore::new();
    s.set_mandel_iterations(0);
    assert_eq!(s.params().mandel_iterations, 1);
    s.set_mandel_iterations(51);
    assert_eq!(s.params().mandel_iterations, 50);
}

#[test]
fn quality_fields_are_clamped() {
    let mut s = ParameterStore::new();
    s.set_ray_step_count(5);
    s.set_max_march_distance(1_000 * ONE);
    s.set_hit_threshold(0);
    assert_eq!(s.params().ray_step_count, 10);
    assert_eq!(s.params().max_march_distance, 100 * ONE);
    assert_eq!(s.params().hit_threshold, 101);
    s.set_ray_step_count(1_000);
    s.set_hit_threshold(ONE);
    assert_eq!(s.params().ray_step_count, 300);
    assert_eq!(s.params().hit_threshold, 10_000);
}

#[test]
fn camera_style_and_light_fields_are_clamped() {
    let mut s = ParameterStore::new();
    s.set_camera_zoom(0);
    s.set_color_scale(5 * ONE);
    s.set_color_offset(-1);
    s.set_light_x(-50 * ONE);
    s.set_light_y(11 * ONE);
    s.set_background_glow(-3);
    s.set_ao_strength(-1);
    s.set_rim_strength(7 * ONE);
    let p = s.params();
    assert_eq!(p.camera_zoom, 100_000);
    assert_eq!(p.color_scale, 3 * ONE);
    assert_eq!(p.color_offset, 0);
    assert_eq!(p.light_x, -10 * ONE);
    assert_eq!(p.light_y, 10 * ONE);
    assert_eq!(p.background_glow, 0);
    assert_eq!(p.ao_strength, 0);
    assert_eq!(p.rim_strength, 7 * ONE);
}

#[test]
fn setters_leave_other_fields_alone() {
    let mut s = ParameterStore::new();
    s.set_julia_enabled(true);
    s.set_julia_constant(Point3 { x: 1, y: -2, z: 3 });
    s.set_palette(Palette::Neon);
    let mut expected = FractalParameters::initial();
    expected.julia_enabled = true;
    expected.julia_constant = Point3 { x: 1, y: -2, z: 3 };
    expected.palette = Palette::Neon;
    assert_eq!(s.params(), expected);
}

#[test]
fn palette_ids_round_trip() {
    for p in [Palette::Standard, Palette::Fire, Palette::Neon, Palette::Ice] {
        assert_eq!(Palette::from_id(p.id()), p);
    }
    assert_eq!(Palette::Fire.id(), 1);
    assert_eq!(Palette::from_id(9), Palette::Ice);
}
