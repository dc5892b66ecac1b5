use mandelbulb::fixed::ONE;
use mandelbulb::frame::FrameSnapshot;
use mandelbulb::input::{drag_rotation, DragRotation};
use mandelbulb::march::{march, march_step, MarchOutcome, MarchStep};
use mandelbulb::params::{FractalParameters, ParameterStore, Palette};
use mandelbulb::shading::{palette_color, shade, Rgb};

/// Power-N bulb distance estimate in floating point, used as the surface that
/// the marcher is driven over.
fn bulb_distance(p: [f64; 3], power: f64, iterations: u32) -> f64 {
    let mut z = p;
    let mut dr = 1.0_f64;
    let mut r = 0.0_f64;
    for _ in 0..iterations {
        r = (z[0] * z[0] + z[1] * z[1] + z[2] * z[2]).sqrt();
        if r > 2.0 || r == 0.0 {
            break;
        }
        let theta = (z[2] / r).acos() * power;
        let phi = z[1].atan2(z[0]) * power;
        dr = power * r.powf(power - 1.0) * dr + 1.0;
        let zr = r.powf(power);
        z = [
            zr * theta.sin() * phi.cos() + p[0],
            zr * theta.sin() * phi.sin() + p[1],
            zr * theta.cos() + p[2],
        ];
    }
    if r == 0.0 || dr == 0.0 {
        return 1.0e9;
    }
    0.5 * r.ln() * r / dr
}

#[test]
fn ray_from_default_camera_hits_the_bulb() {
    let params = FractalParameters::initial();
    assert_eq!(params.power, 8 * ONE);
    assert_eq!(params.mandel_iterations, 20);
    assert_eq!(params.hit_threshold, 2_000);
    assert_eq!(params.max_march_distance, 40 * ONE);
    let along = |t: i64| -> i64 {
        let z = -5.0 + t as f64 / ONE as f64;
        (bulb_distance([0.0, 0.0, z], 8.0, 20) * ONE as f64).floor() as i64
    };
    let r = march(along, &params);
    assert!(r.hit);
    assert!(r.traveled > 3 * ONE && r.traveled < 5 * ONE);
    assert!(r.steps <= params.ray_step_count);
}

#[test]
fn immediate_hit_takes_one_step() {
    let params = FractalParameters::initial();
    let r = march(|_t: i64| -> i64 { 0 }, &params);
    assert_eq!(r, MarchOutcome { hit: true, steps: 1, traveled: 0 });
}

#[test]
fn far_estimate_escapes_after_one_step() {
    let params = FractalParameters::initial();
    let r = march(|_t: i64| -> i64 { i64::MAX }, &params);
    assert_eq!(r, MarchOutcome { hit: false, steps: 1, traveled: i64::MAX });
}

#[test]
fn budget_exceeded_is_a_miss() {
    let params = FractalParameters::initial();
    let r = march(|_t: i64| -> i64 { 15 * ONE }, &params);
    assert_eq!(r, MarchOutcome { hit: false, steps: 3, traveled: 45 * ONE });
}

#[test]
fn step_cap_ends_the_march() {
    let params = FractalParameters::initial();
    let r = march(|_t: i64| -> i64 { 2_000 }, &params);
    assert_eq!(r, MarchOutcome { hit: false, steps: 100, traveled: 200_000 });
}

#[test]
fn hit_reported_at_surface_distance() {
    let params = FractalParameters::initial();
    let r = march(|t: i64| -> i64 { if t >= 3 * ONE { 0 } else { ONE } }, &params);
    assert_eq!(r, MarchOutcome { hit: true, steps: 4, traveled: 3 * ONE });
}

#[test]
fn single_step_decisions() {
    assert_eq!(march_step(0, 100, 2_000, 40 * ONE), MarchStep::Hit);
    assert_eq!(march_step(ONE, ONE, 2_000, 40 * ONE), MarchStep::Advance { traveled: 2 * ONE });
    assert_eq!(
        march_step(39 * ONE, 2 * ONE, 2_000, 40 * ONE),
        MarchStep::Escaped { traveled: 41 * ONE }
    );
    assert_eq!(march_step(39 * ONE, ONE, 2_000, 40 * ONE), MarchStep::Advance { traveled: 40 * ONE });
}

#[test]
fn palette_ramp_ends_and_middle() {
    assert_eq!(
        palette_color(0, Palette::Standard, ONE, 0),
        Rgb { r: 100_000, g: 200_000, b: 500_000 }
    );
    assert_eq!(
        palette_color(500_000, Palette::Standard, ONE, 0),
        Rgb { r: 900_000, g: 800_000, b: 600_000 }
    );
    assert_eq!(palette_color(250_000, Palette::Fire, ONE, 0), Rgb { r: 750_000, g: 450_000, b: 100_000 });
    assert_eq!(palette_color(0, Palette::Fire, ONE, 250_000), Rgb { r: 750_000, g: 450_000, b: 100_000 });
    assert_eq!(palette_color(125_000, Palette::Fire, 2 * ONE, 0), Rgb { r: 750_000, g: 450_000, b: 100_000 });
    assert_eq!(palette_color(1_000_000, Palette::Ice, ONE, 0), Rgb { r: 100_000, g: 300_000, b: 600_000 });
}

#[test]
fn palette_lookup_is_repeatable() {
    for p in [Palette::Standard, Palette::Fire, Palette::Neon, Palette::Ice] {
        let a = palette_color(123_456, p, 1_700_000, 330_000);
        let b = palette_color(123_456, p, 1_700_000, 330_000);
        assert_eq!(a, b);
    }
}

#[test]
fn miss_shows_background_scaled_by_glow() {
    let mut params = FractalParameters::initial();
    let miss = MarchOutcome { hit: false, steps: 100, traveled: 41 * ONE };
    assert_eq!(shade(&miss, &params, 0, 0), Rgb { r: 0, g: 0, b: 0 });
    params.background_glow = 2 * ONE;
    assert_eq!(shade(&miss, &params, 0, 0), Rgb { r: 100_000, g: 120_000, b: 240_000 });
    params.background_glow = 100 * ONE;
    assert_eq!(shade(&miss, &params, 0, 0), Rgb { r: ONE, g: ONE, b: ONE });
}

#[test]
fn hit_without_occlusion_or_rim_shows_palette_color() {
    let params = FractalParameters::initial();
    let hit = MarchOutcome { hit: true, steps: 0, traveled: 3 * ONE };
    assert_eq!(shade(&hit, &params, ONE, ONE), Rgb { r: 100_000, g: 200_000, b: 500_000 });
}

#[test]
fn hit_combines_occlusion_light_and_rim() {
    let params = FractalParameters::initial();
    let hit = MarchOutcome { hit: true, steps: 50, traveled: 3 * ONE };
    assert_eq!(shade(&hit, &params, 0, 0), Rgb { r: 590_000, g: 580_000, b: 560_000 });
    assert_eq!(shade(&hit, &params, -ONE, -ONE), Rgb { r: 590_000, g: 580_000, b: 560_000 });
}

#[test]
fn bright_light_is_clamped_to_one() {
    let mut params = FractalParameters::initial();
    params.rim_strength = 5 * ONE;
    let hit = MarchOutcome { hit: true, steps: 10, traveled: ONE };
    assert_eq!(shade(&hit, &params, 0, ONE), Rgb { r: ONE, g: ONE, b: ONE });
}

#[test]
fn drag_rotates_only_when_held_and_uncaptured() {
    assert_eq!(drag_rotation(true, false, 1_000, 2_000), Some(DragRotation { yaw: 5_000, pitch: -10_000 }));
    assert_eq!(drag_rotation(true, true, 1_000, 2_000), None);
    assert_eq!(drag_rotation(false, false, 1_000, 2_000), None);
    assert_eq!(drag_rotation(true, false, -400, -200), Some(DragRotation { yaw: -2_000, pitch: 1_000 }));
}

#[test]
fn snapshot_copies_live_parameters() {
    let mut s = ParameterStore::new();
    s.set_julia_enabled(true);
    let snap = FrameSnapshot::capture(&s, 1280, 720);
    assert_eq!(snap.params, s.params());
    assert_eq!((snap.width, snap.height), (1280, 720));
    assert_eq!(snap.julia_flag(), ONE);
    s.set_power(2 * ONE);
    assert_eq!(snap.params.power, 8 * ONE);
    s.set_julia_enabled(false);
    assert_eq!(FrameSnapshot::capture(&s, 1, 1).julia_flag(), 0);
}
