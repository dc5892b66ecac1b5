//! The long-lived fractal parameters and the store that keeps them in range.
use vstd::prelude::*;
use crate::fixed::{clamp, clamp_spec, ONE};

verus! {

pub const POWER_MIN: i64 = ONE;
pub const POWER_MAX: i64 = 16 * ONE;
pub const ITERATIONS_MIN: u32 = 1;
pub const ITERATIONS_MAX: u32 = 50;
pub const STEPS_MIN: u32 = 10;
pub const STEPS_MAX: u32 = 300;
pub const MAX_DISTANCE_MIN: i64 = 10 * ONE;
pub const MAX_DISTANCE_MAX: i64 = 100 * ONE;
/// The hit tolerance's range is open at 0.0001: its least value is one
/// millionth above that bound.
pub const THRESHOLD_MIN: i64 = 101;
pub const THRESHOLD_MAX: i64 = 10_000;
pub const ZOOM_MIN: i64 = 100_000;
pub const ZOOM_MAX: i64 = 10 * ONE;
pub const COLOR_SCALE_MIN: i64 = 100_000;
pub const COLOR_SCALE_MAX: i64 = 3 * ONE;
pub const COLOR_OFFSET_MIN: i64 = 0;
pub const COLOR_OFFSET_MAX: i64 = ONE;
pub const LIGHT_MIN: i64 = -10 * ONE;
pub const LIGHT_MAX: i64 = 10 * ONE;

/// The selectable color ramps.
#[derive(Clone, Copy, Debug, PartialEq, Eq, Structural)]
pub enum Palette {
    Standard,
    Fire,
    Neon,
    Ice,
}

/// The number a palette carries in the per-frame record.
pub open spec fn palette_id_spec(p: Palette) -> u32 {
    match p {
        Palette::Standard => 0,
        Palette::Fire => 1,
        Palette::Neon => 2,
        Palette::Ice => 3,
    }
}

/// The palette of a number, out-of-range numbers going to the last palette.
pub open spec fn palette_of_id_spec(id: u32) -> Palette {
    if id == 0 {
        Palette::Standard
    } else if id == 1 {
        Palette::Fire
    } else if id == 2 {
        Palette::Neon
    } else {
        Palette::Ice
    }
}

impl Palette {
    pub fn id(&self) -> (r: u32)
        ensures
            r == palette_id_spec(*self),
    {
        match self {
            Palette::Standard => 0,
            Palette::Fire => 1,
            Palette::Neon => 2,
            Palette::Ice => 3,
        }
    }

    pub fn from_id(id: u32) -> (r: Palette)
        ensures
            r == palette_of_id_spec(id),
            id <= 3 ==> palette_id_spec(r) == id,
    {
        if id == 0 {
            Palette::Standard
        } else if id == 1 {
            Palette::Fire
        } else if id == 2 {
            Palette::Neon
        } else {
            Palette::Ice
        }
    }
}

/// Three fixed-point coordinates.
#[derive(Clone, Copy, Debug, PartialEq, Eq, Structural)]
pub struct Point3 {
    pub x: i64,
    pub y: i64,
    pub z: i64,
}

/// Shape, quality, camera, palette and lighting parameters, real values in
/// millionths.
#[derive(Clone, Copy, Debug, PartialEq, Eq, Structural)]
pub struct FractalParameters {
    pub power: i64,
    pub mandel_iterations: u32,
    pub ray_step_count: u32,
    pub max_march_distance: i64,
    pub hit_threshold: i64,
    pub camera_zoom: i64,
    pub julia_enabled: bool,
    pub julia_constant: Point3,
    pub palette: Palette,
    pub color_scale: i64,
    pub color_offset: i64,
    pub light_x: i64,
    pub light_y: i64,
    pub background_glow: i64,
    pub ao_strength: i64,
    pub rim_strength: i64,
}

impl FractalParameters {
    /// Every field lies in its documented domain.
    pub open spec fn in_domain(&self) -> bool {
        &&& POWER_MIN <= self.power <= POWER_MAX
        &&& ITERATIONS_MIN <= self.mandel_iterations <= ITERATIONS_MAX
        &&& STEPS_MIN <= self.ray_step_count <= STEPS_MAX
        &&& MAX_DISTANCE_MIN <= self.max_march_distance <= MAX_DISTANCE_MAX
        &&& THRESHOLD_MIN <= self.hit_threshold <= THRESHOLD_MAX
        &&& ZOOM_MIN <= self.camera_zoom <= ZOOM_MAX
        &&& COLOR_SCALE_MIN <= self.color_scale <= COLOR_SCALE_MAX
        &&& COLOR_OFFSET_MIN <= self.color_offset <= COLOR_OFFSET_MAX
        &&& LIGHT_MIN <= self.light_x <= LIGHT_MAX
        &&& LIGHT_MIN <= self.light_y <= LIGHT_MAX
        &&& 0 <= self.background_glow
        &&& 0 <= self.ao_strength
        &&& 0 <= self.rim_strength
    }

    /// The starting view: power 8, 20 iterations, 100 steps, distance 40,
    /// tolerance 0.002, zoom 2.5, light at (2, 4), Julia constant
    /// (0.35, 0.35, -0.35) with folding off.
    pub open spec fn initial_spec() -> FractalParameters {
        FractalParameters {
            power: 8_000_000,
            mandel_iterations: 20,
            ray_step_count: 100,
            max_march_distance: 40_000_000,
            hit_threshold: 2_000,
            camera_zoom: 2_500_000,
            julia_enabled: false,
            julia_constant: Point3 { x: 350_000, y: 350_000, z: -350_000i64 },
            palette: Palette::Standard,
            color_scale: 1_000_000,
            color_offset: 0,
            light_x: 2_000_000,
            light_y: 4_000_000,
            background_glow: 0,
            ao_strength: 1_000_000,
            rim_strength: 500_000,
        }
    }

    pub fn initial() -> (r: FractalParameters)
        ensures
            r == Self::initial_spec(),
            r.in_domain(),
    {
        FractalParameters {
            power: 8 * ONE,
            mandel_iterations: 20,
            ray_step_count: 100,
            max_march_distance: 40 * ONE,
            hit_threshold: 2_000,
            camera_zoom: 2_500_000,
            julia_enabled: false,
            julia_constant: Point3 { x: 350_000, y: 350_000, z: -350_000 },
            palette: Palette::Standard,
            color_scale: ONE,
            color_offset: 0,
            light_x: 2 * ONE,
            light_y: 4 * ONE,
            background_glow: 0,
            ao_strength: ONE,
            rim_strength: 500_000,
        }
    }
}

/// A count given as a signed number, limited to `[lo, hi]`.
fn clamp_count(v: i64, lo: u32, hi: u32) -> (r: u32)
    requires
        lo <= hi,
    ensures
        r == clamp_spec(v as int, lo as int, hi as int),
{
    clamp(v, lo as i64, hi as i64) as u32
}

/// `v`, or zero where `v` is negative.
pub open spec fn non_negative(v: int) -> int {
    if v < 0 {
        0
    } else {
        v
    }
}

fn at_least_zero(v: i64) -> (r: i64)
    ensures
        r == non_negative(v as int),
{
    if v < 0 {
        0
    } else {
        v
    }
}

/// The single owner of the live parameters. Every write clamps its value to
/// the field's domain, so the parameters are always in domain.
pub struct ParameterStore {
    params: FractalParameters,
}

impl ParameterStore {
    #[verifier::type_invariant]
    spec fn params_in_domain(&self) -> bool {
        self.params.in_domain()
    }

    /// The parameters held.
    pub closed spec fn current(&self) -> FractalParameters {
        self.params
    }

    pub fn new() -> (r: ParameterStore)
        ensures
            r.current() == FractalParameters::initial_spec(),
    {
        ParameterStore { params: FractalParameters::initial() }
    }

    /// Reads the parameters held; they are always in domain.
    pub fn params(&self) -> (r: FractalParameters)
        ensures
            r == self.current(),
            r.in_domain(),
    {
        proof {
            use_type_invariant(self);
        }
        self.params
    }

    /// Stores `v` as the power, clamped to `[POWER_MIN, POWER_MAX]`.
    pub fn set_power(&mut self, v: i64)
        ensures
            final(self).current() == (FractalParameters {
                power: clamp_spec(v as int, POWER_MIN as int, POWER_MAX as int) as i64,
                ..old(self).current()
            }),
    {
        proof {
            use_type_invariant(&*self);
        }
        self.params.power = clamp(v, POWER_MIN, POWER_MAX);
    }

    /// Stores `v` as the mandel iterations, clamped to `[ITERATIONS_MIN, ITERATIONS_MAX]`.
    pub fn set_mandel_iterations(&mut self, v: i64)
        ensures
            final(self).current() == (FractalParameters {
                mandel_iterations: clamp_spec(v as int, ITERATIONS_MIN as int, ITERATIONS_MAX as int) as u32,
                ..old(self).current()
            }),
    {
        proof {
            use_type_invariant(&*self);
        }
        self.params.mandel_iterations = clamp_count(v, ITERATIONS_MIN, ITERATIONS_MAX);
    }

    /// Stores `v` as the ray step count, clamped to `[STEPS_MIN, STEPS_MAX]`.
    pub fn set_ray_step_count(&mut self, v: i64)
        ensures
            final(self).current() == (FractalParameters {
                ray_step_count: clamp_spec(v as int, STEPS_MIN as int, STEPS_MAX as int) as u32,
                ..old(self).current()
            }),
    {
        proof {
            use_type_invariant(&*self);
        }
        self.params.ray_step_count = clamp_count(v, STEPS_MIN, STEPS_MAX);
    }

    /// Stores `v` as the max march distance, clamped to `[MAX_DISTANCE_MIN, MAX_DISTANCE_MAX]`.
    pub fn set_max_march_distance(&mut self, v: i64)
        ensures
            final(self).current() == (FractalParameters {
                max_march_distance: clamp_spec(v as int, MAX_DISTANCE_MIN as int, MAX_DISTANCE_MAX as int) as i64,
                ..old(self).current()
            }),
    {
        proof {
            use_type_invariant(&*self);
        }
        self.params.max_march_distance = clamp(v, MAX_DISTANCE_MIN, MAX_DISTANCE_MAX);
    }

    /// Stores `v` as the hit threshold, clamped to `[THRESHOLD_MIN, THRESHOLD_MAX]`.
    pub fn set_hit_threshold(&mut self, v: i64)
        ensures
            final(self).current() == (FractalParameters {
                hit_threshold: clamp_spec(v as int, THRESHOLD_MIN as int, THRESHOLD_MAX as int) as i64,
                ..old(self).current()
            }),
    {
        proof {
            use_type_invariant(&*self);
        }
        self.params.hit_threshold = clamp(v, THRESHOLD_MIN, THRESHOLD_MAX);
    }

    /// Stores `v` as the camera zoom, clamped to `[ZOOM_MIN, ZOOM_MAX]`.
    pub fn set_camera_zoom(&mut self, v: i64)
        ensures
            final(self).current() == (FractalParameters {
                camera_zoom: clamp_spec(v as int, ZOOM_MIN as int, ZOOM_MAX as int) as i64,
                ..old(self).current()
            }),
    {
        proof {
            use_type_invariant(&*self);
        }
        self.params.camera_zoom = clamp(v, ZOOM_MIN, ZOOM_MAX);
    }

    /// Stores `v` as the color scale, clamped to `[COLOR_SCALE_MIN, COLOR_SCALE_MAX]`.
    pub fn set_color_scale(&mut self, v: i64)
        ensures
            final(self).current() == (FractalParameters {
                color_scale: clamp_spec(v as int, COLOR_SCALE_MIN as int, COLOR_SCALE_MAX as int) as i64,
                ..old(self).current()
            }),
    {
        proof {
            use_type_invariant(&*self);
        }
        self.params.color_scale = clamp(v, COLOR_SCALE_MIN, COLOR_SCALE_MAX);
    }

    /// Stores `v` as the color offset, clamped to `[COLOR_OFFSET_MIN, COLOR_OFFSET_MAX]`.
    pub fn set_color_offset(&mut self, v: i64)
        ensures
            final(self).current() == (FractalParameters {
                color_offset: clamp_spec(v as int, COLOR_OFFSET_MIN as int, COLOR_OFFSET_MAX as int) as i64,
                ..old(self).current()
            }),
    {
        proof {
            use_type_invariant(&*self);
        }
        self.params.color_offset = clamp(v, COLOR_OFFSET_MIN, COLOR_OFFSET_MAX);
    }

    /// Stores `v` as the light x, clamped to `[LIGHT_MIN, LIGHT_MAX]`.
    pub fn set_light_x(&mut self, v: i64)
        ensures
            final(self).current() == (FractalParameters {
                light_x: clamp_spec(v as int, LIGHT_MIN as int, LIGHT_MAX as int) as i64,
                ..old(self).current()
            }),
    {
        proof {
            use_type_invariant(&*self);
        }
        self.params.light_x = clamp(v, LIGHT_MIN, LIGHT_MAX);
    }

    /// Stores `v` as the light y, clamped to `[LIGHT_MIN, LIGHT_MAX]`.
    pub fn set_light_y(&mut self, v: i64)
        ensures
            final(self).current() == (FractalParameters {
                light_y: clamp_spec(v as int, LIGHT_MIN as int, LIGHT_MAX as int) as i64,
                ..old(self).current()
            }),
    {
        proof {
            use_type_invariant(&*self);
        }
        self.params.light_y = clamp(v, LIGHT_MIN, LIGHT_MAX);
    }

    /// Stores `v` as the background glow, negative values becoming zero.
    pub fn set_background_glow(&mut self, v: i64)
        ensures
            final(self).current() == (FractalParameters {
                background_glow: non_negative(v as int) as i64,
                ..old(self).current()
            }),
    {
        proof {
            use_type_invariant(&*self);
        }
        self.params.background_glow = at_least_zero(v);
    }

    /// Stores `v` as the ao strength, negative values becoming zero.
    pub fn set_ao_strength(&mut self, v: i64)
        ensures
            final(self).current() == (FractalParameters {
                ao_strength: non_negative(v as int) as i64,
                ..old(self).current()
            }),
    {
        proof {
            use_type_invariant(&*self);
        }
        self.params.ao_strength = at_least_zero(v);
    }

    /// Stores `v` as the rim strength, negative values becoming zero.
    pub fn set_rim_strength(&mut self, v: i64)
        ensures
            final(self).current() == (FractalParameters {
                rim_strength: non_negative(v as int) as i64,
                ..old(self).current()
            }),
    {
        proof {
            use_type_invariant(&*self);
        }
        self.params.rim_strength = at_least_zero(v);
    }

    /// Stores `v` as the julia enabled; every value is in domain.
    pub fn set_julia_enabled(&mut self, v: bool)
        ensures
            final(self).current() == (FractalParameters { julia_enabled: v, ..old(self).current() }),
    {
        proof {
            use_type_invariant(&*self);
        }
        self.params.julia_enabled = v;
    }

    /// Stores `v` as the julia constant; every value is in domain.
    pub fn set_julia_constant(&mut self, v: Point3)
        ensures
            final(self).current() == (FractalParameters { julia_constant: v, ..old(self).current() }),
    {
        proof {
            use_type_invariant(&*self);
        }
        self.params.julia_constant = v;
    }

    /// Stores `v` as the palette; every value is in domain.
    pub fn set_palette(&mut self, v: Palette)
        ensures
            final(self).current() == (FractalParameters { palette: v, ..old(self).current() }),
    {
        proof {
            use_type_invariant(&*self);
        }
        self.params.palette = v;
    }
}

} // verus!
