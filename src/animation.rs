//! Time-driven overrides and the render cadence they imply.
use vstd::prelude::*;
use crate::fixed::{clamp, clamp_spec, ONE};
use crate::params::{FractalParameters, ParameterStore, POWER_MAX, POWER_MIN, ZOOM_MAX, ZOOM_MIN};

verus! {

pub const ROTATION_SPEED_MIN: i64 = 0;
pub const ROTATION_SPEED_MAX: i64 = ONE;
pub const POWER_SPEED_MIN: i64 = 10_000;
pub const POWER_SPEED_MAX: i64 = 4 * ONE;
pub const ZOOM_SPEED_MIN: i64 = 100_000;
pub const ZOOM_SPEED_MAX: i64 = 5 * ONE;
/// Middle of the zoom oscillation, 2.75.
pub const ZOOM_CENTER: i64 = 2_750_000;
/// Polls per second while idle with input focus.
pub const FOCUSED_POLL_RATE: u32 = 60;
/// Polls per second while idle without input focus.
pub const UNFOCUSED_POLL_RATE: u32 = 1;

/// Flags and speeds of the three animations, speeds in millionths.
pub struct AnimationState {
    animate_power: bool,
    power_speed: i64,
    animate_zoom: bool,
    zoom_speed: i64,
    rotation_speed: i64,
}

impl AnimationState {
    #[verifier::type_invariant]
    spec fn speeds_in_domain(&self) -> bool {
        &&& POWER_SPEED_MIN <= self.power_speed <= POWER_SPEED_MAX
        &&& ZOOM_SPEED_MIN <= self.zoom_speed <= ZOOM_SPEED_MAX
        &&& ROTATION_SPEED_MIN <= self.rotation_speed <= ROTATION_SPEED_MAX
    }

    pub closed spec fn power_animated(&self) -> bool {
        self.animate_power
    }

    pub closed spec fn zoom_animated(&self) -> bool {
        self.animate_zoom
    }

    pub closed spec fn power_speed_spec(&self) -> i64 {
        self.power_speed
    }

    pub closed spec fn zoom_speed_spec(&self) -> i64 {
        self.zoom_speed
    }

    pub closed spec fn rotation_speed_spec(&self) -> i64 {
        self.rotation_speed
    }

    /// Some animation changes the picture from frame to frame.
    pub open spec fn animating(&self) -> bool {
        self.power_animated() || self.zoom_animated() || self.rotation_speed_spec() > 0
    }

    /// Rotation at 0.2 per second; power and zoom still, each at speed 1.
    pub fn new() -> (r: AnimationState)
        ensures
            !r.power_animated(),
            !r.zoom_animated(),
            r.power_speed_spec() == ONE,
            r.zoom_speed_spec() == ONE,
            r.rotation_speed_spec() == 200_000,
    {
        AnimationState {
            animate_power: false,
            power_speed: ONE,
            animate_zoom: false,
            zoom_speed: ONE,
            rotation_speed: 200_000,
        }
    }

    pub fn power_animated_now(&self) -> (r: bool)
        ensures
            r == self.power_animated(),
    {
        self.animate_power
    }

    pub fn zoom_animated_now(&self) -> (r: bool)
        ensures
            r == self.zoom_animated(),
    {
        self.animate_zoom
    }

    pub fn power_speed(&self) -> (r: i64)
        ensures
            r == self.power_speed_spec(),
            POWER_SPEED_MIN <= r <= POWER_SPEED_MAX,
    {
        proof {
            use_type_invariant(self);
        }
        self.power_speed
    }

    pub fn zoom_speed(&self) -> (r: i64)
        ensures
            r == self.zoom_speed_spec(),
            ZOOM_SPEED_MIN <= r <= ZOOM_SPEED_MAX,
    {
        proof {
            use_type_invariant(self);
        }
        self.zoom_speed
    }

    pub fn rotation_speed(&self) -> (r: i64)
        ensures
            r == self.rotation_speed_spec(),
            ROTATION_SPEED_MIN <= r <= ROTATION_SPEED_MAX,
    {
        proof {
            use_type_invariant(self);
        }
        self.rotation_speed
    }

    pub fn set_animate_power(&mut self, on: bool)
        ensures
            final(self).power_animated() == on,
            final(self).zoom_animated() == old(self).zoom_animated(),
            final(self).power_speed_spec() == old(self).power_speed_spec(),
            final(self).zoom_speed_spec() == old(self).zoom_speed_spec(),
            final(self).rotation_speed_spec() == old(self).rotation_speed_spec(),
    {
        proof {
            use_type_invariant(&*self);
        }
        self.animate_power = on;
    }

    pub fn set_animate_zoom(&mut self, on: bool)
        ensures
            final(self).zoom_animated() == on,
            final(self).power_animated() == old(self).power_animated(),
            final(self).power_speed_spec() == old(self).power_speed_spec(),
            final(self).zoom_speed_spec() == old(self).zoom_speed_spec(),
            final(self).rotation_speed_spec() == old(self).rotation_speed_spec(),
    {
        proof {
            use_type_invariant(&*self);
        }
        self.animate_zoom = on;
    }

    /// Stores the power oscillation speed, clamped to its domain.
    pub fn set_power_speed(&mut self, v: i64)
        ensures
            final(self).power_speed_spec() == clamp_spec(
                v as int,
                POWER_SPEED_MIN as int,
                POWER_SPEED_MAX as int,
            ),
            final(self).power_animated() == old(self).power_animated(),
            final(self).zoom_animated() == old(self).zoom_animated(),
            final(self).zoom_speed_spec() == old(self).zoom_speed_spec(),
            final(self).rotation_speed_spec() == old(self).rotation_speed_spec(),
    {
        proof {
            use_type_invariant(&*self);
        }
        self.power_speed = clamp(v, POWER_SPEED_MIN, POWER_SPEED_MAX);
    }

    /// Stores the zoom oscillation speed, clamped to its domain.
    pub fn set_zoom_speed(&mut self, v: i64)
        ensures
            final(self).zoom_speed_spec() == clamp_spec(
                v as int,
                ZOOM_SPEED_MIN as int,
                ZOOM_SPEED_MAX as int,
            ),
            final(self).power_animated() == old(self).power_animated(),
            final(self).zoom_animated() == old(self).zoom_animated(),
            final(self).power_speed_spec() == old(self).power_speed_spec(),
            final(self).rotation_speed_spec() == old(self).rotation_speed_spec(),
    {
        proof {
            use_type_invariant(&*self);
        }
        self.zoom_speed = clamp(v, ZOOM_SPEED_MIN, ZOOM_SPEED_MAX);
    }

    /// Stores the rotation speed, clamped to `[0, 1]`.
    pub fn set_rotation_speed(&mut self, v: i64)
        ensures
            final(self).rotation_speed_spec() == clamp_spec(
                v as int,
                ROTATION_SPEED_MIN as int,
                ROTATION_SPEED_MAX as int,
            ),
            final(self).power_animated() == old(self).power_animated(),
            final(self).zoom_animated() == old(self).zoom_animated(),
            final(self).power_speed_spec() == old(self).power_speed_spec(),
            final(self).zoom_speed_spec() == old(self).zoom_speed_spec(),
    {
        proof {
            use_type_invariant(&*self);
        }
        self.rotation_speed = clamp(v, ROTATION_SPEED_MIN, ROTATION_SPEED_MAX);
    }

    /// Whether any animation is active.
    pub fn is_animating(&self) -> (r: bool)
        ensures
            r == self.animating(),
    {
        self.animate_power || self.animate_zoom || self.rotation_speed > 0
    }
}

/// How often a view is redrawn.
#[derive(Clone, Copy, Debug, PartialEq, Eq, Structural)]
pub enum UpdateMode {
    /// Every frame.
    Continuous,
    /// Only on events, checking for them this many times a second.
    Reactive { polls_per_second: u32 },
}

/// The update modes with and without input focus.
#[derive(Clone, Copy, Debug, PartialEq, Eq, Structural)]
pub struct Cadence {
    pub focused: UpdateMode,
    pub unfocused: UpdateMode,
}

pub open spec fn continuous_cadence() -> Cadence {
    Cadence { focused: UpdateMode::Continuous, unfocused: UpdateMode::Continuous }
}

pub open spec fn idle_cadence() -> Cadence {
    Cadence {
        focused: UpdateMode::Reactive { polls_per_second: FOCUSED_POLL_RATE },
        unfocused: UpdateMode::Reactive { polls_per_second: UNFOCUSED_POLL_RATE },
    }
}

/// The cadence an animation state calls for.
pub open spec fn cadence_for(anim: AnimationState) -> Cadence {
    if anim.animating() {
        continuous_cadence()
    } else {
        idle_cadence()
    }
}

/// Redraw every frame while anything animates; otherwise poll at 60 per
/// second with focus and once a second without.
pub fn render_cadence(anim: &AnimationState) -> (r: Cadence)
    ensures
        r == cadence_for(*anim),
{
    if anim.is_animating() {
        Cadence { focused: UpdateMode::Continuous, unfocused: UpdateMode::Continuous }
    } else {
        Cadence {
            focused: UpdateMode::Reactive { polls_per_second: FOCUSED_POLL_RATE },
            unfocused: UpdateMode::Reactive { polls_per_second: UNFOCUSED_POLL_RATE },
        }
    }
}

/// The cadence is continuous exactly when an animation flag is on or the
/// rotation speed is positive; with all of them off it is the idle poll.
pub proof fn lemma_cadence_follows_animation(anim: AnimationState)
    ensures
        (cadence_for(anim) == continuous_cadence()) <==> (anim.power_animated()
            || anim.zoom_animated() || anim.rotation_speed_spec() > 0),
        (!anim.power_animated() && !anim.zoom_animated() && anim.rotation_speed_spec() == 0)
            ==> cadence_for(anim) == idle_cadence(),
{
}

/// The camera zoom of the zoom oscillation for a wave value `wave` in
/// `[-1, 1]` (the sine of time times zoom speed): `2.75 + 0.25 * wave`.
pub open spec fn oscillating_zoom_spec(wave: int) -> int {
    ZOOM_CENTER + wave / 4
}

pub fn oscillating_zoom(wave: i64) -> (r: i64)
    requires
        -ONE <= wave <= ONE,
    ensures
        r == oscillating_zoom_spec(wave as int),
        ZOOM_MIN <= r <= ZOOM_MAX,
{
    if wave >= 0 {
        ZOOM_CENTER + wave / 4
    } else {
        let down: i64 = (3 - wave) / 4;
        ZOOM_CENTER - down
    }
}

/// The parameters after one control tick's overrides: the animated power and
/// zoom replace the stored ones, clamped, while their flags are on.
pub open spec fn driven_params(
    old: FractalParameters,
    anim: AnimationState,
    animated_power: int,
    animated_zoom: int,
) -> FractalParameters {
    FractalParameters {
        power: if anim.power_animated() {
            clamp_spec(animated_power, POWER_MIN as int, POWER_MAX as int) as i64
        } else {
            old.power
        },
        camera_zoom: if anim.zoom_animated() {
            clamp_spec(animated_zoom, ZOOM_MIN as int, ZOOM_MAX as int) as i64
        } else {
            old.camera_zoom
        },
        ..old
    }
}

/// Applies the time-driven overrides of one control tick. `animated_power`
/// and `animated_zoom` are this tick's oscillation values; each is stored only
/// while its animation is on.
pub fn drive(store: &mut ParameterStore, anim: &AnimationState, animated_power: i64, animated_zoom: i64)
    ensures
        final(store).current() == driven_params(
            old(store).current(),
            *anim,
            animated_power as int,
            animated_zoom as int,
        ),
{
    if anim.power_animated_now() {
        store.set_power(animated_power);
    }
    if anim.zoom_animated_now() {
        store.set_camera_zoom(animated_zoom);
    }
}

/// A manual edit of the power: ignored while the power is animated.
pub fn edit_power(store: &mut ParameterStore, anim: &AnimationState, v: i64)
    ensures
        anim.power_animated() ==> final(store).current() == old(store).current(),
        !anim.power_animated() ==> final(store).current() == (FractalParameters {
            power: clamp_spec(v as int, POWER_MIN as int, POWER_MAX as int) as i64,
            ..old(store).current()
        }),
{
    if !anim.power_animated_now() {
        store.set_power(v);
    }
}

/// A manual edit of the zoom: ignored while the zoom is animated.
pub fn edit_camera_zoom(store: &mut ParameterStore, anim: &AnimationState, v: i64)
    ensures
        anim.zoom_animated() ==> final(store).current() == old(store).current(),
        !anim.zoom_animated() ==> final(store).current() == (FractalParameters {
            camera_zoom: clamp_spec(v as int, ZOOM_MIN as int, ZOOM_MAX as int) as i64,
            ..old(store).current()
        }),
{
    if !anim.zoom_animated_now() {
        store.set_camera_zoom(v);
    }
}

} // verus!
