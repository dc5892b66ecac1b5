//! Sphere tracing along one ray.
//!
//! The ray is parametrised by the distance travelled from its origin: the
//! caller supplies the distance estimate at `origin + direction * t` for a
//! travelled distance `t`, and the marcher decides how far to go.
use vstd::prelude::*;
use crate::params::FractalParameters;

verus! {

/// What one distance estimate decides for the ray.
#[derive(Clone, Copy, Debug, PartialEq, Eq, Structural)]
pub enum MarchStep {
    /// The surface is within the hit tolerance of the current point.
    Hit,
    /// The distance budget is spent; `traveled` is the distance reached,
    /// held at `i64::MAX` where it exceeds that.
    Escaped { traveled: i64 },
    /// March on from the new travelled distance.
    Advance { traveled: i64 },
}

/// The decision for estimate `d` after travelling `traveled`.
pub open spec fn step_spec(traveled: int, d: int, threshold: int, max_distance: int) -> MarchStep {
    if d < threshold {
        MarchStep::Hit
    } else if traveled + d > max_distance {
        MarchStep::Escaped {
            traveled: if traveled + d > i64::MAX { i64::MAX } else { (traveled + d) as i64 },
        }
    } else {
        MarchStep::Advance { traveled: (traveled + d) as i64 }
    }
}

/// A hit when `d` is under the tolerance; otherwise `d` is added to the
/// travelled distance, and the ray escapes once that exceeds `max_distance`.
pub fn march_step(traveled: i64, d: i64, threshold: i64, max_distance: i64) -> (r: MarchStep)
    requires
        0 < threshold,
        0 <= traveled <= max_distance,
    ensures
        r == step_spec(traveled as int, d as int, threshold as int, max_distance as int),
{
    if d < threshold {
        MarchStep::Hit
    } else if d > max_distance - traveled {
        let reached: i64 = if d > i64::MAX - traveled {
            i64::MAX
        } else {
            traveled + d
        };
        MarchStep::Escaped { traveled: reached }
    } else {
        MarchStep::Advance { traveled: traveled + d }
    }
}

/// The outcome of marching one ray.
#[derive(Clone, Copy, Debug, PartialEq, Eq, Structural)]
pub struct MarchOutcome {
    pub hit: bool,
    /// Distance estimates taken.
    pub steps: u32,
    /// Distance travelled: the hit point's on a hit.
    pub traveled: i64,
}

/// The estimator returns one value for each travelled distance.
pub open spec fn single_valued<F: Fn(i64) -> i64>(estimate_along: F) -> bool {
    forall|t: i64, d1: i64, d2: i64|
        #[trigger] estimate_along.ensures((t,), d1) && #[trigger] estimate_along.ensures((t,), d2)
            ==> d1 == d2
}

/// The estimate at travelled distance `t`.
pub open spec fn estimate_at<F: Fn(i64) -> i64>(estimate_along: F, t: i64) -> i64 {
    choose|d: i64| estimate_along.ensures((t,), d)
}

/// Sphere tracing from travelled distance `traveled` after `steps` estimates.
pub open spec fn trace<F: Fn(i64) -> i64>(
    estimate_along: F,
    params: FractalParameters,
    traveled: i64,
    steps: u32,
) -> MarchOutcome
    decreases params.ray_step_count - steps,
{
    if steps >= params.ray_step_count {
        MarchOutcome { hit: false, steps, traveled }
    } else {
        let next = (steps + 1) as u32;
        match step_spec(
            traveled as int,
            estimate_at(estimate_along, traveled) as int,
            params.hit_threshold as int,
            params.max_march_distance as int,
        ) {
            MarchStep::Hit => MarchOutcome { hit: true, steps: next, traveled },
            MarchStep::Escaped { traveled: reached } => MarchOutcome {
                hit: false,
                steps: next,
                traveled: reached,
            },
            MarchStep::Advance { traveled: t } => trace(estimate_along, params, t, next),
        }
    }
}

/// Marches a ray with at most `ray_step_count` estimates, stopping at the
/// first estimate under `hit_threshold` (a hit at the distance travelled) or
/// once the distance travelled exceeds `max_march_distance` (a miss).
pub fn march<F: Fn(i64) -> i64>(estimate_along: F, params: &FractalParameters) -> (r: MarchOutcome)
    requires
        params.in_domain(),
        forall|t: i64|
            0 <= t <= params.max_march_distance ==> #[trigger] estimate_along.requires((t,)),
    ensures
        1 <= r.steps <= params.ray_step_count,
        r.hit ==> 0 <= r.traveled <= params.max_march_distance,
        r.hit ==> exists|d: i64|
            #[trigger] estimate_along.ensures((r.traveled,), d) && d < params.hit_threshold,
        !r.hit ==> r.traveled > params.max_march_distance || r.steps == params.ray_step_count,
        single_valued(estimate_along) ==> r == trace(estimate_along, *params, 0, 0),
{
    let threshold = params.hit_threshold;
    let max_distance = params.max_march_distance;
    let limit = params.ray_step_count;
    let mut traveled: i64 = 0;
    let mut steps: u32 = 0;
    while steps < limit
        invariant
            params.in_domain(),
            threshold == params.hit_threshold,
            max_distance == params.max_march_distance,
            limit == params.ray_step_count,
            forall|t: i64| 0 <= t <= max_distance ==> #[trigger] estimate_along.requires((t,)),
            0 <= steps <= limit,
            0 <= traveled <= max_distance,
            single_valued(estimate_along) ==> trace(estimate_along, *params, traveled, steps)
                == trace(estimate_along, *params, 0, 0),
        decreases limit - steps,
    {
        let d = estimate_along(traveled);
        proof {
            if single_valued(estimate_along) {
                assert(estimate_along.ensures((traveled,), estimate_at(estimate_along, traveled)));
                assert(estimate_at(estimate_along, traveled) == d);
            }
        }
        steps = steps + 1;
        match march_step(traveled, d, threshold, max_distance) {
            MarchStep::Hit => {
                return MarchOutcome { hit: true, steps, traveled };
            },
            MarchStep::Escaped { traveled: reached } => {
                return MarchOutcome { hit: false, steps, traveled: reached };
            },
            MarchStep::Advance { traveled: next } => {
                traveled = next;
            },
        }
    }
    MarchOutcome { hit: false, steps, traveled }
}

} // verus!
