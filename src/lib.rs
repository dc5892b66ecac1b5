//! Control state and per-pixel pipeline of a power-N bulb fractal renderer.
//!
//! Real-valued quantities are held in fixed point, as signed counts of
//! millionths (see [`fixed::ONE`]). The floating-point distance estimate and
//! vector geometry stay with the caller: the marcher takes the estimate along
//! a ray as a function of the distance travelled, and the shading takes the
//! cosines of the surface normal with the view and light directions.
pub mod fixed;
pub mod params;
pub mod animation;
pub mod march;
pub mod shading;
pub mod input;
pub mod frame;
