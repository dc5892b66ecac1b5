//! Pointer drags turned into incremental rotations.
use vstd::prelude::*;

verus! {

/// Millionths of a radian per thousandth of a pixel of pointer motion
/// (0.005 radian per pixel).
pub const DRAG_SENSITIVITY: i64 = 5;

/// An incremental rotation: yaw about the vertical axis, then pitch about the
/// horizontal axis, in millionths of a radian.
#[derive(Clone, Copy, Debug, PartialEq, Eq, Structural)]
pub struct DragRotation {
    pub yaw: i64,
    pub pitch: i64,
}

/// The rotation of one pointer motion `(dx, dy)`, in thousandths of a pixel:
/// yaw follows `dx` and pitch follows `-dy`. None unless the drag input is held
/// and the control surface is not capturing the pointer.
pub fn drag_rotation(drag_held: bool, pointer_captured: bool, dx: i32, dy: i32) -> (r: Option<
    DragRotation,
>)
    ensures
        r.is_some() <==> (drag_held && !pointer_captured),
        r.is_some() ==> r.unwrap().yaw == DRAG_SENSITIVITY * dx,
        r.is_some() ==> r.unwrap().pitch == -DRAG_SENSITIVITY * dy,
{
    if drag_held && !pointer_captured {
        Some(DragRotation { yaw: DRAG_SENSITIVITY * dx as i64, pitch: -(DRAG_SENSITIVITY * dy as i64) })
    } else {
        None
    }
}

} // verus!
