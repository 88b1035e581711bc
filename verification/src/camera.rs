//! The camera: eye, look-at target, orthonormal basis, movement and orbit.
use vstd::prelude::*;

verus! {

use crate::fixed::FX_ONE;
use crate::fixed::add_fx;
use crate::fixed::cos_fx;
use crate::fixed::fx_add;
use crate::fixed::fx_cos;
use crate::fixed::fx_mul;
use crate::fixed::fx_sin;
use crate::fixed::fx_sub;
use crate::fixed::lemma_fx_mul_one;
use crate::fixed::lemma_fx_mul_zero;
use crate::fixed::mul_fx;
use crate::fixed::sin_fx;
use crate::fixed::sub_fx;
use crate::vec3::V3;
use crate::vec3::Vec3;
use crate::vec3::v3_add;
use crate::vec3::v3_cross;
use crate::vec3::v3_dot;
use crate::vec3::v3_normalize;
use crate::vec3::v3_scale;
use crate::vec3::v3_sub;

/// Distance the camera moves per discrete movement command (1.0).
pub const MOVE_STEP_FX: i64 = 65536;

/// Coordinate bound under which camera arithmetic is exact (half the
/// saturation bound).
pub const CAM_BOUND_FX: i64 = 2305843009213693952;

/// A discrete camera movement command.
#[derive(Clone, Copy, Debug, PartialEq, Eq, Structural)]
pub enum CameraMove {
    Forward,
    Backward,
    Left,
    Right,
}

/// The backward axis of the look-at basis: from the target toward the eye.
pub open spec fn basis_forward(eye: V3, center: V3) -> V3 {
    v3_normalize(v3_sub(eye, center))
}

/// The right axis of the look-at basis.
pub open spec fn basis_right(up: V3, forward: V3) -> V3 {
    v3_normalize(v3_cross(up, forward))
}

/// The true up axis of the look-at basis.
pub open spec fn basis_up(forward: V3, right: V3) -> V3 {
    v3_cross(forward, right)
}

/// A look-at camera with a cached orthonormal basis.
///
/// The basis fields are always the ones derived from `eye`, `center` and
/// `up` (see `wf`); every mutating operation re-derives them, so the basis
/// cannot drift from the camera's position.
#[derive(Clone, Copy, Debug)]
pub struct Camera {
    pub eye: Vec3,
    pub center: Vec3,
    pub up: Vec3,
    pub right: Vec3,
    pub upv: Vec3,
    pub forward: Vec3,
}

impl Camera {
    /// The cached basis equals the basis derived from eye, target and up.
    pub open spec fn wf(&self) -> bool {
        &&& self.forward@ == basis_forward(self.eye@, self.center@)
        &&& self.right@ == basis_right(self.up@, self.forward@)
        &&& self.upv@ == basis_up(self.forward@, self.right@)
    }

    /// Every stored coordinate is small enough for exact arithmetic.
    pub open spec fn bounded(&self) -> bool {
        &&& -CAM_BOUND_FX <= self.eye@.x <= CAM_BOUND_FX
        &&& -CAM_BOUND_FX <= self.eye@.y <= CAM_BOUND_FX
        &&& -CAM_BOUND_FX <= self.eye@.z <= CAM_BOUND_FX
        &&& -CAM_BOUND_FX <= self.center@.x <= CAM_BOUND_FX
        &&& -CAM_BOUND_FX <= self.center@.y <= CAM_BOUND_FX
        &&& -CAM_BOUND_FX <= self.center@.z <= CAM_BOUND_FX
    }

    pub fn new(eye: Vec3, center: Vec3, up: Vec3) -> (c: Camera)
        ensures
            c.eye == eye,
            c.center == center,
            c.up == up,
            c.wf(),
    {
        let forward = eye.sub(&center).normalize();
        let right = up.cross(&forward).normalize();
        let upv = forward.cross(&right);
        Camera { eye, center, up, right, upv, forward }
    }

    /// A camera-space direction expressed in world space:
    /// `right * dx + up * dy + forward * dz`.
    pub fn base_change(&self, direction: &Vec3) -> (r: Vec3)
        ensures
            r@ == spec_base_change(*self, direction@),
    {
        self.right.scale(direction.x).add(&self.upv.scale(direction.y)).add(
            &self.forward.scale(direction.z),
        )
    }

    /// Move the eye and the target together one step along the forward or
    /// right axis, and re-derive the basis.
    pub fn move_camera(&mut self, direction: CameraMove)
        ensures
            final (self).eye@ == v3_add(
                old(self).eye@,
                move_delta(*old(self), direction),
            ),
            final (self).center@ == v3_add(
                old(self).center@,
                move_delta(*old(self), direction),
            ),
            final (self).up == old(self).up,
            final (self).wf(),
    {
        let delta: Vec3 = match direction {
            CameraMove::Forward => self.forward.scale(-MOVE_STEP_FX),
            CameraMove::Backward => self.forward.scale(MOVE_STEP_FX),
            CameraMove::Left => self.right.scale(-MOVE_STEP_FX),
            CameraMove::Right => self.right.scale(MOVE_STEP_FX),
        };
        self.eye = self.eye.add(&delta);
        self.center = self.center.add(&delta);
        self.forward = self.eye.sub(&self.center).normalize();
        self.right = self.up.cross(&self.forward).normalize();
        self.upv = self.forward.cross(&self.right);
    }

    /// Orbit the eye about the target: yaw about the world vertical axis,
    /// then pitch about the camera's right axis, both by fixed-point radian
    /// deltas; the basis is re-derived afterwards.  With both deltas zero
    /// and bounded coordinates the camera is left exactly as it was.
    pub fn orbit(&mut self, yaw_delta: i64, pitch_delta: i64)
        requires
            old(self).wf(),
        ensures
            final (self).eye@ == v3_add(
                old(self).center@,
                orbit_offset(*old(self), yaw_delta as int, pitch_delta as int),
            ),
            final (self).center == old(self).center,
            final (self).up == old(self).up,
            final (self).wf(),
            yaw_delta == 0 && pitch_delta == 0 && old(self).bounded() ==> *final (self) == *old(
                self,
            ),
    {
        let offset = self.eye.sub(&self.center);
        let ys: i64 = sin_fx(yaw_delta);
        let yc: i64 = cos_fx(yaw_delta);
        let o1 = Vec3::new(
            sub_fx(mul_fx(offset.x, yc), mul_fx(offset.z, ys)),
            offset.y,
            add_fx(mul_fx(offset.x, ys), mul_fx(offset.z, yc)),
        );
        let ps: i64 = sin_fx(pitch_delta);
        let pc: i64 = cos_fx(pitch_delta);
        let axis = self.right;
        let o2 = o1.scale(pc).add(&axis.cross(&o1).scale(ps)).add(
            &axis.scale(mul_fx(axis.dot(&o1), sub_fx(FX_ONE, pc))),
        );
        let new_eye = self.center.add(&o2);

        proof {
            if yaw_delta == 0 && pitch_delta == 0 && old(self).bounded() {
                lemma_trig_zero();
                lemma_rotations_identity(old(self).eye@, old(self).center@, axis@);
            }
        }

        self.eye = new_eye;
        self.forward = self.eye.sub(&self.center).normalize();
        self.right = self.up.cross(&self.forward).normalize();
        self.upv = self.forward.cross(&self.right);
    }
}

/// A camera-space direction expressed in world space through the camera's
/// basis.
pub open spec fn spec_base_change(c: Camera, d: V3) -> V3 {
    v3_add(v3_add(v3_scale(c.right@, d.x), v3_scale(c.upv@, d.y)), v3_scale(c.forward@, d.z))
}

/// The world-space displacement of one movement command.
pub open spec fn move_delta(c: Camera, direction: CameraMove) -> V3 {
    match direction {
        CameraMove::Forward => v3_scale(c.forward@, -MOVE_STEP_FX as int),
        CameraMove::Backward => v3_scale(c.forward@, MOVE_STEP_FX as int),
        CameraMove::Left => v3_scale(c.right@, -MOVE_STEP_FX as int),
        CameraMove::Right => v3_scale(c.right@, MOVE_STEP_FX as int),
    }
}

/// The eye-to-target offset rotated by the yaw delta about the world
/// vertical axis.
pub open spec fn yaw_rotate(v: V3, yd: int) -> V3 {
    let s = fx_sin(yd);
    let c = fx_cos(yd);
    V3 {
        x: fx_sub(fx_mul(v.x, c), fx_mul(v.z, s)),
        y: v.y,
        z: fx_add(fx_mul(v.x, s), fx_mul(v.z, c)),
    }
}

/// A vector rotated about the unit axis `axis` by the angle with sine `s`
/// and cosine `c` (the Rodrigues form).
pub open spec fn axis_rotate(v: V3, axis: V3, s: int, c: int) -> V3 {
    v3_add(
        v3_add(v3_scale(v, c), v3_scale(v3_cross(axis, v), s)),
        v3_scale(axis, fx_mul(v3_dot(axis, v), fx_sub(FX_ONE as int, c))),
    )
}

/// The new eye-to-target offset after an orbit: yaw about the vertical
/// axis, then pitch about the camera's right axis.
pub open spec fn orbit_offset(cam: Camera, yd: int, pd: int) -> V3 {
    let o1 = yaw_rotate(v3_sub(cam.eye@, cam.center@), yd);
    axis_rotate(o1, cam.right@, fx_sin(pd), fx_cos(pd))
}

proof fn lemma_trig_zero()
    ensures
        fx_sin(0) == 0,
        fx_cos(0) == FX_ONE,
{
    lemma_fx_mul_zero(0);
    assert(0int % (crate::fixed::TWO_PI_FX as int) == 0) by (nonlinear_arith);
}

proof fn lemma_rotations_identity(eye: V3, center: V3, axis: V3)
    requires
        -CAM_BOUND_FX <= eye.x <= CAM_BOUND_FX,
        -CAM_BOUND_FX <= eye.y <= CAM_BOUND_FX,
        -CAM_BOUND_FX <= eye.z <= CAM_BOUND_FX,
        -CAM_BOUND_FX <= center.x <= CAM_BOUND_FX,
        -CAM_BOUND_FX <= center.y <= CAM_BOUND_FX,
        -CAM_BOUND_FX <= center.z <= CAM_BOUND_FX,
    ensures
        v3_add(center, axis_rotate(yaw_rotate(v3_sub(eye, center), 0), axis, fx_sin(0), fx_cos(0)))
            == eye,
{
    lemma_trig_zero();
    let off = v3_sub(eye, center);
    lemma_fx_mul_one(off.x);
    lemma_fx_mul_one(off.y);
    lemma_fx_mul_one(off.z);
    lemma_fx_mul_zero(off.x);
    lemma_fx_mul_zero(off.z);
    let o1 = yaw_rotate(off, 0);
    assert(o1 == off);
    lemma_fx_mul_zero(v3_cross(axis, o1).x);
    lemma_fx_mul_zero(v3_cross(axis, o1).y);
    lemma_fx_mul_zero(v3_cross(axis, o1).z);
    lemma_fx_mul_zero(axis.x);
    lemma_fx_mul_zero(axis.y);
    lemma_fx_mul_zero(axis.z);
    lemma_fx_mul_zero(v3_dot(axis, o1));
    assert(axis_rotate(o1, axis, 0, FX_ONE as int) == o1);
}

} // verus!
