//! The camera: viewport, view and projection matrices, their product, and
//! the product's exact inverse, fixed at construction.
//!
//! Construction computes the view-projection product and its exact integer
//! inverse once; a camera value therefore always carries a true inverse,
//! and the light pass can bind it without further computation.

use vstd::prelude::*;

use crate::buffer::UniformBuffer;
use crate::math::Aabb;
use crate::math::BOX_BOUND;
use crate::math::INV_BOUND;
use crate::math::MAT_BOUND;
use crate::math::Mat4;
use crate::math::PROD_BOUND;
use crate::math::Vec3;
use crate::math::aabb_bounded;
use crate::math::aabb_is_empty;
use crate::math::ent;
use crate::math::mat4_bounded;
use crate::math::mat4_is_inverse;
use crate::math::mat4_mul_spec;
use crate::render_states::Viewport;

verus! {

/// The homogeneous clip coordinate of point `p` under `m`, row `row`.
pub open spec fn clip_coord(m: Mat4, p: Vec3, row: int) -> int {
    ent(m, row, 0) * p.x + ent(m, row, 1) * p.y + ent(m, row, 2) * p.z + ent(m, row, 3)
}

/// Corner `k` (0 to 7) of the box, one bit per axis.
pub open spec fn aabb_corner(a: Aabb, k: int) -> Vec3 {
    Vec3 {
        x: if k % 2 == 1 { a.max.x } else { a.min.x },
        y: if (k / 2) % 2 == 1 { a.max.y } else { a.min.y },
        z: if (k / 4) % 2 == 1 { a.max.z } else { a.min.z },
    }
}

/// Whether the clip coordinates of `p` under `m` put it outside clip plane
/// `plane` (0: left, 1: right, 2: bottom, 3: top, 4: near, 5: far).
pub open spec fn outside_plane(m: Mat4, p: Vec3, plane: int) -> bool {
    if plane == 0 {
        clip_coord(m, p, 0) + clip_coord(m, p, 3) < 0
    } else if plane == 1 {
        clip_coord(m, p, 0) > clip_coord(m, p, 3)
    } else if plane == 2 {
        clip_coord(m, p, 1) + clip_coord(m, p, 3) < 0
    } else if plane == 3 {
        clip_coord(m, p, 1) > clip_coord(m, p, 3)
    } else if plane == 4 {
        clip_coord(m, p, 2) + clip_coord(m, p, 3) < 0
    } else {
        clip_coord(m, p, 2) > clip_coord(m, p, 3)
    }
}

/// Whether all eight corners of the box lie outside one clip plane.
pub open spec fn all_corners_outside(a: Aabb, m: Mat4, plane: int) -> bool {
    forall|k: int| 0 <= k < 8 ==> outside_plane(m, #[trigger] aabb_corner(a, k), plane)
}

/// The conservative frustum test: a non-empty box is in the frustum unless
/// all its corners lie outside one and the same clip plane.
pub open spec fn spec_in_frustum(a: Aabb, m: Mat4) -> bool {
    !aabb_is_empty(a) && !(exists|plane: int|
        0 <= plane < 6 && #[trigger] all_corners_outside(a, m, plane))
}

/// The scalars of the camera uniform block: eye position, then the view and
/// projection matrices row by row.
pub open spec fn spec_camera_block(position: Vec3, view: Mat4, projection: Mat4) -> Seq<i64> {
    seq![
        position.x, position.y, position.z,
        view.m00, view.m01, view.m02, view.m03,
        view.m10, view.m11, view.m12, view.m13,
        view.m20, view.m21, view.m22, view.m23,
        view.m30, view.m31, view.m32, view.m33,
        projection.m00, projection.m01, projection.m02, projection.m03,
        projection.m10, projection.m11, projection.m12, projection.m13,
        projection.m20, projection.m21, projection.m22, projection.m23,
        projection.m30, projection.m31, projection.m32, projection.m33,
    ]
}

/// A camera fixed at construction time.
#[derive(Debug)]
pub struct Camera {
    pub viewport: Viewport,
    pub position: Vec3,
    pub view: Mat4,
    pub projection: Mat4,
    pub view_projection: Mat4,
    pub view_projection_inverse: Mat4,
    pub uniform_buffer: UniformBuffer,
}

impl Camera {
    /// A camera is well formed when its matrices are bounded, its product
    /// field is the exact product, and its inverse field is a true two-sided
    /// inverse of the product.
    pub open spec fn wf(&self) -> bool {
        &&& mat4_bounded(self.view, MAT_BOUND as int)
        &&& mat4_bounded(self.projection, MAT_BOUND as int)
        &&& self.view_projection == mat4_mul_spec(self.projection, self.view)
        &&& mat4_bounded(self.view_projection, PROD_BOUND as int)
        &&& mat4_is_inverse(self.view_projection, self.view_projection_inverse)
        &&& mat4_bounded(self.view_projection_inverse, INV_BOUND as int)
        &&& self.uniform_buffer.spec_data() == spec_camera_block(
            self.position,
            self.view,
            self.projection,
        )
    }

    /// Builds a camera from its viewport, eye position, view matrix and
    /// projection matrix.  Returns `None` when the view-projection product
    /// has no exact bounded integer inverse.
    pub fn new(viewport: Viewport, position: Vec3, view: Mat4, projection: Mat4) -> (r: Option<
        Camera,
    >)
        requires
            mat4_bounded(view, MAT_BOUND as int),
            mat4_bounded(projection, MAT_BOUND as int),
        ensures
            r matches Some(c) ==> c.wf() && c.viewport == viewport && c.position == position
                && c.view == view && c.projection == projection,
    {
        let view_projection = projection.mul(&view);
        let inverse = view_projection.inverse_exact();
        match inverse {
            Some(view_projection_inverse) => {
                let data: Vec<i64> = vec![
                    position.x, position.y, position.z,
                    view.m00, view.m01, view.m02, view.m03,
                    view.m10, view.m11, view.m12, view.m13,
                    view.m20, view.m21, view.m22, view.m23,
                    view.m30, view.m31, view.m32, view.m33,
                    projection.m00, projection.m01, projection.m02, projection.m03,
                    projection.m10, projection.m11, projection.m12, projection.m13,
                    projection.m20, projection.m21, projection.m22, projection.m23,
                    projection.m30, projection.m31, projection.m32, projection.m33,
                ];
                proof {
                    assert(data@ =~= spec_camera_block(position, view, projection));
                }
                Some(Camera {
                    viewport,
                    position,
                    view,
                    projection,
                    view_projection,
                    view_projection_inverse,
                    uniform_buffer: UniformBuffer::new_with(data),
                })
            },
            None => None,
        }
    }

    /// The viewport the camera renders to.
    pub fn viewport(&self) -> (r: Viewport)
        ensures
            r == self.viewport,
    {
        self.viewport
    }

    /// The eye position.
    pub fn position(&self) -> (r: Vec3)
        ensures
            r == self.position,
    {
        self.position
    }

    /// The view matrix.
    pub fn view(&self) -> (r: Mat4)
        ensures
            r == self.view,
    {
        self.view
    }

    /// The projection matrix.
    pub fn projection(&self) -> (r: Mat4)
        ensures
            r == self.projection,
    {
        self.projection
    }

    /// The camera uniform block.
    pub fn uniform_buffer(&self) -> (r: &UniformBuffer)
        ensures
            r == &self.uniform_buffer,
    {
        &self.uniform_buffer
    }

    /// Decides the conservative frustum test exactly: `false` only for an
    /// empty box or one whose corners all lie outside one clip plane.
    #[verifier::loop_isolation(false)]
    #[verifier::rlimit(60)]
    pub fn in_frustum(&self, aabb: &Aabb) -> (r: bool)
        requires
            self.wf(),
            !aabb_is_empty(*aabb) ==> aabb_bounded(*aabb, BOX_BOUND as int),
        ensures
            r == spec_in_frustum(*aabb, self.view_projection),
    {
        if aabb.is_empty() {
            return false;
        }
        let m = &self.view_projection;
        let mut out0 = true;
        let mut out1 = true;
        let mut out2 = true;
        let mut out3 = true;
        let mut out4 = true;
        let mut out5 = true;
        let mut k: usize = 0;
        while k < 8
            invariant
                k <= 8,
                out0 == forall|t: int| 0 <= t < k ==> outside_plane(
                    *m, #[trigger] aabb_corner(*aabb, t), 0),
                out1 == forall|t: int| 0 <= t < k ==> outside_plane(
                    *m, #[trigger] aabb_corner(*aabb, t), 1),
                out2 == forall|t: int| 0 <= t < k ==> outside_plane(
                    *m, #[trigger] aabb_corner(*aabb, t), 2),
                out3 == forall|t: int| 0 <= t < k ==> outside_plane(
                    *m, #[trigger] aabb_corner(*aabb, t), 3),
                out4 == forall|t: int| 0 <= t < k ==> outside_plane(
                    *m, #[trigger] aabb_corner(*aabb, t), 4),
                out5 == forall|t: int| 0 <= t < k ==> outside_plane(
                    *m, #[trigger] aabb_corner(*aabb, t), 5),
            decreases 8 - k,
        {
            let cx = if k % 2 == 1 { aabb.max.x } else { aabb.min.x };
            let cy = if (k / 2) % 2 == 1 { aabb.max.y } else { aabb.min.y };
            let cz = if (k / 4) % 2 == 1 { aabb.max.z } else { aabb.min.z };
            proof {
                assert(aabb_corner(*aabb, k as int) == (Vec3 { x: cx, y: cy, z: cz }));
            }
            let gm = Ghost(PROD_BOUND as int);
            let gc = Ghost(BOX_BOUND as int);
            let c0 = wide_row(m.m00, m.m01, m.m02, m.m03, cx, cy, cz, gm, gc);
            let c1 = wide_row(m.m10, m.m11, m.m12, m.m13, cx, cy, cz, gm, gc);
            let c2 = wide_row(m.m20, m.m21, m.m22, m.m23, cx, cy, cz, gm, gc);
            let c3 = wide_row(m.m30, m.m31, m.m32, m.m33, cx, cy, cz, gm, gc);
            let o0 = c0 + c3 < 0;
            let o1 = c0 > c3;
            let o2 = c1 + c3 < 0;
            let o3 = c1 > c3;
            let o4 = c2 + c3 < 0;
            let o5 = c2 > c3;
            out0 = out0 && o0;
            out1 = out1 && o1;
            out2 = out2 && o2;
            out3 = out3 && o3;
            out4 = out4 && o4;
            out5 = out5 && o5;
            k += 1;
        }
        let any_out = out0 || out1 || out2 || out3 || out4 || out5;
        proof {
            if any_out {
                if out0 {
                    assert(all_corners_outside(*aabb, *m, 0));
                } else if out1 {
                    assert(all_corners_outside(*aabb, *m, 1));
                } else if out2 {
                    assert(all_corners_outside(*aabb, *m, 2));
                } else if out3 {
                    assert(all_corners_outside(*aabb, *m, 3));
                } else if out4 {
                    assert(all_corners_outside(*aabb, *m, 4));
                } else {
                    assert(all_corners_outside(*aabb, *m, 5));
                }
            } else {
                assert forall|plane: int| 0 <= plane < 6
                    implies !all_corners_outside(*aabb, *m, plane) by {
                    if plane == 0 {
                        let t = choose|t: int| 0 <= t < 8 && !outside_plane(
                            *m, #[trigger] aabb_corner(*aabb, t), 0);
                        assert(!outside_plane(*m, aabb_corner(*aabb, t), 0));
                    } else if plane == 1 {
                        let t = choose|t: int| 0 <= t < 8 && !outside_plane(
                            *m, #[trigger] aabb_corner(*aabb, t), 1);
                        assert(!outside_plane(*m, aabb_corner(*aabb, t), 1));
                    } else if plane == 2 {
                        let t = choose|t: int| 0 <= t < 8 && !outside_plane(
                            *m, #[trigger] aabb_corner(*aabb, t), 2);
                        assert(!outside_plane(*m, aabb_corner(*aabb, t), 2));
                    } else if plane == 3 {
                        let t = choose|t: int| 0 <= t < 8 && !outside_plane(
                            *m, #[trigger] aabb_corner(*aabb, t), 3);
                        assert(!outside_plane(*m, aabb_corner(*aabb, t), 3));
                    } else if plane == 4 {
                        let t = choose|t: int| 0 <= t < 8 && !outside_plane(
                            *m, #[trigger] aabb_corner(*aabb, t), 4);
                        assert(!outside_plane(*m, aabb_corner(*aabb, t), 4));
                    } else {
                        let t = choose|t: int| 0 <= t < 8 && !outside_plane(
                            *m, #[trigger] aabb_corner(*aabb, t), 5);
                        assert(!outside_plane(*m, aabb_corner(*aabb, t), 5));
                    }
                }
            }
        }
        !any_out
    }
}

/// The exact clip coordinate of an affine point under one matrix row,
/// computed in wide arithmetic.
fn wide_row(
    a0: i64, a1: i64, a2: i64, a3: i64,
    x: i64, y: i64, z: i64,
    Ghost(ba): Ghost<int>, Ghost(bb): Ghost<int>,
) -> (r: i128)
    requires
        0 <= ba, 0 <= bb,
        -ba <= a0 <= ba, -ba <= a1 <= ba, -ba <= a2 <= ba, -ba <= a3 <= ba,
        -bb <= x <= bb, -bb <= y <= bb, -bb <= z <= bb, 1 <= bb,
        4 * ba * bb <= i128::MAX as int / 2,
    ensures
        r == a0 * x + a1 * y + a2 * z + a3,
        -(4 * ba * bb) <= r <= 4 * ba * bb,
{
    proof {
        assert(0 <= ba * bb && 4 * ba * bb == 4 * (ba * bb)) by (nonlinear_arith)
            requires 0 <= ba, 0 <= bb;
        assert(-(ba * bb) <= a0 * x <= ba * bb) by (nonlinear_arith)
            requires -ba <= a0 <= ba, -bb <= x <= bb, 0 <= ba, 0 <= bb;
        assert(-(ba * bb) <= a1 * y <= ba * bb) by (nonlinear_arith)
            requires -ba <= a1 <= ba, -bb <= y <= bb, 0 <= ba, 0 <= bb;
        assert(-(ba * bb) <= a2 * z <= ba * bb) by (nonlinear_arith)
            requires -ba <= a2 <= ba, -bb <= z <= bb, 0 <= ba, 0 <= bb;
        assert(ba <= ba * bb) by (nonlinear_arith)
            requires 0 <= ba, 1 <= bb;
    }
    let p0: i128 = (a0 as i128) * (x as i128);
    let p1: i128 = (a1 as i128) * (y as i128);
    let p2: i128 = (a2 as i128) * (z as i128);
    p0 + p1 + p2 + (a3 as i128)
}

} // verus!
