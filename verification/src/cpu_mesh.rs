//! CPU-side triangle mesh data and its validation.
//!
//! A [`CpuMesh`] carries flat attribute arrays: three coordinates per vertex
//! for positions and normals, two per vertex for uv coordinates, four bytes
//! per vertex for colors, and an optional index array in one of three
//! unsigned widths.  [`CpuMesh::validate`] rejects every malformed mesh with
//! the exact [`ValidationKind`] stated in its contract, and
//! [`CpuMesh::compute_aabb`] folds the positions into their bounding box.

use vstd::prelude::*;

use crate::error::CoreError;
use crate::error::ValidationKind;
use crate::math::Aabb;
use crate::math::COORD_BOUND;
use crate::math::Vec3;
use crate::math::aabb_contains;
use crate::math::aabb_expand_point_spec;
use crate::math::aabb_is_empty;

verus! {

/// An index array in one of three unsigned integer widths.
#[derive(Clone, Debug)]
pub enum Indices {
    U8(Vec<u8>),
    U16(Vec<u16>),
    U32(Vec<u32>),
}

/// Number of indices in the array.
pub open spec fn indices_len(ind: Indices) -> int {
    match ind {
        Indices::U8(v) => v@.len() as int,
        Indices::U16(v) => v@.len() as int,
        Indices::U32(v) => v@.len() as int,
    }
}

/// The index at position `j`, widened to a mathematical integer.
pub open spec fn index_at(ind: Indices, j: int) -> int {
    match ind {
        Indices::U8(v) => v@[j] as int,
        Indices::U16(v) => v@[j] as int,
        Indices::U32(v) => v@[j] as int,
    }
}

/// Whether every index refers to a vertex below `vc`.
pub open spec fn indices_in_range(ind: Indices, vc: int) -> bool {
    forall|j: int| 0 <= j < indices_len(ind) ==> #[trigger] index_at(ind, j) < vc
}

/// A triangle mesh described on the CPU, ready for upload.
#[derive(Clone, Debug)]
pub struct CpuMesh {
    /// Optional name of the mesh.
    pub name: String,
    /// Flat `(x, y, z)` coordinates, three per vertex.
    pub positions: Vec<i64>,
    /// Flat `(x, y, z)` normals, three per vertex.
    pub normals: Option<Vec<i64>>,
    /// Flat `(u, v)` texture coordinates, two per vertex.
    pub uvs: Option<Vec<i64>>,
    /// Flat `(r, g, b, a)` bytes, four per vertex.
    pub colors: Option<Vec<u8>>,
    /// Optional triangle index array.
    pub indices: Option<Indices>,
}

/// The vertex at position index `i` of the flat coordinate array `s`.
pub open spec fn position_at(s: Seq<i64>, i: int) -> Vec3 {
    Vec3 { x: s[3 * i], y: s[3 * i + 1], z: s[3 * i + 2] }
}

/// Whether every coordinate of `s` has magnitude at most [`COORD_BOUND`].
pub open spec fn positions_in_range(s: Seq<i64>) -> bool {
    forall|j: int| 0 <= j < s.len() ==> -COORD_BOUND <= #[trigger] s[j] <= COORD_BOUND
}

/// The bounding box of the first `k` vertices of `s`.
pub open spec fn aabb_upto(s: Seq<i64>, k: nat) -> Aabb
    decreases k,
{
    if k == 0 {
        Aabb::empty_spec()
    } else {
        aabb_expand_point_spec(aabb_upto(s, (k - 1) as nat), position_at(s, k - 1))
    }
}

/// Every vertex among the first `k` lies inside the box of the first `k`.
pub proof fn lemma_aabb_upto_contains(s: Seq<i64>, k: nat, j: int)
    requires
        0 <= j < k,
    ensures
        aabb_contains(aabb_upto(s, k), position_at(s, j)),
    decreases k,
{
    if j < k - 1 {
        lemma_aabb_upto_contains(s, (k - 1) as nat, j);
    }
}

/// A non-degenerate prefix box of in-range positions is itself in range.
pub proof fn lemma_aabb_upto_bounded(s: Seq<i64>, k: nat)
    requires
        positions_in_range(s),
        3 * k <= s.len(),
    ensures
        k > 0 ==> crate::math::aabb_bounded(aabb_upto(s, k), COORD_BOUND as int),
    decreases k,
{
    if k > 0 {
        lemma_aabb_upto_bounded(s, (k - 1) as nat);
        assert(-COORD_BOUND <= s[3 * (k - 1)] <= COORD_BOUND);
        assert(-COORD_BOUND <= s[3 * (k - 1) + 1] <= COORD_BOUND);
        assert(-COORD_BOUND <= s[3 * (k - 1) + 2] <= COORD_BOUND);
        let p = position_at(s, k - 1);
        assert(-COORD_BOUND <= p.x <= COORD_BOUND);
        assert(-COORD_BOUND <= p.y <= COORD_BOUND);
        assert(-COORD_BOUND <= p.z <= COORD_BOUND);
        assert(aabb_upto(s, k) == aabb_expand_point_spec(aabb_upto(s, (k - 1) as nat), p));
    }
}

/// The outcome [`CpuMesh::validate`] must produce, check by check.
pub open spec fn spec_validate(c: CpuMesh) -> Result<(), CoreError> {
    let vc = c.positions@.len() as int / 3;
    if c.positions@.len() == 0 {
        Err(CoreError::Validation(ValidationKind::EmptyPositions))
    } else if c.positions@.len() % 3 != 0 {
        Err(CoreError::Validation(ValidationKind::PositionCountNotTriples))
    } else if !positions_in_range(c.positions@) {
        Err(CoreError::Validation(ValidationKind::PositionOutOfRange))
    } else if c.normals matches Some(n) && n@.len() != c.positions@.len() {
        Err(CoreError::Validation(ValidationKind::MismatchedNormals))
    } else if c.uvs matches Some(u) && u@.len() != 2 * vc {
        Err(CoreError::Validation(ValidationKind::MismatchedUvs))
    } else if c.colors matches Some(col) && col@.len() != 4 * vc {
        Err(CoreError::Validation(ValidationKind::MismatchedColors))
    } else if c.indices matches Some(ind) && !indices_in_range(ind, vc) {
        Err(CoreError::Validation(ValidationKind::IndexOutOfRange))
    } else if c.indices is None && vc % 3 != 0 {
        Err(CoreError::Validation(ValidationKind::VertexCountNotTriangles))
    } else {
        Ok(())
    }
}

impl CpuMesh {
    /// A mesh holding only positions, with everything optional absent.
    pub fn from_positions(positions: Vec<i64>) -> (r: CpuMesh)
        ensures
            r.positions == positions,
            r.normals is None,
            r.uvs is None,
            r.colors is None,
            r.indices is None,
            r.name@ == Seq::<char>::empty(),
    {
        CpuMesh {
            name: String::new(),
            positions,
            normals: None,
            uvs: None,
            colors: None,
            indices: None,
        }
    }

    /// Number of vertices described by the position array.
    pub fn vertex_count(&self) -> (r: usize)
        ensures
            r == self.positions@.len() as int / 3,
    {
        self.positions.len() / 3
    }

    /// Checks the mesh against every structural rule, reporting the first
    /// violated one exactly as [`spec_validate`] states.
    #[verifier::loop_isolation(false)]
    pub fn validate(&self) -> (r: Result<(), CoreError>)
        ensures
            r == spec_validate(*self),
    {
        let n = self.positions.len();
        if n == 0 {
            return Err(CoreError::Validation(ValidationKind::EmptyPositions));
        }
        if n % 3 != 0 {
            return Err(CoreError::Validation(ValidationKind::PositionCountNotTriples));
        }
        let mut i: usize = 0;
        while i < n
            invariant
                i <= n,
                n == self.positions@.len(),
                forall|j: int| 0 <= j < i ==> -COORD_BOUND <= #[trigger] self.positions@[j] <= COORD_BOUND,
            decreases n - i,
        {
            let p = self.positions[i];
            if p < -COORD_BOUND || p > COORD_BOUND {
                proof {
                    assert(!positions_in_range(self.positions@)) by {
                        assert(!(-COORD_BOUND <= self.positions@[i as int] <= COORD_BOUND));
                    }
                }
                return Err(CoreError::Validation(ValidationKind::PositionOutOfRange));
            }
            i += 1;
        }
        let vc = n / 3;
        if let Some(normals) = &self.normals {
            if normals.len() != n {
                return Err(CoreError::Validation(ValidationKind::MismatchedNormals));
            }
        }
        if let Some(uvs) = &self.uvs {
            if uvs.len() != 2 * vc {
                return Err(CoreError::Validation(ValidationKind::MismatchedUvs));
            }
        }
        if let Some(colors) = &self.colors {
            let cl = colors.len();
            if cl % 4 != 0 || cl / 4 != vc {
                proof {
                    assert(cl as int != 4 * (vc as int));
                }
                return Err(CoreError::Validation(ValidationKind::MismatchedColors));
            }
            proof {
                assert(cl as int == 4 * (vc as int));
            }
        }
        if let Some(indices) = &self.indices {
            if !indices_all_below(indices, vc) {
                return Err(CoreError::Validation(ValidationKind::IndexOutOfRange));
            }
        } else {
            if vc % 3 != 0 {
                return Err(CoreError::Validation(ValidationKind::VertexCountNotTriangles));
            }
        }
        Ok(())
    }

    /// Folds every vertex position into an axis-aligned bounding box.
    pub fn compute_aabb(&self) -> (r: Aabb)
        ensures
            r == aabb_upto(self.positions@, (self.positions@.len() as int / 3) as nat),
            forall|j: int| 0 <= j < self.positions@.len() as int / 3
                ==> aabb_contains(r, position_at(self.positions@, j)),
            self.positions@.len() as int / 3 == 0 ==> aabb_is_empty(r),
    {
        let n = self.positions.len();
        let vc = n / 3;
        let mut r = Aabb::empty();
        let mut i: usize = 0;
        while i < vc
            invariant
                i <= vc,
                n == self.positions@.len(),
                vc == self.positions@.len() as int / 3,
                r == aabb_upto(self.positions@, i as nat),
            decreases vc - i,
        {
            proof {
                assert(3 * (vc as int) <= n as int);
            }
            let p = Vec3 {
                x: self.positions[3 * i],
                y: self.positions[3 * i + 1],
                z: self.positions[3 * i + 2],
            };
            r.expand_with_point(p);
            i += 1;
        }
        proof {
            assert forall|j: int| 0 <= j < self.positions@.len() as int / 3
                implies aabb_contains(r, position_at(self.positions@, j)) by {
                lemma_aabb_upto_contains(
                    self.positions@,
                    (self.positions@.len() as int / 3) as nat,
                    j,
                );
            }
        }
        r
    }
}

/// Checks that every index of `ind` is below `vc`.
#[verifier::loop_isolation(false)]
fn indices_all_below(ind: &Indices, vc: usize) -> (r: bool)
    ensures
        r == indices_in_range(*ind, vc as int),
{
    match ind {
        Indices::U8(v) => {
            let mut i: usize = 0;
            let n = v.len();
            while i < n
                invariant
                    i <= n,
                    n == v@.len(),
                    forall|j: int| 0 <= j < i ==> (#[trigger] v@[j]) < vc,
                decreases n - i,
            {
                if v[i] as usize >= vc {
                    proof {
                        assert(!indices_in_range(*ind, vc as int)) by {
                            assert(index_at(*ind, i as int) >= vc as int);
                        }
                    }
                    return false;
                }
                i += 1;
            }
            proof {
                assert forall|j: int| 0 <= j < indices_len(*ind)
                    implies #[trigger] index_at(*ind, j) < vc by {
                    assert(v@[j] < vc);
                }
            }
            true
        },
        Indices::U16(v) => {
            let mut i: usize = 0;
            let n = v.len();
            while i < n
                invariant
                    i <= n,
                    n == v@.len(),
                    forall|j: int| 0 <= j < i ==> (#[trigger] v@[j]) < vc,
                decreases n - i,
            {
                if v[i] as usize >= vc {
                    proof {
                        assert(!indices_in_range(*ind, vc as int)) by {
                            assert(index_at(*ind, i as int) >= vc as int);
                        }
                    }
                    return false;
                }
                i += 1;
            }
            proof {
                assert forall|j: int| 0 <= j < indices_len(*ind)
                    implies #[trigger] index_at(*ind, j) < vc by {
                    assert(v@[j] < vc);
                }
            }
            true
        },
        Indices::U32(v) => {
            let mut i: usize = 0;
            let n = v.len();
            while i < n
                invariant
                    i <= n,
                    n == v@.len(),
                    forall|j: int| 0 <= j < i ==> (#[trigger] v@[j]) < vc,
                decreases n - i,
            {
                if v[i] as usize >= vc {
                    proof {
                        assert(!indices_in_range(*ind, vc as int)) by {
                            assert(index_at(*ind, i as int) >= vc as int);
                        }
                    }
                    return false;
                }
                i += 1;
            }
            proof {
                assert forall|j: int| 0 <= j < indices_len(*ind)
                    implies #[trigger] index_at(*ind, j) < vc by {
                    assert(v@[j] < vc);
                }
            }
            true
        },
    }
}

} // verus!
