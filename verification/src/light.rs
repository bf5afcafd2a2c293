//! Light sources and the uniform bindings they contribute to a light pass.

use vstd::prelude::*;

use crate::command::Color;
use crate::command::UniformName;
use crate::command::UniformValue;
use crate::math::Vec3;

verus! {

/// Uniform ambient illumination.
#[derive(Clone, Copy, Debug, PartialEq, Eq, Structural)]
pub struct AmbientLight {
    pub color: Color,
    pub intensity: u32,
}

/// A light shining in one direction from infinitely far away.
#[derive(Clone, Copy, Debug, PartialEq, Eq, Structural)]
pub struct DirectionalLight {
    pub color: Color,
    pub intensity: u32,
    pub direction: Vec3,
}

/// A cone of light from a position.
#[derive(Clone, Copy, Debug, PartialEq, Eq, Structural)]
pub struct SpotLight {
    pub color: Color,
    pub intensity: u32,
    pub position: Vec3,
    pub direction: Vec3,
    pub cutoff: i64,
}

/// A point radiating light equally in all directions.
#[derive(Clone, Copy, Debug, PartialEq, Eq, Structural)]
pub struct PointLight {
    pub color: Color,
    pub intensity: u32,
    pub position: Vec3,
}

/// Every light of a scene, gathered for a forward render.
#[derive(Clone, Debug)]
pub struct Lights {
    pub ambient: Option<AmbientLight>,
    pub directional: Vec<DirectionalLight>,
    pub spot: Vec<SpotLight>,
    pub point: Vec<PointLight>,
}

impl Lights {
    /// A scene with no lights at all.
    pub fn none() -> (r: Lights)
        ensures
            r.ambient is None,
            r.directional@ == Seq::<DirectionalLight>::empty(),
            r.spot@ == Seq::<SpotLight>::empty(),
            r.point@ == Seq::<PointLight>::empty(),
    {
        Lights { ambient: None, directional: Vec::new(), spot: Vec::new(), point: Vec::new() }
    }
}

impl Default for Lights {
    /// No lights at all.
    fn default() -> (r: Lights)
        ensures
            r.ambient is None,
            r.directional@ == Seq::<DirectionalLight>::empty(),
            r.spot@ == Seq::<SpotLight>::empty(),
            r.point@ == Seq::<PointLight>::empty(),
    {
        Lights { ambient: None, directional: Vec::new(), spot: Vec::new(), point: Vec::new() }
    }
}

/// The uniforms bound for the first `k` directional lights.
pub open spec fn spec_directional_uniforms(s: Seq<DirectionalLight>, k: nat) -> Seq<
    (UniformName, UniformValue),
>
    decreases k,
{
    if k == 0 {
        Seq::empty()
    } else {
        spec_directional_uniforms(s, (k - 1) as nat) + seq![
            (UniformName::DirectionalColor((k - 1) as u32), UniformValue::ColorVal(s[k - 1].color)),
            (
                UniformName::DirectionalDirection((k - 1) as u32),
                UniformValue::VecVal(s[k - 1].direction),
            ),
        ]
    }
}

/// The uniforms bound for the first `k` spot lights.
pub open spec fn spec_spot_uniforms(s: Seq<SpotLight>, k: nat) -> Seq<(UniformName, UniformValue)>
    decreases k,
{
    if k == 0 {
        Seq::empty()
    } else {
        spec_spot_uniforms(s, (k - 1) as nat) + seq![
            (UniformName::SpotColor((k - 1) as u32), UniformValue::ColorVal(s[k - 1].color)),
            (UniformName::SpotPosition((k - 1) as u32), UniformValue::VecVal(s[k - 1].position)),
            (UniformName::SpotDirection((k - 1) as u32), UniformValue::VecVal(s[k - 1].direction)),
            (UniformName::SpotCutoff((k - 1) as u32), UniformValue::ScalarVal(s[k - 1].cutoff)),
        ]
    }
}

/// The uniforms bound for the first `k` point lights.
pub open spec fn spec_point_uniforms(s: Seq<PointLight>, k: nat) -> Seq<(UniformName, UniformValue)>
    decreases k,
{
    if k == 0 {
        Seq::empty()
    } else {
        spec_point_uniforms(s, (k - 1) as nat) + seq![
            (UniformName::PointColor((k - 1) as u32), UniformValue::ColorVal(s[k - 1].color)),
            (UniformName::PointPosition((k - 1) as u32), UniformValue::VecVal(s[k - 1].position)),
        ]
    }
}

/// Every uniform the light pass binds for the given lights and eye position:
/// the ambient color when present, each light's data in order, then the eye.
pub open spec fn spec_bind_lights(
    ambient: Option<AmbientLight>,
    directional: Seq<DirectionalLight>,
    spot: Seq<SpotLight>,
    point: Seq<PointLight>,
    eye: Vec3,
) -> Seq<(UniformName, UniformValue)> {
    (match ambient {
        Some(a) => seq![(UniformName::AmbientColor, UniformValue::ColorVal(a.color))],
        None => Seq::empty(),
    }) + spec_directional_uniforms(directional, directional.len())
        + spec_spot_uniforms(spot, spot.len()) + spec_point_uniforms(point, point.len())
        + seq![(UniformName::EyePosition, UniformValue::VecVal(eye))]
}

/// Collects every light uniform, exactly as [`spec_bind_lights`] states.
#[verifier::loop_isolation(false)]
pub fn bind_lights(
    ambient: Option<&AmbientLight>,
    directional: &[DirectionalLight],
    spot: &[SpotLight],
    point: &[PointLight],
    eye: Vec3,
) -> (r: Vec<(UniformName, UniformValue)>)
    requires
        directional@.len() <= 4294967295,
        spot@.len() <= 4294967295,
        point@.len() <= 4294967295,
    ensures
        r@ == spec_bind_lights(
            match ambient {
                Some(a) => Some(*a),
                None => None,
            },
            directional@,
            spot@,
            point@,
            eye,
        ),
{
    let mut r: Vec<(UniformName, UniformValue)> = Vec::new();
    if let Some(a) = ambient {
        r.push((UniformName::AmbientColor, UniformValue::ColorVal(a.color)));
    }
    let ghost prefix0 = r@;
    proof {
        assert(r@ =~= prefix0 + spec_directional_uniforms(directional@, 0));
    }
    let mut i: usize = 0;
    while i < directional.len()
        invariant
            i <= directional@.len(),
            r@ == prefix0 + spec_directional_uniforms(directional@, i as nat),
        decreases directional@.len() - i,
    {
        let l = directional[i];
        r.push((UniformName::DirectionalColor(i as u32), UniformValue::ColorVal(l.color)));
        r.push((UniformName::DirectionalDirection(i as u32), UniformValue::VecVal(l.direction)));
        proof {
            assert(r@ =~= prefix0 + spec_directional_uniforms(directional@, (i + 1) as nat));
        }
        i += 1;
    }
    let ghost prefix1 = r@;
    proof {
        assert(r@ =~= prefix1 + spec_spot_uniforms(spot@, 0));
    }
    let mut i: usize = 0;
    while i < spot.len()
        invariant
            i <= spot@.len(),
            r@ == prefix1 + spec_spot_uniforms(spot@, i as nat),
        decreases spot@.len() - i,
    {
        let l = spot[i];
        r.push((UniformName::SpotColor(i as u32), UniformValue::ColorVal(l.color)));
        r.push((UniformName::SpotPosition(i as u32), UniformValue::VecVal(l.position)));
        r.push((UniformName::SpotDirection(i as u32), UniformValue::VecVal(l.direction)));
        r.push((UniformName::SpotCutoff(i as u32), UniformValue::ScalarVal(l.cutoff)));
        proof {
            assert(r@ =~= prefix1 + spec_spot_uniforms(spot@, (i + 1) as nat));
        }
        i += 1;
    }
    let ghost prefix2 = r@;
    proof {
        assert(r@ =~= prefix2 + spec_point_uniforms(point@, 0));
    }
    let mut i: usize = 0;
    while i < point.len()
        invariant
            i <= point@.len(),
            r@ == prefix2 + spec_point_uniforms(point@, i as nat),
        decreases point@.len() - i,
    {
        let l = point[i];
        r.push((UniformName::PointColor(i as u32), UniformValue::ColorVal(l.color)));
        r.push((UniformName::PointPosition(i as u32), UniformValue::VecVal(l.position)));
        proof {
            assert(r@ =~= prefix2 + spec_point_uniforms(point@, (i + 1) as nat));
        }
        i += 1;
    }
    r.push((UniformName::EyePosition, UniformValue::VecVal(eye)));
    proof {
        assert(r@ =~= spec_bind_lights(
            match ambient {
                Some(a) => Some(*a),
                None => None,
            },
            directional@,
            spot@,
            point@,
            eye,
        ));
    }
    r
}

} // verus!
