//! The scattering decision of a surface, made explicit: a material falls in
//! one of three behaviours, and the outcome of its random draw and of the
//! refraction attempt select how the outgoing ray is built and which factor
//! scales the surface colour.

use vstd::prelude::*;

verus! {

/// The comparisons on a material's parameters that steer scattering.
#[derive(Clone, Copy, Debug, PartialEq, Eq, Structural)]
pub struct SurfaceTraits {
    /// transparency > 0
    pub transparent: bool,
    /// refractive index differs from 1
    pub bends_light: bool,
    /// reflectivity > 0
    pub reflective: bool,
    /// roughness > 0
    pub rough: bool,
}

/// The closed set of scattering behaviours.
#[derive(Clone, Copy, Debug, PartialEq, Eq, Structural)]
pub enum ScatterKind {
    /// Lambertian-like: the normal plus a random point of the unit ball.
    Diffuse,
    /// Mirror reflection, scaled by the reflectivity.
    Specular,
    /// Fresnel-weighted choice between reflection and refraction.
    Dielectric,
}

/// How the direction of the outgoing ray is built.
#[derive(Clone, Copy, Debug, PartialEq, Eq, Structural)]
pub enum Outgoing {
    /// The mirror reflection of the incoming direction.
    Mirror,
    /// The mirror reflection plus roughness times a random point of the unit
    /// ball, renormalised.
    JitteredMirror,
    /// The direction bent by Snell's law.
    Refracted,
    /// The normal plus a random point of the unit ball, renormalised.
    Diffuse,
}

/// The factor that scales the surface colour into the attenuation.
#[derive(Clone, Copy, Debug, PartialEq, Eq, Structural)]
pub enum Attenuation {
    /// The surface colour itself.
    Base,
    /// The surface colour times the transparency.
    Transparency,
    /// The surface colour times the reflectivity.
    Reflectivity,
}

/// A scattering decision: every decision yields an outgoing ray; absorption
/// shows only in the attenuation.
#[derive(Clone, Copy, Debug, PartialEq, Eq, Structural)]
pub struct ScatterPlan {
    pub outgoing: Outgoing,
    pub attenuation: Attenuation,
}

/// A material is dielectric when it is transparent and bends light, else
/// specular when it reflects, else diffuse.
pub open spec fn spec_classify(t: SurfaceTraits) -> ScatterKind {
    if t.transparent && t.bends_light {
        ScatterKind::Dielectric
    } else if t.reflective {
        ScatterKind::Specular
    } else {
        ScatterKind::Diffuse
    }
}

pub fn classify(t: SurfaceTraits) -> (r: ScatterKind)
    ensures
        r == spec_classify(t),
{
    if t.transparent && t.bends_light {
        ScatterKind::Dielectric
    } else if t.reflective {
        ScatterKind::Specular
    } else {
        ScatterKind::Diffuse
    }
}

/// Mirror reflection is jittered exactly on rough surfaces.
pub open spec fn reflection(t: SurfaceTraits) -> Outgoing {
    if t.rough {
        Outgoing::JitteredMirror
    } else {
        Outgoing::Mirror
    }
}

/// The decision for a surface. `reflect_drawn` says that the uniform sample
/// of a dielectric fell below its reflection threshold; `refracts` says that
/// Snell refraction exists (no total internal reflection). Neither matters
/// for the other kinds, and `refracts` does not matter once reflection was
/// drawn.
pub open spec fn spec_plan(t: SurfaceTraits, reflect_drawn: bool, refracts: bool) -> ScatterPlan {
    match spec_classify(t) {
        ScatterKind::Dielectric => if reflect_drawn {
            ScatterPlan { outgoing: reflection(t), attenuation: Attenuation::Base }
        } else if refracts {
            ScatterPlan { outgoing: Outgoing::Refracted, attenuation: Attenuation::Transparency }
        } else {
            ScatterPlan { outgoing: Outgoing::Mirror, attenuation: Attenuation::Base }
        },
        ScatterKind::Specular => ScatterPlan {
            outgoing: reflection(t),
            attenuation: Attenuation::Reflectivity,
        },
        ScatterKind::Diffuse => ScatterPlan {
            outgoing: Outgoing::Diffuse,
            attenuation: Attenuation::Base,
        },
    }
}

pub fn plan_scatter(t: SurfaceTraits, reflect_drawn: bool, refracts: bool) -> (r: ScatterPlan)
    ensures
        r == spec_plan(t, reflect_drawn, refracts),
{
    let reflected = if t.rough {
        Outgoing::JitteredMirror
    } else {
        Outgoing::Mirror
    };
    match classify(t) {
        ScatterKind::Dielectric => {
            if reflect_drawn {
                ScatterPlan { outgoing: reflected, attenuation: Attenuation::Base }
            } else if refracts {
                ScatterPlan { outgoing: Outgoing::Refracted, attenuation: Attenuation::Transparency }
            } else {
                ScatterPlan { outgoing: Outgoing::Mirror, attenuation: Attenuation::Base }
            }
        },
        ScatterKind::Specular => ScatterPlan {
            outgoing: reflected,
            attenuation: Attenuation::Reflectivity,
        },
        ScatterKind::Diffuse => ScatterPlan {
            outgoing: Outgoing::Diffuse,
            attenuation: Attenuation::Base,
        },
    }
}

} // verus!
