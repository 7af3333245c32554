//! The decisions of the recursive radiance estimator. A light path is
//! followed bounce by bounce: at each bounce the remaining depth, the size of
//! the material table and what the scene test found decide whether the path
//! ends in black, ends in the sky, or scatters off a material.

use vstd::prelude::*;

verus! {

/// What the scene test found for the current ray.
#[derive(Clone, Copy, Debug, PartialEq, Eq, Structural)]
pub enum Probe {
    Missed,
    Struck { material_index: usize },
}

/// The next step of a light path.
#[derive(Clone, Copy, Debug, PartialEq, Eq, Structural)]
pub enum PathStep {
    /// The path ends and contributes no light.
    Black,
    /// The path escapes: the sky seen along the ray is its colour.
    Sky,
    /// Scatter off the material at `material_index` and follow the new ray
    /// with the remaining `depth`; the colour is the attenuation times what
    /// that ray brings.
    Scatter { material_index: usize, depth: u32 },
}

/// At depth 0 a path is cut off whatever the ray and scene; a ray that
/// misses shows the sky; a hit on a material outside the table absorbs;
/// any other hit scatters with one bounce less.
pub open spec fn spec_path_step(depth: u32, material_count: usize, probe: Probe) -> PathStep {
    if depth == 0 {
        PathStep::Black
    } else {
        match probe {
            Probe::Missed => PathStep::Sky,
            Probe::Struck { material_index } => if material_index < material_count {
                PathStep::Scatter { material_index, depth: (depth - 1) as u32 }
            } else {
                PathStep::Black
            },
        }
    }
}

/// Whether the scene must be tested at all at this depth.
pub fn needs_probe(depth: u32) -> (r: bool)
    ensures
        r == (depth > 0),
        !r ==> forall|count: usize, probe: Probe| spec_path_step(depth, count, probe) == PathStep::Black,
{
    depth > 0
}

pub fn path_step(depth: u32, material_count: usize, probe: Probe) -> (r: PathStep)
    ensures
        r == spec_path_step(depth, material_count, probe),
{
    if depth == 0 {
        return PathStep::Black;
    }
    match probe {
        Probe::Missed => PathStep::Sky,
        Probe::Struck { material_index } => {
            if material_index < material_count {
                PathStep::Scatter { material_index, depth: depth - 1 }
            } else {
                PathStep::Black
            }
        },
    }
}

/// A path with no depth left is black, whatever the scene found and however
/// many materials there are.
pub proof fn lemma_depth_zero_is_black(material_count: usize, probe: Probe)
    ensures
        spec_path_step(0, material_count, probe) == PathStep::Black,
{
}

/// The number of bounces a path makes when the scene tests along it find
/// `probes` in turn.
pub open spec fn bounces(depth: u32, material_count: usize, probes: Seq<Probe>) -> nat
    decreases probes.len(),
{
    if probes.len() == 0 {
        0
    } else {
        match spec_path_step(depth, material_count, probes[0]) {
            PathStep::Scatter { depth: next, .. } => 1 + bounces(next, material_count, probes.drop_first()),
            _ => 0,
        }
    }
}

/// Every path ends: whatever the scene tests find, a path started with
/// `depth` scatters at most `depth` times before it ends in black or sky.
pub proof fn lemma_path_ends(depth: u32, material_count: usize, probes: Seq<Probe>)
    ensures
        bounces(depth, material_count, probes) <= depth,
    decreases probes.len(),
{
    if probes.len() > 0 {
        match spec_path_step(depth, material_count, probes[0]) {
            PathStep::Scatter { depth: next, .. } => {
                lemma_path_ends(next, material_count, probes.drop_first());
            },
            _ => {},
        }
    }
}

} // verus!
