//! What a scene hands to the recorder of a pass.

use vstd::prelude::*;

verus! {

/// The per-draw constants pushed to the vertex stage.
#[derive(Clone, Copy, Debug, PartialEq, Eq, Structural)]
pub struct PushConstants {
    pub transform_idx: u32,
}

/// How a renderable is drawn: the pass that draws it and its constants.
#[derive(Clone, Debug)]
pub struct Material {
    pub pass: String,
    pub push: PushConstants,
}

impl Material {
    /// A material drawn by the pass called `pass`.
    pub fn new(pass: &str, transform_idx: u32) -> (r: Material)
        ensures
            r.pass@ == pass@,
            r.push.transform_idx == transform_idx,
    {
        Material { pass: pass.to_owned(), push: PushConstants { transform_idx } }
    }
}

/// One thing to draw: a mesh and the material it is drawn with.
#[derive(Clone, Debug)]
pub struct Renderable {
    pub mesh: u64,
    pub material: Material,
}

impl Renderable {
    /// A renderable of the given mesh and material.
    pub fn new(mesh: u64, material: Material) -> (r: Renderable)
        ensures
            r.mesh == mesh,
            r.material == material,
    {
        Renderable { mesh, material }
    }

    /// The index of the transform this renderable is drawn with.
    pub fn transform_index(&self) -> (r: u32)
        ensures
            r == self.material.push.transform_idx,
    {
        self.material.push.transform_idx
    }
}

/// Axis-aligned bounding boxes of the world's objects.
#[derive(Clone, Copy, Debug, PartialEq, Eq, Structural)]
pub struct AABB {}

/// The world's transforms.
#[derive(Clone, Copy, Debug, PartialEq, Eq, Structural)]
pub struct Transforms {}

/// The user-interface layer.
#[derive(Clone, Copy, Debug, PartialEq, Eq, Structural)]
pub struct UiRenderer {}

} // verus!
