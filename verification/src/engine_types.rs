//! Small value types shared by the render engines.
use vstd::prelude::*;

verus! {

/// The available render engines.
#[derive(Clone, Copy, Debug, PartialEq, Eq, Structural)]
pub enum RenderEngine {
    Raytracer,
    Pathtracer,
}

impl RenderEngine {
    /// The engine used when none is chosen.
    pub fn default_engine() -> (r: Self)
        ensures
            r == RenderEngine::Raytracer,
    {
        RenderEngine::Raytracer
    }

    /// Path of the engine's default shader.
    pub fn default_shader(&self) -> (r: &'static str)
        ensures
            *self == RenderEngine::Raytracer ==> r@ == "engine-shader/shaders/raytrace-shader.wgsl"@,
            *self == RenderEngine::Pathtracer ==> r@
                == "engine-shader/shaders/pathtracer-shader.wgsl"@,
    {
        match self {
            RenderEngine::Raytracer => "engine-shader/shaders/raytrace-shader.wgsl",
            RenderEngine::Pathtracer => "engine-shader/shaders/pathtracer-shader.wgsl",
        }
    }
}

/// A triangle as three vertex indices (the fourth slot is padding).
#[derive(Clone, Copy, Debug, PartialEq)]
pub struct Triangle(pub [u32; 4]);

impl Triangle {
    /// A triangle over vertices `v0`, `v1`, `v2`.
    pub fn new(v0: u32, v1: u32, v2: u32) -> (r: Self)
        ensures
            r.0@ == seq![v0, v1, v2, 0u32],
    {
        Triangle([v0, v1, v2, 0])
    }

    /// First vertex index.
    pub fn v0(self) -> (r: u32)
        ensures
            r == self.0@[0],
    {
        self.0[0]
    }

    /// Second vertex index.
    pub fn v1(self) -> (r: u32)
        ensures
            r == self.0@[1],
    {
        self.0[1]
    }

    /// Third vertex index.
    pub fn v2(self) -> (r: u32)
        ensures
            r == self.0@[2],
    {
        self.0[2]
    }
}

/// Errors when creating a material.
#[derive(Clone, Copy, Debug, PartialEq, Eq, Structural)]
pub enum MaterialError {
    /// Color values are outside `[0, 1]`.
    ColorOutOfBounds,
}

impl MaterialError {
    /// The user-facing text of the error.
    pub fn message(&self) -> (r: &'static str)
        ensures
            r@ == "Sphere color values must be in [0.0, 1.0]"@,
    {
        "Sphere color values must be in [0.0, 1.0]"
    }
}

/// Errors when creating a sphere.
#[derive(Clone, Copy, Debug, PartialEq, Eq, Structural)]
pub enum SphereError {
    /// The radius is zero or negative.
    RadiusOutOfBounds,
}

impl SphereError {
    /// The user-facing text of the error.
    pub fn message(&self) -> (r: &'static str)
        ensures
            r@ == "Sphere radius must be positive"@,
    {
        "Sphere radius must be positive"
    }
}

} // verus!
