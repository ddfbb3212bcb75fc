//! The vocabulary shared with the graphics backend: draw topologies, colors
//! and the commands the kernel asks the backend to execute.
use vstd::prelude::*;

verus! {

/// Bit pattern of the single-precision value 1.0.
pub const ONE_BITS: u32 = 0x3f80_0000;

/// Draw topology of one draw call, mirroring the backend's closed set.
#[derive(Clone, Copy, Debug, PartialEq, Eq, Structural)]
pub enum PrimitiveKind {
    Points,
    Lines,
    LineLoop,
    LineStrip,
    Triangles,
    TriangleStrip,
    TriangleFan,
}

impl PrimitiveKind {
    /// The backend's numeric code of this topology.
    pub open spec fn spec_code(self) -> u32 {
        match self {
            PrimitiveKind::Points => 0,
            PrimitiveKind::Lines => 1,
            PrimitiveKind::LineLoop => 2,
            PrimitiveKind::LineStrip => 3,
            PrimitiveKind::Triangles => 4,
            PrimitiveKind::TriangleStrip => 5,
            PrimitiveKind::TriangleFan => 6,
        }
    }

    pub fn code(&self) -> (r: u32)
        ensures
            r == self.spec_code(),
    {
        match self {
            PrimitiveKind::Points => 0,
            PrimitiveKind::Lines => 1,
            PrimitiveKind::LineLoop => 2,
            PrimitiveKind::LineStrip => 3,
            PrimitiveKind::Triangles => 4,
            PrimitiveKind::TriangleStrip => 5,
            PrimitiveKind::TriangleFan => 6,
        }
    }

    /// The topology with the given backend code, if there is one.
    pub fn from_code(code: u32) -> (r: Option<PrimitiveKind>)
        ensures
            match r {
                Some(k) => k.spec_code() == code,
                None => code > 6,
            },
    {
        match code {
            0 => Some(PrimitiveKind::Points),
            1 => Some(PrimitiveKind::Lines),
            2 => Some(PrimitiveKind::LineLoop),
            3 => Some(PrimitiveKind::LineStrip),
            4 => Some(PrimitiveKind::Triangles),
            5 => Some(PrimitiveKind::TriangleStrip),
            6 => Some(PrimitiveKind::TriangleFan),
            _ => None,
        }
    }
}

/// A clear color. Each channel holds the IEEE-754 single-precision bit
/// pattern of a normalized value, so that colors compare exactly.
#[derive(Clone, Copy, Debug, PartialEq, Eq, Structural)]
pub struct Rgba {
    pub r: u32,
    pub g: u32,
    pub b: u32,
    pub a: u32,
}

impl Rgba {
    /// Opaque black, the clear color of a fresh surface.
    pub fn black() -> (r: Rgba)
        ensures
            r == (Rgba { r: 0, g: 0, b: 0, a: ONE_BITS }),
    {
        Rgba { r: 0, g: 0, b: 0, a: ONE_BITS }
    }
}

/// One call the backend is asked to make. Handles and attribute locations
/// are the numbers the backend reported when the resources were created.
#[derive(Clone, Copy, Debug, PartialEq, Eq, Structural)]
pub enum GlCommand {
    /// Set the viewport to the given pixel size, anchored at the origin.
    Viewport { width: usize, height: usize },
    /// Make this color the backend's clear color.
    SetClearColor(Rgba),
    /// Clear the color buffer to this color.
    Clear(Rgba),
    /// Make this linked program current.
    UseProgram(u32),
    /// Bind this buffer as the current vertex array buffer.
    BindBuffer(u32),
    /// Point the attribute at this location into the bound buffer and enable it.
    EnableAttribute(u32),
    /// Draw `count` vertices of the given topology, starting at `first`.
    DrawArrays { kind: PrimitiveKind, first: usize, count: usize },
    /// Release this buffer.
    DeleteBuffer(u32),
    /// Release this program.
    DeleteProgram(u32),
}

} // verus!
