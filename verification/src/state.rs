//! The render settings shared between the GUI panel and the render engine.
//!
//! Floating-point settings are carried as IEEE 754 single-precision bit
//! patterns (`u32`): the core never does arithmetic on them, it only stores
//! them, hands them to the GPU and clamps the shininess at the panel. The
//! application converts with `f32::to_bits` / `f32::from_bits` at its edge.

use vstd::prelude::*;

verus! {

/// Bit pattern of the 32-bit float `15.0`, the default camera distance.
pub const F32_BITS_FIFTEEN: u32 = 0x4170_0000;

/// Bit pattern of the 32-bit float `10.0`, the default shininess.
pub const F32_BITS_TEN: u32 = 0x4120_0000;

/// Bit pattern of the 32-bit float `0.0`.
pub const F32_BITS_ZERO: u32 = 0;

/// The object the fragment shader is asked to draw.
#[derive(Clone, Copy, Debug, PartialEq, Eq, Structural)]
pub enum Obj {
    Cube,
    Torus,
    Sphere,
}

/// The integer selector code each object is wired to in the fragment
/// shader: Cube is 0, Torus is 1, Sphere is 2.
pub open spec fn obj_code(o: Obj) -> int {
    match o {
        Obj::Cube => 0,
        Obj::Torus => 1,
        Obj::Sphere => 2,
    }
}

/// The object a selector code stands for, if any: only 0, 1 and 2 are
/// valid inputs to the `obj` uniform.
pub open spec fn obj_from_code(c: int) -> Option<Obj> {
    if c == 0 {
        Some(Obj::Cube)
    } else if c == 1 {
        Some(Obj::Torus)
    } else if c == 2 {
        Some(Obj::Sphere)
    } else {
        None
    }
}

impl Obj {
    /// The selector code pushed into the `obj` uniform.
    pub fn code(self) -> (c: i32)
        ensures
            c == obj_code(self),
    {
        match self {
            Obj::Cube => 0,
            Obj::Torus => 1,
            Obj::Sphere => 2,
        }
    }

    /// The object a selector code stands for; `None` on every code the
    /// shader does not know.
    pub fn from_code(c: i32) -> (r: Option<Obj>)
        ensures
            r == obj_from_code(c as int),
    {
        if c == 0 {
            Some(Obj::Cube)
        } else if c == 1 {
            Some(Obj::Torus)
        } else if c == 2 {
            Some(Obj::Sphere)
        } else {
            None
        }
    }
}

/// Casting an object to its code and back yields the object again, and
/// every code outside {0, 1, 2} maps to no object at all.
pub proof fn lemma_obj_code_round_trip(o: Obj, c: int)
    ensures
        obj_from_code(obj_code(o)) == Some(o),
        0 <= obj_code(o) <= 2,
        !(0 <= c <= 2) ==> obj_from_code(c) is None,
{
}

/// A world-space vector of three 32-bit float bit patterns.
#[derive(Clone, Copy, Debug, PartialEq, Eq, Structural)]
pub struct Vec3Bits {
    pub x: u32,
    pub y: u32,
    pub z: u32,
}

/// The mutable state the GUI edits and the renderer reads each frame.
///
/// `camera_eye` and `shininess` hold 32-bit float bit patterns.
#[derive(Clone, Copy, Debug, PartialEq, Eq, Structural)]
pub struct State {
    pub camera_eye: Vec3Bits,
    pub shininess: u32,
    pub obj: Obj,
}

/// The state the application starts with: camera at (0, 0, 15), shininess
/// 10, sphere selected.
pub open spec fn default_state() -> State {
    State {
        camera_eye: Vec3Bits { x: F32_BITS_ZERO, y: F32_BITS_ZERO, z: F32_BITS_FIFTEEN },
        shininess: F32_BITS_TEN,
        obj: Obj::Sphere,
    }
}

impl State {
    /// The state's invariant: the shininess is never below `0.0` — its
    /// sign bit is clear. The constructor establishes it and every panel
    /// interaction preserves it; the camera is unconstrained.
    pub open spec fn wf(self) -> bool {
        self.shininess < 0x8000_0000
    }

    /// Constructs the startup state.
    pub fn new() -> (s: State)
        ensures
            s == default_state(),
            s.wf(),
    {
        State {
            camera_eye: Vec3Bits { x: F32_BITS_ZERO, y: F32_BITS_ZERO, z: F32_BITS_FIFTEEN },
            shininess: F32_BITS_TEN,
            obj: Obj::Sphere,
        }
    }
}

} // verus!
