use vstd::prelude::*;

verus! {

/// A 2-vector. Each channel holds the IEEE-754 bit pattern of a 32-bit float.
#[derive(Clone, Copy, Debug, PartialEq, Eq, Structural)]
pub struct Vec2 {
    pub x: u32,
    pub y: u32,
}

/// A 3-vector of 32-bit float bit patterns.
#[derive(Clone, Copy, Debug, PartialEq, Eq, Structural)]
pub struct Vec3 {
    pub x: u32,
    pub y: u32,
    pub z: u32,
}

/// A 4-vector of 32-bit float bit patterns.
#[derive(Clone, Copy, Debug, PartialEq, Eq, Structural)]
pub struct Vec4 {
    pub x: u32,
    pub y: u32,
    pub z: u32,
    pub w: u32,
}

/// Bit pattern of the float `0.0`.
pub const ZERO_BITS: u32 = 0;

/// Bit pattern of the float `1.0`.
pub const ONE_BITS: u32 = 0x3f80_0000;

impl Vec2 {
    pub fn new(x: u32, y: u32) -> (r: Vec2)
        ensures
            r == (Vec2 { x, y }),
    {
        Vec2 { x, y }
    }
}

impl Vec4 {
    pub fn new(x: u32, y: u32, z: u32, w: u32) -> (r: Vec4)
        ensures
            r == (Vec4 { x, y, z, w }),
    {
        Vec4 { x, y, z, w }
    }

    /// The vector `(0, 0, 0, 0)`.
    pub fn zero() -> (r: Vec4)
        ensures
            r == Vec4::spec_zero(),
    {
        Vec4 { x: ZERO_BITS, y: ZERO_BITS, z: ZERO_BITS, w: ZERO_BITS }
    }

    pub open spec fn spec_zero() -> Vec4 {
        Vec4 { x: ZERO_BITS, y: ZERO_BITS, z: ZERO_BITS, w: ZERO_BITS }
    }
}

/// The result of evaluating a function: a scalar or a 2-, 3- or 4-vector.
#[derive(Clone, Copy, Debug, PartialEq, Eq, Structural)]
pub enum Value {
    Float(u32),
    Float2(Vec2),
    Float3(Vec3),
    Float4(Vec4),
}

/// Which of the variants a value has: 0 for a scalar, then 1, 2, 3 for the
/// 2-, 3- and 4-vector.
pub open spec fn tag(v: Value) -> nat {
    match v {
        Value::Float(_) => 0,
        Value::Float2(_) => 1,
        Value::Float3(_) => 2,
        Value::Float4(_) => 3,
    }
}

/// Whether a value is numeric: every variant of today is.
pub open spec fn is_numeric(v: Value) -> bool {
    match v {
        Value::Float(_) | Value::Float2(_) | Value::Float3(_) | Value::Float4(_) => true,
    }
}

impl Value {
    /// Returns true if the variant is a float value.
    pub fn is_float(&self) -> (r: bool)
        ensures
            r == is_numeric(*self),
    {
        match self {
            Value::Float(_) | Value::Float2(_) | Value::Float3(_) | Value::Float4(_) => true,
        }
    }

    /// Returns true if the two values have the same variant, whatever they hold.
    pub fn variant_eq(&self, other: &Value) -> (r: bool)
        ensures
            r == (tag(*self) == tag(*other)),
    {
        match (self, other) {
            (Value::Float(_), Value::Float(_)) => true,
            (Value::Float2(_), Value::Float2(_)) => true,
            (Value::Float3(_), Value::Float3(_)) => true,
            (Value::Float4(_), Value::Float4(_)) => true,
            _ => false,
        }
    }
}

} // verus!
