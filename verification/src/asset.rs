//! The integer-valued parts of the particle system asset format: the enums
//! an emitter is configured with and its particle flags.

use vstd::prelude::*;

verus! {

/// Whether a particle system is simulated in three or two dimensions.
#[derive(Clone, Copy, PartialEq, Eq, Debug)]
pub enum ParticleSystemDimension {
    D3,
    D2,
}

impl Default for ParticleSystemDimension {
    fn default() -> (d: Self)
        ensures
            d == ParticleSystemDimension::D3,
    {
        ParticleSystemDimension::D3
    }
}

/// The order in which an emitter's particles are drawn.
#[derive(Clone, Copy, PartialEq, Eq, Debug)]
pub enum DrawOrder {
    Index,
    Lifetime,
    ReverseLifetime,
    ViewDepth,
}

impl Default for DrawOrder {
    fn default() -> (d: Self)
        ensures
            d == DrawOrder::Index,
    {
        DrawOrder::Index
    }
}

/// The number the simulation and sort shaders use for a draw order.
pub open spec fn draw_order_code_spec(order: DrawOrder) -> u32 {
    match order {
        DrawOrder::Index => 0,
        DrawOrder::Lifetime => 1,
        DrawOrder::ReverseLifetime => 2,
        DrawOrder::ViewDepth => 3,
    }
}

impl DrawOrder {
    /// Whether this is the default order (by index), which the asset file
    /// leaves out.
    pub fn is_default(&self) -> (r: bool)
        ensures
            r == (*self == DrawOrder::Index),
    {
        match self {
            DrawOrder::Index => true,
            _ => false,
        }
    }

    /// The number the shaders use for this order.
    pub fn shader_code(&self) -> (c: u32)
        ensures
            c == draw_order_code_spec(*self),
    {
        match self {
            DrawOrder::Index => 0,
            DrawOrder::Lifetime => 1,
            DrawOrder::ReverseLifetime => 2,
            DrawOrder::ViewDepth => 3,
        }
    }
}

/// Distinct draw orders have distinct shader numbers, all below four.
pub proof fn lemma_draw_order_codes_distinct(a: DrawOrder, b: DrawOrder)
    ensures
        draw_order_code_spec(a) < 4,
        draw_order_code_spec(a) == draw_order_code_spec(b) ==> a == b,
{
}

/// Which axis a quad particle faces.
#[derive(Clone, Copy, PartialEq, Eq, Debug)]
pub enum QuadOrientation {
    FaceX,
    FaceY,
    FaceZ,
}

impl Default for QuadOrientation {
    fn default() -> (q: Self)
        ensures
            q == QuadOrientation::FaceZ,
    {
        QuadOrientation::FaceZ
    }
}

/// How a curve segment eases towards its end point.
#[derive(Clone, Copy, PartialEq, Eq, Debug)]
pub enum CurveMode {
    SingleCurve,
    DoubleCurve,
    Hold,
    Stairs,
    SmoothStairs,
}

impl Default for CurveMode {
    fn default() -> (m: Self)
        ensures
            m == CurveMode::SingleCurve,
    {
        CurveMode::SingleCurve
    }
}

/// How colors are blended between gradient stops.
#[derive(Clone, Copy, PartialEq, Eq, Debug)]
pub enum GradientInterpolation {
    Steps,
    Linear,
    Smoothstep,
}

impl Default for GradientInterpolation {
    fn default() -> (g: Self)
        ensures
            g == GradientInterpolation::Linear,
    {
        GradientInterpolation::Linear
    }
}

impl GradientInterpolation {
    /// Whether this is the default (linear), which the asset file leaves out.
    pub fn is_default(&self) -> (r: bool)
        ensures
            r == (*self == GradientInterpolation::Linear),
    {
        match self {
            GradientInterpolation::Linear => true,
            _ => false,
        }
    }
}

/// Emitter-wide switches of particle behaviour, as a bit set.
#[derive(Clone, Copy, PartialEq, Eq, Debug)]
pub struct ParticleFlags {
    pub bits: u32,
}

/// Bit of [`ParticleFlags::align_y_to_velocity`].
pub const ALIGN_Y_TO_VELOCITY_BIT: u32 = 1;

/// Bit of [`ParticleFlags::disable_z`].
pub const DISABLE_Z_BIT: u32 = 4;

impl Default for ParticleFlags {
    fn default() -> (f: Self)
        ensures
            f.bits == 0,
    {
        ParticleFlags { bits: 0 }
    }
}

impl ParticleFlags {
    /// The flag by which particles turn their Y axis along their velocity.
    pub fn align_y_to_velocity() -> (f: Self)
        ensures
            f.bits == ALIGN_Y_TO_VELOCITY_BIT,
    {
        ParticleFlags { bits: ALIGN_Y_TO_VELOCITY_BIT }
    }

    /// The flag by which particles do not move along Z.
    pub fn disable_z() -> (f: Self)
        ensures
            f.bits == DISABLE_Z_BIT,
    {
        ParticleFlags { bits: DISABLE_Z_BIT }
    }

    /// No flag set.
    pub fn empty() -> (f: Self)
        ensures
            f.bits == 0,
    {
        ParticleFlags { bits: 0 }
    }

    /// Every known flag set.
    pub fn all() -> (f: Self)
        ensures
            f.bits == (ALIGN_Y_TO_VELOCITY_BIT | DISABLE_Z_BIT),
    {
        ParticleFlags { bits: ALIGN_Y_TO_VELOCITY_BIT | DISABLE_Z_BIT }
    }

    /// The raw bits, as the shaders receive them.
    pub fn bits(&self) -> (b: u32)
        ensures
            b == self.bits,
    {
        self.bits
    }

    /// The flags with exactly these bits, known or not.
    pub fn from_bits_retain(bits: u32) -> (f: Self)
        ensures
            f.bits == bits,
    {
        ParticleFlags { bits }
    }

    /// The known flags among these bits.
    pub fn from_bits_truncate(bits: u32) -> (f: Self)
        ensures
            f.bits == bits & (ALIGN_Y_TO_VELOCITY_BIT | DISABLE_Z_BIT),
    {
        ParticleFlags { bits: bits & (ALIGN_Y_TO_VELOCITY_BIT | DISABLE_Z_BIT) }
    }

    /// Whether no flag is set.
    pub fn is_empty(&self) -> (r: bool)
        ensures
            r == (self.bits == 0),
    {
        self.bits == 0
    }

    /// Whether every flag of `other` is set.
    pub fn contains(&self, other: ParticleFlags) -> (r: bool)
        ensures
            r == (self.bits & other.bits == other.bits),
    {
        self.bits & other.bits == other.bits
    }

    /// Sets the flags of `other`.
    pub fn insert(&mut self, other: ParticleFlags)
        ensures
            final(self).bits == old(self).bits | other.bits,
    {
        self.bits = self.bits | other.bits;
    }

    /// Clears the flags of `other`.
    pub fn remove(&mut self, other: ParticleFlags)
        ensures
            final(self).bits == old(self).bits & !other.bits,
    {
        self.bits = self.bits & !other.bits;
    }

    /// Sets or clears the flags of `other`.
    pub fn set(&mut self, other: ParticleFlags, value: bool)
        ensures
            final(self).bits == (if value {
                old(self).bits | other.bits
            } else {
                old(self).bits & !other.bits
            }),
    {
        if value {
            self.insert(other);
        } else {
            self.remove(other);
        }
    }
}

/// Setting a flag makes it read as set, clearing a non-empty flag makes it
/// read as clear, and either way every bit outside the flag is unchanged.
pub proof fn lemma_flag_set_then_contains(bits: u32, flag: u32, value: bool)
    ensures
        ({
            let after = if value {
                bits | flag
            } else {
                bits & !flag
            };
            &&& value ==> (after & flag == flag)
            &&& (!value && flag != 0) ==> (after & flag != flag)
            &&& after & !flag == bits & !flag
        }),
{
    if value {
        assert((bits | flag) & flag == flag) by (bit_vector);
        assert((bits | flag) & !flag == bits & !flag) by (bit_vector);
    } else {
        assert(flag != 0 ==> (bits & !flag) & flag != flag) by (bit_vector);
        assert((bits & !flag) & !flag == bits & !flag) by (bit_vector);
    }
}

/// The two known flags occupy different bits.
pub proof fn lemma_known_flags_disjoint()
    ensures
        ALIGN_Y_TO_VELOCITY_BIT & DISABLE_Z_BIT == 0,
{
    assert(1u32 & 4u32 == 0) by (bit_vector);
}

} // verus!
