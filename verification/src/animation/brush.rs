use vstd::prelude::*;

verus! {

/// The bit pattern of a 32-bit IEEE-754 number.
pub type Bits32 = u32;

/// The bit pattern of a 64-bit IEEE-754 number.
pub type Bits64 = u64;

/// A point in time, in microseconds from the start of the animation.
pub type TimeMicros = i64;

/// A position on the canvas.
pub type Coord = (Bits32, Bits32);

/// The bit pattern of `0.0`.
pub const BITS_ZERO: Bits32 = 0;

/// The bit pattern of `0.25`.
pub const BITS_QUARTER: Bits32 = 0x3E80_0000;

/// The bit pattern of `1.0`.
pub const BITS_ONE: Bits32 = 0x3F80_0000;

/// The bit pattern of `5.0`.
pub const BITS_FIVE: Bits32 = 0x40A0_0000;

/// The bit pattern of `50.0`.
pub const BITS_FIFTY: Bits32 = 0x4248_0000;

/// The bit pattern of `80.0`.
pub const BITS_EIGHTY: Bits32 = 0x42A0_0000;

/// How an ink brush responds to pressure.
#[derive(Clone, Copy, Debug, PartialEq, Eq, Hash, Structural)]
pub struct InkDefinition {
    /// The width at pressure 0%
    pub min_width: Bits32,
    /// The width at pressure 100%
    pub max_width: Bits32,
    /// The distance over which the stroke widens at its start
    pub scale_up_distance: Bits32,
}

impl InkDefinition {
    /// The ink brush used where none was chosen.
    pub open spec fn spec_default() -> InkDefinition {
        InkDefinition { min_width: BITS_QUARTER, max_width: BITS_FIVE, scale_up_distance: BITS_EIGHTY }
    }

    /// The ink brush used where none was chosen.
    pub fn default() -> (r: InkDefinition)
        ensures
            r == Self::spec_default(),
    {
        InkDefinition { min_width: BITS_QUARTER, max_width: BITS_FIVE, scale_up_distance: BITS_EIGHTY }
    }
}

/// Describes a brush.
#[derive(Clone, Copy, Debug, PartialEq, Eq, Hash, Structural)]
pub enum BrushDefinition {
    /// The simplest form of brush
    Simple,
    /// The ink brush
    Ink(InkDefinition),
}

/// Whether a brush adds to the drawing or takes away from it.
#[derive(Clone, Copy, Debug, PartialEq, Eq, Hash, Structural)]
pub enum BrushDrawingStyle {
    Draw,
    Erase,
}

/// A colour with its alpha component.
#[derive(Clone, Copy, Debug, PartialEq, Eq, Hash, Structural)]
pub enum Color {
    Rgba(Bits32, Bits32, Bits32, Bits32),
    Hsluv(Bits32, Bits32, Bits32, Bits32),
}

/// The properties a brush stroke is drawn with.
#[derive(Clone, Copy, Debug, PartialEq, Eq, Hash, Structural)]
pub struct BrushProperties {
    /// The size of the brush stroke
    pub size: Bits32,
    /// The opacity of the brush stroke
    pub opacity: Bits32,
    /// The colour of the brush stroke
    pub color: Color,
}

impl BrushProperties {
    /// The properties used where none were chosen: size 50, fully opaque black.
    pub open spec fn spec_new() -> BrushProperties {
        BrushProperties {
            size: BITS_FIFTY,
            opacity: BITS_ONE,
            color: Color::Rgba(BITS_ZERO, BITS_ZERO, BITS_ZERO, BITS_ONE),
        }
    }

    /// The properties used where none were chosen: size 50, fully opaque black.
    pub fn new() -> (r: BrushProperties)
        ensures
            r == Self::spec_new(),
    {
        BrushProperties {
            size: BITS_FIFTY,
            opacity: BITS_ONE,
            color: Color::Rgba(BITS_ZERO, BITS_ZERO, BITS_ZERO, BITS_ONE),
        }
    }
}

/// A point of input as it came from the user's device.
#[derive(Clone, Copy, Debug, PartialEq, Eq, Hash)]
pub struct RawPoint {
    /// Where the pointer was
    pub position: Coord,
    /// How hard it was pressed
    pub pressure: Bits32,
    /// How it was tilted
    pub tilt: Coord,
}

/// A segment of a brush stroke.
#[derive(Clone, Copy, Debug, PartialEq, Eq, Hash)]
pub struct BrushPoint {
    /// Position of this segment
    pub position: Coord,
    /// First control point for this segment
    pub cp1: Coord,
    /// Second control point for this segment
    pub cp2: Coord,
    /// Width of this segment
    pub width: Bits32,
}

} // verus!
