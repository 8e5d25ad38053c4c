//! Depth and stencil test settings of a pipeline.
use vstd::prelude::*;

verus! {

/// How the depth test of a pipeline behaves.
#[derive(Debug, Copy, Clone, PartialEq, Eq, Structural)]
pub struct DepthStencil {
    /// Whether the depth of passing fragments is written.
    pub depth_write: bool,
    /// How a fragment's depth is compared with the stored one.
    pub depth_compare: Compare,
    /// Whether the depth-bounds test is enabled.
    pub depth_bounds_test: bool,
}

/// Specifies how two values should be compared to decide whether a test passes or fails.
///
/// Used for both depth testing and stencil testing.
#[derive(Debug, Copy, Clone, PartialEq, Eq, Structural)]
pub enum Compare {
    /// The test never passes.
    Never,
    /// The test passes if `value < reference_value`.
    Less,
    /// The test passes if `value == reference_value`.
    Equal,
    /// The test passes if `value <= reference_value`.
    LessOrEqual,
    /// The test passes if `value > reference_value`.
    Greater,
    /// The test passes if `value != reference_value`.
    NotEqual,
    /// The test passes if `value >= reference_value`.
    GreaterOrEqual,
    /// The test always passes.
    Always,
}

impl Compare {
    /// The native code of the comparison.
    pub open spec fn code(self) -> u32 {
        match self {
            Compare::Never => 0,
            Compare::Less => 1,
            Compare::Equal => 2,
            Compare::LessOrEqual => 3,
            Compare::Greater => 4,
            Compare::NotEqual => 5,
            Compare::GreaterOrEqual => 6,
            Compare::Always => 7,
        }
    }

    /// Turns the comparison into the corresponding native constant.
    pub fn vk_enum(&self) -> (r: u32)
        ensures
            r == self.code(),
    {
        match *self {
            Compare::Never => 0,
            Compare::Less => 1,
            Compare::Equal => 2,
            Compare::LessOrEqual => 3,
            Compare::Greater => 4,
            Compare::NotEqual => 5,
            Compare::GreaterOrEqual => 6,
            Compare::Always => 7,
        }
    }
}

} // verus!
