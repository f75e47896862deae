//! Layout vocabulary shared by the containers, dividers and sliders.
use vstd::prelude::*;

verus! {

/// How children are positioned and sized along the cross axis of a row or
/// column.
#[derive(Debug, Clone, Copy, PartialEq, Eq, Default, Structural)]
pub enum CrossAlign {
    #[default]
    Start,
    Center,
    End,
    /// Flush to the cross-axis start, sized to fill the container's entire
    /// cross extent.
    Stretch,
}

/// Which axis a divider rule runs along.
#[derive(Debug, Clone, Copy, PartialEq, Eq, Default, Structural)]
pub enum Orientation {
    /// A horizontal rule; insets apply to its left/right edges.
    #[default]
    Horizontal,
    /// A vertical rule; insets apply to its top/bottom edges.
    Vertical,
}

#[derive(Debug, Clone, Copy, PartialEq, Eq, Default, Structural)]
pub enum SliderSize {
    #[default]
    ExtraSmall,
    Small,
    Medium,
    Large,
    ExtraLarge,
}

impl SliderSize {
    pub open spec fn track_height_spec(self) -> u32 {
        match self {
            SliderSize::ExtraSmall => 16u32,
            SliderSize::Small => 24,
            SliderSize::Medium => 40,
            SliderSize::Large => 56,
            SliderSize::ExtraLarge => 96,
        }
    }

    /// Track height in dp.
    #[verifier::when_used_as_spec(track_height_spec)]
    pub fn track_height(self) -> (r: u32)
        ensures
            r == match self {
                SliderSize::ExtraSmall => 16u32,
                SliderSize::Small => 24,
                SliderSize::Medium => 40,
                SliderSize::Large => 56,
                SliderSize::ExtraLarge => 96,
            },
    {
        match self {
            SliderSize::ExtraSmall => 16,
            SliderSize::Small => 24,
            SliderSize::Medium => 40,
            SliderSize::Large => 56,
            SliderSize::ExtraLarge => 96,
        }
    }

    /// The handle overhangs the track, and never drops below 44dp so it
    /// stays grabbable at the thin sizes.
    pub fn handle_height(self) -> (r: u32)
        ensures
            r == match self {
                SliderSize::ExtraSmall | SliderSize::Small => 44u32,
                SliderSize::Medium => 52,
                SliderSize::Large => 68,
                SliderSize::ExtraLarge => 108,
            },
            r >= 44,
            r > self.track_height(),
    {
        match self {
            SliderSize::ExtraSmall | SliderSize::Small => 44,
            SliderSize::Medium => 52,
            SliderSize::Large => 68,
            SliderSize::ExtraLarge => 108,
        }
    }

    /// Tracks use the `full` shape token on their outer edges: half the
    /// track height.
    pub fn corner_radius(self) -> (r: u32)
        ensures
            2 * r == self.track_height(),
    {
        self.track_height() / 2
    }
}

} // verus!
