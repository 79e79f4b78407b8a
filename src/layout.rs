use vstd::prelude::*;
use crate::value::same_text;

verus! {

/// Where content sits along the cross axis of a layout.
#[derive(Clone, Copy, PartialEq, Eq, Structural, Debug)]
pub enum Alignment {
    Min,
    Center,
    Max,
}

/// The layout a container call asks for.
#[derive(Clone, Copy, PartialEq, Eq, Structural, Debug)]
pub enum LayoutChoice {
    LeftToRight(Alignment),
    RightToLeft(Alignment),
    TopDown(Alignment),
    BottomUp(Alignment),
    /// Centered on both axes, filling the space.
    CenteredJustified,
    /// The host's default layout.
    Default,
}

/// The alignment a name stands for: `start`, `center` or `end`; any other
/// name means `start`.
pub open spec fn align_of(s: Seq<char>) -> Alignment {
    if s == "center"@ {
        Alignment::Center
    } else if s == "end"@ {
        Alignment::Max
    } else {
        Alignment::Min
    }
}

/// The layout a name stands for, with `align` on the cross axis; an unknown
/// name gives the default layout.
pub open spec fn layout_of(name: Seq<char>, align: Alignment) -> LayoutChoice {
    if name == "left_to_right"@ {
        LayoutChoice::LeftToRight(align)
    } else if name == "right_to_left"@ {
        LayoutChoice::RightToLeft(align)
    } else if name == "top_down"@ {
        LayoutChoice::TopDown(align)
    } else if name == "bottom_up"@ {
        LayoutChoice::BottomUp(align)
    } else if name == "center_both"@ {
        LayoutChoice::CenteredJustified
    } else {
        LayoutChoice::Default
    }
}

/// The alignment named `s` (see `align_of`).
pub fn to_align(s: &str) -> (r: Alignment)
    ensures
        r == align_of(s@),
{
    if same_text(s, "center") {
        Alignment::Center
    } else if same_text(s, "end") {
        Alignment::Max
    } else {
        Alignment::Min
    }
}

/// The layout named `name` (see `layout_of`).
pub fn layout_named(name: &str, align: Alignment) -> (r: LayoutChoice)
    ensures
        r == layout_of(name@, align),
{
    if same_text(name, "left_to_right") {
        LayoutChoice::LeftToRight(align)
    } else if same_text(name, "right_to_left") {
        LayoutChoice::RightToLeft(align)
    } else if same_text(name, "top_down") {
        LayoutChoice::TopDown(align)
    } else if same_text(name, "bottom_up") {
        LayoutChoice::BottomUp(align)
    } else if same_text(name, "center_both") {
        LayoutChoice::CenteredJustified
    } else {
        LayoutChoice::Default
    }
}

} // verus!
