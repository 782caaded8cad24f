use vstd::prelude::*;
use tui::layout::{Constraint, Direction, Layout, Rect};

verus! {

/// A rectangle of terminal cells: its top-left corner and its size.
#[derive(Clone, Copy, Debug, PartialEq, Eq, Structural)]
pub struct Region {
    pub x: u16,
    pub y: u16,
    pub width: u16,
    pub height: u16,
}

/// How tall a band of a vertical split wants to be.
#[derive(Clone, Copy, Debug, PartialEq, Eq, Structural)]
pub enum SizeRule {
    /// Exactly this many rows.
    Length(u16),
    /// At least this many rows.
    Min(u16),
}

/// The row just below the area that remains inside a margin of `margin`
/// cells: an area too small for the margin leaves an empty area at the origin.
pub open spec fn inner_bottom(area: Region, margin: u16) -> int {
    if area.width < 2 * margin || area.height < 2 * margin {
        0
    } else {
        area.y + area.height - margin
    }
}

/// Relies on `tui::layout::Layout::split` with a vertical direction: it
/// returns one rectangle per constraint, in order, and stretches the last one
/// down to the bottom of the area left inside the margin. Which rectangles
/// come back where the size wishes conflict depends on the solver's hash-map
/// order, so nothing more is stated. An area that reaches past the largest
/// coordinate makes the solver's required constraints unsatisfiable, which
/// panics, hence the bounds.
#[verifier::external_body]
fn split_vertical(area: Region, margin: u16, rules: &Vec<SizeRule>) -> (r: Vec<Region>)
    requires
        area.x + area.width <= u16::MAX,
        area.y + area.height <= u16::MAX,
        2 * margin <= u16::MAX,
    ensures
        r@.len() == rules@.len(),
        r@.len() > 0 ==> r@.last().y + r@.last().height == inner_bottom(area, margin),
{
    let constraints: Vec<Constraint> = rules.iter().map(|c| match *c {
        SizeRule::Length(n) => Constraint::Length(n),
        SizeRule::Min(n) => Constraint::Min(n),
    }).collect();
    let outer = Rect { x: area.x, y: area.y, width: area.width, height: area.height };
    let layout = Layout::default().direction(Direction::Vertical).margin(margin);
    let bands = layout.constraints(constraints).split(outer);
    bands.iter().map(|b| Region { x: b.x, y: b.y, width: b.width, height: b.height }).collect()
}

/// The margin, in cells, kept free on every side of the screen.
pub const SCREEN_MARGIN: u16 = 2;

/// The three regions of the screen.
#[derive(Clone, Copy, Debug, PartialEq, Eq, Structural)]
pub struct Screen {
    pub help: Region,
    pub messages: Region,
    pub input: Region,
}

/// Splits the whole terminal area, inside the margin, into a one-row help
/// line, the message list taking at least one row, and a three-row input box
/// that reaches down to the bottom margin. The area must lie within the
/// coordinate range.
pub fn screen_layout(area: Region) -> (r: Screen)
    requires
        area.x + area.width <= u16::MAX,
        area.y + area.height <= u16::MAX,
    ensures
        r.input.y + r.input.height == inner_bottom(area, SCREEN_MARGIN),
{
    let rules: Vec<SizeRule> = vec![SizeRule::Length(1), SizeRule::Min(1), SizeRule::Length(3)];
    let bands = split_vertical(area, SCREEN_MARGIN, &rules);
    Screen { help: bands[0], messages: bands[1], input: bands[2] }
}

} // verus!
