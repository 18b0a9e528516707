//! What the renderer reports of the pointer over a grid.
use vstd::prelude::*;

verus! {

/// A pointer interaction over the cell at `cell`, a column and a row.
#[derive(Clone, Copy, Debug, PartialEq, Eq)]
pub enum PointerGridEvent {
    /// The pointer rests over the cell, no button pressed.
    Hovered { cell: (usize, usize) },
    /// The primary button was pressed over the cell.
    LeftClick { cell: (usize, usize) },
    /// The secondary button was pressed over the cell.
    RightClick { cell: (usize, usize) },
    /// Both buttons were pressed over the cell at once.
    BothClick { cell: (usize, usize) },
}

impl PointerGridEvent {
    /// The event for the pointer over `cell` with the primary (`left`) and secondary
    /// (`right`) buttons pressed or not.
    pub fn from_buttons(cell: (usize, usize), left: bool, right: bool) -> (r: Self)
        ensures
            r == (if left && right {
                PointerGridEvent::BothClick { cell }
            } else if left {
                PointerGridEvent::LeftClick { cell }
            } else if right {
                PointerGridEvent::RightClick { cell }
            } else {
                PointerGridEvent::Hovered { cell }
            }),
    {
        match (left, right) {
            (true, true) => PointerGridEvent::BothClick { cell },
            (true, false) => PointerGridEvent::LeftClick { cell },
            (false, true) => PointerGridEvent::RightClick { cell },
            (false, false) => PointerGridEvent::Hovered { cell },
        }
    }
}

} // verus!
