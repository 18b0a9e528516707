//! A simulation session: one grid and the count of generations it has been advanced.
use crate::board::{board_text, index_of};
use crate::grid::{Grid, IndexGridError};
use crate::grid_evolver::GridEvolver;
use vstd::prelude::*;

verus! {

/// The decimal digit `d`, for `d` below ten.
pub open spec fn digit_text(d: nat) -> Seq<char> {
    if d == 0 {
        "0"@
    } else if d == 1 {
        "1"@
    } else if d == 2 {
        "2"@
    } else if d == 3 {
        "3"@
    } else if d == 4 {
        "4"@
    } else if d == 5 {
        "5"@
    } else if d == 6 {
        "6"@
    } else if d == 7 {
        "7"@
    } else if d == 8 {
        "8"@
    } else {
        "9"@
    }
}

/// `n` written in decimal, without leading zeros.
pub open spec fn decimal_text(n: nat) -> Seq<char>
    decreases n,
{
    if n < 10 {
        digit_text(n)
    } else {
        decimal_text(n / 10) + digit_text(n % 10)
    }
}

fn digit(d: u32) -> (r: &'static str)
    requires
        d < 10,
    ensures
        r@ == digit_text(d as nat),
{
    match d {
        0 => "0",
        1 => "1",
        2 => "2",
        3 => "3",
        4 => "4",
        5 => "5",
        6 => "6",
        7 => "7",
        8 => "8",
        _ => "9",
    }
}

fn decimal(n: u32) -> (r: String)
    ensures
        r@ == decimal_text(n as nat),
    decreases n,
{
    if n < 10 {
        String::from_str(digit(n))
    } else {
        let mut text = decimal(n / 10);
        text.append(digit(n % 10));
        text
    }
}

/// A grid together with the number of generations applied to it so far.
#[derive(Debug)]
pub struct Game {
    generation: u32,
    pub grid: Grid,
}

impl Game {
    /// The number of generations applied so far.
    pub closed spec fn spec_generation(&self) -> u32 {
        self.generation
    }

    /// The grid of this session.
    pub closed spec fn spec_grid(&self) -> Grid {
        self.grid
    }

    /// A session on `grid`, at generation zero.
    pub fn new(grid: Grid) -> (r: Self)
        ensures
            r.spec_grid() == grid,
            r.spec_generation() == 0,
    {
        Game { generation: 0, grid }
    }

    /// The number of generations applied so far.
    pub fn generation(&self) -> (r: u32)
        ensures
            r == self.spec_generation(),
    {
        self.generation
    }

    /// Flips the cell of the grid at `coord`, a column and a row; the other cells and the
    /// generation count keep their values.
    pub fn toggle_cell_at_coord(&mut self, coord: (usize, usize)) -> (r: Result<(), IndexGridError>)
        ensures
            final(self).spec_generation() == old(self).spec_generation(),
            final(self).spec_grid().spec_width() == old(self).spec_grid().spec_width(),
            final(self).spec_grid().spec_height() == old(self).spec_grid().spec_height(),
            old(self).spec_grid().holds_coord(coord.0 as int, coord.1 as int) ==> r is Ok
                && final(self).spec_grid()@ == old(self).spec_grid()@.update(
                index_of(old(self).spec_grid().spec_width() as int, coord.0 as int, coord.1 as int),
                !old(self).spec_grid().cell(coord.0 as int, coord.1 as int),
            ),
            !old(self).spec_grid().holds_coord(coord.0 as int, coord.1 as int) ==> r == Err::<
                (),
                IndexGridError,
            >(IndexGridError::IndexOutOfBounds) && final(self).spec_grid()@ == old(self).spec_grid()@,
    {
        self.grid.toggle_cell_at_coord(coord)
    }

    /// The generation count on a first line, then the grid as text.
    pub fn render(&self) -> (r: String)
        ensures
            r@ == "gen: "@ + decimal_text(self.spec_generation() as nat) + "\n"@
                + board_text(self.spec_grid()@, self.spec_grid().spec_width() as int),
    {
        let mut text = String::from_str("gen: ");
        text.append(decimal(self.generation).as_str());
        text.append("\n");
        text.append(self.grid.render().as_str());
        text
    }

    /// Replaces the grid's cells by its next generation and counts one more generation.
    /// Returns whether any cell changed.
    pub fn tick(&mut self) -> (changed: bool)
        requires
            old(self).spec_generation() < u32::MAX,
        ensures
            final(self).spec_grid()@ == old(self).spec_grid().successor(),
            final(self).spec_grid().spec_width() == old(self).spec_grid().spec_width(),
            final(self).spec_grid().spec_height() == old(self).spec_grid().spec_height(),
            final(self).spec_generation() == old(self).spec_generation() + 1,
            changed == (old(self).spec_grid().successor() != old(self).spec_grid()@),
    {
        let (new_cells, changed) = GridEvolver::next_generation(&self.grid).unwrap();
        let applied = self.grid.set_cells(new_cells);
        assert(applied is Ok);
        self.generation = self.generation + 1;
        changed
    }
}

} // verus!
