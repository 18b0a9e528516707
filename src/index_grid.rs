//! A grid with open fields that also computes its own next generation.
use crate::board::{
    apply_rule, board_text, coord_of, count_live_neighbors, in_bounds, index_of,
    lemma_coord_index_inverse, lemma_index_in_bounds, live_count, next_board, render_board,
};
use vstd::prelude::*;

verus! {

/// Why an access to an [`IndexGrid`] was refused.
#[derive(Clone, Copy, Debug, PartialEq, Eq)]
pub enum IndexGridError {
    /// The index or the coordinate lies outside the grid.
    IndexOutOfBounds,
}

/// A grid of live (`true`) and dead (`false`) cells in row-major order. Its fields are
/// open; the operations ask that `cells` hold `width * height` values.
#[derive(Clone, Debug)]
pub struct IndexGrid {
    pub cells: Vec<bool>,
    pub width: usize,
    pub height: usize,
}

impl IndexGrid {
    /// One value per cell.
    pub open spec fn wf(&self) -> bool {
        self.cells@.len() == self.width * self.height
    }

    /// Whether column `x`, row `y` lies on this grid.
    pub open spec fn holds_coord(&self, x: int, y: int) -> bool {
        in_bounds(self.width as int, self.height as int, x, y)
    }

    /// The cell at column `x`, row `y`.
    pub open spec fn cell(&self, x: int, y: int) -> bool {
        self.cells@[index_of(self.width as int, x, y)]
    }

    /// The cells of the generation that follows this one.
    pub open spec fn successor(&self) -> Seq<bool> {
        next_board(self.cells@, self.width as int, self.height as int)
    }

    /// A grid of the given dimensions whose cells are all dead.
    pub fn new(width: usize, height: usize) -> (r: Self)
        requires
            width * height <= usize::MAX,
        ensures
            r.wf(),
            r.width == width,
            r.height == height,
            forall|i: int| 0 <= i < r.cells@.len() ==> !#[trigger] r.cells@[i],
    {
        IndexGrid { cells: vec![false; width * height], width, height }
    }

    /// The cell at row-major index `i`.
    pub fn get_cell(&self, i: usize) -> (r: Result<bool, IndexGridError>)
        requires
            self.wf(),
        ensures
            i < self.cells@.len() ==> r == Ok::<bool, IndexGridError>(self.cells@[i as int]),
            i >= self.cells@.len() ==> r == Err::<bool, IndexGridError>(
                IndexGridError::IndexOutOfBounds,
            ),
    {
        if !self.is_index_inbounds(i) {
            return Err(IndexGridError::IndexOutOfBounds);
        }
        Ok(self.cells[i])
    }

    /// The cell at `coord`, a column and a row.
    pub fn get_cell_at_coord(&self, coord: (usize, usize)) -> (r: Result<bool, IndexGridError>)
        requires
            self.wf(),
        ensures
            self.holds_coord(coord.0 as int, coord.1 as int) ==> r == Ok::<bool, IndexGridError>(
                self.cell(coord.0 as int, coord.1 as int),
            ),
            !self.holds_coord(coord.0 as int, coord.1 as int) ==> r == Err::<bool, IndexGridError>(
                IndexGridError::IndexOutOfBounds,
            ),
    {
        if !self.is_coord_inbounds(coord) {
            return Err(IndexGridError::IndexOutOfBounds);
        }
        proof {
            lemma_index_in_bounds(self.width as int, self.height as int, coord.0 as int, coord.1 as int);
            assert(self.cells@.len() == self.cells.len());
        }
        self.get_cell(self.coord_to_index(coord))
    }

    /// Sets the cell at row-major index `i`; the other cells keep their values.
    pub fn set_cell(&mut self, i: usize, value: bool) -> (r: Result<(), IndexGridError>)
        requires
            old(self).wf(),
        ensures
            final(self).wf(),
            final(self).width == old(self).width,
            final(self).height == old(self).height,
            i < old(self).cells@.len() ==> r is Ok && final(self).cells@ == old(self).cells@.update(
                i as int,
                value,
            ),
            i >= old(self).cells@.len() ==> r == Err::<(), IndexGridError>(
                IndexGridError::IndexOutOfBounds,
            ) && final(self).cells@ == old(self).cells@,
    {
        if !self.is_index_inbounds(i) {
            return Err(IndexGridError::IndexOutOfBounds);
        }
        self.cells.set(i, value);
        Ok(())
    }

    /// Sets the cell at `coord`, a column and a row; the other cells keep their values.
    pub fn set_cell_at_coord(&mut self, coord: (usize, usize), value: bool) -> (r: Result<
        (),
        IndexGridError,
    >)
        requires
            old(self).wf(),
        ensures
            final(self).wf(),
            final(self).width == old(self).width,
            final(self).height == old(self).height,
            old(self).holds_coord(coord.0 as int, coord.1 as int) ==> r is Ok && final(self).cells@
                == old(self).cells@.update(
                index_of(old(self).width as int, coord.0 as int, coord.1 as int),
                value,
            ),
            !old(self).holds_coord(coord.0 as int, coord.1 as int) ==> r == Err::<
                (),
                IndexGridError,
            >(IndexGridError::IndexOutOfBounds) && final(self).cells@ == old(self).cells@,
    {
        if !self.is_coord_inbounds(coord) {
            return Err(IndexGridError::IndexOutOfBounds);
        }
        proof {
            lemma_index_in_bounds(self.width as int, self.height as int, coord.0 as int, coord.1 as int);
            assert(self.cells@.len() == self.cells.len());
        }
        let i = self.coord_to_index(coord);
        self.set_cell(i, value)
    }

    /// The column and row of row-major index `i`.
    pub fn index_to_coord(&self, i: usize) -> (r: (usize, usize))
        requires
            self.width > 0,
        ensures
            r.0 as int == coord_of(self.width as int, i as int).0,
            r.1 as int == coord_of(self.width as int, i as int).1,
    {
        (i % self.width, i / self.width)
    }

    /// The row-major index of `coord`, a column and a row.
    pub fn coord_to_index(&self, coord: (usize, usize)) -> (r: usize)
        requires
            index_of(self.width as int, coord.0 as int, coord.1 as int) <= usize::MAX,
        ensures
            r as int == index_of(self.width as int, coord.0 as int, coord.1 as int),
    {
        let (x, y) = coord;
        proof {
            assert(y * self.width <= y * self.width + x);
        }
        y * self.width + x
    }

    /// The number of live cells among the eight neighbours of `coord`; neighbours that
    /// would lie off the grid are not counted.
    pub fn count_living_neighbors_at_coord(&self, coord: (usize, usize)) -> (r: Result<
        usize,
        IndexGridError,
    >)
        requires
            self.wf(),
        ensures
            self.holds_coord(coord.0 as int, coord.1 as int) ==> (r matches Ok(n) && n as int
                == live_count(
                self.cells@,
                self.width as int,
                self.height as int,
                coord.0 as int,
                coord.1 as int,
            )),
            !self.holds_coord(coord.0 as int, coord.1 as int) ==> r == Err::<
                usize,
                IndexGridError,
            >(IndexGridError::IndexOutOfBounds),
    {
        if !self.is_coord_inbounds(coord) {
            return Err(IndexGridError::IndexOutOfBounds);
        }
        Ok(count_live_neighbors(&self.cells, self.width, self.height, coord.0, coord.1))
    }

    /// Whether `i` is the row-major index of a cell.
    pub fn is_index_inbounds(&self, i: usize) -> (r: bool)
        requires
            self.wf(),
        ensures
            r == (i < self.cells@.len()),
    {
        i < self.cells.len()
    }

    /// The grid as text: each row on a new line, a filled square for a live cell and a
    /// dot for a dead one.
    pub fn render(&self) -> (r: String)
        requires
            self.wf(),
        ensures
            r@ == board_text(self.cells@, self.width as int),
    {
        render_board(&self.cells, self.width)
    }

    /// Whether `coord`, a column and a row, lies on the grid.
    pub fn is_coord_inbounds(&self, coord: (usize, usize)) -> (r: bool)
        ensures
            r == self.holds_coord(coord.0 as int, coord.1 as int),
    {
        let (x, y) = coord;
        x < self.width && y < self.height
    }

    /// The next value of the cell at row-major index `i`.
    pub fn next_cell(&self, i: usize) -> (r: Result<bool, IndexGridError>)
        requires
            self.wf(),
        ensures
            i < self.cells@.len() ==> r == Ok::<bool, IndexGridError>(self.successor()[i as int]),
            i >= self.cells@.len() ==> r == Err::<bool, IndexGridError>(
                IndexGridError::IndexOutOfBounds,
            ),
    {
        let current_state = self.get_cell(i)?;
        proof {
            lemma_coord_index_inverse(self.width as int, self.height as int, 0, 0, i as int);
        }
        let living_neighbors = self.count_living_neighbors_at_coord(self.index_to_coord(i))?;
        Ok(apply_rule(current_state, living_neighbors))
    }

    /// The cells of the next generation, and whether any cell differs from its current
    /// value. Every cell is read from the grid as it is now; the grid is not changed.
    pub fn next_cells_with_change_info(&self) -> (r: Result<(Vec<bool>, bool), IndexGridError>)
        requires
            self.wf(),
        ensures
            r matches Ok((cells, changed)) && cells@ == self.successor() && changed == (
            self.successor() != self.cells@),
    {
        let cell_count = self.cells.len();
        let mut next_cells = vec![false; cell_count];
        let mut has_changed = false;
        let mut i: usize = 0;
        while i < cell_count
            invariant
                self.wf(),
                cell_count == self.cells@.len(),
                next_cells@.len() == cell_count,
                0 <= i <= cell_count,
                forall|j: int| 0 <= j < i ==> #[trigger] next_cells@[j] == self.successor()[j],
                has_changed == exists|j: int|
                    0 <= j < i && #[trigger] self.successor()[j] != self.cells@[j],
            decreases cell_count - i,
        {
            let current_cell = self.get_cell(i)?;
            let next_cell = self.next_cell(i)?;
            next_cells.set(i, next_cell);
            if next_cell != current_cell {
                has_changed = true;
                assert(self.successor()[i as int] != self.cells@[i as int]);
            }
            i += 1;
        }
        proof {
            assert(next_cells@ =~= self.successor());
            if !has_changed {
                assert(self.successor() =~= self.cells@);
            }
        }
        Ok((next_cells, has_changed))
    }
}

} // verus!
