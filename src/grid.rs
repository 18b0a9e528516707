//! The cell store: a fixed-size rectangle of cells, kept in row-major order,
//! with bounds-checked access by index or by coordinate.
use crate::board::{
    board_text, coord_of, count_live_neighbors, in_bounds, index_of, lemma_index_in_bounds,
    live_count, next_board, render_board,
};
use vstd::prelude::*;

verus! {

/// Why an access to a grid was refused.
#[derive(Clone, Copy, Debug, PartialEq, Eq)]
pub enum IndexGridError {
    /// The index or the coordinate lies outside the grid.
    IndexOutOfBounds,
    /// A replacement of all cells did not hold one value per cell.
    IncompatibleCellCount,
}

/// A grid of live (`true`) and dead (`false`) cells. Its dimensions are fixed when it is
/// made; a grid of zero width or height is allowed, and then every access is out of bounds.
#[derive(Debug)]
pub struct Grid {
    cells: Vec<bool>,
    width: usize,
    height: usize,
}

impl View for Grid {
    type V = Seq<bool>;

    /// The cells in row-major order: the cell at column `x`, row `y` is at `y * width + x`.
    closed spec fn view(&self) -> Seq<bool> {
        self.cells@
    }
}

impl Grid {
    #[verifier::type_invariant]
    spec fn well_formed(&self) -> bool {
        self.cells@.len() == self.width * self.height
    }

    /// The number of columns.
    pub closed spec fn spec_width(&self) -> usize {
        self.width
    }

    /// The number of rows.
    pub closed spec fn spec_height(&self) -> usize {
        self.height
    }

    /// Whether column `x`, row `y` lies on this grid.
    pub open spec fn holds_coord(&self, x: int, y: int) -> bool {
        in_bounds(self.spec_width() as int, self.spec_height() as int, x, y)
    }

    /// The cell at column `x`, row `y`.
    pub open spec fn cell(&self, x: int, y: int) -> bool {
        self@[index_of(self.spec_width() as int, x, y)]
    }

    /// The cells of the generation that follows this one.
    pub open spec fn successor(&self) -> Seq<bool> {
        next_board(self@, self.spec_width() as int, self.spec_height() as int)
    }

    /// A grid of the given dimensions whose cells are all dead.
    pub fn new(width: usize, height: usize) -> (r: Self)
        requires
            width * height <= usize::MAX,
        ensures
            r.spec_width() == width,
            r.spec_height() == height,
            r@.len() == width * height,
            forall|i: int| 0 <= i < r@.len() ==> !#[trigger] r@[i],
    {
        let cells = vec![false; width * height];
        Grid { cells, width, height }
    }

    /// The number of columns.
    pub fn width(&self) -> (r: usize)
        ensures
            r == self.spec_width(),
    {
        self.width
    }

    /// The number of rows.
    pub fn height(&self) -> (r: usize)
        ensures
            r == self.spec_height(),
    {
        self.height
    }

    /// Replaces every cell at once; refused, with the grid left as it was, unless
    /// `cells` holds exactly one value per cell.
    pub fn set_cells(&mut self, cells: Vec<bool>) -> (r: Result<(), IndexGridError>)
        ensures
            final(self).spec_width() == old(self).spec_width(),
            final(self).spec_height() == old(self).spec_height(),
            final(self)@.len() == old(self).spec_width() * old(self).spec_height(),
            cells@.len() == old(self).spec_width() * old(self).spec_height() ==> r is Ok
                && final(self)@ == cells@,
            cells@.len() != old(self).spec_width() * old(self).spec_height() ==> r == Err::<
                (),
                IndexGridError,
            >(IndexGridError::IncompatibleCellCount) && final(self)@ == old(self)@,
    {
        proof {
            use_type_invariant(&*self);
        }
        if cells.len() != self.cells_length() {
            return Err(IndexGridError::IncompatibleCellCount);
        }
        self.cells = cells;
        Ok(())
    }

    /// The cell at row-major index `i`.
    pub fn get_cell(&self, i: usize) -> (r: Result<bool, IndexGridError>)
        ensures
            self@.len() == self.spec_width() * self.spec_height(),
            i < self@.len() ==> r == Ok::<bool, IndexGridError>(self@[i as int]),
            i >= self@.len() ==> r == Err::<bool, IndexGridError>(IndexGridError::IndexOutOfBounds),
    {
        proof {
            use_type_invariant(self);
        }
        if !self.is_index_inbounds(i) {
            return Err(IndexGridError::IndexOutOfBounds);
        }
        Ok(self.cells[i])
    }

    /// The cell at `coord`, a column and a row.
    pub fn get_cell_at_coord(&self, coord: (usize, usize)) -> (r: Result<bool, IndexGridError>)
        ensures
            self.holds_coord(coord.0 as int, coord.1 as int) ==> r == Ok::<bool, IndexGridError>(
                self.cell(coord.0 as int, coord.1 as int),
            ),
            !self.holds_coord(coord.0 as int, coord.1 as int) ==> r == Err::<bool, IndexGridError>(
                IndexGridError::IndexOutOfBounds,
            ),
    {
        proof {
            use_type_invariant(self);
        }
        if !self.is_coord_inbounds(coord) {
            return Err(IndexGridError::IndexOutOfBounds);
        }
        proof {
            lemma_index_in_bounds(self.width as int, self.height as int, coord.0 as int, coord.1 as int);
            assert(self.cells@.len() == self.cells.len());
        }
        self.get_cell(self.coord_to_index(coord))
    }

    /// Sets the cell at `coord`, a column and a row; the other cells keep their values.
    pub fn set_cell_at_coord(&mut self, coord: (usize, usize), value: bool) -> (r: Result<
        (),
        IndexGridError,
    >)
        ensures
            final(self).spec_width() == old(self).spec_width(),
            final(self).spec_height() == old(self).spec_height(),
            old(self).holds_coord(coord.0 as int, coord.1 as int) ==> r is Ok && final(self)@
                == old(self)@.update(
                index_of(old(self).spec_width() as int, coord.0 as int, coord.1 as int),
                value,
            ),
            !old(self).holds_coord(coord.0 as int, coord.1 as int) ==> r == Err::<
                (),
                IndexGridError,
            >(IndexGridError::IndexOutOfBounds) && final(self)@ == old(self)@,
    {
        proof {
            use_type_invariant(&*self);
        }
        if !self.is_coord_inbounds(coord) {
            return Err(IndexGridError::IndexOutOfBounds);
        }
        proof {
            lemma_index_in_bounds(self.width as int, self.height as int, coord.0 as int, coord.1 as int);
            assert(self.cells@.len() == self.cells.len());
        }
        let i = self.coord_to_index(coord);
        self.set_cell(i, value)
    }

    /// Sets the cell at row-major index `i`; the other cells keep their values.
    pub fn set_cell(&mut self, i: usize, value: bool) -> (r: Result<(), IndexGridError>)
        ensures
            final(self).spec_width() == old(self).spec_width(),
            final(self).spec_height() == old(self).spec_height(),
            i < old(self)@.len() ==> r is Ok && final(self)@ == old(self)@.update(i as int, value),
            i >= old(self)@.len() ==> r == Err::<(), IndexGridError>(
                IndexGridError::IndexOutOfBounds,
            ) && final(self)@ == old(self)@,
    {
        proof {
            use_type_invariant(&*self);
        }
        if !self.is_index_inbounds(i) {
            return Err(IndexGridError::IndexOutOfBounds);
        }
        self.cells[i] = value;
        Ok(())
    }

    /// Flips the cell at `coord`, a column and a row, from live to dead or back; the other
    /// cells keep their values.
    pub fn toggle_cell_at_coord(&mut self, coord: (usize, usize)) -> (r: Result<(), IndexGridError>)
        ensures
            final(self).spec_width() == old(self).spec_width(),
            final(self).spec_height() == old(self).spec_height(),
            old(self).holds_coord(coord.0 as int, coord.1 as int) ==> r is Ok && final(self)@
                == old(self)@.update(
                index_of(old(self).spec_width() as int, coord.0 as int, coord.1 as int),
                !old(self).cell(coord.0 as int, coord.1 as int),
            ),
            !old(self).holds_coord(coord.0 as int, coord.1 as int) ==> r == Err::<
                (),
                IndexGridError,
            >(IndexGridError::IndexOutOfBounds) && final(self)@ == old(self)@,
    {
        match self.get_cell_at_coord(coord) {
            Ok(value) => self.set_cell_at_coord(coord, !value),
            Err(e) => Err(e),
        }
    }

    /// The column and row of row-major index `i`.
    pub fn index_to_coord(&self, i: usize) -> (r: (usize, usize))
        requires
            self.spec_width() > 0,
        ensures
            r.0 as int == coord_of(self.spec_width() as int, i as int).0,
            r.1 as int == coord_of(self.spec_width() as int, i as int).1,
    {
        (i % self.width, i / self.width)
    }

    /// The row-major index of `coord`, a column and a row.
    pub fn coord_to_index(&self, coord: (usize, usize)) -> (r: usize)
        requires
            index_of(self.spec_width() as int, coord.0 as int, coord.1 as int) <= usize::MAX,
        ensures
            r as int == index_of(self.spec_width() as int, coord.0 as int, coord.1 as int),
    {
        let (x, y) = coord;
        proof {
            assert(y * self.width <= y * self.width + x);
        }
        y * self.width + x
    }

    /// The number of live cells among the eight neighbours of `coord`; neighbours that
    /// would lie off the grid are not counted.
    pub fn count_living_neighbors_at_coord(&self, coord: (usize, usize)) -> (r: Result<
        usize,
        IndexGridError,
    >)
        ensures
            self.holds_coord(coord.0 as int, coord.1 as int) ==> (r matches Ok(n) && n as int
                == live_count(
                self@,
                self.spec_width() as int,
                self.spec_height() as int,
                coord.0 as int,
                coord.1 as int,
            )),
            !self.holds_coord(coord.0 as int, coord.1 as int) ==> r == Err::<
                usize,
                IndexGridError,
            >(IndexGridError::IndexOutOfBounds),
    {
        proof {
            use_type_invariant(self);
        }
        if !self.is_coord_inbounds(coord) {
            return Err(IndexGridError::IndexOutOfBounds);
        }
        Ok(count_live_neighbors(&self.cells, self.width, self.height, coord.0, coord.1))
    }

    /// The number of cells, `width * height`.
    pub fn cells_length(&self) -> (r: usize)
        ensures
            r == self@.len(),
            r == self.spec_width() * self.spec_height(),
    {
        proof {
            use_type_invariant(self);
        }
        self.cells.len()
    }

    /// Whether `i` is the row-major index of a cell.
    pub fn is_index_inbounds(&self, i: usize) -> (r: bool)
        ensures
            r == (i < self@.len()),
    {
        i < self.cells_length()
    }

    /// The grid as text: each row on a new line, a filled square for a live cell and a
    /// dot for a dead one.
    pub fn render(&self) -> (r: String)
        ensures
            r@ == board_text(self@, self.spec_width() as int),
    {
        proof {
            use_type_invariant(self);
        }
        render_board(&self.cells, self.width)
    }

    /// Whether `coord`, a column and a row, lies on the grid.
    pub fn is_coord_inbounds(&self, coord: (usize, usize)) -> (r: bool)
        ensures
            r == self.holds_coord(coord.0 as int, coord.1 as int),
    {
        let (x, y) = coord;
        x < self.width && y < self.height
    }
}

} // verus!
