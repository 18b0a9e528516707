//! The evolution engine: computes a grid's next generation into a fresh buffer,
//! reading only the current generation.
use crate::board::{apply_rule, lemma_coord_index_inverse};
use crate::grid::{Grid, IndexGridError};
use vstd::prelude::*;

verus! {

/// Advances grids by one generation of Conway's Game of Life.
pub struct GridEvolver;

impl GridEvolver {
    /// The cells of the next generation of `grid`, and whether any cell differs from its
    /// current value. Every cell is read from `grid` as it is now; `grid` is not changed.
    pub fn next_generation(grid: &Grid) -> (r: Result<(Vec<bool>, bool), IndexGridError>)
        ensures
            r matches Ok((cells, changed)) && cells@ == grid.successor() && changed == (
            grid.successor() != grid@),
    {
        let cell_count = grid.cells_length();
        let mut next_cells = vec![false; cell_count];
        let mut has_changed = false;
        let mut i: usize = 0;
        while i < cell_count
            invariant
                cell_count == grid@.len(),
                next_cells@.len() == cell_count,
                0 <= i <= cell_count,
                forall|j: int| 0 <= j < i ==> #[trigger] next_cells@[j] == grid.successor()[j],
                has_changed == exists|j: int| 0 <= j < i && #[trigger] grid.successor()[j] != grid@[j],
            decreases cell_count - i,
        {
            let current_cell = grid.get_cell(i)?;
            let next_cell = Self::next_cell_state(grid, i)?;
            next_cells.set(i, next_cell);
            if next_cell != current_cell {
                has_changed = true;
                assert(grid.successor()[i as int] != grid@[i as int]);
            }
            i += 1;
        }
        proof {
            assert(next_cells@ =~= grid.successor());
            if !has_changed {
                assert(grid.successor() =~= grid@);
            }
        }
        Ok((next_cells, has_changed))
    }

    /// The next value of the cell at row-major index `i` of `grid`.
    pub fn next_cell_state(grid: &Grid, i: usize) -> (r: Result<bool, IndexGridError>)
        ensures
            i < grid@.len() ==> r == Ok::<bool, IndexGridError>(grid.successor()[i as int]),
            i >= grid@.len() ==> r == Err::<bool, IndexGridError>(
                IndexGridError::IndexOutOfBounds,
            ),
    {
        let current_state = grid.get_cell(i)?;
        proof {
            lemma_coord_index_inverse(
                grid.spec_width() as int,
                grid.spec_height() as int,
                0,
                0,
                i as int,
            );
        }
        let living_neighbors = grid.count_living_neighbors_at_coord(grid.index_to_coord(i))?;
        Ok(apply_rule(current_state, living_neighbors))
    }
}

} // verus!
