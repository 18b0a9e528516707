//! The automaton itself, over a row-major board of cells: the coordinate
//! mapping, the Moore neighbourhood with hard edges, and Conway's rule.
use vstd::arithmetic::div_mod::lemma_fundamental_div_mod_converse;
use vstd::prelude::*;

verus! {

/// The index of column `x`, row `y` on a board `width` cells wide.
pub open spec fn index_of(width: int, x: int, y: int) -> int {
    y * width + x
}

/// The column and row of index `i` on a board `width` cells wide.
pub open spec fn coord_of(width: int, i: int) -> (int, int) {
    (i % width, i / width)
}

/// Whether column `x`, row `y` lies on the board; there is no wraparound.
pub open spec fn in_bounds(width: int, height: int, x: int, y: int) -> bool {
    0 <= x < width && 0 <= y < height
}

/// Whether the cell at column `x`, row `y` is alive; a position off the board reads dead.
pub open spec fn live_at(cells: Seq<bool>, width: int, height: int, x: int, y: int) -> bool {
    in_bounds(width, height, x, y) && cells[index_of(width, x, y)]
}

/// One for a live cell at column `x`, row `y`, zero otherwise.
pub open spec fn live_num(cells: Seq<bool>, width: int, height: int, x: int, y: int) -> int {
    if live_at(cells, width, height, x, y) {
        1
    } else {
        0
    }
}

/// The number of live cells among the eight neighbours of column `x`, row `y`.
pub open spec fn live_count(cells: Seq<bool>, width: int, height: int, x: int, y: int) -> int {
    live_num(cells, width, height, x - 1, y - 1) + live_num(cells, width, height, x, y - 1)
        + live_num(cells, width, height, x + 1, y - 1) + live_num(cells, width, height, x - 1, y)
        + live_num(cells, width, height, x + 1, y) + live_num(cells, width, height, x - 1, y + 1)
        + live_num(cells, width, height, x, y + 1) + live_num(cells, width, height, x + 1, y + 1)
}

/// Conway's rule: birth on exactly three live neighbours, survival on two or three.
pub open spec fn next_alive(alive: bool, neighbors: int) -> bool {
    if alive {
        neighbors == 2 || neighbors == 3
    } else {
        neighbors == 3
    }
}

/// The next generation of a board, every cell computed from the current one.
pub open spec fn next_board(cells: Seq<bool>, width: int, height: int) -> Seq<bool> {
    Seq::new(
        cells.len(),
        |i: int|
            next_alive(
                cells[i],
                live_count(cells, width, height, coord_of(width, i).0, coord_of(width, i).1),
            ),
    )
}

/// A position on the board has an index below `width * height`.
pub proof fn lemma_index_in_bounds(width: int, height: int, x: int, y: int)
    requires
        in_bounds(width, height, x, y),
    ensures
        0 <= index_of(width, x, y) < width * height,
{
    assert(0 <= y * width + x < width * height) by (nonlinear_arith)
        requires
            0 <= x < width,
            0 <= y < height,
    ;
}

/// Index and coordinates are inverse maps: from a position to its index and back,
/// and from an index below `width * height` to its position and back.
pub proof fn lemma_coord_index_inverse(width: int, height: int, x: int, y: int, i: int)
    requires
        0 <= width,
        0 <= height,
    ensures
        in_bounds(width, height, x, y) ==> coord_of(width, index_of(width, x, y)) == (x, y),
        0 <= i < width * height ==> in_bounds(width, height, coord_of(width, i).0, coord_of(width, i).1)
            && index_of(width, coord_of(width, i).0, coord_of(width, i).1) == i,
{
    if in_bounds(width, height, x, y) {
        assert(y * width + x == y * width + x);
        lemma_fundamental_div_mod_converse(y * width + x, width, y, x);
    }
    if 0 <= i < width * height {
        assert(width > 0) by (nonlinear_arith)
            requires
                0 <= i < width * height,
                0 <= height,
        {
        }
        let (x2, y2) = (i % width, i / width);
        vstd::arithmetic::div_mod::lemma_fundamental_div_mod(i, width);
        vstd::arithmetic::div_mod::lemma_mod_pos_bound(i, width);
        assert(i == y2 * width + x2) by (nonlinear_arith)
            requires
                i == width * (i / width) + (i % width),
                x2 == i % width,
                y2 == i / width,
        {
        }
        assert(0 <= y2 < height) by (nonlinear_arith)
            requires
                0 <= i < width * height,
                width > 0,
                0 <= x2 < width,
                i == y2 * width + x2,
        {
        }
    }
}

/// Conway's rule on one cell, given whether it is alive and how many of its neighbours are.
pub fn apply_rule(alive: bool, neighbors: usize) -> (r: bool)
    ensures
        r == next_alive(alive, neighbors as int),
{
    match (alive, neighbors) {
        (false, 3) => true,
        (true, 2) => true,
        (true, 3) => true,
        _ => false,
    }
}

/// One if the neighbour at offset `(dx - 1, dy - 1)` from column `x`, row `y` is alive, zero
/// if it is dead or off the board.
fn neighbor_value(
    cells: &Vec<bool>,
    width: usize,
    height: usize,
    x: usize,
    y: usize,
    dx: usize,
    dy: usize,
) -> (r: usize)
    requires
        cells@.len() == width * height,
        x < width,
        y < height,
        dx <= 2,
        dy <= 2,
    ensures
        r == live_num(cells@, width as int, height as int, x + dx - 1, y + dy - 1),
{
    if (dx == 0 && x == 0) || (dy == 0 && y == 0) {
        return 0;
    }
    let nx: usize = if dx == 0 {
        x - 1
    } else {
        x + (dx - 1)
    };
    let ny: usize = if dy == 0 {
        y - 1
    } else {
        y + (dy - 1)
    };
    if nx >= width || ny >= height {
        return 0;
    }
    let cell_count = cells.len();
    proof {
        lemma_index_in_bounds(width as int, height as int, nx as int, ny as int);
        assert(ny * width <= ny * width + nx < cell_count);
    }
    if cells[ny * width + nx] {
        1
    } else {
        0
    }
}

/// The number of live cells among the eight neighbours of column `x`, row `y` of a
/// row-major board; neighbours off the board are not counted.
pub fn count_live_neighbors(cells: &Vec<bool>, width: usize, height: usize, x: usize, y: usize) -> (r:
    usize)
    requires
        cells@.len() == width * height,
        x < width,
        y < height,
    ensures
        r == live_count(cells@, width as int, height as int, x as int, y as int),
        r <= 8,
{
    let mut count: usize = 0;
    count = count + neighbor_value(cells, width, height, x, y, 0, 0);
    count = count + neighbor_value(cells, width, height, x, y, 1, 0);
    count = count + neighbor_value(cells, width, height, x, y, 2, 0);
    count = count + neighbor_value(cells, width, height, x, y, 0, 1);
    count = count + neighbor_value(cells, width, height, x, y, 2, 1);
    count = count + neighbor_value(cells, width, height, x, y, 0, 2);
    count = count + neighbor_value(cells, width, height, x, y, 1, 2);
    count = count + neighbor_value(cells, width, height, x, y, 2, 2);
    count
}

/// Around a cell whose whole 3 by 3 block is alive, all eight neighbours count.
pub proof fn lemma_full_block_count(cells: Seq<bool>, width: int, height: int, x: int, y: int)
    requires
        cells.len() == width * height,
        1 <= x < width - 1,
        1 <= y < height - 1,
        forall|i: int, j: int|
            x - 1 <= i <= x + 1 && y - 1 <= j <= y + 1 ==> cells[#[trigger] index_of(width, i, j)],
    ensures
        live_count(cells, width, height, x, y) == 8,
{
}

/// At a corner of a board at least 2 by 2, when of its three neighbours only the
/// diagonal one towards the interior is alive, the count is one.
pub proof fn lemma_corner_count(cells: Seq<bool>, width: int, height: int, x: int, y: int)
    requires
        cells.len() == width * height,
        width >= 2,
        height >= 2,
        x == 0 || x == width - 1,
        y == 0 || y == height - 1,
        cells[index_of(width, if x == 0 { 1 } else { width - 2 }, if y == 0 { 1 } else { height - 2 })],
        !cells[index_of(width, if x == 0 { 1 } else { width - 2 }, y)],
        !cells[index_of(width, x, if y == 0 { 1 } else { height - 2 })],
    ensures
        live_count(cells, width, height, x, y) == 1,
{
}

/// On a board with a single live cell, that cell dies, no cell is born, and so the
/// next generation is all dead and differs from the current one.
pub proof fn lemma_lone_cell_dies(cells: Seq<bool>, width: int, height: int, k: int)
    requires
        0 <= width,
        0 <= height,
        cells.len() == width * height,
        0 <= k < cells.len(),
        cells[k],
        forall|j: int| 0 <= j < cells.len() && j != k ==> !cells[j],
    ensures
        next_board(cells, width, height) == Seq::new(cells.len(), |j: int| false),
        next_board(cells, width, height) != cells,
{
    lemma_coord_index_inverse(width, height, 0, 0, k);
    let kx = coord_of(width, k).0;
    let ky = coord_of(width, k).1;
    assert forall|a: int, b: int| #[trigger] live_at(cells, width, height, a, b) implies a == kx
        && b == ky by {
        lemma_coord_index_inverse(width, height, a, b, 0);
        lemma_index_in_bounds(width, height, a, b);
    }
    let next = next_board(cells, width, height);
    assert forall|j: int| 0 <= j < cells.len() implies !#[trigger] next[j] by {
        lemma_coord_index_inverse(width, height, 0, 0, j);
        if j == k {
            assert(coord_of(width, j) == (kx, ky));
        }
    }
    assert(next =~= Seq::new(cells.len(), |j: int| false));
    assert(next[k] != cells[k]);
}

/// A board with no live cell stays as it is: nothing is born and nothing changes.
pub proof fn lemma_dead_board_is_fixed(cells: Seq<bool>, width: int, height: int)
    requires
        0 <= width,
        0 <= height,
        cells.len() == width * height,
        forall|j: int| 0 <= j < cells.len() ==> !cells[j],
    ensures
        next_board(cells, width, height) == cells,
{
    assert forall|a: int, b: int| !#[trigger] live_at(cells, width, height, a, b) by {
        if in_bounds(width, height, a, b) {
            lemma_index_in_bounds(width, height, a, b);
        }
    }
    assert(next_board(cells, width, height) =~= cells);
}

/// A 3 by 3 board whose middle column is alive.
pub open spec fn vertical_bar() -> Seq<bool> {
    seq![false, true, false, false, true, false, false, true, false]
}

/// A 3 by 3 board whose middle row is alive.
pub open spec fn horizontal_bar() -> Seq<bool> {
    seq![false, false, false, true, true, true, false, false, false]
}

/// The blinker oscillates with period two: the middle column of a 3 by 3 board turns
/// into the middle row, and the row turns back into the column.
pub proof fn lemma_blinker_oscillates()
    ensures
        next_board(vertical_bar(), 3, 3) == horizontal_bar(),
        next_board(horizontal_bar(), 3, 3) == vertical_bar(),
        next_board(next_board(vertical_bar(), 3, 3), 3, 3) == vertical_bar(),
        vertical_bar() != horizontal_bar(),
{
    let v = vertical_bar();
    let h = horizontal_bar();
    assert forall|i: int| 0 <= i < 9 implies next_board(v, 3, 3)[i] == h[i] && next_board(h, 3, 3)[i]
        == v[i] by {
        if i == 0 {
        } else if i == 1 {
        } else if i == 2 {
        } else if i == 3 {
        } else if i == 4 {
        } else if i == 5 {
        } else if i == 6 {
        } else if i == 7 {
        } else {
        }
    }
    assert(next_board(v, 3, 3) =~= h);
    assert(next_board(h, 3, 3) =~= v);
    assert(vertical_bar()[1] != horizontal_bar()[1]);
}

/// The text of one cell: a filled square when alive, a dot when dead.
pub open spec fn cell_text(alive: bool) -> Seq<char> {
    if alive {
        " \u{25a0} "@
    } else {
        " \u{2022} "@
    }
}

/// The text of the first `n` cells of a board `width` cells wide: each row starts on a
/// new line.
pub open spec fn board_text_prefix(cells: Seq<bool>, width: int, n: int) -> Seq<char>
    decreases n,
{
    if n <= 0 {
        Seq::empty()
    } else {
        board_text_prefix(cells, width, n - 1) + (if (n - 1) % width == 0 {
            "\n"@
        } else {
            Seq::empty()
        }) + cell_text(cells[n - 1])
    }
}

/// The text of a whole board `width` cells wide.
pub open spec fn board_text(cells: Seq<bool>, width: int) -> Seq<char> {
    board_text_prefix(cells, width, cells.len() as int)
}

fn cell_symbol(alive: bool) -> (r: &'static str)
    ensures
        r@ == cell_text(alive),
{
    if alive {
        " \u{25a0} "
    } else {
        " \u{2022} "
    }
}

/// The board as text, one line per row.
pub fn render_board(cells: &Vec<bool>, width: usize) -> (r: String)
    requires
        width > 0 || cells@.len() == 0,
    ensures
        r@ == board_text(cells@, width as int),
{
    let mut text = String::new();
    let mut i: usize = 0;
    while i < cells.len()
        invariant
            width > 0 || cells@.len() == 0,
            i <= cells@.len(),
            text@ == board_text_prefix(cells@, width as int, i as int),
        decreases cells@.len() - i,
    {
        if i % width == 0 {
            text.append("\n");
        }
        text.append(cell_symbol(cells[i]));
        i += 1;
    }
    text
}

} // verus!
