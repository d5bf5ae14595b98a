use vstd::prelude::*;

use crate::piece::{point, points, Color, Tetromino};

verus! {

/// Number of columns of the playfield.
pub const WIDTH: usize = 10;

/// Number of rows of the playfield; row 0 is the top.
pub const HEIGHT: usize = 20;

/// One square of the playfield.
#[derive(Clone, Copy, Debug, PartialEq, Eq, Structural)]
pub struct Cell {
    pub color: Option<Color>,
    pub occupied: bool,
}

/// The playfield, indexed `[row][column]`.
pub type Board = [[Cell; 10]; 20];

/// Whether the square at column `x`, row `y` stops a piece: outside the side walls,
/// at or below the floor, or an occupied square on the field. Rows above the top are free.
pub open spec fn blocked(map: Board, x: int, y: int) -> bool {
    x < 0 || x >= 10 || y >= 20 || (y >= 0 && map[y][x].occupied)
}

/// Whether cells anchored at `(x, y)` overlap a blocked square.
pub open spec fn collides_pts(pts: Seq<(int, int)>, x: int, y: int, map: Board) -> bool {
    exists|i: int| 0 <= i < pts.len() && #[trigger] blocked(map, pts[i].0 + x, pts[i].1 + y)
}

/// Whether a grid of offsets anchored at `(x, y)` overlaps a blocked square.
pub open spec fn collides_at(grid: Seq<[i32; 2]>, x: int, y: int, map: Board) -> bool {
    collides_pts(points(grid), x, y, map)
}

/// An empty square.
pub open spec fn empty_cell() -> Cell {
    Cell { color: None, occupied: false }
}

/// Collision test on a wide anchor, shared by the movement functions.
pub(crate) fn collides_wide(grid: &Vec<[i32; 2]>, x: i64, y: i64, map: &Board) -> (r: bool)
    requires
        -0x1_0000_0000 <= x <= 0x1_0000_0000,
        -0x1_0000_0000 <= y <= 0x1_0000_0000,
    ensures
        r == collides_at(grid@, x as int, y as int, *map),
{
    let mut i: usize = 0;
    while i < grid.len()
        invariant
            0 <= i <= grid@.len(),
            -0x1_0000_0000 <= x <= 0x1_0000_0000,
            -0x1_0000_0000 <= y <= 0x1_0000_0000,
            forall|j: int| 0 <= j < i ==> !blocked(*map, points(grid@)[j].0 + x, points(grid@)[j].1 + y),
        decreases grid@.len() - i,
    {
        let p = grid[i];
        let map_x: i64 = p[0] as i64 + x;
        let map_y: i64 = p[1] as i64 + y;
        if map_x < 0 || map_x >= 10 || map_y >= 20 {
            assert(blocked(*map, points(grid@)[i as int].0 + x, points(grid@)[i as int].1 + y));
            return true;
        }
        if map_y >= 0 && map[map_y as usize][map_x as usize].occupied {
            assert(blocked(*map, points(grid@)[i as int].0 + x, points(grid@)[i as int].1 + y));
            return true;
        }
        i += 1;
    }
    false
}

/// Whether `grid` anchored at `position` overlaps a wall, the floor or an occupied square.
pub fn has_colided(grid: &Vec<[i32; 2]>, position: &(i32, i32), map: &Board) -> (r: bool)
    ensures
        r == collides_at(grid@, position.0 as int, position.1 as int, *map),
{
    collides_wide(grid, position.0 as i64, position.1 as i64, map)
}


/// Whether the square at column `c`, row `r` is covered by `grid` anchored at `(x, y)`.
pub open spec fn covers(grid: Seq<[i32; 2]>, x: int, y: int, c: int, r: int) -> bool {
    exists|i: int| 0 <= i < grid.len() && #[trigger] points(grid)[i] == (c - x, r - y)
}

/// Whether some cell of `grid` anchored at row `y` lies above the top row.
pub open spec fn reaches_above(grid: Seq<[i32; 2]>, y: int) -> bool {
    exists|i: int| 0 <= i < grid.len() && #[trigger] points(grid)[i].1 + y < 0
}

/// `n` is `map` with every square that the piece covers filled with its colour.
pub open spec fn placed(map: Board, t: Tetromino, n: Board) -> bool {
    forall|r: int, c: int|
        0 <= r < 20 && 0 <= c < 10 ==> #[trigger] n[r][c] == if covers(t.grid@, t.x(), t.y(), c, r) {
            Cell { color: Some(t.color), occupied: true }
        } else {
            map[r][c]
        }
}

/// Whether every square of row `r` is occupied.
pub open spec fn full_row(map: Board, r: int) -> bool {
    forall|c: int| 0 <= c < 10 ==> #[trigger] map[r][c].occupied
}

/// A row of empty squares.
pub open spec fn empty_row(row: [Cell; 10]) -> bool {
    forall|c: int| 0 <= c < 10 ==> #[trigger] row[c] == empty_cell()
}

/// `n` is `map` with rows `start .. start + count` removed: the rows above move down by
/// `count` and the top `count` rows are empty.
pub open spec fn cleared(map: Board, start: int, count: int, n: Board) -> bool {
    forall|i: int|
        0 <= i < 20 ==> if i >= start + count {
            #[trigger] n[i] == map[i]
        } else if i >= count {
            n[i] == map[i - count]
        } else {
            empty_row(n[i])
        }
}

/// A well-formed piece anchored at row 19 or below is blocked one row lower: its pivot
/// cell lies at or below the floor there.
pub proof fn lemma_floor_blocks(t: Tetromino, map: Board, y: int)
    requires
        t.wf(),
        y >= 19,
    ensures
        collides_at(t.grid@, t.x(), y + 1, map),
{
    let p = t.pivot as int;
    assert(points(t.grid@)[p] == t.pivot_point());
    assert(blocked(map, points(t.grid@)[p].0 + t.x(), points(t.grid@)[p].1 + (y + 1)));
}

/// The piece moved down to the lowest row it can reach from where it is: the first row,
/// going down, below which it would collide.
pub fn lowest_avaliable_position(current_tetromino: &Tetromino, map: &Board) -> (r: Tetromino)
    requires
        current_tetromino.wf(),
    ensures
        r.wf(),
        r.same_body(current_tetromino),
        r.x() == current_tetromino.x(),
        r.y() >= current_tetromino.y(),
        collides_at(r.grid@, r.x(), r.y() + 1, *map),
        forall|y: int| current_tetromino.y() < y <= r.y() ==> !collides_at(r.grid@, r.x(), y, *map),
{
    let mut result = current_tetromino.duplicate();
    while result.position[1] < 19
        invariant
            result.wf(),
            result.same_body(current_tetromino),
            result.x() == current_tetromino.x(),
            result.y() >= current_tetromino.y(),
            forall|y: int|
                current_tetromino.y() < y <= result.y() ==> !collides_at(result.grid@, result.x(), y, *map),
        decreases 19 - result.position[1],
    {
        if collides_wide(&result.grid, result.position[0] as i64, result.position[1] as i64 + 1, map) {
            return result;
        }
        result.position[1] = result.position[1] + 1;
    }
    proof {
        lemma_floor_blocks(result, *map, result.y());
    }
    result
}

/// The farthest anchor to the left that the piece reaches by single steps from where it
/// is; the anchor itself where the piece already collides.
pub fn left_most_position(current_tetromino: &Tetromino, map: &Board) -> (r: (i32, i32))
    requires
        current_tetromino.wf(),
    ensures
        r.1 == current_tetromino.position[1],
        collides_at(current_tetromino.grid@, current_tetromino.x(), current_tetromino.y(), *map)
            ==> r.0 == current_tetromino.position[0],
        !collides_at(current_tetromino.grid@, current_tetromino.x(), current_tetromino.y(), *map) ==> {
            &&& r.0 <= current_tetromino.x()
            &&& collides_at(current_tetromino.grid@, r.0 - 1, current_tetromino.y(), *map)
            &&& forall|x: int|
                r.0 <= x <= current_tetromino.x() ==> !collides_at(
                    current_tetromino.grid@,
                    x,
                    current_tetromino.y(),
                    *map,
                )
        },
{
    let t = current_tetromino;
    let y = t.position[1];
    let mut x = t.position[0];
    if collides_wide(&t.grid, x as i64, y as i64, map) {
        return (x, y);
    }
    proof {
        t.lemma_fit_bounds(x as int, y as int, *map);
    }
    while !collides_wide(&t.grid, x as i64 - 1, y as i64, map)
        invariant
            t.wf(),
            -6 <= x <= t.x(),
            forall|x2: int| x <= x2 <= t.x() ==> !collides_at(t.grid@, x2, y as int, *map),
        decreases x + 6,
    {
        proof {
            t.lemma_fit_bounds(x - 1, y as int, *map);
        }
        x = x - 1;
    }
    (x, y)
}

/// The farthest anchor to the right that the piece reaches by single steps from where it
/// is; the anchor itself where the piece already collides.
pub fn right_most_position(current_tetromino: &Tetromino, map: &Board) -> (r: (i32, i32))
    requires
        current_tetromino.wf(),
    ensures
        r.1 == current_tetromino.position[1],
        collides_at(current_tetromino.grid@, current_tetromino.x(), current_tetromino.y(), *map)
            ==> r.0 == current_tetromino.position[0],
        !collides_at(current_tetromino.grid@, current_tetromino.x(), current_tetromino.y(), *map) ==> {
            &&& r.0 >= current_tetromino.x()
            &&& collides_at(current_tetromino.grid@, r.0 + 1, current_tetromino.y(), *map)
            &&& forall|x: int|
                current_tetromino.x() <= x <= r.0 ==> !collides_at(
                    current_tetromino.grid@,
                    x,
                    current_tetromino.y(),
                    *map,
                )
        },
{
    let t = current_tetromino;
    let y = t.position[1];
    let mut x = t.position[0];
    if collides_wide(&t.grid, x as i64, y as i64, map) {
        return (x, y);
    }
    proof {
        t.lemma_fit_bounds(x as int, y as int, *map);
    }
    while !collides_wide(&t.grid, x as i64 + 1, y as i64, map)
        invariant
            t.wf(),
            t.x() <= x <= 12,
            forall|x2: int| t.x() <= x2 <= x ==> !collides_at(t.grid@, x2, y as int, *map),
        decreases 12 - x,
    {
        proof {
            t.lemma_fit_bounds(x + 1, y as int, *map);
        }
        x = x + 1;
    }
    (x, y)
}


/// Writes the piece into the board. Where a cell of the piece lies above the top row the
/// piece cannot enter the field: nothing is written and `false` is returned.
pub fn place_piece(map: &mut Board, t: &Tetromino) -> (entered: bool)
    requires
        t.wf(),
    ensures
        entered == !reaches_above(t.grid@, t.y()),
        entered ==> placed(*old(map), *t, *final(map)),
        !entered ==> *final(map) == *old(map),
{
    let mut i: usize = 0;
    while i < 4
        invariant
            t.wf(),
            0 <= i <= 4,
            forall|j: int| 0 <= j < i ==> points(t.grid@)[j].1 + t.y() >= 0,
        decreases 4 - i,
    {
        if t.grid[i][1] as i64 + (t.position[1] as i64) < 0 {
            assert(points(t.grid@)[i as int].1 + t.y() < 0);
            return false;
        }
        i += 1;
    }
    let filled = Cell { color: Some(t.color), occupied: true };
    let mut k: usize = 0;
    while k < 4
        invariant
            t.wf(),
            0 <= k <= 4,
            filled == (Cell { color: Some(t.color), occupied: true }),
            forall|j: int| 0 <= j < 4 ==> points(t.grid@)[j].1 + t.y() >= 0,
            forall|r: int, c: int|
                0 <= r < 20 && 0 <= c < 10 ==> #[trigger] map[r][c] == if exists|j: int|
                    0 <= j < k && #[trigger] points(t.grid@)[j] == (c - t.x(), r - t.y()) {
                    filled
                } else {
                    old(map)[r][c]
                },
        decreases 4 - k,
    {
        let cx: i64 = t.grid[k][0] as i64 + t.position[0] as i64;
        let cy: i64 = t.grid[k][1] as i64 + t.position[1] as i64;
        assert(points(t.grid@)[k as int].1 + t.y() >= 0);
        if 0 <= cx && cx < 10 && cy < 20 {
            let ghost before = *map;
            let mut line = map[cy as usize];
            line[cx as usize] = filled;
            map[cy as usize] = line;
            assert(forall|c: int| 0 <= c < 10 && c != cx ==> #[trigger] map[cy as int][c] == before[cy as int][c]);
            assert(forall|r: int| 0 <= r < 20 && r != cy ==> #[trigger] map[r] == before[r]);
            proof {
                assert forall|r: int, c: int| 0 <= r < 20 && 0 <= c < 10 implies #[trigger] map[r][c] == if exists|j: int|
                    0 <= j < k + 1 && #[trigger] points(t.grid@)[j] == (c - t.x(), r - t.y()) {
                    filled
                } else {
                    old(map)[r][c]
                } by {
                    if r == cy && c == cx {
                        assert(points(t.grid@)[k as int] == (c - t.x(), r - t.y()));
                    } else {
                        assert(map[r][c] == before[r][c]);
                    }
                }
            }
        } else {
            proof {
                assert forall|r: int, c: int| 0 <= r < 20 && 0 <= c < 10 implies #[trigger] map[r][c] == if exists|j: int|
                    0 <= j < k + 1 && #[trigger] points(t.grid@)[j] == (c - t.x(), r - t.y()) {
                    filled
                } else {
                    old(map)[r][c]
                } by {
                    if exists|j: int| 0 <= j < k + 1 && #[trigger] points(t.grid@)[j] == (c - t.x(), r - t.y()) {
                        let j = choose|j: int| 0 <= j < k + 1 && #[trigger] points(t.grid@)[j] == (c - t.x(), r - t.y());
                        if j == k {
                            assert(false);
                        }
                    }
                }
            }
        }
        k += 1;
    }
    true
}

/// Whether row `r` of the board is full.
fn row_full(map: &Board, r: usize) -> (b: bool)
    requires
        r < 20,
    ensures
        b == full_row(*map, r as int),
{
    let mut c: usize = 0;
    while c < 10
        invariant
            0 <= c <= 10,
            r < 20,
            forall|j: int| 0 <= j < c ==> #[trigger] map[r as int][j].occupied,
        decreases 10 - c,
    {
        if !map[r][c].occupied {
            return false;
        }
        c += 1;
    }
    true
}

/// The topmost full row, if any.
pub fn first_full_line(map: &Board) -> (r: Option<usize>)
    ensures
        r matches Some(i) ==> i < 20 && full_row(*map, i as int) && forall|j: int| 0 <= j < i ==> !#[trigger] full_row(*map, j),
        r is None ==> forall|j: int| 0 <= j < 20 ==> !#[trigger] full_row(*map, j),
{
    let mut i: usize = 0;
    while i < 20
        invariant
            0 <= i <= 20,
            forall|j: int| 0 <= j < i ==> !#[trigger] full_row(*map, j),
        decreases 20 - i,
    {
        if row_full(map, i) {
            return Some(i);
        }
        i += 1;
    }
    None
}

/// How many full rows follow each other from row `first` down: `first` itself and at most
/// four more below it.
pub fn subsequent_lines(map: &Board, first: usize) -> (n: usize)
    requires
        first < 20,
    ensures
        1 <= n <= 5,
        first + n <= 20,
        forall|j: int| first < j < first + n ==> #[trigger] full_row(*map, j),
        n < 5 && first + n < 20 ==> !full_row(*map, first + n),
{
    let mut count: usize = 1;
    let mut scanning = true;
    while scanning && count < 5
        invariant
            1 <= count <= 5,
            first < 20,
            first + count <= 20,
            forall|j: int| first < j < first + count ==> #[trigger] full_row(*map, j),
            !scanning ==> first + count == 20 || !full_row(*map, first + count),
        decreases 5 - count + (if scanning { 1int } else { 0int }),
    {
        let index = first + count;
        if index >= 20 || !row_full(map, index) {
            scanning = false;
        } else {
            count += 1;
        }
    }
    count
}

/// Removes rows `start .. start + count`: every row above moves down by `count`, from the
/// bottom up, and the top `count` rows become empty.
pub fn clear_rows(map: &mut Board, start: usize, count: usize)
    requires
        start + count <= 20,
    ensures
        cleared(*old(map), start as int, count as int, *final(map)),
{
    let empty: [Cell; 10] = [Cell { occupied: false, color: None }; 10];
    let mut row: usize = start + count;
    while row > 0
        invariant
            0 <= row <= start + count <= 20,
            empty_row(empty),
            forall|i: int| 0 <= i < row ==> #[trigger] map[i] == old(map)[i],
            forall|i: int|
                row <= i < 20 ==> if i >= start + count {
                    #[trigger] map[i] == old(map)[i]
                } else if i >= count {
                    map[i] == old(map)[i - count]
                } else {
                    empty_row(map[i])
                },
        decreases row,
    {
        row -= 1;
        if row >= count {
            let moved = map[row - count];
            map[row] = moved;
        } else {
            map[row] = empty;
        }
    }
}

} // verus!
