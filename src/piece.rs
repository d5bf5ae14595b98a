use vstd::prelude::*;

use crate::board::{blocked, collides_at, collides_pts, collides_wide, Board};

verus! {

/// The seven piece kinds.
#[derive(Clone, Copy, Debug, PartialEq, Eq, Structural)]
pub enum Shape {
    I,
    O,
    T,
    S,
    Z,
    J,
    L,
}

/// An RGBA colour.
#[derive(Clone, Copy, Debug, PartialEq, Eq, Structural)]
pub struct Color {
    pub r: u8,
    pub g: u8,
    pub b: u8,
    pub a: u8,
}

impl Color {
    pub fn rgba(r: u8, g: u8, b: u8, a: u8) -> (c: Color)
        ensures
            c == (Color { r, g, b, a }),
    {
        Color { r, g, b, a }
    }
}

/// A cell offset as a pair of mathematical integers.
pub open spec fn point(c: [i32; 2]) -> (int, int) {
    (c[0] as int, c[1] as int)
}

/// The cell offsets of a grid as integer pairs.
pub open spec fn points(g: Seq<[i32; 2]>) -> Seq<(int, int)> {
    g.map_values(|c: [i32; 2]| point(c))
}

/// The canonical layout of each kind, in rotation state 0.
pub open spec fn layout(shape: Shape) -> Seq<(int, int)> {
    match shape {
        Shape::I => seq![(0, 0), (1, 0), (2, 0), (3, 0)],
        Shape::O => seq![(0, 0), (1, 0), (0, 1), (1, 1)],
        Shape::T => seq![(0, 1), (1, 1), (2, 1), (1, 0)],
        Shape::S => seq![(1, 0), (2, 0), (0, 1), (1, 1)],
        Shape::Z => seq![(0, 0), (1, 0), (1, 1), (2, 1)],
        Shape::J => seq![(0, 0), (0, 1), (1, 1), (2, 1)],
        Shape::L => seq![(0, 1), (1, 1), (2, 1), (2, 0)],
    }
}

/// The index of the pivot cell in the canonical layout.
pub open spec fn pivot_of(shape: Shape) -> usize {
    match shape {
        Shape::I => 1,
        Shape::O => 2,
        Shape::T => 1,
        Shape::S => 3,
        Shape::Z => 2,
        Shape::J => 2,
        Shape::L => 1,
    }
}

/// The colour of each kind.
pub open spec fn color_of(shape: Shape) -> Color {
    match shape {
        Shape::I => Color { r: 0, g: 255, b: 255, a: 255 },
        Shape::O => Color { r: 255, g: 255, b: 0, a: 255 },
        Shape::T => Color { r: 128, g: 0, b: 128, a: 255 },
        Shape::S => Color { r: 0, g: 255, b: 0, a: 255 },
        Shape::Z => Color { r: 255, g: 0, b: 0, a: 255 },
        Shape::J => Color { r: 0, g: 0, b: 255, a: 255 },
        Shape::L => Color { r: 255, g: 127, b: 0, a: 255 },
    }
}

/// The column at which a kind spawns.
pub open spec fn spawn_x(shape: Shape) -> int {
    if shape == Shape::O { 4 } else { 3 }
}

/// The row at which a kind spawns: the I piece fully on screen, the others one row above.
pub open spec fn spawn_y(shape: Shape) -> int {
    if shape == Shape::I { 0 } else { -1 }
}


/// One cell turned a quarter around `pv`: clockwise `(x, y) -> (-y, x)` relative to the
/// pivot, counter-clockwise `(x, y) -> (y, -x)`.
pub open spec fn turn(p: (int, int), pv: (int, int), clockwise: bool) -> (int, int) {
    let dx = p.0 - pv.0;
    let dy = p.1 - pv.1;
    if clockwise {
        (pv.0 - dy, pv.1 + dx)
    } else {
        (pv.0 + dy, pv.1 - dx)
    }
}

/// Every cell of `pts` turned a quarter around `pv`.
pub open spec fn turned(pts: Seq<(int, int)>, pv: (int, int), clockwise: bool) -> Seq<(int, int)> {
    pts.map_values(|p: (int, int)| turn(p, pv, clockwise))
}

/// The rotation state after one quarter turn.
pub open spec fn next_state(r: int, clockwise: bool) -> int {
    if clockwise {
        (r + 1) % 4
    } else {
        (r + 3) % 4
    }
}

/// The wall-kick trials for a quarter turn from state `from`, in the order they are tried:
/// one table for the I piece and one shared by the other kinds that turn.
pub open spec fn kicks(is_i: bool, from: int, clockwise: bool) -> Seq<(int, int)> {
    if is_i {
        if clockwise {
            if from == 0 {
                seq![(0, 0), (-2, 0), (1, 0), (-2, -1), (1, 2)]
            } else if from == 1 {
                seq![(0, 0), (-1, 0), (2, 0), (-1, 2), (2, -1)]
            } else if from == 2 {
                seq![(0, 0), (2, 0), (-1, 0), (2, 1), (-1, -2)]
            } else {
                seq![(0, 0), (1, 0), (-2, 0), (1, -2), (-2, 1)]
            }
        } else {
            if from == 1 {
                seq![(0, 0), (2, 0), (-1, 0), (2, 1), (-1, -2)]
            } else if from == 2 {
                seq![(0, 0), (1, 0), (-2, 0), (1, -2), (-2, 1)]
            } else if from == 3 {
                seq![(0, 0), (-2, 0), (1, 0), (-2, -1), (1, 2)]
            } else {
                seq![(0, 0), (-1, 0), (2, 0), (-1, 2), (2, -1)]
            }
        }
    } else {
        if clockwise {
            if from == 0 {
                seq![(0, 0), (-1, 0), (-1, 1), (0, -2), (-1, -2)]
            } else if from == 1 {
                seq![(0, 0), (1, 0), (1, -1), (0, 2), (1, 2)]
            } else if from == 2 {
                seq![(0, 0), (1, 0), (1, 1), (0, -2), (1, -2)]
            } else {
                seq![(0, 0), (-1, 0), (-1, -1), (0, 2), (-1, 2)]
            }
        } else {
            if from == 1 {
                seq![(0, 0), (1, 0), (1, -1), (0, 2), (1, 2)]
            } else if from == 2 {
                seq![(0, 0), (-1, 0), (-1, 1), (0, -2), (-1, -2)]
            } else if from == 3 {
                seq![(0, 0), (-1, 0), (-1, -1), (0, 2), (-1, 2)]
            } else {
                seq![(0, 0), (1, 0), (1, 1), (0, -2), (1, -2)]
            }
        }
    }
}

/// Whether an anchor is representable and the cells there overlap nothing.
pub open spec fn fits(pts: Seq<(int, int)>, x: int, y: int, map: Board) -> bool {
    &&& i32::MIN <= x <= i32::MAX
    &&& i32::MIN <= y <= i32::MAX
    &&& !collides_pts(pts, x, y, map)
}

/// Trial `k` of `ks` is the first one at which the cells fit.
pub open spec fn first_fit(pts: Seq<(int, int)>, ks: Seq<(int, int)>, x: int, y: int, map: Board, k: int) -> bool {
    &&& 0 <= k < ks.len()
    &&& fits(pts, x + ks[k].0, y + ks[k].1, map)
    &&& forall|j: int| 0 <= j < k ==> !fits(pts, x + ks[j].0, y + ks[j].1, map)
}

/// The integer pairs of an exec kick list.
pub open spec fn offsets(ks: Seq<(i32, i32)>) -> Seq<(int, int)> {
    ks.map_values(|k: (i32, i32)| (k.0 as int, k.1 as int))
}

/// The wall-kick trials for a quarter turn from state `from`.
fn wall_kicks(is_i: bool, from: i8, clockwise: bool) -> (r: [(i32, i32); 5])
    requires
        0 <= from < 4,
    ensures
        offsets(r@) == kicks(is_i, from as int, clockwise),
{
    let r: [(i32, i32); 5] = if is_i {
        if clockwise {
            if from == 0 {
                [(0, 0), (-2, 0), (1, 0), (-2, -1), (1, 2)]
            } else if from == 1 {
                [(0, 0), (-1, 0), (2, 0), (-1, 2), (2, -1)]
            } else if from == 2 {
                [(0, 0), (2, 0), (-1, 0), (2, 1), (-1, -2)]
            } else {
                [(0, 0), (1, 0), (-2, 0), (1, -2), (-2, 1)]
            }
        } else {
            if from == 1 {
                [(0, 0), (2, 0), (-1, 0), (2, 1), (-1, -2)]
            } else if from == 2 {
                [(0, 0), (1, 0), (-2, 0), (1, -2), (-2, 1)]
            } else if from == 3 {
                [(0, 0), (-2, 0), (1, 0), (-2, -1), (1, 2)]
            } else {
                [(0, 0), (-1, 0), (2, 0), (-1, 2), (2, -1)]
            }
        }
    } else {
        if clockwise {
            if from == 0 {
                [(0, 0), (-1, 0), (-1, 1), (0, -2), (-1, -2)]
            } else if from == 1 {
                [(0, 0), (1, 0), (1, -1), (0, 2), (1, 2)]
            } else if from == 2 {
                [(0, 0), (1, 0), (1, 1), (0, -2), (1, -2)]
            } else {
                [(0, 0), (-1, 0), (-1, -1), (0, 2), (-1, 2)]
            }
        } else {
            if from == 1 {
                [(0, 0), (1, 0), (1, -1), (0, 2), (1, 2)]
            } else if from == 2 {
                [(0, 0), (-1, 0), (-1, 1), (0, -2), (-1, -2)]
            } else if from == 3 {
                [(0, 0), (-1, 0), (-1, -1), (0, 2), (-1, 2)]
            } else {
                [(0, 0), (1, 0), (1, 1), (0, -2), (1, -2)]
            }
        }
    };
    assert(offsets(r@) =~= kicks(is_i, from as int, clockwise));
    r
}


/// The cells of `o` turned a quarter around its pivot.
pub open spec fn turned_cells(o: Tetromino, clockwise: bool) -> Seq<(int, int)> {
    turned(points(o.grid@), o.pivot_point(), clockwise)
}

/// The kick trials of `o` for a quarter turn.
pub open spec fn kicks_of(o: Tetromino, clockwise: bool) -> Seq<(int, int)> {
    kicks(o.shape == Shape::I, o.rotation as int, clockwise)
}

/// `n` is `o` turned a quarter around its pivot at the same anchor, with the rotation
/// state advanced.
pub open spec fn quarter_turn(o: Tetromino, n: Tetromino, clockwise: bool) -> bool {
    &&& n.shape == o.shape
    &&& n.position == o.position
    &&& n.pivot_point() == o.pivot_point()
    &&& points(n.grid@) == turned_cells(o, clockwise)
    &&& n.rotation == next_state(o.rotation as int, clockwise)
}

/// Whether some kick trial of a quarter turn of `o` fits.
pub open spec fn can_turn(o: Tetromino, clockwise: bool, map: Board) -> bool {
    o.shape != Shape::O && exists|k: int| first_fit(turned_cells(o, clockwise), kicks_of(o, clockwise), o.x(), o.y(), map, k)
}

/// `n` is `o` turned a quarter with the first fitting kick trial `k`.
pub open spec fn turned_with(o: Tetromino, n: Tetromino, clockwise: bool, map: Board, k: int) -> bool {
    let ks = kicks_of(o, clockwise);
    &&& first_fit(turned_cells(o, clockwise), ks, o.x(), o.y(), map, k)
    &&& n.x() == o.x() + ks[k].0
    &&& n.y() == o.y() + ks[k].1
    &&& points(n.grid@) == turned_cells(o, clockwise)
    &&& n.pivot_point() == o.pivot_point()
    &&& n.rotation == next_state(o.rotation as int, clockwise)
    &&& n.shape == o.shape
    &&& n.color == o.color
}

/// What a wall-kicked quarter turn makes of `o`: the first fitting trial taken, or, where
/// none fits or the piece is an O, `o` unchanged.
pub open spec fn srs_outcome(o: Tetromino, n: Tetromino, clockwise: bool, map: Board) -> bool {
    if can_turn(o, clockwise, map) {
        exists|k: int| turned_with(o, n, clockwise, map, k)
    } else {
        n == o
    }
}

/// A piece as it enters the field: canonical layout, pivot, colour and rotation state at
/// the spawn anchor of its kind.
pub open spec fn is_spawned(t: Tetromino, shape: Shape) -> bool {
    &&& t.shape == shape
    &&& points(t.grid@) == layout(shape)
    &&& t.color == color_of(shape)
    &&& t.pivot == pivot_of(shape)
    &&& t.rotation == 0
    &&& t.x() == spawn_x(shape)
    &&& t.y() == spawn_y(shape)
}

/// What a half turn in place makes of `o`: where it is not an O and its cells turned twice
/// clockwise around the pivot fit at the same anchor, those cells with the rotation state
/// two further; otherwise `o` unchanged.
pub open spec fn half_turn_outcome(o: Tetromino, n: Tetromino, map: Board) -> bool {
    let pts = turned(turned(points(o.grid@), o.pivot_point(), true), o.pivot_point(), true);
    if o.shape != Shape::O && fits(pts, o.x(), o.y(), map) {
        &&& n.position == o.position
        &&& points(n.grid@) == pts
        &&& n.pivot_point() == o.pivot_point()
        &&& n.rotation == (o.rotation + 2) % 4
        &&& n.shape == o.shape
        &&& n.color == o.color
    } else {
        n == o
    }
}

/// A piece: its kind, cell offsets, colour, grid anchor, pivot cell and rotation state.
#[derive(Clone, Debug)]
pub struct Tetromino {
    pub shape: Shape,
    pub grid: Vec<[i32; 2]>,
    pub color: Color,
    pub position: [i32; 2],
    pub pivot: usize,
    pub rotation: i8,
}

/// `|a - b| <= 3`
pub open spec fn near(a: int, b: int) -> bool {
    -3 <= a - b <= 3
}

impl Tetromino {
    /// The pivot cell's offset.
    pub open spec fn pivot_point(&self) -> (int, int) {
        point(self.grid@[self.pivot as int])
    }

    /// Four cells, a pivot cell among them with offsets in `[0, 3]`, every cell within
    /// three columns and rows of the pivot, and a rotation state in `0..4`.
    pub open spec fn wf(&self) -> bool {
        &&& self.grid@.len() == 4
        &&& self.pivot < 4
        &&& 0 <= self.pivot_point().0 <= 3
        &&& 0 <= self.pivot_point().1 <= 3
        &&& forall|i: int|
            0 <= i < 4 ==> near(#[trigger] point(self.grid@[i]).0, self.pivot_point().0) && near(
                point(self.grid@[i]).1,
                self.pivot_point().1,
            )
        &&& 0 <= self.rotation < 4
    }

    /// The column of the anchor.
    pub open spec fn x(&self) -> int {
        self.position[0] as int
    }

    /// The row of the anchor.
    pub open spec fn y(&self) -> int {
        self.position[1] as int
    }

    /// A piece as `new` makes it: canonical layout, pivot and colour, anchor `(0, 0)`,
    /// rotation state 0.
    pub open spec fn is_fresh(&self, shape: Shape) -> bool {
        &&& self.shape == shape
        &&& points(self.grid@) == layout(shape)
        &&& self.color == color_of(shape)
        &&& self.pivot == pivot_of(shape)
        &&& self.rotation == 0
        &&& self.x() == 0
        &&& self.y() == 0
    }

    /// A fresh piece is well formed.
    pub proof fn lemma_fresh_wf(&self)
        requires
            self.is_fresh(self.shape),
        ensures
            self.wf(),
    {
        let g = points(self.grid@);
        assert(self.grid@.len() == g.len());
        assert forall|i: int| 0 <= i < 4 implies near(#[trigger] point(self.grid@[i]).0, self.pivot_point().0) && near(
            point(self.grid@[i]).1,
            self.pivot_point().1,
        ) by {
            assert(point(self.grid@[i]) == g[i]);
            assert(self.pivot_point() == g[self.pivot as int]);
        }
        assert(self.pivot_point() == g[self.pivot as int]);
    }

    /// The piece of a kind as it enters the field.
    pub fn spawned(shape: Shape) -> (t: Tetromino)
        ensures
            is_spawned(t, shape),
            t.wf(),
    {
        let mut t = Tetromino::new(shape);
        t.position[0] = match shape {
            Shape::O => 4,
            _ => 3,
        };
        t.position[1] = match shape {
            Shape::I => 0,
            _ => -1,
        };
        t
    }

    /// The canonical piece of a kind.
    pub fn new(shape: Shape) -> (t: Tetromino)
        ensures
            t.is_fresh(shape),
            t.wf(),
    {
        let grid: Vec<[i32; 2]> = match shape {
            Shape::I => vec![[0, 0], [1, 0], [2, 0], [3, 0]],
            Shape::O => vec![[0, 0], [1, 0], [0, 1], [1, 1]],
            Shape::T => vec![[0, 1], [1, 1], [2, 1], [1, 0]],
            Shape::S => vec![[1, 0], [2, 0], [0, 1], [1, 1]],
            Shape::Z => vec![[0, 0], [1, 0], [1, 1], [2, 1]],
            Shape::J => vec![[0, 0], [0, 1], [1, 1], [2, 1]],
            Shape::L => vec![[0, 1], [1, 1], [2, 1], [2, 0]],
        };
        let color = match shape {
            Shape::I => Color::rgba(0, 255, 255, 255),
            Shape::O => Color::rgba(255, 255, 0, 255),
            Shape::T => Color::rgba(128, 0, 128, 255),
            Shape::S => Color::rgba(0, 255, 0, 255),
            Shape::Z => Color::rgba(255, 0, 0, 255),
            Shape::J => Color::rgba(0, 0, 255, 255),
            Shape::L => Color::rgba(255, 127, 0, 255),
        };
        let pivot: usize = match shape {
            Shape::I => 1,
            Shape::O => 2,
            Shape::T => 1,
            Shape::S => 3,
            Shape::Z => 2,
            Shape::J => 2,
            Shape::L => 1,
        };
        let t = Tetromino { shape, grid, color, position: [0, 0], pivot, rotation: 0 };
        assert(points(t.grid@) =~= layout(shape));
        t
    }

    /// The same piece with every field but the anchor kept.
    pub open spec fn same_body(&self, other: &Tetromino) -> bool {
        &&& self.shape == other.shape
        &&& self.grid@ == other.grid@
        &&& self.color == other.color
        &&& self.pivot == other.pivot
        &&& self.rotation == other.rotation
    }

    /// Moves the piece one row down, unchecked.
    pub fn fall(&mut self)
        requires
            old(self).position[1] < i32::MAX,
        ensures
            final(self).same_body(old(self)),
            final(self).x() == old(self).x(),
            final(self).y() == old(self).y() + 1,
    {
        self.position[1] = self.position[1] + 1;
    }

    /// Moves the piece one column left, unless it would collide there.
    pub fn left(&mut self, map: &Board)
        requires
            old(self).wf(),
        ensures
            final(self).same_body(old(self)),
            final(self).y() == old(self).y(),
            final(self).x() == if collides_at(old(self).grid@, old(self).x() - 1, old(self).y(), *map) {
                old(self).x()
            } else {
                old(self).x() - 1
            },
    {
        let nx: i64 = self.position[0] as i64 - 1;
        if !collides_wide(&self.grid, nx, self.position[1] as i64, map) {
            proof {
                self.lemma_fit_bounds(nx as int, self.y(), *map);
            }
            self.position[0] = nx as i32;
        }
    }

    /// Moves the piece one column right, unless it would collide there.
    pub fn right(&mut self, map: &Board)
        requires
            old(self).wf(),
        ensures
            final(self).same_body(old(self)),
            final(self).y() == old(self).y(),
            final(self).x() == if collides_at(old(self).grid@, old(self).x() + 1, old(self).y(), *map) {
                old(self).x()
            } else {
                old(self).x() + 1
            },
    {
        let nx: i64 = self.position[0] as i64 + 1;
        if !collides_wide(&self.grid, nx, self.position[1] as i64, map) {
            proof {
                self.lemma_fit_bounds(nx as int, self.y(), *map);
            }
            self.position[0] = nx as i32;
        }
    }

    /// Where the cells of a well-formed piece overlap nothing, the anchor column lies in
    /// `[-6, 12]` and the anchor row below 20.
    pub proof fn lemma_fit_bounds(&self, x: int, y: int, map: Board)
        requires
            self.wf(),
            !collides_at(self.grid@, x, y, map),
        ensures
            -6 <= x <= 12,
            y < 20,
    {
        let p = self.pivot as int;
        assert(points(self.grid@)[p] == self.pivot_point());
        assert(!blocked(map, points(self.grid@)[p].0 + x, points(self.grid@)[p].1 + y));
        assert(near(point(self.grid@[p]).0, self.pivot_point().0));
    }

    /// The rotation state before and after a quarter turn.
    fn get_rotation_state(&self, clockwise: bool) -> (r: (i8, i8))
        requires
            0 <= self.rotation < 4,
        ensures
            r.0 == self.rotation,
            r.1 as int == next_state(self.rotation as int, clockwise),
    {
        let current = self.rotation;
        let next = if clockwise {
            (current + 1) % 4
        } else {
            (current + 3) % 4
        };
        (current, next)
    }

    /// The cells of a piece turned a quarter around its pivot, the pivot found again among
    /// them, and the rotation state advanced; the O piece is returned as it is.
    pub fn rotate(&self, clockwise: bool) -> (r: Tetromino)
        requires
            self.wf(),
        ensures
            r.wf(),
            r.shape == self.shape,
            r.position == self.position,
            r.pivot_point() == self.pivot_point(),
            self.shape == Shape::O ==> points(r.grid@) == points(self.grid@) && r.rotation == self.rotation
                && r.color == self.color,
            self.shape != Shape::O ==> quarter_turn(*self, r, clockwise) && r.color == color_of(self.shape),
    {
        let pv = self.grid[self.pivot];
        let mut grid: Vec<[i32; 2]> = Vec::new();
        let mut i: usize = 0;
        while i < 4
            invariant
                self.wf(),
                pv == self.grid@[self.pivot as int],
                0 <= i <= 4,
                grid@.len() == i,
                forall|j: int| 0 <= j < i ==> #[trigger] point(grid@[j]) == if self.shape == Shape::O {
                    point(self.grid@[j])
                } else {
                    turn(point(self.grid@[j]), self.pivot_point(), clockwise)
                },
            decreases 4 - i,
        {
            let p = self.grid[i];
            assert(near(point(self.grid@[i as int]).0, self.pivot_point().0));
            assert(near(point(self.grid@[i as int]).1, self.pivot_point().1));
            let q: [i32; 2] = match self.shape {
                Shape::O => p,
                _ => {
                    let rx = p[0] - pv[0];
                    let ry = p[1] - pv[1];
                    if clockwise {
                        [pv[0] - ry, pv[1] + rx]
                    } else {
                        [pv[0] + ry, pv[1] - rx]
                    }
                },
            };
            grid.push(q);
            i += 1;
        }
        let mut pivot = self.pivot;
        let mut k: usize = 0;
        while k < 4
            invariant
                0 <= k <= 4,
                grid@.len() == 4,
                pivot < 4,
                point(grid@[pivot as int]) == point(pv),
            decreases 4 - k,
        {
            if grid[k][0] == pv[0] && grid[k][1] == pv[1] {
                pivot = k;
                break;
            }
            k += 1;
        }
        let rotation: i8 = match self.shape {
            Shape::O => self.rotation,
            _ => self.get_rotation_state(clockwise).1,
        };
        let color = match self.shape {
            Shape::O => self.color,
            _ => Tetromino::new(self.shape).color,
        };
        let r = Tetromino { shape: self.shape, grid, color, position: self.position, pivot, rotation };
        assert(points(r.grid@) =~= if self.shape == Shape::O {
            points(self.grid@)
        } else {
            turned(points(self.grid@), self.pivot_point(), clockwise)
        });
        r
    }

    /// Turns the piece a quarter with the wall kicks of its kind: the first trial offset
    /// at which the turned cells fit is taken, and cells, anchor, pivot and rotation state
    /// change together. Where no trial fits, and for the O piece, nothing changes.
    pub fn srs_rotate(&mut self, clockwise: bool, map: &Board)
        requires
            old(self).wf(),
        ensures
            final(self).wf(),
            srs_outcome(*old(self), *final(self), clockwise, *map),
    {
        if self.shape == Shape::O {
            return;
        }
        let ghost pts = turned(points(self.grid@), self.pivot_point(), clockwise);
        let ghost ks = kicks(self.shape == Shape::I, self.rotation as int, clockwise);
        let ghost start = *self;
        let rotated = self.rotate(clockwise);
        let tests = wall_kicks(self.shape == Shape::I, self.rotation, clockwise);
        let mut t: usize = 0;
        while t < 5
            invariant
                0 <= t <= 5,
                *self == start,
                start == *old(self),
                pts == turned_cells(start, clockwise),
                ks == kicks_of(start, clockwise),
                start.shape != Shape::O,
                self.wf(),
                rotated.wf(),
                points(rotated.grid@) == pts,
                rotated.pivot_point() == start.pivot_point(),
                rotated.rotation == next_state(start.rotation as int, clockwise),
                offsets(tests@) == ks,
                ks.len() == 5,
                forall|j: int| 0 <= j < t ==> !fits(pts, self.x() + ks[j].0, self.y() + ks[j].1, *map),
            decreases 5 - t,
        {
            let dx = tests[t].0;
            let dy = tests[t].1;
            assert(offsets(tests@)[t as int] == ks[t as int]);
            let px: i64 = self.position[0] as i64 + dx as i64;
            let py: i64 = self.position[1] as i64 + dy as i64;
            if px >= i32::MIN as i64 && px <= i32::MAX as i64 && py >= i32::MIN as i64 && py <= i32::MAX as i64 {
                if !collides_wide(&rotated.grid, px, py, map) {
                    assert(first_fit(pts, ks, self.x(), self.y(), *map, t as int));
                    let ghost o = *self;
                    self.grid = rotated.grid;
                    self.position[0] = px as i32;
                    self.position[1] = py as i32;
                    self.pivot = rotated.pivot;
                    self.rotation = rotated.rotation;
                    assert(turned_with(o, *self, clockwise, *map, t as int));
                    assert(first_fit(turned_cells(o, clockwise), kicks_of(o, clockwise), o.x(), o.y(), *map, t as int));
                    assert(can_turn(o, clockwise, *map));
                    return;
                }
            }
            t += 1;
        }
        proof {
            assert forall|k: int| !first_fit(pts, ks, self.x(), self.y(), *map, k) by {
                if 0 <= k < 5 {
                    assert(!fits(pts, self.x() + ks[k].0, self.y() + ks[k].1, *map));
                }
            }
            assert(!can_turn(*self, clockwise, *map));
        }
    }

    /// Turns the piece half a turn in place, without wall kicks: applied only where the
    /// turned cells fit at the same anchor. The O piece is left as it is.
    pub fn rotate_180(&mut self, map: &Board)
        requires
            old(self).wf(),
        ensures
            final(self).wf(),
            half_turn_outcome(*old(self), *final(self), *map),
    {
        if self.shape == Shape::O {
            return;
        }
        let once = self.rotate(true);
        let twice = once.rotate(true);
        if !collides_wide(&twice.grid, self.position[0] as i64, self.position[1] as i64, map) {
            self.grid = twice.grid;
            self.pivot = twice.pivot;
            self.rotation = twice.rotation;
        }
    }

    /// A copy of the piece, field by field.
    pub fn duplicate(&self) -> (r: Tetromino)
        ensures
            r.shape == self.shape,
            r.grid@ == self.grid@,
            r.color == self.color,
            r.position == self.position,
            r.pivot == self.pivot,
            r.rotation == self.rotation,
    {
        let mut grid: Vec<[i32; 2]> = Vec::new();
        let mut i: usize = 0;
        while i < self.grid.len()
            invariant
                0 <= i <= self.grid@.len(),
                grid@ == self.grid@.subrange(0, i as int),
            decreases self.grid@.len() - i,
        {
            grid.push(self.grid[i]);
            i += 1;
            assert(grid@ =~= self.grid@.subrange(0, i as int));
        }
        assert(grid@ =~= self.grid@);
        Tetromino {
            shape: self.shape,
            grid,
            color: self.color,
            position: self.position,
            pivot: self.pivot,
            rotation: self.rotation,
        }
    }
}

} // verus!
