use vstd::prelude::*;

use crate::bag::{draw_step, is_full_bag, sets_of_seven};
use crate::board::{blocked, cleared, collides_at, empty_row, Board};
use crate::piece::{
    can_turn, fits, kicks, kicks_of, point, points, quarter_turn, srs_outcome, turn, turned_cells,
    turned_with, Shape, Tetromino,
};

verus! {

/// Four quarter turns in one direction bring every cell back.
proof fn lemma_turn_four(p: (int, int), pv: (int, int), clockwise: bool)
    ensures
        turn(turn(turn(turn(p, pv, clockwise), pv, clockwise), pv, clockwise), pv, clockwise) == p,
{
}

/// A quarter turn one way and one the other way bring every cell back.
proof fn lemma_turn_back(p: (int, int), pv: (int, int), clockwise: bool)
    ensures
        turn(turn(p, pv, clockwise), pv, !clockwise) == p,
{
}

/// Rotating a piece (other than the O) a quarter clockwise four times in a row gives back
/// its cell layout, its pivot and its rotation state.
pub proof fn lemma_four_turns_restore(t0: Tetromino, t1: Tetromino, t2: Tetromino, t3: Tetromino, t4: Tetromino)
    requires
        t0.wf(),
        t0.shape != Shape::O,
        quarter_turn(t0, t1, true),
        quarter_turn(t1, t2, true),
        quarter_turn(t2, t3, true),
        quarter_turn(t3, t4, true),
    ensures
        points(t4.grid@) == points(t0.grid@),
        t4.pivot_point() == t0.pivot_point(),
        t4.rotation == t0.rotation,
        t4.position == t0.position,
{
    let pv = t0.pivot_point();
    let p0 = points(t0.grid@);
    let p4 = points(t4.grid@);
    assert(p4.len() == p0.len());
    assert forall|i: int| 0 <= i < p0.len() implies p4[i] == p0[i] by {
        lemma_turn_four(p0[i], pv, true);
    }
    assert(p4 =~= p0);
}

/// A cell outside the side walls or at or below the floor makes a collision, whatever
/// squares of the field are occupied.
pub proof fn lemma_out_of_bounds_collides(grid: Seq<[i32; 2]>, x: int, y: int, i: int)
    requires
        0 <= i < grid.len(),
        point(grid[i]).0 + x < 0 || point(grid[i]).0 + x >= 10 || point(grid[i]).1 + y >= 20,
    ensures
        forall|map: Board| collides_at(grid, x, y, map),
{
    assert forall|map: Board| collides_at(grid, x, y, map) by {
        assert(points(grid)[i] == point(grid[i]));
        assert(blocked(map, points(grid)[i].0 + x, points(grid)[i].1 + y));
    }
}

/// Clearing `count` rows from row `start` moves every row above `start` down by `count`,
/// empties the top `count` rows and keeps the rows below the cleared ones.
pub proof fn lemma_clear_shifts_rows(map: Board, start: int, count: int, n: Board)
    requires
        0 <= start,
        0 <= count,
        start + count <= 20,
        cleared(map, start, count, n),
    ensures
        forall|i: int| 0 <= i < start ==> #[trigger] n[i + count] == map[i],
        forall|i: int| 0 <= i < count ==> empty_row(#[trigger] n[i]),
        forall|i: int| start + count <= i < 20 ==> #[trigger] n[i] == map[i],
{
    assert forall|i: int| 0 <= i < start implies #[trigger] n[i + count] == map[i] by {
        let j = i + count;
        assert(0 <= j < 20);
        assert(j >= count && j < start + count);
    }
}

/// After `i` draws from `qs[0]` (at most seven), the queue starts with what followed the
/// first `i` kinds, and those kinds were drawn in order.
proof fn lemma_draw_prefix(qs: Seq<Seq<Shape>>, drawn: Seq<Shape>, i: int)
    requires
        qs.len() == 8,
        drawn.len() == 7,
        qs[0].len() >= 7,
        0 <= i <= 7,
        forall|i: int| 0 <= i < 7 ==> #[trigger] draw_step(qs[i], qs[i + 1], drawn[i]),
    ensures
        qs[i].len() >= 7 - i,
        qs[i].subrange(0, 7 - i) == qs[0].subrange(i, 7),
        forall|j: int| 0 <= j < i ==> drawn[j] == qs[0][j],
    decreases i,
{
    let q0 = qs[0];
    if i == 0 {
        assert(q0.subrange(0, 7) =~= q0.subrange(0, 7));
    } else {
        let h = i - 1;
        lemma_draw_prefix(qs, drawn, h);
        assert(draw_step(qs[h], qs[h + 1], drawn[h]));
        let a = qs[h];
        let b = qs[h + 1];
        assert(a[0] == a.subrange(0, 7 - h)[0]);
        assert(drawn[h] == q0[h]);
        assert(b.subrange(0, a.len() - 1) == a.drop_first());
        assert forall|m: int| 0 <= m < 7 - i implies b[m] == q0[i + m] by {
            assert(b.subrange(0, a.len() - 1)[m] == a.drop_first()[m]);
            assert(a[m + 1] == a.subrange(0, 7 - h)[m + 1]);
        }
        assert(b.subrange(0, 7 - i) =~= q0.subrange(i, 7));
    }
}

/// From a queue whose length is a multiple of seven, the next seven draws give each of the
/// seven kinds exactly once.
pub proof fn lemma_boundary_draws(qs: Seq<Seq<Shape>>, drawn: Seq<Shape>)
    requires
        qs.len() == 8,
        drawn.len() == 7,
        qs[0].len() >= 7,
        qs[0].len() % 7 == 0,
        sets_of_seven(qs[0]),
        forall|i: int| 0 <= i < 7 ==> #[trigger] draw_step(qs[i], qs[i + 1], drawn[i]),
    ensures
        is_full_bag(drawn),
{
    let q0 = qs[0];
    lemma_draw_prefix(qs, drawn, 7);
    let z: int = 0;
    assert(is_full_bag(q0.subrange(q0.len() % 7 + 7 * z, q0.len() % 7 + 7 * z + 7)));
    assert(drawn =~= q0.subrange(0, 7));
}

/// Every kick table starts with the in-place trial.
proof fn lemma_first_kick_in_place(is_i: bool, from: int, clockwise: bool)
    ensures
        kicks(is_i, from, clockwise)[0] == (0int, 0int),
        kicks(is_i, from, clockwise).len() == 5,
{
}

/// A wall-kicked quarter turn followed by one the other way, where both succeed, gives back
/// the cells, the pivot and the rotation state; where the first turn fits in place and the
/// piece fit where it was, it gives back the anchor too.
pub proof fn lemma_turn_round_trip(o: Tetromino, m: Tetromino, n: Tetromino, clockwise: bool, map: Board)
    requires
        o.wf(),
        can_turn(o, clockwise, map),
        srs_outcome(o, m, clockwise, map),
        can_turn(m, !clockwise, map),
        srs_outcome(m, n, !clockwise, map),
    ensures
        points(n.grid@) == points(o.grid@),
        n.pivot_point() == o.pivot_point(),
        n.rotation == o.rotation,
        n.shape == o.shape,
        !collides_at(o.grid@, o.x(), o.y(), map) && fits(turned_cells(o, clockwise), o.x(), o.y(), map)
            ==> n.position == o.position,
{
    let k1 = choose|k: int| turned_with(o, m, clockwise, map, k);
    let back = !clockwise;
    let k2 = choose|k: int| turned_with(m, n, back, map, k);
    let pv = o.pivot_point();
    let p0 = points(o.grid@);
    let p2 = points(n.grid@);
    assert forall|i: int| 0 <= i < p0.len() implies p2[i] == p0[i] by {
        lemma_turn_back(p0[i], pv, clockwise);
    }
    assert(p2 =~= p0);
    if !collides_at(o.grid@, o.x(), o.y(), map) && fits(turned_cells(o, clockwise), o.x(), o.y(), map) {
        lemma_first_kick_in_place(o.shape == Shape::I, o.rotation as int, clockwise);
        lemma_first_kick_in_place(m.shape == Shape::I, m.rotation as int, !clockwise);
        if k1 > 0 {
            assert(!fits(turned_cells(o, clockwise), o.x() + kicks_of(o, clockwise)[0].0, o.y() + kicks_of(o, clockwise)[0].1, map));
        }
        assert(k1 == 0);
        assert(turned_cells(m, !clockwise) =~= p0);
        if k2 > 0 {
            assert(!fits(turned_cells(m, !clockwise), m.x() + kicks_of(m, !clockwise)[0].0, m.y() + kicks_of(m, !clockwise)[0].1, map));
            assert(fits(p0, o.x(), o.y(), map));
        }
        assert(k2 == 0);
        assert(n.position =~= o.position);
    }
}

} // verus!
