use vstd::prelude::*;

use rand::seq::SliceRandom;
use std::collections::VecDeque;

use crate::piece::{is_spawned, Shape, Tetromino};

verus! {

/// The seven kinds, one of each.
pub open spec fn all_kinds() -> Seq<Shape> {
    seq![Shape::I, Shape::O, Shape::T, Shape::S, Shape::Z, Shape::J, Shape::L]
}

/// Whether `s` holds each of the seven kinds exactly once, in any order.
pub open spec fn is_full_bag(s: Seq<Shape>) -> bool {
    s.to_multiset() == all_kinds().to_multiset()
}

/// Whether `s` is the tail of one set of seven followed by complete sets of seven.
pub open spec fn sets_of_seven(s: Seq<Shape>) -> bool {
    forall|k: int|
        0 <= k < s.len() / 7 ==> #[trigger] is_full_bag(s.subrange(s.len() % 7 + 7 * k, s.len() % 7 + 7 * k + 7))
}

/// One draw: `s` is the front of `q`; `q2` is the rest of `q`, with a set of seven added at
/// the tail where `q` held seven or fewer.
pub open spec fn draw_step(q: Seq<Shape>, q2: Seq<Shape>, s: Shape) -> bool {
    &&& q.len() >= 1
    &&& s == q[0]
    &&& q2.subrange(0, q.len() - 1) == q.drop_first()
    &&& q.len() > 7 ==> q2.len() == q.len() - 1
    &&& q.len() <= 7 ==> q2.len() == q.len() + 6 && is_full_bag(q2.subrange(q.len() - 1, q2.len() as int))
}

/// Relies on rand's `SliceRandom::shuffle` with the thread-local generator: it swaps
/// elements in place, so the result is a permutation of the input.
#[verifier::external_body]
fn shuffle_shapes(v: &mut Vec<Shape>)
    ensures
        final(v)@.len() == old(v)@.len(),
        final(v)@.to_multiset() == old(v)@.to_multiset(),
{
    v.shuffle(&mut rand::thread_rng());
}

/// The queue of upcoming pieces, filled one shuffled set of seven kinds at a time.
pub struct Bag {
    pub queue: VecDeque<Tetromino>,
}

impl Bag {
    /// The kinds of the queued pieces, front first.
    pub open spec fn shapes(&self) -> Seq<Shape> {
        self.queue@.map_values(|t: Tetromino| t.shape)
    }

    /// At least seven queued pieces, each fresh from `Tetromino::new`, whose kinds are the
    /// tail of one set of seven followed by complete sets.
    pub open spec fn wf(&self) -> bool {
        &&& self.queue@.len() >= 7
        &&& forall|i: int| 0 <= i < self.queue@.len() ==> #[trigger] self.queue@[i].is_fresh(self.queue@[i].shape)
        &&& sets_of_seven(self.shapes())
    }

    /// A bag holding one shuffled set of seven.
    pub fn new() -> (b: Bag)
        ensures
            b.wf(),
            b.shapes().len() == 7,
            is_full_bag(b.shapes()),
    {
        let mut bag = Bag { queue: VecDeque::new() };
        bag.refill();
        proof {
            assert(bag.shapes().subrange(0, 7) =~= bag.shapes());
        }
        bag
    }

    /// Appends one shuffled set of the seven kinds to the tail of the queue.
    fn refill(&mut self)
        requires
            forall|i: int| 0 <= i < old(self).queue@.len() ==> #[trigger] old(self).queue@[i].is_fresh(old(self).queue@[i].shape),
        ensures
            forall|i: int| 0 <= i < final(self).queue@.len() ==> #[trigger] final(self).queue@[i].is_fresh(final(self).queue@[i].shape),
            final(self).shapes().len() == old(self).shapes().len() + 7,
            final(self).shapes().subrange(0, old(self).shapes().len() as int) == old(self).shapes(),
            is_full_bag(final(self).shapes().subrange(old(self).shapes().len() as int, final(self).shapes().len() as int)),
    {
        let mut shapes = vec![Shape::I, Shape::O, Shape::T, Shape::S, Shape::Z, Shape::J, Shape::L];
        assert(shapes@ =~= all_kinds());
        shuffle_shapes(&mut shapes);
        let ghost start = self.shapes();
        let mut i: usize = 0;
        while i < shapes.len()
            invariant
                0 <= i <= shapes@.len(),
                shapes@.len() == 7,
                self.shapes().len() == start.len() + i,
                self.shapes().subrange(0, start.len() as int) == start,
                self.shapes().subrange(start.len() as int, self.shapes().len() as int) == shapes@.subrange(0, i as int),
                forall|j: int| 0 <= j < self.queue@.len() ==> #[trigger] self.queue@[j].is_fresh(self.queue@[j].shape),
            decreases shapes@.len() - i,
        {
            let t = Tetromino::new(shapes[i]);
            self.queue.push_back(t);
            i += 1;
            assert(self.shapes().subrange(0, start.len() as int) =~= start);
            assert(self.shapes().subrange(start.len() as int, self.shapes().len() as int) =~= shapes@.subrange(0, i as int));
        }
        assert(shapes@.subrange(0, 7) =~= shapes@);
    }

    /// Takes the next piece from the front of the queue, refilling first where seven or
    /// fewer are left, and places it at the spawn anchor of its kind.
    pub fn next_tetromino(&mut self) -> (t: Tetromino)
        requires
            old(self).wf(),
        ensures
            final(self).wf(),
            t.wf(),
            draw_step(old(self).shapes(), final(self).shapes(), t.shape),
            is_spawned(t, t.shape),
    {
        let ghost q = self.shapes();
        if self.queue.len() <= 7 {
            self.refill();
        }
        let ghost q1 = self.shapes();
        let ghost front = self.queue@[0];
        assert(front.is_fresh(front.shape));
        let mut t = self.queue.pop_front().unwrap();
        proof {
            front.lemma_fresh_wf();
        }
        t.position[0] = match t.shape {
            Shape::O => 4,
            _ => 3,
        };
        t.position[1] = match t.shape {
            Shape::I => 0,
            _ => -1,
        };
        proof {
            assert(self.shapes() =~= q1.drop_first());
            assert(q1[0] == q[0]);
            assert(self.shapes().subrange(0, q.len() - 1) =~= q.drop_first());
            if q.len() <= 7 {
                assert(self.shapes().subrange(q.len() - 1, self.shapes().len() as int) =~= q1.subrange(q.len() as int, q1.len() as int));
            }
            lemma_sets_after_draw(q, q1, self.shapes());
        }
        t
    }

    /// The first `count` queued pieces, or all of them where fewer are queued; the queue is
    /// left as it is.
    pub fn preview(&self, count: usize) -> (r: Vec<Tetromino>)
        requires
            self.wf(),
        ensures
            r@.len() == if count < self.queue@.len() { count as int } else { self.queue@.len() as int },
            forall|i: int| 0 <= i < r@.len() ==> #[trigger] r@[i].is_fresh(self.shapes()[i]),
    {
        let mut r: Vec<Tetromino> = Vec::new();
        let mut i: usize = 0;
        while i < count && i < self.queue.len()
            invariant
                self.wf(),
                0 <= i <= self.queue@.len(),
                i <= count,
                r@.len() == i,
                forall|j: int| 0 <= j < i ==> #[trigger] r@[j].is_fresh(self.shapes()[j]),
            decreases self.queue@.len() - i,
        {
            assert(self.queue@[i as int].is_fresh(self.queue@[i as int].shape));
            let t = self.queue[i].duplicate();
            r.push(t);
            i += 1;
        }
        r
    }
}

/// The sets-of-seven structure survives a draw: a refill appends a complete set, and
/// taking the front shortens the tail of the first set (or opens the next one).
proof fn lemma_sets_after_draw(q: Seq<Shape>, q1: Seq<Shape>, q2: Seq<Shape>)
    requires
        q.len() >= 7,
        sets_of_seven(q),
        q.len() <= 7 ==> q1.len() == q.len() + 7 && q1.subrange(0, q.len() as int) == q && is_full_bag(
            q1.subrange(q.len() as int, q1.len() as int),
        ),
        q.len() > 7 ==> q1 == q,
        q2 == q1.drop_first(),
    ensures
        sets_of_seven(q1),
        sets_of_seven(q2),
        q2.len() >= 7,
{
    let n = q.len() as int;
    if n <= 7 {
        assert(n == 7);
        assert(q1.len() == 14);
        assert forall|k: int| 0 <= k < q1.len() / 7 implies #[trigger] is_full_bag(
            q1.subrange(q1.len() % 7 + 7 * k, q1.len() % 7 + 7 * k + 7),
        ) by {
            if k == 0 {
                let z: int = 0;
                assert(is_full_bag(q.subrange(q.len() % 7 + 7 * z, q.len() % 7 + 7 * z + 7)));
                assert(q.subrange(q.len() % 7 + 7 * z, q.len() % 7 + 7 * z + 7) == q.subrange(0, 7));
                assert(q1.subrange(0, 7) =~= q.subrange(0, 7));
            } else {
                assert(k == 1);
            }
        }
    }
    let m = q1.len() as int;
    let r = m % 7;
    assert forall|k: int| 0 <= k < q2.len() / 7 implies #[trigger] is_full_bag(
        q2.subrange(q2.len() % 7 + 7 * k, q2.len() % 7 + 7 * k + 7),
    ) by {
        if r >= 1 {
            assert((m - 1) % 7 == r - 1 && (m - 1) / 7 == m / 7);
            assert(is_full_bag(q1.subrange(r + 7 * k, r + 7 * k + 7)));
            assert(q2.subrange(q2.len() % 7 + 7 * k, q2.len() % 7 + 7 * k + 7) =~= q1.subrange(r + 7 * k, r + 7 * k + 7));
        } else {
            assert((m - 1) % 7 == 6 && (m - 1) / 7 == m / 7 - 1);
            assert(is_full_bag(q1.subrange(r + 7 * (k + 1), r + 7 * (k + 1) + 7)));
            assert(q2.subrange(q2.len() % 7 + 7 * k, q2.len() % 7 + 7 * k + 7) =~= q1.subrange(7 * (k + 1), 7 * (k + 1) + 7));
        }
    }
}

} // verus!
