use vstd::prelude::*;

use crate::bag::{draw_step, Bag};
use crate::board::{
    clear_rows, cleared, collides_at, collides_wide, empty_cell, first_full_line, full_row,
    left_most_position, lowest_avaliable_position, place_piece, placed, reaches_above,
    right_most_position, subsequent_lines, Board, Cell,
};
use crate::input::{InputEvent, KeyStates, Keystate, Settings};
use crate::piece::{can_turn, half_turn_outcome, is_spawned, srs_outcome, Shape, Tetromino};

verus! {

/// How long a grounded piece may rest before it locks: half a second, in nanoseconds.
pub const LOCK_DELAY: u64 = 500_000_000;

/// Accepted moves per piece that still refresh the lock-delay timer.
pub const MOVE_LIMIT: u8 = 15;

/// Rows a delayed piece may fall in all before the delay ends.
pub const FALL_LIMIT: u8 = 3;

/// Lines that end a sprint.
pub const SPRINT_LINES: u32 = 40;

/// The game modes.
#[derive(Clone, Copy, Debug, PartialEq, Eq, Structural)]
pub enum Gamemode {
    /// Scores lines until a piece cannot enter the field.
    Classic,
    /// Ends once forty lines are cleared; the result is the time taken.
    Lines40,
}

/// Time elapsed from `t` to `now`, zero where `now` is earlier.
pub open spec fn elapsed(now: u64, t: u64) -> int {
    if now >= t {
        now - t
    } else {
        0
    }
}

fn since(now: u64, t: u64) -> (r: u64)
    ensures
        r == elapsed(now, t),
{
    if now >= t {
        now - t
    } else {
        0
    }
}

/// The lock delay after `rows` more rows fallen: while delayed, the fall counter grows
/// (capped at 255), and beyond three the delay ends with the move counter at zero.
pub open spec fn after_fall(l: Lockdelay, rows: int) -> Lockdelay {
    if l.is_in_delay && rows > 0 {
        let f = if l.ammount_fallen + rows > 255 { 255 } else { l.ammount_fallen + rows };
        Lockdelay {
            ammount_fallen: f as u8,
            is_in_delay: f <= FALL_LIMIT,
            moves_done: if f <= FALL_LIMIT { l.moves_done } else { 0 },
            ..l
        }
    } else {
        l
    }
}

/// The lock delay once the piece's groundedness is known: a grounded piece that is not
/// delayed yet enters the delay with the timer at `now` and the fall counter at zero.
pub open spec fn after_ground(l: Lockdelay, grounded: bool, now: u64) -> Lockdelay {
    if grounded && !l.is_in_delay {
        Lockdelay { lock_delay_timer: now, is_in_delay: true, ammount_fallen: 0, ..l }
    } else {
        l
    }
}

/// Whether an accepted move refreshes the timer: while delayed and under the move limit.
pub open spec fn refreshes(l: Lockdelay) -> bool {
    l.is_in_delay && l.moves_done < MOVE_LIMIT
}

/// The lock delay after an accepted move: counted, with the timer restarted at `now`,
/// where it refreshes; unchanged otherwise.
pub open spec fn after_move(l: Lockdelay, now: u64) -> Lockdelay {
    if refreshes(l) {
        Lockdelay { lock_delay_timer: now, moves_done: (l.moves_done + 1) as u8, ..l }
    } else {
        l
    }
}

/// Whether a delayed, grounded piece has waited the full duration.
pub open spec fn lock_due(l: Lockdelay, now: u64, grounded: bool) -> bool {
    l.is_in_delay && elapsed(now, l.lock_delay_timer) >= l.lock_delay_duration && grounded
}

/// The lock-delay state of the active piece; times are monotonic nanoseconds.
#[derive(Clone, Copy, Debug, PartialEq, Eq, Structural)]
pub struct Lockdelay {
    pub lock_delay_timer: u64,
    pub lock_delay_duration: u64,
    pub is_in_delay: bool,
    pub moves_done: u8,
    pub ammount_fallen: u8,
}

impl Lockdelay {
    /// Falling, with the standard duration.
    pub fn new(now: u64) -> (l: Lockdelay)
        ensures
            l == (Lockdelay {
                lock_delay_timer: now,
                lock_delay_duration: LOCK_DELAY,
                is_in_delay: false,
                moves_done: 0,
                ammount_fallen: 0,
            }),
    {
        Lockdelay {
            lock_delay_timer: now,
            lock_delay_duration: LOCK_DELAY,
            is_in_delay: false,
            moves_done: 0,
            ammount_fallen: 0,
        }
    }

    /// The state that `new` makes.
    pub open spec fn new_spec(now: u64) -> Lockdelay {
        Lockdelay {
            lock_delay_timer: now,
            lock_delay_duration: LOCK_DELAY,
            is_in_delay: false,
            moves_done: 0,
            ammount_fallen: 0,
        }
    }

    /// Back to falling, with both counters at zero: for a new piece.
    pub fn reset(&mut self)
        ensures
            *final(self) == (Lockdelay {
                is_in_delay: false,
                moves_done: 0,
                ammount_fallen: 0,
                ..*old(self)
            }),
    {
        self.is_in_delay = false;
        self.moves_done = 0;
        self.ammount_fallen = 0;
    }

    /// Counts `rows` fallen while delayed; beyond three in all the delay ends and the move
    /// counter starts again. Outside a delay nothing changes.
    pub fn record_fall(&mut self, rows: u64)
        ensures
            *final(self) == after_fall(*old(self), rows as int),
    {
        if self.is_in_delay && rows > 0 {
            let f: u8 = if rows >= 255 || self.ammount_fallen as u64 + rows > 255 {
                255
            } else {
                (self.ammount_fallen as u64 + rows) as u8
            };
            self.ammount_fallen = f;
            if f > FALL_LIMIT {
                self.is_in_delay = false;
                self.moves_done = 0;
            }
        }
    }

    /// Enters the delay where the piece is grounded and not delayed yet: the timer starts
    /// now and the fall counter at zero.
    pub fn start_if_grounded(&mut self, grounded: bool, now: u64)
        ensures
            *final(self) == after_ground(*old(self), grounded, now),
    {
        if grounded && !self.is_in_delay {
            self.is_in_delay = true;
            self.lock_delay_timer = now;
            self.ammount_fallen = 0;
        }
    }

    /// An accepted move: while delayed and under the move limit, counts it and restarts the
    /// timer, and says so; otherwise nothing changes.
    pub fn register_move(&mut self, now: u64) -> (refreshed: bool)
        ensures
            refreshed == refreshes(*old(self)),
            *final(self) == after_move(*old(self), now),
    {
        if self.is_in_delay && self.moves_done < MOVE_LIMIT {
            self.moves_done = self.moves_done + 1;
            self.lock_delay_timer = now;
            true
        } else {
            false
        }
    }

    /// Whether a delayed, grounded piece has waited the full duration.
    pub fn expired(&self, now: u64, grounded: bool) -> (r: bool)
        ensures
            r == lock_due(*self, now, grounded),
    {
        self.is_in_delay && since(now, self.lock_delay_timer) >= self.lock_delay_duration && grounded
    }
}

/// Points for clearing `n` lines at once at `level`.
pub open spec fn line_points(n: int, level: int) -> int {
    if n == 1 {
        100 * level
    } else if n == 2 {
        300 * level
    } else if n == 3 {
        500 * level
    } else if n == 4 {
        800 * level
    } else {
        0
    }
}

/// `a + b`, capped at the largest `u32`.
pub open spec fn capped(a: int, b: int) -> int {
    if a + b > u32::MAX {
        u32::MAX as int
    } else {
        a + b
    }
}

/// Row `r` is the topmost full row.
pub open spec fn is_first_full(map: Board, r: int) -> bool {
    &&& 0 <= r < 20
    &&& full_row(map, r)
    &&& forall|j: int| 0 <= j < r ==> !#[trigger] full_row(map, j)
}

/// No row is full.
pub open spec fn no_full_row(map: Board) -> bool {
    forall|j: int| 0 <= j < 20 ==> !#[trigger] full_row(map, j)
}

/// `n` full rows follow each other from `first` down, at most five, ending at the floor, at
/// a row that is not full, or after five.
pub open spec fn full_run(map: Board, first: int, n: int) -> bool {
    &&& 1 <= n <= 5
    &&& first + n <= 20
    &&& forall|j: int| first < j < first + n ==> #[trigger] full_row(map, j)
    &&& n < 5 && first + n < 20 ==> !full_row(map, first + n)
}

/// The fields that a lock leaves alone are equal in `o` and `n`.
pub open spec fn same_setup(o: GameState, n: GameState) -> bool {
    &&& n.game_mode == o.game_mode
    &&& n.hold == o.hold
    &&& n.game_timer == o.game_timer
    &&& n.fall_interval == o.fall_interval
    &&& n.level_fall_interval == o.level_fall_interval
}

/// What locking piece `t` at its anchor makes of `o`, in `n`. A piece with a cell above the
/// top row ends the session, with a result to record and the field untouched. Otherwise
/// the piece is written into the field, full rows are cleared, the next piece is drawn
/// from the bag, and hold, fall timer and lock delay start afresh.
pub open spec fn lock_effect(o: GameState, t: Tetromino, n: GameState, now: u64) -> bool {
    &&& same_setup(o, n)
    &&& if reaches_above(t.grid@, t.y()) {
        &&& !n.run
        &&& n.score_pending
        &&& n.map == o.map
        &&& n.current_tetromino == t
        &&& n.bag == o.bag
        &&& n.lines_cleared == o.lines_cleared
        &&& n.score == o.score
        &&& n.level == o.level
        &&& n.is_holding == o.is_holding
        &&& n.fall_timer == o.fall_timer
        &&& n.lock_delay == o.lock_delay
    } else {
        &&& exists|m: Board| placed(o.map, t, m) && clear_effect(o, m, n)
        &&& draw_step(o.bag.shapes(), n.bag.shapes(), n.current_tetromino.shape)
        &&& is_spawned(n.current_tetromino, n.current_tetromino.shape)
        &&& !n.is_holding
        &&& n.fall_timer == now
        &&& n.lock_delay == (Lockdelay { is_in_delay: false, moves_done: 0, ammount_fallen: 0, ..o.lock_delay })
    }
}

/// `d` is `t` moved straight down to the first row below which it would collide.
pub open spec fn dropped(t: Tetromino, d: Tetromino, map: Board) -> bool {
    &&& d.wf()
    &&& d.same_body(&t)
    &&& d.x() == t.x()
    &&& d.y() >= t.y()
    &&& collides_at(d.grid@, d.x(), d.y() + 1, map)
    &&& forall|y: int| t.y() < y <= d.y() ==> !collides_at(d.grid@, d.x(), y, map)
}

/// `n` is `o` after one step of the active piece left or right: it moves where its cells
/// fit one column over, and `moved` says whether it did.
pub open spec fn shifted(o: GameState, n: GameState, left: bool, moved: bool) -> bool {
    let t = o.current_tetromino;
    let nx = if left { t.x() - 1 } else { t.x() + 1 };
    &&& n == (GameState { current_tetromino: n.current_tetromino, ..o })
    &&& n.current_tetromino.same_body(&t)
    &&& n.current_tetromino.y() == t.y()
    &&& if collides_at(t.grid@, nx, t.y(), o.map) {
        !moved && n.current_tetromino.x() == t.x()
    } else {
        moved && n.current_tetromino.x() == nx
    }
}

/// `n` is `o` after a wall-kicked quarter turn of the active piece, and `moved` says
/// whether it turned.
pub open spec fn turned_state(o: GameState, n: GameState, clockwise: bool, moved: bool) -> bool {
    &&& n == (GameState { current_tetromino: n.current_tetromino, ..o })
    &&& srs_outcome(o.current_tetromino, n.current_tetromino, clockwise, o.map)
    &&& moved == can_turn(o.current_tetromino, clockwise, o.map)
}

/// `x` is the column that the piece reaches by single steps to one side: its own where it
/// already collides, else the last free column before a collision.
pub open spec fn farthest(t: Tetromino, map: Board, left: bool, x: int) -> bool {
    if collides_at(t.grid@, t.x(), t.y(), map) {
        x == t.x()
    } else if left {
        &&& x <= t.x()
        &&& collides_at(t.grid@, x - 1, t.y(), map)
        &&& forall|x2: int| x <= x2 <= t.x() ==> !collides_at(t.grid@, x2, t.y(), map)
    } else {
        &&& x >= t.x()
        &&& collides_at(t.grid@, x + 1, t.y(), map)
        &&& forall|x2: int| t.x() <= x2 <= x ==> !collides_at(t.grid@, x2, t.y(), map)
    }
}

/// A key marked pressed at `now`.
pub open spec fn pressed_at(k: Keystate, now: u64) -> Keystate {
    Keystate { is_pressed: true, first_press_time: now, ..k }
}

/// `n` is `o` after gravity: once the fall interval has passed since the last fall, a
/// piece that is not grounded moves down one row and the fall timer restarts; `fell` says
/// whether it did.
pub open spec fn gravity_effect(o: GameState, n: GameState, now: u64, fell: bool) -> bool {
    &&& fell == (elapsed(now, o.fall_timer) >= o.fall_interval && !o.grounded())
    &&& fell ==> {
        &&& n.current_tetromino.same_body(&o.current_tetromino)
        &&& n.current_tetromino.x() == o.current_tetromino.x()
        &&& n.current_tetromino.y() == o.current_tetromino.y() + 1
        &&& n == (GameState { current_tetromino: n.current_tetromino, fall_timer: now, ..o })
    }
    &&& !fell ==> n == o
}

/// `n` is `o` after the lock-delay rules of a frame whose piece stood at `start_row` before
/// input: rows fallen since count against the delay, a grounded piece enters it, an
/// accepted move refreshes its timer (and the fall timer) up to the move limit, and a
/// grounded piece whose delay has run out locks.
pub open spec fn lock_delay_effect(o: GameState, n: GameState, start_row: int, moved: bool, now: u64) -> bool {
    let rows = if o.current_tetromino.y() > start_row { o.current_tetromino.y() - start_row } else { 0 };
    let l1 = after_fall(o.lock_delay, rows);
    let l2 = after_ground(l1, o.grounded(), now);
    let l3 = if moved { after_move(l2, now) } else { l2 };
    let timer = if moved && refreshes(l2) { now } else { o.fall_timer };
    let mid = GameState { lock_delay: l3, fall_timer: timer, ..o };
    if lock_due(l3, now, o.grounded()) {
        lock_effect(mid, o.current_tetromino, n, now)
    } else {
        n == mid
    }
}

/// `n` and `kn` are session `o` and keys `k` after a press (not a repeat) of `scancode`,
/// by what `settings` binds to it: a horizontal key is marked held and steps the piece;
/// soft drop either drops the piece to its lowest row (instant mode) or is marked held;
/// the turn keys turn the piece; hard drop and hold are only reported. `r` holds whether
/// the piece moved, whether a hard drop and whether a hold was asked for.
pub open spec fn key_down_effect(
    o: GameState,
    k: KeyStates,
    scancode: i32,
    settings: Settings,
    now: u64,
    n: GameState,
    kn: KeyStates,
    r: (bool, bool, bool),
) -> bool {
    let kb = settings.key_bindings;
    if scancode == kb.move_left {
        &&& kn == (KeyStates { move_left: pressed_at(k.move_left, now), ..k })
        &&& shifted(o, n, true, r.0) && !r.1 && !r.2
    } else if scancode == kb.move_right {
        &&& kn == (KeyStates { move_right: pressed_at(k.move_right, now), ..k })
        &&& shifted(o, n, false, r.0) && !r.1 && !r.2
    } else if scancode == kb.soft_drop {
        &&& !r.1 && !r.2
        &&& if settings.insta_softdrop {
            &&& kn == k
            &&& dropped(o.current_tetromino, n.current_tetromino, o.map)
            &&& n == (GameState { current_tetromino: n.current_tetromino, fall_timer: now, ..o })
            &&& r.0 == (n.current_tetromino.y() != o.current_tetromino.y())
        } else {
            &&& kn == (KeyStates { soft_drop: pressed_at(k.soft_drop, now), ..k })
            &&& n == o
            &&& !r.0
        }
    } else if scancode == kb.hard_drop {
        kn == k && n == o && r == (false, true, false)
    } else if scancode == kb.rotate_clockwise {
        kn == k && turned_state(o, n, true, r.0) && !r.1 && !r.2
    } else if scancode == kb.rotate_counter_clockwise {
        kn == k && turned_state(o, n, false, r.0) && !r.1 && !r.2
    } else if scancode == kb.rotate_180 {
        &&& kn == k
        &&& n == (GameState { current_tetromino: n.current_tetromino, ..o })
        &&& half_turn_outcome(o.current_tetromino, n.current_tetromino, o.map)
        &&& r.0 == (n.current_tetromino.position != o.current_tetromino.position
            || n.current_tetromino.rotation != o.current_tetromino.rotation)
        &&& !r.1 && !r.2
    } else if scancode == kb.hold {
        kn == k && n == o && r == (false, false, true)
    } else {
        kn == k && n == o && r == (false, false, false)
    }
}

/// `n` and `kn` are session `o` and keys `k` after the auto-repeat of the held left (or
/// right) key: after the repeat delay the piece snaps to the farthest reachable column
/// (instant mode) or steps once per repeat interval; `moved` says whether it moved.
pub open spec fn auto_shift_effect(
    o: GameState,
    k: KeyStates,
    left: bool,
    settings: Settings,
    now: u64,
    n: GameState,
    kn: KeyStates,
    moved: bool,
) -> bool {
    let key = if left { k.move_left } else { k.move_right };
    if elapsed(now, key.first_press_time) < settings.repeat_delay {
        kn == k && n == o && !moved
    } else if settings.insta_das {
        &&& kn == k
        &&& n == (GameState { current_tetromino: n.current_tetromino, ..o })
        &&& n.current_tetromino.same_body(&o.current_tetromino)
        &&& n.current_tetromino.y() == o.current_tetromino.y()
        &&& farthest(o.current_tetromino, o.map, left, n.current_tetromino.x())
        &&& moved == (n.current_tetromino.x() != o.current_tetromino.x())
    } else if elapsed(now, key.last_repeat_time) >= settings.repeat_interval {
        &&& shifted(o, n, left, moved)
        &&& left ==> kn == (KeyStates {
            move_left: Keystate { last_repeat_time: now, ..k.move_left },
            ..k
        })
        &&& !left ==> kn == (KeyStates {
            move_right: Keystate { last_repeat_time: now, ..k.move_right },
            ..k
        })
    } else {
        kn == k && n == o && !moved
    }
}

/// `n` is `o` with the fall interval of a frame: while soft drop has been held past the
/// repeat delay and interval, the soft-drop interval where it is shorter; once released,
/// the interval of the level.
pub open spec fn soft_drop_effect(o: GameState, keys: KeyStates, settings: Settings, now: u64, n: GameState) -> bool {
    let k = keys.soft_drop;
    if !k.is_pressed {
        n == (GameState { fall_interval: o.level_fall_interval, ..o })
    } else if elapsed(now, k.first_press_time) >= settings.repeat_delay && elapsed(now, k.last_repeat_time)
        >= settings.repeat_interval && settings.fall_interval < o.fall_interval {
        n == (GameState { fall_interval: settings.fall_interval, ..o })
    } else {
        n == o
    }
}

/// `n` is `o` after the hold key: once per piece, the active kind is held as a canonical
/// piece, and the held kind (or, with nothing held, the next piece of the bag) enters at
/// its spawn anchor with a fresh lock delay.
pub open spec fn hold_effect(o: GameState, n: GameState) -> bool {
    &&& o.is_holding ==> n == o
    &&& !o.is_holding ==> {
        &&& n.is_holding
        &&& n.hold matches Some(h) && h.is_fresh(o.current_tetromino.shape)
        &&& o.hold is None ==> draw_step(
            o.bag.shapes(),
            n.bag.shapes(),
            n.current_tetromino.shape,
        ) && is_spawned(n.current_tetromino, n.current_tetromino.shape)
        &&& o.hold matches Some(h) ==> n.bag == o.bag && is_spawned(
            n.current_tetromino,
            h.shape,
        )
        &&& n.lock_delay == (Lockdelay {
            is_in_delay: false,
            moves_done: 0,
            ammount_fallen: 0,
            ..o.lock_delay
        })
        &&& n.map == o.map
        &&& n.score == o.score
        &&& n.lines_cleared == o.lines_cleared
        &&& n.level == o.level
        &&& n.run == o.run
    }
}

/// `n` is `o` after a hard drop: the active piece moved straight down as far as it goes
/// and locked there.
pub open spec fn hard_drop_effect(o: GameState, n: GameState, now: u64) -> bool {
    exists|d: Tetromino| dropped(o.current_tetromino, d, o.map) && lock_effect(o, d, n, now)
}

/// The keys after `scancode` is released: each held key bound to it is let go.
pub open spec fn released_keys(k: KeyStates, scancode: i32, settings: Settings) -> KeyStates {
    let kb = settings.key_bindings;
    KeyStates {
        move_left: if scancode == kb.move_left { Keystate { is_pressed: false, ..k.move_left } } else { k.move_left },
        move_right: if scancode == kb.move_right { Keystate { is_pressed: false, ..k.move_right } } else { k.move_right },
        soft_drop: if scancode == kb.soft_drop { Keystate { is_pressed: false, ..k.soft_drop } } else { k.soft_drop },
    }
}

/// `n` and `kn` are session `o` and keys `k` after one input event: quit stops the
/// session, a key press (not a repeat) acts as `key_down_effect` says, a release lets the
/// held keys bound to it go. `f` holds whether the piece moved, and whether a hard drop
/// and a hold were asked for.
pub open spec fn event_effect(
    o: GameState,
    k: KeyStates,
    e: InputEvent,
    settings: Settings,
    now: u64,
    n: GameState,
    kn: KeyStates,
    f: (bool, bool, bool),
) -> bool {
    match e {
        InputEvent::Quit => n == (GameState { run: false, ..o }) && kn == k && f == (false, false, false),
        InputEvent::KeyDown { scancode, repeat } => if repeat {
            n == o && kn == k && f == (false, false, false)
        } else {
            key_down_effect(o, k, scancode, settings, now, n, kn, f)
        },
        InputEvent::KeyUp { scancode } => n == o && kn == released_keys(k, scancode, settings) && f == (
            false,
            false,
            false,
        ),
    }
}

/// `ss` and `ks` are the sessions and keys from `o` and `k` through the events `es` in
/// order, and `fs` the flags of each event.
pub open spec fn events_chain(
    o: GameState,
    k: KeyStates,
    es: Seq<InputEvent>,
    settings: Settings,
    now: u64,
    ss: Seq<GameState>,
    ks: Seq<KeyStates>,
    fs: Seq<(bool, bool, bool)>,
) -> bool {
    &&& ss.len() == es.len() + 1
    &&& ks.len() == es.len() + 1
    &&& fs.len() == es.len()
    &&& ss[0] == o
    &&& ks[0] == k
    &&& forall|i: int|
        #![trigger fs[i]]
        0 <= i < es.len() ==> event_effect(ss[i], ks[i], es[i], settings, now, ss[i + 1], ks[i + 1], fs[i])
}

/// Some event moved the piece.
pub open spec fn any_moved(fs: Seq<(bool, bool, bool)>) -> bool {
    exists|i: int| 0 <= i < fs.len() && (#[trigger] fs[i]).0
}

/// Some event asked for a hard drop.
pub open spec fn any_drop(fs: Seq<(bool, bool, bool)>) -> bool {
    exists|i: int| 0 <= i < fs.len() && (#[trigger] fs[i]).1
}

/// Some event asked for a hold.
pub open spec fn any_hold(fs: Seq<(bool, bool, bool)>) -> bool {
    exists|i: int| 0 <= i < fs.len() && (#[trigger] fs[i]).2
}

/// `n` and `kn` are session `e` and keys `ke` after the rest of a frame's input, once its
/// events are applied: the hard drop (where `hd`), the hold (where `hs`), the auto-repeat
/// of a held left key and then of a held right key (each while the other is not held),
/// and the fall interval. `m` says whether an auto-repeat moved the piece.
pub open spec fn after_events_effect(
    e: GameState,
    ke: KeyStates,
    hd: bool,
    hs: bool,
    settings: Settings,
    now: u64,
    n: GameState,
    kn: KeyStates,
    m: bool,
) -> bool {
    exists|s1: GameState, s2: GameState, s3: GameState, k3: KeyStates, m3: bool, s4: GameState, k4: KeyStates, m4: bool|
        #![trigger after_events_steps(e, ke, hd, hs, settings, now, n, kn, m, s1, s2, s3, k3, m3, s4, k4, m4)]
        after_events_steps(e, ke, hd, hs, settings, now, n, kn, m, s1, s2, s3, k3, m3, s4, k4, m4)
}

/// The steps of `after_events_effect` through the given intermediate states.
pub open spec fn after_events_steps(
    e: GameState,
    ke: KeyStates,
    hd: bool,
    hs: bool,
    settings: Settings,
    now: u64,
    n: GameState,
    kn: KeyStates,
    m: bool,
    s1: GameState,
    s2: GameState,
    s3: GameState,
    k3: KeyStates,
    m3: bool,
    s4: GameState,
    k4: KeyStates,
    m4: bool,
) -> bool {
    &&& if hd { hard_drop_effect(e, s1, now) } else { s1 == e }
    &&& if hs { hold_effect(s1, s2) } else { s2 == s1 }
    &&& if ke.move_left.is_pressed && !ke.move_right.is_pressed {
        auto_shift_effect(s2, ke, true, settings, now, s3, k3, m3)
    } else {
        s3 == s2 && k3 == ke && !m3
    }
    &&& if k3.move_right.is_pressed && !k3.move_left.is_pressed {
        auto_shift_effect(s3, k3, false, settings, now, s4, k4, m4)
    } else {
        s4 == s3 && k4 == k3 && !m4
    }
    &&& soft_drop_effect(s4, k4, settings, now, n)
    &&& kn == k4
    &&& m == (m3 || m4)
}

/// `n` and `kn` are session `o` and keys `k` after a frame's input: the events in order
/// (see `event_effect`), then the rest (see `after_events_effect`). `moved` says whether
/// the piece was moved or turned.
pub open spec fn input_effect(
    o: GameState,
    k: KeyStates,
    es: Seq<InputEvent>,
    settings: Settings,
    now: u64,
    n: GameState,
    kn: KeyStates,
    moved: bool,
) -> bool {
    exists|ss: Seq<GameState>, ks: Seq<KeyStates>, fs: Seq<(bool, bool, bool)>, m: bool|
        #![trigger events_chain(o, k, es, settings, now, ss, ks, fs), after_events_effect(ss.last(), ks.last(), any_drop(fs), any_hold(fs), settings, now, n, kn, m)]
        events_chain(o, k, es, settings, now, ss, ks, fs) && after_events_effect(
            ss.last(),
            ks.last(),
            any_drop(fs),
            any_hold(fs),
            settings,
            now,
            n,
            kn,
            m,
        ) && moved == (any_moved(fs) || m)
}

/// Adding one event's flags to the list.
proof fn lemma_flags_push(fs: Seq<(bool, bool, bool)>, f: (bool, bool, bool))
    ensures
        any_moved(fs.push(f)) == (any_moved(fs) || f.0),
        any_drop(fs.push(f)) == (any_drop(fs) || f.1),
        any_hold(fs.push(f)) == (any_hold(fs) || f.2),
{
    let g = fs.push(f);
    assert(g[fs.len() as int] == f);
    assert forall|i: int| 0 <= i < fs.len() implies g[i] == fs[i] by {}
    if any_moved(g) {
        let i = choose|i: int| 0 <= i < g.len() && (#[trigger] g[i]).0;
        if i < fs.len() {
            assert(fs[i].0);
        }
    }
    if any_drop(g) {
        let i = choose|i: int| 0 <= i < g.len() && (#[trigger] g[i]).1;
        if i < fs.len() {
            assert(fs[i].1);
        }
    }
    if any_hold(g) {
        let i = choose|i: int| 0 <= i < g.len() && (#[trigger] g[i]).2;
        if i < fs.len() {
            assert(fs[i].2);
        }
    }
    if any_moved(fs) {
        let i = choose|i: int| 0 <= i < fs.len() && (#[trigger] fs[i]).0;
        assert(g[i].0);
    }
    if any_drop(fs) {
        let i = choose|i: int| 0 <= i < fs.len() && (#[trigger] fs[i]).1;
        assert(g[i].1);
    }
    if any_hold(fs) {
        let i = choose|i: int| 0 <= i < fs.len() && (#[trigger] fs[i]).2;
        assert(g[i].2);
    }
}

/// The session: the field, the pieces, the counters and the timers.
pub struct GameState {
    pub run: bool,
    pub game_mode: Gamemode,
    pub map: Board,
    pub level: u32,
    pub bag: Bag,
    pub current_tetromino: Tetromino,
    pub hold: Option<Tetromino>,
    pub score: u32,
    pub lines_cleared: u32,
    pub game_timer: u64,
    pub fall_timer: u64,
    pub fall_interval: u64,
    pub level_fall_interval: u64,
    pub is_holding: bool,
    pub lock_delay: Lockdelay,
    /// Set when the session has ended with a result to record.
    pub score_pending: bool,
}

/// What clearing the full rows of `m` makes of the counters of `o`, in `n`.
pub open spec fn clear_effect(o: GameState, m: Board, n: GameState) -> bool {
    if no_full_row(m) {
        &&& n.map == m
        &&& n.lines_cleared == o.lines_cleared
        &&& n.score == o.score
        &&& n.level == o.level
        &&& n.run == o.run
        &&& n.score_pending == o.score_pending
    } else {
        forall|r: int|
            is_first_full(m, r) ==> exists|k: int|
                #![trigger full_run(m, r, k)]
                full_run(m, r, k) && cleared(m, r, k, n.map) && n.lines_cleared == capped(
                    o.lines_cleared as int,
                    k,
                ) && (o.game_mode == Gamemode::Classic ==> {
                    &&& n.score == capped(o.score as int, line_points(k, o.level as int))
                    &&& n.level == n.lines_cleared / 10 + 1
                    &&& n.run == o.run
                    &&& n.score_pending == o.score_pending
                }) && (o.game_mode == Gamemode::Lines40 ==> {
                    &&& n.score == o.score
                    &&& n.level == o.level
                    &&& n.run == (o.run && n.lines_cleared < SPRINT_LINES)
                    &&& n.score_pending == (o.score_pending || n.lines_cleared >= SPRINT_LINES)
                })
    }
}

/// The fields that clearing lines leaves alone are equal in `o` and `n`.
pub open spec fn same_pieces(o: GameState, n: GameState) -> bool {
    &&& n.game_mode == o.game_mode
    &&& n.bag == o.bag
    &&& n.current_tetromino == o.current_tetromino
    &&& n.hold == o.hold
    &&& n.game_timer == o.game_timer
    &&& n.fall_timer == o.fall_timer
    &&& n.fall_interval == o.fall_interval
    &&& n.level_fall_interval == o.level_fall_interval
    &&& n.is_holding == o.is_holding
    &&& n.lock_delay == o.lock_delay
}

impl GameState {
    /// The pieces are well formed and the move counter within its limit.
    pub open spec fn wf(&self) -> bool {
        &&& self.current_tetromino.wf()
        &&& self.bag.wf()
        &&& (self.hold matches Some(h) ==> h.wf())
        &&& self.lock_delay.moves_done <= MOVE_LIMIT
    }

    /// Whether the active piece would collide one row lower.
    pub open spec fn grounded(&self) -> bool {
        collides_at(
            self.current_tetromino.grid@,
            self.current_tetromino.x(),
            self.current_tetromino.y() + 1,
            self.map,
        )
    }

    /// Whether the active piece would collide one row lower.
    pub fn is_grounded(&self) -> (r: bool)
        ensures
            r == self.grounded(),
    {
        let t = &self.current_tetromino;
        collides_wide(&t.grid, t.position[0] as i64, t.position[1] as i64 + 1, &self.map)
    }

    /// Level from the lines cleared: one more for every ten.
    fn set_level(&mut self)
        ensures
            final(self).level == old(self).lines_cleared / 10 + 1,
            *final(self) == (GameState { level: final(self).level, ..*old(self) }),
    {
        self.level = (self.lines_cleared / 10) + 1;
    }

    /// The topmost full row, if any.
    pub fn get_first_full_line(&self) -> (r: Option<usize>)
        ensures
            r matches Some(i) ==> is_first_full(self.map, i as int),
            r is None ==> no_full_row(self.map),
    {
        first_full_line(&self.map)
    }

    /// How many full rows follow each other from `first_full_line` down, at most five.
    pub fn get_subsequent_lines(&self, first_full_line: usize) -> (n: usize)
        requires
            first_full_line < 20,
        ensures
            full_run(self.map, first_full_line as int, n as int),
    {
        subsequent_lines(&self.map, first_full_line)
    }

    /// Ends a sprint once the target line count is reached, with a result to record.
    fn check_40_lines_game_over_state(&mut self)
        ensures
            *final(self) == (GameState {
                run: old(self).run && old(self).lines_cleared < SPRINT_LINES,
                score_pending: old(self).score_pending || old(self).lines_cleared >= SPRINT_LINES,
                ..*old(self)
            }),
    {
        if self.lines_cleared >= SPRINT_LINES {
            self.run = false;
            self.score_pending = true;
        }
    }

    /// Clears the topmost block of full rows: the rows above move down, the line count
    /// grows, and in the classic mode the score (100, 300, 500 or 800 times the level for
    /// one to four lines) and the level follow; a sprint ends at forty lines.
    pub fn clear_lines(&mut self)
        ensures
            same_pieces(*old(self), *final(self)),
            clear_effect(*old(self), old(self).map, *final(self)),
            final(self).run ==> old(self).run,
    {
        let ghost o = *self;
        match first_full_line(&self.map) {
            None => {},
            Some(first) => {
                let amount = subsequent_lines(&self.map, first);
                clear_rows(&mut self.map, first, amount);
                let total: u64 = self.lines_cleared as u64 + amount as u64;
                self.lines_cleared = if total > u32::MAX as u64 {
                    u32::MAX
                } else {
                    total as u32
                };
                let level = self.level as u64;
                let points: u64 = match amount {
                    1 => 100 * level,
                    2 => 300 * level,
                    3 => 500 * level,
                    4 => 800 * level,
                    _ => 0,
                };
                match self.game_mode {
                    Gamemode::Classic => {
                        let s: u64 = self.score as u64 + points;
                        self.score = if s > u32::MAX as u64 {
                            u32::MAX
                        } else {
                            s as u32
                        };
                        self.set_level();
                    },
                    Gamemode::Lines40 => {
                        self.check_40_lines_game_over_state();
                    },
                }
                proof {
                    assert forall|r: int| is_first_full(o.map, r) implies exists|k: int|
                        #![trigger full_run(o.map, r, k)]
                        full_run(o.map, r, k) && cleared(o.map, r, k, self.map) && self.lines_cleared == capped(
                            o.lines_cleared as int,
                            k,
                        ) && (o.game_mode == Gamemode::Classic ==> {
                            &&& self.score == capped(o.score as int, line_points(k, o.level as int))
                            &&& self.level == self.lines_cleared / 10 + 1
                            &&& self.run == o.run
                            &&& self.score_pending == o.score_pending
                        }) && (o.game_mode == Gamemode::Lines40 ==> {
                            &&& self.score == o.score
                            &&& self.level == o.level
                            &&& self.run == (o.run && self.lines_cleared < SPRINT_LINES)
                            &&& self.score_pending == (o.score_pending || self.lines_cleared >= SPRINT_LINES)
                        }) by {
                        assert(r == first);
                        assert(full_run(o.map, r, amount as int));
                    }
                }
            },
        }
    }

    /// Locks the active piece where it is (see `lock_effect`).
    pub fn set_tetromino(&mut self, now: u64)
        requires
            old(self).wf(),
        ensures
            final(self).wf(),
            lock_effect(*old(self), old(self).current_tetromino, *final(self), now),
            final(self).run ==> old(self).run,
    {
        let ghost o = *self;
        let entered = place_piece(&mut self.map, &self.current_tetromino);
        if !entered {
            self.run = false;
            self.score_pending = true;
            return;
        }
        let ghost m = self.map;
        self.clear_lines();
        self.current_tetromino = self.bag.next_tetromino();
        self.is_holding = false;
        self.fall_timer = now;
        self.lock_delay.reset();
        assert(placed(o.map, o.current_tetromino, m) && clear_effect(o, m, *self));
    }

    /// Moves the active piece straight down as far as it goes and locks it there.
    pub fn hard_drop(&mut self, now: u64)
        requires
            old(self).wf(),
        ensures
            final(self).wf(),
            hard_drop_effect(*old(self), *final(self), now),
            final(self).run ==> old(self).run,
    {
        let ghost o = *self;
        let current_tetromino = lowest_avaliable_position(&self.current_tetromino, &self.map);
        let ghost d = current_tetromino;
        self.current_tetromino = current_tetromino;
        let ghost o2 = *self;
        self.set_tetromino(now);
        assert(dropped(o.current_tetromino, d, o.map));
        assert(lock_effect(o2, d, *self, now));
        proof {
            if !reaches_above(d.grid@, d.y()) {
                let m = choose|m: Board| placed(o2.map, d, m) && clear_effect(o2, m, *self);
                assert(clear_effect(o, m, *self));
            }
        }
        assert(lock_effect(o, d, *self, now));
    }

    /// Swaps the active piece with the held one, once per piece: the active kind is held
    /// as a canonical piece, and the held kind (or, with nothing held, the next piece of the
    /// bag) enters at its spawn anchor with a fresh lock delay.
    pub fn switch_hold_tetromino(&mut self)
        requires
            old(self).wf(),
        ensures
            final(self).wf(),
            hold_effect(*old(self), *final(self)),
    {
        if self.is_holding {
            return;
        }
        let new_hold = Tetromino::new(self.current_tetromino.shape);
        let held: Option<Shape> = match &self.hold {
            None => None,
            Some(h) => Some(h.shape),
        };
        match held {
            None => {
                self.current_tetromino = self.bag.next_tetromino();
            },
            Some(shape) => {
                self.current_tetromino = Tetromino::spawned(shape);
            },
        }
        self.hold = Some(new_hold);
        self.is_holding = true;
        self.lock_delay.reset();
    }

    /// A new session: empty field, level 1, no score, the first piece drawn from a fresh
    /// bag, and every timer starting at `now`.
    pub fn new(game_mode: Gamemode, fall_interval: u64, level_fall_interval: u64, now: u64) -> (g: GameState)
        ensures
            g.wf(),
            g.run,
            g.game_mode == game_mode,
            forall|r: int, c: int| 0 <= r < 20 && 0 <= c < 10 ==> #[trigger] g.map[r][c] == empty_cell(),
            g.level == 1,
            g.score == 0,
            g.lines_cleared == 0,
            g.hold is None,
            !g.is_holding,
            !g.score_pending,
            is_spawned(g.current_tetromino, g.current_tetromino.shape),
            g.bag.shapes().len() == 13,
            g.game_timer == now,
            g.fall_timer == now,
            g.fall_interval == fall_interval,
            g.level_fall_interval == level_fall_interval,
            g.lock_delay == Lockdelay::new_spec(now),
    {
        let map: Board = [[Cell { color: None, occupied: false }; 10]; 20];
        let mut bag = Bag::new();
        let current_tetromino = bag.next_tetromino();
        GameState {
            run: true,
            game_mode,
            map,
            level: 1,
            bag,
            current_tetromino,
            hold: None,
            score: 0,
            lines_cleared: 0,
            game_timer: now,
            fall_timer: now,
            fall_interval,
            level_fall_interval,
            is_holding: false,
            lock_delay: Lockdelay::new(now),
            score_pending: false,
        }
    }

    /// Gravity: once the fall interval has passed since the last fall, a piece that is not
    /// grounded moves down one row and the fall timer restarts.
    pub fn apply_gravity(&mut self, now: u64) -> (fell: bool)
        requires
            old(self).wf(),
        ensures
            final(self).wf(),
            gravity_effect(*old(self), *final(self), now, fell),
    {
        let against = self.is_grounded();
        if since(now, self.fall_timer) >= self.fall_interval && !against {
            proof {
                self.current_tetromino.lemma_fit_bounds(
                    self.current_tetromino.x(),
                    self.current_tetromino.y() + 1,
                    self.map,
                );
            }
            self.current_tetromino.fall();
            self.fall_timer = now;
            true
        } else {
            false
        }
    }

    /// The lock-delay rules for one frame, after input and gravity: rows fallen since
    /// `start_row` count against the delay, a grounded piece enters it, an accepted move
    /// refreshes its timer (and the fall timer) up to the move limit, and a grounded piece
    /// whose delay has run out locks.
    pub fn resolve_lock_delay(&mut self, start_row: i32, moved: bool, now: u64)
        requires
            old(self).wf(),
        ensures
            final(self).wf(),
            lock_delay_effect(*old(self), *final(self), start_row as int, moved, now),
            final(self).run ==> old(self).run,
    {
        let y1 = self.current_tetromino.position[1];
        if y1 > start_row {
            self.lock_delay.record_fall((y1 as i64 - start_row as i64) as u64);
        }
        let grounded = self.is_grounded();
        self.lock_delay.start_if_grounded(grounded, now);
        if moved {
            if self.lock_delay.register_move(now) {
                self.fall_timer = now;
            }
        }
        if self.lock_delay.expired(now, grounded) {
            self.set_tetromino(now);
        }
    }

    /// Whether the active piece's anchor or rotation state differs from the given ones.
    fn piece_changed(&self, x: i32, y: i32, rotation: i8) -> (r: bool)
        ensures
            r == (self.current_tetromino.position[0] != x || self.current_tetromino.position[1] != y
                || self.current_tetromino.rotation != rotation),
    {
        self.current_tetromino.position[0] != x || self.current_tetromino.position[1] != y
            || self.current_tetromino.rotation != rotation
    }

    /// One step left or right; says whether the piece moved.
    pub fn shift(&mut self, left: bool) -> (moved: bool)
        requires
            old(self).wf(),
        ensures
            final(self).wf(),
            shifted(*old(self), *final(self), left, moved),
    {
        let x = self.current_tetromino.position[0];
        if left {
            self.current_tetromino.left(&self.map);
        } else {
            self.current_tetromino.right(&self.map);
        }
        self.current_tetromino.position[0] != x
    }

    /// A quarter turn with wall kicks; says whether the piece turned.
    pub fn turn(&mut self, clockwise: bool) -> (moved: bool)
        requires
            old(self).wf(),
        ensures
            final(self).wf(),
            turned_state(*old(self), *final(self), clockwise, moved),
    {
        let r = self.current_tetromino.rotation;
        self.current_tetromino.srs_rotate(clockwise, &self.map);
        self.current_tetromino.rotation != r
    }

    /// One key press that is not a repeat, by what `settings` binds to `scancode`: a
    /// horizontal key is marked held and steps the piece; soft drop either drops the piece
    /// to its lowest row (instant mode) or is marked held; the turn keys turn the piece;
    /// hard drop and hold are only reported. Returns whether the piece moved, whether a hard
    /// drop and whether a hold was asked for.
    pub fn key_down(&mut self, scancode: i32, keys: &mut KeyStates, settings: &Settings, now: u64) -> (r: (
        bool,
        bool,
        bool,
    ))
        requires
            old(self).wf(),
        ensures
            final(self).wf(),
            key_down_effect(*old(self), *old(keys), scancode, *settings, now, *final(self), *final(keys), r),
    {
        let kb = settings.key_bindings;
        if scancode == kb.move_left {
            keys.move_left.is_pressed = true;
            keys.move_left.first_press_time = now;
            (self.shift(true), false, false)
        } else if scancode == kb.move_right {
            keys.move_right.is_pressed = true;
            keys.move_right.first_press_time = now;
            (self.shift(false), false, false)
        } else if scancode == kb.soft_drop {
            if settings.insta_softdrop {
                let y = self.current_tetromino.position[1];
                self.current_tetromino = lowest_avaliable_position(&self.current_tetromino, &self.map);
                self.fall_timer = now;
                (self.current_tetromino.position[1] != y, false, false)
            } else {
                keys.soft_drop.is_pressed = true;
                keys.soft_drop.first_press_time = now;
                (false, false, false)
            }
        } else if scancode == kb.hard_drop {
            (false, true, false)
        } else if scancode == kb.rotate_clockwise {
            (self.turn(true), false, false)
        } else if scancode == kb.rotate_counter_clockwise {
            (self.turn(false), false, false)
        } else if scancode == kb.rotate_180 {
            let t = &self.current_tetromino;
            let (x, y, rot) = (t.position[0], t.position[1], t.rotation);
            self.current_tetromino.rotate_180(&self.map);
            (self.piece_changed(x, y, rot), false, false)
        } else if scancode == kb.hold {
            (false, false, true)
        } else {
            (false, false, false)
        }
    }

    /// Auto-repeat of a held horizontal key: after the repeat delay the piece snaps to the
    /// farthest reachable column (instant mode) or steps once per repeat interval. Returns
    /// whether the piece moved.
    pub fn auto_shift(&mut self, left: bool, keys: &mut KeyStates, settings: &Settings, now: u64) -> (moved: bool)
        requires
            old(self).wf(),
        ensures
            final(self).wf(),
            auto_shift_effect(*old(self), *old(keys), left, *settings, now, *final(self), *final(keys), moved),
    {
        let key = if left {
            keys.move_left
        } else {
            keys.move_right
        };
        if since(now, key.first_press_time) < settings.repeat_delay {
            return false;
        }
        if settings.insta_das {
            let x = self.current_tetromino.position[0];
            let p = if left {
                left_most_position(&self.current_tetromino, &self.map)
            } else {
                right_most_position(&self.current_tetromino, &self.map)
            };
            self.current_tetromino.position[0] = p.0;
            p.0 != x
        } else if since(now, key.last_repeat_time) >= settings.repeat_interval {
            let moved = self.shift(left);
            if left {
                keys.move_left.last_repeat_time = now;
            } else {
                keys.move_right.last_repeat_time = now;
            }
            moved
        } else {
            false
        }
    }

    /// The input of one frame: each event in order (quit, key presses, key releases), then
    /// any hard drop and hold asked for, then the auto-repeat of held keys and the soft-drop
    /// fall speed. Returns whether the piece was moved or turned.
    pub fn handle_input(&mut self, events: &Vec<InputEvent>, keys: &mut KeyStates, settings: &Settings, now: u64) -> (moved: bool)
        requires
            old(self).wf(),
        ensures
            final(self).wf(),
            final(self).run ==> old(self).run,
            (exists|i: int| 0 <= i < events@.len() && #[trigger] events@[i] == InputEvent::Quit) ==> !final(self).run,
            input_effect(*old(self), *old(keys), events@, *settings, now, *final(self), *final(keys), moved),
    {
        let kb = settings.key_bindings;
        let mut moved = false;
        let mut hard_drop = false;
        let mut switch_hold = false;
        let mut quit = false;
        let ghost mut ss: Seq<GameState> = seq![*self];
        let ghost mut ks: Seq<KeyStates> = seq![*keys];
        let ghost mut fs: Seq<(bool, bool, bool)> = seq![];
        let mut i: usize = 0;
        while i < events.len()
            invariant
                self.wf(),
                0 <= i <= events@.len(),
                self.run ==> old(self).run,
                quit ==> !self.run,
                (exists|j: int| 0 <= j < i && #[trigger] events@[j] == InputEvent::Quit) ==> quit,
                kb == settings.key_bindings,
                ss.len() == i + 1,
                ks.len() == i + 1,
                fs.len() == i,
                ss[0] == *old(self),
                ks[0] == *old(keys),
                ss[i as int] == *self,
                ks[i as int] == *keys,
                forall|j: int|
                    #![trigger fs[j]]
                    0 <= j < i ==> event_effect(ss[j], ks[j], events@[j], *settings, now, ss[j + 1], ks[j + 1], fs[j]),
                moved == any_moved(fs),
                hard_drop == any_drop(fs),
                switch_hold == any_hold(fs),
            decreases events@.len() - i,
        {
            let ghost s0 = *self;
            let ghost k0 = *keys;
            let f: (bool, bool, bool) = match events[i] {
                InputEvent::Quit => {
                    self.run = false;
                    quit = true;
                    (false, false, false)
                },
                InputEvent::KeyDown { scancode, repeat } => {
                    if !repeat {
                        self.key_down(scancode, keys, settings, now)
                    } else {
                        (false, false, false)
                    }
                },
                InputEvent::KeyUp { scancode } => {
                    if scancode == kb.move_left {
                        keys.move_left.is_pressed = false;
                    }
                    if scancode == kb.move_right {
                        keys.move_right.is_pressed = false;
                    }
                    if scancode == kb.soft_drop {
                        keys.soft_drop.is_pressed = false;
                    }
                    (false, false, false)
                },
            };
            moved = moved || f.0;
            hard_drop = hard_drop || f.1;
            switch_hold = switch_hold || f.2;
            proof {
                assert(event_effect(s0, k0, events@[i as int], *settings, now, *self, *keys, f));
                lemma_flags_push(fs, f);
                ss = ss.push(*self);
                ks = ks.push(*keys);
                fs = fs.push(f);
                assert forall|j: int| #![trigger fs[j]] 0 <= j < i + 1 implies event_effect(ss[j], ks[j], events@[j], *settings, now, ss[j + 1], ks[j + 1], fs[j]) by {
                    if j == i {
                    } else {
                        assert(fs[j] == fs.drop_last()[j]);
                    }
                }
            }
            i += 1;
        }
        let ghost e = *self;
        let ghost ke = *keys;
        if hard_drop {
            self.hard_drop(now);
        }
        let ghost s1 = *self;
        if switch_hold {
            self.switch_hold_tetromino();
        }
        let ghost s2 = *self;
        let mut m3 = false;
        if keys.move_left.is_pressed && !keys.move_right.is_pressed {
            m3 = self.auto_shift(true, keys, settings, now);
        }
        let ghost s3 = *self;
        let ghost k3 = *keys;
        let mut m4 = false;
        if keys.move_right.is_pressed && !keys.move_left.is_pressed {
            m4 = self.auto_shift(false, keys, settings, now);
        }
        let ghost s4 = *self;
        let ghost k4 = *keys;
        self.apply_soft_drop_speed(keys, settings, now);
        proof {
            assert(ss.last() == e && ks.last() == ke);
            assert(after_events_steps(e, ke, hard_drop, switch_hold, *settings, now, *self, *keys, m3 || m4, s1, s2, s3, k3, m3, s4, k4, m4));
            assert(after_events_effect(ss.last(), ks.last(), any_drop(fs), any_hold(fs), *settings, now, *self, *keys, m3 || m4));
            assert(events_chain(*old(self), *old(keys), events@, *settings, now, ss, ks, fs));
        }
        moved || m3 || m4
    }

    /// The fall interval for a frame: while soft drop has been held past the repeat delay
    /// and interval, the soft-drop interval where it is shorter; once released, the
    /// interval of the level.
    pub fn apply_soft_drop_speed(&mut self, keys: &KeyStates, settings: &Settings, now: u64)
        ensures
            soft_drop_effect(*old(self), *keys, *settings, now, *final(self)),
    {
        if keys.soft_drop.is_pressed {
            if since(now, keys.soft_drop.first_press_time) >= settings.repeat_delay && since(
                now,
                keys.soft_drop.last_repeat_time,
            ) >= settings.repeat_interval && settings.fall_interval < self.fall_interval {
                self.fall_interval = settings.fall_interval;
            }
        } else {
            self.fall_interval = self.level_fall_interval;
        }
    }

    /// One frame: input first, then gravity, then the lock-delay rules, with the rows
    /// fallen counted from where the piece stood before input.
    pub fn update(&mut self, events: &Vec<InputEvent>, keys: &mut KeyStates, settings: &Settings, now: u64)
        requires
            old(self).wf(),
        ensures
            final(self).wf(),
            final(self).run ==> old(self).run,
            (exists|i: int| 0 <= i < events@.len() && #[trigger] events@[i] == InputEvent::Quit) ==> !final(self).run,
            exists|after_input: GameState, after_gravity: GameState, moved: bool, fell: bool|
                input_effect(*old(self), *old(keys), events@, *settings, now, after_input, *final(keys), moved)
                    && after_input.wf() && gravity_effect(after_input, after_gravity, now, fell) && lock_delay_effect(
                    after_gravity,
                    *final(self),
                    old(self).current_tetromino.y(),
                    moved,
                    now,
                ),
    {
        let start_row = self.current_tetromino.position[1];
        let moved = self.handle_input(events, keys, settings, now);
        let ghost after_input = *self;
        let fell = self.apply_gravity(now);
        let ghost after_gravity = *self;
        self.resolve_lock_delay(start_row, moved, now);
        assert(start_row as int == old(self).current_tetromino.y());
        assert(input_effect(*old(self), *old(keys), events@, *settings, now, after_input, *keys, moved)
            && after_input.wf() && gravity_effect(after_input, after_gravity, now, fell) && lock_delay_effect(
            after_gravity,
            *self,
            old(self).current_tetromino.y(),
            moved,
            now,
        ));
    }

    /// Hands out the pending result of an ended session once: true where one was pending.
    pub fn take_score_pending(&mut self) -> (r: bool)
        ensures
            r == old(self).score_pending,
            *final(self) == (GameState { score_pending: false, ..*old(self) }),
    {
        let r = self.score_pending;
        self.score_pending = false;
        r
    }
}

} // verus!
