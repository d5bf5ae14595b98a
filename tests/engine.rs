use rusty_tetris::bag::Bag;
use rusty_tetris::board::{
    clear_rows, first_full_line, has_colided, left_most_position, lowest_avaliable_position, place_piece,
    right_most_position, subsequent_lines, Board, Cell,
};
use rusty_tetris::game::{GameState, Gamemode, Lockdelay, LOCK_DELAY};
use rusty_tetris::input::{Binding, InputEvent, KeyBindings, KeyStates, Settings};
use rusty_tetris::menu::{score_page, MenuCursor};
use rusty_tetris::piece::{Color, Shape, Tetromino};

const ALL: [Shape; 7] = [Shape::I, Shape::O, Shape::T, Shape::S, Shape::Z, Shape::J, Shape::L];

fn empty_board() -> Board {
    [[Cell { color: None, occupied: false }; 10]; 20]
}

fn fill_row(map: &mut Board, r: usize) {
    for c in 0..10 {
        map[r][c] = Cell { color: Some(Color::rgba(1, 2, 3, 255)), occupied: true };
    }
}

fn bindings() -> KeyBindings {
    KeyBindings {
        move_left: 1,
        move_right: 2,
        rotate_clockwise: 3,
        rotate_counter_clockwise: 4,
        rotate_180: 5,
        hard_drop: 6,
        soft_drop: 7,
        hold: 8,
        quick_reset: 9,
    }
}

fn piece_at(shape: Shape, x: i32, y: i32) -> Tetromino {
    let mut t = Tetromino::new(shape);
    t.position = [x, y];
    t
}

#[test]
fn new_piece_has_canonical_layout() {
    let t = Tetromino::new(Shape::T);
    assert_eq!(t.grid, vec![[0, 1], [1, 1], [2, 1], [1, 0]]);
    assert_eq!(t.pivot, 1);
    assert_eq!(t.rotation, 0);
    assert_eq!(t.position, [0, 0]);
    assert_eq!(t.color, Color::rgba(128, 0, 128, 255));
    let o = Tetromino::new(Shape::O);
    assert_eq!(o.grid, vec![[0, 0], [1, 0], [0, 1], [1, 1]]);
    assert_eq!(o.pivot, 2);
}

#[test]
fn four_clockwise_turns_restore_layout() {
    for shape in ALL {
        if shape == Shape::O {
            continue;
        }
        let t0 = Tetromino::new(shape);
        let t1 = t0.rotate(true);
        let t2 = t1.rotate(true);
        let t3 = t2.rotate(true);
        let t4 = t3.rotate(true);
        assert_ne!(t1.grid, t0.grid);
        assert_eq!(t1.rotation, 1);
        assert_eq!(t4.grid, t0.grid);
        assert_eq!(t4.rotation, 0);
        assert_eq!(t4.pivot, t0.pivot);
    }
}

#[test]
fn clockwise_turn_of_t_piece() {
    let t = Tetromino::new(Shape::T).rotate(true);
    // pivot (1, 1); (x, y) -> (-y, x) around it
    assert_eq!(t.grid, vec![[1, 0], [1, 1], [1, 2], [2, 1]]);
    assert_eq!(t.pivot, 1);
    let c = Tetromino::new(Shape::T).rotate(false);
    assert_eq!(c.grid, vec![[1, 2], [1, 1], [1, 0], [0, 1]]);
    assert_eq!(c.rotation, 3);
}

#[test]
fn collides_outside_walls_and_floor_regardless_of_occupancy() {
    let grid = Tetromino::new(Shape::I).grid;
    let empty = empty_board();
    let mut full = empty_board();
    for r in 0..20 {
        fill_row(&mut full, r);
    }
    for map in [&empty, &full] {
        assert!(has_colided(&grid, &(-1, 5), map));
        assert!(has_colided(&grid, &(7, 5), map));
        assert!(has_colided(&grid, &(3, 20), map));
    }
    assert!(!has_colided(&grid, &(6, 19), &empty));
    assert!(!has_colided(&grid, &(0, 0), &empty));
}

#[test]
fn rows_above_the_top_never_collide_with_occupancy() {
    let grid = Tetromino::new(Shape::I).grid;
    let mut map = empty_board();
    fill_row(&mut map, 0);
    assert!(!has_colided(&grid, &(3, -1), &map));
    assert!(has_colided(&grid, &(3, 0), &map));
}

#[test]
fn clearing_one_row_shifts_rows_above_down_by_one() {
    let mut map = empty_board();
    fill_row(&mut map, 19);
    map[18][4] = Cell { color: Some(Color::rgba(9, 9, 9, 255)), occupied: true };
    map[0][0] = Cell { color: Some(Color::rgba(7, 7, 7, 255)), occupied: true };
    let before = map;
    assert_eq!(first_full_line(&map), Some(19));
    assert_eq!(subsequent_lines(&map, 19), 1);
    clear_rows(&mut map, 19, 1);
    for r in 1..20 {
        assert_eq!(map[r], before[r - 1]);
    }
    assert!(map[0].iter().all(|c| !c.occupied && c.color.is_none()));
    assert!(map[1][0].occupied);
}

#[test]
fn clearing_three_rows_shifts_rows_above_by_three() {
    let mut map = empty_board();
    for r in 17..20 {
        fill_row(&mut map, r);
    }
    map[16][2] = Cell { color: Some(Color::rgba(9, 9, 9, 255)), occupied: true };
    let before = map;
    assert_eq!(first_full_line(&map), Some(17));
    assert_eq!(subsequent_lines(&map, 17), 3);
    clear_rows(&mut map, 17, 3);
    for r in 3..20 {
        assert_eq!(map[r], before[r - 3]);
    }
    for r in 0..3 {
        assert!(map[r].iter().all(|c| !c.occupied));
    }
    assert!(map[19][2].occupied);
    assert!(!map[19][3].occupied);
}

#[test]
fn only_the_first_block_of_full_rows_is_counted() {
    let mut map = empty_board();
    fill_row(&mut map, 15);
    fill_row(&mut map, 17);
    fill_row(&mut map, 18);
    assert_eq!(first_full_line(&map), Some(15));
    assert_eq!(subsequent_lines(&map, 15), 1);
    assert_eq!(subsequent_lines(&map, 17), 2);
    assert_eq!(first_full_line(&empty_board()), None);
}

fn kinds_once(drawn: &[Shape]) -> bool {
    drawn.len() == 7 && ALL.iter().all(|k| drawn.iter().filter(|d| *d == k).count() == 1)
}

#[test]
fn seven_draws_from_a_set_boundary_hold_every_kind_once() {
    let mut bag = Bag::new();
    assert_eq!(bag.queue.len(), 7);
    for _round in 0..4 {
        assert_eq!(bag.queue.len() % 7, 0);
        let drawn: Vec<Shape> = (0..7).map(|_| bag.next_tetromino().shape).collect();
        assert!(kinds_once(&drawn));
    }
}

#[test]
fn drawn_pieces_spawn_at_their_anchor() {
    let mut bag = Bag::new();
    for _ in 0..14 {
        let t = bag.next_tetromino();
        let x = if t.shape == Shape::O { 4 } else { 3 };
        let y = if t.shape == Shape::I { 0 } else { -1 };
        assert_eq!(t.position, [x, y]);
        assert_eq!(t.rotation, 0);
        assert!(bag.queue.len() >= 7);
    }
}

#[test]
fn preview_returns_front_pieces_without_consuming() {
    let bag = Bag::new();
    let p = bag.preview(5);
    assert_eq!(p.len(), 5);
    for i in 0..5 {
        assert_eq!(p[i].shape, bag.queue[i].shape);
    }
    assert_eq!(bag.queue.len(), 7);
    assert_eq!(bag.preview(20).len(), 7);
    assert_eq!(bag.preview(0).len(), 0);
}

#[test]
fn hard_drop_position_is_grounded() {
    let mut map = empty_board();
    let t = piece_at(Shape::I, 3, 0);
    let d = lowest_avaliable_position(&t, &map);
    assert_eq!(d.position, [3, 19]);
    assert!(has_colided(&d.grid, &(3, 20), &map));
    map[10][4] = Cell { color: None, occupied: true };
    let d = lowest_avaliable_position(&t, &map);
    assert_eq!(d.position, [3, 9]);
    assert!(has_colided(&d.grid, &(3, 10), &map));
    let s = piece_at(Shape::T, 0, 0);
    let ds = lowest_avaliable_position(&s, &empty_board());
    assert_eq!(ds.position, [0, 18]);
}

#[test]
fn farthest_columns_on_an_empty_field() {
    let map = empty_board();
    let t = piece_at(Shape::I, 3, 5);
    assert_eq!(left_most_position(&t, &map), (0, 5));
    assert_eq!(right_most_position(&t, &map), (6, 5));
    let o = piece_at(Shape::O, 4, 5);
    assert_eq!(right_most_position(&o, &map), (8, 5));
}

#[test]
fn left_and_right_stop_at_walls() {
    let map = empty_board();
    let mut t = piece_at(Shape::I, 0, 5);
    t.left(&map);
    assert_eq!(t.position, [0, 5]);
    t.right(&map);
    assert_eq!(t.position, [1, 5]);
    t.fall();
    assert_eq!(t.position, [1, 6]);
}

#[test]
fn srs_round_trip_restores_piece() {
    let map = empty_board();
    for shape in ALL {
        let mut t = piece_at(shape, 4, 10);
        let start = t.clone();
        t.srs_rotate(true, &map);
        if shape != Shape::O {
            assert_eq!(t.rotation, 1);
        }
        t.srs_rotate(false, &map);
        assert_eq!(t.grid, start.grid);
        assert_eq!(t.position, start.position);
        assert_eq!(t.rotation, start.rotation);
    }
}

#[test]
fn srs_uses_a_wall_kick_against_the_left_wall() {
    let map = empty_board();
    // vertical I (state 1) against the left wall: turning back to state 0 needs a kick
    let mut t = piece_at(Shape::I, 0, 5);
    t.srs_rotate(true, &map);
    assert_eq!(t.rotation, 1);
    let xs: Vec<i32> = t.grid.iter().map(|c| c[0] + t.position[0]).collect();
    let leftmost = *xs.iter().min().unwrap();
    t.position[0] -= leftmost;
    let before = t.position;
    t.srs_rotate(true, &map);
    assert_eq!(t.rotation, 2);
    assert!(!has_colided(&t.grid, &(t.position[0], t.position[1]), &map));
    assert_ne!(t.position, before);
}

#[test]
fn failed_rotation_leaves_piece_unchanged() {
    let mut map = empty_board();
    for r in 0..20 {
        fill_row(&mut map, r);
    }
    for c in 3..7 {
        map[5][c] = Cell { color: None, occupied: false };
    }
    let mut t = piece_at(Shape::I, 3, 5);
    let start = t.clone();
    t.srs_rotate(true, &map);
    assert_eq!(t.grid, start.grid);
    assert_eq!(t.position, start.position);
    assert_eq!(t.rotation, 0);
}

#[test]
fn o_piece_does_not_turn() {
    let map = empty_board();
    let mut t = piece_at(Shape::O, 4, 4);
    t.srs_rotate(true, &map);
    t.rotate_180(&map);
    assert_eq!(t.grid, Tetromino::new(Shape::O).grid);
    assert_eq!(t.rotation, 0);
}

#[test]
fn half_turn_advances_two_states() {
    let map = empty_board();
    let mut t = piece_at(Shape::T, 4, 10);
    t.rotate_180(&map);
    assert_eq!(t.rotation, 2);
    assert_eq!(t.grid, vec![[2, 1], [1, 1], [0, 1], [1, 2]]);
    assert_eq!(t.position, [4, 10]);
}

fn classic() -> GameState {
    GameState::new(Gamemode::Classic, 20_000_000, 1_000_000_000, 0)
}

#[test]
fn single_line_scores_one_hundred_at_level_one() {
    let mut g = classic();
    fill_row(&mut g.map, 19);
    g.clear_lines();
    assert_eq!(g.score, 100);
    assert_eq!(g.lines_cleared, 1);
    assert_eq!(g.level, 1);
}

#[test]
fn four_lines_score_eight_hundred_at_level_one() {
    let mut g = classic();
    for r in 16..20 {
        fill_row(&mut g.map, r);
    }
    g.clear_lines();
    assert_eq!(g.score, 800);
    assert_eq!(g.lines_cleared, 4);
}

#[test]
fn two_and_three_lines_and_level_multiplier() {
    let mut g = classic();
    for r in 18..20 {
        fill_row(&mut g.map, r);
    }
    g.clear_lines();
    assert_eq!(g.score, 300);
    for r in 17..20 {
        fill_row(&mut g.map, r);
    }
    g.clear_lines();
    assert_eq!(g.score, 800);
    assert_eq!(g.lines_cleared, 5);
    g.lines_cleared = 9;
    fill_row(&mut g.map, 19);
    g.clear_lines();
    assert_eq!(g.level, 2);
    assert_eq!(g.score, 900);
    fill_row(&mut g.map, 19);
    g.clear_lines();
    assert_eq!(g.score, 1100);
}

#[test]
fn no_full_row_changes_nothing() {
    let mut g = classic();
    g.map[19][0] = Cell { color: None, occupied: true };
    let before = g.map;
    g.clear_lines();
    assert_eq!(g.map, before);
    assert_eq!(g.score, 0);
    assert_eq!(g.lines_cleared, 0);
}

#[test]
fn sprint_ends_exactly_at_forty_lines() {
    let mut g = GameState::new(Gamemode::Lines40, 20_000_000, 1_000_000_000, 0);
    g.lines_cleared = 38;
    fill_row(&mut g.map, 19);
    g.clear_lines();
    assert_eq!(g.lines_cleared, 39);
    assert!(g.run);
    assert!(!g.score_pending);
    fill_row(&mut g.map, 19);
    g.clear_lines();
    assert_eq!(g.lines_cleared, 40);
    assert!(!g.run);
    assert!(g.take_score_pending());
    assert!(!g.score_pending);
    assert_eq!(g.score, 0);
}

#[test]
fn piece_above_the_top_ends_the_game_without_writing() {
    let mut g = classic();
    g.current_tetromino = piece_at(Shape::T, 3, -1);
    let before = g.map;
    g.set_tetromino(5);
    assert!(!g.run);
    assert!(g.score_pending);
    assert_eq!(g.map, before);
}

#[test]
fn placing_writes_the_colour() {
    let mut map = empty_board();
    let t = piece_at(Shape::O, 4, 18);
    assert!(place_piece(&mut map, &t));
    for (r, c) in [(18, 4), (18, 5), (19, 4), (19, 5)] {
        assert!(map[r][c].occupied);
        assert_eq!(map[r][c].color, Some(Color::rgba(255, 255, 0, 255)));
    }
    assert_eq!(map.iter().flatten().filter(|c| c.occupied).count(), 4);
    let above = piece_at(Shape::I, 0, -1);
    assert!(!place_piece(&mut map, &above));
}

#[test]
fn hard_drop_locks_and_draws_next_piece() {
    let mut g = classic();
    let shape = g.current_tetromino.shape;
    let next = g.bag.queue[0].shape;
    g.hard_drop(7);
    assert!(g.run);
    assert_eq!(g.current_tetromino.shape, next);
    assert_eq!(g.fall_timer, 7);
    let filled = g.map.iter().flatten().filter(|c| c.occupied).count();
    assert_eq!(filled, 4);
    assert!(g.map[19].iter().any(|c| c.occupied));
    assert_ne!(g.bag.queue.len(), 0);
    let _ = shape;
}

#[test]
fn hold_swaps_once_per_piece() {
    let mut g = classic();
    let first = g.current_tetromino.shape;
    let next = g.bag.queue[0].shape;
    g.switch_hold_tetromino();
    assert_eq!(g.hold.as_ref().unwrap().shape, first);
    assert_eq!(g.current_tetromino.shape, next);
    assert!(g.is_holding);
    g.switch_hold_tetromino();
    assert_eq!(g.current_tetromino.shape, next);
    g.is_holding = false;
    g.switch_hold_tetromino();
    assert_eq!(g.current_tetromino.shape, first);
    let x = if first == Shape::O { 4 } else { 3 };
    assert_eq!(g.current_tetromino.position[0], x);
    assert_eq!(g.hold.as_ref().unwrap().shape, next);
}

fn resting_game() -> (GameState, KeyStates, Settings) {
    let mut g = classic();
    g.current_tetromino = piece_at(Shape::I, 3, 19);
    (g, KeyStates::new(0), Settings::with_bindings(bindings()))
}

fn tap(code: i32) -> Vec<InputEvent> {
    vec![InputEvent::KeyDown { scancode: code, repeat: false }, InputEvent::KeyUp { scancode: code }]
}

#[test]
fn lock_delay_refreshes_for_fifteen_moves_then_locks() {
    let (mut g, mut keys, settings) = resting_game();
    let step: u64 = 400_000_000;
    g.update(&vec![], &mut keys, &settings, 0);
    assert!(g.lock_delay.is_in_delay);
    assert_eq!(g.lock_delay.lock_delay_timer, 0);
    let mut now = 0;
    for k in 1..=15u8 {
        now += step;
        let code = if k % 2 == 1 { 1 } else { 2 };
        g.update(&tap(code), &mut keys, &settings, now);
        assert_eq!(g.current_tetromino.shape, Shape::I);
        assert_eq!(g.current_tetromino.position[1], 19);
        assert_eq!(g.lock_delay.moves_done, k);
        assert_eq!(g.lock_delay.lock_delay_timer, now);
    }
    let last_reset = now;
    now += step;
    g.update(&tap(1), &mut keys, &settings, now);
    assert_eq!(g.lock_delay.moves_done, 15);
    assert_eq!(g.lock_delay.lock_delay_timer, last_reset);
    assert_eq!(g.current_tetromino.position[1], 19);
    g.update(&vec![], &mut keys, &settings, last_reset + LOCK_DELAY - 1);
    assert_eq!(g.current_tetromino.position[1], 19);
    assert!(g.map[19].iter().all(|c| !c.occupied));
    g.update(&vec![], &mut keys, &settings, last_reset + LOCK_DELAY);
    assert_eq!(g.map[19].iter().filter(|c| c.occupied).count(), 4);
    assert!(!g.lock_delay.is_in_delay);
    assert_eq!(g.lock_delay.moves_done, 0);
}

#[test]
fn gravity_moves_a_falling_piece_each_interval() {
    let mut g = classic();
    let mut keys = KeyStates::new(0);
    let settings = Settings::with_bindings(bindings());
    let y = g.current_tetromino.position[1];
    g.update(&vec![], &mut keys, &settings, 999_999_999);
    assert_eq!(g.current_tetromino.position[1], y);
    g.update(&vec![], &mut keys, &settings, 1_000_000_000);
    assert_eq!(g.current_tetromino.position[1], y + 1);
    assert_eq!(g.fall_timer, 1_000_000_000);
    assert!(!g.lock_delay.is_in_delay);
}

#[test]
fn quit_event_stops_the_session() {
    let mut g = classic();
    let mut keys = KeyStates::new(0);
    let settings = Settings::with_bindings(bindings());
    g.update(&vec![InputEvent::Quit], &mut keys, &settings, 1);
    assert!(!g.run);
    assert!(!g.score_pending);
}

#[test]
fn hard_drop_key_locks_at_the_bottom() {
    let mut g = classic();
    let mut keys = KeyStates::new(0);
    let settings = Settings::with_bindings(bindings());
    g.update(&tap(6), &mut keys, &settings, 1);
    assert_eq!(g.map.iter().flatten().filter(|c| c.occupied).count(), 4);
    assert!(g.map[19].iter().any(|c| c.occupied));
}

#[test]
fn held_key_snaps_to_the_wall_after_the_repeat_delay() {
    let mut g = classic();
    g.current_tetromino = piece_at(Shape::I, 3, 5);
    let mut keys = KeyStates::new(0);
    let settings = Settings::with_bindings(bindings());
    g.update(&vec![InputEvent::KeyDown { scancode: 1, repeat: false }], &mut keys, &settings, 10);
    assert_eq!(g.current_tetromino.position[0], 2);
    g.update(&vec![], &mut keys, &settings, 10 + settings.repeat_delay);
    assert_eq!(g.current_tetromino.position[0], 0);
    g.update(&vec![InputEvent::KeyUp { scancode: 1 }], &mut keys, &settings, 10 + settings.repeat_delay + 1);
    assert!(!keys.move_left.is_pressed);
}

#[test]
fn lock_delay_ends_after_falling_more_than_three_rows() {
    let mut l = Lockdelay::new(0);
    l.start_if_grounded(true, 5);
    assert!(l.is_in_delay);
    assert!(l.register_move(6));
    l.record_fall(3);
    assert!(l.is_in_delay);
    assert_eq!(l.moves_done, 1);
    l.record_fall(1);
    assert!(!l.is_in_delay);
    assert_eq!(l.moves_done, 0);
    assert!(!l.register_move(7));
    assert!(!l.expired(10_000_000_000, true));
}

#[test]
fn lock_delay_expires_only_when_grounded() {
    let mut l = Lockdelay::new(0);
    l.start_if_grounded(true, 100);
    assert!(!l.expired(100 + LOCK_DELAY - 1, true));
    assert!(l.expired(100 + LOCK_DELAY, true));
    assert!(!l.expired(100 + LOCK_DELAY, false));
}

#[test]
fn key_bindings_update_and_lookup() {
    let mut kb = bindings();
    assert!(kb.contains_scancode(3));
    assert!(!kb.contains_scancode(9));
    kb.update_binding(Binding::Hold, 42);
    assert_eq!(kb.hold, 42);
    assert!(!kb.contains_scancode(8));
    assert!(kb.contains_scancode(42));
    assert_eq!(kb.all_scancodes(), [1, 2, 3, 4, 5, 6, 7, 42, 9]);
}

#[test]
fn default_settings() {
    let s = Settings::with_bindings(bindings());
    assert!(s.insta_das);
    assert!(s.insta_softdrop);
    assert!(!s.bright_mode);
    assert_eq!(s.repeat_delay, 100_000_000);
    assert_eq!(s.repeat_interval, 20_000_000);
    assert_eq!(s.init_level, 1);
}

#[test]
fn menu_cursor_stays_within_options() {
    let mut c = MenuCursor::new();
    c.move_index(false, 4);
    assert_eq!(c.current_index, 0);
    for _ in 0..6 {
        c.move_index(true, 4);
    }
    assert_eq!(c.current_index, 3);
    c.navigate_to_submenu(2);
    assert_eq!((c.current_menu, c.current_index), (2, 0));
    c.move_index(true, 4);
    c.back_to_parent(Some(0));
    assert_eq!((c.current_menu, c.current_index), (0, 0));
    c.back_to_parent(None);
    assert_eq!(c.current_menu, 0);
}

#[test]
fn score_pages_of_ten() {
    assert_eq!(score_page(1, 0), (0, 0, false));
    assert_eq!(score_page(1, 25), (0, 10, false));
    assert_eq!(score_page(3, 25), (20, 25, false));
    assert_eq!(score_page(4, 25), (20, 25, true));
    assert_eq!(score_page(2, 20), (10, 20, false));
    assert_eq!(score_page(3, 20), (10, 20, true));
}
