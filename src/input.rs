use vstd::prelude::*;

verus! {

/// The press state of one auto-repeating key; times are monotonic nanoseconds.
#[derive(Clone, Copy, Debug, PartialEq, Eq, Structural)]
pub struct Keystate {
    pub is_pressed: bool,
    pub first_press_time: u64,
    pub last_repeat_time: u64,
}

impl Keystate {
    /// A released key.
    pub fn released(now: u64) -> (k: Keystate)
        ensures
            k == (Keystate { is_pressed: false, first_press_time: now, last_repeat_time: now }),
    {
        Keystate { is_pressed: false, first_press_time: now, last_repeat_time: now }
    }
}

/// The keys that repeat while held: move left, move right and soft drop.
#[derive(Clone, Copy, Debug, PartialEq, Eq, Structural)]
pub struct KeyStates {
    pub move_left: Keystate,
    pub move_right: Keystate,
    pub soft_drop: Keystate,
}

impl KeyStates {
    /// All three keys released.
    pub fn new(now: u64) -> (k: KeyStates)
        ensures
            k.move_left == (Keystate { is_pressed: false, first_press_time: now, last_repeat_time: now }),
            k.move_right == k.move_left,
            k.soft_drop == k.move_left,
    {
        KeyStates {
            move_left: Keystate::released(now),
            move_right: Keystate::released(now),
            soft_drop: Keystate::released(now),
        }
    }
}

/// A logical action that a key can be bound to.
#[derive(Clone, Copy, Debug, PartialEq, Eq, Structural)]
pub enum Binding {
    MoveLeft,
    MoveRight,
    RotateClockwise,
    RotateCounterClockwise,
    Rotate180,
    HardDrop,
    SoftDrop,
    Hold,
}

/// The scancode bound to each action, as the number of the key.
#[derive(Clone, Copy, Debug, PartialEq, Eq, Structural)]
pub struct KeyBindings {
    pub move_left: i32,
    pub move_right: i32,
    pub rotate_clockwise: i32,
    pub rotate_counter_clockwise: i32,
    pub rotate_180: i32,
    pub hard_drop: i32,
    pub soft_drop: i32,
    pub hold: i32,
    pub quick_reset: i32,
}

impl KeyBindings {
    /// The scancode of an action.
    pub open spec fn code_of(&self, key: Binding) -> i32 {
        match key {
            Binding::MoveLeft => self.move_left,
            Binding::MoveRight => self.move_right,
            Binding::RotateClockwise => self.rotate_clockwise,
            Binding::RotateCounterClockwise => self.rotate_counter_clockwise,
            Binding::Rotate180 => self.rotate_180,
            Binding::HardDrop => self.hard_drop,
            Binding::SoftDrop => self.soft_drop,
            Binding::Hold => self.hold,
        }
    }

    /// Binds `key` to `new_scancode`; the other bindings stay.
    pub fn update_binding(&mut self, key: Binding, new_scancode: i32)
        ensures
            final(self).code_of(key) == new_scancode,
            forall|b: Binding| b != key ==> final(self).code_of(b) == old(self).code_of(b),
            final(self).quick_reset == old(self).quick_reset,
    {
        match key {
            Binding::MoveLeft => self.move_left = new_scancode,
            Binding::MoveRight => self.move_right = new_scancode,
            Binding::RotateClockwise => self.rotate_clockwise = new_scancode,
            Binding::RotateCounterClockwise => self.rotate_counter_clockwise = new_scancode,
            Binding::Rotate180 => self.rotate_180 = new_scancode,
            Binding::HardDrop => self.hard_drop = new_scancode,
            Binding::SoftDrop => self.soft_drop = new_scancode,
            Binding::Hold => self.hold = new_scancode,
        }
    }

    /// Whether an action is bound to `scancode`.
    pub fn contains_scancode(&self, scancode: i32) -> (r: bool)
        ensures
            r == exists|b: Binding| self.code_of(b) == scancode,
    {
        let r = self.move_left == scancode || self.move_right == scancode || self.rotate_clockwise == scancode
            || self.rotate_counter_clockwise == scancode || self.rotate_180 == scancode || self.hard_drop
            == scancode || self.soft_drop == scancode || self.hold == scancode;
        proof {
            if self.move_left == scancode {
                assert(self.code_of(Binding::MoveLeft) == scancode);
            } else if self.move_right == scancode {
                assert(self.code_of(Binding::MoveRight) == scancode);
            } else if self.rotate_clockwise == scancode {
                assert(self.code_of(Binding::RotateClockwise) == scancode);
            } else if self.rotate_counter_clockwise == scancode {
                assert(self.code_of(Binding::RotateCounterClockwise) == scancode);
            } else if self.rotate_180 == scancode {
                assert(self.code_of(Binding::Rotate180) == scancode);
            } else if self.hard_drop == scancode {
                assert(self.code_of(Binding::HardDrop) == scancode);
            } else if self.soft_drop == scancode {
                assert(self.code_of(Binding::SoftDrop) == scancode);
            } else if self.hold == scancode {
                assert(self.code_of(Binding::Hold) == scancode);
            } else {
                assert forall|b: Binding| self.code_of(b) != scancode by {
                    match b {
                        Binding::MoveLeft => {},
                        Binding::MoveRight => {},
                        Binding::RotateClockwise => {},
                        Binding::RotateCounterClockwise => {},
                        Binding::Rotate180 => {},
                        Binding::HardDrop => {},
                        Binding::SoftDrop => {},
                        Binding::Hold => {},
                    }
                }
            }
        }
        r
    }

    /// Every scancode, in the order in which they are stored.
    pub fn all_scancodes(&self) -> (r: [i32; 9])
        ensures
            r@ == seq![
                self.move_left,
                self.move_right,
                self.rotate_clockwise,
                self.rotate_counter_clockwise,
                self.rotate_180,
                self.hard_drop,
                self.soft_drop,
                self.hold,
                self.quick_reset,
            ],
    {
        let r = [
            self.move_left,
            self.move_right,
            self.rotate_clockwise,
            self.rotate_counter_clockwise,
            self.rotate_180,
            self.hard_drop,
            self.soft_drop,
            self.hold,
            self.quick_reset,
        ];
        assert(r@ =~= seq![
            self.move_left,
            self.move_right,
            self.rotate_clockwise,
            self.rotate_counter_clockwise,
            self.rotate_180,
            self.hard_drop,
            self.soft_drop,
            self.hold,
            self.quick_reset,
        ]);
        r
    }
}

/// Player options; durations are in nanoseconds.
#[derive(Clone, Copy, Debug, PartialEq, Eq, Structural)]
pub struct Settings {
    pub bright_mode: bool,
    pub insta_das: bool,
    pub insta_softdrop: bool,
    pub repeat_delay: u64,
    pub repeat_interval: u64,
    pub fall_interval: u64,
    pub init_level: u32,
    pub key_bindings: KeyBindings,
}

impl Settings {
    /// The default options with the given key bindings: dark theme, instant auto-shift and
    /// soft drop, 100 ms repeat delay, 20 ms repeat interval and soft-drop interval, level 1.
    pub fn with_bindings(key_bindings: KeyBindings) -> (s: Settings)
        ensures
            s == (Settings {
                bright_mode: false,
                insta_das: true,
                insta_softdrop: true,
                repeat_delay: 100_000_000,
                repeat_interval: 20_000_000,
                fall_interval: 20_000_000,
                init_level: 1,
                key_bindings,
            }),
    {
        Settings {
            bright_mode: false,
            insta_das: true,
            insta_softdrop: true,
            repeat_delay: 100_000_000,
            repeat_interval: 20_000_000,
            fall_interval: 20_000_000,
            init_level: 1,
            key_bindings,
        }
    }
}

/// One input event of a frame, with the key given by its scancode number.
#[derive(Clone, Copy, Debug, PartialEq, Eq, Structural)]
pub enum InputEvent {
    Quit,
    KeyDown { scancode: i32, repeat: bool },
    KeyUp { scancode: i32 },
}

} // verus!
