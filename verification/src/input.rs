//! One frame's snapshot of the devices, and the bindings that read it.
//!
//! A frame is resolved against a single `Poll`: nothing here asks a
//! device twice, so every control of a frame sees the same buttons and
//! the same pointer.

use vstd::prelude::*;
use crate::key::{Key, KeyboardKey, MouseButton};
use crate::shape::Vector2;

verus! {

/// What one button did between the previous frame and this one.
#[derive(Clone, Copy, PartialEq, Eq, Structural, Debug)]
pub struct Signal {
    /// Held at the previous frame.
    pub before: bool,
    /// Held at this frame.
    pub now: bool,
    /// The keyboard repeated the key at this frame.
    pub repeat: bool,
}

impl Signal {
    /// A button that nobody touched.
    pub open spec fn spec_idle() -> Signal {
        Signal { before: false, now: false, repeat: false }
    }

    /// A button that nobody touched.
    #[verifier::when_used_as_spec(spec_idle)]
    pub fn idle() -> (r: Signal)
        ensures
            r == Self::spec_idle(),
    {
        Signal { before: false, now: false, repeat: false }
    }

    /// Held at this frame.
    pub open spec fn spec_down(self) -> bool {
        self.now
    }

    /// Not held at this frame.
    pub open spec fn spec_up(self) -> bool {
        !self.now
    }

    /// Went down at this frame.
    pub open spec fn spec_press(self) -> bool {
        self.now && !self.before
    }

    /// Came up at this frame.
    pub open spec fn spec_release(self) -> bool {
        !self.now && self.before
    }

    /// Whether the button is held at this frame.
    #[verifier::when_used_as_spec(spec_down)]
    pub fn down(self) -> (r: bool)
        ensures
            r == self.spec_down(),
    {
        self.now
    }

    /// Whether the button is not held at this frame.
    #[verifier::when_used_as_spec(spec_up)]
    pub fn up(self) -> (r: bool)
        ensures
            r == self.spec_up(),
    {
        !self.now
    }

    /// Whether the button went down at this frame.
    #[verifier::when_used_as_spec(spec_press)]
    pub fn press(self) -> (r: bool)
        ensures
            r == self.spec_press(),
    {
        self.now && !self.before
    }

    /// Whether the button came up at this frame.
    #[verifier::when_used_as_spec(spec_release)]
    pub fn release(self) -> (r: bool)
        ensures
            r == self.spec_release(),
    {
        !self.now && self.before
    }
}

/// The signal of one button in a snapshot.
#[derive(Clone, Copy, PartialEq, Eq, Structural, Debug)]
pub struct Reading {
    pub key: Key,
    pub signal: Signal,
}

/// The input of one frame.
#[derive(Clone, Debug, PartialEq, Eq)]
pub struct Poll {
    /// Where the pointer is.
    pub mouse: Vector2,
    /// How far the pointer moved since the previous frame.
    pub delta: Vector2,
    /// How far the wheel turned, in notches.
    pub wheel: i64,
    /// How long the previous frame took, in seconds.
    pub time: i64,
    /// The extent of the screen.
    pub screen: Vector2,
    /// The character typed at this frame, if any.
    pub character: Option<char>,
    /// The window was asked to close.
    pub close: bool,
    /// The buttons that were read. A button that is not listed is idle;
    /// of two readings of one button the first counts.
    pub reading: Vec<Reading>,
}

impl Poll {
    /// The signal of `key` among the readings from `from` on.
    pub open spec fn find(reading: Seq<Reading>, key: Key, from: int) -> Signal
        decreases reading.len() - from,
    {
        if from < 0 || from >= reading.len() {
            Signal::spec_idle()
        } else if reading[from].key == key {
            reading[from].signal
        } else {
            Self::find(reading, key, from + 1)
        }
    }

    /// The signal of `key` in this snapshot.
    pub open spec fn spec_signal(&self, key: Key) -> Signal {
        Self::find(self.reading@, key, 0)
    }

    /// The signal of `key` in this snapshot.
    #[verifier::when_used_as_spec(spec_signal)]
    pub fn signal(&self, key: Key) -> (r: Signal)
        ensures
            r == self.spec_signal(key),
    {
        let mut i: usize = 0;
        while i < self.reading.len()
            invariant
                i <= self.reading.len(),
                Self::find(self.reading@, key, 0) == Self::find(self.reading@, key, i as int),
            decreases self.reading.len() - i,
        {
            if self.reading[i].key == key {
                return self.reading[i].signal;
            }
            i += 1;
        }
        Signal::idle()
    }

    /// A snapshot in which nothing happens.
    pub fn new() -> (r: Poll)
        ensures
            r.mouse == (Vector2 { x: 0, y: 0 }),
            r.delta == (Vector2 { x: 0, y: 0 }),
            r.wheel == 0,
            r.time == 0,
            r.screen == (Vector2 { x: 0, y: 0 }),
            r.character is None,
            !r.close,
            r.reading@ == Seq::<Reading>::empty(),
    {
        Poll {
            mouse: Vector2 { x: 0, y: 0 },
            delta: Vector2 { x: 0, y: 0 },
            wheel: 0,
            time: 0,
            screen: Vector2 { x: 0, y: 0 },
            character: None,
            close: false,
            reading: Vec::new(),
        }
    }

    /// The primary button of the mouse.
    pub open spec fn primary(&self) -> Signal {
        self.spec_signal(Key::Mouse(MouseButton::Left))
    }
}

impl Key {
    /// The key is not held.
    pub open spec fn spec_up(self, poll: Poll) -> bool {
        poll.spec_signal(self).spec_up()
    }

    /// The key is held.
    pub open spec fn spec_down(self, poll: Poll) -> bool {
        poll.spec_signal(self).spec_down()
    }

    /// A key of the keyboard counts as pressed again each time it
    /// repeats; a button of the mouse does not repeat.
    pub open spec fn spec_press(self, poll: Poll) -> bool {
        match self {
            Key::Keyboard(_) => poll.spec_signal(self).spec_press() || poll.spec_signal(
                self,
            ).repeat,
            Key::Mouse(_) => poll.spec_signal(self).spec_press(),
        }
    }

    /// The key came up at this frame.
    pub open spec fn spec_release(self, poll: Poll) -> bool {
        poll.spec_signal(self).spec_release()
    }

    /// Whether the key is not held.
    pub fn get_up(&self, poll: &Poll) -> (r: bool)
        ensures
            r == self.spec_up(*poll),
    {
        poll.signal(*self).up()
    }

    /// Whether the key is held.
    pub fn get_down(&self, poll: &Poll) -> (r: bool)
        ensures
            r == self.spec_down(*poll),
    {
        poll.signal(*self).down()
    }

    /// Whether the key went down at this frame, or repeated.
    pub fn get_press(&self, poll: &Poll) -> (r: bool)
        ensures
            r == self.spec_press(*poll),
    {
        let signal = poll.signal(*self);
        match self {
            Key::Keyboard(_) => signal.press() || signal.repeat,
            Key::Mouse(_) => signal.press(),
        }
    }

    /// Whether the key came up at this frame.
    pub fn get_release(&self, poll: &Poll) -> (r: bool)
        ensures
            r == self.spec_release(*poll),
    {
        poll.signal(*self).release()
    }
}

/// A binding: a button, and a key that may have to be held with it.
#[derive(Clone, Copy, PartialEq, Eq, Structural, Debug)]
pub struct Input {
    pub modify: Option<Key>,
    pub button: Key,
}

impl Input {
    /// A binding of `button`, to be held with `modify` if there is one.
    pub fn new(modify: Option<Key>, button: Key) -> (r: Self)
        ensures
            r == (Input { modify, button }),
    {
        Input { modify, button }
    }

    /// Both the button and its modifier are up.
    pub open spec fn spec_up(self, poll: Poll) -> bool {
        match self.modify {
            Some(modify) => modify.spec_up(poll) && self.button.spec_up(poll),
            None => self.button.spec_up(poll),
        }
    }

    /// Both the button and its modifier are held.
    pub open spec fn spec_down(self, poll: Poll) -> bool {
        match self.modify {
            Some(modify) => modify.spec_down(poll) && self.button.spec_down(poll),
            None => self.button.spec_down(poll),
        }
    }

    /// The button went down while its modifier was held.
    pub open spec fn spec_press(self, poll: Poll) -> bool {
        match self.modify {
            Some(modify) => modify.spec_down(poll) && self.button.spec_press(poll),
            None => self.button.spec_press(poll),
        }
    }

    /// The button came up while its modifier was held.
    pub open spec fn spec_release(self, poll: Poll) -> bool {
        match self.modify {
            Some(modify) => modify.spec_down(poll) && self.button.spec_release(poll),
            None => self.button.spec_release(poll),
        }
    }

    /// Whether the button and its modifier are both up.
    pub fn get_up(&self, poll: &Poll) -> (r: bool)
        ensures
            r == self.spec_up(*poll),
    {
        if let Some(modify) = &self.modify {
            return modify.get_up(poll) && self.button.get_up(poll);
        }
        self.button.get_up(poll)
    }

    /// Whether the button and its modifier are both held.
    pub fn get_down(&self, poll: &Poll) -> (r: bool)
        ensures
            r == self.spec_down(*poll),
    {
        if let Some(modify) = &self.modify {
            return modify.get_down(poll) && self.button.get_down(poll);
        }
        self.button.get_down(poll)
    }

    /// Whether the button went down while its modifier was held.
    pub fn get_press(&self, poll: &Poll) -> (r: bool)
        ensures
            r == self.spec_press(*poll),
    {
        if let Some(modify) = &self.modify {
            return modify.get_down(poll) && self.button.get_press(poll);
        }
        self.button.get_press(poll)
    }

    /// Whether the button came up while its modifier was held.
    pub fn get_release(&self, poll: &Poll) -> (r: bool)
        ensures
            r == self.spec_release(*poll),
    {
        if let Some(modify) = &self.modify {
            return modify.get_down(poll) && self.button.get_release(poll);
        }
        self.button.get_release(poll)
    }
}

/// The bindings and preferences of the person at the editor.
#[derive(Clone, Copy, Debug)]
pub struct User {
    pub mouse_speed: [i64; 2],
    pub move_x_a: Input,
    pub move_x_b: Input,
    pub move_y_a: Input,
    pub move_y_b: Input,
    pub interact: Input,
    pub look: Input,
    pub texture: Input,
    pub entity: Input,
    pub position: Input,
    pub rotation: Input,
    pub scale: Input,
    pub vertex: Input,
    pub edge: Input,
    pub face: Input,
    pub user: Input,
    pub reload: Input,
    pub import: Input,
    pub export: Input,
    pub exit: Input,
}

impl User {
    /// A binding of a bare key.
    pub open spec fn bare(key: KeyboardKey) -> Input {
        Input { modify: None, button: Key::Keyboard(key) }
    }

    /// A binding of a key held together with the left control key.
    pub open spec fn chord(key: KeyboardKey) -> Input {
        Input {
            modify: Some(Key::Keyboard(KeyboardKey::LeftControl)),
            button: Key::Keyboard(key),
        }
    }

    /// The bindings of a fresh installation.
    pub open spec fn initial() -> User {
        User {
            mouse_speed: [1000i64, 1000i64],
            move_x_a: Self::bare(KeyboardKey::W),
            move_x_b: Self::bare(KeyboardKey::S),
            move_y_a: Self::bare(KeyboardKey::A),
            move_y_b: Self::bare(KeyboardKey::D),
            interact: Input { modify: None, button: Key::Mouse(MouseButton::Left) },
            look: Input { modify: None, button: Key::Mouse(MouseButton::Right) },
            texture: Self::bare(KeyboardKey::Seven),
            entity: Self::bare(KeyboardKey::Eight),
            position: Self::bare(KeyboardKey::One),
            rotation: Self::bare(KeyboardKey::Two),
            scale: Self::bare(KeyboardKey::Three),
            vertex: Self::bare(KeyboardKey::Four),
            edge: Self::bare(KeyboardKey::Five),
            face: Self::bare(KeyboardKey::Six),
            user: Self::chord(KeyboardKey::Z),
            reload: Self::chord(KeyboardKey::X),
            import: Self::chord(KeyboardKey::C),
            export: Self::chord(KeyboardKey::V),
            exit: Self::chord(KeyboardKey::B),
        }
    }
}

impl Default for User {
    fn default() -> (r: Self)
        ensures
            r == User::initial(),
    {
        let control = Some(Key::Keyboard(KeyboardKey::LeftControl));
        User {
            mouse_speed: [1000i64, 1000i64],
            move_x_a: Input::new(None, Key::Keyboard(KeyboardKey::W)),
            move_x_b: Input::new(None, Key::Keyboard(KeyboardKey::S)),
            move_y_a: Input::new(None, Key::Keyboard(KeyboardKey::A)),
            move_y_b: Input::new(None, Key::Keyboard(KeyboardKey::D)),
            interact: Input::new(None, Key::Mouse(MouseButton::Left)),
            look: Input::new(None, Key::Mouse(MouseButton::Right)),
            texture: Input::new(None, Key::Keyboard(KeyboardKey::Seven)),
            entity: Input::new(None, Key::Keyboard(KeyboardKey::Eight)),
            position: Input::new(None, Key::Keyboard(KeyboardKey::One)),
            rotation: Input::new(None, Key::Keyboard(KeyboardKey::Two)),
            scale: Input::new(None, Key::Keyboard(KeyboardKey::Three)),
            vertex: Input::new(None, Key::Keyboard(KeyboardKey::Four)),
            edge: Input::new(None, Key::Keyboard(KeyboardKey::Five)),
            face: Input::new(None, Key::Keyboard(KeyboardKey::Six)),
            user: Input::new(control, Key::Keyboard(KeyboardKey::Z)),
            reload: Input::new(control, Key::Keyboard(KeyboardKey::X)),
            import: Input::new(control, Key::Keyboard(KeyboardKey::C)),
            export: Input::new(control, Key::Keyboard(KeyboardKey::V)),
            exit: Input::new(control, Key::Keyboard(KeyboardKey::B)),
        }
    }
}

} // verus!
