//! What a control is told in a frame, and what it remembers between
//! frames.

use vstd::prelude::*;
use crate::fixed::{bounded, narrow, quotient, saturate, UNIT};
use crate::input::Poll;
use crate::text::same_text;
use crate::shape::{Color, Rectangle};
use crate::window::{Slot, Window};

verus! {

/// What a control is told in a frame.
#[derive(Clone, Copy, PartialEq, Eq, Structural, Debug)]
pub struct State {
    /// The pointer is over the control.
    pub hover: bool,
    /// The control holds the mouse.
    pub focus: bool,
    /// The control was clicked: the button that it held the mouse with
    /// came up over it.
    pub click: bool,
}

impl State {
    /// The token that holds the mouse once the control with token
    /// `count` had its chance to take it: a control takes the mouse if
    /// the pointer is over it, nothing holds the mouse, and the button
    /// went down in this frame. The last token takes nothing.
    pub open spec fn taken(focus: Option<u64>, count: u64, hover: bool, press: bool) -> Option<u64> {
        if hover && focus is None && press && count < u64::MAX {
            Some(count)
        } else {
            focus
        }
    }

    /// What the control with token `count` is told, where `focus`
    /// holds the mouse as the control is reached.
    pub open spec fn told(
        focus: Option<u64>,
        count: u64,
        hover: bool,
        press: bool,
        release: bool,
    ) -> State {
        let own = Self::owns(focus, count, hover, press);
        State { hover, focus: own, click: own && release && hover }
    }

    /// The control with token `count` holds the mouse once it had its
    /// chance to take it. The last token holds nothing.
    pub open spec fn owns(focus: Option<u64>, count: u64, hover: bool, press: bool) -> bool {
        Self::taken(focus, count, hover, press) == Some(count) && count < u64::MAX
    }

    /// The token that holds the mouse as the control is left: the
    /// control lets go of the mouse when the button comes up, over the
    /// control or not.
    pub open spec fn left(
        focus: Option<u64>,
        count: u64,
        hover: bool,
        press: bool,
        release: bool,
    ) -> Option<u64> {
        if Self::owns(focus, count, hover, press) && release {
            None
        } else {
            Self::taken(focus, count, hover, press)
        }
    }

    /// Resolves the next control of the frame, of extent `rectangle`,
    /// against the pointer and the primary button. The control takes
    /// the next token.
    pub fn get(window: &mut Window, poll: &Poll, rectangle: Rectangle) -> (state: Self)
        ensures
            state == Self::told(
                old(window).focus,
                old(window).count,
                old(window).hovers(poll.mouse, rectangle),
                poll.primary().spec_press(),
                poll.primary().spec_release(),
            ),
            *final(window) == (Window {
                focus: Self::left(
                    old(window).focus,
                    old(window).count,
                    old(window).hovers(poll.mouse, rectangle),
                    poll.primary().spec_press(),
                    poll.primary().spec_release(),
                ),
                count: Window::next(old(window).count),
                ..*old(window)
            }),
    {
        let mut state = State { hover: false, focus: false, click: false };
        let check = window.check_mouse(poll, rectangle);
        let primary = poll.signal(crate::key::Key::Mouse(crate::key::MouseButton::Left));
        if check {
            if window.focus.is_none() && primary.press() && window.count < u64::MAX {
                window.focus = Some(window.count);
            }
            state.hover = true;
        }
        if let Some(focus) = window.focus {
            if focus == window.count && window.count < u64::MAX {
                if primary.release() {
                    if check {
                        state.click = true;
                    }
                    window.focus = None;
                }
                state.focus = true;
            }
        }
        window.skip();
        state
    }
}

/// What a control remembers between frames.
#[derive(Clone, Copy, PartialEq, Eq, Structural, Debug)]
pub struct Data {
    /// How far the control has warmed to the pointer, from 0 to 1.
    pub hover: i64,
    /// How far the control has sunk under the button, from 0 to 1.
    pub focus: i64,
    /// A drawer is open.
    pub active: bool,
    /// How far a scroll region is scrolled, from 0 to 1.
    pub scroll_shift: i64,
    /// How tall the content of a scroll region was when it was last
    /// drawn.
    pub scroll_shape: i64,
}

/// How fast a control warms to the pointer, in units a second.
pub const HOVER_SPEED: i64 = 16;

/// How fast a control sinks under the button, in units a second.
pub const FOCUS_SPEED: i64 = 16;

impl Data {
    /// The record of a control that was never drawn.
    pub open spec fn fresh() -> Data {
        Data { hover: 0, focus: 0, active: false, scroll_shift: 0, scroll_shape: 0 }
    }

    /// An animated value after a frame of `time` seconds at `speed`: it
    /// rises while `value` holds and falls while it does not, and stays
    /// between 0 and 1.
    pub open spec fn eased(from: i64, value: bool, time: i64, speed: i64) -> i64 {
        bounded(
            if value {
                from + time * speed
            } else {
                from - time * speed
            },
            0,
            UNIT as int,
        ) as i64
    }

    /// The record after a frame in which the pointer was or was not
    /// over the control, and the control was or was not pressed.
    pub open spec fn animated(self, hover: bool, focus: bool, time: i64) -> Data {
        Data {
            hover: Self::eased(self.hover, hover, time, HOVER_SPEED),
            focus: Self::eased(self.focus, focus, time, FOCUS_SPEED),
            ..self
        }
    }

    /// Both animated values lie between 0 and 1.
    pub open spec fn wf(self) -> bool {
        0 <= self.hover <= UNIT && 0 <= self.focus <= UNIT
    }

    /// How far the control is drawn above its place: it rises by four
    /// as it warms to the pointer and sinks by four as it is pressed.
    pub open spec fn lift(self) -> i64 {
        saturate((self.hover - self.focus) * 4) as i64
    }

    /// A channel of a colour at the brightness of this record: three
    /// quarters of it, and the last quarter as the control warms.
    pub open spec fn shade(self, channel: u8) -> u8 {
        bounded(quotient(channel * (self.hover + 3 * UNIT), 4 * UNIT), 0, 255) as u8
    }

    /// The record under the identity `hash`, and the store with it: a
    /// control that has no record yet gets a fresh one.
    pub open spec fn fetch(store: Map<Seq<char>, Data>, hash: Seq<char>) -> (
        Map<Seq<char>, Data>,
        Data,
    ) {
        if store.dom().contains(hash) {
            (store, store[hash])
        } else {
            (store.insert(hash, Self::fresh()), Self::fresh())
        }
    }

    /// The record of the control with the identity `hash`, to read and
    /// to write. A control that has no record yet gets a fresh one. The
    /// records of other controls stay as they are.
    pub fn get<'a>(window: &'a mut Window, hash: &str) -> (data: &'a mut Self)
        ensures
            *data == Self::fetch(old(window).store(), hash@).1,
            final(window).store() == old(window).store().insert(hash@, *final(data)),
            final(window).point == old(window).point,
            final(window).shape == old(window).shape,
            final(window).focus == old(window).focus,
            final(window).count == old(window).count,
    {
        let i = window.locate(hash);
        let ghost mid = window.gizmo@;
        proof {
            assert forall|after: Seq<Slot>|
                after.len() == mid.len() && after[i as int].name == mid[i as int].name && (forall|
                    j: int,
                |
                    0 <= j < mid.len() && j != i ==> after[j] == mid[j]) implies #[trigger]
                Window::records(after) == Window::records(mid).insert(
                hash@,
                after[i as int].data,
            ) by {
                Window::lemma_records_write(mid, after, hash@, i as int);
            }
        }
        &mut window.gizmo[i].data
    }

    fn ease(from: i64, value: bool, time: i64, speed: i64) -> (r: i64)
        requires
            0 <= speed <= 1000,
        ensures
            r == Self::eased(from, value, time, speed),
    {
        proof {
            crate::fixed::lemma_product_fits(time as int, speed as int);
        }
        let step: i128 = time as i128 * speed as i128;
        let to: i128 = if value {
            from as i128 + step
        } else {
            from as i128 - step
        };
        if to < 0 {
            0
        } else if to > UNIT as i128 {
            UNIT
        } else {
            to as i64
        }
    }

    /// How far the control is drawn above its place.
    pub fn get_point(&self) -> (r: i64)
        ensures
            r == self.lift(),
    {
        narrow((self.hover as i128 - self.focus as i128) * 4)
    }

    /// `rectangle`, drawn as high above its place as the control is.
    pub fn get_shape(&self, rectangle: &Rectangle) -> (r: Rectangle)
        ensures
            r == (Rectangle { y: saturate(rectangle.y - self.lift()) as i64, ..*rectangle }),
    {
        Rectangle::new(
            rectangle.x,
            crate::fixed::minus(rectangle.y, self.get_point()),
            rectangle.width,
            rectangle.height,
        )
    }

    fn tint(&self, channel: u8) -> (r: u8)
        ensures
            r == self.shade(channel),
    {
        let warm: i128 = self.hover as i128 + 3000;
        proof {
            lemma_channel_fits(channel as int, warm as int);
        }
        let full: i128 = crate::fixed::divide(channel as i128 * warm, 4000);
        if full < 0 {
            0
        } else if full > 255 {
            255
        } else {
            full as u8
        }
    }

    /// `color` at the brightness of this record, as opaque as it was.
    pub fn get_color(&self, color: &Color) -> (r: Color)
        ensures
            r == (Color {
                r: self.shade(color.r),
                g: self.shade(color.g),
                b: self.shade(color.b),
                a: color.a,
            }),
    {
        Color::new(self.tint(color.r), self.tint(color.g), self.tint(color.b), color.a)
    }

    /// Lets the control warm to the pointer, or cool, for one frame.
    pub fn set_hover(&mut self, poll: &Poll, value: bool)
        ensures
            *final(self) == (Data {
                hover: Self::eased(old(self).hover, value, poll.time, HOVER_SPEED),
                ..*old(self)
            }),
            0 <= final(self).hover <= UNIT,
    {
        self.hover = Self::ease(self.hover, value, poll.time, HOVER_SPEED);
    }

    /// Lets the control sink under the button, or rise, for one frame.
    pub fn set_focus(&mut self, poll: &Poll, value: bool)
        ensures
            *final(self) == (Data {
                focus: Self::eased(old(self).focus, value, poll.time, FOCUS_SPEED),
                ..*old(self)
            }),
            0 <= final(self).focus <= UNIT,
    {
        self.focus = Self::ease(self.focus, value, poll.time, FOCUS_SPEED);
    }
}

impl Window {
    /// Writing the record of slot `i`, the first under `name`, writes
    /// the record under `name` and no other.
    proof fn lemma_records_write(before: Seq<Slot>, after: Seq<Slot>, name: Seq<char>, i: int)
        requires
            Self::first_in(before, name, i),
            after.len() == before.len(),
            after[i].name == before[i].name,
            forall|j: int| 0 <= j < before.len() && j != i ==> after[j] == before[j],
        ensures
            Self::records(after) == Self::records(before).insert(name, after[i].data),
    {
        assert forall|key: Seq<char>, k: int|
            Self::first_in(before, key, k) <==> Self::first_in(after, key, k) by {
            if Self::first_in(before, key, k) {
                assert(after[k].name@ == key);
                assert forall|j: int| 0 <= j < k implies (#[trigger] after[j]).name@ != key by {
                    assert(before[j].name@ != key);
                }
            }
            if Self::first_in(after, key, k) {
                assert(before[k].name@ == key);
                assert forall|j: int| 0 <= j < k implies (#[trigger] before[j]).name@ != key by {
                    assert(after[j].name@ != key);
                }
            }
        }
        assert(Self::first_in(after, name, i));
        assert forall|key: Seq<char>| #[trigger]
            Self::known_in(after, key) <==> Self::known_in(before, key) by {
            if Self::known_in(before, key) {
                let k = choose|k: int| Self::first_in(before, key, k);
                assert(Self::first_in(after, key, k));
            }
            if Self::known_in(after, key) {
                let k = choose|k: int| Self::first_in(after, key, k);
                assert(Self::first_in(before, key, k));
            }
        }
        assert(Self::known_in(after, name));
        assert forall|key: Seq<char>| Self::known_in(after, key) implies #[trigger] Self::records(
            after,
        )[key] == Self::records(before).insert(name, after[i].data)[key] by {
            let k = choose|k: int| Self::first_in(after, key, k);
            let k0 = choose|k: int| Self::first_in(before, key, k);
            assert(Self::known_in(before, key));
            assert(Self::first_in(before, key, k));
            assert(Self::first_in(before, key, k0));
            if k < k0 {
                assert(before[k].name@ != key);
            } else if k0 < k {
                assert(before[k0].name@ != key);
            }
            assert(k == k0);
            if key == name {
                if k < i {
                    assert(before[k].name@ != name);
                } else if i < k {
                    assert(before[i].name@ != name);
                }
                assert(k == i);
            } else {
                assert(k != i);
            }
        }
        assert(Self::records(after) =~= Self::records(before).insert(name, after[i].data));
    }

    /// A record at the end, under an identity that is new, adds that
    /// record and changes no other.
    proof fn lemma_records_push(before: Seq<Slot>, slot: Slot)
        requires
            !Self::known_in(before, slot.name@),
        ensures
            Self::first_in(before.push(slot), slot.name@, before.len() as int),
            Self::records(before.push(slot)) == Self::records(before).insert(
                slot.name@,
                slot.data,
            ),
    {
        let after = before.push(slot);
        let name = slot.name@;
        let i = before.len() as int;
        assert forall|j: int| 0 <= j < i implies (#[trigger] after[j]).name@ != name by {
            if before[j].name@ == name {
                Self::lemma_first_exists(before, name, j);
            }
        }
        assert(Self::first_in(after, name, i));
        assert forall|key: Seq<char>, k: int| key != name implies (Self::first_in(before, key, k)
            <==> Self::first_in(after, key, k)) by {
            if Self::first_in(before, key, k) {
                assert(after[k] == before[k]);
                assert forall|j: int| 0 <= j < k implies (#[trigger] after[j]).name@ != key by {
                    assert(before[j].name@ != key);
                }
            }
            if Self::first_in(after, key, k) {
                assert(k < i);
                assert(before[k] == after[k]);
                assert forall|j: int| 0 <= j < k implies (#[trigger] before[j]).name@ != key by {
                    assert(after[j].name@ != key);
                }
            }
        }
        assert forall|key: Seq<char>| #[trigger]
            Self::known_in(after, key) <==> (Self::known_in(before, key) || key == name) by {
            if Self::known_in(before, key) && key != name {
                let k0 = choose|k: int| Self::first_in(before, key, k);
                assert(Self::first_in(after, key, k0));
            }
            if Self::known_in(after, key) && key != name {
                let k = choose|k: int| Self::first_in(after, key, k);
                assert(Self::first_in(before, key, k));
            }
        }
        assert forall|key: Seq<char>| Self::known_in(after, key) implies #[trigger] Self::records(
            after,
        )[key] == Self::records(before).insert(name, slot.data)[key] by {
            let k = choose|k: int| Self::first_in(after, key, k);
            if key == name {
                if k < i {
                    assert(after[k].name@ != name);
                } else if i < k {
                    assert(after[i].name@ != name);
                }
                assert(k == i);
            } else {
                assert(Self::first_in(before, key, k));
                assert(Self::known_in(before, key));
                let k0 = choose|k: int| Self::first_in(before, key, k);
                if k < k0 {
                    assert(before[k].name@ != key);
                } else if k0 < k {
                    assert(before[k0].name@ != key);
                }
                assert(k == k0);
            }
        }
        assert(Self::records(after) =~= Self::records(before).insert(name, slot.data));
    }

    /// Where a slot bears a name, some slot is the first to bear it.
    proof fn lemma_first_exists(slot: Seq<Slot>, name: Seq<char>, j: int)
        requires
            0 <= j < slot.len(),
            slot[j].name@ == name,
        ensures
            Self::known_in(slot, name),
        decreases j,
    {
        if exists|k: int| 0 <= k < j && slot[k].name@ == name {
            let k = choose|k: int| 0 <= k < j && slot[k].name@ == name;
            Self::lemma_first_exists(slot, name, k);
        } else {
            assert(Self::first_in(slot, name, j));
        }
    }

    /// The record under a name is that of the first slot that bears it.
    proof fn lemma_records_read(slot: Seq<Slot>, name: Seq<char>, i: int)
        requires
            Self::first_in(slot, name, i),
        ensures
            Self::known_in(slot, name),
            Self::records(slot)[name] == slot[i].data,
    {
        let k = choose|k: int| Self::first_in(slot, name, k);
        if k < i {
            assert(slot[k].name@ != name);
        } else if i < k {
            assert(slot[i].name@ != name);
        }
    }

    /// The slot of the control with the identity `hash`: the first
    /// under that identity, or a fresh one at the end.
    pub fn locate(&mut self, hash: &str) -> (i: usize)
        ensures
            final(self).first(hash@, i as int),
            final(self).store() == Data::fetch(old(self).store(), hash@).0,
            final(self).gizmo[i as int].data == Data::fetch(old(self).store(), hash@).1,
            final(self).point == old(self).point,
            final(self).shape == old(self).shape,
            final(self).focus == old(self).focus,
            final(self).count == old(self).count,
    {
        let mut i: usize = 0;
        while i < self.gizmo.len()
            invariant
                i <= self.gizmo.len(),
                *self == *old(self),
                forall|j: int| 0 <= j < i ==> (#[trigger] self.gizmo@[j]).name@ != hash@,
            decreases self.gizmo.len() - i,
        {
            if same_text(self.gizmo[i].name.as_str(), hash) {
                proof {
                    assert(Self::first_in(self.gizmo@, hash@, i as int));
                    Self::lemma_records_read(self.gizmo@, hash@, i as int);
                }
                return i;
            }
            i += 1;
        }
        proof {
            if Self::known_in(self.gizmo@, hash@) {
                let k = choose|k: int| Self::first_in(self.gizmo@, hash@, k);
                assert(self.gizmo@[k].name@ != hash@);
            }
        }
        let slot = Slot { name: hash.to_owned(), data: Data::default() };
        proof {
            Self::lemma_records_push(self.gizmo@, slot);
        }
        self.gizmo.push(slot);
        i
    }
}

/// Looking a record up twice gives the same record both times, and the
/// second lookup leaves the store as the first left it.
pub proof fn lemma_lookup_is_idempotent(store: Map<Seq<char>, Data>, hash: Seq<char>)
    ensures
        Data::fetch(Data::fetch(store, hash).0, hash) == Data::fetch(store, hash),
        Data::fetch(store, hash).0.dom().contains(hash),
        Data::fetch(store, hash).0[hash] == Data::fetch(store, hash).1,
        Data::fetch(store, hash).0 == store.insert(hash, Data::fetch(store, hash).1),
{
    assert(Data::fetch(store, hash).0 =~= store.insert(hash, Data::fetch(store, hash).1));
}

/// Writing a record and looking it up gives what was written.
pub proof fn lemma_lookup_after_write(store: Map<Seq<char>, Data>, hash: Seq<char>, data: Data)
    ensures
        Data::fetch(store.insert(hash, data), hash) == (store.insert(hash, data), data),
        store.insert(hash, data).insert(hash, data) == store.insert(hash, data),
{
    assert(store.insert(hash, data).insert(hash, data) =~= store.insert(hash, data));
}

/// A control of a frame, as far as the mouse goes: one that is resolved,
/// with the pointer over it or not, or one that only takes a token.
pub enum Control {
    Resolved { hover: bool },
    Passed,
}

/// Who holds the mouse, and the next token, once the first `n` controls
/// of a frame were gone through. The frame begins with `focus` holding
/// the mouse and `count` as the next token; the button does the same
/// for all of the frame.
pub open spec fn frame_after(
    focus: Option<u64>,
    count: u64,
    control: Seq<Control>,
    press: bool,
    release: bool,
    n: int,
) -> (Option<u64>, u64)
    decreases n,
{
    if n <= 0 || n > control.len() {
        (focus, count)
    } else {
        let before = frame_after(focus, count, control, press, release, n - 1);
        match control[n - 1] {
            Control::Resolved { hover } => (
                State::left(before.0, before.1, hover, press, release),
                Window::next(before.1),
            ),
            Control::Passed => (before.0, Window::next(before.1)),
        }
    }
}

/// Control `k` of the frame resolves as the one that holds the mouse.
pub open spec fn frame_focus(
    focus: Option<u64>,
    count: u64,
    control: Seq<Control>,
    press: bool,
    release: bool,
    k: int,
) -> bool {
    match control[k] {
        Control::Resolved { hover } => State::told(
            frame_after(focus, count, control, press, release, k).0,
            frame_after(focus, count, control, press, release, k).1,
            hover,
            press,
            release,
        ).focus,
        Control::Passed => false,
    }
}

/// Once control `i` has resolved as the one that holds the mouse, the
/// mouse is let go if the button came up, and stays with that control
/// otherwise; and no later control has its token.
proof fn lemma_frame_settles(
    focus: Option<u64>,
    count: u64,
    control: Seq<Control>,
    press: bool,
    release: bool,
    i: int,
    k: int,
)
    requires
        !(press && release),
        0 <= i < k <= control.len(),
        frame_focus(focus, count, control, press, release, i),
    ensures
        frame_after(focus, count, control, press, release, i).1 < u64::MAX,
        frame_after(focus, count, control, press, release, k).0 == if release {
            None
        } else {
            Some(frame_after(focus, count, control, press, release, i).1)
        },
        frame_after(focus, count, control, press, release, k).1 > frame_after(
            focus,
            count,
            control,
            press,
            release,
            i,
        ).1,
    decreases k,
{
    if k > i + 1 {
        lemma_frame_settles(focus, count, control, press, release, i, k - 1);
    }
}

/// The mouse has one holder: of the controls of a frame, at most one
/// resolves as the one that holds the mouse.
pub proof fn lemma_capture_is_exclusive(
    focus: Option<u64>,
    count: u64,
    control: Seq<Control>,
    press: bool,
    release: bool,
    i: int,
    j: int,
)
    requires
        !(press && release),
        0 <= i < control.len(),
        0 <= j < control.len(),
        frame_focus(focus, count, control, press, release, i),
        frame_focus(focus, count, control, press, release, j),
    ensures
        i == j,
{
    if i < j {
        lemma_frame_settles(focus, count, control, press, release, i, j);
    } else if j < i {
        lemma_frame_settles(focus, count, control, press, release, j, i);
    }
}

/// What a control is told, in the words of capture. The control holds
/// the mouse in this call if it held it as the call began, or if nothing
/// held it and the button went down with the pointer over the control.
/// It is in focus exactly if it holds the mouse, and it is clicked
/// exactly if it holds the mouse and the button comes up with the
/// pointer over it. This is so for every token but the last, which holds
/// nothing.
pub proof fn lemma_told(focus: Option<u64>, count: u64, hover: bool, press: bool, release: bool)
    requires
        count < u64::MAX,
    ensures
        State::told(focus, count, hover, press, release).hover == hover,
        State::told(focus, count, hover, press, release).focus <==> (focus == Some(count) || (focus
            is None && press && hover)),
        State::told(focus, count, hover, press, release).click <==> (release && hover && (focus
            == Some(count) || (focus is None && press && hover))),
{
}

/// A button is never pressed and let go in one frame.
pub proof fn lemma_signal_is_one_sided(signal: crate::input::Signal)
    ensures
        !(signal.spec_press() && signal.spec_release()),
{
}

/// A control is clicked exactly when the button comes up over it while
/// it holds the mouse; and it lets go of the mouse when the button comes
/// up, clicked or not.
pub proof fn lemma_click(focus: Option<u64>, count: u64, hover: bool, press: bool, release: bool)
    requires
        !(press && release),
    ensures
        State::told(focus, count, hover, press, release).click <==> (hover && release && focus
            == Some(count) && count < u64::MAX),
        focus == Some(count) && release && count < u64::MAX ==> State::left(
            focus,
            count,
            hover,
            press,
            release,
        ) is None,
{
}

/// A control comes to hold the mouse in one way only: the button goes
/// down while the pointer is over it and nothing holds the mouse.
pub proof fn lemma_capture(focus: Option<u64>, count: u64, hover: bool, press: bool, release: bool)
    ensures
        State::left(focus, count, hover, press, release) == Some(count) && focus != Some(count)
            ==> hover && press && focus is None,
        State::left(focus, count, hover, press, release) is Some && State::left(
            focus,
            count,
            hover,
            press,
            release,
        ) != focus ==> State::left(focus, count, hover, press, release) == Some(count),
{
}

/// One frame in the life of a control: whether the pointer was over
/// it, and what the button did.
pub struct Moment {
    pub hover: bool,
    pub signal: crate::input::Signal,
}

/// The frames follow one another: the button is up before the first,
/// and begins each later frame as it ended the one before.
pub open spec fn follows(moment: Seq<Moment>) -> bool {
    &&& moment.len() > 0 ==> !moment[0].signal.before
    &&& forall|k: int|
        0 < k < moment.len() ==> (#[trigger] moment[k]).signal.before == moment[k - 1].signal.now
}

/// Who holds the mouse after the first `n` frames, where nothing held
/// it at first and the control with the token `token` is the only one
/// that is resolved.
pub open spec fn held_after(moment: Seq<Moment>, token: u64, n: int) -> Option<u64>
    decreases n,
{
    if n <= 0 || n > moment.len() {
        None
    } else {
        State::left(
            held_after(moment, token, n - 1),
            token,
            moment[n - 1].hover,
            moment[n - 1].signal.spec_press(),
            moment[n - 1].signal.spec_release(),
        )
    }
}

/// The control is clicked in frame `n`.
pub open spec fn clicked_at(moment: Seq<Moment>, token: u64, n: int) -> bool {
    State::told(
        held_after(moment, token, n),
        token,
        moment[n].hover,
        moment[n].signal.spec_press(),
        moment[n].signal.spec_release(),
    ).click
}

/// The button went down in frame `p` with the pointer over the
/// control, and was held in every frame after `p` and before `n`.
pub open spec fn pressed_since(moment: Seq<Moment>, p: int, n: int) -> bool {
    &&& 0 <= p < n
    &&& moment[p].signal.spec_press()
    &&& moment[p].hover
    &&& forall|q: int| p < q < n ==> (#[trigger] moment[q]).signal.now
}

/// The control holds the mouse after `n` frames exactly if the button
/// went down over it and has been held since.
proof fn lemma_held(moment: Seq<Moment>, token: u64, n: int)
    requires
        follows(moment),
        token < u64::MAX,
        0 <= n <= moment.len(),
    ensures
        held_after(moment, token, n) == Some(token) <==> exists|p: int|
            pressed_since(moment, p, n),
        held_after(moment, token, n) is None || held_after(moment, token, n) == Some(token),
        (exists|p: int| pressed_since(moment, p, n)) ==> n > 0 && moment[n - 1].signal.now,
    decreases n,
{
    if n > 0 {
        let m = n - 1;
        lemma_held(moment, token, m);
        let cur = moment[m];
        let before = held_after(moment, token, m);
        if m > 0 {
            assert(moment[m].signal.before == moment[m - 1].signal.now);
        }
        if exists|p: int| pressed_since(moment, p, n) {
            let p = choose|p: int| pressed_since(moment, p, n);
            if p == m {
                if exists|p0: int| pressed_since(moment, p0, m) {
                    assert(moment[m - 1].signal.now);
                }
                assert(before is None);
            } else {
                assert(moment[m].signal.now);
                assert(pressed_since(moment, p, m)) by {
                    assert forall|q: int| p < q < m implies (#[trigger] moment[q]).signal.now by {
                        assert(p < q < n);
                    }
                }
                assert(before == Some(token));
            }
            assert(held_after(moment, token, n) == Some(token));
        }
        if held_after(moment, token, n) == Some(token) {
            if before == Some(token) {
                let p = choose|p: int| pressed_since(moment, p, m);
                assert(m > 0 && moment[m - 1].signal.now);
                assert(cur.signal.now);
                assert(pressed_since(moment, p, n)) by {
                    assert forall|q: int| p < q < n implies (#[trigger] moment[q]).signal.now by {
                        if q < m {
                            assert(p < q < m);
                        }
                    }
                }
            } else {
                assert(pressed_since(moment, m, n));
            }
        }
    }
}

/// A click, over the frames of a gesture: the control is clicked in a
/// frame exactly if the button went down with the pointer over the
/// control, was held until that frame, and comes up in that frame with
/// the pointer over the control again.
pub proof fn lemma_gesture(moment: Seq<Moment>, token: u64, n: int)
    requires
        follows(moment),
        token < u64::MAX,
        0 <= n < moment.len(),
    ensures
        clicked_at(moment, token, n) <==> (moment[n].hover && moment[n].signal.spec_release()
            && exists|p: int| pressed_since(moment, p, n)),
        moment[n].signal.spec_release() ==> held_after(moment, token, n + 1) is None,
{
    lemma_held(moment, token, n);
    lemma_held(moment, token, n + 1);
}

/// An animated value stays between 0 and 1 whatever the frame.
pub proof fn lemma_eased_in_range(from: i64, value: bool, time: i64, speed: i64)
    ensures
        0 <= Data::eased(from, value, time, speed) <= UNIT,
{
}

/// One update step of an animated value: where it is headed, and how
/// long the frame took.
pub struct Step {
    pub value: bool,
    pub time: i64,
}

/// An animated value after the first `n` of a run of update steps.
pub open spec fn eased_through(from: i64, step: Seq<Step>, speed: i64, n: nat) -> i64
    decreases n,
{
    if n == 0 || n > step.len() {
        from
    } else {
        Data::eased(
            eased_through(from, step, speed, (n - 1) as nat),
            step[n - 1].value,
            step[n - 1].time,
            speed,
        )
    }
}

/// After any number of update steps, whatever they are headed for and
/// however long the frames took, an animated value lies between 0 and 1.
pub proof fn lemma_animation_stays_in_range(from: i64, step: Seq<Step>, speed: i64, n: nat)
    requires
        1 <= n <= step.len(),
    ensures
        0 <= eased_through(from, step, speed, n) <= UNIT,
{
}

/// A channel times a scalar lies well inside `i128`.
proof fn lemma_channel_fits(channel: int, warm: int)
    by (nonlinear_arith)
    requires
        0 <= channel <= 255,
        -0x1_0000_0000_0000_0000 <= warm <= 0x1_0000_0000_0000_0000,
    ensures
        -0x100_0000_0000_0000_0000 <= channel * warm <= 0x100_0000_0000_0000_0000,
{
}

impl Default for Data {
    fn default() -> (r: Self)
        ensures
            r == Data::fresh(),
    {
        Data { hover: 0, focus: 0, active: false, scroll_shift: 0, scroll_shape: 0 }
    }
}

} // verus!
