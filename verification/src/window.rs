//! The control surface: a cursor that the controls of a frame consume
//! one after another, the region they are clipped to, the token that
//! tells them apart, and the one control that holds the mouse.

use vstd::prelude::*;
use crate::draw::{Art, Canvas, Draw, Picture, Sketch};
use crate::fixed::{bounded, minus, plus, quotient, saturate, UNIT};
use crate::gizmo::{lemma_lookup_after_write, lemma_lookup_is_idempotent, Data, State};
use crate::input::{Input, Poll};
use crate::key::{Key, KeyboardKey};
use crate::number::{number_text, parse_number, read, written};
use crate::text::{pop_char, push_char, same_text};
use crate::shape::{Color, Rectangle, Vector2};

verus! {

/// The height of the tool bar along the top of the screen.
pub const TOOL_SHAPE: i64 = 56000;

/// The width of the panel along the right of the screen.
pub const EDIT_SHAPE: i64 = 400000;

pub const GRADIENT_POINT_Y: i64 = 4000;

pub const GRADIENT_SHAPE_Y: i64 = 6000;

pub const LOGO_SHAPE: i64 = 160000;

/// How round the corners of a card are, as a part of its shorter side.
pub const CARD_ROUND_SHAPE: i64 = 250;

/// How many segments make up a rounded corner.
pub const CARD_ROUND_COUNT: i32 = 4;

pub const TEXT_SHAPE: i64 = 24000;

pub const TEXT_SPACE: i64 = 1000;

pub const TEXT_SHIFT: i64 = 8000;

pub const BUTTON_SHAPE_X: i64 = 160000;

pub const BUTTON_SHAPE_Y: i64 = 32000;

pub const BUTTON_TEXT_SHIFT_X: i64 = 8000;

pub const BUTTON_TEXT_SHIFT_Y: i64 = 4000;

pub const BUTTON_SHIFT: i64 = 8000;

pub const TOGGLE_SHAPE: i64 = 24000;

pub const TOGGLE_SHIFT: i64 = 8000;

pub const SLIDER_CIRCLE_SHAPE: i64 = 8000;

pub const SLIDER_FOCUS_POINT_Y: i64 = -32000;

pub const SLIDER_FOCUS_SHAPE: i64 = 20000;

pub const SLIDER_SHAPE_X: i64 = 160000;

pub const SLIDER_SHAPE_MAX_Y: i64 = 24000;

pub const SLIDER_SHAPE_MIN_Y: i64 = 4000;

pub const SLIDER_SHIFT: i64 = 8000;

pub const RECORD_SHAPE_X: i64 = 160000;

pub const RECORD_SHAPE_MAX_Y: i64 = 24000;

pub const RECORD_SHAPE_MIN_Y: i64 = 4000;

pub const RECORD_SHAPE_CARET_X: i64 = 2000;

pub const RECORD_SHAPE_CARET_Y: i64 = 16000;

pub const RECORD_SHIFT: i64 = 8000;

/// The record of one control, under the identity of the control.
#[derive(Clone, Debug, PartialEq, Eq)]
pub struct Slot {
    pub name: String,
    pub data: Data,
}

/// The extent of a text that was measured.
#[derive(Clone, Debug, PartialEq, Eq)]
pub struct Measure {
    pub text: String,
    pub shape: Vector2,
}

/// What is known of the font: the extent of every text that was
/// measured. Of two measures of one text the first counts; a text that
/// was not measured has no extent.
#[derive(Clone, Debug, PartialEq, Eq)]
pub struct Asset {
    pub measure: Vec<Measure>,
}

impl Asset {
    /// The extent of `text` among the measures from `from` on.
    pub open spec fn find(measure: Seq<Measure>, text: Seq<char>, from: int) -> Vector2
        decreases measure.len() - from,
    {
        if from < 0 || from >= measure.len() {
            Vector2 { x: 0, y: 0 }
        } else if measure[from].text@ == text {
            measure[from].shape
        } else {
            Self::find(measure, text, from + 1)
        }
    }

    /// The extent of `text`.
    pub open spec fn extent(&self, text: Seq<char>) -> Vector2 {
        Self::find(self.measure@, text, 0)
    }

    /// A font of which nothing was measured.
    pub fn new() -> (r: Self)
        ensures
            r.measure@ == Seq::<Measure>::empty(),
    {
        Asset { measure: Vec::new() }
    }
}

/// The control surface.
#[derive(Clone, Debug, PartialEq, Eq)]
pub struct Window {
    /// The records of the controls, each under its identity. Of two
    /// records under one identity the first counts.
    pub gizmo: Vec<Slot>,
    /// The cursor: where the next control is drawn.
    pub point: Vector2,
    /// The region that controls are clipped to, if any.
    pub shape: Option<Rectangle>,
    /// The token of the control that holds the mouse, if any.
    pub focus: Option<u64>,
    /// How many tokens this frame has handed out: the token of the next
    /// control.
    pub count: u64,
}

impl Window {
    /// Slot `i` of `slot` is the first under the identity `name`.
    pub open spec fn first_in(slot: Seq<Slot>, name: Seq<char>, i: int) -> bool {
        &&& 0 <= i < slot.len()
        &&& slot[i].name@ == name
        &&& forall|j: int| 0 <= j < i ==> (#[trigger] slot[j]).name@ != name
    }

    /// There is a record in `slot` under the identity `name`.
    pub open spec fn known_in(slot: Seq<Slot>, name: Seq<char>) -> bool {
        exists|i: int| Self::first_in(slot, name, i)
    }

    /// The records of `slot`, by identity.
    pub open spec fn records(slot: Seq<Slot>) -> Map<Seq<char>, Data> {
        Map::new(
            |name: Seq<char>| Self::known_in(slot, name),
            |name: Seq<char>| slot[choose|i: int| Self::first_in(slot, name, i)].data,
        )
    }

    /// Slot `i` is the first under the identity `name`.
    pub open spec fn first(&self, name: Seq<char>, i: int) -> bool {
        Self::first_in(self.gizmo@, name, i)
    }

    /// There is a record under the identity `name`.
    pub open spec fn known(&self, name: Seq<char>) -> bool {
        Self::known_in(self.gizmo@, name)
    }

    /// The records of the controls, by identity.
    pub open spec fn store(&self) -> Map<Seq<char>, Data> {
        Self::records(self.gizmo@)
    }

    /// The token after `count`. The last token is never passed.
    pub open spec fn next(count: u64) -> u64 {
        if count < u64::MAX {
            (count + 1) as u64
        } else {
            count
        }
    }

    /// `point` moved down by `by`.
    pub open spec fn below(point: Vector2, by: int) -> Vector2 {
        Vector2 { x: point.x, y: saturate(point.y + by) as i64 }
    }

    /// A control of extent `rectangle` is to be drawn: there is no clip
    /// region, or the control reaches into it.
    pub open spec fn shows(&self, rectangle: Rectangle) -> bool {
        match self.shape {
            Some(shape) => shape.meets(rectangle),
            None => true,
        }
    }

    /// The pointer at `mouse` is over a control of extent `rectangle`:
    /// it is inside the rectangle and, where there is a clip region,
    /// inside the region, into which the control must reach.
    pub open spec fn hovers(&self, mouse: Vector2, rectangle: Rectangle) -> bool {
        match self.shape {
            Some(shape) => rectangle.holds(mouse) && shape.meets(rectangle) && shape.holds(mouse),
            None => rectangle.holds(mouse),
        }
    }

    /// A surface without records, its cursor at the origin, unclipped,
    /// and with no control holding the mouse.
    pub fn new() -> (r: Self)
        ensures
            r.gizmo@ == Seq::<Slot>::empty(),
            r.store() == Map::<Seq<char>, Data>::empty(),
            r.point == (Vector2 { x: 0, y: 0 }),
            r.shape is None,
            r.focus is None,
            r.count == 0,
    {
        let r = Window {
            gizmo: Vec::new(),
            point: Vector2::new(0, 0),
            shape: None,
            focus: None,
            count: 0,
        };
        assert(r.store() =~= Map::<Seq<char>, Data>::empty());
        r
    }

    /// Begins a frame: the cursor goes back to the origin and the tokens
    /// start over. If the control that held the mouse took no token in
    /// the frame before, it is gone, and the mouse is let go.
    pub fn begin(&mut self)
        ensures
            final(self)@ == old(self)@.begun(),
            final(self).gizmo == old(self).gizmo,
    {
        if let Some(token) = self.focus {
            if token >= self.count {
                self.focus = None;
            }
        }
        self.point = Vector2::new(0, 0);
        self.count = 0;
    }

    /// Sets the cursor.
    pub fn point(&mut self, point: Vector2)
        ensures
            *final(self) == (Window { point, ..*old(self) }),
    {
        self.point = point;
    }

    /// Sets or lifts the clip region.
    pub fn shape(&mut self, shape: Option<Rectangle>)
        ensures
            *final(self) == (Window { shape, ..*old(self) }),
    {
        self.shape = shape;
    }

    /// Takes a token without resolving a control.
    pub fn skip(&mut self)
        ensures
            *final(self) == (Window { count: Self::next(old(self).count), ..*old(self) }),
    {
        if self.count < u64::MAX {
            self.count = self.count + 1;
        }
    }

    /// Whether a control of extent `rectangle` is to be drawn.
    pub fn check_draw(&self, rectangle: Rectangle) -> (r: bool)
        ensures
            r == self.shows(rectangle),
    {
        if let Some(shape) = self.shape {
            shape.check_collision_recs(&rectangle)
        } else {
            true
        }
    }

    /// Whether the pointer is over a control of extent `rectangle`.
    pub fn check_mouse(&self, poll: &Poll, rectangle: Rectangle) -> (r: bool)
        ensures
            r == self.hovers(poll.mouse, rectangle),
    {
        let mouse = poll.mouse;
        let mouse_widget = rectangle.check_collision_point_rec(mouse);
        if let Some(shape) = self.shape {
            mouse_widget && shape.check_collision_recs(&rectangle)
                && shape.check_collision_point_rec(mouse)
        } else {
            mouse_widget
        }
    }
}

/// The control surface as contracts speak of it: the records of the
/// controls by identity, the cursor, the clip region, who holds the
/// mouse, and the next token.
pub struct Surface {
    pub store: Map<Seq<char>, Data>,
    pub point: Vector2,
    pub shape: Option<Rectangle>,
    pub focus: Option<u64>,
    pub count: u64,
}

impl View for Window {
    type V = Surface;

    open spec fn view(&self) -> Surface {
        Surface {
            store: self.store(),
            point: self.point,
            shape: self.shape,
            focus: self.focus,
            count: self.count,
        }
    }
}

impl Surface {
    /// A control of extent `rectangle` is to be drawn: there is no clip
    /// region, or the control reaches into it.
    pub open spec fn shows(self, rectangle: Rectangle) -> bool {
        match self.shape {
            Some(shape) => shape.meets(rectangle),
            None => true,
        }
    }

    /// The pointer at `mouse` is over a control of extent `rectangle`:
    /// it is inside the rectangle and, where there is a clip region,
    /// inside the region, into which the control must reach.
    pub open spec fn hovers(self, mouse: Vector2, rectangle: Rectangle) -> bool {
        match self.shape {
            Some(shape) => rectangle.holds(mouse) && shape.meets(rectangle) && shape.holds(mouse),
            None => rectangle.holds(mouse),
        }
    }

    /// What a control of extent `rectangle` is told if it is the next
    /// to be resolved.
    pub open spec fn told(self, poll: &Poll, rectangle: Rectangle) -> State {
        State::told(
            self.focus,
            self.count,
            self.hovers(poll.mouse, rectangle),
            poll.primary().spec_press(),
            poll.primary().spec_release(),
        )
    }

    /// The surface as a frame begins: the cursor is at the origin and
    /// the tokens start over. If the control that held the mouse took no
    /// token in the frame before, it is gone, and the mouse is let go.
    pub open spec fn begun(self) -> Surface {
        Surface {
            store: self.store,
            point: Vector2 { x: 0, y: 0 },
            shape: self.shape,
            focus: match self.focus {
                Some(token) => if token < self.count {
                    Some(token)
                } else {
                    None
                },
                None => None,
            },
            count: 0,
        }
    }

    /// The surface with its cursor at `point`.
    pub open spec fn at(self, point: Vector2) -> Surface {
        Surface { point, ..self }
    }

    /// The surface after a control of extent `rectangle` was resolved,
    /// its record `data` was put under `text`, and the cursor moved down
    /// by `by`.
    pub open spec fn passed(
        self,
        poll: &Poll,
        rectangle: Rectangle,
        text: Seq<char>,
        data: Data,
        by: int,
    ) -> Surface {
        Surface {
            store: self.store.insert(text, data),
            point: Window::below(self.point, by),
            shape: self.shape,
            focus: State::left(
                self.focus,
                self.count,
                self.hovers(poll.mouse, rectangle),
                poll.primary().spec_press(),
                poll.primary().spec_release(),
            ),
            count: Window::next(self.count),
        }
    }

    /// The extent of a button at the cursor: `shape`, or that of a
    /// plain button.
    pub open spec fn button_place(self, shape: Option<Vector2>) -> Rectangle {
        Rectangle {
            x: self.point.x,
            y: self.point.y,
            width: Window::button_extent(shape).x,
            height: Window::button_extent(shape).y,
        }
    }

    /// What a button at the cursor does: to the surface, to the
    /// canvas, and what it hands back. The button is resolved and
    /// animated in any case, and drawn if it reaches into the clip
    /// region; the cursor moves below it. A button out of use is never
    /// clicked and never sinks.
    pub open spec fn button_shape(
        self,
        list: Seq<Sketch>,
        poll: &Poll,
        text: Seq<char>,
        shape: Option<Vector2>,
        image: Option<Art<Seq<char>>>,
        active: bool,
    ) -> (Surface, Seq<Sketch>, (State, Data)) {
        let rectangle = self.button_place(shape);
        let state = Window::button_state(self, poll, rectangle, active);
        let data = Data::fetch(self.store, text).1.animated(
            state.hover,
            state.focus && active,
            poll.time,
        );
        (
            self.passed(poll, rectangle, text, data, rectangle.height + BUTTON_SHIFT),
            if self.shows(rectangle) {
                Window::button_drawn(list, rectangle, data, text, image, active)
            } else {
                list
            },
            (state, data),
        )
    }

    /// What a check box at the cursor does, and what becomes of the
    /// value that it shows: a click turns the value over.
    pub open spec fn toggle(self, list: Seq<Sketch>, poll: &Poll, text: Seq<char>, value: bool) -> (
        Surface,
        Seq<Sketch>,
        bool,
    ) {
        let rectangle = Rectangle {
            x: self.point.x,
            y: self.point.y,
            width: TOGGLE_SHAPE,
            height: TOGGLE_SHAPE,
        };
        let state = self.told(poll, rectangle);
        let data = Data::fetch(self.store, text).1.animated(state.hover, state.focus, poll.time);
        let after = (value != state.click);
        (
            self.passed(poll, rectangle, text, data, TOGGLE_SHAPE + TOGGLE_SHIFT),
            Window::toggle_drawn(list, self.point, data, text, after),
            after,
        )
    }

    /// What a slider at the cursor does, and what becomes of its value:
    /// while the slider holds the mouse, the value follows the pointer.
    /// A slider stays warm while it is dragged, wherever the pointer is.
    pub open spec fn slider(
        self,
        list: Seq<Sketch>,
        poll: &Poll,
        text: Seq<char>,
        value: i64,
        min: i64,
        max: i64,
    ) -> (Surface, Seq<Sketch>, i64) {
        let rectangle = Window::field(self.point);
        let state = self.told(poll, rectangle);
        let data = Data::fetch(self.store, text).1.animated(
            state.hover || state.focus,
            state.focus,
            poll.time,
        );
        let after = if state.focus {
            Window::slid(poll.mouse.x, self.point.x, min, max)
        } else {
            value
        };
        (
            self.passed(poll, rectangle, text, data, SLIDER_SHAPE_MAX_Y + SLIDER_SHIFT),
            Window::slider_drawn(
                list,
                self.point,
                data,
                state,
                text,
                Window::percent(value, min, max),
                after,
            ),
            after,
        )
    }

    /// What a text field at the cursor does, and what becomes of the
    /// text in it: while the pointer is over the field, the keys of the
    /// frame edit the text, and a caret stands behind what it then
    /// holds.
    pub open spec fn record(
        self,
        list: Seq<Sketch>,
        poll: &Poll,
        asset: &Asset,
        text: Seq<char>,
        value: Seq<char>,
    ) -> (Surface, Seq<Sketch>, Seq<char>) {
        let rectangle = Window::field(self.point);
        let state = self.told(poll, rectangle);
        let data = Data::fetch(self.store, text).1.animated(state.hover, state.focus, poll.time);
        let after = if state.hover {
            Window::typed(value, poll)
        } else {
            value
        };
        (
            self.passed(poll, rectangle, text, data, RECORD_SHAPE_MAX_Y + RECORD_SHIFT),
            Window::field_drawn(
                list,
                self.point,
                data,
                state.hover,
                text,
                value,
                Window::spec_primary_side(),
                asset.extent(after).x as int,
                Window::spec_primary_main(),
            ),
            after,
        )
    }

    /// What a field for a number at the cursor does, and what becomes
    /// of the number: while the pointer is over the field, the keys of
    /// the frame edit the number as it is written, and a caret stands
    /// behind it as it is written afterwards.
    pub open spec fn record_number(
        self,
        list: Seq<Sketch>,
        poll: &Poll,
        asset: &Asset,
        text: Seq<char>,
        value: i64,
    ) -> (Surface, Seq<Sketch>, i64) {
        let rectangle = Window::field(self.point);
        let state = self.told(poll, rectangle);
        let data = Data::fetch(self.store, text).1.animated(state.hover, state.focus, poll.time);
        let after = if state.hover {
            Window::retyped(value, poll)
        } else {
            value
        };
        (
            self.passed(poll, rectangle, text, data, RECORD_SHAPE_MAX_Y + RECORD_SHIFT),
            Window::field_drawn(
                list,
                self.point,
                data,
                state.hover,
                text,
                written(value as int),
                Window::spec_primary_main(),
                asset.extent(written(after as int)).x + UNIT,
                Color::spec_black(),
            ),
            after,
        )
    }

    /// What a rule of extent `shape` under the cursor does. The rule
    /// takes a token.
    pub open spec fn separator(self, list: Seq<Sketch>, shape: Vector2) -> (Surface, Seq<Sketch>) {
        (
            Surface {
                point: Window::below(self.point, shape.y + 12 * UNIT),
                count: Window::next(self.count),
                ..self
            },
            Window::sharp(
                list,
                Rectangle {
                    x: self.point.x,
                    y: saturate(self.point.y + shape.y) as i64,
                    width: shape.x,
                    height: shape.y,
                },
                Window::spec_primary_side(),
                true,
            ),
        )
    }

    /// What a text at the cursor does: the cursor moves below it.
    pub open spec fn text(self, list: Seq<Sketch>, asset: &Asset, text: Seq<char>, color: Color) -> (
        Surface,
        Seq<Sketch>,
    ) {
        (
            Surface { point: Window::below(self.point, asset.extent(text).y + TEXT_SHIFT), ..self },
            list.push(Draw::Text { text, point: self.point, color }),
        )
    }

    /// What opening a scroll region of extent `shape` does, and where
    /// the content of the region begins: what is drawn until the region
    /// is closed is clipped to the region and begins where the region is
    /// scrolled to: above the region by the height of the content, as
    /// it was when it was last drawn, times how far the region is
    /// scrolled.
    pub open spec fn scroll_begin(self, list: Seq<Sketch>, text: Seq<char>, shape: Rectangle) -> (
        Surface,
        Seq<Sketch>,
        Vector2,
    ) {
        let scroll = Window::scrolled(Data::fetch(self.store, text).1, shape);
        (
            Surface {
                store: Data::fetch(self.store, text).0,
                point: scroll,
                shape: Some(shape),
                ..self
            },
            list.push(Draw::Clip { shape }),
            scroll,
        )
    }

    /// What closing a scroll region does. The clip region is lifted,
    /// and the cursor goes below the region. The record takes down how
    /// far the cursor came since the region was opened: that is how
    /// tall the content is taken to be when the region is next opened.
    /// The region takes a token.
    pub open spec fn scroll_end(
        self,
        list: Seq<Sketch>,
        poll: &Poll,
        text: Seq<char>,
        shape: Rectangle,
    ) -> (Surface, Seq<Sketch>) {
        let data = Data::fetch(self.store, text).1;
        (
            Surface {
                store: self.store.insert(
                    text,
                    Window::scroll_data(data, shape, poll, self.point.y),
                ),
                point: Vector2 { x: self.point.x, y: Window::scroll_exit(shape) },
                shape: None,
                focus: self.focus,
                count: Window::next(self.count),
            },
            list.push(Draw::Unclip),
        )
    }

    /// What a drawer at the cursor does, and whether it is open
    /// afterwards: a click on its button opens or shuts it.
    pub open spec fn drop(self, list: Seq<Sketch>, poll: &Poll, text: Seq<char>) -> (
        Surface,
        Seq<Sketch>,
        bool,
    ) {
        let rectangle = Window::drawer(self.point);
        let was = Data::fetch(self.store, text).1;
        let warm = self.button_shape(
            list,
            poll,
            text,
            Some(Vector2 { x: 24000, y: 24000 }),
            Some(
                Art::Icon(
                    if was.active {
                        Picture::DropB
                    } else {
                        Picture::DropA
                    },
                ),
            ),
            true,
        );
        let data = Data { active: was.active != warm.2.0.click, ..warm.2.1 };
        (
            self.passed(poll, rectangle, text, data, 24 * UNIT + BUTTON_SHIFT),
            warm.1,
            data.active,
        )
    }

    /// What a tool button at `point` does, and whether the tool is
    /// asked for: by a click on the button, or by its binding. While
    /// the pointer is over the button, a tip with the name and the
    /// binding of the tool shows under it.
    pub open spec fn widget(
        self,
        list: Seq<Sketch>,
        poll: &Poll,
        asset: &Asset,
        point: Vector2,
        name: Seq<char>,
        icon: Picture,
        input: Input,
        active: bool,
    ) -> (Surface, Seq<Sketch>, bool) {
        let button = self.at(point).button_shape(
            list,
            poll,
            Window::hidden(name),
            Some(Vector2 { x: 36000, y: 36000 }),
            Some(Art::Icon(icon)),
            active,
        );
        (
            button.0,
            if button.2.0.hover {
                Window::tip_drawn(
                    button.1,
                    asset,
                    poll.screen,
                    Vector2 {
                        x: point.x,
                        y: saturate(point.y + saturate(36 * UNIT + button.2.1.lift())) as i64,
                    },
                    name,
                    Some(input),
                )
            } else {
                button.1
            },
            button.2.0.click || input.spec_press(*poll),
        )
    }
}

impl Asset {
    /// The extent of `text`, as it was measured.
    pub fn font_measure(&self, text: &str) -> (r: Vector2)
        ensures
            r == self.extent(text@),
    {
        let mut i: usize = 0;
        while i < self.measure.len()
            invariant
                i <= self.measure.len(),
                Self::find(self.measure@, text@, 0) == Self::find(self.measure@, text@, i as int),
            decreases self.measure.len() - i,
        {
            if same_text(self.measure[i].text.as_str(), text) {
                return self.measure[i].shape;
            }
            i += 1;
        }
        Vector2::new(0, 0)
    }
}

impl Window {
    /// The main colour of the surface.
    pub open spec fn spec_primary_main() -> Color {
        Color { r: 3, g: 169, b: 244, a: 255 }
    }

    /// The main colour of the surface.
    #[verifier::when_used_as_spec(spec_primary_main)]
    pub fn primary_main() -> (c: Color)
        ensures
            c == Self::spec_primary_main(),
    {
        Color::new(3, 169, 244, 255)
    }

    /// The side colour of the surface.
    pub open spec fn spec_primary_side() -> Color {
        Color { r: 68, g: 138, b: 255, a: 255 }
    }

    /// The side colour of the surface.
    #[verifier::when_used_as_spec(spec_primary_side)]
    pub fn primary_side() -> (c: Color)
        ensures
            c == Self::spec_primary_side(),
    {
        Color::new(68, 138, 255, 255)
    }

    /// The colour of text on a dark ground.
    pub open spec fn spec_text_white() -> Color {
        Color { r: 255, g: 255, b: 255, a: 255 }
    }

    /// The colour of text on a dark ground.
    #[verifier::when_used_as_spec(spec_text_white)]
    pub fn text_white() -> (c: Color)
        ensures
            c == Self::spec_text_white(),
    {
        Color::new(255, 255, 255, 255)
    }

    /// The colour of text on a light ground.
    pub open spec fn spec_text_black() -> Color {
        Color { r: 33, g: 33, b: 33, a: 255 }
    }

    /// The colour of text on a light ground.
    #[verifier::when_used_as_spec(spec_text_black)]
    pub fn text_black() -> (c: Color)
        ensures
            c == Self::spec_text_black(),
    {
        Color::new(33, 33, 33, 255)
    }

    /// The dark end of the shadow under a card.
    pub open spec fn spec_gradient_max() -> Color {
        Color { r: 0, g: 0, b: 0, a: 99 }
    }

    /// The dark end of the shadow under a card.
    #[verifier::when_used_as_spec(spec_gradient_max)]
    pub fn gradient_max() -> (c: Color)
        ensures
            c == Self::spec_gradient_max(),
    {
        Color::new(0, 0, 0, 99)
    }

    /// The clear end of the shadow under a card.
    pub open spec fn spec_gradient_min() -> Color {
        Color { r: 0, g: 0, b: 0, a: 0 }
    }

    /// The clear end of the shadow under a card.
    #[verifier::when_used_as_spec(spec_gradient_min)]
    pub fn gradient_min() -> (c: Color)
        ensures
            c == Self::spec_gradient_min(),
    {
        Color::new(0, 0, 0, 0)
    }

    /// A card with square corners: its shadow, below it if `direction`
    /// holds and to its left if not, then the card.
    pub open spec fn sharp(
        list: Seq<Sketch>,
        rectangle: Rectangle,
        color: Color,
        direction: bool,
    ) -> Seq<Sketch> {
        list.push(
            if direction {
                Draw::FadeDown {
                    shape: Rectangle {
                        x: rectangle.x,
                        y: saturate(rectangle.y + rectangle.height) as i64,
                        width: rectangle.width,
                        height: GRADIENT_SHAPE_Y,
                    },
                    above: Self::spec_gradient_max(),
                    below: Self::spec_gradient_min(),
                }
            } else {
                Draw::FadeAcross {
                    shape: Rectangle {
                        x: saturate(rectangle.x - GRADIENT_SHAPE_Y) as i64,
                        y: rectangle.y,
                        width: GRADIENT_SHAPE_Y,
                        height: rectangle.height,
                    },
                    left: Self::spec_gradient_min(),
                    right: Self::spec_gradient_max(),
                }
            },
        ).push(Draw::Block { shape: rectangle, color })
    }

    /// A card with rounded corners: its shadow, which begins under the
    /// card, then the card.
    pub open spec fn round(list: Seq<Sketch>, rectangle: Rectangle, color: Color) -> Seq<Sketch> {
        list.push(
            Draw::FadeDown {
                shape: Rectangle {
                    x: rectangle.x,
                    y: saturate(rectangle.y + rectangle.height - GRADIENT_POINT_Y) as i64,
                    width: rectangle.width,
                    height: (GRADIENT_SHAPE_Y + GRADIENT_POINT_Y) as i64,
                },
                above: Self::spec_gradient_max(),
                below: Self::spec_gradient_min(),
            },
        ).push(Draw::Round { shape: rectangle, color })
    }

    /// Draws a card with square corners, and its shadow.
    pub fn card_sharp(&self, draw: &mut Canvas, rectangle: Rectangle, color: Color, direction: bool)
        ensures
            final(draw)@ == Self::sharp(old(draw)@, rectangle, color, direction),
    {
        if direction {
            draw.push(
                Draw::FadeDown {
                    shape: Rectangle::new(
                        rectangle.x,
                        plus(rectangle.y, rectangle.height),
                        rectangle.width,
                        GRADIENT_SHAPE_Y,
                    ),
                    above: Self::gradient_max(),
                    below: Self::gradient_min(),
                },
            );
        } else {
            draw.push(
                Draw::FadeAcross {
                    shape: Rectangle::new(
                        minus(rectangle.x, GRADIENT_SHAPE_Y),
                        rectangle.y,
                        GRADIENT_SHAPE_Y,
                        rectangle.height,
                    ),
                    left: Self::gradient_min(),
                    right: Self::gradient_max(),
                },
            );
        }
        draw.push(Draw::Block { shape: rectangle, color });
    }

    /// Draws a card with rounded corners, and its shadow.
    pub fn card_round(&self, draw: &mut Canvas, rectangle: Rectangle, color: Color)
        ensures
            final(draw)@ == Self::round(old(draw)@, rectangle, color),
    {
        draw.push(
            Draw::FadeDown {
                shape: Rectangle::new(
                    rectangle.x,
                    crate::fixed::narrow(
                        rectangle.y as i128 + rectangle.height as i128 - GRADIENT_POINT_Y as i128,
                    ),
                    rectangle.width,
                    GRADIENT_SHAPE_Y + GRADIENT_POINT_Y,
                ),
                above: Self::gradient_max(),
                below: Self::gradient_min(),
            },
        );
        draw.push(Draw::Round { shape: rectangle, color });
    }

    /// Writes `text` at `point`.
    pub fn font(&self, draw: &mut Canvas, text: &str, point: Vector2, color: Color)
        ensures
            final(draw)@ == old(draw)@.push(Draw::Text { text: text@, point, color }),
    {
        draw.text(text, point, color);
    }

    /// The extent of `text`, as it was measured.
    pub fn font_measure(&self, asset: &Asset, text: &str) -> (r: Vector2)
        ensures
            r == asset.extent(text@),
    {
        asset.font_measure(text)
    }

    /// Moves the cursor down by `by`.
    fn down(&mut self, by: i128)
        requires
            -0x4000_0000_0000_0000_0000 <= by <= 0x4000_0000_0000_0000_0000,
        ensures
            *final(self) == (Window { point: Self::below(old(self).point, by as int), ..*old(self) }),
    {
        self.point = Vector2::new(self.point.x, crate::fixed::narrow(self.point.y as i128 + by));
    }

    /// Writes `text` at the cursor, and moves the cursor below it.
    pub fn text(&mut self, draw: &mut Canvas, asset: &Asset, text: &str, color: Color)
        ensures
            (final(self)@, final(draw)@) == old(self)@.text(old(draw)@, asset, text@, color),
    {
        self.font(draw, text, self.point, color);
        let measure = self.font_measure(asset, text);
        self.down(measure.y as i128 + TEXT_SHIFT as i128);
    }

    /// Draws a rule of extent `shape` under the cursor, and moves the
    /// cursor below it. The rule takes a token.
    pub fn separator(&mut self, draw: &mut Canvas, shape: Vector2)
        ensures
            (final(self)@, final(draw)@) == old(self)@.separator(old(draw)@, shape),
    {
        self.card_sharp(
            draw,
            Rectangle::new(self.point.x, plus(self.point.y, shape.y), shape.x, shape.y),
            Self::primary_side(),
            true,
        );
        self.down(shape.y as i128 + 12000);
        self.skip();
    }

    /// Lets the record under the identity `text` live through this
    /// frame, and hands it out as it is afterwards.
    pub fn animate(&mut self, poll: &Poll, text: &str, hover: bool, focus: bool) -> (data: Data)
        ensures
            data == Data::fetch(old(self).store(), text@).1.animated(hover, focus, poll.time),
            final(self).store() == old(self).store().insert(text@, data),
            final(self).point == old(self).point,
            final(self).shape == old(self).shape,
            final(self).focus == old(self).focus,
            final(self).count == old(self).count,
    {
        let data = Data::get(self, text);
        data.set_hover(poll, hover);
        data.set_focus(poll, focus);
        *data
    }

    /// Where `text` ends if what follows its first `##` is left out:
    /// the place of that `##`, or the length of the text.
    pub open spec fn cut(text: Seq<char>, from: int) -> int
        decreases text.len() - from,
    {
        if from < 0 || from + 1 >= text.len() {
            text.len() as int
        } else if text[from] == '#' && text[from + 1] == '#' {
            from
        } else {
            Self::cut(text, from + 1)
        }
    }

    /// The part of an identity that is shown: what stands before its
    /// first `##`.
    pub open spec fn shown(text: Seq<char>) -> Seq<char> {
        text.take(Self::cut(text, 0))
    }

    /// The part of an identity that is shown.
    pub fn text_hash(text: &str) -> (r: &str)
        ensures
            r@ == Self::shown(text@),
    {
        let n = text.unicode_len();
        let mut i: usize = 0;
        while n - i > 1
            invariant
                n == text@.len(),
                i <= n,
                Self::cut(text@, 0) == Self::cut(text@, i as int),
            decreases n - i,
        {
            if text.get_char(i) == '#' && text.get_char(i + 1) == '#' {
                return text.substring_char(0, i);
            }
            i += 1;
        }
        text.substring_char(0, n)
    }

    /// The colour of the card of a button: the side colour at the
    /// brightness of the button, and half of that while the button is
    /// out of use.
    pub open spec fn button_color(data: Data, active: bool) -> Color {
        let c = Color {
            r: data.shade(Self::spec_primary_side().r),
            g: data.shade(Self::spec_primary_side().g),
            b: data.shade(Self::spec_primary_side().b),
            a: Self::spec_primary_side().a,
        };
        if active {
            c
        } else {
            Color { r: c.r / 2, g: c.g / 2, b: c.b / 2, a: c.a }
        }
    }

    /// `color` at the brightness of `data`.
    pub open spec fn lit(data: Data, color: Color) -> Color {
        Color {
            r: data.shade(color.r),
            g: data.shade(color.g),
            b: data.shade(color.b),
            a: color.a,
        }
    }

    /// `rectangle` as high above its place as the control of `data` is.
    pub open spec fn raised(data: Data, rectangle: Rectangle) -> Rectangle {
        Rectangle { y: saturate(rectangle.y - data.lift()) as i64, ..rectangle }
    }

    /// What a button of extent `rectangle` draws: its card, and on it
    /// either its text or, for a button with a picture, the picture,
    /// with the shown part of the text to its right.
    pub open spec fn button_drawn(
        list: Seq<Sketch>,
        rectangle: Rectangle,
        data: Data,
        text: Seq<char>,
        image: Option<Art<Seq<char>>>,
        active: bool,
    ) -> Seq<Sketch> {
        let card = Self::round(
            list,
            Self::raised(data, rectangle),
            Self::button_color(data, active),
        );
        match image {
            Some(art) => card.push(
                Draw::Image {
                    art,
                    shape: Rectangle {
                        x: saturate(rectangle.x + 4 * UNIT) as i64,
                        y: saturate(rectangle.y + 4 * UNIT - data.lift()) as i64,
                        width: saturate(rectangle.width - 8 * UNIT) as i64,
                        height: saturate(rectangle.height - 8 * UNIT) as i64,
                    },
                },
            ).push(
                Draw::Text {
                    text: Self::shown(text),
                    point: Vector2 {
                        x: saturate(rectangle.x + rectangle.width + BUTTON_TEXT_SHIFT_X) as i64,
                        y: saturate(rectangle.y - data.lift()) as i64,
                    },
                    color: Self::lit(data, Self::spec_text_white()),
                },
            ),
            None => card.push(
                Draw::Text {
                    text,
                    point: Vector2 {
                        x: saturate(rectangle.x + BUTTON_TEXT_SHIFT_X) as i64,
                        y: saturate(rectangle.y + BUTTON_TEXT_SHIFT_Y - data.lift()) as i64,
                    },
                    color: Self::lit(data, Self::spec_text_white()),
                },
            ),
        }
    }

    /// The extent of a button: `shape`, or that of a plain button.
    pub open spec fn button_extent(shape: Option<Vector2>) -> Vector2 {
        match shape {
            Some(shape) => shape,
            None => Vector2 { x: BUTTON_SHAPE_X, y: BUTTON_SHAPE_Y },
        }
    }

    /// What a button at the cursor is told in this frame. A button out
    /// of use is never clicked.
    pub open spec fn button_state(
        before: Surface,
        poll: &Poll,
        rectangle: Rectangle,
        active: bool,
    ) -> State {
        let state = before.told(poll, rectangle);
        State { click: state.click && active, ..state }
    }

    /// A button at the cursor, of extent `shape`, with the identity
    /// `text`, showing its text or the picture `image`.
    pub fn button_shape(
        &mut self,
        draw: &mut Canvas,
        poll: &Poll,
        text: &str,
        shape: Option<Vector2>,
        image: Option<Art<&str>>,
        active: bool,
    ) -> (r: (State, Data))
        ensures
            (final(self)@, final(draw)@, r) == old(self)@.button_shape(
                old(draw)@,
                poll,
                text@,
                shape,
                match image {
                    Some(art) => Some(art@),
                    None => None,
                },
                active,
            ),
    {
        let shape = match shape {
            Some(shape) => shape,
            None => Vector2::new(BUTTON_SHAPE_X, BUTTON_SHAPE_Y),
        };
        let rectangle = Rectangle::new(self.point.x, self.point.y, shape.x, shape.y);
        let mut state = State::get(self, poll, rectangle);
        let data = self.animate(poll, text, state.hover, state.focus && active);
        if self.check_draw(rectangle) {
            let lift = data.get_point();
            let color = if active {
                data.get_color(&Self::primary_side())
            } else {
                let c = data.get_color(&Self::primary_side());
                Color::new(c.r / 2, c.g / 2, c.b / 2, c.a)
            };
            self.card_round(draw, data.get_shape(&rectangle), color);
            if let Some(image) = image {
                draw.image(
                    &image,
                    Rectangle::new(
                        crate::fixed::narrow(rectangle.x as i128 + 4000),
                        crate::fixed::narrow(rectangle.y as i128 + 4000 - lift as i128),
                        crate::fixed::narrow(shape.x as i128 - 8000),
                        crate::fixed::narrow(shape.y as i128 - 8000),
                    ),
                );
                self.font(
                    draw,
                    Self::text_hash(text),
                    Vector2::new(
                        crate::fixed::narrow(
                            rectangle.x as i128 + shape.x as i128 + BUTTON_TEXT_SHIFT_X as i128,
                        ),
                        minus(rectangle.y, lift),
                    ),
                    data.get_color(&Self::text_white()),
                );
            } else {
                self.font(
                    draw,
                    text,
                    Vector2::new(
                        plus(rectangle.x, BUTTON_TEXT_SHIFT_X),
                        crate::fixed::narrow(
                            rectangle.y as i128 + BUTTON_TEXT_SHIFT_Y as i128 - lift as i128,
                        ),
                    ),
                    data.get_color(&Self::text_white()),
                );
            }
        }
        if !active {
            state.click = false;
        }
        self.down(shape.y as i128 + BUTTON_SHIFT as i128);
        (state, data)
    }

    /// A plain button at the cursor, with the identity `text`.
    pub fn button(&mut self, draw: &mut Canvas, poll: &Poll, text: &str) -> (r: (State, Data))
        ensures
            (final(self)@, final(draw)@, r) == old(self)@.button_shape(
                old(draw)@,
                poll,
                text@,
                None,
                None,
                true,
            ),
    {
        self.button_shape(draw, poll, text, None, None, true)
    }

    /// The identity of a control that shows no text of its own.
    pub open spec fn hidden(text: Seq<char>) -> Seq<char> {
        "##"@ + text
    }

    /// `text` behind the mark that hides it.
    pub fn hide_text(text: &str) -> (r: String)
        ensures
            r@ == Self::hidden(text@),
    {
        String::from_str("##").concat(text)
    }

    /// A button that shows a picture, at the cursor, of extent `shape`.
    /// Its identity is `text` behind `##`, so that it shows no text.
    pub fn button_image(
        &mut self,
        draw: &mut Canvas,
        poll: &Poll,
        text: &str,
        shape: Vector2,
        texture: Art<&str>,
        active: bool,
    ) -> (r: (State, Data))
        ensures
            (final(self)@, final(draw)@, r) == old(self)@.button_shape(
                old(draw)@,
                poll,
                Self::hidden(text@),
                Some(shape),
                Some(texture@),
                active,
            ),
    {
        let name = Self::hide_text(text);
        self.button_shape(draw, poll, name.as_str(), Some(shape), Some(texture), active)
    }

    /// What a check box at `point` draws: its box, the mark in it while
    /// `value` holds, and its text to the right.
    pub open spec fn toggle_drawn(
        list: Seq<Sketch>,
        point: Vector2,
        data: Data,
        text: Seq<char>,
        value: bool,
    ) -> Seq<Sketch> {
        let outer = Self::round(
            list,
            Self::raised(
                data,
                Rectangle { x: point.x, y: point.y, width: TOGGLE_SHAPE, height: TOGGLE_SHAPE },
            ),
            Self::lit(data, Self::spec_primary_main()),
        );
        let inner = if value {
            Self::round(
                outer,
                Self::raised(
                    data,
                    Rectangle {
                        x: saturate(point.x + 6 * UNIT) as i64,
                        y: saturate(point.y + 6 * UNIT) as i64,
                        width: 12000,
                        height: 12000,
                    },
                ),
                Self::lit(data, Self::spec_primary_side()),
            )
        } else {
            outer
        };
        inner.push(
            Draw::Text {
                text,
                point: Vector2 {
                    x: saturate(point.x + TOGGLE_SHAPE + TOGGLE_SHIFT) as i64,
                    y: saturate(point.y - data.lift()) as i64,
                },
                color: Self::lit(data, Self::spec_text_white()),
            },
        )
    }

    /// A check box at the cursor, with the identity `text`. A click
    /// turns `value` over.
    pub fn toggle(&mut self, draw: &mut Canvas, poll: &Poll, text: &str, value: &mut bool)
        ensures
            (final(self)@, final(draw)@, *final(value)) == old(self)@.toggle(
                old(draw)@,
                poll,
                text@,
                *old(value),
            ),
    {
        let point = self.point;
        let rectangle_max = Rectangle::new(point.x, point.y, TOGGLE_SHAPE, TOGGLE_SHAPE);
        let rectangle_min = Rectangle::new(plus(point.x, 6000), plus(point.y, 6000), 12000, 12000);
        let state = State::get(self, poll, rectangle_max);
        let data = self.animate(poll, text, state.hover, state.focus);
        if state.click {
            *value = !*value;
        }
        self.card_round(
            draw,
            data.get_shape(&rectangle_max),
            data.get_color(&Self::primary_main()),
        );
        if *value {
            self.card_round(
                draw,
                data.get_shape(&rectangle_min),
                data.get_color(&Self::primary_side()),
            );
        }
        self.font(
            draw,
            text,
            Vector2::new(
                crate::fixed::narrow(point.x as i128 + TOGGLE_SHAPE as i128 + TOGGLE_SHIFT as i128),
                minus(point.y, data.get_point()),
            ),
            data.get_color(&Self::text_white()),
        );
        self.down(TOGGLE_SHAPE as i128 + TOGGLE_SHIFT as i128);
    }

    /// How far along its range a slider stands, from 0 to 1 while the
    /// value lies in the range.
    pub open spec fn percent(value: i64, min: i64, max: i64) -> i64 {
        saturate(quotient((value - min) * UNIT, max - min)) as i64
    }

    /// The value that a slider takes as the pointer drags it: the
    /// pointer, in whole pixels, counts from the left edge of the
    /// slider and is held to its width.
    pub open spec fn slid(mouse: i64, left: i64, min: i64, max: i64) -> i64 {
        let along = bounded(
            quotient((quotient(mouse as int, UNIT as int) * UNIT - left) * UNIT, SLIDER_SHAPE_X as int),
            0,
            UNIT as int,
        );
        saturate(quotient(along * (max - min), UNIT as int) + min) as i64
    }

    /// What a slider at `point` draws: its track, the part of the track
    /// below the value, a bubble with the value while it is dragged,
    /// its knob, and its text to the right. `part` is how far along its
    /// range the slider stood as the frame began, `value` where it
    /// stands now.
    pub open spec fn slider_drawn(
        list: Seq<Sketch>,
        point: Vector2,
        data: Data,
        state: State,
        text: Seq<char>,
        part: i64,
        value: i64,
    ) -> Seq<Sketch> {
        let middle = saturate(point.y + 10 * UNIT) as i64;
        let filled = saturate(quotient(SLIDER_SHAPE_X * part, UNIT as int)) as i64;
        let main = Self::lit(data, Self::spec_primary_main());
        let track = Self::sharp(
            Self::sharp(
                list,
                Self::raised(
                    data,
                    Rectangle {
                        x: point.x,
                        y: middle,
                        width: SLIDER_SHAPE_X,
                        height: SLIDER_SHAPE_MIN_Y,
                    },
                ),
                Self::lit(data, Self::spec_primary_side()),
                true,
            ),
            Self::raised(
                data,
                Rectangle { x: point.x, y: middle, width: filled, height: SLIDER_SHAPE_MIN_Y },
            ),
            main,
            true,
        );
        let pin = Vector2 {
            x: saturate(point.x + filled) as i64,
            y: saturate(point.y + SLIDER_FOCUS_POINT_Y - data.lift()) as i64,
        };
        let bubble = if state.focus {
            track.push(Draw::Circle { center: pin, radius: SLIDER_FOCUS_SHAPE, color: main }).push(
                Draw::Triangle {
                    a: Vector2 { x: saturate(pin.x - SLIDER_FOCUS_SHAPE) as i64, y: pin.y },
                    b: Vector2 { x: pin.x, y: saturate(pin.y - SLIDER_FOCUS_POINT_Y) as i64 },
                    c: Vector2 { x: saturate(pin.x + SLIDER_FOCUS_SHAPE) as i64, y: pin.y },
                    color: main,
                },
            ).push(Draw::Number { value, point: pin, color: Self::spec_text_white() })
        } else {
            track
        };
        bubble.push(
            Draw::Circle {
                center: Vector2 {
                    x: saturate(point.x + filled) as i64,
                    y: saturate(point.y + 12 * UNIT - data.lift()) as i64,
                },
                radius: SLIDER_CIRCLE_SHAPE,
                color: main,
            },
        ).push(
            Draw::Text {
                text,
                point: Vector2 {
                    x: saturate(point.x + SLIDER_SHAPE_X + SLIDER_SHIFT) as i64,
                    y: saturate(point.y - data.lift()) as i64,
                },
                color: Self::spec_text_white(),
            },
        )
    }

    /// The extent of a slider or a text field at `point`.
    pub open spec fn field(point: Vector2) -> Rectangle {
        Rectangle { x: point.x, y: point.y, width: SLIDER_SHAPE_X, height: SLIDER_SHAPE_MAX_Y }
    }

    /// A slider at the cursor for a value between `min` and `max`, which
    /// differ, with the identity `text`. While it holds the mouse, the
    /// value follows the pointer: `min` lies at the left end of the
    /// slider and `max` at the right end.
    pub fn slider(
        &mut self,
        draw: &mut Canvas,
        poll: &Poll,
        text: &str,
        value: &mut i64,
        min: i64,
        max: i64,
    )
        requires
            min != max,
        ensures
            (final(self)@, final(draw)@, *final(value)) == old(self)@.slider(
                old(draw)@,
                poll,
                text@,
                *old(value),
                min,
                max,
            ),
    {
        let point = self.point;
        let span: i128 = max as i128 - min as i128;
        proof {
            crate::fixed::lemma_scaled_fits(*value - min, UNIT as int);
        }
        let percent = crate::fixed::narrow(
            crate::fixed::divide((*value as i128 - min as i128) * UNIT as i128, span),
        );
        let rectangle_hit = Rectangle::new(point.x, point.y, SLIDER_SHAPE_X, SLIDER_SHAPE_MAX_Y);
        let middle = plus(point.y, 10000);
        proof {
            crate::fixed::lemma_product_fits(SLIDER_SHAPE_X as int, percent as int);
        }
        let filled = crate::fixed::narrow(
            crate::fixed::divide(SLIDER_SHAPE_X as i128 * percent as i128, UNIT as i128),
        );
        let rectangle_max = Rectangle::new(point.x, middle, SLIDER_SHAPE_X, SLIDER_SHAPE_MIN_Y);
        let rectangle_min = Rectangle::new(point.x, middle, filled, SLIDER_SHAPE_MIN_Y);
        let state = State::get(self, poll, rectangle_hit);
        let data = self.animate(poll, text, state.hover || state.focus, state.focus);
        let lift = data.get_point();
        if state.focus {
            let pixel: i128 = crate::fixed::divide(poll.mouse.x as i128, UNIT as i128);
            proof {
                crate::fixed::lemma_scaled_fits(pixel as int, UNIT as int);
            }
            let offset: i128 = pixel * UNIT as i128 - point.x as i128;
            proof {
                crate::fixed::lemma_scaled_fits(offset as int, UNIT as int);
            }
            let along: i128 = crate::fixed::divide(offset * UNIT as i128, SLIDER_SHAPE_X as i128);
            let along: i128 = if along < 0 {
                0
            } else if along > UNIT as i128 {
                UNIT as i128
            } else {
                along
            };
            proof {
                crate::fixed::lemma_scaled_fits(span as int, along as int);
                assert(along * span == span * along) by (nonlinear_arith);
            }
            *value = crate::fixed::narrow(
                crate::fixed::divide(along * span, UNIT as i128) + min as i128,
            );
        }
        let main = data.get_color(&Self::primary_main());
        self.card_sharp(
            draw,
            data.get_shape(&rectangle_max),
            data.get_color(&Self::primary_side()),
            true,
        );
        self.card_sharp(draw, data.get_shape(&rectangle_min), main, true);
        let knob = plus(point.x, filled);
        if state.focus {
            let pin = Vector2::new(
                knob,
                crate::fixed::narrow(
                    point.y as i128 + SLIDER_FOCUS_POINT_Y as i128 - lift as i128,
                ),
            );
            draw.push(Draw::Circle { center: pin, radius: SLIDER_FOCUS_SHAPE, color: main });
            draw.push(
                Draw::Triangle {
                    a: Vector2::new(minus(pin.x, SLIDER_FOCUS_SHAPE), pin.y),
                    b: Vector2::new(pin.x, minus(pin.y, SLIDER_FOCUS_POINT_Y)),
                    c: Vector2::new(plus(pin.x, SLIDER_FOCUS_SHAPE), pin.y),
                    color: main,
                },
            );
            draw.push(Draw::Number { value: *value, point: pin, color: Self::text_white() });
        }
        draw.push(
            Draw::Circle {
                center: Vector2::new(
                    knob,
                    crate::fixed::narrow(point.y as i128 + 12000 - lift as i128),
                ),
                radius: SLIDER_CIRCLE_SHAPE,
                color: main,
            },
        );
        self.font(
            draw,
            text,
            Vector2::new(
                crate::fixed::narrow(
                    point.x as i128 + SLIDER_SHAPE_X as i128 + SLIDER_SHIFT as i128,
                ),
                minus(point.y, lift),
            ),
            Self::text_white(),
        );
        self.down(SLIDER_SHAPE_MAX_Y as i128 + SLIDER_SHIFT as i128);
    }

    /// The text of a field after the keys of this frame: the backspace
    /// key takes the last character away, and any other character that
    /// was typed is added at the end.
    pub open spec fn typed(text: Seq<char>, poll: &Poll) -> Seq<char> {
        if Key::Keyboard(KeyboardKey::Backspace).spec_press(*poll) {
            if text.len() > 0 {
                text.drop_last()
            } else {
                text
            }
        } else {
            match poll.character {
                Some(c) => text.push(c),
                None => text,
            }
        }
    }

    /// Applies the keys of this frame to the text of a field.
    pub fn edit(value: &mut String, poll: &Poll)
        ensures
            final(value)@ == Self::typed(old(value)@, poll),
    {
        if Key::Keyboard(KeyboardKey::Backspace).get_press(poll) {
            pop_char(value);
        } else if let Some(c) = poll.character {
            push_char(value, c);
        }
    }

    /// What a field at `point` draws: the line under it in the colour
    /// `bar`, what it holds, its text to the right and, while the
    /// pointer is over it, a caret `caret` to the right of `point`.
    pub open spec fn field_drawn(
        list: Seq<Sketch>,
        point: Vector2,
        data: Data,
        hover: bool,
        text: Seq<char>,
        value: Seq<char>,
        bar: Color,
        caret: int,
        ink: Color,
    ) -> Seq<Sketch> {
        let body = Self::sharp(
            list,
            Self::raised(
                data,
                Rectangle {
                    x: point.x,
                    y: saturate(point.y + RECORD_SHAPE_MAX_Y - RECORD_SHAPE_MIN_Y) as i64,
                    width: RECORD_SHAPE_X,
                    height: RECORD_SHAPE_MIN_Y,
                },
            ),
            Self::lit(data, bar),
            true,
        ).push(
            Draw::Text {
                text: value,
                point: Vector2 {
                    x: point.x,
                    y: saturate(point.y - data.lift() - RECORD_SHAPE_MIN_Y) as i64,
                },
                color: Self::lit(data, Self::spec_text_white()),
            },
        ).push(
            Draw::Text {
                text,
                point: Vector2 {
                    x: saturate(point.x + RECORD_SHAPE_X + RECORD_SHIFT) as i64,
                    y: saturate(point.y - data.lift()) as i64,
                },
                color: Self::lit(data, Self::spec_text_white()),
            },
        );
        if hover {
            Self::sharp(
                body,
                Self::raised(
                    data,
                    Rectangle {
                        x: saturate(point.x + caret) as i64,
                        y: point.y,
                        width: RECORD_SHAPE_CARET_X,
                        height: RECORD_SHAPE_CARET_Y,
                    },
                ),
                Self::lit(data, ink),
                true,
            )
        } else {
            body
        }
    }

    fn field_draw(
        &self,
        draw: &mut Canvas,
        point: Vector2,
        data: &Data,
        text: &str,
        value: &str,
        bar: Color,
    )
        ensures
            final(draw)@ == Self::field_drawn(
                old(draw)@,
                point,
                *data,
                false,
                text@,
                value@,
                bar,
                0,
                bar,
            ),
    {
        let lift = data.get_point();
        self.card_sharp(
            draw,
            data.get_shape(
                &Rectangle::new(
                    point.x,
                    crate::fixed::narrow(
                        point.y as i128 + RECORD_SHAPE_MAX_Y as i128 - RECORD_SHAPE_MIN_Y as i128,
                    ),
                    RECORD_SHAPE_X,
                    RECORD_SHAPE_MIN_Y,
                ),
            ),
            data.get_color(&bar),
            true,
        );
        self.font(
            draw,
            value,
            Vector2::new(
                point.x,
                crate::fixed::narrow(
                    point.y as i128 - lift as i128 - RECORD_SHAPE_MIN_Y as i128,
                ),
            ),
            data.get_color(&Self::text_white()),
        );
        self.font(
            draw,
            text,
            Vector2::new(
                crate::fixed::narrow(
                    point.x as i128 + RECORD_SHAPE_X as i128 + RECORD_SHIFT as i128,
                ),
                minus(point.y, lift),
            ),
            data.get_color(&Self::text_white()),
        );
    }

    fn caret_draw(&self, draw: &mut Canvas, point: Vector2, data: &Data, caret: i128, ink: Color)
        requires
            -0x1_0000_0000_0000_0000 <= caret <= 0x1_0000_0000_0000_0000,
        ensures
            final(draw)@ == Self::sharp(
                old(draw)@,
                Self::raised(
                    *data,
                    Rectangle {
                        x: saturate(point.x + caret) as i64,
                        y: point.y,
                        width: RECORD_SHAPE_CARET_X,
                        height: RECORD_SHAPE_CARET_Y,
                    },
                ),
                Self::lit(*data, ink),
                true,
            ),
    {
        self.card_sharp(
            draw,
            data.get_shape(
                &Rectangle::new(
                    crate::fixed::narrow(point.x as i128 + caret),
                    point.y,
                    RECORD_SHAPE_CARET_X,
                    RECORD_SHAPE_CARET_Y,
                ),
            ),
            data.get_color(&ink),
            true,
        );
    }

    /// A text field at the cursor, with the identity `text`. While the
    /// pointer is over it, the keys of the frame edit `value`, and a
    /// caret stands behind what it then holds.
    pub fn record(
        &mut self,
        draw: &mut Canvas,
        poll: &Poll,
        asset: &Asset,
        text: &str,
        value: &mut String,
    )
        ensures
            (final(self)@, final(draw)@, final(value)@) == old(self)@.record(
                old(draw)@,
                poll,
                asset,
                text@,
                old(value)@,
            ),
    {
        let point = self.point;
        let rectangle_hit = Rectangle::new(point.x, point.y, RECORD_SHAPE_X, RECORD_SHAPE_MAX_Y);
        let state = State::get(self, poll, rectangle_hit);
        let data = self.animate(poll, text, state.hover, state.focus);
        self.field_draw(draw, point, &data, text, value.as_str(), Self::primary_side());
        if state.hover {
            Self::edit(value, poll);
            let measure = self.font_measure(asset, value.as_str());
            self.caret_draw(draw, point, &data, measure.x as i128, Self::primary_main());
        }
        self.down(RECORD_SHAPE_MAX_Y as i128 + RECORD_SHIFT as i128);
    }

    /// A number after the keys of this frame: the keys edit the number
    /// as it is written, and what then stands there is read again. What
    /// cannot be read is zero. A frame without keys leaves the number as
    /// it is.
    pub open spec fn retyped(value: i64, poll: &Poll) -> i64 {
        if Key::Keyboard(KeyboardKey::Backspace).spec_press(*poll) || poll.character is Some {
            match read(Self::typed(written(value as int), poll)) {
                Some(v) => saturate(v) as i64,
                None => 0,
            }
        } else {
            value
        }
    }

    /// Applies the keys of this frame to a number, as it is written.
    pub fn retype(value: i64, poll: &Poll) -> (r: i64)
        ensures
            r == Self::retyped(value, poll),
    {
        if Key::Keyboard(KeyboardKey::Backspace).get_press(poll) || poll.character.is_some() {
            let mut work = number_text(value);
            Self::edit(&mut work, poll);
            match parse_number(work.as_str()) {
                Some(v) => v,
                None => 0,
            }
        } else {
            value
        }
    }

    /// A field for a number at the cursor, with the identity `text`.
    /// While the pointer is over it, the keys of the frame edit the
    /// number as it is written.
    pub fn record_number(
        &mut self,
        draw: &mut Canvas,
        poll: &Poll,
        asset: &Asset,
        text: &str,
        value: &mut i64,
    )
        ensures
            (final(self)@, final(draw)@, *final(value)) == old(self)@.record_number(
                old(draw)@,
                poll,
                asset,
                text@,
                *old(value),
            ),
    {
        let point = self.point;
        let rectangle_hit = Rectangle::new(point.x, point.y, RECORD_SHAPE_X, RECORD_SHAPE_MAX_Y);
        let state = State::get(self, poll, rectangle_hit);
        let data = self.animate(poll, text, state.hover, state.focus);
        let before = number_text(*value);
        self.field_draw(draw, point, &data, text, before.as_str(), Self::primary_main());
        if state.hover {
            *value = Self::retype(*value, poll);
            let after = number_text(*value);
            let measure = self.font_measure(asset, after.as_str());
            self.caret_draw(draw, point, &data, measure.x as i128 + 1000, Color::black());
        }
        self.down(RECORD_SHAPE_MAX_Y as i128 + RECORD_SHIFT as i128);
    }

    /// How far the content of a scroll region is scrolled away, for a
    /// record `data`: the part of the height of the content that the
    /// record names.
    pub open spec fn away(data: Data) -> i64 {
        saturate(quotient(data.scroll_shape * data.scroll_shift, UNIT as int)) as i64
    }

    /// Where the content of a scroll region begins: above the region by
    /// what is scrolled away.
    pub open spec fn scrolled(data: Data, shape: Rectangle) -> Vector2 {
        Vector2 { x: shape.x, y: saturate(shape.y - Self::away(data)) as i64 }
    }

    fn content_start(data: &Data, shape: &Rectangle) -> (r: Vector2)
        ensures
            r == Self::scrolled(*data, *shape),
    {
        Vector2::new(
            shape.x,
            minus(shape.y, crate::fixed::times(data.scroll_shape, data.scroll_shift)),
        )
    }

    /// Opens a scroll region of extent `shape`, with the identity
    /// `text`. The result is where the content of the region begins.
    pub fn scroll_begin(&mut self, draw: &mut Canvas, text: &str, shape: Rectangle) -> (scroll:
        Vector2)
        ensures
            (final(self)@, final(draw)@, scroll) == old(self)@.scroll_begin(
                old(draw)@,
                text@,
                shape,
            ),
    {
        let data = *Data::get(self, text);
        proof {
            assert(self.store() =~= Data::fetch(old(self).store(), text@).0);
        }
        draw.push(Draw::Clip { shape });
        let scroll = Self::content_start(&data, &shape);
        self.point(scroll);
        self.shape(Some(shape));
        scroll
    }

    /// How far a scroll region is scrolled once the wheel of this frame
    /// has turned: a notch of the wheel is a tenth of the way, and the
    /// wheel counts while the pointer is over the region.
    pub open spec fn wheeled(data: Data, shape: Rectangle, poll: &Poll) -> i64 {
        if shape.holds(poll.mouse) {
            bounded(
                data.scroll_shift - saturate(quotient(poll.wheel * 100, UNIT as int)),
                0,
                UNIT as int,
            ) as i64
        } else {
            data.scroll_shift
        }
    }

    /// The record of a scroll region as the region is closed with the
    /// cursor at height `end`: it takes down how tall the content was,
    /// and follows the wheel.
    pub open spec fn scroll_data(data: Data, shape: Rectangle, poll: &Poll, end: i64) -> Data {
        Data {
            scroll_shape: saturate(end - Self::scrolled(data, shape).y) as i64,
            scroll_shift: Self::wheeled(data, shape, poll),
            ..data
        }
    }

    /// Where the cursor stands once a scroll region is closed: below
    /// the region, by the gap that follows a region.
    pub open spec fn scroll_exit(shape: Rectangle) -> i64 {
        saturate(shape.y + shape.height + 4 * UNIT) as i64
    }

    /// Closes the scroll region that `Window::scroll_begin` opened with
    /// the same identity and extent.
    pub fn scroll_end(&mut self, draw: &mut Canvas, poll: &Poll, text: &str, shape: Rectangle)
        ensures
            (final(self)@, final(draw)@) == old(self)@.scroll_end(old(draw)@, poll, text@, shape),
    {
        let end = self.point;
        self.shape(None);
        draw.push(Draw::Unclip);
        let mouse = shape.check_collision_point_rec(poll.mouse);
        let data = Data::get(self, text);
        let before = *data;
        let start = Self::content_start(&before, &shape);
        data.scroll_shape = minus(end.y, start.y);
        if mouse {
            data.scroll_shift = limit_unit(
                data.scroll_shift as i128 - crate::fixed::times(poll.wheel, 100) as i128,
            );
        }
        self.point = Vector2::new(
            end.x,
            crate::fixed::narrow(shape.y as i128 + shape.height as i128 + 4000),
        );
        self.skip();
    }

    /// The extent of the card of a key: its name, and some room.
    pub open spec fn key_extent(asset: &Asset, key: Key) -> Vector2 {
        Vector2 {
            x: saturate(asset.extent(key.label()).x + 8 * UNIT) as i64,
            y: asset.extent(key.label()).y,
        }
    }

    /// The extent of a binding as it is drawn: the cards of its keys
    /// side by side.
    pub open spec fn input_extent(asset: &Asset, input: Input) -> Vector2 {
        match input.modify {
            Some(modify) => Vector2 {
                x: saturate(
                    saturate(
                        Self::key_extent(asset, modify).x + Self::key_extent(asset, input.button).x,
                    ) + 4 * UNIT,
                ) as i64,
                y: saturate(
                    Self::key_extent(asset, modify).y + Self::key_extent(asset, input.button).y,
                ) as i64,
            },
            None => Vector2 {
                x: saturate(asset.extent(input.button.label()).x + 4 * UNIT) as i64,
                y: asset.extent(input.button.label()).y,
            },
        }
    }

    fn measure_key(&self, asset: &Asset, key: Key) -> (r: Vector2)
        ensures
            r == Self::key_extent(asset, key),
    {
        let measure = self.font_measure(asset, key.name());
        Vector2::new(plus(measure.x, 8000), measure.y)
    }

    /// The extent of a binding as it is drawn.
    pub fn measure_input(&self, asset: &Asset, input: &Input) -> (r: Vector2)
        ensures
            r == Self::input_extent(asset, *input),
    {
        if let Some(modify) = input.modify {
            let m_modify = self.measure_key(asset, modify);
            let m_button = self.measure_key(asset, input.button);
            m_modify.plus(m_button).plus(Vector2::new(4000, 0))
        } else {
            let measure = self.font_measure(asset, input.button.name());
            Vector2::new(plus(measure.x, 4000), measure.y)
        }
    }

    /// The card of a key at `point`, with the name of the key on it.
    pub open spec fn key_drawn(list: Seq<Sketch>, asset: &Asset, point: Vector2, key: Key) -> Seq<
        Sketch,
    > {
        Self::round(
            list,
            Rectangle {
                x: point.x,
                y: point.y,
                width: Self::key_extent(asset, key).x,
                height: Self::key_extent(asset, key).y,
            },
            Color::spec_white(),
        ).push(
            Draw::Text {
                text: key.label(),
                point: Vector2 { x: saturate(point.x + 4 * UNIT) as i64, y: point.y },
                color: Color::spec_black(),
            },
        )
    }

    /// What a binding draws at `point`: the card of its modifier, if it
    /// has one, and to the right the card of its button.
    pub open spec fn input_drawn(
        list: Seq<Sketch>,
        asset: &Asset,
        point: Vector2,
        input: Input,
    ) -> Seq<Sketch> {
        match input.modify {
            Some(modify) => Self::key_drawn(
                Self::key_drawn(list, asset, point, modify),
                asset,
                Vector2 {
                    x: saturate(point.x + Self::key_extent(asset, modify).x + 4 * UNIT) as i64,
                    y: point.y,
                },
                input.button,
            ),
            None => Self::key_drawn(list, asset, point, input.button),
        }
    }

    fn draw_key(&self, draw: &mut Canvas, asset: &Asset, point: Vector2, key: Key)
        ensures
            final(draw)@ == Self::key_drawn(old(draw)@, asset, point, key),
    {
        let measure = self.measure_key(asset, key);
        self.card_round(
            draw,
            Rectangle::new(point.x, point.y, measure.x, measure.y),
            Color::white(),
        );
        self.font(draw, key.name(), Vector2::new(plus(point.x, 4000), point.y), Color::black());
    }

    /// Draws a binding at `point`: the cards of its keys.
    pub fn draw_input(&self, draw: &mut Canvas, asset: &Asset, point: Vector2, input: &Input)
        ensures
            final(draw)@ == Self::input_drawn(old(draw)@, asset, point, *input),
    {
        if let Some(modify) = input.modify {
            let m_modify = self.measure_key(asset, modify);
            self.draw_key(draw, asset, point, modify);
            self.draw_key(
                draw,
                asset,
                Vector2::new(
                    crate::fixed::narrow(point.x as i128 + m_modify.x as i128 + 4000),
                    point.y,
                ),
                input.button,
            );
        } else {
            self.draw_key(draw, asset, point, input.button);
        }
    }

    /// How far a tip must move along one axis to stay on a screen of
    /// extent `screen`: back by what would stick out, and not at all if
    /// nothing would.
    pub open spec fn pulled(screen: i64, point: i64, extent: int) -> i64 {
        if screen - (point + extent) < 0 {
            saturate(screen - (point + extent)) as i64
        } else {
            0
        }
    }

    /// Where a tip asked for at `point` is drawn.
    pub open spec fn tip_point(
        asset: &Asset,
        screen: Vector2,
        point: Vector2,
        text: Seq<char>,
        input: Option<Input>,
    ) -> Vector2 {
        let key = match input {
            Some(input) => Self::input_extent(asset, input),
            None => Vector2 { x: 0, y: 0 },
        };
        Vector2 {
            x: saturate(
                point.x + Self::pulled(
                    screen.x,
                    point.x,
                    asset.extent(text).x + key.x + 20 * UNIT,
                ),
            ) as i64,
            y: saturate(
                point.y + Self::pulled(screen.y, point.y, asset.extent(text).y + key.y + 4 * UNIT),
            ) as i64,
        }
    }

    /// What a tip draws: a dark card with its text, and to the right
    /// the binding that it explains.
    pub open spec fn tip_drawn(
        list: Seq<Sketch>,
        asset: &Asset,
        screen: Vector2,
        point: Vector2,
        text: Seq<char>,
        input: Option<Input>,
    ) -> Seq<Sketch> {
        let at = Self::tip_point(asset, screen, point, text, input);
        let card = Self::round(
            list,
            Rectangle {
                x: at.x,
                y: at.y,
                width: saturate(asset.extent(text).x + 8 * UNIT) as i64,
                height: asset.extent(text).y,
            },
            Color::spec_black(),
        ).push(
            Draw::Text {
                text,
                point: Vector2 { x: saturate(at.x + 4 * UNIT) as i64, y: at.y },
                color: Color::spec_white(),
            },
        );
        match input {
            Some(input) => Self::input_drawn(
                card,
                asset,
                Vector2 {
                    x: saturate(at.x + saturate(asset.extent(text).x + 12 * UNIT)) as i64,
                    y: at.y,
                },
                input,
            ),
            None => card,
        }
    }

    fn pull(screen: i64, point: i64, extent: i128) -> (r: i64)
        requires
            -0x4_0000_0000_0000_0000 <= extent <= 0x4_0000_0000_0000_0000,
        ensures
            r == Self::pulled(screen, point, extent as int),
    {
        let room: i128 = screen as i128 - (point as i128 + extent);
        if room < 0 {
            crate::fixed::narrow(room)
        } else {
            0
        }
    }

    /// A tip at `point`, or as near to it as the screen allows, with
    /// the text `text` and the binding `input`.
    pub fn tool_tip(
        &self,
        draw: &mut Canvas,
        poll: &Poll,
        asset: &Asset,
        point: Vector2,
        text: &str,
        input: Option<&Input>,
    )
        ensures
            final(draw)@ == Self::tip_drawn(
                old(draw)@,
                asset,
                poll.screen,
                point,
                text@,
                match input {
                    Some(input) => Some(*input),
                    None => None,
                },
            ),
    {
        let measure = self.font_measure(asset, text);
        let measure_input = if let Some(input) = input {
            self.measure_input(asset, input)
        } else {
            Vector2::new(0, 0)
        };
        let shift = Vector2::new(
            Self::pull(
                poll.screen.x,
                point.x,
                measure.x as i128 + measure_input.x as i128 + 20000,
            ),
            Self::pull(poll.screen.y, point.y, measure.y as i128 + measure_input.y as i128 + 4000),
        );
        let point = point.plus(shift);
        self.card_round(
            draw,
            Rectangle::new(point.x, point.y, plus(measure.x, 8000), measure.y),
            Color::black(),
        );
        self.font(draw, text, Vector2::new(plus(point.x, 4000), point.y), Color::white());
        if let Some(input) = input {
            self.draw_input(
                draw,
                asset,
                point.plus(Vector2::new(plus(measure.x, 12000), 0)),
                input,
            );
        }
    }

    /// The extent of the button of a drawer at `point`.
    pub open spec fn drawer(point: Vector2) -> Rectangle {
        Rectangle { x: point.x, y: point.y, width: 24000, height: 24000 }
    }

    /// A drawer at the cursor, with the identity `text`: a button that
    /// opens and shuts it. The result says whether the drawer is open,
    /// which is when its content is to be drawn next.
    pub fn drop(&mut self, draw: &mut Canvas, poll: &Poll, text: &str) -> (open: bool)
        ensures
            (final(self)@, final(draw)@, open) == old(self)@.drop(old(draw)@, poll, text@),
    {
        let was = Data::get(self, text).active;
        let ghost first = self.store();
        proof {
            lemma_lookup_is_idempotent(old(self).store(), text@);
        }
        let icon = if was {
            Picture::DropB
        } else {
            Picture::DropA
        };
        let button = self.button_shape(
            draw,
            poll,
            text,
            Some(Vector2::new(24000, 24000)),
            Some(Art::Icon(icon)),
            true,
        );
        let ghost second = self.store();
        proof {
            lemma_lookup_after_write(first, text@, button.1);
        }
        let data = Data::get(self, text);
        if button.0.click {
            data.active = !data.active;
        }
        let open = data.active;
        proof {
            let data = old(self)@.drop(old(draw)@, poll, text@).0.store[text@];
            assert(second.insert(text@, data) =~= old(self).store().insert(text@, data));
        }
        open
    }

    /// The extent of a tool button at `point`.
    pub open spec fn tool(point: Vector2) -> Rectangle {
        Rectangle { x: point.x, y: point.y, width: 36000, height: 36000 }
    }

    /// A tool button at `point`: a button with the picture `icon` and
    /// the binding `input`. The result says whether the tool was asked
    /// for, by a click on the button or by its binding.
    pub fn widget(
        &mut self,
        draw: &mut Canvas,
        poll: &Poll,
        asset: &Asset,
        point: Vector2,
        name: &str,
        icon: Picture,
        input: &Input,
        active: bool,
    ) -> (r: bool)
        ensures
            (final(self)@, final(draw)@, r) == old(self)@.widget(
                old(draw)@,
                poll,
                asset,
                point,
                name@,
                icon,
                *input,
                active,
            ),
    {
        self.point(point);
        let text = Self::hide_text(name);
        let button = self.button_shape(
            draw,
            poll,
            text.as_str(),
            Some(Vector2::new(36000, 36000)),
            Some(Art::Icon(icon)),
            active,
        );
        if button.0.hover {
            self.tool_tip(
                draw,
                poll,
                asset,
                point.plus(Vector2::new(0, plus(36000, button.1.get_point()))),
                name,
                Some(input),
            );
        }
        button.0.click || input.get_press(poll)
    }
}

/// Holds a wide value between 0 and 1.
fn limit_unit(x: i128) -> (r: i64)
    ensures
        r == bounded(x as int, 0, UNIT as int),
{
    if x < 0 {
        0
    } else if x > UNIT as i128 {
        UNIT
    } else {
        x as i64
    }
}

} // verus!
