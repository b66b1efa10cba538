//! What the controls ask to have drawn.
//!
//! A control draws nothing itself. It appends commands to a `Canvas`,
//! and whoever owns the screen carries them out in their order.

use vstd::prelude::*;
use crate::shape::{Color, Rectangle, Vector2};

verus! {

/// A picture that ships with the editor.
#[derive(Clone, Copy, PartialEq, Eq, Structural, Debug)]
pub enum Picture {
    Logo,
    Default,
    DropA,
    DropB,
    Texture,
    Entity,
    Position,
    Rotation,
    Scale,
    Vertex,
    Edge,
    Face,
    User,
    Reload,
    Import,
    Export,
    Exit,
}

/// A picture that can be drawn: one of the editor, or a texture of the
/// game under its name.
#[derive(Clone, Debug, PartialEq, Eq)]
pub enum Art<T> {
    Icon(Picture),
    Named(T),
}

impl View for Art<String> {
    type V = Art<Seq<char>>;

    open spec fn view(&self) -> Art<Seq<char>> {
        match *self {
            Art::Icon(picture) => Art::Icon(picture),
            Art::Named(name) => Art::Named(name@),
        }
    }
}

impl<'a> View for Art<&'a str> {
    type V = Art<Seq<char>>;

    open spec fn view(&self) -> Art<Seq<char>> {
        match *self {
            Art::Icon(picture) => Art::Icon(picture),
            Art::Named(name) => Art::Named(name@),
        }
    }
}

/// A command as contracts speak of it.
pub type Sketch = Draw<Seq<char>>;

/// One thing to draw. `T` is the type of a text: `String` in a command
/// that was issued, a sequence of characters in what is said of it.
#[derive(Clone, Debug, PartialEq, Eq)]
pub enum Draw<T> {
    /// A rectangle that fades from `above` at its upper edge to `below`
    /// at its lower edge.
    FadeDown { shape: Rectangle, above: Color, below: Color },
    /// A rectangle that fades from `left` to `right`.
    FadeAcross { shape: Rectangle, left: Color, right: Color },
    /// A filled rectangle.
    Block { shape: Rectangle, color: Color },
    /// A filled rectangle with rounded corners.
    Round { shape: Rectangle, color: Color },
    /// The outline of a rectangle.
    Frame { shape: Rectangle, thick: i64, color: Color },
    /// A filled circle.
    Circle { center: Vector2, radius: i64, color: Color },
    /// A filled triangle.
    Triangle { a: Vector2, b: Vector2, c: Vector2, color: Color },
    /// A text, its upper left corner at `point`.
    Text { text: T, point: Vector2, color: Color },
    /// A number, written without decimals and centred on `point`.
    Number { value: i64, point: Vector2, color: Color },
    /// A picture, stretched over `shape`.
    Image { art: Art<T>, shape: Rectangle },
    /// A picture, laid over `shape` again and again, each time `size`
    /// wide and high.
    Tile { art: Art<T>, shape: Rectangle, size: i64 },
    /// From here on nothing is drawn outside `shape`.
    Clip { shape: Rectangle },
    /// The end of the last `Clip`.
    Unclip,
}

impl View for Draw<String> {
    type V = Draw<Seq<char>>;

    open spec fn view(&self) -> Draw<Seq<char>> {
        match *self {
            Draw::FadeDown { shape, above, below } => Draw::FadeDown { shape, above, below },
            Draw::FadeAcross { shape, left, right } => Draw::FadeAcross { shape, left, right },
            Draw::Block { shape, color } => Draw::Block { shape, color },
            Draw::Round { shape, color } => Draw::Round { shape, color },
            Draw::Frame { shape, thick, color } => Draw::Frame { shape, thick, color },
            Draw::Circle { center, radius, color } => Draw::Circle { center, radius, color },
            Draw::Triangle { a, b, c, color } => Draw::Triangle { a, b, c, color },
            Draw::Text { text, point, color } => Draw::Text { text: text@, point, color },
            Draw::Number { value, point, color } => Draw::Number { value, point, color },
            Draw::Image { art, shape } => Draw::Image { art: art@, shape },
            Draw::Tile { art, shape, size } => Draw::Tile { art: art@, shape, size },
            Draw::Clip { shape } => Draw::Clip { shape },
            Draw::Unclip => Draw::Unclip,
        }
    }
}

/// The commands of a frame, in the order in which they were issued.
#[derive(Clone, Debug, PartialEq, Eq)]
pub struct Canvas {
    pub list: Vec<Draw<String>>,
}

impl View for Canvas {
    type V = Seq<Draw<Seq<char>>>;

    open spec fn view(&self) -> Seq<Draw<Seq<char>>> {
        self.list@.map_values(|d: Draw<String>| d@)
    }
}

impl Canvas {
    /// A canvas on which nothing was drawn.
    pub fn new() -> (r: Self)
        ensures
            r@ == Seq::<Draw<Seq<char>>>::empty(),
    {
        let r = Canvas { list: Vec::new() };
        assert(r@ =~= Seq::<Draw<Seq<char>>>::empty());
        r
    }

    /// Appends a command.
    pub fn push(&mut self, item: Draw<String>)
        ensures
            final(self)@ == old(self)@.push(item@),
    {
        self.list.push(item);
        assert(self@ =~= old(self)@.push(item@));
    }

    /// Appends a picture.
    pub fn image(&mut self, art: &Art<&str>, shape: Rectangle)
        ensures
            final(self)@ == old(self)@.push(Draw::Image { art: art@, shape }),
    {
        let art = match art {
            Art::Icon(picture) => Art::Icon(*picture),
            Art::Named(name) => Art::Named((*name).to_owned()),
        };
        self.push(Draw::Image { art, shape });
    }

    /// Appends a text.
    pub fn text(&mut self, text: &str, point: Vector2, color: Color)
        ensures
            final(self)@ == old(self)@.push(Draw::Text { text: text@, point, color }),
    {
        self.push(Draw::Text { text: text.to_owned(), point, color });
    }
}

} // verus!
