//! What a view of the scene asks to have drawn.

use vstd::prelude::*;
use crate::asset::Outer;
use crate::draw::{Art, Canvas, Draw, Picture, Sketch};
use crate::editor::{Camera, CameraProjection, Editor};
use crate::fixed::{quotient, saturate, UNIT};
use crate::shape::{BoundingBox, Color, Rectangle, Vector2, Vector3};
use crate::text::same_text;
use crate::window::Asset;
use crate::world::{Brush, Entity, Face, Widget};

verus! {

/// One thing to draw in the scene. `T` is the type of a text, as in
/// `Draw`.
#[derive(Clone, Debug, PartialEq, Eq)]
pub enum Solid<T> {
    /// A textured quad: four corners, each with its place in the
    /// texture, and a tint.
    Quad {
        a: Vector3,
        b: Vector3,
        c: Vector3,
        d: Vector3,
        ua: Vector2,
        ub: Vector2,
        uc: Vector2,
        ud: Vector2,
        art: Art<T>,
        tint: Color,
    },
    /// The edges of a box.
    Bounds { shape: BoundingBox, color: Color },
    /// A filled cube.
    Cube { center: Vector3, size: i64, color: Color },
    /// A ray from `from` along `along`.
    Ray { from: Vector3, along: Vector3, color: Color },
    /// A grid of `slice` lines each way, `space` apart, turned by
    /// `angle` degrees about `axis`.
    Grid { slice: i64, space: i64, axis: Vector3, angle: i64 },
    /// The script function `name` draws the entity at place `entity` of
    /// the scene.
    Call { name: T, entity: usize },
}

impl View for Solid<String> {
    type V = Solid<Seq<char>>;

    open spec fn view(&self) -> Solid<Seq<char>> {
        match *self {
            Solid::Quad { a, b, c, d, ua, ub, uc, ud, art, tint } => Solid::Quad {
                a,
                b,
                c,
                d,
                ua,
                ub,
                uc,
                ud,
                art: art@,
                tint,
            },
            Solid::Bounds { shape, color } => Solid::Bounds { shape, color },
            Solid::Cube { center, size, color } => Solid::Cube { center, size, color },
            Solid::Ray { from, along, color } => Solid::Ray { from, along, color },
            Solid::Grid { slice, space, axis, angle } => Solid::Grid { slice, space, axis, angle },
            Solid::Call { name, entity } => Solid::Call { name: name@, entity },
        }
    }
}

/// A solid as contracts speak of it.
pub type Model = Solid<Seq<char>>;

/// The solids of a frame of one view, in the order in which they were
/// issued.
#[derive(Clone, Debug, PartialEq, Eq)]
pub struct Stage {
    pub list: Vec<Solid<String>>,
}

impl View for Stage {
    type V = Seq<Model>;

    open spec fn view(&self) -> Seq<Model> {
        self.list@.map_values(|s: Solid<String>| s@)
    }
}

impl Stage {
    /// A stage on which nothing was drawn.
    pub fn new() -> (r: Self)
        ensures
            r@ == Seq::<Model>::empty(),
    {
        let r = Stage { list: Vec::new() };
        assert(r@ =~= Seq::<Model>::empty());
        r
    }

    /// Appends a solid.
    pub fn push(&mut self, item: Solid<String>)
        ensures
            final(self)@ == old(self)@.push(item@),
    {
        self.list.push(item);
        assert(self@ =~= old(self)@.push(item@));
    }
}

impl Outer {
    /// `name` is the name of a texture that is loaded.
    pub open spec fn has(&self, name: Seq<char>) -> bool {
        self.names().contains(name)
    }

    /// Whether `name` is the name of a texture that is loaded.
    pub fn contains(&self, name: &str) -> (r: bool)
        ensures
            r == self.has(name@),
    {
        let mut i: usize = 0;
        while i < self.texture.len()
            invariant
                i <= self.texture.len(),
                forall|k: int| 0 <= k < i ==> self.names()[k] != name@,
            decreases self.texture.len() - i,
        {
            if same_text(self.texture[i].as_str(), name) {
                assert(self.names()[i as int] == name@);
                return true;
            }
            i += 1;
        }
        false
    }
}

impl Face {
    /// Where corner `k` of the side lies in its texture: the corners
    /// go round the texture from its lower left, and the texture is
    /// shifted, then scaled.
    pub open spec fn uv(self, k: int) -> Vector2 {
        Vector2 {
            x: saturate(
                quotient(
                    self.scale.x * saturate(
                        self.shift.x + if k == 1 || k == 2 {
                            UNIT as int
                        } else {
                            0
                        },
                    ),
                    UNIT as int,
                ),
            ) as i64,
            y: saturate(
                quotient(
                    self.scale.y * saturate(
                        self.shift.y + if k == 0 || k == 1 {
                            UNIT as int
                        } else {
                            0
                        },
                    ),
                    UNIT as int,
                ),
            ) as i64,
        }
    }

    /// The picture that the side shows: its texture if that is loaded,
    /// and the plain picture otherwise.
    pub open spec fn art(self, outer: &Outer) -> Art<Seq<char>> {
        match self.texture {
            Some(name) => if outer.has(name@) {
                Art::Named(name@)
            } else {
                Art::Icon(Picture::Default)
            },
            None => Art::Icon(Picture::Default),
        }
    }

    fn corner_uv(&self, k: usize) -> (r: Vector2)
        requires
            k < 4,
        ensures
            r == self.uv(k as int),
    {
        let x = if k == 1 || k == 2 {
            UNIT
        } else {
            0
        };
        let y = if k == 0 || k == 1 {
            UNIT
        } else {
            0
        };
        Vector2::new(
            crate::fixed::times(self.scale.x, crate::fixed::plus(self.shift.x, x)),
            crate::fixed::times(self.scale.y, crate::fixed::plus(self.shift.y, y)),
        )
    }
}

impl Brush {
    /// The tint of a brush: reddish while it is in focus.
    pub open spec fn tint(self) -> Color {
        if self.focus {
            Color { r: 255, g: 191, b: 191, a: 255 }
        } else {
            Color { r: 255, g: 255, b: 255, a: 255 }
        }
    }

    /// Side `k` of the brush as it is drawn.
    pub open spec fn quad(self, outer: &Outer, k: int) -> Model {
        let face = self.face[k];
        Solid::Quad {
            a: self.vertex[face.index[0] as int].point,
            b: self.vertex[face.index[1] as int].point,
            c: self.vertex[face.index[2] as int].point,
            d: self.vertex[face.index[3] as int].point,
            ua: face.uv(0),
            ub: face.uv(1),
            uc: face.uv(2),
            ud: face.uv(3),
            art: face.art(outer),
            tint: self.tint(),
        }
    }

    /// What the brush draws: its six sides.
    pub open spec fn drawn(self, list: Seq<Model>, outer: &Outer) -> Seq<Model> {
        list + Seq::new(6, |k: int| self.quad(outer, k))
    }

    /// Draws the brush: each side with its texture, or with the plain
    /// picture where its texture is not loaded.
    pub fn draw(&self, stage: &mut Stage, outer: &Outer)
        requires
            self.wf(),
        ensures
            final(stage)@ == self.drawn(old(stage)@, outer),
    {
        let tint = if self.focus {
            Color::new(255, 191, 191, 255)
        } else {
            Color::new(255, 255, 255, 255)
        };
        let mut k: usize = 0;
        proof {
            assert(stage@ =~= old(stage)@ + Seq::new(0, |k: int| self.quad(outer, k)));
        }
        while k < 6
            invariant
                self.wf(),
                k <= 6,
                tint == self.tint(),
                stage@ == old(stage)@ + Seq::new(k as nat, |i: int| self.quad(outer, i)),
            decreases 6 - k,
        {
            let face = &self.face[k];
            assert(self.face[k as int].index[0] < 8);
            assert(self.face[k as int].index[1] < 8);
            assert(self.face[k as int].index[2] < 8);
            assert(self.face[k as int].index[3] < 8);
            let art = match &face.texture {
                Some(name) => if outer.contains(name.as_str()) {
                    Art::Named(name.clone())
                } else {
                    Art::Icon(Picture::Default)
                },
                None => Art::Icon(Picture::Default),
            };
            stage.push(
                Solid::Quad {
                    a: self.vertex[face.index[0]].point,
                    b: self.vertex[face.index[1]].point,
                    c: self.vertex[face.index[2]].point,
                    d: self.vertex[face.index[3]].point,
                    ua: face.corner_uv(0),
                    ub: face.corner_uv(1),
                    uc: face.corner_uv(2),
                    ud: face.corner_uv(3),
                    art,
                    tint,
                },
            );
            k += 1;
            assert(stage@ =~= old(stage)@ + Seq::new(k as nat, |i: int| self.quad(outer, i)));
        }
    }

    /// The handles of the corners of a brush: a cube about each, green
    /// for a corner in focus and red for one that is not.
    pub open spec fn handles(self, list: Seq<Model>) -> Seq<Model> {
        list + Seq::new(
            8,
            |j: int|
                Solid::Cube {
                    center: self.vertex[j].point,
                    size: 500,
                    color: if self.vertex[j].focus {
                        Color::spec_green()
                    } else {
                        Color::spec_red()
                    },
                },
        )
    }

    /// Draws the handles of the corners.
    pub fn draw_handles(&self, stage: &mut Stage)
        ensures
            final(stage)@ == self.handles(old(stage)@),
    {
        let mut j: usize = 0;
        while j < 8
            invariant
                j <= 8,
                stage@ =~= old(stage)@ + Seq::new(
                    j as nat,
                    |j: int|
                        Solid::Cube {
                            center: self.vertex[j].point,
                            size: 500,
                            color: if self.vertex[j].focus {
                                Color::spec_green()
                            } else {
                                Color::spec_red()
                            },
                        },
                ),
            decreases 8 - j,
        {
            stage.push(
                Solid::Cube {
                    center: self.vertex[j].point,
                    size: 500,
                    color: if self.vertex[j].focus {
                        Color::green()
                    } else {
                        Color::red()
                    },
                },
            );
            j += 1;
        }
    }
}

impl Entity {
    /// What the entity at place `index` of the scene draws: its box,
    /// green while it is in focus and red while it is not, and what its
    /// script draws, if it has one.
    pub open spec fn drawn(self, list: Seq<Model>, index: usize) -> Seq<Model> {
        let boxed = list.push(
            Solid::Bounds {
                shape: self.bounds(),
                color: if self.focus {
                    Color::spec_green()
                } else {
                    Color::spec_red()
                },
            },
        );
        match self.meta.call {
            Some(call) => boxed.push(Solid::Call { name: call@, entity: index }),
            None => boxed,
        }
    }

    /// Draws the entity at place `index` of the scene.
    pub fn draw_3d(&self, stage: &mut Stage, index: usize)
        ensures
            final(stage)@ == self.drawn(old(stage)@, index),
    {
        stage.push(
            Solid::Bounds {
                shape: self.bound_box(),
                color: if self.focus {
                    Color::green()
                } else {
                    Color::red()
                },
            },
        );
        if let Some(call) = &self.meta.call {
            stage.push(Solid::Call { name: call.clone(), entity: index });
        }
    }

    /// The label of the entity over a view: a dark card, darker while
    /// the entity is in focus, with the name of the entity on it. The
    /// card is centred on `text`, the point of the screen over which the
    /// label is to stand.
    pub open spec fn label(self, list: Seq<Sketch>, asset: &Asset, text: Vector2) -> Seq<Sketch> {
        let font = asset.extent(self.meta.name@);
        let left = saturate(text.x - quotient(font.x as int, 2)) as i64;
        let top = saturate(text.y - quotient(font.y as int, 2)) as i64;
        list.push(
            Draw::Round {
                shape: Rectangle {
                    x: left,
                    y: top,
                    width: saturate(font.x + 8 * UNIT) as i64,
                    height: font.y,
                },
                color: Color {
                    r: 0,
                    g: 0,
                    b: 0,
                    a: if self.focus {
                        255u8
                    } else {
                        127u8
                    },
                },
            },
        ).push(
            Draw::Text {
                text: self.meta.name@,
                point: Vector2 { x: saturate(left + 4 * UNIT) as i64, y: top },
                color: Color::spec_white(),
            },
        )
    }

    /// Draws the label of the entity over a view, at `text`.
    pub fn draw_2d(&self, draw: &mut Canvas, asset: &Asset, text: Vector2)
        ensures
            final(draw)@ == self.label(old(draw)@, asset, text),
    {
        let font = asset.font_measure(self.meta.name.as_str());
        let left = crate::fixed::narrow(
            text.x as i128 - crate::fixed::divide(font.x as i128, 2),
        );
        let top = crate::fixed::narrow(text.y as i128 - crate::fixed::divide(font.y as i128, 2));
        draw.push(
            Draw::Round {
                shape: Rectangle::new(left, top, crate::fixed::plus(font.x, 8000), font.y),
                color: Color::new(
                    0,
                    0,
                    0,
                    if self.focus {
                        255
                    } else {
                        127
                    },
                ),
            },
        );
        draw.text(
            self.meta.name.as_str(),
            Vector2::new(crate::fixed::plus(left, 4000), top),
            Color::white(),
        );
    }
}

impl Camera {
    /// How the grid lies in the view of this camera: flat for a
    /// perspective camera; for an orthographic one turned to face it,
    /// about the axis across its up vector and its line of sight.
    pub open spec fn grid(self) -> Model {
        match self.projection {
            CameraProjection::Perspective => Solid::Grid {
                slice: 1000,
                space: UNIT,
                axis: Vector3 { x: 0, y: 0, z: 0 },
                angle: 0,
            },
            CameraProjection::Orthographic => Solid::Grid {
                slice: 1000,
                space: UNIT,
                axis: self.up.crossed(self.position.difference(self.target)),
                angle: if self.up == (Vector3 { x: 0, y: UNIT, z: 0 }) {
                    90i64
                } else {
                    180i64
                },
            },
        }
    }
}

impl Editor {
    /// The axes of the scene: a red, a green and a blue ray from the
    /// origin.
    pub open spec fn axes(list: Seq<Model>) -> Seq<Model> {
        list.push(
            Solid::Ray {
                from: Vector3 { x: 0, y: 0, z: 0 },
                along: Vector3 { x: UNIT, y: 0, z: 0 },
                color: Color::spec_red(),
            },
        ).push(
            Solid::Ray {
                from: Vector3 { x: 0, y: 0, z: 0 },
                along: Vector3 { x: 0, y: UNIT, z: 0 },
                color: Color::spec_green(),
            },
        ).push(
            Solid::Ray {
                from: Vector3 { x: 0, y: 0, z: 0 },
                along: Vector3 { x: 0, y: 0, z: UNIT },
                color: Color { r: 0, g: 0, b: 255, a: 255 },
            },
        )
    }

    /// What the first `n` brushes draw: each its sides, and in the
    /// vertex mode a brush in focus the handles of its corners too.
    pub open spec fn brushes(self, list: Seq<Model>, n: int) -> Seq<Model>
        decreases n,
    {
        if n <= 0 {
            list
        } else {
            let sides = self.world.brush[n - 1].drawn(self.brushes(list, n - 1), &self.asset);
            if self.world.brush[n - 1].focus && self.widget == Widget::Vertex {
                self.world.brush[n - 1].handles(sides)
            } else {
                sides
            }
        }
    }

    /// What the first `n` entities draw.
    pub open spec fn entities(self, list: Seq<Model>, n: int) -> Seq<Model>
        decreases n,
    {
        if n <= 0 {
            list
        } else {
            self.world.entity[n - 1].drawn(self.entities(list, n - 1), (n - 1) as usize)
        }
    }

    /// What view number `index` shows of the scene: the grid, the axes,
    /// the brushes and the entities.
    pub open spec fn scene(self, index: int) -> Seq<Model> {
        self.entities(
            self.brushes(
                Self::axes(seq![self.view[index].camera.grid()]),
                self.world.brush.len() as int,
            ),
            self.world.entity.len() as int,
        )
    }

    /// Lists what view number `index` shows of the scene.
    pub fn draw(&self, index: usize) -> (stage: Stage)
        requires
            index < 4,
            self.world.wf(),
        ensures
            stage@ == self.scene(index as int),
    {
        let mut stage = Stage::new();
        let camera = self.view[index].camera;
        match camera.projection {
            CameraProjection::Perspective => {
                stage.push(
                    Solid::Grid { slice: 1000, space: UNIT, axis: Vector3::zero(), angle: 0 },
                );
            },
            CameraProjection::Orthographic => {
                let up = camera.up;
                stage.push(
                    Solid::Grid {
                        slice: 1000,
                        space: UNIT,
                        axis: camera.up.cross(camera.position.minus(camera.target)),
                        angle: if up.x == 0 && up.y == UNIT && up.z == 0 {
                            90
                        } else {
                            180
                        },
                    },
                );
            },
        }
        assert(stage@ =~= seq![camera.grid()]);
        stage.push(
            Solid::Ray { from: Vector3::zero(), along: Vector3::new(UNIT, 0, 0), color: Color::red() },
        );
        stage.push(
            Solid::Ray {
                from: Vector3::zero(),
                along: Vector3::new(0, UNIT, 0),
                color: Color::green(),
            },
        );
        stage.push(
            Solid::Ray {
                from: Vector3::zero(),
                along: Vector3::new(0, 0, UNIT),
                color: Color::new(0, 0, 255, 255),
            },
        );
        let ghost base = stage@;
        let mut b: usize = 0;
        while b < self.world.brush.len()
            invariant
                self.world.wf(),
                b <= self.world.brush.len(),
                stage@ == self.brushes(base, b as int),
            decreases self.world.brush.len() - b,
        {
            self.world.brush[b].draw(&mut stage, &self.asset);
            if self.world.brush[b].focus {
                match self.widget {
                    Widget::Vertex => {
                        self.world.brush[b].draw_handles(&mut stage);
                    },
                    _ => {},
                }
            }
            b += 1;
        }
        let ghost solid = stage@;
        let mut e: usize = 0;
        while e < self.world.entity.len()
            invariant
                e <= self.world.entity.len(),
                stage@ == self.entities(solid, e as int),
            decreases self.world.entity.len() - e,
        {
            self.world.entity[e].draw_3d(&mut stage, e);
            e += 1;
        }
        stage
    }
}

} // verus!
