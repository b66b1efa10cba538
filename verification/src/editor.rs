//! The editor: its views of the scene, and what a frame of input does
//! to the selection and to what is selected.

use vstd::prelude::*;
use crate::fixed::{minus, plus, times, UNIT, bounded, quotient, saturate};
use crate::helper::{snap, snapped};
use crate::input::{Poll, User};
use crate::key::{Key, KeyboardKey};
use crate::pick::{pick, wins, reading, Miss};
use crate::shape::{Matrix, Rectangle, Vector2, Vector3};
use crate::asset::Outer;
use crate::game::Game;
use crate::pick::nearest;
use crate::window::{EDIT_SHAPE, TOOL_SHAPE};
use crate::world::{Entity, EntityMeta, Vertex, Widget, World};

verus! {

/// How a camera projects the scene.
#[derive(Clone, Copy, PartialEq, Eq, Structural, Debug)]
pub enum CameraProjection {
    Perspective,
    Orthographic,
}

/// A camera, as far as the editor reads it.
#[derive(Clone, Copy, PartialEq, Eq, Structural, Debug)]
pub struct Camera {
    pub position: Vector3,
    pub target: Vector3,
    pub up: Vector3,
    /// The vector of length one that points from the target to the
    /// position. Whoever moves the camera keeps it in step.
    pub facing: Vector3,
    /// The opening of the view: an angle in degrees for a perspective
    /// camera, the height of the view for an orthographic one.
    pub fovy: i64,
    pub projection: CameraProjection,
}

/// The part of the pointer's travel that a dragged view follows.
pub const PAN: i64 = 50;

/// One step along an axis: `-1` while the first key is pressed, `1`
/// while only the second is, `0` while neither is.
pub open spec fn axis(first: bool, second: bool) -> int {
    if first {
        -1
    } else if second {
        1
    } else {
        0
    }
}

/// `value` for a step forward, its opposite for a step back, zero for
/// no step.
pub open spec fn along(value: int, step: int) -> int {
    if step > 0 {
        value
    } else if step < 0 {
        -value
    } else {
        0
    }
}

impl Camera {
    /// The vector to the right of the view: up across facing.
    pub open spec fn side(self) -> Vector3 {
        self.up.crossed(self.facing)
    }

    /// The step that the direction keys ask for, seen through this
    /// camera: `x` steps sideways and `y` steps on. No step is taken
    /// while the view is being looked around with.
    ///
    /// A perspective camera steps one unit along the first and the
    /// third axis of the scene, toward the side that the camera is on.
    /// An orthographic camera steps in its own plane: sideways and up.
    pub open spec fn step(self, x: int, y: int, look: bool) -> Vector3 {
        if look {
            Vector3 { x: 0, y: 0, z: 0 }
        } else {
            match self.projection {
                CameraProjection::Perspective => Vector3 {
                    x: along(
                        if self.facing.x >= 0 {
                            UNIT as int
                        } else {
                            -UNIT
                        },
                        x,
                    ) as i64,
                    y: 0,
                    z: along(
                        if self.up.x * self.facing.y >= self.up.y * self.facing.x {
                            UNIT as int
                        } else {
                            -UNIT
                        },
                        y,
                    ) as i64,
                },
                CameraProjection::Orthographic => Vector3 {
                    x: saturate(along(self.side().x as int, x) + along(self.up.x as int, y)) as i64,
                    y: saturate(along(self.side().y as int, x) + along(self.up.y as int, y)) as i64,
                    z: saturate(along(self.side().z as int, x) + along(self.up.z as int, y)) as i64,
                },
            }
        }
    }

    fn taken(value: i64, step: i64) -> (r: i128)
        ensures
            r == along(value as int, step as int),
    {
        if step > 0 {
            value as i128
        } else if step < 0 {
            -(value as i128)
        } else {
            0
        }
    }

    fn blend(side: i64, up: i64, x: i64, y: i64) -> (r: i64)
        ensures
            r == saturate(along(side as int, x as int) + along(up as int, y as int)),
    {
        crate::fixed::narrow(Self::taken(side, x) + Self::taken(up, y))
    }

    /// The step that the direction keys ask for: `left` and `right`
    /// along the first axis, `back` and `forth` along the second.
    pub fn movement(&self, left: bool, right: bool, forth: bool, back: bool, look: bool) -> (r:
        Vector3)
        ensures
            r == self.step(axis(left, right), -axis(forth, back), look),
    {
        let x: i64 = if left {
            -1
        } else if right {
            1
        } else {
            0
        };
        let y: i64 = if forth {
            1
        } else if back {
            -1
        } else {
            0
        };
        if look {
            return Vector3::zero();
        }
        match self.projection {
            CameraProjection::Perspective => {
                let v_x: i64 = if self.facing.x >= 0 {
                    UNIT
                } else {
                    -UNIT
                };
                proof {
                    crate::fixed::lemma_product_fits(self.up.x as int, self.facing.y as int);
                    crate::fixed::lemma_product_fits(self.up.y as int, self.facing.x as int);
                }
                let v_y: i64 = if self.up.x as i128 * self.facing.y as i128 >= self.up.y as i128
                    * self.facing.x as i128 {
                    UNIT
                } else {
                    -UNIT
                };
                Vector3::new(Self::taken(v_x, x) as i64, 0, Self::taken(v_y, y) as i64)
            },
            CameraProjection::Orthographic => {
                let side = self.up.cross(self.facing);
                Vector3::new(
                    Self::blend(side.x, self.up.x, x, y),
                    Self::blend(side.y, self.up.y, x, y),
                    Self::blend(side.z, self.up.z, x, y),
                )
            },
        }
    }

    /// How far a drag of the pointer by `delta` carries the camera:
    /// sideways with the pointer, and up as the pointer goes down.
    pub open spec fn carry(self, delta: Vector2) -> Vector3 {
        let x = saturate(quotient(delta.x * PAN, UNIT as int)) as i64;
        let y = saturate(quotient(delta.y * PAN, UNIT as int)) as i64;
        self.side().scaled(x).sum(self.up.scaled(saturate(-y) as i64))
    }

    /// Carries the camera along with a drag of the pointer: position
    /// and target move together, so the view keeps its direction.
    pub fn pan(&mut self, delta: Vector2)
        ensures
            *final(self) == (Camera {
                position: old(self).position.sum(old(self).carry(delta)),
                target: old(self).target.sum(old(self).carry(delta)),
                ..*old(self)
            }),
    {
        let side = self.up.cross(self.facing);
        let x = times(delta.x, PAN);
        let y = times(delta.y, PAN);
        let shift = side.scale(x).plus(self.up.scale(minus(0, y)));
        self.position = self.position.plus(shift);
        self.target = self.target.plus(shift);
    }
}

impl World {
    /// Where a step sends a corner of a brush in focus.
    pub open spec fn sent(widget: Widget, vector: Vector3, turn: Matrix, point: Vector3) -> Vector3 {
        match widget {
            Widget::Position => point.sum(vector),
            Widget::Rotation => turn.image(point),
            Widget::Scale => point.product(vector),
            _ => point,
        }
    }

    /// What a step makes of an entity in focus: it adds to the field
    /// that the mode names.
    pub open spec fn stepped(widget: Widget, vector: Vector3, entity: Entity) -> Entity {
        match widget {
            Widget::Position => Entity { position: entity.position.sum(vector), ..entity },
            Widget::Rotation => Entity { rotation: entity.rotation.sum(vector), ..entity },
            Widget::Scale => Entity { scale: entity.scale.sum(vector), ..entity },
            _ => entity,
        }
    }

    /// This scene is `before` after a step of `vector` in mode `widget`.
    /// What is out of focus stays; so does everything when the step is
    /// zero. `turn` is the rotation that the step stands for.
    pub open spec fn transformed(
        self,
        before: World,
        widget: Widget,
        vector: Vector3,
        turn: Matrix,
    ) -> bool {
        if vector == (Vector3 { x: 0, y: 0, z: 0 }) {
            self == before
        } else {
            &&& self.brush.len() == before.brush.len()
            &&& self.entity.len() == before.entity.len()
            &&& forall|b: int|
                0 <= b < self.brush.len() ==> if before.brush[b].focus {
                    (#[trigger] self.brush[b]).moved(
                        before.brush[b],
                        |p: Vector3| Self::sent(widget, vector, turn, p),
                    )
                } else {
                    self.brush[b] == before.brush[b]
                }
            &&& forall|e: int|
                0 <= e < self.entity.len() ==> #[trigger] self.entity[e] == if before.entity[e].focus {
                    Self::stepped(widget, vector, before.entity[e])
                } else {
                    before.entity[e]
                }
        }
    }

    /// Applies a step to everything in focus. In the position, rotation
    /// and scale modes an entity adds the step to its own field of that
    /// name, and every corner of a brush is moved by it, turned by
    /// `turn`, or multiplied by it. The other modes move nothing.
    pub fn transform(&mut self, widget: &Widget, vector: Vector3, turn: &Matrix)
        ensures
            final(self).transformed(*old(self), *widget, vector, *turn),
            old(self).wf() ==> final(self).wf(),
    {
        if vector.is_zero() {
            return ;
        }
        let mut e: usize = 0;
        while e < self.entity.len()
            invariant
                e <= self.entity.len(),
                self.brush == old(self).brush,
                self.entity.len() == old(self).entity.len(),
                forall|i: int|
                    0 <= i < e ==> #[trigger] self.entity[i] == if old(self).entity[i].focus {
                        Self::stepped(*widget, vector, old(self).entity[i])
                    } else {
                        old(self).entity[i]
                    },
                forall|i: int| e <= i < self.entity.len() ==> #[trigger] self.entity[i] == old(
                    self,
                ).entity[i],
            decreases self.entity.len() - e,
        {
            if self.entity[e].focus {
                match widget {
                    Widget::Position => self.entity[e].position(vector),
                    Widget::Rotation => self.entity[e].rotation(vector),
                    Widget::Scale => self.entity[e].scale(vector),
                    _ => {},
                }
            }
            e += 1;
        }
        let mut b: usize = 0;
        while b < self.brush.len()
            invariant
                b <= self.brush.len(),
                self.brush.len() == old(self).brush.len(),
                self.entity.len() == old(self).entity.len(),
                forall|i: int|
                    0 <= i < self.entity.len() ==> #[trigger] self.entity[i] == if old(
                        self,
                    ).entity[i].focus {
                        Self::stepped(*widget, vector, old(self).entity[i])
                    } else {
                        old(self).entity[i]
                    },
                forall|i: int|
                    0 <= i < b ==> if old(self).brush[i].focus {
                        (#[trigger] self.brush[i]).moved(
                            old(self).brush[i],
                            |p: Vector3| Self::sent(*widget, vector, *turn, p),
                        )
                    } else {
                        self.brush[i] == old(self).brush[i]
                    },
                forall|i: int| b <= i < self.brush.len() ==> #[trigger] self.brush[i] == old(
                    self,
                ).brush[i],
            decreases self.brush.len() - b,
        {
            if self.brush[b].focus {
                match widget {
                    Widget::Position => self.brush[b].position(vector),
                    Widget::Rotation => self.brush[b].rotation(turn),
                    Widget::Scale => self.brush[b].scale(vector),
                    _ => {},
                }
            }
            b += 1;
        }
    }

    /// This scene is `before` after the corners in focus were dragged
    /// from `from` to `to` and let go on the grid.
    pub open spec fn dragged(self, before: World, from: Vector3, to: Vector3, grid: int) -> bool {
        &&& self.entity == before.entity
        &&& self.brush.len() == before.brush.len()
        &&& forall|b: int|
            0 <= b < self.brush.len() ==> {
                &&& (#[trigger] self.brush[b]).focus == before.brush[b].focus
                &&& self.brush[b].face == before.brush[b].face
            }
        &&& forall|b: int, j: int|
            0 <= b < self.brush.len() && 0 <= j < 8 ==> #[trigger] self.brush[b].vertex[j] == (
            if before.brush[b].focus && before.brush[b].vertex[j].focus {
                Vertex {
                    focus: true,
                    point: snapped(before.brush[b].vertex[j].point.sum(to.difference(from)), grid),
                }
            } else {
                before.brush[b].vertex[j]
            })
    }

    /// Ends a drag: every corner in focus, of every brush in focus, goes
    /// where the drag takes it, and from there to the nearest point of
    /// the grid.
    pub fn drag(&mut self, from: Vector3, to: Vector3, grid: i64)
        requires
            grid > 0,
        ensures
            final(self).dragged(*old(self), from, to, grid as int),
            old(self).wf() ==> final(self).wf(),
    {
        let shift = to.minus(from);
        let mut b: usize = 0;
        while b < self.brush.len()
            invariant
                grid > 0,
                shift == to.difference(from),
                b <= self.brush.len(),
                self.entity == old(self).entity,
                self.brush.len() == old(self).brush.len(),
                forall|i: int|
                    0 <= i < b ==> {
                        &&& (#[trigger] self.brush[i]).focus == old(self).brush[i].focus
                        &&& self.brush[i].face == old(self).brush[i].face
                    },
                forall|i: int, j: int|
                    0 <= i < b && 0 <= j < 8 ==> #[trigger] self.brush[i].vertex[j] == (if old(
                        self,
                    ).brush[i].focus && old(self).brush[i].vertex[j].focus {
                        Vertex {
                            focus: true,
                            point: snapped(
                                old(self).brush[i].vertex[j].point.sum(to.difference(from)),
                                grid as int,
                            ),
                        }
                    } else {
                        old(self).brush[i].vertex[j]
                    }),
                forall|i: int| b <= i < self.brush.len() ==> #[trigger] self.brush[i] == old(
                    self,
                ).brush[i],
            decreases self.brush.len() - b,
        {
            if self.brush[b].focus {
                let mut j: usize = 0;
                while j < 8
                    invariant
                        grid > 0,
                        shift == to.difference(from),
                        j <= 8,
                        b < self.brush.len(),
                        self.entity == old(self).entity,
                        self.brush.len() == old(self).brush.len(),
                        old(self).brush[b as int].focus,
                        self.brush[b as int].focus == old(self).brush[b as int].focus,
                        self.brush[b as int].face == old(self).brush[b as int].face,
                        forall|i: int|
                            0 <= i < self.brush.len() && i != b ==> #[trigger] self.brush[i] == old(
                                self,
                            ).brush[i] || i < b,
                        forall|i: int|
                            0 <= i < b ==> {
                                &&& (#[trigger] self.brush[i]).focus == old(self).brush[i].focus
                                &&& self.brush[i].face == old(self).brush[i].face
                            },
                        forall|i: int, k: int|
                            0 <= i < b && 0 <= k < 8 ==> #[trigger] self.brush[i].vertex[k] == (
                            if old(self).brush[i].focus && old(self).brush[i].vertex[k].focus {
                                Vertex {
                                    focus: true,
                                    point: snapped(
                                        old(self).brush[i].vertex[k].point.sum(
                                            to.difference(from),
                                        ),
                                        grid as int,
                                    ),
                                }
                            } else {
                                old(self).brush[i].vertex[k]
                            }),
                        forall|k: int|
                            0 <= k < j ==> #[trigger] self.brush[b as int].vertex[k] == (if old(
                                self,
                            ).brush[b as int].vertex[k].focus {
                                Vertex {
                                    focus: true,
                                    point: snapped(
                                        old(self).brush[b as int].vertex[k].point.sum(
                                            to.difference(from),
                                        ),
                                        grid as int,
                                    ),
                                }
                            } else {
                                old(self).brush[b as int].vertex[k]
                            }),
                        forall|k: int|
                            j <= k < 8 ==> #[trigger] self.brush[b as int].vertex[k] == old(
                                self,
                            ).brush[b as int].vertex[k],
                        forall|i: int|
                            b < i < self.brush.len() ==> #[trigger] self.brush[i] == old(
                                self,
                            ).brush[i],
                    decreases 8 - j,
                {
                    if self.brush[b].vertex[j].focus {
                        let moved = self.brush[b].vertex[j].point.plus(shift);
                        let point = snap(&moved, grid);
                        self.brush[b].vertex[j].point = point;
                    }
                    j += 1;
                }
            }
            b += 1;
        }
    }

    /// Takes every entity in focus out of the scene. The others keep
    /// their order.
    pub fn remove(&mut self)
        ensures
            final(self).brush == old(self).brush,
            final(self).entity@ == old(self).entity@.filter(|e: Entity| !e.focus),
            old(self).wf() ==> final(self).wf(),
    {
        let ghost before = self.entity@;
        let ghost keep = |e: Entity| !e.focus;
        let mut i: usize = 0;
        let mut k: Ghost<int> = Ghost(0);
        proof {
            reveal_with_fuel(Seq::filter, 1);
            assert(before.take(0).filter(keep) =~= Seq::<Entity>::empty());
            assert(self.entity@ =~= before.take(0).filter(keep) + before.skip(0));
        }
        while i < self.entity.len()
            invariant
                self.brush == old(self).brush,
                before == old(self).entity@,
                keep == |e: Entity| !e.focus,
                0 <= k@ <= before.len(),
                i == before.take(k@).filter(keep).len(),
                self.entity@ == before.take(k@).filter(keep) + before.skip(k@),
            decreases before.len() - k@,
        {
            proof {
                reveal_with_fuel(Seq::filter, 2);
                assert(k@ < before.len());
                assert(self.entity@[i as int] == before.skip(k@)[0]);
                assert(before.take(k@ + 1).drop_last() =~= before.take(k@));
                assert(before.take(k@ + 1).last() == before[k@]);
            }
            if self.entity[i].focus {
                self.entity.remove(i);
                proof {
                    assert(self.entity@ =~= before.take(k@ + 1).filter(keep) + before.skip(k@ + 1));
                    k@ = k@ + 1;
                }
            } else {
                proof {
                    assert(self.entity@ =~= before.take(k@ + 1).filter(keep) + before.skip(k@ + 1));
                    k@ = k@ + 1;
                }
                i += 1;
            }
        }
        proof {
            assert(before.skip(k@).len() == 0);
            assert(k@ == before.len());
            assert(before.take(k@) =~= before);
            assert(self.entity@ =~= before.filter(keep));
        }
    }
}

/// One of the views of the scene.
#[derive(Clone, Copy, PartialEq, Eq, Structural, Debug)]
pub struct Viewport {
    /// The extent of the picture of the view, in whole pixels.
    pub shape: Vector2,
    pub camera: Camera,
    /// The view is being looked around with.
    pub mouse: bool,
}

impl Viewport {
    /// A length in whole pixels: what is past the point is dropped, and
    /// a length below zero is zero.
    pub open spec fn whole(length: int) -> int {
        bounded(quotient(length, UNIT as int), 0, u32::MAX as int) * UNIT
    }

    /// The extent of one view on a screen of extent `screen`: a quarter
    /// of what the tool bar and the panel leave.
    pub open spec fn extent(screen: Vector2) -> Vector2 {
        Vector2 {
            x: Self::whole(quotient(screen.x as int, 2) - quotient(EDIT_SHAPE as int, 2)) as i64,
            y: Self::whole(quotient(screen.y as int, 2) - quotient(TOOL_SHAPE as int, 2)) as i64,
        }
    }

    fn measure(screen: i64, taken: i64) -> (r: i64)
        requires
            0 <= taken <= 1000000,
        ensures
            r == Self::whole(quotient(screen as int, 2) - quotient(taken as int, 2)),
    {
        let half: i128 = crate::fixed::divide(screen as i128, 2) - crate::fixed::divide(
            taken as i128,
            2,
        );
        let pixel: i128 = crate::fixed::divide(half, UNIT as i128);
        let pixel: i128 = if pixel < 0 {
            0
        } else if pixel > u32::MAX as i128 {
            u32::MAX as i128
        } else {
            pixel
        };
        (pixel * UNIT as i128) as i64
    }

    /// A view of a screen of extent `screen` through `camera`.
    pub fn new(screen: Vector2, camera: Camera) -> (r: Self)
        ensures
            r == (Viewport { shape: Self::extent(screen), camera, mouse: false }),
    {
        Viewport {
            shape: Vector2::new(
                Self::measure(screen.x, EDIT_SHAPE),
                Self::measure(screen.y, TOOL_SHAPE),
            ),
            camera,
            mouse: false,
        }
    }

    /// Where view number `index` stands on the screen: the views fill
    /// rows of two below the tool bar.
    pub open spec fn place(self, index: int) -> Rectangle {
        Rectangle {
            x: if index % 2 == 1 {
                self.shape.x
            } else {
                0
            },
            y: saturate((index / 2) * self.shape.y + TOOL_SHAPE) as i64,
            width: self.shape.x,
            height: self.shape.y,
        }
    }

    /// The place of view number `index` on the screen.
    pub fn port(&self, index: usize) -> (r: Rectangle)
        ensures
            r == self.place(index as int),
    {
        let row = index / 2;
        proof {
            crate::fixed::lemma_product_fits(row as int, self.shape.y as int);
        }
        Rectangle::new(
            if index % 2 == 1 {
                self.shape.x
            } else {
                0
            },
            crate::fixed::narrow(row as i128 * self.shape.y as i128 + TOOL_SHAPE as i128),
            self.shape.x,
            self.shape.y,
        )
    }

    /// Ends looking around once the look binding is let go.
    pub fn release(&mut self, user: &User, poll: &Poll)
        ensures
            *final(self) == (Viewport {
                mouse: old(self).mouse && !user.look.spec_release(*poll),
                ..*old(self)
            }),
    {
        if user.look.get_release(poll) && self.mouse {
            self.mouse = false;
        }
    }
}

/// What the script host listed when it was last loaded.
#[derive(Clone, Debug, PartialEq, Eq)]
pub struct Meta {
    pub entity: Vec<EntityMeta>,
    pub texture: Vec<String>,
}

/// The editor.
#[derive(Clone, Debug)]
pub struct Editor {
    pub world: World,
    pub widget: Widget,
    pub view: [Viewport; 4],
    pub game: Game,
    pub user: User,
    /// The textures that are loaded.
    pub asset: Outer,
    pub meta: Meta,
    pub search_ent: String,
    pub search_tex: String,
    /// The panel shows the textures; it shows the entities otherwise.
    pub menu: bool,
}

impl Editor {
    /// The camera of view number `index` as the editor starts: a
    /// perspective camera, then one orthographic camera along each axis.
    pub open spec fn camera(index: int) -> Camera {
        if index == 0 {
            Camera {
                position: Vector3 { x: 4000, y: 4000, z: 4000 },
                target: Vector3 { x: 0, y: 0, z: 0 },
                up: Vector3 { x: 0, y: 1000, z: 0 },
                facing: Vector3 { x: 577, y: 577, z: 577 },
                fovy: 90000,
                projection: CameraProjection::Perspective,
            }
        } else if index == 1 {
            Camera {
                position: Vector3 { x: 512000, y: 0, z: 0 },
                target: Vector3 { x: 0, y: 0, z: 0 },
                up: Vector3 { x: 0, y: 1000, z: 0 },
                facing: Vector3 { x: 1000, y: 0, z: 0 },
                fovy: 15000,
                projection: CameraProjection::Orthographic,
            }
        } else if index == 2 {
            Camera {
                position: Vector3 { x: 0, y: 512000, z: 0 },
                target: Vector3 { x: 0, y: 0, z: 0 },
                up: Vector3 { x: 1000, y: 0, z: 0 },
                facing: Vector3 { x: 0, y: 1000, z: 0 },
                fovy: 15000,
                projection: CameraProjection::Orthographic,
            }
        } else {
            Camera {
                position: Vector3 { x: 0, y: 0, z: 512000 },
                target: Vector3 { x: 0, y: 0, z: 0 },
                up: Vector3 { x: 0, y: 1000, z: 0 },
                facing: Vector3 { x: 0, y: 0, z: 1000 },
                fovy: 15000,
                projection: CameraProjection::Orthographic,
            }
        }
    }

    /// The four views as the editor starts, on a screen of extent
    /// `screen`.
    pub fn views(screen: Vector2) -> (r: [Viewport; 4])
        ensures
            forall|i: int|
                0 <= i < 4 ==> #[trigger] r[i] == (Viewport {
                    shape: Viewport::extent(screen),
                    camera: Self::camera(i),
                    mouse: false,
                }),
    {
        let origin = Vector3::new(0, 0, 0);
        let up = Vector3::new(0, 1000, 0);
        [
            Viewport::new(
                screen,
                Camera {
                    position: Vector3::new(4000, 4000, 4000),
                    target: origin,
                    up,
                    facing: Vector3::new(577, 577, 577),
                    fovy: 90000,
                    projection: CameraProjection::Perspective,
                },
            ),
            Viewport::new(
                screen,
                Camera {
                    position: Vector3::new(512000, 0, 0),
                    target: origin,
                    up,
                    facing: Vector3::new(1000, 0, 0),
                    fovy: 15000,
                    projection: CameraProjection::Orthographic,
                },
            ),
            Viewport::new(
                screen,
                Camera {
                    position: Vector3::new(0, 512000, 0),
                    target: origin,
                    up: Vector3::new(1000, 0, 0),
                    facing: Vector3::new(0, 1000, 0),
                    fovy: 15000,
                    projection: CameraProjection::Orthographic,
                },
            ),
            Viewport::new(
                screen,
                Camera {
                    position: Vector3::new(0, 0, 512000),
                    target: origin,
                    up,
                    facing: Vector3::new(0, 0, 1000),
                    fovy: 15000,
                    projection: CameraProjection::Orthographic,
                },
            ),
        ]
    }

    /// An editor for `game` on a screen of extent `screen`: the scene
    /// holds one brush, the mode is the position mode, the panel shows
    /// the entities, and the textures that the scripts list are taken
    /// in.
    pub fn new(screen: Vector2, game: Game, user: User, meta: Meta) -> (r: Self)
        ensures
            r.world.fresh(),
            r.widget == Widget::Position,
            forall|i: int|
                0 <= i < 4 ==> #[trigger] r.view[i] == (Viewport {
                    shape: Viewport::extent(screen),
                    camera: Self::camera(i),
                    mouse: false,
                }),
            r.game == game,
            r.user == user,
            r.meta == meta,
            r.asset.names() == Outer::inserted_all(
                Seq::empty(),
                meta.texture@,
                meta.texture.len() as int,
            ),
            r.asset.wf(),
            r.search_ent@ == Seq::<char>::empty(),
            r.search_tex@ == Seq::<char>::empty(),
            !r.menu,
    {
        let mut asset = Outer::new();
        asset.set_texture_list(&meta.texture);
        Editor {
            world: World::default(),
            widget: Widget::default(),
            view: Self::views(screen),
            game,
            user,
            asset,
            meta,
            search_ent: String::new(),
            search_tex: String::new(),
            menu: false,
        }
    }

    /// Takes in what the script host lists after it was loaded again.
    /// Nothing of the earlier lists is kept: the textures are forgotten
    /// before those of the new list are taken in.
    pub fn reload(&mut self, meta: Meta)
        ensures
            final(self).meta == meta,
            final(self).asset.names() == Outer::inserted_all(
                Seq::empty(),
                meta.texture@,
                meta.texture.len() as int,
            ),
            final(self).asset.wf(),
            final(self).world == old(self).world,
            final(self).widget == old(self).widget,
            final(self).view == old(self).view,
            final(self).game == old(self).game,
            final(self).user == old(self).user,
            final(self).search_ent == old(self).search_ent,
            final(self).search_tex == old(self).search_tex,
            final(self).menu == old(self).menu,
    {
        self.asset.clear();
        self.asset.set_texture_list(&meta.texture);
        self.meta = meta;
    }

    /// The step that the keys of `user` ask for in this frame, seen
    /// through `camera`.
    pub open spec fn step(user: User, camera: Camera, poll: Poll) -> Vector3 {
        camera.step(
            axis(user.move_y_a.spec_press(poll), user.move_y_b.spec_press(poll)),
            -axis(user.move_x_a.spec_press(poll), user.move_x_b.spec_press(poll)),
            user.look.spec_down(poll),
        )
    }

    /// The shift key is held.
    pub open spec fn shift(poll: Poll) -> bool {
        Key::Keyboard(KeyboardKey::LeftShift).spec_down(poll)
    }

    /// `after` is what a frame makes of the scene `before`, by way of
    /// `mid`: the click, if there was one, leads from `before` to `mid`,
    /// and the step of the direction keys from `mid` to `after`.
    pub open spec fn framed(
        after: World,
        mid: World,
        before: World,
        user: User,
        widget: Widget,
        poll: Poll,
        hit: Seq<Option<i64>>,
        camera: Camera,
        turn: Matrix,
        miss: Miss,
    ) -> bool {
        &&& if user.interact.spec_press(poll) {
            mid.selected(before, nearest(before.targets(), hit), Self::shift(poll), miss)
        } else {
            mid == before
        }
        &&& after.transformed(mid, widget, Self::step(user, camera, poll), turn)
    }

    /// What a frame does to the scene through one view.
    ///
    /// If the interact binding was pressed, the nearest of the
    /// candidates that `hit` reports as hit is picked and the click is
    /// applied to the selection; `hit` holds one reading for each
    /// candidate of `World::target`, in its order. Then the step that the
    /// direction keys ask for is applied to what is in focus.
    pub fn select(
        user: &User,
        world: &mut World,
        widget: &Widget,
        poll: &Poll,
        hit: &Vec<Option<i64>>,
        camera: &Camera,
        turn: &Matrix,
        miss: Miss,
    )
        requires
            old(world).wf(),
        ensures
            final(world).wf(),
            exists|mid: World| #[trigger]
                Self::framed(
                    *final(world),
                    mid,
                    *old(world),
                    *user,
                    *widget,
                    *poll,
                    hit@,
                    *camera,
                    *turn,
                    miss,
                ),
    {
        if user.interact.get_press(poll) {
            let target = world.target();
            let found = pick(&target, hit);
            let choice = match found {
                Some((picker, _)) => Some(picker),
                None => None,
            };
            proof {
                world.lemma_targets_admitted();
                if choice is Some {
                    let i = choose|i: int| wins(target.len() as int, hit@, i);
                    assert(world.admits(world.targets()[i].picker));
                }
            }
            let shift = Key::Keyboard(KeyboardKey::LeftShift).get_down(poll);
            world.select(choice, shift, miss);
        }
        let ghost mid = *world;
        proof {
            assert forall|b: int| 0 <= b < mid.brush.len() implies (#[trigger] mid.brush[b]).wf() by {
                assert(old(world).brush[b].wf());
                if user.interact.spec_press(*poll) {
                    assert(mid.brush[b].recolored(old(world).brush[b]));
                    assert forall|side: int, c: int| 0 <= side < 6 && 0 <= c < 4 implies (
                    #[trigger] mid.brush[b].face[side].index[c]) < 8 by {
                        assert(mid.brush[b].face[side].index == old(
                            world,
                        ).brush[b].face[side].index);
                        assert(old(world).brush[b].face[side].index[c] < 8);
                    }
                }
            }
        }
        let vector = camera.movement(
            user.move_y_a.get_press(poll),
            user.move_y_b.get_press(poll),
            user.move_x_a.get_press(poll),
            user.move_x_b.get_press(poll),
            user.look.get_down(poll),
        );
        world.transform(widget, vector, turn);
        proof {
            assert forall|b: int| 0 <= b < world.brush.len() implies (#[trigger] world.brush[b]).wf() by {
                assert(mid.brush[b].wf());
                assert(world.brush[b].face == mid.brush[b].face);
            }
            assert(Self::framed(
                *world,
                mid,
                *old(world),
                *user,
                *widget,
                *poll,
                hit@,
                *camera,
                *turn,
                miss,
            ));
        }
    }

    /// The first part of a frame for view number `index`: the entities
    /// in focus leave the scene if the delete key was pressed; an
    /// orthographic view that is being looked around with follows the
    /// pointer; and looking around ends once its binding is let go.
    /// The result says whether the pointer is over the view, which is
    /// when the frame goes on with `Editor::pick`.
    pub fn update(&mut self, poll: &Poll, index: usize) -> (inside: bool)
        requires
            index < 4,
        ensures
            inside == old(self).view[index as int].place(index as int).holds(poll.mouse),
            final(self).world.brush == old(self).world.brush,
            final(self).world.entity@ == if Key::Keyboard(KeyboardKey::Delete).spec_press(*poll) {
                old(self).world.entity@.filter(|e: Entity| !e.focus)
            } else {
                old(self).world.entity@
            },
            forall|i: int| 0 <= i < 4 && i != index ==> final(self).view[i] == old(self).view[i],
            final(self).view[index as int] == (Viewport {
                camera: if old(self).view[index as int].mouse && old(
                    self,
                ).view[index as int].camera.projection == CameraProjection::Orthographic {
                    Camera {
                        position: old(self).view[index as int].camera.position.sum(
                            old(self).view[index as int].camera.carry(poll.delta),
                        ),
                        target: old(self).view[index as int].camera.target.sum(
                            old(self).view[index as int].camera.carry(poll.delta),
                        ),
                        ..old(self).view[index as int].camera
                    }
                } else {
                    old(self).view[index as int].camera
                },
                mouse: old(self).view[index as int].mouse && !old(self).user.look.spec_release(
                    *poll,
                ),
                ..old(self).view[index as int]
            }),
            final(self).widget == old(self).widget,
            final(self).game == old(self).game,
            final(self).user == old(self).user,
            final(self).meta == old(self).meta,
            final(self).asset == old(self).asset,
            final(self).search_ent == old(self).search_ent,
            final(self).search_tex == old(self).search_tex,
            final(self).menu == old(self).menu,
    {
        if Key::Keyboard(KeyboardKey::Delete).get_press(poll) {
            self.world.remove();
        }
        let mut view = self.view[index];
        if view.mouse {
            match view.camera.projection {
                CameraProjection::Perspective => {},
                CameraProjection::Orthographic => {
                    view.camera.pan(poll.delta);
                },
            }
        }
        view.release(&self.user, poll);
        let inside = view.port(index).check_collision_point_rec(poll.mouse);
        self.view[index] = view;
        inside
    }

    /// The second part of a frame for view number `index`, for a frame
    /// in which the pointer is over the view: the scene goes through
    /// `Editor::select`, and looking around begins if its binding was
    /// pressed.
    pub fn pick(&mut self, poll: &Poll, index: usize, hit: &Vec<Option<i64>>, turn: &Matrix, miss: Miss)
        requires
            index < 4,
            old(self).world.wf(),
        ensures
            final(self).world.wf(),
            exists|mid: World| #[trigger]
                Self::framed(
                    final(self).world,
                    mid,
                    old(self).world,
                    old(self).user,
                    old(self).widget,
                    *poll,
                    hit@,
                    old(self).view[index as int].camera,
                    *turn,
                    miss,
                ),
            forall|i: int| 0 <= i < 4 && i != index ==> final(self).view[i] == old(self).view[i],
            final(self).view[index as int] == (Viewport {
                mouse: old(self).view[index as int].mouse || old(self).user.look.spec_press(*poll),
                ..old(self).view[index as int]
            }),
            final(self).widget == old(self).widget,
            final(self).game == old(self).game,
            final(self).user == old(self).user,
            final(self).meta == old(self).meta,
            final(self).asset == old(self).asset,
            final(self).search_ent == old(self).search_ent,
            final(self).search_tex == old(self).search_tex,
            final(self).menu == old(self).menu,
    {
        let camera = self.view[index].camera;
        let user = self.user;
        let widget = self.widget;
        Self::select(&user, &mut self.world, &widget, poll, hit, &camera, turn, miss);
        proof {
            let mid = choose|mid: World| #[trigger]
                Self::framed(
                    self.world,
                    mid,
                    old(self).world,
                    user,
                    widget,
                    *poll,
                    hit@,
                    camera,
                    *turn,
                    miss,
                );
            assert(Self::framed(
                self.world,
                mid,
                old(self).world,
                old(self).user,
                old(self).widget,
                *poll,
                hit@,
                old(self).view[index as int].camera,
                *turn,
                miss,
            ));
        }
        if self.user.look.get_press(poll) {
            let mut view = self.view[index];
            view.mouse = true;
            self.view[index] = view;
        }
    }

    /// Sets the views up again for a screen of extent `screen`.
    pub fn resize(&mut self, screen: Vector2)
        ensures
            forall|i: int|
                0 <= i < 4 ==> #[trigger] final(self).view[i] == (Viewport {
                    shape: Viewport::extent(screen),
                    camera: Self::camera(i),
                    mouse: false,
                }),
            final(self).world == old(self).world,
            final(self).widget == old(self).widget,
            final(self).game == old(self).game,
            final(self).user == old(self).user,
            final(self).meta == old(self).meta,
            final(self).asset == old(self).asset,
            final(self).search_ent == old(self).search_ent,
            final(self).search_tex == old(self).search_tex,
            final(self).menu == old(self).menu,
    {
        self.view = Self::views(screen);
    }
}

} // verus!
