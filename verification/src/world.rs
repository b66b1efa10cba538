//! The scene: brushes, entities, and the focus flags that make up the
//! selection.

use vstd::prelude::*;
use crate::fixed::UNIT;
use crate::shape::{BoundingBox, Color, Matrix, Vector2, Vector3};

verus! {

/// A corner of a brush.
#[derive(Clone, Debug, PartialEq, Eq)]
pub struct Vertex {
    pub focus: bool,
    pub point: Vector3,
}

impl Vertex {
    /// A corner at the given point, out of focus.
    pub fn new(x: i64, y: i64, z: i64) -> (r: Self)
        ensures
            r == (Vertex { focus: false, point: Vector3 { x, y, z } }),
    {
        Vertex { focus: false, point: Vector3::new(x, y, z) }
    }
}

/// A side of a brush: four corners of the brush that owns it, and how it
/// is textured.
#[derive(Clone, Debug, PartialEq, Eq)]
pub struct Face {
    pub focus: bool,
    pub index: [usize; 4],
    pub shift: Vector2,
    pub scale: Vector2,
    pub color: Color,
    pub texture: Option<String>,
}

impl Face {
    /// The corners of the six sides of a brush, side by side.
    pub open spec fn corner(side: int) -> Seq<usize> {
        if side == 0 {
            seq![0usize, 1usize, 2usize, 3usize]
        } else if side == 1 {
            seq![5usize, 4usize, 7usize, 6usize]
        } else if side == 2 {
            seq![3usize, 2usize, 6usize, 7usize]
        } else if side == 3 {
            seq![1usize, 0usize, 4usize, 5usize]
        } else if side == 4 {
            seq![1usize, 5usize, 6usize, 2usize]
        } else {
            seq![4usize, 0usize, 3usize, 7usize]
        }
    }

    /// A side as it is made: out of focus, untextured, white, its texture
    /// neither shifted nor scaled.
    pub open spec fn plain(self, index: Seq<usize>) -> bool {
        &&& !self.focus
        &&& self.index@ == index
        &&& self.shift == (Vector2 { x: 0, y: 0 })
        &&& self.scale == (Vector2 { x: UNIT, y: UNIT })
        &&& self.color == Color::spec_white()
        &&& self.texture is None
    }

    /// A side between the given corners, as it is made.
    pub fn new(index: [usize; 4]) -> (r: Self)
        ensures
            r.plain(index@),
    {
        Face {
            focus: false,
            index,
            shift: Vector2::new(0, 0),
            scale: Vector2::new(UNIT, UNIT),
            color: Color::white(),
            texture: None,
        }
    }

    /// The six sides of a brush, as they are made.
    pub fn new_list() -> (r: [Self; 6])
        ensures
            forall|side: int| 0 <= side < 6 ==> (#[trigger] r[side]).plain(Self::corner(side)),
    {
        let r = [
            Face::new([0, 1, 2, 3]),
            Face::new([5, 4, 7, 6]),
            Face::new([3, 2, 6, 7]),
            Face::new([1, 0, 4, 5]),
            Face::new([1, 5, 6, 2]),
            Face::new([4, 0, 3, 7]),
        ];
        assert(r[0].index@ =~= Self::corner(0));
        assert(r[1].index@ =~= Self::corner(1));
        assert(r[2].index@ =~= Self::corner(2));
        assert(r[3].index@ =~= Self::corner(3));
        assert(r[4].index@ =~= Self::corner(4));
        assert(r[5].index@ =~= Self::corner(5));
        r
    }
}

/// A solid of eight corners and six sides.
#[derive(Clone, Debug, PartialEq, Eq)]
pub struct Brush {
    pub vertex: [Vertex; 8],
    pub face: [Face; 6],
    pub focus: bool,
}

impl Brush {
    /// Half the edge of a brush as it is made.
    pub const DEFAULT_SHAPE: i64 = 1000;

    /// Every side names corners of this brush.
    pub open spec fn wf(self) -> bool {
        forall|side: int, c: int|
            0 <= side < 6 && 0 <= c < 4 ==> (#[trigger] self.face[side].index[c]) < 8
    }

    /// Corner `j` of the cube of half edge one about the origin.
    pub open spec fn unit_corner(j: int) -> Vector3 {
        Vector3 {
            x: if j == 0 || j == 3 || j == 4 || j == 7 {
                (-UNIT) as i64
            } else {
                UNIT
            },
            y: if j == 0 || j == 1 || j == 4 || j == 5 {
                (-UNIT) as i64
            } else {
                UNIT
            },
            z: if j < 4 {
                UNIT
            } else {
                (-UNIT) as i64
            },
        }
    }

    /// This brush is `before` with every corner sent through `map`;
    /// sides and flags are as they were.
    pub open spec fn moved(self, before: Brush, map: spec_fn(Vector3) -> Vector3) -> bool {
        &&& self.focus == before.focus
        &&& self.face == before.face
        &&& forall|j: int|
            0 <= j < 8 ==> #[trigger] self.vertex[j] == (Vertex {
                focus: before.vertex[j].focus,
                point: map(before.vertex[j].point),
            })
    }

    /// This brush is `before` with every focus flag set to `value`.
    pub open spec fn marked(self, before: Brush, value: bool) -> bool {
        &&& self.focus == value
        &&& forall|j: int|
            0 <= j < 8 ==> #[trigger] self.vertex[j] == (Vertex {
                focus: value,
                point: before.vertex[j].point,
            })
        &&& forall|k: int|
            0 <= k < 6 ==> #[trigger] self.face[k] == (Face { focus: value, ..before.face[k] })
    }

    /// This brush differs from `before` in focus flags at most.
    pub open spec fn recolored(self, before: Brush) -> bool {
        &&& forall|j: int| 0 <= j < 8 ==> (#[trigger] self.vertex[j]).point == before.vertex[j].point
        &&& forall|k: int|
            0 <= k < 6 ==> #[trigger] self.face[k] == (Face {
                focus: self.face[k].focus,
                ..before.face[k]
            })
    }

    /// Whether every side names corners of this brush.
    pub fn check(&self) -> (r: bool)
        ensures
            r == self.wf(),
    {
        let mut side: usize = 0;
        while side < 6
            invariant
                side <= 6,
                forall|s: int, c: int|
                    0 <= s < side && 0 <= c < 4 ==> (#[trigger] self.face[s].index[c]) < 8,
            decreases 6 - side,
        {
            let mut c: usize = 0;
            while c < 4
                invariant
                    side < 6,
                    c <= 4,
                    forall|s: int, c: int|
                        0 <= s < side && 0 <= c < 4 ==> (#[trigger] self.face[s].index[c]) < 8,
                    forall|d: int| 0 <= d < c ==> (#[trigger] self.face[side as int].index[d]) < 8,
                decreases 4 - c,
            {
                if self.face[side].index[c] >= 8 {
                    return false;
                }
                c += 1;
            }
            side += 1;
        }
        true
    }

    /// Sets every focus flag of the brush.
    pub fn mark(&mut self, value: bool)
        ensures
            final(self).marked(*old(self), value),
            old(self).wf() ==> final(self).wf(),
    {
        self.focus = value;
        let mut j: usize = 0;
        while j < 8
            invariant
                j <= 8,
                self.focus == value,
                self.face == old(self).face,
                forall|i: int|
                    0 <= i < j ==> #[trigger] self.vertex[i] == (Vertex {
                        focus: value,
                        point: old(self).vertex[i].point,
                    }),
                forall|i: int| j <= i < 8 ==> #[trigger] self.vertex[i] == old(self).vertex[i],
            decreases 8 - j,
        {
            self.vertex[j].focus = value;
            j += 1;
        }
        let mut k: usize = 0;
        while k < 6
            invariant
                k <= 6,
                self.focus == value,
                forall|i: int|
                    0 <= i < 8 ==> #[trigger] self.vertex[i] == (Vertex {
                        focus: value,
                        point: old(self).vertex[i].point,
                    }),
                forall|i: int|
                    0 <= i < k ==> #[trigger] self.face[i] == (Face {
                        focus: value,
                        ..old(self).face[i]
                    }),
                forall|i: int| k <= i < 6 ==> #[trigger] self.face[i] == old(self).face[i],
            decreases 6 - k,
        {
            self.face[k].focus = value;
            k += 1;
        }
    }

    /// Moves every corner by `value`.
    pub fn position(&mut self, value: Vector3)
        ensures
            final(self).moved(*old(self), |p: Vector3| p.sum(value)),
            old(self).wf() ==> final(self).wf(),
    {
        let mut j: usize = 0;
        while j < 8
            invariant
                j <= 8,
                self.focus == old(self).focus,
                self.face == old(self).face,
                forall|i: int|
                    0 <= i < j ==> #[trigger] self.vertex[i] == (Vertex {
                        focus: old(self).vertex[i].focus,
                        point: old(self).vertex[i].point.sum(value),
                    }),
                forall|i: int| j <= i < 8 ==> #[trigger] self.vertex[i] == old(self).vertex[i],
            decreases 8 - j,
        {
            let point = self.vertex[j].point.plus(value);
            self.vertex[j].point = point;
            j += 1;
        }
    }

    /// Turns every corner about the origin: sends it through `turn`.
    pub fn rotation(&mut self, turn: &Matrix)
        ensures
            final(self).moved(*old(self), |p: Vector3| turn.image(p)),
            old(self).wf() ==> final(self).wf(),
    {
        let mut j: usize = 0;
        while j < 8
            invariant
                j <= 8,
                self.focus == old(self).focus,
                self.face == old(self).face,
                forall|i: int|
                    0 <= i < j ==> #[trigger] self.vertex[i] == (Vertex {
                        focus: old(self).vertex[i].focus,
                        point: turn.image(old(self).vertex[i].point),
                    }),
                forall|i: int| j <= i < 8 ==> #[trigger] self.vertex[i] == old(self).vertex[i],
            decreases 8 - j,
        {
            let point = turn.apply(self.vertex[j].point);
            self.vertex[j].point = point;
            j += 1;
        }
    }

    /// Multiplies every corner by `value`, component by component.
    pub fn scale(&mut self, value: Vector3)
        ensures
            final(self).moved(*old(self), |p: Vector3| p.product(value)),
            old(self).wf() ==> final(self).wf(),
    {
        let mut j: usize = 0;
        while j < 8
            invariant
                j <= 8,
                self.focus == old(self).focus,
                self.face == old(self).face,
                forall|i: int|
                    0 <= i < j ==> #[trigger] self.vertex[i] == (Vertex {
                        focus: old(self).vertex[i].focus,
                        point: old(self).vertex[i].point.product(value),
                    }),
                forall|i: int| j <= i < 8 ==> #[trigger] self.vertex[i] == old(self).vertex[i],
            decreases 8 - j,
        {
            let point = self.vertex[j].point.times(value);
            self.vertex[j].point = point;
            j += 1;
        }
    }
}

impl Default for Brush {
    /// The cube of half edge one about the origin, nothing in focus.
    fn default() -> (r: Self)
        ensures
            !r.focus,
            r.wf(),
            forall|j: int|
                0 <= j < 8 ==> #[trigger] r.vertex[j] == (Vertex {
                    focus: false,
                    point: Brush::unit_corner(j),
                }),
            forall|side: int| 0 <= side < 6 ==> (#[trigger] r.face[side]).plain(Face::corner(side)),
    {
        let s: i64 = Self::DEFAULT_SHAPE;
        let r = Brush {
            vertex: [
                Vertex::new(-s, -s, s),
                Vertex::new(s, -s, s),
                Vertex::new(s, s, s),
                Vertex::new(-s, s, s),
                Vertex::new(-s, -s, -s),
                Vertex::new(s, -s, -s),
                Vertex::new(s, s, -s),
                Vertex::new(-s, s, -s),
            ],
            face: Face::new_list(),
            focus: false,
        };
        proof {
            assert forall|side: int, c: int| 0 <= side < 6 && 0 <= c < 4 implies (
            #[trigger] r.face[side].index[c]) < 8 by {
                assert(r.face[side].plain(Face::corner(side)));
                assert(r.face[side].index@[c] == Face::corner(side)[c]);
            }
        }
        r
    }
}

/// What a custom field of an entity holds.
#[derive(Clone, Debug, PartialEq, Eq)]
pub enum Kind {
    Bool(bool),
    Number(i64),
    Text(String),
    /// Anything else, kept as it was written.
    Other(String),
}

/// A custom field of an entity.
#[derive(Clone, Debug, PartialEq, Eq)]
pub struct EntityData {
    pub name: String,
    pub info: String,
    pub kind: Kind,
}

/// What the script host says of a kind of entity.
#[derive(Clone, Debug, PartialEq, Eq)]
pub struct EntityMeta {
    pub name: String,
    pub info: String,
    pub data: Vec<EntityData>,
    pub shape: BoundingBox,
    pub call: Option<String>,
}

impl Kind {
    /// A copy of what a field holds.
    pub fn duplicate(&self) -> (r: Self)
        ensures
            r == *self,
    {
        match self {
            Kind::Bool(value) => Kind::Bool(*value),
            Kind::Number(value) => Kind::Number(*value),
            Kind::Text(value) => Kind::Text(value.clone()),
            Kind::Other(value) => Kind::Other(value.clone()),
        }
    }
}

impl EntityData {
    /// A copy of the field.
    pub fn duplicate(&self) -> (r: Self)
        ensures
            r == *self,
    {
        EntityData {
            name: self.name.clone(),
            info: self.info.clone(),
            kind: self.kind.duplicate(),
        }
    }
}

impl EntityMeta {
    /// `self` says of a kind of entity what `other` says.
    pub open spec fn same(self, other: EntityMeta) -> bool {
        &&& self.name == other.name
        &&& self.info == other.info
        &&& self.data@ == other.data@
        &&& self.shape == other.shape
        &&& self.call == other.call
    }

    /// A copy of what is said of a kind of entity.
    pub fn duplicate(&self) -> (r: Self)
        ensures
            r.same(*self),
    {
        let mut data: Vec<EntityData> = Vec::new();
        let mut i: usize = 0;
        while i < self.data.len()
            invariant
                i <= self.data.len(),
                data.len() == i,
                forall|k: int| 0 <= k < i ==> data[k] == self.data[k],
            decreases self.data.len() - i,
        {
            data.push(self.data[i].duplicate());
            i += 1;
        }
        assert(data@ =~= self.data@);
        EntityMeta {
            name: self.name.clone(),
            info: self.info.clone(),
            data,
            shape: self.shape,
            call: match &self.call {
                Some(call) => Some(call.clone()),
                None => None,
            },
        }
    }
}

/// A placed object of a kind that a script defines.
#[derive(Clone, Debug, PartialEq, Eq)]
pub struct Entity {
    pub position: Vector3,
    pub rotation: Vector3,
    pub scale: Vector3,
    pub focus: bool,
    pub meta: EntityMeta,
}

impl Entity {
    /// An entity of the given kind at the origin, unturned, at scale one.
    pub fn new_from_lua(meta: EntityMeta) -> (r: Self)
        ensures
            r == (Entity {
                position: Vector3 { x: 0, y: 0, z: 0 },
                rotation: Vector3 { x: 0, y: 0, z: 0 },
                scale: Vector3 { x: UNIT, y: UNIT, z: UNIT },
                focus: false,
                meta,
            }),
    {
        Entity {
            position: Vector3::zero(),
            rotation: Vector3::zero(),
            scale: Vector3::one(),
            focus: false,
            meta,
        }
    }

    /// Moves the entity by `value`.
    pub fn position(&mut self, value: Vector3)
        ensures
            *final(self) == (Entity { position: old(self).position.sum(value), ..*old(self) }),
    {
        self.position = self.position.plus(value);
    }

    /// Turns the entity by `value` more.
    pub fn rotation(&mut self, value: Vector3)
        ensures
            *final(self) == (Entity { rotation: old(self).rotation.sum(value), ..*old(self) }),
    {
        self.rotation = self.rotation.plus(value);
    }

    /// Adds `value` to the scale of the entity.
    pub fn scale(&mut self, value: Vector3)
        ensures
            *final(self) == (Entity { scale: old(self).scale.sum(value), ..*old(self) }),
    {
        self.scale = self.scale.plus(value);
    }

    /// The box of the entity in the scene: the box of its kind, moved to
    /// where the entity stands.
    pub open spec fn bounds(self) -> BoundingBox {
        BoundingBox {
            min: self.meta.shape.min.sum(self.position),
            max: self.meta.shape.max.sum(self.position),
        }
    }

    /// The box of the entity in the scene.
    pub fn bound_box(&self) -> (r: BoundingBox)
        ensures
            r == self.bounds(),
    {
        BoundingBox::new(
            self.meta.shape.min.plus(self.position),
            self.meta.shape.max.plus(self.position),
        )
    }
}

/// What the editor does with the selection.
#[derive(Clone, Copy, PartialEq, Eq, Structural, Debug)]
pub enum Widget {
    Position,
    Rotation,
    Scale,
    Vertex,
    Edge,
    Face,
}

impl Default for Widget {
    fn default() -> (r: Self)
        ensures
            r == Widget::Position,
    {
        Widget::Position
    }
}

/// The scene.
#[derive(Clone, Debug, PartialEq, Eq)]
pub struct World {
    pub brush: Vec<Brush>,
    pub entity: Vec<Entity>,
}

impl World {
    /// Every brush is well formed.
    pub open spec fn wf(self) -> bool {
        forall|b: int| 0 <= b < self.brush.len() ==> (#[trigger] self.brush[b]).wf()
    }

    /// This scene is `before` with every focus flag set to `value`.
    pub open spec fn marked(self, before: World, value: bool) -> bool {
        &&& self.brush.len() == before.brush.len()
        &&& self.entity.len() == before.entity.len()
        &&& forall|b: int|
            0 <= b < self.brush.len() ==> (#[trigger] self.brush[b]).marked(
                before.brush[b],
                value,
            )
        &&& forall|e: int|
            0 <= e < self.entity.len() ==> #[trigger] self.entity[e] == (Entity {
                focus: value,
                ..before.entity[e]
            })
    }

    /// Whether every brush is well formed.
    pub fn check(&self) -> (r: bool)
        ensures
            r == self.wf(),
    {
        let mut b: usize = 0;
        while b < self.brush.len()
            invariant
                b <= self.brush.len(),
                forall|i: int| 0 <= i < b ==> (#[trigger] self.brush[i]).wf(),
            decreases self.brush.len() - b,
        {
            if !self.brush[b].check() {
                return false;
            }
            b += 1;
        }
        true
    }

    /// Sets every focus flag of the scene.
    pub fn select_all(&mut self, value: bool)
        ensures
            final(self).marked(*old(self), value),
            old(self).wf() ==> final(self).wf(),
    {
        let mut b: usize = 0;
        while b < self.brush.len()
            invariant
                b <= self.brush.len(),
                self.brush.len() == old(self).brush.len(),
                self.entity == old(self).entity,
                forall|i: int|
                    0 <= i < b ==> (#[trigger] self.brush[i]).marked(old(self).brush[i], value),
                forall|i: int| b <= i < self.brush.len() ==> #[trigger] self.brush[i] == old(
                    self,
                ).brush[i],
            decreases self.brush.len() - b,
        {
            self.brush[b].mark(value);
            b += 1;
        }
        let mut e: usize = 0;
        while e < self.entity.len()
            invariant
                e <= self.entity.len(),
                self.brush.len() == old(self).brush.len(),
                self.entity.len() == old(self).entity.len(),
                forall|i: int|
                    0 <= i < self.brush.len() ==> (#[trigger] self.brush[i]).marked(
                        old(self).brush[i],
                        value,
                    ),
                forall|i: int|
                    0 <= i < e ==> #[trigger] self.entity[i] == (Entity {
                        focus: value,
                        ..old(self).entity[i]
                    }),
                forall|i: int| e <= i < self.entity.len() ==> #[trigger] self.entity[i] == old(
                    self,
                ).entity[i],
            decreases self.entity.len() - e,
        {
            self.entity[e].focus = value;
            e += 1;
        }
    }
}

impl World {
    /// This scene is `before` with every side of every brush in focus
    /// textured with `name`.
    pub open spec fn painted(self, before: World, name: Seq<char>) -> bool {
        &&& self.entity == before.entity
        &&& self.brush.len() == before.brush.len()
        &&& forall|b: int|
            0 <= b < self.brush.len() ==> if before.brush[b].focus {
                &&& (#[trigger] self.brush[b]).focus
                &&& self.brush[b].vertex == before.brush[b].vertex
                &&& forall|k: int|
                    0 <= k < 6 ==> {
                        &&& (#[trigger] self.brush[b].face[k]).texture matches Some(texture)
                        &&& texture@ == name
                        &&& self.brush[b].face[k].focus == before.brush[b].face[k].focus
                        &&& self.brush[b].face[k].index == before.brush[b].face[k].index
                        &&& self.brush[b].face[k].shift == before.brush[b].face[k].shift
                        &&& self.brush[b].face[k].scale == before.brush[b].face[k].scale
                        &&& self.brush[b].face[k].color == before.brush[b].face[k].color
                    }
            } else {
                self.brush[b] == before.brush[b]
            }
    }

    /// Textures every side of every brush in focus with `name`.
    pub fn paint(&mut self, name: &str)
        ensures
            final(self).painted(*old(self), name@),
            old(self).wf() ==> final(self).wf(),
    {
        let mut b: usize = 0;
        while b < self.brush.len()
            invariant
                b <= self.brush.len(),
                self.entity == old(self).entity,
                self.brush.len() == old(self).brush.len(),
                forall|i: int|
                    0 <= i < b ==> if old(self).brush[i].focus {
                        &&& (#[trigger] self.brush[i]).focus
                        &&& self.brush[i].vertex == old(self).brush[i].vertex
                        &&& forall|k: int|
                            0 <= k < 6 ==> {
                                &&& (#[trigger] self.brush[i].face[k]).texture matches Some(texture)
                                &&& texture@ == name@
                                &&& self.brush[i].face[k].focus == old(self).brush[i].face[k].focus
                                &&& self.brush[i].face[k].index == old(self).brush[i].face[k].index
                                &&& self.brush[i].face[k].shift == old(self).brush[i].face[k].shift
                                &&& self.brush[i].face[k].scale == old(self).brush[i].face[k].scale
                                &&& self.brush[i].face[k].color == old(self).brush[i].face[k].color
                            }
                    } else {
                        self.brush[i] == old(self).brush[i]
                    },
                forall|i: int| b <= i < self.brush.len() ==> #[trigger] self.brush[i] == old(
                    self,
                ).brush[i],
            decreases self.brush.len() - b,
        {
            if self.brush[b].focus {
                let mut k: usize = 0;
                while k < 6
                    invariant
                        k <= 6,
                        b < self.brush.len(),
                        self.entity == old(self).entity,
                        self.brush.len() == old(self).brush.len(),
                        old(self).brush[b as int].focus,
                        self.brush[b as int].focus,
                        self.brush[b as int].vertex == old(self).brush[b as int].vertex,
                        forall|i: int|
                            0 <= i < self.brush.len() && i != b ==> #[trigger] self.brush[i] == old(
                                self,
                            ).brush[i] || i < b,
                        forall|i: int|
                            0 <= i < b ==> if old(self).brush[i].focus {
                                &&& (#[trigger] self.brush[i]).focus
                                &&& self.brush[i].vertex == old(self).brush[i].vertex
                                &&& forall|k: int|
                                    0 <= k < 6 ==> {
                                        &&& (#[trigger] self.brush[i].face[k]).texture matches Some(
                                            texture,
                                        )
                                        &&& texture@ == name@
                                        &&& self.brush[i].face[k].focus == old(
                                            self,
                                        ).brush[i].face[k].focus
                                        &&& self.brush[i].face[k].index == old(
                                            self,
                                        ).brush[i].face[k].index
                                        &&& self.brush[i].face[k].shift == old(
                                            self,
                                        ).brush[i].face[k].shift
                                        &&& self.brush[i].face[k].scale == old(
                                            self,
                                        ).brush[i].face[k].scale
                                        &&& self.brush[i].face[k].color == old(
                                            self,
                                        ).brush[i].face[k].color
                                    }
                            } else {
                                self.brush[i] == old(self).brush[i]
                            },
                        forall|j: int|
                            0 <= j < k ==> {
                                &&& (#[trigger] self.brush[b as int].face[j]).texture matches Some(
                                    texture,
                                )
                                &&& texture@ == name@
                                &&& self.brush[b as int].face[j].focus == old(
                                    self,
                                ).brush[b as int].face[j].focus
                                &&& self.brush[b as int].face[j].index == old(
                                    self,
                                ).brush[b as int].face[j].index
                                &&& self.brush[b as int].face[j].shift == old(
                                    self,
                                ).brush[b as int].face[j].shift
                                &&& self.brush[b as int].face[j].scale == old(
                                    self,
                                ).brush[b as int].face[j].scale
                                &&& self.brush[b as int].face[j].color == old(
                                    self,
                                ).brush[b as int].face[j].color
                            },
                        forall|j: int|
                            k <= j < 6 ==> #[trigger] self.brush[b as int].face[j] == old(
                                self,
                            ).brush[b as int].face[j],
                        forall|i: int|
                            b < i < self.brush.len() ==> #[trigger] self.brush[i] == old(
                                self,
                            ).brush[i],
                    decreases 6 - k,
                {
                    self.brush[b].face[k].texture = Some(name.to_owned());
                    k += 1;
                }
            }
            b += 1;
        }
        proof {
            if old(self).wf() {
                assert forall|b: int| 0 <= b < self.brush.len() implies (#[trigger] self.brush[b]).wf() by {
                    assert(old(self).brush[b].wf());
                    assert forall|side: int, c: int| 0 <= side < 6 && 0 <= c < 4 implies (
                    #[trigger] self.brush[b].face[side].index[c]) < 8 by {
                        assert(self.brush[b].face[side].index == old(
                            self,
                        ).brush[b].face[side].index);
                        assert(old(self).brush[b].face[side].index[c] < 8);
                    }
                }
            }
        }
    }
}

impl World {
    /// The scene as it is made: one brush as it is made, and no entity.
    pub open spec fn fresh(self) -> bool {
        &&& self.wf()
        &&& self.brush.len() == 1
        &&& self.entity.len() == 0
        &&& !self.brush[0].focus
        &&& forall|j: int|
            0 <= j < 8 ==> #[trigger] self.brush[0].vertex[j] == (Vertex {
                focus: false,
                point: Brush::unit_corner(j),
            })
        &&& forall|side: int|
            0 <= side < 6 ==> (#[trigger] self.brush[0].face[side]).plain(Face::corner(side))
    }
}

impl Default for World {
    /// A scene of one brush as it is made, and no entity.
    fn default() -> (r: Self)
        ensures
            r.fresh(),
    {
        let mut brush: Vec<Brush> = Vec::new();
        brush.push(Brush::default());
        World { brush, entity: Vec::new() }
    }
}

} // verus!
