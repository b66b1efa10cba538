//! Picking: what a ray can hit in a scene, which hit wins, and what the
//! winner does to the selection.
//!
//! The crate does not cast rays. It lists the shapes to test, in the
//! order in which ties are broken, and takes the distances back.

use vstd::prelude::*;
use crate::shape::{BoundingBox, Vector3};
use crate::world::{Brush, Entity, Vertex, World};

verus! {

/// What a click can name.
#[derive(Clone, Copy, PartialEq, Eq, Structural, Debug)]
pub enum Picker {
    /// A brush, by its place in the scene.
    Brush(usize),
    /// An entity, by its place in the scene.
    Entity(usize),
    /// A corner of a brush: the brush, then the corner.
    Vertex(usize, usize),
}

/// A shape to hold against the ray.
#[derive(Clone, Copy, PartialEq, Eq, Structural, Debug)]
pub enum Probe {
    Box(BoundingBox),
    Quad(Vector3, Vector3, Vector3, Vector3),
}

/// A candidate of a pick: what it would name, and its shape.
#[derive(Clone, Copy, PartialEq, Eq, Structural, Debug)]
pub struct Target {
    pub picker: Picker,
    pub probe: Probe,
}

/// What a click that hits nothing does while the shift key is held.
#[derive(Clone, Copy, PartialEq, Eq, Structural, Debug)]
pub enum Miss {
    /// It leaves the selection as it is.
    Keep,
    /// It clears the selection, as a miss without the shift key does.
    Clear,
}

/// Half the edge of the box that stands for a corner.
pub const HANDLE: i64 = 500;

impl World {
    /// The box about corner `j` of brush `b`.
    pub open spec fn vertex_target(self, b: int, j: int) -> Target {
        Target {
            picker: Picker::Vertex(b as usize, j as usize),
            probe: Probe::Box(
                BoundingBox {
                    min: (Vector3 { x: -HANDLE as i64, y: -HANDLE as i64, z: -HANDLE as i64 }).sum(
                        self.brush[b].vertex[j].point,
                    ),
                    max: (Vector3 { x: HANDLE, y: HANDLE, z: HANDLE }).sum(
                        self.brush[b].vertex[j].point,
                    ),
                },
            ),
        }
    }

    /// Side `k` of brush `b`.
    pub open spec fn face_target(self, b: int, k: int) -> Target {
        let brush = self.brush[b];
        let index = brush.face[k].index;
        Target {
            picker: Picker::Brush(b as usize),
            probe: Probe::Quad(
                brush.vertex[index[0] as int].point,
                brush.vertex[index[1] as int].point,
                brush.vertex[index[2] as int].point,
                brush.vertex[index[3] as int].point,
            ),
        }
    }

    /// The box of entity `e`.
    pub open spec fn entity_target(self, e: int) -> Target {
        Target { picker: Picker::Entity(e as usize), probe: Probe::Box(self.entity[e].bounds()) }
    }

    /// What brush `b` offers: its eight corners while it is in focus,
    /// its six sides while it is not.
    pub open spec fn brush_target(self, b: int) -> Seq<Target> {
        if self.brush[b].focus {
            Seq::new(8, |j: int| self.vertex_target(b, j))
        } else {
            Seq::new(6, |k: int| self.face_target(b, k))
        }
    }

    /// What the first `n` brushes offer, brush by brush.
    pub open spec fn brush_targets(self, n: int) -> Seq<Target>
        decreases n,
    {
        if n <= 0 {
            Seq::empty()
        } else {
            self.brush_targets(n - 1) + self.brush_target(n - 1)
        }
    }

    /// Every candidate of a pick, in the order in which ties are
    /// broken: the brushes in their order, each with its corners or
    /// sides in theirs, then the entities in their order.
    pub open spec fn targets(self) -> Seq<Target> {
        self.brush_targets(self.brush.len() as int) + Seq::new(
            self.entity.len() as nat,
            |e: int| self.entity_target(e),
        )
    }

    /// Lists the candidates of a pick.
    pub fn target(&self) -> (list: Vec<Target>)
        requires
            self.wf(),
        ensures
            list@ == self.targets(),
    {
        let mut list: Vec<Target> = Vec::new();
        let mut b: usize = 0;
        while b < self.brush.len()
            invariant
                self.wf(),
                b <= self.brush.len(),
                list@ == self.brush_targets(b as int),
            decreases self.brush.len() - b,
        {
            let ghost base = list@;
            if self.brush[b].focus {
                let mut j: usize = 0;
                while j < 8
                    invariant
                        j <= 8,
                        b < self.brush.len(),
                        list@ == base + Seq::new(j as nat, |i: int| self.vertex_target(b as int, i)),
                    decreases 8 - j,
                {
                    let point = self.brush[b].vertex[j].point;
                    let low = Vector3::new(-HANDLE, -HANDLE, -HANDLE).plus(point);
                    let high = Vector3::new(HANDLE, HANDLE, HANDLE).plus(point);
                    list.push(
                        Target {
                            picker: Picker::Vertex(b, j),
                            probe: Probe::Box(BoundingBox::new(low, high)),
                        },
                    );
                    j += 1;
                    assert(list@ =~= base + Seq::new(
                        j as nat,
                        |i: int| self.vertex_target(b as int, i),
                    ));
                }
            } else {
                let mut k: usize = 0;
                while k < 6
                    invariant
                        self.wf(),
                        k <= 6,
                        b < self.brush.len(),
                        list@ == base + Seq::new(k as nat, |i: int| self.face_target(b as int, i)),
                    decreases 6 - k,
                {
                    let brush = &self.brush[b];
                    assert(brush.wf());
                    assert(brush.face[k as int].index[0] < 8);
                    assert(brush.face[k as int].index[1] < 8);
                    assert(brush.face[k as int].index[2] < 8);
                    assert(brush.face[k as int].index[3] < 8);
                    let face = &brush.face[k];
                    list.push(
                        Target {
                            picker: Picker::Brush(b),
                            probe: Probe::Quad(
                                brush.vertex[face.index[0]].point,
                                brush.vertex[face.index[1]].point,
                                brush.vertex[face.index[2]].point,
                                brush.vertex[face.index[3]].point,
                            ),
                        },
                    );
                    k += 1;
                    assert(list@ =~= base + Seq::new(
                        k as nat,
                        |i: int| self.face_target(b as int, i),
                    ));
                }
            }
            b += 1;
            assert(list@ == self.brush_targets(b as int));
        }
        let ghost base = list@;
        let mut e: usize = 0;
        while e < self.entity.len()
            invariant
                e <= self.entity.len(),
                base == self.brush_targets(self.brush.len() as int),
                list@ == base + Seq::new(e as nat, |i: int| self.entity_target(i)),
            decreases self.entity.len() - e,
        {
            list.push(
                Target { picker: Picker::Entity(e), probe: Probe::Box(self.entity[e].bound_box()) },
            );
            e += 1;
            assert(list@ =~= base + Seq::new(e as nat, |i: int| self.entity_target(i)));
        }
        list
    }
}

/// What the ray reports of candidate `i`: a distance, or nothing. A
/// candidate for which no reading was handed in is not hit.
pub open spec fn reading(hit: Seq<Option<i64>>, i: int) -> Option<i64> {
    if 0 <= i < hit.len() {
        hit[i]
    } else {
        None
    }
}

/// Candidate `i` wins among the first `count`: it is hit, every hit
/// before it is farther, and no hit after it is nearer.
pub open spec fn wins(count: int, hit: Seq<Option<i64>>, i: int) -> bool {
    &&& 0 <= i < count
    &&& reading(hit, i) is Some
    &&& forall|j: int|
        0 <= j < i && (#[trigger] reading(hit, j)) is Some ==> reading(hit, j)->0 > reading(
            hit,
            i,
        )->0
    &&& forall|j: int|
        i < j < count && (#[trigger] reading(hit, j)) is Some ==> reading(hit, j)->0 >= reading(
            hit,
            i,
        )->0
}

/// At most one candidate wins.
pub proof fn lemma_winner_is_unique(count: int, hit: Seq<Option<i64>>, i: int, j: int)
    requires
        wins(count, hit, i),
        wins(count, hit, j),
    ensures
        i == j,
{
    if i < j {
        assert(reading(hit, i) is Some);
    } else if j < i {
        assert(reading(hit, j) is Some);
    }
}

/// What the winner names; nothing where nothing is hit.
pub open spec fn nearest(target: Seq<Target>, hit: Seq<Option<i64>>) -> Option<Picker> {
    if exists|i: int| wins(target.len() as int, hit, i) {
        Some(target[choose|i: int| wins(target.len() as int, hit, i)].picker)
    } else {
        None
    }
}

/// What a pick names, without its distance.
pub open spec fn named(r: Option<(Picker, i64)>) -> Option<Picker> {
    match r {
        Some((picker, _)) => Some(picker),
        None => None,
    }
}

/// The nearest hit: the candidate with the least distance, and of
/// candidates at the same distance the one that comes first.
pub fn pick(target: &Vec<Target>, hit: &Vec<Option<i64>>) -> (r: Option<(Picker, i64)>)
    ensures
        named(r) == nearest(target@, hit@),
        r is None <==> forall|i: int| 0 <= i < target.len() ==> reading(hit@, i) is None,
        forall|i: int|
            wins(target.len() as int, hit@, i) ==> r == Some(
                (target[i].picker, reading(hit@, i)->0),
            ),
        r is Some ==> exists|i: int| wins(target.len() as int, hit@, i),
{
    let mut best: Option<(usize, i64)> = None;
    let mut i: usize = 0;
    while i < target.len()
        invariant
            i <= target.len(),
            best is None ==> forall|j: int| 0 <= j < i ==> reading(hit@, j) is None,
            best matches Some((b, d)) ==> wins(i as int, hit@, b as int) && reading(hit@, b as int)
                == Some(d),
        decreases target.len() - i,
    {
        if i < hit.len() {
            if let Some(distance) = hit[i] {
                match best {
                    Some((_, least)) => {
                        if distance < least {
                            best = Some((i, distance));
                        }
                    },
                    None => {
                        best = Some((i, distance));
                    },
                }
            }
        }
        i += 1;
    }
    match best {
        Some((b, d)) => {
            proof {
                assert forall|k: int| wins(target.len() as int, hit@, k) implies k == b by {
                    lemma_winner_is_unique(target.len() as int, hit@, k, b as int);
                }
                assert(wins(target.len() as int, hit@, b as int));
            }
            Some((target[b].picker, d))
        },
        None => {
            proof {
                assert forall|k: int| wins(target.len() as int, hit@, k) implies false by {
                    assert(reading(hit@, k) is None);
                }
            }
            None
        },
    }
}

impl World {
    /// The pick names something of this scene.
    pub open spec fn admits(self, picker: Picker) -> bool {
        match picker {
            Picker::Brush(b) => b < self.brush.len(),
            Picker::Entity(e) => e < self.entity.len(),
            Picker::Vertex(b, j) => b < self.brush.len() && j < 8,
        }
    }

    /// Every candidate that the first `n` brushes offer names something
    /// of the scene.
    pub proof fn lemma_brush_targets_admitted(self, n: int)
        requires
            0 <= n <= self.brush.len(),
        ensures
            forall|i: int|
                0 <= i < self.brush_targets(n).len() ==> self.admits(
                    #[trigger] self.brush_targets(n)[i].picker,
                ),
        decreases n,
    {
        if n > 0 {
            self.lemma_brush_targets_admitted(n - 1);
        }
    }

    /// Every candidate of a pick names something of the scene.
    pub proof fn lemma_targets_admitted(self)
        ensures
            forall|i: int|
                0 <= i < self.targets().len() ==> self.admits(#[trigger] self.targets()[i].picker),
    {
        self.lemma_brush_targets_admitted(self.brush.len() as int);
    }

    /// The flag, after a click, of a thing that the click did not name:
    /// as it was while the shift key is held, unless the click hit
    /// nothing and a miss clears; cleared otherwise.
    pub open spec fn kept(flag: bool, hit: Option<Picker>, shift: bool, miss: Miss) -> bool {
        match hit {
            Some(_) => shift && flag,
            None => shift && miss == Miss::Keep && flag,
        }
    }

    /// The flag of brush `b` after a click. A click on the brush turns
    /// its flag over; a click on one of its corners leaves it in focus.
    pub open spec fn brush_flag(self, hit: Option<Picker>, shift: bool, miss: Miss, b: int) -> bool {
        match hit {
            Some(Picker::Brush(i)) => if i == b {
                !self.brush[b].focus
            } else {
                Self::kept(self.brush[b].focus, hit, shift, miss)
            },
            Some(Picker::Vertex(i, _)) => if i == b {
                true
            } else {
                Self::kept(self.brush[b].focus, hit, shift, miss)
            },
            _ => Self::kept(self.brush[b].focus, hit, shift, miss),
        }
    }

    /// The flag of corner `j` of brush `b` after a click.
    pub open spec fn vertex_flag(
        self,
        hit: Option<Picker>,
        shift: bool,
        miss: Miss,
        b: int,
        j: int,
    ) -> bool {
        if hit == Some(Picker::Vertex(b as usize, j as usize)) {
            !self.brush[b].vertex[j].focus
        } else {
            Self::kept(self.brush[b].vertex[j].focus, hit, shift, miss)
        }
    }

    /// The flag of entity `e` after a click.
    pub open spec fn entity_flag(self, hit: Option<Picker>, shift: bool, miss: Miss, e: int) -> bool {
        if hit == Some(Picker::Entity(e as usize)) {
            !self.entity[e].focus
        } else {
            Self::kept(self.entity[e].focus, hit, shift, miss)
        }
    }

    /// This scene is `before` after a click: nothing but focus flags
    /// differs, and each flag is what the click makes of it.
    pub open spec fn selected(
        self,
        before: World,
        hit: Option<Picker>,
        shift: bool,
        miss: Miss,
    ) -> bool {
        &&& self.brush.len() == before.brush.len()
        &&& self.entity.len() == before.entity.len()
        &&& forall|b: int|
            0 <= b < self.brush.len() ==> {
                &&& (#[trigger] self.brush[b]).recolored(before.brush[b])
                &&& self.brush[b].focus == before.brush_flag(hit, shift, miss, b)
            }
        &&& forall|b: int, j: int|
            0 <= b < self.brush.len() && 0 <= j < 8 ==> (#[trigger] self.brush[b].vertex[j]).focus
                == before.vertex_flag(hit, shift, miss, b, j)
        &&& forall|b: int, k: int|
            0 <= b < self.brush.len() && 0 <= k < 6 ==> (#[trigger] self.brush[b].face[k]).focus
                == Self::kept(before.brush[b].face[k].focus, hit, shift, miss)
        &&& forall|e: int|
            0 <= e < self.entity.len() ==> #[trigger] self.entity[e] == (Entity {
                focus: before.entity_flag(hit, shift, miss, e),
                ..before.entity[e]
            })
    }

    /// Applies a click to the selection. Without the shift key every
    /// other flag is cleared first; the flag of what was hit is then
    /// turned over. A click that hits nothing clears the selection,
    /// unless the shift key is held and `miss` says to keep it.
    pub fn select(&mut self, hit: Option<Picker>, shift: bool, miss: Miss)
        requires
            hit matches Some(picker) ==> old(self).admits(picker),
        ensures
            final(self).selected(*old(self), hit, shift, miss),
            old(self).wf() ==> final(self).wf(),
    {
        match hit {
            None => {
                if !(shift && miss == Miss::Keep) {
                    self.select_all(false);
                }
            },
            Some(Picker::Brush(b)) => {
                let was = self.brush[b].focus;
                if !shift {
                    self.select_all(false);
                }
                self.brush[b].focus = !was;
            },
            Some(Picker::Entity(e)) => {
                let was = self.entity[e].focus;
                if !shift {
                    self.select_all(false);
                }
                self.entity[e].focus = !was;
            },
            Some(Picker::Vertex(b, j)) => {
                let was = self.brush[b].vertex[j].focus;
                if !shift {
                    self.select_all(false);
                }
                self.brush[b].focus = true;
                self.brush[b].vertex[j].focus = !was;
            },
        }
    }
}

} // verus!
