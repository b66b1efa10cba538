//! The textures of a game that are loaded, by name.

use vstd::prelude::*;
use crate::text::{before, lemma_order_is_total, precedes, same_text};

verus! {

/// The names of the textures that are loaded, each once, in the order
/// of texts.
#[derive(Clone, Debug, PartialEq, Eq)]
pub struct Outer {
    pub texture: Vec<String>,
}

impl Outer {
    /// The names, in their order.
    pub open spec fn names(&self) -> Seq<Seq<char>> {
        self.texture@.map_values(|name: String| name@)
    }

    /// Each name comes before the next.
    pub open spec fn ordered(list: Seq<Seq<char>>) -> bool {
        forall|i: int| 0 <= i < list.len() - 1 ==> precedes(#[trigger] list[i], list[i + 1])
    }

    /// The names are in order, and so no name stands twice.
    pub open spec fn wf(&self) -> bool {
        Self::ordered(self.names())
    }

    /// The place of `name` in `list`: that of the first name, at or
    /// after `from`, that does not come before it.
    pub open spec fn place(list: Seq<Seq<char>>, name: Seq<char>, from: int) -> int
        decreases list.len() - from,
    {
        if from < 0 || from >= list.len() {
            list.len() as int
        } else if !precedes(list[from], name) {
            from
        } else {
            Self::place(list, name, from + 1)
        }
    }

    /// `list` with `name` in its place; `list` itself if the name is
    /// there already.
    pub open spec fn inserted(list: Seq<Seq<char>>, name: Seq<char>) -> Seq<Seq<char>> {
        let p = Self::place(list, name, 0);
        if p < list.len() && list[p] == name {
            list
        } else {
            list.insert(p, name)
        }
    }

    /// `list` with the first `n` of `path` put in, one after the other.
    pub open spec fn inserted_all(list: Seq<Seq<char>>, path: Seq<String>, n: int) -> Seq<
        Seq<char>,
    >
        decreases n,
    {
        if n <= 0 {
            list
        } else {
            Self::inserted(Self::inserted_all(list, path, n - 1), path[n - 1]@)
        }
    }

    /// No texture.
    pub fn new() -> (r: Self)
        ensures
            r.names() == Seq::<Seq<char>>::empty(),
            r.wf(),
    {
        let r = Outer { texture: Vec::new() };
        assert(r.names() =~= Seq::<Seq<char>>::empty());
        r
    }

    /// Forgets every texture.
    pub fn clear(&mut self)
        ensures
            final(self).names() == Seq::<Seq<char>>::empty(),
            final(self).wf(),
    {
        self.texture.clear();
        assert(self.names() =~= Seq::<Seq<char>>::empty());
    }

    /// Takes the name of a texture in.
    pub fn set_texture(&mut self, path: &str)
        ensures
            final(self).names() == Self::inserted(old(self).names(), path@),
            old(self).wf() ==> final(self).wf(),
    {
        let ghost list = self.names();
        let mut p: usize = 0;
        while p < self.texture.len() && before(self.texture[p].as_str(), path)
            invariant
                p <= self.texture.len(),
                *self == *old(self),
                list == self.names(),
                Self::place(list, path@, 0) == Self::place(list, path@, p as int),
                forall|i: int| 0 <= i < p ==> precedes(#[trigger] list[i], path@),
            decreases self.texture.len() - p,
        {
            p += 1;
        }
        if p < self.texture.len() && same_text(self.texture[p].as_str(), path) {
            return ;
        }
        self.texture.insert(p, path.to_owned());
        proof {
            assert(self.names() =~= list.insert(p as int, path@));
            if old(self).wf() {
                let after = self.names();
                if p < list.len() {
                    lemma_order_is_total(list[p as int], path@);
                }
                assert forall|i: int| 0 <= i < after.len() - 1 implies precedes(
                    #[trigger] after[i],
                    after[i + 1],
                ) by {
                    if i + 1 < p {
                        assert(precedes(list[i], list[i + 1]));
                    } else if i + 1 == p {
                        assert(precedes(list[i], path@));
                    } else if i == p {
                        assert(after[i + 1] == list[p as int]);
                    } else {
                        assert(precedes(list[i - 1], list[i]));
                    }
                }
            }
        }
    }

    /// Takes the names of a list of textures in.
    pub fn set_texture_list(&mut self, path: &Vec<String>)
        ensures
            final(self).names() == Self::inserted_all(old(self).names(), path@, path.len() as int),
            old(self).wf() ==> final(self).wf(),
    {
        let mut i: usize = 0;
        while i < path.len()
            invariant
                i <= path.len(),
                self.names() == Self::inserted_all(old(self).names(), path@, i as int),
                old(self).wf() ==> self.wf(),
            decreases path.len() - i,
        {
            self.set_texture(path[i].as_str());
            i += 1;
        }
    }
}

} // verus!
