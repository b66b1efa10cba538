//! The games that the editor can make maps for.

use vstd::prelude::*;
use crate::world::Kind;

verus! {

/// What a game says of itself.
#[derive(Clone, Debug, PartialEq, Eq)]
pub struct Info {
    pub name: String,
}

/// Where the games are.
#[derive(Clone, Debug, PartialEq, Eq)]
pub struct InfoMallet {
    pub path: Vec<String>,
}

/// A setting that a game asks the map maker for.
#[derive(Clone, Debug, PartialEq, Eq)]
pub struct Configuration {
    pub name: String,
    pub info: String,
    pub kind: Kind,
}

/// The settings of a game.
#[derive(Clone, Debug, PartialEq, Eq)]
pub struct Data {
    pub path: String,
    pub configuration: Vec<Configuration>,
}

/// A game: what it says of itself, its settings if it has any, and the
/// directory it lives in.
#[derive(Clone, Debug, PartialEq, Eq)]
pub struct Game {
    pub info: Info,
    pub data: Option<Data>,
    pub path: String,
}

impl Game {
    /// A game out of its parts.
    pub fn new(info: Info, data: Option<Data>, path: String) -> (r: Self)
        ensures
            r == (Game { info, data, path }),
    {
        Game { info, data, path }
    }

    /// One game for each directory, in the order of the directories.
    /// `info` and `data` hold what was read in each directory, in the
    /// same order; directories beyond the shorter of the three lists
    /// give no game.
    pub fn new_list(path: Vec<String>, info: Vec<Info>, data: Vec<Option<Data>>) -> (r: Vec<Self>)
        ensures
            r.len() == Self::shortest(path.len() as int, info.len() as int, data.len() as int),
            forall|i: int|
                0 <= i < r.len() ==> #[trigger] r[i] == (Game {
                    info: info[i],
                    data: data[i],
                    path: path[i],
                }),
    {
        let mut path = path;
        let mut info = info;
        let mut data = data;
        let ghost path0 = path@;
        let ghost info0 = info@;
        let ghost data0 = data@;
        let mut count = path.len();
        if info.len() < count {
            count = info.len();
        }
        if data.len() < count {
            count = data.len();
        }
        path.truncate(count);
        info.truncate(count);
        data.truncate(count);
        let mut back: Vec<Self> = Vec::new();
        while path.len() > 0
            invariant
                path.len() == info.len(),
                path.len() == data.len(),
                path.len() + back.len() == count,
                count == Self::shortest(path0.len() as int, info0.len() as int, data0.len() as int),
                forall|i: int| 0 <= i < path.len() ==> path[i] == path0[i],
                forall|i: int| 0 <= i < info.len() ==> info[i] == info0[i],
                forall|i: int| 0 <= i < data.len() ==> data[i] == data0[i],
                forall|i: int|
                    0 <= i < back.len() ==> #[trigger] back[i] == (Game {
                        info: info0[count - 1 - i],
                        data: data0[count - 1 - i],
                        path: path0[count - 1 - i],
                    }),
            decreases path.len(),
        {
            let p = path.pop().unwrap();
            let i = info.pop().unwrap();
            let d = data.pop().unwrap();
            back.push(Game::new(i, d, p));
        }
        let mut result: Vec<Self> = Vec::new();
        while back.len() > 0
            invariant
                back.len() + result.len() == count,
                forall|i: int|
                    0 <= i < back.len() ==> #[trigger] back[i] == (Game {
                        info: info0[count - 1 - i],
                        data: data0[count - 1 - i],
                        path: path0[count - 1 - i],
                    }),
                forall|i: int|
                    0 <= i < result.len() ==> #[trigger] result[i] == (Game {
                        info: info0[i],
                        data: data0[i],
                        path: path0[i],
                    }),
            decreases back.len(),
        {
            let game = back.pop().unwrap();
            result.push(game);
        }
        result
    }

    /// The least of three lengths.
    pub open spec fn shortest(a: int, b: int, c: int) -> int {
        if a <= b && a <= c {
            a
        } else if b <= c {
            b
        } else {
            c
        }
    }
}

} // verus!
