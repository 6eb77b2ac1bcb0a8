//! The user's browsing preferences: hidden games, favourites and which app
//! types are listed.

use vstd::prelude::*;
use crate::game::GameType;

verus! {

/// User preferences (persisted by the application as `config.json`).
#[derive(Debug, Clone)]
pub struct Config {
    pub default_user: String,
    pub hidden_games: Vec<i32>,
    pub favorite_games: Vec<i32>,
    pub allowed_games: Vec<GameType>,
}

/// Whether `x` occurs in `v`.
pub fn contains_id(v: &Vec<i32>, x: i32) -> (r: bool)
    ensures
        r == v@.contains(x),
{
    let mut i: usize = 0;
    while i < v.len()
        invariant
            i <= v.len(),
            forall|j: int| 0 <= j < i ==> v@[j] != x,
        decreases v.len() - i,
    {
        if v[i] == x {
            assert(v@[i as int] == x);
            return true;
        }
        i += 1;
    }
    false
}

/// Whether `t` occurs in `v`.
pub fn contains_type(v: &Vec<GameType>, t: GameType) -> (r: bool)
    ensures
        r == v@.contains(t),
{
    let mut i: usize = 0;
    while i < v.len()
        invariant
            i <= v.len(),
            forall|j: int| 0 <= j < i ==> v@[j] != t,
        decreases v.len() - i,
    {
        if v[i] == t {
            assert(v@[i as int] == t);
            return true;
        }
        i += 1;
    }
    false
}

impl Default for Config {
    /// The defaults of [`Config::default_config`].
    fn default() -> (c: Config)
        ensures
            c.default_user@ == Seq::<char>::empty(),
            c.hidden_games@ == Seq::<i32>::empty(),
            c.favorite_games@ == Seq::<i32>::empty(),
            c.allowed_games@ == seq![GameType::Game, GameType::DLC],
    {
        Config::default_config()
    }
}

impl Config {
    /// The defaults: no hidden games, no favourites, games and DLC listed.
    pub fn default_config() -> (c: Config)
        ensures
            c.default_user@ == Seq::<char>::empty(),
            c.hidden_games@ == Seq::<i32>::empty(),
            c.favorite_games@ == Seq::<i32>::empty(),
            c.allowed_games@ == seq![GameType::Game, GameType::DLC],
    {
        let mut allowed: Vec<GameType> = Vec::new();
        allowed.push(GameType::Game);
        allowed.push(GameType::DLC);
        assert(allowed@ =~= seq![GameType::Game, GameType::DLC]);
        Config {
            default_user: String::new(),
            hidden_games: Vec::new(),
            favorite_games: Vec::new(),
            allowed_games: allowed,
        }
    }

    /// Whether game `id` is a favourite.
    pub fn is_favourite(&self, id: i32) -> (b: bool)
        ensures
            b == self.favorite_games@.contains(id),
    {
        contains_id(&self.favorite_games, id)
    }

    /// Toggles game `id` in the favourites: removes every occurrence when it
    /// is one, appends it otherwise.
    pub fn toggle_favourite(&mut self, id: i32)
        ensures
            final(self).favorite_games@ == toggled(old(self).favorite_games@, id),
            final(self).hidden_games == old(self).hidden_games,
            final(self).allowed_games == old(self).allowed_games,
            final(self).default_user == old(self).default_user,
    {
        if contains_id(&self.favorite_games, id) {
            let mut kept: Vec<i32> = Vec::new();
            let mut i: usize = 0;
            let ghost orig = self.favorite_games@;
            while i < self.favorite_games.len()
                invariant
                    orig == self.favorite_games@,
                    i <= orig.len(),
                    kept@ == without(orig.take(i as int), id),
                decreases orig.len() - i,
            {
                let x = self.favorite_games[i];
                proof {
                    assert(orig.take(i + 1).drop_last() =~= orig.take(i as int));
                    reveal(Seq::filter);
                }
                if x != id {
                    kept.push(x);
                }
                i += 1;
            }
            assert(orig.take(orig.len() as int) =~= orig);
            self.favorite_games = kept;
        } else {
            self.favorite_games.push(id);
        }
    }

    /// Hides game `id` from the library.
    pub fn hide_game(&mut self, id: i32)
        ensures
            final(self).hidden_games@ == old(self).hidden_games@.push(id),
            final(self).favorite_games == old(self).favorite_games,
            final(self).allowed_games == old(self).allowed_games,
            final(self).default_user == old(self).default_user,
    {
        self.hidden_games.push(id);
    }
}

/// `v` without any occurrence of `id`.
pub open spec fn without(v: Seq<i32>, id: i32) -> Seq<i32> {
    v.filter(|x: i32| x != id)
}

/// The favourites after toggling `id`.
pub open spec fn toggled(v: Seq<i32>, id: i32) -> Seq<i32> {
    if v.contains(id) { without(v, id) } else { v.push(id) }
}

/// Removing `id` keeps exactly the other members.
pub proof fn lemma_without(v: Seq<i32>, id: i32, x: i32)
    ensures
        without(v, id).contains(x) == (v.contains(x) && x != id),
    decreases v.len(),
{
    reveal(Seq::filter);
    if v.len() > 0 {
        lemma_without(v.drop_last(), id, x);
        let rest = without(v.drop_last(), id);
        if v.contains(x) && x != id {
            let k = choose|k: int| 0 <= k < v.len() && v[k] == x;
            if k == v.len() - 1 {
                assert(without(v, id) == rest.push(x));
                assert(without(v, id)[rest.len() as int] == x);
            } else {
                assert(v.drop_last()[k] == x);
                let j = choose|j: int| 0 <= j < rest.len() && rest[j] == x;
                if v.last() != id {
                    assert(without(v, id)[j] == x);
                } else {
                    assert(without(v, id) == rest);
                }
            }
        }
        if without(v, id).contains(x) {
            let j = choose|j: int| 0 <= j < without(v, id).len() && without(v, id)[j] == x;
            if v.last() != id {
                assert(without(v, id) == rest.push(v.last()));
                if j == rest.len() {
                    assert(v[v.len() - 1] == x);
                } else {
                    assert(rest[j] == x);
                    let k = choose|k: int| 0 <= k < v.drop_last().len() && v.drop_last()[k] == x;
                    assert(v[k] == x);
                }
            } else {
                assert(rest[j] == x);
                let k = choose|k: int| 0 <= k < v.drop_last().len() && v.drop_last()[k] == x;
                assert(v[k] == x);
            }
        }
    }
}

/// Toggling a favourite twice leaves the membership of every game as it was.
pub proof fn lemma_toggle_favourite_twice(favs: Seq<i32>, id: i32, other: i32)
    ensures
        toggled(toggled(favs, id), id).contains(other) == favs.contains(other),
{
    let once = toggled(favs, id);
    if favs.contains(id) {
        lemma_without(favs, id, id);
        lemma_without(favs, id, other);
        assert(once.push(id)[once.len() as int] == id);
        if other != id && once.contains(other) {
            let j = choose|j: int| 0 <= j < once.len() && once[j] == other;
            assert(once.push(id)[j] == other);
        }
        if once.push(id).contains(other) && other != id {
            let j = choose|j: int| 0 <= j < once.push(id).len() && once.push(id)[j] == other;
            assert(once[j] == other);
        }
    } else {
        assert(once[favs.len() as int] == id);
        lemma_without(once, id, other);
        if other != id && favs.contains(other) {
            let k = choose|k: int| 0 <= k < favs.len() && favs[k] == other;
            assert(once[k] == other);
        }
        if other != id && once.contains(other) {
            let k = choose|k: int| 0 <= k < once.len() && once[k] == other;
            assert(favs[k] == other);
        }
    }
}

} // verus!
