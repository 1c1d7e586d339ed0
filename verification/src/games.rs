//! The games the launcher knows, by id, and the one selected.
use vstd::prelude::*;
use vstd::set_lib::{lemma_int_range, lemma_len_subset, lemma_map_size, set_int_range};
use crate::desktop::Desktop;
use crate::game::{GameConfig, GameConfigView, shortcut_spec};
use crate::strmap::{
    Duplicate, StrMap, distinct_keys, has_key, index_of, insert_spec, lookup, remove_spec,
    lemma_index_of_unique,
};
use crate::text::{decimal, decimal_text, lemma_decimal_injective, lemma_prefix_cancel};

verus! {

broadcast use vstd::string::group_string_axioms;

/// The id of the `n`-th game: `cat_game` and the number.
pub open spec fn game_id(n: nat) -> Seq<char> {
    "cat_game"@ + decimal(n)
}

/// `n` is the first number from 1 on whose id `m` does not hold.
pub open spec fn is_first_free<T>(m: Seq<(Seq<char>, T)>, n: nat) -> bool {
    &&& n >= 1
    &&& !has_key(m, game_id(n))
    &&& forall|k: nat| 1 <= k < n ==> has_key(m, #[trigger] game_id(k))
}

/// The first number from 1 on whose id `m` does not hold.
pub open spec fn first_free<T>(m: Seq<(Seq<char>, T)>) -> nat {
    choose|n: nat| is_first_free(m, n)
}

/// Different numbers give different ids.
pub proof fn lemma_game_id_injective(a: nat, b: nat)
    requires
        game_id(a) == game_id(b),
    ensures
        a == b,
{
    lemma_prefix_cancel("cat_game"@, decimal(a), decimal(b));
    lemma_decimal_injective(a, b);
}

/// A map with distinct keys holds the ids of `1..c` only if it has at
/// least `c - 1` entries.
proof fn lemma_ids_bounded<T>(m: Seq<(Seq<char>, T)>, c: nat)
    requires
        c >= 1,
        distinct_keys(m),
        forall|k: nat| 1 <= k < c ==> has_key(m, #[trigger] game_id(k)),
    ensures
        c - 1 <= m.len(),
{
    let x = set_int_range(1, c as int);
    let f = |k: int| index_of(m, game_id(k as nat));
    let y = x.map(f);
    lemma_int_range(1, c as int);
    assert forall|a: int, b: int| x.contains(a) && x.contains(b) && #[trigger] f(a) == #[trigger] f(b)
        implies a == b by {
        assert(has_key(m, game_id(a as nat)));
        assert(has_key(m, game_id(b as nat)));
        let ia: int = index_of(m, game_id(a as nat));
        assert(m[ia].0 == game_id(a as nat));
        assert(m[ia].0 == game_id(b as nat));
        lemma_game_id_injective(a as nat, b as nat);
    }
    lemma_map_size(x, y, f);
    let r = set_int_range(0, m.len() as int);
    lemma_int_range(0, m.len() as int);
    assert forall|i: int| y.contains(i) implies r.contains(i) by {
        let k: int = choose|k: int| x.contains(k) && f(k) == i;
        assert(has_key(m, game_id(k as nat)));
    }
    lemma_len_subset(y, r);
}

/// Counting up from `n`, whose smaller numbers all have their ids in `m`,
/// reaches the first free number.
proof fn lemma_first_free_from<T>(m: Seq<(Seq<char>, T)>, n: nat)
    requires
        n >= 1,
        distinct_keys(m),
        forall|k: nat| 1 <= k < n ==> has_key(m, #[trigger] game_id(k)),
    ensures
        is_first_free(m, first_free(m)),
    decreases m.len() + 1 - n,
{
    lemma_ids_bounded(m, n);
    if has_key(m, game_id(n)) {
        lemma_ids_bounded(m, n + 1);
        lemma_first_free_from(m, n + 1);
    } else {
        assert(is_first_free(m, n));
        lemma_first_free(m, n);
    }
}

/// Every map with distinct keys has a first free number.
pub proof fn lemma_first_free_exists<T>(m: Seq<(Seq<char>, T)>)
    requires
        distinct_keys(m),
    ensures
        is_first_free(m, first_free(m)),
        !has_key(m, game_id(first_free(m))),
{
    lemma_first_free_from(m, 1);
}

/// A first free number exists, and it is the only one.
pub proof fn lemma_first_free<T>(m: Seq<(Seq<char>, T)>, n: nat)
    requires
        is_first_free(m, n),
    ensures
        first_free(m) == n,
{
    let f = first_free(m);
    assert(is_first_free(m, f));
    if f < n {
        assert(has_key(m, game_id(f)));
    } else if n < f {
        assert(has_key(m, game_id(n)));
    }
}

/// The games by id, and the id of the selected one (empty when none is).
pub struct Games {
    pub configs: StrMap<GameConfig>,
    pub play: String,
}

/// What [`Games`] hold.
#[verifier::ext_equal]
pub struct GamesView {
    pub configs: Seq<(Seq<char>, GameConfigView)>,
    pub play: Seq<char>,
}

impl View for Games {
    type V = GamesView;

    open spec fn view(&self) -> GamesView {
        GamesView { configs: self.configs@, play: self.play@ }
    }
}

/// Where a game's desktop entry goes and what it holds.
pub struct ShortcutPlan {
    pub dir: String,
    pub file: String,
    pub desktop: Desktop,
}

/// The folder of the games' desktop entries under `home`.
pub open spec fn shortcut_dir_spec(home: Seq<char>) -> Seq<char> {
    home + "/.local/share/applications/cat_games"@
}

/// The desktop entry file of game `id` under `home`.
pub open spec fn shortcut_file_spec(home: Seq<char>, id: Seq<char>) -> Seq<char> {
    shortcut_dir_spec(home) + "/"@ + id + ".desktop"@
}

impl GameConfig {
    /// Where the desktop entry of this game under `id` goes, below `home`,
    /// and what it holds when launched by the program at `exe`.
    pub fn shortcut_plan(&self, id: &String, home: &str, exe: &str) -> (p: ShortcutPlan)
        ensures
            p.dir@ == shortcut_dir_spec(home@),
            p.file@ == shortcut_file_spec(home@, id@),
            p.desktop@ == shortcut_spec(self@, id@, exe@),
    {
        let mut dir = String::from_str(home);
        dir.append("/.local/share/applications/cat_games");
        let mut file = dir.clone();
        file.append("/");
        file.append(id.as_str());
        file.append(".desktop");
        ShortcutPlan { dir, file, desktop: self.shortcut(id, exe) }
    }
}

impl Games {
    /// The given games, none selected.
    pub fn new(configs: StrMap<GameConfig>) -> (g: Games)
        ensures
            g@.configs == configs@,
            g@.play == Seq::<char>::empty(),
    {
        Games { configs, play: String::new() }
    }

    /// The selected game, if the selection names one.
    pub fn selected(&self) -> (r: Option<&GameConfig>)
        ensures
            r matches Some(g) ==> lookup(self.configs@, self.play@) == Some(g@),
            r is None <==> lookup(self.configs@, self.play@) is None,
    {
        self.configs.get(self.play.as_str())
    }

    /// Where the desktop entry of the selected game goes and what it holds,
    /// if a game is selected.
    pub fn shortcut(&self, home: &str, exe: &str) -> (r: Option<ShortcutPlan>)
        ensures
            r is Some <==> has_key(self.configs@, self.play@),
            r matches Some(p) ==> {
                let g = lookup(self.configs@, self.play@).unwrap();
                &&& p.dir@ == shortcut_dir_spec(home@)
                &&& p.file@ == shortcut_file_spec(home@, self.play@)
                &&& p.desktop@ == shortcut_spec(g, self.play@, exe@)
            },
    {
        match self.configs.get(self.play.as_str()) {
            Some(g) => Some(g.shortcut_plan(&self.play, home, exe)),
            None => None,
        }
    }

    /// The id that a new game gets: the first `cat_game` number from 1 on
    /// that no game holds.
    pub fn next_id(&self) -> (id: String)
        ensures
            id@ == game_id(first_free(self.configs@)),
            !has_key(self.configs@, id@),
    {
        self.configs.keys_are_distinct();
        let n: usize = self.configs.len();
        let mut counter: u128 = 1;
        let mut id = String::from_str("cat_game");
        id.append(decimal_text(counter).as_str());
        while self.configs.contains_key(id.as_str())
            invariant
                counter >= 1,
                n == self.configs@.len(),
                id@ == game_id(counter as nat),
                distinct_keys(self.configs@),
                forall|k: nat| 1 <= k < counter ==> has_key(self.configs@, #[trigger] game_id(k)),
            decreases self.configs@.len() + 1 - counter,
        {
            proof {
                lemma_ids_bounded(self.configs@, (counter + 1) as nat);
            }
            counter = counter + 1;
            id = String::from_str("cat_game");
            id.append(decimal_text(counter).as_str());
        }
        proof {
            lemma_first_free(self.configs@, counter as nat);
        }
        id
    }

    /// Adds `juego`: under `game_id` when editing that game, else under the
    /// next free id, which is returned.
    pub fn add_game(&mut self, juego: &GameConfig, game_id: Option<String>) -> (id: String)
        ensures
            game_id matches Some(g) ==> id@ == g@,
            game_id is None ==> id@ == crate::games::game_id(first_free(old(self).configs@)),
            game_id is None ==> !has_key(old(self).configs@, id@),
            final(self).configs@ == insert_spec(old(self).configs@, id@, juego@),
            final(self).play@ == old(self).play@,
    {
        let fresh = self.next_id();
        let id = match game_id {
            Some(gid) => gid,
            None => fresh,
        };
        self.configs.insert(id.clone(), juego.duplicate());
        id
    }

    /// Forgets game `game_id`.
    pub fn delete_game(&mut self, game_id: &String)
        ensures
            final(self).configs@ == remove_spec(old(self).configs@, game_id@),
            final(self).play@ == old(self).play@,
    {
        let _ = self.configs.remove(game_id.as_str());
    }
}

} // verus!
