//! The library browsing model: the quick-filter tab, the live fuzzy query and
//! the sort order decide which games are visible and in what order; the model
//! also owns the selection. Every browse widget renders from it.

use vstd::prelude::*;
use vstd::view::View as _;
use crate::config::{Config, contains_id, contains_type};
use crate::game::{Game, state_of};
use crate::order::{lex_less, lex_lt, lemma_lex_asymmetric, lemma_lex_irreflexive, lemma_lex_total, lemma_lex_transitive, lowercase_of, to_lowercase};
use crate::text::{chars_of, concat, owned, pop_char, push_char};
use crate::order::{contains_str, has_infix, has_prefix, starts_with};
use crate::game::GameStatus;
use crate::error::{STError, describe_spec};
use crate::aurelia::{
    AccountJson, BranchJson, CloudFileJson, ConfigJson, DepotJson, DlcJson, InventoryItemJson, LaunchOptionJson,
    LibraryGameJson, LibraryJson, MarketListingJson, ProtonJson, ProxyJson, RunningJson, WalletJson,
};
use crate::overlays::{AchievementsPane, PromptState};
use crate::social::{ChatPane, FriendsPanel};
use crate::market::MarketSearchPane;
use crate::workshop::WorkshopPane;
use crate::tools::{CollectionsPane, EnginePane, GameConfigPane, VersionsPane};
use crate::nav::{wrap_next, wrap_next_spec, wrap_prev, wrap_prev_spec};

verus! {

/// The quick-filter tabs along the top of the library.
#[derive(Clone, Copy, PartialEq, Eq, Debug, Structural)]
pub enum Filter {
    All,
    Installed,
    Updates,
    Favourites,
}

/// How many filter tabs there are.
pub const FILTER_TABS: usize = 4;

/// The position of a filter tab, left to right.
pub open spec fn filter_slot(f: Filter) -> nat {
    match f {
        Filter::All => 0,
        Filter::Installed => 1,
        Filter::Updates => 2,
        Filter::Favourites => 3,
    }
}

impl Filter {
    pub fn label(self) -> (r: &'static str)
        ensures
            r@ == (match self {
                Filter::All => "All"@,
                Filter::Installed => "Installed"@,
                Filter::Updates => "Updates"@,
                Filter::Favourites => "Favourites"@,
            }),
    {
        match self {
            Filter::All => "All",
            Filter::Installed => "Installed",
            Filter::Updates => "Updates",
            Filter::Favourites => "Favourites",
        }
    }

    /// The tab's position, left to right.
    pub fn index(self) -> (r: usize)
        ensures
            r == filter_slot(self),
    {
        match self {
            Filter::All => 0,
            Filter::Installed => 1,
            Filter::Updates => 2,
            Filter::Favourites => 3,
        }
    }

    /// The tab at position `i`.
    pub fn tab(i: usize) -> (f: Filter)
        requires
            i < FILTER_TABS,
        ensures
            filter_slot(f) == i,
    {
        if i == 0 {
            Filter::All
        } else if i == 1 {
            Filter::Installed
        } else if i == 2 {
            Filter::Updates
        } else {
            Filter::Favourites
        }
    }
}

/// Which top-level view the tab bar is on: the library under a filter tab,
/// or the Friends tab after them.
#[derive(Clone, Copy, PartialEq, Eq, Debug, Structural)]
pub enum View {
    Library,
    Friends,
}

/// Where a game's install sits from the UI's point of view.
#[derive(Clone, Copy, PartialEq, Eq, Debug, Structural)]
pub enum InstallPhase {
    /// No install recorded for the game.
    Idle,
    /// A download is in progress.
    Active,
    /// The download was paused.
    Paused,
}

/// Sort order for the visible list.
#[derive(Clone, Copy, PartialEq, Eq, Debug, Structural)]
pub enum Sort {
    Name,
    Installed,
}

impl Sort {
    pub fn label(self) -> (r: &'static str)
        ensures
            r@ == (match self {
                Sort::Name => "name"@,
                Sort::Installed => "installed"@,
            }),
    {
        match self {
            Sort::Name => "name",
            Sort::Installed => "installed",
        }
    }

    /// The other sort order.
    pub fn next(self) -> (r: Sort)
        ensures
            r == (match self {
                Sort::Name => Sort::Installed,
                Sort::Installed => Sort::Name,
            }),
    {
        match self {
            Sort::Name => Sort::Installed,
            Sort::Installed => Sort::Name,
        }
    }
}

/// Live tallies shown in the status bar.
#[derive(Debug)]
pub struct Counts {
    pub total: usize,
    pub visible: usize,
    pub installed: usize,
    pub updates: usize,
    pub downloading: usize,
}

// --- Which games are visible, and in what order --------------------------

/// What `SkimMatcherV2::default().fuzzy_match(choice, pattern)` returns.
pub uninterp spec fn skim_score(choice: Seq<char>, pattern: Seq<char>) -> Option<i64>;

/// `c` with an ASCII capital made small.
pub open spec fn ascii_lower(c: char) -> char {
    if 'A' <= c && c <= 'Z' { ((c as int) + 32) as char } else { c }
}

/// Whether `p` holds an ASCII capital, which makes matching case-sensitive.
pub open spec fn has_ascii_upper(p: Seq<char>) -> bool {
    exists|i: int| 0 <= i < p.len() && 'A' <= #[trigger] p[i] && p[i] <= 'Z'
}

/// Two characters match: equal when case-sensitive, else equal but for
/// ASCII case.
pub open spec fn char_matches(a: char, b: char, case_sensitive: bool) -> bool {
    if case_sensitive { a == b } else { ascii_lower(a) == ascii_lower(b) }
}

/// Whether `pattern`'s characters occur in `choice` in order (taking each
/// at its first occurrence after the previous one).
pub open spec fn in_order(choice: Seq<char>, pattern: Seq<char>, case_sensitive: bool) -> bool
    decreases choice.len(),
{
    if pattern.len() == 0 {
        true
    } else if choice.len() == 0 {
        false
    } else if char_matches(choice[0], pattern[0], case_sensitive) {
        in_order(choice.drop_first(), pattern.drop_first(), case_sensitive)
    } else {
        in_order(choice.drop_first(), pattern, case_sensitive)
    }
}

/// Whether the default skim matcher finds `pattern` in `choice`: an empty
/// pattern always; otherwise its characters in order, smart-case (case
/// counts only when the pattern holds an ASCII capital).
pub open spec fn skim_matches(choice: Seq<char>, pattern: Seq<char>) -> bool {
    pattern.len() == 0 || in_order(choice, pattern, has_ascii_upper(pattern))
}

/// Fuzzy-matches `pattern` against `choice` with the default skim matcher
/// (`SkimMatcherV2::default()`, smart case, no element limit): a score
/// exactly when [`skim_matches`] holds.
#[verifier::external_body]
fn skim_fuzzy_match(choice: &str, pattern: &str) -> (r: Option<i64>)
    ensures
        r == skim_score(choice@, pattern@),
        r is Some <==> skim_matches(choice@, pattern@),
{
    let matcher = fuzzy_matcher::skim::SkimMatcherV2::default();
    fuzzy_matcher::FuzzyMatcher::fuzzy_match(&matcher, choice, pattern)
}

/// Whether a game passes the hidden/allowed-type rules and the tab.
pub open spec fn passes(g: Game, filter: Filter, config: Config) -> bool {
    &&& !config.hidden_games@.contains(g.id)
    &&& config.allowed_games@.contains(g.game_type)
    &&& match filter {
        Filter::All => true,
        Filter::Installed => g.installed,
        Filter::Updates => g.update_available,
        Filter::Favourites => config.favorite_games@.contains(g.id),
    }
}

/// Whether a game's name matches the query (an empty query matches all).
pub open spec fn query_ok(g: Game, query: Seq<char>) -> bool {
    skim_matches(g.name@, query)
}

/// Whether item `i` is listed under the filter and query.
pub open spec fn shown(items: Seq<Game>, i: int, filter: Filter, query: Seq<char>, config: Config) -> bool {
    0 <= i < items.len() && passes(items[i], filter, config) && query_ok(items[i], query)
}

/// The sort key: the lower-cased name, preceded for the `Installed` order by
/// a mark that puts installed games first.
pub open spec fn sort_key(g: Game, sort: Sort) -> Seq<char> {
    match sort {
        Sort::Name => lowercase_of(g.name@),
        Sort::Installed => seq![if g.installed { '0' } else { '1' }] + lowercase_of(g.name@),
    }
}

/// Whether item `i` is listed before item `j`: by key, ties kept in library
/// order.
pub open spec fn before(items: Seq<Game>, sort: Sort, i: int, j: int) -> bool {
    let ki = sort_key(items[i], sort);
    let kj = sort_key(items[j], sort);
    lex_lt(ki, kj) || (ki == kj && i < j)
}

/// `s` lists exactly the shown items, each once, in `before` order.
pub open spec fn is_visible_order(s: Seq<usize>, items: Seq<Game>, filter: Filter, sort: Sort, query: Seq<char>, config: Config) -> bool {
    &&& forall|k: int| 0 <= k < s.len() ==> shown(items, #[trigger] s[k] as int, filter, query, config)
    &&& forall|i: int| shown(items, i, filter, query, config) ==> s.contains(i as usize)
    &&& forall|a: int, b: int| 0 <= a < b < s.len() ==> before(items, sort, #[trigger] s[a] as int, #[trigger] s[b] as int)
}

pub proof fn lemma_before_trans(items: Seq<Game>, sort: Sort, i: int, j: int, k: int)
    requires
        before(items, sort, i, j),
        before(items, sort, j, k),
    ensures
        before(items, sort, i, k),
{
    let ki = sort_key(items[i], sort);
    let kj = sort_key(items[j], sort);
    let kk = sort_key(items[k], sort);
    if lex_lt(ki, kj) && lex_lt(kj, kk) {
        lemma_lex_transitive(ki, kj, kk);
    }
}

pub proof fn lemma_before_asym(items: Seq<Game>, sort: Sort, i: int, j: int)
    requires
        before(items, sort, i, j),
    ensures
        !before(items, sort, j, i),
        i != j,
{
    let ki = sort_key(items[i], sort);
    let kj = sort_key(items[j], sort);
    if lex_lt(ki, kj) {
        lemma_lex_asymmetric(ki, kj);
        if i == j {
            lemma_lex_irreflexive(ki);
        }
        if kj == ki {
            lemma_lex_irreflexive(ki);
        }
    }
}

pub proof fn lemma_before_total(items: Seq<Game>, sort: Sort, i: int, j: int)
    requires
        i != j,
    ensures
        before(items, sort, i, j) || before(items, sort, j, i),
{
    lemma_lex_total(sort_key(items[i], sort), sort_key(items[j], sort));
}

proof fn lemma_sorted_unique(s: Seq<usize>, t: Seq<usize>, items: Seq<Game>, sort: Sort)
    requires
        forall|a: int, b: int| 0 <= a < b < s.len() ==> before(items, sort, #[trigger] s[a] as int, #[trigger] s[b] as int),
        forall|a: int, b: int| 0 <= a < b < t.len() ==> before(items, sort, #[trigger] t[a] as int, #[trigger] t[b] as int),
        forall|x: usize| s.contains(x) <==> t.contains(x),
    ensures
        s == t,
    decreases s.len(),
{
    if s.len() == 0 {
        if t.len() > 0 {
            assert(t.contains(t[0]));
        }
        assert(s =~= t);
    } else {
        assert(s.contains(s[0]));
        assert(t.len() > 0);
        assert(t.contains(t[0]));
        if s[0] != t[0] {
            let ks = choose|k: int| 0 <= k < t.len() && t[k] == s[0];
            let kt = choose|k: int| 0 <= k < s.len() && s[k] == t[0];
            assert(ks > 0);
            assert(kt > 0);
            assert(before(items, sort, t[0] as int, t[ks] as int));
            assert(before(items, sort, s[0] as int, s[kt] as int));
            lemma_before_asym(items, sort, t[0] as int, s[0] as int);
        }
        let s1 = s.drop_first();
        let t1 = t.drop_first();
        assert forall|x: usize| s1.contains(x) <==> t1.contains(x) by {
            if s1.contains(x) {
                let k = choose|k: int| 0 <= k < s1.len() && s1[k] == x;
                assert(s[k + 1] == x);
                assert(before(items, sort, s[0] as int, s[k + 1] as int));
                lemma_before_asym(items, sort, s[0] as int, x as int);
                assert(t.contains(x));
                let kt = choose|j: int| 0 <= j < t.len() && t[j] == x;
                assert(kt != 0);
                assert(t1[kt - 1] == x);
            }
            if t1.contains(x) {
                let k = choose|k: int| 0 <= k < t1.len() && t1[k] == x;
                assert(t[k + 1] == x);
                assert(before(items, sort, t[0] as int, t[k + 1] as int));
                lemma_before_asym(items, sort, t[0] as int, x as int);
                assert(s.contains(x));
                let ks = choose|j: int| 0 <= j < s.len() && s[j] == x;
                assert(ks != 0);
                assert(s1[ks - 1] == x);
            }
        }
        assert forall|a: int, b: int| 0 <= a < b < s1.len() implies before(items, sort, #[trigger] s1[a] as int, #[trigger] s1[b] as int) by {
            assert(s1[a] == s[a + 1] && s1[b] == s[b + 1]);
        }
        assert forall|a: int, b: int| 0 <= a < b < t1.len() implies before(items, sort, #[trigger] t1[a] as int, #[trigger] t1[b] as int) by {
            assert(t1[a] == t[a + 1] && t1[b] == t[b + 1]);
        }
        lemma_sorted_unique(s1, t1, items, sort);
        assert(s =~= seq![s[0]] + s1);
        assert(t =~= seq![t[0]] + t1);
    }
}

/// The visible order is determined: any two orders that list exactly the
/// shown games, each once, sorted, are the same.
pub proof fn lemma_visible_order_unique(s: Seq<usize>, t: Seq<usize>, items: Seq<Game>, filter: Filter, sort: Sort, query: Seq<char>, config: Config)
    requires
        is_visible_order(s, items, filter, sort, query, config),
        is_visible_order(t, items, filter, sort, query, config),
    ensures
        s == t,
{
    assert forall|x: usize| s.contains(x) <==> t.contains(x) by {
        if s.contains(x) {
            let k = choose|k: int| 0 <= k < s.len() && s[k] == x;
            assert(shown(items, s[k] as int, filter, query, config));
        }
        if t.contains(x) {
            let k = choose|k: int| 0 <= k < t.len() && t[k] == x;
            assert(shown(items, t[k] as int, filter, query, config));
        }
    }
    lemma_sorted_unique(s, t, items, sort);
}

/// The visible games (as positions in the library), in display order.
pub open spec fn visible_order(items: Seq<Game>, filter: Filter, sort: Sort, query: Seq<char>, config: Config) -> Seq<usize> {
    choose|s: Seq<usize>| is_visible_order(s, items, filter, sort, query, config)
}

fn passes_exec(g: &Game, filter: Filter, config: &Config) -> (b: bool)
    ensures
        b == passes(*g, filter, *config),
{
    if contains_id(&config.hidden_games, g.id) {
        return false;
    }
    if !contains_type(&config.allowed_games, g.game_type) {
        return false;
    }
    match filter {
        Filter::All => true,
        Filter::Installed => g.installed,
        Filter::Updates => g.update_available,
        Filter::Favourites => contains_id(&config.favorite_games, g.id),
    }
}

fn key_of(g: &Game, sort: Sort) -> (k: Vec<char>)
    ensures
        k@ == sort_key(*g, sort),
{
    let lower = to_lowercase(g.name.as_str());
    let lc = chars_of(lower.as_str());
    match sort {
        Sort::Name => lc,
        Sort::Installed => {
            let mut k: Vec<char> = Vec::new();
            k.push(if g.installed { '0' } else { '1' });
            let mut i: usize = 0;
            while i < lc.len()
                invariant
                    i <= lc.len(),
                    k@ == seq![if g.installed { '0' } else { '1' }] + lc@.take(i as int),
                decreases lc.len() - i,
            {
                k.push(lc[i]);
                i += 1;
                assert(k@ =~= seq![if g.installed { '0' } else { '1' }] + lc@.take(i as int));
            }
            assert(lc@.take(lc.len() as int) =~= lc@);
            k
        },
    }
}

/// The positions of the games listed under `filter` whose names match
/// `query`, ordered by `sort`.
pub fn visible_games(items: &Vec<Game>, filter: Filter, sort: Sort, query: &str, config: &Config) -> (r: Vec<usize>)
    ensures
        is_visible_order(r@, items@, filter, sort, query@, *config),
        r@ == visible_order(items@, filter, sort, query@, *config),
{
    let ghost its = items@;
    let mut keys: Vec<Vec<char>> = Vec::new();
    let mut j: usize = 0;
    while j < items.len()
        invariant
            its == items@,
            j <= items.len(),
            keys@.len() == j,
            forall|t: int| 0 <= t < j ==> (#[trigger] keys@[t])@ == sort_key(its[t], sort),
        decreases items.len() - j,
    {
        keys.push(key_of(&items[j], sort));
        j += 1;
    }
    let empty_query = query.unicode_len() == 0;
    let mut out: Vec<usize> = Vec::new();
    let mut i: usize = 0;
    while i < items.len()
        invariant
            its == items@,
            i <= items.len(),
            keys@.len() == items.len(),
            forall|t: int| 0 <= t < items.len() ==> (#[trigger] keys@[t])@ == sort_key(its[t], sort),
            empty_query == (query@.len() == 0),
            forall|k: int| 0 <= k < out@.len() ==> #[trigger] out@[k] < i && shown(its, out@[k] as int, filter, query@, *config),
            forall|t: int| 0 <= t < i && shown(its, t, filter, query@, *config) ==> out@.contains(t as usize),
            forall|a: int, b: int| 0 <= a < b < out@.len() ==> before(its, sort, #[trigger] out@[a] as int, #[trigger] out@[b] as int),
        decreases items.len() - i,
    {
        let g = &items[i];
        let ok = passes_exec(g, filter, config) && (empty_query || skim_fuzzy_match(g.name.as_str(), query).is_some());
        if ok {
            let mut p: usize = 0;
            while p < out.len() && !lex_less(&keys[i], &keys[out[p]])
                invariant
                    p <= out.len(),
                    keys@.len() == items.len(),
                    forall|k: int| 0 <= k < out@.len() ==> #[trigger] out@[k] < i,
                    i < items.len(),
                    forall|q: int| 0 <= q < p ==> !lex_lt(keys@[i as int]@, keys@[#[trigger] out@[q] as int]@),
                decreases out.len() - p,
            {
                p += 1;
            }
            let ghost old_out = out@;
            proof {
                assert forall|q: int| 0 <= q < p implies before(its, sort, #[trigger] old_out[q] as int, i as int) by {
                    let kq = sort_key(its[old_out[q] as int], sort);
                    let ki = sort_key(its[i as int], sort);
                    assert(!lex_lt(ki, kq));
                    lemma_lex_total(ki, kq);
                }
                if p < old_out.len() {
                    assert(lex_lt(keys@[i as int]@, keys@[old_out[p as int] as int]@));
                    assert(before(its, sort, i as int, old_out[p as int] as int));
                    assert forall|q: int| p <= q < old_out.len() implies before(its, sort, i as int, #[trigger] old_out[q] as int) by {
                        if q > p {
                            lemma_before_trans(its, sort, i as int, old_out[p as int] as int, old_out[q] as int);
                        }
                    }
                }
            }
            out.insert(p, i);
            proof {
                let s = out@;
                assert(s.len() == old_out.len() + 1);
                assert forall|k: int| 0 <= k < s.len() implies #[trigger] s[k] < i + 1 && shown(its, s[k] as int, filter, query@, *config) by {
                    if k < p {
                        assert(s[k] == old_out[k]);
                    } else if k > p {
                        assert(s[k] == old_out[k - 1]);
                    }
                }
                assert forall|a: int, b: int| 0 <= a < b < s.len() implies before(its, sort, #[trigger] s[a] as int, #[trigger] s[b] as int) by {
                    if b < p {
                        assert(s[a] == old_out[a] && s[b] == old_out[b]);
                    } else if b == p {
                        assert(s[a] == old_out[a]);
                    } else if a < p {
                        assert(s[a] == old_out[a] && s[b] == old_out[b - 1]);
                        lemma_before_trans(its, sort, old_out[a] as int, i as int, old_out[b - 1] as int);
                    } else if a == p {
                        assert(s[b] == old_out[b - 1]);
                    } else {
                        assert(s[a] == old_out[a - 1] && s[b] == old_out[b - 1]);
                    }
                }
                assert forall|t: int| 0 <= t < i + 1 && shown(its, t, filter, query@, *config) implies s.contains(t as usize) by {
                    if t == i {
                        assert(s[p as int] == i);
                    } else {
                        assert(old_out.contains(t as usize));
                        let k = choose|k: int| 0 <= k < old_out.len() && old_out[k] == t as usize;
                        if k < p {
                            assert(s[k] == t as usize);
                        } else {
                            assert(s[k + 1] == t as usize);
                        }
                    }
                }
            }
        } else {
            assert(!shown(its, i as int, filter, query@, *config));
        }
        i += 1;
    }
    proof {
        let s = out@;
        assert(is_visible_order(s, its, filter, sort, query@, *config));
        let c = visible_order(its, filter, sort, query@, *config);
        assert(is_visible_order(c, its, filter, sort, query@, *config));
        lemma_visible_order_unique(s, c, its, filter, sort, query@, *config);
    }
    out
}


// --- Status badges -------------------------------------------------------

/// The colour family of a status badge.
#[derive(Clone, Copy, PartialEq, Eq, Debug, Structural)]
pub enum BadgeTone {
    Warn,
    Accent,
    Failed,
    Online,
    Dim,
}

/// What a game's status badge looks like.
#[derive(Debug)]
pub struct Badge {
    pub glyph: &'static str,
    pub tone: BadgeTone,
    /// Short trailing note (a download percentage, `update`, `failed`).
    pub note: Option<String>,
}

/// The first of the words `ws` that ends with `%`.
pub open spec fn first_percent(ws: Seq<Seq<char>>) -> Option<Seq<char>>
    decreases ws.len(),
{
    if ws.len() == 0 {
        None
    } else if ws[0].len() > 0 && ws[0].last() == '%' {
        Some(ws[0])
    } else {
        first_percent(ws.drop_first())
    }
}

/// The first whitespace-separated token of `s` that ends with `%`.
pub open spec fn percent_token(s: Seq<char>) -> Option<Seq<char>> {
    first_percent(crate::ui::words::words(s))
}

fn find_percent(s: &str) -> (r: Option<String>)
    ensures
        r is Some <==> percent_token(s@) is Some,
        r is Some ==> r->0@ == percent_token(s@)->0,
{
    let chars = chars_of(s);
    let ws = crate::ui::words::split_words(&chars);
    let ghost wsv = crate::ui::words::words(s@);
    let mut i: usize = 0;
    assert(wsv.skip(0) =~= wsv);
    while i < ws.len()
        invariant
            i <= ws.len(),
            ws@.len() == wsv.len(),
            forall|t: int| 0 <= t < ws@.len() ==> #[trigger] ws@[t]@ == wsv[t],
            percent_token(s@) == first_percent(wsv.skip(i as int)),
        decreases ws.len() - i,
    {
        assert(wsv.skip(i as int)[0] == wsv[i as int]);
        assert(wsv.skip(i as int).drop_first() =~= wsv.skip(i + 1));
        if ws[i].len() > 0 && ws[i][ws[i].len() - 1] == '%' {
            let r = crate::text::string_of(&ws[i]);
            return Some(r);
        }
        i += 1;
    }
    None
}

/// The state a paused download shows: `paused`, with the percentage the
/// download had reached when its state held one.
pub open spec fn paused_state(state: Seq<char>) -> Seq<char> {
    match percent_token(state) {
        Some(p) => "paused "@ + p,
        None => "paused"@,
    }
}

/// The live status of a download just paused: [`paused_state`] of its
/// current state (empty without one), keeping its install directory.
pub fn paused_status(current: &Option<GameStatus>) -> (r: GameStatus)
    ensures
        r.state@ == paused_state(match current { Some(s) => s.state@, None => Seq::empty() }),
        r.installdir@ == (match current { Some(s) => s.installdir@, None => Seq::empty() }),
{
    let pct = match current {
        Some(s) => find_percent(s.state.as_str()),
        None => None,
    };
    proof {
        reveal_strlit("paused ");
        reveal_strlit("paused");
    }
    let text = match pct {
        Some(p) => concat("paused ", p.as_str()),
        None => owned("paused"),
    };
    GameStatus::msg(current, text.as_str())
}

/// The badge of a game in `state` (its current state text): a pause glyph
/// with the percentage for a paused download; a download glyph with the
/// percentage while downloading, processing or verifying; a cross for a
/// failure; an up arrow for an update; a dot for an installed or ran game;
/// a circle otherwise.
pub open spec fn badge_spec(state: Seq<char>, installed: bool, update_available: bool) -> (Seq<char>, BadgeTone, Option<Seq<char>>) {
    if has_prefix(state, "paused"@) {
        ("\u{23f8}"@, BadgeTone::Warn, percent_token(state))
    } else if has_infix(state, "downloading"@) || has_infix(state, "processing"@) || has_infix(state, "verifying"@) {
        ("\u{2b07}"@, BadgeTone::Accent, percent_token(state))
    } else if has_infix(state, "Failed"@) {
        ("\u{2716}"@, BadgeTone::Failed, Some("failed"@))
    } else if has_infix(state, "update"@) || update_available {
        ("\u{25b2}"@, BadgeTone::Warn, Some("update"@))
    } else if installed || state == "installed"@ || has_infix(state, "Installed"@) || has_infix(state, "ran"@) {
        ("\u{25cf}"@, BadgeTone::Online, None)
    } else {
        ("\u{25cb}"@, BadgeTone::Dim, None)
    }
}

pub open spec fn badge_matches(b: Badge, spec: (Seq<char>, BadgeTone, Option<Seq<char>>)) -> bool {
    &&& b.glyph@ == spec.0
    &&& b.tone == spec.1
    &&& (b.note is Some <==> spec.2 is Some)
    &&& (b.note is Some ==> b.note->0@ == spec.2->0)
}

/// A pending update shows: a game with an update whose state is not paused,
/// not a running download, processing or verification and not a failure
/// gets the up arrow, in the warning colour, with the note `update`,
/// whether or not it is installed.
pub proof fn lemma_update_badge(state: Seq<char>, installed: bool)
    requires
        !has_prefix(state, "paused"@),
        !has_infix(state, "downloading"@),
        !has_infix(state, "processing"@),
        !has_infix(state, "verifying"@),
        !has_infix(state, "Failed"@),
    ensures
        badge_spec(state, installed, true) == ("\u{25b2}"@, BadgeTone::Warn, Some("update"@)),
{
}

/// An installed game without an update, in a quiet state (not paused,
/// downloading, processing, verifying, failed or mentioning an update),
/// gets the filled dot in the online colour, with no note.
pub proof fn lemma_installed_badge(state: Seq<char>)
    requires
        !has_prefix(state, "paused"@),
        !has_infix(state, "downloading"@),
        !has_infix(state, "processing"@),
        !has_infix(state, "verifying"@),
        !has_infix(state, "Failed"@),
        !has_infix(state, "update"@),
    ensures
        badge_spec(state, true, false) == ("\u{25cf}"@, BadgeTone::Online, None::<Seq<char>>),
{
}

/// Classifies a game into its status badge.
pub fn badge(game: &Game) -> (b: Badge)
    ensures
        badge_matches(b, badge_spec(state_of(*game), game.installed, game.update_available)),
{
    let state = game.state_text();
    let st = state.as_str();
    if starts_with(st, "paused") {
        Badge { glyph: "\u{23f8}", tone: BadgeTone::Warn, note: find_percent(st) }
    } else if contains_str(st, "downloading") || contains_str(st, "processing") || contains_str(st, "verifying") {
        Badge { glyph: "\u{2b07}", tone: BadgeTone::Accent, note: find_percent(st) }
    } else if contains_str(st, "Failed") {
        Badge { glyph: "\u{2716}", tone: BadgeTone::Failed, note: Some(owned("failed")) }
    } else if contains_str(st, "update") || game.update_available {
        Badge { glyph: "\u{25b2}", tone: BadgeTone::Warn, note: Some(owned("update")) }
    } else if game.installed || crate::text::str_eq(st, "installed") || contains_str(st, "Installed") || contains_str(st, "ran") {
        Badge { glyph: "\u{25cf}", tone: BadgeTone::Online, note: None }
    } else {
        Badge { glyph: "\u{25cb}", tone: BadgeTone::Dim, note: None }
    }
}

/// The install phase a recorded game is in, from its state text.
pub open spec fn phase_of_state(state: Seq<char>) -> InstallPhase {
    if has_prefix(state, "paused"@) {
        InstallPhase::Paused
    } else if has_infix(state, "downloading"@) || has_infix(state, "processing"@) || has_infix(state, "queued"@)
        || has_infix(state, "verifying"@) || has_infix(state, "moving"@) {
        InstallPhase::Active
    } else {
        InstallPhase::Idle
    }
}

/// A recorded install is running while its state text shows it at work:
/// unless paused, a state mentioning downloading, processing, queued,
/// verifying or moving is in the active phase; a paused one is paused; and
/// one that mentions none of these is idle.
pub proof fn lemma_phase_of_state(state: Seq<char>)
    ensures
        has_prefix(state, "paused"@) ==> phase_of_state(state) == InstallPhase::Paused,
        !has_prefix(state, "paused"@) && (has_infix(state, "verifying"@) || has_infix(state, "downloading"@)
            || has_infix(state, "processing"@) || has_infix(state, "queued"@) || has_infix(state, "moving"@))
            ==> phase_of_state(state) == InstallPhase::Active,
        !has_prefix(state, "paused"@) && !has_infix(state, "verifying"@) && !has_infix(state, "downloading"@)
            && !has_infix(state, "processing"@) && !has_infix(state, "queued"@) && !has_infix(state, "moving"@)
            ==> phase_of_state(state) == InstallPhase::Idle,
{
}

/// The install phase of a game the browser has an install recorded for
/// follows its state: one verifying (and not paused) can be paused and
/// cancelled like one downloading.
pub proof fn lemma_recorded_verifying_is_active(installs: Seq<InstallRecord>, g: Game)
    requires
        is_recorded(installs, g.id),
        !has_prefix(state_of(g), "paused"@),
        has_infix(state_of(g), "verifying"@),
    ensures
        (if is_recorded(installs, g.id) { phase_of_state(state_of(g)) } else { InstallPhase::Idle }) == InstallPhase::Active,
{
}

fn phase_from_state(st: &str) -> (p: InstallPhase)
    ensures
        p == phase_of_state(st@),
{
    if starts_with(st, "paused") {
        InstallPhase::Paused
    } else if contains_str(st, "downloading") || contains_str(st, "processing") || contains_str(st, "queued")
        || contains_str(st, "verifying") || contains_str(st, "moving") {
        InstallPhase::Active
    } else {
        InstallPhase::Idle
    }
}


/// The text of an optional string.
pub open spec fn opt_view(o: Option<String>) -> Option<Seq<char>> {
    match o {
        Some(s) => Some(s@),
        None => None,
    }
}

/// What Space asks of a download.
#[derive(Debug, Clone, PartialEq, Eq)]
pub enum InstallJob {
    Nothing,
    /// Stop the download of this game where it is (it stays on disk).
    Pause(i32),
    /// Start the download of this game again, into this library.
    Resume(i32, Option<String>),
}

// --- The browse state ----------------------------------------------------

/// An install this session started, with the library folder it went to.
#[derive(Debug)]
pub struct InstallRecord {
    pub app_id: i32,
    pub library: Option<String>,
}

/// The browse state: the library with its filter, query, sort and
/// selection, and the state of every overlay.
pub struct Browser {
    pub items: Vec<Game>,
    /// The preferences that decide hidden games and favourites.
    pub config: Config,
    pub query: String,
    pub filter: Filter,
    pub sort: Sort,
    /// The selected row of the visible list.
    pub selected: Option<usize>,
    /// Whether typing edits the query.
    pub filtering: bool,
    pub show_help: bool,
    pub help_scroll: u16,
    pub expand_description: bool,
    pub achievements: AchievementsPane,
    pub view: View,
    /// A one-line notice shown until the next keypress.
    pub notice: Option<String>,
    pub installs: Vec<InstallRecord>,
    pub confirm_install: bool,
    pub confirm_uninstall: bool,
    pub show_install_picker: bool,
    pub install_libraries: Vec<LibraryJson>,
    pub install_estimate: Option<u64>,
    pub install_picker_index: usize,
    pub show_actions: bool,
    pub actions_index: usize,
    pub actions_filter: String,
    pub actions_app_id: i32,
    pub friends: FriendsPanel,
    pub chat: ChatPane,
    pub show_dlc: bool,
    pub dlc: Vec<DlcJson>,
    pub dlc_index: usize,
    pub dlc_app_id: i32,
    pub show_branches: bool,
    pub branches: Vec<BranchJson>,
    pub branch_index: usize,
    pub branch_app_id: i32,
    pub show_depots: bool,
    pub depots: Vec<DepotJson>,
    pub depots_scroll: usize,
    pub show_launch: bool,
    pub launch_options: Vec<LaunchOptionJson>,
    pub launch_scroll: usize,
    pub show_inventory: bool,
    pub inventory: Vec<InventoryItemJson>,
    pub inv_scroll: usize,
    pub show_market: bool,
    pub market: Vec<MarketListingJson>,
    pub market_scroll: usize,
    pub market_search: MarketSearchPane,
    pub workshop: WorkshopPane,
    pub move_prompt: PromptState,
    pub relink_prompt: PromptState,
    pub import_prompt: PromptState,
    pub show_proton: bool,
    pub protons: Vec<ProtonJson>,
    pub proton_index: usize,
    pub confirm_proton_uninstall: bool,
    pub show_running: bool,
    pub running: Vec<RunningJson>,
    pub running_index: usize,
    pub show_cloud: bool,
    pub cloud_files: Vec<CloudFileJson>,
    pub cloud_status: String,
    pub show_account: bool,
    pub account_info: Option<AccountJson>,
    pub show_config: bool,
    pub config_info: Option<ConfigJson>,
    pub config_proxy: Option<ProxyJson>,
    pub config_proxy_input: Option<String>,
    pub show_wallet: bool,
    pub wallet_info: Option<WalletJson>,
    pub versions: VersionsPane,
    pub game_config: GameConfigPane,
    pub collections: CollectionsPane,
    pub engine: EnginePane,
}

/// The row a reset selection lands on: the first, if any.
pub open spec fn first_row(len: nat) -> Option<usize> {
    if len == 0 { None } else { Some(0usize) }
}

/// The selection kept within a list of `len` rows: none for an empty list,
/// the last row when past the end, the first when there was none.
pub open spec fn clamped(sel: Option<usize>, len: nat) -> Option<usize> {
    if len == 0 {
        None
    } else {
        match sel {
            Some(i) => if i >= len { Some((len - 1) as usize) } else { Some(i) },
            None => Some(0usize),
        }
    }
}

/// The library chosen for the first recorded install of `app_id`; nothing
/// without a record or without a chosen library.
pub open spec fn library_of(installs: Seq<InstallRecord>, app_id: i32) -> Option<String>
    decreases installs.len(),
{
    if installs.len() == 0 {
        None
    } else if installs[0].app_id == app_id {
        installs[0].library
    } else {
        library_of(installs.drop_first(), app_id)
    }
}

/// A paused download resumes into the library it was started in: after
/// [`Browser::begin_install`] records `app_id` (as the one record of it, the
/// last), [`Browser::install_library_for`] gives back its `library`.
pub proof fn lemma_resume_into_same_library(installs: Seq<InstallRecord>, app_id: i32, library: Option<String>)
    requires
        installs.len() > 0,
        installs.last().app_id == app_id,
        installs.last().library == library,
        forall|k: int| 0 <= k < installs.len() - 1 ==> (#[trigger] installs[k]).app_id != app_id,
    ensures
        library_of(installs, app_id) == library,
    decreases installs.len(),
{
    if installs.len() > 1 {
        let rest = installs.drop_first();
        assert(installs[0].app_id != app_id);
        assert forall|k: int| 0 <= k < rest.len() - 1 implies (#[trigger] rest[k]).app_id != app_id by {
            assert(rest[k] == installs[k + 1]);
        }
        lemma_resume_into_same_library(rest, app_id, library);
    }
}

impl Browser {
    /// The visible games in display order, as positions in the library.
    pub open spec fn visible_spec(&self) -> Seq<usize> {
        visible_order(self.items_spec(), self.filter, self.sort, self.query@, self.config)
    }

    pub open spec fn vlen(&self) -> nat {
        self.visible_spec().len()
    }

    /// The library.
    pub open spec fn items_spec(&self) -> Seq<Game> {
        self.items@
    }

    /// Nothing is open over the list: no overlay, prompt, pane or
    /// confirmation, no text being typed, no notice and no install tracked.
    pub open spec fn all_closed(&self) -> bool {
        &&& !self.filtering && !self.show_help && self.help_scroll == 0 && !self.expand_description
        &&& !self.achievements.show && self.notice is None && self.installs@.len() == 0
        &&& !self.confirm_install && !self.confirm_uninstall && !self.show_install_picker && !self.show_actions
        &&& !self.friends.show_add && !self.friends.confirm_remove && !self.chat.show
        &&& !self.show_dlc && !self.show_branches && !self.show_depots && !self.show_launch
        &&& !self.show_inventory && !self.show_market && !self.market_search.show && !self.workshop.show
        &&& !self.move_prompt.show && !self.relink_prompt.show && !self.import_prompt.show
        &&& !self.show_proton && !self.confirm_proton_uninstall && !self.show_running && !self.show_cloud
        &&& !self.show_account && !self.show_config && self.config_proxy_input is None && !self.show_wallet
        &&& !self.versions.show && !self.game_config.show && !self.collections.show && !self.engine.show
    }

    /// Whether an overlay, prompt or confirmation covers the detail pane
    /// (artwork and details are then not loaded).
    pub open spec fn covered(&self) -> bool {
        ||| self.show_help || self.show_dlc || self.show_account || self.show_config
        ||| self.achievements.show || self.show_cloud || self.show_branches || self.show_depots
        ||| self.chat.show || self.show_inventory || self.show_launch || self.show_market
        ||| self.market_search.show || self.move_prompt.show || self.relink_prompt.show || self.import_prompt.show
        ||| self.show_proton || self.show_running || self.show_wallet || self.workshop.show
        ||| self.friends.show_add || self.friends.confirm_remove || self.confirm_uninstall
        ||| self.show_install_picker || self.confirm_install
    }

    /// A browser over `items` with `config`, every overlay closed, the first
    /// visible row selected.
    pub fn new(items: Vec<Game>, config: Config) -> (b: Browser)
        ensures
            b.items_spec() == items@,
            b.config == config,
            b.query@ == Seq::<char>::empty(),
            b.filter == Filter::All,
            b.sort == Sort::Name,
            b.view == View::Library,
            b.selected == first_row(b.vlen()),
            b.all_closed(),
            b.installs@.len() == 0,
            b.friends.list@.len() == 0 && !b.friends.loaded && !b.friends.loading && b.friends.search_gen == 0,
            b.market_search.results@.len() == 0 && b.market_search.gen == 0,
            b.versions.manifests@.len() == 0 && b.game_config.protons@.len() == 0,
    {
        let mut b = Browser {
            items,
            config,
            query: String::new(),
            filter: Filter::All,
            sort: Sort::Name,
            selected: None,
            filtering: false,
            show_help: false,
            help_scroll: 0,
            expand_description: false,
            achievements: AchievementsPane::closed(),
            view: View::Library,
            notice: None,
            installs: Vec::new(),
            confirm_install: false,
            confirm_uninstall: false,
            show_install_picker: false,
            install_libraries: Vec::new(),
            install_estimate: None,
            install_picker_index: 0,
            show_actions: false,
            actions_index: 0,
            actions_filter: String::new(),
            actions_app_id: 0,
            friends: FriendsPanel::empty(),
            chat: ChatPane::closed(),
            show_dlc: false,
            dlc: Vec::new(),
            dlc_index: 0,
            dlc_app_id: 0,
            show_branches: false,
            branches: Vec::new(),
            branch_index: 0,
            branch_app_id: 0,
            show_depots: false,
            depots: Vec::new(),
            depots_scroll: 0,
            show_launch: false,
            launch_options: Vec::new(),
            launch_scroll: 0,
            show_inventory: false,
            inventory: Vec::new(),
            inv_scroll: 0,
            show_market: false,
            market: Vec::new(),
            market_scroll: 0,
            market_search: MarketSearchPane::empty(),
            workshop: WorkshopPane::empty(),
            move_prompt: PromptState::closed(),
            relink_prompt: PromptState::closed(),
            import_prompt: PromptState::closed(),
            show_proton: false,
            protons: Vec::new(),
            proton_index: 0,
            confirm_proton_uninstall: false,
            show_running: false,
            running: Vec::new(),
            running_index: 0,
            show_cloud: false,
            cloud_files: Vec::new(),
            cloud_status: String::new(),
            show_account: false,
            account_info: None,
            show_config: false,
            config_info: None,
            config_proxy: None,
            config_proxy_input: None,
            show_wallet: false,
            wallet_info: None,
            versions: VersionsPane::empty(),
            game_config: GameConfigPane::empty(),
            collections: CollectionsPane::empty(),
            engine: EnginePane::empty(),
        };
        let len = b.visible_len();
        b.selected = if len == 0 { None } else { Some(0) };
        b
    }

    /// Whether the detail pane is covered, as [`Browser::covered`] says.
    pub fn overlay_open(&self) -> (b: bool)
        ensures
            b == self.covered(),
    {
        self.show_help || self.show_dlc || self.show_account || self.show_config
            || self.achievements.show || self.show_cloud || self.show_branches || self.show_depots
            || self.chat.show || self.show_inventory || self.show_launch || self.show_market
            || self.market_search.show || self.move_prompt.show || self.relink_prompt.show || self.import_prompt.show
            || self.show_proton || self.show_running || self.show_wallet || self.workshop.show
            || self.friends.show_add || self.friends.confirm_remove || self.confirm_uninstall
            || self.show_install_picker || self.confirm_install
    }

    /// The library.
    pub fn items(&self) -> (r: &Vec<Game>)
        ensures
            r@ == self.items_spec(),
    {
        &self.items
    }

    /// Mutable access to one game of the library (e.g. to update its live
    /// status); the library keeps its length.
    pub fn set_status(&mut self, index: usize, status: Option<GameStatus>)
        requires
            index < old(self).items_spec().len(),
        ensures
            final(self).items_spec() == old(self).items_spec().update(index as int, Game { status, ..old(self).items_spec()[index as int] }),
            final(self).selected == old(self).selected,
            final(self).config == old(self).config,
    {
        let mut g = self.items.remove(index);
        g.status = status;
        self.items.insert(index, g);
        assert(self.items@ =~= old(self).items@.update(index as int, Game { status, ..old(self).items@[index as int] }));
    }

    /// Replaces the library, keeping filter, query and sort, and keeps the
    /// selection in range.
    pub fn set_items(&mut self, items: Vec<Game>)
        ensures
            final(self).items_spec() == items@,
            final(self).filter == old(self).filter,
            final(self).sort == old(self).sort,
            final(self).query == old(self).query,
            final(self).config == old(self).config,
            final(self).selected == clamped(old(self).selected, final(self).vlen()),
    {
        self.items = items;
        self.clamp_selection();
    }

    /// Replaces the preferences (after a favourite or hide), keeping the
    /// selection in range.
    pub fn set_config(&mut self, config: Config)
        ensures
            final(self).items_spec() == old(self).items_spec(),
            final(self).config == config,
            final(self).filter == old(self).filter,
            final(self).sort == old(self).sort,
            final(self).query == old(self).query,
            final(self).selected == clamped(old(self).selected, final(self).vlen()),
    {
        self.config = config;
        self.clamp_selection();
    }

    pub fn is_empty(&self) -> (b: bool)
        ensures
            b == (self.items_spec().len() == 0),
    {
        self.items.len() == 0
    }

    /// The visible games in display order, as positions in the library.
    pub fn visible(&self) -> (r: Vec<usize>)
        ensures
            r@ == self.visible_spec(),
            is_visible_order(r@, self.items_spec(), self.filter, self.sort, self.query@, self.config),
    {
        visible_games(&self.items, self.filter, self.sort, self.query.as_str(), &self.config)
    }

    pub fn visible_len(&self) -> (n: usize)
        ensures
            n == self.vlen(),
    {
        self.visible().len()
    }

    /// The selected game, if the selection is within the visible list.
    pub fn selected(&self) -> (r: Option<&Game>)
        ensures
            r is Some <==> (self.selected is Some && self.selected->0 < self.vlen()),
            r is Some ==> *r->0 == self.items_spec()[self.visible_spec()[self.selected->0 as int] as int],
    {
        let v = self.visible();
        match self.selected {
            Some(i) => {
                if i < v.len() {
                    let k = v[i];
                    proof {
                        assert(shown(self.items@, v@[i as int] as int, self.filter, self.query@, self.config));
                    }
                    Some(&self.items[k])
                } else {
                    None
                }
            },
            None => None,
        }
    }

    pub fn selected_index(&self) -> (r: Option<usize>)
        ensures
            r == self.selected,
    {
        self.selected
    }

    #[verifier::spinoff_prover]
    #[verifier::rlimit(50)]
    fn reset_selection(&mut self)
        ensures
            final(self).selected == first_row(final(self).vlen()),
            final(self).items_spec() == old(self).items_spec(),
            final(self).config == old(self).config,
            final(self).query == old(self).query,
            final(self).filter == old(self).filter,
            final(self).sort == old(self).sort,
            final(self).view == old(self).view,
            *final(self) == (Browser { selected: final(self).selected, ..*old(self) }),
    {
        let len = self.visible_len();
        self.selected = if len == 0 { None } else { Some(0) };
    }

    /// Keeps the selection within the (possibly shrunk) visible range.
    fn clamp_selection(&mut self)
        ensures
            final(self).selected == clamped(old(self).selected, final(self).vlen()),
            final(self).items_spec() == old(self).items_spec(),
            final(self).config == old(self).config,
            final(self).query == old(self).query,
            final(self).filter == old(self).filter,
            final(self).sort == old(self).sort,
    {
        let len = self.visible_len();
        self.selected = if len == 0 {
            None
        } else {
            match self.selected {
                Some(i) => if i >= len { Some(len - 1) } else { Some(i) },
                None => Some(0),
            }
        };
    }

    /// Moves the selection down one row, wrapping to the top.
    pub fn next(&mut self)
        ensures
            final(self).selected == (if old(self).vlen() == 0 {
                None
            } else {
                match old(self).selected {
                    Some(i) => if i + 1 < old(self).vlen() { Some((i + 1) as usize) } else { Some(0usize) },
                    None => Some(0usize),
                }
            }),
            final(self).visible_spec() == old(self).visible_spec(),
    {
        let len = self.visible_len();
        if len == 0 {
            self.selected = None;
            return;
        }
        let i = match self.selected {
            Some(i) => if i < len - 1 { i + 1 } else { 0 },
            None => 0,
        };
        self.selected = Some(i);
    }

    /// Moves the selection up one row, wrapping to the bottom.
    pub fn previous(&mut self)
        ensures
            final(self).selected == (if old(self).vlen() == 0 {
                None
            } else {
                match old(self).selected {
                    Some(i) => if i == 0 { Some((old(self).vlen() - 1) as usize) } else { Some((i - 1) as usize) },
                    None => Some((old(self).vlen() - 1) as usize),
                }
            }),
            final(self).visible_spec() == old(self).visible_spec(),
    {
        let len = self.visible_len();
        if len == 0 {
            self.selected = None;
            return;
        }
        let i = match self.selected {
            Some(0) | None => len - 1,
            Some(i) => i - 1,
        };
        self.selected = Some(i);
    }

    /// Moves the selection down `page` rows, stopping at the last.
    pub fn page_down(&mut self, page: usize)
        ensures
            old(self).vlen() == 0 ==> final(self).selected == old(self).selected,
            old(self).vlen() > 0 ==> final(self).selected == Some(
                ({
                    let i = match old(self).selected { Some(i) => i as int, None => 0 };
                    if i + page < old(self).vlen() - 1 { i + page } else { old(self).vlen() - 1 }
                }) as usize,
            ),
            final(self).visible_spec() == old(self).visible_spec(),
    {
        let len = self.visible_len();
        if len == 0 {
            return;
        }
        let i = match self.selected {
            Some(i) => i,
            None => 0,
        };
        let target = if page < len - 1 && i < len - 1 - page { i + page } else { len - 1 };
        self.selected = Some(target);
    }

    /// Moves the selection up `page` rows, stopping at the first.
    pub fn page_up(&mut self, page: usize)
        ensures
            old(self).vlen() == 0 ==> final(self).selected == old(self).selected,
            old(self).vlen() > 0 ==> final(self).selected == Some(
                ({
                    let i = match old(self).selected { Some(i) => i as int, None => 0 };
                    if i >= page { i - page } else { 0 }
                }) as usize,
            ),
            final(self).visible_spec() == old(self).visible_spec(),
    {
        let len = self.visible_len();
        if len == 0 {
            return;
        }
        let i = match self.selected {
            Some(i) => i,
            None => 0,
        };
        self.selected = Some(if i >= page { i - page } else { 0 });
    }

    /// Selects the first row, if any.
    pub fn home(&mut self)
        ensures
            final(self).selected == (if old(self).vlen() > 0 { Some(0usize) } else { old(self).selected }),
            final(self).visible_spec() == old(self).visible_spec(),
    {
        if self.visible_len() > 0 {
            self.selected = Some(0);
        }
    }

    /// Selects the last row, if any.
    pub fn end(&mut self)
        ensures
            final(self).selected == (if old(self).vlen() > 0 { Some((old(self).vlen() - 1) as usize) } else { old(self).selected }),
            final(self).visible_spec() == old(self).visible_spec(),
    {
        let len = self.visible_len();
        if len > 0 {
            self.selected = Some(len - 1);
        }
    }

    /// Selects visible row `i` (e.g. from a mouse click), if in range.
    pub fn select_index(&mut self, i: usize)
        ensures
            final(self).selected == (if i < old(self).vlen() { Some(i) } else { old(self).selected }),
            final(self).visible_spec() == old(self).visible_spec(),
    {
        if i < self.visible_len() {
            self.selected = Some(i);
        }
    }

    /// Re-clamps the selection after the visible set may have changed.
    pub fn refresh(&mut self)
        ensures
            final(self).selected == clamped(old(self).selected, old(self).vlen()),
            final(self).visible_spec() == old(self).visible_spec(),
    {
        self.clamp_selection();
    }

    /// Selects a library filter tab: back to the Library view, first row.
    pub fn set_filter(&mut self, filter: Filter)
        ensures
            final(self).view == View::Library,
            final(self).filter == filter,
            final(self).query == old(self).query,
            final(self).sort == old(self).sort,
            final(self).items_spec() == old(self).items_spec(),
            final(self).config == old(self).config,
            final(self).selected == first_row(final(self).vlen()),
    {
        self.view = View::Library;
        self.filter = filter;
        self.reset_selection();
    }

    /// The active tab along the ring of the filter tabs followed by the
    /// Friends tab.
    pub fn tab_index(&self) -> (r: usize)
        ensures
            r == (match self.view {
                View::Library => filter_slot(self.filter),
                View::Friends => FILTER_TABS as nat,
            }),
    {
        match self.view {
            View::Library => self.filter.index(),
            View::Friends => FILTER_TABS,
        }
    }

    /// Enters the Friends view. The roster is requested the first time
    /// (and the panel shows that it is loading); re-entering keeps it.
    pub fn enter_friends(&mut self)
        ensures
            final(self).view == View::Friends,
            final(self).filter == old(self).filter,
            final(self).selected == old(self).selected,
            final(self).friends.entered_from(old(self).friends),
    {
        self.view = View::Friends;
        self.friends.enter();
    }

    /// Steps along the tab ring (the filter tabs, then Friends), wrapping.
    pub fn cycle_filter(&mut self, forward: bool)
        ensures
            ({
                let slots = FILTER_TABS + 1;
                let idx = match old(self).view {
                    View::Library => filter_slot(old(self).filter),
                    View::Friends => FILTER_TABS as nat,
                };
                let next = if forward { (idx + 1) % (slots as nat) } else { ((idx + slots - 1) as nat) % (slots as nat) };
                if next == FILTER_TABS {
                    final(self).view == View::Friends && final(self).filter == old(self).filter
                } else {
                    final(self).view == View::Library && filter_slot(final(self).filter) == next
                        && final(self).selected == first_row(final(self).vlen())
                }
            }),
    {
        let slots = FILTER_TABS + 1;
        let idx = self.tab_index();
        let next = if forward { (idx + 1) % slots } else { (idx + slots - 1) % slots };
        if next == FILTER_TABS {
            self.enter_friends();
        } else {
            self.set_filter(Filter::tab(next));
        }
    }

    /// Switches to the other sort order.
    pub fn cycle_sort(&mut self)
        ensures
            final(self).sort == (match old(self).sort { Sort::Name => Sort::Installed, Sort::Installed => Sort::Name }),
            final(self).filter == old(self).filter,
            final(self).query == old(self).query,
            final(self).selected == clamped(old(self).selected, final(self).vlen()),
    {
        self.sort = self.sort.next();
        self.clamp_selection();
    }

    /// Types a character into the query; the selection goes to the first
    /// row.
    pub fn push_query(&mut self, c: char)
        ensures
            final(self).query@ == old(self).query@.push(c),
            final(self).filter == old(self).filter,
            final(self).selected == first_row(final(self).vlen()),
            *final(self) == (Browser { query: final(self).query, selected: final(self).selected, ..*old(self) }),
    {
        push_char(&mut self.query, c);
        self.reset_selection();
    }

    /// Deletes the last character of the query.
    pub fn pop_query(&mut self)
        ensures
            final(self).query@ == (if old(self).query@.len() > 0 { old(self).query@.drop_last() } else { old(self).query@ }),
            final(self).filter == old(self).filter,
            final(self).selected == first_row(final(self).vlen()),
            *final(self) == (Browser { query: final(self).query, selected: final(self).selected, ..*old(self) }),
    {
        pop_char(&mut self.query);
        self.reset_selection();
    }

    /// Clears the query.
    pub fn clear_query(&mut self)
        ensures
            final(self).query@ == Seq::<char>::empty(),
            final(self).filter == old(self).filter,
            final(self).selected == first_row(final(self).vlen()),
            *final(self) == (Browser { query: final(self).query, selected: final(self).selected, ..*old(self) }),
    {
        self.query = String::new();
        self.reset_selection();
    }
}

/// Stepping the tab ring forward then back returns to the same tab.
pub proof fn lemma_tab_ring_round_trip(idx: nat)
    requires
        idx <= FILTER_TABS,
    ensures
        ({
            let slots = (FILTER_TABS + 1) as nat;
            let fwd = (idx + 1) % slots;
            ((fwd + slots - 1) as nat) % slots == idx
        }),
{
    assert(FILTER_TABS + 1 == 5);
    if idx == 0 {
        assert((0nat + 1) % 5 == 1);
        assert((1nat + 5 - 1) % 5 == 0);
    } else if idx == 1 {
        assert((1nat + 1) % 5 == 2);
        assert((2nat + 5 - 1) % 5 == 1);
    } else if idx == 2 {
        assert((2nat + 1) % 5 == 3);
        assert((3nat + 5 - 1) % 5 == 2);
    } else if idx == 3 {
        assert((3nat + 1) % 5 == 4);
        assert((4nat + 5 - 1) % 5 == 3);
    } else {
        assert((4nat + 1) % 5 == 0);
        assert((0nat + 5 - 1) % 5 == 4);
    }
}


// --- Status-bar tallies --------------------------------------------------

/// Whether a state text reads as a running download.
pub open spec fn downloading_state(state: Seq<char>) -> bool {
    has_infix(state, "downloading"@) || has_infix(state, "processing"@)
}

/// Whether a listable game counts towards tally `kind`: 0 every listable
/// game, 1 the installed ones, 2 those with an update, 3 those downloading.
pub open spec fn tallied(g: Game, config: Config, kind: nat) -> bool {
    &&& passes(g, Filter::All, config)
    &&& (kind == 0 || (kind == 1 && g.installed) || (kind == 2 && g.update_available)
        || (kind == 3 && downloading_state(state_of(g))))
}

/// How many games of `items` count towards tally `kind`.
pub open spec fn tally(items: Seq<Game>, config: Config, kind: nat) -> nat
    decreases items.len(),
{
    if items.len() == 0 {
        0
    } else {
        tally(items.drop_last(), config, kind) + if tallied(items.last(), config, kind) { 1nat } else { 0nat }
    }
}

/// Whether a listable game counts as downloading: its state text mentions
/// downloading or processing.
pub open spec fn is_downloading_game(g: Game, config: Config) -> bool {
    passes(g, Filter::All, config) && (has_infix(state_of(g), "downloading"@) || has_infix(state_of(g), "processing"@))
}

/// The downloading tally is the number of listable games whose state text
/// mentions downloading or processing.
pub proof fn lemma_downloading_tally(items: Seq<Game>, config: Config)
    ensures
        tally(items, config, 3) == items.filter(|g: Game| is_downloading_game(g, config)).len(),
    decreases items.len(),
{
    reveal_with_fuel(Seq::filter, 1);
    if items.len() > 0 {
        lemma_downloading_tally(items.drop_last(), config);
    }
}

/// Adding one game to the list adds one to the downloading tally exactly
/// when it is listable and its state mentions downloading or processing.
pub proof fn lemma_downloading_tally_push(items: Seq<Game>, config: Config, g: Game)
    ensures
        tally(items.push(g), config, 3) == tally(items, config, 3)
            + if is_downloading_game(g, config) { 1nat } else { 0nat },
{
    assert(items.push(g).drop_last() =~= items);
}

// --- The per-game Actions menu --------------------------------------------

/// An entry of the per-game Actions menu.
#[derive(Clone, Copy, PartialEq, Eq, Debug, Structural)]
pub enum Action {
    Play,
    Install,
    PauseResume,
    CancelInstall,
    Update,
    Verify,
    Uninstall,
    Versions,
    Branches,
    GameSettings,
    Proton,
    Engine,
    LaunchOptions,
    Dlc,
    Workshop,
    Cloud,
    Achievements,
    Depots,
    Inventory,
    Move,
    Relink,
    Import,
    Collections,
    Favourite,
    Hide,
}

/// One row of the Actions menu: the action, its category header, its label
/// and the key that also triggers it (empty when only the menu does).
#[derive(Debug)]
pub struct ActionRow {
    pub action: Action,
    pub category: &'static str,
    pub label: &'static str,
    pub key: &'static str,
}

pub type RowView = (Action, Seq<char>, Seq<char>, Seq<char>);

pub open spec fn row_view(r: ActionRow) -> RowView {
    (r.action, r.category@, r.label@, r.key@)
}

pub open spec fn row_views(rows: Seq<ActionRow>) -> Seq<RowView> {
    rows.map_values(|r: ActionRow| row_view(r))
}

/// The Actions menu for a game: install controls while installing; play,
/// update, verify and uninstall when installed, install when neither; then
/// versions, runtimes, content and library actions, moving and relinking only
/// for an installed game.
pub open spec fn action_rows_spec(installed: bool, installing: bool) -> Seq<RowView> {
    let play = "Play & Install"@;
    let controls: Seq<RowView> = if installing {
        seq![
            (Action::PauseResume, play, "Pause / resume install"@, "Space"@),
            (Action::CancelInstall, play, "Cancel install"@, "c"@),
        ]
    } else {
        seq![]
    };
    let launch: Seq<RowView> = if installed {
        seq![
            (Action::Play, play, "Play"@, ""@),
            (Action::Update, play, "Update"@, "U"@),
            (Action::Verify, play, "Verify files"@, "v"@),
            (Action::Uninstall, play, "Uninstall"@, "x"@),
        ]
    } else if !installing {
        seq![(Action::Install, play, "Install"@, "d"@)]
    } else {
        seq![]
    };
    let middle: Seq<RowView> = seq![
        (Action::Versions, "Versions"@, "Versions & pinning"@, "V"@),
        (Action::Branches, "Versions"@, "Beta branches"@, "b"@),
        (Action::GameSettings, "Runtimes & config"@, "Game settings"@, ""@),
        (Action::Proton, "Runtimes & config"@, "Proton runtimes"@, "P"@),
        (Action::Engine, "Runtimes & config"@, "Runtime plugins (umu / lux)"@, "E"@),
        (Action::LaunchOptions, "Runtimes & config"@, "Launch options"@, "L"@),
        (Action::Dlc, "Content"@, "DLC"@, "D"@),
        (Action::Workshop, "Content"@, "Workshop"@, "W"@),
        (Action::Cloud, "Content"@, "Cloud saves"@, "C"@),
        (Action::Achievements, "Content"@, "Achievements"@, "a"@),
        (Action::Depots, "Content"@, "Depots"@, "o"@),
        (Action::Inventory, "Content"@, "Inventory"@, "I"@),
    ];
    let relocate: Seq<RowView> = if installed {
        seq![
            (Action::Move, "Library"@, "Move install"@, "M"@),
            (Action::Relink, "Library"@, "Relink install"@, "K"@),
        ]
    } else {
        seq![]
    };
    let tail: Seq<RowView> = seq![
        (Action::Import, "Library"@, "Import install"@, "N"@),
        (Action::Collections, "Library"@, "Collections"@, "O"@),
        (Action::Favourite, "Library"@, "Toggle favourite"@, "f"@),
        (Action::Hide, "Library"@, "Hide game"@, "H"@),
    ];
    controls + launch + middle + relocate + tail
}

fn push_row(rows: &mut Vec<ActionRow>, action: Action, category: &'static str, label: &'static str, key: &'static str)
    ensures
        row_views(final(rows)@) == row_views(old(rows)@).push((action, category@, label@, key@)),
{
    rows.push(ActionRow { action, category, label, key });
    assert(row_views(rows@) =~= row_views(old(rows)@).push((action, category@, label@, key@)));
}

/// The Actions menu rows for a game in the given install state.
pub fn action_rows(installed: bool, installing: bool) -> (rows: Vec<ActionRow>)
    ensures
        row_views(rows@) == action_rows_spec(installed, installing),
{
    let mut rows: Vec<ActionRow> = Vec::new();
    let play = "Play & Install";
    if installing {
        push_row(&mut rows, Action::PauseResume, play, "Pause / resume install", "Space");
        push_row(&mut rows, Action::CancelInstall, play, "Cancel install", "c");
    }
    if installed {
        push_row(&mut rows, Action::Play, play, "Play", "");
        push_row(&mut rows, Action::Update, play, "Update", "U");
        push_row(&mut rows, Action::Verify, play, "Verify files", "v");
        push_row(&mut rows, Action::Uninstall, play, "Uninstall", "x");
    } else if !installing {
        push_row(&mut rows, Action::Install, play, "Install", "d");
    }
    push_row(&mut rows, Action::Versions, "Versions", "Versions & pinning", "V");
    push_row(&mut rows, Action::Branches, "Versions", "Beta branches", "b");
    push_row(&mut rows, Action::GameSettings, "Runtimes & config", "Game settings", "");
    push_row(&mut rows, Action::Proton, "Runtimes & config", "Proton runtimes", "P");
    push_row(&mut rows, Action::Engine, "Runtimes & config", "Runtime plugins (umu / lux)", "E");
    push_row(&mut rows, Action::LaunchOptions, "Runtimes & config", "Launch options", "L");
    push_row(&mut rows, Action::Dlc, "Content", "DLC", "D");
    push_row(&mut rows, Action::Workshop, "Content", "Workshop", "W");
    push_row(&mut rows, Action::Cloud, "Content", "Cloud saves", "C");
    push_row(&mut rows, Action::Achievements, "Content", "Achievements", "a");
    push_row(&mut rows, Action::Depots, "Content", "Depots", "o");
    push_row(&mut rows, Action::Inventory, "Content", "Inventory", "I");
    if installed {
        push_row(&mut rows, Action::Move, "Library", "Move install", "M");
        push_row(&mut rows, Action::Relink, "Library", "Relink install", "K");
    }
    push_row(&mut rows, Action::Import, "Library", "Import install", "N");
    push_row(&mut rows, Action::Collections, "Library", "Collections", "O");
    push_row(&mut rows, Action::Favourite, "Library", "Toggle favourite", "f");
    push_row(&mut rows, Action::Hide, "Library", "Hide game", "H");
    assert(row_views(rows@) =~= action_rows_spec(installed, installing));
    rows
}

/// The rows whose lower-cased label contains `needle` (all rows for an
/// empty needle), in order.
pub open spec fn keep_matching(rows: Seq<RowView>, needle: Seq<char>) -> Seq<RowView>
    decreases rows.len(),
{
    if rows.len() == 0 {
        seq![]
    } else {
        let rest = keep_matching(rows.drop_last(), needle);
        if needle.len() == 0 || has_infix(lowercase_of(rows.last().2), needle) {
            rest.push(rows.last())
        } else {
            rest
        }
    }
}


/// Whether an install of `app_id` is recorded.
pub open spec fn is_recorded(installs: Seq<InstallRecord>, app_id: i32) -> bool {
    exists|k: int| 0 <= k < installs.len() && (#[trigger] installs[k]).app_id == app_id
}

/// Whether `x` is among the ids of `done`.
pub open spec fn in_done(done: Seq<(i32, bool)>, x: i32) -> bool {
    exists|k: int| 0 <= k < done.len() && (#[trigger] done[k]).0 == x
}

/// Whether a recorded install has finished: `Some(true)` on success,
/// `Some(false)` on failure.
pub open spec fn finished(state: Seq<char>) -> Option<bool> {
    if has_prefix(state, "Installed!"@) || state == "done"@ {
        Some(true)
    } else if has_prefix(state, "Failed"@) {
        Some(false)
    } else {
        None
    }
}

/// The state of the first game of `items` with id `id` (empty when none).
pub open spec fn state_of_id(items: Seq<Game>, id: i32) -> Seq<char>
    decreases items.len(),
{
    if items.len() == 0 {
        Seq::empty()
    } else if items[0].id == id {
        state_of(items[0])
    } else {
        state_of_id(items.drop_first(), id)
    }
}

/// The last of `updates` for game `id`, if any.
pub open spec fn last_update_for(updates: Seq<LibraryGameJson>, id: i32) -> Option<LibraryGameJson>
    decreases updates.len(),
{
    if updates.len() == 0 {
        None
    } else if updates.last().app_id as i32 == id {
        Some(updates.last())
    } else {
        last_update_for(updates.drop_last(), id)
    }
}

/// Whether game `k` is the first of its id.
pub open spec fn first_of_id(items: Seq<Game>, k: int) -> bool {
    forall|j: int| 0 <= j < k ==> items[j].id != items[k].id
}

/// `g` is `old` refreshed from the library entry `e`: its installed flag,
/// install path and update flag are the entry's and its live status is gone.
pub open spec fn refreshed_game(g: Game, old: Game, e: LibraryGameJson) -> bool {
    &&& g == Game { installed: e.is_installed, update_available: e.update_available, status: None, install_dir: g.install_dir, ..old }
    &&& g.install_dir@ == (match e.install_path { Some(p) => p@, None => Seq::empty() })
}

/// `items` is `old` with the first game of each id refreshed from the last
/// of `updates` for it; the other games unchanged.
pub open spec fn refreshed_from(items: Seq<Game>, old: Seq<Game>, updates: Seq<LibraryGameJson>) -> bool {
    &&& items.len() == old.len()
    &&& forall|k: int| 0 <= k < items.len() ==> {
        if first_of_id(old, k) && last_update_for(updates, old[k].id) is Some {
            refreshed_game(#[trigger] items[k], old[k], last_update_for(updates, old[k].id)->0)
        } else {
            items[k] == old[k]
        }
    }
}

fn refresh_items(items: &mut Vec<Game>, updates: &Vec<LibraryGameJson>)
    ensures
        refreshed_from(final(items)@, old(items)@, updates@),
{
    let ghost orig = items@;
    let mut u: usize = 0;
    assert(updates@.take(0) =~= Seq::<LibraryGameJson>::empty());
    while u < updates.len()
        invariant
            u <= updates@.len(),
            refreshed_from(items@, orig, updates@.take(u as int)),
        decreases updates@.len() - u,
    {
        let entry = &updates[u];
        let id = entry.app_id as i32;
        let ghost before = items@;
        let ghost us = updates@.take(u + 1);
        proof {
            assert(us.drop_last() =~= updates@.take(u as int));
            assert(us.last() == updates@[u as int]);
        }
        match find_game(items, id) {
            Some(i) => {
                let mut g = items.remove(i);
                g.installed = entry.is_installed;
                g.install_dir = match &entry.install_path {
                    Some(p) => owned(p.as_str()),
                    None => String::new(),
                };
                g.update_available = entry.update_available;
                g.status = None;
                items.insert(i, g);
                proof {
                    assert(items@ =~= before.update(i as int, g));
                    assert forall|k: int| 0 <= k < items@.len() implies {
                        if first_of_id(orig, k) && last_update_for(us, orig[k].id) is Some {
                            refreshed_game(#[trigger] items@[k], orig[k], last_update_for(us, orig[k].id)->0)
                        } else {
                            items@[k] == orig[k]
                        }
                    } by {
                        assert(before[k].id == orig[k].id);
                        if k == i {
                            assert(first_of_id(orig, k)) by {
                                assert forall|j: int| 0 <= j < k implies orig[j].id != orig[k].id by {
                                    assert(before[j].id == orig[j].id);
                                }
                            }
                        } else {
                            assert(items@[k] == before[k]);
                            if orig[k].id == id {
                                if k < i {
                                    assert(before[k].id != id);
                                } else {
                                    assert(orig[i as int].id == id);
                                    assert(!first_of_id(orig, k));
                                }
                            }
                        }
                    }
                }
            },
            None => {
                proof {
                    assert forall|k: int| 0 <= k < items@.len() implies {
                        if first_of_id(orig, k) && last_update_for(us, orig[k].id) is Some {
                            refreshed_game(#[trigger] items@[k], orig[k], last_update_for(us, orig[k].id)->0)
                        } else {
                            items@[k] == orig[k]
                        }
                    } by {
                        assert(before[k].id == orig[k].id);
                        assert(before[k].id != id);
                    }
                }
            },
        }
        u += 1;
    }
    assert(updates@.take(updates@.len() as int) =~= updates@);
}

fn find_game(items: &Vec<Game>, id: i32) -> (r: Option<usize>)
    ensures
        r is Some ==> r->0 < items@.len() && items@[r->0 as int].id == id
            && forall|j: int| 0 <= j < r->0 ==> items@[j].id != id,
        r is None ==> forall|j: int| 0 <= j < items@.len() ==> items@[j].id != id,
{
    let mut i: usize = 0;
    while i < items.len()
        invariant
            i <= items.len(),
            forall|j: int| 0 <= j < i ==> items@[j].id != id,
        decreases items.len() - i,
    {
        if items[i].id == id {
            return Some(i);
        }
        i += 1;
    }
    None
}

proof fn lemma_state_of_id(items: Seq<Game>, id: i32, k: int)
    requires
        0 <= k < items.len(),
        items[k].id == id,
        forall|j: int| 0 <= j < k ==> items[j].id != id,
    ensures
        state_of_id(items, id) == state_of(items[k]),
    decreases k,
{
    if k > 0 {
        lemma_state_of_id(items.drop_first(), id, k - 1);
    }
}

proof fn lemma_state_of_missing(items: Seq<Game>, id: i32)
    requires
        forall|j: int| 0 <= j < items.len() ==> items[j].id != id,
    ensures
        state_of_id(items, id) == Seq::<char>::empty(),
    decreases items.len(),
{
    if items.len() > 0 {
        lemma_state_of_missing(items.drop_first(), id);
    }
}

impl Browser {
    /// Live tallies for the status bar over the listable games.
    pub fn counts(&self) -> (c: Counts)
        ensures
            c.total == tally(self.items_spec(), self.config, 0),
            c.installed == tally(self.items_spec(), self.config, 1),
            c.updates == tally(self.items_spec(), self.config, 2),
            c.downloading == tally(self.items_spec(), self.config, 3),
            c.visible == self.vlen(),
    {
        let mut total: usize = 0;
        let mut installed: usize = 0;
        let mut updates: usize = 0;
        let mut downloading: usize = 0;
        let mut i: usize = 0;
        while i < self.items.len()
            invariant
                i <= self.items@.len(),
                total == tally(self.items@.take(i as int), self.config, 0),
                installed == tally(self.items@.take(i as int), self.config, 1),
                updates == tally(self.items@.take(i as int), self.config, 2),
                downloading == tally(self.items@.take(i as int), self.config, 3),
                total <= i,
                installed <= i,
                updates <= i,
                downloading <= i,
            decreases self.items@.len() - i,
        {
            let g = &self.items[i];
            proof {
                assert(self.items@.take(i + 1).drop_last() =~= self.items@.take(i as int));
                assert(self.items@.take(i + 1).last() == self.items@[i as int]);
            }
            if passes_exec(g, Filter::All, &self.config) {
                total += 1;
                if g.installed {
                    installed += 1;
                }
                if g.update_available {
                    updates += 1;
                }
                let st = g.state_text();
                if contains_str(st.as_str(), "downloading") || contains_str(st.as_str(), "processing") {
                    downloading += 1;
                }
            }
            i += 1;
        }
        assert(self.items@.take(self.items@.len() as int) =~= self.items@);
        Counts { total, visible: self.visible_len(), installed, updates, downloading }
    }

    /// How a game's recorded install sits: idle unless this session started
    /// installing it; then paused, active or idle by its state text.
    pub fn install_phase(&self, game: &Game) -> (p: InstallPhase)
        ensures
            p == (if is_recorded(self.installs@, game.id) { phase_of_state(state_of(*game)) } else { InstallPhase::Idle }),
    {
        if !self.is_recorded_install(game.id) {
            return InstallPhase::Idle;
        }
        let st = game.state_text();
        phase_from_state(st.as_str())
    }

    /// The selected game, if the selection is within the visible list.
    pub open spec fn selected_game(&self) -> Option<Game> {
        if self.selected is Some && self.selected->0 < self.vlen() {
            Some(self.items_spec()[self.visible_spec()[self.selected->0 as int] as int])
        } else {
            None
        }
    }

    /// Enter on the list: an installed selected game is to be launched
    /// (its id is handed back); for one not installed the install prompt
    /// opens instead; without a selection nothing happens.
    pub fn press_enter(&mut self) -> (launch: Option<i32>)
        ensures
            (match old(self).selected_game() {
                Some(g) => if g.installed {
                    launch == Some(g.id) && final(self).confirm_install == old(self).confirm_install
                } else {
                    launch is None && final(self).confirm_install
                },
                None => launch is None && final(self).confirm_install == old(self).confirm_install,
            }),
            final(self).items == old(self).items,
            final(self).selected == old(self).selected,
    {
        let target = match self.selected() {
            Some(g) => Some((g.id, g.installed)),
            None => None,
        };
        match target {
            Some((id, true)) => Some(id),
            Some((_, false)) => {
                self.confirm_install = true;
                None
            },
            None => None,
        }
    }

    /// The uninstall prompt is offered for installed games only.
    pub fn ask_uninstall(&mut self)
        ensures
            final(self).confirm_uninstall == (old(self).confirm_uninstall
                || (old(self).selected_game() is Some && old(self).selected_game()->0.installed)),
            final(self).items == old(self).items,
            final(self).selected == old(self).selected,
    {
        let installed = match self.selected() {
            Some(g) => g.installed,
            None => false,
        };
        if installed {
            self.confirm_uninstall = true;
        }
    }

    /// Answers the install prompt: it closes; on yes the selected game is
    /// to be installed (its id is handed back).
    pub fn answer_install(&mut self, yes: bool) -> (id: Option<i32>)
        ensures
            !final(self).confirm_install,
            id == (if yes { match old(self).selected_game() { Some(g) => Some(g.id), None => None } } else { None }),
            final(self).items == old(self).items,
            final(self).selected == old(self).selected,
    {
        self.confirm_install = false;
        if yes {
            match self.selected() {
                Some(g) => Some(g.id),
                None => None,
            }
        } else {
            None
        }
    }

    /// Answers the uninstall prompt: it closes; on yes the selected game is
    /// to be uninstalled (its id is handed back).
    pub fn answer_uninstall(&mut self, yes: bool) -> (id: Option<i32>)
        ensures
            !final(self).confirm_uninstall,
            id == (if yes { match old(self).selected_game() { Some(g) => Some(g.id), None => None } } else { None }),
            final(self).items == old(self).items,
            final(self).selected == old(self).selected,
    {
        self.confirm_uninstall = false;
        if yes {
            match self.selected() {
                Some(g) => Some(g.id),
                None => None,
            }
        } else {
            None
        }
    }

    /// Takes the launcher's answer to an uninstall: a failure becomes the
    /// notice; success is answered `true` (the library is then reloaded).
    pub fn record_uninstall(&mut self, result: Result<(), STError>) -> (ok: bool)
        ensures
            ok == result is Ok,
            result is Err ==> final(self).notice is Some
                && final(self).notice->0@ == "Uninstall failed: "@ + describe_spec(result->Err_0),
            result is Ok ==> final(self).notice == old(self).notice,
            final(self).items == old(self).items,
    {
        match result {
            Ok(()) => true,
            Err(e) => {
                let d = e.describe();
                proof {
                    reveal_strlit("Uninstall failed: ");
                }
                self.notice = Some(concat("Uninstall failed: ", d.as_str()));
                false
            },
        }
    }

    /// The selected game when it is installed (moving or relinking an
    /// install needs one).
    pub fn selected_installed(&self) -> (id: Option<i32>)
        ensures
            id == (match self.selected_game() {
                Some(g) => if g.installed { Some(g.id) } else { None },
                None => None,
            }),
    {
        match self.selected() {
            Some(g) => if g.installed { Some(g.id) } else { None },
            None => None,
        }
    }

    /// What Space does to the selected game's download: pause one under
    /// way, resume a paused one into the library it was started in (the
    /// install is recorded anew), else nothing.
    pub fn toggle_pause(&mut self) -> (job: InstallJob)
        ensures
            (match old(self).selected_game() {
                Some(g) => match (if is_recorded(old(self).installs@, g.id) { phase_of_state(state_of(g)) } else { InstallPhase::Idle }) {
                    InstallPhase::Active => job == InstallJob::Pause(g.id) && final(self).installs == old(self).installs,
                    InstallPhase::Paused => job matches InstallJob::Resume(id, lib) && id == g.id
                        && opt_view(lib) == opt_view(library_of(old(self).installs@, g.id))
                        && opt_view(library_of(final(self).installs@, g.id)) == opt_view(lib),
                    InstallPhase::Idle => job == InstallJob::Nothing && final(self).installs == old(self).installs,
                },
                None => job == InstallJob::Nothing && final(self).installs == old(self).installs,
            }),
            final(self).items == old(self).items,
            final(self).selected == old(self).selected,
    {
        let target = match self.selected() {
            Some(g) => Some((g.id, self.install_phase(g))),
            None => None,
        };
        match target {
            Some((id, InstallPhase::Active)) => InstallJob::Pause(id),
            Some((id, InstallPhase::Paused)) => {
                let library = self.install_library_for(id);
                let copy = match &library {
                    Some(l) => Some(owned(l.as_str())),
                    None => None,
                };
                self.begin_install(id, library);
                proof {
                    lemma_resume_into_same_library(self.installs@, id, self.installs@.last().library);
                }
                InstallJob::Resume(id, copy)
            },
            _ => InstallJob::Nothing,
        }
    }

    /// Cancels the selected game's download when one is recorded and not
    /// idle (see [`Browser::stop_install`]); its id is handed back.
    pub fn cancel_selected_install(&mut self) -> (stopped: Option<i32>)
        ensures
            (match old(self).selected_game() {
                Some(g) => if is_recorded(old(self).installs@, g.id) && phase_of_state(state_of(g)) != InstallPhase::Idle {
                    stopped == Some(g.id) && !is_recorded(final(self).installs@, g.id)
                } else {
                    stopped is None && final(self).installs == old(self).installs && final(self).items == old(self).items
                },
                None => stopped is None && final(self).installs == old(self).installs && final(self).items == old(self).items,
            }),
    {
        let target = match self.selected() {
            Some(g) => Some((g.id, self.install_phase(g))),
            None => None,
        };
        match target {
            Some((id, phase)) => {
                if phase != InstallPhase::Idle {
                    self.stop_install(id);
                    Some(id)
                } else {
                    None
                }
            },
            None => None,
        }
    }

    /// Whether an install of `app_id` is recorded.
    pub fn is_recorded_install(&self, app_id: i32) -> (b: bool)
        ensures
            b == is_recorded(self.installs@, app_id),
    {
        let mut k: usize = 0;
        while k < self.installs.len()
            invariant
                k <= self.installs@.len(),
                forall|j: int| 0 <= j < k ==> self.installs@[j].app_id != app_id,
            decreases self.installs@.len() - k,
        {
            if self.installs[k].app_id == app_id {
                assert(self.installs@[k as int].app_id == app_id);
                return true;
            }
            k += 1;
        }
        false
    }

    fn untrack(&mut self, app_id: i32)
        ensures
            !is_recorded(final(self).installs@, app_id),
            forall|x: i32| x != app_id ==> (is_recorded(final(self).installs@, x) <==> is_recorded(old(self).installs@, x)),
            final(self).items == old(self).items,
            final(self).config == old(self).config,
            final(self).filter == old(self).filter,
            final(self).sort == old(self).sort,
            final(self).query == old(self).query,
            final(self).selected == old(self).selected,
    {
        let mut kept: Vec<InstallRecord> = Vec::new();
        let mut old_list: Vec<InstallRecord> = Vec::new();
        std::mem::swap(&mut old_list, &mut self.installs);
        let ghost orig = old_list@;
        while old_list.len() > 0
            invariant
                forall|j: int| 0 <= j < kept@.len() ==> (#[trigger] kept@[j]).app_id != app_id,
                forall|x: i32| x != app_id ==> (is_recorded(orig, x) <==> (is_recorded(kept@, x) || is_recorded(old_list@, x))),
            decreases old_list@.len(),
        {
            let ghost before = old_list@;
            let ghost kept_before = kept@;
            let t = old_list.pop().unwrap();
            assert(before == old_list@.push(t));
            if t.app_id != app_id {
                kept.push(t);
                assert forall|x: i32| x != app_id implies (is_recorded(orig, x) <==> (is_recorded(kept@, x) || is_recorded(old_list@, x))) by {
                    if is_recorded(kept_before, x) {
                        let k = choose|k: int| 0 <= k < kept_before.len() && (#[trigger] kept_before[k]).app_id == x;
                        assert(kept@[k] == kept_before[k]);
                    }
                    if is_recorded(before, x) {
                        let k = choose|k: int| 0 <= k < before.len() && (#[trigger] before[k]).app_id == x;
                        if k < old_list@.len() {
                            assert(old_list@[k] == before[k]);
                        } else {
                            assert(kept@[kept@.len() - 1] == t);
                        }
                    }
                    if is_recorded(kept@, x) {
                        let k = choose|k: int| 0 <= k < kept@.len() && (#[trigger] kept@[k]).app_id == x;
                        if k < kept_before.len() {
                            assert(kept_before[k] == kept@[k]);
                        } else {
                            assert(before[before.len() - 1] == t);
                        }
                    }
                    if is_recorded(old_list@, x) {
                        let k = choose|k: int| 0 <= k < old_list@.len() && (#[trigger] old_list@[k]).app_id == x;
                        assert(before[k] == old_list@[k]);
                    }
                }
            } else {
                assert forall|x: i32| x != app_id implies (is_recorded(orig, x) <==> (is_recorded(kept@, x) || is_recorded(old_list@, x))) by {
                    if is_recorded(before, x) {
                        let k = choose|k: int| 0 <= k < before.len() && (#[trigger] before[k]).app_id == x;
                        if k < old_list@.len() {
                            assert(old_list@[k] == before[k]);
                        }
                    }
                    if is_recorded(old_list@, x) {
                        let k = choose|k: int| 0 <= k < old_list@.len() && (#[trigger] old_list@[k]).app_id == x;
                        assert(before[k] == old_list@[k]);
                    }
                }
            }
        }
        self.installs = kept;
    }

    /// Starts tracking an install of `app_id` into `library`, replacing any
    /// previous one, so a paused download resumes into the same library.
    pub fn begin_install(&mut self, app_id: i32, library: Option<String>)
        ensures
            is_recorded(final(self).installs@, app_id),
            final(self).installs@.last().app_id == app_id,
            final(self).installs@.last().library == library,
            forall|k: int| 0 <= k < final(self).installs@.len() - 1 ==> (#[trigger] final(self).installs@[k]).app_id != app_id,
            forall|x: i32| x != app_id ==> (is_recorded(final(self).installs@, x) <==> is_recorded(old(self).installs@, x)),
            final(self).items == old(self).items,
            final(self).selected == old(self).selected,
    {
        self.untrack(app_id);
        let ghost before = self.installs@;
        self.installs.push(InstallRecord { app_id, library });
        assert(self.installs@[self.installs@.len() - 1].app_id == app_id);
        assert forall|k: int| 0 <= k < self.installs@.len() - 1 implies (#[trigger] self.installs@[k]).app_id != app_id by {
            assert(self.installs@[k] == before[k]);
            if before[k].app_id == app_id {
                assert(is_recorded(before, app_id));
            }
        }
        assert forall|x: i32| x != app_id implies (is_recorded(self.installs@, x) <==> is_recorded(before, x)) by {
            if is_recorded(self.installs@, x) {
                let k = choose|k: int| 0 <= k < self.installs@.len() && (#[trigger] self.installs@[k]).app_id == x;
                assert(k < before.len());
                assert(before[k] == self.installs@[k]);
            }
            if is_recorded(before, x) {
                let k = choose|k: int| 0 <= k < before.len() && (#[trigger] before[k]).app_id == x;
                assert(self.installs@[k] == before[k]);
            }
        }
    }

    /// The library the recorded install of `app_id` was started in (the
    /// first record of it), if one was chosen.
    pub fn install_library_for(&self, app_id: i32) -> (r: Option<String>)
        ensures
            r is Some <==> library_of(self.installs@, app_id) is Some,
            r is Some ==> r->0@ == library_of(self.installs@, app_id)->0@,
    {
        let mut k: usize = 0;
        assert(self.installs@.skip(0) =~= self.installs@);
        while k < self.installs.len()
            invariant
                k <= self.installs@.len(),
                library_of(self.installs@, app_id) == library_of(self.installs@.skip(k as int), app_id),
            decreases self.installs@.len() - k,
        {
            let ghost rest = self.installs@.skip(k as int);
            assert(rest[0] == self.installs@[k as int]);
            if self.installs[k].app_id == app_id {
                return match &self.installs[k].library {
                    Some(l) => Some(owned(l.as_str())),
                    None => None,
                };
            }
            assert(rest.drop_first() =~= self.installs@.skip(k + 1));
            k += 1;
        }
        None
    }

    /// Whether an install of `app_id` is recorded, which pausing acts on
    /// (the caller then flags its worker and tells the launcher to stop the
    /// download, which stays on disk to resume).
    pub fn pause_install(&self, app_id: i32) -> (was: bool)
        ensures
            was == is_recorded(self.installs@, app_id),
    {
        self.is_recorded_install(app_id)
    }

    /// Marks the paused download of `app_id`: the first game with that id
    /// keeps its progress, shown as paused ([`paused_status`] of its last
    /// live status `current`); nothing else changes.
    pub fn mark_paused(&mut self, app_id: i32, current: &Option<GameStatus>)
        ensures
            final(self).items_spec().len() == old(self).items_spec().len(),
            forall|k: int| 0 <= k < final(self).items_spec().len() ==> {
                let g = #[trigger] final(self).items_spec()[k];
                let g0 = old(self).items_spec()[k];
                if g0.id == app_id && forall|j: int| 0 <= j < k ==> old(self).items_spec()[j].id != app_id {
                    g.status is Some
                        && g.status->0.state@ == paused_state(match current { Some(s) => s.state@, None => Seq::empty() })
                        && g.status->0.installdir@ == (match current { Some(s) => s.installdir@, None => Seq::empty() })
                        && g == Game { status: g.status, ..g0 }
                } else {
                    g == g0
                }
            },
            final(self).selected == old(self).selected,
            final(self).config == old(self).config,
    {
        match find_game(&self.items, app_id) {
            Some(i) => {
                let status = paused_status(current);
                self.set_status(i, Some(status));
            },
            None => {},
        }
    }

    /// Stops (cancels) the recorded install of `app_id`: it is no longer
    /// recorded and the game reads as not installed with no live status.
    /// Returns whether an install was recorded (the caller then flags its
    /// worker, tells the launcher to stop, and asks for a refresh).
    pub fn stop_install(&mut self, app_id: i32) -> (was: bool)
        ensures
            was == is_recorded(old(self).installs@, app_id),
            !is_recorded(final(self).installs@, app_id),
            !was ==> final(self).items == old(self).items,
            was ==> forall|k: int| 0 <= k < final(self).items_spec().len() ==> {
                let g = #[trigger] final(self).items_spec()[k];
                let g0 = old(self).items_spec()[k];
                if g0.id == app_id && forall|j: int| 0 <= j < k ==> old(self).items_spec()[j].id != app_id {
                    g == Game { installed: false, status: None, ..g0 }
                } else {
                    g == g0
                }
            },
            final(self).items_spec().len() == old(self).items_spec().len(),
    {
        if !self.is_recorded_install(app_id) {
            return false;
        }
        self.untrack(app_id);
        match find_game(&self.items, app_id) {
            Some(i) => {
                let mut g = self.items.remove(i);
                g.installed = false;
                g.status = None;
                self.items.insert(i, g);
            },
            None => {},
        }
        true
    }

    /// Picks out the recorded installs that just finished (a state starting
    /// with `Installed!`, or `done`, is a success; one starting with `Failed`
    /// a failure), stops tracking them and returns them with their outcome,
    /// so the caller can refresh the games that succeeded.
    pub fn poll_install_completions(&mut self) -> (done: Vec<(i32, bool)>)
        ensures
            forall|k: int| 0 <= k < done@.len() ==> {
                &&& is_recorded(old(self).installs@, (#[trigger] done@[k]).0)
                &&& finished(state_of_id(old(self).items_spec(), done@[k].0)) == Some(done@[k].1)
                &&& !is_recorded(final(self).installs@, done@[k].0)
            },
            forall|x: i32| is_recorded(old(self).installs@, x) && finished(state_of_id(old(self).items_spec(), x)) is None
                ==> is_recorded(final(self).installs@, x),
            forall|x: i32| is_recorded(final(self).installs@, x) ==> is_recorded(old(self).installs@, x)
                && finished(state_of_id(old(self).items_spec(), x)) is None,
            final(self).items == old(self).items,
            final(self).selected == old(self).selected,
    {
        let mut done: Vec<(i32, bool)> = Vec::new();
        let mut kept: Vec<InstallRecord> = Vec::new();
        let mut pending: Vec<InstallRecord> = Vec::new();
        std::mem::swap(&mut pending, &mut self.installs);
        let ghost orig = pending@;
        let ghost items = self.items@;
        while pending.len() > 0
            invariant
                items == self.items@,
                forall|x: i32| is_recorded(orig, x) <==> (is_recorded(pending@, x) || is_recorded(kept@, x) || in_done(done@, x)),
                forall|x: i32| is_recorded(kept@, x) ==> finished(state_of_id(items, x)) is None,
                forall|k: int| 0 <= k < done@.len() ==> finished(state_of_id(items, (#[trigger] done@[k]).0)) == Some(done@[k].1),
            decreases pending@.len(),
        {
            let ghost before = pending@;
            let ghost kept_before = kept@;
            let ghost done_before = done@;
            let t = pending.pop().unwrap();
            assert(before == pending@.push(t));
            let st = match find_game(&self.items, t.app_id) {
                Some(i) => {
                    proof {
                        lemma_state_of_id(items, t.app_id, i as int);
                    }
                    self.items[i].state_text()
                },
                None => {
                    proof {
                        lemma_state_of_missing(items, t.app_id);
                    }
                    String::new()
                },
            };
            assert(st@ == state_of_id(items, t.app_id));
            let id = t.app_id;
            let ok = starts_with(st.as_str(), "Installed!") || crate::text::str_eq(st.as_str(), "done");
            let failed = !ok && starts_with(st.as_str(), "Failed");
            if ok {
                done.push((id, true));
            } else if failed {
                done.push((id, false));
            } else {
                kept.push(t);
            }
            assert forall|x: i32| is_recorded(orig, x) <==> (is_recorded(pending@, x) || is_recorded(kept@, x) || in_done(done@, x)) by {
                if is_recorded(before, x) {
                    let k = choose|k: int| 0 <= k < before.len() && (#[trigger] before[k]).app_id == x;
                    if k < pending@.len() {
                        assert(pending@[k] == before[k]);
                    } else if ok || failed {
                        assert(done@[done@.len() - 1].0 == x);
                        assert(in_done(done@, x));
                    } else {
                        assert(kept@[kept@.len() - 1] == t);
                    }
                }
                if is_recorded(pending@, x) {
                    let k = choose|k: int| 0 <= k < pending@.len() && (#[trigger] pending@[k]).app_id == x;
                    assert(before[k] == pending@[k]);
                }
                if in_done(done_before, x) {
                    let k = choose|k: int| 0 <= k < done_before.len() && (#[trigger] done_before[k]).0 == x;
                    assert(done@[k] == done_before[k]);
                    assert(in_done(done@, x));
                }
                if is_recorded(kept_before, x) {
                    let k = choose|k: int| 0 <= k < kept_before.len() && (#[trigger] kept_before[k]).app_id == x;
                    assert(kept@[k] == kept_before[k]);
                }
                if is_recorded(kept@, x) {
                    let k = choose|k: int| 0 <= k < kept@.len() && (#[trigger] kept@[k]).app_id == x;
                    if k < kept_before.len() {
                        assert(kept_before[k] == kept@[k]);
                    } else {
                        assert(before[before.len() - 1] == t);
                    }
                }
                if in_done(done@, x) {
                    let k = choose|k: int| 0 <= k < done@.len() && (#[trigger] done@[k]).0 == x;
                    if k < done_before.len() {
                        assert(done_before[k] == done@[k]);
                    } else {
                        assert(before[before.len() - 1] == t);
                    }
                }
            }
            assert forall|x: i32| is_recorded(kept@, x) implies finished(state_of_id(items, x)) is None by {
                let k = choose|k: int| 0 <= k < kept@.len() && (#[trigger] kept@[k]).app_id == x;
                if k < kept_before.len() {
                    assert(kept_before[k] == kept@[k]);
                    assert(is_recorded(kept_before, x));
                } else {
                    assert(!ok && !failed);
                    assert(kept@[k] == t);
                    assert(x == t.app_id);
                }
            }
            assert forall|k: int| 0 <= k < done@.len() implies finished(state_of_id(items, (#[trigger] done@[k]).0)) == Some(done@[k].1) by {
                if k < done_before.len() {
                    assert(done_before[k] == done@[k]);
                }
            }
        }
        self.installs = kept;
        assert forall|k: int| 0 <= k < done@.len() implies !is_recorded(self.installs@, (#[trigger] done@[k]).0) by {
            if is_recorded(self.installs@, done@[k].0) {
                assert(finished(state_of_id(items, done@[k].0)) is None);
            }
        }
        assert forall|k: int| 0 <= k < done@.len() implies is_recorded(orig, (#[trigger] done@[k]).0) by {
            assert(in_done(done@, done@[k].0));
        }
        done
    }

    /// Adopts fresh library entries for single games: the first game with a
    /// matching id takes the last matching entry's installed flag, install
    /// path and update flag and drops its live status; the other games stay
    /// as they were, and the selection is kept in range.
    pub fn poll_game_refresh(&mut self, updates: Vec<LibraryGameJson>)
        ensures
            refreshed_from(final(self).items_spec(), old(self).items_spec(), updates@),
            updates@.len() == 0 ==> final(self).items == old(self).items && final(self).selected == old(self).selected,
            updates@.len() > 0 ==> final(self).selected == clamped(old(self).selected, final(self).vlen()),
    {
        if updates.len() == 0 {
            proof {
                assert forall|k: int| 0 <= k < self.items@.len() implies
                    (#[trigger] first_of_id(self.items@, k) && last_update_for(updates@, self.items@[k].id) is Some) == false by {}
            }
            return;
        }
        refresh_items(&mut self.items, &updates);
        self.clamp_selection();
    }

    // --- Actions menu ---

    /// The Actions menu rows for the selected game before the live filter:
    /// none without a selection.
    pub fn action_candidates(&self) -> (rows: Vec<ActionRow>)
        ensures
            self.selected is Some && self.selected->0 < self.vlen() ==> ({
                let g = self.items_spec()[self.visible_spec()[self.selected->0 as int] as int];
                row_views(rows@) == action_rows_spec(
                    g.installed,
                    is_recorded(self.installs@, g.id) && phase_of_state(state_of(g)) != InstallPhase::Idle,
                )
            }),
            !(self.selected is Some && self.selected->0 < self.vlen()) ==> rows@.len() == 0,
    {
        match self.selected() {
            Some(g) => {
                let installing = self.install_phase(g) != InstallPhase::Idle;
                action_rows(g.installed, installing)
            },
            None => Vec::new(),
        }
    }

    /// The Actions menu rows after the live filter: those whose lower-cased
    /// label contains the lower-cased filter text.
    pub fn filtered_actions(&self) -> (rows: Vec<ActionRow>)
        ensures
            ({
                let cands = if self.selected is Some && self.selected->0 < self.vlen() {
                    let g = self.items_spec()[self.visible_spec()[self.selected->0 as int] as int];
                    action_rows_spec(
                        g.installed,
                        is_recorded(self.installs@, g.id) && phase_of_state(state_of(g)) != InstallPhase::Idle,
                    )
                } else {
                    seq![]
                };
                row_views(rows@) == keep_matching(cands, lowercase_of(self.actions_filter@))
            }),
    {
        let needle = to_lowercase(self.actions_filter.as_str());
        let cands = self.action_candidates();
        let ghost cv = row_views(cands@);
        let empty = needle.as_str().unicode_len() == 0;
        let mut out: Vec<ActionRow> = Vec::new();
        let mut i: usize = 0;
        assert(cv.take(0) =~= Seq::<RowView>::empty());
        assert(row_views(out@) =~= Seq::<RowView>::empty());
        while i < cands.len()
            invariant
                i <= cands@.len(),
                cv == row_views(cands@),
                empty == (needle@.len() == 0),
                row_views(out@) == keep_matching(cv.take(i as int), needle@),
            decreases cands@.len() - i,
        {
            let r = &cands[i];
            let lower = to_lowercase(r.label);
            proof {
                assert(cv.take(i + 1).drop_last() =~= cv.take(i as int));
                assert(cv.take(i + 1).last() == row_view(cands@[i as int]));
            }
            if empty || contains_str(lower.as_str(), needle.as_str()) {
                let ghost before = row_views(out@);
                out.push(ActionRow { action: r.action, category: r.category, label: r.label, key: r.key });
                assert(row_views(out@) =~= before.push(row_view(cands@[i as int])));
            }
            i += 1;
        }
        assert(cv.take(cands@.len() as int) =~= cv);
        out
    }

    /// Opens the Actions menu for the selected game (nothing without one).
    #[verifier::spinoff_prover]
    #[verifier::rlimit(100)]
    pub fn open_actions(&mut self)
        ensures
            old(self).selected is Some && old(self).selected->0 < old(self).vlen() ==> {
                &&& final(self).show_actions
                &&& final(self).actions_index == 0
                &&& final(self).actions_filter@ == Seq::<char>::empty()
                &&& final(self).actions_app_id == old(self).items_spec()[old(self).visible_spec()[old(self).selected->0 as int] as int].id
            },
            !(old(self).selected is Some && old(self).selected->0 < old(self).vlen()) ==> *final(self) == *old(self),
            final(self).items == old(self).items,
            final(self).selected == old(self).selected,
            *final(self) == (Browser {
                show_actions: final(self).show_actions,
                actions_index: final(self).actions_index,
                actions_filter: final(self).actions_filter,
                actions_app_id: final(self).actions_app_id,
                ..*old(self)
            }),
    {
        let id = match self.selected() {
            Some(g) => Some(g.id),
            None => None,
        };
        if let Some(id) = id {
            self.start_actions(id);
        }
    }

    fn start_actions(&mut self, id: i32)
        ensures
            final(self).show_actions,
            final(self).actions_index == 0,
            final(self).actions_filter@ == Seq::<char>::empty(),
            final(self).actions_app_id == id,
            *final(self) == (Browser {
                show_actions: true,
                actions_index: 0,
                actions_filter: final(self).actions_filter,
                actions_app_id: id,
                ..*old(self)
            }),
    {
        self.actions_app_id = id;
        self.actions_index = 0;
        self.actions_filter = String::new();
        self.show_actions = true;
    }

    /// Closes the Actions menu.
    pub fn close_actions(&mut self)
        ensures
            !final(self).show_actions,
            final(self).actions_filter@ == Seq::<char>::empty(),
            final(self).actions_index == 0,
    {
        self.show_actions = false;
        self.actions_filter = String::new();
        self.actions_index = 0;
    }

    /// Moves the menu highlight down, wrapping.
    pub fn actions_next(&mut self)
        ensures
            final(self).actions_index == wrap_next_spec(old(self).actions_index as nat,
                keep_matching_len(old(self))),
    {
        let n = self.filtered_actions().len();
        self.actions_index = wrap_next(self.actions_index, n);
    }

    /// Moves the menu highlight up, wrapping.
    pub fn actions_previous(&mut self)
        ensures
            final(self).actions_index == wrap_prev_spec(old(self).actions_index as nat,
                keep_matching_len(old(self))),
    {
        let n = self.filtered_actions().len();
        self.actions_index = wrap_prev(self.actions_index, n);
    }

    /// The highlighted action of the filtered menu.
    pub fn selected_action(&self) -> (a: Option<Action>)
        ensures
            a is Some <==> self.actions_index < keep_matching_len(self),
            a is Some ==> a->0 == filtered_rows(self)[self.actions_index as int].0,
    {
        let rows = self.filtered_actions();
        if self.actions_index < rows.len() {
            Some(rows[self.actions_index].action)
        } else {
            None
        }
    }

    /// Types into the menu filter; the highlight returns to the top.
    pub fn actions_filter_push(&mut self, c: char)
        ensures
            final(self).actions_filter@ == old(self).actions_filter@.push(c),
            final(self).actions_index == 0,
            *final(self) == (Browser { actions_filter: final(self).actions_filter, actions_index: 0, ..*old(self) }),
    {
        push_char(&mut self.actions_filter, c);
        self.actions_index = 0;
    }

    /// Deletes the last filter character; the highlight returns to the top.
    pub fn actions_filter_pop(&mut self)
        ensures
            final(self).actions_filter@ == (if old(self).actions_filter@.len() > 0 { old(self).actions_filter@.drop_last() } else { old(self).actions_filter@ }),
            final(self).actions_index == 0,
            *final(self) == (Browser { actions_filter: final(self).actions_filter, actions_index: 0, ..*old(self) }),
    {
        pop_char(&mut self.actions_filter);
        self.actions_index = 0;
    }
}

/// The rows the filtered Actions menu shows for the browser's state.
pub open spec fn filtered_rows(b: &Browser) -> Seq<RowView> {
    let cands = if b.selected is Some && b.selected->0 < b.vlen() {
        let g = b.items_spec()[b.visible_spec()[b.selected->0 as int] as int];
        action_rows_spec(
            g.installed,
            is_recorded(b.installs@, g.id) && phase_of_state(state_of(g)) != InstallPhase::Idle,
        )
    } else {
        seq![]
    };
    keep_matching(cands, lowercase_of(b.actions_filter@))
}

pub open spec fn keep_matching_len(b: &Browser) -> nat {
    filtered_rows(b).len()
}

} // verus!
