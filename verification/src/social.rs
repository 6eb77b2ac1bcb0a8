//! The Friends tab and the chat view: the roster and its highlight, the
//! add-friend overlay whose lookups are tagged with a generation, and the
//! conversation kept oldest first.

use vstd::prelude::*;
use vstd::view::View as _;
use crate::aurelia::{ChatMessageJson, FriendJson, FriendSearchJson, present, trim, trim_spec};
use crate::browse::{Browser, View};
use crate::error::STError;
use crate::nav::{bump_gen, next_gen, step_down, step_down_spec};
use crate::overlays::{failed_message, failed_text};
use crate::text::{concat, decimal, owned, pop_char, push_char, u64_text};

verus! {

/// A persona name when one is set, else the SteamID in decimal.
pub open spec fn name_or_id(name: Option<String>, id: u64) -> Seq<char> {
    if present(name) { name->0@ } else { decimal(id as nat) }
}

/// The status line after a lookup: `Found <name>` or `Not found: <error>`.
pub open spec fn search_status_text(result: Result<FriendSearchJson, STError>) -> Seq<char> {
    match result {
        Ok(f) => "Found "@ + name_or_id(f.persona_name, f.steam_id),
        Err(e) => "Not found: "@ + crate::error::describe_spec(e),
    }
}

/// Whom a friend request goes to: the resolved account's SteamID, else the
/// typed reference, trimmed.
pub open spec fn add_target(found: Option<FriendSearchJson>, query: Seq<char>) -> Seq<char> {
    match found {
        Some(f) => decimal(f.steam_id as nat),
        None => trim_spec(query),
    }
}

/// The highlight kept on a list of `len` rows: the last row when past the
/// end (the first when the list is empty).
pub open spec fn kept_in(i: nat, len: nat) -> nat {
    if i >= len { if len == 0 { 0 } else { (len - 1) as nat } } else { i }
}

/// The messages of `s` sent at time `t`, in their order in `s`.
pub open spec fn sent_at(s: Seq<ChatMessageJson>, t: i64) -> Seq<ChatMessageJson>
    decreases s.len(),
{
    if s.len() == 0 {
        s
    } else {
        let rest = sent_at(s.drop_last(), t);
        if s.last().timestamp == t { rest.push(s.last()) } else { rest }
    }
}

/// Whether `s` runs from the earliest message to the latest.
pub open spec fn by_time(s: Seq<ChatMessageJson>) -> bool {
    forall|i: int, j: int| 0 <= i < j < s.len() ==> s[i].timestamp <= s[j].timestamp
}

/// `r` is `s` stably sorted by send time: ordered by time, with the messages
/// of each time in their order in `s`.
pub open spec fn stable_by_time(r: Seq<ChatMessageJson>, s: Seq<ChatMessageJson>) -> bool {
    &&& by_time(r)
    &&& forall|t: i64| #[trigger] sent_at(r, t) == sent_at(s, t)
}

proof fn lemma_sent_at_add(a: Seq<ChatMessageJson>, b: Seq<ChatMessageJson>, t: i64)
    ensures
        sent_at(a + b, t) == sent_at(a, t) + sent_at(b, t),
    decreases b.len(),
{
    if b.len() == 0 {
        assert(a + b =~= a);
        assert(sent_at(a, t) + sent_at(b, t) =~= sent_at(a, t));
    } else {
        lemma_sent_at_add(a, b.drop_last(), t);
        assert((a + b).drop_last() =~= a + b.drop_last());
        assert((a + b).last() == b.last());
        if b.last().timestamp == t {
            assert(sent_at(a, t) + sent_at(b, t) =~= (sent_at(a, t) + sent_at(b.drop_last(), t)).push(b.last()));
        }
    }
}

proof fn lemma_sent_at_none(s: Seq<ChatMessageJson>, t: i64)
    requires
        forall|i: int| 0 <= i < s.len() ==> s[i].timestamp != t,
    ensures
        sent_at(s, t) == Seq::<ChatMessageJson>::empty(),
    decreases s.len(),
{
    if s.len() > 0 {
        lemma_sent_at_none(s.drop_last(), t);
    }
}

proof fn lemma_sent_at_all(s: Seq<ChatMessageJson>, t: i64)
    requires
        forall|i: int| 0 <= i < s.len() ==> s[i].timestamp == t,
    ensures
        sent_at(s, t) == s,
    decreases s.len(),
{
    if s.len() > 0 {
        lemma_sent_at_all(s.drop_last(), t);
        assert(s.drop_last().push(s.last()) =~= s);
    }
}

proof fn lemma_sent_at_one(x: ChatMessageJson, t: i64)
    ensures
        sent_at(seq![x], t) == (if x.timestamp == t { seq![x] } else { Seq::<ChatMessageJson>::empty() }),
{
    let s = seq![x];
    let e = Seq::<ChatMessageJson>::empty();
    assert(s.drop_last() =~= e);
    assert(s.last() == x);
    assert(sent_at(e, t) == e);
    assert(e.push(x) =~= s);
}

/// Where a message sent at `t` goes in the time-ordered `r`: after every
/// message sent at or before `t`.
fn insertion_point(r: &Vec<ChatMessageJson>, t: i64) -> (p: usize)
    requires
        by_time(r@),
    ensures
        p <= r.len(),
        forall|i: int| 0 <= i < p ==> r@[i].timestamp <= t,
        forall|i: int| p <= i < r.len() ==> r@[i].timestamp > t,
{
    let mut p: usize = 0;
    while p < r.len() && r[p].timestamp <= t
        invariant
            p <= r.len(),
            by_time(r@),
            forall|i: int| 0 <= i < p ==> r@[i].timestamp <= t,
        decreases r.len() - p,
    {
        p += 1;
    }
    p
}

/// Stably sorts messages by send time (insertion sort).
pub fn sort_by_time(v: Vec<ChatMessageJson>) -> (r: Vec<ChatMessageJson>)
    ensures
        stable_by_time(r@, v@),
{
    let ghost v0 = v@;
    let mut rest = v;
    let mut r: Vec<ChatMessageJson> = Vec::new();
    proof {
        assert forall|t: i64| #[trigger] sent_at(v0, t) == sent_at(r@, t) + sent_at(rest@, t) by {
            assert(sent_at(r@, t) + sent_at(rest@, t) =~= sent_at(rest@, t));
        }
    }
    while rest.len() > 0
        invariant
            by_time(r@),
            forall|t: i64| #[trigger] sent_at(v0, t) == sent_at(r@, t) + sent_at(rest@, t),
        decreases rest.len(),
    {
        let ghost old_rest = rest@;
        let ghost old_r = r@;
        let x = rest.remove(0);
        let p = insertion_point(&r, x.timestamp);
        r.insert(p, x);
        proof {
            let a = old_r.subrange(0, p as int);
            let b = old_r.subrange(p as int, old_r.len() as int);
            assert(old_rest =~= seq![x] + rest@);
            assert(old_r =~= a + b);
            assert(r@ =~= (a + seq![x]) + b);
            assert forall|t: i64| #[trigger] sent_at(v0, t) == sent_at(r@, t) + sent_at(rest@, t) by {
                lemma_sent_at_add(seq![x], rest@, t);
                lemma_sent_at_one(x, t);
                lemma_sent_at_add(a, b, t);
                lemma_sent_at_add(a + seq![x], b, t);
                lemma_sent_at_add(a, seq![x], t);
                if t == x.timestamp {
                    lemma_sent_at_none(b, t);
                    assert(sent_at(v0, t) =~= sent_at(a, t) + seq![x] + sent_at(rest@, t));
                    assert(sent_at(r@, t) + sent_at(rest@, t) =~= sent_at(a, t) + seq![x] + sent_at(rest@, t));
                } else {
                    assert(sent_at(v0, t) =~= sent_at(a, t) + sent_at(b, t) + sent_at(rest@, t));
                    assert(sent_at(r@, t) + sent_at(rest@, t) =~= sent_at(a, t) + sent_at(b, t) + sent_at(rest@, t));
                }
            }
        }
    }
    proof {
        assert forall|t: i64| #[trigger] sent_at(r@, t) == sent_at(v0, t) by {
            assert(rest@ =~= Seq::<ChatMessageJson>::empty());
            assert(sent_at(r@, t) + sent_at(rest@, t) =~= sent_at(r@, t));
        }
    }
    r
}

/// The messages in the opposite order.
fn reversed(v: Vec<ChatMessageJson>) -> (r: Vec<ChatMessageJson>)
    ensures
        r@ == v@.reverse(),
{
    let ghost v0 = v@;
    let mut v = v;
    let mut r: Vec<ChatMessageJson> = Vec::new();
    while v.len() > 0
        invariant
            v@ == v0.subrange(0, v0.len() - r.len()),
            r.len() <= v0.len(),
            forall|i: int| 0 <= i < r.len() ==> r@[i] == v0[v0.len() - 1 - i],
        decreases v.len(),
    {
        let x = v.pop().unwrap();
        r.push(x);
    }
    assert(r@ =~= v0.reverse());
    r
}

/// When every message of the history carries the same time (the launcher
/// gives none), the refreshed conversation is the history reversed: oldest
/// first.
pub proof fn lemma_untimed_history_reversed(r: Seq<ChatMessageJson>, history: Seq<ChatMessageJson>, t: i64)
    requires
        stable_by_time(r, history.reverse()),
        forall|i: int| 0 <= i < history.len() ==> history[i].timestamp == t,
    ensures
        r == history.reverse(),
{
    let rev = history.reverse();
    assert forall|i: int| 0 <= i < rev.len() implies rev[i].timestamp == t by {
        assert(rev[i] == history[history.len() - 1 - i]);
    }
    lemma_sent_at_all(rev, t);
    assert(sent_at(r, t) == sent_at(rev, t));
    // every message of r carries t too, since the sort keeps each time's messages
    assert forall|i: int| 0 <= i < r.len() implies r[i].timestamp == t by {
        if r[i].timestamp != t {
            let u = r[i].timestamp;
            lemma_sent_at_none(rev, u);
            lemma_sent_at_member(r, i, u);
            assert(sent_at(r, u) == sent_at(rev, u));
        }
    }
    lemma_sent_at_all(r, t);
}

proof fn lemma_sent_at_member(s: Seq<ChatMessageJson>, i: int, t: i64)
    requires
        0 <= i < s.len(),
        s[i].timestamp == t,
    ensures
        sent_at(s, t).len() > 0,
    decreases s.len(),
{
    if i < s.len() - 1 {
        lemma_sent_at_member(s.drop_last(), i, t);
        lemma_sent_at_len(s.drop_last(), t);
    }
}

proof fn lemma_sent_at_len(s: Seq<ChatMessageJson>, t: i64)
    ensures
        sent_at(s.drop_last(), t).len() <= sent_at(s, t).len() || s.len() == 0,
{
}

/// The Friends tab's state: the roster and its highlight, and the
/// add-friend overlay.
#[derive(Debug, Clone)]
pub struct FriendsPanel {
    pub list: Vec<FriendJson>,
    pub index: usize,
    /// The roster has been fetched at least once.
    pub loaded: bool,
    /// A first fetch is under way.
    pub loading: bool,
    /// A (re-)fetch of the roster is due.
    pub refresh_requested: bool,
    pub show_add: bool,
    pub add_query: String,
    pub add_status: String,
    /// The account the last lookup resolved, previewed in the overlay.
    pub search_result: Option<FriendSearchJson>,
    /// Tags lookups; one launched under an older tag is stale.
    pub search_gen: u64,
    pub confirm_remove: bool,
}

impl FriendsPanel {
    /// Nothing loaded, the overlay closed.
    pub fn empty() -> (p: FriendsPanel)
        ensures
            p.list@.len() == 0,
            p.index == 0,
            !p.loaded,
            !p.loading,
            !p.refresh_requested,
            !p.show_add,
            p.add_query@.len() == 0,
            p.add_status@.len() == 0,
            p.search_result is None,
            p.search_gen == 0,
            !p.confirm_remove,
    {
        FriendsPanel {
            list: Vec::new(),
            index: 0,
            loaded: false,
            loading: false,
            refresh_requested: false,
            show_add: false,
            add_query: String::new(),
            add_status: String::new(),
            search_result: None,
            search_gen: 0,
            confirm_remove: false,
        }
    }

    /// `self` is `before` after the Friends tab was entered: the first time
    /// the roster is requested (and shown as loading), afterwards nothing
    /// changes.
    pub open spec fn entered_from(self, before: FriendsPanel) -> bool {
        &&& self.list@ == before.list@
        &&& self.loaded == before.loaded
        &&& (!before.loaded && !before.loading) ==> {
            &&& self.loading
            &&& self.refresh_requested
            &&& self.index == 0
        }
        &&& (before.loaded || before.loading) ==> {
            &&& self.loading == before.loading
            &&& self.refresh_requested == before.refresh_requested
            &&& self.index == before.index
        }
    }

    /// Requests the roster the first time the tab is entered.
    pub fn enter(&mut self)
        ensures
            final(self).entered_from(*old(self)),
    {
        if !self.loaded && !self.loading {
            self.index = 0;
            self.loading = true;
            self.refresh_requested = true;
        }
    }

}

/// Entering the Friends tab is idempotent: entering it again changes
/// nothing of the roster, its loading state or the highlight.
pub proof fn lemma_enter_friends_idempotent(before: FriendsPanel, once: FriendsPanel, twice: FriendsPanel)
    requires
        once.entered_from(before),
        twice.entered_from(once),
    ensures
        twice.list@ == once.list@,
        twice.loaded == once.loaded,
        twice.loading == once.loading,
        twice.refresh_requested == once.refresh_requested,
        twice.index == once.index,
{
}

impl FriendsPanel {
    /// The add-friend overlay reset to an empty query, showing or not; any
    /// lookup under way made stale.
    pub open spec fn add_reset_from(self, before: FriendsPanel, show: bool) -> bool {
        &&& self.show_add == show
        &&& self.add_query@.len() == 0
        &&& self.search_result is None
        &&& self.add_status@.len() == 0
        &&& self.search_gen == next_gen(before.search_gen)
        &&& self.list@ == before.list@
    }

    fn reset_add(&mut self, show: bool)
        ensures
            final(self).add_reset_from(*old(self), show),
    {
        self.show_add = show;
        self.add_query = String::new();
        self.search_result = None;
        self.search_gen = bump_gen(self.search_gen);
        self.add_status = String::new();
    }

    /// The query edited to `query`: the preview dropped and any lookup
    /// under way made stale.
    pub open spec fn edited_from(self, before: FriendsPanel, query: Seq<char>) -> bool {
        &&& self.add_query@ == query
        &&& self.search_result is None
        &&& self.search_gen == next_gen(before.search_gen)
        &&& self.add_status@ == before.add_status@
        &&& self.show_add == before.show_add
    }

    fn add_push(&mut self, c: char)
        ensures
            final(self).edited_from(*old(self), old(self).add_query@.push(c)),
    {
        push_char(&mut self.add_query, c);
        self.search_result = None;
        self.search_gen = bump_gen(self.search_gen);
    }

    fn add_pop(&mut self)
        ensures
            final(self).edited_from(*old(self), if old(self).add_query@.len() > 0 {
                old(self).add_query@.drop_last()
            } else {
                old(self).add_query@
            }),
    {
        pop_char(&mut self.add_query);
        self.search_result = None;
        self.search_gen = bump_gen(self.search_gen);
    }

    /// The outcome of launching a lookup from `before`: the trimmed query
    /// with the generation it is launched for, or nothing for a blank query.
    pub open spec fn search_launched(self, before: FriendsPanel, job: Option<(String, u64)>) -> bool {
        &&& trim_spec(before.add_query@).len() == 0 ==> job is None && self.add_status@ == before.add_status@
        &&& trim_spec(before.add_query@).len() > 0 ==> {
            &&& job is Some
            &&& (job->0).0@ == trim_spec(before.add_query@)
            &&& (job->0).1 == before.search_gen
            &&& self.add_status@ == "searching..."@
        }
        &&& self.search_gen == before.search_gen
        &&& self.add_query@ == before.add_query@
        &&& self.search_result == before.search_result
    }

    fn search(&mut self) -> (job: Option<(String, u64)>)
        ensures
            final(self).search_launched(*old(self), job),
    {
        let query = trim(self.add_query.as_str());
        if query.as_str().unicode_len() == 0 {
            return None;
        }
        self.add_status = owned("searching...");
        Some((query, self.search_gen))
    }

    fn record_search(&mut self, gen: u64, result: Result<FriendSearchJson, STError>) -> (pending: Option<(u64, FriendSearchJson)>)
        ensures
            final(self).add_status@ == search_status_text(result),
            result is Ok ==> pending == Some((gen, result->Ok_0)),
            result is Err ==> pending is None,
            final(self).search_gen == old(self).search_gen,
            final(self).search_result == old(self).search_result,
    {
        match result {
            Ok(found) => {
                let name = found.display_name();
                proof {
                    reveal_strlit("Found ");
                }
                self.add_status = concat("Found ", name.as_str());
                Some((gen, found))
            },
            Err(e) => {
                let d = e.describe();
                proof {
                    reveal_strlit("Not found: ");
                }
                self.add_status = concat("Not found: ", d.as_str());
                None
            },
        }
    }

    /// The outcome of confirming a request from `before`: the target, or
    /// nothing when there is none.
    pub open spec fn add_confirmed(self, before: FriendsPanel, target: Option<String>) -> bool {
        &&& add_target(before.search_result, before.add_query@).len() == 0 ==> target is None
            && self.add_status@ == before.add_status@
        &&& add_target(before.search_result, before.add_query@).len() > 0 ==> {
            &&& target is Some
            &&& target->0@ == add_target(before.search_result, before.add_query@)
            &&& self.add_status@ == "sending request..."@
        }
        &&& self.add_query@ == before.add_query@
        &&& self.search_result == before.search_result
        &&& self.refresh_requested == before.refresh_requested
    }

    fn add_confirm(&mut self) -> (target: Option<String>)
        ensures
            final(self).add_confirmed(*old(self), target),
    {
        let target = match &self.search_result {
            Some(found) => u64_text(found.steam_id),
            None => trim(self.add_query.as_str()),
        };
        if target.as_str().unicode_len() == 0 {
            return None;
        }
        self.add_status = owned("sending request...");
        Some(target)
    }

    fn record_add(&mut self, result: Result<(), STError>)
        ensures
            result is Ok ==> final(self).add_status@ == "Request sent."@ && final(self).refresh_requested,
            result is Err ==> final(self).add_status@ == failed_text(result->Err_0)
                && final(self).refresh_requested == old(self).refresh_requested,
    {
        match result {
            Ok(()) => {
                self.add_status = owned("Request sent.");
                self.refresh_requested = true;
            },
            Err(e) => {
                self.add_status = failed_message(&e);
            },
        }
    }

    /// The effect of a poll on `before`: a lookup is adopted only when it
    /// carries the current generation; a fetched roster replaces the list,
    /// keeping the highlight in range; a pending fetch request is answered.
    pub open spec fn polled_from(
        self,
        before: FriendsPanel,
        adopted: Option<(u64, FriendSearchJson)>,
        roster: Option<Seq<FriendJson>>,
        fetch: bool,
    ) -> bool {
        &&& fetch == before.refresh_requested
        &&& !self.refresh_requested
        &&& (adopted is Some && (adopted->0).0 == before.search_gen) ==> self.search_result == Some((adopted->0).1)
        &&& !(adopted is Some && (adopted->0).0 == before.search_gen) ==> self.search_result == before.search_result
        &&& self.search_gen == before.search_gen
        &&& roster is Some ==> {
            &&& self.list@ == roster->0
            &&& self.loaded
            &&& !self.loading
            &&& self.index == kept_in(before.index as nat, roster->0.len())
        }
        &&& roster is None ==> {
            &&& self.list@ == before.list@
            &&& self.loaded == before.loaded
            &&& self.loading == before.loading
            &&& self.index == before.index
        }
    }

    fn poll(&mut self, adopted: Option<(u64, FriendSearchJson)>, roster: Option<Vec<FriendJson>>) -> (fetch: bool)
        ensures
            final(self).polled_from(*old(self), adopted, match roster { Some(v) => Some(v@), None => None }, fetch),
    {
        if let Some((gen, found)) = adopted {
            if gen == self.search_gen {
                self.search_result = Some(found);
            }
        }
        let fetch = self.refresh_requested;
        self.refresh_requested = false;
        if let Some(list) = roster {
            self.list = list;
            self.loaded = true;
            self.loading = false;
            if self.index >= self.list.len() {
                self.index = if self.list.len() == 0 { 0 } else { self.list.len() - 1 };
            }
        }
        fetch
    }
}

/// A lookup launched before the query was edited is never adopted: the
/// edit moves the generation on, and a poll adopts only a lookup of the
/// current generation.
pub proof fn lemma_edited_lookup_dropped(
    launched: FriendsPanel,
    edited: FriendsPanel,
    polled: FriendsPanel,
    query: Seq<char>,
    found: FriendSearchJson,
    roster: Option<Seq<FriendJson>>,
    fetch: bool,
)
    requires
        edited.edited_from(launched, query),
        polled.polled_from(edited, Some((launched.search_gen, found)), roster, fetch),
    ensures
        polled.search_result is None,
{
}

/// A lookup launched for the current generation is adopted by the next
/// poll, which previews what was found.
pub proof fn lemma_current_lookup_adopted(
    panel: FriendsPanel,
    polled: FriendsPanel,
    found: FriendSearchJson,
    roster: Option<Seq<FriendJson>>,
    fetch: bool,
)
    requires
        polled.polled_from(panel, Some((panel.search_gen, found)), roster, fetch),
    ensures
        polled.search_result == Some(found),
{
}

/// The chat view's state: the partner, the conversation and the composer.
#[derive(Debug, Clone)]
pub struct ChatPane {
    pub show: bool,
    pub messages: Vec<ChatMessageJson>,
    pub steamid: u64,
    pub partner: String,
    pub input: String,
    pub scroll: usize,
}

impl ChatPane {
    /// Hidden, with no partner, conversation or input.
    pub open spec fn is_closed(self) -> bool {
        &&& !self.show
        &&& self.messages@.len() == 0
        &&& self.steamid == 0
        &&& self.partner@.len() == 0
        &&& self.input@.len() == 0
        &&& self.scroll == 0
    }

    pub fn closed() -> (c: ChatPane)
        ensures
            c.is_closed(),
    {
        ChatPane { show: false, messages: Vec::new(), steamid: 0, partner: String::new(), input: String::new(), scroll: 0 }
    }
}

impl Browser {
    // --- Friends tab ---

    /// Whether the Friends tab holds the keyboard (it is the active view).
    pub fn friends_focused(&self) -> (b: bool)
        ensures
            b == (self.view == View::Friends),
    {
        self.view == View::Friends
    }

    /// Leaves the Friends tab for the library, or enters it (loading the
    /// roster the first time).
    pub fn toggle_friends_focus(&mut self)
        ensures
            old(self).view == View::Friends ==> final(self).view == View::Library && final(self).friends == old(self).friends,
            old(self).view != View::Friends ==> final(self).view == View::Friends
                && final(self).friends.entered_from(old(self).friends),
    {
        if self.view == View::Friends {
            self.view = View::Library;
        } else {
            self.enter_friends();
        }
    }

    /// Back to the library, keeping the loaded roster.
    pub fn unfocus_friends(&mut self)
        ensures
            final(self).view == View::Library,
            final(self).friends == old(self).friends,
    {
        self.view = View::Library;
    }

    /// The highlighted friend, if any.
    pub fn selected_friend(&self) -> (r: Option<&FriendJson>)
        ensures
            self.friends.index < self.friends.list@.len() ==> r == Some(&self.friends.list@[self.friends.index as int]),
            self.friends.index >= self.friends.list@.len() ==> r is None,
    {
        if self.friends.index < self.friends.list.len() {
            Some(&self.friends.list[self.friends.index])
        } else {
            None
        }
    }

    /// Moves the friends highlight down one row (clamped).
    pub fn friends_scroll_down(&mut self)
        ensures
            final(self).friends.index == step_down_spec(old(self).friends.index as nat, old(self).friends.list@.len()),
            final(self).friends.list@ == old(self).friends.list@,
    {
        self.friends.index = step_down(self.friends.index, self.friends.list.len());
    }

    /// Moves the friends highlight up one row (clamped).
    pub fn friends_scroll_up(&mut self)
        ensures
            final(self).friends.index == (if old(self).friends.index > 0 { old(self).friends.index - 1 } else { 0 }),
            final(self).friends.list@ == old(self).friends.list@,
    {
        if self.friends.index > 0 {
            self.friends.index = self.friends.index - 1;
        }
    }

    // --- Add-friend overlay ---

    /// Opens the add-friend overlay on an empty query; any lookup still under
    /// way is made stale.
    pub fn open_friend_add(&mut self)
        ensures
            final(self).friends.add_reset_from(old(self).friends, true),
    {
        self.friends.reset_add(true);
    }

    /// Closes the add-friend overlay, dropping its contents; any lookup still
    /// under way is made stale.
    pub fn close_friend_add(&mut self)
        ensures
            final(self).friends.add_reset_from(old(self).friends, false),
    {
        self.friends.reset_add(false);
    }

    /// Types into the query. The preview is dropped and any lookup under way
    /// for the old query made stale.
    pub fn friend_add_push(&mut self, c: char)
        ensures
            final(self).friends.edited_from(old(self).friends, old(self).friends.add_query@.push(c)),
    {
        self.friends.add_push(c);
    }

    /// Deletes the last character of the query, dropping the preview as
    /// typing does.
    pub fn friend_add_pop(&mut self)
        ensures
            final(self).friends.edited_from(old(self).friends, if old(self).friends.add_query@.len() > 0 {
                old(self).friends.add_query@.drop_last()
            } else {
                old(self).friends.add_query@
            }),
    {
        self.friends.add_pop();
    }

    /// The lookup to run for the typed reference: the trimmed query with the
    /// generation it is launched for, or nothing when the query is blank.
    pub fn friend_search(&mut self) -> (job: Option<(String, u64)>)
        ensures
            final(self).friends.search_launched(old(self).friends, job),
    {
        self.friends.search()
    }

    /// Records a finished lookup launched for `gen`: the status line tells
    /// what was found, and a found account is handed back, tagged, for
    /// [`Browser::poll_friends_ops`] to adopt.
    pub fn record_friend_search(&mut self, gen: u64, result: Result<FriendSearchJson, STError>) -> (pending: Option<(u64, FriendSearchJson)>)
        ensures
            final(self).friends.add_status@ == search_status_text(result),
            result is Ok ==> pending == Some((gen, result->Ok_0)),
            result is Err ==> pending is None,
            final(self).friends.search_gen == old(self).friends.search_gen,
            final(self).friends.search_result == old(self).friends.search_result,
    {
        self.friends.record_search(gen, result)
    }

    /// The account a friend request goes to, or nothing when there is none;
    /// the status line says the request is on its way.
    pub fn friend_add_confirm(&mut self) -> (target: Option<String>)
        ensures
            final(self).friends.add_confirmed(old(self).friends, target),
    {
        self.friends.add_confirm()
    }

    /// Records the answer to a friend request: on success the status says so
    /// and the roster is due for a re-fetch; a failure is shown.
    pub fn record_friend_add(&mut self, result: Result<(), STError>)
        ensures
            result is Ok ==> final(self).friends.add_status@ == "Request sent."@ && final(self).friends.refresh_requested,
            result is Err ==> final(self).friends.add_status@ == failed_text(result->Err_0)
                && final(self).friends.refresh_requested == old(self).friends.refresh_requested,
    {
        self.friends.record_add(result);
    }

    /// The SteamID of the highlighted friend, to remove (or whose pending
    /// request to cancel); nothing without a highlight.
    pub fn friend_remove_confirm(&self) -> (id: Option<u64>)
        ensures
            self.friends.index < self.friends.list@.len() ==> id == Some(self.friends.list@[self.friends.index as int].steam_id),
            self.friends.index >= self.friends.list@.len() ==> id is None,
    {
        match self.selected_friend() {
            Some(f) => Some(f.steam_id),
            None => None,
        }
    }

    /// Records the answer to a removal: on success the roster is due for a
    /// re-fetch.
    pub fn record_friend_remove(&mut self, result: Result<(), STError>)
        ensures
            result is Ok ==> final(self).friends.refresh_requested,
            result is Err ==> final(self).friends.refresh_requested == old(self).friends.refresh_requested,
            final(self).friends.list@ == old(self).friends.list@,
    {
        if result.is_ok() {
            self.friends.refresh_requested = true;
        }
    }

    /// Takes in what the workers finished since the last call: a lookup is
    /// adopted into the preview only when it was launched for the current
    /// generation, and a fetched roster replaces the list with the highlight
    /// kept in range. Answers whether a roster fetch is due now (and clears
    /// that request).
    pub fn poll_friends_ops(&mut self, adopted: Option<(u64, FriendSearchJson)>, roster: Option<Vec<FriendJson>>) -> (fetch: bool)
        ensures
            final(self).friends.polled_from(old(self).friends, adopted, match roster { Some(v) => Some(v@), None => None }, fetch),
    {
        self.friends.poll(adopted, roster)
    }

    // --- Chat view ---

    /// Opens the conversation with the highlighted friend on `history`, with
    /// an empty composer; without a highlight nothing changes.
    pub fn open_chat(&mut self, history: Vec<ChatMessageJson>) -> (opened: bool)
        ensures
            opened == (old(self).friends.index < old(self).friends.list@.len()),
            opened ==> {
                let f = old(self).friends.list@[old(self).friends.index as int];
                &&& final(self).chat.show
                &&& final(self).chat.steamid == f.steam_id
                &&& final(self).chat.partner@ == name_or_id(f.persona_name, f.steam_id)
                &&& final(self).chat.input@.len() == 0
                &&& final(self).chat.scroll == 0
                &&& final(self).chat.messages@ == history@
            },
            !opened ==> final(self).chat == old(self).chat,
    {
        if self.friends.index >= self.friends.list.len() {
            return false;
        }
        let steamid = self.friends.list[self.friends.index].steam_id;
        let partner = self.friends.list[self.friends.index].display_name();
        self.chat = ChatPane { show: true, messages: history, steamid, partner, input: String::new(), scroll: 0 };
        true
    }

    /// Closes the chat view and drops its state.
    pub fn close_chat(&mut self)
        ensures
            final(self).chat.is_closed(),
    {
        self.chat = ChatPane::closed();
    }

    /// Takes a re-fetched history, which the launcher gives newest first, and
    /// keeps it oldest first: reversed, then stably sorted by send time.
    pub fn refresh_chat(&mut self, history: Vec<ChatMessageJson>)
        ensures
            stable_by_time(final(self).chat.messages@, history@.reverse()),
            final(self).chat.steamid == old(self).chat.steamid,
            final(self).chat.show == old(self).chat.show,
    {
        let rev = reversed(history);
        self.chat.messages = sort_by_time(rev);
    }

    /// The message to send to the partner, taken from the composer (which is
    /// emptied); nothing when the composer is empty.
    pub fn chat_send(&mut self) -> (out: Option<(u64, String)>)
        ensures
            old(self).chat.input@.len() == 0 ==> out is None && final(self).chat == old(self).chat,
            old(self).chat.input@.len() > 0 ==> {
                &&& out is Some
                &&& (out->0).0 == old(self).chat.steamid
                &&& (out->0).1@ == old(self).chat.input@
                &&& final(self).chat.input@.len() == 0
                &&& final(self).chat.steamid == old(self).chat.steamid
            },
    {
        if self.chat.input.as_str().unicode_len() == 0 {
            return None;
        }
        let text = owned(self.chat.input.as_str());
        self.chat.input = String::new();
        Some((self.chat.steamid, text))
    }

    /// Types into the composer.
    pub fn chat_push(&mut self, c: char)
        ensures
            final(self).chat.input@ == old(self).chat.input@.push(c),
    {
        push_char(&mut self.chat.input, c);
    }

    /// Deletes the composer's last character.
    pub fn chat_pop(&mut self)
        ensures
            final(self).chat.input@ == (if old(self).chat.input@.len() > 0 {
                old(self).chat.input@.drop_last()
            } else {
                old(self).chat.input@
            }),
    {
        pop_char(&mut self.chat.input);
    }
}

} // verus!
