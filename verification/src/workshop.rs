//! The Workshop overlay: the subscribed items of a game, and a browse mode
//! that searches the Workshop, (un)subscribes, rates and reads comments.
//! Every request is tagged with the overlay's generation; an answer for an
//! older generation is never shown.

use vstd::prelude::*;
use crate::aurelia::{WorkshopCommentJson, WorkshopItemJson};
use crate::browse::Browser;
use crate::nav::{bump_gen, gen_after, lemma_gen_not_reused, next_gen, scroll_down, scroll_down_spec, scroll_up};
use crate::text::{concat, owned, pop_char, push_char};

verus! {

/// `item` after a (un)subscribe of `id` went through.
pub open spec fn marked(item: WorkshopItemJson, id: u64, subscribed: bool) -> WorkshopItemJson {
    WorkshopItemJson {
        id: item.id,
        title: item.title,
        installed: item.installed,
        subscribed: if item.id == Some(id) { subscribed } else { item.subscribed },
        file_size: item.file_size,
    }
}

/// The status line after a (un)subscribe request.
pub open spec fn subscribe_status_text(subscribe: bool, result: Result<(), String>) -> Seq<char> {
    match result {
        Ok(()) => if subscribe { "Subscribed."@ } else { "Unsubscribed."@ },
        Err(e) => if subscribe { "Subscribe failed: "@ + e@ } else { "Unsubscribe failed: "@ + e@ },
    }
}

/// The last row a scroll offset may rest on for `len` rows.
pub open spec fn last_row(len: nat) -> nat {
    if len == 0 { 0 } else { (len - 1) as nat }
}

/// What the workshop's background jobs have posted and the poll has not
/// taken yet: a browse search (with its generation), an (un)subscribe of an
/// item, a refreshed subscribed list, a rating and fetched comments (each
/// with its generation).
pub struct WorkshopInbox {
    pub search: Option<(u64, Result<Vec<WorkshopItemJson>, String>)>,
    pub action: Option<(u64, bool, Result<(), String>)>,
    pub refresh: Option<(u64, Vec<WorkshopItemJson>)>,
    pub rated: Option<(u64, Result<(), String>)>,
    pub comments: Option<(u64, Result<Vec<WorkshopCommentJson>, String>)>,
}

impl WorkshopInbox {
    /// Nothing posted.
    pub fn empty() -> (r: WorkshopInbox)
        ensures
            r.search is None && r.action is None && r.refresh is None && r.rated is None && r.comments is None,
    {
        WorkshopInbox { search: None, action: None, refresh: None, rated: None, comments: None }
    }
}

pub open spec fn search_view(p: Option<(u64, Result<Vec<WorkshopItemJson>, String>)>) -> Option<(u64, Result<Seq<WorkshopItemJson>, String>)> {
    match p {
        Some((g, Ok(v))) => Some((g, Ok(v@))),
        Some((g, Err(e))) => Some((g, Err(e))),
        None => None,
    }
}

pub open spec fn refresh_view(p: Option<(u64, Vec<WorkshopItemJson>)>) -> Option<(u64, Seq<WorkshopItemJson>)> {
    match p {
        Some((g, v)) => Some((g, v@)),
        None => None,
    }
}

pub open spec fn comments_view(p: Option<(u64, Result<Vec<WorkshopCommentJson>, String>)>) -> Option<(u64, Result<Seq<WorkshopCommentJson>, String>)> {
    match p {
        Some((g, Ok(v))) => Some((g, Ok(v@))),
        Some((g, Err(e))) => Some((g, Err(e))),
        None => None,
    }
}

/// The Workshop overlay's state.
#[derive(Debug, Clone)]
pub struct WorkshopPane {
    pub show: bool,
    /// The subscribed items.
    pub items: Vec<WorkshopItemJson>,
    pub scroll: usize,
    pub app_id: i32,
    /// Browse/search mode rather than the subscribed list.
    pub browse: bool,
    pub query: String,
    pub results: Vec<WorkshopItemJson>,
    pub index: usize,
    pub searching: bool,
    pub status: String,
    /// Tags requests; an answer under an older tag is stale.
    pub gen: u64,
    /// A (un)subscribe is under way.
    pub acting: bool,
    /// A rating is under way.
    pub rating: bool,
    pub comments_open: bool,
    pub comments_loading: bool,
    pub comments: Vec<WorkshopCommentJson>,
    pub comments_scroll: usize,
    pub comments_status: String,
    pub comments_id: u64,
}

impl WorkshopPane {
    pub fn empty() -> (p: WorkshopPane)
        ensures
            !p.show,
            p.items@.len() == 0,
            p.results@.len() == 0,
            p.gen == 0,
            !p.comments_open,
    {
        WorkshopPane {
            show: false,
            items: Vec::new(),
            scroll: 0,
            app_id: 0,
            browse: false,
            query: String::new(),
            results: Vec::new(),
            index: 0,
            searching: false,
            status: String::new(),
            gen: 0,
            acting: false,
            rating: false,
            comments_open: false,
            comments_loading: false,
            comments: Vec::new(),
            comments_scroll: 0,
            comments_status: String::new(),
            comments_id: 0,
        }
    }

    /// The comments sub-pane closed from `before`: the generation moves on
    /// when it was open, so that a fetch under way is dropped.
    pub open spec fn comments_closed_from(self, before: WorkshopPane) -> bool {
        &&& !self.comments_open
        &&& !self.comments_loading
        &&& self.comments@.len() == 0
        &&& self.comments_scroll == 0
        &&& self.comments_status@.len() == 0
        &&& self.comments_id == 0
        &&& self.gen == (if before.comments_open { next_gen(before.gen) } else { before.gen })
    }

    fn close_comments(&mut self)
        ensures
            final(self).comments_closed_from(*old(self)),
            final(self).show == old(self).show,
            final(self).items@ == old(self).items@,
            final(self).results@ == old(self).results@,
            final(self).browse == old(self).browse,
            final(self).status@ == old(self).status@,
            final(self).searching == old(self).searching,
            final(self).rating == old(self).rating,
            final(self).index == old(self).index,
    {
        if self.comments_open {
            self.gen = bump_gen(self.gen);
        }
        self.comments_open = false;
        self.comments_loading = false;
        self.comments = Vec::new();
        self.comments_scroll = 0;
        self.comments_status = String::new();
        self.comments_id = 0;
    }

    /// The browse state cleared: no query, results, search or status.
    pub open spec fn browse_cleared(self) -> bool {
        &&& !self.browse
        &&& self.query@.len() == 0
        &&& self.results@.len() == 0
        &&& self.index == 0
        &&& !self.searching
        &&& self.status@.len() == 0
        &&& !self.rating
    }

    /// Opened from `before` on the subscribed `items` of `app_id`.
    pub open spec fn opened_from(self, before: WorkshopPane, app_id: i32, items: Seq<WorkshopItemJson>) -> bool {
        &&& self.show
        &&& self.items@ == items
        &&& self.scroll == 0
        &&& self.app_id == app_id
        &&& self.browse_cleared()
        &&& !self.comments_open
        &&& self.comments@.len() == 0
        &&& self.gen == (if before.comments_open { next_gen(before.gen) } else { before.gen })
    }

    fn open(&mut self, app_id: i32, items: Vec<WorkshopItemJson>)
        ensures
            final(self).opened_from(*old(self), app_id, items@),
    {
        self.close_comments();
        self.items = items;
        self.scroll = 0;
        self.app_id = app_id;
        self.browse = false;
        self.query = String::new();
        self.results = Vec::new();
        self.index = 0;
        self.searching = false;
        self.status = String::new();
        self.rating = false;
        self.show = true;
    }

    /// Closed from `before`: everything dropped and the generation moved on
    /// (twice when the comments were open), so no late answer is shown.
    pub open spec fn closed_from(self, before: WorkshopPane) -> bool {
        &&& !self.show
        &&& self.items@.len() == 0
        &&& self.scroll == 0
        &&& self.browse_cleared()
        &&& !self.comments_open
        &&& self.comments@.len() == 0
        &&& self.gen == next_gen(if before.comments_open { next_gen(before.gen) } else { before.gen })
    }

    fn close(&mut self)
        ensures
            final(self).closed_from(*old(self)),
    {
        self.close_comments();
        self.show = false;
        self.items = Vec::new();
        self.scroll = 0;
        self.browse = false;
        self.query = String::new();
        self.results = Vec::new();
        self.index = 0;
        self.searching = false;
        self.status = String::new();
        self.rating = false;
        self.gen = bump_gen(self.gen);
    }

    /// A browse search launched from `before`: a new generation, marked as
    /// searching; the job carries the game, the query and that generation.
    pub open spec fn search_started_from(self, before: WorkshopPane, job: (i32, String, u64)) -> bool {
        &&& self.gen == next_gen(before.gen)
        &&& self.searching
        &&& self.status@.len() == 0
        &&& job.0 == before.app_id
        &&& job.1@ == before.query@
        &&& job.2 == self.gen
        &&& self.query@ == before.query@
        &&& self.results@ == before.results@
        &&& self.browse == before.browse
        &&& self.index == before.index
    }

    fn start_search(&mut self) -> (job: (i32, String, u64))
        ensures
            final(self).search_started_from(*old(self), job),
    {
        self.gen = bump_gen(self.gen);
        self.searching = true;
        self.status = String::new();
        (self.app_id, owned(self.query.as_str()), self.gen)
    }

    /// Taking in a finished browse search from `before`: a search of another
    /// generation changes nothing (and ends this poll); else the results
    /// replace the old ones, with `No matches.` or the failure in the status.
    pub open spec fn search_polled_from(
        self,
        before: WorkshopPane,
        posted: Option<(u64, Result<Seq<WorkshopItemJson>, String>)>,
        go_on: bool,
    ) -> bool {
        &&& go_on == !(posted is Some && (posted->0).0 != before.gen)
        &&& self.gen == before.gen
        &&& self.rating == before.rating
        &&& (posted is None || !go_on) ==> {
            &&& self.results@ == before.results@
            &&& self.status@ == before.status@
            &&& self.searching == before.searching
            &&& self.index == before.index
        }
        &&& (posted is Some && go_on) ==> {
            &&& !self.searching
            &&& self.index == 0
            &&& match (posted->0).1 {
                Ok(v) => self.results@ == v && self.status@ == (if v.len() == 0 {
                    "No matches."@
                } else {
                    Seq::<char>::empty()
                }),
                Err(e) => self.results@.len() == 0 && self.status@ == "Browse failed: "@ + e@,
            }
        }
        &&& self.items@ == before.items@
        &&& self.comments_open == before.comments_open
        &&& (posted is None || !go_on) ==> self == before
        &&& self == (WorkshopPane {
            searching: self.searching,
            index: self.index,
            results: self.results,
            status: self.status,
            ..before
        })
    }

    fn poll_search(&mut self, posted: Option<(u64, Result<Vec<WorkshopItemJson>, String>)>) -> (go_on: bool)
        ensures
            final(self).search_polled_from(*old(self), match posted {
                Some((g, Ok(v))) => Some((g, Ok(v@))),
                Some((g, Err(e))) => Some((g, Err(e))),
                None => None,
            }, go_on),
    {
        match posted {
            None => true,
            Some((generation, result)) => {
                if generation != self.gen {
                    return false;
                }
                self.searching = false;
                self.index = 0;
                match result {
                    Ok(items) => {
                        self.results = items;
                        proof {
                            reveal_strlit("No matches.");
                        }
                        if self.results.len() == 0 {
                            self.status = owned("No matches.");
                        } else {
                            self.status = String::new();
                        }
                    },
                    Err(err) => {
                        self.results = Vec::new();
                        proof {
                            reveal_strlit("Browse failed: ");
                        }
                        self.status = concat("Browse failed: ", err.as_str());
                    },
                }
                true
            },
        }
    }

    fn mark_results(&mut self, id: u64, subscribed: bool)
        ensures
            final(self).results@.len() == old(self).results@.len(),
            forall|i: int| 0 <= i < old(self).results@.len()
                ==> #[trigger] final(self).results@[i] == marked(old(self).results@[i], id, subscribed),
            final(self).items@ == old(self).items@,
            final(self).gen == old(self).gen,
            final(self).status == old(self).status,
            final(self).acting == old(self).acting,
            final(self).rating == old(self).rating,
            *final(self) == (WorkshopPane { results: final(self).results, ..*old(self) }),
    {
        let ghost before = self.results@;
        let n = self.results.len();
        let mut rest = Vec::new();
        std::mem::swap(&mut rest, &mut self.results);
        let mut out: Vec<WorkshopItemJson> = Vec::new();
        let mut k: usize = 0;
        while rest.len() > 0
            invariant
                k + rest.len() == n,
                n == before.len(),
                out.len() == k,
                rest@ == before.subrange(k as int, before.len() as int),
                forall|i: int| 0 <= i < k ==> #[trigger] out@[i] == marked(before[i], id, subscribed),
            decreases rest.len(),
        {
            let mut item = rest.remove(0);
            if item.id == Some(id) {
                item.subscribed = subscribed;
            }
            out.push(item);
            k = k + 1;
        }
        self.results = out;
    }

    /// Taking in a finished (un)subscribe: the matching result rows take the
    /// new subscription when it went through, and the status says how it
    /// went.
    pub open spec fn action_polled_from(self, before: WorkshopPane, action: Option<(u64, bool, Result<(), String>)>) -> bool {
        &&& action is None ==> self.results@ == before.results@ && self.status@ == before.status@
            && self.acting == before.acting
        &&& action is Some ==> {
            let (id, subscribe, result) = action->0;
            &&& !self.acting
            &&& self.status@ == subscribe_status_text(subscribe, result)
            &&& self.results@.len() == before.results@.len()
            &&& forall|i: int| 0 <= i < before.results@.len() ==> #[trigger] self.results@[i] == (if result is Ok {
                marked(before.results@[i], id, subscribe)
            } else {
                before.results@[i]
            })
        }
        &&& self.gen == before.gen
        &&& self.items@ == before.items@
        &&& self.rating == before.rating
        &&& action is None ==> self == before
        &&& self == (WorkshopPane { acting: self.acting, status: self.status, results: self.results, ..before })
    }

    #[verifier::spinoff_prover]
    #[verifier::rlimit(60)]
    fn poll_inbox(&mut self, inbox: &mut WorkshopInbox) -> (go_on: bool)
        ensures
            final(inbox).search is None,
            !go_on ==> *final(self) == *old(self),
            !go_on ==> {
                &&& final(self).search_polled_from(*old(self), search_view(old(inbox).search), false)
                &&& final(inbox).action == old(inbox).action
                &&& final(inbox).refresh == old(inbox).refresh
                &&& final(inbox).rated == old(inbox).rated
                &&& final(inbox).comments == old(inbox).comments
            },
            go_on ==> {
                &&& final(inbox).action is None && final(inbox).refresh is None
                &&& final(inbox).rated is None && final(inbox).comments is None
                &&& exists|w1: WorkshopPane, w2: WorkshopPane, w3: WorkshopPane, w4: WorkshopPane| {
                    &&& #[trigger] w1.search_polled_from(*old(self), search_view(old(inbox).search), true)
                    &&& #[trigger] w2.action_polled_from(w1, old(inbox).action)
                    &&& #[trigger] w3.refresh_polled_from(w2, refresh_view(old(inbox).refresh))
                    &&& #[trigger] w4.rate_polled_from(w3, old(inbox).rated)
                    &&& final(self).comments_polled_from(w4, comments_view(old(inbox).comments))
                }
            },
            go_on && old(inbox).rated is Some ==> !final(self).rating,
            go_on && old(inbox).rated is Some && (old(inbox).rated->0).0 == old(self).gen ==> final(self).status@ == (match (old(inbox).rated->0).1 {
                Ok(()) => "Rated."@,
                Err(e) => "Rate failed: "@ + e@,
            }),
            go_on && old(inbox).rated is None ==> final(self).rating == old(self).rating,
            go_on && old(inbox).search is Some ==> !final(self).searching && final(self).index == 0,
            go_on && old(inbox).search is Some && old(inbox).action is None ==> final(self).results@ == (match (old(inbox).search->0).1 {
                Ok(v) => v@,
                Err(_) => Seq::<WorkshopItemJson>::empty(),
            }),
            go_on && old(inbox).search is Some && old(inbox).action is None && old(inbox).rated is None ==> final(self).status@ == (match (old(inbox).search->0).1 {
                Ok(v) => if v@.len() == 0 { "No matches."@ } else { Seq::<char>::empty() },
                Err(e) => "Browse failed: "@ + e@,
            }),
            go_on && old(inbox).search is None ==> final(self).searching == old(self).searching && final(self).index == old(self).index,
            go_on && old(inbox).search is None && old(inbox).action is None ==> final(self).results == old(self).results,
            go_on && old(inbox).refresh is None ==> final(self).items == old(self).items && final(self).scroll == old(self).scroll,
            final(self).query == old(self).query,
            final(self).browse == old(self).browse,
            final(self).show == old(self).show,
            final(self).app_id == old(self).app_id,
            final(self).comments_open == old(self).comments_open,
            final(self).gen == old(self).gen,
    {
        let posted = inbox.search.take();
        let go_on = self.poll_search(posted);
        if !go_on {
            return false;
        }
        let ghost w1 = *self;
        self.poll_action(inbox.action.take());
        let ghost w2 = *self;
        self.poll_refresh(inbox.refresh.take());
        let ghost w3 = *self;
        self.poll_rate(inbox.rated.take());
        let ghost w4 = *self;
        self.poll_comments(inbox.comments.take());
        assert(w1.search_polled_from(*old(self), search_view(old(inbox).search), true));
        assert(w2.action_polled_from(w1, old(inbox).action));
        assert(w3.refresh_polled_from(w2, refresh_view(old(inbox).refresh)));
        assert(w4.rate_polled_from(w3, old(inbox).rated));
        true
    }

    fn poll_action(&mut self, action: Option<(u64, bool, Result<(), String>)>)
        ensures
            final(self).action_polled_from(*old(self), action),
    {
        if let Some((id, subscribe, result)) = action {
            self.acting = false;
            proof {
                reveal_strlit("Subscribed.");
                reveal_strlit("Unsubscribed.");
                reveal_strlit("Subscribe failed: ");
                reveal_strlit("Unsubscribe failed: ");
            }
            match result {
                Ok(()) => {
                    self.mark_results(id, subscribe);
                    self.status = if subscribe { owned("Subscribed.") } else { owned("Unsubscribed.") };
                },
                Err(err) => {
                    self.status = if subscribe {
                        concat("Subscribe failed: ", err.as_str())
                    } else {
                        concat("Unsubscribe failed: ", err.as_str())
                    };
                },
            }
        }
    }

    /// Taking in a re-fetched subscribed list: adopted (the scroll offset
    /// kept on a row) only when it carries the current generation.
    pub open spec fn refresh_polled_from(self, before: WorkshopPane, refresh: Option<(u64, Seq<WorkshopItemJson>)>) -> bool {
        let adopt = refresh is Some && (refresh->0).0 == before.gen;
        &&& adopt ==> {
            &&& self.items@ == (refresh->0).1
            &&& self.scroll == (if before.scroll > last_row((refresh->0).1.len()) {
                last_row((refresh->0).1.len())
            } else {
                before.scroll as nat
            })
        }
        &&& !adopt ==> self.items@ == before.items@ && self.scroll == before.scroll
        &&& self.gen == before.gen
        &&& self.results@ == before.results@
        &&& self.rating == before.rating
        &&& !adopt ==> self == before
        &&& self == (WorkshopPane { items: self.items, scroll: self.scroll, ..before })
    }

    fn poll_refresh(&mut self, refresh: Option<(u64, Vec<WorkshopItemJson>)>)
        ensures
            final(self).refresh_polled_from(*old(self), match refresh {
                Some((g, v)) => Some((g, v@)),
                None => None,
            }),
    {
        if let Some((generation, items)) = refresh {
            if generation == self.gen {
                self.items = items;
                let max = if self.items.len() == 0 { 0 } else { self.items.len() - 1 };
                if self.scroll > max {
                    self.scroll = max;
                }
            }
        }
    }

    /// Taking in a finished rating: the guard against a second rating is
    /// always lifted; the status line is set only for the current
    /// generation.
    pub open spec fn rate_polled_from(self, before: WorkshopPane, rated: Option<(u64, Result<(), String>)>) -> bool {
        &&& rated is None ==> self.rating == before.rating && self.status@ == before.status@
        &&& rated is Some ==> !self.rating
        &&& rated is Some && (rated->0).0 == before.gen ==> self.status@ == (match (rated->0).1 {
            Ok(()) => "Rated."@,
            Err(e) => "Rate failed: "@ + e@,
        })
        &&& rated is Some && (rated->0).0 != before.gen ==> self.status@ == before.status@
        &&& self.gen == before.gen
        &&& self.results@ == before.results@
        &&& rated is None ==> self == before
        &&& self == (WorkshopPane { rating: self.rating, status: self.status, ..before })
    }

    fn poll_rate(&mut self, rated: Option<(u64, Result<(), String>)>)
        ensures
            final(self).rate_polled_from(*old(self), rated),
    {
        if let Some((generation, result)) = rated {
            self.rating = false;
            if generation == self.gen {
                proof {
                    reveal_strlit("Rated.");
                    reveal_strlit("Rate failed: ");
                }
                self.status = match result {
                    Ok(()) => owned("Rated."),
                    Err(err) => concat("Rate failed: ", err.as_str()),
                };
            }
        }
    }

    /// Taking in fetched comments: shown only when they carry the current
    /// generation and the sub-pane is still open.
    pub open spec fn comments_polled_from(
        self,
        before: WorkshopPane,
        fetched: Option<(u64, Result<Seq<WorkshopCommentJson>, String>)>,
    ) -> bool {
        let adopt = fetched is Some && (fetched->0).0 == before.gen && before.comments_open;
        &&& adopt ==> {
            &&& !self.comments_loading
            &&& self.comments_scroll == 0
            &&& match (fetched->0).1 {
                Ok(v) => self.comments@ == v && self.comments_status@ == (if v.len() == 0 {
                    "No comments."@
                } else {
                    Seq::<char>::empty()
                }),
                Err(e) => self.comments@.len() == 0 && self.comments_status@ == "Comments failed: "@ + e@,
            }
        }
        &&& !adopt ==> {
            &&& self.comments@ == before.comments@
            &&& self.comments_status@ == before.comments_status@
            &&& self.comments_loading == before.comments_loading
            &&& self.comments_scroll == before.comments_scroll
        }
        &&& self.comments_open == before.comments_open
        &&& self.gen == before.gen
        &&& self.status@ == before.status@
        &&& self.rating == before.rating
        &&& !adopt ==> self == before
        &&& self == (WorkshopPane {
            comments_loading: self.comments_loading,
            comments_scroll: self.comments_scroll,
            comments: self.comments,
            comments_status: self.comments_status,
            ..before
        })
    }

    fn poll_comments(&mut self, fetched: Option<(u64, Result<Vec<WorkshopCommentJson>, String>)>)
        ensures
            final(self).comments_polled_from(*old(self), match fetched {
                Some((g, Ok(v))) => Some((g, Ok(v@))),
                Some((g, Err(e))) => Some((g, Err(e))),
                None => None,
            }),
    {
        if let Some((generation, result)) = fetched {
            if generation == self.gen && self.comments_open {
                self.comments_loading = false;
                self.comments_scroll = 0;
                proof {
                    reveal_strlit("No comments.");
                    reveal_strlit("Comments failed: ");
                }
                match result {
                    Ok(items) => {
                        self.comments = items;
                        self.comments_status = if self.comments.len() == 0 {
                            owned("No comments.")
                        } else {
                            String::new()
                        };
                    },
                    Err(err) => {
                        self.comments = Vec::new();
                        self.comments_status = concat("Comments failed: ", err.as_str());
                    },
                }
            }
        }
    }

    /// The highlighted browse result's id, when there is a highlight and the
    /// result has one.
    pub open spec fn selected_id(self) -> Option<u64> {
        if self.index < self.results@.len() { self.results@[self.index as int].id } else { None }
    }

    fn selected_id_exec(&self) -> (r: Option<u64>)
        ensures
            r == self.selected_id(),
    {
        if self.index < self.results.len() {
            self.results[self.index].id
        } else {
            None
        }
    }

    /// A (un)subscribe launched from `before`: none while one is under way
    /// or without a highlighted result with an id; else the job is the id,
    /// whether to subscribe (the opposite of now), the game and the
    /// generation.
    pub open spec fn toggled_from(self, before: WorkshopPane, job: Option<(u64, bool, i32, u64)>) -> bool {
        &&& (before.acting || before.selected_id() is None) ==> job is None && self.acting == before.acting
            && self.status@ == before.status@
        &&& (!before.acting && before.selected_id() is Some) ==> {
            let subscribe = !before.results@[before.index as int].subscribed;
            &&& job == Some((before.selected_id()->0, subscribe, before.app_id, before.gen))
            &&& self.acting
            &&& self.status@ == (if subscribe { "Subscribing\u{2026}"@ } else { "Unsubscribing\u{2026}"@ })
        }
        &&& self.gen == before.gen
        &&& self.results@ == before.results@
        &&& self.index == before.index
    }

    fn toggle_subscribe(&mut self) -> (job: Option<(u64, bool, i32, u64)>)
        ensures
            final(self).toggled_from(*old(self), job),
    {
        if self.acting {
            return None;
        }
        let id = match self.selected_id_exec() {
            Some(id) => id,
            None => return None,
        };
        let subscribe = !self.results[self.index].subscribed;
        self.acting = true;
        self.status = if subscribe { owned("Subscribing\u{2026}") } else { owned("Unsubscribing\u{2026}") };
        Some((id, subscribe, self.app_id, self.gen))
    }

    /// A rating launched from `before`: none while one is under way or
    /// without a highlighted result with an id; else the id, the direction
    /// and the generation.
    pub open spec fn rated_from(self, before: WorkshopPane, up: bool, job: Option<(u64, bool, u64)>) -> bool {
        &&& (before.rating || before.selected_id() is None) ==> job is None && self.rating == before.rating
            && self.status@ == before.status@
        &&& (!before.rating && before.selected_id() is Some) ==> {
            &&& job == Some((before.selected_id()->0, up, before.gen))
            &&& self.rating
            &&& self.status@ == (if up { "Rating up\u{2026}"@ } else { "Rating down\u{2026}"@ })
        }
        &&& self.gen == before.gen
        &&& self.results@ == before.results@
    }

    fn rate(&mut self, up: bool) -> (job: Option<(u64, bool, u64)>)
        ensures
            final(self).rated_from(*old(self), up, job),
    {
        if self.rating {
            return None;
        }
        let id = match self.selected_id_exec() {
            Some(id) => id,
            None => return None,
        };
        self.rating = true;
        self.status = if up { owned("Rating up\u{2026}") } else { owned("Rating down\u{2026}") };
        Some((id, up, self.gen))
    }

    /// The comments sub-pane opened from `before` on the highlighted result:
    /// loading, empty; the job is the item's id and the generation.
    pub open spec fn comments_opened_from(self, before: WorkshopPane, job: Option<(u64, u64)>) -> bool {
        &&& before.selected_id() is None ==> job is None && self.comments_open == before.comments_open
            && self.comments_id == before.comments_id
        &&& before.selected_id() is Some ==> {
            &&& job == Some((before.selected_id()->0, before.gen))
            &&& self.comments_open
            &&& self.comments_loading
            &&& self.comments@.len() == 0
            &&& self.comments_scroll == 0
            &&& self.comments_status@.len() == 0
            &&& self.comments_id == before.selected_id()->0
        }
        &&& self.gen == before.gen
    }

    fn open_comments(&mut self) -> (job: Option<(u64, u64)>)
        ensures
            final(self).comments_opened_from(*old(self), job),
    {
        let id = match self.selected_id_exec() {
            Some(id) => id,
            None => return None,
        };
        self.comments_open = true;
        self.comments_loading = true;
        self.comments = Vec::new();
        self.comments_scroll = 0;
        self.comments_status = String::new();
        self.comments_id = id;
        Some((id, self.gen))
    }
}

/// A browse search superseded by a newer one never shows: starting the
/// newer search moves the generation on, and the older search's answer is
/// then dropped, ending the poll.
pub proof fn lemma_superseded_search_dropped(
    first: WorkshopPane,
    second: WorkshopPane,
    polled: WorkshopPane,
    job: (i32, String, u64),
    found: Result<Seq<WorkshopItemJson>, String>,
    go_on: bool,
)
    requires
        second.search_started_from(first, job),
        polled.search_polled_from(second, Some((first.gen, found)), go_on),
    ensures
        !go_on,
        polled.results@ == second.results@,
        polled.searching,
{
}

/// A browse search whose generation has since moved on, by any number of
/// bumps short of a full wrap of the tag, never shows: the poll ends there
/// and the pane is left as it was.
pub proof fn lemma_stale_search_never_shown(
    before: WorkshopPane,
    polled: WorkshopPane,
    g: u64,
    k: nat,
    found: Result<Seq<WorkshopItemJson>, String>,
    go_on: bool,
)
    requires
        0 < k < 0x1_0000_0000_0000_0000,
        before.gen == gen_after(g, k),
        polled.search_polled_from(before, Some((g, found)), go_on),
    ensures
        !go_on,
        polled == before,
{
    lemma_gen_not_reused(g, k);
}

/// Comments fetched for a sub-pane that was since closed are never shown:
/// closing moves the generation on, so even after the sub-pane is opened
/// again (on any item) the old fetch is dropped.
pub proof fn lemma_closed_comments_fetch_dropped(
    start: WorkshopPane,
    opened: WorkshopPane,
    closed: WorkshopPane,
    reopened: WorkshopPane,
    polled: WorkshopPane,
    id: u64,
    gen: u64,
    job: Option<(u64, u64)>,
    found: Result<Seq<WorkshopCommentJson>, String>,
)
    requires
        opened.comments_opened_from(start, Some((id, gen))),
        closed.comments_closed_from(opened),
        reopened.comments_opened_from(closed, job),
        polled.comments_polled_from(reopened, Some((gen, found))),
    ensures
        polled.comments@ == reopened.comments@,
        polled.comments_status@ == reopened.comments_status@,
        polled.comments_loading == reopened.comments_loading,
{
}

impl Browser {
    /// Opens the Workshop overlay on the subscribed `items` of `app_id`, in
    /// list mode.
    pub fn open_workshop(&mut self, app_id: i32, items: Vec<WorkshopItemJson>)
        ensures
            final(self).workshop.opened_from(old(self).workshop, app_id, items@),
    {
        self.workshop.open(app_id, items);
    }

    /// Closes the Workshop overlay, dropping its data; answers under way are
    /// made stale.
    pub fn close_workshop(&mut self)
        ensures
            final(self).workshop.closed_from(old(self).workshop),
    {
        self.workshop.close();
    }

    /// Scrolls the subscribed list down one row (clamped).
    pub fn workshop_scroll_down(&mut self)
        ensures
            final(self).workshop.scroll == scroll_down_spec(old(self).workshop.scroll as nat, old(self).workshop.items@.len()),
    {
        self.workshop.scroll = scroll_down(self.workshop.scroll, self.workshop.items.len());
    }

    /// Scrolls the subscribed list up one row (clamped).
    pub fn workshop_scroll_up(&mut self)
        ensures
            final(self).workshop.scroll == (if old(self).workshop.scroll > 0 { old(self).workshop.scroll - 1 } else { 0 }),
    {
        self.workshop.scroll = scroll_up(self.workshop.scroll);
    }

    /// Switches to browse mode and launches the first (default feed)
    /// search; nothing when already browsing.
    pub fn workshop_enter_browse(&mut self) -> (job: Option<(i32, String, u64)>)
        ensures
            old(self).workshop.browse ==> job is None && final(self).workshop == old(self).workshop,
            !old(self).workshop.browse ==> {
                &&& job is Some
                &&& final(self).workshop.browse
                &&& final(self).workshop.index == 0
                &&& final(self).workshop.gen == next_gen(old(self).workshop.gen)
                &&& final(self).workshop.searching
                &&& final(self).workshop.status@.len() == 0
                &&& (job->0).0 == old(self).workshop.app_id
                &&& (job->0).1@ == old(self).workshop.query@
                &&& (job->0).2 == final(self).workshop.gen
            },
    {
        if self.workshop.browse {
            return None;
        }
        self.workshop.browse = true;
        self.workshop.status = String::new();
        self.workshop.index = 0;
        Some(self.workshop.start_search())
    }

    /// Back to the subscribed list: the search, rating and comments under
    /// way are made stale.
    pub fn workshop_exit_browse(&mut self)
        ensures
            !final(self).workshop.browse,
            final(self).workshop.status@.len() == 0,
            !final(self).workshop.searching,
            !final(self).workshop.rating,
            !final(self).workshop.comments_open,
            final(self).workshop.gen == (if old(self).workshop.comments_open {
                next_gen(next_gen(old(self).workshop.gen))
            } else {
                next_gen(old(self).workshop.gen)
            }),
            final(self).workshop.items@ == old(self).workshop.items@,
    {
        self.workshop.browse = false;
        self.workshop.status = String::new();
        self.workshop.gen = bump_gen(self.workshop.gen);
        self.workshop.searching = false;
        self.workshop.rating = false;
        self.workshop.close_comments();
    }

    /// Types into the browse query.
    pub fn workshop_push_query(&mut self, c: char)
        ensures
            final(self).workshop.query@ == old(self).workshop.query@.push(c),
    {
        push_char(&mut self.workshop.query, c);
    }

    /// Deletes the browse query's last character.
    pub fn workshop_pop_query(&mut self)
        ensures
            final(self).workshop.query@ == (if old(self).workshop.query@.len() > 0 {
                old(self).workshop.query@.drop_last()
            } else {
                old(self).workshop.query@
            }),
    {
        pop_char(&mut self.workshop.query);
    }

    /// Moves the highlight down the browse results (clamped).
    pub fn workshop_next(&mut self)
        ensures
            final(self).workshop.index == scroll_down_spec(old(self).workshop.index as nat, old(self).workshop.results@.len()),
            *final(self) == (Browser { workshop: WorkshopPane { index: final(self).workshop.index, ..old(self).workshop }, ..*old(self) }),
    {
        self.workshop.index = scroll_down(self.workshop.index, self.workshop.results.len());
    }

    /// Moves the highlight up the browse results (clamped).
    pub fn workshop_previous(&mut self)
        ensures
            final(self).workshop.index == (if old(self).workshop.index > 0 { old(self).workshop.index - 1 } else { 0 }),
            *final(self) == (Browser { workshop: WorkshopPane { index: final(self).workshop.index, ..old(self).workshop }, ..*old(self) }),
    {
        self.workshop.index = scroll_up(self.workshop.index);
    }

    /// The highlighted browse result, if any.
    pub fn selected_workshop_result(&self) -> (r: Option<&WorkshopItemJson>)
        ensures
            self.workshop.index < self.workshop.results@.len()
                ==> r == Some(&self.workshop.results@[self.workshop.index as int]),
            self.workshop.index >= self.workshop.results@.len() ==> r is None,
    {
        if self.workshop.index < self.workshop.results.len() {
            Some(&self.workshop.results[self.workshop.index])
        } else {
            None
        }
    }

    /// Launches a browse search for the query under a new generation, so
    /// that an older search still under way can never replace its results.
    pub fn start_workshop_search(&mut self) -> (job: (i32, String, u64))
        ensures
            final(self).workshop.search_started_from(old(self).workshop, job),
    {
        self.workshop.start_search()
    }

    /// Takes in what the workshop's background jobs have posted, in turn: the
    /// browse search, the (un)subscribe, the refreshed subscribed list, the
    /// rating and the comments. A search of another generation is dropped and
    /// the poll ends there (`false`): the other answers stay in the inbox for
    /// the next poll. Otherwise every answer is taken: a finished rating
    /// always clears the rating guard, whatever the generation, so rating is
    /// never wedged; its status line is shown only when of the current
    /// generation.
    #[verifier::spinoff_prover]
    #[verifier::rlimit(60)]
    pub fn poll_workshop(&mut self, inbox: &mut WorkshopInbox) -> (go_on: bool)
        ensures
            final(inbox).search is None,
            !go_on ==> final(self).workshop == old(self).workshop,
            !go_on ==> {
                &&& final(self).workshop.search_polled_from(old(self).workshop, search_view(old(inbox).search), false)
                &&& final(inbox).action == old(inbox).action
                &&& final(inbox).refresh == old(inbox).refresh
                &&& final(inbox).rated == old(inbox).rated
                &&& final(inbox).comments == old(inbox).comments
            },
            go_on ==> {
                &&& final(inbox).action is None && final(inbox).refresh is None
                &&& final(inbox).rated is None && final(inbox).comments is None
                &&& exists|w1: WorkshopPane, w2: WorkshopPane, w3: WorkshopPane, w4: WorkshopPane| {
                    &&& #[trigger] w1.search_polled_from(old(self).workshop, search_view(old(inbox).search), true)
                    &&& #[trigger] w2.action_polled_from(w1, old(inbox).action)
                    &&& #[trigger] w3.refresh_polled_from(w2, refresh_view(old(inbox).refresh))
                    &&& #[trigger] w4.rate_polled_from(w3, old(inbox).rated)
                    &&& final(self).workshop.comments_polled_from(w4, comments_view(old(inbox).comments))
                }
            },
            go_on && old(inbox).rated is Some ==> !final(self).workshop.rating,
            go_on && old(inbox).rated is Some && (old(inbox).rated->0).0 == old(self).workshop.gen ==> final(self).workshop.status@ == (match (old(inbox).rated->0).1 {
                Ok(()) => "Rated."@,
                Err(e) => "Rate failed: "@ + e@,
            }),
            go_on && old(inbox).rated is None ==> final(self).workshop.rating == old(self).workshop.rating,
            go_on && old(inbox).search is Some ==> !final(self).workshop.searching && final(self).workshop.index == 0,
            go_on && old(inbox).search is Some && old(inbox).action is None ==> final(self).workshop.results@ == (match (old(inbox).search->0).1 {
                Ok(v) => v@,
                Err(_) => Seq::<WorkshopItemJson>::empty(),
            }),
            go_on && old(inbox).search is Some && old(inbox).action is None && old(inbox).rated is None ==> final(self).workshop.status@ == (match (old(inbox).search->0).1 {
                Ok(v) => if v@.len() == 0 { "No matches."@ } else { Seq::<char>::empty() },
                Err(e) => "Browse failed: "@ + e@,
            }),
            go_on && old(inbox).search is None ==> final(self).workshop.searching == old(self).workshop.searching && final(self).workshop.index == old(self).workshop.index,
            go_on && old(inbox).search is None && old(inbox).action is None ==> final(self).workshop.results == old(self).workshop.results,
            go_on && old(inbox).refresh is None ==> final(self).workshop.items == old(self).workshop.items && final(self).workshop.scroll == old(self).workshop.scroll,
            final(self).workshop.query == old(self).workshop.query,
            final(self).workshop.browse == old(self).workshop.browse,
            final(self).workshop.show == old(self).workshop.show,
            final(self).workshop.app_id == old(self).workshop.app_id,
            final(self).workshop.comments_open == old(self).workshop.comments_open,
            final(self).workshop.gen == old(self).workshop.gen,
            *final(self) == (Browser { workshop: final(self).workshop, ..*old(self) }),
    {
        self.workshop.poll_inbox(inbox)
    }

    /// Takes in a finished (un)subscribe of item `id`.
    pub fn workshop_adopt_action(&mut self, action: Option<(u64, bool, Result<(), String>)>)
        ensures
            final(self).workshop.action_polled_from(old(self).workshop, action),
    {
        self.workshop.poll_action(action);
    }

    /// Takes in a re-fetched subscribed list, when of the current generation.
    pub fn workshop_adopt_refresh(&mut self, refresh: Option<(u64, Vec<WorkshopItemJson>)>)
        ensures
            final(self).workshop.refresh_polled_from(old(self).workshop, match refresh {
                Some((g, v)) => Some((g, v@)),
                None => None,
            }),
    {
        self.workshop.poll_refresh(refresh);
    }

    /// Takes in a finished rating.
    pub fn workshop_adopt_rating(&mut self, rated: Option<(u64, Result<(), String>)>)
        ensures
            final(self).workshop.rate_polled_from(old(self).workshop, rated),
    {
        self.workshop.poll_rate(rated);
    }

    /// Takes in fetched comments, when of the current generation and still
    /// wanted.
    pub fn workshop_adopt_comments(&mut self, fetched: Option<(u64, Result<Vec<WorkshopCommentJson>, String>)>)
        ensures
            final(self).workshop.comments_polled_from(old(self).workshop, match fetched {
                Some((g, Ok(v))) => Some((g, Ok(v@))),
                Some((g, Err(e))) => Some((g, Err(e))),
                None => None,
            }),
    {
        self.workshop.poll_comments(fetched);
    }

    /// The (un)subscribe to launch for the highlighted result, or nothing
    /// (while one is under way, or without a result with an id).
    pub fn workshop_toggle_subscribe_selected(&mut self) -> (job: Option<(u64, bool, i32, u64)>)
        ensures
            final(self).workshop.toggled_from(old(self).workshop, job),
    {
        self.workshop.toggle_subscribe()
    }

    /// The rating to launch for the highlighted result, or nothing (while
    /// one is under way, or without a result with an id).
    pub fn workshop_rate_selected(&mut self, up: bool) -> (job: Option<(u64, bool, u64)>)
        ensures
            final(self).workshop.rated_from(old(self).workshop, up, job),
    {
        self.workshop.rate(up)
    }

    /// Opens the comments sub-pane on the highlighted result; the fetch to
    /// launch is handed back.
    pub fn workshop_open_comments(&mut self) -> (job: Option<(u64, u64)>)
        ensures
            final(self).workshop.comments_opened_from(old(self).workshop, job),
    {
        self.workshop.open_comments()
    }

    /// Closes the comments sub-pane; a fetch under way is made stale.
    pub fn close_workshop_comments(&mut self)
        ensures
            final(self).workshop.comments_closed_from(old(self).workshop),
    {
        self.workshop.close_comments();
    }

    /// The id of the item whose comments are shown.
    pub fn workshop_comments_id(&self) -> (id: u64)
        ensures
            id == self.workshop.comments_id,
    {
        self.workshop.comments_id
    }

    /// Scrolls the comments down one row (clamped).
    pub fn workshop_comments_scroll_down(&mut self)
        ensures
            final(self).workshop.comments_scroll == scroll_down_spec(
                old(self).workshop.comments_scroll as nat,
                old(self).workshop.comments@.len(),
            ),
    {
        self.workshop.comments_scroll = scroll_down(self.workshop.comments_scroll, self.workshop.comments.len());
    }

    /// Scrolls the comments up one row (clamped).
    pub fn workshop_comments_scroll_up(&mut self)
        ensures
            final(self).workshop.comments_scroll == (if old(self).workshop.comments_scroll > 0 {
                old(self).workshop.comments_scroll - 1
            } else {
                0
            }),
    {
        self.workshop.comments_scroll = scroll_up(self.workshop.comments_scroll);
    }
}

} // verus!
