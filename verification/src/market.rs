//! The Community Market search overlay: the query, the results with their
//! highlight, and the status line. Searches are tagged with a generation so
//! that a slow, older search never replaces the results of a newer one.

use vstd::prelude::*;
use crate::aurelia::{MarketSearchResultJson, present, trim, trim_spec};
use crate::browse::Browser;
use crate::error::{STError, describe_spec};
use crate::nav::{bump_gen, gen_after, lemma_gen_not_reused, next_gen, step_down, step_down_spec};
use crate::overlays::{failed_message, failed_text};
use crate::text::{concat, decimal, join, join_strings, owned, pop_char, push_char, u64_text, views};

verus! {

/// A price lookup, from `aurelia market price --json`.
#[derive(Debug, Clone)]
pub struct MarketPriceJson {
    pub market_hash_name: String,
    pub lowest_price: Option<String>,
    pub median_price: Option<String>,
    pub volume: Option<String>,
}

/// The parts of a price summary: the lowest price, the median and the
/// volume, each when given.
pub open spec fn price_parts(p: MarketPriceJson) -> Seq<Seq<char>> {
    (if present(p.lowest_price) { seq!["low "@ + p.lowest_price->0@] } else { Seq::empty() })
        + (if present(p.median_price) { seq!["median "@ + p.median_price->0@] } else { Seq::empty() })
        + (if present(p.volume) { seq!["vol "@ + p.volume->0@] } else { Seq::empty() })
}

fn push_part(parts: &mut Vec<String>, label: &str, value: &Option<String>)
    ensures
        views(final(parts)@) == views(old(parts)@) + (if present(*value) { seq![label@ + value->0@] } else { Seq::empty() }),
{
    let ghost before = parts@;
    let given = match value {
        Some(v) => v.as_str().unicode_len() > 0,
        None => false,
    };
    if given {
        let v = value.as_ref().unwrap();
        let part = concat(label, v.as_str());
        parts.push(part);
        proof {
            assert(present(*value));
            assert(views(parts@) =~= views(before) + seq![label@ + v@]);
        }
    } else {
        proof {
            assert(!present(*value));
            assert(views(before) + Seq::<Seq<char>>::empty() =~= views(parts@));
        }
    }
}

impl MarketPriceJson {
    /// A one-line summary (`low …, median …, vol …`), or nothing when the
    /// lookup carries no price or volume.
    pub fn summary(&self) -> (r: Option<String>)
        ensures
            price_parts(*self).len() == 0 ==> r is None,
            price_parts(*self).len() > 0 ==> r is Some && r->0@ == join(price_parts(*self), ", "@),
    {
        let mut parts: Vec<String> = Vec::new();
        proof {
            assert(views(parts@) =~= Seq::<Seq<char>>::empty());
            reveal_strlit("low ");
            reveal_strlit("median ");
            reveal_strlit("vol ");
        }
        push_part(&mut parts, "low ", &self.lowest_price);
        push_part(&mut parts, "median ", &self.median_price);
        push_part(&mut parts, "vol ", &self.volume);
        proof {
            assert(views(parts@) =~= price_parts(*self));
        }
        if parts.len() == 0 {
            None
        } else {
            Some(join_strings(&parts, ", "))
        }
    }
}

/// The status line for a price lookup's answer.
pub open spec fn price_status_text(price: Result<MarketPriceJson, STError>) -> Seq<char> {
    match price {
        Ok(p) => p.market_hash_name@ + " \u{2014} "@ + (if price_parts(p).len() > 0 {
            join(price_parts(p), ", "@)
        } else {
            "no price data"@
        }),
        Err(e) => "Price failed: "@ + describe_spec(e),
    }
}

/// The status line after a search of the current generation: the count of
/// results (`no results` for none), or the failure.
pub open spec fn search_status_text(found: Result<Seq<MarketSearchResultJson>, STError>) -> Seq<char> {
    match found {
        Ok(v) => if v.len() == 0 { "no results"@ } else { decimal(v.len()) + " results"@ },
        Err(e) => failed_text(e),
    }
}

/// The market search overlay's state.
#[derive(Debug, Clone)]
pub struct MarketSearchPane {
    pub show: bool,
    pub query: String,
    pub results: Vec<MarketSearchResultJson>,
    pub index: usize,
    pub scroll: usize,
    pub status: String,
    /// Tags searches; one launched under an older tag is stale.
    pub gen: u64,
}

impl MarketSearchPane {
    pub fn empty() -> (p: MarketSearchPane)
        ensures
            !p.show,
            p.query@.len() == 0,
            p.results@.len() == 0,
            p.index == 0,
            p.scroll == 0,
            p.status@.len() == 0,
            p.gen == 0,
    {
        MarketSearchPane {
            show: false,
            query: String::new(),
            results: Vec::new(),
            index: 0,
            scroll: 0,
            status: String::new(),
            gen: 0,
        }
    }

    /// Reset from `before`, shown or not: no query, results or status, and
    /// any search under way made stale.
    pub open spec fn reset_from(self, before: MarketSearchPane, show: bool) -> bool {
        &&& self.show == show
        &&& self.query@.len() == 0
        &&& self.results@.len() == 0
        &&& self.index == 0
        &&& self.scroll == 0
        &&& self.status@.len() == 0
        &&& self.gen == next_gen(before.gen)
    }

    fn reset(&mut self, show: bool)
        ensures
            final(self).reset_from(*old(self), show),
    {
        self.show = show;
        self.query = String::new();
        self.results = Vec::new();
        self.index = 0;
        self.scroll = 0;
        self.status = String::new();
        self.gen = bump_gen(self.gen);
    }

    /// The outcome of submitting the query of `before`: the trimmed query
    /// and its generation, or nothing when blank.
    pub open spec fn submitted_from(self, before: MarketSearchPane, job: Option<(String, u64)>) -> bool {
        &&& trim_spec(before.query@).len() == 0 ==> job is None && self.status@ == before.status@
        &&& trim_spec(before.query@).len() > 0 ==> {
            &&& job is Some
            &&& (job->0).0@ == trim_spec(before.query@)
            &&& (job->0).1 == before.gen
            &&& self.status@ == "searching..."@
        }
        &&& self.gen == before.gen
        &&& self.query@ == before.query@
        &&& self.results@ == before.results@
    }

    fn submit(&mut self) -> (job: Option<(String, u64)>)
        ensures
            final(self).submitted_from(*old(self), job),
    {
        let query = trim(self.query.as_str());
        if query.as_str().unicode_len() == 0 {
            return None;
        }
        self.status = owned("searching...");
        Some((query, self.gen))
    }

    /// The outcome of asking for the highlighted result's price: its app and
    /// market name, or nothing without a highlight or a market name.
    pub open spec fn priced_from(self, before: MarketSearchPane, job: Option<(u32, String)>) -> bool {
        &&& before.index >= before.results@.len() ==> job is None && self.status@ == before.status@
        &&& before.index < before.results@.len() ==> {
            let r = before.results@[before.index as int];
            &&& r.market_hash_name@.len() == 0 ==> job is None && self.status@ == "no item name to price"@
            &&& r.market_hash_name@.len() > 0 ==> {
                &&& job is Some
                &&& (job->0).0 == r.app_id
                &&& (job->0).1@ == r.market_hash_name@
                &&& self.status@ == "pricing "@ + (if r.name@.len() > 0 {
                    r.name@
                } else {
                    r.market_hash_name@
                }) + "..."@
            }
        }
        &&& self.results@ == before.results@
        &&& self.index == before.index
        &&& self.gen == before.gen
    }

    fn lookup_price(&mut self) -> (job: Option<(u32, String)>)
        ensures
            final(self).priced_from(*old(self), job),
    {
        if self.index >= self.results.len() {
            return None;
        }
        let r = &self.results[self.index];
        if r.market_hash_name.as_str().unicode_len() == 0 {
            self.status = owned("no item name to price");
            return None;
        }
        let app_id = r.app_id;
        let name = owned(r.market_hash_name.as_str());
        let shown = r.display_name();
        let a = concat("pricing ", shown.as_str());
        proof {
            reveal_strlit("pricing ");
            reveal_strlit("...");
        }
        self.status = concat(a.as_str(), "...");
        Some((app_id, name))
    }

    /// The effect of a poll on `before`: nothing while the overlay is hidden;
    /// else a finished search is adopted only when it carries the current
    /// generation, and a finished price lookup sets the status line.
    pub open spec fn polled_from(
        self,
        before: MarketSearchPane,
        search: Option<(u64, Result<Seq<MarketSearchResultJson>, STError>)>,
        price: Option<Result<MarketPriceJson, STError>>,
    ) -> bool {
        let adopt = search is Some && (search->0).0 == before.gen;
        &&& self.show == before.show
        &&& self.gen == before.gen
        &&& self.query@ == before.query@
        &&& !before.show ==> self.results@ == before.results@ && self.status@ == before.status@
            && self.index == before.index && self.scroll == before.scroll
        &&& before.show && adopt ==> {
            &&& self.results@ == (match (search->0).1 { Ok(v) => v, Err(_) => Seq::empty() })
            &&& self.index == 0
            &&& self.scroll == 0
        }
        &&& before.show && !adopt ==> self.results@ == before.results@ && self.index == before.index
            && self.scroll == before.scroll
        &&& before.show && price is Some ==> self.status@ == price_status_text(price->0)
        &&& before.show && price is None && adopt ==> self.status@ == search_status_text((search->0).1)
        &&& before.show && price is None && !adopt ==> self.status@ == before.status@
    }

    fn poll(
        &mut self,
        search: Option<(u64, Result<Vec<MarketSearchResultJson>, STError>)>,
        price: Option<Result<MarketPriceJson, STError>>,
    )
        ensures
            final(self).polled_from(*old(self), match search {
                Some((g, Ok(v))) => Some((g, Ok(v@))),
                Some((g, Err(e))) => Some((g, Err(e))),
                None => None,
            }, price),
            !old(self).show ==> *final(self) == *old(self),
    {
        if !self.show {
            return;
        }
        if let Some((gen, found)) = search {
            if gen == self.gen {
                self.index = 0;
                self.scroll = 0;
                match found {
                    Ok(results) => {
                        let count = results.len();
                        self.results = results;
                        proof {
                            reveal_strlit("no results");
                            reveal_strlit(" results");
                        }
                        if count == 0 {
                            self.status = owned("no results");
                        } else {
                            let n = u64_text(count as u64);
                            self.status = concat(n.as_str(), " results");
                        }
                    },
                    Err(e) => {
                        self.results = Vec::new();
                        self.status = failed_message(&e);
                    },
                }
            }
        }
        if let Some(answer) = price {
            self.status = price_status(answer);
        }
    }
}

fn price_status(answer: Result<MarketPriceJson, STError>) -> (s: String)
    ensures
        s@ == price_status_text(answer),
{
    proof {
        reveal_strlit(" \u{2014} ");
        reveal_strlit("no price data");
        reveal_strlit("Price failed: ");
    }
    match answer {
        Ok(p) => {
            let head = concat(p.market_hash_name.as_str(), " \u{2014} ");
            match p.summary() {
                Some(sum) => concat(head.as_str(), sum.as_str()),
                None => concat(head.as_str(), "no price data"),
            }
        },
        Err(e) => {
            let d = e.describe();
            concat("Price failed: ", d.as_str())
        },
    }
}

/// A search launched before the query was edited never replaces the
/// results: the edit moves the generation on, and a poll adopts only a
/// search of the current generation.
pub proof fn lemma_edited_search_dropped(
    launched: MarketSearchPane,
    edited: MarketSearchPane,
    polled: MarketSearchPane,
    found: Result<Seq<MarketSearchResultJson>, STError>,
    price: Option<Result<MarketPriceJson, STError>>,
)
    requires
        edited.gen == next_gen(launched.gen),
        polled.polled_from(edited, Some((launched.gen, found)), price),
    ensures
        polled.results@ == edited.results@,
        polled.index == edited.index,
{
}

/// A search whose generation has since moved on, by any number of bumps
/// short of a full wrap of the tag, never replaces the results.
pub proof fn lemma_stale_search_never_adopted(
    before: MarketSearchPane,
    polled: MarketSearchPane,
    g: u64,
    k: nat,
    found: Result<Seq<MarketSearchResultJson>, STError>,
    price: Option<Result<MarketPriceJson, STError>>,
)
    requires
        0 < k < 0x1_0000_0000_0000_0000,
        before.gen == gen_after(g, k),
        polled.polled_from(before, Some((g, found)), price),
    ensures
        polled.results@ == before.results@,
        polled.index == before.index,
        polled.scroll == before.scroll,
{
    lemma_gen_not_reused(g, k);
}

impl Browser {
    /// Opens the market search overlay on an empty query; any search under
    /// way is made stale.
    pub fn open_market_search(&mut self)
        ensures
            final(self).market_search.reset_from(old(self).market_search, true),
    {
        self.market_search.reset(true);
    }

    /// Closes the market search overlay, dropping its state; any search
    /// under way is made stale.
    pub fn close_market_search(&mut self)
        ensures
            final(self).market_search.reset_from(old(self).market_search, false),
    {
        self.market_search.reset(false);
    }

    /// Types into the query; any search under way for the old query is made
    /// stale.
    pub fn market_query_push(&mut self, c: char)
        ensures
            final(self).market_search.query@ == old(self).market_search.query@.push(c),
            final(self).market_search.gen == next_gen(old(self).market_search.gen),
            final(self).market_search.results@ == old(self).market_search.results@,
    {
        push_char(&mut self.market_search.query, c);
        self.market_search.gen = bump_gen(self.market_search.gen);
    }

    /// Deletes the query's last character, making any search under way stale.
    pub fn market_query_pop(&mut self)
        ensures
            final(self).market_search.query@ == (if old(self).market_search.query@.len() > 0 {
                old(self).market_search.query@.drop_last()
            } else {
                old(self).market_search.query@
            }),
            final(self).market_search.gen == next_gen(old(self).market_search.gen),
            final(self).market_search.results@ == old(self).market_search.results@,
    {
        pop_char(&mut self.market_search.query);
        self.market_search.gen = bump_gen(self.market_search.gen);
    }

    /// The search to run: the trimmed query with the generation it is
    /// launched for, or nothing when the query is blank.
    pub fn submit_market_search(&mut self) -> (job: Option<(String, u64)>)
        ensures
            final(self).market_search.submitted_from(old(self).market_search, job),
    {
        self.market_search.submit()
    }

    /// The price lookup to run for the highlighted result: its app and market
    /// name, or nothing without a highlight (or with no market name, which
    /// the status line reports).
    pub fn lookup_market_price(&mut self) -> (job: Option<(u32, String)>)
        ensures
            final(self).market_search.priced_from(old(self).market_search, job),
    {
        self.market_search.lookup_price()
    }

    /// Takes in a finished search (with the generation it was launched for)
    /// and a finished price lookup: the search is adopted only when it is of
    /// the current generation; while the overlay is hidden nothing changes.
    pub fn poll_market(
        &mut self,
        search: Option<(u64, Result<Vec<MarketSearchResultJson>, STError>)>,
        price: Option<Result<MarketPriceJson, STError>>,
    )
        ensures
            final(self).market_search.polled_from(old(self).market_search, match search {
                Some((g, Ok(v))) => Some((g, Ok(v@))),
                Some((g, Err(e))) => Some((g, Err(e))),
                None => None,
            }, price),
            !old(self).market_search.show ==> final(self).market_search == old(self).market_search,
            *final(self) == (Browser { market_search: final(self).market_search, ..*old(self) }),
    {
        self.market_search.poll(search, price);
    }

    /// The highlighted search result, if any.
    pub fn selected_market_result(&self) -> (r: Option<&MarketSearchResultJson>)
        ensures
            self.market_search.index < self.market_search.results@.len()
                ==> r == Some(&self.market_search.results@[self.market_search.index as int]),
            self.market_search.index >= self.market_search.results@.len() ==> r is None,
    {
        if self.market_search.index < self.market_search.results.len() {
            Some(&self.market_search.results[self.market_search.index])
        } else {
            None
        }
    }

    /// Moves the results highlight down one row (clamped).
    pub fn market_result_next(&mut self)
        ensures
            final(self).market_search.index == step_down_spec(
                old(self).market_search.index as nat,
                old(self).market_search.results@.len(),
            ),
            final(self).market_search.results@ == old(self).market_search.results@,
    {
        self.market_search.index = step_down(self.market_search.index, self.market_search.results.len());
    }

    /// Moves the results highlight up one row (clamped).
    pub fn market_result_previous(&mut self)
        ensures
            final(self).market_search.index == (if old(self).market_search.index > 0 {
                old(self).market_search.index - 1
            } else {
                0
            }),
            final(self).market_search.results@ == old(self).market_search.results@,
    {
        if self.market_search.index > 0 {
            self.market_search.index = self.market_search.index - 1;
        }
    }
}

} // verus!
