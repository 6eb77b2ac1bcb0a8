//! Splitting text into whitespace-separated words, as `str::split_whitespace`
//! does.

use vstd::prelude::*;
use crate::text::{is_space, is_space_spec};

verus! {

/// Words of `s`, scanning left to right: `cur` is the word being read and
/// `acc` the words already finished.
pub open spec fn words_acc(s: Seq<char>, cur: Seq<char>, acc: Seq<Seq<char>>) -> Seq<Seq<char>>
    decreases s.len(),
{
    if s.len() == 0 {
        if cur.len() > 0 {
            acc.push(cur)
        } else {
            acc
        }
    } else if is_space_spec(s[0]) {
        words_acc(s.drop_first(), Seq::empty(), if cur.len() > 0 { acc.push(cur) } else { acc })
    } else {
        words_acc(s.drop_first(), cur.push(s[0]), acc)
    }
}

/// The maximal runs of non-whitespace characters of `s`, in order.
pub open spec fn words(s: Seq<char>) -> Seq<Seq<char>> {
    words_acc(s, Seq::empty(), Seq::empty())
}

/// A word: a non-empty run of non-whitespace characters.
pub open spec fn is_word(w: Seq<char>) -> bool {
    w.len() > 0 && forall|i: int| 0 <= i < w.len() ==> !is_space_spec(#[trigger] w[i])
}

/// The characters of the words laid end to end.
pub open spec fn flatten(ws: Seq<Seq<char>>) -> Seq<char>
    decreases ws.len(),
{
    if ws.len() == 0 {
        Seq::empty()
    } else {
        flatten(ws.drop_last()) + ws.last()
    }
}

/// `s` with its whitespace removed.
pub open spec fn non_space(s: Seq<char>) -> Seq<char> {
    s.filter(|c: char| !is_space_spec(c))
}

pub proof fn lemma_flatten_push(ws: Seq<Seq<char>>, w: Seq<char>)
    ensures
        flatten(ws.push(w)) == flatten(ws) + w,
{
    assert(ws.push(w).drop_last() =~= ws);
}

pub proof fn lemma_non_space_add(a: Seq<char>, b: Seq<char>)
    ensures
        non_space(a + b) == non_space(a) + non_space(b),
{
    Seq::filter_distributes_over_add(a, b, |c: char| !is_space_spec(c));
}

pub proof fn lemma_non_space_word(w: Seq<char>)
    requires
        forall|i: int| 0 <= i < w.len() ==> !is_space_spec(#[trigger] w[i]),
    ensures
        non_space(w) == w,
    decreases w.len(),
{
    if w.len() > 0 {
        lemma_non_space_word(w.drop_last());
        lemma_non_space_add(w.drop_last(), seq![w.last()]);
        assert(w.drop_last() + seq![w.last()] =~= w);
        reveal_with_fuel(Seq::filter, 2);
        assert(seq![w.last()].filter(|c: char| !is_space_spec(c)) =~= seq![w.last()]);
    } else {
        assert(non_space(w) =~= w);
    }
}

/// Scanning keeps every finished word a word, and what is read so far,
/// without its whitespace, is what the words hold.
pub proof fn lemma_words_acc(s: Seq<char>, cur: Seq<char>, acc: Seq<Seq<char>>)
    requires
        forall|i: int| 0 <= i < acc.len() ==> is_word(#[trigger] acc[i]),
        forall|i: int| 0 <= i < cur.len() ==> !is_space_spec(#[trigger] cur[i]),
    ensures
        forall|i: int| 0 <= i < words_acc(s, cur, acc).len() ==> is_word(#[trigger] words_acc(s, cur, acc)[i]),
        flatten(words_acc(s, cur, acc)) == flatten(acc) + cur + non_space(s),
    decreases s.len(),
{
    if s.len() == 0 {
        assert(non_space(s) =~= Seq::<char>::empty());
        if cur.len() > 0 {
            lemma_flatten_push(acc, cur);
        }
        assert(flatten(acc) + cur + non_space(s) =~= flatten(acc) + cur);
    } else {
        assert(s =~= seq![s[0]] + s.drop_first());
        lemma_non_space_add(seq![s[0]], s.drop_first());
        reveal_with_fuel(Seq::filter, 2);
        if is_space_spec(s[0]) {
            assert(non_space(seq![s[0]]) =~= Seq::<char>::empty());
            let acc2 = if cur.len() > 0 { acc.push(cur) } else { acc };
            if cur.len() > 0 {
                lemma_flatten_push(acc, cur);
            }
            assert forall|i: int| 0 <= i < acc2.len() implies is_word(#[trigger] acc2[i]) by {
                if i < acc.len() {
                    assert(acc2[i] == acc[i]);
                }
            }
            lemma_words_acc(s.drop_first(), Seq::empty(), acc2);
            assert(flatten(acc2) + Seq::<char>::empty() + non_space(s.drop_first())
                =~= flatten(acc) + cur + non_space(s));
        } else {
            assert(non_space(seq![s[0]]) =~= seq![s[0]]);
            let cur2 = cur.push(s[0]);
            assert forall|i: int| 0 <= i < cur2.len() implies !is_space_spec(#[trigger] cur2[i]) by {
                if i < cur.len() {
                    assert(cur2[i] == cur[i]);
                }
            }
            lemma_words_acc(s.drop_first(), cur2, acc);
            assert(flatten(acc) + cur2 + non_space(s.drop_first()) =~= flatten(acc) + cur
                + non_space(s));
        }
    }
}

/// The words of a text, laid end to end, are exactly its non-whitespace
/// characters, and each is a non-empty run of non-whitespace.
pub proof fn lemma_words(s: Seq<char>)
    ensures
        forall|i: int| 0 <= i < words(s).len() ==> is_word(#[trigger] words(s)[i]),
        flatten(words(s)) == non_space(s),
{
    lemma_words_acc(s, Seq::empty(), Seq::empty());
    assert(flatten(Seq::<Seq<char>>::empty()) + Seq::<char>::empty() + non_space(s) =~= non_space(s));
}

/// The whitespace-separated words of `s`.
pub fn split_words(s: &Vec<char>) -> (ws: Vec<Vec<char>>)
    ensures
        ws@.len() == words(s@).len(),
        forall|i: int| 0 <= i < ws@.len() ==> #[trigger] ws@[i]@ == words(s@)[i],
{
    let mut ws: Vec<Vec<char>> = Vec::new();
    let mut cur: Vec<char> = Vec::new();
    let mut i: usize = 0;
    assert(s@.skip(0) =~= s@);
    assert(ws@.map_values(|w: Vec<char>| w@) =~= Seq::<Seq<char>>::empty());
    assert(cur@ =~= Seq::<char>::empty());
    while i < s.len()
        invariant
            i <= s.len(),
            words(s@) == words_acc(s@.skip(i as int), cur@, ws@.map_values(|w: Vec<char>| w@)),
        decreases s.len() - i,
    {
        let ghost rest = s@.skip(i as int);
        assert(rest.drop_first() =~= s@.skip(i + 1));
        assert(rest[0] == s@[i as int]);
        if is_space(s[i]) {
            if cur.len() > 0 {
                let w = cur;
                cur = Vec::new();
                let ghost before = ws@.map_values(|w: Vec<char>| w@);
                ws.push(w);
                assert(ws@.map_values(|w: Vec<char>| w@) =~= before.push(w@));
            } else {
                assert(cur@ =~= Seq::<char>::empty());
            }
        } else {
            cur.push(s[i]);
        }
        i += 1;
    }
    assert(s@.skip(i as int) =~= Seq::<char>::empty());
    if cur.len() > 0 {
        let ghost before = ws@.map_values(|w: Vec<char>| w@);
        ws.push(cur);
        assert(ws@.map_values(|w: Vec<char>| w@) =~= before.push(ws@.last()@));
    }
    assert(ws@.map_values(|w: Vec<char>| w@).len() == ws@.len());
    ws
}

} // verus!
