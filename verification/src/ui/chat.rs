//! The chat panel's conversation: word wrapping of message bodies and the
//! layout of the message rows above the composer.

use vstd::prelude::*;
use crate::aurelia::ChatMessageJson;
use crate::text::{chars_of, concat, owned, string_of, string_of_range};
use crate::ui::words::{flatten, is_word, lemma_flatten_push, lemma_non_space_add, lemma_words, non_space, split_words, words};

verus! {

/// The state of the wrapper between words: finished lines, the line being
/// built, and the columns still free on it.
pub type WrapState = (Seq<Seq<char>>, Seq<char>, nat);

pub open spec fn sat_sub(a: nat, b: nat) -> nat {
    if a >= b { (a - b) as nat } else { 0 }
}

/// Hard-splits the word `w` while it cannot fit the free columns: a
/// partially-filled line is finished first, then `avail` characters of the
/// word go onto a line of their own. Yields the state and what is left of `w`.
pub open spec fn hard_split(lines: Seq<Seq<char>>, cur: Seq<char>, avail: nat, w: Seq<char>, width: nat)
    -> (Seq<Seq<char>>, Seq<char>, nat, Seq<char>)
    decreases w.len(), cur.len(),
{
    if w.len() <= avail || (cur.len() == 0 && avail == 0) {
        (lines, cur, avail, w)
    } else if cur.len() > 0 {
        hard_split(lines.push(cur), Seq::empty(), width, w, width)
    } else {
        hard_split(lines.push(w.take(avail as int)), Seq::empty(), width, w.skip(avail as int), width)
    }
}

/// Places one word: hard-split if needed, start a new line when the rest does
/// not fit after a separating space, then append it.
pub open spec fn place_word(st: WrapState, w: Seq<char>, width: nat) -> WrapState {
    let (l1, c1, a1, w1) = hard_split(st.0, st.1, st.2, w, width);
    let sep: nat = if c1.len() == 0 { 0 } else { 1 };
    let (l2, c2, a2) = if w1.len() + sep > a1 {
        (l1.push(c1), Seq::<char>::empty(), width)
    } else {
        (l1, c1, a1)
    };
    let (c3, a3) = if c2.len() > 0 { (c2.push(' '), sat_sub(a2, 1)) } else { (c2, a2) };
    (l2, c3 + w1, sat_sub(a3, w1.len()))
}

/// The state after placing the words `ws` in order, starting with `first`
/// free columns.
pub open spec fn wrap_fold(ws: Seq<Seq<char>>, first: nat, width: nat) -> WrapState
    decreases ws.len(),
{
    if ws.len() == 0 {
        (Seq::empty(), Seq::empty(), first)
    } else {
        place_word(wrap_fold(ws.drop_last(), first, width), ws.last(), width)
    }
}

pub open spec fn at_least_one(n: nat) -> nat {
    if n == 0 { 1 } else { n }
}

/// The lines `wrap_body` produces: the greedy wrap of the words of `body`,
/// the first line having `first_avail` columns and the others `width` (each at
/// least one), followed by the trailing, possibly empty, line.
pub open spec fn wrap_body_spec(body: Seq<char>, first_avail: nat, width: nat) -> Seq<Seq<char>> {
    let st = wrap_fold(words(body), at_least_one(first_avail), at_least_one(width));
    st.0.push(st.1)
}

pub open spec fn views(v: Seq<String>) -> Seq<Seq<char>> {
    v.map_values(|s: String| s@)
}

proof fn lemma_views_push(v: Seq<String>, s: String)
    ensures
        views(v.push(s)) == views(v).push(s@),
{
    assert(views(v.push(s)) =~= views(v).push(s@));
}

/// Greedily word-wrap `body` into lines whose width fits `width`, where the
/// first line may only use `first_avail` columns (the rest of the first row
/// being taken by the speaker label). Words longer than the available width
/// are hard-split. Returns at least one (possibly empty) line.
pub fn wrap_body(body: &str, first_avail: usize, width: usize) -> (lines: Vec<String>)
    ensures
        views(lines@) == wrap_body_spec(body@, first_avail as nat, width as nat),
{
    let width = if width == 0 { 1 } else { width };
    let first_avail = if first_avail == 0 { 1 } else { first_avail };
    let chars = chars_of(body);
    let ws = split_words(&chars);
    let ghost wsv = words(body@);
    let mut lines: Vec<String> = Vec::new();
    let mut cur: Vec<char> = Vec::new();
    let mut avail: usize = first_avail;
    let mut k: usize = 0;
    proof {
        lemma_words(body@);
    }
    assert(wsv.take(0) =~= Seq::<Seq<char>>::empty());
    assert(views(lines@) =~= Seq::<Seq<char>>::empty());
    while k < ws.len()
        invariant
            width >= 1,
            k <= ws.len(),
            ws@.len() == wsv.len(),
            forall|i: int| 0 <= i < ws@.len() ==> #[trigger] ws@[i]@ == wsv[i],
            (views(lines@), cur@, avail as nat) == wrap_fold(wsv.take(k as int), first_avail as nat, width as nat),
            cur@.len() == 0 ==> avail >= 1,
            forall|i: int| 0 <= i < wsv.len() ==> is_word(#[trigger] wsv[i]),
        decreases ws.len() - k,
    {
        let word = &ws[k];
        assert(is_word(wsv[k as int]));
        let ghost st0: WrapState = (views(lines@), cur@, avail as nat);
        let ghost target = hard_split(st0.0, st0.1, st0.2, word@, width as nat);
        let mut start: usize = 0;
        assert(word@.skip(0) =~= word@);
        while word.len() - start > avail
            invariant
                width >= 1,
                start < word.len(),
                cur@.len() == 0 ==> avail >= 1,
                hard_split(views(lines@), cur@, avail as nat, word@.skip(start as int), width as nat) == target,
            decreases word.len() - start, cur@.len(),
        {
            let ghost l0 = views(lines@);
            let ghost c0 = cur@;
            let ghost a0 = avail as nat;
            let ghost w0 = word@.skip(start as int);
            if cur.len() > 0 {
                let s = string_of(&cur);
                proof {
                    lemma_views_push(lines@, s);
                }
                lines.push(s);
                cur = Vec::new();
                avail = width;
                assert(cur@ =~= Seq::<char>::empty());
                assert(hard_split(l0, c0, a0, w0, width as nat) == hard_split(l0.push(c0), Seq::empty(), width as nat, w0, width as nat));
            } else {
                let s = string_of_range(word, start, start + avail);
                proof {
                    lemma_views_push(lines@, s);
                    assert(w0.take(avail as int) =~= word@.subrange(start as int, start + avail));
                    assert(w0.skip(avail as int) =~= word@.skip(start + avail));
                    assert(hard_split(l0, c0, a0, w0, width as nat) == hard_split(l0.push(w0.take(a0 as int)), Seq::empty(), width as nat, w0.skip(a0 as int), width as nat));
                }
                lines.push(s);
                start = start + avail;
                avail = width;
            }
        }
        // What is left of the word now fits the free columns.
        let ghost w1 = word@.skip(start as int);
        assert(target == (views(lines@), cur@, avail as nat, w1));
        let rest_len = word.len() - start;
        let sep: usize = if cur.len() == 0 { 0 } else { 1 };
        if sep > avail || rest_len > avail - sep {
            let s = string_of(&cur);
            proof {
                lemma_views_push(lines@, s);
            }
            lines.push(s);
            cur = Vec::new();
            avail = width;
        }
        if cur.len() > 0 {
            cur.push(' ');
            avail = if avail >= 1 { avail - 1 } else { 0 };
        }
        let ghost before = cur@;
        let mut j: usize = start;
        while j < word.len()
            invariant
                start <= j <= word.len(),
                cur@ == before + word@.subrange(start as int, j as int),
            decreases word.len() - j,
        {
            cur.push(word[j]);
            j += 1;
            assert(cur@ =~= before + word@.subrange(start as int, j as int));
        }
        assert(word@.subrange(start as int, word.len() as int) =~= w1);
        avail = if avail >= rest_len { avail - rest_len } else { 0 };
        proof {
            assert(wsv.take(k + 1).drop_last() =~= wsv.take(k as int));
            assert(wsv.take(k + 1).last() == wsv[k as int]);
        }
        k += 1;
    }
    assert(wsv.take(ws.len() as int) =~= wsv);
    let s = string_of(&cur);
    proof {
        lemma_views_push(lines@, s);
    }
    lines.push(s);
    lines
}


/// The column budget of line `i`: the first line has `first` columns, the
/// others `width`.
pub open spec fn line_budget(i: int, first: nat, width: nat) -> nat {
    if i == 0 { first } else { width }
}

/// Every finished line fits its budget, and the line being built together
/// with its free columns makes up the budget of its row.
pub open spec fn wrap_inv(st: WrapState, first: nat, width: nat) -> bool {
    &&& st.1.len() + st.2 == line_budget(st.0.len() as int, first, width)
    &&& forall|i: int| 0 <= i < st.0.len() ==> #[trigger] st.0[i].len() <= line_budget(i, first, width)
}

proof fn lemma_hard_split_inv(l: Seq<Seq<char>>, c: Seq<char>, a: nat, w: Seq<char>, first: nat, width: nat)
    requires
        1 <= first <= width,
        wrap_inv((l, c, a), first, width),
    ensures
        ({
            let r = hard_split(l, c, a, w, width);
            &&& wrap_inv((r.0, r.1, r.2), first, width)
            &&& r.3.len() <= r.2
            &&& flatten(r.0) + r.1 + r.3 == flatten(l) + c + w
        }),
    decreases w.len(), c.len(),
{
    if w.len() <= a || (c.len() == 0 && a == 0) {
    } else if c.len() > 0 {
        lemma_flatten_push(l, c);
        assert(l.push(c)[l.len() as int] == c);
        assert forall|i: int| 0 <= i < l.push(c).len() implies #[trigger] l.push(c)[i].len() <= line_budget(i, first, width) by {
            if i < l.len() {
                assert(l.push(c)[i] == l[i]);
            }
        }
        assert(flatten(l.push(c)) + Seq::<char>::empty() + w =~= flatten(l) + c + w);
        lemma_hard_split_inv(l.push(c), Seq::empty(), width, w, first, width);
    } else {
        let head = w.take(a as int);
        lemma_flatten_push(l, head);
        assert(l.push(head)[l.len() as int] == head);
        assert forall|i: int| 0 <= i < l.push(head).len() implies #[trigger] l.push(head)[i].len() <= line_budget(i, first, width) by {
            if i < l.len() {
                assert(l.push(head)[i] == l[i]);
            }
        }
        assert(flatten(l.push(head)) + Seq::<char>::empty() + w.skip(a as int) =~= flatten(l) + c + w);
        lemma_hard_split_inv(l.push(head), Seq::empty(), width, w.skip(a as int), first, width);
    }
}

proof fn lemma_place_inv(st: WrapState, w: Seq<char>, first: nat, width: nat)
    requires
        1 <= first <= width,
        wrap_inv(st, first, width),
        forall|i: int| 0 <= i < w.len() ==> !crate::text::is_space_spec(#[trigger] w[i]),
    ensures
        wrap_inv(place_word(st, w, width), first, width),
        non_space(flatten(place_word(st, w, width).0) + place_word(st, w, width).1)
            == non_space(flatten(st.0) + st.1) + w,
{
    let (l1, c1, a1, w1) = hard_split(st.0, st.1, st.2, w, width);
    lemma_hard_split_inv(st.0, st.1, st.2, w, first, width);
    let sep: nat = if c1.len() == 0 { 0 } else { 1 };
    let (l2, c2, a2) = if w1.len() + sep > a1 {
        (l1.push(c1), Seq::<char>::empty(), width)
    } else {
        (l1, c1, a1)
    };
    if w1.len() + sep > a1 {
        lemma_flatten_push(l1, c1);
        assert(l1.push(c1)[l1.len() as int] == c1);
        assert forall|i: int| 0 <= i < l1.push(c1).len() implies #[trigger] l1.push(c1)[i].len() <= line_budget(i, first, width) by {
            if i < l1.len() {
                assert(l1.push(c1)[i] == l1[i]);
            }
        }
    }
    assert(flatten(l2) + c2 == flatten(l1) + c1);
    let (c3, a3) = if c2.len() > 0 { (c2.push(' '), sat_sub(a2, 1)) } else { (c2, a2) };
    // The separating space is whitespace and vanishes from the content.
    lemma_non_space_add(flatten(l2) + c2, seq![' ']);
    reveal_with_fuel(Seq::filter, 2);
    assert(non_space(seq![' ']) =~= Seq::<char>::empty());
    assert(flatten(l2) + c3 =~= if c2.len() > 0 { (flatten(l2) + c2) + seq![' '] } else { flatten(l2) + c2 });
    assert(non_space(flatten(l2) + c3) == non_space(flatten(l2) + c2));
    assert(flatten(l2) + (c3 + w1) =~= (flatten(l2) + c3) + w1);
    lemma_non_space_add(flatten(l2) + c3, w1);
    lemma_non_space_add(flatten(l1) + c1, w1);
    lemma_non_space_add(flatten(st.0) + st.1, w);
    assert(flatten(l1) + c1 + w1 == flatten(st.0) + st.1 + w);
    crate::ui::words::lemma_non_space_word(w);
}

proof fn lemma_fold_inv(ws: Seq<Seq<char>>, first: nat, width: nat)
    requires
        1 <= first <= width,
        forall|i: int| 0 <= i < ws.len() ==> is_word(#[trigger] ws[i]),
    ensures
        wrap_inv(wrap_fold(ws, first, width), first, width),
        non_space(flatten(wrap_fold(ws, first, width).0) + wrap_fold(ws, first, width).1) == flatten(ws),
    decreases ws.len(),
{
    if ws.len() == 0 {
        reveal_with_fuel(Seq::filter, 1);
        assert(flatten(Seq::<Seq<char>>::empty()) + Seq::<char>::empty() =~= Seq::<char>::empty());
        assert(non_space(Seq::<char>::empty()) =~= Seq::<char>::empty());
    } else {
        assert forall|i: int| 0 <= i < ws.drop_last().len() implies is_word(#[trigger] ws.drop_last()[i]) by {
            assert(ws.drop_last()[i] == ws[i]);
        }
        lemma_fold_inv(ws.drop_last(), first, width);
        assert(is_word(ws[ws.len() - 1]));
        lemma_place_inv(wrap_fold(ws.drop_last(), first, width), ws.last(), first, width);
    }
}

/// When the first line is no wider than the others, every wrapped line fits
/// its budget: the first at most `first_avail` columns, the others at most
/// `width` (each budget counted as at least one column).
pub proof fn lemma_wrap_body_fits(body: Seq<char>, first_avail: nat, width: nat)
    requires
        first_avail <= width,
    ensures
        forall|i: int| 0 <= i < wrap_body_spec(body, first_avail, width).len()
            ==> #[trigger] wrap_body_spec(body, first_avail, width)[i].len()
                <= line_budget(i, at_least_one(first_avail), at_least_one(width)),
{
    let f = at_least_one(first_avail);
    let w = at_least_one(width);
    lemma_words(body);
    lemma_fold_inv(words(body), f, w);
    let st = wrap_fold(words(body), f, w);
    assert forall|i: int| 0 <= i < st.0.push(st.1).len() implies #[trigger] st.0.push(st.1)[i].len() <= line_budget(i, f, w) by {
        if i < st.0.len() {
            assert(st.0.push(st.1)[i] == st.0[i]);
        }
    }
}

/// Wrapping loses no text: the wrapped lines, laid end to end, hold exactly
/// the non-whitespace characters of the body, in order.
pub proof fn lemma_wrap_body_lossless(body: Seq<char>, first_avail: nat, width: nat)
    requires
        first_avail <= width,
    ensures
        non_space(flatten(wrap_body_spec(body, first_avail, width))) == non_space(body),
        wrap_body_spec(body, first_avail, width).len() >= 1,
{
    let f = at_least_one(first_avail);
    let w = at_least_one(width);
    lemma_words(body);
    lemma_fold_inv(words(body), f, w);
    let st = wrap_fold(words(body), f, w);
    lemma_flatten_push(st.0, st.1);
}

/// A line with text and no whitespace at either end.
pub open spec fn tidy(l: Seq<char>) -> bool {
    l.len() > 0 && !crate::text::is_space_spec(l[0]) && !crate::text::is_space_spec(l[l.len() - 1])
}

/// Every finished line is tidy, the line being built is empty or tidy, and
/// an empty line being built has a free column.
pub open spec fn tidy_state(lines: Seq<Seq<char>>, cur: Seq<char>, avail: nat) -> bool {
    &&& forall|i: int| 0 <= i < lines.len() ==> tidy(#[trigger] lines[i])
    &&& cur.len() > 0 ==> tidy(cur)
    &&& cur.len() == 0 ==> avail >= 1
}

proof fn lemma_hard_split_tidy(l: Seq<Seq<char>>, c: Seq<char>, a: nat, w: Seq<char>, width: nat)
    requires
        width >= 1,
        tidy_state(l, c, a),
        is_word(w),
    ensures
        ({
            let r = hard_split(l, c, a, w, width);
            &&& tidy_state(r.0, r.1, r.2)
            &&& is_word(r.3)
            &&& r.3.len() <= r.2
        }),
    decreases w.len(), c.len(),
{
    if w.len() <= a || (c.len() == 0 && a == 0) {
    } else if c.len() > 0 {
        assert forall|i: int| 0 <= i < l.push(c).len() implies tidy(#[trigger] l.push(c)[i]) by {
            if i < l.len() {
                assert(tidy(l[i]));
                assert(l.push(c)[i] == l[i]);
            } else {
                assert(l.push(c)[i] == c);
            }
        }
        lemma_hard_split_tidy(l.push(c), Seq::empty(), width, w, width);
    } else {
        let head = w.take(a as int);
        assert(head[0] == w[0]);
        assert(head[head.len() - 1] == w[a - 1]);
        assert(!crate::text::is_space_spec(w[0]));
        assert(!crate::text::is_space_spec(w[a - 1]));
        assert forall|i: int| 0 <= i < l.push(head).len() implies tidy(#[trigger] l.push(head)[i]) by {
            if i < l.len() {
                assert(l.push(head)[i] == l[i]);
            } else {
                assert(l.push(head)[i] == head);
            }
        }
        let rest = w.skip(a as int);
        assert forall|i: int| 0 <= i < rest.len() implies !crate::text::is_space_spec(#[trigger] rest[i]) by {
            assert(rest[i] == w[i + a]);
        }
        lemma_hard_split_tidy(l.push(head), Seq::empty(), width, rest, width);
    }
}

proof fn lemma_place_tidy(st: WrapState, w: Seq<char>, width: nat)
    requires
        width >= 1,
        tidy_state(st.0, st.1, st.2),
        is_word(w),
    ensures
        tidy_state(place_word(st, w, width).0, place_word(st, w, width).1, place_word(st, w, width).2),
        place_word(st, w, width).1.len() > 0,
{
    let (l1, c1, a1, w1) = hard_split(st.0, st.1, st.2, w, width);
    lemma_hard_split_tidy(st.0, st.1, st.2, w, width);
    let sep: nat = if c1.len() == 0 { 0 } else { 1 };
    let (l2, c2, a2) = if w1.len() + sep > a1 {
        (l1.push(c1), Seq::<char>::empty(), width)
    } else {
        (l1, c1, a1)
    };
    if w1.len() + sep > a1 {
        assert(c1.len() > 0);
        assert forall|i: int| 0 <= i < l1.push(c1).len() implies tidy(#[trigger] l1.push(c1)[i]) by {
            if i < l1.len() {
                assert(l1.push(c1)[i] == l1[i]);
            } else {
                assert(l1.push(c1)[i] == c1);
            }
        }
    }
    let (c3, a3) = if c2.len() > 0 { (c2.push(' '), sat_sub(a2, 1)) } else { (c2, a2) };
    let cur = c3 + w1;
    assert(cur[cur.len() - 1] == w1[w1.len() - 1]);
    if c2.len() > 0 {
        assert(cur[0] == c2[0]);
    } else {
        assert(cur[0] == w1[0]);
    }
    assert(place_word(st, w, width) == (l2, cur, sat_sub(a3, w1.len())));
}

proof fn lemma_fold_tidy(ws: Seq<Seq<char>>, first: nat, width: nat)
    requires
        first >= 1,
        width >= 1,
        forall|i: int| 0 <= i < ws.len() ==> is_word(#[trigger] ws[i]),
    ensures
        tidy_state(wrap_fold(ws, first, width).0, wrap_fold(ws, first, width).1, wrap_fold(ws, first, width).2),
        ws.len() > 0 ==> wrap_fold(ws, first, width).1.len() > 0,
    decreases ws.len(),
{
    if ws.len() > 0 {
        assert forall|i: int| 0 <= i < ws.drop_last().len() implies is_word(#[trigger] ws.drop_last()[i]) by {
            assert(ws.drop_last()[i] == ws[i]);
        }
        lemma_fold_tidy(ws.drop_last(), first, width);
        assert(is_word(ws[ws.len() - 1]));
        lemma_place_tidy(wrap_fold(ws.drop_last(), first, width), ws.last(), width);
    }
}

proof fn lemma_flatten_words_nonempty(ws: Seq<Seq<char>>)
    requires
        ws.len() > 0,
        forall|i: int| 0 <= i < ws.len() ==> is_word(#[trigger] ws[i]),
    ensures
        flatten(ws).len() > 0,
{
    assert(is_word(ws[ws.len() - 1]));
}

/// A blank body (nothing but whitespace) wraps to exactly one empty line;
/// any other body wraps to lines none of which is empty or starts or ends
/// with whitespace.
pub proof fn lemma_wrap_body_tidy(body: Seq<char>, first_avail: nat, width: nat)
    ensures
        non_space(body).len() == 0 ==> wrap_body_spec(body, first_avail, width) == seq![Seq::<char>::empty()],
        non_space(body).len() > 0 ==> forall|i: int| 0 <= i < wrap_body_spec(body, first_avail, width).len()
            ==> tidy(#[trigger] wrap_body_spec(body, first_avail, width)[i]),
{
    let f = at_least_one(first_avail);
    let w = at_least_one(width);
    let ws = words(body);
    lemma_words(body);
    lemma_fold_tidy(ws, f, w);
    let st = wrap_fold(ws, f, w);
    if ws.len() > 0 {
        lemma_flatten_words_nonempty(ws);
    }
    if non_space(body).len() == 0 {
        assert(ws.len() == 0);
        assert(st.0.push(st.1) =~= seq![Seq::<char>::empty()]);
    } else {
        assert(ws.len() > 0);
        assert forall|i: int| 0 <= i < st.0.push(st.1).len() implies tidy(#[trigger] st.0.push(st.1)[i]) by {
            if i < st.0.len() {
                assert(st.0.push(st.1)[i] == st.0[i]);
            }
        }
    }
}

// --- The conversation region ---

/// One row of the message region.
#[derive(Debug, Clone, PartialEq, Eq)]
pub enum ChatRow {
    /// An empty row padding the top, so the conversation hugs the bottom.
    Blank,
    /// The note shown when there are no messages.
    Hint(String),
    /// A line of a message: the speaker label (on a message's first line,
    /// else empty), the text, the spaces before them (own messages are
    /// right-aligned) and whether the logged-in user sent it.
    Line(String, String, usize, bool),
}

pub enum ChatRowView {
    Blank,
    Hint(Seq<char>),
    Line(Seq<char>, Seq<char>, nat, bool),
}

impl View for ChatRow {
    type V = ChatRowView;

    open spec fn view(&self) -> ChatRowView {
        match self {
            ChatRow::Blank => ChatRowView::Blank,
            ChatRow::Hint(h) => ChatRowView::Hint(h@),
            ChatRow::Line(l, t, p, me) => ChatRowView::Line(l@, t@, *p as nat, *me),
        }
    }
}

pub open spec fn row_views(rs: Seq<ChatRow>) -> Seq<ChatRowView> {
    rs.map_values(|r: ChatRow| r@)
}

/// Who said it: `me: ` for the logged-in user, else the partner's name.
pub open spec fn speaker(from_self: bool, partner: Seq<char>) -> Seq<char> {
    if from_self { "me: "@ } else { partner + ": "@ }
}

/// The rows of one message: its body wrapped to `width` columns, the first
/// line sharing its row with the speaker label; an own message's rows are
/// padded on the left so they end at the right edge.
pub open spec fn message_rows(body: Seq<char>, from_self: bool, partner: Seq<char>, width: nat) -> Seq<ChatRowView> {
    let label = speaker(from_self, partner);
    let wrapped = wrap_body_spec(body, sat_sub(width, label.len()), width);
    Seq::new(wrapped.len(), |i: int| {
        let lab = if i == 0 { label } else { Seq::<char>::empty() };
        ChatRowView::Line(lab, wrapped[i], if from_self { sat_sub(width, lab.len() + wrapped[i].len()) } else { 0 }, from_self)
    })
}

/// The rows of the messages, oldest first.
pub open spec fn history_rows(msgs: Seq<ChatMessageJson>, partner: Seq<char>, width: nat) -> Seq<ChatRowView>
    decreases msgs.len(),
{
    if msgs.len() == 0 {
        Seq::empty()
    } else {
        history_rows(msgs.drop_last(), partner, width)
            + message_rows(msgs.last().message@, msgs.last().from_self, partner, width)
    }
}

/// Every row of the conversation, or the note when there is none.
pub open spec fn all_rows(msgs: Seq<ChatMessageJson>, partner: Seq<char>, width: nat) -> Seq<ChatRowView> {
    if msgs.len() == 0 {
        seq![ChatRowView::Hint("No messages yet. Say hi!"@)]
    } else {
        history_rows(msgs, partner, width)
    }
}

/// The message region of a panel with `height` content rows, two of which
/// are the composer's: the newest rows that fit, under blank rows that fill
/// the rest; nothing when the composer does not fit.
pub open spec fn conversation_spec(msgs: Seq<ChatMessageJson>, partner: Seq<char>, width: nat, height: nat) -> Seq<ChatRowView> {
    if height < 2 {
        Seq::empty()
    } else {
        let room = (height - 2) as nat;
        let rows = all_rows(msgs, partner, width);
        let shown = if rows.len() > room { rows.skip(rows.len() - room) } else { rows };
        Seq::new((room - shown.len()) as nat, |i: int| ChatRowView::Blank) + shown
    }
}

fn message_rows_exec(body: &str, from_self: bool, partner: &str, width: usize, out: &mut Vec<ChatRow>)
    ensures
        row_views(final(out)@) == row_views(old(out)@) + message_rows(body@, from_self, partner@, width as nat),
{
    let label = if from_self { owned("me: ") } else { concat(partner, ": ") };
    proof {
        reveal_strlit("me: ");
        reveal_strlit(": ");
    }
    assert(label@ == speaker(from_self, partner@));
    let label_w = label.as_str().unicode_len();
    let first_avail = if width >= label_w { width - label_w } else { 0 };
    let wrapped = wrap_body(body, first_avail, width);
    let ghost spec_rows = message_rows(body@, from_self, partner@, width as nat);
    let ghost start = row_views(out@);
    let mut i: usize = 0;
    while i < wrapped.len()
        invariant
            i <= wrapped@.len(),
            views(wrapped@) == wrap_body_spec(body@, sat_sub(width as nat, label@.len()), width as nat),
            label@ == speaker(from_self, partner@),
            label_w == label@.len(),
            spec_rows == message_rows(body@, from_self, partner@, width as nat),
            row_views(out@) == start + spec_rows.take(i as int),
        decreases wrapped@.len() - i,
    {
        let lab = if i == 0 { owned(label.as_str()) } else { String::new() };
        let text = owned(wrapped[i].as_str());
        let lab_w = lab.as_str().unicode_len();
        let text_w = text.as_str().unicode_len();
        let pad = if from_self && lab_w <= width && text_w <= width - lab_w { width - lab_w - text_w } else { 0 };
        proof {
            assert(text@ == views(wrapped@)[i as int]);
            assert(lab@ == (if i == 0 { speaker(from_self, partner@) } else { Seq::<char>::empty() }));
        }
        let row = ChatRow::Line(lab, text, pad, from_self);
        assert(row@ == spec_rows[i as int]);
        let ghost before = row_views(out@);
        out.push(row);
        assert(row_views(out@) =~= before.push(row@));
        assert(spec_rows.take(i + 1) =~= spec_rows.take(i as int).push(spec_rows[i as int]));
        i += 1;
    }
    assert(spec_rows.take(wrapped@.len() as int) =~= spec_rows);
}

fn copy_row(r: &ChatRow) -> (c: ChatRow)
    ensures
        c@ == r@,
{
    match r {
        ChatRow::Blank => ChatRow::Blank,
        ChatRow::Hint(h) => ChatRow::Hint(owned(h.as_str())),
        ChatRow::Line(l, t, p, me) => ChatRow::Line(owned(l.as_str()), owned(t.as_str()), *p, *me),
    }
}

/// The message region of the chat panel, as [`conversation_spec`] says:
/// exactly `height - 2` rows (when `height` is at least 2), the newest
/// message's last line on the bottom row.
pub fn conversation(messages: &Vec<ChatMessageJson>, partner: &str, width: usize, height: usize) -> (rows: Vec<ChatRow>)
    ensures
        row_views(rows@) == conversation_spec(messages@, partner@, width as nat, height as nat),
{
    let mut all: Vec<ChatRow> = Vec::new();
    if messages.len() == 0 {
        all.push(ChatRow::Hint(owned("No messages yet. Say hi!")));
        assert(row_views(all@) =~= all_rows(messages@, partner@, width as nat));
    } else {
        let mut k: usize = 0;
        assert(messages@.take(0) =~= Seq::<ChatMessageJson>::empty());
        assert(row_views(all@) =~= Seq::<ChatRowView>::empty());
        while k < messages.len()
            invariant
                k <= messages@.len(),
                row_views(all@) == history_rows(messages@.take(k as int), partner@, width as nat),
            decreases messages@.len() - k,
        {
            let m = &messages[k];
            message_rows_exec(m.message.as_str(), m.from_self, partner, width, &mut all);
            proof {
                let next = messages@.take(k + 1);
                assert(next.drop_last() =~= messages@.take(k as int));
                assert(next.last() == messages@[k as int]);
            }
            k += 1;
        }
        assert(messages@.take(messages@.len() as int) =~= messages@);
    }
    if height < 2 {
        return Vec::new();
    }
    let room = height - 2;
    let n = all.len();
    let skip = if n > room { n - room } else { 0 };
    let mut rows: Vec<ChatRow> = Vec::new();
    let ghost allv = row_views(all@);
    let ghost shown = if allv.len() > room { allv.skip(allv.len() - room) } else { allv };
    let blanks = room - (n - skip);
    let mut b: usize = 0;
    while b < blanks
        invariant
            b <= blanks,
            row_views(rows@) == Seq::new(b as nat, |i: int| ChatRowView::Blank),
        decreases blanks - b,
    {
        let ghost before = row_views(rows@);
        rows.push(ChatRow::Blank);
        assert(row_views(rows@) =~= before.push(ChatRowView::Blank));
        assert(row_views(rows@) =~= Seq::new((b + 1) as nat, |i: int| ChatRowView::Blank));
        b += 1;
    }
    let mut j: usize = skip;
    while j < n
        invariant
            skip <= j <= n,
            n == all@.len(),
            allv == row_views(all@),
            shown == (if allv.len() > room { allv.skip(allv.len() - room) } else { allv }),
            skip == (if n > room { n - room } else { 0 }),
            row_views(rows@) == Seq::new(blanks as nat, |i: int| ChatRowView::Blank) + allv.subrange(skip as int, j as int),
        decreases n - j,
    {
        let ghost before = row_views(rows@);
        let r = copy_row(&all[j]);
        rows.push(r);
        assert(r@ == allv[j as int]);
        assert(row_views(rows@) =~= before.push(allv[j as int]));
        assert(allv.subrange(skip as int, j + 1) =~= allv.subrange(skip as int, j as int).push(allv[j as int]));
        j += 1;
    }
    assert(allv.subrange(skip as int, n as int) =~= shown);
    rows
}

/// The conversation region always fills the space above the composer:
/// `height - 2` rows, whatever the history.
pub proof fn lemma_conversation_fills(msgs: Seq<ChatMessageJson>, partner: Seq<char>, width: nat, height: nat)
    requires
        height >= 2,
    ensures
        conversation_spec(msgs, partner, width, height).len() == height - 2,
{
}

/// On overflow the oldest rows are dropped: the region shows the newest
/// rows of the conversation, in order, ending on the bottom row.
pub proof fn lemma_conversation_keeps_newest(msgs: Seq<ChatMessageJson>, partner: Seq<char>, width: nat, height: nat)
    requires
        height >= 2,
        all_rows(msgs, partner, width).len() >= height - 2,
    ensures
        conversation_spec(msgs, partner, width, height)
            == all_rows(msgs, partner, width).skip(all_rows(msgs, partner, width).len() - (height - 2)),
{
    let rows = all_rows(msgs, partner, width);
    let room = (height - 2) as nat;
    let shown = if rows.len() > room { rows.skip(rows.len() - room) } else { rows };
    assert(rows.skip(rows.len() - room) =~= shown);
    assert(Seq::new(0, |i: int| ChatRowView::Blank) + shown =~= shown);
}

/// The conversation is bottom-anchored: when there is room, the newest
/// message's last line sits on the bottom row, and the rows of a short
/// conversation are the whole conversation under blank padding.
pub proof fn lemma_conversation_bottom_anchored(msgs: Seq<ChatMessageJson>, partner: Seq<char>, width: nat, height: nat)
    requires
        height > 2,
    ensures
        conversation_spec(msgs, partner, width, height).last() == all_rows(msgs, partner, width).last(),
        all_rows(msgs, partner, width).len() <= height - 2 ==> conversation_spec(msgs, partner, width, height)
            == Seq::new((height - 2 - all_rows(msgs, partner, width).len()) as nat, |i: int| ChatRowView::Blank) + all_rows(msgs, partner, width),
{
    let rows = all_rows(msgs, partner, width);
    lemma_all_rows_nonempty(msgs, partner, width);
    let room = (height - 2) as nat;
    let shown = if rows.len() > room { rows.skip(rows.len() - room) } else { rows };
    let c = conversation_spec(msgs, partner, width, height);
    assert(shown.len() > 0);
    assert(shown.last() == rows.last());
    assert(c.last() == shown.last());
}

proof fn lemma_all_rows_nonempty(msgs: Seq<ChatMessageJson>, partner: Seq<char>, width: nat)
    ensures
        all_rows(msgs, partner, width).len() > 0,
{
    if msgs.len() > 0 {
        let m = msgs.last();
        let label = speaker(m.from_self, partner);
        assert(wrap_body_spec(m.message@, sat_sub(width, label.len()), width).len() >= 1);
        assert(message_rows(m.message@, m.from_self, partner, width).len() >= 1);
    }
}

} // verus!
