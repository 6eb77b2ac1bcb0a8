//! The detail panel's rows for the selected game, with the word wrapping of
//! its description.

use vstd::prelude::*;
use crate::config::Config;
use crate::game::{Game, state_of, installdir_of, shown_name, developer_text, publisher_text, description_text, proton_text};
use crate::text::{chars_of, owned, string_of, push_char, i32_text, signed_decimal};
use crate::ui::chat::views;
use crate::ui::words::{split_words, words};

verus! {

/// The pieces of `s` between `'\n'` characters (`str::split('\n')`): `cur`
/// is the piece being read, `acc` the pieces already finished.
pub open spec fn split_nl_acc(s: Seq<char>, cur: Seq<char>, acc: Seq<Seq<char>>) -> Seq<Seq<char>>
    decreases s.len(),
{
    if s.len() == 0 {
        acc.push(cur)
    } else if s[0] == '\n' {
        split_nl_acc(s.drop_first(), Seq::empty(), acc.push(cur))
    } else {
        split_nl_acc(s.drop_first(), cur.push(s[0]), acc)
    }
}

pub open spec fn split_nl(s: Seq<char>) -> Seq<Seq<char>> {
    split_nl_acc(s, Seq::empty(), Seq::empty())
}

/// Greedy wrap state for one paragraph: finished lines, current line and its
/// column count.
pub type ParaState = (Seq<Seq<char>>, Seq<char>, nat);

pub open spec fn para_step(st: ParaState, w: Seq<char>, width: nat) -> ParaState {
    if st.2 == 0 {
        (st.0, st.1 + w, w.len())
    } else if st.2 + 1 + w.len() <= width {
        (st.0, st.1.push(' ') + w, st.2 + 1 + w.len())
    } else {
        (st.0.push(st.1), w, w.len())
    }
}

pub open spec fn para_fold(ws: Seq<Seq<char>>, lines: Seq<Seq<char>>, width: nat) -> ParaState
    decreases ws.len(),
{
    if ws.len() == 0 {
        (lines, Seq::empty(), 0)
    } else {
        para_step(para_fold(ws.drop_last(), lines, width), ws.last(), width)
    }
}

/// Lines after wrapping the paragraphs `ps` onto `lines`.
pub open spec fn wrap_paras(ps: Seq<Seq<char>>, width: nat) -> Seq<Seq<char>>
    decreases ps.len(),
{
    if ps.len() == 0 {
        Seq::empty()
    } else {
        let st = para_fold(words(ps.last()), wrap_paras(ps.drop_last(), width), width);
        st.0.push(st.1)
    }
}

/// What `wrap` returns: the text itself for a zero width; otherwise each
/// `'\n'`-separated paragraph greedily wrapped so words are joined by single
/// spaces while they fit `width` (a longer word overflows its own line).
pub open spec fn wrap_spec(text: Seq<char>, width: nat) -> Seq<Seq<char>> {
    if width == 0 {
        seq![text]
    } else {
        let ls = wrap_paras(split_nl(text), width);
        if ls.len() == 0 { seq![Seq::empty()] } else { ls }
    }
}

fn split_paragraphs(s: &Vec<char>) -> (ps: Vec<Vec<char>>)
    ensures
        ps@.len() == split_nl(s@).len(),
        forall|i: int| 0 <= i < ps@.len() ==> #[trigger] ps@[i]@ == split_nl(s@)[i],
{
    let mut ps: Vec<Vec<char>> = Vec::new();
    let mut cur: Vec<char> = Vec::new();
    let mut i: usize = 0;
    assert(s@.skip(0) =~= s@);
    assert(ps@.map_values(|w: Vec<char>| w@) =~= Seq::<Seq<char>>::empty());
    assert(cur@ =~= Seq::<char>::empty());
    while i < s.len()
        invariant
            i <= s.len(),
            split_nl(s@) == split_nl_acc(s@.skip(i as int), cur@, ps@.map_values(|w: Vec<char>| w@)),
        decreases s.len() - i,
    {
        let ghost rest = s@.skip(i as int);
        assert(rest.drop_first() =~= s@.skip(i + 1));
        assert(rest[0] == s@[i as int]);
        if s[i] == '\n' {
            let w = cur;
            cur = Vec::new();
            let ghost before = ps@.map_values(|w: Vec<char>| w@);
            ps.push(w);
            assert(ps@.map_values(|w: Vec<char>| w@) =~= before.push(w@));
            assert(cur@ =~= Seq::<char>::empty());
        } else {
            cur.push(s[i]);
        }
        i += 1;
    }
    assert(s@.skip(i as int) =~= Seq::<char>::empty());
    let ghost before = ps@.map_values(|w: Vec<char>| w@);
    ps.push(cur);
    assert(ps@.map_values(|w: Vec<char>| w@) =~= before.push(ps@.last()@));
    assert(ps@.map_values(|w: Vec<char>| w@).len() == ps@.len());
    ps
}

/// Word-wrap `text` to `width` columns, preserving explicit newlines. Words
/// longer than `width` simply overflow their line.
pub fn wrap(text: &str, width: usize) -> (lines: Vec<String>)
    ensures
        views(lines@) == wrap_spec(text@, width as nat),
{
    if width == 0 {
        let mut v: Vec<String> = Vec::new();
        v.push(owned(text));
        assert(views(v@) =~= seq![text@]);
        return v;
    }
    let chars = chars_of(text);
    let ps = split_paragraphs(&chars);
    let mut lines: Vec<String> = Vec::new();
    let mut p: usize = 0;
    let ghost psv = split_nl(text@);
    assert(psv.take(0) =~= Seq::<Seq<char>>::empty());
    assert(views(lines@) =~= Seq::<Seq<char>>::empty());
    while p < ps.len()
        invariant
            p <= ps.len(),
            ps@.len() == psv.len(),
            forall|i: int| 0 <= i < ps@.len() ==> #[trigger] ps@[i]@ == psv[i],
            views(lines@) == wrap_paras(psv.take(p as int), width as nat),
        decreases ps.len() - p,
    {
        let ws = split_words(&ps[p]);
        let ghost wsv = words(psv[p as int]);
        let ghost base = views(lines@);
        let mut line: Vec<char> = Vec::new();
        let mut col: usize = 0;
        let mut k: usize = 0;
        assert(wsv.take(0) =~= Seq::<Seq<char>>::empty());
        while k < ws.len()
            invariant
                k <= ws.len(),
                ws@.len() == wsv.len(),
                forall|i: int| 0 <= i < ws@.len() ==> #[trigger] ws@[i]@ == wsv[i],
                (views(lines@), line@, col as nat) == para_fold(wsv.take(k as int), base, width as nat),
                col <= line@.len(),
            decreases ws.len() - k,
        {
            let word = &ws[k];
            let wlen = word.len();
            if col == 0 {
                line.append(&mut word.clone());
                col = wlen;
            } else if wlen < width && col <= width - 1 - wlen {
                line.push(' ');
                line.append(&mut word.clone());
                col = col + 1 + wlen;
            } else {
                let s = string_of(&line);
                let ghost before = views(lines@);
                lines.push(s);
                assert(views(lines@) =~= before.push(s@));
                line = word.clone();
                col = wlen;
            }
            proof {
                assert(wsv.take(k + 1).drop_last() =~= wsv.take(k as int));
                assert(wsv.take(k + 1).last() == wsv[k as int]);
            }
            k += 1;
            assert((views(lines@), line@, col as nat) == para_fold(wsv.take(k as int), base, width as nat));
        }
        assert(wsv.take(ws.len() as int) =~= wsv);
        let s = string_of(&line);
        let ghost before = views(lines@);
        lines.push(s);
        assert(views(lines@) =~= before.push(s@));
        proof {
            assert(psv.take(p + 1).drop_last() =~= psv.take(p as int));
            assert(psv.take(p + 1).last() == psv[p as int]);
        }
        p += 1;
    }
    assert(psv.take(ps.len() as int) =~= psv);
    if lines.len() == 0 {
        lines.push(String::new());
        assert(views(lines@) =~= seq![Seq::<char>::empty()]);
    }
    lines
}

/// How many wrapped lines of the description show while it is collapsed.
pub const DESC_COLLAPSED_LINES: usize = 6;

/// One row of the detail panel.
#[derive(Debug, Clone)]
pub enum DetailRow {
    /// An empty separator row.
    Blank,
    /// Two column headings.
    Labels(String, String),
    /// Two plain values.
    Values(String, String),
    /// A heading and its value, one entry per line shown.
    Field(String, Vec<String>),
    /// A line standing alone.
    Message(String),
}

/// The content of a detail row.
pub enum RowView {
    Blank,
    Labels(Seq<char>, Seq<char>),
    Values(Seq<char>, Seq<char>),
    Field(Seq<char>, Seq<Seq<char>>),
    Message(Seq<char>),
}

impl View for DetailRow {
    type V = RowView;

    open spec fn view(&self) -> RowView {
        match self {
            DetailRow::Blank => RowView::Blank,
            DetailRow::Labels(a, b) => RowView::Labels(a@, b@),
            DetailRow::Values(a, b) => RowView::Values(a@, b@),
            DetailRow::Field(h, ls) => RowView::Field(h@, views(ls@)),
            DetailRow::Message(m) => RowView::Message(m@),
        }
    }
}

pub open spec fn rows_view(rs: Seq<DetailRow>) -> Seq<RowView> {
    rs.map_values(|r: DetailRow| r@)
}

/// The height of a row: one line, or as many as a field shows.
pub open spec fn row_height(r: RowView) -> nat {
    match r {
        RowView::Field(_, ls) => ls.len(),
        _ => 1,
    }
}

pub open spec fn rows_height(rs: Seq<RowView>) -> nat
    decreases rs.len(),
{
    if rs.len() == 0 {
        0
    } else {
        rows_height(rs.drop_last()) + row_height(rs.last())
    }
}

/// The description's lines as shown: all of them when expanded; else at
/// most [`DESC_COLLAPSED_LINES`], the last of them ending in an ellipsis
/// when some were cut.
pub open spec fn collapsed(lines: Seq<Seq<char>>, expand: bool) -> Seq<Seq<char>> {
    if !expand && lines.len() > DESC_COLLAPSED_LINES {
        let kept = lines.take(DESC_COLLAPSED_LINES as int);
        kept.update(DESC_COLLAPSED_LINES - 1, kept[DESC_COLLAPSED_LINES - 1].push('\u{2026}'))
    } else {
        lines
    }
}

pub open spec fn at_least_one(n: nat) -> nat {
    if n == 0 { 1 } else { n }
}

/// The description rows: none for an empty description; else a separator
/// and the description wrapped to the value column (at least one wide).
pub open spec fn description_rows(desc: Seq<char>, expand: bool, width: nat) -> Seq<RowView> {
    if desc.len() == 0 {
        seq![]
    } else {
        let heading = if expand { "Description ([i] collapse)"@ } else { "Description ([i] expand)"@ };
        seq![RowView::Blank, RowView::Field(heading, collapsed(wrap_spec(desc, at_least_one(width)), expand))]
    }
}

pub open spec fn one_line(heading: Seq<char>, value: Seq<char>) -> RowView {
    RowView::Field(heading, seq![value])
}

/// The panel's rows for `game`: its id and name, the store details, the
/// install state, and the description; or a note when nothing is selected.
/// `size` is the install size as text.
pub open spec fn detail_spec(game: Option<Game>, config: Config, expand: bool, width: nat, size: Seq<char>) -> Seq<RowView> {
    match game {
        Some(g) => seq![
            RowView::Labels("ID"@, "Name"@),
            RowView::Values(signed_decimal(g.id as int), shown_name(g, config)),
            RowView::Blank,
            one_line("Homepage"@, g.homepage@),
            one_line("Developer"@, developer_text(g)),
            one_line("Publisher"@, publisher_text(g)),
            one_line("Proton Tier"@, proton_text(g)),
            RowView::Blank,
            one_line("State"@, state_of(g)),
            one_line("Installation"@, installdir_of(g)),
            one_line("Size"@, size),
        ] + description_rows(description_text(g), expand, width),
        None => seq![RowView::Message("No game selected"@)],
    }
}

fn one_field(heading: &str, value: String) -> (r: DetailRow)
    ensures
        r@ == one_line(heading@, value@),
{
    let mut v: Vec<String> = Vec::new();
    v.push(value);
    assert(views(v@) =~= seq![value@]);
    DetailRow::Field(owned(heading), v)
}

fn collapse(lines: Vec<String>, expand: bool) -> (r: Vec<String>)
    ensures
        views(r@) == collapsed(views(lines@), expand),
{
    if !expand && lines.len() > DESC_COLLAPSED_LINES {
        let mut out: Vec<String> = Vec::new();
        let mut k: usize = 0;
        while k < DESC_COLLAPSED_LINES - 1
            invariant
                k <= DESC_COLLAPSED_LINES - 1,
                lines@.len() > DESC_COLLAPSED_LINES,
                views(out@) == views(lines@).take(k as int),
            decreases DESC_COLLAPSED_LINES - 1 - k,
        {
            let ghost before = views(out@);
            out.push(owned(lines[k].as_str()));
            assert(views(out@) =~= before.push(lines@[k as int]@));
            assert(views(lines@).take(k + 1) =~= views(lines@).take(k as int).push(lines@[k as int]@));
            k += 1;
        }
        let mut last = owned(lines[DESC_COLLAPSED_LINES - 1].as_str());
        push_char(&mut last, '\u{2026}');
        let ghost before = views(out@);
        out.push(last);
        assert(views(out@) =~= before.push(last@));
        assert(views(out@) =~= collapsed(views(lines@), expand));
        out
    } else {
        lines
    }
}

/// Builds the rows of [`detail_spec`] and their total height (saturating
/// at `usize::MAX`).
pub fn detail_rows(game: Option<&Game>, config: &Config, expand: bool, width: usize, size: &str) -> (out: (Vec<DetailRow>, usize))
    ensures
        rows_view(out.0@) == detail_spec(match game { Some(g) => Some(*g), None => None }, *config, expand, width as nat, size@),
        rows_height(rows_view(out.0@)) <= usize::MAX ==> out.1 == rows_height(rows_view(out.0@)),
{
    let mut rows: Vec<DetailRow> = Vec::new();
    match game {
        Some(g) => {
            proof {
                reveal_strlit("ID");
                reveal_strlit("Name");
            }
            rows.push(DetailRow::Labels(owned("ID"), owned("Name")));
            rows.push(DetailRow::Values(i32_text(g.id), g.get_name(config)));
            rows.push(DetailRow::Blank);
            rows.push(one_field("Homepage", owned(g.homepage.as_str())));
            rows.push(one_field("Developer", g.get_developer()));
            rows.push(one_field("Publisher", g.get_publisher()));
            rows.push(one_field("Proton Tier", g.get_proton()));
            rows.push(DetailRow::Blank);
            let status = g.get_status();
            rows.push(one_field("State", status.state));
            rows.push(one_field("Installation", status.installdir));
            rows.push(one_field("Size", owned(size)));
            let ghost head = rows_view(rows@);
            assert(head.len() == 11);
            assert forall|i: int| 0 <= i < head.len() implies row_height(#[trigger] head[i]) == 1 by {
                assert(head[i] == rows@[i]@);
            }
            let description = g.get_description();
            let mut height: usize = 11;
            if description.as_str().unicode_len() > 0 {
                let w = if width == 0 { 1 } else { width };
                let lines = collapse(wrap(description.as_str(), w), expand);
                let n = lines.len();
                let heading = if expand { owned("Description ([i] collapse)") } else { owned("Description ([i] expand)") };
                rows.push(DetailRow::Blank);
                rows.push(DetailRow::Field(heading, lines));
                height = if n <= usize::MAX - 12 { 12 + n } else { usize::MAX };
                proof {
                    let full = rows_view(rows@);
                    assert(full.drop_last().drop_last() =~= head);
                    lemma_head_height(head);
                    assert(row_height(full.drop_last().last()) == 1);
                    assert(row_height(full.last()) == n);
                    assert(rows_height(full.drop_last()) == rows_height(head) + 1);
                    assert(rows_height(full) == 12 + n);
                }
            } else {
                proof {
                    assert(description@.len() == 0);
                    lemma_head_height(head);
                }
            }
            proof {
                assert(rows_view(rows@) =~= detail_spec(Some(*g), *config, expand, width as nat, size@));
                assert(rows_height(rows_view(rows@)) <= usize::MAX ==> height == rows_height(rows_view(rows@)));
            }
            (rows, height)
        }
        None => {
            rows.push(DetailRow::Message(owned("No game selected")));
            proof {
                assert(rows_view(rows@) =~= seq![RowView::Message("No game selected"@)]);
                assert(rows_view(rows@).drop_last() =~= Seq::<RowView>::empty());
                assert(rows_height(Seq::<RowView>::empty()) == 0);
                assert(rows_height(rows_view(rows@)) == 1);
            }
            (rows, 1)
        }
    }
}

/// The height of the detail rows (as [`detail_rows`] counts it), which
/// the cover art is fitted above.
pub fn content_height(game: Option<&Game>, config: &Config, expand: bool, width: usize) -> (h: usize)
    ensures
        rows_height(detail_spec(match game { Some(g) => Some(*g), None => None }, *config, expand, width as nat, Seq::empty())) <= usize::MAX
            ==> h == rows_height(detail_spec(match game { Some(g) => Some(*g), None => None }, *config, expand, width as nat, Seq::empty())),
{
    let none = "";
    proof {
        reveal_strlit("");
        assert(none@ =~= Seq::<char>::empty());
    }
    let (_, h) = detail_rows(game, config, expand, width, none);
    h
}

proof fn lemma_head_height(head: Seq<RowView>)
    requires
        forall|i: int| 0 <= i < head.len() ==> row_height(#[trigger] head[i]) == 1,
    ensures
        rows_height(head) == head.len(),
    decreases head.len(),
{
    if head.len() > 0 {
        let rest = head.drop_last();
        assert forall|i: int| 0 <= i < rest.len() implies row_height(#[trigger] rest[i]) == 1 by {
            assert(rest[i] == head[i]);
        }
        lemma_head_height(rest);
        assert(row_height(head[head.len() - 1]) == 1);
    }
}

} // verus!
