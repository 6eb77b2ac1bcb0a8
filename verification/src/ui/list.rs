//! Name fitting for the game list: the marquee that scrolls an over-long name
//! through a fixed-width column, and the ellipsis clip.

use vstd::prelude::*;
use crate::text::{chars_of, owned, str_eq, string_of, string_of_range};
use crate::ui::chat::sat_sub;

verus! {

/// The separator between the tail of a scrolling name and its repeat.
pub open spec fn marquee_gap() -> Seq<char> {
    seq![' ', ' ', ' ', '\u{2022}', ' ', ' ', ' ']
}

/// What a marquee shows: a name that fits (or a zero budget) as it is;
/// otherwise the `budget`-wide window, starting `tick` columns in, of the name
/// followed by the gap, repeated forever.
pub open spec fn marquee_spec(name: Seq<char>, budget: nat, tick: nat) -> Seq<char> {
    if budget == 0 || name.len() <= budget {
        name
    } else {
        let cycle = name + marquee_gap();
        Seq::new(budget, |i: int| cycle[(tick as int % cycle.len() as int + i) % cycle.len() as int])
    }
}

/// Scroll `name` like a marquee when it is wider than `budget` columns: the
/// text streams left, separated from its wrapped-around start by a short gap,
/// looping forever. A name that already fits (or a zero budget) is returned
/// unchanged. Each increment of `tick` shifts the window one column left.
pub fn marquee(name: &str, budget: usize, tick: usize) -> (r: String)
    ensures
        r@ == marquee_spec(name@, budget as nat, tick as nat),
{
    let chars = chars_of(name);
    if budget == 0 || chars.len() <= budget {
        return owned(name);
    }
    let mut cycle = chars;
    cycle.push(' ');
    cycle.push(' ');
    cycle.push(' ');
    cycle.push('\u{2022}');
    cycle.push(' ');
    cycle.push(' ');
    cycle.push(' ');
    let ghost full = name@ + marquee_gap();
    assert(cycle@ =~= full);
    let period = cycle.len();
    let start = tick % period;
    let mut out: Vec<char> = Vec::new();
    let mut i: usize = 0;
    while i < budget
        invariant
            cycle@ == full,
            period == full.len(),
            budget < period,
            start == tick as int % period as int,
            i <= budget,
            out@ =~= Seq::new(i as nat, |k: int| full[(start + k) % period as int]),
        decreases budget - i,
    {
        let idx = if i < period - start {
            start + i
        } else {
            i - (period - start)
        };
        assert(idx == (start + i) % period as int) by (nonlinear_arith)
            requires
                start < period,
                i < period,
                idx == (if i < period - start { start + i } else { i - (period - start) }),
        {
        }
        out.push(cycle[idx]);
        i += 1;
    }
    string_of(&out)
}

/// The marquee repeats itself after a full period: the name plus the gap.
pub proof fn lemma_marquee_period(name: Seq<char>, budget: nat, tick: nat)
    ensures
        marquee_spec(name, budget, tick + name.len() + marquee_gap().len())
            == marquee_spec(name, budget, tick),
{
    let p = name.len() + marquee_gap().len();
    assert((tick + p) as int % p as int == tick as int % p as int) by (nonlinear_arith)
        requires
            p > 0,
    {
        vstd::arithmetic::div_mod::lemma_mod_add_multiples_vanish(tick as int, p as int);
    }
    assert(marquee_spec(name, budget, tick + p) =~= marquee_spec(name, budget, tick));
}

/// A name that overflows its column always comes out exactly `budget` wide.
pub proof fn lemma_marquee_width(name: Seq<char>, budget: nat, tick: nat)
    requires
        budget > 0,
        name.len() > budget,
    ensures
        marquee_spec(name, budget, tick).len() == budget,
{
}

/// The ellipsis clip of `name` to `budget` columns.
pub open spec fn clip_spec(name: Seq<char>, budget: nat) -> Seq<char> {
    if budget == 0 {
        Seq::empty()
    } else if name.len() <= budget {
        name
    } else {
        name.take(budget - 1).push('\u{2026}')
    }
}

/// Truncate `name` to at most `budget` columns, marking a cut with an
/// ellipsis.
pub fn clip(name: &str, budget: usize) -> (r: String)
    ensures
        r@ == clip_spec(name@, budget as nat),
        r@.len() <= budget,
{
    let chars = chars_of(name);
    if budget == 0 {
        return String::new();
    }
    if chars.len() <= budget {
        return owned(name);
    }
    let mut out = string_of_range(&chars, 0, budget - 1);
    crate::text::push_char(&mut out, '\u{2026}');
    assert(out@ =~= name@.take(budget - 1).push('\u{2026}'));
    out
}

/// The first row shown of a list scrolled as a whole so the highlighted
/// row stays in a window of `rows` rows: the top while the highlight is on
/// the first page, else the highlight is the window's last row.
pub open spec fn window_start_spec(index: nat, rows: nat) -> nat {
    if rows == 0 {
        0
    } else if index >= rows {
        (index + 1 - rows) as nat
    } else {
        0
    }
}

/// Where the window of a whole-list scroll starts. The highlighted row is
/// always inside the window.
pub fn window_start(index: usize, rows: usize) -> (start: usize)
    ensures
        start == window_start_spec(index as nat, rows as nat),
        rows > 0 ==> start <= index < start + rows,
{
    if rows == 0 {
        0
    } else if index >= rows {
        index - rows + 1
    } else {
        0
    }
}

/// Whether a row's note is pinned to the right edge: a download's or a
/// paused download's percentage.
pub open spec fn pinned(glyph: Seq<char>, note: Option<Seq<char>>) -> bool {
    (glyph == "\u{2b07}"@ || glyph == "\u{23f8}"@) && note is Some
}

/// The name a list row shows and the spaces between it and the row's note,
/// in a pane `width` columns wide (borders included). A pinned note sits at
/// the right edge, the name (marqueed when highlighted, else clipped) filling
/// the room before it. Otherwise the highlighted row's name is marqueed in
/// the room left by the marker, the glyph and the note, and the other rows
/// show the whole name (the pane clips it); the note follows two spaces on.
pub open spec fn row_layout_spec(name: Seq<char>, glyph: Seq<char>, note: Option<Seq<char>>, selected: bool, width: nat, tick: nat) -> (Seq<char>, nat) {
    let inner = sat_sub(width, 2);
    if pinned(glyph, note) {
        let content = sat_sub(inner, 2);
        let pct = note->0.len();
        let budget = sat_sub(content, 2 + pct + 1);
        let shown = if selected { marquee_spec(name, budget, tick) } else { clip_spec(name, budget) };
        (shown, sat_sub(content, 2 + shown.len() + pct))
    } else {
        let note_w: nat = match note { Some(n) => n.len() + 2, None => 0 };
        let shown = if selected { marquee_spec(name, sat_sub(inner, 4 + note_w), tick) } else { name };
        (shown, 2)
    }
}

fn sat_sub_exec(a: usize, b: usize) -> (r: usize)
    ensures
        r == sat_sub(a as nat, b as nat),
{
    if a >= b { a - b } else { 0 }
}

/// Lays out the name of a list row, as [`row_layout_spec`] says.
pub fn row_layout(name: &str, glyph: &str, note: &Option<String>, selected: bool, width: usize, tick: usize) -> (out: (String, usize))
    ensures
        (out.0@, out.1 as nat) == row_layout_spec(name@, glyph@, match note { Some(n) => Some(n@), None => None }, selected, width as nat, tick as nat),
{
    let ghost note_v = match note { Some(n) => Some(n@), None => None };
    let inner = sat_sub_exec(width, 2);
    let download = str_eq(glyph, "\u{2b07}");
    let paused = str_eq(glyph, "\u{23f8}");
    proof {
        reveal_strlit("\u{2b07}");
        reveal_strlit("\u{23f8}");
    }
    match note {
        Some(pct) => {
            if download || paused {
                let content = sat_sub_exec(inner, 2);
                let pct_w = pct.as_str().unicode_len();
                let reserved = if pct_w <= usize::MAX - 3 { 3 + pct_w } else { usize::MAX };
                let budget = sat_sub_exec(content, reserved);
                proof {
                    assert(budget == sat_sub(content as nat, 2 + pct@.len() + 1));
                }
                let shown = if selected { marquee(name, budget, tick) } else { clip(name, budget) };
                let shown_w = shown.as_str().unicode_len();
                let pad = if shown_w <= content && 2 <= content - shown_w && pct_w <= content - shown_w - 2 {
                    content - shown_w - 2 - pct_w
                } else {
                    0
                };
                return (shown, pad);
            }
        },
        None => {},
    }
    let note_w: usize = match note {
        Some(n) => {
            let w = n.as_str().unicode_len();
            if w <= usize::MAX - 6 { w + 2 } else { usize::MAX - 4 }
        },
        None => 0,
    };
    let shown = if selected {
        let budget = if note_w <= usize::MAX - 4 { sat_sub_exec(inner, 4 + note_w) } else { 0 };
        proof {
            if note_v is Some {
                assert(note_w == note_v->0.len() + 2 || note_v->0.len() + 2 > usize::MAX - 4);
            }
        }
        marquee(name, budget, tick)
    } else {
        owned(name)
    };
    (shown, 2)
}

/// The marquee's clock: the row it last scrolled and the global tick at
/// which that row was first hovered.
#[derive(Debug, Clone, Copy, PartialEq, Eq)]
pub struct MarqueeClock {
    pub row: Option<usize>,
    pub base: usize,
}

impl MarqueeClock {
    /// A clock for no hovered row yet.
    pub fn new() -> (c: MarqueeClock)
        ensures
            c.row is None,
            c.base == 0,
    {
        MarqueeClock { row: None, base: 0 }
    }

    /// The marquee step for the hovered row `selected` at the global tick
    /// `global`: when the highlight moved to another row the clock restarts
    /// there (step 0); otherwise the steps since that row was first hovered.
    pub fn step(&mut self, selected: Option<usize>, global: usize) -> (t: usize)
        ensures
            selected != old(self).row ==> final(self).row == selected && final(self).base == global && t == 0,
            selected == old(self).row ==> *final(self) == *old(self) && t == sat_sub(global as nat, old(self).base as nat),
    {
        if selected != self.row {
            self.row = selected;
            self.base = global;
        }
        if global >= self.base { global - self.base } else { 0 }
    }
}

/// A newly hovered name starts at its first character: at step 0 the
/// marquee shows the name's first `budget` characters.
pub proof fn lemma_marquee_starts_at_name(name: Seq<char>, budget: nat)
    requires
        budget > 0,
        name.len() > budget,
    ensures
        marquee_spec(name, budget, 0) == name.take(budget as int),
{
    let cycle = name + marquee_gap();
    assert forall|i: int| 0 <= i < budget implies #[trigger] marquee_spec(name, budget, 0)[i] == name.take(budget as int)[i] by {
        let n = cycle.len() as int;
        assert(0int % n == 0) by (nonlinear_arith) requires n > 0;
        assert(i % n == i) by (nonlinear_arith) requires 0 <= i < n;
        assert(cycle[i] == name[i]);
    }
    assert(marquee_spec(name, budget, 0) =~= name.take(budget as int));
}

} // verus!
