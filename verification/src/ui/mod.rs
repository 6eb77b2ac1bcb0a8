//! Pure layout helpers behind the browse widgets: row markers, name marquees,
//! word wrapping and the text of the small status rows.

pub mod list;
pub mod words;
pub mod chat;
pub mod detail;
pub mod help;
pub mod settings;
pub mod friends;
pub mod achievements;

use vstd::prelude::*;

verus! {

/// The marker drawn before a row of a selectable list.
pub open spec fn selection_marker_spec(selected: bool) -> Seq<char> {
    if selected {
        seq!['\u{25b6}', ' ']
    } else {
        seq![' ', ' ']
    }
}

/// The leading marker for a row in a selectable list overlay: the `▶ `
/// selection glyph for the highlighted row, two spaces otherwise, so every row
/// stays column-aligned.
pub fn selection_marker(selected: bool) -> (r: &'static str)
    ensures
        r@ == selection_marker_spec(selected),
{
    if selected {
        let r = "\u{25b6} ";
        proof {
            reveal_strlit("\u{25b6} ");
        }
        r
    } else {
        let r = "  ";
        proof {
            reveal_strlit("  ");
        }
        r
    }
}

} // verus!
