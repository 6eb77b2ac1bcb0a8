//! The key-binding list of the help overlay.

use vstd::prelude::*;

verus! {

/// One entry of the help list.
#[derive(Debug, Clone, Copy)]
pub enum Entry {
    Header(&'static str),
    Binding(&'static str, &'static str),
    Blank,
}

/// How many entries the help list has.
pub open spec fn help_len() -> nat {
    59
}

/// The rows of the overlay: entries are shown two per row.
pub open spec fn help_rows() -> int {
    (help_len() as int + 1) / 2
}

fn push(v: &mut Vec<Entry>, e: Entry)
    ensures
        final(v)@ == old(v)@.push(e),
{
    v.push(e);
}

/// The full list of help entries, shared by rendering and the row count.
pub fn entries() -> (v: Vec<Entry>)
    ensures
        v@.len() == help_len(),
{
    let mut v: Vec<Entry> = Vec::new();
    push(&mut v, Entry::Header("Navigation"));
    push(&mut v, Entry::Binding("j / \u{2193}", "move down"));
    push(&mut v, Entry::Binding("k / \u{2191}", "move up"));
    push(&mut v, Entry::Binding("g", "jump to top"));
    push(&mut v, Entry::Binding("G", "jump to bottom"));
    push(&mut v, Entry::Binding("PageUp/Down", "page up / down"));
    push(&mut v, Entry::Binding("mouse wheel", "scroll the list"));
    push(&mut v, Entry::Binding("Shift+drag", "select text"));
    push(&mut v, Entry::Blank);
    push(&mut v, Entry::Header("Filtering"));
    push(&mut v, Entry::Binding("Tab / S-Tab", "cycle tabs (+Friends)"));
    push(&mut v, Entry::Binding("1 \u{2013} 5", "jump to a tab (5=Friends)"));
    push(&mut v, Entry::Binding("/", "focus text filter"));
    push(&mut v, Entry::Binding("Esc", "clear filter"));
    push(&mut v, Entry::Binding("s", "cycle sort"));
    push(&mut v, Entry::Blank);
    push(&mut v, Entry::Header("Actions"));
    push(&mut v, Entry::Binding("Enter", "launch game"));
    push(&mut v, Entry::Binding("a", "achievements"));
    push(&mut v, Entry::Binding("I", "inventory"));
    push(&mut v, Entry::Binding("m", "market listings"));
    push(&mut v, Entry::Binding("S", "search community market"));
    push(&mut v, Entry::Binding("  Enter / Tab", "  run / price highlighted"));
    push(&mut v, Entry::Binding("i", "expand / collapse desc"));
    push(&mut v, Entry::Binding("d", "install (pick library)"));
    push(&mut v, Entry::Binding("Space", "pause / resume install"));
    push(&mut v, Entry::Binding("c", "cancel install"));
    push(&mut v, Entry::Binding("x", "uninstall game"));
    push(&mut v, Entry::Binding("M", "move install"));
    push(&mut v, Entry::Binding("K", "relink install"));
    push(&mut v, Entry::Binding("N", "import install"));
    push(&mut v, Entry::Binding("v", "verify files"));
    push(&mut v, Entry::Binding("U", "update game"));
    push(&mut v, Entry::Binding("D", "manage DLC"));
    push(&mut v, Entry::Binding("b", "beta branches"));
    push(&mut v, Entry::Binding("o", "depots"));
    push(&mut v, Entry::Binding("P", "proton (d/i/u)"));
    push(&mut v, Entry::Binding("R", "running games"));
    push(&mut v, Entry::Binding("W", "workshop items"));
    push(&mut v, Entry::Binding("W then b", "browse workshop"));
    push(&mut v, Entry::Binding("f", "toggle favourite"));
    push(&mut v, Entry::Binding("H", "hide game"));
    push(&mut v, Entry::Binding("C", "cloud saves (s/d/u)"));
    push(&mut v, Entry::Binding("L", "launch options"));
    push(&mut v, Entry::Binding("r", "refresh library"));
    push(&mut v, Entry::Binding("A", "account"));
    push(&mut v, Entry::Binding("p", "settings"));
    push(&mut v, Entry::Binding("F / 5", "open Friends tab"));
    push(&mut v, Entry::Binding("c / Enter", "chat (Friends tab)"));
    push(&mut v, Entry::Binding("t", "chat in new window"));
    push(&mut v, Entry::Binding("a", "add friend (Friends)"));
    push(&mut v, Entry::Binding("x", "remove friend (Friends)"));
    push(&mut v, Entry::Binding("A then o", "log out"));
    push(&mut v, Entry::Binding("w", "wallet balance"));
    push(&mut v, Entry::Binding("l", "sign in again"));
    push(&mut v, Entry::Blank);
    push(&mut v, Entry::Header("General"));
    push(&mut v, Entry::Binding("?", "toggle this help"));
    push(&mut v, Entry::Binding("q", "quit"));
    v
}

/// The number of rendered rows: entries paired side by side.
pub fn row_count() -> (n: u16)
    ensures
        n == help_rows(),
{
    let n = entries().len();
    ((n + 1) / 2) as u16
}

} // verus!
