//! The friends panel's content: its title, the hint shown for an empty
//! list, and the rows of the window that keeps the highlighted friend
//! visible.

use vstd::prelude::*;
use crate::aurelia::{present, FriendJson};
use crate::text::{concat, decimal, u64_text};
use crate::ui::list::{window_start, window_start_spec};

verus! {

/// How a friend's name is drawn.
#[derive(Debug, Clone, Copy, PartialEq, Eq, Structural)]
pub enum NameTone {
    /// The highlighted row while the panel has the focus.
    Selected,
    /// The highlighted row while the focus is elsewhere: plain, no
    /// background.
    Softened,
    /// An online friend.
    Online,
    /// An offline friend.
    Offline,
}

/// One row of the panel: the selection marker, the online dot, the name,
/// its tone, and the game being played, if any.
#[derive(Debug)]
pub struct FriendRow {
    pub selected: bool,
    pub online: bool,
    pub name: String,
    pub tone: NameTone,
    pub game: Option<String>,
}

/// A row as the contracts see it.
pub struct FriendRowView {
    pub selected: bool,
    pub online: bool,
    pub name: Seq<char>,
    pub tone: NameTone,
    pub game: Option<Seq<char>>,
}

pub open spec fn opt_view(o: Option<String>) -> Option<Seq<char>> {
    match o {
        Some(s) => Some(s@),
        None => None,
    }
}

pub open spec fn row_view(r: FriendRow) -> FriendRowView {
    FriendRowView { selected: r.selected, online: r.online, name: r.name@, tone: r.tone, game: opt_view(r.game) }
}

pub open spec fn row_views(v: Seq<FriendRow>) -> Seq<FriendRowView> {
    Seq::new(v.len(), |i: int| row_view(v[i]))
}

/// A friend is online in any persona state but offline.
pub open spec fn online_spec(f: FriendJson) -> bool {
    f.persona_state is Some && f.persona_state->0 != 0
}

/// The shown name: the persona name, else the SteamID.
pub open spec fn name_spec(f: FriendJson) -> Seq<char> {
    if present(f.persona_name) { f.persona_name->0@ } else { decimal(f.steam_id as nat) }
}

/// The game being played: its name, else `app <id>`, else none.
pub open spec fn game_spec(f: FriendJson) -> Option<Seq<char>> {
    if present(f.game_name) {
        Some(f.game_name->0@)
    } else if f.game_app_id is Some {
        Some("app "@ + decimal(f.game_app_id->0 as nat))
    } else {
        None
    }
}

/// The tone of a name: the highlighted row is selected while focused and
/// softened otherwise; other rows are online or offline.
pub open spec fn tone_spec(selected: bool, focused: bool, online: bool) -> NameTone {
    if selected {
        if focused { NameTone::Selected } else { NameTone::Softened }
    } else if online {
        NameTone::Online
    } else {
        NameTone::Offline
    }
}

pub open spec fn friend_row_spec(f: FriendJson, selected: bool, focused: bool) -> FriendRowView {
    FriendRowView {
        selected,
        online: online_spec(f),
        name: name_spec(f),
        tone: tone_spec(selected, focused, online_spec(f)),
        game: game_spec(f),
    }
}

/// How many rows the window shows: `rows`, or fewer at the end of the list.
pub open spec fn shown_count(len: nat, index: nat, rows: nat) -> nat {
    let start = window_start_spec(index, rows);
    if start >= len { 0 } else if len - start < rows { (len - start) as nat } else { rows }
}

/// The rows of the panel: the friends of the window that keeps `index`
/// visible in `rows` rows, the one at `index` highlighted.
pub open spec fn friend_rows_spec(list: Seq<FriendJson>, index: nat, focused: bool, rows: nat) -> Seq<FriendRowView> {
    let start = window_start_spec(index, rows);
    Seq::new(shown_count(list.len(), index, rows), |k: int| friend_row_spec(list[start + k], start + k == index, focused))
}

/// The panel's title: louder, with the chat shortcuts, while focused;
/// calmer, with the focus shortcut, otherwise.
pub open spec fn friends_title_spec(count: nat, focused: bool) -> Seq<char> {
    if focused {
        "\u{25cf} Friends ("@ + decimal(count) + ") \u{00b7} chat [t] window"@
    } else {
        "Friends ("@ + decimal(count) + ") \u{2014} [F] focus"@
    }
}

/// The title of a panel of `count` friends.
pub fn friends_title(count: usize, focused: bool) -> (r: String)
    ensures
        r@ == friends_title_spec(count as nat, focused),
{
    let n = u64_text(count as u64);
    if focused {
        proof {
            reveal_strlit("\u{25cf} Friends (");
            reveal_strlit(") \u{00b7} chat [t] window");
        }
        let a = concat("\u{25cf} Friends (", n.as_str());
        concat(a.as_str(), ") \u{00b7} chat [t] window")
    } else {
        proof {
            reveal_strlit("Friends (");
            reveal_strlit(") \u{2014} [F] focus");
        }
        let a = concat("Friends (", n.as_str());
        concat(a.as_str(), ") \u{2014} [F] focus")
    }
}

/// The hint shown in place of the rows: for an empty list, how to load the
/// friends; nothing otherwise.
pub fn friends_hint(list: &Vec<FriendJson>) -> (r: Option<&'static str>)
    ensures
        list@.len() == 0 ==> r is Some && r->0@ == "Press [F] to load friends."@,
        list@.len() > 0 ==> r is None,
{
    if list.len() == 0 {
        Some("Press [F] to load friends.")
    } else {
        None
    }
}

fn friend_row(f: &FriendJson, selected: bool, focused: bool) -> (r: FriendRow)
    ensures
        row_view(r) == friend_row_spec(*f, selected, focused),
{
    let online = f.is_online();
    let tone = if selected {
        if focused { NameTone::Selected } else { NameTone::Softened }
    } else if online {
        NameTone::Online
    } else {
        NameTone::Offline
    };
    FriendRow { selected, online, name: f.display_name(), tone, game: f.current_game() }
}

/// The rows of the friends panel for `list` with `index` highlighted, in a
/// window of `rows` rows that keeps the highlight visible.
pub fn friend_rows(list: &Vec<FriendJson>, index: usize, focused: bool, rows: usize) -> (out: Vec<FriendRow>)
    ensures
        row_views(out@) == friend_rows_spec(list@, index as nat, focused, rows as nat),
{
    let start = window_start(index, rows);
    let count: usize = if start >= list.len() {
        0
    } else if list.len() - start < rows {
        list.len() - start
    } else {
        rows
    };
    let mut out: Vec<FriendRow> = Vec::new();
    let mut k: usize = 0;
    while k < count
        invariant
            k <= count,
            count == shown_count(list@.len(), index as nat, rows as nat),
            start == window_start_spec(index as nat, rows as nat),
            count > 0 ==> start + count <= list@.len(),
            out@.len() == k,
            forall|j: int| 0 <= j < k ==> #[trigger] row_view(out@[j])
                == friend_row_spec(list@[start + j], start + j == index, focused),
        decreases count - k,
    {
        let r = friend_row(&list[start + k], start + k == index, focused);
        out.push(r);
        k = k + 1;
    }
    assert(row_views(out@) =~= friend_rows_spec(list@, index as nat, focused, rows as nat));
    out
}

} // verus!
