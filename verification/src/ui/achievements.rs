//! The achievements overlay's text: its title, and each row's name.

use vstd::prelude::*;
use crate::aurelia::AchievementJson;
use crate::text::{concat, owned, u64_text, decimal};

verus! {

/// How many of `list` are unlocked.
pub open spec fn unlocked_count(list: Seq<AchievementJson>) -> nat
    decreases list.len(),
{
    if list.len() == 0 {
        0
    } else {
        unlocked_count(list.drop_last()) + (if list.last().unlocked { 1nat } else { 0nat })
    }
}

/// The overlay's title: how many are unlocked, out of how many.
pub open spec fn achievements_title_spec(list: Seq<AchievementJson>) -> Seq<char> {
    "Achievements ("@ + decimal(unlocked_count(list)) + " unlocked / "@ + decimal(list.len()) + ")"@
}

/// The title of the achievements overlay.
pub fn achievements_title(list: &Vec<AchievementJson>) -> (r: String)
    ensures
        r@ == achievements_title_spec(list@),
{
    let mut n: usize = 0;
    let mut i: usize = 0;
    while i < list.len()
        invariant
            i <= list@.len(),
            n == unlocked_count(list@.take(i as int)),
            n <= i,
        decreases list@.len() - i,
    {
        assert(list@.take(i + 1).drop_last() =~= list@.take(i as int));
        if list[i].unlocked {
            n = n + 1;
        }
        i = i + 1;
    }
    assert(list@.take(list@.len() as int) =~= list@);
    proof {
        reveal_strlit("Achievements (");
        reveal_strlit(" unlocked / ");
        reveal_strlit(")");
    }
    let a = concat("Achievements (", u64_text(n as u64).as_str());
    let b = concat(a.as_str(), " unlocked / ");
    let c = concat(b.as_str(), u64_text(list.len() as u64).as_str());
    concat(c.as_str(), ")")
}

/// The name a row shows: the name of a visible or unlocked achievement; a
/// hidden one is marked `(hidden)`, or shown as just that without a name.
pub open spec fn shown_achievement_name(a: AchievementJson) -> Seq<char> {
    if a.visible || a.unlocked {
        a.name@
    } else if a.name@.len() == 0 {
        "(hidden)"@
    } else {
        a.name@ + " (hidden)"@
    }
}

/// The name shown in an achievement's row.
pub fn achievement_name(a: &AchievementJson) -> (r: String)
    ensures
        r@ == shown_achievement_name(*a),
{
    proof {
        reveal_strlit("(hidden)");
        reveal_strlit(" (hidden)");
    }
    if a.visible || a.unlocked {
        owned(a.name.as_str())
    } else if a.name.unicode_len() == 0 {
        owned("(hidden)")
    } else {
        concat(a.name.as_str(), " (hidden)")
    }
}

} // verus!
