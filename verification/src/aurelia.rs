//! The data model of the `aurelia` launcher's `--json` replies, the helpers
//! that present it, and the command lines that drive the launcher.

use vstd::prelude::*;
use crate::text::{digit_value, digits_value, is_digit, lemma_decimal_reads_back, chars_of, concat, owned, str_eq, u64_text, i32_text, decimal, signed_decimal, is_space, is_space_spec, views, join, join_strings};
use crate::error::STError;
use crate::json::{JsonField, FieldView, fields_view, read_fields, str_field, bool_field, json_fields_of, str_field_of, bool_field_of};

verus! {

/// `Some(s)` with `s` non-empty.
pub open spec fn present(o: Option<String>) -> bool {
    o is Some && o->0@.len() > 0
}

/// The launcher configuration, from `aurelia config show --json`.
#[derive(Debug, Clone)]
pub struct ConfigJson {
    pub steam_library_path: Option<String>,
    pub proton_version: Option<String>,
    pub chat_presence: Option<String>,
    pub steam_prefix_mode: Option<String>,
    pub language: Option<String>,
    pub enable_cloud_sync: bool,
    pub use_shared_compat_data: bool,
    pub windows_steam_discovery_enabled: bool,
    pub luxtorpeda_enabled: bool,
}

impl ConfigJson {
    /// Whether the configured presence is online. Offline when the field is
    /// missing or unrecognised.
    pub fn is_online(&self) -> (b: bool)
        ensures
            b == (self.chat_presence is Some && self.chat_presence->0@ == "online"@),
    {
        match &self.chat_presence {
            Some(p) => {
                let r = str_eq(p.as_str(), "online");
                r
            },
            None => false,
        }
    }
}

/// One friend entry from `aurelia friends --json`.
#[derive(Debug, Clone)]
pub struct FriendJson {
    pub steam_id: u64,
    pub persona_name: Option<String>,
    /// 0 offline, 1 online, 2 busy, 3 away, 4 snooze, 5 looking-to-trade,
    /// 6 looking-to-play.
    pub persona_state: Option<u32>,
    pub game_app_id: Option<u32>,
    pub game_name: Option<String>,
}

impl FriendJson {
    /// Display name, falling back to the SteamID when no persona is known.
    pub fn display_name(&self) -> (r: String)
        ensures
            r@ == (if present(self.persona_name) { self.persona_name->0@ } else { decimal(self.steam_id as nat) }),
    {
        match &self.persona_name {
            Some(n) if n.as_str().unicode_len() > 0 => owned(n.as_str()),
            _ => u64_text(self.steam_id),
        }
    }

    /// Whether the friend is online (any persona state but offline).
    pub fn is_online(&self) -> (b: bool)
        ensures
            b == (self.persona_state is Some && self.persona_state->0 != 0),
    {
        match self.persona_state {
            None => false,
            Some(s) => s != 0,
        }
    }

    /// The game the friend is playing: its name, else `app <id>`.
    pub fn current_game(&self) -> (r: Option<String>)
        ensures
            r is Some <==> (present(self.game_name) || self.game_app_id is Some),
            present(self.game_name) ==> r->0@ == self.game_name->0@,
            !present(self.game_name) && self.game_app_id is Some
                ==> r->0@ == "app "@ + decimal(self.game_app_id->0 as nat),
    {
        match &self.game_name {
            Some(g) if g.as_str().unicode_len() > 0 => {
                return Some(owned(g.as_str()));
            },
            _ => {},
        }
        match self.game_app_id {
            Some(id) => {
                let n = u64_text(id as u64);
                let r = concat("app ", n.as_str());
                proof {
                    reveal_strlit("app ");
                }
                Some(r)
            },
            None => None,
        }
    }
}


/// The default of a flag that is on unless the launcher says otherwise.
pub fn default_true() -> (b: bool)
    ensures
        b,
{
    true
}

/// One achievement of a game, from `aurelia achievements --json`.
#[derive(Debug, Clone)]
pub struct AchievementJson {
    pub name: String,
    pub description: String,
    /// Whether the logged-in user has unlocked it.
    pub unlocked: bool,
    /// Whether it is shown before being unlocked.
    pub visible: bool,
    /// Global unlock rate, in hundredths of a percent.
    pub rarity_hundredths: u32,
}

/// The configured HTTP proxy, from `aurelia config proxy --json`.
#[derive(Debug, Clone)]
pub struct ProxyJson {
    pub url: Option<String>,
}

/// Session health, from `aurelia login --health --json`.
#[derive(Debug, Clone)]
pub struct HealthJson {
    pub logged_in: bool,
    pub account: Option<String>,
    pub steam_id: Option<u64>,
    pub daemon: bool,
}

/// The logged-in Steam account, from `aurelia account --json`.
#[derive(Debug, Clone)]
pub struct AccountJson {
    pub steam_id: u64,
    pub account_name: String,
    pub country: String,
    pub email: String,
    pub email_validated: bool,
    pub authed_machines: u32,
    pub vac_bans: u32,
}

/// The Steam Wallet balance, from `aurelia wallet --json`.
#[derive(Debug, Clone)]
pub struct WalletJson {
    /// Balance in the currency's minor units (cents).
    pub balance_cents: i64,
    pub currency: u32,
    pub country: String,
    /// Human-readable balance (e.g. "12.34 EUR").
    pub formatted: String,
}

/// Artwork URLs of a library entry.
#[derive(Debug, Clone)]
pub struct AssetsJson {
    pub header: Option<String>,
    pub capsule: Option<String>,
    pub hero: Option<String>,
    pub logo: Option<String>,
}

/// One library entry, from `aurelia list --json`.
#[derive(Debug, Clone)]
pub struct LibraryGameJson {
    pub app_id: u32,
    pub name: String,
    pub is_installed: bool,
    pub install_path: Option<String>,
    pub update_available: bool,
    pub is_owned: bool,
    pub is_family_shared: bool,
    pub platform: Option<String>,
    pub active_branch: Option<String>,
    pub assets: Option<AssetsJson>,
    pub store_url: Option<String>,
}

/// One Steam Cloud file, from `aurelia cloud list <id> --json`.
#[derive(Debug, Clone)]
pub struct CloudFileJson {
    pub filename: String,
    pub size: u64,
    pub timestamp: i64,
}

/// Store metadata, from `aurelia info <id> --json`.
#[derive(Debug, Clone)]
pub struct InfoJson {
    pub app_id: u32,
    pub name: String,
    pub app_type: String,
    pub developers: Vec<String>,
    pub publishers: Vec<String>,
    pub description: String,
    pub reviews: Option<String>,
}

/// One inventory item stack, from `aurelia inventory <id> --json`.
#[derive(Debug, Clone)]
pub struct InventoryItemJson {
    pub name: String,
    pub market_hash_name: String,
    pub item_type: String,
    pub amount: u64,
    pub tradable: bool,
    pub marketable: bool,
}

impl InventoryItemJson {
    /// Best display name: the visible name, else the market name, else a
    /// placeholder.
    pub fn display_name(&self) -> (r: String)
        ensures
            r@ == (if self.name@.len() > 0 {
                self.name@
            } else if self.market_hash_name@.len() > 0 {
                self.market_hash_name@
            } else {
                "(unnamed item)"@
            }),
    {
        if self.name.as_str().unicode_len() > 0 {
            owned(self.name.as_str())
        } else if self.market_hash_name.as_str().unicode_len() > 0 {
            owned(self.market_hash_name.as_str())
        } else {
            owned("(unnamed item)")
        }
    }
}

/// One Workshop item, from `aurelia workshop list|browse <id> --json`.
#[derive(Debug, Clone)]
pub struct WorkshopItemJson {
    /// The published-file id.
    pub id: Option<u64>,
    pub title: String,
    pub installed: bool,
    /// Whether the user is subscribed (listed items are).
    pub subscribed: bool,
    /// On-disk size in bytes.
    pub file_size: u64,
}

impl WorkshopItemJson {
    /// Display title, falling back to the published-file id.
    pub fn display_title(&self) -> (r: String)
        ensures
            r@ == (if self.title@.len() > 0 {
                self.title@
            } else if self.id is Some {
                "Item "@ + decimal(self.id->0 as nat)
            } else {
                "(untitled)"@
            }),
    {
        if self.title.as_str().unicode_len() > 0 {
            owned(self.title.as_str())
        } else {
            match self.id {
                Some(id) => {
                    let n = u64_text(id);
                    proof {
                        reveal_strlit("Item ");
                    }
                    concat("Item ", n.as_str())
                },
                None => owned("(untitled)"),
            }
        }
    }
}

/// One comment on a Workshop item.
#[derive(Debug, Clone)]
pub struct WorkshopCommentJson {
    pub author: String,
    pub message: String,
    pub timestamp: i64,
}

impl WorkshopCommentJson {
    /// The author, or a placeholder when anonymous.
    pub fn display_author(&self) -> (r: String)
        ensures
            r@ == (if self.author@.len() > 0 { self.author@ } else { "(anonymous)"@ }),
    {
        if self.author.as_str().unicode_len() > 0 {
            owned(self.author.as_str())
        } else {
            owned("(anonymous)")
        }
    }
}

/// One DLC entry for a base game, from `aurelia dlc <id> --json`.
#[derive(Debug, Clone)]
pub struct DlcJson {
    pub app_id: u32,
    pub name: Option<String>,
    pub owned: Option<bool>,
    pub installed: Option<bool>,
    pub disabled: Option<bool>,
}

impl DlcJson {
    /// Display name, falling back to the app id.
    pub fn display_name(&self) -> (r: String)
        ensures
            r@ == (if present(self.name) { self.name->0@ } else { "App "@ + decimal(self.app_id as nat) }),
    {
        match &self.name {
            Some(n) if n.as_str().unicode_len() > 0 => owned(n.as_str()),
            _ => {
                let n = u64_text(self.app_id as u64);
                proof {
                    reveal_strlit("App ");
                }
                concat("App ", n.as_str())
            },
        }
    }

    pub fn is_owned(&self) -> (b: bool)
        ensures
            b == (self.owned == Some(true)),
    {
        match self.owned {
            Some(b) => b,
            None => false,
        }
    }

    pub fn is_installed(&self) -> (b: bool)
        ensures
            b == (self.installed == Some(true)),
    {
        match self.installed {
            Some(b) => b,
            None => false,
        }
    }

    pub fn is_disabled(&self) -> (b: bool)
        ensures
            b == (self.disabled == Some(true)),
    {
        match self.disabled {
            Some(b) => b,
            None => false,
        }
    }
}

/// One beta branch of a game, from `aurelia branches <id> --json`.
#[derive(Debug, Clone)]
pub struct BranchJson {
    pub name: String,
    pub description: String,
    /// Whether the install currently tracks this branch.
    pub active: bool,
}

impl BranchJson {
    /// A branch given as a bare name.
    pub fn from_name(name: String) -> (b: BranchJson)
        ensures
            b.name == name,
            b.description@ == Seq::<char>::empty(),
            !b.active,
    {
        BranchJson { name, description: String::new(), active: false }
    }

    /// A branch given as an object: it is active when marked `active` or
    /// `current`.
    pub fn from_object(name: String, description: String, active: bool, current: bool) -> (b: BranchJson)
        ensures
            b.name == name,
            b.description == description,
            b.active == (active || current),
    {
        BranchJson { name, description, active: active || current }
    }
}

/// One depot of a game, from `aurelia depots <id> --json`.
#[derive(Debug, Clone)]
pub struct DepotJson {
    pub id: u64,
    pub name: String,
    pub size: u64,
    pub file_count: u64,
    pub config: String,
    pub is_owned: Option<bool>,
}

/// `s` without leading and trailing whitespace.
pub open spec fn trim_spec(s: Seq<char>) -> Seq<char>
    decreases s.len(),
{
    if s.len() > 0 && is_space_spec(s[0]) {
        trim_spec(s.drop_first())
    } else if s.len() > 0 && is_space_spec(s.last()) {
        trim_spec(s.drop_last())
    } else {
        s
    }
}

/// The bounds `(a, b)` of the trimmed part of `s`.
proof fn lemma_trim_range(s: Seq<char>, a: int, b: int)
    requires
        0 <= a <= b <= s.len(),
        forall|i: int| 0 <= i < a ==> is_space_spec(#[trigger] s[i]),
        forall|i: int| b <= i < s.len() ==> is_space_spec(#[trigger] s[i]),
        a < b ==> !is_space_spec(s[a]) && !is_space_spec(s[b - 1]),
    ensures
        trim_spec(s) == s.subrange(a, b),
    decreases s.len(),
{
    if s.len() > 0 && is_space_spec(s[0]) {
        assert(a > 0 || b == 0);
        if a > 0 {
            lemma_trim_range(s.drop_first(), a - 1, b - 1);
            assert(s.drop_first().subrange(a - 1, b - 1) =~= s.subrange(a, b));
        } else {
            lemma_trim_range(s.drop_first(), 0, 0);
            assert(s.drop_first().subrange(0, 0) =~= s.subrange(a, b));
        }
    } else if s.len() > 0 && is_space_spec(s.last()) {
        assert(b < s.len() || a == b);
        if b < s.len() {
            lemma_trim_range(s.drop_last(), a, b);
            assert(s.drop_last().subrange(a, b) =~= s.subrange(a, b));
        } else {
            lemma_trim_range(s.drop_last(), a, a);
            assert(s.drop_last().subrange(a, a) =~= s.subrange(a, b));
        }
    } else {
        if s.len() > 0 {
            assert(a == 0) by {
                if a > 0 {
                    assert(is_space_spec(s[0]));
                }
            }
            assert(b == s.len()) by {
                if b < s.len() {
                    assert(is_space_spec(s[s.len() - 1]));
                }
            }
        } else {
        }
        assert(s.subrange(a, b) =~= s);
    }
}

/// `s` with leading and trailing whitespace removed (`str::trim`).
pub fn trim(s: &str) -> (r: String)
    ensures
        r@ == trim_spec(s@),
{
    let v = chars_of(s);
    let mut a: usize = 0;
    while a < v.len() && is_space(v[a])
        invariant
            a <= v.len(),
            forall|i: int| 0 <= i < a ==> is_space_spec(#[trigger] v@[i]),
        decreases v.len() - a,
    {
        a += 1;
    }
    let mut b: usize = v.len();
    while b > a && is_space(v[b - 1])
        invariant
            a <= b <= v.len(),
            forall|i: int| b <= i < v.len() ==> is_space_spec(#[trigger] v@[i]),
        decreases b,
    {
        b -= 1;
    }
    proof {
        lemma_trim_range(s@, a as int, b as int);
    }
    crate::text::string_of_range(&v, a, b)
}

/// One launch option of a game, from `aurelia launch-options <id> --json`.
#[derive(Debug, Clone)]
pub struct LaunchOptionJson {
    pub id: String,
    pub description: String,
    pub executable: String,
    pub arguments: String,
    pub working_dir: String,
    /// Target OS list; empty means any.
    pub oslist: String,
    pub osarch: String,
    pub launch_type: String,
}

impl LaunchOptionJson {
    /// Display label: the description, else the executable, else the id.
    pub fn display_name(&self) -> (r: String)
        ensures
            r@ == (if self.description@.len() > 0 {
                self.description@
            } else if self.executable@.len() > 0 {
                self.executable@
            } else {
                "Option "@ + self.id@
            }),
    {
        if self.description.as_str().unicode_len() > 0 {
            owned(self.description.as_str())
        } else if self.executable.as_str().unicode_len() > 0 {
            owned(self.executable.as_str())
        } else {
            proof {
                reveal_strlit("Option ");
            }
            concat("Option ", self.id.as_str())
        }
    }

    /// The command line: executable and arguments joined by a space, trimmed.
    pub fn command(&self) -> (r: String)
        ensures
            r@ == trim_spec(self.executable@ + seq![' '] + self.arguments@),
    {
        proof {
            reveal_strlit(" ");
        }
        let with_space = concat(self.executable.as_str(), " ");
        let line = concat(with_space.as_str(), self.arguments.as_str());
        assert(line@ =~= self.executable@ + seq![' '] + self.arguments@);
        trim(line.as_str())
    }

    /// The OS tag: the OS list, or `any` when none is given.
    pub fn os_tag(&self) -> (r: String)
        ensures
            r@ == (if self.oslist@.len() == 0 { "any"@ } else { self.oslist@ }),
    {
        if self.oslist.as_str().unicode_len() == 0 {
            owned("any")
        } else {
            owned(self.oslist.as_str())
        }
    }
}

/// `n` with at least two digits (zero-padded).
pub open spec fn two_digits(n: nat) -> Seq<char> {
    if n < 10 { seq!['0'] + decimal(n) } else { decimal(n) }
}

/// One row of the market overlay: an active sell listing or an open buy order.
#[derive(Debug, Clone)]
pub struct MarketListingJson {
    pub name: String,
    /// Price in the currency's minor units (cents).
    pub price: u64,
    /// Quantity still wanted (buy orders; 1 for listings).
    pub quantity: u64,
    /// "listing" or "buy order".
    pub kind: String,
}

/// `cents` as a major-unit decimal, e.g. 199 as `1.99`.
pub open spec fn cents_text(cents: nat) -> Seq<char> {
    decimal(cents / 100) + seq!['.'] + two_digits(cents % 100)
}

/// The cents of a price as two digits read back as the cents.
proof fn lemma_two_digits_reads_back(m: nat)
    requires
        m < 100,
    ensures
        two_digits(m).len() == 2,
        is_digit(two_digits(m)[0]) && is_digit(two_digits(m)[1]),
        digits_value(two_digits(m)) == m,
{
    lemma_decimal_reads_back(m);
    if m < 10 {
        let t = two_digits(m);
        assert(t[1] == decimal(m)[0]);
        assert(t.drop_last() =~= seq!['0']);
        assert(seq!['0'].drop_last() =~= Seq::<char>::empty());
        assert(seq!['0'].last() == '0');
        assert(digits_value(Seq::<char>::empty()) == 0);
        assert(digits_value(seq!['0']) == digits_value(Seq::<char>::empty()) * 10 + digit_value('0'));
        assert(digits_value(seq!['0']) == 0);
    }
}

/// A price's text is its whole units, a dot, and exactly two digits of
/// cents: every other character is a digit, the part before the dot reads
/// back as the whole units and the two digits after it as the cents.
pub proof fn lemma_cents_text_reads_back(cents: nat)
    ensures
        ({
            let t = cents_text(cents);
            &&& t.len() >= 4
            &&& t[t.len() - 3] == '.'
            &&& forall|i: int| 0 <= i < t.len() && i != t.len() - 3 ==> is_digit(#[trigger] t[i])
            &&& digits_value(t.take(t.len() - 3)) == cents / 100
            &&& digits_value(t.skip(t.len() - 2)) == cents % 100
            &&& digits_value(t.take(t.len() - 3)) * 100 + digits_value(t.skip(t.len() - 2)) == cents
        }),
{
    let a = decimal(cents / 100);
    let b = two_digits(cents % 100);
    lemma_decimal_reads_back(cents / 100);
    lemma_two_digits_reads_back(cents % 100);
    let t = cents_text(cents);
    assert(t =~= a + seq!['.'] + b);
    assert(t.take(t.len() - 3) =~= a);
    assert(t.skip(t.len() - 2) =~= b);
    assert forall|i: int| 0 <= i < t.len() && i != t.len() - 3 implies is_digit(#[trigger] t[i]) by {
        if i < a.len() {
            assert(t[i] == a[i]);
        } else {
            assert(t[i] == b[i - a.len() - 1]);
        }
    }
}

/// Formats minor units as a major-unit decimal with two fraction digits.
pub fn cents_to_text(cents: u64) -> (r: String)
    ensures
        r@ == cents_text(cents as nat),
{
    let major = u64_text(cents / 100);
    let minor = cents % 100;
    let mut r = concat(major.as_str(), ".");
    proof {
        reveal_strlit(".");
    }
    if minor < 10 {
        crate::text::push_char(&mut r, '0');
    }
    let m = u64_text(minor);
    let out = concat(r.as_str(), m.as_str());
    assert(out@ =~= cents_text(cents as nat));
    out
}

impl MarketListingJson {
    /// The price formatted from minor units, e.g. 199 as `1.99`.
    pub fn price_text(&self) -> (r: String)
        ensures
            r@ == cents_text(self.price as nat),
    {
        cents_to_text(self.price)
    }
}

/// One Community Market search result.
#[derive(Debug, Clone)]
pub struct MarketSearchResultJson {
    pub app_id: u32,
    pub app_name: String,
    pub market_hash_name: String,
    pub name: String,
    pub sell_listings: u64,
    /// Lowest sell price in minor units.
    pub sell_price: u64,
    /// The pre-formatted lowest sell price, when the market gives one.
    pub sell_price_text: String,
}

impl MarketSearchResultJson {
    /// Display name: the item name, else its market name, else a placeholder.
    pub fn display_name(&self) -> (r: String)
        ensures
            r@ == (if self.name@.len() > 0 {
                self.name@
            } else if self.market_hash_name@.len() > 0 {
                self.market_hash_name@
            } else {
                "(unnamed item)"@
            }),
    {
        if self.name.as_str().unicode_len() > 0 {
            owned(self.name.as_str())
        } else if self.market_hash_name.as_str().unicode_len() > 0 {
            owned(self.market_hash_name.as_str())
        } else {
            owned("(unnamed item)")
        }
    }

    /// The price: the market's own text, else the minor units as a decimal,
    /// else nothing.
    pub fn price_text(&self) -> (r: String)
        ensures
            r@ == (if self.sell_price_text@.len() > 0 {
                self.sell_price_text@
            } else if self.sell_price > 0 {
                cents_text(self.sell_price as nat)
            } else {
                Seq::empty()
            }),
    {
        if self.sell_price_text.as_str().unicode_len() > 0 {
            owned(self.sell_price_text.as_str())
        } else if self.sell_price > 0 {
            cents_to_text(self.sell_price)
        } else {
            String::new()
        }
    }
}


/// `c` with ASCII upper case folded to lower case, as a code point.
pub open spec fn ascii_fold(c: char) -> u32 {
    if 'A' <= c <= 'Z' { (c as u32 + 32) as u32 } else { c as u32 }
}

/// ASCII case-insensitive equality (`str::eq_ignore_ascii_case`).
pub open spec fn eq_ignore_ascii_case_spec(a: Seq<char>, b: Seq<char>) -> bool {
    a.len() == b.len() && forall|i: int| 0 <= i < a.len() ==> ascii_fold(#[trigger] a[i]) == ascii_fold(b[i])
}

fn fold_char(c: char) -> (r: u32)
    ensures
        r == ascii_fold(c),
{
    if 'A' <= c && c <= 'Z' {
        c as u32 + 32
    } else {
        c as u32
    }
}

/// Whether `a` and `b` are equal ignoring ASCII case.
pub fn eq_ignore_ascii_case(a: &str, b: &str) -> (r: bool)
    ensures
        r == eq_ignore_ascii_case_spec(a@, b@),
{
    let va = chars_of(a);
    let vb = chars_of(b);
    if va.len() != vb.len() {
        return false;
    }
    let mut i: usize = 0;
    while i < va.len()
        invariant
            va@ == a@,
            vb@ == b@,
            va.len() == vb.len(),
            i <= va.len(),
            forall|j: int| 0 <= j < i ==> ascii_fold(#[trigger] va@[j]) == ascii_fold(vb@[j]),
        decreases va.len() - i,
    {
        if fold_char(va[i]) != fold_char(vb[i]) {
            return false;
        }
        i += 1;
    }
    true
}

/// One Proton/Wine runtime, from `aurelia proton list --json`.
#[derive(Debug, Clone)]
pub struct ProtonJson {
    /// The runtime name (e.g. `Proton 9.0`, `GE-Proton10-34`).
    pub name: String,
    /// The source family (`Valve`, `Proton-GE`, `Wine-GE`).
    pub label: String,
    /// Download size in bytes (0 when unknown).
    pub size: u64,
    /// Whether the runtime is on disk.
    pub installed: bool,
    /// Whether it is the configured default.
    pub is_default: bool,
}

impl ProtonJson {
    /// Whether the runtime can be uninstalled: an installed custom runtime
    /// (Valve's own runtimes are managed by Steam).
    pub fn uninstallable(&self) -> (b: bool)
        ensures
            b == (self.installed && self.label@ != "Valve"@),
    {
        self.installed && !str_eq(self.label.as_str(), "Valve")
    }
}

/// Whether some name in `names` equals `name` ignoring ASCII case.
pub open spec fn any_named(names: Seq<Seq<char>>, name: Seq<char>) -> bool {
    exists|i: int| 0 <= i < names.len() && eq_ignore_ascii_case_spec(#[trigger] names[i], name)
}

pub open spec fn names_of(ps: Seq<ProtonJson>) -> Seq<Seq<char>> {
    ps.map_values(|p: ProtonJson| p.name@)
}

/// An available runtime, marked installed and default by name.
pub open spec fn mark_available(p: ProtonJson, installed: Seq<Seq<char>>, default: Seq<char>) -> ProtonJson {
    ProtonJson {
        installed: any_named(installed, p.name@),
        is_default: eq_ignore_ascii_case_spec(p.name@, default),
        ..p
    }
}

/// Whether `p` is the entry the merge adds for an installed runtime `name`
/// missing from the available list.
pub open spec fn is_local_entry(p: ProtonJson, name: Seq<char>, default: Seq<char>) -> bool {
    &&& p.name@ == name
    &&& p.label@ == "(local)"@
    &&& p.size == 0
    &&& p.installed
    &&& p.is_default == eq_ignore_ascii_case_spec(name, default)
}

/// The merged runtime list after considering the first `k` installed names:
/// the available runtimes (marked), then one local entry for each installed
/// name not already listed (ignoring ASCII case), in order.
pub open spec fn proton_merge_ok(out: Seq<ProtonJson>, available: Seq<ProtonJson>, installed: Seq<Seq<char>>, k: int, default: Seq<char>) -> bool
    decreases k,
{
    if k <= 0 {
        out.len() == available.len() && forall|i: int| 0 <= i < out.len() ==> #[trigger] out[i] == mark_available(available[i], installed, default)
    } else {
        let name = installed[k - 1];
        ||| (any_named(names_of(out), name) && proton_merge_ok(out, available, installed, k - 1, default))
        ||| (out.len() > 0 && is_local_entry(out.last(), name, default) && !any_named(names_of(out.drop_last()), name)
            && proton_merge_ok(out.drop_last(), available, installed, k - 1, default))
    }
}

/// Flattens `aurelia proton list`: each available runtime marked installed and
/// default by name (ignoring ASCII case), followed by every installed runtime
/// missing from the available list, so everything on disk is shown.
pub fn proton_merge(available: Vec<ProtonJson>, installed: &Vec<String>, default: &str) -> (out: Vec<ProtonJson>)
    ensures
        proton_merge_ok(out@, available@, installed@.map_values(|s: String| s@), installed@.len() as int, default@),
{
    let ghost inst = installed@.map_values(|s: String| s@);
    let ghost avail = available@;
    let mut out: Vec<ProtonJson> = Vec::new();
    let mut available = available;
    let mut i: usize = 0;
    let n = available.len();
    // Mark the available runtimes, keeping their order.
    let mut marked: Vec<ProtonJson> = Vec::new();
    while i < n
        invariant
            n == avail.len(),
            i <= n,
            inst == installed@.map_values(|s: String| s@),
            marked@.len() == i,
            forall|j: int| 0 <= j < i ==> #[trigger] marked@[j] == mark_available(avail[j], inst, default@),
            available@ == avail,
        decreases n - i,
    {
        let p = &available[i];
        let mut found = false;
        let mut j: usize = 0;
        while j < installed.len()
            invariant
                j <= installed.len(),
                inst == installed@.map_values(|s: String| s@),
                found == exists|t: int| 0 <= t < j && eq_ignore_ascii_case_spec(#[trigger] inst[t], p.name@),
            decreases installed.len() - j,
        {
            assert(inst[j as int] == installed@[j as int]@);
            if eq_ignore_ascii_case(installed[j].as_str(), p.name.as_str()) {
                found = true;
            }
            j += 1;
        }
        let is_def = eq_ignore_ascii_case(p.name.as_str(), default);
        let q = ProtonJson {
            name: p.name.clone(),
            label: p.label.clone(),
            size: p.size,
            installed: found,
            is_default: is_def,
        };
        marked.push(q);
        i += 1;
    }
    out = marked;
    // Append each installed runtime that is not listed yet.
    let mut k: usize = 0;
    while k < installed.len()
        invariant
            k <= installed.len(),
            inst == installed@.map_values(|s: String| s@),
            proton_merge_ok(out@, avail, inst, k as int, default@),
        decreases installed.len() - k,
    {
        let name = &installed[k];
        let mut listed = false;
        let mut j: usize = 0;
        while j < out.len()
            invariant
                j <= out.len(),
                listed == exists|t: int| 0 <= t < j && eq_ignore_ascii_case_spec(#[trigger] names_of(out@)[t], name@),
            decreases out.len() - j,
        {
            assert(names_of(out@)[j as int] == out@[j as int].name@);
            if eq_ignore_ascii_case(out[j].name.as_str(), name.as_str()) {
                listed = true;
            }
            j += 1;
        }
        assert(inst[k as int] == name@);
        if !listed {
            let is_def = eq_ignore_ascii_case(name.as_str(), default);
            let ghost before = out@;
            out.push(ProtonJson {
                name: name.clone(),
                label: owned("(local)"),
                size: 0,
                installed: true,
                is_default: is_def,
            });
            assert(out@.drop_last() =~= before);
            assert(names_of(out@.drop_last()) =~= names_of(before));
        }
        k += 1;
    }
    out
}

/// Flattens `aurelia market listings`: the sell listings (quantity 1, kind
/// `listing`) followed by the buy orders (kind `buy order`), in order.
pub fn market_rows(listings: &Vec<(String, u64)>, buy_orders: &Vec<(String, u64, u64)>) -> (rows: Vec<MarketListingJson>)
    ensures
        rows@.len() == listings@.len() + buy_orders@.len(),
        forall|i: int| 0 <= i < listings@.len() ==> {
            &&& (#[trigger] rows@[i]).name@ == listings@[i].0@
            &&& rows@[i].price == listings@[i].1
            &&& rows@[i].quantity == 1
            &&& rows@[i].kind@ == "listing"@
        },
        forall|i: int| 0 <= i < buy_orders@.len() ==> {
            &&& (#[trigger] rows@[listings@.len() + i]).name@ == buy_orders@[i].0@
            &&& rows@[listings@.len() + i].price == buy_orders@[i].1
            &&& rows@[listings@.len() + i].quantity == buy_orders@[i].2
            &&& rows@[listings@.len() + i].kind@ == "buy order"@
        },
{
    let mut rows: Vec<MarketListingJson> = Vec::new();
    let mut i: usize = 0;
    while i < listings.len()
        invariant
            i <= listings.len(),
            rows@.len() == i,
            forall|t: int| 0 <= t < i ==> {
                &&& (#[trigger] rows@[t]).name@ == listings@[t].0@
                &&& rows@[t].price == listings@[t].1
                &&& rows@[t].quantity == 1
                &&& rows@[t].kind@ == "listing"@
            },
        decreases listings.len() - i,
    {
        rows.push(MarketListingJson {
            name: owned(listings[i].0.as_str()),
            price: listings[i].1,
            quantity: 1,
            kind: owned("listing"),
        });
        i += 1;
    }
    let mut j: usize = 0;
    while j < buy_orders.len()
        invariant
            j <= buy_orders.len(),
            rows@.len() == listings@.len() + j,
            forall|t: int| 0 <= t < listings@.len() ==> {
                &&& (#[trigger] rows@[t]).name@ == listings@[t].0@
                &&& rows@[t].price == listings@[t].1
                &&& rows@[t].quantity == 1
                &&& rows@[t].kind@ == "listing"@
            },
            forall|t: int| 0 <= t < j ==> {
                &&& (#[trigger] rows@[listings@.len() + t]).name@ == buy_orders@[t].0@
                &&& rows@[listings@.len() + t].price == buy_orders@[t].1
                &&& rows@[listings@.len() + t].quantity == buy_orders@[t].2
                &&& rows@[listings@.len() + t].kind@ == "buy order"@
            },
        decreases buy_orders.len() - j,
    {
        rows.push(MarketListingJson {
            name: owned(buy_orders[j].0.as_str()),
            price: buy_orders[j].1,
            quantity: buy_orders[j].2,
            kind: owned("buy order"),
        });
        j += 1;
    }
    rows
}

/// One running game, from `aurelia running --json`.
#[derive(Debug, Clone)]
pub struct RunningJson {
    pub app_id: u32,
    pub name: String,
    pub pid: u32,
}

/// The result of a friend lookup, from `aurelia friends search --json`.
#[derive(Debug, Clone)]
pub struct FriendSearchJson {
    pub steam_id: u64,
    pub persona_name: Option<String>,
    pub profile_url: Option<String>,
}

impl FriendSearchJson {
    /// Display name, falling back to the SteamID.
    pub fn display_name(&self) -> (r: String)
        ensures
            r@ == (if present(self.persona_name) { self.persona_name->0@ } else { decimal(self.steam_id as nat) }),
    {
        match &self.persona_name {
            Some(n) if n.as_str().unicode_len() > 0 => owned(n.as_str()),
            _ => u64_text(self.steam_id),
        }
    }
}

/// One chat message, from `aurelia chat history --json`.
#[derive(Debug, Clone)]
pub struct ChatMessageJson {
    /// The sender's SteamID.
    pub sender: u64,
    pub message: String,
    /// Whether the logged-in user sent it.
    pub from_self: bool,
    /// Send time (seconds); 0 when unknown.
    pub timestamp: i64,
}

/// The status of a runtime plugin (umu-launcher, luxtorpeda).
#[derive(Debug, Clone)]
pub struct PluginStatusJson {
    pub enabled: bool,
    pub installed: Option<InstalledPluginJson>,
}

/// The installed payload of a runtime plugin.
#[derive(Debug, Clone)]
pub struct InstalledPluginJson {
    pub version: String,
}

/// The status of the Steam Linux Runtime.
#[derive(Debug, Clone)]
pub struct SteamRuntimeStatusJson {
    pub layout_kind: String,
    pub steam_exe_present: bool,
}

/// A Steam library folder an install can go to.
#[derive(Debug, Clone)]
pub struct LibraryJson {
    pub path: String,
    /// Free space on its drive, when known.
    pub free_bytes: Option<u64>,
}

/// The current manifest of one depot of a game.
#[derive(Debug, Clone)]
pub struct DepotManifestInfo {
    pub depot_id: u64,
    pub manifest_id: u64,
}

/// Install and pin state of a game, from `aurelia available --json`.
#[derive(Debug, Clone)]
pub struct AvailableJson {
    pub pinned: bool,
}

/// Per-game config overrides, from `aurelia config game --json`.
#[derive(Debug, Clone)]
pub struct GameConfigJson {
    /// `auto`, `umu` or `luxtorpeda`.
    pub runner: String,
    pub forced_proton_version: Option<String>,
    pub platform_preference: Option<String>,
}

/// Launch-script state, from `aurelia scripts show --json`.
#[derive(Debug, Clone)]
pub struct ScriptShowJson {
    pub exists: bool,
}

/// A Steam library collection, from `aurelia collections list --json`.
#[derive(Debug, Clone)]
pub struct CollectionJson {
    pub name: String,
    pub count: u64,
}

/// Which way a cloud sync transfers.
#[derive(Debug, Clone, Copy, PartialEq, Eq, Structural)]
pub enum CloudDirection {
    Both,
    Down,
    Up,
}


// --- Command lines -------------------------------------------------------

/// Adds `--json` to a command line, as every launcher call does.
pub open spec fn json_cmd(args: Seq<Seq<char>>) -> Seq<Seq<char>> {
    args.push("--json"@)
}

fn push_arg(v: &mut Vec<String>, a: &str)
    ensures
        views(final(v)@) == views(old(v)@).push(a@),
{
    v.push(owned(a));
    assert(views(v@) =~= views(old(v)@).push(a@));
}

/// The command line that sets the friends/chat presence:
/// `config presence online|offline --json`.
pub fn set_presence(online: bool) -> (cmd: Vec<String>)
    ensures
        views(cmd@) == json_cmd(seq!["config"@, "presence"@, if online { "online"@ } else { "offline"@ }]),
{
    let mut v: Vec<String> = Vec::new();
    push_arg(&mut v, "config");
    push_arg(&mut v, "presence");
    if online {
        push_arg(&mut v, "online");
    } else {
        push_arg(&mut v, "offline");
    }
    push_arg(&mut v, "--json");
    assert(views(v@) =~= json_cmd(seq!["config"@, "presence"@, if online { "online"@ } else { "offline"@ }]));
    v
}

/// The command line that logs out of the session: `logout --json`.
pub fn logout() -> (cmd: Vec<String>)
    ensures
        views(cmd@) == json_cmd(seq!["logout"@]),
{
    let mut v: Vec<String> = Vec::new();
    push_arg(&mut v, "logout");
    push_arg(&mut v, "--json");
    assert(views(v@) =~= json_cmd(seq!["logout"@]));
    v
}

/// The command line that syncs a game's cloud saves in `direction`:
/// `cloud sync <id> [--down|--up] --json`.
pub fn cloud_sync(app_id: i32, direction: CloudDirection) -> (cmd: Vec<String>)
    ensures
        views(cmd@) == json_cmd(match direction {
            CloudDirection::Both => seq!["cloud"@, "sync"@, signed_decimal(app_id as int)],
            CloudDirection::Down => seq!["cloud"@, "sync"@, signed_decimal(app_id as int), "--down"@],
            CloudDirection::Up => seq!["cloud"@, "sync"@, signed_decimal(app_id as int), "--up"@],
        }),
{
    let mut v: Vec<String> = Vec::new();
    push_arg(&mut v, "cloud");
    push_arg(&mut v, "sync");
    let id = i32_text(app_id);
    push_arg(&mut v, id.as_str());
    match direction {
        CloudDirection::Both => {},
        CloudDirection::Down => push_arg(&mut v, "--down"),
        CloudDirection::Up => push_arg(&mut v, "--up"),
    }
    push_arg(&mut v, "--json");
    assert(views(v@) =~= json_cmd(match direction {
        CloudDirection::Both => seq!["cloud"@, "sync"@, signed_decimal(app_id as int)],
        CloudDirection::Down => seq!["cloud"@, "sync"@, signed_decimal(app_id as int), "--down"@],
        CloudDirection::Up => seq!["cloud"@, "sync"@, signed_decimal(app_id as int), "--up"@],
    }));
    v
}

/// The command line that enables or disables one DLC:
/// `enable|disable <id> --json`.
pub fn set_dlc(app_id: i32, enable: bool) -> (cmd: Vec<String>)
    ensures
        views(cmd@) == json_cmd(seq![if enable { "enable"@ } else { "disable"@ }, signed_decimal(app_id as int)]),
{
    let mut v: Vec<String> = Vec::new();
    if enable {
        push_arg(&mut v, "enable");
    } else {
        push_arg(&mut v, "disable");
    }
    let id = i32_text(app_id);
    push_arg(&mut v, id.as_str());
    push_arg(&mut v, "--json");
    assert(views(v@) =~= json_cmd(seq![if enable { "enable"@ } else { "disable"@ }, signed_decimal(app_id as int)]));
    v
}

/// The command line that switches a game to a beta branch:
/// `set-branch <id> <branch> --json`.
pub fn set_branch(app_id: i32, branch: &str) -> (cmd: Vec<String>)
    ensures
        views(cmd@) == json_cmd(seq!["set-branch"@, signed_decimal(app_id as int), branch@]),
{
    let mut v: Vec<String> = Vec::new();
    push_arg(&mut v, "set-branch");
    let id = i32_text(app_id);
    push_arg(&mut v, id.as_str());
    push_arg(&mut v, branch);
    push_arg(&mut v, "--json");
    assert(views(v@) =~= json_cmd(seq!["set-branch"@, signed_decimal(app_id as int), branch@]));
    v
}

/// The command line that makes `version` the default runtime:
/// `proton default <version> --json`.
pub fn proton_default(version: &str) -> (cmd: Vec<String>)
    ensures
        views(cmd@) == json_cmd(seq!["proton"@, "default"@, version@]),
{
    let mut v: Vec<String> = Vec::new();
    push_arg(&mut v, "proton");
    push_arg(&mut v, "default");
    push_arg(&mut v, version);
    push_arg(&mut v, "--json");
    assert(views(v@) =~= json_cmd(seq!["proton"@, "default"@, version@]));
    v
}

/// The command line that stops a running game: `stop <id> --json`.
pub fn stop(app_id: i32) -> (cmd: Vec<String>)
    ensures
        views(cmd@) == json_cmd(seq!["stop"@, signed_decimal(app_id as int)]),
{
    let mut v: Vec<String> = Vec::new();
    push_arg(&mut v, "stop");
    let id = i32_text(app_id);
    push_arg(&mut v, id.as_str());
    push_arg(&mut v, "--json");
    assert(views(v@) =~= json_cmd(seq!["stop"@, signed_decimal(app_id as int)]));
    v
}

/// The command line that uninstalls a game, keeping its prefix:
/// `uninstall <id> --json`.
pub fn uninstall(app_id: i32) -> (cmd: Vec<String>)
    ensures
        views(cmd@) == json_cmd(seq!["uninstall"@, signed_decimal(app_id as int)]),
{
    let mut v: Vec<String> = Vec::new();
    push_arg(&mut v, "uninstall");
    let id = i32_text(app_id);
    push_arg(&mut v, id.as_str());
    push_arg(&mut v, "--json");
    assert(views(v@) =~= json_cmd(seq!["uninstall"@, signed_decimal(app_id as int)]));
    v
}

/// The command line that relocates an installed game to another library:
/// `move <id> <library> --json`.
pub fn move_game(app_id: i32, library: &str) -> (cmd: Vec<String>)
    ensures
        views(cmd@) == json_cmd(seq!["move"@, signed_decimal(app_id as int), library@]),
{
    let mut v: Vec<String> = Vec::new();
    push_arg(&mut v, "move");
    let id = i32_text(app_id);
    push_arg(&mut v, id.as_str());
    push_arg(&mut v, library);
    push_arg(&mut v, "--json");
    assert(views(v@) =~= json_cmd(seq!["move"@, signed_decimal(app_id as int), library@]));
    v
}

// --- Replies -------------------------------------------------------------

/// The problem reported when the launcher prints nothing.
pub open spec fn no_output_message(args: Seq<Seq<char>>) -> Seq<char> {
    "aurelia produced no output for `"@ + join(args, " "@) + "` (is the `aurelia` binary on PATH?)"@
}

/// Judges a launcher reply: `trimmed` is its standard output without
/// surrounding whitespace and `error` the `error` field of the JSON object it
/// holds, if any. An empty reply and a reported error are problems.
pub fn check_reply(args: &Vec<String>, trimmed: &str, error: Option<String>) -> (r: Result<(), STError>)
    ensures
        trimmed@.len() == 0 ==> (r matches Err(STError::Problem(m)) && m@ == no_output_message(views(args@))),
        trimmed@.len() > 0 && error is Some ==> (r matches Err(STError::Problem(m)) && m@ == error->0@),
        trimmed@.len() > 0 && error is None ==> r is Ok,
{
    if trimmed.unicode_len() == 0 {
        let joined = join_strings(args, " ");
        let a = concat("aurelia produced no output for `", joined.as_str());
        let m = concat(a.as_str(), "` (is the `aurelia` binary on PATH?)");
        return Err(STError::Problem(m));
    }
    match error {
        Some(e) => Err(STError::Problem(e)),
        None => Ok(()),
    }
}

/// What a launcher reply amounts to, from its standard output: nothing
/// printed is a problem naming the command; text that is not JSON is a
/// problem carrying the parse error; a JSON object whose `error` field is a
/// string is that problem; anything else is success. (Err holds the
/// problem's message.)
pub open spec fn reply_judgement(args: Seq<Seq<char>>, stdout: Seq<char>) -> Result<(), Seq<char>> {
    let t = trim_spec(stdout);
    if t.len() == 0 {
        Err(no_output_message(args))
    } else {
        match json_fields_of(t) {
            Err(m) => Err(m),
            Ok(f) => match str_field_of(f, "error"@) {
                Some(e) => Err(e),
                None => Ok(()),
            },
        }
    }
}

/// Judges the standard output of `aurelia <args>`: success, or the problem
/// it reports (see [`reply_judgement`]).
pub fn judge_reply(args: &Vec<String>, stdout: &str) -> (r: Result<(), STError>)
    ensures
        r is Ok <==> reply_judgement(views(args@), stdout@) is Ok,
        r matches Err(e) ==> (e matches STError::Problem(m) && m@ == reply_judgement(views(args@), stdout@)->Err_0),
{
    let t = trim(stdout);
    if t.unicode_len() == 0 {
        return check_reply(args, t.as_str(), None);
    }
    match read_fields(t.as_str()) {
        Err(m) => Err(STError::Problem(m)),
        Ok(fields) => {
            let error = str_field(&fields, "error");
            check_reply(args, t.as_str(), error)
        },
    }
}

// --- Sign-in -------------------------------------------------------------

/// Where a classic (username/password) login stands.
#[derive(Debug, Clone, PartialEq, Eq)]
pub enum LoginPhase {
    Idle,
    Connecting,
    /// Waiting for approval on the user's device, or for a typed code.
    AwaitingConfirmation,
    /// A typed Steam Guard code is required; the string is its kind
    /// (`email` or `device`).
    GuardCode(String),
    /// Approval must happen in the Steam Mobile app.
    DeviceConfirmation,
    Success,
    Failed(String),
}

/// What one event line of `aurelia login --json` asks of the login driver.
#[derive(Debug)]
pub enum LoginStep {
    /// Nothing to do.
    Ignore,
    /// Move to this phase.
    Enter(LoginPhase),
    /// Show the `GuardCode(kind)` phase, wait for the user's code, write it
    /// to the launcher, then go back to `Connecting`.
    AskGuardCode(String),
}

/// Interprets an event line of a classic login: `awaiting_confirmation`
/// waits for approval; `guard_required` of type `device_confirmation` waits
/// for the mobile app, of any other type asks for a code of that kind, and
/// without a type is ignored; other events are ignored.
pub fn login_step(event: Option<&str>, guard_type: Option<&str>) -> (r: LoginStep)
    ensures
        event is Some && event->0@ == "awaiting_confirmation"@ ==> (r matches LoginStep::Enter(LoginPhase::AwaitingConfirmation)),
        event is Some && event->0@ == "guard_required"@ && guard_type is Some && guard_type->0@ == "device_confirmation"@
            ==> (r matches LoginStep::Enter(LoginPhase::DeviceConfirmation)),
        event is Some && event->0@ == "guard_required"@ && guard_type is Some && guard_type->0@ != "device_confirmation"@
            ==> (r matches LoginStep::AskGuardCode(k) && k@ == guard_type->0@),
        !(event is Some && (event->0@ == "awaiting_confirmation"@ || (event->0@ == "guard_required"@ && guard_type is Some)))
            ==> r is Ignore,
{
    proof {
        reveal_strlit("awaiting_confirmation");
        reveal_strlit("guard_required");
        assert("awaiting_confirmation"@.len() != "guard_required"@.len());
    }
    match event {
        Some(e) => {
            if str_eq(e, "awaiting_confirmation") {
                LoginStep::Enter(LoginPhase::AwaitingConfirmation)
            } else if str_eq(e, "guard_required") {
                match guard_type {
                    Some(t) => {
                        if str_eq(t, "device_confirmation") {
                            LoginStep::Enter(LoginPhase::DeviceConfirmation)
                        } else {
                            LoginStep::AskGuardCode(owned(t))
                        }
                    },
                    None => LoginStep::Ignore,
                }
            } else {
                LoginStep::Ignore
            }
        },
        None => LoginStep::Ignore,
    }
}

/// The end of a classic login, from its result line: `parsed` tells whether
/// the line was JSON, `logged_in` and `error` are its fields. Success needs
/// `logged_in: true`; otherwise the reported error, or a stock message, is
/// both the failed phase and the error.
pub fn login_outcome(parsed: bool, logged_in: Option<bool>, error: Option<String>) -> (r: (LoginPhase, Result<(), STError>))
    ensures
        parsed && logged_in == Some(true) ==> r.0 == LoginPhase::Success && r.1 is Ok,
        parsed && logged_in != Some(true) ==> exists|m: String| r.0 == LoginPhase::Failed(m)
            && (r.1 matches Err(STError::Problem(m2)) && m2@ == m@)
            && m@ == (if error is Some { error->0@ } else { "login failed"@ }),
        !parsed ==> exists|m: String| r.0 == LoginPhase::Failed(m)
            && (r.1 matches Err(STError::Problem(m2)) && m2@ == m@)
            && m@ == "login did not complete"@,
{
    if parsed && logged_in == Some(true) {
        return (LoginPhase::Success, Ok(()));
    }
    let msg = if parsed {
        match error {
            Some(e) => e,
            None => owned("login failed"),
        }
    } else {
        owned("login did not complete")
    };
    let copy = owned(msg.as_str());
    (LoginPhase::Failed(msg), Err(STError::Problem(copy)))
}

/// The end of a QR login, from its result line.
pub fn qr_login_outcome(parsed: bool, logged_in: Option<bool>, error: Option<String>) -> (r: Result<(), STError>)
    ensures
        !parsed ==> (r matches Err(STError::Problem(m)) && m@ == "QR login did not complete (no result from aurelia)"@),
        parsed && logged_in == Some(true) ==> r is Ok,
        parsed && logged_in != Some(true) && error is Some ==> (r matches Err(STError::Problem(m)) && m@ == error->0@),
        parsed && logged_in != Some(true) && error is None ==> (r matches Err(STError::Problem(m)) && m@ == "QR login did not complete"@),
{
    if !parsed {
        Err(STError::Problem(owned("QR login did not complete (no result from aurelia)")))
    } else if logged_in == Some(true) {
        Ok(())
    } else {
        match error {
            Some(e) => Err(STError::Problem(e)),
            None => Err(STError::Problem(owned("QR login did not complete"))),
        }
    }
}

/// The result object a sign-in printed, as its fields: `None` when the
/// trimmed text is not JSON.
pub open spec fn result_fields(out: Seq<char>) -> Option<Seq<(Seq<char>, FieldView)>> {
    match json_fields_of(trim_spec(out)) {
        Ok(f) => Some(f),
        Err(_) => None,
    }
}

/// The fields of the JSON in `out` once trimmed, when it is JSON.
fn fields_in(out: &str) -> (r: Option<Vec<(String, JsonField)>>)
    ensures
        r is Some <==> result_fields(out@) is Some,
        r is Some ==> fields_view(r->0@) == result_fields(out@)->0,
{
    let t = trim(out);
    match read_fields(t.as_str()) {
        Ok(f) => Some(f),
        Err(_) => None,
    }
}

/// The end of a classic login, from what it printed on standard output: the
/// trimmed text is read as JSON and its `logged_in` and `error` fields judged
/// by [`login_outcome`].
pub fn login_result(out: &str) -> (r: (LoginPhase, Result<(), STError>))
    ensures
        ({
            let f = result_fields(out@);
            &&& f is Some && bool_field_of(f->0, "logged_in"@) == Some(true) ==> r.0 == LoginPhase::Success && r.1 is Ok
            &&& f is Some && bool_field_of(f->0, "logged_in"@) != Some(true) ==> exists|m: String| r.0 == LoginPhase::Failed(m)
                && (r.1 matches Err(STError::Problem(m2)) && m2@ == m@)
                && m@ == (match str_field_of(f->0, "error"@) { Some(e) => e, None => "login failed"@ })
            &&& f is None ==> exists|m: String| r.0 == LoginPhase::Failed(m)
                && (r.1 matches Err(STError::Problem(m2)) && m2@ == m@)
                && m@ == "login did not complete"@
        }),
{
    match fields_in(out) {
        Some(f) => {
            let logged_in = bool_field(&f, "logged_in");
            let error = str_field(&f, "error");
            login_outcome(true, logged_in, error)
        },
        None => login_outcome(false, None, None),
    }
}

/// The end of a QR login, from what it printed on standard output (see
/// [`qr_login_outcome`]).
pub fn qr_login_result(out: &str) -> (r: Result<(), STError>)
    ensures
        ({
            let f = result_fields(out@);
            &&& f is None ==> (r matches Err(STError::Problem(m)) && m@ == "QR login did not complete (no result from aurelia)"@)
            &&& f is Some && bool_field_of(f->0, "logged_in"@) == Some(true) ==> r is Ok
            &&& f is Some && bool_field_of(f->0, "logged_in"@) != Some(true) && str_field_of(f->0, "error"@) is Some
                ==> (r matches Err(STError::Problem(m)) && m@ == str_field_of(f->0, "error"@)->0)
            &&& f is Some && bool_field_of(f->0, "logged_in"@) != Some(true) && str_field_of(f->0, "error"@) is None
                ==> (r matches Err(STError::Problem(m)) && m@ == "QR login did not complete"@)
        }),
{
    match fields_in(out) {
        Some(f) => {
            let logged_in = bool_field(&f, "logged_in");
            let error = str_field(&f, "error");
            qr_login_outcome(true, logged_in, error)
        },
        None => qr_login_outcome(false, None, None),
    }
}

/// What one event line (on standard error) of a classic login asks of the
/// driver: a line that is not JSON is ignored; otherwise its `event` and
/// `guard_type` fields are judged by [`login_step`].
pub fn login_event(line: &str) -> (r: LoginStep)
    ensures
        ({
            let f = result_fields(line@);
            let event = if f is Some { str_field_of(f->0, "event"@) } else { None };
            let guard = if f is Some { str_field_of(f->0, "guard_type"@) } else { None };
            &&& event == Some("awaiting_confirmation"@) ==> (r matches LoginStep::Enter(LoginPhase::AwaitingConfirmation))
            &&& event == Some("guard_required"@) && guard == Some("device_confirmation"@)
                ==> (r matches LoginStep::Enter(LoginPhase::DeviceConfirmation))
            &&& event == Some("guard_required"@) && guard is Some && guard != Some("device_confirmation"@)
                ==> (r matches LoginStep::AskGuardCode(k) && k@ == guard->0)
            &&& !(event == Some("awaiting_confirmation"@) || (event == Some("guard_required"@) && guard is Some))
                ==> r is Ignore
        }),
{
    match fields_in(line) {
        Some(f) => {
            let event = str_field(&f, "event");
            let guard = str_field(&f, "guard_type");
            let e: Option<&str> = match &event {
                Some(x) => Some(x.as_str()),
                None => None,
            };
            let g: Option<&str> = match &guard {
                Some(x) => Some(x.as_str()),
                None => None,
            };
            login_step(e, g)
        },
        None => LoginStep::Ignore,
    }
}

/// The sign-in address a QR login's event line announces: the `url` of a
/// `qr_challenge` event; nothing for other lines.
pub fn qr_challenge_url(line: &str) -> (r: Option<String>)
    ensures
        ({
            let f = result_fields(line@);
            &&& (f is Some && str_field_of(f->0, "event"@) == Some("qr_challenge"@)) ==> match r {
                Some(u) => str_field_of(f->0, "url"@) == Some(u@),
                None => str_field_of(f->0, "url"@) is None,
            }
            &&& !(f is Some && str_field_of(f->0, "event"@) == Some("qr_challenge"@)) ==> r is None
        }),
{
    match fields_in(line) {
        Some(f) => {
            let event = str_field(&f, "event");
            match event {
                Some(e) => {
                    if str_eq(e.as_str(), "qr_challenge") {
                        str_field(&f, "url")
                    } else {
                        None
                    }
                },
                None => None,
            }
        },
        None => None,
    }
}

// --- Streaming installs --------------------------------------------------

/// The word shown before an install's progress percentage for the
/// reported download state.
pub fn install_progress_label(state: Option<&str>) -> (r: &'static str)
    ensures
        r@ == (if state is Some && state->0@ == "verifying"@ {
            "verifying"@
        } else if state is Some && state->0@ == "moving"@ {
            "moving"@
        } else if state is Some && state->0@ == "queued"@ {
            "queued"@
        } else {
            "downloading"@
        }),
{
    match state {
        Some(s) => {
            if str_eq(s, "verifying") {
                "verifying"
            } else if str_eq(s, "moving") {
                "moving"
            } else if str_eq(s, "queued") {
                "queued"
            } else {
                "downloading"
            }
        },
        None => "downloading",
    }
}

/// The final status line of a streamed install/update/verify: a reported
/// error fails; the `expected` status gives `success`; any other result
/// line gives `done`; no parseable result line counts as `success`.
pub fn stream_outcome(parsed: bool, error: Option<String>, status: Option<String>, expected: &str, success: &str) -> (r: String)
    ensures
        parsed && error is Some ==> r@ == "Failed: "@ + error->0@,
        parsed && error is None && status is Some && status->0@ == expected@ ==> r@ == success@,
        parsed && error is None && !(status is Some && status->0@ == expected@) ==> r@ == "done"@,
        !parsed ==> r@ == success@,
{
    if !parsed {
        return owned(success);
    }
    match error {
        Some(e) => {
            proof {
                reveal_strlit("Failed: ");
            }
            concat("Failed: ", e.as_str())
        },
        None => {
            let ok = match &status {
                Some(st) => str_eq(st.as_str(), expected),
                None => false,
            };
            if ok {
                owned(success)
            } else {
                owned("done")
            }
        },
    }
}

/// The final status line of a launch: a reported error fails; any other
/// result line means the game ran; without one the exit status decides.
pub fn play_outcome(parsed: bool, error: Option<String>, exit_ok: bool) -> (r: String)
    ensures
        parsed && error is Some ==> r@ == "Failed: "@ + error->0@,
        parsed && error is None ==> r@ == "ran (finished)"@,
        !parsed && exit_ok ==> r@ == "ran (finished)"@,
        !parsed && !exit_ok ==> r@ == "Failed to launch"@,
{
    if parsed {
        match error {
            Some(e) => {
                proof {
                    reveal_strlit("Failed: ");
                }
                concat("Failed: ", e.as_str())
            },
            None => owned("ran (finished)"),
        }
    } else if exit_ok {
        owned("ran (finished)")
    } else {
        owned("Failed to launch")
    }
}

/// A SteamID sent as text: its value, or 0 when it does not parse.
pub fn steam_id_from_text(s: &str) -> (id: u64)
    ensures
        id == (match crate::tools::parse_u64_spec(s@) {
            Some(v) => v,
            None => 0,
        }),
{
    match crate::tools::parse_u64(s) {
        Some(v) => v,
        None => 0,
    }
}

/// An optional id sent as text: its value, or nothing when it does not
/// parse.
pub fn opt_u64_from_text(s: &str) -> (id: Option<u64>)
    ensures
        id == crate::tools::parse_u64_spec(s@),
{
    crate::tools::parse_u64(s)
}


/// The status a streaming command (install, verify, update) ends with, from
/// the result object it printed on standard output (see
/// [`stream_outcome`]); text that is not JSON counts as success.
pub fn stream_result(out: &str, expected: &str, success: &str) -> (r: String)
    ensures
        ({
            let f = result_fields(out@);
            &&& f is Some && str_field_of(f->0, "error"@) is Some ==> r@ == "Failed: "@ + str_field_of(f->0, "error"@)->0
            &&& f is Some && str_field_of(f->0, "error"@) is None && str_field_of(f->0, "status"@) == Some(expected@)
                ==> r@ == success@
            &&& f is Some && str_field_of(f->0, "error"@) is None && str_field_of(f->0, "status"@) != Some(expected@)
                ==> r@ == "done"@
            &&& f is None ==> r@ == success@
        }),
{
    match fields_in(out) {
        Some(f) => {
            let error = str_field(&f, "error");
            let status = str_field(&f, "status");
            stream_outcome(true, error, status, expected, success)
        },
        None => stream_outcome(false, None, None, expected, success),
    }
}

/// A line of `aurelia play`'s output read as a result: nothing when it is
/// not JSON, else its `error` field (when a string).
pub fn play_line(line: &str) -> (r: Option<Option<String>>)
    ensures
        r is Some <==> result_fields(line@) is Some,
        r matches Some(e) ==> match e {
            Some(m) => str_field_of(result_fields(line@)->0, "error"@) == Some(m@),
            None => str_field_of(result_fields(line@)->0, "error"@) is None,
        },
{
    match fields_in(line) {
        Some(f) => Some(str_field(&f, "error")),
        None => None,
    }
}

/// The state a progress event line of a streaming command reports: for a
/// JSON line whose `event` is `progress`, its `state` field (when a
/// string); nothing for other lines.
pub fn progress_state(line: &str) -> (r: Option<Option<String>>)
    ensures
        ({
            let f = result_fields(line@);
            &&& (f is Some && str_field_of(f->0, "event"@) == Some("progress"@)) <==> r is Some
            &&& r matches Some(st) ==> match st {
                Some(x) => str_field_of(f->0, "state"@) == Some(x@),
                None => str_field_of(f->0, "state"@) is None,
            }
        }),
{
    match fields_in(line) {
        Some(f) => match str_field(&f, "event") {
            Some(e) => {
                if str_eq(e.as_str(), "progress") {
                    Some(str_field(&f, "state"))
                } else {
                    None
                }
            },
            None => None,
        },
        None => None,
    }
}

} // verus!
