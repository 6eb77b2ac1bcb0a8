//! The per-game tool overlays: versions and pinning, per-game settings,
//! collections, and the runtime plugins. Each decides which launcher call a
//! key asks for, and records the launcher's answer in its status line.

use vstd::prelude::*;
use crate::aurelia::{
    AvailableJson, CollectionJson, DepotManifestInfo, GameConfigJson, PluginStatusJson, ProtonJson, ScriptShowJson,
    SteamRuntimeStatusJson, trim, trim_spec,
};
use crate::browse::Browser;
use crate::error::STError;
use crate::nav::{wrap_next, wrap_next_spec, wrap_prev, wrap_prev_spec};
use crate::overlays::{failed_message, failed_text};
use crate::text::{concat, decimal, owned, pop_char, push_char, u64_text};

verus! {

// --- Decimal numbers ---

pub open spec fn is_digit(c: char) -> bool {
    '0' <= c <= '9'
}

pub open spec fn digit_value(c: char) -> nat {
    (c as u32 - '0' as u32) as nat
}

/// The value of a string of decimal digits.
pub open spec fn digits_value(s: Seq<char>) -> nat
    decreases s.len(),
{
    if s.len() == 0 { 0 } else { digits_value(s.drop_last()) * 10 + digit_value(s.last()) }
}

/// `s` without a leading `+`.
pub open spec fn unsigned_part(s: Seq<char>) -> Seq<char> {
    if s.len() > 0 && s[0] == '+' { s.drop_first() } else { s }
}

pub open spec fn all_digits(d: Seq<char>) -> bool {
    forall|i: int| 0 <= i < d.len() ==> is_digit(#[trigger] d[i])
}

/// What `str::parse::<u64>` gives: an optional `+` and then one or more
/// digits whose value fits in 64 bits; nothing otherwise.
pub open spec fn parse_u64_spec(s: Seq<char>) -> Option<u64> {
    let d = unsigned_part(s);
    if d.len() > 0 && all_digits(d) && digits_value(d) <= u64::MAX {
        Some(digits_value(d) as u64)
    } else {
        None
    }
}

/// Parses a decimal `u64` as `str::parse` does.
pub fn parse_u64(s: &str) -> (r: Option<u64>)
    ensures
        r == parse_u64_spec(s@),
{
    let v = crate::text::chars_of(s);
    let start: usize = if v.len() > 0 && v[0] == '+' { 1 } else { 0 };
    let ghost d = unsigned_part(s@);
    assert(d =~= v@.subrange(start as int, v@.len() as int));
    if start >= v.len() {
        return None;
    }
    let mut i: usize = start;
    let mut value: u64 = 0;
    let mut over = false;
    while i < v.len()
        invariant
            start <= i <= v.len(),
            d =~= v@.subrange(start as int, v@.len() as int),
            forall|k: int| start <= k < i ==> is_digit(#[trigger] v@[k]),
            v@ == s@,
            d == unsigned_part(s@),
            !over ==> value == digits_value(v@.subrange(start as int, i as int)),
            over ==> digits_value(v@.subrange(start as int, i as int)) > u64::MAX,
        decreases v.len() - i,
    {
        let c = v[i];
        if !('0' <= c && c <= '9') {
            proof {
                let k = i - start;
                assert(d[k] == v@[i as int]);
                assert(!is_digit(d[k]));
                assert(!all_digits(d));
            }
            return None;
        }
        let dv = (c as u32 - '0' as u32) as u64;
        let ghost prev = v@.subrange(start as int, i as int);
        assert(v@.subrange(start as int, i + 1) =~= prev.push(c));
        assert(v@.subrange(start as int, i + 1).drop_last() =~= prev);
        let ghost pv = digits_value(prev);
        if over {
            assert(pv * 10 + dv >= pv) by (nonlinear_arith)
                requires
                    pv >= 0,
                    dv >= 0,
            ;
        } else if value > (u64::MAX - dv) / 10 {
            assert(pv * 10 + dv > u64::MAX) by (nonlinear_arith)
                requires
                    pv == value,
                    value > (u64::MAX - dv) / 10,
                    dv <= 9,
            ;
            over = true;
        } else {
            assert(value * 10 + dv <= u64::MAX) by (nonlinear_arith)
                requires
                    value <= (u64::MAX - dv) / 10,
                    dv <= 9,
            ;
            value = value * 10 + dv;
        }
        i = i + 1;
    }
    assert(v@.subrange(start as int, v@.len() as int) =~= d);
    if over {
        None
    } else {
        Some(value)
    }
}

// --- Versions & pinning ---

/// The versions overlay's state.
#[derive(Debug, Clone)]
pub struct VersionsPane {
    pub show: bool,
    pub manifests: Vec<DepotManifestInfo>,
    pub available: Option<AvailableJson>,
    pub index: usize,
    pub app_id: i32,
    pub status: String,
    /// The manifest id being typed for a downgrade, when prompting.
    pub input: Option<String>,
    /// The state of a downgrade running off the UI thread, if any.
    pub busy: Option<String>,
}

impl VersionsPane {
    pub fn empty() -> (p: VersionsPane)
        ensures
            !p.show,
            p.manifests@.len() == 0,
            p.available is None,
            p.index == 0,
            p.app_id == 0,
            p.status@.len() == 0,
            p.input is None,
            p.busy is None,
    {
        VersionsPane {
            show: false,
            manifests: Vec::new(),
            available: None,
            index: 0,
            app_id: 0,
            status: String::new(),
            input: None,
            busy: None,
        }
    }
}

/// The status after pinning: how many depots were pinned, or the failure.
pub open spec fn pin_status_text(result: Result<usize, STError>) -> Seq<char> {
    match result {
        Ok(n) => "Pinned "@ + decimal(n as nat) + " depot(s) at the installed version."@,
        Err(e) => "Pin failed: "@ + crate::error::describe_spec(e),
    }
}

/// The status after unpinning.
pub open spec fn unpin_status_text(result: Result<bool, STError>) -> Seq<char> {
    match result {
        Ok(true) => "Unpinned \u{2014} updates re-enabled."@,
        Ok(false) => "Was not pinned."@,
        Err(e) => "Unpin failed: "@ + crate::error::describe_spec(e),
    }
}

// --- Game settings ---

/// How many rows the game-settings overlay has: runner, forced Proton,
/// platform, launch script.
pub const GAME_CONFIG_ROWS: usize = 4;

/// The launcher call a settings row asks for.
#[derive(Debug, Clone, PartialEq, Eq)]
pub enum ConfigCall {
    /// Runner `umu` → `luxtorpeda`: umu off (its answer is not looked at),
    /// then the native engine on.
    UmuToNative,
    /// Runner `luxtorpeda` → `auto`: the native engine off.
    NativeOff,
    /// Runner `auto` → `umu`: umu on.
    UmuOn,
    /// Force the named Proton runtime.
    SetProton(String),
    /// Clear the forced runtime.
    ClearProton,
    /// Prefer the named platform (`windows` or `linux`).
    SetPlatform(String),
    /// Clear the per-game launch-script override.
    ClearLaunchScript,
    /// Create a launch script.
    NewScript,
}

/// The game-settings overlay's state.
#[derive(Debug, Clone)]
pub struct GameConfigPane {
    pub show: bool,
    pub config: Option<GameConfigJson>,
    pub script: Option<ScriptShowJson>,
    /// Names of the installed Proton runtimes, to cycle through.
    pub protons: Vec<String>,
    pub index: usize,
    pub app_id: i32,
    pub status: String,
}

impl GameConfigPane {
    pub fn empty() -> (p: GameConfigPane)
        ensures
            !p.show,
            p.config is None,
            p.script is None,
            p.protons@.len() == 0,
            p.index == 0,
            p.app_id == 0,
            p.status@.len() == 0,
    {
        GameConfigPane {
            show: false,
            config: None,
            script: None,
            protons: Vec::new(),
            index: 0,
            app_id: 0,
            status: String::new(),
        }
    }

    /// The forced runtime after the current one: the first installed one
    /// when none is forced, the next after the forced one, none (cleared)
    /// after the last or when the forced one is not installed.
    pub open spec fn next_proton(self) -> Option<int> {
        let cur = match self.config { Some(c) => c.forced_proton_version, None => None };
        match cur {
            None => Some(0int),
            Some(v) => {
                if exists|i: int| 0 <= i < self.protons@.len() && self.protons@[i]@ == v@ {
                    let i = choose|i: int|
                        0 <= i < self.protons@.len() && self.protons@[i]@ == v@
                            && forall|j: int| 0 <= j < i ==> self.protons@[j]@ != v@;
                    if i + 1 < self.protons@.len() { Some(i + 1) } else { None }
                } else {
                    None
                }
            },
        }
    }

    /// The call the highlighted row asks for.
    pub open spec fn planned(self) -> ConfigCall {
        if self.index == 0 {
            let runner = match self.config { Some(c) => c.runner@, None => "auto"@ };
            if runner == "umu"@ {
                ConfigCall::UmuToNative
            } else if runner == "luxtorpeda"@ {
                ConfigCall::NativeOff
            } else {
                ConfigCall::UmuOn
            }
        } else if self.index == 1 {
            if self.protons@.len() == 0 {
                ConfigCall::ClearProton
            } else {
                match self.next_proton() {
                    Some(i) => ConfigCall::SetProton(self.protons@[i]),
                    None => ConfigCall::ClearProton,
                }
            }
        } else if self.index == 2 {
            let cur = match self.config { Some(c) => c.platform_preference, None => None };
            if cur is Some && cur->0@ == "windows"@ {
                ConfigCall::SetPlatform(choose|s: String| (#[trigger] s@) == "linux"@)
            } else {
                ConfigCall::SetPlatform(choose|s: String| (#[trigger] s@) == "windows"@)
            }
        } else {
            let has_script = match self.script { Some(s) => s.exists, None => false };
            if has_script { ConfigCall::ClearLaunchScript } else { ConfigCall::NewScript }
        }
    }
}

/// Whether `call` is what the pane's highlighted row asks for (strings
/// compared by content).
pub open spec fn call_matches(call: ConfigCall, want: ConfigCall) -> bool {
    match (call, want) {
        (ConfigCall::SetProton(a), ConfigCall::SetProton(b)) => a@ == b@,
        (ConfigCall::SetPlatform(a), ConfigCall::SetPlatform(b)) => a@ == b@,
        _ => call == want,
    }
}

/// The status after a settings call.
pub open spec fn config_status_text(call: ConfigCall, result: Result<(), STError>) -> Seq<char> {
    match result {
        Err(e) => failed_text(e),
        Ok(()) => match call {
            ConfigCall::UmuToNative | ConfigCall::NativeOff | ConfigCall::UmuOn => "Runner updated."@,
            ConfigCall::SetProton(_) | ConfigCall::ClearProton => "Forced Proton updated."@,
            ConfigCall::SetPlatform(p) => "Platform set to "@ + p@ + "."@,
            ConfigCall::ClearLaunchScript => "Launch-script override cleared."@,
            ConfigCall::NewScript => "Launch script created."@,
        },
    }
}

fn config_status(call: &ConfigCall, result: Result<(), STError>) -> (s: String)
    ensures
        s@ == config_status_text(*call, result),
{
    match result {
        Err(e) => failed_message(&e),
        Ok(()) => match call {
            ConfigCall::UmuToNative | ConfigCall::NativeOff | ConfigCall::UmuOn => owned("Runner updated."),
            ConfigCall::SetProton(_) | ConfigCall::ClearProton => owned("Forced Proton updated."),
            ConfigCall::SetPlatform(p) => {
                let a = concat("Platform set to ", p.as_str());
                concat(a.as_str(), ".")
            },
            ConfigCall::ClearLaunchScript => owned("Launch-script override cleared."),
            ConfigCall::NewScript => owned("Launch script created."),
        },
    }
}

/// Names of the installed runtimes of `list`, in order.
pub open spec fn installed_names(list: Seq<ProtonJson>) -> Seq<Seq<char>>
    decreases list.len(),
{
    if list.len() == 0 {
        Seq::empty()
    } else {
        let rest = installed_names(list.drop_last());
        if list.last().installed { rest.push(list.last().name@) } else { rest }
    }
}

fn installed_proton_names(list: Vec<ProtonJson>) -> (names: Vec<String>)
    ensures
        crate::text::views(names@) == installed_names(list@),
{
    let mut names: Vec<String> = Vec::new();
    let mut i: usize = 0;
    while i < list.len()
        invariant
            i <= list.len(),
            crate::text::views(names@) == installed_names(list@.subrange(0, i as int)),
        decreases list.len() - i,
    {
        let ghost before = names@;
        assert(list@.subrange(0, i + 1).drop_last() =~= list@.subrange(0, i as int));
        if list[i].installed {
            names.push(owned(list[i].name.as_str()));
            assert(crate::text::views(names@) =~= crate::text::views(before).push(list@[i as int].name@));
        }
        i = i + 1;
    }
    assert(list@.subrange(0, list.len() as int) =~= list@);
    names
}

fn position_of(names: &Vec<String>, v: &str) -> (r: Option<usize>)
    ensures
        r is Some ==> r->0 < names@.len() && names@[r->0 as int]@ == v@
            && forall|j: int| 0 <= j < r->0 ==> names@[j]@ != v@,
        r is None ==> forall|j: int| 0 <= j < names@.len() ==> names@[j]@ != v@,
{
    let mut i: usize = 0;
    while i < names.len()
        invariant
            i <= names.len(),
            forall|j: int| 0 <= j < i ==> names@[j]@ != v@,
        decreases names.len() - i,
    {
        if crate::text::str_eq(names[i].as_str(), v) {
            return Some(i);
        }
        i = i + 1;
    }
    None
}

// --- Collections ---

/// What was done to a collection, for the status line.
#[derive(Debug, Clone, Copy, PartialEq, Eq, Structural)]
pub enum CollectionChange {
    Added,
    Removed,
    Deleted,
    Created,
}

/// The status after a change to the collection `name`.
pub open spec fn change_status_text(change: CollectionChange, name: Seq<char>, result: Result<(), STError>) -> Seq<char> {
    match result {
        Err(e) => failed_text(e),
        Ok(()) => match change {
            CollectionChange::Added => "Added to \""@ + name + "\"."@,
            CollectionChange::Removed => "Removed from \""@ + name + "\"."@,
            CollectionChange::Deleted => "Deleted \""@ + name + "\"."@,
            CollectionChange::Created => "Created \""@ + name + "\"."@,
        },
    }
}

/// The collections overlay's state.
#[derive(Debug, Clone)]
pub struct CollectionsPane {
    pub show: bool,
    pub list: Vec<CollectionJson>,
    pub index: usize,
    pub status: String,
    /// The game that add/remove act on.
    pub app_id: i32,
    /// The name being typed for a new collection, when prompting.
    pub input: Option<String>,
}

impl CollectionsPane {
    pub fn empty() -> (p: CollectionsPane)
        ensures
            !p.show,
            p.list@.len() == 0,
            p.input is None,
    {
        CollectionsPane { show: false, list: Vec::new(), index: 0, status: String::new(), app_id: 0, input: None }
    }

    /// The selected collection's name, if any.
    pub open spec fn selected_name(self) -> Option<Seq<char>> {
        if self.index < self.list@.len() { Some(self.list@[self.index as int].name@) } else { None }
    }

    fn selected_name_exec(&self) -> (r: Option<String>)
        ensures
            r is Some <==> self.selected_name() is Some,
            r is Some ==> r->0@ == self.selected_name()->0,
    {
        if self.index < self.list.len() {
            Some(owned(self.list[self.index].name.as_str()))
        } else {
            None
        }
    }

    fn refresh(&mut self, list: Vec<CollectionJson>)
        ensures
            final(self).list@ == list@,
            final(self).index == (if old(self).index >= list@.len() {
                if list@.len() == 0 { 0 } else { (list@.len() - 1) as nat }
            } else {
                old(self).index as nat
            }),
            final(self).status == old(self).status,
            final(self).input == old(self).input,
            final(self).show == old(self).show,
    {
        self.list = list;
        if self.index >= self.list.len() {
            self.index = if self.list.len() == 0 { 0 } else { self.list.len() - 1 };
        }
    }
}

// --- Runtime plugins ---

/// How many rows the plugins overlay has: umu, luxtorpeda, Steam runtime.
pub const ENGINE_ROWS: usize = 3;

/// A plugin action.
#[derive(Debug, Clone, Copy, PartialEq, Eq, Structural)]
pub enum EngineVerb {
    UmuEnable,
    UmuDisable,
    UmuUninstall,
    LuxEnable,
    LuxDisable,
    LuxUninstall,
    UmuInstall,
    UmuUpdate,
    LuxInstall,
    LuxUpdate,
    RuntimeInstall,
    RuntimeRepair,
}

/// What a key on a plugin row asks for.
#[derive(Debug, Clone, Copy, PartialEq, Eq, Structural)]
pub enum EngineJob {
    /// Nothing: the key does nothing on this row, or an action is under way.
    Ignored,
    /// An instant configuration change, done at once.
    Instant(EngineVerb),
    /// A download, run off the UI thread.
    Background(EngineVerb),
}

/// The instant verbs: enable, disable, uninstall of umu and luxtorpeda.
pub open spec fn instant_verb(row: usize, key: char) -> Option<EngineVerb> {
    if row == 0 && key == 'e' {
        Some(EngineVerb::UmuEnable)
    } else if row == 0 && key == 'd' {
        Some(EngineVerb::UmuDisable)
    } else if row == 0 && key == 'x' {
        Some(EngineVerb::UmuUninstall)
    } else if row == 1 && key == 'e' {
        Some(EngineVerb::LuxEnable)
    } else if row == 1 && key == 'd' {
        Some(EngineVerb::LuxDisable)
    } else if row == 1 && key == 'x' {
        Some(EngineVerb::LuxUninstall)
    } else {
        None
    }
}

/// The download verbs: install and update of umu and luxtorpeda, install
/// and repair of the Steam runtime.
pub open spec fn download_verb(row: usize, key: char) -> Option<EngineVerb> {
    if row == 0 && key == 'i' {
        Some(EngineVerb::UmuInstall)
    } else if row == 0 && key == 'U' {
        Some(EngineVerb::UmuUpdate)
    } else if row == 1 && key == 'i' {
        Some(EngineVerb::LuxInstall)
    } else if row == 1 && key == 'U' {
        Some(EngineVerb::LuxUpdate)
    } else if row == 2 && key == 'i' {
        Some(EngineVerb::RuntimeInstall)
    } else if row == 2 && key == 'r' {
        Some(EngineVerb::RuntimeRepair)
    } else {
        None
    }
}

fn instant_verb_exec(row: usize, key: char) -> (r: Option<EngineVerb>)
    ensures
        r == instant_verb(row, key),
{
    if row == 0 && key == 'e' {
        Some(EngineVerb::UmuEnable)
    } else if row == 0 && key == 'd' {
        Some(EngineVerb::UmuDisable)
    } else if row == 0 && key == 'x' {
        Some(EngineVerb::UmuUninstall)
    } else if row == 1 && key == 'e' {
        Some(EngineVerb::LuxEnable)
    } else if row == 1 && key == 'd' {
        Some(EngineVerb::LuxDisable)
    } else if row == 1 && key == 'x' {
        Some(EngineVerb::LuxUninstall)
    } else {
        None
    }
}

fn download_verb_exec(row: usize, key: char) -> (r: Option<EngineVerb>)
    ensures
        r == download_verb(row, key),
{
    if row == 0 && key == 'i' {
        Some(EngineVerb::UmuInstall)
    } else if row == 0 && key == 'U' {
        Some(EngineVerb::UmuUpdate)
    } else if row == 1 && key == 'i' {
        Some(EngineVerb::LuxInstall)
    } else if row == 1 && key == 'U' {
        Some(EngineVerb::LuxUpdate)
    } else if row == 2 && key == 'i' {
        Some(EngineVerb::RuntimeInstall)
    } else if row == 2 && key == 'r' {
        Some(EngineVerb::RuntimeRepair)
    } else {
        None
    }
}

/// The status a plugin action ends with: `Done.` or the failure.
pub open spec fn engine_outcome_text(result: Result<(), STError>) -> Seq<char> {
    match result {
        Ok(()) => "Done."@,
        Err(e) => failed_text(e),
    }
}

/// The text of a plugin download under way.
pub open spec fn working_text() -> Seq<char> {
    "working\u{2026}"@
}

/// The status a finished plugin action ends with.
pub fn engine_outcome(result: Result<(), STError>) -> (s: String)
    ensures
        s@ == engine_outcome_text(result),
{
    match result {
        Ok(()) => owned("Done."),
        Err(e) => failed_message(&e),
    }
}

/// The plugins overlay's state.
#[derive(Debug, Clone)]
pub struct EnginePane {
    pub show: bool,
    pub umu: Option<PluginStatusJson>,
    pub lux: Option<PluginStatusJson>,
    pub steam_runtime: Option<SteamRuntimeStatusJson>,
    pub index: usize,
    pub status: String,
    /// The state of a download running off the UI thread: `working…` while
    /// it runs, then how it ended until adopted.
    pub busy: Option<String>,
}

impl EnginePane {
    pub fn empty() -> (p: EnginePane)
        ensures
            !p.show,
            p.busy is None,
            p.index == 0,
    {
        EnginePane { show: false, umu: None, lux: None, steam_runtime: None, index: 0, status: String::new(), busy: None }
    }
}

impl Browser {
    // --- Versions & pinning ---

    /// Opens the versions overlay on the game's depot manifests and pin
    /// state.
    pub fn open_versions(&mut self, app_id: i32, manifests: Vec<DepotManifestInfo>, available: Option<AvailableJson>)
        ensures
            final(self).versions.show,
            final(self).versions.manifests@ == manifests@,
            final(self).versions.available == available,
            final(self).versions.index == 0,
            final(self).versions.app_id == app_id,
            final(self).versions.status@.len() == 0,
            final(self).versions.input is None,
    {
        self.versions.manifests = manifests;
        self.versions.available = available;
        self.versions.index = 0;
        self.versions.app_id = app_id;
        self.versions.status = String::new();
        self.versions.input = None;
        self.versions.show = true;
    }

    /// Closes the versions overlay, dropping its contents.
    pub fn close_versions(&mut self)
        ensures
            !final(self).versions.show,
            final(self).versions.manifests@.len() == 0,
            final(self).versions.available is None,
            final(self).versions.index == 0,
            final(self).versions.input is None,
    {
        self.versions.show = false;
        self.versions.manifests = Vec::new();
        self.versions.available = None;
        self.versions.index = 0;
        self.versions.input = None;
    }

    /// The game the versions overlay acts on.
    pub fn versions_app_id(&self) -> (id: i32)
        ensures
            id == self.versions.app_id,
    {
        self.versions.app_id
    }

    /// The highlighted depot, if any.
    pub fn selected_manifest(&self) -> (r: Option<&DepotManifestInfo>)
        ensures
            self.versions.index < self.versions.manifests@.len()
                ==> r == Some(&self.versions.manifests@[self.versions.index as int]),
            self.versions.index >= self.versions.manifests@.len() ==> r is None,
    {
        if self.versions.index < self.versions.manifests.len() {
            Some(&self.versions.manifests[self.versions.index])
        } else {
            None
        }
    }

    /// The next depot, wrapping.
    pub fn versions_next(&mut self)
        ensures
            final(self).versions.index == wrap_next_spec(old(self).versions.index as nat, old(self).versions.manifests@.len()),
    {
        self.versions.index = wrap_next(self.versions.index, self.versions.manifests.len());
    }

    /// The previous depot, wrapping.
    pub fn versions_previous(&mut self)
        ensures
            final(self).versions.index == wrap_prev_spec(old(self).versions.index as nat, old(self).versions.manifests@.len()),
    {
        self.versions.index = wrap_prev(self.versions.index, self.versions.manifests.len());
    }

    /// Whether the game is pinned (its updates held).
    pub fn is_pinned(&self) -> (b: bool)
        ensures
            b == (self.versions.available is Some && self.versions.available->0.pinned),
    {
        match &self.versions.available {
            Some(a) => a.pinned,
            None => false,
        }
    }

    /// Records the answer to pinning the installed versions (the count of
    /// depots pinned) and the re-read pin state.
    pub fn pin_current(&mut self, result: Result<usize, STError>, available: Option<AvailableJson>)
        ensures
            final(self).versions.status@ == pin_status_text(result),
            final(self).versions.available == available,
    {
        proof {
            reveal_strlit("Pinned ");
            reveal_strlit(" depot(s) at the installed version.");
            reveal_strlit("Pin failed: ");
        }
        self.versions.status = match result {
            Ok(n) => {
                let a = u64_text(n as u64);
                let b = concat("Pinned ", a.as_str());
                concat(b.as_str(), " depot(s) at the installed version.")
            },
            Err(e) => {
                let d = e.describe();
                concat("Pin failed: ", d.as_str())
            },
        };
        self.versions.available = available;
    }

    /// Records the answer to unpinning and the re-read pin state.
    pub fn unpin_current(&mut self, result: Result<bool, STError>, available: Option<AvailableJson>)
        ensures
            final(self).versions.status@ == unpin_status_text(result),
            final(self).versions.available == available,
    {
        self.versions.status = match result {
            Ok(true) => owned("Unpinned \u{2014} updates re-enabled."),
            Ok(false) => owned("Was not pinned."),
            Err(e) => {
                let d = e.describe();
                proof {
                    reveal_strlit("Unpin failed: ");
                }
                concat("Unpin failed: ", d.as_str())
            },
        };
        self.versions.available = available;
    }

    /// Starts prompting for the manifest to downgrade the highlighted depot
    /// to (nothing without a highlight).
    pub fn begin_downgrade_input(&mut self)
        ensures
            old(self).versions.index < old(self).versions.manifests@.len()
                ==> final(self).versions.input is Some && final(self).versions.input->0@.len() == 0,
            old(self).versions.index >= old(self).versions.manifests@.len()
                ==> final(self).versions.input == old(self).versions.input,
    {
        if self.versions.index < self.versions.manifests.len() {
            self.versions.input = Some(String::new());
        }
    }

    /// Types a digit into the manifest prompt; other characters are ignored.
    pub fn versions_input_push(&mut self, c: char)
        ensures
            (is_digit(c) && old(self).versions.input is Some) ==> final(self).versions.input is Some
                && final(self).versions.input->0@ == old(self).versions.input->0@.push(c),
            !(is_digit(c) && old(self).versions.input is Some) ==> final(self).versions.input == old(self).versions.input,
    {
        if '0' <= c && c <= '9' {
            match self.versions.input.take() {
                Some(mut s) => {
                    push_char(&mut s, c);
                    self.versions.input = Some(s);
                },
                None => {},
            }
        }
    }

    /// Deletes the manifest prompt's last character.
    pub fn versions_input_pop(&mut self)
        ensures
            old(self).versions.input is Some ==> final(self).versions.input is Some
                && final(self).versions.input->0@ == (if old(self).versions.input->0@.len() > 0 {
                    old(self).versions.input->0@.drop_last()
                } else {
                    old(self).versions.input->0@
                }),
            old(self).versions.input is None ==> final(self).versions.input is None,
    {
        match self.versions.input.take() {
            Some(mut s) => {
                pop_char(&mut s);
                self.versions.input = Some(s);
            },
            None => {},
        }
    }

    /// Leaves the manifest prompt.
    pub fn cancel_downgrade_input(&mut self)
        ensures
            final(self).versions.input is None,
    {
        self.versions.input = None;
    }

    /// The downgrade to launch: the game, the highlighted depot and the
    /// typed manifest. The prompt is consumed; a manifest that does not
    /// parse is reported in the status line instead.
    pub fn start_downgrade(&mut self) -> (job: Option<(i32, u64, u64)>)
        ensures
            old(self).versions.index >= old(self).versions.manifests@.len() ==> job is None
                && final(self).versions.input == old(self).versions.input
                && final(self).versions.status == old(self).versions.status,
            old(self).versions.index < old(self).versions.manifests@.len() ==> {
                let depot = old(self).versions.manifests@[old(self).versions.index as int].depot_id;
                &&& final(self).versions.input is None
                &&& old(self).versions.input is None ==> job is None && final(self).versions.status == old(self).versions.status
                &&& old(self).versions.input is Some ==> {
                    let parsed = parse_u64_spec(trim_spec(old(self).versions.input->0@));
                    &&& parsed is None ==> job is None && final(self).versions.status@ == "Invalid manifest id."@
                    &&& parsed is Some ==> {
                        &&& job == Some((old(self).versions.app_id, depot, parsed->0))
                        &&& final(self).versions.status@ == "Downgrading depot "@ + decimal(depot as nat)
                            + " \u{2192} manifest "@ + decimal(parsed->0 as nat) + "\u{2026}"@
                    }
                }
            },
    {
        if self.versions.index >= self.versions.manifests.len() {
            return None;
        }
        let depot = self.versions.manifests[self.versions.index].depot_id;
        let text = match self.versions.input.take() {
            Some(t) => t,
            None => return None,
        };
        let trimmed = trim(text.as_str());
        match parse_u64(trimmed.as_str()) {
            None => {
                self.versions.status = owned("Invalid manifest id.");
                None
            },
            Some(manifest) => {
                let d = u64_text(depot);
                let m = u64_text(manifest);
                let a = concat("Downgrading depot ", d.as_str());
                let b = concat(a.as_str(), " \u{2192} manifest ");
                let c = concat(b.as_str(), m.as_str());
                self.versions.status = concat(c.as_str(), "\u{2026}");
                Some((self.versions.app_id, depot, manifest))
            },
        }
    }

    /// The state of a downgrade running off the UI thread, if any.
    pub fn downgrade_busy_text(&self) -> (r: Option<String>)
        ensures
            r is Some <==> self.versions.busy is Some,
            r is Some ==> r->0@ == self.versions.busy->0@,
    {
        match &self.versions.busy {
            Some(s) => Some(owned(s.as_str())),
            None => None,
        }
    }

    // --- Game settings ---

    /// Opens the game-settings overlay on the game's overrides, its
    /// launch-script state and the runtimes list (of which the installed
    /// ones can be forced).
    pub fn open_game_config(
        &mut self,
        app_id: i32,
        config: Option<GameConfigJson>,
        script: Option<ScriptShowJson>,
        protons: Vec<ProtonJson>,
    )
        ensures
            final(self).game_config.show,
            final(self).game_config.config == config,
            final(self).game_config.script == script,
            crate::text::views(final(self).game_config.protons@) == installed_names(protons@),
            final(self).game_config.app_id == app_id,
            final(self).game_config.index == 0,
            final(self).game_config.status@.len() == 0,
    {
        self.game_config.config = config;
        self.game_config.script = script;
        self.game_config.protons = installed_proton_names(protons);
        self.game_config.app_id = app_id;
        self.game_config.index = 0;
        self.game_config.status = String::new();
        self.game_config.show = true;
    }

    /// Closes the game-settings overlay, dropping its contents.
    pub fn close_game_config(&mut self)
        ensures
            !final(self).game_config.show,
            final(self).game_config.config is None,
            final(self).game_config.script is None,
            final(self).game_config.protons@.len() == 0,
            final(self).game_config.index == 0,
    {
        self.game_config.show = false;
        self.game_config.config = None;
        self.game_config.script = None;
        self.game_config.protons = Vec::new();
        self.game_config.index = 0;
    }

    /// The next settings row, wrapping.
    pub fn game_config_next(&mut self)
        ensures
            final(self).game_config.index == wrap_next_spec(old(self).game_config.index as nat, GAME_CONFIG_ROWS as nat),
    {
        self.game_config.index = wrap_next(self.game_config.index, GAME_CONFIG_ROWS);
    }

    /// The previous settings row, wrapping.
    pub fn game_config_previous(&mut self)
        ensures
            final(self).game_config.index == wrap_prev_spec(old(self).game_config.index as nat, GAME_CONFIG_ROWS as nat),
    {
        self.game_config.index = wrap_prev(self.game_config.index, GAME_CONFIG_ROWS);
    }

    /// The call that activating the highlighted row asks for: the runner
    /// cycles auto → umu → luxtorpeda → auto, the forced Proton runtime
    /// cycles through the installed ones and then back to none, the platform
    /// toggles between windows and linux, and the launch script is created,
    /// or its override cleared when one exists.
    pub fn game_config_activate(&self) -> (call: ConfigCall)
        ensures
            call_matches(call, self.game_config.planned()),
    {
        let p = &self.game_config;
        if p.index == 0 {
            let runner: &str = match &p.config {
                Some(c) => c.runner.as_str(),
                None => "auto",
            };
            let is_umu = crate::text::str_eq(runner, "umu");
            let is_lux = crate::text::str_eq(runner, "luxtorpeda");
            proof {
                reveal_strlit("auto");
                reveal_strlit("umu");
                reveal_strlit("luxtorpeda");
                assert(runner@ == (match p.config { Some(c) => c.runner@, None => "auto"@ }));
            }
            if is_umu {
                ConfigCall::UmuToNative
            } else if is_lux {
                ConfigCall::NativeOff
            } else {
                ConfigCall::UmuOn
            }
        } else if p.index == 1 {
            if p.protons.len() == 0 {
                return ConfigCall::ClearProton;
            }
            let forced: Option<&String> = match &p.config {
                Some(c) => match &c.forced_proton_version {
                    Some(v) => Some(v),
                    None => None,
                },
                None => None,
            };
            match forced {
                None => ConfigCall::SetProton(owned(p.protons[0].as_str())),
                Some(v) => match position_of(&p.protons, v.as_str()) {
                    Some(i) => {
                        proof {
                            let vv = v@;
                            let len = p.protons@.len();
                            assert(0 <= i < len && p.protons@[i as int]@ == vv
                                && forall|j: int| 0 <= j < i ==> p.protons@[j]@ != vv);
                            let c = choose|k: int|
                                0 <= k < len && p.protons@[k]@ == vv
                                    && forall|j: int| 0 <= j < k ==> p.protons@[j]@ != vv;
                            if c < i {
                                assert(p.protons@[c]@ != vv);
                            }
                            if c > i {
                                assert(p.protons@[i as int]@ != vv);
                            }
                            assert(c == i);
                        }
                        if i + 1 < p.protons.len() {
                            ConfigCall::SetProton(owned(p.protons[i + 1].as_str()))
                        } else {
                            ConfigCall::ClearProton
                        }
                    },
                    None => ConfigCall::ClearProton,
                },
            }
        } else if p.index == 2 {
            let windows = match &p.config {
                Some(c) => match &c.platform_preference {
                    Some(v) => crate::text::str_eq(v.as_str(), "windows"),
                    None => false,
                },
                None => false,
            };
            let next = if windows { owned("linux") } else { owned("windows") };
            proof {
                assert(next@ == (if windows { "linux"@ } else { "windows"@ }));
            }
            ConfigCall::SetPlatform(next)
        } else {
            let has_script = match &p.script {
                Some(s) => s.exists,
                None => false,
            };
            if has_script {
                ConfigCall::ClearLaunchScript
            } else {
                ConfigCall::NewScript
            }
        }
    }

    /// Records the answer to a settings call and the re-read overrides and
    /// launch-script state.
    pub fn game_config_finish(
        &mut self,
        call: &ConfigCall,
        result: Result<(), STError>,
        config: Option<GameConfigJson>,
        script: Option<ScriptShowJson>,
    )
        ensures
            final(self).game_config.status@ == config_status_text(*call, result),
            final(self).game_config.config == config,
            final(self).game_config.script == script,
            final(self).game_config.index == old(self).game_config.index,
    {
        self.game_config.status = config_status(call, result);
        self.game_config.config = config;
        self.game_config.script = script;
    }

    /// Records the answer to deleting the launch-script file and the
    /// re-read state.
    pub fn game_config_remove_script(
        &mut self,
        result: Result<(), STError>,
        config: Option<GameConfigJson>,
        script: Option<ScriptShowJson>,
    )
        ensures
            result is Ok ==> final(self).game_config.status@ == "Launch script removed."@,
            result is Err ==> final(self).game_config.status@ == failed_text(result->Err_0),
            final(self).game_config.config == config,
            final(self).game_config.script == script,
    {
        self.game_config.status = match result {
            Ok(()) => owned("Launch script removed."),
            Err(e) => failed_message(&e),
        };
        self.game_config.config = config;
        self.game_config.script = script;
    }

    // --- Collections ---

    /// Opens the collections overlay on `list`, acting on `app_id`.
    pub fn open_collections(&mut self, app_id: i32, list: Vec<CollectionJson>)
        ensures
            final(self).collections.show,
            final(self).collections.list@ == list@,
            final(self).collections.app_id == app_id,
            final(self).collections.index == 0,
            final(self).collections.status@.len() == 0,
            final(self).collections.input is None,
    {
        self.collections.list = list;
        self.collections.app_id = app_id;
        self.collections.index = 0;
        self.collections.status = String::new();
        self.collections.input = None;
        self.collections.show = true;
    }

    /// Closes the collections overlay.
    pub fn close_collections(&mut self)
        ensures
            !final(self).collections.show,
            final(self).collections.list@.len() == 0,
            final(self).collections.index == 0,
            final(self).collections.input is None,
    {
        self.collections.show = false;
        self.collections.list = Vec::new();
        self.collections.index = 0;
        self.collections.input = None;
    }

    /// The highlighted collection, if any.
    pub fn selected_collection(&self) -> (r: Option<&CollectionJson>)
        ensures
            self.collections.index < self.collections.list@.len()
                ==> r == Some(&self.collections.list@[self.collections.index as int]),
            self.collections.index >= self.collections.list@.len() ==> r is None,
    {
        if self.collections.index < self.collections.list.len() {
            Some(&self.collections.list[self.collections.index])
        } else {
            None
        }
    }

    /// The next collection, wrapping.
    pub fn collections_next(&mut self)
        ensures
            final(self).collections.index == wrap_next_spec(old(self).collections.index as nat, old(self).collections.list@.len()),
    {
        self.collections.index = wrap_next(self.collections.index, self.collections.list.len());
    }

    /// The previous collection, wrapping.
    pub fn collections_previous(&mut self)
        ensures
            final(self).collections.index == wrap_prev_spec(old(self).collections.index as nat, old(self).collections.list@.len()),
    {
        self.collections.index = wrap_prev(self.collections.index, self.collections.list.len());
    }

    /// Takes a re-read list, keeping the highlight on a row.
    pub fn refresh_collections(&mut self, list: Vec<CollectionJson>)
        ensures
            final(self).collections.list@ == list@,
            final(self).collections.index == (if old(self).collections.index >= list@.len() {
                if list@.len() == 0 { 0 } else { (list@.len() - 1) as nat }
            } else {
                old(self).collections.index as nat
            }),
    {
        self.collections.refresh(list);
    }

    /// The collection to add the game to, and the game: the highlighted
    /// one, or nothing.
    pub fn add_game_to_selected_collection(&self) -> (job: Option<(String, i32)>)
        ensures
            job is Some <==> self.collections.selected_name() is Some,
            job is Some ==> (job->0).0@ == self.collections.selected_name()->0 && (job->0).1 == self.collections.app_id,
    {
        match self.collections.selected_name_exec() {
            Some(name) => Some((name, self.collections.app_id)),
            None => None,
        }
    }

    /// The collection to remove the game from, and the game.
    pub fn remove_game_from_selected_collection(&self) -> (job: Option<(String, i32)>)
        ensures
            job is Some <==> self.collections.selected_name() is Some,
            job is Some ==> (job->0).0@ == self.collections.selected_name()->0 && (job->0).1 == self.collections.app_id,
    {
        match self.collections.selected_name_exec() {
            Some(name) => Some((name, self.collections.app_id)),
            None => None,
        }
    }

    /// The collection to delete: the highlighted one, or nothing.
    pub fn delete_selected_collection(&self) -> (name: Option<String>)
        ensures
            name is Some <==> self.collections.selected_name() is Some,
            name is Some ==> name->0@ == self.collections.selected_name()->0,
    {
        self.collections.selected_name_exec()
    }

    /// Records the answer to a change of the collection `name` and the
    /// re-read list.
    pub fn record_collection_change(
        &mut self,
        change: CollectionChange,
        name: &str,
        result: Result<(), STError>,
        list: Vec<CollectionJson>,
    )
        ensures
            final(self).collections.status@ == change_status_text(change, name@, result),
            final(self).collections.list@ == list@,
    {
        proof {
            reveal_strlit("Added to \"");
            reveal_strlit("Removed from \"");
            reveal_strlit("Deleted \"");
            reveal_strlit("Created \"");
            reveal_strlit("\".");
        }
        self.collections.status = match result {
            Err(e) => failed_message(&e),
            Ok(()) => {
                let head = match change {
                    CollectionChange::Added => "Added to \"",
                    CollectionChange::Removed => "Removed from \"",
                    CollectionChange::Deleted => "Deleted \"",
                    CollectionChange::Created => "Created \"",
                };
                let a = concat(head, name);
                concat(a.as_str(), "\".")
            },
        };
        self.collections.refresh(list);
    }

    /// Records the answer to pulling the collections from Steam Cloud and
    /// the re-read list.
    pub fn collections_pull(&mut self, result: Result<(), STError>, list: Vec<CollectionJson>)
        ensures
            result is Ok ==> final(self).collections.status@ == "Pulled collections from Steam Cloud."@,
            result is Err ==> final(self).collections.status@ == failed_text(result->Err_0),
            final(self).collections.list@ == list@,
    {
        self.collections.status = match result {
            Ok(()) => owned("Pulled collections from Steam Cloud."),
            Err(e) => failed_message(&e),
        };
        self.collections.refresh(list);
    }

    /// Records the answer to pushing the collections to Steam Cloud.
    pub fn collections_push(&mut self, result: Result<(), STError>)
        ensures
            result is Ok ==> final(self).collections.status@ == "Pushed collections to Steam Cloud."@,
            result is Err ==> final(self).collections.status@ == failed_text(result->Err_0),
            final(self).collections.list@ == old(self).collections.list@,
    {
        self.collections.status = match result {
            Ok(()) => owned("Pushed collections to Steam Cloud."),
            Err(e) => failed_message(&e),
        };
    }

    /// Records the answer to syncing the collections with Steam Cloud and
    /// the re-read list.
    pub fn collections_sync(&mut self, result: Result<(), STError>, list: Vec<CollectionJson>)
        ensures
            result is Ok ==> final(self).collections.status@ == "Synced collections with Steam Cloud."@,
            result is Err ==> final(self).collections.status@ == failed_text(result->Err_0),
            final(self).collections.list@ == list@,
    {
        self.collections.status = match result {
            Ok(()) => owned("Synced collections with Steam Cloud."),
            Err(e) => failed_message(&e),
        };
        self.collections.refresh(list);
    }

    /// Starts the new-collection prompt.
    pub fn begin_collection_create(&mut self)
        ensures
            final(self).collections.input is Some,
            final(self).collections.input->0@.len() == 0,
    {
        self.collections.input = Some(String::new());
    }

    /// Types into the new-collection prompt.
    pub fn collections_input_push(&mut self, c: char)
        ensures
            old(self).collections.input is Some ==> final(self).collections.input is Some
                && final(self).collections.input->0@ == old(self).collections.input->0@.push(c),
            old(self).collections.input is None ==> final(self).collections.input is None,
    {
        match self.collections.input.take() {
            Some(mut s) => {
                push_char(&mut s, c);
                self.collections.input = Some(s);
            },
            None => {},
        }
    }

    /// Deletes the new-collection prompt's last character.
    pub fn collections_input_pop(&mut self)
        ensures
            old(self).collections.input is Some ==> final(self).collections.input is Some
                && final(self).collections.input->0@ == (if old(self).collections.input->0@.len() > 0 {
                    old(self).collections.input->0@.drop_last()
                } else {
                    old(self).collections.input->0@
                }),
            old(self).collections.input is None ==> final(self).collections.input is None,
    {
        match self.collections.input.take() {
            Some(mut s) => {
                pop_char(&mut s);
                self.collections.input = Some(s);
            },
            None => {},
        }
    }

    /// Leaves the new-collection prompt.
    pub fn cancel_collection_create(&mut self)
        ensures
            final(self).collections.input is None,
    {
        self.collections.input = None;
    }

    /// The name to create a collection under: the prompt's text, trimmed.
    /// The prompt is consumed; a blank name creates nothing.
    pub fn commit_collection_create(&mut self) -> (name: Option<String>)
        ensures
            final(self).collections.input is None,
            old(self).collections.input is None ==> name is None,
            old(self).collections.input is Some ==> {
                let t = trim_spec(old(self).collections.input->0@);
                &&& t.len() == 0 ==> name is None
                &&& t.len() > 0 ==> name is Some && name->0@ == t
            },
            final(self).collections.status == old(self).collections.status,
    {
        let text = match self.collections.input.take() {
            Some(t) => t,
            None => return None,
        };
        let name = trim(text.as_str());
        if name.as_str().unicode_len() == 0 {
            return None;
        }
        Some(name)
    }

    // --- Runtime plugins ---

    /// Opens the plugins overlay on the three plugins' status.
    pub fn open_engine(
        &mut self,
        umu: Option<PluginStatusJson>,
        lux: Option<PluginStatusJson>,
        steam_runtime: Option<SteamRuntimeStatusJson>,
    )
        ensures
            final(self).engine.show,
            final(self).engine.umu == umu,
            final(self).engine.lux == lux,
            final(self).engine.steam_runtime == steam_runtime,
            final(self).engine.index == 0,
            final(self).engine.status@.len() == 0,
            final(self).engine.busy == old(self).engine.busy,
    {
        self.engine.umu = umu;
        self.engine.lux = lux;
        self.engine.steam_runtime = steam_runtime;
        self.engine.index = 0;
        self.engine.status = String::new();
        self.engine.show = true;
    }

    /// Closes the plugins overlay.
    pub fn close_engine(&mut self)
        ensures
            !final(self).engine.show,
            final(self).engine.umu is None,
            final(self).engine.lux is None,
            final(self).engine.steam_runtime is None,
            final(self).engine.index == 0,
    {
        self.engine.show = false;
        self.engine.umu = None;
        self.engine.lux = None;
        self.engine.steam_runtime = None;
        self.engine.index = 0;
    }

    /// The next plugin row, wrapping.
    pub fn engine_next(&mut self)
        ensures
            final(self).engine.index == wrap_next_spec(old(self).engine.index as nat, ENGINE_ROWS as nat),
    {
        self.engine.index = wrap_next(self.engine.index, ENGINE_ROWS);
    }

    /// The previous plugin row, wrapping.
    pub fn engine_previous(&mut self)
        ensures
            final(self).engine.index == wrap_prev_spec(old(self).engine.index as nat, ENGINE_ROWS as nat),
    {
        self.engine.index = wrap_prev(self.engine.index, ENGINE_ROWS);
    }

    /// Takes the re-read status of the three plugins.
    pub fn refresh_engine(
        &mut self,
        umu: Option<PluginStatusJson>,
        lux: Option<PluginStatusJson>,
        steam_runtime: Option<SteamRuntimeStatusJson>,
    )
        ensures
            final(self).engine.umu == umu,
            final(self).engine.lux == lux,
            final(self).engine.steam_runtime == steam_runtime,
            final(self).engine.status == old(self).engine.status,
    {
        self.engine.umu = umu;
        self.engine.lux = lux;
        self.engine.steam_runtime = steam_runtime;
    }

    /// What `key` asks for on the highlighted plugin row: enable, disable and
    /// uninstall are instant; install, update and repair are downloads, run
    /// off the UI thread (the overlay shows `working…`). While a download is
    /// under way every key is ignored.
    pub fn engine_action(&mut self, key: char) -> (job: EngineJob)
        ensures
            old(self).engine.busy is Some ==> job == EngineJob::Ignored && final(self).engine == old(self).engine,
            old(self).engine.busy is None ==> {
                let row = old(self).engine.index;
                &&& instant_verb(row, key) is Some ==> job == EngineJob::Instant(instant_verb(row, key)->0)
                    && final(self).engine.busy is None
                &&& instant_verb(row, key) is None && download_verb(row, key) is Some ==> {
                    &&& job == EngineJob::Background(download_verb(row, key)->0)
                    &&& final(self).engine.busy is Some
                    &&& final(self).engine.busy->0@ == working_text()
                    &&& final(self).engine.status@.len() == 0
                }
                &&& instant_verb(row, key) is None && download_verb(row, key) is None ==> job == EngineJob::Ignored
                    && final(self).engine.busy is None
            },
            final(self).engine.index == old(self).engine.index,
    {
        if self.engine.busy.is_some() {
            return EngineJob::Ignored;
        }
        if let Some(verb) = instant_verb_exec(self.engine.index, key) {
            return EngineJob::Instant(verb);
        }
        if let Some(verb) = download_verb_exec(self.engine.index, key) {
            self.engine.busy = Some(owned("working\u{2026}"));
            self.engine.status = String::new();
            return EngineJob::Background(verb);
        }
        EngineJob::Ignored
    }

    /// Records an instant plugin action's answer and the re-read status.
    pub fn engine_finish(
        &mut self,
        result: Result<(), STError>,
        umu: Option<PluginStatusJson>,
        lux: Option<PluginStatusJson>,
        steam_runtime: Option<SteamRuntimeStatusJson>,
    )
        ensures
            final(self).engine.status@ == engine_outcome_text(result),
            final(self).engine.umu == umu,
            final(self).engine.lux == lux,
            final(self).engine.steam_runtime == steam_runtime,
    {
        self.engine.status = engine_outcome(result);
        self.engine.umu = umu;
        self.engine.lux = lux;
        self.engine.steam_runtime = steam_runtime;
    }

    /// The download under way, shown as `working…`, if one is.
    pub fn engine_busy_text(&self) -> (r: Option<String>)
        ensures
            r is Some <==> (self.engine.busy is Some && self.engine.busy->0@ == working_text()),
            r is Some ==> r->0@ == working_text(),
    {
        match &self.engine.busy {
            Some(s) => {
                proof {
                    reveal_strlit("working\u{2026}");
                }
                if crate::text::str_eq(s.as_str(), "working\u{2026}") {
                    Some(owned(s.as_str()))
                } else {
                    None
                }
            },
            None => None,
        }
    }

    /// Adopts a finished download's outcome into the status line and clears
    /// it; answers whether the plugin status should be re-read. Nothing
    /// happens while the overlay is hidden or the download still runs.
    pub fn poll_engine(&mut self) -> (adopted: bool)
        ensures
            adopted == (old(self).engine.show && old(self).engine.busy is Some
                && old(self).engine.busy->0@ != working_text()),
            adopted ==> final(self).engine.status@ == old(self).engine.busy->0@ && final(self).engine.busy is None,
            !adopted ==> final(self).engine == old(self).engine,
    {
        if !self.engine.show {
            return false;
        }
        let done = match &self.engine.busy {
            Some(s) => !crate::text::str_eq(s.as_str(), "working\u{2026}"),
            None => false,
        };
        if !done {
            return false;
        }
        match self.engine.busy.take() {
            Some(s) => {
                self.engine.status = s;
            },
            None => {},
        }
        true
    }
}

} // verus!
