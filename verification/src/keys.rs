//! The browse page's key bindings: which overlay takes a key first, and what
//! each key asks for there.

use vstd::prelude::*;
use crate::aurelia::CloudDirection;
use crate::browse::{first_row, Browser, Filter};
use crate::social::FriendsPanel;
use crate::text::owned;

verus! {

/// A key press, as the bindings tell keys apart.
#[derive(Debug, Clone, Copy, PartialEq, Eq, Structural)]
pub enum Key {
    Char(char),
    Enter,
    Backspace,
    Esc,
    Up,
    Down,
    Tab,
    BackTab,
    PageUp,
    PageDown,
    F(u8),
    Other,
}

/// The part of the browse page that takes the keys: the topmost open
/// overlay or prompt, else the query being typed, else the library list.
#[derive(Debug, Clone, Copy, PartialEq, Eq, Structural)]
pub enum Layer {
    Cloud,
    Achievements,
    Chat,
    FriendAdd,
    FriendRemove,
    Friends,
    Inventory,
    Launch,
    Market,
    MarketSearch,
    WorkshopComments,
    WorkshopBrowse,
    Workshop,
    ConfirmInstall,
    InstallPicker,
    ConfirmUninstall,
    Dlc,
    Branches,
    Running,
    ProtonUninstall,
    Proton,
    Depots,
    Move,
    Relink,
    Import,
    Help,
    Account,
    Config,
    Wallet,
    Filtering,
    List,
}

/// What a key asks for.
#[derive(Debug, Clone, Copy, PartialEq, Eq, Structural)]
pub enum Command {
    /// Nothing.
    Nothing,
    /// Close the layer (for the query: stop typing and clear it; for a
    /// Workshop search: leave browsing; for the friends list: give the
    /// focus back).
    Close(Layer),
    /// Move the highlight or scroll down.
    Down(Layer),
    /// Move the highlight or scroll up.
    Up(Layer),
    /// Type a character into the layer's text.
    Type(Layer, char),
    /// Delete the last character of the layer's text.
    Erase(Layer),
    /// Submit the layer: send, search, pick, run the highlighted game, ...
    Submit(Layer),
    /// Answer a yes/no question of the layer.
    Answer(Layer, bool),
    SyncCloud(CloudDirection),
    FriendAddConfirm,
    OpenChat,
    ChatWindow,
    OpenFriendAdd,
    AskFriendRemove,
    CycleFilter(bool),
    LookupPrice,
    ToggleSubscribe,
    Rate(bool),
    OpenComments,
    EnterWorkshopBrowse,
    SetDlc(bool),
    StopRunning,
    ProtonDefault,
    ProtonInstall,
    AskProtonUninstall,
    TogglePresence,
    Quit,
    OpenHelp,
    OpenAccount,
    OpenConfig,
    OpenWallet,
    StartFilter,
    SignIn,
    Reload,
    SetFilter(Filter),
    EnterFriends,
    CycleSort,
    OpenAchievements,
    ToggleFriendsFocus,
    OpenInventory,
    OpenMarket,
    OpenMarketSearch,
    OpenWorkshop,
    ToggleDescription,
    Home,
    End,
    PageDown,
    PageUp,
    Install,
    TogglePause,
    CancelInstall,
    AskUninstall,
    OpenMove,
    OpenRelink,
    OpenImport,
    Verify,
    Update,
    OpenDlc,
    OpenBranches,
    OpenProton,
    OpenRunning,
    ToggleFavourite,
    HideGame,
    OpenCloud,
    OpenDepots,
    OpenLaunchOptions,
}

impl Browser {
    /// The layer that takes the keys: overlays in a fixed order of
    /// precedence, then the query being typed, then the list.
    pub open spec fn layer_spec(&self) -> Layer {
        if self.show_cloud {
            Layer::Cloud
        } else if self.achievements.show {
            Layer::Achievements
        } else if self.chat.show {
            Layer::Chat
        } else if self.friends.show_add {
            Layer::FriendAdd
        } else if self.friends.confirm_remove {
            Layer::FriendRemove
        } else if self.view == crate::browse::View::Friends {
            Layer::Friends
        } else if self.show_inventory {
            Layer::Inventory
        } else if self.show_launch {
            Layer::Launch
        } else if self.show_market {
            Layer::Market
        } else if self.market_search.show {
            Layer::MarketSearch
        } else if self.workshop.show {
            if self.workshop.comments_open {
                Layer::WorkshopComments
            } else if self.workshop.browse {
                Layer::WorkshopBrowse
            } else {
                Layer::Workshop
            }
        } else if self.confirm_install {
            Layer::ConfirmInstall
        } else if self.show_install_picker {
            Layer::InstallPicker
        } else if self.confirm_uninstall {
            Layer::ConfirmUninstall
        } else if self.show_dlc {
            Layer::Dlc
        } else if self.show_branches {
            Layer::Branches
        } else if self.show_running {
            Layer::Running
        } else if self.show_proton && self.confirm_proton_uninstall {
            Layer::ProtonUninstall
        } else if self.show_proton {
            Layer::Proton
        } else if self.show_depots {
            Layer::Depots
        } else if self.move_prompt.show {
            Layer::Move
        } else if self.relink_prompt.show {
            Layer::Relink
        } else if self.import_prompt.show {
            Layer::Import
        } else if self.show_help {
            Layer::Help
        } else if self.show_account {
            Layer::Account
        } else if self.show_config {
            Layer::Config
        } else if self.show_wallet {
            Layer::Wallet
        } else if self.filtering {
            Layer::Filtering
        } else {
            Layer::List
        }
    }

    /// The layer that takes the keys now.
    pub fn layer(&self) -> (l: Layer)
        ensures
            l == self.layer_spec(),
    {
        if self.show_cloud {
            Layer::Cloud
        } else if self.achievements.show {
            Layer::Achievements
        } else if self.chat.show {
            Layer::Chat
        } else if self.friends.show_add {
            Layer::FriendAdd
        } else if self.friends.confirm_remove {
            Layer::FriendRemove
        } else if self.view == crate::browse::View::Friends {
            Layer::Friends
        } else if self.show_inventory {
            Layer::Inventory
        } else if self.show_launch {
            Layer::Launch
        } else if self.show_market {
            Layer::Market
        } else if self.market_search.show {
            Layer::MarketSearch
        } else if self.workshop.show {
            if self.workshop.comments_open {
                Layer::WorkshopComments
            } else if self.workshop.browse {
                Layer::WorkshopBrowse
            } else {
                Layer::Workshop
            }
        } else if self.confirm_install {
            Layer::ConfirmInstall
        } else if self.show_install_picker {
            Layer::InstallPicker
        } else if self.confirm_uninstall {
            Layer::ConfirmUninstall
        } else if self.show_dlc {
            Layer::Dlc
        } else if self.show_branches {
            Layer::Branches
        } else if self.show_running {
            Layer::Running
        } else if self.show_proton && self.confirm_proton_uninstall {
            Layer::ProtonUninstall
        } else if self.show_proton {
            Layer::Proton
        } else if self.show_depots {
            Layer::Depots
        } else if self.move_prompt.show {
            Layer::Move
        } else if self.relink_prompt.show {
            Layer::Relink
        } else if self.import_prompt.show {
            Layer::Import
        } else if self.show_help {
            Layer::Help
        } else if self.show_account {
            Layer::Account
        } else if self.show_config {
            Layer::Config
        } else if self.show_wallet {
            Layer::Wallet
        } else if self.filtering {
            Layer::Filtering
        } else {
            Layer::List
        }
    }

    /// Takes a key press on the browse page: the one-line notice is cleared,
    /// and the key is bound in the layer that takes it.
    #[verifier::spinoff_prover]
    #[verifier::rlimit(40)]
    pub fn key_command(&mut self, key: Key) -> (c: Command)
        ensures
            c == binding(old(self).layer_spec(), key),
            *final(self) == (Browser { notice: None, ..*old(self) }),
    {
        let layer = self.layer();
        self.notice = None;
        command_for(layer, key)
    }
}

/// The notice shown when the picked library lacks room for the download.
pub open spec fn no_space_notice() -> Seq<char> {
    "Not enough space on that drive \u{2014} pick another."@
}

impl Browser {
    /// Whether the highlighted library of the install picker can take the
    /// download: it exists, and its free space is at least the estimate
    /// (when both are known).
    pub open spec fn picked_library_fits(&self) -> bool {
        self.install_picker_index < self.install_libraries@.len() && ({
            let lib = self.install_libraries@[self.install_picker_index as int];
            match (self.install_estimate, lib.free_bytes) {
                (Some(est), Some(free)) => free >= est,
                _ => true,
            }
        })
    }

    /// Enter in the install picker. Without room on the highlighted library
    /// a notice says so and the picker stays open; otherwise the picker
    /// closes, and the install to start is the selected game into the
    /// highlighted library (nothing without either).
    #[verifier::spinoff_prover]
    #[verifier::rlimit(40)]
    pub fn pick_install_library(&mut self) -> (job: Option<(i32, String)>)
        ensures
            !old(self).picked_library_fits() ==> {
                &&& job is None
                &&& final(self).notice is Some && final(self).notice->0@ == no_space_notice()
                &&& *final(self) == (Browser { notice: final(self).notice, ..*old(self) })
            },
            old(self).picked_library_fits() ==> {
                &&& !final(self).show_install_picker
                &&& final(self).install_libraries@.len() == 0
                &&& final(self).items == old(self).items
                &&& final(self).selected == old(self).selected
                &&& match old(self).selected_game() {
                    Some(g) => job matches Some((id, lib)) && id == g.id
                        && lib@ == old(self).install_libraries@[old(self).install_picker_index as int].path@,
                    None => job is None,
                }
            },
    {
        if !self.selected_library_fits() {
            let m = owned("Not enough space on that drive \u{2014} pick another.");
            proof {
                reveal_strlit("Not enough space on that drive \u{2014} pick another.");
            }
            self.notice = Some(m);
            return None;
        }
        let id = match self.selected() {
            Some(g) => Some(g.id),
            None => None,
        };
        let library = self.selected_install_library();
        let job = match (id, library) {
            (Some(id), Some(library)) => Some((id, library)),
            _ => None,
        };
        self.close_install_picker();
        job
    }

    /// `x` on the friends list: asks to confirm removing the highlighted
    /// friend (nothing without one).
    #[verifier::spinoff_prover]
    #[verifier::rlimit(40)]
    pub fn ask_friend_remove(&mut self)
        ensures
            *final(self) == (Browser {
                friends: FriendsPanel {
                    confirm_remove: old(self).friends.confirm_remove || old(self).friends.index < old(self).friends.list@.len(),
                    ..old(self).friends
                },
                ..*old(self)
            }),
    {
        if self.friends.index < self.friends.list.len() {
            self.friends.confirm_remove = true;
        }
    }

    /// Answers the remove question: on yes, the friend to remove (the
    /// highlighted one, if any); the question closes either way.
    #[verifier::spinoff_prover]
    #[verifier::rlimit(40)]
    pub fn answer_friend_remove(&mut self, yes: bool) -> (id: Option<u64>)
        ensures
            yes && old(self).friends.index < old(self).friends.list@.len()
                ==> id == Some(old(self).friends.list@[old(self).friends.index as int].steam_id),
            !(yes && old(self).friends.index < old(self).friends.list@.len()) ==> id is None,
            *final(self) == (Browser { friends: FriendsPanel { confirm_remove: false, ..old(self).friends }, ..*old(self) }),
    {
        let id = if yes { self.friend_remove_confirm() } else { None };
        self.friends.confirm_remove = false;
        id
    }

    /// Opens the help, at its top.
    #[verifier::spinoff_prover]
    #[verifier::rlimit(40)]
    pub fn open_help(&mut self)
        ensures
            *final(self) == (Browser { show_help: true, help_scroll: 0, ..*old(self) }),
    {
        self.help_scroll = 0;
        self.show_help = true;
    }

    /// Closes the help.
    #[verifier::spinoff_prover]
    #[verifier::rlimit(40)]
    pub fn close_help(&mut self)
        ensures
            *final(self) == (Browser { show_help: false, ..*old(self) }),
    {
        self.show_help = false;
    }

    /// Starts typing the query.
    #[verifier::spinoff_prover]
    #[verifier::rlimit(40)]
    pub fn start_filtering(&mut self)
        ensures
            *final(self) == (Browser { filtering: true, ..*old(self) }),
    {
        self.filtering = true;
    }

    /// Stops typing the query, keeping it.
    #[verifier::spinoff_prover]
    #[verifier::rlimit(40)]
    pub fn end_filtering(&mut self)
        ensures
            *final(self) == (Browser { filtering: false, ..*old(self) }),
    {
        self.filtering = false;
    }

    /// Stops typing the query and clears it; the selection goes to the
    /// first row.
    #[verifier::spinoff_prover]
    #[verifier::rlimit(40)]
    pub fn cancel_filtering(&mut self)
        ensures
            !final(self).filtering,
            final(self).query@ == Seq::<char>::empty(),
            final(self).selected == first_row(final(self).vlen()),
            *final(self) == (Browser {
                filtering: false,
                query: final(self).query,
                selected: final(self).selected,
                ..*old(self)
            }),
    {
        self.filtering = false;
        self.clear_query();
    }

    /// Closes the account overlay.
    #[verifier::spinoff_prover]
    #[verifier::rlimit(40)]
    pub fn close_account(&mut self)
        ensures
            *final(self) == (Browser { show_account: false, ..*old(self) }),
    {
        self.show_account = false;
    }

    /// Closes the wallet overlay.
    #[verifier::spinoff_prover]
    #[verifier::rlimit(40)]
    pub fn close_wallet(&mut self)
        ensures
            *final(self) == (Browser { show_wallet: false, ..*old(self) }),
    {
        self.show_wallet = false;
    }

    /// `u` in the Proton overlay: asks to confirm uninstalling the
    /// highlighted runtime, when it can be uninstalled (an installed custom
    /// one).
    #[verifier::spinoff_prover]
    pub fn ask_proton_uninstall(&mut self)
        ensures
            final(self).confirm_proton_uninstall == (old(self).confirm_proton_uninstall || (old(self).proton_index < old(self).protons@.len()
                && old(self).protons@[old(self).proton_index as int].installed
                && old(self).protons@[old(self).proton_index as int].label@ != "Valve"@)),
            final(self).show_proton == old(self).show_proton,
            final(self).protons == old(self).protons,
            final(self).proton_index == old(self).proton_index,
    {
        let ok = self.selected_proton_uninstallable();
        let ask = self.confirm_proton_uninstall || ok;
        self.confirm_proton_uninstall = ask;
    }

    /// Answers the uninstall question: on yes, the runtime to uninstall (the
    /// highlighted one, when it can be); the question closes either way.
    #[verifier::spinoff_prover]
    #[verifier::rlimit(40)]
    pub fn answer_proton_uninstall(&mut self, yes: bool) -> (name: Option<String>)
        ensures
            ({
                let ok = old(self).proton_index < old(self).protons@.len()
                    && old(self).protons@[old(self).proton_index as int].installed
                    && old(self).protons@[old(self).proton_index as int].label@ != "Valve"@;
                &&& name is Some <==> (yes && ok)
                &&& name is Some ==> name->0@ == old(self).protons@[old(self).proton_index as int].name@
            }),
            *final(self) == (Browser { confirm_proton_uninstall: false, ..*old(self) }),
    {
        let name = if yes { self.proton_to_uninstall() } else { None };
        self.confirm_proton_uninstall = false;
        name
    }
}

impl Browser {
    /// The presence to ask for when toggling it in the settings overlay:
    /// offline when the configuration says online, else online.
    pub fn presence_after_toggle(&self) -> (online: bool)
        ensures
            online == !(self.config_info is Some && self.config_info->0.chat_presence is Some
                && self.config_info->0.chat_presence->0@ == "online"@),
    {
        match &self.config_info {
            Some(c) => !c.is_online(),
            None => true,
        }
    }

    /// The runtime `i` in the Proton overlay installs: the highlighted one,
    /// when it is not installed yet.
    pub fn proton_to_install(&self) -> (name: Option<String>)
        ensures
            name is Some <==> (self.proton_index < self.protons@.len() && !self.protons@[self.proton_index as int].installed),
            name is Some ==> name->0@ == self.protons@[self.proton_index as int].name@,
    {
        match self.selected_proton() {
            Some(p) => if !p.installed { Some(owned(p.name.as_str())) } else { None },
            None => None,
        }
    }

    /// Whether a Proton install just finished with the overlay open, so that
    /// the runtime list is to be read again: its status line reads
    /// `Installed!`.
    pub fn proton_install_finished(&self, line: Option<&str>) -> (done: bool)
        ensures
            done == (self.show_proton && line is Some && line->0@ == "Installed!"@),
    {
        match line {
            Some(l) => self.show_proton && crate::text::str_eq(l, "Installed!"),
            None => false,
        }
    }
}

pub open spec fn is_close(k: Key) -> bool {
    k == Key::Esc || k == Key::Char('q')
}

pub open spec fn is_down(k: Key) -> bool {
    k == Key::Down || k == Key::Char('j')
}

pub open spec fn is_up(k: Key) -> bool {
    k == Key::Up || k == Key::Char('k')
}

pub open spec fn is_enter(k: Key) -> bool {
    k == Key::Enter || k == Key::Char('\n')
}

pub open spec fn is_yes(k: Key) -> bool {
    k == Key::Char('y') || k == Key::Char('Y')
}

/// A list overlay: Esc or `q` closes it, Down/`j` and Up/`k` move, and
/// other keys do what `other` says.
pub open spec fn list_keys(l: Layer, k: Key, other: Command) -> Command {
    if is_close(k) {
        Command::Close(l)
    } else if is_down(k) {
        Command::Down(l)
    } else if is_up(k) {
        Command::Up(l)
    } else {
        other
    }
}

/// A text field: Esc closes it, Enter submits it, then the field's own keys
/// (`other`, when not `Nothing`), then Backspace erases and characters are
/// typed.
pub open spec fn field_keys(l: Layer, k: Key, other: Command) -> Command {
    if k == Key::Esc {
        Command::Close(l)
    } else if is_enter(k) {
        Command::Submit(l)
    } else if other != Command::Nothing {
        other
    } else {
        match k {
            Key::Backspace => Command::Erase(l),
            Key::Char(c) => Command::Type(l, c),
            _ => Command::Nothing,
        }
    }
}

/// The keys of the library list.
pub open spec fn list_binding(k: Key) -> Command {
    match k {
        Key::Tab => Command::CycleFilter(true),
        Key::BackTab => Command::CycleFilter(false),
        Key::Down => Command::Down(Layer::List),
        Key::Up => Command::Up(Layer::List),
        Key::PageDown => Command::PageDown,
        Key::PageUp => Command::PageUp,
        Key::Enter => Command::Submit(Layer::List),
        Key::Char(c) => {
            if c == 'q' { Command::Quit }
            else if c == '?' { Command::OpenHelp }
            else if c == 'A' { Command::OpenAccount }
            else if c == 'p' { Command::OpenConfig }
            else if c == 'w' { Command::OpenWallet }
            else if c == '/' { Command::StartFilter }
            else if c == 'l' { Command::SignIn }
            else if c == 'r' { Command::Reload }
            else if c == '1' { Command::SetFilter(Filter::All) }
            else if c == '2' { Command::SetFilter(Filter::Installed) }
            else if c == '3' { Command::SetFilter(Filter::Updates) }
            else if c == '4' { Command::SetFilter(Filter::Favourites) }
            else if c == '5' { Command::EnterFriends }
            else if c == 's' { Command::CycleSort }
            else if c == 'a' { Command::OpenAchievements }
            else if c == 'F' { Command::ToggleFriendsFocus }
            else if c == 'I' { Command::OpenInventory }
            else if c == 'm' { Command::OpenMarket }
            else if c == 'S' { Command::OpenMarketSearch }
            else if c == 'W' { Command::OpenWorkshop }
            else if c == 'i' { Command::ToggleDescription }
            else if c == 'j' { Command::Down(Layer::List) }
            else if c == 'k' { Command::Up(Layer::List) }
            else if c == 'g' { Command::Home }
            else if c == 'G' { Command::End }
            else if c == '\n' { Command::Submit(Layer::List) }
            else if c == 'd' { Command::Install }
            else if c == ' ' { Command::TogglePause }
            else if c == 'c' { Command::CancelInstall }
            else if c == 'x' { Command::AskUninstall }
            else if c == 'M' { Command::OpenMove }
            else if c == 'K' { Command::OpenRelink }
            else if c == 'N' { Command::OpenImport }
            else if c == 'v' { Command::Verify }
            else if c == 'U' { Command::Update }
            else if c == 'D' { Command::OpenDlc }
            else if c == 'b' { Command::OpenBranches }
            else if c == 'P' { Command::OpenProton }
            else if c == 'R' { Command::OpenRunning }
            else if c == 'f' { Command::ToggleFavourite }
            else if c == 'H' { Command::HideGame }
            else if c == 'C' { Command::OpenCloud }
            else if c == 'o' { Command::OpenDepots }
            else if c == 'L' { Command::OpenLaunchOptions }
            else { Command::Nothing }
        },
        _ => Command::Nothing,
    }
}

/// What `key` asks for in `layer`.
pub open spec fn binding(layer: Layer, k: Key) -> Command {
    match layer {
        Layer::Cloud => {
            if is_close(k) { Command::Close(layer) }
            else if k == Key::Char('s') { Command::SyncCloud(CloudDirection::Both) }
            else if k == Key::Char('d') { Command::SyncCloud(CloudDirection::Down) }
            else if k == Key::Char('u') { Command::SyncCloud(CloudDirection::Up) }
            else { Command::Nothing }
        },
        Layer::Achievements | Layer::Inventory | Layer::Launch | Layer::Market | Layer::Depots
            | Layer::Workshop | Layer::InstallPicker | Layer::Dlc | Layer::Branches | Layer::Running
            | Layer::Proton | Layer::Config => list_keys(layer, k, overlay_keys(layer, k)),
        Layer::WorkshopComments => {
            if k == Key::Esc { Command::Close(layer) }
            else if is_down(k) { Command::Down(layer) }
            else if is_up(k) { Command::Up(layer) }
            else { Command::Nothing }
        },
        Layer::Help => {
            if is_close(k) || k == Key::Char('?') { Command::Close(layer) }
            else if is_down(k) { Command::Down(layer) }
            else if is_up(k) { Command::Up(layer) }
            else { Command::Nothing }
        },
        Layer::Chat | Layer::FriendAdd | Layer::MarketSearch | Layer::WorkshopBrowse | Layer::Move
            | Layer::Relink | Layer::Import | Layer::Filtering => field_keys(layer, k, field_extra(layer, k)),
        Layer::FriendRemove | Layer::ConfirmInstall | Layer::ConfirmUninstall | Layer::ProtonUninstall =>
            Command::Answer(layer, is_yes(k)),
        Layer::Account => Command::Answer(layer, k == Key::Char('o')),
        Layer::Wallet => Command::Close(layer),
        Layer::Friends => {
            if is_close(k) || k == Key::Char('F') { Command::Close(layer) }
            else if k == Key::Enter || k == Key::Char('c') { Command::OpenChat }
            else if k == Key::Char('t') { Command::ChatWindow }
            else if k == Key::Char('a') { Command::OpenFriendAdd }
            else if k == Key::Char('x') { Command::AskFriendRemove }
            else if is_down(k) { Command::Down(layer) }
            else if is_up(k) { Command::Up(layer) }
            else if k == Key::Tab { Command::CycleFilter(true) }
            else if k == Key::BackTab { Command::CycleFilter(false) }
            else { Command::Nothing }
        },
        Layer::List => list_binding(k),
    }
}

/// On the library list, `d` and only `d` starts an install, and `x` and
/// only `x` asks to uninstall.
pub proof fn lemma_list_install_keys(k: Key)
    ensures
        binding(Layer::List, k) == Command::Install <==> k == Key::Char('d'),
        binding(Layer::List, k) == Command::AskUninstall <==> k == Key::Char('x'),
{
}

/// On the library list every command has one key, but for moving down
/// (Down or `j`), moving up (Up or `k`) and running the game (Enter or a
/// newline): two different keys that give the same command are one of
/// those pairs.
pub proof fn lemma_list_one_key_per_command(k1: Key, k2: Key)
    requires
        k1 != k2,
        binding(Layer::List, k1) == binding(Layer::List, k2),
        binding(Layer::List, k1) != Command::Nothing,
    ensures
        ({
            let pair = |a: Key, b: Key| (k1 == a && k2 == b) || (k1 == b && k2 == a);
            pair(Key::Down, Key::Char('j')) || pair(Key::Up, Key::Char('k')) || pair(Key::Enter, Key::Char('\n'))
        }),
{
}

/// The own keys of a list overlay, after closing and moving.
pub open spec fn overlay_keys(layer: Layer, k: Key) -> Command {
    match layer {
        Layer::Workshop => if k == Key::Char('b') { Command::EnterWorkshopBrowse } else { Command::Nothing },
        Layer::InstallPicker => if is_enter(k) { Command::Submit(layer) } else { Command::Nothing },
        Layer::Dlc => {
            if k == Key::Char('e') { Command::SetDlc(true) }
            else if k == Key::Char('x') { Command::SetDlc(false) }
            else { Command::Nothing }
        },
        Layer::Branches => if is_enter(k) || k == Key::Char('s') { Command::Submit(layer) } else { Command::Nothing },
        Layer::Running => if k == Key::Char('s') || k == Key::Char('x') { Command::StopRunning } else { Command::Nothing },
        Layer::Proton => {
            if k == Key::Char('d') { Command::ProtonDefault }
            else if k == Key::Char('i') { Command::ProtonInstall }
            else if k == Key::Char('u') { Command::AskProtonUninstall }
            else { Command::Nothing }
        },
        Layer::Config => if k == Key::Char('o') { Command::TogglePresence } else { Command::Nothing },
        _ => Command::Nothing,
    }
}

/// The own keys of a text field, before erasing and typing.
pub open spec fn field_extra(layer: Layer, k: Key) -> Command {
    match layer {
        Layer::FriendAdd => if k == Key::Char('a') { Command::FriendAddConfirm } else { Command::Nothing },
        Layer::MarketSearch => {
            if k == Key::Down { Command::Down(layer) }
            else if k == Key::Up { Command::Up(layer) }
            else if k == Key::Tab { Command::LookupPrice }
            else { Command::Nothing }
        },
        Layer::WorkshopBrowse => {
            if k == Key::Down { Command::Down(layer) }
            else if k == Key::Up { Command::Up(layer) }
            else if k == Key::Tab { Command::ToggleSubscribe }
            else if k == Key::F(1) { Command::Rate(true) }
            else if k == Key::F(2) { Command::Rate(false) }
            else if k == Key::F(3) { Command::OpenComments }
            else { Command::Nothing }
        },
        Layer::Filtering => {
            if k == Key::Down { Command::Down(layer) }
            else if k == Key::Up { Command::Up(layer) }
            else { Command::Nothing }
        },
        _ => Command::Nothing,
    }
}

fn key_is(k: Key, c: char) -> (b: bool)
    ensures
        b == (k == Key::Char(c)),
{
    match k {
        Key::Char(x) => x == c,
        _ => false,
    }
}

fn list_keys_exec(l: Layer, k: Key, other: Command) -> (c: Command)
    ensures
        c == list_keys(l, k, other),
{
    if k == Key::Esc || key_is(k, 'q') {
        Command::Close(l)
    } else if k == Key::Down || key_is(k, 'j') {
        Command::Down(l)
    } else if k == Key::Up || key_is(k, 'k') {
        Command::Up(l)
    } else {
        other
    }
}

fn field_keys_exec(l: Layer, k: Key, other: Command) -> (c: Command)
    ensures
        c == field_keys(l, k, other),
{
    if k == Key::Esc {
        Command::Close(l)
    } else if k == Key::Enter || key_is(k, '\n') {
        Command::Submit(l)
    } else if other != Command::Nothing {
        other
    } else {
        match k {
            Key::Backspace => Command::Erase(l),
            Key::Char(c) => Command::Type(l, c),
            _ => Command::Nothing,
        }
    }
}

fn overlay_keys_exec(layer: Layer, k: Key) -> (c: Command)
    ensures
        c == overlay_keys(layer, k),
{
    match layer {
        Layer::Workshop => if key_is(k, 'b') { Command::EnterWorkshopBrowse } else { Command::Nothing },
        Layer::InstallPicker => if k == Key::Enter || key_is(k, '\n') { Command::Submit(layer) } else { Command::Nothing },
        Layer::Dlc => {
            if key_is(k, 'e') { Command::SetDlc(true) }
            else if key_is(k, 'x') { Command::SetDlc(false) }
            else { Command::Nothing }
        },
        Layer::Branches => if k == Key::Enter || key_is(k, '\n') || key_is(k, 's') { Command::Submit(layer) } else { Command::Nothing },
        Layer::Running => if key_is(k, 's') || key_is(k, 'x') { Command::StopRunning } else { Command::Nothing },
        Layer::Proton => {
            if key_is(k, 'd') { Command::ProtonDefault }
            else if key_is(k, 'i') { Command::ProtonInstall }
            else if key_is(k, 'u') { Command::AskProtonUninstall }
            else { Command::Nothing }
        },
        Layer::Config => if key_is(k, 'o') { Command::TogglePresence } else { Command::Nothing },
        _ => Command::Nothing,
    }
}

fn field_extra_exec(layer: Layer, k: Key) -> (c: Command)
    ensures
        c == field_extra(layer, k),
{
    match layer {
        Layer::FriendAdd => if key_is(k, 'a') { Command::FriendAddConfirm } else { Command::Nothing },
        Layer::MarketSearch => {
            if k == Key::Down { Command::Down(layer) }
            else if k == Key::Up { Command::Up(layer) }
            else if k == Key::Tab { Command::LookupPrice }
            else { Command::Nothing }
        },
        Layer::WorkshopBrowse => {
            if k == Key::Down { Command::Down(layer) }
            else if k == Key::Up { Command::Up(layer) }
            else if k == Key::Tab { Command::ToggleSubscribe }
            else if k == Key::F(1) { Command::Rate(true) }
            else if k == Key::F(2) { Command::Rate(false) }
            else if k == Key::F(3) { Command::OpenComments }
            else { Command::Nothing }
        },
        Layer::Filtering => {
            if k == Key::Down { Command::Down(layer) }
            else if k == Key::Up { Command::Up(layer) }
            else { Command::Nothing }
        },
        _ => Command::Nothing,
    }
}

fn list_binding_exec(k: Key) -> (r: Command)
    ensures
        r == list_binding(k),
{
    match k {
        Key::Tab => Command::CycleFilter(true),
        Key::BackTab => Command::CycleFilter(false),
        Key::Down => Command::Down(Layer::List),
        Key::Up => Command::Up(Layer::List),
        Key::PageDown => Command::PageDown,
        Key::PageUp => Command::PageUp,
        Key::Enter => Command::Submit(Layer::List),
        Key::Char(c) => {
            if c == 'q' { Command::Quit }
            else if c == '?' { Command::OpenHelp }
            else if c == 'A' { Command::OpenAccount }
            else if c == 'p' { Command::OpenConfig }
            else if c == 'w' { Command::OpenWallet }
            else if c == '/' { Command::StartFilter }
            else if c == 'l' { Command::SignIn }
            else if c == 'r' { Command::Reload }
            else if c == '1' { Command::SetFilter(Filter::All) }
            else if c == '2' { Command::SetFilter(Filter::Installed) }
            else if c == '3' { Command::SetFilter(Filter::Updates) }
            else if c == '4' { Command::SetFilter(Filter::Favourites) }
            else if c == '5' { Command::EnterFriends }
            else if c == 's' { Command::CycleSort }
            else if c == 'a' { Command::OpenAchievements }
            else if c == 'F' { Command::ToggleFriendsFocus }
            else if c == 'I' { Command::OpenInventory }
            else if c == 'm' { Command::OpenMarket }
            else if c == 'S' { Command::OpenMarketSearch }
            else if c == 'W' { Command::OpenWorkshop }
            else if c == 'i' { Command::ToggleDescription }
            else if c == 'j' { Command::Down(Layer::List) }
            else if c == 'k' { Command::Up(Layer::List) }
            else if c == 'g' { Command::Home }
            else if c == 'G' { Command::End }
            else if c == '\n' { Command::Submit(Layer::List) }
            else if c == 'd' { Command::Install }
            else if c == ' ' { Command::TogglePause }
            else if c == 'c' { Command::CancelInstall }
            else if c == 'x' { Command::AskUninstall }
            else if c == 'M' { Command::OpenMove }
            else if c == 'K' { Command::OpenRelink }
            else if c == 'N' { Command::OpenImport }
            else if c == 'v' { Command::Verify }
            else if c == 'U' { Command::Update }
            else if c == 'D' { Command::OpenDlc }
            else if c == 'b' { Command::OpenBranches }
            else if c == 'P' { Command::OpenProton }
            else if c == 'R' { Command::OpenRunning }
            else if c == 'f' { Command::ToggleFavourite }
            else if c == 'H' { Command::HideGame }
            else if c == 'C' { Command::OpenCloud }
            else if c == 'o' { Command::OpenDepots }
            else if c == 'L' { Command::OpenLaunchOptions }
            else { Command::Nothing }
        },
        _ => Command::Nothing,
    }
}

/// What `key` asks for in `layer` (see [`binding`]).
pub fn command_for(layer: Layer, k: Key) -> (c: Command)
    ensures
        c == binding(layer, k),
{
    match layer {
        Layer::Cloud => {
            if k == Key::Esc || key_is(k, 'q') { Command::Close(layer) }
            else if key_is(k, 's') { Command::SyncCloud(CloudDirection::Both) }
            else if key_is(k, 'd') { Command::SyncCloud(CloudDirection::Down) }
            else if key_is(k, 'u') { Command::SyncCloud(CloudDirection::Up) }
            else { Command::Nothing }
        },
        Layer::Achievements | Layer::Inventory | Layer::Launch | Layer::Market | Layer::Depots
            | Layer::Workshop | Layer::InstallPicker | Layer::Dlc | Layer::Branches | Layer::Running
            | Layer::Proton | Layer::Config => {
            let other = overlay_keys_exec(layer, k);
            list_keys_exec(layer, k, other)
        },
        Layer::WorkshopComments => {
            if k == Key::Esc { Command::Close(layer) }
            else if k == Key::Down || key_is(k, 'j') { Command::Down(layer) }
            else if k == Key::Up || key_is(k, 'k') { Command::Up(layer) }
            else { Command::Nothing }
        },
        Layer::Help => {
            if k == Key::Esc || key_is(k, 'q') || key_is(k, '?') { Command::Close(layer) }
            else if k == Key::Down || key_is(k, 'j') { Command::Down(layer) }
            else if k == Key::Up || key_is(k, 'k') { Command::Up(layer) }
            else { Command::Nothing }
        },
        Layer::Chat | Layer::FriendAdd | Layer::MarketSearch | Layer::WorkshopBrowse | Layer::Move
            | Layer::Relink | Layer::Import | Layer::Filtering => {
            let other = field_extra_exec(layer, k);
            field_keys_exec(layer, k, other)
        },
        Layer::FriendRemove | Layer::ConfirmInstall | Layer::ConfirmUninstall | Layer::ProtonUninstall =>
            Command::Answer(layer, key_is(k, 'y') || key_is(k, 'Y')),
        Layer::Account => Command::Answer(layer, key_is(k, 'o')),
        Layer::Wallet => Command::Close(layer),
        Layer::Friends => {
            if k == Key::Esc || key_is(k, 'q') || key_is(k, 'F') { Command::Close(layer) }
            else if k == Key::Enter || key_is(k, 'c') { Command::OpenChat }
            else if key_is(k, 't') { Command::ChatWindow }
            else if key_is(k, 'a') { Command::OpenFriendAdd }
            else if key_is(k, 'x') { Command::AskFriendRemove }
            else if k == Key::Down || key_is(k, 'j') { Command::Down(layer) }
            else if k == Key::Up || key_is(k, 'k') { Command::Up(layer) }
            else if k == Key::Tab { Command::CycleFilter(true) }
            else if k == Key::BackTab { Command::CycleFilter(false) }
            else { Command::Nothing }
        },
        Layer::List => list_binding_exec(k),
    }
}

} // verus!
