//! A library entry and its live install status.

use vstd::prelude::*;
use crate::aurelia::{InfoJson, LibraryGameJson};
use crate::config::{Config, contains_id, contains_type};
use crate::text::{concat, owned, join, join_strings, views};

verus! {

/// The kind of a Steam app.
#[derive(PartialEq, Eq, Debug, Clone, Copy, Structural)]
pub enum GameType {
    Game,
    DLC,
    Driver,
    Application,
    Config,
    Demo,
    Tool,
    Unknown,
}

/// The live state of an install, download or launch.
#[derive(Debug, Clone)]
pub struct GameStatus {
    /// Human-readable state, e.g. `downloading 42.0%` or `Installed!`.
    pub state: String,
    pub installdir: String,
    /// The install size in bytes.
    pub size: u64,
}

impl GameStatus {
    /// A new status with the message `data`, keeping the install directory and
    /// size of the previous status, if any.
    pub fn msg(maybe_status: &Option<GameStatus>, data: &str) -> (r: GameStatus)
        ensures
            r.state@ == data@,
            r.installdir@ == (match maybe_status {
                Some(s) => s.installdir@,
                None => Seq::empty(),
            }),
            r.size == (match maybe_status {
                Some(s) => s.size,
                None => 0,
            }),
    {
        match maybe_status {
            Some(status) => GameStatus { state: owned(data), installdir: owned(status.installdir.as_str()), size: status.size },
            None => GameStatus { state: owned(data), installdir: String::new(), size: 0 },
        }
    }
}

/// A game of the library.
#[derive(Debug, Clone)]
pub struct Game {
    pub id: i32,
    pub name: String,
    pub developer: String,
    pub homepage: String,
    pub publisher: String,
    pub game_type: GameType,
    /// The wide background art.
    pub icon_url: Option<String>,
    /// The portrait cover art.
    pub cover_url: Option<String>,
    pub installed: bool,
    pub install_dir: String,
    pub update_available: bool,
    /// The install size in bytes (the library listing carries none).
    pub size: u64,
    /// A status set by an in-flight install, update or launch.
    pub status: Option<GameStatus>,
    /// Store metadata, once fetched.
    pub info: Option<InfoJson>,
    /// The ProtonDB tier, once fetched.
    pub proton_tier: Option<String>,
    /// The store metadata has been asked for.
    pub info_requested: bool,
}

/// The derived state of a game without a live status.
pub open spec fn steady_state(installed: bool, update_available: bool) -> Seq<char> {
    if !installed {
        "uninstalled"@
    } else if update_available {
        "update available"@
    } else {
        "installed"@
    }
}

/// The state string of a game's status: the live one, else the derived one.
pub open spec fn state_of(g: Game) -> Seq<char> {
    match g.status {
        Some(s) => s.state@,
        None => steady_state(g.installed, g.update_available),
    }
}

pub open spec fn first_some(a: Option<String>, b: Option<String>, c: Option<String>) -> Option<String> {
    if a is Some { a } else if b is Some { b } else { c }
}

/// Where the game lives: the live status's directory, else the listed one.
pub open spec fn installdir_of(g: Game) -> Seq<char> {
    match g.status {
        Some(s) => s.installdir@,
        None => g.install_dir@,
    }
}

/// The name shown in the list: a heart marks favourites.
pub open spec fn shown_name(g: Game, config: Config) -> Seq<char> {
    if config.favorite_games@.contains(g.id) {
        "\u{2661} "@ + g.name@
    } else {
        g.name@
    }
}

/// The developers from the store, joined by commas, else the listed one.
pub open spec fn developer_text(g: Game) -> Seq<char> {
    match g.info {
        Some(i) if i.developers@.len() > 0 => join(views(i.developers@), ", "@),
        _ => g.developer@,
    }
}

/// The publishers from the store, joined by commas, else the listed one.
pub open spec fn publisher_text(g: Game) -> Seq<char> {
    match g.info {
        Some(i) if i.publishers@.len() > 0 => join(views(i.publishers@), ", "@),
        _ => g.publisher@,
    }
}

/// The store description, empty until fetched.
pub open spec fn description_text(g: Game) -> Seq<char> {
    match g.info {
        Some(i) => i.description@,
        None => Seq::empty(),
    }
}

/// The ProtonDB tier, `-` until known.
pub open spec fn proton_text(g: Game) -> Seq<char> {
    match g.proton_tier {
        Some(t) => t@,
        None => "-"@,
    }
}

fn clone_opt(o: &Option<String>) -> (r: Option<String>)
    ensures
        r == *o,
{
    match o {
        Some(s) => Some(s.clone()),
        None => None,
    }
}

impl Game {
    /// A game from one `aurelia list --json` entry. Developer and publisher
    /// start as `-` until the store metadata arrives; the type is `Game`.
    pub fn from_library(entry: LibraryGameJson) -> (g: Game)
        ensures
            g.id == entry.app_id as i32,
            g.name == entry.name,
            g.developer@ == "-"@,
            g.publisher@ == "-"@,
            g.homepage@ == (match entry.store_url { Some(u) => u@, None => Seq::empty() }),
            g.game_type == GameType::Game,
            g.icon_url == (match entry.assets {
                Some(a) => first_some(a.header, a.capsule, a.hero),
                None => None,
            }),
            g.cover_url == (match entry.assets {
                Some(a) => first_some(a.capsule, a.header, a.hero),
                None => None,
            }),
            g.installed == entry.is_installed,
            g.install_dir@ == (match entry.install_path { Some(p) => p@, None => Seq::empty() }),
            g.update_available == entry.update_available,
            g.size == 0,
            g.status is None,
            g.info is None,
            g.proton_tier is None,
    {
        let (icon_url, cover_url) = match &entry.assets {
            Some(a) => {
                let icon = if a.header.is_some() {
                    clone_opt(&a.header)
                } else if a.capsule.is_some() {
                    clone_opt(&a.capsule)
                } else {
                    clone_opt(&a.hero)
                };
                let cover = if a.capsule.is_some() {
                    clone_opt(&a.capsule)
                } else if a.header.is_some() {
                    clone_opt(&a.header)
                } else {
                    clone_opt(&a.hero)
                };
                (icon, cover)
            },
            None => (None, None),
        };
        let homepage = match entry.store_url {
            Some(u) => u,
            None => String::new(),
        };
        let install_dir = match entry.install_path {
            Some(p) => p,
            None => String::new(),
        };
        Game {
            id: entry.app_id as i32,
            name: entry.name,
            developer: owned("-"),
            homepage,
            publisher: owned("-"),
            game_type: GameType::Game,
            icon_url,
            cover_url,
            installed: entry.is_installed,
            install_dir,
            update_available: entry.update_available,
            size: 0,
            status: None,
            info: None,
            proton_tier: None,
            info_requested: false,
        }
    }

    /// The raw display name, for sorting.
    pub fn raw_name(&self) -> (r: &str)
        ensures
            r@ == self.name@,
    {
        self.name.as_str()
    }

    /// The name shown in the list: a heart marks favourites.
    pub fn get_name(&self, config: &Config) -> (r: String)
        ensures
            r@ == shown_name(*self, *config),
    {
        if contains_id(&config.favorite_games, self.id) {
            concat("\u{2661} ", self.name.as_str())
        } else {
            owned(self.name.as_str())
        }
    }

    /// Whether the game is one of the favourites.
    pub fn is_favourite(&self, config: &Config) -> (b: bool)
        ensures
            b == config.favorite_games@.contains(self.id),
    {
        contains_id(&config.favorite_games, self.id)
    }

    /// Whether the game may be listed: not hidden, and of an allowed type.
    pub fn is_valid(&self, config: &Config) -> (b: bool)
        ensures
            b == (!config.hidden_games@.contains(self.id) && config.allowed_games@.contains(self.game_type)),
    {
        !contains_id(&config.hidden_games, self.id) && contains_type(&config.allowed_games, self.game_type)
    }

    /// The current state text: the live status, else `uninstalled`,
    /// `update available` or `installed` from the listing.
    pub fn state_text(&self) -> (r: String)
        ensures
            r@ == state_of(*self),
    {
        match &self.status {
            Some(s) => owned(s.state.as_str()),
            None => if !self.installed {
                owned("uninstalled")
            } else if self.update_available {
                owned("update available")
            } else {
                owned("installed")
            },
        }
    }

    /// The current status: the live one, else one derived from the listing.
    pub fn get_status(&self) -> (r: GameStatus)
        ensures
            r.state@ == state_of(*self),
            r.installdir@ == installdir_of(*self),
            r.size == (match self.status {
                Some(s) => s.size,
                None => self.size,
            }),
    {
        match &self.status {
            Some(s) => GameStatus { state: owned(s.state.as_str()), installdir: owned(s.installdir.as_str()), size: s.size },
            None => GameStatus { state: self.state_text(), installdir: owned(self.install_dir.as_str()), size: self.size },
        }
    }

    /// The developers from the store, joined by commas, else the listed one.
    pub fn get_developer(&self) -> (r: String)
        ensures
            r@ == developer_text(*self),
    {
        match &self.info {
            Some(i) if i.developers.len() > 0 => join_strings(&i.developers, ", "),
            _ => owned(self.developer.as_str()),
        }
    }

    /// The publishers from the store, joined by commas, else the listed one.
    pub fn get_publisher(&self) -> (r: String)
        ensures
            r@ == publisher_text(*self),
    {
        match &self.info {
            Some(i) if i.publishers.len() > 0 => join_strings(&i.publishers, ", "),
            _ => owned(self.publisher.as_str()),
        }
    }

    /// The store description, once fetched.
    pub fn get_description(&self) -> (r: String)
        ensures
            r@ == description_text(*self),
    {
        match &self.info {
            Some(i) => owned(i.description.as_str()),
            None => String::new(),
        }
    }

    /// The ProtonDB tier, `-` until known.
    pub fn get_proton(&self) -> (r: String)
        ensures
            r@ == proton_text(*self),
    {
        match &self.proton_tier {
            Some(t) => owned(t.as_str()),
            None => owned("-"),
        }
    }

    /// Marks the ProtonDB tier as being fetched (`-` until it arrives) and
    /// answers whether the fetch is due: only the first time.
    pub fn query_proton(&mut self) -> (fetch: bool)
        ensures
            fetch == (old(self).proton_tier is None),
            fetch ==> final(self).proton_tier is Some && final(self).proton_tier->0@ == "-"@,
            !fetch ==> final(self).proton_tier == old(self).proton_tier,
            final(self).id == old(self).id,
    {
        if self.proton_tier.is_none() {
            self.proton_tier = Some(owned("-"));
            true
        } else {
            false
        }
    }

    /// Marks the store metadata as asked for and answers whether the fetch
    /// is due: only the first time.
    pub fn query_info(&mut self) -> (fetch: bool)
        ensures
            fetch == !old(self).info_requested,
            final(self).info_requested,
            final(self).info == old(self).info,
            final(self).id == old(self).id,
    {
        if self.info_requested {
            false
        } else {
            self.info_requested = true;
            true
        }
    }
}

} // verus!
