use aurelia_tui::aurelia::{
    CloudDirection, CloudFileJson,
    ChatMessageJson, CollectionJson, DepotManifestInfo, FriendJson, FriendSearchJson, GameConfigJson, LibraryGameJson,
    MarketSearchResultJson, ProtonJson, ScriptShowJson, WorkshopCommentJson, WorkshopItemJson,
};
use aurelia_tui::browse::{Action, Browser, Filter, InstallPhase, Sort, View};
use aurelia_tui::config::Config;
use aurelia_tui::error::STError;
use aurelia_tui::game::{Game, GameStatus};
use aurelia_tui::market::MarketPriceJson;
use aurelia_tui::tools::{parse_u64, CollectionChange, ConfigCall, EngineJob, EngineVerb};
use aurelia_tui::workshop::WorkshopInbox;

fn entry(id: u32, name: &str, installed: bool, update: bool) -> LibraryGameJson {
    LibraryGameJson {
        app_id: id,
        name: name.to_string(),
        is_installed: installed,
        install_path: None,
        update_available: update,
        is_owned: true,
        is_family_shared: false,
        platform: None,
        active_branch: None,
        assets: None,
        store_url: None,
    }
}

fn game(id: u32, name: &str, installed: bool, update: bool) -> Game {
    Game::from_library(entry(id, name, installed, update))
}

fn browser(games: Vec<Game>) -> Browser {
    Browser::new(games, Config::default_config())
}

fn set_state(g: &mut Game, state: &str) {
    g.status = Some(GameStatus { state: state.to_string(), installdir: String::new(), size: 0 });
}

fn workshop_item(id: u64, title: &str, subscribed: bool) -> WorkshopItemJson {
    WorkshopItemJson { id: Some(id), title: title.to_string(), installed: false, subscribed, file_size: 0 }
}

fn friend(id: u64, name: &str) -> FriendJson {
    FriendJson {
        steam_id: id,
        persona_name: Some(name.to_string()),
        persona_state: Some(1),
        game_app_id: None,
        game_name: None,
    }
}

fn msg(text: &str, timestamp: i64) -> ChatMessageJson {
    ChatMessageJson { sender: 1, message: text.to_string(), from_self: false, timestamp }
}

fn names(b: &Browser) -> Vec<String> {
    b.visible().iter().map(|&i| b.items()[i].raw_name().to_string()).collect()
}

// --- Library browsing ---

#[test]
fn install_phase_only_tracks_started_installs() {
    let mut b = browser(vec![]);
    let mut g = game(42, "Game", false, false);
    set_state(&mut g, "downloading 12.0%");
    assert_eq!(b.install_phase(&g), InstallPhase::Idle);
    b.begin_install(42, None);
    assert_eq!(b.install_phase(&g), InstallPhase::Active);
    set_state(&mut g, "paused 12.0%");
    assert_eq!(b.install_phase(&g), InstallPhase::Paused);
    set_state(&mut g, "Installed!");
    assert_eq!(b.install_phase(&g), InstallPhase::Idle);
}

#[test]
fn poll_game_refresh_patches_install_flags_and_clears_status() {
    let mut b = browser(vec![game(99, "Game", false, false)]);
    set_state(&mut b.items[0], "Installed!");
    let mut fresh = entry(99, "Game", true, false);
    fresh.install_path = Some("dir".to_string());
    b.poll_game_refresh(vec![fresh]);
    let updated = b.items().iter().find(|x| x.id == 99).unwrap();
    assert!(updated.installed, "installed flag adopted from refreshed entry");
    assert_eq!(updated.get_status().state, "installed");
    assert_eq!(updated.install_dir, "dir");
}

#[test]
fn filter_and_query_narrow_the_view() {
    let games = vec![
        game(1, "Alpha", true, false),
        game(2, "Beta", false, false),
        game(3, "Gamma", true, true),
    ];
    let mut b = browser(games);
    assert_eq!(b.visible().len(), 3, "All shows everything");
    b.set_filter(Filter::Installed);
    assert_eq!(b.visible().len(), 2, "Installed: Alpha + Gamma");
    b.set_filter(Filter::Updates);
    assert_eq!(b.visible().len(), 1, "Updates: only Gamma");
    b.set_filter(Filter::All);
    b.push_query('l');
    let shown = names(&b);
    assert!(shown.contains(&"Alpha".to_string()));
    assert!(!shown.contains(&"Beta".to_string()));
}

#[test]
fn counts_reflect_library() {
    let b = browser(vec![
        game(1, "Alpha", true, false),
        game(2, "Beta", false, false),
        game(3, "Gamma", true, true),
    ]);
    let c = b.counts();
    assert_eq!(c.total, 3);
    assert_eq!(c.installed, 2);
    assert_eq!(c.updates, 1);
    assert_eq!(c.visible, 3);
}

#[test]
fn names_sort_case_insensitively_and_installed_first_on_request() {
    let mut b = browser(vec![
        game(1, "beta", true, false),
        game(2, "Alpha", false, false),
        game(3, "gamma", true, false),
    ]);
    assert_eq!(names(&b), vec!["Alpha", "beta", "gamma"]);
    b.cycle_sort();
    assert_eq!(b.sort, Sort::Installed);
    assert_eq!(names(&b), vec!["beta", "gamma", "Alpha"]);
}

#[test]
fn selection_wraps_round_the_list() {
    let mut b = browser(vec![game(1, "A", true, false), game(2, "B", true, false), game(3, "C", true, false)]);
    assert_eq!(b.selected_index(), Some(0));
    b.previous();
    assert_eq!(b.selected_index(), Some(2));
    b.next();
    assert_eq!(b.selected_index(), Some(0));
    b.page_down(10);
    assert_eq!(b.selected_index(), Some(2));
    b.home();
    assert_eq!(b.selected_index(), Some(0));
    assert_eq!(b.selected().map(|g| g.id), Some(1));
}

#[test]
fn tab_ring_reaches_friends_and_back() {
    let mut b = browser(vec![game(1, "A", true, false)]);
    for _ in 0..4 {
        b.cycle_filter(true);
    }
    assert_eq!(b.view, View::Friends);
    assert!(b.friends.loading, "the roster is asked for on first entry");
    assert!(b.friends.refresh_requested);
    b.cycle_filter(true);
    assert_eq!(b.view, View::Library);
    assert_eq!(b.filter, Filter::All);
}

#[test]
fn favourites_toggle_back() {
    let mut c = Config::default_config();
    c.toggle_favourite(5);
    assert!(c.is_favourite(5));
    c.toggle_favourite(5);
    assert!(!c.is_favourite(5));
}

// --- The actions menu ---

#[test]
fn action_candidates_depend_on_install_state() {
    let mut b = browser(vec![game(1, "Alpha", true, false)]);
    let actions: Vec<Action> = b.action_candidates().iter().map(|r| r.action).collect();
    assert!(actions.contains(&Action::Play), "installed game can Play");
    assert!(actions.contains(&Action::Update), "installed game can Update");
    assert!(actions.contains(&Action::Uninstall), "installed game can Uninstall");
    assert!(actions.contains(&Action::Move), "installed game can Move");
    assert!(!actions.contains(&Action::Install), "installed game hides Install");
    assert!(actions.contains(&Action::Versions), "Versions & pinning listed");
    assert!(actions.contains(&Action::Collections), "Collections listed");
    assert!(actions.contains(&Action::Engine), "Runtime plugins listed");
    assert!(actions.contains(&Action::GameSettings), "Game settings listed");

    b = browser(vec![game(2, "Beta", false, false)]);
    let actions: Vec<Action> = b.action_candidates().iter().map(|r| r.action).collect();
    assert!(actions.contains(&Action::Install), "uninstalled game can Install");
    assert!(!actions.contains(&Action::Play), "uninstalled game hides Play");
    assert!(!actions.contains(&Action::Uninstall), "uninstalled game hides Uninstall");
    assert!(!actions.contains(&Action::Move), "uninstalled game hides Move");
}

#[test]
fn actions_filter_narrows_and_selection_tracks() {
    let mut b = browser(vec![game(1, "Alpha", true, false)]);
    b.open_actions();
    let full = b.filtered_actions().len();
    assert!(full > 5, "menu lists many actions when unfiltered");
    for c in "collect".chars() {
        b.actions_filter_push(c);
    }
    let filtered = b.filtered_actions();
    assert_eq!(filtered.len(), 1, "only Collections matches 'collect'");
    assert_eq!(filtered[0].action, Action::Collections);
    assert_eq!(b.selected_action(), Some(Action::Collections));
    b.actions_filter_pop();
    assert!(b.filtered_actions().len() >= 1, "backspacing the filter re-widens the list");
}

// --- Workshop ---

#[test]
fn workshop_browse_mode_toggles() {
    let mut b = browser(vec![game(1, "Alpha", true, false)]);
    b.workshop.show = true;
    b.workshop.browse = true;
    b.workshop.query = "x".to_string();
    b.workshop_exit_browse();
    assert!(!b.workshop.browse, "back to the subscribed list");
    b.close_workshop();
    assert!(!b.workshop.show, "overlay closed");
    assert!(!b.workshop.browse, "browse state reset on close");
    assert!(b.workshop.query.is_empty(), "query cleared on close");
}

#[test]
fn workshop_result_navigation_clamps() {
    let mut b = browser(vec![game(1, "Alpha", true, false)]);
    b.workshop.show = true;
    b.workshop.browse = true;
    b.workshop.results = vec![workshop_item(10, "Mod A", false), workshop_item(20, "Mod B", true)];
    b.workshop.index = 0;
    b.workshop_previous();
    assert_eq!(b.workshop.index, 0, "cannot go above the first row");
    b.workshop_next();
    assert_eq!(b.workshop.index, 1, "moved to the second row");
    b.workshop_next();
    assert_eq!(b.workshop.index, 1, "cannot go past the last row");
    let sel = b.selected_workshop_result().expect("a row is selected");
    assert_eq!(sel.id, Some(20));
}

#[test]
fn workshop_comments_state_resets() {
    let mut b = browser(vec![game(1, "Alpha", true, false)]);
    b.workshop.show = true;
    b.workshop.browse = true;
    b.workshop.comments_open = true;
    b.workshop.comments =
        vec![WorkshopCommentJson { author: "Ada".to_string(), message: "great mod".to_string(), timestamp: 0 }];
    b.workshop.comments_scroll = 0;
    b.workshop_comments_scroll_down();
    assert_eq!(b.workshop.comments_scroll, 0, "scroll clamps on a single comment");
    b.close_workshop_comments();
    assert!(!b.workshop.comments_open, "sub-pane closed and reset");
    assert!(b.workshop.comments.is_empty(), "comments dropped on close");
    b.workshop.comments_open = true;
    b.workshop_exit_browse();
    assert!(!b.workshop.comments_open, "leaving browse closes the comments sub-pane");
}

fn poll_search(b: &mut Browser, posted: Option<(u64, Result<Vec<WorkshopItemJson>, String>)>) -> bool {
    let mut inbox = WorkshopInbox::empty();
    inbox.search = posted;
    b.poll_workshop(&mut inbox)
}

#[test]
fn a_superseded_workshop_search_is_dropped() {
    let mut b = browser(vec![game(1, "Alpha", true, false)]);
    b.open_workshop(1, vec![workshop_item(5, "Sub", true)]);
    let first = b.workshop_enter_browse().expect("the first search starts");
    b.workshop_push_query('a');
    let second = b.start_workshop_search();
    assert_ne!(first.2, second.2);
    assert_eq!(second.1, "a");
    // The first search's answer arrives late: dropped, the poll stops there.
    assert!(!poll_search(&mut b, Some((first.2, Ok(vec![workshop_item(1, "Old", false)])))));
    assert!(b.workshop.results.is_empty());
    assert!(b.workshop.searching);
    // The second search's answer is shown.
    assert!(poll_search(&mut b, Some((second.2, Ok(vec![workshop_item(2, "New", false)])))));
    assert_eq!(b.workshop.results.len(), 1);
    assert_eq!(b.workshop.results[0].title, "New");
    assert!(!b.workshop.searching);
    // An empty answer says so.
    let third = b.start_workshop_search();
    assert!(poll_search(&mut b, Some((third.2, Ok(vec![])))));
    assert_eq!(b.workshop.status, "No matches.");
    let fourth = b.start_workshop_search();
    assert!(poll_search(&mut b, Some((fourth.2, Err("offline".to_string())))));
    assert_eq!(b.workshop.status, "Browse failed: offline");
}

#[test]
fn workshop_subscribe_flips_the_matching_rows() {
    let mut b = browser(vec![game(1, "Alpha", true, false)]);
    b.open_workshop(1, vec![]);
    b.workshop.browse = true;
    b.workshop.results = vec![workshop_item(10, "A", false), workshop_item(20, "B", false)];
    b.workshop.index = 1;
    let job = b.workshop_toggle_subscribe_selected().expect("a request");
    assert_eq!(job, (20, true, 1, b.workshop.gen));
    assert_eq!(b.workshop.status, "Subscribing\u{2026}");
    assert_eq!(b.workshop_toggle_subscribe_selected(), None, "one request at a time");
    b.workshop_adopt_action(Some((20, true, Ok(()))));
    assert!(b.workshop.results[1].subscribed);
    assert!(!b.workshop.results[0].subscribed);
    assert_eq!(b.workshop.status, "Subscribed.");
    assert!(!b.workshop.acting);
    b.workshop_adopt_action(Some((10, true, Err("denied".to_string()))));
    assert_eq!(b.workshop.status, "Subscribe failed: denied");
    assert!(!b.workshop.results[0].subscribed);
}

#[test]
fn workshop_rating_and_comments_follow_the_generation() {
    let mut b = browser(vec![game(1, "Alpha", true, false)]);
    b.open_workshop(1, vec![]);
    b.workshop.results = vec![workshop_item(10, "A", false)];
    let (id, up, gen) = b.workshop_rate_selected(true).expect("a rating");
    assert_eq!((id, up), (10, true));
    assert_eq!(b.workshop.status, "Rating up\u{2026}");
    b.workshop_adopt_rating(Some((gen, Ok(()))));
    assert_eq!(b.workshop.status, "Rated.");
    assert!(!b.workshop.rating);
    let (cid, cgen) = b.workshop_open_comments().expect("a fetch");
    assert_eq!(cid, 10);
    assert_eq!(b.workshop_comments_id(), 10);
    b.workshop_adopt_comments(Some((cgen, Ok(vec![]))));
    assert_eq!(b.workshop.comments_status, "No comments.");
    b.close_workshop_comments();
    // A fetch for the closed sub-pane is dropped.
    b.workshop.comments_open = true;
    b.workshop_adopt_comments(Some((cgen, Err("late".to_string()))));
    assert!(b.workshop.comments_status.is_empty());
    // A refreshed subscribed list of the current generation is adopted.
    let g = b.workshop.gen;
    b.workshop.scroll = 5;
    b.workshop_adopt_refresh(Some((g, vec![workshop_item(1, "X", true), workshop_item(2, "Y", true)])));
    assert_eq!(b.workshop.items.len(), 2);
    assert_eq!(b.workshop.scroll, 1);
}

// --- Market search ---

fn result(name: &str, hash: &str, price: u64, text: &str) -> MarketSearchResultJson {
    MarketSearchResultJson {
        app_id: 440,
        app_name: "Team Fortress 2".to_string(),
        market_hash_name: hash.to_string(),
        name: name.to_string(),
        sell_listings: 1,
        sell_price: price,
        sell_price_text: text.to_string(),
    }
}

#[test]
fn search_result_tolerates_partial_json() {
    let empty = result("", "", 0, "");
    assert!(empty.market_hash_name.is_empty());
    assert_eq!(empty.display_name(), "(unnamed item)");
    assert!(empty.price_text().is_empty());
    let full = result("Mann Co. Supply Crate Key", "Mann Co. Supply Crate Key", 234, "$2.34");
    assert_eq!(full.app_id, 440);
    assert_eq!(full.display_name(), "Mann Co. Supply Crate Key");
    assert_eq!(full.price_text(), "$2.34");
    let no_text = result("Thing", "", 199, "");
    assert_eq!(no_text.price_text(), "1.99");
}

#[test]
fn price_summary_handles_empty_and_full() {
    let empty = MarketPriceJson { market_hash_name: String::new(), lowest_price: None, median_price: None, volume: None };
    assert!(empty.summary().is_none());
    let full = MarketPriceJson {
        market_hash_name: "Mann Co. Supply Crate Key".to_string(),
        lowest_price: Some("$2.34".to_string()),
        median_price: Some("$2.34".to_string()),
        volume: Some("69,730".to_string()),
    };
    let summary = full.summary().expect("full payload summarises");
    assert!(summary.contains("low $2.34"));
    assert!(summary.contains("median $2.34"));
    assert!(summary.contains("vol 69,730"));
    assert_eq!(summary, "low $2.34, median $2.34, vol 69,730");
}

#[test]
fn overlay_state_transitions() {
    let mut b = browser(Vec::new());
    assert!(!b.market_search.show);
    b.open_market_search();
    assert!(b.market_search.show);
    assert!(b.market_search.query.is_empty());
    b.market_query_push('k');
    b.market_query_push('e');
    b.market_query_push('y');
    assert_eq!(b.market_search.query, "key");
    b.market_query_pop();
    assert_eq!(b.market_search.query, "ke");
    b.market_result_next();
    b.market_result_previous();
    assert!(b.selected_market_result().is_none());
    assert_eq!(b.lookup_market_price(), None);
    b.close_market_search();
    assert!(!b.market_search.show);
    assert!(b.market_search.query.is_empty());
}

#[test]
fn an_edited_market_search_is_dropped() {
    let mut b = browser(Vec::new());
    b.open_market_search();
    assert_eq!(b.submit_market_search(), None, "a blank query searches nothing");
    for c in " key ".chars() {
        b.market_query_push(c);
    }
    let (query, gen) = b.submit_market_search().expect("a search");
    assert_eq!(query, "key");
    assert_eq!(b.market_search.status, "searching...");
    b.market_query_push('s');
    b.poll_market(Some((gen, Ok(vec![result("Old", "Old", 1, "")]))), None);
    assert!(b.market_search.results.is_empty(), "the stale search is dropped");
    let (_, gen2) = b.submit_market_search().expect("a search");
    b.poll_market(Some((gen2, Ok(vec![result("A", "A", 1, ""), result("B", "", 2, "")]))), None);
    assert_eq!(b.market_search.results.len(), 2);
    assert_eq!(b.market_search.status, "2 results");
    assert_eq!(b.lookup_market_price(), Some((440, "A".to_string())));
    assert_eq!(b.market_search.status, "pricing A...");
    b.market_result_next();
    assert_eq!(b.lookup_market_price(), None);
    assert_eq!(b.market_search.status, "no item name to price");
    let price = MarketPriceJson { market_hash_name: "A".to_string(), lowest_price: None, median_price: None, volume: None };
    b.poll_market(None, Some(Ok(price)));
    assert_eq!(b.market_search.status, "A \u{2014} no price data");
    b.poll_market(None, Some(Err(STError::Problem("x".to_string()))));
    assert_eq!(b.market_search.status, "Price failed: Problem(\"x\")");
}

// --- Friends and chat ---

#[test]
fn an_edited_friend_lookup_is_not_previewed() {
    let mut b = browser(Vec::new());
    b.open_friend_add();
    for c in "gaben".chars() {
        b.friend_add_push(c);
    }
    let (query, gen) = b.friend_search().expect("a lookup");
    assert_eq!(query, "gaben");
    assert_eq!(b.friends.add_status, "searching...");
    let found = FriendSearchJson { steam_id: 76561197960287930, persona_name: Some("Rabscuttle".to_string()), profile_url: None };
    let pending = b.record_friend_search(gen, Ok(found.clone()));
    assert_eq!(b.friends.add_status, "Found Rabscuttle");
    b.friend_add_push('x');
    assert!(!b.poll_friends_ops(pending, None));
    assert!(b.friends.search_result.is_none(), "a lookup for the old query is dropped");
    let (_, gen2) = b.friend_search().expect("a lookup");
    let pending = b.record_friend_search(gen2, Ok(found));
    b.poll_friends_ops(pending, None);
    assert_eq!(b.friends.search_result.as_ref().map(|f| f.steam_id), Some(76561197960287930));
    assert_eq!(b.friend_add_confirm(), Some("76561197960287930".to_string()));
    assert_eq!(b.friends.add_status, "sending request...");
    b.record_friend_add(Ok(()));
    assert_eq!(b.friends.add_status, "Request sent.");
    assert!(b.poll_friends_ops(None, None), "a roster fetch is due");
    assert!(!b.poll_friends_ops(None, None), "and asked for once");
}

#[test]
fn a_fetched_roster_keeps_the_highlight_in_range() {
    let mut b = browser(Vec::new());
    b.friends.list = vec![friend(1, "A"), friend(2, "B"), friend(3, "C")];
    b.friends.index = 2;
    b.poll_friends_ops(None, Some(vec![friend(1, "A")]));
    assert_eq!(b.friends.index, 0);
    assert!(b.friends.loaded);
    b.friends_scroll_down();
    assert_eq!(b.friends.index, 0);
    assert_eq!(b.friend_remove_confirm(), Some(1));
    let lost = FriendSearchJson { steam_id: 7, persona_name: None, profile_url: None };
    let _ = lost;
    let pending = b.record_friend_search(0, Err(STError::Problem("nope".to_string())));
    assert!(pending.is_none());
    assert_eq!(b.friends.add_status, "Not found: Problem(\"nope\")");
}

#[test]
fn refreshed_chat_runs_oldest_first() {
    let mut b = browser(Vec::new());
    b.friends.list = vec![friend(9, "Ann")];
    assert!(b.open_chat(vec![msg("hello", 0)]));
    assert_eq!(b.chat.partner, "Ann");
    assert_eq!(b.chat.steamid, 9);
    // The launcher gives the newest message first.
    b.refresh_chat(vec![msg("c", 30), msg("b", 20), msg("a", 10)]);
    let texts: Vec<&str> = b.chat.messages.iter().map(|m| m.message.as_str()).collect();
    assert_eq!(texts, vec!["a", "b", "c"]);
    // Without times, the reversed order stands.
    b.refresh_chat(vec![msg("z", 0), msg("y", 0), msg("x", 0)]);
    let texts: Vec<&str> = b.chat.messages.iter().map(|m| m.message.as_str()).collect();
    assert_eq!(texts, vec!["x", "y", "z"]);
    // Equal times keep their (reversed) order around later ones.
    b.refresh_chat(vec![msg("late", 9), msg("p", 5), msg("q", 5)]);
    let texts: Vec<&str> = b.chat.messages.iter().map(|m| m.message.as_str()).collect();
    assert_eq!(texts, vec!["q", "p", "late"]);
    assert_eq!(b.chat_send(), None);
    b.chat_push('h');
    b.chat_push('i');
    assert_eq!(b.chat_send(), Some((9, "hi".to_string())));
    assert!(b.chat.input.is_empty());
    b.close_chat();
    assert!(!b.chat.show);
}

// --- Versions, settings, collections, plugins ---

#[test]
fn manifest_ids_parse_as_str_parse_does() {
    assert_eq!(parse_u64("12345"), Some(12345));
    assert_eq!(parse_u64("+7"), Some(7));
    assert_eq!(parse_u64(""), None);
    assert_eq!(parse_u64("+"), None);
    assert_eq!(parse_u64("12a"), None);
    assert_eq!(parse_u64("18446744073709551615"), Some(u64::MAX));
    assert_eq!(parse_u64("18446744073709551616"), None);
    assert_eq!(parse_u64("99999999999999999999x"), None);
}

#[test]
fn downgrade_takes_the_typed_manifest() {
    let mut b = browser(Vec::new());
    b.open_versions(730, vec![DepotManifestInfo { depot_id: 731, manifest_id: 1 }], None);
    b.begin_downgrade_input();
    for c in "12a34".chars() {
        b.versions_input_push(c);
    }
    assert_eq!(b.versions.input.as_deref(), Some("1234"));
    assert_eq!(b.start_downgrade(), Some((730, 731, 1234)));
    assert_eq!(b.versions.status, "Downgrading depot 731 \u{2192} manifest 1234\u{2026}");
    assert!(b.versions.input.is_none());
    b.begin_downgrade_input();
    assert_eq!(b.start_downgrade(), None);
    assert_eq!(b.versions.status, "Invalid manifest id.");
    b.pin_current(Ok(2), None);
    assert_eq!(b.versions.status, "Pinned 2 depot(s) at the installed version.");
    b.unpin_current(Ok(false), None);
    assert_eq!(b.versions.status, "Was not pinned.");
    assert!(!b.is_pinned());
}

fn proton(name: &str, installed: bool) -> ProtonJson {
    ProtonJson { name: name.to_string(), label: "Proton-GE".to_string(), size: 0, installed, is_default: false }
}

#[test]
fn game_settings_cycle_their_values() {
    let mut b = browser(Vec::new());
    let config = GameConfigJson {
        runner: "umu".to_string(),
        forced_proton_version: Some("GE-9".to_string()),
        platform_preference: Some("windows".to_string()),
    };
    b.open_game_config(
        5,
        Some(config),
        Some(ScriptShowJson { exists: false }),
        vec![proton("GE-8", true), proton("GE-9", true), proton("GE-10", false)],
    );
    assert_eq!(b.game_config.protons, vec!["GE-8".to_string(), "GE-9".to_string()]);
    assert_eq!(b.game_config_activate(), ConfigCall::UmuToNative);
    b.game_config_next();
    assert_eq!(b.game_config_activate(), ConfigCall::ClearProton, "after the last installed runtime");
    b.game_config_next();
    assert_eq!(b.game_config_activate(), ConfigCall::SetPlatform("linux".to_string()));
    b.game_config_next();
    assert_eq!(b.game_config_activate(), ConfigCall::NewScript);
    b.game_config_next();
    assert_eq!(b.game_config.index, 0);
    b.game_config_finish(&ConfigCall::SetPlatform("linux".to_string()), Ok(()), None, None);
    assert_eq!(b.game_config.status, "Platform set to linux.");
    b.game_config.config = None;
    b.game_config.index = 1;
    assert_eq!(b.game_config_activate(), ConfigCall::SetProton("GE-8".to_string()));
}

#[test]
fn collections_report_each_change() {
    let mut b = browser(Vec::new());
    let list = vec![CollectionJson { name: "Favourites".to_string(), count: 7 }];
    b.open_collections(3, list.clone());
    assert_eq!(b.add_game_to_selected_collection(), Some(("Favourites".to_string(), 3)));
    b.record_collection_change(CollectionChange::Added, "Favourites", Ok(()), vec![]);
    assert_eq!(b.collections.status, "Added to \"Favourites\".");
    assert_eq!(b.collections.index, 0);
    assert_eq!(b.delete_selected_collection(), None);
    b.begin_collection_create();
    for c in "  Co-op  ".chars() {
        b.collections_input_push(c);
    }
    assert_eq!(b.commit_collection_create(), Some("Co-op".to_string()));
    assert!(b.collections.input.is_none());
}

#[test]
fn plugin_keys_choose_their_action() {
    let mut b = browser(Vec::new());
    b.open_engine(None, None, None);
    assert_eq!(b.engine_action('e'), EngineJob::Instant(EngineVerb::UmuEnable));
    assert_eq!(b.engine_action('z'), EngineJob::Ignored);
    assert_eq!(b.engine_action('i'), EngineJob::Background(EngineVerb::UmuInstall));
    assert_eq!(b.engine_busy_text(), Some("working\u{2026}".to_string()));
    assert_eq!(b.engine_action('e'), EngineJob::Ignored, "nothing while a download runs");
    assert!(!b.poll_engine());
    b.engine.busy = Some("Done.".to_string());
    assert!(b.poll_engine());
    assert_eq!(b.engine.status, "Done.");
    assert!(b.engine.busy.is_none());
    b.engine_previous();
    assert_eq!(b.engine.index, 2);
    assert_eq!(b.engine_action('r'), EngineJob::Background(EngineVerb::RuntimeRepair));
}

// --- Path prompts, cloud, proxy ---

#[test]
fn path_prompts_keep_to_themselves() {
    let mut b = browser(Vec::new());
    b.open_move(4);
    b.move_push('D');
    b.move_push(':');
    b.move_pop();
    assert_eq!(b.move_prompt.path, "D");
    assert!(!b.relink_prompt.show);
    let r = b.do_move(Err(STError::Io("disk full".to_string())));
    assert!(r.is_err());
    assert_eq!(b.move_prompt.status, "Failed: Io(disk full)");
    assert_eq!(b.move_prompt.path, "D");
    b.close_move();
    assert!(!b.move_prompt.show);
    assert_eq!(b.move_prompt.app_id, 0);

    b.open_relink(5);
    b.relink_push('E');
    assert!(b.do_relink(Ok(())).is_ok());
    assert_eq!(b.relink_prompt.status, "done");
    b.open_import(6);
    b.import_push('F');
    b.import_pop();
    assert_eq!(b.import_prompt.path, "");
    assert_eq!(b.relink_prompt.path, "E");
    b.close_import();
    b.close_relink();
    assert!(!b.relink_prompt.show && !b.import_prompt.show);
}

#[test]
fn a_failed_proxy_change_becomes_the_notice() {
    let mut b = browser(Vec::new());
    b.record_proxy_change(Err(STError::Problem("bad url".to_string())), None);
    assert_eq!(b.notice.as_deref(), Some("Proxy: Problem(\"bad url\")"));
}

#[test]
fn config_default_lists_games_and_dlc() {
    let c = Config::default();
    assert!(c.default_user.is_empty());
    assert!(c.hidden_games.is_empty());
    assert!(c.favorite_games.is_empty());
    assert_eq!(c.allowed_games, vec![aurelia_tui::game::GameType::Game, aurelia_tui::game::GameType::DLC]);
}

#[test]
fn cloud_sync_reports_the_direction_or_the_failure() {
    let file = |name: &str| CloudFileJson { filename: name.to_string(), size: 3, timestamp: 0 };
    let mut b = browser(Vec::new());
    b.open_cloud(Ok(vec![file("a.sav")]));
    assert!(b.show_cloud);
    b.sync_cloud(CloudDirection::Down, Ok(()), Ok(vec![file("a.sav"), file("b.sav")]));
    assert_eq!(b.cloud_status, "downloaded");
    assert_eq!(b.cloud_files.len(), 2);
    b.sync_cloud(CloudDirection::Up, Err(STError::Io("offline".to_string())), Ok(Vec::new()));
    assert_eq!(b.cloud_status, "Failed: Io(offline)");
    assert_eq!(b.cloud_files.len(), 2);
    b.sync_cloud(CloudDirection::Both, Ok(()), Err(STError::Io("gone".to_string())));
    assert_eq!(b.cloud_status, "Failed: Io(gone)");
    assert!(b.cloud_files.is_empty());
    b.sync_cloud(CloudDirection::Both, Ok(()), Ok(vec![file("c.sav")]));
    assert_eq!(b.cloud_status, "synced");
    b.close_cloud();
    assert!(!b.show_cloud && b.cloud_files.is_empty());
}

#[test]
fn a_paused_install_resumes_into_its_library() {
    let mut b = browser(vec![game(7, "Seven", false, false)]);
    assert_eq!(b.install_library_for(7), None);
    b.begin_install(7, Some("/mnt/games".to_string()));
    b.begin_install(8, None);
    assert_eq!(b.install_library_for(7), Some("/mnt/games".to_string()));
    assert_eq!(b.install_library_for(8), None);
    b.begin_install(7, Some("/srv/steam".to_string()));
    assert_eq!(b.install_library_for(7), Some("/srv/steam".to_string()));
    assert!(b.stop_install(7));
    assert_eq!(b.install_library_for(7), None);
}

#[test]
fn name_order_ignores_case() {
    let b = browser(vec![game(1, "Banana", false, false), game(2, "apple", false, false), game(3, "Cherry", false, false)]);
    let names: Vec<String> = b.visible().iter().map(|&k| b.items()[k].name.clone()).collect();
    assert_eq!(names, vec!["apple", "Banana", "Cherry"]);
}

#[test]
fn entering_friends_twice_keeps_the_roster() {
    let mut b = browser(Vec::new());
    b.enter_friends();
    assert!(b.friends.loading && b.friends.refresh_requested);
    b.friends.refresh_requested = false;
    b.poll_friends_ops(None, Some(vec![friend(1, "Ann"), friend(2, "Bo")]));
    assert!(b.friends.loaded);
    b.friends_scroll_down();
    b.enter_friends();
    assert_eq!(b.friends.list.len(), 2);
    assert_eq!(b.friends.index, 1);
    assert!(!b.friends.refresh_requested, "no second fetch");
}

#[test]
fn comments_of_a_closed_pane_stay_away_after_reopening() {
    let mut b = browser(vec![game(1, "Alpha", true, false)]);
    b.open_workshop(1, vec![]);
    b.workshop.results = vec![workshop_item(10, "A", false), workshop_item(11, "B", false)];
    let (_, first) = b.workshop_open_comments().expect("a fetch");
    b.close_workshop_comments();
    b.workshop_next();
    let (id, second) = b.workshop_open_comments().expect("another fetch");
    assert_eq!(id, 11);
    assert_ne!(first, second);
    b.workshop_adopt_comments(Some((first, Err("late".to_string()))));
    assert!(b.workshop.comments_loading, "the old fetch is dropped");
    assert!(b.workshop.comments_status.is_empty());
    b.workshop_adopt_comments(Some((second, Ok(vec![]))));
    assert_eq!(b.workshop.comments_status, "No comments.");
}

#[test]
fn a_finished_rating_is_taken_in_whatever_the_generation() {
    let mut b = browser(vec![game(1, "Alpha", true, false)]);
    b.open_workshop(1, vec![]);
    b.workshop.results = vec![workshop_item(10, "A", false)];
    let (_, _, gen) = b.workshop_rate_selected(false).expect("a rating");
    // A new search bumps the generation while the rating is under way.
    let search = b.start_workshop_search();
    assert_ne!(search.2, gen);
    let status = b.workshop.status.clone();
    let mut inbox = WorkshopInbox::empty();
    inbox.rated = Some((gen, Err("late".to_string())));
    assert!(b.poll_workshop(&mut inbox));
    assert!(inbox.rated.is_none());
    assert!(!b.workshop.rating, "the guard is cleared");
    assert_eq!(b.workshop.status, status, "a stale rating leaves the status");
    assert!(b.workshop_rate_selected(true).is_some(), "rating is not wedged");
    // A stale search stops the poll; the rating waits in the inbox.
    let gen2 = b.workshop.gen;
    let mut inbox = WorkshopInbox::empty();
    inbox.search = Some((gen2 + 7, Ok(vec![])));
    inbox.rated = Some((gen2, Ok(())));
    assert!(!b.poll_workshop(&mut inbox));
    assert!(inbox.search.is_none());
    assert!(inbox.rated.is_some());
    assert!(b.poll_workshop(&mut inbox));
    assert_eq!(b.workshop.status, "Rated.");
}
