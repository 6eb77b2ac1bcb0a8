use aurelia_tui::aurelia::{CollectionJson, DepotManifestInfo, GameConfigJson, LibraryGameJson, ProxyJson, ScriptShowJson};
use aurelia_tui::browse::{Action, Browser, InstallJob};
use aurelia_tui::config::Config;
use aurelia_tui::error::STError;
use aurelia_tui::game::{Game, GameStatus, GameType};

fn game(id: u32, name: &str) -> Game {
    Game::from_library(LibraryGameJson {
        app_id: id,
        name: name.to_string(),
        is_installed: true,
        install_path: None,
        update_available: false,
        is_owned: true,
        is_family_shared: false,
        platform: None,
        active_branch: None,
        assets: None,
        store_url: None,
    })
}

fn browser(games: Vec<Game>) -> Browser {
    Browser::new(games, Config::default_config())
}

#[test]
fn a_new_browser_opens_on_the_first_row_with_nothing_over_it() {
    let b = browser(vec![game(1, "Alpha"), game(2, "Beta")]);
    assert_eq!(b.selected_index(), Some(0));
    assert!(!b.show_help && !b.show_actions && !b.workshop.show && !b.versions.show && !b.engine.show);
    assert!(b.notice.is_none() && b.installs.is_empty());
    assert_eq!(browser(Vec::new()).selected_index(), None);
}

#[test]
fn selecting_a_row_beyond_the_list_keeps_the_selection() {
    let mut b = browser(vec![game(1, "Alpha"), game(2, "Beta")]);
    b.select_index(1);
    assert_eq!(b.selected().map(|g| g.id), Some(2));
    b.select_index(5);
    assert_eq!(b.selected_index(), Some(1));
}

#[test]
fn validity_follows_hidden_games_and_allowed_types() {
    let mut config = Config::default_config();
    let mut g = game(9, "Tool");
    assert!(g.is_valid(&config));
    g.game_type = GameType::Tool;
    assert!(!g.is_valid(&config));
    g.game_type = GameType::DLC;
    config.hide_game(9);
    assert!(!g.is_valid(&config));
}

#[test]
fn actions_menu_moves_round_and_closes() {
    let mut b = browser(vec![game(1, "Alpha")]);
    b.open_actions();
    assert!(b.show_actions);
    assert_eq!(b.actions_app_id, 1);
    let n = b.filtered_actions().len();
    b.actions_previous();
    assert_eq!(b.actions_index, n - 1);
    b.actions_next();
    assert_eq!(b.actions_index, 0);
    assert_eq!(b.selected_action(), Some(Action::Play));
    b.close_actions();
    assert!(!b.show_actions);
    assert_eq!(b.actions_index, 0);
}

#[test]
fn versions_overlay_navigates_its_depots() {
    let mut b = browser(Vec::new());
    let depots = vec![DepotManifestInfo { depot_id: 731, manifest_id: 1 }, DepotManifestInfo { depot_id: 732, manifest_id: 2 }];
    b.open_versions(730, depots, None);
    assert_eq!(b.versions_app_id(), 730);
    assert_eq!(b.selected_manifest().map(|m| m.depot_id), Some(731));
    b.versions_previous();
    assert_eq!(b.selected_manifest().map(|m| m.depot_id), Some(732));
    b.versions_next();
    assert_eq!(b.versions.index, 0);
    b.begin_downgrade_input();
    b.versions_input_push('4');
    b.versions_input_push('2');
    b.versions_input_pop();
    assert_eq!(b.versions.input.as_deref(), Some("4"));
    b.cancel_downgrade_input();
    assert!(b.versions.input.is_none());
    b.close_versions();
    assert!(!b.versions.show && b.versions.manifests.is_empty() && b.selected_manifest().is_none());
}

#[test]
fn collections_overlay_follows_its_list() {
    let mut b = browser(Vec::new());
    let list = vec![
        CollectionJson { name: "Co-op".to_string(), count: 3 },
        CollectionJson { name: "Retro".to_string(), count: 9 },
    ];
    b.open_collections(42, list);
    b.collections_next();
    assert_eq!(b.selected_collection().map(|c| c.name.clone()), Some("Retro".to_string()));
    assert_eq!(b.remove_game_from_selected_collection(), Some(("Retro".to_string(), 42)));
    b.refresh_collections(vec![CollectionJson { name: "Co-op".to_string(), count: 4 }]);
    assert_eq!(b.collections.index, 0, "the highlight stays on the shorter list");
    b.collections_previous();
    assert_eq!(b.collections.index, 0);
    b.begin_collection_create();
    b.collections_input_push('x');
    b.collections_input_pop();
    assert_eq!(b.collections.input.as_deref(), Some(""));
    b.cancel_collection_create();
    assert!(b.collections.input.is_none());
    b.close_collections();
    assert!(!b.collections.show && b.selected_collection().is_none());
    assert_eq!(b.remove_game_from_selected_collection(), None);
}

#[test]
fn plugin_overlay_reports_and_closes() {
    let mut b = browser(Vec::new());
    b.open_engine(None, None, None);
    b.engine_next();
    assert_eq!(b.engine.index, 1);
    b.engine_finish(Ok(()), None, None, None);
    assert_eq!(b.engine.status, "Done.");
    b.engine_finish(Err(STError::Io("denied".to_string())), None, None, None);
    assert_eq!(b.engine.status, "Failed: Io(denied)");
    b.close_engine();
    assert!(!b.engine.show);
    assert_eq!(b.engine.index, 0);
}

#[test]
fn game_settings_remove_the_script_and_close() {
    let mut b = browser(Vec::new());
    b.open_game_config(5, None, Some(ScriptShowJson { exists: true }), Vec::new());
    b.game_config_previous();
    assert_ne!(b.game_config.index, 0);
    let config = GameConfigJson { runner: "native".to_string(), forced_proton_version: None, platform_preference: None };
    b.game_config_remove_script(Ok(()), Some(config), Some(ScriptShowJson { exists: false }));
    assert_eq!(b.game_config.status, "Launch script removed.");
    assert_eq!(b.game_config.script.as_ref().map(|s| s.exists), Some(false));
    b.game_config_remove_script(Err(STError::Io("busy".to_string())), None, None);
    assert_eq!(b.game_config.status, "Failed: Io(busy)");
    b.close_game_config();
    assert!(!b.game_config.show);
}

#[test]
fn proxy_edit_starts_from_the_current_url_and_hands_back_the_trimmed_one() {
    let mut b = browser(Vec::new());
    b.refresh_proxy(Some(ProxyJson { url: Some("http://a".to_string()) }));
    b.begin_proxy_edit();
    assert_eq!(b.config_proxy_input.as_deref(), Some("http://a"));
    b.proxy_input_pop();
    b.proxy_input_push('b');
    b.proxy_input_push(' ');
    assert_eq!(b.commit_proxy_edit(), Some("http://b".to_string()));
    assert!(b.config_proxy_input.is_none());
    assert_eq!(b.commit_proxy_edit(), None);
    b.begin_proxy_edit();
    b.cancel_proxy_edit();
    assert!(b.config_proxy_input.is_none());
    b.refresh_proxy(None);
    b.begin_proxy_edit();
    assert_eq!(b.config_proxy_input.as_deref(), Some(""));
}

#[test]
fn overlays_cover_the_detail_pane() {
    let mut b = browser(vec![game(1, "Alpha")]);
    assert!(!b.overlay_open());
    b.open_market_search();
    assert!(b.overlay_open());
    b.close_market_search();
    b.confirm_install = true;
    assert!(b.overlay_open());
    b.confirm_install = false;
    b.open_versions(1, Vec::new(), None);
    assert!(!b.overlay_open(), "the versions pane leaves the art loading");
}

fn uninstalled(id: u32, name: &str) -> Game {
    let mut g = game(id, name);
    g.installed = false;
    g
}

#[test]
fn enter_launches_installed_games_and_offers_to_install_the_others() {
    let mut b = browser(vec![game(1, "Alpha"), uninstalled(2, "Beta")]);
    assert_eq!(b.press_enter(), Some(1));
    assert!(!b.confirm_install);
    b.next();
    assert_eq!(b.press_enter(), None);
    assert!(b.confirm_install);
    assert_eq!(browser(Vec::new()).press_enter(), None);
}

#[test]
fn uninstall_and_moves_are_offered_for_installed_games_only() {
    let mut b = browser(vec![game(1, "Alpha"), uninstalled(2, "Beta")]);
    assert_eq!(b.selected_installed(), Some(1));
    b.next();
    assert_eq!(b.selected_installed(), None);
    b.ask_uninstall();
    assert!(!b.confirm_uninstall);
    b.previous();
    b.ask_uninstall();
    assert!(b.confirm_uninstall);
}

#[test]
fn space_pauses_and_resumes_into_the_same_library() {
    let mut b = browser(vec![uninstalled(7, "Seven")]);
    assert_eq!(b.toggle_pause(), InstallJob::Nothing, "no download started here");
    b.begin_install(7, Some("/mnt/games".to_string()));
    b.set_status(0, Some(GameStatus { state: "downloading 12.0%".to_string(), installdir: String::new(), size: 0 }));
    assert_eq!(b.toggle_pause(), InstallJob::Pause(7));
    b.set_status(0, Some(GameStatus { state: "paused 12.0%".to_string(), installdir: String::new(), size: 0 }));
    assert_eq!(b.toggle_pause(), InstallJob::Resume(7, Some("/mnt/games".to_string())));
    assert_eq!(b.install_library_for(7), Some("/mnt/games".to_string()));
    b.set_status(0, Some(GameStatus { state: "Installed!".to_string(), installdir: String::new(), size: 0 }));
    assert_eq!(b.toggle_pause(), InstallJob::Nothing);
}

#[test]
fn cancel_stops_a_download_under_way() {
    let mut b = browser(vec![uninstalled(7, "Seven")]);
    assert_eq!(b.cancel_selected_install(), None);
    b.begin_install(7, None);
    b.set_status(0, Some(GameStatus { state: "queued".to_string(), installdir: String::new(), size: 0 }));
    assert_eq!(b.cancel_selected_install(), Some(7));
    assert!(!b.is_recorded_install(7));
    assert!(b.items()[0].status.is_none());
    assert_eq!(b.cancel_selected_install(), None);
}

#[test]
fn a_paused_download_keeps_its_percentage() {
    let downloading = Some(GameStatus { state: "downloading 42.5%".to_string(), installdir: "/g".to_string(), size: 0 });
    let paused = aurelia_tui::browse::paused_status(&downloading);
    assert_eq!(paused.state, "paused 42.5%");
    assert_eq!(paused.installdir, "/g");
    assert_eq!(aurelia_tui::browse::paused_status(&None).state, "paused");
    let queued = Some(GameStatus { state: "queued".to_string(), installdir: String::new(), size: 0 });
    assert_eq!(aurelia_tui::browse::paused_status(&queued).state, "paused");
}

#[test]
fn install_and_uninstall_prompts_answer_for_the_selected_game() {
    let mut b = browser(vec![game(1, "Alpha")]);
    b.confirm_install = true;
    assert_eq!(b.answer_install(false), None);
    assert!(!b.confirm_install);
    b.confirm_install = true;
    assert_eq!(b.answer_install(true), Some(1));
    b.ask_uninstall();
    assert_eq!(b.answer_uninstall(true), Some(1));
    assert!(!b.confirm_uninstall);
    assert!(b.record_uninstall(Ok(())));
    assert!(b.notice.is_none());
    assert!(!b.record_uninstall(Err(STError::Io("locked".to_string()))));
    assert_eq!(b.notice.as_deref(), Some("Uninstall failed: Io(locked)"));
}
