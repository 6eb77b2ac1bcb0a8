use aurelia_tui::aurelia::WorkshopItemJson;
use aurelia_tui::workshop::WorkshopInbox;
use aurelia_tui::ui::chat::wrap_body;
use aurelia_tui::aurelia::{AchievementJson, ProtonJson};
use aurelia_tui::session::phase_text;
use aurelia_tui::ui::achievements::{achievement_name, achievements_title};
use aurelia_tui::aurelia::{
    judge_reply, login_event, login_result, play_line, progress_state, qr_challenge_url, qr_login_result,
    stream_result, CloudDirection, FriendJson, LibraryGameJson, LoginPhase, LoginStep,
};
use aurelia_tui::browse::{Browser, Filter};
use aurelia_tui::config::Config;
use aurelia_tui::error::STError;
use aurelia_tui::game::{Game, GameStatus};
use aurelia_tui::json::{read_fields, str_field, JsonField};
use aurelia_tui::keys::{command_for, Command, Key, Layer};
use aurelia_tui::session::{check_user, sign_in_end, State};
use aurelia_tui::ui::friends::{friend_rows, friends_hint, friends_title, NameTone};

fn args(v: &[&str]) -> Vec<String> {
    v.iter().map(|a| a.to_string()).collect()
}

fn game(id: u32, name: &str) -> Game {
    Game::from_library(LibraryGameJson {
        app_id: id,
        name: name.to_string(),
        is_installed: true,
        install_path: None,
        update_available: false,
        is_owned: true,
        is_family_shared: false,
        platform: None,
        active_branch: None,
        assets: None,
        store_url: None,
    })
}

fn friend(id: u64, name: &str, state: u32, game: Option<&str>) -> FriendJson {
    FriendJson {
        steam_id: id,
        persona_name: Some(name.to_string()),
        persona_state: Some(state),
        game_app_id: None,
        game_name: game.map(|g| g.to_string()),
    }
}

#[test]
fn an_empty_reply_names_the_command() {
    match judge_reply(&args(&["list"]), "  \n") {
        Err(STError::Problem(m)) => {
            assert_eq!(m, "aurelia produced no output for `list` (is the `aurelia` binary on PATH?)")
        }
        other => panic!("unexpected {:?}", other),
    }
}

#[test]
fn a_reply_that_is_not_json_is_a_problem() {
    assert!(matches!(judge_reply(&args(&["list"]), "oops"), Err(STError::Problem(_))));
}

#[test]
fn an_error_field_is_the_problem_and_other_replies_succeed() {
    match judge_reply(&args(&["list"]), "{\"error\": \"not logged in\"}\n") {
        Err(STError::Problem(m)) => assert_eq!(m, "not logged in"),
        other => panic!("unexpected {:?}", other),
    }
    assert!(judge_reply(&args(&["list"]), "{\"ok\": true}").is_ok());
    assert!(judge_reply(&args(&["list"]), "[1, 2]").is_ok());
    assert!(judge_reply(&args(&["list"]), "{\"error\": 3}").is_ok());
}

#[test]
fn fields_keep_strings_and_booleans() {
    let f = read_fields("{\"a\": \"x\", \"b\": true, \"c\": 1}").expect("json");
    assert_eq!(f.len(), 3);
    assert_eq!(str_field(&f, "a"), Some("x".to_string()));
    assert_eq!(str_field(&f, "b"), None);
    assert!(f.iter().any(|(k, v)| k == "c" && *v == JsonField::Other));
    assert!(read_fields("{").is_err());
}

#[test]
fn a_classic_login_result_is_judged() {
    let (phase, r) = login_result("{\"logged_in\": true}\n");
    assert_eq!(phase, LoginPhase::Success);
    assert!(r.is_ok());
    let (phase, r) = login_result("{\"logged_in\": false, \"error\": \"denied\"}");
    assert_eq!(phase, LoginPhase::Failed("denied".to_string()));
    assert!(matches!(r, Err(STError::Problem(m)) if m == "denied"));
    let (phase, _) = login_result("{\"logged_in\": false}");
    assert_eq!(phase, LoginPhase::Failed("login failed".to_string()));
    let (phase, _) = login_result("garbage");
    assert_eq!(phase, LoginPhase::Failed("login did not complete".to_string()));
}

#[test]
fn login_event_lines_are_read() {
    assert!(matches!(
        login_event("{\"event\": \"guard_required\", \"guard_type\": \"email\"}"),
        LoginStep::AskGuardCode(k) if k == "email"
    ));
    assert!(matches!(
        login_event("{\"event\": \"guard_required\", \"guard_type\": \"device_confirmation\"}"),
        LoginStep::Enter(LoginPhase::DeviceConfirmation)
    ));
    assert!(matches!(login_event("{\"event\": \"awaiting_confirmation\"}"), LoginStep::Enter(LoginPhase::AwaitingConfirmation)));
    assert!(matches!(login_event("not json"), LoginStep::Ignore));
}

#[test]
fn qr_lines_and_results_are_read() {
    assert_eq!(qr_challenge_url("{\"event\": \"qr_challenge\", \"url\": \"https://s.team/q/1\"}"), Some("https://s.team/q/1".to_string()));
    assert_eq!(qr_challenge_url("{\"event\": \"other\", \"url\": \"x\"}"), None);
    assert!(qr_login_result("{\"logged_in\": true}").is_ok());
    assert!(matches!(qr_login_result(""), Err(STError::Problem(m)) if m == "QR login did not complete (no result from aurelia)"));
}

#[test]
fn streaming_results_are_read() {
    assert_eq!(stream_result("{\"status\": \"installed\"}", "installed", "Installed!"), "Installed!");
    assert_eq!(stream_result("{\"error\": \"disk full\"}", "installed", "Installed!"), "Failed: disk full");
    assert_eq!(stream_result("{\"status\": \"other\"}", "installed", "Installed!"), "done");
    assert_eq!(stream_result("", "verified", "verified"), "verified");
    assert_eq!(progress_state("{\"event\": \"progress\", \"state\": \"downloading\", \"percent\": 1.5}"), Some(Some("downloading".to_string())));
    assert_eq!(progress_state("{\"event\": \"done\"}"), None);
    assert_eq!(play_line("{\"error\": \"no such game\"}"), Some(Some("no such game".to_string())));
    assert_eq!(play_line("starting..."), None);
}

#[test]
fn sign_in_needs_a_user_and_reports_its_end() {
    assert!(matches!(check_user(""), Err(STError::Problem(m)) if m == "Blank string. Requires user to log in."));
    assert!(check_user("gaben").is_ok());
    let (state, message) = sign_in_end(false, Ok(()));
    assert_eq!(state, State::Loaded(0, -2));
    assert_eq!(message, None);
    let (state, message) = sign_in_end(true, Err(STError::Problem("x".to_string())));
    assert_eq!(state, State::Failed);
    assert_eq!(message, Some("QR sign-in failed: Problem(\"x\")".to_string()));
}

#[test]
fn keys_are_bound_in_the_topmost_layer() {
    assert_eq!(command_for(Layer::Cloud, Key::Char('d')), Command::SyncCloud(CloudDirection::Down));
    assert_eq!(command_for(Layer::Cloud, Key::Char('s')), Command::SyncCloud(CloudDirection::Both));
    assert_eq!(command_for(Layer::Chat, Key::Char('q')), Command::Type(Layer::Chat, 'q'));
    assert_eq!(command_for(Layer::Dlc, Key::Char('q')), Command::Close(Layer::Dlc));
    assert_eq!(command_for(Layer::FriendAdd, Key::Char('a')), Command::FriendAddConfirm);
    assert_eq!(command_for(Layer::ConfirmInstall, Key::Char('Y')), Command::Answer(Layer::ConfirmInstall, true));
    assert_eq!(command_for(Layer::ConfirmInstall, Key::Esc), Command::Answer(Layer::ConfirmInstall, false));
    assert_eq!(command_for(Layer::List, Key::Char('3')), Command::SetFilter(Filter::Updates));
    assert_eq!(command_for(Layer::List, Key::Char('?')), Command::OpenHelp);
    assert_eq!(command_for(Layer::Help, Key::Char('?')), Command::Close(Layer::Help));
    assert_eq!(command_for(Layer::WorkshopBrowse, Key::F(3)), Command::OpenComments);
    assert_eq!(command_for(Layer::Wallet, Key::Char('z')), Command::Close(Layer::Wallet));

    let mut b = Browser::new(vec![game(1, "Alpha")], Config::default_config());
    assert_eq!(b.layer(), Layer::List);
    b.notice = Some("old".to_string());
    assert_eq!(b.key_command(Key::Char('/')), Command::StartFilter);
    assert_eq!(b.notice, None);
    b.start_filtering();
    assert_eq!(b.layer(), Layer::Filtering);
    assert_eq!(b.key_command(Key::Char('q')), Command::Type(Layer::Filtering, 'q'));
    b.show_help = true;
    assert_eq!(b.layer(), Layer::Help, "the help is over the query");
}

#[test]
fn a_friend_removal_is_asked_then_answered() {
    let mut b = Browser::new(vec![game(1, "Alpha")], Config::default_config());
    b.ask_friend_remove();
    assert!(!b.friends.confirm_remove, "nothing to remove");
    b.friends.list = vec![friend(7, "Ann", 1, None)];
    b.ask_friend_remove();
    assert!(b.friends.confirm_remove);
    assert_eq!(b.answer_friend_remove(false), None);
    assert!(!b.friends.confirm_remove);
    b.ask_friend_remove();
    assert_eq!(b.answer_friend_remove(true), Some(7));
}

#[test]
fn a_paused_row_keeps_its_progress() {
    let mut b = Browser::new(vec![game(1, "Alpha"), game(2, "Beta")], Config::default_config());
    let current = Some(GameStatus { state: "downloading 42.5%".to_string(), installdir: "/g".to_string(), size: 0 });
    b.mark_paused(2, &current);
    let row = b.items.iter().find(|g| g.id == 2).unwrap();
    assert_eq!(row.status.as_ref().unwrap().state, "paused 42.5%");
    assert!(b.items.iter().find(|g| g.id == 1).unwrap().status.is_none());
}

#[test]
fn friend_rows_follow_the_highlight() {
    let list = vec![
        friend(1, "Ann", 1, Some("Doom")),
        friend(2, "Bob", 0, None),
        friend(3, "Cy", 1, None),
        friend(4, "Di", 0, None),
        friend(5, "Ed", 3, None),
    ];
    let rows = friend_rows(&list, 4, true, 3);
    assert_eq!(rows.len(), 3);
    assert_eq!(rows[0].name, "Cy");
    assert_eq!(rows[2].name, "Ed");
    assert!(rows[2].selected && !rows[0].selected);
    assert_eq!(rows[2].tone, NameTone::Selected);
    assert_eq!(rows[1].tone, NameTone::Offline);
    let rows = friend_rows(&list, 0, false, 3);
    assert_eq!(rows[0].tone, NameTone::Softened);
    assert_eq!(rows[0].game, Some("Doom".to_string()));
    assert_eq!(rows[1].game, None);
    assert_eq!(friends_title(5, true), "\u{25cf} Friends (5) \u{b7} chat [t] window");
    assert_eq!(friends_title(0, false), "Friends (0) \u{2014} [F] focus");
    assert_eq!(friends_hint(&Vec::new()), Some("Press [F] to load friends."));
    assert_eq!(friends_hint(&list), None);
}

#[test]
fn the_query_matches_in_order_and_smart_case() {
    let mut b = Browser::new(vec![game(1, "Alpha"), game(2, "beta"), game(3, "Gamma")], Config::default_config());
    b.push_query('a');
    b.push_query('m');
    assert_eq!(b.visible().len(), 1, "only Gamma holds a then m in order");
    b.clear_query();
    b.push_query('B');
    assert_eq!(b.visible().len(), 0, "a capital makes the match case-sensitive");
    b.clear_query();
    b.push_query('b');
    assert_eq!(b.visible().len(), 1);
}

#[test]
fn a_fresh_search_survives_the_rest_of_the_poll() {
    let item = |id: u64, title: &str| WorkshopItemJson { id: Some(id), title: title.to_string(), installed: false, subscribed: false, file_size: 0 };
    let mut b = Browser::new(vec![game(1, "Alpha")], Config::default_config());
    b.open_workshop(1, vec![item(9, "Sub")]);
    let job = b.workshop_enter_browse().expect("a search");
    b.workshop.comments_open = true;
    let mut inbox = WorkshopInbox::empty();
    inbox.search = Some((job.2, Ok(vec![item(1, "A"), item(2, "B")])));
    inbox.comments = Some((job.2, Ok(vec![])));
    inbox.refresh = Some((job.2, vec![item(3, "C")]));
    assert!(b.poll_workshop(&mut inbox));
    assert!(!b.workshop.searching);
    assert_eq!(b.workshop.index, 0);
    assert_eq!(b.workshop.results.len(), 2);
    assert_eq!(b.workshop.status, "");
    assert_eq!(b.workshop.items.len(), 1);
    assert_eq!(b.workshop.items[0].title, "C");
    assert_eq!(b.workshop.comments_status, "No comments.");
}

#[test]
fn a_blank_body_wraps_to_one_empty_line() {
    assert_eq!(wrap_body("   \t ", 5, 10), vec![String::new()]);
    let lines = wrap_body("  hello   wonderful world  ", 6, 8);
    assert!(lines.iter().all(|l| !l.is_empty() && !l.starts_with(' ') && !l.ends_with(' ')));
    assert_eq!(lines, vec!["hello".to_string(), "wonderfu".to_string(), "l world".to_string()]);
}

#[test]
fn small_overlay_decisions() {
    assert_eq!(phase_text(&LoginPhase::Failed("nope".to_string())), "Login failed: nope");
    assert_eq!(phase_text(&LoginPhase::Connecting), "Signing in...");
    assert_eq!(
        phase_text(&LoginPhase::AwaitingConfirmation),
        "Signing in \u{2014} if prompted, approve this login in your Steam Mobile app..."
    );
    let ach = |name: &str, unlocked: bool, visible: bool| AchievementJson {
        name: name.to_string(),
        description: String::new(),
        unlocked,
        visible,
        rarity_hundredths: 0,
    };
    let list = vec![ach("A", true, true), ach("B", false, false), ach("", false, false)];
    assert_eq!(achievements_title(&list), "Achievements (1 unlocked / 3)");
    assert_eq!(achievement_name(&list[1]), "B (hidden)");
    assert_eq!(achievement_name(&list[2]), "(hidden)");
    assert_eq!(achievement_name(&list[0]), "A");

    let mut b = Browser::new(vec![game(1, "Alpha")], Config::default_config());
    assert!(b.presence_after_toggle(), "no configuration: go online");
    let proton = |name: &str, installed: bool| ProtonJson {
        name: name.to_string(),
        label: "Proton-GE".to_string(),
        size: 0,
        installed,
        is_default: false,
    };
    b.protons = vec![proton("GE-1", true), proton("GE-2", false)];
    b.proton_index = 0;
    assert_eq!(b.proton_to_install(), None);
    b.proton_index = 1;
    assert_eq!(b.proton_to_install(), Some("GE-2".to_string()));
    assert!(!b.proton_install_finished(Some("Installed!")), "the overlay is closed");
    b.show_proton = true;
    assert!(b.proton_install_finished(Some("Installed!")));
    assert!(!b.proton_install_finished(Some("installing 3.0%")));
}
