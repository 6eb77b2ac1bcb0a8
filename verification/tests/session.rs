use aurelia_tui::aurelia::{
    check_reply, cloud_sync, logout, opt_u64_from_text, set_branch, set_dlc, set_presence, steam_id_from_text,
    CloudDirection, FriendJson, HealthJson, LibraryGameJson,
};
use aurelia_tui::error::STError;
use aurelia_tui::game::Game;
use aurelia_tui::session::{handle_load_games, handle_login, initial_mode, persona_lookup, poll_session, render_qr_string, Mode, SessionTask, SignIn, SignInAction, SignInKey, State};

fn health(logged_in: bool, account: Option<&str>, steam_id: Option<u64>) -> HealthJson {
    HealthJson { logged_in, account: account.map(|a| a.to_string()), steam_id, daemon: false }
}

fn game(id: u32, name: &str) -> Game {
    Game::from_library(LibraryGameJson {
        app_id: id,
        name: name.to_string(),
        is_installed: false,
        install_path: None,
        update_available: false,
        is_owned: true,
        is_family_shared: false,
        platform: None,
        active_branch: None,
        assets: None,
        store_url: None,
    })
}

#[test]
fn an_authenticated_probe_is_ready_to_load() {
    let h = health(true, Some("gaben"), Some(7));
    assert_eq!(persona_lookup(&h), Some(7));
    let (state, err, who) = handle_login(Ok(h), Some("Gabe".to_string()));
    assert_eq!(state, State::Loaded(0, -2));
    assert_eq!(err, None);
    assert_eq!(who.as_deref(), Some("Gabe"));
    let (_, _, who) = handle_login(Ok(health(true, Some("gaben"), Some(7))), Some(String::new()));
    assert_eq!(who.as_deref(), Some("gaben"), "an empty persona falls back to the account");
}

#[test]
fn a_failed_probe_reports_why() {
    assert_eq!(persona_lookup(&health(true, Some("a"), Some(0))), None);
    assert_eq!(persona_lookup(&health(false, Some("a"), Some(3))), None);
    let (state, err, who) = handle_login(Ok(health(false, None, None)), None);
    assert_eq!((state, err, who), (State::Failed, None, None));
    let (state, err, _) = handle_login(Err(STError::Io("denied".to_string())), None);
    assert_eq!(state, State::Failed);
    assert_eq!(err.as_deref(), Some("Io(denied)"));
}

#[test]
fn the_cache_is_sorted_by_name_ignoring_case() {
    let (state, games) = handle_load_games(Ok(vec![game(1, "beta"), game(2, "Alpha"), game(3, "alpha"), game(4, "Gamma")]));
    assert_eq!(state, State::LoggedIn);
    let ids: Vec<i32> = games.unwrap().iter().map(|g| g.id).collect();
    assert_eq!(ids, vec![2, 3, 1, 4], "equal keys keep their order");
    let (state, games) = handle_load_games(Err(STError::Problem("offline".to_string())));
    assert!(games.is_none());
    assert_eq!(state, State::Terminated("Failed to load library:\nProblem(\"offline\")".to_string()));
}

#[test]
fn the_first_screen_depends_on_a_remembered_user() {
    assert_eq!(initial_mode(""), Mode::Login);
    assert_eq!(initial_mode("gaben"), Mode::Loading);
}

#[test]
fn launcher_commands_are_spelled_out() {
    assert_eq!(set_presence(true), vec!["config", "presence", "online", "--json"]);
    assert_eq!(logout(), vec!["logout", "--json"]);
    assert_eq!(cloud_sync(-5, CloudDirection::Down), vec!["cloud", "sync", "-5", "--down", "--json"]);
    assert_eq!(set_dlc(42, false), vec!["disable", "42", "--json"]);
    assert_eq!(set_branch(10, "beta"), vec!["set-branch", "10", "beta", "--json"]);
}

#[test]
fn replies_are_checked() {
    let args = vec!["list".to_string()];
    assert!(check_reply(&args, "{}", None).is_ok());
    match check_reply(&args, "{}", Some("nope".to_string())) {
        Err(STError::Problem(m)) => assert_eq!(m, "nope"),
        _ => panic!("an error reply is an error"),
    }
    match check_reply(&args, "", None) {
        Err(STError::Problem(m)) => assert!(m.contains("`list`")),
        _ => panic!("no output is an error"),
    }
}

#[test]
fn ids_sent_as_text_parse() {
    assert_eq!(steam_id_from_text("76561197960287930"), 76561197960287930);
    assert_eq!(steam_id_from_text("abc"), 0);
    assert_eq!(opt_u64_from_text("12"), Some(12));
    assert_eq!(opt_u64_from_text(""), None);
}

#[test]
fn friend_names_fall_back_to_the_id() {
    let f = FriendJson { steam_id: 99, persona_name: Some(String::new()), persona_state: Some(0), game_app_id: Some(570), game_name: None };
    assert_eq!(f.display_name(), "99");
    assert!(!f.is_online());
    assert_eq!(f.current_game().as_deref(), Some("app 570"));
}

fn page(mode: Mode) -> SignIn {
    SignIn { mode, user: String::new(), password: String::new(), guard_code: String::new() }
}

fn type_text(p: &mut SignIn, text: &str) {
    for c in text.chars() {
        assert_eq!(p.key(SignInKey::Char(c)), SignInAction::Nothing);
    }
}

#[test]
fn classic_sign_in_hands_over_and_forgets_the_password() {
    let mut p = page(Mode::Login);
    assert_eq!(p.key(SignInKey::Enter), SignInAction::Nothing);
    assert_eq!(p.mode, Mode::LoginUser);
    type_text(&mut p, " bo b");
    assert_eq!(p.key(SignInKey::Enter), SignInAction::Nothing);
    assert_eq!(p.mode, Mode::LoginPass);
    assert_eq!(p.user, "bob");
    type_text(&mut p, "pw!");
    assert_eq!(p.key(SignInKey::Backspace), SignInAction::Nothing);
    assert_eq!(p.key(SignInKey::Char('\n')), SignInAction::LoginClassic("bob".to_string(), "pw".to_string()));
    assert_eq!(p.mode, Mode::LoginClassic);
    assert!(p.password.is_empty());
}

#[test]
fn blank_user_name_or_password_is_not_accepted() {
    let mut p = page(Mode::LoginUser);
    type_text(&mut p, "  ");
    assert_eq!(p.key(SignInKey::Enter), SignInAction::Nothing);
    assert_eq!(p.mode, Mode::LoginUser);
    assert_eq!(p.user, "  ");
    let mut p = page(Mode::LoginPass);
    assert_eq!(p.key(SignInKey::Backspace), SignInAction::Nothing);
    assert_eq!(p.key(SignInKey::Enter), SignInAction::Nothing);
    assert_eq!(p.mode, Mode::LoginPass);
    assert_eq!(p.key(SignInKey::Esc), SignInAction::Nothing);
    assert_eq!(p.mode, Mode::LoginUser);
}

#[test]
fn guard_code_is_sent_without_spaces() {
    let mut p = page(Mode::LoginGuard);
    type_text(&mut p, "AB 12\t3");
    assert_eq!(p.key(SignInKey::Enter), SignInAction::SubmitGuard("AB123".to_string()));
    assert_eq!(p.mode, Mode::LoginClassic);
    assert!(p.guard_code.is_empty());
}

#[test]
fn landing_page_keys() {
    assert_eq!(page(Mode::Login).key(SignInKey::Char('q')), SignInAction::Quit);
    let mut p = page(Mode::Failed);
    assert_eq!(p.key(SignInKey::Char('r')), SignInAction::CheckSession);
    assert_eq!(p.mode, Mode::Loading);
    let mut p = page(Mode::Login);
    assert_eq!(p.key(SignInKey::Char('y')), SignInAction::LoginQr);
    assert_eq!(p.mode, Mode::LoginQr);
    assert_eq!(p.key(SignInKey::Esc), SignInAction::Nothing);
    assert_eq!(p.mode, Mode::Login);
    // On a text page, q is typed.
    let mut p = page(Mode::LoginUser);
    assert_eq!(p.key(SignInKey::Char('q')), SignInAction::Nothing);
    assert_eq!(p.user, "q");
    assert_eq!(page(Mode::Loading).key(SignInKey::Char('q')), SignInAction::Quit);
    assert_eq!(page(Mode::Terminated("x".to_string())).key(SignInKey::Char('q')), SignInAction::Quit);
    assert_eq!(page(Mode::Browse).key(SignInKey::Char('q')), SignInAction::Nothing);
}

#[test]
fn session_poll_moves_between_screens() {
    let ready = State::Loaded(0, -2);
    assert_eq!(poll_session(Mode::Loading, &ready, false, true), (Mode::Browse, false, SessionTask::Nothing, false));
    assert_eq!(poll_session(Mode::Loading, &ready, false, false), (Mode::Loading, false, SessionTask::LoadGames, false));
    assert_eq!(poll_session(Mode::Loading, &State::LoggedIn, false, true), (Mode::Loading, true, SessionTask::ReadGames, false));
    assert_eq!(poll_session(Mode::Loading, &State::Failed, false, true), (Mode::Login, true, SessionTask::Nothing, false));
    assert_eq!(poll_session(Mode::LoginQr, &ready, false, true), (Mode::Loading, false, SessionTask::Nothing, false));
    assert_eq!(poll_session(Mode::LoginQr, &State::LoggedOut, false, true), (Mode::LoginQr, true, SessionTask::Nothing, false));
    assert_eq!(poll_session(Mode::LoginClassic, &State::LoggedOut, true, false), (Mode::LoginGuard, false, SessionTask::Nothing, true));
    assert_eq!(poll_session(Mode::LoginGuard, &State::Failed, true, false), (Mode::Login, false, SessionTask::Nothing, false));
    assert_eq!(
        poll_session(Mode::Browse, &State::Terminated("gone".to_string()), false, false),
        (Mode::Terminated("gone".to_string()), false, SessionTask::Nothing, false)
    );
}

#[test]
fn qr_page_draws_the_challenge() {
    let url = "https://s.team/q/1/1234567890";
    let drawing = render_qr_string(url);
    assert_ne!(drawing, url);
    assert!(!drawing.contains("could not render"));
    assert!(drawing.chars().any(|c| c == '\u{2588}' || c == '\u{2580}' || c == '\u{2584}'));
    // Far more than any QR version holds: the link is shown instead.
    let long = "x".repeat(8000);
    assert_eq!(render_qr_string(&long), format!("(could not render QR code)\n{}", long));
}
