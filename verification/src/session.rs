//! The session: the login state the backend worker reports, the screen the
//! application is on, and the decisions taken on the launcher's answers to a
//! health probe and to a library fetch.

use vstd::prelude::*;
use crate::aurelia::{HealthJson, LoginPhase, present};
use crate::error::{STError, describe_spec};
use crate::game::Game;
use crate::order::{lex_less, lex_lt, lemma_lex_asymmetric, lemma_lex_irreflexive, lemma_lex_total, lemma_lex_transitive, lowercase_of, to_lowercase};
use crate::text::{chars_of, concat, is_space, is_space_spec, owned, pop_char, push_char, string_of};

verus! {

/// What the backend worker reports of the session.
#[derive(Debug, Clone, PartialEq, Eq)]
pub enum State {
    LoggedOut,
    LoggedIn,
    Failed,
    Terminated(String),
    /// `(loaded, total)`: a total of -2 says the session is authenticated and
    /// the library is ready to load; -1 that it is loading, total unknown.
    Loaded(i32, i32),
}

/// The screen the application shows.
#[derive(Debug, Clone, PartialEq, Eq)]
pub enum Mode {
    Login,
    LoginQr,
    /// Typing the Steam user name (classic login).
    LoginUser,
    /// Typing the password (classic login).
    LoginPass,
    /// A classic login under way.
    LoginClassic,
    /// Typing a Steam Guard code asked for during a classic login.
    LoginGuard,
    Loading,
    /// The library browser.
    Browse,
    Failed,
    Terminated(String),
}

/// The first screen: the sign-in page without a remembered user, else the
/// loading screen.
pub fn initial_mode(default_user: &str) -> (m: Mode)
    ensures
        default_user@.len() == 0 ==> m == Mode::Login,
        default_user@.len() > 0 ==> m == Mode::Loading,
{
    if default_user.unicode_len() == 0 {
        Mode::Login
    } else {
        Mode::Loading
    }
}

/// An event of the main loop: a key (or other input) or a timer tick.
#[derive(Debug, Clone, Copy, PartialEq, Eq)]
pub enum Event<I> {
    Input(I),
    Tick,
}

/// The SteamID whose persona name is looked up after a health probe that
/// found an authenticated session with an account: the probe's own, when
/// it is given and not zero.
pub open spec fn persona_lookup_spec(health: HealthJson) -> Option<u64> {
    if health.logged_in && health.account is Some && health.steam_id is Some && health.steam_id->0 != 0 {
        health.steam_id
    } else {
        None
    }
}

pub fn persona_lookup(health: &HealthJson) -> (id: Option<u64>)
    ensures
        id == persona_lookup_spec(*health),
{
    if health.logged_in && health.account.is_some() {
        match health.steam_id {
            Some(id) => if id != 0 { Some(id) } else { None },
            None => None,
        }
    } else {
        None
    }
}

/// The outcome of a health probe: the next state, the error to show on the
/// sign-in page, and the name for the footer (the persona name when the
/// lookup found a non-empty one, else the account name).
pub open spec fn login_outcome_spec(health: Result<HealthJson, STError>, persona: Option<String>) -> (
    State,
    Option<Seq<char>>,
    Option<Seq<char>>,
) {
    match health {
        Ok(h) => if h.logged_in {
            (State::Loaded(0i32, -2i32), None, match h.account {
                Some(a) => Some(if present(persona) { persona->0@ } else { a@ }),
                None => None,
            })
        } else {
            (State::Failed, None, None)
        },
        Err(e) => (State::Failed, Some(describe_spec(e)), None),
    }
}

/// Decides on a health probe's answer (`aurelia login --health`): an
/// authenticated session is ready to load the library; otherwise the
/// session failed, with the probe's error to show when it could not run.
/// `persona` is the persona name found for [`persona_lookup`]'s SteamID.
pub fn handle_login(health: Result<HealthJson, STError>, persona: Option<String>) -> (out: (State, Option<String>, Option<String>))
    ensures
        out.0 == login_outcome_spec(health, persona).0,
        (out.1 is Some) == (login_outcome_spec(health, persona).1 is Some),
        out.1 is Some ==> out.1->0@ == login_outcome_spec(health, persona).1->0,
        (out.2 is Some) == (login_outcome_spec(health, persona).2 is Some),
        out.2 is Some ==> out.2->0@ == login_outcome_spec(health, persona).2->0,
{
    match health {
        Ok(h) => {
            if h.logged_in {
                let who = match h.account {
                    Some(a) => {
                        let name = match persona {
                            Some(p) => if p.as_str().unicode_len() > 0 { p } else { a },
                            None => a,
                        };
                        Some(name)
                    },
                    None => None,
                };
                (State::Loaded(0, -2), None, who)
            } else {
                (State::Failed, None, None)
            }
        },
        Err(e) => (State::Failed, Some(e.describe()), None),
    }
}

// --- Signing in ---

/// `s` without its whitespace.
pub open spec fn no_spaces(s: Seq<char>) -> Seq<char> {
    s.filter(|c: char| !is_space_spec(c))
}

/// `s` with its whitespace removed, as typed names and codes are taken.
pub fn without_spaces(s: &str) -> (r: String)
    ensures
        r@ == no_spaces(s@),
{
    let chars = chars_of(s);
    let mut out: Vec<char> = Vec::new();
    let mut i: usize = 0;
    proof {
        reveal(Seq::filter);
    }
    assert(no_spaces(chars@.take(0)) =~= Seq::<char>::empty());
    while i < chars.len()
        invariant
            i <= chars@.len(),
            out@ == no_spaces(chars@.take(i as int)),
        decreases chars@.len() - i,
    {
        proof {
            reveal(Seq::filter);
        }
        let ghost next = chars@.take(i + 1);
        assert(next.drop_last() =~= chars@.take(i as int));
        assert(next.last() == chars@[i as int]);
        let keep = !is_space(chars[i]);
        if keep {
            out.push(chars[i]);
            assert(no_spaces(next) == no_spaces(chars@.take(i as int)).push(chars@[i as int]));
        } else {
            assert(no_spaces(next) == no_spaces(chars@.take(i as int)));
        }
        i += 1;
    }
    assert(chars@.take(chars@.len() as int) =~= chars@);
    string_of(&out)
}

/// The QR code of `data` drawn in text, two module rows a line with
/// half-block characters, quiet zone included; nothing when the data cannot
/// be encoded.
pub uninterp spec fn qr_unicode(data: Seq<char>) -> Option<Seq<char>>;

/// Draws the QR code of `url` (`QrCode::new` on its bytes, then the
/// `Dense1x2` unicode renderer with the quiet zone); nothing when
/// `QrCode::new` refuses the data (it is too long for any QR version). The
/// drawing is a function of the text alone.
#[verifier::external_body]
fn qr_drawing(url: &str) -> (r: Option<String>)
    ensures
        r is Some <==> qr_unicode(url@) is Some,
        r is Some ==> r->0@ == qr_unicode(url@)->0,
{
    match qrcode::QrCode::new(url.as_bytes()) {
        Ok(code) => Some(code.render::<qrcode::render::unicode::Dense1x2>().quiet_zone(true).build()),
        Err(_) => None,
    }
}

/// What the QR sign-in page shows for the challenge `url`: its QR code, or
/// a note and the link itself when no code can be drawn.
pub open spec fn qr_page_text(url: Seq<char>) -> Seq<char> {
    match qr_unicode(url) {
        Some(t) => t,
        None => "(could not render QR code)\n"@ + url,
    }
}

/// The QR code to scan for the challenge `url`, as [`qr_page_text`] says.
pub fn render_qr_string(url: &str) -> (r: String)
    ensures
        r@ == qr_page_text(url@),
{
    match qr_drawing(url) {
        Some(t) => t,
        None => {
            proof {
                reveal_strlit("(could not render QR code)\n");
            }
            concat("(could not render QR code)\n", url)
        },
    }
}

/// A key as the sign-in pages read it.
#[derive(Debug, Clone, Copy, PartialEq, Eq, Structural)]
pub enum SignInKey {
    Char(char),
    Enter,
    Backspace,
    Esc,
    Other,
}

/// What the application is to do after a key on a sign-in page.
#[derive(Debug, Clone, PartialEq, Eq)]
pub enum SignInAction {
    Nothing,
    Quit,
    /// Probe the session again.
    CheckSession,
    /// Start a QR-code sign-in.
    LoginQr,
    /// Start a classic sign-in with this user name and password.
    LoginClassic(String, String),
    /// Hand this Steam Guard code to the sign-in under way.
    SubmitGuard(String),
}

/// A sign-in action with its text as character sequences.
pub enum ActionView {
    Nothing,
    Quit,
    CheckSession,
    LoginQr,
    LoginClassic(Seq<char>, Seq<char>),
    SubmitGuard(Seq<char>),
}

impl View for SignInAction {
    type V = ActionView;

    open spec fn view(&self) -> ActionView {
        match self {
            SignInAction::Nothing => ActionView::Nothing,
            SignInAction::Quit => ActionView::Quit,
            SignInAction::CheckSession => ActionView::CheckSession,
            SignInAction::LoginQr => ActionView::LoginQr,
            SignInAction::LoginClassic(u, p) => ActionView::LoginClassic(u@, p@),
            SignInAction::SubmitGuard(c) => ActionView::SubmitGuard(c@),
        }
    }
}

/// The screen and the text typed on the sign-in pages.
#[derive(Debug, Clone)]
pub struct SignIn {
    pub mode: Mode,
    pub user: String,
    pub password: String,
    pub guard_code: String,
}

/// The page, the user name, the password and the Steam Guard code.
pub type SignInState = (Mode, Seq<char>, Seq<char>, Seq<char>);

/// Enter confirms; a typed newline counts as Enter.
pub open spec fn is_enter(key: SignInKey) -> bool {
    key == SignInKey::Enter || key == SignInKey::Char('\n')
}

/// The character a key types into a text field: any but a newline.
pub open spec fn typed(key: SignInKey) -> Option<char> {
    match key {
        SignInKey::Char(c) => if c == '\n' { None } else { Some(c) },
        _ => None,
    }
}

/// A text field after a key: Backspace removes the last character, a typed
/// character is appended; other keys leave it.
pub open spec fn edited(field: Seq<char>, key: SignInKey) -> Seq<char> {
    if key == SignInKey::Backspace {
        if field.len() > 0 { field.drop_last() } else { field }
    } else {
        match typed(key) {
            Some(c) => field.push(c),
            None => field,
        }
    }
}

/// What a key does on the sign-in pages: the state after it and the
/// action to take. On the library browser it does nothing here.
pub open spec fn sign_in_step(st: SignInState, key: SignInKey) -> (SignInState, ActionView) {
    let (mode, user, pass, guard) = st;
    let q = key == SignInKey::Char('q');
    match mode {
        Mode::Terminated(_) | Mode::Loading =>
            (st, if q { ActionView::Quit } else { ActionView::Nothing }),
        Mode::Login | Mode::Failed =>
            if q {
                (st, ActionView::Quit)
            } else if key == SignInKey::Char('r') {
                ((Mode::Loading, user, pass, guard), ActionView::CheckSession)
            } else if key == SignInKey::Char('y') {
                ((Mode::LoginQr, user, pass, guard), ActionView::LoginQr)
            } else if is_enter(key) {
                ((Mode::LoginUser, Seq::empty(), Seq::empty(), guard), ActionView::Nothing)
            } else {
                (st, ActionView::Nothing)
            },
        Mode::LoginQr | Mode::LoginClassic =>
            if q {
                (st, ActionView::Quit)
            } else if key == SignInKey::Esc {
                ((Mode::Login, user, pass, guard), ActionView::Nothing)
            } else {
                (st, ActionView::Nothing)
            },
        Mode::LoginUser =>
            if key == SignInKey::Esc {
                ((Mode::Login, user, pass, guard), ActionView::Nothing)
            } else if is_enter(key) {
                if no_spaces(user).len() > 0 {
                    ((Mode::LoginPass, no_spaces(user), Seq::empty(), guard), ActionView::Nothing)
                } else {
                    (st, ActionView::Nothing)
                }
            } else {
                ((mode, edited(user, key), pass, guard), ActionView::Nothing)
            },
        Mode::LoginPass =>
            if key == SignInKey::Esc {
                ((Mode::LoginUser, user, Seq::empty(), guard), ActionView::Nothing)
            } else if is_enter(key) {
                if pass.len() > 0 {
                    ((Mode::LoginClassic, user, Seq::empty(), guard), ActionView::LoginClassic(user, pass))
                } else {
                    (st, ActionView::Nothing)
                }
            } else {
                ((mode, user, edited(pass, key), guard), ActionView::Nothing)
            },
        Mode::LoginGuard =>
            if key == SignInKey::Esc {
                ((Mode::Login, user, pass, guard), ActionView::Nothing)
            } else if is_enter(key) {
                if no_spaces(guard).len() > 0 {
                    ((Mode::LoginClassic, user, pass, Seq::empty()), ActionView::SubmitGuard(no_spaces(guard)))
                } else {
                    (st, ActionView::Nothing)
                }
            } else {
                ((mode, user, pass, edited(guard, key)), ActionView::Nothing)
            },
        Mode::Browse => (st, ActionView::Nothing),
    }
}

fn edit(field: &mut String, key: SignInKey)
    ensures
        final(field)@ == edited(old(field)@, key),
{
    match key {
        SignInKey::Backspace => pop_char(field),
        SignInKey::Char(c) => {
            if c != '\n' {
                push_char(field, c);
            }
        },
        _ => {},
    }
}

impl SignIn {
    pub open spec fn state(self) -> SignInState {
        (self.mode, self.user@, self.password@, self.guard_code@)
    }

    /// Handles a key on the sign-in pages, as [`sign_in_step`] says. A
    /// password handed to a classic sign-in is not kept.
    pub fn key(&mut self, key: SignInKey) -> (act: SignInAction)
        ensures
            (final(self).state(), act@) == sign_in_step(old(self).state(), key),
            act is LoginClassic ==> final(self).password@.len() == 0,
    {
        let q = key == SignInKey::Char('q');
        let enter = key == SignInKey::Enter || key == SignInKey::Char('\n');
        let esc = key == SignInKey::Esc;
        match self.mode {
            Mode::Terminated(_) | Mode::Loading => {
                if q { SignInAction::Quit } else { SignInAction::Nothing }
            },
            Mode::Login | Mode::Failed => {
                if q {
                    SignInAction::Quit
                } else if key == SignInKey::Char('r') {
                    self.mode = Mode::Loading;
                    SignInAction::CheckSession
                } else if key == SignInKey::Char('y') {
                    self.mode = Mode::LoginQr;
                    SignInAction::LoginQr
                } else if enter {
                    self.user = String::new();
                    self.password = String::new();
                    self.mode = Mode::LoginUser;
                    SignInAction::Nothing
                } else {
                    SignInAction::Nothing
                }
            },
            Mode::LoginQr | Mode::LoginClassic => {
                if q {
                    SignInAction::Quit
                } else {
                    if esc {
                        self.mode = Mode::Login;
                    }
                    SignInAction::Nothing
                }
            },
            Mode::LoginUser => {
                if esc {
                    self.mode = Mode::Login;
                } else if enter {
                    let user = without_spaces(self.user.as_str());
                    if user.as_str().unicode_len() > 0 {
                        self.user = user;
                        self.password = String::new();
                        self.mode = Mode::LoginPass;
                    }
                } else {
                    edit(&mut self.user, key);
                }
                SignInAction::Nothing
            },
            Mode::LoginPass => {
                if esc {
                    self.password = String::new();
                    self.mode = Mode::LoginUser;
                    SignInAction::Nothing
                } else if enter {
                    if self.password.as_str().unicode_len() > 0 {
                        let password = owned(self.password.as_str());
                        self.password = String::new();
                        self.mode = Mode::LoginClassic;
                        SignInAction::LoginClassic(owned(self.user.as_str()), password)
                    } else {
                        SignInAction::Nothing
                    }
                } else {
                    edit(&mut self.password, key);
                    SignInAction::Nothing
                }
            },
            Mode::LoginGuard => {
                if esc {
                    self.mode = Mode::Login;
                    SignInAction::Nothing
                } else if enter {
                    let code = without_spaces(self.guard_code.as_str());
                    if code.as_str().unicode_len() > 0 {
                        self.guard_code = String::new();
                        self.mode = Mode::LoginClassic;
                        SignInAction::SubmitGuard(code)
                    } else {
                        SignInAction::Nothing
                    }
                } else {
                    edit(&mut self.guard_code, key);
                    SignInAction::Nothing
                }
            },
            Mode::Browse => SignInAction::Nothing,
        }
    }
}

/// What the main loop does once it has read the session state.
#[derive(Debug, Clone, Copy, PartialEq, Eq)]
pub enum SessionTask {
    Nothing,
    /// Fetch the library.
    LoadGames,
    /// Read the fetched library from the cache; once read, browse it.
    ReadGames,
}

/// The screen after reading the session state `state` on `mode`, whether
/// the library shown is still the cached one, the task to run, and whether
/// a Steam Guard code is now asked for (its field emptied). `guard_asked`
/// says the classic sign-in under way asks for a code.
pub open spec fn poll_spec(mode: Mode, state: State, guard_asked: bool, cached: bool) -> (Mode, bool, SessionTask, bool) {
    let ready = state matches State::Loaded(_, t) && t == -2;
    let failed = state == State::Failed;
    // Loading: a ready session browses the cached library, or fetches it.
    let (m1, c1, task) = if mode == Mode::Loading {
        if ready {
            if cached { (Mode::Browse, false, SessionTask::Nothing) } else { (mode, cached, SessionTask::LoadGames) }
        } else if state == State::LoggedIn {
            (mode, cached, SessionTask::ReadGames)
        } else if failed {
            (Mode::Login, cached, SessionTask::Nothing)
        } else {
            (mode, cached, SessionTask::Nothing)
        }
    } else {
        (mode, cached, SessionTask::Nothing)
    };
    // A QR sign-in that went through loads the library afresh.
    let (m2, c2) = if m1 == Mode::LoginQr {
        if ready { (Mode::Loading, false) } else if failed { (Mode::Login, c1) } else { (m1, c1) }
    } else {
        (m1, c1)
    };
    // A classic sign-in may first ask for a Steam Guard code.
    let guard = m2 == Mode::LoginClassic && guard_asked;
    let m3 = if guard { Mode::LoginGuard } else { m2 };
    let (m4, c3) = if m3 == Mode::LoginClassic || m3 == Mode::LoginGuard {
        if ready { (Mode::Loading, false) } else if failed { (Mode::Login, c2) } else { (m3, c2) }
    } else {
        (m3, c2)
    };
    let m5 = match state {
        State::Terminated(e) => Mode::Terminated(e),
        _ => m4,
    };
    (m5, c3, task, guard)
}

/// The session part of the main loop's decisions, as [`poll_spec`] says.
pub fn poll_session(mode: Mode, state: &State, guard_asked: bool, cached: bool) -> (out: (Mode, bool, SessionTask, bool))
    ensures
        out == poll_spec(mode, *state, guard_asked, cached),
{
    let ready = match state {
        State::Loaded(_, t) => *t == -2,
        _ => false,
    };
    let failed = match state {
        State::Failed => true,
        _ => false,
    };
    let logged_in = match state {
        State::LoggedIn => true,
        _ => false,
    };
    let mut mode = mode;
    let mut cached = cached;
    let mut task = SessionTask::Nothing;
    if let Mode::Loading = mode {
        if ready {
            if cached {
                mode = Mode::Browse;
                cached = false;
            } else {
                task = SessionTask::LoadGames;
            }
        } else if logged_in {
            task = SessionTask::ReadGames;
        } else if failed {
            mode = Mode::Login;
        }
    }
    if let Mode::LoginQr = mode {
        if ready {
            mode = Mode::Loading;
            cached = false;
        } else if failed {
            mode = Mode::Login;
        }
    }
    let guard = match mode {
        Mode::LoginClassic => guard_asked,
        _ => false,
    };
    if guard {
        mode = Mode::LoginGuard;
    }
    let classic = match mode {
        Mode::LoginClassic | Mode::LoginGuard => true,
        _ => false,
    };
    if classic {
        if ready {
            mode = Mode::Loading;
            cached = false;
        } else if failed {
            mode = Mode::Login;
        }
    }
    if let State::Terminated(e) = state {
        mode = Mode::Terminated(e.clone());
    }
    (mode, cached, task, guard)
}

// --- Loading the library ---

/// The key games are ordered by: the name in lower case.
pub open spec fn name_key(g: Game) -> Seq<char> {
    lowercase_of(g.name@)
}

/// Whether `s` is ordered by name key.
pub open spec fn by_name(s: Seq<Game>) -> bool {
    forall|i: int, j: int| 0 <= i < j < s.len() ==> !lex_lt(name_key(s[j]), name_key(s[i]))
}

/// The games of `s` whose name key is `k`, in their order in `s`.
pub open spec fn named(s: Seq<Game>, k: Seq<char>) -> Seq<Game>
    decreases s.len(),
{
    if s.len() == 0 {
        s
    } else {
        let rest = named(s.drop_last(), k);
        if name_key(s.last()) == k { rest.push(s.last()) } else { rest }
    }
}

/// `r` is `s` stably sorted by name key: ordered, with the games of each
/// key in their order in `s`.
pub open spec fn stable_by_name(r: Seq<Game>, s: Seq<Game>) -> bool {
    &&& by_name(r)
    &&& forall|k: Seq<char>| #[trigger] named(r, k) == named(s, k)
}

proof fn lemma_named_add(a: Seq<Game>, b: Seq<Game>, k: Seq<char>)
    ensures
        named(a + b, k) == named(a, k) + named(b, k),
    decreases b.len(),
{
    if b.len() == 0 {
        assert(a + b =~= a);
        assert(named(a, k) + named(b, k) =~= named(a, k));
    } else {
        lemma_named_add(a, b.drop_last(), k);
        assert((a + b).drop_last() =~= a + b.drop_last());
        assert((a + b).last() == b.last());
        if name_key(b.last()) == k {
            assert(named(a, k) + named(b, k) =~= (named(a, k) + named(b.drop_last(), k)).push(b.last()));
        }
    }
}

proof fn lemma_named_none(s: Seq<Game>, k: Seq<char>)
    requires
        forall|i: int| 0 <= i < s.len() ==> name_key(s[i]) != k,
    ensures
        named(s, k) == Seq::<Game>::empty(),
    decreases s.len(),
{
    if s.len() > 0 {
        lemma_named_none(s.drop_last(), k);
    }
}

proof fn lemma_named_one(x: Game, k: Seq<char>)
    ensures
        named(seq![x], k) == (if name_key(x) == k { seq![x] } else { Seq::<Game>::empty() }),
{
    let s = seq![x];
    let e = Seq::<Game>::empty();
    assert(s.drop_last() =~= e);
    assert(s.last() == x);
    assert(named(e, k) == e);
    assert(e.push(x) =~= s);
}

/// Where a game with key `kx` goes in the name-ordered `r` (whose keys are
/// `keys`): after every game whose key is not after `kx`.
fn name_insertion_point(keys: &Vec<Vec<char>>, kx: &Vec<char>, Ghost(r): Ghost<Seq<Game>>) -> (p: usize)
    requires
        by_name(r),
        keys@.len() == r.len(),
        forall|i: int| 0 <= i < r.len() ==> #[trigger] keys@[i]@ == name_key(r[i]),
    ensures
        p <= r.len(),
        forall|i: int| 0 <= i < p ==> !lex_lt(kx@, #[trigger] name_key(r[i])),
        forall|i: int| p <= i < r.len() ==> lex_lt(kx@, #[trigger] name_key(r[i])),
{
    let mut p: usize = 0;
    while p < keys.len() && !lex_less(kx, &keys[p])
        invariant
            p <= keys@.len(),
            keys@.len() == r.len(),
            forall|i: int| 0 <= i < r.len() ==> #[trigger] keys@[i]@ == name_key(r[i]),
            forall|i: int| 0 <= i < p ==> !lex_lt(kx@, #[trigger] name_key(r[i])),
        decreases keys.len() - p,
    {
        p += 1;
    }
    proof {
        if p < r.len() {
            assert forall|i: int| p <= i < r.len() implies lex_lt(kx@, #[trigger] name_key(r[i])) by {
                if i > p {
                    assert(!lex_lt(name_key(r[i]), name_key(r[p as int])));
                    lemma_lex_total(name_key(r[i]), name_key(r[p as int]));
                    if lex_lt(name_key(r[p as int]), name_key(r[i])) {
                        lemma_lex_transitive(kx@, name_key(r[p as int]), name_key(r[i]));
                    }
                }
            }
        }
    }
    p
}

/// Stably sorts games by name key (insertion sort), as the cache is kept.
pub fn sort_by_name(v: Vec<Game>) -> (r: Vec<Game>)
    ensures
        stable_by_name(r@, v@),
{
    let ghost v0 = v@;
    let mut rest = v;
    let mut r: Vec<Game> = Vec::new();
    let mut keys: Vec<Vec<char>> = Vec::new();
    proof {
        assert forall|k: Seq<char>| #[trigger] named(v0, k) == named(r@, k) + named(rest@, k) by {
            assert(named(r@, k) + named(rest@, k) =~= named(rest@, k));
        }
    }
    while rest.len() > 0
        invariant
            by_name(r@),
            keys@.len() == r@.len(),
            forall|i: int| 0 <= i < r@.len() ==> #[trigger] keys@[i]@ == name_key(r@[i]),
            forall|k: Seq<char>| #[trigger] named(v0, k) == named(r@, k) + named(rest@, k),
        decreases rest.len(),
    {
        let ghost old_rest = rest@;
        let ghost old_r = r@;
        let ghost old_keys = keys@;
        let x = rest.remove(0);
        let lower = to_lowercase(x.name.as_str());
        let kx = chars_of(lower.as_str());
        let p = name_insertion_point(&keys, &kx, Ghost(r@));
        let ghost kxs = kx@;
        r.insert(p, x);
        keys.insert(p, kx);
        proof {
            let a = old_r.subrange(0, p as int);
            let b = old_r.subrange(p as int, old_r.len() as int);
            assert(old_rest =~= seq![x] + rest@);
            assert(old_r =~= a + b);
            assert(r@ =~= (a + seq![x]) + b);
            assert(kxs == name_key(x));
            assert forall|i: int| 0 <= i < r@.len() implies #[trigger] keys@[i]@ == name_key(r@[i]) by {
                if i < p {
                    assert(keys@[i] == old_keys[i]);
                } else if i > p {
                    assert(keys@[i] == old_keys[i - 1]);
                }
            }
            assert forall|i: int, j: int| 0 <= i < j < r@.len() implies !lex_lt(name_key(r@[j]), name_key(r@[i])) by {
                if j < p {
                } else if j == p {
                } else if i < p {
                    // r[i] = old_r[i] (not after kx), r[j] = old_r[j-1] (after kx)
                    let ki = name_key(old_r[i]);
                    let kj = name_key(old_r[j - 1]);
                    assert(!lex_lt(kxs, ki));
                    assert(lex_lt(kxs, kj));
                    if lex_lt(kj, ki) {
                        lemma_lex_total(kxs, ki);
                        if lex_lt(ki, kxs) {
                            lemma_lex_transitive(kj, ki, kxs);
                            lemma_lex_asymmetric(kxs, kj);
                        } else {
                            lemma_lex_asymmetric(kxs, kj);
                        }
                    }
                } else if i == p {
                    lemma_lex_asymmetric(kxs, name_key(old_r[j - 1]));
                } else {
                    assert(!lex_lt(name_key(old_r[j - 1]), name_key(old_r[i - 1])));
                }
            }
            assert forall|k: Seq<char>| #[trigger] named(v0, k) == named(r@, k) + named(rest@, k) by {
                lemma_named_add(seq![x], rest@, k);
                lemma_named_one(x, k);
                lemma_named_add(a, b, k);
                lemma_named_add(a + seq![x], b, k);
                lemma_named_add(a, seq![x], k);
                if k == name_key(x) {
                    assert forall|i: int| 0 <= i < b.len() implies name_key(b[i]) != k by {
                        assert(b[i] == old_r[p + i]);
                        assert(lex_lt(kxs, name_key(old_r[p + i])));
                        lemma_lex_irreflexive(kxs);
                    }
                    lemma_named_none(b, k);
                    assert(named(v0, k) =~= named(a, k) + seq![x] + named(rest@, k));
                    assert(named(r@, k) + named(rest@, k) =~= named(a, k) + seq![x] + named(rest@, k));
                } else {
                    assert(named(v0, k) =~= named(a, k) + named(b, k) + named(rest@, k));
                    assert(named(r@, k) + named(rest@, k) =~= named(a, k) + named(b, k) + named(rest@, k));
                }
            }
        }
    }
    proof {
        assert forall|k: Seq<char>| #[trigger] named(r@, k) == named(v0, k) by {
            assert(rest@ =~= Seq::<Game>::empty());
            assert(named(r@, k) + named(rest@, k) =~= named(r@, k));
        }
    }
    r
}

/// The status line of the classic sign-in page for the login's phase.
pub open spec fn phase_text_spec(phase: LoginPhase) -> Seq<char> {
    match phase {
        LoginPhase::AwaitingConfirmation => "Signing in \u{2014} if prompted, approve this login in your Steam Mobile app..."@,
        LoginPhase::DeviceConfirmation => "Approve this login in your Steam Mobile app, then wait..."@,
        LoginPhase::Failed(m) => "Login failed: "@ + m@,
        _ => "Signing in..."@,
    }
}

/// The status line of the classic sign-in page.
pub fn phase_text(phase: &LoginPhase) -> (r: String)
    ensures
        r@ == phase_text_spec(*phase),
{
    proof {
        reveal_strlit("Signing in \u{2014} if prompted, approve this login in your Steam Mobile app...");
        reveal_strlit("Approve this login in your Steam Mobile app, then wait...");
        reveal_strlit("Login failed: ");
        reveal_strlit("Signing in...");
    }
    match phase {
        LoginPhase::AwaitingConfirmation => owned("Signing in \u{2014} if prompted, approve this login in your Steam Mobile app..."),
        LoginPhase::DeviceConfirmation => owned("Approve this login in your Steam Mobile app, then wait..."),
        LoginPhase::Failed(m) => concat("Login failed: ", m.as_str()),
        _ => owned("Signing in..."),
    }
}

/// The problem a sign-in for a blank user name is answered with.
pub open spec fn blank_user_message() -> Seq<char> {
    "Blank string. Requires user to log in."@
}

/// A sign-in needs a user name: a blank one is refused.
pub fn check_user(user: &str) -> (r: Result<(), STError>)
    ensures
        user@.len() == 0 <==> r is Err,
        r matches Err(e) ==> (e matches STError::Problem(m) && m@ == blank_user_message()),
{
    if user.unicode_len() == 0 {
        proof {
            reveal_strlit("Blank string. Requires user to log in.");
        }
        Err(STError::Problem(owned("Blank string. Requires user to log in.")))
    } else {
        Ok(())
    }
}

/// Where a finished sign-in leaves the session: signed in, with the library
/// to load, or failed with a message that says which sign-in failed and why.
pub open spec fn sign_in_end_spec(qr: bool, result: Result<(), STError>) -> (State, Option<Seq<char>>) {
    match result {
        Ok(()) => (State::Loaded(0i32, -2i32), None),
        Err(e) => (State::Failed, Some((if qr { "QR sign-in failed: "@ } else { "Sign-in failed: "@ }) + describe_spec(e))),
    }
}

/// The session after a sign-in (QR or classic) finished with `result`, and
/// the error message to show, if any.
pub fn sign_in_end(qr: bool, result: Result<(), STError>) -> (out: (State, Option<String>))
    ensures
        out.0 == sign_in_end_spec(qr, result).0,
        (out.1 is Some) == (sign_in_end_spec(qr, result).1 is Some),
        out.1 is Some ==> out.1->0@ == sign_in_end_spec(qr, result).1->0,
{
    match result {
        Ok(()) => (State::Loaded(0, -2), None),
        Err(e) => {
            let d = e.describe();
            let m = if qr {
                concat("QR sign-in failed: ", d.as_str())
            } else {
                concat("Sign-in failed: ", d.as_str())
            };
            proof {
                reveal_strlit("QR sign-in failed: ");
                reveal_strlit("Sign-in failed: ");
            }
            (State::Failed, Some(m))
        },
    }
}

/// Decides on a library fetch: the games sorted by name for the cache and
/// the session logged in, or the session ended with the failure.
pub fn handle_load_games(games: Result<Vec<Game>, STError>) -> (out: (State, Option<Vec<Game>>))
    ensures
        games is Ok ==> out.0 == State::LoggedIn && out.1 is Some && stable_by_name(out.1->0@, games->Ok_0@),
        games is Err ==> out.1 is None && out.0 is Terminated
            && out.0->Terminated_0@ == "Failed to load library:\n"@ + describe_spec(games->Err_0),
{
    match games {
        Ok(list) => (State::LoggedIn, Some(sort_by_name(list))),
        Err(e) => {
            let d = e.describe();
            (State::Terminated(concat("Failed to load library:\n", d.as_str())), None)
        },
    }
}

} // verus!
