//! Signing in and checking the session against the CookyCardz API.
//!
//! The exchanges are state machines: the caller performs each action (reading
//! the stored access token, calling the API, asking the user, touching the
//! local database) and reports its outcome as the next event.

use vstd::prelude::*;
use crate::lists::{collect_some_strings, some_views, views};

verus! {

/// The profile part of the answer to a session check.
pub struct Profile {
    pub username: String,
}

/// The answer to a session check.
pub struct CheckAuthResponse {
    pub profile: Profile,
}

/// An HTTP status in the success class (200 to 299).
pub open spec fn is_success_status(code: u16) -> bool {
    200 <= code <= 299
}

/// An HTTP status in the client error class (400 to 499).
pub open spec fn is_client_error_status(code: u16) -> bool {
    400 <= code <= 499
}

/// Whether `code` is a success status.
pub fn is_success(code: u16) -> (r: bool)
    ensures
        r == is_success_status(code),
{
    200 <= code && code <= 299
}

/// Whether `code` is a client error status.
pub fn is_client_error(code: u16) -> (r: bool)
    ensures
        r == is_client_error_status(code),
{
    400 <= code && code <= 499
}

/// The value of the `Authorization` header that presents `token`.
pub open spec fn bearer(token: Seq<char>) -> Seq<char> {
    "Bearer "@ + token
}

/// Builds the `Authorization` header value for an access token.
pub fn bearer_authorization(token: &str) -> (r: String)
    ensures
        r@ == bearer(token@),
{
    String::from_str("Bearer ").concat(token)
}

/// The address of the session check, below the API root `api_url`.
pub fn check_auth_url(api_url: &str) -> (r: String)
    ensures
        r@ == api_url@ + "/auth/checkAuth"@,
{
    String::from_str(api_url).concat("/auth/checkAuth")
}

/// The address of the sign-in call, below the API root `api_url`.
pub fn login_url(api_url: &str) -> (r: String)
    ensures
        r@ == api_url@ + "/auth/login"@,
{
    String::from_str(api_url).concat("/auth/login")
}

/// Every entry of `v` equals `x` (true of an empty `v`).
pub open spec fn all_equal(v: Seq<Seq<char>>, x: Seq<char>) -> bool {
    forall|i: int| 0 <= i < v.len() ==> v[i] == x
}

/// Whether every entry of `v` equals `x`; an empty `v` gives `true`.
pub fn contains_only(v: &[String], x: &String) -> (r: bool)
    ensures
        r == all_equal(views(v@), x@),
{
    let mut i: usize = 0;
    while i < v.len()
        invariant
            i <= v.len(),
            forall|j: int| 0 <= j < i ==> v@[j]@ == x@,
        decreases v.len() - i,
    {
        if !(v[i] == *x) {
            assert(views(v@)[i as int] != x@);
            return false;
        }
        i = i + 1;
    }
    true
}

/// The names of the accounts that own local data, from the database rows
/// (rows without a name are skipped).
pub fn usernames_from_rows(rows: &[Option<String>]) -> (r: Vec<String>)
    ensures
        views(r@) == some_views(rows@),
{
    collect_some_strings(rows)
}

// ---------------------------------------------------------------------------
// Session check
// ---------------------------------------------------------------------------

/// Where a session check stands. `retried` tells whether the access token
/// has already been refreshed because the API refused it.
#[derive(Clone, Copy, PartialEq, Eq, Structural, Debug)]
pub enum CheckAuthStage {
    Begin,
    AwaitRefresh { retried: bool },
    AwaitToken { retried: bool },
    AwaitResponse { retried: bool },
    Finished,
}

/// What the caller reports back to a session check.
pub enum CheckAuthEvent {
    /// The access token currently held in memory.
    Token(Option<String>),
    /// The outcome of refreshing the access token.
    Refreshed(Result<(), String>),
    /// The HTTP status of the session check request, or why it was not sent.
    Responded(Result<u16, String>),
}

/// What a session check asks the caller to do next.
pub enum CheckAuthAction {
    /// Read the access token held in memory and report it.
    ReadToken,
    /// Refresh the access token with the stored refresh token.
    Refresh,
    /// Send the session check with this `Authorization` header value.
    Request { authorization: String },
    /// Parse the body of the last answer: its outcome is the check's outcome.
    ParseResponse,
    /// Forget the access token; the check fails with `message`.
    SignOut { message: String },
    /// The check fails with `message`.
    Fail { message: String },
    /// The event does not belong to this stage; nothing to do.
    Ignore,
}

/// The mathematical form of [`CheckAuthAction`].
pub enum CheckAuthCommand {
    ReadToken,
    Refresh,
    Request { authorization: Seq<char> },
    ParseResponse,
    SignOut { message: Seq<char> },
    Fail { message: Seq<char> },
    Ignore,
}

impl View for CheckAuthAction {
    type V = CheckAuthCommand;

    open spec fn view(&self) -> CheckAuthCommand {
        match self {
            CheckAuthAction::ReadToken => CheckAuthCommand::ReadToken,
            CheckAuthAction::Refresh => CheckAuthCommand::Refresh,
            CheckAuthAction::Request { authorization } => CheckAuthCommand::Request {
                authorization: authorization@,
            },
            CheckAuthAction::ParseResponse => CheckAuthCommand::ParseResponse,
            CheckAuthAction::SignOut { message } => CheckAuthCommand::SignOut { message: message@ },
            CheckAuthAction::Fail { message } => CheckAuthCommand::Fail { message: message@ },
            CheckAuthAction::Ignore => CheckAuthCommand::Ignore,
        }
    }
}

/// The session check, step by step: refresh a missing token first; read the
/// token (no token: "Not logged in"); send the check; on a client error
/// refresh and send once more; a success answer is parsed, any other answer
/// forgets the token and fails with "Not authenticated". Errors of a refresh
/// or of sending end the check with their own message.
pub open spec fn check_auth_next(stage: CheckAuthStage, event: CheckAuthEvent) -> (
    CheckAuthStage,
    CheckAuthCommand,
) {
    match (stage, event) {
        (CheckAuthStage::Begin, CheckAuthEvent::Token(None)) => (
            CheckAuthStage::AwaitRefresh { retried: false },
            CheckAuthCommand::Refresh,
        ),
        (CheckAuthStage::Begin, CheckAuthEvent::Token(Some(_))) => (
            CheckAuthStage::AwaitToken { retried: false },
            CheckAuthCommand::ReadToken,
        ),
        (CheckAuthStage::AwaitRefresh { retried }, CheckAuthEvent::Refreshed(Ok(()))) => (
            CheckAuthStage::AwaitToken { retried },
            CheckAuthCommand::ReadToken,
        ),
        (CheckAuthStage::AwaitRefresh { .. }, CheckAuthEvent::Refreshed(Err(e))) => (
            CheckAuthStage::Finished,
            CheckAuthCommand::Fail { message: e@ },
        ),
        (CheckAuthStage::AwaitToken { retried }, CheckAuthEvent::Token(Some(t))) => (
            CheckAuthStage::AwaitResponse { retried },
            CheckAuthCommand::Request { authorization: bearer(t@) },
        ),
        (CheckAuthStage::AwaitToken { .. }, CheckAuthEvent::Token(None)) => (
            CheckAuthStage::Finished,
            CheckAuthCommand::Fail { message: "Not logged in"@ },
        ),
        (CheckAuthStage::AwaitResponse { .. }, CheckAuthEvent::Responded(Err(e))) => (
            CheckAuthStage::Finished,
            CheckAuthCommand::Fail { message: e@ },
        ),
        (CheckAuthStage::AwaitResponse { retried }, CheckAuthEvent::Responded(Ok(code))) => {
            if !retried && is_client_error_status(code) {
                (CheckAuthStage::AwaitRefresh { retried: true }, CheckAuthCommand::Refresh)
            } else if is_success_status(code) {
                (CheckAuthStage::Finished, CheckAuthCommand::ParseResponse)
            } else {
                (CheckAuthStage::Finished, CheckAuthCommand::SignOut { message: "Not authenticated"@ })
            }
        },
        _ => (stage, CheckAuthCommand::Ignore),
    }
}

/// Starts a session check: its first action is to read the access token.
pub fn check_auth_start() -> (r: (CheckAuthStage, CheckAuthAction))
    ensures
        r.0 == CheckAuthStage::Begin,
        r.1@ == CheckAuthCommand::ReadToken,
{
    (CheckAuthStage::Begin, CheckAuthAction::ReadToken)
}

/// Advances a session check by one event.
pub fn check_auth_step(stage: CheckAuthStage, event: CheckAuthEvent) -> (r: (
    CheckAuthStage,
    CheckAuthAction,
))
    ensures
        (r.0, r.1@) == check_auth_next(stage, event),
{
    match stage {
        CheckAuthStage::Begin => match event {
            CheckAuthEvent::Token(None) => (
                CheckAuthStage::AwaitRefresh { retried: false },
                CheckAuthAction::Refresh,
            ),
            CheckAuthEvent::Token(Some(_)) => (
                CheckAuthStage::AwaitToken { retried: false },
                CheckAuthAction::ReadToken,
            ),
            _ => (stage, CheckAuthAction::Ignore),
        },
        CheckAuthStage::AwaitRefresh { retried } => match event {
            CheckAuthEvent::Refreshed(Ok(())) => (
                CheckAuthStage::AwaitToken { retried },
                CheckAuthAction::ReadToken,
            ),
            CheckAuthEvent::Refreshed(Err(e)) => (
                CheckAuthStage::Finished,
                CheckAuthAction::Fail { message: e },
            ),
            _ => (stage, CheckAuthAction::Ignore),
        },
        CheckAuthStage::AwaitToken { retried } => match event {
            CheckAuthEvent::Token(Some(t)) => (
                CheckAuthStage::AwaitResponse { retried },
                CheckAuthAction::Request { authorization: bearer_authorization(t.as_str()) },
            ),
            CheckAuthEvent::Token(None) => (
                CheckAuthStage::Finished,
                CheckAuthAction::Fail { message: String::from_str("Not logged in") },
            ),
            _ => (stage, CheckAuthAction::Ignore),
        },
        CheckAuthStage::AwaitResponse { retried } => match event {
            CheckAuthEvent::Responded(Err(e)) => (
                CheckAuthStage::Finished,
                CheckAuthAction::Fail { message: e },
            ),
            CheckAuthEvent::Responded(Ok(code)) => {
                if !retried && is_client_error(code) {
                    (CheckAuthStage::AwaitRefresh { retried: true }, CheckAuthAction::Refresh)
                } else if is_success(code) {
                    (CheckAuthStage::Finished, CheckAuthAction::ParseResponse)
                } else {
                    (
                        CheckAuthStage::Finished,
                        CheckAuthAction::SignOut { message: String::from_str("Not authenticated") },
                    )
                }
            },
            _ => (stage, CheckAuthAction::Ignore),
        },
        CheckAuthStage::Finished => (stage, CheckAuthAction::Ignore),
    }
}

/// How far a session check is from its end: every step that does something
/// brings it closer.
pub open spec fn check_auth_rank(stage: CheckAuthStage) -> nat {
    match stage {
        CheckAuthStage::Begin => 7,
        CheckAuthStage::AwaitRefresh { retried } => if retried { 3 } else { 6 },
        CheckAuthStage::AwaitToken { retried } => if retried { 2 } else { 5 },
        CheckAuthStage::AwaitResponse { retried } => if retried { 1 } else { 4 },
        CheckAuthStage::Finished => 0,
    }
}

/// A session check ends: each event either is ignored, leaving the stage as
/// it was, or moves the check strictly closer to its end, so that it asks for
/// at most seven actions after the first.
pub proof fn lemma_check_auth_progress(stage: CheckAuthStage, event: CheckAuthEvent)
    ensures
        check_auth_next(stage, event).1 is Ignore ==> check_auth_next(stage, event).0 == stage,
        !(check_auth_next(stage, event).1 is Ignore) ==> check_auth_rank(
            check_auth_next(stage, event).0,
        ) < check_auth_rank(stage),
        check_auth_rank(stage) <= 7,
{
}

/// A refused session check is retried once only: after the retry, no answer
/// leads to another refresh, and a finished check asks for nothing more.
pub proof fn lemma_check_auth_retries_once(retried: bool, event: CheckAuthEvent)
    ensures
        retried ==> !(check_auth_next(CheckAuthStage::AwaitResponse { retried }, event).1 is Refresh),
        check_auth_next(CheckAuthStage::Finished, event).1 is Ignore,
{
}

/// A success answer is always parsed, and any other answer that is not
/// retried forgets the access token and fails with "Not authenticated".
pub proof fn lemma_check_auth_answers(retried: bool, code: u16)
    ensures
        is_success_status(code) ==> check_auth_next(
            CheckAuthStage::AwaitResponse { retried },
            CheckAuthEvent::Responded(Ok(code)),
        ).1 is ParseResponse,
        !is_success_status(code) && (retried || !is_client_error_status(code)) ==> check_auth_next(
            CheckAuthStage::AwaitResponse { retried },
            CheckAuthEvent::Responded(Ok(code)),
        ).1 == (CheckAuthCommand::SignOut { message: "Not authenticated"@ }),
{
}

/// A session check with a token in memory sends it as a bearer token; when
/// the API refuses it with a client error the token is refreshed and read
/// again, and the new token is sent the same way, once; with no token in
/// memory the token is refreshed first.
pub proof fn lemma_check_auth_requests(retried: bool, token: String, code: u16)
    ensures
        check_auth_next(CheckAuthStage::AwaitToken { retried }, CheckAuthEvent::Token(Some(token)))
            == (
            CheckAuthStage::AwaitResponse { retried },
            CheckAuthCommand::Request { authorization: "Bearer "@ + token@ },
        ),
        is_client_error_status(code) ==> check_auth_next(
            CheckAuthStage::AwaitResponse { retried: false },
            CheckAuthEvent::Responded(Ok(code)),
        ) == (CheckAuthStage::AwaitRefresh { retried: true }, CheckAuthCommand::Refresh),
        check_auth_next(CheckAuthStage::AwaitRefresh { retried }, CheckAuthEvent::Refreshed(Ok(())))
            == (CheckAuthStage::AwaitToken { retried }, CheckAuthCommand::ReadToken),
        check_auth_next(CheckAuthStage::Begin, CheckAuthEvent::Token(None)) == (
            CheckAuthStage::AwaitRefresh { retried: false },
            CheckAuthCommand::Refresh,
        ),
        check_auth_next(CheckAuthStage::AwaitToken { retried }, CheckAuthEvent::Token(None)) == (
            CheckAuthStage::Finished,
            CheckAuthCommand::Fail { message: "Not logged in"@ },
        ),
{
}

// ---------------------------------------------------------------------------
// Sign-in
// ---------------------------------------------------------------------------

/// Where a sign-in stands.
#[derive(Clone, Copy, PartialEq, Eq, Structural, Debug)]
pub enum LoginStage {
    AwaitUsernames,
    AwaitLoginResponse,
    AwaitTokens,
    AwaitProfileResponse,
    AwaitProfile,
    AwaitWipeAnswer,
    AwaitWipe,
    AwaitStore,
    Finished,
}

/// A sign-in in progress, with what it has learnt so far.
pub struct Login {
    pub stage: LoginStage,
    pub email: String,
    pub password: String,
    /// The accounts that own data on this computer.
    pub usernames: Vec<String>,
    pub access_token: String,
    pub refresh_token: String,
    /// The account that is signing in.
    pub username: String,
}

/// The mathematical form of [`Login`].
pub struct LoginView {
    pub stage: LoginStage,
    pub email: Seq<char>,
    pub password: Seq<char>,
    pub usernames: Seq<Seq<char>>,
    pub access_token: Seq<char>,
    pub refresh_token: Seq<char>,
    pub username: Seq<char>,
}

impl View for Login {
    type V = LoginView;

    open spec fn view(&self) -> LoginView {
        LoginView {
            stage: self.stage,
            email: self.email@,
            password: self.password@,
            usernames: views(self.usernames@),
            access_token: self.access_token@,
            refresh_token: self.refresh_token@,
            username: self.username@,
        }
    }
}

/// What the caller reports back to a sign-in.
pub enum LoginEvent {
    /// The account names of the local recipe rows, or a database error.
    Usernames(Result<Vec<Option<String>>, String>),
    /// The HTTP status of the sign-in request, or why it was not sent.
    LoginResponded(Result<u16, String>),
    /// The access and refresh tokens of the sign-in answer, or why they
    /// could not be read.
    Tokens(Result<(String, String), String>),
    /// The HTTP status of the profile request, or why it was not sent.
    ProfileResponded(Result<u16, String>),
    /// The account name of the profile answer, or why it could not be read.
    Profile(Result<String, String>),
    /// Whether the user agreed to delete the local data.
    WipeAnswered(bool),
    /// The outcome of deleting the local data.
    Wiped(Result<(), String>),
    /// The outcome of storing the refresh token.
    Stored(Result<(), String>),
}

/// What a sign-in asks the caller to do next.
pub enum LoginAction {
    /// Read the account names of the local recipe rows.
    LoadUsernames,
    /// Send the sign-in request with these credentials.
    SendLogin { email: String, password: String },
    /// Read the tokens from the sign-in answer.
    ParseTokens,
    /// Ask for the profile with this `Authorization` header value.
    RequestProfile { authorization: String },
    /// Read the account name from the profile answer.
    ParseProfile,
    /// Ask the user, with this message, whether to delete the local data.
    ConfirmWipe { message: String },
    /// Delete the local data.
    WipeLocalData,
    /// Keep the access token in memory and store the refresh token.
    StoreSession { access_token: String, refresh_token: String },
    /// The sign-in succeeded with `message`; start a synchronisation.
    Succeed { message: String },
    /// The sign-in fails with `message`.
    Fail { message: String },
    /// The event does not belong to this stage; nothing to do.
    Ignore,
}

/// The mathematical form of [`LoginAction`].
pub enum LoginCommand {
    LoadUsernames,
    SendLogin { email: Seq<char>, password: Seq<char> },
    ParseTokens,
    RequestProfile { authorization: Seq<char> },
    ParseProfile,
    ConfirmWipe { message: Seq<char> },
    WipeLocalData,
    StoreSession { access_token: Seq<char>, refresh_token: Seq<char> },
    Succeed { message: Seq<char> },
    Fail { message: Seq<char> },
    Ignore,
}

impl View for LoginAction {
    type V = LoginCommand;

    open spec fn view(&self) -> LoginCommand {
        match self {
            LoginAction::LoadUsernames => LoginCommand::LoadUsernames,
            LoginAction::SendLogin { email, password } => LoginCommand::SendLogin {
                email: email@,
                password: password@,
            },
            LoginAction::ParseTokens => LoginCommand::ParseTokens,
            LoginAction::RequestProfile { authorization } => LoginCommand::RequestProfile {
                authorization: authorization@,
            },
            LoginAction::ParseProfile => LoginCommand::ParseProfile,
            LoginAction::ConfirmWipe { message } => LoginCommand::ConfirmWipe { message: message@ },
            LoginAction::WipeLocalData => LoginCommand::WipeLocalData,
            LoginAction::StoreSession { access_token, refresh_token } => LoginCommand::StoreSession {
                access_token: access_token@,
                refresh_token: refresh_token@,
            },
            LoginAction::Succeed { message } => LoginCommand::Succeed { message: message@ },
            LoginAction::Fail { message } => LoginCommand::Fail { message: message@ },
            LoginAction::Ignore => LoginCommand::Ignore,
        }
    }
}

/// The first part of the question asked when another account owns local data.
pub open spec fn conflict_prefix() -> Seq<char> {
    "You have recipes on this computer from another CookyCardz account: "@
}

/// The rest of the question asked when another account owns local data.
pub open spec fn conflict_suffix() -> Seq<char> {
    ".\n                    To access those recipes again, sign back into that account. If you want to sign in with this account instead, click below to\n                    clear the local recipes on this computer. As long as they are synced, they can be redownloaded by signing back into the previous\n                    account. If you wish to save a local copy of the previous account's recipes, go to More > Export All Recipes To Archive."@
}

/// The question asked when the local data belongs to `other`.
pub open spec fn conflict_message(other: Seq<char>) -> Seq<char> {
    conflict_prefix() + other + conflict_suffix()
}

/// Builds the question asked when the local data belongs to `other`.
pub fn conflict_question(other: &str) -> (r: String)
    ensures
        r@ == conflict_message(other@),
{
    String::from_str("You have recipes on this computer from another CookyCardz account: ").concat(
        other,
    ).concat(
        ".\n                    To access those recipes again, sign back into that account. If you want to sign in with this account instead, click below to\n                    clear the local recipes on this computer. As long as they are synced, they can be redownloaded by signing back into the previous\n                    account. If you wish to save a local copy of the previous account's recipes, go to More > Export All Recipes To Archive.",
    )
}

/// A failed sign-in with `message`.
pub open spec fn login_fails(l: LoginView, message: Seq<char>) -> (LoginView, LoginCommand) {
    (LoginView { stage: LoginStage::Finished, ..l }, LoginCommand::Fail { message })
}

/// The sign-in, step by step: read the local account names (database error:
/// "Login failed due to local database issues."); send the credentials; on a
/// success answer read the tokens and ask for the profile (any other answer:
/// "Login failed"); if another account owns local data, ask the user, stop
/// with "Login cancelled" if they refuse and delete the local data if they
/// agree ("Couldn't clear local data for sign-in" if that fails); then store
/// the session and succeed with "Login successful". Other errors end the
/// sign-in with their own message.
pub open spec fn login_next(l: LoginView, event: LoginEvent) -> (LoginView, LoginCommand) {
    match (l.stage, event) {
        (LoginStage::AwaitUsernames, LoginEvent::Usernames(Err(_))) => login_fails(
            l,
            "Login failed due to local database issues."@,
        ),
        (LoginStage::AwaitUsernames, LoginEvent::Usernames(Ok(rows))) => (
            LoginView { stage: LoginStage::AwaitLoginResponse, usernames: some_views(rows@), ..l },
            LoginCommand::SendLogin { email: l.email, password: l.password },
        ),
        (LoginStage::AwaitLoginResponse, LoginEvent::LoginResponded(Err(e))) => login_fails(l, e@),
        (LoginStage::AwaitLoginResponse, LoginEvent::LoginResponded(Ok(code))) => {
            if is_success_status(code) {
                (LoginView { stage: LoginStage::AwaitTokens, ..l }, LoginCommand::ParseTokens)
            } else {
                login_fails(l, "Login failed"@)
            }
        },
        (LoginStage::AwaitTokens, LoginEvent::Tokens(Err(e))) => login_fails(l, e@),
        (LoginStage::AwaitTokens, LoginEvent::Tokens(Ok((access, refresh)))) => (
            LoginView {
                stage: LoginStage::AwaitProfileResponse,
                access_token: access@,
                refresh_token: refresh@,
                ..l
            },
            LoginCommand::RequestProfile { authorization: bearer(access@) },
        ),
        (LoginStage::AwaitProfileResponse, LoginEvent::ProfileResponded(Err(e))) => login_fails(
            l,
            e@,
        ),
        (LoginStage::AwaitProfileResponse, LoginEvent::ProfileResponded(Ok(code))) => {
            if is_success_status(code) {
                (LoginView { stage: LoginStage::AwaitProfile, ..l }, LoginCommand::ParseProfile)
            } else {
                login_fails(l, "Login failed"@)
            }
        },
        (LoginStage::AwaitProfile, LoginEvent::Profile(Err(e))) => login_fails(l, e@),
        (LoginStage::AwaitProfile, LoginEvent::Profile(Ok(name))) => {
            if all_equal(l.usernames, name@) {
                (
                    LoginView { stage: LoginStage::AwaitStore, username: name@, ..l },
                    LoginCommand::StoreSession {
                        access_token: l.access_token,
                        refresh_token: l.refresh_token,
                    },
                )
            } else {
                (
                    LoginView { stage: LoginStage::AwaitWipeAnswer, username: name@, ..l },
                    LoginCommand::ConfirmWipe { message: conflict_message(l.usernames[0]) },
                )
            }
        },
        (LoginStage::AwaitWipeAnswer, LoginEvent::WipeAnswered(agreed)) => {
            if agreed {
                (LoginView { stage: LoginStage::AwaitWipe, ..l }, LoginCommand::WipeLocalData)
            } else {
                login_fails(l, "Login cancelled"@)
            }
        },
        (LoginStage::AwaitWipe, LoginEvent::Wiped(Err(_))) => login_fails(
            l,
            "Couldn't clear local data for sign-in"@,
        ),
        (LoginStage::AwaitWipe, LoginEvent::Wiped(Ok(()))) => (
            LoginView { stage: LoginStage::AwaitStore, ..l },
            LoginCommand::StoreSession { access_token: l.access_token, refresh_token: l.refresh_token },
        ),
        (LoginStage::AwaitStore, LoginEvent::Stored(Err(e))) => login_fails(l, e@),
        (LoginStage::AwaitStore, LoginEvent::Stored(Ok(()))) => (
            LoginView { stage: LoginStage::Finished, ..l },
            LoginCommand::Succeed { message: "Login successful"@ },
        ),
        _ => (l, LoginCommand::Ignore),
    }
}

/// Starts a sign-in with the given credentials: its first action is to read
/// the local account names.
pub fn login_start(email: String, password: String) -> (r: (Login, LoginAction))
    ensures
        r.0@.stage == LoginStage::AwaitUsernames,
        r.0@.email == email@,
        r.0@.password == password@,
        r.0@.usernames.len() == 0,
        r.1@ == LoginCommand::LoadUsernames,
{
    let login = Login {
        stage: LoginStage::AwaitUsernames,
        email,
        password,
        usernames: Vec::new(),
        access_token: String::new(),
        refresh_token: String::new(),
        username: String::new(),
    };
    assert(views(login.usernames@) =~= Seq::<Seq<char>>::empty());
    (login, LoginAction::LoadUsernames)
}

fn login_failure(login: Login, message: String) -> (r: (Login, LoginAction))
    ensures
        (r.0@, r.1@) == login_fails(login@, message@),
{
    (Login { stage: LoginStage::Finished, ..login }, LoginAction::Fail { message })
}

/// Advances a sign-in by one event.
pub fn login_step(login: Login, event: LoginEvent) -> (r: (Login, LoginAction))
    ensures
        (r.0@, r.1@) == login_next(login@, event),
{
    match login.stage {
        LoginStage::AwaitUsernames => match event {
            LoginEvent::Usernames(Err(_)) => login_failure(
                login,
                String::from_str("Login failed due to local database issues."),
            ),
            LoginEvent::Usernames(Ok(rows)) => {
                let usernames = usernames_from_rows(rows.as_slice());
                let action = LoginAction::SendLogin {
                    email: login.email.clone(),
                    password: login.password.clone(),
                };
                (Login { stage: LoginStage::AwaitLoginResponse, usernames, ..login }, action)
            },
            _ => (login, LoginAction::Ignore),
        },
        LoginStage::AwaitLoginResponse => match event {
            LoginEvent::LoginResponded(Err(e)) => login_failure(login, e),
            LoginEvent::LoginResponded(Ok(code)) => {
                if is_success(code) {
                    (Login { stage: LoginStage::AwaitTokens, ..login }, LoginAction::ParseTokens)
                } else {
                    login_failure(login, String::from_str("Login failed"))
                }
            },
            _ => (login, LoginAction::Ignore),
        },
        LoginStage::AwaitTokens => match event {
            LoginEvent::Tokens(Err(e)) => login_failure(login, e),
            LoginEvent::Tokens(Ok((access_token, refresh_token))) => {
                let authorization = bearer_authorization(access_token.as_str());
                (
                    Login {
                        stage: LoginStage::AwaitProfileResponse,
                        access_token,
                        refresh_token,
                        ..login
                    },
                    LoginAction::RequestProfile { authorization },
                )
            },
            _ => (login, LoginAction::Ignore),
        },
        LoginStage::AwaitProfileResponse => match event {
            LoginEvent::ProfileResponded(Err(e)) => login_failure(login, e),
            LoginEvent::ProfileResponded(Ok(code)) => {
                if is_success(code) {
                    (Login { stage: LoginStage::AwaitProfile, ..login }, LoginAction::ParseProfile)
                } else {
                    login_failure(login, String::from_str("Login failed"))
                }
            },
            _ => (login, LoginAction::Ignore),
        },
        LoginStage::AwaitProfile => match event {
            LoginEvent::Profile(Err(e)) => login_failure(login, e),
            LoginEvent::Profile(Ok(name)) => {
                if contains_only(login.usernames.as_slice(), &name) {
                    let action = LoginAction::StoreSession {
                        access_token: login.access_token.clone(),
                        refresh_token: login.refresh_token.clone(),
                    };
                    (Login { stage: LoginStage::AwaitStore, username: name, ..login }, action)
                } else {
                    proof {
                        lemma_conflict_has_owner(views(login.usernames@), name@);
                    }
                    let message = conflict_question(login.usernames[0].as_str());
                    (
                        Login { stage: LoginStage::AwaitWipeAnswer, username: name, ..login },
                        LoginAction::ConfirmWipe { message },
                    )
                }
            },
            _ => (login, LoginAction::Ignore),
        },
        LoginStage::AwaitWipeAnswer => match event {
            LoginEvent::WipeAnswered(agreed) => {
                if agreed {
                    (Login { stage: LoginStage::AwaitWipe, ..login }, LoginAction::WipeLocalData)
                } else {
                    login_failure(login, String::from_str("Login cancelled"))
                }
            },
            _ => (login, LoginAction::Ignore),
        },
        LoginStage::AwaitWipe => match event {
            LoginEvent::Wiped(Err(_)) => login_failure(
                login,
                String::from_str("Couldn't clear local data for sign-in"),
            ),
            LoginEvent::Wiped(Ok(())) => {
                let action = LoginAction::StoreSession {
                    access_token: login.access_token.clone(),
                    refresh_token: login.refresh_token.clone(),
                };
                (Login { stage: LoginStage::AwaitStore, ..login }, action)
            },
            _ => (login, LoginAction::Ignore),
        },
        LoginStage::AwaitStore => match event {
            LoginEvent::Stored(Err(e)) => login_failure(login, e),
            LoginEvent::Stored(Ok(())) => (
                Login { stage: LoginStage::Finished, ..login },
                LoginAction::Succeed { message: String::from_str("Login successful") },
            ),
            _ => (login, LoginAction::Ignore),
        },
        LoginStage::Finished => (login, LoginAction::Ignore),
    }
}

/// When not every local account equals the one signing in, there is at
/// least one local account, so the question can name the first of them.
pub proof fn lemma_conflict_has_owner(usernames: Seq<Seq<char>>, name: Seq<char>)
    ensures
        !all_equal(usernames, name) ==> usernames.len() > 0,
{
}

/// How far a sign-in is from its end.
pub open spec fn login_rank(stage: LoginStage) -> nat {
    match stage {
        LoginStage::AwaitUsernames => 8,
        LoginStage::AwaitLoginResponse => 7,
        LoginStage::AwaitTokens => 6,
        LoginStage::AwaitProfileResponse => 5,
        LoginStage::AwaitProfile => 4,
        LoginStage::AwaitWipeAnswer => 3,
        LoginStage::AwaitWipe => 2,
        LoginStage::AwaitStore => 1,
        LoginStage::Finished => 0,
    }
}

/// A sign-in ends: each event is either ignored, leaving the sign-in as it
/// was, or moves it strictly closer to its end.
pub proof fn lemma_login_progress(l: LoginView, event: LoginEvent)
    ensures
        login_next(l, event).1 is Ignore ==> login_next(l, event).0 == l,
        !(login_next(l, event).1 is Ignore) ==> login_rank(login_next(l, event).0.stage)
            < login_rank(l.stage),
{
}

/// A session is stored only right after the account signing in was found to
/// be the only owner of the local data, or right after the local data was
/// deleted; the local data is deleted only after the user agreed to it.
pub proof fn lemma_login_guards_local_data(l: LoginView, event: LoginEvent)
    ensures
        login_next(l, event).1 is StoreSession ==> {
            ||| (event matches LoginEvent::Profile(Ok(name)) && l.stage == LoginStage::AwaitProfile
                && all_equal(l.usernames, name@))
            ||| (event matches LoginEvent::Wiped(Ok(_)) && l.stage == LoginStage::AwaitWipe)
        },
        login_next(l, event).1 is WipeLocalData ==> l.stage == LoginStage::AwaitWipeAnswer
            && event == LoginEvent::WipeAnswered(true),
        login_next(l, event).1 is StoreSession ==> login_next(l, event).1 == (
        LoginCommand::StoreSession { access_token: l.access_token, refresh_token: l.refresh_token }),
{
}

/// The user is asked about deleting the local data only when some local
/// account differs from the one signing in, and the question names the first
/// local account, which exists.
pub proof fn lemma_login_conflict_question(l: LoginView, event: LoginEvent)
    ensures
        login_next(l, event).1 is ConfirmWipe ==> {
            &&& l.stage == LoginStage::AwaitProfile
            &&& event matches LoginEvent::Profile(Ok(name)) && !all_equal(l.usernames, name@)
            &&& l.usernames.len() > 0
            &&& login_next(l, event).1 == (LoginCommand::ConfirmWipe {
                message: conflict_message(l.usernames[0]),
            })
        },
{
}

/// A sign-in succeeds only once its session was stored.
pub proof fn lemma_login_success_needs_store(l: LoginView, event: LoginEvent)
    ensures
        login_next(l, event).1 is Succeed ==> (event matches LoginEvent::Stored(Ok(_))
            && l.stage == LoginStage::AwaitStore),
{
}

/// A sign-in in which every request succeeds and the account signing in
/// is the only owner of the local data: it reads the local accounts, sends
/// the credentials it was given, reads the tokens, asks for the profile with
/// the access token, reads the profile, stores exactly the tokens received
/// and succeeds with "Login successful"; when another account owns local
/// data and the user agrees, the local data is deleted before the same
/// tokens are stored.
pub proof fn lemma_login_success_run(
    l: LoginView,
    rows: Vec<Option<String>>,
    code: u16,
    access: String,
    refresh: String,
    pcode: u16,
    name: String,
)
    requires
        l.stage == LoginStage::AwaitUsernames,
        is_success_status(code),
        is_success_status(pcode),
    ensures
        ({
            let s1 = login_next(l, LoginEvent::Usernames(Ok(rows)));
            let s2 = login_next(s1.0, LoginEvent::LoginResponded(Ok(code)));
            let s3 = login_next(s2.0, LoginEvent::Tokens(Ok((access, refresh))));
            let s4 = login_next(s3.0, LoginEvent::ProfileResponded(Ok(pcode)));
            let s5 = login_next(s4.0, LoginEvent::Profile(Ok(name)));
            let owners = some_views(rows@);
            &&& s1.1 == (LoginCommand::SendLogin { email: l.email, password: l.password })
            &&& s2.1 == LoginCommand::ParseTokens
            &&& s3.1 == (LoginCommand::RequestProfile { authorization: "Bearer "@ + access@ })
            &&& s4.1 == LoginCommand::ParseProfile
            &&& all_equal(owners, name@) ==> {
                let s6 = login_next(s5.0, LoginEvent::Stored(Ok(())));
                &&& s5.1 == (LoginCommand::StoreSession {
                    access_token: access@,
                    refresh_token: refresh@,
                })
                &&& s6.1 == (LoginCommand::Succeed { message: "Login successful"@ })
                &&& s6.0.stage == LoginStage::Finished
            }
            &&& !all_equal(owners, name@) ==> {
                let s6 = login_next(s5.0, LoginEvent::WipeAnswered(true));
                let s7 = login_next(s6.0, LoginEvent::Wiped(Ok(())));
                let s8 = login_next(s7.0, LoginEvent::Stored(Ok(())));
                &&& s5.1 == (LoginCommand::ConfirmWipe { message: conflict_message(owners[0]) })
                &&& s6.1 == LoginCommand::WipeLocalData
                &&& s7.1 == (LoginCommand::StoreSession {
                    access_token: access@,
                    refresh_token: refresh@,
                })
                &&& s8.1 == (LoginCommand::Succeed { message: "Login successful"@ })
                &&& login_next(s5.0, LoginEvent::WipeAnswered(false)).1 == (LoginCommand::Fail {
                    message: "Login cancelled"@,
                })
            }
        }),
{
}

// ---------------------------------------------------------------------------
// Sign-out
// ---------------------------------------------------------------------------

/// Where a sign-out stands.
#[derive(Clone, Copy, PartialEq, Eq, Structural, Debug)]
pub enum LogoutStage {
    AwaitForget,
    AwaitClear,
    AwaitEmit,
    Finished,
}

/// What the caller reports back to a sign-out.
pub enum LogoutEvent {
    /// The access token held in memory was dropped.
    Forgotten,
    /// The outcome of deleting the stored refresh token.
    Cleared(Result<(), String>),
    /// The outcome of telling the interface.
    Emitted(Result<(), String>),
}

/// What a sign-out asks the caller to do next.
pub enum LogoutAction {
    /// Drop the access token held in memory.
    ForgetAccessToken,
    /// Delete the stored refresh token.
    ClearRefreshToken,
    /// Tell the interface `event` with `payload`.
    Emit { event: String, payload: String },
    Succeed { message: String },
    Fail { message: String },
    Ignore,
}

/// The mathematical form of [`LogoutAction`].
pub enum LogoutCommand {
    ForgetAccessToken,
    ClearRefreshToken,
    Emit { event: Seq<char>, payload: Seq<char> },
    Succeed { message: Seq<char> },
    Fail { message: Seq<char> },
    Ignore,
}

impl View for LogoutAction {
    type V = LogoutCommand;

    open spec fn view(&self) -> LogoutCommand {
        match self {
            LogoutAction::ForgetAccessToken => LogoutCommand::ForgetAccessToken,
            LogoutAction::ClearRefreshToken => LogoutCommand::ClearRefreshToken,
            LogoutAction::Emit { event, payload } => LogoutCommand::Emit {
                event: event@,
                payload: payload@,
            },
            LogoutAction::Succeed { message } => LogoutCommand::Succeed { message: message@ },
            LogoutAction::Fail { message } => LogoutCommand::Fail { message: message@ },
            LogoutAction::Ignore => LogoutCommand::Ignore,
        }
    }
}

/// The sign-out, step by step: drop the access token, delete the refresh
/// token, tell the interface ("logout", "Logged out") and succeed with
/// "Logout successful". An error ends it with its message.
pub open spec fn logout_next(stage: LogoutStage, event: LogoutEvent) -> (LogoutStage, LogoutCommand) {
    match (stage, event) {
        (LogoutStage::AwaitForget, LogoutEvent::Forgotten) => (
            LogoutStage::AwaitClear,
            LogoutCommand::ClearRefreshToken,
        ),
        (LogoutStage::AwaitClear, LogoutEvent::Cleared(Ok(()))) => (
            LogoutStage::AwaitEmit,
            LogoutCommand::Emit { event: "logout"@, payload: "Logged out"@ },
        ),
        (LogoutStage::AwaitEmit, LogoutEvent::Emitted(Ok(()))) => (
            LogoutStage::Finished,
            LogoutCommand::Succeed { message: "Logout successful"@ },
        ),
        (LogoutStage::AwaitClear, LogoutEvent::Cleared(Err(e)))
        | (LogoutStage::AwaitEmit, LogoutEvent::Emitted(Err(e))) => (
            LogoutStage::Finished,
            LogoutCommand::Fail { message: e@ },
        ),
        _ => (stage, LogoutCommand::Ignore),
    }
}

/// Starts a sign-out: its first action is to drop the access token.
pub fn logout_start() -> (r: (LogoutStage, LogoutAction))
    ensures
        r.0 == LogoutStage::AwaitForget,
        r.1@ == LogoutCommand::ForgetAccessToken,
{
    (LogoutStage::AwaitForget, LogoutAction::ForgetAccessToken)
}

/// Advances a sign-out by one event.
pub fn logout_step(stage: LogoutStage, event: LogoutEvent) -> (r: (LogoutStage, LogoutAction))
    ensures
        (r.0, r.1@) == logout_next(stage, event),
{
    match (stage, event) {
        (LogoutStage::AwaitForget, LogoutEvent::Forgotten) => (
            LogoutStage::AwaitClear,
            LogoutAction::ClearRefreshToken,
        ),
        (LogoutStage::AwaitClear, LogoutEvent::Cleared(Ok(()))) => (
            LogoutStage::AwaitEmit,
            LogoutAction::Emit {
                event: String::from_str("logout"),
                payload: String::from_str("Logged out"),
            },
        ),
        (LogoutStage::AwaitEmit, LogoutEvent::Emitted(Ok(()))) => (
            LogoutStage::Finished,
            LogoutAction::Succeed { message: String::from_str("Logout successful") },
        ),
        (LogoutStage::AwaitClear, LogoutEvent::Cleared(Err(e)))
        | (LogoutStage::AwaitEmit, LogoutEvent::Emitted(Err(e))) => (
            LogoutStage::Finished,
            LogoutAction::Fail { message: e },
        ),
        (stage, _) => (stage, LogoutAction::Ignore),
    }
}

/// A sign-out deletes the refresh token only once the access token is gone,
/// tells the interface only once the refresh token is deleted, and succeeds
/// only once the interface was told.
pub proof fn lemma_logout_order(stage: LogoutStage, event: LogoutEvent)
    ensures
        logout_next(stage, event).1 is ClearRefreshToken ==> stage == LogoutStage::AwaitForget
            && event is Forgotten,
        logout_next(stage, event).1 is Emit ==> (event matches LogoutEvent::Cleared(Ok(_)) && stage
            == LogoutStage::AwaitClear),
        logout_next(stage, event).1 is Succeed ==> (event matches LogoutEvent::Emitted(Ok(_))
            && stage == LogoutStage::AwaitEmit),
{
}

/// A sign-out in which every step succeeds drops the access token, deletes
/// the refresh token, tells the interface ("logout", "Logged out") and
/// succeeds with "Logout successful"; a failure ends it with its message.
pub proof fn lemma_logout_run(e: String)
    ensures
        ({
            let s1 = logout_next(LogoutStage::AwaitForget, LogoutEvent::Forgotten);
            let s2 = logout_next(s1.0, LogoutEvent::Cleared(Ok(())));
            let s3 = logout_next(s2.0, LogoutEvent::Emitted(Ok(())));
            &&& s1.1 == LogoutCommand::ClearRefreshToken
            &&& s2.1 == (LogoutCommand::Emit { event: "logout"@, payload: "Logged out"@ })
            &&& s3 == (LogoutStage::Finished, LogoutCommand::Succeed {
                message: "Logout successful"@,
            })
        }),
        logout_next(LogoutStage::AwaitClear, LogoutEvent::Cleared(Err(e))) == (
            LogoutStage::Finished,
            LogoutCommand::Fail { message: e@ },
        ),
        logout_next(LogoutStage::AwaitEmit, LogoutEvent::Emitted(Err(e))) == (
            LogoutStage::Finished,
            LogoutCommand::Fail { message: e@ },
        ),
{
}

} // verus!
