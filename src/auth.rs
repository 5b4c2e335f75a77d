//! The decisions of the OpenID Connect login flow. Starting a login needs
//! only a response around the rendered redirect page. Finishing one is a
//! state machine: each step names an action for the caller to carry out
//! (read and invalidate the pending login, exchange the code, find the
//! user, store the session) and the caller hands back what came of it.
use vstd::prelude::*;
use vstd::string::*;
use crate::error::{ClientError, ClientErrorModel, Error, ErrorModel, InternalError, InternalErrorModel, client};
use crate::form::{form_pairs, parse_query, query_text, required_field, single_field};
use crate::http::{Request, Response, header_views, STATUS_OK, STATUS_UNAUTHORIZED};
use crate::request::pair_views;
use vstd::utf8::encode_utf8;

verus! {

/// A logged-in user's session, as the session store holds it.
pub struct SessionData {
    pub session_id: String,
    pub user_id: i64,
    pub email: String,
}

/// The characters nanoid draws identifiers from: URL-safe, no escaping
/// needed in a cookie.
pub open spec fn is_safe_char(c: char) -> bool {
    ('a' <= c && c <= 'z') || ('A' <= c && c <= 'Z') || ('0' <= c && c <= '9') || c == '_' || c
        == '-'
}

/// Whether `s` can be a session identifier: 32 URL-safe characters.
pub open spec fn is_session_id(s: Seq<char>) -> bool {
    s.len() == 32 && forall|i: int| 0 <= i < s.len() ==> is_safe_char(#[trigger] s[i])
}

/// Relies on `nanoid::format` with nanoid's default random source and its
/// `SAFE` alphabet: a fresh random identifier of 32 characters, each drawn
/// from that alphabet. The random source panics only if the operating
/// system cannot supply entropy.
#[verifier::external_body]
fn new_session_id() -> (r: String)
    ensures
        is_session_id(r@),
{
    nanoid::format(nanoid::rngs::default, &nanoid::alphabet::SAFE, 32)
}

/// The response that sends an unauthenticated visitor to the identity
/// provider: the rendered page holding the authorization URL, with status
/// 401 so that a browser does not offer to resubmit a form on the way
/// back, and never cached.
pub fn login_redirect_response(page: String) -> (r: Response)
    ensures
        r.status == STATUS_UNAUTHORIZED,
        r.body == page,
        header_views(r.headers@) == seq![
            ("Content-Type"@, "text/html; charset=utf-8"@),
            ("Cache-Control"@, "no-store"@),
        ],
{
    let r = Response::html(page).add_header("Cache-Control", String::from_str("no-store"));
    r.set_status(STATUS_UNAUTHORIZED)
}

/// The `Set-Cookie` value that hands a session to the browser.
pub open spec fn session_cookie(id: Seq<char>) -> Seq<char> {
    "session="@ + id + "; Secure; HttpOnly; SameSite=Strict"@
}

/// The page sent after a login: it steps the browser back in its history
/// to the page that needed the login.
pub open spec fn logged_in_page() -> Seq<char> {
    "<!DOCTYPE html>\n<html>\n  <head>\n    <title>Successful login, redirecting you back</title>\n    <script type=\"text/javascript\">\n      history.back();\n    </script>\n  </head>\n  <body>\n    If your browser didn't redirect you, you can get back to where you were\n    going by pressing the back button.\n  </body>\n</html>\n"@
}

/// The response that completes a login with the new session `id`.
pub fn logged_in_response(id: &str) -> (r: Response)
    ensures
        r.status == STATUS_OK,
        r.body@ == logged_in_page(),
        header_views(r.headers@) == seq![
            ("Content-Type"@, "text/html; charset=utf-8"@),
            ("Set-Cookie"@, session_cookie(id@)),
            ("Cache-Control"@, "no-store"@),
        ],
{
    let page = String::from_str(
        "<!DOCTYPE html>\n<html>\n  <head>\n    <title>Successful login, redirecting you back</title>\n    <script type=\"text/javascript\">\n      history.back();\n    </script>\n  </head>\n  <body>\n    If your browser didn't redirect you, you can get back to where you were\n    going by pressing the back button.\n  </body>\n</html>\n",
    );
    let cookie = String::from_str("session=").concat(id).concat("; Secure; HttpOnly; SameSite=Strict");
    let r = Response::html(page).add_header("Set-Cookie", cookie).add_header(
        "Cache-Control",
        String::from_str("no-store"),
    );
    proof {
        assert(header_views(r.headers@) =~= seq![
            ("Content-Type"@, "text/html; charset=utf-8"@),
            ("Set-Cookie"@, session_cookie(id@)),
            ("Cache-Control"@, "no-store"@),
        ]);
    }
    r
}

/// What the identity provider's side of a login came to: the code
/// exchange failed, the answer held no identity token, the token's claims
/// did not verify against the nonce, or they did, with or without an email.
pub enum IdentityOutcome {
    ExchangeFailed(String),
    NoToken,
    ClaimsRejected(String),
    Verified { email: Option<String> },
}

/// What the caller hands back after carrying out an action.
pub enum LoginEvent {
    /// The nonce of the pending login, which is now invalidated, if there
    /// was one for the state token.
    Nonce(Option<String>),
    Identity(IdentityOutcome),
    /// The id of the user registered with the email, if any.
    User(Option<i64>),
    SessionStored,
}

/// What the caller is to do next.
pub enum LoginAction {
    /// Read the pending login of this state token and invalidate it.
    FetchNonce { state: String },
    /// Exchange the code with the identity provider and verify the identity
    /// token's claims against the nonce.
    ExchangeCode { code: String, nonce: String },
    /// Look up the user registered with this email.
    FindUser { email: String },
    /// Store a new session for the user.
    CreateSession { session_id: String, user_id: i64 },
    /// Send this response; the login is complete.
    Finish(Response),
    /// The login failed.
    Fail(Error),
}

/// Where a login callback stands between actions.
pub enum LoginState {
    AwaitingNonce { code: String },
    AwaitingIdentity,
    AwaitingUser { email: String },
    AwaitingSession { session_id: String },
    Done,
}

pub enum IdentityModel {
    ExchangeFailed(Seq<char>),
    NoToken,
    ClaimsRejected(Seq<char>),
    Verified { email: Option<Seq<char>> },
}

pub enum EventModel {
    Nonce(Option<Seq<char>>),
    Identity(IdentityModel),
    User(Option<int>),
    SessionStored,
}

/// The parts of a response that the flow decides.
pub type ResponseModel = (u16, Seq<(Seq<char>, Seq<char>)>, Seq<char>);

pub enum ActionModel {
    FetchNonce { state: Seq<char> },
    ExchangeCode { code: Seq<char>, nonce: Seq<char> },
    FindUser { email: Seq<char> },
    CreateSession { session_id: Seq<char>, user_id: int },
    Finish(ResponseModel),
    Fail(ErrorModel),
}

pub enum StateModel {
    AwaitingNonce { code: Seq<char> },
    AwaitingIdentity,
    AwaitingUser { email: Seq<char> },
    AwaitingSession { session_id: Seq<char> },
    Done,
}

pub open spec fn response_model(r: Response) -> ResponseModel {
    (r.status, header_views(r.headers@), r.body@)
}

impl View for IdentityOutcome {
    type V = IdentityModel;

    open spec fn view(&self) -> IdentityModel {
        match self {
            IdentityOutcome::ExchangeFailed(d) => IdentityModel::ExchangeFailed(d@),
            IdentityOutcome::NoToken => IdentityModel::NoToken,
            IdentityOutcome::ClaimsRejected(d) => IdentityModel::ClaimsRejected(d@),
            IdentityOutcome::Verified { email } => IdentityModel::Verified {
                email: match email {
                    Some(e) => Some(e@),
                    None => None,
                },
            },
        }
    }
}

impl View for LoginEvent {
    type V = EventModel;

    open spec fn view(&self) -> EventModel {
        match self {
            LoginEvent::Nonce(n) => EventModel::Nonce(
                match n {
                    Some(x) => Some(x@),
                    None => None,
                },
            ),
            LoginEvent::Identity(i) => EventModel::Identity(i@),
            LoginEvent::User(u) => EventModel::User(
                match u {
                    Some(x) => Some(*x as int),
                    None => None,
                },
            ),
            LoginEvent::SessionStored => EventModel::SessionStored,
        }
    }
}

impl View for LoginAction {
    type V = ActionModel;

    open spec fn view(&self) -> ActionModel {
        match self {
            LoginAction::FetchNonce { state } => ActionModel::FetchNonce { state: state@ },
            LoginAction::ExchangeCode { code, nonce } => ActionModel::ExchangeCode {
                code: code@,
                nonce: nonce@,
            },
            LoginAction::FindUser { email } => ActionModel::FindUser { email: email@ },
            LoginAction::CreateSession { session_id, user_id } => ActionModel::CreateSession {
                session_id: session_id@,
                user_id: *user_id as int,
            },
            LoginAction::Finish(r) => ActionModel::Finish(response_model(*r)),
            LoginAction::Fail(e) => ActionModel::Fail(e@),
        }
    }
}

impl View for LoginState {
    type V = StateModel;

    open spec fn view(&self) -> StateModel {
        match self {
            LoginState::AwaitingNonce { code } => StateModel::AwaitingNonce { code: code@ },
            LoginState::AwaitingIdentity => StateModel::AwaitingIdentity,
            LoginState::AwaitingUser { email } => StateModel::AwaitingUser { email: email@ },
            LoginState::AwaitingSession { session_id } => StateModel::AwaitingSession {
                session_id: session_id@,
            },
            LoginState::Done => StateModel::Done,
        }
    }
}

pub open spec fn logged_in_model(id: Seq<char>) -> ResponseModel {
    (
        STATUS_OK,
        seq![
            ("Content-Type"@, "text/html; charset=utf-8"@),
            ("Set-Cookie"@, session_cookie(id)),
            ("Cache-Control"@, "no-store"@),
        ],
        logged_in_page(),
    )
}

pub open spec fn fail(e: ErrorModel) -> (StateModel, ActionModel) {
    (StateModel::Done, ActionModel::Fail(e))
}

/// One step of a login callback: the state after `e` and the next action.
/// `fresh` is the session identifier drawn when a user is found.
pub open spec fn login_next(s: StateModel, e: EventModel, fresh: Seq<char>) -> (StateModel, ActionModel) {
    match (s, e) {
        (StateModel::AwaitingNonce { code }, EventModel::Nonce(n)) => match n {
            None => fail(client(ClientErrorModel::UnknownOIDCProcess)),
            Some(nonce) => (
                StateModel::AwaitingIdentity,
                ActionModel::ExchangeCode { code, nonce },
            ),
        },
        (StateModel::AwaitingIdentity, EventModel::Identity(i)) => match i {
            IdentityModel::ExchangeFailed(d) => fail(
                ErrorModel::Internal(InternalErrorModel::OIDCRequestError(d)),
            ),
            IdentityModel::NoToken => fail(client(ClientErrorModel::OIDCGaveNoToken)),
            IdentityModel::ClaimsRejected(d) => fail(
                ErrorModel::Internal(InternalErrorModel::TamperedOIDCLogin(d)),
            ),
            IdentityModel::Verified { email } => match email {
                None => fail(client(ClientErrorModel::OIDCGaveNoEmail)),
                Some(m) => (StateModel::AwaitingUser { email: m }, ActionModel::FindUser { email: m }),
            },
        },
        (StateModel::AwaitingUser { email }, EventModel::User(u)) => match u {
            None => fail(client(ClientErrorModel::UserNotFound(email))),
            Some(id) => (
                StateModel::AwaitingSession { session_id: fresh },
                ActionModel::CreateSession { session_id: fresh, user_id: id },
            ),
        },
        (StateModel::AwaitingSession { session_id }, EventModel::SessionStored) => (
            StateModel::Done,
            ActionModel::Finish(logged_in_model(session_id)),
        ),
        _ => fail(client(ClientErrorModel::InternalError)),
    }
}

/// Whether `e` answers the action that led to state `s`.
pub open spec fn answers(s: StateModel, e: EventModel) -> bool {
    match (s, e) {
        (StateModel::AwaitingNonce { .. }, EventModel::Nonce(_)) => true,
        (StateModel::AwaitingIdentity, EventModel::Identity(_)) => true,
        (StateModel::AwaitingUser { .. }, EventModel::User(_)) => true,
        (StateModel::AwaitingSession { .. }, EventModel::SessionStored) => true,
        _ => false,
    }
}

/// How a login callback begins, given its decoded query: with its `code`
/// and `state`, it asks for the pending login of that state.
pub open spec fn callback_start(pairs: Seq<(Seq<char>, Seq<char>)>) -> (StateModel, ActionModel) {
    match single_field(pairs, "code"@) {
        Err(e) => fail(e),
        Ok(code) => match single_field(pairs, "state"@) {
            Err(e) => fail(e),
            Ok(state) => (StateModel::AwaitingNonce { code }, ActionModel::FetchNonce { state }),
        },
    }
}

fn fail_now(e: Error) -> (r: (LoginState, LoginAction))
    ensures
        (r.0@, r.1@) == fail(e@),
{
    (LoginState::Done, LoginAction::Fail(e))
}

/// Begins a login callback from the query the identity provider sent the
/// user back with.
pub fn begin_login_callback(req: &Request) -> (r: (LoginState, LoginAction))
    ensures
        (r.0@, r.1@) == callback_start(form_pairs(encode_utf8(query_text(*req)))),
{
    match parse_query(req) {
        Ok(pairs) => callback_from_query(&pairs),
        Err(e) => fail_now(e),
    }
}

/// Begins a login callback from its decoded query.
pub fn callback_from_query(pairs: &Vec<(String, String)>) -> (r: (LoginState, LoginAction))
    ensures
        (r.0@, r.1@) == callback_start(pair_views(pairs@)),
{
    let code = match required_field(pairs, "code") {
        Ok(c) => c,
        Err(e) => return fail_now(e),
    };
    let state = match required_field(pairs, "state") {
        Ok(s) => s,
        Err(e) => return fail_now(e),
    };
    (LoginState::AwaitingNonce { code }, LoginAction::FetchNonce { state })
}

impl LoginState {
    /// Takes what came of the last action and says what to do next. A
    /// login that fails, at any step, ends without a session.
    pub fn step(self, e: LoginEvent) -> (r: (LoginState, LoginAction))
        requires
            answers(self@, e@),
        ensures
            r.1 is CreateSession ==> is_session_id(r.1->session_id@),
            (r.0@, r.1@) == login_next(
                self@,
                e@,
                if r.1 is CreateSession {
                    r.1->session_id@
                } else {
                    Seq::empty()
                },
            ),
    {
        match (self, e) {
            (LoginState::AwaitingNonce { code }, LoginEvent::Nonce(n)) => match n {
                None => fail_now(Error::ClientError(ClientError::UnknownOIDCProcess)),
                Some(nonce) => (LoginState::AwaitingIdentity, LoginAction::ExchangeCode { code, nonce }),
            },
            (LoginState::AwaitingIdentity, LoginEvent::Identity(i)) => match i {
                IdentityOutcome::ExchangeFailed(d) => fail_now(
                    Error::InternalError(InternalError::OIDCRequestError(d)),
                ),
                IdentityOutcome::NoToken => fail_now(Error::ClientError(ClientError::OIDCGaveNoToken)),
                IdentityOutcome::ClaimsRejected(d) => fail_now(
                    Error::InternalError(InternalError::TamperedOIDCLogin(d)),
                ),
                IdentityOutcome::Verified { email } => match email {
                    None => fail_now(Error::ClientError(ClientError::OIDCGaveNoEmail)),
                    Some(m) => {
                        let m2 = m.clone();
                        (LoginState::AwaitingUser { email: m }, LoginAction::FindUser { email: m2 })
                    },
                },
            },
            (LoginState::AwaitingUser { email }, LoginEvent::User(u)) => match u {
                None => fail_now(Error::ClientError(ClientError::UserNotFound(email))),
                Some(id) => {
                    let session_id = new_session_id();
                    let s2 = session_id.clone();
                    (
                        LoginState::AwaitingSession { session_id },
                        LoginAction::CreateSession { session_id: s2, user_id: id },
                    )
                },
            },
            (LoginState::AwaitingSession { session_id }, LoginEvent::SessionStored) => (
                LoginState::Done,
                LoginAction::Finish(logged_in_response(session_id.as_str())),
            ),
            _ => fail_now(Error::ClientError(ClientError::InternalError)),
        }
    }
}

/// A callback whose `state` names no pending login fails with the
/// unknown-login error and ends there: a finished login answers no further
/// event, so it never gets as far as storing a session.
pub proof fn lemma_unknown_state_fails(code: Seq<char>, fresh: Seq<char>)
    ensures
        login_next(StateModel::AwaitingNonce { code }, EventModel::Nonce(None), fresh) == (
            StateModel::Done,
            ActionModel::Fail(client(ClientErrorModel::UnknownOIDCProcess)),
        ),
        forall|e: EventModel| !answers(StateModel::Done, e),
{
}

/// A callback with its `code` and `state`, whose state names a pending
/// login, whose code exchange yields verified claims with an email, and
/// whose email belongs to a registered user, stores a new session for that
/// user and answers with status 200 and a `Set-Cookie` carrying it.
pub proof fn lemma_successful_login(
    pairs: Seq<(Seq<char>, Seq<char>)>,
    nonce: Seq<char>,
    email: Seq<char>,
    user_id: int,
    fresh: Seq<char>,
)
    requires
        single_field(pairs, "code"@) is Ok,
        single_field(pairs, "state"@) is Ok,
    ensures
        ({
            let code = single_field(pairs, "code"@)->Ok_0;
            let state = single_field(pairs, "state"@)->Ok_0;
            let s0 = callback_start(pairs);
            let s1 = login_next(s0.0, EventModel::Nonce(Some(nonce)), Seq::empty());
            let s2 = login_next(
                s1.0,
                EventModel::Identity(IdentityModel::Verified { email: Some(email) }),
                Seq::empty(),
            );
            let s3 = login_next(s2.0, EventModel::User(Some(user_id)), fresh);
            let s4 = login_next(s3.0, EventModel::SessionStored, Seq::empty());
            &&& s0.1 == ActionModel::FetchNonce { state }
            &&& s1.1 == ActionModel::ExchangeCode { code, nonce }
            &&& s2.1 == ActionModel::FindUser { email }
            &&& s3.1 == ActionModel::CreateSession { session_id: fresh, user_id }
            &&& s4.0 == StateModel::Done
            &&& s4.1 == ActionModel::Finish(logged_in_model(fresh))
            &&& logged_in_model(fresh).0 == STATUS_OK
            &&& logged_in_model(fresh).1.contains(("Set-Cookie"@, session_cookie(fresh)))
        }),
{
    let m = logged_in_model(fresh);
    assert(m.1[1] == ("Set-Cookie"@, session_cookie(fresh)));
}

} // verus!
