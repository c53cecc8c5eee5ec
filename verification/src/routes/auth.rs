//! The texts of the login flow: the key of a session, its cookie, the
//! address of the identity provider, and the address a user returns to.
use crate::text::{percent_decode, percent_decoded, percent_encode, percent_encoded};
use vstd::prelude::*;
use vstd::string::StringExecFns;
use vstd::utf8::encode_utf8;

verus! {

/// What the identity provider sends back to the service after a login.
#[derive(Debug, Clone)]
pub struct CallbackQuery {
    pub code: String,
    pub state: Option<String>,
}

/// A user as the identity provider describes them.
#[derive(Debug, Clone)]
pub struct DiscordUser {
    pub id: String,
    pub username: String,
    pub discriminator: String,
    pub avatar: Option<String>,
}

/// A user with the session that was opened for them.
#[derive(Debug, Clone)]
pub struct AuthResponse {
    pub user: DiscordUser,
    pub session: String,
}

/// Why a request is not that of a logged-in user.
#[derive(Debug, Clone, Copy, PartialEq, Eq, Structural)]
pub enum SessionFault {
    /// The request carries no cookie.
    MissingCookie,
    /// The cookie names no session.
    MissingSessionId,
    /// The session store gave no connection.
    StoreUnavailable,
    /// The store holds no such session.
    SessionNotFound,
    /// What the store holds is no user.
    InvalidUser,
}

impl SessionFault {
    /// The HTTP status of the answer: 500 where the store failed, 401 in
    /// every other case.
    pub fn status(&self) -> (code: u16)
        ensures
            code == (if *self == SessionFault::StoreUnavailable {
                500u16
            } else {
                401u16
            }),
    {
        match self {
            SessionFault::StoreUnavailable => 500,
            _ => 401,
        }
    }

    /// The message of the answer.
    pub fn message(&self) -> (m: &'static str)
        ensures
            m@ == (match *self {
                SessionFault::MissingCookie => "Missing session cookie"@,
                SessionFault::MissingSessionId => "Missing session ID"@,
                SessionFault::StoreUnavailable => "Database connection error"@,
                SessionFault::SessionNotFound => "Session not found"@,
                SessionFault::InvalidUser => "Invalid user session"@,
            }),
    {
        match self {
            SessionFault::MissingCookie => "Missing session cookie",
            SessionFault::MissingSessionId => "Missing session ID",
            SessionFault::StoreUnavailable => "Database connection error",
            SessionFault::SessionNotFound => "Session not found",
            SessionFault::InvalidUser => "Invalid user session",
        }
    }
}

/// The key to ask the session store for, given what the request's cookies
/// hold: `None` where the request has no cookies at all, `Some(None)` where
/// its cookies name no session.
pub fn lookup_key(cookies: Option<Option<&str>>) -> (r: Result<String, SessionFault>)
    ensures
        match cookies {
            None => r == Err::<String, SessionFault>(SessionFault::MissingCookie),
            Some(None) => r == Err::<String, SessionFault>(SessionFault::MissingSessionId),
            Some(Some(id)) => r matches Ok(key) && key@ == key_text(id@),
        },
{
    match cookies {
        None => Err(SessionFault::MissingCookie),
        Some(None) => Err(SessionFault::MissingSessionId),
        Some(Some(id)) => Ok(session_key(id)),
    }
}

/// What the store's answer to a lookup means: the stored text, or the fault
/// where the store holds none.
pub fn stored_user(found: Option<String>) -> (r: Result<String, SessionFault>)
    ensures
        match found {
            Some(text) => r == Ok::<String, SessionFault>(text),
            None => r == Err::<String, SessionFault>(SessionFault::SessionNotFound),
        },
{
    match found {
        Some(text) => Ok(text),
        None => Err(SessionFault::SessionNotFound),
    }
}

/// Why a login did not lead to a session.
#[derive(Debug, Clone, Copy, PartialEq, Eq, Structural)]
pub enum LoginFault {
    /// The identity provider did not take the code.
    TokenExchange,
    /// Its answer could not be read.
    TokenResponse,
    /// Its answer holds no access token.
    TokenMissing,
    /// It did not say who the user is.
    UserFetch,
    /// What it said of the user could not be read.
    UserParse,
    /// The session store gave no connection.
    StoreUnavailable,
    /// The session store did not take the session.
    SessionStore,
}

impl LoginFault {
    /// The HTTP status of the answer: 400 where the identity provider could
    /// not be reached, 401 where it gave no token, 500 in every other case.
    pub fn status(&self) -> (code: u16)
        ensures
            code == (match *self {
                LoginFault::TokenExchange => 400u16,
                LoginFault::UserFetch => 400u16,
                LoginFault::TokenMissing => 401u16,
                _ => 500u16,
            }),
    {
        match self {
            LoginFault::TokenExchange => 400,
            LoginFault::UserFetch => 400,
            LoginFault::TokenMissing => 401,
            _ => 500,
        }
    }

    /// The message of the answer.
    pub fn message(&self) -> (m: &'static str)
        ensures
            m@ == (match *self {
                LoginFault::TokenExchange => "Failed to exchange token"@,
                LoginFault::TokenResponse => "Invalid token response"@,
                LoginFault::TokenMissing => "Access token not found"@,
                LoginFault::UserFetch => "Failed to fetch user"@,
                LoginFault::UserParse => "Failed to parse user"@,
                LoginFault::StoreUnavailable => "Database connection error"@,
                LoginFault::SessionStore => "Failed to create session"@,
            }),
    {
        match self {
            LoginFault::TokenExchange => "Failed to exchange token",
            LoginFault::TokenResponse => "Invalid token response",
            LoginFault::TokenMissing => "Access token not found",
            LoginFault::UserFetch => "Failed to fetch user",
            LoginFault::UserParse => "Failed to parse user",
            LoginFault::StoreUnavailable => "Database connection error",
            LoginFault::SessionStore => "Failed to create session",
        }
    }
}

impl CallbackQuery {
    /// Where the login returns to: nowhere when no `state` came back, which
    /// is a login through the API; else `state` percent-decoded, or the root
    /// where it does not decode.
    pub fn redirect_target(&self) -> (target: Option<String>)
        ensures
            match self.state {
                None => target is None,
                Some(state) => target matches Some(t) && t@ == (match percent_decoded(state@) {
                    Some(text) => text,
                    None => "/"@,
                }),
            },
    {
        match &self.state {
            Some(state) => Some(redirect_target(state.as_str())),
            None => None,
        }
    }
}

/// The key under which the session `session_id` is stored.
pub open spec fn key_text(session_id: Seq<char>) -> Seq<char> {
    "session:"@ + session_id
}

/// The cookie that carries the session `session_id` for an hour.
pub open spec fn cookie_text(session_id: Seq<char>) -> Seq<char> {
    "session="@ + session_id + "; Max-Age=3600; Path=/; SameSite=None; Secure; HttpOnly"@
}

/// The key under which a session is stored.
pub fn session_key(session_id: &str) -> (key: String)
    ensures
        key@ == key_text(session_id@),
{
    let mut key = "session:".to_owned();
    key.append(session_id);
    key
}

/// The cookie that carries a session for an hour.
pub fn session_cookie(session_id: &str) -> (cookie: String)
    ensures
        cookie@ == cookie_text(session_id@),
{
    let mut cookie = "session=".to_owned();
    cookie.append(session_id);
    cookie.append("; Max-Age=3600; Path=/; SameSite=None; Secure; HttpOnly");
    cookie
}

/// A session with the texts that name it: its identifier, the key it is
/// stored under, and the cookie that carries it.
#[derive(Debug, Clone)]
pub struct Session {
    pub id: String,
    pub key: String,
    pub cookie: String,
}

/// Calls `uuid::Uuid::now_v7` and writes the identifier in its hyphenated
/// form. Trusted: the text has 36 characters; which ones depends on the clock
/// and on chance, so nothing more is said of them.
#[verifier::external_body]
fn fresh_session_id() -> (id: String)
    ensures
        id@.len() == 36,
{
    uuid::Uuid::now_v7().to_string()
}

impl Session {
    /// The session with the identifier `id`.
    pub fn named(id: String) -> (session: Session)
        ensures
            session.id@ == id@,
            session.key@ == key_text(id@),
            session.cookie@ == cookie_text(id@),
    {
        let key = session_key(id.as_str());
        let cookie = session_cookie(id.as_str());
        Session { id, key, cookie }
    }

    /// A session with a new identifier of 36 characters.
    pub fn open() -> (session: Session)
        ensures
            session.id@.len() == 36,
            session.key@ == key_text(session.id@),
            session.cookie@ == cookie_text(session.id@),
    {
        Session::named(fresh_session_id())
    }
}

/// The address at the identity provider that starts a login, without the
/// place to return to.
pub open spec fn authorize_base(client_id: Seq<char>, redirect_uri: Seq<char>) -> Seq<char> {
    "https://discord.com/oauth2/authorize?client_id="@ + client_id + "&redirect_uri="@
        + redirect_uri + "&response_type=code&scope=identify"@
}

/// The address at the identity provider that starts a login. The place to
/// return to afterwards, if one is given, travels percent-encoded as `state`.
pub fn authorize_url(client_id: &str, redirect_uri: &str, redirect: Option<&str>) -> (url: String)
    ensures
        url@ == (match redirect {
            None => authorize_base(client_id@, redirect_uri@),
            Some(target) => authorize_base(client_id@, redirect_uri@) + "&state="@
                + percent_encoded(encode_utf8(target@)),
        }),
{
    let mut url = "https://discord.com/oauth2/authorize?client_id=".to_owned();
    url.append(client_id);
    url.append("&redirect_uri=");
    url.append(redirect_uri);
    url.append("&response_type=code&scope=identify");
    match redirect {
        Some(target) => {
            let state = percent_encode(target);
            url.append("&state=");
            url.append(state.as_str());
        },
        None => {},
    }
    url
}

/// The place a login returns to, given what decoding `state` gave: the
/// decoded text, or the root where there is none.
pub fn target_of(decoded: Option<String>) -> (target: String)
    ensures
        target@ == (match decoded {
            Some(text) => text@,
            None => "/"@,
        }),
{
    match decoded {
        Some(text) => text,
        None => "/".to_owned(),
    }
}

/// The place a login returns to: `state` percent-decoded, or the root where
/// it does not decode.
pub fn redirect_target(state: &str) -> (target: String)
    ensures
        target@ == (match percent_decoded(state@) {
            Some(text) => text,
            None => "/"@,
        }),
{
    target_of(percent_decode(state))
}

} // verus!
