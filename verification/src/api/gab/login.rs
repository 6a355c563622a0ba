//! Signing in to Gab by name and password, for lack of an access token: the
//! page that asks for them holds a token, which is sent along with them; the
//! page that the answer leads to holds the token that gives access.
use vstd::prelude::*;
use vstd::string::StringExecFns;

use crate::api::gab::data::Auth;
use crate::api::gab::Gab;
use crate::api::gab::GabError;
use crate::api::http::is_redirect;
use crate::api::http::is_success;
use crate::api::http::redirect;
use crate::api::http::success;
use crate::api::http::Delivery;
use crate::api::http::Method;
use crate::api::request::Body;
use crate::api::request::Payload;
use crate::api::request::Request;
use crate::text::chars_of;
use crate::text::copy_texts;
use crate::text::find;
use crate::text::position;
use crate::text::string_of;
use crate::text::text_equal;
use crate::text::opt_text;

verus! {

/// Where the user signs in.
pub const LOGIN_URL: &'static str = "https://gab.com/auth/login";

/// How far the name of the token lies before the text around its value.
pub const TOKEN_SKIP: usize = 7;

/// The token that a page holds: what stands between the first two quotation
/// marks that follow, seven characters on, the first `_token` of the page.
pub open spec fn token_in(text: Seq<char>) -> Option<Seq<char>> {
    match position(text, "_token"@, 0) {
        None => None,
        Some(start) => match position(text, seq!['"'], start + TOKEN_SKIP) {
            None => None,
            Some(open) => match position(text, seq!['"'], open + 1) {
                None => None,
                Some(close) => Some(text.subrange(open + 1, close)),
            },
        },
    }
}

/// A page as it came back.
#[derive(Debug)]
pub struct Page {
    /// The cookies that the answer sets.
    pub cookies: Vec<String>,
    /// Where the answer leads, where it leads anywhere.
    pub location: Option<String>,
    /// The page's text.
    pub text: String,
}

/// How far signing in has come.
#[derive(Debug)]
pub enum Login {
    /// The page that asks for name and password is to be fetched.
    FetchLoginPage,
    /// Name and password are to be sent with the page's token and cookies.
    SubmitCredentials {
        /// The token of the page.
        token: String,
        /// The cookies of the page.
        cookies: Vec<String>,
    },
    /// The page that the answer leads to is to be fetched.
    FollowRedirect {
        /// The token of the first page.
        token: String,
        /// Where the answer leads.
        location: String,
        /// The cookies of the answer.
        cookies: Vec<String>,
    },
    /// Signing in is over: with the token that gives access, or failed.
    Done(Result<String, GabError>),
}

impl Gab {
    /// The token that a page holds.
    pub fn extract_token(text: &str) -> (token: Option<String>)
        ensures
            opt_text(token) == token_in(text@),
    {
        let chars = chars_of(text);
        let total = chars.len();
        let name = chars_of("_token");
        let mut quote: Vec<char> = Vec::new();
        quote.push('"');
        assert(quote@ =~= seq!['"']);
        let start = match find(&chars, &name, 0) {
            Some(start) => start,
            None => {
                return None;
            },
        };
        if start > usize::MAX - TOKEN_SKIP {
            assert forall|at: int| !#[trigger] crate::text::first_at(
                text@,
                seq!['"'],
                start + TOKEN_SKIP,
                at,
            ) by {
                assert(chars@.len() == total);
            }
            return None;
        }
        let open = match find(&chars, &quote, start + TOKEN_SKIP) {
            Some(open) => open,
            None => {
                return None;
            },
        };
        assert(crate::text::occurs_at(chars@, quote@, open as int));
        let close = match find(&chars, &quote, open + 1) {
            Some(close) => close,
            None => {
                return None;
            },
        };
        Some(string_of(&chars, open + 1, close))
    }
}

impl Login {
    /// Signing in at its start.
    pub fn start() -> (login: Login)
        ensures
            login is FetchLoginPage,
    {
        Login::FetchLoginPage
    }

    /// Whether `request` is what is due: the page that asks for name and
    /// password; then name and password with that page's token and cookies;
    /// then the page that the answer leads to, with the answer's cookies;
    /// and nothing once signing in is over.
    pub open spec fn plans(self, request: Option<Request>, username: Seq<char>, password: Seq<char>)
        -> bool {
        match (self, request) {
            (Login::FetchLoginPage, Some(request)) => {
                &&& request.method == Method::Get
                &&& request.url@ == LOGIN_URL@
                &&& request.authorization is None
                &&& request.cookies@.len() == 0
                &&& request.body is Empty
            },
            (Login::SubmitCredentials { token, cookies }, Some(request)) => {
                &&& request.method == Method::Post
                &&& request.url@ == LOGIN_URL@
                &&& request.authorization is None
                &&& request.cookies@ == cookies@
                &&& request.body matches Body::Json(Payload::GabLogin(auth)) && auth.username@
                    == username && auth.password@ == password && auth.remember@ == "on"@
                    && auth._token@ == token@
            },
            (Login::FollowRedirect { token, location, cookies }, Some(request)) => {
                &&& request.method == Method::Get
                &&& request.url@ == location@
                &&& request.authorization is None
                &&& request.cookies@ == cookies@
                &&& request.body is Empty
            },
            (Login::Done(_), None) => true,
            _ => false,
        }
    }

    /// The request that is due.
    pub fn request(&self, username: &str, password: &str) -> (request: Option<Request>)
        ensures
            self.plans(request, username@, password@),
    {
        match self {
            Login::FetchLoginPage => Some(
                Request {
                    method: Method::Get,
                    url: String::from_str(LOGIN_URL),
                    authorization: None,
                    cookies: Vec::new(),
                    body: Body::Empty,
                },
            ),
            Login::SubmitCredentials { token, cookies } => Some(
                Request {
                    method: Method::Post,
                    url: String::from_str(LOGIN_URL),
                    authorization: None,
                    cookies: copy_texts(cookies),
                    body: Body::Json(
                        Payload::GabLogin(Auth::new(username, password, token.as_str())),
                    ),
                },
            ),
            Login::FollowRedirect { token, location, cookies } => Some(
                Request {
                    method: Method::Get,
                    url: location.clone(),
                    authorization: None,
                    cookies: copy_texts(cookies),
                    body: Body::Empty,
                },
            ),
            Login::Done(_) => None,
        }
    }

    /// Whether `next` is what follows from a delivery. Signing in fails
    /// where nothing came back or what came back could not be read; where
    /// one of the two pages came back without success or holds no token;
    /// where the answer to name and password is no redirection or leads
    /// nowhere; and where the second page holds the token of the first.
    /// Else it goes on, and ends with the token of the second page.
    pub open spec fn leads_to(self, delivery: Delivery<Page>, next: Login) -> bool {
        let failed = next == Login::Done(Err(GabError::LoginFailed));
        match (self, delivery) {
            (Login::Done(_), _) => next == self,
            (Login::FetchLoginPage, Delivery::Answered { status, body: Some(page) }) => {
                if is_success(status) && token_in(page.text@) is Some {
                    &&& next is SubmitCredentials
                    &&& next->SubmitCredentials_token@ == token_in(page.text@)->Some_0
                    &&& next->SubmitCredentials_cookies == page.cookies
                } else {
                    failed
                }
            },
            (
                Login::SubmitCredentials { token, cookies },
                Delivery::Answered { status, body: Some(page) },
            ) => {
                if is_redirect(status) && page.location is Some {
                    next == (Login::FollowRedirect {
                        token,
                        location: page.location->Some_0,
                        cookies: page.cookies,
                    })
                } else {
                    failed
                }
            },
            (
                Login::FollowRedirect { token, location, cookies },
                Delivery::Answered { status, body: Some(page) },
            ) => {
                if is_success(status) && token_in(page.text@) is Some && token_in(
                    page.text@,
                )->Some_0 != token@ {
                    &&& next is Done
                    &&& next->Done_0 is Ok
                    &&& next->Done_0->Ok_0@ == token_in(page.text@)->Some_0
                } else {
                    failed
                }
            },
            _ => failed,
        }
    }

    /// What follows from a delivery.
    pub fn receive(self, delivery: Delivery<Page>) -> (next: Login)
        ensures
            self.leads_to(delivery, next),
    {
        let (status, page) = match (&self, delivery) {
            (Login::Done(_), _) => {
                return self;
            },
            (_, Delivery::Answered { status, body: Some(page) }) => (status, page),
            (_, _) => {
                return Login::Done(Err(GabError::LoginFailed));
            },
        };
        match self {
            Login::Done(result) => Login::Done(result),
            Login::FetchLoginPage => {
                if !success(status) {
                    return Login::Done(Err(GabError::LoginFailed));
                }
                match Gab::extract_token(page.text.as_str()) {
                    Some(token) => Login::SubmitCredentials { token, cookies: page.cookies },
                    None => Login::Done(Err(GabError::LoginFailed)),
                }
            },
            Login::SubmitCredentials { token, cookies } => {
                if !redirect(status) {
                    return Login::Done(Err(GabError::LoginFailed));
                }
                match page.location {
                    Some(location) => Login::FollowRedirect {
                        token,
                        location,
                        cookies: page.cookies,
                    },
                    None => Login::Done(Err(GabError::LoginFailed)),
                }
            },
            Login::FollowRedirect { token, location, cookies } => {
                if !success(status) {
                    return Login::Done(Err(GabError::LoginFailed));
                }
                match Gab::extract_token(page.text.as_str()) {
                    Some(access) => if text_equal(access.as_str(), token.as_str()) {
                        Login::Done(Err(GabError::LoginFailed))
                    } else {
                        Login::Done(Ok(access))
                    },
                    None => Login::Done(Err(GabError::LoginFailed)),
                }
            },
        }
    }

    /// The client that signing in gave, once it is over.
    pub fn client(self) -> (client: Option<Result<Gab, GabError>>)
        ensures
            match self {
                Login::Done(Ok(access)) => client matches Some(Ok(gab)) && gab.token() == access@,
                Login::Done(Err(error)) => client == Some(Err::<Gab, GabError>(error)),
                _ => client is None,
            },
    {
        match self {
            Login::Done(Ok(access)) => Some(Ok(Gab::with_token(access))),
            Login::Done(Err(error)) => Some(Err(error)),
            _ => None,
        }
    }
}

} // verus!
