//! Minds.
pub mod data;
mod error;

use vstd::prelude::*;
use vstd::string::StringExecFns;

use crate::api::http::is_success;
use crate::api::http::success;
use crate::api::http::Delivery;
use crate::api::http::Method;
use crate::api::request::bearer;
use crate::api::request::bearer_auth;
use crate::api::request::Body;
use crate::api::request::FilePart;
use crate::api::request::Payload;
use crate::api::request::Request;
use crate::config;
use crate::data::PostFlags;
use crate::text::opt_text;

pub use error::MindsError;

verus! {

/// Where access is granted.
pub const OAUTH2_URL: &'static str = "https://www.minds.com/api/v2/oauth/token";

/// Where images go.
pub const IMAGES_URL: &'static str = "https://www.minds.com/api/v1/media";

/// Where posts go.
pub const POST_URL: &'static str = "https://www.minds.com/api/v1/newsfeed";

/// The client of Minds.
#[derive(Debug)]
pub struct Minds {
    token: String,
}

impl Minds {
    /// The token that the client presents.
    pub closed spec fn token(self) -> Seq<char> {
        self.token@
    }

    /// Whether `request` signs the user of the configuration in.
    pub open spec fn signs_in(request: Request, username: Seq<char>, password: Seq<char>) -> bool {
        &&& request.method == Method::Post
        &&& request.url@ == OAUTH2_URL@
        &&& request.authorization is None
        &&& request.cookies@.len() == 0
        &&& request.body matches Body::Json(Payload::MindsLogin(auth)) && auth.grant_type@
            == "password"@ && auth.client_id@ == "mobile"@ && auth.username@ == username
            && auth.password@ == password
    }

    /// The request that signs the user of the configuration in.
    pub fn login(config: &config::Minds) -> (request: Request)
        ensures
            Minds::signs_in(request, config.username@, config.password@),
    {
        Request {
            method: Method::Post,
            url: String::from_str(OAUTH2_URL),
            authorization: None,
            cookies: Vec::new(),
            body: Body::Json(
                Payload::MindsLogin(
                    data::Auth::new(config.username.as_str(), config.password.as_str()),
                ),
            ),
        }
    }

    /// The token that an answer to signing in grants: the one it holds, where
    /// it came back with success and could be read.
    pub open spec fn granted(login: Delivery<data::Oauth2>) -> Option<String> {
        match login {
            Delivery::Answered { status, body: Some(oauth2) } => if is_success(status) {
                Some(oauth2.access_token)
            } else {
                None
            },
            _ => None,
        }
    }

    /// The client that the answer to signing in gives: the one that presents
    /// the granted token, or the error where none was granted. Signing in is
    /// not tried again.
    pub fn new(login: Delivery<data::Oauth2>) -> (client: Result<Minds, MindsError>)
        ensures
            match client {
                Ok(client) => Minds::granted(login) is Some && client.token() == Minds::granted(
                    login,
                )->Some_0@,
                Err(error) => Minds::granted(login) is None && error == MindsError::LoginFailed,
            },
    {
        match login {
            Delivery::Answered { status, body: Some(oauth2) } => {
                if success(status) {
                    Ok(Minds { token: oauth2.access_token })
                } else {
                    Err(MindsError::LoginFailed)
                }
            },
            _ => Err(MindsError::LoginFailed),
        }
    }

    /// Whether `request` uploads the image of the given name, type and
    /// content.
    pub open spec fn uploads(self, request: Request, name: Seq<char>, mime: Seq<char>, data: Seq<u8>)
        -> bool {
        &&& request.method == Method::Post
        &&& request.url@ == IMAGES_URL@
        &&& opt_text(request.authorization) == Some(bearer(self.token()))
        &&& request.cookies@.len() == 0
        &&& request.body matches Body::File(part) && part.carries(name, mime, data)
    }

    /// The request that uploads an image.
    pub fn upload_image(&self, name: &str, mime: &str, data: &[u8]) -> (request: Request)
        ensures
            self.uploads(request, name@, mime@, data@),
    {
        Request {
            method: Method::Post,
            url: String::from_str(IMAGES_URL),
            authorization: Some(bearer_auth(self.token.as_str())),
            cookies: Vec::new(),
            body: Body::File(FilePart::new(name, mime, data)),
        }
    }

    /// Whether `request` publishes `message` with the attachment and the
    /// flag.
    pub open spec fn publishes(
        self,
        request: Request,
        message: Seq<char>,
        attachment: Option<String>,
        nsfw: bool,
    ) -> bool {
        &&& request.method == Method::Post
        &&& request.url@ == POST_URL@
        &&& opt_text(request.authorization) == Some(bearer(self.token()))
        &&& request.cookies@.len() == 0
        &&& request.body matches Body::Json(Payload::MindsPost(post)) && post.carries(
            message,
            attachment,
            nsfw,
        )
    }

    /// The request that publishes a post. Minds takes one attachment.
    pub fn post(&self, message: &str, media_attachments: Option<String>, flags: &PostFlags) -> (request:
        Request)
        ensures
            self.publishes(request, message@, media_attachments, flags.nsfw),
    {
        Request {
            method: Method::Post,
            url: String::from_str(POST_URL),
            authorization: Some(bearer_auth(self.token.as_str())),
            cookies: Vec::new(),
            body: Body::Json(
                Payload::MindsPost(data::Post::new(message, &media_attachments, flags)),
            ),
        }
    }
}

} // verus!
