//! Gab.
pub mod data;
pub mod login;
mod error;

use vstd::prelude::*;
use vstd::string::StringExecFns;

use crate::api::request::bearer;
use crate::api::request::bearer_auth;
use crate::api::request::Body;
use crate::api::request::FilePart;
use crate::api::request::Payload;
use crate::api::request::Request;
use crate::api::http::Method;
use crate::config;
use crate::data::PostFlags;
use crate::text::opt_text;

pub use error::GabError;

verus! {

/// Where images go.
pub const IMAGES_URL: &'static str = "https://gab.com/api/v1/media";

/// Where posts go.
pub const POST_URL: &'static str = "https://gab.com/api/v1/statuses";

/// The client of Gab.
#[derive(Debug)]
pub struct Gab {
    token: String,
}

impl Gab {
    /// The token that the client presents.
    pub closed spec fn token(self) -> Seq<char> {
        self.token@
    }

    /// The client that presents the configured access token.
    pub fn new(config: config::Gab) -> (client: Result<Gab, GabError>)
        ensures
            client is Ok,
            client->Ok_0.token() == config.access_token@,
    {
        Ok(Gab { token: config.access_token })
    }

    /// The client that presents `token`, as signing in gives it.
    pub fn with_token(token: String) -> (client: Gab)
        ensures
            client.token() == token@,
    {
        Gab { token }
    }

    /// Whether `request` uploads the image of the given name, type and
    /// content.
    pub open spec fn uploads(self, request: Request, name: Seq<char>, mime: Seq<char>, data: Seq<u8>)
        -> bool {
        &&& request.method == Method::Post
        &&& request.url@ == IMAGES_URL@
        &&& opt_text(request.authorization) == Some(bearer(self.token()))
        &&& request.cookies@.len() == 0
        &&& request.body matches Body::File(part) && part.carries(name, mime, data)
    }

    /// The request that uploads an image.
    pub fn upload_image(&self, name: &str, mime: &str, data: &[u8]) -> (request: Request)
        ensures
            self.uploads(request, name@, mime@, data@),
    {
        Request {
            method: Method::Post,
            url: String::from_str(IMAGES_URL),
            authorization: Some(bearer_auth(self.token.as_str())),
            cookies: Vec::new(),
            body: Body::File(FilePart::new(name, mime, data)),
        }
    }

    /// Whether `request` publishes `message` with the attachments and the
    /// flag.
    pub open spec fn publishes(
        self,
        request: Request,
        message: Seq<char>,
        attachments: Seq<String>,
        nsfw: bool,
    ) -> bool {
        &&& request.method == Method::Post
        &&& request.url@ == POST_URL@
        &&& opt_text(request.authorization) == Some(bearer(self.token()))
        &&& request.cookies@.len() == 0
        &&& request.body matches Body::Json(Payload::GabStatus(post)) && post.carries(
            message,
            attachments,
            nsfw,
        )
    }

    /// The request that publishes a post.
    pub fn post(&self, message: &str, media_attachments: &Vec<String>, flags: &PostFlags) -> (request:
        Request)
        ensures
            self.publishes(request, message@, media_attachments@, flags.nsfw),
    {
        Request {
            method: Method::Post,
            url: String::from_str(POST_URL),
            authorization: Some(bearer_auth(self.token.as_str())),
            cookies: Vec::new(),
            body: Body::Json(
                Payload::GabStatus(data::PostData::new(message, media_attachments, flags)),
            ),
        }
    }
}

} // verus!
