//! Mastodon.
pub mod data;
mod error;

use vstd::prelude::*;
use vstd::string::StringExecFns;

use crate::api::http::Method;
use crate::api::request::bearer;
use crate::api::request::bearer_auth;
use crate::api::request::Body;
use crate::api::request::FilePart;
use crate::api::request::Payload;
use crate::api::request::Request;
use crate::config;
use crate::data::PostFlags;
use crate::text::opt_text;

pub use error::MastodonError;

verus! {

/// Whether the crate `http` reads the text as an address.
pub uninterp spec fn is_uri(text: Seq<char>) -> bool;

/// Calls `str::parse::<http::Uri>`, which goes by the text alone, and says
/// whether it gave an address.
#[verifier::external_body]
fn parses_as_uri(text: &str) -> (ok: bool)
    ensures
        ok == is_uri(text@),
{
    text.parse::<http::Uri>().is_ok()
}

/// The address of a host's service at `path`.
pub open spec fn service(host: Seq<char>, path: Seq<char>) -> Seq<char> {
    "https://"@ + host + path
}

/// The client of a Mastodon host.
#[derive(Debug)]
pub struct Mastodon {
    config: config::Mastodon,
}

impl Mastodon {
    /// The host that the client talks to.
    pub closed spec fn host(self) -> Seq<char> {
        self.config.host@
    }

    /// The token that the client presents.
    pub closed spec fn token(self) -> Seq<char> {
        self.config.access_token@
    }

    /// What a configuration gives, once it is known whether its host reads
    /// as an address: the client where it does and the token is not empty,
    /// else the error that says which of the two is wrong, the host first.
    pub fn checked(config: config::Mastodon, host_is_uri: bool) -> (client: Result<
        Mastodon,
        MastodonError,
    >)
        ensures
            match client {
                Ok(client) => host_is_uri && config.access_token@.len() > 0 && client.host()
                    == config.host@ && client.token() == config.access_token@,
                Err(MastodonError::InvalidHostUri) => !host_is_uri,
                Err(MastodonError::InvalidToken) => host_is_uri && config.access_token@.len() == 0,
                Err(_) => false,
            },
    {
        if !host_is_uri {
            return Err(MastodonError::InvalidHostUri);
        }
        if config.access_token.as_str().is_empty() {
            return Err(MastodonError::InvalidToken);
        }
        Ok(Mastodon { config })
    }

    /// The client of a configuration whose host reads as an address and whose
    /// token is not empty; nothing is asked of the network.
    pub fn new(config: config::Mastodon) -> (client: Result<Mastodon, MastodonError>)
        ensures
            match client {
                Ok(client) => is_uri(config.host@) && config.access_token@.len() > 0
                    && client.host() == config.host@ && client.token() == config.access_token@,
                Err(MastodonError::InvalidHostUri) => !is_uri(config.host@),
                Err(MastodonError::InvalidToken) => is_uri(config.host@)
                    && config.access_token@.len() == 0,
                Err(_) => false,
            },
    {
        let host_is_uri = parses_as_uri(config.host.as_str());
        Mastodon::checked(config, host_is_uri)
    }

    /// Whether `request` uploads the image of the given name, type and
    /// content.
    pub open spec fn uploads(self, request: Request, name: Seq<char>, mime: Seq<char>, data: Seq<u8>)
        -> bool {
        &&& request.method == Method::Post
        &&& request.url@ == service(self.host(), "/api/v1/media"@)
        &&& opt_text(request.authorization) == Some(bearer(self.token()))
        &&& request.cookies@.len() == 0
        &&& request.body matches Body::File(part) && part.carries(name, mime, data)
    }

    /// The request that uploads an image.
    pub fn upload_image(&self, name: &str, mime: &str, data: &[u8]) -> (request: Request)
        ensures
            self.uploads(request, name@, mime@, data@),
    {
        let mut url = String::from_str("https://");
        url.append(self.config.host.as_str());
        url.append("/api/v1/media");
        Request {
            method: Method::Post,
            url,
            authorization: Some(bearer_auth(self.config.access_token.as_str())),
            cookies: Vec::new(),
            body: Body::File(FilePart::new(name, mime, data)),
        }
    }

    /// Whether `request` publishes `message` with the attachments and the
    /// flag.
    pub open spec fn publishes(
        self,
        request: Request,
        message: Seq<char>,
        attachments: Seq<String>,
        nsfw: bool,
    ) -> bool {
        &&& request.method == Method::Post
        &&& request.url@ == service(self.host(), "/api/v1/statuses"@)
        &&& opt_text(request.authorization) == Some(bearer(self.token()))
        &&& request.cookies@.len() == 0
        &&& request.body matches Body::Json(Payload::MastodonStatus(post)) && post.carries(
            message,
            attachments,
            nsfw,
        )
    }

    /// The request that publishes a post.
    pub fn post(&self, message: &str, media_attachments: &Vec<String>, flags: &PostFlags) -> (request:
        Request)
        ensures
            self.publishes(request, message@, media_attachments@, flags.nsfw),
    {
        let mut url = String::from_str("https://");
        url.append(self.config.host.as_str());
        url.append("/api/v1/statuses");
        Request {
            method: Method::Post,
            url,
            authorization: Some(bearer_auth(self.config.access_token.as_str())),
            cookies: Vec::new(),
            body: Body::Json(
                Payload::MastodonStatus(data::NewStatus::new(message, media_attachments, flags)),
            ),
        }
    }
}

} // verus!
