//! Twitter.
pub mod auth;
pub mod clock;
pub mod data;
pub mod encode;
mod error;
pub mod params;
pub mod sign;

use vstd::prelude::*;
use vstd::string::StringExecFns;

use crate::api::http::Method;
use crate::api::request::Body;
use crate::api::request::Request;
use crate::api::twitter::clock::unix_seconds;
use crate::api::twitter::data::ids_text;
use crate::api::twitter::data::Media;
use crate::api::twitter::data::Oauth;
use crate::api::twitter::data::Tweet;
use crate::api::twitter::data::NONCE_LEN;
use crate::api::twitter::encode::encoded_text;
use crate::api::twitter::params::pairs_of;
use crate::api::twitter::params::Pair;
use crate::api::twitter::sign::base64;
use crate::api::twitter::sign::base64_max;
use crate::api::twitter::sign::is_nonce;
use crate::config;
use crate::data::PostFlags;
use crate::text::opt_text;

pub use error::TwitterError;

verus! {

/// Where images go.
pub const IMAGES_URL: &'static str = "https://upload.twitter.com/1.1/media/upload.json";

/// Where tweets go.
pub const POST_URL: &'static str = "https://api.twitter.com/1.1/statuses/update.json";

/// The fields of the form that uploads an image.
pub open spec fn media_pairs(data: Seq<u8>) -> Seq<Pair> {
    seq![("media_data"@, base64(data))]
}

/// The fields of the form that posts a tweet: the text, the attachments
/// where there are any, and whether the tweet is not safe for work.
pub open spec fn tweet_pairs(message: Seq<char>, ids: Seq<u64>, nsfw: bool) -> Seq<Pair> {
    let sensitive = if nsfw {
        "true"@
    } else {
        "false"@
    };
    if ids.len() > 0 {
        seq![
            ("status"@, message),
            ("media_ids"@, ids_text(ids)),
            ("possibly_sensitive"@, sensitive),
        ]
    } else {
        seq![("status"@, message), ("possibly_sensitive"@, sensitive)]
    }
}

/// The client of Twitter.
pub struct Twitter {
    oauth: Oauth,
}

impl Twitter {
    /// The keys that sign the client's requests.
    pub closed spec fn oauth(self) -> Oauth {
        self.oauth
    }

    /// Whether no part of the configured tokens is empty.
    pub open spec fn usable(config: config::Twitter) -> bool {
        &&& config.consumer.key@.len() > 0
        &&& config.consumer.secret@.len() > 0
        &&& config.access.key@.len() > 0
        &&& config.access.secret@.len() > 0
    }

    /// The client of a configuration no part of whose tokens is empty;
    /// nothing is asked of the network.
    pub fn new(config: config::Twitter) -> (client: Result<Twitter, TwitterError>)
        ensures
            match client {
                Ok(client) => {
                    &&& Twitter::usable(config)
                    &&& client.oauth().consumer_key() == encoded_text(config.consumer.key@)
                    &&& client.oauth().token() == encoded_text(config.access.key@)
                    &&& client.oauth().signature_key() == encoded_text(config.consumer.secret@)
                        + seq!['&'] + encoded_text(config.access.secret@)
                },
                Err(error) => !Twitter::usable(config) && error == TwitterError::InvalidAuthData,
            },
    {
        if config.consumer.key.as_str().is_empty() || config.consumer.secret.as_str().is_empty()
            || config.access.key.as_str().is_empty() || config.access.secret.as_str().is_empty() {
            Err(TwitterError::InvalidAuthData)
        } else {
            Ok(Twitter { oauth: Oauth::new(config) })
        }
    }

    /// Whether `request` is what uploads `data` at `timestamp` with `nonce`:
    /// a signed form that holds the content in base64, or nothing where the
    /// content is too long for base64 or the request too long to be signed.
    pub open spec fn uploads(
        self,
        request: Option<Request>,
        data: Seq<u8>,
        nonce: Seq<char>,
        timestamp: u64,
    ) -> bool {
        let header = if data.len() <= base64_max() {
            self.oauth().authorization(
                Method::Post,
                IMAGES_URL@,
                media_pairs(data),
                nonce,
                timestamp,
            )
        } else {
            None
        };
        match request {
            Some(request) => {
                &&& header is Some
                &&& request.method == Method::Post
                &&& request.url@ == IMAGES_URL@
                &&& opt_text(request.authorization) == header
                &&& request.cookies@.len() == 0
                &&& request.body matches Body::Form(fields) && pairs_of(fields@) == media_pairs(
                    data,
                )
            },
            None => header is None,
        }
    }

    /// The request that uploads an image at `timestamp` with `nonce`. Name
    /// and type of the image are not sent.
    pub fn upload_image_at(
        &self,
        _name: &str,
        _mime: &str,
        data: &[u8],
        nonce: &str,
        timestamp: u64,
    ) -> (request: Option<Request>)
        ensures
            self.uploads(request, data@, nonce@, timestamp),
    {
        let media = match Media::checked_from_bytes(data) {
            Some(media) => media,
            None => {
                return None;
            },
        };
        let fields = media.fields();
        match self.oauth.gen_auth_at(&Method::Post, IMAGES_URL, &fields, nonce, timestamp) {
            Some(header) => Some(
                Request {
                    method: Method::Post,
                    url: String::from_str(IMAGES_URL),
                    authorization: Some(header),
                    cookies: Vec::new(),
                    body: Body::Form(fields),
                },
            ),
            None => None,
        }
    }

    /// The request that uploads an image now, with a fresh nonce.
    pub fn upload_image(&self, _name: &str, _mime: &str, data: &[u8]) -> (request: Option<Request>)
        ensures
            exists|nonce: Seq<char>, timestamp: u64|
                is_nonce(nonce, NONCE_LEN as nat) && #[trigger] self.uploads(
                    request,
                    data@,
                    nonce,
                    timestamp,
                ),
    {
        let nonce = Oauth::nonce();
        let timestamp = unix_seconds();
        let request = self.upload_image_at(_name, _mime, data, nonce.as_str(), timestamp);
        assert(self.uploads(request, data@, nonce@, timestamp));
        request
    }

    /// Whether `request` is what posts `message` with the attachments and
    /// the flag at `timestamp` with `nonce`: a signed form, or nothing where
    /// the request is too long to be signed.
    pub open spec fn publishes(
        self,
        request: Option<Request>,
        message: Seq<char>,
        ids: Seq<u64>,
        nsfw: bool,
        nonce: Seq<char>,
        timestamp: u64,
    ) -> bool {
        let fields = tweet_pairs(message, ids, nsfw);
        let header = self.oauth().authorization(Method::Post, POST_URL@, fields, nonce, timestamp);
        match request {
            Some(request) => {
                &&& header is Some
                &&& request.method == Method::Post
                &&& request.url@ == POST_URL@
                &&& opt_text(request.authorization) == header
                &&& request.cookies@.len() == 0
                &&& request.body matches Body::Form(sent) && pairs_of(sent@) == fields
            },
            None => header is None,
        }
    }

    /// The request that posts a tweet at `timestamp` with `nonce`.
    pub fn post_at(
        &self,
        message: &str,
        media_attachments: &[u64],
        flags: &PostFlags,
        nonce: &str,
        timestamp: u64,
    ) -> (request: Option<Request>)
        ensures
            self.publishes(request, message@, media_attachments@, flags.nsfw, nonce@, timestamp),
    {
        let tweet = Tweet::new(String::from_str(message)).nsfw(flags.nsfw).media_ids(
            media_attachments,
        );
        let fields = tweet.fields();
        assert(pairs_of(fields@) =~= tweet_pairs(message@, media_attachments@, flags.nsfw));
        match self.oauth.gen_auth_at(&Method::Post, POST_URL, &fields, nonce, timestamp) {
            Some(header) => Some(
                Request {
                    method: Method::Post,
                    url: String::from_str(POST_URL),
                    authorization: Some(header),
                    cookies: Vec::new(),
                    body: Body::Form(fields),
                },
            ),
            None => None,
        }
    }

    /// The request that posts a tweet now, with a fresh nonce.
    pub fn post(&self, message: &str, media_attachments: &[u64], flags: &PostFlags) -> (request:
        Option<Request>)
        ensures
            exists|nonce: Seq<char>, timestamp: u64|
                is_nonce(nonce, NONCE_LEN as nat) && #[trigger] self.publishes(
                    request,
                    message@,
                    media_attachments@,
                    flags.nsfw,
                    nonce,
                    timestamp,
                ),
    {
        let nonce = Oauth::nonce();
        let timestamp = unix_seconds();
        let request = self.post_at(message, media_attachments, flags, nonce.as_str(), timestamp);
        assert(self.publishes(request, message@, media_attachments@, flags.nsfw, nonce@, timestamp));
        request
    }
}

} // verus!
