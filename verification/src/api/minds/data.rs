//! What is sent to Minds and what comes back.
use vstd::prelude::*;
use vstd::string::StringExecFns;

use crate::api::messages::ResultImage;
use crate::data::PostFlags;
use crate::data::PostId;

verus! {

/// What signs a user in.
#[derive(Debug)]
pub struct Auth {
    /// How access is granted: by `password`.
    pub grant_type: &'static str,
    /// Who asks: `mobile`.
    pub client_id: &'static str,
    /// The user's name.
    pub username: String,
    /// The user's password.
    pub password: String,
}

impl Auth {
    /// What signs `username` in.
    pub fn new(username: &str, password: &str) -> (auth: Auth)
        ensures
            auth.grant_type@ == "password"@,
            auth.client_id@ == "mobile"@,
            auth.username@ == username@,
            auth.password@ == password@,
    {
        Auth {
            grant_type: "password",
            client_id: "mobile",
            username: String::from_str(username),
            password: String::from_str(password),
        }
    }
}

/// The answer to signing in.
#[derive(Debug)]
pub struct Oauth2 {
    /// The token that gives access.
    pub access_token: String,
    /// How long the token lasts.
    pub expires_in: u64,
    /// The status in words.
    pub status: String,
}

/// A post as Minds takes it.
#[derive(Debug)]
pub struct Post {
    /// What reading costs: nothing.
    pub wire_threshold: Option<String>,
    /// The text.
    pub message: String,
    /// Whether the post is rich.
    pub is_rich: u8,
    /// The title: none.
    pub title: Option<String>,
    /// The description: none.
    pub description: Option<String>,
    /// The thumbnail: none.
    pub thumbnail: Option<String>,
    /// The address: none.
    pub url: Option<String>,
    /// The one attachment, where there is one.
    pub attachment_guid: Option<String>,
    /// Whether the post is not safe for work.
    pub mature: u8,
    /// Who may read: everybody.
    pub access_id: u8,
}

impl Post {
    /// Whether this is the plain post of a text with an attachment and a
    /// flag: every other field has its fixed value.
    pub open spec fn carries(self, message: Seq<char>, attachment: Option<String>, nsfw: bool)
        -> bool {
        &&& self.wire_threshold is None
        &&& self.message@ == message
        &&& self.is_rich == 0
        &&& self.title is None
        &&& self.description is None
        &&& self.thumbnail is None
        &&& self.url is None
        &&& self.attachment_guid == attachment
        &&& self.mature == if nsfw {
            1u8
        } else {
            0u8
        }
        &&& self.access_id == 2
    }

    /// The plain post of `message` with an attachment and flags.
    pub fn new(message: &str, attachment_guid: &Option<String>, flags: &PostFlags) -> (post: Post)
        ensures
            post.carries(message@, *attachment_guid, flags.nsfw),
    {
        Post {
            wire_threshold: None,
            message: String::from_str(message),
            is_rich: 0,
            title: None,
            description: None,
            thumbnail: None,
            url: None,
            attachment_guid: match attachment_guid {
                Some(guid) => Some(guid.clone()),
                None => None,
            },
            mature: if flags.nsfw {
                1
            } else {
                0
            },
            access_id: 2,
        }
    }
}

/// The answer to an upload and to a post.
#[derive(Debug)]
pub struct UploadResponse {
    /// The identifier of what was made.
    pub guid: String,
}

impl UploadResponse {
    /// The name of the uploaded image.
    pub fn image(self) -> (image: ResultImage)
        ensures
            image == ResultImage::Guid(self.guid),
    {
        ResultImage::Guid(self.guid)
    }

    /// The identifier of the published post.
    pub fn post_id(self) -> (id: PostId)
        ensures
            id == PostId::String(self.guid),
    {
        PostId::String(self.guid)
    }
}

} // verus!
