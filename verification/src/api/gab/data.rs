//! What is sent to Gab and what comes back.
use vstd::prelude::*;
use vstd::string::StringExecFns;

use crate::api::messages::ResultImage;
use crate::data::PostFlags;
use crate::data::PostId;
use crate::text::copy_texts;

verus! {

/// What signs a user in.
#[derive(Debug)]
pub struct Auth {
    /// The user's name.
    pub username: String,
    /// The user's password.
    pub password: String,
    /// Whether to stay signed in: always `on`.
    pub remember: &'static str,
    /// The token of the page that asks for name and password.
    pub _token: String,
}

impl Auth {
    /// What signs `username` in with the token of the sign-in page.
    pub fn new(username: &str, password: &str, _token: &str) -> (auth: Auth)
        ensures
            auth.username@ == username@,
            auth.password@ == password@,
            auth.remember@ == "on"@,
            auth._token@ == _token@,
    {
        Auth {
            username: String::from_str(username),
            password: String::from_str(password),
            remember: "on",
            _token: String::from_str(_token),
        }
    }
}

/// The answer to an upload.
#[derive(Debug)]
pub struct UploadResponse {
    /// The identifier of what was uploaded.
    pub id: String,
}

impl UploadResponse {
    /// The name of the uploaded image.
    pub fn image(self) -> (image: ResultImage)
        ensures
            image == ResultImage::Guid(self.id),
    {
        ResultImage::Guid(self.id)
    }
}

/// A post as Gab takes it.
#[derive(Debug)]
pub struct PostData {
    /// The text.
    pub body: String,
    /// What is answered: nothing.
    pub reply_to: &'static str,
    /// Whether another post is quoted.
    pub is_quote: u8,
    /// Whether the text is HTML.
    pub is_html: u8,
    /// Whether the post is not safe for work.
    pub nsfw: u8,
    /// Whether the post is for paying readers.
    pub is_premium: u8,
    /// What is done: `post`.
    pub _method: &'static str,
    /// An animation: none.
    pub gif: &'static str,
    /// The category: none.
    pub category: Option<String>,
    /// The topic: none.
    pub topic: Option<String>,
    /// Whether to share on Twitter.
    pub share_twitter: bool,
    /// Whether to share on Facebook.
    pub share_facebook: bool,
    /// The identifiers of the attachments.
    pub media_attachments: Vec<String>,
}

impl PostData {
    /// Whether this is the plain post of a text with attachments and a flag:
    /// every other field has its fixed value.
    pub open spec fn carries(self, message: Seq<char>, attachments: Seq<String>, nsfw: bool)
        -> bool {
        &&& self.body@ == message
        &&& self.reply_to@ == ""@
        &&& self.is_quote == 0
        &&& self.is_html == 0
        &&& self.nsfw == if nsfw {
            1u8
        } else {
            0u8
        }
        &&& self.is_premium == 0
        &&& self._method@ == "post"@
        &&& self.gif@ == ""@
        &&& self.category is None
        &&& self.topic is None
        &&& !self.share_twitter
        &&& !self.share_facebook
        &&& self.media_attachments@ == attachments
    }

    /// The plain post of `message` with attachments and flags.
    pub fn new(message: &str, media_attachments: &Vec<String>, flags: &PostFlags) -> (data:
        PostData)
        ensures
            data.carries(message@, media_attachments@, flags.nsfw),
    {
        PostData {
            body: String::from_str(message),
            reply_to: "",
            is_quote: 0,
            is_html: 0,
            nsfw: if flags.nsfw {
                1
            } else {
                0
            },
            is_premium: 0,
            _method: "post",
            gif: "",
            category: None,
            topic: None,
            share_twitter: false,
            share_facebook: false,
            media_attachments: copy_texts(media_attachments),
        }
    }
}

/// A published post.
#[derive(Debug)]
pub struct Post {
    /// The identifier.
    pub id: String,
}

/// The answer to a post.
#[derive(Debug)]
pub struct PostResponse {
    /// The published post.
    pub post: Post,
}

impl PostResponse {
    /// The identifier of the published post.
    pub fn post_id(self) -> (id: PostId)
        ensures
            id == PostId::String(self.post.id),
    {
        PostId::String(self.post.id)
    }
}

} // verus!
