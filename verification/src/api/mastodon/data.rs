//! What is sent to Mastodon and what comes back.
use vstd::prelude::*;
use vstd::string::StringExecFns;

use crate::api::messages::ResultImage;
use crate::data::PostFlags;
use crate::data::PostId;
use crate::text::copy_texts;

verus! {

/// An answer that names what was made: an upload or a post.
#[derive(Debug)]
pub struct EntityId {
    /// The identifier.
    pub id: String,
}

impl EntityId {
    /// The name of the uploaded image.
    pub fn image(self) -> (image: ResultImage)
        ensures
            image == ResultImage::Guid(self.id),
    {
        ResultImage::Guid(self.id)
    }

    /// The identifier of the published post.
    pub fn post_id(self) -> (id: PostId)
        ensures
            id == PostId::String(self.id),
    {
        PostId::String(self.id)
    }
}

/// A post as Mastodon takes it.
#[derive(Debug)]
pub struct NewStatus {
    /// The text.
    pub status: String,
    /// The identifiers of the attachments.
    pub media_ids: Vec<String>,
    /// Whether the post is not safe for work.
    pub sensitive: bool,
}

impl NewStatus {
    /// Whether this is the post of a text with attachments and a flag.
    pub open spec fn carries(self, status: Seq<char>, media_ids: Seq<String>, nsfw: bool) -> bool {
        &&& self.status@ == status
        &&& self.media_ids@ == media_ids
        &&& self.sensitive == nsfw
    }

    /// The post of `status` with attachments and flags.
    pub fn new(status: &str, media_ids: &Vec<String>, flags: &PostFlags) -> (post: NewStatus)
        ensures
            post.carries(status@, media_ids@, flags.nsfw),
    {
        NewStatus {
            status: String::from_str(status),
            media_ids: copy_texts(media_ids),
            sensitive: flags.nsfw,
        }
    }
}

} // verus!
