//! What is posted: a post, its flags, and the identifier a network gives back.
use vstd::prelude::*;
use vstd::string::StringExecFns;

use crate::text::decimal;
use crate::text::decimal_string;
use crate::text::joined;
use crate::text::texts;

pub mod image;

pub use image::Image;
pub use image::Loaded;
pub use image::Loading;
pub use image::Unreadable;

verus! {

/// Flags of a post.
#[derive(Debug, Clone, Copy)]
pub struct PostFlags {
    /// Whether the post is not safe for work.
    pub nsfw: bool,
}

impl Default for PostFlags {
    fn default() -> (flags: Self)
        ensures
            !flags.nsfw,
    {
        PostFlags { nsfw: false }
    }
}

/// A post as the caller describes it.
#[derive(Debug)]
pub struct Post {
    /// The text.
    pub message: String,
    /// Hash tags to add, without the `#`.
    pub tags: Vec<String>,
    /// Paths of the images to attach.
    pub images: Vec<String>,
    /// Flags.
    pub flags: PostFlags,
}

/// The identifier of a published post. Networks name posts by a number or by
/// a string, so this holds either.
#[derive(Debug)]
pub enum PostId {
    /// A number.
    Numeric(u64),
    /// An owned string.
    String(String),
    /// A string that lives as long as the program.
    Str(&'static str),
}

impl PostId {
    /// The identifier as it is shown.
    pub open spec fn text(self) -> Seq<char> {
        match self {
            PostId::Numeric(id) => decimal(id as nat),
            PostId::String(id) => id@,
            PostId::Str(id) => id@,
        }
    }

    /// The identifier as it is shown.
    pub fn to_text(&self) -> (out: String)
        ensures
            out@ == self.text(),
    {
        match self {
            PostId::Numeric(id) => decimal_string(*id),
            PostId::String(id) => id.clone(),
            PostId::Str(id) => String::from_str(id),
        }
    }
}

impl From<u64> for PostId {
    fn from(id: u64) -> (r: PostId) {
        PostId::Numeric(id)
    }
}

impl vstd::std_specs::convert::FromSpecImpl<u64> for PostId {
    open spec fn obeys_from_spec() -> bool {
        true
    }

    open spec fn from_spec(id: u64) -> PostId {
        PostId::Numeric(id)
    }
}

impl From<String> for PostId {
    fn from(id: String) -> (r: PostId) {
        PostId::String(id)
    }
}

impl vstd::std_specs::convert::FromSpecImpl<String> for PostId {
    open spec fn obeys_from_spec() -> bool {
        true
    }

    open spec fn from_spec(id: String) -> PostId {
        PostId::String(id)
    }
}

impl From<&'static str> for PostId {
    fn from(id: &'static str) -> (r: PostId) {
        PostId::Str(id)
    }
}

impl vstd::std_specs::convert::FromSpecImpl<&'static str> for PostId {
    open spec fn obeys_from_spec() -> bool {
        true
    }

    open spec fn from_spec(id: &'static str) -> PostId {
        PostId::Str(id)
    }
}

/// A tag with `#` before it.
pub open spec fn hash_tag(tag: Seq<char>) -> Seq<char> {
    seq!['#'] + tag
}

/// The tags, each with `#` before it, in their order, with one space between
/// each two neighbours.
pub open spec fn hash_tags(tags: Seq<Seq<char>>) -> Seq<char> {
    joined(tags.map_values(|tag: Seq<char>| hash_tag(tag)), seq![' '])
}

/// The text that is sent for a message and its tags: the message alone where
/// there are no tags, the tags alone where the message is empty, else the
/// message, a line break and the tags.
pub open spec fn composed(message: Seq<char>, tags: Seq<Seq<char>>) -> Seq<char> {
    if tags.len() == 0 {
        message
    } else if message.len() == 0 {
        hash_tags(tags)
    } else {
        message + seq!['\n'] + hash_tags(tags)
    }
}

/// Writes the tags as `#first #second ...`.
pub fn join_hash_tags(tags: &Vec<String>) -> (out: String)
    ensures
        out@ == hash_tags(texts(tags@)),
{
    let mut out = String::new();
    let ghost all = texts(tags@).map_values(|tag: Seq<char>| hash_tag(tag));
    let mut i: usize = 0;
    while i < tags.len()
        invariant
            i <= tags.len(),
            all == texts(tags@).map_values(|tag: Seq<char>| hash_tag(tag)),
            out@ == joined(all.take(i as int), seq![' ']),
        decreases tags.len() - i,
    {
        let ghost before = all.take(i as int);
        let ghost after = all.take(i + 1);
        assert(after.drop_last() =~= before);
        assert(after.last() == hash_tag(tags@[i as int]@));
        let ghost start = out@;
        if i > 0 {
            out.push(' ');
            assert(out@ =~= start + seq![' ']);
        }
        let ghost mid = out@;
        out.push('#');
        out.append(tags[i].as_str());
        assert(out@ =~= mid + hash_tag(tags@[i as int]@));
        if i == 0 {
            assert(out@ =~= hash_tag(tags@[0]@));
        }
        i += 1;
    }
    assert(all.take(tags.len() as int) =~= all);
    out
}

/// The text that is sent for the message `body` and `tags`.
pub fn message(body: &str, tags: &Vec<String>) -> (out: String)
    ensures
        out@ == composed(body@, texts(tags@)),
        tags@.len() == 0 ==> out@ == body@,
{
    if tags.len() == 0 {
        String::from_str(body)
    } else if body.unicode_len() == 0 {
        join_hash_tags(tags)
    } else {
        let mut out = String::from_str(body);
        out.push('\n');
        let tail = join_hash_tags(tags);
        out.append(tail.as_str());
        assert(out@ =~= body@ + seq!['\n'] + hash_tags(texts(tags@)));
        out
    }
}

impl Post {
    /// The text that is sent for this post.
    pub open spec fn text(self) -> Seq<char> {
        composed(self.message@, texts(self.tags@))
    }

    /// The text that is sent for this post.
    pub fn compose(&self) -> (out: String)
        ensures
            out@ == self.text(),
            self.tags@.len() == 0 ==> out@ == self.message@,
    {
        message(self.message.as_str(), &self.tags)
    }
}

/// With tags, the text that is sent ends with the tags, written as
/// `#first #second ...` in their order: they are all of it where the message
/// is empty, and else stand on a line of their own after the message.
pub proof fn lemma_composed_ends_with_tags(message: Seq<char>, tags: Seq<Seq<char>>)
    requires
        tags.len() > 0,
    ensures
        ({
            let whole = composed(message, tags);
            let tail = hash_tags(tags);
            &&& whole.len() >= tail.len()
            &&& whole.subrange(whole.len() - tail.len(), whole.len() as int) == tail
            &&& message.len() == 0 ==> whole == tail
            &&& message.len() > 0 ==> whole.subrange(0, whole.len() - tail.len()) == message.push(
                '\n',
            )
        }),
{
    let whole = composed(message, tags);
    let tail = hash_tags(tags);
    if message.len() == 0 {
        assert(whole.subrange(0, whole.len() as int) =~= whole);
    } else {
        assert(whole.subrange(whole.len() - tail.len(), whole.len() as int) =~= tail);
        assert(whole.subrange(0, whole.len() - tail.len()) =~= message.push('\n'));
    }
}

/// One more tag is written after those before it, behind a space.
pub proof fn lemma_hash_tags_push(tags: Seq<Seq<char>>, tag: Seq<char>)
    requires
        tags.len() > 0,
    ensures
        hash_tags(tags.push(tag)) == hash_tags(tags) + seq![' ', '#'] + tag,
{
    let marked = tags.map_values(|t: Seq<char>| hash_tag(t));
    let more = tags.push(tag).map_values(|t: Seq<char>| hash_tag(t));
    assert(more.drop_last() =~= marked);
    assert(more.last() == hash_tag(tag));
    assert(joined(marked, seq![' ']) + seq![' '] + hash_tag(tag) =~= joined(marked, seq![' '])
        + seq![' ', '#'] + tag);
}

} // verus!
