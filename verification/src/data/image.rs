//! An image that is attached to a post.
use vstd::prelude::*;

verus! {

/// The media type that `mime_guess` gives for a path.
pub uninterp spec fn guessed_mime(path: Seq<char>) -> Seq<char>;

/// Calls `mime_guess::from_path(..).first_or_octet_stream()`, which goes by the
/// path's extension alone and falls back on `application/octet-stream`. The
/// result is written as text; the contract only gives it its name.
#[verifier::external_body]
fn guess_mime(path: &str) -> (mime: String)
    ensures
        mime@ == guessed_mime(path@),
{
    mime_guess::from_path(path).first_or_octet_stream().to_string()
}

/// An image in memory.
#[derive(Debug)]
pub struct Image {
    /// The file's name, as it is shown to the network.
    pub name: String,
    /// The media type.
    pub mime: String,
    /// The file's content.
    pub bytes: Vec<u8>,
}

/// An image that could not be read.
#[derive(Debug)]
pub struct Unreadable {
    /// The path that was tried.
    pub path: String,
    /// Why reading failed.
    pub reason: String,
}

impl Image {
    /// The image of the given name, media type and content.
    pub fn with_mime(name: String, mime: String, bytes: Vec<u8>) -> (image: Image)
        ensures
            image.name == name,
            image.mime == mime,
            image.bytes == bytes,
    {
        Image { name, mime, bytes }
    }

    /// The image of the file at `path`, whose name is `name` and whose content
    /// is `bytes`. The media type is guessed from the path.
    pub fn new(path: &str, name: String, bytes: Vec<u8>) -> (image: Image)
        ensures
            image.name == name,
            image.bytes == bytes,
            image.mime@ == guessed_mime(path@),
    {
        Image::with_mime(name, guess_mime(path), bytes)
    }
}

/// What reading a file gave: its name and its content.
#[derive(Debug)]
pub struct Loaded {
    /// The file's name.
    pub name: String,
    /// The file's content.
    pub bytes: Vec<u8>,
}

/// The reading of a post's images, one after another, before anything is
/// asked of a network. The first image that cannot be read ends it.
#[derive(Debug)]
pub struct Loading {
    /// The paths of the images.
    pub paths: Vec<String>,
    /// The images that are read.
    pub images: Vec<Image>,
    /// The image that could not be read, where one could not.
    pub failure: Option<Unreadable>,
}

impl Loading {
    /// The reading at its start.
    pub fn begin(paths: Vec<String>) -> (loading: Loading)
        ensures
            loading.paths == paths,
            loading.images@.len() == 0,
            loading.failure is None,
    {
        Loading { paths, images: Vec::new(), failure: None }
    }

    /// The position of the path that is to be read next: the one behind the
    /// paths that are read, unless all are read or one could not be.
    pub open spec fn due(self) -> Option<int> {
        if self.failure is None && self.images@.len() < self.paths@.len() {
            Some(self.images@.len() as int)
        } else {
            None
        }
    }

    /// The path that is to be read next.
    pub fn next(&self) -> (path: Option<&String>)
        ensures
            match self.due() {
                Some(at) => path == Some(&self.paths@[at]),
                None => path is None,
            },
    {
        if self.failure.is_none() && self.images.len() < self.paths.len() {
            Some(&self.paths[self.images.len()])
        } else {
            None
        }
    }

    /// Takes what reading the path that was due gave: the image with its
    /// media type guessed from the path, or the failure with the path.
    /// Where no path is due nothing changes.
    pub fn loaded(&mut self, outcome: Result<Loaded, String>)
        ensures
            final(self).paths == old(self).paths,
            match old(self).due() {
                None => *final(self) == *old(self),
                Some(at) => match outcome {
                    Ok(file) => {
                        &&& final(self).failure is None
                        &&& final(self).images@.len() == at + 1
                        &&& final(self).images@.take(at) == old(self).images@
                        &&& final(self).images@[at].name == file.name
                        &&& final(self).images@[at].bytes == file.bytes
                        &&& final(self).images@[at].mime@ == guessed_mime(old(self).paths@[at]@)
                    },
                    Err(reason) => {
                        &&& final(self).images == old(self).images
                        &&& final(self).failure matches Some(failure) && failure.reason == reason
                            && failure.path@ == old(self).paths@[at]@
                    },
                },
            },
    {
        if self.failure.is_some() || self.images.len() >= self.paths.len() {
            return ;
        }
        let at = self.images.len();
        match outcome {
            Ok(file) => {
                let image = Image::new(self.paths[at].as_str(), file.name, file.bytes);
                self.images.push(image);
                assert(self.images@.take(at as int) =~= old(self).images@);
            },
            Err(reason) => {
                self.failure = Some(Unreadable { path: self.paths[at].clone(), reason });
            },
        }
    }

    /// What the reading gave: the images in the order of their paths, or
    /// the image that could not be read.
    pub fn finish(self) -> (images: Result<Vec<Image>, Unreadable>)
        ensures
            images == match self.failure {
                Some(failure) => Err::<Vec<Image>, Unreadable>(failure),
                None => Ok(self.images),
            },
    {
        match self.failure {
            Some(failure) => Err(failure),
            None => Ok(self.images),
        }
    }
}

} // verus!
