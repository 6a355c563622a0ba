//! What a network gives back for an uploaded image.
use vstd::prelude::*;

verus! {

/// The name that a network gives to an uploaded image: a number or a string.
#[derive(Debug)]
pub enum ResultImage {
    /// A number.
    Id(u64),
    /// A string.
    Guid(String),
}

impl ResultImage {
    /// The number, of a name that is one.
    pub fn id(self) -> (id: u64)
        requires
            self is Id,
        ensures
            self == ResultImage::Id(id),
    {
        match self {
            ResultImage::Id(id) => id,
            ResultImage::Guid(_) => 0,
        }
    }

    /// The string, of a name that is one.
    pub fn guid(self) -> (guid: String)
        requires
            self is Guid,
        ensures
            self == ResultImage::Guid(guid),
    {
        match self {
            ResultImage::Guid(guid) => guid,
            ResultImage::Id(_) => String::new(),
        }
    }
}

} // verus!
