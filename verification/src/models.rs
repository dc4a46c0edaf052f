//! The records that the website's API exchanges, as far as the bot reads
//! them.

use vstd::prelude::*;

use crate::locale::SupportedLocale;

verus! {

/// An update post as the website serves it. The shape of its mask, `M`,
/// is carried along unread.
#[derive(Clone, Debug)]
pub struct UpdatePost<M> {
    /// Reference id.
    pub id: i32,
    /// Leading header text.
    pub header: String,
    pub title: String,
    pub summary: String,
    /// The locale the post is written in.
    pub locale: SupportedLocale,
    /// Whether the post is hidden.
    pub trashed: bool,
    /// The id of the cover image, if any.
    pub cover: Option<i32>,
    /// The shape of the mask.
    pub mask: M,
}

/// A new update post, as sent to the website.
#[derive(Clone, Debug)]
pub struct UpdatePutRequest<M> {
    pub locale: SupportedLocale,
    pub header: String,
    pub title: String,
    pub summary: String,
    /// The id of the cover image, if any.
    pub cover: Option<i32>,
    /// The shape of the mask.
    pub mask: M,
}

impl<M: Copy> UpdatePutRequest<M> {
    /// A copy of the request.
    pub fn duplicate(&self) -> (r: Self)
        ensures
            r.locale == self.locale,
            r.header@ == self.header@,
            r.title@ == self.title@,
            r.summary@ == self.summary@,
            r.cover == self.cover,
            r.mask == self.mask,
    {
        UpdatePutRequest {
            locale: self.locale,
            header: self.header.clone(),
            title: self.title.clone(),
            summary: self.summary.clone(),
            cover: self.cover,
            mask: self.mask,
        }
    }
}

} // verus!
