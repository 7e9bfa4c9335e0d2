//! Why a feed could not be resolved into a record.

use vstd::prelude::*;

verus! {

/// The reason a resolution attempt ended without a record. Each variant
/// names the one thing that was missing or unusable.
#[derive(Debug, Clone, Copy, PartialEq, Eq, Structural)]
pub enum ResolveError {
    /// The feed could not be fetched.
    FeedUnreachable,
    /// The feed bytes are not a syndication document.
    FeedUnreadable,
    /// The feed has no entry.
    LatestNotFound,
    /// The entry has no publish date.
    PubDateNotFound,
    /// The entry has no link.
    LinkNotFound,
    /// The entry has no `media` extension namespace.
    MediaNotFound,
    /// The `media` namespace has no `content` element list.
    ContentNotFound,
    /// The `content` element list is empty.
    ContentFirstNotFound,
    /// The first `content` element has no `hash` child list.
    HashNotFound,
    /// The `hash` child list is empty.
    HashFirstNotFound,
    /// The first `hash` child has no text.
    Md5NotFound,
    /// The entry has no title.
    TitleNotFound,
    /// The title, read as a path, has no final segment.
    FileNameNotFound,
    /// The final segment of the title is not valid text.
    FileNameNotText,
    /// The publish date is not an RFC 2822 date.
    PubDateInvalid,
}

/// The text that goes with each error.
pub open spec fn message_of(e: ResolveError) -> Seq<char> {
    match e {
        ResolveError::FeedUnreachable => "feed unreachable"@,
        ResolveError::FeedUnreadable => "feed unreadable"@,
        ResolveError::LatestNotFound => "latest rom not found"@,
        ResolveError::PubDateNotFound => "pub date not found"@,
        ResolveError::LinkNotFound => "link not found"@,
        ResolveError::MediaNotFound => "media not found"@,
        ResolveError::ContentNotFound => "content not found"@,
        ResolveError::ContentFirstNotFound => "content first extension not found"@,
        ResolveError::HashNotFound => "hash not found"@,
        ResolveError::HashFirstNotFound => "hash first extension not found"@,
        ResolveError::Md5NotFound => "md5 not found"@,
        ResolveError::TitleNotFound => "title not found"@,
        ResolveError::FileNameNotFound => "file name not found"@,
        ResolveError::FileNameNotText => "file name can not to str"@,
        ResolveError::PubDateInvalid => "pub date invalid"@,
    }
}

impl ResolveError {
    /// The text that goes with this error.
    pub fn message(&self) -> (r: &'static str)
        ensures
            r@ == message_of(*self),
    {
        match self {
            ResolveError::FeedUnreachable => "feed unreachable",
            ResolveError::FeedUnreadable => "feed unreadable",
            ResolveError::LatestNotFound => "latest rom not found",
            ResolveError::PubDateNotFound => "pub date not found",
            ResolveError::LinkNotFound => "link not found",
            ResolveError::MediaNotFound => "media not found",
            ResolveError::ContentNotFound => "content not found",
            ResolveError::ContentFirstNotFound => "content first extension not found",
            ResolveError::HashNotFound => "hash not found",
            ResolveError::HashFirstNotFound => "hash first extension not found",
            ResolveError::Md5NotFound => "md5 not found",
            ResolveError::TitleNotFound => "title not found",
            ResolveError::FileNameNotFound => "file name not found",
            ResolveError::FileNameNotText => "file name can not to str",
            ResolveError::PubDateInvalid => "pub date invalid",
        }
    }
}

} // verus!
