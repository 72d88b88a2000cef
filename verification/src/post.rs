//! The post data model: metadata and content as fetched from the external
//! data source, shared read-only with the presentation layer.

use vstd::prelude::*;
use crate::dates::Date;

verus! {

/// A post's metadata. Immutable once fetched.
#[derive(Clone, Debug)]
pub struct PostMetadata {
    pub title: String,
    pub description: String,
    pub created_at: Date,
}

/// A single blog entry: metadata plus the content body, a pre-rendered
/// markup fragment. The content is assumed pre-sanitized by the external
/// data source; this core performs no sanitization itself.
#[derive(Clone, Debug)]
pub struct Post {
    pub metadata: PostMetadata,
    pub content: String,
}

impl Post {
    /// A post this core will render: its creation date is within range.
    pub open spec fn wf(self) -> bool {
        self.metadata.created_at.wf()
    }
}

} // verus!
