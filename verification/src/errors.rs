//! The single error taxonomy every failure path converges into before it
//! reaches the presentation layer.

use vstd::prelude::*;

verus! {

/// Classification of everything that can go wrong between the route and a
/// rendered post. Carries no payload beyond the tag: raw underlying errors
/// stay with the logging sink and never reach user-facing output.
#[derive(Clone, Copy, Debug, PartialEq, Eq, Structural)]
pub enum PostError {
    /// The route parameter was absent or malformed.
    InvalidIdentifier,
    /// The identifier was valid but no post matches it.
    PostNotFound,
    /// Any transport or backend failure, opaque to the user.
    ServerError,
}

/// The user-facing message for each error class; deliberately short and
/// generic, never the raw underlying failure.
pub open spec fn error_message(e: PostError) -> Seq<char> {
    match e {
        PostError::InvalidIdentifier => "Invalid post identifier"@,
        PostError::PostNotFound => "Post not found"@,
        PostError::ServerError => "Internal server error"@,
    }
}

impl PostError {
    /// The short, generic message shown for this error class.
    pub fn message(&self) -> (s: String)
        ensures
            s@ == error_message(*self),
    {
        match self {
            PostError::InvalidIdentifier => "Invalid post identifier".to_owned(),
            PostError::PostNotFound => "Post not found".to_owned(),
            PostError::ServerError => "Internal server error".to_owned(),
        }
    }
}

} // verus!
