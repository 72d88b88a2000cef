//! Extraction of the post identifier from the route's path parameter.
//! Invalid input is rejected here and never reaches the fetch.

use vstd::prelude::*;
use crate::errors::PostError;

verus! {

/// An identifier is well-formed exactly when it is non-empty; its content
/// is otherwise opaque to this core.
pub open spec fn valid_identifier(s: Seq<char>) -> bool {
    s.len() > 0
}

/// The opaque key naming a post, taken from the route. Always well-formed:
/// only `extract_identifier` builds one.
#[derive(Clone, Debug)]
pub struct PostIdentifier {
    text: String,
}

impl PostIdentifier {
    /// The identifier's text, as handed to the fetch.
    pub closed spec fn view(self) -> Seq<char> {
        self.text@
    }

    /// Every identifier this core hands out is well-formed.
    pub open spec fn wf(self) -> bool {
        valid_identifier(self.view())
    }

    /// The identifier's text, as handed to the fetch.
    pub fn as_str(&self) -> (s: &str)
        ensures
            s@ == self.view(),
    {
        self.text.as_str()
    }
}

/// Turns the route's path parameter into a post identifier. Returns
/// `Ok` exactly when the parameter is present and well-formed; an absent or
/// malformed parameter yields `InvalidIdentifier`, so that downstream stages
/// consume a `Result` and no failure crosses this boundary unclassified.
pub fn extract_identifier(param: Option<String>) -> (r: Result<PostIdentifier, PostError>)
    ensures
        match r {
            Ok(id) => {
                &&& param matches Some(s) && id@ == s@
                &&& id.wf()
            },
            Err(e) => {
                &&& e == PostError::InvalidIdentifier
                &&& match param {
                    Some(s) => !valid_identifier(s@),
                    None => true,
                }
            },
        },
{
    match param {
        None => Err(PostError::InvalidIdentifier),
        Some(text) => {
            if text.as_str().unicode_len() == 0 {
                Err(PostError::InvalidIdentifier)
            } else {
                Ok(PostIdentifier { text })
            }
        },
    }
}

} // verus!
