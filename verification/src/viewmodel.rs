//! Orchestration of a load cycle, split around its single suspension point:
//! `begin_load` decides whether the fetch may run at all, the host performs
//! the asynchronous fetch, and `settle_fetch` flattens every outcome into
//! the one error taxonomy before anything reaches the presentation layer.

use vstd::prelude::*;
use crate::errors::PostError;
use crate::identifier::PostIdentifier;
use crate::post::Post;

verus! {

/// What the external fetch came back with, as plain values: the post, a
/// definite absence, or a transport failure reduced to its diagnostic text.
pub enum FetchOutcome {
    Found(Post),
    Missing,
    Transport(String),
}

/// The one decision taken before the fetch: either hand the identifier to
/// the fetch collaborator, or abort the cycle with the error already known.
pub enum LoadAction {
    Fetch(PostIdentifier),
    Abort(PostError),
}

/// Decides whether a load cycle may fetch. An identifier that already
/// failed extraction short-circuits: its error is carried through unchanged
/// and the fetch collaborator is never handed invalid input.
pub fn begin_load(id: Result<PostIdentifier, PostError>) -> (action: LoadAction)
    ensures
        match id {
            Ok(identifier) => action == LoadAction::Fetch(identifier),
            Err(e) => action == LoadAction::Abort(e),
        },
{
    match id {
        Ok(identifier) => LoadAction::Fetch(identifier),
        Err(e) => LoadAction::Abort(e),
    }
}

/// How a fetch outcome is classified: a found post succeeds, a definite
/// absence is `PostNotFound`, any transport failure is the uniform
/// `ServerError`.
pub open spec fn classified(fetched: FetchOutcome) -> Result<Post, PostError> {
    match fetched {
        FetchOutcome::Found(post) => Ok(post),
        FetchOutcome::Missing => Err(PostError::PostNotFound),
        FetchOutcome::Transport(_) => Err(PostError::ServerError),
    }
}

/// Flattens the fetch outcome into the single error taxonomy. The
/// diagnostic text of a transport failure is handed back separately, for
/// the logging sink only — it never reaches the returned classification.
pub fn settle_fetch(outcome: FetchOutcome) -> (r: (Result<Post, PostError>, Option<String>))
    ensures
        r.0 == classified(outcome),
        match outcome {
            FetchOutcome::Transport(diagnostic) => r.1 == Some(diagnostic),
            _ => r.1 is None,
        },
{
    match outcome {
        FetchOutcome::Found(post) => (Ok(post), None),
        FetchOutcome::Missing => (Err(PostError::PostNotFound), None),
        FetchOutcome::Transport(diagnostic) => (Err(PostError::ServerError), Some(diagnostic)),
    }
}

/// What a whole load cycle resolves to, given the identifier extraction
/// result and — only where one was owed — the fetch outcome.
pub open spec fn load_resolution(
    id: Result<PostIdentifier, PostError>,
    fetched: FetchOutcome,
) -> Result<Post, PostError> {
    match id {
        Err(e) => Err(e),
        Ok(_) => classified(fetched),
    }
}

/// Law: an identifier that failed extraction resolves to its own error,
/// whatever the fetch would have returned — the fetch plays no part.
pub proof fn lemma_invalid_identifier_short_circuits(e: PostError, fetched: FetchOutcome)
    ensures
        load_resolution(Err(e), fetched) == Result::<Post, PostError>::Err(e),
{
}

} // verus!
