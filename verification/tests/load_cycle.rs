use fyssion_zone::errors::PostError;
use fyssion_zone::identifier::extract_identifier;
use fyssion_zone::viewmodel::{begin_load, settle_fetch, FetchOutcome, LoadAction};
use fyssion_zone::dates::Date;
use fyssion_zone::post::{Post, PostMetadata};

fn sample_post() -> Post {
    Post {
        metadata: PostMetadata {
            title: "Hello".to_string(),
            description: "a greeting".to_string(),
            created_at: Date { year: 2023, month: 3, day: 7 },
        },
        content: "<p>hi</p>".to_string(),
    }
}

#[test]
fn extract_identifier_accepts_well_formed_input() {
    let r = extract_identifier(Some("my-first-post".to_string()));
    match r {
        Ok(id) => assert_eq!(id.as_str(), "my-first-post"),
        Err(_) => panic!("well-formed identifier was rejected"),
    }
}

#[test]
fn extract_identifier_rejects_absent_parameter() {
    let r = extract_identifier(None);
    assert!(matches!(r, Err(PostError::InvalidIdentifier)));
}

#[test]
fn extract_identifier_rejects_empty_parameter() {
    let r = extract_identifier(Some(String::new()));
    assert!(matches!(r, Err(PostError::InvalidIdentifier)));
}

#[test]
fn begin_load_aborts_without_fetching_on_invalid_identifier() {
    let mut fetches = 0;
    let action = begin_load(Err(PostError::InvalidIdentifier));
    match action {
        LoadAction::Abort(e) => assert_eq!(e, PostError::InvalidIdentifier),
        LoadAction::Fetch(_) => {
            fetches += 1;
        }
    }
    assert_eq!(fetches, 0, "the fetch collaborator must never run");
}

#[test]
fn begin_load_hands_a_valid_identifier_to_the_fetch() {
    let id = extract_identifier(Some("my-first-post".to_string()));
    let action = begin_load(id);
    match action {
        LoadAction::Fetch(id) => assert_eq!(id.as_str(), "my-first-post"),
        LoadAction::Abort(_) => panic!("a valid identifier must be fetched"),
    }
}

#[test]
fn settle_fetch_classifies_a_found_post_as_success() {
    let (result, log) = settle_fetch(FetchOutcome::Found(sample_post()));
    match result {
        Ok(post) => assert_eq!(post.metadata.title, "Hello"),
        Err(_) => panic!("a found post must succeed"),
    }
    assert!(log.is_none());
}

#[test]
fn settle_fetch_classifies_absence_as_post_not_found() {
    let (result, log) = settle_fetch(FetchOutcome::Missing);
    assert!(matches!(result, Err(PostError::PostNotFound)));
    assert!(log.is_none());
}

#[test]
fn settle_fetch_classifies_transport_failure_as_server_error() {
    let (result, log) = settle_fetch(FetchOutcome::Transport(
        "connection reset by backend".to_string(),
    ));
    // The uniform tag reaches the caller; the raw diagnostic goes only to
    // the logging sink.
    assert!(matches!(result, Err(PostError::ServerError)));
    assert_eq!(log.as_deref(), Some("connection reset by backend"));
}
