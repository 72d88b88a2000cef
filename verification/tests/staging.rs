use fyssion_zone::dates::Date;
use fyssion_zone::errors::PostError;
use fyssion_zone::identifier::extract_identifier;
use fyssion_zone::metrics::ReadingSpeed;
use fyssion_zone::post::{Post, PostMetadata};
use fyssion_zone::stager::{page_meta, RenderStager, RenderState};
use fyssion_zone::viewmodel::{begin_load, settle_fetch, FetchOutcome, LoadAction};

fn firefox_speed() -> ReadingSpeed {
    ReadingSpeed { cpm_base: 987, cpm_variance: 118 }
}

fn post_with_content(title: &str, content: String) -> Post {
    Post {
        metadata: PostMetadata {
            title: title.to_string(),
            description: "a post".to_string(),
            created_at: Date { year: 2023, month: 3, day: 7 },
        },
        content,
    }
}

#[test]
fn error_messages_distinguish_the_variants() {
    assert_eq!(PostError::InvalidIdentifier.message(), "Invalid post identifier");
    assert_eq!(PostError::PostNotFound.message(), "Post not found");
    assert_eq!(PostError::ServerError.message(), "Internal server error");
}

#[test]
fn date_label_and_key() {
    let d = Date { year: 2023, month: 3, day: 7 };
    assert_eq!(d.label(), "Mar 7, 2023");
    assert_eq!(d.key(), "2023-03-07");
    let d2 = Date { year: 2024, month: 12, day: 25 };
    assert_eq!(d2.label(), "Dec 25, 2024");
    assert_eq!(d2.key(), "2024-12-25");
}

#[test]
fn a_new_stager_renders_the_skeleton() {
    let stager = RenderStager::new();
    let fragment = stager.render();
    assert!(fragment.contains("skeleton"));
    assert!(!fragment.contains("article"));
}

#[test]
fn a_failed_cycle_renders_the_error_list() {
    let mut stager = RenderStager::new();
    let token = stager.start_cycle();
    let applied = stager.resolve(token, Err(PostError::PostNotFound), firefox_speed());
    assert!(applied);
    let fragment = stager.render();
    assert!(fragment.contains("<li>Post not found</li>"));
    assert!(fragment.contains("Aw shucks"));
}

#[test]
fn a_stale_resolution_is_discarded() {
    let mut stager = RenderStager::new();
    let old_token = stager.start_cycle();
    // The identifier changes while the first fetch is still in flight.
    let new_token = stager.start_cycle();
    // The stale fetch resolves late: it must not overwrite the new cycle.
    let applied = stager.resolve(
        old_token,
        Ok(post_with_content("Stale", "old".to_string())),
        firefox_speed(),
    );
    assert!(!applied);
    assert!(matches!(stager.state, RenderState::Loading));
    // Only the latest identifier's outcome becomes visible.
    let applied = stager.resolve(new_token, Err(PostError::ServerError), firefox_speed());
    assert!(applied);
    assert!(matches!(
        stager.state,
        RenderState::Failed(PostError::ServerError)
    ));
}

#[test]
fn a_settled_cycle_ignores_further_resolutions() {
    let mut stager = RenderStager::new();
    let token = stager.start_cycle();
    assert!(stager.resolve(token, Err(PostError::PostNotFound), firefox_speed()));
    let applied = stager.resolve(
        token,
        Ok(post_with_content("Late", "late".to_string())),
        firefox_speed(),
    );
    assert!(!applied);
    assert!(matches!(
        stager.state,
        RenderState::Failed(PostError::PostNotFound)
    ));
}

#[test]
fn a_full_cycle_renders_the_article() {
    // End to end: route parameter through fetch classification to the
    // rendered fragment, for a 5000-character post titled "Hello".
    let content = "x".repeat(5000);
    let id = extract_identifier(Some("my-first-post".to_string()));
    let action = begin_load(id);
    let fetched = match action {
        LoadAction::Fetch(id) => {
            assert_eq!(id.as_str(), "my-first-post");
            FetchOutcome::Found(post_with_content("Hello", content))
        }
        LoadAction::Abort(e) => panic!("unexpected abort: {:?}", e),
    };
    let (result, log) = settle_fetch(fetched);
    assert!(log.is_none());
    let mut stager = RenderStager::new();
    let token = stager.start_cycle();
    assert!(stager.resolve(token, result, firefox_speed()));
    let fragment = stager.render();
    assert!(fragment.contains("Hello"));
    // 5000 characters in one unbroken run count as a single word.
    assert!(fragment.contains("1 words"));
    // slow: ceil(5000 / 869) = 6, fast: ceil(5000 / 1105) = 5.
    assert!(fragment.contains("5-6 minutes"));
    assert!(fragment.contains("Mar 7, 2023"));
}

#[test]
fn word_count_label_is_grouped_in_the_fragment() {
    let words = "lorem ipsum dolor sit amet ".repeat(250);  // 1250 words
    let mut stager = RenderStager::new();
    let token = stager.start_cycle();
    assert!(stager.resolve(
        token,
        Ok(post_with_content("Big", words)),
        firefox_speed()
    ));
    let fragment = stager.render();
    assert!(fragment.contains("1,250 words"));
}

#[test]
fn page_meta_bundles_the_head_values() {
    let post = post_with_content("Hello", "<p>hi</p>".to_string());
    let meta = page_meta(&post);
    assert_eq!(meta.len(), 4);
    assert_eq!(meta[0].0, "title");
    assert_eq!(meta[0].1, "Hello - fyssion's blog");
    assert_eq!(meta[1].0, "description");
    assert_eq!(meta[1].1, "a post");
    assert_eq!(meta[2].0, "og:type");
    assert_eq!(meta[2].1, "article");
    assert_eq!(meta[3].0, "article:published_time");
    assert_eq!(meta[3].1, "2023-03-07");
}

#[test]
fn render_failed_never_leaks_the_transport_diagnostic() {
    let (result, log) = settle_fetch(FetchOutcome::Transport(
        "backend stack trace".to_string(),
    ));
    let err = match result {
        Err(e) => e,
        Ok(_) => panic!("a transport failure must not succeed"),
    };
    let mut stager = RenderStager::new();
    let token = stager.start_cycle();
    assert!(stager.resolve(token, Err(err), firefox_speed()));
    let fragment = stager.render();
    assert!(!fragment.contains("backend stack trace"));
    assert!(fragment.contains("Internal server error"));
    assert_eq!(log.as_deref(), Some("backend stack trace"));
}
