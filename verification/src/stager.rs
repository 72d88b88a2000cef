//! The staged presentation state machine. Exactly one state is current at a
//! time; a cycle runs one-directionally from `Loading` to `Failed` or
//! `Ready`, and a new identifier starts a fresh cycle whose token
//! invalidates every result still in flight for an earlier one.

use vstd::prelude::*;
use crate::errors::{error_message, PostError};
use crate::metrics::{compute_metrics, DerivedMetrics, ReadingSpeed};
use crate::numerals::{decimal_digits, format_count, grouped};
use crate::dates::{date_key, date_label};
use crate::post::Post;

verus! {

/// The presentation state of the current load cycle.
pub enum RenderState {
    /// The fetch is still pending; only structure is shown.
    Loading,
    /// The cycle failed; terminal until a new identifier starts a cycle.
    Failed(PostError),
    /// The cycle succeeded; terminal until a new identifier starts a cycle.
    Ready(Post, DerivedMetrics),
}

/// The placeholder fragment shown while the fetch is pending:
/// structure only, no data.
pub open spec fn loading_fragment() -> Seq<char> {
    "<div class=\"skeleton-card-full title\"><div class=\"skeleton skeleton-header title\"></div><div class=\"skeleton skeleton-text skeleton-details\"></div><div class=\"skeleton skeleton-text\"></div><div class=\"skeleton skeleton-text\"></div><div class=\"skeleton skeleton-text\"></div><div class=\"skeleton skeleton-text\"></div></div>"@
}

/// The error fragment: an error list holding the short per-class message,
/// never the raw underlying failure.
pub open spec fn failed_fragment(e: PostError) -> Seq<char> {
    "<div class=\"error\"><h1>Aw shucks</h1><ul><li>"@ + error_message(e)
        + "</li></ul></div>"@
}

/// The full article fragment: title, formatted creation date, grouped word
/// count, reading-time label, and the content rendered as trusted markup —
/// the content is assumed pre-sanitized by the external data source.
pub open spec fn ready_fragment(post: Post, metrics: DerivedMetrics) -> Seq<char> {
    "<article><h1 class=\"title\">"@ + post.metadata.title@ + "</h1><h3>"@ + date_label(
        post.metadata.created_at,
    ) + " &bull; "@ + grouped(decimal_digits(metrics.word_count as nat)) + " words &bull; "@
        + metrics.reading_time_label@ + "</h3><section>"@ + post.content@
        + "</section></article>"@
}

/// The fragment each state renders to.
pub open spec fn state_fragment(state: RenderState) -> Seq<char> {
    match state {
        RenderState::Loading => loading_fragment(),
        RenderState::Failed(e) => failed_fragment(e),
        RenderState::Ready(post, metrics) => ready_fragment(post, metrics),
    }
}

/// Renders the placeholder skeleton.
pub fn render_loading() -> (s: String)
    ensures
        s@ == loading_fragment(),
{
    "<div class=\"skeleton-card-full title\"><div class=\"skeleton skeleton-header title\"></div><div class=\"skeleton skeleton-text skeleton-details\"></div><div class=\"skeleton skeleton-text\"></div><div class=\"skeleton skeleton-text\"></div><div class=\"skeleton skeleton-text\"></div><div class=\"skeleton skeleton-text\"></div></div>".to_owned()
}

/// Renders the error list for a failed cycle.
pub fn render_failed(e: &PostError) -> (s: String)
    ensures
        s@ == failed_fragment(*e),
{
    proof {
        reveal_strlit("<div class=\"error\"><h1>Aw shucks</h1><ul><li>");
        reveal_strlit("</li></ul></div>");
    }
    let mut s = "<div class=\"error\"><h1>Aw shucks</h1><ul><li>".to_owned();
    let message = e.message();
    s.append(message.as_str());
    s.append("</li></ul></div>");
    proof {
        assert(s@ =~= failed_fragment(*e));
    }
    s
}

/// Renders the full article for a ready cycle.
pub fn render_ready(post: &Post, metrics: &DerivedMetrics) -> (s: String)
    requires
        post.wf(),
    ensures
        s@ == ready_fragment(*post, *metrics),
{
    proof {
        reveal_strlit("<article><h1 class=\"title\">");
        reveal_strlit("</h1><h3>");
        reveal_strlit(" &bull; ");
        reveal_strlit(" words &bull; ");
        reveal_strlit("</h3><section>");
        reveal_strlit("</section></article>");
    }
    let mut s = "<article><h1 class=\"title\">".to_owned();
    s.append(post.metadata.title.as_str());
    s.append("</h1><h3>");
    let date = post.metadata.created_at.label();
    s.append(date.as_str());
    s.append(" &bull; ");
    let words = format_count(metrics.word_count);
    s.append(words.as_str());
    s.append(" words &bull; ");
    s.append(metrics.reading_time_label.as_str());
    s.append("</h3><section>");
    s.append(post.content.as_str());
    s.append("</section></article>");
    proof {
        assert(s@ =~= ready_fragment(*post, *metrics));
    }
    s
}

/// The head-metadata bundle published alongside a ready article: page
/// title, description, content-type hint and creation time, as plain
/// key/value pairs for the host shell.
pub fn page_meta(post: &Post) -> (meta: Vec<(String, String)>)
    requires
        post.wf(),
    ensures
        meta@.len() == 4,
        meta@[0].0@ == "title"@ && meta@[0].1@ == post.metadata.title@ + " - fyssion's blog"@,
        meta@[1].0@ == "description"@ && meta@[1].1@ == post.metadata.description@,
        meta@[2].0@ == "og:type"@ && meta@[2].1@ == "article"@,
        meta@[3].0@ == "article:published_time"@ && meta@[3].1@ == date_key(
            post.metadata.created_at,
        ),
{
    proof {
        reveal_strlit(" - fyssion's blog");
    }
    let mut page_title = post.metadata.title.clone();
    page_title.append(" - fyssion's blog");
    let mut meta: Vec<(String, String)> = Vec::new();
    meta.push(("title".to_owned(), page_title));
    meta.push(("description".to_owned(), post.metadata.description.clone()));
    meta.push(("og:type".to_owned(), "article".to_owned()));
    meta.push(("article:published_time".to_owned(), post.metadata.created_at.key()));
    meta
}

/// The driver of the staged presentation: the current state plus the cycle
/// counter whose value is the token of the one load allowed to resolve it.
pub struct RenderStager {
    /// The state currently rendered.
    pub state: RenderState,
    /// The current cycle; a resolution applies only when it carries this
    /// token and the cycle is still pending.
    pub cycle: u64,
}

/// The stager a new cycle leaves behind: back to `Loading`, with the next
/// cycle token.
pub open spec fn spec_start(s: RenderStager) -> RenderStager
    recommends
        s.cycle < u64::MAX,
{
    RenderStager { state: RenderState::Loading, cycle: (s.cycle + 1) as u64 }
}

impl RenderStager {
    /// A fresh stager, pending its first cycle.
    pub fn new() -> (s: RenderStager)
        ensures
            s.state is Loading,
            s.cycle == 0,
    {
        RenderStager { state: RenderState::Loading, cycle: 0 }
    }

    /// Whether a resolution carrying `token` may change the state: only the
    /// current cycle's token applies, and only while that cycle is still
    /// pending.
    pub open spec fn resolve_applies(self, token: u64) -> bool {
        token == self.cycle && self.state is Loading
    }

    /// Starts a new load cycle because the identifier changed: whatever was
    /// shown is discarded, the state returns to `Loading`, and the returned
    /// token names the only load that may resolve this cycle.
    pub fn start_cycle(&mut self) -> (token: u64)
        requires
            old(self).cycle < u64::MAX,
        ensures
            *final(self) == spec_start(*old(self)),
            final(self).state is Loading,
            final(self).cycle == old(self).cycle + 1,
            token == final(self).cycle,
    {
        self.state = RenderState::Loading;
        self.cycle = self.cycle + 1;
        self.cycle
    }

    /// Applies a resolved load to the state machine. A resolution carrying
    /// a stale token, or arriving after this cycle already settled, is
    /// discarded whole: the visible state keeps reflecting only the latest
    /// identifier's outcome. An applied error moves the cycle to `Failed`;
    /// an applied post moves it to `Ready`, with the derived metrics
    /// computed here, once, from exactly this post's content.
    pub fn resolve(
        &mut self,
        token: u64,
        result: Result<Post, PostError>,
        speed: ReadingSpeed,
    ) -> (applied: bool)
        requires
            speed.wf(),
        ensures
            applied == old(self).resolve_applies(token),
            !applied ==> *final(self) == *old(self),
            applied ==> final(self).cycle == old(self).cycle,
            applied ==> match result {
                Err(e) => final(self).state == RenderState::Failed(e),
                Ok(post) => final(self).state matches RenderState::Ready(shown, metrics)
                    && shown == post && metrics.derived_from(post.content@, speed),
            },
    {
        if token != self.cycle {
            return false;
        }
        match self.state {
            RenderState::Loading => {},
            _ => {
                return false;
            },
        }
        match result {
            Err(e) => {
                self.state = RenderState::Failed(e);
            },
            Ok(post) => {
                let metrics = compute_metrics(post.content.as_str(), speed);
                self.state = RenderState::Ready(post, metrics);
            },
        }
        true
    }

    /// Renders the fragment of the current state.
    pub fn render(&self) -> (s: String)
        requires
            self.state matches RenderState::Ready(post, _) ==> post.wf(),
        ensures
            s@ == state_fragment(self.state),
    {
        match &self.state {
            RenderState::Loading => render_loading(),
            RenderState::Failed(e) => render_failed(e),
            RenderState::Ready(post, metrics) => render_ready(post, metrics),
        }
    }
}

/// Law: a cycle that has settled in `Failed` or `Ready` is terminal: no
/// resolution applies to it any more, whatever token it carries; only a new
/// identifier's `start_cycle` moves the stager again.
pub proof fn lemma_settled_cycle_is_terminal(s: RenderStager, token: u64)
    requires
        !(s.state is Loading),
    ensures
        !s.resolve_applies(token),
{
}

/// Law: every token in flight was issued by an earlier `start_cycle` and so
/// never exceeds the current cycle; once a new cycle begins, no such token
/// applies any more — a stale fetch that resolves late is discarded, and
/// the visible state reflects only the latest identifier's outcome.
pub proof fn lemma_last_identifier_wins(s: RenderStager, stale_token: u64)
    requires
        stale_token <= s.cycle,
        s.cycle < u64::MAX,
    ensures
        !spec_start(s).resolve_applies(stale_token),
{
}

} // verus!
