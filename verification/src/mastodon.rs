//! What is sent to Mastodon, and how the sending is retried.

use vstd::prelude::*;
use vstd::string::*;

verus! {

/// The two-letter ISO 639-1 code that `isolang::Language::to_639_1` gives for
/// the language with the three-letter ISO 639-3 code `code`: `None` where
/// the language has no two-letter code or `code` names no language.
pub uninterp spec fn iso_639_1_of(code: Seq<char>) -> Option<Seq<char>>;

/// The English name that `isolang::Language::to_name` gives for the language
/// with the three-letter ISO 639-3 code `code`: `None` where `code` names no
/// language.
pub uninterp spec fn english_name_of(code: Seq<char>) -> Option<Seq<char>>;

/// Looks the language up with `isolang::Language::from_639_3` and asks
/// `to_639_1` for its two-letter code. Both read a table that is compiled
/// into the crate, so the result is a function of `code` alone.
#[verifier::external_body]
fn lookup_639_1(code: &str) -> (r: Option<String>)
    ensures
        match r {
            Some(short) => iso_639_1_of(code@) == Some(short@),
            None => iso_639_1_of(code@).is_none(),
        },
{
    mastodon_async::Language::from_639_3(code).and_then(|l| l.to_639_1()).map(String::from)
}

/// Looks the language up with `isolang::Language::from_639_3` and asks
/// `to_name` for its English name. Both read a table that is compiled into
/// the crate, so the result is a function of `code` alone.
#[verifier::external_body]
fn lookup_name(code: &str) -> (r: Option<String>)
    ensures
        match r {
            Some(name) => english_name_of(code@) == Some(name@),
            None => english_name_of(code@).is_none(),
        },
{
    mastodon_async::Language::from_639_3(code).map(|l| String::from(l.to_name()))
}

/// A language, by its codes and its English name.
#[derive(Debug, Clone, PartialEq, Eq)]
pub struct Language {
    code: String,
    short: Option<String>,
    name: String,
}

/// Mathematical value of a [`Language`].
pub struct LanguageView {
    /// The ISO 639-3 code.
    pub code: Seq<char>,
    /// The ISO 639-1 code, where the language has one.
    pub short: Option<Seq<char>>,
    /// The English name.
    pub name: Seq<char>,
}

impl View for Language {
    type V = LanguageView;

    closed spec fn view(&self) -> LanguageView {
        LanguageView {
            code: self.code@,
            short: match self.short {
                Some(s) => Some(s@),
                None => None,
            },
            name: self.name@,
        }
    }
}

/// English, the language that is assumed where none is found.
pub open spec fn english() -> LanguageView {
    LanguageView { code: "eng"@, short: Some("en"@), name: "English"@ }
}

/// The language with the ISO 639-3 code `code`, if there is one.
pub open spec fn language_of(code: Seq<char>) -> Option<LanguageView> {
    match english_name_of(code) {
        Some(name) => Some(LanguageView { code, short: iso_639_1_of(code), name }),
        None => None,
    }
}

impl Language {
    /// The language with the given ISO 639-3 code, if there is one.
    pub fn from_639_3(code: &str) -> (r: Option<Language>)
        ensures
            match r {
                Some(l) => language_of(code@) == Some(l@),
                None => language_of(code@).is_none(),
            },
    {
        match lookup_name(code) {
            Some(name) => Some(Language { code: code.to_owned(), short: lookup_639_1(code), name }),
            None => None,
        }
    }

    /// English.
    pub fn eng() -> (r: Language)
        ensures
            r@ == english(),
    {
        Language {
            code: String::from_str("eng"),
            short: Some(String::from_str("en")),
            name: String::from_str("English"),
        }
    }

    /// The ISO 639-3 code.
    pub fn to_639_3(&self) -> (r: &str)
        ensures
            r@ == self@.code,
    {
        self.code.as_str()
    }

    /// The ISO 639-1 code, where the language has one.
    pub fn to_639_1(&self) -> (r: Option<&String>)
        ensures
            match r {
                Some(s) => self@.short == Some(s@),
                None => self@.short.is_none(),
            },
    {
        self.short.as_ref()
    }

    /// The English name.
    pub fn to_name(&self) -> (r: &str)
        ensures
            r@ == self@.name,
    {
        self.name.as_str()
    }
}

/// Who may see a post.
#[derive(Debug, Clone, Copy, PartialEq, Eq, Structural)]
pub enum Visibility {
    Direct,
    Private,
    Unlisted,
    Public,
}

/// A post as it is handed to Mastodon.
#[derive(Debug, Clone, PartialEq, Eq)]
pub struct NewStatus {
    pub status: String,
    pub visibility: Visibility,
    pub language: Option<Language>,
    /// The attachments, in the order in which they are shown.
    pub media_ids: Option<Vec<String>>,
    pub sensitive: Option<bool>,
    /// The form of `status` where it is not plain text.
    pub content_type: Option<String>,
}

/// How one attempt to post ended.
#[derive(Debug, Clone, PartialEq, Eq)]
pub enum Attempt {
    /// Mastodon took the post; `url` is where it can be read, if Mastodon
    /// said so.
    Posted { url: Option<String> },
    /// Mastodon refused the post with the given HTTP status and error text;
    /// `shown` is the error as the user is told of it.
    Refused { status: u16, error: String, shown: String },
    /// The attempt failed in another way; `shown` is the error as the user is
    /// told of it.
    Failed { shown: String },
}

/// Whether Mastodon refused a post because it has not yet finished
/// processing the attachments, so that the same post can be taken later.
pub open spec fn is_processing(status: u16, error: Seq<char>) -> bool {
    status == 422 && error
        == "Cannot attach files that have not finished processing. Try again in a moment!"@
}

/// Tests a refusal for [`is_processing`].
pub fn is_processing_error(status: u16, error: &str) -> (r: bool)
    ensures
        r == is_processing(status, error@),
{
    status == 422 && crate::chars::same_text(
        error,
        "Cannot attach files that have not finished processing. Try again in a moment!",
    )
}

/// What follows one attempt to post.
#[derive(Debug, Clone, PartialEq, Eq)]
pub enum Retry {
    /// The post is up, at this address.
    Done { url: String },
    /// Mastodon is still processing the attachments: wait, then try again.
    Again,
    /// The post failed for good, with this error.
    Fail { error: String },
}

/// Where a post can be read: the address that Mastodon gave, or the word
/// `*invisible*` where it gave none.
pub open spec fn posted_url(url: Option<String>) -> Seq<char> {
    match url {
        Some(url) => url@,
        None => "*invisible*"@,
    }
}

/// What follows an attempt.
pub open spec fn retry_of(attempt: Attempt) -> RetryView {
    match attempt {
        Attempt::Posted { url } => RetryView::Done { url: posted_url(url) },
        Attempt::Refused { status, error, shown } => if is_processing(status, error@) {
            RetryView::Again
        } else {
            RetryView::Fail { error: shown@ }
        },
        Attempt::Failed { shown } => RetryView::Fail { error: shown@ },
    }
}

/// Mathematical value of a [`Retry`].
pub enum RetryView {
    Done { url: Seq<char> },
    Again,
    Fail { error: Seq<char> },
}

impl View for Retry {
    type V = RetryView;

    open spec fn view(&self) -> RetryView {
        match self {
            Retry::Done { url } => RetryView::Done { url: url@ },
            Retry::Again => RetryView::Again,
            Retry::Fail { error } => RetryView::Fail { error: error@ },
        }
    }
}

/// Decides what follows one attempt to post: the post is up; or Mastodon is
/// still processing the attachments, and the post is to be tried again; or
/// the post failed, as it does on every other error.
pub fn post_status_retry(attempt: Attempt) -> (r: Retry)
    ensures
        r@ == retry_of(attempt),
{
    match attempt {
        Attempt::Posted { url } => match url {
            Some(url) => Retry::Done { url },
            None => Retry::Done { url: String::from_str("*invisible*") },
        },
        Attempt::Refused { status, error, shown } => {
            if is_processing_error(status, error.as_str()) {
                Retry::Again
            } else {
                Retry::Fail { error: shown }
            }
        },
        Attempt::Failed { shown } => Retry::Fail { error: shown },
    }
}

/// How far the posting of a status has come. Time is counted in seconds.
#[derive(Debug, Clone, PartialEq, Eq)]
pub enum Posting {
    /// An attempt is under way; `left` is the time left for waiting.
    Submitting { left: u64 },
    /// Mastodon is still processing the attachments, and the time of one
    /// interval is being waited.
    RetryWaiting { left: u64 },
    /// The post is up, at this address.
    Done { url: String },
    /// The post failed, with this error.
    Failed { error: String },
    /// The time ran out while Mastodon was processing the attachments.
    TimedOut,
}

/// Mathematical value of a [`Posting`].
pub enum PostingView {
    Submitting { left: u64 },
    RetryWaiting { left: u64 },
    Done { url: Seq<char> },
    Failed { error: Seq<char> },
    TimedOut,
}

impl View for Posting {
    type V = PostingView;

    open spec fn view(&self) -> PostingView {
        match self {
            Posting::Submitting { left } => PostingView::Submitting { left: *left },
            Posting::RetryWaiting { left } => PostingView::RetryWaiting { left: *left },
            Posting::Done { url } => PostingView::Done { url: url@ },
            Posting::Failed { error } => PostingView::Failed { error: error@ },
            Posting::TimedOut => PostingView::TimedOut,
        }
    }
}

/// What happened while a status was being posted.
#[derive(Debug, Clone, PartialEq, Eq)]
pub enum PostingEvent {
    /// An attempt ended.
    Attempted(Attempt),
    /// The interval has been waited.
    Waited,
    /// The time for the whole posting is over.
    TimerFired,
}

/// What is to be done next for the posting.
#[derive(Debug, Clone, Copy, PartialEq, Eq, Structural)]
pub enum PostingAction {
    /// Hand the status to Mastodon.
    Submit,
    /// Wait for this many seconds.
    Wait { secs: u64 },
    /// Nothing: the posting has ended, or the event came out of turn.
    Nothing,
}

impl PostingView {
    /// Whether the posting has ended.
    pub open spec fn is_final(self) -> bool {
        self is Done || self is Failed || self is TimedOut
    }

    /// The state after an event and what is to be done then. A refusal for
    /// attachments that are still being processed is answered by a wait of
    /// `interval`, as long as that much time is left; the timer ends the
    /// posting in whatever state it is; nothing moves a posting that has
    /// ended; and an event that the state does not wait for changes nothing.
    pub open spec fn step(self, event: PostingEvent, interval: u64) -> (PostingView, PostingAction) {
        match (self, event) {
            (PostingView::Submitting { left }, PostingEvent::Attempted(attempt)) => match retry_of(
                attempt,
            ) {
                RetryView::Done { url } => (PostingView::Done { url }, PostingAction::Nothing),
                RetryView::Fail { error } => (PostingView::Failed { error }, PostingAction::Nothing),
                RetryView::Again => if left < interval {
                    (PostingView::TimedOut, PostingAction::Nothing)
                } else {
                    (
                        PostingView::RetryWaiting { left: (left - interval) as u64 },
                        PostingAction::Wait { secs: interval },
                    )
                },
            },
            (PostingView::RetryWaiting { left }, PostingEvent::Waited) => (
                PostingView::Submitting { left },
                PostingAction::Submit,
            ),
            (PostingView::Submitting { .. }, PostingEvent::TimerFired) => (
                PostingView::TimedOut,
                PostingAction::Nothing,
            ),
            (PostingView::RetryWaiting { .. }, PostingEvent::TimerFired) => (
                PostingView::TimedOut,
                PostingAction::Nothing,
            ),
            _ => (self, PostingAction::Nothing),
        }
    }

    /// The state after a run of events.
    pub open spec fn run(self, events: Seq<PostingEvent>, interval: u64) -> PostingView
        decreases events.len(),
    {
        if events.len() == 0 {
            self
        } else {
            self.step(events[0], interval).0.run(events.drop_first(), interval)
        }
    }
}

/// The text that tells the user that the time ran out.
pub open spec fn timeout_text() -> Seq<char> {
    "timeout waiting for server processing media"@
}

impl Posting {
    /// Starts the posting of a status, with `timeout` seconds for all
    /// waiting: the first thing to do is to hand the status over.
    pub fn start(timeout: u64) -> (r: (Posting, PostingAction))
        ensures
            r.0@ == (PostingView::Submitting { left: timeout }),
            r.1 == PostingAction::Submit,
    {
        (Posting::Submitting { left: timeout }, PostingAction::Submit)
    }

    /// Takes one event, and says what is to be done next.
    pub fn post_status(self, event: PostingEvent, interval: u64) -> (r: (Posting, PostingAction))
        ensures
            (r.0@, r.1) == self@.step(event, interval),
    {
        match self {
            Posting::Submitting { left } => match event {
                PostingEvent::Attempted(attempt) => match post_status_retry(attempt) {
                    Retry::Done { url } => (Posting::Done { url }, PostingAction::Nothing),
                    Retry::Fail { error } => (Posting::Failed { error }, PostingAction::Nothing),
                    Retry::Again => {
                        if left < interval {
                            (Posting::TimedOut, PostingAction::Nothing)
                        } else {
                            (
                                Posting::RetryWaiting { left: left - interval },
                                PostingAction::Wait { secs: interval },
                            )
                        }
                    },
                },
                PostingEvent::TimerFired => (Posting::TimedOut, PostingAction::Nothing),
                PostingEvent::Waited => (Posting::Submitting { left }, PostingAction::Nothing),
            },
            Posting::RetryWaiting { left } => match event {
                PostingEvent::Waited => (Posting::Submitting { left }, PostingAction::Submit),
                PostingEvent::TimerFired => (Posting::TimedOut, PostingAction::Nothing),
                PostingEvent::Attempted(_) => (
                    Posting::RetryWaiting { left },
                    PostingAction::Nothing,
                ),
            },
            Posting::Done { url } => (Posting::Done { url }, PostingAction::Nothing),
            Posting::Failed { error } => (Posting::Failed { error }, PostingAction::Nothing),
            Posting::TimedOut => (Posting::TimedOut, PostingAction::Nothing),
        }
    }

    /// How the posting ended, if it has: the address of the post, or the
    /// text of the error.
    pub fn result(&self) -> (r: Option<Result<String, String>>)
        ensures
            match r {
                None => !self@.is_final(),
                Some(Ok(url)) => self@ == (PostingView::Done { url: url@ }),
                Some(Err(error)) => (self@ == (PostingView::Failed { error: error@ })) || (self@
                    is TimedOut && error@ == timeout_text()),
            },
    {
        match self {
            Posting::Done { url } => Some(Ok(url.clone())),
            Posting::Failed { error } => Some(Err(error.clone())),
            Posting::TimedOut => Some(
                Err(String::from_str("timeout waiting for server processing media")),
            ),
            _ => None,
        }
    }
}

/// Whether the event is a refusal for attachments that are still being
/// processed.
pub open spec fn is_processing_refusal(event: PostingEvent) -> bool {
    event matches PostingEvent::Attempted(Attempt::Refused { status, error, .. })
        && is_processing(status, error@)
}

/// Whether every event is a refusal for attachments that are still being
/// processed, or the end of a wait.
pub open spec fn only_processing(events: Seq<PostingEvent>) -> bool {
    forall|i: int|
        0 <= i < events.len() ==> is_processing_refusal(#[trigger] events[i]) || events[i]
            is Waited
}

/// The number of refusals among the events that arrive while an attempt is
/// under way, that is, of refusals that count.
pub open spec fn refusals(state: PostingView, events: Seq<PostingEvent>, interval: u64) -> nat
    decreases events.len(),
{
    if events.len() == 0 {
        0
    } else {
        let counts: nat = if state is Submitting && is_processing_refusal(events[0]) {
            1
        } else {
            0
        };
        counts + refusals(state.step(events[0], interval).0, events.drop_first(), interval)
    }
}

/// The timer ends a posting that has not ended, whatever it was doing.
pub proof fn lemma_timer_ends_posting(state: PostingView, interval: u64)
    requires
        !state.is_final(),
    ensures
        state.step(PostingEvent::TimerFired, interval).0 is TimedOut,
        state.step(PostingEvent::TimerFired, interval).1 == PostingAction::Nothing,
{
}

/// Nothing moves a posting that has ended.
pub proof fn lemma_final_is_final(state: PostingView, events: Seq<PostingEvent>, interval: u64)
    requires
        state.is_final(),
    ensures
        state.run(events, interval) == state,
    decreases events.len(),
{
    if events.len() > 0 {
        lemma_final_is_final(state, events.drop_first(), interval);
    }
}

/// While Mastodon only ever answers that it is still processing the
/// attachments, the posting is never done and never fails: it goes on or it
/// times out. Every refusal costs one interval of the time that is left, so
/// it has timed out once the refusals, times the interval, exceed that time.
pub proof fn lemma_retry_bounded(
    state: PostingView,
    events: Seq<PostingEvent>,
    interval: u64,
)
    requires
        interval > 0,
        state matches PostingView::Submitting { .. } || state matches PostingView::RetryWaiting {
            ..
        },
        only_processing(events),
    ensures
        !(state.run(events, interval) is Done),
        !(state.run(events, interval) is Failed),
        match state.run(events, interval) {
            PostingView::Submitting { left } => left + refusals(state, events, interval)
                * interval == time_left(state),
            PostingView::RetryWaiting { left } => left + refusals(state, events, interval)
                * interval == time_left(state),
            _ => true,
        },
        refusals(state, events, interval) * interval > time_left(state) ==> state.run(
            events,
            interval,
        ) is TimedOut,
    decreases events.len(),
{
    if events.len() > 0 {
        let next = state.step(events[0], interval).0;
        let rest = events.drop_first();
        assert(only_processing(rest)) by {
            assert forall|i: int| 0 <= i < rest.len() implies is_processing_refusal(
                #[trigger] rest[i],
            ) || rest[i] is Waited by {
                assert(rest[i] == events[i + 1]);
            }
        }
        assert(is_processing_refusal(events[0]) || events[0] is Waited);
        let counts: nat = if state is Submitting && is_processing_refusal(events[0]) {
            1
        } else {
            0
        };
        let k = refusals(next, rest, interval);
        let r = refusals(state, events, interval);
        assert(r == counts + k);
        assert(r * interval == counts * interval + k * interval) by (nonlinear_arith)
            requires
                r == counts + k,
        ;
        assert(state.run(events, interval) == next.run(rest, interval));
        if next is TimedOut {
            lemma_final_is_final(next, rest, interval);
        } else {
            lemma_retry_bounded(next, rest, interval);
            assert(time_left(next) == time_left(state) - counts * interval) by (nonlinear_arith)
                requires
                    counts == 0 || counts == 1,
                    counts == 0 ==> time_left(next) == time_left(state),
                    counts == 1 ==> time_left(next) == time_left(state) - interval,
            ;
        }
    } else {
        let r = refusals(state, events, interval);
        assert(r * interval == 0) by (nonlinear_arith)
            requires
                r == 0,
        ;
    }
}

/// The time that is left for waiting.
pub open spec fn time_left(state: PostingView) -> int {
    match state {
        PostingView::Submitting { left } => left as int,
        PostingView::RetryWaiting { left } => left as int,
        _ => 0,
    }
}

} // verus!
