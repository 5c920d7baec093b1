//! Posting a message to Mastodon: what is posted, the steps of the posting,
//! and what the user is told of it.

use vstd::prelude::*;
use vstd::string::*;
use crate::chars::write_decimal;
use crate::cmd::arg::{ArgError, Args, PostArgs};
use crate::mastodon::{Language, NewStatus, Visibility};
use crate::text::{duplicate_entities, mtb, MessageEntity, MessageText, MessageTextView};
use crate::util::chat::User;
use crate::util::handle::{Response, ResponseView};
use crate::util::media::{FileMeta, Media, MediaKind};
use crate::util::msg::Message;

pub mod language;
pub mod markup;
pub mod source;
pub mod stage;

pub use language::{blank, choose_language, detect_lang, detect_lang_inner};
pub use markup::format_text_for_mastodon;
pub use source::{append_source, needs_linked_chat};
pub use stage::{handle, Signal, Stage, Todo};

verus! {

/// Why a message could not be posted.
#[derive(Debug, Clone, PartialEq, Eq)]
pub enum Failure {
    /// The arguments of the command were refused.
    Arguments(ArgError),
    /// The command came from no user.
    NoUser,
    /// The user has linked no Mastodon account.
    NoLogin,
    /// The media of the message could not be looked up.
    MediaQuery(String),
    /// One of the media is of a kind that Mastodon does not take.
    UnsupportedMedia,
    /// The chat platform did not say where a file is.
    FileMeta(String),
    /// A file could not be read from the chat platform.
    Download(String),
    /// A file could not be handed to Mastodon.
    Attach(String),
    /// The status could not be put together.
    BuildStatus(String),
    /// Mastodon did not take the status, or not in time.
    PostStatus(String),
}

/// What the user is told of a failure.
pub open spec fn failure_text(f: Failure) -> Seq<char> {
    match f {
        Failure::Arguments(e) => "Failed to parse arguments.\n\n"@ + match e {
            ArgError::SignWithValue => "+/-option with =value is not supported yet"@,
            ArgError::Unrecognized(arg) => "unrecognized or ill-formed argument: "@
                + crate::cmd::arg::arg_text(arg@),
        },
        Failure::NoUser => "No user."@,
        Failure::NoLogin => "Please use /auth to link your mastodon account first."@,
        Failure::MediaQuery(e) => "Failed to query media.\n\n"@ + e@,
        Failure::UnsupportedMedia => "Contains unsupported media."@,
        Failure::FileMeta(e) => "Failed to get file meta.\n\n"@ + e@,
        Failure::Download(e) => "Failed to download file.\n\n"@ + e@,
        Failure::Attach(e) => "Failed to attach media.\n\n"@ + e@,
        Failure::BuildStatus(e) => "Failed to build status.\n\n"@ + e@,
        Failure::PostStatus(e) => "Failed to post status on mastodon.\n\n"@ + e@,
    }
}

impl Failure {
    /// The reply that tells the user of the failure.
    pub fn reply(&self) -> (r: Response)
        ensures
            r@ == ResponseView::ReplyTo(crate::text::plain(failure_text(*self))),
            r.wf(),
    {
        let text = match self {
            Failure::Arguments(e) => {
                let shown = e.message();
                String::from_str("Failed to parse arguments.\n\n").concat(shown.as_str())
            },
            Failure::NoUser => String::from_str("No user."),
            Failure::NoLogin => String::from_str(
                "Please use /auth to link your mastodon account first.",
            ),
            Failure::MediaQuery(e) => String::from_str("Failed to query media.\n\n").concat(
                e.as_str(),
            ),
            Failure::UnsupportedMedia => String::from_str("Contains unsupported media."),
            Failure::FileMeta(e) => String::from_str("Failed to get file meta.\n\n").concat(
                e.as_str(),
            ),
            Failure::Download(e) => String::from_str("Failed to download file.\n\n").concat(
                e.as_str(),
            ),
            Failure::Attach(e) => String::from_str("Failed to attach media.\n\n").concat(
                e.as_str(),
            ),
            Failure::BuildStatus(e) => String::from_str("Failed to build status.\n\n").concat(
                e.as_str(),
            ),
            Failure::PostStatus(e) => String::from_str(
                "Failed to post status on mastodon.\n\n",
            ).concat(e.as_str()),
        };
        Response::reply_to_text(text.as_str())
    }
}

/// How the handling of the command begins.
#[derive(Debug, Clone)]
pub enum Begin {
    /// With the help text, and nothing else.
    Help,
    /// With a failure.
    Fail(Failure),
    /// With the posting, under these options.
    Proceed(PostArgs),
}

/// Begins the handling of the command `/post arg`. The arguments are read
/// first, and a line that asks for help is answered with the help text; a
/// command of no user fails; a command that replies to no message is
/// answered with the help text.
pub fn begin(arg: &str, has_user: bool, has_reply: bool) -> (r: Begin)
    ensures
        match r {
            Begin::Fail(Failure::Arguments(ArgError::SignWithValue)) => !crate::cmd::arg::all_parse(
                crate::chars::words(arg@),
            ),
            Begin::Fail(Failure::Arguments(ArgError::Unrecognized(refused))) => {
                &&& crate::cmd::arg::all_parse(crate::chars::words(arg@))
                &&& PostArgs::initial().apply_all(crate::chars::words(arg@))
                    == crate::cmd::arg::PostOutcome::Refused(refused@)
            },
            Begin::Help => {
                &&& crate::cmd::arg::all_parse(crate::chars::words(arg@))
                &&& PostArgs::initial().apply_all(crate::chars::words(arg@))
                    matches crate::cmd::arg::PostOutcome::Done(args)
                &&& args.help || (has_user && !has_reply)
            },
            Begin::Fail(Failure::NoUser) => {
                &&& crate::cmd::arg::all_parse(crate::chars::words(arg@))
                &&& PostArgs::initial().apply_all(crate::chars::words(arg@))
                    matches crate::cmd::arg::PostOutcome::Done(args)
                &&& !args.help && !has_user
            },
            Begin::Proceed(args) => {
                &&& crate::cmd::arg::all_parse(crate::chars::words(arg@))
                &&& PostArgs::initial().apply_all(crate::chars::words(arg@))
                    == crate::cmd::arg::PostOutcome::Done(args)
                &&& !args.help && has_user && has_reply
            },
            Begin::Fail(_) => false,
        },
{
    match PostArgs::parse(arg) {
        Err(e) => Begin::Fail(Failure::Arguments(e)),
        Ok(args) => {
            if args.help {
                Begin::Help
            } else if !has_user {
                Begin::Fail(Failure::NoUser)
            } else if !has_reply {
                Begin::Help
            } else {
                Begin::Proceed(args)
            }
        },
    }
}

/// The reply that shows the help text.
pub fn help_reply() -> (r: Response)
    ensures
        r@ == ResponseView::ReplyTo(crate::text::plain(PostArgs::help_text())),
        r.wf(),
{
    Response::reply_to_text(PostArgs::help())
}

/// The file of the media that is handed to Mastodon: the media's file, if
/// Mastodon takes media of this kind.
pub open spec fn upload_of(media: MediaKind) -> Option<FileMeta> {
    if media.is_supported() {
        media.file_of()
    } else {
        None
    }
}

/// The file of the media that is handed to Mastodon, or `None` for media
/// without a file or of a kind that Mastodon does not take.
pub fn filter_media(media: &MediaKind) -> (r: Option<&FileMeta>)
    requires
        media.wf(),
    ensures
        match r {
            Some(file) => upload_of(*media) == Some(*file),
            None => upload_of(*media).is_none(),
        },
{
    let file = match media.file() {
        Some(file) => file,
        None => {
            return None;
        },
    };
    let supported = match media {
        MediaKind::Animation { .. }
        | MediaKind::Photo { .. }
        | MediaKind::Sticker { .. }
        | MediaKind::Video { .. }
        | MediaKind::VideoNote { .. } => true,
        _ => false,
    };
    if supported {
        Some(file)
    } else {
        None
    }
}

/// Whether Mastodon takes every one of the media.
pub open spec fn all_uploadable(items: Seq<MediaKind>) -> bool {
    forall|i: int| 0 <= i < items.len() ==> upload_of(#[trigger] items[i]).is_some()
}

/// What is posted, before any of it is sent.
#[derive(Debug, Clone, PartialEq, Eq)]
pub struct Plan {
    /// Whether the message has media at all.
    pub has_media: bool,
    /// The ids of the files that are handed to Mastodon, in order.
    pub files: Vec<String>,
    /// Whether the post is marked as sensitive.
    pub sensitive: bool,
    /// The text of the post.
    pub text: String,
    /// The entities of the text.
    pub entities: Vec<MessageEntity>,
}

impl Plan {
    /// Whether this is the plan for the given media: every one of them is
    /// handed over, in order; the post is sensitive if one of them is hidden;
    /// its text is their first caption. Without media, nothing is handed
    /// over and the text is empty.
    pub open spec fn is_for(self, media: Option<Media>) -> bool {
        match media {
            Some(media) => {
                &&& self.has_media
                &&& self.files@.len() == media.items().len()
                &&& forall|i: int|
                    0 <= i < self.files@.len() ==> Some((#[trigger] self.files@[i])@) == match upload_of(
                        media.items()[i],
                    ) {
                        Some(file) => Some(file.id@),
                        None => None,
                    }
                &&& self.sensitive == crate::util::media::any_spoiler(media.items())
                &&& self.text@ == match crate::util::media::first_caption(media.items()) {
                    Some(caption) => caption@,
                    None => Seq::empty(),
                }
                &&& self.entities@ == match crate::util::media::first_entities(media.items()) {
                    Some(entities) => entities@,
                    None => Seq::empty(),
                }
            },
            None => {
                &&& !self.has_media
                &&& self.files@.len() == 0
                &&& !self.sensitive
                &&& self.text@.len() == 0
                &&& self.entities@.len() == 0
            },
        }
    }
}

/// Plans the post. One of the media that Mastodon does not take fails the
/// whole post: none of the others is handed over either.
pub fn plan(media: Option<&Media>) -> (r: Result<Plan, Failure>)
    requires
        media matches Some(m) ==> m.wf(),
    ensures
        match r {
            Ok(plan) => {
                &&& media matches Some(m) ==> all_uploadable(m.items())
                &&& plan.is_for(
                    match media {
                        Some(m) => Some(*m),
                        None => None,
                    },
                )
            },
            Err(failure) => {
                &&& failure == Failure::UnsupportedMedia
                &&& media matches Some(m) && !all_uploadable(m.items())
            },
        },
{
    let m = match media {
        Some(m) => m,
        None => {
            proof {
                reveal_strlit("");
            }
            return Ok(
                Plan {
                    has_media: false,
                    files: Vec::new(),
                    sensitive: false,
                    text: String::from_str(""),
                    entities: Vec::new(),
                },
            );
        },
    };
    let items = m.iter();
    let mut files: Vec<String> = Vec::new();
    let mut i: usize = 0;
    while i < items.len()
        invariant
            i <= items.len(),
            media == Some(m),
            m.wf(),
            items@.len() == m.items().len(),
            forall|k: int| 0 <= k < items@.len() ==> *(#[trigger] items@[k]) == m.items()[k],
            files@.len() == i,
            forall|k: int| 0 <= k < i ==> upload_of(#[trigger] m.items()[k]).is_some(),
            forall|k: int|
                0 <= k < i ==> Some((#[trigger] files@[k])@) == match upload_of(m.items()[k]) {
                    Some(file) => Some(file.id@),
                    None => None,
                },
        decreases items.len() - i,
    {
        assert(m.items()[i as int].wf());
        match filter_media(items[i]) {
            Some(file) => {
                files.push(file.id.clone());
            },
            None => {
                assert(upload_of(m.items()[i as int]).is_none());
                assert(!all_uploadable(m.items()));
                return Err(Failure::UnsupportedMedia);
            },
        }
        i += 1;
    }
    let text = match m.caption() {
        Some(caption) => caption.clone(),
        None => {
            proof {
                reveal_strlit("");
            }
            String::from_str("")
        },
    };
    let entities = match m.entities() {
        Some(entities) => duplicate_entities(entities),
        None => Vec::new(),
    };
    let planned = Plan { has_media: true, files, sensitive: m.has_media_spoiler(), text, entities };
    proof {
        assert(all_uploadable(m.items()));
        assert(planned.files@.len() == m.items().len());
        assert(planned.sensitive == crate::util::media::any_spoiler(m.items()));
        assert(planned.text@ == match crate::util::media::first_caption(m.items()) {
            Some(caption) => caption@,
            None => Seq::empty(),
        });
        assert(planned.entities@ == match crate::util::media::first_entities(m.items()) {
            Some(entities) => entities@,
            None => Seq::empty(),
        });
        assert(planned.is_for(Some(*m)));
    }
    Ok(planned)
}

/// A post's text as it is sent.
#[derive(Debug, Clone, PartialEq, Eq)]
pub struct Rendered {
    /// The text in Mastodon's markup.
    pub status: String,
    /// Whether the text holds markup.
    pub is_formatted: bool,
    /// The language of the text, if it has one.
    pub language: Option<Language>,
    /// Whether the text names its source.
    pub with_src: bool,
}

/// The text of a post with the line that names its source, if there is one.
pub open spec fn with_footer(text: MessageTextView, footer: Option<Seq<char>>) -> MessageTextView {
    match footer {
        Some(line) => text.append(crate::text::plain(line)),
        None => text,
    }
}

/// Renders the text of a post: its language is told from the text as it
/// came; then the line that names the source of `msg` is put at its end, as
/// `src` asks; then the links are written out.
pub fn render(
    text: &str,
    entities: Vec<MessageEntity>,
    src: Option<bool>,
    msg: &Message,
    trigger: Option<&User>,
    linked: bool,
) -> (r: Rendered)
    requires
        crate::text::all_in_bounds(text@, entities@),
        crate::text::all_aligned(text@, entities@),
    ensures
        r.with_src == source::source_footer(*msg, src, match trigger {
            Some(t) => Some(t.id),
            None => None,
        }, linked).is_some(),
        r.status@ == markup::rendered(
            with_footer(
                MessageTextView { text: text@, entities: entities@, disable_preview: false },
                source::source_footer(*msg, src, match trigger {
                    Some(t) => Some(t.id),
                    None => None,
                }, linked),
            ),
        ),
        r.is_formatted == markup::has_link(entities@),
        r.language is None <==> language::is_blank(
            (MessageTextView { text: text@, entities: entities@, disable_preview: false }).semantics(),
        ),
        r.language matches Some(language) ==> exists|detected: Option<Seq<char>>|
            language@ == #[trigger] language::language_for(detected),
{
    let mut msg_text = MessageText::new(text, entities);
    let language = detect_lang(&msg_text);
    let with_src = append_source(&mut msg_text, src, msg, trigger, linked);
    let (status, is_formatted) = format_text_for_mastodon(&msg_text);
    proof {
        let footer = source::source_footer(*msg, src, match trigger {
            Some(t) => Some(t.id),
            None => None,
        }, linked);
        if markup::has_link(msg_text@.entities) {
            let i = choose|i: int|
                0 <= i < msg_text@.entities.len() && (#[trigger] msg_text@.entities[i]).kind
                    is TextLink;
            assert(msg_text@.entities[i] == entities@[i]);
        }
        if markup::has_link(entities@) {
            let i = choose|i: int| 0 <= i < entities@.len() && (#[trigger] entities@[i]).kind
                is TextLink;
            assert(msg_text@.entities[i] == entities@[i]);
        }
    }
    Rendered { status, is_formatted, language, with_src }
}

/// Puts a status together: it is public; its attachments and its mark as
/// sensitive are set only where the message has media; its text is markup
/// where links were written out.
pub fn build_status(
    rendered: Rendered,
    has_media: bool,
    attachments: Vec<String>,
    sensitive: bool,
) -> (r: NewStatus)
    ensures
        r.status == rendered.status,
        r.visibility == Visibility::Public,
        r.language == rendered.language,
        r.media_ids == if has_media {
            Some(attachments)
        } else {
            None
        },
        r.sensitive == if has_media {
            Some(sensitive)
        } else {
            None
        },
        match r.content_type {
            Some(t) => rendered.is_formatted && t@ == "text/markdown"@,
            None => !rendered.is_formatted,
        },
{
    let content_type = if rendered.is_formatted {
        Some(String::from_str("text/markdown"))
    } else {
        None
    };
    NewStatus {
        status: rendered.status,
        visibility: Visibility::Public,
        language: rendered.language,
        media_ids: if has_media {
            Some(attachments)
        } else {
            None
        },
        sensitive: if has_media {
            Some(sensitive)
        } else {
            None
        },
        content_type,
    }
}

/// How the transfer of one file ended.
#[derive(Debug, PartialEq, Eq)]
pub enum Transfer {
    /// The chat platform did not say where the file is.
    NoFile(String),
    /// The file was read and handed over at once; `download` is the error of
    /// the reading, if it failed, and `attach` is the attachment's id or the
    /// error of the handing over.
    Moved { download: Option<String>, attach: Result<String, String> },
}

/// What a transfer gave: the id of the attachment, or the failure. Where
/// both the reading and the handing over failed, the reading is reported.
pub open spec fn transfer_of(transfer: Transfer) -> Result<String, Failure> {
    match transfer {
        Transfer::NoFile(e) => Err(Failure::FileMeta(e)),
        Transfer::Moved { download: Some(e), .. } => Err(Failure::Download(e)),
        Transfer::Moved { download: None, attach: Err(e) } => Err(Failure::Attach(e)),
        Transfer::Moved { download: None, attach: Ok(id) } => Ok(id),
    }
}

/// Says what a transfer gave.
pub fn transferred(transfer: Transfer) -> (r: Result<String, Failure>)
    ensures
        r == transfer_of(transfer),
{
    match transfer {
        Transfer::NoFile(e) => Err(Failure::FileMeta(e)),
        Transfer::Moved { download, attach } => match download {
            Some(e) => Err(Failure::Download(e)),
            None => match attach {
                Err(e) => Err(Failure::Attach(e)),
                Ok(id) => Ok(id),
            },
        },
    }
}

/// What the user is shown while the post is under way.
#[derive(Debug, Clone, Copy, PartialEq, Eq, Structural)]
pub enum Progress {
    /// The file at `index` of `total` is being transferred.
    Processing { index: usize, total: usize },
    Detecting,
    Posting,
}

/// The text of a step, and whether it stays in the list of steps once it is
/// done.
pub open spec fn progress_text(step: Progress) -> (Seq<char>, bool) {
    match step {
        Progress::Processing { index, total } => (
            "Processing media... ("@ + crate::chars::decimal((index + 1) as nat) + "/"@
                + crate::chars::decimal(total as nat) + ")"@,
            false,
        ),
        Progress::Detecting => ("Detecting content language..."@, true),
        Progress::Posting => ("Posting status..."@, true),
    }
}

/// Writes the text of a step.
pub fn progress(step: Progress) -> (r: (String, bool))
    requires
        step matches Progress::Processing { index, total } ==> index < total,
    ensures
        (r.0@, r.1) == progress_text(step),
{
    match step {
        Progress::Processing { index, total } => {
            let at = write_decimal(index + 1);
            let of = write_decimal(total);
            (
                String::from_str("Processing media... (").concat(at.as_str()).concat("/").concat(
                    of.as_str(),
                ).concat(")"),
                false,
            )
        },
        Progress::Detecting => (String::from_str("Detecting content language..."), true),
        Progress::Posting => (String::from_str("Posting status..."), true),
    }
}

/// What the user is told of a post that is up: the language's two-letter
/// code, or `??` where it has none, if the post has a language; whether the
/// source is named; and the address of the post.
pub open spec fn success_text(
    url: Seq<char>,
    language: Option<crate::mastodon::LanguageView>,
    with_src: bool,
) -> Seq<char> {
    let tag: Seq<char> = match language {
        Some(language) => match language.short {
            Some(short) => short + ", "@,
            None => "??"@ + ", "@,
        },
        None => Seq::empty(),
    };
    let src: Seq<char> = if with_src {
        "w/ src"@
    } else {
        "w/o src"@
    };
    "Synchronized successfully. \n\n("@ + tag + src + ")\n"@ + url
}

/// The reply that tells the user that the post is up, without a preview of
/// the post's address.
pub fn finished(url: &str, language: Option<&Language>, with_src: bool) -> (r: Response)
    ensures
        r@ == ResponseView::ReplyTo(
            MessageTextView {
                text: success_text(url@, match language {
                    Some(l) => Some(l@),
                    None => None,
                }, with_src),
                entities: Seq::empty(),
                disable_preview: true,
            },
        ),
        r.wf(),
{
    let mut text = String::from_str("Synchronized successfully. \n\n(");
    match language {
        Some(language) => {
            match language.to_639_1() {
                Some(short) => {
                    text.append(short.as_str());
                },
                None => {
                    text.append("??");
                },
            }
            text.append(", ");
        },
        None => {
            assert(text@ + Seq::<char>::empty() =~= text@);
        },
    }
    text.append(if with_src {
        "w/ src"
    } else {
        "w/o src"
    });
    text.append(")\n");
    text.append(url);
    let built = mtb().plain(text.as_str()).disable_preview().build();
    proof {
        assert(text@ =~= success_text(url@, match language {
            Some(l) => Some(l@),
            None => None,
        }, with_src));
        assert(built@.text =~= text@);
        assert(built@.entities =~= Seq::<MessageEntity>::empty());
    }
    Response::reply_to(built)
}

/// The signal that the planning of a post gives: media that Mastodon does
/// not take refuse the publication.
pub fn resolved(plan: &Result<Plan, Failure>) -> (r: Signal)
    ensures
        r == match *plan {
            Ok(plan) => Signal::Resolved { files: plan.files@.len() as usize },
            Err(_) => Signal::Refused,
        },
{
    match plan {
        Ok(plan) => Signal::Resolved { files: plan.files.len() },
        Err(_) => Signal::Refused,
    }
}

} // verus!
