//! The media of a message, and the media of the messages of one group.

use vstd::prelude::*;
use crate::text::MessageEntity;

verus! {

/// A file on the chat platform's servers.
#[derive(Debug, Clone, PartialEq, Eq)]
pub struct FileMeta {
    pub id: String,
    pub unique_id: String,
    pub size: u32,
}

/// One size of a photo.
#[derive(Debug, Clone, PartialEq, Eq)]
pub struct PhotoSize {
    pub file: FileMeta,
    pub width: u32,
    pub height: u32,
}

/// What a message carries.
#[derive(Debug, Clone, PartialEq, Eq)]
pub enum MediaKind {
    Animation {
        file: FileMeta,
        caption: Option<String>,
        caption_entities: Vec<MessageEntity>,
        has_media_spoiler: bool,
    },
    Audio { file: FileMeta, caption: Option<String>, caption_entities: Vec<MessageEntity> },
    Contact,
    Document { file: FileMeta, caption: Option<String>, caption_entities: Vec<MessageEntity> },
    Game,
    Venue,
    Location,
    /// A photo in the sizes that the platform offers, of which there is at
    /// least one.
    Photo {
        photo: Vec<PhotoSize>,
        caption: Option<String>,
        caption_entities: Vec<MessageEntity>,
        has_media_spoiler: bool,
    },
    Poll,
    Sticker { file: FileMeta },
    Text { text: String, entities: Vec<MessageEntity> },
    Video {
        file: FileMeta,
        caption: Option<String>,
        caption_entities: Vec<MessageEntity>,
        has_media_spoiler: bool,
    },
    VideoNote { file: FileMeta },
    Voice { file: FileMeta, caption: Option<String>, caption_entities: Vec<MessageEntity> },
    Migration,
}

/// Number of pixels of a photo size.
pub open spec fn area(p: PhotoSize) -> int {
    p.width * p.height
}

/// Whether `k` is the place of the best photo: no size has more pixels, and
/// of those with as many it is the last.
pub open spec fn is_best(photos: Seq<PhotoSize>, k: int) -> bool {
    &&& 0 <= k < photos.len()
    &&& forall|j: int| 0 <= j < photos.len() ==> area(#[trigger] photos[j]) <= area(photos[k])
    &&& forall|j: int| k < j < photos.len() ==> area(#[trigger] photos[j]) < area(photos[k])
}

/// The place of the best photo among the first `n`.
pub open spec fn best_index(photos: Seq<PhotoSize>, n: int) -> int
    decreases n,
{
    if n <= 1 {
        0
    } else {
        let k = best_index(photos, n - 1);
        if area(photos[n - 1]) >= area(photos[k]) {
            n - 1
        } else {
            k
        }
    }
}

/// `best_index` is the place of the best photo.
pub proof fn lemma_best_index(photos: Seq<PhotoSize>, n: int)
    requires
        0 < n <= photos.len(),
    ensures
        is_best(photos.take(n), best_index(photos, n)),
    decreases n,
{
    if n > 1 {
        lemma_best_index(photos, n - 1);
        let k = best_index(photos, n - 1);
        let now = best_index(photos, n);
        assert forall|j: int| 0 <= j < n implies area(#[trigger] photos.take(n)[j]) <= area(
            photos.take(n)[now],
        ) by {
            if j < n - 1 {
                assert(photos.take(n - 1)[j] == photos[j]);
                assert(area(photos.take(n - 1)[j]) <= area(photos.take(n - 1)[k]));
            }
        }
        assert forall|j: int| now < j < n implies area(#[trigger] photos.take(n)[j]) < area(
            photos.take(n)[now],
        ) by {
            if j < n - 1 {
                assert(photos.take(n - 1)[j] == photos[j]);
                assert(area(photos.take(n - 1)[j]) < area(photos.take(n - 1)[k]));
            }
        }
    }
}

/// Counts the pixels of a photo size.
pub fn pixels(p: &PhotoSize) -> (r: u64)
    ensures
        r == area(*p),
{
    let w: u64 = p.width as u64;
    let h: u64 = p.height as u64;
    assert(w * h <= 0xffff_ffff * 0xffff_ffff) by (nonlinear_arith)
        requires
            w <= 0xffff_ffff,
            h <= 0xffff_ffff,
    ;
    w * h
}

impl MediaKind {
    /// Whether a photo comes in at least one size.
    pub open spec fn wf(self) -> bool {
        self matches MediaKind::Photo { photo, .. } ==> photo@.len() > 0
    }

    /// The file of the media, if it has one: of a photo, the best size.
    pub open spec fn file_of(self) -> Option<FileMeta> {
        match self {
            MediaKind::Animation { file, .. } => Some(file),
            MediaKind::Audio { file, .. } => Some(file),
            MediaKind::Document { file, .. } => Some(file),
            MediaKind::Photo { photo, .. } => Some(
                photo@[best_index(photo@, photo@.len() as int)].file,
            ),
            MediaKind::Sticker { file } => Some(file),
            MediaKind::Video { file, .. } => Some(file),
            MediaKind::VideoNote { file } => Some(file),
            MediaKind::Voice { file, .. } => Some(file),
            _ => None,
        }
    }

    /// The text that comes with the media: its caption, or the text of a
    /// message that is text only.
    pub open spec fn caption_of(self) -> Option<String> {
        match self {
            MediaKind::Animation { caption, .. } => caption,
            MediaKind::Audio { caption, .. } => caption,
            MediaKind::Document { caption, .. } => caption,
            MediaKind::Photo { caption, .. } => caption,
            MediaKind::Text { text, .. } => Some(text),
            MediaKind::Video { caption, .. } => caption,
            MediaKind::Voice { caption, .. } => caption,
            _ => None,
        }
    }

    /// The entities of the text that comes with the media.
    pub open spec fn entities_of(self) -> Option<Vec<MessageEntity>> {
        match self {
            MediaKind::Animation { caption_entities, .. } => Some(caption_entities),
            MediaKind::Audio { caption_entities, .. } => Some(caption_entities),
            MediaKind::Document { caption_entities, .. } => Some(caption_entities),
            MediaKind::Photo { caption_entities, .. } => Some(caption_entities),
            MediaKind::Text { entities, .. } => Some(entities),
            MediaKind::Video { caption_entities, .. } => Some(caption_entities),
            MediaKind::Voice { caption_entities, .. } => Some(caption_entities),
            _ => None,
        }
    }

    /// Whether the media is hidden until the reader asks for it.
    pub open spec fn spoiler_of(self) -> bool {
        match self {
            MediaKind::Animation { has_media_spoiler, .. } => has_media_spoiler,
            MediaKind::Photo { has_media_spoiler, .. } => has_media_spoiler,
            MediaKind::Video { has_media_spoiler, .. } => has_media_spoiler,
            _ => false,
        }
    }

    /// Whether Mastodon takes media of this kind: pictures and films, moving
    /// or still.
    pub open spec fn is_supported(self) -> bool {
        match self {
            MediaKind::Animation { .. }
            | MediaKind::Photo { .. }
            | MediaKind::Sticker { .. }
            | MediaKind::Video { .. }
            | MediaKind::VideoNote { .. } => true,
            _ => false,
        }
    }

    /// The file of the media, if it has one: of a photo, the best size.
    pub fn file(&self) -> (r: Option<&FileMeta>)
        requires
            self.wf(),
        ensures
            match r {
                Some(file) => self.file_of() == Some(*file),
                None => self.file_of().is_none(),
            },
    {
        match self {
            MediaKind::Animation { file, .. } => Some(file),
            MediaKind::Audio { file, .. } => Some(file),
            MediaKind::Document { file, .. } => Some(file),
            MediaKind::Photo { photo, .. } => Some(&MediaKind::choice_best_photo(photo).file),
            MediaKind::Sticker { file } => Some(file),
            MediaKind::Video { file, .. } => Some(file),
            MediaKind::VideoNote { file } => Some(file),
            MediaKind::Voice { file, .. } => Some(file),
            _ => None,
        }
    }

    /// The text that comes with the media.
    pub fn caption(&self) -> (r: Option<&String>)
        ensures
            match r {
                Some(text) => self.caption_of() == Some(*text),
                None => self.caption_of().is_none(),
            },
    {
        match self {
            MediaKind::Animation { caption, .. } => caption.as_ref(),
            MediaKind::Audio { caption, .. } => caption.as_ref(),
            MediaKind::Document { caption, .. } => caption.as_ref(),
            MediaKind::Photo { caption, .. } => caption.as_ref(),
            MediaKind::Text { text, .. } => Some(text),
            MediaKind::Video { caption, .. } => caption.as_ref(),
            MediaKind::Voice { caption, .. } => caption.as_ref(),
            _ => None,
        }
    }

    /// The entities of the text that comes with the media.
    pub fn entities(&self) -> (r: Option<&Vec<MessageEntity>>)
        ensures
            match r {
                Some(entities) => self.entities_of() == Some(*entities),
                None => self.entities_of().is_none(),
            },
    {
        match self {
            MediaKind::Animation { caption_entities, .. } => Some(caption_entities),
            MediaKind::Audio { caption_entities, .. } => Some(caption_entities),
            MediaKind::Document { caption_entities, .. } => Some(caption_entities),
            MediaKind::Photo { caption_entities, .. } => Some(caption_entities),
            MediaKind::Text { entities, .. } => Some(entities),
            MediaKind::Video { caption_entities, .. } => Some(caption_entities),
            MediaKind::Voice { caption_entities, .. } => Some(caption_entities),
            _ => None,
        }
    }

    /// Whether the media is hidden until the reader asks for it.
    pub fn has_media_spoiler(&self) -> (r: bool)
        ensures
            r == self.spoiler_of(),
    {
        match self {
            MediaKind::Animation { has_media_spoiler, .. } => *has_media_spoiler,
            MediaKind::Photo { has_media_spoiler, .. } => *has_media_spoiler,
            MediaKind::Video { has_media_spoiler, .. } => *has_media_spoiler,
            _ => false,
        }
    }

    /// The size of a photo with the most pixels; of several such, the last.
    pub fn choice_best_photo(photos: &Vec<PhotoSize>) -> (r: &PhotoSize)
        requires
            photos@.len() > 0,
        ensures
            *r == photos@[best_index(photos@, photos@.len() as int)],
            is_best(photos@, best_index(photos@, photos@.len() as int)),
    {
        let mut best: usize = 0;
        let mut i: usize = 1;
        while i < photos.len()
            invariant
                1 <= i <= photos.len(),
                best == best_index(photos@, i as int),
                best < i,
            decreases photos.len() - i,
        {
            if pixels(&photos[i]) >= pixels(&photos[best]) {
                best = i;
            }
            i += 1;
        }
        proof {
            lemma_best_index(photos@, photos@.len() as int);
            assert(photos@.take(photos@.len() as int) =~= photos@);
        }
        &photos[best]
    }
}

/// The media of one post: of a message alone, or of the messages of a group.
#[derive(Debug, Clone, PartialEq, Eq)]
pub enum Media {
    Single(Box<MediaKind>),
    /// The media of a group's messages, in the order of the messages.
    Group { medias: Vec<MediaKind>, group_id: String },
}

/// The first caption that one of the media has.
pub open spec fn first_caption(items: Seq<MediaKind>) -> Option<String>
    decreases items.len(),
{
    if items.len() == 0 {
        None
    } else {
        match items[0].caption_of() {
            Some(caption) => Some(caption),
            None => first_caption(items.drop_first()),
        }
    }
}

/// The entities of the first of the media that has any.
pub open spec fn first_entities(items: Seq<MediaKind>) -> Option<Vec<MessageEntity>>
    decreases items.len(),
{
    if items.len() == 0 {
        None
    } else {
        match items[0].entities_of() {
            Some(entities) => Some(entities),
            None => first_entities(items.drop_first()),
        }
    }
}

/// Whether one of the media is hidden until the reader asks for it.
pub open spec fn any_spoiler(items: Seq<MediaKind>) -> bool {
    exists|i: int| 0 <= i < items.len() && (#[trigger] items[i]).spoiler_of()
}

/// What is to be looked up before the media of a message are known.
#[derive(Debug, Clone, PartialEq, Eq)]
pub enum MediaQuery {
    /// Nothing: the message carries no media at all.
    NoMedia,
    /// Nothing: the message stands alone, and these are its media.
    Single(Media),
    /// The media of the group with this id.
    Group(String),
}

impl Media {
    /// The media, in order.
    pub open spec fn items(self) -> Seq<MediaKind> {
        match self {
            Media::Single(media) => seq![*media],
            Media::Group { medias, .. } => medias@,
        }
    }

    /// Whether every photo comes in at least one size.
    pub open spec fn wf(self) -> bool {
        forall|i: int| 0 <= i < self.items().len() ==> (#[trigger] self.items()[i]).wf()
    }

    /// The media, in order.
    pub fn iter(&self) -> (r: Vec<&MediaKind>)
        ensures
            r@.len() == self.items().len(),
            forall|i: int| 0 <= i < r@.len() ==> *(#[trigger] r@[i]) == self.items()[i],
    {
        let mut r: Vec<&MediaKind> = Vec::new();
        match self {
            Media::Single(media) => {
                r.push(&**media);
            },
            Media::Group { medias, .. } => {
                let mut i: usize = 0;
                while i < medias.len()
                    invariant
                        i <= medias.len(),
                        r@.len() == i,
                        forall|k: int| 0 <= k < i ==> *(#[trigger] r@[k]) == medias@[k],
                    decreases medias.len() - i,
                {
                    r.push(&medias[i]);
                    i += 1;
                }
            },
        }
        r
    }

    /// How many media there are.
    pub fn len(&self) -> (r: usize)
        ensures
            r == self.items().len(),
    {
        match self {
            Media::Single(_) => 1,
            Media::Group { medias, .. } => medias.len(),
        }
    }

    /// The text of the post: the first caption that one of the media has.
    pub fn caption(&self) -> (r: Option<&String>)
        ensures
            match r {
                Some(text) => first_caption(self.items()) == Some(*text),
                None => first_caption(self.items()).is_none(),
            },
    {
        let items = self.iter();
        let mut i: usize = 0;
        assert(self.items().skip(0) =~= self.items());
        while i < items.len()
            invariant
                i <= items.len(),
                items@.len() == self.items().len(),
                forall|k: int| 0 <= k < items@.len() ==> *(#[trigger] items@[k]) == self.items()[k],
                first_caption(self.items()) == first_caption(self.items().skip(i as int)),
            decreases items.len() - i,
        {
            let ghost rest = self.items().skip(i as int);
            assert(rest[0] == self.items()[i as int]);
            assert(rest.drop_first() =~= self.items().skip(i + 1));
            match items[i].caption() {
                Some(text) => {
                    return Some(text);
                },
                None => {},
            }
            i += 1;
        }
        None
    }

    /// The entities of the text of the post: those of the first of the media
    /// that has any.
    pub fn entities(&self) -> (r: Option<&Vec<MessageEntity>>)
        ensures
            match r {
                Some(entities) => first_entities(self.items()) == Some(*entities),
                None => first_entities(self.items()).is_none(),
            },
    {
        let items = self.iter();
        let mut i: usize = 0;
        assert(self.items().skip(0) =~= self.items());
        while i < items.len()
            invariant
                i <= items.len(),
                items@.len() == self.items().len(),
                forall|k: int| 0 <= k < items@.len() ==> *(#[trigger] items@[k]) == self.items()[k],
                first_entities(self.items()) == first_entities(self.items().skip(i as int)),
            decreases items.len() - i,
        {
            let ghost rest = self.items().skip(i as int);
            assert(rest[0] == self.items()[i as int]);
            assert(rest.drop_first() =~= self.items().skip(i + 1));
            match items[i].entities() {
                Some(entities) => {
                    return Some(entities);
                },
                None => {},
            }
            i += 1;
        }
        None
    }

    /// Whether one of the media is hidden until the reader asks for it, so
    /// that the post is marked as sensitive.
    pub fn has_media_spoiler(&self) -> (r: bool)
        ensures
            r == any_spoiler(self.items()),
    {
        let items = self.iter();
        let mut i: usize = 0;
        while i < items.len()
            invariant
                i <= items.len(),
                items@.len() == self.items().len(),
                forall|k: int| 0 <= k < items@.len() ==> *(#[trigger] items@[k]) == self.items()[k],
                forall|k: int| 0 <= k < i ==> !(#[trigger] self.items()[k]).spoiler_of(),
            decreases items.len() - i,
        {
            if items[i].has_media_spoiler() {
                assert(self.items()[i as int].spoiler_of());
                return true;
            }
            i += 1;
        }
        false
    }

    /// Says where the media of a message are found. A message of the platform
    /// itself, which has no `media`, carries none; a message in a group has
    /// the media of the whole group, which are to be looked up; any other
    /// message has its own.
    pub fn query(media: Option<MediaKind>, media_group_id: Option<String>) -> (r: MediaQuery)
        ensures
            r == match (media, media_group_id) {
                (None, _) => MediaQuery::NoMedia,
                (Some(media), None) => MediaQuery::Single(Media::Single(Box::new(media))),
                (Some(_), Some(group_id)) => MediaQuery::Group(group_id),
            },
    {
        match media {
            None => MediaQuery::NoMedia,
            Some(media) => match media_group_id {
                None => MediaQuery::Single(Media::Single(Box::new(media))),
                Some(group_id) => MediaQuery::Group(group_id),
            },
        }
    }

    /// The media of a group, as they were looked up.
    pub fn group(group_id: String, medias: Vec<MediaKind>) -> (r: Media)
        ensures
            r == (Media::Group { medias, group_id }),
            r.items() == medias@,
    {
        Media::Group { medias, group_id }
    }
}

/// Whether the media of a new message are to be kept for its group: the
/// group's id, where the message carries media and belongs to a group.
pub fn on_new_message(has_media: bool, media_group_id: Option<String>) -> (r: Option<String>)
    ensures
        r == if has_media {
            media_group_id
        } else {
            None
        },
{
    if has_media {
        media_group_id
    } else {
        None
    }
}

} // verus!
