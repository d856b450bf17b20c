//! Message content, text entities and the content of messages to send.

use vstd::prelude::*;
use crate::codec::{
    discriminator, encode_wide, field, lemma_wide_round_trip, members_of, optional_field, put,
    read_field, read_optional, read_wide, seal, Tagged, Union, wide_doc, wide_field, Wire,
};
use crate::error::{DecodeError, Fault};
use crate::json::{Doc, Json, Member, tag_of, tagged};
use crate::text::same_text;
use crate::types::{
    Animation, Audio, CallDiscardReason, Contact, Document, EncryptedCredentials,
    EncryptedPassportElement, FormattedText, Game, InputFile, Invoice, Location, OrderInfo,
    PassportElementType, Photo, Poll, PollType, Sticker, Venue, Video, VideoNote, VoiceNote,
    WebPage,
};

verus! {

/// A text message
#[derive(Debug, Clone, PartialEq)]
pub struct MessageText {
    /// Text of the message
    pub text: FormattedText,
    /// A preview of the web page that's mentioned in the text; may be null
    pub web_page: Option<WebPage>,
}

impl Wire for MessageText {
    #[verifier::opaque]
    open spec fn wire(&self) -> Doc {
        tagged(
            Map::empty()
                .insert("text"@, self.text.wire())
                .insert("webPage"@, self.web_page.wire()),
            "messageText"@,
        )
    }

    #[verifier::opaque]
    open spec fn parse(d: Doc, at: Seq<char>) -> Result<Doc, Fault> {
        match d {
            Doc::Object(m) => {
                let text = field::<FormattedText>(m, "text"@);
                let web_page = optional_field::<WebPage>(m, "webPage"@);
                if text is Err {
                    text
                } else if web_page is Err {
                    web_page
                } else {
                    Ok(
                        tagged(
                            Map::empty()
                                .insert("text"@, text->Ok_0)
                                .insert("webPage"@, web_page->Ok_0),
                            "messageText"@,
                        ),
                    )
                }
            },
            _ => Err(Fault::TypeMismatch(at)),
        }
    }

    fn encode(&self) -> (j: Json) {
        proof {
            reveal(<MessageText as Wire>::wire);
        }
        let mut members: Vec<Member> = Vec::new();
        put(&mut members, "text", self.text.encode());
        put(&mut members, "webPage", self.web_page.encode());
        seal(members, "messageText")
    }

    fn decode(j: &Json, at: &str) -> (r: Result<Self, DecodeError>) {
        proof {
            reveal(<MessageText as Wire>::wire);
            reveal(<MessageText as Wire>::parse);
        }
        let members = members_of(j, at)?;
        let text = read_field::<FormattedText>(members, "text")?;
        let web_page = read_optional::<WebPage>(members, "webPage")?;
        Ok(MessageText { text, web_page })
    }

    proof fn round_trip(&self, at: Seq<char>) {
        reveal(<MessageText as Wire>::wire);
        reveal(<MessageText as Wire>::parse);
        reveal_strlit("@type");
        reveal_strlit("text");
        reveal_strlit("webPage");
        assert("@type"@.len() == 5);
        assert("text"@.len() == 4);
        assert("webPage"@.len() == 7);
        self.text.round_trip("text"@);
        self.web_page.round_trip("webPage"@);
    }
}

impl Tagged for MessageText {
    open spec fn known(tag: Seq<char>) -> bool {
        tag == "messageText"@
    }

    fn knows(tag: &str) -> (r: bool) {
        same_text(tag, "messageText")
    }

    proof fn tag_known(&self) {
        reveal(<MessageText as Wire>::wire);
        assert(tag_of(self.wire()) == Some("messageText"@));
        assert(Self::known("messageText"@));
    }
}

/// An animation message (GIF-style).
#[derive(Debug, Clone, PartialEq)]
pub struct MessageAnimation {
    /// The animation description
    pub animation: Animation,
    /// Animation caption
    pub caption: FormattedText,
    /// True, if the animation thumbnail must be blurred and the animation must be shown only while
    /// tapped
    pub is_secret: bool,
}

impl Wire for MessageAnimation {
    #[verifier::opaque]
    open spec fn wire(&self) -> Doc {
        tagged(
            Map::empty()
                .insert("animation"@, self.animation.wire())
                .insert("caption"@, self.caption.wire())
                .insert("isSecret"@, self.is_secret.wire()),
            "messageAnimation"@,
        )
    }

    #[verifier::opaque]
    open spec fn parse(d: Doc, at: Seq<char>) -> Result<Doc, Fault> {
        match d {
            Doc::Object(m) => {
                let animation = field::<Animation>(m, "animation"@);
                let caption = field::<FormattedText>(m, "caption"@);
                let is_secret = field::<bool>(m, "isSecret"@);
                if animation is Err {
                    animation
                } else if caption is Err {
                    caption
                } else if is_secret is Err {
                    is_secret
                } else {
                    Ok(
                        tagged(
                            Map::empty()
                                .insert("animation"@, animation->Ok_0)
                                .insert("caption"@, caption->Ok_0)
                                .insert("isSecret"@, is_secret->Ok_0),
                            "messageAnimation"@,
                        ),
                    )
                }
            },
            _ => Err(Fault::TypeMismatch(at)),
        }
    }

    fn encode(&self) -> (j: Json) {
        proof {
            reveal(<MessageAnimation as Wire>::wire);
        }
        let mut members: Vec<Member> = Vec::new();
        put(&mut members, "animation", self.animation.encode());
        put(&mut members, "caption", self.caption.encode());
        put(&mut members, "isSecret", self.is_secret.encode());
        seal(members, "messageAnimation")
    }

    fn decode(j: &Json, at: &str) -> (r: Result<Self, DecodeError>) {
        proof {
            reveal(<MessageAnimation as Wire>::wire);
            reveal(<MessageAnimation as Wire>::parse);
        }
        let members = members_of(j, at)?;
        let animation = read_field::<Animation>(members, "animation")?;
        let caption = read_field::<FormattedText>(members, "caption")?;
        let is_secret = read_field::<bool>(members, "isSecret")?;
        Ok(MessageAnimation { animation, caption, is_secret })
    }

    proof fn round_trip(&self, at: Seq<char>) {
        reveal(<MessageAnimation as Wire>::wire);
        reveal(<MessageAnimation as Wire>::parse);
        reveal_strlit("@type");
        reveal_strlit("animation");
        reveal_strlit("caption");
        reveal_strlit("isSecret");
        assert("@type"@.len() == 5);
        assert("animation"@.len() == 9);
        assert("caption"@.len() == 7);
        assert("isSecret"@.len() == 8);
        self.animation.round_trip("animation"@);
        self.caption.round_trip("caption"@);
        self.is_secret.round_trip("isSecret"@);
    }
}

impl Tagged for MessageAnimation {
    open spec fn known(tag: Seq<char>) -> bool {
        tag == "messageAnimation"@
    }

    fn knows(tag: &str) -> (r: bool) {
        same_text(tag, "messageAnimation")
    }

    proof fn tag_known(&self) {
        reveal(<MessageAnimation as Wire>::wire);
        assert(tag_of(self.wire()) == Some("messageAnimation"@));
        assert(Self::known("messageAnimation"@));
    }
}

/// An audio message
#[derive(Debug, Clone, PartialEq)]
pub struct MessageAudio {
    /// The audio description
    pub audio: Audio,
    /// Audio caption
    pub caption: FormattedText,
}

impl Wire for MessageAudio {
    #[verifier::opaque]
    open spec fn wire(&self) -> Doc {
        tagged(
            Map::empty()
                .insert("audio"@, self.audio.wire())
                .insert("caption"@, self.caption.wire()),
            "messageAudio"@,
        )
    }

    #[verifier::opaque]
    open spec fn parse(d: Doc, at: Seq<char>) -> Result<Doc, Fault> {
        match d {
            Doc::Object(m) => {
                let audio = field::<Audio>(m, "audio"@);
                let caption = field::<FormattedText>(m, "caption"@);
                if audio is Err {
                    audio
                } else if caption is Err {
                    caption
                } else {
                    Ok(
                        tagged(
                            Map::empty()
                                .insert("audio"@, audio->Ok_0)
                                .insert("caption"@, caption->Ok_0),
                            "messageAudio"@,
                        ),
                    )
                }
            },
            _ => Err(Fault::TypeMismatch(at)),
        }
    }

    fn encode(&self) -> (j: Json) {
        proof {
            reveal(<MessageAudio as Wire>::wire);
        }
        let mut members: Vec<Member> = Vec::new();
        put(&mut members, "audio", self.audio.encode());
        put(&mut members, "caption", self.caption.encode());
        seal(members, "messageAudio")
    }

    fn decode(j: &Json, at: &str) -> (r: Result<Self, DecodeError>) {
        proof {
            reveal(<MessageAudio as Wire>::wire);
            reveal(<MessageAudio as Wire>::parse);
        }
        let members = members_of(j, at)?;
        let audio = read_field::<Audio>(members, "audio")?;
        let caption = read_field::<FormattedText>(members, "caption")?;
        Ok(MessageAudio { audio, caption })
    }

    proof fn round_trip(&self, at: Seq<char>) {
        reveal(<MessageAudio as Wire>::wire);
        reveal(<MessageAudio as Wire>::parse);
        reveal_strlit("@type");
        reveal_strlit("audio");
        reveal_strlit("caption");
        assert("@type"@.len() == 5 && "@type"@[0] == '@');
        assert("audio"@.len() == 5 && "audio"@[0] == 'a');
        assert("caption"@.len() == 7);
        self.audio.round_trip("audio"@);
        self.caption.round_trip("caption"@);
    }
}

impl Tagged for MessageAudio {
    open spec fn known(tag: Seq<char>) -> bool {
        tag == "messageAudio"@
    }

    fn knows(tag: &str) -> (r: bool) {
        same_text(tag, "messageAudio")
    }

    proof fn tag_known(&self) {
        reveal(<MessageAudio as Wire>::wire);
        assert(tag_of(self.wire()) == Some("messageAudio"@));
        assert(Self::known("messageAudio"@));
    }
}

/// A document message (general file)
#[derive(Debug, Clone, PartialEq)]
pub struct MessageDocument {
    /// The document description
    pub document: Document,
    /// Document caption
    pub caption: FormattedText,
}

impl Wire for MessageDocument {
    #[verifier::opaque]
    open spec fn wire(&self) -> Doc {
        tagged(
            Map::empty()
                .insert("document"@, self.document.wire())
                .insert("caption"@, self.caption.wire()),
            "messageDocument"@,
        )
    }

    #[verifier::opaque]
    open spec fn parse(d: Doc, at: Seq<char>) -> Result<Doc, Fault> {
        match d {
            Doc::Object(m) => {
                let document = field::<Document>(m, "document"@);
                let caption = field::<FormattedText>(m, "caption"@);
                if document is Err {
                    document
                } else if caption is Err {
                    caption
                } else {
                    Ok(
                        tagged(
                            Map::empty()
                                .insert("document"@, document->Ok_0)
                                .insert("caption"@, caption->Ok_0),
                            "messageDocument"@,
                        ),
                    )
                }
            },
            _ => Err(Fault::TypeMismatch(at)),
        }
    }

    fn encode(&self) -> (j: Json) {
        proof {
            reveal(<MessageDocument as Wire>::wire);
        }
        let mut members: Vec<Member> = Vec::new();
        put(&mut members, "document", self.document.encode());
        put(&mut members, "caption", self.caption.encode());
        seal(members, "messageDocument")
    }

    fn decode(j: &Json, at: &str) -> (r: Result<Self, DecodeError>) {
        proof {
            reveal(<MessageDocument as Wire>::wire);
            reveal(<MessageDocument as Wire>::parse);
        }
        let members = members_of(j, at)?;
        let document = read_field::<Document>(members, "document")?;
        let caption = read_field::<FormattedText>(members, "caption")?;
        Ok(MessageDocument { document, caption })
    }

    proof fn round_trip(&self, at: Seq<char>) {
        reveal(<MessageDocument as Wire>::wire);
        reveal(<MessageDocument as Wire>::parse);
        reveal_strlit("@type");
        reveal_strlit("caption");
        reveal_strlit("document");
        assert("@type"@.len() == 5);
        assert("caption"@.len() == 7);
        assert("document"@.len() == 8);
        self.document.round_trip("document"@);
        self.caption.round_trip("caption"@);
    }
}

impl Tagged for MessageDocument {
    open spec fn known(tag: Seq<char>) -> bool {
        tag == "messageDocument"@
    }

    fn knows(tag: &str) -> (r: bool) {
        same_text(tag, "messageDocument")
    }

    proof fn tag_known(&self) {
        reveal(<MessageDocument as Wire>::wire);
        assert(tag_of(self.wire()) == Some("messageDocument"@));
        assert(Self::known("messageDocument"@));
    }
}

/// A photo message
#[derive(Debug, Clone, PartialEq)]
pub struct MessagePhoto {
    /// The photo description
    pub photo: Photo,
    /// Photo caption
    pub caption: FormattedText,
    /// True, if the photo must be blurred and must be shown only while tapped
    pub is_secret: bool,
}

impl Wire for MessagePhoto {
    #[verifier::opaque]
    open spec fn wire(&self) -> Doc {
        tagged(
            Map::empty()
                .insert("photo"@, self.photo.wire())
                .insert("caption"@, self.caption.wire())
                .insert("isSecret"@, self.is_secret.wire()),
            "messagePhoto"@,
        )
    }

    #[verifier::opaque]
    open spec fn parse(d: Doc, at: Seq<char>) -> Result<Doc, Fault> {
        match d {
            Doc::Object(m) => {
                let photo = field::<Photo>(m, "photo"@);
                let caption = field::<FormattedText>(m, "caption"@);
                let is_secret = field::<bool>(m, "isSecret"@);
                if photo is Err {
                    photo
                } else if caption is Err {
                    caption
                } else if is_secret is Err {
                    is_secret
                } else {
                    Ok(
                        tagged(
                            Map::empty()
                                .insert("photo"@, photo->Ok_0)
                                .insert("caption"@, caption->Ok_0)
                                .insert("isSecret"@, is_secret->Ok_0),
                            "messagePhoto"@,
                        ),
                    )
                }
            },
            _ => Err(Fault::TypeMismatch(at)),
        }
    }

    fn encode(&self) -> (j: Json) {
        proof {
            reveal(<MessagePhoto as Wire>::wire);
        }
        let mut members: Vec<Member> = Vec::new();
        put(&mut members, "photo", self.photo.encode());
        put(&mut members, "caption", self.caption.encode());
        put(&mut members, "isSecret", self.is_secret.encode());
        seal(members, "messagePhoto")
    }

    fn decode(j: &Json, at: &str) -> (r: Result<Self, DecodeError>) {
        proof {
            reveal(<MessagePhoto as Wire>::wire);
            reveal(<MessagePhoto as Wire>::parse);
        }
        let members = members_of(j, at)?;
        let photo = read_field::<Photo>(members, "photo")?;
        let caption = read_field::<FormattedText>(members, "caption")?;
        let is_secret = read_field::<bool>(members, "isSecret")?;
        Ok(MessagePhoto { photo, caption, is_secret })
    }

    proof fn round_trip(&self, at: Seq<char>) {
        reveal(<MessagePhoto as Wire>::wire);
        reveal(<MessagePhoto as Wire>::parse);
        reveal_strlit("@type");
        reveal_strlit("caption");
        reveal_strlit("isSecret");
        reveal_strlit("photo");
        assert("@type"@.len() == 5 && "@type"@[0] == '@');
        assert("caption"@.len() == 7);
        assert("isSecret"@.len() == 8);
        assert("photo"@.len() == 5 && "photo"@[0] == 'p');
        self.photo.round_trip("photo"@);
        self.caption.round_trip("caption"@);
        self.is_secret.round_trip("isSecret"@);
    }
}

impl Tagged for MessagePhoto {
    open spec fn known(tag: Seq<char>) -> bool {
        tag == "messagePhoto"@
    }

    fn knows(tag: &str) -> (r: bool) {
        same_text(tag, "messagePhoto")
    }

    proof fn tag_known(&self) {
        reveal(<MessagePhoto as Wire>::wire);
        assert(tag_of(self.wire()) == Some("messagePhoto"@));
        assert(Self::known("messagePhoto"@));
    }
}

/// An expired photo message (self-destructed after TTL has elapsed)
#[derive(Debug, Clone, PartialEq)]
pub struct MessageExpiredPhoto {}

impl Wire for MessageExpiredPhoto {
    #[verifier::opaque]
    open spec fn wire(&self) -> Doc {
        tagged(Map::empty(), "messageExpiredPhoto"@)
    }

    #[verifier::opaque]
    open spec fn parse(d: Doc, at: Seq<char>) -> Result<Doc, Fault> {
        match d {
            Doc::Object(_) => Ok(tagged(Map::empty(), "messageExpiredPhoto"@)),
            _ => Err(Fault::TypeMismatch(at)),
        }
    }

    fn encode(&self) -> (j: Json) {
        proof {
            reveal(<MessageExpiredPhoto as Wire>::wire);
        }
        seal(Vec::new(), "messageExpiredPhoto")
    }

    fn decode(j: &Json, at: &str) -> (r: Result<Self, DecodeError>) {
        proof {
            reveal(<MessageExpiredPhoto as Wire>::wire);
            reveal(<MessageExpiredPhoto as Wire>::parse);
        }
        let _ = members_of(j, at)?;
        Ok(MessageExpiredPhoto {})
    }

    proof fn round_trip(&self, at: Seq<char>) {
        reveal(<MessageExpiredPhoto as Wire>::wire);
        reveal(<MessageExpiredPhoto as Wire>::parse);
    }
}

impl Tagged for MessageExpiredPhoto {
    open spec fn known(tag: Seq<char>) -> bool {
        tag == "messageExpiredPhoto"@
    }

    fn knows(tag: &str) -> (r: bool) {
        same_text(tag, "messageExpiredPhoto")
    }

    proof fn tag_known(&self) {
        reveal(<MessageExpiredPhoto as Wire>::wire);
        assert(tag_of(self.wire()) == Some("messageExpiredPhoto"@));
        assert(Self::known("messageExpiredPhoto"@));
    }
}

/// A sticker message
#[derive(Debug, Clone, PartialEq)]
pub struct MessageSticker {
    /// The sticker description
    pub sticker: Sticker,
}

impl Wire for MessageSticker {
    #[verifier::opaque]
    open spec fn wire(&self) -> Doc {
        tagged(
            Map::empty()
                .insert("sticker"@, self.sticker.wire()),
            "messageSticker"@,
        )
    }

    #[verifier::opaque]
    open spec fn parse(d: Doc, at: Seq<char>) -> Result<Doc, Fault> {
        match d {
            Doc::Object(m) => {
                let sticker = field::<Sticker>(m, "sticker"@);
                if sticker is Err {
                    sticker
                } else {
                    Ok(
                        tagged(
                            Map::empty()
                                .insert("sticker"@, sticker->Ok_0),
                            "messageSticker"@,
                        ),
                    )
                }
            },
            _ => Err(Fault::TypeMismatch(at)),
        }
    }

    fn encode(&self) -> (j: Json) {
        proof {
            reveal(<MessageSticker as Wire>::wire);
        }
        let mut members: Vec<Member> = Vec::new();
        put(&mut members, "sticker", self.sticker.encode());
        seal(members, "messageSticker")
    }

    fn decode(j: &Json, at: &str) -> (r: Result<Self, DecodeError>) {
        proof {
            reveal(<MessageSticker as Wire>::wire);
            reveal(<MessageSticker as Wire>::parse);
        }
        let members = members_of(j, at)?;
        let sticker = read_field::<Sticker>(members, "sticker")?;
        Ok(MessageSticker { sticker })
    }

    proof fn round_trip(&self, at: Seq<char>) {
        reveal(<MessageSticker as Wire>::wire);
        reveal(<MessageSticker as Wire>::parse);
        reveal_strlit("@type");
        reveal_strlit("sticker");
        assert("@type"@.len() == 5);
        assert("sticker"@.len() == 7);
        self.sticker.round_trip("sticker"@);
    }
}

impl Tagged for MessageSticker {
    open spec fn known(tag: Seq<char>) -> bool {
        tag == "messageSticker"@
    }

    fn knows(tag: &str) -> (r: bool) {
        same_text(tag, "messageSticker")
    }

    proof fn tag_known(&self) {
        reveal(<MessageSticker as Wire>::wire);
        assert(tag_of(self.wire()) == Some("messageSticker"@));
        assert(Self::known("messageSticker"@));
    }
}

/// A video message
#[derive(Debug, Clone, PartialEq)]
pub struct MessageVideo {
    /// The video description
    pub video: Video,
    /// Video caption
    pub caption: FormattedText,
    /// True, if the video thumbnail must be blurred and the video must be shown only while tapped
    pub is_secret: bool,
}

impl Wire for MessageVideo {
    #[verifier::opaque]
    open spec fn wire(&self) -> Doc {
        tagged(
            Map::empty()
                .insert("video"@, self.video.wire())
                .insert("caption"@, self.caption.wire())
                .insert("isSecret"@, self.is_secret.wire()),
            "messageVideo"@,
        )
    }

    #[verifier::opaque]
    open spec fn parse(d: Doc, at: Seq<char>) -> Result<Doc, Fault> {
        match d {
            Doc::Object(m) => {
                let video = field::<Video>(m, "video"@);
                let caption = field::<FormattedText>(m, "caption"@);
                let is_secret = field::<bool>(m, "isSecret"@);
                if video is Err {
                    video
                } else if caption is Err {
                    caption
                } else if is_secret is Err {
                    is_secret
                } else {
                    Ok(
                        tagged(
                            Map::empty()
                                .insert("video"@, video->Ok_0)
                                .insert("caption"@, caption->Ok_0)
                                .insert("isSecret"@, is_secret->Ok_0),
                            "messageVideo"@,
                        ),
                    )
                }
            },
            _ => Err(Fault::TypeMismatch(at)),
        }
    }

    fn encode(&self) -> (j: Json) {
        proof {
            reveal(<MessageVideo as Wire>::wire);
        }
        let mut members: Vec<Member> = Vec::new();
        put(&mut members, "video", self.video.encode());
        put(&mut members, "caption", self.caption.encode());
        put(&mut members, "isSecret", self.is_secret.encode());
        seal(members, "messageVideo")
    }

    fn decode(j: &Json, at: &str) -> (r: Result<Self, DecodeError>) {
        proof {
            reveal(<MessageVideo as Wire>::wire);
            reveal(<MessageVideo as Wire>::parse);
        }
        let members = members_of(j, at)?;
        let video = read_field::<Video>(members, "video")?;
        let caption = read_field::<FormattedText>(members, "caption")?;
        let is_secret = read_field::<bool>(members, "isSecret")?;
        Ok(MessageVideo { video, caption, is_secret })
    }

    proof fn round_trip(&self, at: Seq<char>) {
        reveal(<MessageVideo as Wire>::wire);
        reveal(<MessageVideo as Wire>::parse);
        reveal_strlit("@type");
        reveal_strlit("caption");
        reveal_strlit("isSecret");
        reveal_strlit("video");
        assert("@type"@.len() == 5 && "@type"@[0] == '@');
        assert("caption"@.len() == 7);
        assert("isSecret"@.len() == 8);
        assert("video"@.len() == 5 && "video"@[0] == 'v');
        self.video.round_trip("video"@);
        self.caption.round_trip("caption"@);
        self.is_secret.round_trip("isSecret"@);
    }
}

impl Tagged for MessageVideo {
    open spec fn known(tag: Seq<char>) -> bool {
        tag == "messageVideo"@
    }

    fn knows(tag: &str) -> (r: bool) {
        same_text(tag, "messageVideo")
    }

    proof fn tag_known(&self) {
        reveal(<MessageVideo as Wire>::wire);
        assert(tag_of(self.wire()) == Some("messageVideo"@));
        assert(Self::known("messageVideo"@));
    }
}

/// An expired video message (self-destructed after TTL has elapsed)
#[derive(Debug, Clone, PartialEq)]
pub struct MessageExpiredVideo {}

impl Wire for MessageExpiredVideo {
    #[verifier::opaque]
    open spec fn wire(&self) -> Doc {
        tagged(Map::empty(), "messageExpiredVideo"@)
    }

    #[verifier::opaque]
    open spec fn parse(d: Doc, at: Seq<char>) -> Result<Doc, Fault> {
        match d {
            Doc::Object(_) => Ok(tagged(Map::empty(), "messageExpiredVideo"@)),
            _ => Err(Fault::TypeMismatch(at)),
        }
    }

    fn encode(&self) -> (j: Json) {
        proof {
            reveal(<MessageExpiredVideo as Wire>::wire);
        }
        seal(Vec::new(), "messageExpiredVideo")
    }

    fn decode(j: &Json, at: &str) -> (r: Result<Self, DecodeError>) {
        proof {
            reveal(<MessageExpiredVideo as Wire>::wire);
            reveal(<MessageExpiredVideo as Wire>::parse);
        }
        let _ = members_of(j, at)?;
        Ok(MessageExpiredVideo {})
    }

    proof fn round_trip(&self, at: Seq<char>) {
        reveal(<MessageExpiredVideo as Wire>::wire);
        reveal(<MessageExpiredVideo as Wire>::parse);
    }
}

impl Tagged for MessageExpiredVideo {
    open spec fn known(tag: Seq<char>) -> bool {
        tag == "messageExpiredVideo"@
    }

    fn knows(tag: &str) -> (r: bool) {
        same_text(tag, "messageExpiredVideo")
    }

    proof fn tag_known(&self) {
        reveal(<MessageExpiredVideo as Wire>::wire);
        assert(tag_of(self.wire()) == Some("messageExpiredVideo"@));
        assert(Self::known("messageExpiredVideo"@));
    }
}

/// A video note message
#[derive(Debug, Clone, PartialEq)]
pub struct MessageVideoNote {
    /// The video note description
    pub video_note: VideoNote,
    /// True, if at least one of the recipients has viewed the video note
    pub is_viewed: bool,
    /// True, if the video note thumbnail must be blurred and the video note must be shown only
    /// while tapped
    pub is_secret: bool,
}

impl Wire for MessageVideoNote {
    #[verifier::opaque]
    open spec fn wire(&self) -> Doc {
        tagged(
            Map::empty()
                .insert("videoNote"@, self.video_note.wire())
                .insert("isViewed"@, self.is_viewed.wire())
                .insert("isSecret"@, self.is_secret.wire()),
            "messageVideoNote"@,
        )
    }

    #[verifier::opaque]
    open spec fn parse(d: Doc, at: Seq<char>) -> Result<Doc, Fault> {
        match d {
            Doc::Object(m) => {
                let video_note = field::<VideoNote>(m, "videoNote"@);
                let is_viewed = field::<bool>(m, "isViewed"@);
                let is_secret = field::<bool>(m, "isSecret"@);
                if video_note is Err {
                    video_note
                } else if is_viewed is Err {
                    is_viewed
                } else if is_secret is Err {
                    is_secret
                } else {
                    Ok(
                        tagged(
                            Map::empty()
                                .insert("videoNote"@, video_note->Ok_0)
                                .insert("isViewed"@, is_viewed->Ok_0)
                                .insert("isSecret"@, is_secret->Ok_0),
                            "messageVideoNote"@,
                        ),
                    )
                }
            },
            _ => Err(Fault::TypeMismatch(at)),
        }
    }

    fn encode(&self) -> (j: Json) {
        proof {
            reveal(<MessageVideoNote as Wire>::wire);
        }
        let mut members: Vec<Member> = Vec::new();
        put(&mut members, "videoNote", self.video_note.encode());
        put(&mut members, "isViewed", self.is_viewed.encode());
        put(&mut members, "isSecret", self.is_secret.encode());
        seal(members, "messageVideoNote")
    }

    fn decode(j: &Json, at: &str) -> (r: Result<Self, DecodeError>) {
        proof {
            reveal(<MessageVideoNote as Wire>::wire);
            reveal(<MessageVideoNote as Wire>::parse);
        }
        let members = members_of(j, at)?;
        let video_note = read_field::<VideoNote>(members, "videoNote")?;
        let is_viewed = read_field::<bool>(members, "isViewed")?;
        let is_secret = read_field::<bool>(members, "isSecret")?;
        Ok(MessageVideoNote { video_note, is_viewed, is_secret })
    }

    proof fn round_trip(&self, at: Seq<char>) {
        reveal(<MessageVideoNote as Wire>::wire);
        reveal(<MessageVideoNote as Wire>::parse);
        reveal_strlit("@type");
        reveal_strlit("isSecret");
        reveal_strlit("isViewed");
        reveal_strlit("videoNote");
        assert("@type"@.len() == 5);
        assert("isSecret"@.len() == 8 && "isSecret"@[2] == 'S');
        assert("isViewed"@.len() == 8 && "isViewed"@[2] == 'V');
        assert("videoNote"@.len() == 9);
        self.video_note.round_trip("videoNote"@);
        self.is_viewed.round_trip("isViewed"@);
        self.is_secret.round_trip("isSecret"@);
    }
}

impl Tagged for MessageVideoNote {
    open spec fn known(tag: Seq<char>) -> bool {
        tag == "messageVideoNote"@
    }

    fn knows(tag: &str) -> (r: bool) {
        same_text(tag, "messageVideoNote")
    }

    proof fn tag_known(&self) {
        reveal(<MessageVideoNote as Wire>::wire);
        assert(tag_of(self.wire()) == Some("messageVideoNote"@));
        assert(Self::known("messageVideoNote"@));
    }
}

/// A voice note message
#[derive(Debug, Clone, PartialEq)]
pub struct MessageVoiceNote {
    /// The voice note description
    pub voice_note: VoiceNote,
    /// Voice note caption
    pub caption: FormattedText,
    /// True, if at least one of the recipients has listened to the voice note
    pub is_listened: bool,
}

impl Wire for MessageVoiceNote {
    #[verifier::opaque]
    open spec fn wire(&self) -> Doc {
        tagged(
            Map::empty()
                .insert("voiceNote"@, self.voice_note.wire())
                .insert("caption"@, self.caption.wire())
                .insert("isListened"@, self.is_listened.wire()),
            "messageVoiceNote"@,
        )
    }

    #[verifier::opaque]
    open spec fn parse(d: Doc, at: Seq<char>) -> Result<Doc, Fault> {
        match d {
            Doc::Object(m) => {
                let voice_note = field::<VoiceNote>(m, "voiceNote"@);
                let caption = field::<FormattedText>(m, "caption"@);
                let is_listened = field::<bool>(m, "isListened"@);
                if voice_note is Err {
                    voice_note
                } else if caption is Err {
                    caption
                } else if is_listened is Err {
                    is_listened
                } else {
                    Ok(
                        tagged(
                            Map::empty()
                                .insert("voiceNote"@, voice_note->Ok_0)
                                .insert("caption"@, caption->Ok_0)
                                .insert("isListened"@, is_listened->Ok_0),
                            "messageVoiceNote"@,
                        ),
                    )
                }
            },
            _ => Err(Fault::TypeMismatch(at)),
        }
    }

    fn encode(&self) -> (j: Json) {
        proof {
            reveal(<MessageVoiceNote as Wire>::wire);
        }
        let mut members: Vec<Member> = Vec::new();
        put(&mut members, "voiceNote", self.voice_note.encode());
        put(&mut members, "caption", self.caption.encode());
        put(&mut members, "isListened", self.is_listened.encode());
        seal(members, "messageVoiceNote")
    }

    fn decode(j: &Json, at: &str) -> (r: Result<Self, DecodeError>) {
        proof {
            reveal(<MessageVoiceNote as Wire>::wire);
            reveal(<MessageVoiceNote as Wire>::parse);
        }
        let members = members_of(j, at)?;
        let voice_note = read_field::<VoiceNote>(members, "voiceNote")?;
        let caption = read_field::<FormattedText>(members, "caption")?;
        let is_listened = read_field::<bool>(members, "isListened")?;
        Ok(MessageVoiceNote { voice_note, caption, is_listened })
    }

    proof fn round_trip(&self, at: Seq<char>) {
        reveal(<MessageVoiceNote as Wire>::wire);
        reveal(<MessageVoiceNote as Wire>::parse);
        reveal_strlit("@type");
        reveal_strlit("caption");
        reveal_strlit("isListened");
        reveal_strlit("voiceNote");
        assert("@type"@.len() == 5);
        assert("caption"@.len() == 7);
        assert("isListened"@.len() == 10);
        assert("voiceNote"@.len() == 9);
        self.voice_note.round_trip("voiceNote"@);
        self.caption.round_trip("caption"@);
        self.is_listened.round_trip("isListened"@);
    }
}

impl Tagged for MessageVoiceNote {
    open spec fn known(tag: Seq<char>) -> bool {
        tag == "messageVoiceNote"@
    }

    fn knows(tag: &str) -> (r: bool) {
        same_text(tag, "messageVoiceNote")
    }

    proof fn tag_known(&self) {
        reveal(<MessageVoiceNote as Wire>::wire);
        assert(tag_of(self.wire()) == Some("messageVoiceNote"@));
        assert(Self::known("messageVoiceNote"@));
    }
}

/// A message with a location
#[derive(Debug, Clone, PartialEq)]
pub struct MessageLocation {
    /// The location description
    pub location: Location,
    /// Time relative to the message sent date until which the location can be updated, in seconds
    pub live_period: i32,
    /// Left time for which the location can be updated, in seconds. updateMessageContent is not
    /// sent when this field changes
    pub expires_in: i32,
}

impl Wire for MessageLocation {
    #[verifier::opaque]
    open spec fn wire(&self) -> Doc {
        tagged(
            Map::empty()
                .insert("location"@, self.location.wire())
                .insert("livePeriod"@, self.live_period.wire())
                .insert("expiresIn"@, self.expires_in.wire()),
            "messageLocation"@,
        )
    }

    #[verifier::opaque]
    open spec fn parse(d: Doc, at: Seq<char>) -> Result<Doc, Fault> {
        match d {
            Doc::Object(m) => {
                let location = field::<Location>(m, "location"@);
                let live_period = field::<i32>(m, "livePeriod"@);
                let expires_in = field::<i32>(m, "expiresIn"@);
                if location is Err {
                    location
                } else if live_period is Err {
                    live_period
                } else if expires_in is Err {
                    expires_in
                } else {
                    Ok(
                        tagged(
                            Map::empty()
                                .insert("location"@, location->Ok_0)
                                .insert("livePeriod"@, live_period->Ok_0)
                                .insert("expiresIn"@, expires_in->Ok_0),
                            "messageLocation"@,
                        ),
                    )
                }
            },
            _ => Err(Fault::TypeMismatch(at)),
        }
    }

    fn encode(&self) -> (j: Json) {
        proof {
            reveal(<MessageLocation as Wire>::wire);
        }
        let mut members: Vec<Member> = Vec::new();
        put(&mut members, "location", self.location.encode());
        put(&mut members, "livePeriod", self.live_period.encode());
        put(&mut members, "expiresIn", self.expires_in.encode());
        seal(members, "messageLocation")
    }

    fn decode(j: &Json, at: &str) -> (r: Result<Self, DecodeError>) {
        proof {
            reveal(<MessageLocation as Wire>::wire);
            reveal(<MessageLocation as Wire>::parse);
        }
        let members = members_of(j, at)?;
        let location = read_field::<Location>(members, "location")?;
        let live_period = read_field::<i32>(members, "livePeriod")?;
        let expires_in = read_field::<i32>(members, "expiresIn")?;
        Ok(MessageLocation { location, live_period, expires_in })
    }

    proof fn round_trip(&self, at: Seq<char>) {
        reveal(<MessageLocation as Wire>::wire);
        reveal(<MessageLocation as Wire>::parse);
        reveal_strlit("@type");
        reveal_strlit("expiresIn");
        reveal_strlit("livePeriod");
        reveal_strlit("location");
        assert("@type"@.len() == 5);
        assert("expiresIn"@.len() == 9);
        assert("livePeriod"@.len() == 10);
        assert("location"@.len() == 8);
        self.location.round_trip("location"@);
        self.live_period.round_trip("livePeriod"@);
        self.expires_in.round_trip("expiresIn"@);
    }
}

impl Tagged for MessageLocation {
    open spec fn known(tag: Seq<char>) -> bool {
        tag == "messageLocation"@
    }

    fn knows(tag: &str) -> (r: bool) {
        same_text(tag, "messageLocation")
    }

    proof fn tag_known(&self) {
        reveal(<MessageLocation as Wire>::wire);
        assert(tag_of(self.wire()) == Some("messageLocation"@));
        assert(Self::known("messageLocation"@));
    }
}

/// A message with information about a venue
#[derive(Debug, Clone, PartialEq)]
pub struct MessageVenue {
    /// The venue description
    pub venue: Venue,
}

impl Wire for MessageVenue {
    #[verifier::opaque]
    open spec fn wire(&self) -> Doc {
        tagged(
            Map::empty()
                .insert("venue"@, self.venue.wire()),
            "messageVenue"@,
        )
    }

    #[verifier::opaque]
    open spec fn parse(d: Doc, at: Seq<char>) -> Result<Doc, Fault> {
        match d {
            Doc::Object(m) => {
                let venue = field::<Venue>(m, "venue"@);
                if venue is Err {
                    venue
                } else {
                    Ok(
                        tagged(
                            Map::empty()
                                .insert("venue"@, venue->Ok_0),
                            "messageVenue"@,
                        ),
                    )
                }
            },
            _ => Err(Fault::TypeMismatch(at)),
        }
    }

    fn encode(&self) -> (j: Json) {
        proof {
            reveal(<MessageVenue as Wire>::wire);
        }
        let mut members: Vec<Member> = Vec::new();
        put(&mut members, "venue", self.venue.encode());
        seal(members, "messageVenue")
    }

    fn decode(j: &Json, at: &str) -> (r: Result<Self, DecodeError>) {
        proof {
            reveal(<MessageVenue as Wire>::wire);
            reveal(<MessageVenue as Wire>::parse);
        }
        let members = members_of(j, at)?;
        let venue = read_field::<Venue>(members, "venue")?;
        Ok(MessageVenue { venue })
    }

    proof fn round_trip(&self, at: Seq<char>) {
        reveal(<MessageVenue as Wire>::wire);
        reveal(<MessageVenue as Wire>::parse);
        reveal_strlit("@type");
        reveal_strlit("venue");
        assert("@type"@.len() == 5 && "@type"@[0] == '@');
        assert("venue"@.len() == 5 && "venue"@[0] == 'v');
        self.venue.round_trip("venue"@);
    }
}

impl Tagged for MessageVenue {
    open spec fn known(tag: Seq<char>) -> bool {
        tag == "messageVenue"@
    }

    fn knows(tag: &str) -> (r: bool) {
        same_text(tag, "messageVenue")
    }

    proof fn tag_known(&self) {
        reveal(<MessageVenue as Wire>::wire);
        assert(tag_of(self.wire()) == Some("messageVenue"@));
        assert(Self::known("messageVenue"@));
    }
}

/// A message with a user contact
#[derive(Debug, Clone, PartialEq)]
pub struct MessageContact {
    /// The contact description
    pub contact: Contact,
}

impl Wire for MessageContact {
    #[verifier::opaque]
    open spec fn wire(&self) -> Doc {
        tagged(
            Map::empty()
                .insert("contact"@, self.contact.wire()),
            "messageContact"@,
        )
    }

    #[verifier::opaque]
    open spec fn parse(d: Doc, at: Seq<char>) -> Result<Doc, Fault> {
        match d {
            Doc::Object(m) => {
                let contact = field::<Contact>(m, "contact"@);
                if contact is Err {
                    contact
                } else {
                    Ok(
                        tagged(
                            Map::empty()
                                .insert("contact"@, contact->Ok_0),
                            "messageContact"@,
                        ),
                    )
                }
            },
            _ => Err(Fault::TypeMismatch(at)),
        }
    }

    fn encode(&self) -> (j: Json) {
        proof {
            reveal(<MessageContact as Wire>::wire);
        }
        let mut members: Vec<Member> = Vec::new();
        put(&mut members, "contact", self.contact.encode());
        seal(members, "messageContact")
    }

    fn decode(j: &Json, at: &str) -> (r: Result<Self, DecodeError>) {
        proof {
            reveal(<MessageContact as Wire>::wire);
            reveal(<MessageContact as Wire>::parse);
        }
        let members = members_of(j, at)?;
        let contact = read_field::<Contact>(members, "contact")?;
        Ok(MessageContact { contact })
    }

    proof fn round_trip(&self, at: Seq<char>) {
        reveal(<MessageContact as Wire>::wire);
        reveal(<MessageContact as Wire>::parse);
        reveal_strlit("@type");
        reveal_strlit("contact");
        assert("@type"@.len() == 5);
        assert("contact"@.len() == 7);
        self.contact.round_trip("contact"@);
    }
}

impl Tagged for MessageContact {
    open spec fn known(tag: Seq<char>) -> bool {
        tag == "messageContact"@
    }

    fn knows(tag: &str) -> (r: bool) {
        same_text(tag, "messageContact")
    }

    proof fn tag_known(&self) {
        reveal(<MessageContact as Wire>::wire);
        assert(tag_of(self.wire()) == Some("messageContact"@));
        assert(Self::known("messageContact"@));
    }
}

/// A message with a game
#[derive(Debug, Clone, PartialEq)]
pub struct MessageGame {
    /// The game description
    pub game: Game,
}

impl Wire for MessageGame {
    #[verifier::opaque]
    open spec fn wire(&self) -> Doc {
        tagged(
            Map::empty()
                .insert("game"@, self.game.wire()),
            "messageGame"@,
        )
    }

    #[verifier::opaque]
    open spec fn parse(d: Doc, at: Seq<char>) -> Result<Doc, Fault> {
        match d {
            Doc::Object(m) => {
                let game = field::<Game>(m, "game"@);
                if game is Err {
                    game
                } else {
                    Ok(
                        tagged(
                            Map::empty()
                                .insert("game"@, game->Ok_0),
                            "messageGame"@,
                        ),
                    )
                }
            },
            _ => Err(Fault::TypeMismatch(at)),
        }
    }

    fn encode(&self) -> (j: Json) {
        proof {
            reveal(<MessageGame as Wire>::wire);
        }
        let mut members: Vec<Member> = Vec::new();
        put(&mut members, "game", self.game.encode());
        seal(members, "messageGame")
    }

    fn decode(j: &Json, at: &str) -> (r: Result<Self, DecodeError>) {
        proof {
            reveal(<MessageGame as Wire>::wire);
            reveal(<MessageGame as Wire>::parse);
        }
        let members = members_of(j, at)?;
        let game = read_field::<Game>(members, "game")?;
        Ok(MessageGame { game })
    }

    proof fn round_trip(&self, at: Seq<char>) {
        reveal(<MessageGame as Wire>::wire);
        reveal(<MessageGame as Wire>::parse);
        reveal_strlit("@type");
        reveal_strlit("game");
        assert("@type"@.len() == 5);
        assert("game"@.len() == 4);
        self.game.round_trip("game"@);
    }
}

impl Tagged for MessageGame {
    open spec fn known(tag: Seq<char>) -> bool {
        tag == "messageGame"@
    }

    fn knows(tag: &str) -> (r: bool) {
        same_text(tag, "messageGame")
    }

    proof fn tag_known(&self) {
        reveal(<MessageGame as Wire>::wire);
        assert(tag_of(self.wire()) == Some("messageGame"@));
        assert(Self::known("messageGame"@));
    }
}

/// A message with a poll
#[derive(Debug, Clone, PartialEq)]
pub struct MessagePoll {
    /// The poll description
    pub poll: Poll,
}

impl Wire for MessagePoll {
    #[verifier::opaque]
    open spec fn wire(&self) -> Doc {
        tagged(
            Map::empty()
                .insert("poll"@, self.poll.wire()),
            "messagePoll"@,
        )
    }

    #[verifier::opaque]
    open spec fn parse(d: Doc, at: Seq<char>) -> Result<Doc, Fault> {
        match d {
            Doc::Object(m) => {
                let poll = field::<Poll>(m, "poll"@);
                if poll is Err {
                    poll
                } else {
                    Ok(
                        tagged(
                            Map::empty()
                                .insert("poll"@, poll->Ok_0),
                            "messagePoll"@,
                        ),
                    )
                }
            },
            _ => Err(Fault::TypeMismatch(at)),
        }
    }

    fn encode(&self) -> (j: Json) {
        proof {
            reveal(<MessagePoll as Wire>::wire);
        }
        let mut members: Vec<Member> = Vec::new();
        put(&mut members, "poll", self.poll.encode());
        seal(members, "messagePoll")
    }

    fn decode(j: &Json, at: &str) -> (r: Result<Self, DecodeError>) {
        proof {
            reveal(<MessagePoll as Wire>::wire);
            reveal(<MessagePoll as Wire>::parse);
        }
        let members = members_of(j, at)?;
        let poll = read_field::<Poll>(members, "poll")?;
        Ok(MessagePoll { poll })
    }

    proof fn round_trip(&self, at: Seq<char>) {
        reveal(<MessagePoll as Wire>::wire);
        reveal(<MessagePoll as Wire>::parse);
        reveal_strlit("@type");
        reveal_strlit("poll");
        assert("@type"@.len() == 5);
        assert("poll"@.len() == 4);
        self.poll.round_trip("poll"@);
    }
}

impl Tagged for MessagePoll {
    open spec fn known(tag: Seq<char>) -> bool {
        tag == "messagePoll"@
    }

    fn knows(tag: &str) -> (r: bool) {
        same_text(tag, "messagePoll")
    }

    proof fn tag_known(&self) {
        reveal(<MessagePoll as Wire>::wire);
        assert(tag_of(self.wire()) == Some("messagePoll"@));
        assert(Self::known("messagePoll"@));
    }
}

/// A message with an invoice from a bot
#[derive(Debug, Clone, PartialEq)]
pub struct MessageInvoice {
    /// Product title
    pub title: String,
    /// A message with an invoice from a bot
    pub description: String,
    /// Product photo; may be null
    pub photo: Option<Photo>,
    /// Currency for the product price
    pub currency: String,
    /// Product total price in the minimal quantity of the currency
    pub total_amount: i64,
    /// Unique invoice bot start_parameter. To share an invoice use the URL
    /// https://t.me/{bot_username}?start={start_parameter}
    pub start_parameter: String,
    /// True, if the invoice is a test invoice
    pub is_test: bool,
    /// True, if the shipping address should be specified
    pub need_shipping_address: bool,
    /// The identifier of the message with the receipt, after the product has been purchased
    pub receipt_message_id: i64,
}

impl Wire for MessageInvoice {
    #[verifier::opaque]
    open spec fn wire(&self) -> Doc {
        tagged(
            Map::empty()
                .insert("title"@, self.title.wire())
                .insert("description"@, self.description.wire())
                .insert("photo"@, self.photo.wire())
                .insert("currency"@, self.currency.wire())
                .insert("totalAmount"@, self.total_amount.wire())
                .insert("startParameter"@, self.start_parameter.wire())
                .insert("isTest"@, self.is_test.wire())
                .insert("needShippingAddress"@, self.need_shipping_address.wire())
                .insert("receiptMessageId"@, self.receipt_message_id.wire()),
            "messageInvoice"@,
        )
    }

    #[verifier::opaque]
    open spec fn parse(d: Doc, at: Seq<char>) -> Result<Doc, Fault> {
        match d {
            Doc::Object(m) => {
                let title = field::<String>(m, "title"@);
                let description = field::<String>(m, "description"@);
                let photo = optional_field::<Photo>(m, "photo"@);
                let currency = field::<String>(m, "currency"@);
                let total_amount = field::<i64>(m, "totalAmount"@);
                let start_parameter = field::<String>(m, "startParameter"@);
                let is_test = field::<bool>(m, "isTest"@);
                let need_shipping_address = field::<bool>(m, "needShippingAddress"@);
                let receipt_message_id = field::<i64>(m, "receiptMessageId"@);
                if title is Err {
                    title
                } else if description is Err {
                    description
                } else if photo is Err {
                    photo
                } else if currency is Err {
                    currency
                } else if total_amount is Err {
                    total_amount
                } else if start_parameter is Err {
                    start_parameter
                } else if is_test is Err {
                    is_test
                } else if need_shipping_address is Err {
                    need_shipping_address
                } else if receipt_message_id is Err {
                    receipt_message_id
                } else {
                    Ok(
                        tagged(
                            Map::empty()
                                .insert("title"@, title->Ok_0)
                                .insert("description"@, description->Ok_0)
                                .insert("photo"@, photo->Ok_0)
                                .insert("currency"@, currency->Ok_0)
                                .insert("totalAmount"@, total_amount->Ok_0)
                                .insert("startParameter"@, start_parameter->Ok_0)
                                .insert("isTest"@, is_test->Ok_0)
                                .insert("needShippingAddress"@, need_shipping_address->Ok_0)
                                .insert("receiptMessageId"@, receipt_message_id->Ok_0),
                            "messageInvoice"@,
                        ),
                    )
                }
            },
            _ => Err(Fault::TypeMismatch(at)),
        }
    }

    fn encode(&self) -> (j: Json) {
        proof {
            reveal(<MessageInvoice as Wire>::wire);
        }
        let mut members: Vec<Member> = Vec::new();
        put(&mut members, "title", self.title.encode());
        put(&mut members, "description", self.description.encode());
        put(&mut members, "photo", self.photo.encode());
        put(&mut members, "currency", self.currency.encode());
        put(&mut members, "totalAmount", self.total_amount.encode());
        put(&mut members, "startParameter", self.start_parameter.encode());
        put(&mut members, "isTest", self.is_test.encode());
        put(&mut members, "needShippingAddress", self.need_shipping_address.encode());
        put(&mut members, "receiptMessageId", self.receipt_message_id.encode());
        seal(members, "messageInvoice")
    }

    fn decode(j: &Json, at: &str) -> (r: Result<Self, DecodeError>) {
        proof {
            reveal(<MessageInvoice as Wire>::wire);
            reveal(<MessageInvoice as Wire>::parse);
        }
        let members = members_of(j, at)?;
        let title = read_field::<String>(members, "title")?;
        let description = read_field::<String>(members, "description")?;
        let photo = read_optional::<Photo>(members, "photo")?;
        let currency = read_field::<String>(members, "currency")?;
        let total_amount = read_field::<i64>(members, "totalAmount")?;
        let start_parameter = read_field::<String>(members, "startParameter")?;
        let is_test = read_field::<bool>(members, "isTest")?;
        let need_shipping_address = read_field::<bool>(members, "needShippingAddress")?;
        let receipt_message_id = read_field::<i64>(members, "receiptMessageId")?;
        Ok(MessageInvoice {
            title,
            description,
            photo,
            currency,
            total_amount,
            start_parameter,
            is_test,
            need_shipping_address,
            receipt_message_id,
        })
    }

    proof fn round_trip(&self, at: Seq<char>) {
        reveal(<MessageInvoice as Wire>::wire);
        reveal(<MessageInvoice as Wire>::parse);
        reveal_strlit("@type");
        reveal_strlit("currency");
        reveal_strlit("description");
        reveal_strlit("isTest");
        reveal_strlit("needShippingAddress");
        reveal_strlit("photo");
        reveal_strlit("receiptMessageId");
        reveal_strlit("startParameter");
        reveal_strlit("title");
        reveal_strlit("totalAmount");
        assert("@type"@.len() == 5 && "@type"@[0] == '@');
        assert("currency"@.len() == 8);
        assert("description"@.len() == 11 && "description"@[0] == 'd');
        assert("isTest"@.len() == 6);
        assert("needShippingAddress"@.len() == 19);
        assert("photo"@.len() == 5 && "photo"@[0] == 'p');
        assert("receiptMessageId"@.len() == 16);
        assert("startParameter"@.len() == 14);
        assert("title"@.len() == 5 && "title"@[0] == 't');
        assert("totalAmount"@.len() == 11 && "totalAmount"@[0] == 't');
        self.title.round_trip("title"@);
        self.description.round_trip("description"@);
        self.photo.round_trip("photo"@);
        self.currency.round_trip("currency"@);
        self.total_amount.round_trip("totalAmount"@);
        self.start_parameter.round_trip("startParameter"@);
        self.is_test.round_trip("isTest"@);
        self.need_shipping_address.round_trip("needShippingAddress"@);
        self.receipt_message_id.round_trip("receiptMessageId"@);
        let m = self.wire()->Object_0;
        assert(field::<String>(m, "title"@) == Ok::<Doc, Fault>(self.title.wire()));
        assert(field::<String>(m, "description"@) == Ok::<Doc, Fault>(self.description.wire()));
        assert(optional_field::<Photo>(m, "photo"@) == Ok::<Doc, Fault>(self.photo.wire()));
        assert(field::<String>(m, "currency"@) == Ok::<Doc, Fault>(self.currency.wire()));
        assert(field::<i64>(m, "totalAmount"@) == Ok::<Doc, Fault>(self.total_amount.wire()));
        assert(field::<String>(m, "startParameter"@)
            == Ok::<Doc, Fault>(self.start_parameter.wire()));
        assert(field::<bool>(m, "isTest"@) == Ok::<Doc, Fault>(self.is_test.wire()));
        assert(field::<bool>(m, "needShippingAddress"@)
            == Ok::<Doc, Fault>(self.need_shipping_address.wire()));
        assert(field::<i64>(m, "receiptMessageId"@)
            == Ok::<Doc, Fault>(self.receipt_message_id.wire()));
    }
}

impl Tagged for MessageInvoice {
    open spec fn known(tag: Seq<char>) -> bool {
        tag == "messageInvoice"@
    }

    fn knows(tag: &str) -> (r: bool) {
        same_text(tag, "messageInvoice")
    }

    proof fn tag_known(&self) {
        reveal(<MessageInvoice as Wire>::wire);
        assert(tag_of(self.wire()) == Some("messageInvoice"@));
        assert(Self::known("messageInvoice"@));
    }
}

/// A message with information about an ended call
#[derive(Debug, Clone, PartialEq)]
pub struct MessageCall {
    /// Reason why the call was discarded
    pub discard_reason: CallDiscardReason,
    /// Call duration, in seconds
    pub duration: i32,
}

impl Wire for MessageCall {
    #[verifier::opaque]
    open spec fn wire(&self) -> Doc {
        tagged(
            Map::empty()
                .insert("discardReason"@, self.discard_reason.wire())
                .insert("duration"@, self.duration.wire()),
            "messageCall"@,
        )
    }

    #[verifier::opaque]
    open spec fn parse(d: Doc, at: Seq<char>) -> Result<Doc, Fault> {
        match d {
            Doc::Object(m) => {
                let discard_reason = field::<CallDiscardReason>(m, "discardReason"@);
                let duration = field::<i32>(m, "duration"@);
                if discard_reason is Err {
                    discard_reason
                } else if duration is Err {
                    duration
                } else {
                    Ok(
                        tagged(
                            Map::empty()
                                .insert("discardReason"@, discard_reason->Ok_0)
                                .insert("duration"@, duration->Ok_0),
                            "messageCall"@,
                        ),
                    )
                }
            },
            _ => Err(Fault::TypeMismatch(at)),
        }
    }

    fn encode(&self) -> (j: Json) {
        proof {
            reveal(<MessageCall as Wire>::wire);
        }
        let mut members: Vec<Member> = Vec::new();
        put(&mut members, "discardReason", self.discard_reason.encode());
        put(&mut members, "duration", self.duration.encode());
        seal(members, "messageCall")
    }

    fn decode(j: &Json, at: &str) -> (r: Result<Self, DecodeError>) {
        proof {
            reveal(<MessageCall as Wire>::wire);
            reveal(<MessageCall as Wire>::parse);
        }
        let members = members_of(j, at)?;
        let discard_reason = read_field::<CallDiscardReason>(members, "discardReason")?;
        let duration = read_field::<i32>(members, "duration")?;
        Ok(MessageCall { discard_reason, duration })
    }

    proof fn round_trip(&self, at: Seq<char>) {
        reveal(<MessageCall as Wire>::wire);
        reveal(<MessageCall as Wire>::parse);
        reveal_strlit("@type");
        reveal_strlit("discardReason");
        reveal_strlit("duration");
        assert("@type"@.len() == 5);
        assert("discardReason"@.len() == 13);
        assert("duration"@.len() == 8);
        self.discard_reason.round_trip("discardReason"@);
        self.duration.round_trip("duration"@);
    }
}

impl Tagged for MessageCall {
    open spec fn known(tag: Seq<char>) -> bool {
        tag == "messageCall"@
    }

    fn knows(tag: &str) -> (r: bool) {
        same_text(tag, "messageCall")
    }

    proof fn tag_known(&self) {
        reveal(<MessageCall as Wire>::wire);
        assert(tag_of(self.wire()) == Some("messageCall"@));
        assert(Self::known("messageCall"@));
    }
}

/// A newly created basic group
#[derive(Debug, Clone, PartialEq)]
pub struct MessageBasicGroupChatCreate {
    /// Title of the basic group
    pub title: String,
    /// User identifiers of members in the basic group
    pub member_user_ids: Vec<i32>,
}

impl Wire for MessageBasicGroupChatCreate {
    #[verifier::opaque]
    open spec fn wire(&self) -> Doc {
        tagged(
            Map::empty()
                .insert("title"@, self.title.wire())
                .insert("memberUserIds"@, self.member_user_ids.wire()),
            "messageBasicGroupChatCreate"@,
        )
    }

    #[verifier::opaque]
    open spec fn parse(d: Doc, at: Seq<char>) -> Result<Doc, Fault> {
        match d {
            Doc::Object(m) => {
                let title = field::<String>(m, "title"@);
                let member_user_ids = field::<Vec<i32>>(m, "memberUserIds"@);
                if title is Err {
                    title
                } else if member_user_ids is Err {
                    member_user_ids
                } else {
                    Ok(
                        tagged(
                            Map::empty()
                                .insert("title"@, title->Ok_0)
                                .insert("memberUserIds"@, member_user_ids->Ok_0),
                            "messageBasicGroupChatCreate"@,
                        ),
                    )
                }
            },
            _ => Err(Fault::TypeMismatch(at)),
        }
    }

    fn encode(&self) -> (j: Json) {
        proof {
            reveal(<MessageBasicGroupChatCreate as Wire>::wire);
        }
        let mut members: Vec<Member> = Vec::new();
        put(&mut members, "title", self.title.encode());
        put(&mut members, "memberUserIds", self.member_user_ids.encode());
        seal(members, "messageBasicGroupChatCreate")
    }

    fn decode(j: &Json, at: &str) -> (r: Result<Self, DecodeError>) {
        proof {
            reveal(<MessageBasicGroupChatCreate as Wire>::wire);
            reveal(<MessageBasicGroupChatCreate as Wire>::parse);
        }
        let members = members_of(j, at)?;
        let title = read_field::<String>(members, "title")?;
        let member_user_ids = read_field::<Vec<i32>>(members, "memberUserIds")?;
        Ok(MessageBasicGroupChatCreate { title, member_user_ids })
    }

    proof fn round_trip(&self, at: Seq<char>) {
        reveal(<MessageBasicGroupChatCreate as Wire>::wire);
        reveal(<MessageBasicGroupChatCreate as Wire>::parse);
        reveal_strlit("@type");
        reveal_strlit("memberUserIds");
        reveal_strlit("title");
        assert("@type"@.len() == 5 && "@type"@[0] == '@');
        assert("memberUserIds"@.len() == 13);
        assert("title"@.len() == 5 && "title"@[0] == 't');
        self.title.round_trip("title"@);
        self.member_user_ids.round_trip("memberUserIds"@);
    }
}

impl Tagged for MessageBasicGroupChatCreate {
    open spec fn known(tag: Seq<char>) -> bool {
        tag == "messageBasicGroupChatCreate"@
    }

    fn knows(tag: &str) -> (r: bool) {
        same_text(tag, "messageBasicGroupChatCreate")
    }

    proof fn tag_known(&self) {
        reveal(<MessageBasicGroupChatCreate as Wire>::wire);
        assert(tag_of(self.wire()) == Some("messageBasicGroupChatCreate"@));
        assert(Self::known("messageBasicGroupChatCreate"@));
    }
}

/// A newly created supergroup or channel
#[derive(Debug, Clone, PartialEq)]
pub struct MessageSupergroupChatCreate {
    /// Title of the supergroup or channel
    pub title: String,
}

impl Wire for MessageSupergroupChatCreate {
    #[verifier::opaque]
    open spec fn wire(&self) -> Doc {
        tagged(
            Map::empty()
                .insert("title"@, self.title.wire()),
            "messageSupergroupChatCreate"@,
        )
    }

    #[verifier::opaque]
    open spec fn parse(d: Doc, at: Seq<char>) -> Result<Doc, Fault> {
        match d {
            Doc::Object(m) => {
                let title = field::<String>(m, "title"@);
                if title is Err {
                    title
                } else {
                    Ok(
                        tagged(
                            Map::empty()
                                .insert("title"@, title->Ok_0),
                            "messageSupergroupChatCreate"@,
                        ),
                    )
                }
            },
            _ => Err(Fault::TypeMismatch(at)),
        }
    }

    fn encode(&self) -> (j: Json) {
        proof {
            reveal(<MessageSupergroupChatCreate as Wire>::wire);
        }
        let mut members: Vec<Member> = Vec::new();
        put(&mut members, "title", self.title.encode());
        seal(members, "messageSupergroupChatCreate")
    }

    fn decode(j: &Json, at: &str) -> (r: Result<Self, DecodeError>) {
        proof {
            reveal(<MessageSupergroupChatCreate as Wire>::wire);
            reveal(<MessageSupergroupChatCreate as Wire>::parse);
        }
        let members = members_of(j, at)?;
        let title = read_field::<String>(members, "title")?;
        Ok(MessageSupergroupChatCreate { title })
    }

    proof fn round_trip(&self, at: Seq<char>) {
        reveal(<MessageSupergroupChatCreate as Wire>::wire);
        reveal(<MessageSupergroupChatCreate as Wire>::parse);
        reveal_strlit("@type");
        reveal_strlit("title");
        assert("@type"@.len() == 5 && "@type"@[0] == '@');
        assert("title"@.len() == 5 && "title"@[0] == 't');
        self.title.round_trip("title"@);
    }
}

impl Tagged for MessageSupergroupChatCreate {
    open spec fn known(tag: Seq<char>) -> bool {
        tag == "messageSupergroupChatCreate"@
    }

    fn knows(tag: &str) -> (r: bool) {
        same_text(tag, "messageSupergroupChatCreate")
    }

    proof fn tag_known(&self) {
        reveal(<MessageSupergroupChatCreate as Wire>::wire);
        assert(tag_of(self.wire()) == Some("messageSupergroupChatCreate"@));
        assert(Self::known("messageSupergroupChatCreate"@));
    }
}

/// An updated chat title
#[derive(Debug, Clone, PartialEq)]
pub struct MessageChatChangeTitle {
    /// New chat title
    pub title: String,
}

impl Wire for MessageChatChangeTitle {
    #[verifier::opaque]
    open spec fn wire(&self) -> Doc {
        tagged(
            Map::empty()
                .insert("title"@, self.title.wire()),
            "messageChatChangeTitle"@,
        )
    }

    #[verifier::opaque]
    open spec fn parse(d: Doc, at: Seq<char>) -> Result<Doc, Fault> {
        match d {
            Doc::Object(m) => {
                let title = field::<String>(m, "title"@);
                if title is Err {
                    title
                } else {
                    Ok(
                        tagged(
                            Map::empty()
                                .insert("title"@, title->Ok_0),
                            "messageChatChangeTitle"@,
                        ),
                    )
                }
            },
            _ => Err(Fault::TypeMismatch(at)),
        }
    }

    fn encode(&self) -> (j: Json) {
        proof {
            reveal(<MessageChatChangeTitle as Wire>::wire);
        }
        let mut members: Vec<Member> = Vec::new();
        put(&mut members, "title", self.title.encode());
        seal(members, "messageChatChangeTitle")
    }

    fn decode(j: &Json, at: &str) -> (r: Result<Self, DecodeError>) {
        proof {
            reveal(<MessageChatChangeTitle as Wire>::wire);
            reveal(<MessageChatChangeTitle as Wire>::parse);
        }
        let members = members_of(j, at)?;
        let title = read_field::<String>(members, "title")?;
        Ok(MessageChatChangeTitle { title })
    }

    proof fn round_trip(&self, at: Seq<char>) {
        reveal(<MessageChatChangeTitle as Wire>::wire);
        reveal(<MessageChatChangeTitle as Wire>::parse);
        reveal_strlit("@type");
        reveal_strlit("title");
        assert("@type"@.len() == 5 && "@type"@[0] == '@');
        assert("title"@.len() == 5 && "title"@[0] == 't');
        self.title.round_trip("title"@);
    }
}

impl Tagged for MessageChatChangeTitle {
    open spec fn known(tag: Seq<char>) -> bool {
        tag == "messageChatChangeTitle"@
    }

    fn knows(tag: &str) -> (r: bool) {
        same_text(tag, "messageChatChangeTitle")
    }

    proof fn tag_known(&self) {
        reveal(<MessageChatChangeTitle as Wire>::wire);
        assert(tag_of(self.wire()) == Some("messageChatChangeTitle"@));
        assert(Self::known("messageChatChangeTitle"@));
    }
}

/// An updated chat photo
#[derive(Debug, Clone, PartialEq)]
pub struct MessageChatChangePhoto {
    /// New chat photo
    pub photo: Photo,
}

impl Wire for MessageChatChangePhoto {
    #[verifier::opaque]
    open spec fn wire(&self) -> Doc {
        tagged(
            Map::empty()
                .insert("photo"@, self.photo.wire()),
            "messageChatChangePhoto"@,
        )
    }

    #[verifier::opaque]
    open spec fn parse(d: Doc, at: Seq<char>) -> Result<Doc, Fault> {
        match d {
            Doc::Object(m) => {
                let photo = field::<Photo>(m, "photo"@);
                if photo is Err {
                    photo
                } else {
                    Ok(
                        tagged(
                            Map::empty()
                                .insert("photo"@, photo->Ok_0),
                            "messageChatChangePhoto"@,
                        ),
                    )
                }
            },
            _ => Err(Fault::TypeMismatch(at)),
        }
    }

    fn encode(&self) -> (j: Json) {
        proof {
            reveal(<MessageChatChangePhoto as Wire>::wire);
        }
        let mut members: Vec<Member> = Vec::new();
        put(&mut members, "photo", self.photo.encode());
        seal(members, "messageChatChangePhoto")
    }

    fn decode(j: &Json, at: &str) -> (r: Result<Self, DecodeError>) {
        proof {
            reveal(<MessageChatChangePhoto as Wire>::wire);
            reveal(<MessageChatChangePhoto as Wire>::parse);
        }
        let members = members_of(j, at)?;
        let photo = read_field::<Photo>(members, "photo")?;
        Ok(MessageChatChangePhoto { photo })
    }

    proof fn round_trip(&self, at: Seq<char>) {
        reveal(<MessageChatChangePhoto as Wire>::wire);
        reveal(<MessageChatChangePhoto as Wire>::parse);
        reveal_strlit("@type");
        reveal_strlit("photo");
        assert("@type"@.len() == 5 && "@type"@[0] == '@');
        assert("photo"@.len() == 5 && "photo"@[0] == 'p');
        self.photo.round_trip("photo"@);
    }
}

impl Tagged for MessageChatChangePhoto {
    open spec fn known(tag: Seq<char>) -> bool {
        tag == "messageChatChangePhoto"@
    }

    fn knows(tag: &str) -> (r: bool) {
        same_text(tag, "messageChatChangePhoto")
    }

    proof fn tag_known(&self) {
        reveal(<MessageChatChangePhoto as Wire>::wire);
        assert(tag_of(self.wire()) == Some("messageChatChangePhoto"@));
        assert(Self::known("messageChatChangePhoto"@));
    }
}

/// A deleted chat photo
#[derive(Debug, Clone, PartialEq)]
pub struct MessageChatDeletePhoto {}

impl Wire for MessageChatDeletePhoto {
    #[verifier::opaque]
    open spec fn wire(&self) -> Doc {
        tagged(Map::empty(), "messageChatDeletePhoto"@)
    }

    #[verifier::opaque]
    open spec fn parse(d: Doc, at: Seq<char>) -> Result<Doc, Fault> {
        match d {
            Doc::Object(_) => Ok(tagged(Map::empty(), "messageChatDeletePhoto"@)),
            _ => Err(Fault::TypeMismatch(at)),
        }
    }

    fn encode(&self) -> (j: Json) {
        proof {
            reveal(<MessageChatDeletePhoto as Wire>::wire);
        }
        seal(Vec::new(), "messageChatDeletePhoto")
    }

    fn decode(j: &Json, at: &str) -> (r: Result<Self, DecodeError>) {
        proof {
            reveal(<MessageChatDeletePhoto as Wire>::wire);
            reveal(<MessageChatDeletePhoto as Wire>::parse);
        }
        let _ = members_of(j, at)?;
        Ok(MessageChatDeletePhoto {})
    }

    proof fn round_trip(&self, at: Seq<char>) {
        reveal(<MessageChatDeletePhoto as Wire>::wire);
        reveal(<MessageChatDeletePhoto as Wire>::parse);
    }
}

impl Tagged for MessageChatDeletePhoto {
    open spec fn known(tag: Seq<char>) -> bool {
        tag == "messageChatDeletePhoto"@
    }

    fn knows(tag: &str) -> (r: bool) {
        same_text(tag, "messageChatDeletePhoto")
    }

    proof fn tag_known(&self) {
        reveal(<MessageChatDeletePhoto as Wire>::wire);
        assert(tag_of(self.wire()) == Some("messageChatDeletePhoto"@));
        assert(Self::known("messageChatDeletePhoto"@));
    }
}

/// New chat members were added
#[derive(Debug, Clone, PartialEq)]
pub struct MessageChatAddMembers {
    /// User identifiers of the new members
    pub member_user_ids: Vec<i32>,
}

impl Wire for MessageChatAddMembers {
    #[verifier::opaque]
    open spec fn wire(&self) -> Doc {
        tagged(
            Map::empty()
                .insert("memberUserIds"@, self.member_user_ids.wire()),
            "messageChatAddMembers"@,
        )
    }

    #[verifier::opaque]
    open spec fn parse(d: Doc, at: Seq<char>) -> Result<Doc, Fault> {
        match d {
            Doc::Object(m) => {
                let member_user_ids = field::<Vec<i32>>(m, "memberUserIds"@);
                if member_user_ids is Err {
                    member_user_ids
                } else {
                    Ok(
                        tagged(
                            Map::empty()
                                .insert("memberUserIds"@, member_user_ids->Ok_0),
                            "messageChatAddMembers"@,
                        ),
                    )
                }
            },
            _ => Err(Fault::TypeMismatch(at)),
        }
    }

    fn encode(&self) -> (j: Json) {
        proof {
            reveal(<MessageChatAddMembers as Wire>::wire);
        }
        let mut members: Vec<Member> = Vec::new();
        put(&mut members, "memberUserIds", self.member_user_ids.encode());
        seal(members, "messageChatAddMembers")
    }

    fn decode(j: &Json, at: &str) -> (r: Result<Self, DecodeError>) {
        proof {
            reveal(<MessageChatAddMembers as Wire>::wire);
            reveal(<MessageChatAddMembers as Wire>::parse);
        }
        let members = members_of(j, at)?;
        let member_user_ids = read_field::<Vec<i32>>(members, "memberUserIds")?;
        Ok(MessageChatAddMembers { member_user_ids })
    }

    proof fn round_trip(&self, at: Seq<char>) {
        reveal(<MessageChatAddMembers as Wire>::wire);
        reveal(<MessageChatAddMembers as Wire>::parse);
        reveal_strlit("@type");
        reveal_strlit("memberUserIds");
        assert("@type"@.len() == 5);
        assert("memberUserIds"@.len() == 13);
        self.member_user_ids.round_trip("memberUserIds"@);
    }
}

impl Tagged for MessageChatAddMembers {
    open spec fn known(tag: Seq<char>) -> bool {
        tag == "messageChatAddMembers"@
    }

    fn knows(tag: &str) -> (r: bool) {
        same_text(tag, "messageChatAddMembers")
    }

    proof fn tag_known(&self) {
        reveal(<MessageChatAddMembers as Wire>::wire);
        assert(tag_of(self.wire()) == Some("messageChatAddMembers"@));
        assert(Self::known("messageChatAddMembers"@));
    }
}

/// A new member joined the chat by invite link
#[derive(Debug, Clone, PartialEq)]
pub struct MessageChatJoinByLink {}

impl Wire for MessageChatJoinByLink {
    #[verifier::opaque]
    open spec fn wire(&self) -> Doc {
        tagged(Map::empty(), "messageChatJoinByLink"@)
    }

    #[verifier::opaque]
    open spec fn parse(d: Doc, at: Seq<char>) -> Result<Doc, Fault> {
        match d {
            Doc::Object(_) => Ok(tagged(Map::empty(), "messageChatJoinByLink"@)),
            _ => Err(Fault::TypeMismatch(at)),
        }
    }

    fn encode(&self) -> (j: Json) {
        proof {
            reveal(<MessageChatJoinByLink as Wire>::wire);
        }
        seal(Vec::new(), "messageChatJoinByLink")
    }

    fn decode(j: &Json, at: &str) -> (r: Result<Self, DecodeError>) {
        proof {
            reveal(<MessageChatJoinByLink as Wire>::wire);
            reveal(<MessageChatJoinByLink as Wire>::parse);
        }
        let _ = members_of(j, at)?;
        Ok(MessageChatJoinByLink {})
    }

    proof fn round_trip(&self, at: Seq<char>) {
        reveal(<MessageChatJoinByLink as Wire>::wire);
        reveal(<MessageChatJoinByLink as Wire>::parse);
    }
}

impl Tagged for MessageChatJoinByLink {
    open spec fn known(tag: Seq<char>) -> bool {
        tag == "messageChatJoinByLink"@
    }

    fn knows(tag: &str) -> (r: bool) {
        same_text(tag, "messageChatJoinByLink")
    }

    proof fn tag_known(&self) {
        reveal(<MessageChatJoinByLink as Wire>::wire);
        assert(tag_of(self.wire()) == Some("messageChatJoinByLink"@));
        assert(Self::known("messageChatJoinByLink"@));
    }
}

/// A chat member was deleted
#[derive(Debug, Clone, PartialEq)]
pub struct MessageChatDeleteMember {
    /// User identifier of the deleted chat member
    pub user_id: i32,
}

impl Wire for MessageChatDeleteMember {
    #[verifier::opaque]
    open spec fn wire(&self) -> Doc {
        tagged(
            Map::empty()
                .insert("userId"@, self.user_id.wire()),
            "messageChatDeleteMember"@,
        )
    }

    #[verifier::opaque]
    open spec fn parse(d: Doc, at: Seq<char>) -> Result<Doc, Fault> {
        match d {
            Doc::Object(m) => {
                let user_id = field::<i32>(m, "userId"@);
                if user_id is Err {
                    user_id
                } else {
                    Ok(
                        tagged(
                            Map::empty()
                                .insert("userId"@, user_id->Ok_0),
                            "messageChatDeleteMember"@,
                        ),
                    )
                }
            },
            _ => Err(Fault::TypeMismatch(at)),
        }
    }

    fn encode(&self) -> (j: Json) {
        proof {
            reveal(<MessageChatDeleteMember as Wire>::wire);
        }
        let mut members: Vec<Member> = Vec::new();
        put(&mut members, "userId", self.user_id.encode());
        seal(members, "messageChatDeleteMember")
    }

    fn decode(j: &Json, at: &str) -> (r: Result<Self, DecodeError>) {
        proof {
            reveal(<MessageChatDeleteMember as Wire>::wire);
            reveal(<MessageChatDeleteMember as Wire>::parse);
        }
        let members = members_of(j, at)?;
        let user_id = read_field::<i32>(members, "userId")?;
        Ok(MessageChatDeleteMember { user_id })
    }

    proof fn round_trip(&self, at: Seq<char>) {
        reveal(<MessageChatDeleteMember as Wire>::wire);
        reveal(<MessageChatDeleteMember as Wire>::parse);
        reveal_strlit("@type");
        reveal_strlit("userId");
        assert("@type"@.len() == 5);
        assert("userId"@.len() == 6);
        self.user_id.round_trip("userId"@);
    }
}

impl Tagged for MessageChatDeleteMember {
    open spec fn known(tag: Seq<char>) -> bool {
        tag == "messageChatDeleteMember"@
    }

    fn knows(tag: &str) -> (r: bool) {
        same_text(tag, "messageChatDeleteMember")
    }

    proof fn tag_known(&self) {
        reveal(<MessageChatDeleteMember as Wire>::wire);
        assert(tag_of(self.wire()) == Some("messageChatDeleteMember"@));
        assert(Self::known("messageChatDeleteMember"@));
    }
}

/// A basic group was upgraded to a supergroup and was deactivated as the result
#[derive(Debug, Clone, PartialEq)]
pub struct MessageChatUpgradeTo {
    /// Identifier of the supergroup to which the basic group was upgraded
    pub supergroup_id: i32,
}

impl Wire for MessageChatUpgradeTo {
    #[verifier::opaque]
    open spec fn wire(&self) -> Doc {
        tagged(
            Map::empty()
                .insert("supergroupId"@, self.supergroup_id.wire()),
            "messageChatUpgradeTo"@,
        )
    }

    #[verifier::opaque]
    open spec fn parse(d: Doc, at: Seq<char>) -> Result<Doc, Fault> {
        match d {
            Doc::Object(m) => {
                let supergroup_id = field::<i32>(m, "supergroupId"@);
                if supergroup_id is Err {
                    supergroup_id
                } else {
                    Ok(
                        tagged(
                            Map::empty()
                                .insert("supergroupId"@, supergroup_id->Ok_0),
                            "messageChatUpgradeTo"@,
                        ),
                    )
                }
            },
            _ => Err(Fault::TypeMismatch(at)),
        }
    }

    fn encode(&self) -> (j: Json) {
        proof {
            reveal(<MessageChatUpgradeTo as Wire>::wire);
        }
        let mut members: Vec<Member> = Vec::new();
        put(&mut members, "supergroupId", self.supergroup_id.encode());
        seal(members, "messageChatUpgradeTo")
    }

    fn decode(j: &Json, at: &str) -> (r: Result<Self, DecodeError>) {
        proof {
            reveal(<MessageChatUpgradeTo as Wire>::wire);
            reveal(<MessageChatUpgradeTo as Wire>::parse);
        }
        let members = members_of(j, at)?;
        let supergroup_id = read_field::<i32>(members, "supergroupId")?;
        Ok(MessageChatUpgradeTo { supergroup_id })
    }

    proof fn round_trip(&self, at: Seq<char>) {
        reveal(<MessageChatUpgradeTo as Wire>::wire);
        reveal(<MessageChatUpgradeTo as Wire>::parse);
        reveal_strlit("@type");
        reveal_strlit("supergroupId");
        assert("@type"@.len() == 5);
        assert("supergroupId"@.len() == 12);
        self.supergroup_id.round_trip("supergroupId"@);
    }
}

impl Tagged for MessageChatUpgradeTo {
    open spec fn known(tag: Seq<char>) -> bool {
        tag == "messageChatUpgradeTo"@
    }

    fn knows(tag: &str) -> (r: bool) {
        same_text(tag, "messageChatUpgradeTo")
    }

    proof fn tag_known(&self) {
        reveal(<MessageChatUpgradeTo as Wire>::wire);
        assert(tag_of(self.wire()) == Some("messageChatUpgradeTo"@));
        assert(Self::known("messageChatUpgradeTo"@));
    }
}

/// A supergroup has been created from a basic group
#[derive(Debug, Clone, PartialEq)]
pub struct MessageChatUpgradeFrom {
    /// Title of the newly created supergroup
    pub title: String,
    /// The identifier of the original basic group
    pub basic_group_id: i32,
}

impl Wire for MessageChatUpgradeFrom {
    #[verifier::opaque]
    open spec fn wire(&self) -> Doc {
        tagged(
            Map::empty()
                .insert("title"@, self.title.wire())
                .insert("basicGroupId"@, self.basic_group_id.wire()),
            "messageChatUpgradeFrom"@,
        )
    }

    #[verifier::opaque]
    open spec fn parse(d: Doc, at: Seq<char>) -> Result<Doc, Fault> {
        match d {
            Doc::Object(m) => {
                let title = field::<String>(m, "title"@);
                let basic_group_id = field::<i32>(m, "basicGroupId"@);
                if title is Err {
                    title
                } else if basic_group_id is Err {
                    basic_group_id
                } else {
                    Ok(
                        tagged(
                            Map::empty()
                                .insert("title"@, title->Ok_0)
                                .insert("basicGroupId"@, basic_group_id->Ok_0),
                            "messageChatUpgradeFrom"@,
                        ),
                    )
                }
            },
            _ => Err(Fault::TypeMismatch(at)),
        }
    }

    fn encode(&self) -> (j: Json) {
        proof {
            reveal(<MessageChatUpgradeFrom as Wire>::wire);
        }
        let mut members: Vec<Member> = Vec::new();
        put(&mut members, "title", self.title.encode());
        put(&mut members, "basicGroupId", self.basic_group_id.encode());
        seal(members, "messageChatUpgradeFrom")
    }

    fn decode(j: &Json, at: &str) -> (r: Result<Self, DecodeError>) {
        proof {
            reveal(<MessageChatUpgradeFrom as Wire>::wire);
            reveal(<MessageChatUpgradeFrom as Wire>::parse);
        }
        let members = members_of(j, at)?;
        let title = read_field::<String>(members, "title")?;
        let basic_group_id = read_field::<i32>(members, "basicGroupId")?;
        Ok(MessageChatUpgradeFrom { title, basic_group_id })
    }

    proof fn round_trip(&self, at: Seq<char>) {
        reveal(<MessageChatUpgradeFrom as Wire>::wire);
        reveal(<MessageChatUpgradeFrom as Wire>::parse);
        reveal_strlit("@type");
        reveal_strlit("basicGroupId");
        reveal_strlit("title");
        assert("@type"@.len() == 5 && "@type"@[0] == '@');
        assert("basicGroupId"@.len() == 12);
        assert("title"@.len() == 5 && "title"@[0] == 't');
        self.title.round_trip("title"@);
        self.basic_group_id.round_trip("basicGroupId"@);
    }
}

impl Tagged for MessageChatUpgradeFrom {
    open spec fn known(tag: Seq<char>) -> bool {
        tag == "messageChatUpgradeFrom"@
    }

    fn knows(tag: &str) -> (r: bool) {
        same_text(tag, "messageChatUpgradeFrom")
    }

    proof fn tag_known(&self) {
        reveal(<MessageChatUpgradeFrom as Wire>::wire);
        assert(tag_of(self.wire()) == Some("messageChatUpgradeFrom"@));
        assert(Self::known("messageChatUpgradeFrom"@));
    }
}

/// A message has been pinned
#[derive(Debug, Clone, PartialEq)]
pub struct MessagePinMessage {
    /// Identifier of the pinned message, can be an identifier of a deleted message or 0
    pub message_id: i64,
}

impl Wire for MessagePinMessage {
    #[verifier::opaque]
    open spec fn wire(&self) -> Doc {
        tagged(
            Map::empty()
                .insert("messageId"@, self.message_id.wire()),
            "messagePinMessage"@,
        )
    }

    #[verifier::opaque]
    open spec fn parse(d: Doc, at: Seq<char>) -> Result<Doc, Fault> {
        match d {
            Doc::Object(m) => {
                let message_id = field::<i64>(m, "messageId"@);
                if message_id is Err {
                    message_id
                } else {
                    Ok(
                        tagged(
                            Map::empty()
                                .insert("messageId"@, message_id->Ok_0),
                            "messagePinMessage"@,
                        ),
                    )
                }
            },
            _ => Err(Fault::TypeMismatch(at)),
        }
    }

    fn encode(&self) -> (j: Json) {
        proof {
            reveal(<MessagePinMessage as Wire>::wire);
        }
        let mut members: Vec<Member> = Vec::new();
        put(&mut members, "messageId", self.message_id.encode());
        seal(members, "messagePinMessage")
    }

    fn decode(j: &Json, at: &str) -> (r: Result<Self, DecodeError>) {
        proof {
            reveal(<MessagePinMessage as Wire>::wire);
            reveal(<MessagePinMessage as Wire>::parse);
        }
        let members = members_of(j, at)?;
        let message_id = read_field::<i64>(members, "messageId")?;
        Ok(MessagePinMessage { message_id })
    }

    proof fn round_trip(&self, at: Seq<char>) {
        reveal(<MessagePinMessage as Wire>::wire);
        reveal(<MessagePinMessage as Wire>::parse);
        reveal_strlit("@type");
        reveal_strlit("messageId");
        assert("@type"@.len() == 5);
        assert("messageId"@.len() == 9);
        self.message_id.round_trip("messageId"@);
    }
}

impl Tagged for MessagePinMessage {
    open spec fn known(tag: Seq<char>) -> bool {
        tag == "messagePinMessage"@
    }

    fn knows(tag: &str) -> (r: bool) {
        same_text(tag, "messagePinMessage")
    }

    proof fn tag_known(&self) {
        reveal(<MessagePinMessage as Wire>::wire);
        assert(tag_of(self.wire()) == Some("messagePinMessage"@));
        assert(Self::known("messagePinMessage"@));
    }
}

/// A screenshot of a message in the chat has been taken
#[derive(Debug, Clone, PartialEq)]
pub struct MessageScreenshotTaken {}

impl Wire for MessageScreenshotTaken {
    #[verifier::opaque]
    open spec fn wire(&self) -> Doc {
        tagged(Map::empty(), "messageScreenshotTaken"@)
    }

    #[verifier::opaque]
    open spec fn parse(d: Doc, at: Seq<char>) -> Result<Doc, Fault> {
        match d {
            Doc::Object(_) => Ok(tagged(Map::empty(), "messageScreenshotTaken"@)),
            _ => Err(Fault::TypeMismatch(at)),
        }
    }

    fn encode(&self) -> (j: Json) {
        proof {
            reveal(<MessageScreenshotTaken as Wire>::wire);
        }
        seal(Vec::new(), "messageScreenshotTaken")
    }

    fn decode(j: &Json, at: &str) -> (r: Result<Self, DecodeError>) {
        proof {
            reveal(<MessageScreenshotTaken as Wire>::wire);
            reveal(<MessageScreenshotTaken as Wire>::parse);
        }
        let _ = members_of(j, at)?;
        Ok(MessageScreenshotTaken {})
    }

    proof fn round_trip(&self, at: Seq<char>) {
        reveal(<MessageScreenshotTaken as Wire>::wire);
        reveal(<MessageScreenshotTaken as Wire>::parse);
    }
}

impl Tagged for MessageScreenshotTaken {
    open spec fn known(tag: Seq<char>) -> bool {
        tag == "messageScreenshotTaken"@
    }

    fn knows(tag: &str) -> (r: bool) {
        same_text(tag, "messageScreenshotTaken")
    }

    proof fn tag_known(&self) {
        reveal(<MessageScreenshotTaken as Wire>::wire);
        assert(tag_of(self.wire()) == Some("messageScreenshotTaken"@));
        assert(Self::known("messageScreenshotTaken"@));
    }
}

/// The TTL (Time To Live) setting messages in a secret chat has been changed
#[derive(Debug, Clone, PartialEq)]
pub struct MessageChatSetTtl {
    /// New TTL
    pub ttl: i32,
}

impl Wire for MessageChatSetTtl {
    #[verifier::opaque]
    open spec fn wire(&self) -> Doc {
        tagged(
            Map::empty()
                .insert("ttl"@, self.ttl.wire()),
            "messageChatSetTtl"@,
        )
    }

    #[verifier::opaque]
    open spec fn parse(d: Doc, at: Seq<char>) -> Result<Doc, Fault> {
        match d {
            Doc::Object(m) => {
                let ttl = field::<i32>(m, "ttl"@);
                if ttl is Err {
                    ttl
                } else {
                    Ok(
                        tagged(
                            Map::empty()
                                .insert("ttl"@, ttl->Ok_0),
                            "messageChatSetTtl"@,
                        ),
                    )
                }
            },
            _ => Err(Fault::TypeMismatch(at)),
        }
    }

    fn encode(&self) -> (j: Json) {
        proof {
            reveal(<MessageChatSetTtl as Wire>::wire);
        }
        let mut members: Vec<Member> = Vec::new();
        put(&mut members, "ttl", self.ttl.encode());
        seal(members, "messageChatSetTtl")
    }

    fn decode(j: &Json, at: &str) -> (r: Result<Self, DecodeError>) {
        proof {
            reveal(<MessageChatSetTtl as Wire>::wire);
            reveal(<MessageChatSetTtl as Wire>::parse);
        }
        let members = members_of(j, at)?;
        let ttl = read_field::<i32>(members, "ttl")?;
        Ok(MessageChatSetTtl { ttl })
    }

    proof fn round_trip(&self, at: Seq<char>) {
        reveal(<MessageChatSetTtl as Wire>::wire);
        reveal(<MessageChatSetTtl as Wire>::parse);
        reveal_strlit("@type");
        reveal_strlit("ttl");
        assert("@type"@.len() == 5);
        assert("ttl"@.len() == 3);
        self.ttl.round_trip("ttl"@);
    }
}

impl Tagged for MessageChatSetTtl {
    open spec fn known(tag: Seq<char>) -> bool {
        tag == "messageChatSetTtl"@
    }

    fn knows(tag: &str) -> (r: bool) {
        same_text(tag, "messageChatSetTtl")
    }

    proof fn tag_known(&self) {
        reveal(<MessageChatSetTtl as Wire>::wire);
        assert(tag_of(self.wire()) == Some("messageChatSetTtl"@));
        assert(Self::known("messageChatSetTtl"@));
    }
}

/// A non-standard action has happened in the chat
#[derive(Debug, Clone, PartialEq)]
pub struct MessageCustomServiceAction {
    /// Message text to be shown in the chat
    pub text: String,
}

impl Wire for MessageCustomServiceAction {
    #[verifier::opaque]
    open spec fn wire(&self) -> Doc {
        tagged(
            Map::empty()
                .insert("text"@, self.text.wire()),
            "messageCustomServiceAction"@,
        )
    }

    #[verifier::opaque]
    open spec fn parse(d: Doc, at: Seq<char>) -> Result<Doc, Fault> {
        match d {
            Doc::Object(m) => {
                let text = field::<String>(m, "text"@);
                if text is Err {
                    text
                } else {
                    Ok(
                        tagged(
                            Map::empty()
                                .insert("text"@, text->Ok_0),
                            "messageCustomServiceAction"@,
                        ),
                    )
                }
            },
            _ => Err(Fault::TypeMismatch(at)),
        }
    }

    fn encode(&self) -> (j: Json) {
        proof {
            reveal(<MessageCustomServiceAction as Wire>::wire);
        }
        let mut members: Vec<Member> = Vec::new();
        put(&mut members, "text", self.text.encode());
        seal(members, "messageCustomServiceAction")
    }

    fn decode(j: &Json, at: &str) -> (r: Result<Self, DecodeError>) {
        proof {
            reveal(<MessageCustomServiceAction as Wire>::wire);
            reveal(<MessageCustomServiceAction as Wire>::parse);
        }
        let members = members_of(j, at)?;
        let text = read_field::<String>(members, "text")?;
        Ok(MessageCustomServiceAction { text })
    }

    proof fn round_trip(&self, at: Seq<char>) {
        reveal(<MessageCustomServiceAction as Wire>::wire);
        reveal(<MessageCustomServiceAction as Wire>::parse);
        reveal_strlit("@type");
        reveal_strlit("text");
        assert("@type"@.len() == 5);
        assert("text"@.len() == 4);
        self.text.round_trip("text"@);
    }
}

impl Tagged for MessageCustomServiceAction {
    open spec fn known(tag: Seq<char>) -> bool {
        tag == "messageCustomServiceAction"@
    }

    fn knows(tag: &str) -> (r: bool) {
        same_text(tag, "messageCustomServiceAction")
    }

    proof fn tag_known(&self) {
        reveal(<MessageCustomServiceAction as Wire>::wire);
        assert(tag_of(self.wire()) == Some("messageCustomServiceAction"@));
        assert(Self::known("messageCustomServiceAction"@));
    }
}

/// A new high score was achieved in a game
#[derive(Debug, Clone, PartialEq)]
pub struct MessageGameScore {
    /// Identifier of the message with the game, can be an identifier of a deleted message
    pub game_message_id: i64,
    /// Identifier of the game; may be different from the games presented in the message with the
    /// game
    pub game_id: i64,
    /// New score
    pub score: i32,
}

impl Wire for MessageGameScore {
    #[verifier::opaque]
    open spec fn wire(&self) -> Doc {
        tagged(
            Map::empty()
                .insert("gameMessageId"@, self.game_message_id.wire())
                .insert("gameId"@, wide_doc(self.game_id))
                .insert("score"@, self.score.wire()),
            "messageGameScore"@,
        )
    }

    #[verifier::opaque]
    open spec fn parse(d: Doc, at: Seq<char>) -> Result<Doc, Fault> {
        match d {
            Doc::Object(m) => {
                let game_message_id = field::<i64>(m, "gameMessageId"@);
                let game_id = wide_field(m, "gameId"@);
                let score = field::<i32>(m, "score"@);
                if game_message_id is Err {
                    game_message_id
                } else if game_id is Err {
                    game_id
                } else if score is Err {
                    score
                } else {
                    Ok(
                        tagged(
                            Map::empty()
                                .insert("gameMessageId"@, game_message_id->Ok_0)
                                .insert("gameId"@, game_id->Ok_0)
                                .insert("score"@, score->Ok_0),
                            "messageGameScore"@,
                        ),
                    )
                }
            },
            _ => Err(Fault::TypeMismatch(at)),
        }
    }

    fn encode(&self) -> (j: Json) {
        proof {
            reveal(<MessageGameScore as Wire>::wire);
        }
        let mut members: Vec<Member> = Vec::new();
        put(&mut members, "gameMessageId", self.game_message_id.encode());
        put(&mut members, "gameId", encode_wide(self.game_id));
        put(&mut members, "score", self.score.encode());
        seal(members, "messageGameScore")
    }

    fn decode(j: &Json, at: &str) -> (r: Result<Self, DecodeError>) {
        proof {
            reveal(<MessageGameScore as Wire>::wire);
            reveal(<MessageGameScore as Wire>::parse);
        }
        let members = members_of(j, at)?;
        let game_message_id = read_field::<i64>(members, "gameMessageId")?;
        let game_id = read_wide(members, "gameId")?;
        let score = read_field::<i32>(members, "score")?;
        Ok(MessageGameScore { game_message_id, game_id, score })
    }

    proof fn round_trip(&self, at: Seq<char>) {
        reveal(<MessageGameScore as Wire>::wire);
        reveal(<MessageGameScore as Wire>::parse);
        reveal_strlit("@type");
        reveal_strlit("gameId");
        reveal_strlit("gameMessageId");
        reveal_strlit("score");
        assert("@type"@.len() == 5 && "@type"@[0] == '@');
        assert("gameId"@.len() == 6);
        assert("gameMessageId"@.len() == 13);
        assert("score"@.len() == 5 && "score"@[0] == 's');
        self.game_message_id.round_trip("gameMessageId"@);
        lemma_wide_round_trip(self.game_id, "gameId"@);
        self.score.round_trip("score"@);
    }
}

impl Tagged for MessageGameScore {
    open spec fn known(tag: Seq<char>) -> bool {
        tag == "messageGameScore"@
    }

    fn knows(tag: &str) -> (r: bool) {
        same_text(tag, "messageGameScore")
    }

    proof fn tag_known(&self) {
        reveal(<MessageGameScore as Wire>::wire);
        assert(tag_of(self.wire()) == Some("messageGameScore"@));
        assert(Self::known("messageGameScore"@));
    }
}

/// A payment has been completed
#[derive(Debug, Clone, PartialEq)]
pub struct MessagePaymentSuccessful {
    /// Identifier of the message with the corresponding invoice; can be an identifier of a deleted
    /// message
    pub invoice_message_id: i64,
    /// Currency for the price of the product
    pub currency: String,
    /// Total price for the product, in the minimal quantity of the currency
    pub total_amount: i64,
}

impl Wire for MessagePaymentSuccessful {
    #[verifier::opaque]
    open spec fn wire(&self) -> Doc {
        tagged(
            Map::empty()
                .insert("invoiceMessageId"@, self.invoice_message_id.wire())
                .insert("currency"@, self.currency.wire())
                .insert("totalAmount"@, self.total_amount.wire()),
            "messagePaymentSuccessful"@,
        )
    }

    #[verifier::opaque]
    open spec fn parse(d: Doc, at: Seq<char>) -> Result<Doc, Fault> {
        match d {
            Doc::Object(m) => {
                let invoice_message_id = field::<i64>(m, "invoiceMessageId"@);
                let currency = field::<String>(m, "currency"@);
                let total_amount = field::<i64>(m, "totalAmount"@);
                if invoice_message_id is Err {
                    invoice_message_id
                } else if currency is Err {
                    currency
                } else if total_amount is Err {
                    total_amount
                } else {
                    Ok(
                        tagged(
                            Map::empty()
                                .insert("invoiceMessageId"@, invoice_message_id->Ok_0)
                                .insert("currency"@, currency->Ok_0)
                                .insert("totalAmount"@, total_amount->Ok_0),
                            "messagePaymentSuccessful"@,
                        ),
                    )
                }
            },
            _ => Err(Fault::TypeMismatch(at)),
        }
    }

    fn encode(&self) -> (j: Json) {
        proof {
            reveal(<MessagePaymentSuccessful as Wire>::wire);
        }
        let mut members: Vec<Member> = Vec::new();
        put(&mut members, "invoiceMessageId", self.invoice_message_id.encode());
        put(&mut members, "currency", self.currency.encode());
        put(&mut members, "totalAmount", self.total_amount.encode());
        seal(members, "messagePaymentSuccessful")
    }

    fn decode(j: &Json, at: &str) -> (r: Result<Self, DecodeError>) {
        proof {
            reveal(<MessagePaymentSuccessful as Wire>::wire);
            reveal(<MessagePaymentSuccessful as Wire>::parse);
        }
        let members = members_of(j, at)?;
        let invoice_message_id = read_field::<i64>(members, "invoiceMessageId")?;
        let currency = read_field::<String>(members, "currency")?;
        let total_amount = read_field::<i64>(members, "totalAmount")?;
        Ok(MessagePaymentSuccessful { invoice_message_id, currency, total_amount })
    }

    proof fn round_trip(&self, at: Seq<char>) {
        reveal(<MessagePaymentSuccessful as Wire>::wire);
        reveal(<MessagePaymentSuccessful as Wire>::parse);
        reveal_strlit("@type");
        reveal_strlit("currency");
        reveal_strlit("invoiceMessageId");
        reveal_strlit("totalAmount");
        assert("@type"@.len() == 5);
        assert("currency"@.len() == 8);
        assert("invoiceMessageId"@.len() == 16);
        assert("totalAmount"@.len() == 11);
        self.invoice_message_id.round_trip("invoiceMessageId"@);
        self.currency.round_trip("currency"@);
        self.total_amount.round_trip("totalAmount"@);
    }
}

impl Tagged for MessagePaymentSuccessful {
    open spec fn known(tag: Seq<char>) -> bool {
        tag == "messagePaymentSuccessful"@
    }

    fn knows(tag: &str) -> (r: bool) {
        same_text(tag, "messagePaymentSuccessful")
    }

    proof fn tag_known(&self) {
        reveal(<MessagePaymentSuccessful as Wire>::wire);
        assert(tag_of(self.wire()) == Some("messagePaymentSuccessful"@));
        assert(Self::known("messagePaymentSuccessful"@));
    }
}

/// A payment has been completed; for bots only
#[derive(Debug, Clone, PartialEq)]
pub struct MessagePaymentSuccessfulBot {
    /// Identifier of the message with the corresponding invoice; can be an identifier of a deleted
    /// message
    pub invoice_message_id: i64,
    /// Currency for price of the product
    pub currency: String,
    /// Total price for the product, in the minimal quantity of the currency
    pub total_amount: i64,
    /// Invoice payload
    pub invoice_payload: String,
    /// Identifier of the shipping option chosen by the user; may be empty if not applicable
    pub shipping_option_id: String,
    /// Information about the order; may be null
    pub order_info: Option<OrderInfo>,
    /// Telegram payment identifier
    pub telegram_payment_charge_id: String,
    /// Provider payment identifier
    pub provider_payment_charge_id: String,
}

impl Wire for MessagePaymentSuccessfulBot {
    #[verifier::opaque]
    open spec fn wire(&self) -> Doc {
        tagged(
            Map::empty()
                .insert("invoiceMessageId"@, self.invoice_message_id.wire())
                .insert("currency"@, self.currency.wire())
                .insert("totalAmount"@, self.total_amount.wire())
                .insert("invoicePayload"@, self.invoice_payload.wire())
                .insert("shippingOptionId"@, self.shipping_option_id.wire())
                .insert("orderInfo"@, self.order_info.wire())
                .insert("telegramPaymentChargeId"@, self.telegram_payment_charge_id.wire())
                .insert("providerPaymentChargeId"@, self.provider_payment_charge_id.wire()),
            "messagePaymentSuccessfulBot"@,
        )
    }

    #[verifier::opaque]
    open spec fn parse(d: Doc, at: Seq<char>) -> Result<Doc, Fault> {
        match d {
            Doc::Object(m) => {
                let invoice_message_id = field::<i64>(m, "invoiceMessageId"@);
                let currency = field::<String>(m, "currency"@);
                let total_amount = field::<i64>(m, "totalAmount"@);
                let invoice_payload = field::<String>(m, "invoicePayload"@);
                let shipping_option_id = field::<String>(m, "shippingOptionId"@);
                let order_info = optional_field::<OrderInfo>(m, "orderInfo"@);
                let telegram_payment_charge_id = field::<String>(m, "telegramPaymentChargeId"@);
                let provider_payment_charge_id = field::<String>(m, "providerPaymentChargeId"@);
                if invoice_message_id is Err {
                    invoice_message_id
                } else if currency is Err {
                    currency
                } else if total_amount is Err {
                    total_amount
                } else if invoice_payload is Err {
                    invoice_payload
                } else if shipping_option_id is Err {
                    shipping_option_id
                } else if order_info is Err {
                    order_info
                } else if telegram_payment_charge_id is Err {
                    telegram_payment_charge_id
                } else if provider_payment_charge_id is Err {
                    provider_payment_charge_id
                } else {
                    Ok(
                        tagged(
                            Map::empty()
                                .insert("invoiceMessageId"@, invoice_message_id->Ok_0)
                                .insert("currency"@, currency->Ok_0)
                                .insert("totalAmount"@, total_amount->Ok_0)
                                .insert("invoicePayload"@, invoice_payload->Ok_0)
                                .insert("shippingOptionId"@, shipping_option_id->Ok_0)
                                .insert("orderInfo"@, order_info->Ok_0)
                                .insert(
                                    "telegramPaymentChargeId"@,
                                    telegram_payment_charge_id->Ok_0,
                                )
                                .insert(
                                    "providerPaymentChargeId"@,
                                    provider_payment_charge_id->Ok_0,
                                ),
                            "messagePaymentSuccessfulBot"@,
                        ),
                    )
                }
            },
            _ => Err(Fault::TypeMismatch(at)),
        }
    }

    fn encode(&self) -> (j: Json) {
        proof {
            reveal(<MessagePaymentSuccessfulBot as Wire>::wire);
        }
        let mut members: Vec<Member> = Vec::new();
        put(&mut members, "invoiceMessageId", self.invoice_message_id.encode());
        put(&mut members, "currency", self.currency.encode());
        put(&mut members, "totalAmount", self.total_amount.encode());
        put(&mut members, "invoicePayload", self.invoice_payload.encode());
        put(&mut members, "shippingOptionId", self.shipping_option_id.encode());
        put(&mut members, "orderInfo", self.order_info.encode());
        put(&mut members, "telegramPaymentChargeId", self.telegram_payment_charge_id.encode());
        put(&mut members, "providerPaymentChargeId", self.provider_payment_charge_id.encode());
        seal(members, "messagePaymentSuccessfulBot")
    }

    fn decode(j: &Json, at: &str) -> (r: Result<Self, DecodeError>) {
        proof {
            reveal(<MessagePaymentSuccessfulBot as Wire>::wire);
            reveal(<MessagePaymentSuccessfulBot as Wire>::parse);
        }
        let members = members_of(j, at)?;
        let invoice_message_id = read_field::<i64>(members, "invoiceMessageId")?;
        let currency = read_field::<String>(members, "currency")?;
        let total_amount = read_field::<i64>(members, "totalAmount")?;
        let invoice_payload = read_field::<String>(members, "invoicePayload")?;
        let shipping_option_id = read_field::<String>(members, "shippingOptionId")?;
        let order_info = read_optional::<OrderInfo>(members, "orderInfo")?;
        let telegram_payment_charge_id = read_field::<String>(members, "telegramPaymentChargeId")?;
        let provider_payment_charge_id = read_field::<String>(members, "providerPaymentChargeId")?;
        Ok(MessagePaymentSuccessfulBot {
            invoice_message_id,
            currency,
            total_amount,
            invoice_payload,
            shipping_option_id,
            order_info,
            telegram_payment_charge_id,
            provider_payment_charge_id,
        })
    }

    proof fn round_trip(&self, at: Seq<char>) {
        reveal(<MessagePaymentSuccessfulBot as Wire>::wire);
        reveal(<MessagePaymentSuccessfulBot as Wire>::parse);
        reveal_strlit("@type");
        reveal_strlit("currency");
        reveal_strlit("invoiceMessageId");
        reveal_strlit("invoicePayload");
        reveal_strlit("orderInfo");
        reveal_strlit("providerPaymentChargeId");
        reveal_strlit("shippingOptionId");
        reveal_strlit("telegramPaymentChargeId");
        reveal_strlit("totalAmount");
        assert("@type"@.len() == 5);
        assert("currency"@.len() == 8);
        assert("invoiceMessageId"@.len() == 16 && "invoiceMessageId"@[0] == 'i');
        assert("invoicePayload"@.len() == 14);
        assert("orderInfo"@.len() == 9);
        assert("providerPaymentChargeId"@.len() == 23 && "providerPaymentChargeId"@[0] == 'p');
        assert("shippingOptionId"@.len() == 16 && "shippingOptionId"@[0] == 's');
        assert("telegramPaymentChargeId"@.len() == 23 && "telegramPaymentChargeId"@[0] == 't');
        assert("totalAmount"@.len() == 11);
        self.invoice_message_id.round_trip("invoiceMessageId"@);
        self.currency.round_trip("currency"@);
        self.total_amount.round_trip("totalAmount"@);
        self.invoice_payload.round_trip("invoicePayload"@);
        self.shipping_option_id.round_trip("shippingOptionId"@);
        self.order_info.round_trip("orderInfo"@);
        self.telegram_payment_charge_id.round_trip("telegramPaymentChargeId"@);
        self.provider_payment_charge_id.round_trip("providerPaymentChargeId"@);
    }
}

impl Tagged for MessagePaymentSuccessfulBot {
    open spec fn known(tag: Seq<char>) -> bool {
        tag == "messagePaymentSuccessfulBot"@
    }

    fn knows(tag: &str) -> (r: bool) {
        same_text(tag, "messagePaymentSuccessfulBot")
    }

    proof fn tag_known(&self) {
        reveal(<MessagePaymentSuccessfulBot as Wire>::wire);
        assert(tag_of(self.wire()) == Some("messagePaymentSuccessfulBot"@));
        assert(Self::known("messagePaymentSuccessfulBot"@));
    }
}

/// A contact has registered with Telegram
#[derive(Debug, Clone, PartialEq)]
pub struct MessageContactRegistered {}

impl Wire for MessageContactRegistered {
    #[verifier::opaque]
    open spec fn wire(&self) -> Doc {
        tagged(Map::empty(), "messageContactRegistered"@)
    }

    #[verifier::opaque]
    open spec fn parse(d: Doc, at: Seq<char>) -> Result<Doc, Fault> {
        match d {
            Doc::Object(_) => Ok(tagged(Map::empty(), "messageContactRegistered"@)),
            _ => Err(Fault::TypeMismatch(at)),
        }
    }

    fn encode(&self) -> (j: Json) {
        proof {
            reveal(<MessageContactRegistered as Wire>::wire);
        }
        seal(Vec::new(), "messageContactRegistered")
    }

    fn decode(j: &Json, at: &str) -> (r: Result<Self, DecodeError>) {
        proof {
            reveal(<MessageContactRegistered as Wire>::wire);
            reveal(<MessageContactRegistered as Wire>::parse);
        }
        let _ = members_of(j, at)?;
        Ok(MessageContactRegistered {})
    }

    proof fn round_trip(&self, at: Seq<char>) {
        reveal(<MessageContactRegistered as Wire>::wire);
        reveal(<MessageContactRegistered as Wire>::parse);
    }
}

impl Tagged for MessageContactRegistered {
    open spec fn known(tag: Seq<char>) -> bool {
        tag == "messageContactRegistered"@
    }

    fn knows(tag: &str) -> (r: bool) {
        same_text(tag, "messageContactRegistered")
    }

    proof fn tag_known(&self) {
        reveal(<MessageContactRegistered as Wire>::wire);
        assert(tag_of(self.wire()) == Some("messageContactRegistered"@));
        assert(Self::known("messageContactRegistered"@));
    }
}

/// The current user has connected a website by logging in using Telegram Login Widget on it
#[derive(Debug, Clone, PartialEq)]
pub struct MessageWebsiteConnected {
    /// Domain name of the connected website
    pub domain_name: String,
}

impl Wire for MessageWebsiteConnected {
    #[verifier::opaque]
    open spec fn wire(&self) -> Doc {
        tagged(
            Map::empty()
                .insert("domainName"@, self.domain_name.wire()),
            "messageWebsiteConnected"@,
        )
    }

    #[verifier::opaque]
    open spec fn parse(d: Doc, at: Seq<char>) -> Result<Doc, Fault> {
        match d {
            Doc::Object(m) => {
                let domain_name = field::<String>(m, "domainName"@);
                if domain_name is Err {
                    domain_name
                } else {
                    Ok(
                        tagged(
                            Map::empty()
                                .insert("domainName"@, domain_name->Ok_0),
                            "messageWebsiteConnected"@,
                        ),
                    )
                }
            },
            _ => Err(Fault::TypeMismatch(at)),
        }
    }

    fn encode(&self) -> (j: Json) {
        proof {
            reveal(<MessageWebsiteConnected as Wire>::wire);
        }
        let mut members: Vec<Member> = Vec::new();
        put(&mut members, "domainName", self.domain_name.encode());
        seal(members, "messageWebsiteConnected")
    }

    fn decode(j: &Json, at: &str) -> (r: Result<Self, DecodeError>) {
        proof {
            reveal(<MessageWebsiteConnected as Wire>::wire);
            reveal(<MessageWebsiteConnected as Wire>::parse);
        }
        let members = members_of(j, at)?;
        let domain_name = read_field::<String>(members, "domainName")?;
        Ok(MessageWebsiteConnected { domain_name })
    }

    proof fn round_trip(&self, at: Seq<char>) {
        reveal(<MessageWebsiteConnected as Wire>::wire);
        reveal(<MessageWebsiteConnected as Wire>::parse);
        reveal_strlit("@type");
        reveal_strlit("domainName");
        assert("@type"@.len() == 5);
        assert("domainName"@.len() == 10);
        self.domain_name.round_trip("domainName"@);
    }
}

impl Tagged for MessageWebsiteConnected {
    open spec fn known(tag: Seq<char>) -> bool {
        tag == "messageWebsiteConnected"@
    }

    fn knows(tag: &str) -> (r: bool) {
        same_text(tag, "messageWebsiteConnected")
    }

    proof fn tag_known(&self) {
        reveal(<MessageWebsiteConnected as Wire>::wire);
        assert(tag_of(self.wire()) == Some("messageWebsiteConnected"@));
        assert(Self::known("messageWebsiteConnected"@));
    }
}

/// Telegram Passport data has been sent
#[derive(Debug, Clone, PartialEq)]
pub struct MessagePassportDataSent {
    /// List of Telegram Passport element types sent
    pub types: Vec<PassportElementType>,
}

impl Wire for MessagePassportDataSent {
    #[verifier::opaque]
    open spec fn wire(&self) -> Doc {
        tagged(
            Map::empty()
                .insert("types"@, self.types.wire()),
            "messagePassportDataSent"@,
        )
    }

    #[verifier::opaque]
    open spec fn parse(d: Doc, at: Seq<char>) -> Result<Doc, Fault> {
        match d {
            Doc::Object(m) => {
                let types = field::<Vec<PassportElementType>>(m, "types"@);
                if types is Err {
                    types
                } else {
                    Ok(
                        tagged(
                            Map::empty()
                                .insert("types"@, types->Ok_0),
                            "messagePassportDataSent"@,
                        ),
                    )
                }
            },
            _ => Err(Fault::TypeMismatch(at)),
        }
    }

    fn encode(&self) -> (j: Json) {
        proof {
            reveal(<MessagePassportDataSent as Wire>::wire);
        }
        let mut members: Vec<Member> = Vec::new();
        put(&mut members, "types", self.types.encode());
        seal(members, "messagePassportDataSent")
    }

    fn decode(j: &Json, at: &str) -> (r: Result<Self, DecodeError>) {
        proof {
            reveal(<MessagePassportDataSent as Wire>::wire);
            reveal(<MessagePassportDataSent as Wire>::parse);
        }
        let members = members_of(j, at)?;
        let types = read_field::<Vec<PassportElementType>>(members, "types")?;
        Ok(MessagePassportDataSent { types })
    }

    proof fn round_trip(&self, at: Seq<char>) {
        reveal(<MessagePassportDataSent as Wire>::wire);
        reveal(<MessagePassportDataSent as Wire>::parse);
        reveal_strlit("@type");
        reveal_strlit("types");
        assert("@type"@.len() == 5 && "@type"@[0] == '@');
        assert("types"@.len() == 5 && "types"@[0] == 't');
        self.types.round_trip("types"@);
    }
}

impl Tagged for MessagePassportDataSent {
    open spec fn known(tag: Seq<char>) -> bool {
        tag == "messagePassportDataSent"@
    }

    fn knows(tag: &str) -> (r: bool) {
        same_text(tag, "messagePassportDataSent")
    }

    proof fn tag_known(&self) {
        reveal(<MessagePassportDataSent as Wire>::wire);
        assert(tag_of(self.wire()) == Some("messagePassportDataSent"@));
        assert(Self::known("messagePassportDataSent"@));
    }
}

/// Telegram Passport data has been received; for bots only
#[derive(Debug, Clone, PartialEq)]
pub struct MessagePassportDataReceived {
    /// List of received Telegram Passport elements
    pub elements: Vec<EncryptedPassportElement>,
    /// Encrypted data credentials
    pub credentials: EncryptedCredentials,
}

impl Wire for MessagePassportDataReceived {
    #[verifier::opaque]
    open spec fn wire(&self) -> Doc {
        tagged(
            Map::empty()
                .insert("elements"@, self.elements.wire())
                .insert("credentials"@, self.credentials.wire()),
            "messagePassportDataReceived"@,
        )
    }

    #[verifier::opaque]
    open spec fn parse(d: Doc, at: Seq<char>) -> Result<Doc, Fault> {
        match d {
            Doc::Object(m) => {
                let elements = field::<Vec<EncryptedPassportElement>>(m, "elements"@);
                let credentials = field::<EncryptedCredentials>(m, "credentials"@);
                if elements is Err {
                    elements
                } else if credentials is Err {
                    credentials
                } else {
                    Ok(
                        tagged(
                            Map::empty()
                                .insert("elements"@, elements->Ok_0)
                                .insert("credentials"@, credentials->Ok_0),
                            "messagePassportDataReceived"@,
                        ),
                    )
                }
            },
            _ => Err(Fault::TypeMismatch(at)),
        }
    }

    fn encode(&self) -> (j: Json) {
        proof {
            reveal(<MessagePassportDataReceived as Wire>::wire);
        }
        let mut members: Vec<Member> = Vec::new();
        put(&mut members, "elements", self.elements.encode());
        put(&mut members, "credentials", self.credentials.encode());
        seal(members, "messagePassportDataReceived")
    }

    fn decode(j: &Json, at: &str) -> (r: Result<Self, DecodeError>) {
        proof {
            reveal(<MessagePassportDataReceived as Wire>::wire);
            reveal(<MessagePassportDataReceived as Wire>::parse);
        }
        let members = members_of(j, at)?;
        let elements = read_field::<Vec<EncryptedPassportElement>>(members, "elements")?;
        let credentials = read_field::<EncryptedCredentials>(members, "credentials")?;
        Ok(MessagePassportDataReceived { elements, credentials })
    }

    proof fn round_trip(&self, at: Seq<char>) {
        reveal(<MessagePassportDataReceived as Wire>::wire);
        reveal(<MessagePassportDataReceived as Wire>::parse);
        reveal_strlit("@type");
        reveal_strlit("credentials");
        reveal_strlit("elements");
        assert("@type"@.len() == 5);
        assert("credentials"@.len() == 11);
        assert("elements"@.len() == 8);
        self.elements.round_trip("elements"@);
        self.credentials.round_trip("credentials"@);
    }
}

impl Tagged for MessagePassportDataReceived {
    open spec fn known(tag: Seq<char>) -> bool {
        tag == "messagePassportDataReceived"@
    }

    fn knows(tag: &str) -> (r: bool) {
        same_text(tag, "messagePassportDataReceived")
    }

    proof fn tag_known(&self) {
        reveal(<MessagePassportDataReceived as Wire>::wire);
        assert(tag_of(self.wire()) == Some("messagePassportDataReceived"@));
        assert(Self::known("messagePassportDataReceived"@));
    }
}

/// Message content that is not supported by the client
#[derive(Debug, Clone, PartialEq)]
pub struct MessageUnsupported {}

impl Wire for MessageUnsupported {
    #[verifier::opaque]
    open spec fn wire(&self) -> Doc {
        tagged(Map::empty(), "messageUnsupported"@)
    }

    #[verifier::opaque]
    open spec fn parse(d: Doc, at: Seq<char>) -> Result<Doc, Fault> {
        match d {
            Doc::Object(_) => Ok(tagged(Map::empty(), "messageUnsupported"@)),
            _ => Err(Fault::TypeMismatch(at)),
        }
    }

    fn encode(&self) -> (j: Json) {
        proof {
            reveal(<MessageUnsupported as Wire>::wire);
        }
        seal(Vec::new(), "messageUnsupported")
    }

    fn decode(j: &Json, at: &str) -> (r: Result<Self, DecodeError>) {
        proof {
            reveal(<MessageUnsupported as Wire>::wire);
            reveal(<MessageUnsupported as Wire>::parse);
        }
        let _ = members_of(j, at)?;
        Ok(MessageUnsupported {})
    }

    proof fn round_trip(&self, at: Seq<char>) {
        reveal(<MessageUnsupported as Wire>::wire);
        reveal(<MessageUnsupported as Wire>::parse);
    }
}

impl Tagged for MessageUnsupported {
    open spec fn known(tag: Seq<char>) -> bool {
        tag == "messageUnsupported"@
    }

    fn knows(tag: &str) -> (r: bool) {
        same_text(tag, "messageUnsupported")
    }

    proof fn tag_known(&self) {
        reveal(<MessageUnsupported as Wire>::wire);
        assert(tag_of(self.wire()) == Some("messageUnsupported"@));
        assert(Self::known("messageUnsupported"@));
    }
}

/// Contains the content of a message
#[derive(Debug, Clone, PartialEq)]
pub enum MessageContent {
    MessageText(MessageText),
    MessageAnimation(MessageAnimation),
    MessageAudio(MessageAudio),
    MessageDocument(MessageDocument),
    MessagePhoto(MessagePhoto),
    MessageExpiredPhoto(MessageExpiredPhoto),
    MessageSticker(MessageSticker),
    MessageVideo(MessageVideo),
    MessageExpiredVideo(MessageExpiredVideo),
    MessageVideoNote(MessageVideoNote),
    MessageVoiceNote(MessageVoiceNote),
    MessageLocation(MessageLocation),
    MessageVenue(MessageVenue),
    MessageContact(MessageContact),
    MessageGame(MessageGame),
    MessagePoll(MessagePoll),
    MessageInvoice(MessageInvoice),
    MessageCall(MessageCall),
    MessageBasicGroupChatCreate(MessageBasicGroupChatCreate),
    MessageSupergroupChatCreate(MessageSupergroupChatCreate),
    MessageChatChangeTitle(MessageChatChangeTitle),
    MessageChatChangePhoto(MessageChatChangePhoto),
    MessageChatDeletePhoto(MessageChatDeletePhoto),
    MessageChatAddMembers(MessageChatAddMembers),
    MessageChatJoinByLink(MessageChatJoinByLink),
    MessageChatDeleteMember(MessageChatDeleteMember),
    MessageChatUpgradeTo(MessageChatUpgradeTo),
    MessageChatUpgradeFrom(MessageChatUpgradeFrom),
    MessagePinMessage(MessagePinMessage),
    MessageScreenshotTaken(MessageScreenshotTaken),
    MessageChatSetTtl(MessageChatSetTtl),
    MessageCustomServiceAction(MessageCustomServiceAction),
    MessageGameScore(MessageGameScore),
    MessagePaymentSuccessful(MessagePaymentSuccessful),
    MessagePaymentSuccessfulBot(MessagePaymentSuccessfulBot),
    MessageContactRegistered(MessageContactRegistered),
    MessageWebsiteConnected(MessageWebsiteConnected),
    MessagePassportDataSent(MessagePassportDataSent),
    MessagePassportDataReceived(MessagePassportDataReceived),
    MessageUnsupported(MessageUnsupported),
}

impl Wire for MessageContent {
    #[verifier::opaque]
    open spec fn wire(&self) -> Doc {
        match self {
            Self::MessageText(p) => p.wire(),
            Self::MessageAnimation(p) => p.wire(),
            Self::MessageAudio(p) => p.wire(),
            Self::MessageDocument(p) => p.wire(),
            Self::MessagePhoto(p) => p.wire(),
            Self::MessageExpiredPhoto(p) => p.wire(),
            Self::MessageSticker(p) => p.wire(),
            Self::MessageVideo(p) => p.wire(),
            Self::MessageExpiredVideo(p) => p.wire(),
            Self::MessageVideoNote(p) => p.wire(),
            Self::MessageVoiceNote(p) => p.wire(),
            Self::MessageLocation(p) => p.wire(),
            Self::MessageVenue(p) => p.wire(),
            Self::MessageContact(p) => p.wire(),
            Self::MessageGame(p) => p.wire(),
            Self::MessagePoll(p) => p.wire(),
            Self::MessageInvoice(p) => p.wire(),
            Self::MessageCall(p) => p.wire(),
            Self::MessageBasicGroupChatCreate(p) => p.wire(),
            Self::MessageSupergroupChatCreate(p) => p.wire(),
            Self::MessageChatChangeTitle(p) => p.wire(),
            Self::MessageChatChangePhoto(p) => p.wire(),
            Self::MessageChatDeletePhoto(p) => p.wire(),
            Self::MessageChatAddMembers(p) => p.wire(),
            Self::MessageChatJoinByLink(p) => p.wire(),
            Self::MessageChatDeleteMember(p) => p.wire(),
            Self::MessageChatUpgradeTo(p) => p.wire(),
            Self::MessageChatUpgradeFrom(p) => p.wire(),
            Self::MessagePinMessage(p) => p.wire(),
            Self::MessageScreenshotTaken(p) => p.wire(),
            Self::MessageChatSetTtl(p) => p.wire(),
            Self::MessageCustomServiceAction(p) => p.wire(),
            Self::MessageGameScore(p) => p.wire(),
            Self::MessagePaymentSuccessful(p) => p.wire(),
            Self::MessagePaymentSuccessfulBot(p) => p.wire(),
            Self::MessageContactRegistered(p) => p.wire(),
            Self::MessageWebsiteConnected(p) => p.wire(),
            Self::MessagePassportDataSent(p) => p.wire(),
            Self::MessagePassportDataReceived(p) => p.wire(),
            Self::MessageUnsupported(p) => p.wire(),
        }
    }

    #[verifier::opaque]
    open spec fn parse(d: Doc, at: Seq<char>) -> Result<Doc, Fault> {
        match d {
            Doc::Object(_) => match tag_of(d) {
                Some(t) => if t == "messageText"@ {
                    MessageText::parse(d, at)
                } else if t == "messageAnimation"@ {
                    MessageAnimation::parse(d, at)
                } else if t == "messageAudio"@ {
                    MessageAudio::parse(d, at)
                } else if t == "messageDocument"@ {
                    MessageDocument::parse(d, at)
                } else if t == "messagePhoto"@ {
                    MessagePhoto::parse(d, at)
                } else if t == "messageExpiredPhoto"@ {
                    MessageExpiredPhoto::parse(d, at)
                } else if t == "messageSticker"@ {
                    MessageSticker::parse(d, at)
                } else if t == "messageVideo"@ {
                    MessageVideo::parse(d, at)
                } else if t == "messageExpiredVideo"@ {
                    MessageExpiredVideo::parse(d, at)
                } else if t == "messageVideoNote"@ {
                    MessageVideoNote::parse(d, at)
                } else if t == "messageVoiceNote"@ {
                    MessageVoiceNote::parse(d, at)
                } else if t == "messageLocation"@ {
                    MessageLocation::parse(d, at)
                } else if t == "messageVenue"@ {
                    MessageVenue::parse(d, at)
                } else if t == "messageContact"@ {
                    MessageContact::parse(d, at)
                } else if t == "messageGame"@ {
                    MessageGame::parse(d, at)
                } else if t == "messagePoll"@ {
                    MessagePoll::parse(d, at)
                } else if t == "messageInvoice"@ {
                    MessageInvoice::parse(d, at)
                } else if t == "messageCall"@ {
                    MessageCall::parse(d, at)
                } else if t == "messageBasicGroupChatCreate"@ {
                    MessageBasicGroupChatCreate::parse(d, at)
                } else if t == "messageSupergroupChatCreate"@ {
                    MessageSupergroupChatCreate::parse(d, at)
                } else if t == "messageChatChangeTitle"@ {
                    MessageChatChangeTitle::parse(d, at)
                } else if t == "messageChatChangePhoto"@ {
                    MessageChatChangePhoto::parse(d, at)
                } else if t == "messageChatDeletePhoto"@ {
                    MessageChatDeletePhoto::parse(d, at)
                } else if t == "messageChatAddMembers"@ {
                    MessageChatAddMembers::parse(d, at)
                } else if t == "messageChatJoinByLink"@ {
                    MessageChatJoinByLink::parse(d, at)
                } else if t == "messageChatDeleteMember"@ {
                    MessageChatDeleteMember::parse(d, at)
                } else if t == "messageChatUpgradeTo"@ {
                    MessageChatUpgradeTo::parse(d, at)
                } else if t == "messageChatUpgradeFrom"@ {
                    MessageChatUpgradeFrom::parse(d, at)
                } else if t == "messagePinMessage"@ {
                    MessagePinMessage::parse(d, at)
                } else if t == "messageScreenshotTaken"@ {
                    MessageScreenshotTaken::parse(d, at)
                } else if t == "messageChatSetTtl"@ {
                    MessageChatSetTtl::parse(d, at)
                } else if t == "messageCustomServiceAction"@ {
                    MessageCustomServiceAction::parse(d, at)
                } else if t == "messageGameScore"@ {
                    MessageGameScore::parse(d, at)
                } else if t == "messagePaymentSuccessful"@ {
                    MessagePaymentSuccessful::parse(d, at)
                } else if t == "messagePaymentSuccessfulBot"@ {
                    MessagePaymentSuccessfulBot::parse(d, at)
                } else if t == "messageContactRegistered"@ {
                    MessageContactRegistered::parse(d, at)
                } else if t == "messageWebsiteConnected"@ {
                    MessageWebsiteConnected::parse(d, at)
                } else if t == "messagePassportDataSent"@ {
                    MessagePassportDataSent::parse(d, at)
                } else if t == "messagePassportDataReceived"@ {
                    MessagePassportDataReceived::parse(d, at)
                } else if t == "messageUnsupported"@ {
                    MessageUnsupported::parse(d, at)
                } else {
                    Err(Fault::UnknownVariant(t))
                },
                None => Err(Fault::MissingDiscriminator),
            },
            _ => Err(Fault::TypeMismatch(at)),
        }
    }

    fn encode(&self) -> (j: Json) {
        proof {
            reveal(<MessageContent as Wire>::wire);
        }
        match self {
            Self::MessageText(p) => p.encode(),
            Self::MessageAnimation(p) => p.encode(),
            Self::MessageAudio(p) => p.encode(),
            Self::MessageDocument(p) => p.encode(),
            Self::MessagePhoto(p) => p.encode(),
            Self::MessageExpiredPhoto(p) => p.encode(),
            Self::MessageSticker(p) => p.encode(),
            Self::MessageVideo(p) => p.encode(),
            Self::MessageExpiredVideo(p) => p.encode(),
            Self::MessageVideoNote(p) => p.encode(),
            Self::MessageVoiceNote(p) => p.encode(),
            Self::MessageLocation(p) => p.encode(),
            Self::MessageVenue(p) => p.encode(),
            Self::MessageContact(p) => p.encode(),
            Self::MessageGame(p) => p.encode(),
            Self::MessagePoll(p) => p.encode(),
            Self::MessageInvoice(p) => p.encode(),
            Self::MessageCall(p) => p.encode(),
            Self::MessageBasicGroupChatCreate(p) => p.encode(),
            Self::MessageSupergroupChatCreate(p) => p.encode(),
            Self::MessageChatChangeTitle(p) => p.encode(),
            Self::MessageChatChangePhoto(p) => p.encode(),
            Self::MessageChatDeletePhoto(p) => p.encode(),
            Self::MessageChatAddMembers(p) => p.encode(),
            Self::MessageChatJoinByLink(p) => p.encode(),
            Self::MessageChatDeleteMember(p) => p.encode(),
            Self::MessageChatUpgradeTo(p) => p.encode(),
            Self::MessageChatUpgradeFrom(p) => p.encode(),
            Self::MessagePinMessage(p) => p.encode(),
            Self::MessageScreenshotTaken(p) => p.encode(),
            Self::MessageChatSetTtl(p) => p.encode(),
            Self::MessageCustomServiceAction(p) => p.encode(),
            Self::MessageGameScore(p) => p.encode(),
            Self::MessagePaymentSuccessful(p) => p.encode(),
            Self::MessagePaymentSuccessfulBot(p) => p.encode(),
            Self::MessageContactRegistered(p) => p.encode(),
            Self::MessageWebsiteConnected(p) => p.encode(),
            Self::MessagePassportDataSent(p) => p.encode(),
            Self::MessagePassportDataReceived(p) => p.encode(),
            Self::MessageUnsupported(p) => p.encode(),
        }
    }

    fn decode(j: &Json, at: &str) -> (r: Result<Self, DecodeError>) {
        proof {
            reveal(<MessageContent as Wire>::wire);
            reveal(<MessageContent as Wire>::parse);
        }
        let members = members_of(j, at)?;
        let tag = discriminator(members)?;
        if same_text(tag, "messageText") {
            Ok(Self::MessageText(MessageText::decode(j, at)?))
        } else if same_text(tag, "messageAnimation") {
            Ok(Self::MessageAnimation(MessageAnimation::decode(j, at)?))
        } else if same_text(tag, "messageAudio") {
            Ok(Self::MessageAudio(MessageAudio::decode(j, at)?))
        } else if same_text(tag, "messageDocument") {
            Ok(Self::MessageDocument(MessageDocument::decode(j, at)?))
        } else if same_text(tag, "messagePhoto") {
            Ok(Self::MessagePhoto(MessagePhoto::decode(j, at)?))
        } else if same_text(tag, "messageExpiredPhoto") {
            Ok(Self::MessageExpiredPhoto(MessageExpiredPhoto::decode(j, at)?))
        } else if same_text(tag, "messageSticker") {
            Ok(Self::MessageSticker(MessageSticker::decode(j, at)?))
        } else if same_text(tag, "messageVideo") {
            Ok(Self::MessageVideo(MessageVideo::decode(j, at)?))
        } else if same_text(tag, "messageExpiredVideo") {
            Ok(Self::MessageExpiredVideo(MessageExpiredVideo::decode(j, at)?))
        } else if same_text(tag, "messageVideoNote") {
            Ok(Self::MessageVideoNote(MessageVideoNote::decode(j, at)?))
        } else if same_text(tag, "messageVoiceNote") {
            Ok(Self::MessageVoiceNote(MessageVoiceNote::decode(j, at)?))
        } else if same_text(tag, "messageLocation") {
            Ok(Self::MessageLocation(MessageLocation::decode(j, at)?))
        } else if same_text(tag, "messageVenue") {
            Ok(Self::MessageVenue(MessageVenue::decode(j, at)?))
        } else if same_text(tag, "messageContact") {
            Ok(Self::MessageContact(MessageContact::decode(j, at)?))
        } else if same_text(tag, "messageGame") {
            Ok(Self::MessageGame(MessageGame::decode(j, at)?))
        } else if same_text(tag, "messagePoll") {
            Ok(Self::MessagePoll(MessagePoll::decode(j, at)?))
        } else if same_text(tag, "messageInvoice") {
            Ok(Self::MessageInvoice(MessageInvoice::decode(j, at)?))
        } else if same_text(tag, "messageCall") {
            Ok(Self::MessageCall(MessageCall::decode(j, at)?))
        } else if same_text(tag, "messageBasicGroupChatCreate") {
            Ok(Self::MessageBasicGroupChatCreate(MessageBasicGroupChatCreate::decode(j, at)?))
        } else if same_text(tag, "messageSupergroupChatCreate") {
            Ok(Self::MessageSupergroupChatCreate(MessageSupergroupChatCreate::decode(j, at)?))
        } else if same_text(tag, "messageChatChangeTitle") {
            Ok(Self::MessageChatChangeTitle(MessageChatChangeTitle::decode(j, at)?))
        } else if same_text(tag, "messageChatChangePhoto") {
            Ok(Self::MessageChatChangePhoto(MessageChatChangePhoto::decode(j, at)?))
        } else if same_text(tag, "messageChatDeletePhoto") {
            Ok(Self::MessageChatDeletePhoto(MessageChatDeletePhoto::decode(j, at)?))
        } else if same_text(tag, "messageChatAddMembers") {
            Ok(Self::MessageChatAddMembers(MessageChatAddMembers::decode(j, at)?))
        } else if same_text(tag, "messageChatJoinByLink") {
            Ok(Self::MessageChatJoinByLink(MessageChatJoinByLink::decode(j, at)?))
        } else if same_text(tag, "messageChatDeleteMember") {
            Ok(Self::MessageChatDeleteMember(MessageChatDeleteMember::decode(j, at)?))
        } else if same_text(tag, "messageChatUpgradeTo") {
            Ok(Self::MessageChatUpgradeTo(MessageChatUpgradeTo::decode(j, at)?))
        } else if same_text(tag, "messageChatUpgradeFrom") {
            Ok(Self::MessageChatUpgradeFrom(MessageChatUpgradeFrom::decode(j, at)?))
        } else if same_text(tag, "messagePinMessage") {
            Ok(Self::MessagePinMessage(MessagePinMessage::decode(j, at)?))
        } else if same_text(tag, "messageScreenshotTaken") {
            Ok(Self::MessageScreenshotTaken(MessageScreenshotTaken::decode(j, at)?))
        } else if same_text(tag, "messageChatSetTtl") {
            Ok(Self::MessageChatSetTtl(MessageChatSetTtl::decode(j, at)?))
        } else if same_text(tag, "messageCustomServiceAction") {
            Ok(Self::MessageCustomServiceAction(MessageCustomServiceAction::decode(j, at)?))
        } else if same_text(tag, "messageGameScore") {
            Ok(Self::MessageGameScore(MessageGameScore::decode(j, at)?))
        } else if same_text(tag, "messagePaymentSuccessful") {
            Ok(Self::MessagePaymentSuccessful(MessagePaymentSuccessful::decode(j, at)?))
        } else if same_text(tag, "messagePaymentSuccessfulBot") {
            Ok(Self::MessagePaymentSuccessfulBot(MessagePaymentSuccessfulBot::decode(j, at)?))
        } else if same_text(tag, "messageContactRegistered") {
            Ok(Self::MessageContactRegistered(MessageContactRegistered::decode(j, at)?))
        } else if same_text(tag, "messageWebsiteConnected") {
            Ok(Self::MessageWebsiteConnected(MessageWebsiteConnected::decode(j, at)?))
        } else if same_text(tag, "messagePassportDataSent") {
            Ok(Self::MessagePassportDataSent(MessagePassportDataSent::decode(j, at)?))
        } else if same_text(tag, "messagePassportDataReceived") {
            Ok(Self::MessagePassportDataReceived(MessagePassportDataReceived::decode(j, at)?))
        } else if same_text(tag, "messageUnsupported") {
            Ok(Self::MessageUnsupported(MessageUnsupported::decode(j, at)?))
        } else {
            Err(DecodeError::UnknownVariant(tag.to_owned()))
        }
    }

    proof fn round_trip(&self, at: Seq<char>) {
        reveal(<MessageContent as Wire>::wire);
        match self {
            Self::MessageText(p) => {
                p.tag_known();
                Self::selects_message_text(p.wire(), at);
                p.round_trip(at);
            },
            Self::MessageAnimation(p) => {
                p.tag_known();
                Self::selects_message_animation(p.wire(), at);
                p.round_trip(at);
            },
            Self::MessageAudio(p) => {
                p.tag_known();
                Self::selects_message_audio(p.wire(), at);
                p.round_trip(at);
            },
            Self::MessageDocument(p) => {
                p.tag_known();
                Self::selects_message_document(p.wire(), at);
                p.round_trip(at);
            },
            Self::MessagePhoto(p) => {
                p.tag_known();
                Self::selects_message_photo(p.wire(), at);
                p.round_trip(at);
            },
            Self::MessageExpiredPhoto(p) => {
                p.tag_known();
                Self::selects_message_expired_photo(p.wire(), at);
                p.round_trip(at);
            },
            Self::MessageSticker(p) => {
                p.tag_known();
                Self::selects_message_sticker(p.wire(), at);
                p.round_trip(at);
            },
            Self::MessageVideo(p) => {
                p.tag_known();
                Self::selects_message_video(p.wire(), at);
                p.round_trip(at);
            },
            Self::MessageExpiredVideo(p) => {
                p.tag_known();
                Self::selects_message_expired_video(p.wire(), at);
                p.round_trip(at);
            },
            Self::MessageVideoNote(p) => {
                p.tag_known();
                Self::selects_message_video_note(p.wire(), at);
                p.round_trip(at);
            },
            Self::MessageVoiceNote(p) => {
                p.tag_known();
                Self::selects_message_voice_note(p.wire(), at);
                p.round_trip(at);
            },
            Self::MessageLocation(p) => {
                p.tag_known();
                Self::selects_message_location(p.wire(), at);
                p.round_trip(at);
            },
            Self::MessageVenue(p) => {
                p.tag_known();
                Self::selects_message_venue(p.wire(), at);
                p.round_trip(at);
            },
            Self::MessageContact(p) => {
                p.tag_known();
                Self::selects_message_contact(p.wire(), at);
                p.round_trip(at);
            },
            Self::MessageGame(p) => {
                p.tag_known();
                Self::selects_message_game(p.wire(), at);
                p.round_trip(at);
            },
            Self::MessagePoll(p) => {
                p.tag_known();
                Self::selects_message_poll(p.wire(), at);
                p.round_trip(at);
            },
            Self::MessageInvoice(p) => {
                p.tag_known();
                Self::selects_message_invoice(p.wire(), at);
                p.round_trip(at);
            },
            Self::MessageCall(p) => {
                p.tag_known();
                Self::selects_message_call(p.wire(), at);
                p.round_trip(at);
            },
            Self::MessageBasicGroupChatCreate(p) => {
                p.tag_known();
                Self::selects_message_basic_group_chat_create(p.wire(), at);
                p.round_trip(at);
            },
            Self::MessageSupergroupChatCreate(p) => {
                p.tag_known();
                Self::selects_message_supergroup_chat_create(p.wire(), at);
                p.round_trip(at);
            },
            Self::MessageChatChangeTitle(p) => {
                p.tag_known();
                Self::selects_message_chat_change_title(p.wire(), at);
                p.round_trip(at);
            },
            Self::MessageChatChangePhoto(p) => {
                p.tag_known();
                Self::selects_message_chat_change_photo(p.wire(), at);
                p.round_trip(at);
            },
            Self::MessageChatDeletePhoto(p) => {
                p.tag_known();
                Self::selects_message_chat_delete_photo(p.wire(), at);
                p.round_trip(at);
            },
            Self::MessageChatAddMembers(p) => {
                p.tag_known();
                Self::selects_message_chat_add_members(p.wire(), at);
                p.round_trip(at);
            },
            Self::MessageChatJoinByLink(p) => {
                p.tag_known();
                Self::selects_message_chat_join_by_link(p.wire(), at);
                p.round_trip(at);
            },
            Self::MessageChatDeleteMember(p) => {
                p.tag_known();
                Self::selects_message_chat_delete_member(p.wire(), at);
                p.round_trip(at);
            },
            Self::MessageChatUpgradeTo(p) => {
                p.tag_known();
                Self::selects_message_chat_upgrade_to(p.wire(), at);
                p.round_trip(at);
            },
            Self::MessageChatUpgradeFrom(p) => {
                p.tag_known();
                Self::selects_message_chat_upgrade_from(p.wire(), at);
                p.round_trip(at);
            },
            Self::MessagePinMessage(p) => {
                p.tag_known();
                Self::selects_message_pin_message(p.wire(), at);
                p.round_trip(at);
            },
            Self::MessageScreenshotTaken(p) => {
                p.tag_known();
                Self::selects_message_screenshot_taken(p.wire(), at);
                p.round_trip(at);
            },
            Self::MessageChatSetTtl(p) => {
                p.tag_known();
                Self::selects_message_chat_set_ttl(p.wire(), at);
                p.round_trip(at);
            },
            Self::MessageCustomServiceAction(p) => {
                p.tag_known();
                Self::selects_message_custom_service_action(p.wire(), at);
                p.round_trip(at);
            },
            Self::MessageGameScore(p) => {
                p.tag_known();
                Self::selects_message_game_score(p.wire(), at);
                p.round_trip(at);
            },
            Self::MessagePaymentSuccessful(p) => {
                p.tag_known();
                Self::selects_message_payment_successful(p.wire(), at);
                p.round_trip(at);
            },
            Self::MessagePaymentSuccessfulBot(p) => {
                p.tag_known();
                Self::selects_message_payment_successful_bot(p.wire(), at);
                p.round_trip(at);
            },
            Self::MessageContactRegistered(p) => {
                p.tag_known();
                Self::selects_message_contact_registered(p.wire(), at);
                p.round_trip(at);
            },
            Self::MessageWebsiteConnected(p) => {
                p.tag_known();
                Self::selects_message_website_connected(p.wire(), at);
                p.round_trip(at);
            },
            Self::MessagePassportDataSent(p) => {
                p.tag_known();
                Self::selects_message_passport_data_sent(p.wire(), at);
                p.round_trip(at);
            },
            Self::MessagePassportDataReceived(p) => {
                p.tag_known();
                Self::selects_message_passport_data_received(p.wire(), at);
                p.round_trip(at);
            },
            Self::MessageUnsupported(p) => {
                p.tag_known();
                Self::selects_message_unsupported(p.wire(), at);
                p.round_trip(at);
            },
        }
    }
}

impl Tagged for MessageContent {
    open spec fn known(tag: Seq<char>) -> bool {
        ||| tag == "messageText"@
        ||| tag == "messageAnimation"@
        ||| tag == "messageAudio"@
        ||| tag == "messageDocument"@
        ||| tag == "messagePhoto"@
        ||| tag == "messageExpiredPhoto"@
        ||| tag == "messageSticker"@
        ||| tag == "messageVideo"@
        ||| tag == "messageExpiredVideo"@
        ||| tag == "messageVideoNote"@
        ||| tag == "messageVoiceNote"@
        ||| tag == "messageLocation"@
        ||| tag == "messageVenue"@
        ||| tag == "messageContact"@
        ||| tag == "messageGame"@
        ||| tag == "messagePoll"@
        ||| tag == "messageInvoice"@
        ||| tag == "messageCall"@
        ||| tag == "messageBasicGroupChatCreate"@
        ||| tag == "messageSupergroupChatCreate"@
        ||| tag == "messageChatChangeTitle"@
        ||| tag == "messageChatChangePhoto"@
        ||| tag == "messageChatDeletePhoto"@
        ||| tag == "messageChatAddMembers"@
        ||| tag == "messageChatJoinByLink"@
        ||| tag == "messageChatDeleteMember"@
        ||| tag == "messageChatUpgradeTo"@
        ||| tag == "messageChatUpgradeFrom"@
        ||| tag == "messagePinMessage"@
        ||| tag == "messageScreenshotTaken"@
        ||| tag == "messageChatSetTtl"@
        ||| tag == "messageCustomServiceAction"@
        ||| tag == "messageGameScore"@
        ||| tag == "messagePaymentSuccessful"@
        ||| tag == "messagePaymentSuccessfulBot"@
        ||| tag == "messageContactRegistered"@
        ||| tag == "messageWebsiteConnected"@
        ||| tag == "messagePassportDataSent"@
        ||| tag == "messagePassportDataReceived"@
        ||| tag == "messageUnsupported"@
    }

    fn knows(tag: &str) -> (r: bool) {
        same_text(tag, "messageText")
            || same_text(tag, "messageAnimation")
            || same_text(tag, "messageAudio")
            || same_text(tag, "messageDocument")
            || same_text(tag, "messagePhoto")
            || same_text(tag, "messageExpiredPhoto")
            || same_text(tag, "messageSticker")
            || same_text(tag, "messageVideo")
            || same_text(tag, "messageExpiredVideo")
            || same_text(tag, "messageVideoNote")
            || same_text(tag, "messageVoiceNote")
            || same_text(tag, "messageLocation")
            || same_text(tag, "messageVenue")
            || same_text(tag, "messageContact")
            || same_text(tag, "messageGame")
            || same_text(tag, "messagePoll")
            || same_text(tag, "messageInvoice")
            || same_text(tag, "messageCall")
            || same_text(tag, "messageBasicGroupChatCreate")
            || same_text(tag, "messageSupergroupChatCreate")
            || same_text(tag, "messageChatChangeTitle")
            || same_text(tag, "messageChatChangePhoto")
            || same_text(tag, "messageChatDeletePhoto")
            || same_text(tag, "messageChatAddMembers")
            || same_text(tag, "messageChatJoinByLink")
            || same_text(tag, "messageChatDeleteMember")
            || same_text(tag, "messageChatUpgradeTo")
            || same_text(tag, "messageChatUpgradeFrom")
            || same_text(tag, "messagePinMessage")
            || same_text(tag, "messageScreenshotTaken")
            || same_text(tag, "messageChatSetTtl")
            || same_text(tag, "messageCustomServiceAction")
            || same_text(tag, "messageGameScore")
            || same_text(tag, "messagePaymentSuccessful")
            || same_text(tag, "messagePaymentSuccessfulBot")
            || same_text(tag, "messageContactRegistered")
            || same_text(tag, "messageWebsiteConnected")
            || same_text(tag, "messagePassportDataSent")
            || same_text(tag, "messagePassportDataReceived")
            || same_text(tag, "messageUnsupported")
    }

    proof fn tag_known(&self) {
        reveal(<MessageContent as Wire>::wire);
        match self {
            Self::MessageText(p) => p.tag_known(),
            Self::MessageAnimation(p) => p.tag_known(),
            Self::MessageAudio(p) => p.tag_known(),
            Self::MessageDocument(p) => p.tag_known(),
            Self::MessagePhoto(p) => p.tag_known(),
            Self::MessageExpiredPhoto(p) => p.tag_known(),
            Self::MessageSticker(p) => p.tag_known(),
            Self::MessageVideo(p) => p.tag_known(),
            Self::MessageExpiredVideo(p) => p.tag_known(),
            Self::MessageVideoNote(p) => p.tag_known(),
            Self::MessageVoiceNote(p) => p.tag_known(),
            Self::MessageLocation(p) => p.tag_known(),
            Self::MessageVenue(p) => p.tag_known(),
            Self::MessageContact(p) => p.tag_known(),
            Self::MessageGame(p) => p.tag_known(),
            Self::MessagePoll(p) => p.tag_known(),
            Self::MessageInvoice(p) => p.tag_known(),
            Self::MessageCall(p) => p.tag_known(),
            Self::MessageBasicGroupChatCreate(p) => p.tag_known(),
            Self::MessageSupergroupChatCreate(p) => p.tag_known(),
            Self::MessageChatChangeTitle(p) => p.tag_known(),
            Self::MessageChatChangePhoto(p) => p.tag_known(),
            Self::MessageChatDeletePhoto(p) => p.tag_known(),
            Self::MessageChatAddMembers(p) => p.tag_known(),
            Self::MessageChatJoinByLink(p) => p.tag_known(),
            Self::MessageChatDeleteMember(p) => p.tag_known(),
            Self::MessageChatUpgradeTo(p) => p.tag_known(),
            Self::MessageChatUpgradeFrom(p) => p.tag_known(),
            Self::MessagePinMessage(p) => p.tag_known(),
            Self::MessageScreenshotTaken(p) => p.tag_known(),
            Self::MessageChatSetTtl(p) => p.tag_known(),
            Self::MessageCustomServiceAction(p) => p.tag_known(),
            Self::MessageGameScore(p) => p.tag_known(),
            Self::MessagePaymentSuccessful(p) => p.tag_known(),
            Self::MessagePaymentSuccessfulBot(p) => p.tag_known(),
            Self::MessageContactRegistered(p) => p.tag_known(),
            Self::MessageWebsiteConnected(p) => p.tag_known(),
            Self::MessagePassportDataSent(p) => p.tag_known(),
            Self::MessagePassportDataReceived(p) => p.tag_known(),
            Self::MessageUnsupported(p) => p.tag_known(),
        }
    }
}

impl Union for MessageContent {
    proof fn unknown_rejected(d: Doc, at: Seq<char>) {
        reveal(<MessageContent as Wire>::parse);
    }

    proof fn untagged_rejected(d: Doc, at: Seq<char>) {
        reveal(<MessageContent as Wire>::parse);
    }
}

impl MessageContent {
    spec fn measured() -> bool {
        &&& "messageAnimation"@.len() == 16
        &&& "messageAudio"@.len() == 12
        &&& "messageBasicGroupChatCreate"@.len() == 27
        &&& "messageCall"@.len() == 11
        &&& "messageChatAddMembers"@.len() == 21
        &&& "messageChatChangePhoto"@.len() == 22
        &&& "messageChatChangeTitle"@.len() == 22
        &&& "messageChatDeleteMember"@.len() == 23
        &&& "messageChatDeletePhoto"@.len() == 22
        &&& "messageChatJoinByLink"@.len() == 21
        &&& "messageChatSetTtl"@.len() == 17
        &&& "messageChatUpgradeFrom"@.len() == 22
        &&& "messageChatUpgradeTo"@.len() == 20
        &&& "messageContact"@.len() == 14
        &&& "messageContactRegistered"@.len() == 24
        &&& "messageCustomServiceAction"@.len() == 26
        &&& "messageDocument"@.len() == 15
        &&& "messageExpiredPhoto"@.len() == 19
        &&& "messageExpiredVideo"@.len() == 19
        &&& "messageGame"@.len() == 11
        &&& "messageGameScore"@.len() == 16
        &&& "messageInvoice"@.len() == 14
        &&& "messageLocation"@.len() == 15
        &&& "messagePassportDataReceived"@.len() == 27
        &&& "messagePassportDataSent"@.len() == 23
        &&& "messagePaymentSuccessful"@.len() == 24
        &&& "messagePaymentSuccessfulBot"@.len() == 27
        &&& "messagePhoto"@.len() == 12
        &&& "messagePinMessage"@.len() == 17
        &&& "messagePoll"@.len() == 11
        &&& "messageScreenshotTaken"@.len() == 22
        &&& "messageSticker"@.len() == 14
        &&& "messageSupergroupChatCreate"@.len() == 27
        &&& "messageText"@.len() == 11
        &&& "messageUnsupported"@.len() == 18
        &&& "messageVenue"@.len() == 12
        &&& "messageVideo"@.len() == 12
        &&& "messageVideoNote"@.len() == 16
        &&& "messageVoiceNote"@.len() == 16
        &&& "messageWebsiteConnected"@.len() == 23
    }

    proof fn tags_measured()
        ensures
            Self::measured(),
    {
        reveal_strlit("messageAnimation");
        reveal_strlit("messageAudio");
        reveal_strlit("messageBasicGroupChatCreate");
        reveal_strlit("messageCall");
        reveal_strlit("messageChatAddMembers");
        reveal_strlit("messageChatChangePhoto");
        reveal_strlit("messageChatChangeTitle");
        reveal_strlit("messageChatDeleteMember");
        reveal_strlit("messageChatDeletePhoto");
        reveal_strlit("messageChatJoinByLink");
        reveal_strlit("messageChatSetTtl");
        reveal_strlit("messageChatUpgradeFrom");
        reveal_strlit("messageChatUpgradeTo");
        reveal_strlit("messageContact");
        reveal_strlit("messageContactRegistered");
        reveal_strlit("messageCustomServiceAction");
        reveal_strlit("messageDocument");
        reveal_strlit("messageExpiredPhoto");
        reveal_strlit("messageExpiredVideo");
        reveal_strlit("messageGame");
        reveal_strlit("messageGameScore");
        reveal_strlit("messageInvoice");
        reveal_strlit("messageLocation");
        reveal_strlit("messagePassportDataReceived");
        reveal_strlit("messagePassportDataSent");
        reveal_strlit("messagePaymentSuccessful");
        reveal_strlit("messagePaymentSuccessfulBot");
        reveal_strlit("messagePhoto");
        reveal_strlit("messagePinMessage");
        reveal_strlit("messagePoll");
        reveal_strlit("messageScreenshotTaken");
        reveal_strlit("messageSticker");
        reveal_strlit("messageSupergroupChatCreate");
        reveal_strlit("messageText");
        reveal_strlit("messageUnsupported");
        reveal_strlit("messageVenue");
        reveal_strlit("messageVideo");
        reveal_strlit("messageVideoNote");
        reveal_strlit("messageVoiceNote");
        reveal_strlit("messageWebsiteConnected");
    }

    spec fn spelled_11() -> bool {
        &&& "messageCall"@[7] == 'C'
        &&& "messageGame"@[7] == 'G'
        &&& "messagePoll"@[7] == 'P'
        &&& "messageText"@[7] == 'T'
    }

    /// What tells apart the discriminators of 11 characters.
    proof fn tags_spelled_11()
        ensures
            Self::spelled_11(),
    {
        reveal_strlit("messageCall");
        reveal_strlit("messageGame");
        reveal_strlit("messagePoll");
        reveal_strlit("messageText");
    }

    spec fn spelled_12() -> bool {
        &&& "messageAudio"@[8] == 'u'
        &&& "messagePhoto"@[8] == 'h'
        &&& "messageVenue"@[8] == 'e'
        &&& "messageVideo"@[8] == 'i'
    }

    /// What tells apart the discriminators of 12 characters.
    proof fn tags_spelled_12()
        ensures
            Self::spelled_12(),
    {
        reveal_strlit("messageAudio");
        reveal_strlit("messagePhoto");
        reveal_strlit("messageVenue");
        reveal_strlit("messageVideo");
    }

    spec fn spelled_14() -> bool {
        &&& "messageContact"@[7] == 'C'
        &&& "messageInvoice"@[7] == 'I'
        &&& "messageSticker"@[7] == 'S'
    }

    /// What tells apart the discriminators of 14 characters.
    proof fn tags_spelled_14()
        ensures
            Self::spelled_14(),
    {
        reveal_strlit("messageContact");
        reveal_strlit("messageInvoice");
        reveal_strlit("messageSticker");
    }

    spec fn spelled_15() -> bool {
        &&& "messageDocument"@[7] == 'D'
        &&& "messageLocation"@[7] == 'L'
    }

    /// What tells apart the discriminators of 15 characters.
    proof fn tags_spelled_15()
        ensures
            Self::spelled_15(),
    {
        reveal_strlit("messageDocument");
        reveal_strlit("messageLocation");
    }

    spec fn spelled_16() -> bool {
        &&& "messageAnimation"@[8] == 'n'
        &&& "messageGameScore"@[8] == 'a'
        &&& "messageVideoNote"@[8] == 'i'
        &&& "messageVoiceNote"@[8] == 'o'
    }

    /// What tells apart the discriminators of 16 characters.
    proof fn tags_spelled_16()
        ensures
            Self::spelled_16(),
    {
        reveal_strlit("messageAnimation");
        reveal_strlit("messageGameScore");
        reveal_strlit("messageVideoNote");
        reveal_strlit("messageVoiceNote");
    }

    spec fn spelled_17() -> bool {
        &&& "messageChatSetTtl"@[7] == 'C'
        &&& "messagePinMessage"@[7] == 'P'
    }

    /// What tells apart the discriminators of 17 characters.
    proof fn tags_spelled_17()
        ensures
            Self::spelled_17(),
    {
        reveal_strlit("messageChatSetTtl");
        reveal_strlit("messagePinMessage");
    }

    spec fn spelled_19() -> bool {
        &&& "messageExpiredPhoto"@[14] == 'P'
        &&& "messageExpiredVideo"@[14] == 'V'
    }

    /// What tells apart the discriminators of 19 characters.
    proof fn tags_spelled_19()
        ensures
            Self::spelled_19(),
    {
        reveal_strlit("messageExpiredPhoto");
        reveal_strlit("messageExpiredVideo");
    }

    spec fn spelled_21() -> bool {
        &&& "messageChatAddMembers"@[11] == 'A'
        &&& "messageChatJoinByLink"@[11] == 'J'
    }

    /// What tells apart the discriminators of 21 characters.
    proof fn tags_spelled_21()
        ensures
            Self::spelled_21(),
    {
        reveal_strlit("messageChatAddMembers");
        reveal_strlit("messageChatJoinByLink");
    }

    spec fn spelled_22() -> bool {
        &&& "messageChatChangePhoto"@[11] == 'C'
        &&& "messageChatChangePhoto"@[17] == 'P'
        &&& "messageChatChangeTitle"@[11] == 'C'
        &&& "messageChatChangeTitle"@[17] == 'T'
        &&& "messageChatDeletePhoto"@[11] == 'D'
        &&& "messageChatDeletePhoto"@[17] == 'P'
        &&& "messageChatUpgradeFrom"@[11] == 'U'
        &&& "messageChatUpgradeFrom"@[17] == 'e'
        &&& "messageScreenshotTaken"@[11] == 'e'
        &&& "messageScreenshotTaken"@[17] == 'T'
    }

    /// What tells apart the discriminators of 22 characters.
    proof fn tags_spelled_22()
        ensures
            Self::spelled_22(),
    {
        reveal_strlit("messageChatChangePhoto");
        reveal_strlit("messageChatChangeTitle");
        reveal_strlit("messageChatDeletePhoto");
        reveal_strlit("messageChatUpgradeFrom");
        reveal_strlit("messageScreenshotTaken");
    }

    spec fn spelled_23() -> bool {
        &&& "messageChatDeleteMember"@[7] == 'C'
        &&& "messagePassportDataSent"@[7] == 'P'
        &&& "messageWebsiteConnected"@[7] == 'W'
    }

    /// What tells apart the discriminators of 23 characters.
    proof fn tags_spelled_23()
        ensures
            Self::spelled_23(),
    {
        reveal_strlit("messageChatDeleteMember");
        reveal_strlit("messagePassportDataSent");
        reveal_strlit("messageWebsiteConnected");
    }

    spec fn spelled_24() -> bool {
        &&& "messageContactRegistered"@[7] == 'C'
        &&& "messagePaymentSuccessful"@[7] == 'P'
    }

    /// What tells apart the discriminators of 24 characters.
    proof fn tags_spelled_24()
        ensures
            Self::spelled_24(),
    {
        reveal_strlit("messageContactRegistered");
        reveal_strlit("messagePaymentSuccessful");
    }

    spec fn spelled_27() -> bool {
        &&& "messageBasicGroupChatCreate"@[10] == 'i'
        &&& "messagePassportDataReceived"@[10] == 's'
        &&& "messagePaymentSuccessfulBot"@[10] == 'm'
        &&& "messageSupergroupChatCreate"@[10] == 'e'
    }

    /// What tells apart the discriminators of 27 characters.
    proof fn tags_spelled_27()
        ensures
            Self::spelled_27(),
    {
        reveal_strlit("messageBasicGroupChatCreate");
        reveal_strlit("messagePassportDataReceived");
        reveal_strlit("messagePaymentSuccessfulBot");
        reveal_strlit("messageSupergroupChatCreate");
    }

    /// A document tagged `messageText` decodes as a `MessageText`.
    pub proof fn selects_message_text(d: Doc, at: Seq<char>)
        requires
            tag_of(d) is Some,
            MessageText::known(tag_of(d)->Some_0),
        ensures
            Self::parse(d, at) == MessageText::parse(d, at),
    {
        reveal(<MessageContent as Wire>::parse);
        Self::tags_measured();
        Self::tags_spelled_11();
    }

    /// A document tagged `messageAnimation` decodes as a `MessageAnimation`.
    pub proof fn selects_message_animation(d: Doc, at: Seq<char>)
        requires
            tag_of(d) is Some,
            MessageAnimation::known(tag_of(d)->Some_0),
        ensures
            Self::parse(d, at) == MessageAnimation::parse(d, at),
    {
        reveal(<MessageContent as Wire>::parse);
        Self::tags_measured();
        Self::tags_spelled_16();
    }

    /// A document tagged `messageAudio` decodes as a `MessageAudio`.
    pub proof fn selects_message_audio(d: Doc, at: Seq<char>)
        requires
            tag_of(d) is Some,
            MessageAudio::known(tag_of(d)->Some_0),
        ensures
            Self::parse(d, at) == MessageAudio::parse(d, at),
    {
        reveal(<MessageContent as Wire>::parse);
        Self::tags_measured();
        Self::tags_spelled_12();
    }

    /// A document tagged `messageDocument` decodes as a `MessageDocument`.
    pub proof fn selects_message_document(d: Doc, at: Seq<char>)
        requires
            tag_of(d) is Some,
            MessageDocument::known(tag_of(d)->Some_0),
        ensures
            Self::parse(d, at) == MessageDocument::parse(d, at),
    {
        reveal(<MessageContent as Wire>::parse);
        Self::tags_measured();
        Self::tags_spelled_15();
    }

    /// A document tagged `messagePhoto` decodes as a `MessagePhoto`.
    pub proof fn selects_message_photo(d: Doc, at: Seq<char>)
        requires
            tag_of(d) is Some,
            MessagePhoto::known(tag_of(d)->Some_0),
        ensures
            Self::parse(d, at) == MessagePhoto::parse(d, at),
    {
        reveal(<MessageContent as Wire>::parse);
        Self::tags_measured();
        Self::tags_spelled_12();
    }

    /// A document tagged `messageExpiredPhoto` decodes as a `MessageExpiredPhoto`.
    pub proof fn selects_message_expired_photo(d: Doc, at: Seq<char>)
        requires
            tag_of(d) is Some,
            MessageExpiredPhoto::known(tag_of(d)->Some_0),
        ensures
            Self::parse(d, at) == MessageExpiredPhoto::parse(d, at),
    {
        reveal(<MessageContent as Wire>::parse);
        Self::tags_measured();
        Self::tags_spelled_19();
    }

    /// A document tagged `messageSticker` decodes as a `MessageSticker`.
    pub proof fn selects_message_sticker(d: Doc, at: Seq<char>)
        requires
            tag_of(d) is Some,
            MessageSticker::known(tag_of(d)->Some_0),
        ensures
            Self::parse(d, at) == MessageSticker::parse(d, at),
    {
        reveal(<MessageContent as Wire>::parse);
        Self::tags_measured();
        Self::tags_spelled_14();
    }

    /// A document tagged `messageVideo` decodes as a `MessageVideo`.
    pub proof fn selects_message_video(d: Doc, at: Seq<char>)
        requires
            tag_of(d) is Some,
            MessageVideo::known(tag_of(d)->Some_0),
        ensures
            Self::parse(d, at) == MessageVideo::parse(d, at),
    {
        reveal(<MessageContent as Wire>::parse);
        Self::tags_measured();
        Self::tags_spelled_12();
    }

    /// A document tagged `messageExpiredVideo` decodes as a `MessageExpiredVideo`.
    pub proof fn selects_message_expired_video(d: Doc, at: Seq<char>)
        requires
            tag_of(d) is Some,
            MessageExpiredVideo::known(tag_of(d)->Some_0),
        ensures
            Self::parse(d, at) == MessageExpiredVideo::parse(d, at),
    {
        reveal(<MessageContent as Wire>::parse);
        Self::tags_measured();
        Self::tags_spelled_19();
    }

    /// A document tagged `messageVideoNote` decodes as a `MessageVideoNote`.
    pub proof fn selects_message_video_note(d: Doc, at: Seq<char>)
        requires
            tag_of(d) is Some,
            MessageVideoNote::known(tag_of(d)->Some_0),
        ensures
            Self::parse(d, at) == MessageVideoNote::parse(d, at),
    {
        reveal(<MessageContent as Wire>::parse);
        Self::tags_measured();
        Self::tags_spelled_16();
    }

    /// A document tagged `messageVoiceNote` decodes as a `MessageVoiceNote`.
    pub proof fn selects_message_voice_note(d: Doc, at: Seq<char>)
        requires
            tag_of(d) is Some,
            MessageVoiceNote::known(tag_of(d)->Some_0),
        ensures
            Self::parse(d, at) == MessageVoiceNote::parse(d, at),
    {
        reveal(<MessageContent as Wire>::parse);
        Self::tags_measured();
        Self::tags_spelled_16();
    }

    /// A document tagged `messageLocation` decodes as a `MessageLocation`.
    pub proof fn selects_message_location(d: Doc, at: Seq<char>)
        requires
            tag_of(d) is Some,
            MessageLocation::known(tag_of(d)->Some_0),
        ensures
            Self::parse(d, at) == MessageLocation::parse(d, at),
    {
        reveal(<MessageContent as Wire>::parse);
        Self::tags_measured();
        Self::tags_spelled_15();
    }

    /// A document tagged `messageVenue` decodes as a `MessageVenue`.
    pub proof fn selects_message_venue(d: Doc, at: Seq<char>)
        requires
            tag_of(d) is Some,
            MessageVenue::known(tag_of(d)->Some_0),
        ensures
            Self::parse(d, at) == MessageVenue::parse(d, at),
    {
        reveal(<MessageContent as Wire>::parse);
        Self::tags_measured();
        Self::tags_spelled_12();
    }

    /// A document tagged `messageContact` decodes as a `MessageContact`.
    pub proof fn selects_message_contact(d: Doc, at: Seq<char>)
        requires
            tag_of(d) is Some,
            MessageContact::known(tag_of(d)->Some_0),
        ensures
            Self::parse(d, at) == MessageContact::parse(d, at),
    {
        reveal(<MessageContent as Wire>::parse);
        Self::tags_measured();
        Self::tags_spelled_14();
    }

    /// A document tagged `messageGame` decodes as a `MessageGame`.
    pub proof fn selects_message_game(d: Doc, at: Seq<char>)
        requires
            tag_of(d) is Some,
            MessageGame::known(tag_of(d)->Some_0),
        ensures
            Self::parse(d, at) == MessageGame::parse(d, at),
    {
        reveal(<MessageContent as Wire>::parse);
        Self::tags_measured();
        Self::tags_spelled_11();
    }

    /// A document tagged `messagePoll` decodes as a `MessagePoll`.
    pub proof fn selects_message_poll(d: Doc, at: Seq<char>)
        requires
            tag_of(d) is Some,
            MessagePoll::known(tag_of(d)->Some_0),
        ensures
            Self::parse(d, at) == MessagePoll::parse(d, at),
    {
        reveal(<MessageContent as Wire>::parse);
        Self::tags_measured();
        Self::tags_spelled_11();
    }

    /// A document tagged `messageInvoice` decodes as a `MessageInvoice`.
    pub proof fn selects_message_invoice(d: Doc, at: Seq<char>)
        requires
            tag_of(d) is Some,
            MessageInvoice::known(tag_of(d)->Some_0),
        ensures
            Self::parse(d, at) == MessageInvoice::parse(d, at),
    {
        reveal(<MessageContent as Wire>::parse);
        Self::tags_measured();
        Self::tags_spelled_14();
    }

    /// A document tagged `messageCall` decodes as a `MessageCall`.
    pub proof fn selects_message_call(d: Doc, at: Seq<char>)
        requires
            tag_of(d) is Some,
            MessageCall::known(tag_of(d)->Some_0),
        ensures
            Self::parse(d, at) == MessageCall::parse(d, at),
    {
        reveal(<MessageContent as Wire>::parse);
        Self::tags_measured();
        Self::tags_spelled_11();
    }

    /// A document tagged `messageBasicGroupChatCreate` decodes as a `MessageBasicGroupChatCreate`.
    pub proof fn selects_message_basic_group_chat_create(d: Doc, at: Seq<char>)
        requires
            tag_of(d) is Some,
            MessageBasicGroupChatCreate::known(tag_of(d)->Some_0),
        ensures
            Self::parse(d, at) == MessageBasicGroupChatCreate::parse(d, at),
    {
        reveal(<MessageContent as Wire>::parse);
        Self::tags_measured();
        Self::tags_spelled_27();
    }

    /// A document tagged `messageSupergroupChatCreate` decodes as a `MessageSupergroupChatCreate`.
    pub proof fn selects_message_supergroup_chat_create(d: Doc, at: Seq<char>)
        requires
            tag_of(d) is Some,
            MessageSupergroupChatCreate::known(tag_of(d)->Some_0),
        ensures
            Self::parse(d, at) == MessageSupergroupChatCreate::parse(d, at),
    {
        reveal(<MessageContent as Wire>::parse);
        Self::tags_measured();
        Self::tags_spelled_27();
    }

    /// A document tagged `messageChatChangeTitle` decodes as a `MessageChatChangeTitle`.
    pub proof fn selects_message_chat_change_title(d: Doc, at: Seq<char>)
        requires
            tag_of(d) is Some,
            MessageChatChangeTitle::known(tag_of(d)->Some_0),
        ensures
            Self::parse(d, at) == MessageChatChangeTitle::parse(d, at),
    {
        reveal(<MessageContent as Wire>::parse);
        Self::tags_measured();
        Self::tags_spelled_22();
    }

    /// A document tagged `messageChatChangePhoto` decodes as a `MessageChatChangePhoto`.
    pub proof fn selects_message_chat_change_photo(d: Doc, at: Seq<char>)
        requires
            tag_of(d) is Some,
            MessageChatChangePhoto::known(tag_of(d)->Some_0),
        ensures
            Self::parse(d, at) == MessageChatChangePhoto::parse(d, at),
    {
        reveal(<MessageContent as Wire>::parse);
        Self::tags_measured();
        Self::tags_spelled_22();
    }

    /// A document tagged `messageChatDeletePhoto` decodes as a `MessageChatDeletePhoto`.
    pub proof fn selects_message_chat_delete_photo(d: Doc, at: Seq<char>)
        requires
            tag_of(d) is Some,
            MessageChatDeletePhoto::known(tag_of(d)->Some_0),
        ensures
            Self::parse(d, at) == MessageChatDeletePhoto::parse(d, at),
    {
        reveal(<MessageContent as Wire>::parse);
        Self::tags_measured();
        Self::tags_spelled_22();
    }

    /// A document tagged `messageChatAddMembers` decodes as a `MessageChatAddMembers`.
    pub proof fn selects_message_chat_add_members(d: Doc, at: Seq<char>)
        requires
            tag_of(d) is Some,
            MessageChatAddMembers::known(tag_of(d)->Some_0),
        ensures
            Self::parse(d, at) == MessageChatAddMembers::parse(d, at),
    {
        reveal(<MessageContent as Wire>::parse);
        Self::tags_measured();
        Self::tags_spelled_21();
    }

    /// A document tagged `messageChatJoinByLink` decodes as a `MessageChatJoinByLink`.
    pub proof fn selects_message_chat_join_by_link(d: Doc, at: Seq<char>)
        requires
            tag_of(d) is Some,
            MessageChatJoinByLink::known(tag_of(d)->Some_0),
        ensures
            Self::parse(d, at) == MessageChatJoinByLink::parse(d, at),
    {
        reveal(<MessageContent as Wire>::parse);
        Self::tags_measured();
        Self::tags_spelled_21();
    }

    /// A document tagged `messageChatDeleteMember` decodes as a `MessageChatDeleteMember`.
    pub proof fn selects_message_chat_delete_member(d: Doc, at: Seq<char>)
        requires
            tag_of(d) is Some,
            MessageChatDeleteMember::known(tag_of(d)->Some_0),
        ensures
            Self::parse(d, at) == MessageChatDeleteMember::parse(d, at),
    {
        reveal(<MessageContent as Wire>::parse);
        Self::tags_measured();
        Self::tags_spelled_23();
    }

    /// A document tagged `messageChatUpgradeTo` decodes as a `MessageChatUpgradeTo`.
    pub proof fn selects_message_chat_upgrade_to(d: Doc, at: Seq<char>)
        requires
            tag_of(d) is Some,
            MessageChatUpgradeTo::known(tag_of(d)->Some_0),
        ensures
            Self::parse(d, at) == MessageChatUpgradeTo::parse(d, at),
    {
        reveal(<MessageContent as Wire>::parse);
        Self::tags_measured();
    }

    /// A document tagged `messageChatUpgradeFrom` decodes as a `MessageChatUpgradeFrom`.
    pub proof fn selects_message_chat_upgrade_from(d: Doc, at: Seq<char>)
        requires
            tag_of(d) is Some,
            MessageChatUpgradeFrom::known(tag_of(d)->Some_0),
        ensures
            Self::parse(d, at) == MessageChatUpgradeFrom::parse(d, at),
    {
        reveal(<MessageContent as Wire>::parse);
        Self::tags_measured();
        Self::tags_spelled_22();
    }

    /// A document tagged `messagePinMessage` decodes as a `MessagePinMessage`.
    pub proof fn selects_message_pin_message(d: Doc, at: Seq<char>)
        requires
            tag_of(d) is Some,
            MessagePinMessage::known(tag_of(d)->Some_0),
        ensures
            Self::parse(d, at) == MessagePinMessage::parse(d, at),
    {
        reveal(<MessageContent as Wire>::parse);
        Self::tags_measured();
        Self::tags_spelled_17();
    }

    /// A document tagged `messageScreenshotTaken` decodes as a `MessageScreenshotTaken`.
    pub proof fn selects_message_screenshot_taken(d: Doc, at: Seq<char>)
        requires
            tag_of(d) is Some,
            MessageScreenshotTaken::known(tag_of(d)->Some_0),
        ensures
            Self::parse(d, at) == MessageScreenshotTaken::parse(d, at),
    {
        reveal(<MessageContent as Wire>::parse);
        Self::tags_measured();
        Self::tags_spelled_22();
    }

    /// A document tagged `messageChatSetTtl` decodes as a `MessageChatSetTtl`.
    pub proof fn selects_message_chat_set_ttl(d: Doc, at: Seq<char>)
        requires
            tag_of(d) is Some,
            MessageChatSetTtl::known(tag_of(d)->Some_0),
        ensures
            Self::parse(d, at) == MessageChatSetTtl::parse(d, at),
    {
        reveal(<MessageContent as Wire>::parse);
        Self::tags_measured();
        Self::tags_spelled_17();
    }

    /// A document tagged `messageCustomServiceAction` decodes as a `MessageCustomServiceAction`.
    pub proof fn selects_message_custom_service_action(d: Doc, at: Seq<char>)
        requires
            tag_of(d) is Some,
            MessageCustomServiceAction::known(tag_of(d)->Some_0),
        ensures
            Self::parse(d, at) == MessageCustomServiceAction::parse(d, at),
    {
        reveal(<MessageContent as Wire>::parse);
        Self::tags_measured();
    }

    /// A document tagged `messageGameScore` decodes as a `MessageGameScore`.
    pub proof fn selects_message_game_score(d: Doc, at: Seq<char>)
        requires
            tag_of(d) is Some,
            MessageGameScore::known(tag_of(d)->Some_0),
        ensures
            Self::parse(d, at) == MessageGameScore::parse(d, at),
    {
        reveal(<MessageContent as Wire>::parse);
        Self::tags_measured();
        Self::tags_spelled_16();
    }

    /// A document tagged `messagePaymentSuccessful` decodes as a `MessagePaymentSuccessful`.
    pub proof fn selects_message_payment_successful(d: Doc, at: Seq<char>)
        requires
            tag_of(d) is Some,
            MessagePaymentSuccessful::known(tag_of(d)->Some_0),
        ensures
            Self::parse(d, at) == MessagePaymentSuccessful::parse(d, at),
    {
        reveal(<MessageContent as Wire>::parse);
        Self::tags_measured();
        Self::tags_spelled_24();
    }

    /// A document tagged `messagePaymentSuccessfulBot` decodes as a `MessagePaymentSuccessfulBot`.
    pub proof fn selects_message_payment_successful_bot(d: Doc, at: Seq<char>)
        requires
            tag_of(d) is Some,
            MessagePaymentSuccessfulBot::known(tag_of(d)->Some_0),
        ensures
            Self::parse(d, at) == MessagePaymentSuccessfulBot::parse(d, at),
    {
        reveal(<MessageContent as Wire>::parse);
        Self::tags_measured();
        Self::tags_spelled_27();
    }

    /// A document tagged `messageContactRegistered` decodes as a `MessageContactRegistered`.
    pub proof fn selects_message_contact_registered(d: Doc, at: Seq<char>)
        requires
            tag_of(d) is Some,
            MessageContactRegistered::known(tag_of(d)->Some_0),
        ensures
            Self::parse(d, at) == MessageContactRegistered::parse(d, at),
    {
        reveal(<MessageContent as Wire>::parse);
        Self::tags_measured();
        Self::tags_spelled_24();
    }

    /// A document tagged `messageWebsiteConnected` decodes as a `MessageWebsiteConnected`.
    pub proof fn selects_message_website_connected(d: Doc, at: Seq<char>)
        requires
            tag_of(d) is Some,
            MessageWebsiteConnected::known(tag_of(d)->Some_0),
        ensures
            Self::parse(d, at) == MessageWebsiteConnected::parse(d, at),
    {
        reveal(<MessageContent as Wire>::parse);
        Self::tags_measured();
        Self::tags_spelled_23();
    }

    /// A document tagged `messagePassportDataSent` decodes as a `MessagePassportDataSent`.
    pub proof fn selects_message_passport_data_sent(d: Doc, at: Seq<char>)
        requires
            tag_of(d) is Some,
            MessagePassportDataSent::known(tag_of(d)->Some_0),
        ensures
            Self::parse(d, at) == MessagePassportDataSent::parse(d, at),
    {
        reveal(<MessageContent as Wire>::parse);
        Self::tags_measured();
        Self::tags_spelled_23();
    }

    /// A document tagged `messagePassportDataReceived` decodes as a `MessagePassportDataReceived`.
    pub proof fn selects_message_passport_data_received(d: Doc, at: Seq<char>)
        requires
            tag_of(d) is Some,
            MessagePassportDataReceived::known(tag_of(d)->Some_0),
        ensures
            Self::parse(d, at) == MessagePassportDataReceived::parse(d, at),
    {
        reveal(<MessageContent as Wire>::parse);
        Self::tags_measured();
        Self::tags_spelled_27();
    }

    /// A document tagged `messageUnsupported` decodes as a `MessageUnsupported`.
    pub proof fn selects_message_unsupported(d: Doc, at: Seq<char>)
        requires
            tag_of(d) is Some,
            MessageUnsupported::known(tag_of(d)->Some_0),
        ensures
            Self::parse(d, at) == MessageUnsupported::parse(d, at),
    {
        reveal(<MessageContent as Wire>::parse);
        Self::tags_measured();
    }
}

/// A mention of a user by their username
#[derive(Debug, Clone, PartialEq)]
pub struct TextEntityTypeMention {}

impl Wire for TextEntityTypeMention {
    #[verifier::opaque]
    open spec fn wire(&self) -> Doc {
        tagged(Map::empty(), "textEntityTypeMention"@)
    }

    #[verifier::opaque]
    open spec fn parse(d: Doc, at: Seq<char>) -> Result<Doc, Fault> {
        match d {
            Doc::Object(_) => Ok(tagged(Map::empty(), "textEntityTypeMention"@)),
            _ => Err(Fault::TypeMismatch(at)),
        }
    }

    fn encode(&self) -> (j: Json) {
        proof {
            reveal(<TextEntityTypeMention as Wire>::wire);
        }
        seal(Vec::new(), "textEntityTypeMention")
    }

    fn decode(j: &Json, at: &str) -> (r: Result<Self, DecodeError>) {
        proof {
            reveal(<TextEntityTypeMention as Wire>::wire);
            reveal(<TextEntityTypeMention as Wire>::parse);
        }
        let _ = members_of(j, at)?;
        Ok(TextEntityTypeMention {})
    }

    proof fn round_trip(&self, at: Seq<char>) {
        reveal(<TextEntityTypeMention as Wire>::wire);
        reveal(<TextEntityTypeMention as Wire>::parse);
    }
}

impl Tagged for TextEntityTypeMention {
    open spec fn known(tag: Seq<char>) -> bool {
        tag == "textEntityTypeMention"@
    }

    fn knows(tag: &str) -> (r: bool) {
        same_text(tag, "textEntityTypeMention")
    }

    proof fn tag_known(&self) {
        reveal(<TextEntityTypeMention as Wire>::wire);
        assert(tag_of(self.wire()) == Some("textEntityTypeMention"@));
        assert(Self::known("textEntityTypeMention"@));
    }
}

/// A hashtag text, beginning with "#"
#[derive(Debug, Clone, PartialEq)]
pub struct TextEntityTypeHashtag {}

impl Wire for TextEntityTypeHashtag {
    #[verifier::opaque]
    open spec fn wire(&self) -> Doc {
        tagged(Map::empty(), "textEntityTypeHashtag"@)
    }

    #[verifier::opaque]
    open spec fn parse(d: Doc, at: Seq<char>) -> Result<Doc, Fault> {
        match d {
            Doc::Object(_) => Ok(tagged(Map::empty(), "textEntityTypeHashtag"@)),
            _ => Err(Fault::TypeMismatch(at)),
        }
    }

    fn encode(&self) -> (j: Json) {
        proof {
            reveal(<TextEntityTypeHashtag as Wire>::wire);
        }
        seal(Vec::new(), "textEntityTypeHashtag")
    }

    fn decode(j: &Json, at: &str) -> (r: Result<Self, DecodeError>) {
        proof {
            reveal(<TextEntityTypeHashtag as Wire>::wire);
            reveal(<TextEntityTypeHashtag as Wire>::parse);
        }
        let _ = members_of(j, at)?;
        Ok(TextEntityTypeHashtag {})
    }

    proof fn round_trip(&self, at: Seq<char>) {
        reveal(<TextEntityTypeHashtag as Wire>::wire);
        reveal(<TextEntityTypeHashtag as Wire>::parse);
    }
}

impl Tagged for TextEntityTypeHashtag {
    open spec fn known(tag: Seq<char>) -> bool {
        tag == "textEntityTypeHashtag"@
    }

    fn knows(tag: &str) -> (r: bool) {
        same_text(tag, "textEntityTypeHashtag")
    }

    proof fn tag_known(&self) {
        reveal(<TextEntityTypeHashtag as Wire>::wire);
        assert(tag_of(self.wire()) == Some("textEntityTypeHashtag"@));
        assert(Self::known("textEntityTypeHashtag"@));
    }
}

/// A cashtag text, beginning with "$" and consisting of capital english letters (i.e. "$USD")
#[derive(Debug, Clone, PartialEq)]
pub struct TextEntityTypeCashtag {}

impl Wire for TextEntityTypeCashtag {
    #[verifier::opaque]
    open spec fn wire(&self) -> Doc {
        tagged(Map::empty(), "textEntityTypeCashtag"@)
    }

    #[verifier::opaque]
    open spec fn parse(d: Doc, at: Seq<char>) -> Result<Doc, Fault> {
        match d {
            Doc::Object(_) => Ok(tagged(Map::empty(), "textEntityTypeCashtag"@)),
            _ => Err(Fault::TypeMismatch(at)),
        }
    }

    fn encode(&self) -> (j: Json) {
        proof {
            reveal(<TextEntityTypeCashtag as Wire>::wire);
        }
        seal(Vec::new(), "textEntityTypeCashtag")
    }

    fn decode(j: &Json, at: &str) -> (r: Result<Self, DecodeError>) {
        proof {
            reveal(<TextEntityTypeCashtag as Wire>::wire);
            reveal(<TextEntityTypeCashtag as Wire>::parse);
        }
        let _ = members_of(j, at)?;
        Ok(TextEntityTypeCashtag {})
    }

    proof fn round_trip(&self, at: Seq<char>) {
        reveal(<TextEntityTypeCashtag as Wire>::wire);
        reveal(<TextEntityTypeCashtag as Wire>::parse);
    }
}

impl Tagged for TextEntityTypeCashtag {
    open spec fn known(tag: Seq<char>) -> bool {
        tag == "textEntityTypeCashtag"@
    }

    fn knows(tag: &str) -> (r: bool) {
        same_text(tag, "textEntityTypeCashtag")
    }

    proof fn tag_known(&self) {
        reveal(<TextEntityTypeCashtag as Wire>::wire);
        assert(tag_of(self.wire()) == Some("textEntityTypeCashtag"@));
        assert(Self::known("textEntityTypeCashtag"@));
    }
}

/// A bot command, beginning with "/". This shouldn't be highlighted if there are no bots in the
/// chat
#[derive(Debug, Clone, PartialEq)]
pub struct TextEntityTypeBotCommand {}

impl Wire for TextEntityTypeBotCommand {
    #[verifier::opaque]
    open spec fn wire(&self) -> Doc {
        tagged(Map::empty(), "textEntityTypeBotCommand"@)
    }

    #[verifier::opaque]
    open spec fn parse(d: Doc, at: Seq<char>) -> Result<Doc, Fault> {
        match d {
            Doc::Object(_) => Ok(tagged(Map::empty(), "textEntityTypeBotCommand"@)),
            _ => Err(Fault::TypeMismatch(at)),
        }
    }

    fn encode(&self) -> (j: Json) {
        proof {
            reveal(<TextEntityTypeBotCommand as Wire>::wire);
        }
        seal(Vec::new(), "textEntityTypeBotCommand")
    }

    fn decode(j: &Json, at: &str) -> (r: Result<Self, DecodeError>) {
        proof {
            reveal(<TextEntityTypeBotCommand as Wire>::wire);
            reveal(<TextEntityTypeBotCommand as Wire>::parse);
        }
        let _ = members_of(j, at)?;
        Ok(TextEntityTypeBotCommand {})
    }

    proof fn round_trip(&self, at: Seq<char>) {
        reveal(<TextEntityTypeBotCommand as Wire>::wire);
        reveal(<TextEntityTypeBotCommand as Wire>::parse);
    }
}

impl Tagged for TextEntityTypeBotCommand {
    open spec fn known(tag: Seq<char>) -> bool {
        tag == "textEntityTypeBotCommand"@
    }

    fn knows(tag: &str) -> (r: bool) {
        same_text(tag, "textEntityTypeBotCommand")
    }

    proof fn tag_known(&self) {
        reveal(<TextEntityTypeBotCommand as Wire>::wire);
        assert(tag_of(self.wire()) == Some("textEntityTypeBotCommand"@));
        assert(Self::known("textEntityTypeBotCommand"@));
    }
}

/// An HTTP URL
#[derive(Debug, Clone, PartialEq)]
pub struct TextEntityTypeUrl {}

impl Wire for TextEntityTypeUrl {
    #[verifier::opaque]
    open spec fn wire(&self) -> Doc {
        tagged(Map::empty(), "textEntityTypeUrl"@)
    }

    #[verifier::opaque]
    open spec fn parse(d: Doc, at: Seq<char>) -> Result<Doc, Fault> {
        match d {
            Doc::Object(_) => Ok(tagged(Map::empty(), "textEntityTypeUrl"@)),
            _ => Err(Fault::TypeMismatch(at)),
        }
    }

    fn encode(&self) -> (j: Json) {
        proof {
            reveal(<TextEntityTypeUrl as Wire>::wire);
        }
        seal(Vec::new(), "textEntityTypeUrl")
    }

    fn decode(j: &Json, at: &str) -> (r: Result<Self, DecodeError>) {
        proof {
            reveal(<TextEntityTypeUrl as Wire>::wire);
            reveal(<TextEntityTypeUrl as Wire>::parse);
        }
        let _ = members_of(j, at)?;
        Ok(TextEntityTypeUrl {})
    }

    proof fn round_trip(&self, at: Seq<char>) {
        reveal(<TextEntityTypeUrl as Wire>::wire);
        reveal(<TextEntityTypeUrl as Wire>::parse);
    }
}

impl Tagged for TextEntityTypeUrl {
    open spec fn known(tag: Seq<char>) -> bool {
        tag == "textEntityTypeUrl"@
    }

    fn knows(tag: &str) -> (r: bool) {
        same_text(tag, "textEntityTypeUrl")
    }

    proof fn tag_known(&self) {
        reveal(<TextEntityTypeUrl as Wire>::wire);
        assert(tag_of(self.wire()) == Some("textEntityTypeUrl"@));
        assert(Self::known("textEntityTypeUrl"@));
    }
}

/// An email address
#[derive(Debug, Clone, PartialEq)]
pub struct TextEntityTypeEmailAddress {}

impl Wire for TextEntityTypeEmailAddress {
    #[verifier::opaque]
    open spec fn wire(&self) -> Doc {
        tagged(Map::empty(), "textEntityTypeEmailAddress"@)
    }

    #[verifier::opaque]
    open spec fn parse(d: Doc, at: Seq<char>) -> Result<Doc, Fault> {
        match d {
            Doc::Object(_) => Ok(tagged(Map::empty(), "textEntityTypeEmailAddress"@)),
            _ => Err(Fault::TypeMismatch(at)),
        }
    }

    fn encode(&self) -> (j: Json) {
        proof {
            reveal(<TextEntityTypeEmailAddress as Wire>::wire);
        }
        seal(Vec::new(), "textEntityTypeEmailAddress")
    }

    fn decode(j: &Json, at: &str) -> (r: Result<Self, DecodeError>) {
        proof {
            reveal(<TextEntityTypeEmailAddress as Wire>::wire);
            reveal(<TextEntityTypeEmailAddress as Wire>::parse);
        }
        let _ = members_of(j, at)?;
        Ok(TextEntityTypeEmailAddress {})
    }

    proof fn round_trip(&self, at: Seq<char>) {
        reveal(<TextEntityTypeEmailAddress as Wire>::wire);
        reveal(<TextEntityTypeEmailAddress as Wire>::parse);
    }
}

impl Tagged for TextEntityTypeEmailAddress {
    open spec fn known(tag: Seq<char>) -> bool {
        tag == "textEntityTypeEmailAddress"@
    }

    fn knows(tag: &str) -> (r: bool) {
        same_text(tag, "textEntityTypeEmailAddress")
    }

    proof fn tag_known(&self) {
        reveal(<TextEntityTypeEmailAddress as Wire>::wire);
        assert(tag_of(self.wire()) == Some("textEntityTypeEmailAddress"@));
        assert(Self::known("textEntityTypeEmailAddress"@));
    }
}

/// A phone number
#[derive(Debug, Clone, PartialEq)]
pub struct TextEntityTypePhoneNumber {}

impl Wire for TextEntityTypePhoneNumber {
    #[verifier::opaque]
    open spec fn wire(&self) -> Doc {
        tagged(Map::empty(), "textEntityTypePhoneNumber"@)
    }

    #[verifier::opaque]
    open spec fn parse(d: Doc, at: Seq<char>) -> Result<Doc, Fault> {
        match d {
            Doc::Object(_) => Ok(tagged(Map::empty(), "textEntityTypePhoneNumber"@)),
            _ => Err(Fault::TypeMismatch(at)),
        }
    }

    fn encode(&self) -> (j: Json) {
        proof {
            reveal(<TextEntityTypePhoneNumber as Wire>::wire);
        }
        seal(Vec::new(), "textEntityTypePhoneNumber")
    }

    fn decode(j: &Json, at: &str) -> (r: Result<Self, DecodeError>) {
        proof {
            reveal(<TextEntityTypePhoneNumber as Wire>::wire);
            reveal(<TextEntityTypePhoneNumber as Wire>::parse);
        }
        let _ = members_of(j, at)?;
        Ok(TextEntityTypePhoneNumber {})
    }

    proof fn round_trip(&self, at: Seq<char>) {
        reveal(<TextEntityTypePhoneNumber as Wire>::wire);
        reveal(<TextEntityTypePhoneNumber as Wire>::parse);
    }
}

impl Tagged for TextEntityTypePhoneNumber {
    open spec fn known(tag: Seq<char>) -> bool {
        tag == "textEntityTypePhoneNumber"@
    }

    fn knows(tag: &str) -> (r: bool) {
        same_text(tag, "textEntityTypePhoneNumber")
    }

    proof fn tag_known(&self) {
        reveal(<TextEntityTypePhoneNumber as Wire>::wire);
        assert(tag_of(self.wire()) == Some("textEntityTypePhoneNumber"@));
        assert(Self::known("textEntityTypePhoneNumber"@));
    }
}

/// A bold text
#[derive(Debug, Clone, PartialEq)]
pub struct TextEntityTypeBold {}

impl Wire for TextEntityTypeBold {
    #[verifier::opaque]
    open spec fn wire(&self) -> Doc {
        tagged(Map::empty(), "textEntityTypeBold"@)
    }

    #[verifier::opaque]
    open spec fn parse(d: Doc, at: Seq<char>) -> Result<Doc, Fault> {
        match d {
            Doc::Object(_) => Ok(tagged(Map::empty(), "textEntityTypeBold"@)),
            _ => Err(Fault::TypeMismatch(at)),
        }
    }

    fn encode(&self) -> (j: Json) {
        proof {
            reveal(<TextEntityTypeBold as Wire>::wire);
        }
        seal(Vec::new(), "textEntityTypeBold")
    }

    fn decode(j: &Json, at: &str) -> (r: Result<Self, DecodeError>) {
        proof {
            reveal(<TextEntityTypeBold as Wire>::wire);
            reveal(<TextEntityTypeBold as Wire>::parse);
        }
        let _ = members_of(j, at)?;
        Ok(TextEntityTypeBold {})
    }

    proof fn round_trip(&self, at: Seq<char>) {
        reveal(<TextEntityTypeBold as Wire>::wire);
        reveal(<TextEntityTypeBold as Wire>::parse);
    }
}

impl Tagged for TextEntityTypeBold {
    open spec fn known(tag: Seq<char>) -> bool {
        tag == "textEntityTypeBold"@
    }

    fn knows(tag: &str) -> (r: bool) {
        same_text(tag, "textEntityTypeBold")
    }

    proof fn tag_known(&self) {
        reveal(<TextEntityTypeBold as Wire>::wire);
        assert(tag_of(self.wire()) == Some("textEntityTypeBold"@));
        assert(Self::known("textEntityTypeBold"@));
    }
}

/// An italic text
#[derive(Debug, Clone, PartialEq)]
pub struct TextEntityTypeItalic {}

impl Wire for TextEntityTypeItalic {
    #[verifier::opaque]
    open spec fn wire(&self) -> Doc {
        tagged(Map::empty(), "textEntityTypeItalic"@)
    }

    #[verifier::opaque]
    open spec fn parse(d: Doc, at: Seq<char>) -> Result<Doc, Fault> {
        match d {
            Doc::Object(_) => Ok(tagged(Map::empty(), "textEntityTypeItalic"@)),
            _ => Err(Fault::TypeMismatch(at)),
        }
    }

    fn encode(&self) -> (j: Json) {
        proof {
            reveal(<TextEntityTypeItalic as Wire>::wire);
        }
        seal(Vec::new(), "textEntityTypeItalic")
    }

    fn decode(j: &Json, at: &str) -> (r: Result<Self, DecodeError>) {
        proof {
            reveal(<TextEntityTypeItalic as Wire>::wire);
            reveal(<TextEntityTypeItalic as Wire>::parse);
        }
        let _ = members_of(j, at)?;
        Ok(TextEntityTypeItalic {})
    }

    proof fn round_trip(&self, at: Seq<char>) {
        reveal(<TextEntityTypeItalic as Wire>::wire);
        reveal(<TextEntityTypeItalic as Wire>::parse);
    }
}

impl Tagged for TextEntityTypeItalic {
    open spec fn known(tag: Seq<char>) -> bool {
        tag == "textEntityTypeItalic"@
    }

    fn knows(tag: &str) -> (r: bool) {
        same_text(tag, "textEntityTypeItalic")
    }

    proof fn tag_known(&self) {
        reveal(<TextEntityTypeItalic as Wire>::wire);
        assert(tag_of(self.wire()) == Some("textEntityTypeItalic"@));
        assert(Self::known("textEntityTypeItalic"@));
    }
}

/// An underlined text
#[derive(Debug, Clone, PartialEq)]
pub struct TextEntityTypeUnderline {}

impl Wire for TextEntityTypeUnderline {
    #[verifier::opaque]
    open spec fn wire(&self) -> Doc {
        tagged(Map::empty(), "textEntityTypeUnderline"@)
    }

    #[verifier::opaque]
    open spec fn parse(d: Doc, at: Seq<char>) -> Result<Doc, Fault> {
        match d {
            Doc::Object(_) => Ok(tagged(Map::empty(), "textEntityTypeUnderline"@)),
            _ => Err(Fault::TypeMismatch(at)),
        }
    }

    fn encode(&self) -> (j: Json) {
        proof {
            reveal(<TextEntityTypeUnderline as Wire>::wire);
        }
        seal(Vec::new(), "textEntityTypeUnderline")
    }

    fn decode(j: &Json, at: &str) -> (r: Result<Self, DecodeError>) {
        proof {
            reveal(<TextEntityTypeUnderline as Wire>::wire);
            reveal(<TextEntityTypeUnderline as Wire>::parse);
        }
        let _ = members_of(j, at)?;
        Ok(TextEntityTypeUnderline {})
    }

    proof fn round_trip(&self, at: Seq<char>) {
        reveal(<TextEntityTypeUnderline as Wire>::wire);
        reveal(<TextEntityTypeUnderline as Wire>::parse);
    }
}

impl Tagged for TextEntityTypeUnderline {
    open spec fn known(tag: Seq<char>) -> bool {
        tag == "textEntityTypeUnderline"@
    }

    fn knows(tag: &str) -> (r: bool) {
        same_text(tag, "textEntityTypeUnderline")
    }

    proof fn tag_known(&self) {
        reveal(<TextEntityTypeUnderline as Wire>::wire);
        assert(tag_of(self.wire()) == Some("textEntityTypeUnderline"@));
        assert(Self::known("textEntityTypeUnderline"@));
    }
}

/// A strikethrough text
#[derive(Debug, Clone, PartialEq)]
pub struct TextEntityTypeStrikethrough {}

impl Wire for TextEntityTypeStrikethrough {
    #[verifier::opaque]
    open spec fn wire(&self) -> Doc {
        tagged(Map::empty(), "textEntityTypeStrikethrough"@)
    }

    #[verifier::opaque]
    open spec fn parse(d: Doc, at: Seq<char>) -> Result<Doc, Fault> {
        match d {
            Doc::Object(_) => Ok(tagged(Map::empty(), "textEntityTypeStrikethrough"@)),
            _ => Err(Fault::TypeMismatch(at)),
        }
    }

    fn encode(&self) -> (j: Json) {
        proof {
            reveal(<TextEntityTypeStrikethrough as Wire>::wire);
        }
        seal(Vec::new(), "textEntityTypeStrikethrough")
    }

    fn decode(j: &Json, at: &str) -> (r: Result<Self, DecodeError>) {
        proof {
            reveal(<TextEntityTypeStrikethrough as Wire>::wire);
            reveal(<TextEntityTypeStrikethrough as Wire>::parse);
        }
        let _ = members_of(j, at)?;
        Ok(TextEntityTypeStrikethrough {})
    }

    proof fn round_trip(&self, at: Seq<char>) {
        reveal(<TextEntityTypeStrikethrough as Wire>::wire);
        reveal(<TextEntityTypeStrikethrough as Wire>::parse);
    }
}

impl Tagged for TextEntityTypeStrikethrough {
    open spec fn known(tag: Seq<char>) -> bool {
        tag == "textEntityTypeStrikethrough"@
    }

    fn knows(tag: &str) -> (r: bool) {
        same_text(tag, "textEntityTypeStrikethrough")
    }

    proof fn tag_known(&self) {
        reveal(<TextEntityTypeStrikethrough as Wire>::wire);
        assert(tag_of(self.wire()) == Some("textEntityTypeStrikethrough"@));
        assert(Self::known("textEntityTypeStrikethrough"@));
    }
}

/// Text that must be formatted as if inside a code HTML tag
#[derive(Debug, Clone, PartialEq)]
pub struct TextEntityTypeCode {}

impl Wire for TextEntityTypeCode {
    #[verifier::opaque]
    open spec fn wire(&self) -> Doc {
        tagged(Map::empty(), "textEntityTypeCode"@)
    }

    #[verifier::opaque]
    open spec fn parse(d: Doc, at: Seq<char>) -> Result<Doc, Fault> {
        match d {
            Doc::Object(_) => Ok(tagged(Map::empty(), "textEntityTypeCode"@)),
            _ => Err(Fault::TypeMismatch(at)),
        }
    }

    fn encode(&self) -> (j: Json) {
        proof {
            reveal(<TextEntityTypeCode as Wire>::wire);
        }
        seal(Vec::new(), "textEntityTypeCode")
    }

    fn decode(j: &Json, at: &str) -> (r: Result<Self, DecodeError>) {
        proof {
            reveal(<TextEntityTypeCode as Wire>::wire);
            reveal(<TextEntityTypeCode as Wire>::parse);
        }
        let _ = members_of(j, at)?;
        Ok(TextEntityTypeCode {})
    }

    proof fn round_trip(&self, at: Seq<char>) {
        reveal(<TextEntityTypeCode as Wire>::wire);
        reveal(<TextEntityTypeCode as Wire>::parse);
    }
}

impl Tagged for TextEntityTypeCode {
    open spec fn known(tag: Seq<char>) -> bool {
        tag == "textEntityTypeCode"@
    }

    fn knows(tag: &str) -> (r: bool) {
        same_text(tag, "textEntityTypeCode")
    }

    proof fn tag_known(&self) {
        reveal(<TextEntityTypeCode as Wire>::wire);
        assert(tag_of(self.wire()) == Some("textEntityTypeCode"@));
        assert(Self::known("textEntityTypeCode"@));
    }
}

/// Text that must be formatted as if inside a pre HTML tag
#[derive(Debug, Clone, PartialEq)]
pub struct TextEntityTypePre {}

impl Wire for TextEntityTypePre {
    #[verifier::opaque]
    open spec fn wire(&self) -> Doc {
        tagged(Map::empty(), "textEntityTypePre"@)
    }

    #[verifier::opaque]
    open spec fn parse(d: Doc, at: Seq<char>) -> Result<Doc, Fault> {
        match d {
            Doc::Object(_) => Ok(tagged(Map::empty(), "textEntityTypePre"@)),
            _ => Err(Fault::TypeMismatch(at)),
        }
    }

    fn encode(&self) -> (j: Json) {
        proof {
            reveal(<TextEntityTypePre as Wire>::wire);
        }
        seal(Vec::new(), "textEntityTypePre")
    }

    fn decode(j: &Json, at: &str) -> (r: Result<Self, DecodeError>) {
        proof {
            reveal(<TextEntityTypePre as Wire>::wire);
            reveal(<TextEntityTypePre as Wire>::parse);
        }
        let _ = members_of(j, at)?;
        Ok(TextEntityTypePre {})
    }

    proof fn round_trip(&self, at: Seq<char>) {
        reveal(<TextEntityTypePre as Wire>::wire);
        reveal(<TextEntityTypePre as Wire>::parse);
    }
}

impl Tagged for TextEntityTypePre {
    open spec fn known(tag: Seq<char>) -> bool {
        tag == "textEntityTypePre"@
    }

    fn knows(tag: &str) -> (r: bool) {
        same_text(tag, "textEntityTypePre")
    }

    proof fn tag_known(&self) {
        reveal(<TextEntityTypePre as Wire>::wire);
        assert(tag_of(self.wire()) == Some("textEntityTypePre"@));
        assert(Self::known("textEntityTypePre"@));
    }
}

/// Text that must be formatted as if inside pre, and code HTML tags
#[derive(Debug, Clone, PartialEq)]
pub struct TextEntityTypePreCode {
    /// Programming language of the code; as defined by the sender
    pub language: String,
}

impl Wire for TextEntityTypePreCode {
    #[verifier::opaque]
    open spec fn wire(&self) -> Doc {
        tagged(
            Map::empty()
                .insert("language"@, self.language.wire()),
            "textEntityTypePreCode"@,
        )
    }

    #[verifier::opaque]
    open spec fn parse(d: Doc, at: Seq<char>) -> Result<Doc, Fault> {
        match d {
            Doc::Object(m) => {
                let language = field::<String>(m, "language"@);
                if language is Err {
                    language
                } else {
                    Ok(
                        tagged(
                            Map::empty()
                                .insert("language"@, language->Ok_0),
                            "textEntityTypePreCode"@,
                        ),
                    )
                }
            },
            _ => Err(Fault::TypeMismatch(at)),
        }
    }

    fn encode(&self) -> (j: Json) {
        proof {
            reveal(<TextEntityTypePreCode as Wire>::wire);
        }
        let mut members: Vec<Member> = Vec::new();
        put(&mut members, "language", self.language.encode());
        seal(members, "textEntityTypePreCode")
    }

    fn decode(j: &Json, at: &str) -> (r: Result<Self, DecodeError>) {
        proof {
            reveal(<TextEntityTypePreCode as Wire>::wire);
            reveal(<TextEntityTypePreCode as Wire>::parse);
        }
        let members = members_of(j, at)?;
        let language = read_field::<String>(members, "language")?;
        Ok(TextEntityTypePreCode { language })
    }

    proof fn round_trip(&self, at: Seq<char>) {
        reveal(<TextEntityTypePreCode as Wire>::wire);
        reveal(<TextEntityTypePreCode as Wire>::parse);
        reveal_strlit("@type");
        reveal_strlit("language");
        assert("@type"@.len() == 5);
        assert("language"@.len() == 8);
        self.language.round_trip("language"@);
    }
}

impl Tagged for TextEntityTypePreCode {
    open spec fn known(tag: Seq<char>) -> bool {
        tag == "textEntityTypePreCode"@
    }

    fn knows(tag: &str) -> (r: bool) {
        same_text(tag, "textEntityTypePreCode")
    }

    proof fn tag_known(&self) {
        reveal(<TextEntityTypePreCode as Wire>::wire);
        assert(tag_of(self.wire()) == Some("textEntityTypePreCode"@));
        assert(Self::known("textEntityTypePreCode"@));
    }
}

/// A text description shown instead of a raw URL
#[derive(Debug, Clone, PartialEq)]
pub struct TextEntityTypeTextUrl {
    /// HTTP or tg:// URL to be opened when the link is clicked
    pub url: String,
}

impl Wire for TextEntityTypeTextUrl {
    #[verifier::opaque]
    open spec fn wire(&self) -> Doc {
        tagged(
            Map::empty()
                .insert("url"@, self.url.wire()),
            "textEntityTypeTextUrl"@,
        )
    }

    #[verifier::opaque]
    open spec fn parse(d: Doc, at: Seq<char>) -> Result<Doc, Fault> {
        match d {
            Doc::Object(m) => {
                let url = field::<String>(m, "url"@);
                if url is Err {
                    url
                } else {
                    Ok(
                        tagged(
                            Map::empty()
                                .insert("url"@, url->Ok_0),
                            "textEntityTypeTextUrl"@,
                        ),
                    )
                }
            },
            _ => Err(Fault::TypeMismatch(at)),
        }
    }

    fn encode(&self) -> (j: Json) {
        proof {
            reveal(<TextEntityTypeTextUrl as Wire>::wire);
        }
        let mut members: Vec<Member> = Vec::new();
        put(&mut members, "url", self.url.encode());
        seal(members, "textEntityTypeTextUrl")
    }

    fn decode(j: &Json, at: &str) -> (r: Result<Self, DecodeError>) {
        proof {
            reveal(<TextEntityTypeTextUrl as Wire>::wire);
            reveal(<TextEntityTypeTextUrl as Wire>::parse);
        }
        let members = members_of(j, at)?;
        let url = read_field::<String>(members, "url")?;
        Ok(TextEntityTypeTextUrl { url })
    }

    proof fn round_trip(&self, at: Seq<char>) {
        reveal(<TextEntityTypeTextUrl as Wire>::wire);
        reveal(<TextEntityTypeTextUrl as Wire>::parse);
        reveal_strlit("@type");
        reveal_strlit("url");
        assert("@type"@.len() == 5);
        assert("url"@.len() == 3);
        self.url.round_trip("url"@);
    }
}

impl Tagged for TextEntityTypeTextUrl {
    open spec fn known(tag: Seq<char>) -> bool {
        tag == "textEntityTypeTextUrl"@
    }

    fn knows(tag: &str) -> (r: bool) {
        same_text(tag, "textEntityTypeTextUrl")
    }

    proof fn tag_known(&self) {
        reveal(<TextEntityTypeTextUrl as Wire>::wire);
        assert(tag_of(self.wire()) == Some("textEntityTypeTextUrl"@));
        assert(Self::known("textEntityTypeTextUrl"@));
    }
}

/// A text shows instead of a raw mention of the user (e.g., when the user has no username)
#[derive(Debug, Clone, PartialEq)]
pub struct TextEntityTypeMentionName {
    /// Identifier of the mentioned user
    pub user_id: i32,
}

impl Wire for TextEntityTypeMentionName {
    #[verifier::opaque]
    open spec fn wire(&self) -> Doc {
        tagged(
            Map::empty()
                .insert("userId"@, self.user_id.wire()),
            "textEntityTypeMentionName"@,
        )
    }

    #[verifier::opaque]
    open spec fn parse(d: Doc, at: Seq<char>) -> Result<Doc, Fault> {
        match d {
            Doc::Object(m) => {
                let user_id = field::<i32>(m, "userId"@);
                if user_id is Err {
                    user_id
                } else {
                    Ok(
                        tagged(
                            Map::empty()
                                .insert("userId"@, user_id->Ok_0),
                            "textEntityTypeMentionName"@,
                        ),
                    )
                }
            },
            _ => Err(Fault::TypeMismatch(at)),
        }
    }

    fn encode(&self) -> (j: Json) {
        proof {
            reveal(<TextEntityTypeMentionName as Wire>::wire);
        }
        let mut members: Vec<Member> = Vec::new();
        put(&mut members, "userId", self.user_id.encode());
        seal(members, "textEntityTypeMentionName")
    }

    fn decode(j: &Json, at: &str) -> (r: Result<Self, DecodeError>) {
        proof {
            reveal(<TextEntityTypeMentionName as Wire>::wire);
            reveal(<TextEntityTypeMentionName as Wire>::parse);
        }
        let members = members_of(j, at)?;
        let user_id = read_field::<i32>(members, "userId")?;
        Ok(TextEntityTypeMentionName { user_id })
    }

    proof fn round_trip(&self, at: Seq<char>) {
        reveal(<TextEntityTypeMentionName as Wire>::wire);
        reveal(<TextEntityTypeMentionName as Wire>::parse);
        reveal_strlit("@type");
        reveal_strlit("userId");
        assert("@type"@.len() == 5);
        assert("userId"@.len() == 6);
        self.user_id.round_trip("userId"@);
    }
}

impl Tagged for TextEntityTypeMentionName {
    open spec fn known(tag: Seq<char>) -> bool {
        tag == "textEntityTypeMentionName"@
    }

    fn knows(tag: &str) -> (r: bool) {
        same_text(tag, "textEntityTypeMentionName")
    }

    proof fn tag_known(&self) {
        reveal(<TextEntityTypeMentionName as Wire>::wire);
        assert(tag_of(self.wire()) == Some("textEntityTypeMentionName"@));
        assert(Self::known("textEntityTypeMentionName"@));
    }
}

/// Represents a part of the text which must be formatted differently
#[derive(Debug, Clone, PartialEq)]
pub enum TextEntityType {
    TextEntityTypeMention(TextEntityTypeMention),
    TextEntityTypeHashtag(TextEntityTypeHashtag),
    TextEntityTypeCashtag(TextEntityTypeCashtag),
    TextEntityTypeBotCommand(TextEntityTypeBotCommand),
    TextEntityTypeUrl(TextEntityTypeUrl),
    TextEntityTypeEmailAddress(TextEntityTypeEmailAddress),
    TextEntityTypePhoneNumber(TextEntityTypePhoneNumber),
    TextEntityTypeBold(TextEntityTypeBold),
    TextEntityTypeItalic(TextEntityTypeItalic),
    TextEntityTypeUnderline(TextEntityTypeUnderline),
    TextEntityTypeStrikethrough(TextEntityTypeStrikethrough),
    TextEntityTypeCode(TextEntityTypeCode),
    TextEntityTypePre(TextEntityTypePre),
    TextEntityTypePreCode(TextEntityTypePreCode),
    TextEntityTypeTextUrl(TextEntityTypeTextUrl),
    TextEntityTypeMentionName(TextEntityTypeMentionName),
}

impl Wire for TextEntityType {
    #[verifier::opaque]
    open spec fn wire(&self) -> Doc {
        match self {
            Self::TextEntityTypeMention(p) => p.wire(),
            Self::TextEntityTypeHashtag(p) => p.wire(),
            Self::TextEntityTypeCashtag(p) => p.wire(),
            Self::TextEntityTypeBotCommand(p) => p.wire(),
            Self::TextEntityTypeUrl(p) => p.wire(),
            Self::TextEntityTypeEmailAddress(p) => p.wire(),
            Self::TextEntityTypePhoneNumber(p) => p.wire(),
            Self::TextEntityTypeBold(p) => p.wire(),
            Self::TextEntityTypeItalic(p) => p.wire(),
            Self::TextEntityTypeUnderline(p) => p.wire(),
            Self::TextEntityTypeStrikethrough(p) => p.wire(),
            Self::TextEntityTypeCode(p) => p.wire(),
            Self::TextEntityTypePre(p) => p.wire(),
            Self::TextEntityTypePreCode(p) => p.wire(),
            Self::TextEntityTypeTextUrl(p) => p.wire(),
            Self::TextEntityTypeMentionName(p) => p.wire(),
        }
    }

    #[verifier::opaque]
    open spec fn parse(d: Doc, at: Seq<char>) -> Result<Doc, Fault> {
        match d {
            Doc::Object(_) => match tag_of(d) {
                Some(t) => if t == "textEntityTypeMention"@ {
                    TextEntityTypeMention::parse(d, at)
                } else if t == "textEntityTypeHashtag"@ {
                    TextEntityTypeHashtag::parse(d, at)
                } else if t == "textEntityTypeCashtag"@ {
                    TextEntityTypeCashtag::parse(d, at)
                } else if t == "textEntityTypeBotCommand"@ {
                    TextEntityTypeBotCommand::parse(d, at)
                } else if t == "textEntityTypeUrl"@ {
                    TextEntityTypeUrl::parse(d, at)
                } else if t == "textEntityTypeEmailAddress"@ {
                    TextEntityTypeEmailAddress::parse(d, at)
                } else if t == "textEntityTypePhoneNumber"@ {
                    TextEntityTypePhoneNumber::parse(d, at)
                } else if t == "textEntityTypeBold"@ {
                    TextEntityTypeBold::parse(d, at)
                } else if t == "textEntityTypeItalic"@ {
                    TextEntityTypeItalic::parse(d, at)
                } else if t == "textEntityTypeUnderline"@ {
                    TextEntityTypeUnderline::parse(d, at)
                } else if t == "textEntityTypeStrikethrough"@ {
                    TextEntityTypeStrikethrough::parse(d, at)
                } else if t == "textEntityTypeCode"@ {
                    TextEntityTypeCode::parse(d, at)
                } else if t == "textEntityTypePre"@ {
                    TextEntityTypePre::parse(d, at)
                } else if t == "textEntityTypePreCode"@ {
                    TextEntityTypePreCode::parse(d, at)
                } else if t == "textEntityTypeTextUrl"@ {
                    TextEntityTypeTextUrl::parse(d, at)
                } else if t == "textEntityTypeMentionName"@ {
                    TextEntityTypeMentionName::parse(d, at)
                } else {
                    Err(Fault::UnknownVariant(t))
                },
                None => Err(Fault::MissingDiscriminator),
            },
            _ => Err(Fault::TypeMismatch(at)),
        }
    }

    fn encode(&self) -> (j: Json) {
        proof {
            reveal(<TextEntityType as Wire>::wire);
        }
        match self {
            Self::TextEntityTypeMention(p) => p.encode(),
            Self::TextEntityTypeHashtag(p) => p.encode(),
            Self::TextEntityTypeCashtag(p) => p.encode(),
            Self::TextEntityTypeBotCommand(p) => p.encode(),
            Self::TextEntityTypeUrl(p) => p.encode(),
            Self::TextEntityTypeEmailAddress(p) => p.encode(),
            Self::TextEntityTypePhoneNumber(p) => p.encode(),
            Self::TextEntityTypeBold(p) => p.encode(),
            Self::TextEntityTypeItalic(p) => p.encode(),
            Self::TextEntityTypeUnderline(p) => p.encode(),
            Self::TextEntityTypeStrikethrough(p) => p.encode(),
            Self::TextEntityTypeCode(p) => p.encode(),
            Self::TextEntityTypePre(p) => p.encode(),
            Self::TextEntityTypePreCode(p) => p.encode(),
            Self::TextEntityTypeTextUrl(p) => p.encode(),
            Self::TextEntityTypeMentionName(p) => p.encode(),
        }
    }

    fn decode(j: &Json, at: &str) -> (r: Result<Self, DecodeError>) {
        proof {
            reveal(<TextEntityType as Wire>::wire);
            reveal(<TextEntityType as Wire>::parse);
        }
        let members = members_of(j, at)?;
        let tag = discriminator(members)?;
        if same_text(tag, "textEntityTypeMention") {
            Ok(Self::TextEntityTypeMention(TextEntityTypeMention::decode(j, at)?))
        } else if same_text(tag, "textEntityTypeHashtag") {
            Ok(Self::TextEntityTypeHashtag(TextEntityTypeHashtag::decode(j, at)?))
        } else if same_text(tag, "textEntityTypeCashtag") {
            Ok(Self::TextEntityTypeCashtag(TextEntityTypeCashtag::decode(j, at)?))
        } else if same_text(tag, "textEntityTypeBotCommand") {
            Ok(Self::TextEntityTypeBotCommand(TextEntityTypeBotCommand::decode(j, at)?))
        } else if same_text(tag, "textEntityTypeUrl") {
            Ok(Self::TextEntityTypeUrl(TextEntityTypeUrl::decode(j, at)?))
        } else if same_text(tag, "textEntityTypeEmailAddress") {
            Ok(Self::TextEntityTypeEmailAddress(TextEntityTypeEmailAddress::decode(j, at)?))
        } else if same_text(tag, "textEntityTypePhoneNumber") {
            Ok(Self::TextEntityTypePhoneNumber(TextEntityTypePhoneNumber::decode(j, at)?))
        } else if same_text(tag, "textEntityTypeBold") {
            Ok(Self::TextEntityTypeBold(TextEntityTypeBold::decode(j, at)?))
        } else if same_text(tag, "textEntityTypeItalic") {
            Ok(Self::TextEntityTypeItalic(TextEntityTypeItalic::decode(j, at)?))
        } else if same_text(tag, "textEntityTypeUnderline") {
            Ok(Self::TextEntityTypeUnderline(TextEntityTypeUnderline::decode(j, at)?))
        } else if same_text(tag, "textEntityTypeStrikethrough") {
            Ok(Self::TextEntityTypeStrikethrough(TextEntityTypeStrikethrough::decode(j, at)?))
        } else if same_text(tag, "textEntityTypeCode") {
            Ok(Self::TextEntityTypeCode(TextEntityTypeCode::decode(j, at)?))
        } else if same_text(tag, "textEntityTypePre") {
            Ok(Self::TextEntityTypePre(TextEntityTypePre::decode(j, at)?))
        } else if same_text(tag, "textEntityTypePreCode") {
            Ok(Self::TextEntityTypePreCode(TextEntityTypePreCode::decode(j, at)?))
        } else if same_text(tag, "textEntityTypeTextUrl") {
            Ok(Self::TextEntityTypeTextUrl(TextEntityTypeTextUrl::decode(j, at)?))
        } else if same_text(tag, "textEntityTypeMentionName") {
            Ok(Self::TextEntityTypeMentionName(TextEntityTypeMentionName::decode(j, at)?))
        } else {
            Err(DecodeError::UnknownVariant(tag.to_owned()))
        }
    }

    proof fn round_trip(&self, at: Seq<char>) {
        reveal(<TextEntityType as Wire>::wire);
        reveal(<TextEntityType as Wire>::parse);
        reveal_strlit("textEntityTypeBold");
        reveal_strlit("textEntityTypeBotCommand");
        reveal_strlit("textEntityTypeCashtag");
        reveal_strlit("textEntityTypeCode");
        reveal_strlit("textEntityTypeEmailAddress");
        reveal_strlit("textEntityTypeHashtag");
        reveal_strlit("textEntityTypeItalic");
        reveal_strlit("textEntityTypeMention");
        reveal_strlit("textEntityTypeMentionName");
        reveal_strlit("textEntityTypePhoneNumber");
        reveal_strlit("textEntityTypePre");
        reveal_strlit("textEntityTypePreCode");
        reveal_strlit("textEntityTypeStrikethrough");
        reveal_strlit("textEntityTypeTextUrl");
        reveal_strlit("textEntityTypeUnderline");
        reveal_strlit("textEntityTypeUrl");
        assert("textEntityTypeBold"@.len() == 18 && "textEntityTypeBold"@[14] == 'B');
        assert("textEntityTypeBotCommand"@.len() == 24);
        assert("textEntityTypeCashtag"@.len() == 21 && "textEntityTypeCashtag"@[14] == 'C');
        assert("textEntityTypeCode"@.len() == 18 && "textEntityTypeCode"@[14] == 'C');
        assert("textEntityTypeEmailAddress"@.len() == 26);
        assert("textEntityTypeHashtag"@.len() == 21 && "textEntityTypeHashtag"@[14] == 'H');
        assert("textEntityTypeItalic"@.len() == 20);
        assert("textEntityTypeMention"@.len() == 21 && "textEntityTypeMention"@[14] == 'M');
        assert("textEntityTypeMentionName"@.len() == 25 && "textEntityTypeMentionName"@[14] == 'M');
        assert("textEntityTypePhoneNumber"@.len() == 25 && "textEntityTypePhoneNumber"@[14] == 'P');
        assert("textEntityTypePre"@.len() == 17 && "textEntityTypePre"@[14] == 'P');
        assert("textEntityTypePreCode"@.len() == 21 && "textEntityTypePreCode"@[14] == 'P');
        assert("textEntityTypeStrikethrough"@.len() == 27);
        assert("textEntityTypeTextUrl"@.len() == 21 && "textEntityTypeTextUrl"@[14] == 'T');
        assert("textEntityTypeUnderline"@.len() == 23);
        assert("textEntityTypeUrl"@.len() == 17 && "textEntityTypeUrl"@[14] == 'U');
        match self {
            Self::TextEntityTypeMention(p) => {
                p.tag_known();
                p.round_trip(at);
            },
            Self::TextEntityTypeHashtag(p) => {
                p.tag_known();
                p.round_trip(at);
            },
            Self::TextEntityTypeCashtag(p) => {
                p.tag_known();
                p.round_trip(at);
            },
            Self::TextEntityTypeBotCommand(p) => {
                p.tag_known();
                p.round_trip(at);
            },
            Self::TextEntityTypeUrl(p) => {
                p.tag_known();
                p.round_trip(at);
            },
            Self::TextEntityTypeEmailAddress(p) => {
                p.tag_known();
                p.round_trip(at);
            },
            Self::TextEntityTypePhoneNumber(p) => {
                p.tag_known();
                p.round_trip(at);
            },
            Self::TextEntityTypeBold(p) => {
                p.tag_known();
                p.round_trip(at);
            },
            Self::TextEntityTypeItalic(p) => {
                p.tag_known();
                p.round_trip(at);
            },
            Self::TextEntityTypeUnderline(p) => {
                p.tag_known();
                p.round_trip(at);
            },
            Self::TextEntityTypeStrikethrough(p) => {
                p.tag_known();
                p.round_trip(at);
            },
            Self::TextEntityTypeCode(p) => {
                p.tag_known();
                p.round_trip(at);
            },
            Self::TextEntityTypePre(p) => {
                p.tag_known();
                p.round_trip(at);
            },
            Self::TextEntityTypePreCode(p) => {
                p.tag_known();
                p.round_trip(at);
            },
            Self::TextEntityTypeTextUrl(p) => {
                p.tag_known();
                p.round_trip(at);
            },
            Self::TextEntityTypeMentionName(p) => {
                p.tag_known();
                p.round_trip(at);
            },
        }
    }
}

impl Tagged for TextEntityType {
    open spec fn known(tag: Seq<char>) -> bool {
        ||| tag == "textEntityTypeMention"@
        ||| tag == "textEntityTypeHashtag"@
        ||| tag == "textEntityTypeCashtag"@
        ||| tag == "textEntityTypeBotCommand"@
        ||| tag == "textEntityTypeUrl"@
        ||| tag == "textEntityTypeEmailAddress"@
        ||| tag == "textEntityTypePhoneNumber"@
        ||| tag == "textEntityTypeBold"@
        ||| tag == "textEntityTypeItalic"@
        ||| tag == "textEntityTypeUnderline"@
        ||| tag == "textEntityTypeStrikethrough"@
        ||| tag == "textEntityTypeCode"@
        ||| tag == "textEntityTypePre"@
        ||| tag == "textEntityTypePreCode"@
        ||| tag == "textEntityTypeTextUrl"@
        ||| tag == "textEntityTypeMentionName"@
    }

    fn knows(tag: &str) -> (r: bool) {
        same_text(tag, "textEntityTypeMention")
            || same_text(tag, "textEntityTypeHashtag")
            || same_text(tag, "textEntityTypeCashtag")
            || same_text(tag, "textEntityTypeBotCommand")
            || same_text(tag, "textEntityTypeUrl")
            || same_text(tag, "textEntityTypeEmailAddress")
            || same_text(tag, "textEntityTypePhoneNumber")
            || same_text(tag, "textEntityTypeBold")
            || same_text(tag, "textEntityTypeItalic")
            || same_text(tag, "textEntityTypeUnderline")
            || same_text(tag, "textEntityTypeStrikethrough")
            || same_text(tag, "textEntityTypeCode")
            || same_text(tag, "textEntityTypePre")
            || same_text(tag, "textEntityTypePreCode")
            || same_text(tag, "textEntityTypeTextUrl")
            || same_text(tag, "textEntityTypeMentionName")
    }

    proof fn tag_known(&self) {
        reveal(<TextEntityType as Wire>::wire);
        match self {
            Self::TextEntityTypeMention(p) => p.tag_known(),
            Self::TextEntityTypeHashtag(p) => p.tag_known(),
            Self::TextEntityTypeCashtag(p) => p.tag_known(),
            Self::TextEntityTypeBotCommand(p) => p.tag_known(),
            Self::TextEntityTypeUrl(p) => p.tag_known(),
            Self::TextEntityTypeEmailAddress(p) => p.tag_known(),
            Self::TextEntityTypePhoneNumber(p) => p.tag_known(),
            Self::TextEntityTypeBold(p) => p.tag_known(),
            Self::TextEntityTypeItalic(p) => p.tag_known(),
            Self::TextEntityTypeUnderline(p) => p.tag_known(),
            Self::TextEntityTypeStrikethrough(p) => p.tag_known(),
            Self::TextEntityTypeCode(p) => p.tag_known(),
            Self::TextEntityTypePre(p) => p.tag_known(),
            Self::TextEntityTypePreCode(p) => p.tag_known(),
            Self::TextEntityTypeTextUrl(p) => p.tag_known(),
            Self::TextEntityTypeMentionName(p) => p.tag_known(),
        }
    }
}

impl Union for TextEntityType {
    proof fn unknown_rejected(d: Doc, at: Seq<char>) {
        reveal(<TextEntityType as Wire>::parse);
    }

    proof fn untagged_rejected(d: Doc, at: Seq<char>) {
        reveal(<TextEntityType as Wire>::parse);
    }
}

/// A thumbnail to be sent along with a file; should be in JPEG or WEBP format for stickers, and
/// less than 200 kB in size
#[derive(Debug, Clone, PartialEq)]
pub struct InputThumbnail {
    /// Thumbnail file to send. Sending thumbnails by file_id is currently not supported
    pub thumbnail: InputFile,
    /// Thumbnail width, usually shouldn't exceed 320. Use 0 if unknown
    pub width: i32,
    /// Thumbnail height, usually shouldn't exceed 320. Use 0 if unknown
    pub height: i32,
}

impl Wire for InputThumbnail {
    #[verifier::opaque]
    open spec fn wire(&self) -> Doc {
        tagged(
            Map::empty()
                .insert("thumbnail"@, self.thumbnail.wire())
                .insert("width"@, self.width.wire())
                .insert("height"@, self.height.wire()),
            "inputThumbnail"@,
        )
    }

    #[verifier::opaque]
    open spec fn parse(d: Doc, at: Seq<char>) -> Result<Doc, Fault> {
        match d {
            Doc::Object(m) => {
                let thumbnail = field::<InputFile>(m, "thumbnail"@);
                let width = field::<i32>(m, "width"@);
                let height = field::<i32>(m, "height"@);
                if thumbnail is Err {
                    thumbnail
                } else if width is Err {
                    width
                } else if height is Err {
                    height
                } else {
                    Ok(
                        tagged(
                            Map::empty()
                                .insert("thumbnail"@, thumbnail->Ok_0)
                                .insert("width"@, width->Ok_0)
                                .insert("height"@, height->Ok_0),
                            "inputThumbnail"@,
                        ),
                    )
                }
            },
            _ => Err(Fault::TypeMismatch(at)),
        }
    }

    fn encode(&self) -> (j: Json) {
        proof {
            reveal(<InputThumbnail as Wire>::wire);
        }
        let mut members: Vec<Member> = Vec::new();
        put(&mut members, "thumbnail", self.thumbnail.encode());
        put(&mut members, "width", self.width.encode());
        put(&mut members, "height", self.height.encode());
        seal(members, "inputThumbnail")
    }

    fn decode(j: &Json, at: &str) -> (r: Result<Self, DecodeError>) {
        proof {
            reveal(<InputThumbnail as Wire>::wire);
            reveal(<InputThumbnail as Wire>::parse);
        }
        let members = members_of(j, at)?;
        let thumbnail = read_field::<InputFile>(members, "thumbnail")?;
        let width = read_field::<i32>(members, "width")?;
        let height = read_field::<i32>(members, "height")?;
        Ok(InputThumbnail { thumbnail, width, height })
    }

    proof fn round_trip(&self, at: Seq<char>) {
        reveal(<InputThumbnail as Wire>::wire);
        reveal(<InputThumbnail as Wire>::parse);
        reveal_strlit("@type");
        reveal_strlit("height");
        reveal_strlit("thumbnail");
        reveal_strlit("width");
        assert("@type"@.len() == 5 && "@type"@[0] == '@');
        assert("height"@.len() == 6);
        assert("thumbnail"@.len() == 9);
        assert("width"@.len() == 5 && "width"@[0] == 'w');
        self.thumbnail.round_trip("thumbnail"@);
        self.width.round_trip("width"@);
        self.height.round_trip("height"@);
    }
}

impl Tagged for InputThumbnail {
    open spec fn known(tag: Seq<char>) -> bool {
        tag == "inputThumbnail"@
    }

    fn knows(tag: &str) -> (r: bool) {
        same_text(tag, "inputThumbnail")
    }

    proof fn tag_known(&self) {
        reveal(<InputThumbnail as Wire>::wire);
        assert(tag_of(self.wire()) == Some("inputThumbnail"@));
        assert(Self::known("inputThumbnail"@));
    }
}

/// The message will be sent at the specified date
#[derive(Debug, Clone, PartialEq)]
pub struct MessageSchedulingStateSendAtDate {
    /// Date the message will be sent. The date must be within 367 days in the future
    pub send_date: i32,
}

impl Wire for MessageSchedulingStateSendAtDate {
    #[verifier::opaque]
    open spec fn wire(&self) -> Doc {
        tagged(
            Map::empty()
                .insert("sendDate"@, self.send_date.wire()),
            "messageSchedulingStateSendAtDate"@,
        )
    }

    #[verifier::opaque]
    open spec fn parse(d: Doc, at: Seq<char>) -> Result<Doc, Fault> {
        match d {
            Doc::Object(m) => {
                let send_date = field::<i32>(m, "sendDate"@);
                if send_date is Err {
                    send_date
                } else {
                    Ok(
                        tagged(
                            Map::empty()
                                .insert("sendDate"@, send_date->Ok_0),
                            "messageSchedulingStateSendAtDate"@,
                        ),
                    )
                }
            },
            _ => Err(Fault::TypeMismatch(at)),
        }
    }

    fn encode(&self) -> (j: Json) {
        proof {
            reveal(<MessageSchedulingStateSendAtDate as Wire>::wire);
        }
        let mut members: Vec<Member> = Vec::new();
        put(&mut members, "sendDate", self.send_date.encode());
        seal(members, "messageSchedulingStateSendAtDate")
    }

    fn decode(j: &Json, at: &str) -> (r: Result<Self, DecodeError>) {
        proof {
            reveal(<MessageSchedulingStateSendAtDate as Wire>::wire);
            reveal(<MessageSchedulingStateSendAtDate as Wire>::parse);
        }
        let members = members_of(j, at)?;
        let send_date = read_field::<i32>(members, "sendDate")?;
        Ok(MessageSchedulingStateSendAtDate { send_date })
    }

    proof fn round_trip(&self, at: Seq<char>) {
        reveal(<MessageSchedulingStateSendAtDate as Wire>::wire);
        reveal(<MessageSchedulingStateSendAtDate as Wire>::parse);
        reveal_strlit("@type");
        reveal_strlit("sendDate");
        assert("@type"@.len() == 5);
        assert("sendDate"@.len() == 8);
        self.send_date.round_trip("sendDate"@);
    }
}

impl Tagged for MessageSchedulingStateSendAtDate {
    open spec fn known(tag: Seq<char>) -> bool {
        tag == "messageSchedulingStateSendAtDate"@
    }

    fn knows(tag: &str) -> (r: bool) {
        same_text(tag, "messageSchedulingStateSendAtDate")
    }

    proof fn tag_known(&self) {
        reveal(<MessageSchedulingStateSendAtDate as Wire>::wire);
        assert(tag_of(self.wire()) == Some("messageSchedulingStateSendAtDate"@));
        assert(Self::known("messageSchedulingStateSendAtDate"@));
    }
}

/// The message will be sent when the peer will be online. Applicable to private chats only and when
/// the exact online status of the peer is known
#[derive(Debug, Clone, PartialEq)]
pub struct MessageSchedulingStateSendWhenOnline {}

impl Wire for MessageSchedulingStateSendWhenOnline {
    #[verifier::opaque]
    open spec fn wire(&self) -> Doc {
        tagged(Map::empty(), "messageSchedulingStateSendWhenOnline"@)
    }

    #[verifier::opaque]
    open spec fn parse(d: Doc, at: Seq<char>) -> Result<Doc, Fault> {
        match d {
            Doc::Object(_) => Ok(tagged(Map::empty(), "messageSchedulingStateSendWhenOnline"@)),
            _ => Err(Fault::TypeMismatch(at)),
        }
    }

    fn encode(&self) -> (j: Json) {
        proof {
            reveal(<MessageSchedulingStateSendWhenOnline as Wire>::wire);
        }
        seal(Vec::new(), "messageSchedulingStateSendWhenOnline")
    }

    fn decode(j: &Json, at: &str) -> (r: Result<Self, DecodeError>) {
        proof {
            reveal(<MessageSchedulingStateSendWhenOnline as Wire>::wire);
            reveal(<MessageSchedulingStateSendWhenOnline as Wire>::parse);
        }
        let _ = members_of(j, at)?;
        Ok(MessageSchedulingStateSendWhenOnline {})
    }

    proof fn round_trip(&self, at: Seq<char>) {
        reveal(<MessageSchedulingStateSendWhenOnline as Wire>::wire);
        reveal(<MessageSchedulingStateSendWhenOnline as Wire>::parse);
    }
}

impl Tagged for MessageSchedulingStateSendWhenOnline {
    open spec fn known(tag: Seq<char>) -> bool {
        tag == "messageSchedulingStateSendWhenOnline"@
    }

    fn knows(tag: &str) -> (r: bool) {
        same_text(tag, "messageSchedulingStateSendWhenOnline")
    }

    proof fn tag_known(&self) {
        reveal(<MessageSchedulingStateSendWhenOnline as Wire>::wire);
        assert(tag_of(self.wire()) == Some("messageSchedulingStateSendWhenOnline"@));
        assert(Self::known("messageSchedulingStateSendWhenOnline"@));
    }
}

/// Contains information about the time when a scheduled message will be sent
#[derive(Debug, Clone, PartialEq)]
pub enum MessageSchedulingState {
    MessageSchedulingStateSendAtDate(MessageSchedulingStateSendAtDate),
    MessageSchedulingStateSendWhenOnline(MessageSchedulingStateSendWhenOnline),
}

impl Wire for MessageSchedulingState {
    #[verifier::opaque]
    open spec fn wire(&self) -> Doc {
        match self {
            Self::MessageSchedulingStateSendAtDate(p) => p.wire(),
            Self::MessageSchedulingStateSendWhenOnline(p) => p.wire(),
        }
    }

    #[verifier::opaque]
    open spec fn parse(d: Doc, at: Seq<char>) -> Result<Doc, Fault> {
        match d {
            Doc::Object(_) => match tag_of(d) {
                Some(t) => if t == "messageSchedulingStateSendAtDate"@ {
                    MessageSchedulingStateSendAtDate::parse(d, at)
                } else if t == "messageSchedulingStateSendWhenOnline"@ {
                    MessageSchedulingStateSendWhenOnline::parse(d, at)
                } else {
                    Err(Fault::UnknownVariant(t))
                },
                None => Err(Fault::MissingDiscriminator),
            },
            _ => Err(Fault::TypeMismatch(at)),
        }
    }

    fn encode(&self) -> (j: Json) {
        proof {
            reveal(<MessageSchedulingState as Wire>::wire);
        }
        match self {
            Self::MessageSchedulingStateSendAtDate(p) => p.encode(),
            Self::MessageSchedulingStateSendWhenOnline(p) => p.encode(),
        }
    }

    fn decode(j: &Json, at: &str) -> (r: Result<Self, DecodeError>) {
        proof {
            reveal(<MessageSchedulingState as Wire>::wire);
            reveal(<MessageSchedulingState as Wire>::parse);
        }
        let members = members_of(j, at)?;
        let tag = discriminator(members)?;
        if same_text(tag, "messageSchedulingStateSendAtDate") {
            Ok(
                Self::MessageSchedulingStateSendAtDate(
                    MessageSchedulingStateSendAtDate::decode(j, at)?,
                ),
            )
        } else if same_text(tag, "messageSchedulingStateSendWhenOnline") {
            Ok(
                Self::MessageSchedulingStateSendWhenOnline(
                    MessageSchedulingStateSendWhenOnline::decode(j, at)?,
                ),
            )
        } else {
            Err(DecodeError::UnknownVariant(tag.to_owned()))
        }
    }

    proof fn round_trip(&self, at: Seq<char>) {
        reveal(<MessageSchedulingState as Wire>::wire);
        reveal(<MessageSchedulingState as Wire>::parse);
        reveal_strlit("messageSchedulingStateSendAtDate");
        reveal_strlit("messageSchedulingStateSendWhenOnline");
        assert("messageSchedulingStateSendAtDate"@.len() == 32);
        assert("messageSchedulingStateSendWhenOnline"@.len() == 36);
        match self {
            Self::MessageSchedulingStateSendAtDate(p) => {
                p.tag_known();
                p.round_trip(at);
            },
            Self::MessageSchedulingStateSendWhenOnline(p) => {
                p.tag_known();
                p.round_trip(at);
            },
        }
    }
}

impl Tagged for MessageSchedulingState {
    open spec fn known(tag: Seq<char>) -> bool {
        ||| tag == "messageSchedulingStateSendAtDate"@
        ||| tag == "messageSchedulingStateSendWhenOnline"@
    }

    fn knows(tag: &str) -> (r: bool) {
        same_text(tag, "messageSchedulingStateSendAtDate")
            || same_text(tag, "messageSchedulingStateSendWhenOnline")
    }

    proof fn tag_known(&self) {
        reveal(<MessageSchedulingState as Wire>::wire);
        match self {
            Self::MessageSchedulingStateSendAtDate(p) => p.tag_known(),
            Self::MessageSchedulingStateSendWhenOnline(p) => p.tag_known(),
        }
    }
}

impl Union for MessageSchedulingState {
    proof fn unknown_rejected(d: Doc, at: Seq<char>) {
        reveal(<MessageSchedulingState as Wire>::parse);
    }

    proof fn untagged_rejected(d: Doc, at: Seq<char>) {
        reveal(<MessageSchedulingState as Wire>::parse);
    }
}

/// Options to be used when a message is send
#[derive(Debug, Clone, PartialEq)]
pub struct SendMessageOptions {
    /// Pass true to disable notification for the message. Must be false if the message is sent to a
    /// secret chat
    pub disable_notification: bool,
    /// Pass true if the message is sent from the background
    pub from_background: bool,
    /// Message scheduling state. Messages sent to a secret chat, live location messages and
    /// self-destructing messages can't be scheduled
    pub scheduling_state: MessageSchedulingState,
}

impl Wire for SendMessageOptions {
    #[verifier::opaque]
    open spec fn wire(&self) -> Doc {
        tagged(
            Map::empty()
                .insert("disableNotification"@, self.disable_notification.wire())
                .insert("fromBackground"@, self.from_background.wire())
                .insert("schedulingState"@, self.scheduling_state.wire()),
            "sendMessageOptions"@,
        )
    }

    #[verifier::opaque]
    open spec fn parse(d: Doc, at: Seq<char>) -> Result<Doc, Fault> {
        match d {
            Doc::Object(m) => {
                let disable_notification = field::<bool>(m, "disableNotification"@);
                let from_background = field::<bool>(m, "fromBackground"@);
                let scheduling_state = field::<MessageSchedulingState>(m, "schedulingState"@);
                if disable_notification is Err {
                    disable_notification
                } else if from_background is Err {
                    from_background
                } else if scheduling_state is Err {
                    scheduling_state
                } else {
                    Ok(
                        tagged(
                            Map::empty()
                                .insert("disableNotification"@, disable_notification->Ok_0)
                                .insert("fromBackground"@, from_background->Ok_0)
                                .insert("schedulingState"@, scheduling_state->Ok_0),
                            "sendMessageOptions"@,
                        ),
                    )
                }
            },
            _ => Err(Fault::TypeMismatch(at)),
        }
    }

    fn encode(&self) -> (j: Json) {
        proof {
            reveal(<SendMessageOptions as Wire>::wire);
        }
        let mut members: Vec<Member> = Vec::new();
        put(&mut members, "disableNotification", self.disable_notification.encode());
        put(&mut members, "fromBackground", self.from_background.encode());
        put(&mut members, "schedulingState", self.scheduling_state.encode());
        seal(members, "sendMessageOptions")
    }

    fn decode(j: &Json, at: &str) -> (r: Result<Self, DecodeError>) {
        proof {
            reveal(<SendMessageOptions as Wire>::wire);
            reveal(<SendMessageOptions as Wire>::parse);
        }
        let members = members_of(j, at)?;
        let disable_notification = read_field::<bool>(members, "disableNotification")?;
        let from_background = read_field::<bool>(members, "fromBackground")?;
        let scheduling_state = read_field::<MessageSchedulingState>(members, "schedulingState")?;
        Ok(SendMessageOptions { disable_notification, from_background, scheduling_state })
    }

    proof fn round_trip(&self, at: Seq<char>) {
        reveal(<SendMessageOptions as Wire>::wire);
        reveal(<SendMessageOptions as Wire>::parse);
        reveal_strlit("@type");
        reveal_strlit("disableNotification");
        reveal_strlit("fromBackground");
        reveal_strlit("schedulingState");
        assert("@type"@.len() == 5);
        assert("disableNotification"@.len() == 19);
        assert("fromBackground"@.len() == 14);
        assert("schedulingState"@.len() == 15);
        self.disable_notification.round_trip("disableNotification"@);
        self.from_background.round_trip("fromBackground"@);
        self.scheduling_state.round_trip("schedulingState"@);
    }
}

impl Tagged for SendMessageOptions {
    open spec fn known(tag: Seq<char>) -> bool {
        tag == "sendMessageOptions"@
    }

    fn knows(tag: &str) -> (r: bool) {
        same_text(tag, "sendMessageOptions")
    }

    proof fn tag_known(&self) {
        reveal(<SendMessageOptions as Wire>::wire);
        assert(tag_of(self.wire()) == Some("sendMessageOptions"@));
        assert(Self::known("sendMessageOptions"@));
    }
}

/// A text message
#[derive(Debug, Clone, PartialEq)]
pub struct InputMessageText {
    /// Formatted text to be sent; 1-GetOption("message_text_length_max") characters. Only Bold,
    /// Italic, Underline, Strikethrough, Code, Pre, PreCode, TextUrl and MentionName entities are
    /// allowed to be specified manually
    pub text: FormattedText,
    /// True, if rich web page previews for URLs in the message text should be disabled
    pub disable_web_page_preview: bool,
    /// True, if a chat message draft should be deleted
    pub clear_draft: bool,
}

impl Wire for InputMessageText {
    #[verifier::opaque]
    open spec fn wire(&self) -> Doc {
        tagged(
            Map::empty()
                .insert("text"@, self.text.wire())
                .insert("disableWebPagePreview"@, self.disable_web_page_preview.wire())
                .insert("clearDraft"@, self.clear_draft.wire()),
            "inputMessageText"@,
        )
    }

    #[verifier::opaque]
    open spec fn parse(d: Doc, at: Seq<char>) -> Result<Doc, Fault> {
        match d {
            Doc::Object(m) => {
                let text = field::<FormattedText>(m, "text"@);
                let disable_web_page_preview = field::<bool>(m, "disableWebPagePreview"@);
                let clear_draft = field::<bool>(m, "clearDraft"@);
                if text is Err {
                    text
                } else if disable_web_page_preview is Err {
                    disable_web_page_preview
                } else if clear_draft is Err {
                    clear_draft
                } else {
                    Ok(
                        tagged(
                            Map::empty()
                                .insert("text"@, text->Ok_0)
                                .insert("disableWebPagePreview"@, disable_web_page_preview->Ok_0)
                                .insert("clearDraft"@, clear_draft->Ok_0),
                            "inputMessageText"@,
                        ),
                    )
                }
            },
            _ => Err(Fault::TypeMismatch(at)),
        }
    }

    fn encode(&self) -> (j: Json) {
        proof {
            reveal(<InputMessageText as Wire>::wire);
        }
        let mut members: Vec<Member> = Vec::new();
        put(&mut members, "text", self.text.encode());
        put(&mut members, "disableWebPagePreview", self.disable_web_page_preview.encode());
        put(&mut members, "clearDraft", self.clear_draft.encode());
        seal(members, "inputMessageText")
    }

    fn decode(j: &Json, at: &str) -> (r: Result<Self, DecodeError>) {
        proof {
            reveal(<InputMessageText as Wire>::wire);
            reveal(<InputMessageText as Wire>::parse);
        }
        let members = members_of(j, at)?;
        let text = read_field::<FormattedText>(members, "text")?;
        let disable_web_page_preview = read_field::<bool>(members, "disableWebPagePreview")?;
        let clear_draft = read_field::<bool>(members, "clearDraft")?;
        Ok(InputMessageText { text, disable_web_page_preview, clear_draft })
    }

    proof fn round_trip(&self, at: Seq<char>) {
        reveal(<InputMessageText as Wire>::wire);
        reveal(<InputMessageText as Wire>::parse);
        reveal_strlit("@type");
        reveal_strlit("clearDraft");
        reveal_strlit("disableWebPagePreview");
        reveal_strlit("text");
        assert("@type"@.len() == 5);
        assert("clearDraft"@.len() == 10);
        assert("disableWebPagePreview"@.len() == 21);
        assert("text"@.len() == 4);
        self.text.round_trip("text"@);
        self.disable_web_page_preview.round_trip("disableWebPagePreview"@);
        self.clear_draft.round_trip("clearDraft"@);
    }
}

impl Tagged for InputMessageText {
    open spec fn known(tag: Seq<char>) -> bool {
        tag == "inputMessageText"@
    }

    fn knows(tag: &str) -> (r: bool) {
        same_text(tag, "inputMessageText")
    }

    proof fn tag_known(&self) {
        reveal(<InputMessageText as Wire>::wire);
        assert(tag_of(self.wire()) == Some("inputMessageText"@));
        assert(Self::known("inputMessageText"@));
    }
}

/// An animation message (GIF-style).
#[derive(Debug, Clone, PartialEq)]
pub struct InputMessageAnimation {
    /// Animation file to be sent
    pub animation: InputFile,
    /// Animation thumbnail, if available
    pub thumbnail: InputThumbnail,
    /// Duration of the animation, in seconds
    pub duration: i32,
    /// Width of the animation; may be replaced by the server
    pub width: i32,
    /// Height of the animation; may be replaced by the server
    pub height: i32,
    /// Animation caption; 0-GetOption("message_caption_length_max") characters
    pub caption: FormattedText,
}

impl Wire for InputMessageAnimation {
    #[verifier::opaque]
    open spec fn wire(&self) -> Doc {
        tagged(
            Map::empty()
                .insert("animation"@, self.animation.wire())
                .insert("thumbnail"@, self.thumbnail.wire())
                .insert("duration"@, self.duration.wire())
                .insert("width"@, self.width.wire())
                .insert("height"@, self.height.wire())
                .insert("caption"@, self.caption.wire()),
            "inputMessageAnimation"@,
        )
    }

    #[verifier::opaque]
    open spec fn parse(d: Doc, at: Seq<char>) -> Result<Doc, Fault> {
        match d {
            Doc::Object(m) => {
                let animation = field::<InputFile>(m, "animation"@);
                let thumbnail = field::<InputThumbnail>(m, "thumbnail"@);
                let duration = field::<i32>(m, "duration"@);
                let width = field::<i32>(m, "width"@);
                let height = field::<i32>(m, "height"@);
                let caption = field::<FormattedText>(m, "caption"@);
                if animation is Err {
                    animation
                } else if thumbnail is Err {
                    thumbnail
                } else if duration is Err {
                    duration
                } else if width is Err {
                    width
                } else if height is Err {
                    height
                } else if caption is Err {
                    caption
                } else {
                    Ok(
                        tagged(
                            Map::empty()
                                .insert("animation"@, animation->Ok_0)
                                .insert("thumbnail"@, thumbnail->Ok_0)
                                .insert("duration"@, duration->Ok_0)
                                .insert("width"@, width->Ok_0)
                                .insert("height"@, height->Ok_0)
                                .insert("caption"@, caption->Ok_0),
                            "inputMessageAnimation"@,
                        ),
                    )
                }
            },
            _ => Err(Fault::TypeMismatch(at)),
        }
    }

    fn encode(&self) -> (j: Json) {
        proof {
            reveal(<InputMessageAnimation as Wire>::wire);
        }
        let mut members: Vec<Member> = Vec::new();
        put(&mut members, "animation", self.animation.encode());
        put(&mut members, "thumbnail", self.thumbnail.encode());
        put(&mut members, "duration", self.duration.encode());
        put(&mut members, "width", self.width.encode());
        put(&mut members, "height", self.height.encode());
        put(&mut members, "caption", self.caption.encode());
        seal(members, "inputMessageAnimation")
    }

    fn decode(j: &Json, at: &str) -> (r: Result<Self, DecodeError>) {
        proof {
            reveal(<InputMessageAnimation as Wire>::wire);
            reveal(<InputMessageAnimation as Wire>::parse);
        }
        let members = members_of(j, at)?;
        let animation = read_field::<InputFile>(members, "animation")?;
        let thumbnail = read_field::<InputThumbnail>(members, "thumbnail")?;
        let duration = read_field::<i32>(members, "duration")?;
        let width = read_field::<i32>(members, "width")?;
        let height = read_field::<i32>(members, "height")?;
        let caption = read_field::<FormattedText>(members, "caption")?;
        Ok(InputMessageAnimation { animation, thumbnail, duration, width, height, caption })
    }

    proof fn round_trip(&self, at: Seq<char>) {
        reveal(<InputMessageAnimation as Wire>::wire);
        reveal(<InputMessageAnimation as Wire>::parse);
        reveal_strlit("@type");
        reveal_strlit("animation");
        reveal_strlit("caption");
        reveal_strlit("duration");
        reveal_strlit("height");
        reveal_strlit("thumbnail");
        reveal_strlit("width");
        assert("@type"@.len() == 5 && "@type"@[0] == '@');
        assert("animation"@.len() == 9 && "animation"@[0] == 'a');
        assert("caption"@.len() == 7);
        assert("duration"@.len() == 8);
        assert("height"@.len() == 6);
        assert("thumbnail"@.len() == 9 && "thumbnail"@[0] == 't');
        assert("width"@.len() == 5 && "width"@[0] == 'w');
        self.animation.round_trip("animation"@);
        self.thumbnail.round_trip("thumbnail"@);
        self.duration.round_trip("duration"@);
        self.width.round_trip("width"@);
        self.height.round_trip("height"@);
        self.caption.round_trip("caption"@);
    }
}

impl Tagged for InputMessageAnimation {
    open spec fn known(tag: Seq<char>) -> bool {
        tag == "inputMessageAnimation"@
    }

    fn knows(tag: &str) -> (r: bool) {
        same_text(tag, "inputMessageAnimation")
    }

    proof fn tag_known(&self) {
        reveal(<InputMessageAnimation as Wire>::wire);
        assert(tag_of(self.wire()) == Some("inputMessageAnimation"@));
        assert(Self::known("inputMessageAnimation"@));
    }
}

/// An audio message
#[derive(Debug, Clone, PartialEq)]
pub struct InputMessageAudio {
    /// Audio file to be sent
    pub audio: InputFile,
    /// Thumbnail of the cover for the album, if available
    pub album_cover_thumbnail: InputThumbnail,
    /// Duration of the audio, in seconds; may be replaced by the server
    pub duration: i32,
    /// Title of the audio; 0-64 characters; may be replaced by the server
    pub title: String,
    /// Performer of the audio; 0-64 characters, may be replaced by the server
    pub performer: String,
    /// Audio caption; 0-GetOption("message_caption_length_max") characters
    pub caption: FormattedText,
}

impl Wire for InputMessageAudio {
    #[verifier::opaque]
    open spec fn wire(&self) -> Doc {
        tagged(
            Map::empty()
                .insert("audio"@, self.audio.wire())
                .insert("albumCoverThumbnail"@, self.album_cover_thumbnail.wire())
                .insert("duration"@, self.duration.wire())
                .insert("title"@, self.title.wire())
                .insert("performer"@, self.performer.wire())
                .insert("caption"@, self.caption.wire()),
            "inputMessageAudio"@,
        )
    }

    #[verifier::opaque]
    open spec fn parse(d: Doc, at: Seq<char>) -> Result<Doc, Fault> {
        match d {
            Doc::Object(m) => {
                let audio = field::<InputFile>(m, "audio"@);
                let album_cover_thumbnail = field::<InputThumbnail>(m, "albumCoverThumbnail"@);
                let duration = field::<i32>(m, "duration"@);
                let title = field::<String>(m, "title"@);
                let performer = field::<String>(m, "performer"@);
                let caption = field::<FormattedText>(m, "caption"@);
                if audio is Err {
                    audio
                } else if album_cover_thumbnail is Err {
                    album_cover_thumbnail
                } else if duration is Err {
                    duration
                } else if title is Err {
                    title
                } else if performer is Err {
                    performer
                } else if caption is Err {
                    caption
                } else {
                    Ok(
                        tagged(
                            Map::empty()
                                .insert("audio"@, audio->Ok_0)
                                .insert("albumCoverThumbnail"@, album_cover_thumbnail->Ok_0)
                                .insert("duration"@, duration->Ok_0)
                                .insert("title"@, title->Ok_0)
                                .insert("performer"@, performer->Ok_0)
                                .insert("caption"@, caption->Ok_0),
                            "inputMessageAudio"@,
                        ),
                    )
                }
            },
            _ => Err(Fault::TypeMismatch(at)),
        }
    }

    fn encode(&self) -> (j: Json) {
        proof {
            reveal(<InputMessageAudio as Wire>::wire);
        }
        let mut members: Vec<Member> = Vec::new();
        put(&mut members, "audio", self.audio.encode());
        put(&mut members, "albumCoverThumbnail", self.album_cover_thumbnail.encode());
        put(&mut members, "duration", self.duration.encode());
        put(&mut members, "title", self.title.encode());
        put(&mut members, "performer", self.performer.encode());
        put(&mut members, "caption", self.caption.encode());
        seal(members, "inputMessageAudio")
    }

    fn decode(j: &Json, at: &str) -> (r: Result<Self, DecodeError>) {
        proof {
            reveal(<InputMessageAudio as Wire>::wire);
            reveal(<InputMessageAudio as Wire>::parse);
        }
        let members = members_of(j, at)?;
        let audio = read_field::<InputFile>(members, "audio")?;
        let album_cover_thumbnail = read_field::<InputThumbnail>(members, "albumCoverThumbnail")?;
        let duration = read_field::<i32>(members, "duration")?;
        let title = read_field::<String>(members, "title")?;
        let performer = read_field::<String>(members, "performer")?;
        let caption = read_field::<FormattedText>(members, "caption")?;
        Ok(InputMessageAudio { audio, album_cover_thumbnail, duration, title, performer, caption })
    }

    proof fn round_trip(&self, at: Seq<char>) {
        reveal(<InputMessageAudio as Wire>::wire);
        reveal(<InputMessageAudio as Wire>::parse);
        reveal_strlit("@type");
        reveal_strlit("albumCoverThumbnail");
        reveal_strlit("audio");
        reveal_strlit("caption");
        reveal_strlit("duration");
        reveal_strlit("performer");
        reveal_strlit("title");
        assert("@type"@.len() == 5 && "@type"@[0] == '@');
        assert("albumCoverThumbnail"@.len() == 19);
        assert("audio"@.len() == 5 && "audio"@[0] == 'a');
        assert("caption"@.len() == 7);
        assert("duration"@.len() == 8);
        assert("performer"@.len() == 9);
        assert("title"@.len() == 5 && "title"@[0] == 't');
        self.audio.round_trip("audio"@);
        self.album_cover_thumbnail.round_trip("albumCoverThumbnail"@);
        self.duration.round_trip("duration"@);
        self.title.round_trip("title"@);
        self.performer.round_trip("performer"@);
        self.caption.round_trip("caption"@);
    }
}

impl Tagged for InputMessageAudio {
    open spec fn known(tag: Seq<char>) -> bool {
        tag == "inputMessageAudio"@
    }

    fn knows(tag: &str) -> (r: bool) {
        same_text(tag, "inputMessageAudio")
    }

    proof fn tag_known(&self) {
        reveal(<InputMessageAudio as Wire>::wire);
        assert(tag_of(self.wire()) == Some("inputMessageAudio"@));
        assert(Self::known("inputMessageAudio"@));
    }
}

/// A document message (general file)
#[derive(Debug, Clone, PartialEq)]
pub struct InputMessageDocument {
    /// Document to be sent
    pub document: InputFile,
    /// Document thumbnail, if available
    pub thumbnail: InputThumbnail,
    /// Document caption; 0-GetOption("message_caption_length_max") characters
    pub caption: FormattedText,
}

impl Wire for InputMessageDocument {
    #[verifier::opaque]
    open spec fn wire(&self) -> Doc {
        tagged(
            Map::empty()
                .insert("document"@, self.document.wire())
                .insert("thumbnail"@, self.thumbnail.wire())
                .insert("caption"@, self.caption.wire()),
            "inputMessageDocument"@,
        )
    }

    #[verifier::opaque]
    open spec fn parse(d: Doc, at: Seq<char>) -> Result<Doc, Fault> {
        match d {
            Doc::Object(m) => {
                let document = field::<InputFile>(m, "document"@);
                let thumbnail = field::<InputThumbnail>(m, "thumbnail"@);
                let caption = field::<FormattedText>(m, "caption"@);
                if document is Err {
                    document
                } else if thumbnail is Err {
                    thumbnail
                } else if caption is Err {
                    caption
                } else {
                    Ok(
                        tagged(
                            Map::empty()
                                .insert("document"@, document->Ok_0)
                                .insert("thumbnail"@, thumbnail->Ok_0)
                                .insert("caption"@, caption->Ok_0),
                            "inputMessageDocument"@,
                        ),
                    )
                }
            },
            _ => Err(Fault::TypeMismatch(at)),
        }
    }

    fn encode(&self) -> (j: Json) {
        proof {
            reveal(<InputMessageDocument as Wire>::wire);
        }
        let mut members: Vec<Member> = Vec::new();
        put(&mut members, "document", self.document.encode());
        put(&mut members, "thumbnail", self.thumbnail.encode());
        put(&mut members, "caption", self.caption.encode());
        seal(members, "inputMessageDocument")
    }

    fn decode(j: &Json, at: &str) -> (r: Result<Self, DecodeError>) {
        proof {
            reveal(<InputMessageDocument as Wire>::wire);
            reveal(<InputMessageDocument as Wire>::parse);
        }
        let members = members_of(j, at)?;
        let document = read_field::<InputFile>(members, "document")?;
        let thumbnail = read_field::<InputThumbnail>(members, "thumbnail")?;
        let caption = read_field::<FormattedText>(members, "caption")?;
        Ok(InputMessageDocument { document, thumbnail, caption })
    }

    proof fn round_trip(&self, at: Seq<char>) {
        reveal(<InputMessageDocument as Wire>::wire);
        reveal(<InputMessageDocument as Wire>::parse);
        reveal_strlit("@type");
        reveal_strlit("caption");
        reveal_strlit("document");
        reveal_strlit("thumbnail");
        assert("@type"@.len() == 5);
        assert("caption"@.len() == 7);
        assert("document"@.len() == 8);
        assert("thumbnail"@.len() == 9);
        self.document.round_trip("document"@);
        self.thumbnail.round_trip("thumbnail"@);
        self.caption.round_trip("caption"@);
    }
}

impl Tagged for InputMessageDocument {
    open spec fn known(tag: Seq<char>) -> bool {
        tag == "inputMessageDocument"@
    }

    fn knows(tag: &str) -> (r: bool) {
        same_text(tag, "inputMessageDocument")
    }

    proof fn tag_known(&self) {
        reveal(<InputMessageDocument as Wire>::wire);
        assert(tag_of(self.wire()) == Some("inputMessageDocument"@));
        assert(Self::known("inputMessageDocument"@));
    }
}

/// A photo message
#[derive(Debug, Clone, PartialEq)]
pub struct InputMessagePhoto {
    /// Photo to send
    pub photo: InputFile,
    /// Photo thumbnail to be sent, this is sent to the other party in secret chats only
    pub thumbnail: InputThumbnail,
    /// File identifiers of the stickers added to the photo, if applicable
    pub added_sticker_file_ids: Vec<i32>,
    /// Photo width
    pub width: i32,
    /// Photo height
    pub height: i32,
    /// Photo caption; 0-GetOption("message_caption_length_max") characters
    pub caption: FormattedText,
    /// Photo TTL (Time To Live), in seconds (0-60). A non-zero TTL can be specified only in private
    /// chats
    pub ttl: i32,
}

impl Wire for InputMessagePhoto {
    #[verifier::opaque]
    open spec fn wire(&self) -> Doc {
        tagged(
            Map::empty()
                .insert("photo"@, self.photo.wire())
                .insert("thumbnail"@, self.thumbnail.wire())
                .insert("addedStickerFileIds"@, self.added_sticker_file_ids.wire())
                .insert("width"@, self.width.wire())
                .insert("height"@, self.height.wire())
                .insert("caption"@, self.caption.wire())
                .insert("ttl"@, self.ttl.wire()),
            "inputMessagePhoto"@,
        )
    }

    #[verifier::opaque]
    open spec fn parse(d: Doc, at: Seq<char>) -> Result<Doc, Fault> {
        match d {
            Doc::Object(m) => {
                let photo = field::<InputFile>(m, "photo"@);
                let thumbnail = field::<InputThumbnail>(m, "thumbnail"@);
                let added_sticker_file_ids = field::<Vec<i32>>(m, "addedStickerFileIds"@);
                let width = field::<i32>(m, "width"@);
                let height = field::<i32>(m, "height"@);
                let caption = field::<FormattedText>(m, "caption"@);
                let ttl = field::<i32>(m, "ttl"@);
                if photo is Err {
                    photo
                } else if thumbnail is Err {
                    thumbnail
                } else if added_sticker_file_ids is Err {
                    added_sticker_file_ids
                } else if width is Err {
                    width
                } else if height is Err {
                    height
                } else if caption is Err {
                    caption
                } else if ttl is Err {
                    ttl
                } else {
                    Ok(
                        tagged(
                            Map::empty()
                                .insert("photo"@, photo->Ok_0)
                                .insert("thumbnail"@, thumbnail->Ok_0)
                                .insert("addedStickerFileIds"@, added_sticker_file_ids->Ok_0)
                                .insert("width"@, width->Ok_0)
                                .insert("height"@, height->Ok_0)
                                .insert("caption"@, caption->Ok_0)
                                .insert("ttl"@, ttl->Ok_0),
                            "inputMessagePhoto"@,
                        ),
                    )
                }
            },
            _ => Err(Fault::TypeMismatch(at)),
        }
    }

    fn encode(&self) -> (j: Json) {
        proof {
            reveal(<InputMessagePhoto as Wire>::wire);
        }
        let mut members: Vec<Member> = Vec::new();
        put(&mut members, "photo", self.photo.encode());
        put(&mut members, "thumbnail", self.thumbnail.encode());
        put(&mut members, "addedStickerFileIds", self.added_sticker_file_ids.encode());
        put(&mut members, "width", self.width.encode());
        put(&mut members, "height", self.height.encode());
        put(&mut members, "caption", self.caption.encode());
        put(&mut members, "ttl", self.ttl.encode());
        seal(members, "inputMessagePhoto")
    }

    fn decode(j: &Json, at: &str) -> (r: Result<Self, DecodeError>) {
        proof {
            reveal(<InputMessagePhoto as Wire>::wire);
            reveal(<InputMessagePhoto as Wire>::parse);
        }
        let members = members_of(j, at)?;
        let photo = read_field::<InputFile>(members, "photo")?;
        let thumbnail = read_field::<InputThumbnail>(members, "thumbnail")?;
        let added_sticker_file_ids = read_field::<Vec<i32>>(members, "addedStickerFileIds")?;
        let width = read_field::<i32>(members, "width")?;
        let height = read_field::<i32>(members, "height")?;
        let caption = read_field::<FormattedText>(members, "caption")?;
        let ttl = read_field::<i32>(members, "ttl")?;
        Ok(InputMessagePhoto {
            photo,
            thumbnail,
            added_sticker_file_ids,
            width,
            height,
            caption,
            ttl,
        })
    }

    proof fn round_trip(&self, at: Seq<char>) {
        reveal(<InputMessagePhoto as Wire>::wire);
        reveal(<InputMessagePhoto as Wire>::parse);
        reveal_strlit("@type");
        reveal_strlit("addedStickerFileIds");
        reveal_strlit("caption");
        reveal_strlit("height");
        reveal_strlit("photo");
        reveal_strlit("thumbnail");
        reveal_strlit("ttl");
        reveal_strlit("width");
        assert("@type"@.len() == 5 && "@type"@[0] == '@');
        assert("addedStickerFileIds"@.len() == 19);
        assert("caption"@.len() == 7);
        assert("height"@.len() == 6);
        assert("photo"@.len() == 5 && "photo"@[0] == 'p');
        assert("thumbnail"@.len() == 9);
        assert("ttl"@.len() == 3);
        assert("width"@.len() == 5 && "width"@[0] == 'w');
        self.photo.round_trip("photo"@);
        self.thumbnail.round_trip("thumbnail"@);
        self.added_sticker_file_ids.round_trip("addedStickerFileIds"@);
        self.width.round_trip("width"@);
        self.height.round_trip("height"@);
        self.caption.round_trip("caption"@);
        self.ttl.round_trip("ttl"@);
    }
}

impl Tagged for InputMessagePhoto {
    open spec fn known(tag: Seq<char>) -> bool {
        tag == "inputMessagePhoto"@
    }

    fn knows(tag: &str) -> (r: bool) {
        same_text(tag, "inputMessagePhoto")
    }

    proof fn tag_known(&self) {
        reveal(<InputMessagePhoto as Wire>::wire);
        assert(tag_of(self.wire()) == Some("inputMessagePhoto"@));
        assert(Self::known("inputMessagePhoto"@));
    }
}

/// A sticker message
#[derive(Debug, Clone, PartialEq)]
pub struct InputMessageSticker {
    /// Sticker to be sent
    pub sticker: InputFile,
    /// Sticker thumbnail, if available
    pub thumbnail: InputThumbnail,
    /// Sticker width
    pub width: i32,
    /// Sticker height
    pub height: i32,
}

impl Wire for InputMessageSticker {
    #[verifier::opaque]
    open spec fn wire(&self) -> Doc {
        tagged(
            Map::empty()
                .insert("sticker"@, self.sticker.wire())
                .insert("thumbnail"@, self.thumbnail.wire())
                .insert("width"@, self.width.wire())
                .insert("height"@, self.height.wire()),
            "inputMessageSticker"@,
        )
    }

    #[verifier::opaque]
    open spec fn parse(d: Doc, at: Seq<char>) -> Result<Doc, Fault> {
        match d {
            Doc::Object(m) => {
                let sticker = field::<InputFile>(m, "sticker"@);
                let thumbnail = field::<InputThumbnail>(m, "thumbnail"@);
                let width = field::<i32>(m, "width"@);
                let height = field::<i32>(m, "height"@);
                if sticker is Err {
                    sticker
                } else if thumbnail is Err {
                    thumbnail
                } else if width is Err {
                    width
                } else if height is Err {
                    height
                } else {
                    Ok(
                        tagged(
                            Map::empty()
                                .insert("sticker"@, sticker->Ok_0)
                                .insert("thumbnail"@, thumbnail->Ok_0)
                                .insert("width"@, width->Ok_0)
                                .insert("height"@, height->Ok_0),
                            "inputMessageSticker"@,
                        ),
                    )
                }
            },
            _ => Err(Fault::TypeMismatch(at)),
        }
    }

    fn encode(&self) -> (j: Json) {
        proof {
            reveal(<InputMessageSticker as Wire>::wire);
        }
        let mut members: Vec<Member> = Vec::new();
        put(&mut members, "sticker", self.sticker.encode());
        put(&mut members, "thumbnail", self.thumbnail.encode());
        put(&mut members, "width", self.width.encode());
        put(&mut members, "height", self.height.encode());
        seal(members, "inputMessageSticker")
    }

    fn decode(j: &Json, at: &str) -> (r: Result<Self, DecodeError>) {
        proof {
            reveal(<InputMessageSticker as Wire>::wire);
            reveal(<InputMessageSticker as Wire>::parse);
        }
        let members = members_of(j, at)?;
        let sticker = read_field::<InputFile>(members, "sticker")?;
        let thumbnail = read_field::<InputThumbnail>(members, "thumbnail")?;
        let width = read_field::<i32>(members, "width")?;
        let height = read_field::<i32>(members, "height")?;
        Ok(InputMessageSticker { sticker, thumbnail, width, height })
    }

    proof fn round_trip(&self, at: Seq<char>) {
        reveal(<InputMessageSticker as Wire>::wire);
        reveal(<InputMessageSticker as Wire>::parse);
        reveal_strlit("@type");
        reveal_strlit("height");
        reveal_strlit("sticker");
        reveal_strlit("thumbnail");
        reveal_strlit("width");
        assert("@type"@.len() == 5 && "@type"@[0] == '@');
        assert("height"@.len() == 6);
        assert("sticker"@.len() == 7);
        assert("thumbnail"@.len() == 9);
        assert("width"@.len() == 5 && "width"@[0] == 'w');
        self.sticker.round_trip("sticker"@);
        self.thumbnail.round_trip("thumbnail"@);
        self.width.round_trip("width"@);
        self.height.round_trip("height"@);
    }
}

impl Tagged for InputMessageSticker {
    open spec fn known(tag: Seq<char>) -> bool {
        tag == "inputMessageSticker"@
    }

    fn knows(tag: &str) -> (r: bool) {
        same_text(tag, "inputMessageSticker")
    }

    proof fn tag_known(&self) {
        reveal(<InputMessageSticker as Wire>::wire);
        assert(tag_of(self.wire()) == Some("inputMessageSticker"@));
        assert(Self::known("inputMessageSticker"@));
    }
}

/// A video message
#[derive(Debug, Clone, PartialEq)]
pub struct InputMessageVideo {
    /// Video to be sent
    pub video: InputFile,
    /// Video thumbnail, if available
    pub thumbnail: InputThumbnail,
    /// File identifiers of the stickers added to the video, if applicable
    pub added_sticker_file_ids: Vec<i32>,
    /// Duration of the video, in seconds
    pub duration: i32,
    /// Video width
    pub width: i32,
    /// Video height
    pub height: i32,
    /// True, if the video should be tried to be streamed
    pub supports_streaming: bool,
    /// Video caption; 0-GetOption("message_caption_length_max") characters
    pub caption: FormattedText,
    /// Video TTL (Time To Live), in seconds (0-60). A non-zero TTL can be specified only in private
    /// chats
    pub ttl: i32,
}

impl Wire for InputMessageVideo {
    #[verifier::opaque]
    open spec fn wire(&self) -> Doc {
        tagged(
            Map::empty()
                .insert("video"@, self.video.wire())
                .insert("thumbnail"@, self.thumbnail.wire())
                .insert("addedStickerFileIds"@, self.added_sticker_file_ids.wire())
                .insert("duration"@, self.duration.wire())
                .insert("width"@, self.width.wire())
                .insert("height"@, self.height.wire())
                .insert("supportsStreaming"@, self.supports_streaming.wire())
                .insert("caption"@, self.caption.wire())
                .insert("ttl"@, self.ttl.wire()),
            "inputMessageVideo"@,
        )
    }

    #[verifier::opaque]
    open spec fn parse(d: Doc, at: Seq<char>) -> Result<Doc, Fault> {
        match d {
            Doc::Object(m) => {
                let video = field::<InputFile>(m, "video"@);
                let thumbnail = field::<InputThumbnail>(m, "thumbnail"@);
                let added_sticker_file_ids = field::<Vec<i32>>(m, "addedStickerFileIds"@);
                let duration = field::<i32>(m, "duration"@);
                let width = field::<i32>(m, "width"@);
                let height = field::<i32>(m, "height"@);
                let supports_streaming = field::<bool>(m, "supportsStreaming"@);
                let caption = field::<FormattedText>(m, "caption"@);
                let ttl = field::<i32>(m, "ttl"@);
                if video is Err {
                    video
                } else if thumbnail is Err {
                    thumbnail
                } else if added_sticker_file_ids is Err {
                    added_sticker_file_ids
                } else if duration is Err {
                    duration
                } else if width is Err {
                    width
                } else if height is Err {
                    height
                } else if supports_streaming is Err {
                    supports_streaming
                } else if caption is Err {
                    caption
                } else if ttl is Err {
                    ttl
                } else {
                    Ok(
                        tagged(
                            Map::empty()
                                .insert("video"@, video->Ok_0)
                                .insert("thumbnail"@, thumbnail->Ok_0)
                                .insert("addedStickerFileIds"@, added_sticker_file_ids->Ok_0)
                                .insert("duration"@, duration->Ok_0)
                                .insert("width"@, width->Ok_0)
                                .insert("height"@, height->Ok_0)
                                .insert("supportsStreaming"@, supports_streaming->Ok_0)
                                .insert("caption"@, caption->Ok_0)
                                .insert("ttl"@, ttl->Ok_0),
                            "inputMessageVideo"@,
                        ),
                    )
                }
            },
            _ => Err(Fault::TypeMismatch(at)),
        }
    }

    fn encode(&self) -> (j: Json) {
        proof {
            reveal(<InputMessageVideo as Wire>::wire);
        }
        let mut members: Vec<Member> = Vec::new();
        put(&mut members, "video", self.video.encode());
        put(&mut members, "thumbnail", self.thumbnail.encode());
        put(&mut members, "addedStickerFileIds", self.added_sticker_file_ids.encode());
        put(&mut members, "duration", self.duration.encode());
        put(&mut members, "width", self.width.encode());
        put(&mut members, "height", self.height.encode());
        put(&mut members, "supportsStreaming", self.supports_streaming.encode());
        put(&mut members, "caption", self.caption.encode());
        put(&mut members, "ttl", self.ttl.encode());
        seal(members, "inputMessageVideo")
    }

    fn decode(j: &Json, at: &str) -> (r: Result<Self, DecodeError>) {
        proof {
            reveal(<InputMessageVideo as Wire>::wire);
            reveal(<InputMessageVideo as Wire>::parse);
        }
        let members = members_of(j, at)?;
        let video = read_field::<InputFile>(members, "video")?;
        let thumbnail = read_field::<InputThumbnail>(members, "thumbnail")?;
        let added_sticker_file_ids = read_field::<Vec<i32>>(members, "addedStickerFileIds")?;
        let duration = read_field::<i32>(members, "duration")?;
        let width = read_field::<i32>(members, "width")?;
        let height = read_field::<i32>(members, "height")?;
        let supports_streaming = read_field::<bool>(members, "supportsStreaming")?;
        let caption = read_field::<FormattedText>(members, "caption")?;
        let ttl = read_field::<i32>(members, "ttl")?;
        Ok(InputMessageVideo {
            video,
            thumbnail,
            added_sticker_file_ids,
            duration,
            width,
            height,
            supports_streaming,
            caption,
            ttl,
        })
    }

    proof fn round_trip(&self, at: Seq<char>) {
        reveal(<InputMessageVideo as Wire>::wire);
        reveal(<InputMessageVideo as Wire>::parse);
        reveal_strlit("@type");
        reveal_strlit("addedStickerFileIds");
        reveal_strlit("caption");
        reveal_strlit("duration");
        reveal_strlit("height");
        reveal_strlit("supportsStreaming");
        reveal_strlit("thumbnail");
        reveal_strlit("ttl");
        reveal_strlit("video");
        reveal_strlit("width");
        assert("@type"@.len() == 5 && "@type"@[0] == '@');
        assert("addedStickerFileIds"@.len() == 19);
        assert("caption"@.len() == 7);
        assert("duration"@.len() == 8);
        assert("height"@.len() == 6);
        assert("supportsStreaming"@.len() == 17);
        assert("thumbnail"@.len() == 9);
        assert("ttl"@.len() == 3);
        assert("video"@.len() == 5 && "video"@[0] == 'v');
        assert("width"@.len() == 5 && "width"@[0] == 'w');
        self.video.round_trip("video"@);
        self.thumbnail.round_trip("thumbnail"@);
        self.added_sticker_file_ids.round_trip("addedStickerFileIds"@);
        self.duration.round_trip("duration"@);
        self.width.round_trip("width"@);
        self.height.round_trip("height"@);
        self.supports_streaming.round_trip("supportsStreaming"@);
        self.caption.round_trip("caption"@);
        self.ttl.round_trip("ttl"@);
        let m = self.wire()->Object_0;
        assert(field::<InputFile>(m, "video"@) == Ok::<Doc, Fault>(self.video.wire()));
        assert(field::<InputThumbnail>(m, "thumbnail"@) == Ok::<Doc, Fault>(self.thumbnail.wire()));
        assert(field::<Vec<i32>>(m, "addedStickerFileIds"@)
            == Ok::<Doc, Fault>(self.added_sticker_file_ids.wire()));
        assert(field::<i32>(m, "duration"@) == Ok::<Doc, Fault>(self.duration.wire()));
        assert(field::<i32>(m, "width"@) == Ok::<Doc, Fault>(self.width.wire()));
        assert(field::<i32>(m, "height"@) == Ok::<Doc, Fault>(self.height.wire()));
        assert(field::<bool>(m, "supportsStreaming"@)
            == Ok::<Doc, Fault>(self.supports_streaming.wire()));
        assert(field::<FormattedText>(m, "caption"@) == Ok::<Doc, Fault>(self.caption.wire()));
        assert(field::<i32>(m, "ttl"@) == Ok::<Doc, Fault>(self.ttl.wire()));
    }
}

impl Tagged for InputMessageVideo {
    open spec fn known(tag: Seq<char>) -> bool {
        tag == "inputMessageVideo"@
    }

    fn knows(tag: &str) -> (r: bool) {
        same_text(tag, "inputMessageVideo")
    }

    proof fn tag_known(&self) {
        reveal(<InputMessageVideo as Wire>::wire);
        assert(tag_of(self.wire()) == Some("inputMessageVideo"@));
        assert(Self::known("inputMessageVideo"@));
    }
}

/// A video note message
#[derive(Debug, Clone, PartialEq)]
pub struct InputMessageVideoNote {
    /// Video note to be sent
    pub video_note: InputFile,
    /// Video thumbnail, if available
    pub thumbnail: InputThumbnail,
    /// Duration of the video, in seconds
    pub duration: i32,
    /// Video width and height; must be positive and not greater than 640
    pub length: i32,
}

impl Wire for InputMessageVideoNote {
    #[verifier::opaque]
    open spec fn wire(&self) -> Doc {
        tagged(
            Map::empty()
                .insert("videoNote"@, self.video_note.wire())
                .insert("thumbnail"@, self.thumbnail.wire())
                .insert("duration"@, self.duration.wire())
                .insert("length"@, self.length.wire()),
            "inputMessageVideoNote"@,
        )
    }

    #[verifier::opaque]
    open spec fn parse(d: Doc, at: Seq<char>) -> Result<Doc, Fault> {
        match d {
            Doc::Object(m) => {
                let video_note = field::<InputFile>(m, "videoNote"@);
                let thumbnail = field::<InputThumbnail>(m, "thumbnail"@);
                let duration = field::<i32>(m, "duration"@);
                let length = field::<i32>(m, "length"@);
                if video_note is Err {
                    video_note
                } else if thumbnail is Err {
                    thumbnail
                } else if duration is Err {
                    duration
                } else if length is Err {
                    length
                } else {
                    Ok(
                        tagged(
                            Map::empty()
                                .insert("videoNote"@, video_note->Ok_0)
                                .insert("thumbnail"@, thumbnail->Ok_0)
                                .insert("duration"@, duration->Ok_0)
                                .insert("length"@, length->Ok_0),
                            "inputMessageVideoNote"@,
                        ),
                    )
                }
            },
            _ => Err(Fault::TypeMismatch(at)),
        }
    }

    fn encode(&self) -> (j: Json) {
        proof {
            reveal(<InputMessageVideoNote as Wire>::wire);
        }
        let mut members: Vec<Member> = Vec::new();
        put(&mut members, "videoNote", self.video_note.encode());
        put(&mut members, "thumbnail", self.thumbnail.encode());
        put(&mut members, "duration", self.duration.encode());
        put(&mut members, "length", self.length.encode());
        seal(members, "inputMessageVideoNote")
    }

    fn decode(j: &Json, at: &str) -> (r: Result<Self, DecodeError>) {
        proof {
            reveal(<InputMessageVideoNote as Wire>::wire);
            reveal(<InputMessageVideoNote as Wire>::parse);
        }
        let members = members_of(j, at)?;
        let video_note = read_field::<InputFile>(members, "videoNote")?;
        let thumbnail = read_field::<InputThumbnail>(members, "thumbnail")?;
        let duration = read_field::<i32>(members, "duration")?;
        let length = read_field::<i32>(members, "length")?;
        Ok(InputMessageVideoNote { video_note, thumbnail, duration, length })
    }

    proof fn round_trip(&self, at: Seq<char>) {
        reveal(<InputMessageVideoNote as Wire>::wire);
        reveal(<InputMessageVideoNote as Wire>::parse);
        reveal_strlit("@type");
        reveal_strlit("duration");
        reveal_strlit("length");
        reveal_strlit("thumbnail");
        reveal_strlit("videoNote");
        assert("@type"@.len() == 5);
        assert("duration"@.len() == 8);
        assert("length"@.len() == 6);
        assert("thumbnail"@.len() == 9 && "thumbnail"@[0] == 't');
        assert("videoNote"@.len() == 9 && "videoNote"@[0] == 'v');
        self.video_note.round_trip("videoNote"@);
        self.thumbnail.round_trip("thumbnail"@);
        self.duration.round_trip("duration"@);
        self.length.round_trip("length"@);
    }
}

impl Tagged for InputMessageVideoNote {
    open spec fn known(tag: Seq<char>) -> bool {
        tag == "inputMessageVideoNote"@
    }

    fn knows(tag: &str) -> (r: bool) {
        same_text(tag, "inputMessageVideoNote")
    }

    proof fn tag_known(&self) {
        reveal(<InputMessageVideoNote as Wire>::wire);
        assert(tag_of(self.wire()) == Some("inputMessageVideoNote"@));
        assert(Self::known("inputMessageVideoNote"@));
    }
}

/// A voice note message
#[derive(Debug, Clone, PartialEq)]
pub struct InputMessageVoiceNote {
    /// Voice note to be sent
    pub voice_note: InputFile,
    /// Duration of the voice note, in seconds
    pub duration: i32,
    /// Waveform representation of the voice note, in 5-bit format
    pub waveform: String,
    /// Voice note caption; 0-GetOption("message_caption_length_max") characters
    pub caption: FormattedText,
}

impl Wire for InputMessageVoiceNote {
    #[verifier::opaque]
    open spec fn wire(&self) -> Doc {
        tagged(
            Map::empty()
                .insert("voiceNote"@, self.voice_note.wire())
                .insert("duration"@, self.duration.wire())
                .insert("waveform"@, self.waveform.wire())
                .insert("caption"@, self.caption.wire()),
            "inputMessageVoiceNote"@,
        )
    }

    #[verifier::opaque]
    open spec fn parse(d: Doc, at: Seq<char>) -> Result<Doc, Fault> {
        match d {
            Doc::Object(m) => {
                let voice_note = field::<InputFile>(m, "voiceNote"@);
                let duration = field::<i32>(m, "duration"@);
                let waveform = field::<String>(m, "waveform"@);
                let caption = field::<FormattedText>(m, "caption"@);
                if voice_note is Err {
                    voice_note
                } else if duration is Err {
                    duration
                } else if waveform is Err {
                    waveform
                } else if caption is Err {
                    caption
                } else {
                    Ok(
                        tagged(
                            Map::empty()
                                .insert("voiceNote"@, voice_note->Ok_0)
                                .insert("duration"@, duration->Ok_0)
                                .insert("waveform"@, waveform->Ok_0)
                                .insert("caption"@, caption->Ok_0),
                            "inputMessageVoiceNote"@,
                        ),
                    )
                }
            },
            _ => Err(Fault::TypeMismatch(at)),
        }
    }

    fn encode(&self) -> (j: Json) {
        proof {
            reveal(<InputMessageVoiceNote as Wire>::wire);
        }
        let mut members: Vec<Member> = Vec::new();
        put(&mut members, "voiceNote", self.voice_note.encode());
        put(&mut members, "duration", self.duration.encode());
        put(&mut members, "waveform", self.waveform.encode());
        put(&mut members, "caption", self.caption.encode());
        seal(members, "inputMessageVoiceNote")
    }

    fn decode(j: &Json, at: &str) -> (r: Result<Self, DecodeError>) {
        proof {
            reveal(<InputMessageVoiceNote as Wire>::wire);
            reveal(<InputMessageVoiceNote as Wire>::parse);
        }
        let members = members_of(j, at)?;
        let voice_note = read_field::<InputFile>(members, "voiceNote")?;
        let duration = read_field::<i32>(members, "duration")?;
        let waveform = read_field::<String>(members, "waveform")?;
        let caption = read_field::<FormattedText>(members, "caption")?;
        Ok(InputMessageVoiceNote { voice_note, duration, waveform, caption })
    }

    proof fn round_trip(&self, at: Seq<char>) {
        reveal(<InputMessageVoiceNote as Wire>::wire);
        reveal(<InputMessageVoiceNote as Wire>::parse);
        reveal_strlit("@type");
        reveal_strlit("caption");
        reveal_strlit("duration");
        reveal_strlit("voiceNote");
        reveal_strlit("waveform");
        assert("@type"@.len() == 5);
        assert("caption"@.len() == 7);
        assert("duration"@.len() == 8 && "duration"@[0] == 'd');
        assert("voiceNote"@.len() == 9);
        assert("waveform"@.len() == 8 && "waveform"@[0] == 'w');
        self.voice_note.round_trip("voiceNote"@);
        self.duration.round_trip("duration"@);
        self.waveform.round_trip("waveform"@);
        self.caption.round_trip("caption"@);
    }
}

impl Tagged for InputMessageVoiceNote {
    open spec fn known(tag: Seq<char>) -> bool {
        tag == "inputMessageVoiceNote"@
    }

    fn knows(tag: &str) -> (r: bool) {
        same_text(tag, "inputMessageVoiceNote")
    }

    proof fn tag_known(&self) {
        reveal(<InputMessageVoiceNote as Wire>::wire);
        assert(tag_of(self.wire()) == Some("inputMessageVoiceNote"@));
        assert(Self::known("inputMessageVoiceNote"@));
    }
}

/// A message with a location
#[derive(Debug, Clone, PartialEq)]
pub struct InputMessageLocation {
    /// Location to be sent
    pub location: Location,
    /// Period for which the location can be updated, in seconds; should be between 60 and 86400 for
    /// a live location and 0 otherwise
    pub live_period: i32,
}

impl Wire for InputMessageLocation {
    #[verifier::opaque]
    open spec fn wire(&self) -> Doc {
        tagged(
            Map::empty()
                .insert("location"@, self.location.wire())
                .insert("livePeriod"@, self.live_period.wire()),
            "inputMessageLocation"@,
        )
    }

    #[verifier::opaque]
    open spec fn parse(d: Doc, at: Seq<char>) -> Result<Doc, Fault> {
        match d {
            Doc::Object(m) => {
                let location = field::<Location>(m, "location"@);
                let live_period = field::<i32>(m, "livePeriod"@);
                if location is Err {
                    location
                } else if live_period is Err {
                    live_period
                } else {
                    Ok(
                        tagged(
                            Map::empty()
                                .insert("location"@, location->Ok_0)
                                .insert("livePeriod"@, live_period->Ok_0),
                            "inputMessageLocation"@,
                        ),
                    )
                }
            },
            _ => Err(Fault::TypeMismatch(at)),
        }
    }

    fn encode(&self) -> (j: Json) {
        proof {
            reveal(<InputMessageLocation as Wire>::wire);
        }
        let mut members: Vec<Member> = Vec::new();
        put(&mut members, "location", self.location.encode());
        put(&mut members, "livePeriod", self.live_period.encode());
        seal(members, "inputMessageLocation")
    }

    fn decode(j: &Json, at: &str) -> (r: Result<Self, DecodeError>) {
        proof {
            reveal(<InputMessageLocation as Wire>::wire);
            reveal(<InputMessageLocation as Wire>::parse);
        }
        let members = members_of(j, at)?;
        let location = read_field::<Location>(members, "location")?;
        let live_period = read_field::<i32>(members, "livePeriod")?;
        Ok(InputMessageLocation { location, live_period })
    }

    proof fn round_trip(&self, at: Seq<char>) {
        reveal(<InputMessageLocation as Wire>::wire);
        reveal(<InputMessageLocation as Wire>::parse);
        reveal_strlit("@type");
        reveal_strlit("livePeriod");
        reveal_strlit("location");
        assert("@type"@.len() == 5);
        assert("livePeriod"@.len() == 10);
        assert("location"@.len() == 8);
        self.location.round_trip("location"@);
        self.live_period.round_trip("livePeriod"@);
    }
}

impl Tagged for InputMessageLocation {
    open spec fn known(tag: Seq<char>) -> bool {
        tag == "inputMessageLocation"@
    }

    fn knows(tag: &str) -> (r: bool) {
        same_text(tag, "inputMessageLocation")
    }

    proof fn tag_known(&self) {
        reveal(<InputMessageLocation as Wire>::wire);
        assert(tag_of(self.wire()) == Some("inputMessageLocation"@));
        assert(Self::known("inputMessageLocation"@));
    }
}

/// A message with information about a venue
#[derive(Debug, Clone, PartialEq)]
pub struct InputMessageVenue {
    /// Venue to send
    pub venue: Venue,
}

impl Wire for InputMessageVenue {
    #[verifier::opaque]
    open spec fn wire(&self) -> Doc {
        tagged(
            Map::empty()
                .insert("venue"@, self.venue.wire()),
            "inputMessageVenue"@,
        )
    }

    #[verifier::opaque]
    open spec fn parse(d: Doc, at: Seq<char>) -> Result<Doc, Fault> {
        match d {
            Doc::Object(m) => {
                let venue = field::<Venue>(m, "venue"@);
                if venue is Err {
                    venue
                } else {
                    Ok(
                        tagged(
                            Map::empty()
                                .insert("venue"@, venue->Ok_0),
                            "inputMessageVenue"@,
                        ),
                    )
                }
            },
            _ => Err(Fault::TypeMismatch(at)),
        }
    }

    fn encode(&self) -> (j: Json) {
        proof {
            reveal(<InputMessageVenue as Wire>::wire);
        }
        let mut members: Vec<Member> = Vec::new();
        put(&mut members, "venue", self.venue.encode());
        seal(members, "inputMessageVenue")
    }

    fn decode(j: &Json, at: &str) -> (r: Result<Self, DecodeError>) {
        proof {
            reveal(<InputMessageVenue as Wire>::wire);
            reveal(<InputMessageVenue as Wire>::parse);
        }
        let members = members_of(j, at)?;
        let venue = read_field::<Venue>(members, "venue")?;
        Ok(InputMessageVenue { venue })
    }

    proof fn round_trip(&self, at: Seq<char>) {
        reveal(<InputMessageVenue as Wire>::wire);
        reveal(<InputMessageVenue as Wire>::parse);
        reveal_strlit("@type");
        reveal_strlit("venue");
        assert("@type"@.len() == 5 && "@type"@[0] == '@');
        assert("venue"@.len() == 5 && "venue"@[0] == 'v');
        self.venue.round_trip("venue"@);
    }
}

impl Tagged for InputMessageVenue {
    open spec fn known(tag: Seq<char>) -> bool {
        tag == "inputMessageVenue"@
    }

    fn knows(tag: &str) -> (r: bool) {
        same_text(tag, "inputMessageVenue")
    }

    proof fn tag_known(&self) {
        reveal(<InputMessageVenue as Wire>::wire);
        assert(tag_of(self.wire()) == Some("inputMessageVenue"@));
        assert(Self::known("inputMessageVenue"@));
    }
}

/// A message containing a user contact
#[derive(Debug, Clone, PartialEq)]
pub struct InputMessageContact {
    /// Contact to send
    pub contact: Contact,
}

impl Wire for InputMessageContact {
    #[verifier::opaque]
    open spec fn wire(&self) -> Doc {
        tagged(
            Map::empty()
                .insert("contact"@, self.contact.wire()),
            "inputMessageContact"@,
        )
    }

    #[verifier::opaque]
    open spec fn parse(d: Doc, at: Seq<char>) -> Result<Doc, Fault> {
        match d {
            Doc::Object(m) => {
                let contact = field::<Contact>(m, "contact"@);
                if contact is Err {
                    contact
                } else {
                    Ok(
                        tagged(
                            Map::empty()
                                .insert("contact"@, contact->Ok_0),
                            "inputMessageContact"@,
                        ),
                    )
                }
            },
            _ => Err(Fault::TypeMismatch(at)),
        }
    }

    fn encode(&self) -> (j: Json) {
        proof {
            reveal(<InputMessageContact as Wire>::wire);
        }
        let mut members: Vec<Member> = Vec::new();
        put(&mut members, "contact", self.contact.encode());
        seal(members, "inputMessageContact")
    }

    fn decode(j: &Json, at: &str) -> (r: Result<Self, DecodeError>) {
        proof {
            reveal(<InputMessageContact as Wire>::wire);
            reveal(<InputMessageContact as Wire>::parse);
        }
        let members = members_of(j, at)?;
        let contact = read_field::<Contact>(members, "contact")?;
        Ok(InputMessageContact { contact })
    }

    proof fn round_trip(&self, at: Seq<char>) {
        reveal(<InputMessageContact as Wire>::wire);
        reveal(<InputMessageContact as Wire>::parse);
        reveal_strlit("@type");
        reveal_strlit("contact");
        assert("@type"@.len() == 5);
        assert("contact"@.len() == 7);
        self.contact.round_trip("contact"@);
    }
}

impl Tagged for InputMessageContact {
    open spec fn known(tag: Seq<char>) -> bool {
        tag == "inputMessageContact"@
    }

    fn knows(tag: &str) -> (r: bool) {
        same_text(tag, "inputMessageContact")
    }

    proof fn tag_known(&self) {
        reveal(<InputMessageContact as Wire>::wire);
        assert(tag_of(self.wire()) == Some("inputMessageContact"@));
        assert(Self::known("inputMessageContact"@));
    }
}

/// A message with a game; not supported for channels or secret chats
#[derive(Debug, Clone, PartialEq)]
pub struct InputMessageGame {
    /// User identifier of the bot that owns the game
    pub bot_user_id: i32,
    /// Short name of the game
    pub game_short_name: String,
}

impl Wire for InputMessageGame {
    #[verifier::opaque]
    open spec fn wire(&self) -> Doc {
        tagged(
            Map::empty()
                .insert("botUserId"@, self.bot_user_id.wire())
                .insert("gameShortName"@, self.game_short_name.wire()),
            "inputMessageGame"@,
        )
    }

    #[verifier::opaque]
    open spec fn parse(d: Doc, at: Seq<char>) -> Result<Doc, Fault> {
        match d {
            Doc::Object(m) => {
                let bot_user_id = field::<i32>(m, "botUserId"@);
                let game_short_name = field::<String>(m, "gameShortName"@);
                if bot_user_id is Err {
                    bot_user_id
                } else if game_short_name is Err {
                    game_short_name
                } else {
                    Ok(
                        tagged(
                            Map::empty()
                                .insert("botUserId"@, bot_user_id->Ok_0)
                                .insert("gameShortName"@, game_short_name->Ok_0),
                            "inputMessageGame"@,
                        ),
                    )
                }
            },
            _ => Err(Fault::TypeMismatch(at)),
        }
    }

    fn encode(&self) -> (j: Json) {
        proof {
            reveal(<InputMessageGame as Wire>::wire);
        }
        let mut members: Vec<Member> = Vec::new();
        put(&mut members, "botUserId", self.bot_user_id.encode());
        put(&mut members, "gameShortName", self.game_short_name.encode());
        seal(members, "inputMessageGame")
    }

    fn decode(j: &Json, at: &str) -> (r: Result<Self, DecodeError>) {
        proof {
            reveal(<InputMessageGame as Wire>::wire);
            reveal(<InputMessageGame as Wire>::parse);
        }
        let members = members_of(j, at)?;
        let bot_user_id = read_field::<i32>(members, "botUserId")?;
        let game_short_name = read_field::<String>(members, "gameShortName")?;
        Ok(InputMessageGame { bot_user_id, game_short_name })
    }

    proof fn round_trip(&self, at: Seq<char>) {
        reveal(<InputMessageGame as Wire>::wire);
        reveal(<InputMessageGame as Wire>::parse);
        reveal_strlit("@type");
        reveal_strlit("botUserId");
        reveal_strlit("gameShortName");
        assert("@type"@.len() == 5);
        assert("botUserId"@.len() == 9);
        assert("gameShortName"@.len() == 13);
        self.bot_user_id.round_trip("botUserId"@);
        self.game_short_name.round_trip("gameShortName"@);
    }
}

impl Tagged for InputMessageGame {
    open spec fn known(tag: Seq<char>) -> bool {
        tag == "inputMessageGame"@
    }

    fn knows(tag: &str) -> (r: bool) {
        same_text(tag, "inputMessageGame")
    }

    proof fn tag_known(&self) {
        reveal(<InputMessageGame as Wire>::wire);
        assert(tag_of(self.wire()) == Some("inputMessageGame"@));
        assert(Self::known("inputMessageGame"@));
    }
}

/// A message with an invoice; can be used only by bots and only in private chats
#[derive(Debug, Clone, PartialEq)]
pub struct InputMessageInvoice {
    /// Invoice
    pub invoice: Invoice,
    /// Product title; 1-32 characters
    pub title: String,
    /// A message with an invoice; can be used only by bots and only in private chats
    pub description: String,
    /// Product photo URL; optional
    pub photo_url: String,
    /// Product photo size
    pub photo_size: i32,
    /// Product photo width
    pub photo_width: i32,
    /// Product photo height
    pub photo_height: i32,
    /// The invoice payload
    pub payload: String,
    /// Payment provider token
    pub provider_token: String,
    /// JSON-encoded data about the invoice, which will be shared with the payment provider
    pub provider_data: String,
    /// Unique invoice bot start_parameter for the generation of this invoice
    pub start_parameter: String,
}

impl Wire for InputMessageInvoice {
    #[verifier::opaque]
    open spec fn wire(&self) -> Doc {
        tagged(
            Map::empty()
                .insert("invoice"@, self.invoice.wire())
                .insert("title"@, self.title.wire())
                .insert("description"@, self.description.wire())
                .insert("photoUrl"@, self.photo_url.wire())
                .insert("photoSize"@, self.photo_size.wire())
                .insert("photoWidth"@, self.photo_width.wire())
                .insert("photoHeight"@, self.photo_height.wire())
                .insert("payload"@, self.payload.wire())
                .insert("providerToken"@, self.provider_token.wire())
                .insert("providerData"@, self.provider_data.wire())
                .insert("startParameter"@, self.start_parameter.wire()),
            "inputMessageInvoice"@,
        )
    }

    #[verifier::opaque]
    open spec fn parse(d: Doc, at: Seq<char>) -> Result<Doc, Fault> {
        match d {
            Doc::Object(m) => {
                let invoice = field::<Invoice>(m, "invoice"@);
                let title = field::<String>(m, "title"@);
                let description = field::<String>(m, "description"@);
                let photo_url = field::<String>(m, "photoUrl"@);
                let photo_size = field::<i32>(m, "photoSize"@);
                let photo_width = field::<i32>(m, "photoWidth"@);
                let photo_height = field::<i32>(m, "photoHeight"@);
                let payload = field::<String>(m, "payload"@);
                let provider_token = field::<String>(m, "providerToken"@);
                let provider_data = field::<String>(m, "providerData"@);
                let start_parameter = field::<String>(m, "startParameter"@);
                if invoice is Err {
                    invoice
                } else if title is Err {
                    title
                } else if description is Err {
                    description
                } else if photo_url is Err {
                    photo_url
                } else if photo_size is Err {
                    photo_size
                } else if photo_width is Err {
                    photo_width
                } else if photo_height is Err {
                    photo_height
                } else if payload is Err {
                    payload
                } else if provider_token is Err {
                    provider_token
                } else if provider_data is Err {
                    provider_data
                } else if start_parameter is Err {
                    start_parameter
                } else {
                    Ok(
                        tagged(
                            Map::empty()
                                .insert("invoice"@, invoice->Ok_0)
                                .insert("title"@, title->Ok_0)
                                .insert("description"@, description->Ok_0)
                                .insert("photoUrl"@, photo_url->Ok_0)
                                .insert("photoSize"@, photo_size->Ok_0)
                                .insert("photoWidth"@, photo_width->Ok_0)
                                .insert("photoHeight"@, photo_height->Ok_0)
                                .insert("payload"@, payload->Ok_0)
                                .insert("providerToken"@, provider_token->Ok_0)
                                .insert("providerData"@, provider_data->Ok_0)
                                .insert("startParameter"@, start_parameter->Ok_0),
                            "inputMessageInvoice"@,
                        ),
                    )
                }
            },
            _ => Err(Fault::TypeMismatch(at)),
        }
    }

    fn encode(&self) -> (j: Json) {
        proof {
            reveal(<InputMessageInvoice as Wire>::wire);
        }
        let mut members: Vec<Member> = Vec::new();
        put(&mut members, "invoice", self.invoice.encode());
        put(&mut members, "title", self.title.encode());
        put(&mut members, "description", self.description.encode());
        put(&mut members, "photoUrl", self.photo_url.encode());
        put(&mut members, "photoSize", self.photo_size.encode());
        put(&mut members, "photoWidth", self.photo_width.encode());
        put(&mut members, "photoHeight", self.photo_height.encode());
        put(&mut members, "payload", self.payload.encode());
        put(&mut members, "providerToken", self.provider_token.encode());
        put(&mut members, "providerData", self.provider_data.encode());
        put(&mut members, "startParameter", self.start_parameter.encode());
        seal(members, "inputMessageInvoice")
    }

    fn decode(j: &Json, at: &str) -> (r: Result<Self, DecodeError>) {
        proof {
            reveal(<InputMessageInvoice as Wire>::wire);
            reveal(<InputMessageInvoice as Wire>::parse);
        }
        let members = members_of(j, at)?;
        let invoice = read_field::<Invoice>(members, "invoice")?;
        let title = read_field::<String>(members, "title")?;
        let description = read_field::<String>(members, "description")?;
        let photo_url = read_field::<String>(members, "photoUrl")?;
        let photo_size = read_field::<i32>(members, "photoSize")?;
        let photo_width = read_field::<i32>(members, "photoWidth")?;
        let photo_height = read_field::<i32>(members, "photoHeight")?;
        let payload = read_field::<String>(members, "payload")?;
        let provider_token = read_field::<String>(members, "providerToken")?;
        let provider_data = read_field::<String>(members, "providerData")?;
        let start_parameter = read_field::<String>(members, "startParameter")?;
        Ok(InputMessageInvoice {
            invoice,
            title,
            description,
            photo_url,
            photo_size,
            photo_width,
            photo_height,
            payload,
            provider_token,
            provider_data,
            start_parameter,
        })
    }

    proof fn round_trip(&self, at: Seq<char>) {
        reveal(<InputMessageInvoice as Wire>::wire);
        reveal(<InputMessageInvoice as Wire>::parse);
        reveal_strlit("@type");
        reveal_strlit("description");
        reveal_strlit("invoice");
        reveal_strlit("payload");
        reveal_strlit("photoHeight");
        reveal_strlit("photoSize");
        reveal_strlit("photoUrl");
        reveal_strlit("photoWidth");
        reveal_strlit("providerData");
        reveal_strlit("providerToken");
        reveal_strlit("startParameter");
        reveal_strlit("title");
        assert("@type"@.len() == 5 && "@type"@[0] == '@');
        assert("description"@.len() == 11 && "description"@[0] == 'd');
        assert("invoice"@.len() == 7 && "invoice"@[0] == 'i');
        assert("payload"@.len() == 7 && "payload"@[0] == 'p');
        assert("photoHeight"@.len() == 11 && "photoHeight"@[0] == 'p');
        assert("photoSize"@.len() == 9);
        assert("photoUrl"@.len() == 8);
        assert("photoWidth"@.len() == 10);
        assert("providerData"@.len() == 12);
        assert("providerToken"@.len() == 13);
        assert("startParameter"@.len() == 14);
        assert("title"@.len() == 5 && "title"@[0] == 't');
        self.invoice.round_trip("invoice"@);
        self.title.round_trip("title"@);
        self.description.round_trip("description"@);
        self.photo_url.round_trip("photoUrl"@);
        self.photo_size.round_trip("photoSize"@);
        self.photo_width.round_trip("photoWidth"@);
        self.photo_height.round_trip("photoHeight"@);
        self.payload.round_trip("payload"@);
        self.provider_token.round_trip("providerToken"@);
        self.provider_data.round_trip("providerData"@);
        self.start_parameter.round_trip("startParameter"@);
        let m = self.wire()->Object_0;
        assert(field::<Invoice>(m, "invoice"@) == Ok::<Doc, Fault>(self.invoice.wire()));
        assert(field::<String>(m, "title"@) == Ok::<Doc, Fault>(self.title.wire()));
        assert(field::<String>(m, "description"@) == Ok::<Doc, Fault>(self.description.wire()));
        assert(field::<String>(m, "photoUrl"@) == Ok::<Doc, Fault>(self.photo_url.wire()));
        assert(field::<i32>(m, "photoSize"@) == Ok::<Doc, Fault>(self.photo_size.wire()));
        assert(field::<i32>(m, "photoWidth"@) == Ok::<Doc, Fault>(self.photo_width.wire()));
        assert(field::<i32>(m, "photoHeight"@) == Ok::<Doc, Fault>(self.photo_height.wire()));
        assert(field::<String>(m, "payload"@) == Ok::<Doc, Fault>(self.payload.wire()));
        assert(field::<String>(m, "providerToken"@)
            == Ok::<Doc, Fault>(self.provider_token.wire()));
        assert(field::<String>(m, "providerData"@) == Ok::<Doc, Fault>(self.provider_data.wire()));
        assert(field::<String>(m, "startParameter"@)
            == Ok::<Doc, Fault>(self.start_parameter.wire()));
    }
}

impl Tagged for InputMessageInvoice {
    open spec fn known(tag: Seq<char>) -> bool {
        tag == "inputMessageInvoice"@
    }

    fn knows(tag: &str) -> (r: bool) {
        same_text(tag, "inputMessageInvoice")
    }

    proof fn tag_known(&self) {
        reveal(<InputMessageInvoice as Wire>::wire);
        assert(tag_of(self.wire()) == Some("inputMessageInvoice"@));
        assert(Self::known("inputMessageInvoice"@));
    }
}

/// A message with a poll. Polls can't be sent to secret chats. Polls can be sent only to a private
/// chat with a bot
#[derive(Debug, Clone, PartialEq)]
pub struct InputMessagePoll {
    /// Poll question, 1-255 characters
    pub question: String,
    /// List of poll answer options, 2-10 strings 1-100 characters each
    pub options: Vec<String>,
    /// True, if the poll voters are anonymous. Non-anonymous polls can't be sent or forwarded to
    /// channels
    pub is_anonymous: bool,
    /// Type of the poll
    pub type_: PollType,
    /// True, if the poll needs to be sent already closed; for bots only
    pub is_closed: Option<bool>,
}

impl Wire for InputMessagePoll {
    #[verifier::opaque]
    open spec fn wire(&self) -> Doc {
        tagged(
            Map::empty()
                .insert("question"@, self.question.wire())
                .insert("options"@, self.options.wire())
                .insert("isAnonymous"@, self.is_anonymous.wire())
                .insert("type"@, self.type_.wire())
                .insert("isClosed"@, self.is_closed.wire()),
            "inputMessagePoll"@,
        )
    }

    #[verifier::opaque]
    open spec fn parse(d: Doc, at: Seq<char>) -> Result<Doc, Fault> {
        match d {
            Doc::Object(m) => {
                let question = field::<String>(m, "question"@);
                let options = field::<Vec<String>>(m, "options"@);
                let is_anonymous = field::<bool>(m, "isAnonymous"@);
                let type_ = field::<PollType>(m, "type"@);
                let is_closed = optional_field::<bool>(m, "isClosed"@);
                if question is Err {
                    question
                } else if options is Err {
                    options
                } else if is_anonymous is Err {
                    is_anonymous
                } else if type_ is Err {
                    type_
                } else if is_closed is Err {
                    is_closed
                } else {
                    Ok(
                        tagged(
                            Map::empty()
                                .insert("question"@, question->Ok_0)
                                .insert("options"@, options->Ok_0)
                                .insert("isAnonymous"@, is_anonymous->Ok_0)
                                .insert("type"@, type_->Ok_0)
                                .insert("isClosed"@, is_closed->Ok_0),
                            "inputMessagePoll"@,
                        ),
                    )
                }
            },
            _ => Err(Fault::TypeMismatch(at)),
        }
    }

    fn encode(&self) -> (j: Json) {
        proof {
            reveal(<InputMessagePoll as Wire>::wire);
        }
        let mut members: Vec<Member> = Vec::new();
        put(&mut members, "question", self.question.encode());
        put(&mut members, "options", self.options.encode());
        put(&mut members, "isAnonymous", self.is_anonymous.encode());
        put(&mut members, "type", self.type_.encode());
        put(&mut members, "isClosed", self.is_closed.encode());
        seal(members, "inputMessagePoll")
    }

    fn decode(j: &Json, at: &str) -> (r: Result<Self, DecodeError>) {
        proof {
            reveal(<InputMessagePoll as Wire>::wire);
            reveal(<InputMessagePoll as Wire>::parse);
        }
        let members = members_of(j, at)?;
        let question = read_field::<String>(members, "question")?;
        let options = read_field::<Vec<String>>(members, "options")?;
        let is_anonymous = read_field::<bool>(members, "isAnonymous")?;
        let type_ = read_field::<PollType>(members, "type")?;
        let is_closed = read_optional::<bool>(members, "isClosed")?;
        Ok(InputMessagePoll { question, options, is_anonymous, type_, is_closed })
    }

    proof fn round_trip(&self, at: Seq<char>) {
        reveal(<InputMessagePoll as Wire>::wire);
        reveal(<InputMessagePoll as Wire>::parse);
        reveal_strlit("@type");
        reveal_strlit("isAnonymous");
        reveal_strlit("isClosed");
        reveal_strlit("options");
        reveal_strlit("question");
        reveal_strlit("type");
        assert("@type"@.len() == 5);
        assert("isAnonymous"@.len() == 11);
        assert("isClosed"@.len() == 8 && "isClosed"@[0] == 'i');
        assert("options"@.len() == 7);
        assert("question"@.len() == 8 && "question"@[0] == 'q');
        assert("type"@.len() == 4);
        self.question.round_trip("question"@);
        self.options.round_trip("options"@);
        self.is_anonymous.round_trip("isAnonymous"@);
        self.type_.round_trip("type"@);
        self.is_closed.round_trip("isClosed"@);
    }
}

impl Tagged for InputMessagePoll {
    open spec fn known(tag: Seq<char>) -> bool {
        tag == "inputMessagePoll"@
    }

    fn knows(tag: &str) -> (r: bool) {
        same_text(tag, "inputMessagePoll")
    }

    proof fn tag_known(&self) {
        reveal(<InputMessagePoll as Wire>::wire);
        assert(tag_of(self.wire()) == Some("inputMessagePoll"@));
        assert(Self::known("inputMessagePoll"@));
    }
}

/// A forwarded message
#[derive(Debug, Clone, PartialEq)]
pub struct InputMessageForwarded {
    /// Identifier for the chat this forwarded message came from
    pub from_chat_id: i64,
    /// Identifier of the message to forward
    pub message_id: i64,
    /// True, if a game message should be shared within a launched game; applies only to game
    /// messages
    pub in_game_share: bool,
    /// True, if content of the message needs to be copied without a link to the original message.
    /// Always true if the message is forwarded to a secret chat
    pub send_copy: bool,
    /// True, if media caption of the message copy needs to be removed. Ignored if send_copy is
    /// false
    pub remove_caption: bool,
}

impl Wire for InputMessageForwarded {
    #[verifier::opaque]
    open spec fn wire(&self) -> Doc {
        tagged(
            Map::empty()
                .insert("fromChatId"@, self.from_chat_id.wire())
                .insert("messageId"@, self.message_id.wire())
                .insert("inGameShare"@, self.in_game_share.wire())
                .insert("sendCopy"@, self.send_copy.wire())
                .insert("removeCaption"@, self.remove_caption.wire()),
            "inputMessageForwarded"@,
        )
    }

    #[verifier::opaque]
    open spec fn parse(d: Doc, at: Seq<char>) -> Result<Doc, Fault> {
        match d {
            Doc::Object(m) => {
                let from_chat_id = field::<i64>(m, "fromChatId"@);
                let message_id = field::<i64>(m, "messageId"@);
                let in_game_share = field::<bool>(m, "inGameShare"@);
                let send_copy = field::<bool>(m, "sendCopy"@);
                let remove_caption = field::<bool>(m, "removeCaption"@);
                if from_chat_id is Err {
                    from_chat_id
                } else if message_id is Err {
                    message_id
                } else if in_game_share is Err {
                    in_game_share
                } else if send_copy is Err {
                    send_copy
                } else if remove_caption is Err {
                    remove_caption
                } else {
                    Ok(
                        tagged(
                            Map::empty()
                                .insert("fromChatId"@, from_chat_id->Ok_0)
                                .insert("messageId"@, message_id->Ok_0)
                                .insert("inGameShare"@, in_game_share->Ok_0)
                                .insert("sendCopy"@, send_copy->Ok_0)
                                .insert("removeCaption"@, remove_caption->Ok_0),
                            "inputMessageForwarded"@,
                        ),
                    )
                }
            },
            _ => Err(Fault::TypeMismatch(at)),
        }
    }

    fn encode(&self) -> (j: Json) {
        proof {
            reveal(<InputMessageForwarded as Wire>::wire);
        }
        let mut members: Vec<Member> = Vec::new();
        put(&mut members, "fromChatId", self.from_chat_id.encode());
        put(&mut members, "messageId", self.message_id.encode());
        put(&mut members, "inGameShare", self.in_game_share.encode());
        put(&mut members, "sendCopy", self.send_copy.encode());
        put(&mut members, "removeCaption", self.remove_caption.encode());
        seal(members, "inputMessageForwarded")
    }

    fn decode(j: &Json, at: &str) -> (r: Result<Self, DecodeError>) {
        proof {
            reveal(<InputMessageForwarded as Wire>::wire);
            reveal(<InputMessageForwarded as Wire>::parse);
        }
        let members = members_of(j, at)?;
        let from_chat_id = read_field::<i64>(members, "fromChatId")?;
        let message_id = read_field::<i64>(members, "messageId")?;
        let in_game_share = read_field::<bool>(members, "inGameShare")?;
        let send_copy = read_field::<bool>(members, "sendCopy")?;
        let remove_caption = read_field::<bool>(members, "removeCaption")?;
        Ok(InputMessageForwarded {
            from_chat_id,
            message_id,
            in_game_share,
            send_copy,
            remove_caption,
        })
    }

    proof fn round_trip(&self, at: Seq<char>) {
        reveal(<InputMessageForwarded as Wire>::wire);
        reveal(<InputMessageForwarded as Wire>::parse);
        reveal_strlit("@type");
        reveal_strlit("fromChatId");
        reveal_strlit("inGameShare");
        reveal_strlit("messageId");
        reveal_strlit("removeCaption");
        reveal_strlit("sendCopy");
        assert("@type"@.len() == 5);
        assert("fromChatId"@.len() == 10);
        assert("inGameShare"@.len() == 11);
        assert("messageId"@.len() == 9);
        assert("removeCaption"@.len() == 13);
        assert("sendCopy"@.len() == 8);
        self.from_chat_id.round_trip("fromChatId"@);
        self.message_id.round_trip("messageId"@);
        self.in_game_share.round_trip("inGameShare"@);
        self.send_copy.round_trip("sendCopy"@);
        self.remove_caption.round_trip("removeCaption"@);
    }
}

impl Tagged for InputMessageForwarded {
    open spec fn known(tag: Seq<char>) -> bool {
        tag == "inputMessageForwarded"@
    }

    fn knows(tag: &str) -> (r: bool) {
        same_text(tag, "inputMessageForwarded")
    }

    proof fn tag_known(&self) {
        reveal(<InputMessageForwarded as Wire>::wire);
        assert(tag_of(self.wire()) == Some("inputMessageForwarded"@));
        assert(Self::known("inputMessageForwarded"@));
    }
}

/// The content of a message to send
#[derive(Debug, Clone, PartialEq)]
pub enum InputMessageContent {
    InputMessageText(InputMessageText),
    InputMessageAnimation(InputMessageAnimation),
    InputMessageAudio(InputMessageAudio),
    InputMessageDocument(InputMessageDocument),
    InputMessagePhoto(InputMessagePhoto),
    InputMessageSticker(InputMessageSticker),
    InputMessageVideo(InputMessageVideo),
    InputMessageVideoNote(InputMessageVideoNote),
    InputMessageVoiceNote(InputMessageVoiceNote),
    InputMessageLocation(InputMessageLocation),
    InputMessageVenue(InputMessageVenue),
    InputMessageContact(InputMessageContact),
    InputMessageGame(InputMessageGame),
    InputMessageInvoice(InputMessageInvoice),
    InputMessagePoll(InputMessagePoll),
    InputMessageForwarded(InputMessageForwarded),
}

impl Wire for InputMessageContent {
    #[verifier::opaque]
    open spec fn wire(&self) -> Doc {
        match self {
            Self::InputMessageText(p) => p.wire(),
            Self::InputMessageAnimation(p) => p.wire(),
            Self::InputMessageAudio(p) => p.wire(),
            Self::InputMessageDocument(p) => p.wire(),
            Self::InputMessagePhoto(p) => p.wire(),
            Self::InputMessageSticker(p) => p.wire(),
            Self::InputMessageVideo(p) => p.wire(),
            Self::InputMessageVideoNote(p) => p.wire(),
            Self::InputMessageVoiceNote(p) => p.wire(),
            Self::InputMessageLocation(p) => p.wire(),
            Self::InputMessageVenue(p) => p.wire(),
            Self::InputMessageContact(p) => p.wire(),
            Self::InputMessageGame(p) => p.wire(),
            Self::InputMessageInvoice(p) => p.wire(),
            Self::InputMessagePoll(p) => p.wire(),
            Self::InputMessageForwarded(p) => p.wire(),
        }
    }

    #[verifier::opaque]
    open spec fn parse(d: Doc, at: Seq<char>) -> Result<Doc, Fault> {
        match d {
            Doc::Object(_) => match tag_of(d) {
                Some(t) => if t == "inputMessageText"@ {
                    InputMessageText::parse(d, at)
                } else if t == "inputMessageAnimation"@ {
                    InputMessageAnimation::parse(d, at)
                } else if t == "inputMessageAudio"@ {
                    InputMessageAudio::parse(d, at)
                } else if t == "inputMessageDocument"@ {
                    InputMessageDocument::parse(d, at)
                } else if t == "inputMessagePhoto"@ {
                    InputMessagePhoto::parse(d, at)
                } else if t == "inputMessageSticker"@ {
                    InputMessageSticker::parse(d, at)
                } else if t == "inputMessageVideo"@ {
                    InputMessageVideo::parse(d, at)
                } else if t == "inputMessageVideoNote"@ {
                    InputMessageVideoNote::parse(d, at)
                } else if t == "inputMessageVoiceNote"@ {
                    InputMessageVoiceNote::parse(d, at)
                } else if t == "inputMessageLocation"@ {
                    InputMessageLocation::parse(d, at)
                } else if t == "inputMessageVenue"@ {
                    InputMessageVenue::parse(d, at)
                } else if t == "inputMessageContact"@ {
                    InputMessageContact::parse(d, at)
                } else if t == "inputMessageGame"@ {
                    InputMessageGame::parse(d, at)
                } else if t == "inputMessageInvoice"@ {
                    InputMessageInvoice::parse(d, at)
                } else if t == "inputMessagePoll"@ {
                    InputMessagePoll::parse(d, at)
                } else if t == "inputMessageForwarded"@ {
                    InputMessageForwarded::parse(d, at)
                } else {
                    Err(Fault::UnknownVariant(t))
                },
                None => Err(Fault::MissingDiscriminator),
            },
            _ => Err(Fault::TypeMismatch(at)),
        }
    }

    fn encode(&self) -> (j: Json) {
        proof {
            reveal(<InputMessageContent as Wire>::wire);
        }
        match self {
            Self::InputMessageText(p) => p.encode(),
            Self::InputMessageAnimation(p) => p.encode(),
            Self::InputMessageAudio(p) => p.encode(),
            Self::InputMessageDocument(p) => p.encode(),
            Self::InputMessagePhoto(p) => p.encode(),
            Self::InputMessageSticker(p) => p.encode(),
            Self::InputMessageVideo(p) => p.encode(),
            Self::InputMessageVideoNote(p) => p.encode(),
            Self::InputMessageVoiceNote(p) => p.encode(),
            Self::InputMessageLocation(p) => p.encode(),
            Self::InputMessageVenue(p) => p.encode(),
            Self::InputMessageContact(p) => p.encode(),
            Self::InputMessageGame(p) => p.encode(),
            Self::InputMessageInvoice(p) => p.encode(),
            Self::InputMessagePoll(p) => p.encode(),
            Self::InputMessageForwarded(p) => p.encode(),
        }
    }

    fn decode(j: &Json, at: &str) -> (r: Result<Self, DecodeError>) {
        proof {
            reveal(<InputMessageContent as Wire>::wire);
            reveal(<InputMessageContent as Wire>::parse);
        }
        let members = members_of(j, at)?;
        let tag = discriminator(members)?;
        if same_text(tag, "inputMessageText") {
            Ok(Self::InputMessageText(InputMessageText::decode(j, at)?))
        } else if same_text(tag, "inputMessageAnimation") {
            Ok(Self::InputMessageAnimation(InputMessageAnimation::decode(j, at)?))
        } else if same_text(tag, "inputMessageAudio") {
            Ok(Self::InputMessageAudio(InputMessageAudio::decode(j, at)?))
        } else if same_text(tag, "inputMessageDocument") {
            Ok(Self::InputMessageDocument(InputMessageDocument::decode(j, at)?))
        } else if same_text(tag, "inputMessagePhoto") {
            Ok(Self::InputMessagePhoto(InputMessagePhoto::decode(j, at)?))
        } else if same_text(tag, "inputMessageSticker") {
            Ok(Self::InputMessageSticker(InputMessageSticker::decode(j, at)?))
        } else if same_text(tag, "inputMessageVideo") {
            Ok(Self::InputMessageVideo(InputMessageVideo::decode(j, at)?))
        } else if same_text(tag, "inputMessageVideoNote") {
            Ok(Self::InputMessageVideoNote(InputMessageVideoNote::decode(j, at)?))
        } else if same_text(tag, "inputMessageVoiceNote") {
            Ok(Self::InputMessageVoiceNote(InputMessageVoiceNote::decode(j, at)?))
        } else if same_text(tag, "inputMessageLocation") {
            Ok(Self::InputMessageLocation(InputMessageLocation::decode(j, at)?))
        } else if same_text(tag, "inputMessageVenue") {
            Ok(Self::InputMessageVenue(InputMessageVenue::decode(j, at)?))
        } else if same_text(tag, "inputMessageContact") {
            Ok(Self::InputMessageContact(InputMessageContact::decode(j, at)?))
        } else if same_text(tag, "inputMessageGame") {
            Ok(Self::InputMessageGame(InputMessageGame::decode(j, at)?))
        } else if same_text(tag, "inputMessageInvoice") {
            Ok(Self::InputMessageInvoice(InputMessageInvoice::decode(j, at)?))
        } else if same_text(tag, "inputMessagePoll") {
            Ok(Self::InputMessagePoll(InputMessagePoll::decode(j, at)?))
        } else if same_text(tag, "inputMessageForwarded") {
            Ok(Self::InputMessageForwarded(InputMessageForwarded::decode(j, at)?))
        } else {
            Err(DecodeError::UnknownVariant(tag.to_owned()))
        }
    }

    proof fn round_trip(&self, at: Seq<char>) {
        reveal(<InputMessageContent as Wire>::wire);
        reveal(<InputMessageContent as Wire>::parse);
        reveal_strlit("inputMessageAnimation");
        reveal_strlit("inputMessageAudio");
        reveal_strlit("inputMessageContact");
        reveal_strlit("inputMessageDocument");
        reveal_strlit("inputMessageForwarded");
        reveal_strlit("inputMessageGame");
        reveal_strlit("inputMessageInvoice");
        reveal_strlit("inputMessageLocation");
        reveal_strlit("inputMessagePhoto");
        reveal_strlit("inputMessagePoll");
        reveal_strlit("inputMessageSticker");
        reveal_strlit("inputMessageText");
        reveal_strlit("inputMessageVenue");
        reveal_strlit("inputMessageVideo");
        reveal_strlit("inputMessageVideoNote");
        reveal_strlit("inputMessageVoiceNote");
        assert("inputMessageAnimation"@.len() == 21 && "inputMessageAnimation"@[15] == 'm');
        assert("inputMessageAudio"@.len() == 17 && "inputMessageAudio"@[13] == 'u');
        assert("inputMessageContact"@.len() == 19 && "inputMessageContact"@[12] == 'C');
        assert("inputMessageDocument"@.len() == 20 && "inputMessageDocument"@[12] == 'D');
        assert("inputMessageForwarded"@.len() == 21 && "inputMessageForwarded"@[15] == 'w');
        assert("inputMessageGame"@.len() == 16 && "inputMessageGame"@[12] == 'G');
        assert("inputMessageInvoice"@.len() == 19 && "inputMessageInvoice"@[12] == 'I');
        assert("inputMessageLocation"@.len() == 20 && "inputMessageLocation"@[12] == 'L');
        assert("inputMessagePhoto"@.len() == 17 && "inputMessagePhoto"@[13] == 'h');
        assert("inputMessagePoll"@.len() == 16 && "inputMessagePoll"@[12] == 'P');
        assert("inputMessageSticker"@.len() == 19 && "inputMessageSticker"@[12] == 'S');
        assert("inputMessageText"@.len() == 16 && "inputMessageText"@[12] == 'T');
        assert("inputMessageVenue"@.len() == 17 && "inputMessageVenue"@[13] == 'e');
        assert("inputMessageVideo"@.len() == 17 && "inputMessageVideo"@[13] == 'i');
        assert("inputMessageVideoNote"@.len() == 21 && "inputMessageVideoNote"@[15] == 'e');
        assert("inputMessageVoiceNote"@.len() == 21 && "inputMessageVoiceNote"@[15] == 'c');
        match self {
            Self::InputMessageText(p) => {
                p.tag_known();
                p.round_trip(at);
            },
            Self::InputMessageAnimation(p) => {
                p.tag_known();
                p.round_trip(at);
            },
            Self::InputMessageAudio(p) => {
                p.tag_known();
                p.round_trip(at);
            },
            Self::InputMessageDocument(p) => {
                p.tag_known();
                p.round_trip(at);
            },
            Self::InputMessagePhoto(p) => {
                p.tag_known();
                p.round_trip(at);
            },
            Self::InputMessageSticker(p) => {
                p.tag_known();
                p.round_trip(at);
            },
            Self::InputMessageVideo(p) => {
                p.tag_known();
                p.round_trip(at);
            },
            Self::InputMessageVideoNote(p) => {
                p.tag_known();
                p.round_trip(at);
            },
            Self::InputMessageVoiceNote(p) => {
                p.tag_known();
                p.round_trip(at);
            },
            Self::InputMessageLocation(p) => {
                p.tag_known();
                p.round_trip(at);
            },
            Self::InputMessageVenue(p) => {
                p.tag_known();
                p.round_trip(at);
            },
            Self::InputMessageContact(p) => {
                p.tag_known();
                p.round_trip(at);
            },
            Self::InputMessageGame(p) => {
                p.tag_known();
                p.round_trip(at);
            },
            Self::InputMessageInvoice(p) => {
                p.tag_known();
                p.round_trip(at);
            },
            Self::InputMessagePoll(p) => {
                p.tag_known();
                p.round_trip(at);
            },
            Self::InputMessageForwarded(p) => {
                p.tag_known();
                p.round_trip(at);
            },
        }
    }
}

impl Tagged for InputMessageContent {
    open spec fn known(tag: Seq<char>) -> bool {
        ||| tag == "inputMessageText"@
        ||| tag == "inputMessageAnimation"@
        ||| tag == "inputMessageAudio"@
        ||| tag == "inputMessageDocument"@
        ||| tag == "inputMessagePhoto"@
        ||| tag == "inputMessageSticker"@
        ||| tag == "inputMessageVideo"@
        ||| tag == "inputMessageVideoNote"@
        ||| tag == "inputMessageVoiceNote"@
        ||| tag == "inputMessageLocation"@
        ||| tag == "inputMessageVenue"@
        ||| tag == "inputMessageContact"@
        ||| tag == "inputMessageGame"@
        ||| tag == "inputMessageInvoice"@
        ||| tag == "inputMessagePoll"@
        ||| tag == "inputMessageForwarded"@
    }

    fn knows(tag: &str) -> (r: bool) {
        same_text(tag, "inputMessageText")
            || same_text(tag, "inputMessageAnimation")
            || same_text(tag, "inputMessageAudio")
            || same_text(tag, "inputMessageDocument")
            || same_text(tag, "inputMessagePhoto")
            || same_text(tag, "inputMessageSticker")
            || same_text(tag, "inputMessageVideo")
            || same_text(tag, "inputMessageVideoNote")
            || same_text(tag, "inputMessageVoiceNote")
            || same_text(tag, "inputMessageLocation")
            || same_text(tag, "inputMessageVenue")
            || same_text(tag, "inputMessageContact")
            || same_text(tag, "inputMessageGame")
            || same_text(tag, "inputMessageInvoice")
            || same_text(tag, "inputMessagePoll")
            || same_text(tag, "inputMessageForwarded")
    }

    proof fn tag_known(&self) {
        reveal(<InputMessageContent as Wire>::wire);
        match self {
            Self::InputMessageText(p) => p.tag_known(),
            Self::InputMessageAnimation(p) => p.tag_known(),
            Self::InputMessageAudio(p) => p.tag_known(),
            Self::InputMessageDocument(p) => p.tag_known(),
            Self::InputMessagePhoto(p) => p.tag_known(),
            Self::InputMessageSticker(p) => p.tag_known(),
            Self::InputMessageVideo(p) => p.tag_known(),
            Self::InputMessageVideoNote(p) => p.tag_known(),
            Self::InputMessageVoiceNote(p) => p.tag_known(),
            Self::InputMessageLocation(p) => p.tag_known(),
            Self::InputMessageVenue(p) => p.tag_known(),
            Self::InputMessageContact(p) => p.tag_known(),
            Self::InputMessageGame(p) => p.tag_known(),
            Self::InputMessageInvoice(p) => p.tag_known(),
            Self::InputMessagePoll(p) => p.tag_known(),
            Self::InputMessageForwarded(p) => p.tag_known(),
        }
    }
}

impl Union for InputMessageContent {
    proof fn unknown_rejected(d: Doc, at: Seq<char>) {
        reveal(<InputMessageContent as Wire>::parse);
    }

    proof fn untagged_rejected(d: Doc, at: Seq<char>) {
        reveal(<InputMessageContent as Wire>::parse);
    }
}

} // verus!
