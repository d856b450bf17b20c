//! Push message content and notifications.

use vstd::prelude::*;
use crate::codec::{
    discriminator, field, members_of, optional_field, put, read_field, read_optional, seal,
    Tagged, Union, Wire,
};
use crate::error::{DecodeError, Fault};
use crate::json::{Doc, Json, Member, Number, tag_of, tagged};
use crate::text::same_text;
use crate::types::{
    Animation, Audio, Document, Message, Photo, Sticker, Video, VideoNote, VoiceNote,
};

verus! {

/// A general message with hidden content
#[derive(Debug, Clone, PartialEq)]
pub struct PushMessageContentHidden {
    /// True, if the message is a pinned message with the specified content
    pub is_pinned: bool,
}

impl Wire for PushMessageContentHidden {
    #[verifier::opaque]
    open spec fn wire(&self) -> Doc {
        tagged(
            Map::empty()
                .insert("isPinned"@, self.is_pinned.wire()),
            "pushMessageContentHidden"@,
        )
    }

    #[verifier::opaque]
    open spec fn parse(d: Doc, at: Seq<char>) -> Result<Doc, Fault> {
        match d {
            Doc::Object(m) => {
                let is_pinned = field::<bool>(m, "isPinned"@);
                if is_pinned is Err {
                    is_pinned
                } else {
                    Ok(
                        tagged(
                            Map::empty()
                                .insert("isPinned"@, is_pinned->Ok_0),
                            "pushMessageContentHidden"@,
                        ),
                    )
                }
            },
            _ => Err(Fault::TypeMismatch(at)),
        }
    }

    fn encode(&self) -> (j: Json) {
        proof {
            reveal(<PushMessageContentHidden as Wire>::wire);
        }
        let mut members: Vec<Member> = Vec::new();
        put(&mut members, "isPinned", self.is_pinned.encode());
        seal(members, "pushMessageContentHidden")
    }

    fn decode(j: &Json, at: &str) -> (r: Result<Self, DecodeError>) {
        proof {
            reveal(<PushMessageContentHidden as Wire>::wire);
            reveal(<PushMessageContentHidden as Wire>::parse);
        }
        let members = members_of(j, at)?;
        let is_pinned = read_field::<bool>(members, "isPinned")?;
        Ok(PushMessageContentHidden { is_pinned })
    }

    proof fn round_trip(&self, at: Seq<char>) {
        reveal(<PushMessageContentHidden as Wire>::wire);
        reveal(<PushMessageContentHidden as Wire>::parse);
        reveal_strlit("@type");
        reveal_strlit("isPinned");
        assert("@type"@.len() == 5);
        assert("isPinned"@.len() == 8);
        self.is_pinned.round_trip("isPinned"@);
    }
}

impl Tagged for PushMessageContentHidden {
    open spec fn known(tag: Seq<char>) -> bool {
        tag == "pushMessageContentHidden"@
    }

    fn knows(tag: &str) -> (r: bool) {
        same_text(tag, "pushMessageContentHidden")
    }

    proof fn tag_known(&self) {
        reveal(<PushMessageContentHidden as Wire>::wire);
        assert(tag_of(self.wire()) == Some("pushMessageContentHidden"@));
        assert(Self::known("pushMessageContentHidden"@));
    }
}

/// An animation message (GIF-style).
#[derive(Debug, Clone, PartialEq)]
pub struct PushMessageContentAnimation {
    /// Message content; may be null
    pub animation: Option<Animation>,
    /// Animation caption
    pub caption: String,
    /// True, if the message is a pinned message with the specified content
    pub is_pinned: bool,
}

impl Wire for PushMessageContentAnimation {
    #[verifier::opaque]
    open spec fn wire(&self) -> Doc {
        tagged(
            Map::empty()
                .insert("animation"@, self.animation.wire())
                .insert("caption"@, self.caption.wire())
                .insert("isPinned"@, self.is_pinned.wire()),
            "pushMessageContentAnimation"@,
        )
    }

    #[verifier::opaque]
    open spec fn parse(d: Doc, at: Seq<char>) -> Result<Doc, Fault> {
        match d {
            Doc::Object(m) => {
                let animation = optional_field::<Animation>(m, "animation"@);
                let caption = field::<String>(m, "caption"@);
                let is_pinned = field::<bool>(m, "isPinned"@);
                if animation is Err {
                    animation
                } else if caption is Err {
                    caption
                } else if is_pinned is Err {
                    is_pinned
                } else {
                    Ok(
                        tagged(
                            Map::empty()
                                .insert("animation"@, animation->Ok_0)
                                .insert("caption"@, caption->Ok_0)
                                .insert("isPinned"@, is_pinned->Ok_0),
                            "pushMessageContentAnimation"@,
                        ),
                    )
                }
            },
            _ => Err(Fault::TypeMismatch(at)),
        }
    }

    fn encode(&self) -> (j: Json) {
        proof {
            reveal(<PushMessageContentAnimation as Wire>::wire);
        }
        let mut members: Vec<Member> = Vec::new();
        put(&mut members, "animation", self.animation.encode());
        put(&mut members, "caption", self.caption.encode());
        put(&mut members, "isPinned", self.is_pinned.encode());
        seal(members, "pushMessageContentAnimation")
    }

    fn decode(j: &Json, at: &str) -> (r: Result<Self, DecodeError>) {
        proof {
            reveal(<PushMessageContentAnimation as Wire>::wire);
            reveal(<PushMessageContentAnimation as Wire>::parse);
        }
        let members = members_of(j, at)?;
        let animation = read_optional::<Animation>(members, "animation")?;
        let caption = read_field::<String>(members, "caption")?;
        let is_pinned = read_field::<bool>(members, "isPinned")?;
        Ok(PushMessageContentAnimation { animation, caption, is_pinned })
    }

    proof fn round_trip(&self, at: Seq<char>) {
        reveal(<PushMessageContentAnimation as Wire>::wire);
        reveal(<PushMessageContentAnimation as Wire>::parse);
        reveal_strlit("@type");
        reveal_strlit("animation");
        reveal_strlit("caption");
        reveal_strlit("isPinned");
        assert("@type"@.len() == 5);
        assert("animation"@.len() == 9);
        assert("caption"@.len() == 7);
        assert("isPinned"@.len() == 8);
        self.animation.round_trip("animation"@);
        self.caption.round_trip("caption"@);
        self.is_pinned.round_trip("isPinned"@);
    }
}

impl Tagged for PushMessageContentAnimation {
    open spec fn known(tag: Seq<char>) -> bool {
        tag == "pushMessageContentAnimation"@
    }

    fn knows(tag: &str) -> (r: bool) {
        same_text(tag, "pushMessageContentAnimation")
    }

    proof fn tag_known(&self) {
        reveal(<PushMessageContentAnimation as Wire>::wire);
        assert(tag_of(self.wire()) == Some("pushMessageContentAnimation"@));
        assert(Self::known("pushMessageContentAnimation"@));
    }
}

/// An audio message
#[derive(Debug, Clone, PartialEq)]
pub struct PushMessageContentAudio {
    /// Message content; may be null
    pub audio: Option<Audio>,
    /// True, if the message is a pinned message with the specified content
    pub is_pinned: bool,
}

impl Wire for PushMessageContentAudio {
    #[verifier::opaque]
    open spec fn wire(&self) -> Doc {
        tagged(
            Map::empty()
                .insert("audio"@, self.audio.wire())
                .insert("isPinned"@, self.is_pinned.wire()),
            "pushMessageContentAudio"@,
        )
    }

    #[verifier::opaque]
    open spec fn parse(d: Doc, at: Seq<char>) -> Result<Doc, Fault> {
        match d {
            Doc::Object(m) => {
                let audio = optional_field::<Audio>(m, "audio"@);
                let is_pinned = field::<bool>(m, "isPinned"@);
                if audio is Err {
                    audio
                } else if is_pinned is Err {
                    is_pinned
                } else {
                    Ok(
                        tagged(
                            Map::empty()
                                .insert("audio"@, audio->Ok_0)
                                .insert("isPinned"@, is_pinned->Ok_0),
                            "pushMessageContentAudio"@,
                        ),
                    )
                }
            },
            _ => Err(Fault::TypeMismatch(at)),
        }
    }

    fn encode(&self) -> (j: Json) {
        proof {
            reveal(<PushMessageContentAudio as Wire>::wire);
        }
        let mut members: Vec<Member> = Vec::new();
        put(&mut members, "audio", self.audio.encode());
        put(&mut members, "isPinned", self.is_pinned.encode());
        seal(members, "pushMessageContentAudio")
    }

    fn decode(j: &Json, at: &str) -> (r: Result<Self, DecodeError>) {
        proof {
            reveal(<PushMessageContentAudio as Wire>::wire);
            reveal(<PushMessageContentAudio as Wire>::parse);
        }
        let members = members_of(j, at)?;
        let audio = read_optional::<Audio>(members, "audio")?;
        let is_pinned = read_field::<bool>(members, "isPinned")?;
        Ok(PushMessageContentAudio { audio, is_pinned })
    }

    proof fn round_trip(&self, at: Seq<char>) {
        reveal(<PushMessageContentAudio as Wire>::wire);
        reveal(<PushMessageContentAudio as Wire>::parse);
        reveal_strlit("@type");
        reveal_strlit("audio");
        reveal_strlit("isPinned");
        assert("@type"@.len() == 5 && "@type"@[0] == '@');
        assert("audio"@.len() == 5 && "audio"@[0] == 'a');
        assert("isPinned"@.len() == 8);
        self.audio.round_trip("audio"@);
        self.is_pinned.round_trip("isPinned"@);
    }
}

impl Tagged for PushMessageContentAudio {
    open spec fn known(tag: Seq<char>) -> bool {
        tag == "pushMessageContentAudio"@
    }

    fn knows(tag: &str) -> (r: bool) {
        same_text(tag, "pushMessageContentAudio")
    }

    proof fn tag_known(&self) {
        reveal(<PushMessageContentAudio as Wire>::wire);
        assert(tag_of(self.wire()) == Some("pushMessageContentAudio"@));
        assert(Self::known("pushMessageContentAudio"@));
    }
}

/// A message with a user contact
#[derive(Debug, Clone, PartialEq)]
pub struct PushMessageContentContact {
    /// Contact's name
    pub name: String,
    /// True, if the message is a pinned message with the specified content
    pub is_pinned: bool,
}

impl Wire for PushMessageContentContact {
    #[verifier::opaque]
    open spec fn wire(&self) -> Doc {
        tagged(
            Map::empty()
                .insert("name"@, self.name.wire())
                .insert("isPinned"@, self.is_pinned.wire()),
            "pushMessageContentContact"@,
        )
    }

    #[verifier::opaque]
    open spec fn parse(d: Doc, at: Seq<char>) -> Result<Doc, Fault> {
        match d {
            Doc::Object(m) => {
                let name = field::<String>(m, "name"@);
                let is_pinned = field::<bool>(m, "isPinned"@);
                if name is Err {
                    name
                } else if is_pinned is Err {
                    is_pinned
                } else {
                    Ok(
                        tagged(
                            Map::empty()
                                .insert("name"@, name->Ok_0)
                                .insert("isPinned"@, is_pinned->Ok_0),
                            "pushMessageContentContact"@,
                        ),
                    )
                }
            },
            _ => Err(Fault::TypeMismatch(at)),
        }
    }

    fn encode(&self) -> (j: Json) {
        proof {
            reveal(<PushMessageContentContact as Wire>::wire);
        }
        let mut members: Vec<Member> = Vec::new();
        put(&mut members, "name", self.name.encode());
        put(&mut members, "isPinned", self.is_pinned.encode());
        seal(members, "pushMessageContentContact")
    }

    fn decode(j: &Json, at: &str) -> (r: Result<Self, DecodeError>) {
        proof {
            reveal(<PushMessageContentContact as Wire>::wire);
            reveal(<PushMessageContentContact as Wire>::parse);
        }
        let members = members_of(j, at)?;
        let name = read_field::<String>(members, "name")?;
        let is_pinned = read_field::<bool>(members, "isPinned")?;
        Ok(PushMessageContentContact { name, is_pinned })
    }

    proof fn round_trip(&self, at: Seq<char>) {
        reveal(<PushMessageContentContact as Wire>::wire);
        reveal(<PushMessageContentContact as Wire>::parse);
        reveal_strlit("@type");
        reveal_strlit("isPinned");
        reveal_strlit("name");
        assert("@type"@.len() == 5);
        assert("isPinned"@.len() == 8);
        assert("name"@.len() == 4);
        self.name.round_trip("name"@);
        self.is_pinned.round_trip("isPinned"@);
    }
}

impl Tagged for PushMessageContentContact {
    open spec fn known(tag: Seq<char>) -> bool {
        tag == "pushMessageContentContact"@
    }

    fn knows(tag: &str) -> (r: bool) {
        same_text(tag, "pushMessageContentContact")
    }

    proof fn tag_known(&self) {
        reveal(<PushMessageContentContact as Wire>::wire);
        assert(tag_of(self.wire()) == Some("pushMessageContentContact"@));
        assert(Self::known("pushMessageContentContact"@));
    }
}

/// A contact has registered with Telegram
#[derive(Debug, Clone, PartialEq)]
pub struct PushMessageContentContactRegistered {}

impl Wire for PushMessageContentContactRegistered {
    #[verifier::opaque]
    open spec fn wire(&self) -> Doc {
        tagged(Map::empty(), "pushMessageContentContactRegistered"@)
    }

    #[verifier::opaque]
    open spec fn parse(d: Doc, at: Seq<char>) -> Result<Doc, Fault> {
        match d {
            Doc::Object(_) => Ok(tagged(Map::empty(), "pushMessageContentContactRegistered"@)),
            _ => Err(Fault::TypeMismatch(at)),
        }
    }

    fn encode(&self) -> (j: Json) {
        proof {
            reveal(<PushMessageContentContactRegistered as Wire>::wire);
        }
        seal(Vec::new(), "pushMessageContentContactRegistered")
    }

    fn decode(j: &Json, at: &str) -> (r: Result<Self, DecodeError>) {
        proof {
            reveal(<PushMessageContentContactRegistered as Wire>::wire);
            reveal(<PushMessageContentContactRegistered as Wire>::parse);
        }
        let _ = members_of(j, at)?;
        Ok(PushMessageContentContactRegistered {})
    }

    proof fn round_trip(&self, at: Seq<char>) {
        reveal(<PushMessageContentContactRegistered as Wire>::wire);
        reveal(<PushMessageContentContactRegistered as Wire>::parse);
    }
}

impl Tagged for PushMessageContentContactRegistered {
    open spec fn known(tag: Seq<char>) -> bool {
        tag == "pushMessageContentContactRegistered"@
    }

    fn knows(tag: &str) -> (r: bool) {
        same_text(tag, "pushMessageContentContactRegistered")
    }

    proof fn tag_known(&self) {
        reveal(<PushMessageContentContactRegistered as Wire>::wire);
        assert(tag_of(self.wire()) == Some("pushMessageContentContactRegistered"@));
        assert(Self::known("pushMessageContentContactRegistered"@));
    }
}

/// A document message (a general file)
#[derive(Debug, Clone, PartialEq)]
pub struct PushMessageContentDocument {
    /// Message content; may be null
    pub document: Option<Document>,
    /// True, if the message is a pinned message with the specified content
    pub is_pinned: bool,
}

impl Wire for PushMessageContentDocument {
    #[verifier::opaque]
    open spec fn wire(&self) -> Doc {
        tagged(
            Map::empty()
                .insert("document"@, self.document.wire())
                .insert("isPinned"@, self.is_pinned.wire()),
            "pushMessageContentDocument"@,
        )
    }

    #[verifier::opaque]
    open spec fn parse(d: Doc, at: Seq<char>) -> Result<Doc, Fault> {
        match d {
            Doc::Object(m) => {
                let document = optional_field::<Document>(m, "document"@);
                let is_pinned = field::<bool>(m, "isPinned"@);
                if document is Err {
                    document
                } else if is_pinned is Err {
                    is_pinned
                } else {
                    Ok(
                        tagged(
                            Map::empty()
                                .insert("document"@, document->Ok_0)
                                .insert("isPinned"@, is_pinned->Ok_0),
                            "pushMessageContentDocument"@,
                        ),
                    )
                }
            },
            _ => Err(Fault::TypeMismatch(at)),
        }
    }

    fn encode(&self) -> (j: Json) {
        proof {
            reveal(<PushMessageContentDocument as Wire>::wire);
        }
        let mut members: Vec<Member> = Vec::new();
        put(&mut members, "document", self.document.encode());
        put(&mut members, "isPinned", self.is_pinned.encode());
        seal(members, "pushMessageContentDocument")
    }

    fn decode(j: &Json, at: &str) -> (r: Result<Self, DecodeError>) {
        proof {
            reveal(<PushMessageContentDocument as Wire>::wire);
            reveal(<PushMessageContentDocument as Wire>::parse);
        }
        let members = members_of(j, at)?;
        let document = read_optional::<Document>(members, "document")?;
        let is_pinned = read_field::<bool>(members, "isPinned")?;
        Ok(PushMessageContentDocument { document, is_pinned })
    }

    proof fn round_trip(&self, at: Seq<char>) {
        reveal(<PushMessageContentDocument as Wire>::wire);
        reveal(<PushMessageContentDocument as Wire>::parse);
        reveal_strlit("@type");
        reveal_strlit("document");
        reveal_strlit("isPinned");
        assert("@type"@.len() == 5);
        assert("document"@.len() == 8 && "document"@[0] == 'd');
        assert("isPinned"@.len() == 8 && "isPinned"@[0] == 'i');
        self.document.round_trip("document"@);
        self.is_pinned.round_trip("isPinned"@);
    }
}

impl Tagged for PushMessageContentDocument {
    open spec fn known(tag: Seq<char>) -> bool {
        tag == "pushMessageContentDocument"@
    }

    fn knows(tag: &str) -> (r: bool) {
        same_text(tag, "pushMessageContentDocument")
    }

    proof fn tag_known(&self) {
        reveal(<PushMessageContentDocument as Wire>::wire);
        assert(tag_of(self.wire()) == Some("pushMessageContentDocument"@));
        assert(Self::known("pushMessageContentDocument"@));
    }
}

/// A message with a game
#[derive(Debug, Clone, PartialEq)]
pub struct PushMessageContentGame {
    /// Game title, empty for pinned game message
    pub title: String,
    /// True, if the message is a pinned message with the specified content
    pub is_pinned: bool,
}

impl Wire for PushMessageContentGame {
    #[verifier::opaque]
    open spec fn wire(&self) -> Doc {
        tagged(
            Map::empty()
                .insert("title"@, self.title.wire())
                .insert("isPinned"@, self.is_pinned.wire()),
            "pushMessageContentGame"@,
        )
    }

    #[verifier::opaque]
    open spec fn parse(d: Doc, at: Seq<char>) -> Result<Doc, Fault> {
        match d {
            Doc::Object(m) => {
                let title = field::<String>(m, "title"@);
                let is_pinned = field::<bool>(m, "isPinned"@);
                if title is Err {
                    title
                } else if is_pinned is Err {
                    is_pinned
                } else {
                    Ok(
                        tagged(
                            Map::empty()
                                .insert("title"@, title->Ok_0)
                                .insert("isPinned"@, is_pinned->Ok_0),
                            "pushMessageContentGame"@,
                        ),
                    )
                }
            },
            _ => Err(Fault::TypeMismatch(at)),
        }
    }

    fn encode(&self) -> (j: Json) {
        proof {
            reveal(<PushMessageContentGame as Wire>::wire);
        }
        let mut members: Vec<Member> = Vec::new();
        put(&mut members, "title", self.title.encode());
        put(&mut members, "isPinned", self.is_pinned.encode());
        seal(members, "pushMessageContentGame")
    }

    fn decode(j: &Json, at: &str) -> (r: Result<Self, DecodeError>) {
        proof {
            reveal(<PushMessageContentGame as Wire>::wire);
            reveal(<PushMessageContentGame as Wire>::parse);
        }
        let members = members_of(j, at)?;
        let title = read_field::<String>(members, "title")?;
        let is_pinned = read_field::<bool>(members, "isPinned")?;
        Ok(PushMessageContentGame { title, is_pinned })
    }

    proof fn round_trip(&self, at: Seq<char>) {
        reveal(<PushMessageContentGame as Wire>::wire);
        reveal(<PushMessageContentGame as Wire>::parse);
        reveal_strlit("@type");
        reveal_strlit("isPinned");
        reveal_strlit("title");
        assert("@type"@.len() == 5 && "@type"@[0] == '@');
        assert("isPinned"@.len() == 8);
        assert("title"@.len() == 5 && "title"@[0] == 't');
        self.title.round_trip("title"@);
        self.is_pinned.round_trip("isPinned"@);
    }
}

impl Tagged for PushMessageContentGame {
    open spec fn known(tag: Seq<char>) -> bool {
        tag == "pushMessageContentGame"@
    }

    fn knows(tag: &str) -> (r: bool) {
        same_text(tag, "pushMessageContentGame")
    }

    proof fn tag_known(&self) {
        reveal(<PushMessageContentGame as Wire>::wire);
        assert(tag_of(self.wire()) == Some("pushMessageContentGame"@));
        assert(Self::known("pushMessageContentGame"@));
    }
}

/// A new high score was achieved in a game
#[derive(Debug, Clone, PartialEq)]
pub struct PushMessageContentGameScore {
    /// Game title, empty for pinned message
    pub title: String,
    /// New score, 0 for pinned message
    pub score: i32,
    /// True, if the message is a pinned message with the specified content
    pub is_pinned: bool,
}

impl Wire for PushMessageContentGameScore {
    #[verifier::opaque]
    open spec fn wire(&self) -> Doc {
        tagged(
            Map::empty()
                .insert("title"@, self.title.wire())
                .insert("score"@, self.score.wire())
                .insert("isPinned"@, self.is_pinned.wire()),
            "pushMessageContentGameScore"@,
        )
    }

    #[verifier::opaque]
    open spec fn parse(d: Doc, at: Seq<char>) -> Result<Doc, Fault> {
        match d {
            Doc::Object(m) => {
                let title = field::<String>(m, "title"@);
                let score = field::<i32>(m, "score"@);
                let is_pinned = field::<bool>(m, "isPinned"@);
                if title is Err {
                    title
                } else if score is Err {
                    score
                } else if is_pinned is Err {
                    is_pinned
                } else {
                    Ok(
                        tagged(
                            Map::empty()
                                .insert("title"@, title->Ok_0)
                                .insert("score"@, score->Ok_0)
                                .insert("isPinned"@, is_pinned->Ok_0),
                            "pushMessageContentGameScore"@,
                        ),
                    )
                }
            },
            _ => Err(Fault::TypeMismatch(at)),
        }
    }

    fn encode(&self) -> (j: Json) {
        proof {
            reveal(<PushMessageContentGameScore as Wire>::wire);
        }
        let mut members: Vec<Member> = Vec::new();
        put(&mut members, "title", self.title.encode());
        put(&mut members, "score", self.score.encode());
        put(&mut members, "isPinned", self.is_pinned.encode());
        seal(members, "pushMessageContentGameScore")
    }

    fn decode(j: &Json, at: &str) -> (r: Result<Self, DecodeError>) {
        proof {
            reveal(<PushMessageContentGameScore as Wire>::wire);
            reveal(<PushMessageContentGameScore as Wire>::parse);
        }
        let members = members_of(j, at)?;
        let title = read_field::<String>(members, "title")?;
        let score = read_field::<i32>(members, "score")?;
        let is_pinned = read_field::<bool>(members, "isPinned")?;
        Ok(PushMessageContentGameScore { title, score, is_pinned })
    }

    proof fn round_trip(&self, at: Seq<char>) {
        reveal(<PushMessageContentGameScore as Wire>::wire);
        reveal(<PushMessageContentGameScore as Wire>::parse);
        reveal_strlit("@type");
        reveal_strlit("isPinned");
        reveal_strlit("score");
        reveal_strlit("title");
        assert("@type"@.len() == 5 && "@type"@[0] == '@');
        assert("isPinned"@.len() == 8);
        assert("score"@.len() == 5 && "score"@[0] == 's');
        assert("title"@.len() == 5 && "title"@[0] == 't');
        self.title.round_trip("title"@);
        self.score.round_trip("score"@);
        self.is_pinned.round_trip("isPinned"@);
    }
}

impl Tagged for PushMessageContentGameScore {
    open spec fn known(tag: Seq<char>) -> bool {
        tag == "pushMessageContentGameScore"@
    }

    fn knows(tag: &str) -> (r: bool) {
        same_text(tag, "pushMessageContentGameScore")
    }

    proof fn tag_known(&self) {
        reveal(<PushMessageContentGameScore as Wire>::wire);
        assert(tag_of(self.wire()) == Some("pushMessageContentGameScore"@));
        assert(Self::known("pushMessageContentGameScore"@));
    }
}

/// A message with an invoice from a bot
#[derive(Debug, Clone, PartialEq)]
pub struct PushMessageContentInvoice {
    /// Product price
    pub price: String,
    /// True, if the message is a pinned message with the specified content
    pub is_pinned: bool,
}

impl Wire for PushMessageContentInvoice {
    #[verifier::opaque]
    open spec fn wire(&self) -> Doc {
        tagged(
            Map::empty()
                .insert("price"@, self.price.wire())
                .insert("isPinned"@, self.is_pinned.wire()),
            "pushMessageContentInvoice"@,
        )
    }

    #[verifier::opaque]
    open spec fn parse(d: Doc, at: Seq<char>) -> Result<Doc, Fault> {
        match d {
            Doc::Object(m) => {
                let price = field::<String>(m, "price"@);
                let is_pinned = field::<bool>(m, "isPinned"@);
                if price is Err {
                    price
                } else if is_pinned is Err {
                    is_pinned
                } else {
                    Ok(
                        tagged(
                            Map::empty()
                                .insert("price"@, price->Ok_0)
                                .insert("isPinned"@, is_pinned->Ok_0),
                            "pushMessageContentInvoice"@,
                        ),
                    )
                }
            },
            _ => Err(Fault::TypeMismatch(at)),
        }
    }

    fn encode(&self) -> (j: Json) {
        proof {
            reveal(<PushMessageContentInvoice as Wire>::wire);
        }
        let mut members: Vec<Member> = Vec::new();
        put(&mut members, "price", self.price.encode());
        put(&mut members, "isPinned", self.is_pinned.encode());
        seal(members, "pushMessageContentInvoice")
    }

    fn decode(j: &Json, at: &str) -> (r: Result<Self, DecodeError>) {
        proof {
            reveal(<PushMessageContentInvoice as Wire>::wire);
            reveal(<PushMessageContentInvoice as Wire>::parse);
        }
        let members = members_of(j, at)?;
        let price = read_field::<String>(members, "price")?;
        let is_pinned = read_field::<bool>(members, "isPinned")?;
        Ok(PushMessageContentInvoice { price, is_pinned })
    }

    proof fn round_trip(&self, at: Seq<char>) {
        reveal(<PushMessageContentInvoice as Wire>::wire);
        reveal(<PushMessageContentInvoice as Wire>::parse);
        reveal_strlit("@type");
        reveal_strlit("isPinned");
        reveal_strlit("price");
        assert("@type"@.len() == 5 && "@type"@[0] == '@');
        assert("isPinned"@.len() == 8);
        assert("price"@.len() == 5 && "price"@[0] == 'p');
        self.price.round_trip("price"@);
        self.is_pinned.round_trip("isPinned"@);
    }
}

impl Tagged for PushMessageContentInvoice {
    open spec fn known(tag: Seq<char>) -> bool {
        tag == "pushMessageContentInvoice"@
    }

    fn knows(tag: &str) -> (r: bool) {
        same_text(tag, "pushMessageContentInvoice")
    }

    proof fn tag_known(&self) {
        reveal(<PushMessageContentInvoice as Wire>::wire);
        assert(tag_of(self.wire()) == Some("pushMessageContentInvoice"@));
        assert(Self::known("pushMessageContentInvoice"@));
    }
}

/// A message with a location
#[derive(Debug, Clone, PartialEq)]
pub struct PushMessageContentLocation {
    /// True, if the location is live
    pub is_live: bool,
    /// True, if the message is a pinned message with the specified content
    pub is_pinned: bool,
}

impl Wire for PushMessageContentLocation {
    #[verifier::opaque]
    open spec fn wire(&self) -> Doc {
        tagged(
            Map::empty()
                .insert("isLive"@, self.is_live.wire())
                .insert("isPinned"@, self.is_pinned.wire()),
            "pushMessageContentLocation"@,
        )
    }

    #[verifier::opaque]
    open spec fn parse(d: Doc, at: Seq<char>) -> Result<Doc, Fault> {
        match d {
            Doc::Object(m) => {
                let is_live = field::<bool>(m, "isLive"@);
                let is_pinned = field::<bool>(m, "isPinned"@);
                if is_live is Err {
                    is_live
                } else if is_pinned is Err {
                    is_pinned
                } else {
                    Ok(
                        tagged(
                            Map::empty()
                                .insert("isLive"@, is_live->Ok_0)
                                .insert("isPinned"@, is_pinned->Ok_0),
                            "pushMessageContentLocation"@,
                        ),
                    )
                }
            },
            _ => Err(Fault::TypeMismatch(at)),
        }
    }

    fn encode(&self) -> (j: Json) {
        proof {
            reveal(<PushMessageContentLocation as Wire>::wire);
        }
        let mut members: Vec<Member> = Vec::new();
        put(&mut members, "isLive", self.is_live.encode());
        put(&mut members, "isPinned", self.is_pinned.encode());
        seal(members, "pushMessageContentLocation")
    }

    fn decode(j: &Json, at: &str) -> (r: Result<Self, DecodeError>) {
        proof {
            reveal(<PushMessageContentLocation as Wire>::wire);
            reveal(<PushMessageContentLocation as Wire>::parse);
        }
        let members = members_of(j, at)?;
        let is_live = read_field::<bool>(members, "isLive")?;
        let is_pinned = read_field::<bool>(members, "isPinned")?;
        Ok(PushMessageContentLocation { is_live, is_pinned })
    }

    proof fn round_trip(&self, at: Seq<char>) {
        reveal(<PushMessageContentLocation as Wire>::wire);
        reveal(<PushMessageContentLocation as Wire>::parse);
        reveal_strlit("@type");
        reveal_strlit("isLive");
        reveal_strlit("isPinned");
        assert("@type"@.len() == 5);
        assert("isLive"@.len() == 6);
        assert("isPinned"@.len() == 8);
        self.is_live.round_trip("isLive"@);
        self.is_pinned.round_trip("isPinned"@);
    }
}

impl Tagged for PushMessageContentLocation {
    open spec fn known(tag: Seq<char>) -> bool {
        tag == "pushMessageContentLocation"@
    }

    fn knows(tag: &str) -> (r: bool) {
        same_text(tag, "pushMessageContentLocation")
    }

    proof fn tag_known(&self) {
        reveal(<PushMessageContentLocation as Wire>::wire);
        assert(tag_of(self.wire()) == Some("pushMessageContentLocation"@));
        assert(Self::known("pushMessageContentLocation"@));
    }
}

/// A photo message
#[derive(Debug, Clone, PartialEq)]
pub struct PushMessageContentPhoto {
    /// Message content; may be null
    pub photo: Option<Photo>,
    /// Photo caption
    pub caption: String,
    /// True, if the photo is secret
    pub is_secret: bool,
    /// True, if the message is a pinned message with the specified content
    pub is_pinned: bool,
}

impl Wire for PushMessageContentPhoto {
    #[verifier::opaque]
    open spec fn wire(&self) -> Doc {
        tagged(
            Map::empty()
                .insert("photo"@, self.photo.wire())
                .insert("caption"@, self.caption.wire())
                .insert("isSecret"@, self.is_secret.wire())
                .insert("isPinned"@, self.is_pinned.wire()),
            "pushMessageContentPhoto"@,
        )
    }

    #[verifier::opaque]
    open spec fn parse(d: Doc, at: Seq<char>) -> Result<Doc, Fault> {
        match d {
            Doc::Object(m) => {
                let photo = optional_field::<Photo>(m, "photo"@);
                let caption = field::<String>(m, "caption"@);
                let is_secret = field::<bool>(m, "isSecret"@);
                let is_pinned = field::<bool>(m, "isPinned"@);
                if photo is Err {
                    photo
                } else if caption is Err {
                    caption
                } else if is_secret is Err {
                    is_secret
                } else if is_pinned is Err {
                    is_pinned
                } else {
                    Ok(
                        tagged(
                            Map::empty()
                                .insert("photo"@, photo->Ok_0)
                                .insert("caption"@, caption->Ok_0)
                                .insert("isSecret"@, is_secret->Ok_0)
                                .insert("isPinned"@, is_pinned->Ok_0),
                            "pushMessageContentPhoto"@,
                        ),
                    )
                }
            },
            _ => Err(Fault::TypeMismatch(at)),
        }
    }

    fn encode(&self) -> (j: Json) {
        proof {
            reveal(<PushMessageContentPhoto as Wire>::wire);
        }
        let mut members: Vec<Member> = Vec::new();
        put(&mut members, "photo", self.photo.encode());
        put(&mut members, "caption", self.caption.encode());
        put(&mut members, "isSecret", self.is_secret.encode());
        put(&mut members, "isPinned", self.is_pinned.encode());
        seal(members, "pushMessageContentPhoto")
    }

    fn decode(j: &Json, at: &str) -> (r: Result<Self, DecodeError>) {
        proof {
            reveal(<PushMessageContentPhoto as Wire>::wire);
            reveal(<PushMessageContentPhoto as Wire>::parse);
        }
        let members = members_of(j, at)?;
        let photo = read_optional::<Photo>(members, "photo")?;
        let caption = read_field::<String>(members, "caption")?;
        let is_secret = read_field::<bool>(members, "isSecret")?;
        let is_pinned = read_field::<bool>(members, "isPinned")?;
        Ok(PushMessageContentPhoto { photo, caption, is_secret, is_pinned })
    }

    proof fn round_trip(&self, at: Seq<char>) {
        reveal(<PushMessageContentPhoto as Wire>::wire);
        reveal(<PushMessageContentPhoto as Wire>::parse);
        reveal_strlit("@type");
        reveal_strlit("caption");
        reveal_strlit("isPinned");
        reveal_strlit("isSecret");
        reveal_strlit("photo");
        assert("@type"@.len() == 5 && "@type"@[0] == '@');
        assert("caption"@.len() == 7);
        assert("isPinned"@.len() == 8 && "isPinned"@[2] == 'P');
        assert("isSecret"@.len() == 8 && "isSecret"@[2] == 'S');
        assert("photo"@.len() == 5 && "photo"@[0] == 'p');
        self.photo.round_trip("photo"@);
        self.caption.round_trip("caption"@);
        self.is_secret.round_trip("isSecret"@);
        self.is_pinned.round_trip("isPinned"@);
    }
}

impl Tagged for PushMessageContentPhoto {
    open spec fn known(tag: Seq<char>) -> bool {
        tag == "pushMessageContentPhoto"@
    }

    fn knows(tag: &str) -> (r: bool) {
        same_text(tag, "pushMessageContentPhoto")
    }

    proof fn tag_known(&self) {
        reveal(<PushMessageContentPhoto as Wire>::wire);
        assert(tag_of(self.wire()) == Some("pushMessageContentPhoto"@));
        assert(Self::known("pushMessageContentPhoto"@));
    }
}

/// A message with a poll
#[derive(Debug, Clone, PartialEq)]
pub struct PushMessageContentPoll {
    /// Poll question
    pub question: String,
    /// True, if the poll is regular and not in quiz mode
    pub is_regular: bool,
    /// True, if the message is a pinned message with the specified content
    pub is_pinned: bool,
}

impl Wire for PushMessageContentPoll {
    #[verifier::opaque]
    open spec fn wire(&self) -> Doc {
        tagged(
            Map::empty()
                .insert("question"@, self.question.wire())
                .insert("isRegular"@, self.is_regular.wire())
                .insert("isPinned"@, self.is_pinned.wire()),
            "pushMessageContentPoll"@,
        )
    }

    #[verifier::opaque]
    open spec fn parse(d: Doc, at: Seq<char>) -> Result<Doc, Fault> {
        match d {
            Doc::Object(m) => {
                let question = field::<String>(m, "question"@);
                let is_regular = field::<bool>(m, "isRegular"@);
                let is_pinned = field::<bool>(m, "isPinned"@);
                if question is Err {
                    question
                } else if is_regular is Err {
                    is_regular
                } else if is_pinned is Err {
                    is_pinned
                } else {
                    Ok(
                        tagged(
                            Map::empty()
                                .insert("question"@, question->Ok_0)
                                .insert("isRegular"@, is_regular->Ok_0)
                                .insert("isPinned"@, is_pinned->Ok_0),
                            "pushMessageContentPoll"@,
                        ),
                    )
                }
            },
            _ => Err(Fault::TypeMismatch(at)),
        }
    }

    fn encode(&self) -> (j: Json) {
        proof {
            reveal(<PushMessageContentPoll as Wire>::wire);
        }
        let mut members: Vec<Member> = Vec::new();
        put(&mut members, "question", self.question.encode());
        put(&mut members, "isRegular", self.is_regular.encode());
        put(&mut members, "isPinned", self.is_pinned.encode());
        seal(members, "pushMessageContentPoll")
    }

    fn decode(j: &Json, at: &str) -> (r: Result<Self, DecodeError>) {
        proof {
            reveal(<PushMessageContentPoll as Wire>::wire);
            reveal(<PushMessageContentPoll as Wire>::parse);
        }
        let members = members_of(j, at)?;
        let question = read_field::<String>(members, "question")?;
        let is_regular = read_field::<bool>(members, "isRegular")?;
        let is_pinned = read_field::<bool>(members, "isPinned")?;
        Ok(PushMessageContentPoll { question, is_regular, is_pinned })
    }

    proof fn round_trip(&self, at: Seq<char>) {
        reveal(<PushMessageContentPoll as Wire>::wire);
        reveal(<PushMessageContentPoll as Wire>::parse);
        reveal_strlit("@type");
        reveal_strlit("isPinned");
        reveal_strlit("isRegular");
        reveal_strlit("question");
        assert("@type"@.len() == 5);
        assert("isPinned"@.len() == 8 && "isPinned"@[0] == 'i');
        assert("isRegular"@.len() == 9);
        assert("question"@.len() == 8 && "question"@[0] == 'q');
        self.question.round_trip("question"@);
        self.is_regular.round_trip("isRegular"@);
        self.is_pinned.round_trip("isPinned"@);
    }
}

impl Tagged for PushMessageContentPoll {
    open spec fn known(tag: Seq<char>) -> bool {
        tag == "pushMessageContentPoll"@
    }

    fn knows(tag: &str) -> (r: bool) {
        same_text(tag, "pushMessageContentPoll")
    }

    proof fn tag_known(&self) {
        reveal(<PushMessageContentPoll as Wire>::wire);
        assert(tag_of(self.wire()) == Some("pushMessageContentPoll"@));
        assert(Self::known("pushMessageContentPoll"@));
    }
}

/// A screenshot of a message in the chat has been taken
#[derive(Debug, Clone, PartialEq)]
pub struct PushMessageContentScreenshotTaken {}

impl Wire for PushMessageContentScreenshotTaken {
    #[verifier::opaque]
    open spec fn wire(&self) -> Doc {
        tagged(Map::empty(), "pushMessageContentScreenshotTaken"@)
    }

    #[verifier::opaque]
    open spec fn parse(d: Doc, at: Seq<char>) -> Result<Doc, Fault> {
        match d {
            Doc::Object(_) => Ok(tagged(Map::empty(), "pushMessageContentScreenshotTaken"@)),
            _ => Err(Fault::TypeMismatch(at)),
        }
    }

    fn encode(&self) -> (j: Json) {
        proof {
            reveal(<PushMessageContentScreenshotTaken as Wire>::wire);
        }
        seal(Vec::new(), "pushMessageContentScreenshotTaken")
    }

    fn decode(j: &Json, at: &str) -> (r: Result<Self, DecodeError>) {
        proof {
            reveal(<PushMessageContentScreenshotTaken as Wire>::wire);
            reveal(<PushMessageContentScreenshotTaken as Wire>::parse);
        }
        let _ = members_of(j, at)?;
        Ok(PushMessageContentScreenshotTaken {})
    }

    proof fn round_trip(&self, at: Seq<char>) {
        reveal(<PushMessageContentScreenshotTaken as Wire>::wire);
        reveal(<PushMessageContentScreenshotTaken as Wire>::parse);
    }
}

impl Tagged for PushMessageContentScreenshotTaken {
    open spec fn known(tag: Seq<char>) -> bool {
        tag == "pushMessageContentScreenshotTaken"@
    }

    fn knows(tag: &str) -> (r: bool) {
        same_text(tag, "pushMessageContentScreenshotTaken")
    }

    proof fn tag_known(&self) {
        reveal(<PushMessageContentScreenshotTaken as Wire>::wire);
        assert(tag_of(self.wire()) == Some("pushMessageContentScreenshotTaken"@));
        assert(Self::known("pushMessageContentScreenshotTaken"@));
    }
}

/// A message with a sticker
#[derive(Debug, Clone, PartialEq)]
pub struct PushMessageContentSticker {
    /// Message content; may be null
    pub sticker: Option<Sticker>,
    /// Emoji corresponding to the sticker; may be empty
    pub emoji: String,
    /// True, if the message is a pinned message with the specified content
    pub is_pinned: bool,
}

impl Wire for PushMessageContentSticker {
    #[verifier::opaque]
    open spec fn wire(&self) -> Doc {
        tagged(
            Map::empty()
                .insert("sticker"@, self.sticker.wire())
                .insert("emoji"@, self.emoji.wire())
                .insert("isPinned"@, self.is_pinned.wire()),
            "pushMessageContentSticker"@,
        )
    }

    #[verifier::opaque]
    open spec fn parse(d: Doc, at: Seq<char>) -> Result<Doc, Fault> {
        match d {
            Doc::Object(m) => {
                let sticker = optional_field::<Sticker>(m, "sticker"@);
                let emoji = field::<String>(m, "emoji"@);
                let is_pinned = field::<bool>(m, "isPinned"@);
                if sticker is Err {
                    sticker
                } else if emoji is Err {
                    emoji
                } else if is_pinned is Err {
                    is_pinned
                } else {
                    Ok(
                        tagged(
                            Map::empty()
                                .insert("sticker"@, sticker->Ok_0)
                                .insert("emoji"@, emoji->Ok_0)
                                .insert("isPinned"@, is_pinned->Ok_0),
                            "pushMessageContentSticker"@,
                        ),
                    )
                }
            },
            _ => Err(Fault::TypeMismatch(at)),
        }
    }

    fn encode(&self) -> (j: Json) {
        proof {
            reveal(<PushMessageContentSticker as Wire>::wire);
        }
        let mut members: Vec<Member> = Vec::new();
        put(&mut members, "sticker", self.sticker.encode());
        put(&mut members, "emoji", self.emoji.encode());
        put(&mut members, "isPinned", self.is_pinned.encode());
        seal(members, "pushMessageContentSticker")
    }

    fn decode(j: &Json, at: &str) -> (r: Result<Self, DecodeError>) {
        proof {
            reveal(<PushMessageContentSticker as Wire>::wire);
            reveal(<PushMessageContentSticker as Wire>::parse);
        }
        let members = members_of(j, at)?;
        let sticker = read_optional::<Sticker>(members, "sticker")?;
        let emoji = read_field::<String>(members, "emoji")?;
        let is_pinned = read_field::<bool>(members, "isPinned")?;
        Ok(PushMessageContentSticker { sticker, emoji, is_pinned })
    }

    proof fn round_trip(&self, at: Seq<char>) {
        reveal(<PushMessageContentSticker as Wire>::wire);
        reveal(<PushMessageContentSticker as Wire>::parse);
        reveal_strlit("@type");
        reveal_strlit("emoji");
        reveal_strlit("isPinned");
        reveal_strlit("sticker");
        assert("@type"@.len() == 5 && "@type"@[0] == '@');
        assert("emoji"@.len() == 5 && "emoji"@[0] == 'e');
        assert("isPinned"@.len() == 8);
        assert("sticker"@.len() == 7);
        self.sticker.round_trip("sticker"@);
        self.emoji.round_trip("emoji"@);
        self.is_pinned.round_trip("isPinned"@);
    }
}

impl Tagged for PushMessageContentSticker {
    open spec fn known(tag: Seq<char>) -> bool {
        tag == "pushMessageContentSticker"@
    }

    fn knows(tag: &str) -> (r: bool) {
        same_text(tag, "pushMessageContentSticker")
    }

    proof fn tag_known(&self) {
        reveal(<PushMessageContentSticker as Wire>::wire);
        assert(tag_of(self.wire()) == Some("pushMessageContentSticker"@));
        assert(Self::known("pushMessageContentSticker"@));
    }
}

/// A text message
#[derive(Debug, Clone, PartialEq)]
pub struct PushMessageContentText {
    /// Message text
    pub text: String,
    /// True, if the message is a pinned message with the specified content
    pub is_pinned: bool,
}

impl Wire for PushMessageContentText {
    #[verifier::opaque]
    open spec fn wire(&self) -> Doc {
        tagged(
            Map::empty()
                .insert("text"@, self.text.wire())
                .insert("isPinned"@, self.is_pinned.wire()),
            "pushMessageContentText"@,
        )
    }

    #[verifier::opaque]
    open spec fn parse(d: Doc, at: Seq<char>) -> Result<Doc, Fault> {
        match d {
            Doc::Object(m) => {
                let text = field::<String>(m, "text"@);
                let is_pinned = field::<bool>(m, "isPinned"@);
                if text is Err {
                    text
                } else if is_pinned is Err {
                    is_pinned
                } else {
                    Ok(
                        tagged(
                            Map::empty()
                                .insert("text"@, text->Ok_0)
                                .insert("isPinned"@, is_pinned->Ok_0),
                            "pushMessageContentText"@,
                        ),
                    )
                }
            },
            _ => Err(Fault::TypeMismatch(at)),
        }
    }

    fn encode(&self) -> (j: Json) {
        proof {
            reveal(<PushMessageContentText as Wire>::wire);
        }
        let mut members: Vec<Member> = Vec::new();
        put(&mut members, "text", self.text.encode());
        put(&mut members, "isPinned", self.is_pinned.encode());
        seal(members, "pushMessageContentText")
    }

    fn decode(j: &Json, at: &str) -> (r: Result<Self, DecodeError>) {
        proof {
            reveal(<PushMessageContentText as Wire>::wire);
            reveal(<PushMessageContentText as Wire>::parse);
        }
        let members = members_of(j, at)?;
        let text = read_field::<String>(members, "text")?;
        let is_pinned = read_field::<bool>(members, "isPinned")?;
        Ok(PushMessageContentText { text, is_pinned })
    }

    proof fn round_trip(&self, at: Seq<char>) {
        reveal(<PushMessageContentText as Wire>::wire);
        reveal(<PushMessageContentText as Wire>::parse);
        reveal_strlit("@type");
        reveal_strlit("isPinned");
        reveal_strlit("text");
        assert("@type"@.len() == 5);
        assert("isPinned"@.len() == 8);
        assert("text"@.len() == 4);
        self.text.round_trip("text"@);
        self.is_pinned.round_trip("isPinned"@);
    }
}

impl Tagged for PushMessageContentText {
    open spec fn known(tag: Seq<char>) -> bool {
        tag == "pushMessageContentText"@
    }

    fn knows(tag: &str) -> (r: bool) {
        same_text(tag, "pushMessageContentText")
    }

    proof fn tag_known(&self) {
        reveal(<PushMessageContentText as Wire>::wire);
        assert(tag_of(self.wire()) == Some("pushMessageContentText"@));
        assert(Self::known("pushMessageContentText"@));
    }
}

/// A video message
#[derive(Debug, Clone, PartialEq)]
pub struct PushMessageContentVideo {
    /// Message content; may be null
    pub video: Option<Video>,
    /// Video caption
    pub caption: String,
    /// True, if the video is secret
    pub is_secret: bool,
    /// True, if the message is a pinned message with the specified content
    pub is_pinned: bool,
}

impl Wire for PushMessageContentVideo {
    #[verifier::opaque]
    open spec fn wire(&self) -> Doc {
        tagged(
            Map::empty()
                .insert("video"@, self.video.wire())
                .insert("caption"@, self.caption.wire())
                .insert("isSecret"@, self.is_secret.wire())
                .insert("isPinned"@, self.is_pinned.wire()),
            "pushMessageContentVideo"@,
        )
    }

    #[verifier::opaque]
    open spec fn parse(d: Doc, at: Seq<char>) -> Result<Doc, Fault> {
        match d {
            Doc::Object(m) => {
                let video = optional_field::<Video>(m, "video"@);
                let caption = field::<String>(m, "caption"@);
                let is_secret = field::<bool>(m, "isSecret"@);
                let is_pinned = field::<bool>(m, "isPinned"@);
                if video is Err {
                    video
                } else if caption is Err {
                    caption
                } else if is_secret is Err {
                    is_secret
                } else if is_pinned is Err {
                    is_pinned
                } else {
                    Ok(
                        tagged(
                            Map::empty()
                                .insert("video"@, video->Ok_0)
                                .insert("caption"@, caption->Ok_0)
                                .insert("isSecret"@, is_secret->Ok_0)
                                .insert("isPinned"@, is_pinned->Ok_0),
                            "pushMessageContentVideo"@,
                        ),
                    )
                }
            },
            _ => Err(Fault::TypeMismatch(at)),
        }
    }

    fn encode(&self) -> (j: Json) {
        proof {
            reveal(<PushMessageContentVideo as Wire>::wire);
        }
        let mut members: Vec<Member> = Vec::new();
        put(&mut members, "video", self.video.encode());
        put(&mut members, "caption", self.caption.encode());
        put(&mut members, "isSecret", self.is_secret.encode());
        put(&mut members, "isPinned", self.is_pinned.encode());
        seal(members, "pushMessageContentVideo")
    }

    fn decode(j: &Json, at: &str) -> (r: Result<Self, DecodeError>) {
        proof {
            reveal(<PushMessageContentVideo as Wire>::wire);
            reveal(<PushMessageContentVideo as Wire>::parse);
        }
        let members = members_of(j, at)?;
        let video = read_optional::<Video>(members, "video")?;
        let caption = read_field::<String>(members, "caption")?;
        let is_secret = read_field::<bool>(members, "isSecret")?;
        let is_pinned = read_field::<bool>(members, "isPinned")?;
        Ok(PushMessageContentVideo { video, caption, is_secret, is_pinned })
    }

    proof fn round_trip(&self, at: Seq<char>) {
        reveal(<PushMessageContentVideo as Wire>::wire);
        reveal(<PushMessageContentVideo as Wire>::parse);
        reveal_strlit("@type");
        reveal_strlit("caption");
        reveal_strlit("isPinned");
        reveal_strlit("isSecret");
        reveal_strlit("video");
        assert("@type"@.len() == 5 && "@type"@[0] == '@');
        assert("caption"@.len() == 7);
        assert("isPinned"@.len() == 8 && "isPinned"@[2] == 'P');
        assert("isSecret"@.len() == 8 && "isSecret"@[2] == 'S');
        assert("video"@.len() == 5 && "video"@[0] == 'v');
        self.video.round_trip("video"@);
        self.caption.round_trip("caption"@);
        self.is_secret.round_trip("isSecret"@);
        self.is_pinned.round_trip("isPinned"@);
    }
}

impl Tagged for PushMessageContentVideo {
    open spec fn known(tag: Seq<char>) -> bool {
        tag == "pushMessageContentVideo"@
    }

    fn knows(tag: &str) -> (r: bool) {
        same_text(tag, "pushMessageContentVideo")
    }

    proof fn tag_known(&self) {
        reveal(<PushMessageContentVideo as Wire>::wire);
        assert(tag_of(self.wire()) == Some("pushMessageContentVideo"@));
        assert(Self::known("pushMessageContentVideo"@));
    }
}

/// A video note message
#[derive(Debug, Clone, PartialEq)]
pub struct PushMessageContentVideoNote {
    /// Message content; may be null
    pub video_note: Option<VideoNote>,
    /// True, if the message is a pinned message with the specified content
    pub is_pinned: bool,
}

impl Wire for PushMessageContentVideoNote {
    #[verifier::opaque]
    open spec fn wire(&self) -> Doc {
        tagged(
            Map::empty()
                .insert("videoNote"@, self.video_note.wire())
                .insert("isPinned"@, self.is_pinned.wire()),
            "pushMessageContentVideoNote"@,
        )
    }

    #[verifier::opaque]
    open spec fn parse(d: Doc, at: Seq<char>) -> Result<Doc, Fault> {
        match d {
            Doc::Object(m) => {
                let video_note = optional_field::<VideoNote>(m, "videoNote"@);
                let is_pinned = field::<bool>(m, "isPinned"@);
                if video_note is Err {
                    video_note
                } else if is_pinned is Err {
                    is_pinned
                } else {
                    Ok(
                        tagged(
                            Map::empty()
                                .insert("videoNote"@, video_note->Ok_0)
                                .insert("isPinned"@, is_pinned->Ok_0),
                            "pushMessageContentVideoNote"@,
                        ),
                    )
                }
            },
            _ => Err(Fault::TypeMismatch(at)),
        }
    }

    fn encode(&self) -> (j: Json) {
        proof {
            reveal(<PushMessageContentVideoNote as Wire>::wire);
        }
        let mut members: Vec<Member> = Vec::new();
        put(&mut members, "videoNote", self.video_note.encode());
        put(&mut members, "isPinned", self.is_pinned.encode());
        seal(members, "pushMessageContentVideoNote")
    }

    fn decode(j: &Json, at: &str) -> (r: Result<Self, DecodeError>) {
        proof {
            reveal(<PushMessageContentVideoNote as Wire>::wire);
            reveal(<PushMessageContentVideoNote as Wire>::parse);
        }
        let members = members_of(j, at)?;
        let video_note = read_optional::<VideoNote>(members, "videoNote")?;
        let is_pinned = read_field::<bool>(members, "isPinned")?;
        Ok(PushMessageContentVideoNote { video_note, is_pinned })
    }

    proof fn round_trip(&self, at: Seq<char>) {
        reveal(<PushMessageContentVideoNote as Wire>::wire);
        reveal(<PushMessageContentVideoNote as Wire>::parse);
        reveal_strlit("@type");
        reveal_strlit("isPinned");
        reveal_strlit("videoNote");
        assert("@type"@.len() == 5);
        assert("isPinned"@.len() == 8);
        assert("videoNote"@.len() == 9);
        self.video_note.round_trip("videoNote"@);
        self.is_pinned.round_trip("isPinned"@);
    }
}

impl Tagged for PushMessageContentVideoNote {
    open spec fn known(tag: Seq<char>) -> bool {
        tag == "pushMessageContentVideoNote"@
    }

    fn knows(tag: &str) -> (r: bool) {
        same_text(tag, "pushMessageContentVideoNote")
    }

    proof fn tag_known(&self) {
        reveal(<PushMessageContentVideoNote as Wire>::wire);
        assert(tag_of(self.wire()) == Some("pushMessageContentVideoNote"@));
        assert(Self::known("pushMessageContentVideoNote"@));
    }
}

/// A voice note message
#[derive(Debug, Clone, PartialEq)]
pub struct PushMessageContentVoiceNote {
    /// Message content; may be null
    pub voice_note: Option<VoiceNote>,
    /// True, if the message is a pinned message with the specified content
    pub is_pinned: bool,
}

impl Wire for PushMessageContentVoiceNote {
    #[verifier::opaque]
    open spec fn wire(&self) -> Doc {
        tagged(
            Map::empty()
                .insert("voiceNote"@, self.voice_note.wire())
                .insert("isPinned"@, self.is_pinned.wire()),
            "pushMessageContentVoiceNote"@,
        )
    }

    #[verifier::opaque]
    open spec fn parse(d: Doc, at: Seq<char>) -> Result<Doc, Fault> {
        match d {
            Doc::Object(m) => {
                let voice_note = optional_field::<VoiceNote>(m, "voiceNote"@);
                let is_pinned = field::<bool>(m, "isPinned"@);
                if voice_note is Err {
                    voice_note
                } else if is_pinned is Err {
                    is_pinned
                } else {
                    Ok(
                        tagged(
                            Map::empty()
                                .insert("voiceNote"@, voice_note->Ok_0)
                                .insert("isPinned"@, is_pinned->Ok_0),
                            "pushMessageContentVoiceNote"@,
                        ),
                    )
                }
            },
            _ => Err(Fault::TypeMismatch(at)),
        }
    }

    fn encode(&self) -> (j: Json) {
        proof {
            reveal(<PushMessageContentVoiceNote as Wire>::wire);
        }
        let mut members: Vec<Member> = Vec::new();
        put(&mut members, "voiceNote", self.voice_note.encode());
        put(&mut members, "isPinned", self.is_pinned.encode());
        seal(members, "pushMessageContentVoiceNote")
    }

    fn decode(j: &Json, at: &str) -> (r: Result<Self, DecodeError>) {
        proof {
            reveal(<PushMessageContentVoiceNote as Wire>::wire);
            reveal(<PushMessageContentVoiceNote as Wire>::parse);
        }
        let members = members_of(j, at)?;
        let voice_note = read_optional::<VoiceNote>(members, "voiceNote")?;
        let is_pinned = read_field::<bool>(members, "isPinned")?;
        Ok(PushMessageContentVoiceNote { voice_note, is_pinned })
    }

    proof fn round_trip(&self, at: Seq<char>) {
        reveal(<PushMessageContentVoiceNote as Wire>::wire);
        reveal(<PushMessageContentVoiceNote as Wire>::parse);
        reveal_strlit("@type");
        reveal_strlit("isPinned");
        reveal_strlit("voiceNote");
        assert("@type"@.len() == 5);
        assert("isPinned"@.len() == 8);
        assert("voiceNote"@.len() == 9);
        self.voice_note.round_trip("voiceNote"@);
        self.is_pinned.round_trip("isPinned"@);
    }
}

impl Tagged for PushMessageContentVoiceNote {
    open spec fn known(tag: Seq<char>) -> bool {
        tag == "pushMessageContentVoiceNote"@
    }

    fn knows(tag: &str) -> (r: bool) {
        same_text(tag, "pushMessageContentVoiceNote")
    }

    proof fn tag_known(&self) {
        reveal(<PushMessageContentVoiceNote as Wire>::wire);
        assert(tag_of(self.wire()) == Some("pushMessageContentVoiceNote"@));
        assert(Self::known("pushMessageContentVoiceNote"@));
    }
}

/// A newly created basic group
#[derive(Debug, Clone, PartialEq)]
pub struct PushMessageContentBasicGroupChatCreate {}

impl Wire for PushMessageContentBasicGroupChatCreate {
    #[verifier::opaque]
    open spec fn wire(&self) -> Doc {
        tagged(Map::empty(), "pushMessageContentBasicGroupChatCreate"@)
    }

    #[verifier::opaque]
    open spec fn parse(d: Doc, at: Seq<char>) -> Result<Doc, Fault> {
        match d {
            Doc::Object(_) => Ok(tagged(Map::empty(), "pushMessageContentBasicGroupChatCreate"@)),
            _ => Err(Fault::TypeMismatch(at)),
        }
    }

    fn encode(&self) -> (j: Json) {
        proof {
            reveal(<PushMessageContentBasicGroupChatCreate as Wire>::wire);
        }
        seal(Vec::new(), "pushMessageContentBasicGroupChatCreate")
    }

    fn decode(j: &Json, at: &str) -> (r: Result<Self, DecodeError>) {
        proof {
            reveal(<PushMessageContentBasicGroupChatCreate as Wire>::wire);
            reveal(<PushMessageContentBasicGroupChatCreate as Wire>::parse);
        }
        let _ = members_of(j, at)?;
        Ok(PushMessageContentBasicGroupChatCreate {})
    }

    proof fn round_trip(&self, at: Seq<char>) {
        reveal(<PushMessageContentBasicGroupChatCreate as Wire>::wire);
        reveal(<PushMessageContentBasicGroupChatCreate as Wire>::parse);
    }
}

impl Tagged for PushMessageContentBasicGroupChatCreate {
    open spec fn known(tag: Seq<char>) -> bool {
        tag == "pushMessageContentBasicGroupChatCreate"@
    }

    fn knows(tag: &str) -> (r: bool) {
        same_text(tag, "pushMessageContentBasicGroupChatCreate")
    }

    proof fn tag_known(&self) {
        reveal(<PushMessageContentBasicGroupChatCreate as Wire>::wire);
        assert(tag_of(self.wire()) == Some("pushMessageContentBasicGroupChatCreate"@));
        assert(Self::known("pushMessageContentBasicGroupChatCreate"@));
    }
}

/// New chat members were invited to a group
#[derive(Debug, Clone, PartialEq)]
pub struct PushMessageContentChatAddMembers {
    /// Name of the added member
    pub member_name: String,
    /// True, if the current user was added to the group
    pub is_current_user: bool,
    /// True, if the user has returned to the group themself
    pub is_returned: bool,
}

impl Wire for PushMessageContentChatAddMembers {
    #[verifier::opaque]
    open spec fn wire(&self) -> Doc {
        tagged(
            Map::empty()
                .insert("memberName"@, self.member_name.wire())
                .insert("isCurrentUser"@, self.is_current_user.wire())
                .insert("isReturned"@, self.is_returned.wire()),
            "pushMessageContentChatAddMembers"@,
        )
    }

    #[verifier::opaque]
    open spec fn parse(d: Doc, at: Seq<char>) -> Result<Doc, Fault> {
        match d {
            Doc::Object(m) => {
                let member_name = field::<String>(m, "memberName"@);
                let is_current_user = field::<bool>(m, "isCurrentUser"@);
                let is_returned = field::<bool>(m, "isReturned"@);
                if member_name is Err {
                    member_name
                } else if is_current_user is Err {
                    is_current_user
                } else if is_returned is Err {
                    is_returned
                } else {
                    Ok(
                        tagged(
                            Map::empty()
                                .insert("memberName"@, member_name->Ok_0)
                                .insert("isCurrentUser"@, is_current_user->Ok_0)
                                .insert("isReturned"@, is_returned->Ok_0),
                            "pushMessageContentChatAddMembers"@,
                        ),
                    )
                }
            },
            _ => Err(Fault::TypeMismatch(at)),
        }
    }

    fn encode(&self) -> (j: Json) {
        proof {
            reveal(<PushMessageContentChatAddMembers as Wire>::wire);
        }
        let mut members: Vec<Member> = Vec::new();
        put(&mut members, "memberName", self.member_name.encode());
        put(&mut members, "isCurrentUser", self.is_current_user.encode());
        put(&mut members, "isReturned", self.is_returned.encode());
        seal(members, "pushMessageContentChatAddMembers")
    }

    fn decode(j: &Json, at: &str) -> (r: Result<Self, DecodeError>) {
        proof {
            reveal(<PushMessageContentChatAddMembers as Wire>::wire);
            reveal(<PushMessageContentChatAddMembers as Wire>::parse);
        }
        let members = members_of(j, at)?;
        let member_name = read_field::<String>(members, "memberName")?;
        let is_current_user = read_field::<bool>(members, "isCurrentUser")?;
        let is_returned = read_field::<bool>(members, "isReturned")?;
        Ok(PushMessageContentChatAddMembers { member_name, is_current_user, is_returned })
    }

    proof fn round_trip(&self, at: Seq<char>) {
        reveal(<PushMessageContentChatAddMembers as Wire>::wire);
        reveal(<PushMessageContentChatAddMembers as Wire>::parse);
        reveal_strlit("@type");
        reveal_strlit("isCurrentUser");
        reveal_strlit("isReturned");
        reveal_strlit("memberName");
        assert("@type"@.len() == 5);
        assert("isCurrentUser"@.len() == 13);
        assert("isReturned"@.len() == 10 && "isReturned"@[0] == 'i');
        assert("memberName"@.len() == 10 && "memberName"@[0] == 'm');
        self.member_name.round_trip("memberName"@);
        self.is_current_user.round_trip("isCurrentUser"@);
        self.is_returned.round_trip("isReturned"@);
    }
}

impl Tagged for PushMessageContentChatAddMembers {
    open spec fn known(tag: Seq<char>) -> bool {
        tag == "pushMessageContentChatAddMembers"@
    }

    fn knows(tag: &str) -> (r: bool) {
        same_text(tag, "pushMessageContentChatAddMembers")
    }

    proof fn tag_known(&self) {
        reveal(<PushMessageContentChatAddMembers as Wire>::wire);
        assert(tag_of(self.wire()) == Some("pushMessageContentChatAddMembers"@));
        assert(Self::known("pushMessageContentChatAddMembers"@));
    }
}

/// A chat photo was edited
#[derive(Debug, Clone, PartialEq)]
pub struct PushMessageContentChatChangePhoto {}

impl Wire for PushMessageContentChatChangePhoto {
    #[verifier::opaque]
    open spec fn wire(&self) -> Doc {
        tagged(Map::empty(), "pushMessageContentChatChangePhoto"@)
    }

    #[verifier::opaque]
    open spec fn parse(d: Doc, at: Seq<char>) -> Result<Doc, Fault> {
        match d {
            Doc::Object(_) => Ok(tagged(Map::empty(), "pushMessageContentChatChangePhoto"@)),
            _ => Err(Fault::TypeMismatch(at)),
        }
    }

    fn encode(&self) -> (j: Json) {
        proof {
            reveal(<PushMessageContentChatChangePhoto as Wire>::wire);
        }
        seal(Vec::new(), "pushMessageContentChatChangePhoto")
    }

    fn decode(j: &Json, at: &str) -> (r: Result<Self, DecodeError>) {
        proof {
            reveal(<PushMessageContentChatChangePhoto as Wire>::wire);
            reveal(<PushMessageContentChatChangePhoto as Wire>::parse);
        }
        let _ = members_of(j, at)?;
        Ok(PushMessageContentChatChangePhoto {})
    }

    proof fn round_trip(&self, at: Seq<char>) {
        reveal(<PushMessageContentChatChangePhoto as Wire>::wire);
        reveal(<PushMessageContentChatChangePhoto as Wire>::parse);
    }
}

impl Tagged for PushMessageContentChatChangePhoto {
    open spec fn known(tag: Seq<char>) -> bool {
        tag == "pushMessageContentChatChangePhoto"@
    }

    fn knows(tag: &str) -> (r: bool) {
        same_text(tag, "pushMessageContentChatChangePhoto")
    }

    proof fn tag_known(&self) {
        reveal(<PushMessageContentChatChangePhoto as Wire>::wire);
        assert(tag_of(self.wire()) == Some("pushMessageContentChatChangePhoto"@));
        assert(Self::known("pushMessageContentChatChangePhoto"@));
    }
}

/// A chat title was edited
#[derive(Debug, Clone, PartialEq)]
pub struct PushMessageContentChatChangeTitle {
    /// New chat title
    pub title: String,
}

impl Wire for PushMessageContentChatChangeTitle {
    #[verifier::opaque]
    open spec fn wire(&self) -> Doc {
        tagged(
            Map::empty()
                .insert("title"@, self.title.wire()),
            "pushMessageContentChatChangeTitle"@,
        )
    }

    #[verifier::opaque]
    open spec fn parse(d: Doc, at: Seq<char>) -> Result<Doc, Fault> {
        match d {
            Doc::Object(m) => {
                let title = field::<String>(m, "title"@);
                if title is Err {
                    title
                } else {
                    Ok(
                        tagged(
                            Map::empty()
                                .insert("title"@, title->Ok_0),
                            "pushMessageContentChatChangeTitle"@,
                        ),
                    )
                }
            },
            _ => Err(Fault::TypeMismatch(at)),
        }
    }

    fn encode(&self) -> (j: Json) {
        proof {
            reveal(<PushMessageContentChatChangeTitle as Wire>::wire);
        }
        let mut members: Vec<Member> = Vec::new();
        put(&mut members, "title", self.title.encode());
        seal(members, "pushMessageContentChatChangeTitle")
    }

    fn decode(j: &Json, at: &str) -> (r: Result<Self, DecodeError>) {
        proof {
            reveal(<PushMessageContentChatChangeTitle as Wire>::wire);
            reveal(<PushMessageContentChatChangeTitle as Wire>::parse);
        }
        let members = members_of(j, at)?;
        let title = read_field::<String>(members, "title")?;
        Ok(PushMessageContentChatChangeTitle { title })
    }

    proof fn round_trip(&self, at: Seq<char>) {
        reveal(<PushMessageContentChatChangeTitle as Wire>::wire);
        reveal(<PushMessageContentChatChangeTitle as Wire>::parse);
        reveal_strlit("@type");
        reveal_strlit("title");
        assert("@type"@.len() == 5 && "@type"@[0] == '@');
        assert("title"@.len() == 5 && "title"@[0] == 't');
        self.title.round_trip("title"@);
    }
}

impl Tagged for PushMessageContentChatChangeTitle {
    open spec fn known(tag: Seq<char>) -> bool {
        tag == "pushMessageContentChatChangeTitle"@
    }

    fn knows(tag: &str) -> (r: bool) {
        same_text(tag, "pushMessageContentChatChangeTitle")
    }

    proof fn tag_known(&self) {
        reveal(<PushMessageContentChatChangeTitle as Wire>::wire);
        assert(tag_of(self.wire()) == Some("pushMessageContentChatChangeTitle"@));
        assert(Self::known("pushMessageContentChatChangeTitle"@));
    }
}

/// A chat member was deleted
#[derive(Debug, Clone, PartialEq)]
pub struct PushMessageContentChatDeleteMember {
    /// Name of the deleted member
    pub member_name: String,
    /// True, if the current user was deleted from the group
    pub is_current_user: bool,
    /// True, if the user has left the group themself
    pub is_left: bool,
}

impl Wire for PushMessageContentChatDeleteMember {
    #[verifier::opaque]
    open spec fn wire(&self) -> Doc {
        tagged(
            Map::empty()
                .insert("memberName"@, self.member_name.wire())
                .insert("isCurrentUser"@, self.is_current_user.wire())
                .insert("isLeft"@, self.is_left.wire()),
            "pushMessageContentChatDeleteMember"@,
        )
    }

    #[verifier::opaque]
    open spec fn parse(d: Doc, at: Seq<char>) -> Result<Doc, Fault> {
        match d {
            Doc::Object(m) => {
                let member_name = field::<String>(m, "memberName"@);
                let is_current_user = field::<bool>(m, "isCurrentUser"@);
                let is_left = field::<bool>(m, "isLeft"@);
                if member_name is Err {
                    member_name
                } else if is_current_user is Err {
                    is_current_user
                } else if is_left is Err {
                    is_left
                } else {
                    Ok(
                        tagged(
                            Map::empty()
                                .insert("memberName"@, member_name->Ok_0)
                                .insert("isCurrentUser"@, is_current_user->Ok_0)
                                .insert("isLeft"@, is_left->Ok_0),
                            "pushMessageContentChatDeleteMember"@,
                        ),
                    )
                }
            },
            _ => Err(Fault::TypeMismatch(at)),
        }
    }

    fn encode(&self) -> (j: Json) {
        proof {
            reveal(<PushMessageContentChatDeleteMember as Wire>::wire);
        }
        let mut members: Vec<Member> = Vec::new();
        put(&mut members, "memberName", self.member_name.encode());
        put(&mut members, "isCurrentUser", self.is_current_user.encode());
        put(&mut members, "isLeft", self.is_left.encode());
        seal(members, "pushMessageContentChatDeleteMember")
    }

    fn decode(j: &Json, at: &str) -> (r: Result<Self, DecodeError>) {
        proof {
            reveal(<PushMessageContentChatDeleteMember as Wire>::wire);
            reveal(<PushMessageContentChatDeleteMember as Wire>::parse);
        }
        let members = members_of(j, at)?;
        let member_name = read_field::<String>(members, "memberName")?;
        let is_current_user = read_field::<bool>(members, "isCurrentUser")?;
        let is_left = read_field::<bool>(members, "isLeft")?;
        Ok(PushMessageContentChatDeleteMember { member_name, is_current_user, is_left })
    }

    proof fn round_trip(&self, at: Seq<char>) {
        reveal(<PushMessageContentChatDeleteMember as Wire>::wire);
        reveal(<PushMessageContentChatDeleteMember as Wire>::parse);
        reveal_strlit("@type");
        reveal_strlit("isCurrentUser");
        reveal_strlit("isLeft");
        reveal_strlit("memberName");
        assert("@type"@.len() == 5);
        assert("isCurrentUser"@.len() == 13);
        assert("isLeft"@.len() == 6);
        assert("memberName"@.len() == 10);
        self.member_name.round_trip("memberName"@);
        self.is_current_user.round_trip("isCurrentUser"@);
        self.is_left.round_trip("isLeft"@);
    }
}

impl Tagged for PushMessageContentChatDeleteMember {
    open spec fn known(tag: Seq<char>) -> bool {
        tag == "pushMessageContentChatDeleteMember"@
    }

    fn knows(tag: &str) -> (r: bool) {
        same_text(tag, "pushMessageContentChatDeleteMember")
    }

    proof fn tag_known(&self) {
        reveal(<PushMessageContentChatDeleteMember as Wire>::wire);
        assert(tag_of(self.wire()) == Some("pushMessageContentChatDeleteMember"@));
        assert(Self::known("pushMessageContentChatDeleteMember"@));
    }
}

/// A new member joined the chat by invite link
#[derive(Debug, Clone, PartialEq)]
pub struct PushMessageContentChatJoinByLink {}

impl Wire for PushMessageContentChatJoinByLink {
    #[verifier::opaque]
    open spec fn wire(&self) -> Doc {
        tagged(Map::empty(), "pushMessageContentChatJoinByLink"@)
    }

    #[verifier::opaque]
    open spec fn parse(d: Doc, at: Seq<char>) -> Result<Doc, Fault> {
        match d {
            Doc::Object(_) => Ok(tagged(Map::empty(), "pushMessageContentChatJoinByLink"@)),
            _ => Err(Fault::TypeMismatch(at)),
        }
    }

    fn encode(&self) -> (j: Json) {
        proof {
            reveal(<PushMessageContentChatJoinByLink as Wire>::wire);
        }
        seal(Vec::new(), "pushMessageContentChatJoinByLink")
    }

    fn decode(j: &Json, at: &str) -> (r: Result<Self, DecodeError>) {
        proof {
            reveal(<PushMessageContentChatJoinByLink as Wire>::wire);
            reveal(<PushMessageContentChatJoinByLink as Wire>::parse);
        }
        let _ = members_of(j, at)?;
        Ok(PushMessageContentChatJoinByLink {})
    }

    proof fn round_trip(&self, at: Seq<char>) {
        reveal(<PushMessageContentChatJoinByLink as Wire>::wire);
        reveal(<PushMessageContentChatJoinByLink as Wire>::parse);
    }
}

impl Tagged for PushMessageContentChatJoinByLink {
    open spec fn known(tag: Seq<char>) -> bool {
        tag == "pushMessageContentChatJoinByLink"@
    }

    fn knows(tag: &str) -> (r: bool) {
        same_text(tag, "pushMessageContentChatJoinByLink")
    }

    proof fn tag_known(&self) {
        reveal(<PushMessageContentChatJoinByLink as Wire>::wire);
        assert(tag_of(self.wire()) == Some("pushMessageContentChatJoinByLink"@));
        assert(Self::known("pushMessageContentChatJoinByLink"@));
    }
}

/// A forwarded messages
#[derive(Debug, Clone, PartialEq)]
pub struct PushMessageContentMessageForwards {
    /// Number of forwarded messages
    pub total_count: i32,
}

impl Wire for PushMessageContentMessageForwards {
    #[verifier::opaque]
    open spec fn wire(&self) -> Doc {
        tagged(
            Map::empty()
                .insert("totalCount"@, self.total_count.wire()),
            "pushMessageContentMessageForwards"@,
        )
    }

    #[verifier::opaque]
    open spec fn parse(d: Doc, at: Seq<char>) -> Result<Doc, Fault> {
        match d {
            Doc::Object(m) => {
                let total_count = field::<i32>(m, "totalCount"@);
                if total_count is Err {
                    total_count
                } else {
                    Ok(
                        tagged(
                            Map::empty()
                                .insert("totalCount"@, total_count->Ok_0),
                            "pushMessageContentMessageForwards"@,
                        ),
                    )
                }
            },
            _ => Err(Fault::TypeMismatch(at)),
        }
    }

    fn encode(&self) -> (j: Json) {
        proof {
            reveal(<PushMessageContentMessageForwards as Wire>::wire);
        }
        let mut members: Vec<Member> = Vec::new();
        put(&mut members, "totalCount", self.total_count.encode());
        seal(members, "pushMessageContentMessageForwards")
    }

    fn decode(j: &Json, at: &str) -> (r: Result<Self, DecodeError>) {
        proof {
            reveal(<PushMessageContentMessageForwards as Wire>::wire);
            reveal(<PushMessageContentMessageForwards as Wire>::parse);
        }
        let members = members_of(j, at)?;
        let total_count = read_field::<i32>(members, "totalCount")?;
        Ok(PushMessageContentMessageForwards { total_count })
    }

    proof fn round_trip(&self, at: Seq<char>) {
        reveal(<PushMessageContentMessageForwards as Wire>::wire);
        reveal(<PushMessageContentMessageForwards as Wire>::parse);
        reveal_strlit("@type");
        reveal_strlit("totalCount");
        assert("@type"@.len() == 5);
        assert("totalCount"@.len() == 10);
        self.total_count.round_trip("totalCount"@);
    }
}

impl Tagged for PushMessageContentMessageForwards {
    open spec fn known(tag: Seq<char>) -> bool {
        tag == "pushMessageContentMessageForwards"@
    }

    fn knows(tag: &str) -> (r: bool) {
        same_text(tag, "pushMessageContentMessageForwards")
    }

    proof fn tag_known(&self) {
        reveal(<PushMessageContentMessageForwards as Wire>::wire);
        assert(tag_of(self.wire()) == Some("pushMessageContentMessageForwards"@));
        assert(Self::known("pushMessageContentMessageForwards"@));
    }
}

/// A media album
#[derive(Debug, Clone, PartialEq)]
pub struct PushMessageContentMediaAlbum {
    /// Number of messages in the album
    pub total_count: i32,
    /// True, if the album has at least one photo
    pub has_photos: bool,
    /// True, if the album has at least one video
    pub has_videos: bool,
}

impl Wire for PushMessageContentMediaAlbum {
    #[verifier::opaque]
    open spec fn wire(&self) -> Doc {
        tagged(
            Map::empty()
                .insert("totalCount"@, self.total_count.wire())
                .insert("hasPhotos"@, self.has_photos.wire())
                .insert("hasVideos"@, self.has_videos.wire()),
            "pushMessageContentMediaAlbum"@,
        )
    }

    #[verifier::opaque]
    open spec fn parse(d: Doc, at: Seq<char>) -> Result<Doc, Fault> {
        match d {
            Doc::Object(m) => {
                let total_count = field::<i32>(m, "totalCount"@);
                let has_photos = field::<bool>(m, "hasPhotos"@);
                let has_videos = field::<bool>(m, "hasVideos"@);
                if total_count is Err {
                    total_count
                } else if has_photos is Err {
                    has_photos
                } else if has_videos is Err {
                    has_videos
                } else {
                    Ok(
                        tagged(
                            Map::empty()
                                .insert("totalCount"@, total_count->Ok_0)
                                .insert("hasPhotos"@, has_photos->Ok_0)
                                .insert("hasVideos"@, has_videos->Ok_0),
                            "pushMessageContentMediaAlbum"@,
                        ),
                    )
                }
            },
            _ => Err(Fault::TypeMismatch(at)),
        }
    }

    fn encode(&self) -> (j: Json) {
        proof {
            reveal(<PushMessageContentMediaAlbum as Wire>::wire);
        }
        let mut members: Vec<Member> = Vec::new();
        put(&mut members, "totalCount", self.total_count.encode());
        put(&mut members, "hasPhotos", self.has_photos.encode());
        put(&mut members, "hasVideos", self.has_videos.encode());
        seal(members, "pushMessageContentMediaAlbum")
    }

    fn decode(j: &Json, at: &str) -> (r: Result<Self, DecodeError>) {
        proof {
            reveal(<PushMessageContentMediaAlbum as Wire>::wire);
            reveal(<PushMessageContentMediaAlbum as Wire>::parse);
        }
        let members = members_of(j, at)?;
        let total_count = read_field::<i32>(members, "totalCount")?;
        let has_photos = read_field::<bool>(members, "hasPhotos")?;
        let has_videos = read_field::<bool>(members, "hasVideos")?;
        Ok(PushMessageContentMediaAlbum { total_count, has_photos, has_videos })
    }

    proof fn round_trip(&self, at: Seq<char>) {
        reveal(<PushMessageContentMediaAlbum as Wire>::wire);
        reveal(<PushMessageContentMediaAlbum as Wire>::parse);
        reveal_strlit("@type");
        reveal_strlit("hasPhotos");
        reveal_strlit("hasVideos");
        reveal_strlit("totalCount");
        assert("@type"@.len() == 5);
        assert("hasPhotos"@.len() == 9 && "hasPhotos"@[3] == 'P');
        assert("hasVideos"@.len() == 9 && "hasVideos"@[3] == 'V');
        assert("totalCount"@.len() == 10);
        self.total_count.round_trip("totalCount"@);
        self.has_photos.round_trip("hasPhotos"@);
        self.has_videos.round_trip("hasVideos"@);
    }
}

impl Tagged for PushMessageContentMediaAlbum {
    open spec fn known(tag: Seq<char>) -> bool {
        tag == "pushMessageContentMediaAlbum"@
    }

    fn knows(tag: &str) -> (r: bool) {
        same_text(tag, "pushMessageContentMediaAlbum")
    }

    proof fn tag_known(&self) {
        reveal(<PushMessageContentMediaAlbum as Wire>::wire);
        assert(tag_of(self.wire()) == Some("pushMessageContentMediaAlbum"@));
        assert(Self::known("pushMessageContentMediaAlbum"@));
    }
}

/// Contains content of a push message notification
#[derive(Debug, Clone, PartialEq)]
pub enum PushMessageContent {
    PushMessageContentHidden(PushMessageContentHidden),
    PushMessageContentAnimation(PushMessageContentAnimation),
    PushMessageContentAudio(PushMessageContentAudio),
    PushMessageContentContact(PushMessageContentContact),
    PushMessageContentContactRegistered(PushMessageContentContactRegistered),
    PushMessageContentDocument(PushMessageContentDocument),
    PushMessageContentGame(PushMessageContentGame),
    PushMessageContentGameScore(PushMessageContentGameScore),
    PushMessageContentInvoice(PushMessageContentInvoice),
    PushMessageContentLocation(PushMessageContentLocation),
    PushMessageContentPhoto(PushMessageContentPhoto),
    PushMessageContentPoll(PushMessageContentPoll),
    PushMessageContentScreenshotTaken(PushMessageContentScreenshotTaken),
    PushMessageContentSticker(PushMessageContentSticker),
    PushMessageContentText(PushMessageContentText),
    PushMessageContentVideo(PushMessageContentVideo),
    PushMessageContentVideoNote(PushMessageContentVideoNote),
    PushMessageContentVoiceNote(PushMessageContentVoiceNote),
    PushMessageContentBasicGroupChatCreate(PushMessageContentBasicGroupChatCreate),
    PushMessageContentChatAddMembers(PushMessageContentChatAddMembers),
    PushMessageContentChatChangePhoto(PushMessageContentChatChangePhoto),
    PushMessageContentChatChangeTitle(PushMessageContentChatChangeTitle),
    PushMessageContentChatDeleteMember(PushMessageContentChatDeleteMember),
    PushMessageContentChatJoinByLink(PushMessageContentChatJoinByLink),
    PushMessageContentMessageForwards(PushMessageContentMessageForwards),
    PushMessageContentMediaAlbum(PushMessageContentMediaAlbum),
}

impl Wire for PushMessageContent {
    #[verifier::opaque]
    open spec fn wire(&self) -> Doc {
        match self {
            Self::PushMessageContentHidden(p) => p.wire(),
            Self::PushMessageContentAnimation(p) => p.wire(),
            Self::PushMessageContentAudio(p) => p.wire(),
            Self::PushMessageContentContact(p) => p.wire(),
            Self::PushMessageContentContactRegistered(p) => p.wire(),
            Self::PushMessageContentDocument(p) => p.wire(),
            Self::PushMessageContentGame(p) => p.wire(),
            Self::PushMessageContentGameScore(p) => p.wire(),
            Self::PushMessageContentInvoice(p) => p.wire(),
            Self::PushMessageContentLocation(p) => p.wire(),
            Self::PushMessageContentPhoto(p) => p.wire(),
            Self::PushMessageContentPoll(p) => p.wire(),
            Self::PushMessageContentScreenshotTaken(p) => p.wire(),
            Self::PushMessageContentSticker(p) => p.wire(),
            Self::PushMessageContentText(p) => p.wire(),
            Self::PushMessageContentVideo(p) => p.wire(),
            Self::PushMessageContentVideoNote(p) => p.wire(),
            Self::PushMessageContentVoiceNote(p) => p.wire(),
            Self::PushMessageContentBasicGroupChatCreate(p) => p.wire(),
            Self::PushMessageContentChatAddMembers(p) => p.wire(),
            Self::PushMessageContentChatChangePhoto(p) => p.wire(),
            Self::PushMessageContentChatChangeTitle(p) => p.wire(),
            Self::PushMessageContentChatDeleteMember(p) => p.wire(),
            Self::PushMessageContentChatJoinByLink(p) => p.wire(),
            Self::PushMessageContentMessageForwards(p) => p.wire(),
            Self::PushMessageContentMediaAlbum(p) => p.wire(),
        }
    }

    #[verifier::opaque]
    open spec fn parse(d: Doc, at: Seq<char>) -> Result<Doc, Fault> {
        match d {
            Doc::Object(_) => match tag_of(d) {
                Some(t) => if t == "pushMessageContentHidden"@ {
                    PushMessageContentHidden::parse(d, at)
                } else if t == "pushMessageContentAnimation"@ {
                    PushMessageContentAnimation::parse(d, at)
                } else if t == "pushMessageContentAudio"@ {
                    PushMessageContentAudio::parse(d, at)
                } else if t == "pushMessageContentContact"@ {
                    PushMessageContentContact::parse(d, at)
                } else if t == "pushMessageContentContactRegistered"@ {
                    PushMessageContentContactRegistered::parse(d, at)
                } else if t == "pushMessageContentDocument"@ {
                    PushMessageContentDocument::parse(d, at)
                } else if t == "pushMessageContentGame"@ {
                    PushMessageContentGame::parse(d, at)
                } else if t == "pushMessageContentGameScore"@ {
                    PushMessageContentGameScore::parse(d, at)
                } else if t == "pushMessageContentInvoice"@ {
                    PushMessageContentInvoice::parse(d, at)
                } else if t == "pushMessageContentLocation"@ {
                    PushMessageContentLocation::parse(d, at)
                } else if t == "pushMessageContentPhoto"@ {
                    PushMessageContentPhoto::parse(d, at)
                } else if t == "pushMessageContentPoll"@ {
                    PushMessageContentPoll::parse(d, at)
                } else if t == "pushMessageContentScreenshotTaken"@ {
                    PushMessageContentScreenshotTaken::parse(d, at)
                } else if t == "pushMessageContentSticker"@ {
                    PushMessageContentSticker::parse(d, at)
                } else if t == "pushMessageContentText"@ {
                    PushMessageContentText::parse(d, at)
                } else if t == "pushMessageContentVideo"@ {
                    PushMessageContentVideo::parse(d, at)
                } else if t == "pushMessageContentVideoNote"@ {
                    PushMessageContentVideoNote::parse(d, at)
                } else if t == "pushMessageContentVoiceNote"@ {
                    PushMessageContentVoiceNote::parse(d, at)
                } else if t == "pushMessageContentBasicGroupChatCreate"@ {
                    PushMessageContentBasicGroupChatCreate::parse(d, at)
                } else if t == "pushMessageContentChatAddMembers"@ {
                    PushMessageContentChatAddMembers::parse(d, at)
                } else if t == "pushMessageContentChatChangePhoto"@ {
                    PushMessageContentChatChangePhoto::parse(d, at)
                } else if t == "pushMessageContentChatChangeTitle"@ {
                    PushMessageContentChatChangeTitle::parse(d, at)
                } else if t == "pushMessageContentChatDeleteMember"@ {
                    PushMessageContentChatDeleteMember::parse(d, at)
                } else if t == "pushMessageContentChatJoinByLink"@ {
                    PushMessageContentChatJoinByLink::parse(d, at)
                } else if t == "pushMessageContentMessageForwards"@ {
                    PushMessageContentMessageForwards::parse(d, at)
                } else if t == "pushMessageContentMediaAlbum"@ {
                    PushMessageContentMediaAlbum::parse(d, at)
                } else {
                    Err(Fault::UnknownVariant(t))
                },
                None => Err(Fault::MissingDiscriminator),
            },
            _ => Err(Fault::TypeMismatch(at)),
        }
    }

    fn encode(&self) -> (j: Json) {
        proof {
            reveal(<PushMessageContent as Wire>::wire);
        }
        match self {
            Self::PushMessageContentHidden(p) => p.encode(),
            Self::PushMessageContentAnimation(p) => p.encode(),
            Self::PushMessageContentAudio(p) => p.encode(),
            Self::PushMessageContentContact(p) => p.encode(),
            Self::PushMessageContentContactRegistered(p) => p.encode(),
            Self::PushMessageContentDocument(p) => p.encode(),
            Self::PushMessageContentGame(p) => p.encode(),
            Self::PushMessageContentGameScore(p) => p.encode(),
            Self::PushMessageContentInvoice(p) => p.encode(),
            Self::PushMessageContentLocation(p) => p.encode(),
            Self::PushMessageContentPhoto(p) => p.encode(),
            Self::PushMessageContentPoll(p) => p.encode(),
            Self::PushMessageContentScreenshotTaken(p) => p.encode(),
            Self::PushMessageContentSticker(p) => p.encode(),
            Self::PushMessageContentText(p) => p.encode(),
            Self::PushMessageContentVideo(p) => p.encode(),
            Self::PushMessageContentVideoNote(p) => p.encode(),
            Self::PushMessageContentVoiceNote(p) => p.encode(),
            Self::PushMessageContentBasicGroupChatCreate(p) => p.encode(),
            Self::PushMessageContentChatAddMembers(p) => p.encode(),
            Self::PushMessageContentChatChangePhoto(p) => p.encode(),
            Self::PushMessageContentChatChangeTitle(p) => p.encode(),
            Self::PushMessageContentChatDeleteMember(p) => p.encode(),
            Self::PushMessageContentChatJoinByLink(p) => p.encode(),
            Self::PushMessageContentMessageForwards(p) => p.encode(),
            Self::PushMessageContentMediaAlbum(p) => p.encode(),
        }
    }

    fn decode(j: &Json, at: &str) -> (r: Result<Self, DecodeError>) {
        proof {
            reveal(<PushMessageContent as Wire>::wire);
            reveal(<PushMessageContent as Wire>::parse);
        }
        let members = members_of(j, at)?;
        let tag = discriminator(members)?;
        if same_text(tag, "pushMessageContentHidden") {
            Ok(Self::PushMessageContentHidden(PushMessageContentHidden::decode(j, at)?))
        } else if same_text(tag, "pushMessageContentAnimation") {
            Ok(Self::PushMessageContentAnimation(PushMessageContentAnimation::decode(j, at)?))
        } else if same_text(tag, "pushMessageContentAudio") {
            Ok(Self::PushMessageContentAudio(PushMessageContentAudio::decode(j, at)?))
        } else if same_text(tag, "pushMessageContentContact") {
            Ok(Self::PushMessageContentContact(PushMessageContentContact::decode(j, at)?))
        } else if same_text(tag, "pushMessageContentContactRegistered") {
            Ok(
                Self::PushMessageContentContactRegistered(
                    PushMessageContentContactRegistered::decode(j, at)?,
                ),
            )
        } else if same_text(tag, "pushMessageContentDocument") {
            Ok(Self::PushMessageContentDocument(PushMessageContentDocument::decode(j, at)?))
        } else if same_text(tag, "pushMessageContentGame") {
            Ok(Self::PushMessageContentGame(PushMessageContentGame::decode(j, at)?))
        } else if same_text(tag, "pushMessageContentGameScore") {
            Ok(Self::PushMessageContentGameScore(PushMessageContentGameScore::decode(j, at)?))
        } else if same_text(tag, "pushMessageContentInvoice") {
            Ok(Self::PushMessageContentInvoice(PushMessageContentInvoice::decode(j, at)?))
        } else if same_text(tag, "pushMessageContentLocation") {
            Ok(Self::PushMessageContentLocation(PushMessageContentLocation::decode(j, at)?))
        } else if same_text(tag, "pushMessageContentPhoto") {
            Ok(Self::PushMessageContentPhoto(PushMessageContentPhoto::decode(j, at)?))
        } else if same_text(tag, "pushMessageContentPoll") {
            Ok(Self::PushMessageContentPoll(PushMessageContentPoll::decode(j, at)?))
        } else if same_text(tag, "pushMessageContentScreenshotTaken") {
            Ok(
                Self::PushMessageContentScreenshotTaken(
                    PushMessageContentScreenshotTaken::decode(j, at)?,
                ),
            )
        } else if same_text(tag, "pushMessageContentSticker") {
            Ok(Self::PushMessageContentSticker(PushMessageContentSticker::decode(j, at)?))
        } else if same_text(tag, "pushMessageContentText") {
            Ok(Self::PushMessageContentText(PushMessageContentText::decode(j, at)?))
        } else if same_text(tag, "pushMessageContentVideo") {
            Ok(Self::PushMessageContentVideo(PushMessageContentVideo::decode(j, at)?))
        } else if same_text(tag, "pushMessageContentVideoNote") {
            Ok(Self::PushMessageContentVideoNote(PushMessageContentVideoNote::decode(j, at)?))
        } else if same_text(tag, "pushMessageContentVoiceNote") {
            Ok(Self::PushMessageContentVoiceNote(PushMessageContentVoiceNote::decode(j, at)?))
        } else if same_text(tag, "pushMessageContentBasicGroupChatCreate") {
            Ok(
                Self::PushMessageContentBasicGroupChatCreate(
                    PushMessageContentBasicGroupChatCreate::decode(j, at)?,
                ),
            )
        } else if same_text(tag, "pushMessageContentChatAddMembers") {
            Ok(
                Self::PushMessageContentChatAddMembers(
                    PushMessageContentChatAddMembers::decode(j, at)?,
                ),
            )
        } else if same_text(tag, "pushMessageContentChatChangePhoto") {
            Ok(
                Self::PushMessageContentChatChangePhoto(
                    PushMessageContentChatChangePhoto::decode(j, at)?,
                ),
            )
        } else if same_text(tag, "pushMessageContentChatChangeTitle") {
            Ok(
                Self::PushMessageContentChatChangeTitle(
                    PushMessageContentChatChangeTitle::decode(j, at)?,
                ),
            )
        } else if same_text(tag, "pushMessageContentChatDeleteMember") {
            Ok(
                Self::PushMessageContentChatDeleteMember(
                    PushMessageContentChatDeleteMember::decode(j, at)?,
                ),
            )
        } else if same_text(tag, "pushMessageContentChatJoinByLink") {
            Ok(
                Self::PushMessageContentChatJoinByLink(
                    PushMessageContentChatJoinByLink::decode(j, at)?,
                ),
            )
        } else if same_text(tag, "pushMessageContentMessageForwards") {
            Ok(
                Self::PushMessageContentMessageForwards(
                    PushMessageContentMessageForwards::decode(j, at)?,
                ),
            )
        } else if same_text(tag, "pushMessageContentMediaAlbum") {
            Ok(Self::PushMessageContentMediaAlbum(PushMessageContentMediaAlbum::decode(j, at)?))
        } else {
            Err(DecodeError::UnknownVariant(tag.to_owned()))
        }
    }

    proof fn round_trip(&self, at: Seq<char>) {
        reveal(<PushMessageContent as Wire>::wire);
        match self {
            Self::PushMessageContentHidden(p) => {
                p.tag_known();
                Self::selects_push_message_content_hidden(p.wire(), at);
                p.round_trip(at);
            },
            Self::PushMessageContentAnimation(p) => {
                p.tag_known();
                Self::selects_push_message_content_animation(p.wire(), at);
                p.round_trip(at);
            },
            Self::PushMessageContentAudio(p) => {
                p.tag_known();
                Self::selects_push_message_content_audio(p.wire(), at);
                p.round_trip(at);
            },
            Self::PushMessageContentContact(p) => {
                p.tag_known();
                Self::selects_push_message_content_contact(p.wire(), at);
                p.round_trip(at);
            },
            Self::PushMessageContentContactRegistered(p) => {
                p.tag_known();
                Self::selects_push_message_content_contact_registered(p.wire(), at);
                p.round_trip(at);
            },
            Self::PushMessageContentDocument(p) => {
                p.tag_known();
                Self::selects_push_message_content_document(p.wire(), at);
                p.round_trip(at);
            },
            Self::PushMessageContentGame(p) => {
                p.tag_known();
                Self::selects_push_message_content_game(p.wire(), at);
                p.round_trip(at);
            },
            Self::PushMessageContentGameScore(p) => {
                p.tag_known();
                Self::selects_push_message_content_game_score(p.wire(), at);
                p.round_trip(at);
            },
            Self::PushMessageContentInvoice(p) => {
                p.tag_known();
                Self::selects_push_message_content_invoice(p.wire(), at);
                p.round_trip(at);
            },
            Self::PushMessageContentLocation(p) => {
                p.tag_known();
                Self::selects_push_message_content_location(p.wire(), at);
                p.round_trip(at);
            },
            Self::PushMessageContentPhoto(p) => {
                p.tag_known();
                Self::selects_push_message_content_photo(p.wire(), at);
                p.round_trip(at);
            },
            Self::PushMessageContentPoll(p) => {
                p.tag_known();
                Self::selects_push_message_content_poll(p.wire(), at);
                p.round_trip(at);
            },
            Self::PushMessageContentScreenshotTaken(p) => {
                p.tag_known();
                Self::selects_push_message_content_screenshot_taken(p.wire(), at);
                p.round_trip(at);
            },
            Self::PushMessageContentSticker(p) => {
                p.tag_known();
                Self::selects_push_message_content_sticker(p.wire(), at);
                p.round_trip(at);
            },
            Self::PushMessageContentText(p) => {
                p.tag_known();
                Self::selects_push_message_content_text(p.wire(), at);
                p.round_trip(at);
            },
            Self::PushMessageContentVideo(p) => {
                p.tag_known();
                Self::selects_push_message_content_video(p.wire(), at);
                p.round_trip(at);
            },
            Self::PushMessageContentVideoNote(p) => {
                p.tag_known();
                Self::selects_push_message_content_video_note(p.wire(), at);
                p.round_trip(at);
            },
            Self::PushMessageContentVoiceNote(p) => {
                p.tag_known();
                Self::selects_push_message_content_voice_note(p.wire(), at);
                p.round_trip(at);
            },
            Self::PushMessageContentBasicGroupChatCreate(p) => {
                p.tag_known();
                Self::selects_push_message_content_basic_group_chat_create(p.wire(), at);
                p.round_trip(at);
            },
            Self::PushMessageContentChatAddMembers(p) => {
                p.tag_known();
                Self::selects_push_message_content_chat_add_members(p.wire(), at);
                p.round_trip(at);
            },
            Self::PushMessageContentChatChangePhoto(p) => {
                p.tag_known();
                Self::selects_push_message_content_chat_change_photo(p.wire(), at);
                p.round_trip(at);
            },
            Self::PushMessageContentChatChangeTitle(p) => {
                p.tag_known();
                Self::selects_push_message_content_chat_change_title(p.wire(), at);
                p.round_trip(at);
            },
            Self::PushMessageContentChatDeleteMember(p) => {
                p.tag_known();
                Self::selects_push_message_content_chat_delete_member(p.wire(), at);
                p.round_trip(at);
            },
            Self::PushMessageContentChatJoinByLink(p) => {
                p.tag_known();
                Self::selects_push_message_content_chat_join_by_link(p.wire(), at);
                p.round_trip(at);
            },
            Self::PushMessageContentMessageForwards(p) => {
                p.tag_known();
                Self::selects_push_message_content_message_forwards(p.wire(), at);
                p.round_trip(at);
            },
            Self::PushMessageContentMediaAlbum(p) => {
                p.tag_known();
                Self::selects_push_message_content_media_album(p.wire(), at);
                p.round_trip(at);
            },
        }
    }
}

impl Tagged for PushMessageContent {
    open spec fn known(tag: Seq<char>) -> bool {
        ||| tag == "pushMessageContentHidden"@
        ||| tag == "pushMessageContentAnimation"@
        ||| tag == "pushMessageContentAudio"@
        ||| tag == "pushMessageContentContact"@
        ||| tag == "pushMessageContentContactRegistered"@
        ||| tag == "pushMessageContentDocument"@
        ||| tag == "pushMessageContentGame"@
        ||| tag == "pushMessageContentGameScore"@
        ||| tag == "pushMessageContentInvoice"@
        ||| tag == "pushMessageContentLocation"@
        ||| tag == "pushMessageContentPhoto"@
        ||| tag == "pushMessageContentPoll"@
        ||| tag == "pushMessageContentScreenshotTaken"@
        ||| tag == "pushMessageContentSticker"@
        ||| tag == "pushMessageContentText"@
        ||| tag == "pushMessageContentVideo"@
        ||| tag == "pushMessageContentVideoNote"@
        ||| tag == "pushMessageContentVoiceNote"@
        ||| tag == "pushMessageContentBasicGroupChatCreate"@
        ||| tag == "pushMessageContentChatAddMembers"@
        ||| tag == "pushMessageContentChatChangePhoto"@
        ||| tag == "pushMessageContentChatChangeTitle"@
        ||| tag == "pushMessageContentChatDeleteMember"@
        ||| tag == "pushMessageContentChatJoinByLink"@
        ||| tag == "pushMessageContentMessageForwards"@
        ||| tag == "pushMessageContentMediaAlbum"@
    }

    fn knows(tag: &str) -> (r: bool) {
        same_text(tag, "pushMessageContentHidden")
            || same_text(tag, "pushMessageContentAnimation")
            || same_text(tag, "pushMessageContentAudio")
            || same_text(tag, "pushMessageContentContact")
            || same_text(tag, "pushMessageContentContactRegistered")
            || same_text(tag, "pushMessageContentDocument")
            || same_text(tag, "pushMessageContentGame")
            || same_text(tag, "pushMessageContentGameScore")
            || same_text(tag, "pushMessageContentInvoice")
            || same_text(tag, "pushMessageContentLocation")
            || same_text(tag, "pushMessageContentPhoto")
            || same_text(tag, "pushMessageContentPoll")
            || same_text(tag, "pushMessageContentScreenshotTaken")
            || same_text(tag, "pushMessageContentSticker")
            || same_text(tag, "pushMessageContentText")
            || same_text(tag, "pushMessageContentVideo")
            || same_text(tag, "pushMessageContentVideoNote")
            || same_text(tag, "pushMessageContentVoiceNote")
            || same_text(tag, "pushMessageContentBasicGroupChatCreate")
            || same_text(tag, "pushMessageContentChatAddMembers")
            || same_text(tag, "pushMessageContentChatChangePhoto")
            || same_text(tag, "pushMessageContentChatChangeTitle")
            || same_text(tag, "pushMessageContentChatDeleteMember")
            || same_text(tag, "pushMessageContentChatJoinByLink")
            || same_text(tag, "pushMessageContentMessageForwards")
            || same_text(tag, "pushMessageContentMediaAlbum")
    }

    proof fn tag_known(&self) {
        reveal(<PushMessageContent as Wire>::wire);
        match self {
            Self::PushMessageContentHidden(p) => p.tag_known(),
            Self::PushMessageContentAnimation(p) => p.tag_known(),
            Self::PushMessageContentAudio(p) => p.tag_known(),
            Self::PushMessageContentContact(p) => p.tag_known(),
            Self::PushMessageContentContactRegistered(p) => p.tag_known(),
            Self::PushMessageContentDocument(p) => p.tag_known(),
            Self::PushMessageContentGame(p) => p.tag_known(),
            Self::PushMessageContentGameScore(p) => p.tag_known(),
            Self::PushMessageContentInvoice(p) => p.tag_known(),
            Self::PushMessageContentLocation(p) => p.tag_known(),
            Self::PushMessageContentPhoto(p) => p.tag_known(),
            Self::PushMessageContentPoll(p) => p.tag_known(),
            Self::PushMessageContentScreenshotTaken(p) => p.tag_known(),
            Self::PushMessageContentSticker(p) => p.tag_known(),
            Self::PushMessageContentText(p) => p.tag_known(),
            Self::PushMessageContentVideo(p) => p.tag_known(),
            Self::PushMessageContentVideoNote(p) => p.tag_known(),
            Self::PushMessageContentVoiceNote(p) => p.tag_known(),
            Self::PushMessageContentBasicGroupChatCreate(p) => p.tag_known(),
            Self::PushMessageContentChatAddMembers(p) => p.tag_known(),
            Self::PushMessageContentChatChangePhoto(p) => p.tag_known(),
            Self::PushMessageContentChatChangeTitle(p) => p.tag_known(),
            Self::PushMessageContentChatDeleteMember(p) => p.tag_known(),
            Self::PushMessageContentChatJoinByLink(p) => p.tag_known(),
            Self::PushMessageContentMessageForwards(p) => p.tag_known(),
            Self::PushMessageContentMediaAlbum(p) => p.tag_known(),
        }
    }
}

impl Union for PushMessageContent {
    proof fn unknown_rejected(d: Doc, at: Seq<char>) {
        reveal(<PushMessageContent as Wire>::parse);
    }

    proof fn untagged_rejected(d: Doc, at: Seq<char>) {
        reveal(<PushMessageContent as Wire>::parse);
    }
}

impl PushMessageContent {
    spec fn measured() -> bool {
        &&& "pushMessageContentAnimation"@.len() == 27
        &&& "pushMessageContentAudio"@.len() == 23
        &&& "pushMessageContentBasicGroupChatCreate"@.len() == 38
        &&& "pushMessageContentChatAddMembers"@.len() == 32
        &&& "pushMessageContentChatChangePhoto"@.len() == 33
        &&& "pushMessageContentChatChangeTitle"@.len() == 33
        &&& "pushMessageContentChatDeleteMember"@.len() == 34
        &&& "pushMessageContentChatJoinByLink"@.len() == 32
        &&& "pushMessageContentContact"@.len() == 25
        &&& "pushMessageContentContactRegistered"@.len() == 35
        &&& "pushMessageContentDocument"@.len() == 26
        &&& "pushMessageContentGame"@.len() == 22
        &&& "pushMessageContentGameScore"@.len() == 27
        &&& "pushMessageContentHidden"@.len() == 24
        &&& "pushMessageContentInvoice"@.len() == 25
        &&& "pushMessageContentLocation"@.len() == 26
        &&& "pushMessageContentMediaAlbum"@.len() == 28
        &&& "pushMessageContentMessageForwards"@.len() == 33
        &&& "pushMessageContentPhoto"@.len() == 23
        &&& "pushMessageContentPoll"@.len() == 22
        &&& "pushMessageContentScreenshotTaken"@.len() == 33
        &&& "pushMessageContentSticker"@.len() == 25
        &&& "pushMessageContentText"@.len() == 22
        &&& "pushMessageContentVideo"@.len() == 23
        &&& "pushMessageContentVideoNote"@.len() == 27
        &&& "pushMessageContentVoiceNote"@.len() == 27
    }

    proof fn tags_measured()
        ensures
            Self::measured(),
    {
        reveal_strlit("pushMessageContentAnimation");
        reveal_strlit("pushMessageContentAudio");
        reveal_strlit("pushMessageContentBasicGroupChatCreate");
        reveal_strlit("pushMessageContentChatAddMembers");
        reveal_strlit("pushMessageContentChatChangePhoto");
        reveal_strlit("pushMessageContentChatChangeTitle");
        reveal_strlit("pushMessageContentChatDeleteMember");
        reveal_strlit("pushMessageContentChatJoinByLink");
        reveal_strlit("pushMessageContentContact");
        reveal_strlit("pushMessageContentContactRegistered");
        reveal_strlit("pushMessageContentDocument");
        reveal_strlit("pushMessageContentGame");
        reveal_strlit("pushMessageContentGameScore");
        reveal_strlit("pushMessageContentHidden");
        reveal_strlit("pushMessageContentInvoice");
        reveal_strlit("pushMessageContentLocation");
        reveal_strlit("pushMessageContentMediaAlbum");
        reveal_strlit("pushMessageContentMessageForwards");
        reveal_strlit("pushMessageContentPhoto");
        reveal_strlit("pushMessageContentPoll");
        reveal_strlit("pushMessageContentScreenshotTaken");
        reveal_strlit("pushMessageContentSticker");
        reveal_strlit("pushMessageContentText");
        reveal_strlit("pushMessageContentVideo");
        reveal_strlit("pushMessageContentVideoNote");
        reveal_strlit("pushMessageContentVoiceNote");
    }

    spec fn spelled_22() -> bool {
        &&& "pushMessageContentGame"@[18] == 'G'
        &&& "pushMessageContentPoll"@[18] == 'P'
        &&& "pushMessageContentText"@[18] == 'T'
    }

    /// What tells apart the discriminators of 22 characters.
    proof fn tags_spelled_22()
        ensures
            Self::spelled_22(),
    {
        reveal_strlit("pushMessageContentGame");
        reveal_strlit("pushMessageContentPoll");
        reveal_strlit("pushMessageContentText");
    }

    spec fn spelled_23() -> bool {
        &&& "pushMessageContentAudio"@[18] == 'A'
        &&& "pushMessageContentPhoto"@[18] == 'P'
        &&& "pushMessageContentVideo"@[18] == 'V'
    }

    /// What tells apart the discriminators of 23 characters.
    proof fn tags_spelled_23()
        ensures
            Self::spelled_23(),
    {
        reveal_strlit("pushMessageContentAudio");
        reveal_strlit("pushMessageContentPhoto");
        reveal_strlit("pushMessageContentVideo");
    }

    spec fn spelled_25() -> bool {
        &&& "pushMessageContentContact"@[18] == 'C'
        &&& "pushMessageContentInvoice"@[18] == 'I'
        &&& "pushMessageContentSticker"@[18] == 'S'
    }

    /// What tells apart the discriminators of 25 characters.
    proof fn tags_spelled_25()
        ensures
            Self::spelled_25(),
    {
        reveal_strlit("pushMessageContentContact");
        reveal_strlit("pushMessageContentInvoice");
        reveal_strlit("pushMessageContentSticker");
    }

    spec fn spelled_26() -> bool {
        &&& "pushMessageContentDocument"@[18] == 'D'
        &&& "pushMessageContentLocation"@[18] == 'L'
    }

    /// What tells apart the discriminators of 26 characters.
    proof fn tags_spelled_26()
        ensures
            Self::spelled_26(),
    {
        reveal_strlit("pushMessageContentDocument");
        reveal_strlit("pushMessageContentLocation");
    }

    spec fn spelled_27() -> bool {
        &&& "pushMessageContentAnimation"@[19] == 'n'
        &&& "pushMessageContentGameScore"@[19] == 'a'
        &&& "pushMessageContentVideoNote"@[19] == 'i'
        &&& "pushMessageContentVoiceNote"@[19] == 'o'
    }

    /// What tells apart the discriminators of 27 characters.
    proof fn tags_spelled_27()
        ensures
            Self::spelled_27(),
    {
        reveal_strlit("pushMessageContentAnimation");
        reveal_strlit("pushMessageContentGameScore");
        reveal_strlit("pushMessageContentVideoNote");
        reveal_strlit("pushMessageContentVoiceNote");
    }

    spec fn spelled_32() -> bool {
        &&& "pushMessageContentChatAddMembers"@[22] == 'A'
        &&& "pushMessageContentChatJoinByLink"@[22] == 'J'
    }

    /// What tells apart the discriminators of 32 characters.
    proof fn tags_spelled_32()
        ensures
            Self::spelled_32(),
    {
        reveal_strlit("pushMessageContentChatAddMembers");
        reveal_strlit("pushMessageContentChatJoinByLink");
    }

    spec fn spelled_33() -> bool {
        &&& "pushMessageContentChatChangePhoto"@[30] == 'o'
        &&& "pushMessageContentChatChangeTitle"@[30] == 't'
        &&& "pushMessageContentMessageForwards"@[30] == 'r'
        &&& "pushMessageContentScreenshotTaken"@[30] == 'k'
    }

    /// What tells apart the discriminators of 33 characters.
    proof fn tags_spelled_33()
        ensures
            Self::spelled_33(),
    {
        reveal_strlit("pushMessageContentChatChangePhoto");
        reveal_strlit("pushMessageContentChatChangeTitle");
        reveal_strlit("pushMessageContentMessageForwards");
        reveal_strlit("pushMessageContentScreenshotTaken");
    }

    /// A document tagged `pushMessageContentHidden` decodes as a `PushMessageContentHidden`.
    pub proof fn selects_push_message_content_hidden(d: Doc, at: Seq<char>)
        requires
            tag_of(d) is Some,
            PushMessageContentHidden::known(tag_of(d)->Some_0),
        ensures
            Self::parse(d, at) == PushMessageContentHidden::parse(d, at),
    {
        reveal(<PushMessageContent as Wire>::parse);
        Self::tags_measured();
    }

    /// A document tagged `pushMessageContentAnimation` decodes as a `PushMessageContentAnimation`.
    pub proof fn selects_push_message_content_animation(d: Doc, at: Seq<char>)
        requires
            tag_of(d) is Some,
            PushMessageContentAnimation::known(tag_of(d)->Some_0),
        ensures
            Self::parse(d, at) == PushMessageContentAnimation::parse(d, at),
    {
        reveal(<PushMessageContent as Wire>::parse);
        Self::tags_measured();
        Self::tags_spelled_27();
    }

    /// A document tagged `pushMessageContentAudio` decodes as a `PushMessageContentAudio`.
    pub proof fn selects_push_message_content_audio(d: Doc, at: Seq<char>)
        requires
            tag_of(d) is Some,
            PushMessageContentAudio::known(tag_of(d)->Some_0),
        ensures
            Self::parse(d, at) == PushMessageContentAudio::parse(d, at),
    {
        reveal(<PushMessageContent as Wire>::parse);
        Self::tags_measured();
        Self::tags_spelled_23();
    }

    /// A document tagged `pushMessageContentContact` decodes as a `PushMessageContentContact`.
    pub proof fn selects_push_message_content_contact(d: Doc, at: Seq<char>)
        requires
            tag_of(d) is Some,
            PushMessageContentContact::known(tag_of(d)->Some_0),
        ensures
            Self::parse(d, at) == PushMessageContentContact::parse(d, at),
    {
        reveal(<PushMessageContent as Wire>::parse);
        Self::tags_measured();
        Self::tags_spelled_25();
    }

    /// A document tagged `pushMessageContentContactRegistered` decodes as a
    /// `PushMessageContentContactRegistered`.
    pub proof fn selects_push_message_content_contact_registered(d: Doc, at: Seq<char>)
        requires
            tag_of(d) is Some,
            PushMessageContentContactRegistered::known(tag_of(d)->Some_0),
        ensures
            Self::parse(d, at) == PushMessageContentContactRegistered::parse(d, at),
    {
        reveal(<PushMessageContent as Wire>::parse);
        Self::tags_measured();
    }

    /// A document tagged `pushMessageContentDocument` decodes as a `PushMessageContentDocument`.
    pub proof fn selects_push_message_content_document(d: Doc, at: Seq<char>)
        requires
            tag_of(d) is Some,
            PushMessageContentDocument::known(tag_of(d)->Some_0),
        ensures
            Self::parse(d, at) == PushMessageContentDocument::parse(d, at),
    {
        reveal(<PushMessageContent as Wire>::parse);
        Self::tags_measured();
        Self::tags_spelled_26();
    }

    /// A document tagged `pushMessageContentGame` decodes as a `PushMessageContentGame`.
    pub proof fn selects_push_message_content_game(d: Doc, at: Seq<char>)
        requires
            tag_of(d) is Some,
            PushMessageContentGame::known(tag_of(d)->Some_0),
        ensures
            Self::parse(d, at) == PushMessageContentGame::parse(d, at),
    {
        reveal(<PushMessageContent as Wire>::parse);
        Self::tags_measured();
        Self::tags_spelled_22();
    }

    /// A document tagged `pushMessageContentGameScore` decodes as a `PushMessageContentGameScore`.
    pub proof fn selects_push_message_content_game_score(d: Doc, at: Seq<char>)
        requires
            tag_of(d) is Some,
            PushMessageContentGameScore::known(tag_of(d)->Some_0),
        ensures
            Self::parse(d, at) == PushMessageContentGameScore::parse(d, at),
    {
        reveal(<PushMessageContent as Wire>::parse);
        Self::tags_measured();
        Self::tags_spelled_27();
    }

    /// A document tagged `pushMessageContentInvoice` decodes as a `PushMessageContentInvoice`.
    pub proof fn selects_push_message_content_invoice(d: Doc, at: Seq<char>)
        requires
            tag_of(d) is Some,
            PushMessageContentInvoice::known(tag_of(d)->Some_0),
        ensures
            Self::parse(d, at) == PushMessageContentInvoice::parse(d, at),
    {
        reveal(<PushMessageContent as Wire>::parse);
        Self::tags_measured();
        Self::tags_spelled_25();
    }

    /// A document tagged `pushMessageContentLocation` decodes as a `PushMessageContentLocation`.
    pub proof fn selects_push_message_content_location(d: Doc, at: Seq<char>)
        requires
            tag_of(d) is Some,
            PushMessageContentLocation::known(tag_of(d)->Some_0),
        ensures
            Self::parse(d, at) == PushMessageContentLocation::parse(d, at),
    {
        reveal(<PushMessageContent as Wire>::parse);
        Self::tags_measured();
        Self::tags_spelled_26();
    }

    /// A document tagged `pushMessageContentPhoto` decodes as a `PushMessageContentPhoto`.
    pub proof fn selects_push_message_content_photo(d: Doc, at: Seq<char>)
        requires
            tag_of(d) is Some,
            PushMessageContentPhoto::known(tag_of(d)->Some_0),
        ensures
            Self::parse(d, at) == PushMessageContentPhoto::parse(d, at),
    {
        reveal(<PushMessageContent as Wire>::parse);
        Self::tags_measured();
        Self::tags_spelled_23();
    }

    /// A document tagged `pushMessageContentPoll` decodes as a `PushMessageContentPoll`.
    pub proof fn selects_push_message_content_poll(d: Doc, at: Seq<char>)
        requires
            tag_of(d) is Some,
            PushMessageContentPoll::known(tag_of(d)->Some_0),
        ensures
            Self::parse(d, at) == PushMessageContentPoll::parse(d, at),
    {
        reveal(<PushMessageContent as Wire>::parse);
        Self::tags_measured();
        Self::tags_spelled_22();
    }

    /// A document tagged `pushMessageContentScreenshotTaken` decodes as a
    /// `PushMessageContentScreenshotTaken`.
    pub proof fn selects_push_message_content_screenshot_taken(d: Doc, at: Seq<char>)
        requires
            tag_of(d) is Some,
            PushMessageContentScreenshotTaken::known(tag_of(d)->Some_0),
        ensures
            Self::parse(d, at) == PushMessageContentScreenshotTaken::parse(d, at),
    {
        reveal(<PushMessageContent as Wire>::parse);
        Self::tags_measured();
        Self::tags_spelled_33();
    }

    /// A document tagged `pushMessageContentSticker` decodes as a `PushMessageContentSticker`.
    pub proof fn selects_push_message_content_sticker(d: Doc, at: Seq<char>)
        requires
            tag_of(d) is Some,
            PushMessageContentSticker::known(tag_of(d)->Some_0),
        ensures
            Self::parse(d, at) == PushMessageContentSticker::parse(d, at),
    {
        reveal(<PushMessageContent as Wire>::parse);
        Self::tags_measured();
        Self::tags_spelled_25();
    }

    /// A document tagged `pushMessageContentText` decodes as a `PushMessageContentText`.
    pub proof fn selects_push_message_content_text(d: Doc, at: Seq<char>)
        requires
            tag_of(d) is Some,
            PushMessageContentText::known(tag_of(d)->Some_0),
        ensures
            Self::parse(d, at) == PushMessageContentText::parse(d, at),
    {
        reveal(<PushMessageContent as Wire>::parse);
        Self::tags_measured();
        Self::tags_spelled_22();
    }

    /// A document tagged `pushMessageContentVideo` decodes as a `PushMessageContentVideo`.
    pub proof fn selects_push_message_content_video(d: Doc, at: Seq<char>)
        requires
            tag_of(d) is Some,
            PushMessageContentVideo::known(tag_of(d)->Some_0),
        ensures
            Self::parse(d, at) == PushMessageContentVideo::parse(d, at),
    {
        reveal(<PushMessageContent as Wire>::parse);
        Self::tags_measured();
        Self::tags_spelled_23();
    }

    /// A document tagged `pushMessageContentVideoNote` decodes as a `PushMessageContentVideoNote`.
    pub proof fn selects_push_message_content_video_note(d: Doc, at: Seq<char>)
        requires
            tag_of(d) is Some,
            PushMessageContentVideoNote::known(tag_of(d)->Some_0),
        ensures
            Self::parse(d, at) == PushMessageContentVideoNote::parse(d, at),
    {
        reveal(<PushMessageContent as Wire>::parse);
        Self::tags_measured();
        Self::tags_spelled_27();
    }

    /// A document tagged `pushMessageContentVoiceNote` decodes as a `PushMessageContentVoiceNote`.
    pub proof fn selects_push_message_content_voice_note(d: Doc, at: Seq<char>)
        requires
            tag_of(d) is Some,
            PushMessageContentVoiceNote::known(tag_of(d)->Some_0),
        ensures
            Self::parse(d, at) == PushMessageContentVoiceNote::parse(d, at),
    {
        reveal(<PushMessageContent as Wire>::parse);
        Self::tags_measured();
        Self::tags_spelled_27();
    }

    /// A document tagged `pushMessageContentBasicGroupChatCreate` decodes as a
    /// `PushMessageContentBasicGroupChatCreate`.
    pub proof fn selects_push_message_content_basic_group_chat_create(d: Doc, at: Seq<char>)
        requires
            tag_of(d) is Some,
            PushMessageContentBasicGroupChatCreate::known(tag_of(d)->Some_0),
        ensures
            Self::parse(d, at) == PushMessageContentBasicGroupChatCreate::parse(d, at),
    {
        reveal(<PushMessageContent as Wire>::parse);
        Self::tags_measured();
    }

    /// A document tagged `pushMessageContentChatAddMembers` decodes as a
    /// `PushMessageContentChatAddMembers`.
    pub proof fn selects_push_message_content_chat_add_members(d: Doc, at: Seq<char>)
        requires
            tag_of(d) is Some,
            PushMessageContentChatAddMembers::known(tag_of(d)->Some_0),
        ensures
            Self::parse(d, at) == PushMessageContentChatAddMembers::parse(d, at),
    {
        reveal(<PushMessageContent as Wire>::parse);
        Self::tags_measured();
        Self::tags_spelled_32();
    }

    /// A document tagged `pushMessageContentChatChangePhoto` decodes as a
    /// `PushMessageContentChatChangePhoto`.
    pub proof fn selects_push_message_content_chat_change_photo(d: Doc, at: Seq<char>)
        requires
            tag_of(d) is Some,
            PushMessageContentChatChangePhoto::known(tag_of(d)->Some_0),
        ensures
            Self::parse(d, at) == PushMessageContentChatChangePhoto::parse(d, at),
    {
        reveal(<PushMessageContent as Wire>::parse);
        Self::tags_measured();
        Self::tags_spelled_33();
    }

    /// A document tagged `pushMessageContentChatChangeTitle` decodes as a
    /// `PushMessageContentChatChangeTitle`.
    pub proof fn selects_push_message_content_chat_change_title(d: Doc, at: Seq<char>)
        requires
            tag_of(d) is Some,
            PushMessageContentChatChangeTitle::known(tag_of(d)->Some_0),
        ensures
            Self::parse(d, at) == PushMessageContentChatChangeTitle::parse(d, at),
    {
        reveal(<PushMessageContent as Wire>::parse);
        Self::tags_measured();
        Self::tags_spelled_33();
    }

    /// A document tagged `pushMessageContentChatDeleteMember` decodes as a
    /// `PushMessageContentChatDeleteMember`.
    pub proof fn selects_push_message_content_chat_delete_member(d: Doc, at: Seq<char>)
        requires
            tag_of(d) is Some,
            PushMessageContentChatDeleteMember::known(tag_of(d)->Some_0),
        ensures
            Self::parse(d, at) == PushMessageContentChatDeleteMember::parse(d, at),
    {
        reveal(<PushMessageContent as Wire>::parse);
        Self::tags_measured();
    }

    /// A document tagged `pushMessageContentChatJoinByLink` decodes as a
    /// `PushMessageContentChatJoinByLink`.
    pub proof fn selects_push_message_content_chat_join_by_link(d: Doc, at: Seq<char>)
        requires
            tag_of(d) is Some,
            PushMessageContentChatJoinByLink::known(tag_of(d)->Some_0),
        ensures
            Self::parse(d, at) == PushMessageContentChatJoinByLink::parse(d, at),
    {
        reveal(<PushMessageContent as Wire>::parse);
        Self::tags_measured();
        Self::tags_spelled_32();
    }

    /// A document tagged `pushMessageContentMessageForwards` decodes as a
    /// `PushMessageContentMessageForwards`.
    pub proof fn selects_push_message_content_message_forwards(d: Doc, at: Seq<char>)
        requires
            tag_of(d) is Some,
            PushMessageContentMessageForwards::known(tag_of(d)->Some_0),
        ensures
            Self::parse(d, at) == PushMessageContentMessageForwards::parse(d, at),
    {
        reveal(<PushMessageContent as Wire>::parse);
        Self::tags_measured();
        Self::tags_spelled_33();
    }

    /// A document tagged `pushMessageContentMediaAlbum` decodes as a
    /// `PushMessageContentMediaAlbum`.
    pub proof fn selects_push_message_content_media_album(d: Doc, at: Seq<char>)
        requires
            tag_of(d) is Some,
            PushMessageContentMediaAlbum::known(tag_of(d)->Some_0),
        ensures
            Self::parse(d, at) == PushMessageContentMediaAlbum::parse(d, at),
    {
        reveal(<PushMessageContent as Wire>::parse);
        Self::tags_measured();
    }
}

/// New message was received
#[derive(Debug, Clone, PartialEq)]
pub struct NotificationTypeNewMessage {
    /// The message
    pub message: Message,
}

impl Wire for NotificationTypeNewMessage {
    #[verifier::opaque]
    open spec fn wire(&self) -> Doc {
        tagged(
            Map::empty()
                .insert("message"@, self.message.wire()),
            "notificationTypeNewMessage"@,
        )
    }

    #[verifier::opaque]
    open spec fn parse(d: Doc, at: Seq<char>) -> Result<Doc, Fault> {
        match d {
            Doc::Object(m) => {
                let message = field::<Message>(m, "message"@);
                if message is Err {
                    message
                } else {
                    Ok(
                        tagged(
                            Map::empty()
                                .insert("message"@, message->Ok_0),
                            "notificationTypeNewMessage"@,
                        ),
                    )
                }
            },
            _ => Err(Fault::TypeMismatch(at)),
        }
    }

    fn encode(&self) -> (j: Json) {
        proof {
            reveal(<NotificationTypeNewMessage as Wire>::wire);
        }
        let mut members: Vec<Member> = Vec::new();
        put(&mut members, "message", self.message.encode());
        seal(members, "notificationTypeNewMessage")
    }

    fn decode(j: &Json, at: &str) -> (r: Result<Self, DecodeError>) {
        proof {
            reveal(<NotificationTypeNewMessage as Wire>::wire);
            reveal(<NotificationTypeNewMessage as Wire>::parse);
        }
        let members = members_of(j, at)?;
        let message = read_field::<Message>(members, "message")?;
        Ok(NotificationTypeNewMessage { message })
    }

    proof fn round_trip(&self, at: Seq<char>) {
        reveal(<NotificationTypeNewMessage as Wire>::wire);
        reveal(<NotificationTypeNewMessage as Wire>::parse);
        reveal_strlit("@type");
        reveal_strlit("message");
        assert("@type"@.len() == 5);
        assert("message"@.len() == 7);
        self.message.round_trip("message"@);
    }
}

impl Tagged for NotificationTypeNewMessage {
    open spec fn known(tag: Seq<char>) -> bool {
        tag == "notificationTypeNewMessage"@
    }

    fn knows(tag: &str) -> (r: bool) {
        same_text(tag, "notificationTypeNewMessage")
    }

    proof fn tag_known(&self) {
        reveal(<NotificationTypeNewMessage as Wire>::wire);
        assert(tag_of(self.wire()) == Some("notificationTypeNewMessage"@));
        assert(Self::known("notificationTypeNewMessage"@));
    }
}

/// New secret chat was created
#[derive(Debug, Clone, PartialEq)]
pub struct NotificationTypeNewSecretChat {}

impl Wire for NotificationTypeNewSecretChat {
    #[verifier::opaque]
    open spec fn wire(&self) -> Doc {
        tagged(Map::empty(), "notificationTypeNewSecretChat"@)
    }

    #[verifier::opaque]
    open spec fn parse(d: Doc, at: Seq<char>) -> Result<Doc, Fault> {
        match d {
            Doc::Object(_) => Ok(tagged(Map::empty(), "notificationTypeNewSecretChat"@)),
            _ => Err(Fault::TypeMismatch(at)),
        }
    }

    fn encode(&self) -> (j: Json) {
        proof {
            reveal(<NotificationTypeNewSecretChat as Wire>::wire);
        }
        seal(Vec::new(), "notificationTypeNewSecretChat")
    }

    fn decode(j: &Json, at: &str) -> (r: Result<Self, DecodeError>) {
        proof {
            reveal(<NotificationTypeNewSecretChat as Wire>::wire);
            reveal(<NotificationTypeNewSecretChat as Wire>::parse);
        }
        let _ = members_of(j, at)?;
        Ok(NotificationTypeNewSecretChat {})
    }

    proof fn round_trip(&self, at: Seq<char>) {
        reveal(<NotificationTypeNewSecretChat as Wire>::wire);
        reveal(<NotificationTypeNewSecretChat as Wire>::parse);
    }
}

impl Tagged for NotificationTypeNewSecretChat {
    open spec fn known(tag: Seq<char>) -> bool {
        tag == "notificationTypeNewSecretChat"@
    }

    fn knows(tag: &str) -> (r: bool) {
        same_text(tag, "notificationTypeNewSecretChat")
    }

    proof fn tag_known(&self) {
        reveal(<NotificationTypeNewSecretChat as Wire>::wire);
        assert(tag_of(self.wire()) == Some("notificationTypeNewSecretChat"@));
        assert(Self::known("notificationTypeNewSecretChat"@));
    }
}

/// New call was received
#[derive(Debug, Clone, PartialEq)]
pub struct NotificationTypeNewCall {
    /// Call identifier
    pub call_id: i32,
}

impl Wire for NotificationTypeNewCall {
    #[verifier::opaque]
    open spec fn wire(&self) -> Doc {
        tagged(
            Map::empty()
                .insert("callId"@, self.call_id.wire()),
            "notificationTypeNewCall"@,
        )
    }

    #[verifier::opaque]
    open spec fn parse(d: Doc, at: Seq<char>) -> Result<Doc, Fault> {
        match d {
            Doc::Object(m) => {
                let call_id = field::<i32>(m, "callId"@);
                if call_id is Err {
                    call_id
                } else {
                    Ok(
                        tagged(
                            Map::empty()
                                .insert("callId"@, call_id->Ok_0),
                            "notificationTypeNewCall"@,
                        ),
                    )
                }
            },
            _ => Err(Fault::TypeMismatch(at)),
        }
    }

    fn encode(&self) -> (j: Json) {
        proof {
            reveal(<NotificationTypeNewCall as Wire>::wire);
        }
        let mut members: Vec<Member> = Vec::new();
        put(&mut members, "callId", self.call_id.encode());
        seal(members, "notificationTypeNewCall")
    }

    fn decode(j: &Json, at: &str) -> (r: Result<Self, DecodeError>) {
        proof {
            reveal(<NotificationTypeNewCall as Wire>::wire);
            reveal(<NotificationTypeNewCall as Wire>::parse);
        }
        let members = members_of(j, at)?;
        let call_id = read_field::<i32>(members, "callId")?;
        Ok(NotificationTypeNewCall { call_id })
    }

    proof fn round_trip(&self, at: Seq<char>) {
        reveal(<NotificationTypeNewCall as Wire>::wire);
        reveal(<NotificationTypeNewCall as Wire>::parse);
        reveal_strlit("@type");
        reveal_strlit("callId");
        assert("@type"@.len() == 5);
        assert("callId"@.len() == 6);
        self.call_id.round_trip("callId"@);
    }
}

impl Tagged for NotificationTypeNewCall {
    open spec fn known(tag: Seq<char>) -> bool {
        tag == "notificationTypeNewCall"@
    }

    fn knows(tag: &str) -> (r: bool) {
        same_text(tag, "notificationTypeNewCall")
    }

    proof fn tag_known(&self) {
        reveal(<NotificationTypeNewCall as Wire>::wire);
        assert(tag_of(self.wire()) == Some("notificationTypeNewCall"@));
        assert(Self::known("notificationTypeNewCall"@));
    }
}

/// New message was received through a push notification
#[derive(Debug, Clone, PartialEq)]
pub struct NotificationTypeNewPushMessage {
    /// The message identifier. The message will not be available in the chat history, but the ID
    /// can be used in viewMessages and as reply_to_message_id
    pub message_id: i64,
    /// Sender of the message. Corresponding user may be inaccessible
    pub sender_user_id: i32,
    /// Push message content
    pub content: PushMessageContent,
}

impl Wire for NotificationTypeNewPushMessage {
    #[verifier::opaque]
    open spec fn wire(&self) -> Doc {
        tagged(
            Map::empty()
                .insert("messageId"@, self.message_id.wire())
                .insert("senderUserId"@, self.sender_user_id.wire())
                .insert("content"@, self.content.wire()),
            "notificationTypeNewPushMessage"@,
        )
    }

    #[verifier::opaque]
    open spec fn parse(d: Doc, at: Seq<char>) -> Result<Doc, Fault> {
        match d {
            Doc::Object(m) => {
                let message_id = field::<i64>(m, "messageId"@);
                let sender_user_id = field::<i32>(m, "senderUserId"@);
                let content = field::<PushMessageContent>(m, "content"@);
                if message_id is Err {
                    message_id
                } else if sender_user_id is Err {
                    sender_user_id
                } else if content is Err {
                    content
                } else {
                    Ok(
                        tagged(
                            Map::empty()
                                .insert("messageId"@, message_id->Ok_0)
                                .insert("senderUserId"@, sender_user_id->Ok_0)
                                .insert("content"@, content->Ok_0),
                            "notificationTypeNewPushMessage"@,
                        ),
                    )
                }
            },
            _ => Err(Fault::TypeMismatch(at)),
        }
    }

    fn encode(&self) -> (j: Json) {
        proof {
            reveal(<NotificationTypeNewPushMessage as Wire>::wire);
        }
        let mut members: Vec<Member> = Vec::new();
        put(&mut members, "messageId", self.message_id.encode());
        put(&mut members, "senderUserId", self.sender_user_id.encode());
        put(&mut members, "content", self.content.encode());
        seal(members, "notificationTypeNewPushMessage")
    }

    fn decode(j: &Json, at: &str) -> (r: Result<Self, DecodeError>) {
        proof {
            reveal(<NotificationTypeNewPushMessage as Wire>::wire);
            reveal(<NotificationTypeNewPushMessage as Wire>::parse);
        }
        let members = members_of(j, at)?;
        let message_id = read_field::<i64>(members, "messageId")?;
        let sender_user_id = read_field::<i32>(members, "senderUserId")?;
        let content = read_field::<PushMessageContent>(members, "content")?;
        Ok(NotificationTypeNewPushMessage { message_id, sender_user_id, content })
    }

    proof fn round_trip(&self, at: Seq<char>) {
        reveal(<NotificationTypeNewPushMessage as Wire>::wire);
        reveal(<NotificationTypeNewPushMessage as Wire>::parse);
        reveal_strlit("@type");
        reveal_strlit("content");
        reveal_strlit("messageId");
        reveal_strlit("senderUserId");
        assert("@type"@.len() == 5);
        assert("content"@.len() == 7);
        assert("messageId"@.len() == 9);
        assert("senderUserId"@.len() == 12);
        self.message_id.round_trip("messageId"@);
        self.sender_user_id.round_trip("senderUserId"@);
        self.content.round_trip("content"@);
    }
}

impl Tagged for NotificationTypeNewPushMessage {
    open spec fn known(tag: Seq<char>) -> bool {
        tag == "notificationTypeNewPushMessage"@
    }

    fn knows(tag: &str) -> (r: bool) {
        same_text(tag, "notificationTypeNewPushMessage")
    }

    proof fn tag_known(&self) {
        reveal(<NotificationTypeNewPushMessage as Wire>::wire);
        assert(tag_of(self.wire()) == Some("notificationTypeNewPushMessage"@));
        assert(Self::known("notificationTypeNewPushMessage"@));
    }
}

/// Contains detailed information about a notification
#[derive(Debug, Clone, PartialEq)]
pub enum NotificationType {
    NotificationTypeNewMessage(NotificationTypeNewMessage),
    NotificationTypeNewSecretChat(NotificationTypeNewSecretChat),
    NotificationTypeNewCall(NotificationTypeNewCall),
    NotificationTypeNewPushMessage(NotificationTypeNewPushMessage),
}

impl Wire for NotificationType {
    #[verifier::opaque]
    open spec fn wire(&self) -> Doc {
        match self {
            Self::NotificationTypeNewMessage(p) => p.wire(),
            Self::NotificationTypeNewSecretChat(p) => p.wire(),
            Self::NotificationTypeNewCall(p) => p.wire(),
            Self::NotificationTypeNewPushMessage(p) => p.wire(),
        }
    }

    #[verifier::opaque]
    open spec fn parse(d: Doc, at: Seq<char>) -> Result<Doc, Fault> {
        match d {
            Doc::Object(_) => match tag_of(d) {
                Some(t) => if t == "notificationTypeNewMessage"@ {
                    NotificationTypeNewMessage::parse(d, at)
                } else if t == "notificationTypeNewSecretChat"@ {
                    NotificationTypeNewSecretChat::parse(d, at)
                } else if t == "notificationTypeNewCall"@ {
                    NotificationTypeNewCall::parse(d, at)
                } else if t == "notificationTypeNewPushMessage"@ {
                    NotificationTypeNewPushMessage::parse(d, at)
                } else {
                    Err(Fault::UnknownVariant(t))
                },
                None => Err(Fault::MissingDiscriminator),
            },
            _ => Err(Fault::TypeMismatch(at)),
        }
    }

    fn encode(&self) -> (j: Json) {
        proof {
            reveal(<NotificationType as Wire>::wire);
        }
        match self {
            Self::NotificationTypeNewMessage(p) => p.encode(),
            Self::NotificationTypeNewSecretChat(p) => p.encode(),
            Self::NotificationTypeNewCall(p) => p.encode(),
            Self::NotificationTypeNewPushMessage(p) => p.encode(),
        }
    }

    fn decode(j: &Json, at: &str) -> (r: Result<Self, DecodeError>) {
        proof {
            reveal(<NotificationType as Wire>::wire);
            reveal(<NotificationType as Wire>::parse);
        }
        let members = members_of(j, at)?;
        let tag = discriminator(members)?;
        if same_text(tag, "notificationTypeNewMessage") {
            Ok(Self::NotificationTypeNewMessage(NotificationTypeNewMessage::decode(j, at)?))
        } else if same_text(tag, "notificationTypeNewSecretChat") {
            Ok(Self::NotificationTypeNewSecretChat(NotificationTypeNewSecretChat::decode(j, at)?))
        } else if same_text(tag, "notificationTypeNewCall") {
            Ok(Self::NotificationTypeNewCall(NotificationTypeNewCall::decode(j, at)?))
        } else if same_text(tag, "notificationTypeNewPushMessage") {
            Ok(Self::NotificationTypeNewPushMessage(NotificationTypeNewPushMessage::decode(j, at)?))
        } else {
            Err(DecodeError::UnknownVariant(tag.to_owned()))
        }
    }

    proof fn round_trip(&self, at: Seq<char>) {
        reveal(<NotificationType as Wire>::wire);
        reveal(<NotificationType as Wire>::parse);
        reveal_strlit("notificationTypeNewCall");
        reveal_strlit("notificationTypeNewMessage");
        reveal_strlit("notificationTypeNewPushMessage");
        reveal_strlit("notificationTypeNewSecretChat");
        assert("notificationTypeNewCall"@.len() == 23);
        assert("notificationTypeNewMessage"@.len() == 26);
        assert("notificationTypeNewPushMessage"@.len() == 30);
        assert("notificationTypeNewSecretChat"@.len() == 29);
        match self {
            Self::NotificationTypeNewMessage(p) => {
                p.tag_known();
                p.round_trip(at);
            },
            Self::NotificationTypeNewSecretChat(p) => {
                p.tag_known();
                p.round_trip(at);
            },
            Self::NotificationTypeNewCall(p) => {
                p.tag_known();
                p.round_trip(at);
            },
            Self::NotificationTypeNewPushMessage(p) => {
                p.tag_known();
                p.round_trip(at);
            },
        }
    }
}

impl Tagged for NotificationType {
    open spec fn known(tag: Seq<char>) -> bool {
        ||| tag == "notificationTypeNewMessage"@
        ||| tag == "notificationTypeNewSecretChat"@
        ||| tag == "notificationTypeNewCall"@
        ||| tag == "notificationTypeNewPushMessage"@
    }

    fn knows(tag: &str) -> (r: bool) {
        same_text(tag, "notificationTypeNewMessage")
            || same_text(tag, "notificationTypeNewSecretChat")
            || same_text(tag, "notificationTypeNewCall")
            || same_text(tag, "notificationTypeNewPushMessage")
    }

    proof fn tag_known(&self) {
        reveal(<NotificationType as Wire>::wire);
        match self {
            Self::NotificationTypeNewMessage(p) => p.tag_known(),
            Self::NotificationTypeNewSecretChat(p) => p.tag_known(),
            Self::NotificationTypeNewCall(p) => p.tag_known(),
            Self::NotificationTypeNewPushMessage(p) => p.tag_known(),
        }
    }
}

impl Union for NotificationType {
    proof fn unknown_rejected(d: Doc, at: Seq<char>) {
        reveal(<NotificationType as Wire>::parse);
    }

    proof fn untagged_rejected(d: Doc, at: Seq<char>) {
        reveal(<NotificationType as Wire>::parse);
    }
}

/// A group containing notifications of type notificationTypeNewMessage and
/// notificationTypeNewPushMessage with ordinary unread messages
#[derive(Debug, Clone, PartialEq)]
pub struct NotificationGroupTypeMessages {}

impl Wire for NotificationGroupTypeMessages {
    #[verifier::opaque]
    open spec fn wire(&self) -> Doc {
        tagged(Map::empty(), "notificationGroupTypeMessages"@)
    }

    #[verifier::opaque]
    open spec fn parse(d: Doc, at: Seq<char>) -> Result<Doc, Fault> {
        match d {
            Doc::Object(_) => Ok(tagged(Map::empty(), "notificationGroupTypeMessages"@)),
            _ => Err(Fault::TypeMismatch(at)),
        }
    }

    fn encode(&self) -> (j: Json) {
        proof {
            reveal(<NotificationGroupTypeMessages as Wire>::wire);
        }
        seal(Vec::new(), "notificationGroupTypeMessages")
    }

    fn decode(j: &Json, at: &str) -> (r: Result<Self, DecodeError>) {
        proof {
            reveal(<NotificationGroupTypeMessages as Wire>::wire);
            reveal(<NotificationGroupTypeMessages as Wire>::parse);
        }
        let _ = members_of(j, at)?;
        Ok(NotificationGroupTypeMessages {})
    }

    proof fn round_trip(&self, at: Seq<char>) {
        reveal(<NotificationGroupTypeMessages as Wire>::wire);
        reveal(<NotificationGroupTypeMessages as Wire>::parse);
    }
}

impl Tagged for NotificationGroupTypeMessages {
    open spec fn known(tag: Seq<char>) -> bool {
        tag == "notificationGroupTypeMessages"@
    }

    fn knows(tag: &str) -> (r: bool) {
        same_text(tag, "notificationGroupTypeMessages")
    }

    proof fn tag_known(&self) {
        reveal(<NotificationGroupTypeMessages as Wire>::wire);
        assert(tag_of(self.wire()) == Some("notificationGroupTypeMessages"@));
        assert(Self::known("notificationGroupTypeMessages"@));
    }
}

/// A group containing notifications of type notificationTypeNewMessage and
/// notificationTypeNewPushMessage with unread mentions of the current user, replies to their
/// messages, or a pinned message
#[derive(Debug, Clone, PartialEq)]
pub struct NotificationGroupTypeMentions {}

impl Wire for NotificationGroupTypeMentions {
    #[verifier::opaque]
    open spec fn wire(&self) -> Doc {
        tagged(Map::empty(), "notificationGroupTypeMentions"@)
    }

    #[verifier::opaque]
    open spec fn parse(d: Doc, at: Seq<char>) -> Result<Doc, Fault> {
        match d {
            Doc::Object(_) => Ok(tagged(Map::empty(), "notificationGroupTypeMentions"@)),
            _ => Err(Fault::TypeMismatch(at)),
        }
    }

    fn encode(&self) -> (j: Json) {
        proof {
            reveal(<NotificationGroupTypeMentions as Wire>::wire);
        }
        seal(Vec::new(), "notificationGroupTypeMentions")
    }

    fn decode(j: &Json, at: &str) -> (r: Result<Self, DecodeError>) {
        proof {
            reveal(<NotificationGroupTypeMentions as Wire>::wire);
            reveal(<NotificationGroupTypeMentions as Wire>::parse);
        }
        let _ = members_of(j, at)?;
        Ok(NotificationGroupTypeMentions {})
    }

    proof fn round_trip(&self, at: Seq<char>) {
        reveal(<NotificationGroupTypeMentions as Wire>::wire);
        reveal(<NotificationGroupTypeMentions as Wire>::parse);
    }
}

impl Tagged for NotificationGroupTypeMentions {
    open spec fn known(tag: Seq<char>) -> bool {
        tag == "notificationGroupTypeMentions"@
    }

    fn knows(tag: &str) -> (r: bool) {
        same_text(tag, "notificationGroupTypeMentions")
    }

    proof fn tag_known(&self) {
        reveal(<NotificationGroupTypeMentions as Wire>::wire);
        assert(tag_of(self.wire()) == Some("notificationGroupTypeMentions"@));
        assert(Self::known("notificationGroupTypeMentions"@));
    }
}

/// A group containing a notification of type notificationTypeNewSecretChat
#[derive(Debug, Clone, PartialEq)]
pub struct NotificationGroupTypeSecretChat {}

impl Wire for NotificationGroupTypeSecretChat {
    #[verifier::opaque]
    open spec fn wire(&self) -> Doc {
        tagged(Map::empty(), "notificationGroupTypeSecretChat"@)
    }

    #[verifier::opaque]
    open spec fn parse(d: Doc, at: Seq<char>) -> Result<Doc, Fault> {
        match d {
            Doc::Object(_) => Ok(tagged(Map::empty(), "notificationGroupTypeSecretChat"@)),
            _ => Err(Fault::TypeMismatch(at)),
        }
    }

    fn encode(&self) -> (j: Json) {
        proof {
            reveal(<NotificationGroupTypeSecretChat as Wire>::wire);
        }
        seal(Vec::new(), "notificationGroupTypeSecretChat")
    }

    fn decode(j: &Json, at: &str) -> (r: Result<Self, DecodeError>) {
        proof {
            reveal(<NotificationGroupTypeSecretChat as Wire>::wire);
            reveal(<NotificationGroupTypeSecretChat as Wire>::parse);
        }
        let _ = members_of(j, at)?;
        Ok(NotificationGroupTypeSecretChat {})
    }

    proof fn round_trip(&self, at: Seq<char>) {
        reveal(<NotificationGroupTypeSecretChat as Wire>::wire);
        reveal(<NotificationGroupTypeSecretChat as Wire>::parse);
    }
}

impl Tagged for NotificationGroupTypeSecretChat {
    open spec fn known(tag: Seq<char>) -> bool {
        tag == "notificationGroupTypeSecretChat"@
    }

    fn knows(tag: &str) -> (r: bool) {
        same_text(tag, "notificationGroupTypeSecretChat")
    }

    proof fn tag_known(&self) {
        reveal(<NotificationGroupTypeSecretChat as Wire>::wire);
        assert(tag_of(self.wire()) == Some("notificationGroupTypeSecretChat"@));
        assert(Self::known("notificationGroupTypeSecretChat"@));
    }
}

/// A group containing notifications of type notificationTypeNewCall
#[derive(Debug, Clone, PartialEq)]
pub struct NotificationGroupTypeCalls {}

impl Wire for NotificationGroupTypeCalls {
    #[verifier::opaque]
    open spec fn wire(&self) -> Doc {
        tagged(Map::empty(), "notificationGroupTypeCalls"@)
    }

    #[verifier::opaque]
    open spec fn parse(d: Doc, at: Seq<char>) -> Result<Doc, Fault> {
        match d {
            Doc::Object(_) => Ok(tagged(Map::empty(), "notificationGroupTypeCalls"@)),
            _ => Err(Fault::TypeMismatch(at)),
        }
    }

    fn encode(&self) -> (j: Json) {
        proof {
            reveal(<NotificationGroupTypeCalls as Wire>::wire);
        }
        seal(Vec::new(), "notificationGroupTypeCalls")
    }

    fn decode(j: &Json, at: &str) -> (r: Result<Self, DecodeError>) {
        proof {
            reveal(<NotificationGroupTypeCalls as Wire>::wire);
            reveal(<NotificationGroupTypeCalls as Wire>::parse);
        }
        let _ = members_of(j, at)?;
        Ok(NotificationGroupTypeCalls {})
    }

    proof fn round_trip(&self, at: Seq<char>) {
        reveal(<NotificationGroupTypeCalls as Wire>::wire);
        reveal(<NotificationGroupTypeCalls as Wire>::parse);
    }
}

impl Tagged for NotificationGroupTypeCalls {
    open spec fn known(tag: Seq<char>) -> bool {
        tag == "notificationGroupTypeCalls"@
    }

    fn knows(tag: &str) -> (r: bool) {
        same_text(tag, "notificationGroupTypeCalls")
    }

    proof fn tag_known(&self) {
        reveal(<NotificationGroupTypeCalls as Wire>::wire);
        assert(tag_of(self.wire()) == Some("notificationGroupTypeCalls"@));
        assert(Self::known("notificationGroupTypeCalls"@));
    }
}

/// Describes the type of notifications in a notification group
#[derive(Debug, Clone, PartialEq)]
pub enum NotificationGroupType {
    NotificationGroupTypeMessages(NotificationGroupTypeMessages),
    NotificationGroupTypeMentions(NotificationGroupTypeMentions),
    NotificationGroupTypeSecretChat(NotificationGroupTypeSecretChat),
    NotificationGroupTypeCalls(NotificationGroupTypeCalls),
}

impl Wire for NotificationGroupType {
    #[verifier::opaque]
    open spec fn wire(&self) -> Doc {
        match self {
            Self::NotificationGroupTypeMessages(p) => p.wire(),
            Self::NotificationGroupTypeMentions(p) => p.wire(),
            Self::NotificationGroupTypeSecretChat(p) => p.wire(),
            Self::NotificationGroupTypeCalls(p) => p.wire(),
        }
    }

    #[verifier::opaque]
    open spec fn parse(d: Doc, at: Seq<char>) -> Result<Doc, Fault> {
        match d {
            Doc::Object(_) => match tag_of(d) {
                Some(t) => if t == "notificationGroupTypeMessages"@ {
                    NotificationGroupTypeMessages::parse(d, at)
                } else if t == "notificationGroupTypeMentions"@ {
                    NotificationGroupTypeMentions::parse(d, at)
                } else if t == "notificationGroupTypeSecretChat"@ {
                    NotificationGroupTypeSecretChat::parse(d, at)
                } else if t == "notificationGroupTypeCalls"@ {
                    NotificationGroupTypeCalls::parse(d, at)
                } else {
                    Err(Fault::UnknownVariant(t))
                },
                None => Err(Fault::MissingDiscriminator),
            },
            _ => Err(Fault::TypeMismatch(at)),
        }
    }

    fn encode(&self) -> (j: Json) {
        proof {
            reveal(<NotificationGroupType as Wire>::wire);
        }
        match self {
            Self::NotificationGroupTypeMessages(p) => p.encode(),
            Self::NotificationGroupTypeMentions(p) => p.encode(),
            Self::NotificationGroupTypeSecretChat(p) => p.encode(),
            Self::NotificationGroupTypeCalls(p) => p.encode(),
        }
    }

    fn decode(j: &Json, at: &str) -> (r: Result<Self, DecodeError>) {
        proof {
            reveal(<NotificationGroupType as Wire>::wire);
            reveal(<NotificationGroupType as Wire>::parse);
        }
        let members = members_of(j, at)?;
        let tag = discriminator(members)?;
        if same_text(tag, "notificationGroupTypeMessages") {
            Ok(Self::NotificationGroupTypeMessages(NotificationGroupTypeMessages::decode(j, at)?))
        } else if same_text(tag, "notificationGroupTypeMentions") {
            Ok(Self::NotificationGroupTypeMentions(NotificationGroupTypeMentions::decode(j, at)?))
        } else if same_text(tag, "notificationGroupTypeSecretChat") {
            Ok(
                Self::NotificationGroupTypeSecretChat(
                    NotificationGroupTypeSecretChat::decode(j, at)?,
                ),
            )
        } else if same_text(tag, "notificationGroupTypeCalls") {
            Ok(Self::NotificationGroupTypeCalls(NotificationGroupTypeCalls::decode(j, at)?))
        } else {
            Err(DecodeError::UnknownVariant(tag.to_owned()))
        }
    }

    proof fn round_trip(&self, at: Seq<char>) {
        reveal(<NotificationGroupType as Wire>::wire);
        reveal(<NotificationGroupType as Wire>::parse);
        reveal_strlit("notificationGroupTypeCalls");
        reveal_strlit("notificationGroupTypeMentions");
        reveal_strlit("notificationGroupTypeMessages");
        reveal_strlit("notificationGroupTypeSecretChat");
        assert("notificationGroupTypeCalls"@.len() == 26);
        assert({
            &&& "notificationGroupTypeMentions"@.len() == 29
            &&& "notificationGroupTypeMentions"@[23] == 'n'
        });
        assert({
            &&& "notificationGroupTypeMessages"@.len() == 29
            &&& "notificationGroupTypeMessages"@[23] == 's'
        });
        assert("notificationGroupTypeSecretChat"@.len() == 31);
        match self {
            Self::NotificationGroupTypeMessages(p) => {
                p.tag_known();
                p.round_trip(at);
            },
            Self::NotificationGroupTypeMentions(p) => {
                p.tag_known();
                p.round_trip(at);
            },
            Self::NotificationGroupTypeSecretChat(p) => {
                p.tag_known();
                p.round_trip(at);
            },
            Self::NotificationGroupTypeCalls(p) => {
                p.tag_known();
                p.round_trip(at);
            },
        }
    }
}

impl Tagged for NotificationGroupType {
    open spec fn known(tag: Seq<char>) -> bool {
        ||| tag == "notificationGroupTypeMessages"@
        ||| tag == "notificationGroupTypeMentions"@
        ||| tag == "notificationGroupTypeSecretChat"@
        ||| tag == "notificationGroupTypeCalls"@
    }

    fn knows(tag: &str) -> (r: bool) {
        same_text(tag, "notificationGroupTypeMessages")
            || same_text(tag, "notificationGroupTypeMentions")
            || same_text(tag, "notificationGroupTypeSecretChat")
            || same_text(tag, "notificationGroupTypeCalls")
    }

    proof fn tag_known(&self) {
        reveal(<NotificationGroupType as Wire>::wire);
        match self {
            Self::NotificationGroupTypeMessages(p) => p.tag_known(),
            Self::NotificationGroupTypeMentions(p) => p.tag_known(),
            Self::NotificationGroupTypeSecretChat(p) => p.tag_known(),
            Self::NotificationGroupTypeCalls(p) => p.tag_known(),
        }
    }
}

impl Union for NotificationGroupType {
    proof fn unknown_rejected(d: Doc, at: Seq<char>) {
        reveal(<NotificationGroupType as Wire>::parse);
    }

    proof fn untagged_rejected(d: Doc, at: Seq<char>) {
        reveal(<NotificationGroupType as Wire>::parse);
    }
}

/// Contains information about a notification
#[derive(Debug, Clone, PartialEq)]
pub struct Notification {
    /// Unique persistent identifier of this notification
    pub id: i32,
    /// Notification date
    pub date: i32,
    /// True, if the notification was initially silent
    pub is_silent: bool,
    /// Notification type
    pub type_: NotificationType,
}

impl Wire for Notification {
    #[verifier::opaque]
    open spec fn wire(&self) -> Doc {
        tagged(
            Map::empty()
                .insert("id"@, self.id.wire())
                .insert("date"@, self.date.wire())
                .insert("isSilent"@, self.is_silent.wire())
                .insert("type"@, self.type_.wire()),
            "notification"@,
        )
    }

    #[verifier::opaque]
    open spec fn parse(d: Doc, at: Seq<char>) -> Result<Doc, Fault> {
        match d {
            Doc::Object(m) => {
                let id = field::<i32>(m, "id"@);
                let date = field::<i32>(m, "date"@);
                let is_silent = field::<bool>(m, "isSilent"@);
                let type_ = field::<NotificationType>(m, "type"@);
                if id is Err {
                    id
                } else if date is Err {
                    date
                } else if is_silent is Err {
                    is_silent
                } else if type_ is Err {
                    type_
                } else {
                    Ok(
                        tagged(
                            Map::empty()
                                .insert("id"@, id->Ok_0)
                                .insert("date"@, date->Ok_0)
                                .insert("isSilent"@, is_silent->Ok_0)
                                .insert("type"@, type_->Ok_0),
                            "notification"@,
                        ),
                    )
                }
            },
            _ => Err(Fault::TypeMismatch(at)),
        }
    }

    fn encode(&self) -> (j: Json) {
        proof {
            reveal(<Notification as Wire>::wire);
        }
        let mut members: Vec<Member> = Vec::new();
        put(&mut members, "id", self.id.encode());
        put(&mut members, "date", self.date.encode());
        put(&mut members, "isSilent", self.is_silent.encode());
        put(&mut members, "type", self.type_.encode());
        seal(members, "notification")
    }

    fn decode(j: &Json, at: &str) -> (r: Result<Self, DecodeError>) {
        proof {
            reveal(<Notification as Wire>::wire);
            reveal(<Notification as Wire>::parse);
        }
        let members = members_of(j, at)?;
        let id = read_field::<i32>(members, "id")?;
        let date = read_field::<i32>(members, "date")?;
        let is_silent = read_field::<bool>(members, "isSilent")?;
        let type_ = read_field::<NotificationType>(members, "type")?;
        Ok(Notification { id, date, is_silent, type_ })
    }

    proof fn round_trip(&self, at: Seq<char>) {
        reveal(<Notification as Wire>::wire);
        reveal(<Notification as Wire>::parse);
        reveal_strlit("@type");
        reveal_strlit("date");
        reveal_strlit("id");
        reveal_strlit("isSilent");
        reveal_strlit("type");
        assert("@type"@.len() == 5);
        assert("date"@.len() == 4 && "date"@[0] == 'd');
        assert("id"@.len() == 2);
        assert("isSilent"@.len() == 8);
        assert("type"@.len() == 4 && "type"@[0] == 't');
        self.id.round_trip("id"@);
        self.date.round_trip("date"@);
        self.is_silent.round_trip("isSilent"@);
        self.type_.round_trip("type"@);
    }
}

impl Tagged for Notification {
    open spec fn known(tag: Seq<char>) -> bool {
        tag == "notification"@
    }

    fn knows(tag: &str) -> (r: bool) {
        same_text(tag, "notification")
    }

    proof fn tag_known(&self) {
        reveal(<Notification as Wire>::wire);
        assert(tag_of(self.wire()) == Some("notification"@));
        assert(Self::known("notification"@));
    }
}

/// Describes a group of notifications
#[derive(Debug, Clone, PartialEq)]
pub struct NotificationGroup {
    /// Unique persistent auto-incremented from 1 identifier of the notification group
    pub id: i32,
    /// Type of the group
    pub type_: NotificationGroupType,
    /// Identifier of a chat to which all notifications in the group belong
    pub chat_id: i64,
    /// Total number of active notifications in the group
    pub total_count: i32,
    /// The list of active notifications
    pub notifications: Vec<Notification>,
}

impl Wire for NotificationGroup {
    #[verifier::opaque]
    open spec fn wire(&self) -> Doc {
        tagged(
            Map::empty()
                .insert("id"@, self.id.wire())
                .insert("type"@, self.type_.wire())
                .insert("chatId"@, self.chat_id.wire())
                .insert("totalCount"@, self.total_count.wire())
                .insert("notifications"@, self.notifications.wire()),
            "notificationGroup"@,
        )
    }

    #[verifier::opaque]
    open spec fn parse(d: Doc, at: Seq<char>) -> Result<Doc, Fault> {
        match d {
            Doc::Object(m) => {
                let id = field::<i32>(m, "id"@);
                let type_ = field::<NotificationGroupType>(m, "type"@);
                let chat_id = field::<i64>(m, "chatId"@);
                let total_count = field::<i32>(m, "totalCount"@);
                let notifications = field::<Vec<Notification>>(m, "notifications"@);
                if id is Err {
                    id
                } else if type_ is Err {
                    type_
                } else if chat_id is Err {
                    chat_id
                } else if total_count is Err {
                    total_count
                } else if notifications is Err {
                    notifications
                } else {
                    Ok(
                        tagged(
                            Map::empty()
                                .insert("id"@, id->Ok_0)
                                .insert("type"@, type_->Ok_0)
                                .insert("chatId"@, chat_id->Ok_0)
                                .insert("totalCount"@, total_count->Ok_0)
                                .insert("notifications"@, notifications->Ok_0),
                            "notificationGroup"@,
                        ),
                    )
                }
            },
            _ => Err(Fault::TypeMismatch(at)),
        }
    }

    fn encode(&self) -> (j: Json) {
        proof {
            reveal(<NotificationGroup as Wire>::wire);
        }
        let mut members: Vec<Member> = Vec::new();
        put(&mut members, "id", self.id.encode());
        put(&mut members, "type", self.type_.encode());
        put(&mut members, "chatId", self.chat_id.encode());
        put(&mut members, "totalCount", self.total_count.encode());
        put(&mut members, "notifications", self.notifications.encode());
        seal(members, "notificationGroup")
    }

    fn decode(j: &Json, at: &str) -> (r: Result<Self, DecodeError>) {
        proof {
            reveal(<NotificationGroup as Wire>::wire);
            reveal(<NotificationGroup as Wire>::parse);
        }
        let members = members_of(j, at)?;
        let id = read_field::<i32>(members, "id")?;
        let type_ = read_field::<NotificationGroupType>(members, "type")?;
        let chat_id = read_field::<i64>(members, "chatId")?;
        let total_count = read_field::<i32>(members, "totalCount")?;
        let notifications = read_field::<Vec<Notification>>(members, "notifications")?;
        Ok(NotificationGroup { id, type_, chat_id, total_count, notifications })
    }

    proof fn round_trip(&self, at: Seq<char>) {
        reveal(<NotificationGroup as Wire>::wire);
        reveal(<NotificationGroup as Wire>::parse);
        reveal_strlit("@type");
        reveal_strlit("chatId");
        reveal_strlit("id");
        reveal_strlit("notifications");
        reveal_strlit("totalCount");
        reveal_strlit("type");
        assert("@type"@.len() == 5);
        assert("chatId"@.len() == 6);
        assert("id"@.len() == 2);
        assert("notifications"@.len() == 13);
        assert("totalCount"@.len() == 10);
        assert("type"@.len() == 4);
        self.id.round_trip("id"@);
        self.type_.round_trip("type"@);
        self.chat_id.round_trip("chatId"@);
        self.total_count.round_trip("totalCount"@);
        self.notifications.round_trip("notifications"@);
    }
}

impl Tagged for NotificationGroup {
    open spec fn known(tag: Seq<char>) -> bool {
        tag == "notificationGroup"@
    }

    fn knows(tag: &str) -> (r: bool) {
        same_text(tag, "notificationGroup")
    }

    proof fn tag_known(&self) {
        reveal(<NotificationGroup as Wire>::wire);
        assert(tag_of(self.wire()) == Some("notificationGroup"@));
        assert(Self::known("notificationGroup"@));
    }
}

} // verus!
