//! Rich text, page blocks and instant-view pages.

use vstd::prelude::*;
use crate::codec::{
    discriminator, field, find, members_of, optional_field, parse_items, put, read_field,
    read_optional, seal, Tagged, Union, Wire, wire_items,
};
use crate::error::{DecodeError, Fault};
use crate::json::{Doc, docs_of, Json, map_of, Member, tag_of, tagged};
use crate::text::same_text;
use crate::types::{
    Animation, Audio, ChatPhoto, Document, Location, Photo, Sticker, Video, VideoNote, VoiceNote,
};

verus! {

/// A plain text
#[derive(Debug, Clone, PartialEq)]
pub struct RichTextPlain {
    /// Text
    pub text: String,
}

impl Wire for RichTextPlain {
    #[verifier::opaque]
    open spec fn wire(&self) -> Doc {
        tagged(
            Map::empty()
                .insert("text"@, self.text.wire()),
            "richTextPlain"@,
        )
    }

    #[verifier::opaque]
    open spec fn parse(d: Doc, at: Seq<char>) -> Result<Doc, Fault> {
        match d {
            Doc::Object(m) => {
                let text = field::<String>(m, "text"@);
                if text is Err {
                    text
                } else {
                    Ok(
                        tagged(
                            Map::empty()
                                .insert("text"@, text->Ok_0),
                            "richTextPlain"@,
                        ),
                    )
                }
            },
            _ => Err(Fault::TypeMismatch(at)),
        }
    }

    fn encode(&self) -> (j: Json) {
        proof {
            reveal(<RichTextPlain as Wire>::wire);
        }
        let mut members: Vec<Member> = Vec::new();
        put(&mut members, "text", self.text.encode());
        seal(members, "richTextPlain")
    }

    fn decode(j: &Json, at: &str) -> (r: Result<Self, DecodeError>) {
        proof {
            reveal(<RichTextPlain as Wire>::wire);
            reveal(<RichTextPlain as Wire>::parse);
        }
        let members = members_of(j, at)?;
        let text = read_field::<String>(members, "text")?;
        Ok(RichTextPlain { text })
    }

    proof fn round_trip(&self, at: Seq<char>) {
        reveal(<RichTextPlain as Wire>::wire);
        reveal(<RichTextPlain as Wire>::parse);
        reveal_strlit("@type");
        reveal_strlit("text");
        assert("@type"@.len() == 5);
        assert("text"@.len() == 4);
        self.text.round_trip("text"@);
    }
}

impl Tagged for RichTextPlain {
    open spec fn known(tag: Seq<char>) -> bool {
        tag == "richTextPlain"@
    }

    fn knows(tag: &str) -> (r: bool) {
        same_text(tag, "richTextPlain")
    }

    proof fn tag_known(&self) {
        reveal(<RichTextPlain as Wire>::wire);
        assert(tag_of(self.wire()) == Some("richTextPlain"@));
        assert(Self::known("richTextPlain"@));
    }
}

/// A bold rich text
#[derive(Debug, Clone, PartialEq)]
pub struct RichTextBold {
    /// Text
    pub text: Box<RichText>,
}

impl Wire for RichTextBold {
    #[verifier::opaque]
    open spec fn wire(&self) -> Doc {
        tagged(
            Map::empty()
                .insert("text"@, self.text.wire()),
            "richTextBold"@,
        )
    }

    #[verifier::opaque]
    open spec fn parse(d: Doc, at: Seq<char>) -> Result<Doc, Fault> {
        match d {
            Doc::Object(m) => {
                let text = field::<Box<RichText>>(m, "text"@);
                if text is Err {
                    text
                } else {
                    Ok(
                        tagged(
                            Map::empty()
                                .insert("text"@, text->Ok_0),
                            "richTextBold"@,
                        ),
                    )
                }
            },
            _ => Err(Fault::TypeMismatch(at)),
        }
    }

    fn encode(&self) -> (j: Json) {
        proof {
            reveal(<RichTextBold as Wire>::wire);
        }
        let mut members: Vec<Member> = Vec::new();
        put(&mut members, "text", self.text.encode());
        seal(members, "richTextBold")
    }

    fn decode(j: &Json, at: &str) -> (r: Result<Self, DecodeError>) {
        proof {
            reveal(<RichTextBold as Wire>::wire);
            reveal(<RichTextBold as Wire>::parse);
        }
        let members = members_of(j, at)?;
        let text = read_field::<Box<RichText>>(members, "text")?;
        Ok(RichTextBold { text })
    }

    proof fn round_trip(&self, at: Seq<char>) {
        reveal(<RichTextBold as Wire>::wire);
        reveal(<RichTextBold as Wire>::parse);
        reveal_strlit("@type");
        reveal_strlit("text");
        assert("@type"@.len() == 5);
        assert("text"@.len() == 4);
        self.text.round_trip("text"@);
    }
}

impl Tagged for RichTextBold {
    open spec fn known(tag: Seq<char>) -> bool {
        tag == "richTextBold"@
    }

    fn knows(tag: &str) -> (r: bool) {
        same_text(tag, "richTextBold")
    }

    proof fn tag_known(&self) {
        reveal(<RichTextBold as Wire>::wire);
        assert(tag_of(self.wire()) == Some("richTextBold"@));
        assert(Self::known("richTextBold"@));
    }
}

/// An italicized rich text
#[derive(Debug, Clone, PartialEq)]
pub struct RichTextItalic {
    /// Text
    pub text: Box<RichText>,
}

impl Wire for RichTextItalic {
    #[verifier::opaque]
    open spec fn wire(&self) -> Doc {
        tagged(
            Map::empty()
                .insert("text"@, self.text.wire()),
            "richTextItalic"@,
        )
    }

    #[verifier::opaque]
    open spec fn parse(d: Doc, at: Seq<char>) -> Result<Doc, Fault> {
        match d {
            Doc::Object(m) => {
                let text = field::<Box<RichText>>(m, "text"@);
                if text is Err {
                    text
                } else {
                    Ok(
                        tagged(
                            Map::empty()
                                .insert("text"@, text->Ok_0),
                            "richTextItalic"@,
                        ),
                    )
                }
            },
            _ => Err(Fault::TypeMismatch(at)),
        }
    }

    fn encode(&self) -> (j: Json) {
        proof {
            reveal(<RichTextItalic as Wire>::wire);
        }
        let mut members: Vec<Member> = Vec::new();
        put(&mut members, "text", self.text.encode());
        seal(members, "richTextItalic")
    }

    fn decode(j: &Json, at: &str) -> (r: Result<Self, DecodeError>) {
        proof {
            reveal(<RichTextItalic as Wire>::wire);
            reveal(<RichTextItalic as Wire>::parse);
        }
        let members = members_of(j, at)?;
        let text = read_field::<Box<RichText>>(members, "text")?;
        Ok(RichTextItalic { text })
    }

    proof fn round_trip(&self, at: Seq<char>) {
        reveal(<RichTextItalic as Wire>::wire);
        reveal(<RichTextItalic as Wire>::parse);
        reveal_strlit("@type");
        reveal_strlit("text");
        assert("@type"@.len() == 5);
        assert("text"@.len() == 4);
        self.text.round_trip("text"@);
    }
}

impl Tagged for RichTextItalic {
    open spec fn known(tag: Seq<char>) -> bool {
        tag == "richTextItalic"@
    }

    fn knows(tag: &str) -> (r: bool) {
        same_text(tag, "richTextItalic")
    }

    proof fn tag_known(&self) {
        reveal(<RichTextItalic as Wire>::wire);
        assert(tag_of(self.wire()) == Some("richTextItalic"@));
        assert(Self::known("richTextItalic"@));
    }
}

/// An underlined rich text
#[derive(Debug, Clone, PartialEq)]
pub struct RichTextUnderline {
    /// Text
    pub text: Box<RichText>,
}

impl Wire for RichTextUnderline {
    #[verifier::opaque]
    open spec fn wire(&self) -> Doc {
        tagged(
            Map::empty()
                .insert("text"@, self.text.wire()),
            "richTextUnderline"@,
        )
    }

    #[verifier::opaque]
    open spec fn parse(d: Doc, at: Seq<char>) -> Result<Doc, Fault> {
        match d {
            Doc::Object(m) => {
                let text = field::<Box<RichText>>(m, "text"@);
                if text is Err {
                    text
                } else {
                    Ok(
                        tagged(
                            Map::empty()
                                .insert("text"@, text->Ok_0),
                            "richTextUnderline"@,
                        ),
                    )
                }
            },
            _ => Err(Fault::TypeMismatch(at)),
        }
    }

    fn encode(&self) -> (j: Json) {
        proof {
            reveal(<RichTextUnderline as Wire>::wire);
        }
        let mut members: Vec<Member> = Vec::new();
        put(&mut members, "text", self.text.encode());
        seal(members, "richTextUnderline")
    }

    fn decode(j: &Json, at: &str) -> (r: Result<Self, DecodeError>) {
        proof {
            reveal(<RichTextUnderline as Wire>::wire);
            reveal(<RichTextUnderline as Wire>::parse);
        }
        let members = members_of(j, at)?;
        let text = read_field::<Box<RichText>>(members, "text")?;
        Ok(RichTextUnderline { text })
    }

    proof fn round_trip(&self, at: Seq<char>) {
        reveal(<RichTextUnderline as Wire>::wire);
        reveal(<RichTextUnderline as Wire>::parse);
        reveal_strlit("@type");
        reveal_strlit("text");
        assert("@type"@.len() == 5);
        assert("text"@.len() == 4);
        self.text.round_trip("text"@);
    }
}

impl Tagged for RichTextUnderline {
    open spec fn known(tag: Seq<char>) -> bool {
        tag == "richTextUnderline"@
    }

    fn knows(tag: &str) -> (r: bool) {
        same_text(tag, "richTextUnderline")
    }

    proof fn tag_known(&self) {
        reveal(<RichTextUnderline as Wire>::wire);
        assert(tag_of(self.wire()) == Some("richTextUnderline"@));
        assert(Self::known("richTextUnderline"@));
    }
}

/// A strikethrough rich text
#[derive(Debug, Clone, PartialEq)]
pub struct RichTextStrikethrough {
    /// Text
    pub text: Box<RichText>,
}

impl Wire for RichTextStrikethrough {
    #[verifier::opaque]
    open spec fn wire(&self) -> Doc {
        tagged(
            Map::empty()
                .insert("text"@, self.text.wire()),
            "richTextStrikethrough"@,
        )
    }

    #[verifier::opaque]
    open spec fn parse(d: Doc, at: Seq<char>) -> Result<Doc, Fault> {
        match d {
            Doc::Object(m) => {
                let text = field::<Box<RichText>>(m, "text"@);
                if text is Err {
                    text
                } else {
                    Ok(
                        tagged(
                            Map::empty()
                                .insert("text"@, text->Ok_0),
                            "richTextStrikethrough"@,
                        ),
                    )
                }
            },
            _ => Err(Fault::TypeMismatch(at)),
        }
    }

    fn encode(&self) -> (j: Json) {
        proof {
            reveal(<RichTextStrikethrough as Wire>::wire);
        }
        let mut members: Vec<Member> = Vec::new();
        put(&mut members, "text", self.text.encode());
        seal(members, "richTextStrikethrough")
    }

    fn decode(j: &Json, at: &str) -> (r: Result<Self, DecodeError>) {
        proof {
            reveal(<RichTextStrikethrough as Wire>::wire);
            reveal(<RichTextStrikethrough as Wire>::parse);
        }
        let members = members_of(j, at)?;
        let text = read_field::<Box<RichText>>(members, "text")?;
        Ok(RichTextStrikethrough { text })
    }

    proof fn round_trip(&self, at: Seq<char>) {
        reveal(<RichTextStrikethrough as Wire>::wire);
        reveal(<RichTextStrikethrough as Wire>::parse);
        reveal_strlit("@type");
        reveal_strlit("text");
        assert("@type"@.len() == 5);
        assert("text"@.len() == 4);
        self.text.round_trip("text"@);
    }
}

impl Tagged for RichTextStrikethrough {
    open spec fn known(tag: Seq<char>) -> bool {
        tag == "richTextStrikethrough"@
    }

    fn knows(tag: &str) -> (r: bool) {
        same_text(tag, "richTextStrikethrough")
    }

    proof fn tag_known(&self) {
        reveal(<RichTextStrikethrough as Wire>::wire);
        assert(tag_of(self.wire()) == Some("richTextStrikethrough"@));
        assert(Self::known("richTextStrikethrough"@));
    }
}

/// A fixed-width rich text
#[derive(Debug, Clone, PartialEq)]
pub struct RichTextFixed {
    /// Text
    pub text: Box<RichText>,
}

impl Wire for RichTextFixed {
    #[verifier::opaque]
    open spec fn wire(&self) -> Doc {
        tagged(
            Map::empty()
                .insert("text"@, self.text.wire()),
            "richTextFixed"@,
        )
    }

    #[verifier::opaque]
    open spec fn parse(d: Doc, at: Seq<char>) -> Result<Doc, Fault> {
        match d {
            Doc::Object(m) => {
                let text = field::<Box<RichText>>(m, "text"@);
                if text is Err {
                    text
                } else {
                    Ok(
                        tagged(
                            Map::empty()
                                .insert("text"@, text->Ok_0),
                            "richTextFixed"@,
                        ),
                    )
                }
            },
            _ => Err(Fault::TypeMismatch(at)),
        }
    }

    fn encode(&self) -> (j: Json) {
        proof {
            reveal(<RichTextFixed as Wire>::wire);
        }
        let mut members: Vec<Member> = Vec::new();
        put(&mut members, "text", self.text.encode());
        seal(members, "richTextFixed")
    }

    fn decode(j: &Json, at: &str) -> (r: Result<Self, DecodeError>) {
        proof {
            reveal(<RichTextFixed as Wire>::wire);
            reveal(<RichTextFixed as Wire>::parse);
        }
        let members = members_of(j, at)?;
        let text = read_field::<Box<RichText>>(members, "text")?;
        Ok(RichTextFixed { text })
    }

    proof fn round_trip(&self, at: Seq<char>) {
        reveal(<RichTextFixed as Wire>::wire);
        reveal(<RichTextFixed as Wire>::parse);
        reveal_strlit("@type");
        reveal_strlit("text");
        assert("@type"@.len() == 5);
        assert("text"@.len() == 4);
        self.text.round_trip("text"@);
    }
}

impl Tagged for RichTextFixed {
    open spec fn known(tag: Seq<char>) -> bool {
        tag == "richTextFixed"@
    }

    fn knows(tag: &str) -> (r: bool) {
        same_text(tag, "richTextFixed")
    }

    proof fn tag_known(&self) {
        reveal(<RichTextFixed as Wire>::wire);
        assert(tag_of(self.wire()) == Some("richTextFixed"@));
        assert(Self::known("richTextFixed"@));
    }
}

/// A rich text URL link
#[derive(Debug, Clone, PartialEq)]
pub struct RichTextUrl {
    /// Text
    pub text: Box<RichText>,
    /// URL
    pub url: String,
    /// True, if the URL has cached instant view server-side
    pub is_cached: bool,
}

impl Wire for RichTextUrl {
    #[verifier::opaque]
    open spec fn wire(&self) -> Doc {
        tagged(
            Map::empty()
                .insert("text"@, self.text.wire())
                .insert("url"@, self.url.wire())
                .insert("isCached"@, self.is_cached.wire()),
            "richTextUrl"@,
        )
    }

    #[verifier::opaque]
    open spec fn parse(d: Doc, at: Seq<char>) -> Result<Doc, Fault> {
        match d {
            Doc::Object(m) => {
                let text = field::<Box<RichText>>(m, "text"@);
                let url = field::<String>(m, "url"@);
                let is_cached = field::<bool>(m, "isCached"@);
                if text is Err {
                    text
                } else if url is Err {
                    url
                } else if is_cached is Err {
                    is_cached
                } else {
                    Ok(
                        tagged(
                            Map::empty()
                                .insert("text"@, text->Ok_0)
                                .insert("url"@, url->Ok_0)
                                .insert("isCached"@, is_cached->Ok_0),
                            "richTextUrl"@,
                        ),
                    )
                }
            },
            _ => Err(Fault::TypeMismatch(at)),
        }
    }

    fn encode(&self) -> (j: Json) {
        proof {
            reveal(<RichTextUrl as Wire>::wire);
        }
        let mut members: Vec<Member> = Vec::new();
        put(&mut members, "text", self.text.encode());
        put(&mut members, "url", self.url.encode());
        put(&mut members, "isCached", self.is_cached.encode());
        seal(members, "richTextUrl")
    }

    fn decode(j: &Json, at: &str) -> (r: Result<Self, DecodeError>) {
        proof {
            reveal(<RichTextUrl as Wire>::wire);
            reveal(<RichTextUrl as Wire>::parse);
        }
        let members = members_of(j, at)?;
        let text = read_field::<Box<RichText>>(members, "text")?;
        let url = read_field::<String>(members, "url")?;
        let is_cached = read_field::<bool>(members, "isCached")?;
        Ok(RichTextUrl { text, url, is_cached })
    }

    proof fn round_trip(&self, at: Seq<char>) {
        reveal(<RichTextUrl as Wire>::wire);
        reveal(<RichTextUrl as Wire>::parse);
        reveal_strlit("@type");
        reveal_strlit("isCached");
        reveal_strlit("text");
        reveal_strlit("url");
        assert("@type"@.len() == 5);
        assert("isCached"@.len() == 8);
        assert("text"@.len() == 4);
        assert("url"@.len() == 3);
        self.text.round_trip("text"@);
        self.url.round_trip("url"@);
        self.is_cached.round_trip("isCached"@);
    }
}

impl Tagged for RichTextUrl {
    open spec fn known(tag: Seq<char>) -> bool {
        tag == "richTextUrl"@
    }

    fn knows(tag: &str) -> (r: bool) {
        same_text(tag, "richTextUrl")
    }

    proof fn tag_known(&self) {
        reveal(<RichTextUrl as Wire>::wire);
        assert(tag_of(self.wire()) == Some("richTextUrl"@));
        assert(Self::known("richTextUrl"@));
    }
}

/// A rich text email link
#[derive(Debug, Clone, PartialEq)]
pub struct RichTextEmailAddress {
    /// Text
    pub text: Box<RichText>,
    /// Email address
    pub email_address: String,
}

impl Wire for RichTextEmailAddress {
    #[verifier::opaque]
    open spec fn wire(&self) -> Doc {
        tagged(
            Map::empty()
                .insert("text"@, self.text.wire())
                .insert("emailAddress"@, self.email_address.wire()),
            "richTextEmailAddress"@,
        )
    }

    #[verifier::opaque]
    open spec fn parse(d: Doc, at: Seq<char>) -> Result<Doc, Fault> {
        match d {
            Doc::Object(m) => {
                let text = field::<Box<RichText>>(m, "text"@);
                let email_address = field::<String>(m, "emailAddress"@);
                if text is Err {
                    text
                } else if email_address is Err {
                    email_address
                } else {
                    Ok(
                        tagged(
                            Map::empty()
                                .insert("text"@, text->Ok_0)
                                .insert("emailAddress"@, email_address->Ok_0),
                            "richTextEmailAddress"@,
                        ),
                    )
                }
            },
            _ => Err(Fault::TypeMismatch(at)),
        }
    }

    fn encode(&self) -> (j: Json) {
        proof {
            reveal(<RichTextEmailAddress as Wire>::wire);
        }
        let mut members: Vec<Member> = Vec::new();
        put(&mut members, "text", self.text.encode());
        put(&mut members, "emailAddress", self.email_address.encode());
        seal(members, "richTextEmailAddress")
    }

    fn decode(j: &Json, at: &str) -> (r: Result<Self, DecodeError>) {
        proof {
            reveal(<RichTextEmailAddress as Wire>::wire);
            reveal(<RichTextEmailAddress as Wire>::parse);
        }
        let members = members_of(j, at)?;
        let text = read_field::<Box<RichText>>(members, "text")?;
        let email_address = read_field::<String>(members, "emailAddress")?;
        Ok(RichTextEmailAddress { text, email_address })
    }

    proof fn round_trip(&self, at: Seq<char>) {
        reveal(<RichTextEmailAddress as Wire>::wire);
        reveal(<RichTextEmailAddress as Wire>::parse);
        reveal_strlit("@type");
        reveal_strlit("emailAddress");
        reveal_strlit("text");
        assert("@type"@.len() == 5);
        assert("emailAddress"@.len() == 12);
        assert("text"@.len() == 4);
        self.text.round_trip("text"@);
        self.email_address.round_trip("emailAddress"@);
    }
}

impl Tagged for RichTextEmailAddress {
    open spec fn known(tag: Seq<char>) -> bool {
        tag == "richTextEmailAddress"@
    }

    fn knows(tag: &str) -> (r: bool) {
        same_text(tag, "richTextEmailAddress")
    }

    proof fn tag_known(&self) {
        reveal(<RichTextEmailAddress as Wire>::wire);
        assert(tag_of(self.wire()) == Some("richTextEmailAddress"@));
        assert(Self::known("richTextEmailAddress"@));
    }
}

/// A subscript rich text
#[derive(Debug, Clone, PartialEq)]
pub struct RichTextSubscript {
    /// Text
    pub text: Box<RichText>,
}

impl Wire for RichTextSubscript {
    #[verifier::opaque]
    open spec fn wire(&self) -> Doc {
        tagged(
            Map::empty()
                .insert("text"@, self.text.wire()),
            "richTextSubscript"@,
        )
    }

    #[verifier::opaque]
    open spec fn parse(d: Doc, at: Seq<char>) -> Result<Doc, Fault> {
        match d {
            Doc::Object(m) => {
                let text = field::<Box<RichText>>(m, "text"@);
                if text is Err {
                    text
                } else {
                    Ok(
                        tagged(
                            Map::empty()
                                .insert("text"@, text->Ok_0),
                            "richTextSubscript"@,
                        ),
                    )
                }
            },
            _ => Err(Fault::TypeMismatch(at)),
        }
    }

    fn encode(&self) -> (j: Json) {
        proof {
            reveal(<RichTextSubscript as Wire>::wire);
        }
        let mut members: Vec<Member> = Vec::new();
        put(&mut members, "text", self.text.encode());
        seal(members, "richTextSubscript")
    }

    fn decode(j: &Json, at: &str) -> (r: Result<Self, DecodeError>) {
        proof {
            reveal(<RichTextSubscript as Wire>::wire);
            reveal(<RichTextSubscript as Wire>::parse);
        }
        let members = members_of(j, at)?;
        let text = read_field::<Box<RichText>>(members, "text")?;
        Ok(RichTextSubscript { text })
    }

    proof fn round_trip(&self, at: Seq<char>) {
        reveal(<RichTextSubscript as Wire>::wire);
        reveal(<RichTextSubscript as Wire>::parse);
        reveal_strlit("@type");
        reveal_strlit("text");
        assert("@type"@.len() == 5);
        assert("text"@.len() == 4);
        self.text.round_trip("text"@);
    }
}

impl Tagged for RichTextSubscript {
    open spec fn known(tag: Seq<char>) -> bool {
        tag == "richTextSubscript"@
    }

    fn knows(tag: &str) -> (r: bool) {
        same_text(tag, "richTextSubscript")
    }

    proof fn tag_known(&self) {
        reveal(<RichTextSubscript as Wire>::wire);
        assert(tag_of(self.wire()) == Some("richTextSubscript"@));
        assert(Self::known("richTextSubscript"@));
    }
}

/// A superscript rich text
#[derive(Debug, Clone, PartialEq)]
pub struct RichTextSuperscript {
    /// Text
    pub text: Box<RichText>,
}

impl Wire for RichTextSuperscript {
    #[verifier::opaque]
    open spec fn wire(&self) -> Doc {
        tagged(
            Map::empty()
                .insert("text"@, self.text.wire()),
            "richTextSuperscript"@,
        )
    }

    #[verifier::opaque]
    open spec fn parse(d: Doc, at: Seq<char>) -> Result<Doc, Fault> {
        match d {
            Doc::Object(m) => {
                let text = field::<Box<RichText>>(m, "text"@);
                if text is Err {
                    text
                } else {
                    Ok(
                        tagged(
                            Map::empty()
                                .insert("text"@, text->Ok_0),
                            "richTextSuperscript"@,
                        ),
                    )
                }
            },
            _ => Err(Fault::TypeMismatch(at)),
        }
    }

    fn encode(&self) -> (j: Json) {
        proof {
            reveal(<RichTextSuperscript as Wire>::wire);
        }
        let mut members: Vec<Member> = Vec::new();
        put(&mut members, "text", self.text.encode());
        seal(members, "richTextSuperscript")
    }

    fn decode(j: &Json, at: &str) -> (r: Result<Self, DecodeError>) {
        proof {
            reveal(<RichTextSuperscript as Wire>::wire);
            reveal(<RichTextSuperscript as Wire>::parse);
        }
        let members = members_of(j, at)?;
        let text = read_field::<Box<RichText>>(members, "text")?;
        Ok(RichTextSuperscript { text })
    }

    proof fn round_trip(&self, at: Seq<char>) {
        reveal(<RichTextSuperscript as Wire>::wire);
        reveal(<RichTextSuperscript as Wire>::parse);
        reveal_strlit("@type");
        reveal_strlit("text");
        assert("@type"@.len() == 5);
        assert("text"@.len() == 4);
        self.text.round_trip("text"@);
    }
}

impl Tagged for RichTextSuperscript {
    open spec fn known(tag: Seq<char>) -> bool {
        tag == "richTextSuperscript"@
    }

    fn knows(tag: &str) -> (r: bool) {
        same_text(tag, "richTextSuperscript")
    }

    proof fn tag_known(&self) {
        reveal(<RichTextSuperscript as Wire>::wire);
        assert(tag_of(self.wire()) == Some("richTextSuperscript"@));
        assert(Self::known("richTextSuperscript"@));
    }
}

/// A marked rich text
#[derive(Debug, Clone, PartialEq)]
pub struct RichTextMarked {
    /// Text
    pub text: Box<RichText>,
}

impl Wire for RichTextMarked {
    #[verifier::opaque]
    open spec fn wire(&self) -> Doc {
        tagged(
            Map::empty()
                .insert("text"@, self.text.wire()),
            "richTextMarked"@,
        )
    }

    #[verifier::opaque]
    open spec fn parse(d: Doc, at: Seq<char>) -> Result<Doc, Fault> {
        match d {
            Doc::Object(m) => {
                let text = field::<Box<RichText>>(m, "text"@);
                if text is Err {
                    text
                } else {
                    Ok(
                        tagged(
                            Map::empty()
                                .insert("text"@, text->Ok_0),
                            "richTextMarked"@,
                        ),
                    )
                }
            },
            _ => Err(Fault::TypeMismatch(at)),
        }
    }

    fn encode(&self) -> (j: Json) {
        proof {
            reveal(<RichTextMarked as Wire>::wire);
        }
        let mut members: Vec<Member> = Vec::new();
        put(&mut members, "text", self.text.encode());
        seal(members, "richTextMarked")
    }

    fn decode(j: &Json, at: &str) -> (r: Result<Self, DecodeError>) {
        proof {
            reveal(<RichTextMarked as Wire>::wire);
            reveal(<RichTextMarked as Wire>::parse);
        }
        let members = members_of(j, at)?;
        let text = read_field::<Box<RichText>>(members, "text")?;
        Ok(RichTextMarked { text })
    }

    proof fn round_trip(&self, at: Seq<char>) {
        reveal(<RichTextMarked as Wire>::wire);
        reveal(<RichTextMarked as Wire>::parse);
        reveal_strlit("@type");
        reveal_strlit("text");
        assert("@type"@.len() == 5);
        assert("text"@.len() == 4);
        self.text.round_trip("text"@);
    }
}

impl Tagged for RichTextMarked {
    open spec fn known(tag: Seq<char>) -> bool {
        tag == "richTextMarked"@
    }

    fn knows(tag: &str) -> (r: bool) {
        same_text(tag, "richTextMarked")
    }

    proof fn tag_known(&self) {
        reveal(<RichTextMarked as Wire>::wire);
        assert(tag_of(self.wire()) == Some("richTextMarked"@));
        assert(Self::known("richTextMarked"@));
    }
}

/// A rich text phone number
#[derive(Debug, Clone, PartialEq)]
pub struct RichTextPhoneNumber {
    /// Text
    pub text: Box<RichText>,
    /// Phone number
    pub phone_number: String,
}

impl Wire for RichTextPhoneNumber {
    #[verifier::opaque]
    open spec fn wire(&self) -> Doc {
        tagged(
            Map::empty()
                .insert("text"@, self.text.wire())
                .insert("phoneNumber"@, self.phone_number.wire()),
            "richTextPhoneNumber"@,
        )
    }

    #[verifier::opaque]
    open spec fn parse(d: Doc, at: Seq<char>) -> Result<Doc, Fault> {
        match d {
            Doc::Object(m) => {
                let text = field::<Box<RichText>>(m, "text"@);
                let phone_number = field::<String>(m, "phoneNumber"@);
                if text is Err {
                    text
                } else if phone_number is Err {
                    phone_number
                } else {
                    Ok(
                        tagged(
                            Map::empty()
                                .insert("text"@, text->Ok_0)
                                .insert("phoneNumber"@, phone_number->Ok_0),
                            "richTextPhoneNumber"@,
                        ),
                    )
                }
            },
            _ => Err(Fault::TypeMismatch(at)),
        }
    }

    fn encode(&self) -> (j: Json) {
        proof {
            reveal(<RichTextPhoneNumber as Wire>::wire);
        }
        let mut members: Vec<Member> = Vec::new();
        put(&mut members, "text", self.text.encode());
        put(&mut members, "phoneNumber", self.phone_number.encode());
        seal(members, "richTextPhoneNumber")
    }

    fn decode(j: &Json, at: &str) -> (r: Result<Self, DecodeError>) {
        proof {
            reveal(<RichTextPhoneNumber as Wire>::wire);
            reveal(<RichTextPhoneNumber as Wire>::parse);
        }
        let members = members_of(j, at)?;
        let text = read_field::<Box<RichText>>(members, "text")?;
        let phone_number = read_field::<String>(members, "phoneNumber")?;
        Ok(RichTextPhoneNumber { text, phone_number })
    }

    proof fn round_trip(&self, at: Seq<char>) {
        reveal(<RichTextPhoneNumber as Wire>::wire);
        reveal(<RichTextPhoneNumber as Wire>::parse);
        reveal_strlit("@type");
        reveal_strlit("phoneNumber");
        reveal_strlit("text");
        assert("@type"@.len() == 5);
        assert("phoneNumber"@.len() == 11);
        assert("text"@.len() == 4);
        self.text.round_trip("text"@);
        self.phone_number.round_trip("phoneNumber"@);
    }
}

impl Tagged for RichTextPhoneNumber {
    open spec fn known(tag: Seq<char>) -> bool {
        tag == "richTextPhoneNumber"@
    }

    fn knows(tag: &str) -> (r: bool) {
        same_text(tag, "richTextPhoneNumber")
    }

    proof fn tag_known(&self) {
        reveal(<RichTextPhoneNumber as Wire>::wire);
        assert(tag_of(self.wire()) == Some("richTextPhoneNumber"@));
        assert(Self::known("richTextPhoneNumber"@));
    }
}

/// A small image inside the text
#[derive(Debug, Clone, PartialEq)]
pub struct RichTextIcon {
    /// The image represented as a document. The image can be in GIF, JPEG or PNG format
    pub document: Document,
    /// Width of a bounding box in which the image should be shown; 0 if unknown
    pub width: i32,
    /// Height of a bounding box in which the image should be shown; 0 if unknown
    pub height: i32,
}

impl Wire for RichTextIcon {
    #[verifier::opaque]
    open spec fn wire(&self) -> Doc {
        tagged(
            Map::empty()
                .insert("document"@, self.document.wire())
                .insert("width"@, self.width.wire())
                .insert("height"@, self.height.wire()),
            "richTextIcon"@,
        )
    }

    #[verifier::opaque]
    open spec fn parse(d: Doc, at: Seq<char>) -> Result<Doc, Fault> {
        match d {
            Doc::Object(m) => {
                let document = field::<Document>(m, "document"@);
                let width = field::<i32>(m, "width"@);
                let height = field::<i32>(m, "height"@);
                if document is Err {
                    document
                } else if width is Err {
                    width
                } else if height is Err {
                    height
                } else {
                    Ok(
                        tagged(
                            Map::empty()
                                .insert("document"@, document->Ok_0)
                                .insert("width"@, width->Ok_0)
                                .insert("height"@, height->Ok_0),
                            "richTextIcon"@,
                        ),
                    )
                }
            },
            _ => Err(Fault::TypeMismatch(at)),
        }
    }

    fn encode(&self) -> (j: Json) {
        proof {
            reveal(<RichTextIcon as Wire>::wire);
        }
        let mut members: Vec<Member> = Vec::new();
        put(&mut members, "document", self.document.encode());
        put(&mut members, "width", self.width.encode());
        put(&mut members, "height", self.height.encode());
        seal(members, "richTextIcon")
    }

    fn decode(j: &Json, at: &str) -> (r: Result<Self, DecodeError>) {
        proof {
            reveal(<RichTextIcon as Wire>::wire);
            reveal(<RichTextIcon as Wire>::parse);
        }
        let members = members_of(j, at)?;
        let document = read_field::<Document>(members, "document")?;
        let width = read_field::<i32>(members, "width")?;
        let height = read_field::<i32>(members, "height")?;
        Ok(RichTextIcon { document, width, height })
    }

    proof fn round_trip(&self, at: Seq<char>) {
        reveal(<RichTextIcon as Wire>::wire);
        reveal(<RichTextIcon as Wire>::parse);
        reveal_strlit("@type");
        reveal_strlit("document");
        reveal_strlit("height");
        reveal_strlit("width");
        assert("@type"@.len() == 5 && "@type"@[0] == '@');
        assert("document"@.len() == 8);
        assert("height"@.len() == 6);
        assert("width"@.len() == 5 && "width"@[0] == 'w');
        self.document.round_trip("document"@);
        self.width.round_trip("width"@);
        self.height.round_trip("height"@);
    }
}

impl Tagged for RichTextIcon {
    open spec fn known(tag: Seq<char>) -> bool {
        tag == "richTextIcon"@
    }

    fn knows(tag: &str) -> (r: bool) {
        same_text(tag, "richTextIcon")
    }

    proof fn tag_known(&self) {
        reveal(<RichTextIcon as Wire>::wire);
        assert(tag_of(self.wire()) == Some("richTextIcon"@));
        assert(Self::known("richTextIcon"@));
    }
}

/// A rich text anchor
#[derive(Debug, Clone, PartialEq)]
pub struct RichTextAnchor {
    /// Text
    pub text: Box<RichText>,
    /// Anchor name
    pub name: String,
}

impl Wire for RichTextAnchor {
    #[verifier::opaque]
    open spec fn wire(&self) -> Doc {
        tagged(
            Map::empty()
                .insert("text"@, self.text.wire())
                .insert("name"@, self.name.wire()),
            "richTextAnchor"@,
        )
    }

    #[verifier::opaque]
    open spec fn parse(d: Doc, at: Seq<char>) -> Result<Doc, Fault> {
        match d {
            Doc::Object(m) => {
                let text = field::<Box<RichText>>(m, "text"@);
                let name = field::<String>(m, "name"@);
                if text is Err {
                    text
                } else if name is Err {
                    name
                } else {
                    Ok(
                        tagged(
                            Map::empty()
                                .insert("text"@, text->Ok_0)
                                .insert("name"@, name->Ok_0),
                            "richTextAnchor"@,
                        ),
                    )
                }
            },
            _ => Err(Fault::TypeMismatch(at)),
        }
    }

    fn encode(&self) -> (j: Json) {
        proof {
            reveal(<RichTextAnchor as Wire>::wire);
        }
        let mut members: Vec<Member> = Vec::new();
        put(&mut members, "text", self.text.encode());
        put(&mut members, "name", self.name.encode());
        seal(members, "richTextAnchor")
    }

    fn decode(j: &Json, at: &str) -> (r: Result<Self, DecodeError>) {
        proof {
            reveal(<RichTextAnchor as Wire>::wire);
            reveal(<RichTextAnchor as Wire>::parse);
        }
        let members = members_of(j, at)?;
        let text = read_field::<Box<RichText>>(members, "text")?;
        let name = read_field::<String>(members, "name")?;
        Ok(RichTextAnchor { text, name })
    }

    proof fn round_trip(&self, at: Seq<char>) {
        reveal(<RichTextAnchor as Wire>::wire);
        reveal(<RichTextAnchor as Wire>::parse);
        reveal_strlit("@type");
        reveal_strlit("name");
        reveal_strlit("text");
        assert("@type"@.len() == 5);
        assert("name"@.len() == 4 && "name"@[0] == 'n');
        assert("text"@.len() == 4 && "text"@[0] == 't');
        self.text.round_trip("text"@);
        self.name.round_trip("name"@);
    }
}

impl Tagged for RichTextAnchor {
    open spec fn known(tag: Seq<char>) -> bool {
        tag == "richTextAnchor"@
    }

    fn knows(tag: &str) -> (r: bool) {
        same_text(tag, "richTextAnchor")
    }

    proof fn tag_known(&self) {
        reveal(<RichTextAnchor as Wire>::wire);
        assert(tag_of(self.wire()) == Some("richTextAnchor"@));
        assert(Self::known("richTextAnchor"@));
    }
}

/// A concatenation of rich texts
#[derive(Debug, Clone, PartialEq)]
pub struct RichTexts {
    /// Texts
    pub texts: Vec<RichText>,
}

impl Wire for RichTexts {
    #[verifier::opaque]
    open spec fn wire(&self) -> Doc {
        tagged(
            Map::empty()
                .insert("texts"@, self.texts.wire()),
            "richTexts"@,
        )
    }

    #[verifier::opaque]
    open spec fn parse(d: Doc, at: Seq<char>) -> Result<Doc, Fault> {
        match d {
            Doc::Object(m) => {
                let texts = field::<Vec<RichText>>(m, "texts"@);
                if texts is Err {
                    texts
                } else {
                    Ok(
                        tagged(
                            Map::empty()
                                .insert("texts"@, texts->Ok_0),
                            "richTexts"@,
                        ),
                    )
                }
            },
            _ => Err(Fault::TypeMismatch(at)),
        }
    }

    fn encode(&self) -> (j: Json) {
        proof {
            reveal(<RichTexts as Wire>::wire);
        }
        let mut members: Vec<Member> = Vec::new();
        put(&mut members, "texts", self.texts.encode());
        seal(members, "richTexts")
    }

    fn decode(j: &Json, at: &str) -> (r: Result<Self, DecodeError>) {
        proof {
            reveal(<RichTexts as Wire>::wire);
            reveal(<RichTexts as Wire>::parse);
        }
        let members = members_of(j, at)?;
        let texts = read_field::<Vec<RichText>>(members, "texts")?;
        Ok(RichTexts { texts })
    }

    proof fn round_trip(&self, at: Seq<char>) {
        reveal(<RichTexts as Wire>::wire);
        reveal(<RichTexts as Wire>::parse);
        reveal_strlit("@type");
        reveal_strlit("texts");
        assert("@type"@.len() == 5 && "@type"@[0] == '@');
        assert("texts"@.len() == 5 && "texts"@[0] == 't');
        self.texts.round_trip("texts"@);
    }
}

impl Tagged for RichTexts {
    open spec fn known(tag: Seq<char>) -> bool {
        tag == "richTexts"@
    }

    fn knows(tag: &str) -> (r: bool) {
        same_text(tag, "richTexts")
    }

    proof fn tag_known(&self) {
        reveal(<RichTexts as Wire>::wire);
        assert(tag_of(self.wire()) == Some("richTexts"@));
        assert(Self::known("richTexts"@));
    }
}

/// Describes a text object inside an instant-view web page
#[derive(Debug, PartialEq)]
pub enum RichText {
    RichTextPlain(RichTextPlain),
    RichTextBold(RichTextBold),
    RichTextItalic(RichTextItalic),
    RichTextUnderline(RichTextUnderline),
    RichTextStrikethrough(RichTextStrikethrough),
    RichTextFixed(RichTextFixed),
    RichTextUrl(RichTextUrl),
    RichTextEmailAddress(RichTextEmailAddress),
    RichTextSubscript(RichTextSubscript),
    RichTextSuperscript(RichTextSuperscript),
    RichTextMarked(RichTextMarked),
    RichTextPhoneNumber(RichTextPhoneNumber),
    RichTextIcon(Box<RichTextIcon>),
    RichTextAnchor(RichTextAnchor),
    RichTexts(RichTexts),
}

/// The canonical document of a `RichText`.
pub open spec fn rich_text_doc(x: RichText) -> Doc
    decreases x,
{
    match x {
        RichText::RichTextPlain(p) => p.wire(),
        RichText::RichTextBold(p) => {
            tagged(
                Map::empty()
                    .insert("text"@, rich_text_doc(*p.text)),
                "richTextBold"@,
            )
        },
        RichText::RichTextItalic(p) => {
            tagged(
                Map::empty()
                    .insert("text"@, rich_text_doc(*p.text)),
                "richTextItalic"@,
            )
        },
        RichText::RichTextUnderline(p) => {
            tagged(
                Map::empty()
                    .insert("text"@, rich_text_doc(*p.text)),
                "richTextUnderline"@,
            )
        },
        RichText::RichTextStrikethrough(p) => {
            tagged(
                Map::empty()
                    .insert("text"@, rich_text_doc(*p.text)),
                "richTextStrikethrough"@,
            )
        },
        RichText::RichTextFixed(p) => {
            tagged(
                Map::empty()
                    .insert("text"@, rich_text_doc(*p.text)),
                "richTextFixed"@,
            )
        },
        RichText::RichTextUrl(p) => {
            tagged(
                Map::empty()
                    .insert("text"@, rich_text_doc(*p.text))
                    .insert("url"@, p.url.wire())
                    .insert("isCached"@, p.is_cached.wire()),
                "richTextUrl"@,
            )
        },
        RichText::RichTextEmailAddress(p) => {
            tagged(
                Map::empty()
                    .insert("text"@, rich_text_doc(*p.text))
                    .insert("emailAddress"@, p.email_address.wire()),
                "richTextEmailAddress"@,
            )
        },
        RichText::RichTextSubscript(p) => {
            tagged(
                Map::empty()
                    .insert("text"@, rich_text_doc(*p.text)),
                "richTextSubscript"@,
            )
        },
        RichText::RichTextSuperscript(p) => {
            tagged(
                Map::empty()
                    .insert("text"@, rich_text_doc(*p.text)),
                "richTextSuperscript"@,
            )
        },
        RichText::RichTextMarked(p) => {
            tagged(
                Map::empty()
                    .insert("text"@, rich_text_doc(*p.text)),
                "richTextMarked"@,
            )
        },
        RichText::RichTextPhoneNumber(p) => {
            tagged(
                Map::empty()
                    .insert("text"@, rich_text_doc(*p.text))
                    .insert("phoneNumber"@, p.phone_number.wire()),
                "richTextPhoneNumber"@,
            )
        },
        RichText::RichTextIcon(p) => p.wire(),
        RichText::RichTextAnchor(p) => {
            tagged(
                Map::empty()
                    .insert("text"@, rich_text_doc(*p.text))
                    .insert("name"@, p.name.wire()),
                "richTextAnchor"@,
            )
        },
        RichText::RichTexts(p) => {
            tagged(
                Map::empty()
                    .insert("texts"@, Doc::List(rich_text_docs(p.texts@))),
                "richTexts"@,
            )
        },
    }
}

/// The canonical documents of a list of `RichText`.
pub open spec fn rich_text_docs(items: Seq<RichText>) -> Seq<Doc>
    decreases items,
{
    Seq::new(
        items.len(),
        |i: int|
            if 0 <= i < items.len() {
                rich_text_doc(items[i])
            } else {
                Doc::Null
            },
    )
}

/// What decoding a `RichText` from the document `d` yields.
pub open spec fn rich_text_parse(d: Doc, at: Seq<char>) -> Result<Doc, Fault>
    decreases d,
{
    match d {
        Doc::Object(m) => match tag_of(d) {
            Some(t) => if t == "richTextPlain"@ {
                RichTextPlain::parse(d, at)
            } else if t == "richTextBold"@ {
                let text = if m.contains_key("text"@) {
                    rich_text_parse(m["text"@], "text"@)
                } else {
                    Err(Fault::MissingField("text"@))
                };
                if text is Err {
                    text
                } else {
                    Ok(
                        tagged(
                            Map::empty()
                                .insert("text"@, text->Ok_0),
                            "richTextBold"@,
                        ),
                    )
                }
            } else if t == "richTextItalic"@ {
                let text = if m.contains_key("text"@) {
                    rich_text_parse(m["text"@], "text"@)
                } else {
                    Err(Fault::MissingField("text"@))
                };
                if text is Err {
                    text
                } else {
                    Ok(
                        tagged(
                            Map::empty()
                                .insert("text"@, text->Ok_0),
                            "richTextItalic"@,
                        ),
                    )
                }
            } else if t == "richTextUnderline"@ {
                let text = if m.contains_key("text"@) {
                    rich_text_parse(m["text"@], "text"@)
                } else {
                    Err(Fault::MissingField("text"@))
                };
                if text is Err {
                    text
                } else {
                    Ok(
                        tagged(
                            Map::empty()
                                .insert("text"@, text->Ok_0),
                            "richTextUnderline"@,
                        ),
                    )
                }
            } else if t == "richTextStrikethrough"@ {
                let text = if m.contains_key("text"@) {
                    rich_text_parse(m["text"@], "text"@)
                } else {
                    Err(Fault::MissingField("text"@))
                };
                if text is Err {
                    text
                } else {
                    Ok(
                        tagged(
                            Map::empty()
                                .insert("text"@, text->Ok_0),
                            "richTextStrikethrough"@,
                        ),
                    )
                }
            } else if t == "richTextFixed"@ {
                let text = if m.contains_key("text"@) {
                    rich_text_parse(m["text"@], "text"@)
                } else {
                    Err(Fault::MissingField("text"@))
                };
                if text is Err {
                    text
                } else {
                    Ok(
                        tagged(
                            Map::empty()
                                .insert("text"@, text->Ok_0),
                            "richTextFixed"@,
                        ),
                    )
                }
            } else if t == "richTextUrl"@ {
                let text = if m.contains_key("text"@) {
                    rich_text_parse(m["text"@], "text"@)
                } else {
                    Err(Fault::MissingField("text"@))
                };
                let url = field::<String>(m, "url"@);
                let is_cached = field::<bool>(m, "isCached"@);
                if text is Err {
                    text
                } else if url is Err {
                    url
                } else if is_cached is Err {
                    is_cached
                } else {
                    Ok(
                        tagged(
                            Map::empty()
                                .insert("text"@, text->Ok_0)
                                .insert("url"@, url->Ok_0)
                                .insert("isCached"@, is_cached->Ok_0),
                            "richTextUrl"@,
                        ),
                    )
                }
            } else if t == "richTextEmailAddress"@ {
                let text = if m.contains_key("text"@) {
                    rich_text_parse(m["text"@], "text"@)
                } else {
                    Err(Fault::MissingField("text"@))
                };
                let email_address = field::<String>(m, "emailAddress"@);
                if text is Err {
                    text
                } else if email_address is Err {
                    email_address
                } else {
                    Ok(
                        tagged(
                            Map::empty()
                                .insert("text"@, text->Ok_0)
                                .insert("emailAddress"@, email_address->Ok_0),
                            "richTextEmailAddress"@,
                        ),
                    )
                }
            } else if t == "richTextSubscript"@ {
                let text = if m.contains_key("text"@) {
                    rich_text_parse(m["text"@], "text"@)
                } else {
                    Err(Fault::MissingField("text"@))
                };
                if text is Err {
                    text
                } else {
                    Ok(
                        tagged(
                            Map::empty()
                                .insert("text"@, text->Ok_0),
                            "richTextSubscript"@,
                        ),
                    )
                }
            } else if t == "richTextSuperscript"@ {
                let text = if m.contains_key("text"@) {
                    rich_text_parse(m["text"@], "text"@)
                } else {
                    Err(Fault::MissingField("text"@))
                };
                if text is Err {
                    text
                } else {
                    Ok(
                        tagged(
                            Map::empty()
                                .insert("text"@, text->Ok_0),
                            "richTextSuperscript"@,
                        ),
                    )
                }
            } else if t == "richTextMarked"@ {
                let text = if m.contains_key("text"@) {
                    rich_text_parse(m["text"@], "text"@)
                } else {
                    Err(Fault::MissingField("text"@))
                };
                if text is Err {
                    text
                } else {
                    Ok(
                        tagged(
                            Map::empty()
                                .insert("text"@, text->Ok_0),
                            "richTextMarked"@,
                        ),
                    )
                }
            } else if t == "richTextPhoneNumber"@ {
                let text = if m.contains_key("text"@) {
                    rich_text_parse(m["text"@], "text"@)
                } else {
                    Err(Fault::MissingField("text"@))
                };
                let phone_number = field::<String>(m, "phoneNumber"@);
                if text is Err {
                    text
                } else if phone_number is Err {
                    phone_number
                } else {
                    Ok(
                        tagged(
                            Map::empty()
                                .insert("text"@, text->Ok_0)
                                .insert("phoneNumber"@, phone_number->Ok_0),
                            "richTextPhoneNumber"@,
                        ),
                    )
                }
            } else if t == "richTextIcon"@ {
                RichTextIcon::parse(d, at)
            } else if t == "richTextAnchor"@ {
                let text = if m.contains_key("text"@) {
                    rich_text_parse(m["text"@], "text"@)
                } else {
                    Err(Fault::MissingField("text"@))
                };
                let name = field::<String>(m, "name"@);
                if text is Err {
                    text
                } else if name is Err {
                    name
                } else {
                    Ok(
                        tagged(
                            Map::empty()
                                .insert("text"@, text->Ok_0)
                                .insert("name"@, name->Ok_0),
                            "richTextAnchor"@,
                        ),
                    )
                }
            } else if t == "richTexts"@ {
                let texts = if m.contains_key("texts"@) {
                    match m["texts"@] {
                        Doc::List(items) => match rich_text_list_parse(items, "texts"@) {
                            Ok(docs) => Ok(Doc::List(docs)),
                            Err(e) => Err(e),
                        },
                        _ => Err(Fault::TypeMismatch("texts"@)),
                    }
                } else {
                    Err(Fault::MissingField("texts"@))
                };
                if texts is Err {
                    texts
                } else {
                    Ok(
                        tagged(
                            Map::empty()
                                .insert("texts"@, texts->Ok_0),
                            "richTexts"@,
                        ),
                    )
                }
            } else {
                Err(Fault::UnknownVariant(t))
            },
            None => Err(Fault::MissingDiscriminator),
        },
        _ => Err(Fault::TypeMismatch(at)),
    }
}

/// What reading the required field `key`, a `RichText`, yields.
pub open spec fn rich_text_field(m: Map<Seq<char>, Doc>, key: Seq<char>) -> Result<Doc, Fault> {
    if m.contains_key(key) {
        rich_text_parse(m[key], key)
    } else {
        Err(Fault::MissingField(key))
    }
}

/// What decoding the items of a list of `RichText` yields.
pub open spec fn rich_text_list_parse(items: Seq<Doc>, at: Seq<char>) -> Result<Seq<Doc>, Fault>
    decreases items,
{
    if items.len() == 0 {
        Ok(Seq::empty())
    } else {
        match rich_text_list_parse(items.drop_last(), at) {
            Err(e) => Err(e),
            Ok(front) => match rich_text_parse(items.last(), at) {
                Err(e) => Err(e),
                Ok(c) => Ok(front.push(c)),
            },
        }
    }
}

/// What reading the required field `key`, a list of `RichText`, yields.
pub open spec fn rich_text_list_field(
    m: Map<Seq<char>, Doc>,
    key: Seq<char>,
) -> Result<Doc, Fault> {
    if m.contains_key(key) {
        match m[key] {
            Doc::List(items) => match rich_text_list_parse(items, key) {
                Ok(docs) => Ok(Doc::List(docs)),
                Err(e) => Err(e),
            },
            _ => Err(Fault::TypeMismatch(key)),
        }
    } else {
        Err(Fault::MissingField(key))
    }
}

proof fn lemma_rich_text_list_step(items: Seq<Doc>, i: int, at: Seq<char>)
    requires
        0 <= i < items.len(),
    ensures
        rich_text_list_parse(
            items.take(i + 1),
            at) == match rich_text_list_parse(items.take(i),
            at,
        ) {
            Err(e) => Err::<Seq<Doc>, Fault>(e),
            Ok(front) => match rich_text_parse(items[i], at) {
                Err(e) => Err(e),
                Ok(c) => Ok(front.push(c)),
            },
        },
{
    assert(items.take(i + 1).drop_last() =~= items.take(i));
}

proof fn lemma_rich_text_list_fault(items: Seq<Doc>, i: int, at: Seq<char>)
    requires
        0 <= i <= items.len(),
        rich_text_list_parse(items.take(i), at) is Err,
    ensures
        rich_text_list_parse(items, at) == rich_text_list_parse(items.take(i), at),
    decreases items.len() - i,
{
    if i < items.len() {
        lemma_rich_text_list_step(items, i, at);
        lemma_rich_text_list_fault(items, i + 1, at);
    } else {
        assert(items.take(i) =~= items);
    }
}

/// Decoding the document of a `RichText` gives the same document back.
pub proof fn lemma_rich_text_round_trip(x: RichText, at: Seq<char>)
    ensures
        rich_text_parse(rich_text_doc(x), at) == Ok::<Doc, Fault>(rich_text_doc(x)),
    decreases x,
{
    reveal_strlit("richTextAnchor");
    reveal_strlit("richTextBold");
    reveal_strlit("richTextEmailAddress");
    reveal_strlit("richTextFixed");
    reveal_strlit("richTextIcon");
    reveal_strlit("richTextItalic");
    reveal_strlit("richTextMarked");
    reveal_strlit("richTextPhoneNumber");
    reveal_strlit("richTextPlain");
    reveal_strlit("richTextStrikethrough");
    reveal_strlit("richTextSubscript");
    reveal_strlit("richTextSuperscript");
    reveal_strlit("richTextUnderline");
    reveal_strlit("richTextUrl");
    reveal_strlit("richTexts");
    assert("richTextAnchor"@.len() == 14 && "richTextAnchor"@[8] == 'A');
    assert("richTextBold"@.len() == 12 && "richTextBold"@[8] == 'B');
    assert("richTextEmailAddress"@.len() == 20);
    assert("richTextFixed"@.len() == 13 && "richTextFixed"@[8] == 'F');
    assert("richTextIcon"@.len() == 12 && "richTextIcon"@[8] == 'I');
    assert("richTextItalic"@.len() == 14 && "richTextItalic"@[8] == 'I');
    assert("richTextMarked"@.len() == 14 && "richTextMarked"@[8] == 'M');
    assert("richTextPhoneNumber"@.len() == 19 && "richTextPhoneNumber"@[8] == 'P');
    assert("richTextPlain"@.len() == 13 && "richTextPlain"@[8] == 'P');
    assert("richTextStrikethrough"@.len() == 21);
    assert("richTextSubscript"@.len() == 17 && "richTextSubscript"@[8] == 'S');
    assert("richTextSuperscript"@.len() == 19 && "richTextSuperscript"@[8] == 'S');
    assert("richTextUnderline"@.len() == 17 && "richTextUnderline"@[8] == 'U');
    assert("richTextUrl"@.len() == 11);
    assert("richTexts"@.len() == 9);
    match x {
        RichText::RichTextPlain(p) => {
            p.tag_known();
            p.round_trip(at);
        },
        RichText::RichTextBold(p) => {
            reveal_strlit("@type");
            reveal_strlit("text");
            assert("@type"@.len() == 5);
            assert("text"@.len() == 4);
            lemma_rich_text_round_trip(*p.text, "text"@);
        },
        RichText::RichTextItalic(p) => {
            reveal_strlit("@type");
            reveal_strlit("text");
            assert("@type"@.len() == 5);
            assert("text"@.len() == 4);
            lemma_rich_text_round_trip(*p.text, "text"@);
        },
        RichText::RichTextUnderline(p) => {
            reveal_strlit("@type");
            reveal_strlit("text");
            assert("@type"@.len() == 5);
            assert("text"@.len() == 4);
            lemma_rich_text_round_trip(*p.text, "text"@);
        },
        RichText::RichTextStrikethrough(p) => {
            reveal_strlit("@type");
            reveal_strlit("text");
            assert("@type"@.len() == 5);
            assert("text"@.len() == 4);
            lemma_rich_text_round_trip(*p.text, "text"@);
        },
        RichText::RichTextFixed(p) => {
            reveal_strlit("@type");
            reveal_strlit("text");
            assert("@type"@.len() == 5);
            assert("text"@.len() == 4);
            lemma_rich_text_round_trip(*p.text, "text"@);
        },
        RichText::RichTextUrl(p) => {
            reveal_strlit("@type");
            reveal_strlit("isCached");
            reveal_strlit("text");
            reveal_strlit("url");
            assert("@type"@.len() == 5);
            assert("isCached"@.len() == 8);
            assert("text"@.len() == 4);
            assert("url"@.len() == 3);
            lemma_rich_text_round_trip(*p.text, "text"@);
            p.url.round_trip("url"@);
            p.is_cached.round_trip("isCached"@);
        },
        RichText::RichTextEmailAddress(p) => {
            reveal_strlit("@type");
            reveal_strlit("emailAddress");
            reveal_strlit("text");
            assert("@type"@.len() == 5);
            assert("emailAddress"@.len() == 12);
            assert("text"@.len() == 4);
            lemma_rich_text_round_trip(*p.text, "text"@);
            p.email_address.round_trip("emailAddress"@);
        },
        RichText::RichTextSubscript(p) => {
            reveal_strlit("@type");
            reveal_strlit("text");
            assert("@type"@.len() == 5);
            assert("text"@.len() == 4);
            lemma_rich_text_round_trip(*p.text, "text"@);
        },
        RichText::RichTextSuperscript(p) => {
            reveal_strlit("@type");
            reveal_strlit("text");
            assert("@type"@.len() == 5);
            assert("text"@.len() == 4);
            lemma_rich_text_round_trip(*p.text, "text"@);
        },
        RichText::RichTextMarked(p) => {
            reveal_strlit("@type");
            reveal_strlit("text");
            assert("@type"@.len() == 5);
            assert("text"@.len() == 4);
            lemma_rich_text_round_trip(*p.text, "text"@);
        },
        RichText::RichTextPhoneNumber(p) => {
            reveal_strlit("@type");
            reveal_strlit("phoneNumber");
            reveal_strlit("text");
            assert("@type"@.len() == 5);
            assert("phoneNumber"@.len() == 11);
            assert("text"@.len() == 4);
            lemma_rich_text_round_trip(*p.text, "text"@);
            p.phone_number.round_trip("phoneNumber"@);
        },
        RichText::RichTextIcon(p) => {
            (*p).tag_known();
            p.round_trip(at);
        },
        RichText::RichTextAnchor(p) => {
            reveal_strlit("@type");
            reveal_strlit("name");
            reveal_strlit("text");
            assert("@type"@.len() == 5);
            assert("name"@.len() == 4 && "name"@[0] == 'n');
            assert("text"@.len() == 4 && "text"@[0] == 't');
            lemma_rich_text_round_trip(*p.text, "text"@);
            p.name.round_trip("name"@);
        },
        RichText::RichTexts(p) => {
            reveal_strlit("@type");
            reveal_strlit("texts");
            assert("@type"@.len() == 5 && "@type"@[0] == '@');
            assert("texts"@.len() == 5 && "texts"@[0] == 't');
            lemma_rich_text_list_round_trip(p.texts@, "texts"@);
        },
    }
}

pub proof fn lemma_rich_text_list_round_trip(items: Seq<RichText>, at: Seq<char>)
    ensures
        rich_text_list_parse(
            rich_text_docs(items),
            at) == Ok::<Seq<Doc>,
            Fault>(rich_text_docs(items),
        ),
    decreases items,
{
    let docs = rich_text_docs(items);
    if items.len() == 0 {
        assert(docs =~= Seq::<Doc>::empty());
    } else {
        lemma_rich_text_list_round_trip(items.drop_last(), at);
        assert(docs.drop_last() =~= rich_text_docs(items.drop_last()));
        lemma_rich_text_round_trip(items.last(), at);
        assert(docs.drop_last().push(docs.last()) =~= docs);
    }
}

fn encode_rich_text(x: &RichText) -> (j: Json)
    ensures
        j@ == rich_text_doc(*x),
    decreases x,
{
    match x {
        RichText::RichTextPlain(p) => p.encode(),
        RichText::RichTextBold(p) => {
            let mut members: Vec<Member> = Vec::new();
            put(&mut members, "text", encode_rich_text(&p.text));
            seal(members, "richTextBold")
        },
        RichText::RichTextItalic(p) => {
            let mut members: Vec<Member> = Vec::new();
            put(&mut members, "text", encode_rich_text(&p.text));
            seal(members, "richTextItalic")
        },
        RichText::RichTextUnderline(p) => {
            let mut members: Vec<Member> = Vec::new();
            put(&mut members, "text", encode_rich_text(&p.text));
            seal(members, "richTextUnderline")
        },
        RichText::RichTextStrikethrough(p) => {
            let mut members: Vec<Member> = Vec::new();
            put(&mut members, "text", encode_rich_text(&p.text));
            seal(members, "richTextStrikethrough")
        },
        RichText::RichTextFixed(p) => {
            let mut members: Vec<Member> = Vec::new();
            put(&mut members, "text", encode_rich_text(&p.text));
            seal(members, "richTextFixed")
        },
        RichText::RichTextUrl(p) => {
            let mut members: Vec<Member> = Vec::new();
            put(&mut members, "text", encode_rich_text(&p.text));
            put(&mut members, "url", p.url.encode());
            put(&mut members, "isCached", p.is_cached.encode());
            seal(members, "richTextUrl")
        },
        RichText::RichTextEmailAddress(p) => {
            let mut members: Vec<Member> = Vec::new();
            put(&mut members, "text", encode_rich_text(&p.text));
            put(&mut members, "emailAddress", p.email_address.encode());
            seal(members, "richTextEmailAddress")
        },
        RichText::RichTextSubscript(p) => {
            let mut members: Vec<Member> = Vec::new();
            put(&mut members, "text", encode_rich_text(&p.text));
            seal(members, "richTextSubscript")
        },
        RichText::RichTextSuperscript(p) => {
            let mut members: Vec<Member> = Vec::new();
            put(&mut members, "text", encode_rich_text(&p.text));
            seal(members, "richTextSuperscript")
        },
        RichText::RichTextMarked(p) => {
            let mut members: Vec<Member> = Vec::new();
            put(&mut members, "text", encode_rich_text(&p.text));
            seal(members, "richTextMarked")
        },
        RichText::RichTextPhoneNumber(p) => {
            let mut members: Vec<Member> = Vec::new();
            put(&mut members, "text", encode_rich_text(&p.text));
            put(&mut members, "phoneNumber", p.phone_number.encode());
            seal(members, "richTextPhoneNumber")
        },
        RichText::RichTextIcon(p) => p.encode(),
        RichText::RichTextAnchor(p) => {
            let mut members: Vec<Member> = Vec::new();
            put(&mut members, "text", encode_rich_text(&p.text));
            put(&mut members, "name", p.name.encode());
            seal(members, "richTextAnchor")
        },
        RichText::RichTexts(p) => {
            let mut members: Vec<Member> = Vec::new();
            put(&mut members, "texts", encode_rich_text_list(&p.texts));
            seal(members, "richTexts")
        },
    }
}

fn encode_rich_text_list(items: &Vec<RichText>) -> (j: Json)
    ensures
        j@ == Doc::List(rich_text_docs(items@)),
    decreases items,
{
    let mut out: Vec<Json> = Vec::new();
    let mut i: usize = 0;
    while i < items.len()
        invariant
            i <= items.len(),
            out.len() == i,
            forall|k: int| 0 <= k < i ==> out[k]@ == rich_text_doc(items[k]),
        decreases items.len() - i,
    {
        assert(decreases_to!(items => items[i as int]));
        out.push(encode_rich_text(&items[i]));
        i += 1;
    }
    assert(docs_of(out@) =~= rich_text_docs(items@));
    Json::List(out)
}

fn decode_rich_text(j: &Json, at: &str) -> (r: Result<RichText, DecodeError>)
    ensures
        match r {
            Ok(v) => rich_text_parse(j@, at@) == Ok::<Doc, Fault>(rich_text_doc(v)),
            Err(e) => rich_text_parse(j@, at@) == Err::<Doc, Fault>(e@),
        },
    decreases j,
{
    let members = members_of(j, at)?;
    let tag = discriminator(members)?;
    if same_text(tag, "richTextPlain") {
        Ok(RichText::RichTextPlain(RichTextPlain::decode(j, at)?))
    } else if same_text(tag, "richTextBold") {
        let text = read_rich_text(members, "text")?;
        Ok(RichText::RichTextBold(RichTextBold { text: Box::new(text) }))
    } else if same_text(tag, "richTextItalic") {
        let text = read_rich_text(members, "text")?;
        Ok(RichText::RichTextItalic(RichTextItalic { text: Box::new(text) }))
    } else if same_text(tag, "richTextUnderline") {
        let text = read_rich_text(members, "text")?;
        Ok(RichText::RichTextUnderline(RichTextUnderline { text: Box::new(text) }))
    } else if same_text(tag, "richTextStrikethrough") {
        let text = read_rich_text(members, "text")?;
        Ok(RichText::RichTextStrikethrough(RichTextStrikethrough { text: Box::new(text) }))
    } else if same_text(tag, "richTextFixed") {
        let text = read_rich_text(members, "text")?;
        Ok(RichText::RichTextFixed(RichTextFixed { text: Box::new(text) }))
    } else if same_text(tag, "richTextUrl") {
        let text = read_rich_text(members, "text")?;
        let url = read_field::<String>(members, "url")?;
        let is_cached = read_field::<bool>(members, "isCached")?;
        Ok(RichText::RichTextUrl(RichTextUrl { text: Box::new(text), url, is_cached }))
    } else if same_text(tag, "richTextEmailAddress") {
        let text = read_rich_text(members, "text")?;
        let email_address = read_field::<String>(members, "emailAddress")?;
        Ok(
            RichText::RichTextEmailAddress(
                RichTextEmailAddress { text: Box::new(text), email_address },
            ),
        )
    } else if same_text(tag, "richTextSubscript") {
        let text = read_rich_text(members, "text")?;
        Ok(RichText::RichTextSubscript(RichTextSubscript { text: Box::new(text) }))
    } else if same_text(tag, "richTextSuperscript") {
        let text = read_rich_text(members, "text")?;
        Ok(RichText::RichTextSuperscript(RichTextSuperscript { text: Box::new(text) }))
    } else if same_text(tag, "richTextMarked") {
        let text = read_rich_text(members, "text")?;
        Ok(RichText::RichTextMarked(RichTextMarked { text: Box::new(text) }))
    } else if same_text(tag, "richTextPhoneNumber") {
        let text = read_rich_text(members, "text")?;
        let phone_number = read_field::<String>(members, "phoneNumber")?;
        Ok(
            RichText::RichTextPhoneNumber(
                RichTextPhoneNumber { text: Box::new(text), phone_number },
            ),
        )
    } else if same_text(tag, "richTextIcon") {
        Ok(RichText::RichTextIcon(Box::<RichTextIcon>::decode(j, at)?))
    } else if same_text(tag, "richTextAnchor") {
        let text = read_rich_text(members, "text")?;
        let name = read_field::<String>(members, "name")?;
        Ok(RichText::RichTextAnchor(RichTextAnchor { text: Box::new(text), name }))
    } else if same_text(tag, "richTexts") {
        let texts = read_rich_text_list(members, "texts")?;
        Ok(RichText::RichTexts(RichTexts { texts }))
    } else {
        Err(DecodeError::UnknownVariant(tag.to_owned()))
    }
}

fn read_rich_text(members: &Vec<Member>, key: &str) -> (r: Result<RichText, DecodeError>)
    ensures
        match r {
            Ok(v) => rich_text_field(map_of(members@), key@) == Ok::<Doc, Fault>(rich_text_doc(v)),
            Err(e) => rich_text_field(map_of(members@), key@) == Err::<Doc, Fault>(e@),
        },
    decreases members,
{
    match find(members, key) {
        Some(v) => decode_rich_text(v, key),
        None => Err(DecodeError::MissingField(key.to_owned())),
    }
}

fn read_rich_text_list(members: &Vec<Member>, key: &str) -> (r: Result<Vec<RichText>, DecodeError>)
    ensures
        match r {
            Ok(v) => rich_text_list_field(map_of(members@), key@) == Ok::<Doc, Fault>(
                Doc::List(rich_text_docs(v@)),
            ),
            Err(e) => rich_text_list_field(map_of(members@), key@) == Err::<Doc, Fault>(e@),
        },
    decreases members,
{
    let found = match find(members, key) {
        Some(v) => v,
        None => {
            return Err(DecodeError::MissingField(key.to_owned()));
        },
    };
    let items = match found {
        Json::List(items) => items,
        _ => {
            return Err(DecodeError::TypeMismatch(key.to_owned()));
        },
    };
    assert(decreases_to!(found => found->List_0));
    let ghost docs = docs_of(items@);
    let mut out: Vec<RichText> = Vec::new();
    let mut i: usize = 0;
    assert(docs.take(0) =~= Seq::<Doc>::empty());
    assert(rich_text_docs(out@) =~= Seq::<Doc>::empty());
    while i < items.len()
        invariant
            i <= items.len(),
            docs == docs_of(items@),
            map_of(members@).contains_key(key@),
            map_of(members@)[key@] == Doc::List(docs),
            decreases_to!(members => items),
            rich_text_list_parse(docs.take(i as int), key@) == Ok::<Seq<Doc>, Fault>(
                rich_text_docs(out@),
            ),
        decreases items.len() - i,
    {
        proof {
            lemma_rich_text_list_step(docs, i as int, key@);
            assert(docs[i as int] == items[i as int]@);
            assert(decreases_to!(items => items[i as int]));
        }
        let ghost before = out@;
        match decode_rich_text(&items[i], key) {
            Ok(v) => {
                out.push(v);
                assert(rich_text_docs(out@) =~= rich_text_docs(before).push(rich_text_doc(v)));
            },
            Err(e) => {
                proof {
                    lemma_rich_text_list_fault(docs, i + 1, key@);
                }
                return Err(e);
            },
        }
        i += 1;
    }
    assert(docs.take(i as int) =~= docs);
    Ok(out)
}

fn clone_rich_text(x: &RichText) -> RichText
    decreases x,
{
    match x {
        RichText::RichTextPlain(p) => RichText::RichTextPlain(p.clone()),
        RichText::RichTextBold(
            p) => RichText::RichTextBold(RichTextBold { text: Box::new(clone_rich_text(&p.text)) },
        ),
        RichText::RichTextItalic(
            p) => RichText::RichTextItalic(RichTextItalic { text: Box::new(clone_rich_text(&p.text)) },
        ),
        RichText::RichTextUnderline(
            p) => RichText::RichTextUnderline(RichTextUnderline { text: Box::new(clone_rich_text(&p.text)) },
        ),
        RichText::RichTextStrikethrough(
            p) => RichText::RichTextStrikethrough(RichTextStrikethrough { text: Box::new(clone_rich_text(&p.text)) },
        ),
        RichText::RichTextFixed(
            p) => RichText::RichTextFixed(RichTextFixed { text: Box::new(clone_rich_text(&p.text)) },
        ),
        RichText::RichTextUrl(
            p) => RichText::RichTextUrl(RichTextUrl { text: Box::new(clone_rich_text(&p.text)),
            url: p.url.clone(),
            is_cached: p.is_cached.clone() },
        ),
        RichText::RichTextEmailAddress(
            p) => RichText::RichTextEmailAddress(RichTextEmailAddress { text: Box::new(clone_rich_text(&p.text)),
            email_address: p.email_address.clone() },
        ),
        RichText::RichTextSubscript(
            p) => RichText::RichTextSubscript(RichTextSubscript { text: Box::new(clone_rich_text(&p.text)) },
        ),
        RichText::RichTextSuperscript(
            p) => RichText::RichTextSuperscript(RichTextSuperscript { text: Box::new(clone_rich_text(&p.text)) },
        ),
        RichText::RichTextMarked(
            p) => RichText::RichTextMarked(RichTextMarked { text: Box::new(clone_rich_text(&p.text)) },
        ),
        RichText::RichTextPhoneNumber(
            p) => RichText::RichTextPhoneNumber(RichTextPhoneNumber { text: Box::new(clone_rich_text(&p.text)),
            phone_number: p.phone_number.clone() },
        ),
        RichText::RichTextIcon(p) => RichText::RichTextIcon(p.clone()),
        RichText::RichTextAnchor(
            p) => RichText::RichTextAnchor(RichTextAnchor { text: Box::new(clone_rich_text(&p.text)),
            name: p.name.clone() },
        ),
        RichText::RichTexts(
            p) => RichText::RichTexts(RichTexts { texts: clone_rich_text_list(&p.texts) },
        ),
    }
}

fn clone_rich_text_list(items: &Vec<RichText>) -> Vec<RichText>
    decreases items,
{
    let mut out: Vec<RichText> = Vec::new();
    let mut i: usize = 0;
    while i < items.len()
        invariant
            i <= items.len(),
        decreases items.len() - i,
    {
        assert(decreases_to!(items => items[i as int]));
        out.push(clone_rich_text(&items[i]));
        i += 1;
    }
    out
}

impl Clone for RichText {
    fn clone(&self) -> Self {
        clone_rich_text(self)
    }
}

impl Wire for RichText {
    open spec fn wire(&self) -> Doc {
        rich_text_doc(*self)
    }

    open spec fn parse(d: Doc, at: Seq<char>) -> Result<Doc, Fault> {
        rich_text_parse(d, at)
    }

    fn encode(&self) -> (j: Json) {
        encode_rich_text(self)
    }

    fn decode(j: &Json, at: &str) -> (r: Result<Self, DecodeError>) {
        decode_rich_text(j, at)
    }

    proof fn round_trip(&self, at: Seq<char>) {
        lemma_rich_text_round_trip(*self, at);
    }
}

impl Tagged for RichText {
    open spec fn known(tag: Seq<char>) -> bool {
        ||| tag == "richTextPlain"@
        ||| tag == "richTextBold"@
        ||| tag == "richTextItalic"@
        ||| tag == "richTextUnderline"@
        ||| tag == "richTextStrikethrough"@
        ||| tag == "richTextFixed"@
        ||| tag == "richTextUrl"@
        ||| tag == "richTextEmailAddress"@
        ||| tag == "richTextSubscript"@
        ||| tag == "richTextSuperscript"@
        ||| tag == "richTextMarked"@
        ||| tag == "richTextPhoneNumber"@
        ||| tag == "richTextIcon"@
        ||| tag == "richTextAnchor"@
        ||| tag == "richTexts"@
    }

    fn knows(tag: &str) -> (r: bool) {
        same_text(tag, "richTextPlain")
            || same_text(tag, "richTextBold")
            || same_text(tag, "richTextItalic")
            || same_text(tag, "richTextUnderline")
            || same_text(tag, "richTextStrikethrough")
            || same_text(tag, "richTextFixed")
            || same_text(tag, "richTextUrl")
            || same_text(tag, "richTextEmailAddress")
            || same_text(tag, "richTextSubscript")
            || same_text(tag, "richTextSuperscript")
            || same_text(tag, "richTextMarked")
            || same_text(tag, "richTextPhoneNumber")
            || same_text(tag, "richTextIcon")
            || same_text(tag, "richTextAnchor")
            || same_text(tag, "richTexts")
    }

    proof fn tag_known(&self) {
        match self {
            Self::RichTextPlain(p) => p.tag_known(),
            Self::RichTextBold(p) => {
                assert(tag_of(self.wire()) == Some("richTextBold"@));
                assert(Self::known("richTextBold"@));
            },
            Self::RichTextItalic(p) => {
                assert(tag_of(self.wire()) == Some("richTextItalic"@));
                assert(Self::known("richTextItalic"@));
            },
            Self::RichTextUnderline(p) => {
                assert(tag_of(self.wire()) == Some("richTextUnderline"@));
                assert(Self::known("richTextUnderline"@));
            },
            Self::RichTextStrikethrough(p) => {
                assert(tag_of(self.wire()) == Some("richTextStrikethrough"@));
                assert(Self::known("richTextStrikethrough"@));
            },
            Self::RichTextFixed(p) => {
                assert(tag_of(self.wire()) == Some("richTextFixed"@));
                assert(Self::known("richTextFixed"@));
            },
            Self::RichTextUrl(p) => {
                assert(tag_of(self.wire()) == Some("richTextUrl"@));
                assert(Self::known("richTextUrl"@));
            },
            Self::RichTextEmailAddress(p) => {
                assert(tag_of(self.wire()) == Some("richTextEmailAddress"@));
                assert(Self::known("richTextEmailAddress"@));
            },
            Self::RichTextSubscript(p) => {
                assert(tag_of(self.wire()) == Some("richTextSubscript"@));
                assert(Self::known("richTextSubscript"@));
            },
            Self::RichTextSuperscript(p) => {
                assert(tag_of(self.wire()) == Some("richTextSuperscript"@));
                assert(Self::known("richTextSuperscript"@));
            },
            Self::RichTextMarked(p) => {
                assert(tag_of(self.wire()) == Some("richTextMarked"@));
                assert(Self::known("richTextMarked"@));
            },
            Self::RichTextPhoneNumber(p) => {
                assert(tag_of(self.wire()) == Some("richTextPhoneNumber"@));
                assert(Self::known("richTextPhoneNumber"@));
            },
            Self::RichTextIcon(p) => (**p).tag_known(),
            Self::RichTextAnchor(p) => {
                assert(tag_of(self.wire()) == Some("richTextAnchor"@));
                assert(Self::known("richTextAnchor"@));
            },
            Self::RichTexts(p) => {
                assert(tag_of(self.wire()) == Some("richTexts"@));
                assert(Self::known("richTexts"@));
            },
        }
    }
}

impl Union for RichText {
    proof fn unknown_rejected(d: Doc, at: Seq<char>) {
    }

    proof fn untagged_rejected(d: Doc, at: Seq<char>) {
    }
}

pub proof fn lemma_rich_text_docs_are_wire(items: Seq<RichText>)
    ensures
        rich_text_docs(items) == wire_items::<RichText>(items),
{
    assert(rich_text_docs(items) =~= wire_items::<RichText>(items));
}

pub proof fn lemma_rich_text_list_parse_is_generic(items: Seq<Doc>, at: Seq<char>)
    ensures
        rich_text_list_parse(items, at) == parse_items::<RichText>(items, at),
    decreases items.len(),
{
    if items.len() > 0 {
        lemma_rich_text_list_parse_is_generic(items.drop_last(), at);
    }
}

impl RichText {
    /// A document tagged `richTextBold` decodes as a `RichTextBold`.
    pub proof fn selects_rich_text_bold(d: Doc, at: Seq<char>)
        requires
            tag_of(d) == Some("richTextBold"@),
        ensures
            Self::parse(d, at) == RichTextBold::parse(d, at),
    {
        reveal(<RichTextBold as Wire>::parse);
        reveal_strlit("richTextAnchor");
        reveal_strlit("richTextBold");
        reveal_strlit("richTextEmailAddress");
        reveal_strlit("richTextFixed");
        reveal_strlit("richTextIcon");
        reveal_strlit("richTextItalic");
        reveal_strlit("richTextMarked");
        reveal_strlit("richTextPhoneNumber");
        reveal_strlit("richTextPlain");
        reveal_strlit("richTextStrikethrough");
        reveal_strlit("richTextSubscript");
        reveal_strlit("richTextSuperscript");
        reveal_strlit("richTextUnderline");
        reveal_strlit("richTextUrl");
        reveal_strlit("richTexts");
        assert("richTextAnchor"@.len() == 14 && "richTextAnchor"@[8] == 'A');
        assert("richTextBold"@.len() == 12 && "richTextBold"@[8] == 'B');
        assert("richTextEmailAddress"@.len() == 20);
        assert("richTextFixed"@.len() == 13 && "richTextFixed"@[8] == 'F');
        assert("richTextIcon"@.len() == 12 && "richTextIcon"@[8] == 'I');
        assert("richTextItalic"@.len() == 14 && "richTextItalic"@[8] == 'I');
        assert("richTextMarked"@.len() == 14 && "richTextMarked"@[8] == 'M');
        assert("richTextPhoneNumber"@.len() == 19 && "richTextPhoneNumber"@[8] == 'P');
        assert("richTextPlain"@.len() == 13 && "richTextPlain"@[8] == 'P');
        assert("richTextStrikethrough"@.len() == 21);
        assert("richTextSubscript"@.len() == 17 && "richTextSubscript"@[8] == 'S');
        assert("richTextSuperscript"@.len() == 19 && "richTextSuperscript"@[8] == 'S');
        assert("richTextUnderline"@.len() == 17 && "richTextUnderline"@[8] == 'U');
        assert("richTextUrl"@.len() == 11);
        assert("richTexts"@.len() == 9);
    }

    /// The union writes a `RichTextBold` as the `RichTextBold` writes itself.
    pub proof fn writes_rich_text_bold(p: RichTextBold)
        ensures
            Self::RichTextBold(p).wire() == p.wire(),
    {
        reveal(<RichTextBold as Wire>::wire);
    }

    /// A document tagged `richTextItalic` decodes as a `RichTextItalic`.
    pub proof fn selects_rich_text_italic(d: Doc, at: Seq<char>)
        requires
            tag_of(d) == Some("richTextItalic"@),
        ensures
            Self::parse(d, at) == RichTextItalic::parse(d, at),
    {
        reveal(<RichTextItalic as Wire>::parse);
        reveal_strlit("richTextAnchor");
        reveal_strlit("richTextBold");
        reveal_strlit("richTextEmailAddress");
        reveal_strlit("richTextFixed");
        reveal_strlit("richTextIcon");
        reveal_strlit("richTextItalic");
        reveal_strlit("richTextMarked");
        reveal_strlit("richTextPhoneNumber");
        reveal_strlit("richTextPlain");
        reveal_strlit("richTextStrikethrough");
        reveal_strlit("richTextSubscript");
        reveal_strlit("richTextSuperscript");
        reveal_strlit("richTextUnderline");
        reveal_strlit("richTextUrl");
        reveal_strlit("richTexts");
        assert("richTextAnchor"@.len() == 14 && "richTextAnchor"@[8] == 'A');
        assert("richTextBold"@.len() == 12 && "richTextBold"@[8] == 'B');
        assert("richTextEmailAddress"@.len() == 20);
        assert("richTextFixed"@.len() == 13 && "richTextFixed"@[8] == 'F');
        assert("richTextIcon"@.len() == 12 && "richTextIcon"@[8] == 'I');
        assert("richTextItalic"@.len() == 14 && "richTextItalic"@[8] == 'I');
        assert("richTextMarked"@.len() == 14 && "richTextMarked"@[8] == 'M');
        assert("richTextPhoneNumber"@.len() == 19 && "richTextPhoneNumber"@[8] == 'P');
        assert("richTextPlain"@.len() == 13 && "richTextPlain"@[8] == 'P');
        assert("richTextStrikethrough"@.len() == 21);
        assert("richTextSubscript"@.len() == 17 && "richTextSubscript"@[8] == 'S');
        assert("richTextSuperscript"@.len() == 19 && "richTextSuperscript"@[8] == 'S');
        assert("richTextUnderline"@.len() == 17 && "richTextUnderline"@[8] == 'U');
        assert("richTextUrl"@.len() == 11);
        assert("richTexts"@.len() == 9);
    }

    /// The union writes a `RichTextItalic` as the `RichTextItalic` writes itself.
    pub proof fn writes_rich_text_italic(p: RichTextItalic)
        ensures
            Self::RichTextItalic(p).wire() == p.wire(),
    {
        reveal(<RichTextItalic as Wire>::wire);
    }

    /// A document tagged `richTextUnderline` decodes as a `RichTextUnderline`.
    pub proof fn selects_rich_text_underline(d: Doc, at: Seq<char>)
        requires
            tag_of(d) == Some("richTextUnderline"@),
        ensures
            Self::parse(d, at) == RichTextUnderline::parse(d, at),
    {
        reveal(<RichTextUnderline as Wire>::parse);
        reveal_strlit("richTextAnchor");
        reveal_strlit("richTextBold");
        reveal_strlit("richTextEmailAddress");
        reveal_strlit("richTextFixed");
        reveal_strlit("richTextIcon");
        reveal_strlit("richTextItalic");
        reveal_strlit("richTextMarked");
        reveal_strlit("richTextPhoneNumber");
        reveal_strlit("richTextPlain");
        reveal_strlit("richTextStrikethrough");
        reveal_strlit("richTextSubscript");
        reveal_strlit("richTextSuperscript");
        reveal_strlit("richTextUnderline");
        reveal_strlit("richTextUrl");
        reveal_strlit("richTexts");
        assert("richTextAnchor"@.len() == 14 && "richTextAnchor"@[8] == 'A');
        assert("richTextBold"@.len() == 12 && "richTextBold"@[8] == 'B');
        assert("richTextEmailAddress"@.len() == 20);
        assert("richTextFixed"@.len() == 13 && "richTextFixed"@[8] == 'F');
        assert("richTextIcon"@.len() == 12 && "richTextIcon"@[8] == 'I');
        assert("richTextItalic"@.len() == 14 && "richTextItalic"@[8] == 'I');
        assert("richTextMarked"@.len() == 14 && "richTextMarked"@[8] == 'M');
        assert("richTextPhoneNumber"@.len() == 19 && "richTextPhoneNumber"@[8] == 'P');
        assert("richTextPlain"@.len() == 13 && "richTextPlain"@[8] == 'P');
        assert("richTextStrikethrough"@.len() == 21);
        assert("richTextSubscript"@.len() == 17 && "richTextSubscript"@[8] == 'S');
        assert("richTextSuperscript"@.len() == 19 && "richTextSuperscript"@[8] == 'S');
        assert("richTextUnderline"@.len() == 17 && "richTextUnderline"@[8] == 'U');
        assert("richTextUrl"@.len() == 11);
        assert("richTexts"@.len() == 9);
    }

    /// The union writes a `RichTextUnderline` as the `RichTextUnderline` writes itself.
    pub proof fn writes_rich_text_underline(p: RichTextUnderline)
        ensures
            Self::RichTextUnderline(p).wire() == p.wire(),
    {
        reveal(<RichTextUnderline as Wire>::wire);
    }

    /// A document tagged `richTextStrikethrough` decodes as a `RichTextStrikethrough`.
    pub proof fn selects_rich_text_strikethrough(d: Doc, at: Seq<char>)
        requires
            tag_of(d) == Some("richTextStrikethrough"@),
        ensures
            Self::parse(d, at) == RichTextStrikethrough::parse(d, at),
    {
        reveal(<RichTextStrikethrough as Wire>::parse);
        reveal_strlit("richTextAnchor");
        reveal_strlit("richTextBold");
        reveal_strlit("richTextEmailAddress");
        reveal_strlit("richTextFixed");
        reveal_strlit("richTextIcon");
        reveal_strlit("richTextItalic");
        reveal_strlit("richTextMarked");
        reveal_strlit("richTextPhoneNumber");
        reveal_strlit("richTextPlain");
        reveal_strlit("richTextStrikethrough");
        reveal_strlit("richTextSubscript");
        reveal_strlit("richTextSuperscript");
        reveal_strlit("richTextUnderline");
        reveal_strlit("richTextUrl");
        reveal_strlit("richTexts");
        assert("richTextAnchor"@.len() == 14 && "richTextAnchor"@[8] == 'A');
        assert("richTextBold"@.len() == 12 && "richTextBold"@[8] == 'B');
        assert("richTextEmailAddress"@.len() == 20);
        assert("richTextFixed"@.len() == 13 && "richTextFixed"@[8] == 'F');
        assert("richTextIcon"@.len() == 12 && "richTextIcon"@[8] == 'I');
        assert("richTextItalic"@.len() == 14 && "richTextItalic"@[8] == 'I');
        assert("richTextMarked"@.len() == 14 && "richTextMarked"@[8] == 'M');
        assert("richTextPhoneNumber"@.len() == 19 && "richTextPhoneNumber"@[8] == 'P');
        assert("richTextPlain"@.len() == 13 && "richTextPlain"@[8] == 'P');
        assert("richTextStrikethrough"@.len() == 21);
        assert("richTextSubscript"@.len() == 17 && "richTextSubscript"@[8] == 'S');
        assert("richTextSuperscript"@.len() == 19 && "richTextSuperscript"@[8] == 'S');
        assert("richTextUnderline"@.len() == 17 && "richTextUnderline"@[8] == 'U');
        assert("richTextUrl"@.len() == 11);
        assert("richTexts"@.len() == 9);
    }

    /// The union writes a `RichTextStrikethrough` as the `RichTextStrikethrough` writes itself.
    pub proof fn writes_rich_text_strikethrough(p: RichTextStrikethrough)
        ensures
            Self::RichTextStrikethrough(p).wire() == p.wire(),
    {
        reveal(<RichTextStrikethrough as Wire>::wire);
    }

    /// A document tagged `richTextFixed` decodes as a `RichTextFixed`.
    pub proof fn selects_rich_text_fixed(d: Doc, at: Seq<char>)
        requires
            tag_of(d) == Some("richTextFixed"@),
        ensures
            Self::parse(d, at) == RichTextFixed::parse(d, at),
    {
        reveal(<RichTextFixed as Wire>::parse);
        reveal_strlit("richTextAnchor");
        reveal_strlit("richTextBold");
        reveal_strlit("richTextEmailAddress");
        reveal_strlit("richTextFixed");
        reveal_strlit("richTextIcon");
        reveal_strlit("richTextItalic");
        reveal_strlit("richTextMarked");
        reveal_strlit("richTextPhoneNumber");
        reveal_strlit("richTextPlain");
        reveal_strlit("richTextStrikethrough");
        reveal_strlit("richTextSubscript");
        reveal_strlit("richTextSuperscript");
        reveal_strlit("richTextUnderline");
        reveal_strlit("richTextUrl");
        reveal_strlit("richTexts");
        assert("richTextAnchor"@.len() == 14 && "richTextAnchor"@[8] == 'A');
        assert("richTextBold"@.len() == 12 && "richTextBold"@[8] == 'B');
        assert("richTextEmailAddress"@.len() == 20);
        assert("richTextFixed"@.len() == 13 && "richTextFixed"@[8] == 'F');
        assert("richTextIcon"@.len() == 12 && "richTextIcon"@[8] == 'I');
        assert("richTextItalic"@.len() == 14 && "richTextItalic"@[8] == 'I');
        assert("richTextMarked"@.len() == 14 && "richTextMarked"@[8] == 'M');
        assert("richTextPhoneNumber"@.len() == 19 && "richTextPhoneNumber"@[8] == 'P');
        assert("richTextPlain"@.len() == 13 && "richTextPlain"@[8] == 'P');
        assert("richTextStrikethrough"@.len() == 21);
        assert("richTextSubscript"@.len() == 17 && "richTextSubscript"@[8] == 'S');
        assert("richTextSuperscript"@.len() == 19 && "richTextSuperscript"@[8] == 'S');
        assert("richTextUnderline"@.len() == 17 && "richTextUnderline"@[8] == 'U');
        assert("richTextUrl"@.len() == 11);
        assert("richTexts"@.len() == 9);
    }

    /// The union writes a `RichTextFixed` as the `RichTextFixed` writes itself.
    pub proof fn writes_rich_text_fixed(p: RichTextFixed)
        ensures
            Self::RichTextFixed(p).wire() == p.wire(),
    {
        reveal(<RichTextFixed as Wire>::wire);
    }

    /// A document tagged `richTextUrl` decodes as a `RichTextUrl`.
    pub proof fn selects_rich_text_url(d: Doc, at: Seq<char>)
        requires
            tag_of(d) == Some("richTextUrl"@),
        ensures
            Self::parse(d, at) == RichTextUrl::parse(d, at),
    {
        reveal(<RichTextUrl as Wire>::parse);
        reveal_strlit("richTextAnchor");
        reveal_strlit("richTextBold");
        reveal_strlit("richTextEmailAddress");
        reveal_strlit("richTextFixed");
        reveal_strlit("richTextIcon");
        reveal_strlit("richTextItalic");
        reveal_strlit("richTextMarked");
        reveal_strlit("richTextPhoneNumber");
        reveal_strlit("richTextPlain");
        reveal_strlit("richTextStrikethrough");
        reveal_strlit("richTextSubscript");
        reveal_strlit("richTextSuperscript");
        reveal_strlit("richTextUnderline");
        reveal_strlit("richTextUrl");
        reveal_strlit("richTexts");
        assert("richTextAnchor"@.len() == 14 && "richTextAnchor"@[8] == 'A');
        assert("richTextBold"@.len() == 12 && "richTextBold"@[8] == 'B');
        assert("richTextEmailAddress"@.len() == 20);
        assert("richTextFixed"@.len() == 13 && "richTextFixed"@[8] == 'F');
        assert("richTextIcon"@.len() == 12 && "richTextIcon"@[8] == 'I');
        assert("richTextItalic"@.len() == 14 && "richTextItalic"@[8] == 'I');
        assert("richTextMarked"@.len() == 14 && "richTextMarked"@[8] == 'M');
        assert("richTextPhoneNumber"@.len() == 19 && "richTextPhoneNumber"@[8] == 'P');
        assert("richTextPlain"@.len() == 13 && "richTextPlain"@[8] == 'P');
        assert("richTextStrikethrough"@.len() == 21);
        assert("richTextSubscript"@.len() == 17 && "richTextSubscript"@[8] == 'S');
        assert("richTextSuperscript"@.len() == 19 && "richTextSuperscript"@[8] == 'S');
        assert("richTextUnderline"@.len() == 17 && "richTextUnderline"@[8] == 'U');
        assert("richTextUrl"@.len() == 11);
        assert("richTexts"@.len() == 9);
    }

    /// The union writes a `RichTextUrl` as the `RichTextUrl` writes itself.
    pub proof fn writes_rich_text_url(p: RichTextUrl)
        ensures
            Self::RichTextUrl(p).wire() == p.wire(),
    {
        reveal(<RichTextUrl as Wire>::wire);
    }

    /// A document tagged `richTextEmailAddress` decodes as a `RichTextEmailAddress`.
    pub proof fn selects_rich_text_email_address(d: Doc, at: Seq<char>)
        requires
            tag_of(d) == Some("richTextEmailAddress"@),
        ensures
            Self::parse(d, at) == RichTextEmailAddress::parse(d, at),
    {
        reveal(<RichTextEmailAddress as Wire>::parse);
        reveal_strlit("richTextAnchor");
        reveal_strlit("richTextBold");
        reveal_strlit("richTextEmailAddress");
        reveal_strlit("richTextFixed");
        reveal_strlit("richTextIcon");
        reveal_strlit("richTextItalic");
        reveal_strlit("richTextMarked");
        reveal_strlit("richTextPhoneNumber");
        reveal_strlit("richTextPlain");
        reveal_strlit("richTextStrikethrough");
        reveal_strlit("richTextSubscript");
        reveal_strlit("richTextSuperscript");
        reveal_strlit("richTextUnderline");
        reveal_strlit("richTextUrl");
        reveal_strlit("richTexts");
        assert("richTextAnchor"@.len() == 14 && "richTextAnchor"@[8] == 'A');
        assert("richTextBold"@.len() == 12 && "richTextBold"@[8] == 'B');
        assert("richTextEmailAddress"@.len() == 20);
        assert("richTextFixed"@.len() == 13 && "richTextFixed"@[8] == 'F');
        assert("richTextIcon"@.len() == 12 && "richTextIcon"@[8] == 'I');
        assert("richTextItalic"@.len() == 14 && "richTextItalic"@[8] == 'I');
        assert("richTextMarked"@.len() == 14 && "richTextMarked"@[8] == 'M');
        assert("richTextPhoneNumber"@.len() == 19 && "richTextPhoneNumber"@[8] == 'P');
        assert("richTextPlain"@.len() == 13 && "richTextPlain"@[8] == 'P');
        assert("richTextStrikethrough"@.len() == 21);
        assert("richTextSubscript"@.len() == 17 && "richTextSubscript"@[8] == 'S');
        assert("richTextSuperscript"@.len() == 19 && "richTextSuperscript"@[8] == 'S');
        assert("richTextUnderline"@.len() == 17 && "richTextUnderline"@[8] == 'U');
        assert("richTextUrl"@.len() == 11);
        assert("richTexts"@.len() == 9);
    }

    /// The union writes a `RichTextEmailAddress` as the `RichTextEmailAddress` writes itself.
    pub proof fn writes_rich_text_email_address(p: RichTextEmailAddress)
        ensures
            Self::RichTextEmailAddress(p).wire() == p.wire(),
    {
        reveal(<RichTextEmailAddress as Wire>::wire);
    }

    /// A document tagged `richTextSubscript` decodes as a `RichTextSubscript`.
    pub proof fn selects_rich_text_subscript(d: Doc, at: Seq<char>)
        requires
            tag_of(d) == Some("richTextSubscript"@),
        ensures
            Self::parse(d, at) == RichTextSubscript::parse(d, at),
    {
        reveal(<RichTextSubscript as Wire>::parse);
        reveal_strlit("richTextAnchor");
        reveal_strlit("richTextBold");
        reveal_strlit("richTextEmailAddress");
        reveal_strlit("richTextFixed");
        reveal_strlit("richTextIcon");
        reveal_strlit("richTextItalic");
        reveal_strlit("richTextMarked");
        reveal_strlit("richTextPhoneNumber");
        reveal_strlit("richTextPlain");
        reveal_strlit("richTextStrikethrough");
        reveal_strlit("richTextSubscript");
        reveal_strlit("richTextSuperscript");
        reveal_strlit("richTextUnderline");
        reveal_strlit("richTextUrl");
        reveal_strlit("richTexts");
        assert("richTextAnchor"@.len() == 14 && "richTextAnchor"@[8] == 'A');
        assert("richTextBold"@.len() == 12 && "richTextBold"@[8] == 'B');
        assert("richTextEmailAddress"@.len() == 20);
        assert("richTextFixed"@.len() == 13 && "richTextFixed"@[8] == 'F');
        assert("richTextIcon"@.len() == 12 && "richTextIcon"@[8] == 'I');
        assert("richTextItalic"@.len() == 14 && "richTextItalic"@[8] == 'I');
        assert("richTextMarked"@.len() == 14 && "richTextMarked"@[8] == 'M');
        assert("richTextPhoneNumber"@.len() == 19 && "richTextPhoneNumber"@[8] == 'P');
        assert("richTextPlain"@.len() == 13 && "richTextPlain"@[8] == 'P');
        assert("richTextStrikethrough"@.len() == 21);
        assert("richTextSubscript"@.len() == 17 && "richTextSubscript"@[8] == 'S');
        assert("richTextSuperscript"@.len() == 19 && "richTextSuperscript"@[8] == 'S');
        assert("richTextUnderline"@.len() == 17 && "richTextUnderline"@[8] == 'U');
        assert("richTextUrl"@.len() == 11);
        assert("richTexts"@.len() == 9);
    }

    /// The union writes a `RichTextSubscript` as the `RichTextSubscript` writes itself.
    pub proof fn writes_rich_text_subscript(p: RichTextSubscript)
        ensures
            Self::RichTextSubscript(p).wire() == p.wire(),
    {
        reveal(<RichTextSubscript as Wire>::wire);
    }

    /// A document tagged `richTextSuperscript` decodes as a `RichTextSuperscript`.
    pub proof fn selects_rich_text_superscript(d: Doc, at: Seq<char>)
        requires
            tag_of(d) == Some("richTextSuperscript"@),
        ensures
            Self::parse(d, at) == RichTextSuperscript::parse(d, at),
    {
        reveal(<RichTextSuperscript as Wire>::parse);
        reveal_strlit("richTextAnchor");
        reveal_strlit("richTextBold");
        reveal_strlit("richTextEmailAddress");
        reveal_strlit("richTextFixed");
        reveal_strlit("richTextIcon");
        reveal_strlit("richTextItalic");
        reveal_strlit("richTextMarked");
        reveal_strlit("richTextPhoneNumber");
        reveal_strlit("richTextPlain");
        reveal_strlit("richTextStrikethrough");
        reveal_strlit("richTextSubscript");
        reveal_strlit("richTextSuperscript");
        reveal_strlit("richTextUnderline");
        reveal_strlit("richTextUrl");
        reveal_strlit("richTexts");
        assert("richTextAnchor"@.len() == 14 && "richTextAnchor"@[8] == 'A');
        assert("richTextBold"@.len() == 12 && "richTextBold"@[8] == 'B');
        assert("richTextEmailAddress"@.len() == 20);
        assert("richTextFixed"@.len() == 13 && "richTextFixed"@[8] == 'F');
        assert("richTextIcon"@.len() == 12 && "richTextIcon"@[8] == 'I');
        assert("richTextItalic"@.len() == 14 && "richTextItalic"@[8] == 'I');
        assert("richTextMarked"@.len() == 14 && "richTextMarked"@[8] == 'M');
        assert("richTextPhoneNumber"@.len() == 19 && "richTextPhoneNumber"@[8] == 'P');
        assert("richTextPlain"@.len() == 13 && "richTextPlain"@[8] == 'P');
        assert("richTextStrikethrough"@.len() == 21);
        assert("richTextSubscript"@.len() == 17 && "richTextSubscript"@[8] == 'S');
        assert("richTextSuperscript"@.len() == 19 && "richTextSuperscript"@[8] == 'S');
        assert("richTextUnderline"@.len() == 17 && "richTextUnderline"@[8] == 'U');
        assert("richTextUrl"@.len() == 11);
        assert("richTexts"@.len() == 9);
    }

    /// The union writes a `RichTextSuperscript` as the `RichTextSuperscript` writes itself.
    pub proof fn writes_rich_text_superscript(p: RichTextSuperscript)
        ensures
            Self::RichTextSuperscript(p).wire() == p.wire(),
    {
        reveal(<RichTextSuperscript as Wire>::wire);
    }

    /// A document tagged `richTextMarked` decodes as a `RichTextMarked`.
    pub proof fn selects_rich_text_marked(d: Doc, at: Seq<char>)
        requires
            tag_of(d) == Some("richTextMarked"@),
        ensures
            Self::parse(d, at) == RichTextMarked::parse(d, at),
    {
        reveal(<RichTextMarked as Wire>::parse);
        reveal_strlit("richTextAnchor");
        reveal_strlit("richTextBold");
        reveal_strlit("richTextEmailAddress");
        reveal_strlit("richTextFixed");
        reveal_strlit("richTextIcon");
        reveal_strlit("richTextItalic");
        reveal_strlit("richTextMarked");
        reveal_strlit("richTextPhoneNumber");
        reveal_strlit("richTextPlain");
        reveal_strlit("richTextStrikethrough");
        reveal_strlit("richTextSubscript");
        reveal_strlit("richTextSuperscript");
        reveal_strlit("richTextUnderline");
        reveal_strlit("richTextUrl");
        reveal_strlit("richTexts");
        assert("richTextAnchor"@.len() == 14 && "richTextAnchor"@[8] == 'A');
        assert("richTextBold"@.len() == 12 && "richTextBold"@[8] == 'B');
        assert("richTextEmailAddress"@.len() == 20);
        assert("richTextFixed"@.len() == 13 && "richTextFixed"@[8] == 'F');
        assert("richTextIcon"@.len() == 12 && "richTextIcon"@[8] == 'I');
        assert("richTextItalic"@.len() == 14 && "richTextItalic"@[8] == 'I');
        assert("richTextMarked"@.len() == 14 && "richTextMarked"@[8] == 'M');
        assert("richTextPhoneNumber"@.len() == 19 && "richTextPhoneNumber"@[8] == 'P');
        assert("richTextPlain"@.len() == 13 && "richTextPlain"@[8] == 'P');
        assert("richTextStrikethrough"@.len() == 21);
        assert("richTextSubscript"@.len() == 17 && "richTextSubscript"@[8] == 'S');
        assert("richTextSuperscript"@.len() == 19 && "richTextSuperscript"@[8] == 'S');
        assert("richTextUnderline"@.len() == 17 && "richTextUnderline"@[8] == 'U');
        assert("richTextUrl"@.len() == 11);
        assert("richTexts"@.len() == 9);
    }

    /// The union writes a `RichTextMarked` as the `RichTextMarked` writes itself.
    pub proof fn writes_rich_text_marked(p: RichTextMarked)
        ensures
            Self::RichTextMarked(p).wire() == p.wire(),
    {
        reveal(<RichTextMarked as Wire>::wire);
    }

    /// A document tagged `richTextPhoneNumber` decodes as a `RichTextPhoneNumber`.
    pub proof fn selects_rich_text_phone_number(d: Doc, at: Seq<char>)
        requires
            tag_of(d) == Some("richTextPhoneNumber"@),
        ensures
            Self::parse(d, at) == RichTextPhoneNumber::parse(d, at),
    {
        reveal(<RichTextPhoneNumber as Wire>::parse);
        reveal_strlit("richTextAnchor");
        reveal_strlit("richTextBold");
        reveal_strlit("richTextEmailAddress");
        reveal_strlit("richTextFixed");
        reveal_strlit("richTextIcon");
        reveal_strlit("richTextItalic");
        reveal_strlit("richTextMarked");
        reveal_strlit("richTextPhoneNumber");
        reveal_strlit("richTextPlain");
        reveal_strlit("richTextStrikethrough");
        reveal_strlit("richTextSubscript");
        reveal_strlit("richTextSuperscript");
        reveal_strlit("richTextUnderline");
        reveal_strlit("richTextUrl");
        reveal_strlit("richTexts");
        assert("richTextAnchor"@.len() == 14 && "richTextAnchor"@[8] == 'A');
        assert("richTextBold"@.len() == 12 && "richTextBold"@[8] == 'B');
        assert("richTextEmailAddress"@.len() == 20);
        assert("richTextFixed"@.len() == 13 && "richTextFixed"@[8] == 'F');
        assert("richTextIcon"@.len() == 12 && "richTextIcon"@[8] == 'I');
        assert("richTextItalic"@.len() == 14 && "richTextItalic"@[8] == 'I');
        assert("richTextMarked"@.len() == 14 && "richTextMarked"@[8] == 'M');
        assert("richTextPhoneNumber"@.len() == 19 && "richTextPhoneNumber"@[8] == 'P');
        assert("richTextPlain"@.len() == 13 && "richTextPlain"@[8] == 'P');
        assert("richTextStrikethrough"@.len() == 21);
        assert("richTextSubscript"@.len() == 17 && "richTextSubscript"@[8] == 'S');
        assert("richTextSuperscript"@.len() == 19 && "richTextSuperscript"@[8] == 'S');
        assert("richTextUnderline"@.len() == 17 && "richTextUnderline"@[8] == 'U');
        assert("richTextUrl"@.len() == 11);
        assert("richTexts"@.len() == 9);
    }

    /// The union writes a `RichTextPhoneNumber` as the `RichTextPhoneNumber` writes itself.
    pub proof fn writes_rich_text_phone_number(p: RichTextPhoneNumber)
        ensures
            Self::RichTextPhoneNumber(p).wire() == p.wire(),
    {
        reveal(<RichTextPhoneNumber as Wire>::wire);
    }

    /// A document tagged `richTextAnchor` decodes as a `RichTextAnchor`.
    pub proof fn selects_rich_text_anchor(d: Doc, at: Seq<char>)
        requires
            tag_of(d) == Some("richTextAnchor"@),
        ensures
            Self::parse(d, at) == RichTextAnchor::parse(d, at),
    {
        reveal(<RichTextAnchor as Wire>::parse);
        reveal_strlit("richTextAnchor");
        reveal_strlit("richTextBold");
        reveal_strlit("richTextEmailAddress");
        reveal_strlit("richTextFixed");
        reveal_strlit("richTextIcon");
        reveal_strlit("richTextItalic");
        reveal_strlit("richTextMarked");
        reveal_strlit("richTextPhoneNumber");
        reveal_strlit("richTextPlain");
        reveal_strlit("richTextStrikethrough");
        reveal_strlit("richTextSubscript");
        reveal_strlit("richTextSuperscript");
        reveal_strlit("richTextUnderline");
        reveal_strlit("richTextUrl");
        reveal_strlit("richTexts");
        assert("richTextAnchor"@.len() == 14 && "richTextAnchor"@[8] == 'A');
        assert("richTextBold"@.len() == 12 && "richTextBold"@[8] == 'B');
        assert("richTextEmailAddress"@.len() == 20);
        assert("richTextFixed"@.len() == 13 && "richTextFixed"@[8] == 'F');
        assert("richTextIcon"@.len() == 12 && "richTextIcon"@[8] == 'I');
        assert("richTextItalic"@.len() == 14 && "richTextItalic"@[8] == 'I');
        assert("richTextMarked"@.len() == 14 && "richTextMarked"@[8] == 'M');
        assert("richTextPhoneNumber"@.len() == 19 && "richTextPhoneNumber"@[8] == 'P');
        assert("richTextPlain"@.len() == 13 && "richTextPlain"@[8] == 'P');
        assert("richTextStrikethrough"@.len() == 21);
        assert("richTextSubscript"@.len() == 17 && "richTextSubscript"@[8] == 'S');
        assert("richTextSuperscript"@.len() == 19 && "richTextSuperscript"@[8] == 'S');
        assert("richTextUnderline"@.len() == 17 && "richTextUnderline"@[8] == 'U');
        assert("richTextUrl"@.len() == 11);
        assert("richTexts"@.len() == 9);
    }

    /// The union writes a `RichTextAnchor` as the `RichTextAnchor` writes itself.
    pub proof fn writes_rich_text_anchor(p: RichTextAnchor)
        ensures
            Self::RichTextAnchor(p).wire() == p.wire(),
    {
        reveal(<RichTextAnchor as Wire>::wire);
    }

    /// A document tagged `richTexts` decodes as a `RichTexts`.
    pub proof fn selects_rich_texts(d: Doc, at: Seq<char>)
        requires
            tag_of(d) == Some("richTexts"@),
        ensures
            Self::parse(d, at) == RichTexts::parse(d, at),
    {
        reveal(<RichTexts as Wire>::parse);
        reveal_strlit("richTextAnchor");
        reveal_strlit("richTextBold");
        reveal_strlit("richTextEmailAddress");
        reveal_strlit("richTextFixed");
        reveal_strlit("richTextIcon");
        reveal_strlit("richTextItalic");
        reveal_strlit("richTextMarked");
        reveal_strlit("richTextPhoneNumber");
        reveal_strlit("richTextPlain");
        reveal_strlit("richTextStrikethrough");
        reveal_strlit("richTextSubscript");
        reveal_strlit("richTextSuperscript");
        reveal_strlit("richTextUnderline");
        reveal_strlit("richTextUrl");
        reveal_strlit("richTexts");
        assert("richTextAnchor"@.len() == 14 && "richTextAnchor"@[8] == 'A');
        assert("richTextBold"@.len() == 12 && "richTextBold"@[8] == 'B');
        assert("richTextEmailAddress"@.len() == 20);
        assert("richTextFixed"@.len() == 13 && "richTextFixed"@[8] == 'F');
        assert("richTextIcon"@.len() == 12 && "richTextIcon"@[8] == 'I');
        assert("richTextItalic"@.len() == 14 && "richTextItalic"@[8] == 'I');
        assert("richTextMarked"@.len() == 14 && "richTextMarked"@[8] == 'M');
        assert("richTextPhoneNumber"@.len() == 19 && "richTextPhoneNumber"@[8] == 'P');
        assert("richTextPlain"@.len() == 13 && "richTextPlain"@[8] == 'P');
        assert("richTextStrikethrough"@.len() == 21);
        assert("richTextSubscript"@.len() == 17 && "richTextSubscript"@[8] == 'S');
        assert("richTextSuperscript"@.len() == 19 && "richTextSuperscript"@[8] == 'S');
        assert("richTextUnderline"@.len() == 17 && "richTextUnderline"@[8] == 'U');
        assert("richTextUrl"@.len() == 11);
        assert("richTexts"@.len() == 9);
        if d is Object && d->Object_0.contains_key("texts"@) {
            if let Doc::List(items) = d->Object_0["texts"@] {
                lemma_rich_text_list_parse_is_generic(items, "texts"@);
            }
        }
    }

    /// The union writes a `RichTexts` as the `RichTexts` writes itself.
    pub proof fn writes_rich_texts(p: RichTexts)
        ensures
            Self::RichTexts(p).wire() == p.wire(),
    {
        reveal(<RichTexts as Wire>::wire);
        lemma_rich_text_docs_are_wire(p.texts@);
    }
}

/// Contains a caption of an instant view web page block, consisting of a text and a trailing credit
#[derive(Debug, Clone, PartialEq)]
pub struct PageBlockCaption {
    /// Content of the caption
    pub text: RichText,
    /// Block credit (like HTML tag <cite>)
    pub credit: RichText,
}

impl Wire for PageBlockCaption {
    #[verifier::opaque]
    open spec fn wire(&self) -> Doc {
        tagged(
            Map::empty()
                .insert("text"@, self.text.wire())
                .insert("credit"@, self.credit.wire()),
            "pageBlockCaption"@,
        )
    }

    #[verifier::opaque]
    open spec fn parse(d: Doc, at: Seq<char>) -> Result<Doc, Fault> {
        match d {
            Doc::Object(m) => {
                let text = field::<RichText>(m, "text"@);
                let credit = field::<RichText>(m, "credit"@);
                if text is Err {
                    text
                } else if credit is Err {
                    credit
                } else {
                    Ok(
                        tagged(
                            Map::empty()
                                .insert("text"@, text->Ok_0)
                                .insert("credit"@, credit->Ok_0),
                            "pageBlockCaption"@,
                        ),
                    )
                }
            },
            _ => Err(Fault::TypeMismatch(at)),
        }
    }

    fn encode(&self) -> (j: Json) {
        proof {
            reveal(<PageBlockCaption as Wire>::wire);
        }
        let mut members: Vec<Member> = Vec::new();
        put(&mut members, "text", self.text.encode());
        put(&mut members, "credit", self.credit.encode());
        seal(members, "pageBlockCaption")
    }

    fn decode(j: &Json, at: &str) -> (r: Result<Self, DecodeError>) {
        proof {
            reveal(<PageBlockCaption as Wire>::wire);
            reveal(<PageBlockCaption as Wire>::parse);
        }
        let members = members_of(j, at)?;
        let text = read_field::<RichText>(members, "text")?;
        let credit = read_field::<RichText>(members, "credit")?;
        Ok(PageBlockCaption { text, credit })
    }

    proof fn round_trip(&self, at: Seq<char>) {
        reveal(<PageBlockCaption as Wire>::wire);
        reveal(<PageBlockCaption as Wire>::parse);
        reveal_strlit("@type");
        reveal_strlit("credit");
        reveal_strlit("text");
        assert("@type"@.len() == 5);
        assert("credit"@.len() == 6);
        assert("text"@.len() == 4);
        self.text.round_trip("text"@);
        self.credit.round_trip("credit"@);
    }
}

impl Tagged for PageBlockCaption {
    open spec fn known(tag: Seq<char>) -> bool {
        tag == "pageBlockCaption"@
    }

    fn knows(tag: &str) -> (r: bool) {
        same_text(tag, "pageBlockCaption")
    }

    proof fn tag_known(&self) {
        reveal(<PageBlockCaption as Wire>::wire);
        assert(tag_of(self.wire()) == Some("pageBlockCaption"@));
        assert(Self::known("pageBlockCaption"@));
    }
}

/// Describes an item of a list page block
#[derive(Debug, Clone, PartialEq)]
pub struct PageBlockListItem {
    /// Item label
    pub label: String,
    /// Item blocks
    pub page_blocks: Vec<PageBlock>,
}

impl Wire for PageBlockListItem {
    #[verifier::opaque]
    open spec fn wire(&self) -> Doc {
        tagged(
            Map::empty()
                .insert("label"@, self.label.wire())
                .insert("pageBlocks"@, self.page_blocks.wire()),
            "pageBlockListItem"@,
        )
    }

    #[verifier::opaque]
    open spec fn parse(d: Doc, at: Seq<char>) -> Result<Doc, Fault> {
        match d {
            Doc::Object(m) => {
                let label = field::<String>(m, "label"@);
                let page_blocks = field::<Vec<PageBlock>>(m, "pageBlocks"@);
                if label is Err {
                    label
                } else if page_blocks is Err {
                    page_blocks
                } else {
                    Ok(
                        tagged(
                            Map::empty()
                                .insert("label"@, label->Ok_0)
                                .insert("pageBlocks"@, page_blocks->Ok_0),
                            "pageBlockListItem"@,
                        ),
                    )
                }
            },
            _ => Err(Fault::TypeMismatch(at)),
        }
    }

    fn encode(&self) -> (j: Json) {
        proof {
            reveal(<PageBlockListItem as Wire>::wire);
        }
        let mut members: Vec<Member> = Vec::new();
        put(&mut members, "label", self.label.encode());
        put(&mut members, "pageBlocks", self.page_blocks.encode());
        seal(members, "pageBlockListItem")
    }

    fn decode(j: &Json, at: &str) -> (r: Result<Self, DecodeError>) {
        proof {
            reveal(<PageBlockListItem as Wire>::wire);
            reveal(<PageBlockListItem as Wire>::parse);
        }
        let members = members_of(j, at)?;
        let label = read_field::<String>(members, "label")?;
        let page_blocks = read_field::<Vec<PageBlock>>(members, "pageBlocks")?;
        Ok(PageBlockListItem { label, page_blocks })
    }

    proof fn round_trip(&self, at: Seq<char>) {
        reveal(<PageBlockListItem as Wire>::wire);
        reveal(<PageBlockListItem as Wire>::parse);
        reveal_strlit("@type");
        reveal_strlit("label");
        reveal_strlit("pageBlocks");
        assert("@type"@.len() == 5 && "@type"@[0] == '@');
        assert("label"@.len() == 5 && "label"@[0] == 'l');
        assert("pageBlocks"@.len() == 10);
        self.label.round_trip("label"@);
        self.page_blocks.round_trip("pageBlocks"@);
    }
}

impl Tagged for PageBlockListItem {
    open spec fn known(tag: Seq<char>) -> bool {
        tag == "pageBlockListItem"@
    }

    fn knows(tag: &str) -> (r: bool) {
        same_text(tag, "pageBlockListItem")
    }

    proof fn tag_known(&self) {
        reveal(<PageBlockListItem as Wire>::wire);
        assert(tag_of(self.wire()) == Some("pageBlockListItem"@));
        assert(Self::known("pageBlockListItem"@));
    }
}

/// The content should be left-aligned
#[derive(Debug, Clone, PartialEq)]
pub struct PageBlockHorizontalAlignmentLeft {}

impl Wire for PageBlockHorizontalAlignmentLeft {
    #[verifier::opaque]
    open spec fn wire(&self) -> Doc {
        tagged(Map::empty(), "pageBlockHorizontalAlignmentLeft"@)
    }

    #[verifier::opaque]
    open spec fn parse(d: Doc, at: Seq<char>) -> Result<Doc, Fault> {
        match d {
            Doc::Object(_) => Ok(tagged(Map::empty(), "pageBlockHorizontalAlignmentLeft"@)),
            _ => Err(Fault::TypeMismatch(at)),
        }
    }

    fn encode(&self) -> (j: Json) {
        proof {
            reveal(<PageBlockHorizontalAlignmentLeft as Wire>::wire);
        }
        seal(Vec::new(), "pageBlockHorizontalAlignmentLeft")
    }

    fn decode(j: &Json, at: &str) -> (r: Result<Self, DecodeError>) {
        proof {
            reveal(<PageBlockHorizontalAlignmentLeft as Wire>::wire);
            reveal(<PageBlockHorizontalAlignmentLeft as Wire>::parse);
        }
        let _ = members_of(j, at)?;
        Ok(PageBlockHorizontalAlignmentLeft {})
    }

    proof fn round_trip(&self, at: Seq<char>) {
        reveal(<PageBlockHorizontalAlignmentLeft as Wire>::wire);
        reveal(<PageBlockHorizontalAlignmentLeft as Wire>::parse);
    }
}

impl Tagged for PageBlockHorizontalAlignmentLeft {
    open spec fn known(tag: Seq<char>) -> bool {
        tag == "pageBlockHorizontalAlignmentLeft"@
    }

    fn knows(tag: &str) -> (r: bool) {
        same_text(tag, "pageBlockHorizontalAlignmentLeft")
    }

    proof fn tag_known(&self) {
        reveal(<PageBlockHorizontalAlignmentLeft as Wire>::wire);
        assert(tag_of(self.wire()) == Some("pageBlockHorizontalAlignmentLeft"@));
        assert(Self::known("pageBlockHorizontalAlignmentLeft"@));
    }
}

/// The content should be center-aligned
#[derive(Debug, Clone, PartialEq)]
pub struct PageBlockHorizontalAlignmentCenter {}

impl Wire for PageBlockHorizontalAlignmentCenter {
    #[verifier::opaque]
    open spec fn wire(&self) -> Doc {
        tagged(Map::empty(), "pageBlockHorizontalAlignmentCenter"@)
    }

    #[verifier::opaque]
    open spec fn parse(d: Doc, at: Seq<char>) -> Result<Doc, Fault> {
        match d {
            Doc::Object(_) => Ok(tagged(Map::empty(), "pageBlockHorizontalAlignmentCenter"@)),
            _ => Err(Fault::TypeMismatch(at)),
        }
    }

    fn encode(&self) -> (j: Json) {
        proof {
            reveal(<PageBlockHorizontalAlignmentCenter as Wire>::wire);
        }
        seal(Vec::new(), "pageBlockHorizontalAlignmentCenter")
    }

    fn decode(j: &Json, at: &str) -> (r: Result<Self, DecodeError>) {
        proof {
            reveal(<PageBlockHorizontalAlignmentCenter as Wire>::wire);
            reveal(<PageBlockHorizontalAlignmentCenter as Wire>::parse);
        }
        let _ = members_of(j, at)?;
        Ok(PageBlockHorizontalAlignmentCenter {})
    }

    proof fn round_trip(&self, at: Seq<char>) {
        reveal(<PageBlockHorizontalAlignmentCenter as Wire>::wire);
        reveal(<PageBlockHorizontalAlignmentCenter as Wire>::parse);
    }
}

impl Tagged for PageBlockHorizontalAlignmentCenter {
    open spec fn known(tag: Seq<char>) -> bool {
        tag == "pageBlockHorizontalAlignmentCenter"@
    }

    fn knows(tag: &str) -> (r: bool) {
        same_text(tag, "pageBlockHorizontalAlignmentCenter")
    }

    proof fn tag_known(&self) {
        reveal(<PageBlockHorizontalAlignmentCenter as Wire>::wire);
        assert(tag_of(self.wire()) == Some("pageBlockHorizontalAlignmentCenter"@));
        assert(Self::known("pageBlockHorizontalAlignmentCenter"@));
    }
}

/// The content should be right-aligned
#[derive(Debug, Clone, PartialEq)]
pub struct PageBlockHorizontalAlignmentRight {}

impl Wire for PageBlockHorizontalAlignmentRight {
    #[verifier::opaque]
    open spec fn wire(&self) -> Doc {
        tagged(Map::empty(), "pageBlockHorizontalAlignmentRight"@)
    }

    #[verifier::opaque]
    open spec fn parse(d: Doc, at: Seq<char>) -> Result<Doc, Fault> {
        match d {
            Doc::Object(_) => Ok(tagged(Map::empty(), "pageBlockHorizontalAlignmentRight"@)),
            _ => Err(Fault::TypeMismatch(at)),
        }
    }

    fn encode(&self) -> (j: Json) {
        proof {
            reveal(<PageBlockHorizontalAlignmentRight as Wire>::wire);
        }
        seal(Vec::new(), "pageBlockHorizontalAlignmentRight")
    }

    fn decode(j: &Json, at: &str) -> (r: Result<Self, DecodeError>) {
        proof {
            reveal(<PageBlockHorizontalAlignmentRight as Wire>::wire);
            reveal(<PageBlockHorizontalAlignmentRight as Wire>::parse);
        }
        let _ = members_of(j, at)?;
        Ok(PageBlockHorizontalAlignmentRight {})
    }

    proof fn round_trip(&self, at: Seq<char>) {
        reveal(<PageBlockHorizontalAlignmentRight as Wire>::wire);
        reveal(<PageBlockHorizontalAlignmentRight as Wire>::parse);
    }
}

impl Tagged for PageBlockHorizontalAlignmentRight {
    open spec fn known(tag: Seq<char>) -> bool {
        tag == "pageBlockHorizontalAlignmentRight"@
    }

    fn knows(tag: &str) -> (r: bool) {
        same_text(tag, "pageBlockHorizontalAlignmentRight")
    }

    proof fn tag_known(&self) {
        reveal(<PageBlockHorizontalAlignmentRight as Wire>::wire);
        assert(tag_of(self.wire()) == Some("pageBlockHorizontalAlignmentRight"@));
        assert(Self::known("pageBlockHorizontalAlignmentRight"@));
    }
}

/// Describes a horizontal alignment of a table cell content
#[derive(Debug, Clone, PartialEq)]
pub enum PageBlockHorizontalAlignment {
    PageBlockHorizontalAlignmentLeft(PageBlockHorizontalAlignmentLeft),
    PageBlockHorizontalAlignmentCenter(PageBlockHorizontalAlignmentCenter),
    PageBlockHorizontalAlignmentRight(PageBlockHorizontalAlignmentRight),
}

impl Wire for PageBlockHorizontalAlignment {
    #[verifier::opaque]
    open spec fn wire(&self) -> Doc {
        match self {
            Self::PageBlockHorizontalAlignmentLeft(p) => p.wire(),
            Self::PageBlockHorizontalAlignmentCenter(p) => p.wire(),
            Self::PageBlockHorizontalAlignmentRight(p) => p.wire(),
        }
    }

    #[verifier::opaque]
    open spec fn parse(d: Doc, at: Seq<char>) -> Result<Doc, Fault> {
        match d {
            Doc::Object(_) => match tag_of(d) {
                Some(t) => if t == "pageBlockHorizontalAlignmentLeft"@ {
                    PageBlockHorizontalAlignmentLeft::parse(d, at)
                } else if t == "pageBlockHorizontalAlignmentCenter"@ {
                    PageBlockHorizontalAlignmentCenter::parse(d, at)
                } else if t == "pageBlockHorizontalAlignmentRight"@ {
                    PageBlockHorizontalAlignmentRight::parse(d, at)
                } else {
                    Err(Fault::UnknownVariant(t))
                },
                None => Err(Fault::MissingDiscriminator),
            },
            _ => Err(Fault::TypeMismatch(at)),
        }
    }

    fn encode(&self) -> (j: Json) {
        proof {
            reveal(<PageBlockHorizontalAlignment as Wire>::wire);
        }
        match self {
            Self::PageBlockHorizontalAlignmentLeft(p) => p.encode(),
            Self::PageBlockHorizontalAlignmentCenter(p) => p.encode(),
            Self::PageBlockHorizontalAlignmentRight(p) => p.encode(),
        }
    }

    fn decode(j: &Json, at: &str) -> (r: Result<Self, DecodeError>) {
        proof {
            reveal(<PageBlockHorizontalAlignment as Wire>::wire);
            reveal(<PageBlockHorizontalAlignment as Wire>::parse);
        }
        let members = members_of(j, at)?;
        let tag = discriminator(members)?;
        if same_text(tag, "pageBlockHorizontalAlignmentLeft") {
            Ok(
                Self::PageBlockHorizontalAlignmentLeft(
                    PageBlockHorizontalAlignmentLeft::decode(j, at)?,
                ),
            )
        } else if same_text(tag, "pageBlockHorizontalAlignmentCenter") {
            Ok(
                Self::PageBlockHorizontalAlignmentCenter(
                    PageBlockHorizontalAlignmentCenter::decode(j, at)?,
                ),
            )
        } else if same_text(tag, "pageBlockHorizontalAlignmentRight") {
            Ok(
                Self::PageBlockHorizontalAlignmentRight(
                    PageBlockHorizontalAlignmentRight::decode(j, at)?,
                ),
            )
        } else {
            Err(DecodeError::UnknownVariant(tag.to_owned()))
        }
    }

    proof fn round_trip(&self, at: Seq<char>) {
        reveal(<PageBlockHorizontalAlignment as Wire>::wire);
        reveal(<PageBlockHorizontalAlignment as Wire>::parse);
        reveal_strlit("pageBlockHorizontalAlignmentCenter");
        reveal_strlit("pageBlockHorizontalAlignmentLeft");
        reveal_strlit("pageBlockHorizontalAlignmentRight");
        assert("pageBlockHorizontalAlignmentCenter"@.len() == 34);
        assert("pageBlockHorizontalAlignmentLeft"@.len() == 32);
        assert("pageBlockHorizontalAlignmentRight"@.len() == 33);
        match self {
            Self::PageBlockHorizontalAlignmentLeft(p) => {
                p.tag_known();
                p.round_trip(at);
            },
            Self::PageBlockHorizontalAlignmentCenter(p) => {
                p.tag_known();
                p.round_trip(at);
            },
            Self::PageBlockHorizontalAlignmentRight(p) => {
                p.tag_known();
                p.round_trip(at);
            },
        }
    }
}

impl Tagged for PageBlockHorizontalAlignment {
    open spec fn known(tag: Seq<char>) -> bool {
        ||| tag == "pageBlockHorizontalAlignmentLeft"@
        ||| tag == "pageBlockHorizontalAlignmentCenter"@
        ||| tag == "pageBlockHorizontalAlignmentRight"@
    }

    fn knows(tag: &str) -> (r: bool) {
        same_text(tag, "pageBlockHorizontalAlignmentLeft")
            || same_text(tag, "pageBlockHorizontalAlignmentCenter")
            || same_text(tag, "pageBlockHorizontalAlignmentRight")
    }

    proof fn tag_known(&self) {
        reveal(<PageBlockHorizontalAlignment as Wire>::wire);
        match self {
            Self::PageBlockHorizontalAlignmentLeft(p) => p.tag_known(),
            Self::PageBlockHorizontalAlignmentCenter(p) => p.tag_known(),
            Self::PageBlockHorizontalAlignmentRight(p) => p.tag_known(),
        }
    }
}

impl Union for PageBlockHorizontalAlignment {
    proof fn unknown_rejected(d: Doc, at: Seq<char>) {
        reveal(<PageBlockHorizontalAlignment as Wire>::parse);
    }

    proof fn untagged_rejected(d: Doc, at: Seq<char>) {
        reveal(<PageBlockHorizontalAlignment as Wire>::parse);
    }
}

/// The content should be top-aligned
#[derive(Debug, Clone, PartialEq)]
pub struct PageBlockVerticalAlignmentTop {}

impl Wire for PageBlockVerticalAlignmentTop {
    #[verifier::opaque]
    open spec fn wire(&self) -> Doc {
        tagged(Map::empty(), "pageBlockVerticalAlignmentTop"@)
    }

    #[verifier::opaque]
    open spec fn parse(d: Doc, at: Seq<char>) -> Result<Doc, Fault> {
        match d {
            Doc::Object(_) => Ok(tagged(Map::empty(), "pageBlockVerticalAlignmentTop"@)),
            _ => Err(Fault::TypeMismatch(at)),
        }
    }

    fn encode(&self) -> (j: Json) {
        proof {
            reveal(<PageBlockVerticalAlignmentTop as Wire>::wire);
        }
        seal(Vec::new(), "pageBlockVerticalAlignmentTop")
    }

    fn decode(j: &Json, at: &str) -> (r: Result<Self, DecodeError>) {
        proof {
            reveal(<PageBlockVerticalAlignmentTop as Wire>::wire);
            reveal(<PageBlockVerticalAlignmentTop as Wire>::parse);
        }
        let _ = members_of(j, at)?;
        Ok(PageBlockVerticalAlignmentTop {})
    }

    proof fn round_trip(&self, at: Seq<char>) {
        reveal(<PageBlockVerticalAlignmentTop as Wire>::wire);
        reveal(<PageBlockVerticalAlignmentTop as Wire>::parse);
    }
}

impl Tagged for PageBlockVerticalAlignmentTop {
    open spec fn known(tag: Seq<char>) -> bool {
        tag == "pageBlockVerticalAlignmentTop"@
    }

    fn knows(tag: &str) -> (r: bool) {
        same_text(tag, "pageBlockVerticalAlignmentTop")
    }

    proof fn tag_known(&self) {
        reveal(<PageBlockVerticalAlignmentTop as Wire>::wire);
        assert(tag_of(self.wire()) == Some("pageBlockVerticalAlignmentTop"@));
        assert(Self::known("pageBlockVerticalAlignmentTop"@));
    }
}

/// The content should be middle-aligned
#[derive(Debug, Clone, PartialEq)]
pub struct PageBlockVerticalAlignmentMiddle {}

impl Wire for PageBlockVerticalAlignmentMiddle {
    #[verifier::opaque]
    open spec fn wire(&self) -> Doc {
        tagged(Map::empty(), "pageBlockVerticalAlignmentMiddle"@)
    }

    #[verifier::opaque]
    open spec fn parse(d: Doc, at: Seq<char>) -> Result<Doc, Fault> {
        match d {
            Doc::Object(_) => Ok(tagged(Map::empty(), "pageBlockVerticalAlignmentMiddle"@)),
            _ => Err(Fault::TypeMismatch(at)),
        }
    }

    fn encode(&self) -> (j: Json) {
        proof {
            reveal(<PageBlockVerticalAlignmentMiddle as Wire>::wire);
        }
        seal(Vec::new(), "pageBlockVerticalAlignmentMiddle")
    }

    fn decode(j: &Json, at: &str) -> (r: Result<Self, DecodeError>) {
        proof {
            reveal(<PageBlockVerticalAlignmentMiddle as Wire>::wire);
            reveal(<PageBlockVerticalAlignmentMiddle as Wire>::parse);
        }
        let _ = members_of(j, at)?;
        Ok(PageBlockVerticalAlignmentMiddle {})
    }

    proof fn round_trip(&self, at: Seq<char>) {
        reveal(<PageBlockVerticalAlignmentMiddle as Wire>::wire);
        reveal(<PageBlockVerticalAlignmentMiddle as Wire>::parse);
    }
}

impl Tagged for PageBlockVerticalAlignmentMiddle {
    open spec fn known(tag: Seq<char>) -> bool {
        tag == "pageBlockVerticalAlignmentMiddle"@
    }

    fn knows(tag: &str) -> (r: bool) {
        same_text(tag, "pageBlockVerticalAlignmentMiddle")
    }

    proof fn tag_known(&self) {
        reveal(<PageBlockVerticalAlignmentMiddle as Wire>::wire);
        assert(tag_of(self.wire()) == Some("pageBlockVerticalAlignmentMiddle"@));
        assert(Self::known("pageBlockVerticalAlignmentMiddle"@));
    }
}

/// The content should be bottom-aligned
#[derive(Debug, Clone, PartialEq)]
pub struct PageBlockVerticalAlignmentBottom {}

impl Wire for PageBlockVerticalAlignmentBottom {
    #[verifier::opaque]
    open spec fn wire(&self) -> Doc {
        tagged(Map::empty(), "pageBlockVerticalAlignmentBottom"@)
    }

    #[verifier::opaque]
    open spec fn parse(d: Doc, at: Seq<char>) -> Result<Doc, Fault> {
        match d {
            Doc::Object(_) => Ok(tagged(Map::empty(), "pageBlockVerticalAlignmentBottom"@)),
            _ => Err(Fault::TypeMismatch(at)),
        }
    }

    fn encode(&self) -> (j: Json) {
        proof {
            reveal(<PageBlockVerticalAlignmentBottom as Wire>::wire);
        }
        seal(Vec::new(), "pageBlockVerticalAlignmentBottom")
    }

    fn decode(j: &Json, at: &str) -> (r: Result<Self, DecodeError>) {
        proof {
            reveal(<PageBlockVerticalAlignmentBottom as Wire>::wire);
            reveal(<PageBlockVerticalAlignmentBottom as Wire>::parse);
        }
        let _ = members_of(j, at)?;
        Ok(PageBlockVerticalAlignmentBottom {})
    }

    proof fn round_trip(&self, at: Seq<char>) {
        reveal(<PageBlockVerticalAlignmentBottom as Wire>::wire);
        reveal(<PageBlockVerticalAlignmentBottom as Wire>::parse);
    }
}

impl Tagged for PageBlockVerticalAlignmentBottom {
    open spec fn known(tag: Seq<char>) -> bool {
        tag == "pageBlockVerticalAlignmentBottom"@
    }

    fn knows(tag: &str) -> (r: bool) {
        same_text(tag, "pageBlockVerticalAlignmentBottom")
    }

    proof fn tag_known(&self) {
        reveal(<PageBlockVerticalAlignmentBottom as Wire>::wire);
        assert(tag_of(self.wire()) == Some("pageBlockVerticalAlignmentBottom"@));
        assert(Self::known("pageBlockVerticalAlignmentBottom"@));
    }
}

/// Describes a Vertical alignment of a table cell content
#[derive(Debug, Clone, PartialEq)]
pub enum PageBlockVerticalAlignment {
    PageBlockVerticalAlignmentTop(PageBlockVerticalAlignmentTop),
    PageBlockVerticalAlignmentMiddle(PageBlockVerticalAlignmentMiddle),
    PageBlockVerticalAlignmentBottom(PageBlockVerticalAlignmentBottom),
}

impl Wire for PageBlockVerticalAlignment {
    #[verifier::opaque]
    open spec fn wire(&self) -> Doc {
        match self {
            Self::PageBlockVerticalAlignmentTop(p) => p.wire(),
            Self::PageBlockVerticalAlignmentMiddle(p) => p.wire(),
            Self::PageBlockVerticalAlignmentBottom(p) => p.wire(),
        }
    }

    #[verifier::opaque]
    open spec fn parse(d: Doc, at: Seq<char>) -> Result<Doc, Fault> {
        match d {
            Doc::Object(_) => match tag_of(d) {
                Some(t) => if t == "pageBlockVerticalAlignmentTop"@ {
                    PageBlockVerticalAlignmentTop::parse(d, at)
                } else if t == "pageBlockVerticalAlignmentMiddle"@ {
                    PageBlockVerticalAlignmentMiddle::parse(d, at)
                } else if t == "pageBlockVerticalAlignmentBottom"@ {
                    PageBlockVerticalAlignmentBottom::parse(d, at)
                } else {
                    Err(Fault::UnknownVariant(t))
                },
                None => Err(Fault::MissingDiscriminator),
            },
            _ => Err(Fault::TypeMismatch(at)),
        }
    }

    fn encode(&self) -> (j: Json) {
        proof {
            reveal(<PageBlockVerticalAlignment as Wire>::wire);
        }
        match self {
            Self::PageBlockVerticalAlignmentTop(p) => p.encode(),
            Self::PageBlockVerticalAlignmentMiddle(p) => p.encode(),
            Self::PageBlockVerticalAlignmentBottom(p) => p.encode(),
        }
    }

    fn decode(j: &Json, at: &str) -> (r: Result<Self, DecodeError>) {
        proof {
            reveal(<PageBlockVerticalAlignment as Wire>::wire);
            reveal(<PageBlockVerticalAlignment as Wire>::parse);
        }
        let members = members_of(j, at)?;
        let tag = discriminator(members)?;
        if same_text(tag, "pageBlockVerticalAlignmentTop") {
            Ok(Self::PageBlockVerticalAlignmentTop(PageBlockVerticalAlignmentTop::decode(j, at)?))
        } else if same_text(tag, "pageBlockVerticalAlignmentMiddle") {
            Ok(
                Self::PageBlockVerticalAlignmentMiddle(
                    PageBlockVerticalAlignmentMiddle::decode(j, at)?,
                ),
            )
        } else if same_text(tag, "pageBlockVerticalAlignmentBottom") {
            Ok(
                Self::PageBlockVerticalAlignmentBottom(
                    PageBlockVerticalAlignmentBottom::decode(j, at)?,
                ),
            )
        } else {
            Err(DecodeError::UnknownVariant(tag.to_owned()))
        }
    }

    proof fn round_trip(&self, at: Seq<char>) {
        reveal(<PageBlockVerticalAlignment as Wire>::wire);
        reveal(<PageBlockVerticalAlignment as Wire>::parse);
        reveal_strlit("pageBlockVerticalAlignmentBottom");
        reveal_strlit("pageBlockVerticalAlignmentMiddle");
        reveal_strlit("pageBlockVerticalAlignmentTop");
        assert({
            &&& "pageBlockVerticalAlignmentBottom"@.len() == 32
            &&& "pageBlockVerticalAlignmentBottom"@[26] == 'B'
        });
        assert({
            &&& "pageBlockVerticalAlignmentMiddle"@.len() == 32
            &&& "pageBlockVerticalAlignmentMiddle"@[26] == 'M'
        });
        assert("pageBlockVerticalAlignmentTop"@.len() == 29);
        match self {
            Self::PageBlockVerticalAlignmentTop(p) => {
                p.tag_known();
                p.round_trip(at);
            },
            Self::PageBlockVerticalAlignmentMiddle(p) => {
                p.tag_known();
                p.round_trip(at);
            },
            Self::PageBlockVerticalAlignmentBottom(p) => {
                p.tag_known();
                p.round_trip(at);
            },
        }
    }
}

impl Tagged for PageBlockVerticalAlignment {
    open spec fn known(tag: Seq<char>) -> bool {
        ||| tag == "pageBlockVerticalAlignmentTop"@
        ||| tag == "pageBlockVerticalAlignmentMiddle"@
        ||| tag == "pageBlockVerticalAlignmentBottom"@
    }

    fn knows(tag: &str) -> (r: bool) {
        same_text(tag, "pageBlockVerticalAlignmentTop")
            || same_text(tag, "pageBlockVerticalAlignmentMiddle")
            || same_text(tag, "pageBlockVerticalAlignmentBottom")
    }

    proof fn tag_known(&self) {
        reveal(<PageBlockVerticalAlignment as Wire>::wire);
        match self {
            Self::PageBlockVerticalAlignmentTop(p) => p.tag_known(),
            Self::PageBlockVerticalAlignmentMiddle(p) => p.tag_known(),
            Self::PageBlockVerticalAlignmentBottom(p) => p.tag_known(),
        }
    }
}

impl Union for PageBlockVerticalAlignment {
    proof fn unknown_rejected(d: Doc, at: Seq<char>) {
        reveal(<PageBlockVerticalAlignment as Wire>::parse);
    }

    proof fn untagged_rejected(d: Doc, at: Seq<char>) {
        reveal(<PageBlockVerticalAlignment as Wire>::parse);
    }
}

/// Represents a cell of a table
#[derive(Debug, Clone, PartialEq)]
pub struct PageBlockTableCell {
    /// Cell text; may be null. If the text is null, then the cell should be invisible
    pub text: Option<RichText>,
    /// True, if it is a header cell
    pub is_header: bool,
    /// The number of columns the cell should span
    pub colspan: i32,
    /// The number of rows the cell should span
    pub rowspan: i32,
    /// Horizontal cell content alignment
    pub align: PageBlockHorizontalAlignment,
    /// Vertical cell content alignment
    pub valign: PageBlockVerticalAlignment,
}

impl Wire for PageBlockTableCell {
    #[verifier::opaque]
    open spec fn wire(&self) -> Doc {
        tagged(
            Map::empty()
                .insert("text"@, self.text.wire())
                .insert("isHeader"@, self.is_header.wire())
                .insert("colspan"@, self.colspan.wire())
                .insert("rowspan"@, self.rowspan.wire())
                .insert("align"@, self.align.wire())
                .insert("valign"@, self.valign.wire()),
            "pageBlockTableCell"@,
        )
    }

    #[verifier::opaque]
    open spec fn parse(d: Doc, at: Seq<char>) -> Result<Doc, Fault> {
        match d {
            Doc::Object(m) => {
                let text = optional_field::<RichText>(m, "text"@);
                let is_header = field::<bool>(m, "isHeader"@);
                let colspan = field::<i32>(m, "colspan"@);
                let rowspan = field::<i32>(m, "rowspan"@);
                let align = field::<PageBlockHorizontalAlignment>(m, "align"@);
                let valign = field::<PageBlockVerticalAlignment>(m, "valign"@);
                if text is Err {
                    text
                } else if is_header is Err {
                    is_header
                } else if colspan is Err {
                    colspan
                } else if rowspan is Err {
                    rowspan
                } else if align is Err {
                    align
                } else if valign is Err {
                    valign
                } else {
                    Ok(
                        tagged(
                            Map::empty()
                                .insert("text"@, text->Ok_0)
                                .insert("isHeader"@, is_header->Ok_0)
                                .insert("colspan"@, colspan->Ok_0)
                                .insert("rowspan"@, rowspan->Ok_0)
                                .insert("align"@, align->Ok_0)
                                .insert("valign"@, valign->Ok_0),
                            "pageBlockTableCell"@,
                        ),
                    )
                }
            },
            _ => Err(Fault::TypeMismatch(at)),
        }
    }

    fn encode(&self) -> (j: Json) {
        proof {
            reveal(<PageBlockTableCell as Wire>::wire);
        }
        let mut members: Vec<Member> = Vec::new();
        put(&mut members, "text", self.text.encode());
        put(&mut members, "isHeader", self.is_header.encode());
        put(&mut members, "colspan", self.colspan.encode());
        put(&mut members, "rowspan", self.rowspan.encode());
        put(&mut members, "align", self.align.encode());
        put(&mut members, "valign", self.valign.encode());
        seal(members, "pageBlockTableCell")
    }

    fn decode(j: &Json, at: &str) -> (r: Result<Self, DecodeError>) {
        proof {
            reveal(<PageBlockTableCell as Wire>::wire);
            reveal(<PageBlockTableCell as Wire>::parse);
        }
        let members = members_of(j, at)?;
        let text = read_optional::<RichText>(members, "text")?;
        let is_header = read_field::<bool>(members, "isHeader")?;
        let colspan = read_field::<i32>(members, "colspan")?;
        let rowspan = read_field::<i32>(members, "rowspan")?;
        let align = read_field::<PageBlockHorizontalAlignment>(members, "align")?;
        let valign = read_field::<PageBlockVerticalAlignment>(members, "valign")?;
        Ok(PageBlockTableCell { text, is_header, colspan, rowspan, align, valign })
    }

    proof fn round_trip(&self, at: Seq<char>) {
        reveal(<PageBlockTableCell as Wire>::wire);
        reveal(<PageBlockTableCell as Wire>::parse);
        reveal_strlit("@type");
        reveal_strlit("align");
        reveal_strlit("colspan");
        reveal_strlit("isHeader");
        reveal_strlit("rowspan");
        reveal_strlit("text");
        reveal_strlit("valign");
        assert("@type"@.len() == 5 && "@type"@[0] == '@');
        assert("align"@.len() == 5 && "align"@[0] == 'a');
        assert("colspan"@.len() == 7 && "colspan"@[0] == 'c');
        assert("isHeader"@.len() == 8);
        assert("rowspan"@.len() == 7 && "rowspan"@[0] == 'r');
        assert("text"@.len() == 4);
        assert("valign"@.len() == 6);
        self.text.round_trip("text"@);
        self.is_header.round_trip("isHeader"@);
        self.colspan.round_trip("colspan"@);
        self.rowspan.round_trip("rowspan"@);
        self.align.round_trip("align"@);
        self.valign.round_trip("valign"@);
    }
}

impl Tagged for PageBlockTableCell {
    open spec fn known(tag: Seq<char>) -> bool {
        tag == "pageBlockTableCell"@
    }

    fn knows(tag: &str) -> (r: bool) {
        same_text(tag, "pageBlockTableCell")
    }

    proof fn tag_known(&self) {
        reveal(<PageBlockTableCell as Wire>::wire);
        assert(tag_of(self.wire()) == Some("pageBlockTableCell"@));
        assert(Self::known("pageBlockTableCell"@));
    }
}

/// Contains information about a related article
#[derive(Debug, Clone, PartialEq)]
pub struct PageBlockRelatedArticle {
    /// Related article URL
    pub url: String,
    /// Article title; may be empty
    pub title: String,
    /// Contains information about a related article
    pub description: String,
    /// Article photo; may be null
    pub photo: Option<Photo>,
    /// Article author; may be empty
    pub author: String,
    /// Point in time (Unix timestamp) when the article was published; 0 if unknown
    pub publish_date: i32,
}

impl Wire for PageBlockRelatedArticle {
    #[verifier::opaque]
    open spec fn wire(&self) -> Doc {
        tagged(
            Map::empty()
                .insert("url"@, self.url.wire())
                .insert("title"@, self.title.wire())
                .insert("description"@, self.description.wire())
                .insert("photo"@, self.photo.wire())
                .insert("author"@, self.author.wire())
                .insert("publishDate"@, self.publish_date.wire()),
            "pageBlockRelatedArticle"@,
        )
    }

    #[verifier::opaque]
    open spec fn parse(d: Doc, at: Seq<char>) -> Result<Doc, Fault> {
        match d {
            Doc::Object(m) => {
                let url = field::<String>(m, "url"@);
                let title = field::<String>(m, "title"@);
                let description = field::<String>(m, "description"@);
                let photo = optional_field::<Photo>(m, "photo"@);
                let author = field::<String>(m, "author"@);
                let publish_date = field::<i32>(m, "publishDate"@);
                if url is Err {
                    url
                } else if title is Err {
                    title
                } else if description is Err {
                    description
                } else if photo is Err {
                    photo
                } else if author is Err {
                    author
                } else if publish_date is Err {
                    publish_date
                } else {
                    Ok(
                        tagged(
                            Map::empty()
                                .insert("url"@, url->Ok_0)
                                .insert("title"@, title->Ok_0)
                                .insert("description"@, description->Ok_0)
                                .insert("photo"@, photo->Ok_0)
                                .insert("author"@, author->Ok_0)
                                .insert("publishDate"@, publish_date->Ok_0),
                            "pageBlockRelatedArticle"@,
                        ),
                    )
                }
            },
            _ => Err(Fault::TypeMismatch(at)),
        }
    }

    fn encode(&self) -> (j: Json) {
        proof {
            reveal(<PageBlockRelatedArticle as Wire>::wire);
        }
        let mut members: Vec<Member> = Vec::new();
        put(&mut members, "url", self.url.encode());
        put(&mut members, "title", self.title.encode());
        put(&mut members, "description", self.description.encode());
        put(&mut members, "photo", self.photo.encode());
        put(&mut members, "author", self.author.encode());
        put(&mut members, "publishDate", self.publish_date.encode());
        seal(members, "pageBlockRelatedArticle")
    }

    fn decode(j: &Json, at: &str) -> (r: Result<Self, DecodeError>) {
        proof {
            reveal(<PageBlockRelatedArticle as Wire>::wire);
            reveal(<PageBlockRelatedArticle as Wire>::parse);
        }
        let members = members_of(j, at)?;
        let url = read_field::<String>(members, "url")?;
        let title = read_field::<String>(members, "title")?;
        let description = read_field::<String>(members, "description")?;
        let photo = read_optional::<Photo>(members, "photo")?;
        let author = read_field::<String>(members, "author")?;
        let publish_date = read_field::<i32>(members, "publishDate")?;
        Ok(PageBlockRelatedArticle { url, title, description, photo, author, publish_date })
    }

    proof fn round_trip(&self, at: Seq<char>) {
        reveal(<PageBlockRelatedArticle as Wire>::wire);
        reveal(<PageBlockRelatedArticle as Wire>::parse);
        reveal_strlit("@type");
        reveal_strlit("author");
        reveal_strlit("description");
        reveal_strlit("photo");
        reveal_strlit("publishDate");
        reveal_strlit("title");
        reveal_strlit("url");
        assert("@type"@.len() == 5 && "@type"@[0] == '@');
        assert("author"@.len() == 6);
        assert("description"@.len() == 11 && "description"@[0] == 'd');
        assert("photo"@.len() == 5 && "photo"@[0] == 'p');
        assert("publishDate"@.len() == 11 && "publishDate"@[0] == 'p');
        assert("title"@.len() == 5 && "title"@[0] == 't');
        assert("url"@.len() == 3);
        self.url.round_trip("url"@);
        self.title.round_trip("title"@);
        self.description.round_trip("description"@);
        self.photo.round_trip("photo"@);
        self.author.round_trip("author"@);
        self.publish_date.round_trip("publishDate"@);
    }
}

impl Tagged for PageBlockRelatedArticle {
    open spec fn known(tag: Seq<char>) -> bool {
        tag == "pageBlockRelatedArticle"@
    }

    fn knows(tag: &str) -> (r: bool) {
        same_text(tag, "pageBlockRelatedArticle")
    }

    proof fn tag_known(&self) {
        reveal(<PageBlockRelatedArticle as Wire>::wire);
        assert(tag_of(self.wire()) == Some("pageBlockRelatedArticle"@));
        assert(Self::known("pageBlockRelatedArticle"@));
    }
}

/// The title of a page
#[derive(Debug, Clone, PartialEq)]
pub struct PageBlockTitle {
    /// Title
    pub title: RichText,
}

impl Wire for PageBlockTitle {
    #[verifier::opaque]
    open spec fn wire(&self) -> Doc {
        tagged(
            Map::empty()
                .insert("title"@, self.title.wire()),
            "pageBlockTitle"@,
        )
    }

    #[verifier::opaque]
    open spec fn parse(d: Doc, at: Seq<char>) -> Result<Doc, Fault> {
        match d {
            Doc::Object(m) => {
                let title = field::<RichText>(m, "title"@);
                if title is Err {
                    title
                } else {
                    Ok(
                        tagged(
                            Map::empty()
                                .insert("title"@, title->Ok_0),
                            "pageBlockTitle"@,
                        ),
                    )
                }
            },
            _ => Err(Fault::TypeMismatch(at)),
        }
    }

    fn encode(&self) -> (j: Json) {
        proof {
            reveal(<PageBlockTitle as Wire>::wire);
        }
        let mut members: Vec<Member> = Vec::new();
        put(&mut members, "title", self.title.encode());
        seal(members, "pageBlockTitle")
    }

    fn decode(j: &Json, at: &str) -> (r: Result<Self, DecodeError>) {
        proof {
            reveal(<PageBlockTitle as Wire>::wire);
            reveal(<PageBlockTitle as Wire>::parse);
        }
        let members = members_of(j, at)?;
        let title = read_field::<RichText>(members, "title")?;
        Ok(PageBlockTitle { title })
    }

    proof fn round_trip(&self, at: Seq<char>) {
        reveal(<PageBlockTitle as Wire>::wire);
        reveal(<PageBlockTitle as Wire>::parse);
        reveal_strlit("@type");
        reveal_strlit("title");
        assert("@type"@.len() == 5 && "@type"@[0] == '@');
        assert("title"@.len() == 5 && "title"@[0] == 't');
        self.title.round_trip("title"@);
    }
}

impl Tagged for PageBlockTitle {
    open spec fn known(tag: Seq<char>) -> bool {
        tag == "pageBlockTitle"@
    }

    fn knows(tag: &str) -> (r: bool) {
        same_text(tag, "pageBlockTitle")
    }

    proof fn tag_known(&self) {
        reveal(<PageBlockTitle as Wire>::wire);
        assert(tag_of(self.wire()) == Some("pageBlockTitle"@));
        assert(Self::known("pageBlockTitle"@));
    }
}

/// The subtitle of a page
#[derive(Debug, Clone, PartialEq)]
pub struct PageBlockSubtitle {
    /// Subtitle
    pub subtitle: RichText,
}

impl Wire for PageBlockSubtitle {
    #[verifier::opaque]
    open spec fn wire(&self) -> Doc {
        tagged(
            Map::empty()
                .insert("subtitle"@, self.subtitle.wire()),
            "pageBlockSubtitle"@,
        )
    }

    #[verifier::opaque]
    open spec fn parse(d: Doc, at: Seq<char>) -> Result<Doc, Fault> {
        match d {
            Doc::Object(m) => {
                let subtitle = field::<RichText>(m, "subtitle"@);
                if subtitle is Err {
                    subtitle
                } else {
                    Ok(
                        tagged(
                            Map::empty()
                                .insert("subtitle"@, subtitle->Ok_0),
                            "pageBlockSubtitle"@,
                        ),
                    )
                }
            },
            _ => Err(Fault::TypeMismatch(at)),
        }
    }

    fn encode(&self) -> (j: Json) {
        proof {
            reveal(<PageBlockSubtitle as Wire>::wire);
        }
        let mut members: Vec<Member> = Vec::new();
        put(&mut members, "subtitle", self.subtitle.encode());
        seal(members, "pageBlockSubtitle")
    }

    fn decode(j: &Json, at: &str) -> (r: Result<Self, DecodeError>) {
        proof {
            reveal(<PageBlockSubtitle as Wire>::wire);
            reveal(<PageBlockSubtitle as Wire>::parse);
        }
        let members = members_of(j, at)?;
        let subtitle = read_field::<RichText>(members, "subtitle")?;
        Ok(PageBlockSubtitle { subtitle })
    }

    proof fn round_trip(&self, at: Seq<char>) {
        reveal(<PageBlockSubtitle as Wire>::wire);
        reveal(<PageBlockSubtitle as Wire>::parse);
        reveal_strlit("@type");
        reveal_strlit("subtitle");
        assert("@type"@.len() == 5);
        assert("subtitle"@.len() == 8);
        self.subtitle.round_trip("subtitle"@);
    }
}

impl Tagged for PageBlockSubtitle {
    open spec fn known(tag: Seq<char>) -> bool {
        tag == "pageBlockSubtitle"@
    }

    fn knows(tag: &str) -> (r: bool) {
        same_text(tag, "pageBlockSubtitle")
    }

    proof fn tag_known(&self) {
        reveal(<PageBlockSubtitle as Wire>::wire);
        assert(tag_of(self.wire()) == Some("pageBlockSubtitle"@));
        assert(Self::known("pageBlockSubtitle"@));
    }
}

/// The author and publishing date of a page
#[derive(Debug, Clone, PartialEq)]
pub struct PageBlockAuthorDate {
    /// Author
    pub author: RichText,
    /// Point in time (Unix timestamp) when the article was published; 0 if unknown
    pub publish_date: i32,
}

impl Wire for PageBlockAuthorDate {
    #[verifier::opaque]
    open spec fn wire(&self) -> Doc {
        tagged(
            Map::empty()
                .insert("author"@, self.author.wire())
                .insert("publishDate"@, self.publish_date.wire()),
            "pageBlockAuthorDate"@,
        )
    }

    #[verifier::opaque]
    open spec fn parse(d: Doc, at: Seq<char>) -> Result<Doc, Fault> {
        match d {
            Doc::Object(m) => {
                let author = field::<RichText>(m, "author"@);
                let publish_date = field::<i32>(m, "publishDate"@);
                if author is Err {
                    author
                } else if publish_date is Err {
                    publish_date
                } else {
                    Ok(
                        tagged(
                            Map::empty()
                                .insert("author"@, author->Ok_0)
                                .insert("publishDate"@, publish_date->Ok_0),
                            "pageBlockAuthorDate"@,
                        ),
                    )
                }
            },
            _ => Err(Fault::TypeMismatch(at)),
        }
    }

    fn encode(&self) -> (j: Json) {
        proof {
            reveal(<PageBlockAuthorDate as Wire>::wire);
        }
        let mut members: Vec<Member> = Vec::new();
        put(&mut members, "author", self.author.encode());
        put(&mut members, "publishDate", self.publish_date.encode());
        seal(members, "pageBlockAuthorDate")
    }

    fn decode(j: &Json, at: &str) -> (r: Result<Self, DecodeError>) {
        proof {
            reveal(<PageBlockAuthorDate as Wire>::wire);
            reveal(<PageBlockAuthorDate as Wire>::parse);
        }
        let members = members_of(j, at)?;
        let author = read_field::<RichText>(members, "author")?;
        let publish_date = read_field::<i32>(members, "publishDate")?;
        Ok(PageBlockAuthorDate { author, publish_date })
    }

    proof fn round_trip(&self, at: Seq<char>) {
        reveal(<PageBlockAuthorDate as Wire>::wire);
        reveal(<PageBlockAuthorDate as Wire>::parse);
        reveal_strlit("@type");
        reveal_strlit("author");
        reveal_strlit("publishDate");
        assert("@type"@.len() == 5);
        assert("author"@.len() == 6);
        assert("publishDate"@.len() == 11);
        self.author.round_trip("author"@);
        self.publish_date.round_trip("publishDate"@);
    }
}

impl Tagged for PageBlockAuthorDate {
    open spec fn known(tag: Seq<char>) -> bool {
        tag == "pageBlockAuthorDate"@
    }

    fn knows(tag: &str) -> (r: bool) {
        same_text(tag, "pageBlockAuthorDate")
    }

    proof fn tag_known(&self) {
        reveal(<PageBlockAuthorDate as Wire>::wire);
        assert(tag_of(self.wire()) == Some("pageBlockAuthorDate"@));
        assert(Self::known("pageBlockAuthorDate"@));
    }
}

/// A header
#[derive(Debug, Clone, PartialEq)]
pub struct PageBlockHeader {
    /// Header
    pub header: RichText,
}

impl Wire for PageBlockHeader {
    #[verifier::opaque]
    open spec fn wire(&self) -> Doc {
        tagged(
            Map::empty()
                .insert("header"@, self.header.wire()),
            "pageBlockHeader"@,
        )
    }

    #[verifier::opaque]
    open spec fn parse(d: Doc, at: Seq<char>) -> Result<Doc, Fault> {
        match d {
            Doc::Object(m) => {
                let header = field::<RichText>(m, "header"@);
                if header is Err {
                    header
                } else {
                    Ok(
                        tagged(
                            Map::empty()
                                .insert("header"@, header->Ok_0),
                            "pageBlockHeader"@,
                        ),
                    )
                }
            },
            _ => Err(Fault::TypeMismatch(at)),
        }
    }

    fn encode(&self) -> (j: Json) {
        proof {
            reveal(<PageBlockHeader as Wire>::wire);
        }
        let mut members: Vec<Member> = Vec::new();
        put(&mut members, "header", self.header.encode());
        seal(members, "pageBlockHeader")
    }

    fn decode(j: &Json, at: &str) -> (r: Result<Self, DecodeError>) {
        proof {
            reveal(<PageBlockHeader as Wire>::wire);
            reveal(<PageBlockHeader as Wire>::parse);
        }
        let members = members_of(j, at)?;
        let header = read_field::<RichText>(members, "header")?;
        Ok(PageBlockHeader { header })
    }

    proof fn round_trip(&self, at: Seq<char>) {
        reveal(<PageBlockHeader as Wire>::wire);
        reveal(<PageBlockHeader as Wire>::parse);
        reveal_strlit("@type");
        reveal_strlit("header");
        assert("@type"@.len() == 5);
        assert("header"@.len() == 6);
        self.header.round_trip("header"@);
    }
}

impl Tagged for PageBlockHeader {
    open spec fn known(tag: Seq<char>) -> bool {
        tag == "pageBlockHeader"@
    }

    fn knows(tag: &str) -> (r: bool) {
        same_text(tag, "pageBlockHeader")
    }

    proof fn tag_known(&self) {
        reveal(<PageBlockHeader as Wire>::wire);
        assert(tag_of(self.wire()) == Some("pageBlockHeader"@));
        assert(Self::known("pageBlockHeader"@));
    }
}

/// A subheader
#[derive(Debug, Clone, PartialEq)]
pub struct PageBlockSubheader {
    /// Subheader
    pub subheader: RichText,
}

impl Wire for PageBlockSubheader {
    #[verifier::opaque]
    open spec fn wire(&self) -> Doc {
        tagged(
            Map::empty()
                .insert("subheader"@, self.subheader.wire()),
            "pageBlockSubheader"@,
        )
    }

    #[verifier::opaque]
    open spec fn parse(d: Doc, at: Seq<char>) -> Result<Doc, Fault> {
        match d {
            Doc::Object(m) => {
                let subheader = field::<RichText>(m, "subheader"@);
                if subheader is Err {
                    subheader
                } else {
                    Ok(
                        tagged(
                            Map::empty()
                                .insert("subheader"@, subheader->Ok_0),
                            "pageBlockSubheader"@,
                        ),
                    )
                }
            },
            _ => Err(Fault::TypeMismatch(at)),
        }
    }

    fn encode(&self) -> (j: Json) {
        proof {
            reveal(<PageBlockSubheader as Wire>::wire);
        }
        let mut members: Vec<Member> = Vec::new();
        put(&mut members, "subheader", self.subheader.encode());
        seal(members, "pageBlockSubheader")
    }

    fn decode(j: &Json, at: &str) -> (r: Result<Self, DecodeError>) {
        proof {
            reveal(<PageBlockSubheader as Wire>::wire);
            reveal(<PageBlockSubheader as Wire>::parse);
        }
        let members = members_of(j, at)?;
        let subheader = read_field::<RichText>(members, "subheader")?;
        Ok(PageBlockSubheader { subheader })
    }

    proof fn round_trip(&self, at: Seq<char>) {
        reveal(<PageBlockSubheader as Wire>::wire);
        reveal(<PageBlockSubheader as Wire>::parse);
        reveal_strlit("@type");
        reveal_strlit("subheader");
        assert("@type"@.len() == 5);
        assert("subheader"@.len() == 9);
        self.subheader.round_trip("subheader"@);
    }
}

impl Tagged for PageBlockSubheader {
    open spec fn known(tag: Seq<char>) -> bool {
        tag == "pageBlockSubheader"@
    }

    fn knows(tag: &str) -> (r: bool) {
        same_text(tag, "pageBlockSubheader")
    }

    proof fn tag_known(&self) {
        reveal(<PageBlockSubheader as Wire>::wire);
        assert(tag_of(self.wire()) == Some("pageBlockSubheader"@));
        assert(Self::known("pageBlockSubheader"@));
    }
}

/// A kicker
#[derive(Debug, Clone, PartialEq)]
pub struct PageBlockKicker {
    /// Kicker
    pub kicker: RichText,
}

impl Wire for PageBlockKicker {
    #[verifier::opaque]
    open spec fn wire(&self) -> Doc {
        tagged(
            Map::empty()
                .insert("kicker"@, self.kicker.wire()),
            "pageBlockKicker"@,
        )
    }

    #[verifier::opaque]
    open spec fn parse(d: Doc, at: Seq<char>) -> Result<Doc, Fault> {
        match d {
            Doc::Object(m) => {
                let kicker = field::<RichText>(m, "kicker"@);
                if kicker is Err {
                    kicker
                } else {
                    Ok(
                        tagged(
                            Map::empty()
                                .insert("kicker"@, kicker->Ok_0),
                            "pageBlockKicker"@,
                        ),
                    )
                }
            },
            _ => Err(Fault::TypeMismatch(at)),
        }
    }

    fn encode(&self) -> (j: Json) {
        proof {
            reveal(<PageBlockKicker as Wire>::wire);
        }
        let mut members: Vec<Member> = Vec::new();
        put(&mut members, "kicker", self.kicker.encode());
        seal(members, "pageBlockKicker")
    }

    fn decode(j: &Json, at: &str) -> (r: Result<Self, DecodeError>) {
        proof {
            reveal(<PageBlockKicker as Wire>::wire);
            reveal(<PageBlockKicker as Wire>::parse);
        }
        let members = members_of(j, at)?;
        let kicker = read_field::<RichText>(members, "kicker")?;
        Ok(PageBlockKicker { kicker })
    }

    proof fn round_trip(&self, at: Seq<char>) {
        reveal(<PageBlockKicker as Wire>::wire);
        reveal(<PageBlockKicker as Wire>::parse);
        reveal_strlit("@type");
        reveal_strlit("kicker");
        assert("@type"@.len() == 5);
        assert("kicker"@.len() == 6);
        self.kicker.round_trip("kicker"@);
    }
}

impl Tagged for PageBlockKicker {
    open spec fn known(tag: Seq<char>) -> bool {
        tag == "pageBlockKicker"@
    }

    fn knows(tag: &str) -> (r: bool) {
        same_text(tag, "pageBlockKicker")
    }

    proof fn tag_known(&self) {
        reveal(<PageBlockKicker as Wire>::wire);
        assert(tag_of(self.wire()) == Some("pageBlockKicker"@));
        assert(Self::known("pageBlockKicker"@));
    }
}

/// A text paragraph
#[derive(Debug, Clone, PartialEq)]
pub struct PageBlockParagraph {
    /// Paragraph text
    pub text: RichText,
}

impl Wire for PageBlockParagraph {
    #[verifier::opaque]
    open spec fn wire(&self) -> Doc {
        tagged(
            Map::empty()
                .insert("text"@, self.text.wire()),
            "pageBlockParagraph"@,
        )
    }

    #[verifier::opaque]
    open spec fn parse(d: Doc, at: Seq<char>) -> Result<Doc, Fault> {
        match d {
            Doc::Object(m) => {
                let text = field::<RichText>(m, "text"@);
                if text is Err {
                    text
                } else {
                    Ok(
                        tagged(
                            Map::empty()
                                .insert("text"@, text->Ok_0),
                            "pageBlockParagraph"@,
                        ),
                    )
                }
            },
            _ => Err(Fault::TypeMismatch(at)),
        }
    }

    fn encode(&self) -> (j: Json) {
        proof {
            reveal(<PageBlockParagraph as Wire>::wire);
        }
        let mut members: Vec<Member> = Vec::new();
        put(&mut members, "text", self.text.encode());
        seal(members, "pageBlockParagraph")
    }

    fn decode(j: &Json, at: &str) -> (r: Result<Self, DecodeError>) {
        proof {
            reveal(<PageBlockParagraph as Wire>::wire);
            reveal(<PageBlockParagraph as Wire>::parse);
        }
        let members = members_of(j, at)?;
        let text = read_field::<RichText>(members, "text")?;
        Ok(PageBlockParagraph { text })
    }

    proof fn round_trip(&self, at: Seq<char>) {
        reveal(<PageBlockParagraph as Wire>::wire);
        reveal(<PageBlockParagraph as Wire>::parse);
        reveal_strlit("@type");
        reveal_strlit("text");
        assert("@type"@.len() == 5);
        assert("text"@.len() == 4);
        self.text.round_trip("text"@);
    }
}

impl Tagged for PageBlockParagraph {
    open spec fn known(tag: Seq<char>) -> bool {
        tag == "pageBlockParagraph"@
    }

    fn knows(tag: &str) -> (r: bool) {
        same_text(tag, "pageBlockParagraph")
    }

    proof fn tag_known(&self) {
        reveal(<PageBlockParagraph as Wire>::wire);
        assert(tag_of(self.wire()) == Some("pageBlockParagraph"@));
        assert(Self::known("pageBlockParagraph"@));
    }
}

/// A preformatted text paragraph
#[derive(Debug, Clone, PartialEq)]
pub struct PageBlockPreformatted {
    /// Paragraph text
    pub text: RichText,
    /// Programming language for which the text should be formatted
    pub language: String,
}

impl Wire for PageBlockPreformatted {
    #[verifier::opaque]
    open spec fn wire(&self) -> Doc {
        tagged(
            Map::empty()
                .insert("text"@, self.text.wire())
                .insert("language"@, self.language.wire()),
            "pageBlockPreformatted"@,
        )
    }

    #[verifier::opaque]
    open spec fn parse(d: Doc, at: Seq<char>) -> Result<Doc, Fault> {
        match d {
            Doc::Object(m) => {
                let text = field::<RichText>(m, "text"@);
                let language = field::<String>(m, "language"@);
                if text is Err {
                    text
                } else if language is Err {
                    language
                } else {
                    Ok(
                        tagged(
                            Map::empty()
                                .insert("text"@, text->Ok_0)
                                .insert("language"@, language->Ok_0),
                            "pageBlockPreformatted"@,
                        ),
                    )
                }
            },
            _ => Err(Fault::TypeMismatch(at)),
        }
    }

    fn encode(&self) -> (j: Json) {
        proof {
            reveal(<PageBlockPreformatted as Wire>::wire);
        }
        let mut members: Vec<Member> = Vec::new();
        put(&mut members, "text", self.text.encode());
        put(&mut members, "language", self.language.encode());
        seal(members, "pageBlockPreformatted")
    }

    fn decode(j: &Json, at: &str) -> (r: Result<Self, DecodeError>) {
        proof {
            reveal(<PageBlockPreformatted as Wire>::wire);
            reveal(<PageBlockPreformatted as Wire>::parse);
        }
        let members = members_of(j, at)?;
        let text = read_field::<RichText>(members, "text")?;
        let language = read_field::<String>(members, "language")?;
        Ok(PageBlockPreformatted { text, language })
    }

    proof fn round_trip(&self, at: Seq<char>) {
        reveal(<PageBlockPreformatted as Wire>::wire);
        reveal(<PageBlockPreformatted as Wire>::parse);
        reveal_strlit("@type");
        reveal_strlit("language");
        reveal_strlit("text");
        assert("@type"@.len() == 5);
        assert("language"@.len() == 8);
        assert("text"@.len() == 4);
        self.text.round_trip("text"@);
        self.language.round_trip("language"@);
    }
}

impl Tagged for PageBlockPreformatted {
    open spec fn known(tag: Seq<char>) -> bool {
        tag == "pageBlockPreformatted"@
    }

    fn knows(tag: &str) -> (r: bool) {
        same_text(tag, "pageBlockPreformatted")
    }

    proof fn tag_known(&self) {
        reveal(<PageBlockPreformatted as Wire>::wire);
        assert(tag_of(self.wire()) == Some("pageBlockPreformatted"@));
        assert(Self::known("pageBlockPreformatted"@));
    }
}

/// The footer of a page
#[derive(Debug, Clone, PartialEq)]
pub struct PageBlockFooter {
    /// Footer
    pub footer: RichText,
}

impl Wire for PageBlockFooter {
    #[verifier::opaque]
    open spec fn wire(&self) -> Doc {
        tagged(
            Map::empty()
                .insert("footer"@, self.footer.wire()),
            "pageBlockFooter"@,
        )
    }

    #[verifier::opaque]
    open spec fn parse(d: Doc, at: Seq<char>) -> Result<Doc, Fault> {
        match d {
            Doc::Object(m) => {
                let footer = field::<RichText>(m, "footer"@);
                if footer is Err {
                    footer
                } else {
                    Ok(
                        tagged(
                            Map::empty()
                                .insert("footer"@, footer->Ok_0),
                            "pageBlockFooter"@,
                        ),
                    )
                }
            },
            _ => Err(Fault::TypeMismatch(at)),
        }
    }

    fn encode(&self) -> (j: Json) {
        proof {
            reveal(<PageBlockFooter as Wire>::wire);
        }
        let mut members: Vec<Member> = Vec::new();
        put(&mut members, "footer", self.footer.encode());
        seal(members, "pageBlockFooter")
    }

    fn decode(j: &Json, at: &str) -> (r: Result<Self, DecodeError>) {
        proof {
            reveal(<PageBlockFooter as Wire>::wire);
            reveal(<PageBlockFooter as Wire>::parse);
        }
        let members = members_of(j, at)?;
        let footer = read_field::<RichText>(members, "footer")?;
        Ok(PageBlockFooter { footer })
    }

    proof fn round_trip(&self, at: Seq<char>) {
        reveal(<PageBlockFooter as Wire>::wire);
        reveal(<PageBlockFooter as Wire>::parse);
        reveal_strlit("@type");
        reveal_strlit("footer");
        assert("@type"@.len() == 5);
        assert("footer"@.len() == 6);
        self.footer.round_trip("footer"@);
    }
}

impl Tagged for PageBlockFooter {
    open spec fn known(tag: Seq<char>) -> bool {
        tag == "pageBlockFooter"@
    }

    fn knows(tag: &str) -> (r: bool) {
        same_text(tag, "pageBlockFooter")
    }

    proof fn tag_known(&self) {
        reveal(<PageBlockFooter as Wire>::wire);
        assert(tag_of(self.wire()) == Some("pageBlockFooter"@));
        assert(Self::known("pageBlockFooter"@));
    }
}

/// An empty block separating a page
#[derive(Debug, Clone, PartialEq)]
pub struct PageBlockDivider {}

impl Wire for PageBlockDivider {
    #[verifier::opaque]
    open spec fn wire(&self) -> Doc {
        tagged(Map::empty(), "pageBlockDivider"@)
    }

    #[verifier::opaque]
    open spec fn parse(d: Doc, at: Seq<char>) -> Result<Doc, Fault> {
        match d {
            Doc::Object(_) => Ok(tagged(Map::empty(), "pageBlockDivider"@)),
            _ => Err(Fault::TypeMismatch(at)),
        }
    }

    fn encode(&self) -> (j: Json) {
        proof {
            reveal(<PageBlockDivider as Wire>::wire);
        }
        seal(Vec::new(), "pageBlockDivider")
    }

    fn decode(j: &Json, at: &str) -> (r: Result<Self, DecodeError>) {
        proof {
            reveal(<PageBlockDivider as Wire>::wire);
            reveal(<PageBlockDivider as Wire>::parse);
        }
        let _ = members_of(j, at)?;
        Ok(PageBlockDivider {})
    }

    proof fn round_trip(&self, at: Seq<char>) {
        reveal(<PageBlockDivider as Wire>::wire);
        reveal(<PageBlockDivider as Wire>::parse);
    }
}

impl Tagged for PageBlockDivider {
    open spec fn known(tag: Seq<char>) -> bool {
        tag == "pageBlockDivider"@
    }

    fn knows(tag: &str) -> (r: bool) {
        same_text(tag, "pageBlockDivider")
    }

    proof fn tag_known(&self) {
        reveal(<PageBlockDivider as Wire>::wire);
        assert(tag_of(self.wire()) == Some("pageBlockDivider"@));
        assert(Self::known("pageBlockDivider"@));
    }
}

/// An invisible anchor on a page, which can be used in a URL to open the page from the specified
/// anchor
#[derive(Debug, Clone, PartialEq)]
pub struct PageBlockAnchor {
    /// Name of the anchor
    pub name: String,
}

impl Wire for PageBlockAnchor {
    #[verifier::opaque]
    open spec fn wire(&self) -> Doc {
        tagged(
            Map::empty()
                .insert("name"@, self.name.wire()),
            "pageBlockAnchor"@,
        )
    }

    #[verifier::opaque]
    open spec fn parse(d: Doc, at: Seq<char>) -> Result<Doc, Fault> {
        match d {
            Doc::Object(m) => {
                let name = field::<String>(m, "name"@);
                if name is Err {
                    name
                } else {
                    Ok(
                        tagged(
                            Map::empty()
                                .insert("name"@, name->Ok_0),
                            "pageBlockAnchor"@,
                        ),
                    )
                }
            },
            _ => Err(Fault::TypeMismatch(at)),
        }
    }

    fn encode(&self) -> (j: Json) {
        proof {
            reveal(<PageBlockAnchor as Wire>::wire);
        }
        let mut members: Vec<Member> = Vec::new();
        put(&mut members, "name", self.name.encode());
        seal(members, "pageBlockAnchor")
    }

    fn decode(j: &Json, at: &str) -> (r: Result<Self, DecodeError>) {
        proof {
            reveal(<PageBlockAnchor as Wire>::wire);
            reveal(<PageBlockAnchor as Wire>::parse);
        }
        let members = members_of(j, at)?;
        let name = read_field::<String>(members, "name")?;
        Ok(PageBlockAnchor { name })
    }

    proof fn round_trip(&self, at: Seq<char>) {
        reveal(<PageBlockAnchor as Wire>::wire);
        reveal(<PageBlockAnchor as Wire>::parse);
        reveal_strlit("@type");
        reveal_strlit("name");
        assert("@type"@.len() == 5);
        assert("name"@.len() == 4);
        self.name.round_trip("name"@);
    }
}

impl Tagged for PageBlockAnchor {
    open spec fn known(tag: Seq<char>) -> bool {
        tag == "pageBlockAnchor"@
    }

    fn knows(tag: &str) -> (r: bool) {
        same_text(tag, "pageBlockAnchor")
    }

    proof fn tag_known(&self) {
        reveal(<PageBlockAnchor as Wire>::wire);
        assert(tag_of(self.wire()) == Some("pageBlockAnchor"@));
        assert(Self::known("pageBlockAnchor"@));
    }
}

/// A list of data blocks
#[derive(Debug, Clone, PartialEq)]
pub struct PageBlockList {
    /// The items of the list
    pub items: Vec<PageBlockListItem>,
}

impl Wire for PageBlockList {
    #[verifier::opaque]
    open spec fn wire(&self) -> Doc {
        tagged(
            Map::empty()
                .insert("items"@, self.items.wire()),
            "pageBlockList"@,
        )
    }

    #[verifier::opaque]
    open spec fn parse(d: Doc, at: Seq<char>) -> Result<Doc, Fault> {
        match d {
            Doc::Object(m) => {
                let items = field::<Vec<PageBlockListItem>>(m, "items"@);
                if items is Err {
                    items
                } else {
                    Ok(
                        tagged(
                            Map::empty()
                                .insert("items"@, items->Ok_0),
                            "pageBlockList"@,
                        ),
                    )
                }
            },
            _ => Err(Fault::TypeMismatch(at)),
        }
    }

    fn encode(&self) -> (j: Json) {
        proof {
            reveal(<PageBlockList as Wire>::wire);
        }
        let mut members: Vec<Member> = Vec::new();
        put(&mut members, "items", self.items.encode());
        seal(members, "pageBlockList")
    }

    fn decode(j: &Json, at: &str) -> (r: Result<Self, DecodeError>) {
        proof {
            reveal(<PageBlockList as Wire>::wire);
            reveal(<PageBlockList as Wire>::parse);
        }
        let members = members_of(j, at)?;
        let items = read_field::<Vec<PageBlockListItem>>(members, "items")?;
        Ok(PageBlockList { items })
    }

    proof fn round_trip(&self, at: Seq<char>) {
        reveal(<PageBlockList as Wire>::wire);
        reveal(<PageBlockList as Wire>::parse);
        reveal_strlit("@type");
        reveal_strlit("items");
        assert("@type"@.len() == 5 && "@type"@[0] == '@');
        assert("items"@.len() == 5 && "items"@[0] == 'i');
        self.items.round_trip("items"@);
    }
}

impl Tagged for PageBlockList {
    open spec fn known(tag: Seq<char>) -> bool {
        tag == "pageBlockList"@
    }

    fn knows(tag: &str) -> (r: bool) {
        same_text(tag, "pageBlockList")
    }

    proof fn tag_known(&self) {
        reveal(<PageBlockList as Wire>::wire);
        assert(tag_of(self.wire()) == Some("pageBlockList"@));
        assert(Self::known("pageBlockList"@));
    }
}

/// A block quote
#[derive(Debug, Clone, PartialEq)]
pub struct PageBlockBlockQuote {
    /// Quote text
    pub text: RichText,
    /// Quote credit
    pub credit: RichText,
}

impl Wire for PageBlockBlockQuote {
    #[verifier::opaque]
    open spec fn wire(&self) -> Doc {
        tagged(
            Map::empty()
                .insert("text"@, self.text.wire())
                .insert("credit"@, self.credit.wire()),
            "pageBlockBlockQuote"@,
        )
    }

    #[verifier::opaque]
    open spec fn parse(d: Doc, at: Seq<char>) -> Result<Doc, Fault> {
        match d {
            Doc::Object(m) => {
                let text = field::<RichText>(m, "text"@);
                let credit = field::<RichText>(m, "credit"@);
                if text is Err {
                    text
                } else if credit is Err {
                    credit
                } else {
                    Ok(
                        tagged(
                            Map::empty()
                                .insert("text"@, text->Ok_0)
                                .insert("credit"@, credit->Ok_0),
                            "pageBlockBlockQuote"@,
                        ),
                    )
                }
            },
            _ => Err(Fault::TypeMismatch(at)),
        }
    }

    fn encode(&self) -> (j: Json) {
        proof {
            reveal(<PageBlockBlockQuote as Wire>::wire);
        }
        let mut members: Vec<Member> = Vec::new();
        put(&mut members, "text", self.text.encode());
        put(&mut members, "credit", self.credit.encode());
        seal(members, "pageBlockBlockQuote")
    }

    fn decode(j: &Json, at: &str) -> (r: Result<Self, DecodeError>) {
        proof {
            reveal(<PageBlockBlockQuote as Wire>::wire);
            reveal(<PageBlockBlockQuote as Wire>::parse);
        }
        let members = members_of(j, at)?;
        let text = read_field::<RichText>(members, "text")?;
        let credit = read_field::<RichText>(members, "credit")?;
        Ok(PageBlockBlockQuote { text, credit })
    }

    proof fn round_trip(&self, at: Seq<char>) {
        reveal(<PageBlockBlockQuote as Wire>::wire);
        reveal(<PageBlockBlockQuote as Wire>::parse);
        reveal_strlit("@type");
        reveal_strlit("credit");
        reveal_strlit("text");
        assert("@type"@.len() == 5);
        assert("credit"@.len() == 6);
        assert("text"@.len() == 4);
        self.text.round_trip("text"@);
        self.credit.round_trip("credit"@);
    }
}

impl Tagged for PageBlockBlockQuote {
    open spec fn known(tag: Seq<char>) -> bool {
        tag == "pageBlockBlockQuote"@
    }

    fn knows(tag: &str) -> (r: bool) {
        same_text(tag, "pageBlockBlockQuote")
    }

    proof fn tag_known(&self) {
        reveal(<PageBlockBlockQuote as Wire>::wire);
        assert(tag_of(self.wire()) == Some("pageBlockBlockQuote"@));
        assert(Self::known("pageBlockBlockQuote"@));
    }
}

/// A pull quote
#[derive(Debug, Clone, PartialEq)]
pub struct PageBlockPullQuote {
    /// Quote text
    pub text: RichText,
    /// Quote credit
    pub credit: RichText,
}

impl Wire for PageBlockPullQuote {
    #[verifier::opaque]
    open spec fn wire(&self) -> Doc {
        tagged(
            Map::empty()
                .insert("text"@, self.text.wire())
                .insert("credit"@, self.credit.wire()),
            "pageBlockPullQuote"@,
        )
    }

    #[verifier::opaque]
    open spec fn parse(d: Doc, at: Seq<char>) -> Result<Doc, Fault> {
        match d {
            Doc::Object(m) => {
                let text = field::<RichText>(m, "text"@);
                let credit = field::<RichText>(m, "credit"@);
                if text is Err {
                    text
                } else if credit is Err {
                    credit
                } else {
                    Ok(
                        tagged(
                            Map::empty()
                                .insert("text"@, text->Ok_0)
                                .insert("credit"@, credit->Ok_0),
                            "pageBlockPullQuote"@,
                        ),
                    )
                }
            },
            _ => Err(Fault::TypeMismatch(at)),
        }
    }

    fn encode(&self) -> (j: Json) {
        proof {
            reveal(<PageBlockPullQuote as Wire>::wire);
        }
        let mut members: Vec<Member> = Vec::new();
        put(&mut members, "text", self.text.encode());
        put(&mut members, "credit", self.credit.encode());
        seal(members, "pageBlockPullQuote")
    }

    fn decode(j: &Json, at: &str) -> (r: Result<Self, DecodeError>) {
        proof {
            reveal(<PageBlockPullQuote as Wire>::wire);
            reveal(<PageBlockPullQuote as Wire>::parse);
        }
        let members = members_of(j, at)?;
        let text = read_field::<RichText>(members, "text")?;
        let credit = read_field::<RichText>(members, "credit")?;
        Ok(PageBlockPullQuote { text, credit })
    }

    proof fn round_trip(&self, at: Seq<char>) {
        reveal(<PageBlockPullQuote as Wire>::wire);
        reveal(<PageBlockPullQuote as Wire>::parse);
        reveal_strlit("@type");
        reveal_strlit("credit");
        reveal_strlit("text");
        assert("@type"@.len() == 5);
        assert("credit"@.len() == 6);
        assert("text"@.len() == 4);
        self.text.round_trip("text"@);
        self.credit.round_trip("credit"@);
    }
}

impl Tagged for PageBlockPullQuote {
    open spec fn known(tag: Seq<char>) -> bool {
        tag == "pageBlockPullQuote"@
    }

    fn knows(tag: &str) -> (r: bool) {
        same_text(tag, "pageBlockPullQuote")
    }

    proof fn tag_known(&self) {
        reveal(<PageBlockPullQuote as Wire>::wire);
        assert(tag_of(self.wire()) == Some("pageBlockPullQuote"@));
        assert(Self::known("pageBlockPullQuote"@));
    }
}

/// An animation
#[derive(Debug, Clone, PartialEq)]
pub struct PageBlockAnimation {
    /// Animation file; may be null
    pub animation: Option<Animation>,
    /// Animation caption
    pub caption: PageBlockCaption,
    /// True, if the animation should be played automatically
    pub need_autoplay: bool,
}

impl Wire for PageBlockAnimation {
    #[verifier::opaque]
    open spec fn wire(&self) -> Doc {
        tagged(
            Map::empty()
                .insert("animation"@, self.animation.wire())
                .insert("caption"@, self.caption.wire())
                .insert("needAutoplay"@, self.need_autoplay.wire()),
            "pageBlockAnimation"@,
        )
    }

    #[verifier::opaque]
    open spec fn parse(d: Doc, at: Seq<char>) -> Result<Doc, Fault> {
        match d {
            Doc::Object(m) => {
                let animation = optional_field::<Animation>(m, "animation"@);
                let caption = field::<PageBlockCaption>(m, "caption"@);
                let need_autoplay = field::<bool>(m, "needAutoplay"@);
                if animation is Err {
                    animation
                } else if caption is Err {
                    caption
                } else if need_autoplay is Err {
                    need_autoplay
                } else {
                    Ok(
                        tagged(
                            Map::empty()
                                .insert("animation"@, animation->Ok_0)
                                .insert("caption"@, caption->Ok_0)
                                .insert("needAutoplay"@, need_autoplay->Ok_0),
                            "pageBlockAnimation"@,
                        ),
                    )
                }
            },
            _ => Err(Fault::TypeMismatch(at)),
        }
    }

    fn encode(&self) -> (j: Json) {
        proof {
            reveal(<PageBlockAnimation as Wire>::wire);
        }
        let mut members: Vec<Member> = Vec::new();
        put(&mut members, "animation", self.animation.encode());
        put(&mut members, "caption", self.caption.encode());
        put(&mut members, "needAutoplay", self.need_autoplay.encode());
        seal(members, "pageBlockAnimation")
    }

    fn decode(j: &Json, at: &str) -> (r: Result<Self, DecodeError>) {
        proof {
            reveal(<PageBlockAnimation as Wire>::wire);
            reveal(<PageBlockAnimation as Wire>::parse);
        }
        let members = members_of(j, at)?;
        let animation = read_optional::<Animation>(members, "animation")?;
        let caption = read_field::<PageBlockCaption>(members, "caption")?;
        let need_autoplay = read_field::<bool>(members, "needAutoplay")?;
        Ok(PageBlockAnimation { animation, caption, need_autoplay })
    }

    proof fn round_trip(&self, at: Seq<char>) {
        reveal(<PageBlockAnimation as Wire>::wire);
        reveal(<PageBlockAnimation as Wire>::parse);
        reveal_strlit("@type");
        reveal_strlit("animation");
        reveal_strlit("caption");
        reveal_strlit("needAutoplay");
        assert("@type"@.len() == 5);
        assert("animation"@.len() == 9);
        assert("caption"@.len() == 7);
        assert("needAutoplay"@.len() == 12);
        self.animation.round_trip("animation"@);
        self.caption.round_trip("caption"@);
        self.need_autoplay.round_trip("needAutoplay"@);
    }
}

impl Tagged for PageBlockAnimation {
    open spec fn known(tag: Seq<char>) -> bool {
        tag == "pageBlockAnimation"@
    }

    fn knows(tag: &str) -> (r: bool) {
        same_text(tag, "pageBlockAnimation")
    }

    proof fn tag_known(&self) {
        reveal(<PageBlockAnimation as Wire>::wire);
        assert(tag_of(self.wire()) == Some("pageBlockAnimation"@));
        assert(Self::known("pageBlockAnimation"@));
    }
}

/// An audio file
#[derive(Debug, Clone, PartialEq)]
pub struct PageBlockAudio {
    /// Audio file; may be null
    pub audio: Option<Audio>,
    /// Audio file caption
    pub caption: PageBlockCaption,
}

impl Wire for PageBlockAudio {
    #[verifier::opaque]
    open spec fn wire(&self) -> Doc {
        tagged(
            Map::empty()
                .insert("audio"@, self.audio.wire())
                .insert("caption"@, self.caption.wire()),
            "pageBlockAudio"@,
        )
    }

    #[verifier::opaque]
    open spec fn parse(d: Doc, at: Seq<char>) -> Result<Doc, Fault> {
        match d {
            Doc::Object(m) => {
                let audio = optional_field::<Audio>(m, "audio"@);
                let caption = field::<PageBlockCaption>(m, "caption"@);
                if audio is Err {
                    audio
                } else if caption is Err {
                    caption
                } else {
                    Ok(
                        tagged(
                            Map::empty()
                                .insert("audio"@, audio->Ok_0)
                                .insert("caption"@, caption->Ok_0),
                            "pageBlockAudio"@,
                        ),
                    )
                }
            },
            _ => Err(Fault::TypeMismatch(at)),
        }
    }

    fn encode(&self) -> (j: Json) {
        proof {
            reveal(<PageBlockAudio as Wire>::wire);
        }
        let mut members: Vec<Member> = Vec::new();
        put(&mut members, "audio", self.audio.encode());
        put(&mut members, "caption", self.caption.encode());
        seal(members, "pageBlockAudio")
    }

    fn decode(j: &Json, at: &str) -> (r: Result<Self, DecodeError>) {
        proof {
            reveal(<PageBlockAudio as Wire>::wire);
            reveal(<PageBlockAudio as Wire>::parse);
        }
        let members = members_of(j, at)?;
        let audio = read_optional::<Audio>(members, "audio")?;
        let caption = read_field::<PageBlockCaption>(members, "caption")?;
        Ok(PageBlockAudio { audio, caption })
    }

    proof fn round_trip(&self, at: Seq<char>) {
        reveal(<PageBlockAudio as Wire>::wire);
        reveal(<PageBlockAudio as Wire>::parse);
        reveal_strlit("@type");
        reveal_strlit("audio");
        reveal_strlit("caption");
        assert("@type"@.len() == 5 && "@type"@[0] == '@');
        assert("audio"@.len() == 5 && "audio"@[0] == 'a');
        assert("caption"@.len() == 7);
        self.audio.round_trip("audio"@);
        self.caption.round_trip("caption"@);
    }
}

impl Tagged for PageBlockAudio {
    open spec fn known(tag: Seq<char>) -> bool {
        tag == "pageBlockAudio"@
    }

    fn knows(tag: &str) -> (r: bool) {
        same_text(tag, "pageBlockAudio")
    }

    proof fn tag_known(&self) {
        reveal(<PageBlockAudio as Wire>::wire);
        assert(tag_of(self.wire()) == Some("pageBlockAudio"@));
        assert(Self::known("pageBlockAudio"@));
    }
}

/// A photo
#[derive(Debug, Clone, PartialEq)]
pub struct PageBlockPhoto {
    /// Photo file; may be null
    pub photo: Option<Photo>,
    /// Photo caption
    pub caption: PageBlockCaption,
    /// URL that needs to be opened when the photo is clicked
    pub url: String,
}

impl Wire for PageBlockPhoto {
    #[verifier::opaque]
    open spec fn wire(&self) -> Doc {
        tagged(
            Map::empty()
                .insert("photo"@, self.photo.wire())
                .insert("caption"@, self.caption.wire())
                .insert("url"@, self.url.wire()),
            "pageBlockPhoto"@,
        )
    }

    #[verifier::opaque]
    open spec fn parse(d: Doc, at: Seq<char>) -> Result<Doc, Fault> {
        match d {
            Doc::Object(m) => {
                let photo = optional_field::<Photo>(m, "photo"@);
                let caption = field::<PageBlockCaption>(m, "caption"@);
                let url = field::<String>(m, "url"@);
                if photo is Err {
                    photo
                } else if caption is Err {
                    caption
                } else if url is Err {
                    url
                } else {
                    Ok(
                        tagged(
                            Map::empty()
                                .insert("photo"@, photo->Ok_0)
                                .insert("caption"@, caption->Ok_0)
                                .insert("url"@, url->Ok_0),
                            "pageBlockPhoto"@,
                        ),
                    )
                }
            },
            _ => Err(Fault::TypeMismatch(at)),
        }
    }

    fn encode(&self) -> (j: Json) {
        proof {
            reveal(<PageBlockPhoto as Wire>::wire);
        }
        let mut members: Vec<Member> = Vec::new();
        put(&mut members, "photo", self.photo.encode());
        put(&mut members, "caption", self.caption.encode());
        put(&mut members, "url", self.url.encode());
        seal(members, "pageBlockPhoto")
    }

    fn decode(j: &Json, at: &str) -> (r: Result<Self, DecodeError>) {
        proof {
            reveal(<PageBlockPhoto as Wire>::wire);
            reveal(<PageBlockPhoto as Wire>::parse);
        }
        let members = members_of(j, at)?;
        let photo = read_optional::<Photo>(members, "photo")?;
        let caption = read_field::<PageBlockCaption>(members, "caption")?;
        let url = read_field::<String>(members, "url")?;
        Ok(PageBlockPhoto { photo, caption, url })
    }

    proof fn round_trip(&self, at: Seq<char>) {
        reveal(<PageBlockPhoto as Wire>::wire);
        reveal(<PageBlockPhoto as Wire>::parse);
        reveal_strlit("@type");
        reveal_strlit("caption");
        reveal_strlit("photo");
        reveal_strlit("url");
        assert("@type"@.len() == 5 && "@type"@[0] == '@');
        assert("caption"@.len() == 7);
        assert("photo"@.len() == 5 && "photo"@[0] == 'p');
        assert("url"@.len() == 3);
        self.photo.round_trip("photo"@);
        self.caption.round_trip("caption"@);
        self.url.round_trip("url"@);
    }
}

impl Tagged for PageBlockPhoto {
    open spec fn known(tag: Seq<char>) -> bool {
        tag == "pageBlockPhoto"@
    }

    fn knows(tag: &str) -> (r: bool) {
        same_text(tag, "pageBlockPhoto")
    }

    proof fn tag_known(&self) {
        reveal(<PageBlockPhoto as Wire>::wire);
        assert(tag_of(self.wire()) == Some("pageBlockPhoto"@));
        assert(Self::known("pageBlockPhoto"@));
    }
}

/// A video
#[derive(Debug, Clone, PartialEq)]
pub struct PageBlockVideo {
    /// Video file; may be null
    pub video: Option<Video>,
    /// Video caption
    pub caption: PageBlockCaption,
    /// True, if the video should be played automatically
    pub need_autoplay: bool,
    /// True, if the video should be looped
    pub is_looped: bool,
}

impl Wire for PageBlockVideo {
    #[verifier::opaque]
    open spec fn wire(&self) -> Doc {
        tagged(
            Map::empty()
                .insert("video"@, self.video.wire())
                .insert("caption"@, self.caption.wire())
                .insert("needAutoplay"@, self.need_autoplay.wire())
                .insert("isLooped"@, self.is_looped.wire()),
            "pageBlockVideo"@,
        )
    }

    #[verifier::opaque]
    open spec fn parse(d: Doc, at: Seq<char>) -> Result<Doc, Fault> {
        match d {
            Doc::Object(m) => {
                let video = optional_field::<Video>(m, "video"@);
                let caption = field::<PageBlockCaption>(m, "caption"@);
                let need_autoplay = field::<bool>(m, "needAutoplay"@);
                let is_looped = field::<bool>(m, "isLooped"@);
                if video is Err {
                    video
                } else if caption is Err {
                    caption
                } else if need_autoplay is Err {
                    need_autoplay
                } else if is_looped is Err {
                    is_looped
                } else {
                    Ok(
                        tagged(
                            Map::empty()
                                .insert("video"@, video->Ok_0)
                                .insert("caption"@, caption->Ok_0)
                                .insert("needAutoplay"@, need_autoplay->Ok_0)
                                .insert("isLooped"@, is_looped->Ok_0),
                            "pageBlockVideo"@,
                        ),
                    )
                }
            },
            _ => Err(Fault::TypeMismatch(at)),
        }
    }

    fn encode(&self) -> (j: Json) {
        proof {
            reveal(<PageBlockVideo as Wire>::wire);
        }
        let mut members: Vec<Member> = Vec::new();
        put(&mut members, "video", self.video.encode());
        put(&mut members, "caption", self.caption.encode());
        put(&mut members, "needAutoplay", self.need_autoplay.encode());
        put(&mut members, "isLooped", self.is_looped.encode());
        seal(members, "pageBlockVideo")
    }

    fn decode(j: &Json, at: &str) -> (r: Result<Self, DecodeError>) {
        proof {
            reveal(<PageBlockVideo as Wire>::wire);
            reveal(<PageBlockVideo as Wire>::parse);
        }
        let members = members_of(j, at)?;
        let video = read_optional::<Video>(members, "video")?;
        let caption = read_field::<PageBlockCaption>(members, "caption")?;
        let need_autoplay = read_field::<bool>(members, "needAutoplay")?;
        let is_looped = read_field::<bool>(members, "isLooped")?;
        Ok(PageBlockVideo { video, caption, need_autoplay, is_looped })
    }

    proof fn round_trip(&self, at: Seq<char>) {
        reveal(<PageBlockVideo as Wire>::wire);
        reveal(<PageBlockVideo as Wire>::parse);
        reveal_strlit("@type");
        reveal_strlit("caption");
        reveal_strlit("isLooped");
        reveal_strlit("needAutoplay");
        reveal_strlit("video");
        assert("@type"@.len() == 5 && "@type"@[0] == '@');
        assert("caption"@.len() == 7);
        assert("isLooped"@.len() == 8);
        assert("needAutoplay"@.len() == 12);
        assert("video"@.len() == 5 && "video"@[0] == 'v');
        self.video.round_trip("video"@);
        self.caption.round_trip("caption"@);
        self.need_autoplay.round_trip("needAutoplay"@);
        self.is_looped.round_trip("isLooped"@);
    }
}

impl Tagged for PageBlockVideo {
    open spec fn known(tag: Seq<char>) -> bool {
        tag == "pageBlockVideo"@
    }

    fn knows(tag: &str) -> (r: bool) {
        same_text(tag, "pageBlockVideo")
    }

    proof fn tag_known(&self) {
        reveal(<PageBlockVideo as Wire>::wire);
        assert(tag_of(self.wire()) == Some("pageBlockVideo"@));
        assert(Self::known("pageBlockVideo"@));
    }
}

/// A voice note
#[derive(Debug, Clone, PartialEq)]
pub struct PageBlockVoiceNote {
    /// Voice note; may be null
    pub voice_note: Option<VoiceNote>,
    /// Voice note caption
    pub caption: PageBlockCaption,
}

impl Wire for PageBlockVoiceNote {
    #[verifier::opaque]
    open spec fn wire(&self) -> Doc {
        tagged(
            Map::empty()
                .insert("voiceNote"@, self.voice_note.wire())
                .insert("caption"@, self.caption.wire()),
            "pageBlockVoiceNote"@,
        )
    }

    #[verifier::opaque]
    open spec fn parse(d: Doc, at: Seq<char>) -> Result<Doc, Fault> {
        match d {
            Doc::Object(m) => {
                let voice_note = optional_field::<VoiceNote>(m, "voiceNote"@);
                let caption = field::<PageBlockCaption>(m, "caption"@);
                if voice_note is Err {
                    voice_note
                } else if caption is Err {
                    caption
                } else {
                    Ok(
                        tagged(
                            Map::empty()
                                .insert("voiceNote"@, voice_note->Ok_0)
                                .insert("caption"@, caption->Ok_0),
                            "pageBlockVoiceNote"@,
                        ),
                    )
                }
            },
            _ => Err(Fault::TypeMismatch(at)),
        }
    }

    fn encode(&self) -> (j: Json) {
        proof {
            reveal(<PageBlockVoiceNote as Wire>::wire);
        }
        let mut members: Vec<Member> = Vec::new();
        put(&mut members, "voiceNote", self.voice_note.encode());
        put(&mut members, "caption", self.caption.encode());
        seal(members, "pageBlockVoiceNote")
    }

    fn decode(j: &Json, at: &str) -> (r: Result<Self, DecodeError>) {
        proof {
            reveal(<PageBlockVoiceNote as Wire>::wire);
            reveal(<PageBlockVoiceNote as Wire>::parse);
        }
        let members = members_of(j, at)?;
        let voice_note = read_optional::<VoiceNote>(members, "voiceNote")?;
        let caption = read_field::<PageBlockCaption>(members, "caption")?;
        Ok(PageBlockVoiceNote { voice_note, caption })
    }

    proof fn round_trip(&self, at: Seq<char>) {
        reveal(<PageBlockVoiceNote as Wire>::wire);
        reveal(<PageBlockVoiceNote as Wire>::parse);
        reveal_strlit("@type");
        reveal_strlit("caption");
        reveal_strlit("voiceNote");
        assert("@type"@.len() == 5);
        assert("caption"@.len() == 7);
        assert("voiceNote"@.len() == 9);
        self.voice_note.round_trip("voiceNote"@);
        self.caption.round_trip("caption"@);
    }
}

impl Tagged for PageBlockVoiceNote {
    open spec fn known(tag: Seq<char>) -> bool {
        tag == "pageBlockVoiceNote"@
    }

    fn knows(tag: &str) -> (r: bool) {
        same_text(tag, "pageBlockVoiceNote")
    }

    proof fn tag_known(&self) {
        reveal(<PageBlockVoiceNote as Wire>::wire);
        assert(tag_of(self.wire()) == Some("pageBlockVoiceNote"@));
        assert(Self::known("pageBlockVoiceNote"@));
    }
}

/// A page cover
#[derive(Debug, Clone, PartialEq)]
pub struct PageBlockCover {
    /// Cover
    pub cover: Box<PageBlock>,
}

impl Wire for PageBlockCover {
    #[verifier::opaque]
    open spec fn wire(&self) -> Doc {
        tagged(
            Map::empty()
                .insert("cover"@, self.cover.wire()),
            "pageBlockCover"@,
        )
    }

    #[verifier::opaque]
    open spec fn parse(d: Doc, at: Seq<char>) -> Result<Doc, Fault> {
        match d {
            Doc::Object(m) => {
                let cover = field::<Box<PageBlock>>(m, "cover"@);
                if cover is Err {
                    cover
                } else {
                    Ok(
                        tagged(
                            Map::empty()
                                .insert("cover"@, cover->Ok_0),
                            "pageBlockCover"@,
                        ),
                    )
                }
            },
            _ => Err(Fault::TypeMismatch(at)),
        }
    }

    fn encode(&self) -> (j: Json) {
        proof {
            reveal(<PageBlockCover as Wire>::wire);
        }
        let mut members: Vec<Member> = Vec::new();
        put(&mut members, "cover", self.cover.encode());
        seal(members, "pageBlockCover")
    }

    fn decode(j: &Json, at: &str) -> (r: Result<Self, DecodeError>) {
        proof {
            reveal(<PageBlockCover as Wire>::wire);
            reveal(<PageBlockCover as Wire>::parse);
        }
        let members = members_of(j, at)?;
        let cover = read_field::<Box<PageBlock>>(members, "cover")?;
        Ok(PageBlockCover { cover })
    }

    proof fn round_trip(&self, at: Seq<char>) {
        reveal(<PageBlockCover as Wire>::wire);
        reveal(<PageBlockCover as Wire>::parse);
        reveal_strlit("@type");
        reveal_strlit("cover");
        assert("@type"@.len() == 5 && "@type"@[0] == '@');
        assert("cover"@.len() == 5 && "cover"@[0] == 'c');
        self.cover.round_trip("cover"@);
    }
}

impl Tagged for PageBlockCover {
    open spec fn known(tag: Seq<char>) -> bool {
        tag == "pageBlockCover"@
    }

    fn knows(tag: &str) -> (r: bool) {
        same_text(tag, "pageBlockCover")
    }

    proof fn tag_known(&self) {
        reveal(<PageBlockCover as Wire>::wire);
        assert(tag_of(self.wire()) == Some("pageBlockCover"@));
        assert(Self::known("pageBlockCover"@));
    }
}

/// An embedded web page
#[derive(Debug, Clone, PartialEq)]
pub struct PageBlockEmbedded {
    /// Web page URL, if available
    pub url: String,
    /// HTML-markup of the embedded page
    pub html: String,
    /// Poster photo, if available; may be null
    pub poster_photo: Option<Photo>,
    /// Block width; 0 if unknown
    pub width: i32,
    /// Block height; 0 if unknown
    pub height: i32,
    /// Block caption
    pub caption: PageBlockCaption,
    /// True, if the block should be full width
    pub is_full_width: bool,
    /// True, if scrolling should be allowed
    pub allow_scrolling: bool,
}

impl Wire for PageBlockEmbedded {
    #[verifier::opaque]
    open spec fn wire(&self) -> Doc {
        tagged(
            Map::empty()
                .insert("url"@, self.url.wire())
                .insert("html"@, self.html.wire())
                .insert("posterPhoto"@, self.poster_photo.wire())
                .insert("width"@, self.width.wire())
                .insert("height"@, self.height.wire())
                .insert("caption"@, self.caption.wire())
                .insert("isFullWidth"@, self.is_full_width.wire())
                .insert("allowScrolling"@, self.allow_scrolling.wire()),
            "pageBlockEmbedded"@,
        )
    }

    #[verifier::opaque]
    open spec fn parse(d: Doc, at: Seq<char>) -> Result<Doc, Fault> {
        match d {
            Doc::Object(m) => {
                let url = field::<String>(m, "url"@);
                let html = field::<String>(m, "html"@);
                let poster_photo = optional_field::<Photo>(m, "posterPhoto"@);
                let width = field::<i32>(m, "width"@);
                let height = field::<i32>(m, "height"@);
                let caption = field::<PageBlockCaption>(m, "caption"@);
                let is_full_width = field::<bool>(m, "isFullWidth"@);
                let allow_scrolling = field::<bool>(m, "allowScrolling"@);
                if url is Err {
                    url
                } else if html is Err {
                    html
                } else if poster_photo is Err {
                    poster_photo
                } else if width is Err {
                    width
                } else if height is Err {
                    height
                } else if caption is Err {
                    caption
                } else if is_full_width is Err {
                    is_full_width
                } else if allow_scrolling is Err {
                    allow_scrolling
                } else {
                    Ok(
                        tagged(
                            Map::empty()
                                .insert("url"@, url->Ok_0)
                                .insert("html"@, html->Ok_0)
                                .insert("posterPhoto"@, poster_photo->Ok_0)
                                .insert("width"@, width->Ok_0)
                                .insert("height"@, height->Ok_0)
                                .insert("caption"@, caption->Ok_0)
                                .insert("isFullWidth"@, is_full_width->Ok_0)
                                .insert("allowScrolling"@, allow_scrolling->Ok_0),
                            "pageBlockEmbedded"@,
                        ),
                    )
                }
            },
            _ => Err(Fault::TypeMismatch(at)),
        }
    }

    fn encode(&self) -> (j: Json) {
        proof {
            reveal(<PageBlockEmbedded as Wire>::wire);
        }
        let mut members: Vec<Member> = Vec::new();
        put(&mut members, "url", self.url.encode());
        put(&mut members, "html", self.html.encode());
        put(&mut members, "posterPhoto", self.poster_photo.encode());
        put(&mut members, "width", self.width.encode());
        put(&mut members, "height", self.height.encode());
        put(&mut members, "caption", self.caption.encode());
        put(&mut members, "isFullWidth", self.is_full_width.encode());
        put(&mut members, "allowScrolling", self.allow_scrolling.encode());
        seal(members, "pageBlockEmbedded")
    }

    fn decode(j: &Json, at: &str) -> (r: Result<Self, DecodeError>) {
        proof {
            reveal(<PageBlockEmbedded as Wire>::wire);
            reveal(<PageBlockEmbedded as Wire>::parse);
        }
        let members = members_of(j, at)?;
        let url = read_field::<String>(members, "url")?;
        let html = read_field::<String>(members, "html")?;
        let poster_photo = read_optional::<Photo>(members, "posterPhoto")?;
        let width = read_field::<i32>(members, "width")?;
        let height = read_field::<i32>(members, "height")?;
        let caption = read_field::<PageBlockCaption>(members, "caption")?;
        let is_full_width = read_field::<bool>(members, "isFullWidth")?;
        let allow_scrolling = read_field::<bool>(members, "allowScrolling")?;
        Ok(PageBlockEmbedded {
            url,
            html,
            poster_photo,
            width,
            height,
            caption,
            is_full_width,
            allow_scrolling,
        })
    }

    proof fn round_trip(&self, at: Seq<char>) {
        reveal(<PageBlockEmbedded as Wire>::wire);
        reveal(<PageBlockEmbedded as Wire>::parse);
        reveal_strlit("@type");
        reveal_strlit("allowScrolling");
        reveal_strlit("caption");
        reveal_strlit("height");
        reveal_strlit("html");
        reveal_strlit("isFullWidth");
        reveal_strlit("posterPhoto");
        reveal_strlit("url");
        reveal_strlit("width");
        assert("@type"@.len() == 5 && "@type"@[0] == '@');
        assert("allowScrolling"@.len() == 14);
        assert("caption"@.len() == 7);
        assert("height"@.len() == 6);
        assert("html"@.len() == 4);
        assert("isFullWidth"@.len() == 11 && "isFullWidth"@[0] == 'i');
        assert("posterPhoto"@.len() == 11 && "posterPhoto"@[0] == 'p');
        assert("url"@.len() == 3);
        assert("width"@.len() == 5 && "width"@[0] == 'w');
        self.url.round_trip("url"@);
        self.html.round_trip("html"@);
        self.poster_photo.round_trip("posterPhoto"@);
        self.width.round_trip("width"@);
        self.height.round_trip("height"@);
        self.caption.round_trip("caption"@);
        self.is_full_width.round_trip("isFullWidth"@);
        self.allow_scrolling.round_trip("allowScrolling"@);
    }
}

impl Tagged for PageBlockEmbedded {
    open spec fn known(tag: Seq<char>) -> bool {
        tag == "pageBlockEmbedded"@
    }

    fn knows(tag: &str) -> (r: bool) {
        same_text(tag, "pageBlockEmbedded")
    }

    proof fn tag_known(&self) {
        reveal(<PageBlockEmbedded as Wire>::wire);
        assert(tag_of(self.wire()) == Some("pageBlockEmbedded"@));
        assert(Self::known("pageBlockEmbedded"@));
    }
}

/// An embedded post
#[derive(Debug, Clone, PartialEq)]
pub struct PageBlockEmbeddedPost {
    /// Web page URL
    pub url: String,
    /// Post author
    pub author: String,
    /// Post author photo; may be null
    pub author_photo: Option<Photo>,
    /// Point in time (Unix timestamp) when the post was created; 0 if unknown
    pub date: i32,
    /// Post content
    pub page_blocks: Vec<PageBlock>,
    /// Post caption
    pub caption: PageBlockCaption,
}

impl Wire for PageBlockEmbeddedPost {
    #[verifier::opaque]
    open spec fn wire(&self) -> Doc {
        tagged(
            Map::empty()
                .insert("url"@, self.url.wire())
                .insert("author"@, self.author.wire())
                .insert("authorPhoto"@, self.author_photo.wire())
                .insert("date"@, self.date.wire())
                .insert("pageBlocks"@, self.page_blocks.wire())
                .insert("caption"@, self.caption.wire()),
            "pageBlockEmbeddedPost"@,
        )
    }

    #[verifier::opaque]
    open spec fn parse(d: Doc, at: Seq<char>) -> Result<Doc, Fault> {
        match d {
            Doc::Object(m) => {
                let url = field::<String>(m, "url"@);
                let author = field::<String>(m, "author"@);
                let author_photo = optional_field::<Photo>(m, "authorPhoto"@);
                let date = field::<i32>(m, "date"@);
                let page_blocks = field::<Vec<PageBlock>>(m, "pageBlocks"@);
                let caption = field::<PageBlockCaption>(m, "caption"@);
                if url is Err {
                    url
                } else if author is Err {
                    author
                } else if author_photo is Err {
                    author_photo
                } else if date is Err {
                    date
                } else if page_blocks is Err {
                    page_blocks
                } else if caption is Err {
                    caption
                } else {
                    Ok(
                        tagged(
                            Map::empty()
                                .insert("url"@, url->Ok_0)
                                .insert("author"@, author->Ok_0)
                                .insert("authorPhoto"@, author_photo->Ok_0)
                                .insert("date"@, date->Ok_0)
                                .insert("pageBlocks"@, page_blocks->Ok_0)
                                .insert("caption"@, caption->Ok_0),
                            "pageBlockEmbeddedPost"@,
                        ),
                    )
                }
            },
            _ => Err(Fault::TypeMismatch(at)),
        }
    }

    fn encode(&self) -> (j: Json) {
        proof {
            reveal(<PageBlockEmbeddedPost as Wire>::wire);
        }
        let mut members: Vec<Member> = Vec::new();
        put(&mut members, "url", self.url.encode());
        put(&mut members, "author", self.author.encode());
        put(&mut members, "authorPhoto", self.author_photo.encode());
        put(&mut members, "date", self.date.encode());
        put(&mut members, "pageBlocks", self.page_blocks.encode());
        put(&mut members, "caption", self.caption.encode());
        seal(members, "pageBlockEmbeddedPost")
    }

    fn decode(j: &Json, at: &str) -> (r: Result<Self, DecodeError>) {
        proof {
            reveal(<PageBlockEmbeddedPost as Wire>::wire);
            reveal(<PageBlockEmbeddedPost as Wire>::parse);
        }
        let members = members_of(j, at)?;
        let url = read_field::<String>(members, "url")?;
        let author = read_field::<String>(members, "author")?;
        let author_photo = read_optional::<Photo>(members, "authorPhoto")?;
        let date = read_field::<i32>(members, "date")?;
        let page_blocks = read_field::<Vec<PageBlock>>(members, "pageBlocks")?;
        let caption = read_field::<PageBlockCaption>(members, "caption")?;
        Ok(PageBlockEmbeddedPost { url, author, author_photo, date, page_blocks, caption })
    }

    proof fn round_trip(&self, at: Seq<char>) {
        reveal(<PageBlockEmbeddedPost as Wire>::wire);
        reveal(<PageBlockEmbeddedPost as Wire>::parse);
        reveal_strlit("@type");
        reveal_strlit("author");
        reveal_strlit("authorPhoto");
        reveal_strlit("caption");
        reveal_strlit("date");
        reveal_strlit("pageBlocks");
        reveal_strlit("url");
        assert("@type"@.len() == 5);
        assert("author"@.len() == 6);
        assert("authorPhoto"@.len() == 11);
        assert("caption"@.len() == 7);
        assert("date"@.len() == 4);
        assert("pageBlocks"@.len() == 10);
        assert("url"@.len() == 3);
        self.url.round_trip("url"@);
        self.author.round_trip("author"@);
        self.author_photo.round_trip("authorPhoto"@);
        self.date.round_trip("date"@);
        self.page_blocks.round_trip("pageBlocks"@);
        self.caption.round_trip("caption"@);
    }
}

impl Tagged for PageBlockEmbeddedPost {
    open spec fn known(tag: Seq<char>) -> bool {
        tag == "pageBlockEmbeddedPost"@
    }

    fn knows(tag: &str) -> (r: bool) {
        same_text(tag, "pageBlockEmbeddedPost")
    }

    proof fn tag_known(&self) {
        reveal(<PageBlockEmbeddedPost as Wire>::wire);
        assert(tag_of(self.wire()) == Some("pageBlockEmbeddedPost"@));
        assert(Self::known("pageBlockEmbeddedPost"@));
    }
}

/// A collage
#[derive(Debug, Clone, PartialEq)]
pub struct PageBlockCollage {
    /// Collage item contents
    pub page_blocks: Vec<PageBlock>,
    /// Block caption
    pub caption: PageBlockCaption,
}

impl Wire for PageBlockCollage {
    #[verifier::opaque]
    open spec fn wire(&self) -> Doc {
        tagged(
            Map::empty()
                .insert("pageBlocks"@, self.page_blocks.wire())
                .insert("caption"@, self.caption.wire()),
            "pageBlockCollage"@,
        )
    }

    #[verifier::opaque]
    open spec fn parse(d: Doc, at: Seq<char>) -> Result<Doc, Fault> {
        match d {
            Doc::Object(m) => {
                let page_blocks = field::<Vec<PageBlock>>(m, "pageBlocks"@);
                let caption = field::<PageBlockCaption>(m, "caption"@);
                if page_blocks is Err {
                    page_blocks
                } else if caption is Err {
                    caption
                } else {
                    Ok(
                        tagged(
                            Map::empty()
                                .insert("pageBlocks"@, page_blocks->Ok_0)
                                .insert("caption"@, caption->Ok_0),
                            "pageBlockCollage"@,
                        ),
                    )
                }
            },
            _ => Err(Fault::TypeMismatch(at)),
        }
    }

    fn encode(&self) -> (j: Json) {
        proof {
            reveal(<PageBlockCollage as Wire>::wire);
        }
        let mut members: Vec<Member> = Vec::new();
        put(&mut members, "pageBlocks", self.page_blocks.encode());
        put(&mut members, "caption", self.caption.encode());
        seal(members, "pageBlockCollage")
    }

    fn decode(j: &Json, at: &str) -> (r: Result<Self, DecodeError>) {
        proof {
            reveal(<PageBlockCollage as Wire>::wire);
            reveal(<PageBlockCollage as Wire>::parse);
        }
        let members = members_of(j, at)?;
        let page_blocks = read_field::<Vec<PageBlock>>(members, "pageBlocks")?;
        let caption = read_field::<PageBlockCaption>(members, "caption")?;
        Ok(PageBlockCollage { page_blocks, caption })
    }

    proof fn round_trip(&self, at: Seq<char>) {
        reveal(<PageBlockCollage as Wire>::wire);
        reveal(<PageBlockCollage as Wire>::parse);
        reveal_strlit("@type");
        reveal_strlit("caption");
        reveal_strlit("pageBlocks");
        assert("@type"@.len() == 5);
        assert("caption"@.len() == 7);
        assert("pageBlocks"@.len() == 10);
        self.page_blocks.round_trip("pageBlocks"@);
        self.caption.round_trip("caption"@);
    }
}

impl Tagged for PageBlockCollage {
    open spec fn known(tag: Seq<char>) -> bool {
        tag == "pageBlockCollage"@
    }

    fn knows(tag: &str) -> (r: bool) {
        same_text(tag, "pageBlockCollage")
    }

    proof fn tag_known(&self) {
        reveal(<PageBlockCollage as Wire>::wire);
        assert(tag_of(self.wire()) == Some("pageBlockCollage"@));
        assert(Self::known("pageBlockCollage"@));
    }
}

/// A slideshow
#[derive(Debug, Clone, PartialEq)]
pub struct PageBlockSlideshow {
    /// Slideshow item contents
    pub page_blocks: Vec<PageBlock>,
    /// Block caption
    pub caption: PageBlockCaption,
}

impl Wire for PageBlockSlideshow {
    #[verifier::opaque]
    open spec fn wire(&self) -> Doc {
        tagged(
            Map::empty()
                .insert("pageBlocks"@, self.page_blocks.wire())
                .insert("caption"@, self.caption.wire()),
            "pageBlockSlideshow"@,
        )
    }

    #[verifier::opaque]
    open spec fn parse(d: Doc, at: Seq<char>) -> Result<Doc, Fault> {
        match d {
            Doc::Object(m) => {
                let page_blocks = field::<Vec<PageBlock>>(m, "pageBlocks"@);
                let caption = field::<PageBlockCaption>(m, "caption"@);
                if page_blocks is Err {
                    page_blocks
                } else if caption is Err {
                    caption
                } else {
                    Ok(
                        tagged(
                            Map::empty()
                                .insert("pageBlocks"@, page_blocks->Ok_0)
                                .insert("caption"@, caption->Ok_0),
                            "pageBlockSlideshow"@,
                        ),
                    )
                }
            },
            _ => Err(Fault::TypeMismatch(at)),
        }
    }

    fn encode(&self) -> (j: Json) {
        proof {
            reveal(<PageBlockSlideshow as Wire>::wire);
        }
        let mut members: Vec<Member> = Vec::new();
        put(&mut members, "pageBlocks", self.page_blocks.encode());
        put(&mut members, "caption", self.caption.encode());
        seal(members, "pageBlockSlideshow")
    }

    fn decode(j: &Json, at: &str) -> (r: Result<Self, DecodeError>) {
        proof {
            reveal(<PageBlockSlideshow as Wire>::wire);
            reveal(<PageBlockSlideshow as Wire>::parse);
        }
        let members = members_of(j, at)?;
        let page_blocks = read_field::<Vec<PageBlock>>(members, "pageBlocks")?;
        let caption = read_field::<PageBlockCaption>(members, "caption")?;
        Ok(PageBlockSlideshow { page_blocks, caption })
    }

    proof fn round_trip(&self, at: Seq<char>) {
        reveal(<PageBlockSlideshow as Wire>::wire);
        reveal(<PageBlockSlideshow as Wire>::parse);
        reveal_strlit("@type");
        reveal_strlit("caption");
        reveal_strlit("pageBlocks");
        assert("@type"@.len() == 5);
        assert("caption"@.len() == 7);
        assert("pageBlocks"@.len() == 10);
        self.page_blocks.round_trip("pageBlocks"@);
        self.caption.round_trip("caption"@);
    }
}

impl Tagged for PageBlockSlideshow {
    open spec fn known(tag: Seq<char>) -> bool {
        tag == "pageBlockSlideshow"@
    }

    fn knows(tag: &str) -> (r: bool) {
        same_text(tag, "pageBlockSlideshow")
    }

    proof fn tag_known(&self) {
        reveal(<PageBlockSlideshow as Wire>::wire);
        assert(tag_of(self.wire()) == Some("pageBlockSlideshow"@));
        assert(Self::known("pageBlockSlideshow"@));
    }
}

/// A link to a chat
#[derive(Debug, Clone, PartialEq)]
pub struct PageBlockChatLink {
    /// Chat title
    pub title: String,
    /// Chat photo; may be null
    pub photo: Option<ChatPhoto>,
    /// Chat username, by which all other information about the chat should be resolved
    pub username: String,
}

impl Wire for PageBlockChatLink {
    #[verifier::opaque]
    open spec fn wire(&self) -> Doc {
        tagged(
            Map::empty()
                .insert("title"@, self.title.wire())
                .insert("photo"@, self.photo.wire())
                .insert("username"@, self.username.wire()),
            "pageBlockChatLink"@,
        )
    }

    #[verifier::opaque]
    open spec fn parse(d: Doc, at: Seq<char>) -> Result<Doc, Fault> {
        match d {
            Doc::Object(m) => {
                let title = field::<String>(m, "title"@);
                let photo = optional_field::<ChatPhoto>(m, "photo"@);
                let username = field::<String>(m, "username"@);
                if title is Err {
                    title
                } else if photo is Err {
                    photo
                } else if username is Err {
                    username
                } else {
                    Ok(
                        tagged(
                            Map::empty()
                                .insert("title"@, title->Ok_0)
                                .insert("photo"@, photo->Ok_0)
                                .insert("username"@, username->Ok_0),
                            "pageBlockChatLink"@,
                        ),
                    )
                }
            },
            _ => Err(Fault::TypeMismatch(at)),
        }
    }

    fn encode(&self) -> (j: Json) {
        proof {
            reveal(<PageBlockChatLink as Wire>::wire);
        }
        let mut members: Vec<Member> = Vec::new();
        put(&mut members, "title", self.title.encode());
        put(&mut members, "photo", self.photo.encode());
        put(&mut members, "username", self.username.encode());
        seal(members, "pageBlockChatLink")
    }

    fn decode(j: &Json, at: &str) -> (r: Result<Self, DecodeError>) {
        proof {
            reveal(<PageBlockChatLink as Wire>::wire);
            reveal(<PageBlockChatLink as Wire>::parse);
        }
        let members = members_of(j, at)?;
        let title = read_field::<String>(members, "title")?;
        let photo = read_optional::<ChatPhoto>(members, "photo")?;
        let username = read_field::<String>(members, "username")?;
        Ok(PageBlockChatLink { title, photo, username })
    }

    proof fn round_trip(&self, at: Seq<char>) {
        reveal(<PageBlockChatLink as Wire>::wire);
        reveal(<PageBlockChatLink as Wire>::parse);
        reveal_strlit("@type");
        reveal_strlit("photo");
        reveal_strlit("title");
        reveal_strlit("username");
        assert("@type"@.len() == 5 && "@type"@[0] == '@');
        assert("photo"@.len() == 5 && "photo"@[0] == 'p');
        assert("title"@.len() == 5 && "title"@[0] == 't');
        assert("username"@.len() == 8);
        self.title.round_trip("title"@);
        self.photo.round_trip("photo"@);
        self.username.round_trip("username"@);
    }
}

impl Tagged for PageBlockChatLink {
    open spec fn known(tag: Seq<char>) -> bool {
        tag == "pageBlockChatLink"@
    }

    fn knows(tag: &str) -> (r: bool) {
        same_text(tag, "pageBlockChatLink")
    }

    proof fn tag_known(&self) {
        reveal(<PageBlockChatLink as Wire>::wire);
        assert(tag_of(self.wire()) == Some("pageBlockChatLink"@));
        assert(Self::known("pageBlockChatLink"@));
    }
}

/// A table
#[derive(Debug, Clone, PartialEq)]
pub struct PageBlockTable {
    /// Table caption
    pub caption: RichText,
    /// Table cells
    pub cells: Vec<Vec<PageBlockTableCell>>,
    /// True, if the table is bordered
    pub is_bordered: bool,
    /// True, if the table is striped
    pub is_striped: bool,
}

impl Wire for PageBlockTable {
    #[verifier::opaque]
    open spec fn wire(&self) -> Doc {
        tagged(
            Map::empty()
                .insert("caption"@, self.caption.wire())
                .insert("cells"@, self.cells.wire())
                .insert("isBordered"@, self.is_bordered.wire())
                .insert("isStriped"@, self.is_striped.wire()),
            "pageBlockTable"@,
        )
    }

    #[verifier::opaque]
    open spec fn parse(d: Doc, at: Seq<char>) -> Result<Doc, Fault> {
        match d {
            Doc::Object(m) => {
                let caption = field::<RichText>(m, "caption"@);
                let cells = field::<Vec<Vec<PageBlockTableCell>>>(m, "cells"@);
                let is_bordered = field::<bool>(m, "isBordered"@);
                let is_striped = field::<bool>(m, "isStriped"@);
                if caption is Err {
                    caption
                } else if cells is Err {
                    cells
                } else if is_bordered is Err {
                    is_bordered
                } else if is_striped is Err {
                    is_striped
                } else {
                    Ok(
                        tagged(
                            Map::empty()
                                .insert("caption"@, caption->Ok_0)
                                .insert("cells"@, cells->Ok_0)
                                .insert("isBordered"@, is_bordered->Ok_0)
                                .insert("isStriped"@, is_striped->Ok_0),
                            "pageBlockTable"@,
                        ),
                    )
                }
            },
            _ => Err(Fault::TypeMismatch(at)),
        }
    }

    fn encode(&self) -> (j: Json) {
        proof {
            reveal(<PageBlockTable as Wire>::wire);
        }
        let mut members: Vec<Member> = Vec::new();
        put(&mut members, "caption", self.caption.encode());
        put(&mut members, "cells", self.cells.encode());
        put(&mut members, "isBordered", self.is_bordered.encode());
        put(&mut members, "isStriped", self.is_striped.encode());
        seal(members, "pageBlockTable")
    }

    fn decode(j: &Json, at: &str) -> (r: Result<Self, DecodeError>) {
        proof {
            reveal(<PageBlockTable as Wire>::wire);
            reveal(<PageBlockTable as Wire>::parse);
        }
        let members = members_of(j, at)?;
        let caption = read_field::<RichText>(members, "caption")?;
        let cells = read_field::<Vec<Vec<PageBlockTableCell>>>(members, "cells")?;
        let is_bordered = read_field::<bool>(members, "isBordered")?;
        let is_striped = read_field::<bool>(members, "isStriped")?;
        Ok(PageBlockTable { caption, cells, is_bordered, is_striped })
    }

    proof fn round_trip(&self, at: Seq<char>) {
        reveal(<PageBlockTable as Wire>::wire);
        reveal(<PageBlockTable as Wire>::parse);
        reveal_strlit("@type");
        reveal_strlit("caption");
        reveal_strlit("cells");
        reveal_strlit("isBordered");
        reveal_strlit("isStriped");
        assert("@type"@.len() == 5 && "@type"@[0] == '@');
        assert("caption"@.len() == 7);
        assert("cells"@.len() == 5 && "cells"@[0] == 'c');
        assert("isBordered"@.len() == 10);
        assert("isStriped"@.len() == 9);
        self.caption.round_trip("caption"@);
        self.cells.round_trip("cells"@);
        self.is_bordered.round_trip("isBordered"@);
        self.is_striped.round_trip("isStriped"@);
    }
}

impl Tagged for PageBlockTable {
    open spec fn known(tag: Seq<char>) -> bool {
        tag == "pageBlockTable"@
    }

    fn knows(tag: &str) -> (r: bool) {
        same_text(tag, "pageBlockTable")
    }

    proof fn tag_known(&self) {
        reveal(<PageBlockTable as Wire>::wire);
        assert(tag_of(self.wire()) == Some("pageBlockTable"@));
        assert(Self::known("pageBlockTable"@));
    }
}

/// A collapsible block
#[derive(Debug, Clone, PartialEq)]
pub struct PageBlockDetails {
    /// Always visible heading for the block
    pub header: RichText,
    /// Block contents
    pub page_blocks: Vec<PageBlock>,
    /// True, if the block is open by default
    pub is_open: bool,
}

impl Wire for PageBlockDetails {
    #[verifier::opaque]
    open spec fn wire(&self) -> Doc {
        tagged(
            Map::empty()
                .insert("header"@, self.header.wire())
                .insert("pageBlocks"@, self.page_blocks.wire())
                .insert("isOpen"@, self.is_open.wire()),
            "pageBlockDetails"@,
        )
    }

    #[verifier::opaque]
    open spec fn parse(d: Doc, at: Seq<char>) -> Result<Doc, Fault> {
        match d {
            Doc::Object(m) => {
                let header = field::<RichText>(m, "header"@);
                let page_blocks = field::<Vec<PageBlock>>(m, "pageBlocks"@);
                let is_open = field::<bool>(m, "isOpen"@);
                if header is Err {
                    header
                } else if page_blocks is Err {
                    page_blocks
                } else if is_open is Err {
                    is_open
                } else {
                    Ok(
                        tagged(
                            Map::empty()
                                .insert("header"@, header->Ok_0)
                                .insert("pageBlocks"@, page_blocks->Ok_0)
                                .insert("isOpen"@, is_open->Ok_0),
                            "pageBlockDetails"@,
                        ),
                    )
                }
            },
            _ => Err(Fault::TypeMismatch(at)),
        }
    }

    fn encode(&self) -> (j: Json) {
        proof {
            reveal(<PageBlockDetails as Wire>::wire);
        }
        let mut members: Vec<Member> = Vec::new();
        put(&mut members, "header", self.header.encode());
        put(&mut members, "pageBlocks", self.page_blocks.encode());
        put(&mut members, "isOpen", self.is_open.encode());
        seal(members, "pageBlockDetails")
    }

    fn decode(j: &Json, at: &str) -> (r: Result<Self, DecodeError>) {
        proof {
            reveal(<PageBlockDetails as Wire>::wire);
            reveal(<PageBlockDetails as Wire>::parse);
        }
        let members = members_of(j, at)?;
        let header = read_field::<RichText>(members, "header")?;
        let page_blocks = read_field::<Vec<PageBlock>>(members, "pageBlocks")?;
        let is_open = read_field::<bool>(members, "isOpen")?;
        Ok(PageBlockDetails { header, page_blocks, is_open })
    }

    proof fn round_trip(&self, at: Seq<char>) {
        reveal(<PageBlockDetails as Wire>::wire);
        reveal(<PageBlockDetails as Wire>::parse);
        reveal_strlit("@type");
        reveal_strlit("header");
        reveal_strlit("isOpen");
        reveal_strlit("pageBlocks");
        assert("@type"@.len() == 5);
        assert("header"@.len() == 6 && "header"@[0] == 'h');
        assert("isOpen"@.len() == 6 && "isOpen"@[0] == 'i');
        assert("pageBlocks"@.len() == 10);
        self.header.round_trip("header"@);
        self.page_blocks.round_trip("pageBlocks"@);
        self.is_open.round_trip("isOpen"@);
    }
}

impl Tagged for PageBlockDetails {
    open spec fn known(tag: Seq<char>) -> bool {
        tag == "pageBlockDetails"@
    }

    fn knows(tag: &str) -> (r: bool) {
        same_text(tag, "pageBlockDetails")
    }

    proof fn tag_known(&self) {
        reveal(<PageBlockDetails as Wire>::wire);
        assert(tag_of(self.wire()) == Some("pageBlockDetails"@));
        assert(Self::known("pageBlockDetails"@));
    }
}

/// Related articles
#[derive(Debug, Clone, PartialEq)]
pub struct PageBlockRelatedArticles {
    /// Block header
    pub header: RichText,
    /// List of related articles
    pub articles: Vec<PageBlockRelatedArticle>,
}

impl Wire for PageBlockRelatedArticles {
    #[verifier::opaque]
    open spec fn wire(&self) -> Doc {
        tagged(
            Map::empty()
                .insert("header"@, self.header.wire())
                .insert("articles"@, self.articles.wire()),
            "pageBlockRelatedArticles"@,
        )
    }

    #[verifier::opaque]
    open spec fn parse(d: Doc, at: Seq<char>) -> Result<Doc, Fault> {
        match d {
            Doc::Object(m) => {
                let header = field::<RichText>(m, "header"@);
                let articles = field::<Vec<PageBlockRelatedArticle>>(m, "articles"@);
                if header is Err {
                    header
                } else if articles is Err {
                    articles
                } else {
                    Ok(
                        tagged(
                            Map::empty()
                                .insert("header"@, header->Ok_0)
                                .insert("articles"@, articles->Ok_0),
                            "pageBlockRelatedArticles"@,
                        ),
                    )
                }
            },
            _ => Err(Fault::TypeMismatch(at)),
        }
    }

    fn encode(&self) -> (j: Json) {
        proof {
            reveal(<PageBlockRelatedArticles as Wire>::wire);
        }
        let mut members: Vec<Member> = Vec::new();
        put(&mut members, "header", self.header.encode());
        put(&mut members, "articles", self.articles.encode());
        seal(members, "pageBlockRelatedArticles")
    }

    fn decode(j: &Json, at: &str) -> (r: Result<Self, DecodeError>) {
        proof {
            reveal(<PageBlockRelatedArticles as Wire>::wire);
            reveal(<PageBlockRelatedArticles as Wire>::parse);
        }
        let members = members_of(j, at)?;
        let header = read_field::<RichText>(members, "header")?;
        let articles = read_field::<Vec<PageBlockRelatedArticle>>(members, "articles")?;
        Ok(PageBlockRelatedArticles { header, articles })
    }

    proof fn round_trip(&self, at: Seq<char>) {
        reveal(<PageBlockRelatedArticles as Wire>::wire);
        reveal(<PageBlockRelatedArticles as Wire>::parse);
        reveal_strlit("@type");
        reveal_strlit("articles");
        reveal_strlit("header");
        assert("@type"@.len() == 5);
        assert("articles"@.len() == 8);
        assert("header"@.len() == 6);
        self.header.round_trip("header"@);
        self.articles.round_trip("articles"@);
    }
}

impl Tagged for PageBlockRelatedArticles {
    open spec fn known(tag: Seq<char>) -> bool {
        tag == "pageBlockRelatedArticles"@
    }

    fn knows(tag: &str) -> (r: bool) {
        same_text(tag, "pageBlockRelatedArticles")
    }

    proof fn tag_known(&self) {
        reveal(<PageBlockRelatedArticles as Wire>::wire);
        assert(tag_of(self.wire()) == Some("pageBlockRelatedArticles"@));
        assert(Self::known("pageBlockRelatedArticles"@));
    }
}

/// A map
#[derive(Debug, Clone, PartialEq)]
pub struct PageBlockMap {
    /// Location of the map center
    pub location: Location,
    /// Map zoom level
    pub zoom: i32,
    /// Map width
    pub width: i32,
    /// Map height
    pub height: i32,
    /// Block caption
    pub caption: PageBlockCaption,
}

impl Wire for PageBlockMap {
    #[verifier::opaque]
    open spec fn wire(&self) -> Doc {
        tagged(
            Map::empty()
                .insert("location"@, self.location.wire())
                .insert("zoom"@, self.zoom.wire())
                .insert("width"@, self.width.wire())
                .insert("height"@, self.height.wire())
                .insert("caption"@, self.caption.wire()),
            "pageBlockMap"@,
        )
    }

    #[verifier::opaque]
    open spec fn parse(d: Doc, at: Seq<char>) -> Result<Doc, Fault> {
        match d {
            Doc::Object(m) => {
                let location = field::<Location>(m, "location"@);
                let zoom = field::<i32>(m, "zoom"@);
                let width = field::<i32>(m, "width"@);
                let height = field::<i32>(m, "height"@);
                let caption = field::<PageBlockCaption>(m, "caption"@);
                if location is Err {
                    location
                } else if zoom is Err {
                    zoom
                } else if width is Err {
                    width
                } else if height is Err {
                    height
                } else if caption is Err {
                    caption
                } else {
                    Ok(
                        tagged(
                            Map::empty()
                                .insert("location"@, location->Ok_0)
                                .insert("zoom"@, zoom->Ok_0)
                                .insert("width"@, width->Ok_0)
                                .insert("height"@, height->Ok_0)
                                .insert("caption"@, caption->Ok_0),
                            "pageBlockMap"@,
                        ),
                    )
                }
            },
            _ => Err(Fault::TypeMismatch(at)),
        }
    }

    fn encode(&self) -> (j: Json) {
        proof {
            reveal(<PageBlockMap as Wire>::wire);
        }
        let mut members: Vec<Member> = Vec::new();
        put(&mut members, "location", self.location.encode());
        put(&mut members, "zoom", self.zoom.encode());
        put(&mut members, "width", self.width.encode());
        put(&mut members, "height", self.height.encode());
        put(&mut members, "caption", self.caption.encode());
        seal(members, "pageBlockMap")
    }

    fn decode(j: &Json, at: &str) -> (r: Result<Self, DecodeError>) {
        proof {
            reveal(<PageBlockMap as Wire>::wire);
            reveal(<PageBlockMap as Wire>::parse);
        }
        let members = members_of(j, at)?;
        let location = read_field::<Location>(members, "location")?;
        let zoom = read_field::<i32>(members, "zoom")?;
        let width = read_field::<i32>(members, "width")?;
        let height = read_field::<i32>(members, "height")?;
        let caption = read_field::<PageBlockCaption>(members, "caption")?;
        Ok(PageBlockMap { location, zoom, width, height, caption })
    }

    proof fn round_trip(&self, at: Seq<char>) {
        reveal(<PageBlockMap as Wire>::wire);
        reveal(<PageBlockMap as Wire>::parse);
        reveal_strlit("@type");
        reveal_strlit("caption");
        reveal_strlit("height");
        reveal_strlit("location");
        reveal_strlit("width");
        reveal_strlit("zoom");
        assert("@type"@.len() == 5 && "@type"@[0] == '@');
        assert("caption"@.len() == 7);
        assert("height"@.len() == 6);
        assert("location"@.len() == 8);
        assert("width"@.len() == 5 && "width"@[0] == 'w');
        assert("zoom"@.len() == 4);
        self.location.round_trip("location"@);
        self.zoom.round_trip("zoom"@);
        self.width.round_trip("width"@);
        self.height.round_trip("height"@);
        self.caption.round_trip("caption"@);
    }
}

impl Tagged for PageBlockMap {
    open spec fn known(tag: Seq<char>) -> bool {
        tag == "pageBlockMap"@
    }

    fn knows(tag: &str) -> (r: bool) {
        same_text(tag, "pageBlockMap")
    }

    proof fn tag_known(&self) {
        reveal(<PageBlockMap as Wire>::wire);
        assert(tag_of(self.wire()) == Some("pageBlockMap"@));
        assert(Self::known("pageBlockMap"@));
    }
}

/// Describes a block of an instant view web page
#[derive(Debug, PartialEq)]
pub enum PageBlock {
    PageBlockTitle(PageBlockTitle),
    PageBlockSubtitle(PageBlockSubtitle),
    PageBlockAuthorDate(PageBlockAuthorDate),
    PageBlockHeader(PageBlockHeader),
    PageBlockSubheader(PageBlockSubheader),
    PageBlockKicker(PageBlockKicker),
    PageBlockParagraph(PageBlockParagraph),
    PageBlockPreformatted(PageBlockPreformatted),
    PageBlockFooter(PageBlockFooter),
    PageBlockDivider(PageBlockDivider),
    PageBlockAnchor(PageBlockAnchor),
    PageBlockList(PageBlockList),
    PageBlockBlockQuote(PageBlockBlockQuote),
    PageBlockPullQuote(PageBlockPullQuote),
    PageBlockAnimation(PageBlockAnimation),
    PageBlockAudio(PageBlockAudio),
    PageBlockPhoto(PageBlockPhoto),
    PageBlockVideo(PageBlockVideo),
    PageBlockVoiceNote(PageBlockVoiceNote),
    PageBlockCover(PageBlockCover),
    PageBlockEmbedded(PageBlockEmbedded),
    PageBlockEmbeddedPost(PageBlockEmbeddedPost),
    PageBlockCollage(PageBlockCollage),
    PageBlockSlideshow(PageBlockSlideshow),
    PageBlockChatLink(PageBlockChatLink),
    PageBlockTable(PageBlockTable),
    PageBlockDetails(PageBlockDetails),
    PageBlockRelatedArticles(PageBlockRelatedArticles),
    PageBlockMap(PageBlockMap),
}

/// The canonical document of a `PageBlock`.
pub open spec fn page_block_doc(x: PageBlock) -> Doc
    decreases x,
{
    match x {
        PageBlock::PageBlockTitle(p) => p.wire(),
        PageBlock::PageBlockSubtitle(p) => p.wire(),
        PageBlock::PageBlockAuthorDate(p) => p.wire(),
        PageBlock::PageBlockHeader(p) => p.wire(),
        PageBlock::PageBlockSubheader(p) => p.wire(),
        PageBlock::PageBlockKicker(p) => p.wire(),
        PageBlock::PageBlockParagraph(p) => p.wire(),
        PageBlock::PageBlockPreformatted(p) => p.wire(),
        PageBlock::PageBlockFooter(p) => p.wire(),
        PageBlock::PageBlockDivider(p) => p.wire(),
        PageBlock::PageBlockAnchor(p) => p.wire(),
        PageBlock::PageBlockList(p) => {
            tagged(
                Map::empty()
                    .insert("items"@, Doc::List(page_block_list_item_docs(p.items@))),
                "pageBlockList"@,
            )
        },
        PageBlock::PageBlockBlockQuote(p) => p.wire(),
        PageBlock::PageBlockPullQuote(p) => p.wire(),
        PageBlock::PageBlockAnimation(p) => p.wire(),
        PageBlock::PageBlockAudio(p) => p.wire(),
        PageBlock::PageBlockPhoto(p) => p.wire(),
        PageBlock::PageBlockVideo(p) => p.wire(),
        PageBlock::PageBlockVoiceNote(p) => p.wire(),
        PageBlock::PageBlockCover(p) => {
            tagged(
                Map::empty()
                    .insert("cover"@, page_block_doc(*p.cover)),
                "pageBlockCover"@,
            )
        },
        PageBlock::PageBlockEmbedded(p) => p.wire(),
        PageBlock::PageBlockEmbeddedPost(p) => {
            tagged(
                Map::empty()
                    .insert("url"@, p.url.wire())
                    .insert("author"@, p.author.wire())
                    .insert("authorPhoto"@, p.author_photo.wire())
                    .insert("date"@, p.date.wire())
                    .insert("pageBlocks"@, Doc::List(page_block_docs(p.page_blocks@)))
                    .insert("caption"@, p.caption.wire()),
                "pageBlockEmbeddedPost"@,
            )
        },
        PageBlock::PageBlockCollage(p) => {
            tagged(
                Map::empty()
                    .insert("pageBlocks"@, Doc::List(page_block_docs(p.page_blocks@)))
                    .insert("caption"@, p.caption.wire()),
                "pageBlockCollage"@,
            )
        },
        PageBlock::PageBlockSlideshow(p) => {
            tagged(
                Map::empty()
                    .insert("pageBlocks"@, Doc::List(page_block_docs(p.page_blocks@)))
                    .insert("caption"@, p.caption.wire()),
                "pageBlockSlideshow"@,
            )
        },
        PageBlock::PageBlockChatLink(p) => p.wire(),
        PageBlock::PageBlockTable(p) => p.wire(),
        PageBlock::PageBlockDetails(p) => {
            tagged(
                Map::empty()
                    .insert("header"@, p.header.wire())
                    .insert("pageBlocks"@, Doc::List(page_block_docs(p.page_blocks@)))
                    .insert("isOpen"@, p.is_open.wire()),
                "pageBlockDetails"@,
            )
        },
        PageBlock::PageBlockRelatedArticles(p) => p.wire(),
        PageBlock::PageBlockMap(p) => p.wire(),
    }
}

/// The canonical documents of a list of `PageBlock`.
pub open spec fn page_block_docs(items: Seq<PageBlock>) -> Seq<Doc>
    decreases items,
{
    Seq::new(
        items.len(),
        |i: int|
            if 0 <= i < items.len() {
                page_block_doc(items[i])
            } else {
                Doc::Null
            },
    )
}

/// The canonical document of a `PageBlockListItem`.
pub open spec fn page_block_list_item_doc(x: PageBlockListItem) -> Doc
    decreases x,
{
    tagged(
        Map::empty()
            .insert("label"@, x.label.wire())
            .insert("pageBlocks"@, Doc::List(page_block_docs(x.page_blocks@))),
        "pageBlockListItem"@,
    )
}

/// The canonical documents of a list of `PageBlockListItem`.
pub open spec fn page_block_list_item_docs(items: Seq<PageBlockListItem>) -> Seq<Doc>
    decreases items,
{
    Seq::new(
        items.len(),
        |i: int|
            if 0 <= i < items.len() {
                page_block_list_item_doc(items[i])
            } else {
                Doc::Null
            },
    )
}

/// What decoding a `PageBlock` from the document `d` yields.
pub open spec fn page_block_parse(d: Doc, at: Seq<char>) -> Result<Doc, Fault>
    decreases d,
{
    match d {
        Doc::Object(m) => match tag_of(d) {
            Some(t) => if t == "pageBlockTitle"@ {
                PageBlockTitle::parse(d, at)
            } else if t == "pageBlockSubtitle"@ {
                PageBlockSubtitle::parse(d, at)
            } else if t == "pageBlockAuthorDate"@ {
                PageBlockAuthorDate::parse(d, at)
            } else if t == "pageBlockHeader"@ {
                PageBlockHeader::parse(d, at)
            } else if t == "pageBlockSubheader"@ {
                PageBlockSubheader::parse(d, at)
            } else if t == "pageBlockKicker"@ {
                PageBlockKicker::parse(d, at)
            } else if t == "pageBlockParagraph"@ {
                PageBlockParagraph::parse(d, at)
            } else if t == "pageBlockPreformatted"@ {
                PageBlockPreformatted::parse(d, at)
            } else if t == "pageBlockFooter"@ {
                PageBlockFooter::parse(d, at)
            } else if t == "pageBlockDivider"@ {
                PageBlockDivider::parse(d, at)
            } else if t == "pageBlockAnchor"@ {
                PageBlockAnchor::parse(d, at)
            } else if t == "pageBlockList"@ {
                let items = if m.contains_key("items"@) {
                    match m["items"@] {
                        Doc::List(items) => match page_block_list_item_list_parse(items, "items"@) {
                            Ok(docs) => Ok(Doc::List(docs)),
                            Err(e) => Err(e),
                        },
                        _ => Err(Fault::TypeMismatch("items"@)),
                    }
                } else {
                    Err(Fault::MissingField("items"@))
                };
                if items is Err {
                    items
                } else {
                    Ok(
                        tagged(
                            Map::empty()
                                .insert("items"@, items->Ok_0),
                            "pageBlockList"@,
                        ),
                    )
                }
            } else if t == "pageBlockBlockQuote"@ {
                PageBlockBlockQuote::parse(d, at)
            } else if t == "pageBlockPullQuote"@ {
                PageBlockPullQuote::parse(d, at)
            } else if t == "pageBlockAnimation"@ {
                PageBlockAnimation::parse(d, at)
            } else if t == "pageBlockAudio"@ {
                PageBlockAudio::parse(d, at)
            } else if t == "pageBlockPhoto"@ {
                PageBlockPhoto::parse(d, at)
            } else if t == "pageBlockVideo"@ {
                PageBlockVideo::parse(d, at)
            } else if t == "pageBlockVoiceNote"@ {
                PageBlockVoiceNote::parse(d, at)
            } else if t == "pageBlockCover"@ {
                let cover = if m.contains_key("cover"@) {
                    page_block_parse(m["cover"@], "cover"@)
                } else {
                    Err(Fault::MissingField("cover"@))
                };
                if cover is Err {
                    cover
                } else {
                    Ok(
                        tagged(
                            Map::empty()
                                .insert("cover"@, cover->Ok_0),
                            "pageBlockCover"@,
                        ),
                    )
                }
            } else if t == "pageBlockEmbedded"@ {
                PageBlockEmbedded::parse(d, at)
            } else if t == "pageBlockEmbeddedPost"@ {
                let url = field::<String>(m, "url"@);
                let author = field::<String>(m, "author"@);
                let author_photo = optional_field::<Photo>(m, "authorPhoto"@);
                let date = field::<i32>(m, "date"@);
                let page_blocks = if m.contains_key("pageBlocks"@) {
                    match m["pageBlocks"@] {
                        Doc::List(items) => match page_block_list_parse(items, "pageBlocks"@) {
                            Ok(docs) => Ok(Doc::List(docs)),
                            Err(e) => Err(e),
                        },
                        _ => Err(Fault::TypeMismatch("pageBlocks"@)),
                    }
                } else {
                    Err(Fault::MissingField("pageBlocks"@))
                };
                let caption = field::<PageBlockCaption>(m, "caption"@);
                if url is Err {
                    url
                } else if author is Err {
                    author
                } else if author_photo is Err {
                    author_photo
                } else if date is Err {
                    date
                } else if page_blocks is Err {
                    page_blocks
                } else if caption is Err {
                    caption
                } else {
                    Ok(
                        tagged(
                            Map::empty()
                                .insert("url"@, url->Ok_0)
                                .insert("author"@, author->Ok_0)
                                .insert("authorPhoto"@, author_photo->Ok_0)
                                .insert("date"@, date->Ok_0)
                                .insert("pageBlocks"@, page_blocks->Ok_0)
                                .insert("caption"@, caption->Ok_0),
                            "pageBlockEmbeddedPost"@,
                        ),
                    )
                }
            } else if t == "pageBlockCollage"@ {
                let page_blocks = if m.contains_key("pageBlocks"@) {
                    match m["pageBlocks"@] {
                        Doc::List(items) => match page_block_list_parse(items, "pageBlocks"@) {
                            Ok(docs) => Ok(Doc::List(docs)),
                            Err(e) => Err(e),
                        },
                        _ => Err(Fault::TypeMismatch("pageBlocks"@)),
                    }
                } else {
                    Err(Fault::MissingField("pageBlocks"@))
                };
                let caption = field::<PageBlockCaption>(m, "caption"@);
                if page_blocks is Err {
                    page_blocks
                } else if caption is Err {
                    caption
                } else {
                    Ok(
                        tagged(
                            Map::empty()
                                .insert("pageBlocks"@, page_blocks->Ok_0)
                                .insert("caption"@, caption->Ok_0),
                            "pageBlockCollage"@,
                        ),
                    )
                }
            } else if t == "pageBlockSlideshow"@ {
                let page_blocks = if m.contains_key("pageBlocks"@) {
                    match m["pageBlocks"@] {
                        Doc::List(items) => match page_block_list_parse(items, "pageBlocks"@) {
                            Ok(docs) => Ok(Doc::List(docs)),
                            Err(e) => Err(e),
                        },
                        _ => Err(Fault::TypeMismatch("pageBlocks"@)),
                    }
                } else {
                    Err(Fault::MissingField("pageBlocks"@))
                };
                let caption = field::<PageBlockCaption>(m, "caption"@);
                if page_blocks is Err {
                    page_blocks
                } else if caption is Err {
                    caption
                } else {
                    Ok(
                        tagged(
                            Map::empty()
                                .insert("pageBlocks"@, page_blocks->Ok_0)
                                .insert("caption"@, caption->Ok_0),
                            "pageBlockSlideshow"@,
                        ),
                    )
                }
            } else if t == "pageBlockChatLink"@ {
                PageBlockChatLink::parse(d, at)
            } else if t == "pageBlockTable"@ {
                PageBlockTable::parse(d, at)
            } else if t == "pageBlockDetails"@ {
                let header = field::<RichText>(m, "header"@);
                let page_blocks = if m.contains_key("pageBlocks"@) {
                    match m["pageBlocks"@] {
                        Doc::List(items) => match page_block_list_parse(items, "pageBlocks"@) {
                            Ok(docs) => Ok(Doc::List(docs)),
                            Err(e) => Err(e),
                        },
                        _ => Err(Fault::TypeMismatch("pageBlocks"@)),
                    }
                } else {
                    Err(Fault::MissingField("pageBlocks"@))
                };
                let is_open = field::<bool>(m, "isOpen"@);
                if header is Err {
                    header
                } else if page_blocks is Err {
                    page_blocks
                } else if is_open is Err {
                    is_open
                } else {
                    Ok(
                        tagged(
                            Map::empty()
                                .insert("header"@, header->Ok_0)
                                .insert("pageBlocks"@, page_blocks->Ok_0)
                                .insert("isOpen"@, is_open->Ok_0),
                            "pageBlockDetails"@,
                        ),
                    )
                }
            } else if t == "pageBlockRelatedArticles"@ {
                PageBlockRelatedArticles::parse(d, at)
            } else if t == "pageBlockMap"@ {
                PageBlockMap::parse(d, at)
            } else {
                Err(Fault::UnknownVariant(t))
            },
            None => Err(Fault::MissingDiscriminator),
        },
        _ => Err(Fault::TypeMismatch(at)),
    }
}

/// What reading the required field `key`, a `PageBlock`, yields.
pub open spec fn page_block_field(m: Map<Seq<char>, Doc>, key: Seq<char>) -> Result<Doc, Fault> {
    if m.contains_key(key) {
        page_block_parse(m[key], key)
    } else {
        Err(Fault::MissingField(key))
    }
}

/// What decoding the items of a list of `PageBlock` yields.
pub open spec fn page_block_list_parse(items: Seq<Doc>, at: Seq<char>) -> Result<Seq<Doc>, Fault>
    decreases items,
{
    if items.len() == 0 {
        Ok(Seq::empty())
    } else {
        match page_block_list_parse(items.drop_last(), at) {
            Err(e) => Err(e),
            Ok(front) => match page_block_parse(items.last(), at) {
                Err(e) => Err(e),
                Ok(c) => Ok(front.push(c)),
            },
        }
    }
}

/// What reading the required field `key`, a list of `PageBlock`, yields.
pub open spec fn page_block_list_field(
    m: Map<Seq<char>, Doc>,
    key: Seq<char>,
) -> Result<Doc, Fault> {
    if m.contains_key(key) {
        match m[key] {
            Doc::List(items) => match page_block_list_parse(items, key) {
                Ok(docs) => Ok(Doc::List(docs)),
                Err(e) => Err(e),
            },
            _ => Err(Fault::TypeMismatch(key)),
        }
    } else {
        Err(Fault::MissingField(key))
    }
}

/// What decoding a `PageBlockListItem` from the document `d` yields.
pub open spec fn page_block_list_item_parse(d: Doc, at: Seq<char>) -> Result<Doc, Fault>
    decreases d,
{
    match d {
        Doc::Object(m) => {
            let label = field::<String>(m, "label"@);
            let page_blocks = if m.contains_key("pageBlocks"@) {
                match m["pageBlocks"@] {
                    Doc::List(items) => match page_block_list_parse(items, "pageBlocks"@) {
                        Ok(docs) => Ok(Doc::List(docs)),
                        Err(e) => Err(e),
                    },
                    _ => Err(Fault::TypeMismatch("pageBlocks"@)),
                }
            } else {
                Err(Fault::MissingField("pageBlocks"@))
            };
            if label is Err {
                label
            } else if page_blocks is Err {
                page_blocks
            } else {
                Ok(
                    tagged(
                        Map::empty()
                            .insert("label"@, label->Ok_0)
                            .insert("pageBlocks"@, page_blocks->Ok_0),
                        "pageBlockListItem"@,
                    ),
                )
            }
        },
        _ => Err(Fault::TypeMismatch(at)),
    }
}

/// What decoding the items of a list of `PageBlockListItem` yields.
pub open spec fn page_block_list_item_list_parse(
    items: Seq<Doc>,
    at: Seq<char>,
) -> Result<Seq<Doc>, Fault>
    decreases items,
{
    if items.len() == 0 {
        Ok(Seq::empty())
    } else {
        match page_block_list_item_list_parse(items.drop_last(), at) {
            Err(e) => Err(e),
            Ok(front) => match page_block_list_item_parse(items.last(), at) {
                Err(e) => Err(e),
                Ok(c) => Ok(front.push(c)),
            },
        }
    }
}

/// What reading the required field `key`, a list of `PageBlockListItem`, yields.
pub open spec fn page_block_list_item_list_field(
    m: Map<Seq<char>, Doc>,
    key: Seq<char>,
) -> Result<Doc, Fault> {
    if m.contains_key(key) {
        match m[key] {
            Doc::List(items) => match page_block_list_item_list_parse(items, key) {
                Ok(docs) => Ok(Doc::List(docs)),
                Err(e) => Err(e),
            },
            _ => Err(Fault::TypeMismatch(key)),
        }
    } else {
        Err(Fault::MissingField(key))
    }
}

proof fn lemma_page_block_list_step(items: Seq<Doc>, i: int, at: Seq<char>)
    requires
        0 <= i < items.len(),
    ensures
        page_block_list_parse(
            items.take(i + 1),
            at) == match page_block_list_parse(items.take(i),
            at,
        ) {
            Err(e) => Err::<Seq<Doc>, Fault>(e),
            Ok(front) => match page_block_parse(items[i], at) {
                Err(e) => Err(e),
                Ok(c) => Ok(front.push(c)),
            },
        },
{
    assert(items.take(i + 1).drop_last() =~= items.take(i));
}

proof fn lemma_page_block_list_fault(items: Seq<Doc>, i: int, at: Seq<char>)
    requires
        0 <= i <= items.len(),
        page_block_list_parse(items.take(i), at) is Err,
    ensures
        page_block_list_parse(items, at) == page_block_list_parse(items.take(i), at),
    decreases items.len() - i,
{
    if i < items.len() {
        lemma_page_block_list_step(items, i, at);
        lemma_page_block_list_fault(items, i + 1, at);
    } else {
        assert(items.take(i) =~= items);
    }
}

proof fn lemma_page_block_list_item_list_step(items: Seq<Doc>, i: int, at: Seq<char>)
    requires
        0 <= i < items.len(),
    ensures
        page_block_list_item_list_parse(
            items.take(i + 1),
            at) == match page_block_list_item_list_parse(items.take(i),
            at,
        ) {
            Err(e) => Err::<Seq<Doc>, Fault>(e),
            Ok(front) => match page_block_list_item_parse(items[i], at) {
                Err(e) => Err(e),
                Ok(c) => Ok(front.push(c)),
            },
        },
{
    assert(items.take(i + 1).drop_last() =~= items.take(i));
}

proof fn lemma_page_block_list_item_list_fault(items: Seq<Doc>, i: int, at: Seq<char>)
    requires
        0 <= i <= items.len(),
        page_block_list_item_list_parse(items.take(i), at) is Err,
    ensures
        page_block_list_item_list_parse(
            items,
            at) == page_block_list_item_list_parse(items.take(i),
            at,
        ),
    decreases items.len() - i,
{
    if i < items.len() {
        lemma_page_block_list_item_list_step(items, i, at);
        lemma_page_block_list_item_list_fault(items, i + 1, at);
    } else {
        assert(items.take(i) =~= items);
    }
}

/// Decoding the document of a `PageBlock` gives the same document back.
pub proof fn lemma_page_block_round_trip(x: PageBlock, at: Seq<char>)
    ensures
        page_block_parse(page_block_doc(x), at) == Ok::<Doc, Fault>(page_block_doc(x)),
    decreases x,
{
    reveal_strlit("pageBlockAnchor");
    reveal_strlit("pageBlockAnimation");
    reveal_strlit("pageBlockAudio");
    reveal_strlit("pageBlockAuthorDate");
    reveal_strlit("pageBlockBlockQuote");
    reveal_strlit("pageBlockChatLink");
    reveal_strlit("pageBlockCollage");
    reveal_strlit("pageBlockCover");
    reveal_strlit("pageBlockDetails");
    reveal_strlit("pageBlockDivider");
    reveal_strlit("pageBlockEmbedded");
    reveal_strlit("pageBlockEmbeddedPost");
    reveal_strlit("pageBlockFooter");
    reveal_strlit("pageBlockHeader");
    reveal_strlit("pageBlockKicker");
    reveal_strlit("pageBlockList");
    reveal_strlit("pageBlockMap");
    reveal_strlit("pageBlockParagraph");
    reveal_strlit("pageBlockPhoto");
    reveal_strlit("pageBlockPreformatted");
    reveal_strlit("pageBlockPullQuote");
    reveal_strlit("pageBlockRelatedArticles");
    reveal_strlit("pageBlockSlideshow");
    reveal_strlit("pageBlockSubheader");
    reveal_strlit("pageBlockSubtitle");
    reveal_strlit("pageBlockTable");
    reveal_strlit("pageBlockTitle");
    reveal_strlit("pageBlockVideo");
    reveal_strlit("pageBlockVoiceNote");
    assert("pageBlockAnchor"@.len() == 15 && "pageBlockAnchor"@[9] == 'A');
    assert("pageBlockAnimation"@.len() == 18 && "pageBlockAnimation"@[12] == 'm');
    assert({
        &&& "pageBlockAudio"@.len() == 14
        &&& "pageBlockAudio"@[9] == 'A'
        &&& "pageBlockAudio"@[10] == 'u'
    });
    assert("pageBlockAuthorDate"@.len() == 19 && "pageBlockAuthorDate"@[9] == 'A');
    assert("pageBlockBlockQuote"@.len() == 19 && "pageBlockBlockQuote"@[9] == 'B');
    assert("pageBlockChatLink"@.len() == 17 && "pageBlockChatLink"@[9] == 'C');
    assert("pageBlockCollage"@.len() == 16 && "pageBlockCollage"@[10] == 'o');
    assert({
        &&& "pageBlockCover"@.len() == 14
        &&& "pageBlockCover"@[9] == 'C'
        &&& "pageBlockCover"@[10] == 'o'
    });
    assert("pageBlockDetails"@.len() == 16 && "pageBlockDetails"@[10] == 'e');
    assert("pageBlockDivider"@.len() == 16 && "pageBlockDivider"@[10] == 'i');
    assert("pageBlockEmbedded"@.len() == 17 && "pageBlockEmbedded"@[9] == 'E');
    assert("pageBlockEmbeddedPost"@.len() == 21 && "pageBlockEmbeddedPost"@[9] == 'E');
    assert("pageBlockFooter"@.len() == 15 && "pageBlockFooter"@[9] == 'F');
    assert("pageBlockHeader"@.len() == 15 && "pageBlockHeader"@[9] == 'H');
    assert("pageBlockKicker"@.len() == 15 && "pageBlockKicker"@[9] == 'K');
    assert("pageBlockList"@.len() == 13);
    assert("pageBlockMap"@.len() == 12);
    assert("pageBlockParagraph"@.len() == 18 && "pageBlockParagraph"@[12] == 'a');
    assert({
        &&& "pageBlockPhoto"@.len() == 14
        &&& "pageBlockPhoto"@[9] == 'P'
        &&& "pageBlockPhoto"@[10] == 'h'
    });
    assert("pageBlockPreformatted"@.len() == 21 && "pageBlockPreformatted"@[9] == 'P');
    assert("pageBlockPullQuote"@.len() == 18 && "pageBlockPullQuote"@[12] == 'l');
    assert("pageBlockRelatedArticles"@.len() == 24);
    assert("pageBlockSlideshow"@.len() == 18 && "pageBlockSlideshow"@[12] == 'd');
    assert("pageBlockSubheader"@.len() == 18 && "pageBlockSubheader"@[12] == 'h');
    assert("pageBlockSubtitle"@.len() == 17 && "pageBlockSubtitle"@[9] == 'S');
    assert({
        &&& "pageBlockTable"@.len() == 14
        &&& "pageBlockTable"@[9] == 'T'
        &&& "pageBlockTable"@[10] == 'a'
    });
    assert({
        &&& "pageBlockTitle"@.len() == 14
        &&& "pageBlockTitle"@[9] == 'T'
        &&& "pageBlockTitle"@[10] == 'i'
    });
    assert({
        &&& "pageBlockVideo"@.len() == 14
        &&& "pageBlockVideo"@[9] == 'V'
        &&& "pageBlockVideo"@[10] == 'i'
    });
    assert("pageBlockVoiceNote"@.len() == 18 && "pageBlockVoiceNote"@[12] == 'c');
    match x {
        PageBlock::PageBlockTitle(p) => {
            p.tag_known();
            p.round_trip(at);
        },
        PageBlock::PageBlockSubtitle(p) => {
            p.tag_known();
            p.round_trip(at);
        },
        PageBlock::PageBlockAuthorDate(p) => {
            p.tag_known();
            p.round_trip(at);
        },
        PageBlock::PageBlockHeader(p) => {
            p.tag_known();
            p.round_trip(at);
        },
        PageBlock::PageBlockSubheader(p) => {
            p.tag_known();
            p.round_trip(at);
        },
        PageBlock::PageBlockKicker(p) => {
            p.tag_known();
            p.round_trip(at);
        },
        PageBlock::PageBlockParagraph(p) => {
            p.tag_known();
            p.round_trip(at);
        },
        PageBlock::PageBlockPreformatted(p) => {
            p.tag_known();
            p.round_trip(at);
        },
        PageBlock::PageBlockFooter(p) => {
            p.tag_known();
            p.round_trip(at);
        },
        PageBlock::PageBlockDivider(p) => {
            p.tag_known();
            p.round_trip(at);
        },
        PageBlock::PageBlockAnchor(p) => {
            p.tag_known();
            p.round_trip(at);
        },
        PageBlock::PageBlockList(p) => {
            reveal_strlit("@type");
            reveal_strlit("items");
            assert("@type"@.len() == 5 && "@type"@[0] == '@');
            assert("items"@.len() == 5 && "items"@[0] == 'i');
            lemma_page_block_list_item_list_round_trip(p.items@, "items"@);
        },
        PageBlock::PageBlockBlockQuote(p) => {
            p.tag_known();
            p.round_trip(at);
        },
        PageBlock::PageBlockPullQuote(p) => {
            p.tag_known();
            p.round_trip(at);
        },
        PageBlock::PageBlockAnimation(p) => {
            p.tag_known();
            p.round_trip(at);
        },
        PageBlock::PageBlockAudio(p) => {
            p.tag_known();
            p.round_trip(at);
        },
        PageBlock::PageBlockPhoto(p) => {
            p.tag_known();
            p.round_trip(at);
        },
        PageBlock::PageBlockVideo(p) => {
            p.tag_known();
            p.round_trip(at);
        },
        PageBlock::PageBlockVoiceNote(p) => {
            p.tag_known();
            p.round_trip(at);
        },
        PageBlock::PageBlockCover(p) => {
            reveal_strlit("@type");
            reveal_strlit("cover");
            assert("@type"@.len() == 5 && "@type"@[0] == '@');
            assert("cover"@.len() == 5 && "cover"@[0] == 'c');
            lemma_page_block_round_trip(*p.cover, "cover"@);
        },
        PageBlock::PageBlockEmbedded(p) => {
            p.tag_known();
            p.round_trip(at);
        },
        PageBlock::PageBlockEmbeddedPost(p) => {
            reveal_strlit("@type");
            reveal_strlit("author");
            reveal_strlit("authorPhoto");
            reveal_strlit("caption");
            reveal_strlit("date");
            reveal_strlit("pageBlocks");
            reveal_strlit("url");
            assert("@type"@.len() == 5);
            assert("author"@.len() == 6);
            assert("authorPhoto"@.len() == 11);
            assert("caption"@.len() == 7);
            assert("date"@.len() == 4);
            assert("pageBlocks"@.len() == 10);
            assert("url"@.len() == 3);
            p.url.round_trip("url"@);
            p.author.round_trip("author"@);
            p.author_photo.round_trip("authorPhoto"@);
            p.date.round_trip("date"@);
            lemma_page_block_list_round_trip(p.page_blocks@, "pageBlocks"@);
            p.caption.round_trip("caption"@);
        },
        PageBlock::PageBlockCollage(p) => {
            reveal_strlit("@type");
            reveal_strlit("caption");
            reveal_strlit("pageBlocks");
            assert("@type"@.len() == 5);
            assert("caption"@.len() == 7);
            assert("pageBlocks"@.len() == 10);
            lemma_page_block_list_round_trip(p.page_blocks@, "pageBlocks"@);
            p.caption.round_trip("caption"@);
        },
        PageBlock::PageBlockSlideshow(p) => {
            reveal_strlit("@type");
            reveal_strlit("caption");
            reveal_strlit("pageBlocks");
            assert("@type"@.len() == 5);
            assert("caption"@.len() == 7);
            assert("pageBlocks"@.len() == 10);
            lemma_page_block_list_round_trip(p.page_blocks@, "pageBlocks"@);
            p.caption.round_trip("caption"@);
        },
        PageBlock::PageBlockChatLink(p) => {
            p.tag_known();
            p.round_trip(at);
        },
        PageBlock::PageBlockTable(p) => {
            p.tag_known();
            p.round_trip(at);
        },
        PageBlock::PageBlockDetails(p) => {
            reveal_strlit("@type");
            reveal_strlit("header");
            reveal_strlit("isOpen");
            reveal_strlit("pageBlocks");
            assert("@type"@.len() == 5);
            assert("header"@.len() == 6 && "header"@[0] == 'h');
            assert("isOpen"@.len() == 6 && "isOpen"@[0] == 'i');
            assert("pageBlocks"@.len() == 10);
            p.header.round_trip("header"@);
            lemma_page_block_list_round_trip(p.page_blocks@, "pageBlocks"@);
            p.is_open.round_trip("isOpen"@);
        },
        PageBlock::PageBlockRelatedArticles(p) => {
            p.tag_known();
            p.round_trip(at);
        },
        PageBlock::PageBlockMap(p) => {
            p.tag_known();
            p.round_trip(at);
        },
    }
}

pub proof fn lemma_page_block_list_round_trip(items: Seq<PageBlock>, at: Seq<char>)
    ensures
        page_block_list_parse(
            page_block_docs(items),
            at) == Ok::<Seq<Doc>,
            Fault>(page_block_docs(items),
        ),
    decreases items,
{
    let docs = page_block_docs(items);
    if items.len() == 0 {
        assert(docs =~= Seq::<Doc>::empty());
    } else {
        lemma_page_block_list_round_trip(items.drop_last(), at);
        assert(docs.drop_last() =~= page_block_docs(items.drop_last()));
        lemma_page_block_round_trip(items.last(), at);
        assert(docs.drop_last().push(docs.last()) =~= docs);
    }
}

/// Decoding the document of a `PageBlockListItem` gives the same document back.
pub proof fn lemma_page_block_list_item_round_trip(x: PageBlockListItem, at: Seq<char>)
    ensures
        page_block_list_item_parse(
            page_block_list_item_doc(x),
            at) == Ok::<Doc,
            Fault>(page_block_list_item_doc(x),
        ),
    decreases x,
{
    reveal_strlit("@type");
    reveal_strlit("label");
    reveal_strlit("pageBlocks");
    assert("@type"@.len() == 5 && "@type"@[0] == '@');
    assert("label"@.len() == 5 && "label"@[0] == 'l');
    assert("pageBlocks"@.len() == 10);
    x.label.round_trip("label"@);
    lemma_page_block_list_round_trip(x.page_blocks@, "pageBlocks"@);
}

pub proof fn lemma_page_block_list_item_list_round_trip(items: Seq<PageBlockListItem>, at: Seq<char>)
    ensures
        page_block_list_item_list_parse(
            page_block_list_item_docs(items),
            at) == Ok::<Seq<Doc>,
            Fault>(page_block_list_item_docs(items),
        ),
    decreases items,
{
    let docs = page_block_list_item_docs(items);
    if items.len() == 0 {
        assert(docs =~= Seq::<Doc>::empty());
    } else {
        lemma_page_block_list_item_list_round_trip(items.drop_last(), at);
        assert(docs.drop_last() =~= page_block_list_item_docs(items.drop_last()));
        lemma_page_block_list_item_round_trip(items.last(), at);
        assert(docs.drop_last().push(docs.last()) =~= docs);
    }
}

fn encode_page_block(x: &PageBlock) -> (j: Json)
    ensures
        j@ == page_block_doc(*x),
    decreases x,
{
    match x {
        PageBlock::PageBlockTitle(p) => p.encode(),
        PageBlock::PageBlockSubtitle(p) => p.encode(),
        PageBlock::PageBlockAuthorDate(p) => p.encode(),
        PageBlock::PageBlockHeader(p) => p.encode(),
        PageBlock::PageBlockSubheader(p) => p.encode(),
        PageBlock::PageBlockKicker(p) => p.encode(),
        PageBlock::PageBlockParagraph(p) => p.encode(),
        PageBlock::PageBlockPreformatted(p) => p.encode(),
        PageBlock::PageBlockFooter(p) => p.encode(),
        PageBlock::PageBlockDivider(p) => p.encode(),
        PageBlock::PageBlockAnchor(p) => p.encode(),
        PageBlock::PageBlockList(p) => {
            let mut members: Vec<Member> = Vec::new();
            put(&mut members, "items", encode_page_block_list_item_list(&p.items));
            seal(members, "pageBlockList")
        },
        PageBlock::PageBlockBlockQuote(p) => p.encode(),
        PageBlock::PageBlockPullQuote(p) => p.encode(),
        PageBlock::PageBlockAnimation(p) => p.encode(),
        PageBlock::PageBlockAudio(p) => p.encode(),
        PageBlock::PageBlockPhoto(p) => p.encode(),
        PageBlock::PageBlockVideo(p) => p.encode(),
        PageBlock::PageBlockVoiceNote(p) => p.encode(),
        PageBlock::PageBlockCover(p) => {
            let mut members: Vec<Member> = Vec::new();
            put(&mut members, "cover", encode_page_block(&p.cover));
            seal(members, "pageBlockCover")
        },
        PageBlock::PageBlockEmbedded(p) => p.encode(),
        PageBlock::PageBlockEmbeddedPost(p) => {
            let mut members: Vec<Member> = Vec::new();
            put(&mut members, "url", p.url.encode());
            put(&mut members, "author", p.author.encode());
            put(&mut members, "authorPhoto", p.author_photo.encode());
            put(&mut members, "date", p.date.encode());
            put(&mut members, "pageBlocks", encode_page_block_list(&p.page_blocks));
            put(&mut members, "caption", p.caption.encode());
            seal(members, "pageBlockEmbeddedPost")
        },
        PageBlock::PageBlockCollage(p) => {
            let mut members: Vec<Member> = Vec::new();
            put(&mut members, "pageBlocks", encode_page_block_list(&p.page_blocks));
            put(&mut members, "caption", p.caption.encode());
            seal(members, "pageBlockCollage")
        },
        PageBlock::PageBlockSlideshow(p) => {
            let mut members: Vec<Member> = Vec::new();
            put(&mut members, "pageBlocks", encode_page_block_list(&p.page_blocks));
            put(&mut members, "caption", p.caption.encode());
            seal(members, "pageBlockSlideshow")
        },
        PageBlock::PageBlockChatLink(p) => p.encode(),
        PageBlock::PageBlockTable(p) => p.encode(),
        PageBlock::PageBlockDetails(p) => {
            let mut members: Vec<Member> = Vec::new();
            put(&mut members, "header", p.header.encode());
            put(&mut members, "pageBlocks", encode_page_block_list(&p.page_blocks));
            put(&mut members, "isOpen", p.is_open.encode());
            seal(members, "pageBlockDetails")
        },
        PageBlock::PageBlockRelatedArticles(p) => p.encode(),
        PageBlock::PageBlockMap(p) => p.encode(),
    }
}

fn encode_page_block_list(items: &Vec<PageBlock>) -> (j: Json)
    ensures
        j@ == Doc::List(page_block_docs(items@)),
    decreases items,
{
    let mut out: Vec<Json> = Vec::new();
    let mut i: usize = 0;
    while i < items.len()
        invariant
            i <= items.len(),
            out.len() == i,
            forall|k: int| 0 <= k < i ==> out[k]@ == page_block_doc(items[k]),
        decreases items.len() - i,
    {
        assert(decreases_to!(items => items[i as int]));
        out.push(encode_page_block(&items[i]));
        i += 1;
    }
    assert(docs_of(out@) =~= page_block_docs(items@));
    Json::List(out)
}

fn encode_page_block_list_item(x: &PageBlockListItem) -> (j: Json)
    ensures
        j@ == page_block_list_item_doc(*x),
    decreases x,
{
    let mut members: Vec<Member> = Vec::new();
    put(&mut members, "label", x.label.encode());
    put(&mut members, "pageBlocks", encode_page_block_list(&x.page_blocks));
    seal(members, "pageBlockListItem")
}

fn encode_page_block_list_item_list(items: &Vec<PageBlockListItem>) -> (j: Json)
    ensures
        j@ == Doc::List(page_block_list_item_docs(items@)),
    decreases items,
{
    let mut out: Vec<Json> = Vec::new();
    let mut i: usize = 0;
    while i < items.len()
        invariant
            i <= items.len(),
            out.len() == i,
            forall|k: int| 0 <= k < i ==> out[k]@ == page_block_list_item_doc(items[k]),
        decreases items.len() - i,
    {
        assert(decreases_to!(items => items[i as int]));
        out.push(encode_page_block_list_item(&items[i]));
        i += 1;
    }
    assert(docs_of(out@) =~= page_block_list_item_docs(items@));
    Json::List(out)
}

fn decode_page_block(j: &Json, at: &str) -> (r: Result<PageBlock, DecodeError>)
    ensures
        match r {
            Ok(v) => page_block_parse(j@, at@) == Ok::<Doc, Fault>(page_block_doc(v)),
            Err(e) => page_block_parse(j@, at@) == Err::<Doc, Fault>(e@),
        },
    decreases j,
{
    let members = members_of(j, at)?;
    let tag = discriminator(members)?;
    if same_text(tag, "pageBlockTitle") {
        Ok(PageBlock::PageBlockTitle(PageBlockTitle::decode(j, at)?))
    } else if same_text(tag, "pageBlockSubtitle") {
        Ok(PageBlock::PageBlockSubtitle(PageBlockSubtitle::decode(j, at)?))
    } else if same_text(tag, "pageBlockAuthorDate") {
        Ok(PageBlock::PageBlockAuthorDate(PageBlockAuthorDate::decode(j, at)?))
    } else if same_text(tag, "pageBlockHeader") {
        Ok(PageBlock::PageBlockHeader(PageBlockHeader::decode(j, at)?))
    } else if same_text(tag, "pageBlockSubheader") {
        Ok(PageBlock::PageBlockSubheader(PageBlockSubheader::decode(j, at)?))
    } else if same_text(tag, "pageBlockKicker") {
        Ok(PageBlock::PageBlockKicker(PageBlockKicker::decode(j, at)?))
    } else if same_text(tag, "pageBlockParagraph") {
        Ok(PageBlock::PageBlockParagraph(PageBlockParagraph::decode(j, at)?))
    } else if same_text(tag, "pageBlockPreformatted") {
        Ok(PageBlock::PageBlockPreformatted(PageBlockPreformatted::decode(j, at)?))
    } else if same_text(tag, "pageBlockFooter") {
        Ok(PageBlock::PageBlockFooter(PageBlockFooter::decode(j, at)?))
    } else if same_text(tag, "pageBlockDivider") {
        Ok(PageBlock::PageBlockDivider(PageBlockDivider::decode(j, at)?))
    } else if same_text(tag, "pageBlockAnchor") {
        Ok(PageBlock::PageBlockAnchor(PageBlockAnchor::decode(j, at)?))
    } else if same_text(tag, "pageBlockList") {
        let items = read_page_block_list_item_list(members, "items")?;
        Ok(PageBlock::PageBlockList(PageBlockList { items }))
    } else if same_text(tag, "pageBlockBlockQuote") {
        Ok(PageBlock::PageBlockBlockQuote(PageBlockBlockQuote::decode(j, at)?))
    } else if same_text(tag, "pageBlockPullQuote") {
        Ok(PageBlock::PageBlockPullQuote(PageBlockPullQuote::decode(j, at)?))
    } else if same_text(tag, "pageBlockAnimation") {
        Ok(PageBlock::PageBlockAnimation(PageBlockAnimation::decode(j, at)?))
    } else if same_text(tag, "pageBlockAudio") {
        Ok(PageBlock::PageBlockAudio(PageBlockAudio::decode(j, at)?))
    } else if same_text(tag, "pageBlockPhoto") {
        Ok(PageBlock::PageBlockPhoto(PageBlockPhoto::decode(j, at)?))
    } else if same_text(tag, "pageBlockVideo") {
        Ok(PageBlock::PageBlockVideo(PageBlockVideo::decode(j, at)?))
    } else if same_text(tag, "pageBlockVoiceNote") {
        Ok(PageBlock::PageBlockVoiceNote(PageBlockVoiceNote::decode(j, at)?))
    } else if same_text(tag, "pageBlockCover") {
        let cover = read_page_block(members, "cover")?;
        Ok(PageBlock::PageBlockCover(PageBlockCover { cover: Box::new(cover) }))
    } else if same_text(tag, "pageBlockEmbedded") {
        Ok(PageBlock::PageBlockEmbedded(PageBlockEmbedded::decode(j, at)?))
    } else if same_text(tag, "pageBlockEmbeddedPost") {
        let url = read_field::<String>(members, "url")?;
        let author = read_field::<String>(members, "author")?;
        let author_photo = read_optional::<Photo>(members, "authorPhoto")?;
        let date = read_field::<i32>(members, "date")?;
        let page_blocks = read_page_block_list(members, "pageBlocks")?;
        let caption = read_field::<PageBlockCaption>(members, "caption")?;
        Ok(
            PageBlock::PageBlockEmbeddedPost(
                PageBlockEmbeddedPost { url, author, author_photo, date, page_blocks, caption },
            ),
        )
    } else if same_text(tag, "pageBlockCollage") {
        let page_blocks = read_page_block_list(members, "pageBlocks")?;
        let caption = read_field::<PageBlockCaption>(members, "caption")?;
        Ok(PageBlock::PageBlockCollage(PageBlockCollage { page_blocks, caption }))
    } else if same_text(tag, "pageBlockSlideshow") {
        let page_blocks = read_page_block_list(members, "pageBlocks")?;
        let caption = read_field::<PageBlockCaption>(members, "caption")?;
        Ok(PageBlock::PageBlockSlideshow(PageBlockSlideshow { page_blocks, caption }))
    } else if same_text(tag, "pageBlockChatLink") {
        Ok(PageBlock::PageBlockChatLink(PageBlockChatLink::decode(j, at)?))
    } else if same_text(tag, "pageBlockTable") {
        Ok(PageBlock::PageBlockTable(PageBlockTable::decode(j, at)?))
    } else if same_text(tag, "pageBlockDetails") {
        let header = read_field::<RichText>(members, "header")?;
        let page_blocks = read_page_block_list(members, "pageBlocks")?;
        let is_open = read_field::<bool>(members, "isOpen")?;
        Ok(PageBlock::PageBlockDetails(PageBlockDetails { header, page_blocks, is_open }))
    } else if same_text(tag, "pageBlockRelatedArticles") {
        Ok(PageBlock::PageBlockRelatedArticles(PageBlockRelatedArticles::decode(j, at)?))
    } else if same_text(tag, "pageBlockMap") {
        Ok(PageBlock::PageBlockMap(PageBlockMap::decode(j, at)?))
    } else {
        Err(DecodeError::UnknownVariant(tag.to_owned()))
    }
}

fn read_page_block(members: &Vec<Member>, key: &str) -> (r: Result<PageBlock, DecodeError>)
    ensures
        match r {
            Ok(
                v) => page_block_field(map_of(members@), key@) == Ok::<Doc, Fault>(page_block_doc(v),
            ),
            Err(e) => page_block_field(map_of(members@), key@) == Err::<Doc, Fault>(e@),
        },
    decreases members,
{
    match find(members, key) {
        Some(v) => decode_page_block(v, key),
        None => Err(DecodeError::MissingField(key.to_owned())),
    }
}

fn read_page_block_list(
    members: &Vec<Member>,
    key: &str,
) -> (r: Result<Vec<PageBlock>, DecodeError>)
    ensures
        match r {
            Ok(v) => page_block_list_field(map_of(members@), key@) == Ok::<Doc, Fault>(
                Doc::List(page_block_docs(v@)),
            ),
            Err(e) => page_block_list_field(map_of(members@), key@) == Err::<Doc, Fault>(e@),
        },
    decreases members,
{
    let found = match find(members, key) {
        Some(v) => v,
        None => {
            return Err(DecodeError::MissingField(key.to_owned()));
        },
    };
    let items = match found {
        Json::List(items) => items,
        _ => {
            return Err(DecodeError::TypeMismatch(key.to_owned()));
        },
    };
    assert(decreases_to!(found => found->List_0));
    let ghost docs = docs_of(items@);
    let mut out: Vec<PageBlock> = Vec::new();
    let mut i: usize = 0;
    assert(docs.take(0) =~= Seq::<Doc>::empty());
    assert(page_block_docs(out@) =~= Seq::<Doc>::empty());
    while i < items.len()
        invariant
            i <= items.len(),
            docs == docs_of(items@),
            map_of(members@).contains_key(key@),
            map_of(members@)[key@] == Doc::List(docs),
            decreases_to!(members => items),
            page_block_list_parse(docs.take(i as int), key@) == Ok::<Seq<Doc>, Fault>(
                page_block_docs(out@),
            ),
        decreases items.len() - i,
    {
        proof {
            lemma_page_block_list_step(docs, i as int, key@);
            assert(docs[i as int] == items[i as int]@);
            assert(decreases_to!(items => items[i as int]));
        }
        let ghost before = out@;
        match decode_page_block(&items[i], key) {
            Ok(v) => {
                out.push(v);
                assert(page_block_docs(out@) =~= page_block_docs(before).push(page_block_doc(v)));
            },
            Err(e) => {
                proof {
                    lemma_page_block_list_fault(docs, i + 1, key@);
                }
                return Err(e);
            },
        }
        i += 1;
    }
    assert(docs.take(i as int) =~= docs);
    Ok(out)
}

fn decode_page_block_list_item(j: &Json, at: &str) -> (r: Result<PageBlockListItem, DecodeError>)
    ensures
        match r {
            Ok(
                v) => page_block_list_item_parse(j@, at@) == Ok::<Doc, Fault>(page_block_list_item_doc(v),
            ),
            Err(e) => page_block_list_item_parse(j@, at@) == Err::<Doc, Fault>(e@),
        },
    decreases j,
{
    let members = members_of(j, at)?;
    let label = read_field::<String>(members, "label")?;
    let page_blocks = read_page_block_list(members, "pageBlocks")?;
    Ok(PageBlockListItem { label, page_blocks })
}

fn read_page_block_list_item_list(
    members: &Vec<Member>,
    key: &str,
) -> (r: Result<Vec<PageBlockListItem>, DecodeError>)
    ensures
        match r {
            Ok(v) => page_block_list_item_list_field(map_of(members@), key@) == Ok::<Doc, Fault>(
                Doc::List(page_block_list_item_docs(v@)),
            ),
            Err(
                e) => page_block_list_item_list_field(map_of(members@), key@) == Err::<Doc, Fault>(e@,
            ),
        },
    decreases members,
{
    let found = match find(members, key) {
        Some(v) => v,
        None => {
            return Err(DecodeError::MissingField(key.to_owned()));
        },
    };
    let items = match found {
        Json::List(items) => items,
        _ => {
            return Err(DecodeError::TypeMismatch(key.to_owned()));
        },
    };
    assert(decreases_to!(found => found->List_0));
    let ghost docs = docs_of(items@);
    let mut out: Vec<PageBlockListItem> = Vec::new();
    let mut i: usize = 0;
    assert(docs.take(0) =~= Seq::<Doc>::empty());
    assert(page_block_list_item_docs(out@) =~= Seq::<Doc>::empty());
    while i < items.len()
        invariant
            i <= items.len(),
            docs == docs_of(items@),
            map_of(members@).contains_key(key@),
            map_of(members@)[key@] == Doc::List(docs),
            decreases_to!(members => items),
            page_block_list_item_list_parse(docs.take(i as int), key@) == Ok::<Seq<Doc>, Fault>(
                page_block_list_item_docs(out@),
            ),
        decreases items.len() - i,
    {
        proof {
            lemma_page_block_list_item_list_step(docs, i as int, key@);
            assert(docs[i as int] == items[i as int]@);
            assert(decreases_to!(items => items[i as int]));
        }
        let ghost before = out@;
        match decode_page_block_list_item(&items[i], key) {
            Ok(v) => {
                out.push(v);
                assert(page_block_list_item_docs(out@)
                    =~= page_block_list_item_docs(before).push(page_block_list_item_doc(v)));
            },
            Err(e) => {
                proof {
                    lemma_page_block_list_item_list_fault(docs, i + 1, key@);
                }
                return Err(e);
            },
        }
        i += 1;
    }
    assert(docs.take(i as int) =~= docs);
    Ok(out)
}

fn clone_page_block(x: &PageBlock) -> PageBlock
    decreases x,
{
    match x {
        PageBlock::PageBlockTitle(p) => PageBlock::PageBlockTitle(p.clone()),
        PageBlock::PageBlockSubtitle(p) => PageBlock::PageBlockSubtitle(p.clone()),
        PageBlock::PageBlockAuthorDate(p) => PageBlock::PageBlockAuthorDate(p.clone()),
        PageBlock::PageBlockHeader(p) => PageBlock::PageBlockHeader(p.clone()),
        PageBlock::PageBlockSubheader(p) => PageBlock::PageBlockSubheader(p.clone()),
        PageBlock::PageBlockKicker(p) => PageBlock::PageBlockKicker(p.clone()),
        PageBlock::PageBlockParagraph(p) => PageBlock::PageBlockParagraph(p.clone()),
        PageBlock::PageBlockPreformatted(p) => PageBlock::PageBlockPreformatted(p.clone()),
        PageBlock::PageBlockFooter(p) => PageBlock::PageBlockFooter(p.clone()),
        PageBlock::PageBlockDivider(p) => PageBlock::PageBlockDivider(p.clone()),
        PageBlock::PageBlockAnchor(p) => PageBlock::PageBlockAnchor(p.clone()),
        PageBlock::PageBlockList(
            p) => PageBlock::PageBlockList(PageBlockList { items: clone_page_block_list_item_list(&p.items) },
        ),
        PageBlock::PageBlockBlockQuote(p) => PageBlock::PageBlockBlockQuote(p.clone()),
        PageBlock::PageBlockPullQuote(p) => PageBlock::PageBlockPullQuote(p.clone()),
        PageBlock::PageBlockAnimation(p) => PageBlock::PageBlockAnimation(p.clone()),
        PageBlock::PageBlockAudio(p) => PageBlock::PageBlockAudio(p.clone()),
        PageBlock::PageBlockPhoto(p) => PageBlock::PageBlockPhoto(p.clone()),
        PageBlock::PageBlockVideo(p) => PageBlock::PageBlockVideo(p.clone()),
        PageBlock::PageBlockVoiceNote(p) => PageBlock::PageBlockVoiceNote(p.clone()),
        PageBlock::PageBlockCover(
            p) => PageBlock::PageBlockCover(PageBlockCover { cover: Box::new(clone_page_block(&p.cover)) },
        ),
        PageBlock::PageBlockEmbedded(p) => PageBlock::PageBlockEmbedded(p.clone()),
        PageBlock::PageBlockEmbeddedPost(
            p) => PageBlock::PageBlockEmbeddedPost(PageBlockEmbeddedPost { url: p.url.clone(),
            author: p.author.clone(),
            author_photo: p.author_photo.clone(),
            date: p.date.clone(),
            page_blocks: clone_page_block_list(&p.page_blocks),
            caption: p.caption.clone() },
        ),
        PageBlock::PageBlockCollage(
            p) => PageBlock::PageBlockCollage(PageBlockCollage { page_blocks: clone_page_block_list(&p.page_blocks),
            caption: p.caption.clone() },
        ),
        PageBlock::PageBlockSlideshow(
            p) => PageBlock::PageBlockSlideshow(PageBlockSlideshow { page_blocks: clone_page_block_list(&p.page_blocks),
            caption: p.caption.clone() },
        ),
        PageBlock::PageBlockChatLink(p) => PageBlock::PageBlockChatLink(p.clone()),
        PageBlock::PageBlockTable(p) => PageBlock::PageBlockTable(p.clone()),
        PageBlock::PageBlockDetails(
            p) => PageBlock::PageBlockDetails(PageBlockDetails { header: p.header.clone(),
            page_blocks: clone_page_block_list(&p.page_blocks),
            is_open: p.is_open.clone() },
        ),
        PageBlock::PageBlockRelatedArticles(p) => PageBlock::PageBlockRelatedArticles(p.clone()),
        PageBlock::PageBlockMap(p) => PageBlock::PageBlockMap(p.clone()),
    }
}

fn clone_page_block_list(items: &Vec<PageBlock>) -> Vec<PageBlock>
    decreases items,
{
    let mut out: Vec<PageBlock> = Vec::new();
    let mut i: usize = 0;
    while i < items.len()
        invariant
            i <= items.len(),
        decreases items.len() - i,
    {
        assert(decreases_to!(items => items[i as int]));
        out.push(clone_page_block(&items[i]));
        i += 1;
    }
    out
}

fn clone_page_block_list_item(x: &PageBlockListItem) -> PageBlockListItem
    decreases x,
{
    PageBlockListItem { label: x.label.clone(), page_blocks: clone_page_block_list(&x.page_blocks) }
}

fn clone_page_block_list_item_list(items: &Vec<PageBlockListItem>) -> Vec<PageBlockListItem>
    decreases items,
{
    let mut out: Vec<PageBlockListItem> = Vec::new();
    let mut i: usize = 0;
    while i < items.len()
        invariant
            i <= items.len(),
        decreases items.len() - i,
    {
        assert(decreases_to!(items => items[i as int]));
        out.push(clone_page_block_list_item(&items[i]));
        i += 1;
    }
    out
}

impl Clone for PageBlock {
    fn clone(&self) -> Self {
        clone_page_block(self)
    }
}

impl Wire for PageBlock {
    open spec fn wire(&self) -> Doc {
        page_block_doc(*self)
    }

    open spec fn parse(d: Doc, at: Seq<char>) -> Result<Doc, Fault> {
        page_block_parse(d, at)
    }

    fn encode(&self) -> (j: Json) {
        encode_page_block(self)
    }

    fn decode(j: &Json, at: &str) -> (r: Result<Self, DecodeError>) {
        decode_page_block(j, at)
    }

    proof fn round_trip(&self, at: Seq<char>) {
        lemma_page_block_round_trip(*self, at);
    }
}

impl Tagged for PageBlock {
    open spec fn known(tag: Seq<char>) -> bool {
        ||| tag == "pageBlockTitle"@
        ||| tag == "pageBlockSubtitle"@
        ||| tag == "pageBlockAuthorDate"@
        ||| tag == "pageBlockHeader"@
        ||| tag == "pageBlockSubheader"@
        ||| tag == "pageBlockKicker"@
        ||| tag == "pageBlockParagraph"@
        ||| tag == "pageBlockPreformatted"@
        ||| tag == "pageBlockFooter"@
        ||| tag == "pageBlockDivider"@
        ||| tag == "pageBlockAnchor"@
        ||| tag == "pageBlockList"@
        ||| tag == "pageBlockBlockQuote"@
        ||| tag == "pageBlockPullQuote"@
        ||| tag == "pageBlockAnimation"@
        ||| tag == "pageBlockAudio"@
        ||| tag == "pageBlockPhoto"@
        ||| tag == "pageBlockVideo"@
        ||| tag == "pageBlockVoiceNote"@
        ||| tag == "pageBlockCover"@
        ||| tag == "pageBlockEmbedded"@
        ||| tag == "pageBlockEmbeddedPost"@
        ||| tag == "pageBlockCollage"@
        ||| tag == "pageBlockSlideshow"@
        ||| tag == "pageBlockChatLink"@
        ||| tag == "pageBlockTable"@
        ||| tag == "pageBlockDetails"@
        ||| tag == "pageBlockRelatedArticles"@
        ||| tag == "pageBlockMap"@
    }

    fn knows(tag: &str) -> (r: bool) {
        same_text(tag, "pageBlockTitle")
            || same_text(tag, "pageBlockSubtitle")
            || same_text(tag, "pageBlockAuthorDate")
            || same_text(tag, "pageBlockHeader")
            || same_text(tag, "pageBlockSubheader")
            || same_text(tag, "pageBlockKicker")
            || same_text(tag, "pageBlockParagraph")
            || same_text(tag, "pageBlockPreformatted")
            || same_text(tag, "pageBlockFooter")
            || same_text(tag, "pageBlockDivider")
            || same_text(tag, "pageBlockAnchor")
            || same_text(tag, "pageBlockList")
            || same_text(tag, "pageBlockBlockQuote")
            || same_text(tag, "pageBlockPullQuote")
            || same_text(tag, "pageBlockAnimation")
            || same_text(tag, "pageBlockAudio")
            || same_text(tag, "pageBlockPhoto")
            || same_text(tag, "pageBlockVideo")
            || same_text(tag, "pageBlockVoiceNote")
            || same_text(tag, "pageBlockCover")
            || same_text(tag, "pageBlockEmbedded")
            || same_text(tag, "pageBlockEmbeddedPost")
            || same_text(tag, "pageBlockCollage")
            || same_text(tag, "pageBlockSlideshow")
            || same_text(tag, "pageBlockChatLink")
            || same_text(tag, "pageBlockTable")
            || same_text(tag, "pageBlockDetails")
            || same_text(tag, "pageBlockRelatedArticles")
            || same_text(tag, "pageBlockMap")
    }

    proof fn tag_known(&self) {
        match self {
            Self::PageBlockTitle(p) => p.tag_known(),
            Self::PageBlockSubtitle(p) => p.tag_known(),
            Self::PageBlockAuthorDate(p) => p.tag_known(),
            Self::PageBlockHeader(p) => p.tag_known(),
            Self::PageBlockSubheader(p) => p.tag_known(),
            Self::PageBlockKicker(p) => p.tag_known(),
            Self::PageBlockParagraph(p) => p.tag_known(),
            Self::PageBlockPreformatted(p) => p.tag_known(),
            Self::PageBlockFooter(p) => p.tag_known(),
            Self::PageBlockDivider(p) => p.tag_known(),
            Self::PageBlockAnchor(p) => p.tag_known(),
            Self::PageBlockList(p) => {
                assert(tag_of(self.wire()) == Some("pageBlockList"@));
                assert(Self::known("pageBlockList"@));
            },
            Self::PageBlockBlockQuote(p) => p.tag_known(),
            Self::PageBlockPullQuote(p) => p.tag_known(),
            Self::PageBlockAnimation(p) => p.tag_known(),
            Self::PageBlockAudio(p) => p.tag_known(),
            Self::PageBlockPhoto(p) => p.tag_known(),
            Self::PageBlockVideo(p) => p.tag_known(),
            Self::PageBlockVoiceNote(p) => p.tag_known(),
            Self::PageBlockCover(p) => {
                assert(tag_of(self.wire()) == Some("pageBlockCover"@));
                assert(Self::known("pageBlockCover"@));
            },
            Self::PageBlockEmbedded(p) => p.tag_known(),
            Self::PageBlockEmbeddedPost(p) => {
                assert(tag_of(self.wire()) == Some("pageBlockEmbeddedPost"@));
                assert(Self::known("pageBlockEmbeddedPost"@));
            },
            Self::PageBlockCollage(p) => {
                assert(tag_of(self.wire()) == Some("pageBlockCollage"@));
                assert(Self::known("pageBlockCollage"@));
            },
            Self::PageBlockSlideshow(p) => {
                assert(tag_of(self.wire()) == Some("pageBlockSlideshow"@));
                assert(Self::known("pageBlockSlideshow"@));
            },
            Self::PageBlockChatLink(p) => p.tag_known(),
            Self::PageBlockTable(p) => p.tag_known(),
            Self::PageBlockDetails(p) => {
                assert(tag_of(self.wire()) == Some("pageBlockDetails"@));
                assert(Self::known("pageBlockDetails"@));
            },
            Self::PageBlockRelatedArticles(p) => p.tag_known(),
            Self::PageBlockMap(p) => p.tag_known(),
        }
    }
}

impl Union for PageBlock {
    proof fn unknown_rejected(d: Doc, at: Seq<char>) {
    }

    proof fn untagged_rejected(d: Doc, at: Seq<char>) {
    }
}

/// The document of a `PageBlockListItem` is the one that its own codec writes.
pub proof fn lemma_page_block_list_item_doc_is_wire(x: PageBlockListItem)
    ensures
        page_block_list_item_doc(x) == x.wire(),
{
    reveal(<PageBlockListItem as Wire>::wire);
    lemma_page_block_docs_are_wire(x.page_blocks@);
}

/// A `PageBlockListItem` is decoded as its own codec decodes it.
pub proof fn lemma_page_block_list_item_parse_is_generic(d: Doc, at: Seq<char>)
    ensures
        page_block_list_item_parse(d, at) == PageBlockListItem::parse(d, at),
{
    reveal(<PageBlockListItem as Wire>::parse);
    if d is Object && d->Object_0.contains_key("pageBlocks"@) {
        if let Doc::List(items) = d->Object_0["pageBlocks"@] {
            lemma_page_block_list_parse_is_generic(items, "pageBlocks"@);
        }
    }
}

pub proof fn lemma_page_block_docs_are_wire(items: Seq<PageBlock>)
    ensures
        page_block_docs(items) == wire_items::<PageBlock>(items),
{
    assert(page_block_docs(items) =~= wire_items::<PageBlock>(items));
}

pub proof fn lemma_page_block_list_parse_is_generic(items: Seq<Doc>, at: Seq<char>)
    ensures
        page_block_list_parse(items, at) == parse_items::<PageBlock>(items, at),
    decreases items.len(),
{
    if items.len() > 0 {
        lemma_page_block_list_parse_is_generic(items.drop_last(), at);
    }
}

pub proof fn lemma_page_block_list_item_docs_are_wire(items: Seq<PageBlockListItem>)
    ensures
        page_block_list_item_docs(items) == wire_items::<PageBlockListItem>(items),
{
    assert forall|i: int| 0 <= i < items.len() implies page_block_list_item_doc(items[i]) == items[i].wire() by {
        lemma_page_block_list_item_doc_is_wire(items[i]);
    }
    assert(page_block_list_item_docs(items) =~= wire_items::<PageBlockListItem>(items));
}

pub proof fn lemma_page_block_list_item_list_parse_is_generic(items: Seq<Doc>, at: Seq<char>)
    ensures
        page_block_list_item_list_parse(items, at) == parse_items::<PageBlockListItem>(items, at),
    decreases items.len(),
{
    if items.len() > 0 {
        lemma_page_block_list_item_list_parse_is_generic(items.drop_last(), at);
        lemma_page_block_list_item_parse_is_generic(items.last(), at);
    }
}

impl PageBlock {
    /// A document tagged `pageBlockList` decodes as a `PageBlockList`.
    pub proof fn selects_page_block_list(d: Doc, at: Seq<char>)
        requires
            tag_of(d) == Some("pageBlockList"@),
        ensures
            Self::parse(d, at) == PageBlockList::parse(d, at),
    {
        reveal(<PageBlockList as Wire>::parse);
        reveal_strlit("pageBlockAnchor");
        reveal_strlit("pageBlockAnimation");
        reveal_strlit("pageBlockAudio");
        reveal_strlit("pageBlockAuthorDate");
        reveal_strlit("pageBlockBlockQuote");
        reveal_strlit("pageBlockChatLink");
        reveal_strlit("pageBlockCollage");
        reveal_strlit("pageBlockCover");
        reveal_strlit("pageBlockDetails");
        reveal_strlit("pageBlockDivider");
        reveal_strlit("pageBlockEmbedded");
        reveal_strlit("pageBlockEmbeddedPost");
        reveal_strlit("pageBlockFooter");
        reveal_strlit("pageBlockHeader");
        reveal_strlit("pageBlockKicker");
        reveal_strlit("pageBlockList");
        reveal_strlit("pageBlockMap");
        reveal_strlit("pageBlockParagraph");
        reveal_strlit("pageBlockPhoto");
        reveal_strlit("pageBlockPreformatted");
        reveal_strlit("pageBlockPullQuote");
        reveal_strlit("pageBlockRelatedArticles");
        reveal_strlit("pageBlockSlideshow");
        reveal_strlit("pageBlockSubheader");
        reveal_strlit("pageBlockSubtitle");
        reveal_strlit("pageBlockTable");
        reveal_strlit("pageBlockTitle");
        reveal_strlit("pageBlockVideo");
        reveal_strlit("pageBlockVoiceNote");
        assert("pageBlockAnchor"@.len() == 15 && "pageBlockAnchor"@[9] == 'A');
        assert("pageBlockAnimation"@.len() == 18 && "pageBlockAnimation"@[12] == 'm');
        assert({
            &&& "pageBlockAudio"@.len() == 14
            &&& "pageBlockAudio"@[9] == 'A'
            &&& "pageBlockAudio"@[10] == 'u'
        });
        assert("pageBlockAuthorDate"@.len() == 19 && "pageBlockAuthorDate"@[9] == 'A');
        assert("pageBlockBlockQuote"@.len() == 19 && "pageBlockBlockQuote"@[9] == 'B');
        assert("pageBlockChatLink"@.len() == 17 && "pageBlockChatLink"@[9] == 'C');
        assert("pageBlockCollage"@.len() == 16 && "pageBlockCollage"@[10] == 'o');
        assert({
            &&& "pageBlockCover"@.len() == 14
            &&& "pageBlockCover"@[9] == 'C'
            &&& "pageBlockCover"@[10] == 'o'
        });
        assert("pageBlockDetails"@.len() == 16 && "pageBlockDetails"@[10] == 'e');
        assert("pageBlockDivider"@.len() == 16 && "pageBlockDivider"@[10] == 'i');
        assert("pageBlockEmbedded"@.len() == 17 && "pageBlockEmbedded"@[9] == 'E');
        assert("pageBlockEmbeddedPost"@.len() == 21 && "pageBlockEmbeddedPost"@[9] == 'E');
        assert("pageBlockFooter"@.len() == 15 && "pageBlockFooter"@[9] == 'F');
        assert("pageBlockHeader"@.len() == 15 && "pageBlockHeader"@[9] == 'H');
        assert("pageBlockKicker"@.len() == 15 && "pageBlockKicker"@[9] == 'K');
        assert("pageBlockList"@.len() == 13);
        assert("pageBlockMap"@.len() == 12);
        assert("pageBlockParagraph"@.len() == 18 && "pageBlockParagraph"@[12] == 'a');
        assert({
            &&& "pageBlockPhoto"@.len() == 14
            &&& "pageBlockPhoto"@[9] == 'P'
            &&& "pageBlockPhoto"@[10] == 'h'
        });
        assert("pageBlockPreformatted"@.len() == 21 && "pageBlockPreformatted"@[9] == 'P');
        assert("pageBlockPullQuote"@.len() == 18 && "pageBlockPullQuote"@[12] == 'l');
        assert("pageBlockRelatedArticles"@.len() == 24);
        assert("pageBlockSlideshow"@.len() == 18 && "pageBlockSlideshow"@[12] == 'd');
        assert("pageBlockSubheader"@.len() == 18 && "pageBlockSubheader"@[12] == 'h');
        assert("pageBlockSubtitle"@.len() == 17 && "pageBlockSubtitle"@[9] == 'S');
        assert({
            &&& "pageBlockTable"@.len() == 14
            &&& "pageBlockTable"@[9] == 'T'
            &&& "pageBlockTable"@[10] == 'a'
        });
        assert({
            &&& "pageBlockTitle"@.len() == 14
            &&& "pageBlockTitle"@[9] == 'T'
            &&& "pageBlockTitle"@[10] == 'i'
        });
        assert({
            &&& "pageBlockVideo"@.len() == 14
            &&& "pageBlockVideo"@[9] == 'V'
            &&& "pageBlockVideo"@[10] == 'i'
        });
        assert("pageBlockVoiceNote"@.len() == 18 && "pageBlockVoiceNote"@[12] == 'c');
        if d is Object && d->Object_0.contains_key("items"@) {
            if let Doc::List(items) = d->Object_0["items"@] {
                lemma_page_block_list_item_list_parse_is_generic(items, "items"@);
            }
        }
    }

    /// The union writes a `PageBlockList` as the `PageBlockList` writes itself.
    pub proof fn writes_page_block_list(p: PageBlockList)
        ensures
            Self::PageBlockList(p).wire() == p.wire(),
    {
        reveal(<PageBlockList as Wire>::wire);
        lemma_page_block_list_item_docs_are_wire(p.items@);
    }

    /// A document tagged `pageBlockCover` decodes as a `PageBlockCover`.
    pub proof fn selects_page_block_cover(d: Doc, at: Seq<char>)
        requires
            tag_of(d) == Some("pageBlockCover"@),
        ensures
            Self::parse(d, at) == PageBlockCover::parse(d, at),
    {
        reveal(<PageBlockCover as Wire>::parse);
        reveal_strlit("pageBlockAnchor");
        reveal_strlit("pageBlockAnimation");
        reveal_strlit("pageBlockAudio");
        reveal_strlit("pageBlockAuthorDate");
        reveal_strlit("pageBlockBlockQuote");
        reveal_strlit("pageBlockChatLink");
        reveal_strlit("pageBlockCollage");
        reveal_strlit("pageBlockCover");
        reveal_strlit("pageBlockDetails");
        reveal_strlit("pageBlockDivider");
        reveal_strlit("pageBlockEmbedded");
        reveal_strlit("pageBlockEmbeddedPost");
        reveal_strlit("pageBlockFooter");
        reveal_strlit("pageBlockHeader");
        reveal_strlit("pageBlockKicker");
        reveal_strlit("pageBlockList");
        reveal_strlit("pageBlockMap");
        reveal_strlit("pageBlockParagraph");
        reveal_strlit("pageBlockPhoto");
        reveal_strlit("pageBlockPreformatted");
        reveal_strlit("pageBlockPullQuote");
        reveal_strlit("pageBlockRelatedArticles");
        reveal_strlit("pageBlockSlideshow");
        reveal_strlit("pageBlockSubheader");
        reveal_strlit("pageBlockSubtitle");
        reveal_strlit("pageBlockTable");
        reveal_strlit("pageBlockTitle");
        reveal_strlit("pageBlockVideo");
        reveal_strlit("pageBlockVoiceNote");
        assert("pageBlockAnchor"@.len() == 15 && "pageBlockAnchor"@[9] == 'A');
        assert("pageBlockAnimation"@.len() == 18 && "pageBlockAnimation"@[12] == 'm');
        assert({
            &&& "pageBlockAudio"@.len() == 14
            &&& "pageBlockAudio"@[9] == 'A'
            &&& "pageBlockAudio"@[10] == 'u'
        });
        assert("pageBlockAuthorDate"@.len() == 19 && "pageBlockAuthorDate"@[9] == 'A');
        assert("pageBlockBlockQuote"@.len() == 19 && "pageBlockBlockQuote"@[9] == 'B');
        assert("pageBlockChatLink"@.len() == 17 && "pageBlockChatLink"@[9] == 'C');
        assert("pageBlockCollage"@.len() == 16 && "pageBlockCollage"@[10] == 'o');
        assert({
            &&& "pageBlockCover"@.len() == 14
            &&& "pageBlockCover"@[9] == 'C'
            &&& "pageBlockCover"@[10] == 'o'
        });
        assert("pageBlockDetails"@.len() == 16 && "pageBlockDetails"@[10] == 'e');
        assert("pageBlockDivider"@.len() == 16 && "pageBlockDivider"@[10] == 'i');
        assert("pageBlockEmbedded"@.len() == 17 && "pageBlockEmbedded"@[9] == 'E');
        assert("pageBlockEmbeddedPost"@.len() == 21 && "pageBlockEmbeddedPost"@[9] == 'E');
        assert("pageBlockFooter"@.len() == 15 && "pageBlockFooter"@[9] == 'F');
        assert("pageBlockHeader"@.len() == 15 && "pageBlockHeader"@[9] == 'H');
        assert("pageBlockKicker"@.len() == 15 && "pageBlockKicker"@[9] == 'K');
        assert("pageBlockList"@.len() == 13);
        assert("pageBlockMap"@.len() == 12);
        assert("pageBlockParagraph"@.len() == 18 && "pageBlockParagraph"@[12] == 'a');
        assert({
            &&& "pageBlockPhoto"@.len() == 14
            &&& "pageBlockPhoto"@[9] == 'P'
            &&& "pageBlockPhoto"@[10] == 'h'
        });
        assert("pageBlockPreformatted"@.len() == 21 && "pageBlockPreformatted"@[9] == 'P');
        assert("pageBlockPullQuote"@.len() == 18 && "pageBlockPullQuote"@[12] == 'l');
        assert("pageBlockRelatedArticles"@.len() == 24);
        assert("pageBlockSlideshow"@.len() == 18 && "pageBlockSlideshow"@[12] == 'd');
        assert("pageBlockSubheader"@.len() == 18 && "pageBlockSubheader"@[12] == 'h');
        assert("pageBlockSubtitle"@.len() == 17 && "pageBlockSubtitle"@[9] == 'S');
        assert({
            &&& "pageBlockTable"@.len() == 14
            &&& "pageBlockTable"@[9] == 'T'
            &&& "pageBlockTable"@[10] == 'a'
        });
        assert({
            &&& "pageBlockTitle"@.len() == 14
            &&& "pageBlockTitle"@[9] == 'T'
            &&& "pageBlockTitle"@[10] == 'i'
        });
        assert({
            &&& "pageBlockVideo"@.len() == 14
            &&& "pageBlockVideo"@[9] == 'V'
            &&& "pageBlockVideo"@[10] == 'i'
        });
        assert("pageBlockVoiceNote"@.len() == 18 && "pageBlockVoiceNote"@[12] == 'c');
    }

    /// The union writes a `PageBlockCover` as the `PageBlockCover` writes itself.
    pub proof fn writes_page_block_cover(p: PageBlockCover)
        ensures
            Self::PageBlockCover(p).wire() == p.wire(),
    {
        reveal(<PageBlockCover as Wire>::wire);
    }

    /// A document tagged `pageBlockEmbeddedPost` decodes as a `PageBlockEmbeddedPost`.
    pub proof fn selects_page_block_embedded_post(d: Doc, at: Seq<char>)
        requires
            tag_of(d) == Some("pageBlockEmbeddedPost"@),
        ensures
            Self::parse(d, at) == PageBlockEmbeddedPost::parse(d, at),
    {
        reveal(<PageBlockEmbeddedPost as Wire>::parse);
        reveal_strlit("pageBlockAnchor");
        reveal_strlit("pageBlockAnimation");
        reveal_strlit("pageBlockAudio");
        reveal_strlit("pageBlockAuthorDate");
        reveal_strlit("pageBlockBlockQuote");
        reveal_strlit("pageBlockChatLink");
        reveal_strlit("pageBlockCollage");
        reveal_strlit("pageBlockCover");
        reveal_strlit("pageBlockDetails");
        reveal_strlit("pageBlockDivider");
        reveal_strlit("pageBlockEmbedded");
        reveal_strlit("pageBlockEmbeddedPost");
        reveal_strlit("pageBlockFooter");
        reveal_strlit("pageBlockHeader");
        reveal_strlit("pageBlockKicker");
        reveal_strlit("pageBlockList");
        reveal_strlit("pageBlockMap");
        reveal_strlit("pageBlockParagraph");
        reveal_strlit("pageBlockPhoto");
        reveal_strlit("pageBlockPreformatted");
        reveal_strlit("pageBlockPullQuote");
        reveal_strlit("pageBlockRelatedArticles");
        reveal_strlit("pageBlockSlideshow");
        reveal_strlit("pageBlockSubheader");
        reveal_strlit("pageBlockSubtitle");
        reveal_strlit("pageBlockTable");
        reveal_strlit("pageBlockTitle");
        reveal_strlit("pageBlockVideo");
        reveal_strlit("pageBlockVoiceNote");
        assert("pageBlockAnchor"@.len() == 15 && "pageBlockAnchor"@[9] == 'A');
        assert("pageBlockAnimation"@.len() == 18 && "pageBlockAnimation"@[12] == 'm');
        assert({
            &&& "pageBlockAudio"@.len() == 14
            &&& "pageBlockAudio"@[9] == 'A'
            &&& "pageBlockAudio"@[10] == 'u'
        });
        assert("pageBlockAuthorDate"@.len() == 19 && "pageBlockAuthorDate"@[9] == 'A');
        assert("pageBlockBlockQuote"@.len() == 19 && "pageBlockBlockQuote"@[9] == 'B');
        assert("pageBlockChatLink"@.len() == 17 && "pageBlockChatLink"@[9] == 'C');
        assert("pageBlockCollage"@.len() == 16 && "pageBlockCollage"@[10] == 'o');
        assert({
            &&& "pageBlockCover"@.len() == 14
            &&& "pageBlockCover"@[9] == 'C'
            &&& "pageBlockCover"@[10] == 'o'
        });
        assert("pageBlockDetails"@.len() == 16 && "pageBlockDetails"@[10] == 'e');
        assert("pageBlockDivider"@.len() == 16 && "pageBlockDivider"@[10] == 'i');
        assert("pageBlockEmbedded"@.len() == 17 && "pageBlockEmbedded"@[9] == 'E');
        assert("pageBlockEmbeddedPost"@.len() == 21 && "pageBlockEmbeddedPost"@[9] == 'E');
        assert("pageBlockFooter"@.len() == 15 && "pageBlockFooter"@[9] == 'F');
        assert("pageBlockHeader"@.len() == 15 && "pageBlockHeader"@[9] == 'H');
        assert("pageBlockKicker"@.len() == 15 && "pageBlockKicker"@[9] == 'K');
        assert("pageBlockList"@.len() == 13);
        assert("pageBlockMap"@.len() == 12);
        assert("pageBlockParagraph"@.len() == 18 && "pageBlockParagraph"@[12] == 'a');
        assert({
            &&& "pageBlockPhoto"@.len() == 14
            &&& "pageBlockPhoto"@[9] == 'P'
            &&& "pageBlockPhoto"@[10] == 'h'
        });
        assert("pageBlockPreformatted"@.len() == 21 && "pageBlockPreformatted"@[9] == 'P');
        assert("pageBlockPullQuote"@.len() == 18 && "pageBlockPullQuote"@[12] == 'l');
        assert("pageBlockRelatedArticles"@.len() == 24);
        assert("pageBlockSlideshow"@.len() == 18 && "pageBlockSlideshow"@[12] == 'd');
        assert("pageBlockSubheader"@.len() == 18 && "pageBlockSubheader"@[12] == 'h');
        assert("pageBlockSubtitle"@.len() == 17 && "pageBlockSubtitle"@[9] == 'S');
        assert({
            &&& "pageBlockTable"@.len() == 14
            &&& "pageBlockTable"@[9] == 'T'
            &&& "pageBlockTable"@[10] == 'a'
        });
        assert({
            &&& "pageBlockTitle"@.len() == 14
            &&& "pageBlockTitle"@[9] == 'T'
            &&& "pageBlockTitle"@[10] == 'i'
        });
        assert({
            &&& "pageBlockVideo"@.len() == 14
            &&& "pageBlockVideo"@[9] == 'V'
            &&& "pageBlockVideo"@[10] == 'i'
        });
        assert("pageBlockVoiceNote"@.len() == 18 && "pageBlockVoiceNote"@[12] == 'c');
        if d is Object && d->Object_0.contains_key("pageBlocks"@) {
            if let Doc::List(items) = d->Object_0["pageBlocks"@] {
                lemma_page_block_list_parse_is_generic(items, "pageBlocks"@);
            }
        }
    }

    /// The union writes a `PageBlockEmbeddedPost` as the `PageBlockEmbeddedPost` writes itself.
    pub proof fn writes_page_block_embedded_post(p: PageBlockEmbeddedPost)
        ensures
            Self::PageBlockEmbeddedPost(p).wire() == p.wire(),
    {
        reveal(<PageBlockEmbeddedPost as Wire>::wire);
        lemma_page_block_docs_are_wire(p.page_blocks@);
    }

    /// A document tagged `pageBlockCollage` decodes as a `PageBlockCollage`.
    pub proof fn selects_page_block_collage(d: Doc, at: Seq<char>)
        requires
            tag_of(d) == Some("pageBlockCollage"@),
        ensures
            Self::parse(d, at) == PageBlockCollage::parse(d, at),
    {
        reveal(<PageBlockCollage as Wire>::parse);
        reveal_strlit("pageBlockAnchor");
        reveal_strlit("pageBlockAnimation");
        reveal_strlit("pageBlockAudio");
        reveal_strlit("pageBlockAuthorDate");
        reveal_strlit("pageBlockBlockQuote");
        reveal_strlit("pageBlockChatLink");
        reveal_strlit("pageBlockCollage");
        reveal_strlit("pageBlockCover");
        reveal_strlit("pageBlockDetails");
        reveal_strlit("pageBlockDivider");
        reveal_strlit("pageBlockEmbedded");
        reveal_strlit("pageBlockEmbeddedPost");
        reveal_strlit("pageBlockFooter");
        reveal_strlit("pageBlockHeader");
        reveal_strlit("pageBlockKicker");
        reveal_strlit("pageBlockList");
        reveal_strlit("pageBlockMap");
        reveal_strlit("pageBlockParagraph");
        reveal_strlit("pageBlockPhoto");
        reveal_strlit("pageBlockPreformatted");
        reveal_strlit("pageBlockPullQuote");
        reveal_strlit("pageBlockRelatedArticles");
        reveal_strlit("pageBlockSlideshow");
        reveal_strlit("pageBlockSubheader");
        reveal_strlit("pageBlockSubtitle");
        reveal_strlit("pageBlockTable");
        reveal_strlit("pageBlockTitle");
        reveal_strlit("pageBlockVideo");
        reveal_strlit("pageBlockVoiceNote");
        assert("pageBlockAnchor"@.len() == 15 && "pageBlockAnchor"@[9] == 'A');
        assert("pageBlockAnimation"@.len() == 18 && "pageBlockAnimation"@[12] == 'm');
        assert({
            &&& "pageBlockAudio"@.len() == 14
            &&& "pageBlockAudio"@[9] == 'A'
            &&& "pageBlockAudio"@[10] == 'u'
        });
        assert("pageBlockAuthorDate"@.len() == 19 && "pageBlockAuthorDate"@[9] == 'A');
        assert("pageBlockBlockQuote"@.len() == 19 && "pageBlockBlockQuote"@[9] == 'B');
        assert("pageBlockChatLink"@.len() == 17 && "pageBlockChatLink"@[9] == 'C');
        assert("pageBlockCollage"@.len() == 16 && "pageBlockCollage"@[10] == 'o');
        assert({
            &&& "pageBlockCover"@.len() == 14
            &&& "pageBlockCover"@[9] == 'C'
            &&& "pageBlockCover"@[10] == 'o'
        });
        assert("pageBlockDetails"@.len() == 16 && "pageBlockDetails"@[10] == 'e');
        assert("pageBlockDivider"@.len() == 16 && "pageBlockDivider"@[10] == 'i');
        assert("pageBlockEmbedded"@.len() == 17 && "pageBlockEmbedded"@[9] == 'E');
        assert("pageBlockEmbeddedPost"@.len() == 21 && "pageBlockEmbeddedPost"@[9] == 'E');
        assert("pageBlockFooter"@.len() == 15 && "pageBlockFooter"@[9] == 'F');
        assert("pageBlockHeader"@.len() == 15 && "pageBlockHeader"@[9] == 'H');
        assert("pageBlockKicker"@.len() == 15 && "pageBlockKicker"@[9] == 'K');
        assert("pageBlockList"@.len() == 13);
        assert("pageBlockMap"@.len() == 12);
        assert("pageBlockParagraph"@.len() == 18 && "pageBlockParagraph"@[12] == 'a');
        assert({
            &&& "pageBlockPhoto"@.len() == 14
            &&& "pageBlockPhoto"@[9] == 'P'
            &&& "pageBlockPhoto"@[10] == 'h'
        });
        assert("pageBlockPreformatted"@.len() == 21 && "pageBlockPreformatted"@[9] == 'P');
        assert("pageBlockPullQuote"@.len() == 18 && "pageBlockPullQuote"@[12] == 'l');
        assert("pageBlockRelatedArticles"@.len() == 24);
        assert("pageBlockSlideshow"@.len() == 18 && "pageBlockSlideshow"@[12] == 'd');
        assert("pageBlockSubheader"@.len() == 18 && "pageBlockSubheader"@[12] == 'h');
        assert("pageBlockSubtitle"@.len() == 17 && "pageBlockSubtitle"@[9] == 'S');
        assert({
            &&& "pageBlockTable"@.len() == 14
            &&& "pageBlockTable"@[9] == 'T'
            &&& "pageBlockTable"@[10] == 'a'
        });
        assert({
            &&& "pageBlockTitle"@.len() == 14
            &&& "pageBlockTitle"@[9] == 'T'
            &&& "pageBlockTitle"@[10] == 'i'
        });
        assert({
            &&& "pageBlockVideo"@.len() == 14
            &&& "pageBlockVideo"@[9] == 'V'
            &&& "pageBlockVideo"@[10] == 'i'
        });
        assert("pageBlockVoiceNote"@.len() == 18 && "pageBlockVoiceNote"@[12] == 'c');
        if d is Object && d->Object_0.contains_key("pageBlocks"@) {
            if let Doc::List(items) = d->Object_0["pageBlocks"@] {
                lemma_page_block_list_parse_is_generic(items, "pageBlocks"@);
            }
        }
    }

    /// The union writes a `PageBlockCollage` as the `PageBlockCollage` writes itself.
    pub proof fn writes_page_block_collage(p: PageBlockCollage)
        ensures
            Self::PageBlockCollage(p).wire() == p.wire(),
    {
        reveal(<PageBlockCollage as Wire>::wire);
        lemma_page_block_docs_are_wire(p.page_blocks@);
    }

    /// A document tagged `pageBlockSlideshow` decodes as a `PageBlockSlideshow`.
    pub proof fn selects_page_block_slideshow(d: Doc, at: Seq<char>)
        requires
            tag_of(d) == Some("pageBlockSlideshow"@),
        ensures
            Self::parse(d, at) == PageBlockSlideshow::parse(d, at),
    {
        reveal(<PageBlockSlideshow as Wire>::parse);
        reveal_strlit("pageBlockAnchor");
        reveal_strlit("pageBlockAnimation");
        reveal_strlit("pageBlockAudio");
        reveal_strlit("pageBlockAuthorDate");
        reveal_strlit("pageBlockBlockQuote");
        reveal_strlit("pageBlockChatLink");
        reveal_strlit("pageBlockCollage");
        reveal_strlit("pageBlockCover");
        reveal_strlit("pageBlockDetails");
        reveal_strlit("pageBlockDivider");
        reveal_strlit("pageBlockEmbedded");
        reveal_strlit("pageBlockEmbeddedPost");
        reveal_strlit("pageBlockFooter");
        reveal_strlit("pageBlockHeader");
        reveal_strlit("pageBlockKicker");
        reveal_strlit("pageBlockList");
        reveal_strlit("pageBlockMap");
        reveal_strlit("pageBlockParagraph");
        reveal_strlit("pageBlockPhoto");
        reveal_strlit("pageBlockPreformatted");
        reveal_strlit("pageBlockPullQuote");
        reveal_strlit("pageBlockRelatedArticles");
        reveal_strlit("pageBlockSlideshow");
        reveal_strlit("pageBlockSubheader");
        reveal_strlit("pageBlockSubtitle");
        reveal_strlit("pageBlockTable");
        reveal_strlit("pageBlockTitle");
        reveal_strlit("pageBlockVideo");
        reveal_strlit("pageBlockVoiceNote");
        assert("pageBlockAnchor"@.len() == 15 && "pageBlockAnchor"@[9] == 'A');
        assert("pageBlockAnimation"@.len() == 18 && "pageBlockAnimation"@[12] == 'm');
        assert({
            &&& "pageBlockAudio"@.len() == 14
            &&& "pageBlockAudio"@[9] == 'A'
            &&& "pageBlockAudio"@[10] == 'u'
        });
        assert("pageBlockAuthorDate"@.len() == 19 && "pageBlockAuthorDate"@[9] == 'A');
        assert("pageBlockBlockQuote"@.len() == 19 && "pageBlockBlockQuote"@[9] == 'B');
        assert("pageBlockChatLink"@.len() == 17 && "pageBlockChatLink"@[9] == 'C');
        assert("pageBlockCollage"@.len() == 16 && "pageBlockCollage"@[10] == 'o');
        assert({
            &&& "pageBlockCover"@.len() == 14
            &&& "pageBlockCover"@[9] == 'C'
            &&& "pageBlockCover"@[10] == 'o'
        });
        assert("pageBlockDetails"@.len() == 16 && "pageBlockDetails"@[10] == 'e');
        assert("pageBlockDivider"@.len() == 16 && "pageBlockDivider"@[10] == 'i');
        assert("pageBlockEmbedded"@.len() == 17 && "pageBlockEmbedded"@[9] == 'E');
        assert("pageBlockEmbeddedPost"@.len() == 21 && "pageBlockEmbeddedPost"@[9] == 'E');
        assert("pageBlockFooter"@.len() == 15 && "pageBlockFooter"@[9] == 'F');
        assert("pageBlockHeader"@.len() == 15 && "pageBlockHeader"@[9] == 'H');
        assert("pageBlockKicker"@.len() == 15 && "pageBlockKicker"@[9] == 'K');
        assert("pageBlockList"@.len() == 13);
        assert("pageBlockMap"@.len() == 12);
        assert("pageBlockParagraph"@.len() == 18 && "pageBlockParagraph"@[12] == 'a');
        assert({
            &&& "pageBlockPhoto"@.len() == 14
            &&& "pageBlockPhoto"@[9] == 'P'
            &&& "pageBlockPhoto"@[10] == 'h'
        });
        assert("pageBlockPreformatted"@.len() == 21 && "pageBlockPreformatted"@[9] == 'P');
        assert("pageBlockPullQuote"@.len() == 18 && "pageBlockPullQuote"@[12] == 'l');
        assert("pageBlockRelatedArticles"@.len() == 24);
        assert("pageBlockSlideshow"@.len() == 18 && "pageBlockSlideshow"@[12] == 'd');
        assert("pageBlockSubheader"@.len() == 18 && "pageBlockSubheader"@[12] == 'h');
        assert("pageBlockSubtitle"@.len() == 17 && "pageBlockSubtitle"@[9] == 'S');
        assert({
            &&& "pageBlockTable"@.len() == 14
            &&& "pageBlockTable"@[9] == 'T'
            &&& "pageBlockTable"@[10] == 'a'
        });
        assert({
            &&& "pageBlockTitle"@.len() == 14
            &&& "pageBlockTitle"@[9] == 'T'
            &&& "pageBlockTitle"@[10] == 'i'
        });
        assert({
            &&& "pageBlockVideo"@.len() == 14
            &&& "pageBlockVideo"@[9] == 'V'
            &&& "pageBlockVideo"@[10] == 'i'
        });
        assert("pageBlockVoiceNote"@.len() == 18 && "pageBlockVoiceNote"@[12] == 'c');
        if d is Object && d->Object_0.contains_key("pageBlocks"@) {
            if let Doc::List(items) = d->Object_0["pageBlocks"@] {
                lemma_page_block_list_parse_is_generic(items, "pageBlocks"@);
            }
        }
    }

    /// The union writes a `PageBlockSlideshow` as the `PageBlockSlideshow` writes itself.
    pub proof fn writes_page_block_slideshow(p: PageBlockSlideshow)
        ensures
            Self::PageBlockSlideshow(p).wire() == p.wire(),
    {
        reveal(<PageBlockSlideshow as Wire>::wire);
        lemma_page_block_docs_are_wire(p.page_blocks@);
    }

    /// A document tagged `pageBlockDetails` decodes as a `PageBlockDetails`.
    pub proof fn selects_page_block_details(d: Doc, at: Seq<char>)
        requires
            tag_of(d) == Some("pageBlockDetails"@),
        ensures
            Self::parse(d, at) == PageBlockDetails::parse(d, at),
    {
        reveal(<PageBlockDetails as Wire>::parse);
        reveal_strlit("pageBlockAnchor");
        reveal_strlit("pageBlockAnimation");
        reveal_strlit("pageBlockAudio");
        reveal_strlit("pageBlockAuthorDate");
        reveal_strlit("pageBlockBlockQuote");
        reveal_strlit("pageBlockChatLink");
        reveal_strlit("pageBlockCollage");
        reveal_strlit("pageBlockCover");
        reveal_strlit("pageBlockDetails");
        reveal_strlit("pageBlockDivider");
        reveal_strlit("pageBlockEmbedded");
        reveal_strlit("pageBlockEmbeddedPost");
        reveal_strlit("pageBlockFooter");
        reveal_strlit("pageBlockHeader");
        reveal_strlit("pageBlockKicker");
        reveal_strlit("pageBlockList");
        reveal_strlit("pageBlockMap");
        reveal_strlit("pageBlockParagraph");
        reveal_strlit("pageBlockPhoto");
        reveal_strlit("pageBlockPreformatted");
        reveal_strlit("pageBlockPullQuote");
        reveal_strlit("pageBlockRelatedArticles");
        reveal_strlit("pageBlockSlideshow");
        reveal_strlit("pageBlockSubheader");
        reveal_strlit("pageBlockSubtitle");
        reveal_strlit("pageBlockTable");
        reveal_strlit("pageBlockTitle");
        reveal_strlit("pageBlockVideo");
        reveal_strlit("pageBlockVoiceNote");
        assert("pageBlockAnchor"@.len() == 15 && "pageBlockAnchor"@[9] == 'A');
        assert("pageBlockAnimation"@.len() == 18 && "pageBlockAnimation"@[12] == 'm');
        assert({
            &&& "pageBlockAudio"@.len() == 14
            &&& "pageBlockAudio"@[9] == 'A'
            &&& "pageBlockAudio"@[10] == 'u'
        });
        assert("pageBlockAuthorDate"@.len() == 19 && "pageBlockAuthorDate"@[9] == 'A');
        assert("pageBlockBlockQuote"@.len() == 19 && "pageBlockBlockQuote"@[9] == 'B');
        assert("pageBlockChatLink"@.len() == 17 && "pageBlockChatLink"@[9] == 'C');
        assert("pageBlockCollage"@.len() == 16 && "pageBlockCollage"@[10] == 'o');
        assert({
            &&& "pageBlockCover"@.len() == 14
            &&& "pageBlockCover"@[9] == 'C'
            &&& "pageBlockCover"@[10] == 'o'
        });
        assert("pageBlockDetails"@.len() == 16 && "pageBlockDetails"@[10] == 'e');
        assert("pageBlockDivider"@.len() == 16 && "pageBlockDivider"@[10] == 'i');
        assert("pageBlockEmbedded"@.len() == 17 && "pageBlockEmbedded"@[9] == 'E');
        assert("pageBlockEmbeddedPost"@.len() == 21 && "pageBlockEmbeddedPost"@[9] == 'E');
        assert("pageBlockFooter"@.len() == 15 && "pageBlockFooter"@[9] == 'F');
        assert("pageBlockHeader"@.len() == 15 && "pageBlockHeader"@[9] == 'H');
        assert("pageBlockKicker"@.len() == 15 && "pageBlockKicker"@[9] == 'K');
        assert("pageBlockList"@.len() == 13);
        assert("pageBlockMap"@.len() == 12);
        assert("pageBlockParagraph"@.len() == 18 && "pageBlockParagraph"@[12] == 'a');
        assert({
            &&& "pageBlockPhoto"@.len() == 14
            &&& "pageBlockPhoto"@[9] == 'P'
            &&& "pageBlockPhoto"@[10] == 'h'
        });
        assert("pageBlockPreformatted"@.len() == 21 && "pageBlockPreformatted"@[9] == 'P');
        assert("pageBlockPullQuote"@.len() == 18 && "pageBlockPullQuote"@[12] == 'l');
        assert("pageBlockRelatedArticles"@.len() == 24);
        assert("pageBlockSlideshow"@.len() == 18 && "pageBlockSlideshow"@[12] == 'd');
        assert("pageBlockSubheader"@.len() == 18 && "pageBlockSubheader"@[12] == 'h');
        assert("pageBlockSubtitle"@.len() == 17 && "pageBlockSubtitle"@[9] == 'S');
        assert({
            &&& "pageBlockTable"@.len() == 14
            &&& "pageBlockTable"@[9] == 'T'
            &&& "pageBlockTable"@[10] == 'a'
        });
        assert({
            &&& "pageBlockTitle"@.len() == 14
            &&& "pageBlockTitle"@[9] == 'T'
            &&& "pageBlockTitle"@[10] == 'i'
        });
        assert({
            &&& "pageBlockVideo"@.len() == 14
            &&& "pageBlockVideo"@[9] == 'V'
            &&& "pageBlockVideo"@[10] == 'i'
        });
        assert("pageBlockVoiceNote"@.len() == 18 && "pageBlockVoiceNote"@[12] == 'c');
        if d is Object && d->Object_0.contains_key("pageBlocks"@) {
            if let Doc::List(items) = d->Object_0["pageBlocks"@] {
                lemma_page_block_list_parse_is_generic(items, "pageBlocks"@);
            }
        }
    }

    /// The union writes a `PageBlockDetails` as the `PageBlockDetails` writes itself.
    pub proof fn writes_page_block_details(p: PageBlockDetails)
        ensures
            Self::PageBlockDetails(p).wire() == p.wire(),
    {
        reveal(<PageBlockDetails as Wire>::wire);
        lemma_page_block_docs_are_wire(p.page_blocks@);
    }
}

/// Describes an instant view page for a web page
#[derive(Debug, Clone, PartialEq)]
pub struct WebPageInstantView {
    /// Content of the web page
    pub page_blocks: Vec<PageBlock>,
    /// Version of the instant view, currently can be 1 or 2
    pub version: i32,
    /// Instant view URL; may be different from WebPage.url and must be used for the correct anchors
    /// handling
    pub url: String,
    /// True, if the instant view must be shown from right to left
    pub is_rtl: bool,
    /// True, if the instant view contains the full page. A network request might be needed to get
    /// the full web page instant view
    pub is_full: bool,
}

impl Wire for WebPageInstantView {
    #[verifier::opaque]
    open spec fn wire(&self) -> Doc {
        tagged(
            Map::empty()
                .insert("pageBlocks"@, self.page_blocks.wire())
                .insert("version"@, self.version.wire())
                .insert("url"@, self.url.wire())
                .insert("isRtl"@, self.is_rtl.wire())
                .insert("isFull"@, self.is_full.wire()),
            "webPageInstantView"@,
        )
    }

    #[verifier::opaque]
    open spec fn parse(d: Doc, at: Seq<char>) -> Result<Doc, Fault> {
        match d {
            Doc::Object(m) => {
                let page_blocks = field::<Vec<PageBlock>>(m, "pageBlocks"@);
                let version = field::<i32>(m, "version"@);
                let url = field::<String>(m, "url"@);
                let is_rtl = field::<bool>(m, "isRtl"@);
                let is_full = field::<bool>(m, "isFull"@);
                if page_blocks is Err {
                    page_blocks
                } else if version is Err {
                    version
                } else if url is Err {
                    url
                } else if is_rtl is Err {
                    is_rtl
                } else if is_full is Err {
                    is_full
                } else {
                    Ok(
                        tagged(
                            Map::empty()
                                .insert("pageBlocks"@, page_blocks->Ok_0)
                                .insert("version"@, version->Ok_0)
                                .insert("url"@, url->Ok_0)
                                .insert("isRtl"@, is_rtl->Ok_0)
                                .insert("isFull"@, is_full->Ok_0),
                            "webPageInstantView"@,
                        ),
                    )
                }
            },
            _ => Err(Fault::TypeMismatch(at)),
        }
    }

    fn encode(&self) -> (j: Json) {
        proof {
            reveal(<WebPageInstantView as Wire>::wire);
        }
        let mut members: Vec<Member> = Vec::new();
        put(&mut members, "pageBlocks", self.page_blocks.encode());
        put(&mut members, "version", self.version.encode());
        put(&mut members, "url", self.url.encode());
        put(&mut members, "isRtl", self.is_rtl.encode());
        put(&mut members, "isFull", self.is_full.encode());
        seal(members, "webPageInstantView")
    }

    fn decode(j: &Json, at: &str) -> (r: Result<Self, DecodeError>) {
        proof {
            reveal(<WebPageInstantView as Wire>::wire);
            reveal(<WebPageInstantView as Wire>::parse);
        }
        let members = members_of(j, at)?;
        let page_blocks = read_field::<Vec<PageBlock>>(members, "pageBlocks")?;
        let version = read_field::<i32>(members, "version")?;
        let url = read_field::<String>(members, "url")?;
        let is_rtl = read_field::<bool>(members, "isRtl")?;
        let is_full = read_field::<bool>(members, "isFull")?;
        Ok(WebPageInstantView { page_blocks, version, url, is_rtl, is_full })
    }

    proof fn round_trip(&self, at: Seq<char>) {
        reveal(<WebPageInstantView as Wire>::wire);
        reveal(<WebPageInstantView as Wire>::parse);
        reveal_strlit("@type");
        reveal_strlit("isFull");
        reveal_strlit("isRtl");
        reveal_strlit("pageBlocks");
        reveal_strlit("url");
        reveal_strlit("version");
        assert("@type"@.len() == 5 && "@type"@[0] == '@');
        assert("isFull"@.len() == 6);
        assert("isRtl"@.len() == 5 && "isRtl"@[0] == 'i');
        assert("pageBlocks"@.len() == 10);
        assert("url"@.len() == 3);
        assert("version"@.len() == 7);
        self.page_blocks.round_trip("pageBlocks"@);
        self.version.round_trip("version"@);
        self.url.round_trip("url"@);
        self.is_rtl.round_trip("isRtl"@);
        self.is_full.round_trip("isFull"@);
    }
}

impl Tagged for WebPageInstantView {
    open spec fn known(tag: Seq<char>) -> bool {
        tag == "webPageInstantView"@
    }

    fn knows(tag: &str) -> (r: bool) {
        same_text(tag, "webPageInstantView")
    }

    proof fn tag_known(&self) {
        reveal(<WebPageInstantView as Wire>::wire);
        assert(tag_of(self.wire()) == Some("webPageInstantView"@));
        assert(Self::known("webPageInstantView"@));
    }
}

/// Describes a web page preview
#[derive(Debug, Clone, PartialEq)]
pub struct WebPage {
    /// Original URL of the link
    pub url: String,
    /// URL to display
    pub display_url: String,
    /// Type of the web page. Can be: article, photo, audio, video, document, profile, app, or
    /// something else
    pub type_: String,
    /// Short name of the site (e.g., Google Docs, App Store)
    pub site_name: String,
    /// Title of the content
    pub title: String,
    /// Describes a web page preview
    pub description: String,
    /// Image representing the content; may be null
    pub photo: Option<Photo>,
    /// URL to show in the embedded preview
    pub embed_url: String,
    /// MIME type of the embedded preview, (e.g., text/html or video/mp4)
    pub embed_type: String,
    /// Width of the embedded preview
    pub embed_width: i32,
    /// Height of the embedded preview
    pub embed_height: i32,
    /// Duration of the content, in seconds
    pub duration: i32,
    /// Author of the content
    pub author: String,
    /// Preview of the content as an animation, if available; may be null
    pub animation: Option<Animation>,
    /// Preview of the content as an audio file, if available; may be null
    pub audio: Option<Audio>,
    /// Preview of the content as a document, if available (currently only available for small PDF
    /// files and ZIP archives); may be null
    pub document: Option<Document>,
    /// Preview of the content as a sticker for small WEBP files, if available; may be null
    pub sticker: Option<Sticker>,
    /// Preview of the content as a video, if available; may be null
    pub video: Option<Video>,
    /// Preview of the content as a video note, if available; may be null
    pub video_note: Option<VideoNote>,
    /// Preview of the content as a voice note, if available; may be null
    pub voice_note: Option<VoiceNote>,
    /// Version of instant view, available for the web page (currently can be 1 or 2), 0 if none
    pub instant_view_version: i32,
}

impl Wire for WebPage {
    #[verifier::opaque]
    open spec fn wire(&self) -> Doc {
        tagged(
            Map::empty()
                .insert("url"@, self.url.wire())
                .insert("displayUrl"@, self.display_url.wire())
                .insert("type"@, self.type_.wire())
                .insert("siteName"@, self.site_name.wire())
                .insert("title"@, self.title.wire())
                .insert("description"@, self.description.wire())
                .insert("photo"@, self.photo.wire())
                .insert("embedUrl"@, self.embed_url.wire())
                .insert("embedType"@, self.embed_type.wire())
                .insert("embedWidth"@, self.embed_width.wire())
                .insert("embedHeight"@, self.embed_height.wire())
                .insert("duration"@, self.duration.wire())
                .insert("author"@, self.author.wire())
                .insert("animation"@, self.animation.wire())
                .insert("audio"@, self.audio.wire())
                .insert("document"@, self.document.wire())
                .insert("sticker"@, self.sticker.wire())
                .insert("video"@, self.video.wire())
                .insert("videoNote"@, self.video_note.wire())
                .insert("voiceNote"@, self.voice_note.wire())
                .insert("instantViewVersion"@, self.instant_view_version.wire()),
            "webPage"@,
        )
    }

    #[verifier::opaque]
    open spec fn parse(d: Doc, at: Seq<char>) -> Result<Doc, Fault> {
        match d {
            Doc::Object(m) => {
                let url = field::<String>(m, "url"@);
                let display_url = field::<String>(m, "displayUrl"@);
                let type_ = field::<String>(m, "type"@);
                let site_name = field::<String>(m, "siteName"@);
                let title = field::<String>(m, "title"@);
                let description = field::<String>(m, "description"@);
                let photo = optional_field::<Photo>(m, "photo"@);
                let embed_url = field::<String>(m, "embedUrl"@);
                let embed_type = field::<String>(m, "embedType"@);
                let embed_width = field::<i32>(m, "embedWidth"@);
                let embed_height = field::<i32>(m, "embedHeight"@);
                let duration = field::<i32>(m, "duration"@);
                let author = field::<String>(m, "author"@);
                let animation = optional_field::<Animation>(m, "animation"@);
                let audio = optional_field::<Audio>(m, "audio"@);
                let document = optional_field::<Document>(m, "document"@);
                let sticker = optional_field::<Sticker>(m, "sticker"@);
                let video = optional_field::<Video>(m, "video"@);
                let video_note = optional_field::<VideoNote>(m, "videoNote"@);
                let voice_note = optional_field::<VoiceNote>(m, "voiceNote"@);
                let instant_view_version = field::<i32>(m, "instantViewVersion"@);
                if url is Err {
                    url
                } else if display_url is Err {
                    display_url
                } else if type_ is Err {
                    type_
                } else if site_name is Err {
                    site_name
                } else if title is Err {
                    title
                } else if description is Err {
                    description
                } else if photo is Err {
                    photo
                } else if embed_url is Err {
                    embed_url
                } else if embed_type is Err {
                    embed_type
                } else if embed_width is Err {
                    embed_width
                } else if embed_height is Err {
                    embed_height
                } else if duration is Err {
                    duration
                } else if author is Err {
                    author
                } else if animation is Err {
                    animation
                } else if audio is Err {
                    audio
                } else if document is Err {
                    document
                } else if sticker is Err {
                    sticker
                } else if video is Err {
                    video
                } else if video_note is Err {
                    video_note
                } else if voice_note is Err {
                    voice_note
                } else if instant_view_version is Err {
                    instant_view_version
                } else {
                    Ok(
                        tagged(
                            Map::empty()
                                .insert("url"@, url->Ok_0)
                                .insert("displayUrl"@, display_url->Ok_0)
                                .insert("type"@, type_->Ok_0)
                                .insert("siteName"@, site_name->Ok_0)
                                .insert("title"@, title->Ok_0)
                                .insert("description"@, description->Ok_0)
                                .insert("photo"@, photo->Ok_0)
                                .insert("embedUrl"@, embed_url->Ok_0)
                                .insert("embedType"@, embed_type->Ok_0)
                                .insert("embedWidth"@, embed_width->Ok_0)
                                .insert("embedHeight"@, embed_height->Ok_0)
                                .insert("duration"@, duration->Ok_0)
                                .insert("author"@, author->Ok_0)
                                .insert("animation"@, animation->Ok_0)
                                .insert("audio"@, audio->Ok_0)
                                .insert("document"@, document->Ok_0)
                                .insert("sticker"@, sticker->Ok_0)
                                .insert("video"@, video->Ok_0)
                                .insert("videoNote"@, video_note->Ok_0)
                                .insert("voiceNote"@, voice_note->Ok_0)
                                .insert("instantViewVersion"@, instant_view_version->Ok_0),
                            "webPage"@,
                        ),
                    )
                }
            },
            _ => Err(Fault::TypeMismatch(at)),
        }
    }

    fn encode(&self) -> (j: Json) {
        proof {
            reveal(<WebPage as Wire>::wire);
        }
        let mut members: Vec<Member> = Vec::new();
        put(&mut members, "url", self.url.encode());
        put(&mut members, "displayUrl", self.display_url.encode());
        put(&mut members, "type", self.type_.encode());
        put(&mut members, "siteName", self.site_name.encode());
        put(&mut members, "title", self.title.encode());
        put(&mut members, "description", self.description.encode());
        put(&mut members, "photo", self.photo.encode());
        put(&mut members, "embedUrl", self.embed_url.encode());
        put(&mut members, "embedType", self.embed_type.encode());
        put(&mut members, "embedWidth", self.embed_width.encode());
        put(&mut members, "embedHeight", self.embed_height.encode());
        put(&mut members, "duration", self.duration.encode());
        put(&mut members, "author", self.author.encode());
        put(&mut members, "animation", self.animation.encode());
        put(&mut members, "audio", self.audio.encode());
        put(&mut members, "document", self.document.encode());
        put(&mut members, "sticker", self.sticker.encode());
        put(&mut members, "video", self.video.encode());
        put(&mut members, "videoNote", self.video_note.encode());
        put(&mut members, "voiceNote", self.voice_note.encode());
        put(&mut members, "instantViewVersion", self.instant_view_version.encode());
        seal(members, "webPage")
    }

    fn decode(j: &Json, at: &str) -> (r: Result<Self, DecodeError>) {
        proof {
            reveal(<WebPage as Wire>::wire);
            reveal(<WebPage as Wire>::parse);
        }
        let members = members_of(j, at)?;
        let url = read_field::<String>(members, "url")?;
        let display_url = read_field::<String>(members, "displayUrl")?;
        let type_ = read_field::<String>(members, "type")?;
        let site_name = read_field::<String>(members, "siteName")?;
        let title = read_field::<String>(members, "title")?;
        let description = read_field::<String>(members, "description")?;
        let photo = read_optional::<Photo>(members, "photo")?;
        let embed_url = read_field::<String>(members, "embedUrl")?;
        let embed_type = read_field::<String>(members, "embedType")?;
        let embed_width = read_field::<i32>(members, "embedWidth")?;
        let embed_height = read_field::<i32>(members, "embedHeight")?;
        let duration = read_field::<i32>(members, "duration")?;
        let author = read_field::<String>(members, "author")?;
        let animation = read_optional::<Animation>(members, "animation")?;
        let audio = read_optional::<Audio>(members, "audio")?;
        let document = read_optional::<Document>(members, "document")?;
        let sticker = read_optional::<Sticker>(members, "sticker")?;
        let video = read_optional::<Video>(members, "video")?;
        let video_note = read_optional::<VideoNote>(members, "videoNote")?;
        let voice_note = read_optional::<VoiceNote>(members, "voiceNote")?;
        let instant_view_version = read_field::<i32>(members, "instantViewVersion")?;
        Ok(WebPage {
            url,
            display_url,
            type_,
            site_name,
            title,
            description,
            photo,
            embed_url,
            embed_type,
            embed_width,
            embed_height,
            duration,
            author,
            animation,
            audio,
            document,
            sticker,
            video,
            video_note,
            voice_note,
            instant_view_version,
        })
    }

    proof fn round_trip(&self, at: Seq<char>) {
        reveal(<WebPage as Wire>::wire);
        reveal(<WebPage as Wire>::parse);
        reveal_strlit("@type");
        reveal_strlit("animation");
        reveal_strlit("audio");
        reveal_strlit("author");
        reveal_strlit("description");
        reveal_strlit("displayUrl");
        reveal_strlit("document");
        reveal_strlit("duration");
        reveal_strlit("embedHeight");
        reveal_strlit("embedType");
        reveal_strlit("embedUrl");
        reveal_strlit("embedWidth");
        reveal_strlit("instantViewVersion");
        reveal_strlit("photo");
        reveal_strlit("siteName");
        reveal_strlit("sticker");
        reveal_strlit("title");
        reveal_strlit("type");
        reveal_strlit("url");
        reveal_strlit("video");
        reveal_strlit("videoNote");
        reveal_strlit("voiceNote");
        assert("@type"@.len() == 5 && "@type"@[0] == '@');
        assert("animation"@.len() == 9 && "animation"@[1] == 'n');
        assert("audio"@.len() == 5 && "audio"@[0] == 'a');
        assert("author"@.len() == 6);
        assert("description"@.len() == 11 && "description"@[0] == 'd');
        assert("displayUrl"@.len() == 10 && "displayUrl"@[0] == 'd');
        assert("document"@.len() == 8 && "document"@[1] == 'o');
        assert("duration"@.len() == 8 && "duration"@[1] == 'u');
        assert("embedHeight"@.len() == 11 && "embedHeight"@[0] == 'e');
        assert("embedType"@.len() == 9 && "embedType"@[1] == 'm');
        assert("embedUrl"@.len() == 8 && "embedUrl"@[1] == 'm');
        assert("embedWidth"@.len() == 10 && "embedWidth"@[0] == 'e');
        assert("instantViewVersion"@.len() == 18);
        assert("photo"@.len() == 5 && "photo"@[0] == 'p');
        assert("siteName"@.len() == 8 && "siteName"@[1] == 'i');
        assert("sticker"@.len() == 7);
        assert("title"@.len() == 5 && "title"@[0] == 't');
        assert("type"@.len() == 4);
        assert("url"@.len() == 3);
        assert("video"@.len() == 5 && "video"@[0] == 'v');
        assert("videoNote"@.len() == 9 && "videoNote"@[1] == 'i');
        assert("voiceNote"@.len() == 9 && "voiceNote"@[1] == 'o');
        self.url.round_trip("url"@);
        self.display_url.round_trip("displayUrl"@);
        self.type_.round_trip("type"@);
        self.site_name.round_trip("siteName"@);
        self.title.round_trip("title"@);
        self.description.round_trip("description"@);
        self.photo.round_trip("photo"@);
        self.embed_url.round_trip("embedUrl"@);
        self.embed_type.round_trip("embedType"@);
        self.embed_width.round_trip("embedWidth"@);
        self.embed_height.round_trip("embedHeight"@);
        self.duration.round_trip("duration"@);
        self.author.round_trip("author"@);
        self.animation.round_trip("animation"@);
        self.audio.round_trip("audio"@);
        self.document.round_trip("document"@);
        self.sticker.round_trip("sticker"@);
        self.video.round_trip("video"@);
        self.video_note.round_trip("videoNote"@);
        self.voice_note.round_trip("voiceNote"@);
        self.instant_view_version.round_trip("instantViewVersion"@);
        let m = self.wire()->Object_0;
        assert(field::<String>(m, "url"@) == Ok::<Doc, Fault>(self.url.wire()));
        assert(field::<String>(m, "displayUrl"@) == Ok::<Doc, Fault>(self.display_url.wire()));
        assert(field::<String>(m, "type"@) == Ok::<Doc, Fault>(self.type_.wire()));
        assert(field::<String>(m, "siteName"@) == Ok::<Doc, Fault>(self.site_name.wire()));
        assert(field::<String>(m, "title"@) == Ok::<Doc, Fault>(self.title.wire()));
        assert(field::<String>(m, "description"@) == Ok::<Doc, Fault>(self.description.wire()));
        assert(optional_field::<Photo>(m, "photo"@) == Ok::<Doc, Fault>(self.photo.wire()));
        assert(field::<String>(m, "embedUrl"@) == Ok::<Doc, Fault>(self.embed_url.wire()));
        assert(field::<String>(m, "embedType"@) == Ok::<Doc, Fault>(self.embed_type.wire()));
        assert(field::<i32>(m, "embedWidth"@) == Ok::<Doc, Fault>(self.embed_width.wire()));
        assert(field::<i32>(m, "embedHeight"@) == Ok::<Doc, Fault>(self.embed_height.wire()));
        assert(field::<i32>(m, "duration"@) == Ok::<Doc, Fault>(self.duration.wire()));
        assert(field::<String>(m, "author"@) == Ok::<Doc, Fault>(self.author.wire()));
        assert(optional_field::<Animation>(m, "animation"@)
            == Ok::<Doc, Fault>(self.animation.wire()));
        assert(optional_field::<Audio>(m, "audio"@) == Ok::<Doc, Fault>(self.audio.wire()));
        assert(optional_field::<Document>(m, "document"@)
            == Ok::<Doc, Fault>(self.document.wire()));
        assert(optional_field::<Sticker>(m, "sticker"@) == Ok::<Doc, Fault>(self.sticker.wire()));
        assert(optional_field::<Video>(m, "video"@) == Ok::<Doc, Fault>(self.video.wire()));
        assert(optional_field::<VideoNote>(m, "videoNote"@)
            == Ok::<Doc, Fault>(self.video_note.wire()));
        assert(optional_field::<VoiceNote>(m, "voiceNote"@)
            == Ok::<Doc, Fault>(self.voice_note.wire()));
        assert(field::<i32>(m, "instantViewVersion"@)
            == Ok::<Doc, Fault>(self.instant_view_version.wire()));
    }
}

impl Tagged for WebPage {
    open spec fn known(tag: Seq<char>) -> bool {
        tag == "webPage"@
    }

    fn knows(tag: &str) -> (r: bool) {
        same_text(tag, "webPage")
    }

    proof fn tag_known(&self) {
        reveal(<WebPage as Wire>::wire);
        assert(tag_of(self.wire()) == Some("webPage"@));
        assert(Self::known("webPage"@));
    }
}

} // verus!
