//! Inline queries, callback queries and game scores.

use vstd::prelude::*;
use crate::codec::{
    discriminator, encode_wide, field, lemma_wide_round_trip, members_of, optional_field, put,
    read_field, read_optional, read_wide, seal, Tagged, Union, wide_doc, wide_field, Wire,
};
use crate::error::{DecodeError, Fault};
use crate::json::{Doc, Json, Member, tag_of, tagged};
use crate::text::same_text;
use crate::types::{
    Animation, Audio, Contact, Document, Game, InputMessageContent, Location, Photo, PhotoSize,
    ReplyMarkup, Sticker, Venue, Video, VoiceNote,
};

verus! {

/// Represents a link to an animated GIF
#[derive(Debug, Clone, PartialEq)]
pub struct InputInlineQueryResultAnimatedGif {
    /// Unique identifier of the query result
    pub id: String,
    /// Title of the query result
    pub title: String,
    /// URL of the static result thumbnail (JPEG or GIF), if it exists
    pub thumbnail_url: String,
    /// The URL of the GIF-file (file size must not exceed 1MB)
    pub gif_url: String,
    /// Duration of the GIF, in seconds
    pub gif_duration: i32,
    /// Width of the GIF
    pub gif_width: i32,
    /// Height of the GIF
    pub gif_height: i32,
    /// The message reply markup. Must be of type replyMarkupInlineKeyboard or null
    pub reply_markup: Option<ReplyMarkup>,
    /// The content of the message to be sent. Must be one of the following types: InputMessageText,
    /// InputMessageAnimation, InputMessageLocation, InputMessageVenue or InputMessageContact
    pub input_message_content: InputMessageContent,
}

impl Wire for InputInlineQueryResultAnimatedGif {
    #[verifier::opaque]
    open spec fn wire(&self) -> Doc {
        tagged(
            Map::empty()
                .insert("id"@, self.id.wire())
                .insert("title"@, self.title.wire())
                .insert("thumbnailUrl"@, self.thumbnail_url.wire())
                .insert("gifUrl"@, self.gif_url.wire())
                .insert("gifDuration"@, self.gif_duration.wire())
                .insert("gifWidth"@, self.gif_width.wire())
                .insert("gifHeight"@, self.gif_height.wire())
                .insert("replyMarkup"@, self.reply_markup.wire())
                .insert("inputMessageContent"@, self.input_message_content.wire()),
            "inputInlineQueryResultAnimatedGif"@,
        )
    }

    #[verifier::opaque]
    open spec fn parse(d: Doc, at: Seq<char>) -> Result<Doc, Fault> {
        match d {
            Doc::Object(m) => {
                let id = field::<String>(m, "id"@);
                let title = field::<String>(m, "title"@);
                let thumbnail_url = field::<String>(m, "thumbnailUrl"@);
                let gif_url = field::<String>(m, "gifUrl"@);
                let gif_duration = field::<i32>(m, "gifDuration"@);
                let gif_width = field::<i32>(m, "gifWidth"@);
                let gif_height = field::<i32>(m, "gifHeight"@);
                let reply_markup = optional_field::<ReplyMarkup>(m, "replyMarkup"@);
                let input_message_content = field::<InputMessageContent>(m, "inputMessageContent"@);
                if id is Err {
                    id
                } else if title is Err {
                    title
                } else if thumbnail_url is Err {
                    thumbnail_url
                } else if gif_url is Err {
                    gif_url
                } else if gif_duration is Err {
                    gif_duration
                } else if gif_width is Err {
                    gif_width
                } else if gif_height is Err {
                    gif_height
                } else if reply_markup is Err {
                    reply_markup
                } else if input_message_content is Err {
                    input_message_content
                } else {
                    Ok(
                        tagged(
                            Map::empty()
                                .insert("id"@, id->Ok_0)
                                .insert("title"@, title->Ok_0)
                                .insert("thumbnailUrl"@, thumbnail_url->Ok_0)
                                .insert("gifUrl"@, gif_url->Ok_0)
                                .insert("gifDuration"@, gif_duration->Ok_0)
                                .insert("gifWidth"@, gif_width->Ok_0)
                                .insert("gifHeight"@, gif_height->Ok_0)
                                .insert("replyMarkup"@, reply_markup->Ok_0)
                                .insert("inputMessageContent"@, input_message_content->Ok_0),
                            "inputInlineQueryResultAnimatedGif"@,
                        ),
                    )
                }
            },
            _ => Err(Fault::TypeMismatch(at)),
        }
    }

    fn encode(&self) -> (j: Json) {
        proof {
            reveal(<InputInlineQueryResultAnimatedGif as Wire>::wire);
        }
        let mut members: Vec<Member> = Vec::new();
        put(&mut members, "id", self.id.encode());
        put(&mut members, "title", self.title.encode());
        put(&mut members, "thumbnailUrl", self.thumbnail_url.encode());
        put(&mut members, "gifUrl", self.gif_url.encode());
        put(&mut members, "gifDuration", self.gif_duration.encode());
        put(&mut members, "gifWidth", self.gif_width.encode());
        put(&mut members, "gifHeight", self.gif_height.encode());
        put(&mut members, "replyMarkup", self.reply_markup.encode());
        put(&mut members, "inputMessageContent", self.input_message_content.encode());
        seal(members, "inputInlineQueryResultAnimatedGif")
    }

    fn decode(j: &Json, at: &str) -> (r: Result<Self, DecodeError>) {
        proof {
            reveal(<InputInlineQueryResultAnimatedGif as Wire>::wire);
            reveal(<InputInlineQueryResultAnimatedGif as Wire>::parse);
        }
        let members = members_of(j, at)?;
        let id = read_field::<String>(members, "id")?;
        let title = read_field::<String>(members, "title")?;
        let thumbnail_url = read_field::<String>(members, "thumbnailUrl")?;
        let gif_url = read_field::<String>(members, "gifUrl")?;
        let gif_duration = read_field::<i32>(members, "gifDuration")?;
        let gif_width = read_field::<i32>(members, "gifWidth")?;
        let gif_height = read_field::<i32>(members, "gifHeight")?;
        let reply_markup = read_optional::<ReplyMarkup>(members, "replyMarkup")?;
        let input_message_content = read_field::<InputMessageContent>(
            members,
            "inputMessageContent",
        )?;
        Ok(InputInlineQueryResultAnimatedGif {
            id,
            title,
            thumbnail_url,
            gif_url,
            gif_duration,
            gif_width,
            gif_height,
            reply_markup,
            input_message_content,
        })
    }

    proof fn round_trip(&self, at: Seq<char>) {
        reveal(<InputInlineQueryResultAnimatedGif as Wire>::wire);
        reveal(<InputInlineQueryResultAnimatedGif as Wire>::parse);
        reveal_strlit("@type");
        reveal_strlit("gifDuration");
        reveal_strlit("gifHeight");
        reveal_strlit("gifUrl");
        reveal_strlit("gifWidth");
        reveal_strlit("id");
        reveal_strlit("inputMessageContent");
        reveal_strlit("replyMarkup");
        reveal_strlit("thumbnailUrl");
        reveal_strlit("title");
        assert("@type"@.len() == 5 && "@type"@[0] == '@');
        assert("gifDuration"@.len() == 11 && "gifDuration"@[0] == 'g');
        assert("gifHeight"@.len() == 9);
        assert("gifUrl"@.len() == 6);
        assert("gifWidth"@.len() == 8);
        assert("id"@.len() == 2);
        assert("inputMessageContent"@.len() == 19);
        assert("replyMarkup"@.len() == 11 && "replyMarkup"@[0] == 'r');
        assert("thumbnailUrl"@.len() == 12);
        assert("title"@.len() == 5 && "title"@[0] == 't');
        self.id.round_trip("id"@);
        self.title.round_trip("title"@);
        self.thumbnail_url.round_trip("thumbnailUrl"@);
        self.gif_url.round_trip("gifUrl"@);
        self.gif_duration.round_trip("gifDuration"@);
        self.gif_width.round_trip("gifWidth"@);
        self.gif_height.round_trip("gifHeight"@);
        self.reply_markup.round_trip("replyMarkup"@);
        self.input_message_content.round_trip("inputMessageContent"@);
        let m = self.wire()->Object_0;
        assert(field::<String>(m, "id"@) == Ok::<Doc, Fault>(self.id.wire()));
        assert(field::<String>(m, "title"@) == Ok::<Doc, Fault>(self.title.wire()));
        assert(field::<String>(m, "thumbnailUrl"@) == Ok::<Doc, Fault>(self.thumbnail_url.wire()));
        assert(field::<String>(m, "gifUrl"@) == Ok::<Doc, Fault>(self.gif_url.wire()));
        assert(field::<i32>(m, "gifDuration"@) == Ok::<Doc, Fault>(self.gif_duration.wire()));
        assert(field::<i32>(m, "gifWidth"@) == Ok::<Doc, Fault>(self.gif_width.wire()));
        assert(field::<i32>(m, "gifHeight"@) == Ok::<Doc, Fault>(self.gif_height.wire()));
        assert(optional_field::<ReplyMarkup>(m, "replyMarkup"@)
            == Ok::<Doc, Fault>(self.reply_markup.wire()));
        assert(field::<InputMessageContent>(m, "inputMessageContent"@)
            == Ok::<Doc, Fault>(self.input_message_content.wire()));
    }
}

impl Tagged for InputInlineQueryResultAnimatedGif {
    open spec fn known(tag: Seq<char>) -> bool {
        tag == "inputInlineQueryResultAnimatedGif"@
    }

    fn knows(tag: &str) -> (r: bool) {
        same_text(tag, "inputInlineQueryResultAnimatedGif")
    }

    proof fn tag_known(&self) {
        reveal(<InputInlineQueryResultAnimatedGif as Wire>::wire);
        assert(tag_of(self.wire()) == Some("inputInlineQueryResultAnimatedGif"@));
        assert(Self::known("inputInlineQueryResultAnimatedGif"@));
    }
}

/// Represents a link to an animated (i.e. without sound) H.264/MPEG-4 AVC video
#[derive(Debug, Clone, PartialEq)]
pub struct InputInlineQueryResultAnimatedMpeg4 {
    /// Unique identifier of the query result
    pub id: String,
    /// Title of the result
    pub title: String,
    /// URL of the static result thumbnail (JPEG or GIF), if it exists
    pub thumbnail_url: String,
    /// The URL of the MPEG4-file (file size must not exceed 1MB)
    pub mpeg4_url: String,
    /// Duration of the video, in seconds
    pub mpeg4_duration: i32,
    /// Width of the video
    pub mpeg4_width: i32,
    /// Height of the video
    pub mpeg4_height: i32,
    /// The message reply markup. Must be of type replyMarkupInlineKeyboard or null
    pub reply_markup: Option<ReplyMarkup>,
    /// The content of the message to be sent. Must be one of the following types: InputMessageText,
    /// InputMessageAnimation, InputMessageLocation, InputMessageVenue or InputMessageContact
    pub input_message_content: InputMessageContent,
}

impl Wire for InputInlineQueryResultAnimatedMpeg4 {
    #[verifier::opaque]
    open spec fn wire(&self) -> Doc {
        tagged(
            Map::empty()
                .insert("id"@, self.id.wire())
                .insert("title"@, self.title.wire())
                .insert("thumbnailUrl"@, self.thumbnail_url.wire())
                .insert("mpeg4Url"@, self.mpeg4_url.wire())
                .insert("mpeg4Duration"@, self.mpeg4_duration.wire())
                .insert("mpeg4Width"@, self.mpeg4_width.wire())
                .insert("mpeg4Height"@, self.mpeg4_height.wire())
                .insert("replyMarkup"@, self.reply_markup.wire())
                .insert("inputMessageContent"@, self.input_message_content.wire()),
            "inputInlineQueryResultAnimatedMpeg4"@,
        )
    }

    #[verifier::opaque]
    open spec fn parse(d: Doc, at: Seq<char>) -> Result<Doc, Fault> {
        match d {
            Doc::Object(m) => {
                let id = field::<String>(m, "id"@);
                let title = field::<String>(m, "title"@);
                let thumbnail_url = field::<String>(m, "thumbnailUrl"@);
                let mpeg4_url = field::<String>(m, "mpeg4Url"@);
                let mpeg4_duration = field::<i32>(m, "mpeg4Duration"@);
                let mpeg4_width = field::<i32>(m, "mpeg4Width"@);
                let mpeg4_height = field::<i32>(m, "mpeg4Height"@);
                let reply_markup = optional_field::<ReplyMarkup>(m, "replyMarkup"@);
                let input_message_content = field::<InputMessageContent>(m, "inputMessageContent"@);
                if id is Err {
                    id
                } else if title is Err {
                    title
                } else if thumbnail_url is Err {
                    thumbnail_url
                } else if mpeg4_url is Err {
                    mpeg4_url
                } else if mpeg4_duration is Err {
                    mpeg4_duration
                } else if mpeg4_width is Err {
                    mpeg4_width
                } else if mpeg4_height is Err {
                    mpeg4_height
                } else if reply_markup is Err {
                    reply_markup
                } else if input_message_content is Err {
                    input_message_content
                } else {
                    Ok(
                        tagged(
                            Map::empty()
                                .insert("id"@, id->Ok_0)
                                .insert("title"@, title->Ok_0)
                                .insert("thumbnailUrl"@, thumbnail_url->Ok_0)
                                .insert("mpeg4Url"@, mpeg4_url->Ok_0)
                                .insert("mpeg4Duration"@, mpeg4_duration->Ok_0)
                                .insert("mpeg4Width"@, mpeg4_width->Ok_0)
                                .insert("mpeg4Height"@, mpeg4_height->Ok_0)
                                .insert("replyMarkup"@, reply_markup->Ok_0)
                                .insert("inputMessageContent"@, input_message_content->Ok_0),
                            "inputInlineQueryResultAnimatedMpeg4"@,
                        ),
                    )
                }
            },
            _ => Err(Fault::TypeMismatch(at)),
        }
    }

    fn encode(&self) -> (j: Json) {
        proof {
            reveal(<InputInlineQueryResultAnimatedMpeg4 as Wire>::wire);
        }
        let mut members: Vec<Member> = Vec::new();
        put(&mut members, "id", self.id.encode());
        put(&mut members, "title", self.title.encode());
        put(&mut members, "thumbnailUrl", self.thumbnail_url.encode());
        put(&mut members, "mpeg4Url", self.mpeg4_url.encode());
        put(&mut members, "mpeg4Duration", self.mpeg4_duration.encode());
        put(&mut members, "mpeg4Width", self.mpeg4_width.encode());
        put(&mut members, "mpeg4Height", self.mpeg4_height.encode());
        put(&mut members, "replyMarkup", self.reply_markup.encode());
        put(&mut members, "inputMessageContent", self.input_message_content.encode());
        seal(members, "inputInlineQueryResultAnimatedMpeg4")
    }

    fn decode(j: &Json, at: &str) -> (r: Result<Self, DecodeError>) {
        proof {
            reveal(<InputInlineQueryResultAnimatedMpeg4 as Wire>::wire);
            reveal(<InputInlineQueryResultAnimatedMpeg4 as Wire>::parse);
        }
        let members = members_of(j, at)?;
        let id = read_field::<String>(members, "id")?;
        let title = read_field::<String>(members, "title")?;
        let thumbnail_url = read_field::<String>(members, "thumbnailUrl")?;
        let mpeg4_url = read_field::<String>(members, "mpeg4Url")?;
        let mpeg4_duration = read_field::<i32>(members, "mpeg4Duration")?;
        let mpeg4_width = read_field::<i32>(members, "mpeg4Width")?;
        let mpeg4_height = read_field::<i32>(members, "mpeg4Height")?;
        let reply_markup = read_optional::<ReplyMarkup>(members, "replyMarkup")?;
        let input_message_content = read_field::<InputMessageContent>(
            members,
            "inputMessageContent",
        )?;
        Ok(InputInlineQueryResultAnimatedMpeg4 {
            id,
            title,
            thumbnail_url,
            mpeg4_url,
            mpeg4_duration,
            mpeg4_width,
            mpeg4_height,
            reply_markup,
            input_message_content,
        })
    }

    proof fn round_trip(&self, at: Seq<char>) {
        reveal(<InputInlineQueryResultAnimatedMpeg4 as Wire>::wire);
        reveal(<InputInlineQueryResultAnimatedMpeg4 as Wire>::parse);
        reveal_strlit("@type");
        reveal_strlit("id");
        reveal_strlit("inputMessageContent");
        reveal_strlit("mpeg4Duration");
        reveal_strlit("mpeg4Height");
        reveal_strlit("mpeg4Url");
        reveal_strlit("mpeg4Width");
        reveal_strlit("replyMarkup");
        reveal_strlit("thumbnailUrl");
        reveal_strlit("title");
        assert("@type"@.len() == 5 && "@type"@[0] == '@');
        assert("id"@.len() == 2);
        assert("inputMessageContent"@.len() == 19);
        assert("mpeg4Duration"@.len() == 13);
        assert("mpeg4Height"@.len() == 11 && "mpeg4Height"@[0] == 'm');
        assert("mpeg4Url"@.len() == 8);
        assert("mpeg4Width"@.len() == 10);
        assert("replyMarkup"@.len() == 11 && "replyMarkup"@[0] == 'r');
        assert("thumbnailUrl"@.len() == 12);
        assert("title"@.len() == 5 && "title"@[0] == 't');
        self.id.round_trip("id"@);
        self.title.round_trip("title"@);
        self.thumbnail_url.round_trip("thumbnailUrl"@);
        self.mpeg4_url.round_trip("mpeg4Url"@);
        self.mpeg4_duration.round_trip("mpeg4Duration"@);
        self.mpeg4_width.round_trip("mpeg4Width"@);
        self.mpeg4_height.round_trip("mpeg4Height"@);
        self.reply_markup.round_trip("replyMarkup"@);
        self.input_message_content.round_trip("inputMessageContent"@);
        let m = self.wire()->Object_0;
        assert(field::<String>(m, "id"@) == Ok::<Doc, Fault>(self.id.wire()));
        assert(field::<String>(m, "title"@) == Ok::<Doc, Fault>(self.title.wire()));
        assert(field::<String>(m, "thumbnailUrl"@) == Ok::<Doc, Fault>(self.thumbnail_url.wire()));
        assert(field::<String>(m, "mpeg4Url"@) == Ok::<Doc, Fault>(self.mpeg4_url.wire()));
        assert(field::<i32>(m, "mpeg4Duration"@) == Ok::<Doc, Fault>(self.mpeg4_duration.wire()));
        assert(field::<i32>(m, "mpeg4Width"@) == Ok::<Doc, Fault>(self.mpeg4_width.wire()));
        assert(field::<i32>(m, "mpeg4Height"@) == Ok::<Doc, Fault>(self.mpeg4_height.wire()));
        assert(optional_field::<ReplyMarkup>(m, "replyMarkup"@)
            == Ok::<Doc, Fault>(self.reply_markup.wire()));
        assert(field::<InputMessageContent>(m, "inputMessageContent"@)
            == Ok::<Doc, Fault>(self.input_message_content.wire()));
    }
}

impl Tagged for InputInlineQueryResultAnimatedMpeg4 {
    open spec fn known(tag: Seq<char>) -> bool {
        tag == "inputInlineQueryResultAnimatedMpeg4"@
    }

    fn knows(tag: &str) -> (r: bool) {
        same_text(tag, "inputInlineQueryResultAnimatedMpeg4")
    }

    proof fn tag_known(&self) {
        reveal(<InputInlineQueryResultAnimatedMpeg4 as Wire>::wire);
        assert(tag_of(self.wire()) == Some("inputInlineQueryResultAnimatedMpeg4"@));
        assert(Self::known("inputInlineQueryResultAnimatedMpeg4"@));
    }
}

/// Represents a link to an article or web page
#[derive(Debug, Clone, PartialEq)]
pub struct InputInlineQueryResultArticle {
    /// Unique identifier of the query result
    pub id: String,
    /// URL of the result, if it exists
    pub url: String,
    /// True, if the URL must be not shown
    pub hide_url: bool,
    /// Title of the result
    pub title: String,
    /// Represents a link to an article or web page
    pub description: String,
    /// URL of the result thumbnail, if it exists
    pub thumbnail_url: String,
    /// Thumbnail width, if known
    pub thumbnail_width: i32,
    /// Thumbnail height, if known
    pub thumbnail_height: i32,
    /// The message reply markup. Must be of type replyMarkupInlineKeyboard or null
    pub reply_markup: Option<ReplyMarkup>,
    /// The content of the message to be sent. Must be one of the following types: InputMessageText,
    /// InputMessageLocation, InputMessageVenue or InputMessageContact
    pub input_message_content: InputMessageContent,
}

impl Wire for InputInlineQueryResultArticle {
    #[verifier::opaque]
    open spec fn wire(&self) -> Doc {
        tagged(
            Map::empty()
                .insert("id"@, self.id.wire())
                .insert("url"@, self.url.wire())
                .insert("hideUrl"@, self.hide_url.wire())
                .insert("title"@, self.title.wire())
                .insert("description"@, self.description.wire())
                .insert("thumbnailUrl"@, self.thumbnail_url.wire())
                .insert("thumbnailWidth"@, self.thumbnail_width.wire())
                .insert("thumbnailHeight"@, self.thumbnail_height.wire())
                .insert("replyMarkup"@, self.reply_markup.wire())
                .insert("inputMessageContent"@, self.input_message_content.wire()),
            "inputInlineQueryResultArticle"@,
        )
    }

    #[verifier::opaque]
    open spec fn parse(d: Doc, at: Seq<char>) -> Result<Doc, Fault> {
        match d {
            Doc::Object(m) => {
                let id = field::<String>(m, "id"@);
                let url = field::<String>(m, "url"@);
                let hide_url = field::<bool>(m, "hideUrl"@);
                let title = field::<String>(m, "title"@);
                let description = field::<String>(m, "description"@);
                let thumbnail_url = field::<String>(m, "thumbnailUrl"@);
                let thumbnail_width = field::<i32>(m, "thumbnailWidth"@);
                let thumbnail_height = field::<i32>(m, "thumbnailHeight"@);
                let reply_markup = optional_field::<ReplyMarkup>(m, "replyMarkup"@);
                let input_message_content = field::<InputMessageContent>(m, "inputMessageContent"@);
                if id is Err {
                    id
                } else if url is Err {
                    url
                } else if hide_url is Err {
                    hide_url
                } else if title is Err {
                    title
                } else if description is Err {
                    description
                } else if thumbnail_url is Err {
                    thumbnail_url
                } else if thumbnail_width is Err {
                    thumbnail_width
                } else if thumbnail_height is Err {
                    thumbnail_height
                } else if reply_markup is Err {
                    reply_markup
                } else if input_message_content is Err {
                    input_message_content
                } else {
                    Ok(
                        tagged(
                            Map::empty()
                                .insert("id"@, id->Ok_0)
                                .insert("url"@, url->Ok_0)
                                .insert("hideUrl"@, hide_url->Ok_0)
                                .insert("title"@, title->Ok_0)
                                .insert("description"@, description->Ok_0)
                                .insert("thumbnailUrl"@, thumbnail_url->Ok_0)
                                .insert("thumbnailWidth"@, thumbnail_width->Ok_0)
                                .insert("thumbnailHeight"@, thumbnail_height->Ok_0)
                                .insert("replyMarkup"@, reply_markup->Ok_0)
                                .insert("inputMessageContent"@, input_message_content->Ok_0),
                            "inputInlineQueryResultArticle"@,
                        ),
                    )
                }
            },
            _ => Err(Fault::TypeMismatch(at)),
        }
    }

    fn encode(&self) -> (j: Json) {
        proof {
            reveal(<InputInlineQueryResultArticle as Wire>::wire);
        }
        let mut members: Vec<Member> = Vec::new();
        put(&mut members, "id", self.id.encode());
        put(&mut members, "url", self.url.encode());
        put(&mut members, "hideUrl", self.hide_url.encode());
        put(&mut members, "title", self.title.encode());
        put(&mut members, "description", self.description.encode());
        put(&mut members, "thumbnailUrl", self.thumbnail_url.encode());
        put(&mut members, "thumbnailWidth", self.thumbnail_width.encode());
        put(&mut members, "thumbnailHeight", self.thumbnail_height.encode());
        put(&mut members, "replyMarkup", self.reply_markup.encode());
        put(&mut members, "inputMessageContent", self.input_message_content.encode());
        seal(members, "inputInlineQueryResultArticle")
    }

    fn decode(j: &Json, at: &str) -> (r: Result<Self, DecodeError>) {
        proof {
            reveal(<InputInlineQueryResultArticle as Wire>::wire);
            reveal(<InputInlineQueryResultArticle as Wire>::parse);
        }
        let members = members_of(j, at)?;
        let id = read_field::<String>(members, "id")?;
        let url = read_field::<String>(members, "url")?;
        let hide_url = read_field::<bool>(members, "hideUrl")?;
        let title = read_field::<String>(members, "title")?;
        let description = read_field::<String>(members, "description")?;
        let thumbnail_url = read_field::<String>(members, "thumbnailUrl")?;
        let thumbnail_width = read_field::<i32>(members, "thumbnailWidth")?;
        let thumbnail_height = read_field::<i32>(members, "thumbnailHeight")?;
        let reply_markup = read_optional::<ReplyMarkup>(members, "replyMarkup")?;
        let input_message_content = read_field::<InputMessageContent>(
            members,
            "inputMessageContent",
        )?;
        Ok(InputInlineQueryResultArticle {
            id,
            url,
            hide_url,
            title,
            description,
            thumbnail_url,
            thumbnail_width,
            thumbnail_height,
            reply_markup,
            input_message_content,
        })
    }

    proof fn round_trip(&self, at: Seq<char>) {
        reveal(<InputInlineQueryResultArticle as Wire>::wire);
        reveal(<InputInlineQueryResultArticle as Wire>::parse);
        reveal_strlit("@type");
        reveal_strlit("description");
        reveal_strlit("hideUrl");
        reveal_strlit("id");
        reveal_strlit("inputMessageContent");
        reveal_strlit("replyMarkup");
        reveal_strlit("thumbnailHeight");
        reveal_strlit("thumbnailUrl");
        reveal_strlit("thumbnailWidth");
        reveal_strlit("title");
        reveal_strlit("url");
        assert("@type"@.len() == 5 && "@type"@[0] == '@');
        assert("description"@.len() == 11 && "description"@[0] == 'd');
        assert("hideUrl"@.len() == 7);
        assert("id"@.len() == 2);
        assert("inputMessageContent"@.len() == 19);
        assert("replyMarkup"@.len() == 11 && "replyMarkup"@[0] == 'r');
        assert("thumbnailHeight"@.len() == 15);
        assert("thumbnailUrl"@.len() == 12);
        assert("thumbnailWidth"@.len() == 14);
        assert("title"@.len() == 5 && "title"@[0] == 't');
        assert("url"@.len() == 3);
        self.id.round_trip("id"@);
        self.url.round_trip("url"@);
        self.hide_url.round_trip("hideUrl"@);
        self.title.round_trip("title"@);
        self.description.round_trip("description"@);
        self.thumbnail_url.round_trip("thumbnailUrl"@);
        self.thumbnail_width.round_trip("thumbnailWidth"@);
        self.thumbnail_height.round_trip("thumbnailHeight"@);
        self.reply_markup.round_trip("replyMarkup"@);
        self.input_message_content.round_trip("inputMessageContent"@);
        let m = self.wire()->Object_0;
        assert(field::<String>(m, "id"@) == Ok::<Doc, Fault>(self.id.wire()));
        assert(field::<String>(m, "url"@) == Ok::<Doc, Fault>(self.url.wire()));
        assert(field::<bool>(m, "hideUrl"@) == Ok::<Doc, Fault>(self.hide_url.wire()));
        assert(field::<String>(m, "title"@) == Ok::<Doc, Fault>(self.title.wire()));
        assert(field::<String>(m, "description"@) == Ok::<Doc, Fault>(self.description.wire()));
        assert(field::<String>(m, "thumbnailUrl"@) == Ok::<Doc, Fault>(self.thumbnail_url.wire()));
        assert(field::<i32>(m, "thumbnailWidth"@) == Ok::<Doc, Fault>(self.thumbnail_width.wire()));
        assert(field::<i32>(m, "thumbnailHeight"@)
            == Ok::<Doc, Fault>(self.thumbnail_height.wire()));
        assert(optional_field::<ReplyMarkup>(m, "replyMarkup"@)
            == Ok::<Doc, Fault>(self.reply_markup.wire()));
        assert(field::<InputMessageContent>(m, "inputMessageContent"@)
            == Ok::<Doc, Fault>(self.input_message_content.wire()));
    }
}

impl Tagged for InputInlineQueryResultArticle {
    open spec fn known(tag: Seq<char>) -> bool {
        tag == "inputInlineQueryResultArticle"@
    }

    fn knows(tag: &str) -> (r: bool) {
        same_text(tag, "inputInlineQueryResultArticle")
    }

    proof fn tag_known(&self) {
        reveal(<InputInlineQueryResultArticle as Wire>::wire);
        assert(tag_of(self.wire()) == Some("inputInlineQueryResultArticle"@));
        assert(Self::known("inputInlineQueryResultArticle"@));
    }
}

/// Represents a link to an MP3 audio file
#[derive(Debug, Clone, PartialEq)]
pub struct InputInlineQueryResultAudio {
    /// Unique identifier of the query result
    pub id: String,
    /// Title of the audio file
    pub title: String,
    /// Performer of the audio file
    pub performer: String,
    /// The URL of the audio file
    pub audio_url: String,
    /// Audio file duration, in seconds
    pub audio_duration: i32,
    /// The message reply markup. Must be of type replyMarkupInlineKeyboard or null
    pub reply_markup: Option<ReplyMarkup>,
    /// The content of the message to be sent. Must be one of the following types: InputMessageText,
    /// InputMessageAudio, InputMessageLocation, InputMessageVenue or InputMessageContact
    pub input_message_content: InputMessageContent,
}

impl Wire for InputInlineQueryResultAudio {
    #[verifier::opaque]
    open spec fn wire(&self) -> Doc {
        tagged(
            Map::empty()
                .insert("id"@, self.id.wire())
                .insert("title"@, self.title.wire())
                .insert("performer"@, self.performer.wire())
                .insert("audioUrl"@, self.audio_url.wire())
                .insert("audioDuration"@, self.audio_duration.wire())
                .insert("replyMarkup"@, self.reply_markup.wire())
                .insert("inputMessageContent"@, self.input_message_content.wire()),
            "inputInlineQueryResultAudio"@,
        )
    }

    #[verifier::opaque]
    open spec fn parse(d: Doc, at: Seq<char>) -> Result<Doc, Fault> {
        match d {
            Doc::Object(m) => {
                let id = field::<String>(m, "id"@);
                let title = field::<String>(m, "title"@);
                let performer = field::<String>(m, "performer"@);
                let audio_url = field::<String>(m, "audioUrl"@);
                let audio_duration = field::<i32>(m, "audioDuration"@);
                let reply_markup = optional_field::<ReplyMarkup>(m, "replyMarkup"@);
                let input_message_content = field::<InputMessageContent>(m, "inputMessageContent"@);
                if id is Err {
                    id
                } else if title is Err {
                    title
                } else if performer is Err {
                    performer
                } else if audio_url is Err {
                    audio_url
                } else if audio_duration is Err {
                    audio_duration
                } else if reply_markup is Err {
                    reply_markup
                } else if input_message_content is Err {
                    input_message_content
                } else {
                    Ok(
                        tagged(
                            Map::empty()
                                .insert("id"@, id->Ok_0)
                                .insert("title"@, title->Ok_0)
                                .insert("performer"@, performer->Ok_0)
                                .insert("audioUrl"@, audio_url->Ok_0)
                                .insert("audioDuration"@, audio_duration->Ok_0)
                                .insert("replyMarkup"@, reply_markup->Ok_0)
                                .insert("inputMessageContent"@, input_message_content->Ok_0),
                            "inputInlineQueryResultAudio"@,
                        ),
                    )
                }
            },
            _ => Err(Fault::TypeMismatch(at)),
        }
    }

    fn encode(&self) -> (j: Json) {
        proof {
            reveal(<InputInlineQueryResultAudio as Wire>::wire);
        }
        let mut members: Vec<Member> = Vec::new();
        put(&mut members, "id", self.id.encode());
        put(&mut members, "title", self.title.encode());
        put(&mut members, "performer", self.performer.encode());
        put(&mut members, "audioUrl", self.audio_url.encode());
        put(&mut members, "audioDuration", self.audio_duration.encode());
        put(&mut members, "replyMarkup", self.reply_markup.encode());
        put(&mut members, "inputMessageContent", self.input_message_content.encode());
        seal(members, "inputInlineQueryResultAudio")
    }

    fn decode(j: &Json, at: &str) -> (r: Result<Self, DecodeError>) {
        proof {
            reveal(<InputInlineQueryResultAudio as Wire>::wire);
            reveal(<InputInlineQueryResultAudio as Wire>::parse);
        }
        let members = members_of(j, at)?;
        let id = read_field::<String>(members, "id")?;
        let title = read_field::<String>(members, "title")?;
        let performer = read_field::<String>(members, "performer")?;
        let audio_url = read_field::<String>(members, "audioUrl")?;
        let audio_duration = read_field::<i32>(members, "audioDuration")?;
        let reply_markup = read_optional::<ReplyMarkup>(members, "replyMarkup")?;
        let input_message_content = read_field::<InputMessageContent>(
            members,
            "inputMessageContent",
        )?;
        Ok(InputInlineQueryResultAudio {
            id,
            title,
            performer,
            audio_url,
            audio_duration,
            reply_markup,
            input_message_content,
        })
    }

    proof fn round_trip(&self, at: Seq<char>) {
        reveal(<InputInlineQueryResultAudio as Wire>::wire);
        reveal(<InputInlineQueryResultAudio as Wire>::parse);
        reveal_strlit("@type");
        reveal_strlit("audioDuration");
        reveal_strlit("audioUrl");
        reveal_strlit("id");
        reveal_strlit("inputMessageContent");
        reveal_strlit("performer");
        reveal_strlit("replyMarkup");
        reveal_strlit("title");
        assert("@type"@.len() == 5 && "@type"@[0] == '@');
        assert("audioDuration"@.len() == 13);
        assert("audioUrl"@.len() == 8);
        assert("id"@.len() == 2);
        assert("inputMessageContent"@.len() == 19);
        assert("performer"@.len() == 9);
        assert("replyMarkup"@.len() == 11);
        assert("title"@.len() == 5 && "title"@[0] == 't');
        self.id.round_trip("id"@);
        self.title.round_trip("title"@);
        self.performer.round_trip("performer"@);
        self.audio_url.round_trip("audioUrl"@);
        self.audio_duration.round_trip("audioDuration"@);
        self.reply_markup.round_trip("replyMarkup"@);
        self.input_message_content.round_trip("inputMessageContent"@);
    }
}

impl Tagged for InputInlineQueryResultAudio {
    open spec fn known(tag: Seq<char>) -> bool {
        tag == "inputInlineQueryResultAudio"@
    }

    fn knows(tag: &str) -> (r: bool) {
        same_text(tag, "inputInlineQueryResultAudio")
    }

    proof fn tag_known(&self) {
        reveal(<InputInlineQueryResultAudio as Wire>::wire);
        assert(tag_of(self.wire()) == Some("inputInlineQueryResultAudio"@));
        assert(Self::known("inputInlineQueryResultAudio"@));
    }
}

/// Represents a user contact
#[derive(Debug, Clone, PartialEq)]
pub struct InputInlineQueryResultContact {
    /// Unique identifier of the query result
    pub id: String,
    /// User contact
    pub contact: Contact,
    /// URL of the result thumbnail, if it exists
    pub thumbnail_url: String,
    /// Thumbnail width, if known
    pub thumbnail_width: i32,
    /// Thumbnail height, if known
    pub thumbnail_height: i32,
    /// The message reply markup. Must be of type replyMarkupInlineKeyboard or null
    pub reply_markup: Option<ReplyMarkup>,
    /// The content of the message to be sent. Must be one of the following types: InputMessageText,
    /// InputMessageLocation, InputMessageVenue or InputMessageContact
    pub input_message_content: InputMessageContent,
}

impl Wire for InputInlineQueryResultContact {
    #[verifier::opaque]
    open spec fn wire(&self) -> Doc {
        tagged(
            Map::empty()
                .insert("id"@, self.id.wire())
                .insert("contact"@, self.contact.wire())
                .insert("thumbnailUrl"@, self.thumbnail_url.wire())
                .insert("thumbnailWidth"@, self.thumbnail_width.wire())
                .insert("thumbnailHeight"@, self.thumbnail_height.wire())
                .insert("replyMarkup"@, self.reply_markup.wire())
                .insert("inputMessageContent"@, self.input_message_content.wire()),
            "inputInlineQueryResultContact"@,
        )
    }

    #[verifier::opaque]
    open spec fn parse(d: Doc, at: Seq<char>) -> Result<Doc, Fault> {
        match d {
            Doc::Object(m) => {
                let id = field::<String>(m, "id"@);
                let contact = field::<Contact>(m, "contact"@);
                let thumbnail_url = field::<String>(m, "thumbnailUrl"@);
                let thumbnail_width = field::<i32>(m, "thumbnailWidth"@);
                let thumbnail_height = field::<i32>(m, "thumbnailHeight"@);
                let reply_markup = optional_field::<ReplyMarkup>(m, "replyMarkup"@);
                let input_message_content = field::<InputMessageContent>(m, "inputMessageContent"@);
                if id is Err {
                    id
                } else if contact is Err {
                    contact
                } else if thumbnail_url is Err {
                    thumbnail_url
                } else if thumbnail_width is Err {
                    thumbnail_width
                } else if thumbnail_height is Err {
                    thumbnail_height
                } else if reply_markup is Err {
                    reply_markup
                } else if input_message_content is Err {
                    input_message_content
                } else {
                    Ok(
                        tagged(
                            Map::empty()
                                .insert("id"@, id->Ok_0)
                                .insert("contact"@, contact->Ok_0)
                                .insert("thumbnailUrl"@, thumbnail_url->Ok_0)
                                .insert("thumbnailWidth"@, thumbnail_width->Ok_0)
                                .insert("thumbnailHeight"@, thumbnail_height->Ok_0)
                                .insert("replyMarkup"@, reply_markup->Ok_0)
                                .insert("inputMessageContent"@, input_message_content->Ok_0),
                            "inputInlineQueryResultContact"@,
                        ),
                    )
                }
            },
            _ => Err(Fault::TypeMismatch(at)),
        }
    }

    fn encode(&self) -> (j: Json) {
        proof {
            reveal(<InputInlineQueryResultContact as Wire>::wire);
        }
        let mut members: Vec<Member> = Vec::new();
        put(&mut members, "id", self.id.encode());
        put(&mut members, "contact", self.contact.encode());
        put(&mut members, "thumbnailUrl", self.thumbnail_url.encode());
        put(&mut members, "thumbnailWidth", self.thumbnail_width.encode());
        put(&mut members, "thumbnailHeight", self.thumbnail_height.encode());
        put(&mut members, "replyMarkup", self.reply_markup.encode());
        put(&mut members, "inputMessageContent", self.input_message_content.encode());
        seal(members, "inputInlineQueryResultContact")
    }

    fn decode(j: &Json, at: &str) -> (r: Result<Self, DecodeError>) {
        proof {
            reveal(<InputInlineQueryResultContact as Wire>::wire);
            reveal(<InputInlineQueryResultContact as Wire>::parse);
        }
        let members = members_of(j, at)?;
        let id = read_field::<String>(members, "id")?;
        let contact = read_field::<Contact>(members, "contact")?;
        let thumbnail_url = read_field::<String>(members, "thumbnailUrl")?;
        let thumbnail_width = read_field::<i32>(members, "thumbnailWidth")?;
        let thumbnail_height = read_field::<i32>(members, "thumbnailHeight")?;
        let reply_markup = read_optional::<ReplyMarkup>(members, "replyMarkup")?;
        let input_message_content = read_field::<InputMessageContent>(
            members,
            "inputMessageContent",
        )?;
        Ok(InputInlineQueryResultContact {
            id,
            contact,
            thumbnail_url,
            thumbnail_width,
            thumbnail_height,
            reply_markup,
            input_message_content,
        })
    }

    proof fn round_trip(&self, at: Seq<char>) {
        reveal(<InputInlineQueryResultContact as Wire>::wire);
        reveal(<InputInlineQueryResultContact as Wire>::parse);
        reveal_strlit("@type");
        reveal_strlit("contact");
        reveal_strlit("id");
        reveal_strlit("inputMessageContent");
        reveal_strlit("replyMarkup");
        reveal_strlit("thumbnailHeight");
        reveal_strlit("thumbnailUrl");
        reveal_strlit("thumbnailWidth");
        assert("@type"@.len() == 5);
        assert("contact"@.len() == 7);
        assert("id"@.len() == 2);
        assert("inputMessageContent"@.len() == 19);
        assert("replyMarkup"@.len() == 11);
        assert("thumbnailHeight"@.len() == 15);
        assert("thumbnailUrl"@.len() == 12);
        assert("thumbnailWidth"@.len() == 14);
        self.id.round_trip("id"@);
        self.contact.round_trip("contact"@);
        self.thumbnail_url.round_trip("thumbnailUrl"@);
        self.thumbnail_width.round_trip("thumbnailWidth"@);
        self.thumbnail_height.round_trip("thumbnailHeight"@);
        self.reply_markup.round_trip("replyMarkup"@);
        self.input_message_content.round_trip("inputMessageContent"@);
    }
}

impl Tagged for InputInlineQueryResultContact {
    open spec fn known(tag: Seq<char>) -> bool {
        tag == "inputInlineQueryResultContact"@
    }

    fn knows(tag: &str) -> (r: bool) {
        same_text(tag, "inputInlineQueryResultContact")
    }

    proof fn tag_known(&self) {
        reveal(<InputInlineQueryResultContact as Wire>::wire);
        assert(tag_of(self.wire()) == Some("inputInlineQueryResultContact"@));
        assert(Self::known("inputInlineQueryResultContact"@));
    }
}

/// Represents a link to a file
#[derive(Debug, Clone, PartialEq)]
pub struct InputInlineQueryResultDocument {
    /// Unique identifier of the query result
    pub id: String,
    /// Title of the resulting file
    pub title: String,
    /// Represents a link to a file
    pub description: String,
    /// URL of the file
    pub document_url: String,
    /// MIME type of the file content; only "application/pdf" and "application/zip" are currently
    /// allowed
    pub mime_type: String,
    /// The URL of the file thumbnail, if it exists
    pub thumbnail_url: String,
    /// Width of the thumbnail
    pub thumbnail_width: i32,
    /// Height of the thumbnail
    pub thumbnail_height: i32,
    /// The message reply markup. Must be of type replyMarkupInlineKeyboard or null
    pub reply_markup: Option<ReplyMarkup>,
    /// The content of the message to be sent. Must be one of the following types: InputMessageText,
    /// InputMessageDocument, InputMessageLocation, InputMessageVenue or InputMessageContact
    pub input_message_content: InputMessageContent,
}

impl Wire for InputInlineQueryResultDocument {
    #[verifier::opaque]
    open spec fn wire(&self) -> Doc {
        tagged(
            Map::empty()
                .insert("id"@, self.id.wire())
                .insert("title"@, self.title.wire())
                .insert("description"@, self.description.wire())
                .insert("documentUrl"@, self.document_url.wire())
                .insert("mimeType"@, self.mime_type.wire())
                .insert("thumbnailUrl"@, self.thumbnail_url.wire())
                .insert("thumbnailWidth"@, self.thumbnail_width.wire())
                .insert("thumbnailHeight"@, self.thumbnail_height.wire())
                .insert("replyMarkup"@, self.reply_markup.wire())
                .insert("inputMessageContent"@, self.input_message_content.wire()),
            "inputInlineQueryResultDocument"@,
        )
    }

    #[verifier::opaque]
    open spec fn parse(d: Doc, at: Seq<char>) -> Result<Doc, Fault> {
        match d {
            Doc::Object(m) => {
                let id = field::<String>(m, "id"@);
                let title = field::<String>(m, "title"@);
                let description = field::<String>(m, "description"@);
                let document_url = field::<String>(m, "documentUrl"@);
                let mime_type = field::<String>(m, "mimeType"@);
                let thumbnail_url = field::<String>(m, "thumbnailUrl"@);
                let thumbnail_width = field::<i32>(m, "thumbnailWidth"@);
                let thumbnail_height = field::<i32>(m, "thumbnailHeight"@);
                let reply_markup = optional_field::<ReplyMarkup>(m, "replyMarkup"@);
                let input_message_content = field::<InputMessageContent>(m, "inputMessageContent"@);
                if id is Err {
                    id
                } else if title is Err {
                    title
                } else if description is Err {
                    description
                } else if document_url is Err {
                    document_url
                } else if mime_type is Err {
                    mime_type
                } else if thumbnail_url is Err {
                    thumbnail_url
                } else if thumbnail_width is Err {
                    thumbnail_width
                } else if thumbnail_height is Err {
                    thumbnail_height
                } else if reply_markup is Err {
                    reply_markup
                } else if input_message_content is Err {
                    input_message_content
                } else {
                    Ok(
                        tagged(
                            Map::empty()
                                .insert("id"@, id->Ok_0)
                                .insert("title"@, title->Ok_0)
                                .insert("description"@, description->Ok_0)
                                .insert("documentUrl"@, document_url->Ok_0)
                                .insert("mimeType"@, mime_type->Ok_0)
                                .insert("thumbnailUrl"@, thumbnail_url->Ok_0)
                                .insert("thumbnailWidth"@, thumbnail_width->Ok_0)
                                .insert("thumbnailHeight"@, thumbnail_height->Ok_0)
                                .insert("replyMarkup"@, reply_markup->Ok_0)
                                .insert("inputMessageContent"@, input_message_content->Ok_0),
                            "inputInlineQueryResultDocument"@,
                        ),
                    )
                }
            },
            _ => Err(Fault::TypeMismatch(at)),
        }
    }

    fn encode(&self) -> (j: Json) {
        proof {
            reveal(<InputInlineQueryResultDocument as Wire>::wire);
        }
        let mut members: Vec<Member> = Vec::new();
        put(&mut members, "id", self.id.encode());
        put(&mut members, "title", self.title.encode());
        put(&mut members, "description", self.description.encode());
        put(&mut members, "documentUrl", self.document_url.encode());
        put(&mut members, "mimeType", self.mime_type.encode());
        put(&mut members, "thumbnailUrl", self.thumbnail_url.encode());
        put(&mut members, "thumbnailWidth", self.thumbnail_width.encode());
        put(&mut members, "thumbnailHeight", self.thumbnail_height.encode());
        put(&mut members, "replyMarkup", self.reply_markup.encode());
        put(&mut members, "inputMessageContent", self.input_message_content.encode());
        seal(members, "inputInlineQueryResultDocument")
    }

    fn decode(j: &Json, at: &str) -> (r: Result<Self, DecodeError>) {
        proof {
            reveal(<InputInlineQueryResultDocument as Wire>::wire);
            reveal(<InputInlineQueryResultDocument as Wire>::parse);
        }
        let members = members_of(j, at)?;
        let id = read_field::<String>(members, "id")?;
        let title = read_field::<String>(members, "title")?;
        let description = read_field::<String>(members, "description")?;
        let document_url = read_field::<String>(members, "documentUrl")?;
        let mime_type = read_field::<String>(members, "mimeType")?;
        let thumbnail_url = read_field::<String>(members, "thumbnailUrl")?;
        let thumbnail_width = read_field::<i32>(members, "thumbnailWidth")?;
        let thumbnail_height = read_field::<i32>(members, "thumbnailHeight")?;
        let reply_markup = read_optional::<ReplyMarkup>(members, "replyMarkup")?;
        let input_message_content = read_field::<InputMessageContent>(
            members,
            "inputMessageContent",
        )?;
        Ok(InputInlineQueryResultDocument {
            id,
            title,
            description,
            document_url,
            mime_type,
            thumbnail_url,
            thumbnail_width,
            thumbnail_height,
            reply_markup,
            input_message_content,
        })
    }

    proof fn round_trip(&self, at: Seq<char>) {
        reveal(<InputInlineQueryResultDocument as Wire>::wire);
        reveal(<InputInlineQueryResultDocument as Wire>::parse);
        reveal_strlit("@type");
        reveal_strlit("description");
        reveal_strlit("documentUrl");
        reveal_strlit("id");
        reveal_strlit("inputMessageContent");
        reveal_strlit("mimeType");
        reveal_strlit("replyMarkup");
        reveal_strlit("thumbnailHeight");
        reveal_strlit("thumbnailUrl");
        reveal_strlit("thumbnailWidth");
        reveal_strlit("title");
        assert("@type"@.len() == 5 && "@type"@[0] == '@');
        assert("description"@.len() == 11 && "description"@[2] == 's');
        assert("documentUrl"@.len() == 11 && "documentUrl"@[2] == 'c');
        assert("id"@.len() == 2);
        assert("inputMessageContent"@.len() == 19);
        assert("mimeType"@.len() == 8);
        assert("replyMarkup"@.len() == 11 && "replyMarkup"@[2] == 'p');
        assert("thumbnailHeight"@.len() == 15);
        assert("thumbnailUrl"@.len() == 12);
        assert("thumbnailWidth"@.len() == 14);
        assert("title"@.len() == 5 && "title"@[0] == 't');
        self.id.round_trip("id"@);
        self.title.round_trip("title"@);
        self.description.round_trip("description"@);
        self.document_url.round_trip("documentUrl"@);
        self.mime_type.round_trip("mimeType"@);
        self.thumbnail_url.round_trip("thumbnailUrl"@);
        self.thumbnail_width.round_trip("thumbnailWidth"@);
        self.thumbnail_height.round_trip("thumbnailHeight"@);
        self.reply_markup.round_trip("replyMarkup"@);
        self.input_message_content.round_trip("inputMessageContent"@);
        let m = self.wire()->Object_0;
        assert(field::<String>(m, "id"@) == Ok::<Doc, Fault>(self.id.wire()));
        assert(field::<String>(m, "title"@) == Ok::<Doc, Fault>(self.title.wire()));
        assert(field::<String>(m, "description"@) == Ok::<Doc, Fault>(self.description.wire()));
        assert(field::<String>(m, "documentUrl"@) == Ok::<Doc, Fault>(self.document_url.wire()));
        assert(field::<String>(m, "mimeType"@) == Ok::<Doc, Fault>(self.mime_type.wire()));
        assert(field::<String>(m, "thumbnailUrl"@) == Ok::<Doc, Fault>(self.thumbnail_url.wire()));
        assert(field::<i32>(m, "thumbnailWidth"@) == Ok::<Doc, Fault>(self.thumbnail_width.wire()));
        assert(field::<i32>(m, "thumbnailHeight"@)
            == Ok::<Doc, Fault>(self.thumbnail_height.wire()));
        assert(optional_field::<ReplyMarkup>(m, "replyMarkup"@)
            == Ok::<Doc, Fault>(self.reply_markup.wire()));
        assert(field::<InputMessageContent>(m, "inputMessageContent"@)
            == Ok::<Doc, Fault>(self.input_message_content.wire()));
    }
}

impl Tagged for InputInlineQueryResultDocument {
    open spec fn known(tag: Seq<char>) -> bool {
        tag == "inputInlineQueryResultDocument"@
    }

    fn knows(tag: &str) -> (r: bool) {
        same_text(tag, "inputInlineQueryResultDocument")
    }

    proof fn tag_known(&self) {
        reveal(<InputInlineQueryResultDocument as Wire>::wire);
        assert(tag_of(self.wire()) == Some("inputInlineQueryResultDocument"@));
        assert(Self::known("inputInlineQueryResultDocument"@));
    }
}

/// Represents a game
#[derive(Debug, Clone, PartialEq)]
pub struct InputInlineQueryResultGame {
    /// Unique identifier of the query result
    pub id: String,
    /// Short name of the game
    pub game_short_name: String,
    /// Message reply markup. Must be of type replyMarkupInlineKeyboard or null
    pub reply_markup: Option<ReplyMarkup>,
}

impl Wire for InputInlineQueryResultGame {
    #[verifier::opaque]
    open spec fn wire(&self) -> Doc {
        tagged(
            Map::empty()
                .insert("id"@, self.id.wire())
                .insert("gameShortName"@, self.game_short_name.wire())
                .insert("replyMarkup"@, self.reply_markup.wire()),
            "inputInlineQueryResultGame"@,
        )
    }

    #[verifier::opaque]
    open spec fn parse(d: Doc, at: Seq<char>) -> Result<Doc, Fault> {
        match d {
            Doc::Object(m) => {
                let id = field::<String>(m, "id"@);
                let game_short_name = field::<String>(m, "gameShortName"@);
                let reply_markup = optional_field::<ReplyMarkup>(m, "replyMarkup"@);
                if id is Err {
                    id
                } else if game_short_name is Err {
                    game_short_name
                } else if reply_markup is Err {
                    reply_markup
                } else {
                    Ok(
                        tagged(
                            Map::empty()
                                .insert("id"@, id->Ok_0)
                                .insert("gameShortName"@, game_short_name->Ok_0)
                                .insert("replyMarkup"@, reply_markup->Ok_0),
                            "inputInlineQueryResultGame"@,
                        ),
                    )
                }
            },
            _ => Err(Fault::TypeMismatch(at)),
        }
    }

    fn encode(&self) -> (j: Json) {
        proof {
            reveal(<InputInlineQueryResultGame as Wire>::wire);
        }
        let mut members: Vec<Member> = Vec::new();
        put(&mut members, "id", self.id.encode());
        put(&mut members, "gameShortName", self.game_short_name.encode());
        put(&mut members, "replyMarkup", self.reply_markup.encode());
        seal(members, "inputInlineQueryResultGame")
    }

    fn decode(j: &Json, at: &str) -> (r: Result<Self, DecodeError>) {
        proof {
            reveal(<InputInlineQueryResultGame as Wire>::wire);
            reveal(<InputInlineQueryResultGame as Wire>::parse);
        }
        let members = members_of(j, at)?;
        let id = read_field::<String>(members, "id")?;
        let game_short_name = read_field::<String>(members, "gameShortName")?;
        let reply_markup = read_optional::<ReplyMarkup>(members, "replyMarkup")?;
        Ok(InputInlineQueryResultGame { id, game_short_name, reply_markup })
    }

    proof fn round_trip(&self, at: Seq<char>) {
        reveal(<InputInlineQueryResultGame as Wire>::wire);
        reveal(<InputInlineQueryResultGame as Wire>::parse);
        reveal_strlit("@type");
        reveal_strlit("gameShortName");
        reveal_strlit("id");
        reveal_strlit("replyMarkup");
        assert("@type"@.len() == 5);
        assert("gameShortName"@.len() == 13);
        assert("id"@.len() == 2);
        assert("replyMarkup"@.len() == 11);
        self.id.round_trip("id"@);
        self.game_short_name.round_trip("gameShortName"@);
        self.reply_markup.round_trip("replyMarkup"@);
    }
}

impl Tagged for InputInlineQueryResultGame {
    open spec fn known(tag: Seq<char>) -> bool {
        tag == "inputInlineQueryResultGame"@
    }

    fn knows(tag: &str) -> (r: bool) {
        same_text(tag, "inputInlineQueryResultGame")
    }

    proof fn tag_known(&self) {
        reveal(<InputInlineQueryResultGame as Wire>::wire);
        assert(tag_of(self.wire()) == Some("inputInlineQueryResultGame"@));
        assert(Self::known("inputInlineQueryResultGame"@));
    }
}

/// Represents a point on the map
#[derive(Debug, Clone, PartialEq)]
pub struct InputInlineQueryResultLocation {
    /// Unique identifier of the query result
    pub id: String,
    /// Location result
    pub location: Location,
    /// Amount of time relative to the message sent time until the location can be updated, in
    /// seconds
    pub live_period: i32,
    /// Title of the result
    pub title: String,
    /// URL of the result thumbnail, if it exists
    pub thumbnail_url: String,
    /// Thumbnail width, if known
    pub thumbnail_width: i32,
    /// Thumbnail height, if known
    pub thumbnail_height: i32,
    /// The message reply markup. Must be of type replyMarkupInlineKeyboard or null
    pub reply_markup: Option<ReplyMarkup>,
    /// The content of the message to be sent. Must be one of the following types: InputMessageText,
    /// InputMessageLocation, InputMessageVenue or InputMessageContact
    pub input_message_content: InputMessageContent,
}

impl Wire for InputInlineQueryResultLocation {
    #[verifier::opaque]
    open spec fn wire(&self) -> Doc {
        tagged(
            Map::empty()
                .insert("id"@, self.id.wire())
                .insert("location"@, self.location.wire())
                .insert("livePeriod"@, self.live_period.wire())
                .insert("title"@, self.title.wire())
                .insert("thumbnailUrl"@, self.thumbnail_url.wire())
                .insert("thumbnailWidth"@, self.thumbnail_width.wire())
                .insert("thumbnailHeight"@, self.thumbnail_height.wire())
                .insert("replyMarkup"@, self.reply_markup.wire())
                .insert("inputMessageContent"@, self.input_message_content.wire()),
            "inputInlineQueryResultLocation"@,
        )
    }

    #[verifier::opaque]
    open spec fn parse(d: Doc, at: Seq<char>) -> Result<Doc, Fault> {
        match d {
            Doc::Object(m) => {
                let id = field::<String>(m, "id"@);
                let location = field::<Location>(m, "location"@);
                let live_period = field::<i32>(m, "livePeriod"@);
                let title = field::<String>(m, "title"@);
                let thumbnail_url = field::<String>(m, "thumbnailUrl"@);
                let thumbnail_width = field::<i32>(m, "thumbnailWidth"@);
                let thumbnail_height = field::<i32>(m, "thumbnailHeight"@);
                let reply_markup = optional_field::<ReplyMarkup>(m, "replyMarkup"@);
                let input_message_content = field::<InputMessageContent>(m, "inputMessageContent"@);
                if id is Err {
                    id
                } else if location is Err {
                    location
                } else if live_period is Err {
                    live_period
                } else if title is Err {
                    title
                } else if thumbnail_url is Err {
                    thumbnail_url
                } else if thumbnail_width is Err {
                    thumbnail_width
                } else if thumbnail_height is Err {
                    thumbnail_height
                } else if reply_markup is Err {
                    reply_markup
                } else if input_message_content is Err {
                    input_message_content
                } else {
                    Ok(
                        tagged(
                            Map::empty()
                                .insert("id"@, id->Ok_0)
                                .insert("location"@, location->Ok_0)
                                .insert("livePeriod"@, live_period->Ok_0)
                                .insert("title"@, title->Ok_0)
                                .insert("thumbnailUrl"@, thumbnail_url->Ok_0)
                                .insert("thumbnailWidth"@, thumbnail_width->Ok_0)
                                .insert("thumbnailHeight"@, thumbnail_height->Ok_0)
                                .insert("replyMarkup"@, reply_markup->Ok_0)
                                .insert("inputMessageContent"@, input_message_content->Ok_0),
                            "inputInlineQueryResultLocation"@,
                        ),
                    )
                }
            },
            _ => Err(Fault::TypeMismatch(at)),
        }
    }

    fn encode(&self) -> (j: Json) {
        proof {
            reveal(<InputInlineQueryResultLocation as Wire>::wire);
        }
        let mut members: Vec<Member> = Vec::new();
        put(&mut members, "id", self.id.encode());
        put(&mut members, "location", self.location.encode());
        put(&mut members, "livePeriod", self.live_period.encode());
        put(&mut members, "title", self.title.encode());
        put(&mut members, "thumbnailUrl", self.thumbnail_url.encode());
        put(&mut members, "thumbnailWidth", self.thumbnail_width.encode());
        put(&mut members, "thumbnailHeight", self.thumbnail_height.encode());
        put(&mut members, "replyMarkup", self.reply_markup.encode());
        put(&mut members, "inputMessageContent", self.input_message_content.encode());
        seal(members, "inputInlineQueryResultLocation")
    }

    fn decode(j: &Json, at: &str) -> (r: Result<Self, DecodeError>) {
        proof {
            reveal(<InputInlineQueryResultLocation as Wire>::wire);
            reveal(<InputInlineQueryResultLocation as Wire>::parse);
        }
        let members = members_of(j, at)?;
        let id = read_field::<String>(members, "id")?;
        let location = read_field::<Location>(members, "location")?;
        let live_period = read_field::<i32>(members, "livePeriod")?;
        let title = read_field::<String>(members, "title")?;
        let thumbnail_url = read_field::<String>(members, "thumbnailUrl")?;
        let thumbnail_width = read_field::<i32>(members, "thumbnailWidth")?;
        let thumbnail_height = read_field::<i32>(members, "thumbnailHeight")?;
        let reply_markup = read_optional::<ReplyMarkup>(members, "replyMarkup")?;
        let input_message_content = read_field::<InputMessageContent>(
            members,
            "inputMessageContent",
        )?;
        Ok(InputInlineQueryResultLocation {
            id,
            location,
            live_period,
            title,
            thumbnail_url,
            thumbnail_width,
            thumbnail_height,
            reply_markup,
            input_message_content,
        })
    }

    proof fn round_trip(&self, at: Seq<char>) {
        reveal(<InputInlineQueryResultLocation as Wire>::wire);
        reveal(<InputInlineQueryResultLocation as Wire>::parse);
        reveal_strlit("@type");
        reveal_strlit("id");
        reveal_strlit("inputMessageContent");
        reveal_strlit("livePeriod");
        reveal_strlit("location");
        reveal_strlit("replyMarkup");
        reveal_strlit("thumbnailHeight");
        reveal_strlit("thumbnailUrl");
        reveal_strlit("thumbnailWidth");
        reveal_strlit("title");
        assert("@type"@.len() == 5 && "@type"@[0] == '@');
        assert("id"@.len() == 2);
        assert("inputMessageContent"@.len() == 19);
        assert("livePeriod"@.len() == 10);
        assert("location"@.len() == 8);
        assert("replyMarkup"@.len() == 11);
        assert("thumbnailHeight"@.len() == 15);
        assert("thumbnailUrl"@.len() == 12);
        assert("thumbnailWidth"@.len() == 14);
        assert("title"@.len() == 5 && "title"@[0] == 't');
        self.id.round_trip("id"@);
        self.location.round_trip("location"@);
        self.live_period.round_trip("livePeriod"@);
        self.title.round_trip("title"@);
        self.thumbnail_url.round_trip("thumbnailUrl"@);
        self.thumbnail_width.round_trip("thumbnailWidth"@);
        self.thumbnail_height.round_trip("thumbnailHeight"@);
        self.reply_markup.round_trip("replyMarkup"@);
        self.input_message_content.round_trip("inputMessageContent"@);
        let m = self.wire()->Object_0;
        assert(field::<String>(m, "id"@) == Ok::<Doc, Fault>(self.id.wire()));
        assert(field::<Location>(m, "location"@) == Ok::<Doc, Fault>(self.location.wire()));
        assert(field::<i32>(m, "livePeriod"@) == Ok::<Doc, Fault>(self.live_period.wire()));
        assert(field::<String>(m, "title"@) == Ok::<Doc, Fault>(self.title.wire()));
        assert(field::<String>(m, "thumbnailUrl"@) == Ok::<Doc, Fault>(self.thumbnail_url.wire()));
        assert(field::<i32>(m, "thumbnailWidth"@) == Ok::<Doc, Fault>(self.thumbnail_width.wire()));
        assert(field::<i32>(m, "thumbnailHeight"@)
            == Ok::<Doc, Fault>(self.thumbnail_height.wire()));
        assert(optional_field::<ReplyMarkup>(m, "replyMarkup"@)
            == Ok::<Doc, Fault>(self.reply_markup.wire()));
        assert(field::<InputMessageContent>(m, "inputMessageContent"@)
            == Ok::<Doc, Fault>(self.input_message_content.wire()));
    }
}

impl Tagged for InputInlineQueryResultLocation {
    open spec fn known(tag: Seq<char>) -> bool {
        tag == "inputInlineQueryResultLocation"@
    }

    fn knows(tag: &str) -> (r: bool) {
        same_text(tag, "inputInlineQueryResultLocation")
    }

    proof fn tag_known(&self) {
        reveal(<InputInlineQueryResultLocation as Wire>::wire);
        assert(tag_of(self.wire()) == Some("inputInlineQueryResultLocation"@));
        assert(Self::known("inputInlineQueryResultLocation"@));
    }
}

/// Represents link to a JPEG image
#[derive(Debug, Clone, PartialEq)]
pub struct InputInlineQueryResultPhoto {
    /// Unique identifier of the query result
    pub id: String,
    /// Title of the result, if known
    pub title: String,
    /// Represents link to a JPEG image
    pub description: String,
    /// URL of the photo thumbnail, if it exists
    pub thumbnail_url: String,
    /// The URL of the JPEG photo (photo size must not exceed 5MB)
    pub photo_url: String,
    /// Width of the photo
    pub photo_width: i32,
    /// Height of the photo
    pub photo_height: i32,
    /// The message reply markup. Must be of type replyMarkupInlineKeyboard or null
    pub reply_markup: Option<ReplyMarkup>,
    /// The content of the message to be sent. Must be one of the following types: InputMessageText,
    /// InputMessagePhoto, InputMessageLocation, InputMessageVenue or InputMessageContact
    pub input_message_content: InputMessageContent,
}

impl Wire for InputInlineQueryResultPhoto {
    #[verifier::opaque]
    open spec fn wire(&self) -> Doc {
        tagged(
            Map::empty()
                .insert("id"@, self.id.wire())
                .insert("title"@, self.title.wire())
                .insert("description"@, self.description.wire())
                .insert("thumbnailUrl"@, self.thumbnail_url.wire())
                .insert("photoUrl"@, self.photo_url.wire())
                .insert("photoWidth"@, self.photo_width.wire())
                .insert("photoHeight"@, self.photo_height.wire())
                .insert("replyMarkup"@, self.reply_markup.wire())
                .insert("inputMessageContent"@, self.input_message_content.wire()),
            "inputInlineQueryResultPhoto"@,
        )
    }

    #[verifier::opaque]
    open spec fn parse(d: Doc, at: Seq<char>) -> Result<Doc, Fault> {
        match d {
            Doc::Object(m) => {
                let id = field::<String>(m, "id"@);
                let title = field::<String>(m, "title"@);
                let description = field::<String>(m, "description"@);
                let thumbnail_url = field::<String>(m, "thumbnailUrl"@);
                let photo_url = field::<String>(m, "photoUrl"@);
                let photo_width = field::<i32>(m, "photoWidth"@);
                let photo_height = field::<i32>(m, "photoHeight"@);
                let reply_markup = optional_field::<ReplyMarkup>(m, "replyMarkup"@);
                let input_message_content = field::<InputMessageContent>(m, "inputMessageContent"@);
                if id is Err {
                    id
                } else if title is Err {
                    title
                } else if description is Err {
                    description
                } else if thumbnail_url is Err {
                    thumbnail_url
                } else if photo_url is Err {
                    photo_url
                } else if photo_width is Err {
                    photo_width
                } else if photo_height is Err {
                    photo_height
                } else if reply_markup is Err {
                    reply_markup
                } else if input_message_content is Err {
                    input_message_content
                } else {
                    Ok(
                        tagged(
                            Map::empty()
                                .insert("id"@, id->Ok_0)
                                .insert("title"@, title->Ok_0)
                                .insert("description"@, description->Ok_0)
                                .insert("thumbnailUrl"@, thumbnail_url->Ok_0)
                                .insert("photoUrl"@, photo_url->Ok_0)
                                .insert("photoWidth"@, photo_width->Ok_0)
                                .insert("photoHeight"@, photo_height->Ok_0)
                                .insert("replyMarkup"@, reply_markup->Ok_0)
                                .insert("inputMessageContent"@, input_message_content->Ok_0),
                            "inputInlineQueryResultPhoto"@,
                        ),
                    )
                }
            },
            _ => Err(Fault::TypeMismatch(at)),
        }
    }

    fn encode(&self) -> (j: Json) {
        proof {
            reveal(<InputInlineQueryResultPhoto as Wire>::wire);
        }
        let mut members: Vec<Member> = Vec::new();
        put(&mut members, "id", self.id.encode());
        put(&mut members, "title", self.title.encode());
        put(&mut members, "description", self.description.encode());
        put(&mut members, "thumbnailUrl", self.thumbnail_url.encode());
        put(&mut members, "photoUrl", self.photo_url.encode());
        put(&mut members, "photoWidth", self.photo_width.encode());
        put(&mut members, "photoHeight", self.photo_height.encode());
        put(&mut members, "replyMarkup", self.reply_markup.encode());
        put(&mut members, "inputMessageContent", self.input_message_content.encode());
        seal(members, "inputInlineQueryResultPhoto")
    }

    fn decode(j: &Json, at: &str) -> (r: Result<Self, DecodeError>) {
        proof {
            reveal(<InputInlineQueryResultPhoto as Wire>::wire);
            reveal(<InputInlineQueryResultPhoto as Wire>::parse);
        }
        let members = members_of(j, at)?;
        let id = read_field::<String>(members, "id")?;
        let title = read_field::<String>(members, "title")?;
        let description = read_field::<String>(members, "description")?;
        let thumbnail_url = read_field::<String>(members, "thumbnailUrl")?;
        let photo_url = read_field::<String>(members, "photoUrl")?;
        let photo_width = read_field::<i32>(members, "photoWidth")?;
        let photo_height = read_field::<i32>(members, "photoHeight")?;
        let reply_markup = read_optional::<ReplyMarkup>(members, "replyMarkup")?;
        let input_message_content = read_field::<InputMessageContent>(
            members,
            "inputMessageContent",
        )?;
        Ok(InputInlineQueryResultPhoto {
            id,
            title,
            description,
            thumbnail_url,
            photo_url,
            photo_width,
            photo_height,
            reply_markup,
            input_message_content,
        })
    }

    proof fn round_trip(&self, at: Seq<char>) {
        reveal(<InputInlineQueryResultPhoto as Wire>::wire);
        reveal(<InputInlineQueryResultPhoto as Wire>::parse);
        reveal_strlit("@type");
        reveal_strlit("description");
        reveal_strlit("id");
        reveal_strlit("inputMessageContent");
        reveal_strlit("photoHeight");
        reveal_strlit("photoUrl");
        reveal_strlit("photoWidth");
        reveal_strlit("replyMarkup");
        reveal_strlit("thumbnailUrl");
        reveal_strlit("title");
        assert("@type"@.len() == 5 && "@type"@[0] == '@');
        assert("description"@.len() == 11 && "description"@[0] == 'd');
        assert("id"@.len() == 2);
        assert("inputMessageContent"@.len() == 19);
        assert("photoHeight"@.len() == 11 && "photoHeight"@[0] == 'p');
        assert("photoUrl"@.len() == 8);
        assert("photoWidth"@.len() == 10);
        assert("replyMarkup"@.len() == 11 && "replyMarkup"@[0] == 'r');
        assert("thumbnailUrl"@.len() == 12);
        assert("title"@.len() == 5 && "title"@[0] == 't');
        self.id.round_trip("id"@);
        self.title.round_trip("title"@);
        self.description.round_trip("description"@);
        self.thumbnail_url.round_trip("thumbnailUrl"@);
        self.photo_url.round_trip("photoUrl"@);
        self.photo_width.round_trip("photoWidth"@);
        self.photo_height.round_trip("photoHeight"@);
        self.reply_markup.round_trip("replyMarkup"@);
        self.input_message_content.round_trip("inputMessageContent"@);
        let m = self.wire()->Object_0;
        assert(field::<String>(m, "id"@) == Ok::<Doc, Fault>(self.id.wire()));
        assert(field::<String>(m, "title"@) == Ok::<Doc, Fault>(self.title.wire()));
        assert(field::<String>(m, "description"@) == Ok::<Doc, Fault>(self.description.wire()));
        assert(field::<String>(m, "thumbnailUrl"@) == Ok::<Doc, Fault>(self.thumbnail_url.wire()));
        assert(field::<String>(m, "photoUrl"@) == Ok::<Doc, Fault>(self.photo_url.wire()));
        assert(field::<i32>(m, "photoWidth"@) == Ok::<Doc, Fault>(self.photo_width.wire()));
        assert(field::<i32>(m, "photoHeight"@) == Ok::<Doc, Fault>(self.photo_height.wire()));
        assert(optional_field::<ReplyMarkup>(m, "replyMarkup"@)
            == Ok::<Doc, Fault>(self.reply_markup.wire()));
        assert(field::<InputMessageContent>(m, "inputMessageContent"@)
            == Ok::<Doc, Fault>(self.input_message_content.wire()));
    }
}

impl Tagged for InputInlineQueryResultPhoto {
    open spec fn known(tag: Seq<char>) -> bool {
        tag == "inputInlineQueryResultPhoto"@
    }

    fn knows(tag: &str) -> (r: bool) {
        same_text(tag, "inputInlineQueryResultPhoto")
    }

    proof fn tag_known(&self) {
        reveal(<InputInlineQueryResultPhoto as Wire>::wire);
        assert(tag_of(self.wire()) == Some("inputInlineQueryResultPhoto"@));
        assert(Self::known("inputInlineQueryResultPhoto"@));
    }
}

/// Represents a link to a WEBP or TGS sticker
#[derive(Debug, Clone, PartialEq)]
pub struct InputInlineQueryResultSticker {
    /// Unique identifier of the query result
    pub id: String,
    /// URL of the sticker thumbnail, if it exists
    pub thumbnail_url: String,
    /// The URL of the WEBP or TGS sticker (sticker file size must not exceed 5MB)
    pub sticker_url: String,
    /// Width of the sticker
    pub sticker_width: i32,
    /// Height of the sticker
    pub sticker_height: i32,
    /// The message reply markup. Must be of type replyMarkupInlineKeyboard or null
    pub reply_markup: Option<ReplyMarkup>,
    /// The content of the message to be sent. Must be one of the following types: InputMessageText,
    /// inputMessageSticker, InputMessageLocation, InputMessageVenue or InputMessageContact
    pub input_message_content: InputMessageContent,
}

impl Wire for InputInlineQueryResultSticker {
    #[verifier::opaque]
    open spec fn wire(&self) -> Doc {
        tagged(
            Map::empty()
                .insert("id"@, self.id.wire())
                .insert("thumbnailUrl"@, self.thumbnail_url.wire())
                .insert("stickerUrl"@, self.sticker_url.wire())
                .insert("stickerWidth"@, self.sticker_width.wire())
                .insert("stickerHeight"@, self.sticker_height.wire())
                .insert("replyMarkup"@, self.reply_markup.wire())
                .insert("inputMessageContent"@, self.input_message_content.wire()),
            "inputInlineQueryResultSticker"@,
        )
    }

    #[verifier::opaque]
    open spec fn parse(d: Doc, at: Seq<char>) -> Result<Doc, Fault> {
        match d {
            Doc::Object(m) => {
                let id = field::<String>(m, "id"@);
                let thumbnail_url = field::<String>(m, "thumbnailUrl"@);
                let sticker_url = field::<String>(m, "stickerUrl"@);
                let sticker_width = field::<i32>(m, "stickerWidth"@);
                let sticker_height = field::<i32>(m, "stickerHeight"@);
                let reply_markup = optional_field::<ReplyMarkup>(m, "replyMarkup"@);
                let input_message_content = field::<InputMessageContent>(m, "inputMessageContent"@);
                if id is Err {
                    id
                } else if thumbnail_url is Err {
                    thumbnail_url
                } else if sticker_url is Err {
                    sticker_url
                } else if sticker_width is Err {
                    sticker_width
                } else if sticker_height is Err {
                    sticker_height
                } else if reply_markup is Err {
                    reply_markup
                } else if input_message_content is Err {
                    input_message_content
                } else {
                    Ok(
                        tagged(
                            Map::empty()
                                .insert("id"@, id->Ok_0)
                                .insert("thumbnailUrl"@, thumbnail_url->Ok_0)
                                .insert("stickerUrl"@, sticker_url->Ok_0)
                                .insert("stickerWidth"@, sticker_width->Ok_0)
                                .insert("stickerHeight"@, sticker_height->Ok_0)
                                .insert("replyMarkup"@, reply_markup->Ok_0)
                                .insert("inputMessageContent"@, input_message_content->Ok_0),
                            "inputInlineQueryResultSticker"@,
                        ),
                    )
                }
            },
            _ => Err(Fault::TypeMismatch(at)),
        }
    }

    fn encode(&self) -> (j: Json) {
        proof {
            reveal(<InputInlineQueryResultSticker as Wire>::wire);
        }
        let mut members: Vec<Member> = Vec::new();
        put(&mut members, "id", self.id.encode());
        put(&mut members, "thumbnailUrl", self.thumbnail_url.encode());
        put(&mut members, "stickerUrl", self.sticker_url.encode());
        put(&mut members, "stickerWidth", self.sticker_width.encode());
        put(&mut members, "stickerHeight", self.sticker_height.encode());
        put(&mut members, "replyMarkup", self.reply_markup.encode());
        put(&mut members, "inputMessageContent", self.input_message_content.encode());
        seal(members, "inputInlineQueryResultSticker")
    }

    fn decode(j: &Json, at: &str) -> (r: Result<Self, DecodeError>) {
        proof {
            reveal(<InputInlineQueryResultSticker as Wire>::wire);
            reveal(<InputInlineQueryResultSticker as Wire>::parse);
        }
        let members = members_of(j, at)?;
        let id = read_field::<String>(members, "id")?;
        let thumbnail_url = read_field::<String>(members, "thumbnailUrl")?;
        let sticker_url = read_field::<String>(members, "stickerUrl")?;
        let sticker_width = read_field::<i32>(members, "stickerWidth")?;
        let sticker_height = read_field::<i32>(members, "stickerHeight")?;
        let reply_markup = read_optional::<ReplyMarkup>(members, "replyMarkup")?;
        let input_message_content = read_field::<InputMessageContent>(
            members,
            "inputMessageContent",
        )?;
        Ok(InputInlineQueryResultSticker {
            id,
            thumbnail_url,
            sticker_url,
            sticker_width,
            sticker_height,
            reply_markup,
            input_message_content,
        })
    }

    proof fn round_trip(&self, at: Seq<char>) {
        reveal(<InputInlineQueryResultSticker as Wire>::wire);
        reveal(<InputInlineQueryResultSticker as Wire>::parse);
        reveal_strlit("@type");
        reveal_strlit("id");
        reveal_strlit("inputMessageContent");
        reveal_strlit("replyMarkup");
        reveal_strlit("stickerHeight");
        reveal_strlit("stickerUrl");
        reveal_strlit("stickerWidth");
        reveal_strlit("thumbnailUrl");
        assert("@type"@.len() == 5);
        assert("id"@.len() == 2);
        assert("inputMessageContent"@.len() == 19);
        assert("replyMarkup"@.len() == 11);
        assert("stickerHeight"@.len() == 13);
        assert("stickerUrl"@.len() == 10);
        assert("stickerWidth"@.len() == 12 && "stickerWidth"@[0] == 's');
        assert("thumbnailUrl"@.len() == 12 && "thumbnailUrl"@[0] == 't');
        self.id.round_trip("id"@);
        self.thumbnail_url.round_trip("thumbnailUrl"@);
        self.sticker_url.round_trip("stickerUrl"@);
        self.sticker_width.round_trip("stickerWidth"@);
        self.sticker_height.round_trip("stickerHeight"@);
        self.reply_markup.round_trip("replyMarkup"@);
        self.input_message_content.round_trip("inputMessageContent"@);
    }
}

impl Tagged for InputInlineQueryResultSticker {
    open spec fn known(tag: Seq<char>) -> bool {
        tag == "inputInlineQueryResultSticker"@
    }

    fn knows(tag: &str) -> (r: bool) {
        same_text(tag, "inputInlineQueryResultSticker")
    }

    proof fn tag_known(&self) {
        reveal(<InputInlineQueryResultSticker as Wire>::wire);
        assert(tag_of(self.wire()) == Some("inputInlineQueryResultSticker"@));
        assert(Self::known("inputInlineQueryResultSticker"@));
    }
}

/// Represents information about a venue
#[derive(Debug, Clone, PartialEq)]
pub struct InputInlineQueryResultVenue {
    /// Unique identifier of the query result
    pub id: String,
    /// Venue result
    pub venue: Venue,
    /// URL of the result thumbnail, if it exists
    pub thumbnail_url: String,
    /// Thumbnail width, if known
    pub thumbnail_width: i32,
    /// Thumbnail height, if known
    pub thumbnail_height: i32,
    /// The message reply markup. Must be of type replyMarkupInlineKeyboard or null
    pub reply_markup: Option<ReplyMarkup>,
    /// The content of the message to be sent. Must be one of the following types: InputMessageText,
    /// InputMessageLocation, InputMessageVenue or InputMessageContact
    pub input_message_content: InputMessageContent,
}

impl Wire for InputInlineQueryResultVenue {
    #[verifier::opaque]
    open spec fn wire(&self) -> Doc {
        tagged(
            Map::empty()
                .insert("id"@, self.id.wire())
                .insert("venue"@, self.venue.wire())
                .insert("thumbnailUrl"@, self.thumbnail_url.wire())
                .insert("thumbnailWidth"@, self.thumbnail_width.wire())
                .insert("thumbnailHeight"@, self.thumbnail_height.wire())
                .insert("replyMarkup"@, self.reply_markup.wire())
                .insert("inputMessageContent"@, self.input_message_content.wire()),
            "inputInlineQueryResultVenue"@,
        )
    }

    #[verifier::opaque]
    open spec fn parse(d: Doc, at: Seq<char>) -> Result<Doc, Fault> {
        match d {
            Doc::Object(m) => {
                let id = field::<String>(m, "id"@);
                let venue = field::<Venue>(m, "venue"@);
                let thumbnail_url = field::<String>(m, "thumbnailUrl"@);
                let thumbnail_width = field::<i32>(m, "thumbnailWidth"@);
                let thumbnail_height = field::<i32>(m, "thumbnailHeight"@);
                let reply_markup = optional_field::<ReplyMarkup>(m, "replyMarkup"@);
                let input_message_content = field::<InputMessageContent>(m, "inputMessageContent"@);
                if id is Err {
                    id
                } else if venue is Err {
                    venue
                } else if thumbnail_url is Err {
                    thumbnail_url
                } else if thumbnail_width is Err {
                    thumbnail_width
                } else if thumbnail_height is Err {
                    thumbnail_height
                } else if reply_markup is Err {
                    reply_markup
                } else if input_message_content is Err {
                    input_message_content
                } else {
                    Ok(
                        tagged(
                            Map::empty()
                                .insert("id"@, id->Ok_0)
                                .insert("venue"@, venue->Ok_0)
                                .insert("thumbnailUrl"@, thumbnail_url->Ok_0)
                                .insert("thumbnailWidth"@, thumbnail_width->Ok_0)
                                .insert("thumbnailHeight"@, thumbnail_height->Ok_0)
                                .insert("replyMarkup"@, reply_markup->Ok_0)
                                .insert("inputMessageContent"@, input_message_content->Ok_0),
                            "inputInlineQueryResultVenue"@,
                        ),
                    )
                }
            },
            _ => Err(Fault::TypeMismatch(at)),
        }
    }

    fn encode(&self) -> (j: Json) {
        proof {
            reveal(<InputInlineQueryResultVenue as Wire>::wire);
        }
        let mut members: Vec<Member> = Vec::new();
        put(&mut members, "id", self.id.encode());
        put(&mut members, "venue", self.venue.encode());
        put(&mut members, "thumbnailUrl", self.thumbnail_url.encode());
        put(&mut members, "thumbnailWidth", self.thumbnail_width.encode());
        put(&mut members, "thumbnailHeight", self.thumbnail_height.encode());
        put(&mut members, "replyMarkup", self.reply_markup.encode());
        put(&mut members, "inputMessageContent", self.input_message_content.encode());
        seal(members, "inputInlineQueryResultVenue")
    }

    fn decode(j: &Json, at: &str) -> (r: Result<Self, DecodeError>) {
        proof {
            reveal(<InputInlineQueryResultVenue as Wire>::wire);
            reveal(<InputInlineQueryResultVenue as Wire>::parse);
        }
        let members = members_of(j, at)?;
        let id = read_field::<String>(members, "id")?;
        let venue = read_field::<Venue>(members, "venue")?;
        let thumbnail_url = read_field::<String>(members, "thumbnailUrl")?;
        let thumbnail_width = read_field::<i32>(members, "thumbnailWidth")?;
        let thumbnail_height = read_field::<i32>(members, "thumbnailHeight")?;
        let reply_markup = read_optional::<ReplyMarkup>(members, "replyMarkup")?;
        let input_message_content = read_field::<InputMessageContent>(
            members,
            "inputMessageContent",
        )?;
        Ok(InputInlineQueryResultVenue {
            id,
            venue,
            thumbnail_url,
            thumbnail_width,
            thumbnail_height,
            reply_markup,
            input_message_content,
        })
    }

    proof fn round_trip(&self, at: Seq<char>) {
        reveal(<InputInlineQueryResultVenue as Wire>::wire);
        reveal(<InputInlineQueryResultVenue as Wire>::parse);
        reveal_strlit("@type");
        reveal_strlit("id");
        reveal_strlit("inputMessageContent");
        reveal_strlit("replyMarkup");
        reveal_strlit("thumbnailHeight");
        reveal_strlit("thumbnailUrl");
        reveal_strlit("thumbnailWidth");
        reveal_strlit("venue");
        assert("@type"@.len() == 5 && "@type"@[0] == '@');
        assert("id"@.len() == 2);
        assert("inputMessageContent"@.len() == 19);
        assert("replyMarkup"@.len() == 11);
        assert("thumbnailHeight"@.len() == 15);
        assert("thumbnailUrl"@.len() == 12);
        assert("thumbnailWidth"@.len() == 14);
        assert("venue"@.len() == 5 && "venue"@[0] == 'v');
        self.id.round_trip("id"@);
        self.venue.round_trip("venue"@);
        self.thumbnail_url.round_trip("thumbnailUrl"@);
        self.thumbnail_width.round_trip("thumbnailWidth"@);
        self.thumbnail_height.round_trip("thumbnailHeight"@);
        self.reply_markup.round_trip("replyMarkup"@);
        self.input_message_content.round_trip("inputMessageContent"@);
    }
}

impl Tagged for InputInlineQueryResultVenue {
    open spec fn known(tag: Seq<char>) -> bool {
        tag == "inputInlineQueryResultVenue"@
    }

    fn knows(tag: &str) -> (r: bool) {
        same_text(tag, "inputInlineQueryResultVenue")
    }

    proof fn tag_known(&self) {
        reveal(<InputInlineQueryResultVenue as Wire>::wire);
        assert(tag_of(self.wire()) == Some("inputInlineQueryResultVenue"@));
        assert(Self::known("inputInlineQueryResultVenue"@));
    }
}

/// Represents a link to a page containing an embedded video player or a video file
#[derive(Debug, Clone, PartialEq)]
pub struct InputInlineQueryResultVideo {
    /// Unique identifier of the query result
    pub id: String,
    /// Title of the result
    pub title: String,
    /// Represents a link to a page containing an embedded video player or a video file
    pub description: String,
    /// The URL of the video thumbnail (JPEG), if it exists
    pub thumbnail_url: String,
    /// URL of the embedded video player or video file
    pub video_url: String,
    /// MIME type of the content of the video URL, only "text/html" or "video/mp4" are currently
    /// supported
    pub mime_type: String,
    /// Width of the video
    pub video_width: i32,
    /// Height of the video
    pub video_height: i32,
    /// Video duration, in seconds
    pub video_duration: i32,
    /// The message reply markup. Must be of type replyMarkupInlineKeyboard or null
    pub reply_markup: Option<ReplyMarkup>,
    /// The content of the message to be sent. Must be one of the following types: InputMessageText,
    /// InputMessageVideo, InputMessageLocation, InputMessageVenue or InputMessageContact
    pub input_message_content: InputMessageContent,
}

impl Wire for InputInlineQueryResultVideo {
    #[verifier::opaque]
    open spec fn wire(&self) -> Doc {
        tagged(
            Map::empty()
                .insert("id"@, self.id.wire())
                .insert("title"@, self.title.wire())
                .insert("description"@, self.description.wire())
                .insert("thumbnailUrl"@, self.thumbnail_url.wire())
                .insert("videoUrl"@, self.video_url.wire())
                .insert("mimeType"@, self.mime_type.wire())
                .insert("videoWidth"@, self.video_width.wire())
                .insert("videoHeight"@, self.video_height.wire())
                .insert("videoDuration"@, self.video_duration.wire())
                .insert("replyMarkup"@, self.reply_markup.wire())
                .insert("inputMessageContent"@, self.input_message_content.wire()),
            "inputInlineQueryResultVideo"@,
        )
    }

    #[verifier::opaque]
    open spec fn parse(d: Doc, at: Seq<char>) -> Result<Doc, Fault> {
        match d {
            Doc::Object(m) => {
                let id = field::<String>(m, "id"@);
                let title = field::<String>(m, "title"@);
                let description = field::<String>(m, "description"@);
                let thumbnail_url = field::<String>(m, "thumbnailUrl"@);
                let video_url = field::<String>(m, "videoUrl"@);
                let mime_type = field::<String>(m, "mimeType"@);
                let video_width = field::<i32>(m, "videoWidth"@);
                let video_height = field::<i32>(m, "videoHeight"@);
                let video_duration = field::<i32>(m, "videoDuration"@);
                let reply_markup = optional_field::<ReplyMarkup>(m, "replyMarkup"@);
                let input_message_content = field::<InputMessageContent>(m, "inputMessageContent"@);
                if id is Err {
                    id
                } else if title is Err {
                    title
                } else if description is Err {
                    description
                } else if thumbnail_url is Err {
                    thumbnail_url
                } else if video_url is Err {
                    video_url
                } else if mime_type is Err {
                    mime_type
                } else if video_width is Err {
                    video_width
                } else if video_height is Err {
                    video_height
                } else if video_duration is Err {
                    video_duration
                } else if reply_markup is Err {
                    reply_markup
                } else if input_message_content is Err {
                    input_message_content
                } else {
                    Ok(
                        tagged(
                            Map::empty()
                                .insert("id"@, id->Ok_0)
                                .insert("title"@, title->Ok_0)
                                .insert("description"@, description->Ok_0)
                                .insert("thumbnailUrl"@, thumbnail_url->Ok_0)
                                .insert("videoUrl"@, video_url->Ok_0)
                                .insert("mimeType"@, mime_type->Ok_0)
                                .insert("videoWidth"@, video_width->Ok_0)
                                .insert("videoHeight"@, video_height->Ok_0)
                                .insert("videoDuration"@, video_duration->Ok_0)
                                .insert("replyMarkup"@, reply_markup->Ok_0)
                                .insert("inputMessageContent"@, input_message_content->Ok_0),
                            "inputInlineQueryResultVideo"@,
                        ),
                    )
                }
            },
            _ => Err(Fault::TypeMismatch(at)),
        }
    }

    fn encode(&self) -> (j: Json) {
        proof {
            reveal(<InputInlineQueryResultVideo as Wire>::wire);
        }
        let mut members: Vec<Member> = Vec::new();
        put(&mut members, "id", self.id.encode());
        put(&mut members, "title", self.title.encode());
        put(&mut members, "description", self.description.encode());
        put(&mut members, "thumbnailUrl", self.thumbnail_url.encode());
        put(&mut members, "videoUrl", self.video_url.encode());
        put(&mut members, "mimeType", self.mime_type.encode());
        put(&mut members, "videoWidth", self.video_width.encode());
        put(&mut members, "videoHeight", self.video_height.encode());
        put(&mut members, "videoDuration", self.video_duration.encode());
        put(&mut members, "replyMarkup", self.reply_markup.encode());
        put(&mut members, "inputMessageContent", self.input_message_content.encode());
        seal(members, "inputInlineQueryResultVideo")
    }

    fn decode(j: &Json, at: &str) -> (r: Result<Self, DecodeError>) {
        proof {
            reveal(<InputInlineQueryResultVideo as Wire>::wire);
            reveal(<InputInlineQueryResultVideo as Wire>::parse);
        }
        let members = members_of(j, at)?;
        let id = read_field::<String>(members, "id")?;
        let title = read_field::<String>(members, "title")?;
        let description = read_field::<String>(members, "description")?;
        let thumbnail_url = read_field::<String>(members, "thumbnailUrl")?;
        let video_url = read_field::<String>(members, "videoUrl")?;
        let mime_type = read_field::<String>(members, "mimeType")?;
        let video_width = read_field::<i32>(members, "videoWidth")?;
        let video_height = read_field::<i32>(members, "videoHeight")?;
        let video_duration = read_field::<i32>(members, "videoDuration")?;
        let reply_markup = read_optional::<ReplyMarkup>(members, "replyMarkup")?;
        let input_message_content = read_field::<InputMessageContent>(
            members,
            "inputMessageContent",
        )?;
        Ok(InputInlineQueryResultVideo {
            id,
            title,
            description,
            thumbnail_url,
            video_url,
            mime_type,
            video_width,
            video_height,
            video_duration,
            reply_markup,
            input_message_content,
        })
    }

    proof fn round_trip(&self, at: Seq<char>) {
        reveal(<InputInlineQueryResultVideo as Wire>::wire);
        reveal(<InputInlineQueryResultVideo as Wire>::parse);
        reveal_strlit("@type");
        reveal_strlit("description");
        reveal_strlit("id");
        reveal_strlit("inputMessageContent");
        reveal_strlit("mimeType");
        reveal_strlit("replyMarkup");
        reveal_strlit("thumbnailUrl");
        reveal_strlit("title");
        reveal_strlit("videoDuration");
        reveal_strlit("videoHeight");
        reveal_strlit("videoUrl");
        reveal_strlit("videoWidth");
        assert("@type"@.len() == 5 && "@type"@[0] == '@');
        assert("description"@.len() == 11 && "description"@[0] == 'd');
        assert("id"@.len() == 2);
        assert("inputMessageContent"@.len() == 19);
        assert("mimeType"@.len() == 8 && "mimeType"@[0] == 'm');
        assert("replyMarkup"@.len() == 11 && "replyMarkup"@[0] == 'r');
        assert("thumbnailUrl"@.len() == 12);
        assert("title"@.len() == 5 && "title"@[0] == 't');
        assert("videoDuration"@.len() == 13);
        assert("videoHeight"@.len() == 11 && "videoHeight"@[0] == 'v');
        assert("videoUrl"@.len() == 8 && "videoUrl"@[0] == 'v');
        assert("videoWidth"@.len() == 10);
        self.id.round_trip("id"@);
        self.title.round_trip("title"@);
        self.description.round_trip("description"@);
        self.thumbnail_url.round_trip("thumbnailUrl"@);
        self.video_url.round_trip("videoUrl"@);
        self.mime_type.round_trip("mimeType"@);
        self.video_width.round_trip("videoWidth"@);
        self.video_height.round_trip("videoHeight"@);
        self.video_duration.round_trip("videoDuration"@);
        self.reply_markup.round_trip("replyMarkup"@);
        self.input_message_content.round_trip("inputMessageContent"@);
        let m = self.wire()->Object_0;
        assert(field::<String>(m, "id"@) == Ok::<Doc, Fault>(self.id.wire()));
        assert(field::<String>(m, "title"@) == Ok::<Doc, Fault>(self.title.wire()));
        assert(field::<String>(m, "description"@) == Ok::<Doc, Fault>(self.description.wire()));
        assert(field::<String>(m, "thumbnailUrl"@) == Ok::<Doc, Fault>(self.thumbnail_url.wire()));
        assert(field::<String>(m, "videoUrl"@) == Ok::<Doc, Fault>(self.video_url.wire()));
        assert(field::<String>(m, "mimeType"@) == Ok::<Doc, Fault>(self.mime_type.wire()));
        assert(field::<i32>(m, "videoWidth"@) == Ok::<Doc, Fault>(self.video_width.wire()));
        assert(field::<i32>(m, "videoHeight"@) == Ok::<Doc, Fault>(self.video_height.wire()));
        assert(field::<i32>(m, "videoDuration"@) == Ok::<Doc, Fault>(self.video_duration.wire()));
        assert(optional_field::<ReplyMarkup>(m, "replyMarkup"@)
            == Ok::<Doc, Fault>(self.reply_markup.wire()));
        assert(field::<InputMessageContent>(m, "inputMessageContent"@)
            == Ok::<Doc, Fault>(self.input_message_content.wire()));
    }
}

impl Tagged for InputInlineQueryResultVideo {
    open spec fn known(tag: Seq<char>) -> bool {
        tag == "inputInlineQueryResultVideo"@
    }

    fn knows(tag: &str) -> (r: bool) {
        same_text(tag, "inputInlineQueryResultVideo")
    }

    proof fn tag_known(&self) {
        reveal(<InputInlineQueryResultVideo as Wire>::wire);
        assert(tag_of(self.wire()) == Some("inputInlineQueryResultVideo"@));
        assert(Self::known("inputInlineQueryResultVideo"@));
    }
}

/// Represents a link to an opus-encoded audio file within an OGG container, single channel audio
#[derive(Debug, Clone, PartialEq)]
pub struct InputInlineQueryResultVoiceNote {
    /// Unique identifier of the query result
    pub id: String,
    /// Title of the voice note
    pub title: String,
    /// The URL of the voice note file
    pub voice_note_url: String,
    /// Duration of the voice note, in seconds
    pub voice_note_duration: i32,
    /// The message reply markup. Must be of type replyMarkupInlineKeyboard or null
    pub reply_markup: Option<ReplyMarkup>,
    /// The content of the message to be sent. Must be one of the following types: InputMessageText,
    /// InputMessageVoiceNote, InputMessageLocation, InputMessageVenue or InputMessageContact
    pub input_message_content: InputMessageContent,
}

impl Wire for InputInlineQueryResultVoiceNote {
    #[verifier::opaque]
    open spec fn wire(&self) -> Doc {
        tagged(
            Map::empty()
                .insert("id"@, self.id.wire())
                .insert("title"@, self.title.wire())
                .insert("voiceNoteUrl"@, self.voice_note_url.wire())
                .insert("voiceNoteDuration"@, self.voice_note_duration.wire())
                .insert("replyMarkup"@, self.reply_markup.wire())
                .insert("inputMessageContent"@, self.input_message_content.wire()),
            "inputInlineQueryResultVoiceNote"@,
        )
    }

    #[verifier::opaque]
    open spec fn parse(d: Doc, at: Seq<char>) -> Result<Doc, Fault> {
        match d {
            Doc::Object(m) => {
                let id = field::<String>(m, "id"@);
                let title = field::<String>(m, "title"@);
                let voice_note_url = field::<String>(m, "voiceNoteUrl"@);
                let voice_note_duration = field::<i32>(m, "voiceNoteDuration"@);
                let reply_markup = optional_field::<ReplyMarkup>(m, "replyMarkup"@);
                let input_message_content = field::<InputMessageContent>(m, "inputMessageContent"@);
                if id is Err {
                    id
                } else if title is Err {
                    title
                } else if voice_note_url is Err {
                    voice_note_url
                } else if voice_note_duration is Err {
                    voice_note_duration
                } else if reply_markup is Err {
                    reply_markup
                } else if input_message_content is Err {
                    input_message_content
                } else {
                    Ok(
                        tagged(
                            Map::empty()
                                .insert("id"@, id->Ok_0)
                                .insert("title"@, title->Ok_0)
                                .insert("voiceNoteUrl"@, voice_note_url->Ok_0)
                                .insert("voiceNoteDuration"@, voice_note_duration->Ok_0)
                                .insert("replyMarkup"@, reply_markup->Ok_0)
                                .insert("inputMessageContent"@, input_message_content->Ok_0),
                            "inputInlineQueryResultVoiceNote"@,
                        ),
                    )
                }
            },
            _ => Err(Fault::TypeMismatch(at)),
        }
    }

    fn encode(&self) -> (j: Json) {
        proof {
            reveal(<InputInlineQueryResultVoiceNote as Wire>::wire);
        }
        let mut members: Vec<Member> = Vec::new();
        put(&mut members, "id", self.id.encode());
        put(&mut members, "title", self.title.encode());
        put(&mut members, "voiceNoteUrl", self.voice_note_url.encode());
        put(&mut members, "voiceNoteDuration", self.voice_note_duration.encode());
        put(&mut members, "replyMarkup", self.reply_markup.encode());
        put(&mut members, "inputMessageContent", self.input_message_content.encode());
        seal(members, "inputInlineQueryResultVoiceNote")
    }

    fn decode(j: &Json, at: &str) -> (r: Result<Self, DecodeError>) {
        proof {
            reveal(<InputInlineQueryResultVoiceNote as Wire>::wire);
            reveal(<InputInlineQueryResultVoiceNote as Wire>::parse);
        }
        let members = members_of(j, at)?;
        let id = read_field::<String>(members, "id")?;
        let title = read_field::<String>(members, "title")?;
        let voice_note_url = read_field::<String>(members, "voiceNoteUrl")?;
        let voice_note_duration = read_field::<i32>(members, "voiceNoteDuration")?;
        let reply_markup = read_optional::<ReplyMarkup>(members, "replyMarkup")?;
        let input_message_content = read_field::<InputMessageContent>(
            members,
            "inputMessageContent",
        )?;
        Ok(InputInlineQueryResultVoiceNote {
            id,
            title,
            voice_note_url,
            voice_note_duration,
            reply_markup,
            input_message_content,
        })
    }

    proof fn round_trip(&self, at: Seq<char>) {
        reveal(<InputInlineQueryResultVoiceNote as Wire>::wire);
        reveal(<InputInlineQueryResultVoiceNote as Wire>::parse);
        reveal_strlit("@type");
        reveal_strlit("id");
        reveal_strlit("inputMessageContent");
        reveal_strlit("replyMarkup");
        reveal_strlit("title");
        reveal_strlit("voiceNoteDuration");
        reveal_strlit("voiceNoteUrl");
        assert("@type"@.len() == 5 && "@type"@[0] == '@');
        assert("id"@.len() == 2);
        assert("inputMessageContent"@.len() == 19);
        assert("replyMarkup"@.len() == 11);
        assert("title"@.len() == 5 && "title"@[0] == 't');
        assert("voiceNoteDuration"@.len() == 17);
        assert("voiceNoteUrl"@.len() == 12);
        self.id.round_trip("id"@);
        self.title.round_trip("title"@);
        self.voice_note_url.round_trip("voiceNoteUrl"@);
        self.voice_note_duration.round_trip("voiceNoteDuration"@);
        self.reply_markup.round_trip("replyMarkup"@);
        self.input_message_content.round_trip("inputMessageContent"@);
    }
}

impl Tagged for InputInlineQueryResultVoiceNote {
    open spec fn known(tag: Seq<char>) -> bool {
        tag == "inputInlineQueryResultVoiceNote"@
    }

    fn knows(tag: &str) -> (r: bool) {
        same_text(tag, "inputInlineQueryResultVoiceNote")
    }

    proof fn tag_known(&self) {
        reveal(<InputInlineQueryResultVoiceNote as Wire>::wire);
        assert(tag_of(self.wire()) == Some("inputInlineQueryResultVoiceNote"@));
        assert(Self::known("inputInlineQueryResultVoiceNote"@));
    }
}

/// Represents a single result of an inline query; for bots only
#[derive(Debug, Clone, PartialEq)]
pub enum InputInlineQueryResult {
    InputInlineQueryResultAnimatedGif(InputInlineQueryResultAnimatedGif),
    InputInlineQueryResultAnimatedMpeg4(InputInlineQueryResultAnimatedMpeg4),
    InputInlineQueryResultArticle(InputInlineQueryResultArticle),
    InputInlineQueryResultAudio(InputInlineQueryResultAudio),
    InputInlineQueryResultContact(InputInlineQueryResultContact),
    InputInlineQueryResultDocument(InputInlineQueryResultDocument),
    InputInlineQueryResultGame(InputInlineQueryResultGame),
    InputInlineQueryResultLocation(InputInlineQueryResultLocation),
    InputInlineQueryResultPhoto(InputInlineQueryResultPhoto),
    InputInlineQueryResultSticker(InputInlineQueryResultSticker),
    InputInlineQueryResultVenue(InputInlineQueryResultVenue),
    InputInlineQueryResultVideo(InputInlineQueryResultVideo),
    InputInlineQueryResultVoiceNote(InputInlineQueryResultVoiceNote),
}

impl Wire for InputInlineQueryResult {
    #[verifier::opaque]
    open spec fn wire(&self) -> Doc {
        match self {
            Self::InputInlineQueryResultAnimatedGif(p) => p.wire(),
            Self::InputInlineQueryResultAnimatedMpeg4(p) => p.wire(),
            Self::InputInlineQueryResultArticle(p) => p.wire(),
            Self::InputInlineQueryResultAudio(p) => p.wire(),
            Self::InputInlineQueryResultContact(p) => p.wire(),
            Self::InputInlineQueryResultDocument(p) => p.wire(),
            Self::InputInlineQueryResultGame(p) => p.wire(),
            Self::InputInlineQueryResultLocation(p) => p.wire(),
            Self::InputInlineQueryResultPhoto(p) => p.wire(),
            Self::InputInlineQueryResultSticker(p) => p.wire(),
            Self::InputInlineQueryResultVenue(p) => p.wire(),
            Self::InputInlineQueryResultVideo(p) => p.wire(),
            Self::InputInlineQueryResultVoiceNote(p) => p.wire(),
        }
    }

    #[verifier::opaque]
    open spec fn parse(d: Doc, at: Seq<char>) -> Result<Doc, Fault> {
        match d {
            Doc::Object(_) => match tag_of(d) {
                Some(t) => if t == "inputInlineQueryResultAnimatedGif"@ {
                    InputInlineQueryResultAnimatedGif::parse(d, at)
                } else if t == "inputInlineQueryResultAnimatedMpeg4"@ {
                    InputInlineQueryResultAnimatedMpeg4::parse(d, at)
                } else if t == "inputInlineQueryResultArticle"@ {
                    InputInlineQueryResultArticle::parse(d, at)
                } else if t == "inputInlineQueryResultAudio"@ {
                    InputInlineQueryResultAudio::parse(d, at)
                } else if t == "inputInlineQueryResultContact"@ {
                    InputInlineQueryResultContact::parse(d, at)
                } else if t == "inputInlineQueryResultDocument"@ {
                    InputInlineQueryResultDocument::parse(d, at)
                } else if t == "inputInlineQueryResultGame"@ {
                    InputInlineQueryResultGame::parse(d, at)
                } else if t == "inputInlineQueryResultLocation"@ {
                    InputInlineQueryResultLocation::parse(d, at)
                } else if t == "inputInlineQueryResultPhoto"@ {
                    InputInlineQueryResultPhoto::parse(d, at)
                } else if t == "inputInlineQueryResultSticker"@ {
                    InputInlineQueryResultSticker::parse(d, at)
                } else if t == "inputInlineQueryResultVenue"@ {
                    InputInlineQueryResultVenue::parse(d, at)
                } else if t == "inputInlineQueryResultVideo"@ {
                    InputInlineQueryResultVideo::parse(d, at)
                } else if t == "inputInlineQueryResultVoiceNote"@ {
                    InputInlineQueryResultVoiceNote::parse(d, at)
                } else {
                    Err(Fault::UnknownVariant(t))
                },
                None => Err(Fault::MissingDiscriminator),
            },
            _ => Err(Fault::TypeMismatch(at)),
        }
    }

    fn encode(&self) -> (j: Json) {
        proof {
            reveal(<InputInlineQueryResult as Wire>::wire);
        }
        match self {
            Self::InputInlineQueryResultAnimatedGif(p) => p.encode(),
            Self::InputInlineQueryResultAnimatedMpeg4(p) => p.encode(),
            Self::InputInlineQueryResultArticle(p) => p.encode(),
            Self::InputInlineQueryResultAudio(p) => p.encode(),
            Self::InputInlineQueryResultContact(p) => p.encode(),
            Self::InputInlineQueryResultDocument(p) => p.encode(),
            Self::InputInlineQueryResultGame(p) => p.encode(),
            Self::InputInlineQueryResultLocation(p) => p.encode(),
            Self::InputInlineQueryResultPhoto(p) => p.encode(),
            Self::InputInlineQueryResultSticker(p) => p.encode(),
            Self::InputInlineQueryResultVenue(p) => p.encode(),
            Self::InputInlineQueryResultVideo(p) => p.encode(),
            Self::InputInlineQueryResultVoiceNote(p) => p.encode(),
        }
    }

    fn decode(j: &Json, at: &str) -> (r: Result<Self, DecodeError>) {
        proof {
            reveal(<InputInlineQueryResult as Wire>::wire);
            reveal(<InputInlineQueryResult as Wire>::parse);
        }
        let members = members_of(j, at)?;
        let tag = discriminator(members)?;
        if same_text(tag, "inputInlineQueryResultAnimatedGif") {
            Ok(
                Self::InputInlineQueryResultAnimatedGif(
                    InputInlineQueryResultAnimatedGif::decode(j, at)?,
                ),
            )
        } else if same_text(tag, "inputInlineQueryResultAnimatedMpeg4") {
            Ok(
                Self::InputInlineQueryResultAnimatedMpeg4(
                    InputInlineQueryResultAnimatedMpeg4::decode(j, at)?,
                ),
            )
        } else if same_text(tag, "inputInlineQueryResultArticle") {
            Ok(Self::InputInlineQueryResultArticle(InputInlineQueryResultArticle::decode(j, at)?))
        } else if same_text(tag, "inputInlineQueryResultAudio") {
            Ok(Self::InputInlineQueryResultAudio(InputInlineQueryResultAudio::decode(j, at)?))
        } else if same_text(tag, "inputInlineQueryResultContact") {
            Ok(Self::InputInlineQueryResultContact(InputInlineQueryResultContact::decode(j, at)?))
        } else if same_text(tag, "inputInlineQueryResultDocument") {
            Ok(Self::InputInlineQueryResultDocument(InputInlineQueryResultDocument::decode(j, at)?))
        } else if same_text(tag, "inputInlineQueryResultGame") {
            Ok(Self::InputInlineQueryResultGame(InputInlineQueryResultGame::decode(j, at)?))
        } else if same_text(tag, "inputInlineQueryResultLocation") {
            Ok(Self::InputInlineQueryResultLocation(InputInlineQueryResultLocation::decode(j, at)?))
        } else if same_text(tag, "inputInlineQueryResultPhoto") {
            Ok(Self::InputInlineQueryResultPhoto(InputInlineQueryResultPhoto::decode(j, at)?))
        } else if same_text(tag, "inputInlineQueryResultSticker") {
            Ok(Self::InputInlineQueryResultSticker(InputInlineQueryResultSticker::decode(j, at)?))
        } else if same_text(tag, "inputInlineQueryResultVenue") {
            Ok(Self::InputInlineQueryResultVenue(InputInlineQueryResultVenue::decode(j, at)?))
        } else if same_text(tag, "inputInlineQueryResultVideo") {
            Ok(Self::InputInlineQueryResultVideo(InputInlineQueryResultVideo::decode(j, at)?))
        } else if same_text(tag, "inputInlineQueryResultVoiceNote") {
            Ok(
                Self::InputInlineQueryResultVoiceNote(
                    InputInlineQueryResultVoiceNote::decode(j, at)?,
                ),
            )
        } else {
            Err(DecodeError::UnknownVariant(tag.to_owned()))
        }
    }

    proof fn round_trip(&self, at: Seq<char>) {
        reveal(<InputInlineQueryResult as Wire>::wire);
        reveal(<InputInlineQueryResult as Wire>::parse);
        reveal_strlit("inputInlineQueryResultAnimatedGif");
        reveal_strlit("inputInlineQueryResultAnimatedMpeg4");
        reveal_strlit("inputInlineQueryResultArticle");
        reveal_strlit("inputInlineQueryResultAudio");
        reveal_strlit("inputInlineQueryResultContact");
        reveal_strlit("inputInlineQueryResultDocument");
        reveal_strlit("inputInlineQueryResultGame");
        reveal_strlit("inputInlineQueryResultLocation");
        reveal_strlit("inputInlineQueryResultPhoto");
        reveal_strlit("inputInlineQueryResultSticker");
        reveal_strlit("inputInlineQueryResultVenue");
        reveal_strlit("inputInlineQueryResultVideo");
        reveal_strlit("inputInlineQueryResultVoiceNote");
        assert("inputInlineQueryResultAnimatedGif"@.len() == 33);
        assert("inputInlineQueryResultAnimatedMpeg4"@.len() == 35);
        assert({
            &&& "inputInlineQueryResultArticle"@.len() == 29
            &&& "inputInlineQueryResultArticle"@[22] == 'A'
        });
        assert({
            &&& "inputInlineQueryResultAudio"@.len() == 27
            &&& "inputInlineQueryResultAudio"@[23] == 'u'
        });
        assert({
            &&& "inputInlineQueryResultContact"@.len() == 29
            &&& "inputInlineQueryResultContact"@[22] == 'C'
        });
        assert({
            &&& "inputInlineQueryResultDocument"@.len() == 30
            &&& "inputInlineQueryResultDocument"@[22] == 'D'
        });
        assert("inputInlineQueryResultGame"@.len() == 26);
        assert({
            &&& "inputInlineQueryResultLocation"@.len() == 30
            &&& "inputInlineQueryResultLocation"@[22] == 'L'
        });
        assert({
            &&& "inputInlineQueryResultPhoto"@.len() == 27
            &&& "inputInlineQueryResultPhoto"@[23] == 'h'
        });
        assert({
            &&& "inputInlineQueryResultSticker"@.len() == 29
            &&& "inputInlineQueryResultSticker"@[22] == 'S'
        });
        assert({
            &&& "inputInlineQueryResultVenue"@.len() == 27
            &&& "inputInlineQueryResultVenue"@[23] == 'e'
        });
        assert({
            &&& "inputInlineQueryResultVideo"@.len() == 27
            &&& "inputInlineQueryResultVideo"@[23] == 'i'
        });
        assert("inputInlineQueryResultVoiceNote"@.len() == 31);
        match self {
            Self::InputInlineQueryResultAnimatedGif(p) => {
                p.tag_known();
                p.round_trip(at);
            },
            Self::InputInlineQueryResultAnimatedMpeg4(p) => {
                p.tag_known();
                p.round_trip(at);
            },
            Self::InputInlineQueryResultArticle(p) => {
                p.tag_known();
                p.round_trip(at);
            },
            Self::InputInlineQueryResultAudio(p) => {
                p.tag_known();
                p.round_trip(at);
            },
            Self::InputInlineQueryResultContact(p) => {
                p.tag_known();
                p.round_trip(at);
            },
            Self::InputInlineQueryResultDocument(p) => {
                p.tag_known();
                p.round_trip(at);
            },
            Self::InputInlineQueryResultGame(p) => {
                p.tag_known();
                p.round_trip(at);
            },
            Self::InputInlineQueryResultLocation(p) => {
                p.tag_known();
                p.round_trip(at);
            },
            Self::InputInlineQueryResultPhoto(p) => {
                p.tag_known();
                p.round_trip(at);
            },
            Self::InputInlineQueryResultSticker(p) => {
                p.tag_known();
                p.round_trip(at);
            },
            Self::InputInlineQueryResultVenue(p) => {
                p.tag_known();
                p.round_trip(at);
            },
            Self::InputInlineQueryResultVideo(p) => {
                p.tag_known();
                p.round_trip(at);
            },
            Self::InputInlineQueryResultVoiceNote(p) => {
                p.tag_known();
                p.round_trip(at);
            },
        }
    }
}

impl Tagged for InputInlineQueryResult {
    open spec fn known(tag: Seq<char>) -> bool {
        ||| tag == "inputInlineQueryResultAnimatedGif"@
        ||| tag == "inputInlineQueryResultAnimatedMpeg4"@
        ||| tag == "inputInlineQueryResultArticle"@
        ||| tag == "inputInlineQueryResultAudio"@
        ||| tag == "inputInlineQueryResultContact"@
        ||| tag == "inputInlineQueryResultDocument"@
        ||| tag == "inputInlineQueryResultGame"@
        ||| tag == "inputInlineQueryResultLocation"@
        ||| tag == "inputInlineQueryResultPhoto"@
        ||| tag == "inputInlineQueryResultSticker"@
        ||| tag == "inputInlineQueryResultVenue"@
        ||| tag == "inputInlineQueryResultVideo"@
        ||| tag == "inputInlineQueryResultVoiceNote"@
    }

    fn knows(tag: &str) -> (r: bool) {
        same_text(tag, "inputInlineQueryResultAnimatedGif")
            || same_text(tag, "inputInlineQueryResultAnimatedMpeg4")
            || same_text(tag, "inputInlineQueryResultArticle")
            || same_text(tag, "inputInlineQueryResultAudio")
            || same_text(tag, "inputInlineQueryResultContact")
            || same_text(tag, "inputInlineQueryResultDocument")
            || same_text(tag, "inputInlineQueryResultGame")
            || same_text(tag, "inputInlineQueryResultLocation")
            || same_text(tag, "inputInlineQueryResultPhoto")
            || same_text(tag, "inputInlineQueryResultSticker")
            || same_text(tag, "inputInlineQueryResultVenue")
            || same_text(tag, "inputInlineQueryResultVideo")
            || same_text(tag, "inputInlineQueryResultVoiceNote")
    }

    proof fn tag_known(&self) {
        reveal(<InputInlineQueryResult as Wire>::wire);
        match self {
            Self::InputInlineQueryResultAnimatedGif(p) => p.tag_known(),
            Self::InputInlineQueryResultAnimatedMpeg4(p) => p.tag_known(),
            Self::InputInlineQueryResultArticle(p) => p.tag_known(),
            Self::InputInlineQueryResultAudio(p) => p.tag_known(),
            Self::InputInlineQueryResultContact(p) => p.tag_known(),
            Self::InputInlineQueryResultDocument(p) => p.tag_known(),
            Self::InputInlineQueryResultGame(p) => p.tag_known(),
            Self::InputInlineQueryResultLocation(p) => p.tag_known(),
            Self::InputInlineQueryResultPhoto(p) => p.tag_known(),
            Self::InputInlineQueryResultSticker(p) => p.tag_known(),
            Self::InputInlineQueryResultVenue(p) => p.tag_known(),
            Self::InputInlineQueryResultVideo(p) => p.tag_known(),
            Self::InputInlineQueryResultVoiceNote(p) => p.tag_known(),
        }
    }
}

impl Union for InputInlineQueryResult {
    proof fn unknown_rejected(d: Doc, at: Seq<char>) {
        reveal(<InputInlineQueryResult as Wire>::parse);
    }

    proof fn untagged_rejected(d: Doc, at: Seq<char>) {
        reveal(<InputInlineQueryResult as Wire>::parse);
    }
}

/// Represents a link to an article or web page
#[derive(Debug, Clone, PartialEq)]
pub struct InlineQueryResultArticle {
    /// Unique identifier of the query result
    pub id: String,
    /// URL of the result, if it exists
    pub url: String,
    /// True, if the URL must be not shown
    pub hide_url: bool,
    /// Title of the result
    pub title: String,
    /// Represents a link to an article or web page
    pub description: String,
    /// Result thumbnail; may be null
    pub thumbnail: Option<PhotoSize>,
}

impl Wire for InlineQueryResultArticle {
    #[verifier::opaque]
    open spec fn wire(&self) -> Doc {
        tagged(
            Map::empty()
                .insert("id"@, self.id.wire())
                .insert("url"@, self.url.wire())
                .insert("hideUrl"@, self.hide_url.wire())
                .insert("title"@, self.title.wire())
                .insert("description"@, self.description.wire())
                .insert("thumbnail"@, self.thumbnail.wire()),
            "inlineQueryResultArticle"@,
        )
    }

    #[verifier::opaque]
    open spec fn parse(d: Doc, at: Seq<char>) -> Result<Doc, Fault> {
        match d {
            Doc::Object(m) => {
                let id = field::<String>(m, "id"@);
                let url = field::<String>(m, "url"@);
                let hide_url = field::<bool>(m, "hideUrl"@);
                let title = field::<String>(m, "title"@);
                let description = field::<String>(m, "description"@);
                let thumbnail = optional_field::<PhotoSize>(m, "thumbnail"@);
                if id is Err {
                    id
                } else if url is Err {
                    url
                } else if hide_url is Err {
                    hide_url
                } else if title is Err {
                    title
                } else if description is Err {
                    description
                } else if thumbnail is Err {
                    thumbnail
                } else {
                    Ok(
                        tagged(
                            Map::empty()
                                .insert("id"@, id->Ok_0)
                                .insert("url"@, url->Ok_0)
                                .insert("hideUrl"@, hide_url->Ok_0)
                                .insert("title"@, title->Ok_0)
                                .insert("description"@, description->Ok_0)
                                .insert("thumbnail"@, thumbnail->Ok_0),
                            "inlineQueryResultArticle"@,
                        ),
                    )
                }
            },
            _ => Err(Fault::TypeMismatch(at)),
        }
    }

    fn encode(&self) -> (j: Json) {
        proof {
            reveal(<InlineQueryResultArticle as Wire>::wire);
        }
        let mut members: Vec<Member> = Vec::new();
        put(&mut members, "id", self.id.encode());
        put(&mut members, "url", self.url.encode());
        put(&mut members, "hideUrl", self.hide_url.encode());
        put(&mut members, "title", self.title.encode());
        put(&mut members, "description", self.description.encode());
        put(&mut members, "thumbnail", self.thumbnail.encode());
        seal(members, "inlineQueryResultArticle")
    }

    fn decode(j: &Json, at: &str) -> (r: Result<Self, DecodeError>) {
        proof {
            reveal(<InlineQueryResultArticle as Wire>::wire);
            reveal(<InlineQueryResultArticle as Wire>::parse);
        }
        let members = members_of(j, at)?;
        let id = read_field::<String>(members, "id")?;
        let url = read_field::<String>(members, "url")?;
        let hide_url = read_field::<bool>(members, "hideUrl")?;
        let title = read_field::<String>(members, "title")?;
        let description = read_field::<String>(members, "description")?;
        let thumbnail = read_optional::<PhotoSize>(members, "thumbnail")?;
        Ok(InlineQueryResultArticle { id, url, hide_url, title, description, thumbnail })
    }

    proof fn round_trip(&self, at: Seq<char>) {
        reveal(<InlineQueryResultArticle as Wire>::wire);
        reveal(<InlineQueryResultArticle as Wire>::parse);
        reveal_strlit("@type");
        reveal_strlit("description");
        reveal_strlit("hideUrl");
        reveal_strlit("id");
        reveal_strlit("thumbnail");
        reveal_strlit("title");
        reveal_strlit("url");
        assert("@type"@.len() == 5 && "@type"@[0] == '@');
        assert("description"@.len() == 11);
        assert("hideUrl"@.len() == 7);
        assert("id"@.len() == 2);
        assert("thumbnail"@.len() == 9);
        assert("title"@.len() == 5 && "title"@[0] == 't');
        assert("url"@.len() == 3);
        self.id.round_trip("id"@);
        self.url.round_trip("url"@);
        self.hide_url.round_trip("hideUrl"@);
        self.title.round_trip("title"@);
        self.description.round_trip("description"@);
        self.thumbnail.round_trip("thumbnail"@);
    }
}

impl Tagged for InlineQueryResultArticle {
    open spec fn known(tag: Seq<char>) -> bool {
        tag == "inlineQueryResultArticle"@
    }

    fn knows(tag: &str) -> (r: bool) {
        same_text(tag, "inlineQueryResultArticle")
    }

    proof fn tag_known(&self) {
        reveal(<InlineQueryResultArticle as Wire>::wire);
        assert(tag_of(self.wire()) == Some("inlineQueryResultArticle"@));
        assert(Self::known("inlineQueryResultArticle"@));
    }
}

/// Represents a user contact
#[derive(Debug, Clone, PartialEq)]
pub struct InlineQueryResultContact {
    /// Unique identifier of the query result
    pub id: String,
    /// A user contact
    pub contact: Contact,
    /// Result thumbnail; may be null
    pub thumbnail: Option<PhotoSize>,
}

impl Wire for InlineQueryResultContact {
    #[verifier::opaque]
    open spec fn wire(&self) -> Doc {
        tagged(
            Map::empty()
                .insert("id"@, self.id.wire())
                .insert("contact"@, self.contact.wire())
                .insert("thumbnail"@, self.thumbnail.wire()),
            "inlineQueryResultContact"@,
        )
    }

    #[verifier::opaque]
    open spec fn parse(d: Doc, at: Seq<char>) -> Result<Doc, Fault> {
        match d {
            Doc::Object(m) => {
                let id = field::<String>(m, "id"@);
                let contact = field::<Contact>(m, "contact"@);
                let thumbnail = optional_field::<PhotoSize>(m, "thumbnail"@);
                if id is Err {
                    id
                } else if contact is Err {
                    contact
                } else if thumbnail is Err {
                    thumbnail
                } else {
                    Ok(
                        tagged(
                            Map::empty()
                                .insert("id"@, id->Ok_0)
                                .insert("contact"@, contact->Ok_0)
                                .insert("thumbnail"@, thumbnail->Ok_0),
                            "inlineQueryResultContact"@,
                        ),
                    )
                }
            },
            _ => Err(Fault::TypeMismatch(at)),
        }
    }

    fn encode(&self) -> (j: Json) {
        proof {
            reveal(<InlineQueryResultContact as Wire>::wire);
        }
        let mut members: Vec<Member> = Vec::new();
        put(&mut members, "id", self.id.encode());
        put(&mut members, "contact", self.contact.encode());
        put(&mut members, "thumbnail", self.thumbnail.encode());
        seal(members, "inlineQueryResultContact")
    }

    fn decode(j: &Json, at: &str) -> (r: Result<Self, DecodeError>) {
        proof {
            reveal(<InlineQueryResultContact as Wire>::wire);
            reveal(<InlineQueryResultContact as Wire>::parse);
        }
        let members = members_of(j, at)?;
        let id = read_field::<String>(members, "id")?;
        let contact = read_field::<Contact>(members, "contact")?;
        let thumbnail = read_optional::<PhotoSize>(members, "thumbnail")?;
        Ok(InlineQueryResultContact { id, contact, thumbnail })
    }

    proof fn round_trip(&self, at: Seq<char>) {
        reveal(<InlineQueryResultContact as Wire>::wire);
        reveal(<InlineQueryResultContact as Wire>::parse);
        reveal_strlit("@type");
        reveal_strlit("contact");
        reveal_strlit("id");
        reveal_strlit("thumbnail");
        assert("@type"@.len() == 5);
        assert("contact"@.len() == 7);
        assert("id"@.len() == 2);
        assert("thumbnail"@.len() == 9);
        self.id.round_trip("id"@);
        self.contact.round_trip("contact"@);
        self.thumbnail.round_trip("thumbnail"@);
    }
}

impl Tagged for InlineQueryResultContact {
    open spec fn known(tag: Seq<char>) -> bool {
        tag == "inlineQueryResultContact"@
    }

    fn knows(tag: &str) -> (r: bool) {
        same_text(tag, "inlineQueryResultContact")
    }

    proof fn tag_known(&self) {
        reveal(<InlineQueryResultContact as Wire>::wire);
        assert(tag_of(self.wire()) == Some("inlineQueryResultContact"@));
        assert(Self::known("inlineQueryResultContact"@));
    }
}

/// Represents a point on the map
#[derive(Debug, Clone, PartialEq)]
pub struct InlineQueryResultLocation {
    /// Unique identifier of the query result
    pub id: String,
    /// Location result
    pub location: Location,
    /// Title of the result
    pub title: String,
    /// Result thumbnail; may be null
    pub thumbnail: Option<PhotoSize>,
}

impl Wire for InlineQueryResultLocation {
    #[verifier::opaque]
    open spec fn wire(&self) -> Doc {
        tagged(
            Map::empty()
                .insert("id"@, self.id.wire())
                .insert("location"@, self.location.wire())
                .insert("title"@, self.title.wire())
                .insert("thumbnail"@, self.thumbnail.wire()),
            "inlineQueryResultLocation"@,
        )
    }

    #[verifier::opaque]
    open spec fn parse(d: Doc, at: Seq<char>) -> Result<Doc, Fault> {
        match d {
            Doc::Object(m) => {
                let id = field::<String>(m, "id"@);
                let location = field::<Location>(m, "location"@);
                let title = field::<String>(m, "title"@);
                let thumbnail = optional_field::<PhotoSize>(m, "thumbnail"@);
                if id is Err {
                    id
                } else if location is Err {
                    location
                } else if title is Err {
                    title
                } else if thumbnail is Err {
                    thumbnail
                } else {
                    Ok(
                        tagged(
                            Map::empty()
                                .insert("id"@, id->Ok_0)
                                .insert("location"@, location->Ok_0)
                                .insert("title"@, title->Ok_0)
                                .insert("thumbnail"@, thumbnail->Ok_0),
                            "inlineQueryResultLocation"@,
                        ),
                    )
                }
            },
            _ => Err(Fault::TypeMismatch(at)),
        }
    }

    fn encode(&self) -> (j: Json) {
        proof {
            reveal(<InlineQueryResultLocation as Wire>::wire);
        }
        let mut members: Vec<Member> = Vec::new();
        put(&mut members, "id", self.id.encode());
        put(&mut members, "location", self.location.encode());
        put(&mut members, "title", self.title.encode());
        put(&mut members, "thumbnail", self.thumbnail.encode());
        seal(members, "inlineQueryResultLocation")
    }

    fn decode(j: &Json, at: &str) -> (r: Result<Self, DecodeError>) {
        proof {
            reveal(<InlineQueryResultLocation as Wire>::wire);
            reveal(<InlineQueryResultLocation as Wire>::parse);
        }
        let members = members_of(j, at)?;
        let id = read_field::<String>(members, "id")?;
        let location = read_field::<Location>(members, "location")?;
        let title = read_field::<String>(members, "title")?;
        let thumbnail = read_optional::<PhotoSize>(members, "thumbnail")?;
        Ok(InlineQueryResultLocation { id, location, title, thumbnail })
    }

    proof fn round_trip(&self, at: Seq<char>) {
        reveal(<InlineQueryResultLocation as Wire>::wire);
        reveal(<InlineQueryResultLocation as Wire>::parse);
        reveal_strlit("@type");
        reveal_strlit("id");
        reveal_strlit("location");
        reveal_strlit("thumbnail");
        reveal_strlit("title");
        assert("@type"@.len() == 5 && "@type"@[0] == '@');
        assert("id"@.len() == 2);
        assert("location"@.len() == 8);
        assert("thumbnail"@.len() == 9);
        assert("title"@.len() == 5 && "title"@[0] == 't');
        self.id.round_trip("id"@);
        self.location.round_trip("location"@);
        self.title.round_trip("title"@);
        self.thumbnail.round_trip("thumbnail"@);
    }
}

impl Tagged for InlineQueryResultLocation {
    open spec fn known(tag: Seq<char>) -> bool {
        tag == "inlineQueryResultLocation"@
    }

    fn knows(tag: &str) -> (r: bool) {
        same_text(tag, "inlineQueryResultLocation")
    }

    proof fn tag_known(&self) {
        reveal(<InlineQueryResultLocation as Wire>::wire);
        assert(tag_of(self.wire()) == Some("inlineQueryResultLocation"@));
        assert(Self::known("inlineQueryResultLocation"@));
    }
}

/// Represents information about a venue
#[derive(Debug, Clone, PartialEq)]
pub struct InlineQueryResultVenue {
    /// Unique identifier of the query result
    pub id: String,
    /// Venue result
    pub venue: Venue,
    /// Result thumbnail; may be null
    pub thumbnail: Option<PhotoSize>,
}

impl Wire for InlineQueryResultVenue {
    #[verifier::opaque]
    open spec fn wire(&self) -> Doc {
        tagged(
            Map::empty()
                .insert("id"@, self.id.wire())
                .insert("venue"@, self.venue.wire())
                .insert("thumbnail"@, self.thumbnail.wire()),
            "inlineQueryResultVenue"@,
        )
    }

    #[verifier::opaque]
    open spec fn parse(d: Doc, at: Seq<char>) -> Result<Doc, Fault> {
        match d {
            Doc::Object(m) => {
                let id = field::<String>(m, "id"@);
                let venue = field::<Venue>(m, "venue"@);
                let thumbnail = optional_field::<PhotoSize>(m, "thumbnail"@);
                if id is Err {
                    id
                } else if venue is Err {
                    venue
                } else if thumbnail is Err {
                    thumbnail
                } else {
                    Ok(
                        tagged(
                            Map::empty()
                                .insert("id"@, id->Ok_0)
                                .insert("venue"@, venue->Ok_0)
                                .insert("thumbnail"@, thumbnail->Ok_0),
                            "inlineQueryResultVenue"@,
                        ),
                    )
                }
            },
            _ => Err(Fault::TypeMismatch(at)),
        }
    }

    fn encode(&self) -> (j: Json) {
        proof {
            reveal(<InlineQueryResultVenue as Wire>::wire);
        }
        let mut members: Vec<Member> = Vec::new();
        put(&mut members, "id", self.id.encode());
        put(&mut members, "venue", self.venue.encode());
        put(&mut members, "thumbnail", self.thumbnail.encode());
        seal(members, "inlineQueryResultVenue")
    }

    fn decode(j: &Json, at: &str) -> (r: Result<Self, DecodeError>) {
        proof {
            reveal(<InlineQueryResultVenue as Wire>::wire);
            reveal(<InlineQueryResultVenue as Wire>::parse);
        }
        let members = members_of(j, at)?;
        let id = read_field::<String>(members, "id")?;
        let venue = read_field::<Venue>(members, "venue")?;
        let thumbnail = read_optional::<PhotoSize>(members, "thumbnail")?;
        Ok(InlineQueryResultVenue { id, venue, thumbnail })
    }

    proof fn round_trip(&self, at: Seq<char>) {
        reveal(<InlineQueryResultVenue as Wire>::wire);
        reveal(<InlineQueryResultVenue as Wire>::parse);
        reveal_strlit("@type");
        reveal_strlit("id");
        reveal_strlit("thumbnail");
        reveal_strlit("venue");
        assert("@type"@.len() == 5 && "@type"@[0] == '@');
        assert("id"@.len() == 2);
        assert("thumbnail"@.len() == 9);
        assert("venue"@.len() == 5 && "venue"@[0] == 'v');
        self.id.round_trip("id"@);
        self.venue.round_trip("venue"@);
        self.thumbnail.round_trip("thumbnail"@);
    }
}

impl Tagged for InlineQueryResultVenue {
    open spec fn known(tag: Seq<char>) -> bool {
        tag == "inlineQueryResultVenue"@
    }

    fn knows(tag: &str) -> (r: bool) {
        same_text(tag, "inlineQueryResultVenue")
    }

    proof fn tag_known(&self) {
        reveal(<InlineQueryResultVenue as Wire>::wire);
        assert(tag_of(self.wire()) == Some("inlineQueryResultVenue"@));
        assert(Self::known("inlineQueryResultVenue"@));
    }
}

/// Represents information about a game
#[derive(Debug, Clone, PartialEq)]
pub struct InlineQueryResultGame {
    /// Unique identifier of the query result
    pub id: String,
    /// Game result
    pub game: Game,
}

impl Wire for InlineQueryResultGame {
    #[verifier::opaque]
    open spec fn wire(&self) -> Doc {
        tagged(
            Map::empty()
                .insert("id"@, self.id.wire())
                .insert("game"@, self.game.wire()),
            "inlineQueryResultGame"@,
        )
    }

    #[verifier::opaque]
    open spec fn parse(d: Doc, at: Seq<char>) -> Result<Doc, Fault> {
        match d {
            Doc::Object(m) => {
                let id = field::<String>(m, "id"@);
                let game = field::<Game>(m, "game"@);
                if id is Err {
                    id
                } else if game is Err {
                    game
                } else {
                    Ok(
                        tagged(
                            Map::empty()
                                .insert("id"@, id->Ok_0)
                                .insert("game"@, game->Ok_0),
                            "inlineQueryResultGame"@,
                        ),
                    )
                }
            },
            _ => Err(Fault::TypeMismatch(at)),
        }
    }

    fn encode(&self) -> (j: Json) {
        proof {
            reveal(<InlineQueryResultGame as Wire>::wire);
        }
        let mut members: Vec<Member> = Vec::new();
        put(&mut members, "id", self.id.encode());
        put(&mut members, "game", self.game.encode());
        seal(members, "inlineQueryResultGame")
    }

    fn decode(j: &Json, at: &str) -> (r: Result<Self, DecodeError>) {
        proof {
            reveal(<InlineQueryResultGame as Wire>::wire);
            reveal(<InlineQueryResultGame as Wire>::parse);
        }
        let members = members_of(j, at)?;
        let id = read_field::<String>(members, "id")?;
        let game = read_field::<Game>(members, "game")?;
        Ok(InlineQueryResultGame { id, game })
    }

    proof fn round_trip(&self, at: Seq<char>) {
        reveal(<InlineQueryResultGame as Wire>::wire);
        reveal(<InlineQueryResultGame as Wire>::parse);
        reveal_strlit("@type");
        reveal_strlit("game");
        reveal_strlit("id");
        assert("@type"@.len() == 5);
        assert("game"@.len() == 4);
        assert("id"@.len() == 2);
        self.id.round_trip("id"@);
        self.game.round_trip("game"@);
    }
}

impl Tagged for InlineQueryResultGame {
    open spec fn known(tag: Seq<char>) -> bool {
        tag == "inlineQueryResultGame"@
    }

    fn knows(tag: &str) -> (r: bool) {
        same_text(tag, "inlineQueryResultGame")
    }

    proof fn tag_known(&self) {
        reveal(<InlineQueryResultGame as Wire>::wire);
        assert(tag_of(self.wire()) == Some("inlineQueryResultGame"@));
        assert(Self::known("inlineQueryResultGame"@));
    }
}

/// Represents an animation file
#[derive(Debug, Clone, PartialEq)]
pub struct InlineQueryResultAnimation {
    /// Unique identifier of the query result
    pub id: String,
    /// Animation file
    pub animation: Animation,
    /// Animation title
    pub title: String,
}

impl Wire for InlineQueryResultAnimation {
    #[verifier::opaque]
    open spec fn wire(&self) -> Doc {
        tagged(
            Map::empty()
                .insert("id"@, self.id.wire())
                .insert("animation"@, self.animation.wire())
                .insert("title"@, self.title.wire()),
            "inlineQueryResultAnimation"@,
        )
    }

    #[verifier::opaque]
    open spec fn parse(d: Doc, at: Seq<char>) -> Result<Doc, Fault> {
        match d {
            Doc::Object(m) => {
                let id = field::<String>(m, "id"@);
                let animation = field::<Animation>(m, "animation"@);
                let title = field::<String>(m, "title"@);
                if id is Err {
                    id
                } else if animation is Err {
                    animation
                } else if title is Err {
                    title
                } else {
                    Ok(
                        tagged(
                            Map::empty()
                                .insert("id"@, id->Ok_0)
                                .insert("animation"@, animation->Ok_0)
                                .insert("title"@, title->Ok_0),
                            "inlineQueryResultAnimation"@,
                        ),
                    )
                }
            },
            _ => Err(Fault::TypeMismatch(at)),
        }
    }

    fn encode(&self) -> (j: Json) {
        proof {
            reveal(<InlineQueryResultAnimation as Wire>::wire);
        }
        let mut members: Vec<Member> = Vec::new();
        put(&mut members, "id", self.id.encode());
        put(&mut members, "animation", self.animation.encode());
        put(&mut members, "title", self.title.encode());
        seal(members, "inlineQueryResultAnimation")
    }

    fn decode(j: &Json, at: &str) -> (r: Result<Self, DecodeError>) {
        proof {
            reveal(<InlineQueryResultAnimation as Wire>::wire);
            reveal(<InlineQueryResultAnimation as Wire>::parse);
        }
        let members = members_of(j, at)?;
        let id = read_field::<String>(members, "id")?;
        let animation = read_field::<Animation>(members, "animation")?;
        let title = read_field::<String>(members, "title")?;
        Ok(InlineQueryResultAnimation { id, animation, title })
    }

    proof fn round_trip(&self, at: Seq<char>) {
        reveal(<InlineQueryResultAnimation as Wire>::wire);
        reveal(<InlineQueryResultAnimation as Wire>::parse);
        reveal_strlit("@type");
        reveal_strlit("animation");
        reveal_strlit("id");
        reveal_strlit("title");
        assert("@type"@.len() == 5 && "@type"@[0] == '@');
        assert("animation"@.len() == 9);
        assert("id"@.len() == 2);
        assert("title"@.len() == 5 && "title"@[0] == 't');
        self.id.round_trip("id"@);
        self.animation.round_trip("animation"@);
        self.title.round_trip("title"@);
    }
}

impl Tagged for InlineQueryResultAnimation {
    open spec fn known(tag: Seq<char>) -> bool {
        tag == "inlineQueryResultAnimation"@
    }

    fn knows(tag: &str) -> (r: bool) {
        same_text(tag, "inlineQueryResultAnimation")
    }

    proof fn tag_known(&self) {
        reveal(<InlineQueryResultAnimation as Wire>::wire);
        assert(tag_of(self.wire()) == Some("inlineQueryResultAnimation"@));
        assert(Self::known("inlineQueryResultAnimation"@));
    }
}

/// Represents an audio file
#[derive(Debug, Clone, PartialEq)]
pub struct InlineQueryResultAudio {
    /// Unique identifier of the query result
    pub id: String,
    /// Audio file
    pub audio: Audio,
}

impl Wire for InlineQueryResultAudio {
    #[verifier::opaque]
    open spec fn wire(&self) -> Doc {
        tagged(
            Map::empty()
                .insert("id"@, self.id.wire())
                .insert("audio"@, self.audio.wire()),
            "inlineQueryResultAudio"@,
        )
    }

    #[verifier::opaque]
    open spec fn parse(d: Doc, at: Seq<char>) -> Result<Doc, Fault> {
        match d {
            Doc::Object(m) => {
                let id = field::<String>(m, "id"@);
                let audio = field::<Audio>(m, "audio"@);
                if id is Err {
                    id
                } else if audio is Err {
                    audio
                } else {
                    Ok(
                        tagged(
                            Map::empty()
                                .insert("id"@, id->Ok_0)
                                .insert("audio"@, audio->Ok_0),
                            "inlineQueryResultAudio"@,
                        ),
                    )
                }
            },
            _ => Err(Fault::TypeMismatch(at)),
        }
    }

    fn encode(&self) -> (j: Json) {
        proof {
            reveal(<InlineQueryResultAudio as Wire>::wire);
        }
        let mut members: Vec<Member> = Vec::new();
        put(&mut members, "id", self.id.encode());
        put(&mut members, "audio", self.audio.encode());
        seal(members, "inlineQueryResultAudio")
    }

    fn decode(j: &Json, at: &str) -> (r: Result<Self, DecodeError>) {
        proof {
            reveal(<InlineQueryResultAudio as Wire>::wire);
            reveal(<InlineQueryResultAudio as Wire>::parse);
        }
        let members = members_of(j, at)?;
        let id = read_field::<String>(members, "id")?;
        let audio = read_field::<Audio>(members, "audio")?;
        Ok(InlineQueryResultAudio { id, audio })
    }

    proof fn round_trip(&self, at: Seq<char>) {
        reveal(<InlineQueryResultAudio as Wire>::wire);
        reveal(<InlineQueryResultAudio as Wire>::parse);
        reveal_strlit("@type");
        reveal_strlit("audio");
        reveal_strlit("id");
        assert("@type"@.len() == 5 && "@type"@[0] == '@');
        assert("audio"@.len() == 5 && "audio"@[0] == 'a');
        assert("id"@.len() == 2);
        self.id.round_trip("id"@);
        self.audio.round_trip("audio"@);
    }
}

impl Tagged for InlineQueryResultAudio {
    open spec fn known(tag: Seq<char>) -> bool {
        tag == "inlineQueryResultAudio"@
    }

    fn knows(tag: &str) -> (r: bool) {
        same_text(tag, "inlineQueryResultAudio")
    }

    proof fn tag_known(&self) {
        reveal(<InlineQueryResultAudio as Wire>::wire);
        assert(tag_of(self.wire()) == Some("inlineQueryResultAudio"@));
        assert(Self::known("inlineQueryResultAudio"@));
    }
}

/// Represents a document
#[derive(Debug, Clone, PartialEq)]
pub struct InlineQueryResultDocument {
    /// Unique identifier of the query result
    pub id: String,
    /// Document
    pub document: Document,
    /// Document title
    pub title: String,
    /// Represents a document
    pub description: String,
}

impl Wire for InlineQueryResultDocument {
    #[verifier::opaque]
    open spec fn wire(&self) -> Doc {
        tagged(
            Map::empty()
                .insert("id"@, self.id.wire())
                .insert("document"@, self.document.wire())
                .insert("title"@, self.title.wire())
                .insert("description"@, self.description.wire()),
            "inlineQueryResultDocument"@,
        )
    }

    #[verifier::opaque]
    open spec fn parse(d: Doc, at: Seq<char>) -> Result<Doc, Fault> {
        match d {
            Doc::Object(m) => {
                let id = field::<String>(m, "id"@);
                let document = field::<Document>(m, "document"@);
                let title = field::<String>(m, "title"@);
                let description = field::<String>(m, "description"@);
                if id is Err {
                    id
                } else if document is Err {
                    document
                } else if title is Err {
                    title
                } else if description is Err {
                    description
                } else {
                    Ok(
                        tagged(
                            Map::empty()
                                .insert("id"@, id->Ok_0)
                                .insert("document"@, document->Ok_0)
                                .insert("title"@, title->Ok_0)
                                .insert("description"@, description->Ok_0),
                            "inlineQueryResultDocument"@,
                        ),
                    )
                }
            },
            _ => Err(Fault::TypeMismatch(at)),
        }
    }

    fn encode(&self) -> (j: Json) {
        proof {
            reveal(<InlineQueryResultDocument as Wire>::wire);
        }
        let mut members: Vec<Member> = Vec::new();
        put(&mut members, "id", self.id.encode());
        put(&mut members, "document", self.document.encode());
        put(&mut members, "title", self.title.encode());
        put(&mut members, "description", self.description.encode());
        seal(members, "inlineQueryResultDocument")
    }

    fn decode(j: &Json, at: &str) -> (r: Result<Self, DecodeError>) {
        proof {
            reveal(<InlineQueryResultDocument as Wire>::wire);
            reveal(<InlineQueryResultDocument as Wire>::parse);
        }
        let members = members_of(j, at)?;
        let id = read_field::<String>(members, "id")?;
        let document = read_field::<Document>(members, "document")?;
        let title = read_field::<String>(members, "title")?;
        let description = read_field::<String>(members, "description")?;
        Ok(InlineQueryResultDocument { id, document, title, description })
    }

    proof fn round_trip(&self, at: Seq<char>) {
        reveal(<InlineQueryResultDocument as Wire>::wire);
        reveal(<InlineQueryResultDocument as Wire>::parse);
        reveal_strlit("@type");
        reveal_strlit("description");
        reveal_strlit("document");
        reveal_strlit("id");
        reveal_strlit("title");
        assert("@type"@.len() == 5 && "@type"@[0] == '@');
        assert("description"@.len() == 11);
        assert("document"@.len() == 8);
        assert("id"@.len() == 2);
        assert("title"@.len() == 5 && "title"@[0] == 't');
        self.id.round_trip("id"@);
        self.document.round_trip("document"@);
        self.title.round_trip("title"@);
        self.description.round_trip("description"@);
    }
}

impl Tagged for InlineQueryResultDocument {
    open spec fn known(tag: Seq<char>) -> bool {
        tag == "inlineQueryResultDocument"@
    }

    fn knows(tag: &str) -> (r: bool) {
        same_text(tag, "inlineQueryResultDocument")
    }

    proof fn tag_known(&self) {
        reveal(<InlineQueryResultDocument as Wire>::wire);
        assert(tag_of(self.wire()) == Some("inlineQueryResultDocument"@));
        assert(Self::known("inlineQueryResultDocument"@));
    }
}

/// Represents a photo
#[derive(Debug, Clone, PartialEq)]
pub struct InlineQueryResultPhoto {
    /// Unique identifier of the query result
    pub id: String,
    /// Photo
    pub photo: Photo,
    /// Title of the result, if known
    pub title: String,
    /// Represents a photo
    pub description: String,
}

impl Wire for InlineQueryResultPhoto {
    #[verifier::opaque]
    open spec fn wire(&self) -> Doc {
        tagged(
            Map::empty()
                .insert("id"@, self.id.wire())
                .insert("photo"@, self.photo.wire())
                .insert("title"@, self.title.wire())
                .insert("description"@, self.description.wire()),
            "inlineQueryResultPhoto"@,
        )
    }

    #[verifier::opaque]
    open spec fn parse(d: Doc, at: Seq<char>) -> Result<Doc, Fault> {
        match d {
            Doc::Object(m) => {
                let id = field::<String>(m, "id"@);
                let photo = field::<Photo>(m, "photo"@);
                let title = field::<String>(m, "title"@);
                let description = field::<String>(m, "description"@);
                if id is Err {
                    id
                } else if photo is Err {
                    photo
                } else if title is Err {
                    title
                } else if description is Err {
                    description
                } else {
                    Ok(
                        tagged(
                            Map::empty()
                                .insert("id"@, id->Ok_0)
                                .insert("photo"@, photo->Ok_0)
                                .insert("title"@, title->Ok_0)
                                .insert("description"@, description->Ok_0),
                            "inlineQueryResultPhoto"@,
                        ),
                    )
                }
            },
            _ => Err(Fault::TypeMismatch(at)),
        }
    }

    fn encode(&self) -> (j: Json) {
        proof {
            reveal(<InlineQueryResultPhoto as Wire>::wire);
        }
        let mut members: Vec<Member> = Vec::new();
        put(&mut members, "id", self.id.encode());
        put(&mut members, "photo", self.photo.encode());
        put(&mut members, "title", self.title.encode());
        put(&mut members, "description", self.description.encode());
        seal(members, "inlineQueryResultPhoto")
    }

    fn decode(j: &Json, at: &str) -> (r: Result<Self, DecodeError>) {
        proof {
            reveal(<InlineQueryResultPhoto as Wire>::wire);
            reveal(<InlineQueryResultPhoto as Wire>::parse);
        }
        let members = members_of(j, at)?;
        let id = read_field::<String>(members, "id")?;
        let photo = read_field::<Photo>(members, "photo")?;
        let title = read_field::<String>(members, "title")?;
        let description = read_field::<String>(members, "description")?;
        Ok(InlineQueryResultPhoto { id, photo, title, description })
    }

    proof fn round_trip(&self, at: Seq<char>) {
        reveal(<InlineQueryResultPhoto as Wire>::wire);
        reveal(<InlineQueryResultPhoto as Wire>::parse);
        reveal_strlit("@type");
        reveal_strlit("description");
        reveal_strlit("id");
        reveal_strlit("photo");
        reveal_strlit("title");
        assert("@type"@.len() == 5 && "@type"@[0] == '@');
        assert("description"@.len() == 11);
        assert("id"@.len() == 2);
        assert("photo"@.len() == 5 && "photo"@[0] == 'p');
        assert("title"@.len() == 5 && "title"@[0] == 't');
        self.id.round_trip("id"@);
        self.photo.round_trip("photo"@);
        self.title.round_trip("title"@);
        self.description.round_trip("description"@);
    }
}

impl Tagged for InlineQueryResultPhoto {
    open spec fn known(tag: Seq<char>) -> bool {
        tag == "inlineQueryResultPhoto"@
    }

    fn knows(tag: &str) -> (r: bool) {
        same_text(tag, "inlineQueryResultPhoto")
    }

    proof fn tag_known(&self) {
        reveal(<InlineQueryResultPhoto as Wire>::wire);
        assert(tag_of(self.wire()) == Some("inlineQueryResultPhoto"@));
        assert(Self::known("inlineQueryResultPhoto"@));
    }
}

/// Represents a sticker
#[derive(Debug, Clone, PartialEq)]
pub struct InlineQueryResultSticker {
    /// Unique identifier of the query result
    pub id: String,
    /// Sticker
    pub sticker: Sticker,
}

impl Wire for InlineQueryResultSticker {
    #[verifier::opaque]
    open spec fn wire(&self) -> Doc {
        tagged(
            Map::empty()
                .insert("id"@, self.id.wire())
                .insert("sticker"@, self.sticker.wire()),
            "inlineQueryResultSticker"@,
        )
    }

    #[verifier::opaque]
    open spec fn parse(d: Doc, at: Seq<char>) -> Result<Doc, Fault> {
        match d {
            Doc::Object(m) => {
                let id = field::<String>(m, "id"@);
                let sticker = field::<Sticker>(m, "sticker"@);
                if id is Err {
                    id
                } else if sticker is Err {
                    sticker
                } else {
                    Ok(
                        tagged(
                            Map::empty()
                                .insert("id"@, id->Ok_0)
                                .insert("sticker"@, sticker->Ok_0),
                            "inlineQueryResultSticker"@,
                        ),
                    )
                }
            },
            _ => Err(Fault::TypeMismatch(at)),
        }
    }

    fn encode(&self) -> (j: Json) {
        proof {
            reveal(<InlineQueryResultSticker as Wire>::wire);
        }
        let mut members: Vec<Member> = Vec::new();
        put(&mut members, "id", self.id.encode());
        put(&mut members, "sticker", self.sticker.encode());
        seal(members, "inlineQueryResultSticker")
    }

    fn decode(j: &Json, at: &str) -> (r: Result<Self, DecodeError>) {
        proof {
            reveal(<InlineQueryResultSticker as Wire>::wire);
            reveal(<InlineQueryResultSticker as Wire>::parse);
        }
        let members = members_of(j, at)?;
        let id = read_field::<String>(members, "id")?;
        let sticker = read_field::<Sticker>(members, "sticker")?;
        Ok(InlineQueryResultSticker { id, sticker })
    }

    proof fn round_trip(&self, at: Seq<char>) {
        reveal(<InlineQueryResultSticker as Wire>::wire);
        reveal(<InlineQueryResultSticker as Wire>::parse);
        reveal_strlit("@type");
        reveal_strlit("id");
        reveal_strlit("sticker");
        assert("@type"@.len() == 5);
        assert("id"@.len() == 2);
        assert("sticker"@.len() == 7);
        self.id.round_trip("id"@);
        self.sticker.round_trip("sticker"@);
    }
}

impl Tagged for InlineQueryResultSticker {
    open spec fn known(tag: Seq<char>) -> bool {
        tag == "inlineQueryResultSticker"@
    }

    fn knows(tag: &str) -> (r: bool) {
        same_text(tag, "inlineQueryResultSticker")
    }

    proof fn tag_known(&self) {
        reveal(<InlineQueryResultSticker as Wire>::wire);
        assert(tag_of(self.wire()) == Some("inlineQueryResultSticker"@));
        assert(Self::known("inlineQueryResultSticker"@));
    }
}

/// Represents a video
#[derive(Debug, Clone, PartialEq)]
pub struct InlineQueryResultVideo {
    /// Unique identifier of the query result
    pub id: String,
    /// Video
    pub video: Video,
    /// Title of the video
    pub title: String,
    /// Represents a video
    pub description: String,
}

impl Wire for InlineQueryResultVideo {
    #[verifier::opaque]
    open spec fn wire(&self) -> Doc {
        tagged(
            Map::empty()
                .insert("id"@, self.id.wire())
                .insert("video"@, self.video.wire())
                .insert("title"@, self.title.wire())
                .insert("description"@, self.description.wire()),
            "inlineQueryResultVideo"@,
        )
    }

    #[verifier::opaque]
    open spec fn parse(d: Doc, at: Seq<char>) -> Result<Doc, Fault> {
        match d {
            Doc::Object(m) => {
                let id = field::<String>(m, "id"@);
                let video = field::<Video>(m, "video"@);
                let title = field::<String>(m, "title"@);
                let description = field::<String>(m, "description"@);
                if id is Err {
                    id
                } else if video is Err {
                    video
                } else if title is Err {
                    title
                } else if description is Err {
                    description
                } else {
                    Ok(
                        tagged(
                            Map::empty()
                                .insert("id"@, id->Ok_0)
                                .insert("video"@, video->Ok_0)
                                .insert("title"@, title->Ok_0)
                                .insert("description"@, description->Ok_0),
                            "inlineQueryResultVideo"@,
                        ),
                    )
                }
            },
            _ => Err(Fault::TypeMismatch(at)),
        }
    }

    fn encode(&self) -> (j: Json) {
        proof {
            reveal(<InlineQueryResultVideo as Wire>::wire);
        }
        let mut members: Vec<Member> = Vec::new();
        put(&mut members, "id", self.id.encode());
        put(&mut members, "video", self.video.encode());
        put(&mut members, "title", self.title.encode());
        put(&mut members, "description", self.description.encode());
        seal(members, "inlineQueryResultVideo")
    }

    fn decode(j: &Json, at: &str) -> (r: Result<Self, DecodeError>) {
        proof {
            reveal(<InlineQueryResultVideo as Wire>::wire);
            reveal(<InlineQueryResultVideo as Wire>::parse);
        }
        let members = members_of(j, at)?;
        let id = read_field::<String>(members, "id")?;
        let video = read_field::<Video>(members, "video")?;
        let title = read_field::<String>(members, "title")?;
        let description = read_field::<String>(members, "description")?;
        Ok(InlineQueryResultVideo { id, video, title, description })
    }

    proof fn round_trip(&self, at: Seq<char>) {
        reveal(<InlineQueryResultVideo as Wire>::wire);
        reveal(<InlineQueryResultVideo as Wire>::parse);
        reveal_strlit("@type");
        reveal_strlit("description");
        reveal_strlit("id");
        reveal_strlit("title");
        reveal_strlit("video");
        assert("@type"@.len() == 5 && "@type"@[0] == '@');
        assert("description"@.len() == 11);
        assert("id"@.len() == 2);
        assert("title"@.len() == 5 && "title"@[0] == 't');
        assert("video"@.len() == 5 && "video"@[0] == 'v');
        self.id.round_trip("id"@);
        self.video.round_trip("video"@);
        self.title.round_trip("title"@);
        self.description.round_trip("description"@);
    }
}

impl Tagged for InlineQueryResultVideo {
    open spec fn known(tag: Seq<char>) -> bool {
        tag == "inlineQueryResultVideo"@
    }

    fn knows(tag: &str) -> (r: bool) {
        same_text(tag, "inlineQueryResultVideo")
    }

    proof fn tag_known(&self) {
        reveal(<InlineQueryResultVideo as Wire>::wire);
        assert(tag_of(self.wire()) == Some("inlineQueryResultVideo"@));
        assert(Self::known("inlineQueryResultVideo"@));
    }
}

/// Represents a voice note
#[derive(Debug, Clone, PartialEq)]
pub struct InlineQueryResultVoiceNote {
    /// Unique identifier of the query result
    pub id: String,
    /// Voice note
    pub voice_note: VoiceNote,
    /// Title of the voice note
    pub title: String,
}

impl Wire for InlineQueryResultVoiceNote {
    #[verifier::opaque]
    open spec fn wire(&self) -> Doc {
        tagged(
            Map::empty()
                .insert("id"@, self.id.wire())
                .insert("voiceNote"@, self.voice_note.wire())
                .insert("title"@, self.title.wire()),
            "inlineQueryResultVoiceNote"@,
        )
    }

    #[verifier::opaque]
    open spec fn parse(d: Doc, at: Seq<char>) -> Result<Doc, Fault> {
        match d {
            Doc::Object(m) => {
                let id = field::<String>(m, "id"@);
                let voice_note = field::<VoiceNote>(m, "voiceNote"@);
                let title = field::<String>(m, "title"@);
                if id is Err {
                    id
                } else if voice_note is Err {
                    voice_note
                } else if title is Err {
                    title
                } else {
                    Ok(
                        tagged(
                            Map::empty()
                                .insert("id"@, id->Ok_0)
                                .insert("voiceNote"@, voice_note->Ok_0)
                                .insert("title"@, title->Ok_0),
                            "inlineQueryResultVoiceNote"@,
                        ),
                    )
                }
            },
            _ => Err(Fault::TypeMismatch(at)),
        }
    }

    fn encode(&self) -> (j: Json) {
        proof {
            reveal(<InlineQueryResultVoiceNote as Wire>::wire);
        }
        let mut members: Vec<Member> = Vec::new();
        put(&mut members, "id", self.id.encode());
        put(&mut members, "voiceNote", self.voice_note.encode());
        put(&mut members, "title", self.title.encode());
        seal(members, "inlineQueryResultVoiceNote")
    }

    fn decode(j: &Json, at: &str) -> (r: Result<Self, DecodeError>) {
        proof {
            reveal(<InlineQueryResultVoiceNote as Wire>::wire);
            reveal(<InlineQueryResultVoiceNote as Wire>::parse);
        }
        let members = members_of(j, at)?;
        let id = read_field::<String>(members, "id")?;
        let voice_note = read_field::<VoiceNote>(members, "voiceNote")?;
        let title = read_field::<String>(members, "title")?;
        Ok(InlineQueryResultVoiceNote { id, voice_note, title })
    }

    proof fn round_trip(&self, at: Seq<char>) {
        reveal(<InlineQueryResultVoiceNote as Wire>::wire);
        reveal(<InlineQueryResultVoiceNote as Wire>::parse);
        reveal_strlit("@type");
        reveal_strlit("id");
        reveal_strlit("title");
        reveal_strlit("voiceNote");
        assert("@type"@.len() == 5 && "@type"@[0] == '@');
        assert("id"@.len() == 2);
        assert("title"@.len() == 5 && "title"@[0] == 't');
        assert("voiceNote"@.len() == 9);
        self.id.round_trip("id"@);
        self.voice_note.round_trip("voiceNote"@);
        self.title.round_trip("title"@);
    }
}

impl Tagged for InlineQueryResultVoiceNote {
    open spec fn known(tag: Seq<char>) -> bool {
        tag == "inlineQueryResultVoiceNote"@
    }

    fn knows(tag: &str) -> (r: bool) {
        same_text(tag, "inlineQueryResultVoiceNote")
    }

    proof fn tag_known(&self) {
        reveal(<InlineQueryResultVoiceNote as Wire>::wire);
        assert(tag_of(self.wire()) == Some("inlineQueryResultVoiceNote"@));
        assert(Self::known("inlineQueryResultVoiceNote"@));
    }
}

/// Represents a single result of an inline query
#[derive(Debug, Clone, PartialEq)]
pub enum InlineQueryResult {
    InlineQueryResultArticle(InlineQueryResultArticle),
    InlineQueryResultContact(InlineQueryResultContact),
    InlineQueryResultLocation(InlineQueryResultLocation),
    InlineQueryResultVenue(InlineQueryResultVenue),
    InlineQueryResultGame(Box<InlineQueryResultGame>),
    InlineQueryResultAnimation(InlineQueryResultAnimation),
    InlineQueryResultAudio(InlineQueryResultAudio),
    InlineQueryResultDocument(InlineQueryResultDocument),
    InlineQueryResultPhoto(InlineQueryResultPhoto),
    InlineQueryResultSticker(InlineQueryResultSticker),
    InlineQueryResultVideo(InlineQueryResultVideo),
    InlineQueryResultVoiceNote(InlineQueryResultVoiceNote),
}

impl Wire for InlineQueryResult {
    #[verifier::opaque]
    open spec fn wire(&self) -> Doc {
        match self {
            Self::InlineQueryResultArticle(p) => p.wire(),
            Self::InlineQueryResultContact(p) => p.wire(),
            Self::InlineQueryResultLocation(p) => p.wire(),
            Self::InlineQueryResultVenue(p) => p.wire(),
            Self::InlineQueryResultGame(p) => p.wire(),
            Self::InlineQueryResultAnimation(p) => p.wire(),
            Self::InlineQueryResultAudio(p) => p.wire(),
            Self::InlineQueryResultDocument(p) => p.wire(),
            Self::InlineQueryResultPhoto(p) => p.wire(),
            Self::InlineQueryResultSticker(p) => p.wire(),
            Self::InlineQueryResultVideo(p) => p.wire(),
            Self::InlineQueryResultVoiceNote(p) => p.wire(),
        }
    }

    #[verifier::opaque]
    open spec fn parse(d: Doc, at: Seq<char>) -> Result<Doc, Fault> {
        match d {
            Doc::Object(_) => match tag_of(d) {
                Some(t) => if t == "inlineQueryResultArticle"@ {
                    InlineQueryResultArticle::parse(d, at)
                } else if t == "inlineQueryResultContact"@ {
                    InlineQueryResultContact::parse(d, at)
                } else if t == "inlineQueryResultLocation"@ {
                    InlineQueryResultLocation::parse(d, at)
                } else if t == "inlineQueryResultVenue"@ {
                    InlineQueryResultVenue::parse(d, at)
                } else if t == "inlineQueryResultGame"@ {
                    InlineQueryResultGame::parse(d, at)
                } else if t == "inlineQueryResultAnimation"@ {
                    InlineQueryResultAnimation::parse(d, at)
                } else if t == "inlineQueryResultAudio"@ {
                    InlineQueryResultAudio::parse(d, at)
                } else if t == "inlineQueryResultDocument"@ {
                    InlineQueryResultDocument::parse(d, at)
                } else if t == "inlineQueryResultPhoto"@ {
                    InlineQueryResultPhoto::parse(d, at)
                } else if t == "inlineQueryResultSticker"@ {
                    InlineQueryResultSticker::parse(d, at)
                } else if t == "inlineQueryResultVideo"@ {
                    InlineQueryResultVideo::parse(d, at)
                } else if t == "inlineQueryResultVoiceNote"@ {
                    InlineQueryResultVoiceNote::parse(d, at)
                } else {
                    Err(Fault::UnknownVariant(t))
                },
                None => Err(Fault::MissingDiscriminator),
            },
            _ => Err(Fault::TypeMismatch(at)),
        }
    }

    fn encode(&self) -> (j: Json) {
        proof {
            reveal(<InlineQueryResult as Wire>::wire);
        }
        match self {
            Self::InlineQueryResultArticle(p) => p.encode(),
            Self::InlineQueryResultContact(p) => p.encode(),
            Self::InlineQueryResultLocation(p) => p.encode(),
            Self::InlineQueryResultVenue(p) => p.encode(),
            Self::InlineQueryResultGame(p) => p.encode(),
            Self::InlineQueryResultAnimation(p) => p.encode(),
            Self::InlineQueryResultAudio(p) => p.encode(),
            Self::InlineQueryResultDocument(p) => p.encode(),
            Self::InlineQueryResultPhoto(p) => p.encode(),
            Self::InlineQueryResultSticker(p) => p.encode(),
            Self::InlineQueryResultVideo(p) => p.encode(),
            Self::InlineQueryResultVoiceNote(p) => p.encode(),
        }
    }

    fn decode(j: &Json, at: &str) -> (r: Result<Self, DecodeError>) {
        proof {
            reveal(<InlineQueryResult as Wire>::wire);
            reveal(<InlineQueryResult as Wire>::parse);
        }
        let members = members_of(j, at)?;
        let tag = discriminator(members)?;
        if same_text(tag, "inlineQueryResultArticle") {
            Ok(Self::InlineQueryResultArticle(InlineQueryResultArticle::decode(j, at)?))
        } else if same_text(tag, "inlineQueryResultContact") {
            Ok(Self::InlineQueryResultContact(InlineQueryResultContact::decode(j, at)?))
        } else if same_text(tag, "inlineQueryResultLocation") {
            Ok(Self::InlineQueryResultLocation(InlineQueryResultLocation::decode(j, at)?))
        } else if same_text(tag, "inlineQueryResultVenue") {
            Ok(Self::InlineQueryResultVenue(InlineQueryResultVenue::decode(j, at)?))
        } else if same_text(tag, "inlineQueryResultGame") {
            Ok(Self::InlineQueryResultGame(Box::<InlineQueryResultGame>::decode(j, at)?))
        } else if same_text(tag, "inlineQueryResultAnimation") {
            Ok(Self::InlineQueryResultAnimation(InlineQueryResultAnimation::decode(j, at)?))
        } else if same_text(tag, "inlineQueryResultAudio") {
            Ok(Self::InlineQueryResultAudio(InlineQueryResultAudio::decode(j, at)?))
        } else if same_text(tag, "inlineQueryResultDocument") {
            Ok(Self::InlineQueryResultDocument(InlineQueryResultDocument::decode(j, at)?))
        } else if same_text(tag, "inlineQueryResultPhoto") {
            Ok(Self::InlineQueryResultPhoto(InlineQueryResultPhoto::decode(j, at)?))
        } else if same_text(tag, "inlineQueryResultSticker") {
            Ok(Self::InlineQueryResultSticker(InlineQueryResultSticker::decode(j, at)?))
        } else if same_text(tag, "inlineQueryResultVideo") {
            Ok(Self::InlineQueryResultVideo(InlineQueryResultVideo::decode(j, at)?))
        } else if same_text(tag, "inlineQueryResultVoiceNote") {
            Ok(Self::InlineQueryResultVoiceNote(InlineQueryResultVoiceNote::decode(j, at)?))
        } else {
            Err(DecodeError::UnknownVariant(tag.to_owned()))
        }
    }

    proof fn round_trip(&self, at: Seq<char>) {
        reveal(<InlineQueryResult as Wire>::wire);
        reveal(<InlineQueryResult as Wire>::parse);
        reveal_strlit("inlineQueryResultAnimation");
        reveal_strlit("inlineQueryResultArticle");
        reveal_strlit("inlineQueryResultAudio");
        reveal_strlit("inlineQueryResultContact");
        reveal_strlit("inlineQueryResultDocument");
        reveal_strlit("inlineQueryResultGame");
        reveal_strlit("inlineQueryResultLocation");
        reveal_strlit("inlineQueryResultPhoto");
        reveal_strlit("inlineQueryResultSticker");
        reveal_strlit("inlineQueryResultVenue");
        reveal_strlit("inlineQueryResultVideo");
        reveal_strlit("inlineQueryResultVoiceNote");
        assert({
            &&& "inlineQueryResultAnimation"@.len() == 26
            &&& "inlineQueryResultAnimation"@[17] == 'A'
        });
        assert("inlineQueryResultArticle"@.len() == 24 && "inlineQueryResultArticle"@[17] == 'A');
        assert("inlineQueryResultAudio"@.len() == 22 && "inlineQueryResultAudio"@[18] == 'u');
        assert("inlineQueryResultContact"@.len() == 24 && "inlineQueryResultContact"@[17] == 'C');
        assert("inlineQueryResultDocument"@.len() == 25 && "inlineQueryResultDocument"@[17] == 'D');
        assert("inlineQueryResultGame"@.len() == 21);
        assert("inlineQueryResultLocation"@.len() == 25 && "inlineQueryResultLocation"@[17] == 'L');
        assert("inlineQueryResultPhoto"@.len() == 22 && "inlineQueryResultPhoto"@[18] == 'h');
        assert("inlineQueryResultSticker"@.len() == 24 && "inlineQueryResultSticker"@[17] == 'S');
        assert("inlineQueryResultVenue"@.len() == 22 && "inlineQueryResultVenue"@[18] == 'e');
        assert("inlineQueryResultVideo"@.len() == 22 && "inlineQueryResultVideo"@[18] == 'i');
        assert({
            &&& "inlineQueryResultVoiceNote"@.len() == 26
            &&& "inlineQueryResultVoiceNote"@[17] == 'V'
        });
        match self {
            Self::InlineQueryResultArticle(p) => {
                p.tag_known();
                p.round_trip(at);
            },
            Self::InlineQueryResultContact(p) => {
                p.tag_known();
                p.round_trip(at);
            },
            Self::InlineQueryResultLocation(p) => {
                p.tag_known();
                p.round_trip(at);
            },
            Self::InlineQueryResultVenue(p) => {
                p.tag_known();
                p.round_trip(at);
            },
            Self::InlineQueryResultGame(p) => {
                (**p).tag_known();
                p.round_trip(at);
            },
            Self::InlineQueryResultAnimation(p) => {
                p.tag_known();
                p.round_trip(at);
            },
            Self::InlineQueryResultAudio(p) => {
                p.tag_known();
                p.round_trip(at);
            },
            Self::InlineQueryResultDocument(p) => {
                p.tag_known();
                p.round_trip(at);
            },
            Self::InlineQueryResultPhoto(p) => {
                p.tag_known();
                p.round_trip(at);
            },
            Self::InlineQueryResultSticker(p) => {
                p.tag_known();
                p.round_trip(at);
            },
            Self::InlineQueryResultVideo(p) => {
                p.tag_known();
                p.round_trip(at);
            },
            Self::InlineQueryResultVoiceNote(p) => {
                p.tag_known();
                p.round_trip(at);
            },
        }
    }
}

impl Tagged for InlineQueryResult {
    open spec fn known(tag: Seq<char>) -> bool {
        ||| tag == "inlineQueryResultArticle"@
        ||| tag == "inlineQueryResultContact"@
        ||| tag == "inlineQueryResultLocation"@
        ||| tag == "inlineQueryResultVenue"@
        ||| tag == "inlineQueryResultGame"@
        ||| tag == "inlineQueryResultAnimation"@
        ||| tag == "inlineQueryResultAudio"@
        ||| tag == "inlineQueryResultDocument"@
        ||| tag == "inlineQueryResultPhoto"@
        ||| tag == "inlineQueryResultSticker"@
        ||| tag == "inlineQueryResultVideo"@
        ||| tag == "inlineQueryResultVoiceNote"@
    }

    fn knows(tag: &str) -> (r: bool) {
        same_text(tag, "inlineQueryResultArticle")
            || same_text(tag, "inlineQueryResultContact")
            || same_text(tag, "inlineQueryResultLocation")
            || same_text(tag, "inlineQueryResultVenue")
            || same_text(tag, "inlineQueryResultGame")
            || same_text(tag, "inlineQueryResultAnimation")
            || same_text(tag, "inlineQueryResultAudio")
            || same_text(tag, "inlineQueryResultDocument")
            || same_text(tag, "inlineQueryResultPhoto")
            || same_text(tag, "inlineQueryResultSticker")
            || same_text(tag, "inlineQueryResultVideo")
            || same_text(tag, "inlineQueryResultVoiceNote")
    }

    proof fn tag_known(&self) {
        reveal(<InlineQueryResult as Wire>::wire);
        match self {
            Self::InlineQueryResultArticle(p) => p.tag_known(),
            Self::InlineQueryResultContact(p) => p.tag_known(),
            Self::InlineQueryResultLocation(p) => p.tag_known(),
            Self::InlineQueryResultVenue(p) => p.tag_known(),
            Self::InlineQueryResultGame(p) => (**p).tag_known(),
            Self::InlineQueryResultAnimation(p) => p.tag_known(),
            Self::InlineQueryResultAudio(p) => p.tag_known(),
            Self::InlineQueryResultDocument(p) => p.tag_known(),
            Self::InlineQueryResultPhoto(p) => p.tag_known(),
            Self::InlineQueryResultSticker(p) => p.tag_known(),
            Self::InlineQueryResultVideo(p) => p.tag_known(),
            Self::InlineQueryResultVoiceNote(p) => p.tag_known(),
        }
    }
}

impl Union for InlineQueryResult {
    proof fn unknown_rejected(d: Doc, at: Seq<char>) {
        reveal(<InlineQueryResult as Wire>::parse);
    }

    proof fn untagged_rejected(d: Doc, at: Seq<char>) {
        reveal(<InlineQueryResult as Wire>::parse);
    }
}

/// Represents the results of the inline query. Use sendInlineQueryResultMessage to send the result
/// of the query
#[derive(Debug, Clone, PartialEq)]
pub struct InlineQueryResults {
    /// Unique identifier of the inline query
    pub inline_query_id: i64,
    /// The offset for the next request. If empty, there are no more results
    pub next_offset: String,
    /// Results of the query
    pub results: Vec<InlineQueryResult>,
    /// If non-empty, this text should be shown on the button, which opens a private chat with the
    /// bot and sends the bot a start message with the switch_pm_parameter
    pub switch_pm_text: String,
    /// Parameter for the bot start message
    pub switch_pm_parameter: String,
}

impl Wire for InlineQueryResults {
    #[verifier::opaque]
    open spec fn wire(&self) -> Doc {
        tagged(
            Map::empty()
                .insert("inlineQueryId"@, wide_doc(self.inline_query_id))
                .insert("nextOffset"@, self.next_offset.wire())
                .insert("results"@, self.results.wire())
                .insert("switchPmText"@, self.switch_pm_text.wire())
                .insert("switchPmParameter"@, self.switch_pm_parameter.wire()),
            "inlineQueryResults"@,
        )
    }

    #[verifier::opaque]
    open spec fn parse(d: Doc, at: Seq<char>) -> Result<Doc, Fault> {
        match d {
            Doc::Object(m) => {
                let inline_query_id = wide_field(m, "inlineQueryId"@);
                let next_offset = field::<String>(m, "nextOffset"@);
                let results = field::<Vec<InlineQueryResult>>(m, "results"@);
                let switch_pm_text = field::<String>(m, "switchPmText"@);
                let switch_pm_parameter = field::<String>(m, "switchPmParameter"@);
                if inline_query_id is Err {
                    inline_query_id
                } else if next_offset is Err {
                    next_offset
                } else if results is Err {
                    results
                } else if switch_pm_text is Err {
                    switch_pm_text
                } else if switch_pm_parameter is Err {
                    switch_pm_parameter
                } else {
                    Ok(
                        tagged(
                            Map::empty()
                                .insert("inlineQueryId"@, inline_query_id->Ok_0)
                                .insert("nextOffset"@, next_offset->Ok_0)
                                .insert("results"@, results->Ok_0)
                                .insert("switchPmText"@, switch_pm_text->Ok_0)
                                .insert("switchPmParameter"@, switch_pm_parameter->Ok_0),
                            "inlineQueryResults"@,
                        ),
                    )
                }
            },
            _ => Err(Fault::TypeMismatch(at)),
        }
    }

    fn encode(&self) -> (j: Json) {
        proof {
            reveal(<InlineQueryResults as Wire>::wire);
        }
        let mut members: Vec<Member> = Vec::new();
        put(&mut members, "inlineQueryId", encode_wide(self.inline_query_id));
        put(&mut members, "nextOffset", self.next_offset.encode());
        put(&mut members, "results", self.results.encode());
        put(&mut members, "switchPmText", self.switch_pm_text.encode());
        put(&mut members, "switchPmParameter", self.switch_pm_parameter.encode());
        seal(members, "inlineQueryResults")
    }

    fn decode(j: &Json, at: &str) -> (r: Result<Self, DecodeError>) {
        proof {
            reveal(<InlineQueryResults as Wire>::wire);
            reveal(<InlineQueryResults as Wire>::parse);
        }
        let members = members_of(j, at)?;
        let inline_query_id = read_wide(members, "inlineQueryId")?;
        let next_offset = read_field::<String>(members, "nextOffset")?;
        let results = read_field::<Vec<InlineQueryResult>>(members, "results")?;
        let switch_pm_text = read_field::<String>(members, "switchPmText")?;
        let switch_pm_parameter = read_field::<String>(members, "switchPmParameter")?;
        Ok(InlineQueryResults {
            inline_query_id,
            next_offset,
            results,
            switch_pm_text,
            switch_pm_parameter,
        })
    }

    proof fn round_trip(&self, at: Seq<char>) {
        reveal(<InlineQueryResults as Wire>::wire);
        reveal(<InlineQueryResults as Wire>::parse);
        reveal_strlit("@type");
        reveal_strlit("inlineQueryId");
        reveal_strlit("nextOffset");
        reveal_strlit("results");
        reveal_strlit("switchPmParameter");
        reveal_strlit("switchPmText");
        assert("@type"@.len() == 5);
        assert("inlineQueryId"@.len() == 13);
        assert("nextOffset"@.len() == 10);
        assert("results"@.len() == 7);
        assert("switchPmParameter"@.len() == 17);
        assert("switchPmText"@.len() == 12);
        lemma_wide_round_trip(self.inline_query_id, "inlineQueryId"@);
        self.next_offset.round_trip("nextOffset"@);
        self.results.round_trip("results"@);
        self.switch_pm_text.round_trip("switchPmText"@);
        self.switch_pm_parameter.round_trip("switchPmParameter"@);
    }
}

impl Tagged for InlineQueryResults {
    open spec fn known(tag: Seq<char>) -> bool {
        tag == "inlineQueryResults"@
    }

    fn knows(tag: &str) -> (r: bool) {
        same_text(tag, "inlineQueryResults")
    }

    proof fn tag_known(&self) {
        reveal(<InlineQueryResults as Wire>::wire);
        assert(tag_of(self.wire()) == Some("inlineQueryResults"@));
        assert(Self::known("inlineQueryResults"@));
    }
}

/// The payload from a general callback button
#[derive(Debug, Clone, PartialEq)]
pub struct CallbackQueryPayloadData {
    /// Data that was attached to the callback button
    pub data: String,
}

impl Wire for CallbackQueryPayloadData {
    #[verifier::opaque]
    open spec fn wire(&self) -> Doc {
        tagged(
            Map::empty()
                .insert("data"@, self.data.wire()),
            "callbackQueryPayloadData"@,
        )
    }

    #[verifier::opaque]
    open spec fn parse(d: Doc, at: Seq<char>) -> Result<Doc, Fault> {
        match d {
            Doc::Object(m) => {
                let data = field::<String>(m, "data"@);
                if data is Err {
                    data
                } else {
                    Ok(
                        tagged(
                            Map::empty()
                                .insert("data"@, data->Ok_0),
                            "callbackQueryPayloadData"@,
                        ),
                    )
                }
            },
            _ => Err(Fault::TypeMismatch(at)),
        }
    }

    fn encode(&self) -> (j: Json) {
        proof {
            reveal(<CallbackQueryPayloadData as Wire>::wire);
        }
        let mut members: Vec<Member> = Vec::new();
        put(&mut members, "data", self.data.encode());
        seal(members, "callbackQueryPayloadData")
    }

    fn decode(j: &Json, at: &str) -> (r: Result<Self, DecodeError>) {
        proof {
            reveal(<CallbackQueryPayloadData as Wire>::wire);
            reveal(<CallbackQueryPayloadData as Wire>::parse);
        }
        let members = members_of(j, at)?;
        let data = read_field::<String>(members, "data")?;
        Ok(CallbackQueryPayloadData { data })
    }

    proof fn round_trip(&self, at: Seq<char>) {
        reveal(<CallbackQueryPayloadData as Wire>::wire);
        reveal(<CallbackQueryPayloadData as Wire>::parse);
        reveal_strlit("@type");
        reveal_strlit("data");
        assert("@type"@.len() == 5);
        assert("data"@.len() == 4);
        self.data.round_trip("data"@);
    }
}

impl Tagged for CallbackQueryPayloadData {
    open spec fn known(tag: Seq<char>) -> bool {
        tag == "callbackQueryPayloadData"@
    }

    fn knows(tag: &str) -> (r: bool) {
        same_text(tag, "callbackQueryPayloadData")
    }

    proof fn tag_known(&self) {
        reveal(<CallbackQueryPayloadData as Wire>::wire);
        assert(tag_of(self.wire()) == Some("callbackQueryPayloadData"@));
        assert(Self::known("callbackQueryPayloadData"@));
    }
}

/// The payload from a game callback button
#[derive(Debug, Clone, PartialEq)]
pub struct CallbackQueryPayloadGame {
    /// A short name of the game that was attached to the callback button
    pub game_short_name: String,
}

impl Wire for CallbackQueryPayloadGame {
    #[verifier::opaque]
    open spec fn wire(&self) -> Doc {
        tagged(
            Map::empty()
                .insert("gameShortName"@, self.game_short_name.wire()),
            "callbackQueryPayloadGame"@,
        )
    }

    #[verifier::opaque]
    open spec fn parse(d: Doc, at: Seq<char>) -> Result<Doc, Fault> {
        match d {
            Doc::Object(m) => {
                let game_short_name = field::<String>(m, "gameShortName"@);
                if game_short_name is Err {
                    game_short_name
                } else {
                    Ok(
                        tagged(
                            Map::empty()
                                .insert("gameShortName"@, game_short_name->Ok_0),
                            "callbackQueryPayloadGame"@,
                        ),
                    )
                }
            },
            _ => Err(Fault::TypeMismatch(at)),
        }
    }

    fn encode(&self) -> (j: Json) {
        proof {
            reveal(<CallbackQueryPayloadGame as Wire>::wire);
        }
        let mut members: Vec<Member> = Vec::new();
        put(&mut members, "gameShortName", self.game_short_name.encode());
        seal(members, "callbackQueryPayloadGame")
    }

    fn decode(j: &Json, at: &str) -> (r: Result<Self, DecodeError>) {
        proof {
            reveal(<CallbackQueryPayloadGame as Wire>::wire);
            reveal(<CallbackQueryPayloadGame as Wire>::parse);
        }
        let members = members_of(j, at)?;
        let game_short_name = read_field::<String>(members, "gameShortName")?;
        Ok(CallbackQueryPayloadGame { game_short_name })
    }

    proof fn round_trip(&self, at: Seq<char>) {
        reveal(<CallbackQueryPayloadGame as Wire>::wire);
        reveal(<CallbackQueryPayloadGame as Wire>::parse);
        reveal_strlit("@type");
        reveal_strlit("gameShortName");
        assert("@type"@.len() == 5);
        assert("gameShortName"@.len() == 13);
        self.game_short_name.round_trip("gameShortName"@);
    }
}

impl Tagged for CallbackQueryPayloadGame {
    open spec fn known(tag: Seq<char>) -> bool {
        tag == "callbackQueryPayloadGame"@
    }

    fn knows(tag: &str) -> (r: bool) {
        same_text(tag, "callbackQueryPayloadGame")
    }

    proof fn tag_known(&self) {
        reveal(<CallbackQueryPayloadGame as Wire>::wire);
        assert(tag_of(self.wire()) == Some("callbackQueryPayloadGame"@));
        assert(Self::known("callbackQueryPayloadGame"@));
    }
}

/// Represents a payload of a callback query
#[derive(Debug, Clone, PartialEq)]
pub enum CallbackQueryPayload {
    CallbackQueryPayloadData(CallbackQueryPayloadData),
    CallbackQueryPayloadGame(CallbackQueryPayloadGame),
}

impl Wire for CallbackQueryPayload {
    #[verifier::opaque]
    open spec fn wire(&self) -> Doc {
        match self {
            Self::CallbackQueryPayloadData(p) => p.wire(),
            Self::CallbackQueryPayloadGame(p) => p.wire(),
        }
    }

    #[verifier::opaque]
    open spec fn parse(d: Doc, at: Seq<char>) -> Result<Doc, Fault> {
        match d {
            Doc::Object(_) => match tag_of(d) {
                Some(t) => if t == "callbackQueryPayloadData"@ {
                    CallbackQueryPayloadData::parse(d, at)
                } else if t == "callbackQueryPayloadGame"@ {
                    CallbackQueryPayloadGame::parse(d, at)
                } else {
                    Err(Fault::UnknownVariant(t))
                },
                None => Err(Fault::MissingDiscriminator),
            },
            _ => Err(Fault::TypeMismatch(at)),
        }
    }

    fn encode(&self) -> (j: Json) {
        proof {
            reveal(<CallbackQueryPayload as Wire>::wire);
        }
        match self {
            Self::CallbackQueryPayloadData(p) => p.encode(),
            Self::CallbackQueryPayloadGame(p) => p.encode(),
        }
    }

    fn decode(j: &Json, at: &str) -> (r: Result<Self, DecodeError>) {
        proof {
            reveal(<CallbackQueryPayload as Wire>::wire);
            reveal(<CallbackQueryPayload as Wire>::parse);
        }
        let members = members_of(j, at)?;
        let tag = discriminator(members)?;
        if same_text(tag, "callbackQueryPayloadData") {
            Ok(Self::CallbackQueryPayloadData(CallbackQueryPayloadData::decode(j, at)?))
        } else if same_text(tag, "callbackQueryPayloadGame") {
            Ok(Self::CallbackQueryPayloadGame(CallbackQueryPayloadGame::decode(j, at)?))
        } else {
            Err(DecodeError::UnknownVariant(tag.to_owned()))
        }
    }

    proof fn round_trip(&self, at: Seq<char>) {
        reveal(<CallbackQueryPayload as Wire>::wire);
        reveal(<CallbackQueryPayload as Wire>::parse);
        reveal_strlit("callbackQueryPayloadData");
        reveal_strlit("callbackQueryPayloadGame");
        assert("callbackQueryPayloadData"@.len() == 24 && "callbackQueryPayloadData"@[20] == 'D');
        assert("callbackQueryPayloadGame"@.len() == 24 && "callbackQueryPayloadGame"@[20] == 'G');
        match self {
            Self::CallbackQueryPayloadData(p) => {
                p.tag_known();
                p.round_trip(at);
            },
            Self::CallbackQueryPayloadGame(p) => {
                p.tag_known();
                p.round_trip(at);
            },
        }
    }
}

impl Tagged for CallbackQueryPayload {
    open spec fn known(tag: Seq<char>) -> bool {
        ||| tag == "callbackQueryPayloadData"@
        ||| tag == "callbackQueryPayloadGame"@
    }

    fn knows(tag: &str) -> (r: bool) {
        same_text(tag, "callbackQueryPayloadData")
            || same_text(tag, "callbackQueryPayloadGame")
    }

    proof fn tag_known(&self) {
        reveal(<CallbackQueryPayload as Wire>::wire);
        match self {
            Self::CallbackQueryPayloadData(p) => p.tag_known(),
            Self::CallbackQueryPayloadGame(p) => p.tag_known(),
        }
    }
}

impl Union for CallbackQueryPayload {
    proof fn unknown_rejected(d: Doc, at: Seq<char>) {
        reveal(<CallbackQueryPayload as Wire>::parse);
    }

    proof fn untagged_rejected(d: Doc, at: Seq<char>) {
        reveal(<CallbackQueryPayload as Wire>::parse);
    }
}

/// Contains a bot's answer to a callback query
#[derive(Debug, Clone, PartialEq)]
pub struct CallbackQueryAnswer {
    /// Text of the answer
    pub text: String,
    /// True, if an alert should be shown to the user instead of a toast notification
    pub show_alert: bool,
    /// URL to be opened
    pub url: String,
}

impl Wire for CallbackQueryAnswer {
    #[verifier::opaque]
    open spec fn wire(&self) -> Doc {
        tagged(
            Map::empty()
                .insert("text"@, self.text.wire())
                .insert("showAlert"@, self.show_alert.wire())
                .insert("url"@, self.url.wire()),
            "callbackQueryAnswer"@,
        )
    }

    #[verifier::opaque]
    open spec fn parse(d: Doc, at: Seq<char>) -> Result<Doc, Fault> {
        match d {
            Doc::Object(m) => {
                let text = field::<String>(m, "text"@);
                let show_alert = field::<bool>(m, "showAlert"@);
                let url = field::<String>(m, "url"@);
                if text is Err {
                    text
                } else if show_alert is Err {
                    show_alert
                } else if url is Err {
                    url
                } else {
                    Ok(
                        tagged(
                            Map::empty()
                                .insert("text"@, text->Ok_0)
                                .insert("showAlert"@, show_alert->Ok_0)
                                .insert("url"@, url->Ok_0),
                            "callbackQueryAnswer"@,
                        ),
                    )
                }
            },
            _ => Err(Fault::TypeMismatch(at)),
        }
    }

    fn encode(&self) -> (j: Json) {
        proof {
            reveal(<CallbackQueryAnswer as Wire>::wire);
        }
        let mut members: Vec<Member> = Vec::new();
        put(&mut members, "text", self.text.encode());
        put(&mut members, "showAlert", self.show_alert.encode());
        put(&mut members, "url", self.url.encode());
        seal(members, "callbackQueryAnswer")
    }

    fn decode(j: &Json, at: &str) -> (r: Result<Self, DecodeError>) {
        proof {
            reveal(<CallbackQueryAnswer as Wire>::wire);
            reveal(<CallbackQueryAnswer as Wire>::parse);
        }
        let members = members_of(j, at)?;
        let text = read_field::<String>(members, "text")?;
        let show_alert = read_field::<bool>(members, "showAlert")?;
        let url = read_field::<String>(members, "url")?;
        Ok(CallbackQueryAnswer { text, show_alert, url })
    }

    proof fn round_trip(&self, at: Seq<char>) {
        reveal(<CallbackQueryAnswer as Wire>::wire);
        reveal(<CallbackQueryAnswer as Wire>::parse);
        reveal_strlit("@type");
        reveal_strlit("showAlert");
        reveal_strlit("text");
        reveal_strlit("url");
        assert("@type"@.len() == 5);
        assert("showAlert"@.len() == 9);
        assert("text"@.len() == 4);
        assert("url"@.len() == 3);
        self.text.round_trip("text"@);
        self.show_alert.round_trip("showAlert"@);
        self.url.round_trip("url"@);
    }
}

impl Tagged for CallbackQueryAnswer {
    open spec fn known(tag: Seq<char>) -> bool {
        tag == "callbackQueryAnswer"@
    }

    fn knows(tag: &str) -> (r: bool) {
        same_text(tag, "callbackQueryAnswer")
    }

    proof fn tag_known(&self) {
        reveal(<CallbackQueryAnswer as Wire>::wire);
        assert(tag_of(self.wire()) == Some("callbackQueryAnswer"@));
        assert(Self::known("callbackQueryAnswer"@));
    }
}

/// Contains the result of a custom request
#[derive(Debug, Clone, PartialEq)]
pub struct CustomRequestResult {
    /// A JSON-serialized result
    pub result: String,
}

impl Wire for CustomRequestResult {
    #[verifier::opaque]
    open spec fn wire(&self) -> Doc {
        tagged(
            Map::empty()
                .insert("result"@, self.result.wire()),
            "customRequestResult"@,
        )
    }

    #[verifier::opaque]
    open spec fn parse(d: Doc, at: Seq<char>) -> Result<Doc, Fault> {
        match d {
            Doc::Object(m) => {
                let result = field::<String>(m, "result"@);
                if result is Err {
                    result
                } else {
                    Ok(
                        tagged(
                            Map::empty()
                                .insert("result"@, result->Ok_0),
                            "customRequestResult"@,
                        ),
                    )
                }
            },
            _ => Err(Fault::TypeMismatch(at)),
        }
    }

    fn encode(&self) -> (j: Json) {
        proof {
            reveal(<CustomRequestResult as Wire>::wire);
        }
        let mut members: Vec<Member> = Vec::new();
        put(&mut members, "result", self.result.encode());
        seal(members, "customRequestResult")
    }

    fn decode(j: &Json, at: &str) -> (r: Result<Self, DecodeError>) {
        proof {
            reveal(<CustomRequestResult as Wire>::wire);
            reveal(<CustomRequestResult as Wire>::parse);
        }
        let members = members_of(j, at)?;
        let result = read_field::<String>(members, "result")?;
        Ok(CustomRequestResult { result })
    }

    proof fn round_trip(&self, at: Seq<char>) {
        reveal(<CustomRequestResult as Wire>::wire);
        reveal(<CustomRequestResult as Wire>::parse);
        reveal_strlit("@type");
        reveal_strlit("result");
        assert("@type"@.len() == 5);
        assert("result"@.len() == 6);
        self.result.round_trip("result"@);
    }
}

impl Tagged for CustomRequestResult {
    open spec fn known(tag: Seq<char>) -> bool {
        tag == "customRequestResult"@
    }

    fn knows(tag: &str) -> (r: bool) {
        same_text(tag, "customRequestResult")
    }

    proof fn tag_known(&self) {
        reveal(<CustomRequestResult as Wire>::wire);
        assert(tag_of(self.wire()) == Some("customRequestResult"@));
        assert(Self::known("customRequestResult"@));
    }
}

/// Contains one row of the game high score table
#[derive(Debug, Clone, PartialEq)]
pub struct GameHighScore {
    /// Position in the high score table
    pub position: i32,
    /// User identifier
    pub user_id: i32,
    /// User score
    pub score: i32,
}

impl Wire for GameHighScore {
    #[verifier::opaque]
    open spec fn wire(&self) -> Doc {
        tagged(
            Map::empty()
                .insert("position"@, self.position.wire())
                .insert("userId"@, self.user_id.wire())
                .insert("score"@, self.score.wire()),
            "gameHighScore"@,
        )
    }

    #[verifier::opaque]
    open spec fn parse(d: Doc, at: Seq<char>) -> Result<Doc, Fault> {
        match d {
            Doc::Object(m) => {
                let position = field::<i32>(m, "position"@);
                let user_id = field::<i32>(m, "userId"@);
                let score = field::<i32>(m, "score"@);
                if position is Err {
                    position
                } else if user_id is Err {
                    user_id
                } else if score is Err {
                    score
                } else {
                    Ok(
                        tagged(
                            Map::empty()
                                .insert("position"@, position->Ok_0)
                                .insert("userId"@, user_id->Ok_0)
                                .insert("score"@, score->Ok_0),
                            "gameHighScore"@,
                        ),
                    )
                }
            },
            _ => Err(Fault::TypeMismatch(at)),
        }
    }

    fn encode(&self) -> (j: Json) {
        proof {
            reveal(<GameHighScore as Wire>::wire);
        }
        let mut members: Vec<Member> = Vec::new();
        put(&mut members, "position", self.position.encode());
        put(&mut members, "userId", self.user_id.encode());
        put(&mut members, "score", self.score.encode());
        seal(members, "gameHighScore")
    }

    fn decode(j: &Json, at: &str) -> (r: Result<Self, DecodeError>) {
        proof {
            reveal(<GameHighScore as Wire>::wire);
            reveal(<GameHighScore as Wire>::parse);
        }
        let members = members_of(j, at)?;
        let position = read_field::<i32>(members, "position")?;
        let user_id = read_field::<i32>(members, "userId")?;
        let score = read_field::<i32>(members, "score")?;
        Ok(GameHighScore { position, user_id, score })
    }

    proof fn round_trip(&self, at: Seq<char>) {
        reveal(<GameHighScore as Wire>::wire);
        reveal(<GameHighScore as Wire>::parse);
        reveal_strlit("@type");
        reveal_strlit("position");
        reveal_strlit("score");
        reveal_strlit("userId");
        assert("@type"@.len() == 5 && "@type"@[0] == '@');
        assert("position"@.len() == 8);
        assert("score"@.len() == 5 && "score"@[0] == 's');
        assert("userId"@.len() == 6);
        self.position.round_trip("position"@);
        self.user_id.round_trip("userId"@);
        self.score.round_trip("score"@);
    }
}

impl Tagged for GameHighScore {
    open spec fn known(tag: Seq<char>) -> bool {
        tag == "gameHighScore"@
    }

    fn knows(tag: &str) -> (r: bool) {
        same_text(tag, "gameHighScore")
    }

    proof fn tag_known(&self) {
        reveal(<GameHighScore as Wire>::wire);
        assert(tag_of(self.wire()) == Some("gameHighScore"@));
        assert(Self::known("gameHighScore"@));
    }
}

/// Contains a list of game high scores
#[derive(Debug, Clone, PartialEq)]
pub struct GameHighScores {
    /// A list of game high scores
    pub scores: Vec<GameHighScore>,
}

impl Wire for GameHighScores {
    #[verifier::opaque]
    open spec fn wire(&self) -> Doc {
        tagged(
            Map::empty()
                .insert("scores"@, self.scores.wire()),
            "gameHighScores"@,
        )
    }

    #[verifier::opaque]
    open spec fn parse(d: Doc, at: Seq<char>) -> Result<Doc, Fault> {
        match d {
            Doc::Object(m) => {
                let scores = field::<Vec<GameHighScore>>(m, "scores"@);
                if scores is Err {
                    scores
                } else {
                    Ok(
                        tagged(
                            Map::empty()
                                .insert("scores"@, scores->Ok_0),
                            "gameHighScores"@,
                        ),
                    )
                }
            },
            _ => Err(Fault::TypeMismatch(at)),
        }
    }

    fn encode(&self) -> (j: Json) {
        proof {
            reveal(<GameHighScores as Wire>::wire);
        }
        let mut members: Vec<Member> = Vec::new();
        put(&mut members, "scores", self.scores.encode());
        seal(members, "gameHighScores")
    }

    fn decode(j: &Json, at: &str) -> (r: Result<Self, DecodeError>) {
        proof {
            reveal(<GameHighScores as Wire>::wire);
            reveal(<GameHighScores as Wire>::parse);
        }
        let members = members_of(j, at)?;
        let scores = read_field::<Vec<GameHighScore>>(members, "scores")?;
        Ok(GameHighScores { scores })
    }

    proof fn round_trip(&self, at: Seq<char>) {
        reveal(<GameHighScores as Wire>::wire);
        reveal(<GameHighScores as Wire>::parse);
        reveal_strlit("@type");
        reveal_strlit("scores");
        assert("@type"@.len() == 5);
        assert("scores"@.len() == 6);
        self.scores.round_trip("scores"@);
    }
}

impl Tagged for GameHighScores {
    open spec fn known(tag: Seq<char>) -> bool {
        tag == "gameHighScores"@
    }

    fn knows(tag: &str) -> (r: bool) {
        same_text(tag, "gameHighScores")
    }

    proof fn tag_known(&self) {
        reveal(<GameHighScores as Wire>::wire);
        assert(tag_of(self.wire()) == Some("gameHighScores"@));
        assert(Self::known("gameHighScores"@));
    }
}

} // verus!
