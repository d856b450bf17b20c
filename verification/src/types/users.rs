//! Users, groups, their members and secret chats.

use vstd::prelude::*;
use crate::codec::{
    discriminator, encode_wide, field, find, lemma_wide_round_trip, members_of, optional_field,
    put, read_field, read_optional, read_wide, seal, Tagged, Union, wide_doc, wide_field, Wire,
};
use crate::error::{DecodeError, Fault};
use crate::json::{Doc, Json, Member, Number, tag_of, tagged};
use crate::text::same_text;
use crate::types::{
    File, Location, PhotoSize, UserStatus,
};

verus! {

/// Describes a user profile photo
#[derive(Debug, Clone, PartialEq)]
pub struct ProfilePhoto {
    /// Photo identifier; 0 for an empty photo. Can be used to find a photo in a list of
    /// userProfilePhotos
    pub id: i64,
    /// A small (160x160) user profile photo. The file can be downloaded only before the photo is
    /// changed
    pub small: File,
    /// A big (640x640) user profile photo. The file can be downloaded only before the photo is
    /// changed
    pub big: File,
}

impl Wire for ProfilePhoto {
    #[verifier::opaque]
    open spec fn wire(&self) -> Doc {
        tagged(
            Map::empty()
                .insert("id"@, wide_doc(self.id))
                .insert("small"@, self.small.wire())
                .insert("big"@, self.big.wire()),
            "profilePhoto"@,
        )
    }

    #[verifier::opaque]
    open spec fn parse(d: Doc, at: Seq<char>) -> Result<Doc, Fault> {
        match d {
            Doc::Object(m) => {
                let id = wide_field(m, "id"@);
                let small = field::<File>(m, "small"@);
                let big = field::<File>(m, "big"@);
                if id is Err {
                    id
                } else if small is Err {
                    small
                } else if big is Err {
                    big
                } else {
                    Ok(
                        tagged(
                            Map::empty()
                                .insert("id"@, id->Ok_0)
                                .insert("small"@, small->Ok_0)
                                .insert("big"@, big->Ok_0),
                            "profilePhoto"@,
                        ),
                    )
                }
            },
            _ => Err(Fault::TypeMismatch(at)),
        }
    }

    fn encode(&self) -> (j: Json) {
        proof {
            reveal(<ProfilePhoto as Wire>::wire);
        }
        let mut members: Vec<Member> = Vec::new();
        put(&mut members, "id", encode_wide(self.id));
        put(&mut members, "small", self.small.encode());
        put(&mut members, "big", self.big.encode());
        seal(members, "profilePhoto")
    }

    fn decode(j: &Json, at: &str) -> (r: Result<Self, DecodeError>) {
        proof {
            reveal(<ProfilePhoto as Wire>::wire);
            reveal(<ProfilePhoto as Wire>::parse);
        }
        let members = members_of(j, at)?;
        let id = read_wide(members, "id")?;
        let small = read_field::<File>(members, "small")?;
        let big = read_field::<File>(members, "big")?;
        Ok(ProfilePhoto { id, small, big })
    }

    proof fn round_trip(&self, at: Seq<char>) {
        reveal(<ProfilePhoto as Wire>::wire);
        reveal(<ProfilePhoto as Wire>::parse);
        reveal_strlit("@type");
        reveal_strlit("big");
        reveal_strlit("id");
        reveal_strlit("small");
        assert("@type"@.len() == 5 && "@type"@[0] == '@');
        assert("big"@.len() == 3);
        assert("id"@.len() == 2);
        assert("small"@.len() == 5 && "small"@[0] == 's');
        lemma_wide_round_trip(self.id, "id"@);
        self.small.round_trip("small"@);
        self.big.round_trip("big"@);
    }
}

impl Tagged for ProfilePhoto {
    open spec fn known(tag: Seq<char>) -> bool {
        tag == "profilePhoto"@
    }

    fn knows(tag: &str) -> (r: bool) {
        same_text(tag, "profilePhoto")
    }

    proof fn tag_known(&self) {
        reveal(<ProfilePhoto as Wire>::wire);
        assert(tag_of(self.wire()) == Some("profilePhoto"@));
        assert(Self::known("profilePhoto"@));
    }
}

/// Describes the photo of a chat
#[derive(Debug, Clone, PartialEq)]
pub struct ChatPhoto {
    /// A small (160x160) chat photo. The file can be downloaded only before the photo is changed
    pub small: File,
    /// A big (640x640) chat photo. The file can be downloaded only before the photo is changed
    pub big: File,
}

impl Wire for ChatPhoto {
    #[verifier::opaque]
    open spec fn wire(&self) -> Doc {
        tagged(
            Map::empty()
                .insert("small"@, self.small.wire())
                .insert("big"@, self.big.wire()),
            "chatPhoto"@,
        )
    }

    #[verifier::opaque]
    open spec fn parse(d: Doc, at: Seq<char>) -> Result<Doc, Fault> {
        match d {
            Doc::Object(m) => {
                let small = field::<File>(m, "small"@);
                let big = field::<File>(m, "big"@);
                if small is Err {
                    small
                } else if big is Err {
                    big
                } else {
                    Ok(
                        tagged(
                            Map::empty()
                                .insert("small"@, small->Ok_0)
                                .insert("big"@, big->Ok_0),
                            "chatPhoto"@,
                        ),
                    )
                }
            },
            _ => Err(Fault::TypeMismatch(at)),
        }
    }

    fn encode(&self) -> (j: Json) {
        proof {
            reveal(<ChatPhoto as Wire>::wire);
        }
        let mut members: Vec<Member> = Vec::new();
        put(&mut members, "small", self.small.encode());
        put(&mut members, "big", self.big.encode());
        seal(members, "chatPhoto")
    }

    fn decode(j: &Json, at: &str) -> (r: Result<Self, DecodeError>) {
        proof {
            reveal(<ChatPhoto as Wire>::wire);
            reveal(<ChatPhoto as Wire>::parse);
        }
        let members = members_of(j, at)?;
        let small = read_field::<File>(members, "small")?;
        let big = read_field::<File>(members, "big")?;
        Ok(ChatPhoto { small, big })
    }

    proof fn round_trip(&self, at: Seq<char>) {
        reveal(<ChatPhoto as Wire>::wire);
        reveal(<ChatPhoto as Wire>::parse);
        reveal_strlit("@type");
        reveal_strlit("big");
        reveal_strlit("small");
        assert("@type"@.len() == 5 && "@type"@[0] == '@');
        assert("big"@.len() == 3);
        assert("small"@.len() == 5 && "small"@[0] == 's');
        self.small.round_trip("small"@);
        self.big.round_trip("big"@);
    }
}

impl Tagged for ChatPhoto {
    open spec fn known(tag: Seq<char>) -> bool {
        tag == "chatPhoto"@
    }

    fn knows(tag: &str) -> (r: bool) {
        same_text(tag, "chatPhoto")
    }

    proof fn tag_known(&self) {
        reveal(<ChatPhoto as Wire>::wire);
        assert(tag_of(self.wire()) == Some("chatPhoto"@));
        assert(Self::known("chatPhoto"@));
    }
}

/// A regular user
#[derive(Debug, Clone, PartialEq)]
pub struct UserTypeRegular {}

impl Wire for UserTypeRegular {
    #[verifier::opaque]
    open spec fn wire(&self) -> Doc {
        tagged(Map::empty(), "userTypeRegular"@)
    }

    #[verifier::opaque]
    open spec fn parse(d: Doc, at: Seq<char>) -> Result<Doc, Fault> {
        match d {
            Doc::Object(_) => Ok(tagged(Map::empty(), "userTypeRegular"@)),
            _ => Err(Fault::TypeMismatch(at)),
        }
    }

    fn encode(&self) -> (j: Json) {
        proof {
            reveal(<UserTypeRegular as Wire>::wire);
        }
        seal(Vec::new(), "userTypeRegular")
    }

    fn decode(j: &Json, at: &str) -> (r: Result<Self, DecodeError>) {
        proof {
            reveal(<UserTypeRegular as Wire>::wire);
            reveal(<UserTypeRegular as Wire>::parse);
        }
        let _ = members_of(j, at)?;
        Ok(UserTypeRegular {})
    }

    proof fn round_trip(&self, at: Seq<char>) {
        reveal(<UserTypeRegular as Wire>::wire);
        reveal(<UserTypeRegular as Wire>::parse);
    }
}

impl Tagged for UserTypeRegular {
    open spec fn known(tag: Seq<char>) -> bool {
        tag == "userTypeRegular"@
    }

    fn knows(tag: &str) -> (r: bool) {
        same_text(tag, "userTypeRegular")
    }

    proof fn tag_known(&self) {
        reveal(<UserTypeRegular as Wire>::wire);
        assert(tag_of(self.wire()) == Some("userTypeRegular"@));
        assert(Self::known("userTypeRegular"@));
    }
}

/// A deleted user or deleted bot. No information on the user besides the user identifier is
/// available. It is not possible to perform any active actions on this type of user
#[derive(Debug, Clone, PartialEq)]
pub struct UserTypeDeleted {}

impl Wire for UserTypeDeleted {
    #[verifier::opaque]
    open spec fn wire(&self) -> Doc {
        tagged(Map::empty(), "userTypeDeleted"@)
    }

    #[verifier::opaque]
    open spec fn parse(d: Doc, at: Seq<char>) -> Result<Doc, Fault> {
        match d {
            Doc::Object(_) => Ok(tagged(Map::empty(), "userTypeDeleted"@)),
            _ => Err(Fault::TypeMismatch(at)),
        }
    }

    fn encode(&self) -> (j: Json) {
        proof {
            reveal(<UserTypeDeleted as Wire>::wire);
        }
        seal(Vec::new(), "userTypeDeleted")
    }

    fn decode(j: &Json, at: &str) -> (r: Result<Self, DecodeError>) {
        proof {
            reveal(<UserTypeDeleted as Wire>::wire);
            reveal(<UserTypeDeleted as Wire>::parse);
        }
        let _ = members_of(j, at)?;
        Ok(UserTypeDeleted {})
    }

    proof fn round_trip(&self, at: Seq<char>) {
        reveal(<UserTypeDeleted as Wire>::wire);
        reveal(<UserTypeDeleted as Wire>::parse);
    }
}

impl Tagged for UserTypeDeleted {
    open spec fn known(tag: Seq<char>) -> bool {
        tag == "userTypeDeleted"@
    }

    fn knows(tag: &str) -> (r: bool) {
        same_text(tag, "userTypeDeleted")
    }

    proof fn tag_known(&self) {
        reveal(<UserTypeDeleted as Wire>::wire);
        assert(tag_of(self.wire()) == Some("userTypeDeleted"@));
        assert(Self::known("userTypeDeleted"@));
    }
}

/// A bot (see https://core.telegram.org/bots)
#[derive(Debug, Clone, PartialEq)]
pub struct UserTypeBot {
    /// True, if the bot can be invited to basic group and supergroup chats
    pub can_join_groups: bool,
    /// True, if the bot can read all messages in basic group or supergroup chats and not just those
    /// addressed to the bot. In private and channel chats a bot can always read all messages
    pub can_read_all_group_messages: bool,
    /// True, if the bot supports inline queries
    pub is_inline: bool,
    /// Placeholder for inline queries (displayed on the client input field)
    pub inline_query_placeholder: String,
    /// True, if the location of the user should be sent with every inline query to this bot
    pub need_location: bool,
}

impl Wire for UserTypeBot {
    #[verifier::opaque]
    open spec fn wire(&self) -> Doc {
        tagged(
            Map::empty()
                .insert("canJoinGroups"@, self.can_join_groups.wire())
                .insert("canReadAllGroupMessages"@, self.can_read_all_group_messages.wire())
                .insert("isInline"@, self.is_inline.wire())
                .insert("inlineQueryPlaceholder"@, self.inline_query_placeholder.wire())
                .insert("needLocation"@, self.need_location.wire()),
            "userTypeBot"@,
        )
    }

    #[verifier::opaque]
    open spec fn parse(d: Doc, at: Seq<char>) -> Result<Doc, Fault> {
        match d {
            Doc::Object(m) => {
                let can_join_groups = field::<bool>(m, "canJoinGroups"@);
                let can_read_all_group_messages = field::<bool>(m, "canReadAllGroupMessages"@);
                let is_inline = field::<bool>(m, "isInline"@);
                let inline_query_placeholder = field::<String>(m, "inlineQueryPlaceholder"@);
                let need_location = field::<bool>(m, "needLocation"@);
                if can_join_groups is Err {
                    can_join_groups
                } else if can_read_all_group_messages is Err {
                    can_read_all_group_messages
                } else if is_inline is Err {
                    is_inline
                } else if inline_query_placeholder is Err {
                    inline_query_placeholder
                } else if need_location is Err {
                    need_location
                } else {
                    Ok(
                        tagged(
                            Map::empty()
                                .insert("canJoinGroups"@, can_join_groups->Ok_0)
                                .insert(
                                    "canReadAllGroupMessages"@,
                                    can_read_all_group_messages->Ok_0,
                                )
                                .insert("isInline"@, is_inline->Ok_0)
                                .insert("inlineQueryPlaceholder"@, inline_query_placeholder->Ok_0)
                                .insert("needLocation"@, need_location->Ok_0),
                            "userTypeBot"@,
                        ),
                    )
                }
            },
            _ => Err(Fault::TypeMismatch(at)),
        }
    }

    fn encode(&self) -> (j: Json) {
        proof {
            reveal(<UserTypeBot as Wire>::wire);
        }
        let mut members: Vec<Member> = Vec::new();
        put(&mut members, "canJoinGroups", self.can_join_groups.encode());
        put(&mut members, "canReadAllGroupMessages", self.can_read_all_group_messages.encode());
        put(&mut members, "isInline", self.is_inline.encode());
        put(&mut members, "inlineQueryPlaceholder", self.inline_query_placeholder.encode());
        put(&mut members, "needLocation", self.need_location.encode());
        seal(members, "userTypeBot")
    }

    fn decode(j: &Json, at: &str) -> (r: Result<Self, DecodeError>) {
        proof {
            reveal(<UserTypeBot as Wire>::wire);
            reveal(<UserTypeBot as Wire>::parse);
        }
        let members = members_of(j, at)?;
        let can_join_groups = read_field::<bool>(members, "canJoinGroups")?;
        let can_read_all_group_messages = read_field::<bool>(members, "canReadAllGroupMessages")?;
        let is_inline = read_field::<bool>(members, "isInline")?;
        let inline_query_placeholder = read_field::<String>(members, "inlineQueryPlaceholder")?;
        let need_location = read_field::<bool>(members, "needLocation")?;
        Ok(UserTypeBot {
            can_join_groups,
            can_read_all_group_messages,
            is_inline,
            inline_query_placeholder,
            need_location,
        })
    }

    proof fn round_trip(&self, at: Seq<char>) {
        reveal(<UserTypeBot as Wire>::wire);
        reveal(<UserTypeBot as Wire>::parse);
        reveal_strlit("@type");
        reveal_strlit("canJoinGroups");
        reveal_strlit("canReadAllGroupMessages");
        reveal_strlit("inlineQueryPlaceholder");
        reveal_strlit("isInline");
        reveal_strlit("needLocation");
        assert("@type"@.len() == 5);
        assert("canJoinGroups"@.len() == 13);
        assert("canReadAllGroupMessages"@.len() == 23);
        assert("inlineQueryPlaceholder"@.len() == 22);
        assert("isInline"@.len() == 8);
        assert("needLocation"@.len() == 12);
        self.can_join_groups.round_trip("canJoinGroups"@);
        self.can_read_all_group_messages.round_trip("canReadAllGroupMessages"@);
        self.is_inline.round_trip("isInline"@);
        self.inline_query_placeholder.round_trip("inlineQueryPlaceholder"@);
        self.need_location.round_trip("needLocation"@);
    }
}

impl Tagged for UserTypeBot {
    open spec fn known(tag: Seq<char>) -> bool {
        tag == "userTypeBot"@
    }

    fn knows(tag: &str) -> (r: bool) {
        same_text(tag, "userTypeBot")
    }

    proof fn tag_known(&self) {
        reveal(<UserTypeBot as Wire>::wire);
        assert(tag_of(self.wire()) == Some("userTypeBot"@));
        assert(Self::known("userTypeBot"@));
    }
}

/// No information on the user besides the user identifier is available, yet this user has not been
/// deleted. This object is extremely rare and must be handled like a deleted user. It is not
/// possible to perform any actions on users of this type
#[derive(Debug, Clone, PartialEq)]
pub struct UserTypeUnknown {}

impl Wire for UserTypeUnknown {
    #[verifier::opaque]
    open spec fn wire(&self) -> Doc {
        tagged(Map::empty(), "userTypeUnknown"@)
    }

    #[verifier::opaque]
    open spec fn parse(d: Doc, at: Seq<char>) -> Result<Doc, Fault> {
        match d {
            Doc::Object(_) => Ok(tagged(Map::empty(), "userTypeUnknown"@)),
            _ => Err(Fault::TypeMismatch(at)),
        }
    }

    fn encode(&self) -> (j: Json) {
        proof {
            reveal(<UserTypeUnknown as Wire>::wire);
        }
        seal(Vec::new(), "userTypeUnknown")
    }

    fn decode(j: &Json, at: &str) -> (r: Result<Self, DecodeError>) {
        proof {
            reveal(<UserTypeUnknown as Wire>::wire);
            reveal(<UserTypeUnknown as Wire>::parse);
        }
        let _ = members_of(j, at)?;
        Ok(UserTypeUnknown {})
    }

    proof fn round_trip(&self, at: Seq<char>) {
        reveal(<UserTypeUnknown as Wire>::wire);
        reveal(<UserTypeUnknown as Wire>::parse);
    }
}

impl Tagged for UserTypeUnknown {
    open spec fn known(tag: Seq<char>) -> bool {
        tag == "userTypeUnknown"@
    }

    fn knows(tag: &str) -> (r: bool) {
        same_text(tag, "userTypeUnknown")
    }

    proof fn tag_known(&self) {
        reveal(<UserTypeUnknown as Wire>::wire);
        assert(tag_of(self.wire()) == Some("userTypeUnknown"@));
        assert(Self::known("userTypeUnknown"@));
    }
}

/// Represents the type of a user. The following types are possible: regular users, deleted users
/// and bots
#[derive(Debug, Clone, PartialEq)]
pub enum UserType {
    UserTypeRegular(UserTypeRegular),
    UserTypeDeleted(UserTypeDeleted),
    UserTypeBot(UserTypeBot),
    UserTypeUnknown(UserTypeUnknown),
}

impl Wire for UserType {
    #[verifier::opaque]
    open spec fn wire(&self) -> Doc {
        match self {
            Self::UserTypeRegular(p) => p.wire(),
            Self::UserTypeDeleted(p) => p.wire(),
            Self::UserTypeBot(p) => p.wire(),
            Self::UserTypeUnknown(p) => p.wire(),
        }
    }

    #[verifier::opaque]
    open spec fn parse(d: Doc, at: Seq<char>) -> Result<Doc, Fault> {
        match d {
            Doc::Object(_) => match tag_of(d) {
                Some(t) => if t == "userTypeRegular"@ {
                    UserTypeRegular::parse(d, at)
                } else if t == "userTypeDeleted"@ {
                    UserTypeDeleted::parse(d, at)
                } else if t == "userTypeBot"@ {
                    UserTypeBot::parse(d, at)
                } else if t == "userTypeUnknown"@ {
                    UserTypeUnknown::parse(d, at)
                } else {
                    Err(Fault::UnknownVariant(t))
                },
                None => Err(Fault::MissingDiscriminator),
            },
            _ => Err(Fault::TypeMismatch(at)),
        }
    }

    fn encode(&self) -> (j: Json) {
        proof {
            reveal(<UserType as Wire>::wire);
        }
        match self {
            Self::UserTypeRegular(p) => p.encode(),
            Self::UserTypeDeleted(p) => p.encode(),
            Self::UserTypeBot(p) => p.encode(),
            Self::UserTypeUnknown(p) => p.encode(),
        }
    }

    fn decode(j: &Json, at: &str) -> (r: Result<Self, DecodeError>) {
        proof {
            reveal(<UserType as Wire>::wire);
            reveal(<UserType as Wire>::parse);
        }
        let members = members_of(j, at)?;
        let tag = discriminator(members)?;
        if same_text(tag, "userTypeRegular") {
            Ok(Self::UserTypeRegular(UserTypeRegular::decode(j, at)?))
        } else if same_text(tag, "userTypeDeleted") {
            Ok(Self::UserTypeDeleted(UserTypeDeleted::decode(j, at)?))
        } else if same_text(tag, "userTypeBot") {
            Ok(Self::UserTypeBot(UserTypeBot::decode(j, at)?))
        } else if same_text(tag, "userTypeUnknown") {
            Ok(Self::UserTypeUnknown(UserTypeUnknown::decode(j, at)?))
        } else {
            Err(DecodeError::UnknownVariant(tag.to_owned()))
        }
    }

    proof fn round_trip(&self, at: Seq<char>) {
        reveal(<UserType as Wire>::wire);
        reveal(<UserType as Wire>::parse);
        reveal_strlit("userTypeBot");
        reveal_strlit("userTypeDeleted");
        reveal_strlit("userTypeRegular");
        reveal_strlit("userTypeUnknown");
        assert("userTypeBot"@.len() == 11);
        assert("userTypeDeleted"@.len() == 15 && "userTypeDeleted"@[8] == 'D');
        assert("userTypeRegular"@.len() == 15 && "userTypeRegular"@[8] == 'R');
        assert("userTypeUnknown"@.len() == 15 && "userTypeUnknown"@[8] == 'U');
        match self {
            Self::UserTypeRegular(p) => {
                p.tag_known();
                p.round_trip(at);
            },
            Self::UserTypeDeleted(p) => {
                p.tag_known();
                p.round_trip(at);
            },
            Self::UserTypeBot(p) => {
                p.tag_known();
                p.round_trip(at);
            },
            Self::UserTypeUnknown(p) => {
                p.tag_known();
                p.round_trip(at);
            },
        }
    }
}

impl Tagged for UserType {
    open spec fn known(tag: Seq<char>) -> bool {
        ||| tag == "userTypeRegular"@
        ||| tag == "userTypeDeleted"@
        ||| tag == "userTypeBot"@
        ||| tag == "userTypeUnknown"@
    }

    fn knows(tag: &str) -> (r: bool) {
        same_text(tag, "userTypeRegular")
            || same_text(tag, "userTypeDeleted")
            || same_text(tag, "userTypeBot")
            || same_text(tag, "userTypeUnknown")
    }

    proof fn tag_known(&self) {
        reveal(<UserType as Wire>::wire);
        match self {
            Self::UserTypeRegular(p) => p.tag_known(),
            Self::UserTypeDeleted(p) => p.tag_known(),
            Self::UserTypeBot(p) => p.tag_known(),
            Self::UserTypeUnknown(p) => p.tag_known(),
        }
    }
}

impl Union for UserType {
    proof fn unknown_rejected(d: Doc, at: Seq<char>) {
        reveal(<UserType as Wire>::parse);
    }

    proof fn untagged_rejected(d: Doc, at: Seq<char>) {
        reveal(<UserType as Wire>::parse);
    }
}

/// Represents commands supported by a bot
#[derive(Debug, Clone, PartialEq)]
pub struct BotCommand {
    /// Text of the bot command
    pub command: String,
    /// Represents commands supported by a bot
    pub description: String,
}

impl Wire for BotCommand {
    #[verifier::opaque]
    open spec fn wire(&self) -> Doc {
        tagged(
            Map::empty()
                .insert("command"@, self.command.wire())
                .insert("description"@, self.description.wire()),
            "botCommand"@,
        )
    }

    #[verifier::opaque]
    open spec fn parse(d: Doc, at: Seq<char>) -> Result<Doc, Fault> {
        match d {
            Doc::Object(m) => {
                let command = field::<String>(m, "command"@);
                let description = field::<String>(m, "description"@);
                if command is Err {
                    command
                } else if description is Err {
                    description
                } else {
                    Ok(
                        tagged(
                            Map::empty()
                                .insert("command"@, command->Ok_0)
                                .insert("description"@, description->Ok_0),
                            "botCommand"@,
                        ),
                    )
                }
            },
            _ => Err(Fault::TypeMismatch(at)),
        }
    }

    fn encode(&self) -> (j: Json) {
        proof {
            reveal(<BotCommand as Wire>::wire);
        }
        let mut members: Vec<Member> = Vec::new();
        put(&mut members, "command", self.command.encode());
        put(&mut members, "description", self.description.encode());
        seal(members, "botCommand")
    }

    fn decode(j: &Json, at: &str) -> (r: Result<Self, DecodeError>) {
        proof {
            reveal(<BotCommand as Wire>::wire);
            reveal(<BotCommand as Wire>::parse);
        }
        let members = members_of(j, at)?;
        let command = read_field::<String>(members, "command")?;
        let description = read_field::<String>(members, "description")?;
        Ok(BotCommand { command, description })
    }

    proof fn round_trip(&self, at: Seq<char>) {
        reveal(<BotCommand as Wire>::wire);
        reveal(<BotCommand as Wire>::parse);
        reveal_strlit("@type");
        reveal_strlit("command");
        reveal_strlit("description");
        assert("@type"@.len() == 5);
        assert("command"@.len() == 7);
        assert("description"@.len() == 11);
        self.command.round_trip("command"@);
        self.description.round_trip("description"@);
    }
}

impl Tagged for BotCommand {
    open spec fn known(tag: Seq<char>) -> bool {
        tag == "botCommand"@
    }

    fn knows(tag: &str) -> (r: bool) {
        same_text(tag, "botCommand")
    }

    proof fn tag_known(&self) {
        reveal(<BotCommand as Wire>::wire);
        assert(tag_of(self.wire()) == Some("botCommand"@));
        assert(Self::known("botCommand"@));
    }
}

/// Provides information about a bot and its supported commands
#[derive(Debug, Clone, PartialEq)]
pub struct BotInfo {
    /// Provides information about a bot and its supported commands
    pub description: String,
    /// A list of commands supported by the bot
    pub commands: Vec<BotCommand>,
}

impl Wire for BotInfo {
    #[verifier::opaque]
    open spec fn wire(&self) -> Doc {
        tagged(
            Map::empty()
                .insert("description"@, self.description.wire())
                .insert("commands"@, self.commands.wire()),
            "botInfo"@,
        )
    }

    #[verifier::opaque]
    open spec fn parse(d: Doc, at: Seq<char>) -> Result<Doc, Fault> {
        match d {
            Doc::Object(m) => {
                let description = field::<String>(m, "description"@);
                let commands = field::<Vec<BotCommand>>(m, "commands"@);
                if description is Err {
                    description
                } else if commands is Err {
                    commands
                } else {
                    Ok(
                        tagged(
                            Map::empty()
                                .insert("description"@, description->Ok_0)
                                .insert("commands"@, commands->Ok_0),
                            "botInfo"@,
                        ),
                    )
                }
            },
            _ => Err(Fault::TypeMismatch(at)),
        }
    }

    fn encode(&self) -> (j: Json) {
        proof {
            reveal(<BotInfo as Wire>::wire);
        }
        let mut members: Vec<Member> = Vec::new();
        put(&mut members, "description", self.description.encode());
        put(&mut members, "commands", self.commands.encode());
        seal(members, "botInfo")
    }

    fn decode(j: &Json, at: &str) -> (r: Result<Self, DecodeError>) {
        proof {
            reveal(<BotInfo as Wire>::wire);
            reveal(<BotInfo as Wire>::parse);
        }
        let members = members_of(j, at)?;
        let description = read_field::<String>(members, "description")?;
        let commands = read_field::<Vec<BotCommand>>(members, "commands")?;
        Ok(BotInfo { description, commands })
    }

    proof fn round_trip(&self, at: Seq<char>) {
        reveal(<BotInfo as Wire>::wire);
        reveal(<BotInfo as Wire>::parse);
        reveal_strlit("@type");
        reveal_strlit("commands");
        reveal_strlit("description");
        assert("@type"@.len() == 5);
        assert("commands"@.len() == 8);
        assert("description"@.len() == 11);
        self.description.round_trip("description"@);
        self.commands.round_trip("commands"@);
    }
}

impl Tagged for BotInfo {
    open spec fn known(tag: Seq<char>) -> bool {
        tag == "botInfo"@
    }

    fn knows(tag: &str) -> (r: bool) {
        same_text(tag, "botInfo")
    }

    proof fn tag_known(&self) {
        reveal(<BotInfo as Wire>::wire);
        assert(tag_of(self.wire()) == Some("botInfo"@));
        assert(Self::known("botInfo"@));
    }
}

/// Represents a location to which a chat is connected
#[derive(Debug, Clone, PartialEq)]
pub struct ChatLocation {
    /// The location
    pub location: Location,
    /// Location address; 1-64 characters, as defined by the chat owner
    pub address: String,
}

impl Wire for ChatLocation {
    #[verifier::opaque]
    open spec fn wire(&self) -> Doc {
        tagged(
            Map::empty()
                .insert("location"@, self.location.wire())
                .insert("address"@, self.address.wire()),
            "chatLocation"@,
        )
    }

    #[verifier::opaque]
    open spec fn parse(d: Doc, at: Seq<char>) -> Result<Doc, Fault> {
        match d {
            Doc::Object(m) => {
                let location = field::<Location>(m, "location"@);
                let address = field::<String>(m, "address"@);
                if location is Err {
                    location
                } else if address is Err {
                    address
                } else {
                    Ok(
                        tagged(
                            Map::empty()
                                .insert("location"@, location->Ok_0)
                                .insert("address"@, address->Ok_0),
                            "chatLocation"@,
                        ),
                    )
                }
            },
            _ => Err(Fault::TypeMismatch(at)),
        }
    }

    fn encode(&self) -> (j: Json) {
        proof {
            reveal(<ChatLocation as Wire>::wire);
        }
        let mut members: Vec<Member> = Vec::new();
        put(&mut members, "location", self.location.encode());
        put(&mut members, "address", self.address.encode());
        seal(members, "chatLocation")
    }

    fn decode(j: &Json, at: &str) -> (r: Result<Self, DecodeError>) {
        proof {
            reveal(<ChatLocation as Wire>::wire);
            reveal(<ChatLocation as Wire>::parse);
        }
        let members = members_of(j, at)?;
        let location = read_field::<Location>(members, "location")?;
        let address = read_field::<String>(members, "address")?;
        Ok(ChatLocation { location, address })
    }

    proof fn round_trip(&self, at: Seq<char>) {
        reveal(<ChatLocation as Wire>::wire);
        reveal(<ChatLocation as Wire>::parse);
        reveal_strlit("@type");
        reveal_strlit("address");
        reveal_strlit("location");
        assert("@type"@.len() == 5);
        assert("address"@.len() == 7);
        assert("location"@.len() == 8);
        self.location.round_trip("location"@);
        self.address.round_trip("address"@);
    }
}

impl Tagged for ChatLocation {
    open spec fn known(tag: Seq<char>) -> bool {
        tag == "chatLocation"@
    }

    fn knows(tag: &str) -> (r: bool) {
        same_text(tag, "chatLocation")
    }

    proof fn tag_known(&self) {
        reveal(<ChatLocation as Wire>::wire);
        assert(tag_of(self.wire()) == Some("chatLocation"@));
        assert(Self::known("chatLocation"@));
    }
}

/// Represents a user
#[derive(Debug, Clone, PartialEq)]
pub struct User {
    /// User identifier
    pub id: i32,
    /// First name of the user
    pub first_name: String,
    /// Last name of the user
    pub last_name: String,
    /// Username of the user
    pub username: String,
    /// Phone number of the user
    pub phone_number: String,
    /// Current online status of the user
    pub status: UserStatus,
    /// Profile photo of the user; may be null
    pub profile_photo: Option<ProfilePhoto>,
    /// The user is a contact of the current user
    pub is_contact: bool,
    /// The user is a contact of the current user and the current user is a contact of the user
    pub is_mutual_contact: bool,
    /// True, if the user is verified
    pub is_verified: bool,
    /// True, if the user is Telegram support account
    pub is_support: bool,
    /// If non-empty, it contains a human-readable description of the reason why access to this user
    /// must be restricted
    pub restriction_reason: String,
    /// True, if many users reported this user as a scam
    pub is_scam: bool,
    /// If false, the user is inaccessible, and the only information known about the user is inside
    /// this class. It can't be passed to any method except GetUser
    pub have_access: bool,
    /// Type of the user
    pub type_: UserType,
    /// IETF language tag of the user's language; only available to bots
    pub language_code: Option<String>,
}

impl Wire for User {
    #[verifier::opaque]
    open spec fn wire(&self) -> Doc {
        tagged(
            Map::empty()
                .insert("id"@, self.id.wire())
                .insert("firstName"@, self.first_name.wire())
                .insert("lastName"@, self.last_name.wire())
                .insert("username"@, self.username.wire())
                .insert("phoneNumber"@, self.phone_number.wire())
                .insert("status"@, self.status.wire())
                .insert("profilePhoto"@, self.profile_photo.wire())
                .insert("isContact"@, self.is_contact.wire())
                .insert("isMutualContact"@, self.is_mutual_contact.wire())
                .insert("isVerified"@, self.is_verified.wire())
                .insert("isSupport"@, self.is_support.wire())
                .insert("restrictionReason"@, self.restriction_reason.wire())
                .insert("isScam"@, self.is_scam.wire())
                .insert("haveAccess"@, self.have_access.wire())
                .insert("type"@, self.type_.wire())
                .insert("languageCode"@, self.language_code.wire()),
            "user"@,
        )
    }

    #[verifier::opaque]
    open spec fn parse(d: Doc, at: Seq<char>) -> Result<Doc, Fault> {
        match d {
            Doc::Object(m) => {
                let id = field::<i32>(m, "id"@);
                let first_name = field::<String>(m, "firstName"@);
                let last_name = field::<String>(m, "lastName"@);
                let username = field::<String>(m, "username"@);
                let phone_number = field::<String>(m, "phoneNumber"@);
                let status = field::<UserStatus>(m, "status"@);
                let profile_photo = optional_field::<ProfilePhoto>(m, "profilePhoto"@);
                let is_contact = field::<bool>(m, "isContact"@);
                let is_mutual_contact = field::<bool>(m, "isMutualContact"@);
                let is_verified = field::<bool>(m, "isVerified"@);
                let is_support = field::<bool>(m, "isSupport"@);
                let restriction_reason = field::<String>(m, "restrictionReason"@);
                let is_scam = field::<bool>(m, "isScam"@);
                let have_access = field::<bool>(m, "haveAccess"@);
                let type_ = field::<UserType>(m, "type"@);
                let language_code = optional_field::<String>(m, "languageCode"@);
                if id is Err {
                    id
                } else if first_name is Err {
                    first_name
                } else if last_name is Err {
                    last_name
                } else if username is Err {
                    username
                } else if phone_number is Err {
                    phone_number
                } else if status is Err {
                    status
                } else if profile_photo is Err {
                    profile_photo
                } else if is_contact is Err {
                    is_contact
                } else if is_mutual_contact is Err {
                    is_mutual_contact
                } else if is_verified is Err {
                    is_verified
                } else if is_support is Err {
                    is_support
                } else if restriction_reason is Err {
                    restriction_reason
                } else if is_scam is Err {
                    is_scam
                } else if have_access is Err {
                    have_access
                } else if type_ is Err {
                    type_
                } else if language_code is Err {
                    language_code
                } else {
                    Ok(
                        tagged(
                            Map::empty()
                                .insert("id"@, id->Ok_0)
                                .insert("firstName"@, first_name->Ok_0)
                                .insert("lastName"@, last_name->Ok_0)
                                .insert("username"@, username->Ok_0)
                                .insert("phoneNumber"@, phone_number->Ok_0)
                                .insert("status"@, status->Ok_0)
                                .insert("profilePhoto"@, profile_photo->Ok_0)
                                .insert("isContact"@, is_contact->Ok_0)
                                .insert("isMutualContact"@, is_mutual_contact->Ok_0)
                                .insert("isVerified"@, is_verified->Ok_0)
                                .insert("isSupport"@, is_support->Ok_0)
                                .insert("restrictionReason"@, restriction_reason->Ok_0)
                                .insert("isScam"@, is_scam->Ok_0)
                                .insert("haveAccess"@, have_access->Ok_0)
                                .insert("type"@, type_->Ok_0)
                                .insert("languageCode"@, language_code->Ok_0),
                            "user"@,
                        ),
                    )
                }
            },
            _ => Err(Fault::TypeMismatch(at)),
        }
    }

    fn encode(&self) -> (j: Json) {
        proof {
            reveal(<User as Wire>::wire);
        }
        let mut members: Vec<Member> = Vec::new();
        put(&mut members, "id", self.id.encode());
        put(&mut members, "firstName", self.first_name.encode());
        put(&mut members, "lastName", self.last_name.encode());
        put(&mut members, "username", self.username.encode());
        put(&mut members, "phoneNumber", self.phone_number.encode());
        put(&mut members, "status", self.status.encode());
        put(&mut members, "profilePhoto", self.profile_photo.encode());
        put(&mut members, "isContact", self.is_contact.encode());
        put(&mut members, "isMutualContact", self.is_mutual_contact.encode());
        put(&mut members, "isVerified", self.is_verified.encode());
        put(&mut members, "isSupport", self.is_support.encode());
        put(&mut members, "restrictionReason", self.restriction_reason.encode());
        put(&mut members, "isScam", self.is_scam.encode());
        put(&mut members, "haveAccess", self.have_access.encode());
        put(&mut members, "type", self.type_.encode());
        put(&mut members, "languageCode", self.language_code.encode());
        seal(members, "user")
    }

    fn decode(j: &Json, at: &str) -> (r: Result<Self, DecodeError>) {
        proof {
            reveal(<User as Wire>::wire);
            reveal(<User as Wire>::parse);
        }
        let members = members_of(j, at)?;
        let id = read_field::<i32>(members, "id")?;
        let first_name = read_field::<String>(members, "firstName")?;
        let last_name = read_field::<String>(members, "lastName")?;
        let username = read_field::<String>(members, "username")?;
        let phone_number = read_field::<String>(members, "phoneNumber")?;
        let status = read_field::<UserStatus>(members, "status")?;
        let profile_photo = read_optional::<ProfilePhoto>(members, "profilePhoto")?;
        let is_contact = read_field::<bool>(members, "isContact")?;
        let is_mutual_contact = read_field::<bool>(members, "isMutualContact")?;
        let is_verified = read_field::<bool>(members, "isVerified")?;
        let is_support = read_field::<bool>(members, "isSupport")?;
        let restriction_reason = read_field::<String>(members, "restrictionReason")?;
        let is_scam = read_field::<bool>(members, "isScam")?;
        let have_access = read_field::<bool>(members, "haveAccess")?;
        let type_ = read_field::<UserType>(members, "type")?;
        let language_code = read_optional::<String>(members, "languageCode")?;
        Ok(User {
            id,
            first_name,
            last_name,
            username,
            phone_number,
            status,
            profile_photo,
            is_contact,
            is_mutual_contact,
            is_verified,
            is_support,
            restriction_reason,
            is_scam,
            have_access,
            type_,
            language_code,
        })
    }

    proof fn round_trip(&self, at: Seq<char>) {
        reveal(<User as Wire>::wire);
        reveal(<User as Wire>::parse);
        reveal_strlit("@type");
        reveal_strlit("firstName");
        reveal_strlit("haveAccess");
        reveal_strlit("id");
        reveal_strlit("isContact");
        reveal_strlit("isMutualContact");
        reveal_strlit("isScam");
        reveal_strlit("isSupport");
        reveal_strlit("isVerified");
        reveal_strlit("languageCode");
        reveal_strlit("lastName");
        reveal_strlit("phoneNumber");
        reveal_strlit("profilePhoto");
        reveal_strlit("restrictionReason");
        reveal_strlit("status");
        reveal_strlit("type");
        reveal_strlit("username");
        assert("@type"@.len() == 5);
        assert("firstName"@.len() == 9 && "firstName"@[2] == 'r');
        assert("haveAccess"@.len() == 10 && "haveAccess"@[0] == 'h');
        assert("id"@.len() == 2);
        assert("isContact"@.len() == 9 && "isContact"@[2] == 'C');
        assert("isMutualContact"@.len() == 15);
        assert("isScam"@.len() == 6 && "isScam"@[0] == 'i');
        assert("isSupport"@.len() == 9 && "isSupport"@[2] == 'S');
        assert("isVerified"@.len() == 10 && "isVerified"@[0] == 'i');
        assert("languageCode"@.len() == 12 && "languageCode"@[0] == 'l');
        assert("lastName"@.len() == 8 && "lastName"@[0] == 'l');
        assert("phoneNumber"@.len() == 11);
        assert("profilePhoto"@.len() == 12 && "profilePhoto"@[0] == 'p');
        assert("restrictionReason"@.len() == 17);
        assert("status"@.len() == 6 && "status"@[0] == 's');
        assert("type"@.len() == 4);
        assert("username"@.len() == 8 && "username"@[0] == 'u');
        self.id.round_trip("id"@);
        self.first_name.round_trip("firstName"@);
        self.last_name.round_trip("lastName"@);
        self.username.round_trip("username"@);
        self.phone_number.round_trip("phoneNumber"@);
        self.status.round_trip("status"@);
        self.profile_photo.round_trip("profilePhoto"@);
        self.is_contact.round_trip("isContact"@);
        self.is_mutual_contact.round_trip("isMutualContact"@);
        self.is_verified.round_trip("isVerified"@);
        self.is_support.round_trip("isSupport"@);
        self.restriction_reason.round_trip("restrictionReason"@);
        self.is_scam.round_trip("isScam"@);
        self.have_access.round_trip("haveAccess"@);
        self.type_.round_trip("type"@);
        self.language_code.round_trip("languageCode"@);
        let m = self.wire()->Object_0;
        assert(field::<i32>(m, "id"@) == Ok::<Doc, Fault>(self.id.wire()));
        assert(field::<String>(m, "firstName"@) == Ok::<Doc, Fault>(self.first_name.wire()));
        assert(field::<String>(m, "lastName"@) == Ok::<Doc, Fault>(self.last_name.wire()));
        assert(field::<String>(m, "username"@) == Ok::<Doc, Fault>(self.username.wire()));
        assert(field::<String>(m, "phoneNumber"@) == Ok::<Doc, Fault>(self.phone_number.wire()));
        assert(field::<UserStatus>(m, "status"@) == Ok::<Doc, Fault>(self.status.wire()));
        assert(optional_field::<ProfilePhoto>(m, "profilePhoto"@)
            == Ok::<Doc, Fault>(self.profile_photo.wire()));
        assert(field::<bool>(m, "isContact"@) == Ok::<Doc, Fault>(self.is_contact.wire()));
        assert(field::<bool>(m, "isMutualContact"@)
            == Ok::<Doc, Fault>(self.is_mutual_contact.wire()));
        assert(field::<bool>(m, "isVerified"@) == Ok::<Doc, Fault>(self.is_verified.wire()));
        assert(field::<bool>(m, "isSupport"@) == Ok::<Doc, Fault>(self.is_support.wire()));
        assert(field::<String>(m, "restrictionReason"@)
            == Ok::<Doc, Fault>(self.restriction_reason.wire()));
        assert(field::<bool>(m, "isScam"@) == Ok::<Doc, Fault>(self.is_scam.wire()));
        assert(field::<bool>(m, "haveAccess"@) == Ok::<Doc, Fault>(self.have_access.wire()));
        assert(field::<UserType>(m, "type"@) == Ok::<Doc, Fault>(self.type_.wire()));
        assert(optional_field::<String>(m, "languageCode"@)
            == Ok::<Doc, Fault>(self.language_code.wire()));
    }
}

impl Tagged for User {
    open spec fn known(tag: Seq<char>) -> bool {
        tag == "user"@
    }

    fn knows(tag: &str) -> (r: bool) {
        same_text(tag, "user")
    }

    proof fn tag_known(&self) {
        reveal(<User as Wire>::wire);
        assert(tag_of(self.wire()) == Some("user"@));
        assert(Self::known("user"@));
    }
}

/// Contains full information about a user (except the full list of profile photos)
#[derive(Debug, Clone, PartialEq)]
pub struct UserFullInfo {
    /// True, if the user is blacklisted by the current user
    pub is_blocked: bool,
    /// True, if the user can be called
    pub can_be_called: bool,
    /// True, if the user can't be called due to their privacy settings
    pub has_private_calls: bool,
    /// True, if the current user needs to explicitly allow to share their phone number with the
    /// user when the method addContact is used
    pub need_phone_number_privacy_exception: bool,
    /// A short user bio
    pub bio: String,
    /// For bots, the text that is included with the link when users share the bot
    pub share_text: String,
    /// Number of group chats where both the other user and the current user are a member; 0 for the
    /// current user
    pub group_in_common_count: i32,
    /// If the user is a bot, information about the bot; may be null
    pub bot_info: Option<BotInfo>,
}

impl Wire for UserFullInfo {
    #[verifier::opaque]
    open spec fn wire(&self) -> Doc {
        tagged(
            Map::empty()
                .insert("isBlocked"@, self.is_blocked.wire())
                .insert("canBeCalled"@, self.can_be_called.wire())
                .insert("hasPrivateCalls"@, self.has_private_calls.wire())
                .insert(
                    "needPhoneNumberPrivacyException"@,
                    self.need_phone_number_privacy_exception.wire(),
                )
                .insert("bio"@, self.bio.wire())
                .insert("shareText"@, self.share_text.wire())
                .insert("groupInCommonCount"@, self.group_in_common_count.wire())
                .insert("botInfo"@, self.bot_info.wire()),
            "userFullInfo"@,
        )
    }

    #[verifier::opaque]
    open spec fn parse(d: Doc, at: Seq<char>) -> Result<Doc, Fault> {
        match d {
            Doc::Object(m) => {
                let is_blocked = field::<bool>(m, "isBlocked"@);
                let can_be_called = field::<bool>(m, "canBeCalled"@);
                let has_private_calls = field::<bool>(m, "hasPrivateCalls"@);
                let need_phone_number_privacy_exception = field::<bool>(
                    m,
                    "needPhoneNumberPrivacyException"@,
                );
                let bio = field::<String>(m, "bio"@);
                let share_text = field::<String>(m, "shareText"@);
                let group_in_common_count = field::<i32>(m, "groupInCommonCount"@);
                let bot_info = optional_field::<BotInfo>(m, "botInfo"@);
                if is_blocked is Err {
                    is_blocked
                } else if can_be_called is Err {
                    can_be_called
                } else if has_private_calls is Err {
                    has_private_calls
                } else if need_phone_number_privacy_exception is Err {
                    need_phone_number_privacy_exception
                } else if bio is Err {
                    bio
                } else if share_text is Err {
                    share_text
                } else if group_in_common_count is Err {
                    group_in_common_count
                } else if bot_info is Err {
                    bot_info
                } else {
                    Ok(
                        tagged(
                            Map::empty()
                                .insert("isBlocked"@, is_blocked->Ok_0)
                                .insert("canBeCalled"@, can_be_called->Ok_0)
                                .insert("hasPrivateCalls"@, has_private_calls->Ok_0)
                                .insert(
                                    "needPhoneNumberPrivacyException"@,
                                    need_phone_number_privacy_exception->Ok_0,
                                )
                                .insert("bio"@, bio->Ok_0)
                                .insert("shareText"@, share_text->Ok_0)
                                .insert("groupInCommonCount"@, group_in_common_count->Ok_0)
                                .insert("botInfo"@, bot_info->Ok_0),
                            "userFullInfo"@,
                        ),
                    )
                }
            },
            _ => Err(Fault::TypeMismatch(at)),
        }
    }

    fn encode(&self) -> (j: Json) {
        proof {
            reveal(<UserFullInfo as Wire>::wire);
        }
        let mut members: Vec<Member> = Vec::new();
        put(&mut members, "isBlocked", self.is_blocked.encode());
        put(&mut members, "canBeCalled", self.can_be_called.encode());
        put(&mut members, "hasPrivateCalls", self.has_private_calls.encode());
        put(
            &mut members,
            "needPhoneNumberPrivacyException",
            self.need_phone_number_privacy_exception.encode(),
        );
        put(&mut members, "bio", self.bio.encode());
        put(&mut members, "shareText", self.share_text.encode());
        put(&mut members, "groupInCommonCount", self.group_in_common_count.encode());
        put(&mut members, "botInfo", self.bot_info.encode());
        seal(members, "userFullInfo")
    }

    fn decode(j: &Json, at: &str) -> (r: Result<Self, DecodeError>) {
        proof {
            reveal(<UserFullInfo as Wire>::wire);
            reveal(<UserFullInfo as Wire>::parse);
        }
        let members = members_of(j, at)?;
        let is_blocked = read_field::<bool>(members, "isBlocked")?;
        let can_be_called = read_field::<bool>(members, "canBeCalled")?;
        let has_private_calls = read_field::<bool>(members, "hasPrivateCalls")?;
        let need_phone_number_privacy_exception = read_field::<bool>(
            members,
            "needPhoneNumberPrivacyException",
        )?;
        let bio = read_field::<String>(members, "bio")?;
        let share_text = read_field::<String>(members, "shareText")?;
        let group_in_common_count = read_field::<i32>(members, "groupInCommonCount")?;
        let bot_info = read_optional::<BotInfo>(members, "botInfo")?;
        Ok(UserFullInfo {
            is_blocked,
            can_be_called,
            has_private_calls,
            need_phone_number_privacy_exception,
            bio,
            share_text,
            group_in_common_count,
            bot_info,
        })
    }

    proof fn round_trip(&self, at: Seq<char>) {
        reveal(<UserFullInfo as Wire>::wire);
        reveal(<UserFullInfo as Wire>::parse);
        reveal_strlit("@type");
        reveal_strlit("bio");
        reveal_strlit("botInfo");
        reveal_strlit("canBeCalled");
        reveal_strlit("groupInCommonCount");
        reveal_strlit("hasPrivateCalls");
        reveal_strlit("isBlocked");
        reveal_strlit("needPhoneNumberPrivacyException");
        reveal_strlit("shareText");
        assert("@type"@.len() == 5);
        assert("bio"@.len() == 3);
        assert("botInfo"@.len() == 7);
        assert("canBeCalled"@.len() == 11);
        assert("groupInCommonCount"@.len() == 18);
        assert("hasPrivateCalls"@.len() == 15);
        assert("isBlocked"@.len() == 9 && "isBlocked"@[0] == 'i');
        assert("needPhoneNumberPrivacyException"@.len() == 31);
        assert("shareText"@.len() == 9 && "shareText"@[0] == 's');
        self.is_blocked.round_trip("isBlocked"@);
        self.can_be_called.round_trip("canBeCalled"@);
        self.has_private_calls.round_trip("hasPrivateCalls"@);
        self.need_phone_number_privacy_exception.round_trip("needPhoneNumberPrivacyException"@);
        self.bio.round_trip("bio"@);
        self.share_text.round_trip("shareText"@);
        self.group_in_common_count.round_trip("groupInCommonCount"@);
        self.bot_info.round_trip("botInfo"@);
    }
}

impl Tagged for UserFullInfo {
    open spec fn known(tag: Seq<char>) -> bool {
        tag == "userFullInfo"@
    }

    fn knows(tag: &str) -> (r: bool) {
        same_text(tag, "userFullInfo")
    }

    proof fn tag_known(&self) {
        reveal(<UserFullInfo as Wire>::wire);
        assert(tag_of(self.wire()) == Some("userFullInfo"@));
        assert(Self::known("userFullInfo"@));
    }
}

/// Contains full information about a user profile photo
#[derive(Debug, Clone, PartialEq)]
pub struct UserProfilePhoto {
    /// Unique user profile photo identifier
    pub id: i64,
    /// Point in time (Unix timestamp) when the photo has been added
    pub added_date: i32,
    /// Available variants of the user photo, in different sizes
    pub sizes: Vec<PhotoSize>,
}

impl Wire for UserProfilePhoto {
    #[verifier::opaque]
    open spec fn wire(&self) -> Doc {
        tagged(
            Map::empty()
                .insert("id"@, wide_doc(self.id))
                .insert("addedDate"@, self.added_date.wire())
                .insert("sizes"@, self.sizes.wire()),
            "userProfilePhoto"@,
        )
    }

    #[verifier::opaque]
    open spec fn parse(d: Doc, at: Seq<char>) -> Result<Doc, Fault> {
        match d {
            Doc::Object(m) => {
                let id = wide_field(m, "id"@);
                let added_date = field::<i32>(m, "addedDate"@);
                let sizes = field::<Vec<PhotoSize>>(m, "sizes"@);
                if id is Err {
                    id
                } else if added_date is Err {
                    added_date
                } else if sizes is Err {
                    sizes
                } else {
                    Ok(
                        tagged(
                            Map::empty()
                                .insert("id"@, id->Ok_0)
                                .insert("addedDate"@, added_date->Ok_0)
                                .insert("sizes"@, sizes->Ok_0),
                            "userProfilePhoto"@,
                        ),
                    )
                }
            },
            _ => Err(Fault::TypeMismatch(at)),
        }
    }

    fn encode(&self) -> (j: Json) {
        proof {
            reveal(<UserProfilePhoto as Wire>::wire);
        }
        let mut members: Vec<Member> = Vec::new();
        put(&mut members, "id", encode_wide(self.id));
        put(&mut members, "addedDate", self.added_date.encode());
        put(&mut members, "sizes", self.sizes.encode());
        seal(members, "userProfilePhoto")
    }

    fn decode(j: &Json, at: &str) -> (r: Result<Self, DecodeError>) {
        proof {
            reveal(<UserProfilePhoto as Wire>::wire);
            reveal(<UserProfilePhoto as Wire>::parse);
        }
        let members = members_of(j, at)?;
        let id = read_wide(members, "id")?;
        let added_date = read_field::<i32>(members, "addedDate")?;
        let sizes = read_field::<Vec<PhotoSize>>(members, "sizes")?;
        Ok(UserProfilePhoto { id, added_date, sizes })
    }

    proof fn round_trip(&self, at: Seq<char>) {
        reveal(<UserProfilePhoto as Wire>::wire);
        reveal(<UserProfilePhoto as Wire>::parse);
        reveal_strlit("@type");
        reveal_strlit("addedDate");
        reveal_strlit("id");
        reveal_strlit("sizes");
        assert("@type"@.len() == 5 && "@type"@[0] == '@');
        assert("addedDate"@.len() == 9);
        assert("id"@.len() == 2);
        assert("sizes"@.len() == 5 && "sizes"@[0] == 's');
        lemma_wide_round_trip(self.id, "id"@);
        self.added_date.round_trip("addedDate"@);
        self.sizes.round_trip("sizes"@);
    }
}

impl Tagged for UserProfilePhoto {
    open spec fn known(tag: Seq<char>) -> bool {
        tag == "userProfilePhoto"@
    }

    fn knows(tag: &str) -> (r: bool) {
        same_text(tag, "userProfilePhoto")
    }

    proof fn tag_known(&self) {
        reveal(<UserProfilePhoto as Wire>::wire);
        assert(tag_of(self.wire()) == Some("userProfilePhoto"@));
        assert(Self::known("userProfilePhoto"@));
    }
}

/// Contains part of the list of user photos
#[derive(Debug, Clone, PartialEq)]
pub struct UserProfilePhotos {
    /// Total number of user profile photos
    pub total_count: i32,
    /// A list of photos
    pub photos: Vec<UserProfilePhoto>,
}

impl Wire for UserProfilePhotos {
    #[verifier::opaque]
    open spec fn wire(&self) -> Doc {
        tagged(
            Map::empty()
                .insert("totalCount"@, self.total_count.wire())
                .insert("photos"@, self.photos.wire()),
            "userProfilePhotos"@,
        )
    }

    #[verifier::opaque]
    open spec fn parse(d: Doc, at: Seq<char>) -> Result<Doc, Fault> {
        match d {
            Doc::Object(m) => {
                let total_count = field::<i32>(m, "totalCount"@);
                let photos = field::<Vec<UserProfilePhoto>>(m, "photos"@);
                if total_count is Err {
                    total_count
                } else if photos is Err {
                    photos
                } else {
                    Ok(
                        tagged(
                            Map::empty()
                                .insert("totalCount"@, total_count->Ok_0)
                                .insert("photos"@, photos->Ok_0),
                            "userProfilePhotos"@,
                        ),
                    )
                }
            },
            _ => Err(Fault::TypeMismatch(at)),
        }
    }

    fn encode(&self) -> (j: Json) {
        proof {
            reveal(<UserProfilePhotos as Wire>::wire);
        }
        let mut members: Vec<Member> = Vec::new();
        put(&mut members, "totalCount", self.total_count.encode());
        put(&mut members, "photos", self.photos.encode());
        seal(members, "userProfilePhotos")
    }

    fn decode(j: &Json, at: &str) -> (r: Result<Self, DecodeError>) {
        proof {
            reveal(<UserProfilePhotos as Wire>::wire);
            reveal(<UserProfilePhotos as Wire>::parse);
        }
        let members = members_of(j, at)?;
        let total_count = read_field::<i32>(members, "totalCount")?;
        let photos = read_field::<Vec<UserProfilePhoto>>(members, "photos")?;
        Ok(UserProfilePhotos { total_count, photos })
    }

    proof fn round_trip(&self, at: Seq<char>) {
        reveal(<UserProfilePhotos as Wire>::wire);
        reveal(<UserProfilePhotos as Wire>::parse);
        reveal_strlit("@type");
        reveal_strlit("photos");
        reveal_strlit("totalCount");
        assert("@type"@.len() == 5);
        assert("photos"@.len() == 6);
        assert("totalCount"@.len() == 10);
        self.total_count.round_trip("totalCount"@);
        self.photos.round_trip("photos"@);
    }
}

impl Tagged for UserProfilePhotos {
    open spec fn known(tag: Seq<char>) -> bool {
        tag == "userProfilePhotos"@
    }

    fn knows(tag: &str) -> (r: bool) {
        same_text(tag, "userProfilePhotos")
    }

    proof fn tag_known(&self) {
        reveal(<UserProfilePhotos as Wire>::wire);
        assert(tag_of(self.wire()) == Some("userProfilePhotos"@));
        assert(Self::known("userProfilePhotos"@));
    }
}

/// Represents a list of users
#[derive(Debug, Clone, PartialEq)]
pub struct Users {
    /// Approximate total count of users found
    pub total_count: i32,
    /// A list of user identifiers
    pub user_ids: Vec<i32>,
}

impl Wire for Users {
    #[verifier::opaque]
    open spec fn wire(&self) -> Doc {
        tagged(
            Map::empty()
                .insert("totalCount"@, self.total_count.wire())
                .insert("userIds"@, self.user_ids.wire()),
            "users"@,
        )
    }

    #[verifier::opaque]
    open spec fn parse(d: Doc, at: Seq<char>) -> Result<Doc, Fault> {
        match d {
            Doc::Object(m) => {
                let total_count = field::<i32>(m, "totalCount"@);
                let user_ids = field::<Vec<i32>>(m, "userIds"@);
                if total_count is Err {
                    total_count
                } else if user_ids is Err {
                    user_ids
                } else {
                    Ok(
                        tagged(
                            Map::empty()
                                .insert("totalCount"@, total_count->Ok_0)
                                .insert("userIds"@, user_ids->Ok_0),
                            "users"@,
                        ),
                    )
                }
            },
            _ => Err(Fault::TypeMismatch(at)),
        }
    }

    fn encode(&self) -> (j: Json) {
        proof {
            reveal(<Users as Wire>::wire);
        }
        let mut members: Vec<Member> = Vec::new();
        put(&mut members, "totalCount", self.total_count.encode());
        put(&mut members, "userIds", self.user_ids.encode());
        seal(members, "users")
    }

    fn decode(j: &Json, at: &str) -> (r: Result<Self, DecodeError>) {
        proof {
            reveal(<Users as Wire>::wire);
            reveal(<Users as Wire>::parse);
        }
        let members = members_of(j, at)?;
        let total_count = read_field::<i32>(members, "totalCount")?;
        let user_ids = read_field::<Vec<i32>>(members, "userIds")?;
        Ok(Users { total_count, user_ids })
    }

    proof fn round_trip(&self, at: Seq<char>) {
        reveal(<Users as Wire>::wire);
        reveal(<Users as Wire>::parse);
        reveal_strlit("@type");
        reveal_strlit("totalCount");
        reveal_strlit("userIds");
        assert("@type"@.len() == 5);
        assert("totalCount"@.len() == 10);
        assert("userIds"@.len() == 7);
        self.total_count.round_trip("totalCount"@);
        self.user_ids.round_trip("userIds"@);
    }
}

impl Tagged for Users {
    open spec fn known(tag: Seq<char>) -> bool {
        tag == "users"@
    }

    fn knows(tag: &str) -> (r: bool) {
        same_text(tag, "users")
    }

    proof fn tag_known(&self) {
        reveal(<Users as Wire>::wire);
        assert(tag_of(self.wire()) == Some("users"@));
        assert(Self::known("users"@));
    }
}

/// Contains information about a chat administrator
#[derive(Debug, Clone, PartialEq)]
pub struct ChatAdministrator {
    /// User identifier of the administrator
    pub user_id: i32,
    /// Custom title of the administrator
    pub custom_title: String,
    /// True, if the user is the owner of the chat
    pub is_owner: bool,
}

impl Wire for ChatAdministrator {
    #[verifier::opaque]
    open spec fn wire(&self) -> Doc {
        tagged(
            Map::empty()
                .insert("userId"@, self.user_id.wire())
                .insert("customTitle"@, self.custom_title.wire())
                .insert("isOwner"@, self.is_owner.wire()),
            "chatAdministrator"@,
        )
    }

    #[verifier::opaque]
    open spec fn parse(d: Doc, at: Seq<char>) -> Result<Doc, Fault> {
        match d {
            Doc::Object(m) => {
                let user_id = field::<i32>(m, "userId"@);
                let custom_title = field::<String>(m, "customTitle"@);
                let is_owner = field::<bool>(m, "isOwner"@);
                if user_id is Err {
                    user_id
                } else if custom_title is Err {
                    custom_title
                } else if is_owner is Err {
                    is_owner
                } else {
                    Ok(
                        tagged(
                            Map::empty()
                                .insert("userId"@, user_id->Ok_0)
                                .insert("customTitle"@, custom_title->Ok_0)
                                .insert("isOwner"@, is_owner->Ok_0),
                            "chatAdministrator"@,
                        ),
                    )
                }
            },
            _ => Err(Fault::TypeMismatch(at)),
        }
    }

    fn encode(&self) -> (j: Json) {
        proof {
            reveal(<ChatAdministrator as Wire>::wire);
        }
        let mut members: Vec<Member> = Vec::new();
        put(&mut members, "userId", self.user_id.encode());
        put(&mut members, "customTitle", self.custom_title.encode());
        put(&mut members, "isOwner", self.is_owner.encode());
        seal(members, "chatAdministrator")
    }

    fn decode(j: &Json, at: &str) -> (r: Result<Self, DecodeError>) {
        proof {
            reveal(<ChatAdministrator as Wire>::wire);
            reveal(<ChatAdministrator as Wire>::parse);
        }
        let members = members_of(j, at)?;
        let user_id = read_field::<i32>(members, "userId")?;
        let custom_title = read_field::<String>(members, "customTitle")?;
        let is_owner = read_field::<bool>(members, "isOwner")?;
        Ok(ChatAdministrator { user_id, custom_title, is_owner })
    }

    proof fn round_trip(&self, at: Seq<char>) {
        reveal(<ChatAdministrator as Wire>::wire);
        reveal(<ChatAdministrator as Wire>::parse);
        reveal_strlit("@type");
        reveal_strlit("customTitle");
        reveal_strlit("isOwner");
        reveal_strlit("userId");
        assert("@type"@.len() == 5);
        assert("customTitle"@.len() == 11);
        assert("isOwner"@.len() == 7);
        assert("userId"@.len() == 6);
        self.user_id.round_trip("userId"@);
        self.custom_title.round_trip("customTitle"@);
        self.is_owner.round_trip("isOwner"@);
    }
}

impl Tagged for ChatAdministrator {
    open spec fn known(tag: Seq<char>) -> bool {
        tag == "chatAdministrator"@
    }

    fn knows(tag: &str) -> (r: bool) {
        same_text(tag, "chatAdministrator")
    }

    proof fn tag_known(&self) {
        reveal(<ChatAdministrator as Wire>::wire);
        assert(tag_of(self.wire()) == Some("chatAdministrator"@));
        assert(Self::known("chatAdministrator"@));
    }
}

/// Represents a list of chat administrators
#[derive(Debug, Clone, PartialEq)]
pub struct ChatAdministrators {
    /// A list of chat administrators
    pub administrators: Vec<ChatAdministrator>,
}

impl Wire for ChatAdministrators {
    #[verifier::opaque]
    open spec fn wire(&self) -> Doc {
        tagged(
            Map::empty()
                .insert("administrators"@, self.administrators.wire()),
            "chatAdministrators"@,
        )
    }

    #[verifier::opaque]
    open spec fn parse(d: Doc, at: Seq<char>) -> Result<Doc, Fault> {
        match d {
            Doc::Object(m) => {
                let administrators = field::<Vec<ChatAdministrator>>(m, "administrators"@);
                if administrators is Err {
                    administrators
                } else {
                    Ok(
                        tagged(
                            Map::empty()
                                .insert("administrators"@, administrators->Ok_0),
                            "chatAdministrators"@,
                        ),
                    )
                }
            },
            _ => Err(Fault::TypeMismatch(at)),
        }
    }

    fn encode(&self) -> (j: Json) {
        proof {
            reveal(<ChatAdministrators as Wire>::wire);
        }
        let mut members: Vec<Member> = Vec::new();
        put(&mut members, "administrators", self.administrators.encode());
        seal(members, "chatAdministrators")
    }

    fn decode(j: &Json, at: &str) -> (r: Result<Self, DecodeError>) {
        proof {
            reveal(<ChatAdministrators as Wire>::wire);
            reveal(<ChatAdministrators as Wire>::parse);
        }
        let members = members_of(j, at)?;
        let administrators = read_field::<Vec<ChatAdministrator>>(members, "administrators")?;
        Ok(ChatAdministrators { administrators })
    }

    proof fn round_trip(&self, at: Seq<char>) {
        reveal(<ChatAdministrators as Wire>::wire);
        reveal(<ChatAdministrators as Wire>::parse);
        reveal_strlit("@type");
        reveal_strlit("administrators");
        assert("@type"@.len() == 5);
        assert("administrators"@.len() == 14);
        self.administrators.round_trip("administrators"@);
    }
}

impl Tagged for ChatAdministrators {
    open spec fn known(tag: Seq<char>) -> bool {
        tag == "chatAdministrators"@
    }

    fn knows(tag: &str) -> (r: bool) {
        same_text(tag, "chatAdministrators")
    }

    proof fn tag_known(&self) {
        reveal(<ChatAdministrators as Wire>::wire);
        assert(tag_of(self.wire()) == Some("chatAdministrators"@));
        assert(Self::known("chatAdministrators"@));
    }
}

/// Describes actions that a user is allowed to take in a chat
#[derive(Debug, Clone, PartialEq)]
pub struct ChatPermissions {
    /// True, if the user can send text messages, contacts, locations, and venues
    pub can_send_messages: bool,
    /// True, if the user can send audio files, documents, photos, videos, video notes, and voice
    /// notes. Implies can_send_messages permissions
    pub can_send_media_messages: bool,
    /// True, if the user can send polls. Implies can_send_messages permissions
    pub can_send_polls: bool,
    /// True, if the user can send animations, games, and stickers and use inline bots. Implies
    /// can_send_messages permissions
    pub can_send_other_messages: bool,
    /// True, if the user may add a web page preview to their messages. Implies can_send_messages
    /// permissions
    pub can_add_web_page_previews: bool,
    /// True, if the user can change the chat title, photo, and other settings
    pub can_change_info: bool,
    /// True, if the user can invite new users to the chat
    pub can_invite_users: bool,
    /// True, if the user can pin messages
    pub can_pin_messages: bool,
}

impl Wire for ChatPermissions {
    #[verifier::opaque]
    open spec fn wire(&self) -> Doc {
        tagged(
            Map::empty()
                .insert("canSendMessages"@, self.can_send_messages.wire())
                .insert("canSendMediaMessages"@, self.can_send_media_messages.wire())
                .insert("canSendPolls"@, self.can_send_polls.wire())
                .insert("canSendOtherMessages"@, self.can_send_other_messages.wire())
                .insert("canAddWebPagePreviews"@, self.can_add_web_page_previews.wire())
                .insert("canChangeInfo"@, self.can_change_info.wire())
                .insert("canInviteUsers"@, self.can_invite_users.wire())
                .insert("canPinMessages"@, self.can_pin_messages.wire()),
            "chatPermissions"@,
        )
    }

    #[verifier::opaque]
    open spec fn parse(d: Doc, at: Seq<char>) -> Result<Doc, Fault> {
        match d {
            Doc::Object(m) => {
                let can_send_messages = field::<bool>(m, "canSendMessages"@);
                let can_send_media_messages = field::<bool>(m, "canSendMediaMessages"@);
                let can_send_polls = field::<bool>(m, "canSendPolls"@);
                let can_send_other_messages = field::<bool>(m, "canSendOtherMessages"@);
                let can_add_web_page_previews = field::<bool>(m, "canAddWebPagePreviews"@);
                let can_change_info = field::<bool>(m, "canChangeInfo"@);
                let can_invite_users = field::<bool>(m, "canInviteUsers"@);
                let can_pin_messages = field::<bool>(m, "canPinMessages"@);
                if can_send_messages is Err {
                    can_send_messages
                } else if can_send_media_messages is Err {
                    can_send_media_messages
                } else if can_send_polls is Err {
                    can_send_polls
                } else if can_send_other_messages is Err {
                    can_send_other_messages
                } else if can_add_web_page_previews is Err {
                    can_add_web_page_previews
                } else if can_change_info is Err {
                    can_change_info
                } else if can_invite_users is Err {
                    can_invite_users
                } else if can_pin_messages is Err {
                    can_pin_messages
                } else {
                    Ok(
                        tagged(
                            Map::empty()
                                .insert("canSendMessages"@, can_send_messages->Ok_0)
                                .insert("canSendMediaMessages"@, can_send_media_messages->Ok_0)
                                .insert("canSendPolls"@, can_send_polls->Ok_0)
                                .insert("canSendOtherMessages"@, can_send_other_messages->Ok_0)
                                .insert("canAddWebPagePreviews"@, can_add_web_page_previews->Ok_0)
                                .insert("canChangeInfo"@, can_change_info->Ok_0)
                                .insert("canInviteUsers"@, can_invite_users->Ok_0)
                                .insert("canPinMessages"@, can_pin_messages->Ok_0),
                            "chatPermissions"@,
                        ),
                    )
                }
            },
            _ => Err(Fault::TypeMismatch(at)),
        }
    }

    fn encode(&self) -> (j: Json) {
        proof {
            reveal(<ChatPermissions as Wire>::wire);
        }
        let mut members: Vec<Member> = Vec::new();
        put(&mut members, "canSendMessages", self.can_send_messages.encode());
        put(&mut members, "canSendMediaMessages", self.can_send_media_messages.encode());
        put(&mut members, "canSendPolls", self.can_send_polls.encode());
        put(&mut members, "canSendOtherMessages", self.can_send_other_messages.encode());
        put(&mut members, "canAddWebPagePreviews", self.can_add_web_page_previews.encode());
        put(&mut members, "canChangeInfo", self.can_change_info.encode());
        put(&mut members, "canInviteUsers", self.can_invite_users.encode());
        put(&mut members, "canPinMessages", self.can_pin_messages.encode());
        seal(members, "chatPermissions")
    }

    fn decode(j: &Json, at: &str) -> (r: Result<Self, DecodeError>) {
        proof {
            reveal(<ChatPermissions as Wire>::wire);
            reveal(<ChatPermissions as Wire>::parse);
        }
        let members = members_of(j, at)?;
        let can_send_messages = read_field::<bool>(members, "canSendMessages")?;
        let can_send_media_messages = read_field::<bool>(members, "canSendMediaMessages")?;
        let can_send_polls = read_field::<bool>(members, "canSendPolls")?;
        let can_send_other_messages = read_field::<bool>(members, "canSendOtherMessages")?;
        let can_add_web_page_previews = read_field::<bool>(members, "canAddWebPagePreviews")?;
        let can_change_info = read_field::<bool>(members, "canChangeInfo")?;
        let can_invite_users = read_field::<bool>(members, "canInviteUsers")?;
        let can_pin_messages = read_field::<bool>(members, "canPinMessages")?;
        Ok(ChatPermissions {
            can_send_messages,
            can_send_media_messages,
            can_send_polls,
            can_send_other_messages,
            can_add_web_page_previews,
            can_change_info,
            can_invite_users,
            can_pin_messages,
        })
    }

    proof fn round_trip(&self, at: Seq<char>) {
        reveal(<ChatPermissions as Wire>::wire);
        reveal(<ChatPermissions as Wire>::parse);
        reveal_strlit("@type");
        reveal_strlit("canAddWebPagePreviews");
        reveal_strlit("canChangeInfo");
        reveal_strlit("canInviteUsers");
        reveal_strlit("canPinMessages");
        reveal_strlit("canSendMediaMessages");
        reveal_strlit("canSendMessages");
        reveal_strlit("canSendOtherMessages");
        reveal_strlit("canSendPolls");
        assert("@type"@.len() == 5);
        assert("canAddWebPagePreviews"@.len() == 21);
        assert("canChangeInfo"@.len() == 13);
        assert("canInviteUsers"@.len() == 14 && "canInviteUsers"@[3] == 'I');
        assert("canPinMessages"@.len() == 14 && "canPinMessages"@[3] == 'P');
        assert("canSendMediaMessages"@.len() == 20 && "canSendMediaMessages"@[7] == 'M');
        assert("canSendMessages"@.len() == 15);
        assert("canSendOtherMessages"@.len() == 20 && "canSendOtherMessages"@[7] == 'O');
        assert("canSendPolls"@.len() == 12);
        self.can_send_messages.round_trip("canSendMessages"@);
        self.can_send_media_messages.round_trip("canSendMediaMessages"@);
        self.can_send_polls.round_trip("canSendPolls"@);
        self.can_send_other_messages.round_trip("canSendOtherMessages"@);
        self.can_add_web_page_previews.round_trip("canAddWebPagePreviews"@);
        self.can_change_info.round_trip("canChangeInfo"@);
        self.can_invite_users.round_trip("canInviteUsers"@);
        self.can_pin_messages.round_trip("canPinMessages"@);
    }
}

impl Tagged for ChatPermissions {
    open spec fn known(tag: Seq<char>) -> bool {
        tag == "chatPermissions"@
    }

    fn knows(tag: &str) -> (r: bool) {
        same_text(tag, "chatPermissions")
    }

    proof fn tag_known(&self) {
        reveal(<ChatPermissions as Wire>::wire);
        assert(tag_of(self.wire()) == Some("chatPermissions"@));
        assert(Self::known("chatPermissions"@));
    }
}

/// The user is the owner of a chat and has all the administrator privileges
#[derive(Debug, Clone, PartialEq)]
pub struct ChatMemberStatusCreator {
    /// A custom title of the owner; 0-16 characters without emojis; applicable to supergroups only
    pub custom_title: String,
    /// True, if the user is a member of the chat
    pub is_member: bool,
}

impl Wire for ChatMemberStatusCreator {
    #[verifier::opaque]
    open spec fn wire(&self) -> Doc {
        tagged(
            Map::empty()
                .insert("customTitle"@, self.custom_title.wire())
                .insert("isMember"@, self.is_member.wire()),
            "chatMemberStatusCreator"@,
        )
    }

    #[verifier::opaque]
    open spec fn parse(d: Doc, at: Seq<char>) -> Result<Doc, Fault> {
        match d {
            Doc::Object(m) => {
                let custom_title = field::<String>(m, "customTitle"@);
                let is_member = field::<bool>(m, "isMember"@);
                if custom_title is Err {
                    custom_title
                } else if is_member is Err {
                    is_member
                } else {
                    Ok(
                        tagged(
                            Map::empty()
                                .insert("customTitle"@, custom_title->Ok_0)
                                .insert("isMember"@, is_member->Ok_0),
                            "chatMemberStatusCreator"@,
                        ),
                    )
                }
            },
            _ => Err(Fault::TypeMismatch(at)),
        }
    }

    fn encode(&self) -> (j: Json) {
        proof {
            reveal(<ChatMemberStatusCreator as Wire>::wire);
        }
        let mut members: Vec<Member> = Vec::new();
        put(&mut members, "customTitle", self.custom_title.encode());
        put(&mut members, "isMember", self.is_member.encode());
        seal(members, "chatMemberStatusCreator")
    }

    fn decode(j: &Json, at: &str) -> (r: Result<Self, DecodeError>) {
        proof {
            reveal(<ChatMemberStatusCreator as Wire>::wire);
            reveal(<ChatMemberStatusCreator as Wire>::parse);
        }
        let members = members_of(j, at)?;
        let custom_title = read_field::<String>(members, "customTitle")?;
        let is_member = read_field::<bool>(members, "isMember")?;
        Ok(ChatMemberStatusCreator { custom_title, is_member })
    }

    proof fn round_trip(&self, at: Seq<char>) {
        reveal(<ChatMemberStatusCreator as Wire>::wire);
        reveal(<ChatMemberStatusCreator as Wire>::parse);
        reveal_strlit("@type");
        reveal_strlit("customTitle");
        reveal_strlit("isMember");
        assert("@type"@.len() == 5);
        assert("customTitle"@.len() == 11);
        assert("isMember"@.len() == 8);
        self.custom_title.round_trip("customTitle"@);
        self.is_member.round_trip("isMember"@);
    }
}

impl Tagged for ChatMemberStatusCreator {
    open spec fn known(tag: Seq<char>) -> bool {
        tag == "chatMemberStatusCreator"@
    }

    fn knows(tag: &str) -> (r: bool) {
        same_text(tag, "chatMemberStatusCreator")
    }

    proof fn tag_known(&self) {
        reveal(<ChatMemberStatusCreator as Wire>::wire);
        assert(tag_of(self.wire()) == Some("chatMemberStatusCreator"@));
        assert(Self::known("chatMemberStatusCreator"@));
    }
}

/// The user is a member of a chat and has some additional privileges. In basic groups,
/// administrators can edit and delete messages sent by others, add new members, and ban
/// unprivileged members. In supergroups and channels, there are more detailed options for
/// administrator privileges
#[derive(Debug, Clone, PartialEq)]
pub struct ChatMemberStatusAdministrator {
    /// A custom title of the administrator; 0-16 characters without emojis; applicable to
    /// supergroups only
    pub custom_title: String,
    /// True, if the current user can edit the administrator privileges for the called user
    pub can_be_edited: bool,
    /// True, if the administrator can change the chat title, photo, and other settings
    pub can_change_info: bool,
    /// True, if the administrator can create channel posts; applicable to channels only
    pub can_post_messages: bool,
    /// True, if the administrator can edit messages of other users and pin messages; applicable to
    /// channels only
    pub can_edit_messages: bool,
    /// True, if the administrator can delete messages of other users
    pub can_delete_messages: bool,
    /// True, if the administrator can invite new users to the chat
    pub can_invite_users: bool,
    /// True, if the administrator can restrict, ban, or unban chat members
    pub can_restrict_members: bool,
    /// True, if the administrator can pin messages; applicable to groups only
    pub can_pin_messages: bool,
    /// True, if the administrator can add new administrators with a subset of their own privileges
    /// or demote administrators that were directly or indirectly promoted by them
    pub can_promote_members: bool,
}

impl Wire for ChatMemberStatusAdministrator {
    #[verifier::opaque]
    open spec fn wire(&self) -> Doc {
        tagged(
            Map::empty()
                .insert("customTitle"@, self.custom_title.wire())
                .insert("canBeEdited"@, self.can_be_edited.wire())
                .insert("canChangeInfo"@, self.can_change_info.wire())
                .insert("canPostMessages"@, self.can_post_messages.wire())
                .insert("canEditMessages"@, self.can_edit_messages.wire())
                .insert("canDeleteMessages"@, self.can_delete_messages.wire())
                .insert("canInviteUsers"@, self.can_invite_users.wire())
                .insert("canRestrictMembers"@, self.can_restrict_members.wire())
                .insert("canPinMessages"@, self.can_pin_messages.wire())
                .insert("canPromoteMembers"@, self.can_promote_members.wire()),
            "chatMemberStatusAdministrator"@,
        )
    }

    #[verifier::opaque]
    open spec fn parse(d: Doc, at: Seq<char>) -> Result<Doc, Fault> {
        match d {
            Doc::Object(m) => {
                let custom_title = field::<String>(m, "customTitle"@);
                let can_be_edited = field::<bool>(m, "canBeEdited"@);
                let can_change_info = field::<bool>(m, "canChangeInfo"@);
                let can_post_messages = field::<bool>(m, "canPostMessages"@);
                let can_edit_messages = field::<bool>(m, "canEditMessages"@);
                let can_delete_messages = field::<bool>(m, "canDeleteMessages"@);
                let can_invite_users = field::<bool>(m, "canInviteUsers"@);
                let can_restrict_members = field::<bool>(m, "canRestrictMembers"@);
                let can_pin_messages = field::<bool>(m, "canPinMessages"@);
                let can_promote_members = field::<bool>(m, "canPromoteMembers"@);
                if custom_title is Err {
                    custom_title
                } else if can_be_edited is Err {
                    can_be_edited
                } else if can_change_info is Err {
                    can_change_info
                } else if can_post_messages is Err {
                    can_post_messages
                } else if can_edit_messages is Err {
                    can_edit_messages
                } else if can_delete_messages is Err {
                    can_delete_messages
                } else if can_invite_users is Err {
                    can_invite_users
                } else if can_restrict_members is Err {
                    can_restrict_members
                } else if can_pin_messages is Err {
                    can_pin_messages
                } else if can_promote_members is Err {
                    can_promote_members
                } else {
                    Ok(
                        tagged(
                            Map::empty()
                                .insert("customTitle"@, custom_title->Ok_0)
                                .insert("canBeEdited"@, can_be_edited->Ok_0)
                                .insert("canChangeInfo"@, can_change_info->Ok_0)
                                .insert("canPostMessages"@, can_post_messages->Ok_0)
                                .insert("canEditMessages"@, can_edit_messages->Ok_0)
                                .insert("canDeleteMessages"@, can_delete_messages->Ok_0)
                                .insert("canInviteUsers"@, can_invite_users->Ok_0)
                                .insert("canRestrictMembers"@, can_restrict_members->Ok_0)
                                .insert("canPinMessages"@, can_pin_messages->Ok_0)
                                .insert("canPromoteMembers"@, can_promote_members->Ok_0),
                            "chatMemberStatusAdministrator"@,
                        ),
                    )
                }
            },
            _ => Err(Fault::TypeMismatch(at)),
        }
    }

    fn encode(&self) -> (j: Json) {
        proof {
            reveal(<ChatMemberStatusAdministrator as Wire>::wire);
        }
        let mut members: Vec<Member> = Vec::new();
        put(&mut members, "customTitle", self.custom_title.encode());
        put(&mut members, "canBeEdited", self.can_be_edited.encode());
        put(&mut members, "canChangeInfo", self.can_change_info.encode());
        put(&mut members, "canPostMessages", self.can_post_messages.encode());
        put(&mut members, "canEditMessages", self.can_edit_messages.encode());
        put(&mut members, "canDeleteMessages", self.can_delete_messages.encode());
        put(&mut members, "canInviteUsers", self.can_invite_users.encode());
        put(&mut members, "canRestrictMembers", self.can_restrict_members.encode());
        put(&mut members, "canPinMessages", self.can_pin_messages.encode());
        put(&mut members, "canPromoteMembers", self.can_promote_members.encode());
        seal(members, "chatMemberStatusAdministrator")
    }

    fn decode(j: &Json, at: &str) -> (r: Result<Self, DecodeError>) {
        proof {
            reveal(<ChatMemberStatusAdministrator as Wire>::wire);
            reveal(<ChatMemberStatusAdministrator as Wire>::parse);
        }
        let members = members_of(j, at)?;
        let custom_title = read_field::<String>(members, "customTitle")?;
        let can_be_edited = read_field::<bool>(members, "canBeEdited")?;
        let can_change_info = read_field::<bool>(members, "canChangeInfo")?;
        let can_post_messages = read_field::<bool>(members, "canPostMessages")?;
        let can_edit_messages = read_field::<bool>(members, "canEditMessages")?;
        let can_delete_messages = read_field::<bool>(members, "canDeleteMessages")?;
        let can_invite_users = read_field::<bool>(members, "canInviteUsers")?;
        let can_restrict_members = read_field::<bool>(members, "canRestrictMembers")?;
        let can_pin_messages = read_field::<bool>(members, "canPinMessages")?;
        let can_promote_members = read_field::<bool>(members, "canPromoteMembers")?;
        Ok(ChatMemberStatusAdministrator {
            custom_title,
            can_be_edited,
            can_change_info,
            can_post_messages,
            can_edit_messages,
            can_delete_messages,
            can_invite_users,
            can_restrict_members,
            can_pin_messages,
            can_promote_members,
        })
    }

    proof fn round_trip(&self, at: Seq<char>) {
        reveal(<ChatMemberStatusAdministrator as Wire>::wire);
        reveal(<ChatMemberStatusAdministrator as Wire>::parse);
        reveal_strlit("@type");
        reveal_strlit("canBeEdited");
        reveal_strlit("canChangeInfo");
        reveal_strlit("canDeleteMessages");
        reveal_strlit("canEditMessages");
        reveal_strlit("canInviteUsers");
        reveal_strlit("canPinMessages");
        reveal_strlit("canPostMessages");
        reveal_strlit("canPromoteMembers");
        reveal_strlit("canRestrictMembers");
        reveal_strlit("customTitle");
        assert("@type"@.len() == 5);
        assert("canBeEdited"@.len() == 11 && "canBeEdited"@[1] == 'a');
        assert("canChangeInfo"@.len() == 13);
        assert("canDeleteMessages"@.len() == 17 && "canDeleteMessages"@[3] == 'D');
        assert("canEditMessages"@.len() == 15 && "canEditMessages"@[3] == 'E');
        assert("canInviteUsers"@.len() == 14 && "canInviteUsers"@[3] == 'I');
        assert("canPinMessages"@.len() == 14 && "canPinMessages"@[3] == 'P');
        assert("canPostMessages"@.len() == 15 && "canPostMessages"@[3] == 'P');
        assert("canPromoteMembers"@.len() == 17 && "canPromoteMembers"@[3] == 'P');
        assert("canRestrictMembers"@.len() == 18);
        assert("customTitle"@.len() == 11 && "customTitle"@[1] == 'u');
        self.custom_title.round_trip("customTitle"@);
        self.can_be_edited.round_trip("canBeEdited"@);
        self.can_change_info.round_trip("canChangeInfo"@);
        self.can_post_messages.round_trip("canPostMessages"@);
        self.can_edit_messages.round_trip("canEditMessages"@);
        self.can_delete_messages.round_trip("canDeleteMessages"@);
        self.can_invite_users.round_trip("canInviteUsers"@);
        self.can_restrict_members.round_trip("canRestrictMembers"@);
        self.can_pin_messages.round_trip("canPinMessages"@);
        self.can_promote_members.round_trip("canPromoteMembers"@);
        let m = self.wire()->Object_0;
        assert(field::<String>(m, "customTitle"@) == Ok::<Doc, Fault>(self.custom_title.wire()));
        assert(field::<bool>(m, "canBeEdited"@) == Ok::<Doc, Fault>(self.can_be_edited.wire()));
        assert(field::<bool>(m, "canChangeInfo"@) == Ok::<Doc, Fault>(self.can_change_info.wire()));
        assert(field::<bool>(m, "canPostMessages"@)
            == Ok::<Doc, Fault>(self.can_post_messages.wire()));
        assert(field::<bool>(m, "canEditMessages"@)
            == Ok::<Doc, Fault>(self.can_edit_messages.wire()));
        assert(field::<bool>(m, "canDeleteMessages"@)
            == Ok::<Doc, Fault>(self.can_delete_messages.wire()));
        assert(field::<bool>(m, "canInviteUsers"@)
            == Ok::<Doc, Fault>(self.can_invite_users.wire()));
        assert(field::<bool>(m, "canRestrictMembers"@)
            == Ok::<Doc, Fault>(self.can_restrict_members.wire()));
        assert(field::<bool>(m, "canPinMessages"@)
            == Ok::<Doc, Fault>(self.can_pin_messages.wire()));
        assert(field::<bool>(m, "canPromoteMembers"@)
            == Ok::<Doc, Fault>(self.can_promote_members.wire()));
    }
}

impl Tagged for ChatMemberStatusAdministrator {
    open spec fn known(tag: Seq<char>) -> bool {
        tag == "chatMemberStatusAdministrator"@
    }

    fn knows(tag: &str) -> (r: bool) {
        same_text(tag, "chatMemberStatusAdministrator")
    }

    proof fn tag_known(&self) {
        reveal(<ChatMemberStatusAdministrator as Wire>::wire);
        assert(tag_of(self.wire()) == Some("chatMemberStatusAdministrator"@));
        assert(Self::known("chatMemberStatusAdministrator"@));
    }
}

/// The user is a member of a chat, without any additional privileges or restrictions
#[derive(Debug, Clone, PartialEq)]
pub struct ChatMemberStatusMember {}

impl Wire for ChatMemberStatusMember {
    #[verifier::opaque]
    open spec fn wire(&self) -> Doc {
        tagged(Map::empty(), "chatMemberStatusMember"@)
    }

    #[verifier::opaque]
    open spec fn parse(d: Doc, at: Seq<char>) -> Result<Doc, Fault> {
        match d {
            Doc::Object(_) => Ok(tagged(Map::empty(), "chatMemberStatusMember"@)),
            _ => Err(Fault::TypeMismatch(at)),
        }
    }

    fn encode(&self) -> (j: Json) {
        proof {
            reveal(<ChatMemberStatusMember as Wire>::wire);
        }
        seal(Vec::new(), "chatMemberStatusMember")
    }

    fn decode(j: &Json, at: &str) -> (r: Result<Self, DecodeError>) {
        proof {
            reveal(<ChatMemberStatusMember as Wire>::wire);
            reveal(<ChatMemberStatusMember as Wire>::parse);
        }
        let _ = members_of(j, at)?;
        Ok(ChatMemberStatusMember {})
    }

    proof fn round_trip(&self, at: Seq<char>) {
        reveal(<ChatMemberStatusMember as Wire>::wire);
        reveal(<ChatMemberStatusMember as Wire>::parse);
    }
}

impl Tagged for ChatMemberStatusMember {
    open spec fn known(tag: Seq<char>) -> bool {
        tag == "chatMemberStatusMember"@
    }

    fn knows(tag: &str) -> (r: bool) {
        same_text(tag, "chatMemberStatusMember")
    }

    proof fn tag_known(&self) {
        reveal(<ChatMemberStatusMember as Wire>::wire);
        assert(tag_of(self.wire()) == Some("chatMemberStatusMember"@));
        assert(Self::known("chatMemberStatusMember"@));
    }
}

/// The user is under certain restrictions in the chat. Not supported in basic groups and channels
#[derive(Debug, Clone, PartialEq)]
pub struct ChatMemberStatusRestricted {
    /// True, if the user is a member of the chat
    pub is_member: bool,
    /// Point in time (Unix timestamp) when restrictions will be lifted from the user; 0 if never.
    /// If the user is restricted for more than 366 days or for less than 30 seconds from the
    /// current time, the user is considered to be restricted forever
    pub restricted_until_date: i32,
    /// User permissions in the chat
    pub permissions: ChatPermissions,
}

impl Wire for ChatMemberStatusRestricted {
    #[verifier::opaque]
    open spec fn wire(&self) -> Doc {
        tagged(
            Map::empty()
                .insert("isMember"@, self.is_member.wire())
                .insert("restrictedUntilDate"@, self.restricted_until_date.wire())
                .insert("permissions"@, self.permissions.wire()),
            "chatMemberStatusRestricted"@,
        )
    }

    #[verifier::opaque]
    open spec fn parse(d: Doc, at: Seq<char>) -> Result<Doc, Fault> {
        match d {
            Doc::Object(m) => {
                let is_member = field::<bool>(m, "isMember"@);
                let restricted_until_date = field::<i32>(m, "restrictedUntilDate"@);
                let permissions = field::<ChatPermissions>(m, "permissions"@);
                if is_member is Err {
                    is_member
                } else if restricted_until_date is Err {
                    restricted_until_date
                } else if permissions is Err {
                    permissions
                } else {
                    Ok(
                        tagged(
                            Map::empty()
                                .insert("isMember"@, is_member->Ok_0)
                                .insert("restrictedUntilDate"@, restricted_until_date->Ok_0)
                                .insert("permissions"@, permissions->Ok_0),
                            "chatMemberStatusRestricted"@,
                        ),
                    )
                }
            },
            _ => Err(Fault::TypeMismatch(at)),
        }
    }

    fn encode(&self) -> (j: Json) {
        proof {
            reveal(<ChatMemberStatusRestricted as Wire>::wire);
        }
        let mut members: Vec<Member> = Vec::new();
        put(&mut members, "isMember", self.is_member.encode());
        put(&mut members, "restrictedUntilDate", self.restricted_until_date.encode());
        put(&mut members, "permissions", self.permissions.encode());
        seal(members, "chatMemberStatusRestricted")
    }

    fn decode(j: &Json, at: &str) -> (r: Result<Self, DecodeError>) {
        proof {
            reveal(<ChatMemberStatusRestricted as Wire>::wire);
            reveal(<ChatMemberStatusRestricted as Wire>::parse);
        }
        let members = members_of(j, at)?;
        let is_member = read_field::<bool>(members, "isMember")?;
        let restricted_until_date = read_field::<i32>(members, "restrictedUntilDate")?;
        let permissions = read_field::<ChatPermissions>(members, "permissions")?;
        Ok(ChatMemberStatusRestricted { is_member, restricted_until_date, permissions })
    }

    proof fn round_trip(&self, at: Seq<char>) {
        reveal(<ChatMemberStatusRestricted as Wire>::wire);
        reveal(<ChatMemberStatusRestricted as Wire>::parse);
        reveal_strlit("@type");
        reveal_strlit("isMember");
        reveal_strlit("permissions");
        reveal_strlit("restrictedUntilDate");
        assert("@type"@.len() == 5);
        assert("isMember"@.len() == 8);
        assert("permissions"@.len() == 11);
        assert("restrictedUntilDate"@.len() == 19);
        self.is_member.round_trip("isMember"@);
        self.restricted_until_date.round_trip("restrictedUntilDate"@);
        self.permissions.round_trip("permissions"@);
    }
}

impl Tagged for ChatMemberStatusRestricted {
    open spec fn known(tag: Seq<char>) -> bool {
        tag == "chatMemberStatusRestricted"@
    }

    fn knows(tag: &str) -> (r: bool) {
        same_text(tag, "chatMemberStatusRestricted")
    }

    proof fn tag_known(&self) {
        reveal(<ChatMemberStatusRestricted as Wire>::wire);
        assert(tag_of(self.wire()) == Some("chatMemberStatusRestricted"@));
        assert(Self::known("chatMemberStatusRestricted"@));
    }
}

/// The user is not a chat member
#[derive(Debug, Clone, PartialEq)]
pub struct ChatMemberStatusLeft {}

impl Wire for ChatMemberStatusLeft {
    #[verifier::opaque]
    open spec fn wire(&self) -> Doc {
        tagged(Map::empty(), "chatMemberStatusLeft"@)
    }

    #[verifier::opaque]
    open spec fn parse(d: Doc, at: Seq<char>) -> Result<Doc, Fault> {
        match d {
            Doc::Object(_) => Ok(tagged(Map::empty(), "chatMemberStatusLeft"@)),
            _ => Err(Fault::TypeMismatch(at)),
        }
    }

    fn encode(&self) -> (j: Json) {
        proof {
            reveal(<ChatMemberStatusLeft as Wire>::wire);
        }
        seal(Vec::new(), "chatMemberStatusLeft")
    }

    fn decode(j: &Json, at: &str) -> (r: Result<Self, DecodeError>) {
        proof {
            reveal(<ChatMemberStatusLeft as Wire>::wire);
            reveal(<ChatMemberStatusLeft as Wire>::parse);
        }
        let _ = members_of(j, at)?;
        Ok(ChatMemberStatusLeft {})
    }

    proof fn round_trip(&self, at: Seq<char>) {
        reveal(<ChatMemberStatusLeft as Wire>::wire);
        reveal(<ChatMemberStatusLeft as Wire>::parse);
    }
}

impl Tagged for ChatMemberStatusLeft {
    open spec fn known(tag: Seq<char>) -> bool {
        tag == "chatMemberStatusLeft"@
    }

    fn knows(tag: &str) -> (r: bool) {
        same_text(tag, "chatMemberStatusLeft")
    }

    proof fn tag_known(&self) {
        reveal(<ChatMemberStatusLeft as Wire>::wire);
        assert(tag_of(self.wire()) == Some("chatMemberStatusLeft"@));
        assert(Self::known("chatMemberStatusLeft"@));
    }
}

/// The user was banned (and hence is not a member of the chat). Implies the user can't return to
/// the chat or view messages
#[derive(Debug, Clone, PartialEq)]
pub struct ChatMemberStatusBanned {
    /// Point in time (Unix timestamp) when the user will be unbanned; 0 if never. If the user is
    /// banned for more than 366 days or for less than 30 seconds from the current time, the user is
    /// considered to be banned forever
    pub banned_until_date: i32,
}

impl Wire for ChatMemberStatusBanned {
    #[verifier::opaque]
    open spec fn wire(&self) -> Doc {
        tagged(
            Map::empty()
                .insert("bannedUntilDate"@, self.banned_until_date.wire()),
            "chatMemberStatusBanned"@,
        )
    }

    #[verifier::opaque]
    open spec fn parse(d: Doc, at: Seq<char>) -> Result<Doc, Fault> {
        match d {
            Doc::Object(m) => {
                let banned_until_date = field::<i32>(m, "bannedUntilDate"@);
                if banned_until_date is Err {
                    banned_until_date
                } else {
                    Ok(
                        tagged(
                            Map::empty()
                                .insert("bannedUntilDate"@, banned_until_date->Ok_0),
                            "chatMemberStatusBanned"@,
                        ),
                    )
                }
            },
            _ => Err(Fault::TypeMismatch(at)),
        }
    }

    fn encode(&self) -> (j: Json) {
        proof {
            reveal(<ChatMemberStatusBanned as Wire>::wire);
        }
        let mut members: Vec<Member> = Vec::new();
        put(&mut members, "bannedUntilDate", self.banned_until_date.encode());
        seal(members, "chatMemberStatusBanned")
    }

    fn decode(j: &Json, at: &str) -> (r: Result<Self, DecodeError>) {
        proof {
            reveal(<ChatMemberStatusBanned as Wire>::wire);
            reveal(<ChatMemberStatusBanned as Wire>::parse);
        }
        let members = members_of(j, at)?;
        let banned_until_date = read_field::<i32>(members, "bannedUntilDate")?;
        Ok(ChatMemberStatusBanned { banned_until_date })
    }

    proof fn round_trip(&self, at: Seq<char>) {
        reveal(<ChatMemberStatusBanned as Wire>::wire);
        reveal(<ChatMemberStatusBanned as Wire>::parse);
        reveal_strlit("@type");
        reveal_strlit("bannedUntilDate");
        assert("@type"@.len() == 5);
        assert("bannedUntilDate"@.len() == 15);
        self.banned_until_date.round_trip("bannedUntilDate"@);
    }
}

impl Tagged for ChatMemberStatusBanned {
    open spec fn known(tag: Seq<char>) -> bool {
        tag == "chatMemberStatusBanned"@
    }

    fn knows(tag: &str) -> (r: bool) {
        same_text(tag, "chatMemberStatusBanned")
    }

    proof fn tag_known(&self) {
        reveal(<ChatMemberStatusBanned as Wire>::wire);
        assert(tag_of(self.wire()) == Some("chatMemberStatusBanned"@));
        assert(Self::known("chatMemberStatusBanned"@));
    }
}

/// Provides information about the status of a member in a chat
#[derive(Debug, Clone, PartialEq)]
pub enum ChatMemberStatus {
    ChatMemberStatusCreator(ChatMemberStatusCreator),
    ChatMemberStatusAdministrator(ChatMemberStatusAdministrator),
    ChatMemberStatusMember(ChatMemberStatusMember),
    ChatMemberStatusRestricted(ChatMemberStatusRestricted),
    ChatMemberStatusLeft(ChatMemberStatusLeft),
    ChatMemberStatusBanned(ChatMemberStatusBanned),
}

impl Wire for ChatMemberStatus {
    #[verifier::opaque]
    open spec fn wire(&self) -> Doc {
        match self {
            Self::ChatMemberStatusCreator(p) => p.wire(),
            Self::ChatMemberStatusAdministrator(p) => p.wire(),
            Self::ChatMemberStatusMember(p) => p.wire(),
            Self::ChatMemberStatusRestricted(p) => p.wire(),
            Self::ChatMemberStatusLeft(p) => p.wire(),
            Self::ChatMemberStatusBanned(p) => p.wire(),
        }
    }

    #[verifier::opaque]
    open spec fn parse(d: Doc, at: Seq<char>) -> Result<Doc, Fault> {
        match d {
            Doc::Object(_) => match tag_of(d) {
                Some(t) => if t == "chatMemberStatusCreator"@ {
                    ChatMemberStatusCreator::parse(d, at)
                } else if t == "chatMemberStatusAdministrator"@ {
                    ChatMemberStatusAdministrator::parse(d, at)
                } else if t == "chatMemberStatusMember"@ {
                    ChatMemberStatusMember::parse(d, at)
                } else if t == "chatMemberStatusRestricted"@ {
                    ChatMemberStatusRestricted::parse(d, at)
                } else if t == "chatMemberStatusLeft"@ {
                    ChatMemberStatusLeft::parse(d, at)
                } else if t == "chatMemberStatusBanned"@ {
                    ChatMemberStatusBanned::parse(d, at)
                } else {
                    Err(Fault::UnknownVariant(t))
                },
                None => Err(Fault::MissingDiscriminator),
            },
            _ => Err(Fault::TypeMismatch(at)),
        }
    }

    fn encode(&self) -> (j: Json) {
        proof {
            reveal(<ChatMemberStatus as Wire>::wire);
        }
        match self {
            Self::ChatMemberStatusCreator(p) => p.encode(),
            Self::ChatMemberStatusAdministrator(p) => p.encode(),
            Self::ChatMemberStatusMember(p) => p.encode(),
            Self::ChatMemberStatusRestricted(p) => p.encode(),
            Self::ChatMemberStatusLeft(p) => p.encode(),
            Self::ChatMemberStatusBanned(p) => p.encode(),
        }
    }

    fn decode(j: &Json, at: &str) -> (r: Result<Self, DecodeError>) {
        proof {
            reveal(<ChatMemberStatus as Wire>::wire);
            reveal(<ChatMemberStatus as Wire>::parse);
        }
        let members = members_of(j, at)?;
        let tag = discriminator(members)?;
        if same_text(tag, "chatMemberStatusCreator") {
            Ok(Self::ChatMemberStatusCreator(ChatMemberStatusCreator::decode(j, at)?))
        } else if same_text(tag, "chatMemberStatusAdministrator") {
            Ok(Self::ChatMemberStatusAdministrator(ChatMemberStatusAdministrator::decode(j, at)?))
        } else if same_text(tag, "chatMemberStatusMember") {
            Ok(Self::ChatMemberStatusMember(ChatMemberStatusMember::decode(j, at)?))
        } else if same_text(tag, "chatMemberStatusRestricted") {
            Ok(Self::ChatMemberStatusRestricted(ChatMemberStatusRestricted::decode(j, at)?))
        } else if same_text(tag, "chatMemberStatusLeft") {
            Ok(Self::ChatMemberStatusLeft(ChatMemberStatusLeft::decode(j, at)?))
        } else if same_text(tag, "chatMemberStatusBanned") {
            Ok(Self::ChatMemberStatusBanned(ChatMemberStatusBanned::decode(j, at)?))
        } else {
            Err(DecodeError::UnknownVariant(tag.to_owned()))
        }
    }

    proof fn round_trip(&self, at: Seq<char>) {
        reveal(<ChatMemberStatus as Wire>::wire);
        reveal(<ChatMemberStatus as Wire>::parse);
        reveal_strlit("chatMemberStatusAdministrator");
        reveal_strlit("chatMemberStatusBanned");
        reveal_strlit("chatMemberStatusCreator");
        reveal_strlit("chatMemberStatusLeft");
        reveal_strlit("chatMemberStatusMember");
        reveal_strlit("chatMemberStatusRestricted");
        assert("chatMemberStatusAdministrator"@.len() == 29);
        assert("chatMemberStatusBanned"@.len() == 22 && "chatMemberStatusBanned"@[16] == 'B');
        assert("chatMemberStatusCreator"@.len() == 23);
        assert("chatMemberStatusLeft"@.len() == 20);
        assert("chatMemberStatusMember"@.len() == 22 && "chatMemberStatusMember"@[16] == 'M');
        assert("chatMemberStatusRestricted"@.len() == 26);
        match self {
            Self::ChatMemberStatusCreator(p) => {
                p.tag_known();
                p.round_trip(at);
            },
            Self::ChatMemberStatusAdministrator(p) => {
                p.tag_known();
                p.round_trip(at);
            },
            Self::ChatMemberStatusMember(p) => {
                p.tag_known();
                p.round_trip(at);
            },
            Self::ChatMemberStatusRestricted(p) => {
                p.tag_known();
                p.round_trip(at);
            },
            Self::ChatMemberStatusLeft(p) => {
                p.tag_known();
                p.round_trip(at);
            },
            Self::ChatMemberStatusBanned(p) => {
                p.tag_known();
                p.round_trip(at);
            },
        }
    }
}

impl Tagged for ChatMemberStatus {
    open spec fn known(tag: Seq<char>) -> bool {
        ||| tag == "chatMemberStatusCreator"@
        ||| tag == "chatMemberStatusAdministrator"@
        ||| tag == "chatMemberStatusMember"@
        ||| tag == "chatMemberStatusRestricted"@
        ||| tag == "chatMemberStatusLeft"@
        ||| tag == "chatMemberStatusBanned"@
    }

    fn knows(tag: &str) -> (r: bool) {
        same_text(tag, "chatMemberStatusCreator")
            || same_text(tag, "chatMemberStatusAdministrator")
            || same_text(tag, "chatMemberStatusMember")
            || same_text(tag, "chatMemberStatusRestricted")
            || same_text(tag, "chatMemberStatusLeft")
            || same_text(tag, "chatMemberStatusBanned")
    }

    proof fn tag_known(&self) {
        reveal(<ChatMemberStatus as Wire>::wire);
        match self {
            Self::ChatMemberStatusCreator(p) => p.tag_known(),
            Self::ChatMemberStatusAdministrator(p) => p.tag_known(),
            Self::ChatMemberStatusMember(p) => p.tag_known(),
            Self::ChatMemberStatusRestricted(p) => p.tag_known(),
            Self::ChatMemberStatusLeft(p) => p.tag_known(),
            Self::ChatMemberStatusBanned(p) => p.tag_known(),
        }
    }
}

impl Union for ChatMemberStatus {
    proof fn unknown_rejected(d: Doc, at: Seq<char>) {
        reveal(<ChatMemberStatus as Wire>::parse);
    }

    proof fn untagged_rejected(d: Doc, at: Seq<char>) {
        reveal(<ChatMemberStatus as Wire>::parse);
    }
}

/// A user with information about joining/leaving a chat
#[derive(Debug, Clone, PartialEq)]
pub struct ChatMember {
    /// User identifier of the chat member
    pub user_id: i32,
    /// Identifier of a user that invited/promoted/banned this member in the chat; 0 if unknown
    pub inviter_user_id: i32,
    /// Point in time (Unix timestamp) when the user joined a chat
    pub joined_chat_date: i32,
    /// Status of the member in the chat
    pub status: ChatMemberStatus,
    /// If the user is a bot, information about the bot; may be null. Can be null even for a bot if
    /// the bot is not a chat member
    pub bot_info: Option<BotInfo>,
}

impl Wire for ChatMember {
    #[verifier::opaque]
    open spec fn wire(&self) -> Doc {
        tagged(
            Map::empty()
                .insert("userId"@, self.user_id.wire())
                .insert("inviterUserId"@, self.inviter_user_id.wire())
                .insert("joinedChatDate"@, self.joined_chat_date.wire())
                .insert("status"@, self.status.wire())
                .insert("botInfo"@, self.bot_info.wire()),
            "chatMember"@,
        )
    }

    #[verifier::opaque]
    open spec fn parse(d: Doc, at: Seq<char>) -> Result<Doc, Fault> {
        match d {
            Doc::Object(m) => {
                let user_id = field::<i32>(m, "userId"@);
                let inviter_user_id = field::<i32>(m, "inviterUserId"@);
                let joined_chat_date = field::<i32>(m, "joinedChatDate"@);
                let status = field::<ChatMemberStatus>(m, "status"@);
                let bot_info = optional_field::<BotInfo>(m, "botInfo"@);
                if user_id is Err {
                    user_id
                } else if inviter_user_id is Err {
                    inviter_user_id
                } else if joined_chat_date is Err {
                    joined_chat_date
                } else if status is Err {
                    status
                } else if bot_info is Err {
                    bot_info
                } else {
                    Ok(
                        tagged(
                            Map::empty()
                                .insert("userId"@, user_id->Ok_0)
                                .insert("inviterUserId"@, inviter_user_id->Ok_0)
                                .insert("joinedChatDate"@, joined_chat_date->Ok_0)
                                .insert("status"@, status->Ok_0)
                                .insert("botInfo"@, bot_info->Ok_0),
                            "chatMember"@,
                        ),
                    )
                }
            },
            _ => Err(Fault::TypeMismatch(at)),
        }
    }

    fn encode(&self) -> (j: Json) {
        proof {
            reveal(<ChatMember as Wire>::wire);
        }
        let mut members: Vec<Member> = Vec::new();
        put(&mut members, "userId", self.user_id.encode());
        put(&mut members, "inviterUserId", self.inviter_user_id.encode());
        put(&mut members, "joinedChatDate", self.joined_chat_date.encode());
        put(&mut members, "status", self.status.encode());
        put(&mut members, "botInfo", self.bot_info.encode());
        seal(members, "chatMember")
    }

    fn decode(j: &Json, at: &str) -> (r: Result<Self, DecodeError>) {
        proof {
            reveal(<ChatMember as Wire>::wire);
            reveal(<ChatMember as Wire>::parse);
        }
        let members = members_of(j, at)?;
        let user_id = read_field::<i32>(members, "userId")?;
        let inviter_user_id = read_field::<i32>(members, "inviterUserId")?;
        let joined_chat_date = read_field::<i32>(members, "joinedChatDate")?;
        let status = read_field::<ChatMemberStatus>(members, "status")?;
        let bot_info = read_optional::<BotInfo>(members, "botInfo")?;
        Ok(ChatMember { user_id, inviter_user_id, joined_chat_date, status, bot_info })
    }

    proof fn round_trip(&self, at: Seq<char>) {
        reveal(<ChatMember as Wire>::wire);
        reveal(<ChatMember as Wire>::parse);
        reveal_strlit("@type");
        reveal_strlit("botInfo");
        reveal_strlit("inviterUserId");
        reveal_strlit("joinedChatDate");
        reveal_strlit("status");
        reveal_strlit("userId");
        assert("@type"@.len() == 5);
        assert("botInfo"@.len() == 7);
        assert("inviterUserId"@.len() == 13);
        assert("joinedChatDate"@.len() == 14);
        assert("status"@.len() == 6 && "status"@[0] == 's');
        assert("userId"@.len() == 6 && "userId"@[0] == 'u');
        self.user_id.round_trip("userId"@);
        self.inviter_user_id.round_trip("inviterUserId"@);
        self.joined_chat_date.round_trip("joinedChatDate"@);
        self.status.round_trip("status"@);
        self.bot_info.round_trip("botInfo"@);
    }
}

impl Tagged for ChatMember {
    open spec fn known(tag: Seq<char>) -> bool {
        tag == "chatMember"@
    }

    fn knows(tag: &str) -> (r: bool) {
        same_text(tag, "chatMember")
    }

    proof fn tag_known(&self) {
        reveal(<ChatMember as Wire>::wire);
        assert(tag_of(self.wire()) == Some("chatMember"@));
        assert(Self::known("chatMember"@));
    }
}

/// Contains a list of chat members
#[derive(Debug, Clone, PartialEq)]
pub struct ChatMembers {
    /// Approximate total count of chat members found
    pub total_count: i32,
    /// A list of chat members
    pub members: Vec<ChatMember>,
}

impl Wire for ChatMembers {
    #[verifier::opaque]
    open spec fn wire(&self) -> Doc {
        tagged(
            Map::empty()
                .insert("totalCount"@, self.total_count.wire())
                .insert("members"@, self.members.wire()),
            "chatMembers"@,
        )
    }

    #[verifier::opaque]
    open spec fn parse(d: Doc, at: Seq<char>) -> Result<Doc, Fault> {
        match d {
            Doc::Object(m) => {
                let total_count = field::<i32>(m, "totalCount"@);
                let members_ = field::<Vec<ChatMember>>(m, "members"@);
                if total_count is Err {
                    total_count
                } else if members_ is Err {
                    members_
                } else {
                    Ok(
                        tagged(
                            Map::empty()
                                .insert("totalCount"@, total_count->Ok_0)
                                .insert("members"@, members_->Ok_0),
                            "chatMembers"@,
                        ),
                    )
                }
            },
            _ => Err(Fault::TypeMismatch(at)),
        }
    }

    fn encode(&self) -> (j: Json) {
        proof {
            reveal(<ChatMembers as Wire>::wire);
        }
        let mut members: Vec<Member> = Vec::new();
        put(&mut members, "totalCount", self.total_count.encode());
        put(&mut members, "members", self.members.encode());
        seal(members, "chatMembers")
    }

    fn decode(j: &Json, at: &str) -> (r: Result<Self, DecodeError>) {
        proof {
            reveal(<ChatMembers as Wire>::wire);
            reveal(<ChatMembers as Wire>::parse);
        }
        let members = members_of(j, at)?;
        let total_count = read_field::<i32>(members, "totalCount")?;
        let members_ = read_field::<Vec<ChatMember>>(members, "members")?;
        Ok(ChatMembers { total_count, members: members_ })
    }

    proof fn round_trip(&self, at: Seq<char>) {
        reveal(<ChatMembers as Wire>::wire);
        reveal(<ChatMembers as Wire>::parse);
        reveal_strlit("@type");
        reveal_strlit("members");
        reveal_strlit("totalCount");
        assert("@type"@.len() == 5);
        assert("members"@.len() == 7);
        assert("totalCount"@.len() == 10);
        self.total_count.round_trip("totalCount"@);
        self.members.round_trip("members"@);
    }
}

impl Tagged for ChatMembers {
    open spec fn known(tag: Seq<char>) -> bool {
        tag == "chatMembers"@
    }

    fn knows(tag: &str) -> (r: bool) {
        same_text(tag, "chatMembers")
    }

    proof fn tag_known(&self) {
        reveal(<ChatMembers as Wire>::wire);
        assert(tag_of(self.wire()) == Some("chatMembers"@));
        assert(Self::known("chatMembers"@));
    }
}

/// Returns contacts of the user
#[derive(Debug, Clone, PartialEq)]
pub struct ChatMembersFilterContacts {}

impl Wire for ChatMembersFilterContacts {
    #[verifier::opaque]
    open spec fn wire(&self) -> Doc {
        tagged(Map::empty(), "chatMembersFilterContacts"@)
    }

    #[verifier::opaque]
    open spec fn parse(d: Doc, at: Seq<char>) -> Result<Doc, Fault> {
        match d {
            Doc::Object(_) => Ok(tagged(Map::empty(), "chatMembersFilterContacts"@)),
            _ => Err(Fault::TypeMismatch(at)),
        }
    }

    fn encode(&self) -> (j: Json) {
        proof {
            reveal(<ChatMembersFilterContacts as Wire>::wire);
        }
        seal(Vec::new(), "chatMembersFilterContacts")
    }

    fn decode(j: &Json, at: &str) -> (r: Result<Self, DecodeError>) {
        proof {
            reveal(<ChatMembersFilterContacts as Wire>::wire);
            reveal(<ChatMembersFilterContacts as Wire>::parse);
        }
        let _ = members_of(j, at)?;
        Ok(ChatMembersFilterContacts {})
    }

    proof fn round_trip(&self, at: Seq<char>) {
        reveal(<ChatMembersFilterContacts as Wire>::wire);
        reveal(<ChatMembersFilterContacts as Wire>::parse);
    }
}

impl Tagged for ChatMembersFilterContacts {
    open spec fn known(tag: Seq<char>) -> bool {
        tag == "chatMembersFilterContacts"@
    }

    fn knows(tag: &str) -> (r: bool) {
        same_text(tag, "chatMembersFilterContacts")
    }

    proof fn tag_known(&self) {
        reveal(<ChatMembersFilterContacts as Wire>::wire);
        assert(tag_of(self.wire()) == Some("chatMembersFilterContacts"@));
        assert(Self::known("chatMembersFilterContacts"@));
    }
}

/// Returns the owner and administrators
#[derive(Debug, Clone, PartialEq)]
pub struct ChatMembersFilterAdministrators {}

impl Wire for ChatMembersFilterAdministrators {
    #[verifier::opaque]
    open spec fn wire(&self) -> Doc {
        tagged(Map::empty(), "chatMembersFilterAdministrators"@)
    }

    #[verifier::opaque]
    open spec fn parse(d: Doc, at: Seq<char>) -> Result<Doc, Fault> {
        match d {
            Doc::Object(_) => Ok(tagged(Map::empty(), "chatMembersFilterAdministrators"@)),
            _ => Err(Fault::TypeMismatch(at)),
        }
    }

    fn encode(&self) -> (j: Json) {
        proof {
            reveal(<ChatMembersFilterAdministrators as Wire>::wire);
        }
        seal(Vec::new(), "chatMembersFilterAdministrators")
    }

    fn decode(j: &Json, at: &str) -> (r: Result<Self, DecodeError>) {
        proof {
            reveal(<ChatMembersFilterAdministrators as Wire>::wire);
            reveal(<ChatMembersFilterAdministrators as Wire>::parse);
        }
        let _ = members_of(j, at)?;
        Ok(ChatMembersFilterAdministrators {})
    }

    proof fn round_trip(&self, at: Seq<char>) {
        reveal(<ChatMembersFilterAdministrators as Wire>::wire);
        reveal(<ChatMembersFilterAdministrators as Wire>::parse);
    }
}

impl Tagged for ChatMembersFilterAdministrators {
    open spec fn known(tag: Seq<char>) -> bool {
        tag == "chatMembersFilterAdministrators"@
    }

    fn knows(tag: &str) -> (r: bool) {
        same_text(tag, "chatMembersFilterAdministrators")
    }

    proof fn tag_known(&self) {
        reveal(<ChatMembersFilterAdministrators as Wire>::wire);
        assert(tag_of(self.wire()) == Some("chatMembersFilterAdministrators"@));
        assert(Self::known("chatMembersFilterAdministrators"@));
    }
}

/// Returns all chat members, including restricted chat members
#[derive(Debug, Clone, PartialEq)]
pub struct ChatMembersFilterMembers {}

impl Wire for ChatMembersFilterMembers {
    #[verifier::opaque]
    open spec fn wire(&self) -> Doc {
        tagged(Map::empty(), "chatMembersFilterMembers"@)
    }

    #[verifier::opaque]
    open spec fn parse(d: Doc, at: Seq<char>) -> Result<Doc, Fault> {
        match d {
            Doc::Object(_) => Ok(tagged(Map::empty(), "chatMembersFilterMembers"@)),
            _ => Err(Fault::TypeMismatch(at)),
        }
    }

    fn encode(&self) -> (j: Json) {
        proof {
            reveal(<ChatMembersFilterMembers as Wire>::wire);
        }
        seal(Vec::new(), "chatMembersFilterMembers")
    }

    fn decode(j: &Json, at: &str) -> (r: Result<Self, DecodeError>) {
        proof {
            reveal(<ChatMembersFilterMembers as Wire>::wire);
            reveal(<ChatMembersFilterMembers as Wire>::parse);
        }
        let _ = members_of(j, at)?;
        Ok(ChatMembersFilterMembers {})
    }

    proof fn round_trip(&self, at: Seq<char>) {
        reveal(<ChatMembersFilterMembers as Wire>::wire);
        reveal(<ChatMembersFilterMembers as Wire>::parse);
    }
}

impl Tagged for ChatMembersFilterMembers {
    open spec fn known(tag: Seq<char>) -> bool {
        tag == "chatMembersFilterMembers"@
    }

    fn knows(tag: &str) -> (r: bool) {
        same_text(tag, "chatMembersFilterMembers")
    }

    proof fn tag_known(&self) {
        reveal(<ChatMembersFilterMembers as Wire>::wire);
        assert(tag_of(self.wire()) == Some("chatMembersFilterMembers"@));
        assert(Self::known("chatMembersFilterMembers"@));
    }
}

/// Returns users under certain restrictions in the chat; can be used only by administrators in a
/// supergroup
#[derive(Debug, Clone, PartialEq)]
pub struct ChatMembersFilterRestricted {}

impl Wire for ChatMembersFilterRestricted {
    #[verifier::opaque]
    open spec fn wire(&self) -> Doc {
        tagged(Map::empty(), "chatMembersFilterRestricted"@)
    }

    #[verifier::opaque]
    open spec fn parse(d: Doc, at: Seq<char>) -> Result<Doc, Fault> {
        match d {
            Doc::Object(_) => Ok(tagged(Map::empty(), "chatMembersFilterRestricted"@)),
            _ => Err(Fault::TypeMismatch(at)),
        }
    }

    fn encode(&self) -> (j: Json) {
        proof {
            reveal(<ChatMembersFilterRestricted as Wire>::wire);
        }
        seal(Vec::new(), "chatMembersFilterRestricted")
    }

    fn decode(j: &Json, at: &str) -> (r: Result<Self, DecodeError>) {
        proof {
            reveal(<ChatMembersFilterRestricted as Wire>::wire);
            reveal(<ChatMembersFilterRestricted as Wire>::parse);
        }
        let _ = members_of(j, at)?;
        Ok(ChatMembersFilterRestricted {})
    }

    proof fn round_trip(&self, at: Seq<char>) {
        reveal(<ChatMembersFilterRestricted as Wire>::wire);
        reveal(<ChatMembersFilterRestricted as Wire>::parse);
    }
}

impl Tagged for ChatMembersFilterRestricted {
    open spec fn known(tag: Seq<char>) -> bool {
        tag == "chatMembersFilterRestricted"@
    }

    fn knows(tag: &str) -> (r: bool) {
        same_text(tag, "chatMembersFilterRestricted")
    }

    proof fn tag_known(&self) {
        reveal(<ChatMembersFilterRestricted as Wire>::wire);
        assert(tag_of(self.wire()) == Some("chatMembersFilterRestricted"@));
        assert(Self::known("chatMembersFilterRestricted"@));
    }
}

/// Returns users banned from the chat; can be used only by administrators in a supergroup or in a
/// channel
#[derive(Debug, Clone, PartialEq)]
pub struct ChatMembersFilterBanned {}

impl Wire for ChatMembersFilterBanned {
    #[verifier::opaque]
    open spec fn wire(&self) -> Doc {
        tagged(Map::empty(), "chatMembersFilterBanned"@)
    }

    #[verifier::opaque]
    open spec fn parse(d: Doc, at: Seq<char>) -> Result<Doc, Fault> {
        match d {
            Doc::Object(_) => Ok(tagged(Map::empty(), "chatMembersFilterBanned"@)),
            _ => Err(Fault::TypeMismatch(at)),
        }
    }

    fn encode(&self) -> (j: Json) {
        proof {
            reveal(<ChatMembersFilterBanned as Wire>::wire);
        }
        seal(Vec::new(), "chatMembersFilterBanned")
    }

    fn decode(j: &Json, at: &str) -> (r: Result<Self, DecodeError>) {
        proof {
            reveal(<ChatMembersFilterBanned as Wire>::wire);
            reveal(<ChatMembersFilterBanned as Wire>::parse);
        }
        let _ = members_of(j, at)?;
        Ok(ChatMembersFilterBanned {})
    }

    proof fn round_trip(&self, at: Seq<char>) {
        reveal(<ChatMembersFilterBanned as Wire>::wire);
        reveal(<ChatMembersFilterBanned as Wire>::parse);
    }
}

impl Tagged for ChatMembersFilterBanned {
    open spec fn known(tag: Seq<char>) -> bool {
        tag == "chatMembersFilterBanned"@
    }

    fn knows(tag: &str) -> (r: bool) {
        same_text(tag, "chatMembersFilterBanned")
    }

    proof fn tag_known(&self) {
        reveal(<ChatMembersFilterBanned as Wire>::wire);
        assert(tag_of(self.wire()) == Some("chatMembersFilterBanned"@));
        assert(Self::known("chatMembersFilterBanned"@));
    }
}

/// Returns bot members of the chat
#[derive(Debug, Clone, PartialEq)]
pub struct ChatMembersFilterBots {}

impl Wire for ChatMembersFilterBots {
    #[verifier::opaque]
    open spec fn wire(&self) -> Doc {
        tagged(Map::empty(), "chatMembersFilterBots"@)
    }

    #[verifier::opaque]
    open spec fn parse(d: Doc, at: Seq<char>) -> Result<Doc, Fault> {
        match d {
            Doc::Object(_) => Ok(tagged(Map::empty(), "chatMembersFilterBots"@)),
            _ => Err(Fault::TypeMismatch(at)),
        }
    }

    fn encode(&self) -> (j: Json) {
        proof {
            reveal(<ChatMembersFilterBots as Wire>::wire);
        }
        seal(Vec::new(), "chatMembersFilterBots")
    }

    fn decode(j: &Json, at: &str) -> (r: Result<Self, DecodeError>) {
        proof {
            reveal(<ChatMembersFilterBots as Wire>::wire);
            reveal(<ChatMembersFilterBots as Wire>::parse);
        }
        let _ = members_of(j, at)?;
        Ok(ChatMembersFilterBots {})
    }

    proof fn round_trip(&self, at: Seq<char>) {
        reveal(<ChatMembersFilterBots as Wire>::wire);
        reveal(<ChatMembersFilterBots as Wire>::parse);
    }
}

impl Tagged for ChatMembersFilterBots {
    open spec fn known(tag: Seq<char>) -> bool {
        tag == "chatMembersFilterBots"@
    }

    fn knows(tag: &str) -> (r: bool) {
        same_text(tag, "chatMembersFilterBots")
    }

    proof fn tag_known(&self) {
        reveal(<ChatMembersFilterBots as Wire>::wire);
        assert(tag_of(self.wire()) == Some("chatMembersFilterBots"@));
        assert(Self::known("chatMembersFilterBots"@));
    }
}

/// Specifies the kind of chat members to return in searchChatMembers
#[derive(Debug, Clone, PartialEq)]
pub enum ChatMembersFilter {
    ChatMembersFilterContacts(ChatMembersFilterContacts),
    ChatMembersFilterAdministrators(ChatMembersFilterAdministrators),
    ChatMembersFilterMembers(ChatMembersFilterMembers),
    ChatMembersFilterRestricted(ChatMembersFilterRestricted),
    ChatMembersFilterBanned(ChatMembersFilterBanned),
    ChatMembersFilterBots(ChatMembersFilterBots),
}

impl Wire for ChatMembersFilter {
    #[verifier::opaque]
    open spec fn wire(&self) -> Doc {
        match self {
            Self::ChatMembersFilterContacts(p) => p.wire(),
            Self::ChatMembersFilterAdministrators(p) => p.wire(),
            Self::ChatMembersFilterMembers(p) => p.wire(),
            Self::ChatMembersFilterRestricted(p) => p.wire(),
            Self::ChatMembersFilterBanned(p) => p.wire(),
            Self::ChatMembersFilterBots(p) => p.wire(),
        }
    }

    #[verifier::opaque]
    open spec fn parse(d: Doc, at: Seq<char>) -> Result<Doc, Fault> {
        match d {
            Doc::Object(_) => match tag_of(d) {
                Some(t) => if t == "chatMembersFilterContacts"@ {
                    ChatMembersFilterContacts::parse(d, at)
                } else if t == "chatMembersFilterAdministrators"@ {
                    ChatMembersFilterAdministrators::parse(d, at)
                } else if t == "chatMembersFilterMembers"@ {
                    ChatMembersFilterMembers::parse(d, at)
                } else if t == "chatMembersFilterRestricted"@ {
                    ChatMembersFilterRestricted::parse(d, at)
                } else if t == "chatMembersFilterBanned"@ {
                    ChatMembersFilterBanned::parse(d, at)
                } else if t == "chatMembersFilterBots"@ {
                    ChatMembersFilterBots::parse(d, at)
                } else {
                    Err(Fault::UnknownVariant(t))
                },
                None => Err(Fault::MissingDiscriminator),
            },
            _ => Err(Fault::TypeMismatch(at)),
        }
    }

    fn encode(&self) -> (j: Json) {
        proof {
            reveal(<ChatMembersFilter as Wire>::wire);
        }
        match self {
            Self::ChatMembersFilterContacts(p) => p.encode(),
            Self::ChatMembersFilterAdministrators(p) => p.encode(),
            Self::ChatMembersFilterMembers(p) => p.encode(),
            Self::ChatMembersFilterRestricted(p) => p.encode(),
            Self::ChatMembersFilterBanned(p) => p.encode(),
            Self::ChatMembersFilterBots(p) => p.encode(),
        }
    }

    fn decode(j: &Json, at: &str) -> (r: Result<Self, DecodeError>) {
        proof {
            reveal(<ChatMembersFilter as Wire>::wire);
            reveal(<ChatMembersFilter as Wire>::parse);
        }
        let members = members_of(j, at)?;
        let tag = discriminator(members)?;
        if same_text(tag, "chatMembersFilterContacts") {
            Ok(Self::ChatMembersFilterContacts(ChatMembersFilterContacts::decode(j, at)?))
        } else if same_text(tag, "chatMembersFilterAdministrators") {
            Ok(
                Self::ChatMembersFilterAdministrators(
                    ChatMembersFilterAdministrators::decode(j, at)?,
                ),
            )
        } else if same_text(tag, "chatMembersFilterMembers") {
            Ok(Self::ChatMembersFilterMembers(ChatMembersFilterMembers::decode(j, at)?))
        } else if same_text(tag, "chatMembersFilterRestricted") {
            Ok(Self::ChatMembersFilterRestricted(ChatMembersFilterRestricted::decode(j, at)?))
        } else if same_text(tag, "chatMembersFilterBanned") {
            Ok(Self::ChatMembersFilterBanned(ChatMembersFilterBanned::decode(j, at)?))
        } else if same_text(tag, "chatMembersFilterBots") {
            Ok(Self::ChatMembersFilterBots(ChatMembersFilterBots::decode(j, at)?))
        } else {
            Err(DecodeError::UnknownVariant(tag.to_owned()))
        }
    }

    proof fn round_trip(&self, at: Seq<char>) {
        reveal(<ChatMembersFilter as Wire>::wire);
        reveal(<ChatMembersFilter as Wire>::parse);
        reveal_strlit("chatMembersFilterAdministrators");
        reveal_strlit("chatMembersFilterBanned");
        reveal_strlit("chatMembersFilterBots");
        reveal_strlit("chatMembersFilterContacts");
        reveal_strlit("chatMembersFilterMembers");
        reveal_strlit("chatMembersFilterRestricted");
        assert("chatMembersFilterAdministrators"@.len() == 31);
        assert("chatMembersFilterBanned"@.len() == 23);
        assert("chatMembersFilterBots"@.len() == 21);
        assert("chatMembersFilterContacts"@.len() == 25);
        assert("chatMembersFilterMembers"@.len() == 24);
        assert("chatMembersFilterRestricted"@.len() == 27);
        match self {
            Self::ChatMembersFilterContacts(p) => {
                p.tag_known();
                p.round_trip(at);
            },
            Self::ChatMembersFilterAdministrators(p) => {
                p.tag_known();
                p.round_trip(at);
            },
            Self::ChatMembersFilterMembers(p) => {
                p.tag_known();
                p.round_trip(at);
            },
            Self::ChatMembersFilterRestricted(p) => {
                p.tag_known();
                p.round_trip(at);
            },
            Self::ChatMembersFilterBanned(p) => {
                p.tag_known();
                p.round_trip(at);
            },
            Self::ChatMembersFilterBots(p) => {
                p.tag_known();
                p.round_trip(at);
            },
        }
    }
}

impl Tagged for ChatMembersFilter {
    open spec fn known(tag: Seq<char>) -> bool {
        ||| tag == "chatMembersFilterContacts"@
        ||| tag == "chatMembersFilterAdministrators"@
        ||| tag == "chatMembersFilterMembers"@
        ||| tag == "chatMembersFilterRestricted"@
        ||| tag == "chatMembersFilterBanned"@
        ||| tag == "chatMembersFilterBots"@
    }

    fn knows(tag: &str) -> (r: bool) {
        same_text(tag, "chatMembersFilterContacts")
            || same_text(tag, "chatMembersFilterAdministrators")
            || same_text(tag, "chatMembersFilterMembers")
            || same_text(tag, "chatMembersFilterRestricted")
            || same_text(tag, "chatMembersFilterBanned")
            || same_text(tag, "chatMembersFilterBots")
    }

    proof fn tag_known(&self) {
        reveal(<ChatMembersFilter as Wire>::wire);
        match self {
            Self::ChatMembersFilterContacts(p) => p.tag_known(),
            Self::ChatMembersFilterAdministrators(p) => p.tag_known(),
            Self::ChatMembersFilterMembers(p) => p.tag_known(),
            Self::ChatMembersFilterRestricted(p) => p.tag_known(),
            Self::ChatMembersFilterBanned(p) => p.tag_known(),
            Self::ChatMembersFilterBots(p) => p.tag_known(),
        }
    }
}

impl Union for ChatMembersFilter {
    proof fn unknown_rejected(d: Doc, at: Seq<char>) {
        reveal(<ChatMembersFilter as Wire>::parse);
    }

    proof fn untagged_rejected(d: Doc, at: Seq<char>) {
        reveal(<ChatMembersFilter as Wire>::parse);
    }
}

/// Returns recently active users in reverse chronological order
#[derive(Debug, Clone, PartialEq)]
pub struct SupergroupMembersFilterRecent {}

impl Wire for SupergroupMembersFilterRecent {
    #[verifier::opaque]
    open spec fn wire(&self) -> Doc {
        tagged(Map::empty(), "supergroupMembersFilterRecent"@)
    }

    #[verifier::opaque]
    open spec fn parse(d: Doc, at: Seq<char>) -> Result<Doc, Fault> {
        match d {
            Doc::Object(_) => Ok(tagged(Map::empty(), "supergroupMembersFilterRecent"@)),
            _ => Err(Fault::TypeMismatch(at)),
        }
    }

    fn encode(&self) -> (j: Json) {
        proof {
            reveal(<SupergroupMembersFilterRecent as Wire>::wire);
        }
        seal(Vec::new(), "supergroupMembersFilterRecent")
    }

    fn decode(j: &Json, at: &str) -> (r: Result<Self, DecodeError>) {
        proof {
            reveal(<SupergroupMembersFilterRecent as Wire>::wire);
            reveal(<SupergroupMembersFilterRecent as Wire>::parse);
        }
        let _ = members_of(j, at)?;
        Ok(SupergroupMembersFilterRecent {})
    }

    proof fn round_trip(&self, at: Seq<char>) {
        reveal(<SupergroupMembersFilterRecent as Wire>::wire);
        reveal(<SupergroupMembersFilterRecent as Wire>::parse);
    }
}

impl Tagged for SupergroupMembersFilterRecent {
    open spec fn known(tag: Seq<char>) -> bool {
        tag == "supergroupMembersFilterRecent"@
    }

    fn knows(tag: &str) -> (r: bool) {
        same_text(tag, "supergroupMembersFilterRecent")
    }

    proof fn tag_known(&self) {
        reveal(<SupergroupMembersFilterRecent as Wire>::wire);
        assert(tag_of(self.wire()) == Some("supergroupMembersFilterRecent"@));
        assert(Self::known("supergroupMembersFilterRecent"@));
    }
}

/// Returns contacts of the user, which are members of the supergroup or channel
#[derive(Debug, Clone, PartialEq)]
pub struct SupergroupMembersFilterContacts {
    /// Query to search for
    pub query: String,
}

impl Wire for SupergroupMembersFilterContacts {
    #[verifier::opaque]
    open spec fn wire(&self) -> Doc {
        tagged(
            Map::empty()
                .insert("query"@, self.query.wire()),
            "supergroupMembersFilterContacts"@,
        )
    }

    #[verifier::opaque]
    open spec fn parse(d: Doc, at: Seq<char>) -> Result<Doc, Fault> {
        match d {
            Doc::Object(m) => {
                let query = field::<String>(m, "query"@);
                if query is Err {
                    query
                } else {
                    Ok(
                        tagged(
                            Map::empty()
                                .insert("query"@, query->Ok_0),
                            "supergroupMembersFilterContacts"@,
                        ),
                    )
                }
            },
            _ => Err(Fault::TypeMismatch(at)),
        }
    }

    fn encode(&self) -> (j: Json) {
        proof {
            reveal(<SupergroupMembersFilterContacts as Wire>::wire);
        }
        let mut members: Vec<Member> = Vec::new();
        put(&mut members, "query", self.query.encode());
        seal(members, "supergroupMembersFilterContacts")
    }

    fn decode(j: &Json, at: &str) -> (r: Result<Self, DecodeError>) {
        proof {
            reveal(<SupergroupMembersFilterContacts as Wire>::wire);
            reveal(<SupergroupMembersFilterContacts as Wire>::parse);
        }
        let members = members_of(j, at)?;
        let query = read_field::<String>(members, "query")?;
        Ok(SupergroupMembersFilterContacts { query })
    }

    proof fn round_trip(&self, at: Seq<char>) {
        reveal(<SupergroupMembersFilterContacts as Wire>::wire);
        reveal(<SupergroupMembersFilterContacts as Wire>::parse);
        reveal_strlit("@type");
        reveal_strlit("query");
        assert("@type"@.len() == 5 && "@type"@[0] == '@');
        assert("query"@.len() == 5 && "query"@[0] == 'q');
        self.query.round_trip("query"@);
    }
}

impl Tagged for SupergroupMembersFilterContacts {
    open spec fn known(tag: Seq<char>) -> bool {
        tag == "supergroupMembersFilterContacts"@
    }

    fn knows(tag: &str) -> (r: bool) {
        same_text(tag, "supergroupMembersFilterContacts")
    }

    proof fn tag_known(&self) {
        reveal(<SupergroupMembersFilterContacts as Wire>::wire);
        assert(tag_of(self.wire()) == Some("supergroupMembersFilterContacts"@));
        assert(Self::known("supergroupMembersFilterContacts"@));
    }
}

/// Returns the owner and administrators
#[derive(Debug, Clone, PartialEq)]
pub struct SupergroupMembersFilterAdministrators {}

impl Wire for SupergroupMembersFilterAdministrators {
    #[verifier::opaque]
    open spec fn wire(&self) -> Doc {
        tagged(Map::empty(), "supergroupMembersFilterAdministrators"@)
    }

    #[verifier::opaque]
    open spec fn parse(d: Doc, at: Seq<char>) -> Result<Doc, Fault> {
        match d {
            Doc::Object(_) => Ok(tagged(Map::empty(), "supergroupMembersFilterAdministrators"@)),
            _ => Err(Fault::TypeMismatch(at)),
        }
    }

    fn encode(&self) -> (j: Json) {
        proof {
            reveal(<SupergroupMembersFilterAdministrators as Wire>::wire);
        }
        seal(Vec::new(), "supergroupMembersFilterAdministrators")
    }

    fn decode(j: &Json, at: &str) -> (r: Result<Self, DecodeError>) {
        proof {
            reveal(<SupergroupMembersFilterAdministrators as Wire>::wire);
            reveal(<SupergroupMembersFilterAdministrators as Wire>::parse);
        }
        let _ = members_of(j, at)?;
        Ok(SupergroupMembersFilterAdministrators {})
    }

    proof fn round_trip(&self, at: Seq<char>) {
        reveal(<SupergroupMembersFilterAdministrators as Wire>::wire);
        reveal(<SupergroupMembersFilterAdministrators as Wire>::parse);
    }
}

impl Tagged for SupergroupMembersFilterAdministrators {
    open spec fn known(tag: Seq<char>) -> bool {
        tag == "supergroupMembersFilterAdministrators"@
    }

    fn knows(tag: &str) -> (r: bool) {
        same_text(tag, "supergroupMembersFilterAdministrators")
    }

    proof fn tag_known(&self) {
        reveal(<SupergroupMembersFilterAdministrators as Wire>::wire);
        assert(tag_of(self.wire()) == Some("supergroupMembersFilterAdministrators"@));
        assert(Self::known("supergroupMembersFilterAdministrators"@));
    }
}

/// Used to search for supergroup or channel members via a (string) query
#[derive(Debug, Clone, PartialEq)]
pub struct SupergroupMembersFilterSearch {
    /// Query to search for
    pub query: String,
}

impl Wire for SupergroupMembersFilterSearch {
    #[verifier::opaque]
    open spec fn wire(&self) -> Doc {
        tagged(
            Map::empty()
                .insert("query"@, self.query.wire()),
            "supergroupMembersFilterSearch"@,
        )
    }

    #[verifier::opaque]
    open spec fn parse(d: Doc, at: Seq<char>) -> Result<Doc, Fault> {
        match d {
            Doc::Object(m) => {
                let query = field::<String>(m, "query"@);
                if query is Err {
                    query
                } else {
                    Ok(
                        tagged(
                            Map::empty()
                                .insert("query"@, query->Ok_0),
                            "supergroupMembersFilterSearch"@,
                        ),
                    )
                }
            },
            _ => Err(Fault::TypeMismatch(at)),
        }
    }

    fn encode(&self) -> (j: Json) {
        proof {
            reveal(<SupergroupMembersFilterSearch as Wire>::wire);
        }
        let mut members: Vec<Member> = Vec::new();
        put(&mut members, "query", self.query.encode());
        seal(members, "supergroupMembersFilterSearch")
    }

    fn decode(j: &Json, at: &str) -> (r: Result<Self, DecodeError>) {
        proof {
            reveal(<SupergroupMembersFilterSearch as Wire>::wire);
            reveal(<SupergroupMembersFilterSearch as Wire>::parse);
        }
        let members = members_of(j, at)?;
        let query = read_field::<String>(members, "query")?;
        Ok(SupergroupMembersFilterSearch { query })
    }

    proof fn round_trip(&self, at: Seq<char>) {
        reveal(<SupergroupMembersFilterSearch as Wire>::wire);
        reveal(<SupergroupMembersFilterSearch as Wire>::parse);
        reveal_strlit("@type");
        reveal_strlit("query");
        assert("@type"@.len() == 5 && "@type"@[0] == '@');
        assert("query"@.len() == 5 && "query"@[0] == 'q');
        self.query.round_trip("query"@);
    }
}

impl Tagged for SupergroupMembersFilterSearch {
    open spec fn known(tag: Seq<char>) -> bool {
        tag == "supergroupMembersFilterSearch"@
    }

    fn knows(tag: &str) -> (r: bool) {
        same_text(tag, "supergroupMembersFilterSearch")
    }

    proof fn tag_known(&self) {
        reveal(<SupergroupMembersFilterSearch as Wire>::wire);
        assert(tag_of(self.wire()) == Some("supergroupMembersFilterSearch"@));
        assert(Self::known("supergroupMembersFilterSearch"@));
    }
}

/// Returns restricted supergroup members; can be used only by administrators
#[derive(Debug, Clone, PartialEq)]
pub struct SupergroupMembersFilterRestricted {
    /// Query to search for
    pub query: String,
}

impl Wire for SupergroupMembersFilterRestricted {
    #[verifier::opaque]
    open spec fn wire(&self) -> Doc {
        tagged(
            Map::empty()
                .insert("query"@, self.query.wire()),
            "supergroupMembersFilterRestricted"@,
        )
    }

    #[verifier::opaque]
    open spec fn parse(d: Doc, at: Seq<char>) -> Result<Doc, Fault> {
        match d {
            Doc::Object(m) => {
                let query = field::<String>(m, "query"@);
                if query is Err {
                    query
                } else {
                    Ok(
                        tagged(
                            Map::empty()
                                .insert("query"@, query->Ok_0),
                            "supergroupMembersFilterRestricted"@,
                        ),
                    )
                }
            },
            _ => Err(Fault::TypeMismatch(at)),
        }
    }

    fn encode(&self) -> (j: Json) {
        proof {
            reveal(<SupergroupMembersFilterRestricted as Wire>::wire);
        }
        let mut members: Vec<Member> = Vec::new();
        put(&mut members, "query", self.query.encode());
        seal(members, "supergroupMembersFilterRestricted")
    }

    fn decode(j: &Json, at: &str) -> (r: Result<Self, DecodeError>) {
        proof {
            reveal(<SupergroupMembersFilterRestricted as Wire>::wire);
            reveal(<SupergroupMembersFilterRestricted as Wire>::parse);
        }
        let members = members_of(j, at)?;
        let query = read_field::<String>(members, "query")?;
        Ok(SupergroupMembersFilterRestricted { query })
    }

    proof fn round_trip(&self, at: Seq<char>) {
        reveal(<SupergroupMembersFilterRestricted as Wire>::wire);
        reveal(<SupergroupMembersFilterRestricted as Wire>::parse);
        reveal_strlit("@type");
        reveal_strlit("query");
        assert("@type"@.len() == 5 && "@type"@[0] == '@');
        assert("query"@.len() == 5 && "query"@[0] == 'q');
        self.query.round_trip("query"@);
    }
}

impl Tagged for SupergroupMembersFilterRestricted {
    open spec fn known(tag: Seq<char>) -> bool {
        tag == "supergroupMembersFilterRestricted"@
    }

    fn knows(tag: &str) -> (r: bool) {
        same_text(tag, "supergroupMembersFilterRestricted")
    }

    proof fn tag_known(&self) {
        reveal(<SupergroupMembersFilterRestricted as Wire>::wire);
        assert(tag_of(self.wire()) == Some("supergroupMembersFilterRestricted"@));
        assert(Self::known("supergroupMembersFilterRestricted"@));
    }
}

/// Returns users banned from the supergroup or channel; can be used only by administrators
#[derive(Debug, Clone, PartialEq)]
pub struct SupergroupMembersFilterBanned {
    /// Query to search for
    pub query: String,
}

impl Wire for SupergroupMembersFilterBanned {
    #[verifier::opaque]
    open spec fn wire(&self) -> Doc {
        tagged(
            Map::empty()
                .insert("query"@, self.query.wire()),
            "supergroupMembersFilterBanned"@,
        )
    }

    #[verifier::opaque]
    open spec fn parse(d: Doc, at: Seq<char>) -> Result<Doc, Fault> {
        match d {
            Doc::Object(m) => {
                let query = field::<String>(m, "query"@);
                if query is Err {
                    query
                } else {
                    Ok(
                        tagged(
                            Map::empty()
                                .insert("query"@, query->Ok_0),
                            "supergroupMembersFilterBanned"@,
                        ),
                    )
                }
            },
            _ => Err(Fault::TypeMismatch(at)),
        }
    }

    fn encode(&self) -> (j: Json) {
        proof {
            reveal(<SupergroupMembersFilterBanned as Wire>::wire);
        }
        let mut members: Vec<Member> = Vec::new();
        put(&mut members, "query", self.query.encode());
        seal(members, "supergroupMembersFilterBanned")
    }

    fn decode(j: &Json, at: &str) -> (r: Result<Self, DecodeError>) {
        proof {
            reveal(<SupergroupMembersFilterBanned as Wire>::wire);
            reveal(<SupergroupMembersFilterBanned as Wire>::parse);
        }
        let members = members_of(j, at)?;
        let query = read_field::<String>(members, "query")?;
        Ok(SupergroupMembersFilterBanned { query })
    }

    proof fn round_trip(&self, at: Seq<char>) {
        reveal(<SupergroupMembersFilterBanned as Wire>::wire);
        reveal(<SupergroupMembersFilterBanned as Wire>::parse);
        reveal_strlit("@type");
        reveal_strlit("query");
        assert("@type"@.len() == 5 && "@type"@[0] == '@');
        assert("query"@.len() == 5 && "query"@[0] == 'q');
        self.query.round_trip("query"@);
    }
}

impl Tagged for SupergroupMembersFilterBanned {
    open spec fn known(tag: Seq<char>) -> bool {
        tag == "supergroupMembersFilterBanned"@
    }

    fn knows(tag: &str) -> (r: bool) {
        same_text(tag, "supergroupMembersFilterBanned")
    }

    proof fn tag_known(&self) {
        reveal(<SupergroupMembersFilterBanned as Wire>::wire);
        assert(tag_of(self.wire()) == Some("supergroupMembersFilterBanned"@));
        assert(Self::known("supergroupMembersFilterBanned"@));
    }
}

/// Returns bot members of the supergroup or channel
#[derive(Debug, Clone, PartialEq)]
pub struct SupergroupMembersFilterBots {}

impl Wire for SupergroupMembersFilterBots {
    #[verifier::opaque]
    open spec fn wire(&self) -> Doc {
        tagged(Map::empty(), "supergroupMembersFilterBots"@)
    }

    #[verifier::opaque]
    open spec fn parse(d: Doc, at: Seq<char>) -> Result<Doc, Fault> {
        match d {
            Doc::Object(_) => Ok(tagged(Map::empty(), "supergroupMembersFilterBots"@)),
            _ => Err(Fault::TypeMismatch(at)),
        }
    }

    fn encode(&self) -> (j: Json) {
        proof {
            reveal(<SupergroupMembersFilterBots as Wire>::wire);
        }
        seal(Vec::new(), "supergroupMembersFilterBots")
    }

    fn decode(j: &Json, at: &str) -> (r: Result<Self, DecodeError>) {
        proof {
            reveal(<SupergroupMembersFilterBots as Wire>::wire);
            reveal(<SupergroupMembersFilterBots as Wire>::parse);
        }
        let _ = members_of(j, at)?;
        Ok(SupergroupMembersFilterBots {})
    }

    proof fn round_trip(&self, at: Seq<char>) {
        reveal(<SupergroupMembersFilterBots as Wire>::wire);
        reveal(<SupergroupMembersFilterBots as Wire>::parse);
    }
}

impl Tagged for SupergroupMembersFilterBots {
    open spec fn known(tag: Seq<char>) -> bool {
        tag == "supergroupMembersFilterBots"@
    }

    fn knows(tag: &str) -> (r: bool) {
        same_text(tag, "supergroupMembersFilterBots")
    }

    proof fn tag_known(&self) {
        reveal(<SupergroupMembersFilterBots as Wire>::wire);
        assert(tag_of(self.wire()) == Some("supergroupMembersFilterBots"@));
        assert(Self::known("supergroupMembersFilterBots"@));
    }
}

/// Specifies the kind of chat members to return in getSupergroupMembers
#[derive(Debug, Clone, PartialEq)]
pub enum SupergroupMembersFilter {
    SupergroupMembersFilterRecent(SupergroupMembersFilterRecent),
    SupergroupMembersFilterContacts(SupergroupMembersFilterContacts),
    SupergroupMembersFilterAdministrators(SupergroupMembersFilterAdministrators),
    SupergroupMembersFilterSearch(SupergroupMembersFilterSearch),
    SupergroupMembersFilterRestricted(SupergroupMembersFilterRestricted),
    SupergroupMembersFilterBanned(SupergroupMembersFilterBanned),
    SupergroupMembersFilterBots(SupergroupMembersFilterBots),
}

impl Wire for SupergroupMembersFilter {
    #[verifier::opaque]
    open spec fn wire(&self) -> Doc {
        match self {
            Self::SupergroupMembersFilterRecent(p) => p.wire(),
            Self::SupergroupMembersFilterContacts(p) => p.wire(),
            Self::SupergroupMembersFilterAdministrators(p) => p.wire(),
            Self::SupergroupMembersFilterSearch(p) => p.wire(),
            Self::SupergroupMembersFilterRestricted(p) => p.wire(),
            Self::SupergroupMembersFilterBanned(p) => p.wire(),
            Self::SupergroupMembersFilterBots(p) => p.wire(),
        }
    }

    #[verifier::opaque]
    open spec fn parse(d: Doc, at: Seq<char>) -> Result<Doc, Fault> {
        match d {
            Doc::Object(_) => match tag_of(d) {
                Some(t) => if t == "supergroupMembersFilterRecent"@ {
                    SupergroupMembersFilterRecent::parse(d, at)
                } else if t == "supergroupMembersFilterContacts"@ {
                    SupergroupMembersFilterContacts::parse(d, at)
                } else if t == "supergroupMembersFilterAdministrators"@ {
                    SupergroupMembersFilterAdministrators::parse(d, at)
                } else if t == "supergroupMembersFilterSearch"@ {
                    SupergroupMembersFilterSearch::parse(d, at)
                } else if t == "supergroupMembersFilterRestricted"@ {
                    SupergroupMembersFilterRestricted::parse(d, at)
                } else if t == "supergroupMembersFilterBanned"@ {
                    SupergroupMembersFilterBanned::parse(d, at)
                } else if t == "supergroupMembersFilterBots"@ {
                    SupergroupMembersFilterBots::parse(d, at)
                } else {
                    Err(Fault::UnknownVariant(t))
                },
                None => Err(Fault::MissingDiscriminator),
            },
            _ => Err(Fault::TypeMismatch(at)),
        }
    }

    fn encode(&self) -> (j: Json) {
        proof {
            reveal(<SupergroupMembersFilter as Wire>::wire);
        }
        match self {
            Self::SupergroupMembersFilterRecent(p) => p.encode(),
            Self::SupergroupMembersFilterContacts(p) => p.encode(),
            Self::SupergroupMembersFilterAdministrators(p) => p.encode(),
            Self::SupergroupMembersFilterSearch(p) => p.encode(),
            Self::SupergroupMembersFilterRestricted(p) => p.encode(),
            Self::SupergroupMembersFilterBanned(p) => p.encode(),
            Self::SupergroupMembersFilterBots(p) => p.encode(),
        }
    }

    fn decode(j: &Json, at: &str) -> (r: Result<Self, DecodeError>) {
        proof {
            reveal(<SupergroupMembersFilter as Wire>::wire);
            reveal(<SupergroupMembersFilter as Wire>::parse);
        }
        let members = members_of(j, at)?;
        let tag = discriminator(members)?;
        if same_text(tag, "supergroupMembersFilterRecent") {
            Ok(Self::SupergroupMembersFilterRecent(SupergroupMembersFilterRecent::decode(j, at)?))
        } else if same_text(tag, "supergroupMembersFilterContacts") {
            Ok(
                Self::SupergroupMembersFilterContacts(
                    SupergroupMembersFilterContacts::decode(j, at)?,
                ),
            )
        } else if same_text(tag, "supergroupMembersFilterAdministrators") {
            Ok(
                Self::SupergroupMembersFilterAdministrators(
                    SupergroupMembersFilterAdministrators::decode(j, at)?,
                ),
            )
        } else if same_text(tag, "supergroupMembersFilterSearch") {
            Ok(Self::SupergroupMembersFilterSearch(SupergroupMembersFilterSearch::decode(j, at)?))
        } else if same_text(tag, "supergroupMembersFilterRestricted") {
            Ok(
                Self::SupergroupMembersFilterRestricted(
                    SupergroupMembersFilterRestricted::decode(j, at)?,
                ),
            )
        } else if same_text(tag, "supergroupMembersFilterBanned") {
            Ok(Self::SupergroupMembersFilterBanned(SupergroupMembersFilterBanned::decode(j, at)?))
        } else if same_text(tag, "supergroupMembersFilterBots") {
            Ok(Self::SupergroupMembersFilterBots(SupergroupMembersFilterBots::decode(j, at)?))
        } else {
            Err(DecodeError::UnknownVariant(tag.to_owned()))
        }
    }

    proof fn round_trip(&self, at: Seq<char>) {
        reveal(<SupergroupMembersFilter as Wire>::wire);
        reveal(<SupergroupMembersFilter as Wire>::parse);
        reveal_strlit("supergroupMembersFilterAdministrators");
        reveal_strlit("supergroupMembersFilterBanned");
        reveal_strlit("supergroupMembersFilterBots");
        reveal_strlit("supergroupMembersFilterContacts");
        reveal_strlit("supergroupMembersFilterRecent");
        reveal_strlit("supergroupMembersFilterRestricted");
        reveal_strlit("supergroupMembersFilterSearch");
        assert("supergroupMembersFilterAdministrators"@.len() == 37);
        assert({
            &&& "supergroupMembersFilterBanned"@.len() == 29
            &&& "supergroupMembersFilterBanned"@[23] == 'B'
        });
        assert("supergroupMembersFilterBots"@.len() == 27);
        assert("supergroupMembersFilterContacts"@.len() == 31);
        assert({
            &&& "supergroupMembersFilterRecent"@.len() == 29
            &&& "supergroupMembersFilterRecent"@[23] == 'R'
        });
        assert("supergroupMembersFilterRestricted"@.len() == 33);
        assert({
            &&& "supergroupMembersFilterSearch"@.len() == 29
            &&& "supergroupMembersFilterSearch"@[23] == 'S'
        });
        match self {
            Self::SupergroupMembersFilterRecent(p) => {
                p.tag_known();
                p.round_trip(at);
            },
            Self::SupergroupMembersFilterContacts(p) => {
                p.tag_known();
                p.round_trip(at);
            },
            Self::SupergroupMembersFilterAdministrators(p) => {
                p.tag_known();
                p.round_trip(at);
            },
            Self::SupergroupMembersFilterSearch(p) => {
                p.tag_known();
                p.round_trip(at);
            },
            Self::SupergroupMembersFilterRestricted(p) => {
                p.tag_known();
                p.round_trip(at);
            },
            Self::SupergroupMembersFilterBanned(p) => {
                p.tag_known();
                p.round_trip(at);
            },
            Self::SupergroupMembersFilterBots(p) => {
                p.tag_known();
                p.round_trip(at);
            },
        }
    }
}

impl Tagged for SupergroupMembersFilter {
    open spec fn known(tag: Seq<char>) -> bool {
        ||| tag == "supergroupMembersFilterRecent"@
        ||| tag == "supergroupMembersFilterContacts"@
        ||| tag == "supergroupMembersFilterAdministrators"@
        ||| tag == "supergroupMembersFilterSearch"@
        ||| tag == "supergroupMembersFilterRestricted"@
        ||| tag == "supergroupMembersFilterBanned"@
        ||| tag == "supergroupMembersFilterBots"@
    }

    fn knows(tag: &str) -> (r: bool) {
        same_text(tag, "supergroupMembersFilterRecent")
            || same_text(tag, "supergroupMembersFilterContacts")
            || same_text(tag, "supergroupMembersFilterAdministrators")
            || same_text(tag, "supergroupMembersFilterSearch")
            || same_text(tag, "supergroupMembersFilterRestricted")
            || same_text(tag, "supergroupMembersFilterBanned")
            || same_text(tag, "supergroupMembersFilterBots")
    }

    proof fn tag_known(&self) {
        reveal(<SupergroupMembersFilter as Wire>::wire);
        match self {
            Self::SupergroupMembersFilterRecent(p) => p.tag_known(),
            Self::SupergroupMembersFilterContacts(p) => p.tag_known(),
            Self::SupergroupMembersFilterAdministrators(p) => p.tag_known(),
            Self::SupergroupMembersFilterSearch(p) => p.tag_known(),
            Self::SupergroupMembersFilterRestricted(p) => p.tag_known(),
            Self::SupergroupMembersFilterBanned(p) => p.tag_known(),
            Self::SupergroupMembersFilterBots(p) => p.tag_known(),
        }
    }
}

impl Union for SupergroupMembersFilter {
    proof fn unknown_rejected(d: Doc, at: Seq<char>) {
        reveal(<SupergroupMembersFilter as Wire>::parse);
    }

    proof fn untagged_rejected(d: Doc, at: Seq<char>) {
        reveal(<SupergroupMembersFilter as Wire>::parse);
    }
}

/// Represents a basic group of 0-200 users (must be upgraded to a supergroup to accommodate more
/// than 200 users)
#[derive(Debug, Clone, PartialEq)]
pub struct BasicGroup {
    /// Group identifier
    pub id: i32,
    /// Number of members in the group
    pub member_count: i32,
    /// Status of the current user in the group
    pub status: ChatMemberStatus,
    /// True, if the group is active
    pub is_active: bool,
    /// Identifier of the supergroup to which this group was upgraded; 0 if none
    pub upgraded_to_supergroup_id: i32,
}

impl Wire for BasicGroup {
    #[verifier::opaque]
    open spec fn wire(&self) -> Doc {
        tagged(
            Map::empty()
                .insert("id"@, self.id.wire())
                .insert("memberCount"@, self.member_count.wire())
                .insert("status"@, self.status.wire())
                .insert("isActive"@, self.is_active.wire())
                .insert("upgradedToSupergroupId"@, self.upgraded_to_supergroup_id.wire()),
            "basicGroup"@,
        )
    }

    #[verifier::opaque]
    open spec fn parse(d: Doc, at: Seq<char>) -> Result<Doc, Fault> {
        match d {
            Doc::Object(m) => {
                let id = field::<i32>(m, "id"@);
                let member_count = field::<i32>(m, "memberCount"@);
                let status = field::<ChatMemberStatus>(m, "status"@);
                let is_active = field::<bool>(m, "isActive"@);
                let upgraded_to_supergroup_id = field::<i32>(m, "upgradedToSupergroupId"@);
                if id is Err {
                    id
                } else if member_count is Err {
                    member_count
                } else if status is Err {
                    status
                } else if is_active is Err {
                    is_active
                } else if upgraded_to_supergroup_id is Err {
                    upgraded_to_supergroup_id
                } else {
                    Ok(
                        tagged(
                            Map::empty()
                                .insert("id"@, id->Ok_0)
                                .insert("memberCount"@, member_count->Ok_0)
                                .insert("status"@, status->Ok_0)
                                .insert("isActive"@, is_active->Ok_0)
                                .insert("upgradedToSupergroupId"@, upgraded_to_supergroup_id->Ok_0),
                            "basicGroup"@,
                        ),
                    )
                }
            },
            _ => Err(Fault::TypeMismatch(at)),
        }
    }

    fn encode(&self) -> (j: Json) {
        proof {
            reveal(<BasicGroup as Wire>::wire);
        }
        let mut members: Vec<Member> = Vec::new();
        put(&mut members, "id", self.id.encode());
        put(&mut members, "memberCount", self.member_count.encode());
        put(&mut members, "status", self.status.encode());
        put(&mut members, "isActive", self.is_active.encode());
        put(&mut members, "upgradedToSupergroupId", self.upgraded_to_supergroup_id.encode());
        seal(members, "basicGroup")
    }

    fn decode(j: &Json, at: &str) -> (r: Result<Self, DecodeError>) {
        proof {
            reveal(<BasicGroup as Wire>::wire);
            reveal(<BasicGroup as Wire>::parse);
        }
        let members = members_of(j, at)?;
        let id = read_field::<i32>(members, "id")?;
        let member_count = read_field::<i32>(members, "memberCount")?;
        let status = read_field::<ChatMemberStatus>(members, "status")?;
        let is_active = read_field::<bool>(members, "isActive")?;
        let upgraded_to_supergroup_id = read_field::<i32>(members, "upgradedToSupergroupId")?;
        Ok(BasicGroup { id, member_count, status, is_active, upgraded_to_supergroup_id })
    }

    proof fn round_trip(&self, at: Seq<char>) {
        reveal(<BasicGroup as Wire>::wire);
        reveal(<BasicGroup as Wire>::parse);
        reveal_strlit("@type");
        reveal_strlit("id");
        reveal_strlit("isActive");
        reveal_strlit("memberCount");
        reveal_strlit("status");
        reveal_strlit("upgradedToSupergroupId");
        assert("@type"@.len() == 5);
        assert("id"@.len() == 2);
        assert("isActive"@.len() == 8);
        assert("memberCount"@.len() == 11);
        assert("status"@.len() == 6);
        assert("upgradedToSupergroupId"@.len() == 22);
        self.id.round_trip("id"@);
        self.member_count.round_trip("memberCount"@);
        self.status.round_trip("status"@);
        self.is_active.round_trip("isActive"@);
        self.upgraded_to_supergroup_id.round_trip("upgradedToSupergroupId"@);
    }
}

impl Tagged for BasicGroup {
    open spec fn known(tag: Seq<char>) -> bool {
        tag == "basicGroup"@
    }

    fn knows(tag: &str) -> (r: bool) {
        same_text(tag, "basicGroup")
    }

    proof fn tag_known(&self) {
        reveal(<BasicGroup as Wire>::wire);
        assert(tag_of(self.wire()) == Some("basicGroup"@));
        assert(Self::known("basicGroup"@));
    }
}

/// Contains full information about a basic group
#[derive(Debug, Clone, PartialEq)]
pub struct BasicGroupFullInfo {
    /// Contains full information about a basic group
    pub description: String,
    /// User identifier of the creator of the group; 0 if unknown
    pub creator_user_id: i32,
    /// Group members
    pub members: Vec<ChatMember>,
    /// Invite link for this group; available only after it has been generated at least once and
    /// only for the group creator
    pub invite_link: String,
}

impl Wire for BasicGroupFullInfo {
    #[verifier::opaque]
    open spec fn wire(&self) -> Doc {
        tagged(
            Map::empty()
                .insert("description"@, self.description.wire())
                .insert("creatorUserId"@, self.creator_user_id.wire())
                .insert("members"@, self.members.wire())
                .insert("inviteLink"@, self.invite_link.wire()),
            "basicGroupFullInfo"@,
        )
    }

    #[verifier::opaque]
    open spec fn parse(d: Doc, at: Seq<char>) -> Result<Doc, Fault> {
        match d {
            Doc::Object(m) => {
                let description = field::<String>(m, "description"@);
                let creator_user_id = field::<i32>(m, "creatorUserId"@);
                let members_ = field::<Vec<ChatMember>>(m, "members"@);
                let invite_link = field::<String>(m, "inviteLink"@);
                if description is Err {
                    description
                } else if creator_user_id is Err {
                    creator_user_id
                } else if members_ is Err {
                    members_
                } else if invite_link is Err {
                    invite_link
                } else {
                    Ok(
                        tagged(
                            Map::empty()
                                .insert("description"@, description->Ok_0)
                                .insert("creatorUserId"@, creator_user_id->Ok_0)
                                .insert("members"@, members_->Ok_0)
                                .insert("inviteLink"@, invite_link->Ok_0),
                            "basicGroupFullInfo"@,
                        ),
                    )
                }
            },
            _ => Err(Fault::TypeMismatch(at)),
        }
    }

    fn encode(&self) -> (j: Json) {
        proof {
            reveal(<BasicGroupFullInfo as Wire>::wire);
        }
        let mut members: Vec<Member> = Vec::new();
        put(&mut members, "description", self.description.encode());
        put(&mut members, "creatorUserId", self.creator_user_id.encode());
        put(&mut members, "members", self.members.encode());
        put(&mut members, "inviteLink", self.invite_link.encode());
        seal(members, "basicGroupFullInfo")
    }

    fn decode(j: &Json, at: &str) -> (r: Result<Self, DecodeError>) {
        proof {
            reveal(<BasicGroupFullInfo as Wire>::wire);
            reveal(<BasicGroupFullInfo as Wire>::parse);
        }
        let members = members_of(j, at)?;
        let description = read_field::<String>(members, "description")?;
        let creator_user_id = read_field::<i32>(members, "creatorUserId")?;
        let members_ = read_field::<Vec<ChatMember>>(members, "members")?;
        let invite_link = read_field::<String>(members, "inviteLink")?;
        Ok(BasicGroupFullInfo { description, creator_user_id, members: members_, invite_link })
    }

    proof fn round_trip(&self, at: Seq<char>) {
        reveal(<BasicGroupFullInfo as Wire>::wire);
        reveal(<BasicGroupFullInfo as Wire>::parse);
        reveal_strlit("@type");
        reveal_strlit("creatorUserId");
        reveal_strlit("description");
        reveal_strlit("inviteLink");
        reveal_strlit("members");
        assert("@type"@.len() == 5);
        assert("creatorUserId"@.len() == 13);
        assert("description"@.len() == 11);
        assert("inviteLink"@.len() == 10);
        assert("members"@.len() == 7);
        self.description.round_trip("description"@);
        self.creator_user_id.round_trip("creatorUserId"@);
        self.members.round_trip("members"@);
        self.invite_link.round_trip("inviteLink"@);
    }
}

impl Tagged for BasicGroupFullInfo {
    open spec fn known(tag: Seq<char>) -> bool {
        tag == "basicGroupFullInfo"@
    }

    fn knows(tag: &str) -> (r: bool) {
        same_text(tag, "basicGroupFullInfo")
    }

    proof fn tag_known(&self) {
        reveal(<BasicGroupFullInfo as Wire>::wire);
        assert(tag_of(self.wire()) == Some("basicGroupFullInfo"@));
        assert(Self::known("basicGroupFullInfo"@));
    }
}

/// Represents a supergroup or channel with zero or more members (subscribers in the case of
/// channels). From the point of view of the system, a channel is a special kind of a supergroup:
/// only administrators can post and see the list of members, and posts from all administrators use
/// the name and photo of the channel instead of individual names and profile photos. Unlike
/// supergroups, channels can have an unlimited number of subscribers
#[derive(Debug, Clone, PartialEq)]
pub struct Supergroup {
    /// Supergroup or channel identifier
    pub id: i32,
    /// Username of the supergroup or channel; empty for private supergroups or channels
    pub username: String,
    /// Point in time (Unix timestamp) when the current user joined, or the point in time when the
    /// supergroup or channel was created, in case the user is not a member
    pub date: i32,
    /// Status of the current user in the supergroup or channel; custom title will be always empty
    pub status: ChatMemberStatus,
    /// Member count; 0 if unknown. Currently it is guaranteed to be known only if the supergroup or
    /// channel was found through SearchPublicChats
    pub member_count: i32,
    /// True, if the channel has a discussion group, or the supergroup is the designated discussion
    /// group for a channel
    pub has_linked_chat: bool,
    /// True, if the supergroup is connected to a location, i.e. the supergroup is a location-based
    /// supergroup
    pub has_location: bool,
    /// True, if messages sent to the channel should contain information about the sender. This
    /// field is only applicable to channels
    pub sign_messages: bool,
    /// True, if the slow mode is enabled in the supergroup
    pub is_slow_mode_enabled: bool,
    /// True, if the supergroup is a channel
    pub is_channel: bool,
    /// True, if the supergroup or channel is verified
    pub is_verified: bool,
    /// If non-empty, contains a human-readable description of the reason why access to this
    /// supergroup or channel must be restricted
    pub restriction_reason: String,
    /// True, if many users reported this supergroup as a scam
    pub is_scam: bool,
}

impl Wire for Supergroup {
    #[verifier::opaque]
    open spec fn wire(&self) -> Doc {
        tagged(
            Map::empty()
                .insert("id"@, self.id.wire())
                .insert("username"@, self.username.wire())
                .insert("date"@, self.date.wire())
                .insert("status"@, self.status.wire())
                .insert("memberCount"@, self.member_count.wire())
                .insert("hasLinkedChat"@, self.has_linked_chat.wire())
                .insert("hasLocation"@, self.has_location.wire())
                .insert("signMessages"@, self.sign_messages.wire())
                .insert("isSlowModeEnabled"@, self.is_slow_mode_enabled.wire())
                .insert("isChannel"@, self.is_channel.wire())
                .insert("isVerified"@, self.is_verified.wire())
                .insert("restrictionReason"@, self.restriction_reason.wire())
                .insert("isScam"@, self.is_scam.wire()),
            "supergroup"@,
        )
    }

    #[verifier::opaque]
    open spec fn parse(d: Doc, at: Seq<char>) -> Result<Doc, Fault> {
        match d {
            Doc::Object(m) => {
                let id = field::<i32>(m, "id"@);
                let username = field::<String>(m, "username"@);
                let date = field::<i32>(m, "date"@);
                let status = field::<ChatMemberStatus>(m, "status"@);
                let member_count = field::<i32>(m, "memberCount"@);
                let has_linked_chat = field::<bool>(m, "hasLinkedChat"@);
                let has_location = field::<bool>(m, "hasLocation"@);
                let sign_messages = field::<bool>(m, "signMessages"@);
                let is_slow_mode_enabled = field::<bool>(m, "isSlowModeEnabled"@);
                let is_channel = field::<bool>(m, "isChannel"@);
                let is_verified = field::<bool>(m, "isVerified"@);
                let restriction_reason = field::<String>(m, "restrictionReason"@);
                let is_scam = field::<bool>(m, "isScam"@);
                if id is Err {
                    id
                } else if username is Err {
                    username
                } else if date is Err {
                    date
                } else if status is Err {
                    status
                } else if member_count is Err {
                    member_count
                } else if has_linked_chat is Err {
                    has_linked_chat
                } else if has_location is Err {
                    has_location
                } else if sign_messages is Err {
                    sign_messages
                } else if is_slow_mode_enabled is Err {
                    is_slow_mode_enabled
                } else if is_channel is Err {
                    is_channel
                } else if is_verified is Err {
                    is_verified
                } else if restriction_reason is Err {
                    restriction_reason
                } else if is_scam is Err {
                    is_scam
                } else {
                    Ok(
                        tagged(
                            Map::empty()
                                .insert("id"@, id->Ok_0)
                                .insert("username"@, username->Ok_0)
                                .insert("date"@, date->Ok_0)
                                .insert("status"@, status->Ok_0)
                                .insert("memberCount"@, member_count->Ok_0)
                                .insert("hasLinkedChat"@, has_linked_chat->Ok_0)
                                .insert("hasLocation"@, has_location->Ok_0)
                                .insert("signMessages"@, sign_messages->Ok_0)
                                .insert("isSlowModeEnabled"@, is_slow_mode_enabled->Ok_0)
                                .insert("isChannel"@, is_channel->Ok_0)
                                .insert("isVerified"@, is_verified->Ok_0)
                                .insert("restrictionReason"@, restriction_reason->Ok_0)
                                .insert("isScam"@, is_scam->Ok_0),
                            "supergroup"@,
                        ),
                    )
                }
            },
            _ => Err(Fault::TypeMismatch(at)),
        }
    }

    fn encode(&self) -> (j: Json) {
        proof {
            reveal(<Supergroup as Wire>::wire);
        }
        let mut members: Vec<Member> = Vec::new();
        put(&mut members, "id", self.id.encode());
        put(&mut members, "username", self.username.encode());
        put(&mut members, "date", self.date.encode());
        put(&mut members, "status", self.status.encode());
        put(&mut members, "memberCount", self.member_count.encode());
        put(&mut members, "hasLinkedChat", self.has_linked_chat.encode());
        put(&mut members, "hasLocation", self.has_location.encode());
        put(&mut members, "signMessages", self.sign_messages.encode());
        put(&mut members, "isSlowModeEnabled", self.is_slow_mode_enabled.encode());
        put(&mut members, "isChannel", self.is_channel.encode());
        put(&mut members, "isVerified", self.is_verified.encode());
        put(&mut members, "restrictionReason", self.restriction_reason.encode());
        put(&mut members, "isScam", self.is_scam.encode());
        seal(members, "supergroup")
    }

    fn decode(j: &Json, at: &str) -> (r: Result<Self, DecodeError>) {
        proof {
            reveal(<Supergroup as Wire>::wire);
            reveal(<Supergroup as Wire>::parse);
        }
        let members = members_of(j, at)?;
        let id = read_field::<i32>(members, "id")?;
        let username = read_field::<String>(members, "username")?;
        let date = read_field::<i32>(members, "date")?;
        let status = read_field::<ChatMemberStatus>(members, "status")?;
        let member_count = read_field::<i32>(members, "memberCount")?;
        let has_linked_chat = read_field::<bool>(members, "hasLinkedChat")?;
        let has_location = read_field::<bool>(members, "hasLocation")?;
        let sign_messages = read_field::<bool>(members, "signMessages")?;
        let is_slow_mode_enabled = read_field::<bool>(members, "isSlowModeEnabled")?;
        let is_channel = read_field::<bool>(members, "isChannel")?;
        let is_verified = read_field::<bool>(members, "isVerified")?;
        let restriction_reason = read_field::<String>(members, "restrictionReason")?;
        let is_scam = read_field::<bool>(members, "isScam")?;
        Ok(Supergroup {
            id,
            username,
            date,
            status,
            member_count,
            has_linked_chat,
            has_location,
            sign_messages,
            is_slow_mode_enabled,
            is_channel,
            is_verified,
            restriction_reason,
            is_scam,
        })
    }

    proof fn round_trip(&self, at: Seq<char>) {
        reveal(<Supergroup as Wire>::wire);
        reveal(<Supergroup as Wire>::parse);
        reveal_strlit("@type");
        reveal_strlit("date");
        reveal_strlit("hasLinkedChat");
        reveal_strlit("hasLocation");
        reveal_strlit("id");
        reveal_strlit("isChannel");
        reveal_strlit("isScam");
        reveal_strlit("isSlowModeEnabled");
        reveal_strlit("isVerified");
        reveal_strlit("memberCount");
        reveal_strlit("restrictionReason");
        reveal_strlit("signMessages");
        reveal_strlit("status");
        reveal_strlit("username");
        assert("@type"@.len() == 5);
        assert("date"@.len() == 4);
        assert("hasLinkedChat"@.len() == 13);
        assert("hasLocation"@.len() == 11 && "hasLocation"@[0] == 'h');
        assert("id"@.len() == 2);
        assert("isChannel"@.len() == 9);
        assert("isScam"@.len() == 6 && "isScam"@[0] == 'i');
        assert("isSlowModeEnabled"@.len() == 17 && "isSlowModeEnabled"@[0] == 'i');
        assert("isVerified"@.len() == 10);
        assert("memberCount"@.len() == 11 && "memberCount"@[0] == 'm');
        assert("restrictionReason"@.len() == 17 && "restrictionReason"@[0] == 'r');
        assert("signMessages"@.len() == 12);
        assert("status"@.len() == 6 && "status"@[0] == 's');
        assert("username"@.len() == 8);
        self.id.round_trip("id"@);
        self.username.round_trip("username"@);
        self.date.round_trip("date"@);
        self.status.round_trip("status"@);
        self.member_count.round_trip("memberCount"@);
        self.has_linked_chat.round_trip("hasLinkedChat"@);
        self.has_location.round_trip("hasLocation"@);
        self.sign_messages.round_trip("signMessages"@);
        self.is_slow_mode_enabled.round_trip("isSlowModeEnabled"@);
        self.is_channel.round_trip("isChannel"@);
        self.is_verified.round_trip("isVerified"@);
        self.restriction_reason.round_trip("restrictionReason"@);
        self.is_scam.round_trip("isScam"@);
        let m = self.wire()->Object_0;
        assert(field::<i32>(m, "id"@) == Ok::<Doc, Fault>(self.id.wire()));
        assert(field::<String>(m, "username"@) == Ok::<Doc, Fault>(self.username.wire()));
        assert(field::<i32>(m, "date"@) == Ok::<Doc, Fault>(self.date.wire()));
        assert(field::<ChatMemberStatus>(m, "status"@) == Ok::<Doc, Fault>(self.status.wire()));
        assert(field::<i32>(m, "memberCount"@) == Ok::<Doc, Fault>(self.member_count.wire()));
        assert(field::<bool>(m, "hasLinkedChat"@) == Ok::<Doc, Fault>(self.has_linked_chat.wire()));
        assert(field::<bool>(m, "hasLocation"@) == Ok::<Doc, Fault>(self.has_location.wire()));
        assert(field::<bool>(m, "signMessages"@) == Ok::<Doc, Fault>(self.sign_messages.wire()));
        assert(field::<bool>(m, "isSlowModeEnabled"@)
            == Ok::<Doc, Fault>(self.is_slow_mode_enabled.wire()));
        assert(field::<bool>(m, "isChannel"@) == Ok::<Doc, Fault>(self.is_channel.wire()));
        assert(field::<bool>(m, "isVerified"@) == Ok::<Doc, Fault>(self.is_verified.wire()));
        assert(field::<String>(m, "restrictionReason"@)
            == Ok::<Doc, Fault>(self.restriction_reason.wire()));
        assert(field::<bool>(m, "isScam"@) == Ok::<Doc, Fault>(self.is_scam.wire()));
    }
}

impl Tagged for Supergroup {
    open spec fn known(tag: Seq<char>) -> bool {
        tag == "supergroup"@
    }

    fn knows(tag: &str) -> (r: bool) {
        same_text(tag, "supergroup")
    }

    proof fn tag_known(&self) {
        reveal(<Supergroup as Wire>::wire);
        assert(tag_of(self.wire()) == Some("supergroup"@));
        assert(Self::known("supergroup"@));
    }
}

/// Contains full information about a supergroup or channel
#[derive(Debug, Clone, PartialEq)]
pub struct SupergroupFullInfo {
    /// Contains full information about a supergroup or channel
    pub description: String,
    /// Number of members in the supergroup or channel; 0 if unknown
    pub member_count: i32,
    /// Number of privileged users in the supergroup or channel; 0 if unknown
    pub administrator_count: i32,
    /// Number of restricted users in the supergroup; 0 if unknown
    pub restricted_count: i32,
    /// Number of users banned from chat; 0 if unknown
    pub banned_count: i32,
    /// Chat identifier of a discussion group for the channel, or a channel, for which the
    /// supergroup is the designated discussion group; 0 if none or unknown
    pub linked_chat_id: i64,
    /// Delay between consecutive sent messages for non-administrator supergroup members, in seconds
    pub slow_mode_delay: i32,
    /// Time left before next message can be sent in the supergroup, in seconds. An
    /// updateSupergroupFullInfo update is not triggered when value of this field changes, but both
    /// new and old values are non-zero
    pub slow_mode_delay_expires_in: Number,
    /// True, if members of the chat can be retrieved
    pub can_get_members: bool,
    /// True, if the chat username can be changed
    pub can_set_username: bool,
    /// True, if the supergroup sticker set can be changed
    pub can_set_sticker_set: bool,
    /// True, if the supergroup location can be changed
    pub can_set_location: bool,
    /// True, if the channel statistics is available through getChatStatisticsUrl
    pub can_view_statistics: bool,
    /// True, if new chat members will have access to old messages. In public or discussion groups
    /// and both public and private channels, old messages are always available, so this option
    /// affects only private supergroups without a linked chat. The value of this field is only
    /// available for chat administrators
    pub is_all_history_available: bool,
    /// Identifier of the supergroup sticker set; 0 if none
    pub sticker_set_id: i64,
    /// Location to which the supergroup is connected; may be null
    pub location: Option<ChatLocation>,
    /// Invite link for this chat
    pub invite_link: String,
    /// Identifier of the basic group from which supergroup was upgraded; 0 if none
    pub upgraded_from_basic_group_id: i32,
    /// Identifier of the last message in the basic group from which supergroup was upgraded; 0 if
    /// none
    pub upgraded_from_max_message_id: i64,
}

impl Wire for SupergroupFullInfo {
    #[verifier::opaque]
    open spec fn wire(&self) -> Doc {
        tagged(
            Map::empty()
                .insert("description"@, self.description.wire())
                .insert("memberCount"@, self.member_count.wire())
                .insert("administratorCount"@, self.administrator_count.wire())
                .insert("restrictedCount"@, self.restricted_count.wire())
                .insert("bannedCount"@, self.banned_count.wire())
                .insert("linkedChatId"@, self.linked_chat_id.wire())
                .insert("slowModeDelay"@, self.slow_mode_delay.wire())
                .insert("slowModeDelayExpiresIn"@, self.slow_mode_delay_expires_in.wire())
                .insert("canGetMembers"@, self.can_get_members.wire())
                .insert("canSetUsername"@, self.can_set_username.wire())
                .insert("canSetStickerSet"@, self.can_set_sticker_set.wire())
                .insert("canSetLocation"@, self.can_set_location.wire())
                .insert("canViewStatistics"@, self.can_view_statistics.wire())
                .insert("isAllHistoryAvailable"@, self.is_all_history_available.wire())
                .insert("stickerSetId"@, wide_doc(self.sticker_set_id))
                .insert("location"@, self.location.wire())
                .insert("inviteLink"@, self.invite_link.wire())
                .insert("upgradedFromBasicGroupId"@, self.upgraded_from_basic_group_id.wire())
                .insert("upgradedFromMaxMessageId"@, self.upgraded_from_max_message_id.wire()),
            "supergroupFullInfo"@,
        )
    }

    #[verifier::opaque]
    open spec fn parse(d: Doc, at: Seq<char>) -> Result<Doc, Fault> {
        match d {
            Doc::Object(m) => {
                let description = field::<String>(m, "description"@);
                let member_count = field::<i32>(m, "memberCount"@);
                let administrator_count = field::<i32>(m, "administratorCount"@);
                let restricted_count = field::<i32>(m, "restrictedCount"@);
                let banned_count = field::<i32>(m, "bannedCount"@);
                let linked_chat_id = field::<i64>(m, "linkedChatId"@);
                let slow_mode_delay = field::<i32>(m, "slowModeDelay"@);
                let slow_mode_delay_expires_in = field::<Number>(m, "slowModeDelayExpiresIn"@);
                let can_get_members = field::<bool>(m, "canGetMembers"@);
                let can_set_username = field::<bool>(m, "canSetUsername"@);
                let can_set_sticker_set = field::<bool>(m, "canSetStickerSet"@);
                let can_set_location = field::<bool>(m, "canSetLocation"@);
                let can_view_statistics = field::<bool>(m, "canViewStatistics"@);
                let is_all_history_available = field::<bool>(m, "isAllHistoryAvailable"@);
                let sticker_set_id = wide_field(m, "stickerSetId"@);
                let location = optional_field::<ChatLocation>(m, "location"@);
                let invite_link = field::<String>(m, "inviteLink"@);
                let upgraded_from_basic_group_id = field::<i32>(m, "upgradedFromBasicGroupId"@);
                let upgraded_from_max_message_id = field::<i64>(m, "upgradedFromMaxMessageId"@);
                if description is Err {
                    description
                } else if member_count is Err {
                    member_count
                } else if administrator_count is Err {
                    administrator_count
                } else if restricted_count is Err {
                    restricted_count
                } else if banned_count is Err {
                    banned_count
                } else if linked_chat_id is Err {
                    linked_chat_id
                } else if slow_mode_delay is Err {
                    slow_mode_delay
                } else if slow_mode_delay_expires_in is Err {
                    slow_mode_delay_expires_in
                } else if can_get_members is Err {
                    can_get_members
                } else if can_set_username is Err {
                    can_set_username
                } else if can_set_sticker_set is Err {
                    can_set_sticker_set
                } else if can_set_location is Err {
                    can_set_location
                } else if can_view_statistics is Err {
                    can_view_statistics
                } else if is_all_history_available is Err {
                    is_all_history_available
                } else if sticker_set_id is Err {
                    sticker_set_id
                } else if location is Err {
                    location
                } else if invite_link is Err {
                    invite_link
                } else if upgraded_from_basic_group_id is Err {
                    upgraded_from_basic_group_id
                } else if upgraded_from_max_message_id is Err {
                    upgraded_from_max_message_id
                } else {
                    Ok(
                        tagged(
                            Map::empty()
                                .insert("description"@, description->Ok_0)
                                .insert("memberCount"@, member_count->Ok_0)
                                .insert("administratorCount"@, administrator_count->Ok_0)
                                .insert("restrictedCount"@, restricted_count->Ok_0)
                                .insert("bannedCount"@, banned_count->Ok_0)
                                .insert("linkedChatId"@, linked_chat_id->Ok_0)
                                .insert("slowModeDelay"@, slow_mode_delay->Ok_0)
                                .insert("slowModeDelayExpiresIn"@, slow_mode_delay_expires_in->Ok_0)
                                .insert("canGetMembers"@, can_get_members->Ok_0)
                                .insert("canSetUsername"@, can_set_username->Ok_0)
                                .insert("canSetStickerSet"@, can_set_sticker_set->Ok_0)
                                .insert("canSetLocation"@, can_set_location->Ok_0)
                                .insert("canViewStatistics"@, can_view_statistics->Ok_0)
                                .insert("isAllHistoryAvailable"@, is_all_history_available->Ok_0)
                                .insert("stickerSetId"@, sticker_set_id->Ok_0)
                                .insert("location"@, location->Ok_0)
                                .insert("inviteLink"@, invite_link->Ok_0)
                                .insert(
                                    "upgradedFromBasicGroupId"@,
                                    upgraded_from_basic_group_id->Ok_0,
                                )
                                .insert(
                                    "upgradedFromMaxMessageId"@,
                                    upgraded_from_max_message_id->Ok_0,
                                ),
                            "supergroupFullInfo"@,
                        ),
                    )
                }
            },
            _ => Err(Fault::TypeMismatch(at)),
        }
    }

    fn encode(&self) -> (j: Json) {
        proof {
            reveal(<SupergroupFullInfo as Wire>::wire);
        }
        let mut members: Vec<Member> = Vec::new();
        put(&mut members, "description", self.description.encode());
        put(&mut members, "memberCount", self.member_count.encode());
        put(&mut members, "administratorCount", self.administrator_count.encode());
        put(&mut members, "restrictedCount", self.restricted_count.encode());
        put(&mut members, "bannedCount", self.banned_count.encode());
        put(&mut members, "linkedChatId", self.linked_chat_id.encode());
        put(&mut members, "slowModeDelay", self.slow_mode_delay.encode());
        put(&mut members, "slowModeDelayExpiresIn", self.slow_mode_delay_expires_in.encode());
        put(&mut members, "canGetMembers", self.can_get_members.encode());
        put(&mut members, "canSetUsername", self.can_set_username.encode());
        put(&mut members, "canSetStickerSet", self.can_set_sticker_set.encode());
        put(&mut members, "canSetLocation", self.can_set_location.encode());
        put(&mut members, "canViewStatistics", self.can_view_statistics.encode());
        put(&mut members, "isAllHistoryAvailable", self.is_all_history_available.encode());
        put(&mut members, "stickerSetId", encode_wide(self.sticker_set_id));
        put(&mut members, "location", self.location.encode());
        put(&mut members, "inviteLink", self.invite_link.encode());
        put(&mut members, "upgradedFromBasicGroupId", self.upgraded_from_basic_group_id.encode());
        put(&mut members, "upgradedFromMaxMessageId", self.upgraded_from_max_message_id.encode());
        seal(members, "supergroupFullInfo")
    }

    fn decode(j: &Json, at: &str) -> (r: Result<Self, DecodeError>) {
        proof {
            reveal(<SupergroupFullInfo as Wire>::wire);
            reveal(<SupergroupFullInfo as Wire>::parse);
        }
        let members = members_of(j, at)?;
        let description = read_field::<String>(members, "description")?;
        let member_count = read_field::<i32>(members, "memberCount")?;
        let administrator_count = read_field::<i32>(members, "administratorCount")?;
        let restricted_count = read_field::<i32>(members, "restrictedCount")?;
        let banned_count = read_field::<i32>(members, "bannedCount")?;
        let linked_chat_id = read_field::<i64>(members, "linkedChatId")?;
        let slow_mode_delay = read_field::<i32>(members, "slowModeDelay")?;
        let slow_mode_delay_expires_in = read_field::<Number>(members, "slowModeDelayExpiresIn")?;
        let can_get_members = read_field::<bool>(members, "canGetMembers")?;
        let can_set_username = read_field::<bool>(members, "canSetUsername")?;
        let can_set_sticker_set = read_field::<bool>(members, "canSetStickerSet")?;
        let can_set_location = read_field::<bool>(members, "canSetLocation")?;
        let can_view_statistics = read_field::<bool>(members, "canViewStatistics")?;
        let is_all_history_available = read_field::<bool>(members, "isAllHistoryAvailable")?;
        let sticker_set_id = read_wide(members, "stickerSetId")?;
        let location = read_optional::<ChatLocation>(members, "location")?;
        let invite_link = read_field::<String>(members, "inviteLink")?;
        let upgraded_from_basic_group_id = read_field::<i32>(members, "upgradedFromBasicGroupId")?;
        let upgraded_from_max_message_id = read_field::<i64>(members, "upgradedFromMaxMessageId")?;
        Ok(SupergroupFullInfo {
            description,
            member_count,
            administrator_count,
            restricted_count,
            banned_count,
            linked_chat_id,
            slow_mode_delay,
            slow_mode_delay_expires_in,
            can_get_members,
            can_set_username,
            can_set_sticker_set,
            can_set_location,
            can_view_statistics,
            is_all_history_available,
            sticker_set_id,
            location,
            invite_link,
            upgraded_from_basic_group_id,
            upgraded_from_max_message_id,
        })
    }

    proof fn round_trip(&self, at: Seq<char>) {
        reveal(<SupergroupFullInfo as Wire>::wire);
        reveal(<SupergroupFullInfo as Wire>::parse);
        reveal_strlit("@type");
        reveal_strlit("administratorCount");
        reveal_strlit("bannedCount");
        reveal_strlit("canGetMembers");
        reveal_strlit("canSetLocation");
        reveal_strlit("canSetStickerSet");
        reveal_strlit("canSetUsername");
        reveal_strlit("canViewStatistics");
        reveal_strlit("description");
        reveal_strlit("inviteLink");
        reveal_strlit("isAllHistoryAvailable");
        reveal_strlit("linkedChatId");
        reveal_strlit("location");
        reveal_strlit("memberCount");
        reveal_strlit("restrictedCount");
        reveal_strlit("slowModeDelay");
        reveal_strlit("slowModeDelayExpiresIn");
        reveal_strlit("stickerSetId");
        reveal_strlit("upgradedFromBasicGroupId");
        reveal_strlit("upgradedFromMaxMessageId");
        assert("@type"@.len() == 5);
        assert("administratorCount"@.len() == 18);
        assert("bannedCount"@.len() == 11 && "bannedCount"@[0] == 'b');
        assert("canGetMembers"@.len() == 13 && "canGetMembers"@[0] == 'c');
        assert("canSetLocation"@.len() == 14 && "canSetLocation"@[6] == 'L');
        assert("canSetStickerSet"@.len() == 16);
        assert("canSetUsername"@.len() == 14 && "canSetUsername"@[6] == 'U');
        assert("canViewStatistics"@.len() == 17);
        assert("description"@.len() == 11 && "description"@[0] == 'd');
        assert("inviteLink"@.len() == 10);
        assert("isAllHistoryAvailable"@.len() == 21);
        assert("linkedChatId"@.len() == 12 && "linkedChatId"@[0] == 'l');
        assert("location"@.len() == 8);
        assert("memberCount"@.len() == 11 && "memberCount"@[0] == 'm');
        assert("restrictedCount"@.len() == 15);
        assert("slowModeDelay"@.len() == 13 && "slowModeDelay"@[0] == 's');
        assert("slowModeDelayExpiresIn"@.len() == 22);
        assert("stickerSetId"@.len() == 12 && "stickerSetId"@[0] == 's');
        assert("upgradedFromBasicGroupId"@.len() == 24 && "upgradedFromBasicGroupId"@[12] == 'B');
        assert("upgradedFromMaxMessageId"@.len() == 24 && "upgradedFromMaxMessageId"@[12] == 'M');
        self.description.round_trip("description"@);
        self.member_count.round_trip("memberCount"@);
        self.administrator_count.round_trip("administratorCount"@);
        self.restricted_count.round_trip("restrictedCount"@);
        self.banned_count.round_trip("bannedCount"@);
        self.linked_chat_id.round_trip("linkedChatId"@);
        self.slow_mode_delay.round_trip("slowModeDelay"@);
        self.slow_mode_delay_expires_in.round_trip("slowModeDelayExpiresIn"@);
        self.can_get_members.round_trip("canGetMembers"@);
        self.can_set_username.round_trip("canSetUsername"@);
        self.can_set_sticker_set.round_trip("canSetStickerSet"@);
        self.can_set_location.round_trip("canSetLocation"@);
        self.can_view_statistics.round_trip("canViewStatistics"@);
        self.is_all_history_available.round_trip("isAllHistoryAvailable"@);
        lemma_wide_round_trip(self.sticker_set_id, "stickerSetId"@);
        self.location.round_trip("location"@);
        self.invite_link.round_trip("inviteLink"@);
        self.upgraded_from_basic_group_id.round_trip("upgradedFromBasicGroupId"@);
        self.upgraded_from_max_message_id.round_trip("upgradedFromMaxMessageId"@);
        let m = self.wire()->Object_0;
        assert(field::<String>(m, "description"@) == Ok::<Doc, Fault>(self.description.wire()));
        assert(field::<i32>(m, "memberCount"@) == Ok::<Doc, Fault>(self.member_count.wire()));
        assert(field::<i32>(m, "administratorCount"@)
            == Ok::<Doc, Fault>(self.administrator_count.wire()));
        assert(field::<i32>(m, "restrictedCount"@)
            == Ok::<Doc, Fault>(self.restricted_count.wire()));
        assert(field::<i32>(m, "bannedCount"@) == Ok::<Doc, Fault>(self.banned_count.wire()));
        assert(field::<i64>(m, "linkedChatId"@) == Ok::<Doc, Fault>(self.linked_chat_id.wire()));
        assert(field::<i32>(m, "slowModeDelay"@) == Ok::<Doc, Fault>(self.slow_mode_delay.wire()));
        assert(field::<Number>(m, "slowModeDelayExpiresIn"@)
            == Ok::<Doc, Fault>(self.slow_mode_delay_expires_in.wire()));
        assert(field::<bool>(m, "canGetMembers"@) == Ok::<Doc, Fault>(self.can_get_members.wire()));
        assert(field::<bool>(m, "canSetUsername"@)
            == Ok::<Doc, Fault>(self.can_set_username.wire()));
        assert(field::<bool>(m, "canSetStickerSet"@)
            == Ok::<Doc, Fault>(self.can_set_sticker_set.wire()));
        assert(field::<bool>(m, "canSetLocation"@)
            == Ok::<Doc, Fault>(self.can_set_location.wire()));
        assert(field::<bool>(m, "canViewStatistics"@)
            == Ok::<Doc, Fault>(self.can_view_statistics.wire()));
        assert(field::<bool>(m, "isAllHistoryAvailable"@)
            == Ok::<Doc, Fault>(self.is_all_history_available.wire()));
        assert(wide_field(m, "stickerSetId"@) == Ok::<Doc, Fault>(wide_doc(self.sticker_set_id)));
        assert(optional_field::<ChatLocation>(m, "location"@)
            == Ok::<Doc, Fault>(self.location.wire()));
        assert(field::<String>(m, "inviteLink"@) == Ok::<Doc, Fault>(self.invite_link.wire()));
        assert(field::<i32>(m, "upgradedFromBasicGroupId"@)
            == Ok::<Doc, Fault>(self.upgraded_from_basic_group_id.wire()));
        assert(field::<i64>(m, "upgradedFromMaxMessageId"@)
            == Ok::<Doc, Fault>(self.upgraded_from_max_message_id.wire()));
    }
}

impl Tagged for SupergroupFullInfo {
    open spec fn known(tag: Seq<char>) -> bool {
        tag == "supergroupFullInfo"@
    }

    fn knows(tag: &str) -> (r: bool) {
        same_text(tag, "supergroupFullInfo")
    }

    proof fn tag_known(&self) {
        reveal(<SupergroupFullInfo as Wire>::wire);
        assert(tag_of(self.wire()) == Some("supergroupFullInfo"@));
        assert(Self::known("supergroupFullInfo"@));
    }
}

/// The secret chat is not yet created; waiting for the other user to get online
#[derive(Debug, Clone, PartialEq)]
pub struct SecretChatStatePending {}

impl Wire for SecretChatStatePending {
    #[verifier::opaque]
    open spec fn wire(&self) -> Doc {
        tagged(Map::empty(), "secretChatStatePending"@)
    }

    #[verifier::opaque]
    open spec fn parse(d: Doc, at: Seq<char>) -> Result<Doc, Fault> {
        match d {
            Doc::Object(_) => Ok(tagged(Map::empty(), "secretChatStatePending"@)),
            _ => Err(Fault::TypeMismatch(at)),
        }
    }

    fn encode(&self) -> (j: Json) {
        proof {
            reveal(<SecretChatStatePending as Wire>::wire);
        }
        seal(Vec::new(), "secretChatStatePending")
    }

    fn decode(j: &Json, at: &str) -> (r: Result<Self, DecodeError>) {
        proof {
            reveal(<SecretChatStatePending as Wire>::wire);
            reveal(<SecretChatStatePending as Wire>::parse);
        }
        let _ = members_of(j, at)?;
        Ok(SecretChatStatePending {})
    }

    proof fn round_trip(&self, at: Seq<char>) {
        reveal(<SecretChatStatePending as Wire>::wire);
        reveal(<SecretChatStatePending as Wire>::parse);
    }
}

impl Tagged for SecretChatStatePending {
    open spec fn known(tag: Seq<char>) -> bool {
        tag == "secretChatStatePending"@
    }

    fn knows(tag: &str) -> (r: bool) {
        same_text(tag, "secretChatStatePending")
    }

    proof fn tag_known(&self) {
        reveal(<SecretChatStatePending as Wire>::wire);
        assert(tag_of(self.wire()) == Some("secretChatStatePending"@));
        assert(Self::known("secretChatStatePending"@));
    }
}

/// The secret chat is ready to use
#[derive(Debug, Clone, PartialEq)]
pub struct SecretChatStateReady {}

impl Wire for SecretChatStateReady {
    #[verifier::opaque]
    open spec fn wire(&self) -> Doc {
        tagged(Map::empty(), "secretChatStateReady"@)
    }

    #[verifier::opaque]
    open spec fn parse(d: Doc, at: Seq<char>) -> Result<Doc, Fault> {
        match d {
            Doc::Object(_) => Ok(tagged(Map::empty(), "secretChatStateReady"@)),
            _ => Err(Fault::TypeMismatch(at)),
        }
    }

    fn encode(&self) -> (j: Json) {
        proof {
            reveal(<SecretChatStateReady as Wire>::wire);
        }
        seal(Vec::new(), "secretChatStateReady")
    }

    fn decode(j: &Json, at: &str) -> (r: Result<Self, DecodeError>) {
        proof {
            reveal(<SecretChatStateReady as Wire>::wire);
            reveal(<SecretChatStateReady as Wire>::parse);
        }
        let _ = members_of(j, at)?;
        Ok(SecretChatStateReady {})
    }

    proof fn round_trip(&self, at: Seq<char>) {
        reveal(<SecretChatStateReady as Wire>::wire);
        reveal(<SecretChatStateReady as Wire>::parse);
    }
}

impl Tagged for SecretChatStateReady {
    open spec fn known(tag: Seq<char>) -> bool {
        tag == "secretChatStateReady"@
    }

    fn knows(tag: &str) -> (r: bool) {
        same_text(tag, "secretChatStateReady")
    }

    proof fn tag_known(&self) {
        reveal(<SecretChatStateReady as Wire>::wire);
        assert(tag_of(self.wire()) == Some("secretChatStateReady"@));
        assert(Self::known("secretChatStateReady"@));
    }
}

/// The secret chat is closed
#[derive(Debug, Clone, PartialEq)]
pub struct SecretChatStateClosed {}

impl Wire for SecretChatStateClosed {
    #[verifier::opaque]
    open spec fn wire(&self) -> Doc {
        tagged(Map::empty(), "secretChatStateClosed"@)
    }

    #[verifier::opaque]
    open spec fn parse(d: Doc, at: Seq<char>) -> Result<Doc, Fault> {
        match d {
            Doc::Object(_) => Ok(tagged(Map::empty(), "secretChatStateClosed"@)),
            _ => Err(Fault::TypeMismatch(at)),
        }
    }

    fn encode(&self) -> (j: Json) {
        proof {
            reveal(<SecretChatStateClosed as Wire>::wire);
        }
        seal(Vec::new(), "secretChatStateClosed")
    }

    fn decode(j: &Json, at: &str) -> (r: Result<Self, DecodeError>) {
        proof {
            reveal(<SecretChatStateClosed as Wire>::wire);
            reveal(<SecretChatStateClosed as Wire>::parse);
        }
        let _ = members_of(j, at)?;
        Ok(SecretChatStateClosed {})
    }

    proof fn round_trip(&self, at: Seq<char>) {
        reveal(<SecretChatStateClosed as Wire>::wire);
        reveal(<SecretChatStateClosed as Wire>::parse);
    }
}

impl Tagged for SecretChatStateClosed {
    open spec fn known(tag: Seq<char>) -> bool {
        tag == "secretChatStateClosed"@
    }

    fn knows(tag: &str) -> (r: bool) {
        same_text(tag, "secretChatStateClosed")
    }

    proof fn tag_known(&self) {
        reveal(<SecretChatStateClosed as Wire>::wire);
        assert(tag_of(self.wire()) == Some("secretChatStateClosed"@));
        assert(Self::known("secretChatStateClosed"@));
    }
}

/// Describes the current secret chat state
#[derive(Debug, Clone, PartialEq)]
pub enum SecretChatState {
    SecretChatStatePending(SecretChatStatePending),
    SecretChatStateReady(SecretChatStateReady),
    SecretChatStateClosed(SecretChatStateClosed),
}

impl Wire for SecretChatState {
    #[verifier::opaque]
    open spec fn wire(&self) -> Doc {
        match self {
            Self::SecretChatStatePending(p) => p.wire(),
            Self::SecretChatStateReady(p) => p.wire(),
            Self::SecretChatStateClosed(p) => p.wire(),
        }
    }

    #[verifier::opaque]
    open spec fn parse(d: Doc, at: Seq<char>) -> Result<Doc, Fault> {
        match d {
            Doc::Object(_) => match tag_of(d) {
                Some(t) => if t == "secretChatStatePending"@ {
                    SecretChatStatePending::parse(d, at)
                } else if t == "secretChatStateReady"@ {
                    SecretChatStateReady::parse(d, at)
                } else if t == "secretChatStateClosed"@ {
                    SecretChatStateClosed::parse(d, at)
                } else {
                    Err(Fault::UnknownVariant(t))
                },
                None => Err(Fault::MissingDiscriminator),
            },
            _ => Err(Fault::TypeMismatch(at)),
        }
    }

    fn encode(&self) -> (j: Json) {
        proof {
            reveal(<SecretChatState as Wire>::wire);
        }
        match self {
            Self::SecretChatStatePending(p) => p.encode(),
            Self::SecretChatStateReady(p) => p.encode(),
            Self::SecretChatStateClosed(p) => p.encode(),
        }
    }

    fn decode(j: &Json, at: &str) -> (r: Result<Self, DecodeError>) {
        proof {
            reveal(<SecretChatState as Wire>::wire);
            reveal(<SecretChatState as Wire>::parse);
        }
        let members = members_of(j, at)?;
        let tag = discriminator(members)?;
        if same_text(tag, "secretChatStatePending") {
            Ok(Self::SecretChatStatePending(SecretChatStatePending::decode(j, at)?))
        } else if same_text(tag, "secretChatStateReady") {
            Ok(Self::SecretChatStateReady(SecretChatStateReady::decode(j, at)?))
        } else if same_text(tag, "secretChatStateClosed") {
            Ok(Self::SecretChatStateClosed(SecretChatStateClosed::decode(j, at)?))
        } else {
            Err(DecodeError::UnknownVariant(tag.to_owned()))
        }
    }

    proof fn round_trip(&self, at: Seq<char>) {
        reveal(<SecretChatState as Wire>::wire);
        reveal(<SecretChatState as Wire>::parse);
        reveal_strlit("secretChatStateClosed");
        reveal_strlit("secretChatStatePending");
        reveal_strlit("secretChatStateReady");
        assert("secretChatStateClosed"@.len() == 21);
        assert("secretChatStatePending"@.len() == 22);
        assert("secretChatStateReady"@.len() == 20);
        match self {
            Self::SecretChatStatePending(p) => {
                p.tag_known();
                p.round_trip(at);
            },
            Self::SecretChatStateReady(p) => {
                p.tag_known();
                p.round_trip(at);
            },
            Self::SecretChatStateClosed(p) => {
                p.tag_known();
                p.round_trip(at);
            },
        }
    }
}

impl Tagged for SecretChatState {
    open spec fn known(tag: Seq<char>) -> bool {
        ||| tag == "secretChatStatePending"@
        ||| tag == "secretChatStateReady"@
        ||| tag == "secretChatStateClosed"@
    }

    fn knows(tag: &str) -> (r: bool) {
        same_text(tag, "secretChatStatePending")
            || same_text(tag, "secretChatStateReady")
            || same_text(tag, "secretChatStateClosed")
    }

    proof fn tag_known(&self) {
        reveal(<SecretChatState as Wire>::wire);
        match self {
            Self::SecretChatStatePending(p) => p.tag_known(),
            Self::SecretChatStateReady(p) => p.tag_known(),
            Self::SecretChatStateClosed(p) => p.tag_known(),
        }
    }
}

impl Union for SecretChatState {
    proof fn unknown_rejected(d: Doc, at: Seq<char>) {
        reveal(<SecretChatState as Wire>::parse);
    }

    proof fn untagged_rejected(d: Doc, at: Seq<char>) {
        reveal(<SecretChatState as Wire>::parse);
    }
}

/// Represents a secret chat
#[derive(Debug, Clone, PartialEq)]
pub struct SecretChat {
    /// Secret chat identifier
    pub id: i32,
    /// Identifier of the chat partner
    pub user_id: i32,
    /// State of the secret chat
    pub state: SecretChatState,
    /// True, if the chat was created by the current user; otherwise false
    pub is_outbound: bool,
    /// Current message Time To Live setting (self-destruct timer) for the chat, in seconds
    pub ttl: i32,
    /// Hash of the currently used key for comparison with the hash of the chat partner's key. This
    /// is a string of 36 little-endian bytes, which must be split into groups of 2 bits, each
    /// denoting a pixel of one of 4 colors FFFFFF, D5E6F3, 2D5775, and 2F99C9. The pixels must be
    /// used to make a 12x12 square image filled from left to right, top to bottom. Alternatively,
    /// the first 32 bytes of the hash can be converted to the hexadecimal format and printed as 32
    /// 2-digit hex numbers
    pub key_hash: String,
    /// Secret chat layer; determines features supported by the other client. Video notes are
    /// supported if the layer >= 66; nested text entities and underline and strikethrough entities
    /// are supported if the layer >= 101
    pub layer: i32,
}

impl Wire for SecretChat {
    #[verifier::opaque]
    open spec fn wire(&self) -> Doc {
        tagged(
            Map::empty()
                .insert("id"@, self.id.wire())
                .insert("userId"@, self.user_id.wire())
                .insert("state"@, self.state.wire())
                .insert("isOutbound"@, self.is_outbound.wire())
                .insert("ttl"@, self.ttl.wire())
                .insert("keyHash"@, self.key_hash.wire())
                .insert("layer"@, self.layer.wire()),
            "secretChat"@,
        )
    }

    #[verifier::opaque]
    open spec fn parse(d: Doc, at: Seq<char>) -> Result<Doc, Fault> {
        match d {
            Doc::Object(m) => {
                let id = field::<i32>(m, "id"@);
                let user_id = field::<i32>(m, "userId"@);
                let state = field::<SecretChatState>(m, "state"@);
                let is_outbound = field::<bool>(m, "isOutbound"@);
                let ttl = field::<i32>(m, "ttl"@);
                let key_hash = field::<String>(m, "keyHash"@);
                let layer = field::<i32>(m, "layer"@);
                if id is Err {
                    id
                } else if user_id is Err {
                    user_id
                } else if state is Err {
                    state
                } else if is_outbound is Err {
                    is_outbound
                } else if ttl is Err {
                    ttl
                } else if key_hash is Err {
                    key_hash
                } else if layer is Err {
                    layer
                } else {
                    Ok(
                        tagged(
                            Map::empty()
                                .insert("id"@, id->Ok_0)
                                .insert("userId"@, user_id->Ok_0)
                                .insert("state"@, state->Ok_0)
                                .insert("isOutbound"@, is_outbound->Ok_0)
                                .insert("ttl"@, ttl->Ok_0)
                                .insert("keyHash"@, key_hash->Ok_0)
                                .insert("layer"@, layer->Ok_0),
                            "secretChat"@,
                        ),
                    )
                }
            },
            _ => Err(Fault::TypeMismatch(at)),
        }
    }

    fn encode(&self) -> (j: Json) {
        proof {
            reveal(<SecretChat as Wire>::wire);
        }
        let mut members: Vec<Member> = Vec::new();
        put(&mut members, "id", self.id.encode());
        put(&mut members, "userId", self.user_id.encode());
        put(&mut members, "state", self.state.encode());
        put(&mut members, "isOutbound", self.is_outbound.encode());
        put(&mut members, "ttl", self.ttl.encode());
        put(&mut members, "keyHash", self.key_hash.encode());
        put(&mut members, "layer", self.layer.encode());
        seal(members, "secretChat")
    }

    fn decode(j: &Json, at: &str) -> (r: Result<Self, DecodeError>) {
        proof {
            reveal(<SecretChat as Wire>::wire);
            reveal(<SecretChat as Wire>::parse);
        }
        let members = members_of(j, at)?;
        let id = read_field::<i32>(members, "id")?;
        let user_id = read_field::<i32>(members, "userId")?;
        let state = read_field::<SecretChatState>(members, "state")?;
        let is_outbound = read_field::<bool>(members, "isOutbound")?;
        let ttl = read_field::<i32>(members, "ttl")?;
        let key_hash = read_field::<String>(members, "keyHash")?;
        let layer = read_field::<i32>(members, "layer")?;
        Ok(SecretChat { id, user_id, state, is_outbound, ttl, key_hash, layer })
    }

    proof fn round_trip(&self, at: Seq<char>) {
        reveal(<SecretChat as Wire>::wire);
        reveal(<SecretChat as Wire>::parse);
        reveal_strlit("@type");
        reveal_strlit("id");
        reveal_strlit("isOutbound");
        reveal_strlit("keyHash");
        reveal_strlit("layer");
        reveal_strlit("state");
        reveal_strlit("ttl");
        reveal_strlit("userId");
        assert("@type"@.len() == 5 && "@type"@[0] == '@');
        assert("id"@.len() == 2);
        assert("isOutbound"@.len() == 10);
        assert("keyHash"@.len() == 7);
        assert("layer"@.len() == 5 && "layer"@[0] == 'l');
        assert("state"@.len() == 5 && "state"@[0] == 's');
        assert("ttl"@.len() == 3);
        assert("userId"@.len() == 6);
        self.id.round_trip("id"@);
        self.user_id.round_trip("userId"@);
        self.state.round_trip("state"@);
        self.is_outbound.round_trip("isOutbound"@);
        self.ttl.round_trip("ttl"@);
        self.key_hash.round_trip("keyHash"@);
        self.layer.round_trip("layer"@);
    }
}

impl Tagged for SecretChat {
    open spec fn known(tag: Seq<char>) -> bool {
        tag == "secretChat"@
    }

    fn knows(tag: &str) -> (r: bool) {
        same_text(tag, "secretChat")
    }

    proof fn tag_known(&self) {
        reveal(<SecretChat as Wire>::wire);
        assert(tag_of(self.wire()) == Some("secretChat"@));
        assert(Self::known("secretChat"@));
    }
}

} // verus!
