//! Messages, chats, keyboards and reply markup.

use vstd::prelude::*;
use crate::codec::{
    discriminator, encode_wide, field, lemma_wide_round_trip, members_of, optional_field, put,
    read_field, read_optional, read_wide, seal, Tagged, Union, wide_doc, wide_field, Wire,
};
use crate::error::{DecodeError, Fault};
use crate::json::{Doc, Json, Member, Number, tag_of, tagged};
use crate::text::same_text;
use crate::types::{
    ChatPermissions, ChatPhoto, InputMessageContent, MessageContent, MessageSchedulingState,
};

verus! {

/// The message was originally written by a known user
#[derive(Debug, Clone, PartialEq)]
pub struct MessageForwardOriginUser {
    /// Identifier of the user that originally sent the message
    pub sender_user_id: i32,
}

impl Wire for MessageForwardOriginUser {
    #[verifier::opaque]
    open spec fn wire(&self) -> Doc {
        tagged(
            Map::empty()
                .insert("senderUserId"@, self.sender_user_id.wire()),
            "messageForwardOriginUser"@,
        )
    }

    #[verifier::opaque]
    open spec fn parse(d: Doc, at: Seq<char>) -> Result<Doc, Fault> {
        match d {
            Doc::Object(m) => {
                let sender_user_id = field::<i32>(m, "senderUserId"@);
                if sender_user_id is Err {
                    sender_user_id
                } else {
                    Ok(
                        tagged(
                            Map::empty()
                                .insert("senderUserId"@, sender_user_id->Ok_0),
                            "messageForwardOriginUser"@,
                        ),
                    )
                }
            },
            _ => Err(Fault::TypeMismatch(at)),
        }
    }

    fn encode(&self) -> (j: Json) {
        proof {
            reveal(<MessageForwardOriginUser as Wire>::wire);
        }
        let mut members: Vec<Member> = Vec::new();
        put(&mut members, "senderUserId", self.sender_user_id.encode());
        seal(members, "messageForwardOriginUser")
    }

    fn decode(j: &Json, at: &str) -> (r: Result<Self, DecodeError>) {
        proof {
            reveal(<MessageForwardOriginUser as Wire>::wire);
            reveal(<MessageForwardOriginUser as Wire>::parse);
        }
        let members = members_of(j, at)?;
        let sender_user_id = read_field::<i32>(members, "senderUserId")?;
        Ok(MessageForwardOriginUser { sender_user_id })
    }

    proof fn round_trip(&self, at: Seq<char>) {
        reveal(<MessageForwardOriginUser as Wire>::wire);
        reveal(<MessageForwardOriginUser as Wire>::parse);
        reveal_strlit("@type");
        reveal_strlit("senderUserId");
        assert("@type"@.len() == 5);
        assert("senderUserId"@.len() == 12);
        self.sender_user_id.round_trip("senderUserId"@);
    }
}

impl Tagged for MessageForwardOriginUser {
    open spec fn known(tag: Seq<char>) -> bool {
        tag == "messageForwardOriginUser"@
    }

    fn knows(tag: &str) -> (r: bool) {
        same_text(tag, "messageForwardOriginUser")
    }

    proof fn tag_known(&self) {
        reveal(<MessageForwardOriginUser as Wire>::wire);
        assert(tag_of(self.wire()) == Some("messageForwardOriginUser"@));
        assert(Self::known("messageForwardOriginUser"@));
    }
}

/// The message was originally written by a user, which is hidden by their privacy settings
#[derive(Debug, Clone, PartialEq)]
pub struct MessageForwardOriginHiddenUser {
    /// Name of the sender
    pub sender_name: String,
}

impl Wire for MessageForwardOriginHiddenUser {
    #[verifier::opaque]
    open spec fn wire(&self) -> Doc {
        tagged(
            Map::empty()
                .insert("senderName"@, self.sender_name.wire()),
            "messageForwardOriginHiddenUser"@,
        )
    }

    #[verifier::opaque]
    open spec fn parse(d: Doc, at: Seq<char>) -> Result<Doc, Fault> {
        match d {
            Doc::Object(m) => {
                let sender_name = field::<String>(m, "senderName"@);
                if sender_name is Err {
                    sender_name
                } else {
                    Ok(
                        tagged(
                            Map::empty()
                                .insert("senderName"@, sender_name->Ok_0),
                            "messageForwardOriginHiddenUser"@,
                        ),
                    )
                }
            },
            _ => Err(Fault::TypeMismatch(at)),
        }
    }

    fn encode(&self) -> (j: Json) {
        proof {
            reveal(<MessageForwardOriginHiddenUser as Wire>::wire);
        }
        let mut members: Vec<Member> = Vec::new();
        put(&mut members, "senderName", self.sender_name.encode());
        seal(members, "messageForwardOriginHiddenUser")
    }

    fn decode(j: &Json, at: &str) -> (r: Result<Self, DecodeError>) {
        proof {
            reveal(<MessageForwardOriginHiddenUser as Wire>::wire);
            reveal(<MessageForwardOriginHiddenUser as Wire>::parse);
        }
        let members = members_of(j, at)?;
        let sender_name = read_field::<String>(members, "senderName")?;
        Ok(MessageForwardOriginHiddenUser { sender_name })
    }

    proof fn round_trip(&self, at: Seq<char>) {
        reveal(<MessageForwardOriginHiddenUser as Wire>::wire);
        reveal(<MessageForwardOriginHiddenUser as Wire>::parse);
        reveal_strlit("@type");
        reveal_strlit("senderName");
        assert("@type"@.len() == 5);
        assert("senderName"@.len() == 10);
        self.sender_name.round_trip("senderName"@);
    }
}

impl Tagged for MessageForwardOriginHiddenUser {
    open spec fn known(tag: Seq<char>) -> bool {
        tag == "messageForwardOriginHiddenUser"@
    }

    fn knows(tag: &str) -> (r: bool) {
        same_text(tag, "messageForwardOriginHiddenUser")
    }

    proof fn tag_known(&self) {
        reveal(<MessageForwardOriginHiddenUser as Wire>::wire);
        assert(tag_of(self.wire()) == Some("messageForwardOriginHiddenUser"@));
        assert(Self::known("messageForwardOriginHiddenUser"@));
    }
}

/// The message was originally a post in a channel
#[derive(Debug, Clone, PartialEq)]
pub struct MessageForwardOriginChannel {
    /// Identifier of the chat from which the message was originally forwarded
    pub chat_id: i64,
    /// Message identifier of the original message; 0 if unknown
    pub message_id: i64,
    /// Original post author signature
    pub author_signature: String,
}

impl Wire for MessageForwardOriginChannel {
    #[verifier::opaque]
    open spec fn wire(&self) -> Doc {
        tagged(
            Map::empty()
                .insert("chatId"@, self.chat_id.wire())
                .insert("messageId"@, self.message_id.wire())
                .insert("authorSignature"@, self.author_signature.wire()),
            "messageForwardOriginChannel"@,
        )
    }

    #[verifier::opaque]
    open spec fn parse(d: Doc, at: Seq<char>) -> Result<Doc, Fault> {
        match d {
            Doc::Object(m) => {
                let chat_id = field::<i64>(m, "chatId"@);
                let message_id = field::<i64>(m, "messageId"@);
                let author_signature = field::<String>(m, "authorSignature"@);
                if chat_id is Err {
                    chat_id
                } else if message_id is Err {
                    message_id
                } else if author_signature is Err {
                    author_signature
                } else {
                    Ok(
                        tagged(
                            Map::empty()
                                .insert("chatId"@, chat_id->Ok_0)
                                .insert("messageId"@, message_id->Ok_0)
                                .insert("authorSignature"@, author_signature->Ok_0),
                            "messageForwardOriginChannel"@,
                        ),
                    )
                }
            },
            _ => Err(Fault::TypeMismatch(at)),
        }
    }

    fn encode(&self) -> (j: Json) {
        proof {
            reveal(<MessageForwardOriginChannel as Wire>::wire);
        }
        let mut members: Vec<Member> = Vec::new();
        put(&mut members, "chatId", self.chat_id.encode());
        put(&mut members, "messageId", self.message_id.encode());
        put(&mut members, "authorSignature", self.author_signature.encode());
        seal(members, "messageForwardOriginChannel")
    }

    fn decode(j: &Json, at: &str) -> (r: Result<Self, DecodeError>) {
        proof {
            reveal(<MessageForwardOriginChannel as Wire>::wire);
            reveal(<MessageForwardOriginChannel as Wire>::parse);
        }
        let members = members_of(j, at)?;
        let chat_id = read_field::<i64>(members, "chatId")?;
        let message_id = read_field::<i64>(members, "messageId")?;
        let author_signature = read_field::<String>(members, "authorSignature")?;
        Ok(MessageForwardOriginChannel { chat_id, message_id, author_signature })
    }

    proof fn round_trip(&self, at: Seq<char>) {
        reveal(<MessageForwardOriginChannel as Wire>::wire);
        reveal(<MessageForwardOriginChannel as Wire>::parse);
        reveal_strlit("@type");
        reveal_strlit("authorSignature");
        reveal_strlit("chatId");
        reveal_strlit("messageId");
        assert("@type"@.len() == 5);
        assert("authorSignature"@.len() == 15);
        assert("chatId"@.len() == 6);
        assert("messageId"@.len() == 9);
        self.chat_id.round_trip("chatId"@);
        self.message_id.round_trip("messageId"@);
        self.author_signature.round_trip("authorSignature"@);
    }
}

impl Tagged for MessageForwardOriginChannel {
    open spec fn known(tag: Seq<char>) -> bool {
        tag == "messageForwardOriginChannel"@
    }

    fn knows(tag: &str) -> (r: bool) {
        same_text(tag, "messageForwardOriginChannel")
    }

    proof fn tag_known(&self) {
        reveal(<MessageForwardOriginChannel as Wire>::wire);
        assert(tag_of(self.wire()) == Some("messageForwardOriginChannel"@));
        assert(Self::known("messageForwardOriginChannel"@));
    }
}

/// Contains information about the origin of a forwarded message
#[derive(Debug, Clone, PartialEq)]
pub enum MessageForwardOrigin {
    MessageForwardOriginUser(MessageForwardOriginUser),
    MessageForwardOriginHiddenUser(MessageForwardOriginHiddenUser),
    MessageForwardOriginChannel(MessageForwardOriginChannel),
}

impl Wire for MessageForwardOrigin {
    #[verifier::opaque]
    open spec fn wire(&self) -> Doc {
        match self {
            Self::MessageForwardOriginUser(p) => p.wire(),
            Self::MessageForwardOriginHiddenUser(p) => p.wire(),
            Self::MessageForwardOriginChannel(p) => p.wire(),
        }
    }

    #[verifier::opaque]
    open spec fn parse(d: Doc, at: Seq<char>) -> Result<Doc, Fault> {
        match d {
            Doc::Object(_) => match tag_of(d) {
                Some(t) => if t == "messageForwardOriginUser"@ {
                    MessageForwardOriginUser::parse(d, at)
                } else if t == "messageForwardOriginHiddenUser"@ {
                    MessageForwardOriginHiddenUser::parse(d, at)
                } else if t == "messageForwardOriginChannel"@ {
                    MessageForwardOriginChannel::parse(d, at)
                } else {
                    Err(Fault::UnknownVariant(t))
                },
                None => Err(Fault::MissingDiscriminator),
            },
            _ => Err(Fault::TypeMismatch(at)),
        }
    }

    fn encode(&self) -> (j: Json) {
        proof {
            reveal(<MessageForwardOrigin as Wire>::wire);
        }
        match self {
            Self::MessageForwardOriginUser(p) => p.encode(),
            Self::MessageForwardOriginHiddenUser(p) => p.encode(),
            Self::MessageForwardOriginChannel(p) => p.encode(),
        }
    }

    fn decode(j: &Json, at: &str) -> (r: Result<Self, DecodeError>) {
        proof {
            reveal(<MessageForwardOrigin as Wire>::wire);
            reveal(<MessageForwardOrigin as Wire>::parse);
        }
        let members = members_of(j, at)?;
        let tag = discriminator(members)?;
        if same_text(tag, "messageForwardOriginUser") {
            Ok(Self::MessageForwardOriginUser(MessageForwardOriginUser::decode(j, at)?))
        } else if same_text(tag, "messageForwardOriginHiddenUser") {
            Ok(Self::MessageForwardOriginHiddenUser(MessageForwardOriginHiddenUser::decode(j, at)?))
        } else if same_text(tag, "messageForwardOriginChannel") {
            Ok(Self::MessageForwardOriginChannel(MessageForwardOriginChannel::decode(j, at)?))
        } else {
            Err(DecodeError::UnknownVariant(tag.to_owned()))
        }
    }

    proof fn round_trip(&self, at: Seq<char>) {
        reveal(<MessageForwardOrigin as Wire>::wire);
        reveal(<MessageForwardOrigin as Wire>::parse);
        reveal_strlit("messageForwardOriginChannel");
        reveal_strlit("messageForwardOriginHiddenUser");
        reveal_strlit("messageForwardOriginUser");
        assert("messageForwardOriginChannel"@.len() == 27);
        assert("messageForwardOriginHiddenUser"@.len() == 30);
        assert("messageForwardOriginUser"@.len() == 24);
        match self {
            Self::MessageForwardOriginUser(p) => {
                p.tag_known();
                p.round_trip(at);
            },
            Self::MessageForwardOriginHiddenUser(p) => {
                p.tag_known();
                p.round_trip(at);
            },
            Self::MessageForwardOriginChannel(p) => {
                p.tag_known();
                p.round_trip(at);
            },
        }
    }
}

impl Tagged for MessageForwardOrigin {
    open spec fn known(tag: Seq<char>) -> bool {
        ||| tag == "messageForwardOriginUser"@
        ||| tag == "messageForwardOriginHiddenUser"@
        ||| tag == "messageForwardOriginChannel"@
    }

    fn knows(tag: &str) -> (r: bool) {
        same_text(tag, "messageForwardOriginUser")
            || same_text(tag, "messageForwardOriginHiddenUser")
            || same_text(tag, "messageForwardOriginChannel")
    }

    proof fn tag_known(&self) {
        reveal(<MessageForwardOrigin as Wire>::wire);
        match self {
            Self::MessageForwardOriginUser(p) => p.tag_known(),
            Self::MessageForwardOriginHiddenUser(p) => p.tag_known(),
            Self::MessageForwardOriginChannel(p) => p.tag_known(),
        }
    }
}

impl Union for MessageForwardOrigin {
    proof fn unknown_rejected(d: Doc, at: Seq<char>) {
        reveal(<MessageForwardOrigin as Wire>::parse);
    }

    proof fn untagged_rejected(d: Doc, at: Seq<char>) {
        reveal(<MessageForwardOrigin as Wire>::parse);
    }
}

/// Contains information about a forwarded message
#[derive(Debug, Clone, PartialEq)]
pub struct MessageForwardInfo {
    /// Origin of a forwarded message
    pub origin: MessageForwardOrigin,
    /// Point in time (Unix timestamp) when the message was originally sent
    pub date: i32,
    /// For messages forwarded to the chat with the current user (Saved Messages) or to the
    /// channel's discussion group, the identifier of the chat from which the message was forwarded
    /// last time; 0 if unknown
    pub from_chat_id: i64,
    /// For messages forwarded to the chat with the current user (Saved Messages) or to the
    /// channel's discussion group, the identifier of the original message from which the new
    /// message was forwarded last time; 0 if unknown
    pub from_message_id: i64,
}

impl Wire for MessageForwardInfo {
    #[verifier::opaque]
    open spec fn wire(&self) -> Doc {
        tagged(
            Map::empty()
                .insert("origin"@, self.origin.wire())
                .insert("date"@, self.date.wire())
                .insert("fromChatId"@, self.from_chat_id.wire())
                .insert("fromMessageId"@, self.from_message_id.wire()),
            "messageForwardInfo"@,
        )
    }

    #[verifier::opaque]
    open spec fn parse(d: Doc, at: Seq<char>) -> Result<Doc, Fault> {
        match d {
            Doc::Object(m) => {
                let origin = field::<MessageForwardOrigin>(m, "origin"@);
                let date = field::<i32>(m, "date"@);
                let from_chat_id = field::<i64>(m, "fromChatId"@);
                let from_message_id = field::<i64>(m, "fromMessageId"@);
                if origin is Err {
                    origin
                } else if date is Err {
                    date
                } else if from_chat_id is Err {
                    from_chat_id
                } else if from_message_id is Err {
                    from_message_id
                } else {
                    Ok(
                        tagged(
                            Map::empty()
                                .insert("origin"@, origin->Ok_0)
                                .insert("date"@, date->Ok_0)
                                .insert("fromChatId"@, from_chat_id->Ok_0)
                                .insert("fromMessageId"@, from_message_id->Ok_0),
                            "messageForwardInfo"@,
                        ),
                    )
                }
            },
            _ => Err(Fault::TypeMismatch(at)),
        }
    }

    fn encode(&self) -> (j: Json) {
        proof {
            reveal(<MessageForwardInfo as Wire>::wire);
        }
        let mut members: Vec<Member> = Vec::new();
        put(&mut members, "origin", self.origin.encode());
        put(&mut members, "date", self.date.encode());
        put(&mut members, "fromChatId", self.from_chat_id.encode());
        put(&mut members, "fromMessageId", self.from_message_id.encode());
        seal(members, "messageForwardInfo")
    }

    fn decode(j: &Json, at: &str) -> (r: Result<Self, DecodeError>) {
        proof {
            reveal(<MessageForwardInfo as Wire>::wire);
            reveal(<MessageForwardInfo as Wire>::parse);
        }
        let members = members_of(j, at)?;
        let origin = read_field::<MessageForwardOrigin>(members, "origin")?;
        let date = read_field::<i32>(members, "date")?;
        let from_chat_id = read_field::<i64>(members, "fromChatId")?;
        let from_message_id = read_field::<i64>(members, "fromMessageId")?;
        Ok(MessageForwardInfo { origin, date, from_chat_id, from_message_id })
    }

    proof fn round_trip(&self, at: Seq<char>) {
        reveal(<MessageForwardInfo as Wire>::wire);
        reveal(<MessageForwardInfo as Wire>::parse);
        reveal_strlit("@type");
        reveal_strlit("date");
        reveal_strlit("fromChatId");
        reveal_strlit("fromMessageId");
        reveal_strlit("origin");
        assert("@type"@.len() == 5);
        assert("date"@.len() == 4);
        assert("fromChatId"@.len() == 10);
        assert("fromMessageId"@.len() == 13);
        assert("origin"@.len() == 6);
        self.origin.round_trip("origin"@);
        self.date.round_trip("date"@);
        self.from_chat_id.round_trip("fromChatId"@);
        self.from_message_id.round_trip("fromMessageId"@);
    }
}

impl Tagged for MessageForwardInfo {
    open spec fn known(tag: Seq<char>) -> bool {
        tag == "messageForwardInfo"@
    }

    fn knows(tag: &str) -> (r: bool) {
        same_text(tag, "messageForwardInfo")
    }

    proof fn tag_known(&self) {
        reveal(<MessageForwardInfo as Wire>::wire);
        assert(tag_of(self.wire()) == Some("messageForwardInfo"@));
        assert(Self::known("messageForwardInfo"@));
    }
}

/// The message is being sent now, but has not yet been delivered to the server
#[derive(Debug, Clone, PartialEq)]
pub struct MessageSendingStatePending {}

impl Wire for MessageSendingStatePending {
    #[verifier::opaque]
    open spec fn wire(&self) -> Doc {
        tagged(Map::empty(), "messageSendingStatePending"@)
    }

    #[verifier::opaque]
    open spec fn parse(d: Doc, at: Seq<char>) -> Result<Doc, Fault> {
        match d {
            Doc::Object(_) => Ok(tagged(Map::empty(), "messageSendingStatePending"@)),
            _ => Err(Fault::TypeMismatch(at)),
        }
    }

    fn encode(&self) -> (j: Json) {
        proof {
            reveal(<MessageSendingStatePending as Wire>::wire);
        }
        seal(Vec::new(), "messageSendingStatePending")
    }

    fn decode(j: &Json, at: &str) -> (r: Result<Self, DecodeError>) {
        proof {
            reveal(<MessageSendingStatePending as Wire>::wire);
            reveal(<MessageSendingStatePending as Wire>::parse);
        }
        let _ = members_of(j, at)?;
        Ok(MessageSendingStatePending {})
    }

    proof fn round_trip(&self, at: Seq<char>) {
        reveal(<MessageSendingStatePending as Wire>::wire);
        reveal(<MessageSendingStatePending as Wire>::parse);
    }
}

impl Tagged for MessageSendingStatePending {
    open spec fn known(tag: Seq<char>) -> bool {
        tag == "messageSendingStatePending"@
    }

    fn knows(tag: &str) -> (r: bool) {
        same_text(tag, "messageSendingStatePending")
    }

    proof fn tag_known(&self) {
        reveal(<MessageSendingStatePending as Wire>::wire);
        assert(tag_of(self.wire()) == Some("messageSendingStatePending"@));
        assert(Self::known("messageSendingStatePending"@));
    }
}

/// The message failed to be sent
#[derive(Debug, Clone, PartialEq)]
pub struct MessageSendingStateFailed {
    /// An error code; 0 if unknown
    pub error_code: i32,
    /// Error message
    pub error_message: String,
    /// True, if the message can be re-sent
    pub can_retry: bool,
    /// Time left before the message can be re-sent, in seconds. No update is sent when this field
    /// changes
    pub retry_after: Number,
}

impl Wire for MessageSendingStateFailed {
    #[verifier::opaque]
    open spec fn wire(&self) -> Doc {
        tagged(
            Map::empty()
                .insert("errorCode"@, self.error_code.wire())
                .insert("errorMessage"@, self.error_message.wire())
                .insert("canRetry"@, self.can_retry.wire())
                .insert("retryAfter"@, self.retry_after.wire()),
            "messageSendingStateFailed"@,
        )
    }

    #[verifier::opaque]
    open spec fn parse(d: Doc, at: Seq<char>) -> Result<Doc, Fault> {
        match d {
            Doc::Object(m) => {
                let error_code = field::<i32>(m, "errorCode"@);
                let error_message = field::<String>(m, "errorMessage"@);
                let can_retry = field::<bool>(m, "canRetry"@);
                let retry_after = field::<Number>(m, "retryAfter"@);
                if error_code is Err {
                    error_code
                } else if error_message is Err {
                    error_message
                } else if can_retry is Err {
                    can_retry
                } else if retry_after is Err {
                    retry_after
                } else {
                    Ok(
                        tagged(
                            Map::empty()
                                .insert("errorCode"@, error_code->Ok_0)
                                .insert("errorMessage"@, error_message->Ok_0)
                                .insert("canRetry"@, can_retry->Ok_0)
                                .insert("retryAfter"@, retry_after->Ok_0),
                            "messageSendingStateFailed"@,
                        ),
                    )
                }
            },
            _ => Err(Fault::TypeMismatch(at)),
        }
    }

    fn encode(&self) -> (j: Json) {
        proof {
            reveal(<MessageSendingStateFailed as Wire>::wire);
        }
        let mut members: Vec<Member> = Vec::new();
        put(&mut members, "errorCode", self.error_code.encode());
        put(&mut members, "errorMessage", self.error_message.encode());
        put(&mut members, "canRetry", self.can_retry.encode());
        put(&mut members, "retryAfter", self.retry_after.encode());
        seal(members, "messageSendingStateFailed")
    }

    fn decode(j: &Json, at: &str) -> (r: Result<Self, DecodeError>) {
        proof {
            reveal(<MessageSendingStateFailed as Wire>::wire);
            reveal(<MessageSendingStateFailed as Wire>::parse);
        }
        let members = members_of(j, at)?;
        let error_code = read_field::<i32>(members, "errorCode")?;
        let error_message = read_field::<String>(members, "errorMessage")?;
        let can_retry = read_field::<bool>(members, "canRetry")?;
        let retry_after = read_field::<Number>(members, "retryAfter")?;
        Ok(MessageSendingStateFailed { error_code, error_message, can_retry, retry_after })
    }

    proof fn round_trip(&self, at: Seq<char>) {
        reveal(<MessageSendingStateFailed as Wire>::wire);
        reveal(<MessageSendingStateFailed as Wire>::parse);
        reveal_strlit("@type");
        reveal_strlit("canRetry");
        reveal_strlit("errorCode");
        reveal_strlit("errorMessage");
        reveal_strlit("retryAfter");
        assert("@type"@.len() == 5);
        assert("canRetry"@.len() == 8);
        assert("errorCode"@.len() == 9);
        assert("errorMessage"@.len() == 12);
        assert("retryAfter"@.len() == 10);
        self.error_code.round_trip("errorCode"@);
        self.error_message.round_trip("errorMessage"@);
        self.can_retry.round_trip("canRetry"@);
        self.retry_after.round_trip("retryAfter"@);
    }
}

impl Tagged for MessageSendingStateFailed {
    open spec fn known(tag: Seq<char>) -> bool {
        tag == "messageSendingStateFailed"@
    }

    fn knows(tag: &str) -> (r: bool) {
        same_text(tag, "messageSendingStateFailed")
    }

    proof fn tag_known(&self) {
        reveal(<MessageSendingStateFailed as Wire>::wire);
        assert(tag_of(self.wire()) == Some("messageSendingStateFailed"@));
        assert(Self::known("messageSendingStateFailed"@));
    }
}

/// Contains information about the sending state of the message
#[derive(Debug, Clone, PartialEq)]
pub enum MessageSendingState {
    MessageSendingStatePending(MessageSendingStatePending),
    MessageSendingStateFailed(MessageSendingStateFailed),
}

impl Wire for MessageSendingState {
    #[verifier::opaque]
    open spec fn wire(&self) -> Doc {
        match self {
            Self::MessageSendingStatePending(p) => p.wire(),
            Self::MessageSendingStateFailed(p) => p.wire(),
        }
    }

    #[verifier::opaque]
    open spec fn parse(d: Doc, at: Seq<char>) -> Result<Doc, Fault> {
        match d {
            Doc::Object(_) => match tag_of(d) {
                Some(t) => if t == "messageSendingStatePending"@ {
                    MessageSendingStatePending::parse(d, at)
                } else if t == "messageSendingStateFailed"@ {
                    MessageSendingStateFailed::parse(d, at)
                } else {
                    Err(Fault::UnknownVariant(t))
                },
                None => Err(Fault::MissingDiscriminator),
            },
            _ => Err(Fault::TypeMismatch(at)),
        }
    }

    fn encode(&self) -> (j: Json) {
        proof {
            reveal(<MessageSendingState as Wire>::wire);
        }
        match self {
            Self::MessageSendingStatePending(p) => p.encode(),
            Self::MessageSendingStateFailed(p) => p.encode(),
        }
    }

    fn decode(j: &Json, at: &str) -> (r: Result<Self, DecodeError>) {
        proof {
            reveal(<MessageSendingState as Wire>::wire);
            reveal(<MessageSendingState as Wire>::parse);
        }
        let members = members_of(j, at)?;
        let tag = discriminator(members)?;
        if same_text(tag, "messageSendingStatePending") {
            Ok(Self::MessageSendingStatePending(MessageSendingStatePending::decode(j, at)?))
        } else if same_text(tag, "messageSendingStateFailed") {
            Ok(Self::MessageSendingStateFailed(MessageSendingStateFailed::decode(j, at)?))
        } else {
            Err(DecodeError::UnknownVariant(tag.to_owned()))
        }
    }

    proof fn round_trip(&self, at: Seq<char>) {
        reveal(<MessageSendingState as Wire>::wire);
        reveal(<MessageSendingState as Wire>::parse);
        reveal_strlit("messageSendingStateFailed");
        reveal_strlit("messageSendingStatePending");
        assert("messageSendingStateFailed"@.len() == 25);
        assert("messageSendingStatePending"@.len() == 26);
        match self {
            Self::MessageSendingStatePending(p) => {
                p.tag_known();
                p.round_trip(at);
            },
            Self::MessageSendingStateFailed(p) => {
                p.tag_known();
                p.round_trip(at);
            },
        }
    }
}

impl Tagged for MessageSendingState {
    open spec fn known(tag: Seq<char>) -> bool {
        ||| tag == "messageSendingStatePending"@
        ||| tag == "messageSendingStateFailed"@
    }

    fn knows(tag: &str) -> (r: bool) {
        same_text(tag, "messageSendingStatePending")
            || same_text(tag, "messageSendingStateFailed")
    }

    proof fn tag_known(&self) {
        reveal(<MessageSendingState as Wire>::wire);
        match self {
            Self::MessageSendingStatePending(p) => p.tag_known(),
            Self::MessageSendingStateFailed(p) => p.tag_known(),
        }
    }
}

impl Union for MessageSendingState {
    proof fn unknown_rejected(d: Doc, at: Seq<char>) {
        reveal(<MessageSendingState as Wire>::parse);
    }

    proof fn untagged_rejected(d: Doc, at: Seq<char>) {
        reveal(<MessageSendingState as Wire>::parse);
    }
}

/// Describes a message
#[derive(Debug, Clone, PartialEq)]
pub struct Message {
    /// Message identifier, unique for the chat to which the message belongs
    pub id: i64,
    /// Identifier of the user who sent the message; 0 if unknown. Currently, it is unknown for
    /// channel posts and for channel posts automatically forwarded to discussion group
    pub sender_user_id: i32,
    /// Chat identifier
    pub chat_id: i64,
    /// Information about the sending state of the message; may be null
    pub sending_state: Option<MessageSendingState>,
    /// Information about the scheduling state of the message; may be null
    pub scheduling_state: Option<MessageSchedulingState>,
    /// True, if the message is outgoing
    pub is_outgoing: bool,
    /// True, if the message can be edited. For live location and poll messages this fields shows
    /// whether editMessageLiveLocation or stopPoll can be used with this message by the client
    pub can_be_edited: bool,
    /// True, if the message can be forwarded
    pub can_be_forwarded: bool,
    /// True, if the message can be deleted only for the current user while other users will
    /// continue to see it
    pub can_be_deleted_only_for_self: bool,
    /// True, if the message can be deleted for all users
    pub can_be_deleted_for_all_users: bool,
    /// True, if the message is a channel post. All messages to channels are channel posts, all
    /// other messages are not channel posts
    pub is_channel_post: bool,
    /// True, if the message contains an unread mention for the current user
    pub contains_unread_mention: bool,
    /// Point in time (Unix timestamp) when the message was sent
    pub date: i32,
    /// Point in time (Unix timestamp) when the message was last edited
    pub edit_date: i32,
    /// Information about the initial message sender; may be null
    pub forward_info: Option<MessageForwardInfo>,
    /// If non-zero, the identifier of the message this message is replying to; can be the
    /// identifier of a deleted message
    pub reply_to_message_id: i64,
    /// For self-destructing messages, the message's TTL (Time To Live), in seconds; 0 if none.
    /// TDLib will send updateDeleteMessages or updateMessageContent once the TTL expires
    pub ttl: i32,
    /// Time left before the message expires, in seconds
    pub ttl_expires_in: Number,
    /// If non-zero, the user identifier of the bot through which this message was sent
    pub via_bot_user_id: i32,
    /// For channel posts, optional author signature
    pub author_signature: String,
    /// Number of times this message was viewed
    pub views: i32,
    /// Unique identifier of an album this message belongs to. Only photos and videos can be grouped
    /// together in albums
    pub media_album_id: i64,
    /// If non-empty, contains a human-readable description of the reason why access to this message
    /// must be restricted
    pub restriction_reason: String,
    /// Content of the message
    pub content: MessageContent,
    /// Reply markup for the message; may be null
    pub reply_markup: Option<ReplyMarkup>,
}

impl Wire for Message {
    #[verifier::opaque]
    open spec fn wire(&self) -> Doc {
        tagged(
            Map::empty()
                .insert("id"@, self.id.wire())
                .insert("senderUserId"@, self.sender_user_id.wire())
                .insert("chatId"@, self.chat_id.wire())
                .insert("sendingState"@, self.sending_state.wire())
                .insert("schedulingState"@, self.scheduling_state.wire())
                .insert("isOutgoing"@, self.is_outgoing.wire())
                .insert("canBeEdited"@, self.can_be_edited.wire())
                .insert("canBeForwarded"@, self.can_be_forwarded.wire())
                .insert("canBeDeletedOnlyForSelf"@, self.can_be_deleted_only_for_self.wire())
                .insert("canBeDeletedForAllUsers"@, self.can_be_deleted_for_all_users.wire())
                .insert("isChannelPost"@, self.is_channel_post.wire())
                .insert("containsUnreadMention"@, self.contains_unread_mention.wire())
                .insert("date"@, self.date.wire())
                .insert("editDate"@, self.edit_date.wire())
                .insert("forwardInfo"@, self.forward_info.wire())
                .insert("replyToMessageId"@, self.reply_to_message_id.wire())
                .insert("ttl"@, self.ttl.wire())
                .insert("ttlExpiresIn"@, self.ttl_expires_in.wire())
                .insert("viaBotUserId"@, self.via_bot_user_id.wire())
                .insert("authorSignature"@, self.author_signature.wire())
                .insert("views"@, self.views.wire())
                .insert("mediaAlbumId"@, wide_doc(self.media_album_id))
                .insert("restrictionReason"@, self.restriction_reason.wire())
                .insert("content"@, self.content.wire())
                .insert("replyMarkup"@, self.reply_markup.wire()),
            "message"@,
        )
    }

    #[verifier::opaque]
    open spec fn parse(d: Doc, at: Seq<char>) -> Result<Doc, Fault> {
        match d {
            Doc::Object(m) => {
                let id = field::<i64>(m, "id"@);
                let sender_user_id = field::<i32>(m, "senderUserId"@);
                let chat_id = field::<i64>(m, "chatId"@);
                let sending_state = optional_field::<MessageSendingState>(m, "sendingState"@);
                let scheduling_state = optional_field::<MessageSchedulingState>(
                    m,
                    "schedulingState"@,
                );
                let is_outgoing = field::<bool>(m, "isOutgoing"@);
                let can_be_edited = field::<bool>(m, "canBeEdited"@);
                let can_be_forwarded = field::<bool>(m, "canBeForwarded"@);
                let can_be_deleted_only_for_self = field::<bool>(m, "canBeDeletedOnlyForSelf"@);
                let can_be_deleted_for_all_users = field::<bool>(m, "canBeDeletedForAllUsers"@);
                let is_channel_post = field::<bool>(m, "isChannelPost"@);
                let contains_unread_mention = field::<bool>(m, "containsUnreadMention"@);
                let date = field::<i32>(m, "date"@);
                let edit_date = field::<i32>(m, "editDate"@);
                let forward_info = optional_field::<MessageForwardInfo>(m, "forwardInfo"@);
                let reply_to_message_id = field::<i64>(m, "replyToMessageId"@);
                let ttl = field::<i32>(m, "ttl"@);
                let ttl_expires_in = field::<Number>(m, "ttlExpiresIn"@);
                let via_bot_user_id = field::<i32>(m, "viaBotUserId"@);
                let author_signature = field::<String>(m, "authorSignature"@);
                let views = field::<i32>(m, "views"@);
                let media_album_id = wide_field(m, "mediaAlbumId"@);
                let restriction_reason = field::<String>(m, "restrictionReason"@);
                let content = field::<MessageContent>(m, "content"@);
                let reply_markup = optional_field::<ReplyMarkup>(m, "replyMarkup"@);
                if id is Err {
                    id
                } else if sender_user_id is Err {
                    sender_user_id
                } else if chat_id is Err {
                    chat_id
                } else if sending_state is Err {
                    sending_state
                } else if scheduling_state is Err {
                    scheduling_state
                } else if is_outgoing is Err {
                    is_outgoing
                } else if can_be_edited is Err {
                    can_be_edited
                } else if can_be_forwarded is Err {
                    can_be_forwarded
                } else if can_be_deleted_only_for_self is Err {
                    can_be_deleted_only_for_self
                } else if can_be_deleted_for_all_users is Err {
                    can_be_deleted_for_all_users
                } else if is_channel_post is Err {
                    is_channel_post
                } else if contains_unread_mention is Err {
                    contains_unread_mention
                } else if date is Err {
                    date
                } else if edit_date is Err {
                    edit_date
                } else if forward_info is Err {
                    forward_info
                } else if reply_to_message_id is Err {
                    reply_to_message_id
                } else if ttl is Err {
                    ttl
                } else if ttl_expires_in is Err {
                    ttl_expires_in
                } else if via_bot_user_id is Err {
                    via_bot_user_id
                } else if author_signature is Err {
                    author_signature
                } else if views is Err {
                    views
                } else if media_album_id is Err {
                    media_album_id
                } else if restriction_reason is Err {
                    restriction_reason
                } else if content is Err {
                    content
                } else if reply_markup is Err {
                    reply_markup
                } else {
                    Ok(
                        tagged(
                            Map::empty()
                                .insert("id"@, id->Ok_0)
                                .insert("senderUserId"@, sender_user_id->Ok_0)
                                .insert("chatId"@, chat_id->Ok_0)
                                .insert("sendingState"@, sending_state->Ok_0)
                                .insert("schedulingState"@, scheduling_state->Ok_0)
                                .insert("isOutgoing"@, is_outgoing->Ok_0)
                                .insert("canBeEdited"@, can_be_edited->Ok_0)
                                .insert("canBeForwarded"@, can_be_forwarded->Ok_0)
                                .insert(
                                    "canBeDeletedOnlyForSelf"@,
                                    can_be_deleted_only_for_self->Ok_0,
                                )
                                .insert(
                                    "canBeDeletedForAllUsers"@,
                                    can_be_deleted_for_all_users->Ok_0,
                                )
                                .insert("isChannelPost"@, is_channel_post->Ok_0)
                                .insert("containsUnreadMention"@, contains_unread_mention->Ok_0)
                                .insert("date"@, date->Ok_0)
                                .insert("editDate"@, edit_date->Ok_0)
                                .insert("forwardInfo"@, forward_info->Ok_0)
                                .insert("replyToMessageId"@, reply_to_message_id->Ok_0)
                                .insert("ttl"@, ttl->Ok_0)
                                .insert("ttlExpiresIn"@, ttl_expires_in->Ok_0)
                                .insert("viaBotUserId"@, via_bot_user_id->Ok_0)
                                .insert("authorSignature"@, author_signature->Ok_0)
                                .insert("views"@, views->Ok_0)
                                .insert("mediaAlbumId"@, media_album_id->Ok_0)
                                .insert("restrictionReason"@, restriction_reason->Ok_0)
                                .insert("content"@, content->Ok_0)
                                .insert("replyMarkup"@, reply_markup->Ok_0),
                            "message"@,
                        ),
                    )
                }
            },
            _ => Err(Fault::TypeMismatch(at)),
        }
    }

    fn encode(&self) -> (j: Json) {
        proof {
            reveal(<Message as Wire>::wire);
        }
        let mut members: Vec<Member> = Vec::new();
        put(&mut members, "id", self.id.encode());
        put(&mut members, "senderUserId", self.sender_user_id.encode());
        put(&mut members, "chatId", self.chat_id.encode());
        put(&mut members, "sendingState", self.sending_state.encode());
        put(&mut members, "schedulingState", self.scheduling_state.encode());
        put(&mut members, "isOutgoing", self.is_outgoing.encode());
        put(&mut members, "canBeEdited", self.can_be_edited.encode());
        put(&mut members, "canBeForwarded", self.can_be_forwarded.encode());
        put(&mut members, "canBeDeletedOnlyForSelf", self.can_be_deleted_only_for_self.encode());
        put(&mut members, "canBeDeletedForAllUsers", self.can_be_deleted_for_all_users.encode());
        put(&mut members, "isChannelPost", self.is_channel_post.encode());
        put(&mut members, "containsUnreadMention", self.contains_unread_mention.encode());
        put(&mut members, "date", self.date.encode());
        put(&mut members, "editDate", self.edit_date.encode());
        put(&mut members, "forwardInfo", self.forward_info.encode());
        put(&mut members, "replyToMessageId", self.reply_to_message_id.encode());
        put(&mut members, "ttl", self.ttl.encode());
        put(&mut members, "ttlExpiresIn", self.ttl_expires_in.encode());
        put(&mut members, "viaBotUserId", self.via_bot_user_id.encode());
        put(&mut members, "authorSignature", self.author_signature.encode());
        put(&mut members, "views", self.views.encode());
        put(&mut members, "mediaAlbumId", encode_wide(self.media_album_id));
        put(&mut members, "restrictionReason", self.restriction_reason.encode());
        put(&mut members, "content", self.content.encode());
        put(&mut members, "replyMarkup", self.reply_markup.encode());
        seal(members, "message")
    }

    fn decode(j: &Json, at: &str) -> (r: Result<Self, DecodeError>) {
        proof {
            reveal(<Message as Wire>::wire);
            reveal(<Message as Wire>::parse);
        }
        let members = members_of(j, at)?;
        let id = read_field::<i64>(members, "id")?;
        let sender_user_id = read_field::<i32>(members, "senderUserId")?;
        let chat_id = read_field::<i64>(members, "chatId")?;
        let sending_state = read_optional::<MessageSendingState>(members, "sendingState")?;
        let scheduling_state = read_optional::<MessageSchedulingState>(members, "schedulingState")?;
        let is_outgoing = read_field::<bool>(members, "isOutgoing")?;
        let can_be_edited = read_field::<bool>(members, "canBeEdited")?;
        let can_be_forwarded = read_field::<bool>(members, "canBeForwarded")?;
        let can_be_deleted_only_for_self = read_field::<bool>(members, "canBeDeletedOnlyForSelf")?;
        let can_be_deleted_for_all_users = read_field::<bool>(members, "canBeDeletedForAllUsers")?;
        let is_channel_post = read_field::<bool>(members, "isChannelPost")?;
        let contains_unread_mention = read_field::<bool>(members, "containsUnreadMention")?;
        let date = read_field::<i32>(members, "date")?;
        let edit_date = read_field::<i32>(members, "editDate")?;
        let forward_info = read_optional::<MessageForwardInfo>(members, "forwardInfo")?;
        let reply_to_message_id = read_field::<i64>(members, "replyToMessageId")?;
        let ttl = read_field::<i32>(members, "ttl")?;
        let ttl_expires_in = read_field::<Number>(members, "ttlExpiresIn")?;
        let via_bot_user_id = read_field::<i32>(members, "viaBotUserId")?;
        let author_signature = read_field::<String>(members, "authorSignature")?;
        let views = read_field::<i32>(members, "views")?;
        let media_album_id = read_wide(members, "mediaAlbumId")?;
        let restriction_reason = read_field::<String>(members, "restrictionReason")?;
        let content = read_field::<MessageContent>(members, "content")?;
        let reply_markup = read_optional::<ReplyMarkup>(members, "replyMarkup")?;
        Ok(Message {
            id,
            sender_user_id,
            chat_id,
            sending_state,
            scheduling_state,
            is_outgoing,
            can_be_edited,
            can_be_forwarded,
            can_be_deleted_only_for_self,
            can_be_deleted_for_all_users,
            is_channel_post,
            contains_unread_mention,
            date,
            edit_date,
            forward_info,
            reply_to_message_id,
            ttl,
            ttl_expires_in,
            via_bot_user_id,
            author_signature,
            views,
            media_album_id,
            restriction_reason,
            content,
            reply_markup,
        })
    }

    #[verifier::rlimit(60)]
    proof fn round_trip(&self, at: Seq<char>) {
        reveal(<Message as Wire>::wire);
        reveal(<Message as Wire>::parse);
        reveal_strlit("@type");
        reveal_strlit("authorSignature");
        reveal_strlit("canBeDeletedForAllUsers");
        reveal_strlit("canBeDeletedOnlyForSelf");
        reveal_strlit("canBeEdited");
        reveal_strlit("canBeForwarded");
        reveal_strlit("chatId");
        reveal_strlit("containsUnreadMention");
        reveal_strlit("content");
        reveal_strlit("date");
        reveal_strlit("editDate");
        reveal_strlit("forwardInfo");
        reveal_strlit("id");
        reveal_strlit("isChannelPost");
        reveal_strlit("isOutgoing");
        reveal_strlit("mediaAlbumId");
        reveal_strlit("replyMarkup");
        reveal_strlit("replyToMessageId");
        reveal_strlit("restrictionReason");
        reveal_strlit("schedulingState");
        reveal_strlit("senderUserId");
        reveal_strlit("sendingState");
        reveal_strlit("ttl");
        reveal_strlit("ttlExpiresIn");
        reveal_strlit("viaBotUserId");
        reveal_strlit("views");
        assert("@type"@.len() == 5 && "@type"@[0] == '@');
        assert("authorSignature"@.len() == 15 && "authorSignature"@[0] == 'a');
        assert("canBeDeletedForAllUsers"@.len() == 23 && "canBeDeletedForAllUsers"@[12] == 'F');
        assert("canBeDeletedOnlyForSelf"@.len() == 23 && "canBeDeletedOnlyForSelf"@[12] == 'O');
        assert("canBeEdited"@.len() == 11 && "canBeEdited"@[0] == 'c');
        assert("canBeForwarded"@.len() == 14);
        assert("chatId"@.len() == 6);
        assert("containsUnreadMention"@.len() == 21);
        assert("content"@.len() == 7);
        assert("date"@.len() == 4);
        assert("editDate"@.len() == 8);
        assert("forwardInfo"@.len() == 11 && "forwardInfo"@[0] == 'f');
        assert("id"@.len() == 2);
        assert("isChannelPost"@.len() == 13);
        assert("isOutgoing"@.len() == 10);
        assert("mediaAlbumId"@.len() == 12 && "mediaAlbumId"@[4] == 'a');
        assert("replyMarkup"@.len() == 11 && "replyMarkup"@[0] == 'r');
        assert("replyToMessageId"@.len() == 16);
        assert("restrictionReason"@.len() == 17);
        assert("schedulingState"@.len() == 15 && "schedulingState"@[0] == 's');
        assert("senderUserId"@.len() == 12 && "senderUserId"@[4] == 'e');
        assert("sendingState"@.len() == 12 && "sendingState"@[4] == 'i');
        assert("ttl"@.len() == 3);
        assert("ttlExpiresIn"@.len() == 12 && "ttlExpiresIn"@[4] == 'x');
        assert("viaBotUserId"@.len() == 12 && "viaBotUserId"@[4] == 'o');
        assert("views"@.len() == 5 && "views"@[0] == 'v');
        self.id.round_trip("id"@);
        self.sender_user_id.round_trip("senderUserId"@);
        self.chat_id.round_trip("chatId"@);
        self.sending_state.round_trip("sendingState"@);
        self.scheduling_state.round_trip("schedulingState"@);
        self.is_outgoing.round_trip("isOutgoing"@);
        self.can_be_edited.round_trip("canBeEdited"@);
        self.can_be_forwarded.round_trip("canBeForwarded"@);
        self.can_be_deleted_only_for_self.round_trip("canBeDeletedOnlyForSelf"@);
        self.can_be_deleted_for_all_users.round_trip("canBeDeletedForAllUsers"@);
        self.is_channel_post.round_trip("isChannelPost"@);
        self.contains_unread_mention.round_trip("containsUnreadMention"@);
        self.date.round_trip("date"@);
        self.edit_date.round_trip("editDate"@);
        self.forward_info.round_trip("forwardInfo"@);
        self.reply_to_message_id.round_trip("replyToMessageId"@);
        self.ttl.round_trip("ttl"@);
        self.ttl_expires_in.round_trip("ttlExpiresIn"@);
        self.via_bot_user_id.round_trip("viaBotUserId"@);
        self.author_signature.round_trip("authorSignature"@);
        self.views.round_trip("views"@);
        lemma_wide_round_trip(self.media_album_id, "mediaAlbumId"@);
        self.restriction_reason.round_trip("restrictionReason"@);
        self.content.round_trip("content"@);
        self.reply_markup.round_trip("replyMarkup"@);
        let m = self.wire()->Object_0;
        assert(field::<i64>(m, "id"@) == Ok::<Doc, Fault>(self.id.wire()));
        assert(field::<i32>(m, "senderUserId"@) == Ok::<Doc, Fault>(self.sender_user_id.wire()));
        assert(field::<i64>(m, "chatId"@) == Ok::<Doc, Fault>(self.chat_id.wire()));
        assert(optional_field::<MessageSendingState>(m, "sendingState"@)
            == Ok::<Doc, Fault>(self.sending_state.wire()));
        assert(optional_field::<MessageSchedulingState>(m, "schedulingState"@)
            == Ok::<Doc, Fault>(self.scheduling_state.wire()));
        assert(field::<bool>(m, "isOutgoing"@) == Ok::<Doc, Fault>(self.is_outgoing.wire()));
        assert(field::<bool>(m, "canBeEdited"@) == Ok::<Doc, Fault>(self.can_be_edited.wire()));
        assert(field::<bool>(m, "canBeForwarded"@)
            == Ok::<Doc, Fault>(self.can_be_forwarded.wire()));
        assert(field::<bool>(m, "canBeDeletedOnlyForSelf"@)
            == Ok::<Doc, Fault>(self.can_be_deleted_only_for_self.wire()));
        assert(field::<bool>(m, "canBeDeletedForAllUsers"@)
            == Ok::<Doc, Fault>(self.can_be_deleted_for_all_users.wire()));
        assert(field::<bool>(m, "isChannelPost"@) == Ok::<Doc, Fault>(self.is_channel_post.wire()));
        assert(field::<bool>(m, "containsUnreadMention"@)
            == Ok::<Doc, Fault>(self.contains_unread_mention.wire()));
        assert(field::<i32>(m, "date"@) == Ok::<Doc, Fault>(self.date.wire()));
        assert(field::<i32>(m, "editDate"@) == Ok::<Doc, Fault>(self.edit_date.wire()));
        assert(optional_field::<MessageForwardInfo>(m, "forwardInfo"@)
            == Ok::<Doc, Fault>(self.forward_info.wire()));
        assert(field::<i64>(m, "replyToMessageId"@)
            == Ok::<Doc, Fault>(self.reply_to_message_id.wire()));
        assert(field::<i32>(m, "ttl"@) == Ok::<Doc, Fault>(self.ttl.wire()));
        assert(field::<Number>(m, "ttlExpiresIn"@) == Ok::<Doc, Fault>(self.ttl_expires_in.wire()));
        assert(field::<i32>(m, "viaBotUserId"@) == Ok::<Doc, Fault>(self.via_bot_user_id.wire()));
        assert(field::<String>(m, "authorSignature"@)
            == Ok::<Doc, Fault>(self.author_signature.wire()));
        assert(field::<i32>(m, "views"@) == Ok::<Doc, Fault>(self.views.wire()));
        assert(wide_field(m, "mediaAlbumId"@) == Ok::<Doc, Fault>(wide_doc(self.media_album_id)));
        assert(field::<String>(m, "restrictionReason"@)
            == Ok::<Doc, Fault>(self.restriction_reason.wire()));
        assert(field::<MessageContent>(m, "content"@) == Ok::<Doc, Fault>(self.content.wire()));
        assert(optional_field::<ReplyMarkup>(m, "replyMarkup"@)
            == Ok::<Doc, Fault>(self.reply_markup.wire()));
    }
}

impl Tagged for Message {
    open spec fn known(tag: Seq<char>) -> bool {
        tag == "message"@
    }

    fn knows(tag: &str) -> (r: bool) {
        same_text(tag, "message")
    }

    proof fn tag_known(&self) {
        reveal(<Message as Wire>::wire);
        assert(tag_of(self.wire()) == Some("message"@));
        assert(Self::known("message"@));
    }
}

/// Contains a list of messages
#[derive(Debug, Clone, PartialEq)]
pub struct Messages {
    /// Approximate total count of messages found
    pub total_count: i32,
    /// List of messages; messages may be null
    pub messages: Option<Vec<Message>>,
}

impl Wire for Messages {
    #[verifier::opaque]
    open spec fn wire(&self) -> Doc {
        tagged(
            Map::empty()
                .insert("totalCount"@, self.total_count.wire())
                .insert("messages"@, self.messages.wire()),
            "messages"@,
        )
    }

    #[verifier::opaque]
    open spec fn parse(d: Doc, at: Seq<char>) -> Result<Doc, Fault> {
        match d {
            Doc::Object(m) => {
                let total_count = field::<i32>(m, "totalCount"@);
                let messages = optional_field::<Vec<Message>>(m, "messages"@);
                if total_count is Err {
                    total_count
                } else if messages is Err {
                    messages
                } else {
                    Ok(
                        tagged(
                            Map::empty()
                                .insert("totalCount"@, total_count->Ok_0)
                                .insert("messages"@, messages->Ok_0),
                            "messages"@,
                        ),
                    )
                }
            },
            _ => Err(Fault::TypeMismatch(at)),
        }
    }

    fn encode(&self) -> (j: Json) {
        proof {
            reveal(<Messages as Wire>::wire);
        }
        let mut members: Vec<Member> = Vec::new();
        put(&mut members, "totalCount", self.total_count.encode());
        put(&mut members, "messages", self.messages.encode());
        seal(members, "messages")
    }

    fn decode(j: &Json, at: &str) -> (r: Result<Self, DecodeError>) {
        proof {
            reveal(<Messages as Wire>::wire);
            reveal(<Messages as Wire>::parse);
        }
        let members = members_of(j, at)?;
        let total_count = read_field::<i32>(members, "totalCount")?;
        let messages = read_optional::<Vec<Message>>(members, "messages")?;
        Ok(Messages { total_count, messages })
    }

    proof fn round_trip(&self, at: Seq<char>) {
        reveal(<Messages as Wire>::wire);
        reveal(<Messages as Wire>::parse);
        reveal_strlit("@type");
        reveal_strlit("messages");
        reveal_strlit("totalCount");
        assert("@type"@.len() == 5);
        assert("messages"@.len() == 8);
        assert("totalCount"@.len() == 10);
        self.total_count.round_trip("totalCount"@);
        self.messages.round_trip("messages"@);
    }
}

impl Tagged for Messages {
    open spec fn known(tag: Seq<char>) -> bool {
        tag == "messages"@
    }

    fn knows(tag: &str) -> (r: bool) {
        same_text(tag, "messages")
    }

    proof fn tag_known(&self) {
        reveal(<Messages as Wire>::wire);
        assert(tag_of(self.wire()) == Some("messages"@));
        assert(Self::known("messages"@));
    }
}

/// Contains a list of messages found by a search
#[derive(Debug, Clone, PartialEq)]
pub struct FoundMessages {
    /// List of messages
    pub messages: Vec<Message>,
    /// Value to pass as from_search_id to get more results
    pub next_from_search_id: i64,
}

impl Wire for FoundMessages {
    #[verifier::opaque]
    open spec fn wire(&self) -> Doc {
        tagged(
            Map::empty()
                .insert("messages"@, self.messages.wire())
                .insert("nextFromSearchId"@, wide_doc(self.next_from_search_id)),
            "foundMessages"@,
        )
    }

    #[verifier::opaque]
    open spec fn parse(d: Doc, at: Seq<char>) -> Result<Doc, Fault> {
        match d {
            Doc::Object(m) => {
                let messages = field::<Vec<Message>>(m, "messages"@);
                let next_from_search_id = wide_field(m, "nextFromSearchId"@);
                if messages is Err {
                    messages
                } else if next_from_search_id is Err {
                    next_from_search_id
                } else {
                    Ok(
                        tagged(
                            Map::empty()
                                .insert("messages"@, messages->Ok_0)
                                .insert("nextFromSearchId"@, next_from_search_id->Ok_0),
                            "foundMessages"@,
                        ),
                    )
                }
            },
            _ => Err(Fault::TypeMismatch(at)),
        }
    }

    fn encode(&self) -> (j: Json) {
        proof {
            reveal(<FoundMessages as Wire>::wire);
        }
        let mut members: Vec<Member> = Vec::new();
        put(&mut members, "messages", self.messages.encode());
        put(&mut members, "nextFromSearchId", encode_wide(self.next_from_search_id));
        seal(members, "foundMessages")
    }

    fn decode(j: &Json, at: &str) -> (r: Result<Self, DecodeError>) {
        proof {
            reveal(<FoundMessages as Wire>::wire);
            reveal(<FoundMessages as Wire>::parse);
        }
        let members = members_of(j, at)?;
        let messages = read_field::<Vec<Message>>(members, "messages")?;
        let next_from_search_id = read_wide(members, "nextFromSearchId")?;
        Ok(FoundMessages { messages, next_from_search_id })
    }

    proof fn round_trip(&self, at: Seq<char>) {
        reveal(<FoundMessages as Wire>::wire);
        reveal(<FoundMessages as Wire>::parse);
        reveal_strlit("@type");
        reveal_strlit("messages");
        reveal_strlit("nextFromSearchId");
        assert("@type"@.len() == 5);
        assert("messages"@.len() == 8);
        assert("nextFromSearchId"@.len() == 16);
        self.messages.round_trip("messages"@);
        lemma_wide_round_trip(self.next_from_search_id, "nextFromSearchId"@);
    }
}

impl Tagged for FoundMessages {
    open spec fn known(tag: Seq<char>) -> bool {
        tag == "foundMessages"@
    }

    fn knows(tag: &str) -> (r: bool) {
        same_text(tag, "foundMessages")
    }

    proof fn tag_known(&self) {
        reveal(<FoundMessages as Wire>::wire);
        assert(tag_of(self.wire()) == Some("foundMessages"@));
        assert(Self::known("foundMessages"@));
    }
}

/// Notification settings applied to all private and secret chats when the corresponding chat
/// setting has a default value
#[derive(Debug, Clone, PartialEq)]
pub struct NotificationSettingsScopePrivateChats {}

impl Wire for NotificationSettingsScopePrivateChats {
    #[verifier::opaque]
    open spec fn wire(&self) -> Doc {
        tagged(Map::empty(), "notificationSettingsScopePrivateChats"@)
    }

    #[verifier::opaque]
    open spec fn parse(d: Doc, at: Seq<char>) -> Result<Doc, Fault> {
        match d {
            Doc::Object(_) => Ok(tagged(Map::empty(), "notificationSettingsScopePrivateChats"@)),
            _ => Err(Fault::TypeMismatch(at)),
        }
    }

    fn encode(&self) -> (j: Json) {
        proof {
            reveal(<NotificationSettingsScopePrivateChats as Wire>::wire);
        }
        seal(Vec::new(), "notificationSettingsScopePrivateChats")
    }

    fn decode(j: &Json, at: &str) -> (r: Result<Self, DecodeError>) {
        proof {
            reveal(<NotificationSettingsScopePrivateChats as Wire>::wire);
            reveal(<NotificationSettingsScopePrivateChats as Wire>::parse);
        }
        let _ = members_of(j, at)?;
        Ok(NotificationSettingsScopePrivateChats {})
    }

    proof fn round_trip(&self, at: Seq<char>) {
        reveal(<NotificationSettingsScopePrivateChats as Wire>::wire);
        reveal(<NotificationSettingsScopePrivateChats as Wire>::parse);
    }
}

impl Tagged for NotificationSettingsScopePrivateChats {
    open spec fn known(tag: Seq<char>) -> bool {
        tag == "notificationSettingsScopePrivateChats"@
    }

    fn knows(tag: &str) -> (r: bool) {
        same_text(tag, "notificationSettingsScopePrivateChats")
    }

    proof fn tag_known(&self) {
        reveal(<NotificationSettingsScopePrivateChats as Wire>::wire);
        assert(tag_of(self.wire()) == Some("notificationSettingsScopePrivateChats"@));
        assert(Self::known("notificationSettingsScopePrivateChats"@));
    }
}

/// Notification settings applied to all basic groups and supergroups when the corresponding chat
/// setting has a default value
#[derive(Debug, Clone, PartialEq)]
pub struct NotificationSettingsScopeGroupChats {}

impl Wire for NotificationSettingsScopeGroupChats {
    #[verifier::opaque]
    open spec fn wire(&self) -> Doc {
        tagged(Map::empty(), "notificationSettingsScopeGroupChats"@)
    }

    #[verifier::opaque]
    open spec fn parse(d: Doc, at: Seq<char>) -> Result<Doc, Fault> {
        match d {
            Doc::Object(_) => Ok(tagged(Map::empty(), "notificationSettingsScopeGroupChats"@)),
            _ => Err(Fault::TypeMismatch(at)),
        }
    }

    fn encode(&self) -> (j: Json) {
        proof {
            reveal(<NotificationSettingsScopeGroupChats as Wire>::wire);
        }
        seal(Vec::new(), "notificationSettingsScopeGroupChats")
    }

    fn decode(j: &Json, at: &str) -> (r: Result<Self, DecodeError>) {
        proof {
            reveal(<NotificationSettingsScopeGroupChats as Wire>::wire);
            reveal(<NotificationSettingsScopeGroupChats as Wire>::parse);
        }
        let _ = members_of(j, at)?;
        Ok(NotificationSettingsScopeGroupChats {})
    }

    proof fn round_trip(&self, at: Seq<char>) {
        reveal(<NotificationSettingsScopeGroupChats as Wire>::wire);
        reveal(<NotificationSettingsScopeGroupChats as Wire>::parse);
    }
}

impl Tagged for NotificationSettingsScopeGroupChats {
    open spec fn known(tag: Seq<char>) -> bool {
        tag == "notificationSettingsScopeGroupChats"@
    }

    fn knows(tag: &str) -> (r: bool) {
        same_text(tag, "notificationSettingsScopeGroupChats")
    }

    proof fn tag_known(&self) {
        reveal(<NotificationSettingsScopeGroupChats as Wire>::wire);
        assert(tag_of(self.wire()) == Some("notificationSettingsScopeGroupChats"@));
        assert(Self::known("notificationSettingsScopeGroupChats"@));
    }
}

/// Notification settings applied to all channels when the corresponding chat setting has a default
/// value
#[derive(Debug, Clone, PartialEq)]
pub struct NotificationSettingsScopeChannelChats {}

impl Wire for NotificationSettingsScopeChannelChats {
    #[verifier::opaque]
    open spec fn wire(&self) -> Doc {
        tagged(Map::empty(), "notificationSettingsScopeChannelChats"@)
    }

    #[verifier::opaque]
    open spec fn parse(d: Doc, at: Seq<char>) -> Result<Doc, Fault> {
        match d {
            Doc::Object(_) => Ok(tagged(Map::empty(), "notificationSettingsScopeChannelChats"@)),
            _ => Err(Fault::TypeMismatch(at)),
        }
    }

    fn encode(&self) -> (j: Json) {
        proof {
            reveal(<NotificationSettingsScopeChannelChats as Wire>::wire);
        }
        seal(Vec::new(), "notificationSettingsScopeChannelChats")
    }

    fn decode(j: &Json, at: &str) -> (r: Result<Self, DecodeError>) {
        proof {
            reveal(<NotificationSettingsScopeChannelChats as Wire>::wire);
            reveal(<NotificationSettingsScopeChannelChats as Wire>::parse);
        }
        let _ = members_of(j, at)?;
        Ok(NotificationSettingsScopeChannelChats {})
    }

    proof fn round_trip(&self, at: Seq<char>) {
        reveal(<NotificationSettingsScopeChannelChats as Wire>::wire);
        reveal(<NotificationSettingsScopeChannelChats as Wire>::parse);
    }
}

impl Tagged for NotificationSettingsScopeChannelChats {
    open spec fn known(tag: Seq<char>) -> bool {
        tag == "notificationSettingsScopeChannelChats"@
    }

    fn knows(tag: &str) -> (r: bool) {
        same_text(tag, "notificationSettingsScopeChannelChats")
    }

    proof fn tag_known(&self) {
        reveal(<NotificationSettingsScopeChannelChats as Wire>::wire);
        assert(tag_of(self.wire()) == Some("notificationSettingsScopeChannelChats"@));
        assert(Self::known("notificationSettingsScopeChannelChats"@));
    }
}

/// Describes the types of chats to which notification settings are applied
#[derive(Debug, Clone, PartialEq)]
pub enum NotificationSettingsScope {
    NotificationSettingsScopePrivateChats(NotificationSettingsScopePrivateChats),
    NotificationSettingsScopeGroupChats(NotificationSettingsScopeGroupChats),
    NotificationSettingsScopeChannelChats(NotificationSettingsScopeChannelChats),
}

impl Wire for NotificationSettingsScope {
    #[verifier::opaque]
    open spec fn wire(&self) -> Doc {
        match self {
            Self::NotificationSettingsScopePrivateChats(p) => p.wire(),
            Self::NotificationSettingsScopeGroupChats(p) => p.wire(),
            Self::NotificationSettingsScopeChannelChats(p) => p.wire(),
        }
    }

    #[verifier::opaque]
    open spec fn parse(d: Doc, at: Seq<char>) -> Result<Doc, Fault> {
        match d {
            Doc::Object(_) => match tag_of(d) {
                Some(t) => if t == "notificationSettingsScopePrivateChats"@ {
                    NotificationSettingsScopePrivateChats::parse(d, at)
                } else if t == "notificationSettingsScopeGroupChats"@ {
                    NotificationSettingsScopeGroupChats::parse(d, at)
                } else if t == "notificationSettingsScopeChannelChats"@ {
                    NotificationSettingsScopeChannelChats::parse(d, at)
                } else {
                    Err(Fault::UnknownVariant(t))
                },
                None => Err(Fault::MissingDiscriminator),
            },
            _ => Err(Fault::TypeMismatch(at)),
        }
    }

    fn encode(&self) -> (j: Json) {
        proof {
            reveal(<NotificationSettingsScope as Wire>::wire);
        }
        match self {
            Self::NotificationSettingsScopePrivateChats(p) => p.encode(),
            Self::NotificationSettingsScopeGroupChats(p) => p.encode(),
            Self::NotificationSettingsScopeChannelChats(p) => p.encode(),
        }
    }

    fn decode(j: &Json, at: &str) -> (r: Result<Self, DecodeError>) {
        proof {
            reveal(<NotificationSettingsScope as Wire>::wire);
            reveal(<NotificationSettingsScope as Wire>::parse);
        }
        let members = members_of(j, at)?;
        let tag = discriminator(members)?;
        if same_text(tag, "notificationSettingsScopePrivateChats") {
            Ok(
                Self::NotificationSettingsScopePrivateChats(
                    NotificationSettingsScopePrivateChats::decode(j, at)?,
                ),
            )
        } else if same_text(tag, "notificationSettingsScopeGroupChats") {
            Ok(
                Self::NotificationSettingsScopeGroupChats(
                    NotificationSettingsScopeGroupChats::decode(j, at)?,
                ),
            )
        } else if same_text(tag, "notificationSettingsScopeChannelChats") {
            Ok(
                Self::NotificationSettingsScopeChannelChats(
                    NotificationSettingsScopeChannelChats::decode(j, at)?,
                ),
            )
        } else {
            Err(DecodeError::UnknownVariant(tag.to_owned()))
        }
    }

    proof fn round_trip(&self, at: Seq<char>) {
        reveal(<NotificationSettingsScope as Wire>::wire);
        reveal(<NotificationSettingsScope as Wire>::parse);
        reveal_strlit("notificationSettingsScopeChannelChats");
        reveal_strlit("notificationSettingsScopeGroupChats");
        reveal_strlit("notificationSettingsScopePrivateChats");
        assert({
            &&& "notificationSettingsScopeChannelChats"@.len() == 37
            &&& "notificationSettingsScopeChannelChats"@[25] == 'C'
        });
        assert("notificationSettingsScopeGroupChats"@.len() == 35);
        assert({
            &&& "notificationSettingsScopePrivateChats"@.len() == 37
            &&& "notificationSettingsScopePrivateChats"@[25] == 'P'
        });
        match self {
            Self::NotificationSettingsScopePrivateChats(p) => {
                p.tag_known();
                p.round_trip(at);
            },
            Self::NotificationSettingsScopeGroupChats(p) => {
                p.tag_known();
                p.round_trip(at);
            },
            Self::NotificationSettingsScopeChannelChats(p) => {
                p.tag_known();
                p.round_trip(at);
            },
        }
    }
}

impl Tagged for NotificationSettingsScope {
    open spec fn known(tag: Seq<char>) -> bool {
        ||| tag == "notificationSettingsScopePrivateChats"@
        ||| tag == "notificationSettingsScopeGroupChats"@
        ||| tag == "notificationSettingsScopeChannelChats"@
    }

    fn knows(tag: &str) -> (r: bool) {
        same_text(tag, "notificationSettingsScopePrivateChats")
            || same_text(tag, "notificationSettingsScopeGroupChats")
            || same_text(tag, "notificationSettingsScopeChannelChats")
    }

    proof fn tag_known(&self) {
        reveal(<NotificationSettingsScope as Wire>::wire);
        match self {
            Self::NotificationSettingsScopePrivateChats(p) => p.tag_known(),
            Self::NotificationSettingsScopeGroupChats(p) => p.tag_known(),
            Self::NotificationSettingsScopeChannelChats(p) => p.tag_known(),
        }
    }
}

impl Union for NotificationSettingsScope {
    proof fn unknown_rejected(d: Doc, at: Seq<char>) {
        reveal(<NotificationSettingsScope as Wire>::parse);
    }

    proof fn untagged_rejected(d: Doc, at: Seq<char>) {
        reveal(<NotificationSettingsScope as Wire>::parse);
    }
}

/// Contains information about notification settings for a chat
#[derive(Debug, Clone, PartialEq)]
pub struct ChatNotificationSettings {
    /// If true, mute_for is ignored and the value for the relevant type of chat is used instead
    pub use_default_mute_for: bool,
    /// Time left before notifications will be unmuted, in seconds
    pub mute_for: i32,
    /// If true, sound is ignored and the value for the relevant type of chat is used instead
    pub use_default_sound: bool,
    /// The name of an audio file to be used for notification sounds; only applies to iOS
    /// applications
    pub sound: String,
    /// If true, show_preview is ignored and the value for the relevant type of chat is used instead
    pub use_default_show_preview: bool,
    /// True, if message content should be displayed in notifications
    pub show_preview: bool,
    /// If true, disable_pinned_message_notifications is ignored and the value for the relevant type
    /// of chat is used instead
    pub use_default_disable_pinned_message_notifications: bool,
    /// If true, notifications for incoming pinned messages will be created as for an ordinary
    /// unread message
    pub disable_pinned_message_notifications: bool,
    /// If true, disable_mention_notifications is ignored and the value for the relevant type of
    /// chat is used instead
    pub use_default_disable_mention_notifications: bool,
    /// If true, notifications for messages with mentions will be created as for an ordinary unread
    /// message
    pub disable_mention_notifications: bool,
}

impl Wire for ChatNotificationSettings {
    #[verifier::opaque]
    open spec fn wire(&self) -> Doc {
        tagged(
            Map::empty()
                .insert("useDefaultMuteFor"@, self.use_default_mute_for.wire())
                .insert("muteFor"@, self.mute_for.wire())
                .insert("useDefaultSound"@, self.use_default_sound.wire())
                .insert("sound"@, self.sound.wire())
                .insert("useDefaultShowPreview"@, self.use_default_show_preview.wire())
                .insert("showPreview"@, self.show_preview.wire())
                .insert(
                    "useDefaultDisablePinnedMessageNotifications"@,
                    self.use_default_disable_pinned_message_notifications.wire(),
                )
                .insert(
                    "disablePinnedMessageNotifications"@,
                    self.disable_pinned_message_notifications.wire(),
                )
                .insert(
                    "useDefaultDisableMentionNotifications"@,
                    self.use_default_disable_mention_notifications.wire(),
                )
                .insert("disableMentionNotifications"@, self.disable_mention_notifications.wire()),
            "chatNotificationSettings"@,
        )
    }

    #[verifier::opaque]
    open spec fn parse(d: Doc, at: Seq<char>) -> Result<Doc, Fault> {
        match d {
            Doc::Object(m) => {
                let use_default_mute_for = field::<bool>(m, "useDefaultMuteFor"@);
                let mute_for = field::<i32>(m, "muteFor"@);
                let use_default_sound = field::<bool>(m, "useDefaultSound"@);
                let sound = field::<String>(m, "sound"@);
                let use_default_show_preview = field::<bool>(m, "useDefaultShowPreview"@);
                let show_preview = field::<bool>(m, "showPreview"@);
                let use_default_disable_pinned_message_notifications = field::<bool>(
                    m,
                    "useDefaultDisablePinnedMessageNotifications"@,
                );
                let disable_pinned_message_notifications = field::<bool>(
                    m,
                    "disablePinnedMessageNotifications"@,
                );
                let use_default_disable_mention_notifications = field::<bool>(
                    m,
                    "useDefaultDisableMentionNotifications"@,
                );
                let disable_mention_notifications = field::<bool>(
                    m,
                    "disableMentionNotifications"@,
                );
                if use_default_mute_for is Err {
                    use_default_mute_for
                } else if mute_for is Err {
                    mute_for
                } else if use_default_sound is Err {
                    use_default_sound
                } else if sound is Err {
                    sound
                } else if use_default_show_preview is Err {
                    use_default_show_preview
                } else if show_preview is Err {
                    show_preview
                } else if use_default_disable_pinned_message_notifications is Err {
                    use_default_disable_pinned_message_notifications
                } else if disable_pinned_message_notifications is Err {
                    disable_pinned_message_notifications
                } else if use_default_disable_mention_notifications is Err {
                    use_default_disable_mention_notifications
                } else if disable_mention_notifications is Err {
                    disable_mention_notifications
                } else {
                    Ok(
                        tagged(
                            Map::empty()
                                .insert("useDefaultMuteFor"@, use_default_mute_for->Ok_0)
                                .insert("muteFor"@, mute_for->Ok_0)
                                .insert("useDefaultSound"@, use_default_sound->Ok_0)
                                .insert("sound"@, sound->Ok_0)
                                .insert("useDefaultShowPreview"@, use_default_show_preview->Ok_0)
                                .insert("showPreview"@, show_preview->Ok_0)
                                .insert(
                                    "useDefaultDisablePinnedMessageNotifications"@,
                                    use_default_disable_pinned_message_notifications->Ok_0,
                                )
                                .insert(
                                    "disablePinnedMessageNotifications"@,
                                    disable_pinned_message_notifications->Ok_0,
                                )
                                .insert(
                                    "useDefaultDisableMentionNotifications"@,
                                    use_default_disable_mention_notifications->Ok_0,
                                )
                                .insert(
                                    "disableMentionNotifications"@,
                                    disable_mention_notifications->Ok_0,
                                ),
                            "chatNotificationSettings"@,
                        ),
                    )
                }
            },
            _ => Err(Fault::TypeMismatch(at)),
        }
    }

    fn encode(&self) -> (j: Json) {
        proof {
            reveal(<ChatNotificationSettings as Wire>::wire);
        }
        let mut members: Vec<Member> = Vec::new();
        put(&mut members, "useDefaultMuteFor", self.use_default_mute_for.encode());
        put(&mut members, "muteFor", self.mute_for.encode());
        put(&mut members, "useDefaultSound", self.use_default_sound.encode());
        put(&mut members, "sound", self.sound.encode());
        put(&mut members, "useDefaultShowPreview", self.use_default_show_preview.encode());
        put(&mut members, "showPreview", self.show_preview.encode());
        put(
            &mut members,
            "useDefaultDisablePinnedMessageNotifications",
            self.use_default_disable_pinned_message_notifications.encode(),
        );
        put(
            &mut members,
            "disablePinnedMessageNotifications",
            self.disable_pinned_message_notifications.encode(),
        );
        put(
            &mut members,
            "useDefaultDisableMentionNotifications",
            self.use_default_disable_mention_notifications.encode(),
        );
        put(
            &mut members,
            "disableMentionNotifications",
            self.disable_mention_notifications.encode(),
        );
        seal(members, "chatNotificationSettings")
    }

    fn decode(j: &Json, at: &str) -> (r: Result<Self, DecodeError>) {
        proof {
            reveal(<ChatNotificationSettings as Wire>::wire);
            reveal(<ChatNotificationSettings as Wire>::parse);
        }
        let members = members_of(j, at)?;
        let use_default_mute_for = read_field::<bool>(members, "useDefaultMuteFor")?;
        let mute_for = read_field::<i32>(members, "muteFor")?;
        let use_default_sound = read_field::<bool>(members, "useDefaultSound")?;
        let sound = read_field::<String>(members, "sound")?;
        let use_default_show_preview = read_field::<bool>(members, "useDefaultShowPreview")?;
        let show_preview = read_field::<bool>(members, "showPreview")?;
        let use_default_disable_pinned_message_notifications = read_field::<bool>(
            members,
            "useDefaultDisablePinnedMessageNotifications",
        )?;
        let disable_pinned_message_notifications = read_field::<bool>(
            members,
            "disablePinnedMessageNotifications",
        )?;
        let use_default_disable_mention_notifications = read_field::<bool>(
            members,
            "useDefaultDisableMentionNotifications",
        )?;
        let disable_mention_notifications = read_field::<bool>(
            members,
            "disableMentionNotifications",
        )?;
        Ok(ChatNotificationSettings {
            use_default_mute_for,
            mute_for,
            use_default_sound,
            sound,
            use_default_show_preview,
            show_preview,
            use_default_disable_pinned_message_notifications,
            disable_pinned_message_notifications,
            use_default_disable_mention_notifications,
            disable_mention_notifications,
        })
    }

    proof fn round_trip(&self, at: Seq<char>) {
        reveal(<ChatNotificationSettings as Wire>::wire);
        reveal(<ChatNotificationSettings as Wire>::parse);
        reveal_strlit("@type");
        reveal_strlit("disableMentionNotifications");
        reveal_strlit("disablePinnedMessageNotifications");
        reveal_strlit("muteFor");
        reveal_strlit("showPreview");
        reveal_strlit("sound");
        reveal_strlit("useDefaultDisableMentionNotifications");
        reveal_strlit("useDefaultDisablePinnedMessageNotifications");
        reveal_strlit("useDefaultMuteFor");
        reveal_strlit("useDefaultShowPreview");
        reveal_strlit("useDefaultSound");
        assert("@type"@.len() == 5 && "@type"@[0] == '@');
        assert("disableMentionNotifications"@.len() == 27);
        assert("disablePinnedMessageNotifications"@.len() == 33);
        assert("muteFor"@.len() == 7);
        assert("showPreview"@.len() == 11);
        assert("sound"@.len() == 5 && "sound"@[0] == 's');
        assert("useDefaultDisableMentionNotifications"@.len() == 37);
        assert("useDefaultDisablePinnedMessageNotifications"@.len() == 43);
        assert("useDefaultMuteFor"@.len() == 17);
        assert("useDefaultShowPreview"@.len() == 21);
        assert("useDefaultSound"@.len() == 15);
        self.use_default_mute_for.round_trip("useDefaultMuteFor"@);
        self.mute_for.round_trip("muteFor"@);
        self.use_default_sound.round_trip("useDefaultSound"@);
        self.sound.round_trip("sound"@);
        self.use_default_show_preview.round_trip("useDefaultShowPreview"@);
        self.show_preview.round_trip("showPreview"@);
        self.use_default_disable_pinned_message_notifications.round_trip("useDefaultDisablePinnedMessageNotifications"@);
        self.disable_pinned_message_notifications.round_trip("disablePinnedMessageNotifications"@);
        self.use_default_disable_mention_notifications.round_trip("useDefaultDisableMentionNotifications"@);
        self.disable_mention_notifications.round_trip("disableMentionNotifications"@);
        let m = self.wire()->Object_0;
        assert(field::<bool>(m, "useDefaultMuteFor"@)
            == Ok::<Doc, Fault>(self.use_default_mute_for.wire()));
        assert(field::<i32>(m, "muteFor"@) == Ok::<Doc, Fault>(self.mute_for.wire()));
        assert(field::<bool>(m, "useDefaultSound"@)
            == Ok::<Doc, Fault>(self.use_default_sound.wire()));
        assert(field::<String>(m, "sound"@) == Ok::<Doc, Fault>(self.sound.wire()));
        assert(field::<bool>(m, "useDefaultShowPreview"@)
            == Ok::<Doc, Fault>(self.use_default_show_preview.wire()));
        assert(field::<bool>(m, "showPreview"@) == Ok::<Doc, Fault>(self.show_preview.wire()));
        assert(field::<bool>(m, "useDefaultDisablePinnedMessageNotifications"@)
            == Ok::<Doc, Fault>(self.use_default_disable_pinned_message_notifications.wire()));
        assert(field::<bool>(m, "disablePinnedMessageNotifications"@)
            == Ok::<Doc, Fault>(self.disable_pinned_message_notifications.wire()));
        assert(field::<bool>(m, "useDefaultDisableMentionNotifications"@)
            == Ok::<Doc, Fault>(self.use_default_disable_mention_notifications.wire()));
        assert(field::<bool>(m, "disableMentionNotifications"@)
            == Ok::<Doc, Fault>(self.disable_mention_notifications.wire()));
    }
}

impl Tagged for ChatNotificationSettings {
    open spec fn known(tag: Seq<char>) -> bool {
        tag == "chatNotificationSettings"@
    }

    fn knows(tag: &str) -> (r: bool) {
        same_text(tag, "chatNotificationSettings")
    }

    proof fn tag_known(&self) {
        reveal(<ChatNotificationSettings as Wire>::wire);
        assert(tag_of(self.wire()) == Some("chatNotificationSettings"@));
        assert(Self::known("chatNotificationSettings"@));
    }
}

/// Contains information about notification settings for several chats
#[derive(Debug, Clone, PartialEq)]
pub struct ScopeNotificationSettings {
    /// Time left before notifications will be unmuted, in seconds
    pub mute_for: i32,
    /// The name of an audio file to be used for notification sounds; only applies to iOS
    /// applications
    pub sound: String,
    /// True, if message content should be displayed in notifications
    pub show_preview: bool,
    /// True, if notifications for incoming pinned messages will be created as for an ordinary
    /// unread message
    pub disable_pinned_message_notifications: bool,
    /// True, if notifications for messages with mentions will be created as for an ordinary unread
    /// message
    pub disable_mention_notifications: bool,
}

impl Wire for ScopeNotificationSettings {
    #[verifier::opaque]
    open spec fn wire(&self) -> Doc {
        tagged(
            Map::empty()
                .insert("muteFor"@, self.mute_for.wire())
                .insert("sound"@, self.sound.wire())
                .insert("showPreview"@, self.show_preview.wire())
                .insert(
                    "disablePinnedMessageNotifications"@,
                    self.disable_pinned_message_notifications.wire(),
                )
                .insert("disableMentionNotifications"@, self.disable_mention_notifications.wire()),
            "scopeNotificationSettings"@,
        )
    }

    #[verifier::opaque]
    open spec fn parse(d: Doc, at: Seq<char>) -> Result<Doc, Fault> {
        match d {
            Doc::Object(m) => {
                let mute_for = field::<i32>(m, "muteFor"@);
                let sound = field::<String>(m, "sound"@);
                let show_preview = field::<bool>(m, "showPreview"@);
                let disable_pinned_message_notifications = field::<bool>(
                    m,
                    "disablePinnedMessageNotifications"@,
                );
                let disable_mention_notifications = field::<bool>(
                    m,
                    "disableMentionNotifications"@,
                );
                if mute_for is Err {
                    mute_for
                } else if sound is Err {
                    sound
                } else if show_preview is Err {
                    show_preview
                } else if disable_pinned_message_notifications is Err {
                    disable_pinned_message_notifications
                } else if disable_mention_notifications is Err {
                    disable_mention_notifications
                } else {
                    Ok(
                        tagged(
                            Map::empty()
                                .insert("muteFor"@, mute_for->Ok_0)
                                .insert("sound"@, sound->Ok_0)
                                .insert("showPreview"@, show_preview->Ok_0)
                                .insert(
                                    "disablePinnedMessageNotifications"@,
                                    disable_pinned_message_notifications->Ok_0,
                                )
                                .insert(
                                    "disableMentionNotifications"@,
                                    disable_mention_notifications->Ok_0,
                                ),
                            "scopeNotificationSettings"@,
                        ),
                    )
                }
            },
            _ => Err(Fault::TypeMismatch(at)),
        }
    }

    fn encode(&self) -> (j: Json) {
        proof {
            reveal(<ScopeNotificationSettings as Wire>::wire);
        }
        let mut members: Vec<Member> = Vec::new();
        put(&mut members, "muteFor", self.mute_for.encode());
        put(&mut members, "sound", self.sound.encode());
        put(&mut members, "showPreview", self.show_preview.encode());
        put(
            &mut members,
            "disablePinnedMessageNotifications",
            self.disable_pinned_message_notifications.encode(),
        );
        put(
            &mut members,
            "disableMentionNotifications",
            self.disable_mention_notifications.encode(),
        );
        seal(members, "scopeNotificationSettings")
    }

    fn decode(j: &Json, at: &str) -> (r: Result<Self, DecodeError>) {
        proof {
            reveal(<ScopeNotificationSettings as Wire>::wire);
            reveal(<ScopeNotificationSettings as Wire>::parse);
        }
        let members = members_of(j, at)?;
        let mute_for = read_field::<i32>(members, "muteFor")?;
        let sound = read_field::<String>(members, "sound")?;
        let show_preview = read_field::<bool>(members, "showPreview")?;
        let disable_pinned_message_notifications = read_field::<bool>(
            members,
            "disablePinnedMessageNotifications",
        )?;
        let disable_mention_notifications = read_field::<bool>(
            members,
            "disableMentionNotifications",
        )?;
        Ok(ScopeNotificationSettings {
            mute_for,
            sound,
            show_preview,
            disable_pinned_message_notifications,
            disable_mention_notifications,
        })
    }

    proof fn round_trip(&self, at: Seq<char>) {
        reveal(<ScopeNotificationSettings as Wire>::wire);
        reveal(<ScopeNotificationSettings as Wire>::parse);
        reveal_strlit("@type");
        reveal_strlit("disableMentionNotifications");
        reveal_strlit("disablePinnedMessageNotifications");
        reveal_strlit("muteFor");
        reveal_strlit("showPreview");
        reveal_strlit("sound");
        assert("@type"@.len() == 5 && "@type"@[0] == '@');
        assert("disableMentionNotifications"@.len() == 27);
        assert("disablePinnedMessageNotifications"@.len() == 33);
        assert("muteFor"@.len() == 7);
        assert("showPreview"@.len() == 11);
        assert("sound"@.len() == 5 && "sound"@[0] == 's');
        self.mute_for.round_trip("muteFor"@);
        self.sound.round_trip("sound"@);
        self.show_preview.round_trip("showPreview"@);
        self.disable_pinned_message_notifications.round_trip("disablePinnedMessageNotifications"@);
        self.disable_mention_notifications.round_trip("disableMentionNotifications"@);
    }
}

impl Tagged for ScopeNotificationSettings {
    open spec fn known(tag: Seq<char>) -> bool {
        tag == "scopeNotificationSettings"@
    }

    fn knows(tag: &str) -> (r: bool) {
        same_text(tag, "scopeNotificationSettings")
    }

    proof fn tag_known(&self) {
        reveal(<ScopeNotificationSettings as Wire>::wire);
        assert(tag_of(self.wire()) == Some("scopeNotificationSettings"@));
        assert(Self::known("scopeNotificationSettings"@));
    }
}

/// Contains information about a message draft
#[derive(Debug, Clone, PartialEq)]
pub struct DraftMessage {
    /// Identifier of the message to reply to; 0 if none
    pub reply_to_message_id: i64,
    /// Content of the message draft; this should always be of type inputMessageText
    pub input_message_text: InputMessageContent,
}

impl Wire for DraftMessage {
    #[verifier::opaque]
    open spec fn wire(&self) -> Doc {
        tagged(
            Map::empty()
                .insert("replyToMessageId"@, self.reply_to_message_id.wire())
                .insert("inputMessageText"@, self.input_message_text.wire()),
            "draftMessage"@,
        )
    }

    #[verifier::opaque]
    open spec fn parse(d: Doc, at: Seq<char>) -> Result<Doc, Fault> {
        match d {
            Doc::Object(m) => {
                let reply_to_message_id = field::<i64>(m, "replyToMessageId"@);
                let input_message_text = field::<InputMessageContent>(m, "inputMessageText"@);
                if reply_to_message_id is Err {
                    reply_to_message_id
                } else if input_message_text is Err {
                    input_message_text
                } else {
                    Ok(
                        tagged(
                            Map::empty()
                                .insert("replyToMessageId"@, reply_to_message_id->Ok_0)
                                .insert("inputMessageText"@, input_message_text->Ok_0),
                            "draftMessage"@,
                        ),
                    )
                }
            },
            _ => Err(Fault::TypeMismatch(at)),
        }
    }

    fn encode(&self) -> (j: Json) {
        proof {
            reveal(<DraftMessage as Wire>::wire);
        }
        let mut members: Vec<Member> = Vec::new();
        put(&mut members, "replyToMessageId", self.reply_to_message_id.encode());
        put(&mut members, "inputMessageText", self.input_message_text.encode());
        seal(members, "draftMessage")
    }

    fn decode(j: &Json, at: &str) -> (r: Result<Self, DecodeError>) {
        proof {
            reveal(<DraftMessage as Wire>::wire);
            reveal(<DraftMessage as Wire>::parse);
        }
        let members = members_of(j, at)?;
        let reply_to_message_id = read_field::<i64>(members, "replyToMessageId")?;
        let input_message_text = read_field::<InputMessageContent>(members, "inputMessageText")?;
        Ok(DraftMessage { reply_to_message_id, input_message_text })
    }

    proof fn round_trip(&self, at: Seq<char>) {
        reveal(<DraftMessage as Wire>::wire);
        reveal(<DraftMessage as Wire>::parse);
        reveal_strlit("@type");
        reveal_strlit("inputMessageText");
        reveal_strlit("replyToMessageId");
        assert("@type"@.len() == 5);
        assert("inputMessageText"@.len() == 16 && "inputMessageText"@[0] == 'i');
        assert("replyToMessageId"@.len() == 16 && "replyToMessageId"@[0] == 'r');
        self.reply_to_message_id.round_trip("replyToMessageId"@);
        self.input_message_text.round_trip("inputMessageText"@);
    }
}

impl Tagged for DraftMessage {
    open spec fn known(tag: Seq<char>) -> bool {
        tag == "draftMessage"@
    }

    fn knows(tag: &str) -> (r: bool) {
        same_text(tag, "draftMessage")
    }

    proof fn tag_known(&self) {
        reveal(<DraftMessage as Wire>::wire);
        assert(tag_of(self.wire()) == Some("draftMessage"@));
        assert(Self::known("draftMessage"@));
    }
}

/// An ordinary chat with a user
#[derive(Debug, Clone, PartialEq)]
pub struct ChatTypePrivate {
    /// User identifier
    pub user_id: i32,
}

impl Wire for ChatTypePrivate {
    #[verifier::opaque]
    open spec fn wire(&self) -> Doc {
        tagged(
            Map::empty()
                .insert("userId"@, self.user_id.wire()),
            "chatTypePrivate"@,
        )
    }

    #[verifier::opaque]
    open spec fn parse(d: Doc, at: Seq<char>) -> Result<Doc, Fault> {
        match d {
            Doc::Object(m) => {
                let user_id = field::<i32>(m, "userId"@);
                if user_id is Err {
                    user_id
                } else {
                    Ok(
                        tagged(
                            Map::empty()
                                .insert("userId"@, user_id->Ok_0),
                            "chatTypePrivate"@,
                        ),
                    )
                }
            },
            _ => Err(Fault::TypeMismatch(at)),
        }
    }

    fn encode(&self) -> (j: Json) {
        proof {
            reveal(<ChatTypePrivate as Wire>::wire);
        }
        let mut members: Vec<Member> = Vec::new();
        put(&mut members, "userId", self.user_id.encode());
        seal(members, "chatTypePrivate")
    }

    fn decode(j: &Json, at: &str) -> (r: Result<Self, DecodeError>) {
        proof {
            reveal(<ChatTypePrivate as Wire>::wire);
            reveal(<ChatTypePrivate as Wire>::parse);
        }
        let members = members_of(j, at)?;
        let user_id = read_field::<i32>(members, "userId")?;
        Ok(ChatTypePrivate { user_id })
    }

    proof fn round_trip(&self, at: Seq<char>) {
        reveal(<ChatTypePrivate as Wire>::wire);
        reveal(<ChatTypePrivate as Wire>::parse);
        reveal_strlit("@type");
        reveal_strlit("userId");
        assert("@type"@.len() == 5);
        assert("userId"@.len() == 6);
        self.user_id.round_trip("userId"@);
    }
}

impl Tagged for ChatTypePrivate {
    open spec fn known(tag: Seq<char>) -> bool {
        tag == "chatTypePrivate"@
    }

    fn knows(tag: &str) -> (r: bool) {
        same_text(tag, "chatTypePrivate")
    }

    proof fn tag_known(&self) {
        reveal(<ChatTypePrivate as Wire>::wire);
        assert(tag_of(self.wire()) == Some("chatTypePrivate"@));
        assert(Self::known("chatTypePrivate"@));
    }
}

/// A basic group (i.e., a chat with 0-200 other users)
#[derive(Debug, Clone, PartialEq)]
pub struct ChatTypeBasicGroup {
    /// Basic group identifier
    pub basic_group_id: i32,
}

impl Wire for ChatTypeBasicGroup {
    #[verifier::opaque]
    open spec fn wire(&self) -> Doc {
        tagged(
            Map::empty()
                .insert("basicGroupId"@, self.basic_group_id.wire()),
            "chatTypeBasicGroup"@,
        )
    }

    #[verifier::opaque]
    open spec fn parse(d: Doc, at: Seq<char>) -> Result<Doc, Fault> {
        match d {
            Doc::Object(m) => {
                let basic_group_id = field::<i32>(m, "basicGroupId"@);
                if basic_group_id is Err {
                    basic_group_id
                } else {
                    Ok(
                        tagged(
                            Map::empty()
                                .insert("basicGroupId"@, basic_group_id->Ok_0),
                            "chatTypeBasicGroup"@,
                        ),
                    )
                }
            },
            _ => Err(Fault::TypeMismatch(at)),
        }
    }

    fn encode(&self) -> (j: Json) {
        proof {
            reveal(<ChatTypeBasicGroup as Wire>::wire);
        }
        let mut members: Vec<Member> = Vec::new();
        put(&mut members, "basicGroupId", self.basic_group_id.encode());
        seal(members, "chatTypeBasicGroup")
    }

    fn decode(j: &Json, at: &str) -> (r: Result<Self, DecodeError>) {
        proof {
            reveal(<ChatTypeBasicGroup as Wire>::wire);
            reveal(<ChatTypeBasicGroup as Wire>::parse);
        }
        let members = members_of(j, at)?;
        let basic_group_id = read_field::<i32>(members, "basicGroupId")?;
        Ok(ChatTypeBasicGroup { basic_group_id })
    }

    proof fn round_trip(&self, at: Seq<char>) {
        reveal(<ChatTypeBasicGroup as Wire>::wire);
        reveal(<ChatTypeBasicGroup as Wire>::parse);
        reveal_strlit("@type");
        reveal_strlit("basicGroupId");
        assert("@type"@.len() == 5);
        assert("basicGroupId"@.len() == 12);
        self.basic_group_id.round_trip("basicGroupId"@);
    }
}

impl Tagged for ChatTypeBasicGroup {
    open spec fn known(tag: Seq<char>) -> bool {
        tag == "chatTypeBasicGroup"@
    }

    fn knows(tag: &str) -> (r: bool) {
        same_text(tag, "chatTypeBasicGroup")
    }

    proof fn tag_known(&self) {
        reveal(<ChatTypeBasicGroup as Wire>::wire);
        assert(tag_of(self.wire()) == Some("chatTypeBasicGroup"@));
        assert(Self::known("chatTypeBasicGroup"@));
    }
}

/// A supergroup (i.e. a chat with up to GetOption("supergroup_max_size") other users), or channel
/// (with unlimited members)
#[derive(Debug, Clone, PartialEq)]
pub struct ChatTypeSupergroup {
    /// Supergroup or channel identifier
    pub supergroup_id: i32,
    /// True, if the supergroup is a channel
    pub is_channel: bool,
}

impl Wire for ChatTypeSupergroup {
    #[verifier::opaque]
    open spec fn wire(&self) -> Doc {
        tagged(
            Map::empty()
                .insert("supergroupId"@, self.supergroup_id.wire())
                .insert("isChannel"@, self.is_channel.wire()),
            "chatTypeSupergroup"@,
        )
    }

    #[verifier::opaque]
    open spec fn parse(d: Doc, at: Seq<char>) -> Result<Doc, Fault> {
        match d {
            Doc::Object(m) => {
                let supergroup_id = field::<i32>(m, "supergroupId"@);
                let is_channel = field::<bool>(m, "isChannel"@);
                if supergroup_id is Err {
                    supergroup_id
                } else if is_channel is Err {
                    is_channel
                } else {
                    Ok(
                        tagged(
                            Map::empty()
                                .insert("supergroupId"@, supergroup_id->Ok_0)
                                .insert("isChannel"@, is_channel->Ok_0),
                            "chatTypeSupergroup"@,
                        ),
                    )
                }
            },
            _ => Err(Fault::TypeMismatch(at)),
        }
    }

    fn encode(&self) -> (j: Json) {
        proof {
            reveal(<ChatTypeSupergroup as Wire>::wire);
        }
        let mut members: Vec<Member> = Vec::new();
        put(&mut members, "supergroupId", self.supergroup_id.encode());
        put(&mut members, "isChannel", self.is_channel.encode());
        seal(members, "chatTypeSupergroup")
    }

    fn decode(j: &Json, at: &str) -> (r: Result<Self, DecodeError>) {
        proof {
            reveal(<ChatTypeSupergroup as Wire>::wire);
            reveal(<ChatTypeSupergroup as Wire>::parse);
        }
        let members = members_of(j, at)?;
        let supergroup_id = read_field::<i32>(members, "supergroupId")?;
        let is_channel = read_field::<bool>(members, "isChannel")?;
        Ok(ChatTypeSupergroup { supergroup_id, is_channel })
    }

    proof fn round_trip(&self, at: Seq<char>) {
        reveal(<ChatTypeSupergroup as Wire>::wire);
        reveal(<ChatTypeSupergroup as Wire>::parse);
        reveal_strlit("@type");
        reveal_strlit("isChannel");
        reveal_strlit("supergroupId");
        assert("@type"@.len() == 5);
        assert("isChannel"@.len() == 9);
        assert("supergroupId"@.len() == 12);
        self.supergroup_id.round_trip("supergroupId"@);
        self.is_channel.round_trip("isChannel"@);
    }
}

impl Tagged for ChatTypeSupergroup {
    open spec fn known(tag: Seq<char>) -> bool {
        tag == "chatTypeSupergroup"@
    }

    fn knows(tag: &str) -> (r: bool) {
        same_text(tag, "chatTypeSupergroup")
    }

    proof fn tag_known(&self) {
        reveal(<ChatTypeSupergroup as Wire>::wire);
        assert(tag_of(self.wire()) == Some("chatTypeSupergroup"@));
        assert(Self::known("chatTypeSupergroup"@));
    }
}

/// A secret chat with a user
#[derive(Debug, Clone, PartialEq)]
pub struct ChatTypeSecret {
    /// Secret chat identifier
    pub secret_chat_id: i32,
    /// User identifier of the secret chat peer
    pub user_id: i32,
}

impl Wire for ChatTypeSecret {
    #[verifier::opaque]
    open spec fn wire(&self) -> Doc {
        tagged(
            Map::empty()
                .insert("secretChatId"@, self.secret_chat_id.wire())
                .insert("userId"@, self.user_id.wire()),
            "chatTypeSecret"@,
        )
    }

    #[verifier::opaque]
    open spec fn parse(d: Doc, at: Seq<char>) -> Result<Doc, Fault> {
        match d {
            Doc::Object(m) => {
                let secret_chat_id = field::<i32>(m, "secretChatId"@);
                let user_id = field::<i32>(m, "userId"@);
                if secret_chat_id is Err {
                    secret_chat_id
                } else if user_id is Err {
                    user_id
                } else {
                    Ok(
                        tagged(
                            Map::empty()
                                .insert("secretChatId"@, secret_chat_id->Ok_0)
                                .insert("userId"@, user_id->Ok_0),
                            "chatTypeSecret"@,
                        ),
                    )
                }
            },
            _ => Err(Fault::TypeMismatch(at)),
        }
    }

    fn encode(&self) -> (j: Json) {
        proof {
            reveal(<ChatTypeSecret as Wire>::wire);
        }
        let mut members: Vec<Member> = Vec::new();
        put(&mut members, "secretChatId", self.secret_chat_id.encode());
        put(&mut members, "userId", self.user_id.encode());
        seal(members, "chatTypeSecret")
    }

    fn decode(j: &Json, at: &str) -> (r: Result<Self, DecodeError>) {
        proof {
            reveal(<ChatTypeSecret as Wire>::wire);
            reveal(<ChatTypeSecret as Wire>::parse);
        }
        let members = members_of(j, at)?;
        let secret_chat_id = read_field::<i32>(members, "secretChatId")?;
        let user_id = read_field::<i32>(members, "userId")?;
        Ok(ChatTypeSecret { secret_chat_id, user_id })
    }

    proof fn round_trip(&self, at: Seq<char>) {
        reveal(<ChatTypeSecret as Wire>::wire);
        reveal(<ChatTypeSecret as Wire>::parse);
        reveal_strlit("@type");
        reveal_strlit("secretChatId");
        reveal_strlit("userId");
        assert("@type"@.len() == 5);
        assert("secretChatId"@.len() == 12);
        assert("userId"@.len() == 6);
        self.secret_chat_id.round_trip("secretChatId"@);
        self.user_id.round_trip("userId"@);
    }
}

impl Tagged for ChatTypeSecret {
    open spec fn known(tag: Seq<char>) -> bool {
        tag == "chatTypeSecret"@
    }

    fn knows(tag: &str) -> (r: bool) {
        same_text(tag, "chatTypeSecret")
    }

    proof fn tag_known(&self) {
        reveal(<ChatTypeSecret as Wire>::wire);
        assert(tag_of(self.wire()) == Some("chatTypeSecret"@));
        assert(Self::known("chatTypeSecret"@));
    }
}

/// Describes the type of a chat
#[derive(Debug, Clone, PartialEq)]
pub enum ChatType {
    ChatTypePrivate(ChatTypePrivate),
    ChatTypeBasicGroup(ChatTypeBasicGroup),
    ChatTypeSupergroup(ChatTypeSupergroup),
    ChatTypeSecret(ChatTypeSecret),
}

impl Wire for ChatType {
    #[verifier::opaque]
    open spec fn wire(&self) -> Doc {
        match self {
            Self::ChatTypePrivate(p) => p.wire(),
            Self::ChatTypeBasicGroup(p) => p.wire(),
            Self::ChatTypeSupergroup(p) => p.wire(),
            Self::ChatTypeSecret(p) => p.wire(),
        }
    }

    #[verifier::opaque]
    open spec fn parse(d: Doc, at: Seq<char>) -> Result<Doc, Fault> {
        match d {
            Doc::Object(_) => match tag_of(d) {
                Some(t) => if t == "chatTypePrivate"@ {
                    ChatTypePrivate::parse(d, at)
                } else if t == "chatTypeBasicGroup"@ {
                    ChatTypeBasicGroup::parse(d, at)
                } else if t == "chatTypeSupergroup"@ {
                    ChatTypeSupergroup::parse(d, at)
                } else if t == "chatTypeSecret"@ {
                    ChatTypeSecret::parse(d, at)
                } else {
                    Err(Fault::UnknownVariant(t))
                },
                None => Err(Fault::MissingDiscriminator),
            },
            _ => Err(Fault::TypeMismatch(at)),
        }
    }

    fn encode(&self) -> (j: Json) {
        proof {
            reveal(<ChatType as Wire>::wire);
        }
        match self {
            Self::ChatTypePrivate(p) => p.encode(),
            Self::ChatTypeBasicGroup(p) => p.encode(),
            Self::ChatTypeSupergroup(p) => p.encode(),
            Self::ChatTypeSecret(p) => p.encode(),
        }
    }

    fn decode(j: &Json, at: &str) -> (r: Result<Self, DecodeError>) {
        proof {
            reveal(<ChatType as Wire>::wire);
            reveal(<ChatType as Wire>::parse);
        }
        let members = members_of(j, at)?;
        let tag = discriminator(members)?;
        if same_text(tag, "chatTypePrivate") {
            Ok(Self::ChatTypePrivate(ChatTypePrivate::decode(j, at)?))
        } else if same_text(tag, "chatTypeBasicGroup") {
            Ok(Self::ChatTypeBasicGroup(ChatTypeBasicGroup::decode(j, at)?))
        } else if same_text(tag, "chatTypeSupergroup") {
            Ok(Self::ChatTypeSupergroup(ChatTypeSupergroup::decode(j, at)?))
        } else if same_text(tag, "chatTypeSecret") {
            Ok(Self::ChatTypeSecret(ChatTypeSecret::decode(j, at)?))
        } else {
            Err(DecodeError::UnknownVariant(tag.to_owned()))
        }
    }

    proof fn round_trip(&self, at: Seq<char>) {
        reveal(<ChatType as Wire>::wire);
        reveal(<ChatType as Wire>::parse);
        reveal_strlit("chatTypeBasicGroup");
        reveal_strlit("chatTypePrivate");
        reveal_strlit("chatTypeSecret");
        reveal_strlit("chatTypeSupergroup");
        assert("chatTypeBasicGroup"@.len() == 18 && "chatTypeBasicGroup"@[8] == 'B');
        assert("chatTypePrivate"@.len() == 15);
        assert("chatTypeSecret"@.len() == 14);
        assert("chatTypeSupergroup"@.len() == 18 && "chatTypeSupergroup"@[8] == 'S');
        match self {
            Self::ChatTypePrivate(p) => {
                p.tag_known();
                p.round_trip(at);
            },
            Self::ChatTypeBasicGroup(p) => {
                p.tag_known();
                p.round_trip(at);
            },
            Self::ChatTypeSupergroup(p) => {
                p.tag_known();
                p.round_trip(at);
            },
            Self::ChatTypeSecret(p) => {
                p.tag_known();
                p.round_trip(at);
            },
        }
    }
}

impl Tagged for ChatType {
    open spec fn known(tag: Seq<char>) -> bool {
        ||| tag == "chatTypePrivate"@
        ||| tag == "chatTypeBasicGroup"@
        ||| tag == "chatTypeSupergroup"@
        ||| tag == "chatTypeSecret"@
    }

    fn knows(tag: &str) -> (r: bool) {
        same_text(tag, "chatTypePrivate")
            || same_text(tag, "chatTypeBasicGroup")
            || same_text(tag, "chatTypeSupergroup")
            || same_text(tag, "chatTypeSecret")
    }

    proof fn tag_known(&self) {
        reveal(<ChatType as Wire>::wire);
        match self {
            Self::ChatTypePrivate(p) => p.tag_known(),
            Self::ChatTypeBasicGroup(p) => p.tag_known(),
            Self::ChatTypeSupergroup(p) => p.tag_known(),
            Self::ChatTypeSecret(p) => p.tag_known(),
        }
    }
}

impl Union for ChatType {
    proof fn unknown_rejected(d: Doc, at: Seq<char>) {
        reveal(<ChatType as Wire>::parse);
    }

    proof fn untagged_rejected(d: Doc, at: Seq<char>) {
        reveal(<ChatType as Wire>::parse);
    }
}

/// A main list of chats
#[derive(Debug, Clone, PartialEq)]
pub struct ChatListMain {}

impl Wire for ChatListMain {
    #[verifier::opaque]
    open spec fn wire(&self) -> Doc {
        tagged(Map::empty(), "chatListMain"@)
    }

    #[verifier::opaque]
    open spec fn parse(d: Doc, at: Seq<char>) -> Result<Doc, Fault> {
        match d {
            Doc::Object(_) => Ok(tagged(Map::empty(), "chatListMain"@)),
            _ => Err(Fault::TypeMismatch(at)),
        }
    }

    fn encode(&self) -> (j: Json) {
        proof {
            reveal(<ChatListMain as Wire>::wire);
        }
        seal(Vec::new(), "chatListMain")
    }

    fn decode(j: &Json, at: &str) -> (r: Result<Self, DecodeError>) {
        proof {
            reveal(<ChatListMain as Wire>::wire);
            reveal(<ChatListMain as Wire>::parse);
        }
        let _ = members_of(j, at)?;
        Ok(ChatListMain {})
    }

    proof fn round_trip(&self, at: Seq<char>) {
        reveal(<ChatListMain as Wire>::wire);
        reveal(<ChatListMain as Wire>::parse);
    }
}

impl Tagged for ChatListMain {
    open spec fn known(tag: Seq<char>) -> bool {
        tag == "chatListMain"@
    }

    fn knows(tag: &str) -> (r: bool) {
        same_text(tag, "chatListMain")
    }

    proof fn tag_known(&self) {
        reveal(<ChatListMain as Wire>::wire);
        assert(tag_of(self.wire()) == Some("chatListMain"@));
        assert(Self::known("chatListMain"@));
    }
}

/// A list of chats usually located at the top of the main chat list. Unmuted chats are
/// automatically moved from the Archive to the Main chat list when a new message arrives
#[derive(Debug, Clone, PartialEq)]
pub struct ChatListArchive {}

impl Wire for ChatListArchive {
    #[verifier::opaque]
    open spec fn wire(&self) -> Doc {
        tagged(Map::empty(), "chatListArchive"@)
    }

    #[verifier::opaque]
    open spec fn parse(d: Doc, at: Seq<char>) -> Result<Doc, Fault> {
        match d {
            Doc::Object(_) => Ok(tagged(Map::empty(), "chatListArchive"@)),
            _ => Err(Fault::TypeMismatch(at)),
        }
    }

    fn encode(&self) -> (j: Json) {
        proof {
            reveal(<ChatListArchive as Wire>::wire);
        }
        seal(Vec::new(), "chatListArchive")
    }

    fn decode(j: &Json, at: &str) -> (r: Result<Self, DecodeError>) {
        proof {
            reveal(<ChatListArchive as Wire>::wire);
            reveal(<ChatListArchive as Wire>::parse);
        }
        let _ = members_of(j, at)?;
        Ok(ChatListArchive {})
    }

    proof fn round_trip(&self, at: Seq<char>) {
        reveal(<ChatListArchive as Wire>::wire);
        reveal(<ChatListArchive as Wire>::parse);
    }
}

impl Tagged for ChatListArchive {
    open spec fn known(tag: Seq<char>) -> bool {
        tag == "chatListArchive"@
    }

    fn knows(tag: &str) -> (r: bool) {
        same_text(tag, "chatListArchive")
    }

    proof fn tag_known(&self) {
        reveal(<ChatListArchive as Wire>::wire);
        assert(tag_of(self.wire()) == Some("chatListArchive"@));
        assert(Self::known("chatListArchive"@));
    }
}

/// Describes a list of chats
#[derive(Debug, Clone, PartialEq)]
pub enum ChatList {
    ChatListMain(ChatListMain),
    ChatListArchive(ChatListArchive),
}

impl Wire for ChatList {
    #[verifier::opaque]
    open spec fn wire(&self) -> Doc {
        match self {
            Self::ChatListMain(p) => p.wire(),
            Self::ChatListArchive(p) => p.wire(),
        }
    }

    #[verifier::opaque]
    open spec fn parse(d: Doc, at: Seq<char>) -> Result<Doc, Fault> {
        match d {
            Doc::Object(_) => match tag_of(d) {
                Some(t) => if t == "chatListMain"@ {
                    ChatListMain::parse(d, at)
                } else if t == "chatListArchive"@ {
                    ChatListArchive::parse(d, at)
                } else {
                    Err(Fault::UnknownVariant(t))
                },
                None => Err(Fault::MissingDiscriminator),
            },
            _ => Err(Fault::TypeMismatch(at)),
        }
    }

    fn encode(&self) -> (j: Json) {
        proof {
            reveal(<ChatList as Wire>::wire);
        }
        match self {
            Self::ChatListMain(p) => p.encode(),
            Self::ChatListArchive(p) => p.encode(),
        }
    }

    fn decode(j: &Json, at: &str) -> (r: Result<Self, DecodeError>) {
        proof {
            reveal(<ChatList as Wire>::wire);
            reveal(<ChatList as Wire>::parse);
        }
        let members = members_of(j, at)?;
        let tag = discriminator(members)?;
        if same_text(tag, "chatListMain") {
            Ok(Self::ChatListMain(ChatListMain::decode(j, at)?))
        } else if same_text(tag, "chatListArchive") {
            Ok(Self::ChatListArchive(ChatListArchive::decode(j, at)?))
        } else {
            Err(DecodeError::UnknownVariant(tag.to_owned()))
        }
    }

    proof fn round_trip(&self, at: Seq<char>) {
        reveal(<ChatList as Wire>::wire);
        reveal(<ChatList as Wire>::parse);
        reveal_strlit("chatListArchive");
        reveal_strlit("chatListMain");
        assert("chatListArchive"@.len() == 15);
        assert("chatListMain"@.len() == 12);
        match self {
            Self::ChatListMain(p) => {
                p.tag_known();
                p.round_trip(at);
            },
            Self::ChatListArchive(p) => {
                p.tag_known();
                p.round_trip(at);
            },
        }
    }
}

impl Tagged for ChatList {
    open spec fn known(tag: Seq<char>) -> bool {
        ||| tag == "chatListMain"@
        ||| tag == "chatListArchive"@
    }

    fn knows(tag: &str) -> (r: bool) {
        same_text(tag, "chatListMain")
            || same_text(tag, "chatListArchive")
    }

    proof fn tag_known(&self) {
        reveal(<ChatList as Wire>::wire);
        match self {
            Self::ChatListMain(p) => p.tag_known(),
            Self::ChatListArchive(p) => p.tag_known(),
        }
    }
}

impl Union for ChatList {
    proof fn unknown_rejected(d: Doc, at: Seq<char>) {
        reveal(<ChatList as Wire>::parse);
    }

    proof fn untagged_rejected(d: Doc, at: Seq<char>) {
        reveal(<ChatList as Wire>::parse);
    }
}

/// A chat. (Can be a private chat, basic group, supergroup, or secret chat)
#[derive(Debug, Clone, PartialEq)]
pub struct Chat {
    /// Chat unique identifier
    pub id: i64,
    /// Type of the chat
    pub type_: ChatType,
    /// A chat list to which the chat belongs; may be null
    pub chat_list: Option<ChatList>,
    /// Chat title
    pub title: String,
    /// Chat photo; may be null
    pub photo: Option<ChatPhoto>,
    /// Actions that non-administrator chat members are allowed to take in the chat
    pub permissions: ChatPermissions,
    /// Last message in the chat; may be null
    pub last_message: Option<Message>,
    /// Descending parameter by which chats are sorted in the main chat list. If the order number of
    /// two chats is the same, they must be sorted in descending order by ID. If 0, the position of
    /// the chat in the list is undetermined
    pub order: i64,
    /// True, if the chat is pinned
    pub is_pinned: bool,
    /// True, if the chat is marked as unread
    pub is_marked_as_unread: bool,
    /// True, if the chat is sponsored by the user's MTProxy server
    pub is_sponsored: bool,
    /// True, if the chat has scheduled messages
    pub has_scheduled_messages: bool,
    /// True, if the chat messages can be deleted only for the current user while other users will
    /// continue to see the messages
    pub can_be_deleted_only_for_self: bool,
    /// True, if the chat messages can be deleted for all users
    pub can_be_deleted_for_all_users: bool,
    /// True, if the chat can be reported to Telegram moderators through reportChat
    pub can_be_reported: bool,
    /// Default value of the disable_notification parameter, used when a message is sent to the chat
    pub default_disable_notification: bool,
    /// Number of unread messages in the chat
    pub unread_count: i32,
    /// Identifier of the last read incoming message
    pub last_read_inbox_message_id: i64,
    /// Identifier of the last read outgoing message
    pub last_read_outbox_message_id: i64,
    /// Number of unread messages with a mention/reply in the chat
    pub unread_mention_count: i32,
    /// Notification settings for this chat
    pub notification_settings: ChatNotificationSettings,
    /// Describes actions which should be possible to do through a chat action bar; may be null
    pub action_bar: Option<ChatActionBar>,
    /// Identifier of the pinned message in the chat; 0 if none
    pub pinned_message_id: i64,
    /// Identifier of the message from which reply markup needs to be used; 0 if there is no default
    /// custom reply markup in the chat
    pub reply_markup_message_id: i64,
    /// A draft of a message in the chat; may be null
    pub draft_message: Option<DraftMessage>,
    /// Contains client-specific data associated with the chat. (For example, the chat position or
    /// local chat notification settings can be stored here.) Persistent if the message database is
    /// used
    pub client_data: String,
}

impl Wire for Chat {
    #[verifier::opaque]
    open spec fn wire(&self) -> Doc {
        tagged(
            Map::empty()
                .insert("id"@, self.id.wire())
                .insert("type"@, self.type_.wire())
                .insert("chatList"@, self.chat_list.wire())
                .insert("title"@, self.title.wire())
                .insert("photo"@, self.photo.wire())
                .insert("permissions"@, self.permissions.wire())
                .insert("lastMessage"@, self.last_message.wire())
                .insert("order"@, wide_doc(self.order))
                .insert("isPinned"@, self.is_pinned.wire())
                .insert("isMarkedAsUnread"@, self.is_marked_as_unread.wire())
                .insert("isSponsored"@, self.is_sponsored.wire())
                .insert("hasScheduledMessages"@, self.has_scheduled_messages.wire())
                .insert("canBeDeletedOnlyForSelf"@, self.can_be_deleted_only_for_self.wire())
                .insert("canBeDeletedForAllUsers"@, self.can_be_deleted_for_all_users.wire())
                .insert("canBeReported"@, self.can_be_reported.wire())
                .insert("defaultDisableNotification"@, self.default_disable_notification.wire())
                .insert("unreadCount"@, self.unread_count.wire())
                .insert("lastReadInboxMessageId"@, self.last_read_inbox_message_id.wire())
                .insert("lastReadOutboxMessageId"@, self.last_read_outbox_message_id.wire())
                .insert("unreadMentionCount"@, self.unread_mention_count.wire())
                .insert("notificationSettings"@, self.notification_settings.wire())
                .insert("actionBar"@, self.action_bar.wire())
                .insert("pinnedMessageId"@, self.pinned_message_id.wire())
                .insert("replyMarkupMessageId"@, self.reply_markup_message_id.wire())
                .insert("draftMessage"@, self.draft_message.wire())
                .insert("clientData"@, self.client_data.wire()),
            "chat"@,
        )
    }

    #[verifier::opaque]
    open spec fn parse(d: Doc, at: Seq<char>) -> Result<Doc, Fault> {
        match d {
            Doc::Object(m) => {
                let id = field::<i64>(m, "id"@);
                let type_ = field::<ChatType>(m, "type"@);
                let chat_list = optional_field::<ChatList>(m, "chatList"@);
                let title = field::<String>(m, "title"@);
                let photo = optional_field::<ChatPhoto>(m, "photo"@);
                let permissions = field::<ChatPermissions>(m, "permissions"@);
                let last_message = optional_field::<Message>(m, "lastMessage"@);
                let order = wide_field(m, "order"@);
                let is_pinned = field::<bool>(m, "isPinned"@);
                let is_marked_as_unread = field::<bool>(m, "isMarkedAsUnread"@);
                let is_sponsored = field::<bool>(m, "isSponsored"@);
                let has_scheduled_messages = field::<bool>(m, "hasScheduledMessages"@);
                let can_be_deleted_only_for_self = field::<bool>(m, "canBeDeletedOnlyForSelf"@);
                let can_be_deleted_for_all_users = field::<bool>(m, "canBeDeletedForAllUsers"@);
                let can_be_reported = field::<bool>(m, "canBeReported"@);
                let default_disable_notification = field::<bool>(m, "defaultDisableNotification"@);
                let unread_count = field::<i32>(m, "unreadCount"@);
                let last_read_inbox_message_id = field::<i64>(m, "lastReadInboxMessageId"@);
                let last_read_outbox_message_id = field::<i64>(m, "lastReadOutboxMessageId"@);
                let unread_mention_count = field::<i32>(m, "unreadMentionCount"@);
                let notification_settings = field::<ChatNotificationSettings>(
                    m,
                    "notificationSettings"@,
                );
                let action_bar = optional_field::<ChatActionBar>(m, "actionBar"@);
                let pinned_message_id = field::<i64>(m, "pinnedMessageId"@);
                let reply_markup_message_id = field::<i64>(m, "replyMarkupMessageId"@);
                let draft_message = optional_field::<DraftMessage>(m, "draftMessage"@);
                let client_data = field::<String>(m, "clientData"@);
                if id is Err {
                    id
                } else if type_ is Err {
                    type_
                } else if chat_list is Err {
                    chat_list
                } else if title is Err {
                    title
                } else if photo is Err {
                    photo
                } else if permissions is Err {
                    permissions
                } else if last_message is Err {
                    last_message
                } else if order is Err {
                    order
                } else if is_pinned is Err {
                    is_pinned
                } else if is_marked_as_unread is Err {
                    is_marked_as_unread
                } else if is_sponsored is Err {
                    is_sponsored
                } else if has_scheduled_messages is Err {
                    has_scheduled_messages
                } else if can_be_deleted_only_for_self is Err {
                    can_be_deleted_only_for_self
                } else if can_be_deleted_for_all_users is Err {
                    can_be_deleted_for_all_users
                } else if can_be_reported is Err {
                    can_be_reported
                } else if default_disable_notification is Err {
                    default_disable_notification
                } else if unread_count is Err {
                    unread_count
                } else if last_read_inbox_message_id is Err {
                    last_read_inbox_message_id
                } else if last_read_outbox_message_id is Err {
                    last_read_outbox_message_id
                } else if unread_mention_count is Err {
                    unread_mention_count
                } else if notification_settings is Err {
                    notification_settings
                } else if action_bar is Err {
                    action_bar
                } else if pinned_message_id is Err {
                    pinned_message_id
                } else if reply_markup_message_id is Err {
                    reply_markup_message_id
                } else if draft_message is Err {
                    draft_message
                } else if client_data is Err {
                    client_data
                } else {
                    Ok(
                        tagged(
                            Map::empty()
                                .insert("id"@, id->Ok_0)
                                .insert("type"@, type_->Ok_0)
                                .insert("chatList"@, chat_list->Ok_0)
                                .insert("title"@, title->Ok_0)
                                .insert("photo"@, photo->Ok_0)
                                .insert("permissions"@, permissions->Ok_0)
                                .insert("lastMessage"@, last_message->Ok_0)
                                .insert("order"@, order->Ok_0)
                                .insert("isPinned"@, is_pinned->Ok_0)
                                .insert("isMarkedAsUnread"@, is_marked_as_unread->Ok_0)
                                .insert("isSponsored"@, is_sponsored->Ok_0)
                                .insert("hasScheduledMessages"@, has_scheduled_messages->Ok_0)
                                .insert(
                                    "canBeDeletedOnlyForSelf"@,
                                    can_be_deleted_only_for_self->Ok_0,
                                )
                                .insert(
                                    "canBeDeletedForAllUsers"@,
                                    can_be_deleted_for_all_users->Ok_0,
                                )
                                .insert("canBeReported"@, can_be_reported->Ok_0)
                                .insert(
                                    "defaultDisableNotification"@,
                                    default_disable_notification->Ok_0,
                                )
                                .insert("unreadCount"@, unread_count->Ok_0)
                                .insert("lastReadInboxMessageId"@, last_read_inbox_message_id->Ok_0)
                                .insert(
                                    "lastReadOutboxMessageId"@,
                                    last_read_outbox_message_id->Ok_0,
                                )
                                .insert("unreadMentionCount"@, unread_mention_count->Ok_0)
                                .insert("notificationSettings"@, notification_settings->Ok_0)
                                .insert("actionBar"@, action_bar->Ok_0)
                                .insert("pinnedMessageId"@, pinned_message_id->Ok_0)
                                .insert("replyMarkupMessageId"@, reply_markup_message_id->Ok_0)
                                .insert("draftMessage"@, draft_message->Ok_0)
                                .insert("clientData"@, client_data->Ok_0),
                            "chat"@,
                        ),
                    )
                }
            },
            _ => Err(Fault::TypeMismatch(at)),
        }
    }

    fn encode(&self) -> (j: Json) {
        proof {
            reveal(<Chat as Wire>::wire);
        }
        let mut members: Vec<Member> = Vec::new();
        put(&mut members, "id", self.id.encode());
        put(&mut members, "type", self.type_.encode());
        put(&mut members, "chatList", self.chat_list.encode());
        put(&mut members, "title", self.title.encode());
        put(&mut members, "photo", self.photo.encode());
        put(&mut members, "permissions", self.permissions.encode());
        put(&mut members, "lastMessage", self.last_message.encode());
        put(&mut members, "order", encode_wide(self.order));
        put(&mut members, "isPinned", self.is_pinned.encode());
        put(&mut members, "isMarkedAsUnread", self.is_marked_as_unread.encode());
        put(&mut members, "isSponsored", self.is_sponsored.encode());
        put(&mut members, "hasScheduledMessages", self.has_scheduled_messages.encode());
        put(&mut members, "canBeDeletedOnlyForSelf", self.can_be_deleted_only_for_self.encode());
        put(&mut members, "canBeDeletedForAllUsers", self.can_be_deleted_for_all_users.encode());
        put(&mut members, "canBeReported", self.can_be_reported.encode());
        put(&mut members, "defaultDisableNotification", self.default_disable_notification.encode());
        put(&mut members, "unreadCount", self.unread_count.encode());
        put(&mut members, "lastReadInboxMessageId", self.last_read_inbox_message_id.encode());
        put(&mut members, "lastReadOutboxMessageId", self.last_read_outbox_message_id.encode());
        put(&mut members, "unreadMentionCount", self.unread_mention_count.encode());
        put(&mut members, "notificationSettings", self.notification_settings.encode());
        put(&mut members, "actionBar", self.action_bar.encode());
        put(&mut members, "pinnedMessageId", self.pinned_message_id.encode());
        put(&mut members, "replyMarkupMessageId", self.reply_markup_message_id.encode());
        put(&mut members, "draftMessage", self.draft_message.encode());
        put(&mut members, "clientData", self.client_data.encode());
        seal(members, "chat")
    }

    fn decode(j: &Json, at: &str) -> (r: Result<Self, DecodeError>) {
        proof {
            reveal(<Chat as Wire>::wire);
            reveal(<Chat as Wire>::parse);
        }
        let members = members_of(j, at)?;
        let id = read_field::<i64>(members, "id")?;
        let type_ = read_field::<ChatType>(members, "type")?;
        let chat_list = read_optional::<ChatList>(members, "chatList")?;
        let title = read_field::<String>(members, "title")?;
        let photo = read_optional::<ChatPhoto>(members, "photo")?;
        let permissions = read_field::<ChatPermissions>(members, "permissions")?;
        let last_message = read_optional::<Message>(members, "lastMessage")?;
        let order = read_wide(members, "order")?;
        let is_pinned = read_field::<bool>(members, "isPinned")?;
        let is_marked_as_unread = read_field::<bool>(members, "isMarkedAsUnread")?;
        let is_sponsored = read_field::<bool>(members, "isSponsored")?;
        let has_scheduled_messages = read_field::<bool>(members, "hasScheduledMessages")?;
        let can_be_deleted_only_for_self = read_field::<bool>(members, "canBeDeletedOnlyForSelf")?;
        let can_be_deleted_for_all_users = read_field::<bool>(members, "canBeDeletedForAllUsers")?;
        let can_be_reported = read_field::<bool>(members, "canBeReported")?;
        let default_disable_notification = read_field::<bool>(
            members,
            "defaultDisableNotification",
        )?;
        let unread_count = read_field::<i32>(members, "unreadCount")?;
        let last_read_inbox_message_id = read_field::<i64>(members, "lastReadInboxMessageId")?;
        let last_read_outbox_message_id = read_field::<i64>(members, "lastReadOutboxMessageId")?;
        let unread_mention_count = read_field::<i32>(members, "unreadMentionCount")?;
        let notification_settings = read_field::<ChatNotificationSettings>(
            members,
            "notificationSettings",
        )?;
        let action_bar = read_optional::<ChatActionBar>(members, "actionBar")?;
        let pinned_message_id = read_field::<i64>(members, "pinnedMessageId")?;
        let reply_markup_message_id = read_field::<i64>(members, "replyMarkupMessageId")?;
        let draft_message = read_optional::<DraftMessage>(members, "draftMessage")?;
        let client_data = read_field::<String>(members, "clientData")?;
        Ok(Chat {
            id,
            type_,
            chat_list,
            title,
            photo,
            permissions,
            last_message,
            order,
            is_pinned,
            is_marked_as_unread,
            is_sponsored,
            has_scheduled_messages,
            can_be_deleted_only_for_self,
            can_be_deleted_for_all_users,
            can_be_reported,
            default_disable_notification,
            unread_count,
            last_read_inbox_message_id,
            last_read_outbox_message_id,
            unread_mention_count,
            notification_settings,
            action_bar,
            pinned_message_id,
            reply_markup_message_id,
            draft_message,
            client_data,
        })
    }

    #[verifier::rlimit(60)]
    proof fn round_trip(&self, at: Seq<char>) {
        reveal(<Chat as Wire>::wire);
        reveal(<Chat as Wire>::parse);
        reveal_strlit("@type");
        reveal_strlit("actionBar");
        reveal_strlit("canBeDeletedForAllUsers");
        reveal_strlit("canBeDeletedOnlyForSelf");
        reveal_strlit("canBeReported");
        reveal_strlit("chatList");
        reveal_strlit("clientData");
        reveal_strlit("defaultDisableNotification");
        reveal_strlit("draftMessage");
        reveal_strlit("hasScheduledMessages");
        reveal_strlit("id");
        reveal_strlit("isMarkedAsUnread");
        reveal_strlit("isPinned");
        reveal_strlit("isSponsored");
        reveal_strlit("lastMessage");
        reveal_strlit("lastReadInboxMessageId");
        reveal_strlit("lastReadOutboxMessageId");
        reveal_strlit("notificationSettings");
        reveal_strlit("order");
        reveal_strlit("permissions");
        reveal_strlit("photo");
        reveal_strlit("pinnedMessageId");
        reveal_strlit("replyMarkupMessageId");
        reveal_strlit("title");
        reveal_strlit("type");
        reveal_strlit("unreadCount");
        reveal_strlit("unreadMentionCount");
        assert("@type"@.len() == 5 && "@type"@[0] == '@');
        assert("actionBar"@.len() == 9);
        assert("canBeDeletedForAllUsers"@.len() == 23 && "canBeDeletedForAllUsers"@[12] == 'F');
        assert("canBeDeletedOnlyForSelf"@.len() == 23 && "canBeDeletedOnlyForSelf"@[12] == 'O');
        assert("canBeReported"@.len() == 13);
        assert("chatList"@.len() == 8 && "chatList"@[0] == 'c');
        assert("clientData"@.len() == 10);
        assert("defaultDisableNotification"@.len() == 26);
        assert("draftMessage"@.len() == 12);
        assert("hasScheduledMessages"@.len() == 20 && "hasScheduledMessages"@[0] == 'h');
        assert("id"@.len() == 2);
        assert("isMarkedAsUnread"@.len() == 16);
        assert("isPinned"@.len() == 8 && "isPinned"@[0] == 'i');
        assert("isSponsored"@.len() == 11 && "isSponsored"@[0] == 'i');
        assert("lastMessage"@.len() == 11 && "lastMessage"@[0] == 'l');
        assert("lastReadInboxMessageId"@.len() == 22);
        assert("lastReadOutboxMessageId"@.len() == 23 && "lastReadOutboxMessageId"@[12] == 'o');
        assert("notificationSettings"@.len() == 20 && "notificationSettings"@[0] == 'n');
        assert("order"@.len() == 5 && "order"@[0] == 'o');
        assert("permissions"@.len() == 11 && "permissions"@[0] == 'p');
        assert("photo"@.len() == 5 && "photo"@[0] == 'p');
        assert("pinnedMessageId"@.len() == 15);
        assert("replyMarkupMessageId"@.len() == 20 && "replyMarkupMessageId"@[0] == 'r');
        assert("title"@.len() == 5 && "title"@[0] == 't');
        assert("type"@.len() == 4);
        assert("unreadCount"@.len() == 11 && "unreadCount"@[0] == 'u');
        assert("unreadMentionCount"@.len() == 18);
        self.id.round_trip("id"@);
        self.type_.round_trip("type"@);
        self.chat_list.round_trip("chatList"@);
        self.title.round_trip("title"@);
        self.photo.round_trip("photo"@);
        self.permissions.round_trip("permissions"@);
        self.last_message.round_trip("lastMessage"@);
        lemma_wide_round_trip(self.order, "order"@);
        self.is_pinned.round_trip("isPinned"@);
        self.is_marked_as_unread.round_trip("isMarkedAsUnread"@);
        self.is_sponsored.round_trip("isSponsored"@);
        self.has_scheduled_messages.round_trip("hasScheduledMessages"@);
        self.can_be_deleted_only_for_self.round_trip("canBeDeletedOnlyForSelf"@);
        self.can_be_deleted_for_all_users.round_trip("canBeDeletedForAllUsers"@);
        self.can_be_reported.round_trip("canBeReported"@);
        self.default_disable_notification.round_trip("defaultDisableNotification"@);
        self.unread_count.round_trip("unreadCount"@);
        self.last_read_inbox_message_id.round_trip("lastReadInboxMessageId"@);
        self.last_read_outbox_message_id.round_trip("lastReadOutboxMessageId"@);
        self.unread_mention_count.round_trip("unreadMentionCount"@);
        self.notification_settings.round_trip("notificationSettings"@);
        self.action_bar.round_trip("actionBar"@);
        self.pinned_message_id.round_trip("pinnedMessageId"@);
        self.reply_markup_message_id.round_trip("replyMarkupMessageId"@);
        self.draft_message.round_trip("draftMessage"@);
        self.client_data.round_trip("clientData"@);
        let m = self.wire()->Object_0;
        assert(field::<i64>(m, "id"@) == Ok::<Doc, Fault>(self.id.wire()));
        assert(field::<ChatType>(m, "type"@) == Ok::<Doc, Fault>(self.type_.wire()));
        assert(optional_field::<ChatList>(m, "chatList"@)
            == Ok::<Doc, Fault>(self.chat_list.wire()));
        assert(field::<String>(m, "title"@) == Ok::<Doc, Fault>(self.title.wire()));
        assert(optional_field::<ChatPhoto>(m, "photo"@) == Ok::<Doc, Fault>(self.photo.wire()));
        assert(field::<ChatPermissions>(m, "permissions"@)
            == Ok::<Doc, Fault>(self.permissions.wire()));
        assert(optional_field::<Message>(m, "lastMessage"@)
            == Ok::<Doc, Fault>(self.last_message.wire()));
        assert(wide_field(m, "order"@) == Ok::<Doc, Fault>(wide_doc(self.order)));
        assert(field::<bool>(m, "isPinned"@) == Ok::<Doc, Fault>(self.is_pinned.wire()));
        assert(field::<bool>(m, "isMarkedAsUnread"@)
            == Ok::<Doc, Fault>(self.is_marked_as_unread.wire()));
        assert(field::<bool>(m, "isSponsored"@) == Ok::<Doc, Fault>(self.is_sponsored.wire()));
        assert(field::<bool>(m, "hasScheduledMessages"@)
            == Ok::<Doc, Fault>(self.has_scheduled_messages.wire()));
        assert(field::<bool>(m, "canBeDeletedOnlyForSelf"@)
            == Ok::<Doc, Fault>(self.can_be_deleted_only_for_self.wire()));
        assert(field::<bool>(m, "canBeDeletedForAllUsers"@)
            == Ok::<Doc, Fault>(self.can_be_deleted_for_all_users.wire()));
        assert(field::<bool>(m, "canBeReported"@) == Ok::<Doc, Fault>(self.can_be_reported.wire()));
        assert(field::<bool>(m, "defaultDisableNotification"@)
            == Ok::<Doc, Fault>(self.default_disable_notification.wire()));
        assert(field::<i32>(m, "unreadCount"@) == Ok::<Doc, Fault>(self.unread_count.wire()));
        assert(field::<i64>(m, "lastReadInboxMessageId"@)
            == Ok::<Doc, Fault>(self.last_read_inbox_message_id.wire()));
        assert(field::<i64>(m, "lastReadOutboxMessageId"@)
            == Ok::<Doc, Fault>(self.last_read_outbox_message_id.wire()));
        assert(field::<i32>(m, "unreadMentionCount"@)
            == Ok::<Doc, Fault>(self.unread_mention_count.wire()));
        assert(field::<ChatNotificationSettings>(m, "notificationSettings"@)
            == Ok::<Doc, Fault>(self.notification_settings.wire()));
        assert(optional_field::<ChatActionBar>(m, "actionBar"@)
            == Ok::<Doc, Fault>(self.action_bar.wire()));
        assert(field::<i64>(m, "pinnedMessageId"@)
            == Ok::<Doc, Fault>(self.pinned_message_id.wire()));
        assert(field::<i64>(m, "replyMarkupMessageId"@)
            == Ok::<Doc, Fault>(self.reply_markup_message_id.wire()));
        assert(optional_field::<DraftMessage>(m, "draftMessage"@)
            == Ok::<Doc, Fault>(self.draft_message.wire()));
        assert(field::<String>(m, "clientData"@) == Ok::<Doc, Fault>(self.client_data.wire()));
    }
}

impl Tagged for Chat {
    open spec fn known(tag: Seq<char>) -> bool {
        tag == "chat"@
    }

    fn knows(tag: &str) -> (r: bool) {
        same_text(tag, "chat")
    }

    proof fn tag_known(&self) {
        reveal(<Chat as Wire>::wire);
        assert(tag_of(self.wire()) == Some("chat"@));
        assert(Self::known("chat"@));
    }
}

/// Represents a list of chats
#[derive(Debug, Clone, PartialEq)]
pub struct Chats {
    /// List of chat identifiers
    pub chat_ids: Vec<i64>,
}

impl Wire for Chats {
    #[verifier::opaque]
    open spec fn wire(&self) -> Doc {
        tagged(
            Map::empty()
                .insert("chatIds"@, self.chat_ids.wire()),
            "chats"@,
        )
    }

    #[verifier::opaque]
    open spec fn parse(d: Doc, at: Seq<char>) -> Result<Doc, Fault> {
        match d {
            Doc::Object(m) => {
                let chat_ids = field::<Vec<i64>>(m, "chatIds"@);
                if chat_ids is Err {
                    chat_ids
                } else {
                    Ok(
                        tagged(
                            Map::empty()
                                .insert("chatIds"@, chat_ids->Ok_0),
                            "chats"@,
                        ),
                    )
                }
            },
            _ => Err(Fault::TypeMismatch(at)),
        }
    }

    fn encode(&self) -> (j: Json) {
        proof {
            reveal(<Chats as Wire>::wire);
        }
        let mut members: Vec<Member> = Vec::new();
        put(&mut members, "chatIds", self.chat_ids.encode());
        seal(members, "chats")
    }

    fn decode(j: &Json, at: &str) -> (r: Result<Self, DecodeError>) {
        proof {
            reveal(<Chats as Wire>::wire);
            reveal(<Chats as Wire>::parse);
        }
        let members = members_of(j, at)?;
        let chat_ids = read_field::<Vec<i64>>(members, "chatIds")?;
        Ok(Chats { chat_ids })
    }

    proof fn round_trip(&self, at: Seq<char>) {
        reveal(<Chats as Wire>::wire);
        reveal(<Chats as Wire>::parse);
        reveal_strlit("@type");
        reveal_strlit("chatIds");
        assert("@type"@.len() == 5);
        assert("chatIds"@.len() == 7);
        self.chat_ids.round_trip("chatIds"@);
    }
}

impl Tagged for Chats {
    open spec fn known(tag: Seq<char>) -> bool {
        tag == "chats"@
    }

    fn knows(tag: &str) -> (r: bool) {
        same_text(tag, "chats")
    }

    proof fn tag_known(&self) {
        reveal(<Chats as Wire>::wire);
        assert(tag_of(self.wire()) == Some("chats"@));
        assert(Self::known("chats"@));
    }
}

/// Describes a chat located nearby
#[derive(Debug, Clone, PartialEq)]
pub struct ChatNearby {
    /// Chat identifier
    pub chat_id: i64,
    /// Distance to the chat location in meters
    pub distance: i32,
}

impl Wire for ChatNearby {
    #[verifier::opaque]
    open spec fn wire(&self) -> Doc {
        tagged(
            Map::empty()
                .insert("chatId"@, self.chat_id.wire())
                .insert("distance"@, self.distance.wire()),
            "chatNearby"@,
        )
    }

    #[verifier::opaque]
    open spec fn parse(d: Doc, at: Seq<char>) -> Result<Doc, Fault> {
        match d {
            Doc::Object(m) => {
                let chat_id = field::<i64>(m, "chatId"@);
                let distance = field::<i32>(m, "distance"@);
                if chat_id is Err {
                    chat_id
                } else if distance is Err {
                    distance
                } else {
                    Ok(
                        tagged(
                            Map::empty()
                                .insert("chatId"@, chat_id->Ok_0)
                                .insert("distance"@, distance->Ok_0),
                            "chatNearby"@,
                        ),
                    )
                }
            },
            _ => Err(Fault::TypeMismatch(at)),
        }
    }

    fn encode(&self) -> (j: Json) {
        proof {
            reveal(<ChatNearby as Wire>::wire);
        }
        let mut members: Vec<Member> = Vec::new();
        put(&mut members, "chatId", self.chat_id.encode());
        put(&mut members, "distance", self.distance.encode());
        seal(members, "chatNearby")
    }

    fn decode(j: &Json, at: &str) -> (r: Result<Self, DecodeError>) {
        proof {
            reveal(<ChatNearby as Wire>::wire);
            reveal(<ChatNearby as Wire>::parse);
        }
        let members = members_of(j, at)?;
        let chat_id = read_field::<i64>(members, "chatId")?;
        let distance = read_field::<i32>(members, "distance")?;
        Ok(ChatNearby { chat_id, distance })
    }

    proof fn round_trip(&self, at: Seq<char>) {
        reveal(<ChatNearby as Wire>::wire);
        reveal(<ChatNearby as Wire>::parse);
        reveal_strlit("@type");
        reveal_strlit("chatId");
        reveal_strlit("distance");
        assert("@type"@.len() == 5);
        assert("chatId"@.len() == 6);
        assert("distance"@.len() == 8);
        self.chat_id.round_trip("chatId"@);
        self.distance.round_trip("distance"@);
    }
}

impl Tagged for ChatNearby {
    open spec fn known(tag: Seq<char>) -> bool {
        tag == "chatNearby"@
    }

    fn knows(tag: &str) -> (r: bool) {
        same_text(tag, "chatNearby")
    }

    proof fn tag_known(&self) {
        reveal(<ChatNearby as Wire>::wire);
        assert(tag_of(self.wire()) == Some("chatNearby"@));
        assert(Self::known("chatNearby"@));
    }
}

/// Represents a list of chats located nearby
#[derive(Debug, Clone, PartialEq)]
pub struct ChatsNearby {
    /// List of users nearby
    pub users_nearby: Vec<ChatNearby>,
    /// List of location-based supergroups nearby
    pub supergroups_nearby: Vec<ChatNearby>,
}

impl Wire for ChatsNearby {
    #[verifier::opaque]
    open spec fn wire(&self) -> Doc {
        tagged(
            Map::empty()
                .insert("usersNearby"@, self.users_nearby.wire())
                .insert("supergroupsNearby"@, self.supergroups_nearby.wire()),
            "chatsNearby"@,
        )
    }

    #[verifier::opaque]
    open spec fn parse(d: Doc, at: Seq<char>) -> Result<Doc, Fault> {
        match d {
            Doc::Object(m) => {
                let users_nearby = field::<Vec<ChatNearby>>(m, "usersNearby"@);
                let supergroups_nearby = field::<Vec<ChatNearby>>(m, "supergroupsNearby"@);
                if users_nearby is Err {
                    users_nearby
                } else if supergroups_nearby is Err {
                    supergroups_nearby
                } else {
                    Ok(
                        tagged(
                            Map::empty()
                                .insert("usersNearby"@, users_nearby->Ok_0)
                                .insert("supergroupsNearby"@, supergroups_nearby->Ok_0),
                            "chatsNearby"@,
                        ),
                    )
                }
            },
            _ => Err(Fault::TypeMismatch(at)),
        }
    }

    fn encode(&self) -> (j: Json) {
        proof {
            reveal(<ChatsNearby as Wire>::wire);
        }
        let mut members: Vec<Member> = Vec::new();
        put(&mut members, "usersNearby", self.users_nearby.encode());
        put(&mut members, "supergroupsNearby", self.supergroups_nearby.encode());
        seal(members, "chatsNearby")
    }

    fn decode(j: &Json, at: &str) -> (r: Result<Self, DecodeError>) {
        proof {
            reveal(<ChatsNearby as Wire>::wire);
            reveal(<ChatsNearby as Wire>::parse);
        }
        let members = members_of(j, at)?;
        let users_nearby = read_field::<Vec<ChatNearby>>(members, "usersNearby")?;
        let supergroups_nearby = read_field::<Vec<ChatNearby>>(members, "supergroupsNearby")?;
        Ok(ChatsNearby { users_nearby, supergroups_nearby })
    }

    proof fn round_trip(&self, at: Seq<char>) {
        reveal(<ChatsNearby as Wire>::wire);
        reveal(<ChatsNearby as Wire>::parse);
        reveal_strlit("@type");
        reveal_strlit("supergroupsNearby");
        reveal_strlit("usersNearby");
        assert("@type"@.len() == 5);
        assert("supergroupsNearby"@.len() == 17);
        assert("usersNearby"@.len() == 11);
        self.users_nearby.round_trip("usersNearby"@);
        self.supergroups_nearby.round_trip("supergroupsNearby"@);
    }
}

impl Tagged for ChatsNearby {
    open spec fn known(tag: Seq<char>) -> bool {
        tag == "chatsNearby"@
    }

    fn knows(tag: &str) -> (r: bool) {
        same_text(tag, "chatsNearby")
    }

    proof fn tag_known(&self) {
        reveal(<ChatsNearby as Wire>::wire);
        assert(tag_of(self.wire()) == Some("chatsNearby"@));
        assert(Self::known("chatsNearby"@));
    }
}

/// Contains a chat invite link
#[derive(Debug, Clone, PartialEq)]
pub struct ChatInviteLink {
    /// Chat invite link
    pub invite_link: String,
}

impl Wire for ChatInviteLink {
    #[verifier::opaque]
    open spec fn wire(&self) -> Doc {
        tagged(
            Map::empty()
                .insert("inviteLink"@, self.invite_link.wire()),
            "chatInviteLink"@,
        )
    }

    #[verifier::opaque]
    open spec fn parse(d: Doc, at: Seq<char>) -> Result<Doc, Fault> {
        match d {
            Doc::Object(m) => {
                let invite_link = field::<String>(m, "inviteLink"@);
                if invite_link is Err {
                    invite_link
                } else {
                    Ok(
                        tagged(
                            Map::empty()
                                .insert("inviteLink"@, invite_link->Ok_0),
                            "chatInviteLink"@,
                        ),
                    )
                }
            },
            _ => Err(Fault::TypeMismatch(at)),
        }
    }

    fn encode(&self) -> (j: Json) {
        proof {
            reveal(<ChatInviteLink as Wire>::wire);
        }
        let mut members: Vec<Member> = Vec::new();
        put(&mut members, "inviteLink", self.invite_link.encode());
        seal(members, "chatInviteLink")
    }

    fn decode(j: &Json, at: &str) -> (r: Result<Self, DecodeError>) {
        proof {
            reveal(<ChatInviteLink as Wire>::wire);
            reveal(<ChatInviteLink as Wire>::parse);
        }
        let members = members_of(j, at)?;
        let invite_link = read_field::<String>(members, "inviteLink")?;
        Ok(ChatInviteLink { invite_link })
    }

    proof fn round_trip(&self, at: Seq<char>) {
        reveal(<ChatInviteLink as Wire>::wire);
        reveal(<ChatInviteLink as Wire>::parse);
        reveal_strlit("@type");
        reveal_strlit("inviteLink");
        assert("@type"@.len() == 5);
        assert("inviteLink"@.len() == 10);
        self.invite_link.round_trip("inviteLink"@);
    }
}

impl Tagged for ChatInviteLink {
    open spec fn known(tag: Seq<char>) -> bool {
        tag == "chatInviteLink"@
    }

    fn knows(tag: &str) -> (r: bool) {
        same_text(tag, "chatInviteLink")
    }

    proof fn tag_known(&self) {
        reveal(<ChatInviteLink as Wire>::wire);
        assert(tag_of(self.wire()) == Some("chatInviteLink"@));
        assert(Self::known("chatInviteLink"@));
    }
}

/// Contains information about a chat invite link
#[derive(Debug, Clone, PartialEq)]
pub struct ChatInviteLinkInfo {
    /// Chat identifier of the invite link; 0 if the user is not a member of this chat
    pub chat_id: i64,
    /// Contains information about the type of the chat
    pub type_: ChatType,
    /// Title of the chat
    pub title: String,
    /// Chat photo; may be null
    pub photo: Option<ChatPhoto>,
    /// Number of members
    pub member_count: i32,
    /// User identifiers of some chat members that may be known to the current user
    pub member_user_ids: Vec<i32>,
    /// True, if the chat is a public supergroup or channel, i.e. it has a username or it is a
    /// location-based supergroup
    pub is_public: bool,
}

impl Wire for ChatInviteLinkInfo {
    #[verifier::opaque]
    open spec fn wire(&self) -> Doc {
        tagged(
            Map::empty()
                .insert("chatId"@, self.chat_id.wire())
                .insert("type"@, self.type_.wire())
                .insert("title"@, self.title.wire())
                .insert("photo"@, self.photo.wire())
                .insert("memberCount"@, self.member_count.wire())
                .insert("memberUserIds"@, self.member_user_ids.wire())
                .insert("isPublic"@, self.is_public.wire()),
            "chatInviteLinkInfo"@,
        )
    }

    #[verifier::opaque]
    open spec fn parse(d: Doc, at: Seq<char>) -> Result<Doc, Fault> {
        match d {
            Doc::Object(m) => {
                let chat_id = field::<i64>(m, "chatId"@);
                let type_ = field::<ChatType>(m, "type"@);
                let title = field::<String>(m, "title"@);
                let photo = optional_field::<ChatPhoto>(m, "photo"@);
                let member_count = field::<i32>(m, "memberCount"@);
                let member_user_ids = field::<Vec<i32>>(m, "memberUserIds"@);
                let is_public = field::<bool>(m, "isPublic"@);
                if chat_id is Err {
                    chat_id
                } else if type_ is Err {
                    type_
                } else if title is Err {
                    title
                } else if photo is Err {
                    photo
                } else if member_count is Err {
                    member_count
                } else if member_user_ids is Err {
                    member_user_ids
                } else if is_public is Err {
                    is_public
                } else {
                    Ok(
                        tagged(
                            Map::empty()
                                .insert("chatId"@, chat_id->Ok_0)
                                .insert("type"@, type_->Ok_0)
                                .insert("title"@, title->Ok_0)
                                .insert("photo"@, photo->Ok_0)
                                .insert("memberCount"@, member_count->Ok_0)
                                .insert("memberUserIds"@, member_user_ids->Ok_0)
                                .insert("isPublic"@, is_public->Ok_0),
                            "chatInviteLinkInfo"@,
                        ),
                    )
                }
            },
            _ => Err(Fault::TypeMismatch(at)),
        }
    }

    fn encode(&self) -> (j: Json) {
        proof {
            reveal(<ChatInviteLinkInfo as Wire>::wire);
        }
        let mut members: Vec<Member> = Vec::new();
        put(&mut members, "chatId", self.chat_id.encode());
        put(&mut members, "type", self.type_.encode());
        put(&mut members, "title", self.title.encode());
        put(&mut members, "photo", self.photo.encode());
        put(&mut members, "memberCount", self.member_count.encode());
        put(&mut members, "memberUserIds", self.member_user_ids.encode());
        put(&mut members, "isPublic", self.is_public.encode());
        seal(members, "chatInviteLinkInfo")
    }

    fn decode(j: &Json, at: &str) -> (r: Result<Self, DecodeError>) {
        proof {
            reveal(<ChatInviteLinkInfo as Wire>::wire);
            reveal(<ChatInviteLinkInfo as Wire>::parse);
        }
        let members = members_of(j, at)?;
        let chat_id = read_field::<i64>(members, "chatId")?;
        let type_ = read_field::<ChatType>(members, "type")?;
        let title = read_field::<String>(members, "title")?;
        let photo = read_optional::<ChatPhoto>(members, "photo")?;
        let member_count = read_field::<i32>(members, "memberCount")?;
        let member_user_ids = read_field::<Vec<i32>>(members, "memberUserIds")?;
        let is_public = read_field::<bool>(members, "isPublic")?;
        Ok(ChatInviteLinkInfo {
            chat_id,
            type_,
            title,
            photo,
            member_count,
            member_user_ids,
            is_public,
        })
    }

    proof fn round_trip(&self, at: Seq<char>) {
        reveal(<ChatInviteLinkInfo as Wire>::wire);
        reveal(<ChatInviteLinkInfo as Wire>::parse);
        reveal_strlit("@type");
        reveal_strlit("chatId");
        reveal_strlit("isPublic");
        reveal_strlit("memberCount");
        reveal_strlit("memberUserIds");
        reveal_strlit("photo");
        reveal_strlit("title");
        reveal_strlit("type");
        assert("@type"@.len() == 5 && "@type"@[0] == '@');
        assert("chatId"@.len() == 6);
        assert("isPublic"@.len() == 8);
        assert("memberCount"@.len() == 11);
        assert("memberUserIds"@.len() == 13);
        assert("photo"@.len() == 5 && "photo"@[0] == 'p');
        assert("title"@.len() == 5 && "title"@[0] == 't');
        assert("type"@.len() == 4);
        self.chat_id.round_trip("chatId"@);
        self.type_.round_trip("type"@);
        self.title.round_trip("title"@);
        self.photo.round_trip("photo"@);
        self.member_count.round_trip("memberCount"@);
        self.member_user_ids.round_trip("memberUserIds"@);
        self.is_public.round_trip("isPublic"@);
    }
}

impl Tagged for ChatInviteLinkInfo {
    open spec fn known(tag: Seq<char>) -> bool {
        tag == "chatInviteLinkInfo"@
    }

    fn knows(tag: &str) -> (r: bool) {
        same_text(tag, "chatInviteLinkInfo")
    }

    proof fn tag_known(&self) {
        reveal(<ChatInviteLinkInfo as Wire>::wire);
        assert(tag_of(self.wire()) == Some("chatInviteLinkInfo"@));
        assert(Self::known("chatInviteLinkInfo"@));
    }
}

/// The chat is public, because it has username
#[derive(Debug, Clone, PartialEq)]
pub struct PublicChatTypeHasUsername {}

impl Wire for PublicChatTypeHasUsername {
    #[verifier::opaque]
    open spec fn wire(&self) -> Doc {
        tagged(Map::empty(), "publicChatTypeHasUsername"@)
    }

    #[verifier::opaque]
    open spec fn parse(d: Doc, at: Seq<char>) -> Result<Doc, Fault> {
        match d {
            Doc::Object(_) => Ok(tagged(Map::empty(), "publicChatTypeHasUsername"@)),
            _ => Err(Fault::TypeMismatch(at)),
        }
    }

    fn encode(&self) -> (j: Json) {
        proof {
            reveal(<PublicChatTypeHasUsername as Wire>::wire);
        }
        seal(Vec::new(), "publicChatTypeHasUsername")
    }

    fn decode(j: &Json, at: &str) -> (r: Result<Self, DecodeError>) {
        proof {
            reveal(<PublicChatTypeHasUsername as Wire>::wire);
            reveal(<PublicChatTypeHasUsername as Wire>::parse);
        }
        let _ = members_of(j, at)?;
        Ok(PublicChatTypeHasUsername {})
    }

    proof fn round_trip(&self, at: Seq<char>) {
        reveal(<PublicChatTypeHasUsername as Wire>::wire);
        reveal(<PublicChatTypeHasUsername as Wire>::parse);
    }
}

impl Tagged for PublicChatTypeHasUsername {
    open spec fn known(tag: Seq<char>) -> bool {
        tag == "publicChatTypeHasUsername"@
    }

    fn knows(tag: &str) -> (r: bool) {
        same_text(tag, "publicChatTypeHasUsername")
    }

    proof fn tag_known(&self) {
        reveal(<PublicChatTypeHasUsername as Wire>::wire);
        assert(tag_of(self.wire()) == Some("publicChatTypeHasUsername"@));
        assert(Self::known("publicChatTypeHasUsername"@));
    }
}

/// The chat is public, because it is a location-based supergroup
#[derive(Debug, Clone, PartialEq)]
pub struct PublicChatTypeIsLocationBased {}

impl Wire for PublicChatTypeIsLocationBased {
    #[verifier::opaque]
    open spec fn wire(&self) -> Doc {
        tagged(Map::empty(), "publicChatTypeIsLocationBased"@)
    }

    #[verifier::opaque]
    open spec fn parse(d: Doc, at: Seq<char>) -> Result<Doc, Fault> {
        match d {
            Doc::Object(_) => Ok(tagged(Map::empty(), "publicChatTypeIsLocationBased"@)),
            _ => Err(Fault::TypeMismatch(at)),
        }
    }

    fn encode(&self) -> (j: Json) {
        proof {
            reveal(<PublicChatTypeIsLocationBased as Wire>::wire);
        }
        seal(Vec::new(), "publicChatTypeIsLocationBased")
    }

    fn decode(j: &Json, at: &str) -> (r: Result<Self, DecodeError>) {
        proof {
            reveal(<PublicChatTypeIsLocationBased as Wire>::wire);
            reveal(<PublicChatTypeIsLocationBased as Wire>::parse);
        }
        let _ = members_of(j, at)?;
        Ok(PublicChatTypeIsLocationBased {})
    }

    proof fn round_trip(&self, at: Seq<char>) {
        reveal(<PublicChatTypeIsLocationBased as Wire>::wire);
        reveal(<PublicChatTypeIsLocationBased as Wire>::parse);
    }
}

impl Tagged for PublicChatTypeIsLocationBased {
    open spec fn known(tag: Seq<char>) -> bool {
        tag == "publicChatTypeIsLocationBased"@
    }

    fn knows(tag: &str) -> (r: bool) {
        same_text(tag, "publicChatTypeIsLocationBased")
    }

    proof fn tag_known(&self) {
        reveal(<PublicChatTypeIsLocationBased as Wire>::wire);
        assert(tag_of(self.wire()) == Some("publicChatTypeIsLocationBased"@));
        assert(Self::known("publicChatTypeIsLocationBased"@));
    }
}

/// Describes a type of public chats
#[derive(Debug, Clone, PartialEq)]
pub enum PublicChatType {
    PublicChatTypeHasUsername(PublicChatTypeHasUsername),
    PublicChatTypeIsLocationBased(PublicChatTypeIsLocationBased),
}

impl Wire for PublicChatType {
    #[verifier::opaque]
    open spec fn wire(&self) -> Doc {
        match self {
            Self::PublicChatTypeHasUsername(p) => p.wire(),
            Self::PublicChatTypeIsLocationBased(p) => p.wire(),
        }
    }

    #[verifier::opaque]
    open spec fn parse(d: Doc, at: Seq<char>) -> Result<Doc, Fault> {
        match d {
            Doc::Object(_) => match tag_of(d) {
                Some(t) => if t == "publicChatTypeHasUsername"@ {
                    PublicChatTypeHasUsername::parse(d, at)
                } else if t == "publicChatTypeIsLocationBased"@ {
                    PublicChatTypeIsLocationBased::parse(d, at)
                } else {
                    Err(Fault::UnknownVariant(t))
                },
                None => Err(Fault::MissingDiscriminator),
            },
            _ => Err(Fault::TypeMismatch(at)),
        }
    }

    fn encode(&self) -> (j: Json) {
        proof {
            reveal(<PublicChatType as Wire>::wire);
        }
        match self {
            Self::PublicChatTypeHasUsername(p) => p.encode(),
            Self::PublicChatTypeIsLocationBased(p) => p.encode(),
        }
    }

    fn decode(j: &Json, at: &str) -> (r: Result<Self, DecodeError>) {
        proof {
            reveal(<PublicChatType as Wire>::wire);
            reveal(<PublicChatType as Wire>::parse);
        }
        let members = members_of(j, at)?;
        let tag = discriminator(members)?;
        if same_text(tag, "publicChatTypeHasUsername") {
            Ok(Self::PublicChatTypeHasUsername(PublicChatTypeHasUsername::decode(j, at)?))
        } else if same_text(tag, "publicChatTypeIsLocationBased") {
            Ok(Self::PublicChatTypeIsLocationBased(PublicChatTypeIsLocationBased::decode(j, at)?))
        } else {
            Err(DecodeError::UnknownVariant(tag.to_owned()))
        }
    }

    proof fn round_trip(&self, at: Seq<char>) {
        reveal(<PublicChatType as Wire>::wire);
        reveal(<PublicChatType as Wire>::parse);
        reveal_strlit("publicChatTypeHasUsername");
        reveal_strlit("publicChatTypeIsLocationBased");
        assert("publicChatTypeHasUsername"@.len() == 25);
        assert("publicChatTypeIsLocationBased"@.len() == 29);
        match self {
            Self::PublicChatTypeHasUsername(p) => {
                p.tag_known();
                p.round_trip(at);
            },
            Self::PublicChatTypeIsLocationBased(p) => {
                p.tag_known();
                p.round_trip(at);
            },
        }
    }
}

impl Tagged for PublicChatType {
    open spec fn known(tag: Seq<char>) -> bool {
        ||| tag == "publicChatTypeHasUsername"@
        ||| tag == "publicChatTypeIsLocationBased"@
    }

    fn knows(tag: &str) -> (r: bool) {
        same_text(tag, "publicChatTypeHasUsername")
            || same_text(tag, "publicChatTypeIsLocationBased")
    }

    proof fn tag_known(&self) {
        reveal(<PublicChatType as Wire>::wire);
        match self {
            Self::PublicChatTypeHasUsername(p) => p.tag_known(),
            Self::PublicChatTypeIsLocationBased(p) => p.tag_known(),
        }
    }
}

impl Union for PublicChatType {
    proof fn unknown_rejected(d: Doc, at: Seq<char>) {
        reveal(<PublicChatType as Wire>::parse);
    }

    proof fn untagged_rejected(d: Doc, at: Seq<char>) {
        reveal(<PublicChatType as Wire>::parse);
    }
}

/// The chat can be reported as spam using the method reportChat with the reason
/// chatReportReasonSpam
#[derive(Debug, Clone, PartialEq)]
pub struct ChatActionBarReportSpam {}

impl Wire for ChatActionBarReportSpam {
    #[verifier::opaque]
    open spec fn wire(&self) -> Doc {
        tagged(Map::empty(), "chatActionBarReportSpam"@)
    }

    #[verifier::opaque]
    open spec fn parse(d: Doc, at: Seq<char>) -> Result<Doc, Fault> {
        match d {
            Doc::Object(_) => Ok(tagged(Map::empty(), "chatActionBarReportSpam"@)),
            _ => Err(Fault::TypeMismatch(at)),
        }
    }

    fn encode(&self) -> (j: Json) {
        proof {
            reveal(<ChatActionBarReportSpam as Wire>::wire);
        }
        seal(Vec::new(), "chatActionBarReportSpam")
    }

    fn decode(j: &Json, at: &str) -> (r: Result<Self, DecodeError>) {
        proof {
            reveal(<ChatActionBarReportSpam as Wire>::wire);
            reveal(<ChatActionBarReportSpam as Wire>::parse);
        }
        let _ = members_of(j, at)?;
        Ok(ChatActionBarReportSpam {})
    }

    proof fn round_trip(&self, at: Seq<char>) {
        reveal(<ChatActionBarReportSpam as Wire>::wire);
        reveal(<ChatActionBarReportSpam as Wire>::parse);
    }
}

impl Tagged for ChatActionBarReportSpam {
    open spec fn known(tag: Seq<char>) -> bool {
        tag == "chatActionBarReportSpam"@
    }

    fn knows(tag: &str) -> (r: bool) {
        same_text(tag, "chatActionBarReportSpam")
    }

    proof fn tag_known(&self) {
        reveal(<ChatActionBarReportSpam as Wire>::wire);
        assert(tag_of(self.wire()) == Some("chatActionBarReportSpam"@));
        assert(Self::known("chatActionBarReportSpam"@));
    }
}

/// The chat is a location-based supergroup, which can be reported as having unrelated location
/// using the method reportChat with the reason chatReportReasonUnrelatedLocation
#[derive(Debug, Clone, PartialEq)]
pub struct ChatActionBarReportUnrelatedLocation {}

impl Wire for ChatActionBarReportUnrelatedLocation {
    #[verifier::opaque]
    open spec fn wire(&self) -> Doc {
        tagged(Map::empty(), "chatActionBarReportUnrelatedLocation"@)
    }

    #[verifier::opaque]
    open spec fn parse(d: Doc, at: Seq<char>) -> Result<Doc, Fault> {
        match d {
            Doc::Object(_) => Ok(tagged(Map::empty(), "chatActionBarReportUnrelatedLocation"@)),
            _ => Err(Fault::TypeMismatch(at)),
        }
    }

    fn encode(&self) -> (j: Json) {
        proof {
            reveal(<ChatActionBarReportUnrelatedLocation as Wire>::wire);
        }
        seal(Vec::new(), "chatActionBarReportUnrelatedLocation")
    }

    fn decode(j: &Json, at: &str) -> (r: Result<Self, DecodeError>) {
        proof {
            reveal(<ChatActionBarReportUnrelatedLocation as Wire>::wire);
            reveal(<ChatActionBarReportUnrelatedLocation as Wire>::parse);
        }
        let _ = members_of(j, at)?;
        Ok(ChatActionBarReportUnrelatedLocation {})
    }

    proof fn round_trip(&self, at: Seq<char>) {
        reveal(<ChatActionBarReportUnrelatedLocation as Wire>::wire);
        reveal(<ChatActionBarReportUnrelatedLocation as Wire>::parse);
    }
}

impl Tagged for ChatActionBarReportUnrelatedLocation {
    open spec fn known(tag: Seq<char>) -> bool {
        tag == "chatActionBarReportUnrelatedLocation"@
    }

    fn knows(tag: &str) -> (r: bool) {
        same_text(tag, "chatActionBarReportUnrelatedLocation")
    }

    proof fn tag_known(&self) {
        reveal(<ChatActionBarReportUnrelatedLocation as Wire>::wire);
        assert(tag_of(self.wire()) == Some("chatActionBarReportUnrelatedLocation"@));
        assert(Self::known("chatActionBarReportUnrelatedLocation"@));
    }
}

/// The chat is a private or secret chat, which can be reported using the method reportChat, or the
/// other user can be added to the contact list using the method addContact, or the other user can
/// be blocked using the method blockUser
#[derive(Debug, Clone, PartialEq)]
pub struct ChatActionBarReportAddBlock {}

impl Wire for ChatActionBarReportAddBlock {
    #[verifier::opaque]
    open spec fn wire(&self) -> Doc {
        tagged(Map::empty(), "chatActionBarReportAddBlock"@)
    }

    #[verifier::opaque]
    open spec fn parse(d: Doc, at: Seq<char>) -> Result<Doc, Fault> {
        match d {
            Doc::Object(_) => Ok(tagged(Map::empty(), "chatActionBarReportAddBlock"@)),
            _ => Err(Fault::TypeMismatch(at)),
        }
    }

    fn encode(&self) -> (j: Json) {
        proof {
            reveal(<ChatActionBarReportAddBlock as Wire>::wire);
        }
        seal(Vec::new(), "chatActionBarReportAddBlock")
    }

    fn decode(j: &Json, at: &str) -> (r: Result<Self, DecodeError>) {
        proof {
            reveal(<ChatActionBarReportAddBlock as Wire>::wire);
            reveal(<ChatActionBarReportAddBlock as Wire>::parse);
        }
        let _ = members_of(j, at)?;
        Ok(ChatActionBarReportAddBlock {})
    }

    proof fn round_trip(&self, at: Seq<char>) {
        reveal(<ChatActionBarReportAddBlock as Wire>::wire);
        reveal(<ChatActionBarReportAddBlock as Wire>::parse);
    }
}

impl Tagged for ChatActionBarReportAddBlock {
    open spec fn known(tag: Seq<char>) -> bool {
        tag == "chatActionBarReportAddBlock"@
    }

    fn knows(tag: &str) -> (r: bool) {
        same_text(tag, "chatActionBarReportAddBlock")
    }

    proof fn tag_known(&self) {
        reveal(<ChatActionBarReportAddBlock as Wire>::wire);
        assert(tag_of(self.wire()) == Some("chatActionBarReportAddBlock"@));
        assert(Self::known("chatActionBarReportAddBlock"@));
    }
}

/// The chat is a private or secret chat and the other user can be added to the contact list using
/// the method addContact
#[derive(Debug, Clone, PartialEq)]
pub struct ChatActionBarAddContact {}

impl Wire for ChatActionBarAddContact {
    #[verifier::opaque]
    open spec fn wire(&self) -> Doc {
        tagged(Map::empty(), "chatActionBarAddContact"@)
    }

    #[verifier::opaque]
    open spec fn parse(d: Doc, at: Seq<char>) -> Result<Doc, Fault> {
        match d {
            Doc::Object(_) => Ok(tagged(Map::empty(), "chatActionBarAddContact"@)),
            _ => Err(Fault::TypeMismatch(at)),
        }
    }

    fn encode(&self) -> (j: Json) {
        proof {
            reveal(<ChatActionBarAddContact as Wire>::wire);
        }
        seal(Vec::new(), "chatActionBarAddContact")
    }

    fn decode(j: &Json, at: &str) -> (r: Result<Self, DecodeError>) {
        proof {
            reveal(<ChatActionBarAddContact as Wire>::wire);
            reveal(<ChatActionBarAddContact as Wire>::parse);
        }
        let _ = members_of(j, at)?;
        Ok(ChatActionBarAddContact {})
    }

    proof fn round_trip(&self, at: Seq<char>) {
        reveal(<ChatActionBarAddContact as Wire>::wire);
        reveal(<ChatActionBarAddContact as Wire>::parse);
    }
}

impl Tagged for ChatActionBarAddContact {
    open spec fn known(tag: Seq<char>) -> bool {
        tag == "chatActionBarAddContact"@
    }

    fn knows(tag: &str) -> (r: bool) {
        same_text(tag, "chatActionBarAddContact")
    }

    proof fn tag_known(&self) {
        reveal(<ChatActionBarAddContact as Wire>::wire);
        assert(tag_of(self.wire()) == Some("chatActionBarAddContact"@));
        assert(Self::known("chatActionBarAddContact"@));
    }
}

/// The chat is a private or secret chat with a mutual contact and the user's phone number can be
/// shared with the other user using the method sharePhoneNumber
#[derive(Debug, Clone, PartialEq)]
pub struct ChatActionBarSharePhoneNumber {}

impl Wire for ChatActionBarSharePhoneNumber {
    #[verifier::opaque]
    open spec fn wire(&self) -> Doc {
        tagged(Map::empty(), "chatActionBarSharePhoneNumber"@)
    }

    #[verifier::opaque]
    open spec fn parse(d: Doc, at: Seq<char>) -> Result<Doc, Fault> {
        match d {
            Doc::Object(_) => Ok(tagged(Map::empty(), "chatActionBarSharePhoneNumber"@)),
            _ => Err(Fault::TypeMismatch(at)),
        }
    }

    fn encode(&self) -> (j: Json) {
        proof {
            reveal(<ChatActionBarSharePhoneNumber as Wire>::wire);
        }
        seal(Vec::new(), "chatActionBarSharePhoneNumber")
    }

    fn decode(j: &Json, at: &str) -> (r: Result<Self, DecodeError>) {
        proof {
            reveal(<ChatActionBarSharePhoneNumber as Wire>::wire);
            reveal(<ChatActionBarSharePhoneNumber as Wire>::parse);
        }
        let _ = members_of(j, at)?;
        Ok(ChatActionBarSharePhoneNumber {})
    }

    proof fn round_trip(&self, at: Seq<char>) {
        reveal(<ChatActionBarSharePhoneNumber as Wire>::wire);
        reveal(<ChatActionBarSharePhoneNumber as Wire>::parse);
    }
}

impl Tagged for ChatActionBarSharePhoneNumber {
    open spec fn known(tag: Seq<char>) -> bool {
        tag == "chatActionBarSharePhoneNumber"@
    }

    fn knows(tag: &str) -> (r: bool) {
        same_text(tag, "chatActionBarSharePhoneNumber")
    }

    proof fn tag_known(&self) {
        reveal(<ChatActionBarSharePhoneNumber as Wire>::wire);
        assert(tag_of(self.wire()) == Some("chatActionBarSharePhoneNumber"@));
        assert(Self::known("chatActionBarSharePhoneNumber"@));
    }
}

/// Describes actions which should be possible to do through a chat action bar
#[derive(Debug, Clone, PartialEq)]
pub enum ChatActionBar {
    ChatActionBarReportSpam(ChatActionBarReportSpam),
    ChatActionBarReportUnrelatedLocation(ChatActionBarReportUnrelatedLocation),
    ChatActionBarReportAddBlock(ChatActionBarReportAddBlock),
    ChatActionBarAddContact(ChatActionBarAddContact),
    ChatActionBarSharePhoneNumber(ChatActionBarSharePhoneNumber),
}

impl Wire for ChatActionBar {
    #[verifier::opaque]
    open spec fn wire(&self) -> Doc {
        match self {
            Self::ChatActionBarReportSpam(p) => p.wire(),
            Self::ChatActionBarReportUnrelatedLocation(p) => p.wire(),
            Self::ChatActionBarReportAddBlock(p) => p.wire(),
            Self::ChatActionBarAddContact(p) => p.wire(),
            Self::ChatActionBarSharePhoneNumber(p) => p.wire(),
        }
    }

    #[verifier::opaque]
    open spec fn parse(d: Doc, at: Seq<char>) -> Result<Doc, Fault> {
        match d {
            Doc::Object(_) => match tag_of(d) {
                Some(t) => if t == "chatActionBarReportSpam"@ {
                    ChatActionBarReportSpam::parse(d, at)
                } else if t == "chatActionBarReportUnrelatedLocation"@ {
                    ChatActionBarReportUnrelatedLocation::parse(d, at)
                } else if t == "chatActionBarReportAddBlock"@ {
                    ChatActionBarReportAddBlock::parse(d, at)
                } else if t == "chatActionBarAddContact"@ {
                    ChatActionBarAddContact::parse(d, at)
                } else if t == "chatActionBarSharePhoneNumber"@ {
                    ChatActionBarSharePhoneNumber::parse(d, at)
                } else {
                    Err(Fault::UnknownVariant(t))
                },
                None => Err(Fault::MissingDiscriminator),
            },
            _ => Err(Fault::TypeMismatch(at)),
        }
    }

    fn encode(&self) -> (j: Json) {
        proof {
            reveal(<ChatActionBar as Wire>::wire);
        }
        match self {
            Self::ChatActionBarReportSpam(p) => p.encode(),
            Self::ChatActionBarReportUnrelatedLocation(p) => p.encode(),
            Self::ChatActionBarReportAddBlock(p) => p.encode(),
            Self::ChatActionBarAddContact(p) => p.encode(),
            Self::ChatActionBarSharePhoneNumber(p) => p.encode(),
        }
    }

    fn decode(j: &Json, at: &str) -> (r: Result<Self, DecodeError>) {
        proof {
            reveal(<ChatActionBar as Wire>::wire);
            reveal(<ChatActionBar as Wire>::parse);
        }
        let members = members_of(j, at)?;
        let tag = discriminator(members)?;
        if same_text(tag, "chatActionBarReportSpam") {
            Ok(Self::ChatActionBarReportSpam(ChatActionBarReportSpam::decode(j, at)?))
        } else if same_text(tag, "chatActionBarReportUnrelatedLocation") {
            Ok(
                Self::ChatActionBarReportUnrelatedLocation(
                    ChatActionBarReportUnrelatedLocation::decode(j, at)?,
                ),
            )
        } else if same_text(tag, "chatActionBarReportAddBlock") {
            Ok(Self::ChatActionBarReportAddBlock(ChatActionBarReportAddBlock::decode(j, at)?))
        } else if same_text(tag, "chatActionBarAddContact") {
            Ok(Self::ChatActionBarAddContact(ChatActionBarAddContact::decode(j, at)?))
        } else if same_text(tag, "chatActionBarSharePhoneNumber") {
            Ok(Self::ChatActionBarSharePhoneNumber(ChatActionBarSharePhoneNumber::decode(j, at)?))
        } else {
            Err(DecodeError::UnknownVariant(tag.to_owned()))
        }
    }

    proof fn round_trip(&self, at: Seq<char>) {
        reveal(<ChatActionBar as Wire>::wire);
        reveal(<ChatActionBar as Wire>::parse);
        reveal_strlit("chatActionBarAddContact");
        reveal_strlit("chatActionBarReportAddBlock");
        reveal_strlit("chatActionBarReportSpam");
        reveal_strlit("chatActionBarReportUnrelatedLocation");
        reveal_strlit("chatActionBarSharePhoneNumber");
        assert("chatActionBarAddContact"@.len() == 23 && "chatActionBarAddContact"@[13] == 'A');
        assert("chatActionBarReportAddBlock"@.len() == 27);
        assert("chatActionBarReportSpam"@.len() == 23 && "chatActionBarReportSpam"@[13] == 'R');
        assert("chatActionBarReportUnrelatedLocation"@.len() == 36);
        assert("chatActionBarSharePhoneNumber"@.len() == 29);
        match self {
            Self::ChatActionBarReportSpam(p) => {
                p.tag_known();
                p.round_trip(at);
            },
            Self::ChatActionBarReportUnrelatedLocation(p) => {
                p.tag_known();
                p.round_trip(at);
            },
            Self::ChatActionBarReportAddBlock(p) => {
                p.tag_known();
                p.round_trip(at);
            },
            Self::ChatActionBarAddContact(p) => {
                p.tag_known();
                p.round_trip(at);
            },
            Self::ChatActionBarSharePhoneNumber(p) => {
                p.tag_known();
                p.round_trip(at);
            },
        }
    }
}

impl Tagged for ChatActionBar {
    open spec fn known(tag: Seq<char>) -> bool {
        ||| tag == "chatActionBarReportSpam"@
        ||| tag == "chatActionBarReportUnrelatedLocation"@
        ||| tag == "chatActionBarReportAddBlock"@
        ||| tag == "chatActionBarAddContact"@
        ||| tag == "chatActionBarSharePhoneNumber"@
    }

    fn knows(tag: &str) -> (r: bool) {
        same_text(tag, "chatActionBarReportSpam")
            || same_text(tag, "chatActionBarReportUnrelatedLocation")
            || same_text(tag, "chatActionBarReportAddBlock")
            || same_text(tag, "chatActionBarAddContact")
            || same_text(tag, "chatActionBarSharePhoneNumber")
    }

    proof fn tag_known(&self) {
        reveal(<ChatActionBar as Wire>::wire);
        match self {
            Self::ChatActionBarReportSpam(p) => p.tag_known(),
            Self::ChatActionBarReportUnrelatedLocation(p) => p.tag_known(),
            Self::ChatActionBarReportAddBlock(p) => p.tag_known(),
            Self::ChatActionBarAddContact(p) => p.tag_known(),
            Self::ChatActionBarSharePhoneNumber(p) => p.tag_known(),
        }
    }
}

impl Union for ChatActionBar {
    proof fn unknown_rejected(d: Doc, at: Seq<char>) {
        reveal(<ChatActionBar as Wire>::parse);
    }

    proof fn untagged_rejected(d: Doc, at: Seq<char>) {
        reveal(<ChatActionBar as Wire>::parse);
    }
}

/// A simple button, with text that should be sent when the button is pressed
#[derive(Debug, Clone, PartialEq)]
pub struct KeyboardButtonTypeText {}

impl Wire for KeyboardButtonTypeText {
    #[verifier::opaque]
    open spec fn wire(&self) -> Doc {
        tagged(Map::empty(), "keyboardButtonTypeText"@)
    }

    #[verifier::opaque]
    open spec fn parse(d: Doc, at: Seq<char>) -> Result<Doc, Fault> {
        match d {
            Doc::Object(_) => Ok(tagged(Map::empty(), "keyboardButtonTypeText"@)),
            _ => Err(Fault::TypeMismatch(at)),
        }
    }

    fn encode(&self) -> (j: Json) {
        proof {
            reveal(<KeyboardButtonTypeText as Wire>::wire);
        }
        seal(Vec::new(), "keyboardButtonTypeText")
    }

    fn decode(j: &Json, at: &str) -> (r: Result<Self, DecodeError>) {
        proof {
            reveal(<KeyboardButtonTypeText as Wire>::wire);
            reveal(<KeyboardButtonTypeText as Wire>::parse);
        }
        let _ = members_of(j, at)?;
        Ok(KeyboardButtonTypeText {})
    }

    proof fn round_trip(&self, at: Seq<char>) {
        reveal(<KeyboardButtonTypeText as Wire>::wire);
        reveal(<KeyboardButtonTypeText as Wire>::parse);
    }
}

impl Tagged for KeyboardButtonTypeText {
    open spec fn known(tag: Seq<char>) -> bool {
        tag == "keyboardButtonTypeText"@
    }

    fn knows(tag: &str) -> (r: bool) {
        same_text(tag, "keyboardButtonTypeText")
    }

    proof fn tag_known(&self) {
        reveal(<KeyboardButtonTypeText as Wire>::wire);
        assert(tag_of(self.wire()) == Some("keyboardButtonTypeText"@));
        assert(Self::known("keyboardButtonTypeText"@));
    }
}

/// A button that sends the user's phone number when pressed; available only in private chats
#[derive(Debug, Clone, PartialEq)]
pub struct KeyboardButtonTypeRequestPhoneNumber {}

impl Wire for KeyboardButtonTypeRequestPhoneNumber {
    #[verifier::opaque]
    open spec fn wire(&self) -> Doc {
        tagged(Map::empty(), "keyboardButtonTypeRequestPhoneNumber"@)
    }

    #[verifier::opaque]
    open spec fn parse(d: Doc, at: Seq<char>) -> Result<Doc, Fault> {
        match d {
            Doc::Object(_) => Ok(tagged(Map::empty(), "keyboardButtonTypeRequestPhoneNumber"@)),
            _ => Err(Fault::TypeMismatch(at)),
        }
    }

    fn encode(&self) -> (j: Json) {
        proof {
            reveal(<KeyboardButtonTypeRequestPhoneNumber as Wire>::wire);
        }
        seal(Vec::new(), "keyboardButtonTypeRequestPhoneNumber")
    }

    fn decode(j: &Json, at: &str) -> (r: Result<Self, DecodeError>) {
        proof {
            reveal(<KeyboardButtonTypeRequestPhoneNumber as Wire>::wire);
            reveal(<KeyboardButtonTypeRequestPhoneNumber as Wire>::parse);
        }
        let _ = members_of(j, at)?;
        Ok(KeyboardButtonTypeRequestPhoneNumber {})
    }

    proof fn round_trip(&self, at: Seq<char>) {
        reveal(<KeyboardButtonTypeRequestPhoneNumber as Wire>::wire);
        reveal(<KeyboardButtonTypeRequestPhoneNumber as Wire>::parse);
    }
}

impl Tagged for KeyboardButtonTypeRequestPhoneNumber {
    open spec fn known(tag: Seq<char>) -> bool {
        tag == "keyboardButtonTypeRequestPhoneNumber"@
    }

    fn knows(tag: &str) -> (r: bool) {
        same_text(tag, "keyboardButtonTypeRequestPhoneNumber")
    }

    proof fn tag_known(&self) {
        reveal(<KeyboardButtonTypeRequestPhoneNumber as Wire>::wire);
        assert(tag_of(self.wire()) == Some("keyboardButtonTypeRequestPhoneNumber"@));
        assert(Self::known("keyboardButtonTypeRequestPhoneNumber"@));
    }
}

/// A button that sends the user's location when pressed; available only in private chats
#[derive(Debug, Clone, PartialEq)]
pub struct KeyboardButtonTypeRequestLocation {}

impl Wire for KeyboardButtonTypeRequestLocation {
    #[verifier::opaque]
    open spec fn wire(&self) -> Doc {
        tagged(Map::empty(), "keyboardButtonTypeRequestLocation"@)
    }

    #[verifier::opaque]
    open spec fn parse(d: Doc, at: Seq<char>) -> Result<Doc, Fault> {
        match d {
            Doc::Object(_) => Ok(tagged(Map::empty(), "keyboardButtonTypeRequestLocation"@)),
            _ => Err(Fault::TypeMismatch(at)),
        }
    }

    fn encode(&self) -> (j: Json) {
        proof {
            reveal(<KeyboardButtonTypeRequestLocation as Wire>::wire);
        }
        seal(Vec::new(), "keyboardButtonTypeRequestLocation")
    }

    fn decode(j: &Json, at: &str) -> (r: Result<Self, DecodeError>) {
        proof {
            reveal(<KeyboardButtonTypeRequestLocation as Wire>::wire);
            reveal(<KeyboardButtonTypeRequestLocation as Wire>::parse);
        }
        let _ = members_of(j, at)?;
        Ok(KeyboardButtonTypeRequestLocation {})
    }

    proof fn round_trip(&self, at: Seq<char>) {
        reveal(<KeyboardButtonTypeRequestLocation as Wire>::wire);
        reveal(<KeyboardButtonTypeRequestLocation as Wire>::parse);
    }
}

impl Tagged for KeyboardButtonTypeRequestLocation {
    open spec fn known(tag: Seq<char>) -> bool {
        tag == "keyboardButtonTypeRequestLocation"@
    }

    fn knows(tag: &str) -> (r: bool) {
        same_text(tag, "keyboardButtonTypeRequestLocation")
    }

    proof fn tag_known(&self) {
        reveal(<KeyboardButtonTypeRequestLocation as Wire>::wire);
        assert(tag_of(self.wire()) == Some("keyboardButtonTypeRequestLocation"@));
        assert(Self::known("keyboardButtonTypeRequestLocation"@));
    }
}

/// A button that allows the user to create and send a poll when pressed; available only in private
/// chats
#[derive(Debug, Clone, PartialEq)]
pub struct KeyboardButtonTypeRequestPoll {
    /// If true, only regular polls must be allowed to create
    pub force_regular: bool,
    /// If true, only polls in quiz mode must be allowed to create
    pub force_quiz: bool,
}

impl Wire for KeyboardButtonTypeRequestPoll {
    #[verifier::opaque]
    open spec fn wire(&self) -> Doc {
        tagged(
            Map::empty()
                .insert("forceRegular"@, self.force_regular.wire())
                .insert("forceQuiz"@, self.force_quiz.wire()),
            "keyboardButtonTypeRequestPoll"@,
        )
    }

    #[verifier::opaque]
    open spec fn parse(d: Doc, at: Seq<char>) -> Result<Doc, Fault> {
        match d {
            Doc::Object(m) => {
                let force_regular = field::<bool>(m, "forceRegular"@);
                let force_quiz = field::<bool>(m, "forceQuiz"@);
                if force_regular is Err {
                    force_regular
                } else if force_quiz is Err {
                    force_quiz
                } else {
                    Ok(
                        tagged(
                            Map::empty()
                                .insert("forceRegular"@, force_regular->Ok_0)
                                .insert("forceQuiz"@, force_quiz->Ok_0),
                            "keyboardButtonTypeRequestPoll"@,
                        ),
                    )
                }
            },
            _ => Err(Fault::TypeMismatch(at)),
        }
    }

    fn encode(&self) -> (j: Json) {
        proof {
            reveal(<KeyboardButtonTypeRequestPoll as Wire>::wire);
        }
        let mut members: Vec<Member> = Vec::new();
        put(&mut members, "forceRegular", self.force_regular.encode());
        put(&mut members, "forceQuiz", self.force_quiz.encode());
        seal(members, "keyboardButtonTypeRequestPoll")
    }

    fn decode(j: &Json, at: &str) -> (r: Result<Self, DecodeError>) {
        proof {
            reveal(<KeyboardButtonTypeRequestPoll as Wire>::wire);
            reveal(<KeyboardButtonTypeRequestPoll as Wire>::parse);
        }
        let members = members_of(j, at)?;
        let force_regular = read_field::<bool>(members, "forceRegular")?;
        let force_quiz = read_field::<bool>(members, "forceQuiz")?;
        Ok(KeyboardButtonTypeRequestPoll { force_regular, force_quiz })
    }

    proof fn round_trip(&self, at: Seq<char>) {
        reveal(<KeyboardButtonTypeRequestPoll as Wire>::wire);
        reveal(<KeyboardButtonTypeRequestPoll as Wire>::parse);
        reveal_strlit("@type");
        reveal_strlit("forceQuiz");
        reveal_strlit("forceRegular");
        assert("@type"@.len() == 5);
        assert("forceQuiz"@.len() == 9);
        assert("forceRegular"@.len() == 12);
        self.force_regular.round_trip("forceRegular"@);
        self.force_quiz.round_trip("forceQuiz"@);
    }
}

impl Tagged for KeyboardButtonTypeRequestPoll {
    open spec fn known(tag: Seq<char>) -> bool {
        tag == "keyboardButtonTypeRequestPoll"@
    }

    fn knows(tag: &str) -> (r: bool) {
        same_text(tag, "keyboardButtonTypeRequestPoll")
    }

    proof fn tag_known(&self) {
        reveal(<KeyboardButtonTypeRequestPoll as Wire>::wire);
        assert(tag_of(self.wire()) == Some("keyboardButtonTypeRequestPoll"@));
        assert(Self::known("keyboardButtonTypeRequestPoll"@));
    }
}

/// Describes a keyboard button type
#[derive(Debug, Clone, PartialEq)]
pub enum KeyboardButtonType {
    KeyboardButtonTypeText(KeyboardButtonTypeText),
    KeyboardButtonTypeRequestPhoneNumber(KeyboardButtonTypeRequestPhoneNumber),
    KeyboardButtonTypeRequestLocation(KeyboardButtonTypeRequestLocation),
    KeyboardButtonTypeRequestPoll(KeyboardButtonTypeRequestPoll),
}

impl Wire for KeyboardButtonType {
    #[verifier::opaque]
    open spec fn wire(&self) -> Doc {
        match self {
            Self::KeyboardButtonTypeText(p) => p.wire(),
            Self::KeyboardButtonTypeRequestPhoneNumber(p) => p.wire(),
            Self::KeyboardButtonTypeRequestLocation(p) => p.wire(),
            Self::KeyboardButtonTypeRequestPoll(p) => p.wire(),
        }
    }

    #[verifier::opaque]
    open spec fn parse(d: Doc, at: Seq<char>) -> Result<Doc, Fault> {
        match d {
            Doc::Object(_) => match tag_of(d) {
                Some(t) => if t == "keyboardButtonTypeText"@ {
                    KeyboardButtonTypeText::parse(d, at)
                } else if t == "keyboardButtonTypeRequestPhoneNumber"@ {
                    KeyboardButtonTypeRequestPhoneNumber::parse(d, at)
                } else if t == "keyboardButtonTypeRequestLocation"@ {
                    KeyboardButtonTypeRequestLocation::parse(d, at)
                } else if t == "keyboardButtonTypeRequestPoll"@ {
                    KeyboardButtonTypeRequestPoll::parse(d, at)
                } else {
                    Err(Fault::UnknownVariant(t))
                },
                None => Err(Fault::MissingDiscriminator),
            },
            _ => Err(Fault::TypeMismatch(at)),
        }
    }

    fn encode(&self) -> (j: Json) {
        proof {
            reveal(<KeyboardButtonType as Wire>::wire);
        }
        match self {
            Self::KeyboardButtonTypeText(p) => p.encode(),
            Self::KeyboardButtonTypeRequestPhoneNumber(p) => p.encode(),
            Self::KeyboardButtonTypeRequestLocation(p) => p.encode(),
            Self::KeyboardButtonTypeRequestPoll(p) => p.encode(),
        }
    }

    fn decode(j: &Json, at: &str) -> (r: Result<Self, DecodeError>) {
        proof {
            reveal(<KeyboardButtonType as Wire>::wire);
            reveal(<KeyboardButtonType as Wire>::parse);
        }
        let members = members_of(j, at)?;
        let tag = discriminator(members)?;
        if same_text(tag, "keyboardButtonTypeText") {
            Ok(Self::KeyboardButtonTypeText(KeyboardButtonTypeText::decode(j, at)?))
        } else if same_text(tag, "keyboardButtonTypeRequestPhoneNumber") {
            Ok(
                Self::KeyboardButtonTypeRequestPhoneNumber(
                    KeyboardButtonTypeRequestPhoneNumber::decode(j, at)?,
                ),
            )
        } else if same_text(tag, "keyboardButtonTypeRequestLocation") {
            Ok(
                Self::KeyboardButtonTypeRequestLocation(
                    KeyboardButtonTypeRequestLocation::decode(j, at)?,
                ),
            )
        } else if same_text(tag, "keyboardButtonTypeRequestPoll") {
            Ok(Self::KeyboardButtonTypeRequestPoll(KeyboardButtonTypeRequestPoll::decode(j, at)?))
        } else {
            Err(DecodeError::UnknownVariant(tag.to_owned()))
        }
    }

    proof fn round_trip(&self, at: Seq<char>) {
        reveal(<KeyboardButtonType as Wire>::wire);
        reveal(<KeyboardButtonType as Wire>::parse);
        reveal_strlit("keyboardButtonTypeRequestLocation");
        reveal_strlit("keyboardButtonTypeRequestPhoneNumber");
        reveal_strlit("keyboardButtonTypeRequestPoll");
        reveal_strlit("keyboardButtonTypeText");
        assert("keyboardButtonTypeRequestLocation"@.len() == 33);
        assert("keyboardButtonTypeRequestPhoneNumber"@.len() == 36);
        assert("keyboardButtonTypeRequestPoll"@.len() == 29);
        assert("keyboardButtonTypeText"@.len() == 22);
        match self {
            Self::KeyboardButtonTypeText(p) => {
                p.tag_known();
                p.round_trip(at);
            },
            Self::KeyboardButtonTypeRequestPhoneNumber(p) => {
                p.tag_known();
                p.round_trip(at);
            },
            Self::KeyboardButtonTypeRequestLocation(p) => {
                p.tag_known();
                p.round_trip(at);
            },
            Self::KeyboardButtonTypeRequestPoll(p) => {
                p.tag_known();
                p.round_trip(at);
            },
        }
    }
}

impl Tagged for KeyboardButtonType {
    open spec fn known(tag: Seq<char>) -> bool {
        ||| tag == "keyboardButtonTypeText"@
        ||| tag == "keyboardButtonTypeRequestPhoneNumber"@
        ||| tag == "keyboardButtonTypeRequestLocation"@
        ||| tag == "keyboardButtonTypeRequestPoll"@
    }

    fn knows(tag: &str) -> (r: bool) {
        same_text(tag, "keyboardButtonTypeText")
            || same_text(tag, "keyboardButtonTypeRequestPhoneNumber")
            || same_text(tag, "keyboardButtonTypeRequestLocation")
            || same_text(tag, "keyboardButtonTypeRequestPoll")
    }

    proof fn tag_known(&self) {
        reveal(<KeyboardButtonType as Wire>::wire);
        match self {
            Self::KeyboardButtonTypeText(p) => p.tag_known(),
            Self::KeyboardButtonTypeRequestPhoneNumber(p) => p.tag_known(),
            Self::KeyboardButtonTypeRequestLocation(p) => p.tag_known(),
            Self::KeyboardButtonTypeRequestPoll(p) => p.tag_known(),
        }
    }
}

impl Union for KeyboardButtonType {
    proof fn unknown_rejected(d: Doc, at: Seq<char>) {
        reveal(<KeyboardButtonType as Wire>::parse);
    }

    proof fn untagged_rejected(d: Doc, at: Seq<char>) {
        reveal(<KeyboardButtonType as Wire>::parse);
    }
}

/// Represents a single button in a bot keyboard
#[derive(Debug, Clone, PartialEq)]
pub struct KeyboardButton {
    /// Text of the button
    pub text: String,
    /// Type of the button
    pub type_: KeyboardButtonType,
}

impl Wire for KeyboardButton {
    #[verifier::opaque]
    open spec fn wire(&self) -> Doc {
        tagged(
            Map::empty()
                .insert("text"@, self.text.wire())
                .insert("type"@, self.type_.wire()),
            "keyboardButton"@,
        )
    }

    #[verifier::opaque]
    open spec fn parse(d: Doc, at: Seq<char>) -> Result<Doc, Fault> {
        match d {
            Doc::Object(m) => {
                let text = field::<String>(m, "text"@);
                let type_ = field::<KeyboardButtonType>(m, "type"@);
                if text is Err {
                    text
                } else if type_ is Err {
                    type_
                } else {
                    Ok(
                        tagged(
                            Map::empty()
                                .insert("text"@, text->Ok_0)
                                .insert("type"@, type_->Ok_0),
                            "keyboardButton"@,
                        ),
                    )
                }
            },
            _ => Err(Fault::TypeMismatch(at)),
        }
    }

    fn encode(&self) -> (j: Json) {
        proof {
            reveal(<KeyboardButton as Wire>::wire);
        }
        let mut members: Vec<Member> = Vec::new();
        put(&mut members, "text", self.text.encode());
        put(&mut members, "type", self.type_.encode());
        seal(members, "keyboardButton")
    }

    fn decode(j: &Json, at: &str) -> (r: Result<Self, DecodeError>) {
        proof {
            reveal(<KeyboardButton as Wire>::wire);
            reveal(<KeyboardButton as Wire>::parse);
        }
        let members = members_of(j, at)?;
        let text = read_field::<String>(members, "text")?;
        let type_ = read_field::<KeyboardButtonType>(members, "type")?;
        Ok(KeyboardButton { text, type_ })
    }

    proof fn round_trip(&self, at: Seq<char>) {
        reveal(<KeyboardButton as Wire>::wire);
        reveal(<KeyboardButton as Wire>::parse);
        reveal_strlit("@type");
        reveal_strlit("text");
        reveal_strlit("type");
        assert("@type"@.len() == 5);
        assert("text"@.len() == 4 && "text"@[1] == 'e');
        assert("type"@.len() == 4 && "type"@[1] == 'y');
        self.text.round_trip("text"@);
        self.type_.round_trip("type"@);
    }
}

impl Tagged for KeyboardButton {
    open spec fn known(tag: Seq<char>) -> bool {
        tag == "keyboardButton"@
    }

    fn knows(tag: &str) -> (r: bool) {
        same_text(tag, "keyboardButton")
    }

    proof fn tag_known(&self) {
        reveal(<KeyboardButton as Wire>::wire);
        assert(tag_of(self.wire()) == Some("keyboardButton"@));
        assert(Self::known("keyboardButton"@));
    }
}

/// A button that opens a specified URL
#[derive(Debug, Clone, PartialEq)]
pub struct InlineKeyboardButtonTypeUrl {
    /// HTTP or tg:// URL to open
    pub url: String,
}

impl Wire for InlineKeyboardButtonTypeUrl {
    #[verifier::opaque]
    open spec fn wire(&self) -> Doc {
        tagged(
            Map::empty()
                .insert("url"@, self.url.wire()),
            "inlineKeyboardButtonTypeUrl"@,
        )
    }

    #[verifier::opaque]
    open spec fn parse(d: Doc, at: Seq<char>) -> Result<Doc, Fault> {
        match d {
            Doc::Object(m) => {
                let url = field::<String>(m, "url"@);
                if url is Err {
                    url
                } else {
                    Ok(
                        tagged(
                            Map::empty()
                                .insert("url"@, url->Ok_0),
                            "inlineKeyboardButtonTypeUrl"@,
                        ),
                    )
                }
            },
            _ => Err(Fault::TypeMismatch(at)),
        }
    }

    fn encode(&self) -> (j: Json) {
        proof {
            reveal(<InlineKeyboardButtonTypeUrl as Wire>::wire);
        }
        let mut members: Vec<Member> = Vec::new();
        put(&mut members, "url", self.url.encode());
        seal(members, "inlineKeyboardButtonTypeUrl")
    }

    fn decode(j: &Json, at: &str) -> (r: Result<Self, DecodeError>) {
        proof {
            reveal(<InlineKeyboardButtonTypeUrl as Wire>::wire);
            reveal(<InlineKeyboardButtonTypeUrl as Wire>::parse);
        }
        let members = members_of(j, at)?;
        let url = read_field::<String>(members, "url")?;
        Ok(InlineKeyboardButtonTypeUrl { url })
    }

    proof fn round_trip(&self, at: Seq<char>) {
        reveal(<InlineKeyboardButtonTypeUrl as Wire>::wire);
        reveal(<InlineKeyboardButtonTypeUrl as Wire>::parse);
        reveal_strlit("@type");
        reveal_strlit("url");
        assert("@type"@.len() == 5);
        assert("url"@.len() == 3);
        self.url.round_trip("url"@);
    }
}

impl Tagged for InlineKeyboardButtonTypeUrl {
    open spec fn known(tag: Seq<char>) -> bool {
        tag == "inlineKeyboardButtonTypeUrl"@
    }

    fn knows(tag: &str) -> (r: bool) {
        same_text(tag, "inlineKeyboardButtonTypeUrl")
    }

    proof fn tag_known(&self) {
        reveal(<InlineKeyboardButtonTypeUrl as Wire>::wire);
        assert(tag_of(self.wire()) == Some("inlineKeyboardButtonTypeUrl"@));
        assert(Self::known("inlineKeyboardButtonTypeUrl"@));
    }
}

/// A button that opens a specified URL and automatically logs in in current user if they allowed to
/// do that
#[derive(Debug, Clone, PartialEq)]
pub struct InlineKeyboardButtonTypeLoginUrl {
    /// An HTTP URL to open
    pub url: String,
    /// Unique button identifier
    pub id: i32,
    /// If non-empty, new text of the button in forwarded messages
    pub forward_text: String,
}

impl Wire for InlineKeyboardButtonTypeLoginUrl {
    #[verifier::opaque]
    open spec fn wire(&self) -> Doc {
        tagged(
            Map::empty()
                .insert("url"@, self.url.wire())
                .insert("id"@, self.id.wire())
                .insert("forwardText"@, self.forward_text.wire()),
            "inlineKeyboardButtonTypeLoginUrl"@,
        )
    }

    #[verifier::opaque]
    open spec fn parse(d: Doc, at: Seq<char>) -> Result<Doc, Fault> {
        match d {
            Doc::Object(m) => {
                let url = field::<String>(m, "url"@);
                let id = field::<i32>(m, "id"@);
                let forward_text = field::<String>(m, "forwardText"@);
                if url is Err {
                    url
                } else if id is Err {
                    id
                } else if forward_text is Err {
                    forward_text
                } else {
                    Ok(
                        tagged(
                            Map::empty()
                                .insert("url"@, url->Ok_0)
                                .insert("id"@, id->Ok_0)
                                .insert("forwardText"@, forward_text->Ok_0),
                            "inlineKeyboardButtonTypeLoginUrl"@,
                        ),
                    )
                }
            },
            _ => Err(Fault::TypeMismatch(at)),
        }
    }

    fn encode(&self) -> (j: Json) {
        proof {
            reveal(<InlineKeyboardButtonTypeLoginUrl as Wire>::wire);
        }
        let mut members: Vec<Member> = Vec::new();
        put(&mut members, "url", self.url.encode());
        put(&mut members, "id", self.id.encode());
        put(&mut members, "forwardText", self.forward_text.encode());
        seal(members, "inlineKeyboardButtonTypeLoginUrl")
    }

    fn decode(j: &Json, at: &str) -> (r: Result<Self, DecodeError>) {
        proof {
            reveal(<InlineKeyboardButtonTypeLoginUrl as Wire>::wire);
            reveal(<InlineKeyboardButtonTypeLoginUrl as Wire>::parse);
        }
        let members = members_of(j, at)?;
        let url = read_field::<String>(members, "url")?;
        let id = read_field::<i32>(members, "id")?;
        let forward_text = read_field::<String>(members, "forwardText")?;
        Ok(InlineKeyboardButtonTypeLoginUrl { url, id, forward_text })
    }

    proof fn round_trip(&self, at: Seq<char>) {
        reveal(<InlineKeyboardButtonTypeLoginUrl as Wire>::wire);
        reveal(<InlineKeyboardButtonTypeLoginUrl as Wire>::parse);
        reveal_strlit("@type");
        reveal_strlit("forwardText");
        reveal_strlit("id");
        reveal_strlit("url");
        assert("@type"@.len() == 5);
        assert("forwardText"@.len() == 11);
        assert("id"@.len() == 2);
        assert("url"@.len() == 3);
        self.url.round_trip("url"@);
        self.id.round_trip("id"@);
        self.forward_text.round_trip("forwardText"@);
    }
}

impl Tagged for InlineKeyboardButtonTypeLoginUrl {
    open spec fn known(tag: Seq<char>) -> bool {
        tag == "inlineKeyboardButtonTypeLoginUrl"@
    }

    fn knows(tag: &str) -> (r: bool) {
        same_text(tag, "inlineKeyboardButtonTypeLoginUrl")
    }

    proof fn tag_known(&self) {
        reveal(<InlineKeyboardButtonTypeLoginUrl as Wire>::wire);
        assert(tag_of(self.wire()) == Some("inlineKeyboardButtonTypeLoginUrl"@));
        assert(Self::known("inlineKeyboardButtonTypeLoginUrl"@));
    }
}

/// A button that sends a special callback query to a bot
#[derive(Debug, Clone, PartialEq)]
pub struct InlineKeyboardButtonTypeCallback {
    /// Data to be sent to the bot via a callback query
    pub data: String,
}

impl Wire for InlineKeyboardButtonTypeCallback {
    #[verifier::opaque]
    open spec fn wire(&self) -> Doc {
        tagged(
            Map::empty()
                .insert("data"@, self.data.wire()),
            "inlineKeyboardButtonTypeCallback"@,
        )
    }

    #[verifier::opaque]
    open spec fn parse(d: Doc, at: Seq<char>) -> Result<Doc, Fault> {
        match d {
            Doc::Object(m) => {
                let data = field::<String>(m, "data"@);
                if data is Err {
                    data
                } else {
                    Ok(
                        tagged(
                            Map::empty()
                                .insert("data"@, data->Ok_0),
                            "inlineKeyboardButtonTypeCallback"@,
                        ),
                    )
                }
            },
            _ => Err(Fault::TypeMismatch(at)),
        }
    }

    fn encode(&self) -> (j: Json) {
        proof {
            reveal(<InlineKeyboardButtonTypeCallback as Wire>::wire);
        }
        let mut members: Vec<Member> = Vec::new();
        put(&mut members, "data", self.data.encode());
        seal(members, "inlineKeyboardButtonTypeCallback")
    }

    fn decode(j: &Json, at: &str) -> (r: Result<Self, DecodeError>) {
        proof {
            reveal(<InlineKeyboardButtonTypeCallback as Wire>::wire);
            reveal(<InlineKeyboardButtonTypeCallback as Wire>::parse);
        }
        let members = members_of(j, at)?;
        let data = read_field::<String>(members, "data")?;
        Ok(InlineKeyboardButtonTypeCallback { data })
    }

    proof fn round_trip(&self, at: Seq<char>) {
        reveal(<InlineKeyboardButtonTypeCallback as Wire>::wire);
        reveal(<InlineKeyboardButtonTypeCallback as Wire>::parse);
        reveal_strlit("@type");
        reveal_strlit("data");
        assert("@type"@.len() == 5);
        assert("data"@.len() == 4);
        self.data.round_trip("data"@);
    }
}

impl Tagged for InlineKeyboardButtonTypeCallback {
    open spec fn known(tag: Seq<char>) -> bool {
        tag == "inlineKeyboardButtonTypeCallback"@
    }

    fn knows(tag: &str) -> (r: bool) {
        same_text(tag, "inlineKeyboardButtonTypeCallback")
    }

    proof fn tag_known(&self) {
        reveal(<InlineKeyboardButtonTypeCallback as Wire>::wire);
        assert(tag_of(self.wire()) == Some("inlineKeyboardButtonTypeCallback"@));
        assert(Self::known("inlineKeyboardButtonTypeCallback"@));
    }
}

/// A button with a game that sends a special callback query to a bot. This button must be in the
/// first column and row of the keyboard and can be attached only to a message with content of the
/// type messageGame
#[derive(Debug, Clone, PartialEq)]
pub struct InlineKeyboardButtonTypeCallbackGame {}

impl Wire for InlineKeyboardButtonTypeCallbackGame {
    #[verifier::opaque]
    open spec fn wire(&self) -> Doc {
        tagged(Map::empty(), "inlineKeyboardButtonTypeCallbackGame"@)
    }

    #[verifier::opaque]
    open spec fn parse(d: Doc, at: Seq<char>) -> Result<Doc, Fault> {
        match d {
            Doc::Object(_) => Ok(tagged(Map::empty(), "inlineKeyboardButtonTypeCallbackGame"@)),
            _ => Err(Fault::TypeMismatch(at)),
        }
    }

    fn encode(&self) -> (j: Json) {
        proof {
            reveal(<InlineKeyboardButtonTypeCallbackGame as Wire>::wire);
        }
        seal(Vec::new(), "inlineKeyboardButtonTypeCallbackGame")
    }

    fn decode(j: &Json, at: &str) -> (r: Result<Self, DecodeError>) {
        proof {
            reveal(<InlineKeyboardButtonTypeCallbackGame as Wire>::wire);
            reveal(<InlineKeyboardButtonTypeCallbackGame as Wire>::parse);
        }
        let _ = members_of(j, at)?;
        Ok(InlineKeyboardButtonTypeCallbackGame {})
    }

    proof fn round_trip(&self, at: Seq<char>) {
        reveal(<InlineKeyboardButtonTypeCallbackGame as Wire>::wire);
        reveal(<InlineKeyboardButtonTypeCallbackGame as Wire>::parse);
    }
}

impl Tagged for InlineKeyboardButtonTypeCallbackGame {
    open spec fn known(tag: Seq<char>) -> bool {
        tag == "inlineKeyboardButtonTypeCallbackGame"@
    }

    fn knows(tag: &str) -> (r: bool) {
        same_text(tag, "inlineKeyboardButtonTypeCallbackGame")
    }

    proof fn tag_known(&self) {
        reveal(<InlineKeyboardButtonTypeCallbackGame as Wire>::wire);
        assert(tag_of(self.wire()) == Some("inlineKeyboardButtonTypeCallbackGame"@));
        assert(Self::known("inlineKeyboardButtonTypeCallbackGame"@));
    }
}

/// A button that forces an inline query to the bot to be inserted in the input field
#[derive(Debug, Clone, PartialEq)]
pub struct InlineKeyboardButtonTypeSwitchInline {
    /// Inline query to be sent to the bot
    pub query: String,
    /// True, if the inline query should be sent from the current chat
    pub in_current_chat: bool,
}

impl Wire for InlineKeyboardButtonTypeSwitchInline {
    #[verifier::opaque]
    open spec fn wire(&self) -> Doc {
        tagged(
            Map::empty()
                .insert("query"@, self.query.wire())
                .insert("inCurrentChat"@, self.in_current_chat.wire()),
            "inlineKeyboardButtonTypeSwitchInline"@,
        )
    }

    #[verifier::opaque]
    open spec fn parse(d: Doc, at: Seq<char>) -> Result<Doc, Fault> {
        match d {
            Doc::Object(m) => {
                let query = field::<String>(m, "query"@);
                let in_current_chat = field::<bool>(m, "inCurrentChat"@);
                if query is Err {
                    query
                } else if in_current_chat is Err {
                    in_current_chat
                } else {
                    Ok(
                        tagged(
                            Map::empty()
                                .insert("query"@, query->Ok_0)
                                .insert("inCurrentChat"@, in_current_chat->Ok_0),
                            "inlineKeyboardButtonTypeSwitchInline"@,
                        ),
                    )
                }
            },
            _ => Err(Fault::TypeMismatch(at)),
        }
    }

    fn encode(&self) -> (j: Json) {
        proof {
            reveal(<InlineKeyboardButtonTypeSwitchInline as Wire>::wire);
        }
        let mut members: Vec<Member> = Vec::new();
        put(&mut members, "query", self.query.encode());
        put(&mut members, "inCurrentChat", self.in_current_chat.encode());
        seal(members, "inlineKeyboardButtonTypeSwitchInline")
    }

    fn decode(j: &Json, at: &str) -> (r: Result<Self, DecodeError>) {
        proof {
            reveal(<InlineKeyboardButtonTypeSwitchInline as Wire>::wire);
            reveal(<InlineKeyboardButtonTypeSwitchInline as Wire>::parse);
        }
        let members = members_of(j, at)?;
        let query = read_field::<String>(members, "query")?;
        let in_current_chat = read_field::<bool>(members, "inCurrentChat")?;
        Ok(InlineKeyboardButtonTypeSwitchInline { query, in_current_chat })
    }

    proof fn round_trip(&self, at: Seq<char>) {
        reveal(<InlineKeyboardButtonTypeSwitchInline as Wire>::wire);
        reveal(<InlineKeyboardButtonTypeSwitchInline as Wire>::parse);
        reveal_strlit("@type");
        reveal_strlit("inCurrentChat");
        reveal_strlit("query");
        assert("@type"@.len() == 5 && "@type"@[0] == '@');
        assert("inCurrentChat"@.len() == 13);
        assert("query"@.len() == 5 && "query"@[0] == 'q');
        self.query.round_trip("query"@);
        self.in_current_chat.round_trip("inCurrentChat"@);
    }
}

impl Tagged for InlineKeyboardButtonTypeSwitchInline {
    open spec fn known(tag: Seq<char>) -> bool {
        tag == "inlineKeyboardButtonTypeSwitchInline"@
    }

    fn knows(tag: &str) -> (r: bool) {
        same_text(tag, "inlineKeyboardButtonTypeSwitchInline")
    }

    proof fn tag_known(&self) {
        reveal(<InlineKeyboardButtonTypeSwitchInline as Wire>::wire);
        assert(tag_of(self.wire()) == Some("inlineKeyboardButtonTypeSwitchInline"@));
        assert(Self::known("inlineKeyboardButtonTypeSwitchInline"@));
    }
}

/// A button to buy something. This button must be in the first column and row of the keyboard and
/// can be attached only to a message with content of the type messageInvoice
#[derive(Debug, Clone, PartialEq)]
pub struct InlineKeyboardButtonTypeBuy {}

impl Wire for InlineKeyboardButtonTypeBuy {
    #[verifier::opaque]
    open spec fn wire(&self) -> Doc {
        tagged(Map::empty(), "inlineKeyboardButtonTypeBuy"@)
    }

    #[verifier::opaque]
    open spec fn parse(d: Doc, at: Seq<char>) -> Result<Doc, Fault> {
        match d {
            Doc::Object(_) => Ok(tagged(Map::empty(), "inlineKeyboardButtonTypeBuy"@)),
            _ => Err(Fault::TypeMismatch(at)),
        }
    }

    fn encode(&self) -> (j: Json) {
        proof {
            reveal(<InlineKeyboardButtonTypeBuy as Wire>::wire);
        }
        seal(Vec::new(), "inlineKeyboardButtonTypeBuy")
    }

    fn decode(j: &Json, at: &str) -> (r: Result<Self, DecodeError>) {
        proof {
            reveal(<InlineKeyboardButtonTypeBuy as Wire>::wire);
            reveal(<InlineKeyboardButtonTypeBuy as Wire>::parse);
        }
        let _ = members_of(j, at)?;
        Ok(InlineKeyboardButtonTypeBuy {})
    }

    proof fn round_trip(&self, at: Seq<char>) {
        reveal(<InlineKeyboardButtonTypeBuy as Wire>::wire);
        reveal(<InlineKeyboardButtonTypeBuy as Wire>::parse);
    }
}

impl Tagged for InlineKeyboardButtonTypeBuy {
    open spec fn known(tag: Seq<char>) -> bool {
        tag == "inlineKeyboardButtonTypeBuy"@
    }

    fn knows(tag: &str) -> (r: bool) {
        same_text(tag, "inlineKeyboardButtonTypeBuy")
    }

    proof fn tag_known(&self) {
        reveal(<InlineKeyboardButtonTypeBuy as Wire>::wire);
        assert(tag_of(self.wire()) == Some("inlineKeyboardButtonTypeBuy"@));
        assert(Self::known("inlineKeyboardButtonTypeBuy"@));
    }
}

/// Describes the type of an inline keyboard button
#[derive(Debug, Clone, PartialEq)]
pub enum InlineKeyboardButtonType {
    InlineKeyboardButtonTypeUrl(InlineKeyboardButtonTypeUrl),
    InlineKeyboardButtonTypeLoginUrl(InlineKeyboardButtonTypeLoginUrl),
    InlineKeyboardButtonTypeCallback(InlineKeyboardButtonTypeCallback),
    InlineKeyboardButtonTypeCallbackGame(InlineKeyboardButtonTypeCallbackGame),
    InlineKeyboardButtonTypeSwitchInline(InlineKeyboardButtonTypeSwitchInline),
    InlineKeyboardButtonTypeBuy(InlineKeyboardButtonTypeBuy),
}

impl Wire for InlineKeyboardButtonType {
    #[verifier::opaque]
    open spec fn wire(&self) -> Doc {
        match self {
            Self::InlineKeyboardButtonTypeUrl(p) => p.wire(),
            Self::InlineKeyboardButtonTypeLoginUrl(p) => p.wire(),
            Self::InlineKeyboardButtonTypeCallback(p) => p.wire(),
            Self::InlineKeyboardButtonTypeCallbackGame(p) => p.wire(),
            Self::InlineKeyboardButtonTypeSwitchInline(p) => p.wire(),
            Self::InlineKeyboardButtonTypeBuy(p) => p.wire(),
        }
    }

    #[verifier::opaque]
    open spec fn parse(d: Doc, at: Seq<char>) -> Result<Doc, Fault> {
        match d {
            Doc::Object(_) => match tag_of(d) {
                Some(t) => if t == "inlineKeyboardButtonTypeUrl"@ {
                    InlineKeyboardButtonTypeUrl::parse(d, at)
                } else if t == "inlineKeyboardButtonTypeLoginUrl"@ {
                    InlineKeyboardButtonTypeLoginUrl::parse(d, at)
                } else if t == "inlineKeyboardButtonTypeCallback"@ {
                    InlineKeyboardButtonTypeCallback::parse(d, at)
                } else if t == "inlineKeyboardButtonTypeCallbackGame"@ {
                    InlineKeyboardButtonTypeCallbackGame::parse(d, at)
                } else if t == "inlineKeyboardButtonTypeSwitchInline"@ {
                    InlineKeyboardButtonTypeSwitchInline::parse(d, at)
                } else if t == "inlineKeyboardButtonTypeBuy"@ {
                    InlineKeyboardButtonTypeBuy::parse(d, at)
                } else {
                    Err(Fault::UnknownVariant(t))
                },
                None => Err(Fault::MissingDiscriminator),
            },
            _ => Err(Fault::TypeMismatch(at)),
        }
    }

    fn encode(&self) -> (j: Json) {
        proof {
            reveal(<InlineKeyboardButtonType as Wire>::wire);
        }
        match self {
            Self::InlineKeyboardButtonTypeUrl(p) => p.encode(),
            Self::InlineKeyboardButtonTypeLoginUrl(p) => p.encode(),
            Self::InlineKeyboardButtonTypeCallback(p) => p.encode(),
            Self::InlineKeyboardButtonTypeCallbackGame(p) => p.encode(),
            Self::InlineKeyboardButtonTypeSwitchInline(p) => p.encode(),
            Self::InlineKeyboardButtonTypeBuy(p) => p.encode(),
        }
    }

    fn decode(j: &Json, at: &str) -> (r: Result<Self, DecodeError>) {
        proof {
            reveal(<InlineKeyboardButtonType as Wire>::wire);
            reveal(<InlineKeyboardButtonType as Wire>::parse);
        }
        let members = members_of(j, at)?;
        let tag = discriminator(members)?;
        if same_text(tag, "inlineKeyboardButtonTypeUrl") {
            Ok(Self::InlineKeyboardButtonTypeUrl(InlineKeyboardButtonTypeUrl::decode(j, at)?))
        } else if same_text(tag, "inlineKeyboardButtonTypeLoginUrl") {
            Ok(
                Self::InlineKeyboardButtonTypeLoginUrl(
                    InlineKeyboardButtonTypeLoginUrl::decode(j, at)?,
                ),
            )
        } else if same_text(tag, "inlineKeyboardButtonTypeCallback") {
            Ok(
                Self::InlineKeyboardButtonTypeCallback(
                    InlineKeyboardButtonTypeCallback::decode(j, at)?,
                ),
            )
        } else if same_text(tag, "inlineKeyboardButtonTypeCallbackGame") {
            Ok(
                Self::InlineKeyboardButtonTypeCallbackGame(
                    InlineKeyboardButtonTypeCallbackGame::decode(j, at)?,
                ),
            )
        } else if same_text(tag, "inlineKeyboardButtonTypeSwitchInline") {
            Ok(
                Self::InlineKeyboardButtonTypeSwitchInline(
                    InlineKeyboardButtonTypeSwitchInline::decode(j, at)?,
                ),
            )
        } else if same_text(tag, "inlineKeyboardButtonTypeBuy") {
            Ok(Self::InlineKeyboardButtonTypeBuy(InlineKeyboardButtonTypeBuy::decode(j, at)?))
        } else {
            Err(DecodeError::UnknownVariant(tag.to_owned()))
        }
    }

    proof fn round_trip(&self, at: Seq<char>) {
        reveal(<InlineKeyboardButtonType as Wire>::wire);
        reveal(<InlineKeyboardButtonType as Wire>::parse);
        reveal_strlit("inlineKeyboardButtonTypeBuy");
        reveal_strlit("inlineKeyboardButtonTypeCallback");
        reveal_strlit("inlineKeyboardButtonTypeCallbackGame");
        reveal_strlit("inlineKeyboardButtonTypeLoginUrl");
        reveal_strlit("inlineKeyboardButtonTypeSwitchInline");
        reveal_strlit("inlineKeyboardButtonTypeUrl");
        assert({
            &&& "inlineKeyboardButtonTypeBuy"@.len() == 27
            &&& "inlineKeyboardButtonTypeBuy"@[24] == 'B'
        });
        assert({
            &&& "inlineKeyboardButtonTypeCallback"@.len() == 32
            &&& "inlineKeyboardButtonTypeCallback"@[24] == 'C'
        });
        assert({
            &&& "inlineKeyboardButtonTypeCallbackGame"@.len() == 36
            &&& "inlineKeyboardButtonTypeCallbackGame"@[24] == 'C'
        });
        assert({
            &&& "inlineKeyboardButtonTypeLoginUrl"@.len() == 32
            &&& "inlineKeyboardButtonTypeLoginUrl"@[24] == 'L'
        });
        assert({
            &&& "inlineKeyboardButtonTypeSwitchInline"@.len() == 36
            &&& "inlineKeyboardButtonTypeSwitchInline"@[24] == 'S'
        });
        assert({
            &&& "inlineKeyboardButtonTypeUrl"@.len() == 27
            &&& "inlineKeyboardButtonTypeUrl"@[24] == 'U'
        });
        match self {
            Self::InlineKeyboardButtonTypeUrl(p) => {
                p.tag_known();
                p.round_trip(at);
            },
            Self::InlineKeyboardButtonTypeLoginUrl(p) => {
                p.tag_known();
                p.round_trip(at);
            },
            Self::InlineKeyboardButtonTypeCallback(p) => {
                p.tag_known();
                p.round_trip(at);
            },
            Self::InlineKeyboardButtonTypeCallbackGame(p) => {
                p.tag_known();
                p.round_trip(at);
            },
            Self::InlineKeyboardButtonTypeSwitchInline(p) => {
                p.tag_known();
                p.round_trip(at);
            },
            Self::InlineKeyboardButtonTypeBuy(p) => {
                p.tag_known();
                p.round_trip(at);
            },
        }
    }
}

impl Tagged for InlineKeyboardButtonType {
    open spec fn known(tag: Seq<char>) -> bool {
        ||| tag == "inlineKeyboardButtonTypeUrl"@
        ||| tag == "inlineKeyboardButtonTypeLoginUrl"@
        ||| tag == "inlineKeyboardButtonTypeCallback"@
        ||| tag == "inlineKeyboardButtonTypeCallbackGame"@
        ||| tag == "inlineKeyboardButtonTypeSwitchInline"@
        ||| tag == "inlineKeyboardButtonTypeBuy"@
    }

    fn knows(tag: &str) -> (r: bool) {
        same_text(tag, "inlineKeyboardButtonTypeUrl")
            || same_text(tag, "inlineKeyboardButtonTypeLoginUrl")
            || same_text(tag, "inlineKeyboardButtonTypeCallback")
            || same_text(tag, "inlineKeyboardButtonTypeCallbackGame")
            || same_text(tag, "inlineKeyboardButtonTypeSwitchInline")
            || same_text(tag, "inlineKeyboardButtonTypeBuy")
    }

    proof fn tag_known(&self) {
        reveal(<InlineKeyboardButtonType as Wire>::wire);
        match self {
            Self::InlineKeyboardButtonTypeUrl(p) => p.tag_known(),
            Self::InlineKeyboardButtonTypeLoginUrl(p) => p.tag_known(),
            Self::InlineKeyboardButtonTypeCallback(p) => p.tag_known(),
            Self::InlineKeyboardButtonTypeCallbackGame(p) => p.tag_known(),
            Self::InlineKeyboardButtonTypeSwitchInline(p) => p.tag_known(),
            Self::InlineKeyboardButtonTypeBuy(p) => p.tag_known(),
        }
    }
}

impl Union for InlineKeyboardButtonType {
    proof fn unknown_rejected(d: Doc, at: Seq<char>) {
        reveal(<InlineKeyboardButtonType as Wire>::parse);
    }

    proof fn untagged_rejected(d: Doc, at: Seq<char>) {
        reveal(<InlineKeyboardButtonType as Wire>::parse);
    }
}

/// Represents a single button in an inline keyboard
#[derive(Debug, Clone, PartialEq)]
pub struct InlineKeyboardButton {
    /// Text of the button
    pub text: String,
    /// Type of the button
    pub type_: InlineKeyboardButtonType,
}

impl Wire for InlineKeyboardButton {
    #[verifier::opaque]
    open spec fn wire(&self) -> Doc {
        tagged(
            Map::empty()
                .insert("text"@, self.text.wire())
                .insert("type"@, self.type_.wire()),
            "inlineKeyboardButton"@,
        )
    }

    #[verifier::opaque]
    open spec fn parse(d: Doc, at: Seq<char>) -> Result<Doc, Fault> {
        match d {
            Doc::Object(m) => {
                let text = field::<String>(m, "text"@);
                let type_ = field::<InlineKeyboardButtonType>(m, "type"@);
                if text is Err {
                    text
                } else if type_ is Err {
                    type_
                } else {
                    Ok(
                        tagged(
                            Map::empty()
                                .insert("text"@, text->Ok_0)
                                .insert("type"@, type_->Ok_0),
                            "inlineKeyboardButton"@,
                        ),
                    )
                }
            },
            _ => Err(Fault::TypeMismatch(at)),
        }
    }

    fn encode(&self) -> (j: Json) {
        proof {
            reveal(<InlineKeyboardButton as Wire>::wire);
        }
        let mut members: Vec<Member> = Vec::new();
        put(&mut members, "text", self.text.encode());
        put(&mut members, "type", self.type_.encode());
        seal(members, "inlineKeyboardButton")
    }

    fn decode(j: &Json, at: &str) -> (r: Result<Self, DecodeError>) {
        proof {
            reveal(<InlineKeyboardButton as Wire>::wire);
            reveal(<InlineKeyboardButton as Wire>::parse);
        }
        let members = members_of(j, at)?;
        let text = read_field::<String>(members, "text")?;
        let type_ = read_field::<InlineKeyboardButtonType>(members, "type")?;
        Ok(InlineKeyboardButton { text, type_ })
    }

    proof fn round_trip(&self, at: Seq<char>) {
        reveal(<InlineKeyboardButton as Wire>::wire);
        reveal(<InlineKeyboardButton as Wire>::parse);
        reveal_strlit("@type");
        reveal_strlit("text");
        reveal_strlit("type");
        assert("@type"@.len() == 5);
        assert("text"@.len() == 4 && "text"@[1] == 'e');
        assert("type"@.len() == 4 && "type"@[1] == 'y');
        self.text.round_trip("text"@);
        self.type_.round_trip("type"@);
    }
}

impl Tagged for InlineKeyboardButton {
    open spec fn known(tag: Seq<char>) -> bool {
        tag == "inlineKeyboardButton"@
    }

    fn knows(tag: &str) -> (r: bool) {
        same_text(tag, "inlineKeyboardButton")
    }

    proof fn tag_known(&self) {
        reveal(<InlineKeyboardButton as Wire>::wire);
        assert(tag_of(self.wire()) == Some("inlineKeyboardButton"@));
        assert(Self::known("inlineKeyboardButton"@));
    }
}

/// Instructs clients to remove the keyboard once this message has been received. This kind of
/// keyboard can't be received in an incoming message; instead, UpdateChatReplyMarkup with
/// message_id == 0 will be sent
#[derive(Debug, Clone, PartialEq)]
pub struct ReplyMarkupRemoveKeyboard {
    /// True, if the keyboard is removed only for the mentioned users or the target user of a reply
    pub is_personal: bool,
}

impl Wire for ReplyMarkupRemoveKeyboard {
    #[verifier::opaque]
    open spec fn wire(&self) -> Doc {
        tagged(
            Map::empty()
                .insert("isPersonal"@, self.is_personal.wire()),
            "replyMarkupRemoveKeyboard"@,
        )
    }

    #[verifier::opaque]
    open spec fn parse(d: Doc, at: Seq<char>) -> Result<Doc, Fault> {
        match d {
            Doc::Object(m) => {
                let is_personal = field::<bool>(m, "isPersonal"@);
                if is_personal is Err {
                    is_personal
                } else {
                    Ok(
                        tagged(
                            Map::empty()
                                .insert("isPersonal"@, is_personal->Ok_0),
                            "replyMarkupRemoveKeyboard"@,
                        ),
                    )
                }
            },
            _ => Err(Fault::TypeMismatch(at)),
        }
    }

    fn encode(&self) -> (j: Json) {
        proof {
            reveal(<ReplyMarkupRemoveKeyboard as Wire>::wire);
        }
        let mut members: Vec<Member> = Vec::new();
        put(&mut members, "isPersonal", self.is_personal.encode());
        seal(members, "replyMarkupRemoveKeyboard")
    }

    fn decode(j: &Json, at: &str) -> (r: Result<Self, DecodeError>) {
        proof {
            reveal(<ReplyMarkupRemoveKeyboard as Wire>::wire);
            reveal(<ReplyMarkupRemoveKeyboard as Wire>::parse);
        }
        let members = members_of(j, at)?;
        let is_personal = read_field::<bool>(members, "isPersonal")?;
        Ok(ReplyMarkupRemoveKeyboard { is_personal })
    }

    proof fn round_trip(&self, at: Seq<char>) {
        reveal(<ReplyMarkupRemoveKeyboard as Wire>::wire);
        reveal(<ReplyMarkupRemoveKeyboard as Wire>::parse);
        reveal_strlit("@type");
        reveal_strlit("isPersonal");
        assert("@type"@.len() == 5);
        assert("isPersonal"@.len() == 10);
        self.is_personal.round_trip("isPersonal"@);
    }
}

impl Tagged for ReplyMarkupRemoveKeyboard {
    open spec fn known(tag: Seq<char>) -> bool {
        tag == "replyMarkupRemoveKeyboard"@
    }

    fn knows(tag: &str) -> (r: bool) {
        same_text(tag, "replyMarkupRemoveKeyboard")
    }

    proof fn tag_known(&self) {
        reveal(<ReplyMarkupRemoveKeyboard as Wire>::wire);
        assert(tag_of(self.wire()) == Some("replyMarkupRemoveKeyboard"@));
        assert(Self::known("replyMarkupRemoveKeyboard"@));
    }
}

/// Instructs clients to force a reply to this message
#[derive(Debug, Clone, PartialEq)]
pub struct ReplyMarkupForceReply {
    /// True, if a forced reply must automatically be shown to the current user. For outgoing
    /// messages, specify true to show the forced reply only for the mentioned users and for the
    /// target user of a reply
    pub is_personal: bool,
}

impl Wire for ReplyMarkupForceReply {
    #[verifier::opaque]
    open spec fn wire(&self) -> Doc {
        tagged(
            Map::empty()
                .insert("isPersonal"@, self.is_personal.wire()),
            "replyMarkupForceReply"@,
        )
    }

    #[verifier::opaque]
    open spec fn parse(d: Doc, at: Seq<char>) -> Result<Doc, Fault> {
        match d {
            Doc::Object(m) => {
                let is_personal = field::<bool>(m, "isPersonal"@);
                if is_personal is Err {
                    is_personal
                } else {
                    Ok(
                        tagged(
                            Map::empty()
                                .insert("isPersonal"@, is_personal->Ok_0),
                            "replyMarkupForceReply"@,
                        ),
                    )
                }
            },
            _ => Err(Fault::TypeMismatch(at)),
        }
    }

    fn encode(&self) -> (j: Json) {
        proof {
            reveal(<ReplyMarkupForceReply as Wire>::wire);
        }
        let mut members: Vec<Member> = Vec::new();
        put(&mut members, "isPersonal", self.is_personal.encode());
        seal(members, "replyMarkupForceReply")
    }

    fn decode(j: &Json, at: &str) -> (r: Result<Self, DecodeError>) {
        proof {
            reveal(<ReplyMarkupForceReply as Wire>::wire);
            reveal(<ReplyMarkupForceReply as Wire>::parse);
        }
        let members = members_of(j, at)?;
        let is_personal = read_field::<bool>(members, "isPersonal")?;
        Ok(ReplyMarkupForceReply { is_personal })
    }

    proof fn round_trip(&self, at: Seq<char>) {
        reveal(<ReplyMarkupForceReply as Wire>::wire);
        reveal(<ReplyMarkupForceReply as Wire>::parse);
        reveal_strlit("@type");
        reveal_strlit("isPersonal");
        assert("@type"@.len() == 5);
        assert("isPersonal"@.len() == 10);
        self.is_personal.round_trip("isPersonal"@);
    }
}

impl Tagged for ReplyMarkupForceReply {
    open spec fn known(tag: Seq<char>) -> bool {
        tag == "replyMarkupForceReply"@
    }

    fn knows(tag: &str) -> (r: bool) {
        same_text(tag, "replyMarkupForceReply")
    }

    proof fn tag_known(&self) {
        reveal(<ReplyMarkupForceReply as Wire>::wire);
        assert(tag_of(self.wire()) == Some("replyMarkupForceReply"@));
        assert(Self::known("replyMarkupForceReply"@));
    }
}

/// Contains a custom keyboard layout to quickly reply to bots
#[derive(Debug, Clone, PartialEq)]
pub struct ReplyMarkupShowKeyboard {
    /// A list of rows of bot keyboard buttons
    pub rows: Vec<Vec<KeyboardButton>>,
    /// True, if the client needs to resize the keyboard vertically
    pub resize_keyboard: bool,
    /// True, if the client needs to hide the keyboard after use
    pub one_time: bool,
    /// True, if the keyboard must automatically be shown to the current user. For outgoing
    /// messages, specify true to show the keyboard only for the mentioned users and for the target
    /// user of a reply
    pub is_personal: bool,
}

impl Wire for ReplyMarkupShowKeyboard {
    #[verifier::opaque]
    open spec fn wire(&self) -> Doc {
        tagged(
            Map::empty()
                .insert("rows"@, self.rows.wire())
                .insert("resizeKeyboard"@, self.resize_keyboard.wire())
                .insert("oneTime"@, self.one_time.wire())
                .insert("isPersonal"@, self.is_personal.wire()),
            "replyMarkupShowKeyboard"@,
        )
    }

    #[verifier::opaque]
    open spec fn parse(d: Doc, at: Seq<char>) -> Result<Doc, Fault> {
        match d {
            Doc::Object(m) => {
                let rows = field::<Vec<Vec<KeyboardButton>>>(m, "rows"@);
                let resize_keyboard = field::<bool>(m, "resizeKeyboard"@);
                let one_time = field::<bool>(m, "oneTime"@);
                let is_personal = field::<bool>(m, "isPersonal"@);
                if rows is Err {
                    rows
                } else if resize_keyboard is Err {
                    resize_keyboard
                } else if one_time is Err {
                    one_time
                } else if is_personal is Err {
                    is_personal
                } else {
                    Ok(
                        tagged(
                            Map::empty()
                                .insert("rows"@, rows->Ok_0)
                                .insert("resizeKeyboard"@, resize_keyboard->Ok_0)
                                .insert("oneTime"@, one_time->Ok_0)
                                .insert("isPersonal"@, is_personal->Ok_0),
                            "replyMarkupShowKeyboard"@,
                        ),
                    )
                }
            },
            _ => Err(Fault::TypeMismatch(at)),
        }
    }

    fn encode(&self) -> (j: Json) {
        proof {
            reveal(<ReplyMarkupShowKeyboard as Wire>::wire);
        }
        let mut members: Vec<Member> = Vec::new();
        put(&mut members, "rows", self.rows.encode());
        put(&mut members, "resizeKeyboard", self.resize_keyboard.encode());
        put(&mut members, "oneTime", self.one_time.encode());
        put(&mut members, "isPersonal", self.is_personal.encode());
        seal(members, "replyMarkupShowKeyboard")
    }

    fn decode(j: &Json, at: &str) -> (r: Result<Self, DecodeError>) {
        proof {
            reveal(<ReplyMarkupShowKeyboard as Wire>::wire);
            reveal(<ReplyMarkupShowKeyboard as Wire>::parse);
        }
        let members = members_of(j, at)?;
        let rows = read_field::<Vec<Vec<KeyboardButton>>>(members, "rows")?;
        let resize_keyboard = read_field::<bool>(members, "resizeKeyboard")?;
        let one_time = read_field::<bool>(members, "oneTime")?;
        let is_personal = read_field::<bool>(members, "isPersonal")?;
        Ok(ReplyMarkupShowKeyboard { rows, resize_keyboard, one_time, is_personal })
    }

    proof fn round_trip(&self, at: Seq<char>) {
        reveal(<ReplyMarkupShowKeyboard as Wire>::wire);
        reveal(<ReplyMarkupShowKeyboard as Wire>::parse);
        reveal_strlit("@type");
        reveal_strlit("isPersonal");
        reveal_strlit("oneTime");
        reveal_strlit("resizeKeyboard");
        reveal_strlit("rows");
        assert("@type"@.len() == 5);
        assert("isPersonal"@.len() == 10);
        assert("oneTime"@.len() == 7);
        assert("resizeKeyboard"@.len() == 14);
        assert("rows"@.len() == 4);
        self.rows.round_trip("rows"@);
        self.resize_keyboard.round_trip("resizeKeyboard"@);
        self.one_time.round_trip("oneTime"@);
        self.is_personal.round_trip("isPersonal"@);
    }
}

impl Tagged for ReplyMarkupShowKeyboard {
    open spec fn known(tag: Seq<char>) -> bool {
        tag == "replyMarkupShowKeyboard"@
    }

    fn knows(tag: &str) -> (r: bool) {
        same_text(tag, "replyMarkupShowKeyboard")
    }

    proof fn tag_known(&self) {
        reveal(<ReplyMarkupShowKeyboard as Wire>::wire);
        assert(tag_of(self.wire()) == Some("replyMarkupShowKeyboard"@));
        assert(Self::known("replyMarkupShowKeyboard"@));
    }
}

/// Contains an inline keyboard layout
#[derive(Debug, Clone, PartialEq)]
pub struct ReplyMarkupInlineKeyboard {
    /// A list of rows of inline keyboard buttons
    pub rows: Vec<Vec<InlineKeyboardButton>>,
}

impl Wire for ReplyMarkupInlineKeyboard {
    #[verifier::opaque]
    open spec fn wire(&self) -> Doc {
        tagged(
            Map::empty()
                .insert("rows"@, self.rows.wire()),
            "replyMarkupInlineKeyboard"@,
        )
    }

    #[verifier::opaque]
    open spec fn parse(d: Doc, at: Seq<char>) -> Result<Doc, Fault> {
        match d {
            Doc::Object(m) => {
                let rows = field::<Vec<Vec<InlineKeyboardButton>>>(m, "rows"@);
                if rows is Err {
                    rows
                } else {
                    Ok(
                        tagged(
                            Map::empty()
                                .insert("rows"@, rows->Ok_0),
                            "replyMarkupInlineKeyboard"@,
                        ),
                    )
                }
            },
            _ => Err(Fault::TypeMismatch(at)),
        }
    }

    fn encode(&self) -> (j: Json) {
        proof {
            reveal(<ReplyMarkupInlineKeyboard as Wire>::wire);
        }
        let mut members: Vec<Member> = Vec::new();
        put(&mut members, "rows", self.rows.encode());
        seal(members, "replyMarkupInlineKeyboard")
    }

    fn decode(j: &Json, at: &str) -> (r: Result<Self, DecodeError>) {
        proof {
            reveal(<ReplyMarkupInlineKeyboard as Wire>::wire);
            reveal(<ReplyMarkupInlineKeyboard as Wire>::parse);
        }
        let members = members_of(j, at)?;
        let rows = read_field::<Vec<Vec<InlineKeyboardButton>>>(members, "rows")?;
        Ok(ReplyMarkupInlineKeyboard { rows })
    }

    proof fn round_trip(&self, at: Seq<char>) {
        reveal(<ReplyMarkupInlineKeyboard as Wire>::wire);
        reveal(<ReplyMarkupInlineKeyboard as Wire>::parse);
        reveal_strlit("@type");
        reveal_strlit("rows");
        assert("@type"@.len() == 5);
        assert("rows"@.len() == 4);
        self.rows.round_trip("rows"@);
    }
}

impl Tagged for ReplyMarkupInlineKeyboard {
    open spec fn known(tag: Seq<char>) -> bool {
        tag == "replyMarkupInlineKeyboard"@
    }

    fn knows(tag: &str) -> (r: bool) {
        same_text(tag, "replyMarkupInlineKeyboard")
    }

    proof fn tag_known(&self) {
        reveal(<ReplyMarkupInlineKeyboard as Wire>::wire);
        assert(tag_of(self.wire()) == Some("replyMarkupInlineKeyboard"@));
        assert(Self::known("replyMarkupInlineKeyboard"@));
    }
}

/// Contains a description of a custom keyboard and actions that can be done with it to quickly
/// reply to bots
#[derive(Debug, Clone, PartialEq)]
pub enum ReplyMarkup {
    ReplyMarkupRemoveKeyboard(ReplyMarkupRemoveKeyboard),
    ReplyMarkupForceReply(ReplyMarkupForceReply),
    ReplyMarkupShowKeyboard(ReplyMarkupShowKeyboard),
    ReplyMarkupInlineKeyboard(ReplyMarkupInlineKeyboard),
}

impl Wire for ReplyMarkup {
    #[verifier::opaque]
    open spec fn wire(&self) -> Doc {
        match self {
            Self::ReplyMarkupRemoveKeyboard(p) => p.wire(),
            Self::ReplyMarkupForceReply(p) => p.wire(),
            Self::ReplyMarkupShowKeyboard(p) => p.wire(),
            Self::ReplyMarkupInlineKeyboard(p) => p.wire(),
        }
    }

    #[verifier::opaque]
    open spec fn parse(d: Doc, at: Seq<char>) -> Result<Doc, Fault> {
        match d {
            Doc::Object(_) => match tag_of(d) {
                Some(t) => if t == "replyMarkupRemoveKeyboard"@ {
                    ReplyMarkupRemoveKeyboard::parse(d, at)
                } else if t == "replyMarkupForceReply"@ {
                    ReplyMarkupForceReply::parse(d, at)
                } else if t == "replyMarkupShowKeyboard"@ {
                    ReplyMarkupShowKeyboard::parse(d, at)
                } else if t == "replyMarkupInlineKeyboard"@ {
                    ReplyMarkupInlineKeyboard::parse(d, at)
                } else {
                    Err(Fault::UnknownVariant(t))
                },
                None => Err(Fault::MissingDiscriminator),
            },
            _ => Err(Fault::TypeMismatch(at)),
        }
    }

    fn encode(&self) -> (j: Json) {
        proof {
            reveal(<ReplyMarkup as Wire>::wire);
        }
        match self {
            Self::ReplyMarkupRemoveKeyboard(p) => p.encode(),
            Self::ReplyMarkupForceReply(p) => p.encode(),
            Self::ReplyMarkupShowKeyboard(p) => p.encode(),
            Self::ReplyMarkupInlineKeyboard(p) => p.encode(),
        }
    }

    fn decode(j: &Json, at: &str) -> (r: Result<Self, DecodeError>) {
        proof {
            reveal(<ReplyMarkup as Wire>::wire);
            reveal(<ReplyMarkup as Wire>::parse);
        }
        let members = members_of(j, at)?;
        let tag = discriminator(members)?;
        if same_text(tag, "replyMarkupRemoveKeyboard") {
            Ok(Self::ReplyMarkupRemoveKeyboard(ReplyMarkupRemoveKeyboard::decode(j, at)?))
        } else if same_text(tag, "replyMarkupForceReply") {
            Ok(Self::ReplyMarkupForceReply(ReplyMarkupForceReply::decode(j, at)?))
        } else if same_text(tag, "replyMarkupShowKeyboard") {
            Ok(Self::ReplyMarkupShowKeyboard(ReplyMarkupShowKeyboard::decode(j, at)?))
        } else if same_text(tag, "replyMarkupInlineKeyboard") {
            Ok(Self::ReplyMarkupInlineKeyboard(ReplyMarkupInlineKeyboard::decode(j, at)?))
        } else {
            Err(DecodeError::UnknownVariant(tag.to_owned()))
        }
    }

    proof fn round_trip(&self, at: Seq<char>) {
        reveal(<ReplyMarkup as Wire>::wire);
        reveal(<ReplyMarkup as Wire>::parse);
        reveal_strlit("replyMarkupForceReply");
        reveal_strlit("replyMarkupInlineKeyboard");
        reveal_strlit("replyMarkupRemoveKeyboard");
        reveal_strlit("replyMarkupShowKeyboard");
        assert("replyMarkupForceReply"@.len() == 21);
        assert("replyMarkupInlineKeyboard"@.len() == 25 && "replyMarkupInlineKeyboard"@[11] == 'I');
        assert("replyMarkupRemoveKeyboard"@.len() == 25 && "replyMarkupRemoveKeyboard"@[11] == 'R');
        assert("replyMarkupShowKeyboard"@.len() == 23);
        match self {
            Self::ReplyMarkupRemoveKeyboard(p) => {
                p.tag_known();
                p.round_trip(at);
            },
            Self::ReplyMarkupForceReply(p) => {
                p.tag_known();
                p.round_trip(at);
            },
            Self::ReplyMarkupShowKeyboard(p) => {
                p.tag_known();
                p.round_trip(at);
            },
            Self::ReplyMarkupInlineKeyboard(p) => {
                p.tag_known();
                p.round_trip(at);
            },
        }
    }
}

impl Tagged for ReplyMarkup {
    open spec fn known(tag: Seq<char>) -> bool {
        ||| tag == "replyMarkupRemoveKeyboard"@
        ||| tag == "replyMarkupForceReply"@
        ||| tag == "replyMarkupShowKeyboard"@
        ||| tag == "replyMarkupInlineKeyboard"@
    }

    fn knows(tag: &str) -> (r: bool) {
        same_text(tag, "replyMarkupRemoveKeyboard")
            || same_text(tag, "replyMarkupForceReply")
            || same_text(tag, "replyMarkupShowKeyboard")
            || same_text(tag, "replyMarkupInlineKeyboard")
    }

    proof fn tag_known(&self) {
        reveal(<ReplyMarkup as Wire>::wire);
        match self {
            Self::ReplyMarkupRemoveKeyboard(p) => p.tag_known(),
            Self::ReplyMarkupForceReply(p) => p.tag_known(),
            Self::ReplyMarkupShowKeyboard(p) => p.tag_known(),
            Self::ReplyMarkupInlineKeyboard(p) => p.tag_known(),
        }
    }
}

impl Union for ReplyMarkup {
    proof fn unknown_rejected(d: Doc, at: Seq<char>) {
        reveal(<ReplyMarkup as Wire>::parse);
    }

    proof fn untagged_rejected(d: Doc, at: Seq<char>) {
        reveal(<ReplyMarkup as Wire>::parse);
    }
}

/// An HTTP url needs to be open
#[derive(Debug, Clone, PartialEq)]
pub struct LoginUrlInfoOpen {
    /// The URL to open
    pub url: String,
    /// True, if there is no need to show an ordinary open URL confirm
    pub skip_confirm: bool,
}

impl Wire for LoginUrlInfoOpen {
    #[verifier::opaque]
    open spec fn wire(&self) -> Doc {
        tagged(
            Map::empty()
                .insert("url"@, self.url.wire())
                .insert("skipConfirm"@, self.skip_confirm.wire()),
            "loginUrlInfoOpen"@,
        )
    }

    #[verifier::opaque]
    open spec fn parse(d: Doc, at: Seq<char>) -> Result<Doc, Fault> {
        match d {
            Doc::Object(m) => {
                let url = field::<String>(m, "url"@);
                let skip_confirm = field::<bool>(m, "skipConfirm"@);
                if url is Err {
                    url
                } else if skip_confirm is Err {
                    skip_confirm
                } else {
                    Ok(
                        tagged(
                            Map::empty()
                                .insert("url"@, url->Ok_0)
                                .insert("skipConfirm"@, skip_confirm->Ok_0),
                            "loginUrlInfoOpen"@,
                        ),
                    )
                }
            },
            _ => Err(Fault::TypeMismatch(at)),
        }
    }

    fn encode(&self) -> (j: Json) {
        proof {
            reveal(<LoginUrlInfoOpen as Wire>::wire);
        }
        let mut members: Vec<Member> = Vec::new();
        put(&mut members, "url", self.url.encode());
        put(&mut members, "skipConfirm", self.skip_confirm.encode());
        seal(members, "loginUrlInfoOpen")
    }

    fn decode(j: &Json, at: &str) -> (r: Result<Self, DecodeError>) {
        proof {
            reveal(<LoginUrlInfoOpen as Wire>::wire);
            reveal(<LoginUrlInfoOpen as Wire>::parse);
        }
        let members = members_of(j, at)?;
        let url = read_field::<String>(members, "url")?;
        let skip_confirm = read_field::<bool>(members, "skipConfirm")?;
        Ok(LoginUrlInfoOpen { url, skip_confirm })
    }

    proof fn round_trip(&self, at: Seq<char>) {
        reveal(<LoginUrlInfoOpen as Wire>::wire);
        reveal(<LoginUrlInfoOpen as Wire>::parse);
        reveal_strlit("@type");
        reveal_strlit("skipConfirm");
        reveal_strlit("url");
        assert("@type"@.len() == 5);
        assert("skipConfirm"@.len() == 11);
        assert("url"@.len() == 3);
        self.url.round_trip("url"@);
        self.skip_confirm.round_trip("skipConfirm"@);
    }
}

impl Tagged for LoginUrlInfoOpen {
    open spec fn known(tag: Seq<char>) -> bool {
        tag == "loginUrlInfoOpen"@
    }

    fn knows(tag: &str) -> (r: bool) {
        same_text(tag, "loginUrlInfoOpen")
    }

    proof fn tag_known(&self) {
        reveal(<LoginUrlInfoOpen as Wire>::wire);
        assert(tag_of(self.wire()) == Some("loginUrlInfoOpen"@));
        assert(Self::known("loginUrlInfoOpen"@));
    }
}

/// An authorization confirmation dialog needs to be shown to the user
#[derive(Debug, Clone, PartialEq)]
pub struct LoginUrlInfoRequestConfirmation {
    /// An HTTP URL to be opened
    pub url: String,
    /// A domain of the URL
    pub domain: String,
    /// User identifier of a bot linked with the website
    pub bot_user_id: i32,
    /// True, if the user needs to be requested to give the permission to the bot to send them
    /// messages
    pub request_write_access: bool,
}

impl Wire for LoginUrlInfoRequestConfirmation {
    #[verifier::opaque]
    open spec fn wire(&self) -> Doc {
        tagged(
            Map::empty()
                .insert("url"@, self.url.wire())
                .insert("domain"@, self.domain.wire())
                .insert("botUserId"@, self.bot_user_id.wire())
                .insert("requestWriteAccess"@, self.request_write_access.wire()),
            "loginUrlInfoRequestConfirmation"@,
        )
    }

    #[verifier::opaque]
    open spec fn parse(d: Doc, at: Seq<char>) -> Result<Doc, Fault> {
        match d {
            Doc::Object(m) => {
                let url = field::<String>(m, "url"@);
                let domain = field::<String>(m, "domain"@);
                let bot_user_id = field::<i32>(m, "botUserId"@);
                let request_write_access = field::<bool>(m, "requestWriteAccess"@);
                if url is Err {
                    url
                } else if domain is Err {
                    domain
                } else if bot_user_id is Err {
                    bot_user_id
                } else if request_write_access is Err {
                    request_write_access
                } else {
                    Ok(
                        tagged(
                            Map::empty()
                                .insert("url"@, url->Ok_0)
                                .insert("domain"@, domain->Ok_0)
                                .insert("botUserId"@, bot_user_id->Ok_0)
                                .insert("requestWriteAccess"@, request_write_access->Ok_0),
                            "loginUrlInfoRequestConfirmation"@,
                        ),
                    )
                }
            },
            _ => Err(Fault::TypeMismatch(at)),
        }
    }

    fn encode(&self) -> (j: Json) {
        proof {
            reveal(<LoginUrlInfoRequestConfirmation as Wire>::wire);
        }
        let mut members: Vec<Member> = Vec::new();
        put(&mut members, "url", self.url.encode());
        put(&mut members, "domain", self.domain.encode());
        put(&mut members, "botUserId", self.bot_user_id.encode());
        put(&mut members, "requestWriteAccess", self.request_write_access.encode());
        seal(members, "loginUrlInfoRequestConfirmation")
    }

    fn decode(j: &Json, at: &str) -> (r: Result<Self, DecodeError>) {
        proof {
            reveal(<LoginUrlInfoRequestConfirmation as Wire>::wire);
            reveal(<LoginUrlInfoRequestConfirmation as Wire>::parse);
        }
        let members = members_of(j, at)?;
        let url = read_field::<String>(members, "url")?;
        let domain = read_field::<String>(members, "domain")?;
        let bot_user_id = read_field::<i32>(members, "botUserId")?;
        let request_write_access = read_field::<bool>(members, "requestWriteAccess")?;
        Ok(LoginUrlInfoRequestConfirmation { url, domain, bot_user_id, request_write_access })
    }

    proof fn round_trip(&self, at: Seq<char>) {
        reveal(<LoginUrlInfoRequestConfirmation as Wire>::wire);
        reveal(<LoginUrlInfoRequestConfirmation as Wire>::parse);
        reveal_strlit("@type");
        reveal_strlit("botUserId");
        reveal_strlit("domain");
        reveal_strlit("requestWriteAccess");
        reveal_strlit("url");
        assert("@type"@.len() == 5);
        assert("botUserId"@.len() == 9);
        assert("domain"@.len() == 6);
        assert("requestWriteAccess"@.len() == 18);
        assert("url"@.len() == 3);
        self.url.round_trip("url"@);
        self.domain.round_trip("domain"@);
        self.bot_user_id.round_trip("botUserId"@);
        self.request_write_access.round_trip("requestWriteAccess"@);
    }
}

impl Tagged for LoginUrlInfoRequestConfirmation {
    open spec fn known(tag: Seq<char>) -> bool {
        tag == "loginUrlInfoRequestConfirmation"@
    }

    fn knows(tag: &str) -> (r: bool) {
        same_text(tag, "loginUrlInfoRequestConfirmation")
    }

    proof fn tag_known(&self) {
        reveal(<LoginUrlInfoRequestConfirmation as Wire>::wire);
        assert(tag_of(self.wire()) == Some("loginUrlInfoRequestConfirmation"@));
        assert(Self::known("loginUrlInfoRequestConfirmation"@));
    }
}

/// Contains information about an inline button of type inlineKeyboardButtonTypeLoginUrl
#[derive(Debug, Clone, PartialEq)]
pub enum LoginUrlInfo {
    LoginUrlInfoOpen(LoginUrlInfoOpen),
    LoginUrlInfoRequestConfirmation(LoginUrlInfoRequestConfirmation),
}

impl Wire for LoginUrlInfo {
    #[verifier::opaque]
    open spec fn wire(&self) -> Doc {
        match self {
            Self::LoginUrlInfoOpen(p) => p.wire(),
            Self::LoginUrlInfoRequestConfirmation(p) => p.wire(),
        }
    }

    #[verifier::opaque]
    open spec fn parse(d: Doc, at: Seq<char>) -> Result<Doc, Fault> {
        match d {
            Doc::Object(_) => match tag_of(d) {
                Some(t) => if t == "loginUrlInfoOpen"@ {
                    LoginUrlInfoOpen::parse(d, at)
                } else if t == "loginUrlInfoRequestConfirmation"@ {
                    LoginUrlInfoRequestConfirmation::parse(d, at)
                } else {
                    Err(Fault::UnknownVariant(t))
                },
                None => Err(Fault::MissingDiscriminator),
            },
            _ => Err(Fault::TypeMismatch(at)),
        }
    }

    fn encode(&self) -> (j: Json) {
        proof {
            reveal(<LoginUrlInfo as Wire>::wire);
        }
        match self {
            Self::LoginUrlInfoOpen(p) => p.encode(),
            Self::LoginUrlInfoRequestConfirmation(p) => p.encode(),
        }
    }

    fn decode(j: &Json, at: &str) -> (r: Result<Self, DecodeError>) {
        proof {
            reveal(<LoginUrlInfo as Wire>::wire);
            reveal(<LoginUrlInfo as Wire>::parse);
        }
        let members = members_of(j, at)?;
        let tag = discriminator(members)?;
        if same_text(tag, "loginUrlInfoOpen") {
            Ok(Self::LoginUrlInfoOpen(LoginUrlInfoOpen::decode(j, at)?))
        } else if same_text(tag, "loginUrlInfoRequestConfirmation") {
            Ok(
                Self::LoginUrlInfoRequestConfirmation(
                    LoginUrlInfoRequestConfirmation::decode(j, at)?,
                ),
            )
        } else {
            Err(DecodeError::UnknownVariant(tag.to_owned()))
        }
    }

    proof fn round_trip(&self, at: Seq<char>) {
        reveal(<LoginUrlInfo as Wire>::wire);
        reveal(<LoginUrlInfo as Wire>::parse);
        reveal_strlit("loginUrlInfoOpen");
        reveal_strlit("loginUrlInfoRequestConfirmation");
        assert("loginUrlInfoOpen"@.len() == 16);
        assert("loginUrlInfoRequestConfirmation"@.len() == 31);
        match self {
            Self::LoginUrlInfoOpen(p) => {
                p.tag_known();
                p.round_trip(at);
            },
            Self::LoginUrlInfoRequestConfirmation(p) => {
                p.tag_known();
                p.round_trip(at);
            },
        }
    }
}

impl Tagged for LoginUrlInfo {
    open spec fn known(tag: Seq<char>) -> bool {
        ||| tag == "loginUrlInfoOpen"@
        ||| tag == "loginUrlInfoRequestConfirmation"@
    }

    fn knows(tag: &str) -> (r: bool) {
        same_text(tag, "loginUrlInfoOpen")
            || same_text(tag, "loginUrlInfoRequestConfirmation")
    }

    proof fn tag_known(&self) {
        reveal(<LoginUrlInfo as Wire>::wire);
        match self {
            Self::LoginUrlInfoOpen(p) => p.tag_known(),
            Self::LoginUrlInfoRequestConfirmation(p) => p.tag_known(),
        }
    }
}

impl Union for LoginUrlInfo {
    proof fn unknown_rejected(d: Doc, at: Seq<char>) {
        reveal(<LoginUrlInfo as Wire>::parse);
    }

    proof fn untagged_rejected(d: Doc, at: Seq<char>) {
        reveal(<LoginUrlInfo as Wire>::parse);
    }
}

} // verus!
