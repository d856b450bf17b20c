//! Updates: what the library sends without being asked.

use vstd::prelude::*;
use crate::codec::{
    discriminator, encode_wide, field, lemma_wide_round_trip, members_of, optional_field, put,
    read_field, read_optional, read_wide, seal, Tagged, Union, wide_doc, wide_field, Wire,
};
use crate::error::{DecodeError, Fault};
use crate::json::{Doc, Json, Member, Number, tag_of, tagged};
use crate::text::same_text;
use crate::types::{
    Address, AuthorizationState, Background, BasicGroup, BasicGroupFullInfo, Call,
    CallbackQueryPayload, Chat, ChatAction, ChatActionBar, ChatList, ChatNearby,
    ChatNotificationSettings, ChatPermissions, ChatPhoto, ConnectionState, DraftMessage, File,
    LanguagePackString, Location, Message, MessageContent, Notification, NotificationGroup,
    NotificationGroupType, NotificationSettingsScope, OptionValue, OrderInfo, Poll, ReplyMarkup,
    ScopeNotificationSettings, SecretChat, StickerSets, Supergroup, SupergroupFullInfo,
    TermsOfService, User, UserFullInfo, UserPrivacySetting, UserPrivacySettingRules, UserStatus,
};

verus! {

/// The user authorization state has changed
#[derive(Debug, Clone, PartialEq)]
pub struct UpdateAuthorizationState {
    /// New authorization state
    pub authorization_state: AuthorizationState,
}

impl Wire for UpdateAuthorizationState {
    #[verifier::opaque]
    open spec fn wire(&self) -> Doc {
        tagged(
            Map::empty()
                .insert("authorizationState"@, self.authorization_state.wire()),
            "updateAuthorizationState"@,
        )
    }

    #[verifier::opaque]
    open spec fn parse(d: Doc, at: Seq<char>) -> Result<Doc, Fault> {
        match d {
            Doc::Object(m) => {
                let authorization_state = field::<AuthorizationState>(m, "authorizationState"@);
                if authorization_state is Err {
                    authorization_state
                } else {
                    Ok(
                        tagged(
                            Map::empty()
                                .insert("authorizationState"@, authorization_state->Ok_0),
                            "updateAuthorizationState"@,
                        ),
                    )
                }
            },
            _ => Err(Fault::TypeMismatch(at)),
        }
    }

    fn encode(&self) -> (j: Json) {
        proof {
            reveal(<UpdateAuthorizationState as Wire>::wire);
        }
        let mut members: Vec<Member> = Vec::new();
        put(&mut members, "authorizationState", self.authorization_state.encode());
        seal(members, "updateAuthorizationState")
    }

    fn decode(j: &Json, at: &str) -> (r: Result<Self, DecodeError>) {
        proof {
            reveal(<UpdateAuthorizationState as Wire>::wire);
            reveal(<UpdateAuthorizationState as Wire>::parse);
        }
        let members = members_of(j, at)?;
        let authorization_state = read_field::<AuthorizationState>(members, "authorizationState")?;
        Ok(UpdateAuthorizationState { authorization_state })
    }

    proof fn round_trip(&self, at: Seq<char>) {
        reveal(<UpdateAuthorizationState as Wire>::wire);
        reveal(<UpdateAuthorizationState as Wire>::parse);
        reveal_strlit("@type");
        reveal_strlit("authorizationState");
        assert("@type"@.len() == 5);
        assert("authorizationState"@.len() == 18);
        self.authorization_state.round_trip("authorizationState"@);
    }
}

impl Tagged for UpdateAuthorizationState {
    open spec fn known(tag: Seq<char>) -> bool {
        tag == "updateAuthorizationState"@
    }

    fn knows(tag: &str) -> (r: bool) {
        same_text(tag, "updateAuthorizationState")
    }

    proof fn tag_known(&self) {
        reveal(<UpdateAuthorizationState as Wire>::wire);
        assert(tag_of(self.wire()) == Some("updateAuthorizationState"@));
        assert(Self::known("updateAuthorizationState"@));
    }
}

/// A new message was received; can also be an outgoing message
#[derive(Debug, Clone, PartialEq)]
pub struct UpdateNewMessage {
    /// The new message
    pub message: Message,
}

impl Wire for UpdateNewMessage {
    #[verifier::opaque]
    open spec fn wire(&self) -> Doc {
        tagged(
            Map::empty()
                .insert("message"@, self.message.wire()),
            "updateNewMessage"@,
        )
    }

    #[verifier::opaque]
    open spec fn parse(d: Doc, at: Seq<char>) -> Result<Doc, Fault> {
        match d {
            Doc::Object(m) => {
                let message = field::<Message>(m, "message"@);
                if message is Err {
                    message
                } else {
                    Ok(
                        tagged(
                            Map::empty()
                                .insert("message"@, message->Ok_0),
                            "updateNewMessage"@,
                        ),
                    )
                }
            },
            _ => Err(Fault::TypeMismatch(at)),
        }
    }

    fn encode(&self) -> (j: Json) {
        proof {
            reveal(<UpdateNewMessage as Wire>::wire);
        }
        let mut members: Vec<Member> = Vec::new();
        put(&mut members, "message", self.message.encode());
        seal(members, "updateNewMessage")
    }

    fn decode(j: &Json, at: &str) -> (r: Result<Self, DecodeError>) {
        proof {
            reveal(<UpdateNewMessage as Wire>::wire);
            reveal(<UpdateNewMessage as Wire>::parse);
        }
        let members = members_of(j, at)?;
        let message = read_field::<Message>(members, "message")?;
        Ok(UpdateNewMessage { message })
    }

    proof fn round_trip(&self, at: Seq<char>) {
        reveal(<UpdateNewMessage as Wire>::wire);
        reveal(<UpdateNewMessage as Wire>::parse);
        reveal_strlit("@type");
        reveal_strlit("message");
        assert("@type"@.len() == 5);
        assert("message"@.len() == 7);
        self.message.round_trip("message"@);
    }
}

impl Tagged for UpdateNewMessage {
    open spec fn known(tag: Seq<char>) -> bool {
        tag == "updateNewMessage"@
    }

    fn knows(tag: &str) -> (r: bool) {
        same_text(tag, "updateNewMessage")
    }

    proof fn tag_known(&self) {
        reveal(<UpdateNewMessage as Wire>::wire);
        assert(tag_of(self.wire()) == Some("updateNewMessage"@));
        assert(Self::known("updateNewMessage"@));
    }
}

/// A request to send a message has reached the Telegram server. This doesn't mean that the message
/// will be sent successfully or even that the send message request will be processed. This update
/// will be sent only if the option "use_quick_ack" is set to true. This update may be sent multiple
/// times for the same message
#[derive(Debug, Clone, PartialEq)]
pub struct UpdateMessageSendAcknowledged {
    /// The chat identifier of the sent message
    pub chat_id: i64,
    /// A temporary message identifier
    pub message_id: i64,
}

impl Wire for UpdateMessageSendAcknowledged {
    #[verifier::opaque]
    open spec fn wire(&self) -> Doc {
        tagged(
            Map::empty()
                .insert("chatId"@, self.chat_id.wire())
                .insert("messageId"@, self.message_id.wire()),
            "updateMessageSendAcknowledged"@,
        )
    }

    #[verifier::opaque]
    open spec fn parse(d: Doc, at: Seq<char>) -> Result<Doc, Fault> {
        match d {
            Doc::Object(m) => {
                let chat_id = field::<i64>(m, "chatId"@);
                let message_id = field::<i64>(m, "messageId"@);
                if chat_id is Err {
                    chat_id
                } else if message_id is Err {
                    message_id
                } else {
                    Ok(
                        tagged(
                            Map::empty()
                                .insert("chatId"@, chat_id->Ok_0)
                                .insert("messageId"@, message_id->Ok_0),
                            "updateMessageSendAcknowledged"@,
                        ),
                    )
                }
            },
            _ => Err(Fault::TypeMismatch(at)),
        }
    }

    fn encode(&self) -> (j: Json) {
        proof {
            reveal(<UpdateMessageSendAcknowledged as Wire>::wire);
        }
        let mut members: Vec<Member> = Vec::new();
        put(&mut members, "chatId", self.chat_id.encode());
        put(&mut members, "messageId", self.message_id.encode());
        seal(members, "updateMessageSendAcknowledged")
    }

    fn decode(j: &Json, at: &str) -> (r: Result<Self, DecodeError>) {
        proof {
            reveal(<UpdateMessageSendAcknowledged as Wire>::wire);
            reveal(<UpdateMessageSendAcknowledged as Wire>::parse);
        }
        let members = members_of(j, at)?;
        let chat_id = read_field::<i64>(members, "chatId")?;
        let message_id = read_field::<i64>(members, "messageId")?;
        Ok(UpdateMessageSendAcknowledged { chat_id, message_id })
    }

    proof fn round_trip(&self, at: Seq<char>) {
        reveal(<UpdateMessageSendAcknowledged as Wire>::wire);
        reveal(<UpdateMessageSendAcknowledged as Wire>::parse);
        reveal_strlit("@type");
        reveal_strlit("chatId");
        reveal_strlit("messageId");
        assert("@type"@.len() == 5);
        assert("chatId"@.len() == 6);
        assert("messageId"@.len() == 9);
        self.chat_id.round_trip("chatId"@);
        self.message_id.round_trip("messageId"@);
    }
}

impl Tagged for UpdateMessageSendAcknowledged {
    open spec fn known(tag: Seq<char>) -> bool {
        tag == "updateMessageSendAcknowledged"@
    }

    fn knows(tag: &str) -> (r: bool) {
        same_text(tag, "updateMessageSendAcknowledged")
    }

    proof fn tag_known(&self) {
        reveal(<UpdateMessageSendAcknowledged as Wire>::wire);
        assert(tag_of(self.wire()) == Some("updateMessageSendAcknowledged"@));
        assert(Self::known("updateMessageSendAcknowledged"@));
    }
}

/// A message has been successfully sent
#[derive(Debug, Clone, PartialEq)]
pub struct UpdateMessageSendSucceeded {
    /// Information about the sent message. Usually only the message identifier, date, and content
    /// are changed, but almost all other fields can also change
    pub message: Message,
    /// The previous temporary message identifier
    pub old_message_id: i64,
}

impl Wire for UpdateMessageSendSucceeded {
    #[verifier::opaque]
    open spec fn wire(&self) -> Doc {
        tagged(
            Map::empty()
                .insert("message"@, self.message.wire())
                .insert("oldMessageId"@, self.old_message_id.wire()),
            "updateMessageSendSucceeded"@,
        )
    }

    #[verifier::opaque]
    open spec fn parse(d: Doc, at: Seq<char>) -> Result<Doc, Fault> {
        match d {
            Doc::Object(m) => {
                let message = field::<Message>(m, "message"@);
                let old_message_id = field::<i64>(m, "oldMessageId"@);
                if message is Err {
                    message
                } else if old_message_id is Err {
                    old_message_id
                } else {
                    Ok(
                        tagged(
                            Map::empty()
                                .insert("message"@, message->Ok_0)
                                .insert("oldMessageId"@, old_message_id->Ok_0),
                            "updateMessageSendSucceeded"@,
                        ),
                    )
                }
            },
            _ => Err(Fault::TypeMismatch(at)),
        }
    }

    fn encode(&self) -> (j: Json) {
        proof {
            reveal(<UpdateMessageSendSucceeded as Wire>::wire);
        }
        let mut members: Vec<Member> = Vec::new();
        put(&mut members, "message", self.message.encode());
        put(&mut members, "oldMessageId", self.old_message_id.encode());
        seal(members, "updateMessageSendSucceeded")
    }

    fn decode(j: &Json, at: &str) -> (r: Result<Self, DecodeError>) {
        proof {
            reveal(<UpdateMessageSendSucceeded as Wire>::wire);
            reveal(<UpdateMessageSendSucceeded as Wire>::parse);
        }
        let members = members_of(j, at)?;
        let message = read_field::<Message>(members, "message")?;
        let old_message_id = read_field::<i64>(members, "oldMessageId")?;
        Ok(UpdateMessageSendSucceeded { message, old_message_id })
    }

    proof fn round_trip(&self, at: Seq<char>) {
        reveal(<UpdateMessageSendSucceeded as Wire>::wire);
        reveal(<UpdateMessageSendSucceeded as Wire>::parse);
        reveal_strlit("@type");
        reveal_strlit("message");
        reveal_strlit("oldMessageId");
        assert("@type"@.len() == 5);
        assert("message"@.len() == 7);
        assert("oldMessageId"@.len() == 12);
        self.message.round_trip("message"@);
        self.old_message_id.round_trip("oldMessageId"@);
    }
}

impl Tagged for UpdateMessageSendSucceeded {
    open spec fn known(tag: Seq<char>) -> bool {
        tag == "updateMessageSendSucceeded"@
    }

    fn knows(tag: &str) -> (r: bool) {
        same_text(tag, "updateMessageSendSucceeded")
    }

    proof fn tag_known(&self) {
        reveal(<UpdateMessageSendSucceeded as Wire>::wire);
        assert(tag_of(self.wire()) == Some("updateMessageSendSucceeded"@));
        assert(Self::known("updateMessageSendSucceeded"@));
    }
}

/// A message failed to send. Be aware that some messages being sent can be irrecoverably deleted,
/// in which case updateDeleteMessages will be received instead of this update
#[derive(Debug, Clone, PartialEq)]
pub struct UpdateMessageSendFailed {
    /// Contains information about the message which failed to send
    pub message: Message,
    /// The previous temporary message identifier
    pub old_message_id: i64,
    /// An error code
    pub error_code: i32,
    /// Error message
    pub error_message: String,
}

impl Wire for UpdateMessageSendFailed {
    #[verifier::opaque]
    open spec fn wire(&self) -> Doc {
        tagged(
            Map::empty()
                .insert("message"@, self.message.wire())
                .insert("oldMessageId"@, self.old_message_id.wire())
                .insert("errorCode"@, self.error_code.wire())
                .insert("errorMessage"@, self.error_message.wire()),
            "updateMessageSendFailed"@,
        )
    }

    #[verifier::opaque]
    open spec fn parse(d: Doc, at: Seq<char>) -> Result<Doc, Fault> {
        match d {
            Doc::Object(m) => {
                let message = field::<Message>(m, "message"@);
                let old_message_id = field::<i64>(m, "oldMessageId"@);
                let error_code = field::<i32>(m, "errorCode"@);
                let error_message = field::<String>(m, "errorMessage"@);
                if message is Err {
                    message
                } else if old_message_id is Err {
                    old_message_id
                } else if error_code is Err {
                    error_code
                } else if error_message is Err {
                    error_message
                } else {
                    Ok(
                        tagged(
                            Map::empty()
                                .insert("message"@, message->Ok_0)
                                .insert("oldMessageId"@, old_message_id->Ok_0)
                                .insert("errorCode"@, error_code->Ok_0)
                                .insert("errorMessage"@, error_message->Ok_0),
                            "updateMessageSendFailed"@,
                        ),
                    )
                }
            },
            _ => Err(Fault::TypeMismatch(at)),
        }
    }

    fn encode(&self) -> (j: Json) {
        proof {
            reveal(<UpdateMessageSendFailed as Wire>::wire);
        }
        let mut members: Vec<Member> = Vec::new();
        put(&mut members, "message", self.message.encode());
        put(&mut members, "oldMessageId", self.old_message_id.encode());
        put(&mut members, "errorCode", self.error_code.encode());
        put(&mut members, "errorMessage", self.error_message.encode());
        seal(members, "updateMessageSendFailed")
    }

    fn decode(j: &Json, at: &str) -> (r: Result<Self, DecodeError>) {
        proof {
            reveal(<UpdateMessageSendFailed as Wire>::wire);
            reveal(<UpdateMessageSendFailed as Wire>::parse);
        }
        let members = members_of(j, at)?;
        let message = read_field::<Message>(members, "message")?;
        let old_message_id = read_field::<i64>(members, "oldMessageId")?;
        let error_code = read_field::<i32>(members, "errorCode")?;
        let error_message = read_field::<String>(members, "errorMessage")?;
        Ok(UpdateMessageSendFailed { message, old_message_id, error_code, error_message })
    }

    proof fn round_trip(&self, at: Seq<char>) {
        reveal(<UpdateMessageSendFailed as Wire>::wire);
        reveal(<UpdateMessageSendFailed as Wire>::parse);
        reveal_strlit("@type");
        reveal_strlit("errorCode");
        reveal_strlit("errorMessage");
        reveal_strlit("message");
        reveal_strlit("oldMessageId");
        assert("@type"@.len() == 5);
        assert("errorCode"@.len() == 9);
        assert("errorMessage"@.len() == 12 && "errorMessage"@[0] == 'e');
        assert("message"@.len() == 7);
        assert("oldMessageId"@.len() == 12 && "oldMessageId"@[0] == 'o');
        self.message.round_trip("message"@);
        self.old_message_id.round_trip("oldMessageId"@);
        self.error_code.round_trip("errorCode"@);
        self.error_message.round_trip("errorMessage"@);
    }
}

impl Tagged for UpdateMessageSendFailed {
    open spec fn known(tag: Seq<char>) -> bool {
        tag == "updateMessageSendFailed"@
    }

    fn knows(tag: &str) -> (r: bool) {
        same_text(tag, "updateMessageSendFailed")
    }

    proof fn tag_known(&self) {
        reveal(<UpdateMessageSendFailed as Wire>::wire);
        assert(tag_of(self.wire()) == Some("updateMessageSendFailed"@));
        assert(Self::known("updateMessageSendFailed"@));
    }
}

/// The message content has changed
#[derive(Debug, Clone, PartialEq)]
pub struct UpdateMessageContent {
    /// Chat identifier
    pub chat_id: i64,
    /// Message identifier
    pub message_id: i64,
    /// New message content
    pub new_content: MessageContent,
}

impl Wire for UpdateMessageContent {
    #[verifier::opaque]
    open spec fn wire(&self) -> Doc {
        tagged(
            Map::empty()
                .insert("chatId"@, self.chat_id.wire())
                .insert("messageId"@, self.message_id.wire())
                .insert("newContent"@, self.new_content.wire()),
            "updateMessageContent"@,
        )
    }

    #[verifier::opaque]
    open spec fn parse(d: Doc, at: Seq<char>) -> Result<Doc, Fault> {
        match d {
            Doc::Object(m) => {
                let chat_id = field::<i64>(m, "chatId"@);
                let message_id = field::<i64>(m, "messageId"@);
                let new_content = field::<MessageContent>(m, "newContent"@);
                if chat_id is Err {
                    chat_id
                } else if message_id is Err {
                    message_id
                } else if new_content is Err {
                    new_content
                } else {
                    Ok(
                        tagged(
                            Map::empty()
                                .insert("chatId"@, chat_id->Ok_0)
                                .insert("messageId"@, message_id->Ok_0)
                                .insert("newContent"@, new_content->Ok_0),
                            "updateMessageContent"@,
                        ),
                    )
                }
            },
            _ => Err(Fault::TypeMismatch(at)),
        }
    }

    fn encode(&self) -> (j: Json) {
        proof {
            reveal(<UpdateMessageContent as Wire>::wire);
        }
        let mut members: Vec<Member> = Vec::new();
        put(&mut members, "chatId", self.chat_id.encode());
        put(&mut members, "messageId", self.message_id.encode());
        put(&mut members, "newContent", self.new_content.encode());
        seal(members, "updateMessageContent")
    }

    fn decode(j: &Json, at: &str) -> (r: Result<Self, DecodeError>) {
        proof {
            reveal(<UpdateMessageContent as Wire>::wire);
            reveal(<UpdateMessageContent as Wire>::parse);
        }
        let members = members_of(j, at)?;
        let chat_id = read_field::<i64>(members, "chatId")?;
        let message_id = read_field::<i64>(members, "messageId")?;
        let new_content = read_field::<MessageContent>(members, "newContent")?;
        Ok(UpdateMessageContent { chat_id, message_id, new_content })
    }

    proof fn round_trip(&self, at: Seq<char>) {
        reveal(<UpdateMessageContent as Wire>::wire);
        reveal(<UpdateMessageContent as Wire>::parse);
        reveal_strlit("@type");
        reveal_strlit("chatId");
        reveal_strlit("messageId");
        reveal_strlit("newContent");
        assert("@type"@.len() == 5);
        assert("chatId"@.len() == 6);
        assert("messageId"@.len() == 9);
        assert("newContent"@.len() == 10);
        self.chat_id.round_trip("chatId"@);
        self.message_id.round_trip("messageId"@);
        self.new_content.round_trip("newContent"@);
    }
}

impl Tagged for UpdateMessageContent {
    open spec fn known(tag: Seq<char>) -> bool {
        tag == "updateMessageContent"@
    }

    fn knows(tag: &str) -> (r: bool) {
        same_text(tag, "updateMessageContent")
    }

    proof fn tag_known(&self) {
        reveal(<UpdateMessageContent as Wire>::wire);
        assert(tag_of(self.wire()) == Some("updateMessageContent"@));
        assert(Self::known("updateMessageContent"@));
    }
}

/// A message was edited. Changes in the message content will come in a separate
/// updateMessageContent
#[derive(Debug, Clone, PartialEq)]
pub struct UpdateMessageEdited {
    /// Chat identifier
    pub chat_id: i64,
    /// Message identifier
    pub message_id: i64,
    /// Point in time (Unix timestamp) when the message was edited
    pub edit_date: i32,
    /// New message reply markup; may be null
    pub reply_markup: Option<ReplyMarkup>,
}

impl Wire for UpdateMessageEdited {
    #[verifier::opaque]
    open spec fn wire(&self) -> Doc {
        tagged(
            Map::empty()
                .insert("chatId"@, self.chat_id.wire())
                .insert("messageId"@, self.message_id.wire())
                .insert("editDate"@, self.edit_date.wire())
                .insert("replyMarkup"@, self.reply_markup.wire()),
            "updateMessageEdited"@,
        )
    }

    #[verifier::opaque]
    open spec fn parse(d: Doc, at: Seq<char>) -> Result<Doc, Fault> {
        match d {
            Doc::Object(m) => {
                let chat_id = field::<i64>(m, "chatId"@);
                let message_id = field::<i64>(m, "messageId"@);
                let edit_date = field::<i32>(m, "editDate"@);
                let reply_markup = optional_field::<ReplyMarkup>(m, "replyMarkup"@);
                if chat_id is Err {
                    chat_id
                } else if message_id is Err {
                    message_id
                } else if edit_date is Err {
                    edit_date
                } else if reply_markup is Err {
                    reply_markup
                } else {
                    Ok(
                        tagged(
                            Map::empty()
                                .insert("chatId"@, chat_id->Ok_0)
                                .insert("messageId"@, message_id->Ok_0)
                                .insert("editDate"@, edit_date->Ok_0)
                                .insert("replyMarkup"@, reply_markup->Ok_0),
                            "updateMessageEdited"@,
                        ),
                    )
                }
            },
            _ => Err(Fault::TypeMismatch(at)),
        }
    }

    fn encode(&self) -> (j: Json) {
        proof {
            reveal(<UpdateMessageEdited as Wire>::wire);
        }
        let mut members: Vec<Member> = Vec::new();
        put(&mut members, "chatId", self.chat_id.encode());
        put(&mut members, "messageId", self.message_id.encode());
        put(&mut members, "editDate", self.edit_date.encode());
        put(&mut members, "replyMarkup", self.reply_markup.encode());
        seal(members, "updateMessageEdited")
    }

    fn decode(j: &Json, at: &str) -> (r: Result<Self, DecodeError>) {
        proof {
            reveal(<UpdateMessageEdited as Wire>::wire);
            reveal(<UpdateMessageEdited as Wire>::parse);
        }
        let members = members_of(j, at)?;
        let chat_id = read_field::<i64>(members, "chatId")?;
        let message_id = read_field::<i64>(members, "messageId")?;
        let edit_date = read_field::<i32>(members, "editDate")?;
        let reply_markup = read_optional::<ReplyMarkup>(members, "replyMarkup")?;
        Ok(UpdateMessageEdited { chat_id, message_id, edit_date, reply_markup })
    }

    proof fn round_trip(&self, at: Seq<char>) {
        reveal(<UpdateMessageEdited as Wire>::wire);
        reveal(<UpdateMessageEdited as Wire>::parse);
        reveal_strlit("@type");
        reveal_strlit("chatId");
        reveal_strlit("editDate");
        reveal_strlit("messageId");
        reveal_strlit("replyMarkup");
        assert("@type"@.len() == 5);
        assert("chatId"@.len() == 6);
        assert("editDate"@.len() == 8);
        assert("messageId"@.len() == 9);
        assert("replyMarkup"@.len() == 11);
        self.chat_id.round_trip("chatId"@);
        self.message_id.round_trip("messageId"@);
        self.edit_date.round_trip("editDate"@);
        self.reply_markup.round_trip("replyMarkup"@);
    }
}

impl Tagged for UpdateMessageEdited {
    open spec fn known(tag: Seq<char>) -> bool {
        tag == "updateMessageEdited"@
    }

    fn knows(tag: &str) -> (r: bool) {
        same_text(tag, "updateMessageEdited")
    }

    proof fn tag_known(&self) {
        reveal(<UpdateMessageEdited as Wire>::wire);
        assert(tag_of(self.wire()) == Some("updateMessageEdited"@));
        assert(Self::known("updateMessageEdited"@));
    }
}

/// The view count of the message has changed
#[derive(Debug, Clone, PartialEq)]
pub struct UpdateMessageViews {
    /// Chat identifier
    pub chat_id: i64,
    /// Message identifier
    pub message_id: i64,
    /// New value of the view count
    pub views: i32,
}

impl Wire for UpdateMessageViews {
    #[verifier::opaque]
    open spec fn wire(&self) -> Doc {
        tagged(
            Map::empty()
                .insert("chatId"@, self.chat_id.wire())
                .insert("messageId"@, self.message_id.wire())
                .insert("views"@, self.views.wire()),
            "updateMessageViews"@,
        )
    }

    #[verifier::opaque]
    open spec fn parse(d: Doc, at: Seq<char>) -> Result<Doc, Fault> {
        match d {
            Doc::Object(m) => {
                let chat_id = field::<i64>(m, "chatId"@);
                let message_id = field::<i64>(m, "messageId"@);
                let views = field::<i32>(m, "views"@);
                if chat_id is Err {
                    chat_id
                } else if message_id is Err {
                    message_id
                } else if views is Err {
                    views
                } else {
                    Ok(
                        tagged(
                            Map::empty()
                                .insert("chatId"@, chat_id->Ok_0)
                                .insert("messageId"@, message_id->Ok_0)
                                .insert("views"@, views->Ok_0),
                            "updateMessageViews"@,
                        ),
                    )
                }
            },
            _ => Err(Fault::TypeMismatch(at)),
        }
    }

    fn encode(&self) -> (j: Json) {
        proof {
            reveal(<UpdateMessageViews as Wire>::wire);
        }
        let mut members: Vec<Member> = Vec::new();
        put(&mut members, "chatId", self.chat_id.encode());
        put(&mut members, "messageId", self.message_id.encode());
        put(&mut members, "views", self.views.encode());
        seal(members, "updateMessageViews")
    }

    fn decode(j: &Json, at: &str) -> (r: Result<Self, DecodeError>) {
        proof {
            reveal(<UpdateMessageViews as Wire>::wire);
            reveal(<UpdateMessageViews as Wire>::parse);
        }
        let members = members_of(j, at)?;
        let chat_id = read_field::<i64>(members, "chatId")?;
        let message_id = read_field::<i64>(members, "messageId")?;
        let views = read_field::<i32>(members, "views")?;
        Ok(UpdateMessageViews { chat_id, message_id, views })
    }

    proof fn round_trip(&self, at: Seq<char>) {
        reveal(<UpdateMessageViews as Wire>::wire);
        reveal(<UpdateMessageViews as Wire>::parse);
        reveal_strlit("@type");
        reveal_strlit("chatId");
        reveal_strlit("messageId");
        reveal_strlit("views");
        assert("@type"@.len() == 5 && "@type"@[0] == '@');
        assert("chatId"@.len() == 6);
        assert("messageId"@.len() == 9);
        assert("views"@.len() == 5 && "views"@[0] == 'v');
        self.chat_id.round_trip("chatId"@);
        self.message_id.round_trip("messageId"@);
        self.views.round_trip("views"@);
    }
}

impl Tagged for UpdateMessageViews {
    open spec fn known(tag: Seq<char>) -> bool {
        tag == "updateMessageViews"@
    }

    fn knows(tag: &str) -> (r: bool) {
        same_text(tag, "updateMessageViews")
    }

    proof fn tag_known(&self) {
        reveal(<UpdateMessageViews as Wire>::wire);
        assert(tag_of(self.wire()) == Some("updateMessageViews"@));
        assert(Self::known("updateMessageViews"@));
    }
}

/// The message content was opened. Updates voice note messages to "listened", video note messages
/// to "viewed" and starts the TTL timer for self-destructing messages
#[derive(Debug, Clone, PartialEq)]
pub struct UpdateMessageContentOpened {
    /// Chat identifier
    pub chat_id: i64,
    /// Message identifier
    pub message_id: i64,
}

impl Wire for UpdateMessageContentOpened {
    #[verifier::opaque]
    open spec fn wire(&self) -> Doc {
        tagged(
            Map::empty()
                .insert("chatId"@, self.chat_id.wire())
                .insert("messageId"@, self.message_id.wire()),
            "updateMessageContentOpened"@,
        )
    }

    #[verifier::opaque]
    open spec fn parse(d: Doc, at: Seq<char>) -> Result<Doc, Fault> {
        match d {
            Doc::Object(m) => {
                let chat_id = field::<i64>(m, "chatId"@);
                let message_id = field::<i64>(m, "messageId"@);
                if chat_id is Err {
                    chat_id
                } else if message_id is Err {
                    message_id
                } else {
                    Ok(
                        tagged(
                            Map::empty()
                                .insert("chatId"@, chat_id->Ok_0)
                                .insert("messageId"@, message_id->Ok_0),
                            "updateMessageContentOpened"@,
                        ),
                    )
                }
            },
            _ => Err(Fault::TypeMismatch(at)),
        }
    }

    fn encode(&self) -> (j: Json) {
        proof {
            reveal(<UpdateMessageContentOpened as Wire>::wire);
        }
        let mut members: Vec<Member> = Vec::new();
        put(&mut members, "chatId", self.chat_id.encode());
        put(&mut members, "messageId", self.message_id.encode());
        seal(members, "updateMessageContentOpened")
    }

    fn decode(j: &Json, at: &str) -> (r: Result<Self, DecodeError>) {
        proof {
            reveal(<UpdateMessageContentOpened as Wire>::wire);
            reveal(<UpdateMessageContentOpened as Wire>::parse);
        }
        let members = members_of(j, at)?;
        let chat_id = read_field::<i64>(members, "chatId")?;
        let message_id = read_field::<i64>(members, "messageId")?;
        Ok(UpdateMessageContentOpened { chat_id, message_id })
    }

    proof fn round_trip(&self, at: Seq<char>) {
        reveal(<UpdateMessageContentOpened as Wire>::wire);
        reveal(<UpdateMessageContentOpened as Wire>::parse);
        reveal_strlit("@type");
        reveal_strlit("chatId");
        reveal_strlit("messageId");
        assert("@type"@.len() == 5);
        assert("chatId"@.len() == 6);
        assert("messageId"@.len() == 9);
        self.chat_id.round_trip("chatId"@);
        self.message_id.round_trip("messageId"@);
    }
}

impl Tagged for UpdateMessageContentOpened {
    open spec fn known(tag: Seq<char>) -> bool {
        tag == "updateMessageContentOpened"@
    }

    fn knows(tag: &str) -> (r: bool) {
        same_text(tag, "updateMessageContentOpened")
    }

    proof fn tag_known(&self) {
        reveal(<UpdateMessageContentOpened as Wire>::wire);
        assert(tag_of(self.wire()) == Some("updateMessageContentOpened"@));
        assert(Self::known("updateMessageContentOpened"@));
    }
}

/// A message with an unread mention was read
#[derive(Debug, Clone, PartialEq)]
pub struct UpdateMessageMentionRead {
    /// Chat identifier
    pub chat_id: i64,
    /// Message identifier
    pub message_id: i64,
    /// The new number of unread mention messages left in the chat
    pub unread_mention_count: i32,
}

impl Wire for UpdateMessageMentionRead {
    #[verifier::opaque]
    open spec fn wire(&self) -> Doc {
        tagged(
            Map::empty()
                .insert("chatId"@, self.chat_id.wire())
                .insert("messageId"@, self.message_id.wire())
                .insert("unreadMentionCount"@, self.unread_mention_count.wire()),
            "updateMessageMentionRead"@,
        )
    }

    #[verifier::opaque]
    open spec fn parse(d: Doc, at: Seq<char>) -> Result<Doc, Fault> {
        match d {
            Doc::Object(m) => {
                let chat_id = field::<i64>(m, "chatId"@);
                let message_id = field::<i64>(m, "messageId"@);
                let unread_mention_count = field::<i32>(m, "unreadMentionCount"@);
                if chat_id is Err {
                    chat_id
                } else if message_id is Err {
                    message_id
                } else if unread_mention_count is Err {
                    unread_mention_count
                } else {
                    Ok(
                        tagged(
                            Map::empty()
                                .insert("chatId"@, chat_id->Ok_0)
                                .insert("messageId"@, message_id->Ok_0)
                                .insert("unreadMentionCount"@, unread_mention_count->Ok_0),
                            "updateMessageMentionRead"@,
                        ),
                    )
                }
            },
            _ => Err(Fault::TypeMismatch(at)),
        }
    }

    fn encode(&self) -> (j: Json) {
        proof {
            reveal(<UpdateMessageMentionRead as Wire>::wire);
        }
        let mut members: Vec<Member> = Vec::new();
        put(&mut members, "chatId", self.chat_id.encode());
        put(&mut members, "messageId", self.message_id.encode());
        put(&mut members, "unreadMentionCount", self.unread_mention_count.encode());
        seal(members, "updateMessageMentionRead")
    }

    fn decode(j: &Json, at: &str) -> (r: Result<Self, DecodeError>) {
        proof {
            reveal(<UpdateMessageMentionRead as Wire>::wire);
            reveal(<UpdateMessageMentionRead as Wire>::parse);
        }
        let members = members_of(j, at)?;
        let chat_id = read_field::<i64>(members, "chatId")?;
        let message_id = read_field::<i64>(members, "messageId")?;
        let unread_mention_count = read_field::<i32>(members, "unreadMentionCount")?;
        Ok(UpdateMessageMentionRead { chat_id, message_id, unread_mention_count })
    }

    proof fn round_trip(&self, at: Seq<char>) {
        reveal(<UpdateMessageMentionRead as Wire>::wire);
        reveal(<UpdateMessageMentionRead as Wire>::parse);
        reveal_strlit("@type");
        reveal_strlit("chatId");
        reveal_strlit("messageId");
        reveal_strlit("unreadMentionCount");
        assert("@type"@.len() == 5);
        assert("chatId"@.len() == 6);
        assert("messageId"@.len() == 9);
        assert("unreadMentionCount"@.len() == 18);
        self.chat_id.round_trip("chatId"@);
        self.message_id.round_trip("messageId"@);
        self.unread_mention_count.round_trip("unreadMentionCount"@);
    }
}

impl Tagged for UpdateMessageMentionRead {
    open spec fn known(tag: Seq<char>) -> bool {
        tag == "updateMessageMentionRead"@
    }

    fn knows(tag: &str) -> (r: bool) {
        same_text(tag, "updateMessageMentionRead")
    }

    proof fn tag_known(&self) {
        reveal(<UpdateMessageMentionRead as Wire>::wire);
        assert(tag_of(self.wire()) == Some("updateMessageMentionRead"@));
        assert(Self::known("updateMessageMentionRead"@));
    }
}

/// A message with a live location was viewed. When the update is received, the client is supposed
/// to update the live location
#[derive(Debug, Clone, PartialEq)]
pub struct UpdateMessageLiveLocationViewed {
    /// Identifier of the chat with the live location message
    pub chat_id: i64,
    /// Identifier of the message with live location
    pub message_id: i64,
}

impl Wire for UpdateMessageLiveLocationViewed {
    #[verifier::opaque]
    open spec fn wire(&self) -> Doc {
        tagged(
            Map::empty()
                .insert("chatId"@, self.chat_id.wire())
                .insert("messageId"@, self.message_id.wire()),
            "updateMessageLiveLocationViewed"@,
        )
    }

    #[verifier::opaque]
    open spec fn parse(d: Doc, at: Seq<char>) -> Result<Doc, Fault> {
        match d {
            Doc::Object(m) => {
                let chat_id = field::<i64>(m, "chatId"@);
                let message_id = field::<i64>(m, "messageId"@);
                if chat_id is Err {
                    chat_id
                } else if message_id is Err {
                    message_id
                } else {
                    Ok(
                        tagged(
                            Map::empty()
                                .insert("chatId"@, chat_id->Ok_0)
                                .insert("messageId"@, message_id->Ok_0),
                            "updateMessageLiveLocationViewed"@,
                        ),
                    )
                }
            },
            _ => Err(Fault::TypeMismatch(at)),
        }
    }

    fn encode(&self) -> (j: Json) {
        proof {
            reveal(<UpdateMessageLiveLocationViewed as Wire>::wire);
        }
        let mut members: Vec<Member> = Vec::new();
        put(&mut members, "chatId", self.chat_id.encode());
        put(&mut members, "messageId", self.message_id.encode());
        seal(members, "updateMessageLiveLocationViewed")
    }

    fn decode(j: &Json, at: &str) -> (r: Result<Self, DecodeError>) {
        proof {
            reveal(<UpdateMessageLiveLocationViewed as Wire>::wire);
            reveal(<UpdateMessageLiveLocationViewed as Wire>::parse);
        }
        let members = members_of(j, at)?;
        let chat_id = read_field::<i64>(members, "chatId")?;
        let message_id = read_field::<i64>(members, "messageId")?;
        Ok(UpdateMessageLiveLocationViewed { chat_id, message_id })
    }

    proof fn round_trip(&self, at: Seq<char>) {
        reveal(<UpdateMessageLiveLocationViewed as Wire>::wire);
        reveal(<UpdateMessageLiveLocationViewed as Wire>::parse);
        reveal_strlit("@type");
        reveal_strlit("chatId");
        reveal_strlit("messageId");
        assert("@type"@.len() == 5);
        assert("chatId"@.len() == 6);
        assert("messageId"@.len() == 9);
        self.chat_id.round_trip("chatId"@);
        self.message_id.round_trip("messageId"@);
    }
}

impl Tagged for UpdateMessageLiveLocationViewed {
    open spec fn known(tag: Seq<char>) -> bool {
        tag == "updateMessageLiveLocationViewed"@
    }

    fn knows(tag: &str) -> (r: bool) {
        same_text(tag, "updateMessageLiveLocationViewed")
    }

    proof fn tag_known(&self) {
        reveal(<UpdateMessageLiveLocationViewed as Wire>::wire);
        assert(tag_of(self.wire()) == Some("updateMessageLiveLocationViewed"@));
        assert(Self::known("updateMessageLiveLocationViewed"@));
    }
}

/// A new chat has been loaded/created. This update is guaranteed to come before the chat identifier
/// is returned to the client. The chat field changes will be reported through separate updates
#[derive(Debug, Clone, PartialEq)]
pub struct UpdateNewChat {
    /// The chat
    pub chat: Chat,
}

impl Wire for UpdateNewChat {
    #[verifier::opaque]
    open spec fn wire(&self) -> Doc {
        tagged(
            Map::empty()
                .insert("chat"@, self.chat.wire()),
            "updateNewChat"@,
        )
    }

    #[verifier::opaque]
    open spec fn parse(d: Doc, at: Seq<char>) -> Result<Doc, Fault> {
        match d {
            Doc::Object(m) => {
                let chat = field::<Chat>(m, "chat"@);
                if chat is Err {
                    chat
                } else {
                    Ok(
                        tagged(
                            Map::empty()
                                .insert("chat"@, chat->Ok_0),
                            "updateNewChat"@,
                        ),
                    )
                }
            },
            _ => Err(Fault::TypeMismatch(at)),
        }
    }

    fn encode(&self) -> (j: Json) {
        proof {
            reveal(<UpdateNewChat as Wire>::wire);
        }
        let mut members: Vec<Member> = Vec::new();
        put(&mut members, "chat", self.chat.encode());
        seal(members, "updateNewChat")
    }

    fn decode(j: &Json, at: &str) -> (r: Result<Self, DecodeError>) {
        proof {
            reveal(<UpdateNewChat as Wire>::wire);
            reveal(<UpdateNewChat as Wire>::parse);
        }
        let members = members_of(j, at)?;
        let chat = read_field::<Chat>(members, "chat")?;
        Ok(UpdateNewChat { chat })
    }

    proof fn round_trip(&self, at: Seq<char>) {
        reveal(<UpdateNewChat as Wire>::wire);
        reveal(<UpdateNewChat as Wire>::parse);
        reveal_strlit("@type");
        reveal_strlit("chat");
        assert("@type"@.len() == 5);
        assert("chat"@.len() == 4);
        self.chat.round_trip("chat"@);
    }
}

impl Tagged for UpdateNewChat {
    open spec fn known(tag: Seq<char>) -> bool {
        tag == "updateNewChat"@
    }

    fn knows(tag: &str) -> (r: bool) {
        same_text(tag, "updateNewChat")
    }

    proof fn tag_known(&self) {
        reveal(<UpdateNewChat as Wire>::wire);
        assert(tag_of(self.wire()) == Some("updateNewChat"@));
        assert(Self::known("updateNewChat"@));
    }
}

/// The list to which the chat belongs was changed. This update is guaranteed to be sent only when
/// chat.order == 0 and the current or the new chat list is null
#[derive(Debug, Clone, PartialEq)]
pub struct UpdateChatChatList {
    /// Chat identifier
    pub chat_id: i64,
    /// The new chat's chat list; may be null
    pub chat_list: Option<ChatList>,
}

impl Wire for UpdateChatChatList {
    #[verifier::opaque]
    open spec fn wire(&self) -> Doc {
        tagged(
            Map::empty()
                .insert("chatId"@, self.chat_id.wire())
                .insert("chatList"@, self.chat_list.wire()),
            "updateChatChatList"@,
        )
    }

    #[verifier::opaque]
    open spec fn parse(d: Doc, at: Seq<char>) -> Result<Doc, Fault> {
        match d {
            Doc::Object(m) => {
                let chat_id = field::<i64>(m, "chatId"@);
                let chat_list = optional_field::<ChatList>(m, "chatList"@);
                if chat_id is Err {
                    chat_id
                } else if chat_list is Err {
                    chat_list
                } else {
                    Ok(
                        tagged(
                            Map::empty()
                                .insert("chatId"@, chat_id->Ok_0)
                                .insert("chatList"@, chat_list->Ok_0),
                            "updateChatChatList"@,
                        ),
                    )
                }
            },
            _ => Err(Fault::TypeMismatch(at)),
        }
    }

    fn encode(&self) -> (j: Json) {
        proof {
            reveal(<UpdateChatChatList as Wire>::wire);
        }
        let mut members: Vec<Member> = Vec::new();
        put(&mut members, "chatId", self.chat_id.encode());
        put(&mut members, "chatList", self.chat_list.encode());
        seal(members, "updateChatChatList")
    }

    fn decode(j: &Json, at: &str) -> (r: Result<Self, DecodeError>) {
        proof {
            reveal(<UpdateChatChatList as Wire>::wire);
            reveal(<UpdateChatChatList as Wire>::parse);
        }
        let members = members_of(j, at)?;
        let chat_id = read_field::<i64>(members, "chatId")?;
        let chat_list = read_optional::<ChatList>(members, "chatList")?;
        Ok(UpdateChatChatList { chat_id, chat_list })
    }

    proof fn round_trip(&self, at: Seq<char>) {
        reveal(<UpdateChatChatList as Wire>::wire);
        reveal(<UpdateChatChatList as Wire>::parse);
        reveal_strlit("@type");
        reveal_strlit("chatId");
        reveal_strlit("chatList");
        assert("@type"@.len() == 5);
        assert("chatId"@.len() == 6);
        assert("chatList"@.len() == 8);
        self.chat_id.round_trip("chatId"@);
        self.chat_list.round_trip("chatList"@);
    }
}

impl Tagged for UpdateChatChatList {
    open spec fn known(tag: Seq<char>) -> bool {
        tag == "updateChatChatList"@
    }

    fn knows(tag: &str) -> (r: bool) {
        same_text(tag, "updateChatChatList")
    }

    proof fn tag_known(&self) {
        reveal(<UpdateChatChatList as Wire>::wire);
        assert(tag_of(self.wire()) == Some("updateChatChatList"@));
        assert(Self::known("updateChatChatList"@));
    }
}

/// The title of a chat was changed
#[derive(Debug, Clone, PartialEq)]
pub struct UpdateChatTitle {
    /// Chat identifier
    pub chat_id: i64,
    /// The new chat title
    pub title: String,
}

impl Wire for UpdateChatTitle {
    #[verifier::opaque]
    open spec fn wire(&self) -> Doc {
        tagged(
            Map::empty()
                .insert("chatId"@, self.chat_id.wire())
                .insert("title"@, self.title.wire()),
            "updateChatTitle"@,
        )
    }

    #[verifier::opaque]
    open spec fn parse(d: Doc, at: Seq<char>) -> Result<Doc, Fault> {
        match d {
            Doc::Object(m) => {
                let chat_id = field::<i64>(m, "chatId"@);
                let title = field::<String>(m, "title"@);
                if chat_id is Err {
                    chat_id
                } else if title is Err {
                    title
                } else {
                    Ok(
                        tagged(
                            Map::empty()
                                .insert("chatId"@, chat_id->Ok_0)
                                .insert("title"@, title->Ok_0),
                            "updateChatTitle"@,
                        ),
                    )
                }
            },
            _ => Err(Fault::TypeMismatch(at)),
        }
    }

    fn encode(&self) -> (j: Json) {
        proof {
            reveal(<UpdateChatTitle as Wire>::wire);
        }
        let mut members: Vec<Member> = Vec::new();
        put(&mut members, "chatId", self.chat_id.encode());
        put(&mut members, "title", self.title.encode());
        seal(members, "updateChatTitle")
    }

    fn decode(j: &Json, at: &str) -> (r: Result<Self, DecodeError>) {
        proof {
            reveal(<UpdateChatTitle as Wire>::wire);
            reveal(<UpdateChatTitle as Wire>::parse);
        }
        let members = members_of(j, at)?;
        let chat_id = read_field::<i64>(members, "chatId")?;
        let title = read_field::<String>(members, "title")?;
        Ok(UpdateChatTitle { chat_id, title })
    }

    proof fn round_trip(&self, at: Seq<char>) {
        reveal(<UpdateChatTitle as Wire>::wire);
        reveal(<UpdateChatTitle as Wire>::parse);
        reveal_strlit("@type");
        reveal_strlit("chatId");
        reveal_strlit("title");
        assert("@type"@.len() == 5 && "@type"@[0] == '@');
        assert("chatId"@.len() == 6);
        assert("title"@.len() == 5 && "title"@[0] == 't');
        self.chat_id.round_trip("chatId"@);
        self.title.round_trip("title"@);
    }
}

impl Tagged for UpdateChatTitle {
    open spec fn known(tag: Seq<char>) -> bool {
        tag == "updateChatTitle"@
    }

    fn knows(tag: &str) -> (r: bool) {
        same_text(tag, "updateChatTitle")
    }

    proof fn tag_known(&self) {
        reveal(<UpdateChatTitle as Wire>::wire);
        assert(tag_of(self.wire()) == Some("updateChatTitle"@));
        assert(Self::known("updateChatTitle"@));
    }
}

/// A chat photo was changed
#[derive(Debug, Clone, PartialEq)]
pub struct UpdateChatPhoto {
    /// Chat identifier
    pub chat_id: i64,
    /// The new chat photo; may be null
    pub photo: Option<ChatPhoto>,
}

impl Wire for UpdateChatPhoto {
    #[verifier::opaque]
    open spec fn wire(&self) -> Doc {
        tagged(
            Map::empty()
                .insert("chatId"@, self.chat_id.wire())
                .insert("photo"@, self.photo.wire()),
            "updateChatPhoto"@,
        )
    }

    #[verifier::opaque]
    open spec fn parse(d: Doc, at: Seq<char>) -> Result<Doc, Fault> {
        match d {
            Doc::Object(m) => {
                let chat_id = field::<i64>(m, "chatId"@);
                let photo = optional_field::<ChatPhoto>(m, "photo"@);
                if chat_id is Err {
                    chat_id
                } else if photo is Err {
                    photo
                } else {
                    Ok(
                        tagged(
                            Map::empty()
                                .insert("chatId"@, chat_id->Ok_0)
                                .insert("photo"@, photo->Ok_0),
                            "updateChatPhoto"@,
                        ),
                    )
                }
            },
            _ => Err(Fault::TypeMismatch(at)),
        }
    }

    fn encode(&self) -> (j: Json) {
        proof {
            reveal(<UpdateChatPhoto as Wire>::wire);
        }
        let mut members: Vec<Member> = Vec::new();
        put(&mut members, "chatId", self.chat_id.encode());
        put(&mut members, "photo", self.photo.encode());
        seal(members, "updateChatPhoto")
    }

    fn decode(j: &Json, at: &str) -> (r: Result<Self, DecodeError>) {
        proof {
            reveal(<UpdateChatPhoto as Wire>::wire);
            reveal(<UpdateChatPhoto as Wire>::parse);
        }
        let members = members_of(j, at)?;
        let chat_id = read_field::<i64>(members, "chatId")?;
        let photo = read_optional::<ChatPhoto>(members, "photo")?;
        Ok(UpdateChatPhoto { chat_id, photo })
    }

    proof fn round_trip(&self, at: Seq<char>) {
        reveal(<UpdateChatPhoto as Wire>::wire);
        reveal(<UpdateChatPhoto as Wire>::parse);
        reveal_strlit("@type");
        reveal_strlit("chatId");
        reveal_strlit("photo");
        assert("@type"@.len() == 5 && "@type"@[0] == '@');
        assert("chatId"@.len() == 6);
        assert("photo"@.len() == 5 && "photo"@[0] == 'p');
        self.chat_id.round_trip("chatId"@);
        self.photo.round_trip("photo"@);
    }
}

impl Tagged for UpdateChatPhoto {
    open spec fn known(tag: Seq<char>) -> bool {
        tag == "updateChatPhoto"@
    }

    fn knows(tag: &str) -> (r: bool) {
        same_text(tag, "updateChatPhoto")
    }

    proof fn tag_known(&self) {
        reveal(<UpdateChatPhoto as Wire>::wire);
        assert(tag_of(self.wire()) == Some("updateChatPhoto"@));
        assert(Self::known("updateChatPhoto"@));
    }
}

/// Chat permissions was changed
#[derive(Debug, Clone, PartialEq)]
pub struct UpdateChatPermissions {
    /// Chat identifier
    pub chat_id: i64,
    /// The new chat permissions
    pub permissions: ChatPermissions,
}

impl Wire for UpdateChatPermissions {
    #[verifier::opaque]
    open spec fn wire(&self) -> Doc {
        tagged(
            Map::empty()
                .insert("chatId"@, self.chat_id.wire())
                .insert("permissions"@, self.permissions.wire()),
            "updateChatPermissions"@,
        )
    }

    #[verifier::opaque]
    open spec fn parse(d: Doc, at: Seq<char>) -> Result<Doc, Fault> {
        match d {
            Doc::Object(m) => {
                let chat_id = field::<i64>(m, "chatId"@);
                let permissions = field::<ChatPermissions>(m, "permissions"@);
                if chat_id is Err {
                    chat_id
                } else if permissions is Err {
                    permissions
                } else {
                    Ok(
                        tagged(
                            Map::empty()
                                .insert("chatId"@, chat_id->Ok_0)
                                .insert("permissions"@, permissions->Ok_0),
                            "updateChatPermissions"@,
                        ),
                    )
                }
            },
            _ => Err(Fault::TypeMismatch(at)),
        }
    }

    fn encode(&self) -> (j: Json) {
        proof {
            reveal(<UpdateChatPermissions as Wire>::wire);
        }
        let mut members: Vec<Member> = Vec::new();
        put(&mut members, "chatId", self.chat_id.encode());
        put(&mut members, "permissions", self.permissions.encode());
        seal(members, "updateChatPermissions")
    }

    fn decode(j: &Json, at: &str) -> (r: Result<Self, DecodeError>) {
        proof {
            reveal(<UpdateChatPermissions as Wire>::wire);
            reveal(<UpdateChatPermissions as Wire>::parse);
        }
        let members = members_of(j, at)?;
        let chat_id = read_field::<i64>(members, "chatId")?;
        let permissions = read_field::<ChatPermissions>(members, "permissions")?;
        Ok(UpdateChatPermissions { chat_id, permissions })
    }

    proof fn round_trip(&self, at: Seq<char>) {
        reveal(<UpdateChatPermissions as Wire>::wire);
        reveal(<UpdateChatPermissions as Wire>::parse);
        reveal_strlit("@type");
        reveal_strlit("chatId");
        reveal_strlit("permissions");
        assert("@type"@.len() == 5);
        assert("chatId"@.len() == 6);
        assert("permissions"@.len() == 11);
        self.chat_id.round_trip("chatId"@);
        self.permissions.round_trip("permissions"@);
    }
}

impl Tagged for UpdateChatPermissions {
    open spec fn known(tag: Seq<char>) -> bool {
        tag == "updateChatPermissions"@
    }

    fn knows(tag: &str) -> (r: bool) {
        same_text(tag, "updateChatPermissions")
    }

    proof fn tag_known(&self) {
        reveal(<UpdateChatPermissions as Wire>::wire);
        assert(tag_of(self.wire()) == Some("updateChatPermissions"@));
        assert(Self::known("updateChatPermissions"@));
    }
}

/// The last message of a chat was changed. If last_message is null, then the last message in the
/// chat became unknown. Some new unknown messages might be added to the chat in this case
#[derive(Debug, Clone, PartialEq)]
pub struct UpdateChatLastMessage {
    /// Chat identifier
    pub chat_id: i64,
    /// The new last message in the chat; may be null
    pub last_message: Option<Message>,
    /// New value of the chat order
    pub order: i64,
}

impl Wire for UpdateChatLastMessage {
    #[verifier::opaque]
    open spec fn wire(&self) -> Doc {
        tagged(
            Map::empty()
                .insert("chatId"@, self.chat_id.wire())
                .insert("lastMessage"@, self.last_message.wire())
                .insert("order"@, wide_doc(self.order)),
            "updateChatLastMessage"@,
        )
    }

    #[verifier::opaque]
    open spec fn parse(d: Doc, at: Seq<char>) -> Result<Doc, Fault> {
        match d {
            Doc::Object(m) => {
                let chat_id = field::<i64>(m, "chatId"@);
                let last_message = optional_field::<Message>(m, "lastMessage"@);
                let order = wide_field(m, "order"@);
                if chat_id is Err {
                    chat_id
                } else if last_message is Err {
                    last_message
                } else if order is Err {
                    order
                } else {
                    Ok(
                        tagged(
                            Map::empty()
                                .insert("chatId"@, chat_id->Ok_0)
                                .insert("lastMessage"@, last_message->Ok_0)
                                .insert("order"@, order->Ok_0),
                            "updateChatLastMessage"@,
                        ),
                    )
                }
            },
            _ => Err(Fault::TypeMismatch(at)),
        }
    }

    fn encode(&self) -> (j: Json) {
        proof {
            reveal(<UpdateChatLastMessage as Wire>::wire);
        }
        let mut members: Vec<Member> = Vec::new();
        put(&mut members, "chatId", self.chat_id.encode());
        put(&mut members, "lastMessage", self.last_message.encode());
        put(&mut members, "order", encode_wide(self.order));
        seal(members, "updateChatLastMessage")
    }

    fn decode(j: &Json, at: &str) -> (r: Result<Self, DecodeError>) {
        proof {
            reveal(<UpdateChatLastMessage as Wire>::wire);
            reveal(<UpdateChatLastMessage as Wire>::parse);
        }
        let members = members_of(j, at)?;
        let chat_id = read_field::<i64>(members, "chatId")?;
        let last_message = read_optional::<Message>(members, "lastMessage")?;
        let order = read_wide(members, "order")?;
        Ok(UpdateChatLastMessage { chat_id, last_message, order })
    }

    proof fn round_trip(&self, at: Seq<char>) {
        reveal(<UpdateChatLastMessage as Wire>::wire);
        reveal(<UpdateChatLastMessage as Wire>::parse);
        reveal_strlit("@type");
        reveal_strlit("chatId");
        reveal_strlit("lastMessage");
        reveal_strlit("order");
        assert("@type"@.len() == 5 && "@type"@[0] == '@');
        assert("chatId"@.len() == 6);
        assert("lastMessage"@.len() == 11);
        assert("order"@.len() == 5 && "order"@[0] == 'o');
        self.chat_id.round_trip("chatId"@);
        self.last_message.round_trip("lastMessage"@);
        lemma_wide_round_trip(self.order, "order"@);
    }
}

impl Tagged for UpdateChatLastMessage {
    open spec fn known(tag: Seq<char>) -> bool {
        tag == "updateChatLastMessage"@
    }

    fn knows(tag: &str) -> (r: bool) {
        same_text(tag, "updateChatLastMessage")
    }

    proof fn tag_known(&self) {
        reveal(<UpdateChatLastMessage as Wire>::wire);
        assert(tag_of(self.wire()) == Some("updateChatLastMessage"@));
        assert(Self::known("updateChatLastMessage"@));
    }
}

/// The order of the chat in the chat list has changed. Instead of this update
/// updateChatLastMessage, updateChatIsPinned, updateChatDraftMessage, or updateChatIsSponsored
/// might be sent
#[derive(Debug, Clone, PartialEq)]
pub struct UpdateChatOrder {
    /// Chat identifier
    pub chat_id: i64,
    /// New value of the order
    pub order: i64,
}

impl Wire for UpdateChatOrder {
    #[verifier::opaque]
    open spec fn wire(&self) -> Doc {
        tagged(
            Map::empty()
                .insert("chatId"@, self.chat_id.wire())
                .insert("order"@, wide_doc(self.order)),
            "updateChatOrder"@,
        )
    }

    #[verifier::opaque]
    open spec fn parse(d: Doc, at: Seq<char>) -> Result<Doc, Fault> {
        match d {
            Doc::Object(m) => {
                let chat_id = field::<i64>(m, "chatId"@);
                let order = wide_field(m, "order"@);
                if chat_id is Err {
                    chat_id
                } else if order is Err {
                    order
                } else {
                    Ok(
                        tagged(
                            Map::empty()
                                .insert("chatId"@, chat_id->Ok_0)
                                .insert("order"@, order->Ok_0),
                            "updateChatOrder"@,
                        ),
                    )
                }
            },
            _ => Err(Fault::TypeMismatch(at)),
        }
    }

    fn encode(&self) -> (j: Json) {
        proof {
            reveal(<UpdateChatOrder as Wire>::wire);
        }
        let mut members: Vec<Member> = Vec::new();
        put(&mut members, "chatId", self.chat_id.encode());
        put(&mut members, "order", encode_wide(self.order));
        seal(members, "updateChatOrder")
    }

    fn decode(j: &Json, at: &str) -> (r: Result<Self, DecodeError>) {
        proof {
            reveal(<UpdateChatOrder as Wire>::wire);
            reveal(<UpdateChatOrder as Wire>::parse);
        }
        let members = members_of(j, at)?;
        let chat_id = read_field::<i64>(members, "chatId")?;
        let order = read_wide(members, "order")?;
        Ok(UpdateChatOrder { chat_id, order })
    }

    proof fn round_trip(&self, at: Seq<char>) {
        reveal(<UpdateChatOrder as Wire>::wire);
        reveal(<UpdateChatOrder as Wire>::parse);
        reveal_strlit("@type");
        reveal_strlit("chatId");
        reveal_strlit("order");
        assert("@type"@.len() == 5 && "@type"@[0] == '@');
        assert("chatId"@.len() == 6);
        assert("order"@.len() == 5 && "order"@[0] == 'o');
        self.chat_id.round_trip("chatId"@);
        lemma_wide_round_trip(self.order, "order"@);
    }
}

impl Tagged for UpdateChatOrder {
    open spec fn known(tag: Seq<char>) -> bool {
        tag == "updateChatOrder"@
    }

    fn knows(tag: &str) -> (r: bool) {
        same_text(tag, "updateChatOrder")
    }

    proof fn tag_known(&self) {
        reveal(<UpdateChatOrder as Wire>::wire);
        assert(tag_of(self.wire()) == Some("updateChatOrder"@));
        assert(Self::known("updateChatOrder"@));
    }
}

/// A chat was pinned or unpinned
#[derive(Debug, Clone, PartialEq)]
pub struct UpdateChatIsPinned {
    /// Chat identifier
    pub chat_id: i64,
    /// New value of is_pinned
    pub is_pinned: bool,
    /// New value of the chat order
    pub order: i64,
}

impl Wire for UpdateChatIsPinned {
    #[verifier::opaque]
    open spec fn wire(&self) -> Doc {
        tagged(
            Map::empty()
                .insert("chatId"@, self.chat_id.wire())
                .insert("isPinned"@, self.is_pinned.wire())
                .insert("order"@, wide_doc(self.order)),
            "updateChatIsPinned"@,
        )
    }

    #[verifier::opaque]
    open spec fn parse(d: Doc, at: Seq<char>) -> Result<Doc, Fault> {
        match d {
            Doc::Object(m) => {
                let chat_id = field::<i64>(m, "chatId"@);
                let is_pinned = field::<bool>(m, "isPinned"@);
                let order = wide_field(m, "order"@);
                if chat_id is Err {
                    chat_id
                } else if is_pinned is Err {
                    is_pinned
                } else if order is Err {
                    order
                } else {
                    Ok(
                        tagged(
                            Map::empty()
                                .insert("chatId"@, chat_id->Ok_0)
                                .insert("isPinned"@, is_pinned->Ok_0)
                                .insert("order"@, order->Ok_0),
                            "updateChatIsPinned"@,
                        ),
                    )
                }
            },
            _ => Err(Fault::TypeMismatch(at)),
        }
    }

    fn encode(&self) -> (j: Json) {
        proof {
            reveal(<UpdateChatIsPinned as Wire>::wire);
        }
        let mut members: Vec<Member> = Vec::new();
        put(&mut members, "chatId", self.chat_id.encode());
        put(&mut members, "isPinned", self.is_pinned.encode());
        put(&mut members, "order", encode_wide(self.order));
        seal(members, "updateChatIsPinned")
    }

    fn decode(j: &Json, at: &str) -> (r: Result<Self, DecodeError>) {
        proof {
            reveal(<UpdateChatIsPinned as Wire>::wire);
            reveal(<UpdateChatIsPinned as Wire>::parse);
        }
        let members = members_of(j, at)?;
        let chat_id = read_field::<i64>(members, "chatId")?;
        let is_pinned = read_field::<bool>(members, "isPinned")?;
        let order = read_wide(members, "order")?;
        Ok(UpdateChatIsPinned { chat_id, is_pinned, order })
    }

    proof fn round_trip(&self, at: Seq<char>) {
        reveal(<UpdateChatIsPinned as Wire>::wire);
        reveal(<UpdateChatIsPinned as Wire>::parse);
        reveal_strlit("@type");
        reveal_strlit("chatId");
        reveal_strlit("isPinned");
        reveal_strlit("order");
        assert("@type"@.len() == 5 && "@type"@[0] == '@');
        assert("chatId"@.len() == 6);
        assert("isPinned"@.len() == 8);
        assert("order"@.len() == 5 && "order"@[0] == 'o');
        self.chat_id.round_trip("chatId"@);
        self.is_pinned.round_trip("isPinned"@);
        lemma_wide_round_trip(self.order, "order"@);
    }
}

impl Tagged for UpdateChatIsPinned {
    open spec fn known(tag: Seq<char>) -> bool {
        tag == "updateChatIsPinned"@
    }

    fn knows(tag: &str) -> (r: bool) {
        same_text(tag, "updateChatIsPinned")
    }

    proof fn tag_known(&self) {
        reveal(<UpdateChatIsPinned as Wire>::wire);
        assert(tag_of(self.wire()) == Some("updateChatIsPinned"@));
        assert(Self::known("updateChatIsPinned"@));
    }
}

/// A chat was marked as unread or was read
#[derive(Debug, Clone, PartialEq)]
pub struct UpdateChatIsMarkedAsUnread {
    /// Chat identifier
    pub chat_id: i64,
    /// New value of is_marked_as_unread
    pub is_marked_as_unread: bool,
}

impl Wire for UpdateChatIsMarkedAsUnread {
    #[verifier::opaque]
    open spec fn wire(&self) -> Doc {
        tagged(
            Map::empty()
                .insert("chatId"@, self.chat_id.wire())
                .insert("isMarkedAsUnread"@, self.is_marked_as_unread.wire()),
            "updateChatIsMarkedAsUnread"@,
        )
    }

    #[verifier::opaque]
    open spec fn parse(d: Doc, at: Seq<char>) -> Result<Doc, Fault> {
        match d {
            Doc::Object(m) => {
                let chat_id = field::<i64>(m, "chatId"@);
                let is_marked_as_unread = field::<bool>(m, "isMarkedAsUnread"@);
                if chat_id is Err {
                    chat_id
                } else if is_marked_as_unread is Err {
                    is_marked_as_unread
                } else {
                    Ok(
                        tagged(
                            Map::empty()
                                .insert("chatId"@, chat_id->Ok_0)
                                .insert("isMarkedAsUnread"@, is_marked_as_unread->Ok_0),
                            "updateChatIsMarkedAsUnread"@,
                        ),
                    )
                }
            },
            _ => Err(Fault::TypeMismatch(at)),
        }
    }

    fn encode(&self) -> (j: Json) {
        proof {
            reveal(<UpdateChatIsMarkedAsUnread as Wire>::wire);
        }
        let mut members: Vec<Member> = Vec::new();
        put(&mut members, "chatId", self.chat_id.encode());
        put(&mut members, "isMarkedAsUnread", self.is_marked_as_unread.encode());
        seal(members, "updateChatIsMarkedAsUnread")
    }

    fn decode(j: &Json, at: &str) -> (r: Result<Self, DecodeError>) {
        proof {
            reveal(<UpdateChatIsMarkedAsUnread as Wire>::wire);
            reveal(<UpdateChatIsMarkedAsUnread as Wire>::parse);
        }
        let members = members_of(j, at)?;
        let chat_id = read_field::<i64>(members, "chatId")?;
        let is_marked_as_unread = read_field::<bool>(members, "isMarkedAsUnread")?;
        Ok(UpdateChatIsMarkedAsUnread { chat_id, is_marked_as_unread })
    }

    proof fn round_trip(&self, at: Seq<char>) {
        reveal(<UpdateChatIsMarkedAsUnread as Wire>::wire);
        reveal(<UpdateChatIsMarkedAsUnread as Wire>::parse);
        reveal_strlit("@type");
        reveal_strlit("chatId");
        reveal_strlit("isMarkedAsUnread");
        assert("@type"@.len() == 5);
        assert("chatId"@.len() == 6);
        assert("isMarkedAsUnread"@.len() == 16);
        self.chat_id.round_trip("chatId"@);
        self.is_marked_as_unread.round_trip("isMarkedAsUnread"@);
    }
}

impl Tagged for UpdateChatIsMarkedAsUnread {
    open spec fn known(tag: Seq<char>) -> bool {
        tag == "updateChatIsMarkedAsUnread"@
    }

    fn knows(tag: &str) -> (r: bool) {
        same_text(tag, "updateChatIsMarkedAsUnread")
    }

    proof fn tag_known(&self) {
        reveal(<UpdateChatIsMarkedAsUnread as Wire>::wire);
        assert(tag_of(self.wire()) == Some("updateChatIsMarkedAsUnread"@));
        assert(Self::known("updateChatIsMarkedAsUnread"@));
    }
}

/// A chat's is_sponsored field has changed
#[derive(Debug, Clone, PartialEq)]
pub struct UpdateChatIsSponsored {
    /// Chat identifier
    pub chat_id: i64,
    /// New value of is_sponsored
    pub is_sponsored: bool,
    /// New value of chat order
    pub order: i64,
}

impl Wire for UpdateChatIsSponsored {
    #[verifier::opaque]
    open spec fn wire(&self) -> Doc {
        tagged(
            Map::empty()
                .insert("chatId"@, self.chat_id.wire())
                .insert("isSponsored"@, self.is_sponsored.wire())
                .insert("order"@, wide_doc(self.order)),
            "updateChatIsSponsored"@,
        )
    }

    #[verifier::opaque]
    open spec fn parse(d: Doc, at: Seq<char>) -> Result<Doc, Fault> {
        match d {
            Doc::Object(m) => {
                let chat_id = field::<i64>(m, "chatId"@);
                let is_sponsored = field::<bool>(m, "isSponsored"@);
                let order = wide_field(m, "order"@);
                if chat_id is Err {
                    chat_id
                } else if is_sponsored is Err {
                    is_sponsored
                } else if order is Err {
                    order
                } else {
                    Ok(
                        tagged(
                            Map::empty()
                                .insert("chatId"@, chat_id->Ok_0)
                                .insert("isSponsored"@, is_sponsored->Ok_0)
                                .insert("order"@, order->Ok_0),
                            "updateChatIsSponsored"@,
                        ),
                    )
                }
            },
            _ => Err(Fault::TypeMismatch(at)),
        }
    }

    fn encode(&self) -> (j: Json) {
        proof {
            reveal(<UpdateChatIsSponsored as Wire>::wire);
        }
        let mut members: Vec<Member> = Vec::new();
        put(&mut members, "chatId", self.chat_id.encode());
        put(&mut members, "isSponsored", self.is_sponsored.encode());
        put(&mut members, "order", encode_wide(self.order));
        seal(members, "updateChatIsSponsored")
    }

    fn decode(j: &Json, at: &str) -> (r: Result<Self, DecodeError>) {
        proof {
            reveal(<UpdateChatIsSponsored as Wire>::wire);
            reveal(<UpdateChatIsSponsored as Wire>::parse);
        }
        let members = members_of(j, at)?;
        let chat_id = read_field::<i64>(members, "chatId")?;
        let is_sponsored = read_field::<bool>(members, "isSponsored")?;
        let order = read_wide(members, "order")?;
        Ok(UpdateChatIsSponsored { chat_id, is_sponsored, order })
    }

    proof fn round_trip(&self, at: Seq<char>) {
        reveal(<UpdateChatIsSponsored as Wire>::wire);
        reveal(<UpdateChatIsSponsored as Wire>::parse);
        reveal_strlit("@type");
        reveal_strlit("chatId");
        reveal_strlit("isSponsored");
        reveal_strlit("order");
        assert("@type"@.len() == 5 && "@type"@[0] == '@');
        assert("chatId"@.len() == 6);
        assert("isSponsored"@.len() == 11);
        assert("order"@.len() == 5 && "order"@[0] == 'o');
        self.chat_id.round_trip("chatId"@);
        self.is_sponsored.round_trip("isSponsored"@);
        lemma_wide_round_trip(self.order, "order"@);
    }
}

impl Tagged for UpdateChatIsSponsored {
    open spec fn known(tag: Seq<char>) -> bool {
        tag == "updateChatIsSponsored"@
    }

    fn knows(tag: &str) -> (r: bool) {
        same_text(tag, "updateChatIsSponsored")
    }

    proof fn tag_known(&self) {
        reveal(<UpdateChatIsSponsored as Wire>::wire);
        assert(tag_of(self.wire()) == Some("updateChatIsSponsored"@));
        assert(Self::known("updateChatIsSponsored"@));
    }
}

/// A chat's has_scheduled_messages field has changed
#[derive(Debug, Clone, PartialEq)]
pub struct UpdateChatHasScheduledMessages {
    /// Chat identifier
    pub chat_id: i64,
    /// New value of has_scheduled_messages
    pub has_scheduled_messages: bool,
}

impl Wire for UpdateChatHasScheduledMessages {
    #[verifier::opaque]
    open spec fn wire(&self) -> Doc {
        tagged(
            Map::empty()
                .insert("chatId"@, self.chat_id.wire())
                .insert("hasScheduledMessages"@, self.has_scheduled_messages.wire()),
            "updateChatHasScheduledMessages"@,
        )
    }

    #[verifier::opaque]
    open spec fn parse(d: Doc, at: Seq<char>) -> Result<Doc, Fault> {
        match d {
            Doc::Object(m) => {
                let chat_id = field::<i64>(m, "chatId"@);
                let has_scheduled_messages = field::<bool>(m, "hasScheduledMessages"@);
                if chat_id is Err {
                    chat_id
                } else if has_scheduled_messages is Err {
                    has_scheduled_messages
                } else {
                    Ok(
                        tagged(
                            Map::empty()
                                .insert("chatId"@, chat_id->Ok_0)
                                .insert("hasScheduledMessages"@, has_scheduled_messages->Ok_0),
                            "updateChatHasScheduledMessages"@,
                        ),
                    )
                }
            },
            _ => Err(Fault::TypeMismatch(at)),
        }
    }

    fn encode(&self) -> (j: Json) {
        proof {
            reveal(<UpdateChatHasScheduledMessages as Wire>::wire);
        }
        let mut members: Vec<Member> = Vec::new();
        put(&mut members, "chatId", self.chat_id.encode());
        put(&mut members, "hasScheduledMessages", self.has_scheduled_messages.encode());
        seal(members, "updateChatHasScheduledMessages")
    }

    fn decode(j: &Json, at: &str) -> (r: Result<Self, DecodeError>) {
        proof {
            reveal(<UpdateChatHasScheduledMessages as Wire>::wire);
            reveal(<UpdateChatHasScheduledMessages as Wire>::parse);
        }
        let members = members_of(j, at)?;
        let chat_id = read_field::<i64>(members, "chatId")?;
        let has_scheduled_messages = read_field::<bool>(members, "hasScheduledMessages")?;
        Ok(UpdateChatHasScheduledMessages { chat_id, has_scheduled_messages })
    }

    proof fn round_trip(&self, at: Seq<char>) {
        reveal(<UpdateChatHasScheduledMessages as Wire>::wire);
        reveal(<UpdateChatHasScheduledMessages as Wire>::parse);
        reveal_strlit("@type");
        reveal_strlit("chatId");
        reveal_strlit("hasScheduledMessages");
        assert("@type"@.len() == 5);
        assert("chatId"@.len() == 6);
        assert("hasScheduledMessages"@.len() == 20);
        self.chat_id.round_trip("chatId"@);
        self.has_scheduled_messages.round_trip("hasScheduledMessages"@);
    }
}

impl Tagged for UpdateChatHasScheduledMessages {
    open spec fn known(tag: Seq<char>) -> bool {
        tag == "updateChatHasScheduledMessages"@
    }

    fn knows(tag: &str) -> (r: bool) {
        same_text(tag, "updateChatHasScheduledMessages")
    }

    proof fn tag_known(&self) {
        reveal(<UpdateChatHasScheduledMessages as Wire>::wire);
        assert(tag_of(self.wire()) == Some("updateChatHasScheduledMessages"@));
        assert(Self::known("updateChatHasScheduledMessages"@));
    }
}

/// The value of the default disable_notification parameter, used when a message is sent to the
/// chat, was changed
#[derive(Debug, Clone, PartialEq)]
pub struct UpdateChatDefaultDisableNotification {
    /// Chat identifier
    pub chat_id: i64,
    /// The new default_disable_notification value
    pub default_disable_notification: bool,
}

impl Wire for UpdateChatDefaultDisableNotification {
    #[verifier::opaque]
    open spec fn wire(&self) -> Doc {
        tagged(
            Map::empty()
                .insert("chatId"@, self.chat_id.wire())
                .insert("defaultDisableNotification"@, self.default_disable_notification.wire()),
            "updateChatDefaultDisableNotification"@,
        )
    }

    #[verifier::opaque]
    open spec fn parse(d: Doc, at: Seq<char>) -> Result<Doc, Fault> {
        match d {
            Doc::Object(m) => {
                let chat_id = field::<i64>(m, "chatId"@);
                let default_disable_notification = field::<bool>(m, "defaultDisableNotification"@);
                if chat_id is Err {
                    chat_id
                } else if default_disable_notification is Err {
                    default_disable_notification
                } else {
                    Ok(
                        tagged(
                            Map::empty()
                                .insert("chatId"@, chat_id->Ok_0)
                                .insert(
                                    "defaultDisableNotification"@,
                                    default_disable_notification->Ok_0,
                                ),
                            "updateChatDefaultDisableNotification"@,
                        ),
                    )
                }
            },
            _ => Err(Fault::TypeMismatch(at)),
        }
    }

    fn encode(&self) -> (j: Json) {
        proof {
            reveal(<UpdateChatDefaultDisableNotification as Wire>::wire);
        }
        let mut members: Vec<Member> = Vec::new();
        put(&mut members, "chatId", self.chat_id.encode());
        put(&mut members, "defaultDisableNotification", self.default_disable_notification.encode());
        seal(members, "updateChatDefaultDisableNotification")
    }

    fn decode(j: &Json, at: &str) -> (r: Result<Self, DecodeError>) {
        proof {
            reveal(<UpdateChatDefaultDisableNotification as Wire>::wire);
            reveal(<UpdateChatDefaultDisableNotification as Wire>::parse);
        }
        let members = members_of(j, at)?;
        let chat_id = read_field::<i64>(members, "chatId")?;
        let default_disable_notification = read_field::<bool>(
            members,
            "defaultDisableNotification",
        )?;
        Ok(UpdateChatDefaultDisableNotification { chat_id, default_disable_notification })
    }

    proof fn round_trip(&self, at: Seq<char>) {
        reveal(<UpdateChatDefaultDisableNotification as Wire>::wire);
        reveal(<UpdateChatDefaultDisableNotification as Wire>::parse);
        reveal_strlit("@type");
        reveal_strlit("chatId");
        reveal_strlit("defaultDisableNotification");
        assert("@type"@.len() == 5);
        assert("chatId"@.len() == 6);
        assert("defaultDisableNotification"@.len() == 26);
        self.chat_id.round_trip("chatId"@);
        self.default_disable_notification.round_trip("defaultDisableNotification"@);
    }
}

impl Tagged for UpdateChatDefaultDisableNotification {
    open spec fn known(tag: Seq<char>) -> bool {
        tag == "updateChatDefaultDisableNotification"@
    }

    fn knows(tag: &str) -> (r: bool) {
        same_text(tag, "updateChatDefaultDisableNotification")
    }

    proof fn tag_known(&self) {
        reveal(<UpdateChatDefaultDisableNotification as Wire>::wire);
        assert(tag_of(self.wire()) == Some("updateChatDefaultDisableNotification"@));
        assert(Self::known("updateChatDefaultDisableNotification"@));
    }
}

/// Incoming messages were read or number of unread messages has been changed
#[derive(Debug, Clone, PartialEq)]
pub struct UpdateChatReadInbox {
    /// Chat identifier
    pub chat_id: i64,
    /// Identifier of the last read incoming message
    pub last_read_inbox_message_id: i64,
    /// The number of unread messages left in the chat
    pub unread_count: i32,
}

impl Wire for UpdateChatReadInbox {
    #[verifier::opaque]
    open spec fn wire(&self) -> Doc {
        tagged(
            Map::empty()
                .insert("chatId"@, self.chat_id.wire())
                .insert("lastReadInboxMessageId"@, self.last_read_inbox_message_id.wire())
                .insert("unreadCount"@, self.unread_count.wire()),
            "updateChatReadInbox"@,
        )
    }

    #[verifier::opaque]
    open spec fn parse(d: Doc, at: Seq<char>) -> Result<Doc, Fault> {
        match d {
            Doc::Object(m) => {
                let chat_id = field::<i64>(m, "chatId"@);
                let last_read_inbox_message_id = field::<i64>(m, "lastReadInboxMessageId"@);
                let unread_count = field::<i32>(m, "unreadCount"@);
                if chat_id is Err {
                    chat_id
                } else if last_read_inbox_message_id is Err {
                    last_read_inbox_message_id
                } else if unread_count is Err {
                    unread_count
                } else {
                    Ok(
                        tagged(
                            Map::empty()
                                .insert("chatId"@, chat_id->Ok_0)
                                .insert("lastReadInboxMessageId"@, last_read_inbox_message_id->Ok_0)
                                .insert("unreadCount"@, unread_count->Ok_0),
                            "updateChatReadInbox"@,
                        ),
                    )
                }
            },
            _ => Err(Fault::TypeMismatch(at)),
        }
    }

    fn encode(&self) -> (j: Json) {
        proof {
            reveal(<UpdateChatReadInbox as Wire>::wire);
        }
        let mut members: Vec<Member> = Vec::new();
        put(&mut members, "chatId", self.chat_id.encode());
        put(&mut members, "lastReadInboxMessageId", self.last_read_inbox_message_id.encode());
        put(&mut members, "unreadCount", self.unread_count.encode());
        seal(members, "updateChatReadInbox")
    }

    fn decode(j: &Json, at: &str) -> (r: Result<Self, DecodeError>) {
        proof {
            reveal(<UpdateChatReadInbox as Wire>::wire);
            reveal(<UpdateChatReadInbox as Wire>::parse);
        }
        let members = members_of(j, at)?;
        let chat_id = read_field::<i64>(members, "chatId")?;
        let last_read_inbox_message_id = read_field::<i64>(members, "lastReadInboxMessageId")?;
        let unread_count = read_field::<i32>(members, "unreadCount")?;
        Ok(UpdateChatReadInbox { chat_id, last_read_inbox_message_id, unread_count })
    }

    proof fn round_trip(&self, at: Seq<char>) {
        reveal(<UpdateChatReadInbox as Wire>::wire);
        reveal(<UpdateChatReadInbox as Wire>::parse);
        reveal_strlit("@type");
        reveal_strlit("chatId");
        reveal_strlit("lastReadInboxMessageId");
        reveal_strlit("unreadCount");
        assert("@type"@.len() == 5);
        assert("chatId"@.len() == 6);
        assert("lastReadInboxMessageId"@.len() == 22);
        assert("unreadCount"@.len() == 11);
        self.chat_id.round_trip("chatId"@);
        self.last_read_inbox_message_id.round_trip("lastReadInboxMessageId"@);
        self.unread_count.round_trip("unreadCount"@);
    }
}

impl Tagged for UpdateChatReadInbox {
    open spec fn known(tag: Seq<char>) -> bool {
        tag == "updateChatReadInbox"@
    }

    fn knows(tag: &str) -> (r: bool) {
        same_text(tag, "updateChatReadInbox")
    }

    proof fn tag_known(&self) {
        reveal(<UpdateChatReadInbox as Wire>::wire);
        assert(tag_of(self.wire()) == Some("updateChatReadInbox"@));
        assert(Self::known("updateChatReadInbox"@));
    }
}

/// Outgoing messages were read
#[derive(Debug, Clone, PartialEq)]
pub struct UpdateChatReadOutbox {
    /// Chat identifier
    pub chat_id: i64,
    /// Identifier of last read outgoing message
    pub last_read_outbox_message_id: i64,
}

impl Wire for UpdateChatReadOutbox {
    #[verifier::opaque]
    open spec fn wire(&self) -> Doc {
        tagged(
            Map::empty()
                .insert("chatId"@, self.chat_id.wire())
                .insert("lastReadOutboxMessageId"@, self.last_read_outbox_message_id.wire()),
            "updateChatReadOutbox"@,
        )
    }

    #[verifier::opaque]
    open spec fn parse(d: Doc, at: Seq<char>) -> Result<Doc, Fault> {
        match d {
            Doc::Object(m) => {
                let chat_id = field::<i64>(m, "chatId"@);
                let last_read_outbox_message_id = field::<i64>(m, "lastReadOutboxMessageId"@);
                if chat_id is Err {
                    chat_id
                } else if last_read_outbox_message_id is Err {
                    last_read_outbox_message_id
                } else {
                    Ok(
                        tagged(
                            Map::empty()
                                .insert("chatId"@, chat_id->Ok_0)
                                .insert(
                                    "lastReadOutboxMessageId"@,
                                    last_read_outbox_message_id->Ok_0,
                                ),
                            "updateChatReadOutbox"@,
                        ),
                    )
                }
            },
            _ => Err(Fault::TypeMismatch(at)),
        }
    }

    fn encode(&self) -> (j: Json) {
        proof {
            reveal(<UpdateChatReadOutbox as Wire>::wire);
        }
        let mut members: Vec<Member> = Vec::new();
        put(&mut members, "chatId", self.chat_id.encode());
        put(&mut members, "lastReadOutboxMessageId", self.last_read_outbox_message_id.encode());
        seal(members, "updateChatReadOutbox")
    }

    fn decode(j: &Json, at: &str) -> (r: Result<Self, DecodeError>) {
        proof {
            reveal(<UpdateChatReadOutbox as Wire>::wire);
            reveal(<UpdateChatReadOutbox as Wire>::parse);
        }
        let members = members_of(j, at)?;
        let chat_id = read_field::<i64>(members, "chatId")?;
        let last_read_outbox_message_id = read_field::<i64>(members, "lastReadOutboxMessageId")?;
        Ok(UpdateChatReadOutbox { chat_id, last_read_outbox_message_id })
    }

    proof fn round_trip(&self, at: Seq<char>) {
        reveal(<UpdateChatReadOutbox as Wire>::wire);
        reveal(<UpdateChatReadOutbox as Wire>::parse);
        reveal_strlit("@type");
        reveal_strlit("chatId");
        reveal_strlit("lastReadOutboxMessageId");
        assert("@type"@.len() == 5);
        assert("chatId"@.len() == 6);
        assert("lastReadOutboxMessageId"@.len() == 23);
        self.chat_id.round_trip("chatId"@);
        self.last_read_outbox_message_id.round_trip("lastReadOutboxMessageId"@);
    }
}

impl Tagged for UpdateChatReadOutbox {
    open spec fn known(tag: Seq<char>) -> bool {
        tag == "updateChatReadOutbox"@
    }

    fn knows(tag: &str) -> (r: bool) {
        same_text(tag, "updateChatReadOutbox")
    }

    proof fn tag_known(&self) {
        reveal(<UpdateChatReadOutbox as Wire>::wire);
        assert(tag_of(self.wire()) == Some("updateChatReadOutbox"@));
        assert(Self::known("updateChatReadOutbox"@));
    }
}

/// The chat unread_mention_count has changed
#[derive(Debug, Clone, PartialEq)]
pub struct UpdateChatUnreadMentionCount {
    /// Chat identifier
    pub chat_id: i64,
    /// The number of unread mention messages left in the chat
    pub unread_mention_count: i32,
}

impl Wire for UpdateChatUnreadMentionCount {
    #[verifier::opaque]
    open spec fn wire(&self) -> Doc {
        tagged(
            Map::empty()
                .insert("chatId"@, self.chat_id.wire())
                .insert("unreadMentionCount"@, self.unread_mention_count.wire()),
            "updateChatUnreadMentionCount"@,
        )
    }

    #[verifier::opaque]
    open spec fn parse(d: Doc, at: Seq<char>) -> Result<Doc, Fault> {
        match d {
            Doc::Object(m) => {
                let chat_id = field::<i64>(m, "chatId"@);
                let unread_mention_count = field::<i32>(m, "unreadMentionCount"@);
                if chat_id is Err {
                    chat_id
                } else if unread_mention_count is Err {
                    unread_mention_count
                } else {
                    Ok(
                        tagged(
                            Map::empty()
                                .insert("chatId"@, chat_id->Ok_0)
                                .insert("unreadMentionCount"@, unread_mention_count->Ok_0),
                            "updateChatUnreadMentionCount"@,
                        ),
                    )
                }
            },
            _ => Err(Fault::TypeMismatch(at)),
        }
    }

    fn encode(&self) -> (j: Json) {
        proof {
            reveal(<UpdateChatUnreadMentionCount as Wire>::wire);
        }
        let mut members: Vec<Member> = Vec::new();
        put(&mut members, "chatId", self.chat_id.encode());
        put(&mut members, "unreadMentionCount", self.unread_mention_count.encode());
        seal(members, "updateChatUnreadMentionCount")
    }

    fn decode(j: &Json, at: &str) -> (r: Result<Self, DecodeError>) {
        proof {
            reveal(<UpdateChatUnreadMentionCount as Wire>::wire);
            reveal(<UpdateChatUnreadMentionCount as Wire>::parse);
        }
        let members = members_of(j, at)?;
        let chat_id = read_field::<i64>(members, "chatId")?;
        let unread_mention_count = read_field::<i32>(members, "unreadMentionCount")?;
        Ok(UpdateChatUnreadMentionCount { chat_id, unread_mention_count })
    }

    proof fn round_trip(&self, at: Seq<char>) {
        reveal(<UpdateChatUnreadMentionCount as Wire>::wire);
        reveal(<UpdateChatUnreadMentionCount as Wire>::parse);
        reveal_strlit("@type");
        reveal_strlit("chatId");
        reveal_strlit("unreadMentionCount");
        assert("@type"@.len() == 5);
        assert("chatId"@.len() == 6);
        assert("unreadMentionCount"@.len() == 18);
        self.chat_id.round_trip("chatId"@);
        self.unread_mention_count.round_trip("unreadMentionCount"@);
    }
}

impl Tagged for UpdateChatUnreadMentionCount {
    open spec fn known(tag: Seq<char>) -> bool {
        tag == "updateChatUnreadMentionCount"@
    }

    fn knows(tag: &str) -> (r: bool) {
        same_text(tag, "updateChatUnreadMentionCount")
    }

    proof fn tag_known(&self) {
        reveal(<UpdateChatUnreadMentionCount as Wire>::wire);
        assert(tag_of(self.wire()) == Some("updateChatUnreadMentionCount"@));
        assert(Self::known("updateChatUnreadMentionCount"@));
    }
}

/// Notification settings for a chat were changed
#[derive(Debug, Clone, PartialEq)]
pub struct UpdateChatNotificationSettings {
    /// Chat identifier
    pub chat_id: i64,
    /// The new notification settings
    pub notification_settings: ChatNotificationSettings,
}

impl Wire for UpdateChatNotificationSettings {
    #[verifier::opaque]
    open spec fn wire(&self) -> Doc {
        tagged(
            Map::empty()
                .insert("chatId"@, self.chat_id.wire())
                .insert("notificationSettings"@, self.notification_settings.wire()),
            "updateChatNotificationSettings"@,
        )
    }

    #[verifier::opaque]
    open spec fn parse(d: Doc, at: Seq<char>) -> Result<Doc, Fault> {
        match d {
            Doc::Object(m) => {
                let chat_id = field::<i64>(m, "chatId"@);
                let notification_settings = field::<ChatNotificationSettings>(
                    m,
                    "notificationSettings"@,
                );
                if chat_id is Err {
                    chat_id
                } else if notification_settings is Err {
                    notification_settings
                } else {
                    Ok(
                        tagged(
                            Map::empty()
                                .insert("chatId"@, chat_id->Ok_0)
                                .insert("notificationSettings"@, notification_settings->Ok_0),
                            "updateChatNotificationSettings"@,
                        ),
                    )
                }
            },
            _ => Err(Fault::TypeMismatch(at)),
        }
    }

    fn encode(&self) -> (j: Json) {
        proof {
            reveal(<UpdateChatNotificationSettings as Wire>::wire);
        }
        let mut members: Vec<Member> = Vec::new();
        put(&mut members, "chatId", self.chat_id.encode());
        put(&mut members, "notificationSettings", self.notification_settings.encode());
        seal(members, "updateChatNotificationSettings")
    }

    fn decode(j: &Json, at: &str) -> (r: Result<Self, DecodeError>) {
        proof {
            reveal(<UpdateChatNotificationSettings as Wire>::wire);
            reveal(<UpdateChatNotificationSettings as Wire>::parse);
        }
        let members = members_of(j, at)?;
        let chat_id = read_field::<i64>(members, "chatId")?;
        let notification_settings = read_field::<ChatNotificationSettings>(
            members,
            "notificationSettings",
        )?;
        Ok(UpdateChatNotificationSettings { chat_id, notification_settings })
    }

    proof fn round_trip(&self, at: Seq<char>) {
        reveal(<UpdateChatNotificationSettings as Wire>::wire);
        reveal(<UpdateChatNotificationSettings as Wire>::parse);
        reveal_strlit("@type");
        reveal_strlit("chatId");
        reveal_strlit("notificationSettings");
        assert("@type"@.len() == 5);
        assert("chatId"@.len() == 6);
        assert("notificationSettings"@.len() == 20);
        self.chat_id.round_trip("chatId"@);
        self.notification_settings.round_trip("notificationSettings"@);
    }
}

impl Tagged for UpdateChatNotificationSettings {
    open spec fn known(tag: Seq<char>) -> bool {
        tag == "updateChatNotificationSettings"@
    }

    fn knows(tag: &str) -> (r: bool) {
        same_text(tag, "updateChatNotificationSettings")
    }

    proof fn tag_known(&self) {
        reveal(<UpdateChatNotificationSettings as Wire>::wire);
        assert(tag_of(self.wire()) == Some("updateChatNotificationSettings"@));
        assert(Self::known("updateChatNotificationSettings"@));
    }
}

/// Notification settings for some type of chats were updated
#[derive(Debug, Clone, PartialEq)]
pub struct UpdateScopeNotificationSettings {
    /// Types of chats for which notification settings were updated
    pub scope: NotificationSettingsScope,
    /// The new notification settings
    pub notification_settings: ScopeNotificationSettings,
}

impl Wire for UpdateScopeNotificationSettings {
    #[verifier::opaque]
    open spec fn wire(&self) -> Doc {
        tagged(
            Map::empty()
                .insert("scope"@, self.scope.wire())
                .insert("notificationSettings"@, self.notification_settings.wire()),
            "updateScopeNotificationSettings"@,
        )
    }

    #[verifier::opaque]
    open spec fn parse(d: Doc, at: Seq<char>) -> Result<Doc, Fault> {
        match d {
            Doc::Object(m) => {
                let scope = field::<NotificationSettingsScope>(m, "scope"@);
                let notification_settings = field::<ScopeNotificationSettings>(
                    m,
                    "notificationSettings"@,
                );
                if scope is Err {
                    scope
                } else if notification_settings is Err {
                    notification_settings
                } else {
                    Ok(
                        tagged(
                            Map::empty()
                                .insert("scope"@, scope->Ok_0)
                                .insert("notificationSettings"@, notification_settings->Ok_0),
                            "updateScopeNotificationSettings"@,
                        ),
                    )
                }
            },
            _ => Err(Fault::TypeMismatch(at)),
        }
    }

    fn encode(&self) -> (j: Json) {
        proof {
            reveal(<UpdateScopeNotificationSettings as Wire>::wire);
        }
        let mut members: Vec<Member> = Vec::new();
        put(&mut members, "scope", self.scope.encode());
        put(&mut members, "notificationSettings", self.notification_settings.encode());
        seal(members, "updateScopeNotificationSettings")
    }

    fn decode(j: &Json, at: &str) -> (r: Result<Self, DecodeError>) {
        proof {
            reveal(<UpdateScopeNotificationSettings as Wire>::wire);
            reveal(<UpdateScopeNotificationSettings as Wire>::parse);
        }
        let members = members_of(j, at)?;
        let scope = read_field::<NotificationSettingsScope>(members, "scope")?;
        let notification_settings = read_field::<ScopeNotificationSettings>(
            members,
            "notificationSettings",
        )?;
        Ok(UpdateScopeNotificationSettings { scope, notification_settings })
    }

    proof fn round_trip(&self, at: Seq<char>) {
        reveal(<UpdateScopeNotificationSettings as Wire>::wire);
        reveal(<UpdateScopeNotificationSettings as Wire>::parse);
        reveal_strlit("@type");
        reveal_strlit("notificationSettings");
        reveal_strlit("scope");
        assert("@type"@.len() == 5 && "@type"@[0] == '@');
        assert("notificationSettings"@.len() == 20);
        assert("scope"@.len() == 5 && "scope"@[0] == 's');
        self.scope.round_trip("scope"@);
        self.notification_settings.round_trip("notificationSettings"@);
    }
}

impl Tagged for UpdateScopeNotificationSettings {
    open spec fn known(tag: Seq<char>) -> bool {
        tag == "updateScopeNotificationSettings"@
    }

    fn knows(tag: &str) -> (r: bool) {
        same_text(tag, "updateScopeNotificationSettings")
    }

    proof fn tag_known(&self) {
        reveal(<UpdateScopeNotificationSettings as Wire>::wire);
        assert(tag_of(self.wire()) == Some("updateScopeNotificationSettings"@));
        assert(Self::known("updateScopeNotificationSettings"@));
    }
}

/// The chat action bar was changed
#[derive(Debug, Clone, PartialEq)]
pub struct UpdateChatActionBar {
    /// Chat identifier
    pub chat_id: i64,
    /// The new value of the action bar; may be null
    pub action_bar: Option<ChatActionBar>,
}

impl Wire for UpdateChatActionBar {
    #[verifier::opaque]
    open spec fn wire(&self) -> Doc {
        tagged(
            Map::empty()
                .insert("chatId"@, self.chat_id.wire())
                .insert("actionBar"@, self.action_bar.wire()),
            "updateChatActionBar"@,
        )
    }

    #[verifier::opaque]
    open spec fn parse(d: Doc, at: Seq<char>) -> Result<Doc, Fault> {
        match d {
            Doc::Object(m) => {
                let chat_id = field::<i64>(m, "chatId"@);
                let action_bar = optional_field::<ChatActionBar>(m, "actionBar"@);
                if chat_id is Err {
                    chat_id
                } else if action_bar is Err {
                    action_bar
                } else {
                    Ok(
                        tagged(
                            Map::empty()
                                .insert("chatId"@, chat_id->Ok_0)
                                .insert("actionBar"@, action_bar->Ok_0),
                            "updateChatActionBar"@,
                        ),
                    )
                }
            },
            _ => Err(Fault::TypeMismatch(at)),
        }
    }

    fn encode(&self) -> (j: Json) {
        proof {
            reveal(<UpdateChatActionBar as Wire>::wire);
        }
        let mut members: Vec<Member> = Vec::new();
        put(&mut members, "chatId", self.chat_id.encode());
        put(&mut members, "actionBar", self.action_bar.encode());
        seal(members, "updateChatActionBar")
    }

    fn decode(j: &Json, at: &str) -> (r: Result<Self, DecodeError>) {
        proof {
            reveal(<UpdateChatActionBar as Wire>::wire);
            reveal(<UpdateChatActionBar as Wire>::parse);
        }
        let members = members_of(j, at)?;
        let chat_id = read_field::<i64>(members, "chatId")?;
        let action_bar = read_optional::<ChatActionBar>(members, "actionBar")?;
        Ok(UpdateChatActionBar { chat_id, action_bar })
    }

    proof fn round_trip(&self, at: Seq<char>) {
        reveal(<UpdateChatActionBar as Wire>::wire);
        reveal(<UpdateChatActionBar as Wire>::parse);
        reveal_strlit("@type");
        reveal_strlit("actionBar");
        reveal_strlit("chatId");
        assert("@type"@.len() == 5);
        assert("actionBar"@.len() == 9);
        assert("chatId"@.len() == 6);
        self.chat_id.round_trip("chatId"@);
        self.action_bar.round_trip("actionBar"@);
    }
}

impl Tagged for UpdateChatActionBar {
    open spec fn known(tag: Seq<char>) -> bool {
        tag == "updateChatActionBar"@
    }

    fn knows(tag: &str) -> (r: bool) {
        same_text(tag, "updateChatActionBar")
    }

    proof fn tag_known(&self) {
        reveal(<UpdateChatActionBar as Wire>::wire);
        assert(tag_of(self.wire()) == Some("updateChatActionBar"@));
        assert(Self::known("updateChatActionBar"@));
    }
}

/// The chat pinned message was changed
#[derive(Debug, Clone, PartialEq)]
pub struct UpdateChatPinnedMessage {
    /// Chat identifier
    pub chat_id: i64,
    /// The new identifier of the pinned message; 0 if there is no pinned message in the chat
    pub pinned_message_id: i64,
}

impl Wire for UpdateChatPinnedMessage {
    #[verifier::opaque]
    open spec fn wire(&self) -> Doc {
        tagged(
            Map::empty()
                .insert("chatId"@, self.chat_id.wire())
                .insert("pinnedMessageId"@, self.pinned_message_id.wire()),
            "updateChatPinnedMessage"@,
        )
    }

    #[verifier::opaque]
    open spec fn parse(d: Doc, at: Seq<char>) -> Result<Doc, Fault> {
        match d {
            Doc::Object(m) => {
                let chat_id = field::<i64>(m, "chatId"@);
                let pinned_message_id = field::<i64>(m, "pinnedMessageId"@);
                if chat_id is Err {
                    chat_id
                } else if pinned_message_id is Err {
                    pinned_message_id
                } else {
                    Ok(
                        tagged(
                            Map::empty()
                                .insert("chatId"@, chat_id->Ok_0)
                                .insert("pinnedMessageId"@, pinned_message_id->Ok_0),
                            "updateChatPinnedMessage"@,
                        ),
                    )
                }
            },
            _ => Err(Fault::TypeMismatch(at)),
        }
    }

    fn encode(&self) -> (j: Json) {
        proof {
            reveal(<UpdateChatPinnedMessage as Wire>::wire);
        }
        let mut members: Vec<Member> = Vec::new();
        put(&mut members, "chatId", self.chat_id.encode());
        put(&mut members, "pinnedMessageId", self.pinned_message_id.encode());
        seal(members, "updateChatPinnedMessage")
    }

    fn decode(j: &Json, at: &str) -> (r: Result<Self, DecodeError>) {
        proof {
            reveal(<UpdateChatPinnedMessage as Wire>::wire);
            reveal(<UpdateChatPinnedMessage as Wire>::parse);
        }
        let members = members_of(j, at)?;
        let chat_id = read_field::<i64>(members, "chatId")?;
        let pinned_message_id = read_field::<i64>(members, "pinnedMessageId")?;
        Ok(UpdateChatPinnedMessage { chat_id, pinned_message_id })
    }

    proof fn round_trip(&self, at: Seq<char>) {
        reveal(<UpdateChatPinnedMessage as Wire>::wire);
        reveal(<UpdateChatPinnedMessage as Wire>::parse);
        reveal_strlit("@type");
        reveal_strlit("chatId");
        reveal_strlit("pinnedMessageId");
        assert("@type"@.len() == 5);
        assert("chatId"@.len() == 6);
        assert("pinnedMessageId"@.len() == 15);
        self.chat_id.round_trip("chatId"@);
        self.pinned_message_id.round_trip("pinnedMessageId"@);
    }
}

impl Tagged for UpdateChatPinnedMessage {
    open spec fn known(tag: Seq<char>) -> bool {
        tag == "updateChatPinnedMessage"@
    }

    fn knows(tag: &str) -> (r: bool) {
        same_text(tag, "updateChatPinnedMessage")
    }

    proof fn tag_known(&self) {
        reveal(<UpdateChatPinnedMessage as Wire>::wire);
        assert(tag_of(self.wire()) == Some("updateChatPinnedMessage"@));
        assert(Self::known("updateChatPinnedMessage"@));
    }
}

/// The default chat reply markup was changed. Can occur because new messages with reply markup were
/// received or because an old reply markup was hidden by the user
#[derive(Debug, Clone, PartialEq)]
pub struct UpdateChatReplyMarkup {
    /// Chat identifier
    pub chat_id: i64,
    /// Identifier of the message from which reply markup needs to be used; 0 if there is no default
    /// custom reply markup in the chat
    pub reply_markup_message_id: i64,
}

impl Wire for UpdateChatReplyMarkup {
    #[verifier::opaque]
    open spec fn wire(&self) -> Doc {
        tagged(
            Map::empty()
                .insert("chatId"@, self.chat_id.wire())
                .insert("replyMarkupMessageId"@, self.reply_markup_message_id.wire()),
            "updateChatReplyMarkup"@,
        )
    }

    #[verifier::opaque]
    open spec fn parse(d: Doc, at: Seq<char>) -> Result<Doc, Fault> {
        match d {
            Doc::Object(m) => {
                let chat_id = field::<i64>(m, "chatId"@);
                let reply_markup_message_id = field::<i64>(m, "replyMarkupMessageId"@);
                if chat_id is Err {
                    chat_id
                } else if reply_markup_message_id is Err {
                    reply_markup_message_id
                } else {
                    Ok(
                        tagged(
                            Map::empty()
                                .insert("chatId"@, chat_id->Ok_0)
                                .insert("replyMarkupMessageId"@, reply_markup_message_id->Ok_0),
                            "updateChatReplyMarkup"@,
                        ),
                    )
                }
            },
            _ => Err(Fault::TypeMismatch(at)),
        }
    }

    fn encode(&self) -> (j: Json) {
        proof {
            reveal(<UpdateChatReplyMarkup as Wire>::wire);
        }
        let mut members: Vec<Member> = Vec::new();
        put(&mut members, "chatId", self.chat_id.encode());
        put(&mut members, "replyMarkupMessageId", self.reply_markup_message_id.encode());
        seal(members, "updateChatReplyMarkup")
    }

    fn decode(j: &Json, at: &str) -> (r: Result<Self, DecodeError>) {
        proof {
            reveal(<UpdateChatReplyMarkup as Wire>::wire);
            reveal(<UpdateChatReplyMarkup as Wire>::parse);
        }
        let members = members_of(j, at)?;
        let chat_id = read_field::<i64>(members, "chatId")?;
        let reply_markup_message_id = read_field::<i64>(members, "replyMarkupMessageId")?;
        Ok(UpdateChatReplyMarkup { chat_id, reply_markup_message_id })
    }

    proof fn round_trip(&self, at: Seq<char>) {
        reveal(<UpdateChatReplyMarkup as Wire>::wire);
        reveal(<UpdateChatReplyMarkup as Wire>::parse);
        reveal_strlit("@type");
        reveal_strlit("chatId");
        reveal_strlit("replyMarkupMessageId");
        assert("@type"@.len() == 5);
        assert("chatId"@.len() == 6);
        assert("replyMarkupMessageId"@.len() == 20);
        self.chat_id.round_trip("chatId"@);
        self.reply_markup_message_id.round_trip("replyMarkupMessageId"@);
    }
}

impl Tagged for UpdateChatReplyMarkup {
    open spec fn known(tag: Seq<char>) -> bool {
        tag == "updateChatReplyMarkup"@
    }

    fn knows(tag: &str) -> (r: bool) {
        same_text(tag, "updateChatReplyMarkup")
    }

    proof fn tag_known(&self) {
        reveal(<UpdateChatReplyMarkup as Wire>::wire);
        assert(tag_of(self.wire()) == Some("updateChatReplyMarkup"@));
        assert(Self::known("updateChatReplyMarkup"@));
    }
}

/// A chat draft has changed. Be aware that the update may come in the currently opened chat but
/// with old content of the draft. If the user has changed the content of the draft, this update
/// shouldn't be applied
#[derive(Debug, Clone, PartialEq)]
pub struct UpdateChatDraftMessage {
    /// Chat identifier
    pub chat_id: i64,
    /// The new draft message; may be null
    pub draft_message: Option<DraftMessage>,
    /// New value of the chat order
    pub order: i64,
}

impl Wire for UpdateChatDraftMessage {
    #[verifier::opaque]
    open spec fn wire(&self) -> Doc {
        tagged(
            Map::empty()
                .insert("chatId"@, self.chat_id.wire())
                .insert("draftMessage"@, self.draft_message.wire())
                .insert("order"@, wide_doc(self.order)),
            "updateChatDraftMessage"@,
        )
    }

    #[verifier::opaque]
    open spec fn parse(d: Doc, at: Seq<char>) -> Result<Doc, Fault> {
        match d {
            Doc::Object(m) => {
                let chat_id = field::<i64>(m, "chatId"@);
                let draft_message = optional_field::<DraftMessage>(m, "draftMessage"@);
                let order = wide_field(m, "order"@);
                if chat_id is Err {
                    chat_id
                } else if draft_message is Err {
                    draft_message
                } else if order is Err {
                    order
                } else {
                    Ok(
                        tagged(
                            Map::empty()
                                .insert("chatId"@, chat_id->Ok_0)
                                .insert("draftMessage"@, draft_message->Ok_0)
                                .insert("order"@, order->Ok_0),
                            "updateChatDraftMessage"@,
                        ),
                    )
                }
            },
            _ => Err(Fault::TypeMismatch(at)),
        }
    }

    fn encode(&self) -> (j: Json) {
        proof {
            reveal(<UpdateChatDraftMessage as Wire>::wire);
        }
        let mut members: Vec<Member> = Vec::new();
        put(&mut members, "chatId", self.chat_id.encode());
        put(&mut members, "draftMessage", self.draft_message.encode());
        put(&mut members, "order", encode_wide(self.order));
        seal(members, "updateChatDraftMessage")
    }

    fn decode(j: &Json, at: &str) -> (r: Result<Self, DecodeError>) {
        proof {
            reveal(<UpdateChatDraftMessage as Wire>::wire);
            reveal(<UpdateChatDraftMessage as Wire>::parse);
        }
        let members = members_of(j, at)?;
        let chat_id = read_field::<i64>(members, "chatId")?;
        let draft_message = read_optional::<DraftMessage>(members, "draftMessage")?;
        let order = read_wide(members, "order")?;
        Ok(UpdateChatDraftMessage { chat_id, draft_message, order })
    }

    proof fn round_trip(&self, at: Seq<char>) {
        reveal(<UpdateChatDraftMessage as Wire>::wire);
        reveal(<UpdateChatDraftMessage as Wire>::parse);
        reveal_strlit("@type");
        reveal_strlit("chatId");
        reveal_strlit("draftMessage");
        reveal_strlit("order");
        assert("@type"@.len() == 5 && "@type"@[0] == '@');
        assert("chatId"@.len() == 6);
        assert("draftMessage"@.len() == 12);
        assert("order"@.len() == 5 && "order"@[0] == 'o');
        self.chat_id.round_trip("chatId"@);
        self.draft_message.round_trip("draftMessage"@);
        lemma_wide_round_trip(self.order, "order"@);
    }
}

impl Tagged for UpdateChatDraftMessage {
    open spec fn known(tag: Seq<char>) -> bool {
        tag == "updateChatDraftMessage"@
    }

    fn knows(tag: &str) -> (r: bool) {
        same_text(tag, "updateChatDraftMessage")
    }

    proof fn tag_known(&self) {
        reveal(<UpdateChatDraftMessage as Wire>::wire);
        assert(tag_of(self.wire()) == Some("updateChatDraftMessage"@));
        assert(Self::known("updateChatDraftMessage"@));
    }
}

/// The number of online group members has changed. This update with non-zero count is sent only for
/// currently opened chats. There is no guarantee that it will be sent just after the count has
/// changed
#[derive(Debug, Clone, PartialEq)]
pub struct UpdateChatOnlineMemberCount {
    /// Identifier of the chat
    pub chat_id: i64,
    /// New number of online members in the chat, or 0 if unknown
    pub online_member_count: i32,
}

impl Wire for UpdateChatOnlineMemberCount {
    #[verifier::opaque]
    open spec fn wire(&self) -> Doc {
        tagged(
            Map::empty()
                .insert("chatId"@, self.chat_id.wire())
                .insert("onlineMemberCount"@, self.online_member_count.wire()),
            "updateChatOnlineMemberCount"@,
        )
    }

    #[verifier::opaque]
    open spec fn parse(d: Doc, at: Seq<char>) -> Result<Doc, Fault> {
        match d {
            Doc::Object(m) => {
                let chat_id = field::<i64>(m, "chatId"@);
                let online_member_count = field::<i32>(m, "onlineMemberCount"@);
                if chat_id is Err {
                    chat_id
                } else if online_member_count is Err {
                    online_member_count
                } else {
                    Ok(
                        tagged(
                            Map::empty()
                                .insert("chatId"@, chat_id->Ok_0)
                                .insert("onlineMemberCount"@, online_member_count->Ok_0),
                            "updateChatOnlineMemberCount"@,
                        ),
                    )
                }
            },
            _ => Err(Fault::TypeMismatch(at)),
        }
    }

    fn encode(&self) -> (j: Json) {
        proof {
            reveal(<UpdateChatOnlineMemberCount as Wire>::wire);
        }
        let mut members: Vec<Member> = Vec::new();
        put(&mut members, "chatId", self.chat_id.encode());
        put(&mut members, "onlineMemberCount", self.online_member_count.encode());
        seal(members, "updateChatOnlineMemberCount")
    }

    fn decode(j: &Json, at: &str) -> (r: Result<Self, DecodeError>) {
        proof {
            reveal(<UpdateChatOnlineMemberCount as Wire>::wire);
            reveal(<UpdateChatOnlineMemberCount as Wire>::parse);
        }
        let members = members_of(j, at)?;
        let chat_id = read_field::<i64>(members, "chatId")?;
        let online_member_count = read_field::<i32>(members, "onlineMemberCount")?;
        Ok(UpdateChatOnlineMemberCount { chat_id, online_member_count })
    }

    proof fn round_trip(&self, at: Seq<char>) {
        reveal(<UpdateChatOnlineMemberCount as Wire>::wire);
        reveal(<UpdateChatOnlineMemberCount as Wire>::parse);
        reveal_strlit("@type");
        reveal_strlit("chatId");
        reveal_strlit("onlineMemberCount");
        assert("@type"@.len() == 5);
        assert("chatId"@.len() == 6);
        assert("onlineMemberCount"@.len() == 17);
        self.chat_id.round_trip("chatId"@);
        self.online_member_count.round_trip("onlineMemberCount"@);
    }
}

impl Tagged for UpdateChatOnlineMemberCount {
    open spec fn known(tag: Seq<char>) -> bool {
        tag == "updateChatOnlineMemberCount"@
    }

    fn knows(tag: &str) -> (r: bool) {
        same_text(tag, "updateChatOnlineMemberCount")
    }

    proof fn tag_known(&self) {
        reveal(<UpdateChatOnlineMemberCount as Wire>::wire);
        assert(tag_of(self.wire()) == Some("updateChatOnlineMemberCount"@));
        assert(Self::known("updateChatOnlineMemberCount"@));
    }
}

/// A notification was changed
#[derive(Debug, Clone, PartialEq)]
pub struct UpdateNotification {
    /// Unique notification group identifier
    pub notification_group_id: i32,
    /// Changed notification
    pub notification: Notification,
}

impl Wire for UpdateNotification {
    #[verifier::opaque]
    open spec fn wire(&self) -> Doc {
        tagged(
            Map::empty()
                .insert("notificationGroupId"@, self.notification_group_id.wire())
                .insert("notification"@, self.notification.wire()),
            "updateNotification"@,
        )
    }

    #[verifier::opaque]
    open spec fn parse(d: Doc, at: Seq<char>) -> Result<Doc, Fault> {
        match d {
            Doc::Object(m) => {
                let notification_group_id = field::<i32>(m, "notificationGroupId"@);
                let notification = field::<Notification>(m, "notification"@);
                if notification_group_id is Err {
                    notification_group_id
                } else if notification is Err {
                    notification
                } else {
                    Ok(
                        tagged(
                            Map::empty()
                                .insert("notificationGroupId"@, notification_group_id->Ok_0)
                                .insert("notification"@, notification->Ok_0),
                            "updateNotification"@,
                        ),
                    )
                }
            },
            _ => Err(Fault::TypeMismatch(at)),
        }
    }

    fn encode(&self) -> (j: Json) {
        proof {
            reveal(<UpdateNotification as Wire>::wire);
        }
        let mut members: Vec<Member> = Vec::new();
        put(&mut members, "notificationGroupId", self.notification_group_id.encode());
        put(&mut members, "notification", self.notification.encode());
        seal(members, "updateNotification")
    }

    fn decode(j: &Json, at: &str) -> (r: Result<Self, DecodeError>) {
        proof {
            reveal(<UpdateNotification as Wire>::wire);
            reveal(<UpdateNotification as Wire>::parse);
        }
        let members = members_of(j, at)?;
        let notification_group_id = read_field::<i32>(members, "notificationGroupId")?;
        let notification = read_field::<Notification>(members, "notification")?;
        Ok(UpdateNotification { notification_group_id, notification })
    }

    proof fn round_trip(&self, at: Seq<char>) {
        reveal(<UpdateNotification as Wire>::wire);
        reveal(<UpdateNotification as Wire>::parse);
        reveal_strlit("@type");
        reveal_strlit("notification");
        reveal_strlit("notificationGroupId");
        assert("@type"@.len() == 5);
        assert("notification"@.len() == 12);
        assert("notificationGroupId"@.len() == 19);
        self.notification_group_id.round_trip("notificationGroupId"@);
        self.notification.round_trip("notification"@);
    }
}

impl Tagged for UpdateNotification {
    open spec fn known(tag: Seq<char>) -> bool {
        tag == "updateNotification"@
    }

    fn knows(tag: &str) -> (r: bool) {
        same_text(tag, "updateNotification")
    }

    proof fn tag_known(&self) {
        reveal(<UpdateNotification as Wire>::wire);
        assert(tag_of(self.wire()) == Some("updateNotification"@));
        assert(Self::known("updateNotification"@));
    }
}

/// A list of active notifications in a notification group has changed
#[derive(Debug, Clone, PartialEq)]
pub struct UpdateNotificationGroup {
    /// Unique notification group identifier
    pub notification_group_id: i32,
    /// New type of the notification group
    pub type_: NotificationGroupType,
    /// Identifier of a chat to which all notifications in the group belong
    pub chat_id: i64,
    /// Chat identifier, which notification settings must be applied to the added notifications
    pub notification_settings_chat_id: i64,
    /// True, if the notifications should be shown without sound
    pub is_silent: bool,
    /// Total number of unread notifications in the group, can be bigger than number of active
    /// notifications
    pub total_count: i32,
    /// List of added group notifications, sorted by notification ID
    pub added_notifications: Vec<Notification>,
    /// Identifiers of removed group notifications, sorted by notification ID
    pub removed_notification_ids: Vec<i32>,
}

impl Wire for UpdateNotificationGroup {
    #[verifier::opaque]
    open spec fn wire(&self) -> Doc {
        tagged(
            Map::empty()
                .insert("notificationGroupId"@, self.notification_group_id.wire())
                .insert("type"@, self.type_.wire())
                .insert("chatId"@, self.chat_id.wire())
                .insert("notificationSettingsChatId"@, self.notification_settings_chat_id.wire())
                .insert("isSilent"@, self.is_silent.wire())
                .insert("totalCount"@, self.total_count.wire())
                .insert("addedNotifications"@, self.added_notifications.wire())
                .insert("removedNotificationIds"@, self.removed_notification_ids.wire()),
            "updateNotificationGroup"@,
        )
    }

    #[verifier::opaque]
    open spec fn parse(d: Doc, at: Seq<char>) -> Result<Doc, Fault> {
        match d {
            Doc::Object(m) => {
                let notification_group_id = field::<i32>(m, "notificationGroupId"@);
                let type_ = field::<NotificationGroupType>(m, "type"@);
                let chat_id = field::<i64>(m, "chatId"@);
                let notification_settings_chat_id = field::<i64>(m, "notificationSettingsChatId"@);
                let is_silent = field::<bool>(m, "isSilent"@);
                let total_count = field::<i32>(m, "totalCount"@);
                let added_notifications = field::<Vec<Notification>>(m, "addedNotifications"@);
                let removed_notification_ids = field::<Vec<i32>>(m, "removedNotificationIds"@);
                if notification_group_id is Err {
                    notification_group_id
                } else if type_ is Err {
                    type_
                } else if chat_id is Err {
                    chat_id
                } else if notification_settings_chat_id is Err {
                    notification_settings_chat_id
                } else if is_silent is Err {
                    is_silent
                } else if total_count is Err {
                    total_count
                } else if added_notifications is Err {
                    added_notifications
                } else if removed_notification_ids is Err {
                    removed_notification_ids
                } else {
                    Ok(
                        tagged(
                            Map::empty()
                                .insert("notificationGroupId"@, notification_group_id->Ok_0)
                                .insert("type"@, type_->Ok_0)
                                .insert("chatId"@, chat_id->Ok_0)
                                .insert(
                                    "notificationSettingsChatId"@,
                                    notification_settings_chat_id->Ok_0,
                                )
                                .insert("isSilent"@, is_silent->Ok_0)
                                .insert("totalCount"@, total_count->Ok_0)
                                .insert("addedNotifications"@, added_notifications->Ok_0)
                                .insert("removedNotificationIds"@, removed_notification_ids->Ok_0),
                            "updateNotificationGroup"@,
                        ),
                    )
                }
            },
            _ => Err(Fault::TypeMismatch(at)),
        }
    }

    fn encode(&self) -> (j: Json) {
        proof {
            reveal(<UpdateNotificationGroup as Wire>::wire);
        }
        let mut members: Vec<Member> = Vec::new();
        put(&mut members, "notificationGroupId", self.notification_group_id.encode());
        put(&mut members, "type", self.type_.encode());
        put(&mut members, "chatId", self.chat_id.encode());
        put(
            &mut members,
            "notificationSettingsChatId",
            self.notification_settings_chat_id.encode(),
        );
        put(&mut members, "isSilent", self.is_silent.encode());
        put(&mut members, "totalCount", self.total_count.encode());
        put(&mut members, "addedNotifications", self.added_notifications.encode());
        put(&mut members, "removedNotificationIds", self.removed_notification_ids.encode());
        seal(members, "updateNotificationGroup")
    }

    fn decode(j: &Json, at: &str) -> (r: Result<Self, DecodeError>) {
        proof {
            reveal(<UpdateNotificationGroup as Wire>::wire);
            reveal(<UpdateNotificationGroup as Wire>::parse);
        }
        let members = members_of(j, at)?;
        let notification_group_id = read_field::<i32>(members, "notificationGroupId")?;
        let type_ = read_field::<NotificationGroupType>(members, "type")?;
        let chat_id = read_field::<i64>(members, "chatId")?;
        let notification_settings_chat_id = read_field::<i64>(
            members,
            "notificationSettingsChatId",
        )?;
        let is_silent = read_field::<bool>(members, "isSilent")?;
        let total_count = read_field::<i32>(members, "totalCount")?;
        let added_notifications = read_field::<Vec<Notification>>(members, "addedNotifications")?;
        let removed_notification_ids = read_field::<Vec<i32>>(members, "removedNotificationIds")?;
        Ok(UpdateNotificationGroup {
            notification_group_id,
            type_,
            chat_id,
            notification_settings_chat_id,
            is_silent,
            total_count,
            added_notifications,
            removed_notification_ids,
        })
    }

    proof fn round_trip(&self, at: Seq<char>) {
        reveal(<UpdateNotificationGroup as Wire>::wire);
        reveal(<UpdateNotificationGroup as Wire>::parse);
        reveal_strlit("@type");
        reveal_strlit("addedNotifications");
        reveal_strlit("chatId");
        reveal_strlit("isSilent");
        reveal_strlit("notificationGroupId");
        reveal_strlit("notificationSettingsChatId");
        reveal_strlit("removedNotificationIds");
        reveal_strlit("totalCount");
        reveal_strlit("type");
        assert("@type"@.len() == 5);
        assert("addedNotifications"@.len() == 18);
        assert("chatId"@.len() == 6);
        assert("isSilent"@.len() == 8);
        assert("notificationGroupId"@.len() == 19);
        assert("notificationSettingsChatId"@.len() == 26);
        assert("removedNotificationIds"@.len() == 22);
        assert("totalCount"@.len() == 10);
        assert("type"@.len() == 4);
        self.notification_group_id.round_trip("notificationGroupId"@);
        self.type_.round_trip("type"@);
        self.chat_id.round_trip("chatId"@);
        self.notification_settings_chat_id.round_trip("notificationSettingsChatId"@);
        self.is_silent.round_trip("isSilent"@);
        self.total_count.round_trip("totalCount"@);
        self.added_notifications.round_trip("addedNotifications"@);
        self.removed_notification_ids.round_trip("removedNotificationIds"@);
    }
}

impl Tagged for UpdateNotificationGroup {
    open spec fn known(tag: Seq<char>) -> bool {
        tag == "updateNotificationGroup"@
    }

    fn knows(tag: &str) -> (r: bool) {
        same_text(tag, "updateNotificationGroup")
    }

    proof fn tag_known(&self) {
        reveal(<UpdateNotificationGroup as Wire>::wire);
        assert(tag_of(self.wire()) == Some("updateNotificationGroup"@));
        assert(Self::known("updateNotificationGroup"@));
    }
}

/// Contains active notifications that was shown on previous application launches. This update is
/// sent only if the message database is used. In that case it comes once before any
/// updateNotification and updateNotificationGroup update
#[derive(Debug, Clone, PartialEq)]
pub struct UpdateActiveNotifications {
    /// Lists of active notification groups
    pub groups: Vec<NotificationGroup>,
}

impl Wire for UpdateActiveNotifications {
    #[verifier::opaque]
    open spec fn wire(&self) -> Doc {
        tagged(
            Map::empty()
                .insert("groups"@, self.groups.wire()),
            "updateActiveNotifications"@,
        )
    }

    #[verifier::opaque]
    open spec fn parse(d: Doc, at: Seq<char>) -> Result<Doc, Fault> {
        match d {
            Doc::Object(m) => {
                let groups = field::<Vec<NotificationGroup>>(m, "groups"@);
                if groups is Err {
                    groups
                } else {
                    Ok(
                        tagged(
                            Map::empty()
                                .insert("groups"@, groups->Ok_0),
                            "updateActiveNotifications"@,
                        ),
                    )
                }
            },
            _ => Err(Fault::TypeMismatch(at)),
        }
    }

    fn encode(&self) -> (j: Json) {
        proof {
            reveal(<UpdateActiveNotifications as Wire>::wire);
        }
        let mut members: Vec<Member> = Vec::new();
        put(&mut members, "groups", self.groups.encode());
        seal(members, "updateActiveNotifications")
    }

    fn decode(j: &Json, at: &str) -> (r: Result<Self, DecodeError>) {
        proof {
            reveal(<UpdateActiveNotifications as Wire>::wire);
            reveal(<UpdateActiveNotifications as Wire>::parse);
        }
        let members = members_of(j, at)?;
        let groups = read_field::<Vec<NotificationGroup>>(members, "groups")?;
        Ok(UpdateActiveNotifications { groups })
    }

    proof fn round_trip(&self, at: Seq<char>) {
        reveal(<UpdateActiveNotifications as Wire>::wire);
        reveal(<UpdateActiveNotifications as Wire>::parse);
        reveal_strlit("@type");
        reveal_strlit("groups");
        assert("@type"@.len() == 5);
        assert("groups"@.len() == 6);
        self.groups.round_trip("groups"@);
    }
}

impl Tagged for UpdateActiveNotifications {
    open spec fn known(tag: Seq<char>) -> bool {
        tag == "updateActiveNotifications"@
    }

    fn knows(tag: &str) -> (r: bool) {
        same_text(tag, "updateActiveNotifications")
    }

    proof fn tag_known(&self) {
        reveal(<UpdateActiveNotifications as Wire>::wire);
        assert(tag_of(self.wire()) == Some("updateActiveNotifications"@));
        assert(Self::known("updateActiveNotifications"@));
    }
}

/// Describes whether there are some pending notification updates. Can be used to prevent
/// application from killing, while there are some pending notifications
#[derive(Debug, Clone, PartialEq)]
pub struct UpdateHavePendingNotifications {
    /// True, if there are some delayed notification updates, which will be sent soon
    pub have_delayed_notifications: bool,
    /// True, if there can be some yet unreceived notifications, which are being fetched from the
    /// server
    pub have_unreceived_notifications: bool,
}

impl Wire for UpdateHavePendingNotifications {
    #[verifier::opaque]
    open spec fn wire(&self) -> Doc {
        tagged(
            Map::empty()
                .insert("haveDelayedNotifications"@, self.have_delayed_notifications.wire())
                .insert("haveUnreceivedNotifications"@, self.have_unreceived_notifications.wire()),
            "updateHavePendingNotifications"@,
        )
    }

    #[verifier::opaque]
    open spec fn parse(d: Doc, at: Seq<char>) -> Result<Doc, Fault> {
        match d {
            Doc::Object(m) => {
                let have_delayed_notifications = field::<bool>(m, "haveDelayedNotifications"@);
                let have_unreceived_notifications = field::<bool>(
                    m,
                    "haveUnreceivedNotifications"@,
                );
                if have_delayed_notifications is Err {
                    have_delayed_notifications
                } else if have_unreceived_notifications is Err {
                    have_unreceived_notifications
                } else {
                    Ok(
                        tagged(
                            Map::empty()
                                .insert(
                                    "haveDelayedNotifications"@,
                                    have_delayed_notifications->Ok_0,
                                )
                                .insert(
                                    "haveUnreceivedNotifications"@,
                                    have_unreceived_notifications->Ok_0,
                                ),
                            "updateHavePendingNotifications"@,
                        ),
                    )
                }
            },
            _ => Err(Fault::TypeMismatch(at)),
        }
    }

    fn encode(&self) -> (j: Json) {
        proof {
            reveal(<UpdateHavePendingNotifications as Wire>::wire);
        }
        let mut members: Vec<Member> = Vec::new();
        put(&mut members, "haveDelayedNotifications", self.have_delayed_notifications.encode());
        put(
            &mut members,
            "haveUnreceivedNotifications",
            self.have_unreceived_notifications.encode(),
        );
        seal(members, "updateHavePendingNotifications")
    }

    fn decode(j: &Json, at: &str) -> (r: Result<Self, DecodeError>) {
        proof {
            reveal(<UpdateHavePendingNotifications as Wire>::wire);
            reveal(<UpdateHavePendingNotifications as Wire>::parse);
        }
        let members = members_of(j, at)?;
        let have_delayed_notifications = read_field::<bool>(members, "haveDelayedNotifications")?;
        let have_unreceived_notifications = read_field::<bool>(
            members,
            "haveUnreceivedNotifications",
        )?;
        Ok(UpdateHavePendingNotifications {
            have_delayed_notifications,
            have_unreceived_notifications,
        })
    }

    proof fn round_trip(&self, at: Seq<char>) {
        reveal(<UpdateHavePendingNotifications as Wire>::wire);
        reveal(<UpdateHavePendingNotifications as Wire>::parse);
        reveal_strlit("@type");
        reveal_strlit("haveDelayedNotifications");
        reveal_strlit("haveUnreceivedNotifications");
        assert("@type"@.len() == 5);
        assert("haveDelayedNotifications"@.len() == 24);
        assert("haveUnreceivedNotifications"@.len() == 27);
        self.have_delayed_notifications.round_trip("haveDelayedNotifications"@);
        self.have_unreceived_notifications.round_trip("haveUnreceivedNotifications"@);
    }
}

impl Tagged for UpdateHavePendingNotifications {
    open spec fn known(tag: Seq<char>) -> bool {
        tag == "updateHavePendingNotifications"@
    }

    fn knows(tag: &str) -> (r: bool) {
        same_text(tag, "updateHavePendingNotifications")
    }

    proof fn tag_known(&self) {
        reveal(<UpdateHavePendingNotifications as Wire>::wire);
        assert(tag_of(self.wire()) == Some("updateHavePendingNotifications"@));
        assert(Self::known("updateHavePendingNotifications"@));
    }
}

/// Some messages were deleted
#[derive(Debug, Clone, PartialEq)]
pub struct UpdateDeleteMessages {
    /// Chat identifier
    pub chat_id: i64,
    /// Identifiers of the deleted messages
    pub message_ids: Vec<i64>,
    /// True, if the messages are permanently deleted by a user (as opposed to just becoming
    /// inaccessible)
    pub is_permanent: bool,
    /// True, if the messages are deleted only from the cache and can possibly be retrieved again in
    /// the future
    pub from_cache: bool,
}

impl Wire for UpdateDeleteMessages {
    #[verifier::opaque]
    open spec fn wire(&self) -> Doc {
        tagged(
            Map::empty()
                .insert("chatId"@, self.chat_id.wire())
                .insert("messageIds"@, self.message_ids.wire())
                .insert("isPermanent"@, self.is_permanent.wire())
                .insert("fromCache"@, self.from_cache.wire()),
            "updateDeleteMessages"@,
        )
    }

    #[verifier::opaque]
    open spec fn parse(d: Doc, at: Seq<char>) -> Result<Doc, Fault> {
        match d {
            Doc::Object(m) => {
                let chat_id = field::<i64>(m, "chatId"@);
                let message_ids = field::<Vec<i64>>(m, "messageIds"@);
                let is_permanent = field::<bool>(m, "isPermanent"@);
                let from_cache = field::<bool>(m, "fromCache"@);
                if chat_id is Err {
                    chat_id
                } else if message_ids is Err {
                    message_ids
                } else if is_permanent is Err {
                    is_permanent
                } else if from_cache is Err {
                    from_cache
                } else {
                    Ok(
                        tagged(
                            Map::empty()
                                .insert("chatId"@, chat_id->Ok_0)
                                .insert("messageIds"@, message_ids->Ok_0)
                                .insert("isPermanent"@, is_permanent->Ok_0)
                                .insert("fromCache"@, from_cache->Ok_0),
                            "updateDeleteMessages"@,
                        ),
                    )
                }
            },
            _ => Err(Fault::TypeMismatch(at)),
        }
    }

    fn encode(&self) -> (j: Json) {
        proof {
            reveal(<UpdateDeleteMessages as Wire>::wire);
        }
        let mut members: Vec<Member> = Vec::new();
        put(&mut members, "chatId", self.chat_id.encode());
        put(&mut members, "messageIds", self.message_ids.encode());
        put(&mut members, "isPermanent", self.is_permanent.encode());
        put(&mut members, "fromCache", self.from_cache.encode());
        seal(members, "updateDeleteMessages")
    }

    fn decode(j: &Json, at: &str) -> (r: Result<Self, DecodeError>) {
        proof {
            reveal(<UpdateDeleteMessages as Wire>::wire);
            reveal(<UpdateDeleteMessages as Wire>::parse);
        }
        let members = members_of(j, at)?;
        let chat_id = read_field::<i64>(members, "chatId")?;
        let message_ids = read_field::<Vec<i64>>(members, "messageIds")?;
        let is_permanent = read_field::<bool>(members, "isPermanent")?;
        let from_cache = read_field::<bool>(members, "fromCache")?;
        Ok(UpdateDeleteMessages { chat_id, message_ids, is_permanent, from_cache })
    }

    proof fn round_trip(&self, at: Seq<char>) {
        reveal(<UpdateDeleteMessages as Wire>::wire);
        reveal(<UpdateDeleteMessages as Wire>::parse);
        reveal_strlit("@type");
        reveal_strlit("chatId");
        reveal_strlit("fromCache");
        reveal_strlit("isPermanent");
        reveal_strlit("messageIds");
        assert("@type"@.len() == 5);
        assert("chatId"@.len() == 6);
        assert("fromCache"@.len() == 9);
        assert("isPermanent"@.len() == 11);
        assert("messageIds"@.len() == 10);
        self.chat_id.round_trip("chatId"@);
        self.message_ids.round_trip("messageIds"@);
        self.is_permanent.round_trip("isPermanent"@);
        self.from_cache.round_trip("fromCache"@);
    }
}

impl Tagged for UpdateDeleteMessages {
    open spec fn known(tag: Seq<char>) -> bool {
        tag == "updateDeleteMessages"@
    }

    fn knows(tag: &str) -> (r: bool) {
        same_text(tag, "updateDeleteMessages")
    }

    proof fn tag_known(&self) {
        reveal(<UpdateDeleteMessages as Wire>::wire);
        assert(tag_of(self.wire()) == Some("updateDeleteMessages"@));
        assert(Self::known("updateDeleteMessages"@));
    }
}

/// User activity in the chat has changed
#[derive(Debug, Clone, PartialEq)]
pub struct UpdateUserChatAction {
    /// Chat identifier
    pub chat_id: i64,
    /// Identifier of a user performing an action
    pub user_id: i32,
    /// The action description
    pub action: ChatAction,
}

impl Wire for UpdateUserChatAction {
    #[verifier::opaque]
    open spec fn wire(&self) -> Doc {
        tagged(
            Map::empty()
                .insert("chatId"@, self.chat_id.wire())
                .insert("userId"@, self.user_id.wire())
                .insert("action"@, self.action.wire()),
            "updateUserChatAction"@,
        )
    }

    #[verifier::opaque]
    open spec fn parse(d: Doc, at: Seq<char>) -> Result<Doc, Fault> {
        match d {
            Doc::Object(m) => {
                let chat_id = field::<i64>(m, "chatId"@);
                let user_id = field::<i32>(m, "userId"@);
                let action = field::<ChatAction>(m, "action"@);
                if chat_id is Err {
                    chat_id
                } else if user_id is Err {
                    user_id
                } else if action is Err {
                    action
                } else {
                    Ok(
                        tagged(
                            Map::empty()
                                .insert("chatId"@, chat_id->Ok_0)
                                .insert("userId"@, user_id->Ok_0)
                                .insert("action"@, action->Ok_0),
                            "updateUserChatAction"@,
                        ),
                    )
                }
            },
            _ => Err(Fault::TypeMismatch(at)),
        }
    }

    fn encode(&self) -> (j: Json) {
        proof {
            reveal(<UpdateUserChatAction as Wire>::wire);
        }
        let mut members: Vec<Member> = Vec::new();
        put(&mut members, "chatId", self.chat_id.encode());
        put(&mut members, "userId", self.user_id.encode());
        put(&mut members, "action", self.action.encode());
        seal(members, "updateUserChatAction")
    }

    fn decode(j: &Json, at: &str) -> (r: Result<Self, DecodeError>) {
        proof {
            reveal(<UpdateUserChatAction as Wire>::wire);
            reveal(<UpdateUserChatAction as Wire>::parse);
        }
        let members = members_of(j, at)?;
        let chat_id = read_field::<i64>(members, "chatId")?;
        let user_id = read_field::<i32>(members, "userId")?;
        let action = read_field::<ChatAction>(members, "action")?;
        Ok(UpdateUserChatAction { chat_id, user_id, action })
    }

    proof fn round_trip(&self, at: Seq<char>) {
        reveal(<UpdateUserChatAction as Wire>::wire);
        reveal(<UpdateUserChatAction as Wire>::parse);
        reveal_strlit("@type");
        reveal_strlit("action");
        reveal_strlit("chatId");
        reveal_strlit("userId");
        assert("@type"@.len() == 5);
        assert("action"@.len() == 6 && "action"@[0] == 'a');
        assert("chatId"@.len() == 6 && "chatId"@[0] == 'c');
        assert("userId"@.len() == 6 && "userId"@[0] == 'u');
        self.chat_id.round_trip("chatId"@);
        self.user_id.round_trip("userId"@);
        self.action.round_trip("action"@);
    }
}

impl Tagged for UpdateUserChatAction {
    open spec fn known(tag: Seq<char>) -> bool {
        tag == "updateUserChatAction"@
    }

    fn knows(tag: &str) -> (r: bool) {
        same_text(tag, "updateUserChatAction")
    }

    proof fn tag_known(&self) {
        reveal(<UpdateUserChatAction as Wire>::wire);
        assert(tag_of(self.wire()) == Some("updateUserChatAction"@));
        assert(Self::known("updateUserChatAction"@));
    }
}

/// The user went online or offline
#[derive(Debug, Clone, PartialEq)]
pub struct UpdateUserStatus {
    /// User identifier
    pub user_id: i32,
    /// New status of the user
    pub status: UserStatus,
}

impl Wire for UpdateUserStatus {
    #[verifier::opaque]
    open spec fn wire(&self) -> Doc {
        tagged(
            Map::empty()
                .insert("userId"@, self.user_id.wire())
                .insert("status"@, self.status.wire()),
            "updateUserStatus"@,
        )
    }

    #[verifier::opaque]
    open spec fn parse(d: Doc, at: Seq<char>) -> Result<Doc, Fault> {
        match d {
            Doc::Object(m) => {
                let user_id = field::<i32>(m, "userId"@);
                let status = field::<UserStatus>(m, "status"@);
                if user_id is Err {
                    user_id
                } else if status is Err {
                    status
                } else {
                    Ok(
                        tagged(
                            Map::empty()
                                .insert("userId"@, user_id->Ok_0)
                                .insert("status"@, status->Ok_0),
                            "updateUserStatus"@,
                        ),
                    )
                }
            },
            _ => Err(Fault::TypeMismatch(at)),
        }
    }

    fn encode(&self) -> (j: Json) {
        proof {
            reveal(<UpdateUserStatus as Wire>::wire);
        }
        let mut members: Vec<Member> = Vec::new();
        put(&mut members, "userId", self.user_id.encode());
        put(&mut members, "status", self.status.encode());
        seal(members, "updateUserStatus")
    }

    fn decode(j: &Json, at: &str) -> (r: Result<Self, DecodeError>) {
        proof {
            reveal(<UpdateUserStatus as Wire>::wire);
            reveal(<UpdateUserStatus as Wire>::parse);
        }
        let members = members_of(j, at)?;
        let user_id = read_field::<i32>(members, "userId")?;
        let status = read_field::<UserStatus>(members, "status")?;
        Ok(UpdateUserStatus { user_id, status })
    }

    proof fn round_trip(&self, at: Seq<char>) {
        reveal(<UpdateUserStatus as Wire>::wire);
        reveal(<UpdateUserStatus as Wire>::parse);
        reveal_strlit("@type");
        reveal_strlit("status");
        reveal_strlit("userId");
        assert("@type"@.len() == 5);
        assert("status"@.len() == 6 && "status"@[0] == 's');
        assert("userId"@.len() == 6 && "userId"@[0] == 'u');
        self.user_id.round_trip("userId"@);
        self.status.round_trip("status"@);
    }
}

impl Tagged for UpdateUserStatus {
    open spec fn known(tag: Seq<char>) -> bool {
        tag == "updateUserStatus"@
    }

    fn knows(tag: &str) -> (r: bool) {
        same_text(tag, "updateUserStatus")
    }

    proof fn tag_known(&self) {
        reveal(<UpdateUserStatus as Wire>::wire);
        assert(tag_of(self.wire()) == Some("updateUserStatus"@));
        assert(Self::known("updateUserStatus"@));
    }
}

/// Some data of a user has changed. This update is guaranteed to come before the user identifier is
/// returned to the client
#[derive(Debug, Clone, PartialEq)]
pub struct UpdateUser {
    /// New data about the user
    pub user: User,
}

impl Wire for UpdateUser {
    #[verifier::opaque]
    open spec fn wire(&self) -> Doc {
        tagged(
            Map::empty()
                .insert("user"@, self.user.wire()),
            "updateUser"@,
        )
    }

    #[verifier::opaque]
    open spec fn parse(d: Doc, at: Seq<char>) -> Result<Doc, Fault> {
        match d {
            Doc::Object(m) => {
                let user = field::<User>(m, "user"@);
                if user is Err {
                    user
                } else {
                    Ok(
                        tagged(
                            Map::empty()
                                .insert("user"@, user->Ok_0),
                            "updateUser"@,
                        ),
                    )
                }
            },
            _ => Err(Fault::TypeMismatch(at)),
        }
    }

    fn encode(&self) -> (j: Json) {
        proof {
            reveal(<UpdateUser as Wire>::wire);
        }
        let mut members: Vec<Member> = Vec::new();
        put(&mut members, "user", self.user.encode());
        seal(members, "updateUser")
    }

    fn decode(j: &Json, at: &str) -> (r: Result<Self, DecodeError>) {
        proof {
            reveal(<UpdateUser as Wire>::wire);
            reveal(<UpdateUser as Wire>::parse);
        }
        let members = members_of(j, at)?;
        let user = read_field::<User>(members, "user")?;
        Ok(UpdateUser { user })
    }

    proof fn round_trip(&self, at: Seq<char>) {
        reveal(<UpdateUser as Wire>::wire);
        reveal(<UpdateUser as Wire>::parse);
        reveal_strlit("@type");
        reveal_strlit("user");
        assert("@type"@.len() == 5);
        assert("user"@.len() == 4);
        self.user.round_trip("user"@);
    }
}

impl Tagged for UpdateUser {
    open spec fn known(tag: Seq<char>) -> bool {
        tag == "updateUser"@
    }

    fn knows(tag: &str) -> (r: bool) {
        same_text(tag, "updateUser")
    }

    proof fn tag_known(&self) {
        reveal(<UpdateUser as Wire>::wire);
        assert(tag_of(self.wire()) == Some("updateUser"@));
        assert(Self::known("updateUser"@));
    }
}

/// Some data of a basic group has changed. This update is guaranteed to come before the basic group
/// identifier is returned to the client
#[derive(Debug, Clone, PartialEq)]
pub struct UpdateBasicGroup {
    /// New data about the group
    pub basic_group: BasicGroup,
}

impl Wire for UpdateBasicGroup {
    #[verifier::opaque]
    open spec fn wire(&self) -> Doc {
        tagged(
            Map::empty()
                .insert("basicGroup"@, self.basic_group.wire()),
            "updateBasicGroup"@,
        )
    }

    #[verifier::opaque]
    open spec fn parse(d: Doc, at: Seq<char>) -> Result<Doc, Fault> {
        match d {
            Doc::Object(m) => {
                let basic_group = field::<BasicGroup>(m, "basicGroup"@);
                if basic_group is Err {
                    basic_group
                } else {
                    Ok(
                        tagged(
                            Map::empty()
                                .insert("basicGroup"@, basic_group->Ok_0),
                            "updateBasicGroup"@,
                        ),
                    )
                }
            },
            _ => Err(Fault::TypeMismatch(at)),
        }
    }

    fn encode(&self) -> (j: Json) {
        proof {
            reveal(<UpdateBasicGroup as Wire>::wire);
        }
        let mut members: Vec<Member> = Vec::new();
        put(&mut members, "basicGroup", self.basic_group.encode());
        seal(members, "updateBasicGroup")
    }

    fn decode(j: &Json, at: &str) -> (r: Result<Self, DecodeError>) {
        proof {
            reveal(<UpdateBasicGroup as Wire>::wire);
            reveal(<UpdateBasicGroup as Wire>::parse);
        }
        let members = members_of(j, at)?;
        let basic_group = read_field::<BasicGroup>(members, "basicGroup")?;
        Ok(UpdateBasicGroup { basic_group })
    }

    proof fn round_trip(&self, at: Seq<char>) {
        reveal(<UpdateBasicGroup as Wire>::wire);
        reveal(<UpdateBasicGroup as Wire>::parse);
        reveal_strlit("@type");
        reveal_strlit("basicGroup");
        assert("@type"@.len() == 5);
        assert("basicGroup"@.len() == 10);
        self.basic_group.round_trip("basicGroup"@);
    }
}

impl Tagged for UpdateBasicGroup {
    open spec fn known(tag: Seq<char>) -> bool {
        tag == "updateBasicGroup"@
    }

    fn knows(tag: &str) -> (r: bool) {
        same_text(tag, "updateBasicGroup")
    }

    proof fn tag_known(&self) {
        reveal(<UpdateBasicGroup as Wire>::wire);
        assert(tag_of(self.wire()) == Some("updateBasicGroup"@));
        assert(Self::known("updateBasicGroup"@));
    }
}

/// Some data of a supergroup or a channel has changed. This update is guaranteed to come before the
/// supergroup identifier is returned to the client
#[derive(Debug, Clone, PartialEq)]
pub struct UpdateSupergroup {
    /// New data about the supergroup
    pub supergroup: Supergroup,
}

impl Wire for UpdateSupergroup {
    #[verifier::opaque]
    open spec fn wire(&self) -> Doc {
        tagged(
            Map::empty()
                .insert("supergroup"@, self.supergroup.wire()),
            "updateSupergroup"@,
        )
    }

    #[verifier::opaque]
    open spec fn parse(d: Doc, at: Seq<char>) -> Result<Doc, Fault> {
        match d {
            Doc::Object(m) => {
                let supergroup = field::<Supergroup>(m, "supergroup"@);
                if supergroup is Err {
                    supergroup
                } else {
                    Ok(
                        tagged(
                            Map::empty()
                                .insert("supergroup"@, supergroup->Ok_0),
                            "updateSupergroup"@,
                        ),
                    )
                }
            },
            _ => Err(Fault::TypeMismatch(at)),
        }
    }

    fn encode(&self) -> (j: Json) {
        proof {
            reveal(<UpdateSupergroup as Wire>::wire);
        }
        let mut members: Vec<Member> = Vec::new();
        put(&mut members, "supergroup", self.supergroup.encode());
        seal(members, "updateSupergroup")
    }

    fn decode(j: &Json, at: &str) -> (r: Result<Self, DecodeError>) {
        proof {
            reveal(<UpdateSupergroup as Wire>::wire);
            reveal(<UpdateSupergroup as Wire>::parse);
        }
        let members = members_of(j, at)?;
        let supergroup = read_field::<Supergroup>(members, "supergroup")?;
        Ok(UpdateSupergroup { supergroup })
    }

    proof fn round_trip(&self, at: Seq<char>) {
        reveal(<UpdateSupergroup as Wire>::wire);
        reveal(<UpdateSupergroup as Wire>::parse);
        reveal_strlit("@type");
        reveal_strlit("supergroup");
        assert("@type"@.len() == 5);
        assert("supergroup"@.len() == 10);
        self.supergroup.round_trip("supergroup"@);
    }
}

impl Tagged for UpdateSupergroup {
    open spec fn known(tag: Seq<char>) -> bool {
        tag == "updateSupergroup"@
    }

    fn knows(tag: &str) -> (r: bool) {
        same_text(tag, "updateSupergroup")
    }

    proof fn tag_known(&self) {
        reveal(<UpdateSupergroup as Wire>::wire);
        assert(tag_of(self.wire()) == Some("updateSupergroup"@));
        assert(Self::known("updateSupergroup"@));
    }
}

/// Some data of a secret chat has changed. This update is guaranteed to come before the secret chat
/// identifier is returned to the client
#[derive(Debug, Clone, PartialEq)]
pub struct UpdateSecretChat {
    /// New data about the secret chat
    pub secret_chat: SecretChat,
}

impl Wire for UpdateSecretChat {
    #[verifier::opaque]
    open spec fn wire(&self) -> Doc {
        tagged(
            Map::empty()
                .insert("secretChat"@, self.secret_chat.wire()),
            "updateSecretChat"@,
        )
    }

    #[verifier::opaque]
    open spec fn parse(d: Doc, at: Seq<char>) -> Result<Doc, Fault> {
        match d {
            Doc::Object(m) => {
                let secret_chat = field::<SecretChat>(m, "secretChat"@);
                if secret_chat is Err {
                    secret_chat
                } else {
                    Ok(
                        tagged(
                            Map::empty()
                                .insert("secretChat"@, secret_chat->Ok_0),
                            "updateSecretChat"@,
                        ),
                    )
                }
            },
            _ => Err(Fault::TypeMismatch(at)),
        }
    }

    fn encode(&self) -> (j: Json) {
        proof {
            reveal(<UpdateSecretChat as Wire>::wire);
        }
        let mut members: Vec<Member> = Vec::new();
        put(&mut members, "secretChat", self.secret_chat.encode());
        seal(members, "updateSecretChat")
    }

    fn decode(j: &Json, at: &str) -> (r: Result<Self, DecodeError>) {
        proof {
            reveal(<UpdateSecretChat as Wire>::wire);
            reveal(<UpdateSecretChat as Wire>::parse);
        }
        let members = members_of(j, at)?;
        let secret_chat = read_field::<SecretChat>(members, "secretChat")?;
        Ok(UpdateSecretChat { secret_chat })
    }

    proof fn round_trip(&self, at: Seq<char>) {
        reveal(<UpdateSecretChat as Wire>::wire);
        reveal(<UpdateSecretChat as Wire>::parse);
        reveal_strlit("@type");
        reveal_strlit("secretChat");
        assert("@type"@.len() == 5);
        assert("secretChat"@.len() == 10);
        self.secret_chat.round_trip("secretChat"@);
    }
}

impl Tagged for UpdateSecretChat {
    open spec fn known(tag: Seq<char>) -> bool {
        tag == "updateSecretChat"@
    }

    fn knows(tag: &str) -> (r: bool) {
        same_text(tag, "updateSecretChat")
    }

    proof fn tag_known(&self) {
        reveal(<UpdateSecretChat as Wire>::wire);
        assert(tag_of(self.wire()) == Some("updateSecretChat"@));
        assert(Self::known("updateSecretChat"@));
    }
}

/// Some data from userFullInfo has been changed
#[derive(Debug, Clone, PartialEq)]
pub struct UpdateUserFullInfo {
    /// User identifier
    pub user_id: i32,
    /// New full information about the user
    pub user_full_info: UserFullInfo,
}

impl Wire for UpdateUserFullInfo {
    #[verifier::opaque]
    open spec fn wire(&self) -> Doc {
        tagged(
            Map::empty()
                .insert("userId"@, self.user_id.wire())
                .insert("userFullInfo"@, self.user_full_info.wire()),
            "updateUserFullInfo"@,
        )
    }

    #[verifier::opaque]
    open spec fn parse(d: Doc, at: Seq<char>) -> Result<Doc, Fault> {
        match d {
            Doc::Object(m) => {
                let user_id = field::<i32>(m, "userId"@);
                let user_full_info = field::<UserFullInfo>(m, "userFullInfo"@);
                if user_id is Err {
                    user_id
                } else if user_full_info is Err {
                    user_full_info
                } else {
                    Ok(
                        tagged(
                            Map::empty()
                                .insert("userId"@, user_id->Ok_0)
                                .insert("userFullInfo"@, user_full_info->Ok_0),
                            "updateUserFullInfo"@,
                        ),
                    )
                }
            },
            _ => Err(Fault::TypeMismatch(at)),
        }
    }

    fn encode(&self) -> (j: Json) {
        proof {
            reveal(<UpdateUserFullInfo as Wire>::wire);
        }
        let mut members: Vec<Member> = Vec::new();
        put(&mut members, "userId", self.user_id.encode());
        put(&mut members, "userFullInfo", self.user_full_info.encode());
        seal(members, "updateUserFullInfo")
    }

    fn decode(j: &Json, at: &str) -> (r: Result<Self, DecodeError>) {
        proof {
            reveal(<UpdateUserFullInfo as Wire>::wire);
            reveal(<UpdateUserFullInfo as Wire>::parse);
        }
        let members = members_of(j, at)?;
        let user_id = read_field::<i32>(members, "userId")?;
        let user_full_info = read_field::<UserFullInfo>(members, "userFullInfo")?;
        Ok(UpdateUserFullInfo { user_id, user_full_info })
    }

    proof fn round_trip(&self, at: Seq<char>) {
        reveal(<UpdateUserFullInfo as Wire>::wire);
        reveal(<UpdateUserFullInfo as Wire>::parse);
        reveal_strlit("@type");
        reveal_strlit("userFullInfo");
        reveal_strlit("userId");
        assert("@type"@.len() == 5);
        assert("userFullInfo"@.len() == 12);
        assert("userId"@.len() == 6);
        self.user_id.round_trip("userId"@);
        self.user_full_info.round_trip("userFullInfo"@);
    }
}

impl Tagged for UpdateUserFullInfo {
    open spec fn known(tag: Seq<char>) -> bool {
        tag == "updateUserFullInfo"@
    }

    fn knows(tag: &str) -> (r: bool) {
        same_text(tag, "updateUserFullInfo")
    }

    proof fn tag_known(&self) {
        reveal(<UpdateUserFullInfo as Wire>::wire);
        assert(tag_of(self.wire()) == Some("updateUserFullInfo"@));
        assert(Self::known("updateUserFullInfo"@));
    }
}

/// Some data from basicGroupFullInfo has been changed
#[derive(Debug, Clone, PartialEq)]
pub struct UpdateBasicGroupFullInfo {
    /// Identifier of a basic group
    pub basic_group_id: i32,
    /// New full information about the group
    pub basic_group_full_info: BasicGroupFullInfo,
}

impl Wire for UpdateBasicGroupFullInfo {
    #[verifier::opaque]
    open spec fn wire(&self) -> Doc {
        tagged(
            Map::empty()
                .insert("basicGroupId"@, self.basic_group_id.wire())
                .insert("basicGroupFullInfo"@, self.basic_group_full_info.wire()),
            "updateBasicGroupFullInfo"@,
        )
    }

    #[verifier::opaque]
    open spec fn parse(d: Doc, at: Seq<char>) -> Result<Doc, Fault> {
        match d {
            Doc::Object(m) => {
                let basic_group_id = field::<i32>(m, "basicGroupId"@);
                let basic_group_full_info = field::<BasicGroupFullInfo>(m, "basicGroupFullInfo"@);
                if basic_group_id is Err {
                    basic_group_id
                } else if basic_group_full_info is Err {
                    basic_group_full_info
                } else {
                    Ok(
                        tagged(
                            Map::empty()
                                .insert("basicGroupId"@, basic_group_id->Ok_0)
                                .insert("basicGroupFullInfo"@, basic_group_full_info->Ok_0),
                            "updateBasicGroupFullInfo"@,
                        ),
                    )
                }
            },
            _ => Err(Fault::TypeMismatch(at)),
        }
    }

    fn encode(&self) -> (j: Json) {
        proof {
            reveal(<UpdateBasicGroupFullInfo as Wire>::wire);
        }
        let mut members: Vec<Member> = Vec::new();
        put(&mut members, "basicGroupId", self.basic_group_id.encode());
        put(&mut members, "basicGroupFullInfo", self.basic_group_full_info.encode());
        seal(members, "updateBasicGroupFullInfo")
    }

    fn decode(j: &Json, at: &str) -> (r: Result<Self, DecodeError>) {
        proof {
            reveal(<UpdateBasicGroupFullInfo as Wire>::wire);
            reveal(<UpdateBasicGroupFullInfo as Wire>::parse);
        }
        let members = members_of(j, at)?;
        let basic_group_id = read_field::<i32>(members, "basicGroupId")?;
        let basic_group_full_info = read_field::<BasicGroupFullInfo>(
            members,
            "basicGroupFullInfo",
        )?;
        Ok(UpdateBasicGroupFullInfo { basic_group_id, basic_group_full_info })
    }

    proof fn round_trip(&self, at: Seq<char>) {
        reveal(<UpdateBasicGroupFullInfo as Wire>::wire);
        reveal(<UpdateBasicGroupFullInfo as Wire>::parse);
        reveal_strlit("@type");
        reveal_strlit("basicGroupFullInfo");
        reveal_strlit("basicGroupId");
        assert("@type"@.len() == 5);
        assert("basicGroupFullInfo"@.len() == 18);
        assert("basicGroupId"@.len() == 12);
        self.basic_group_id.round_trip("basicGroupId"@);
        self.basic_group_full_info.round_trip("basicGroupFullInfo"@);
    }
}

impl Tagged for UpdateBasicGroupFullInfo {
    open spec fn known(tag: Seq<char>) -> bool {
        tag == "updateBasicGroupFullInfo"@
    }

    fn knows(tag: &str) -> (r: bool) {
        same_text(tag, "updateBasicGroupFullInfo")
    }

    proof fn tag_known(&self) {
        reveal(<UpdateBasicGroupFullInfo as Wire>::wire);
        assert(tag_of(self.wire()) == Some("updateBasicGroupFullInfo"@));
        assert(Self::known("updateBasicGroupFullInfo"@));
    }
}

/// Some data from supergroupFullInfo has been changed
#[derive(Debug, Clone, PartialEq)]
pub struct UpdateSupergroupFullInfo {
    /// Identifier of the supergroup or channel
    pub supergroup_id: i32,
    /// New full information about the supergroup
    pub supergroup_full_info: SupergroupFullInfo,
}

impl Wire for UpdateSupergroupFullInfo {
    #[verifier::opaque]
    open spec fn wire(&self) -> Doc {
        tagged(
            Map::empty()
                .insert("supergroupId"@, self.supergroup_id.wire())
                .insert("supergroupFullInfo"@, self.supergroup_full_info.wire()),
            "updateSupergroupFullInfo"@,
        )
    }

    #[verifier::opaque]
    open spec fn parse(d: Doc, at: Seq<char>) -> Result<Doc, Fault> {
        match d {
            Doc::Object(m) => {
                let supergroup_id = field::<i32>(m, "supergroupId"@);
                let supergroup_full_info = field::<SupergroupFullInfo>(m, "supergroupFullInfo"@);
                if supergroup_id is Err {
                    supergroup_id
                } else if supergroup_full_info is Err {
                    supergroup_full_info
                } else {
                    Ok(
                        tagged(
                            Map::empty()
                                .insert("supergroupId"@, supergroup_id->Ok_0)
                                .insert("supergroupFullInfo"@, supergroup_full_info->Ok_0),
                            "updateSupergroupFullInfo"@,
                        ),
                    )
                }
            },
            _ => Err(Fault::TypeMismatch(at)),
        }
    }

    fn encode(&self) -> (j: Json) {
        proof {
            reveal(<UpdateSupergroupFullInfo as Wire>::wire);
        }
        let mut members: Vec<Member> = Vec::new();
        put(&mut members, "supergroupId", self.supergroup_id.encode());
        put(&mut members, "supergroupFullInfo", self.supergroup_full_info.encode());
        seal(members, "updateSupergroupFullInfo")
    }

    fn decode(j: &Json, at: &str) -> (r: Result<Self, DecodeError>) {
        proof {
            reveal(<UpdateSupergroupFullInfo as Wire>::wire);
            reveal(<UpdateSupergroupFullInfo as Wire>::parse);
        }
        let members = members_of(j, at)?;
        let supergroup_id = read_field::<i32>(members, "supergroupId")?;
        let supergroup_full_info = read_field::<SupergroupFullInfo>(members, "supergroupFullInfo")?;
        Ok(UpdateSupergroupFullInfo { supergroup_id, supergroup_full_info })
    }

    proof fn round_trip(&self, at: Seq<char>) {
        reveal(<UpdateSupergroupFullInfo as Wire>::wire);
        reveal(<UpdateSupergroupFullInfo as Wire>::parse);
        reveal_strlit("@type");
        reveal_strlit("supergroupFullInfo");
        reveal_strlit("supergroupId");
        assert("@type"@.len() == 5);
        assert("supergroupFullInfo"@.len() == 18);
        assert("supergroupId"@.len() == 12);
        self.supergroup_id.round_trip("supergroupId"@);
        self.supergroup_full_info.round_trip("supergroupFullInfo"@);
    }
}

impl Tagged for UpdateSupergroupFullInfo {
    open spec fn known(tag: Seq<char>) -> bool {
        tag == "updateSupergroupFullInfo"@
    }

    fn knows(tag: &str) -> (r: bool) {
        same_text(tag, "updateSupergroupFullInfo")
    }

    proof fn tag_known(&self) {
        reveal(<UpdateSupergroupFullInfo as Wire>::wire);
        assert(tag_of(self.wire()) == Some("updateSupergroupFullInfo"@));
        assert(Self::known("updateSupergroupFullInfo"@));
    }
}

/// Service notification from the server. Upon receiving this the client must show a popup with the
/// content of the notification
#[derive(Debug, Clone, PartialEq)]
pub struct UpdateServiceNotification {
    /// Notification type. If type begins with "AUTH_KEY_DROP_", then two buttons "Cancel" and "Log
    /// out" should be shown under notification; if user presses the second, all local data should
    /// be destroyed using Destroy method
    pub type_: String,
    /// Notification content
    pub content: MessageContent,
}

impl Wire for UpdateServiceNotification {
    #[verifier::opaque]
    open spec fn wire(&self) -> Doc {
        tagged(
            Map::empty()
                .insert("type"@, self.type_.wire())
                .insert("content"@, self.content.wire()),
            "updateServiceNotification"@,
        )
    }

    #[verifier::opaque]
    open spec fn parse(d: Doc, at: Seq<char>) -> Result<Doc, Fault> {
        match d {
            Doc::Object(m) => {
                let type_ = field::<String>(m, "type"@);
                let content = field::<MessageContent>(m, "content"@);
                if type_ is Err {
                    type_
                } else if content is Err {
                    content
                } else {
                    Ok(
                        tagged(
                            Map::empty()
                                .insert("type"@, type_->Ok_0)
                                .insert("content"@, content->Ok_0),
                            "updateServiceNotification"@,
                        ),
                    )
                }
            },
            _ => Err(Fault::TypeMismatch(at)),
        }
    }

    fn encode(&self) -> (j: Json) {
        proof {
            reveal(<UpdateServiceNotification as Wire>::wire);
        }
        let mut members: Vec<Member> = Vec::new();
        put(&mut members, "type", self.type_.encode());
        put(&mut members, "content", self.content.encode());
        seal(members, "updateServiceNotification")
    }

    fn decode(j: &Json, at: &str) -> (r: Result<Self, DecodeError>) {
        proof {
            reveal(<UpdateServiceNotification as Wire>::wire);
            reveal(<UpdateServiceNotification as Wire>::parse);
        }
        let members = members_of(j, at)?;
        let type_ = read_field::<String>(members, "type")?;
        let content = read_field::<MessageContent>(members, "content")?;
        Ok(UpdateServiceNotification { type_, content })
    }

    proof fn round_trip(&self, at: Seq<char>) {
        reveal(<UpdateServiceNotification as Wire>::wire);
        reveal(<UpdateServiceNotification as Wire>::parse);
        reveal_strlit("@type");
        reveal_strlit("content");
        reveal_strlit("type");
        assert("@type"@.len() == 5);
        assert("content"@.len() == 7);
        assert("type"@.len() == 4);
        self.type_.round_trip("type"@);
        self.content.round_trip("content"@);
    }
}

impl Tagged for UpdateServiceNotification {
    open spec fn known(tag: Seq<char>) -> bool {
        tag == "updateServiceNotification"@
    }

    fn knows(tag: &str) -> (r: bool) {
        same_text(tag, "updateServiceNotification")
    }

    proof fn tag_known(&self) {
        reveal(<UpdateServiceNotification as Wire>::wire);
        assert(tag_of(self.wire()) == Some("updateServiceNotification"@));
        assert(Self::known("updateServiceNotification"@));
    }
}

/// Information about a file was updated
#[derive(Debug, Clone, PartialEq)]
pub struct UpdateFile {
    /// New data about the file
    pub file: File,
}

impl Wire for UpdateFile {
    #[verifier::opaque]
    open spec fn wire(&self) -> Doc {
        tagged(
            Map::empty()
                .insert("file"@, self.file.wire()),
            "updateFile"@,
        )
    }

    #[verifier::opaque]
    open spec fn parse(d: Doc, at: Seq<char>) -> Result<Doc, Fault> {
        match d {
            Doc::Object(m) => {
                let file = field::<File>(m, "file"@);
                if file is Err {
                    file
                } else {
                    Ok(
                        tagged(
                            Map::empty()
                                .insert("file"@, file->Ok_0),
                            "updateFile"@,
                        ),
                    )
                }
            },
            _ => Err(Fault::TypeMismatch(at)),
        }
    }

    fn encode(&self) -> (j: Json) {
        proof {
            reveal(<UpdateFile as Wire>::wire);
        }
        let mut members: Vec<Member> = Vec::new();
        put(&mut members, "file", self.file.encode());
        seal(members, "updateFile")
    }

    fn decode(j: &Json, at: &str) -> (r: Result<Self, DecodeError>) {
        proof {
            reveal(<UpdateFile as Wire>::wire);
            reveal(<UpdateFile as Wire>::parse);
        }
        let members = members_of(j, at)?;
        let file = read_field::<File>(members, "file")?;
        Ok(UpdateFile { file })
    }

    proof fn round_trip(&self, at: Seq<char>) {
        reveal(<UpdateFile as Wire>::wire);
        reveal(<UpdateFile as Wire>::parse);
        reveal_strlit("@type");
        reveal_strlit("file");
        assert("@type"@.len() == 5);
        assert("file"@.len() == 4);
        self.file.round_trip("file"@);
    }
}

impl Tagged for UpdateFile {
    open spec fn known(tag: Seq<char>) -> bool {
        tag == "updateFile"@
    }

    fn knows(tag: &str) -> (r: bool) {
        same_text(tag, "updateFile")
    }

    proof fn tag_known(&self) {
        reveal(<UpdateFile as Wire>::wire);
        assert(tag_of(self.wire()) == Some("updateFile"@));
        assert(Self::known("updateFile"@));
    }
}

/// The file generation process needs to be started by the client
#[derive(Debug, Clone, PartialEq)]
pub struct UpdateFileGenerationStart {
    /// Unique identifier for the generation process
    pub generation_id: i64,
    /// The path to a file from which a new file is generated; may be empty
    pub original_path: String,
    /// The path to a file that should be created and where the new file should be generated
    pub destination_path: String,
    /// String specifying the conversion applied to the original file. If conversion is "#url#" than
    /// original_path contains an HTTP/HTTPS URL of a file, which should be downloaded by the client
    pub conversion: String,
}

impl Wire for UpdateFileGenerationStart {
    #[verifier::opaque]
    open spec fn wire(&self) -> Doc {
        tagged(
            Map::empty()
                .insert("generationId"@, wide_doc(self.generation_id))
                .insert("originalPath"@, self.original_path.wire())
                .insert("destinationPath"@, self.destination_path.wire())
                .insert("conversion"@, self.conversion.wire()),
            "updateFileGenerationStart"@,
        )
    }

    #[verifier::opaque]
    open spec fn parse(d: Doc, at: Seq<char>) -> Result<Doc, Fault> {
        match d {
            Doc::Object(m) => {
                let generation_id = wide_field(m, "generationId"@);
                let original_path = field::<String>(m, "originalPath"@);
                let destination_path = field::<String>(m, "destinationPath"@);
                let conversion = field::<String>(m, "conversion"@);
                if generation_id is Err {
                    generation_id
                } else if original_path is Err {
                    original_path
                } else if destination_path is Err {
                    destination_path
                } else if conversion is Err {
                    conversion
                } else {
                    Ok(
                        tagged(
                            Map::empty()
                                .insert("generationId"@, generation_id->Ok_0)
                                .insert("originalPath"@, original_path->Ok_0)
                                .insert("destinationPath"@, destination_path->Ok_0)
                                .insert("conversion"@, conversion->Ok_0),
                            "updateFileGenerationStart"@,
                        ),
                    )
                }
            },
            _ => Err(Fault::TypeMismatch(at)),
        }
    }

    fn encode(&self) -> (j: Json) {
        proof {
            reveal(<UpdateFileGenerationStart as Wire>::wire);
        }
        let mut members: Vec<Member> = Vec::new();
        put(&mut members, "generationId", encode_wide(self.generation_id));
        put(&mut members, "originalPath", self.original_path.encode());
        put(&mut members, "destinationPath", self.destination_path.encode());
        put(&mut members, "conversion", self.conversion.encode());
        seal(members, "updateFileGenerationStart")
    }

    fn decode(j: &Json, at: &str) -> (r: Result<Self, DecodeError>) {
        proof {
            reveal(<UpdateFileGenerationStart as Wire>::wire);
            reveal(<UpdateFileGenerationStart as Wire>::parse);
        }
        let members = members_of(j, at)?;
        let generation_id = read_wide(members, "generationId")?;
        let original_path = read_field::<String>(members, "originalPath")?;
        let destination_path = read_field::<String>(members, "destinationPath")?;
        let conversion = read_field::<String>(members, "conversion")?;
        Ok(UpdateFileGenerationStart { generation_id, original_path, destination_path, conversion })
    }

    proof fn round_trip(&self, at: Seq<char>) {
        reveal(<UpdateFileGenerationStart as Wire>::wire);
        reveal(<UpdateFileGenerationStart as Wire>::parse);
        reveal_strlit("@type");
        reveal_strlit("conversion");
        reveal_strlit("destinationPath");
        reveal_strlit("generationId");
        reveal_strlit("originalPath");
        assert("@type"@.len() == 5);
        assert("conversion"@.len() == 10);
        assert("destinationPath"@.len() == 15);
        assert("generationId"@.len() == 12 && "generationId"@[0] == 'g');
        assert("originalPath"@.len() == 12 && "originalPath"@[0] == 'o');
        lemma_wide_round_trip(self.generation_id, "generationId"@);
        self.original_path.round_trip("originalPath"@);
        self.destination_path.round_trip("destinationPath"@);
        self.conversion.round_trip("conversion"@);
    }
}

impl Tagged for UpdateFileGenerationStart {
    open spec fn known(tag: Seq<char>) -> bool {
        tag == "updateFileGenerationStart"@
    }

    fn knows(tag: &str) -> (r: bool) {
        same_text(tag, "updateFileGenerationStart")
    }

    proof fn tag_known(&self) {
        reveal(<UpdateFileGenerationStart as Wire>::wire);
        assert(tag_of(self.wire()) == Some("updateFileGenerationStart"@));
        assert(Self::known("updateFileGenerationStart"@));
    }
}

/// File generation is no longer needed
#[derive(Debug, Clone, PartialEq)]
pub struct UpdateFileGenerationStop {
    /// Unique identifier for the generation process
    pub generation_id: i64,
}

impl Wire for UpdateFileGenerationStop {
    #[verifier::opaque]
    open spec fn wire(&self) -> Doc {
        tagged(
            Map::empty()
                .insert("generationId"@, wide_doc(self.generation_id)),
            "updateFileGenerationStop"@,
        )
    }

    #[verifier::opaque]
    open spec fn parse(d: Doc, at: Seq<char>) -> Result<Doc, Fault> {
        match d {
            Doc::Object(m) => {
                let generation_id = wide_field(m, "generationId"@);
                if generation_id is Err {
                    generation_id
                } else {
                    Ok(
                        tagged(
                            Map::empty()
                                .insert("generationId"@, generation_id->Ok_0),
                            "updateFileGenerationStop"@,
                        ),
                    )
                }
            },
            _ => Err(Fault::TypeMismatch(at)),
        }
    }

    fn encode(&self) -> (j: Json) {
        proof {
            reveal(<UpdateFileGenerationStop as Wire>::wire);
        }
        let mut members: Vec<Member> = Vec::new();
        put(&mut members, "generationId", encode_wide(self.generation_id));
        seal(members, "updateFileGenerationStop")
    }

    fn decode(j: &Json, at: &str) -> (r: Result<Self, DecodeError>) {
        proof {
            reveal(<UpdateFileGenerationStop as Wire>::wire);
            reveal(<UpdateFileGenerationStop as Wire>::parse);
        }
        let members = members_of(j, at)?;
        let generation_id = read_wide(members, "generationId")?;
        Ok(UpdateFileGenerationStop { generation_id })
    }

    proof fn round_trip(&self, at: Seq<char>) {
        reveal(<UpdateFileGenerationStop as Wire>::wire);
        reveal(<UpdateFileGenerationStop as Wire>::parse);
        reveal_strlit("@type");
        reveal_strlit("generationId");
        assert("@type"@.len() == 5);
        assert("generationId"@.len() == 12);
        lemma_wide_round_trip(self.generation_id, "generationId"@);
    }
}

impl Tagged for UpdateFileGenerationStop {
    open spec fn known(tag: Seq<char>) -> bool {
        tag == "updateFileGenerationStop"@
    }

    fn knows(tag: &str) -> (r: bool) {
        same_text(tag, "updateFileGenerationStop")
    }

    proof fn tag_known(&self) {
        reveal(<UpdateFileGenerationStop as Wire>::wire);
        assert(tag_of(self.wire()) == Some("updateFileGenerationStop"@));
        assert(Self::known("updateFileGenerationStop"@));
    }
}

/// New call was created or information about a call was updated
#[derive(Debug, Clone, PartialEq)]
pub struct UpdateCall {
    /// New data about a call
    pub call: Call,
}

impl Wire for UpdateCall {
    #[verifier::opaque]
    open spec fn wire(&self) -> Doc {
        tagged(
            Map::empty()
                .insert("call"@, self.call.wire()),
            "updateCall"@,
        )
    }

    #[verifier::opaque]
    open spec fn parse(d: Doc, at: Seq<char>) -> Result<Doc, Fault> {
        match d {
            Doc::Object(m) => {
                let call = field::<Call>(m, "call"@);
                if call is Err {
                    call
                } else {
                    Ok(
                        tagged(
                            Map::empty()
                                .insert("call"@, call->Ok_0),
                            "updateCall"@,
                        ),
                    )
                }
            },
            _ => Err(Fault::TypeMismatch(at)),
        }
    }

    fn encode(&self) -> (j: Json) {
        proof {
            reveal(<UpdateCall as Wire>::wire);
        }
        let mut members: Vec<Member> = Vec::new();
        put(&mut members, "call", self.call.encode());
        seal(members, "updateCall")
    }

    fn decode(j: &Json, at: &str) -> (r: Result<Self, DecodeError>) {
        proof {
            reveal(<UpdateCall as Wire>::wire);
            reveal(<UpdateCall as Wire>::parse);
        }
        let members = members_of(j, at)?;
        let call = read_field::<Call>(members, "call")?;
        Ok(UpdateCall { call })
    }

    proof fn round_trip(&self, at: Seq<char>) {
        reveal(<UpdateCall as Wire>::wire);
        reveal(<UpdateCall as Wire>::parse);
        reveal_strlit("@type");
        reveal_strlit("call");
        assert("@type"@.len() == 5);
        assert("call"@.len() == 4);
        self.call.round_trip("call"@);
    }
}

impl Tagged for UpdateCall {
    open spec fn known(tag: Seq<char>) -> bool {
        tag == "updateCall"@
    }

    fn knows(tag: &str) -> (r: bool) {
        same_text(tag, "updateCall")
    }

    proof fn tag_known(&self) {
        reveal(<UpdateCall as Wire>::wire);
        assert(tag_of(self.wire()) == Some("updateCall"@));
        assert(Self::known("updateCall"@));
    }
}

/// Some privacy setting rules have been changed
#[derive(Debug, Clone, PartialEq)]
pub struct UpdateUserPrivacySettingRules {
    /// The privacy setting
    pub setting: UserPrivacySetting,
    /// New privacy rules
    pub rules: UserPrivacySettingRules,
}

impl Wire for UpdateUserPrivacySettingRules {
    #[verifier::opaque]
    open spec fn wire(&self) -> Doc {
        tagged(
            Map::empty()
                .insert("setting"@, self.setting.wire())
                .insert("rules"@, self.rules.wire()),
            "updateUserPrivacySettingRules"@,
        )
    }

    #[verifier::opaque]
    open spec fn parse(d: Doc, at: Seq<char>) -> Result<Doc, Fault> {
        match d {
            Doc::Object(m) => {
                let setting = field::<UserPrivacySetting>(m, "setting"@);
                let rules = field::<UserPrivacySettingRules>(m, "rules"@);
                if setting is Err {
                    setting
                } else if rules is Err {
                    rules
                } else {
                    Ok(
                        tagged(
                            Map::empty()
                                .insert("setting"@, setting->Ok_0)
                                .insert("rules"@, rules->Ok_0),
                            "updateUserPrivacySettingRules"@,
                        ),
                    )
                }
            },
            _ => Err(Fault::TypeMismatch(at)),
        }
    }

    fn encode(&self) -> (j: Json) {
        proof {
            reveal(<UpdateUserPrivacySettingRules as Wire>::wire);
        }
        let mut members: Vec<Member> = Vec::new();
        put(&mut members, "setting", self.setting.encode());
        put(&mut members, "rules", self.rules.encode());
        seal(members, "updateUserPrivacySettingRules")
    }

    fn decode(j: &Json, at: &str) -> (r: Result<Self, DecodeError>) {
        proof {
            reveal(<UpdateUserPrivacySettingRules as Wire>::wire);
            reveal(<UpdateUserPrivacySettingRules as Wire>::parse);
        }
        let members = members_of(j, at)?;
        let setting = read_field::<UserPrivacySetting>(members, "setting")?;
        let rules = read_field::<UserPrivacySettingRules>(members, "rules")?;
        Ok(UpdateUserPrivacySettingRules { setting, rules })
    }

    proof fn round_trip(&self, at: Seq<char>) {
        reveal(<UpdateUserPrivacySettingRules as Wire>::wire);
        reveal(<UpdateUserPrivacySettingRules as Wire>::parse);
        reveal_strlit("@type");
        reveal_strlit("rules");
        reveal_strlit("setting");
        assert("@type"@.len() == 5 && "@type"@[0] == '@');
        assert("rules"@.len() == 5 && "rules"@[0] == 'r');
        assert("setting"@.len() == 7);
        self.setting.round_trip("setting"@);
        self.rules.round_trip("rules"@);
    }
}

impl Tagged for UpdateUserPrivacySettingRules {
    open spec fn known(tag: Seq<char>) -> bool {
        tag == "updateUserPrivacySettingRules"@
    }

    fn knows(tag: &str) -> (r: bool) {
        same_text(tag, "updateUserPrivacySettingRules")
    }

    proof fn tag_known(&self) {
        reveal(<UpdateUserPrivacySettingRules as Wire>::wire);
        assert(tag_of(self.wire()) == Some("updateUserPrivacySettingRules"@));
        assert(Self::known("updateUserPrivacySettingRules"@));
    }
}

/// Number of unread messages in a chat list has changed. This update is sent only if the message
/// database is used
#[derive(Debug, Clone, PartialEq)]
pub struct UpdateUnreadMessageCount {
    /// The chat list with changed number of unread messages
    pub chat_list: ChatList,
    /// Total number of unread messages
    pub unread_count: i32,
    /// Total number of unread messages in unmuted chats
    pub unread_unmuted_count: i32,
}

impl Wire for UpdateUnreadMessageCount {
    #[verifier::opaque]
    open spec fn wire(&self) -> Doc {
        tagged(
            Map::empty()
                .insert("chatList"@, self.chat_list.wire())
                .insert("unreadCount"@, self.unread_count.wire())
                .insert("unreadUnmutedCount"@, self.unread_unmuted_count.wire()),
            "updateUnreadMessageCount"@,
        )
    }

    #[verifier::opaque]
    open spec fn parse(d: Doc, at: Seq<char>) -> Result<Doc, Fault> {
        match d {
            Doc::Object(m) => {
                let chat_list = field::<ChatList>(m, "chatList"@);
                let unread_count = field::<i32>(m, "unreadCount"@);
                let unread_unmuted_count = field::<i32>(m, "unreadUnmutedCount"@);
                if chat_list is Err {
                    chat_list
                } else if unread_count is Err {
                    unread_count
                } else if unread_unmuted_count is Err {
                    unread_unmuted_count
                } else {
                    Ok(
                        tagged(
                            Map::empty()
                                .insert("chatList"@, chat_list->Ok_0)
                                .insert("unreadCount"@, unread_count->Ok_0)
                                .insert("unreadUnmutedCount"@, unread_unmuted_count->Ok_0),
                            "updateUnreadMessageCount"@,
                        ),
                    )
                }
            },
            _ => Err(Fault::TypeMismatch(at)),
        }
    }

    fn encode(&self) -> (j: Json) {
        proof {
            reveal(<UpdateUnreadMessageCount as Wire>::wire);
        }
        let mut members: Vec<Member> = Vec::new();
        put(&mut members, "chatList", self.chat_list.encode());
        put(&mut members, "unreadCount", self.unread_count.encode());
        put(&mut members, "unreadUnmutedCount", self.unread_unmuted_count.encode());
        seal(members, "updateUnreadMessageCount")
    }

    fn decode(j: &Json, at: &str) -> (r: Result<Self, DecodeError>) {
        proof {
            reveal(<UpdateUnreadMessageCount as Wire>::wire);
            reveal(<UpdateUnreadMessageCount as Wire>::parse);
        }
        let members = members_of(j, at)?;
        let chat_list = read_field::<ChatList>(members, "chatList")?;
        let unread_count = read_field::<i32>(members, "unreadCount")?;
        let unread_unmuted_count = read_field::<i32>(members, "unreadUnmutedCount")?;
        Ok(UpdateUnreadMessageCount { chat_list, unread_count, unread_unmuted_count })
    }

    proof fn round_trip(&self, at: Seq<char>) {
        reveal(<UpdateUnreadMessageCount as Wire>::wire);
        reveal(<UpdateUnreadMessageCount as Wire>::parse);
        reveal_strlit("@type");
        reveal_strlit("chatList");
        reveal_strlit("unreadCount");
        reveal_strlit("unreadUnmutedCount");
        assert("@type"@.len() == 5);
        assert("chatList"@.len() == 8);
        assert("unreadCount"@.len() == 11);
        assert("unreadUnmutedCount"@.len() == 18);
        self.chat_list.round_trip("chatList"@);
        self.unread_count.round_trip("unreadCount"@);
        self.unread_unmuted_count.round_trip("unreadUnmutedCount"@);
    }
}

impl Tagged for UpdateUnreadMessageCount {
    open spec fn known(tag: Seq<char>) -> bool {
        tag == "updateUnreadMessageCount"@
    }

    fn knows(tag: &str) -> (r: bool) {
        same_text(tag, "updateUnreadMessageCount")
    }

    proof fn tag_known(&self) {
        reveal(<UpdateUnreadMessageCount as Wire>::wire);
        assert(tag_of(self.wire()) == Some("updateUnreadMessageCount"@));
        assert(Self::known("updateUnreadMessageCount"@));
    }
}

/// Number of unread chats, i.e. with unread messages or marked as unread, has changed. This update
/// is sent only if the message database is used
#[derive(Debug, Clone, PartialEq)]
pub struct UpdateUnreadChatCount {
    /// The chat list with changed number of unread messages
    pub chat_list: ChatList,
    /// Approximate total number of chats in the chat list
    pub total_count: i32,
    /// Total number of unread chats
    pub unread_count: i32,
    /// Total number of unread unmuted chats
    pub unread_unmuted_count: i32,
    /// Total number of chats marked as unread
    pub marked_as_unread_count: i32,
    /// Total number of unmuted chats marked as unread
    pub marked_as_unread_unmuted_count: i32,
}

impl Wire for UpdateUnreadChatCount {
    #[verifier::opaque]
    open spec fn wire(&self) -> Doc {
        tagged(
            Map::empty()
                .insert("chatList"@, self.chat_list.wire())
                .insert("totalCount"@, self.total_count.wire())
                .insert("unreadCount"@, self.unread_count.wire())
                .insert("unreadUnmutedCount"@, self.unread_unmuted_count.wire())
                .insert("markedAsUnreadCount"@, self.marked_as_unread_count.wire())
                .insert("markedAsUnreadUnmutedCount"@, self.marked_as_unread_unmuted_count.wire()),
            "updateUnreadChatCount"@,
        )
    }

    #[verifier::opaque]
    open spec fn parse(d: Doc, at: Seq<char>) -> Result<Doc, Fault> {
        match d {
            Doc::Object(m) => {
                let chat_list = field::<ChatList>(m, "chatList"@);
                let total_count = field::<i32>(m, "totalCount"@);
                let unread_count = field::<i32>(m, "unreadCount"@);
                let unread_unmuted_count = field::<i32>(m, "unreadUnmutedCount"@);
                let marked_as_unread_count = field::<i32>(m, "markedAsUnreadCount"@);
                let marked_as_unread_unmuted_count = field::<i32>(m, "markedAsUnreadUnmutedCount"@);
                if chat_list is Err {
                    chat_list
                } else if total_count is Err {
                    total_count
                } else if unread_count is Err {
                    unread_count
                } else if unread_unmuted_count is Err {
                    unread_unmuted_count
                } else if marked_as_unread_count is Err {
                    marked_as_unread_count
                } else if marked_as_unread_unmuted_count is Err {
                    marked_as_unread_unmuted_count
                } else {
                    Ok(
                        tagged(
                            Map::empty()
                                .insert("chatList"@, chat_list->Ok_0)
                                .insert("totalCount"@, total_count->Ok_0)
                                .insert("unreadCount"@, unread_count->Ok_0)
                                .insert("unreadUnmutedCount"@, unread_unmuted_count->Ok_0)
                                .insert("markedAsUnreadCount"@, marked_as_unread_count->Ok_0)
                                .insert(
                                    "markedAsUnreadUnmutedCount"@,
                                    marked_as_unread_unmuted_count->Ok_0,
                                ),
                            "updateUnreadChatCount"@,
                        ),
                    )
                }
            },
            _ => Err(Fault::TypeMismatch(at)),
        }
    }

    fn encode(&self) -> (j: Json) {
        proof {
            reveal(<UpdateUnreadChatCount as Wire>::wire);
        }
        let mut members: Vec<Member> = Vec::new();
        put(&mut members, "chatList", self.chat_list.encode());
        put(&mut members, "totalCount", self.total_count.encode());
        put(&mut members, "unreadCount", self.unread_count.encode());
        put(&mut members, "unreadUnmutedCount", self.unread_unmuted_count.encode());
        put(&mut members, "markedAsUnreadCount", self.marked_as_unread_count.encode());
        put(
            &mut members,
            "markedAsUnreadUnmutedCount",
            self.marked_as_unread_unmuted_count.encode(),
        );
        seal(members, "updateUnreadChatCount")
    }

    fn decode(j: &Json, at: &str) -> (r: Result<Self, DecodeError>) {
        proof {
            reveal(<UpdateUnreadChatCount as Wire>::wire);
            reveal(<UpdateUnreadChatCount as Wire>::parse);
        }
        let members = members_of(j, at)?;
        let chat_list = read_field::<ChatList>(members, "chatList")?;
        let total_count = read_field::<i32>(members, "totalCount")?;
        let unread_count = read_field::<i32>(members, "unreadCount")?;
        let unread_unmuted_count = read_field::<i32>(members, "unreadUnmutedCount")?;
        let marked_as_unread_count = read_field::<i32>(members, "markedAsUnreadCount")?;
        let marked_as_unread_unmuted_count = read_field::<i32>(
            members,
            "markedAsUnreadUnmutedCount",
        )?;
        Ok(UpdateUnreadChatCount {
            chat_list,
            total_count,
            unread_count,
            unread_unmuted_count,
            marked_as_unread_count,
            marked_as_unread_unmuted_count,
        })
    }

    proof fn round_trip(&self, at: Seq<char>) {
        reveal(<UpdateUnreadChatCount as Wire>::wire);
        reveal(<UpdateUnreadChatCount as Wire>::parse);
        reveal_strlit("@type");
        reveal_strlit("chatList");
        reveal_strlit("markedAsUnreadCount");
        reveal_strlit("markedAsUnreadUnmutedCount");
        reveal_strlit("totalCount");
        reveal_strlit("unreadCount");
        reveal_strlit("unreadUnmutedCount");
        assert("@type"@.len() == 5);
        assert("chatList"@.len() == 8);
        assert("markedAsUnreadCount"@.len() == 19);
        assert("markedAsUnreadUnmutedCount"@.len() == 26);
        assert("totalCount"@.len() == 10);
        assert("unreadCount"@.len() == 11);
        assert("unreadUnmutedCount"@.len() == 18);
        self.chat_list.round_trip("chatList"@);
        self.total_count.round_trip("totalCount"@);
        self.unread_count.round_trip("unreadCount"@);
        self.unread_unmuted_count.round_trip("unreadUnmutedCount"@);
        self.marked_as_unread_count.round_trip("markedAsUnreadCount"@);
        self.marked_as_unread_unmuted_count.round_trip("markedAsUnreadUnmutedCount"@);
    }
}

impl Tagged for UpdateUnreadChatCount {
    open spec fn known(tag: Seq<char>) -> bool {
        tag == "updateUnreadChatCount"@
    }

    fn knows(tag: &str) -> (r: bool) {
        same_text(tag, "updateUnreadChatCount")
    }

    proof fn tag_known(&self) {
        reveal(<UpdateUnreadChatCount as Wire>::wire);
        assert(tag_of(self.wire()) == Some("updateUnreadChatCount"@));
        assert(Self::known("updateUnreadChatCount"@));
    }
}

/// An option changed its value
#[derive(Debug, Clone, PartialEq)]
pub struct UpdateOption {
    /// The option name
    pub name: String,
    /// The new option value
    pub value: OptionValue,
}

impl Wire for UpdateOption {
    #[verifier::opaque]
    open spec fn wire(&self) -> Doc {
        tagged(
            Map::empty()
                .insert("name"@, self.name.wire())
                .insert("value"@, self.value.wire()),
            "updateOption"@,
        )
    }

    #[verifier::opaque]
    open spec fn parse(d: Doc, at: Seq<char>) -> Result<Doc, Fault> {
        match d {
            Doc::Object(m) => {
                let name = field::<String>(m, "name"@);
                let value = field::<OptionValue>(m, "value"@);
                if name is Err {
                    name
                } else if value is Err {
                    value
                } else {
                    Ok(
                        tagged(
                            Map::empty()
                                .insert("name"@, name->Ok_0)
                                .insert("value"@, value->Ok_0),
                            "updateOption"@,
                        ),
                    )
                }
            },
            _ => Err(Fault::TypeMismatch(at)),
        }
    }

    fn encode(&self) -> (j: Json) {
        proof {
            reveal(<UpdateOption as Wire>::wire);
        }
        let mut members: Vec<Member> = Vec::new();
        put(&mut members, "name", self.name.encode());
        put(&mut members, "value", self.value.encode());
        seal(members, "updateOption")
    }

    fn decode(j: &Json, at: &str) -> (r: Result<Self, DecodeError>) {
        proof {
            reveal(<UpdateOption as Wire>::wire);
            reveal(<UpdateOption as Wire>::parse);
        }
        let members = members_of(j, at)?;
        let name = read_field::<String>(members, "name")?;
        let value = read_field::<OptionValue>(members, "value")?;
        Ok(UpdateOption { name, value })
    }

    proof fn round_trip(&self, at: Seq<char>) {
        reveal(<UpdateOption as Wire>::wire);
        reveal(<UpdateOption as Wire>::parse);
        reveal_strlit("@type");
        reveal_strlit("name");
        reveal_strlit("value");
        assert("@type"@.len() == 5 && "@type"@[0] == '@');
        assert("name"@.len() == 4);
        assert("value"@.len() == 5 && "value"@[0] == 'v');
        self.name.round_trip("name"@);
        self.value.round_trip("value"@);
    }
}

impl Tagged for UpdateOption {
    open spec fn known(tag: Seq<char>) -> bool {
        tag == "updateOption"@
    }

    fn knows(tag: &str) -> (r: bool) {
        same_text(tag, "updateOption")
    }

    proof fn tag_known(&self) {
        reveal(<UpdateOption as Wire>::wire);
        assert(tag_of(self.wire()) == Some("updateOption"@));
        assert(Self::known("updateOption"@));
    }
}

/// The list of installed sticker sets was updated
#[derive(Debug, Clone, PartialEq)]
pub struct UpdateInstalledStickerSets {
    /// True, if the list of installed mask sticker sets was updated
    pub is_masks: bool,
    /// The new list of installed ordinary sticker sets
    pub sticker_set_ids: Vec<i64>,
}

impl Wire for UpdateInstalledStickerSets {
    #[verifier::opaque]
    open spec fn wire(&self) -> Doc {
        tagged(
            Map::empty()
                .insert("isMasks"@, self.is_masks.wire())
                .insert("stickerSetIds"@, self.sticker_set_ids.wire()),
            "updateInstalledStickerSets"@,
        )
    }

    #[verifier::opaque]
    open spec fn parse(d: Doc, at: Seq<char>) -> Result<Doc, Fault> {
        match d {
            Doc::Object(m) => {
                let is_masks = field::<bool>(m, "isMasks"@);
                let sticker_set_ids = field::<Vec<i64>>(m, "stickerSetIds"@);
                if is_masks is Err {
                    is_masks
                } else if sticker_set_ids is Err {
                    sticker_set_ids
                } else {
                    Ok(
                        tagged(
                            Map::empty()
                                .insert("isMasks"@, is_masks->Ok_0)
                                .insert("stickerSetIds"@, sticker_set_ids->Ok_0),
                            "updateInstalledStickerSets"@,
                        ),
                    )
                }
            },
            _ => Err(Fault::TypeMismatch(at)),
        }
    }

    fn encode(&self) -> (j: Json) {
        proof {
            reveal(<UpdateInstalledStickerSets as Wire>::wire);
        }
        let mut members: Vec<Member> = Vec::new();
        put(&mut members, "isMasks", self.is_masks.encode());
        put(&mut members, "stickerSetIds", self.sticker_set_ids.encode());
        seal(members, "updateInstalledStickerSets")
    }

    fn decode(j: &Json, at: &str) -> (r: Result<Self, DecodeError>) {
        proof {
            reveal(<UpdateInstalledStickerSets as Wire>::wire);
            reveal(<UpdateInstalledStickerSets as Wire>::parse);
        }
        let members = members_of(j, at)?;
        let is_masks = read_field::<bool>(members, "isMasks")?;
        let sticker_set_ids = read_field::<Vec<i64>>(members, "stickerSetIds")?;
        Ok(UpdateInstalledStickerSets { is_masks, sticker_set_ids })
    }

    proof fn round_trip(&self, at: Seq<char>) {
        reveal(<UpdateInstalledStickerSets as Wire>::wire);
        reveal(<UpdateInstalledStickerSets as Wire>::parse);
        reveal_strlit("@type");
        reveal_strlit("isMasks");
        reveal_strlit("stickerSetIds");
        assert("@type"@.len() == 5);
        assert("isMasks"@.len() == 7);
        assert("stickerSetIds"@.len() == 13);
        self.is_masks.round_trip("isMasks"@);
        self.sticker_set_ids.round_trip("stickerSetIds"@);
    }
}

impl Tagged for UpdateInstalledStickerSets {
    open spec fn known(tag: Seq<char>) -> bool {
        tag == "updateInstalledStickerSets"@
    }

    fn knows(tag: &str) -> (r: bool) {
        same_text(tag, "updateInstalledStickerSets")
    }

    proof fn tag_known(&self) {
        reveal(<UpdateInstalledStickerSets as Wire>::wire);
        assert(tag_of(self.wire()) == Some("updateInstalledStickerSets"@));
        assert(Self::known("updateInstalledStickerSets"@));
    }
}

/// The list of trending sticker sets was updated or some of them were viewed
#[derive(Debug, Clone, PartialEq)]
pub struct UpdateTrendingStickerSets {
    /// The new list of trending sticker sets
    pub sticker_sets: StickerSets,
}

impl Wire for UpdateTrendingStickerSets {
    #[verifier::opaque]
    open spec fn wire(&self) -> Doc {
        tagged(
            Map::empty()
                .insert("stickerSets"@, self.sticker_sets.wire()),
            "updateTrendingStickerSets"@,
        )
    }

    #[verifier::opaque]
    open spec fn parse(d: Doc, at: Seq<char>) -> Result<Doc, Fault> {
        match d {
            Doc::Object(m) => {
                let sticker_sets = field::<StickerSets>(m, "stickerSets"@);
                if sticker_sets is Err {
                    sticker_sets
                } else {
                    Ok(
                        tagged(
                            Map::empty()
                                .insert("stickerSets"@, sticker_sets->Ok_0),
                            "updateTrendingStickerSets"@,
                        ),
                    )
                }
            },
            _ => Err(Fault::TypeMismatch(at)),
        }
    }

    fn encode(&self) -> (j: Json) {
        proof {
            reveal(<UpdateTrendingStickerSets as Wire>::wire);
        }
        let mut members: Vec<Member> = Vec::new();
        put(&mut members, "stickerSets", self.sticker_sets.encode());
        seal(members, "updateTrendingStickerSets")
    }

    fn decode(j: &Json, at: &str) -> (r: Result<Self, DecodeError>) {
        proof {
            reveal(<UpdateTrendingStickerSets as Wire>::wire);
            reveal(<UpdateTrendingStickerSets as Wire>::parse);
        }
        let members = members_of(j, at)?;
        let sticker_sets = read_field::<StickerSets>(members, "stickerSets")?;
        Ok(UpdateTrendingStickerSets { sticker_sets })
    }

    proof fn round_trip(&self, at: Seq<char>) {
        reveal(<UpdateTrendingStickerSets as Wire>::wire);
        reveal(<UpdateTrendingStickerSets as Wire>::parse);
        reveal_strlit("@type");
        reveal_strlit("stickerSets");
        assert("@type"@.len() == 5);
        assert("stickerSets"@.len() == 11);
        self.sticker_sets.round_trip("stickerSets"@);
    }
}

impl Tagged for UpdateTrendingStickerSets {
    open spec fn known(tag: Seq<char>) -> bool {
        tag == "updateTrendingStickerSets"@
    }

    fn knows(tag: &str) -> (r: bool) {
        same_text(tag, "updateTrendingStickerSets")
    }

    proof fn tag_known(&self) {
        reveal(<UpdateTrendingStickerSets as Wire>::wire);
        assert(tag_of(self.wire()) == Some("updateTrendingStickerSets"@));
        assert(Self::known("updateTrendingStickerSets"@));
    }
}

/// The list of recently used stickers was updated
#[derive(Debug, Clone, PartialEq)]
pub struct UpdateRecentStickers {
    /// True, if the list of stickers attached to photo or video files was updated, otherwise the
    /// list of sent stickers is updated
    pub is_attached: bool,
    /// The new list of file identifiers of recently used stickers
    pub sticker_ids: Vec<i32>,
}

impl Wire for UpdateRecentStickers {
    #[verifier::opaque]
    open spec fn wire(&self) -> Doc {
        tagged(
            Map::empty()
                .insert("isAttached"@, self.is_attached.wire())
                .insert("stickerIds"@, self.sticker_ids.wire()),
            "updateRecentStickers"@,
        )
    }

    #[verifier::opaque]
    open spec fn parse(d: Doc, at: Seq<char>) -> Result<Doc, Fault> {
        match d {
            Doc::Object(m) => {
                let is_attached = field::<bool>(m, "isAttached"@);
                let sticker_ids = field::<Vec<i32>>(m, "stickerIds"@);
                if is_attached is Err {
                    is_attached
                } else if sticker_ids is Err {
                    sticker_ids
                } else {
                    Ok(
                        tagged(
                            Map::empty()
                                .insert("isAttached"@, is_attached->Ok_0)
                                .insert("stickerIds"@, sticker_ids->Ok_0),
                            "updateRecentStickers"@,
                        ),
                    )
                }
            },
            _ => Err(Fault::TypeMismatch(at)),
        }
    }

    fn encode(&self) -> (j: Json) {
        proof {
            reveal(<UpdateRecentStickers as Wire>::wire);
        }
        let mut members: Vec<Member> = Vec::new();
        put(&mut members, "isAttached", self.is_attached.encode());
        put(&mut members, "stickerIds", self.sticker_ids.encode());
        seal(members, "updateRecentStickers")
    }

    fn decode(j: &Json, at: &str) -> (r: Result<Self, DecodeError>) {
        proof {
            reveal(<UpdateRecentStickers as Wire>::wire);
            reveal(<UpdateRecentStickers as Wire>::parse);
        }
        let members = members_of(j, at)?;
        let is_attached = read_field::<bool>(members, "isAttached")?;
        let sticker_ids = read_field::<Vec<i32>>(members, "stickerIds")?;
        Ok(UpdateRecentStickers { is_attached, sticker_ids })
    }

    proof fn round_trip(&self, at: Seq<char>) {
        reveal(<UpdateRecentStickers as Wire>::wire);
        reveal(<UpdateRecentStickers as Wire>::parse);
        reveal_strlit("@type");
        reveal_strlit("isAttached");
        reveal_strlit("stickerIds");
        assert("@type"@.len() == 5);
        assert("isAttached"@.len() == 10 && "isAttached"@[0] == 'i');
        assert("stickerIds"@.len() == 10 && "stickerIds"@[0] == 's');
        self.is_attached.round_trip("isAttached"@);
        self.sticker_ids.round_trip("stickerIds"@);
    }
}

impl Tagged for UpdateRecentStickers {
    open spec fn known(tag: Seq<char>) -> bool {
        tag == "updateRecentStickers"@
    }

    fn knows(tag: &str) -> (r: bool) {
        same_text(tag, "updateRecentStickers")
    }

    proof fn tag_known(&self) {
        reveal(<UpdateRecentStickers as Wire>::wire);
        assert(tag_of(self.wire()) == Some("updateRecentStickers"@));
        assert(Self::known("updateRecentStickers"@));
    }
}

/// The list of favorite stickers was updated
#[derive(Debug, Clone, PartialEq)]
pub struct UpdateFavoriteStickers {
    /// The new list of file identifiers of favorite stickers
    pub sticker_ids: Vec<i32>,
}

impl Wire for UpdateFavoriteStickers {
    #[verifier::opaque]
    open spec fn wire(&self) -> Doc {
        tagged(
            Map::empty()
                .insert("stickerIds"@, self.sticker_ids.wire()),
            "updateFavoriteStickers"@,
        )
    }

    #[verifier::opaque]
    open spec fn parse(d: Doc, at: Seq<char>) -> Result<Doc, Fault> {
        match d {
            Doc::Object(m) => {
                let sticker_ids = field::<Vec<i32>>(m, "stickerIds"@);
                if sticker_ids is Err {
                    sticker_ids
                } else {
                    Ok(
                        tagged(
                            Map::empty()
                                .insert("stickerIds"@, sticker_ids->Ok_0),
                            "updateFavoriteStickers"@,
                        ),
                    )
                }
            },
            _ => Err(Fault::TypeMismatch(at)),
        }
    }

    fn encode(&self) -> (j: Json) {
        proof {
            reveal(<UpdateFavoriteStickers as Wire>::wire);
        }
        let mut members: Vec<Member> = Vec::new();
        put(&mut members, "stickerIds", self.sticker_ids.encode());
        seal(members, "updateFavoriteStickers")
    }

    fn decode(j: &Json, at: &str) -> (r: Result<Self, DecodeError>) {
        proof {
            reveal(<UpdateFavoriteStickers as Wire>::wire);
            reveal(<UpdateFavoriteStickers as Wire>::parse);
        }
        let members = members_of(j, at)?;
        let sticker_ids = read_field::<Vec<i32>>(members, "stickerIds")?;
        Ok(UpdateFavoriteStickers { sticker_ids })
    }

    proof fn round_trip(&self, at: Seq<char>) {
        reveal(<UpdateFavoriteStickers as Wire>::wire);
        reveal(<UpdateFavoriteStickers as Wire>::parse);
        reveal_strlit("@type");
        reveal_strlit("stickerIds");
        assert("@type"@.len() == 5);
        assert("stickerIds"@.len() == 10);
        self.sticker_ids.round_trip("stickerIds"@);
    }
}

impl Tagged for UpdateFavoriteStickers {
    open spec fn known(tag: Seq<char>) -> bool {
        tag == "updateFavoriteStickers"@
    }

    fn knows(tag: &str) -> (r: bool) {
        same_text(tag, "updateFavoriteStickers")
    }

    proof fn tag_known(&self) {
        reveal(<UpdateFavoriteStickers as Wire>::wire);
        assert(tag_of(self.wire()) == Some("updateFavoriteStickers"@));
        assert(Self::known("updateFavoriteStickers"@));
    }
}

/// The list of saved animations was updated
#[derive(Debug, Clone, PartialEq)]
pub struct UpdateSavedAnimations {
    /// The new list of file identifiers of saved animations
    pub animation_ids: Vec<i32>,
}

impl Wire for UpdateSavedAnimations {
    #[verifier::opaque]
    open spec fn wire(&self) -> Doc {
        tagged(
            Map::empty()
                .insert("animationIds"@, self.animation_ids.wire()),
            "updateSavedAnimations"@,
        )
    }

    #[verifier::opaque]
    open spec fn parse(d: Doc, at: Seq<char>) -> Result<Doc, Fault> {
        match d {
            Doc::Object(m) => {
                let animation_ids = field::<Vec<i32>>(m, "animationIds"@);
                if animation_ids is Err {
                    animation_ids
                } else {
                    Ok(
                        tagged(
                            Map::empty()
                                .insert("animationIds"@, animation_ids->Ok_0),
                            "updateSavedAnimations"@,
                        ),
                    )
                }
            },
            _ => Err(Fault::TypeMismatch(at)),
        }
    }

    fn encode(&self) -> (j: Json) {
        proof {
            reveal(<UpdateSavedAnimations as Wire>::wire);
        }
        let mut members: Vec<Member> = Vec::new();
        put(&mut members, "animationIds", self.animation_ids.encode());
        seal(members, "updateSavedAnimations")
    }

    fn decode(j: &Json, at: &str) -> (r: Result<Self, DecodeError>) {
        proof {
            reveal(<UpdateSavedAnimations as Wire>::wire);
            reveal(<UpdateSavedAnimations as Wire>::parse);
        }
        let members = members_of(j, at)?;
        let animation_ids = read_field::<Vec<i32>>(members, "animationIds")?;
        Ok(UpdateSavedAnimations { animation_ids })
    }

    proof fn round_trip(&self, at: Seq<char>) {
        reveal(<UpdateSavedAnimations as Wire>::wire);
        reveal(<UpdateSavedAnimations as Wire>::parse);
        reveal_strlit("@type");
        reveal_strlit("animationIds");
        assert("@type"@.len() == 5);
        assert("animationIds"@.len() == 12);
        self.animation_ids.round_trip("animationIds"@);
    }
}

impl Tagged for UpdateSavedAnimations {
    open spec fn known(tag: Seq<char>) -> bool {
        tag == "updateSavedAnimations"@
    }

    fn knows(tag: &str) -> (r: bool) {
        same_text(tag, "updateSavedAnimations")
    }

    proof fn tag_known(&self) {
        reveal(<UpdateSavedAnimations as Wire>::wire);
        assert(tag_of(self.wire()) == Some("updateSavedAnimations"@));
        assert(Self::known("updateSavedAnimations"@));
    }
}

/// The selected background has changed
#[derive(Debug, Clone, PartialEq)]
pub struct UpdateSelectedBackground {
    /// True, if background for dark theme has changed
    pub for_dark_theme: bool,
    /// The new selected background; may be null
    pub background: Option<Background>,
}

impl Wire for UpdateSelectedBackground {
    #[verifier::opaque]
    open spec fn wire(&self) -> Doc {
        tagged(
            Map::empty()
                .insert("forDarkTheme"@, self.for_dark_theme.wire())
                .insert("background"@, self.background.wire()),
            "updateSelectedBackground"@,
        )
    }

    #[verifier::opaque]
    open spec fn parse(d: Doc, at: Seq<char>) -> Result<Doc, Fault> {
        match d {
            Doc::Object(m) => {
                let for_dark_theme = field::<bool>(m, "forDarkTheme"@);
                let background = optional_field::<Background>(m, "background"@);
                if for_dark_theme is Err {
                    for_dark_theme
                } else if background is Err {
                    background
                } else {
                    Ok(
                        tagged(
                            Map::empty()
                                .insert("forDarkTheme"@, for_dark_theme->Ok_0)
                                .insert("background"@, background->Ok_0),
                            "updateSelectedBackground"@,
                        ),
                    )
                }
            },
            _ => Err(Fault::TypeMismatch(at)),
        }
    }

    fn encode(&self) -> (j: Json) {
        proof {
            reveal(<UpdateSelectedBackground as Wire>::wire);
        }
        let mut members: Vec<Member> = Vec::new();
        put(&mut members, "forDarkTheme", self.for_dark_theme.encode());
        put(&mut members, "background", self.background.encode());
        seal(members, "updateSelectedBackground")
    }

    fn decode(j: &Json, at: &str) -> (r: Result<Self, DecodeError>) {
        proof {
            reveal(<UpdateSelectedBackground as Wire>::wire);
            reveal(<UpdateSelectedBackground as Wire>::parse);
        }
        let members = members_of(j, at)?;
        let for_dark_theme = read_field::<bool>(members, "forDarkTheme")?;
        let background = read_optional::<Background>(members, "background")?;
        Ok(UpdateSelectedBackground { for_dark_theme, background })
    }

    proof fn round_trip(&self, at: Seq<char>) {
        reveal(<UpdateSelectedBackground as Wire>::wire);
        reveal(<UpdateSelectedBackground as Wire>::parse);
        reveal_strlit("@type");
        reveal_strlit("background");
        reveal_strlit("forDarkTheme");
        assert("@type"@.len() == 5);
        assert("background"@.len() == 10);
        assert("forDarkTheme"@.len() == 12);
        self.for_dark_theme.round_trip("forDarkTheme"@);
        self.background.round_trip("background"@);
    }
}

impl Tagged for UpdateSelectedBackground {
    open spec fn known(tag: Seq<char>) -> bool {
        tag == "updateSelectedBackground"@
    }

    fn knows(tag: &str) -> (r: bool) {
        same_text(tag, "updateSelectedBackground")
    }

    proof fn tag_known(&self) {
        reveal(<UpdateSelectedBackground as Wire>::wire);
        assert(tag_of(self.wire()) == Some("updateSelectedBackground"@));
        assert(Self::known("updateSelectedBackground"@));
    }
}

/// Some language pack strings have been updated
#[derive(Debug, Clone, PartialEq)]
pub struct UpdateLanguagePackStrings {
    /// Localization target to which the language pack belongs
    pub localization_target: String,
    /// Identifier of the updated language pack
    pub language_pack_id: String,
    /// List of changed language pack strings
    pub strings: Vec<LanguagePackString>,
}

impl Wire for UpdateLanguagePackStrings {
    #[verifier::opaque]
    open spec fn wire(&self) -> Doc {
        tagged(
            Map::empty()
                .insert("localizationTarget"@, self.localization_target.wire())
                .insert("languagePackId"@, self.language_pack_id.wire())
                .insert("strings"@, self.strings.wire()),
            "updateLanguagePackStrings"@,
        )
    }

    #[verifier::opaque]
    open spec fn parse(d: Doc, at: Seq<char>) -> Result<Doc, Fault> {
        match d {
            Doc::Object(m) => {
                let localization_target = field::<String>(m, "localizationTarget"@);
                let language_pack_id = field::<String>(m, "languagePackId"@);
                let strings = field::<Vec<LanguagePackString>>(m, "strings"@);
                if localization_target is Err {
                    localization_target
                } else if language_pack_id is Err {
                    language_pack_id
                } else if strings is Err {
                    strings
                } else {
                    Ok(
                        tagged(
                            Map::empty()
                                .insert("localizationTarget"@, localization_target->Ok_0)
                                .insert("languagePackId"@, language_pack_id->Ok_0)
                                .insert("strings"@, strings->Ok_0),
                            "updateLanguagePackStrings"@,
                        ),
                    )
                }
            },
            _ => Err(Fault::TypeMismatch(at)),
        }
    }

    fn encode(&self) -> (j: Json) {
        proof {
            reveal(<UpdateLanguagePackStrings as Wire>::wire);
        }
        let mut members: Vec<Member> = Vec::new();
        put(&mut members, "localizationTarget", self.localization_target.encode());
        put(&mut members, "languagePackId", self.language_pack_id.encode());
        put(&mut members, "strings", self.strings.encode());
        seal(members, "updateLanguagePackStrings")
    }

    fn decode(j: &Json, at: &str) -> (r: Result<Self, DecodeError>) {
        proof {
            reveal(<UpdateLanguagePackStrings as Wire>::wire);
            reveal(<UpdateLanguagePackStrings as Wire>::parse);
        }
        let members = members_of(j, at)?;
        let localization_target = read_field::<String>(members, "localizationTarget")?;
        let language_pack_id = read_field::<String>(members, "languagePackId")?;
        let strings = read_field::<Vec<LanguagePackString>>(members, "strings")?;
        Ok(UpdateLanguagePackStrings { localization_target, language_pack_id, strings })
    }

    proof fn round_trip(&self, at: Seq<char>) {
        reveal(<UpdateLanguagePackStrings as Wire>::wire);
        reveal(<UpdateLanguagePackStrings as Wire>::parse);
        reveal_strlit("@type");
        reveal_strlit("languagePackId");
        reveal_strlit("localizationTarget");
        reveal_strlit("strings");
        assert("@type"@.len() == 5);
        assert("languagePackId"@.len() == 14);
        assert("localizationTarget"@.len() == 18);
        assert("strings"@.len() == 7);
        self.localization_target.round_trip("localizationTarget"@);
        self.language_pack_id.round_trip("languagePackId"@);
        self.strings.round_trip("strings"@);
    }
}

impl Tagged for UpdateLanguagePackStrings {
    open spec fn known(tag: Seq<char>) -> bool {
        tag == "updateLanguagePackStrings"@
    }

    fn knows(tag: &str) -> (r: bool) {
        same_text(tag, "updateLanguagePackStrings")
    }

    proof fn tag_known(&self) {
        reveal(<UpdateLanguagePackStrings as Wire>::wire);
        assert(tag_of(self.wire()) == Some("updateLanguagePackStrings"@));
        assert(Self::known("updateLanguagePackStrings"@));
    }
}

/// The connection state has changed
#[derive(Debug, Clone, PartialEq)]
pub struct UpdateConnectionState {
    /// The new connection state
    pub state: ConnectionState,
}

impl Wire for UpdateConnectionState {
    #[verifier::opaque]
    open spec fn wire(&self) -> Doc {
        tagged(
            Map::empty()
                .insert("state"@, self.state.wire()),
            "updateConnectionState"@,
        )
    }

    #[verifier::opaque]
    open spec fn parse(d: Doc, at: Seq<char>) -> Result<Doc, Fault> {
        match d {
            Doc::Object(m) => {
                let state = field::<ConnectionState>(m, "state"@);
                if state is Err {
                    state
                } else {
                    Ok(
                        tagged(
                            Map::empty()
                                .insert("state"@, state->Ok_0),
                            "updateConnectionState"@,
                        ),
                    )
                }
            },
            _ => Err(Fault::TypeMismatch(at)),
        }
    }

    fn encode(&self) -> (j: Json) {
        proof {
            reveal(<UpdateConnectionState as Wire>::wire);
        }
        let mut members: Vec<Member> = Vec::new();
        put(&mut members, "state", self.state.encode());
        seal(members, "updateConnectionState")
    }

    fn decode(j: &Json, at: &str) -> (r: Result<Self, DecodeError>) {
        proof {
            reveal(<UpdateConnectionState as Wire>::wire);
            reveal(<UpdateConnectionState as Wire>::parse);
        }
        let members = members_of(j, at)?;
        let state = read_field::<ConnectionState>(members, "state")?;
        Ok(UpdateConnectionState { state })
    }

    proof fn round_trip(&self, at: Seq<char>) {
        reveal(<UpdateConnectionState as Wire>::wire);
        reveal(<UpdateConnectionState as Wire>::parse);
        reveal_strlit("@type");
        reveal_strlit("state");
        assert("@type"@.len() == 5 && "@type"@[0] == '@');
        assert("state"@.len() == 5 && "state"@[0] == 's');
        self.state.round_trip("state"@);
    }
}

impl Tagged for UpdateConnectionState {
    open spec fn known(tag: Seq<char>) -> bool {
        tag == "updateConnectionState"@
    }

    fn knows(tag: &str) -> (r: bool) {
        same_text(tag, "updateConnectionState")
    }

    proof fn tag_known(&self) {
        reveal(<UpdateConnectionState as Wire>::wire);
        assert(tag_of(self.wire()) == Some("updateConnectionState"@));
        assert(Self::known("updateConnectionState"@));
    }
}

/// New terms of service must be accepted by the user. If the terms of service are declined, then
/// the deleteAccount method should be called with the reason "Decline ToS update"
#[derive(Debug, Clone, PartialEq)]
pub struct UpdateTermsOfService {
    /// Identifier of the terms of service
    pub terms_of_service_id: String,
    /// The new terms of service
    pub terms_of_service: TermsOfService,
}

impl Wire for UpdateTermsOfService {
    #[verifier::opaque]
    open spec fn wire(&self) -> Doc {
        tagged(
            Map::empty()
                .insert("termsOfServiceId"@, self.terms_of_service_id.wire())
                .insert("termsOfService"@, self.terms_of_service.wire()),
            "updateTermsOfService"@,
        )
    }

    #[verifier::opaque]
    open spec fn parse(d: Doc, at: Seq<char>) -> Result<Doc, Fault> {
        match d {
            Doc::Object(m) => {
                let terms_of_service_id = field::<String>(m, "termsOfServiceId"@);
                let terms_of_service = field::<TermsOfService>(m, "termsOfService"@);
                if terms_of_service_id is Err {
                    terms_of_service_id
                } else if terms_of_service is Err {
                    terms_of_service
                } else {
                    Ok(
                        tagged(
                            Map::empty()
                                .insert("termsOfServiceId"@, terms_of_service_id->Ok_0)
                                .insert("termsOfService"@, terms_of_service->Ok_0),
                            "updateTermsOfService"@,
                        ),
                    )
                }
            },
            _ => Err(Fault::TypeMismatch(at)),
        }
    }

    fn encode(&self) -> (j: Json) {
        proof {
            reveal(<UpdateTermsOfService as Wire>::wire);
        }
        let mut members: Vec<Member> = Vec::new();
        put(&mut members, "termsOfServiceId", self.terms_of_service_id.encode());
        put(&mut members, "termsOfService", self.terms_of_service.encode());
        seal(members, "updateTermsOfService")
    }

    fn decode(j: &Json, at: &str) -> (r: Result<Self, DecodeError>) {
        proof {
            reveal(<UpdateTermsOfService as Wire>::wire);
            reveal(<UpdateTermsOfService as Wire>::parse);
        }
        let members = members_of(j, at)?;
        let terms_of_service_id = read_field::<String>(members, "termsOfServiceId")?;
        let terms_of_service = read_field::<TermsOfService>(members, "termsOfService")?;
        Ok(UpdateTermsOfService { terms_of_service_id, terms_of_service })
    }

    proof fn round_trip(&self, at: Seq<char>) {
        reveal(<UpdateTermsOfService as Wire>::wire);
        reveal(<UpdateTermsOfService as Wire>::parse);
        reveal_strlit("@type");
        reveal_strlit("termsOfService");
        reveal_strlit("termsOfServiceId");
        assert("@type"@.len() == 5);
        assert("termsOfService"@.len() == 14);
        assert("termsOfServiceId"@.len() == 16);
        self.terms_of_service_id.round_trip("termsOfServiceId"@);
        self.terms_of_service.round_trip("termsOfService"@);
    }
}

impl Tagged for UpdateTermsOfService {
    open spec fn known(tag: Seq<char>) -> bool {
        tag == "updateTermsOfService"@
    }

    fn knows(tag: &str) -> (r: bool) {
        same_text(tag, "updateTermsOfService")
    }

    proof fn tag_known(&self) {
        reveal(<UpdateTermsOfService as Wire>::wire);
        assert(tag_of(self.wire()) == Some("updateTermsOfService"@));
        assert(Self::known("updateTermsOfService"@));
    }
}

/// List of users nearby has changed. The update is sent only 60 seconds after a successful
/// searchChatsNearby request
#[derive(Debug, Clone, PartialEq)]
pub struct UpdateUsersNearby {
    /// The new list of users nearby
    pub users_nearby: Vec<ChatNearby>,
}

impl Wire for UpdateUsersNearby {
    #[verifier::opaque]
    open spec fn wire(&self) -> Doc {
        tagged(
            Map::empty()
                .insert("usersNearby"@, self.users_nearby.wire()),
            "updateUsersNearby"@,
        )
    }

    #[verifier::opaque]
    open spec fn parse(d: Doc, at: Seq<char>) -> Result<Doc, Fault> {
        match d {
            Doc::Object(m) => {
                let users_nearby = field::<Vec<ChatNearby>>(m, "usersNearby"@);
                if users_nearby is Err {
                    users_nearby
                } else {
                    Ok(
                        tagged(
                            Map::empty()
                                .insert("usersNearby"@, users_nearby->Ok_0),
                            "updateUsersNearby"@,
                        ),
                    )
                }
            },
            _ => Err(Fault::TypeMismatch(at)),
        }
    }

    fn encode(&self) -> (j: Json) {
        proof {
            reveal(<UpdateUsersNearby as Wire>::wire);
        }
        let mut members: Vec<Member> = Vec::new();
        put(&mut members, "usersNearby", self.users_nearby.encode());
        seal(members, "updateUsersNearby")
    }

    fn decode(j: &Json, at: &str) -> (r: Result<Self, DecodeError>) {
        proof {
            reveal(<UpdateUsersNearby as Wire>::wire);
            reveal(<UpdateUsersNearby as Wire>::parse);
        }
        let members = members_of(j, at)?;
        let users_nearby = read_field::<Vec<ChatNearby>>(members, "usersNearby")?;
        Ok(UpdateUsersNearby { users_nearby })
    }

    proof fn round_trip(&self, at: Seq<char>) {
        reveal(<UpdateUsersNearby as Wire>::wire);
        reveal(<UpdateUsersNearby as Wire>::parse);
        reveal_strlit("@type");
        reveal_strlit("usersNearby");
        assert("@type"@.len() == 5);
        assert("usersNearby"@.len() == 11);
        self.users_nearby.round_trip("usersNearby"@);
    }
}

impl Tagged for UpdateUsersNearby {
    open spec fn known(tag: Seq<char>) -> bool {
        tag == "updateUsersNearby"@
    }

    fn knows(tag: &str) -> (r: bool) {
        same_text(tag, "updateUsersNearby")
    }

    proof fn tag_known(&self) {
        reveal(<UpdateUsersNearby as Wire>::wire);
        assert(tag_of(self.wire()) == Some("updateUsersNearby"@));
        assert(Self::known("updateUsersNearby"@));
    }
}

/// A new incoming inline query; for bots only
#[derive(Debug, Clone, PartialEq)]
pub struct UpdateNewInlineQuery {
    /// Unique query identifier
    pub id: i64,
    /// Identifier of the user who sent the query
    pub sender_user_id: i32,
    /// User location, provided by the client; may be null
    pub user_location: Option<Location>,
    /// Text of the query
    pub query: String,
    /// Offset of the first entry to return
    pub offset: String,
}

impl Wire for UpdateNewInlineQuery {
    #[verifier::opaque]
    open spec fn wire(&self) -> Doc {
        tagged(
            Map::empty()
                .insert("id"@, wide_doc(self.id))
                .insert("senderUserId"@, self.sender_user_id.wire())
                .insert("userLocation"@, self.user_location.wire())
                .insert("query"@, self.query.wire())
                .insert("offset"@, self.offset.wire()),
            "updateNewInlineQuery"@,
        )
    }

    #[verifier::opaque]
    open spec fn parse(d: Doc, at: Seq<char>) -> Result<Doc, Fault> {
        match d {
            Doc::Object(m) => {
                let id = wide_field(m, "id"@);
                let sender_user_id = field::<i32>(m, "senderUserId"@);
                let user_location = optional_field::<Location>(m, "userLocation"@);
                let query = field::<String>(m, "query"@);
                let offset = field::<String>(m, "offset"@);
                if id is Err {
                    id
                } else if sender_user_id is Err {
                    sender_user_id
                } else if user_location is Err {
                    user_location
                } else if query is Err {
                    query
                } else if offset is Err {
                    offset
                } else {
                    Ok(
                        tagged(
                            Map::empty()
                                .insert("id"@, id->Ok_0)
                                .insert("senderUserId"@, sender_user_id->Ok_0)
                                .insert("userLocation"@, user_location->Ok_0)
                                .insert("query"@, query->Ok_0)
                                .insert("offset"@, offset->Ok_0),
                            "updateNewInlineQuery"@,
                        ),
                    )
                }
            },
            _ => Err(Fault::TypeMismatch(at)),
        }
    }

    fn encode(&self) -> (j: Json) {
        proof {
            reveal(<UpdateNewInlineQuery as Wire>::wire);
        }
        let mut members: Vec<Member> = Vec::new();
        put(&mut members, "id", encode_wide(self.id));
        put(&mut members, "senderUserId", self.sender_user_id.encode());
        put(&mut members, "userLocation", self.user_location.encode());
        put(&mut members, "query", self.query.encode());
        put(&mut members, "offset", self.offset.encode());
        seal(members, "updateNewInlineQuery")
    }

    fn decode(j: &Json, at: &str) -> (r: Result<Self, DecodeError>) {
        proof {
            reveal(<UpdateNewInlineQuery as Wire>::wire);
            reveal(<UpdateNewInlineQuery as Wire>::parse);
        }
        let members = members_of(j, at)?;
        let id = read_wide(members, "id")?;
        let sender_user_id = read_field::<i32>(members, "senderUserId")?;
        let user_location = read_optional::<Location>(members, "userLocation")?;
        let query = read_field::<String>(members, "query")?;
        let offset = read_field::<String>(members, "offset")?;
        Ok(UpdateNewInlineQuery { id, sender_user_id, user_location, query, offset })
    }

    proof fn round_trip(&self, at: Seq<char>) {
        reveal(<UpdateNewInlineQuery as Wire>::wire);
        reveal(<UpdateNewInlineQuery as Wire>::parse);
        reveal_strlit("@type");
        reveal_strlit("id");
        reveal_strlit("offset");
        reveal_strlit("query");
        reveal_strlit("senderUserId");
        reveal_strlit("userLocation");
        assert("@type"@.len() == 5 && "@type"@[0] == '@');
        assert("id"@.len() == 2);
        assert("offset"@.len() == 6);
        assert("query"@.len() == 5 && "query"@[0] == 'q');
        assert("senderUserId"@.len() == 12 && "senderUserId"@[0] == 's');
        assert("userLocation"@.len() == 12 && "userLocation"@[0] == 'u');
        lemma_wide_round_trip(self.id, "id"@);
        self.sender_user_id.round_trip("senderUserId"@);
        self.user_location.round_trip("userLocation"@);
        self.query.round_trip("query"@);
        self.offset.round_trip("offset"@);
    }
}

impl Tagged for UpdateNewInlineQuery {
    open spec fn known(tag: Seq<char>) -> bool {
        tag == "updateNewInlineQuery"@
    }

    fn knows(tag: &str) -> (r: bool) {
        same_text(tag, "updateNewInlineQuery")
    }

    proof fn tag_known(&self) {
        reveal(<UpdateNewInlineQuery as Wire>::wire);
        assert(tag_of(self.wire()) == Some("updateNewInlineQuery"@));
        assert(Self::known("updateNewInlineQuery"@));
    }
}

/// The user has chosen a result of an inline query; for bots only
#[derive(Debug, Clone, PartialEq)]
pub struct UpdateNewChosenInlineResult {
    /// Identifier of the user who sent the query
    pub sender_user_id: i32,
    /// User location, provided by the client; may be null
    pub user_location: Option<Location>,
    /// Text of the query
    pub query: String,
    /// Identifier of the chosen result
    pub result_id: String,
    /// Identifier of the sent inline message, if known
    pub inline_message_id: String,
}

impl Wire for UpdateNewChosenInlineResult {
    #[verifier::opaque]
    open spec fn wire(&self) -> Doc {
        tagged(
            Map::empty()
                .insert("senderUserId"@, self.sender_user_id.wire())
                .insert("userLocation"@, self.user_location.wire())
                .insert("query"@, self.query.wire())
                .insert("resultId"@, self.result_id.wire())
                .insert("inlineMessageId"@, self.inline_message_id.wire()),
            "updateNewChosenInlineResult"@,
        )
    }

    #[verifier::opaque]
    open spec fn parse(d: Doc, at: Seq<char>) -> Result<Doc, Fault> {
        match d {
            Doc::Object(m) => {
                let sender_user_id = field::<i32>(m, "senderUserId"@);
                let user_location = optional_field::<Location>(m, "userLocation"@);
                let query = field::<String>(m, "query"@);
                let result_id = field::<String>(m, "resultId"@);
                let inline_message_id = field::<String>(m, "inlineMessageId"@);
                if sender_user_id is Err {
                    sender_user_id
                } else if user_location is Err {
                    user_location
                } else if query is Err {
                    query
                } else if result_id is Err {
                    result_id
                } else if inline_message_id is Err {
                    inline_message_id
                } else {
                    Ok(
                        tagged(
                            Map::empty()
                                .insert("senderUserId"@, sender_user_id->Ok_0)
                                .insert("userLocation"@, user_location->Ok_0)
                                .insert("query"@, query->Ok_0)
                                .insert("resultId"@, result_id->Ok_0)
                                .insert("inlineMessageId"@, inline_message_id->Ok_0),
                            "updateNewChosenInlineResult"@,
                        ),
                    )
                }
            },
            _ => Err(Fault::TypeMismatch(at)),
        }
    }

    fn encode(&self) -> (j: Json) {
        proof {
            reveal(<UpdateNewChosenInlineResult as Wire>::wire);
        }
        let mut members: Vec<Member> = Vec::new();
        put(&mut members, "senderUserId", self.sender_user_id.encode());
        put(&mut members, "userLocation", self.user_location.encode());
        put(&mut members, "query", self.query.encode());
        put(&mut members, "resultId", self.result_id.encode());
        put(&mut members, "inlineMessageId", self.inline_message_id.encode());
        seal(members, "updateNewChosenInlineResult")
    }

    fn decode(j: &Json, at: &str) -> (r: Result<Self, DecodeError>) {
        proof {
            reveal(<UpdateNewChosenInlineResult as Wire>::wire);
            reveal(<UpdateNewChosenInlineResult as Wire>::parse);
        }
        let members = members_of(j, at)?;
        let sender_user_id = read_field::<i32>(members, "senderUserId")?;
        let user_location = read_optional::<Location>(members, "userLocation")?;
        let query = read_field::<String>(members, "query")?;
        let result_id = read_field::<String>(members, "resultId")?;
        let inline_message_id = read_field::<String>(members, "inlineMessageId")?;
        Ok(UpdateNewChosenInlineResult {
            sender_user_id,
            user_location,
            query,
            result_id,
            inline_message_id,
        })
    }

    proof fn round_trip(&self, at: Seq<char>) {
        reveal(<UpdateNewChosenInlineResult as Wire>::wire);
        reveal(<UpdateNewChosenInlineResult as Wire>::parse);
        reveal_strlit("@type");
        reveal_strlit("inlineMessageId");
        reveal_strlit("query");
        reveal_strlit("resultId");
        reveal_strlit("senderUserId");
        reveal_strlit("userLocation");
        assert("@type"@.len() == 5 && "@type"@[0] == '@');
        assert("inlineMessageId"@.len() == 15);
        assert("query"@.len() == 5 && "query"@[0] == 'q');
        assert("resultId"@.len() == 8);
        assert("senderUserId"@.len() == 12 && "senderUserId"@[0] == 's');
        assert("userLocation"@.len() == 12 && "userLocation"@[0] == 'u');
        self.sender_user_id.round_trip("senderUserId"@);
        self.user_location.round_trip("userLocation"@);
        self.query.round_trip("query"@);
        self.result_id.round_trip("resultId"@);
        self.inline_message_id.round_trip("inlineMessageId"@);
    }
}

impl Tagged for UpdateNewChosenInlineResult {
    open spec fn known(tag: Seq<char>) -> bool {
        tag == "updateNewChosenInlineResult"@
    }

    fn knows(tag: &str) -> (r: bool) {
        same_text(tag, "updateNewChosenInlineResult")
    }

    proof fn tag_known(&self) {
        reveal(<UpdateNewChosenInlineResult as Wire>::wire);
        assert(tag_of(self.wire()) == Some("updateNewChosenInlineResult"@));
        assert(Self::known("updateNewChosenInlineResult"@));
    }
}

/// A new incoming callback query; for bots only
#[derive(Debug, Clone, PartialEq)]
pub struct UpdateNewCallbackQuery {
    /// Unique query identifier
    pub id: i64,
    /// Identifier of the user who sent the query
    pub sender_user_id: i32,
    /// Identifier of the chat where the query was sent
    pub chat_id: i64,
    /// Identifier of the message, from which the query originated
    pub message_id: i64,
    /// Identifier that uniquely corresponds to the chat to which the message was sent
    pub chat_instance: i64,
    /// Query payload
    pub payload: CallbackQueryPayload,
}

impl Wire for UpdateNewCallbackQuery {
    #[verifier::opaque]
    open spec fn wire(&self) -> Doc {
        tagged(
            Map::empty()
                .insert("id"@, wide_doc(self.id))
                .insert("senderUserId"@, self.sender_user_id.wire())
                .insert("chatId"@, self.chat_id.wire())
                .insert("messageId"@, self.message_id.wire())
                .insert("chatInstance"@, wide_doc(self.chat_instance))
                .insert("payload"@, self.payload.wire()),
            "updateNewCallbackQuery"@,
        )
    }

    #[verifier::opaque]
    open spec fn parse(d: Doc, at: Seq<char>) -> Result<Doc, Fault> {
        match d {
            Doc::Object(m) => {
                let id = wide_field(m, "id"@);
                let sender_user_id = field::<i32>(m, "senderUserId"@);
                let chat_id = field::<i64>(m, "chatId"@);
                let message_id = field::<i64>(m, "messageId"@);
                let chat_instance = wide_field(m, "chatInstance"@);
                let payload = field::<CallbackQueryPayload>(m, "payload"@);
                if id is Err {
                    id
                } else if sender_user_id is Err {
                    sender_user_id
                } else if chat_id is Err {
                    chat_id
                } else if message_id is Err {
                    message_id
                } else if chat_instance is Err {
                    chat_instance
                } else if payload is Err {
                    payload
                } else {
                    Ok(
                        tagged(
                            Map::empty()
                                .insert("id"@, id->Ok_0)
                                .insert("senderUserId"@, sender_user_id->Ok_0)
                                .insert("chatId"@, chat_id->Ok_0)
                                .insert("messageId"@, message_id->Ok_0)
                                .insert("chatInstance"@, chat_instance->Ok_0)
                                .insert("payload"@, payload->Ok_0),
                            "updateNewCallbackQuery"@,
                        ),
                    )
                }
            },
            _ => Err(Fault::TypeMismatch(at)),
        }
    }

    fn encode(&self) -> (j: Json) {
        proof {
            reveal(<UpdateNewCallbackQuery as Wire>::wire);
        }
        let mut members: Vec<Member> = Vec::new();
        put(&mut members, "id", encode_wide(self.id));
        put(&mut members, "senderUserId", self.sender_user_id.encode());
        put(&mut members, "chatId", self.chat_id.encode());
        put(&mut members, "messageId", self.message_id.encode());
        put(&mut members, "chatInstance", encode_wide(self.chat_instance));
        put(&mut members, "payload", self.payload.encode());
        seal(members, "updateNewCallbackQuery")
    }

    fn decode(j: &Json, at: &str) -> (r: Result<Self, DecodeError>) {
        proof {
            reveal(<UpdateNewCallbackQuery as Wire>::wire);
            reveal(<UpdateNewCallbackQuery as Wire>::parse);
        }
        let members = members_of(j, at)?;
        let id = read_wide(members, "id")?;
        let sender_user_id = read_field::<i32>(members, "senderUserId")?;
        let chat_id = read_field::<i64>(members, "chatId")?;
        let message_id = read_field::<i64>(members, "messageId")?;
        let chat_instance = read_wide(members, "chatInstance")?;
        let payload = read_field::<CallbackQueryPayload>(members, "payload")?;
        Ok(UpdateNewCallbackQuery {
            id,
            sender_user_id,
            chat_id,
            message_id,
            chat_instance,
            payload,
        })
    }

    proof fn round_trip(&self, at: Seq<char>) {
        reveal(<UpdateNewCallbackQuery as Wire>::wire);
        reveal(<UpdateNewCallbackQuery as Wire>::parse);
        reveal_strlit("@type");
        reveal_strlit("chatId");
        reveal_strlit("chatInstance");
        reveal_strlit("id");
        reveal_strlit("messageId");
        reveal_strlit("payload");
        reveal_strlit("senderUserId");
        assert("@type"@.len() == 5);
        assert("chatId"@.len() == 6);
        assert("chatInstance"@.len() == 12 && "chatInstance"@[0] == 'c');
        assert("id"@.len() == 2);
        assert("messageId"@.len() == 9);
        assert("payload"@.len() == 7);
        assert("senderUserId"@.len() == 12 && "senderUserId"@[0] == 's');
        lemma_wide_round_trip(self.id, "id"@);
        self.sender_user_id.round_trip("senderUserId"@);
        self.chat_id.round_trip("chatId"@);
        self.message_id.round_trip("messageId"@);
        lemma_wide_round_trip(self.chat_instance, "chatInstance"@);
        self.payload.round_trip("payload"@);
    }
}

impl Tagged for UpdateNewCallbackQuery {
    open spec fn known(tag: Seq<char>) -> bool {
        tag == "updateNewCallbackQuery"@
    }

    fn knows(tag: &str) -> (r: bool) {
        same_text(tag, "updateNewCallbackQuery")
    }

    proof fn tag_known(&self) {
        reveal(<UpdateNewCallbackQuery as Wire>::wire);
        assert(tag_of(self.wire()) == Some("updateNewCallbackQuery"@));
        assert(Self::known("updateNewCallbackQuery"@));
    }
}

/// A new incoming callback query from a message sent via a bot; for bots only
#[derive(Debug, Clone, PartialEq)]
pub struct UpdateNewInlineCallbackQuery {
    /// Unique query identifier
    pub id: i64,
    /// Identifier of the user who sent the query
    pub sender_user_id: i32,
    /// Identifier of the inline message, from which the query originated
    pub inline_message_id: String,
    /// An identifier uniquely corresponding to the chat a message was sent to
    pub chat_instance: i64,
    /// Query payload
    pub payload: CallbackQueryPayload,
}

impl Wire for UpdateNewInlineCallbackQuery {
    #[verifier::opaque]
    open spec fn wire(&self) -> Doc {
        tagged(
            Map::empty()
                .insert("id"@, wide_doc(self.id))
                .insert("senderUserId"@, self.sender_user_id.wire())
                .insert("inlineMessageId"@, self.inline_message_id.wire())
                .insert("chatInstance"@, wide_doc(self.chat_instance))
                .insert("payload"@, self.payload.wire()),
            "updateNewInlineCallbackQuery"@,
        )
    }

    #[verifier::opaque]
    open spec fn parse(d: Doc, at: Seq<char>) -> Result<Doc, Fault> {
        match d {
            Doc::Object(m) => {
                let id = wide_field(m, "id"@);
                let sender_user_id = field::<i32>(m, "senderUserId"@);
                let inline_message_id = field::<String>(m, "inlineMessageId"@);
                let chat_instance = wide_field(m, "chatInstance"@);
                let payload = field::<CallbackQueryPayload>(m, "payload"@);
                if id is Err {
                    id
                } else if sender_user_id is Err {
                    sender_user_id
                } else if inline_message_id is Err {
                    inline_message_id
                } else if chat_instance is Err {
                    chat_instance
                } else if payload is Err {
                    payload
                } else {
                    Ok(
                        tagged(
                            Map::empty()
                                .insert("id"@, id->Ok_0)
                                .insert("senderUserId"@, sender_user_id->Ok_0)
                                .insert("inlineMessageId"@, inline_message_id->Ok_0)
                                .insert("chatInstance"@, chat_instance->Ok_0)
                                .insert("payload"@, payload->Ok_0),
                            "updateNewInlineCallbackQuery"@,
                        ),
                    )
                }
            },
            _ => Err(Fault::TypeMismatch(at)),
        }
    }

    fn encode(&self) -> (j: Json) {
        proof {
            reveal(<UpdateNewInlineCallbackQuery as Wire>::wire);
        }
        let mut members: Vec<Member> = Vec::new();
        put(&mut members, "id", encode_wide(self.id));
        put(&mut members, "senderUserId", self.sender_user_id.encode());
        put(&mut members, "inlineMessageId", self.inline_message_id.encode());
        put(&mut members, "chatInstance", encode_wide(self.chat_instance));
        put(&mut members, "payload", self.payload.encode());
        seal(members, "updateNewInlineCallbackQuery")
    }

    fn decode(j: &Json, at: &str) -> (r: Result<Self, DecodeError>) {
        proof {
            reveal(<UpdateNewInlineCallbackQuery as Wire>::wire);
            reveal(<UpdateNewInlineCallbackQuery as Wire>::parse);
        }
        let members = members_of(j, at)?;
        let id = read_wide(members, "id")?;
        let sender_user_id = read_field::<i32>(members, "senderUserId")?;
        let inline_message_id = read_field::<String>(members, "inlineMessageId")?;
        let chat_instance = read_wide(members, "chatInstance")?;
        let payload = read_field::<CallbackQueryPayload>(members, "payload")?;
        Ok(UpdateNewInlineCallbackQuery {
            id,
            sender_user_id,
            inline_message_id,
            chat_instance,
            payload,
        })
    }

    proof fn round_trip(&self, at: Seq<char>) {
        reveal(<UpdateNewInlineCallbackQuery as Wire>::wire);
        reveal(<UpdateNewInlineCallbackQuery as Wire>::parse);
        reveal_strlit("@type");
        reveal_strlit("chatInstance");
        reveal_strlit("id");
        reveal_strlit("inlineMessageId");
        reveal_strlit("payload");
        reveal_strlit("senderUserId");
        assert("@type"@.len() == 5);
        assert("chatInstance"@.len() == 12 && "chatInstance"@[0] == 'c');
        assert("id"@.len() == 2);
        assert("inlineMessageId"@.len() == 15);
        assert("payload"@.len() == 7);
        assert("senderUserId"@.len() == 12 && "senderUserId"@[0] == 's');
        lemma_wide_round_trip(self.id, "id"@);
        self.sender_user_id.round_trip("senderUserId"@);
        self.inline_message_id.round_trip("inlineMessageId"@);
        lemma_wide_round_trip(self.chat_instance, "chatInstance"@);
        self.payload.round_trip("payload"@);
    }
}

impl Tagged for UpdateNewInlineCallbackQuery {
    open spec fn known(tag: Seq<char>) -> bool {
        tag == "updateNewInlineCallbackQuery"@
    }

    fn knows(tag: &str) -> (r: bool) {
        same_text(tag, "updateNewInlineCallbackQuery")
    }

    proof fn tag_known(&self) {
        reveal(<UpdateNewInlineCallbackQuery as Wire>::wire);
        assert(tag_of(self.wire()) == Some("updateNewInlineCallbackQuery"@));
        assert(Self::known("updateNewInlineCallbackQuery"@));
    }
}

/// A new incoming shipping query; for bots only. Only for invoices with flexible price
#[derive(Debug, Clone, PartialEq)]
pub struct UpdateNewShippingQuery {
    /// Unique query identifier
    pub id: i64,
    /// Identifier of the user who sent the query
    pub sender_user_id: i32,
    /// Invoice payload
    pub invoice_payload: String,
    /// User shipping address
    pub shipping_address: Address,
}

impl Wire for UpdateNewShippingQuery {
    #[verifier::opaque]
    open spec fn wire(&self) -> Doc {
        tagged(
            Map::empty()
                .insert("id"@, wide_doc(self.id))
                .insert("senderUserId"@, self.sender_user_id.wire())
                .insert("invoicePayload"@, self.invoice_payload.wire())
                .insert("shippingAddress"@, self.shipping_address.wire()),
            "updateNewShippingQuery"@,
        )
    }

    #[verifier::opaque]
    open spec fn parse(d: Doc, at: Seq<char>) -> Result<Doc, Fault> {
        match d {
            Doc::Object(m) => {
                let id = wide_field(m, "id"@);
                let sender_user_id = field::<i32>(m, "senderUserId"@);
                let invoice_payload = field::<String>(m, "invoicePayload"@);
                let shipping_address = field::<Address>(m, "shippingAddress"@);
                if id is Err {
                    id
                } else if sender_user_id is Err {
                    sender_user_id
                } else if invoice_payload is Err {
                    invoice_payload
                } else if shipping_address is Err {
                    shipping_address
                } else {
                    Ok(
                        tagged(
                            Map::empty()
                                .insert("id"@, id->Ok_0)
                                .insert("senderUserId"@, sender_user_id->Ok_0)
                                .insert("invoicePayload"@, invoice_payload->Ok_0)
                                .insert("shippingAddress"@, shipping_address->Ok_0),
                            "updateNewShippingQuery"@,
                        ),
                    )
                }
            },
            _ => Err(Fault::TypeMismatch(at)),
        }
    }

    fn encode(&self) -> (j: Json) {
        proof {
            reveal(<UpdateNewShippingQuery as Wire>::wire);
        }
        let mut members: Vec<Member> = Vec::new();
        put(&mut members, "id", encode_wide(self.id));
        put(&mut members, "senderUserId", self.sender_user_id.encode());
        put(&mut members, "invoicePayload", self.invoice_payload.encode());
        put(&mut members, "shippingAddress", self.shipping_address.encode());
        seal(members, "updateNewShippingQuery")
    }

    fn decode(j: &Json, at: &str) -> (r: Result<Self, DecodeError>) {
        proof {
            reveal(<UpdateNewShippingQuery as Wire>::wire);
            reveal(<UpdateNewShippingQuery as Wire>::parse);
        }
        let members = members_of(j, at)?;
        let id = read_wide(members, "id")?;
        let sender_user_id = read_field::<i32>(members, "senderUserId")?;
        let invoice_payload = read_field::<String>(members, "invoicePayload")?;
        let shipping_address = read_field::<Address>(members, "shippingAddress")?;
        Ok(UpdateNewShippingQuery { id, sender_user_id, invoice_payload, shipping_address })
    }

    proof fn round_trip(&self, at: Seq<char>) {
        reveal(<UpdateNewShippingQuery as Wire>::wire);
        reveal(<UpdateNewShippingQuery as Wire>::parse);
        reveal_strlit("@type");
        reveal_strlit("id");
        reveal_strlit("invoicePayload");
        reveal_strlit("senderUserId");
        reveal_strlit("shippingAddress");
        assert("@type"@.len() == 5);
        assert("id"@.len() == 2);
        assert("invoicePayload"@.len() == 14);
        assert("senderUserId"@.len() == 12);
        assert("shippingAddress"@.len() == 15);
        lemma_wide_round_trip(self.id, "id"@);
        self.sender_user_id.round_trip("senderUserId"@);
        self.invoice_payload.round_trip("invoicePayload"@);
        self.shipping_address.round_trip("shippingAddress"@);
    }
}

impl Tagged for UpdateNewShippingQuery {
    open spec fn known(tag: Seq<char>) -> bool {
        tag == "updateNewShippingQuery"@
    }

    fn knows(tag: &str) -> (r: bool) {
        same_text(tag, "updateNewShippingQuery")
    }

    proof fn tag_known(&self) {
        reveal(<UpdateNewShippingQuery as Wire>::wire);
        assert(tag_of(self.wire()) == Some("updateNewShippingQuery"@));
        assert(Self::known("updateNewShippingQuery"@));
    }
}

/// A new incoming pre-checkout query; for bots only. Contains full information about a checkout
#[derive(Debug, Clone, PartialEq)]
pub struct UpdateNewPreCheckoutQuery {
    /// Unique query identifier
    pub id: i64,
    /// Identifier of the user who sent the query
    pub sender_user_id: i32,
    /// Currency for the product price
    pub currency: String,
    /// Total price for the product, in the minimal quantity of the currency
    pub total_amount: i64,
    /// Invoice payload
    pub invoice_payload: String,
    /// Identifier of a shipping option chosen by the user; may be empty if not applicable
    pub shipping_option_id: String,
    /// Information about the order; may be null
    pub order_info: Option<OrderInfo>,
}

impl Wire for UpdateNewPreCheckoutQuery {
    #[verifier::opaque]
    open spec fn wire(&self) -> Doc {
        tagged(
            Map::empty()
                .insert("id"@, wide_doc(self.id))
                .insert("senderUserId"@, self.sender_user_id.wire())
                .insert("currency"@, self.currency.wire())
                .insert("totalAmount"@, self.total_amount.wire())
                .insert("invoicePayload"@, self.invoice_payload.wire())
                .insert("shippingOptionId"@, self.shipping_option_id.wire())
                .insert("orderInfo"@, self.order_info.wire()),
            "updateNewPreCheckoutQuery"@,
        )
    }

    #[verifier::opaque]
    open spec fn parse(d: Doc, at: Seq<char>) -> Result<Doc, Fault> {
        match d {
            Doc::Object(m) => {
                let id = wide_field(m, "id"@);
                let sender_user_id = field::<i32>(m, "senderUserId"@);
                let currency = field::<String>(m, "currency"@);
                let total_amount = field::<i64>(m, "totalAmount"@);
                let invoice_payload = field::<String>(m, "invoicePayload"@);
                let shipping_option_id = field::<String>(m, "shippingOptionId"@);
                let order_info = optional_field::<OrderInfo>(m, "orderInfo"@);
                if id is Err {
                    id
                } else if sender_user_id is Err {
                    sender_user_id
                } else if currency is Err {
                    currency
                } else if total_amount is Err {
                    total_amount
                } else if invoice_payload is Err {
                    invoice_payload
                } else if shipping_option_id is Err {
                    shipping_option_id
                } else if order_info is Err {
                    order_info
                } else {
                    Ok(
                        tagged(
                            Map::empty()
                                .insert("id"@, id->Ok_0)
                                .insert("senderUserId"@, sender_user_id->Ok_0)
                                .insert("currency"@, currency->Ok_0)
                                .insert("totalAmount"@, total_amount->Ok_0)
                                .insert("invoicePayload"@, invoice_payload->Ok_0)
                                .insert("shippingOptionId"@, shipping_option_id->Ok_0)
                                .insert("orderInfo"@, order_info->Ok_0),
                            "updateNewPreCheckoutQuery"@,
                        ),
                    )
                }
            },
            _ => Err(Fault::TypeMismatch(at)),
        }
    }

    fn encode(&self) -> (j: Json) {
        proof {
            reveal(<UpdateNewPreCheckoutQuery as Wire>::wire);
        }
        let mut members: Vec<Member> = Vec::new();
        put(&mut members, "id", encode_wide(self.id));
        put(&mut members, "senderUserId", self.sender_user_id.encode());
        put(&mut members, "currency", self.currency.encode());
        put(&mut members, "totalAmount", self.total_amount.encode());
        put(&mut members, "invoicePayload", self.invoice_payload.encode());
        put(&mut members, "shippingOptionId", self.shipping_option_id.encode());
        put(&mut members, "orderInfo", self.order_info.encode());
        seal(members, "updateNewPreCheckoutQuery")
    }

    fn decode(j: &Json, at: &str) -> (r: Result<Self, DecodeError>) {
        proof {
            reveal(<UpdateNewPreCheckoutQuery as Wire>::wire);
            reveal(<UpdateNewPreCheckoutQuery as Wire>::parse);
        }
        let members = members_of(j, at)?;
        let id = read_wide(members, "id")?;
        let sender_user_id = read_field::<i32>(members, "senderUserId")?;
        let currency = read_field::<String>(members, "currency")?;
        let total_amount = read_field::<i64>(members, "totalAmount")?;
        let invoice_payload = read_field::<String>(members, "invoicePayload")?;
        let shipping_option_id = read_field::<String>(members, "shippingOptionId")?;
        let order_info = read_optional::<OrderInfo>(members, "orderInfo")?;
        Ok(UpdateNewPreCheckoutQuery {
            id,
            sender_user_id,
            currency,
            total_amount,
            invoice_payload,
            shipping_option_id,
            order_info,
        })
    }

    proof fn round_trip(&self, at: Seq<char>) {
        reveal(<UpdateNewPreCheckoutQuery as Wire>::wire);
        reveal(<UpdateNewPreCheckoutQuery as Wire>::parse);
        reveal_strlit("@type");
        reveal_strlit("currency");
        reveal_strlit("id");
        reveal_strlit("invoicePayload");
        reveal_strlit("orderInfo");
        reveal_strlit("senderUserId");
        reveal_strlit("shippingOptionId");
        reveal_strlit("totalAmount");
        assert("@type"@.len() == 5);
        assert("currency"@.len() == 8);
        assert("id"@.len() == 2);
        assert("invoicePayload"@.len() == 14);
        assert("orderInfo"@.len() == 9);
        assert("senderUserId"@.len() == 12);
        assert("shippingOptionId"@.len() == 16);
        assert("totalAmount"@.len() == 11);
        lemma_wide_round_trip(self.id, "id"@);
        self.sender_user_id.round_trip("senderUserId"@);
        self.currency.round_trip("currency"@);
        self.total_amount.round_trip("totalAmount"@);
        self.invoice_payload.round_trip("invoicePayload"@);
        self.shipping_option_id.round_trip("shippingOptionId"@);
        self.order_info.round_trip("orderInfo"@);
    }
}

impl Tagged for UpdateNewPreCheckoutQuery {
    open spec fn known(tag: Seq<char>) -> bool {
        tag == "updateNewPreCheckoutQuery"@
    }

    fn knows(tag: &str) -> (r: bool) {
        same_text(tag, "updateNewPreCheckoutQuery")
    }

    proof fn tag_known(&self) {
        reveal(<UpdateNewPreCheckoutQuery as Wire>::wire);
        assert(tag_of(self.wire()) == Some("updateNewPreCheckoutQuery"@));
        assert(Self::known("updateNewPreCheckoutQuery"@));
    }
}

/// A new incoming event; for bots only
#[derive(Debug, Clone, PartialEq)]
pub struct UpdateNewCustomEvent {
    /// A JSON-serialized event
    pub event: String,
}

impl Wire for UpdateNewCustomEvent {
    #[verifier::opaque]
    open spec fn wire(&self) -> Doc {
        tagged(
            Map::empty()
                .insert("event"@, self.event.wire()),
            "updateNewCustomEvent"@,
        )
    }

    #[verifier::opaque]
    open spec fn parse(d: Doc, at: Seq<char>) -> Result<Doc, Fault> {
        match d {
            Doc::Object(m) => {
                let event = field::<String>(m, "event"@);
                if event is Err {
                    event
                } else {
                    Ok(
                        tagged(
                            Map::empty()
                                .insert("event"@, event->Ok_0),
                            "updateNewCustomEvent"@,
                        ),
                    )
                }
            },
            _ => Err(Fault::TypeMismatch(at)),
        }
    }

    fn encode(&self) -> (j: Json) {
        proof {
            reveal(<UpdateNewCustomEvent as Wire>::wire);
        }
        let mut members: Vec<Member> = Vec::new();
        put(&mut members, "event", self.event.encode());
        seal(members, "updateNewCustomEvent")
    }

    fn decode(j: &Json, at: &str) -> (r: Result<Self, DecodeError>) {
        proof {
            reveal(<UpdateNewCustomEvent as Wire>::wire);
            reveal(<UpdateNewCustomEvent as Wire>::parse);
        }
        let members = members_of(j, at)?;
        let event = read_field::<String>(members, "event")?;
        Ok(UpdateNewCustomEvent { event })
    }

    proof fn round_trip(&self, at: Seq<char>) {
        reveal(<UpdateNewCustomEvent as Wire>::wire);
        reveal(<UpdateNewCustomEvent as Wire>::parse);
        reveal_strlit("@type");
        reveal_strlit("event");
        assert("@type"@.len() == 5 && "@type"@[0] == '@');
        assert("event"@.len() == 5 && "event"@[0] == 'e');
        self.event.round_trip("event"@);
    }
}

impl Tagged for UpdateNewCustomEvent {
    open spec fn known(tag: Seq<char>) -> bool {
        tag == "updateNewCustomEvent"@
    }

    fn knows(tag: &str) -> (r: bool) {
        same_text(tag, "updateNewCustomEvent")
    }

    proof fn tag_known(&self) {
        reveal(<UpdateNewCustomEvent as Wire>::wire);
        assert(tag_of(self.wire()) == Some("updateNewCustomEvent"@));
        assert(Self::known("updateNewCustomEvent"@));
    }
}

/// A new incoming query; for bots only
#[derive(Debug, Clone, PartialEq)]
pub struct UpdateNewCustomQuery {
    /// The query identifier
    pub id: i64,
    /// JSON-serialized query data
    pub data: String,
    /// Query timeout
    pub timeout: i32,
}

impl Wire for UpdateNewCustomQuery {
    #[verifier::opaque]
    open spec fn wire(&self) -> Doc {
        tagged(
            Map::empty()
                .insert("id"@, wide_doc(self.id))
                .insert("data"@, self.data.wire())
                .insert("timeout"@, self.timeout.wire()),
            "updateNewCustomQuery"@,
        )
    }

    #[verifier::opaque]
    open spec fn parse(d: Doc, at: Seq<char>) -> Result<Doc, Fault> {
        match d {
            Doc::Object(m) => {
                let id = wide_field(m, "id"@);
                let data = field::<String>(m, "data"@);
                let timeout = field::<i32>(m, "timeout"@);
                if id is Err {
                    id
                } else if data is Err {
                    data
                } else if timeout is Err {
                    timeout
                } else {
                    Ok(
                        tagged(
                            Map::empty()
                                .insert("id"@, id->Ok_0)
                                .insert("data"@, data->Ok_0)
                                .insert("timeout"@, timeout->Ok_0),
                            "updateNewCustomQuery"@,
                        ),
                    )
                }
            },
            _ => Err(Fault::TypeMismatch(at)),
        }
    }

    fn encode(&self) -> (j: Json) {
        proof {
            reveal(<UpdateNewCustomQuery as Wire>::wire);
        }
        let mut members: Vec<Member> = Vec::new();
        put(&mut members, "id", encode_wide(self.id));
        put(&mut members, "data", self.data.encode());
        put(&mut members, "timeout", self.timeout.encode());
        seal(members, "updateNewCustomQuery")
    }

    fn decode(j: &Json, at: &str) -> (r: Result<Self, DecodeError>) {
        proof {
            reveal(<UpdateNewCustomQuery as Wire>::wire);
            reveal(<UpdateNewCustomQuery as Wire>::parse);
        }
        let members = members_of(j, at)?;
        let id = read_wide(members, "id")?;
        let data = read_field::<String>(members, "data")?;
        let timeout = read_field::<i32>(members, "timeout")?;
        Ok(UpdateNewCustomQuery { id, data, timeout })
    }

    proof fn round_trip(&self, at: Seq<char>) {
        reveal(<UpdateNewCustomQuery as Wire>::wire);
        reveal(<UpdateNewCustomQuery as Wire>::parse);
        reveal_strlit("@type");
        reveal_strlit("data");
        reveal_strlit("id");
        reveal_strlit("timeout");
        assert("@type"@.len() == 5);
        assert("data"@.len() == 4);
        assert("id"@.len() == 2);
        assert("timeout"@.len() == 7);
        lemma_wide_round_trip(self.id, "id"@);
        self.data.round_trip("data"@);
        self.timeout.round_trip("timeout"@);
    }
}

impl Tagged for UpdateNewCustomQuery {
    open spec fn known(tag: Seq<char>) -> bool {
        tag == "updateNewCustomQuery"@
    }

    fn knows(tag: &str) -> (r: bool) {
        same_text(tag, "updateNewCustomQuery")
    }

    proof fn tag_known(&self) {
        reveal(<UpdateNewCustomQuery as Wire>::wire);
        assert(tag_of(self.wire()) == Some("updateNewCustomQuery"@));
        assert(Self::known("updateNewCustomQuery"@));
    }
}

/// A poll was updated; for bots only
#[derive(Debug, Clone, PartialEq)]
pub struct UpdatePoll {
    /// New data about the poll
    pub poll: Poll,
}

impl Wire for UpdatePoll {
    #[verifier::opaque]
    open spec fn wire(&self) -> Doc {
        tagged(
            Map::empty()
                .insert("poll"@, self.poll.wire()),
            "updatePoll"@,
        )
    }

    #[verifier::opaque]
    open spec fn parse(d: Doc, at: Seq<char>) -> Result<Doc, Fault> {
        match d {
            Doc::Object(m) => {
                let poll = field::<Poll>(m, "poll"@);
                if poll is Err {
                    poll
                } else {
                    Ok(
                        tagged(
                            Map::empty()
                                .insert("poll"@, poll->Ok_0),
                            "updatePoll"@,
                        ),
                    )
                }
            },
            _ => Err(Fault::TypeMismatch(at)),
        }
    }

    fn encode(&self) -> (j: Json) {
        proof {
            reveal(<UpdatePoll as Wire>::wire);
        }
        let mut members: Vec<Member> = Vec::new();
        put(&mut members, "poll", self.poll.encode());
        seal(members, "updatePoll")
    }

    fn decode(j: &Json, at: &str) -> (r: Result<Self, DecodeError>) {
        proof {
            reveal(<UpdatePoll as Wire>::wire);
            reveal(<UpdatePoll as Wire>::parse);
        }
        let members = members_of(j, at)?;
        let poll = read_field::<Poll>(members, "poll")?;
        Ok(UpdatePoll { poll })
    }

    proof fn round_trip(&self, at: Seq<char>) {
        reveal(<UpdatePoll as Wire>::wire);
        reveal(<UpdatePoll as Wire>::parse);
        reveal_strlit("@type");
        reveal_strlit("poll");
        assert("@type"@.len() == 5);
        assert("poll"@.len() == 4);
        self.poll.round_trip("poll"@);
    }
}

impl Tagged for UpdatePoll {
    open spec fn known(tag: Seq<char>) -> bool {
        tag == "updatePoll"@
    }

    fn knows(tag: &str) -> (r: bool) {
        same_text(tag, "updatePoll")
    }

    proof fn tag_known(&self) {
        reveal(<UpdatePoll as Wire>::wire);
        assert(tag_of(self.wire()) == Some("updatePoll"@));
        assert(Self::known("updatePoll"@));
    }
}

/// A user changed the answer to a poll; for bots only
#[derive(Debug, Clone, PartialEq)]
pub struct UpdatePollAnswer {
    /// Unique poll identifier
    pub poll_id: i64,
    /// The user, who changed the answer to the poll
    pub user_id: i32,
    /// 0-based identifiers of answer options, chosen by the user
    pub option_ids: Vec<i32>,
}

impl Wire for UpdatePollAnswer {
    #[verifier::opaque]
    open spec fn wire(&self) -> Doc {
        tagged(
            Map::empty()
                .insert("pollId"@, wide_doc(self.poll_id))
                .insert("userId"@, self.user_id.wire())
                .insert("optionIds"@, self.option_ids.wire()),
            "updatePollAnswer"@,
        )
    }

    #[verifier::opaque]
    open spec fn parse(d: Doc, at: Seq<char>) -> Result<Doc, Fault> {
        match d {
            Doc::Object(m) => {
                let poll_id = wide_field(m, "pollId"@);
                let user_id = field::<i32>(m, "userId"@);
                let option_ids = field::<Vec<i32>>(m, "optionIds"@);
                if poll_id is Err {
                    poll_id
                } else if user_id is Err {
                    user_id
                } else if option_ids is Err {
                    option_ids
                } else {
                    Ok(
                        tagged(
                            Map::empty()
                                .insert("pollId"@, poll_id->Ok_0)
                                .insert("userId"@, user_id->Ok_0)
                                .insert("optionIds"@, option_ids->Ok_0),
                            "updatePollAnswer"@,
                        ),
                    )
                }
            },
            _ => Err(Fault::TypeMismatch(at)),
        }
    }

    fn encode(&self) -> (j: Json) {
        proof {
            reveal(<UpdatePollAnswer as Wire>::wire);
        }
        let mut members: Vec<Member> = Vec::new();
        put(&mut members, "pollId", encode_wide(self.poll_id));
        put(&mut members, "userId", self.user_id.encode());
        put(&mut members, "optionIds", self.option_ids.encode());
        seal(members, "updatePollAnswer")
    }

    fn decode(j: &Json, at: &str) -> (r: Result<Self, DecodeError>) {
        proof {
            reveal(<UpdatePollAnswer as Wire>::wire);
            reveal(<UpdatePollAnswer as Wire>::parse);
        }
        let members = members_of(j, at)?;
        let poll_id = read_wide(members, "pollId")?;
        let user_id = read_field::<i32>(members, "userId")?;
        let option_ids = read_field::<Vec<i32>>(members, "optionIds")?;
        Ok(UpdatePollAnswer { poll_id, user_id, option_ids })
    }

    proof fn round_trip(&self, at: Seq<char>) {
        reveal(<UpdatePollAnswer as Wire>::wire);
        reveal(<UpdatePollAnswer as Wire>::parse);
        reveal_strlit("@type");
        reveal_strlit("optionIds");
        reveal_strlit("pollId");
        reveal_strlit("userId");
        assert("@type"@.len() == 5);
        assert("optionIds"@.len() == 9);
        assert("pollId"@.len() == 6 && "pollId"@[0] == 'p');
        assert("userId"@.len() == 6 && "userId"@[0] == 'u');
        lemma_wide_round_trip(self.poll_id, "pollId"@);
        self.user_id.round_trip("userId"@);
        self.option_ids.round_trip("optionIds"@);
    }
}

impl Tagged for UpdatePollAnswer {
    open spec fn known(tag: Seq<char>) -> bool {
        tag == "updatePollAnswer"@
    }

    fn knows(tag: &str) -> (r: bool) {
        same_text(tag, "updatePollAnswer")
    }

    proof fn tag_known(&self) {
        reveal(<UpdatePollAnswer as Wire>::wire);
        assert(tag_of(self.wire()) == Some("updatePollAnswer"@));
        assert(Self::known("updatePollAnswer"@));
    }
}

/// Contains notifications about data changes
#[derive(Debug, Clone, PartialEq)]
pub enum Update {
    UpdateAuthorizationState(UpdateAuthorizationState),
    UpdateNewMessage(UpdateNewMessage),
    UpdateMessageSendAcknowledged(UpdateMessageSendAcknowledged),
    UpdateMessageSendSucceeded(UpdateMessageSendSucceeded),
    UpdateMessageSendFailed(UpdateMessageSendFailed),
    UpdateMessageContent(UpdateMessageContent),
    UpdateMessageEdited(UpdateMessageEdited),
    UpdateMessageViews(UpdateMessageViews),
    UpdateMessageContentOpened(UpdateMessageContentOpened),
    UpdateMessageMentionRead(UpdateMessageMentionRead),
    UpdateMessageLiveLocationViewed(UpdateMessageLiveLocationViewed),
    UpdateNewChat(Box<UpdateNewChat>),
    UpdateChatChatList(UpdateChatChatList),
    UpdateChatTitle(UpdateChatTitle),
    UpdateChatPhoto(UpdateChatPhoto),
    UpdateChatPermissions(UpdateChatPermissions),
    UpdateChatLastMessage(UpdateChatLastMessage),
    UpdateChatOrder(UpdateChatOrder),
    UpdateChatIsPinned(UpdateChatIsPinned),
    UpdateChatIsMarkedAsUnread(UpdateChatIsMarkedAsUnread),
    UpdateChatIsSponsored(UpdateChatIsSponsored),
    UpdateChatHasScheduledMessages(UpdateChatHasScheduledMessages),
    UpdateChatDefaultDisableNotification(UpdateChatDefaultDisableNotification),
    UpdateChatReadInbox(UpdateChatReadInbox),
    UpdateChatReadOutbox(UpdateChatReadOutbox),
    UpdateChatUnreadMentionCount(UpdateChatUnreadMentionCount),
    UpdateChatNotificationSettings(UpdateChatNotificationSettings),
    UpdateScopeNotificationSettings(UpdateScopeNotificationSettings),
    UpdateChatActionBar(UpdateChatActionBar),
    UpdateChatPinnedMessage(UpdateChatPinnedMessage),
    UpdateChatReplyMarkup(UpdateChatReplyMarkup),
    UpdateChatDraftMessage(UpdateChatDraftMessage),
    UpdateChatOnlineMemberCount(UpdateChatOnlineMemberCount),
    UpdateNotification(UpdateNotification),
    UpdateNotificationGroup(UpdateNotificationGroup),
    UpdateActiveNotifications(UpdateActiveNotifications),
    UpdateHavePendingNotifications(UpdateHavePendingNotifications),
    UpdateDeleteMessages(UpdateDeleteMessages),
    UpdateUserChatAction(UpdateUserChatAction),
    UpdateUserStatus(UpdateUserStatus),
    UpdateUser(UpdateUser),
    UpdateBasicGroup(UpdateBasicGroup),
    UpdateSupergroup(UpdateSupergroup),
    UpdateSecretChat(UpdateSecretChat),
    UpdateUserFullInfo(UpdateUserFullInfo),
    UpdateBasicGroupFullInfo(UpdateBasicGroupFullInfo),
    UpdateSupergroupFullInfo(UpdateSupergroupFullInfo),
    UpdateServiceNotification(UpdateServiceNotification),
    UpdateFile(UpdateFile),
    UpdateFileGenerationStart(UpdateFileGenerationStart),
    UpdateFileGenerationStop(UpdateFileGenerationStop),
    UpdateCall(UpdateCall),
    UpdateUserPrivacySettingRules(UpdateUserPrivacySettingRules),
    UpdateUnreadMessageCount(UpdateUnreadMessageCount),
    UpdateUnreadChatCount(UpdateUnreadChatCount),
    UpdateOption(UpdateOption),
    UpdateInstalledStickerSets(UpdateInstalledStickerSets),
    UpdateTrendingStickerSets(UpdateTrendingStickerSets),
    UpdateRecentStickers(UpdateRecentStickers),
    UpdateFavoriteStickers(UpdateFavoriteStickers),
    UpdateSavedAnimations(UpdateSavedAnimations),
    UpdateSelectedBackground(UpdateSelectedBackground),
    UpdateLanguagePackStrings(UpdateLanguagePackStrings),
    UpdateConnectionState(UpdateConnectionState),
    UpdateTermsOfService(UpdateTermsOfService),
    UpdateUsersNearby(UpdateUsersNearby),
    UpdateNewInlineQuery(UpdateNewInlineQuery),
    UpdateNewChosenInlineResult(UpdateNewChosenInlineResult),
    UpdateNewCallbackQuery(UpdateNewCallbackQuery),
    UpdateNewInlineCallbackQuery(UpdateNewInlineCallbackQuery),
    UpdateNewShippingQuery(UpdateNewShippingQuery),
    UpdateNewPreCheckoutQuery(UpdateNewPreCheckoutQuery),
    UpdateNewCustomEvent(UpdateNewCustomEvent),
    UpdateNewCustomQuery(UpdateNewCustomQuery),
    UpdatePoll(UpdatePoll),
    UpdatePollAnswer(UpdatePollAnswer),
}

impl Wire for Update {
    #[verifier::opaque]
    open spec fn wire(&self) -> Doc {
        match self {
            Self::UpdateAuthorizationState(p) => p.wire(),
            Self::UpdateNewMessage(p) => p.wire(),
            Self::UpdateMessageSendAcknowledged(p) => p.wire(),
            Self::UpdateMessageSendSucceeded(p) => p.wire(),
            Self::UpdateMessageSendFailed(p) => p.wire(),
            Self::UpdateMessageContent(p) => p.wire(),
            Self::UpdateMessageEdited(p) => p.wire(),
            Self::UpdateMessageViews(p) => p.wire(),
            Self::UpdateMessageContentOpened(p) => p.wire(),
            Self::UpdateMessageMentionRead(p) => p.wire(),
            Self::UpdateMessageLiveLocationViewed(p) => p.wire(),
            Self::UpdateNewChat(p) => p.wire(),
            Self::UpdateChatChatList(p) => p.wire(),
            Self::UpdateChatTitle(p) => p.wire(),
            Self::UpdateChatPhoto(p) => p.wire(),
            Self::UpdateChatPermissions(p) => p.wire(),
            Self::UpdateChatLastMessage(p) => p.wire(),
            Self::UpdateChatOrder(p) => p.wire(),
            Self::UpdateChatIsPinned(p) => p.wire(),
            Self::UpdateChatIsMarkedAsUnread(p) => p.wire(),
            Self::UpdateChatIsSponsored(p) => p.wire(),
            Self::UpdateChatHasScheduledMessages(p) => p.wire(),
            Self::UpdateChatDefaultDisableNotification(p) => p.wire(),
            Self::UpdateChatReadInbox(p) => p.wire(),
            Self::UpdateChatReadOutbox(p) => p.wire(),
            Self::UpdateChatUnreadMentionCount(p) => p.wire(),
            Self::UpdateChatNotificationSettings(p) => p.wire(),
            Self::UpdateScopeNotificationSettings(p) => p.wire(),
            Self::UpdateChatActionBar(p) => p.wire(),
            Self::UpdateChatPinnedMessage(p) => p.wire(),
            Self::UpdateChatReplyMarkup(p) => p.wire(),
            Self::UpdateChatDraftMessage(p) => p.wire(),
            Self::UpdateChatOnlineMemberCount(p) => p.wire(),
            Self::UpdateNotification(p) => p.wire(),
            Self::UpdateNotificationGroup(p) => p.wire(),
            Self::UpdateActiveNotifications(p) => p.wire(),
            Self::UpdateHavePendingNotifications(p) => p.wire(),
            Self::UpdateDeleteMessages(p) => p.wire(),
            Self::UpdateUserChatAction(p) => p.wire(),
            Self::UpdateUserStatus(p) => p.wire(),
            Self::UpdateUser(p) => p.wire(),
            Self::UpdateBasicGroup(p) => p.wire(),
            Self::UpdateSupergroup(p) => p.wire(),
            Self::UpdateSecretChat(p) => p.wire(),
            Self::UpdateUserFullInfo(p) => p.wire(),
            Self::UpdateBasicGroupFullInfo(p) => p.wire(),
            Self::UpdateSupergroupFullInfo(p) => p.wire(),
            Self::UpdateServiceNotification(p) => p.wire(),
            Self::UpdateFile(p) => p.wire(),
            Self::UpdateFileGenerationStart(p) => p.wire(),
            Self::UpdateFileGenerationStop(p) => p.wire(),
            Self::UpdateCall(p) => p.wire(),
            Self::UpdateUserPrivacySettingRules(p) => p.wire(),
            Self::UpdateUnreadMessageCount(p) => p.wire(),
            Self::UpdateUnreadChatCount(p) => p.wire(),
            Self::UpdateOption(p) => p.wire(),
            Self::UpdateInstalledStickerSets(p) => p.wire(),
            Self::UpdateTrendingStickerSets(p) => p.wire(),
            Self::UpdateRecentStickers(p) => p.wire(),
            Self::UpdateFavoriteStickers(p) => p.wire(),
            Self::UpdateSavedAnimations(p) => p.wire(),
            Self::UpdateSelectedBackground(p) => p.wire(),
            Self::UpdateLanguagePackStrings(p) => p.wire(),
            Self::UpdateConnectionState(p) => p.wire(),
            Self::UpdateTermsOfService(p) => p.wire(),
            Self::UpdateUsersNearby(p) => p.wire(),
            Self::UpdateNewInlineQuery(p) => p.wire(),
            Self::UpdateNewChosenInlineResult(p) => p.wire(),
            Self::UpdateNewCallbackQuery(p) => p.wire(),
            Self::UpdateNewInlineCallbackQuery(p) => p.wire(),
            Self::UpdateNewShippingQuery(p) => p.wire(),
            Self::UpdateNewPreCheckoutQuery(p) => p.wire(),
            Self::UpdateNewCustomEvent(p) => p.wire(),
            Self::UpdateNewCustomQuery(p) => p.wire(),
            Self::UpdatePoll(p) => p.wire(),
            Self::UpdatePollAnswer(p) => p.wire(),
        }
    }

    #[verifier::opaque]
    open spec fn parse(d: Doc, at: Seq<char>) -> Result<Doc, Fault> {
        match d {
            Doc::Object(_) => match tag_of(d) {
                Some(t) => if t == "updateAuthorizationState"@ {
                    UpdateAuthorizationState::parse(d, at)
                } else if t == "updateNewMessage"@ {
                    UpdateNewMessage::parse(d, at)
                } else if t == "updateMessageSendAcknowledged"@ {
                    UpdateMessageSendAcknowledged::parse(d, at)
                } else if t == "updateMessageSendSucceeded"@ {
                    UpdateMessageSendSucceeded::parse(d, at)
                } else if t == "updateMessageSendFailed"@ {
                    UpdateMessageSendFailed::parse(d, at)
                } else if t == "updateMessageContent"@ {
                    UpdateMessageContent::parse(d, at)
                } else if t == "updateMessageEdited"@ {
                    UpdateMessageEdited::parse(d, at)
                } else if t == "updateMessageViews"@ {
                    UpdateMessageViews::parse(d, at)
                } else if t == "updateMessageContentOpened"@ {
                    UpdateMessageContentOpened::parse(d, at)
                } else if t == "updateMessageMentionRead"@ {
                    UpdateMessageMentionRead::parse(d, at)
                } else if t == "updateMessageLiveLocationViewed"@ {
                    UpdateMessageLiveLocationViewed::parse(d, at)
                } else if t == "updateNewChat"@ {
                    UpdateNewChat::parse(d, at)
                } else if t == "updateChatChatList"@ {
                    UpdateChatChatList::parse(d, at)
                } else if t == "updateChatTitle"@ {
                    UpdateChatTitle::parse(d, at)
                } else if t == "updateChatPhoto"@ {
                    UpdateChatPhoto::parse(d, at)
                } else if t == "updateChatPermissions"@ {
                    UpdateChatPermissions::parse(d, at)
                } else if t == "updateChatLastMessage"@ {
                    UpdateChatLastMessage::parse(d, at)
                } else if t == "updateChatOrder"@ {
                    UpdateChatOrder::parse(d, at)
                } else if t == "updateChatIsPinned"@ {
                    UpdateChatIsPinned::parse(d, at)
                } else if t == "updateChatIsMarkedAsUnread"@ {
                    UpdateChatIsMarkedAsUnread::parse(d, at)
                } else if t == "updateChatIsSponsored"@ {
                    UpdateChatIsSponsored::parse(d, at)
                } else if t == "updateChatHasScheduledMessages"@ {
                    UpdateChatHasScheduledMessages::parse(d, at)
                } else if t == "updateChatDefaultDisableNotification"@ {
                    UpdateChatDefaultDisableNotification::parse(d, at)
                } else if t == "updateChatReadInbox"@ {
                    UpdateChatReadInbox::parse(d, at)
                } else if t == "updateChatReadOutbox"@ {
                    UpdateChatReadOutbox::parse(d, at)
                } else if t == "updateChatUnreadMentionCount"@ {
                    UpdateChatUnreadMentionCount::parse(d, at)
                } else if t == "updateChatNotificationSettings"@ {
                    UpdateChatNotificationSettings::parse(d, at)
                } else if t == "updateScopeNotificationSettings"@ {
                    UpdateScopeNotificationSettings::parse(d, at)
                } else if t == "updateChatActionBar"@ {
                    UpdateChatActionBar::parse(d, at)
                } else if t == "updateChatPinnedMessage"@ {
                    UpdateChatPinnedMessage::parse(d, at)
                } else if t == "updateChatReplyMarkup"@ {
                    UpdateChatReplyMarkup::parse(d, at)
                } else if t == "updateChatDraftMessage"@ {
                    UpdateChatDraftMessage::parse(d, at)
                } else if t == "updateChatOnlineMemberCount"@ {
                    UpdateChatOnlineMemberCount::parse(d, at)
                } else if t == "updateNotification"@ {
                    UpdateNotification::parse(d, at)
                } else if t == "updateNotificationGroup"@ {
                    UpdateNotificationGroup::parse(d, at)
                } else if t == "updateActiveNotifications"@ {
                    UpdateActiveNotifications::parse(d, at)
                } else if t == "updateHavePendingNotifications"@ {
                    UpdateHavePendingNotifications::parse(d, at)
                } else if t == "updateDeleteMessages"@ {
                    UpdateDeleteMessages::parse(d, at)
                } else if t == "updateUserChatAction"@ {
                    UpdateUserChatAction::parse(d, at)
                } else if t == "updateUserStatus"@ {
                    UpdateUserStatus::parse(d, at)
                } else if t == "updateUser"@ {
                    UpdateUser::parse(d, at)
                } else if t == "updateBasicGroup"@ {
                    UpdateBasicGroup::parse(d, at)
                } else if t == "updateSupergroup"@ {
                    UpdateSupergroup::parse(d, at)
                } else if t == "updateSecretChat"@ {
                    UpdateSecretChat::parse(d, at)
                } else if t == "updateUserFullInfo"@ {
                    UpdateUserFullInfo::parse(d, at)
                } else if t == "updateBasicGroupFullInfo"@ {
                    UpdateBasicGroupFullInfo::parse(d, at)
                } else if t == "updateSupergroupFullInfo"@ {
                    UpdateSupergroupFullInfo::parse(d, at)
                } else if t == "updateServiceNotification"@ {
                    UpdateServiceNotification::parse(d, at)
                } else if t == "updateFile"@ {
                    UpdateFile::parse(d, at)
                } else if t == "updateFileGenerationStart"@ {
                    UpdateFileGenerationStart::parse(d, at)
                } else if t == "updateFileGenerationStop"@ {
                    UpdateFileGenerationStop::parse(d, at)
                } else if t == "updateCall"@ {
                    UpdateCall::parse(d, at)
                } else if t == "updateUserPrivacySettingRules"@ {
                    UpdateUserPrivacySettingRules::parse(d, at)
                } else if t == "updateUnreadMessageCount"@ {
                    UpdateUnreadMessageCount::parse(d, at)
                } else if t == "updateUnreadChatCount"@ {
                    UpdateUnreadChatCount::parse(d, at)
                } else if t == "updateOption"@ {
                    UpdateOption::parse(d, at)
                } else if t == "updateInstalledStickerSets"@ {
                    UpdateInstalledStickerSets::parse(d, at)
                } else if t == "updateTrendingStickerSets"@ {
                    UpdateTrendingStickerSets::parse(d, at)
                } else if t == "updateRecentStickers"@ {
                    UpdateRecentStickers::parse(d, at)
                } else if t == "updateFavoriteStickers"@ {
                    UpdateFavoriteStickers::parse(d, at)
                } else if t == "updateSavedAnimations"@ {
                    UpdateSavedAnimations::parse(d, at)
                } else if t == "updateSelectedBackground"@ {
                    UpdateSelectedBackground::parse(d, at)
                } else if t == "updateLanguagePackStrings"@ {
                    UpdateLanguagePackStrings::parse(d, at)
                } else if t == "updateConnectionState"@ {
                    UpdateConnectionState::parse(d, at)
                } else if t == "updateTermsOfService"@ {
                    UpdateTermsOfService::parse(d, at)
                } else if t == "updateUsersNearby"@ {
                    UpdateUsersNearby::parse(d, at)
                } else if t == "updateNewInlineQuery"@ {
                    UpdateNewInlineQuery::parse(d, at)
                } else if t == "updateNewChosenInlineResult"@ {
                    UpdateNewChosenInlineResult::parse(d, at)
                } else if t == "updateNewCallbackQuery"@ {
                    UpdateNewCallbackQuery::parse(d, at)
                } else if t == "updateNewInlineCallbackQuery"@ {
                    UpdateNewInlineCallbackQuery::parse(d, at)
                } else if t == "updateNewShippingQuery"@ {
                    UpdateNewShippingQuery::parse(d, at)
                } else if t == "updateNewPreCheckoutQuery"@ {
                    UpdateNewPreCheckoutQuery::parse(d, at)
                } else if t == "updateNewCustomEvent"@ {
                    UpdateNewCustomEvent::parse(d, at)
                } else if t == "updateNewCustomQuery"@ {
                    UpdateNewCustomQuery::parse(d, at)
                } else if t == "updatePoll"@ {
                    UpdatePoll::parse(d, at)
                } else if t == "updatePollAnswer"@ {
                    UpdatePollAnswer::parse(d, at)
                } else {
                    Err(Fault::UnknownVariant(t))
                },
                None => Err(Fault::MissingDiscriminator),
            },
            _ => Err(Fault::TypeMismatch(at)),
        }
    }

    fn encode(&self) -> (j: Json) {
        proof {
            reveal(<Update as Wire>::wire);
        }
        match self {
            Self::UpdateAuthorizationState(p) => p.encode(),
            Self::UpdateNewMessage(p) => p.encode(),
            Self::UpdateMessageSendAcknowledged(p) => p.encode(),
            Self::UpdateMessageSendSucceeded(p) => p.encode(),
            Self::UpdateMessageSendFailed(p) => p.encode(),
            Self::UpdateMessageContent(p) => p.encode(),
            Self::UpdateMessageEdited(p) => p.encode(),
            Self::UpdateMessageViews(p) => p.encode(),
            Self::UpdateMessageContentOpened(p) => p.encode(),
            Self::UpdateMessageMentionRead(p) => p.encode(),
            Self::UpdateMessageLiveLocationViewed(p) => p.encode(),
            Self::UpdateNewChat(p) => p.encode(),
            Self::UpdateChatChatList(p) => p.encode(),
            Self::UpdateChatTitle(p) => p.encode(),
            Self::UpdateChatPhoto(p) => p.encode(),
            Self::UpdateChatPermissions(p) => p.encode(),
            Self::UpdateChatLastMessage(p) => p.encode(),
            Self::UpdateChatOrder(p) => p.encode(),
            Self::UpdateChatIsPinned(p) => p.encode(),
            Self::UpdateChatIsMarkedAsUnread(p) => p.encode(),
            Self::UpdateChatIsSponsored(p) => p.encode(),
            Self::UpdateChatHasScheduledMessages(p) => p.encode(),
            Self::UpdateChatDefaultDisableNotification(p) => p.encode(),
            Self::UpdateChatReadInbox(p) => p.encode(),
            Self::UpdateChatReadOutbox(p) => p.encode(),
            Self::UpdateChatUnreadMentionCount(p) => p.encode(),
            Self::UpdateChatNotificationSettings(p) => p.encode(),
            Self::UpdateScopeNotificationSettings(p) => p.encode(),
            Self::UpdateChatActionBar(p) => p.encode(),
            Self::UpdateChatPinnedMessage(p) => p.encode(),
            Self::UpdateChatReplyMarkup(p) => p.encode(),
            Self::UpdateChatDraftMessage(p) => p.encode(),
            Self::UpdateChatOnlineMemberCount(p) => p.encode(),
            Self::UpdateNotification(p) => p.encode(),
            Self::UpdateNotificationGroup(p) => p.encode(),
            Self::UpdateActiveNotifications(p) => p.encode(),
            Self::UpdateHavePendingNotifications(p) => p.encode(),
            Self::UpdateDeleteMessages(p) => p.encode(),
            Self::UpdateUserChatAction(p) => p.encode(),
            Self::UpdateUserStatus(p) => p.encode(),
            Self::UpdateUser(p) => p.encode(),
            Self::UpdateBasicGroup(p) => p.encode(),
            Self::UpdateSupergroup(p) => p.encode(),
            Self::UpdateSecretChat(p) => p.encode(),
            Self::UpdateUserFullInfo(p) => p.encode(),
            Self::UpdateBasicGroupFullInfo(p) => p.encode(),
            Self::UpdateSupergroupFullInfo(p) => p.encode(),
            Self::UpdateServiceNotification(p) => p.encode(),
            Self::UpdateFile(p) => p.encode(),
            Self::UpdateFileGenerationStart(p) => p.encode(),
            Self::UpdateFileGenerationStop(p) => p.encode(),
            Self::UpdateCall(p) => p.encode(),
            Self::UpdateUserPrivacySettingRules(p) => p.encode(),
            Self::UpdateUnreadMessageCount(p) => p.encode(),
            Self::UpdateUnreadChatCount(p) => p.encode(),
            Self::UpdateOption(p) => p.encode(),
            Self::UpdateInstalledStickerSets(p) => p.encode(),
            Self::UpdateTrendingStickerSets(p) => p.encode(),
            Self::UpdateRecentStickers(p) => p.encode(),
            Self::UpdateFavoriteStickers(p) => p.encode(),
            Self::UpdateSavedAnimations(p) => p.encode(),
            Self::UpdateSelectedBackground(p) => p.encode(),
            Self::UpdateLanguagePackStrings(p) => p.encode(),
            Self::UpdateConnectionState(p) => p.encode(),
            Self::UpdateTermsOfService(p) => p.encode(),
            Self::UpdateUsersNearby(p) => p.encode(),
            Self::UpdateNewInlineQuery(p) => p.encode(),
            Self::UpdateNewChosenInlineResult(p) => p.encode(),
            Self::UpdateNewCallbackQuery(p) => p.encode(),
            Self::UpdateNewInlineCallbackQuery(p) => p.encode(),
            Self::UpdateNewShippingQuery(p) => p.encode(),
            Self::UpdateNewPreCheckoutQuery(p) => p.encode(),
            Self::UpdateNewCustomEvent(p) => p.encode(),
            Self::UpdateNewCustomQuery(p) => p.encode(),
            Self::UpdatePoll(p) => p.encode(),
            Self::UpdatePollAnswer(p) => p.encode(),
        }
    }

    fn decode(j: &Json, at: &str) -> (r: Result<Self, DecodeError>) {
        proof {
            reveal(<Update as Wire>::wire);
            reveal(<Update as Wire>::parse);
        }
        let members = members_of(j, at)?;
        let tag = discriminator(members)?;
        if same_text(tag, "updateAuthorizationState") {
            Ok(Self::UpdateAuthorizationState(UpdateAuthorizationState::decode(j, at)?))
        } else if same_text(tag, "updateNewMessage") {
            Ok(Self::UpdateNewMessage(UpdateNewMessage::decode(j, at)?))
        } else if same_text(tag, "updateMessageSendAcknowledged") {
            Ok(Self::UpdateMessageSendAcknowledged(UpdateMessageSendAcknowledged::decode(j, at)?))
        } else if same_text(tag, "updateMessageSendSucceeded") {
            Ok(Self::UpdateMessageSendSucceeded(UpdateMessageSendSucceeded::decode(j, at)?))
        } else if same_text(tag, "updateMessageSendFailed") {
            Ok(Self::UpdateMessageSendFailed(UpdateMessageSendFailed::decode(j, at)?))
        } else if same_text(tag, "updateMessageContent") {
            Ok(Self::UpdateMessageContent(UpdateMessageContent::decode(j, at)?))
        } else if same_text(tag, "updateMessageEdited") {
            Ok(Self::UpdateMessageEdited(UpdateMessageEdited::decode(j, at)?))
        } else if same_text(tag, "updateMessageViews") {
            Ok(Self::UpdateMessageViews(UpdateMessageViews::decode(j, at)?))
        } else if same_text(tag, "updateMessageContentOpened") {
            Ok(Self::UpdateMessageContentOpened(UpdateMessageContentOpened::decode(j, at)?))
        } else if same_text(tag, "updateMessageMentionRead") {
            Ok(Self::UpdateMessageMentionRead(UpdateMessageMentionRead::decode(j, at)?))
        } else if same_text(tag, "updateMessageLiveLocationViewed") {
            Ok(
                Self::UpdateMessageLiveLocationViewed(
                    UpdateMessageLiveLocationViewed::decode(j, at)?,
                ),
            )
        } else if same_text(tag, "updateNewChat") {
            Ok(Self::UpdateNewChat(Box::<UpdateNewChat>::decode(j, at)?))
        } else if same_text(tag, "updateChatChatList") {
            Ok(Self::UpdateChatChatList(UpdateChatChatList::decode(j, at)?))
        } else if same_text(tag, "updateChatTitle") {
            Ok(Self::UpdateChatTitle(UpdateChatTitle::decode(j, at)?))
        } else if same_text(tag, "updateChatPhoto") {
            Ok(Self::UpdateChatPhoto(UpdateChatPhoto::decode(j, at)?))
        } else if same_text(tag, "updateChatPermissions") {
            Ok(Self::UpdateChatPermissions(UpdateChatPermissions::decode(j, at)?))
        } else if same_text(tag, "updateChatLastMessage") {
            Ok(Self::UpdateChatLastMessage(UpdateChatLastMessage::decode(j, at)?))
        } else if same_text(tag, "updateChatOrder") {
            Ok(Self::UpdateChatOrder(UpdateChatOrder::decode(j, at)?))
        } else if same_text(tag, "updateChatIsPinned") {
            Ok(Self::UpdateChatIsPinned(UpdateChatIsPinned::decode(j, at)?))
        } else if same_text(tag, "updateChatIsMarkedAsUnread") {
            Ok(Self::UpdateChatIsMarkedAsUnread(UpdateChatIsMarkedAsUnread::decode(j, at)?))
        } else if same_text(tag, "updateChatIsSponsored") {
            Ok(Self::UpdateChatIsSponsored(UpdateChatIsSponsored::decode(j, at)?))
        } else if same_text(tag, "updateChatHasScheduledMessages") {
            Ok(Self::UpdateChatHasScheduledMessages(UpdateChatHasScheduledMessages::decode(j, at)?))
        } else if same_text(tag, "updateChatDefaultDisableNotification") {
            Ok(
                Self::UpdateChatDefaultDisableNotification(
                    UpdateChatDefaultDisableNotification::decode(j, at)?,
                ),
            )
        } else if same_text(tag, "updateChatReadInbox") {
            Ok(Self::UpdateChatReadInbox(UpdateChatReadInbox::decode(j, at)?))
        } else if same_text(tag, "updateChatReadOutbox") {
            Ok(Self::UpdateChatReadOutbox(UpdateChatReadOutbox::decode(j, at)?))
        } else if same_text(tag, "updateChatUnreadMentionCount") {
            Ok(Self::UpdateChatUnreadMentionCount(UpdateChatUnreadMentionCount::decode(j, at)?))
        } else if same_text(tag, "updateChatNotificationSettings") {
            Ok(Self::UpdateChatNotificationSettings(UpdateChatNotificationSettings::decode(j, at)?))
        } else if same_text(tag, "updateScopeNotificationSettings") {
            Ok(
                Self::UpdateScopeNotificationSettings(
                    UpdateScopeNotificationSettings::decode(j, at)?,
                ),
            )
        } else if same_text(tag, "updateChatActionBar") {
            Ok(Self::UpdateChatActionBar(UpdateChatActionBar::decode(j, at)?))
        } else if same_text(tag, "updateChatPinnedMessage") {
            Ok(Self::UpdateChatPinnedMessage(UpdateChatPinnedMessage::decode(j, at)?))
        } else if same_text(tag, "updateChatReplyMarkup") {
            Ok(Self::UpdateChatReplyMarkup(UpdateChatReplyMarkup::decode(j, at)?))
        } else if same_text(tag, "updateChatDraftMessage") {
            Ok(Self::UpdateChatDraftMessage(UpdateChatDraftMessage::decode(j, at)?))
        } else if same_text(tag, "updateChatOnlineMemberCount") {
            Ok(Self::UpdateChatOnlineMemberCount(UpdateChatOnlineMemberCount::decode(j, at)?))
        } else if same_text(tag, "updateNotification") {
            Ok(Self::UpdateNotification(UpdateNotification::decode(j, at)?))
        } else if same_text(tag, "updateNotificationGroup") {
            Ok(Self::UpdateNotificationGroup(UpdateNotificationGroup::decode(j, at)?))
        } else if same_text(tag, "updateActiveNotifications") {
            Ok(Self::UpdateActiveNotifications(UpdateActiveNotifications::decode(j, at)?))
        } else if same_text(tag, "updateHavePendingNotifications") {
            Ok(Self::UpdateHavePendingNotifications(UpdateHavePendingNotifications::decode(j, at)?))
        } else if same_text(tag, "updateDeleteMessages") {
            Ok(Self::UpdateDeleteMessages(UpdateDeleteMessages::decode(j, at)?))
        } else if same_text(tag, "updateUserChatAction") {
            Ok(Self::UpdateUserChatAction(UpdateUserChatAction::decode(j, at)?))
        } else if same_text(tag, "updateUserStatus") {
            Ok(Self::UpdateUserStatus(UpdateUserStatus::decode(j, at)?))
        } else if same_text(tag, "updateUser") {
            Ok(Self::UpdateUser(UpdateUser::decode(j, at)?))
        } else if same_text(tag, "updateBasicGroup") {
            Ok(Self::UpdateBasicGroup(UpdateBasicGroup::decode(j, at)?))
        } else if same_text(tag, "updateSupergroup") {
            Ok(Self::UpdateSupergroup(UpdateSupergroup::decode(j, at)?))
        } else if same_text(tag, "updateSecretChat") {
            Ok(Self::UpdateSecretChat(UpdateSecretChat::decode(j, at)?))
        } else if same_text(tag, "updateUserFullInfo") {
            Ok(Self::UpdateUserFullInfo(UpdateUserFullInfo::decode(j, at)?))
        } else if same_text(tag, "updateBasicGroupFullInfo") {
            Ok(Self::UpdateBasicGroupFullInfo(UpdateBasicGroupFullInfo::decode(j, at)?))
        } else if same_text(tag, "updateSupergroupFullInfo") {
            Ok(Self::UpdateSupergroupFullInfo(UpdateSupergroupFullInfo::decode(j, at)?))
        } else if same_text(tag, "updateServiceNotification") {
            Ok(Self::UpdateServiceNotification(UpdateServiceNotification::decode(j, at)?))
        } else if same_text(tag, "updateFile") {
            Ok(Self::UpdateFile(UpdateFile::decode(j, at)?))
        } else if same_text(tag, "updateFileGenerationStart") {
            Ok(Self::UpdateFileGenerationStart(UpdateFileGenerationStart::decode(j, at)?))
        } else if same_text(tag, "updateFileGenerationStop") {
            Ok(Self::UpdateFileGenerationStop(UpdateFileGenerationStop::decode(j, at)?))
        } else if same_text(tag, "updateCall") {
            Ok(Self::UpdateCall(UpdateCall::decode(j, at)?))
        } else if same_text(tag, "updateUserPrivacySettingRules") {
            Ok(Self::UpdateUserPrivacySettingRules(UpdateUserPrivacySettingRules::decode(j, at)?))
        } else if same_text(tag, "updateUnreadMessageCount") {
            Ok(Self::UpdateUnreadMessageCount(UpdateUnreadMessageCount::decode(j, at)?))
        } else if same_text(tag, "updateUnreadChatCount") {
            Ok(Self::UpdateUnreadChatCount(UpdateUnreadChatCount::decode(j, at)?))
        } else if same_text(tag, "updateOption") {
            Ok(Self::UpdateOption(UpdateOption::decode(j, at)?))
        } else if same_text(tag, "updateInstalledStickerSets") {
            Ok(Self::UpdateInstalledStickerSets(UpdateInstalledStickerSets::decode(j, at)?))
        } else if same_text(tag, "updateTrendingStickerSets") {
            Ok(Self::UpdateTrendingStickerSets(UpdateTrendingStickerSets::decode(j, at)?))
        } else if same_text(tag, "updateRecentStickers") {
            Ok(Self::UpdateRecentStickers(UpdateRecentStickers::decode(j, at)?))
        } else if same_text(tag, "updateFavoriteStickers") {
            Ok(Self::UpdateFavoriteStickers(UpdateFavoriteStickers::decode(j, at)?))
        } else if same_text(tag, "updateSavedAnimations") {
            Ok(Self::UpdateSavedAnimations(UpdateSavedAnimations::decode(j, at)?))
        } else if same_text(tag, "updateSelectedBackground") {
            Ok(Self::UpdateSelectedBackground(UpdateSelectedBackground::decode(j, at)?))
        } else if same_text(tag, "updateLanguagePackStrings") {
            Ok(Self::UpdateLanguagePackStrings(UpdateLanguagePackStrings::decode(j, at)?))
        } else if same_text(tag, "updateConnectionState") {
            Ok(Self::UpdateConnectionState(UpdateConnectionState::decode(j, at)?))
        } else if same_text(tag, "updateTermsOfService") {
            Ok(Self::UpdateTermsOfService(UpdateTermsOfService::decode(j, at)?))
        } else if same_text(tag, "updateUsersNearby") {
            Ok(Self::UpdateUsersNearby(UpdateUsersNearby::decode(j, at)?))
        } else if same_text(tag, "updateNewInlineQuery") {
            Ok(Self::UpdateNewInlineQuery(UpdateNewInlineQuery::decode(j, at)?))
        } else if same_text(tag, "updateNewChosenInlineResult") {
            Ok(Self::UpdateNewChosenInlineResult(UpdateNewChosenInlineResult::decode(j, at)?))
        } else if same_text(tag, "updateNewCallbackQuery") {
            Ok(Self::UpdateNewCallbackQuery(UpdateNewCallbackQuery::decode(j, at)?))
        } else if same_text(tag, "updateNewInlineCallbackQuery") {
            Ok(Self::UpdateNewInlineCallbackQuery(UpdateNewInlineCallbackQuery::decode(j, at)?))
        } else if same_text(tag, "updateNewShippingQuery") {
            Ok(Self::UpdateNewShippingQuery(UpdateNewShippingQuery::decode(j, at)?))
        } else if same_text(tag, "updateNewPreCheckoutQuery") {
            Ok(Self::UpdateNewPreCheckoutQuery(UpdateNewPreCheckoutQuery::decode(j, at)?))
        } else if same_text(tag, "updateNewCustomEvent") {
            Ok(Self::UpdateNewCustomEvent(UpdateNewCustomEvent::decode(j, at)?))
        } else if same_text(tag, "updateNewCustomQuery") {
            Ok(Self::UpdateNewCustomQuery(UpdateNewCustomQuery::decode(j, at)?))
        } else if same_text(tag, "updatePoll") {
            Ok(Self::UpdatePoll(UpdatePoll::decode(j, at)?))
        } else if same_text(tag, "updatePollAnswer") {
            Ok(Self::UpdatePollAnswer(UpdatePollAnswer::decode(j, at)?))
        } else {
            Err(DecodeError::UnknownVariant(tag.to_owned()))
        }
    }

    proof fn round_trip(&self, at: Seq<char>) {
        reveal(<Update as Wire>::wire);
        match self {
            Self::UpdateAuthorizationState(p) => {
                p.tag_known();
                Self::selects_update_authorization_state(p.wire(), at);
                p.round_trip(at);
            },
            Self::UpdateNewMessage(p) => {
                p.tag_known();
                Self::selects_update_new_message(p.wire(), at);
                p.round_trip(at);
            },
            Self::UpdateMessageSendAcknowledged(p) => {
                p.tag_known();
                Self::selects_update_message_send_acknowledged(p.wire(), at);
                p.round_trip(at);
            },
            Self::UpdateMessageSendSucceeded(p) => {
                p.tag_known();
                Self::selects_update_message_send_succeeded(p.wire(), at);
                p.round_trip(at);
            },
            Self::UpdateMessageSendFailed(p) => {
                p.tag_known();
                Self::selects_update_message_send_failed(p.wire(), at);
                p.round_trip(at);
            },
            Self::UpdateMessageContent(p) => {
                p.tag_known();
                Self::selects_update_message_content(p.wire(), at);
                p.round_trip(at);
            },
            Self::UpdateMessageEdited(p) => {
                p.tag_known();
                Self::selects_update_message_edited(p.wire(), at);
                p.round_trip(at);
            },
            Self::UpdateMessageViews(p) => {
                p.tag_known();
                Self::selects_update_message_views(p.wire(), at);
                p.round_trip(at);
            },
            Self::UpdateMessageContentOpened(p) => {
                p.tag_known();
                Self::selects_update_message_content_opened(p.wire(), at);
                p.round_trip(at);
            },
            Self::UpdateMessageMentionRead(p) => {
                p.tag_known();
                Self::selects_update_message_mention_read(p.wire(), at);
                p.round_trip(at);
            },
            Self::UpdateMessageLiveLocationViewed(p) => {
                p.tag_known();
                Self::selects_update_message_live_location_viewed(p.wire(), at);
                p.round_trip(at);
            },
            Self::UpdateNewChat(p) => {
                (**p).tag_known();
                Self::selects_update_new_chat(p.wire(), at);
                p.round_trip(at);
            },
            Self::UpdateChatChatList(p) => {
                p.tag_known();
                Self::selects_update_chat_chat_list(p.wire(), at);
                p.round_trip(at);
            },
            Self::UpdateChatTitle(p) => {
                p.tag_known();
                Self::selects_update_chat_title(p.wire(), at);
                p.round_trip(at);
            },
            Self::UpdateChatPhoto(p) => {
                p.tag_known();
                Self::selects_update_chat_photo(p.wire(), at);
                p.round_trip(at);
            },
            Self::UpdateChatPermissions(p) => {
                p.tag_known();
                Self::selects_update_chat_permissions(p.wire(), at);
                p.round_trip(at);
            },
            Self::UpdateChatLastMessage(p) => {
                p.tag_known();
                Self::selects_update_chat_last_message(p.wire(), at);
                p.round_trip(at);
            },
            Self::UpdateChatOrder(p) => {
                p.tag_known();
                Self::selects_update_chat_order(p.wire(), at);
                p.round_trip(at);
            },
            Self::UpdateChatIsPinned(p) => {
                p.tag_known();
                Self::selects_update_chat_is_pinned(p.wire(), at);
                p.round_trip(at);
            },
            Self::UpdateChatIsMarkedAsUnread(p) => {
                p.tag_known();
                Self::selects_update_chat_is_marked_as_unread(p.wire(), at);
                p.round_trip(at);
            },
            Self::UpdateChatIsSponsored(p) => {
                p.tag_known();
                Self::selects_update_chat_is_sponsored(p.wire(), at);
                p.round_trip(at);
            },
            Self::UpdateChatHasScheduledMessages(p) => {
                p.tag_known();
                Self::selects_update_chat_has_scheduled_messages(p.wire(), at);
                p.round_trip(at);
            },
            Self::UpdateChatDefaultDisableNotification(p) => {
                p.tag_known();
                Self::selects_update_chat_default_disable_notification(p.wire(), at);
                p.round_trip(at);
            },
            Self::UpdateChatReadInbox(p) => {
                p.tag_known();
                Self::selects_update_chat_read_inbox(p.wire(), at);
                p.round_trip(at);
            },
            Self::UpdateChatReadOutbox(p) => {
                p.tag_known();
                Self::selects_update_chat_read_outbox(p.wire(), at);
                p.round_trip(at);
            },
            Self::UpdateChatUnreadMentionCount(p) => {
                p.tag_known();
                Self::selects_update_chat_unread_mention_count(p.wire(), at);
                p.round_trip(at);
            },
            Self::UpdateChatNotificationSettings(p) => {
                p.tag_known();
                Self::selects_update_chat_notification_settings(p.wire(), at);
                p.round_trip(at);
            },
            Self::UpdateScopeNotificationSettings(p) => {
                p.tag_known();
                Self::selects_update_scope_notification_settings(p.wire(), at);
                p.round_trip(at);
            },
            Self::UpdateChatActionBar(p) => {
                p.tag_known();
                Self::selects_update_chat_action_bar(p.wire(), at);
                p.round_trip(at);
            },
            Self::UpdateChatPinnedMessage(p) => {
                p.tag_known();
                Self::selects_update_chat_pinned_message(p.wire(), at);
                p.round_trip(at);
            },
            Self::UpdateChatReplyMarkup(p) => {
                p.tag_known();
                Self::selects_update_chat_reply_markup(p.wire(), at);
                p.round_trip(at);
            },
            Self::UpdateChatDraftMessage(p) => {
                p.tag_known();
                Self::selects_update_chat_draft_message(p.wire(), at);
                p.round_trip(at);
            },
            Self::UpdateChatOnlineMemberCount(p) => {
                p.tag_known();
                Self::selects_update_chat_online_member_count(p.wire(), at);
                p.round_trip(at);
            },
            Self::UpdateNotification(p) => {
                p.tag_known();
                Self::selects_update_notification(p.wire(), at);
                p.round_trip(at);
            },
            Self::UpdateNotificationGroup(p) => {
                p.tag_known();
                Self::selects_update_notification_group(p.wire(), at);
                p.round_trip(at);
            },
            Self::UpdateActiveNotifications(p) => {
                p.tag_known();
                Self::selects_update_active_notifications(p.wire(), at);
                p.round_trip(at);
            },
            Self::UpdateHavePendingNotifications(p) => {
                p.tag_known();
                Self::selects_update_have_pending_notifications(p.wire(), at);
                p.round_trip(at);
            },
            Self::UpdateDeleteMessages(p) => {
                p.tag_known();
                Self::selects_update_delete_messages(p.wire(), at);
                p.round_trip(at);
            },
            Self::UpdateUserChatAction(p) => {
                p.tag_known();
                Self::selects_update_user_chat_action(p.wire(), at);
                p.round_trip(at);
            },
            Self::UpdateUserStatus(p) => {
                p.tag_known();
                Self::selects_update_user_status(p.wire(), at);
                p.round_trip(at);
            },
            Self::UpdateUser(p) => {
                p.tag_known();
                Self::selects_update_user(p.wire(), at);
                p.round_trip(at);
            },
            Self::UpdateBasicGroup(p) => {
                p.tag_known();
                Self::selects_update_basic_group(p.wire(), at);
                p.round_trip(at);
            },
            Self::UpdateSupergroup(p) => {
                p.tag_known();
                Self::selects_update_supergroup(p.wire(), at);
                p.round_trip(at);
            },
            Self::UpdateSecretChat(p) => {
                p.tag_known();
                Self::selects_update_secret_chat(p.wire(), at);
                p.round_trip(at);
            },
            Self::UpdateUserFullInfo(p) => {
                p.tag_known();
                Self::selects_update_user_full_info(p.wire(), at);
                p.round_trip(at);
            },
            Self::UpdateBasicGroupFullInfo(p) => {
                p.tag_known();
                Self::selects_update_basic_group_full_info(p.wire(), at);
                p.round_trip(at);
            },
            Self::UpdateSupergroupFullInfo(p) => {
                p.tag_known();
                Self::selects_update_supergroup_full_info(p.wire(), at);
                p.round_trip(at);
            },
            Self::UpdateServiceNotification(p) => {
                p.tag_known();
                Self::selects_update_service_notification(p.wire(), at);
                p.round_trip(at);
            },
            Self::UpdateFile(p) => {
                p.tag_known();
                Self::selects_update_file(p.wire(), at);
                p.round_trip(at);
            },
            Self::UpdateFileGenerationStart(p) => {
                p.tag_known();
                Self::selects_update_file_generation_start(p.wire(), at);
                p.round_trip(at);
            },
            Self::UpdateFileGenerationStop(p) => {
                p.tag_known();
                Self::selects_update_file_generation_stop(p.wire(), at);
                p.round_trip(at);
            },
            Self::UpdateCall(p) => {
                p.tag_known();
                Self::selects_update_call(p.wire(), at);
                p.round_trip(at);
            },
            Self::UpdateUserPrivacySettingRules(p) => {
                p.tag_known();
                Self::selects_update_user_privacy_setting_rules(p.wire(), at);
                p.round_trip(at);
            },
            Self::UpdateUnreadMessageCount(p) => {
                p.tag_known();
                Self::selects_update_unread_message_count(p.wire(), at);
                p.round_trip(at);
            },
            Self::UpdateUnreadChatCount(p) => {
                p.tag_known();
                Self::selects_update_unread_chat_count(p.wire(), at);
                p.round_trip(at);
            },
            Self::UpdateOption(p) => {
                p.tag_known();
                Self::selects_update_option(p.wire(), at);
                p.round_trip(at);
            },
            Self::UpdateInstalledStickerSets(p) => {
                p.tag_known();
                Self::selects_update_installed_sticker_sets(p.wire(), at);
                p.round_trip(at);
            },
            Self::UpdateTrendingStickerSets(p) => {
                p.tag_known();
                Self::selects_update_trending_sticker_sets(p.wire(), at);
                p.round_trip(at);
            },
            Self::UpdateRecentStickers(p) => {
                p.tag_known();
                Self::selects_update_recent_stickers(p.wire(), at);
                p.round_trip(at);
            },
            Self::UpdateFavoriteStickers(p) => {
                p.tag_known();
                Self::selects_update_favorite_stickers(p.wire(), at);
                p.round_trip(at);
            },
            Self::UpdateSavedAnimations(p) => {
                p.tag_known();
                Self::selects_update_saved_animations(p.wire(), at);
                p.round_trip(at);
            },
            Self::UpdateSelectedBackground(p) => {
                p.tag_known();
                Self::selects_update_selected_background(p.wire(), at);
                p.round_trip(at);
            },
            Self::UpdateLanguagePackStrings(p) => {
                p.tag_known();
                Self::selects_update_language_pack_strings(p.wire(), at);
                p.round_trip(at);
            },
            Self::UpdateConnectionState(p) => {
                p.tag_known();
                Self::selects_update_connection_state(p.wire(), at);
                p.round_trip(at);
            },
            Self::UpdateTermsOfService(p) => {
                p.tag_known();
                Self::selects_update_terms_of_service(p.wire(), at);
                p.round_trip(at);
            },
            Self::UpdateUsersNearby(p) => {
                p.tag_known();
                Self::selects_update_users_nearby(p.wire(), at);
                p.round_trip(at);
            },
            Self::UpdateNewInlineQuery(p) => {
                p.tag_known();
                Self::selects_update_new_inline_query(p.wire(), at);
                p.round_trip(at);
            },
            Self::UpdateNewChosenInlineResult(p) => {
                p.tag_known();
                Self::selects_update_new_chosen_inline_result(p.wire(), at);
                p.round_trip(at);
            },
            Self::UpdateNewCallbackQuery(p) => {
                p.tag_known();
                Self::selects_update_new_callback_query(p.wire(), at);
                p.round_trip(at);
            },
            Self::UpdateNewInlineCallbackQuery(p) => {
                p.tag_known();
                Self::selects_update_new_inline_callback_query(p.wire(), at);
                p.round_trip(at);
            },
            Self::UpdateNewShippingQuery(p) => {
                p.tag_known();
                Self::selects_update_new_shipping_query(p.wire(), at);
                p.round_trip(at);
            },
            Self::UpdateNewPreCheckoutQuery(p) => {
                p.tag_known();
                Self::selects_update_new_pre_checkout_query(p.wire(), at);
                p.round_trip(at);
            },
            Self::UpdateNewCustomEvent(p) => {
                p.tag_known();
                Self::selects_update_new_custom_event(p.wire(), at);
                p.round_trip(at);
            },
            Self::UpdateNewCustomQuery(p) => {
                p.tag_known();
                Self::selects_update_new_custom_query(p.wire(), at);
                p.round_trip(at);
            },
            Self::UpdatePoll(p) => {
                p.tag_known();
                Self::selects_update_poll(p.wire(), at);
                p.round_trip(at);
            },
            Self::UpdatePollAnswer(p) => {
                p.tag_known();
                Self::selects_update_poll_answer(p.wire(), at);
                p.round_trip(at);
            },
        }
    }
}

impl Tagged for Update {
    open spec fn known(tag: Seq<char>) -> bool {
        ||| tag == "updateAuthorizationState"@
        ||| tag == "updateNewMessage"@
        ||| tag == "updateMessageSendAcknowledged"@
        ||| tag == "updateMessageSendSucceeded"@
        ||| tag == "updateMessageSendFailed"@
        ||| tag == "updateMessageContent"@
        ||| tag == "updateMessageEdited"@
        ||| tag == "updateMessageViews"@
        ||| tag == "updateMessageContentOpened"@
        ||| tag == "updateMessageMentionRead"@
        ||| tag == "updateMessageLiveLocationViewed"@
        ||| tag == "updateNewChat"@
        ||| tag == "updateChatChatList"@
        ||| tag == "updateChatTitle"@
        ||| tag == "updateChatPhoto"@
        ||| tag == "updateChatPermissions"@
        ||| tag == "updateChatLastMessage"@
        ||| tag == "updateChatOrder"@
        ||| tag == "updateChatIsPinned"@
        ||| tag == "updateChatIsMarkedAsUnread"@
        ||| tag == "updateChatIsSponsored"@
        ||| tag == "updateChatHasScheduledMessages"@
        ||| tag == "updateChatDefaultDisableNotification"@
        ||| tag == "updateChatReadInbox"@
        ||| tag == "updateChatReadOutbox"@
        ||| tag == "updateChatUnreadMentionCount"@
        ||| tag == "updateChatNotificationSettings"@
        ||| tag == "updateScopeNotificationSettings"@
        ||| tag == "updateChatActionBar"@
        ||| tag == "updateChatPinnedMessage"@
        ||| tag == "updateChatReplyMarkup"@
        ||| tag == "updateChatDraftMessage"@
        ||| tag == "updateChatOnlineMemberCount"@
        ||| tag == "updateNotification"@
        ||| tag == "updateNotificationGroup"@
        ||| tag == "updateActiveNotifications"@
        ||| tag == "updateHavePendingNotifications"@
        ||| tag == "updateDeleteMessages"@
        ||| tag == "updateUserChatAction"@
        ||| tag == "updateUserStatus"@
        ||| tag == "updateUser"@
        ||| tag == "updateBasicGroup"@
        ||| tag == "updateSupergroup"@
        ||| tag == "updateSecretChat"@
        ||| tag == "updateUserFullInfo"@
        ||| tag == "updateBasicGroupFullInfo"@
        ||| tag == "updateSupergroupFullInfo"@
        ||| tag == "updateServiceNotification"@
        ||| tag == "updateFile"@
        ||| tag == "updateFileGenerationStart"@
        ||| tag == "updateFileGenerationStop"@
        ||| tag == "updateCall"@
        ||| tag == "updateUserPrivacySettingRules"@
        ||| tag == "updateUnreadMessageCount"@
        ||| tag == "updateUnreadChatCount"@
        ||| tag == "updateOption"@
        ||| tag == "updateInstalledStickerSets"@
        ||| tag == "updateTrendingStickerSets"@
        ||| tag == "updateRecentStickers"@
        ||| tag == "updateFavoriteStickers"@
        ||| tag == "updateSavedAnimations"@
        ||| tag == "updateSelectedBackground"@
        ||| tag == "updateLanguagePackStrings"@
        ||| tag == "updateConnectionState"@
        ||| tag == "updateTermsOfService"@
        ||| tag == "updateUsersNearby"@
        ||| tag == "updateNewInlineQuery"@
        ||| tag == "updateNewChosenInlineResult"@
        ||| tag == "updateNewCallbackQuery"@
        ||| tag == "updateNewInlineCallbackQuery"@
        ||| tag == "updateNewShippingQuery"@
        ||| tag == "updateNewPreCheckoutQuery"@
        ||| tag == "updateNewCustomEvent"@
        ||| tag == "updateNewCustomQuery"@
        ||| tag == "updatePoll"@
        ||| tag == "updatePollAnswer"@
    }

    fn knows(tag: &str) -> (r: bool) {
        same_text(tag, "updateAuthorizationState")
            || same_text(tag, "updateNewMessage")
            || same_text(tag, "updateMessageSendAcknowledged")
            || same_text(tag, "updateMessageSendSucceeded")
            || same_text(tag, "updateMessageSendFailed")
            || same_text(tag, "updateMessageContent")
            || same_text(tag, "updateMessageEdited")
            || same_text(tag, "updateMessageViews")
            || same_text(tag, "updateMessageContentOpened")
            || same_text(tag, "updateMessageMentionRead")
            || same_text(tag, "updateMessageLiveLocationViewed")
            || same_text(tag, "updateNewChat")
            || same_text(tag, "updateChatChatList")
            || same_text(tag, "updateChatTitle")
            || same_text(tag, "updateChatPhoto")
            || same_text(tag, "updateChatPermissions")
            || same_text(tag, "updateChatLastMessage")
            || same_text(tag, "updateChatOrder")
            || same_text(tag, "updateChatIsPinned")
            || same_text(tag, "updateChatIsMarkedAsUnread")
            || same_text(tag, "updateChatIsSponsored")
            || same_text(tag, "updateChatHasScheduledMessages")
            || same_text(tag, "updateChatDefaultDisableNotification")
            || same_text(tag, "updateChatReadInbox")
            || same_text(tag, "updateChatReadOutbox")
            || same_text(tag, "updateChatUnreadMentionCount")
            || same_text(tag, "updateChatNotificationSettings")
            || same_text(tag, "updateScopeNotificationSettings")
            || same_text(tag, "updateChatActionBar")
            || same_text(tag, "updateChatPinnedMessage")
            || same_text(tag, "updateChatReplyMarkup")
            || same_text(tag, "updateChatDraftMessage")
            || same_text(tag, "updateChatOnlineMemberCount")
            || same_text(tag, "updateNotification")
            || same_text(tag, "updateNotificationGroup")
            || same_text(tag, "updateActiveNotifications")
            || same_text(tag, "updateHavePendingNotifications")
            || same_text(tag, "updateDeleteMessages")
            || same_text(tag, "updateUserChatAction")
            || same_text(tag, "updateUserStatus")
            || same_text(tag, "updateUser")
            || same_text(tag, "updateBasicGroup")
            || same_text(tag, "updateSupergroup")
            || same_text(tag, "updateSecretChat")
            || same_text(tag, "updateUserFullInfo")
            || same_text(tag, "updateBasicGroupFullInfo")
            || same_text(tag, "updateSupergroupFullInfo")
            || same_text(tag, "updateServiceNotification")
            || same_text(tag, "updateFile")
            || same_text(tag, "updateFileGenerationStart")
            || same_text(tag, "updateFileGenerationStop")
            || same_text(tag, "updateCall")
            || same_text(tag, "updateUserPrivacySettingRules")
            || same_text(tag, "updateUnreadMessageCount")
            || same_text(tag, "updateUnreadChatCount")
            || same_text(tag, "updateOption")
            || same_text(tag, "updateInstalledStickerSets")
            || same_text(tag, "updateTrendingStickerSets")
            || same_text(tag, "updateRecentStickers")
            || same_text(tag, "updateFavoriteStickers")
            || same_text(tag, "updateSavedAnimations")
            || same_text(tag, "updateSelectedBackground")
            || same_text(tag, "updateLanguagePackStrings")
            || same_text(tag, "updateConnectionState")
            || same_text(tag, "updateTermsOfService")
            || same_text(tag, "updateUsersNearby")
            || same_text(tag, "updateNewInlineQuery")
            || same_text(tag, "updateNewChosenInlineResult")
            || same_text(tag, "updateNewCallbackQuery")
            || same_text(tag, "updateNewInlineCallbackQuery")
            || same_text(tag, "updateNewShippingQuery")
            || same_text(tag, "updateNewPreCheckoutQuery")
            || same_text(tag, "updateNewCustomEvent")
            || same_text(tag, "updateNewCustomQuery")
            || same_text(tag, "updatePoll")
            || same_text(tag, "updatePollAnswer")
    }

    proof fn tag_known(&self) {
        reveal(<Update as Wire>::wire);
        match self {
            Self::UpdateAuthorizationState(p) => p.tag_known(),
            Self::UpdateNewMessage(p) => p.tag_known(),
            Self::UpdateMessageSendAcknowledged(p) => p.tag_known(),
            Self::UpdateMessageSendSucceeded(p) => p.tag_known(),
            Self::UpdateMessageSendFailed(p) => p.tag_known(),
            Self::UpdateMessageContent(p) => p.tag_known(),
            Self::UpdateMessageEdited(p) => p.tag_known(),
            Self::UpdateMessageViews(p) => p.tag_known(),
            Self::UpdateMessageContentOpened(p) => p.tag_known(),
            Self::UpdateMessageMentionRead(p) => p.tag_known(),
            Self::UpdateMessageLiveLocationViewed(p) => p.tag_known(),
            Self::UpdateNewChat(p) => (**p).tag_known(),
            Self::UpdateChatChatList(p) => p.tag_known(),
            Self::UpdateChatTitle(p) => p.tag_known(),
            Self::UpdateChatPhoto(p) => p.tag_known(),
            Self::UpdateChatPermissions(p) => p.tag_known(),
            Self::UpdateChatLastMessage(p) => p.tag_known(),
            Self::UpdateChatOrder(p) => p.tag_known(),
            Self::UpdateChatIsPinned(p) => p.tag_known(),
            Self::UpdateChatIsMarkedAsUnread(p) => p.tag_known(),
            Self::UpdateChatIsSponsored(p) => p.tag_known(),
            Self::UpdateChatHasScheduledMessages(p) => p.tag_known(),
            Self::UpdateChatDefaultDisableNotification(p) => p.tag_known(),
            Self::UpdateChatReadInbox(p) => p.tag_known(),
            Self::UpdateChatReadOutbox(p) => p.tag_known(),
            Self::UpdateChatUnreadMentionCount(p) => p.tag_known(),
            Self::UpdateChatNotificationSettings(p) => p.tag_known(),
            Self::UpdateScopeNotificationSettings(p) => p.tag_known(),
            Self::UpdateChatActionBar(p) => p.tag_known(),
            Self::UpdateChatPinnedMessage(p) => p.tag_known(),
            Self::UpdateChatReplyMarkup(p) => p.tag_known(),
            Self::UpdateChatDraftMessage(p) => p.tag_known(),
            Self::UpdateChatOnlineMemberCount(p) => p.tag_known(),
            Self::UpdateNotification(p) => p.tag_known(),
            Self::UpdateNotificationGroup(p) => p.tag_known(),
            Self::UpdateActiveNotifications(p) => p.tag_known(),
            Self::UpdateHavePendingNotifications(p) => p.tag_known(),
            Self::UpdateDeleteMessages(p) => p.tag_known(),
            Self::UpdateUserChatAction(p) => p.tag_known(),
            Self::UpdateUserStatus(p) => p.tag_known(),
            Self::UpdateUser(p) => p.tag_known(),
            Self::UpdateBasicGroup(p) => p.tag_known(),
            Self::UpdateSupergroup(p) => p.tag_known(),
            Self::UpdateSecretChat(p) => p.tag_known(),
            Self::UpdateUserFullInfo(p) => p.tag_known(),
            Self::UpdateBasicGroupFullInfo(p) => p.tag_known(),
            Self::UpdateSupergroupFullInfo(p) => p.tag_known(),
            Self::UpdateServiceNotification(p) => p.tag_known(),
            Self::UpdateFile(p) => p.tag_known(),
            Self::UpdateFileGenerationStart(p) => p.tag_known(),
            Self::UpdateFileGenerationStop(p) => p.tag_known(),
            Self::UpdateCall(p) => p.tag_known(),
            Self::UpdateUserPrivacySettingRules(p) => p.tag_known(),
            Self::UpdateUnreadMessageCount(p) => p.tag_known(),
            Self::UpdateUnreadChatCount(p) => p.tag_known(),
            Self::UpdateOption(p) => p.tag_known(),
            Self::UpdateInstalledStickerSets(p) => p.tag_known(),
            Self::UpdateTrendingStickerSets(p) => p.tag_known(),
            Self::UpdateRecentStickers(p) => p.tag_known(),
            Self::UpdateFavoriteStickers(p) => p.tag_known(),
            Self::UpdateSavedAnimations(p) => p.tag_known(),
            Self::UpdateSelectedBackground(p) => p.tag_known(),
            Self::UpdateLanguagePackStrings(p) => p.tag_known(),
            Self::UpdateConnectionState(p) => p.tag_known(),
            Self::UpdateTermsOfService(p) => p.tag_known(),
            Self::UpdateUsersNearby(p) => p.tag_known(),
            Self::UpdateNewInlineQuery(p) => p.tag_known(),
            Self::UpdateNewChosenInlineResult(p) => p.tag_known(),
            Self::UpdateNewCallbackQuery(p) => p.tag_known(),
            Self::UpdateNewInlineCallbackQuery(p) => p.tag_known(),
            Self::UpdateNewShippingQuery(p) => p.tag_known(),
            Self::UpdateNewPreCheckoutQuery(p) => p.tag_known(),
            Self::UpdateNewCustomEvent(p) => p.tag_known(),
            Self::UpdateNewCustomQuery(p) => p.tag_known(),
            Self::UpdatePoll(p) => p.tag_known(),
            Self::UpdatePollAnswer(p) => p.tag_known(),
        }
    }
}

impl Union for Update {
    proof fn unknown_rejected(d: Doc, at: Seq<char>) {
        reveal(<Update as Wire>::parse);
    }

    proof fn untagged_rejected(d: Doc, at: Seq<char>) {
        reveal(<Update as Wire>::parse);
    }
}

impl Update {
    spec fn measured_a() -> bool {
        &&& "updateActiveNotifications"@.len() == 25
        &&& "updateAuthorizationState"@.len() == 24
        &&& "updateBasicGroup"@.len() == 16
        &&& "updateBasicGroupFullInfo"@.len() == 24
        &&& "updateCall"@.len() == 10
        &&& "updateChatActionBar"@.len() == 19
        &&& "updateChatChatList"@.len() == 18
        &&& "updateChatDefaultDisableNotification"@.len() == 36
        &&& "updateChatDraftMessage"@.len() == 22
        &&& "updateChatHasScheduledMessages"@.len() == 30
        &&& "updateChatIsMarkedAsUnread"@.len() == 26
        &&& "updateChatIsPinned"@.len() == 18
        &&& "updateChatIsSponsored"@.len() == 21
        &&& "updateChatLastMessage"@.len() == 21
        &&& "updateChatNotificationSettings"@.len() == 30
        &&& "updateChatOnlineMemberCount"@.len() == 27
        &&& "updateChatOrder"@.len() == 15
        &&& "updateChatPermissions"@.len() == 21
        &&& "updateChatPhoto"@.len() == 15
        &&& "updateChatPinnedMessage"@.len() == 23
        &&& "updateChatReadInbox"@.len() == 19
        &&& "updateChatReadOutbox"@.len() == 20
        &&& "updateChatReplyMarkup"@.len() == 21
        &&& "updateChatTitle"@.len() == 15
        &&& "updateChatUnreadMentionCount"@.len() == 28
        &&& "updateConnectionState"@.len() == 21
        &&& "updateDeleteMessages"@.len() == 20
        &&& "updateFavoriteStickers"@.len() == 22
        &&& "updateFile"@.len() == 10
        &&& "updateFileGenerationStart"@.len() == 25
        &&& "updateFileGenerationStop"@.len() == 24
        &&& "updateHavePendingNotifications"@.len() == 30
        &&& "updateInstalledStickerSets"@.len() == 26
        &&& "updateLanguagePackStrings"@.len() == 25
        &&& "updateMessageContent"@.len() == 20
        &&& "updateMessageContentOpened"@.len() == 26
        &&& "updateMessageEdited"@.len() == 19
        &&& "updateMessageLiveLocationViewed"@.len() == 31
        &&& "updateMessageMentionRead"@.len() == 24
        &&& "updateMessageSendAcknowledged"@.len() == 29
        &&& "updateMessageSendFailed"@.len() == 23
        &&& "updateMessageSendSucceeded"@.len() == 26
        &&& "updateMessageViews"@.len() == 18
        &&& "updateNewCallbackQuery"@.len() == 22
        &&& "updateNewChat"@.len() == 13
        &&& "updateNewChosenInlineResult"@.len() == 27
        &&& "updateNewCustomEvent"@.len() == 20
        &&& "updateNewCustomQuery"@.len() == 20
        &&& "updateNewInlineCallbackQuery"@.len() == 28
        &&& "updateNewInlineQuery"@.len() == 20
        &&& "updateNewMessage"@.len() == 16
        &&& "updateNewPreCheckoutQuery"@.len() == 25
        &&& "updateNewShippingQuery"@.len() == 22
        &&& "updateNotification"@.len() == 18
        &&& "updateNotificationGroup"@.len() == 23
        &&& "updateOption"@.len() == 12
        &&& "updatePoll"@.len() == 10
        &&& "updatePollAnswer"@.len() == 16
        &&& "updateRecentStickers"@.len() == 20
        &&& "updateSavedAnimations"@.len() == 21
    }

    spec fn measured_b() -> bool {
        &&& "updateScopeNotificationSettings"@.len() == 31
        &&& "updateSecretChat"@.len() == 16
        &&& "updateSelectedBackground"@.len() == 24
        &&& "updateServiceNotification"@.len() == 25
        &&& "updateSupergroup"@.len() == 16
        &&& "updateSupergroupFullInfo"@.len() == 24
        &&& "updateTermsOfService"@.len() == 20
        &&& "updateTrendingStickerSets"@.len() == 25
        &&& "updateUnreadChatCount"@.len() == 21
        &&& "updateUnreadMessageCount"@.len() == 24
        &&& "updateUser"@.len() == 10
        &&& "updateUserChatAction"@.len() == 20
        &&& "updateUserFullInfo"@.len() == 18
        &&& "updateUserPrivacySettingRules"@.len() == 29
        &&& "updateUserStatus"@.len() == 16
        &&& "updateUsersNearby"@.len() == 17
    }

    /// How long each discriminator that the union reads is.
    spec fn measured() -> bool {
        &&& Self::measured_a()
        &&& Self::measured_b()
    }

    proof fn tags_measured()
        ensures
            Self::measured(),
    {
        reveal_strlit("updateActiveNotifications");
        reveal_strlit("updateAuthorizationState");
        reveal_strlit("updateBasicGroup");
        reveal_strlit("updateBasicGroupFullInfo");
        reveal_strlit("updateCall");
        reveal_strlit("updateChatActionBar");
        reveal_strlit("updateChatChatList");
        reveal_strlit("updateChatDefaultDisableNotification");
        reveal_strlit("updateChatDraftMessage");
        reveal_strlit("updateChatHasScheduledMessages");
        reveal_strlit("updateChatIsMarkedAsUnread");
        reveal_strlit("updateChatIsPinned");
        reveal_strlit("updateChatIsSponsored");
        reveal_strlit("updateChatLastMessage");
        reveal_strlit("updateChatNotificationSettings");
        reveal_strlit("updateChatOnlineMemberCount");
        reveal_strlit("updateChatOrder");
        reveal_strlit("updateChatPermissions");
        reveal_strlit("updateChatPhoto");
        reveal_strlit("updateChatPinnedMessage");
        reveal_strlit("updateChatReadInbox");
        reveal_strlit("updateChatReadOutbox");
        reveal_strlit("updateChatReplyMarkup");
        reveal_strlit("updateChatTitle");
        reveal_strlit("updateChatUnreadMentionCount");
        reveal_strlit("updateConnectionState");
        reveal_strlit("updateDeleteMessages");
        reveal_strlit("updateFavoriteStickers");
        reveal_strlit("updateFile");
        reveal_strlit("updateFileGenerationStart");
        reveal_strlit("updateFileGenerationStop");
        reveal_strlit("updateHavePendingNotifications");
        reveal_strlit("updateInstalledStickerSets");
        reveal_strlit("updateLanguagePackStrings");
        reveal_strlit("updateMessageContent");
        reveal_strlit("updateMessageContentOpened");
        reveal_strlit("updateMessageEdited");
        reveal_strlit("updateMessageLiveLocationViewed");
        reveal_strlit("updateMessageMentionRead");
        reveal_strlit("updateMessageSendAcknowledged");
        reveal_strlit("updateMessageSendFailed");
        reveal_strlit("updateMessageSendSucceeded");
        reveal_strlit("updateMessageViews");
        reveal_strlit("updateNewCallbackQuery");
        reveal_strlit("updateNewChat");
        reveal_strlit("updateNewChosenInlineResult");
        reveal_strlit("updateNewCustomEvent");
        reveal_strlit("updateNewCustomQuery");
        reveal_strlit("updateNewInlineCallbackQuery");
        reveal_strlit("updateNewInlineQuery");
        reveal_strlit("updateNewMessage");
        reveal_strlit("updateNewPreCheckoutQuery");
        reveal_strlit("updateNewShippingQuery");
        reveal_strlit("updateNotification");
        reveal_strlit("updateNotificationGroup");
        reveal_strlit("updateOption");
        reveal_strlit("updatePoll");
        reveal_strlit("updatePollAnswer");
        reveal_strlit("updateRecentStickers");
        reveal_strlit("updateSavedAnimations");
        reveal_strlit("updateScopeNotificationSettings");
        reveal_strlit("updateSecretChat");
        reveal_strlit("updateSelectedBackground");
        reveal_strlit("updateServiceNotification");
        reveal_strlit("updateSupergroup");
        reveal_strlit("updateSupergroupFullInfo");
        reveal_strlit("updateTermsOfService");
        reveal_strlit("updateTrendingStickerSets");
        reveal_strlit("updateUnreadChatCount");
        reveal_strlit("updateUnreadMessageCount");
        reveal_strlit("updateUser");
        reveal_strlit("updateUserChatAction");
        reveal_strlit("updateUserFullInfo");
        reveal_strlit("updateUserPrivacySettingRules");
        reveal_strlit("updateUserStatus");
        reveal_strlit("updateUsersNearby");
    }

    spec fn spelled_10() -> bool {
        &&& "updateCall"@[6] == 'C'
        &&& "updateFile"@[6] == 'F'
        &&& "updatePoll"@[6] == 'P'
        &&& "updateUser"@[6] == 'U'
    }

    /// What tells apart the discriminators of 10 characters.
    proof fn tags_spelled_10()
        ensures
            Self::spelled_10(),
    {
        reveal_strlit("updateCall");
        reveal_strlit("updateFile");
        reveal_strlit("updatePoll");
        reveal_strlit("updateUser");
    }

    spec fn spelled_15() -> bool {
        &&& "updateChatOrder"@[10] == 'O'
        &&& "updateChatPhoto"@[10] == 'P'
        &&& "updateChatTitle"@[10] == 'T'
    }

    /// What tells apart the discriminators of 15 characters.
    proof fn tags_spelled_15()
        ensures
            Self::spelled_15(),
    {
        reveal_strlit("updateChatOrder");
        reveal_strlit("updateChatPhoto");
        reveal_strlit("updateChatTitle");
    }

    spec fn spelled_16() -> bool {
        &&& "updateBasicGroup"@[8] == 's'
        &&& "updateNewMessage"@[8] == 'w'
        &&& "updatePollAnswer"@[8] == 'l'
        &&& "updateSecretChat"@[8] == 'c'
        &&& "updateSupergroup"@[8] == 'p'
        &&& "updateUserStatus"@[8] == 'e'
    }

    /// What tells apart the discriminators of 16 characters.
    proof fn tags_spelled_16()
        ensures
            Self::spelled_16(),
    {
        reveal_strlit("updateBasicGroup");
        reveal_strlit("updateNewMessage");
        reveal_strlit("updatePollAnswer");
        reveal_strlit("updateSecretChat");
        reveal_strlit("updateSupergroup");
        reveal_strlit("updateUserStatus");
    }

    spec fn spelled_18() -> bool {
        &&& "updateChatChatList"@[10] == 'C'
        &&& "updateChatIsPinned"@[10] == 'I'
        &&& "updateMessageViews"@[10] == 'a'
        &&& "updateNotification"@[10] == 'f'
        &&& "updateUserFullInfo"@[10] == 'F'
    }

    /// What tells apart the discriminators of 18 characters.
    proof fn tags_spelled_18()
        ensures
            Self::spelled_18(),
    {
        reveal_strlit("updateChatChatList");
        reveal_strlit("updateChatIsPinned");
        reveal_strlit("updateMessageViews");
        reveal_strlit("updateNotification");
        reveal_strlit("updateUserFullInfo");
    }

    spec fn spelled_19() -> bool {
        &&& "updateChatActionBar"@[10] == 'A'
        &&& "updateChatReadInbox"@[10] == 'R'
        &&& "updateMessageEdited"@[10] == 'a'
    }

    /// What tells apart the discriminators of 19 characters.
    proof fn tags_spelled_19()
        ensures
            Self::spelled_19(),
    {
        reveal_strlit("updateChatActionBar");
        reveal_strlit("updateChatReadInbox");
        reveal_strlit("updateMessageEdited");
    }

    spec fn spelled_20() -> bool {
        &&& "updateChatReadOutbox"@[6] == 'C'
        &&& "updateChatReadOutbox"@[9] == 't'
        &&& "updateChatReadOutbox"@[15] == 'u'
        &&& "updateDeleteMessages"@[6] == 'D'
        &&& "updateDeleteMessages"@[9] == 'e'
        &&& "updateDeleteMessages"@[15] == 's'
        &&& "updateMessageContent"@[6] == 'M'
        &&& "updateMessageContent"@[9] == 's'
        &&& "updateMessageContent"@[15] == 'n'
        &&& "updateNewCustomEvent"@[6] == 'N'
        &&& "updateNewCustomEvent"@[9] == 'C'
        &&& "updateNewCustomEvent"@[15] == 'E'
        &&& "updateNewCustomQuery"@[6] == 'N'
        &&& "updateNewCustomQuery"@[9] == 'C'
        &&& "updateNewCustomQuery"@[15] == 'Q'
        &&& "updateNewInlineQuery"@[6] == 'N'
        &&& "updateNewInlineQuery"@[9] == 'I'
        &&& "updateNewInlineQuery"@[15] == 'Q'
        &&& "updateRecentStickers"@[6] == 'R'
        &&& "updateRecentStickers"@[9] == 'e'
        &&& "updateRecentStickers"@[15] == 'c'
        &&& "updateTermsOfService"@[6] == 'T'
        &&& "updateTermsOfService"@[9] == 'm'
        &&& "updateTermsOfService"@[15] == 'r'
        &&& "updateUserChatAction"@[6] == 'U'
        &&& "updateUserChatAction"@[9] == 'r'
        &&& "updateUserChatAction"@[15] == 'c'
    }

    /// What tells apart the discriminators of 20 characters.
    proof fn tags_spelled_20()
        ensures
            Self::spelled_20(),
    {
        reveal_strlit("updateChatReadOutbox");
        reveal_strlit("updateDeleteMessages");
        reveal_strlit("updateMessageContent");
        reveal_strlit("updateNewCustomEvent");
        reveal_strlit("updateNewCustomQuery");
        reveal_strlit("updateNewInlineQuery");
        reveal_strlit("updateRecentStickers");
        reveal_strlit("updateTermsOfService");
        reveal_strlit("updateUserChatAction");
    }

    spec fn spelled_21() -> bool {
        &&& "updateChatIsSponsored"@[10] == 'I'
        &&& "updateChatLastMessage"@[10] == 'L'
        &&& "updateChatPermissions"@[10] == 'P'
        &&& "updateChatReplyMarkup"@[10] == 'R'
        &&& "updateConnectionState"@[10] == 'e'
        &&& "updateSavedAnimations"@[10] == 'd'
        &&& "updateUnreadChatCount"@[10] == 'a'
    }

    /// What tells apart the discriminators of 21 characters.
    proof fn tags_spelled_21()
        ensures
            Self::spelled_21(),
    {
        reveal_strlit("updateChatIsSponsored");
        reveal_strlit("updateChatLastMessage");
        reveal_strlit("updateChatPermissions");
        reveal_strlit("updateChatReplyMarkup");
        reveal_strlit("updateConnectionState");
        reveal_strlit("updateSavedAnimations");
        reveal_strlit("updateUnreadChatCount");
    }

    spec fn spelled_22() -> bool {
        &&& "updateChatDraftMessage"@[9] == 't'
        &&& "updateFavoriteStickers"@[9] == 'o'
        &&& "updateNewCallbackQuery"@[9] == 'C'
        &&& "updateNewShippingQuery"@[9] == 'S'
    }

    /// What tells apart the discriminators of 22 characters.
    proof fn tags_spelled_22()
        ensures
            Self::spelled_22(),
    {
        reveal_strlit("updateChatDraftMessage");
        reveal_strlit("updateFavoriteStickers");
        reveal_strlit("updateNewCallbackQuery");
        reveal_strlit("updateNewShippingQuery");
    }

    spec fn spelled_23() -> bool {
        &&& "updateChatPinnedMessage"@[6] == 'C'
        &&& "updateMessageSendFailed"@[6] == 'M'
        &&& "updateNotificationGroup"@[6] == 'N'
    }

    /// What tells apart the discriminators of 23 characters.
    proof fn tags_spelled_23()
        ensures
            Self::spelled_23(),
    {
        reveal_strlit("updateChatPinnedMessage");
        reveal_strlit("updateMessageSendFailed");
        reveal_strlit("updateNotificationGroup");
    }

    spec fn spelled_24() -> bool {
        &&& "updateAuthorizationState"@[6] == 'A'
        &&& "updateAuthorizationState"@[7] == 'u'
        &&& "updateBasicGroupFullInfo"@[6] == 'B'
        &&& "updateBasicGroupFullInfo"@[7] == 'a'
        &&& "updateFileGenerationStop"@[6] == 'F'
        &&& "updateFileGenerationStop"@[7] == 'i'
        &&& "updateMessageMentionRead"@[6] == 'M'
        &&& "updateMessageMentionRead"@[7] == 'e'
        &&& "updateSelectedBackground"@[6] == 'S'
        &&& "updateSelectedBackground"@[7] == 'e'
        &&& "updateSupergroupFullInfo"@[6] == 'S'
        &&& "updateSupergroupFullInfo"@[7] == 'u'
        &&& "updateUnreadMessageCount"@[6] == 'U'
        &&& "updateUnreadMessageCount"@[7] == 'n'
    }

    /// What tells apart the discriminators of 24 characters.
    proof fn tags_spelled_24()
        ensures
            Self::spelled_24(),
    {
        reveal_strlit("updateAuthorizationState");
        reveal_strlit("updateBasicGroupFullInfo");
        reveal_strlit("updateFileGenerationStop");
        reveal_strlit("updateMessageMentionRead");
        reveal_strlit("updateSelectedBackground");
        reveal_strlit("updateSupergroupFullInfo");
        reveal_strlit("updateUnreadMessageCount");
    }

    spec fn spelled_25() -> bool {
        &&& "updateActiveNotifications"@[6] == 'A'
        &&& "updateFileGenerationStart"@[6] == 'F'
        &&& "updateLanguagePackStrings"@[6] == 'L'
        &&& "updateNewPreCheckoutQuery"@[6] == 'N'
        &&& "updateServiceNotification"@[6] == 'S'
        &&& "updateTrendingStickerSets"@[6] == 'T'
    }

    /// What tells apart the discriminators of 25 characters.
    proof fn tags_spelled_25()
        ensures
            Self::spelled_25(),
    {
        reveal_strlit("updateActiveNotifications");
        reveal_strlit("updateFileGenerationStart");
        reveal_strlit("updateLanguagePackStrings");
        reveal_strlit("updateNewPreCheckoutQuery");
        reveal_strlit("updateServiceNotification");
        reveal_strlit("updateTrendingStickerSets");
    }

    spec fn spelled_26() -> bool {
        &&& "updateChatIsMarkedAsUnread"@[13] == 'a'
        &&& "updateInstalledStickerSets"@[13] == 'e'
        &&& "updateMessageContentOpened"@[13] == 'C'
        &&& "updateMessageSendSucceeded"@[13] == 'S'
    }

    /// What tells apart the discriminators of 26 characters.
    proof fn tags_spelled_26()
        ensures
            Self::spelled_26(),
    {
        reveal_strlit("updateChatIsMarkedAsUnread");
        reveal_strlit("updateInstalledStickerSets");
        reveal_strlit("updateMessageContentOpened");
        reveal_strlit("updateMessageSendSucceeded");
    }

    spec fn spelled_27() -> bool {
        &&& "updateChatOnlineMemberCount"@[6] == 'C'
        &&& "updateNewChosenInlineResult"@[6] == 'N'
    }

    /// What tells apart the discriminators of 27 characters.
    proof fn tags_spelled_27()
        ensures
            Self::spelled_27(),
    {
        reveal_strlit("updateChatOnlineMemberCount");
        reveal_strlit("updateNewChosenInlineResult");
    }

    spec fn spelled_28() -> bool {
        &&& "updateChatUnreadMentionCount"@[6] == 'C'
        &&& "updateNewInlineCallbackQuery"@[6] == 'N'
    }

    /// What tells apart the discriminators of 28 characters.
    proof fn tags_spelled_28()
        ensures
            Self::spelled_28(),
    {
        reveal_strlit("updateChatUnreadMentionCount");
        reveal_strlit("updateNewInlineCallbackQuery");
    }

    spec fn spelled_29() -> bool {
        &&& "updateMessageSendAcknowledged"@[6] == 'M'
        &&& "updateUserPrivacySettingRules"@[6] == 'U'
    }

    /// What tells apart the discriminators of 29 characters.
    proof fn tags_spelled_29()
        ensures
            Self::spelled_29(),
    {
        reveal_strlit("updateMessageSendAcknowledged");
        reveal_strlit("updateUserPrivacySettingRules");
    }

    spec fn spelled_30() -> bool {
        &&& "updateChatHasScheduledMessages"@[10] == 'H'
        &&& "updateChatNotificationSettings"@[10] == 'N'
        &&& "updateHavePendingNotifications"@[10] == 'P'
    }

    /// What tells apart the discriminators of 30 characters.
    proof fn tags_spelled_30()
        ensures
            Self::spelled_30(),
    {
        reveal_strlit("updateChatHasScheduledMessages");
        reveal_strlit("updateChatNotificationSettings");
        reveal_strlit("updateHavePendingNotifications");
    }

    spec fn spelled_31() -> bool {
        &&& "updateMessageLiveLocationViewed"@[6] == 'M'
        &&& "updateScopeNotificationSettings"@[6] == 'S'
    }

    /// What tells apart the discriminators of 31 characters.
    proof fn tags_spelled_31()
        ensures
            Self::spelled_31(),
    {
        reveal_strlit("updateMessageLiveLocationViewed");
        reveal_strlit("updateScopeNotificationSettings");
    }

    /// A document tagged `updateAuthorizationState` decodes as a `UpdateAuthorizationState`.
    pub proof fn selects_update_authorization_state(d: Doc, at: Seq<char>)
        requires
            tag_of(d) is Some,
            UpdateAuthorizationState::known(tag_of(d)->Some_0),
        ensures
            Self::parse(d, at) == UpdateAuthorizationState::parse(d, at),
    {
        reveal(<Update as Wire>::parse);
        Self::tags_measured();
        Self::tags_spelled_24();
    }

    /// A document tagged `updateNewMessage` decodes as a `UpdateNewMessage`.
    pub proof fn selects_update_new_message(d: Doc, at: Seq<char>)
        requires
            tag_of(d) is Some,
            UpdateNewMessage::known(tag_of(d)->Some_0),
        ensures
            Self::parse(d, at) == UpdateNewMessage::parse(d, at),
    {
        reveal(<Update as Wire>::parse);
        Self::tags_measured();
        Self::tags_spelled_16();
    }

    /// A document tagged `updateMessageSendAcknowledged` decodes as a
    /// `UpdateMessageSendAcknowledged`.
    pub proof fn selects_update_message_send_acknowledged(d: Doc, at: Seq<char>)
        requires
            tag_of(d) is Some,
            UpdateMessageSendAcknowledged::known(tag_of(d)->Some_0),
        ensures
            Self::parse(d, at) == UpdateMessageSendAcknowledged::parse(d, at),
    {
        reveal(<Update as Wire>::parse);
        Self::tags_measured();
        Self::tags_spelled_29();
    }

    /// A document tagged `updateMessageSendSucceeded` decodes as a `UpdateMessageSendSucceeded`.
    pub proof fn selects_update_message_send_succeeded(d: Doc, at: Seq<char>)
        requires
            tag_of(d) is Some,
            UpdateMessageSendSucceeded::known(tag_of(d)->Some_0),
        ensures
            Self::parse(d, at) == UpdateMessageSendSucceeded::parse(d, at),
    {
        reveal(<Update as Wire>::parse);
        Self::tags_measured();
        Self::tags_spelled_26();
    }

    /// A document tagged `updateMessageSendFailed` decodes as a `UpdateMessageSendFailed`.
    pub proof fn selects_update_message_send_failed(d: Doc, at: Seq<char>)
        requires
            tag_of(d) is Some,
            UpdateMessageSendFailed::known(tag_of(d)->Some_0),
        ensures
            Self::parse(d, at) == UpdateMessageSendFailed::parse(d, at),
    {
        reveal(<Update as Wire>::parse);
        Self::tags_measured();
        Self::tags_spelled_23();
    }

    /// A document tagged `updateMessageContent` decodes as a `UpdateMessageContent`.
    pub proof fn selects_update_message_content(d: Doc, at: Seq<char>)
        requires
            tag_of(d) is Some,
            UpdateMessageContent::known(tag_of(d)->Some_0),
        ensures
            Self::parse(d, at) == UpdateMessageContent::parse(d, at),
    {
        reveal(<Update as Wire>::parse);
        Self::tags_measured();
        Self::tags_spelled_20();
    }

    /// A document tagged `updateMessageEdited` decodes as a `UpdateMessageEdited`.
    pub proof fn selects_update_message_edited(d: Doc, at: Seq<char>)
        requires
            tag_of(d) is Some,
            UpdateMessageEdited::known(tag_of(d)->Some_0),
        ensures
            Self::parse(d, at) == UpdateMessageEdited::parse(d, at),
    {
        reveal(<Update as Wire>::parse);
        Self::tags_measured();
        Self::tags_spelled_19();
    }

    /// A document tagged `updateMessageViews` decodes as a `UpdateMessageViews`.
    pub proof fn selects_update_message_views(d: Doc, at: Seq<char>)
        requires
            tag_of(d) is Some,
            UpdateMessageViews::known(tag_of(d)->Some_0),
        ensures
            Self::parse(d, at) == UpdateMessageViews::parse(d, at),
    {
        reveal(<Update as Wire>::parse);
        Self::tags_measured();
        Self::tags_spelled_18();
    }

    /// A document tagged `updateMessageContentOpened` decodes as a `UpdateMessageContentOpened`.
    pub proof fn selects_update_message_content_opened(d: Doc, at: Seq<char>)
        requires
            tag_of(d) is Some,
            UpdateMessageContentOpened::known(tag_of(d)->Some_0),
        ensures
            Self::parse(d, at) == UpdateMessageContentOpened::parse(d, at),
    {
        reveal(<Update as Wire>::parse);
        Self::tags_measured();
        Self::tags_spelled_26();
    }

    /// A document tagged `updateMessageMentionRead` decodes as a `UpdateMessageMentionRead`.
    pub proof fn selects_update_message_mention_read(d: Doc, at: Seq<char>)
        requires
            tag_of(d) is Some,
            UpdateMessageMentionRead::known(tag_of(d)->Some_0),
        ensures
            Self::parse(d, at) == UpdateMessageMentionRead::parse(d, at),
    {
        reveal(<Update as Wire>::parse);
        Self::tags_measured();
        Self::tags_spelled_24();
    }

    /// A document tagged `updateMessageLiveLocationViewed` decodes as a
    /// `UpdateMessageLiveLocationViewed`.
    pub proof fn selects_update_message_live_location_viewed(d: Doc, at: Seq<char>)
        requires
            tag_of(d) is Some,
            UpdateMessageLiveLocationViewed::known(tag_of(d)->Some_0),
        ensures
            Self::parse(d, at) == UpdateMessageLiveLocationViewed::parse(d, at),
    {
        reveal(<Update as Wire>::parse);
        Self::tags_measured();
        Self::tags_spelled_31();
    }

    /// A document tagged `updateNewChat` decodes as a `UpdateNewChat`.
    pub proof fn selects_update_new_chat(d: Doc, at: Seq<char>)
        requires
            tag_of(d) is Some,
            UpdateNewChat::known(tag_of(d)->Some_0),
        ensures
            Self::parse(d, at) == UpdateNewChat::parse(d, at),
    {
        reveal(<Update as Wire>::parse);
        Self::tags_measured();
    }

    /// A document tagged `updateChatChatList` decodes as a `UpdateChatChatList`.
    pub proof fn selects_update_chat_chat_list(d: Doc, at: Seq<char>)
        requires
            tag_of(d) is Some,
            UpdateChatChatList::known(tag_of(d)->Some_0),
        ensures
            Self::parse(d, at) == UpdateChatChatList::parse(d, at),
    {
        reveal(<Update as Wire>::parse);
        Self::tags_measured();
        Self::tags_spelled_18();
    }

    /// A document tagged `updateChatTitle` decodes as a `UpdateChatTitle`.
    pub proof fn selects_update_chat_title(d: Doc, at: Seq<char>)
        requires
            tag_of(d) is Some,
            UpdateChatTitle::known(tag_of(d)->Some_0),
        ensures
            Self::parse(d, at) == UpdateChatTitle::parse(d, at),
    {
        reveal(<Update as Wire>::parse);
        Self::tags_measured();
        Self::tags_spelled_15();
    }

    /// A document tagged `updateChatPhoto` decodes as a `UpdateChatPhoto`.
    pub proof fn selects_update_chat_photo(d: Doc, at: Seq<char>)
        requires
            tag_of(d) is Some,
            UpdateChatPhoto::known(tag_of(d)->Some_0),
        ensures
            Self::parse(d, at) == UpdateChatPhoto::parse(d, at),
    {
        reveal(<Update as Wire>::parse);
        Self::tags_measured();
        Self::tags_spelled_15();
    }

    /// A document tagged `updateChatPermissions` decodes as a `UpdateChatPermissions`.
    pub proof fn selects_update_chat_permissions(d: Doc, at: Seq<char>)
        requires
            tag_of(d) is Some,
            UpdateChatPermissions::known(tag_of(d)->Some_0),
        ensures
            Self::parse(d, at) == UpdateChatPermissions::parse(d, at),
    {
        reveal(<Update as Wire>::parse);
        Self::tags_measured();
        Self::tags_spelled_21();
    }

    /// A document tagged `updateChatLastMessage` decodes as a `UpdateChatLastMessage`.
    pub proof fn selects_update_chat_last_message(d: Doc, at: Seq<char>)
        requires
            tag_of(d) is Some,
            UpdateChatLastMessage::known(tag_of(d)->Some_0),
        ensures
            Self::parse(d, at) == UpdateChatLastMessage::parse(d, at),
    {
        reveal(<Update as Wire>::parse);
        Self::tags_measured();
        Self::tags_spelled_21();
    }

    /// A document tagged `updateChatOrder` decodes as a `UpdateChatOrder`.
    pub proof fn selects_update_chat_order(d: Doc, at: Seq<char>)
        requires
            tag_of(d) is Some,
            UpdateChatOrder::known(tag_of(d)->Some_0),
        ensures
            Self::parse(d, at) == UpdateChatOrder::parse(d, at),
    {
        reveal(<Update as Wire>::parse);
        Self::tags_measured();
        Self::tags_spelled_15();
    }

    /// A document tagged `updateChatIsPinned` decodes as a `UpdateChatIsPinned`.
    pub proof fn selects_update_chat_is_pinned(d: Doc, at: Seq<char>)
        requires
            tag_of(d) is Some,
            UpdateChatIsPinned::known(tag_of(d)->Some_0),
        ensures
            Self::parse(d, at) == UpdateChatIsPinned::parse(d, at),
    {
        reveal(<Update as Wire>::parse);
        Self::tags_measured();
        Self::tags_spelled_18();
    }

    /// A document tagged `updateChatIsMarkedAsUnread` decodes as a `UpdateChatIsMarkedAsUnread`.
    pub proof fn selects_update_chat_is_marked_as_unread(d: Doc, at: Seq<char>)
        requires
            tag_of(d) is Some,
            UpdateChatIsMarkedAsUnread::known(tag_of(d)->Some_0),
        ensures
            Self::parse(d, at) == UpdateChatIsMarkedAsUnread::parse(d, at),
    {
        reveal(<Update as Wire>::parse);
        Self::tags_measured();
        Self::tags_spelled_26();
    }

    /// A document tagged `updateChatIsSponsored` decodes as a `UpdateChatIsSponsored`.
    pub proof fn selects_update_chat_is_sponsored(d: Doc, at: Seq<char>)
        requires
            tag_of(d) is Some,
            UpdateChatIsSponsored::known(tag_of(d)->Some_0),
        ensures
            Self::parse(d, at) == UpdateChatIsSponsored::parse(d, at),
    {
        reveal(<Update as Wire>::parse);
        Self::tags_measured();
        Self::tags_spelled_21();
    }

    /// A document tagged `updateChatHasScheduledMessages` decodes as a
    /// `UpdateChatHasScheduledMessages`.
    pub proof fn selects_update_chat_has_scheduled_messages(d: Doc, at: Seq<char>)
        requires
            tag_of(d) is Some,
            UpdateChatHasScheduledMessages::known(tag_of(d)->Some_0),
        ensures
            Self::parse(d, at) == UpdateChatHasScheduledMessages::parse(d, at),
    {
        reveal(<Update as Wire>::parse);
        Self::tags_measured();
        Self::tags_spelled_30();
    }

    /// A document tagged `updateChatDefaultDisableNotification` decodes as a
    /// `UpdateChatDefaultDisableNotification`.
    pub proof fn selects_update_chat_default_disable_notification(d: Doc, at: Seq<char>)
        requires
            tag_of(d) is Some,
            UpdateChatDefaultDisableNotification::known(tag_of(d)->Some_0),
        ensures
            Self::parse(d, at) == UpdateChatDefaultDisableNotification::parse(d, at),
    {
        reveal(<Update as Wire>::parse);
        Self::tags_measured();
    }

    /// A document tagged `updateChatReadInbox` decodes as a `UpdateChatReadInbox`.
    pub proof fn selects_update_chat_read_inbox(d: Doc, at: Seq<char>)
        requires
            tag_of(d) is Some,
            UpdateChatReadInbox::known(tag_of(d)->Some_0),
        ensures
            Self::parse(d, at) == UpdateChatReadInbox::parse(d, at),
    {
        reveal(<Update as Wire>::parse);
        Self::tags_measured();
        Self::tags_spelled_19();
    }

    /// A document tagged `updateChatReadOutbox` decodes as a `UpdateChatReadOutbox`.
    pub proof fn selects_update_chat_read_outbox(d: Doc, at: Seq<char>)
        requires
            tag_of(d) is Some,
            UpdateChatReadOutbox::known(tag_of(d)->Some_0),
        ensures
            Self::parse(d, at) == UpdateChatReadOutbox::parse(d, at),
    {
        reveal(<Update as Wire>::parse);
        Self::tags_measured();
        Self::tags_spelled_20();
    }

    /// A document tagged `updateChatUnreadMentionCount` decodes as a
    /// `UpdateChatUnreadMentionCount`.
    pub proof fn selects_update_chat_unread_mention_count(d: Doc, at: Seq<char>)
        requires
            tag_of(d) is Some,
            UpdateChatUnreadMentionCount::known(tag_of(d)->Some_0),
        ensures
            Self::parse(d, at) == UpdateChatUnreadMentionCount::parse(d, at),
    {
        reveal(<Update as Wire>::parse);
        Self::tags_measured();
        Self::tags_spelled_28();
    }

    /// A document tagged `updateChatNotificationSettings` decodes as a
    /// `UpdateChatNotificationSettings`.
    pub proof fn selects_update_chat_notification_settings(d: Doc, at: Seq<char>)
        requires
            tag_of(d) is Some,
            UpdateChatNotificationSettings::known(tag_of(d)->Some_0),
        ensures
            Self::parse(d, at) == UpdateChatNotificationSettings::parse(d, at),
    {
        reveal(<Update as Wire>::parse);
        Self::tags_measured();
        Self::tags_spelled_30();
    }

    /// A document tagged `updateScopeNotificationSettings` decodes as a
    /// `UpdateScopeNotificationSettings`.
    pub proof fn selects_update_scope_notification_settings(d: Doc, at: Seq<char>)
        requires
            tag_of(d) is Some,
            UpdateScopeNotificationSettings::known(tag_of(d)->Some_0),
        ensures
            Self::parse(d, at) == UpdateScopeNotificationSettings::parse(d, at),
    {
        reveal(<Update as Wire>::parse);
        Self::tags_measured();
        Self::tags_spelled_31();
    }

    /// A document tagged `updateChatActionBar` decodes as a `UpdateChatActionBar`.
    pub proof fn selects_update_chat_action_bar(d: Doc, at: Seq<char>)
        requires
            tag_of(d) is Some,
            UpdateChatActionBar::known(tag_of(d)->Some_0),
        ensures
            Self::parse(d, at) == UpdateChatActionBar::parse(d, at),
    {
        reveal(<Update as Wire>::parse);
        Self::tags_measured();
        Self::tags_spelled_19();
    }

    /// A document tagged `updateChatPinnedMessage` decodes as a `UpdateChatPinnedMessage`.
    pub proof fn selects_update_chat_pinned_message(d: Doc, at: Seq<char>)
        requires
            tag_of(d) is Some,
            UpdateChatPinnedMessage::known(tag_of(d)->Some_0),
        ensures
            Self::parse(d, at) == UpdateChatPinnedMessage::parse(d, at),
    {
        reveal(<Update as Wire>::parse);
        Self::tags_measured();
        Self::tags_spelled_23();
    }

    /// A document tagged `updateChatReplyMarkup` decodes as a `UpdateChatReplyMarkup`.
    pub proof fn selects_update_chat_reply_markup(d: Doc, at: Seq<char>)
        requires
            tag_of(d) is Some,
            UpdateChatReplyMarkup::known(tag_of(d)->Some_0),
        ensures
            Self::parse(d, at) == UpdateChatReplyMarkup::parse(d, at),
    {
        reveal(<Update as Wire>::parse);
        Self::tags_measured();
        Self::tags_spelled_21();
    }

    /// A document tagged `updateChatDraftMessage` decodes as a `UpdateChatDraftMessage`.
    pub proof fn selects_update_chat_draft_message(d: Doc, at: Seq<char>)
        requires
            tag_of(d) is Some,
            UpdateChatDraftMessage::known(tag_of(d)->Some_0),
        ensures
            Self::parse(d, at) == UpdateChatDraftMessage::parse(d, at),
    {
        reveal(<Update as Wire>::parse);
        Self::tags_measured();
        Self::tags_spelled_22();
    }

    /// A document tagged `updateChatOnlineMemberCount` decodes as a `UpdateChatOnlineMemberCount`.
    pub proof fn selects_update_chat_online_member_count(d: Doc, at: Seq<char>)
        requires
            tag_of(d) is Some,
            UpdateChatOnlineMemberCount::known(tag_of(d)->Some_0),
        ensures
            Self::parse(d, at) == UpdateChatOnlineMemberCount::parse(d, at),
    {
        reveal(<Update as Wire>::parse);
        Self::tags_measured();
        Self::tags_spelled_27();
    }

    /// A document tagged `updateNotification` decodes as a `UpdateNotification`.
    pub proof fn selects_update_notification(d: Doc, at: Seq<char>)
        requires
            tag_of(d) is Some,
            UpdateNotification::known(tag_of(d)->Some_0),
        ensures
            Self::parse(d, at) == UpdateNotification::parse(d, at),
    {
        reveal(<Update as Wire>::parse);
        Self::tags_measured();
        Self::tags_spelled_18();
    }

    /// A document tagged `updateNotificationGroup` decodes as a `UpdateNotificationGroup`.
    pub proof fn selects_update_notification_group(d: Doc, at: Seq<char>)
        requires
            tag_of(d) is Some,
            UpdateNotificationGroup::known(tag_of(d)->Some_0),
        ensures
            Self::parse(d, at) == UpdateNotificationGroup::parse(d, at),
    {
        reveal(<Update as Wire>::parse);
        Self::tags_measured();
        Self::tags_spelled_23();
    }

    /// A document tagged `updateActiveNotifications` decodes as a `UpdateActiveNotifications`.
    pub proof fn selects_update_active_notifications(d: Doc, at: Seq<char>)
        requires
            tag_of(d) is Some,
            UpdateActiveNotifications::known(tag_of(d)->Some_0),
        ensures
            Self::parse(d, at) == UpdateActiveNotifications::parse(d, at),
    {
        reveal(<Update as Wire>::parse);
        Self::tags_measured();
        Self::tags_spelled_25();
    }

    /// A document tagged `updateHavePendingNotifications` decodes as a
    /// `UpdateHavePendingNotifications`.
    pub proof fn selects_update_have_pending_notifications(d: Doc, at: Seq<char>)
        requires
            tag_of(d) is Some,
            UpdateHavePendingNotifications::known(tag_of(d)->Some_0),
        ensures
            Self::parse(d, at) == UpdateHavePendingNotifications::parse(d, at),
    {
        reveal(<Update as Wire>::parse);
        Self::tags_measured();
        Self::tags_spelled_30();
    }

    /// A document tagged `updateDeleteMessages` decodes as a `UpdateDeleteMessages`.
    pub proof fn selects_update_delete_messages(d: Doc, at: Seq<char>)
        requires
            tag_of(d) is Some,
            UpdateDeleteMessages::known(tag_of(d)->Some_0),
        ensures
            Self::parse(d, at) == UpdateDeleteMessages::parse(d, at),
    {
        reveal(<Update as Wire>::parse);
        Self::tags_measured();
        Self::tags_spelled_20();
    }

    /// A document tagged `updateUserChatAction` decodes as a `UpdateUserChatAction`.
    pub proof fn selects_update_user_chat_action(d: Doc, at: Seq<char>)
        requires
            tag_of(d) is Some,
            UpdateUserChatAction::known(tag_of(d)->Some_0),
        ensures
            Self::parse(d, at) == UpdateUserChatAction::parse(d, at),
    {
        reveal(<Update as Wire>::parse);
        Self::tags_measured();
        Self::tags_spelled_20();
    }

    /// A document tagged `updateUserStatus` decodes as a `UpdateUserStatus`.
    pub proof fn selects_update_user_status(d: Doc, at: Seq<char>)
        requires
            tag_of(d) is Some,
            UpdateUserStatus::known(tag_of(d)->Some_0),
        ensures
            Self::parse(d, at) == UpdateUserStatus::parse(d, at),
    {
        reveal(<Update as Wire>::parse);
        Self::tags_measured();
        Self::tags_spelled_16();
    }

    /// A document tagged `updateUser` decodes as a `UpdateUser`.
    pub proof fn selects_update_user(d: Doc, at: Seq<char>)
        requires
            tag_of(d) is Some,
            UpdateUser::known(tag_of(d)->Some_0),
        ensures
            Self::parse(d, at) == UpdateUser::parse(d, at),
    {
        reveal(<Update as Wire>::parse);
        Self::tags_measured();
        Self::tags_spelled_10();
    }

    /// A document tagged `updateBasicGroup` decodes as a `UpdateBasicGroup`.
    pub proof fn selects_update_basic_group(d: Doc, at: Seq<char>)
        requires
            tag_of(d) is Some,
            UpdateBasicGroup::known(tag_of(d)->Some_0),
        ensures
            Self::parse(d, at) == UpdateBasicGroup::parse(d, at),
    {
        reveal(<Update as Wire>::parse);
        Self::tags_measured();
        Self::tags_spelled_16();
    }

    /// A document tagged `updateSupergroup` decodes as a `UpdateSupergroup`.
    pub proof fn selects_update_supergroup(d: Doc, at: Seq<char>)
        requires
            tag_of(d) is Some,
            UpdateSupergroup::known(tag_of(d)->Some_0),
        ensures
            Self::parse(d, at) == UpdateSupergroup::parse(d, at),
    {
        reveal(<Update as Wire>::parse);
        Self::tags_measured();
        Self::tags_spelled_16();
    }

    /// A document tagged `updateSecretChat` decodes as a `UpdateSecretChat`.
    pub proof fn selects_update_secret_chat(d: Doc, at: Seq<char>)
        requires
            tag_of(d) is Some,
            UpdateSecretChat::known(tag_of(d)->Some_0),
        ensures
            Self::parse(d, at) == UpdateSecretChat::parse(d, at),
    {
        reveal(<Update as Wire>::parse);
        Self::tags_measured();
        Self::tags_spelled_16();
    }

    /// A document tagged `updateUserFullInfo` decodes as a `UpdateUserFullInfo`.
    pub proof fn selects_update_user_full_info(d: Doc, at: Seq<char>)
        requires
            tag_of(d) is Some,
            UpdateUserFullInfo::known(tag_of(d)->Some_0),
        ensures
            Self::parse(d, at) == UpdateUserFullInfo::parse(d, at),
    {
        reveal(<Update as Wire>::parse);
        Self::tags_measured();
        Self::tags_spelled_18();
    }

    /// A document tagged `updateBasicGroupFullInfo` decodes as a `UpdateBasicGroupFullInfo`.
    pub proof fn selects_update_basic_group_full_info(d: Doc, at: Seq<char>)
        requires
            tag_of(d) is Some,
            UpdateBasicGroupFullInfo::known(tag_of(d)->Some_0),
        ensures
            Self::parse(d, at) == UpdateBasicGroupFullInfo::parse(d, at),
    {
        reveal(<Update as Wire>::parse);
        Self::tags_measured();
        Self::tags_spelled_24();
    }

    /// A document tagged `updateSupergroupFullInfo` decodes as a `UpdateSupergroupFullInfo`.
    pub proof fn selects_update_supergroup_full_info(d: Doc, at: Seq<char>)
        requires
            tag_of(d) is Some,
            UpdateSupergroupFullInfo::known(tag_of(d)->Some_0),
        ensures
            Self::parse(d, at) == UpdateSupergroupFullInfo::parse(d, at),
    {
        reveal(<Update as Wire>::parse);
        Self::tags_measured();
        Self::tags_spelled_24();
    }

    /// A document tagged `updateServiceNotification` decodes as a `UpdateServiceNotification`.
    pub proof fn selects_update_service_notification(d: Doc, at: Seq<char>)
        requires
            tag_of(d) is Some,
            UpdateServiceNotification::known(tag_of(d)->Some_0),
        ensures
            Self::parse(d, at) == UpdateServiceNotification::parse(d, at),
    {
        reveal(<Update as Wire>::parse);
        Self::tags_measured();
        Self::tags_spelled_25();
    }

    /// A document tagged `updateFile` decodes as a `UpdateFile`.
    pub proof fn selects_update_file(d: Doc, at: Seq<char>)
        requires
            tag_of(d) is Some,
            UpdateFile::known(tag_of(d)->Some_0),
        ensures
            Self::parse(d, at) == UpdateFile::parse(d, at),
    {
        reveal(<Update as Wire>::parse);
        Self::tags_measured();
        Self::tags_spelled_10();
    }

    /// A document tagged `updateFileGenerationStart` decodes as a `UpdateFileGenerationStart`.
    pub proof fn selects_update_file_generation_start(d: Doc, at: Seq<char>)
        requires
            tag_of(d) is Some,
            UpdateFileGenerationStart::known(tag_of(d)->Some_0),
        ensures
            Self::parse(d, at) == UpdateFileGenerationStart::parse(d, at),
    {
        reveal(<Update as Wire>::parse);
        Self::tags_measured();
        Self::tags_spelled_25();
    }

    /// A document tagged `updateFileGenerationStop` decodes as a `UpdateFileGenerationStop`.
    pub proof fn selects_update_file_generation_stop(d: Doc, at: Seq<char>)
        requires
            tag_of(d) is Some,
            UpdateFileGenerationStop::known(tag_of(d)->Some_0),
        ensures
            Self::parse(d, at) == UpdateFileGenerationStop::parse(d, at),
    {
        reveal(<Update as Wire>::parse);
        Self::tags_measured();
        Self::tags_spelled_24();
    }

    /// A document tagged `updateCall` decodes as a `UpdateCall`.
    pub proof fn selects_update_call(d: Doc, at: Seq<char>)
        requires
            tag_of(d) is Some,
            UpdateCall::known(tag_of(d)->Some_0),
        ensures
            Self::parse(d, at) == UpdateCall::parse(d, at),
    {
        reveal(<Update as Wire>::parse);
        Self::tags_measured();
        Self::tags_spelled_10();
    }

    /// A document tagged `updateUserPrivacySettingRules` decodes as a
    /// `UpdateUserPrivacySettingRules`.
    pub proof fn selects_update_user_privacy_setting_rules(d: Doc, at: Seq<char>)
        requires
            tag_of(d) is Some,
            UpdateUserPrivacySettingRules::known(tag_of(d)->Some_0),
        ensures
            Self::parse(d, at) == UpdateUserPrivacySettingRules::parse(d, at),
    {
        reveal(<Update as Wire>::parse);
        Self::tags_measured();
        Self::tags_spelled_29();
    }

    /// A document tagged `updateUnreadMessageCount` decodes as a `UpdateUnreadMessageCount`.
    pub proof fn selects_update_unread_message_count(d: Doc, at: Seq<char>)
        requires
            tag_of(d) is Some,
            UpdateUnreadMessageCount::known(tag_of(d)->Some_0),
        ensures
            Self::parse(d, at) == UpdateUnreadMessageCount::parse(d, at),
    {
        reveal(<Update as Wire>::parse);
        Self::tags_measured();
        Self::tags_spelled_24();
    }

    /// A document tagged `updateUnreadChatCount` decodes as a `UpdateUnreadChatCount`.
    pub proof fn selects_update_unread_chat_count(d: Doc, at: Seq<char>)
        requires
            tag_of(d) is Some,
            UpdateUnreadChatCount::known(tag_of(d)->Some_0),
        ensures
            Self::parse(d, at) == UpdateUnreadChatCount::parse(d, at),
    {
        reveal(<Update as Wire>::parse);
        Self::tags_measured();
        Self::tags_spelled_21();
    }

    /// A document tagged `updateOption` decodes as a `UpdateOption`.
    pub proof fn selects_update_option(d: Doc, at: Seq<char>)
        requires
            tag_of(d) is Some,
            UpdateOption::known(tag_of(d)->Some_0),
        ensures
            Self::parse(d, at) == UpdateOption::parse(d, at),
    {
        reveal(<Update as Wire>::parse);
        Self::tags_measured();
    }

    /// A document tagged `updateInstalledStickerSets` decodes as a `UpdateInstalledStickerSets`.
    pub proof fn selects_update_installed_sticker_sets(d: Doc, at: Seq<char>)
        requires
            tag_of(d) is Some,
            UpdateInstalledStickerSets::known(tag_of(d)->Some_0),
        ensures
            Self::parse(d, at) == UpdateInstalledStickerSets::parse(d, at),
    {
        reveal(<Update as Wire>::parse);
        Self::tags_measured();
        Self::tags_spelled_26();
    }

    /// A document tagged `updateTrendingStickerSets` decodes as a `UpdateTrendingStickerSets`.
    pub proof fn selects_update_trending_sticker_sets(d: Doc, at: Seq<char>)
        requires
            tag_of(d) is Some,
            UpdateTrendingStickerSets::known(tag_of(d)->Some_0),
        ensures
            Self::parse(d, at) == UpdateTrendingStickerSets::parse(d, at),
    {
        reveal(<Update as Wire>::parse);
        Self::tags_measured();
        Self::tags_spelled_25();
    }

    /// A document tagged `updateRecentStickers` decodes as a `UpdateRecentStickers`.
    pub proof fn selects_update_recent_stickers(d: Doc, at: Seq<char>)
        requires
            tag_of(d) is Some,
            UpdateRecentStickers::known(tag_of(d)->Some_0),
        ensures
            Self::parse(d, at) == UpdateRecentStickers::parse(d, at),
    {
        reveal(<Update as Wire>::parse);
        Self::tags_measured();
        Self::tags_spelled_20();
    }

    /// A document tagged `updateFavoriteStickers` decodes as a `UpdateFavoriteStickers`.
    pub proof fn selects_update_favorite_stickers(d: Doc, at: Seq<char>)
        requires
            tag_of(d) is Some,
            UpdateFavoriteStickers::known(tag_of(d)->Some_0),
        ensures
            Self::parse(d, at) == UpdateFavoriteStickers::parse(d, at),
    {
        reveal(<Update as Wire>::parse);
        Self::tags_measured();
        Self::tags_spelled_22();
    }

    /// A document tagged `updateSavedAnimations` decodes as a `UpdateSavedAnimations`.
    pub proof fn selects_update_saved_animations(d: Doc, at: Seq<char>)
        requires
            tag_of(d) is Some,
            UpdateSavedAnimations::known(tag_of(d)->Some_0),
        ensures
            Self::parse(d, at) == UpdateSavedAnimations::parse(d, at),
    {
        reveal(<Update as Wire>::parse);
        Self::tags_measured();
        Self::tags_spelled_21();
    }

    /// A document tagged `updateSelectedBackground` decodes as a `UpdateSelectedBackground`.
    pub proof fn selects_update_selected_background(d: Doc, at: Seq<char>)
        requires
            tag_of(d) is Some,
            UpdateSelectedBackground::known(tag_of(d)->Some_0),
        ensures
            Self::parse(d, at) == UpdateSelectedBackground::parse(d, at),
    {
        reveal(<Update as Wire>::parse);
        Self::tags_measured();
        Self::tags_spelled_24();
    }

    /// A document tagged `updateLanguagePackStrings` decodes as a `UpdateLanguagePackStrings`.
    pub proof fn selects_update_language_pack_strings(d: Doc, at: Seq<char>)
        requires
            tag_of(d) is Some,
            UpdateLanguagePackStrings::known(tag_of(d)->Some_0),
        ensures
            Self::parse(d, at) == UpdateLanguagePackStrings::parse(d, at),
    {
        reveal(<Update as Wire>::parse);
        Self::tags_measured();
        Self::tags_spelled_25();
    }

    /// A document tagged `updateConnectionState` decodes as a `UpdateConnectionState`.
    pub proof fn selects_update_connection_state(d: Doc, at: Seq<char>)
        requires
            tag_of(d) is Some,
            UpdateConnectionState::known(tag_of(d)->Some_0),
        ensures
            Self::parse(d, at) == UpdateConnectionState::parse(d, at),
    {
        reveal(<Update as Wire>::parse);
        Self::tags_measured();
        Self::tags_spelled_21();
    }

    /// A document tagged `updateTermsOfService` decodes as a `UpdateTermsOfService`.
    pub proof fn selects_update_terms_of_service(d: Doc, at: Seq<char>)
        requires
            tag_of(d) is Some,
            UpdateTermsOfService::known(tag_of(d)->Some_0),
        ensures
            Self::parse(d, at) == UpdateTermsOfService::parse(d, at),
    {
        reveal(<Update as Wire>::parse);
        Self::tags_measured();
        Self::tags_spelled_20();
    }

    /// A document tagged `updateUsersNearby` decodes as a `UpdateUsersNearby`.
    pub proof fn selects_update_users_nearby(d: Doc, at: Seq<char>)
        requires
            tag_of(d) is Some,
            UpdateUsersNearby::known(tag_of(d)->Some_0),
        ensures
            Self::parse(d, at) == UpdateUsersNearby::parse(d, at),
    {
        reveal(<Update as Wire>::parse);
        Self::tags_measured();
    }

    /// A document tagged `updateNewInlineQuery` decodes as a `UpdateNewInlineQuery`.
    pub proof fn selects_update_new_inline_query(d: Doc, at: Seq<char>)
        requires
            tag_of(d) is Some,
            UpdateNewInlineQuery::known(tag_of(d)->Some_0),
        ensures
            Self::parse(d, at) == UpdateNewInlineQuery::parse(d, at),
    {
        reveal(<Update as Wire>::parse);
        Self::tags_measured();
        Self::tags_spelled_20();
    }

    /// A document tagged `updateNewChosenInlineResult` decodes as a `UpdateNewChosenInlineResult`.
    pub proof fn selects_update_new_chosen_inline_result(d: Doc, at: Seq<char>)
        requires
            tag_of(d) is Some,
            UpdateNewChosenInlineResult::known(tag_of(d)->Some_0),
        ensures
            Self::parse(d, at) == UpdateNewChosenInlineResult::parse(d, at),
    {
        reveal(<Update as Wire>::parse);
        Self::tags_measured();
        Self::tags_spelled_27();
    }

    /// A document tagged `updateNewCallbackQuery` decodes as a `UpdateNewCallbackQuery`.
    pub proof fn selects_update_new_callback_query(d: Doc, at: Seq<char>)
        requires
            tag_of(d) is Some,
            UpdateNewCallbackQuery::known(tag_of(d)->Some_0),
        ensures
            Self::parse(d, at) == UpdateNewCallbackQuery::parse(d, at),
    {
        reveal(<Update as Wire>::parse);
        Self::tags_measured();
        Self::tags_spelled_22();
    }

    /// A document tagged `updateNewInlineCallbackQuery` decodes as a
    /// `UpdateNewInlineCallbackQuery`.
    pub proof fn selects_update_new_inline_callback_query(d: Doc, at: Seq<char>)
        requires
            tag_of(d) is Some,
            UpdateNewInlineCallbackQuery::known(tag_of(d)->Some_0),
        ensures
            Self::parse(d, at) == UpdateNewInlineCallbackQuery::parse(d, at),
    {
        reveal(<Update as Wire>::parse);
        Self::tags_measured();
        Self::tags_spelled_28();
    }

    /// A document tagged `updateNewShippingQuery` decodes as a `UpdateNewShippingQuery`.
    pub proof fn selects_update_new_shipping_query(d: Doc, at: Seq<char>)
        requires
            tag_of(d) is Some,
            UpdateNewShippingQuery::known(tag_of(d)->Some_0),
        ensures
            Self::parse(d, at) == UpdateNewShippingQuery::parse(d, at),
    {
        reveal(<Update as Wire>::parse);
        Self::tags_measured();
        Self::tags_spelled_22();
    }

    /// A document tagged `updateNewPreCheckoutQuery` decodes as a `UpdateNewPreCheckoutQuery`.
    pub proof fn selects_update_new_pre_checkout_query(d: Doc, at: Seq<char>)
        requires
            tag_of(d) is Some,
            UpdateNewPreCheckoutQuery::known(tag_of(d)->Some_0),
        ensures
            Self::parse(d, at) == UpdateNewPreCheckoutQuery::parse(d, at),
    {
        reveal(<Update as Wire>::parse);
        Self::tags_measured();
        Self::tags_spelled_25();
    }

    /// A document tagged `updateNewCustomEvent` decodes as a `UpdateNewCustomEvent`.
    pub proof fn selects_update_new_custom_event(d: Doc, at: Seq<char>)
        requires
            tag_of(d) is Some,
            UpdateNewCustomEvent::known(tag_of(d)->Some_0),
        ensures
            Self::parse(d, at) == UpdateNewCustomEvent::parse(d, at),
    {
        reveal(<Update as Wire>::parse);
        Self::tags_measured();
        Self::tags_spelled_20();
    }

    /// A document tagged `updateNewCustomQuery` decodes as a `UpdateNewCustomQuery`.
    pub proof fn selects_update_new_custom_query(d: Doc, at: Seq<char>)
        requires
            tag_of(d) is Some,
            UpdateNewCustomQuery::known(tag_of(d)->Some_0),
        ensures
            Self::parse(d, at) == UpdateNewCustomQuery::parse(d, at),
    {
        reveal(<Update as Wire>::parse);
        Self::tags_measured();
        Self::tags_spelled_20();
    }

    /// A document tagged `updatePoll` decodes as a `UpdatePoll`.
    pub proof fn selects_update_poll(d: Doc, at: Seq<char>)
        requires
            tag_of(d) is Some,
            UpdatePoll::known(tag_of(d)->Some_0),
        ensures
            Self::parse(d, at) == UpdatePoll::parse(d, at),
    {
        reveal(<Update as Wire>::parse);
        Self::tags_measured();
        Self::tags_spelled_10();
    }

    /// A document tagged `updatePollAnswer` decodes as a `UpdatePollAnswer`.
    pub proof fn selects_update_poll_answer(d: Doc, at: Seq<char>)
        requires
            tag_of(d) is Some,
            UpdatePollAnswer::known(tag_of(d)->Some_0),
        ensures
            Self::parse(d, at) == UpdatePollAnswer::parse(d, at),
    {
        reveal(<Update as Wire>::parse);
        Self::tags_measured();
        Self::tags_spelled_16();
    }
}

/// Contains a list of updates
#[derive(Debug, Clone, PartialEq)]
pub struct Updates {
    /// List of updates
    pub updates: Vec<Update>,
}

impl Wire for Updates {
    #[verifier::opaque]
    open spec fn wire(&self) -> Doc {
        tagged(
            Map::empty()
                .insert("updates"@, self.updates.wire()),
            "updates"@,
        )
    }

    #[verifier::opaque]
    open spec fn parse(d: Doc, at: Seq<char>) -> Result<Doc, Fault> {
        match d {
            Doc::Object(m) => {
                let updates = field::<Vec<Update>>(m, "updates"@);
                if updates is Err {
                    updates
                } else {
                    Ok(
                        tagged(
                            Map::empty()
                                .insert("updates"@, updates->Ok_0),
                            "updates"@,
                        ),
                    )
                }
            },
            _ => Err(Fault::TypeMismatch(at)),
        }
    }

    fn encode(&self) -> (j: Json) {
        proof {
            reveal(<Updates as Wire>::wire);
        }
        let mut members: Vec<Member> = Vec::new();
        put(&mut members, "updates", self.updates.encode());
        seal(members, "updates")
    }

    fn decode(j: &Json, at: &str) -> (r: Result<Self, DecodeError>) {
        proof {
            reveal(<Updates as Wire>::wire);
            reveal(<Updates as Wire>::parse);
        }
        let members = members_of(j, at)?;
        let updates = read_field::<Vec<Update>>(members, "updates")?;
        Ok(Updates { updates })
    }

    proof fn round_trip(&self, at: Seq<char>) {
        reveal(<Updates as Wire>::wire);
        reveal(<Updates as Wire>::parse);
        reveal_strlit("@type");
        reveal_strlit("updates");
        assert("@type"@.len() == 5);
        assert("updates"@.len() == 7);
        self.updates.round_trip("updates"@);
    }
}

impl Tagged for Updates {
    open spec fn known(tag: Seq<char>) -> bool {
        tag == "updates"@
    }

    fn knows(tag: &str) -> (r: bool) {
        same_text(tag, "updates")
    }

    proof fn tag_known(&self) {
        reveal(<Updates as Wire>::wire);
        assert(tag_of(self.wire()) == Some("updates"@));
        assert(Self::known("updates"@));
    }
}

} // verus!
