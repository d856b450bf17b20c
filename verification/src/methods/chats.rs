//! Requests that open, create and change chats, and handle files.

use vstd::prelude::*;
use crate::codec::{
    encode_wide, field, find, lemma_wide_round_trip, members_of, optional_field, put, read_field,
    read_optional, read_wide, seal, Tagged, wide_doc, wide_field, Wire,
};
use crate::error::{DecodeError, Fault};
use crate::json::{Doc, Json, Member, Number, tag_of, tagged};
use crate::methods::Method;
use crate::text::same_text;
use crate::types::{
    CanTransferOwnershipResult, Chat, ChatAction, ChatAdministrators, ChatInviteLink,
    ChatInviteLinkInfo, ChatList, ChatLocation, ChatMember, ChatMemberStatus, ChatMembers,
    ChatMembersFilter, ChatNotificationSettings, ChatPermissions, Chats, Count, DraftMessage,
    Error, File, FilePart, FileType, InputFile, NotificationSettingsScope, Okay,
    ScopeNotificationSettings,
};

verus! {

/// Deletes the default reply markup from a chat. Must be called after a one-time keyboard or a
/// ForceReply reply markup has been used. UpdateChatReplyMarkup will be sent if the reply markup
/// will be changed
#[derive(Debug, Clone)]
pub struct DeleteChatReplyMarkup {
    /// Chat identifier
    pub chat_id: i64,
    /// The message identifier of the used keyboard
    pub message_id: i64,
}

impl Wire for DeleteChatReplyMarkup {
    #[verifier::opaque]
    open spec fn wire(&self) -> Doc {
        tagged(
            Map::empty()
                .insert("chatId"@, self.chat_id.wire())
                .insert("messageId"@, self.message_id.wire()),
            "deleteChatReplyMarkup"@,
        )
    }

    #[verifier::opaque]
    open spec fn parse(d: Doc, at: Seq<char>) -> Result<Doc, Fault> {
        match d {
            Doc::Object(m) => {
                let chat_id = field::<i64>(m, "chatId"@);
                let message_id = field::<i64>(m, "messageId"@);
                if chat_id is Err {
                    chat_id
                } else if message_id is Err {
                    message_id
                } else {
                    Ok(
                        tagged(
                            Map::empty()
                                .insert("chatId"@, chat_id->Ok_0)
                                .insert("messageId"@, message_id->Ok_0),
                            "deleteChatReplyMarkup"@,
                        ),
                    )
                }
            },
            _ => Err(Fault::TypeMismatch(at)),
        }
    }

    fn encode(&self) -> (j: Json) {
        proof {
            reveal(<DeleteChatReplyMarkup as Wire>::wire);
        }
        let mut members: Vec<Member> = Vec::new();
        put(&mut members, "chatId", self.chat_id.encode());
        put(&mut members, "messageId", self.message_id.encode());
        seal(members, "deleteChatReplyMarkup")
    }

    fn decode(j: &Json, at: &str) -> (r: Result<Self, DecodeError>) {
        proof {
            reveal(<DeleteChatReplyMarkup as Wire>::wire);
            reveal(<DeleteChatReplyMarkup as Wire>::parse);
        }
        let members = members_of(j, at)?;
        let chat_id = read_field::<i64>(members, "chatId")?;
        let message_id = read_field::<i64>(members, "messageId")?;
        Ok(DeleteChatReplyMarkup { chat_id, message_id })
    }

    proof fn round_trip(&self, at: Seq<char>) {
        reveal(<DeleteChatReplyMarkup as Wire>::wire);
        reveal(<DeleteChatReplyMarkup as Wire>::parse);
        reveal_strlit("@type");
        reveal_strlit("chatId");
        reveal_strlit("messageId");
        assert("@type"@.len() == 5);
        assert("chatId"@.len() == 6);
        assert("messageId"@.len() == 9);
        self.chat_id.round_trip("chatId"@);
        self.message_id.round_trip("messageId"@);
    }
}

impl Tagged for DeleteChatReplyMarkup {
    open spec fn known(tag: Seq<char>) -> bool {
        tag == "deleteChatReplyMarkup"@
    }

    fn knows(tag: &str) -> (r: bool) {
        same_text(tag, "deleteChatReplyMarkup")
    }

    proof fn tag_known(&self) {
        reveal(<DeleteChatReplyMarkup as Wire>::wire);
        assert(tag_of(self.wire()) == Some("deleteChatReplyMarkup"@));
        assert(Self::known("deleteChatReplyMarkup"@));
    }
}

impl Method for DeleteChatReplyMarkup {
    const TYPE: &'static str = "deleteChatReplyMarkup";

    type Response = Okay;

    proof fn type_is_tag(&self) {
        reveal(<DeleteChatReplyMarkup as Wire>::wire);
        assert(tag_of(self.wire()) == Some("deleteChatReplyMarkup"@));
    }
}

/// Sends a notification about user activity in a chat
#[derive(Debug, Clone)]
pub struct SendChatAction {
    /// Chat identifier
    pub chat_id: i64,
    /// The action description
    pub action: ChatAction,
}

impl Wire for SendChatAction {
    #[verifier::opaque]
    open spec fn wire(&self) -> Doc {
        tagged(
            Map::empty()
                .insert("chatId"@, self.chat_id.wire())
                .insert("action"@, self.action.wire()),
            "sendChatAction"@,
        )
    }

    #[verifier::opaque]
    open spec fn parse(d: Doc, at: Seq<char>) -> Result<Doc, Fault> {
        match d {
            Doc::Object(m) => {
                let chat_id = field::<i64>(m, "chatId"@);
                let action = field::<ChatAction>(m, "action"@);
                if chat_id is Err {
                    chat_id
                } else if action is Err {
                    action
                } else {
                    Ok(
                        tagged(
                            Map::empty()
                                .insert("chatId"@, chat_id->Ok_0)
                                .insert("action"@, action->Ok_0),
                            "sendChatAction"@,
                        ),
                    )
                }
            },
            _ => Err(Fault::TypeMismatch(at)),
        }
    }

    fn encode(&self) -> (j: Json) {
        proof {
            reveal(<SendChatAction as Wire>::wire);
        }
        let mut members: Vec<Member> = Vec::new();
        put(&mut members, "chatId", self.chat_id.encode());
        put(&mut members, "action", self.action.encode());
        seal(members, "sendChatAction")
    }

    fn decode(j: &Json, at: &str) -> (r: Result<Self, DecodeError>) {
        proof {
            reveal(<SendChatAction as Wire>::wire);
            reveal(<SendChatAction as Wire>::parse);
        }
        let members = members_of(j, at)?;
        let chat_id = read_field::<i64>(members, "chatId")?;
        let action = read_field::<ChatAction>(members, "action")?;
        Ok(SendChatAction { chat_id, action })
    }

    proof fn round_trip(&self, at: Seq<char>) {
        reveal(<SendChatAction as Wire>::wire);
        reveal(<SendChatAction as Wire>::parse);
        reveal_strlit("@type");
        reveal_strlit("action");
        reveal_strlit("chatId");
        assert("@type"@.len() == 5);
        assert("action"@.len() == 6 && "action"@[0] == 'a');
        assert("chatId"@.len() == 6 && "chatId"@[0] == 'c');
        self.chat_id.round_trip("chatId"@);
        self.action.round_trip("action"@);
    }
}

impl Tagged for SendChatAction {
    open spec fn known(tag: Seq<char>) -> bool {
        tag == "sendChatAction"@
    }

    fn knows(tag: &str) -> (r: bool) {
        same_text(tag, "sendChatAction")
    }

    proof fn tag_known(&self) {
        reveal(<SendChatAction as Wire>::wire);
        assert(tag_of(self.wire()) == Some("sendChatAction"@));
        assert(Self::known("sendChatAction"@));
    }
}

impl Method for SendChatAction {
    const TYPE: &'static str = "sendChatAction";

    type Response = Okay;

    proof fn type_is_tag(&self) {
        reveal(<SendChatAction as Wire>::wire);
        assert(tag_of(self.wire()) == Some("sendChatAction"@));
    }
}

/// Informs TDLib that the chat is opened by the user. Many useful activities depend on the chat
/// being opened or closed (e.g., in supergroups and channels all updates are received only for
/// opened chats)
#[derive(Debug, Clone)]
pub struct OpenChat {
    /// Chat identifier
    pub chat_id: i64,
}

impl Wire for OpenChat {
    #[verifier::opaque]
    open spec fn wire(&self) -> Doc {
        tagged(
            Map::empty()
                .insert("chatId"@, self.chat_id.wire()),
            "openChat"@,
        )
    }

    #[verifier::opaque]
    open spec fn parse(d: Doc, at: Seq<char>) -> Result<Doc, Fault> {
        match d {
            Doc::Object(m) => {
                let chat_id = field::<i64>(m, "chatId"@);
                if chat_id is Err {
                    chat_id
                } else {
                    Ok(
                        tagged(
                            Map::empty()
                                .insert("chatId"@, chat_id->Ok_0),
                            "openChat"@,
                        ),
                    )
                }
            },
            _ => Err(Fault::TypeMismatch(at)),
        }
    }

    fn encode(&self) -> (j: Json) {
        proof {
            reveal(<OpenChat as Wire>::wire);
        }
        let mut members: Vec<Member> = Vec::new();
        put(&mut members, "chatId", self.chat_id.encode());
        seal(members, "openChat")
    }

    fn decode(j: &Json, at: &str) -> (r: Result<Self, DecodeError>) {
        proof {
            reveal(<OpenChat as Wire>::wire);
            reveal(<OpenChat as Wire>::parse);
        }
        let members = members_of(j, at)?;
        let chat_id = read_field::<i64>(members, "chatId")?;
        Ok(OpenChat { chat_id })
    }

    proof fn round_trip(&self, at: Seq<char>) {
        reveal(<OpenChat as Wire>::wire);
        reveal(<OpenChat as Wire>::parse);
        reveal_strlit("@type");
        reveal_strlit("chatId");
        assert("@type"@.len() == 5);
        assert("chatId"@.len() == 6);
        self.chat_id.round_trip("chatId"@);
    }
}

impl Tagged for OpenChat {
    open spec fn known(tag: Seq<char>) -> bool {
        tag == "openChat"@
    }

    fn knows(tag: &str) -> (r: bool) {
        same_text(tag, "openChat")
    }

    proof fn tag_known(&self) {
        reveal(<OpenChat as Wire>::wire);
        assert(tag_of(self.wire()) == Some("openChat"@));
        assert(Self::known("openChat"@));
    }
}

impl Method for OpenChat {
    const TYPE: &'static str = "openChat";

    type Response = Okay;

    proof fn type_is_tag(&self) {
        reveal(<OpenChat as Wire>::wire);
        assert(tag_of(self.wire()) == Some("openChat"@));
    }
}

/// Informs TDLib that the chat is closed by the user. Many useful activities depend on the chat
/// being opened or closed
#[derive(Debug, Clone)]
pub struct CloseChat {
    /// Chat identifier
    pub chat_id: i64,
}

impl Wire for CloseChat {
    #[verifier::opaque]
    open spec fn wire(&self) -> Doc {
        tagged(
            Map::empty()
                .insert("chatId"@, self.chat_id.wire()),
            "closeChat"@,
        )
    }

    #[verifier::opaque]
    open spec fn parse(d: Doc, at: Seq<char>) -> Result<Doc, Fault> {
        match d {
            Doc::Object(m) => {
                let chat_id = field::<i64>(m, "chatId"@);
                if chat_id is Err {
                    chat_id
                } else {
                    Ok(
                        tagged(
                            Map::empty()
                                .insert("chatId"@, chat_id->Ok_0),
                            "closeChat"@,
                        ),
                    )
                }
            },
            _ => Err(Fault::TypeMismatch(at)),
        }
    }

    fn encode(&self) -> (j: Json) {
        proof {
            reveal(<CloseChat as Wire>::wire);
        }
        let mut members: Vec<Member> = Vec::new();
        put(&mut members, "chatId", self.chat_id.encode());
        seal(members, "closeChat")
    }

    fn decode(j: &Json, at: &str) -> (r: Result<Self, DecodeError>) {
        proof {
            reveal(<CloseChat as Wire>::wire);
            reveal(<CloseChat as Wire>::parse);
        }
        let members = members_of(j, at)?;
        let chat_id = read_field::<i64>(members, "chatId")?;
        Ok(CloseChat { chat_id })
    }

    proof fn round_trip(&self, at: Seq<char>) {
        reveal(<CloseChat as Wire>::wire);
        reveal(<CloseChat as Wire>::parse);
        reveal_strlit("@type");
        reveal_strlit("chatId");
        assert("@type"@.len() == 5);
        assert("chatId"@.len() == 6);
        self.chat_id.round_trip("chatId"@);
    }
}

impl Tagged for CloseChat {
    open spec fn known(tag: Seq<char>) -> bool {
        tag == "closeChat"@
    }

    fn knows(tag: &str) -> (r: bool) {
        same_text(tag, "closeChat")
    }

    proof fn tag_known(&self) {
        reveal(<CloseChat as Wire>::wire);
        assert(tag_of(self.wire()) == Some("closeChat"@));
        assert(Self::known("closeChat"@));
    }
}

impl Method for CloseChat {
    const TYPE: &'static str = "closeChat";

    type Response = Okay;

    proof fn type_is_tag(&self) {
        reveal(<CloseChat as Wire>::wire);
        assert(tag_of(self.wire()) == Some("closeChat"@));
    }
}

/// Informs TDLib that messages are being viewed by the user. Many useful activities depend on
/// whether the messages are currently being viewed or not (e.g., marking messages as read,
/// incrementing a view counter, updating a view counter, removing deleted messages in supergroups
/// and channels)
#[derive(Debug, Clone)]
pub struct ViewMessages {
    /// Chat identifier
    pub chat_id: i64,
    /// The identifiers of the messages being viewed
    pub message_ids: Vec<i64>,
    /// True, if messages in closed chats should be marked as read
    pub force_read: bool,
}

impl Wire for ViewMessages {
    #[verifier::opaque]
    open spec fn wire(&self) -> Doc {
        tagged(
            Map::empty()
                .insert("chatId"@, self.chat_id.wire())
                .insert("messageIds"@, self.message_ids.wire())
                .insert("forceRead"@, self.force_read.wire()),
            "viewMessages"@,
        )
    }

    #[verifier::opaque]
    open spec fn parse(d: Doc, at: Seq<char>) -> Result<Doc, Fault> {
        match d {
            Doc::Object(m) => {
                let chat_id = field::<i64>(m, "chatId"@);
                let message_ids = field::<Vec<i64>>(m, "messageIds"@);
                let force_read = field::<bool>(m, "forceRead"@);
                if chat_id is Err {
                    chat_id
                } else if message_ids is Err {
                    message_ids
                } else if force_read is Err {
                    force_read
                } else {
                    Ok(
                        tagged(
                            Map::empty()
                                .insert("chatId"@, chat_id->Ok_0)
                                .insert("messageIds"@, message_ids->Ok_0)
                                .insert("forceRead"@, force_read->Ok_0),
                            "viewMessages"@,
                        ),
                    )
                }
            },
            _ => Err(Fault::TypeMismatch(at)),
        }
    }

    fn encode(&self) -> (j: Json) {
        proof {
            reveal(<ViewMessages as Wire>::wire);
        }
        let mut members: Vec<Member> = Vec::new();
        put(&mut members, "chatId", self.chat_id.encode());
        put(&mut members, "messageIds", self.message_ids.encode());
        put(&mut members, "forceRead", self.force_read.encode());
        seal(members, "viewMessages")
    }

    fn decode(j: &Json, at: &str) -> (r: Result<Self, DecodeError>) {
        proof {
            reveal(<ViewMessages as Wire>::wire);
            reveal(<ViewMessages as Wire>::parse);
        }
        let members = members_of(j, at)?;
        let chat_id = read_field::<i64>(members, "chatId")?;
        let message_ids = read_field::<Vec<i64>>(members, "messageIds")?;
        let force_read = read_field::<bool>(members, "forceRead")?;
        Ok(ViewMessages { chat_id, message_ids, force_read })
    }

    proof fn round_trip(&self, at: Seq<char>) {
        reveal(<ViewMessages as Wire>::wire);
        reveal(<ViewMessages as Wire>::parse);
        reveal_strlit("@type");
        reveal_strlit("chatId");
        reveal_strlit("forceRead");
        reveal_strlit("messageIds");
        assert("@type"@.len() == 5);
        assert("chatId"@.len() == 6);
        assert("forceRead"@.len() == 9);
        assert("messageIds"@.len() == 10);
        self.chat_id.round_trip("chatId"@);
        self.message_ids.round_trip("messageIds"@);
        self.force_read.round_trip("forceRead"@);
    }
}

impl Tagged for ViewMessages {
    open spec fn known(tag: Seq<char>) -> bool {
        tag == "viewMessages"@
    }

    fn knows(tag: &str) -> (r: bool) {
        same_text(tag, "viewMessages")
    }

    proof fn tag_known(&self) {
        reveal(<ViewMessages as Wire>::wire);
        assert(tag_of(self.wire()) == Some("viewMessages"@));
        assert(Self::known("viewMessages"@));
    }
}

impl Method for ViewMessages {
    const TYPE: &'static str = "viewMessages";

    type Response = Okay;

    proof fn type_is_tag(&self) {
        reveal(<ViewMessages as Wire>::wire);
        assert(tag_of(self.wire()) == Some("viewMessages"@));
    }
}

/// Informs TDLib that the message content has been opened (e.g., the user has opened a photo,
/// video, document, location or venue, or has listened to an audio file or voice note message). An
/// updateMessageContentOpened update will be generated if something has changed
#[derive(Debug, Clone)]
pub struct OpenMessageContent {
    /// Chat identifier of the message
    pub chat_id: i64,
    /// Identifier of the message with the opened content
    pub message_id: i64,
}

impl Wire for OpenMessageContent {
    #[verifier::opaque]
    open spec fn wire(&self) -> Doc {
        tagged(
            Map::empty()
                .insert("chatId"@, self.chat_id.wire())
                .insert("messageId"@, self.message_id.wire()),
            "openMessageContent"@,
        )
    }

    #[verifier::opaque]
    open spec fn parse(d: Doc, at: Seq<char>) -> Result<Doc, Fault> {
        match d {
            Doc::Object(m) => {
                let chat_id = field::<i64>(m, "chatId"@);
                let message_id = field::<i64>(m, "messageId"@);
                if chat_id is Err {
                    chat_id
                } else if message_id is Err {
                    message_id
                } else {
                    Ok(
                        tagged(
                            Map::empty()
                                .insert("chatId"@, chat_id->Ok_0)
                                .insert("messageId"@, message_id->Ok_0),
                            "openMessageContent"@,
                        ),
                    )
                }
            },
            _ => Err(Fault::TypeMismatch(at)),
        }
    }

    fn encode(&self) -> (j: Json) {
        proof {
            reveal(<OpenMessageContent as Wire>::wire);
        }
        let mut members: Vec<Member> = Vec::new();
        put(&mut members, "chatId", self.chat_id.encode());
        put(&mut members, "messageId", self.message_id.encode());
        seal(members, "openMessageContent")
    }

    fn decode(j: &Json, at: &str) -> (r: Result<Self, DecodeError>) {
        proof {
            reveal(<OpenMessageContent as Wire>::wire);
            reveal(<OpenMessageContent as Wire>::parse);
        }
        let members = members_of(j, at)?;
        let chat_id = read_field::<i64>(members, "chatId")?;
        let message_id = read_field::<i64>(members, "messageId")?;
        Ok(OpenMessageContent { chat_id, message_id })
    }

    proof fn round_trip(&self, at: Seq<char>) {
        reveal(<OpenMessageContent as Wire>::wire);
        reveal(<OpenMessageContent as Wire>::parse);
        reveal_strlit("@type");
        reveal_strlit("chatId");
        reveal_strlit("messageId");
        assert("@type"@.len() == 5);
        assert("chatId"@.len() == 6);
        assert("messageId"@.len() == 9);
        self.chat_id.round_trip("chatId"@);
        self.message_id.round_trip("messageId"@);
    }
}

impl Tagged for OpenMessageContent {
    open spec fn known(tag: Seq<char>) -> bool {
        tag == "openMessageContent"@
    }

    fn knows(tag: &str) -> (r: bool) {
        same_text(tag, "openMessageContent")
    }

    proof fn tag_known(&self) {
        reveal(<OpenMessageContent as Wire>::wire);
        assert(tag_of(self.wire()) == Some("openMessageContent"@));
        assert(Self::known("openMessageContent"@));
    }
}

impl Method for OpenMessageContent {
    const TYPE: &'static str = "openMessageContent";

    type Response = Okay;

    proof fn type_is_tag(&self) {
        reveal(<OpenMessageContent as Wire>::wire);
        assert(tag_of(self.wire()) == Some("openMessageContent"@));
    }
}

/// Marks all mentions in a chat as read
#[derive(Debug, Clone)]
pub struct ReadAllChatMentions {
    /// Chat identifier
    pub chat_id: i64,
}

impl Wire for ReadAllChatMentions {
    #[verifier::opaque]
    open spec fn wire(&self) -> Doc {
        tagged(
            Map::empty()
                .insert("chatId"@, self.chat_id.wire()),
            "readAllChatMentions"@,
        )
    }

    #[verifier::opaque]
    open spec fn parse(d: Doc, at: Seq<char>) -> Result<Doc, Fault> {
        match d {
            Doc::Object(m) => {
                let chat_id = field::<i64>(m, "chatId"@);
                if chat_id is Err {
                    chat_id
                } else {
                    Ok(
                        tagged(
                            Map::empty()
                                .insert("chatId"@, chat_id->Ok_0),
                            "readAllChatMentions"@,
                        ),
                    )
                }
            },
            _ => Err(Fault::TypeMismatch(at)),
        }
    }

    fn encode(&self) -> (j: Json) {
        proof {
            reveal(<ReadAllChatMentions as Wire>::wire);
        }
        let mut members: Vec<Member> = Vec::new();
        put(&mut members, "chatId", self.chat_id.encode());
        seal(members, "readAllChatMentions")
    }

    fn decode(j: &Json, at: &str) -> (r: Result<Self, DecodeError>) {
        proof {
            reveal(<ReadAllChatMentions as Wire>::wire);
            reveal(<ReadAllChatMentions as Wire>::parse);
        }
        let members = members_of(j, at)?;
        let chat_id = read_field::<i64>(members, "chatId")?;
        Ok(ReadAllChatMentions { chat_id })
    }

    proof fn round_trip(&self, at: Seq<char>) {
        reveal(<ReadAllChatMentions as Wire>::wire);
        reveal(<ReadAllChatMentions as Wire>::parse);
        reveal_strlit("@type");
        reveal_strlit("chatId");
        assert("@type"@.len() == 5);
        assert("chatId"@.len() == 6);
        self.chat_id.round_trip("chatId"@);
    }
}

impl Tagged for ReadAllChatMentions {
    open spec fn known(tag: Seq<char>) -> bool {
        tag == "readAllChatMentions"@
    }

    fn knows(tag: &str) -> (r: bool) {
        same_text(tag, "readAllChatMentions")
    }

    proof fn tag_known(&self) {
        reveal(<ReadAllChatMentions as Wire>::wire);
        assert(tag_of(self.wire()) == Some("readAllChatMentions"@));
        assert(Self::known("readAllChatMentions"@));
    }
}

impl Method for ReadAllChatMentions {
    const TYPE: &'static str = "readAllChatMentions";

    type Response = Okay;

    proof fn type_is_tag(&self) {
        reveal(<ReadAllChatMentions as Wire>::wire);
        assert(tag_of(self.wire()) == Some("readAllChatMentions"@));
    }
}

/// Returns an existing chat corresponding to a given user
#[derive(Debug, Clone)]
pub struct CreatePrivateChat {
    /// User identifier
    pub user_id: i32,
    /// If true, the chat will be created without network request. In this case all information
    /// about the chat except its type, title and photo can be incorrect
    pub force: bool,
}

impl Wire for CreatePrivateChat {
    #[verifier::opaque]
    open spec fn wire(&self) -> Doc {
        tagged(
            Map::empty()
                .insert("userId"@, self.user_id.wire())
                .insert("force"@, self.force.wire()),
            "createPrivateChat"@,
        )
    }

    #[verifier::opaque]
    open spec fn parse(d: Doc, at: Seq<char>) -> Result<Doc, Fault> {
        match d {
            Doc::Object(m) => {
                let user_id = field::<i32>(m, "userId"@);
                let force = field::<bool>(m, "force"@);
                if user_id is Err {
                    user_id
                } else if force is Err {
                    force
                } else {
                    Ok(
                        tagged(
                            Map::empty()
                                .insert("userId"@, user_id->Ok_0)
                                .insert("force"@, force->Ok_0),
                            "createPrivateChat"@,
                        ),
                    )
                }
            },
            _ => Err(Fault::TypeMismatch(at)),
        }
    }

    fn encode(&self) -> (j: Json) {
        proof {
            reveal(<CreatePrivateChat as Wire>::wire);
        }
        let mut members: Vec<Member> = Vec::new();
        put(&mut members, "userId", self.user_id.encode());
        put(&mut members, "force", self.force.encode());
        seal(members, "createPrivateChat")
    }

    fn decode(j: &Json, at: &str) -> (r: Result<Self, DecodeError>) {
        proof {
            reveal(<CreatePrivateChat as Wire>::wire);
            reveal(<CreatePrivateChat as Wire>::parse);
        }
        let members = members_of(j, at)?;
        let user_id = read_field::<i32>(members, "userId")?;
        let force = read_field::<bool>(members, "force")?;
        Ok(CreatePrivateChat { user_id, force })
    }

    proof fn round_trip(&self, at: Seq<char>) {
        reveal(<CreatePrivateChat as Wire>::wire);
        reveal(<CreatePrivateChat as Wire>::parse);
        reveal_strlit("@type");
        reveal_strlit("force");
        reveal_strlit("userId");
        assert("@type"@.len() == 5 && "@type"@[0] == '@');
        assert("force"@.len() == 5 && "force"@[0] == 'f');
        assert("userId"@.len() == 6);
        self.user_id.round_trip("userId"@);
        self.force.round_trip("force"@);
    }
}

impl Tagged for CreatePrivateChat {
    open spec fn known(tag: Seq<char>) -> bool {
        tag == "createPrivateChat"@
    }

    fn knows(tag: &str) -> (r: bool) {
        same_text(tag, "createPrivateChat")
    }

    proof fn tag_known(&self) {
        reveal(<CreatePrivateChat as Wire>::wire);
        assert(tag_of(self.wire()) == Some("createPrivateChat"@));
        assert(Self::known("createPrivateChat"@));
    }
}

impl Method for CreatePrivateChat {
    const TYPE: &'static str = "createPrivateChat";

    type Response = Chat;

    proof fn type_is_tag(&self) {
        reveal(<CreatePrivateChat as Wire>::wire);
        assert(tag_of(self.wire()) == Some("createPrivateChat"@));
    }
}

/// Returns an existing chat corresponding to a known basic group
#[derive(Debug, Clone)]
pub struct CreateBasicGroupChat {
    /// Basic group identifier
    pub basic_group_id: i32,
    /// If true, the chat will be created without network request. In this case all information
    /// about the chat except its type, title and photo can be incorrect
    pub force: bool,
}

impl Wire for CreateBasicGroupChat {
    #[verifier::opaque]
    open spec fn wire(&self) -> Doc {
        tagged(
            Map::empty()
                .insert("basicGroupId"@, self.basic_group_id.wire())
                .insert("force"@, self.force.wire()),
            "createBasicGroupChat"@,
        )
    }

    #[verifier::opaque]
    open spec fn parse(d: Doc, at: Seq<char>) -> Result<Doc, Fault> {
        match d {
            Doc::Object(m) => {
                let basic_group_id = field::<i32>(m, "basicGroupId"@);
                let force = field::<bool>(m, "force"@);
                if basic_group_id is Err {
                    basic_group_id
                } else if force is Err {
                    force
                } else {
                    Ok(
                        tagged(
                            Map::empty()
                                .insert("basicGroupId"@, basic_group_id->Ok_0)
                                .insert("force"@, force->Ok_0),
                            "createBasicGroupChat"@,
                        ),
                    )
                }
            },
            _ => Err(Fault::TypeMismatch(at)),
        }
    }

    fn encode(&self) -> (j: Json) {
        proof {
            reveal(<CreateBasicGroupChat as Wire>::wire);
        }
        let mut members: Vec<Member> = Vec::new();
        put(&mut members, "basicGroupId", self.basic_group_id.encode());
        put(&mut members, "force", self.force.encode());
        seal(members, "createBasicGroupChat")
    }

    fn decode(j: &Json, at: &str) -> (r: Result<Self, DecodeError>) {
        proof {
            reveal(<CreateBasicGroupChat as Wire>::wire);
            reveal(<CreateBasicGroupChat as Wire>::parse);
        }
        let members = members_of(j, at)?;
        let basic_group_id = read_field::<i32>(members, "basicGroupId")?;
        let force = read_field::<bool>(members, "force")?;
        Ok(CreateBasicGroupChat { basic_group_id, force })
    }

    proof fn round_trip(&self, at: Seq<char>) {
        reveal(<CreateBasicGroupChat as Wire>::wire);
        reveal(<CreateBasicGroupChat as Wire>::parse);
        reveal_strlit("@type");
        reveal_strlit("basicGroupId");
        reveal_strlit("force");
        assert("@type"@.len() == 5 && "@type"@[0] == '@');
        assert("basicGroupId"@.len() == 12);
        assert("force"@.len() == 5 && "force"@[0] == 'f');
        self.basic_group_id.round_trip("basicGroupId"@);
        self.force.round_trip("force"@);
    }
}

impl Tagged for CreateBasicGroupChat {
    open spec fn known(tag: Seq<char>) -> bool {
        tag == "createBasicGroupChat"@
    }

    fn knows(tag: &str) -> (r: bool) {
        same_text(tag, "createBasicGroupChat")
    }

    proof fn tag_known(&self) {
        reveal(<CreateBasicGroupChat as Wire>::wire);
        assert(tag_of(self.wire()) == Some("createBasicGroupChat"@));
        assert(Self::known("createBasicGroupChat"@));
    }
}

impl Method for CreateBasicGroupChat {
    const TYPE: &'static str = "createBasicGroupChat";

    type Response = Chat;

    proof fn type_is_tag(&self) {
        reveal(<CreateBasicGroupChat as Wire>::wire);
        assert(tag_of(self.wire()) == Some("createBasicGroupChat"@));
    }
}

/// Returns an existing chat corresponding to a known supergroup or channel
#[derive(Debug, Clone)]
pub struct CreateSupergroupChat {
    /// Supergroup or channel identifier
    pub supergroup_id: i32,
    /// If true, the chat will be created without network request. In this case all information
    /// about the chat except its type, title and photo can be incorrect
    pub force: bool,
}

impl Wire for CreateSupergroupChat {
    #[verifier::opaque]
    open spec fn wire(&self) -> Doc {
        tagged(
            Map::empty()
                .insert("supergroupId"@, self.supergroup_id.wire())
                .insert("force"@, self.force.wire()),
            "createSupergroupChat"@,
        )
    }

    #[verifier::opaque]
    open spec fn parse(d: Doc, at: Seq<char>) -> Result<Doc, Fault> {
        match d {
            Doc::Object(m) => {
                let supergroup_id = field::<i32>(m, "supergroupId"@);
                let force = field::<bool>(m, "force"@);
                if supergroup_id is Err {
                    supergroup_id
                } else if force is Err {
                    force
                } else {
                    Ok(
                        tagged(
                            Map::empty()
                                .insert("supergroupId"@, supergroup_id->Ok_0)
                                .insert("force"@, force->Ok_0),
                            "createSupergroupChat"@,
                        ),
                    )
                }
            },
            _ => Err(Fault::TypeMismatch(at)),
        }
    }

    fn encode(&self) -> (j: Json) {
        proof {
            reveal(<CreateSupergroupChat as Wire>::wire);
        }
        let mut members: Vec<Member> = Vec::new();
        put(&mut members, "supergroupId", self.supergroup_id.encode());
        put(&mut members, "force", self.force.encode());
        seal(members, "createSupergroupChat")
    }

    fn decode(j: &Json, at: &str) -> (r: Result<Self, DecodeError>) {
        proof {
            reveal(<CreateSupergroupChat as Wire>::wire);
            reveal(<CreateSupergroupChat as Wire>::parse);
        }
        let members = members_of(j, at)?;
        let supergroup_id = read_field::<i32>(members, "supergroupId")?;
        let force = read_field::<bool>(members, "force")?;
        Ok(CreateSupergroupChat { supergroup_id, force })
    }

    proof fn round_trip(&self, at: Seq<char>) {
        reveal(<CreateSupergroupChat as Wire>::wire);
        reveal(<CreateSupergroupChat as Wire>::parse);
        reveal_strlit("@type");
        reveal_strlit("force");
        reveal_strlit("supergroupId");
        assert("@type"@.len() == 5 && "@type"@[0] == '@');
        assert("force"@.len() == 5 && "force"@[0] == 'f');
        assert("supergroupId"@.len() == 12);
        self.supergroup_id.round_trip("supergroupId"@);
        self.force.round_trip("force"@);
    }
}

impl Tagged for CreateSupergroupChat {
    open spec fn known(tag: Seq<char>) -> bool {
        tag == "createSupergroupChat"@
    }

    fn knows(tag: &str) -> (r: bool) {
        same_text(tag, "createSupergroupChat")
    }

    proof fn tag_known(&self) {
        reveal(<CreateSupergroupChat as Wire>::wire);
        assert(tag_of(self.wire()) == Some("createSupergroupChat"@));
        assert(Self::known("createSupergroupChat"@));
    }
}

impl Method for CreateSupergroupChat {
    const TYPE: &'static str = "createSupergroupChat";

    type Response = Chat;

    proof fn type_is_tag(&self) {
        reveal(<CreateSupergroupChat as Wire>::wire);
        assert(tag_of(self.wire()) == Some("createSupergroupChat"@));
    }
}

/// Returns an existing chat corresponding to a known secret chat
#[derive(Debug, Clone)]
pub struct CreateSecretChat {
    /// Secret chat identifier
    pub secret_chat_id: i32,
}

impl Wire for CreateSecretChat {
    #[verifier::opaque]
    open spec fn wire(&self) -> Doc {
        tagged(
            Map::empty()
                .insert("secretChatId"@, self.secret_chat_id.wire()),
            "createSecretChat"@,
        )
    }

    #[verifier::opaque]
    open spec fn parse(d: Doc, at: Seq<char>) -> Result<Doc, Fault> {
        match d {
            Doc::Object(m) => {
                let secret_chat_id = field::<i32>(m, "secretChatId"@);
                if secret_chat_id is Err {
                    secret_chat_id
                } else {
                    Ok(
                        tagged(
                            Map::empty()
                                .insert("secretChatId"@, secret_chat_id->Ok_0),
                            "createSecretChat"@,
                        ),
                    )
                }
            },
            _ => Err(Fault::TypeMismatch(at)),
        }
    }

    fn encode(&self) -> (j: Json) {
        proof {
            reveal(<CreateSecretChat as Wire>::wire);
        }
        let mut members: Vec<Member> = Vec::new();
        put(&mut members, "secretChatId", self.secret_chat_id.encode());
        seal(members, "createSecretChat")
    }

    fn decode(j: &Json, at: &str) -> (r: Result<Self, DecodeError>) {
        proof {
            reveal(<CreateSecretChat as Wire>::wire);
            reveal(<CreateSecretChat as Wire>::parse);
        }
        let members = members_of(j, at)?;
        let secret_chat_id = read_field::<i32>(members, "secretChatId")?;
        Ok(CreateSecretChat { secret_chat_id })
    }

    proof fn round_trip(&self, at: Seq<char>) {
        reveal(<CreateSecretChat as Wire>::wire);
        reveal(<CreateSecretChat as Wire>::parse);
        reveal_strlit("@type");
        reveal_strlit("secretChatId");
        assert("@type"@.len() == 5);
        assert("secretChatId"@.len() == 12);
        self.secret_chat_id.round_trip("secretChatId"@);
    }
}

impl Tagged for CreateSecretChat {
    open spec fn known(tag: Seq<char>) -> bool {
        tag == "createSecretChat"@
    }

    fn knows(tag: &str) -> (r: bool) {
        same_text(tag, "createSecretChat")
    }

    proof fn tag_known(&self) {
        reveal(<CreateSecretChat as Wire>::wire);
        assert(tag_of(self.wire()) == Some("createSecretChat"@));
        assert(Self::known("createSecretChat"@));
    }
}

impl Method for CreateSecretChat {
    const TYPE: &'static str = "createSecretChat";

    type Response = Chat;

    proof fn type_is_tag(&self) {
        reveal(<CreateSecretChat as Wire>::wire);
        assert(tag_of(self.wire()) == Some("createSecretChat"@));
    }
}

/// Creates a new basic group and sends a corresponding messageBasicGroupChatCreate. Returns the
/// newly created chat
#[derive(Debug, Clone)]
pub struct CreateNewBasicGroupChat {
    /// Identifiers of users to be added to the basic group
    pub user_ids: Vec<i32>,
    /// Title of the new basic group; 1-128 characters
    pub title: String,
}

impl Wire for CreateNewBasicGroupChat {
    #[verifier::opaque]
    open spec fn wire(&self) -> Doc {
        tagged(
            Map::empty()
                .insert("userIds"@, self.user_ids.wire())
                .insert("title"@, self.title.wire()),
            "createNewBasicGroupChat"@,
        )
    }

    #[verifier::opaque]
    open spec fn parse(d: Doc, at: Seq<char>) -> Result<Doc, Fault> {
        match d {
            Doc::Object(m) => {
                let user_ids = field::<Vec<i32>>(m, "userIds"@);
                let title = field::<String>(m, "title"@);
                if user_ids is Err {
                    user_ids
                } else if title is Err {
                    title
                } else {
                    Ok(
                        tagged(
                            Map::empty()
                                .insert("userIds"@, user_ids->Ok_0)
                                .insert("title"@, title->Ok_0),
                            "createNewBasicGroupChat"@,
                        ),
                    )
                }
            },
            _ => Err(Fault::TypeMismatch(at)),
        }
    }

    fn encode(&self) -> (j: Json) {
        proof {
            reveal(<CreateNewBasicGroupChat as Wire>::wire);
        }
        let mut members: Vec<Member> = Vec::new();
        put(&mut members, "userIds", self.user_ids.encode());
        put(&mut members, "title", self.title.encode());
        seal(members, "createNewBasicGroupChat")
    }

    fn decode(j: &Json, at: &str) -> (r: Result<Self, DecodeError>) {
        proof {
            reveal(<CreateNewBasicGroupChat as Wire>::wire);
            reveal(<CreateNewBasicGroupChat as Wire>::parse);
        }
        let members = members_of(j, at)?;
        let user_ids = read_field::<Vec<i32>>(members, "userIds")?;
        let title = read_field::<String>(members, "title")?;
        Ok(CreateNewBasicGroupChat { user_ids, title })
    }

    proof fn round_trip(&self, at: Seq<char>) {
        reveal(<CreateNewBasicGroupChat as Wire>::wire);
        reveal(<CreateNewBasicGroupChat as Wire>::parse);
        reveal_strlit("@type");
        reveal_strlit("title");
        reveal_strlit("userIds");
        assert("@type"@.len() == 5 && "@type"@[0] == '@');
        assert("title"@.len() == 5 && "title"@[0] == 't');
        assert("userIds"@.len() == 7);
        self.user_ids.round_trip("userIds"@);
        self.title.round_trip("title"@);
    }
}

impl Tagged for CreateNewBasicGroupChat {
    open spec fn known(tag: Seq<char>) -> bool {
        tag == "createNewBasicGroupChat"@
    }

    fn knows(tag: &str) -> (r: bool) {
        same_text(tag, "createNewBasicGroupChat")
    }

    proof fn tag_known(&self) {
        reveal(<CreateNewBasicGroupChat as Wire>::wire);
        assert(tag_of(self.wire()) == Some("createNewBasicGroupChat"@));
        assert(Self::known("createNewBasicGroupChat"@));
    }
}

impl Method for CreateNewBasicGroupChat {
    const TYPE: &'static str = "createNewBasicGroupChat";

    type Response = Chat;

    proof fn type_is_tag(&self) {
        reveal(<CreateNewBasicGroupChat as Wire>::wire);
        assert(tag_of(self.wire()) == Some("createNewBasicGroupChat"@));
    }
}

/// Creates a new supergroup or channel and sends a corresponding messageSupergroupChatCreate.
/// Returns the newly created chat
#[derive(Debug, Clone)]
pub struct CreateNewSupergroupChat {
    /// Title of the new chat; 1-128 characters
    pub title: String,
    /// True, if a channel chat should be created
    pub is_channel: bool,
    /// Creates a new supergroup or channel and sends a corresponding messageSupergroupChatCreate.
    /// Returns the newly created chat
    pub description: String,
    /// Chat location if a location-based supergroup is being created
    pub location: ChatLocation,
}

impl Wire for CreateNewSupergroupChat {
    #[verifier::opaque]
    open spec fn wire(&self) -> Doc {
        tagged(
            Map::empty()
                .insert("title"@, self.title.wire())
                .insert("isChannel"@, self.is_channel.wire())
                .insert("description"@, self.description.wire())
                .insert("location"@, self.location.wire()),
            "createNewSupergroupChat"@,
        )
    }

    #[verifier::opaque]
    open spec fn parse(d: Doc, at: Seq<char>) -> Result<Doc, Fault> {
        match d {
            Doc::Object(m) => {
                let title = field::<String>(m, "title"@);
                let is_channel = field::<bool>(m, "isChannel"@);
                let description = field::<String>(m, "description"@);
                let location = field::<ChatLocation>(m, "location"@);
                if title is Err {
                    title
                } else if is_channel is Err {
                    is_channel
                } else if description is Err {
                    description
                } else if location is Err {
                    location
                } else {
                    Ok(
                        tagged(
                            Map::empty()
                                .insert("title"@, title->Ok_0)
                                .insert("isChannel"@, is_channel->Ok_0)
                                .insert("description"@, description->Ok_0)
                                .insert("location"@, location->Ok_0),
                            "createNewSupergroupChat"@,
                        ),
                    )
                }
            },
            _ => Err(Fault::TypeMismatch(at)),
        }
    }

    fn encode(&self) -> (j: Json) {
        proof {
            reveal(<CreateNewSupergroupChat as Wire>::wire);
        }
        let mut members: Vec<Member> = Vec::new();
        put(&mut members, "title", self.title.encode());
        put(&mut members, "isChannel", self.is_channel.encode());
        put(&mut members, "description", self.description.encode());
        put(&mut members, "location", self.location.encode());
        seal(members, "createNewSupergroupChat")
    }

    fn decode(j: &Json, at: &str) -> (r: Result<Self, DecodeError>) {
        proof {
            reveal(<CreateNewSupergroupChat as Wire>::wire);
            reveal(<CreateNewSupergroupChat as Wire>::parse);
        }
        let members = members_of(j, at)?;
        let title = read_field::<String>(members, "title")?;
        let is_channel = read_field::<bool>(members, "isChannel")?;
        let description = read_field::<String>(members, "description")?;
        let location = read_field::<ChatLocation>(members, "location")?;
        Ok(CreateNewSupergroupChat { title, is_channel, description, location })
    }

    proof fn round_trip(&self, at: Seq<char>) {
        reveal(<CreateNewSupergroupChat as Wire>::wire);
        reveal(<CreateNewSupergroupChat as Wire>::parse);
        reveal_strlit("@type");
        reveal_strlit("description");
        reveal_strlit("isChannel");
        reveal_strlit("location");
        reveal_strlit("title");
        assert("@type"@.len() == 5 && "@type"@[0] == '@');
        assert("description"@.len() == 11);
        assert("isChannel"@.len() == 9);
        assert("location"@.len() == 8);
        assert("title"@.len() == 5 && "title"@[0] == 't');
        self.title.round_trip("title"@);
        self.is_channel.round_trip("isChannel"@);
        self.description.round_trip("description"@);
        self.location.round_trip("location"@);
    }
}

impl Tagged for CreateNewSupergroupChat {
    open spec fn known(tag: Seq<char>) -> bool {
        tag == "createNewSupergroupChat"@
    }

    fn knows(tag: &str) -> (r: bool) {
        same_text(tag, "createNewSupergroupChat")
    }

    proof fn tag_known(&self) {
        reveal(<CreateNewSupergroupChat as Wire>::wire);
        assert(tag_of(self.wire()) == Some("createNewSupergroupChat"@));
        assert(Self::known("createNewSupergroupChat"@));
    }
}

impl Method for CreateNewSupergroupChat {
    const TYPE: &'static str = "createNewSupergroupChat";

    type Response = Chat;

    proof fn type_is_tag(&self) {
        reveal(<CreateNewSupergroupChat as Wire>::wire);
        assert(tag_of(self.wire()) == Some("createNewSupergroupChat"@));
    }
}

/// Creates a new secret chat. Returns the newly created chat
#[derive(Debug, Clone)]
pub struct CreateNewSecretChat {
    /// Identifier of the target user
    pub user_id: i32,
}

impl Wire for CreateNewSecretChat {
    #[verifier::opaque]
    open spec fn wire(&self) -> Doc {
        tagged(
            Map::empty()
                .insert("userId"@, self.user_id.wire()),
            "createNewSecretChat"@,
        )
    }

    #[verifier::opaque]
    open spec fn parse(d: Doc, at: Seq<char>) -> Result<Doc, Fault> {
        match d {
            Doc::Object(m) => {
                let user_id = field::<i32>(m, "userId"@);
                if user_id is Err {
                    user_id
                } else {
                    Ok(
                        tagged(
                            Map::empty()
                                .insert("userId"@, user_id->Ok_0),
                            "createNewSecretChat"@,
                        ),
                    )
                }
            },
            _ => Err(Fault::TypeMismatch(at)),
        }
    }

    fn encode(&self) -> (j: Json) {
        proof {
            reveal(<CreateNewSecretChat as Wire>::wire);
        }
        let mut members: Vec<Member> = Vec::new();
        put(&mut members, "userId", self.user_id.encode());
        seal(members, "createNewSecretChat")
    }

    fn decode(j: &Json, at: &str) -> (r: Result<Self, DecodeError>) {
        proof {
            reveal(<CreateNewSecretChat as Wire>::wire);
            reveal(<CreateNewSecretChat as Wire>::parse);
        }
        let members = members_of(j, at)?;
        let user_id = read_field::<i32>(members, "userId")?;
        Ok(CreateNewSecretChat { user_id })
    }

    proof fn round_trip(&self, at: Seq<char>) {
        reveal(<CreateNewSecretChat as Wire>::wire);
        reveal(<CreateNewSecretChat as Wire>::parse);
        reveal_strlit("@type");
        reveal_strlit("userId");
        assert("@type"@.len() == 5);
        assert("userId"@.len() == 6);
        self.user_id.round_trip("userId"@);
    }
}

impl Tagged for CreateNewSecretChat {
    open spec fn known(tag: Seq<char>) -> bool {
        tag == "createNewSecretChat"@
    }

    fn knows(tag: &str) -> (r: bool) {
        same_text(tag, "createNewSecretChat")
    }

    proof fn tag_known(&self) {
        reveal(<CreateNewSecretChat as Wire>::wire);
        assert(tag_of(self.wire()) == Some("createNewSecretChat"@));
        assert(Self::known("createNewSecretChat"@));
    }
}

impl Method for CreateNewSecretChat {
    const TYPE: &'static str = "createNewSecretChat";

    type Response = Chat;

    proof fn type_is_tag(&self) {
        reveal(<CreateNewSecretChat as Wire>::wire);
        assert(tag_of(self.wire()) == Some("createNewSecretChat"@));
    }
}

/// Creates a new supergroup from an existing basic group and sends a corresponding
/// messageChatUpgradeTo and messageChatUpgradeFrom; requires creator privileges. Deactivates the
/// original basic group
#[derive(Debug, Clone)]
pub struct UpgradeBasicGroupChatToSupergroupChat {
    /// Identifier of the chat to upgrade
    pub chat_id: i64,
}

impl Wire for UpgradeBasicGroupChatToSupergroupChat {
    #[verifier::opaque]
    open spec fn wire(&self) -> Doc {
        tagged(
            Map::empty()
                .insert("chatId"@, self.chat_id.wire()),
            "upgradeBasicGroupChatToSupergroupChat"@,
        )
    }

    #[verifier::opaque]
    open spec fn parse(d: Doc, at: Seq<char>) -> Result<Doc, Fault> {
        match d {
            Doc::Object(m) => {
                let chat_id = field::<i64>(m, "chatId"@);
                if chat_id is Err {
                    chat_id
                } else {
                    Ok(
                        tagged(
                            Map::empty()
                                .insert("chatId"@, chat_id->Ok_0),
                            "upgradeBasicGroupChatToSupergroupChat"@,
                        ),
                    )
                }
            },
            _ => Err(Fault::TypeMismatch(at)),
        }
    }

    fn encode(&self) -> (j: Json) {
        proof {
            reveal(<UpgradeBasicGroupChatToSupergroupChat as Wire>::wire);
        }
        let mut members: Vec<Member> = Vec::new();
        put(&mut members, "chatId", self.chat_id.encode());
        seal(members, "upgradeBasicGroupChatToSupergroupChat")
    }

    fn decode(j: &Json, at: &str) -> (r: Result<Self, DecodeError>) {
        proof {
            reveal(<UpgradeBasicGroupChatToSupergroupChat as Wire>::wire);
            reveal(<UpgradeBasicGroupChatToSupergroupChat as Wire>::parse);
        }
        let members = members_of(j, at)?;
        let chat_id = read_field::<i64>(members, "chatId")?;
        Ok(UpgradeBasicGroupChatToSupergroupChat { chat_id })
    }

    proof fn round_trip(&self, at: Seq<char>) {
        reveal(<UpgradeBasicGroupChatToSupergroupChat as Wire>::wire);
        reveal(<UpgradeBasicGroupChatToSupergroupChat as Wire>::parse);
        reveal_strlit("@type");
        reveal_strlit("chatId");
        assert("@type"@.len() == 5);
        assert("chatId"@.len() == 6);
        self.chat_id.round_trip("chatId"@);
    }
}

impl Tagged for UpgradeBasicGroupChatToSupergroupChat {
    open spec fn known(tag: Seq<char>) -> bool {
        tag == "upgradeBasicGroupChatToSupergroupChat"@
    }

    fn knows(tag: &str) -> (r: bool) {
        same_text(tag, "upgradeBasicGroupChatToSupergroupChat")
    }

    proof fn tag_known(&self) {
        reveal(<UpgradeBasicGroupChatToSupergroupChat as Wire>::wire);
        assert(tag_of(self.wire()) == Some("upgradeBasicGroupChatToSupergroupChat"@));
        assert(Self::known("upgradeBasicGroupChatToSupergroupChat"@));
    }
}

impl Method for UpgradeBasicGroupChatToSupergroupChat {
    const TYPE: &'static str = "upgradeBasicGroupChatToSupergroupChat";

    type Response = Chat;

    proof fn type_is_tag(&self) {
        reveal(<UpgradeBasicGroupChatToSupergroupChat as Wire>::wire);
        assert(tag_of(self.wire()) == Some("upgradeBasicGroupChatToSupergroupChat"@));
    }
}

/// Moves a chat to a different chat list. Current chat list of the chat must ne non-null
#[derive(Debug, Clone)]
pub struct SetChatChatList {
    /// Chat identifier
    pub chat_id: i64,
    /// New chat list of the chat
    pub chat_list: ChatList,
}

impl Wire for SetChatChatList {
    #[verifier::opaque]
    open spec fn wire(&self) -> Doc {
        tagged(
            Map::empty()
                .insert("chatId"@, self.chat_id.wire())
                .insert("chatList"@, self.chat_list.wire()),
            "setChatChatList"@,
        )
    }

    #[verifier::opaque]
    open spec fn parse(d: Doc, at: Seq<char>) -> Result<Doc, Fault> {
        match d {
            Doc::Object(m) => {
                let chat_id = field::<i64>(m, "chatId"@);
                let chat_list = field::<ChatList>(m, "chatList"@);
                if chat_id is Err {
                    chat_id
                } else if chat_list is Err {
                    chat_list
                } else {
                    Ok(
                        tagged(
                            Map::empty()
                                .insert("chatId"@, chat_id->Ok_0)
                                .insert("chatList"@, chat_list->Ok_0),
                            "setChatChatList"@,
                        ),
                    )
                }
            },
            _ => Err(Fault::TypeMismatch(at)),
        }
    }

    fn encode(&self) -> (j: Json) {
        proof {
            reveal(<SetChatChatList as Wire>::wire);
        }
        let mut members: Vec<Member> = Vec::new();
        put(&mut members, "chatId", self.chat_id.encode());
        put(&mut members, "chatList", self.chat_list.encode());
        seal(members, "setChatChatList")
    }

    fn decode(j: &Json, at: &str) -> (r: Result<Self, DecodeError>) {
        proof {
            reveal(<SetChatChatList as Wire>::wire);
            reveal(<SetChatChatList as Wire>::parse);
        }
        let members = members_of(j, at)?;
        let chat_id = read_field::<i64>(members, "chatId")?;
        let chat_list = read_field::<ChatList>(members, "chatList")?;
        Ok(SetChatChatList { chat_id, chat_list })
    }

    proof fn round_trip(&self, at: Seq<char>) {
        reveal(<SetChatChatList as Wire>::wire);
        reveal(<SetChatChatList as Wire>::parse);
        reveal_strlit("@type");
        reveal_strlit("chatId");
        reveal_strlit("chatList");
        assert("@type"@.len() == 5);
        assert("chatId"@.len() == 6);
        assert("chatList"@.len() == 8);
        self.chat_id.round_trip("chatId"@);
        self.chat_list.round_trip("chatList"@);
    }
}

impl Tagged for SetChatChatList {
    open spec fn known(tag: Seq<char>) -> bool {
        tag == "setChatChatList"@
    }

    fn knows(tag: &str) -> (r: bool) {
        same_text(tag, "setChatChatList")
    }

    proof fn tag_known(&self) {
        reveal(<SetChatChatList as Wire>::wire);
        assert(tag_of(self.wire()) == Some("setChatChatList"@));
        assert(Self::known("setChatChatList"@));
    }
}

impl Method for SetChatChatList {
    const TYPE: &'static str = "setChatChatList";

    type Response = Okay;

    proof fn type_is_tag(&self) {
        reveal(<SetChatChatList as Wire>::wire);
        assert(tag_of(self.wire()) == Some("setChatChatList"@));
    }
}

/// Changes the chat title. Supported only for basic groups, supergroups and channels. Requires
/// can_change_info rights. The title will not be changed until the request to the server has been
/// completed
#[derive(Debug, Clone)]
pub struct SetChatTitle {
    /// Chat identifier
    pub chat_id: i64,
    /// New title of the chat; 1-128 characters
    pub title: String,
}

impl Wire for SetChatTitle {
    #[verifier::opaque]
    open spec fn wire(&self) -> Doc {
        tagged(
            Map::empty()
                .insert("chatId"@, self.chat_id.wire())
                .insert("title"@, self.title.wire()),
            "setChatTitle"@,
        )
    }

    #[verifier::opaque]
    open spec fn parse(d: Doc, at: Seq<char>) -> Result<Doc, Fault> {
        match d {
            Doc::Object(m) => {
                let chat_id = field::<i64>(m, "chatId"@);
                let title = field::<String>(m, "title"@);
                if chat_id is Err {
                    chat_id
                } else if title is Err {
                    title
                } else {
                    Ok(
                        tagged(
                            Map::empty()
                                .insert("chatId"@, chat_id->Ok_0)
                                .insert("title"@, title->Ok_0),
                            "setChatTitle"@,
                        ),
                    )
                }
            },
            _ => Err(Fault::TypeMismatch(at)),
        }
    }

    fn encode(&self) -> (j: Json) {
        proof {
            reveal(<SetChatTitle as Wire>::wire);
        }
        let mut members: Vec<Member> = Vec::new();
        put(&mut members, "chatId", self.chat_id.encode());
        put(&mut members, "title", self.title.encode());
        seal(members, "setChatTitle")
    }

    fn decode(j: &Json, at: &str) -> (r: Result<Self, DecodeError>) {
        proof {
            reveal(<SetChatTitle as Wire>::wire);
            reveal(<SetChatTitle as Wire>::parse);
        }
        let members = members_of(j, at)?;
        let chat_id = read_field::<i64>(members, "chatId")?;
        let title = read_field::<String>(members, "title")?;
        Ok(SetChatTitle { chat_id, title })
    }

    proof fn round_trip(&self, at: Seq<char>) {
        reveal(<SetChatTitle as Wire>::wire);
        reveal(<SetChatTitle as Wire>::parse);
        reveal_strlit("@type");
        reveal_strlit("chatId");
        reveal_strlit("title");
        assert("@type"@.len() == 5 && "@type"@[0] == '@');
        assert("chatId"@.len() == 6);
        assert("title"@.len() == 5 && "title"@[0] == 't');
        self.chat_id.round_trip("chatId"@);
        self.title.round_trip("title"@);
    }
}

impl Tagged for SetChatTitle {
    open spec fn known(tag: Seq<char>) -> bool {
        tag == "setChatTitle"@
    }

    fn knows(tag: &str) -> (r: bool) {
        same_text(tag, "setChatTitle")
    }

    proof fn tag_known(&self) {
        reveal(<SetChatTitle as Wire>::wire);
        assert(tag_of(self.wire()) == Some("setChatTitle"@));
        assert(Self::known("setChatTitle"@));
    }
}

impl Method for SetChatTitle {
    const TYPE: &'static str = "setChatTitle";

    type Response = Okay;

    proof fn type_is_tag(&self) {
        reveal(<SetChatTitle as Wire>::wire);
        assert(tag_of(self.wire()) == Some("setChatTitle"@));
    }
}

/// Changes the photo of a chat. Supported only for basic groups, supergroups and channels. Requires
/// can_change_info rights. The photo will not be changed before request to the server has been
/// completed
#[derive(Debug, Clone)]
pub struct SetChatPhoto {
    /// Chat identifier
    pub chat_id: i64,
    /// New chat photo. You can use a zero InputFileId to delete the chat photo. Files that are
    /// accessible only by HTTP URL are not acceptable
    pub photo: InputFile,
}

impl Wire for SetChatPhoto {
    #[verifier::opaque]
    open spec fn wire(&self) -> Doc {
        tagged(
            Map::empty()
                .insert("chatId"@, self.chat_id.wire())
                .insert("photo"@, self.photo.wire()),
            "setChatPhoto"@,
        )
    }

    #[verifier::opaque]
    open spec fn parse(d: Doc, at: Seq<char>) -> Result<Doc, Fault> {
        match d {
            Doc::Object(m) => {
                let chat_id = field::<i64>(m, "chatId"@);
                let photo = field::<InputFile>(m, "photo"@);
                if chat_id is Err {
                    chat_id
                } else if photo is Err {
                    photo
                } else {
                    Ok(
                        tagged(
                            Map::empty()
                                .insert("chatId"@, chat_id->Ok_0)
                                .insert("photo"@, photo->Ok_0),
                            "setChatPhoto"@,
                        ),
                    )
                }
            },
            _ => Err(Fault::TypeMismatch(at)),
        }
    }

    fn encode(&self) -> (j: Json) {
        proof {
            reveal(<SetChatPhoto as Wire>::wire);
        }
        let mut members: Vec<Member> = Vec::new();
        put(&mut members, "chatId", self.chat_id.encode());
        put(&mut members, "photo", self.photo.encode());
        seal(members, "setChatPhoto")
    }

    fn decode(j: &Json, at: &str) -> (r: Result<Self, DecodeError>) {
        proof {
            reveal(<SetChatPhoto as Wire>::wire);
            reveal(<SetChatPhoto as Wire>::parse);
        }
        let members = members_of(j, at)?;
        let chat_id = read_field::<i64>(members, "chatId")?;
        let photo = read_field::<InputFile>(members, "photo")?;
        Ok(SetChatPhoto { chat_id, photo })
    }

    proof fn round_trip(&self, at: Seq<char>) {
        reveal(<SetChatPhoto as Wire>::wire);
        reveal(<SetChatPhoto as Wire>::parse);
        reveal_strlit("@type");
        reveal_strlit("chatId");
        reveal_strlit("photo");
        assert("@type"@.len() == 5 && "@type"@[0] == '@');
        assert("chatId"@.len() == 6);
        assert("photo"@.len() == 5 && "photo"@[0] == 'p');
        self.chat_id.round_trip("chatId"@);
        self.photo.round_trip("photo"@);
    }
}

impl Tagged for SetChatPhoto {
    open spec fn known(tag: Seq<char>) -> bool {
        tag == "setChatPhoto"@
    }

    fn knows(tag: &str) -> (r: bool) {
        same_text(tag, "setChatPhoto")
    }

    proof fn tag_known(&self) {
        reveal(<SetChatPhoto as Wire>::wire);
        assert(tag_of(self.wire()) == Some("setChatPhoto"@));
        assert(Self::known("setChatPhoto"@));
    }
}

impl Method for SetChatPhoto {
    const TYPE: &'static str = "setChatPhoto";

    type Response = Okay;

    proof fn type_is_tag(&self) {
        reveal(<SetChatPhoto as Wire>::wire);
        assert(tag_of(self.wire()) == Some("setChatPhoto"@));
    }
}

/// Changes the chat members permissions. Supported only for basic groups and supergroups. Requires
/// can_restrict_members administrator right
#[derive(Debug, Clone)]
pub struct SetChatPermissions {
    /// Chat identifier
    pub chat_id: i64,
    /// New non-administrator members permissions in the chat
    pub permissions: ChatPermissions,
}

impl Wire for SetChatPermissions {
    #[verifier::opaque]
    open spec fn wire(&self) -> Doc {
        tagged(
            Map::empty()
                .insert("chatId"@, self.chat_id.wire())
                .insert("permissions"@, self.permissions.wire()),
            "setChatPermissions"@,
        )
    }

    #[verifier::opaque]
    open spec fn parse(d: Doc, at: Seq<char>) -> Result<Doc, Fault> {
        match d {
            Doc::Object(m) => {
                let chat_id = field::<i64>(m, "chatId"@);
                let permissions = field::<ChatPermissions>(m, "permissions"@);
                if chat_id is Err {
                    chat_id
                } else if permissions is Err {
                    permissions
                } else {
                    Ok(
                        tagged(
                            Map::empty()
                                .insert("chatId"@, chat_id->Ok_0)
                                .insert("permissions"@, permissions->Ok_0),
                            "setChatPermissions"@,
                        ),
                    )
                }
            },
            _ => Err(Fault::TypeMismatch(at)),
        }
    }

    fn encode(&self) -> (j: Json) {
        proof {
            reveal(<SetChatPermissions as Wire>::wire);
        }
        let mut members: Vec<Member> = Vec::new();
        put(&mut members, "chatId", self.chat_id.encode());
        put(&mut members, "permissions", self.permissions.encode());
        seal(members, "setChatPermissions")
    }

    fn decode(j: &Json, at: &str) -> (r: Result<Self, DecodeError>) {
        proof {
            reveal(<SetChatPermissions as Wire>::wire);
            reveal(<SetChatPermissions as Wire>::parse);
        }
        let members = members_of(j, at)?;
        let chat_id = read_field::<i64>(members, "chatId")?;
        let permissions = read_field::<ChatPermissions>(members, "permissions")?;
        Ok(SetChatPermissions { chat_id, permissions })
    }

    proof fn round_trip(&self, at: Seq<char>) {
        reveal(<SetChatPermissions as Wire>::wire);
        reveal(<SetChatPermissions as Wire>::parse);
        reveal_strlit("@type");
        reveal_strlit("chatId");
        reveal_strlit("permissions");
        assert("@type"@.len() == 5);
        assert("chatId"@.len() == 6);
        assert("permissions"@.len() == 11);
        self.chat_id.round_trip("chatId"@);
        self.permissions.round_trip("permissions"@);
    }
}

impl Tagged for SetChatPermissions {
    open spec fn known(tag: Seq<char>) -> bool {
        tag == "setChatPermissions"@
    }

    fn knows(tag: &str) -> (r: bool) {
        same_text(tag, "setChatPermissions")
    }

    proof fn tag_known(&self) {
        reveal(<SetChatPermissions as Wire>::wire);
        assert(tag_of(self.wire()) == Some("setChatPermissions"@));
        assert(Self::known("setChatPermissions"@));
    }
}

impl Method for SetChatPermissions {
    const TYPE: &'static str = "setChatPermissions";

    type Response = Okay;

    proof fn type_is_tag(&self) {
        reveal(<SetChatPermissions as Wire>::wire);
        assert(tag_of(self.wire()) == Some("setChatPermissions"@));
    }
}

/// Changes the draft message in a chat
#[derive(Debug, Clone)]
pub struct SetChatDraftMessage {
    /// Chat identifier
    pub chat_id: i64,
    /// New draft message; may be null
    pub draft_message: Option<DraftMessage>,
}

impl Wire for SetChatDraftMessage {
    #[verifier::opaque]
    open spec fn wire(&self) -> Doc {
        tagged(
            Map::empty()
                .insert("chatId"@, self.chat_id.wire())
                .insert("draftMessage"@, self.draft_message.wire()),
            "setChatDraftMessage"@,
        )
    }

    #[verifier::opaque]
    open spec fn parse(d: Doc, at: Seq<char>) -> Result<Doc, Fault> {
        match d {
            Doc::Object(m) => {
                let chat_id = field::<i64>(m, "chatId"@);
                let draft_message = optional_field::<DraftMessage>(m, "draftMessage"@);
                if chat_id is Err {
                    chat_id
                } else if draft_message is Err {
                    draft_message
                } else {
                    Ok(
                        tagged(
                            Map::empty()
                                .insert("chatId"@, chat_id->Ok_0)
                                .insert("draftMessage"@, draft_message->Ok_0),
                            "setChatDraftMessage"@,
                        ),
                    )
                }
            },
            _ => Err(Fault::TypeMismatch(at)),
        }
    }

    fn encode(&self) -> (j: Json) {
        proof {
            reveal(<SetChatDraftMessage as Wire>::wire);
        }
        let mut members: Vec<Member> = Vec::new();
        put(&mut members, "chatId", self.chat_id.encode());
        put(&mut members, "draftMessage", self.draft_message.encode());
        seal(members, "setChatDraftMessage")
    }

    fn decode(j: &Json, at: &str) -> (r: Result<Self, DecodeError>) {
        proof {
            reveal(<SetChatDraftMessage as Wire>::wire);
            reveal(<SetChatDraftMessage as Wire>::parse);
        }
        let members = members_of(j, at)?;
        let chat_id = read_field::<i64>(members, "chatId")?;
        let draft_message = read_optional::<DraftMessage>(members, "draftMessage")?;
        Ok(SetChatDraftMessage { chat_id, draft_message })
    }

    proof fn round_trip(&self, at: Seq<char>) {
        reveal(<SetChatDraftMessage as Wire>::wire);
        reveal(<SetChatDraftMessage as Wire>::parse);
        reveal_strlit("@type");
        reveal_strlit("chatId");
        reveal_strlit("draftMessage");
        assert("@type"@.len() == 5);
        assert("chatId"@.len() == 6);
        assert("draftMessage"@.len() == 12);
        self.chat_id.round_trip("chatId"@);
        self.draft_message.round_trip("draftMessage"@);
    }
}

impl Tagged for SetChatDraftMessage {
    open spec fn known(tag: Seq<char>) -> bool {
        tag == "setChatDraftMessage"@
    }

    fn knows(tag: &str) -> (r: bool) {
        same_text(tag, "setChatDraftMessage")
    }

    proof fn tag_known(&self) {
        reveal(<SetChatDraftMessage as Wire>::wire);
        assert(tag_of(self.wire()) == Some("setChatDraftMessage"@));
        assert(Self::known("setChatDraftMessage"@));
    }
}

impl Method for SetChatDraftMessage {
    const TYPE: &'static str = "setChatDraftMessage";

    type Response = Okay;

    proof fn type_is_tag(&self) {
        reveal(<SetChatDraftMessage as Wire>::wire);
        assert(tag_of(self.wire()) == Some("setChatDraftMessage"@));
    }
}

/// Changes the notification settings of a chat. Notification settings of a chat with the current
/// user (Saved Messages) can't be changed
#[derive(Debug, Clone)]
pub struct SetChatNotificationSettings {
    /// Chat identifier
    pub chat_id: i64,
    /// New notification settings for the chat. If the chat is muted for more than 1 week, it is
    /// considered to be muted forever
    pub notification_settings: ChatNotificationSettings,
}

impl Wire for SetChatNotificationSettings {
    #[verifier::opaque]
    open spec fn wire(&self) -> Doc {
        tagged(
            Map::empty()
                .insert("chatId"@, self.chat_id.wire())
                .insert("notificationSettings"@, self.notification_settings.wire()),
            "setChatNotificationSettings"@,
        )
    }

    #[verifier::opaque]
    open spec fn parse(d: Doc, at: Seq<char>) -> Result<Doc, Fault> {
        match d {
            Doc::Object(m) => {
                let chat_id = field::<i64>(m, "chatId"@);
                let notification_settings = field::<ChatNotificationSettings>(
                    m,
                    "notificationSettings"@,
                );
                if chat_id is Err {
                    chat_id
                } else if notification_settings is Err {
                    notification_settings
                } else {
                    Ok(
                        tagged(
                            Map::empty()
                                .insert("chatId"@, chat_id->Ok_0)
                                .insert("notificationSettings"@, notification_settings->Ok_0),
                            "setChatNotificationSettings"@,
                        ),
                    )
                }
            },
            _ => Err(Fault::TypeMismatch(at)),
        }
    }

    fn encode(&self) -> (j: Json) {
        proof {
            reveal(<SetChatNotificationSettings as Wire>::wire);
        }
        let mut members: Vec<Member> = Vec::new();
        put(&mut members, "chatId", self.chat_id.encode());
        put(&mut members, "notificationSettings", self.notification_settings.encode());
        seal(members, "setChatNotificationSettings")
    }

    fn decode(j: &Json, at: &str) -> (r: Result<Self, DecodeError>) {
        proof {
            reveal(<SetChatNotificationSettings as Wire>::wire);
            reveal(<SetChatNotificationSettings as Wire>::parse);
        }
        let members = members_of(j, at)?;
        let chat_id = read_field::<i64>(members, "chatId")?;
        let notification_settings = read_field::<ChatNotificationSettings>(
            members,
            "notificationSettings",
        )?;
        Ok(SetChatNotificationSettings { chat_id, notification_settings })
    }

    proof fn round_trip(&self, at: Seq<char>) {
        reveal(<SetChatNotificationSettings as Wire>::wire);
        reveal(<SetChatNotificationSettings as Wire>::parse);
        reveal_strlit("@type");
        reveal_strlit("chatId");
        reveal_strlit("notificationSettings");
        assert("@type"@.len() == 5);
        assert("chatId"@.len() == 6);
        assert("notificationSettings"@.len() == 20);
        self.chat_id.round_trip("chatId"@);
        self.notification_settings.round_trip("notificationSettings"@);
    }
}

impl Tagged for SetChatNotificationSettings {
    open spec fn known(tag: Seq<char>) -> bool {
        tag == "setChatNotificationSettings"@
    }

    fn knows(tag: &str) -> (r: bool) {
        same_text(tag, "setChatNotificationSettings")
    }

    proof fn tag_known(&self) {
        reveal(<SetChatNotificationSettings as Wire>::wire);
        assert(tag_of(self.wire()) == Some("setChatNotificationSettings"@));
        assert(Self::known("setChatNotificationSettings"@));
    }
}

impl Method for SetChatNotificationSettings {
    const TYPE: &'static str = "setChatNotificationSettings";

    type Response = Okay;

    proof fn type_is_tag(&self) {
        reveal(<SetChatNotificationSettings as Wire>::wire);
        assert(tag_of(self.wire()) == Some("setChatNotificationSettings"@));
    }
}

/// Changes the pinned state of a chat. You can pin up to
/// GetOption("pinned_chat_count_max")/GetOption("pinned_archived_chat_count_max") non-secret chats
/// and the same number of secret chats in the main/archive chat list
#[derive(Debug, Clone)]
pub struct ToggleChatIsPinned {
    /// Chat identifier
    pub chat_id: i64,
    /// New value of is_pinned
    pub is_pinned: bool,
}

impl Wire for ToggleChatIsPinned {
    #[verifier::opaque]
    open spec fn wire(&self) -> Doc {
        tagged(
            Map::empty()
                .insert("chatId"@, self.chat_id.wire())
                .insert("isPinned"@, self.is_pinned.wire()),
            "toggleChatIsPinned"@,
        )
    }

    #[verifier::opaque]
    open spec fn parse(d: Doc, at: Seq<char>) -> Result<Doc, Fault> {
        match d {
            Doc::Object(m) => {
                let chat_id = field::<i64>(m, "chatId"@);
                let is_pinned = field::<bool>(m, "isPinned"@);
                if chat_id is Err {
                    chat_id
                } else if is_pinned is Err {
                    is_pinned
                } else {
                    Ok(
                        tagged(
                            Map::empty()
                                .insert("chatId"@, chat_id->Ok_0)
                                .insert("isPinned"@, is_pinned->Ok_0),
                            "toggleChatIsPinned"@,
                        ),
                    )
                }
            },
            _ => Err(Fault::TypeMismatch(at)),
        }
    }

    fn encode(&self) -> (j: Json) {
        proof {
            reveal(<ToggleChatIsPinned as Wire>::wire);
        }
        let mut members: Vec<Member> = Vec::new();
        put(&mut members, "chatId", self.chat_id.encode());
        put(&mut members, "isPinned", self.is_pinned.encode());
        seal(members, "toggleChatIsPinned")
    }

    fn decode(j: &Json, at: &str) -> (r: Result<Self, DecodeError>) {
        proof {
            reveal(<ToggleChatIsPinned as Wire>::wire);
            reveal(<ToggleChatIsPinned as Wire>::parse);
        }
        let members = members_of(j, at)?;
        let chat_id = read_field::<i64>(members, "chatId")?;
        let is_pinned = read_field::<bool>(members, "isPinned")?;
        Ok(ToggleChatIsPinned { chat_id, is_pinned })
    }

    proof fn round_trip(&self, at: Seq<char>) {
        reveal(<ToggleChatIsPinned as Wire>::wire);
        reveal(<ToggleChatIsPinned as Wire>::parse);
        reveal_strlit("@type");
        reveal_strlit("chatId");
        reveal_strlit("isPinned");
        assert("@type"@.len() == 5);
        assert("chatId"@.len() == 6);
        assert("isPinned"@.len() == 8);
        self.chat_id.round_trip("chatId"@);
        self.is_pinned.round_trip("isPinned"@);
    }
}

impl Tagged for ToggleChatIsPinned {
    open spec fn known(tag: Seq<char>) -> bool {
        tag == "toggleChatIsPinned"@
    }

    fn knows(tag: &str) -> (r: bool) {
        same_text(tag, "toggleChatIsPinned")
    }

    proof fn tag_known(&self) {
        reveal(<ToggleChatIsPinned as Wire>::wire);
        assert(tag_of(self.wire()) == Some("toggleChatIsPinned"@));
        assert(Self::known("toggleChatIsPinned"@));
    }
}

impl Method for ToggleChatIsPinned {
    const TYPE: &'static str = "toggleChatIsPinned";

    type Response = Okay;

    proof fn type_is_tag(&self) {
        reveal(<ToggleChatIsPinned as Wire>::wire);
        assert(tag_of(self.wire()) == Some("toggleChatIsPinned"@));
    }
}

/// Changes the marked as unread state of a chat
#[derive(Debug, Clone)]
pub struct ToggleChatIsMarkedAsUnread {
    /// Chat identifier
    pub chat_id: i64,
    /// New value of is_marked_as_unread
    pub is_marked_as_unread: bool,
}

impl Wire for ToggleChatIsMarkedAsUnread {
    #[verifier::opaque]
    open spec fn wire(&self) -> Doc {
        tagged(
            Map::empty()
                .insert("chatId"@, self.chat_id.wire())
                .insert("isMarkedAsUnread"@, self.is_marked_as_unread.wire()),
            "toggleChatIsMarkedAsUnread"@,
        )
    }

    #[verifier::opaque]
    open spec fn parse(d: Doc, at: Seq<char>) -> Result<Doc, Fault> {
        match d {
            Doc::Object(m) => {
                let chat_id = field::<i64>(m, "chatId"@);
                let is_marked_as_unread = field::<bool>(m, "isMarkedAsUnread"@);
                if chat_id is Err {
                    chat_id
                } else if is_marked_as_unread is Err {
                    is_marked_as_unread
                } else {
                    Ok(
                        tagged(
                            Map::empty()
                                .insert("chatId"@, chat_id->Ok_0)
                                .insert("isMarkedAsUnread"@, is_marked_as_unread->Ok_0),
                            "toggleChatIsMarkedAsUnread"@,
                        ),
                    )
                }
            },
            _ => Err(Fault::TypeMismatch(at)),
        }
    }

    fn encode(&self) -> (j: Json) {
        proof {
            reveal(<ToggleChatIsMarkedAsUnread as Wire>::wire);
        }
        let mut members: Vec<Member> = Vec::new();
        put(&mut members, "chatId", self.chat_id.encode());
        put(&mut members, "isMarkedAsUnread", self.is_marked_as_unread.encode());
        seal(members, "toggleChatIsMarkedAsUnread")
    }

    fn decode(j: &Json, at: &str) -> (r: Result<Self, DecodeError>) {
        proof {
            reveal(<ToggleChatIsMarkedAsUnread as Wire>::wire);
            reveal(<ToggleChatIsMarkedAsUnread as Wire>::parse);
        }
        let members = members_of(j, at)?;
        let chat_id = read_field::<i64>(members, "chatId")?;
        let is_marked_as_unread = read_field::<bool>(members, "isMarkedAsUnread")?;
        Ok(ToggleChatIsMarkedAsUnread { chat_id, is_marked_as_unread })
    }

    proof fn round_trip(&self, at: Seq<char>) {
        reveal(<ToggleChatIsMarkedAsUnread as Wire>::wire);
        reveal(<ToggleChatIsMarkedAsUnread as Wire>::parse);
        reveal_strlit("@type");
        reveal_strlit("chatId");
        reveal_strlit("isMarkedAsUnread");
        assert("@type"@.len() == 5);
        assert("chatId"@.len() == 6);
        assert("isMarkedAsUnread"@.len() == 16);
        self.chat_id.round_trip("chatId"@);
        self.is_marked_as_unread.round_trip("isMarkedAsUnread"@);
    }
}

impl Tagged for ToggleChatIsMarkedAsUnread {
    open spec fn known(tag: Seq<char>) -> bool {
        tag == "toggleChatIsMarkedAsUnread"@
    }

    fn knows(tag: &str) -> (r: bool) {
        same_text(tag, "toggleChatIsMarkedAsUnread")
    }

    proof fn tag_known(&self) {
        reveal(<ToggleChatIsMarkedAsUnread as Wire>::wire);
        assert(tag_of(self.wire()) == Some("toggleChatIsMarkedAsUnread"@));
        assert(Self::known("toggleChatIsMarkedAsUnread"@));
    }
}

impl Method for ToggleChatIsMarkedAsUnread {
    const TYPE: &'static str = "toggleChatIsMarkedAsUnread";

    type Response = Okay;

    proof fn type_is_tag(&self) {
        reveal(<ToggleChatIsMarkedAsUnread as Wire>::wire);
        assert(tag_of(self.wire()) == Some("toggleChatIsMarkedAsUnread"@));
    }
}

/// Changes the value of the default disable_notification parameter, used when a message is sent to
/// a chat
#[derive(Debug, Clone)]
pub struct ToggleChatDefaultDisableNotification {
    /// Chat identifier
    pub chat_id: i64,
    /// New value of default_disable_notification
    pub default_disable_notification: bool,
}

impl Wire for ToggleChatDefaultDisableNotification {
    #[verifier::opaque]
    open spec fn wire(&self) -> Doc {
        tagged(
            Map::empty()
                .insert("chatId"@, self.chat_id.wire())
                .insert("defaultDisableNotification"@, self.default_disable_notification.wire()),
            "toggleChatDefaultDisableNotification"@,
        )
    }

    #[verifier::opaque]
    open spec fn parse(d: Doc, at: Seq<char>) -> Result<Doc, Fault> {
        match d {
            Doc::Object(m) => {
                let chat_id = field::<i64>(m, "chatId"@);
                let default_disable_notification = field::<bool>(m, "defaultDisableNotification"@);
                if chat_id is Err {
                    chat_id
                } else if default_disable_notification is Err {
                    default_disable_notification
                } else {
                    Ok(
                        tagged(
                            Map::empty()
                                .insert("chatId"@, chat_id->Ok_0)
                                .insert(
                                    "defaultDisableNotification"@,
                                    default_disable_notification->Ok_0,
                                ),
                            "toggleChatDefaultDisableNotification"@,
                        ),
                    )
                }
            },
            _ => Err(Fault::TypeMismatch(at)),
        }
    }

    fn encode(&self) -> (j: Json) {
        proof {
            reveal(<ToggleChatDefaultDisableNotification as Wire>::wire);
        }
        let mut members: Vec<Member> = Vec::new();
        put(&mut members, "chatId", self.chat_id.encode());
        put(&mut members, "defaultDisableNotification", self.default_disable_notification.encode());
        seal(members, "toggleChatDefaultDisableNotification")
    }

    fn decode(j: &Json, at: &str) -> (r: Result<Self, DecodeError>) {
        proof {
            reveal(<ToggleChatDefaultDisableNotification as Wire>::wire);
            reveal(<ToggleChatDefaultDisableNotification as Wire>::parse);
        }
        let members = members_of(j, at)?;
        let chat_id = read_field::<i64>(members, "chatId")?;
        let default_disable_notification = read_field::<bool>(
            members,
            "defaultDisableNotification",
        )?;
        Ok(ToggleChatDefaultDisableNotification { chat_id, default_disable_notification })
    }

    proof fn round_trip(&self, at: Seq<char>) {
        reveal(<ToggleChatDefaultDisableNotification as Wire>::wire);
        reveal(<ToggleChatDefaultDisableNotification as Wire>::parse);
        reveal_strlit("@type");
        reveal_strlit("chatId");
        reveal_strlit("defaultDisableNotification");
        assert("@type"@.len() == 5);
        assert("chatId"@.len() == 6);
        assert("defaultDisableNotification"@.len() == 26);
        self.chat_id.round_trip("chatId"@);
        self.default_disable_notification.round_trip("defaultDisableNotification"@);
    }
}

impl Tagged for ToggleChatDefaultDisableNotification {
    open spec fn known(tag: Seq<char>) -> bool {
        tag == "toggleChatDefaultDisableNotification"@
    }

    fn knows(tag: &str) -> (r: bool) {
        same_text(tag, "toggleChatDefaultDisableNotification")
    }

    proof fn tag_known(&self) {
        reveal(<ToggleChatDefaultDisableNotification as Wire>::wire);
        assert(tag_of(self.wire()) == Some("toggleChatDefaultDisableNotification"@));
        assert(Self::known("toggleChatDefaultDisableNotification"@));
    }
}

impl Method for ToggleChatDefaultDisableNotification {
    const TYPE: &'static str = "toggleChatDefaultDisableNotification";

    type Response = Okay;

    proof fn type_is_tag(&self) {
        reveal(<ToggleChatDefaultDisableNotification as Wire>::wire);
        assert(tag_of(self.wire()) == Some("toggleChatDefaultDisableNotification"@));
    }
}

/// Changes client data associated with a chat
#[derive(Debug, Clone)]
pub struct SetChatClientData {
    /// Chat identifier
    pub chat_id: i64,
    /// New value of client_data
    pub client_data: String,
}

impl Wire for SetChatClientData {
    #[verifier::opaque]
    open spec fn wire(&self) -> Doc {
        tagged(
            Map::empty()
                .insert("chatId"@, self.chat_id.wire())
                .insert("clientData"@, self.client_data.wire()),
            "setChatClientData"@,
        )
    }

    #[verifier::opaque]
    open spec fn parse(d: Doc, at: Seq<char>) -> Result<Doc, Fault> {
        match d {
            Doc::Object(m) => {
                let chat_id = field::<i64>(m, "chatId"@);
                let client_data = field::<String>(m, "clientData"@);
                if chat_id is Err {
                    chat_id
                } else if client_data is Err {
                    client_data
                } else {
                    Ok(
                        tagged(
                            Map::empty()
                                .insert("chatId"@, chat_id->Ok_0)
                                .insert("clientData"@, client_data->Ok_0),
                            "setChatClientData"@,
                        ),
                    )
                }
            },
            _ => Err(Fault::TypeMismatch(at)),
        }
    }

    fn encode(&self) -> (j: Json) {
        proof {
            reveal(<SetChatClientData as Wire>::wire);
        }
        let mut members: Vec<Member> = Vec::new();
        put(&mut members, "chatId", self.chat_id.encode());
        put(&mut members, "clientData", self.client_data.encode());
        seal(members, "setChatClientData")
    }

    fn decode(j: &Json, at: &str) -> (r: Result<Self, DecodeError>) {
        proof {
            reveal(<SetChatClientData as Wire>::wire);
            reveal(<SetChatClientData as Wire>::parse);
        }
        let members = members_of(j, at)?;
        let chat_id = read_field::<i64>(members, "chatId")?;
        let client_data = read_field::<String>(members, "clientData")?;
        Ok(SetChatClientData { chat_id, client_data })
    }

    proof fn round_trip(&self, at: Seq<char>) {
        reveal(<SetChatClientData as Wire>::wire);
        reveal(<SetChatClientData as Wire>::parse);
        reveal_strlit("@type");
        reveal_strlit("chatId");
        reveal_strlit("clientData");
        assert("@type"@.len() == 5);
        assert("chatId"@.len() == 6);
        assert("clientData"@.len() == 10);
        self.chat_id.round_trip("chatId"@);
        self.client_data.round_trip("clientData"@);
    }
}

impl Tagged for SetChatClientData {
    open spec fn known(tag: Seq<char>) -> bool {
        tag == "setChatClientData"@
    }

    fn knows(tag: &str) -> (r: bool) {
        same_text(tag, "setChatClientData")
    }

    proof fn tag_known(&self) {
        reveal(<SetChatClientData as Wire>::wire);
        assert(tag_of(self.wire()) == Some("setChatClientData"@));
        assert(Self::known("setChatClientData"@));
    }
}

impl Method for SetChatClientData {
    const TYPE: &'static str = "setChatClientData";

    type Response = Okay;

    proof fn type_is_tag(&self) {
        reveal(<SetChatClientData as Wire>::wire);
        assert(tag_of(self.wire()) == Some("setChatClientData"@));
    }
}

/// Changes information about a chat. Available for basic groups, supergroups, and channels.
/// Requires can_change_info rights
#[derive(Debug, Clone)]
pub struct SetChatDescription {
    /// Identifier of the chat
    pub chat_id: i64,
    /// Changes information about a chat. Available for basic groups, supergroups, and channels.
    /// Requires can_change_info rights
    pub description: String,
}

impl Wire for SetChatDescription {
    #[verifier::opaque]
    open spec fn wire(&self) -> Doc {
        tagged(
            Map::empty()
                .insert("chatId"@, self.chat_id.wire())
                .insert("description"@, self.description.wire()),
            "setChatDescription"@,
        )
    }

    #[verifier::opaque]
    open spec fn parse(d: Doc, at: Seq<char>) -> Result<Doc, Fault> {
        match d {
            Doc::Object(m) => {
                let chat_id = field::<i64>(m, "chatId"@);
                let description = field::<String>(m, "description"@);
                if chat_id is Err {
                    chat_id
                } else if description is Err {
                    description
                } else {
                    Ok(
                        tagged(
                            Map::empty()
                                .insert("chatId"@, chat_id->Ok_0)
                                .insert("description"@, description->Ok_0),
                            "setChatDescription"@,
                        ),
                    )
                }
            },
            _ => Err(Fault::TypeMismatch(at)),
        }
    }

    fn encode(&self) -> (j: Json) {
        proof {
            reveal(<SetChatDescription as Wire>::wire);
        }
        let mut members: Vec<Member> = Vec::new();
        put(&mut members, "chatId", self.chat_id.encode());
        put(&mut members, "description", self.description.encode());
        seal(members, "setChatDescription")
    }

    fn decode(j: &Json, at: &str) -> (r: Result<Self, DecodeError>) {
        proof {
            reveal(<SetChatDescription as Wire>::wire);
            reveal(<SetChatDescription as Wire>::parse);
        }
        let members = members_of(j, at)?;
        let chat_id = read_field::<i64>(members, "chatId")?;
        let description = read_field::<String>(members, "description")?;
        Ok(SetChatDescription { chat_id, description })
    }

    proof fn round_trip(&self, at: Seq<char>) {
        reveal(<SetChatDescription as Wire>::wire);
        reveal(<SetChatDescription as Wire>::parse);
        reveal_strlit("@type");
        reveal_strlit("chatId");
        reveal_strlit("description");
        assert("@type"@.len() == 5);
        assert("chatId"@.len() == 6);
        assert("description"@.len() == 11);
        self.chat_id.round_trip("chatId"@);
        self.description.round_trip("description"@);
    }
}

impl Tagged for SetChatDescription {
    open spec fn known(tag: Seq<char>) -> bool {
        tag == "setChatDescription"@
    }

    fn knows(tag: &str) -> (r: bool) {
        same_text(tag, "setChatDescription")
    }

    proof fn tag_known(&self) {
        reveal(<SetChatDescription as Wire>::wire);
        assert(tag_of(self.wire()) == Some("setChatDescription"@));
        assert(Self::known("setChatDescription"@));
    }
}

impl Method for SetChatDescription {
    const TYPE: &'static str = "setChatDescription";

    type Response = Okay;

    proof fn type_is_tag(&self) {
        reveal(<SetChatDescription as Wire>::wire);
        assert(tag_of(self.wire()) == Some("setChatDescription"@));
    }
}

/// Changes the discussion group of a channel chat; requires can_change_info rights in the channel
/// if it is specified
#[derive(Debug, Clone)]
pub struct SetChatDiscussionGroup {
    /// Identifier of the channel chat. Pass 0 to remove a link from the supergroup passed in the
    /// second argument to a linked channel chat (requires can_pin_messages rights in the
    /// supergroup)
    pub chat_id: i64,
    /// Identifier of a new channel's discussion group. Use 0 to remove the discussion group. Use
    /// the method getSuitableDiscussionChats to find all suitable groups. Basic group chats needs
    /// to be first upgraded to supergroup chats. If new chat members don't have access to old
    /// messages in the supergroup, then toggleSupergroupIsAllHistoryAvailable needs to be used
    /// first to change that
    pub discussion_chat_id: i64,
}

impl Wire for SetChatDiscussionGroup {
    #[verifier::opaque]
    open spec fn wire(&self) -> Doc {
        tagged(
            Map::empty()
                .insert("chatId"@, self.chat_id.wire())
                .insert("discussionChatId"@, self.discussion_chat_id.wire()),
            "setChatDiscussionGroup"@,
        )
    }

    #[verifier::opaque]
    open spec fn parse(d: Doc, at: Seq<char>) -> Result<Doc, Fault> {
        match d {
            Doc::Object(m) => {
                let chat_id = field::<i64>(m, "chatId"@);
                let discussion_chat_id = field::<i64>(m, "discussionChatId"@);
                if chat_id is Err {
                    chat_id
                } else if discussion_chat_id is Err {
                    discussion_chat_id
                } else {
                    Ok(
                        tagged(
                            Map::empty()
                                .insert("chatId"@, chat_id->Ok_0)
                                .insert("discussionChatId"@, discussion_chat_id->Ok_0),
                            "setChatDiscussionGroup"@,
                        ),
                    )
                }
            },
            _ => Err(Fault::TypeMismatch(at)),
        }
    }

    fn encode(&self) -> (j: Json) {
        proof {
            reveal(<SetChatDiscussionGroup as Wire>::wire);
        }
        let mut members: Vec<Member> = Vec::new();
        put(&mut members, "chatId", self.chat_id.encode());
        put(&mut members, "discussionChatId", self.discussion_chat_id.encode());
        seal(members, "setChatDiscussionGroup")
    }

    fn decode(j: &Json, at: &str) -> (r: Result<Self, DecodeError>) {
        proof {
            reveal(<SetChatDiscussionGroup as Wire>::wire);
            reveal(<SetChatDiscussionGroup as Wire>::parse);
        }
        let members = members_of(j, at)?;
        let chat_id = read_field::<i64>(members, "chatId")?;
        let discussion_chat_id = read_field::<i64>(members, "discussionChatId")?;
        Ok(SetChatDiscussionGroup { chat_id, discussion_chat_id })
    }

    proof fn round_trip(&self, at: Seq<char>) {
        reveal(<SetChatDiscussionGroup as Wire>::wire);
        reveal(<SetChatDiscussionGroup as Wire>::parse);
        reveal_strlit("@type");
        reveal_strlit("chatId");
        reveal_strlit("discussionChatId");
        assert("@type"@.len() == 5);
        assert("chatId"@.len() == 6);
        assert("discussionChatId"@.len() == 16);
        self.chat_id.round_trip("chatId"@);
        self.discussion_chat_id.round_trip("discussionChatId"@);
    }
}

impl Tagged for SetChatDiscussionGroup {
    open spec fn known(tag: Seq<char>) -> bool {
        tag == "setChatDiscussionGroup"@
    }

    fn knows(tag: &str) -> (r: bool) {
        same_text(tag, "setChatDiscussionGroup")
    }

    proof fn tag_known(&self) {
        reveal(<SetChatDiscussionGroup as Wire>::wire);
        assert(tag_of(self.wire()) == Some("setChatDiscussionGroup"@));
        assert(Self::known("setChatDiscussionGroup"@));
    }
}

impl Method for SetChatDiscussionGroup {
    const TYPE: &'static str = "setChatDiscussionGroup";

    type Response = Okay;

    proof fn type_is_tag(&self) {
        reveal(<SetChatDiscussionGroup as Wire>::wire);
        assert(tag_of(self.wire()) == Some("setChatDiscussionGroup"@));
    }
}

/// Changes the location of a chat. Available only for some location-based supergroups, use
/// supergroupFullInfo.can_set_location to check whether the method is allowed to use
#[derive(Debug, Clone)]
pub struct SetChatLocation {
    /// Chat identifier
    pub chat_id: i64,
    /// New location for the chat; must be valid and not null
    pub location: ChatLocation,
}

impl Wire for SetChatLocation {
    #[verifier::opaque]
    open spec fn wire(&self) -> Doc {
        tagged(
            Map::empty()
                .insert("chatId"@, self.chat_id.wire())
                .insert("location"@, self.location.wire()),
            "setChatLocation"@,
        )
    }

    #[verifier::opaque]
    open spec fn parse(d: Doc, at: Seq<char>) -> Result<Doc, Fault> {
        match d {
            Doc::Object(m) => {
                let chat_id = field::<i64>(m, "chatId"@);
                let location = field::<ChatLocation>(m, "location"@);
                if chat_id is Err {
                    chat_id
                } else if location is Err {
                    location
                } else {
                    Ok(
                        tagged(
                            Map::empty()
                                .insert("chatId"@, chat_id->Ok_0)
                                .insert("location"@, location->Ok_0),
                            "setChatLocation"@,
                        ),
                    )
                }
            },
            _ => Err(Fault::TypeMismatch(at)),
        }
    }

    fn encode(&self) -> (j: Json) {
        proof {
            reveal(<SetChatLocation as Wire>::wire);
        }
        let mut members: Vec<Member> = Vec::new();
        put(&mut members, "chatId", self.chat_id.encode());
        put(&mut members, "location", self.location.encode());
        seal(members, "setChatLocation")
    }

    fn decode(j: &Json, at: &str) -> (r: Result<Self, DecodeError>) {
        proof {
            reveal(<SetChatLocation as Wire>::wire);
            reveal(<SetChatLocation as Wire>::parse);
        }
        let members = members_of(j, at)?;
        let chat_id = read_field::<i64>(members, "chatId")?;
        let location = read_field::<ChatLocation>(members, "location")?;
        Ok(SetChatLocation { chat_id, location })
    }

    proof fn round_trip(&self, at: Seq<char>) {
        reveal(<SetChatLocation as Wire>::wire);
        reveal(<SetChatLocation as Wire>::parse);
        reveal_strlit("@type");
        reveal_strlit("chatId");
        reveal_strlit("location");
        assert("@type"@.len() == 5);
        assert("chatId"@.len() == 6);
        assert("location"@.len() == 8);
        self.chat_id.round_trip("chatId"@);
        self.location.round_trip("location"@);
    }
}

impl Tagged for SetChatLocation {
    open spec fn known(tag: Seq<char>) -> bool {
        tag == "setChatLocation"@
    }

    fn knows(tag: &str) -> (r: bool) {
        same_text(tag, "setChatLocation")
    }

    proof fn tag_known(&self) {
        reveal(<SetChatLocation as Wire>::wire);
        assert(tag_of(self.wire()) == Some("setChatLocation"@));
        assert(Self::known("setChatLocation"@));
    }
}

impl Method for SetChatLocation {
    const TYPE: &'static str = "setChatLocation";

    type Response = Okay;

    proof fn type_is_tag(&self) {
        reveal(<SetChatLocation as Wire>::wire);
        assert(tag_of(self.wire()) == Some("setChatLocation"@));
    }
}

/// Changes the slow mode delay of a chat. Available only for supergroups; requires
/// can_restrict_members rights
#[derive(Debug, Clone)]
pub struct SetChatSlowModeDelay {
    /// Chat identifier
    pub chat_id: i64,
    /// New slow mode delay for the chat; must be one of 0, 10, 30, 60, 300, 900, 3600
    pub slow_mode_delay: i32,
}

impl Wire for SetChatSlowModeDelay {
    #[verifier::opaque]
    open spec fn wire(&self) -> Doc {
        tagged(
            Map::empty()
                .insert("chatId"@, self.chat_id.wire())
                .insert("slowModeDelay"@, self.slow_mode_delay.wire()),
            "setChatSlowModeDelay"@,
        )
    }

    #[verifier::opaque]
    open spec fn parse(d: Doc, at: Seq<char>) -> Result<Doc, Fault> {
        match d {
            Doc::Object(m) => {
                let chat_id = field::<i64>(m, "chatId"@);
                let slow_mode_delay = field::<i32>(m, "slowModeDelay"@);
                if chat_id is Err {
                    chat_id
                } else if slow_mode_delay is Err {
                    slow_mode_delay
                } else {
                    Ok(
                        tagged(
                            Map::empty()
                                .insert("chatId"@, chat_id->Ok_0)
                                .insert("slowModeDelay"@, slow_mode_delay->Ok_0),
                            "setChatSlowModeDelay"@,
                        ),
                    )
                }
            },
            _ => Err(Fault::TypeMismatch(at)),
        }
    }

    fn encode(&self) -> (j: Json) {
        proof {
            reveal(<SetChatSlowModeDelay as Wire>::wire);
        }
        let mut members: Vec<Member> = Vec::new();
        put(&mut members, "chatId", self.chat_id.encode());
        put(&mut members, "slowModeDelay", self.slow_mode_delay.encode());
        seal(members, "setChatSlowModeDelay")
    }

    fn decode(j: &Json, at: &str) -> (r: Result<Self, DecodeError>) {
        proof {
            reveal(<SetChatSlowModeDelay as Wire>::wire);
            reveal(<SetChatSlowModeDelay as Wire>::parse);
        }
        let members = members_of(j, at)?;
        let chat_id = read_field::<i64>(members, "chatId")?;
        let slow_mode_delay = read_field::<i32>(members, "slowModeDelay")?;
        Ok(SetChatSlowModeDelay { chat_id, slow_mode_delay })
    }

    proof fn round_trip(&self, at: Seq<char>) {
        reveal(<SetChatSlowModeDelay as Wire>::wire);
        reveal(<SetChatSlowModeDelay as Wire>::parse);
        reveal_strlit("@type");
        reveal_strlit("chatId");
        reveal_strlit("slowModeDelay");
        assert("@type"@.len() == 5);
        assert("chatId"@.len() == 6);
        assert("slowModeDelay"@.len() == 13);
        self.chat_id.round_trip("chatId"@);
        self.slow_mode_delay.round_trip("slowModeDelay"@);
    }
}

impl Tagged for SetChatSlowModeDelay {
    open spec fn known(tag: Seq<char>) -> bool {
        tag == "setChatSlowModeDelay"@
    }

    fn knows(tag: &str) -> (r: bool) {
        same_text(tag, "setChatSlowModeDelay")
    }

    proof fn tag_known(&self) {
        reveal(<SetChatSlowModeDelay as Wire>::wire);
        assert(tag_of(self.wire()) == Some("setChatSlowModeDelay"@));
        assert(Self::known("setChatSlowModeDelay"@));
    }
}

impl Method for SetChatSlowModeDelay {
    const TYPE: &'static str = "setChatSlowModeDelay";

    type Response = Okay;

    proof fn type_is_tag(&self) {
        reveal(<SetChatSlowModeDelay as Wire>::wire);
        assert(tag_of(self.wire()) == Some("setChatSlowModeDelay"@));
    }
}

/// Pins a message in a chat; requires can_pin_messages rights
#[derive(Debug, Clone)]
pub struct PinChatMessage {
    /// Identifier of the chat
    pub chat_id: i64,
    /// Identifier of the new pinned message
    pub message_id: i64,
    /// True, if there should be no notification about the pinned message
    pub disable_notification: bool,
}

impl Wire for PinChatMessage {
    #[verifier::opaque]
    open spec fn wire(&self) -> Doc {
        tagged(
            Map::empty()
                .insert("chatId"@, self.chat_id.wire())
                .insert("messageId"@, self.message_id.wire())
                .insert("disableNotification"@, self.disable_notification.wire()),
            "pinChatMessage"@,
        )
    }

    #[verifier::opaque]
    open spec fn parse(d: Doc, at: Seq<char>) -> Result<Doc, Fault> {
        match d {
            Doc::Object(m) => {
                let chat_id = field::<i64>(m, "chatId"@);
                let message_id = field::<i64>(m, "messageId"@);
                let disable_notification = field::<bool>(m, "disableNotification"@);
                if chat_id is Err {
                    chat_id
                } else if message_id is Err {
                    message_id
                } else if disable_notification is Err {
                    disable_notification
                } else {
                    Ok(
                        tagged(
                            Map::empty()
                                .insert("chatId"@, chat_id->Ok_0)
                                .insert("messageId"@, message_id->Ok_0)
                                .insert("disableNotification"@, disable_notification->Ok_0),
                            "pinChatMessage"@,
                        ),
                    )
                }
            },
            _ => Err(Fault::TypeMismatch(at)),
        }
    }

    fn encode(&self) -> (j: Json) {
        proof {
            reveal(<PinChatMessage as Wire>::wire);
        }
        let mut members: Vec<Member> = Vec::new();
        put(&mut members, "chatId", self.chat_id.encode());
        put(&mut members, "messageId", self.message_id.encode());
        put(&mut members, "disableNotification", self.disable_notification.encode());
        seal(members, "pinChatMessage")
    }

    fn decode(j: &Json, at: &str) -> (r: Result<Self, DecodeError>) {
        proof {
            reveal(<PinChatMessage as Wire>::wire);
            reveal(<PinChatMessage as Wire>::parse);
        }
        let members = members_of(j, at)?;
        let chat_id = read_field::<i64>(members, "chatId")?;
        let message_id = read_field::<i64>(members, "messageId")?;
        let disable_notification = read_field::<bool>(members, "disableNotification")?;
        Ok(PinChatMessage { chat_id, message_id, disable_notification })
    }

    proof fn round_trip(&self, at: Seq<char>) {
        reveal(<PinChatMessage as Wire>::wire);
        reveal(<PinChatMessage as Wire>::parse);
        reveal_strlit("@type");
        reveal_strlit("chatId");
        reveal_strlit("disableNotification");
        reveal_strlit("messageId");
        assert("@type"@.len() == 5);
        assert("chatId"@.len() == 6);
        assert("disableNotification"@.len() == 19);
        assert("messageId"@.len() == 9);
        self.chat_id.round_trip("chatId"@);
        self.message_id.round_trip("messageId"@);
        self.disable_notification.round_trip("disableNotification"@);
    }
}

impl Tagged for PinChatMessage {
    open spec fn known(tag: Seq<char>) -> bool {
        tag == "pinChatMessage"@
    }

    fn knows(tag: &str) -> (r: bool) {
        same_text(tag, "pinChatMessage")
    }

    proof fn tag_known(&self) {
        reveal(<PinChatMessage as Wire>::wire);
        assert(tag_of(self.wire()) == Some("pinChatMessage"@));
        assert(Self::known("pinChatMessage"@));
    }
}

impl Method for PinChatMessage {
    const TYPE: &'static str = "pinChatMessage";

    type Response = Okay;

    proof fn type_is_tag(&self) {
        reveal(<PinChatMessage as Wire>::wire);
        assert(tag_of(self.wire()) == Some("pinChatMessage"@));
    }
}

/// Removes the pinned message from a chat; requires can_pin_messages rights in the group or channel
#[derive(Debug, Clone)]
pub struct UnpinChatMessage {
    /// Identifier of the chat
    pub chat_id: i64,
}

impl Wire for UnpinChatMessage {
    #[verifier::opaque]
    open spec fn wire(&self) -> Doc {
        tagged(
            Map::empty()
                .insert("chatId"@, self.chat_id.wire()),
            "unpinChatMessage"@,
        )
    }

    #[verifier::opaque]
    open spec fn parse(d: Doc, at: Seq<char>) -> Result<Doc, Fault> {
        match d {
            Doc::Object(m) => {
                let chat_id = field::<i64>(m, "chatId"@);
                if chat_id is Err {
                    chat_id
                } else {
                    Ok(
                        tagged(
                            Map::empty()
                                .insert("chatId"@, chat_id->Ok_0),
                            "unpinChatMessage"@,
                        ),
                    )
                }
            },
            _ => Err(Fault::TypeMismatch(at)),
        }
    }

    fn encode(&self) -> (j: Json) {
        proof {
            reveal(<UnpinChatMessage as Wire>::wire);
        }
        let mut members: Vec<Member> = Vec::new();
        put(&mut members, "chatId", self.chat_id.encode());
        seal(members, "unpinChatMessage")
    }

    fn decode(j: &Json, at: &str) -> (r: Result<Self, DecodeError>) {
        proof {
            reveal(<UnpinChatMessage as Wire>::wire);
            reveal(<UnpinChatMessage as Wire>::parse);
        }
        let members = members_of(j, at)?;
        let chat_id = read_field::<i64>(members, "chatId")?;
        Ok(UnpinChatMessage { chat_id })
    }

    proof fn round_trip(&self, at: Seq<char>) {
        reveal(<UnpinChatMessage as Wire>::wire);
        reveal(<UnpinChatMessage as Wire>::parse);
        reveal_strlit("@type");
        reveal_strlit("chatId");
        assert("@type"@.len() == 5);
        assert("chatId"@.len() == 6);
        self.chat_id.round_trip("chatId"@);
    }
}

impl Tagged for UnpinChatMessage {
    open spec fn known(tag: Seq<char>) -> bool {
        tag == "unpinChatMessage"@
    }

    fn knows(tag: &str) -> (r: bool) {
        same_text(tag, "unpinChatMessage")
    }

    proof fn tag_known(&self) {
        reveal(<UnpinChatMessage as Wire>::wire);
        assert(tag_of(self.wire()) == Some("unpinChatMessage"@));
        assert(Self::known("unpinChatMessage"@));
    }
}

impl Method for UnpinChatMessage {
    const TYPE: &'static str = "unpinChatMessage";

    type Response = Okay;

    proof fn type_is_tag(&self) {
        reveal(<UnpinChatMessage as Wire>::wire);
        assert(tag_of(self.wire()) == Some("unpinChatMessage"@));
    }
}

/// Adds current user as a new member to a chat. Private and secret chats can't be joined using this
/// method
#[derive(Debug, Clone)]
pub struct JoinChat {
    /// Chat identifier
    pub chat_id: i64,
}

impl Wire for JoinChat {
    #[verifier::opaque]
    open spec fn wire(&self) -> Doc {
        tagged(
            Map::empty()
                .insert("chatId"@, self.chat_id.wire()),
            "joinChat"@,
        )
    }

    #[verifier::opaque]
    open spec fn parse(d: Doc, at: Seq<char>) -> Result<Doc, Fault> {
        match d {
            Doc::Object(m) => {
                let chat_id = field::<i64>(m, "chatId"@);
                if chat_id is Err {
                    chat_id
                } else {
                    Ok(
                        tagged(
                            Map::empty()
                                .insert("chatId"@, chat_id->Ok_0),
                            "joinChat"@,
                        ),
                    )
                }
            },
            _ => Err(Fault::TypeMismatch(at)),
        }
    }

    fn encode(&self) -> (j: Json) {
        proof {
            reveal(<JoinChat as Wire>::wire);
        }
        let mut members: Vec<Member> = Vec::new();
        put(&mut members, "chatId", self.chat_id.encode());
        seal(members, "joinChat")
    }

    fn decode(j: &Json, at: &str) -> (r: Result<Self, DecodeError>) {
        proof {
            reveal(<JoinChat as Wire>::wire);
            reveal(<JoinChat as Wire>::parse);
        }
        let members = members_of(j, at)?;
        let chat_id = read_field::<i64>(members, "chatId")?;
        Ok(JoinChat { chat_id })
    }

    proof fn round_trip(&self, at: Seq<char>) {
        reveal(<JoinChat as Wire>::wire);
        reveal(<JoinChat as Wire>::parse);
        reveal_strlit("@type");
        reveal_strlit("chatId");
        assert("@type"@.len() == 5);
        assert("chatId"@.len() == 6);
        self.chat_id.round_trip("chatId"@);
    }
}

impl Tagged for JoinChat {
    open spec fn known(tag: Seq<char>) -> bool {
        tag == "joinChat"@
    }

    fn knows(tag: &str) -> (r: bool) {
        same_text(tag, "joinChat")
    }

    proof fn tag_known(&self) {
        reveal(<JoinChat as Wire>::wire);
        assert(tag_of(self.wire()) == Some("joinChat"@));
        assert(Self::known("joinChat"@));
    }
}

impl Method for JoinChat {
    const TYPE: &'static str = "joinChat";

    type Response = Okay;

    proof fn type_is_tag(&self) {
        reveal(<JoinChat as Wire>::wire);
        assert(tag_of(self.wire()) == Some("joinChat"@));
    }
}

/// Removes current user from chat members. Private and secret chats can't be left using this method
#[derive(Debug, Clone)]
pub struct LeaveChat {
    /// Chat identifier
    pub chat_id: i64,
}

impl Wire for LeaveChat {
    #[verifier::opaque]
    open spec fn wire(&self) -> Doc {
        tagged(
            Map::empty()
                .insert("chatId"@, self.chat_id.wire()),
            "leaveChat"@,
        )
    }

    #[verifier::opaque]
    open spec fn parse(d: Doc, at: Seq<char>) -> Result<Doc, Fault> {
        match d {
            Doc::Object(m) => {
                let chat_id = field::<i64>(m, "chatId"@);
                if chat_id is Err {
                    chat_id
                } else {
                    Ok(
                        tagged(
                            Map::empty()
                                .insert("chatId"@, chat_id->Ok_0),
                            "leaveChat"@,
                        ),
                    )
                }
            },
            _ => Err(Fault::TypeMismatch(at)),
        }
    }

    fn encode(&self) -> (j: Json) {
        proof {
            reveal(<LeaveChat as Wire>::wire);
        }
        let mut members: Vec<Member> = Vec::new();
        put(&mut members, "chatId", self.chat_id.encode());
        seal(members, "leaveChat")
    }

    fn decode(j: &Json, at: &str) -> (r: Result<Self, DecodeError>) {
        proof {
            reveal(<LeaveChat as Wire>::wire);
            reveal(<LeaveChat as Wire>::parse);
        }
        let members = members_of(j, at)?;
        let chat_id = read_field::<i64>(members, "chatId")?;
        Ok(LeaveChat { chat_id })
    }

    proof fn round_trip(&self, at: Seq<char>) {
        reveal(<LeaveChat as Wire>::wire);
        reveal(<LeaveChat as Wire>::parse);
        reveal_strlit("@type");
        reveal_strlit("chatId");
        assert("@type"@.len() == 5);
        assert("chatId"@.len() == 6);
        self.chat_id.round_trip("chatId"@);
    }
}

impl Tagged for LeaveChat {
    open spec fn known(tag: Seq<char>) -> bool {
        tag == "leaveChat"@
    }

    fn knows(tag: &str) -> (r: bool) {
        same_text(tag, "leaveChat")
    }

    proof fn tag_known(&self) {
        reveal(<LeaveChat as Wire>::wire);
        assert(tag_of(self.wire()) == Some("leaveChat"@));
        assert(Self::known("leaveChat"@));
    }
}

impl Method for LeaveChat {
    const TYPE: &'static str = "leaveChat";

    type Response = Okay;

    proof fn type_is_tag(&self) {
        reveal(<LeaveChat as Wire>::wire);
        assert(tag_of(self.wire()) == Some("leaveChat"@));
    }
}

/// Adds a new member to a chat. Members can't be added to private or secret chats. Members will not
/// be added until the chat state has been synchronized with the server
#[derive(Debug, Clone)]
pub struct AddChatMember {
    /// Chat identifier
    pub chat_id: i64,
    /// Identifier of the user
    pub user_id: i32,
    /// The number of earlier messages from the chat to be forwarded to the new member; up to 100.
    /// Ignored for supergroups and channels
    pub forward_limit: i32,
}

impl Wire for AddChatMember {
    #[verifier::opaque]
    open spec fn wire(&self) -> Doc {
        tagged(
            Map::empty()
                .insert("chatId"@, self.chat_id.wire())
                .insert("userId"@, self.user_id.wire())
                .insert("forwardLimit"@, self.forward_limit.wire()),
            "addChatMember"@,
        )
    }

    #[verifier::opaque]
    open spec fn parse(d: Doc, at: Seq<char>) -> Result<Doc, Fault> {
        match d {
            Doc::Object(m) => {
                let chat_id = field::<i64>(m, "chatId"@);
                let user_id = field::<i32>(m, "userId"@);
                let forward_limit = field::<i32>(m, "forwardLimit"@);
                if chat_id is Err {
                    chat_id
                } else if user_id is Err {
                    user_id
                } else if forward_limit is Err {
                    forward_limit
                } else {
                    Ok(
                        tagged(
                            Map::empty()
                                .insert("chatId"@, chat_id->Ok_0)
                                .insert("userId"@, user_id->Ok_0)
                                .insert("forwardLimit"@, forward_limit->Ok_0),
                            "addChatMember"@,
                        ),
                    )
                }
            },
            _ => Err(Fault::TypeMismatch(at)),
        }
    }

    fn encode(&self) -> (j: Json) {
        proof {
            reveal(<AddChatMember as Wire>::wire);
        }
        let mut members: Vec<Member> = Vec::new();
        put(&mut members, "chatId", self.chat_id.encode());
        put(&mut members, "userId", self.user_id.encode());
        put(&mut members, "forwardLimit", self.forward_limit.encode());
        seal(members, "addChatMember")
    }

    fn decode(j: &Json, at: &str) -> (r: Result<Self, DecodeError>) {
        proof {
            reveal(<AddChatMember as Wire>::wire);
            reveal(<AddChatMember as Wire>::parse);
        }
        let members = members_of(j, at)?;
        let chat_id = read_field::<i64>(members, "chatId")?;
        let user_id = read_field::<i32>(members, "userId")?;
        let forward_limit = read_field::<i32>(members, "forwardLimit")?;
        Ok(AddChatMember { chat_id, user_id, forward_limit })
    }

    proof fn round_trip(&self, at: Seq<char>) {
        reveal(<AddChatMember as Wire>::wire);
        reveal(<AddChatMember as Wire>::parse);
        reveal_strlit("@type");
        reveal_strlit("chatId");
        reveal_strlit("forwardLimit");
        reveal_strlit("userId");
        assert("@type"@.len() == 5);
        assert("chatId"@.len() == 6 && "chatId"@[0] == 'c');
        assert("forwardLimit"@.len() == 12);
        assert("userId"@.len() == 6 && "userId"@[0] == 'u');
        self.chat_id.round_trip("chatId"@);
        self.user_id.round_trip("userId"@);
        self.forward_limit.round_trip("forwardLimit"@);
    }
}

impl Tagged for AddChatMember {
    open spec fn known(tag: Seq<char>) -> bool {
        tag == "addChatMember"@
    }

    fn knows(tag: &str) -> (r: bool) {
        same_text(tag, "addChatMember")
    }

    proof fn tag_known(&self) {
        reveal(<AddChatMember as Wire>::wire);
        assert(tag_of(self.wire()) == Some("addChatMember"@));
        assert(Self::known("addChatMember"@));
    }
}

impl Method for AddChatMember {
    const TYPE: &'static str = "addChatMember";

    type Response = Okay;

    proof fn type_is_tag(&self) {
        reveal(<AddChatMember as Wire>::wire);
        assert(tag_of(self.wire()) == Some("addChatMember"@));
    }
}

/// Adds multiple new members to a chat. Currently this option is only available for supergroups and
/// channels. This option can't be used to join a chat. Members can't be added to a channel if it
/// has more than 200 members. Members will not be added until the chat state has been synchronized
/// with the server
#[derive(Debug, Clone)]
pub struct AddChatMembers {
    /// Chat identifier
    pub chat_id: i64,
    /// Identifiers of the users to be added to the chat
    pub user_ids: Vec<i32>,
}

impl Wire for AddChatMembers {
    #[verifier::opaque]
    open spec fn wire(&self) -> Doc {
        tagged(
            Map::empty()
                .insert("chatId"@, self.chat_id.wire())
                .insert("userIds"@, self.user_ids.wire()),
            "addChatMembers"@,
        )
    }

    #[verifier::opaque]
    open spec fn parse(d: Doc, at: Seq<char>) -> Result<Doc, Fault> {
        match d {
            Doc::Object(m) => {
                let chat_id = field::<i64>(m, "chatId"@);
                let user_ids = field::<Vec<i32>>(m, "userIds"@);
                if chat_id is Err {
                    chat_id
                } else if user_ids is Err {
                    user_ids
                } else {
                    Ok(
                        tagged(
                            Map::empty()
                                .insert("chatId"@, chat_id->Ok_0)
                                .insert("userIds"@, user_ids->Ok_0),
                            "addChatMembers"@,
                        ),
                    )
                }
            },
            _ => Err(Fault::TypeMismatch(at)),
        }
    }

    fn encode(&self) -> (j: Json) {
        proof {
            reveal(<AddChatMembers as Wire>::wire);
        }
        let mut members: Vec<Member> = Vec::new();
        put(&mut members, "chatId", self.chat_id.encode());
        put(&mut members, "userIds", self.user_ids.encode());
        seal(members, "addChatMembers")
    }

    fn decode(j: &Json, at: &str) -> (r: Result<Self, DecodeError>) {
        proof {
            reveal(<AddChatMembers as Wire>::wire);
            reveal(<AddChatMembers as Wire>::parse);
        }
        let members = members_of(j, at)?;
        let chat_id = read_field::<i64>(members, "chatId")?;
        let user_ids = read_field::<Vec<i32>>(members, "userIds")?;
        Ok(AddChatMembers { chat_id, user_ids })
    }

    proof fn round_trip(&self, at: Seq<char>) {
        reveal(<AddChatMembers as Wire>::wire);
        reveal(<AddChatMembers as Wire>::parse);
        reveal_strlit("@type");
        reveal_strlit("chatId");
        reveal_strlit("userIds");
        assert("@type"@.len() == 5);
        assert("chatId"@.len() == 6);
        assert("userIds"@.len() == 7);
        self.chat_id.round_trip("chatId"@);
        self.user_ids.round_trip("userIds"@);
    }
}

impl Tagged for AddChatMembers {
    open spec fn known(tag: Seq<char>) -> bool {
        tag == "addChatMembers"@
    }

    fn knows(tag: &str) -> (r: bool) {
        same_text(tag, "addChatMembers")
    }

    proof fn tag_known(&self) {
        reveal(<AddChatMembers as Wire>::wire);
        assert(tag_of(self.wire()) == Some("addChatMembers"@));
        assert(Self::known("addChatMembers"@));
    }
}

impl Method for AddChatMembers {
    const TYPE: &'static str = "addChatMembers";

    type Response = Okay;

    proof fn type_is_tag(&self) {
        reveal(<AddChatMembers as Wire>::wire);
        assert(tag_of(self.wire()) == Some("addChatMembers"@));
    }
}

/// Changes the status of a chat member, needs appropriate privileges. This function is currently
/// not suitable for adding new members to the chat and transferring chat ownership; instead, use
/// addChatMember or transferChatOwnership. The chat member status will not be changed until it has
/// been synchronized with the server
#[derive(Debug, Clone)]
pub struct SetChatMemberStatus {
    /// Chat identifier
    pub chat_id: i64,
    /// User identifier
    pub user_id: i32,
    /// The new status of the member in the chat
    pub status: ChatMemberStatus,
}

impl Wire for SetChatMemberStatus {
    #[verifier::opaque]
    open spec fn wire(&self) -> Doc {
        tagged(
            Map::empty()
                .insert("chatId"@, self.chat_id.wire())
                .insert("userId"@, self.user_id.wire())
                .insert("status"@, self.status.wire()),
            "setChatMemberStatus"@,
        )
    }

    #[verifier::opaque]
    open spec fn parse(d: Doc, at: Seq<char>) -> Result<Doc, Fault> {
        match d {
            Doc::Object(m) => {
                let chat_id = field::<i64>(m, "chatId"@);
                let user_id = field::<i32>(m, "userId"@);
                let status = field::<ChatMemberStatus>(m, "status"@);
                if chat_id is Err {
                    chat_id
                } else if user_id is Err {
                    user_id
                } else if status is Err {
                    status
                } else {
                    Ok(
                        tagged(
                            Map::empty()
                                .insert("chatId"@, chat_id->Ok_0)
                                .insert("userId"@, user_id->Ok_0)
                                .insert("status"@, status->Ok_0),
                            "setChatMemberStatus"@,
                        ),
                    )
                }
            },
            _ => Err(Fault::TypeMismatch(at)),
        }
    }

    fn encode(&self) -> (j: Json) {
        proof {
            reveal(<SetChatMemberStatus as Wire>::wire);
        }
        let mut members: Vec<Member> = Vec::new();
        put(&mut members, "chatId", self.chat_id.encode());
        put(&mut members, "userId", self.user_id.encode());
        put(&mut members, "status", self.status.encode());
        seal(members, "setChatMemberStatus")
    }

    fn decode(j: &Json, at: &str) -> (r: Result<Self, DecodeError>) {
        proof {
            reveal(<SetChatMemberStatus as Wire>::wire);
            reveal(<SetChatMemberStatus as Wire>::parse);
        }
        let members = members_of(j, at)?;
        let chat_id = read_field::<i64>(members, "chatId")?;
        let user_id = read_field::<i32>(members, "userId")?;
        let status = read_field::<ChatMemberStatus>(members, "status")?;
        Ok(SetChatMemberStatus { chat_id, user_id, status })
    }

    proof fn round_trip(&self, at: Seq<char>) {
        reveal(<SetChatMemberStatus as Wire>::wire);
        reveal(<SetChatMemberStatus as Wire>::parse);
        reveal_strlit("@type");
        reveal_strlit("chatId");
        reveal_strlit("status");
        reveal_strlit("userId");
        assert("@type"@.len() == 5);
        assert("chatId"@.len() == 6 && "chatId"@[0] == 'c');
        assert("status"@.len() == 6 && "status"@[0] == 's');
        assert("userId"@.len() == 6 && "userId"@[0] == 'u');
        self.chat_id.round_trip("chatId"@);
        self.user_id.round_trip("userId"@);
        self.status.round_trip("status"@);
    }
}

impl Tagged for SetChatMemberStatus {
    open spec fn known(tag: Seq<char>) -> bool {
        tag == "setChatMemberStatus"@
    }

    fn knows(tag: &str) -> (r: bool) {
        same_text(tag, "setChatMemberStatus")
    }

    proof fn tag_known(&self) {
        reveal(<SetChatMemberStatus as Wire>::wire);
        assert(tag_of(self.wire()) == Some("setChatMemberStatus"@));
        assert(Self::known("setChatMemberStatus"@));
    }
}

impl Method for SetChatMemberStatus {
    const TYPE: &'static str = "setChatMemberStatus";

    type Response = Okay;

    proof fn type_is_tag(&self) {
        reveal(<SetChatMemberStatus as Wire>::wire);
        assert(tag_of(self.wire()) == Some("setChatMemberStatus"@));
    }
}

/// Checks whether the current session can be used to transfer a chat ownership to another user
#[derive(Debug, Clone)]
pub struct CanTransferOwnership {}

impl Wire for CanTransferOwnership {
    #[verifier::opaque]
    open spec fn wire(&self) -> Doc {
        tagged(Map::empty(), "canTransferOwnership"@)
    }

    #[verifier::opaque]
    open spec fn parse(d: Doc, at: Seq<char>) -> Result<Doc, Fault> {
        match d {
            Doc::Object(_) => Ok(tagged(Map::empty(), "canTransferOwnership"@)),
            _ => Err(Fault::TypeMismatch(at)),
        }
    }

    fn encode(&self) -> (j: Json) {
        proof {
            reveal(<CanTransferOwnership as Wire>::wire);
        }
        seal(Vec::new(), "canTransferOwnership")
    }

    fn decode(j: &Json, at: &str) -> (r: Result<Self, DecodeError>) {
        proof {
            reveal(<CanTransferOwnership as Wire>::wire);
            reveal(<CanTransferOwnership as Wire>::parse);
        }
        let _ = members_of(j, at)?;
        Ok(CanTransferOwnership {})
    }

    proof fn round_trip(&self, at: Seq<char>) {
        reveal(<CanTransferOwnership as Wire>::wire);
        reveal(<CanTransferOwnership as Wire>::parse);
    }
}

impl Tagged for CanTransferOwnership {
    open spec fn known(tag: Seq<char>) -> bool {
        tag == "canTransferOwnership"@
    }

    fn knows(tag: &str) -> (r: bool) {
        same_text(tag, "canTransferOwnership")
    }

    proof fn tag_known(&self) {
        reveal(<CanTransferOwnership as Wire>::wire);
        assert(tag_of(self.wire()) == Some("canTransferOwnership"@));
        assert(Self::known("canTransferOwnership"@));
    }
}

impl Method for CanTransferOwnership {
    const TYPE: &'static str = "canTransferOwnership";

    type Response = CanTransferOwnershipResult;

    proof fn type_is_tag(&self) {
        reveal(<CanTransferOwnership as Wire>::wire);
        assert(tag_of(self.wire()) == Some("canTransferOwnership"@));
    }
}

/// Changes the owner of a chat. The current user must be a current owner of the chat. Use the
/// method canTransferOwnership to check whether the ownership can be transferred from the current
/// session. Available only for supergroups and channel chats
#[derive(Debug, Clone)]
pub struct TransferChatOwnership {
    /// Chat identifier
    pub chat_id: i64,
    /// Identifier of the user to which transfer the ownership. The ownership can't be transferred
    /// to a bot or to a deleted user
    pub user_id: i32,
    /// The password of the current user
    pub password: String,
}

impl Wire for TransferChatOwnership {
    #[verifier::opaque]
    open spec fn wire(&self) -> Doc {
        tagged(
            Map::empty()
                .insert("chatId"@, self.chat_id.wire())
                .insert("userId"@, self.user_id.wire())
                .insert("password"@, self.password.wire()),
            "transferChatOwnership"@,
        )
    }

    #[verifier::opaque]
    open spec fn parse(d: Doc, at: Seq<char>) -> Result<Doc, Fault> {
        match d {
            Doc::Object(m) => {
                let chat_id = field::<i64>(m, "chatId"@);
                let user_id = field::<i32>(m, "userId"@);
                let password = field::<String>(m, "password"@);
                if chat_id is Err {
                    chat_id
                } else if user_id is Err {
                    user_id
                } else if password is Err {
                    password
                } else {
                    Ok(
                        tagged(
                            Map::empty()
                                .insert("chatId"@, chat_id->Ok_0)
                                .insert("userId"@, user_id->Ok_0)
                                .insert("password"@, password->Ok_0),
                            "transferChatOwnership"@,
                        ),
                    )
                }
            },
            _ => Err(Fault::TypeMismatch(at)),
        }
    }

    fn encode(&self) -> (j: Json) {
        proof {
            reveal(<TransferChatOwnership as Wire>::wire);
        }
        let mut members: Vec<Member> = Vec::new();
        put(&mut members, "chatId", self.chat_id.encode());
        put(&mut members, "userId", self.user_id.encode());
        put(&mut members, "password", self.password.encode());
        seal(members, "transferChatOwnership")
    }

    fn decode(j: &Json, at: &str) -> (r: Result<Self, DecodeError>) {
        proof {
            reveal(<TransferChatOwnership as Wire>::wire);
            reveal(<TransferChatOwnership as Wire>::parse);
        }
        let members = members_of(j, at)?;
        let chat_id = read_field::<i64>(members, "chatId")?;
        let user_id = read_field::<i32>(members, "userId")?;
        let password = read_field::<String>(members, "password")?;
        Ok(TransferChatOwnership { chat_id, user_id, password })
    }

    proof fn round_trip(&self, at: Seq<char>) {
        reveal(<TransferChatOwnership as Wire>::wire);
        reveal(<TransferChatOwnership as Wire>::parse);
        reveal_strlit("@type");
        reveal_strlit("chatId");
        reveal_strlit("password");
        reveal_strlit("userId");
        assert("@type"@.len() == 5);
        assert("chatId"@.len() == 6 && "chatId"@[0] == 'c');
        assert("password"@.len() == 8);
        assert("userId"@.len() == 6 && "userId"@[0] == 'u');
        self.chat_id.round_trip("chatId"@);
        self.user_id.round_trip("userId"@);
        self.password.round_trip("password"@);
    }
}

impl Tagged for TransferChatOwnership {
    open spec fn known(tag: Seq<char>) -> bool {
        tag == "transferChatOwnership"@
    }

    fn knows(tag: &str) -> (r: bool) {
        same_text(tag, "transferChatOwnership")
    }

    proof fn tag_known(&self) {
        reveal(<TransferChatOwnership as Wire>::wire);
        assert(tag_of(self.wire()) == Some("transferChatOwnership"@));
        assert(Self::known("transferChatOwnership"@));
    }
}

impl Method for TransferChatOwnership {
    const TYPE: &'static str = "transferChatOwnership";

    type Response = Okay;

    proof fn type_is_tag(&self) {
        reveal(<TransferChatOwnership as Wire>::wire);
        assert(tag_of(self.wire()) == Some("transferChatOwnership"@));
    }
}

/// Returns information about a single member of a chat
#[derive(Debug, Clone)]
pub struct GetChatMember {
    /// Chat identifier
    pub chat_id: i64,
    /// User identifier
    pub user_id: i32,
}

impl Wire for GetChatMember {
    #[verifier::opaque]
    open spec fn wire(&self) -> Doc {
        tagged(
            Map::empty()
                .insert("chatId"@, self.chat_id.wire())
                .insert("userId"@, self.user_id.wire()),
            "getChatMember"@,
        )
    }

    #[verifier::opaque]
    open spec fn parse(d: Doc, at: Seq<char>) -> Result<Doc, Fault> {
        match d {
            Doc::Object(m) => {
                let chat_id = field::<i64>(m, "chatId"@);
                let user_id = field::<i32>(m, "userId"@);
                if chat_id is Err {
                    chat_id
                } else if user_id is Err {
                    user_id
                } else {
                    Ok(
                        tagged(
                            Map::empty()
                                .insert("chatId"@, chat_id->Ok_0)
                                .insert("userId"@, user_id->Ok_0),
                            "getChatMember"@,
                        ),
                    )
                }
            },
            _ => Err(Fault::TypeMismatch(at)),
        }
    }

    fn encode(&self) -> (j: Json) {
        proof {
            reveal(<GetChatMember as Wire>::wire);
        }
        let mut members: Vec<Member> = Vec::new();
        put(&mut members, "chatId", self.chat_id.encode());
        put(&mut members, "userId", self.user_id.encode());
        seal(members, "getChatMember")
    }

    fn decode(j: &Json, at: &str) -> (r: Result<Self, DecodeError>) {
        proof {
            reveal(<GetChatMember as Wire>::wire);
            reveal(<GetChatMember as Wire>::parse);
        }
        let members = members_of(j, at)?;
        let chat_id = read_field::<i64>(members, "chatId")?;
        let user_id = read_field::<i32>(members, "userId")?;
        Ok(GetChatMember { chat_id, user_id })
    }

    proof fn round_trip(&self, at: Seq<char>) {
        reveal(<GetChatMember as Wire>::wire);
        reveal(<GetChatMember as Wire>::parse);
        reveal_strlit("@type");
        reveal_strlit("chatId");
        reveal_strlit("userId");
        assert("@type"@.len() == 5);
        assert("chatId"@.len() == 6 && "chatId"@[0] == 'c');
        assert("userId"@.len() == 6 && "userId"@[0] == 'u');
        self.chat_id.round_trip("chatId"@);
        self.user_id.round_trip("userId"@);
    }
}

impl Tagged for GetChatMember {
    open spec fn known(tag: Seq<char>) -> bool {
        tag == "getChatMember"@
    }

    fn knows(tag: &str) -> (r: bool) {
        same_text(tag, "getChatMember")
    }

    proof fn tag_known(&self) {
        reveal(<GetChatMember as Wire>::wire);
        assert(tag_of(self.wire()) == Some("getChatMember"@));
        assert(Self::known("getChatMember"@));
    }
}

impl Method for GetChatMember {
    const TYPE: &'static str = "getChatMember";

    type Response = ChatMember;

    proof fn type_is_tag(&self) {
        reveal(<GetChatMember as Wire>::wire);
        assert(tag_of(self.wire()) == Some("getChatMember"@));
    }
}

/// Searches for a specified query in the first name, last name and username of the members of a
/// specified chat. Requires administrator rights in channels
#[derive(Debug, Clone)]
pub struct SearchChatMembers {
    /// Chat identifier
    pub chat_id: i64,
    /// Query to search for
    pub query: String,
    /// The maximum number of users to be returned
    pub limit: i32,
    /// The type of users to return. By default, chatMembersFilterMembers
    pub filter: ChatMembersFilter,
}

impl Wire for SearchChatMembers {
    #[verifier::opaque]
    open spec fn wire(&self) -> Doc {
        tagged(
            Map::empty()
                .insert("chatId"@, self.chat_id.wire())
                .insert("query"@, self.query.wire())
                .insert("limit"@, self.limit.wire())
                .insert("filter"@, self.filter.wire()),
            "searchChatMembers"@,
        )
    }

    #[verifier::opaque]
    open spec fn parse(d: Doc, at: Seq<char>) -> Result<Doc, Fault> {
        match d {
            Doc::Object(m) => {
                let chat_id = field::<i64>(m, "chatId"@);
                let query = field::<String>(m, "query"@);
                let limit = field::<i32>(m, "limit"@);
                let filter = field::<ChatMembersFilter>(m, "filter"@);
                if chat_id is Err {
                    chat_id
                } else if query is Err {
                    query
                } else if limit is Err {
                    limit
                } else if filter is Err {
                    filter
                } else {
                    Ok(
                        tagged(
                            Map::empty()
                                .insert("chatId"@, chat_id->Ok_0)
                                .insert("query"@, query->Ok_0)
                                .insert("limit"@, limit->Ok_0)
                                .insert("filter"@, filter->Ok_0),
                            "searchChatMembers"@,
                        ),
                    )
                }
            },
            _ => Err(Fault::TypeMismatch(at)),
        }
    }

    fn encode(&self) -> (j: Json) {
        proof {
            reveal(<SearchChatMembers as Wire>::wire);
        }
        let mut members: Vec<Member> = Vec::new();
        put(&mut members, "chatId", self.chat_id.encode());
        put(&mut members, "query", self.query.encode());
        put(&mut members, "limit", self.limit.encode());
        put(&mut members, "filter", self.filter.encode());
        seal(members, "searchChatMembers")
    }

    fn decode(j: &Json, at: &str) -> (r: Result<Self, DecodeError>) {
        proof {
            reveal(<SearchChatMembers as Wire>::wire);
            reveal(<SearchChatMembers as Wire>::parse);
        }
        let members = members_of(j, at)?;
        let chat_id = read_field::<i64>(members, "chatId")?;
        let query = read_field::<String>(members, "query")?;
        let limit = read_field::<i32>(members, "limit")?;
        let filter = read_field::<ChatMembersFilter>(members, "filter")?;
        Ok(SearchChatMembers { chat_id, query, limit, filter })
    }

    proof fn round_trip(&self, at: Seq<char>) {
        reveal(<SearchChatMembers as Wire>::wire);
        reveal(<SearchChatMembers as Wire>::parse);
        reveal_strlit("@type");
        reveal_strlit("chatId");
        reveal_strlit("filter");
        reveal_strlit("limit");
        reveal_strlit("query");
        assert("@type"@.len() == 5 && "@type"@[0] == '@');
        assert("chatId"@.len() == 6 && "chatId"@[0] == 'c');
        assert("filter"@.len() == 6 && "filter"@[0] == 'f');
        assert("limit"@.len() == 5 && "limit"@[0] == 'l');
        assert("query"@.len() == 5 && "query"@[0] == 'q');
        self.chat_id.round_trip("chatId"@);
        self.query.round_trip("query"@);
        self.limit.round_trip("limit"@);
        self.filter.round_trip("filter"@);
    }
}

impl Tagged for SearchChatMembers {
    open spec fn known(tag: Seq<char>) -> bool {
        tag == "searchChatMembers"@
    }

    fn knows(tag: &str) -> (r: bool) {
        same_text(tag, "searchChatMembers")
    }

    proof fn tag_known(&self) {
        reveal(<SearchChatMembers as Wire>::wire);
        assert(tag_of(self.wire()) == Some("searchChatMembers"@));
        assert(Self::known("searchChatMembers"@));
    }
}

impl Method for SearchChatMembers {
    const TYPE: &'static str = "searchChatMembers";

    type Response = ChatMembers;

    proof fn type_is_tag(&self) {
        reveal(<SearchChatMembers as Wire>::wire);
        assert(tag_of(self.wire()) == Some("searchChatMembers"@));
    }
}

/// Returns a list of administrators of the chat with their custom titles
#[derive(Debug, Clone)]
pub struct GetChatAdministrators {
    /// Chat identifier
    pub chat_id: i64,
}

impl Wire for GetChatAdministrators {
    #[verifier::opaque]
    open spec fn wire(&self) -> Doc {
        tagged(
            Map::empty()
                .insert("chatId"@, self.chat_id.wire()),
            "getChatAdministrators"@,
        )
    }

    #[verifier::opaque]
    open spec fn parse(d: Doc, at: Seq<char>) -> Result<Doc, Fault> {
        match d {
            Doc::Object(m) => {
                let chat_id = field::<i64>(m, "chatId"@);
                if chat_id is Err {
                    chat_id
                } else {
                    Ok(
                        tagged(
                            Map::empty()
                                .insert("chatId"@, chat_id->Ok_0),
                            "getChatAdministrators"@,
                        ),
                    )
                }
            },
            _ => Err(Fault::TypeMismatch(at)),
        }
    }

    fn encode(&self) -> (j: Json) {
        proof {
            reveal(<GetChatAdministrators as Wire>::wire);
        }
        let mut members: Vec<Member> = Vec::new();
        put(&mut members, "chatId", self.chat_id.encode());
        seal(members, "getChatAdministrators")
    }

    fn decode(j: &Json, at: &str) -> (r: Result<Self, DecodeError>) {
        proof {
            reveal(<GetChatAdministrators as Wire>::wire);
            reveal(<GetChatAdministrators as Wire>::parse);
        }
        let members = members_of(j, at)?;
        let chat_id = read_field::<i64>(members, "chatId")?;
        Ok(GetChatAdministrators { chat_id })
    }

    proof fn round_trip(&self, at: Seq<char>) {
        reveal(<GetChatAdministrators as Wire>::wire);
        reveal(<GetChatAdministrators as Wire>::parse);
        reveal_strlit("@type");
        reveal_strlit("chatId");
        assert("@type"@.len() == 5);
        assert("chatId"@.len() == 6);
        self.chat_id.round_trip("chatId"@);
    }
}

impl Tagged for GetChatAdministrators {
    open spec fn known(tag: Seq<char>) -> bool {
        tag == "getChatAdministrators"@
    }

    fn knows(tag: &str) -> (r: bool) {
        same_text(tag, "getChatAdministrators")
    }

    proof fn tag_known(&self) {
        reveal(<GetChatAdministrators as Wire>::wire);
        assert(tag_of(self.wire()) == Some("getChatAdministrators"@));
        assert(Self::known("getChatAdministrators"@));
    }
}

impl Method for GetChatAdministrators {
    const TYPE: &'static str = "getChatAdministrators";

    type Response = ChatAdministrators;

    proof fn type_is_tag(&self) {
        reveal(<GetChatAdministrators as Wire>::wire);
        assert(tag_of(self.wire()) == Some("getChatAdministrators"@));
    }
}

/// Clears draft messages in all chats
#[derive(Debug, Clone)]
pub struct ClearAllDraftMessages {
    /// If true, local draft messages in secret chats will not be cleared
    pub exclude_secret_chats: bool,
}

impl Wire for ClearAllDraftMessages {
    #[verifier::opaque]
    open spec fn wire(&self) -> Doc {
        tagged(
            Map::empty()
                .insert("excludeSecretChats"@, self.exclude_secret_chats.wire()),
            "clearAllDraftMessages"@,
        )
    }

    #[verifier::opaque]
    open spec fn parse(d: Doc, at: Seq<char>) -> Result<Doc, Fault> {
        match d {
            Doc::Object(m) => {
                let exclude_secret_chats = field::<bool>(m, "excludeSecretChats"@);
                if exclude_secret_chats is Err {
                    exclude_secret_chats
                } else {
                    Ok(
                        tagged(
                            Map::empty()
                                .insert("excludeSecretChats"@, exclude_secret_chats->Ok_0),
                            "clearAllDraftMessages"@,
                        ),
                    )
                }
            },
            _ => Err(Fault::TypeMismatch(at)),
        }
    }

    fn encode(&self) -> (j: Json) {
        proof {
            reveal(<ClearAllDraftMessages as Wire>::wire);
        }
        let mut members: Vec<Member> = Vec::new();
        put(&mut members, "excludeSecretChats", self.exclude_secret_chats.encode());
        seal(members, "clearAllDraftMessages")
    }

    fn decode(j: &Json, at: &str) -> (r: Result<Self, DecodeError>) {
        proof {
            reveal(<ClearAllDraftMessages as Wire>::wire);
            reveal(<ClearAllDraftMessages as Wire>::parse);
        }
        let members = members_of(j, at)?;
        let exclude_secret_chats = read_field::<bool>(members, "excludeSecretChats")?;
        Ok(ClearAllDraftMessages { exclude_secret_chats })
    }

    proof fn round_trip(&self, at: Seq<char>) {
        reveal(<ClearAllDraftMessages as Wire>::wire);
        reveal(<ClearAllDraftMessages as Wire>::parse);
        reveal_strlit("@type");
        reveal_strlit("excludeSecretChats");
        assert("@type"@.len() == 5);
        assert("excludeSecretChats"@.len() == 18);
        self.exclude_secret_chats.round_trip("excludeSecretChats"@);
    }
}

impl Tagged for ClearAllDraftMessages {
    open spec fn known(tag: Seq<char>) -> bool {
        tag == "clearAllDraftMessages"@
    }

    fn knows(tag: &str) -> (r: bool) {
        same_text(tag, "clearAllDraftMessages")
    }

    proof fn tag_known(&self) {
        reveal(<ClearAllDraftMessages as Wire>::wire);
        assert(tag_of(self.wire()) == Some("clearAllDraftMessages"@));
        assert(Self::known("clearAllDraftMessages"@));
    }
}

impl Method for ClearAllDraftMessages {
    const TYPE: &'static str = "clearAllDraftMessages";

    type Response = Okay;

    proof fn type_is_tag(&self) {
        reveal(<ClearAllDraftMessages as Wire>::wire);
        assert(tag_of(self.wire()) == Some("clearAllDraftMessages"@));
    }
}

/// Returns list of chats with non-default notification settings
#[derive(Debug, Clone)]
pub struct GetChatNotificationSettingsExceptions {
    /// If specified, only chats from the specified scope will be returned
    pub scope: NotificationSettingsScope,
    /// If true, also chats with non-default sound will be returned
    pub compare_sound: bool,
}

impl Wire for GetChatNotificationSettingsExceptions {
    #[verifier::opaque]
    open spec fn wire(&self) -> Doc {
        tagged(
            Map::empty()
                .insert("scope"@, self.scope.wire())
                .insert("compareSound"@, self.compare_sound.wire()),
            "getChatNotificationSettingsExceptions"@,
        )
    }

    #[verifier::opaque]
    open spec fn parse(d: Doc, at: Seq<char>) -> Result<Doc, Fault> {
        match d {
            Doc::Object(m) => {
                let scope = field::<NotificationSettingsScope>(m, "scope"@);
                let compare_sound = field::<bool>(m, "compareSound"@);
                if scope is Err {
                    scope
                } else if compare_sound is Err {
                    compare_sound
                } else {
                    Ok(
                        tagged(
                            Map::empty()
                                .insert("scope"@, scope->Ok_0)
                                .insert("compareSound"@, compare_sound->Ok_0),
                            "getChatNotificationSettingsExceptions"@,
                        ),
                    )
                }
            },
            _ => Err(Fault::TypeMismatch(at)),
        }
    }

    fn encode(&self) -> (j: Json) {
        proof {
            reveal(<GetChatNotificationSettingsExceptions as Wire>::wire);
        }
        let mut members: Vec<Member> = Vec::new();
        put(&mut members, "scope", self.scope.encode());
        put(&mut members, "compareSound", self.compare_sound.encode());
        seal(members, "getChatNotificationSettingsExceptions")
    }

    fn decode(j: &Json, at: &str) -> (r: Result<Self, DecodeError>) {
        proof {
            reveal(<GetChatNotificationSettingsExceptions as Wire>::wire);
            reveal(<GetChatNotificationSettingsExceptions as Wire>::parse);
        }
        let members = members_of(j, at)?;
        let scope = read_field::<NotificationSettingsScope>(members, "scope")?;
        let compare_sound = read_field::<bool>(members, "compareSound")?;
        Ok(GetChatNotificationSettingsExceptions { scope, compare_sound })
    }

    proof fn round_trip(&self, at: Seq<char>) {
        reveal(<GetChatNotificationSettingsExceptions as Wire>::wire);
        reveal(<GetChatNotificationSettingsExceptions as Wire>::parse);
        reveal_strlit("@type");
        reveal_strlit("compareSound");
        reveal_strlit("scope");
        assert("@type"@.len() == 5 && "@type"@[0] == '@');
        assert("compareSound"@.len() == 12);
        assert("scope"@.len() == 5 && "scope"@[0] == 's');
        self.scope.round_trip("scope"@);
        self.compare_sound.round_trip("compareSound"@);
    }
}

impl Tagged for GetChatNotificationSettingsExceptions {
    open spec fn known(tag: Seq<char>) -> bool {
        tag == "getChatNotificationSettingsExceptions"@
    }

    fn knows(tag: &str) -> (r: bool) {
        same_text(tag, "getChatNotificationSettingsExceptions")
    }

    proof fn tag_known(&self) {
        reveal(<GetChatNotificationSettingsExceptions as Wire>::wire);
        assert(tag_of(self.wire()) == Some("getChatNotificationSettingsExceptions"@));
        assert(Self::known("getChatNotificationSettingsExceptions"@));
    }
}

impl Method for GetChatNotificationSettingsExceptions {
    const TYPE: &'static str = "getChatNotificationSettingsExceptions";

    type Response = Chats;

    proof fn type_is_tag(&self) {
        reveal(<GetChatNotificationSettingsExceptions as Wire>::wire);
        assert(tag_of(self.wire()) == Some("getChatNotificationSettingsExceptions"@));
    }
}

/// Returns the notification settings for chats of a given type
#[derive(Debug, Clone)]
pub struct GetScopeNotificationSettings {
    /// Types of chats for which to return the notification settings information
    pub scope: NotificationSettingsScope,
}

impl Wire for GetScopeNotificationSettings {
    #[verifier::opaque]
    open spec fn wire(&self) -> Doc {
        tagged(
            Map::empty()
                .insert("scope"@, self.scope.wire()),
            "getScopeNotificationSettings"@,
        )
    }

    #[verifier::opaque]
    open spec fn parse(d: Doc, at: Seq<char>) -> Result<Doc, Fault> {
        match d {
            Doc::Object(m) => {
                let scope = field::<NotificationSettingsScope>(m, "scope"@);
                if scope is Err {
                    scope
                } else {
                    Ok(
                        tagged(
                            Map::empty()
                                .insert("scope"@, scope->Ok_0),
                            "getScopeNotificationSettings"@,
                        ),
                    )
                }
            },
            _ => Err(Fault::TypeMismatch(at)),
        }
    }

    fn encode(&self) -> (j: Json) {
        proof {
            reveal(<GetScopeNotificationSettings as Wire>::wire);
        }
        let mut members: Vec<Member> = Vec::new();
        put(&mut members, "scope", self.scope.encode());
        seal(members, "getScopeNotificationSettings")
    }

    fn decode(j: &Json, at: &str) -> (r: Result<Self, DecodeError>) {
        proof {
            reveal(<GetScopeNotificationSettings as Wire>::wire);
            reveal(<GetScopeNotificationSettings as Wire>::parse);
        }
        let members = members_of(j, at)?;
        let scope = read_field::<NotificationSettingsScope>(members, "scope")?;
        Ok(GetScopeNotificationSettings { scope })
    }

    proof fn round_trip(&self, at: Seq<char>) {
        reveal(<GetScopeNotificationSettings as Wire>::wire);
        reveal(<GetScopeNotificationSettings as Wire>::parse);
        reveal_strlit("@type");
        reveal_strlit("scope");
        assert("@type"@.len() == 5 && "@type"@[0] == '@');
        assert("scope"@.len() == 5 && "scope"@[0] == 's');
        self.scope.round_trip("scope"@);
    }
}

impl Tagged for GetScopeNotificationSettings {
    open spec fn known(tag: Seq<char>) -> bool {
        tag == "getScopeNotificationSettings"@
    }

    fn knows(tag: &str) -> (r: bool) {
        same_text(tag, "getScopeNotificationSettings")
    }

    proof fn tag_known(&self) {
        reveal(<GetScopeNotificationSettings as Wire>::wire);
        assert(tag_of(self.wire()) == Some("getScopeNotificationSettings"@));
        assert(Self::known("getScopeNotificationSettings"@));
    }
}

impl Method for GetScopeNotificationSettings {
    const TYPE: &'static str = "getScopeNotificationSettings";

    type Response = ScopeNotificationSettings;

    proof fn type_is_tag(&self) {
        reveal(<GetScopeNotificationSettings as Wire>::wire);
        assert(tag_of(self.wire()) == Some("getScopeNotificationSettings"@));
    }
}

/// Changes notification settings for chats of a given type
#[derive(Debug, Clone)]
pub struct SetScopeNotificationSettings {
    /// Types of chats for which to change the notification settings
    pub scope: NotificationSettingsScope,
    /// The new notification settings for the given scope
    pub notification_settings: ScopeNotificationSettings,
}

impl Wire for SetScopeNotificationSettings {
    #[verifier::opaque]
    open spec fn wire(&self) -> Doc {
        tagged(
            Map::empty()
                .insert("scope"@, self.scope.wire())
                .insert("notificationSettings"@, self.notification_settings.wire()),
            "setScopeNotificationSettings"@,
        )
    }

    #[verifier::opaque]
    open spec fn parse(d: Doc, at: Seq<char>) -> Result<Doc, Fault> {
        match d {
            Doc::Object(m) => {
                let scope = field::<NotificationSettingsScope>(m, "scope"@);
                let notification_settings = field::<ScopeNotificationSettings>(
                    m,
                    "notificationSettings"@,
                );
                if scope is Err {
                    scope
                } else if notification_settings is Err {
                    notification_settings
                } else {
                    Ok(
                        tagged(
                            Map::empty()
                                .insert("scope"@, scope->Ok_0)
                                .insert("notificationSettings"@, notification_settings->Ok_0),
                            "setScopeNotificationSettings"@,
                        ),
                    )
                }
            },
            _ => Err(Fault::TypeMismatch(at)),
        }
    }

    fn encode(&self) -> (j: Json) {
        proof {
            reveal(<SetScopeNotificationSettings as Wire>::wire);
        }
        let mut members: Vec<Member> = Vec::new();
        put(&mut members, "scope", self.scope.encode());
        put(&mut members, "notificationSettings", self.notification_settings.encode());
        seal(members, "setScopeNotificationSettings")
    }

    fn decode(j: &Json, at: &str) -> (r: Result<Self, DecodeError>) {
        proof {
            reveal(<SetScopeNotificationSettings as Wire>::wire);
            reveal(<SetScopeNotificationSettings as Wire>::parse);
        }
        let members = members_of(j, at)?;
        let scope = read_field::<NotificationSettingsScope>(members, "scope")?;
        let notification_settings = read_field::<ScopeNotificationSettings>(
            members,
            "notificationSettings",
        )?;
        Ok(SetScopeNotificationSettings { scope, notification_settings })
    }

    proof fn round_trip(&self, at: Seq<char>) {
        reveal(<SetScopeNotificationSettings as Wire>::wire);
        reveal(<SetScopeNotificationSettings as Wire>::parse);
        reveal_strlit("@type");
        reveal_strlit("notificationSettings");
        reveal_strlit("scope");
        assert("@type"@.len() == 5 && "@type"@[0] == '@');
        assert("notificationSettings"@.len() == 20);
        assert("scope"@.len() == 5 && "scope"@[0] == 's');
        self.scope.round_trip("scope"@);
        self.notification_settings.round_trip("notificationSettings"@);
    }
}

impl Tagged for SetScopeNotificationSettings {
    open spec fn known(tag: Seq<char>) -> bool {
        tag == "setScopeNotificationSettings"@
    }

    fn knows(tag: &str) -> (r: bool) {
        same_text(tag, "setScopeNotificationSettings")
    }

    proof fn tag_known(&self) {
        reveal(<SetScopeNotificationSettings as Wire>::wire);
        assert(tag_of(self.wire()) == Some("setScopeNotificationSettings"@));
        assert(Self::known("setScopeNotificationSettings"@));
    }
}

impl Method for SetScopeNotificationSettings {
    const TYPE: &'static str = "setScopeNotificationSettings";

    type Response = Okay;

    proof fn type_is_tag(&self) {
        reveal(<SetScopeNotificationSettings as Wire>::wire);
        assert(tag_of(self.wire()) == Some("setScopeNotificationSettings"@));
    }
}

/// Resets all notification settings to their default values. By default, all chats are unmuted, the
/// sound is set to "default" and message previews are shown
#[derive(Debug, Clone)]
pub struct ResetAllNotificationSettings {}

impl Wire for ResetAllNotificationSettings {
    #[verifier::opaque]
    open spec fn wire(&self) -> Doc {
        tagged(Map::empty(), "resetAllNotificationSettings"@)
    }

    #[verifier::opaque]
    open spec fn parse(d: Doc, at: Seq<char>) -> Result<Doc, Fault> {
        match d {
            Doc::Object(_) => Ok(tagged(Map::empty(), "resetAllNotificationSettings"@)),
            _ => Err(Fault::TypeMismatch(at)),
        }
    }

    fn encode(&self) -> (j: Json) {
        proof {
            reveal(<ResetAllNotificationSettings as Wire>::wire);
        }
        seal(Vec::new(), "resetAllNotificationSettings")
    }

    fn decode(j: &Json, at: &str) -> (r: Result<Self, DecodeError>) {
        proof {
            reveal(<ResetAllNotificationSettings as Wire>::wire);
            reveal(<ResetAllNotificationSettings as Wire>::parse);
        }
        let _ = members_of(j, at)?;
        Ok(ResetAllNotificationSettings {})
    }

    proof fn round_trip(&self, at: Seq<char>) {
        reveal(<ResetAllNotificationSettings as Wire>::wire);
        reveal(<ResetAllNotificationSettings as Wire>::parse);
    }
}

impl Tagged for ResetAllNotificationSettings {
    open spec fn known(tag: Seq<char>) -> bool {
        tag == "resetAllNotificationSettings"@
    }

    fn knows(tag: &str) -> (r: bool) {
        same_text(tag, "resetAllNotificationSettings")
    }

    proof fn tag_known(&self) {
        reveal(<ResetAllNotificationSettings as Wire>::wire);
        assert(tag_of(self.wire()) == Some("resetAllNotificationSettings"@));
        assert(Self::known("resetAllNotificationSettings"@));
    }
}

impl Method for ResetAllNotificationSettings {
    const TYPE: &'static str = "resetAllNotificationSettings";

    type Response = Okay;

    proof fn type_is_tag(&self) {
        reveal(<ResetAllNotificationSettings as Wire>::wire);
        assert(tag_of(self.wire()) == Some("resetAllNotificationSettings"@));
    }
}

/// Changes the order of pinned chats
#[derive(Debug, Clone)]
pub struct SetPinnedChats {
    /// Chat list in which to change the order of pinned chats
    pub chat_list: ChatList,
    /// The new list of pinned chats
    pub chat_ids: Vec<i64>,
}

impl Wire for SetPinnedChats {
    #[verifier::opaque]
    open spec fn wire(&self) -> Doc {
        tagged(
            Map::empty()
                .insert("chatList"@, self.chat_list.wire())
                .insert("chatIds"@, self.chat_ids.wire()),
            "setPinnedChats"@,
        )
    }

    #[verifier::opaque]
    open spec fn parse(d: Doc, at: Seq<char>) -> Result<Doc, Fault> {
        match d {
            Doc::Object(m) => {
                let chat_list = field::<ChatList>(m, "chatList"@);
                let chat_ids = field::<Vec<i64>>(m, "chatIds"@);
                if chat_list is Err {
                    chat_list
                } else if chat_ids is Err {
                    chat_ids
                } else {
                    Ok(
                        tagged(
                            Map::empty()
                                .insert("chatList"@, chat_list->Ok_0)
                                .insert("chatIds"@, chat_ids->Ok_0),
                            "setPinnedChats"@,
                        ),
                    )
                }
            },
            _ => Err(Fault::TypeMismatch(at)),
        }
    }

    fn encode(&self) -> (j: Json) {
        proof {
            reveal(<SetPinnedChats as Wire>::wire);
        }
        let mut members: Vec<Member> = Vec::new();
        put(&mut members, "chatList", self.chat_list.encode());
        put(&mut members, "chatIds", self.chat_ids.encode());
        seal(members, "setPinnedChats")
    }

    fn decode(j: &Json, at: &str) -> (r: Result<Self, DecodeError>) {
        proof {
            reveal(<SetPinnedChats as Wire>::wire);
            reveal(<SetPinnedChats as Wire>::parse);
        }
        let members = members_of(j, at)?;
        let chat_list = read_field::<ChatList>(members, "chatList")?;
        let chat_ids = read_field::<Vec<i64>>(members, "chatIds")?;
        Ok(SetPinnedChats { chat_list, chat_ids })
    }

    proof fn round_trip(&self, at: Seq<char>) {
        reveal(<SetPinnedChats as Wire>::wire);
        reveal(<SetPinnedChats as Wire>::parse);
        reveal_strlit("@type");
        reveal_strlit("chatIds");
        reveal_strlit("chatList");
        assert("@type"@.len() == 5);
        assert("chatIds"@.len() == 7);
        assert("chatList"@.len() == 8);
        self.chat_list.round_trip("chatList"@);
        self.chat_ids.round_trip("chatIds"@);
    }
}

impl Tagged for SetPinnedChats {
    open spec fn known(tag: Seq<char>) -> bool {
        tag == "setPinnedChats"@
    }

    fn knows(tag: &str) -> (r: bool) {
        same_text(tag, "setPinnedChats")
    }

    proof fn tag_known(&self) {
        reveal(<SetPinnedChats as Wire>::wire);
        assert(tag_of(self.wire()) == Some("setPinnedChats"@));
        assert(Self::known("setPinnedChats"@));
    }
}

impl Method for SetPinnedChats {
    const TYPE: &'static str = "setPinnedChats";

    type Response = Okay;

    proof fn type_is_tag(&self) {
        reveal(<SetPinnedChats as Wire>::wire);
        assert(tag_of(self.wire()) == Some("setPinnedChats"@));
    }
}

/// Downloads a file from the cloud. Download progress and completion of the download will be
/// notified through updateFile updates
#[derive(Debug, Clone)]
pub struct DownloadFile {
    /// Identifier of the file to download
    pub file_id: i32,
    /// Priority of the download (1-32). The higher the priority, the earlier the file will be
    /// downloaded. If the priorities of two files are equal, then the last one for which
    /// downloadFile was called will be downloaded first
    pub priority: i32,
    /// The starting position from which the file should be downloaded
    pub offset: i32,
    /// Number of bytes which should be downloaded starting from the "offset" position before the
    /// download will be automatically cancelled; use 0 to download without a limit
    pub limit: i32,
    /// If false, this request returns file state just after the download has been started. If true,
    /// this request returns file state only after the download has succeeded, has failed, has been
    /// cancelled or a new downloadFile request with different offset/limit parameters was sent
    pub synchronous: bool,
}

impl Wire for DownloadFile {
    #[verifier::opaque]
    open spec fn wire(&self) -> Doc {
        tagged(
            Map::empty()
                .insert("fileId"@, self.file_id.wire())
                .insert("priority"@, self.priority.wire())
                .insert("offset"@, self.offset.wire())
                .insert("limit"@, self.limit.wire())
                .insert("synchronous"@, self.synchronous.wire()),
            "downloadFile"@,
        )
    }

    #[verifier::opaque]
    open spec fn parse(d: Doc, at: Seq<char>) -> Result<Doc, Fault> {
        match d {
            Doc::Object(m) => {
                let file_id = field::<i32>(m, "fileId"@);
                let priority = field::<i32>(m, "priority"@);
                let offset = field::<i32>(m, "offset"@);
                let limit = field::<i32>(m, "limit"@);
                let synchronous = field::<bool>(m, "synchronous"@);
                if file_id is Err {
                    file_id
                } else if priority is Err {
                    priority
                } else if offset is Err {
                    offset
                } else if limit is Err {
                    limit
                } else if synchronous is Err {
                    synchronous
                } else {
                    Ok(
                        tagged(
                            Map::empty()
                                .insert("fileId"@, file_id->Ok_0)
                                .insert("priority"@, priority->Ok_0)
                                .insert("offset"@, offset->Ok_0)
                                .insert("limit"@, limit->Ok_0)
                                .insert("synchronous"@, synchronous->Ok_0),
                            "downloadFile"@,
                        ),
                    )
                }
            },
            _ => Err(Fault::TypeMismatch(at)),
        }
    }

    fn encode(&self) -> (j: Json) {
        proof {
            reveal(<DownloadFile as Wire>::wire);
        }
        let mut members: Vec<Member> = Vec::new();
        put(&mut members, "fileId", self.file_id.encode());
        put(&mut members, "priority", self.priority.encode());
        put(&mut members, "offset", self.offset.encode());
        put(&mut members, "limit", self.limit.encode());
        put(&mut members, "synchronous", self.synchronous.encode());
        seal(members, "downloadFile")
    }

    fn decode(j: &Json, at: &str) -> (r: Result<Self, DecodeError>) {
        proof {
            reveal(<DownloadFile as Wire>::wire);
            reveal(<DownloadFile as Wire>::parse);
        }
        let members = members_of(j, at)?;
        let file_id = read_field::<i32>(members, "fileId")?;
        let priority = read_field::<i32>(members, "priority")?;
        let offset = read_field::<i32>(members, "offset")?;
        let limit = read_field::<i32>(members, "limit")?;
        let synchronous = read_field::<bool>(members, "synchronous")?;
        Ok(DownloadFile { file_id, priority, offset, limit, synchronous })
    }

    proof fn round_trip(&self, at: Seq<char>) {
        reveal(<DownloadFile as Wire>::wire);
        reveal(<DownloadFile as Wire>::parse);
        reveal_strlit("@type");
        reveal_strlit("fileId");
        reveal_strlit("limit");
        reveal_strlit("offset");
        reveal_strlit("priority");
        reveal_strlit("synchronous");
        assert("@type"@.len() == 5 && "@type"@[0] == '@');
        assert("fileId"@.len() == 6 && "fileId"@[0] == 'f');
        assert("limit"@.len() == 5 && "limit"@[0] == 'l');
        assert("offset"@.len() == 6 && "offset"@[0] == 'o');
        assert("priority"@.len() == 8);
        assert("synchronous"@.len() == 11);
        self.file_id.round_trip("fileId"@);
        self.priority.round_trip("priority"@);
        self.offset.round_trip("offset"@);
        self.limit.round_trip("limit"@);
        self.synchronous.round_trip("synchronous"@);
    }
}

impl Tagged for DownloadFile {
    open spec fn known(tag: Seq<char>) -> bool {
        tag == "downloadFile"@
    }

    fn knows(tag: &str) -> (r: bool) {
        same_text(tag, "downloadFile")
    }

    proof fn tag_known(&self) {
        reveal(<DownloadFile as Wire>::wire);
        assert(tag_of(self.wire()) == Some("downloadFile"@));
        assert(Self::known("downloadFile"@));
    }
}

impl Method for DownloadFile {
    const TYPE: &'static str = "downloadFile";

    type Response = File;

    proof fn type_is_tag(&self) {
        reveal(<DownloadFile as Wire>::wire);
        assert(tag_of(self.wire()) == Some("downloadFile"@));
    }
}

/// Returns file downloaded prefix size from a given offset
#[derive(Debug, Clone)]
pub struct GetFileDownloadedPrefixSize {
    /// Identifier of the file
    pub file_id: i32,
    /// Offset from which downloaded prefix size should be calculated
    pub offset: i32,
}

impl Wire for GetFileDownloadedPrefixSize {
    #[verifier::opaque]
    open spec fn wire(&self) -> Doc {
        tagged(
            Map::empty()
                .insert("fileId"@, self.file_id.wire())
                .insert("offset"@, self.offset.wire()),
            "getFileDownloadedPrefixSize"@,
        )
    }

    #[verifier::opaque]
    open spec fn parse(d: Doc, at: Seq<char>) -> Result<Doc, Fault> {
        match d {
            Doc::Object(m) => {
                let file_id = field::<i32>(m, "fileId"@);
                let offset = field::<i32>(m, "offset"@);
                if file_id is Err {
                    file_id
                } else if offset is Err {
                    offset
                } else {
                    Ok(
                        tagged(
                            Map::empty()
                                .insert("fileId"@, file_id->Ok_0)
                                .insert("offset"@, offset->Ok_0),
                            "getFileDownloadedPrefixSize"@,
                        ),
                    )
                }
            },
            _ => Err(Fault::TypeMismatch(at)),
        }
    }

    fn encode(&self) -> (j: Json) {
        proof {
            reveal(<GetFileDownloadedPrefixSize as Wire>::wire);
        }
        let mut members: Vec<Member> = Vec::new();
        put(&mut members, "fileId", self.file_id.encode());
        put(&mut members, "offset", self.offset.encode());
        seal(members, "getFileDownloadedPrefixSize")
    }

    fn decode(j: &Json, at: &str) -> (r: Result<Self, DecodeError>) {
        proof {
            reveal(<GetFileDownloadedPrefixSize as Wire>::wire);
            reveal(<GetFileDownloadedPrefixSize as Wire>::parse);
        }
        let members = members_of(j, at)?;
        let file_id = read_field::<i32>(members, "fileId")?;
        let offset = read_field::<i32>(members, "offset")?;
        Ok(GetFileDownloadedPrefixSize { file_id, offset })
    }

    proof fn round_trip(&self, at: Seq<char>) {
        reveal(<GetFileDownloadedPrefixSize as Wire>::wire);
        reveal(<GetFileDownloadedPrefixSize as Wire>::parse);
        reveal_strlit("@type");
        reveal_strlit("fileId");
        reveal_strlit("offset");
        assert("@type"@.len() == 5);
        assert("fileId"@.len() == 6 && "fileId"@[0] == 'f');
        assert("offset"@.len() == 6 && "offset"@[0] == 'o');
        self.file_id.round_trip("fileId"@);
        self.offset.round_trip("offset"@);
    }
}

impl Tagged for GetFileDownloadedPrefixSize {
    open spec fn known(tag: Seq<char>) -> bool {
        tag == "getFileDownloadedPrefixSize"@
    }

    fn knows(tag: &str) -> (r: bool) {
        same_text(tag, "getFileDownloadedPrefixSize")
    }

    proof fn tag_known(&self) {
        reveal(<GetFileDownloadedPrefixSize as Wire>::wire);
        assert(tag_of(self.wire()) == Some("getFileDownloadedPrefixSize"@));
        assert(Self::known("getFileDownloadedPrefixSize"@));
    }
}

impl Method for GetFileDownloadedPrefixSize {
    const TYPE: &'static str = "getFileDownloadedPrefixSize";

    type Response = Count;

    proof fn type_is_tag(&self) {
        reveal(<GetFileDownloadedPrefixSize as Wire>::wire);
        assert(tag_of(self.wire()) == Some("getFileDownloadedPrefixSize"@));
    }
}

/// Stops the downloading of a file. If a file has already been downloaded, does nothing
#[derive(Debug, Clone)]
pub struct CancelDownloadFile {
    /// Identifier of a file to stop downloading
    pub file_id: i32,
    /// Pass true to stop downloading only if it hasn't been started, i.e. request hasn't been sent
    /// to server
    pub only_if_pending: bool,
}

impl Wire for CancelDownloadFile {
    #[verifier::opaque]
    open spec fn wire(&self) -> Doc {
        tagged(
            Map::empty()
                .insert("fileId"@, self.file_id.wire())
                .insert("onlyIfPending"@, self.only_if_pending.wire()),
            "cancelDownloadFile"@,
        )
    }

    #[verifier::opaque]
    open spec fn parse(d: Doc, at: Seq<char>) -> Result<Doc, Fault> {
        match d {
            Doc::Object(m) => {
                let file_id = field::<i32>(m, "fileId"@);
                let only_if_pending = field::<bool>(m, "onlyIfPending"@);
                if file_id is Err {
                    file_id
                } else if only_if_pending is Err {
                    only_if_pending
                } else {
                    Ok(
                        tagged(
                            Map::empty()
                                .insert("fileId"@, file_id->Ok_0)
                                .insert("onlyIfPending"@, only_if_pending->Ok_0),
                            "cancelDownloadFile"@,
                        ),
                    )
                }
            },
            _ => Err(Fault::TypeMismatch(at)),
        }
    }

    fn encode(&self) -> (j: Json) {
        proof {
            reveal(<CancelDownloadFile as Wire>::wire);
        }
        let mut members: Vec<Member> = Vec::new();
        put(&mut members, "fileId", self.file_id.encode());
        put(&mut members, "onlyIfPending", self.only_if_pending.encode());
        seal(members, "cancelDownloadFile")
    }

    fn decode(j: &Json, at: &str) -> (r: Result<Self, DecodeError>) {
        proof {
            reveal(<CancelDownloadFile as Wire>::wire);
            reveal(<CancelDownloadFile as Wire>::parse);
        }
        let members = members_of(j, at)?;
        let file_id = read_field::<i32>(members, "fileId")?;
        let only_if_pending = read_field::<bool>(members, "onlyIfPending")?;
        Ok(CancelDownloadFile { file_id, only_if_pending })
    }

    proof fn round_trip(&self, at: Seq<char>) {
        reveal(<CancelDownloadFile as Wire>::wire);
        reveal(<CancelDownloadFile as Wire>::parse);
        reveal_strlit("@type");
        reveal_strlit("fileId");
        reveal_strlit("onlyIfPending");
        assert("@type"@.len() == 5);
        assert("fileId"@.len() == 6);
        assert("onlyIfPending"@.len() == 13);
        self.file_id.round_trip("fileId"@);
        self.only_if_pending.round_trip("onlyIfPending"@);
    }
}

impl Tagged for CancelDownloadFile {
    open spec fn known(tag: Seq<char>) -> bool {
        tag == "cancelDownloadFile"@
    }

    fn knows(tag: &str) -> (r: bool) {
        same_text(tag, "cancelDownloadFile")
    }

    proof fn tag_known(&self) {
        reveal(<CancelDownloadFile as Wire>::wire);
        assert(tag_of(self.wire()) == Some("cancelDownloadFile"@));
        assert(Self::known("cancelDownloadFile"@));
    }
}

impl Method for CancelDownloadFile {
    const TYPE: &'static str = "cancelDownloadFile";

    type Response = Okay;

    proof fn type_is_tag(&self) {
        reveal(<CancelDownloadFile as Wire>::wire);
        assert(tag_of(self.wire()) == Some("cancelDownloadFile"@));
    }
}

/// Asynchronously uploads a file to the cloud without sending it in a message. updateFile will be
/// used to notify about upload progress and successful completion of the upload. The file will not
/// have a persistent remote identifier until it will be sent in a message
#[derive(Debug, Clone)]
pub struct UploadFile {
    /// File to upload
    pub file: InputFile,
    /// File type
    pub file_type: FileType,
    /// Priority of the upload (1-32). The higher the priority, the earlier the file will be
    /// uploaded. If the priorities of two files are equal, then the first one for which uploadFile
    /// was called will be uploaded first
    pub priority: i32,
}

impl Wire for UploadFile {
    #[verifier::opaque]
    open spec fn wire(&self) -> Doc {
        tagged(
            Map::empty()
                .insert("file"@, self.file.wire())
                .insert("fileType"@, self.file_type.wire())
                .insert("priority"@, self.priority.wire()),
            "uploadFile"@,
        )
    }

    #[verifier::opaque]
    open spec fn parse(d: Doc, at: Seq<char>) -> Result<Doc, Fault> {
        match d {
            Doc::Object(m) => {
                let file = field::<InputFile>(m, "file"@);
                let file_type = field::<FileType>(m, "fileType"@);
                let priority = field::<i32>(m, "priority"@);
                if file is Err {
                    file
                } else if file_type is Err {
                    file_type
                } else if priority is Err {
                    priority
                } else {
                    Ok(
                        tagged(
                            Map::empty()
                                .insert("file"@, file->Ok_0)
                                .insert("fileType"@, file_type->Ok_0)
                                .insert("priority"@, priority->Ok_0),
                            "uploadFile"@,
                        ),
                    )
                }
            },
            _ => Err(Fault::TypeMismatch(at)),
        }
    }

    fn encode(&self) -> (j: Json) {
        proof {
            reveal(<UploadFile as Wire>::wire);
        }
        let mut members: Vec<Member> = Vec::new();
        put(&mut members, "file", self.file.encode());
        put(&mut members, "fileType", self.file_type.encode());
        put(&mut members, "priority", self.priority.encode());
        seal(members, "uploadFile")
    }

    fn decode(j: &Json, at: &str) -> (r: Result<Self, DecodeError>) {
        proof {
            reveal(<UploadFile as Wire>::wire);
            reveal(<UploadFile as Wire>::parse);
        }
        let members = members_of(j, at)?;
        let file = read_field::<InputFile>(members, "file")?;
        let file_type = read_field::<FileType>(members, "fileType")?;
        let priority = read_field::<i32>(members, "priority")?;
        Ok(UploadFile { file, file_type, priority })
    }

    proof fn round_trip(&self, at: Seq<char>) {
        reveal(<UploadFile as Wire>::wire);
        reveal(<UploadFile as Wire>::parse);
        reveal_strlit("@type");
        reveal_strlit("file");
        reveal_strlit("fileType");
        reveal_strlit("priority");
        assert("@type"@.len() == 5);
        assert("file"@.len() == 4);
        assert("fileType"@.len() == 8 && "fileType"@[0] == 'f');
        assert("priority"@.len() == 8 && "priority"@[0] == 'p');
        self.file.round_trip("file"@);
        self.file_type.round_trip("fileType"@);
        self.priority.round_trip("priority"@);
    }
}

impl Tagged for UploadFile {
    open spec fn known(tag: Seq<char>) -> bool {
        tag == "uploadFile"@
    }

    fn knows(tag: &str) -> (r: bool) {
        same_text(tag, "uploadFile")
    }

    proof fn tag_known(&self) {
        reveal(<UploadFile as Wire>::wire);
        assert(tag_of(self.wire()) == Some("uploadFile"@));
        assert(Self::known("uploadFile"@));
    }
}

impl Method for UploadFile {
    const TYPE: &'static str = "uploadFile";

    type Response = File;

    proof fn type_is_tag(&self) {
        reveal(<UploadFile as Wire>::wire);
        assert(tag_of(self.wire()) == Some("uploadFile"@));
    }
}

/// Stops the uploading of a file. Supported only for files uploaded by using uploadFile. For other
/// files the behavior is undefined
#[derive(Debug, Clone)]
pub struct CancelUploadFile {
    /// Identifier of the file to stop uploading
    pub file_id: i32,
}

impl Wire for CancelUploadFile {
    #[verifier::opaque]
    open spec fn wire(&self) -> Doc {
        tagged(
            Map::empty()
                .insert("fileId"@, self.file_id.wire()),
            "cancelUploadFile"@,
        )
    }

    #[verifier::opaque]
    open spec fn parse(d: Doc, at: Seq<char>) -> Result<Doc, Fault> {
        match d {
            Doc::Object(m) => {
                let file_id = field::<i32>(m, "fileId"@);
                if file_id is Err {
                    file_id
                } else {
                    Ok(
                        tagged(
                            Map::empty()
                                .insert("fileId"@, file_id->Ok_0),
                            "cancelUploadFile"@,
                        ),
                    )
                }
            },
            _ => Err(Fault::TypeMismatch(at)),
        }
    }

    fn encode(&self) -> (j: Json) {
        proof {
            reveal(<CancelUploadFile as Wire>::wire);
        }
        let mut members: Vec<Member> = Vec::new();
        put(&mut members, "fileId", self.file_id.encode());
        seal(members, "cancelUploadFile")
    }

    fn decode(j: &Json, at: &str) -> (r: Result<Self, DecodeError>) {
        proof {
            reveal(<CancelUploadFile as Wire>::wire);
            reveal(<CancelUploadFile as Wire>::parse);
        }
        let members = members_of(j, at)?;
        let file_id = read_field::<i32>(members, "fileId")?;
        Ok(CancelUploadFile { file_id })
    }

    proof fn round_trip(&self, at: Seq<char>) {
        reveal(<CancelUploadFile as Wire>::wire);
        reveal(<CancelUploadFile as Wire>::parse);
        reveal_strlit("@type");
        reveal_strlit("fileId");
        assert("@type"@.len() == 5);
        assert("fileId"@.len() == 6);
        self.file_id.round_trip("fileId"@);
    }
}

impl Tagged for CancelUploadFile {
    open spec fn known(tag: Seq<char>) -> bool {
        tag == "cancelUploadFile"@
    }

    fn knows(tag: &str) -> (r: bool) {
        same_text(tag, "cancelUploadFile")
    }

    proof fn tag_known(&self) {
        reveal(<CancelUploadFile as Wire>::wire);
        assert(tag_of(self.wire()) == Some("cancelUploadFile"@));
        assert(Self::known("cancelUploadFile"@));
    }
}

impl Method for CancelUploadFile {
    const TYPE: &'static str = "cancelUploadFile";

    type Response = Okay;

    proof fn type_is_tag(&self) {
        reveal(<CancelUploadFile as Wire>::wire);
        assert(tag_of(self.wire()) == Some("cancelUploadFile"@));
    }
}

/// Writes a part of a generated file. This method is intended to be used only if the client has no
/// direct access to TDLib's file system, because it is usually slower than a direct write to the
/// destination file
#[derive(Debug, Clone)]
pub struct WriteGeneratedFilePart {
    /// The identifier of the generation process
    pub generation_id: i64,
    /// The offset from which to write the data to the file
    pub offset: i32,
    /// The data to write
    pub data: String,
}

impl Wire for WriteGeneratedFilePart {
    #[verifier::opaque]
    open spec fn wire(&self) -> Doc {
        tagged(
            Map::empty()
                .insert("generationId"@, wide_doc(self.generation_id))
                .insert("offset"@, self.offset.wire())
                .insert("data"@, self.data.wire()),
            "writeGeneratedFilePart"@,
        )
    }

    #[verifier::opaque]
    open spec fn parse(d: Doc, at: Seq<char>) -> Result<Doc, Fault> {
        match d {
            Doc::Object(m) => {
                let generation_id = wide_field(m, "generationId"@);
                let offset = field::<i32>(m, "offset"@);
                let data = field::<String>(m, "data"@);
                if generation_id is Err {
                    generation_id
                } else if offset is Err {
                    offset
                } else if data is Err {
                    data
                } else {
                    Ok(
                        tagged(
                            Map::empty()
                                .insert("generationId"@, generation_id->Ok_0)
                                .insert("offset"@, offset->Ok_0)
                                .insert("data"@, data->Ok_0),
                            "writeGeneratedFilePart"@,
                        ),
                    )
                }
            },
            _ => Err(Fault::TypeMismatch(at)),
        }
    }

    fn encode(&self) -> (j: Json) {
        proof {
            reveal(<WriteGeneratedFilePart as Wire>::wire);
        }
        let mut members: Vec<Member> = Vec::new();
        put(&mut members, "generationId", encode_wide(self.generation_id));
        put(&mut members, "offset", self.offset.encode());
        put(&mut members, "data", self.data.encode());
        seal(members, "writeGeneratedFilePart")
    }

    fn decode(j: &Json, at: &str) -> (r: Result<Self, DecodeError>) {
        proof {
            reveal(<WriteGeneratedFilePart as Wire>::wire);
            reveal(<WriteGeneratedFilePart as Wire>::parse);
        }
        let members = members_of(j, at)?;
        let generation_id = read_wide(members, "generationId")?;
        let offset = read_field::<i32>(members, "offset")?;
        let data = read_field::<String>(members, "data")?;
        Ok(WriteGeneratedFilePart { generation_id, offset, data })
    }

    proof fn round_trip(&self, at: Seq<char>) {
        reveal(<WriteGeneratedFilePart as Wire>::wire);
        reveal(<WriteGeneratedFilePart as Wire>::parse);
        reveal_strlit("@type");
        reveal_strlit("data");
        reveal_strlit("generationId");
        reveal_strlit("offset");
        assert("@type"@.len() == 5);
        assert("data"@.len() == 4);
        assert("generationId"@.len() == 12);
        assert("offset"@.len() == 6);
        lemma_wide_round_trip(self.generation_id, "generationId"@);
        self.offset.round_trip("offset"@);
        self.data.round_trip("data"@);
    }
}

impl Tagged for WriteGeneratedFilePart {
    open spec fn known(tag: Seq<char>) -> bool {
        tag == "writeGeneratedFilePart"@
    }

    fn knows(tag: &str) -> (r: bool) {
        same_text(tag, "writeGeneratedFilePart")
    }

    proof fn tag_known(&self) {
        reveal(<WriteGeneratedFilePart as Wire>::wire);
        assert(tag_of(self.wire()) == Some("writeGeneratedFilePart"@));
        assert(Self::known("writeGeneratedFilePart"@));
    }
}

impl Method for WriteGeneratedFilePart {
    const TYPE: &'static str = "writeGeneratedFilePart";

    type Response = Okay;

    proof fn type_is_tag(&self) {
        reveal(<WriteGeneratedFilePart as Wire>::wire);
        assert(tag_of(self.wire()) == Some("writeGeneratedFilePart"@));
    }
}

/// Informs TDLib on a file generation progress
#[derive(Debug, Clone)]
pub struct SetFileGenerationProgress {
    /// The identifier of the generation process
    pub generation_id: i64,
    /// Expected size of the generated file, in bytes; 0 if unknown
    pub expected_size: i32,
    /// The number of bytes already generated
    pub local_prefix_size: i32,
}

impl Wire for SetFileGenerationProgress {
    #[verifier::opaque]
    open spec fn wire(&self) -> Doc {
        tagged(
            Map::empty()
                .insert("generationId"@, wide_doc(self.generation_id))
                .insert("expectedSize"@, self.expected_size.wire())
                .insert("localPrefixSize"@, self.local_prefix_size.wire()),
            "setFileGenerationProgress"@,
        )
    }

    #[verifier::opaque]
    open spec fn parse(d: Doc, at: Seq<char>) -> Result<Doc, Fault> {
        match d {
            Doc::Object(m) => {
                let generation_id = wide_field(m, "generationId"@);
                let expected_size = field::<i32>(m, "expectedSize"@);
                let local_prefix_size = field::<i32>(m, "localPrefixSize"@);
                if generation_id is Err {
                    generation_id
                } else if expected_size is Err {
                    expected_size
                } else if local_prefix_size is Err {
                    local_prefix_size
                } else {
                    Ok(
                        tagged(
                            Map::empty()
                                .insert("generationId"@, generation_id->Ok_0)
                                .insert("expectedSize"@, expected_size->Ok_0)
                                .insert("localPrefixSize"@, local_prefix_size->Ok_0),
                            "setFileGenerationProgress"@,
                        ),
                    )
                }
            },
            _ => Err(Fault::TypeMismatch(at)),
        }
    }

    fn encode(&self) -> (j: Json) {
        proof {
            reveal(<SetFileGenerationProgress as Wire>::wire);
        }
        let mut members: Vec<Member> = Vec::new();
        put(&mut members, "generationId", encode_wide(self.generation_id));
        put(&mut members, "expectedSize", self.expected_size.encode());
        put(&mut members, "localPrefixSize", self.local_prefix_size.encode());
        seal(members, "setFileGenerationProgress")
    }

    fn decode(j: &Json, at: &str) -> (r: Result<Self, DecodeError>) {
        proof {
            reveal(<SetFileGenerationProgress as Wire>::wire);
            reveal(<SetFileGenerationProgress as Wire>::parse);
        }
        let members = members_of(j, at)?;
        let generation_id = read_wide(members, "generationId")?;
        let expected_size = read_field::<i32>(members, "expectedSize")?;
        let local_prefix_size = read_field::<i32>(members, "localPrefixSize")?;
        Ok(SetFileGenerationProgress { generation_id, expected_size, local_prefix_size })
    }

    proof fn round_trip(&self, at: Seq<char>) {
        reveal(<SetFileGenerationProgress as Wire>::wire);
        reveal(<SetFileGenerationProgress as Wire>::parse);
        reveal_strlit("@type");
        reveal_strlit("expectedSize");
        reveal_strlit("generationId");
        reveal_strlit("localPrefixSize");
        assert("@type"@.len() == 5);
        assert("expectedSize"@.len() == 12 && "expectedSize"@[0] == 'e');
        assert("generationId"@.len() == 12 && "generationId"@[0] == 'g');
        assert("localPrefixSize"@.len() == 15);
        lemma_wide_round_trip(self.generation_id, "generationId"@);
        self.expected_size.round_trip("expectedSize"@);
        self.local_prefix_size.round_trip("localPrefixSize"@);
    }
}

impl Tagged for SetFileGenerationProgress {
    open spec fn known(tag: Seq<char>) -> bool {
        tag == "setFileGenerationProgress"@
    }

    fn knows(tag: &str) -> (r: bool) {
        same_text(tag, "setFileGenerationProgress")
    }

    proof fn tag_known(&self) {
        reveal(<SetFileGenerationProgress as Wire>::wire);
        assert(tag_of(self.wire()) == Some("setFileGenerationProgress"@));
        assert(Self::known("setFileGenerationProgress"@));
    }
}

impl Method for SetFileGenerationProgress {
    const TYPE: &'static str = "setFileGenerationProgress";

    type Response = Okay;

    proof fn type_is_tag(&self) {
        reveal(<SetFileGenerationProgress as Wire>::wire);
        assert(tag_of(self.wire()) == Some("setFileGenerationProgress"@));
    }
}

/// Finishes the file generation
#[derive(Debug, Clone)]
pub struct FinishFileGeneration {
    /// The identifier of the generation process
    pub generation_id: i64,
    /// If set, means that file generation has failed and should be terminated
    pub error: Error,
}

impl Wire for FinishFileGeneration {
    #[verifier::opaque]
    open spec fn wire(&self) -> Doc {
        tagged(
            Map::empty()
                .insert("generationId"@, wide_doc(self.generation_id))
                .insert("error"@, self.error.wire()),
            "finishFileGeneration"@,
        )
    }

    #[verifier::opaque]
    open spec fn parse(d: Doc, at: Seq<char>) -> Result<Doc, Fault> {
        match d {
            Doc::Object(m) => {
                let generation_id = wide_field(m, "generationId"@);
                let error = field::<Error>(m, "error"@);
                if generation_id is Err {
                    generation_id
                } else if error is Err {
                    error
                } else {
                    Ok(
                        tagged(
                            Map::empty()
                                .insert("generationId"@, generation_id->Ok_0)
                                .insert("error"@, error->Ok_0),
                            "finishFileGeneration"@,
                        ),
                    )
                }
            },
            _ => Err(Fault::TypeMismatch(at)),
        }
    }

    fn encode(&self) -> (j: Json) {
        proof {
            reveal(<FinishFileGeneration as Wire>::wire);
        }
        let mut members: Vec<Member> = Vec::new();
        put(&mut members, "generationId", encode_wide(self.generation_id));
        put(&mut members, "error", self.error.encode());
        seal(members, "finishFileGeneration")
    }

    fn decode(j: &Json, at: &str) -> (r: Result<Self, DecodeError>) {
        proof {
            reveal(<FinishFileGeneration as Wire>::wire);
            reveal(<FinishFileGeneration as Wire>::parse);
        }
        let members = members_of(j, at)?;
        let generation_id = read_wide(members, "generationId")?;
        let error = read_field::<Error>(members, "error")?;
        Ok(FinishFileGeneration { generation_id, error })
    }

    proof fn round_trip(&self, at: Seq<char>) {
        reveal(<FinishFileGeneration as Wire>::wire);
        reveal(<FinishFileGeneration as Wire>::parse);
        reveal_strlit("@type");
        reveal_strlit("error");
        reveal_strlit("generationId");
        assert("@type"@.len() == 5 && "@type"@[0] == '@');
        assert("error"@.len() == 5 && "error"@[0] == 'e');
        assert("generationId"@.len() == 12);
        lemma_wide_round_trip(self.generation_id, "generationId"@);
        self.error.round_trip("error"@);
    }
}

impl Tagged for FinishFileGeneration {
    open spec fn known(tag: Seq<char>) -> bool {
        tag == "finishFileGeneration"@
    }

    fn knows(tag: &str) -> (r: bool) {
        same_text(tag, "finishFileGeneration")
    }

    proof fn tag_known(&self) {
        reveal(<FinishFileGeneration as Wire>::wire);
        assert(tag_of(self.wire()) == Some("finishFileGeneration"@));
        assert(Self::known("finishFileGeneration"@));
    }
}

impl Method for FinishFileGeneration {
    const TYPE: &'static str = "finishFileGeneration";

    type Response = Okay;

    proof fn type_is_tag(&self) {
        reveal(<FinishFileGeneration as Wire>::wire);
        assert(tag_of(self.wire()) == Some("finishFileGeneration"@));
    }
}

/// Reads a part of a file from the TDLib file cache and returns read bytes. This method is intended
/// to be used only if the client has no direct access to TDLib's file system, because it is usually
/// slower than a direct read from the file
#[derive(Debug, Clone)]
pub struct ReadFilePart {
    /// Identifier of the file. The file must be located in the TDLib file cache
    pub file_id: i32,
    /// The offset from which to read the file
    pub offset: i32,
    /// Number of bytes to read. An error will be returned if there are not enough bytes available
    /// in the file from the specified position. Pass 0 to read all available data from the
    /// specified position
    pub count: i32,
}

impl Wire for ReadFilePart {
    #[verifier::opaque]
    open spec fn wire(&self) -> Doc {
        tagged(
            Map::empty()
                .insert("fileId"@, self.file_id.wire())
                .insert("offset"@, self.offset.wire())
                .insert("count"@, self.count.wire()),
            "readFilePart"@,
        )
    }

    #[verifier::opaque]
    open spec fn parse(d: Doc, at: Seq<char>) -> Result<Doc, Fault> {
        match d {
            Doc::Object(m) => {
                let file_id = field::<i32>(m, "fileId"@);
                let offset = field::<i32>(m, "offset"@);
                let count = field::<i32>(m, "count"@);
                if file_id is Err {
                    file_id
                } else if offset is Err {
                    offset
                } else if count is Err {
                    count
                } else {
                    Ok(
                        tagged(
                            Map::empty()
                                .insert("fileId"@, file_id->Ok_0)
                                .insert("offset"@, offset->Ok_0)
                                .insert("count"@, count->Ok_0),
                            "readFilePart"@,
                        ),
                    )
                }
            },
            _ => Err(Fault::TypeMismatch(at)),
        }
    }

    fn encode(&self) -> (j: Json) {
        proof {
            reveal(<ReadFilePart as Wire>::wire);
        }
        let mut members: Vec<Member> = Vec::new();
        put(&mut members, "fileId", self.file_id.encode());
        put(&mut members, "offset", self.offset.encode());
        put(&mut members, "count", self.count.encode());
        seal(members, "readFilePart")
    }

    fn decode(j: &Json, at: &str) -> (r: Result<Self, DecodeError>) {
        proof {
            reveal(<ReadFilePart as Wire>::wire);
            reveal(<ReadFilePart as Wire>::parse);
        }
        let members = members_of(j, at)?;
        let file_id = read_field::<i32>(members, "fileId")?;
        let offset = read_field::<i32>(members, "offset")?;
        let count = read_field::<i32>(members, "count")?;
        Ok(ReadFilePart { file_id, offset, count })
    }

    proof fn round_trip(&self, at: Seq<char>) {
        reveal(<ReadFilePart as Wire>::wire);
        reveal(<ReadFilePart as Wire>::parse);
        reveal_strlit("@type");
        reveal_strlit("count");
        reveal_strlit("fileId");
        reveal_strlit("offset");
        assert("@type"@.len() == 5 && "@type"@[0] == '@');
        assert("count"@.len() == 5 && "count"@[0] == 'c');
        assert("fileId"@.len() == 6 && "fileId"@[0] == 'f');
        assert("offset"@.len() == 6 && "offset"@[0] == 'o');
        self.file_id.round_trip("fileId"@);
        self.offset.round_trip("offset"@);
        self.count.round_trip("count"@);
    }
}

impl Tagged for ReadFilePart {
    open spec fn known(tag: Seq<char>) -> bool {
        tag == "readFilePart"@
    }

    fn knows(tag: &str) -> (r: bool) {
        same_text(tag, "readFilePart")
    }

    proof fn tag_known(&self) {
        reveal(<ReadFilePart as Wire>::wire);
        assert(tag_of(self.wire()) == Some("readFilePart"@));
        assert(Self::known("readFilePart"@));
    }
}

impl Method for ReadFilePart {
    const TYPE: &'static str = "readFilePart";

    type Response = FilePart;

    proof fn type_is_tag(&self) {
        reveal(<ReadFilePart as Wire>::wire);
        assert(tag_of(self.wire()) == Some("readFilePart"@));
    }
}

/// Deletes a file from the TDLib file cache
#[derive(Debug, Clone)]
pub struct DeleteFile {
    /// Identifier of the file to delete
    pub file_id: i32,
}

impl Wire for DeleteFile {
    #[verifier::opaque]
    open spec fn wire(&self) -> Doc {
        tagged(
            Map::empty()
                .insert("fileId"@, self.file_id.wire()),
            "deleteFile"@,
        )
    }

    #[verifier::opaque]
    open spec fn parse(d: Doc, at: Seq<char>) -> Result<Doc, Fault> {
        match d {
            Doc::Object(m) => {
                let file_id = field::<i32>(m, "fileId"@);
                if file_id is Err {
                    file_id
                } else {
                    Ok(
                        tagged(
                            Map::empty()
                                .insert("fileId"@, file_id->Ok_0),
                            "deleteFile"@,
                        ),
                    )
                }
            },
            _ => Err(Fault::TypeMismatch(at)),
        }
    }

    fn encode(&self) -> (j: Json) {
        proof {
            reveal(<DeleteFile as Wire>::wire);
        }
        let mut members: Vec<Member> = Vec::new();
        put(&mut members, "fileId", self.file_id.encode());
        seal(members, "deleteFile")
    }

    fn decode(j: &Json, at: &str) -> (r: Result<Self, DecodeError>) {
        proof {
            reveal(<DeleteFile as Wire>::wire);
            reveal(<DeleteFile as Wire>::parse);
        }
        let members = members_of(j, at)?;
        let file_id = read_field::<i32>(members, "fileId")?;
        Ok(DeleteFile { file_id })
    }

    proof fn round_trip(&self, at: Seq<char>) {
        reveal(<DeleteFile as Wire>::wire);
        reveal(<DeleteFile as Wire>::parse);
        reveal_strlit("@type");
        reveal_strlit("fileId");
        assert("@type"@.len() == 5);
        assert("fileId"@.len() == 6);
        self.file_id.round_trip("fileId"@);
    }
}

impl Tagged for DeleteFile {
    open spec fn known(tag: Seq<char>) -> bool {
        tag == "deleteFile"@
    }

    fn knows(tag: &str) -> (r: bool) {
        same_text(tag, "deleteFile")
    }

    proof fn tag_known(&self) {
        reveal(<DeleteFile as Wire>::wire);
        assert(tag_of(self.wire()) == Some("deleteFile"@));
        assert(Self::known("deleteFile"@));
    }
}

impl Method for DeleteFile {
    const TYPE: &'static str = "deleteFile";

    type Response = Okay;

    proof fn type_is_tag(&self) {
        reveal(<DeleteFile as Wire>::wire);
        assert(tag_of(self.wire()) == Some("deleteFile"@));
    }
}

/// Generates a new invite link for a chat; the previously generated link is revoked. Available for
/// basic groups, supergroups, and channels. Requires administrator privileges and can_invite_users
/// right
#[derive(Debug, Clone)]
pub struct GenerateChatInviteLink {
    /// Chat identifier
    pub chat_id: i64,
}

impl Wire for GenerateChatInviteLink {
    #[verifier::opaque]
    open spec fn wire(&self) -> Doc {
        tagged(
            Map::empty()
                .insert("chatId"@, self.chat_id.wire()),
            "generateChatInviteLink"@,
        )
    }

    #[verifier::opaque]
    open spec fn parse(d: Doc, at: Seq<char>) -> Result<Doc, Fault> {
        match d {
            Doc::Object(m) => {
                let chat_id = field::<i64>(m, "chatId"@);
                if chat_id is Err {
                    chat_id
                } else {
                    Ok(
                        tagged(
                            Map::empty()
                                .insert("chatId"@, chat_id->Ok_0),
                            "generateChatInviteLink"@,
                        ),
                    )
                }
            },
            _ => Err(Fault::TypeMismatch(at)),
        }
    }

    fn encode(&self) -> (j: Json) {
        proof {
            reveal(<GenerateChatInviteLink as Wire>::wire);
        }
        let mut members: Vec<Member> = Vec::new();
        put(&mut members, "chatId", self.chat_id.encode());
        seal(members, "generateChatInviteLink")
    }

    fn decode(j: &Json, at: &str) -> (r: Result<Self, DecodeError>) {
        proof {
            reveal(<GenerateChatInviteLink as Wire>::wire);
            reveal(<GenerateChatInviteLink as Wire>::parse);
        }
        let members = members_of(j, at)?;
        let chat_id = read_field::<i64>(members, "chatId")?;
        Ok(GenerateChatInviteLink { chat_id })
    }

    proof fn round_trip(&self, at: Seq<char>) {
        reveal(<GenerateChatInviteLink as Wire>::wire);
        reveal(<GenerateChatInviteLink as Wire>::parse);
        reveal_strlit("@type");
        reveal_strlit("chatId");
        assert("@type"@.len() == 5);
        assert("chatId"@.len() == 6);
        self.chat_id.round_trip("chatId"@);
    }
}

impl Tagged for GenerateChatInviteLink {
    open spec fn known(tag: Seq<char>) -> bool {
        tag == "generateChatInviteLink"@
    }

    fn knows(tag: &str) -> (r: bool) {
        same_text(tag, "generateChatInviteLink")
    }

    proof fn tag_known(&self) {
        reveal(<GenerateChatInviteLink as Wire>::wire);
        assert(tag_of(self.wire()) == Some("generateChatInviteLink"@));
        assert(Self::known("generateChatInviteLink"@));
    }
}

impl Method for GenerateChatInviteLink {
    const TYPE: &'static str = "generateChatInviteLink";

    type Response = ChatInviteLink;

    proof fn type_is_tag(&self) {
        reveal(<GenerateChatInviteLink as Wire>::wire);
        assert(tag_of(self.wire()) == Some("generateChatInviteLink"@));
    }
}

/// Checks the validity of an invite link for a chat and returns information about the corresponding
/// chat
#[derive(Debug, Clone)]
pub struct CheckChatInviteLink {
    /// Invite link to be checked; should begin with "https://t.me/joinchat/",
    /// "https://telegram.me/joinchat/", or "https://telegram.dog/joinchat/"
    pub invite_link: String,
}

impl Wire for CheckChatInviteLink {
    #[verifier::opaque]
    open spec fn wire(&self) -> Doc {
        tagged(
            Map::empty()
                .insert("inviteLink"@, self.invite_link.wire()),
            "checkChatInviteLink"@,
        )
    }

    #[verifier::opaque]
    open spec fn parse(d: Doc, at: Seq<char>) -> Result<Doc, Fault> {
        match d {
            Doc::Object(m) => {
                let invite_link = field::<String>(m, "inviteLink"@);
                if invite_link is Err {
                    invite_link
                } else {
                    Ok(
                        tagged(
                            Map::empty()
                                .insert("inviteLink"@, invite_link->Ok_0),
                            "checkChatInviteLink"@,
                        ),
                    )
                }
            },
            _ => Err(Fault::TypeMismatch(at)),
        }
    }

    fn encode(&self) -> (j: Json) {
        proof {
            reveal(<CheckChatInviteLink as Wire>::wire);
        }
        let mut members: Vec<Member> = Vec::new();
        put(&mut members, "inviteLink", self.invite_link.encode());
        seal(members, "checkChatInviteLink")
    }

    fn decode(j: &Json, at: &str) -> (r: Result<Self, DecodeError>) {
        proof {
            reveal(<CheckChatInviteLink as Wire>::wire);
            reveal(<CheckChatInviteLink as Wire>::parse);
        }
        let members = members_of(j, at)?;
        let invite_link = read_field::<String>(members, "inviteLink")?;
        Ok(CheckChatInviteLink { invite_link })
    }

    proof fn round_trip(&self, at: Seq<char>) {
        reveal(<CheckChatInviteLink as Wire>::wire);
        reveal(<CheckChatInviteLink as Wire>::parse);
        reveal_strlit("@type");
        reveal_strlit("inviteLink");
        assert("@type"@.len() == 5);
        assert("inviteLink"@.len() == 10);
        self.invite_link.round_trip("inviteLink"@);
    }
}

impl Tagged for CheckChatInviteLink {
    open spec fn known(tag: Seq<char>) -> bool {
        tag == "checkChatInviteLink"@
    }

    fn knows(tag: &str) -> (r: bool) {
        same_text(tag, "checkChatInviteLink")
    }

    proof fn tag_known(&self) {
        reveal(<CheckChatInviteLink as Wire>::wire);
        assert(tag_of(self.wire()) == Some("checkChatInviteLink"@));
        assert(Self::known("checkChatInviteLink"@));
    }
}

impl Method for CheckChatInviteLink {
    const TYPE: &'static str = "checkChatInviteLink";

    type Response = ChatInviteLinkInfo;

    proof fn type_is_tag(&self) {
        reveal(<CheckChatInviteLink as Wire>::wire);
        assert(tag_of(self.wire()) == Some("checkChatInviteLink"@));
    }
}

/// Uses an invite link to add the current user to the chat if possible. The new member will not be
/// added until the chat state has been synchronized with the server
#[derive(Debug, Clone)]
pub struct JoinChatByInviteLink {
    /// Invite link to import; should begin with "https://t.me/joinchat/",
    /// "https://telegram.me/joinchat/", or "https://telegram.dog/joinchat/"
    pub invite_link: String,
}

impl Wire for JoinChatByInviteLink {
    #[verifier::opaque]
    open spec fn wire(&self) -> Doc {
        tagged(
            Map::empty()
                .insert("inviteLink"@, self.invite_link.wire()),
            "joinChatByInviteLink"@,
        )
    }

    #[verifier::opaque]
    open spec fn parse(d: Doc, at: Seq<char>) -> Result<Doc, Fault> {
        match d {
            Doc::Object(m) => {
                let invite_link = field::<String>(m, "inviteLink"@);
                if invite_link is Err {
                    invite_link
                } else {
                    Ok(
                        tagged(
                            Map::empty()
                                .insert("inviteLink"@, invite_link->Ok_0),
                            "joinChatByInviteLink"@,
                        ),
                    )
                }
            },
            _ => Err(Fault::TypeMismatch(at)),
        }
    }

    fn encode(&self) -> (j: Json) {
        proof {
            reveal(<JoinChatByInviteLink as Wire>::wire);
        }
        let mut members: Vec<Member> = Vec::new();
        put(&mut members, "inviteLink", self.invite_link.encode());
        seal(members, "joinChatByInviteLink")
    }

    fn decode(j: &Json, at: &str) -> (r: Result<Self, DecodeError>) {
        proof {
            reveal(<JoinChatByInviteLink as Wire>::wire);
            reveal(<JoinChatByInviteLink as Wire>::parse);
        }
        let members = members_of(j, at)?;
        let invite_link = read_field::<String>(members, "inviteLink")?;
        Ok(JoinChatByInviteLink { invite_link })
    }

    proof fn round_trip(&self, at: Seq<char>) {
        reveal(<JoinChatByInviteLink as Wire>::wire);
        reveal(<JoinChatByInviteLink as Wire>::parse);
        reveal_strlit("@type");
        reveal_strlit("inviteLink");
        assert("@type"@.len() == 5);
        assert("inviteLink"@.len() == 10);
        self.invite_link.round_trip("inviteLink"@);
    }
}

impl Tagged for JoinChatByInviteLink {
    open spec fn known(tag: Seq<char>) -> bool {
        tag == "joinChatByInviteLink"@
    }

    fn knows(tag: &str) -> (r: bool) {
        same_text(tag, "joinChatByInviteLink")
    }

    proof fn tag_known(&self) {
        reveal(<JoinChatByInviteLink as Wire>::wire);
        assert(tag_of(self.wire()) == Some("joinChatByInviteLink"@));
        assert(Self::known("joinChatByInviteLink"@));
    }
}

impl Method for JoinChatByInviteLink {
    const TYPE: &'static str = "joinChatByInviteLink";

    type Response = Chat;

    proof fn type_is_tag(&self) {
        reveal(<JoinChatByInviteLink as Wire>::wire);
        assert(tag_of(self.wire()) == Some("joinChatByInviteLink"@));
    }
}

} // verus!
