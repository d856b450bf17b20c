//! The event log of a chat.

use vstd::prelude::*;
use crate::codec::{
    discriminator, encode_wide, field, lemma_wide_round_trip, members_of, optional_field, put,
    read_field, read_optional, read_wide, seal, Tagged, Union, wide_doc, wide_field, Wire,
};
use crate::error::{DecodeError, Fault};
use crate::json::{Doc, Json, Member, tag_of, tagged};
use crate::text::same_text;
use crate::types::{
    ChatLocation, ChatMemberStatus, ChatPermissions, Message, Photo,
};

verus! {

/// A message was edited
#[derive(Debug, Clone, PartialEq)]
pub struct ChatEventMessageEdited {
    /// The original message before the edit
    pub old_message: Message,
    /// The message after it was edited
    pub new_message: Message,
}

impl Wire for ChatEventMessageEdited {
    #[verifier::opaque]
    open spec fn wire(&self) -> Doc {
        tagged(
            Map::empty()
                .insert("oldMessage"@, self.old_message.wire())
                .insert("newMessage"@, self.new_message.wire()),
            "chatEventMessageEdited"@,
        )
    }

    #[verifier::opaque]
    open spec fn parse(d: Doc, at: Seq<char>) -> Result<Doc, Fault> {
        match d {
            Doc::Object(m) => {
                let old_message = field::<Message>(m, "oldMessage"@);
                let new_message = field::<Message>(m, "newMessage"@);
                if old_message is Err {
                    old_message
                } else if new_message is Err {
                    new_message
                } else {
                    Ok(
                        tagged(
                            Map::empty()
                                .insert("oldMessage"@, old_message->Ok_0)
                                .insert("newMessage"@, new_message->Ok_0),
                            "chatEventMessageEdited"@,
                        ),
                    )
                }
            },
            _ => Err(Fault::TypeMismatch(at)),
        }
    }

    fn encode(&self) -> (j: Json) {
        proof {
            reveal(<ChatEventMessageEdited as Wire>::wire);
        }
        let mut members: Vec<Member> = Vec::new();
        put(&mut members, "oldMessage", self.old_message.encode());
        put(&mut members, "newMessage", self.new_message.encode());
        seal(members, "chatEventMessageEdited")
    }

    fn decode(j: &Json, at: &str) -> (r: Result<Self, DecodeError>) {
        proof {
            reveal(<ChatEventMessageEdited as Wire>::wire);
            reveal(<ChatEventMessageEdited as Wire>::parse);
        }
        let members = members_of(j, at)?;
        let old_message = read_field::<Message>(members, "oldMessage")?;
        let new_message = read_field::<Message>(members, "newMessage")?;
        Ok(ChatEventMessageEdited { old_message, new_message })
    }

    proof fn round_trip(&self, at: Seq<char>) {
        reveal(<ChatEventMessageEdited as Wire>::wire);
        reveal(<ChatEventMessageEdited as Wire>::parse);
        reveal_strlit("@type");
        reveal_strlit("newMessage");
        reveal_strlit("oldMessage");
        assert("@type"@.len() == 5);
        assert("newMessage"@.len() == 10 && "newMessage"@[0] == 'n');
        assert("oldMessage"@.len() == 10 && "oldMessage"@[0] == 'o');
        self.old_message.round_trip("oldMessage"@);
        self.new_message.round_trip("newMessage"@);
    }
}

impl Tagged for ChatEventMessageEdited {
    open spec fn known(tag: Seq<char>) -> bool {
        tag == "chatEventMessageEdited"@
    }

    fn knows(tag: &str) -> (r: bool) {
        same_text(tag, "chatEventMessageEdited")
    }

    proof fn tag_known(&self) {
        reveal(<ChatEventMessageEdited as Wire>::wire);
        assert(tag_of(self.wire()) == Some("chatEventMessageEdited"@));
        assert(Self::known("chatEventMessageEdited"@));
    }
}

/// A message was deleted
#[derive(Debug, Clone, PartialEq)]
pub struct ChatEventMessageDeleted {
    /// Deleted message
    pub message: Message,
}

impl Wire for ChatEventMessageDeleted {
    #[verifier::opaque]
    open spec fn wire(&self) -> Doc {
        tagged(
            Map::empty()
                .insert("message"@, self.message.wire()),
            "chatEventMessageDeleted"@,
        )
    }

    #[verifier::opaque]
    open spec fn parse(d: Doc, at: Seq<char>) -> Result<Doc, Fault> {
        match d {
            Doc::Object(m) => {
                let message = field::<Message>(m, "message"@);
                if message is Err {
                    message
                } else {
                    Ok(
                        tagged(
                            Map::empty()
                                .insert("message"@, message->Ok_0),
                            "chatEventMessageDeleted"@,
                        ),
                    )
                }
            },
            _ => Err(Fault::TypeMismatch(at)),
        }
    }

    fn encode(&self) -> (j: Json) {
        proof {
            reveal(<ChatEventMessageDeleted as Wire>::wire);
        }
        let mut members: Vec<Member> = Vec::new();
        put(&mut members, "message", self.message.encode());
        seal(members, "chatEventMessageDeleted")
    }

    fn decode(j: &Json, at: &str) -> (r: Result<Self, DecodeError>) {
        proof {
            reveal(<ChatEventMessageDeleted as Wire>::wire);
            reveal(<ChatEventMessageDeleted as Wire>::parse);
        }
        let members = members_of(j, at)?;
        let message = read_field::<Message>(members, "message")?;
        Ok(ChatEventMessageDeleted { message })
    }

    proof fn round_trip(&self, at: Seq<char>) {
        reveal(<ChatEventMessageDeleted as Wire>::wire);
        reveal(<ChatEventMessageDeleted as Wire>::parse);
        reveal_strlit("@type");
        reveal_strlit("message");
        assert("@type"@.len() == 5);
        assert("message"@.len() == 7);
        self.message.round_trip("message"@);
    }
}

impl Tagged for ChatEventMessageDeleted {
    open spec fn known(tag: Seq<char>) -> bool {
        tag == "chatEventMessageDeleted"@
    }

    fn knows(tag: &str) -> (r: bool) {
        same_text(tag, "chatEventMessageDeleted")
    }

    proof fn tag_known(&self) {
        reveal(<ChatEventMessageDeleted as Wire>::wire);
        assert(tag_of(self.wire()) == Some("chatEventMessageDeleted"@));
        assert(Self::known("chatEventMessageDeleted"@));
    }
}

/// A poll in a message was stopped
#[derive(Debug, Clone, PartialEq)]
pub struct ChatEventPollStopped {
    /// The message with the poll
    pub message: Message,
}

impl Wire for ChatEventPollStopped {
    #[verifier::opaque]
    open spec fn wire(&self) -> Doc {
        tagged(
            Map::empty()
                .insert("message"@, self.message.wire()),
            "chatEventPollStopped"@,
        )
    }

    #[verifier::opaque]
    open spec fn parse(d: Doc, at: Seq<char>) -> Result<Doc, Fault> {
        match d {
            Doc::Object(m) => {
                let message = field::<Message>(m, "message"@);
                if message is Err {
                    message
                } else {
                    Ok(
                        tagged(
                            Map::empty()
                                .insert("message"@, message->Ok_0),
                            "chatEventPollStopped"@,
                        ),
                    )
                }
            },
            _ => Err(Fault::TypeMismatch(at)),
        }
    }

    fn encode(&self) -> (j: Json) {
        proof {
            reveal(<ChatEventPollStopped as Wire>::wire);
        }
        let mut members: Vec<Member> = Vec::new();
        put(&mut members, "message", self.message.encode());
        seal(members, "chatEventPollStopped")
    }

    fn decode(j: &Json, at: &str) -> (r: Result<Self, DecodeError>) {
        proof {
            reveal(<ChatEventPollStopped as Wire>::wire);
            reveal(<ChatEventPollStopped as Wire>::parse);
        }
        let members = members_of(j, at)?;
        let message = read_field::<Message>(members, "message")?;
        Ok(ChatEventPollStopped { message })
    }

    proof fn round_trip(&self, at: Seq<char>) {
        reveal(<ChatEventPollStopped as Wire>::wire);
        reveal(<ChatEventPollStopped as Wire>::parse);
        reveal_strlit("@type");
        reveal_strlit("message");
        assert("@type"@.len() == 5);
        assert("message"@.len() == 7);
        self.message.round_trip("message"@);
    }
}

impl Tagged for ChatEventPollStopped {
    open spec fn known(tag: Seq<char>) -> bool {
        tag == "chatEventPollStopped"@
    }

    fn knows(tag: &str) -> (r: bool) {
        same_text(tag, "chatEventPollStopped")
    }

    proof fn tag_known(&self) {
        reveal(<ChatEventPollStopped as Wire>::wire);
        assert(tag_of(self.wire()) == Some("chatEventPollStopped"@));
        assert(Self::known("chatEventPollStopped"@));
    }
}

/// A message was pinned
#[derive(Debug, Clone, PartialEq)]
pub struct ChatEventMessagePinned {
    /// Pinned message
    pub message: Message,
}

impl Wire for ChatEventMessagePinned {
    #[verifier::opaque]
    open spec fn wire(&self) -> Doc {
        tagged(
            Map::empty()
                .insert("message"@, self.message.wire()),
            "chatEventMessagePinned"@,
        )
    }

    #[verifier::opaque]
    open spec fn parse(d: Doc, at: Seq<char>) -> Result<Doc, Fault> {
        match d {
            Doc::Object(m) => {
                let message = field::<Message>(m, "message"@);
                if message is Err {
                    message
                } else {
                    Ok(
                        tagged(
                            Map::empty()
                                .insert("message"@, message->Ok_0),
                            "chatEventMessagePinned"@,
                        ),
                    )
                }
            },
            _ => Err(Fault::TypeMismatch(at)),
        }
    }

    fn encode(&self) -> (j: Json) {
        proof {
            reveal(<ChatEventMessagePinned as Wire>::wire);
        }
        let mut members: Vec<Member> = Vec::new();
        put(&mut members, "message", self.message.encode());
        seal(members, "chatEventMessagePinned")
    }

    fn decode(j: &Json, at: &str) -> (r: Result<Self, DecodeError>) {
        proof {
            reveal(<ChatEventMessagePinned as Wire>::wire);
            reveal(<ChatEventMessagePinned as Wire>::parse);
        }
        let members = members_of(j, at)?;
        let message = read_field::<Message>(members, "message")?;
        Ok(ChatEventMessagePinned { message })
    }

    proof fn round_trip(&self, at: Seq<char>) {
        reveal(<ChatEventMessagePinned as Wire>::wire);
        reveal(<ChatEventMessagePinned as Wire>::parse);
        reveal_strlit("@type");
        reveal_strlit("message");
        assert("@type"@.len() == 5);
        assert("message"@.len() == 7);
        self.message.round_trip("message"@);
    }
}

impl Tagged for ChatEventMessagePinned {
    open spec fn known(tag: Seq<char>) -> bool {
        tag == "chatEventMessagePinned"@
    }

    fn knows(tag: &str) -> (r: bool) {
        same_text(tag, "chatEventMessagePinned")
    }

    proof fn tag_known(&self) {
        reveal(<ChatEventMessagePinned as Wire>::wire);
        assert(tag_of(self.wire()) == Some("chatEventMessagePinned"@));
        assert(Self::known("chatEventMessagePinned"@));
    }
}

/// A message was unpinned
#[derive(Debug, Clone, PartialEq)]
pub struct ChatEventMessageUnpinned {}

impl Wire for ChatEventMessageUnpinned {
    #[verifier::opaque]
    open spec fn wire(&self) -> Doc {
        tagged(Map::empty(), "chatEventMessageUnpinned"@)
    }

    #[verifier::opaque]
    open spec fn parse(d: Doc, at: Seq<char>) -> Result<Doc, Fault> {
        match d {
            Doc::Object(_) => Ok(tagged(Map::empty(), "chatEventMessageUnpinned"@)),
            _ => Err(Fault::TypeMismatch(at)),
        }
    }

    fn encode(&self) -> (j: Json) {
        proof {
            reveal(<ChatEventMessageUnpinned as Wire>::wire);
        }
        seal(Vec::new(), "chatEventMessageUnpinned")
    }

    fn decode(j: &Json, at: &str) -> (r: Result<Self, DecodeError>) {
        proof {
            reveal(<ChatEventMessageUnpinned as Wire>::wire);
            reveal(<ChatEventMessageUnpinned as Wire>::parse);
        }
        let _ = members_of(j, at)?;
        Ok(ChatEventMessageUnpinned {})
    }

    proof fn round_trip(&self, at: Seq<char>) {
        reveal(<ChatEventMessageUnpinned as Wire>::wire);
        reveal(<ChatEventMessageUnpinned as Wire>::parse);
    }
}

impl Tagged for ChatEventMessageUnpinned {
    open spec fn known(tag: Seq<char>) -> bool {
        tag == "chatEventMessageUnpinned"@
    }

    fn knows(tag: &str) -> (r: bool) {
        same_text(tag, "chatEventMessageUnpinned")
    }

    proof fn tag_known(&self) {
        reveal(<ChatEventMessageUnpinned as Wire>::wire);
        assert(tag_of(self.wire()) == Some("chatEventMessageUnpinned"@));
        assert(Self::known("chatEventMessageUnpinned"@));
    }
}

/// A new member joined the chat
#[derive(Debug, Clone, PartialEq)]
pub struct ChatEventMemberJoined {}

impl Wire for ChatEventMemberJoined {
    #[verifier::opaque]
    open spec fn wire(&self) -> Doc {
        tagged(Map::empty(), "chatEventMemberJoined"@)
    }

    #[verifier::opaque]
    open spec fn parse(d: Doc, at: Seq<char>) -> Result<Doc, Fault> {
        match d {
            Doc::Object(_) => Ok(tagged(Map::empty(), "chatEventMemberJoined"@)),
            _ => Err(Fault::TypeMismatch(at)),
        }
    }

    fn encode(&self) -> (j: Json) {
        proof {
            reveal(<ChatEventMemberJoined as Wire>::wire);
        }
        seal(Vec::new(), "chatEventMemberJoined")
    }

    fn decode(j: &Json, at: &str) -> (r: Result<Self, DecodeError>) {
        proof {
            reveal(<ChatEventMemberJoined as Wire>::wire);
            reveal(<ChatEventMemberJoined as Wire>::parse);
        }
        let _ = members_of(j, at)?;
        Ok(ChatEventMemberJoined {})
    }

    proof fn round_trip(&self, at: Seq<char>) {
        reveal(<ChatEventMemberJoined as Wire>::wire);
        reveal(<ChatEventMemberJoined as Wire>::parse);
    }
}

impl Tagged for ChatEventMemberJoined {
    open spec fn known(tag: Seq<char>) -> bool {
        tag == "chatEventMemberJoined"@
    }

    fn knows(tag: &str) -> (r: bool) {
        same_text(tag, "chatEventMemberJoined")
    }

    proof fn tag_known(&self) {
        reveal(<ChatEventMemberJoined as Wire>::wire);
        assert(tag_of(self.wire()) == Some("chatEventMemberJoined"@));
        assert(Self::known("chatEventMemberJoined"@));
    }
}

/// A member left the chat
#[derive(Debug, Clone, PartialEq)]
pub struct ChatEventMemberLeft {}

impl Wire for ChatEventMemberLeft {
    #[verifier::opaque]
    open spec fn wire(&self) -> Doc {
        tagged(Map::empty(), "chatEventMemberLeft"@)
    }

    #[verifier::opaque]
    open spec fn parse(d: Doc, at: Seq<char>) -> Result<Doc, Fault> {
        match d {
            Doc::Object(_) => Ok(tagged(Map::empty(), "chatEventMemberLeft"@)),
            _ => Err(Fault::TypeMismatch(at)),
        }
    }

    fn encode(&self) -> (j: Json) {
        proof {
            reveal(<ChatEventMemberLeft as Wire>::wire);
        }
        seal(Vec::new(), "chatEventMemberLeft")
    }

    fn decode(j: &Json, at: &str) -> (r: Result<Self, DecodeError>) {
        proof {
            reveal(<ChatEventMemberLeft as Wire>::wire);
            reveal(<ChatEventMemberLeft as Wire>::parse);
        }
        let _ = members_of(j, at)?;
        Ok(ChatEventMemberLeft {})
    }

    proof fn round_trip(&self, at: Seq<char>) {
        reveal(<ChatEventMemberLeft as Wire>::wire);
        reveal(<ChatEventMemberLeft as Wire>::parse);
    }
}

impl Tagged for ChatEventMemberLeft {
    open spec fn known(tag: Seq<char>) -> bool {
        tag == "chatEventMemberLeft"@
    }

    fn knows(tag: &str) -> (r: bool) {
        same_text(tag, "chatEventMemberLeft")
    }

    proof fn tag_known(&self) {
        reveal(<ChatEventMemberLeft as Wire>::wire);
        assert(tag_of(self.wire()) == Some("chatEventMemberLeft"@));
        assert(Self::known("chatEventMemberLeft"@));
    }
}

/// A new chat member was invited
#[derive(Debug, Clone, PartialEq)]
pub struct ChatEventMemberInvited {
    /// New member user identifier
    pub user_id: i32,
    /// New member status
    pub status: ChatMemberStatus,
}

impl Wire for ChatEventMemberInvited {
    #[verifier::opaque]
    open spec fn wire(&self) -> Doc {
        tagged(
            Map::empty()
                .insert("userId"@, self.user_id.wire())
                .insert("status"@, self.status.wire()),
            "chatEventMemberInvited"@,
        )
    }

    #[verifier::opaque]
    open spec fn parse(d: Doc, at: Seq<char>) -> Result<Doc, Fault> {
        match d {
            Doc::Object(m) => {
                let user_id = field::<i32>(m, "userId"@);
                let status = field::<ChatMemberStatus>(m, "status"@);
                if user_id is Err {
                    user_id
                } else if status is Err {
                    status
                } else {
                    Ok(
                        tagged(
                            Map::empty()
                                .insert("userId"@, user_id->Ok_0)
                                .insert("status"@, status->Ok_0),
                            "chatEventMemberInvited"@,
                        ),
                    )
                }
            },
            _ => Err(Fault::TypeMismatch(at)),
        }
    }

    fn encode(&self) -> (j: Json) {
        proof {
            reveal(<ChatEventMemberInvited as Wire>::wire);
        }
        let mut members: Vec<Member> = Vec::new();
        put(&mut members, "userId", self.user_id.encode());
        put(&mut members, "status", self.status.encode());
        seal(members, "chatEventMemberInvited")
    }

    fn decode(j: &Json, at: &str) -> (r: Result<Self, DecodeError>) {
        proof {
            reveal(<ChatEventMemberInvited as Wire>::wire);
            reveal(<ChatEventMemberInvited as Wire>::parse);
        }
        let members = members_of(j, at)?;
        let user_id = read_field::<i32>(members, "userId")?;
        let status = read_field::<ChatMemberStatus>(members, "status")?;
        Ok(ChatEventMemberInvited { user_id, status })
    }

    proof fn round_trip(&self, at: Seq<char>) {
        reveal(<ChatEventMemberInvited as Wire>::wire);
        reveal(<ChatEventMemberInvited as Wire>::parse);
        reveal_strlit("@type");
        reveal_strlit("status");
        reveal_strlit("userId");
        assert("@type"@.len() == 5);
        assert("status"@.len() == 6 && "status"@[0] == 's');
        assert("userId"@.len() == 6 && "userId"@[0] == 'u');
        self.user_id.round_trip("userId"@);
        self.status.round_trip("status"@);
    }
}

impl Tagged for ChatEventMemberInvited {
    open spec fn known(tag: Seq<char>) -> bool {
        tag == "chatEventMemberInvited"@
    }

    fn knows(tag: &str) -> (r: bool) {
        same_text(tag, "chatEventMemberInvited")
    }

    proof fn tag_known(&self) {
        reveal(<ChatEventMemberInvited as Wire>::wire);
        assert(tag_of(self.wire()) == Some("chatEventMemberInvited"@));
        assert(Self::known("chatEventMemberInvited"@));
    }
}

/// A chat member has gained/lost administrator status, or the list of their administrator
/// privileges has changed
#[derive(Debug, Clone, PartialEq)]
pub struct ChatEventMemberPromoted {
    /// Chat member user identifier
    pub user_id: i32,
    /// Previous status of the chat member
    pub old_status: ChatMemberStatus,
    /// New status of the chat member
    pub new_status: ChatMemberStatus,
}

impl Wire for ChatEventMemberPromoted {
    #[verifier::opaque]
    open spec fn wire(&self) -> Doc {
        tagged(
            Map::empty()
                .insert("userId"@, self.user_id.wire())
                .insert("oldStatus"@, self.old_status.wire())
                .insert("newStatus"@, self.new_status.wire()),
            "chatEventMemberPromoted"@,
        )
    }

    #[verifier::opaque]
    open spec fn parse(d: Doc, at: Seq<char>) -> Result<Doc, Fault> {
        match d {
            Doc::Object(m) => {
                let user_id = field::<i32>(m, "userId"@);
                let old_status = field::<ChatMemberStatus>(m, "oldStatus"@);
                let new_status = field::<ChatMemberStatus>(m, "newStatus"@);
                if user_id is Err {
                    user_id
                } else if old_status is Err {
                    old_status
                } else if new_status is Err {
                    new_status
                } else {
                    Ok(
                        tagged(
                            Map::empty()
                                .insert("userId"@, user_id->Ok_0)
                                .insert("oldStatus"@, old_status->Ok_0)
                                .insert("newStatus"@, new_status->Ok_0),
                            "chatEventMemberPromoted"@,
                        ),
                    )
                }
            },
            _ => Err(Fault::TypeMismatch(at)),
        }
    }

    fn encode(&self) -> (j: Json) {
        proof {
            reveal(<ChatEventMemberPromoted as Wire>::wire);
        }
        let mut members: Vec<Member> = Vec::new();
        put(&mut members, "userId", self.user_id.encode());
        put(&mut members, "oldStatus", self.old_status.encode());
        put(&mut members, "newStatus", self.new_status.encode());
        seal(members, "chatEventMemberPromoted")
    }

    fn decode(j: &Json, at: &str) -> (r: Result<Self, DecodeError>) {
        proof {
            reveal(<ChatEventMemberPromoted as Wire>::wire);
            reveal(<ChatEventMemberPromoted as Wire>::parse);
        }
        let members = members_of(j, at)?;
        let user_id = read_field::<i32>(members, "userId")?;
        let old_status = read_field::<ChatMemberStatus>(members, "oldStatus")?;
        let new_status = read_field::<ChatMemberStatus>(members, "newStatus")?;
        Ok(ChatEventMemberPromoted { user_id, old_status, new_status })
    }

    proof fn round_trip(&self, at: Seq<char>) {
        reveal(<ChatEventMemberPromoted as Wire>::wire);
        reveal(<ChatEventMemberPromoted as Wire>::parse);
        reveal_strlit("@type");
        reveal_strlit("newStatus");
        reveal_strlit("oldStatus");
        reveal_strlit("userId");
        assert("@type"@.len() == 5);
        assert("newStatus"@.len() == 9 && "newStatus"@[0] == 'n');
        assert("oldStatus"@.len() == 9 && "oldStatus"@[0] == 'o');
        assert("userId"@.len() == 6);
        self.user_id.round_trip("userId"@);
        self.old_status.round_trip("oldStatus"@);
        self.new_status.round_trip("newStatus"@);
    }
}

impl Tagged for ChatEventMemberPromoted {
    open spec fn known(tag: Seq<char>) -> bool {
        tag == "chatEventMemberPromoted"@
    }

    fn knows(tag: &str) -> (r: bool) {
        same_text(tag, "chatEventMemberPromoted")
    }

    proof fn tag_known(&self) {
        reveal(<ChatEventMemberPromoted as Wire>::wire);
        assert(tag_of(self.wire()) == Some("chatEventMemberPromoted"@));
        assert(Self::known("chatEventMemberPromoted"@));
    }
}

/// A chat member was restricted/unrestricted or banned/unbanned, or the list of their restrictions
/// has changed
#[derive(Debug, Clone, PartialEq)]
pub struct ChatEventMemberRestricted {
    /// Chat member user identifier
    pub user_id: i32,
    /// Previous status of the chat member
    pub old_status: ChatMemberStatus,
    /// New status of the chat member
    pub new_status: ChatMemberStatus,
}

impl Wire for ChatEventMemberRestricted {
    #[verifier::opaque]
    open spec fn wire(&self) -> Doc {
        tagged(
            Map::empty()
                .insert("userId"@, self.user_id.wire())
                .insert("oldStatus"@, self.old_status.wire())
                .insert("newStatus"@, self.new_status.wire()),
            "chatEventMemberRestricted"@,
        )
    }

    #[verifier::opaque]
    open spec fn parse(d: Doc, at: Seq<char>) -> Result<Doc, Fault> {
        match d {
            Doc::Object(m) => {
                let user_id = field::<i32>(m, "userId"@);
                let old_status = field::<ChatMemberStatus>(m, "oldStatus"@);
                let new_status = field::<ChatMemberStatus>(m, "newStatus"@);
                if user_id is Err {
                    user_id
                } else if old_status is Err {
                    old_status
                } else if new_status is Err {
                    new_status
                } else {
                    Ok(
                        tagged(
                            Map::empty()
                                .insert("userId"@, user_id->Ok_0)
                                .insert("oldStatus"@, old_status->Ok_0)
                                .insert("newStatus"@, new_status->Ok_0),
                            "chatEventMemberRestricted"@,
                        ),
                    )
                }
            },
            _ => Err(Fault::TypeMismatch(at)),
        }
    }

    fn encode(&self) -> (j: Json) {
        proof {
            reveal(<ChatEventMemberRestricted as Wire>::wire);
        }
        let mut members: Vec<Member> = Vec::new();
        put(&mut members, "userId", self.user_id.encode());
        put(&mut members, "oldStatus", self.old_status.encode());
        put(&mut members, "newStatus", self.new_status.encode());
        seal(members, "chatEventMemberRestricted")
    }

    fn decode(j: &Json, at: &str) -> (r: Result<Self, DecodeError>) {
        proof {
            reveal(<ChatEventMemberRestricted as Wire>::wire);
            reveal(<ChatEventMemberRestricted as Wire>::parse);
        }
        let members = members_of(j, at)?;
        let user_id = read_field::<i32>(members, "userId")?;
        let old_status = read_field::<ChatMemberStatus>(members, "oldStatus")?;
        let new_status = read_field::<ChatMemberStatus>(members, "newStatus")?;
        Ok(ChatEventMemberRestricted { user_id, old_status, new_status })
    }

    proof fn round_trip(&self, at: Seq<char>) {
        reveal(<ChatEventMemberRestricted as Wire>::wire);
        reveal(<ChatEventMemberRestricted as Wire>::parse);
        reveal_strlit("@type");
        reveal_strlit("newStatus");
        reveal_strlit("oldStatus");
        reveal_strlit("userId");
        assert("@type"@.len() == 5);
        assert("newStatus"@.len() == 9 && "newStatus"@[0] == 'n');
        assert("oldStatus"@.len() == 9 && "oldStatus"@[0] == 'o');
        assert("userId"@.len() == 6);
        self.user_id.round_trip("userId"@);
        self.old_status.round_trip("oldStatus"@);
        self.new_status.round_trip("newStatus"@);
    }
}

impl Tagged for ChatEventMemberRestricted {
    open spec fn known(tag: Seq<char>) -> bool {
        tag == "chatEventMemberRestricted"@
    }

    fn knows(tag: &str) -> (r: bool) {
        same_text(tag, "chatEventMemberRestricted")
    }

    proof fn tag_known(&self) {
        reveal(<ChatEventMemberRestricted as Wire>::wire);
        assert(tag_of(self.wire()) == Some("chatEventMemberRestricted"@));
        assert(Self::known("chatEventMemberRestricted"@));
    }
}

/// The chat title was changed
#[derive(Debug, Clone, PartialEq)]
pub struct ChatEventTitleChanged {
    /// Previous chat title
    pub old_title: String,
    /// New chat title
    pub new_title: String,
}

impl Wire for ChatEventTitleChanged {
    #[verifier::opaque]
    open spec fn wire(&self) -> Doc {
        tagged(
            Map::empty()
                .insert("oldTitle"@, self.old_title.wire())
                .insert("newTitle"@, self.new_title.wire()),
            "chatEventTitleChanged"@,
        )
    }

    #[verifier::opaque]
    open spec fn parse(d: Doc, at: Seq<char>) -> Result<Doc, Fault> {
        match d {
            Doc::Object(m) => {
                let old_title = field::<String>(m, "oldTitle"@);
                let new_title = field::<String>(m, "newTitle"@);
                if old_title is Err {
                    old_title
                } else if new_title is Err {
                    new_title
                } else {
                    Ok(
                        tagged(
                            Map::empty()
                                .insert("oldTitle"@, old_title->Ok_0)
                                .insert("newTitle"@, new_title->Ok_0),
                            "chatEventTitleChanged"@,
                        ),
                    )
                }
            },
            _ => Err(Fault::TypeMismatch(at)),
        }
    }

    fn encode(&self) -> (j: Json) {
        proof {
            reveal(<ChatEventTitleChanged as Wire>::wire);
        }
        let mut members: Vec<Member> = Vec::new();
        put(&mut members, "oldTitle", self.old_title.encode());
        put(&mut members, "newTitle", self.new_title.encode());
        seal(members, "chatEventTitleChanged")
    }

    fn decode(j: &Json, at: &str) -> (r: Result<Self, DecodeError>) {
        proof {
            reveal(<ChatEventTitleChanged as Wire>::wire);
            reveal(<ChatEventTitleChanged as Wire>::parse);
        }
        let members = members_of(j, at)?;
        let old_title = read_field::<String>(members, "oldTitle")?;
        let new_title = read_field::<String>(members, "newTitle")?;
        Ok(ChatEventTitleChanged { old_title, new_title })
    }

    proof fn round_trip(&self, at: Seq<char>) {
        reveal(<ChatEventTitleChanged as Wire>::wire);
        reveal(<ChatEventTitleChanged as Wire>::parse);
        reveal_strlit("@type");
        reveal_strlit("newTitle");
        reveal_strlit("oldTitle");
        assert("@type"@.len() == 5);
        assert("newTitle"@.len() == 8 && "newTitle"@[0] == 'n');
        assert("oldTitle"@.len() == 8 && "oldTitle"@[0] == 'o');
        self.old_title.round_trip("oldTitle"@);
        self.new_title.round_trip("newTitle"@);
    }
}

impl Tagged for ChatEventTitleChanged {
    open spec fn known(tag: Seq<char>) -> bool {
        tag == "chatEventTitleChanged"@
    }

    fn knows(tag: &str) -> (r: bool) {
        same_text(tag, "chatEventTitleChanged")
    }

    proof fn tag_known(&self) {
        reveal(<ChatEventTitleChanged as Wire>::wire);
        assert(tag_of(self.wire()) == Some("chatEventTitleChanged"@));
        assert(Self::known("chatEventTitleChanged"@));
    }
}

/// The chat permissions was changed
#[derive(Debug, Clone, PartialEq)]
pub struct ChatEventPermissionsChanged {
    /// Previous chat permissions
    pub old_permissions: ChatPermissions,
    /// New chat permissions
    pub new_permissions: ChatPermissions,
}

impl Wire for ChatEventPermissionsChanged {
    #[verifier::opaque]
    open spec fn wire(&self) -> Doc {
        tagged(
            Map::empty()
                .insert("oldPermissions"@, self.old_permissions.wire())
                .insert("newPermissions"@, self.new_permissions.wire()),
            "chatEventPermissionsChanged"@,
        )
    }

    #[verifier::opaque]
    open spec fn parse(d: Doc, at: Seq<char>) -> Result<Doc, Fault> {
        match d {
            Doc::Object(m) => {
                let old_permissions = field::<ChatPermissions>(m, "oldPermissions"@);
                let new_permissions = field::<ChatPermissions>(m, "newPermissions"@);
                if old_permissions is Err {
                    old_permissions
                } else if new_permissions is Err {
                    new_permissions
                } else {
                    Ok(
                        tagged(
                            Map::empty()
                                .insert("oldPermissions"@, old_permissions->Ok_0)
                                .insert("newPermissions"@, new_permissions->Ok_0),
                            "chatEventPermissionsChanged"@,
                        ),
                    )
                }
            },
            _ => Err(Fault::TypeMismatch(at)),
        }
    }

    fn encode(&self) -> (j: Json) {
        proof {
            reveal(<ChatEventPermissionsChanged as Wire>::wire);
        }
        let mut members: Vec<Member> = Vec::new();
        put(&mut members, "oldPermissions", self.old_permissions.encode());
        put(&mut members, "newPermissions", self.new_permissions.encode());
        seal(members, "chatEventPermissionsChanged")
    }

    fn decode(j: &Json, at: &str) -> (r: Result<Self, DecodeError>) {
        proof {
            reveal(<ChatEventPermissionsChanged as Wire>::wire);
            reveal(<ChatEventPermissionsChanged as Wire>::parse);
        }
        let members = members_of(j, at)?;
        let old_permissions = read_field::<ChatPermissions>(members, "oldPermissions")?;
        let new_permissions = read_field::<ChatPermissions>(members, "newPermissions")?;
        Ok(ChatEventPermissionsChanged { old_permissions, new_permissions })
    }

    proof fn round_trip(&self, at: Seq<char>) {
        reveal(<ChatEventPermissionsChanged as Wire>::wire);
        reveal(<ChatEventPermissionsChanged as Wire>::parse);
        reveal_strlit("@type");
        reveal_strlit("newPermissions");
        reveal_strlit("oldPermissions");
        assert("@type"@.len() == 5);
        assert("newPermissions"@.len() == 14 && "newPermissions"@[0] == 'n');
        assert("oldPermissions"@.len() == 14 && "oldPermissions"@[0] == 'o');
        self.old_permissions.round_trip("oldPermissions"@);
        self.new_permissions.round_trip("newPermissions"@);
    }
}

impl Tagged for ChatEventPermissionsChanged {
    open spec fn known(tag: Seq<char>) -> bool {
        tag == "chatEventPermissionsChanged"@
    }

    fn knows(tag: &str) -> (r: bool) {
        same_text(tag, "chatEventPermissionsChanged")
    }

    proof fn tag_known(&self) {
        reveal(<ChatEventPermissionsChanged as Wire>::wire);
        assert(tag_of(self.wire()) == Some("chatEventPermissionsChanged"@));
        assert(Self::known("chatEventPermissionsChanged"@));
    }
}

/// The chat description was changed
#[derive(Debug, Clone, PartialEq)]
pub struct ChatEventDescriptionChanged {
    /// Previous chat description
    pub old_description: String,
    /// New chat description
    pub new_description: String,
}

impl Wire for ChatEventDescriptionChanged {
    #[verifier::opaque]
    open spec fn wire(&self) -> Doc {
        tagged(
            Map::empty()
                .insert("oldDescription"@, self.old_description.wire())
                .insert("newDescription"@, self.new_description.wire()),
            "chatEventDescriptionChanged"@,
        )
    }

    #[verifier::opaque]
    open spec fn parse(d: Doc, at: Seq<char>) -> Result<Doc, Fault> {
        match d {
            Doc::Object(m) => {
                let old_description = field::<String>(m, "oldDescription"@);
                let new_description = field::<String>(m, "newDescription"@);
                if old_description is Err {
                    old_description
                } else if new_description is Err {
                    new_description
                } else {
                    Ok(
                        tagged(
                            Map::empty()
                                .insert("oldDescription"@, old_description->Ok_0)
                                .insert("newDescription"@, new_description->Ok_0),
                            "chatEventDescriptionChanged"@,
                        ),
                    )
                }
            },
            _ => Err(Fault::TypeMismatch(at)),
        }
    }

    fn encode(&self) -> (j: Json) {
        proof {
            reveal(<ChatEventDescriptionChanged as Wire>::wire);
        }
        let mut members: Vec<Member> = Vec::new();
        put(&mut members, "oldDescription", self.old_description.encode());
        put(&mut members, "newDescription", self.new_description.encode());
        seal(members, "chatEventDescriptionChanged")
    }

    fn decode(j: &Json, at: &str) -> (r: Result<Self, DecodeError>) {
        proof {
            reveal(<ChatEventDescriptionChanged as Wire>::wire);
            reveal(<ChatEventDescriptionChanged as Wire>::parse);
        }
        let members = members_of(j, at)?;
        let old_description = read_field::<String>(members, "oldDescription")?;
        let new_description = read_field::<String>(members, "newDescription")?;
        Ok(ChatEventDescriptionChanged { old_description, new_description })
    }

    proof fn round_trip(&self, at: Seq<char>) {
        reveal(<ChatEventDescriptionChanged as Wire>::wire);
        reveal(<ChatEventDescriptionChanged as Wire>::parse);
        reveal_strlit("@type");
        reveal_strlit("newDescription");
        reveal_strlit("oldDescription");
        assert("@type"@.len() == 5);
        assert("newDescription"@.len() == 14 && "newDescription"@[0] == 'n');
        assert("oldDescription"@.len() == 14 && "oldDescription"@[0] == 'o');
        self.old_description.round_trip("oldDescription"@);
        self.new_description.round_trip("newDescription"@);
    }
}

impl Tagged for ChatEventDescriptionChanged {
    open spec fn known(tag: Seq<char>) -> bool {
        tag == "chatEventDescriptionChanged"@
    }

    fn knows(tag: &str) -> (r: bool) {
        same_text(tag, "chatEventDescriptionChanged")
    }

    proof fn tag_known(&self) {
        reveal(<ChatEventDescriptionChanged as Wire>::wire);
        assert(tag_of(self.wire()) == Some("chatEventDescriptionChanged"@));
        assert(Self::known("chatEventDescriptionChanged"@));
    }
}

/// The chat username was changed
#[derive(Debug, Clone, PartialEq)]
pub struct ChatEventUsernameChanged {
    /// Previous chat username
    pub old_username: String,
    /// New chat username
    pub new_username: String,
}

impl Wire for ChatEventUsernameChanged {
    #[verifier::opaque]
    open spec fn wire(&self) -> Doc {
        tagged(
            Map::empty()
                .insert("oldUsername"@, self.old_username.wire())
                .insert("newUsername"@, self.new_username.wire()),
            "chatEventUsernameChanged"@,
        )
    }

    #[verifier::opaque]
    open spec fn parse(d: Doc, at: Seq<char>) -> Result<Doc, Fault> {
        match d {
            Doc::Object(m) => {
                let old_username = field::<String>(m, "oldUsername"@);
                let new_username = field::<String>(m, "newUsername"@);
                if old_username is Err {
                    old_username
                } else if new_username is Err {
                    new_username
                } else {
                    Ok(
                        tagged(
                            Map::empty()
                                .insert("oldUsername"@, old_username->Ok_0)
                                .insert("newUsername"@, new_username->Ok_0),
                            "chatEventUsernameChanged"@,
                        ),
                    )
                }
            },
            _ => Err(Fault::TypeMismatch(at)),
        }
    }

    fn encode(&self) -> (j: Json) {
        proof {
            reveal(<ChatEventUsernameChanged as Wire>::wire);
        }
        let mut members: Vec<Member> = Vec::new();
        put(&mut members, "oldUsername", self.old_username.encode());
        put(&mut members, "newUsername", self.new_username.encode());
        seal(members, "chatEventUsernameChanged")
    }

    fn decode(j: &Json, at: &str) -> (r: Result<Self, DecodeError>) {
        proof {
            reveal(<ChatEventUsernameChanged as Wire>::wire);
            reveal(<ChatEventUsernameChanged as Wire>::parse);
        }
        let members = members_of(j, at)?;
        let old_username = read_field::<String>(members, "oldUsername")?;
        let new_username = read_field::<String>(members, "newUsername")?;
        Ok(ChatEventUsernameChanged { old_username, new_username })
    }

    proof fn round_trip(&self, at: Seq<char>) {
        reveal(<ChatEventUsernameChanged as Wire>::wire);
        reveal(<ChatEventUsernameChanged as Wire>::parse);
        reveal_strlit("@type");
        reveal_strlit("newUsername");
        reveal_strlit("oldUsername");
        assert("@type"@.len() == 5);
        assert("newUsername"@.len() == 11 && "newUsername"@[0] == 'n');
        assert("oldUsername"@.len() == 11 && "oldUsername"@[0] == 'o');
        self.old_username.round_trip("oldUsername"@);
        self.new_username.round_trip("newUsername"@);
    }
}

impl Tagged for ChatEventUsernameChanged {
    open spec fn known(tag: Seq<char>) -> bool {
        tag == "chatEventUsernameChanged"@
    }

    fn knows(tag: &str) -> (r: bool) {
        same_text(tag, "chatEventUsernameChanged")
    }

    proof fn tag_known(&self) {
        reveal(<ChatEventUsernameChanged as Wire>::wire);
        assert(tag_of(self.wire()) == Some("chatEventUsernameChanged"@));
        assert(Self::known("chatEventUsernameChanged"@));
    }
}

/// The chat photo was changed
#[derive(Debug, Clone, PartialEq)]
pub struct ChatEventPhotoChanged {
    /// Previous chat photo value; may be null
    pub old_photo: Option<Photo>,
    /// New chat photo value; may be null
    pub new_photo: Option<Photo>,
}

impl Wire for ChatEventPhotoChanged {
    #[verifier::opaque]
    open spec fn wire(&self) -> Doc {
        tagged(
            Map::empty()
                .insert("oldPhoto"@, self.old_photo.wire())
                .insert("newPhoto"@, self.new_photo.wire()),
            "chatEventPhotoChanged"@,
        )
    }

    #[verifier::opaque]
    open spec fn parse(d: Doc, at: Seq<char>) -> Result<Doc, Fault> {
        match d {
            Doc::Object(m) => {
                let old_photo = optional_field::<Photo>(m, "oldPhoto"@);
                let new_photo = optional_field::<Photo>(m, "newPhoto"@);
                if old_photo is Err {
                    old_photo
                } else if new_photo is Err {
                    new_photo
                } else {
                    Ok(
                        tagged(
                            Map::empty()
                                .insert("oldPhoto"@, old_photo->Ok_0)
                                .insert("newPhoto"@, new_photo->Ok_0),
                            "chatEventPhotoChanged"@,
                        ),
                    )
                }
            },
            _ => Err(Fault::TypeMismatch(at)),
        }
    }

    fn encode(&self) -> (j: Json) {
        proof {
            reveal(<ChatEventPhotoChanged as Wire>::wire);
        }
        let mut members: Vec<Member> = Vec::new();
        put(&mut members, "oldPhoto", self.old_photo.encode());
        put(&mut members, "newPhoto", self.new_photo.encode());
        seal(members, "chatEventPhotoChanged")
    }

    fn decode(j: &Json, at: &str) -> (r: Result<Self, DecodeError>) {
        proof {
            reveal(<ChatEventPhotoChanged as Wire>::wire);
            reveal(<ChatEventPhotoChanged as Wire>::parse);
        }
        let members = members_of(j, at)?;
        let old_photo = read_optional::<Photo>(members, "oldPhoto")?;
        let new_photo = read_optional::<Photo>(members, "newPhoto")?;
        Ok(ChatEventPhotoChanged { old_photo, new_photo })
    }

    proof fn round_trip(&self, at: Seq<char>) {
        reveal(<ChatEventPhotoChanged as Wire>::wire);
        reveal(<ChatEventPhotoChanged as Wire>::parse);
        reveal_strlit("@type");
        reveal_strlit("newPhoto");
        reveal_strlit("oldPhoto");
        assert("@type"@.len() == 5);
        assert("newPhoto"@.len() == 8 && "newPhoto"@[0] == 'n');
        assert("oldPhoto"@.len() == 8 && "oldPhoto"@[0] == 'o');
        self.old_photo.round_trip("oldPhoto"@);
        self.new_photo.round_trip("newPhoto"@);
    }
}

impl Tagged for ChatEventPhotoChanged {
    open spec fn known(tag: Seq<char>) -> bool {
        tag == "chatEventPhotoChanged"@
    }

    fn knows(tag: &str) -> (r: bool) {
        same_text(tag, "chatEventPhotoChanged")
    }

    proof fn tag_known(&self) {
        reveal(<ChatEventPhotoChanged as Wire>::wire);
        assert(tag_of(self.wire()) == Some("chatEventPhotoChanged"@));
        assert(Self::known("chatEventPhotoChanged"@));
    }
}

/// The can_invite_users permission of a supergroup chat was toggled
#[derive(Debug, Clone, PartialEq)]
pub struct ChatEventInvitesToggled {
    /// New value of can_invite_users permission
    pub can_invite_users: bool,
}

impl Wire for ChatEventInvitesToggled {
    #[verifier::opaque]
    open spec fn wire(&self) -> Doc {
        tagged(
            Map::empty()
                .insert("canInviteUsers"@, self.can_invite_users.wire()),
            "chatEventInvitesToggled"@,
        )
    }

    #[verifier::opaque]
    open spec fn parse(d: Doc, at: Seq<char>) -> Result<Doc, Fault> {
        match d {
            Doc::Object(m) => {
                let can_invite_users = field::<bool>(m, "canInviteUsers"@);
                if can_invite_users is Err {
                    can_invite_users
                } else {
                    Ok(
                        tagged(
                            Map::empty()
                                .insert("canInviteUsers"@, can_invite_users->Ok_0),
                            "chatEventInvitesToggled"@,
                        ),
                    )
                }
            },
            _ => Err(Fault::TypeMismatch(at)),
        }
    }

    fn encode(&self) -> (j: Json) {
        proof {
            reveal(<ChatEventInvitesToggled as Wire>::wire);
        }
        let mut members: Vec<Member> = Vec::new();
        put(&mut members, "canInviteUsers", self.can_invite_users.encode());
        seal(members, "chatEventInvitesToggled")
    }

    fn decode(j: &Json, at: &str) -> (r: Result<Self, DecodeError>) {
        proof {
            reveal(<ChatEventInvitesToggled as Wire>::wire);
            reveal(<ChatEventInvitesToggled as Wire>::parse);
        }
        let members = members_of(j, at)?;
        let can_invite_users = read_field::<bool>(members, "canInviteUsers")?;
        Ok(ChatEventInvitesToggled { can_invite_users })
    }

    proof fn round_trip(&self, at: Seq<char>) {
        reveal(<ChatEventInvitesToggled as Wire>::wire);
        reveal(<ChatEventInvitesToggled as Wire>::parse);
        reveal_strlit("@type");
        reveal_strlit("canInviteUsers");
        assert("@type"@.len() == 5);
        assert("canInviteUsers"@.len() == 14);
        self.can_invite_users.round_trip("canInviteUsers"@);
    }
}

impl Tagged for ChatEventInvitesToggled {
    open spec fn known(tag: Seq<char>) -> bool {
        tag == "chatEventInvitesToggled"@
    }

    fn knows(tag: &str) -> (r: bool) {
        same_text(tag, "chatEventInvitesToggled")
    }

    proof fn tag_known(&self) {
        reveal(<ChatEventInvitesToggled as Wire>::wire);
        assert(tag_of(self.wire()) == Some("chatEventInvitesToggled"@));
        assert(Self::known("chatEventInvitesToggled"@));
    }
}

/// The linked chat of a supergroup was changed
#[derive(Debug, Clone, PartialEq)]
pub struct ChatEventLinkedChatChanged {
    /// Previous supergroup linked chat identifier
    pub old_linked_chat_id: i64,
    /// New supergroup linked chat identifier
    pub new_linked_chat_id: i64,
}

impl Wire for ChatEventLinkedChatChanged {
    #[verifier::opaque]
    open spec fn wire(&self) -> Doc {
        tagged(
            Map::empty()
                .insert("oldLinkedChatId"@, self.old_linked_chat_id.wire())
                .insert("newLinkedChatId"@, self.new_linked_chat_id.wire()),
            "chatEventLinkedChatChanged"@,
        )
    }

    #[verifier::opaque]
    open spec fn parse(d: Doc, at: Seq<char>) -> Result<Doc, Fault> {
        match d {
            Doc::Object(m) => {
                let old_linked_chat_id = field::<i64>(m, "oldLinkedChatId"@);
                let new_linked_chat_id = field::<i64>(m, "newLinkedChatId"@);
                if old_linked_chat_id is Err {
                    old_linked_chat_id
                } else if new_linked_chat_id is Err {
                    new_linked_chat_id
                } else {
                    Ok(
                        tagged(
                            Map::empty()
                                .insert("oldLinkedChatId"@, old_linked_chat_id->Ok_0)
                                .insert("newLinkedChatId"@, new_linked_chat_id->Ok_0),
                            "chatEventLinkedChatChanged"@,
                        ),
                    )
                }
            },
            _ => Err(Fault::TypeMismatch(at)),
        }
    }

    fn encode(&self) -> (j: Json) {
        proof {
            reveal(<ChatEventLinkedChatChanged as Wire>::wire);
        }
        let mut members: Vec<Member> = Vec::new();
        put(&mut members, "oldLinkedChatId", self.old_linked_chat_id.encode());
        put(&mut members, "newLinkedChatId", self.new_linked_chat_id.encode());
        seal(members, "chatEventLinkedChatChanged")
    }

    fn decode(j: &Json, at: &str) -> (r: Result<Self, DecodeError>) {
        proof {
            reveal(<ChatEventLinkedChatChanged as Wire>::wire);
            reveal(<ChatEventLinkedChatChanged as Wire>::parse);
        }
        let members = members_of(j, at)?;
        let old_linked_chat_id = read_field::<i64>(members, "oldLinkedChatId")?;
        let new_linked_chat_id = read_field::<i64>(members, "newLinkedChatId")?;
        Ok(ChatEventLinkedChatChanged { old_linked_chat_id, new_linked_chat_id })
    }

    proof fn round_trip(&self, at: Seq<char>) {
        reveal(<ChatEventLinkedChatChanged as Wire>::wire);
        reveal(<ChatEventLinkedChatChanged as Wire>::parse);
        reveal_strlit("@type");
        reveal_strlit("newLinkedChatId");
        reveal_strlit("oldLinkedChatId");
        assert("@type"@.len() == 5);
        assert("newLinkedChatId"@.len() == 15 && "newLinkedChatId"@[0] == 'n');
        assert("oldLinkedChatId"@.len() == 15 && "oldLinkedChatId"@[0] == 'o');
        self.old_linked_chat_id.round_trip("oldLinkedChatId"@);
        self.new_linked_chat_id.round_trip("newLinkedChatId"@);
    }
}

impl Tagged for ChatEventLinkedChatChanged {
    open spec fn known(tag: Seq<char>) -> bool {
        tag == "chatEventLinkedChatChanged"@
    }

    fn knows(tag: &str) -> (r: bool) {
        same_text(tag, "chatEventLinkedChatChanged")
    }

    proof fn tag_known(&self) {
        reveal(<ChatEventLinkedChatChanged as Wire>::wire);
        assert(tag_of(self.wire()) == Some("chatEventLinkedChatChanged"@));
        assert(Self::known("chatEventLinkedChatChanged"@));
    }
}

/// The slow_mode_delay setting of a supergroup was changed
#[derive(Debug, Clone, PartialEq)]
pub struct ChatEventSlowModeDelayChanged {
    /// Previous value of slow_mode_delay
    pub old_slow_mode_delay: i32,
    /// New value of slow_mode_delay
    pub new_slow_mode_delay: i32,
}

impl Wire for ChatEventSlowModeDelayChanged {
    #[verifier::opaque]
    open spec fn wire(&self) -> Doc {
        tagged(
            Map::empty()
                .insert("oldSlowModeDelay"@, self.old_slow_mode_delay.wire())
                .insert("newSlowModeDelay"@, self.new_slow_mode_delay.wire()),
            "chatEventSlowModeDelayChanged"@,
        )
    }

    #[verifier::opaque]
    open spec fn parse(d: Doc, at: Seq<char>) -> Result<Doc, Fault> {
        match d {
            Doc::Object(m) => {
                let old_slow_mode_delay = field::<i32>(m, "oldSlowModeDelay"@);
                let new_slow_mode_delay = field::<i32>(m, "newSlowModeDelay"@);
                if old_slow_mode_delay is Err {
                    old_slow_mode_delay
                } else if new_slow_mode_delay is Err {
                    new_slow_mode_delay
                } else {
                    Ok(
                        tagged(
                            Map::empty()
                                .insert("oldSlowModeDelay"@, old_slow_mode_delay->Ok_0)
                                .insert("newSlowModeDelay"@, new_slow_mode_delay->Ok_0),
                            "chatEventSlowModeDelayChanged"@,
                        ),
                    )
                }
            },
            _ => Err(Fault::TypeMismatch(at)),
        }
    }

    fn encode(&self) -> (j: Json) {
        proof {
            reveal(<ChatEventSlowModeDelayChanged as Wire>::wire);
        }
        let mut members: Vec<Member> = Vec::new();
        put(&mut members, "oldSlowModeDelay", self.old_slow_mode_delay.encode());
        put(&mut members, "newSlowModeDelay", self.new_slow_mode_delay.encode());
        seal(members, "chatEventSlowModeDelayChanged")
    }

    fn decode(j: &Json, at: &str) -> (r: Result<Self, DecodeError>) {
        proof {
            reveal(<ChatEventSlowModeDelayChanged as Wire>::wire);
            reveal(<ChatEventSlowModeDelayChanged as Wire>::parse);
        }
        let members = members_of(j, at)?;
        let old_slow_mode_delay = read_field::<i32>(members, "oldSlowModeDelay")?;
        let new_slow_mode_delay = read_field::<i32>(members, "newSlowModeDelay")?;
        Ok(ChatEventSlowModeDelayChanged { old_slow_mode_delay, new_slow_mode_delay })
    }

    proof fn round_trip(&self, at: Seq<char>) {
        reveal(<ChatEventSlowModeDelayChanged as Wire>::wire);
        reveal(<ChatEventSlowModeDelayChanged as Wire>::parse);
        reveal_strlit("@type");
        reveal_strlit("newSlowModeDelay");
        reveal_strlit("oldSlowModeDelay");
        assert("@type"@.len() == 5);
        assert("newSlowModeDelay"@.len() == 16 && "newSlowModeDelay"@[0] == 'n');
        assert("oldSlowModeDelay"@.len() == 16 && "oldSlowModeDelay"@[0] == 'o');
        self.old_slow_mode_delay.round_trip("oldSlowModeDelay"@);
        self.new_slow_mode_delay.round_trip("newSlowModeDelay"@);
    }
}

impl Tagged for ChatEventSlowModeDelayChanged {
    open spec fn known(tag: Seq<char>) -> bool {
        tag == "chatEventSlowModeDelayChanged"@
    }

    fn knows(tag: &str) -> (r: bool) {
        same_text(tag, "chatEventSlowModeDelayChanged")
    }

    proof fn tag_known(&self) {
        reveal(<ChatEventSlowModeDelayChanged as Wire>::wire);
        assert(tag_of(self.wire()) == Some("chatEventSlowModeDelayChanged"@));
        assert(Self::known("chatEventSlowModeDelayChanged"@));
    }
}

/// The sign_messages setting of a channel was toggled
#[derive(Debug, Clone, PartialEq)]
pub struct ChatEventSignMessagesToggled {
    /// New value of sign_messages
    pub sign_messages: bool,
}

impl Wire for ChatEventSignMessagesToggled {
    #[verifier::opaque]
    open spec fn wire(&self) -> Doc {
        tagged(
            Map::empty()
                .insert("signMessages"@, self.sign_messages.wire()),
            "chatEventSignMessagesToggled"@,
        )
    }

    #[verifier::opaque]
    open spec fn parse(d: Doc, at: Seq<char>) -> Result<Doc, Fault> {
        match d {
            Doc::Object(m) => {
                let sign_messages = field::<bool>(m, "signMessages"@);
                if sign_messages is Err {
                    sign_messages
                } else {
                    Ok(
                        tagged(
                            Map::empty()
                                .insert("signMessages"@, sign_messages->Ok_0),
                            "chatEventSignMessagesToggled"@,
                        ),
                    )
                }
            },
            _ => Err(Fault::TypeMismatch(at)),
        }
    }

    fn encode(&self) -> (j: Json) {
        proof {
            reveal(<ChatEventSignMessagesToggled as Wire>::wire);
        }
        let mut members: Vec<Member> = Vec::new();
        put(&mut members, "signMessages", self.sign_messages.encode());
        seal(members, "chatEventSignMessagesToggled")
    }

    fn decode(j: &Json, at: &str) -> (r: Result<Self, DecodeError>) {
        proof {
            reveal(<ChatEventSignMessagesToggled as Wire>::wire);
            reveal(<ChatEventSignMessagesToggled as Wire>::parse);
        }
        let members = members_of(j, at)?;
        let sign_messages = read_field::<bool>(members, "signMessages")?;
        Ok(ChatEventSignMessagesToggled { sign_messages })
    }

    proof fn round_trip(&self, at: Seq<char>) {
        reveal(<ChatEventSignMessagesToggled as Wire>::wire);
        reveal(<ChatEventSignMessagesToggled as Wire>::parse);
        reveal_strlit("@type");
        reveal_strlit("signMessages");
        assert("@type"@.len() == 5);
        assert("signMessages"@.len() == 12);
        self.sign_messages.round_trip("signMessages"@);
    }
}

impl Tagged for ChatEventSignMessagesToggled {
    open spec fn known(tag: Seq<char>) -> bool {
        tag == "chatEventSignMessagesToggled"@
    }

    fn knows(tag: &str) -> (r: bool) {
        same_text(tag, "chatEventSignMessagesToggled")
    }

    proof fn tag_known(&self) {
        reveal(<ChatEventSignMessagesToggled as Wire>::wire);
        assert(tag_of(self.wire()) == Some("chatEventSignMessagesToggled"@));
        assert(Self::known("chatEventSignMessagesToggled"@));
    }
}

/// The supergroup sticker set was changed
#[derive(Debug, Clone, PartialEq)]
pub struct ChatEventStickerSetChanged {
    /// Previous identifier of the chat sticker set; 0 if none
    pub old_sticker_set_id: i64,
    /// New identifier of the chat sticker set; 0 if none
    pub new_sticker_set_id: i64,
}

impl Wire for ChatEventStickerSetChanged {
    #[verifier::opaque]
    open spec fn wire(&self) -> Doc {
        tagged(
            Map::empty()
                .insert("oldStickerSetId"@, wide_doc(self.old_sticker_set_id))
                .insert("newStickerSetId"@, wide_doc(self.new_sticker_set_id)),
            "chatEventStickerSetChanged"@,
        )
    }

    #[verifier::opaque]
    open spec fn parse(d: Doc, at: Seq<char>) -> Result<Doc, Fault> {
        match d {
            Doc::Object(m) => {
                let old_sticker_set_id = wide_field(m, "oldStickerSetId"@);
                let new_sticker_set_id = wide_field(m, "newStickerSetId"@);
                if old_sticker_set_id is Err {
                    old_sticker_set_id
                } else if new_sticker_set_id is Err {
                    new_sticker_set_id
                } else {
                    Ok(
                        tagged(
                            Map::empty()
                                .insert("oldStickerSetId"@, old_sticker_set_id->Ok_0)
                                .insert("newStickerSetId"@, new_sticker_set_id->Ok_0),
                            "chatEventStickerSetChanged"@,
                        ),
                    )
                }
            },
            _ => Err(Fault::TypeMismatch(at)),
        }
    }

    fn encode(&self) -> (j: Json) {
        proof {
            reveal(<ChatEventStickerSetChanged as Wire>::wire);
        }
        let mut members: Vec<Member> = Vec::new();
        put(&mut members, "oldStickerSetId", encode_wide(self.old_sticker_set_id));
        put(&mut members, "newStickerSetId", encode_wide(self.new_sticker_set_id));
        seal(members, "chatEventStickerSetChanged")
    }

    fn decode(j: &Json, at: &str) -> (r: Result<Self, DecodeError>) {
        proof {
            reveal(<ChatEventStickerSetChanged as Wire>::wire);
            reveal(<ChatEventStickerSetChanged as Wire>::parse);
        }
        let members = members_of(j, at)?;
        let old_sticker_set_id = read_wide(members, "oldStickerSetId")?;
        let new_sticker_set_id = read_wide(members, "newStickerSetId")?;
        Ok(ChatEventStickerSetChanged { old_sticker_set_id, new_sticker_set_id })
    }

    proof fn round_trip(&self, at: Seq<char>) {
        reveal(<ChatEventStickerSetChanged as Wire>::wire);
        reveal(<ChatEventStickerSetChanged as Wire>::parse);
        reveal_strlit("@type");
        reveal_strlit("newStickerSetId");
        reveal_strlit("oldStickerSetId");
        assert("@type"@.len() == 5);
        assert("newStickerSetId"@.len() == 15 && "newStickerSetId"@[0] == 'n');
        assert("oldStickerSetId"@.len() == 15 && "oldStickerSetId"@[0] == 'o');
        lemma_wide_round_trip(self.old_sticker_set_id, "oldStickerSetId"@);
        lemma_wide_round_trip(self.new_sticker_set_id, "newStickerSetId"@);
    }
}

impl Tagged for ChatEventStickerSetChanged {
    open spec fn known(tag: Seq<char>) -> bool {
        tag == "chatEventStickerSetChanged"@
    }

    fn knows(tag: &str) -> (r: bool) {
        same_text(tag, "chatEventStickerSetChanged")
    }

    proof fn tag_known(&self) {
        reveal(<ChatEventStickerSetChanged as Wire>::wire);
        assert(tag_of(self.wire()) == Some("chatEventStickerSetChanged"@));
        assert(Self::known("chatEventStickerSetChanged"@));
    }
}

/// The supergroup location was changed
#[derive(Debug, Clone, PartialEq)]
pub struct ChatEventLocationChanged {
    /// Previous location; may be null
    pub old_location: Option<ChatLocation>,
    /// New location; may be null
    pub new_location: Option<ChatLocation>,
}

impl Wire for ChatEventLocationChanged {
    #[verifier::opaque]
    open spec fn wire(&self) -> Doc {
        tagged(
            Map::empty()
                .insert("oldLocation"@, self.old_location.wire())
                .insert("newLocation"@, self.new_location.wire()),
            "chatEventLocationChanged"@,
        )
    }

    #[verifier::opaque]
    open spec fn parse(d: Doc, at: Seq<char>) -> Result<Doc, Fault> {
        match d {
            Doc::Object(m) => {
                let old_location = optional_field::<ChatLocation>(m, "oldLocation"@);
                let new_location = optional_field::<ChatLocation>(m, "newLocation"@);
                if old_location is Err {
                    old_location
                } else if new_location is Err {
                    new_location
                } else {
                    Ok(
                        tagged(
                            Map::empty()
                                .insert("oldLocation"@, old_location->Ok_0)
                                .insert("newLocation"@, new_location->Ok_0),
                            "chatEventLocationChanged"@,
                        ),
                    )
                }
            },
            _ => Err(Fault::TypeMismatch(at)),
        }
    }

    fn encode(&self) -> (j: Json) {
        proof {
            reveal(<ChatEventLocationChanged as Wire>::wire);
        }
        let mut members: Vec<Member> = Vec::new();
        put(&mut members, "oldLocation", self.old_location.encode());
        put(&mut members, "newLocation", self.new_location.encode());
        seal(members, "chatEventLocationChanged")
    }

    fn decode(j: &Json, at: &str) -> (r: Result<Self, DecodeError>) {
        proof {
            reveal(<ChatEventLocationChanged as Wire>::wire);
            reveal(<ChatEventLocationChanged as Wire>::parse);
        }
        let members = members_of(j, at)?;
        let old_location = read_optional::<ChatLocation>(members, "oldLocation")?;
        let new_location = read_optional::<ChatLocation>(members, "newLocation")?;
        Ok(ChatEventLocationChanged { old_location, new_location })
    }

    proof fn round_trip(&self, at: Seq<char>) {
        reveal(<ChatEventLocationChanged as Wire>::wire);
        reveal(<ChatEventLocationChanged as Wire>::parse);
        reveal_strlit("@type");
        reveal_strlit("newLocation");
        reveal_strlit("oldLocation");
        assert("@type"@.len() == 5);
        assert("newLocation"@.len() == 11 && "newLocation"@[0] == 'n');
        assert("oldLocation"@.len() == 11 && "oldLocation"@[0] == 'o');
        self.old_location.round_trip("oldLocation"@);
        self.new_location.round_trip("newLocation"@);
    }
}

impl Tagged for ChatEventLocationChanged {
    open spec fn known(tag: Seq<char>) -> bool {
        tag == "chatEventLocationChanged"@
    }

    fn knows(tag: &str) -> (r: bool) {
        same_text(tag, "chatEventLocationChanged")
    }

    proof fn tag_known(&self) {
        reveal(<ChatEventLocationChanged as Wire>::wire);
        assert(tag_of(self.wire()) == Some("chatEventLocationChanged"@));
        assert(Self::known("chatEventLocationChanged"@));
    }
}

/// The is_all_history_available setting of a supergroup was toggled
#[derive(Debug, Clone, PartialEq)]
pub struct ChatEventIsAllHistoryAvailableToggled {
    /// New value of is_all_history_available
    pub is_all_history_available: bool,
}

impl Wire for ChatEventIsAllHistoryAvailableToggled {
    #[verifier::opaque]
    open spec fn wire(&self) -> Doc {
        tagged(
            Map::empty()
                .insert("isAllHistoryAvailable"@, self.is_all_history_available.wire()),
            "chatEventIsAllHistoryAvailableToggled"@,
        )
    }

    #[verifier::opaque]
    open spec fn parse(d: Doc, at: Seq<char>) -> Result<Doc, Fault> {
        match d {
            Doc::Object(m) => {
                let is_all_history_available = field::<bool>(m, "isAllHistoryAvailable"@);
                if is_all_history_available is Err {
                    is_all_history_available
                } else {
                    Ok(
                        tagged(
                            Map::empty()
                                .insert("isAllHistoryAvailable"@, is_all_history_available->Ok_0),
                            "chatEventIsAllHistoryAvailableToggled"@,
                        ),
                    )
                }
            },
            _ => Err(Fault::TypeMismatch(at)),
        }
    }

    fn encode(&self) -> (j: Json) {
        proof {
            reveal(<ChatEventIsAllHistoryAvailableToggled as Wire>::wire);
        }
        let mut members: Vec<Member> = Vec::new();
        put(&mut members, "isAllHistoryAvailable", self.is_all_history_available.encode());
        seal(members, "chatEventIsAllHistoryAvailableToggled")
    }

    fn decode(j: &Json, at: &str) -> (r: Result<Self, DecodeError>) {
        proof {
            reveal(<ChatEventIsAllHistoryAvailableToggled as Wire>::wire);
            reveal(<ChatEventIsAllHistoryAvailableToggled as Wire>::parse);
        }
        let members = members_of(j, at)?;
        let is_all_history_available = read_field::<bool>(members, "isAllHistoryAvailable")?;
        Ok(ChatEventIsAllHistoryAvailableToggled { is_all_history_available })
    }

    proof fn round_trip(&self, at: Seq<char>) {
        reveal(<ChatEventIsAllHistoryAvailableToggled as Wire>::wire);
        reveal(<ChatEventIsAllHistoryAvailableToggled as Wire>::parse);
        reveal_strlit("@type");
        reveal_strlit("isAllHistoryAvailable");
        assert("@type"@.len() == 5);
        assert("isAllHistoryAvailable"@.len() == 21);
        self.is_all_history_available.round_trip("isAllHistoryAvailable"@);
    }
}

impl Tagged for ChatEventIsAllHistoryAvailableToggled {
    open spec fn known(tag: Seq<char>) -> bool {
        tag == "chatEventIsAllHistoryAvailableToggled"@
    }

    fn knows(tag: &str) -> (r: bool) {
        same_text(tag, "chatEventIsAllHistoryAvailableToggled")
    }

    proof fn tag_known(&self) {
        reveal(<ChatEventIsAllHistoryAvailableToggled as Wire>::wire);
        assert(tag_of(self.wire()) == Some("chatEventIsAllHistoryAvailableToggled"@));
        assert(Self::known("chatEventIsAllHistoryAvailableToggled"@));
    }
}

/// Represents a chat event
#[derive(Debug, Clone, PartialEq)]
pub enum ChatEventAction {
    ChatEventMessageEdited(ChatEventMessageEdited),
    ChatEventMessageDeleted(ChatEventMessageDeleted),
    ChatEventPollStopped(ChatEventPollStopped),
    ChatEventMessagePinned(ChatEventMessagePinned),
    ChatEventMessageUnpinned(ChatEventMessageUnpinned),
    ChatEventMemberJoined(ChatEventMemberJoined),
    ChatEventMemberLeft(ChatEventMemberLeft),
    ChatEventMemberInvited(ChatEventMemberInvited),
    ChatEventMemberPromoted(ChatEventMemberPromoted),
    ChatEventMemberRestricted(ChatEventMemberRestricted),
    ChatEventTitleChanged(ChatEventTitleChanged),
    ChatEventPermissionsChanged(ChatEventPermissionsChanged),
    ChatEventDescriptionChanged(ChatEventDescriptionChanged),
    ChatEventUsernameChanged(ChatEventUsernameChanged),
    ChatEventPhotoChanged(ChatEventPhotoChanged),
    ChatEventInvitesToggled(ChatEventInvitesToggled),
    ChatEventLinkedChatChanged(ChatEventLinkedChatChanged),
    ChatEventSlowModeDelayChanged(ChatEventSlowModeDelayChanged),
    ChatEventSignMessagesToggled(ChatEventSignMessagesToggled),
    ChatEventStickerSetChanged(ChatEventStickerSetChanged),
    ChatEventLocationChanged(ChatEventLocationChanged),
    ChatEventIsAllHistoryAvailableToggled(ChatEventIsAllHistoryAvailableToggled),
}

impl Wire for ChatEventAction {
    #[verifier::opaque]
    open spec fn wire(&self) -> Doc {
        match self {
            Self::ChatEventMessageEdited(p) => p.wire(),
            Self::ChatEventMessageDeleted(p) => p.wire(),
            Self::ChatEventPollStopped(p) => p.wire(),
            Self::ChatEventMessagePinned(p) => p.wire(),
            Self::ChatEventMessageUnpinned(p) => p.wire(),
            Self::ChatEventMemberJoined(p) => p.wire(),
            Self::ChatEventMemberLeft(p) => p.wire(),
            Self::ChatEventMemberInvited(p) => p.wire(),
            Self::ChatEventMemberPromoted(p) => p.wire(),
            Self::ChatEventMemberRestricted(p) => p.wire(),
            Self::ChatEventTitleChanged(p) => p.wire(),
            Self::ChatEventPermissionsChanged(p) => p.wire(),
            Self::ChatEventDescriptionChanged(p) => p.wire(),
            Self::ChatEventUsernameChanged(p) => p.wire(),
            Self::ChatEventPhotoChanged(p) => p.wire(),
            Self::ChatEventInvitesToggled(p) => p.wire(),
            Self::ChatEventLinkedChatChanged(p) => p.wire(),
            Self::ChatEventSlowModeDelayChanged(p) => p.wire(),
            Self::ChatEventSignMessagesToggled(p) => p.wire(),
            Self::ChatEventStickerSetChanged(p) => p.wire(),
            Self::ChatEventLocationChanged(p) => p.wire(),
            Self::ChatEventIsAllHistoryAvailableToggled(p) => p.wire(),
        }
    }

    #[verifier::opaque]
    open spec fn parse(d: Doc, at: Seq<char>) -> Result<Doc, Fault> {
        match d {
            Doc::Object(_) => match tag_of(d) {
                Some(t) => if t == "chatEventMessageEdited"@ {
                    ChatEventMessageEdited::parse(d, at)
                } else if t == "chatEventMessageDeleted"@ {
                    ChatEventMessageDeleted::parse(d, at)
                } else if t == "chatEventPollStopped"@ {
                    ChatEventPollStopped::parse(d, at)
                } else if t == "chatEventMessagePinned"@ {
                    ChatEventMessagePinned::parse(d, at)
                } else if t == "chatEventMessageUnpinned"@ {
                    ChatEventMessageUnpinned::parse(d, at)
                } else if t == "chatEventMemberJoined"@ {
                    ChatEventMemberJoined::parse(d, at)
                } else if t == "chatEventMemberLeft"@ {
                    ChatEventMemberLeft::parse(d, at)
                } else if t == "chatEventMemberInvited"@ {
                    ChatEventMemberInvited::parse(d, at)
                } else if t == "chatEventMemberPromoted"@ {
                    ChatEventMemberPromoted::parse(d, at)
                } else if t == "chatEventMemberRestricted"@ {
                    ChatEventMemberRestricted::parse(d, at)
                } else if t == "chatEventTitleChanged"@ {
                    ChatEventTitleChanged::parse(d, at)
                } else if t == "chatEventPermissionsChanged"@ {
                    ChatEventPermissionsChanged::parse(d, at)
                } else if t == "chatEventDescriptionChanged"@ {
                    ChatEventDescriptionChanged::parse(d, at)
                } else if t == "chatEventUsernameChanged"@ {
                    ChatEventUsernameChanged::parse(d, at)
                } else if t == "chatEventPhotoChanged"@ {
                    ChatEventPhotoChanged::parse(d, at)
                } else if t == "chatEventInvitesToggled"@ {
                    ChatEventInvitesToggled::parse(d, at)
                } else if t == "chatEventLinkedChatChanged"@ {
                    ChatEventLinkedChatChanged::parse(d, at)
                } else if t == "chatEventSlowModeDelayChanged"@ {
                    ChatEventSlowModeDelayChanged::parse(d, at)
                } else if t == "chatEventSignMessagesToggled"@ {
                    ChatEventSignMessagesToggled::parse(d, at)
                } else if t == "chatEventStickerSetChanged"@ {
                    ChatEventStickerSetChanged::parse(d, at)
                } else if t == "chatEventLocationChanged"@ {
                    ChatEventLocationChanged::parse(d, at)
                } else if t == "chatEventIsAllHistoryAvailableToggled"@ {
                    ChatEventIsAllHistoryAvailableToggled::parse(d, at)
                } else {
                    Err(Fault::UnknownVariant(t))
                },
                None => Err(Fault::MissingDiscriminator),
            },
            _ => Err(Fault::TypeMismatch(at)),
        }
    }

    fn encode(&self) -> (j: Json) {
        proof {
            reveal(<ChatEventAction as Wire>::wire);
        }
        match self {
            Self::ChatEventMessageEdited(p) => p.encode(),
            Self::ChatEventMessageDeleted(p) => p.encode(),
            Self::ChatEventPollStopped(p) => p.encode(),
            Self::ChatEventMessagePinned(p) => p.encode(),
            Self::ChatEventMessageUnpinned(p) => p.encode(),
            Self::ChatEventMemberJoined(p) => p.encode(),
            Self::ChatEventMemberLeft(p) => p.encode(),
            Self::ChatEventMemberInvited(p) => p.encode(),
            Self::ChatEventMemberPromoted(p) => p.encode(),
            Self::ChatEventMemberRestricted(p) => p.encode(),
            Self::ChatEventTitleChanged(p) => p.encode(),
            Self::ChatEventPermissionsChanged(p) => p.encode(),
            Self::ChatEventDescriptionChanged(p) => p.encode(),
            Self::ChatEventUsernameChanged(p) => p.encode(),
            Self::ChatEventPhotoChanged(p) => p.encode(),
            Self::ChatEventInvitesToggled(p) => p.encode(),
            Self::ChatEventLinkedChatChanged(p) => p.encode(),
            Self::ChatEventSlowModeDelayChanged(p) => p.encode(),
            Self::ChatEventSignMessagesToggled(p) => p.encode(),
            Self::ChatEventStickerSetChanged(p) => p.encode(),
            Self::ChatEventLocationChanged(p) => p.encode(),
            Self::ChatEventIsAllHistoryAvailableToggled(p) => p.encode(),
        }
    }

    fn decode(j: &Json, at: &str) -> (r: Result<Self, DecodeError>) {
        proof {
            reveal(<ChatEventAction as Wire>::wire);
            reveal(<ChatEventAction as Wire>::parse);
        }
        let members = members_of(j, at)?;
        let tag = discriminator(members)?;
        if same_text(tag, "chatEventMessageEdited") {
            Ok(Self::ChatEventMessageEdited(ChatEventMessageEdited::decode(j, at)?))
        } else if same_text(tag, "chatEventMessageDeleted") {
            Ok(Self::ChatEventMessageDeleted(ChatEventMessageDeleted::decode(j, at)?))
        } else if same_text(tag, "chatEventPollStopped") {
            Ok(Self::ChatEventPollStopped(ChatEventPollStopped::decode(j, at)?))
        } else if same_text(tag, "chatEventMessagePinned") {
            Ok(Self::ChatEventMessagePinned(ChatEventMessagePinned::decode(j, at)?))
        } else if same_text(tag, "chatEventMessageUnpinned") {
            Ok(Self::ChatEventMessageUnpinned(ChatEventMessageUnpinned::decode(j, at)?))
        } else if same_text(tag, "chatEventMemberJoined") {
            Ok(Self::ChatEventMemberJoined(ChatEventMemberJoined::decode(j, at)?))
        } else if same_text(tag, "chatEventMemberLeft") {
            Ok(Self::ChatEventMemberLeft(ChatEventMemberLeft::decode(j, at)?))
        } else if same_text(tag, "chatEventMemberInvited") {
            Ok(Self::ChatEventMemberInvited(ChatEventMemberInvited::decode(j, at)?))
        } else if same_text(tag, "chatEventMemberPromoted") {
            Ok(Self::ChatEventMemberPromoted(ChatEventMemberPromoted::decode(j, at)?))
        } else if same_text(tag, "chatEventMemberRestricted") {
            Ok(Self::ChatEventMemberRestricted(ChatEventMemberRestricted::decode(j, at)?))
        } else if same_text(tag, "chatEventTitleChanged") {
            Ok(Self::ChatEventTitleChanged(ChatEventTitleChanged::decode(j, at)?))
        } else if same_text(tag, "chatEventPermissionsChanged") {
            Ok(Self::ChatEventPermissionsChanged(ChatEventPermissionsChanged::decode(j, at)?))
        } else if same_text(tag, "chatEventDescriptionChanged") {
            Ok(Self::ChatEventDescriptionChanged(ChatEventDescriptionChanged::decode(j, at)?))
        } else if same_text(tag, "chatEventUsernameChanged") {
            Ok(Self::ChatEventUsernameChanged(ChatEventUsernameChanged::decode(j, at)?))
        } else if same_text(tag, "chatEventPhotoChanged") {
            Ok(Self::ChatEventPhotoChanged(ChatEventPhotoChanged::decode(j, at)?))
        } else if same_text(tag, "chatEventInvitesToggled") {
            Ok(Self::ChatEventInvitesToggled(ChatEventInvitesToggled::decode(j, at)?))
        } else if same_text(tag, "chatEventLinkedChatChanged") {
            Ok(Self::ChatEventLinkedChatChanged(ChatEventLinkedChatChanged::decode(j, at)?))
        } else if same_text(tag, "chatEventSlowModeDelayChanged") {
            Ok(Self::ChatEventSlowModeDelayChanged(ChatEventSlowModeDelayChanged::decode(j, at)?))
        } else if same_text(tag, "chatEventSignMessagesToggled") {
            Ok(Self::ChatEventSignMessagesToggled(ChatEventSignMessagesToggled::decode(j, at)?))
        } else if same_text(tag, "chatEventStickerSetChanged") {
            Ok(Self::ChatEventStickerSetChanged(ChatEventStickerSetChanged::decode(j, at)?))
        } else if same_text(tag, "chatEventLocationChanged") {
            Ok(Self::ChatEventLocationChanged(ChatEventLocationChanged::decode(j, at)?))
        } else if same_text(tag, "chatEventIsAllHistoryAvailableToggled") {
            Ok(
                Self::ChatEventIsAllHistoryAvailableToggled(
                    ChatEventIsAllHistoryAvailableToggled::decode(j, at)?,
                ),
            )
        } else {
            Err(DecodeError::UnknownVariant(tag.to_owned()))
        }
    }

    proof fn round_trip(&self, at: Seq<char>) {
        reveal(<ChatEventAction as Wire>::wire);
        match self {
            Self::ChatEventMessageEdited(p) => {
                p.tag_known();
                Self::selects_chat_event_message_edited(p.wire(), at);
                p.round_trip(at);
            },
            Self::ChatEventMessageDeleted(p) => {
                p.tag_known();
                Self::selects_chat_event_message_deleted(p.wire(), at);
                p.round_trip(at);
            },
            Self::ChatEventPollStopped(p) => {
                p.tag_known();
                Self::selects_chat_event_poll_stopped(p.wire(), at);
                p.round_trip(at);
            },
            Self::ChatEventMessagePinned(p) => {
                p.tag_known();
                Self::selects_chat_event_message_pinned(p.wire(), at);
                p.round_trip(at);
            },
            Self::ChatEventMessageUnpinned(p) => {
                p.tag_known();
                Self::selects_chat_event_message_unpinned(p.wire(), at);
                p.round_trip(at);
            },
            Self::ChatEventMemberJoined(p) => {
                p.tag_known();
                Self::selects_chat_event_member_joined(p.wire(), at);
                p.round_trip(at);
            },
            Self::ChatEventMemberLeft(p) => {
                p.tag_known();
                Self::selects_chat_event_member_left(p.wire(), at);
                p.round_trip(at);
            },
            Self::ChatEventMemberInvited(p) => {
                p.tag_known();
                Self::selects_chat_event_member_invited(p.wire(), at);
                p.round_trip(at);
            },
            Self::ChatEventMemberPromoted(p) => {
                p.tag_known();
                Self::selects_chat_event_member_promoted(p.wire(), at);
                p.round_trip(at);
            },
            Self::ChatEventMemberRestricted(p) => {
                p.tag_known();
                Self::selects_chat_event_member_restricted(p.wire(), at);
                p.round_trip(at);
            },
            Self::ChatEventTitleChanged(p) => {
                p.tag_known();
                Self::selects_chat_event_title_changed(p.wire(), at);
                p.round_trip(at);
            },
            Self::ChatEventPermissionsChanged(p) => {
                p.tag_known();
                Self::selects_chat_event_permissions_changed(p.wire(), at);
                p.round_trip(at);
            },
            Self::ChatEventDescriptionChanged(p) => {
                p.tag_known();
                Self::selects_chat_event_description_changed(p.wire(), at);
                p.round_trip(at);
            },
            Self::ChatEventUsernameChanged(p) => {
                p.tag_known();
                Self::selects_chat_event_username_changed(p.wire(), at);
                p.round_trip(at);
            },
            Self::ChatEventPhotoChanged(p) => {
                p.tag_known();
                Self::selects_chat_event_photo_changed(p.wire(), at);
                p.round_trip(at);
            },
            Self::ChatEventInvitesToggled(p) => {
                p.tag_known();
                Self::selects_chat_event_invites_toggled(p.wire(), at);
                p.round_trip(at);
            },
            Self::ChatEventLinkedChatChanged(p) => {
                p.tag_known();
                Self::selects_chat_event_linked_chat_changed(p.wire(), at);
                p.round_trip(at);
            },
            Self::ChatEventSlowModeDelayChanged(p) => {
                p.tag_known();
                Self::selects_chat_event_slow_mode_delay_changed(p.wire(), at);
                p.round_trip(at);
            },
            Self::ChatEventSignMessagesToggled(p) => {
                p.tag_known();
                Self::selects_chat_event_sign_messages_toggled(p.wire(), at);
                p.round_trip(at);
            },
            Self::ChatEventStickerSetChanged(p) => {
                p.tag_known();
                Self::selects_chat_event_sticker_set_changed(p.wire(), at);
                p.round_trip(at);
            },
            Self::ChatEventLocationChanged(p) => {
                p.tag_known();
                Self::selects_chat_event_location_changed(p.wire(), at);
                p.round_trip(at);
            },
            Self::ChatEventIsAllHistoryAvailableToggled(p) => {
                p.tag_known();
                Self::selects_chat_event_is_all_history_available_toggled(p.wire(), at);
                p.round_trip(at);
            },
        }
    }
}

impl Tagged for ChatEventAction {
    open spec fn known(tag: Seq<char>) -> bool {
        ||| tag == "chatEventMessageEdited"@
        ||| tag == "chatEventMessageDeleted"@
        ||| tag == "chatEventPollStopped"@
        ||| tag == "chatEventMessagePinned"@
        ||| tag == "chatEventMessageUnpinned"@
        ||| tag == "chatEventMemberJoined"@
        ||| tag == "chatEventMemberLeft"@
        ||| tag == "chatEventMemberInvited"@
        ||| tag == "chatEventMemberPromoted"@
        ||| tag == "chatEventMemberRestricted"@
        ||| tag == "chatEventTitleChanged"@
        ||| tag == "chatEventPermissionsChanged"@
        ||| tag == "chatEventDescriptionChanged"@
        ||| tag == "chatEventUsernameChanged"@
        ||| tag == "chatEventPhotoChanged"@
        ||| tag == "chatEventInvitesToggled"@
        ||| tag == "chatEventLinkedChatChanged"@
        ||| tag == "chatEventSlowModeDelayChanged"@
        ||| tag == "chatEventSignMessagesToggled"@
        ||| tag == "chatEventStickerSetChanged"@
        ||| tag == "chatEventLocationChanged"@
        ||| tag == "chatEventIsAllHistoryAvailableToggled"@
    }

    fn knows(tag: &str) -> (r: bool) {
        same_text(tag, "chatEventMessageEdited")
            || same_text(tag, "chatEventMessageDeleted")
            || same_text(tag, "chatEventPollStopped")
            || same_text(tag, "chatEventMessagePinned")
            || same_text(tag, "chatEventMessageUnpinned")
            || same_text(tag, "chatEventMemberJoined")
            || same_text(tag, "chatEventMemberLeft")
            || same_text(tag, "chatEventMemberInvited")
            || same_text(tag, "chatEventMemberPromoted")
            || same_text(tag, "chatEventMemberRestricted")
            || same_text(tag, "chatEventTitleChanged")
            || same_text(tag, "chatEventPermissionsChanged")
            || same_text(tag, "chatEventDescriptionChanged")
            || same_text(tag, "chatEventUsernameChanged")
            || same_text(tag, "chatEventPhotoChanged")
            || same_text(tag, "chatEventInvitesToggled")
            || same_text(tag, "chatEventLinkedChatChanged")
            || same_text(tag, "chatEventSlowModeDelayChanged")
            || same_text(tag, "chatEventSignMessagesToggled")
            || same_text(tag, "chatEventStickerSetChanged")
            || same_text(tag, "chatEventLocationChanged")
            || same_text(tag, "chatEventIsAllHistoryAvailableToggled")
    }

    proof fn tag_known(&self) {
        reveal(<ChatEventAction as Wire>::wire);
        match self {
            Self::ChatEventMessageEdited(p) => p.tag_known(),
            Self::ChatEventMessageDeleted(p) => p.tag_known(),
            Self::ChatEventPollStopped(p) => p.tag_known(),
            Self::ChatEventMessagePinned(p) => p.tag_known(),
            Self::ChatEventMessageUnpinned(p) => p.tag_known(),
            Self::ChatEventMemberJoined(p) => p.tag_known(),
            Self::ChatEventMemberLeft(p) => p.tag_known(),
            Self::ChatEventMemberInvited(p) => p.tag_known(),
            Self::ChatEventMemberPromoted(p) => p.tag_known(),
            Self::ChatEventMemberRestricted(p) => p.tag_known(),
            Self::ChatEventTitleChanged(p) => p.tag_known(),
            Self::ChatEventPermissionsChanged(p) => p.tag_known(),
            Self::ChatEventDescriptionChanged(p) => p.tag_known(),
            Self::ChatEventUsernameChanged(p) => p.tag_known(),
            Self::ChatEventPhotoChanged(p) => p.tag_known(),
            Self::ChatEventInvitesToggled(p) => p.tag_known(),
            Self::ChatEventLinkedChatChanged(p) => p.tag_known(),
            Self::ChatEventSlowModeDelayChanged(p) => p.tag_known(),
            Self::ChatEventSignMessagesToggled(p) => p.tag_known(),
            Self::ChatEventStickerSetChanged(p) => p.tag_known(),
            Self::ChatEventLocationChanged(p) => p.tag_known(),
            Self::ChatEventIsAllHistoryAvailableToggled(p) => p.tag_known(),
        }
    }
}

impl Union for ChatEventAction {
    proof fn unknown_rejected(d: Doc, at: Seq<char>) {
        reveal(<ChatEventAction as Wire>::parse);
    }

    proof fn untagged_rejected(d: Doc, at: Seq<char>) {
        reveal(<ChatEventAction as Wire>::parse);
    }
}

impl ChatEventAction {
    spec fn measured() -> bool {
        &&& "chatEventDescriptionChanged"@.len() == 27
        &&& "chatEventInvitesToggled"@.len() == 23
        &&& "chatEventIsAllHistoryAvailableToggled"@.len() == 37
        &&& "chatEventLinkedChatChanged"@.len() == 26
        &&& "chatEventLocationChanged"@.len() == 24
        &&& "chatEventMemberInvited"@.len() == 22
        &&& "chatEventMemberJoined"@.len() == 21
        &&& "chatEventMemberLeft"@.len() == 19
        &&& "chatEventMemberPromoted"@.len() == 23
        &&& "chatEventMemberRestricted"@.len() == 25
        &&& "chatEventMessageDeleted"@.len() == 23
        &&& "chatEventMessageEdited"@.len() == 22
        &&& "chatEventMessagePinned"@.len() == 22
        &&& "chatEventMessageUnpinned"@.len() == 24
        &&& "chatEventPermissionsChanged"@.len() == 27
        &&& "chatEventPhotoChanged"@.len() == 21
        &&& "chatEventPollStopped"@.len() == 20
        &&& "chatEventSignMessagesToggled"@.len() == 28
        &&& "chatEventSlowModeDelayChanged"@.len() == 29
        &&& "chatEventStickerSetChanged"@.len() == 26
        &&& "chatEventTitleChanged"@.len() == 21
        &&& "chatEventUsernameChanged"@.len() == 24
    }

    proof fn tags_measured()
        ensures
            Self::measured(),
    {
        reveal_strlit("chatEventDescriptionChanged");
        reveal_strlit("chatEventInvitesToggled");
        reveal_strlit("chatEventIsAllHistoryAvailableToggled");
        reveal_strlit("chatEventLinkedChatChanged");
        reveal_strlit("chatEventLocationChanged");
        reveal_strlit("chatEventMemberInvited");
        reveal_strlit("chatEventMemberJoined");
        reveal_strlit("chatEventMemberLeft");
        reveal_strlit("chatEventMemberPromoted");
        reveal_strlit("chatEventMemberRestricted");
        reveal_strlit("chatEventMessageDeleted");
        reveal_strlit("chatEventMessageEdited");
        reveal_strlit("chatEventMessagePinned");
        reveal_strlit("chatEventMessageUnpinned");
        reveal_strlit("chatEventPermissionsChanged");
        reveal_strlit("chatEventPhotoChanged");
        reveal_strlit("chatEventPollStopped");
        reveal_strlit("chatEventSignMessagesToggled");
        reveal_strlit("chatEventSlowModeDelayChanged");
        reveal_strlit("chatEventStickerSetChanged");
        reveal_strlit("chatEventTitleChanged");
        reveal_strlit("chatEventUsernameChanged");
    }

    spec fn spelled_21() -> bool {
        &&& "chatEventMemberJoined"@[9] == 'M'
        &&& "chatEventPhotoChanged"@[9] == 'P'
        &&& "chatEventTitleChanged"@[9] == 'T'
    }

    /// What tells apart the discriminators of 21 characters.
    proof fn tags_spelled_21()
        ensures
            Self::spelled_21(),
    {
        reveal_strlit("chatEventMemberJoined");
        reveal_strlit("chatEventPhotoChanged");
        reveal_strlit("chatEventTitleChanged");
    }

    spec fn spelled_22() -> bool {
        &&& "chatEventMemberInvited"@[16] == 'n'
        &&& "chatEventMessageEdited"@[16] == 'E'
        &&& "chatEventMessagePinned"@[16] == 'P'
    }

    /// What tells apart the discriminators of 22 characters.
    proof fn tags_spelled_22()
        ensures
            Self::spelled_22(),
    {
        reveal_strlit("chatEventMemberInvited");
        reveal_strlit("chatEventMessageEdited");
        reveal_strlit("chatEventMessagePinned");
    }

    spec fn spelled_23() -> bool {
        &&& "chatEventInvitesToggled"@[11] == 'v'
        &&& "chatEventMemberPromoted"@[11] == 'm'
        &&& "chatEventMessageDeleted"@[11] == 's'
    }

    /// What tells apart the discriminators of 23 characters.
    proof fn tags_spelled_23()
        ensures
            Self::spelled_23(),
    {
        reveal_strlit("chatEventInvitesToggled");
        reveal_strlit("chatEventMemberPromoted");
        reveal_strlit("chatEventMessageDeleted");
    }

    spec fn spelled_24() -> bool {
        &&& "chatEventLocationChanged"@[9] == 'L'
        &&& "chatEventMessageUnpinned"@[9] == 'M'
        &&& "chatEventUsernameChanged"@[9] == 'U'
    }

    /// What tells apart the discriminators of 24 characters.
    proof fn tags_spelled_24()
        ensures
            Self::spelled_24(),
    {
        reveal_strlit("chatEventLocationChanged");
        reveal_strlit("chatEventMessageUnpinned");
        reveal_strlit("chatEventUsernameChanged");
    }

    spec fn spelled_26() -> bool {
        &&& "chatEventLinkedChatChanged"@[9] == 'L'
        &&& "chatEventStickerSetChanged"@[9] == 'S'
    }

    /// What tells apart the discriminators of 26 characters.
    proof fn tags_spelled_26()
        ensures
            Self::spelled_26(),
    {
        reveal_strlit("chatEventLinkedChatChanged");
        reveal_strlit("chatEventStickerSetChanged");
    }

    spec fn spelled_27() -> bool {
        &&& "chatEventDescriptionChanged"@[9] == 'D'
        &&& "chatEventPermissionsChanged"@[9] == 'P'
    }

    /// What tells apart the discriminators of 27 characters.
    proof fn tags_spelled_27()
        ensures
            Self::spelled_27(),
    {
        reveal_strlit("chatEventDescriptionChanged");
        reveal_strlit("chatEventPermissionsChanged");
    }

    /// A document tagged `chatEventMessageEdited` decodes as a `ChatEventMessageEdited`.
    pub proof fn selects_chat_event_message_edited(d: Doc, at: Seq<char>)
        requires
            tag_of(d) is Some,
            ChatEventMessageEdited::known(tag_of(d)->Some_0),
        ensures
            Self::parse(d, at) == ChatEventMessageEdited::parse(d, at),
    {
        reveal(<ChatEventAction as Wire>::parse);
        Self::tags_measured();
        Self::tags_spelled_22();
    }

    /// A document tagged `chatEventMessageDeleted` decodes as a `ChatEventMessageDeleted`.
    pub proof fn selects_chat_event_message_deleted(d: Doc, at: Seq<char>)
        requires
            tag_of(d) is Some,
            ChatEventMessageDeleted::known(tag_of(d)->Some_0),
        ensures
            Self::parse(d, at) == ChatEventMessageDeleted::parse(d, at),
    {
        reveal(<ChatEventAction as Wire>::parse);
        Self::tags_measured();
        Self::tags_spelled_23();
    }

    /// A document tagged `chatEventPollStopped` decodes as a `ChatEventPollStopped`.
    pub proof fn selects_chat_event_poll_stopped(d: Doc, at: Seq<char>)
        requires
            tag_of(d) is Some,
            ChatEventPollStopped::known(tag_of(d)->Some_0),
        ensures
            Self::parse(d, at) == ChatEventPollStopped::parse(d, at),
    {
        reveal(<ChatEventAction as Wire>::parse);
        Self::tags_measured();
    }

    /// A document tagged `chatEventMessagePinned` decodes as a `ChatEventMessagePinned`.
    pub proof fn selects_chat_event_message_pinned(d: Doc, at: Seq<char>)
        requires
            tag_of(d) is Some,
            ChatEventMessagePinned::known(tag_of(d)->Some_0),
        ensures
            Self::parse(d, at) == ChatEventMessagePinned::parse(d, at),
    {
        reveal(<ChatEventAction as Wire>::parse);
        Self::tags_measured();
        Self::tags_spelled_22();
    }

    /// A document tagged `chatEventMessageUnpinned` decodes as a `ChatEventMessageUnpinned`.
    pub proof fn selects_chat_event_message_unpinned(d: Doc, at: Seq<char>)
        requires
            tag_of(d) is Some,
            ChatEventMessageUnpinned::known(tag_of(d)->Some_0),
        ensures
            Self::parse(d, at) == ChatEventMessageUnpinned::parse(d, at),
    {
        reveal(<ChatEventAction as Wire>::parse);
        Self::tags_measured();
        Self::tags_spelled_24();
    }

    /// A document tagged `chatEventMemberJoined` decodes as a `ChatEventMemberJoined`.
    pub proof fn selects_chat_event_member_joined(d: Doc, at: Seq<char>)
        requires
            tag_of(d) is Some,
            ChatEventMemberJoined::known(tag_of(d)->Some_0),
        ensures
            Self::parse(d, at) == ChatEventMemberJoined::parse(d, at),
    {
        reveal(<ChatEventAction as Wire>::parse);
        Self::tags_measured();
        Self::tags_spelled_21();
    }

    /// A document tagged `chatEventMemberLeft` decodes as a `ChatEventMemberLeft`.
    pub proof fn selects_chat_event_member_left(d: Doc, at: Seq<char>)
        requires
            tag_of(d) is Some,
            ChatEventMemberLeft::known(tag_of(d)->Some_0),
        ensures
            Self::parse(d, at) == ChatEventMemberLeft::parse(d, at),
    {
        reveal(<ChatEventAction as Wire>::parse);
        Self::tags_measured();
    }

    /// A document tagged `chatEventMemberInvited` decodes as a `ChatEventMemberInvited`.
    pub proof fn selects_chat_event_member_invited(d: Doc, at: Seq<char>)
        requires
            tag_of(d) is Some,
            ChatEventMemberInvited::known(tag_of(d)->Some_0),
        ensures
            Self::parse(d, at) == ChatEventMemberInvited::parse(d, at),
    {
        reveal(<ChatEventAction as Wire>::parse);
        Self::tags_measured();
        Self::tags_spelled_22();
    }

    /// A document tagged `chatEventMemberPromoted` decodes as a `ChatEventMemberPromoted`.
    pub proof fn selects_chat_event_member_promoted(d: Doc, at: Seq<char>)
        requires
            tag_of(d) is Some,
            ChatEventMemberPromoted::known(tag_of(d)->Some_0),
        ensures
            Self::parse(d, at) == ChatEventMemberPromoted::parse(d, at),
    {
        reveal(<ChatEventAction as Wire>::parse);
        Self::tags_measured();
        Self::tags_spelled_23();
    }

    /// A document tagged `chatEventMemberRestricted` decodes as a `ChatEventMemberRestricted`.
    pub proof fn selects_chat_event_member_restricted(d: Doc, at: Seq<char>)
        requires
            tag_of(d) is Some,
            ChatEventMemberRestricted::known(tag_of(d)->Some_0),
        ensures
            Self::parse(d, at) == ChatEventMemberRestricted::parse(d, at),
    {
        reveal(<ChatEventAction as Wire>::parse);
        Self::tags_measured();
    }

    /// A document tagged `chatEventTitleChanged` decodes as a `ChatEventTitleChanged`.
    pub proof fn selects_chat_event_title_changed(d: Doc, at: Seq<char>)
        requires
            tag_of(d) is Some,
            ChatEventTitleChanged::known(tag_of(d)->Some_0),
        ensures
            Self::parse(d, at) == ChatEventTitleChanged::parse(d, at),
    {
        reveal(<ChatEventAction as Wire>::parse);
        Self::tags_measured();
        Self::tags_spelled_21();
    }

    /// A document tagged `chatEventPermissionsChanged` decodes as a `ChatEventPermissionsChanged`.
    pub proof fn selects_chat_event_permissions_changed(d: Doc, at: Seq<char>)
        requires
            tag_of(d) is Some,
            ChatEventPermissionsChanged::known(tag_of(d)->Some_0),
        ensures
            Self::parse(d, at) == ChatEventPermissionsChanged::parse(d, at),
    {
        reveal(<ChatEventAction as Wire>::parse);
        Self::tags_measured();
        Self::tags_spelled_27();
    }

    /// A document tagged `chatEventDescriptionChanged` decodes as a `ChatEventDescriptionChanged`.
    pub proof fn selects_chat_event_description_changed(d: Doc, at: Seq<char>)
        requires
            tag_of(d) is Some,
            ChatEventDescriptionChanged::known(tag_of(d)->Some_0),
        ensures
            Self::parse(d, at) == ChatEventDescriptionChanged::parse(d, at),
    {
        reveal(<ChatEventAction as Wire>::parse);
        Self::tags_measured();
        Self::tags_spelled_27();
    }

    /// A document tagged `chatEventUsernameChanged` decodes as a `ChatEventUsernameChanged`.
    pub proof fn selects_chat_event_username_changed(d: Doc, at: Seq<char>)
        requires
            tag_of(d) is Some,
            ChatEventUsernameChanged::known(tag_of(d)->Some_0),
        ensures
            Self::parse(d, at) == ChatEventUsernameChanged::parse(d, at),
    {
        reveal(<ChatEventAction as Wire>::parse);
        Self::tags_measured();
        Self::tags_spelled_24();
    }

    /// A document tagged `chatEventPhotoChanged` decodes as a `ChatEventPhotoChanged`.
    pub proof fn selects_chat_event_photo_changed(d: Doc, at: Seq<char>)
        requires
            tag_of(d) is Some,
            ChatEventPhotoChanged::known(tag_of(d)->Some_0),
        ensures
            Self::parse(d, at) == ChatEventPhotoChanged::parse(d, at),
    {
        reveal(<ChatEventAction as Wire>::parse);
        Self::tags_measured();
        Self::tags_spelled_21();
    }

    /// A document tagged `chatEventInvitesToggled` decodes as a `ChatEventInvitesToggled`.
    pub proof fn selects_chat_event_invites_toggled(d: Doc, at: Seq<char>)
        requires
            tag_of(d) is Some,
            ChatEventInvitesToggled::known(tag_of(d)->Some_0),
        ensures
            Self::parse(d, at) == ChatEventInvitesToggled::parse(d, at),
    {
        reveal(<ChatEventAction as Wire>::parse);
        Self::tags_measured();
        Self::tags_spelled_23();
    }

    /// A document tagged `chatEventLinkedChatChanged` decodes as a `ChatEventLinkedChatChanged`.
    pub proof fn selects_chat_event_linked_chat_changed(d: Doc, at: Seq<char>)
        requires
            tag_of(d) is Some,
            ChatEventLinkedChatChanged::known(tag_of(d)->Some_0),
        ensures
            Self::parse(d, at) == ChatEventLinkedChatChanged::parse(d, at),
    {
        reveal(<ChatEventAction as Wire>::parse);
        Self::tags_measured();
        Self::tags_spelled_26();
    }

    /// A document tagged `chatEventSlowModeDelayChanged` decodes as a
    /// `ChatEventSlowModeDelayChanged`.
    pub proof fn selects_chat_event_slow_mode_delay_changed(d: Doc, at: Seq<char>)
        requires
            tag_of(d) is Some,
            ChatEventSlowModeDelayChanged::known(tag_of(d)->Some_0),
        ensures
            Self::parse(d, at) == ChatEventSlowModeDelayChanged::parse(d, at),
    {
        reveal(<ChatEventAction as Wire>::parse);
        Self::tags_measured();
    }

    /// A document tagged `chatEventSignMessagesToggled` decodes as a
    /// `ChatEventSignMessagesToggled`.
    pub proof fn selects_chat_event_sign_messages_toggled(d: Doc, at: Seq<char>)
        requires
            tag_of(d) is Some,
            ChatEventSignMessagesToggled::known(tag_of(d)->Some_0),
        ensures
            Self::parse(d, at) == ChatEventSignMessagesToggled::parse(d, at),
    {
        reveal(<ChatEventAction as Wire>::parse);
        Self::tags_measured();
    }

    /// A document tagged `chatEventStickerSetChanged` decodes as a `ChatEventStickerSetChanged`.
    pub proof fn selects_chat_event_sticker_set_changed(d: Doc, at: Seq<char>)
        requires
            tag_of(d) is Some,
            ChatEventStickerSetChanged::known(tag_of(d)->Some_0),
        ensures
            Self::parse(d, at) == ChatEventStickerSetChanged::parse(d, at),
    {
        reveal(<ChatEventAction as Wire>::parse);
        Self::tags_measured();
        Self::tags_spelled_26();
    }

    /// A document tagged `chatEventLocationChanged` decodes as a `ChatEventLocationChanged`.
    pub proof fn selects_chat_event_location_changed(d: Doc, at: Seq<char>)
        requires
            tag_of(d) is Some,
            ChatEventLocationChanged::known(tag_of(d)->Some_0),
        ensures
            Self::parse(d, at) == ChatEventLocationChanged::parse(d, at),
    {
        reveal(<ChatEventAction as Wire>::parse);
        Self::tags_measured();
        Self::tags_spelled_24();
    }

    /// A document tagged `chatEventIsAllHistoryAvailableToggled` decodes as a
    /// `ChatEventIsAllHistoryAvailableToggled`.
    pub proof fn selects_chat_event_is_all_history_available_toggled(d: Doc, at: Seq<char>)
        requires
            tag_of(d) is Some,
            ChatEventIsAllHistoryAvailableToggled::known(tag_of(d)->Some_0),
        ensures
            Self::parse(d, at) == ChatEventIsAllHistoryAvailableToggled::parse(d, at),
    {
        reveal(<ChatEventAction as Wire>::parse);
        Self::tags_measured();
    }
}

/// Represents a chat event
#[derive(Debug, Clone, PartialEq)]
pub struct ChatEvent {
    /// Chat event identifier
    pub id: i64,
    /// Point in time (Unix timestamp) when the event happened
    pub date: i32,
    /// Identifier of the user who performed the action that triggered the event
    pub user_id: i32,
    /// Action performed by the user
    pub action: ChatEventAction,
}

impl Wire for ChatEvent {
    #[verifier::opaque]
    open spec fn wire(&self) -> Doc {
        tagged(
            Map::empty()
                .insert("id"@, wide_doc(self.id))
                .insert("date"@, self.date.wire())
                .insert("userId"@, self.user_id.wire())
                .insert("action"@, self.action.wire()),
            "chatEvent"@,
        )
    }

    #[verifier::opaque]
    open spec fn parse(d: Doc, at: Seq<char>) -> Result<Doc, Fault> {
        match d {
            Doc::Object(m) => {
                let id = wide_field(m, "id"@);
                let date = field::<i32>(m, "date"@);
                let user_id = field::<i32>(m, "userId"@);
                let action = field::<ChatEventAction>(m, "action"@);
                if id is Err {
                    id
                } else if date is Err {
                    date
                } else if user_id is Err {
                    user_id
                } else if action is Err {
                    action
                } else {
                    Ok(
                        tagged(
                            Map::empty()
                                .insert("id"@, id->Ok_0)
                                .insert("date"@, date->Ok_0)
                                .insert("userId"@, user_id->Ok_0)
                                .insert("action"@, action->Ok_0),
                            "chatEvent"@,
                        ),
                    )
                }
            },
            _ => Err(Fault::TypeMismatch(at)),
        }
    }

    fn encode(&self) -> (j: Json) {
        proof {
            reveal(<ChatEvent as Wire>::wire);
        }
        let mut members: Vec<Member> = Vec::new();
        put(&mut members, "id", encode_wide(self.id));
        put(&mut members, "date", self.date.encode());
        put(&mut members, "userId", self.user_id.encode());
        put(&mut members, "action", self.action.encode());
        seal(members, "chatEvent")
    }

    fn decode(j: &Json, at: &str) -> (r: Result<Self, DecodeError>) {
        proof {
            reveal(<ChatEvent as Wire>::wire);
            reveal(<ChatEvent as Wire>::parse);
        }
        let members = members_of(j, at)?;
        let id = read_wide(members, "id")?;
        let date = read_field::<i32>(members, "date")?;
        let user_id = read_field::<i32>(members, "userId")?;
        let action = read_field::<ChatEventAction>(members, "action")?;
        Ok(ChatEvent { id, date, user_id, action })
    }

    proof fn round_trip(&self, at: Seq<char>) {
        reveal(<ChatEvent as Wire>::wire);
        reveal(<ChatEvent as Wire>::parse);
        reveal_strlit("@type");
        reveal_strlit("action");
        reveal_strlit("date");
        reveal_strlit("id");
        reveal_strlit("userId");
        assert("@type"@.len() == 5);
        assert("action"@.len() == 6 && "action"@[0] == 'a');
        assert("date"@.len() == 4);
        assert("id"@.len() == 2);
        assert("userId"@.len() == 6 && "userId"@[0] == 'u');
        lemma_wide_round_trip(self.id, "id"@);
        self.date.round_trip("date"@);
        self.user_id.round_trip("userId"@);
        self.action.round_trip("action"@);
    }
}

impl Tagged for ChatEvent {
    open spec fn known(tag: Seq<char>) -> bool {
        tag == "chatEvent"@
    }

    fn knows(tag: &str) -> (r: bool) {
        same_text(tag, "chatEvent")
    }

    proof fn tag_known(&self) {
        reveal(<ChatEvent as Wire>::wire);
        assert(tag_of(self.wire()) == Some("chatEvent"@));
        assert(Self::known("chatEvent"@));
    }
}

/// Contains a list of chat events
#[derive(Debug, Clone, PartialEq)]
pub struct ChatEvents {
    /// List of events
    pub events: Vec<ChatEvent>,
}

impl Wire for ChatEvents {
    #[verifier::opaque]
    open spec fn wire(&self) -> Doc {
        tagged(
            Map::empty()
                .insert("events"@, self.events.wire()),
            "chatEvents"@,
        )
    }

    #[verifier::opaque]
    open spec fn parse(d: Doc, at: Seq<char>) -> Result<Doc, Fault> {
        match d {
            Doc::Object(m) => {
                let events = field::<Vec<ChatEvent>>(m, "events"@);
                if events is Err {
                    events
                } else {
                    Ok(
                        tagged(
                            Map::empty()
                                .insert("events"@, events->Ok_0),
                            "chatEvents"@,
                        ),
                    )
                }
            },
            _ => Err(Fault::TypeMismatch(at)),
        }
    }

    fn encode(&self) -> (j: Json) {
        proof {
            reveal(<ChatEvents as Wire>::wire);
        }
        let mut members: Vec<Member> = Vec::new();
        put(&mut members, "events", self.events.encode());
        seal(members, "chatEvents")
    }

    fn decode(j: &Json, at: &str) -> (r: Result<Self, DecodeError>) {
        proof {
            reveal(<ChatEvents as Wire>::wire);
            reveal(<ChatEvents as Wire>::parse);
        }
        let members = members_of(j, at)?;
        let events = read_field::<Vec<ChatEvent>>(members, "events")?;
        Ok(ChatEvents { events })
    }

    proof fn round_trip(&self, at: Seq<char>) {
        reveal(<ChatEvents as Wire>::wire);
        reveal(<ChatEvents as Wire>::parse);
        reveal_strlit("@type");
        reveal_strlit("events");
        assert("@type"@.len() == 5);
        assert("events"@.len() == 6);
        self.events.round_trip("events"@);
    }
}

impl Tagged for ChatEvents {
    open spec fn known(tag: Seq<char>) -> bool {
        tag == "chatEvents"@
    }

    fn knows(tag: &str) -> (r: bool) {
        same_text(tag, "chatEvents")
    }

    proof fn tag_known(&self) {
        reveal(<ChatEvents as Wire>::wire);
        assert(tag_of(self.wire()) == Some("chatEvents"@));
        assert(Self::known("chatEvents"@));
    }
}

/// Represents a set of filters used to obtain a chat event log
#[derive(Debug, Clone, PartialEq)]
pub struct ChatEventLogFilters {
    /// True, if message edits should be returned
    pub message_edits: bool,
    /// True, if message deletions should be returned
    pub message_deletions: bool,
    /// True, if pin/unpin events should be returned
    pub message_pins: bool,
    /// True, if members joining events should be returned
    pub member_joins: bool,
    /// True, if members leaving events should be returned
    pub member_leaves: bool,
    /// True, if invited member events should be returned
    pub member_invites: bool,
    /// True, if member promotion/demotion events should be returned
    pub member_promotions: bool,
    /// True, if member restricted/unrestricted/banned/unbanned events should be returned
    pub member_restrictions: bool,
    /// True, if changes in chat information should be returned
    pub info_changes: bool,
    /// True, if changes in chat settings should be returned
    pub setting_changes: bool,
}

impl Wire for ChatEventLogFilters {
    #[verifier::opaque]
    open spec fn wire(&self) -> Doc {
        tagged(
            Map::empty()
                .insert("messageEdits"@, self.message_edits.wire())
                .insert("messageDeletions"@, self.message_deletions.wire())
                .insert("messagePins"@, self.message_pins.wire())
                .insert("memberJoins"@, self.member_joins.wire())
                .insert("memberLeaves"@, self.member_leaves.wire())
                .insert("memberInvites"@, self.member_invites.wire())
                .insert("memberPromotions"@, self.member_promotions.wire())
                .insert("memberRestrictions"@, self.member_restrictions.wire())
                .insert("infoChanges"@, self.info_changes.wire())
                .insert("settingChanges"@, self.setting_changes.wire()),
            "chatEventLogFilters"@,
        )
    }

    #[verifier::opaque]
    open spec fn parse(d: Doc, at: Seq<char>) -> Result<Doc, Fault> {
        match d {
            Doc::Object(m) => {
                let message_edits = field::<bool>(m, "messageEdits"@);
                let message_deletions = field::<bool>(m, "messageDeletions"@);
                let message_pins = field::<bool>(m, "messagePins"@);
                let member_joins = field::<bool>(m, "memberJoins"@);
                let member_leaves = field::<bool>(m, "memberLeaves"@);
                let member_invites = field::<bool>(m, "memberInvites"@);
                let member_promotions = field::<bool>(m, "memberPromotions"@);
                let member_restrictions = field::<bool>(m, "memberRestrictions"@);
                let info_changes = field::<bool>(m, "infoChanges"@);
                let setting_changes = field::<bool>(m, "settingChanges"@);
                if message_edits is Err {
                    message_edits
                } else if message_deletions is Err {
                    message_deletions
                } else if message_pins is Err {
                    message_pins
                } else if member_joins is Err {
                    member_joins
                } else if member_leaves is Err {
                    member_leaves
                } else if member_invites is Err {
                    member_invites
                } else if member_promotions is Err {
                    member_promotions
                } else if member_restrictions is Err {
                    member_restrictions
                } else if info_changes is Err {
                    info_changes
                } else if setting_changes is Err {
                    setting_changes
                } else {
                    Ok(
                        tagged(
                            Map::empty()
                                .insert("messageEdits"@, message_edits->Ok_0)
                                .insert("messageDeletions"@, message_deletions->Ok_0)
                                .insert("messagePins"@, message_pins->Ok_0)
                                .insert("memberJoins"@, member_joins->Ok_0)
                                .insert("memberLeaves"@, member_leaves->Ok_0)
                                .insert("memberInvites"@, member_invites->Ok_0)
                                .insert("memberPromotions"@, member_promotions->Ok_0)
                                .insert("memberRestrictions"@, member_restrictions->Ok_0)
                                .insert("infoChanges"@, info_changes->Ok_0)
                                .insert("settingChanges"@, setting_changes->Ok_0),
                            "chatEventLogFilters"@,
                        ),
                    )
                }
            },
            _ => Err(Fault::TypeMismatch(at)),
        }
    }

    fn encode(&self) -> (j: Json) {
        proof {
            reveal(<ChatEventLogFilters as Wire>::wire);
        }
        let mut members: Vec<Member> = Vec::new();
        put(&mut members, "messageEdits", self.message_edits.encode());
        put(&mut members, "messageDeletions", self.message_deletions.encode());
        put(&mut members, "messagePins", self.message_pins.encode());
        put(&mut members, "memberJoins", self.member_joins.encode());
        put(&mut members, "memberLeaves", self.member_leaves.encode());
        put(&mut members, "memberInvites", self.member_invites.encode());
        put(&mut members, "memberPromotions", self.member_promotions.encode());
        put(&mut members, "memberRestrictions", self.member_restrictions.encode());
        put(&mut members, "infoChanges", self.info_changes.encode());
        put(&mut members, "settingChanges", self.setting_changes.encode());
        seal(members, "chatEventLogFilters")
    }

    fn decode(j: &Json, at: &str) -> (r: Result<Self, DecodeError>) {
        proof {
            reveal(<ChatEventLogFilters as Wire>::wire);
            reveal(<ChatEventLogFilters as Wire>::parse);
        }
        let members = members_of(j, at)?;
        let message_edits = read_field::<bool>(members, "messageEdits")?;
        let message_deletions = read_field::<bool>(members, "messageDeletions")?;
        let message_pins = read_field::<bool>(members, "messagePins")?;
        let member_joins = read_field::<bool>(members, "memberJoins")?;
        let member_leaves = read_field::<bool>(members, "memberLeaves")?;
        let member_invites = read_field::<bool>(members, "memberInvites")?;
        let member_promotions = read_field::<bool>(members, "memberPromotions")?;
        let member_restrictions = read_field::<bool>(members, "memberRestrictions")?;
        let info_changes = read_field::<bool>(members, "infoChanges")?;
        let setting_changes = read_field::<bool>(members, "settingChanges")?;
        Ok(ChatEventLogFilters {
            message_edits,
            message_deletions,
            message_pins,
            member_joins,
            member_leaves,
            member_invites,
            member_promotions,
            member_restrictions,
            info_changes,
            setting_changes,
        })
    }

    proof fn round_trip(&self, at: Seq<char>) {
        reveal(<ChatEventLogFilters as Wire>::wire);
        reveal(<ChatEventLogFilters as Wire>::parse);
        reveal_strlit("@type");
        reveal_strlit("infoChanges");
        reveal_strlit("memberInvites");
        reveal_strlit("memberJoins");
        reveal_strlit("memberLeaves");
        reveal_strlit("memberPromotions");
        reveal_strlit("memberRestrictions");
        reveal_strlit("messageDeletions");
        reveal_strlit("messageEdits");
        reveal_strlit("messagePins");
        reveal_strlit("settingChanges");
        assert("@type"@.len() == 5);
        assert("infoChanges"@.len() == 11 && "infoChanges"@[2] == 'f');
        assert("memberInvites"@.len() == 13);
        assert("memberJoins"@.len() == 11 && "memberJoins"@[2] == 'm');
        assert("memberLeaves"@.len() == 12 && "memberLeaves"@[2] == 'm');
        assert("memberPromotions"@.len() == 16 && "memberPromotions"@[2] == 'm');
        assert("memberRestrictions"@.len() == 18);
        assert("messageDeletions"@.len() == 16 && "messageDeletions"@[2] == 's');
        assert("messageEdits"@.len() == 12 && "messageEdits"@[2] == 's');
        assert("messagePins"@.len() == 11 && "messagePins"@[2] == 's');
        assert("settingChanges"@.len() == 14);
        self.message_edits.round_trip("messageEdits"@);
        self.message_deletions.round_trip("messageDeletions"@);
        self.message_pins.round_trip("messagePins"@);
        self.member_joins.round_trip("memberJoins"@);
        self.member_leaves.round_trip("memberLeaves"@);
        self.member_invites.round_trip("memberInvites"@);
        self.member_promotions.round_trip("memberPromotions"@);
        self.member_restrictions.round_trip("memberRestrictions"@);
        self.info_changes.round_trip("infoChanges"@);
        self.setting_changes.round_trip("settingChanges"@);
        let m = self.wire()->Object_0;
        assert(field::<bool>(m, "messageEdits"@) == Ok::<Doc, Fault>(self.message_edits.wire()));
        assert(field::<bool>(m, "messageDeletions"@)
            == Ok::<Doc, Fault>(self.message_deletions.wire()));
        assert(field::<bool>(m, "messagePins"@) == Ok::<Doc, Fault>(self.message_pins.wire()));
        assert(field::<bool>(m, "memberJoins"@) == Ok::<Doc, Fault>(self.member_joins.wire()));
        assert(field::<bool>(m, "memberLeaves"@) == Ok::<Doc, Fault>(self.member_leaves.wire()));
        assert(field::<bool>(m, "memberInvites"@) == Ok::<Doc, Fault>(self.member_invites.wire()));
        assert(field::<bool>(m, "memberPromotions"@)
            == Ok::<Doc, Fault>(self.member_promotions.wire()));
        assert(field::<bool>(m, "memberRestrictions"@)
            == Ok::<Doc, Fault>(self.member_restrictions.wire()));
        assert(field::<bool>(m, "infoChanges"@) == Ok::<Doc, Fault>(self.info_changes.wire()));
        assert(field::<bool>(m, "settingChanges"@)
            == Ok::<Doc, Fault>(self.setting_changes.wire()));
    }
}

impl Tagged for ChatEventLogFilters {
    open spec fn known(tag: Seq<char>) -> bool {
        tag == "chatEventLogFilters"@
    }

    fn knows(tag: &str) -> (r: bool) {
        same_text(tag, "chatEventLogFilters")
    }

    proof fn tag_known(&self) {
        reveal(<ChatEventLogFilters as Wire>::wire);
        assert(tag_of(self.wire()) == Some("chatEventLogFilters"@));
        assert(Self::known("chatEventLogFilters"@));
    }
}

} // verus!
