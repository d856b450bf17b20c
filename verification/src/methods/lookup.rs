//! Requests that look up users, groups, chats and messages.

use vstd::prelude::*;
use crate::codec::{
    encode_wide, field, lemma_wide_round_trip, members_of, put, read_field, read_wide, seal,
    Tagged, wide_doc, wide_field, Wire,
};
use crate::error::{DecodeError, Fault};
use crate::json::{Doc, Json, Member, tag_of, tagged};
use crate::methods::Method;
use crate::text::same_text;
use crate::types::{
    BasicGroup, BasicGroupFullInfo, Chat, ChatList, Chats, ChatsNearby, CheckChatUsernameResult,
    File, FileType, Location, Message, Messages, Okay, PublicChatType, SecretChat, Supergroup,
    SupergroupFullInfo, TopChatCategory, User, UserFullInfo,
};

verus! {

/// Returns the current user
#[derive(Debug, Clone)]
pub struct GetMe {}

impl Wire for GetMe {
    #[verifier::opaque]
    open spec fn wire(&self) -> Doc {
        tagged(Map::empty(), "getMe"@)
    }

    #[verifier::opaque]
    open spec fn parse(d: Doc, at: Seq<char>) -> Result<Doc, Fault> {
        match d {
            Doc::Object(_) => Ok(tagged(Map::empty(), "getMe"@)),
            _ => Err(Fault::TypeMismatch(at)),
        }
    }

    fn encode(&self) -> (j: Json) {
        proof {
            reveal(<GetMe as Wire>::wire);
        }
        seal(Vec::new(), "getMe")
    }

    fn decode(j: &Json, at: &str) -> (r: Result<Self, DecodeError>) {
        proof {
            reveal(<GetMe as Wire>::wire);
            reveal(<GetMe as Wire>::parse);
        }
        let _ = members_of(j, at)?;
        Ok(GetMe {})
    }

    proof fn round_trip(&self, at: Seq<char>) {
        reveal(<GetMe as Wire>::wire);
        reveal(<GetMe as Wire>::parse);
    }
}

impl Tagged for GetMe {
    open spec fn known(tag: Seq<char>) -> bool {
        tag == "getMe"@
    }

    fn knows(tag: &str) -> (r: bool) {
        same_text(tag, "getMe")
    }

    proof fn tag_known(&self) {
        reveal(<GetMe as Wire>::wire);
        assert(tag_of(self.wire()) == Some("getMe"@));
        assert(Self::known("getMe"@));
    }
}

impl Method for GetMe {
    const TYPE: &'static str = "getMe";

    type Response = User;

    proof fn type_is_tag(&self) {
        reveal(<GetMe as Wire>::wire);
        assert(tag_of(self.wire()) == Some("getMe"@));
    }
}

/// Returns information about a user by their identifier. This is an offline request if the current
/// user is not a bot
#[derive(Debug, Clone)]
pub struct GetUser {
    /// User identifier
    pub user_id: i32,
}

impl Wire for GetUser {
    #[verifier::opaque]
    open spec fn wire(&self) -> Doc {
        tagged(
            Map::empty()
                .insert("userId"@, self.user_id.wire()),
            "getUser"@,
        )
    }

    #[verifier::opaque]
    open spec fn parse(d: Doc, at: Seq<char>) -> Result<Doc, Fault> {
        match d {
            Doc::Object(m) => {
                let user_id = field::<i32>(m, "userId"@);
                if user_id is Err {
                    user_id
                } else {
                    Ok(
                        tagged(
                            Map::empty()
                                .insert("userId"@, user_id->Ok_0),
                            "getUser"@,
                        ),
                    )
                }
            },
            _ => Err(Fault::TypeMismatch(at)),
        }
    }

    fn encode(&self) -> (j: Json) {
        proof {
            reveal(<GetUser as Wire>::wire);
        }
        let mut members: Vec<Member> = Vec::new();
        put(&mut members, "userId", self.user_id.encode());
        seal(members, "getUser")
    }

    fn decode(j: &Json, at: &str) -> (r: Result<Self, DecodeError>) {
        proof {
            reveal(<GetUser as Wire>::wire);
            reveal(<GetUser as Wire>::parse);
        }
        let members = members_of(j, at)?;
        let user_id = read_field::<i32>(members, "userId")?;
        Ok(GetUser { user_id })
    }

    proof fn round_trip(&self, at: Seq<char>) {
        reveal(<GetUser as Wire>::wire);
        reveal(<GetUser as Wire>::parse);
        reveal_strlit("@type");
        reveal_strlit("userId");
        assert("@type"@.len() == 5);
        assert("userId"@.len() == 6);
        self.user_id.round_trip("userId"@);
    }
}

impl Tagged for GetUser {
    open spec fn known(tag: Seq<char>) -> bool {
        tag == "getUser"@
    }

    fn knows(tag: &str) -> (r: bool) {
        same_text(tag, "getUser")
    }

    proof fn tag_known(&self) {
        reveal(<GetUser as Wire>::wire);
        assert(tag_of(self.wire()) == Some("getUser"@));
        assert(Self::known("getUser"@));
    }
}

impl Method for GetUser {
    const TYPE: &'static str = "getUser";

    type Response = User;

    proof fn type_is_tag(&self) {
        reveal(<GetUser as Wire>::wire);
        assert(tag_of(self.wire()) == Some("getUser"@));
    }
}

/// Returns full information about a user by their identifier
#[derive(Debug, Clone)]
pub struct GetUserFullInfo {
    /// User identifier
    pub user_id: i32,
}

impl Wire for GetUserFullInfo {
    #[verifier::opaque]
    open spec fn wire(&self) -> Doc {
        tagged(
            Map::empty()
                .insert("userId"@, self.user_id.wire()),
            "getUserFullInfo"@,
        )
    }

    #[verifier::opaque]
    open spec fn parse(d: Doc, at: Seq<char>) -> Result<Doc, Fault> {
        match d {
            Doc::Object(m) => {
                let user_id = field::<i32>(m, "userId"@);
                if user_id is Err {
                    user_id
                } else {
                    Ok(
                        tagged(
                            Map::empty()
                                .insert("userId"@, user_id->Ok_0),
                            "getUserFullInfo"@,
                        ),
                    )
                }
            },
            _ => Err(Fault::TypeMismatch(at)),
        }
    }

    fn encode(&self) -> (j: Json) {
        proof {
            reveal(<GetUserFullInfo as Wire>::wire);
        }
        let mut members: Vec<Member> = Vec::new();
        put(&mut members, "userId", self.user_id.encode());
        seal(members, "getUserFullInfo")
    }

    fn decode(j: &Json, at: &str) -> (r: Result<Self, DecodeError>) {
        proof {
            reveal(<GetUserFullInfo as Wire>::wire);
            reveal(<GetUserFullInfo as Wire>::parse);
        }
        let members = members_of(j, at)?;
        let user_id = read_field::<i32>(members, "userId")?;
        Ok(GetUserFullInfo { user_id })
    }

    proof fn round_trip(&self, at: Seq<char>) {
        reveal(<GetUserFullInfo as Wire>::wire);
        reveal(<GetUserFullInfo as Wire>::parse);
        reveal_strlit("@type");
        reveal_strlit("userId");
        assert("@type"@.len() == 5);
        assert("userId"@.len() == 6);
        self.user_id.round_trip("userId"@);
    }
}

impl Tagged for GetUserFullInfo {
    open spec fn known(tag: Seq<char>) -> bool {
        tag == "getUserFullInfo"@
    }

    fn knows(tag: &str) -> (r: bool) {
        same_text(tag, "getUserFullInfo")
    }

    proof fn tag_known(&self) {
        reveal(<GetUserFullInfo as Wire>::wire);
        assert(tag_of(self.wire()) == Some("getUserFullInfo"@));
        assert(Self::known("getUserFullInfo"@));
    }
}

impl Method for GetUserFullInfo {
    const TYPE: &'static str = "getUserFullInfo";

    type Response = UserFullInfo;

    proof fn type_is_tag(&self) {
        reveal(<GetUserFullInfo as Wire>::wire);
        assert(tag_of(self.wire()) == Some("getUserFullInfo"@));
    }
}

/// Returns information about a basic group by its identifier. This is an offline request if the
/// current user is not a bot
#[derive(Debug, Clone)]
pub struct GetBasicGroup {
    /// Basic group identifier
    pub basic_group_id: i32,
}

impl Wire for GetBasicGroup {
    #[verifier::opaque]
    open spec fn wire(&self) -> Doc {
        tagged(
            Map::empty()
                .insert("basicGroupId"@, self.basic_group_id.wire()),
            "getBasicGroup"@,
        )
    }

    #[verifier::opaque]
    open spec fn parse(d: Doc, at: Seq<char>) -> Result<Doc, Fault> {
        match d {
            Doc::Object(m) => {
                let basic_group_id = field::<i32>(m, "basicGroupId"@);
                if basic_group_id is Err {
                    basic_group_id
                } else {
                    Ok(
                        tagged(
                            Map::empty()
                                .insert("basicGroupId"@, basic_group_id->Ok_0),
                            "getBasicGroup"@,
                        ),
                    )
                }
            },
            _ => Err(Fault::TypeMismatch(at)),
        }
    }

    fn encode(&self) -> (j: Json) {
        proof {
            reveal(<GetBasicGroup as Wire>::wire);
        }
        let mut members: Vec<Member> = Vec::new();
        put(&mut members, "basicGroupId", self.basic_group_id.encode());
        seal(members, "getBasicGroup")
    }

    fn decode(j: &Json, at: &str) -> (r: Result<Self, DecodeError>) {
        proof {
            reveal(<GetBasicGroup as Wire>::wire);
            reveal(<GetBasicGroup as Wire>::parse);
        }
        let members = members_of(j, at)?;
        let basic_group_id = read_field::<i32>(members, "basicGroupId")?;
        Ok(GetBasicGroup { basic_group_id })
    }

    proof fn round_trip(&self, at: Seq<char>) {
        reveal(<GetBasicGroup as Wire>::wire);
        reveal(<GetBasicGroup as Wire>::parse);
        reveal_strlit("@type");
        reveal_strlit("basicGroupId");
        assert("@type"@.len() == 5);
        assert("basicGroupId"@.len() == 12);
        self.basic_group_id.round_trip("basicGroupId"@);
    }
}

impl Tagged for GetBasicGroup {
    open spec fn known(tag: Seq<char>) -> bool {
        tag == "getBasicGroup"@
    }

    fn knows(tag: &str) -> (r: bool) {
        same_text(tag, "getBasicGroup")
    }

    proof fn tag_known(&self) {
        reveal(<GetBasicGroup as Wire>::wire);
        assert(tag_of(self.wire()) == Some("getBasicGroup"@));
        assert(Self::known("getBasicGroup"@));
    }
}

impl Method for GetBasicGroup {
    const TYPE: &'static str = "getBasicGroup";

    type Response = BasicGroup;

    proof fn type_is_tag(&self) {
        reveal(<GetBasicGroup as Wire>::wire);
        assert(tag_of(self.wire()) == Some("getBasicGroup"@));
    }
}

/// Returns full information about a basic group by its identifier
#[derive(Debug, Clone)]
pub struct GetBasicGroupFullInfo {
    /// Basic group identifier
    pub basic_group_id: i32,
}

impl Wire for GetBasicGroupFullInfo {
    #[verifier::opaque]
    open spec fn wire(&self) -> Doc {
        tagged(
            Map::empty()
                .insert("basicGroupId"@, self.basic_group_id.wire()),
            "getBasicGroupFullInfo"@,
        )
    }

    #[verifier::opaque]
    open spec fn parse(d: Doc, at: Seq<char>) -> Result<Doc, Fault> {
        match d {
            Doc::Object(m) => {
                let basic_group_id = field::<i32>(m, "basicGroupId"@);
                if basic_group_id is Err {
                    basic_group_id
                } else {
                    Ok(
                        tagged(
                            Map::empty()
                                .insert("basicGroupId"@, basic_group_id->Ok_0),
                            "getBasicGroupFullInfo"@,
                        ),
                    )
                }
            },
            _ => Err(Fault::TypeMismatch(at)),
        }
    }

    fn encode(&self) -> (j: Json) {
        proof {
            reveal(<GetBasicGroupFullInfo as Wire>::wire);
        }
        let mut members: Vec<Member> = Vec::new();
        put(&mut members, "basicGroupId", self.basic_group_id.encode());
        seal(members, "getBasicGroupFullInfo")
    }

    fn decode(j: &Json, at: &str) -> (r: Result<Self, DecodeError>) {
        proof {
            reveal(<GetBasicGroupFullInfo as Wire>::wire);
            reveal(<GetBasicGroupFullInfo as Wire>::parse);
        }
        let members = members_of(j, at)?;
        let basic_group_id = read_field::<i32>(members, "basicGroupId")?;
        Ok(GetBasicGroupFullInfo { basic_group_id })
    }

    proof fn round_trip(&self, at: Seq<char>) {
        reveal(<GetBasicGroupFullInfo as Wire>::wire);
        reveal(<GetBasicGroupFullInfo as Wire>::parse);
        reveal_strlit("@type");
        reveal_strlit("basicGroupId");
        assert("@type"@.len() == 5);
        assert("basicGroupId"@.len() == 12);
        self.basic_group_id.round_trip("basicGroupId"@);
    }
}

impl Tagged for GetBasicGroupFullInfo {
    open spec fn known(tag: Seq<char>) -> bool {
        tag == "getBasicGroupFullInfo"@
    }

    fn knows(tag: &str) -> (r: bool) {
        same_text(tag, "getBasicGroupFullInfo")
    }

    proof fn tag_known(&self) {
        reveal(<GetBasicGroupFullInfo as Wire>::wire);
        assert(tag_of(self.wire()) == Some("getBasicGroupFullInfo"@));
        assert(Self::known("getBasicGroupFullInfo"@));
    }
}

impl Method for GetBasicGroupFullInfo {
    const TYPE: &'static str = "getBasicGroupFullInfo";

    type Response = BasicGroupFullInfo;

    proof fn type_is_tag(&self) {
        reveal(<GetBasicGroupFullInfo as Wire>::wire);
        assert(tag_of(self.wire()) == Some("getBasicGroupFullInfo"@));
    }
}

/// Returns information about a supergroup or a channel by its identifier. This is an offline
/// request if the current user is not a bot
#[derive(Debug, Clone)]
pub struct GetSupergroup {
    /// Supergroup or channel identifier
    pub supergroup_id: i32,
}

impl Wire for GetSupergroup {
    #[verifier::opaque]
    open spec fn wire(&self) -> Doc {
        tagged(
            Map::empty()
                .insert("supergroupId"@, self.supergroup_id.wire()),
            "getSupergroup"@,
        )
    }

    #[verifier::opaque]
    open spec fn parse(d: Doc, at: Seq<char>) -> Result<Doc, Fault> {
        match d {
            Doc::Object(m) => {
                let supergroup_id = field::<i32>(m, "supergroupId"@);
                if supergroup_id is Err {
                    supergroup_id
                } else {
                    Ok(
                        tagged(
                            Map::empty()
                                .insert("supergroupId"@, supergroup_id->Ok_0),
                            "getSupergroup"@,
                        ),
                    )
                }
            },
            _ => Err(Fault::TypeMismatch(at)),
        }
    }

    fn encode(&self) -> (j: Json) {
        proof {
            reveal(<GetSupergroup as Wire>::wire);
        }
        let mut members: Vec<Member> = Vec::new();
        put(&mut members, "supergroupId", self.supergroup_id.encode());
        seal(members, "getSupergroup")
    }

    fn decode(j: &Json, at: &str) -> (r: Result<Self, DecodeError>) {
        proof {
            reveal(<GetSupergroup as Wire>::wire);
            reveal(<GetSupergroup as Wire>::parse);
        }
        let members = members_of(j, at)?;
        let supergroup_id = read_field::<i32>(members, "supergroupId")?;
        Ok(GetSupergroup { supergroup_id })
    }

    proof fn round_trip(&self, at: Seq<char>) {
        reveal(<GetSupergroup as Wire>::wire);
        reveal(<GetSupergroup as Wire>::parse);
        reveal_strlit("@type");
        reveal_strlit("supergroupId");
        assert("@type"@.len() == 5);
        assert("supergroupId"@.len() == 12);
        self.supergroup_id.round_trip("supergroupId"@);
    }
}

impl Tagged for GetSupergroup {
    open spec fn known(tag: Seq<char>) -> bool {
        tag == "getSupergroup"@
    }

    fn knows(tag: &str) -> (r: bool) {
        same_text(tag, "getSupergroup")
    }

    proof fn tag_known(&self) {
        reveal(<GetSupergroup as Wire>::wire);
        assert(tag_of(self.wire()) == Some("getSupergroup"@));
        assert(Self::known("getSupergroup"@));
    }
}

impl Method for GetSupergroup {
    const TYPE: &'static str = "getSupergroup";

    type Response = Supergroup;

    proof fn type_is_tag(&self) {
        reveal(<GetSupergroup as Wire>::wire);
        assert(tag_of(self.wire()) == Some("getSupergroup"@));
    }
}

/// Returns full information about a supergroup or a channel by its identifier, cached for up to 1
/// minute
#[derive(Debug, Clone)]
pub struct GetSupergroupFullInfo {
    /// Supergroup or channel identifier
    pub supergroup_id: i32,
}

impl Wire for GetSupergroupFullInfo {
    #[verifier::opaque]
    open spec fn wire(&self) -> Doc {
        tagged(
            Map::empty()
                .insert("supergroupId"@, self.supergroup_id.wire()),
            "getSupergroupFullInfo"@,
        )
    }

    #[verifier::opaque]
    open spec fn parse(d: Doc, at: Seq<char>) -> Result<Doc, Fault> {
        match d {
            Doc::Object(m) => {
                let supergroup_id = field::<i32>(m, "supergroupId"@);
                if supergroup_id is Err {
                    supergroup_id
                } else {
                    Ok(
                        tagged(
                            Map::empty()
                                .insert("supergroupId"@, supergroup_id->Ok_0),
                            "getSupergroupFullInfo"@,
                        ),
                    )
                }
            },
            _ => Err(Fault::TypeMismatch(at)),
        }
    }

    fn encode(&self) -> (j: Json) {
        proof {
            reveal(<GetSupergroupFullInfo as Wire>::wire);
        }
        let mut members: Vec<Member> = Vec::new();
        put(&mut members, "supergroupId", self.supergroup_id.encode());
        seal(members, "getSupergroupFullInfo")
    }

    fn decode(j: &Json, at: &str) -> (r: Result<Self, DecodeError>) {
        proof {
            reveal(<GetSupergroupFullInfo as Wire>::wire);
            reveal(<GetSupergroupFullInfo as Wire>::parse);
        }
        let members = members_of(j, at)?;
        let supergroup_id = read_field::<i32>(members, "supergroupId")?;
        Ok(GetSupergroupFullInfo { supergroup_id })
    }

    proof fn round_trip(&self, at: Seq<char>) {
        reveal(<GetSupergroupFullInfo as Wire>::wire);
        reveal(<GetSupergroupFullInfo as Wire>::parse);
        reveal_strlit("@type");
        reveal_strlit("supergroupId");
        assert("@type"@.len() == 5);
        assert("supergroupId"@.len() == 12);
        self.supergroup_id.round_trip("supergroupId"@);
    }
}

impl Tagged for GetSupergroupFullInfo {
    open spec fn known(tag: Seq<char>) -> bool {
        tag == "getSupergroupFullInfo"@
    }

    fn knows(tag: &str) -> (r: bool) {
        same_text(tag, "getSupergroupFullInfo")
    }

    proof fn tag_known(&self) {
        reveal(<GetSupergroupFullInfo as Wire>::wire);
        assert(tag_of(self.wire()) == Some("getSupergroupFullInfo"@));
        assert(Self::known("getSupergroupFullInfo"@));
    }
}

impl Method for GetSupergroupFullInfo {
    const TYPE: &'static str = "getSupergroupFullInfo";

    type Response = SupergroupFullInfo;

    proof fn type_is_tag(&self) {
        reveal(<GetSupergroupFullInfo as Wire>::wire);
        assert(tag_of(self.wire()) == Some("getSupergroupFullInfo"@));
    }
}

/// Returns information about a secret chat by its identifier. This is an offline request
#[derive(Debug, Clone)]
pub struct GetSecretChat {
    /// Secret chat identifier
    pub secret_chat_id: i32,
}

impl Wire for GetSecretChat {
    #[verifier::opaque]
    open spec fn wire(&self) -> Doc {
        tagged(
            Map::empty()
                .insert("secretChatId"@, self.secret_chat_id.wire()),
            "getSecretChat"@,
        )
    }

    #[verifier::opaque]
    open spec fn parse(d: Doc, at: Seq<char>) -> Result<Doc, Fault> {
        match d {
            Doc::Object(m) => {
                let secret_chat_id = field::<i32>(m, "secretChatId"@);
                if secret_chat_id is Err {
                    secret_chat_id
                } else {
                    Ok(
                        tagged(
                            Map::empty()
                                .insert("secretChatId"@, secret_chat_id->Ok_0),
                            "getSecretChat"@,
                        ),
                    )
                }
            },
            _ => Err(Fault::TypeMismatch(at)),
        }
    }

    fn encode(&self) -> (j: Json) {
        proof {
            reveal(<GetSecretChat as Wire>::wire);
        }
        let mut members: Vec<Member> = Vec::new();
        put(&mut members, "secretChatId", self.secret_chat_id.encode());
        seal(members, "getSecretChat")
    }

    fn decode(j: &Json, at: &str) -> (r: Result<Self, DecodeError>) {
        proof {
            reveal(<GetSecretChat as Wire>::wire);
            reveal(<GetSecretChat as Wire>::parse);
        }
        let members = members_of(j, at)?;
        let secret_chat_id = read_field::<i32>(members, "secretChatId")?;
        Ok(GetSecretChat { secret_chat_id })
    }

    proof fn round_trip(&self, at: Seq<char>) {
        reveal(<GetSecretChat as Wire>::wire);
        reveal(<GetSecretChat as Wire>::parse);
        reveal_strlit("@type");
        reveal_strlit("secretChatId");
        assert("@type"@.len() == 5);
        assert("secretChatId"@.len() == 12);
        self.secret_chat_id.round_trip("secretChatId"@);
    }
}

impl Tagged for GetSecretChat {
    open spec fn known(tag: Seq<char>) -> bool {
        tag == "getSecretChat"@
    }

    fn knows(tag: &str) -> (r: bool) {
        same_text(tag, "getSecretChat")
    }

    proof fn tag_known(&self) {
        reveal(<GetSecretChat as Wire>::wire);
        assert(tag_of(self.wire()) == Some("getSecretChat"@));
        assert(Self::known("getSecretChat"@));
    }
}

impl Method for GetSecretChat {
    const TYPE: &'static str = "getSecretChat";

    type Response = SecretChat;

    proof fn type_is_tag(&self) {
        reveal(<GetSecretChat as Wire>::wire);
        assert(tag_of(self.wire()) == Some("getSecretChat"@));
    }
}

/// Returns information about a chat by its identifier, this is an offline request if the current
/// user is not a bot
#[derive(Debug, Clone)]
pub struct GetChat {
    /// Chat identifier
    pub chat_id: i64,
}

impl Wire for GetChat {
    #[verifier::opaque]
    open spec fn wire(&self) -> Doc {
        tagged(
            Map::empty()
                .insert("chatId"@, self.chat_id.wire()),
            "getChat"@,
        )
    }

    #[verifier::opaque]
    open spec fn parse(d: Doc, at: Seq<char>) -> Result<Doc, Fault> {
        match d {
            Doc::Object(m) => {
                let chat_id = field::<i64>(m, "chatId"@);
                if chat_id is Err {
                    chat_id
                } else {
                    Ok(
                        tagged(
                            Map::empty()
                                .insert("chatId"@, chat_id->Ok_0),
                            "getChat"@,
                        ),
                    )
                }
            },
            _ => Err(Fault::TypeMismatch(at)),
        }
    }

    fn encode(&self) -> (j: Json) {
        proof {
            reveal(<GetChat as Wire>::wire);
        }
        let mut members: Vec<Member> = Vec::new();
        put(&mut members, "chatId", self.chat_id.encode());
        seal(members, "getChat")
    }

    fn decode(j: &Json, at: &str) -> (r: Result<Self, DecodeError>) {
        proof {
            reveal(<GetChat as Wire>::wire);
            reveal(<GetChat as Wire>::parse);
        }
        let members = members_of(j, at)?;
        let chat_id = read_field::<i64>(members, "chatId")?;
        Ok(GetChat { chat_id })
    }

    proof fn round_trip(&self, at: Seq<char>) {
        reveal(<GetChat as Wire>::wire);
        reveal(<GetChat as Wire>::parse);
        reveal_strlit("@type");
        reveal_strlit("chatId");
        assert("@type"@.len() == 5);
        assert("chatId"@.len() == 6);
        self.chat_id.round_trip("chatId"@);
    }
}

impl Tagged for GetChat {
    open spec fn known(tag: Seq<char>) -> bool {
        tag == "getChat"@
    }

    fn knows(tag: &str) -> (r: bool) {
        same_text(tag, "getChat")
    }

    proof fn tag_known(&self) {
        reveal(<GetChat as Wire>::wire);
        assert(tag_of(self.wire()) == Some("getChat"@));
        assert(Self::known("getChat"@));
    }
}

impl Method for GetChat {
    const TYPE: &'static str = "getChat";

    type Response = Chat;

    proof fn type_is_tag(&self) {
        reveal(<GetChat as Wire>::wire);
        assert(tag_of(self.wire()) == Some("getChat"@));
    }
}

/// Returns information about a message
#[derive(Debug, Clone)]
pub struct GetMessage {
    /// Identifier of the chat the message belongs to
    pub chat_id: i64,
    /// Identifier of the message to get
    pub message_id: i64,
}

impl Wire for GetMessage {
    #[verifier::opaque]
    open spec fn wire(&self) -> Doc {
        tagged(
            Map::empty()
                .insert("chatId"@, self.chat_id.wire())
                .insert("messageId"@, self.message_id.wire()),
            "getMessage"@,
        )
    }

    #[verifier::opaque]
    open spec fn parse(d: Doc, at: Seq<char>) -> Result<Doc, Fault> {
        match d {
            Doc::Object(m) => {
                let chat_id = field::<i64>(m, "chatId"@);
                let message_id = field::<i64>(m, "messageId"@);
                if chat_id is Err {
                    chat_id
                } else if message_id is Err {
                    message_id
                } else {
                    Ok(
                        tagged(
                            Map::empty()
                                .insert("chatId"@, chat_id->Ok_0)
                                .insert("messageId"@, message_id->Ok_0),
                            "getMessage"@,
                        ),
                    )
                }
            },
            _ => Err(Fault::TypeMismatch(at)),
        }
    }

    fn encode(&self) -> (j: Json) {
        proof {
            reveal(<GetMessage as Wire>::wire);
        }
        let mut members: Vec<Member> = Vec::new();
        put(&mut members, "chatId", self.chat_id.encode());
        put(&mut members, "messageId", self.message_id.encode());
        seal(members, "getMessage")
    }

    fn decode(j: &Json, at: &str) -> (r: Result<Self, DecodeError>) {
        proof {
            reveal(<GetMessage as Wire>::wire);
            reveal(<GetMessage as Wire>::parse);
        }
        let members = members_of(j, at)?;
        let chat_id = read_field::<i64>(members, "chatId")?;
        let message_id = read_field::<i64>(members, "messageId")?;
        Ok(GetMessage { chat_id, message_id })
    }

    proof fn round_trip(&self, at: Seq<char>) {
        reveal(<GetMessage as Wire>::wire);
        reveal(<GetMessage as Wire>::parse);
        reveal_strlit("@type");
        reveal_strlit("chatId");
        reveal_strlit("messageId");
        assert("@type"@.len() == 5);
        assert("chatId"@.len() == 6);
        assert("messageId"@.len() == 9);
        self.chat_id.round_trip("chatId"@);
        self.message_id.round_trip("messageId"@);
    }
}

impl Tagged for GetMessage {
    open spec fn known(tag: Seq<char>) -> bool {
        tag == "getMessage"@
    }

    fn knows(tag: &str) -> (r: bool) {
        same_text(tag, "getMessage")
    }

    proof fn tag_known(&self) {
        reveal(<GetMessage as Wire>::wire);
        assert(tag_of(self.wire()) == Some("getMessage"@));
        assert(Self::known("getMessage"@));
    }
}

impl Method for GetMessage {
    const TYPE: &'static str = "getMessage";

    type Response = Message;

    proof fn type_is_tag(&self) {
        reveal(<GetMessage as Wire>::wire);
        assert(tag_of(self.wire()) == Some("getMessage"@));
    }
}

/// Returns information about a message, if it is available locally without sending network request.
/// This is an offline request
#[derive(Debug, Clone)]
pub struct GetMessageLocally {
    /// Identifier of the chat the message belongs to
    pub chat_id: i64,
    /// Identifier of the message to get
    pub message_id: i64,
}

impl Wire for GetMessageLocally {
    #[verifier::opaque]
    open spec fn wire(&self) -> Doc {
        tagged(
            Map::empty()
                .insert("chatId"@, self.chat_id.wire())
                .insert("messageId"@, self.message_id.wire()),
            "getMessageLocally"@,
        )
    }

    #[verifier::opaque]
    open spec fn parse(d: Doc, at: Seq<char>) -> Result<Doc, Fault> {
        match d {
            Doc::Object(m) => {
                let chat_id = field::<i64>(m, "chatId"@);
                let message_id = field::<i64>(m, "messageId"@);
                if chat_id is Err {
                    chat_id
                } else if message_id is Err {
                    message_id
                } else {
                    Ok(
                        tagged(
                            Map::empty()
                                .insert("chatId"@, chat_id->Ok_0)
                                .insert("messageId"@, message_id->Ok_0),
                            "getMessageLocally"@,
                        ),
                    )
                }
            },
            _ => Err(Fault::TypeMismatch(at)),
        }
    }

    fn encode(&self) -> (j: Json) {
        proof {
            reveal(<GetMessageLocally as Wire>::wire);
        }
        let mut members: Vec<Member> = Vec::new();
        put(&mut members, "chatId", self.chat_id.encode());
        put(&mut members, "messageId", self.message_id.encode());
        seal(members, "getMessageLocally")
    }

    fn decode(j: &Json, at: &str) -> (r: Result<Self, DecodeError>) {
        proof {
            reveal(<GetMessageLocally as Wire>::wire);
            reveal(<GetMessageLocally as Wire>::parse);
        }
        let members = members_of(j, at)?;
        let chat_id = read_field::<i64>(members, "chatId")?;
        let message_id = read_field::<i64>(members, "messageId")?;
        Ok(GetMessageLocally { chat_id, message_id })
    }

    proof fn round_trip(&self, at: Seq<char>) {
        reveal(<GetMessageLocally as Wire>::wire);
        reveal(<GetMessageLocally as Wire>::parse);
        reveal_strlit("@type");
        reveal_strlit("chatId");
        reveal_strlit("messageId");
        assert("@type"@.len() == 5);
        assert("chatId"@.len() == 6);
        assert("messageId"@.len() == 9);
        self.chat_id.round_trip("chatId"@);
        self.message_id.round_trip("messageId"@);
    }
}

impl Tagged for GetMessageLocally {
    open spec fn known(tag: Seq<char>) -> bool {
        tag == "getMessageLocally"@
    }

    fn knows(tag: &str) -> (r: bool) {
        same_text(tag, "getMessageLocally")
    }

    proof fn tag_known(&self) {
        reveal(<GetMessageLocally as Wire>::wire);
        assert(tag_of(self.wire()) == Some("getMessageLocally"@));
        assert(Self::known("getMessageLocally"@));
    }
}

impl Method for GetMessageLocally {
    const TYPE: &'static str = "getMessageLocally";

    type Response = Message;

    proof fn type_is_tag(&self) {
        reveal(<GetMessageLocally as Wire>::wire);
        assert(tag_of(self.wire()) == Some("getMessageLocally"@));
    }
}

/// Returns information about a message that is replied by given message
#[derive(Debug, Clone)]
pub struct GetRepliedMessage {
    /// Identifier of the chat the message belongs to
    pub chat_id: i64,
    /// Identifier of the message reply to which get
    pub message_id: i64,
}

impl Wire for GetRepliedMessage {
    #[verifier::opaque]
    open spec fn wire(&self) -> Doc {
        tagged(
            Map::empty()
                .insert("chatId"@, self.chat_id.wire())
                .insert("messageId"@, self.message_id.wire()),
            "getRepliedMessage"@,
        )
    }

    #[verifier::opaque]
    open spec fn parse(d: Doc, at: Seq<char>) -> Result<Doc, Fault> {
        match d {
            Doc::Object(m) => {
                let chat_id = field::<i64>(m, "chatId"@);
                let message_id = field::<i64>(m, "messageId"@);
                if chat_id is Err {
                    chat_id
                } else if message_id is Err {
                    message_id
                } else {
                    Ok(
                        tagged(
                            Map::empty()
                                .insert("chatId"@, chat_id->Ok_0)
                                .insert("messageId"@, message_id->Ok_0),
                            "getRepliedMessage"@,
                        ),
                    )
                }
            },
            _ => Err(Fault::TypeMismatch(at)),
        }
    }

    fn encode(&self) -> (j: Json) {
        proof {
            reveal(<GetRepliedMessage as Wire>::wire);
        }
        let mut members: Vec<Member> = Vec::new();
        put(&mut members, "chatId", self.chat_id.encode());
        put(&mut members, "messageId", self.message_id.encode());
        seal(members, "getRepliedMessage")
    }

    fn decode(j: &Json, at: &str) -> (r: Result<Self, DecodeError>) {
        proof {
            reveal(<GetRepliedMessage as Wire>::wire);
            reveal(<GetRepliedMessage as Wire>::parse);
        }
        let members = members_of(j, at)?;
        let chat_id = read_field::<i64>(members, "chatId")?;
        let message_id = read_field::<i64>(members, "messageId")?;
        Ok(GetRepliedMessage { chat_id, message_id })
    }

    proof fn round_trip(&self, at: Seq<char>) {
        reveal(<GetRepliedMessage as Wire>::wire);
        reveal(<GetRepliedMessage as Wire>::parse);
        reveal_strlit("@type");
        reveal_strlit("chatId");
        reveal_strlit("messageId");
        assert("@type"@.len() == 5);
        assert("chatId"@.len() == 6);
        assert("messageId"@.len() == 9);
        self.chat_id.round_trip("chatId"@);
        self.message_id.round_trip("messageId"@);
    }
}

impl Tagged for GetRepliedMessage {
    open spec fn known(tag: Seq<char>) -> bool {
        tag == "getRepliedMessage"@
    }

    fn knows(tag: &str) -> (r: bool) {
        same_text(tag, "getRepliedMessage")
    }

    proof fn tag_known(&self) {
        reveal(<GetRepliedMessage as Wire>::wire);
        assert(tag_of(self.wire()) == Some("getRepliedMessage"@));
        assert(Self::known("getRepliedMessage"@));
    }
}

impl Method for GetRepliedMessage {
    const TYPE: &'static str = "getRepliedMessage";

    type Response = Message;

    proof fn type_is_tag(&self) {
        reveal(<GetRepliedMessage as Wire>::wire);
        assert(tag_of(self.wire()) == Some("getRepliedMessage"@));
    }
}

/// Returns information about a pinned chat message
#[derive(Debug, Clone)]
pub struct GetChatPinnedMessage {
    /// Identifier of the chat the message belongs to
    pub chat_id: i64,
}

impl Wire for GetChatPinnedMessage {
    #[verifier::opaque]
    open spec fn wire(&self) -> Doc {
        tagged(
            Map::empty()
                .insert("chatId"@, self.chat_id.wire()),
            "getChatPinnedMessage"@,
        )
    }

    #[verifier::opaque]
    open spec fn parse(d: Doc, at: Seq<char>) -> Result<Doc, Fault> {
        match d {
            Doc::Object(m) => {
                let chat_id = field::<i64>(m, "chatId"@);
                if chat_id is Err {
                    chat_id
                } else {
                    Ok(
                        tagged(
                            Map::empty()
                                .insert("chatId"@, chat_id->Ok_0),
                            "getChatPinnedMessage"@,
                        ),
                    )
                }
            },
            _ => Err(Fault::TypeMismatch(at)),
        }
    }

    fn encode(&self) -> (j: Json) {
        proof {
            reveal(<GetChatPinnedMessage as Wire>::wire);
        }
        let mut members: Vec<Member> = Vec::new();
        put(&mut members, "chatId", self.chat_id.encode());
        seal(members, "getChatPinnedMessage")
    }

    fn decode(j: &Json, at: &str) -> (r: Result<Self, DecodeError>) {
        proof {
            reveal(<GetChatPinnedMessage as Wire>::wire);
            reveal(<GetChatPinnedMessage as Wire>::parse);
        }
        let members = members_of(j, at)?;
        let chat_id = read_field::<i64>(members, "chatId")?;
        Ok(GetChatPinnedMessage { chat_id })
    }

    proof fn round_trip(&self, at: Seq<char>) {
        reveal(<GetChatPinnedMessage as Wire>::wire);
        reveal(<GetChatPinnedMessage as Wire>::parse);
        reveal_strlit("@type");
        reveal_strlit("chatId");
        assert("@type"@.len() == 5);
        assert("chatId"@.len() == 6);
        self.chat_id.round_trip("chatId"@);
    }
}

impl Tagged for GetChatPinnedMessage {
    open spec fn known(tag: Seq<char>) -> bool {
        tag == "getChatPinnedMessage"@
    }

    fn knows(tag: &str) -> (r: bool) {
        same_text(tag, "getChatPinnedMessage")
    }

    proof fn tag_known(&self) {
        reveal(<GetChatPinnedMessage as Wire>::wire);
        assert(tag_of(self.wire()) == Some("getChatPinnedMessage"@));
        assert(Self::known("getChatPinnedMessage"@));
    }
}

impl Method for GetChatPinnedMessage {
    const TYPE: &'static str = "getChatPinnedMessage";

    type Response = Message;

    proof fn type_is_tag(&self) {
        reveal(<GetChatPinnedMessage as Wire>::wire);
        assert(tag_of(self.wire()) == Some("getChatPinnedMessage"@));
    }
}

/// Returns information about messages. If a message is not found, returns null on the corresponding
/// position of the result
#[derive(Debug, Clone)]
pub struct GetMessages {
    /// Identifier of the chat the messages belong to
    pub chat_id: i64,
    /// Identifiers of the messages to get
    pub message_ids: Vec<i64>,
}

impl Wire for GetMessages {
    #[verifier::opaque]
    open spec fn wire(&self) -> Doc {
        tagged(
            Map::empty()
                .insert("chatId"@, self.chat_id.wire())
                .insert("messageIds"@, self.message_ids.wire()),
            "getMessages"@,
        )
    }

    #[verifier::opaque]
    open spec fn parse(d: Doc, at: Seq<char>) -> Result<Doc, Fault> {
        match d {
            Doc::Object(m) => {
                let chat_id = field::<i64>(m, "chatId"@);
                let message_ids = field::<Vec<i64>>(m, "messageIds"@);
                if chat_id is Err {
                    chat_id
                } else if message_ids is Err {
                    message_ids
                } else {
                    Ok(
                        tagged(
                            Map::empty()
                                .insert("chatId"@, chat_id->Ok_0)
                                .insert("messageIds"@, message_ids->Ok_0),
                            "getMessages"@,
                        ),
                    )
                }
            },
            _ => Err(Fault::TypeMismatch(at)),
        }
    }

    fn encode(&self) -> (j: Json) {
        proof {
            reveal(<GetMessages as Wire>::wire);
        }
        let mut members: Vec<Member> = Vec::new();
        put(&mut members, "chatId", self.chat_id.encode());
        put(&mut members, "messageIds", self.message_ids.encode());
        seal(members, "getMessages")
    }

    fn decode(j: &Json, at: &str) -> (r: Result<Self, DecodeError>) {
        proof {
            reveal(<GetMessages as Wire>::wire);
            reveal(<GetMessages as Wire>::parse);
        }
        let members = members_of(j, at)?;
        let chat_id = read_field::<i64>(members, "chatId")?;
        let message_ids = read_field::<Vec<i64>>(members, "messageIds")?;
        Ok(GetMessages { chat_id, message_ids })
    }

    proof fn round_trip(&self, at: Seq<char>) {
        reveal(<GetMessages as Wire>::wire);
        reveal(<GetMessages as Wire>::parse);
        reveal_strlit("@type");
        reveal_strlit("chatId");
        reveal_strlit("messageIds");
        assert("@type"@.len() == 5);
        assert("chatId"@.len() == 6);
        assert("messageIds"@.len() == 10);
        self.chat_id.round_trip("chatId"@);
        self.message_ids.round_trip("messageIds"@);
    }
}

impl Tagged for GetMessages {
    open spec fn known(tag: Seq<char>) -> bool {
        tag == "getMessages"@
    }

    fn knows(tag: &str) -> (r: bool) {
        same_text(tag, "getMessages")
    }

    proof fn tag_known(&self) {
        reveal(<GetMessages as Wire>::wire);
        assert(tag_of(self.wire()) == Some("getMessages"@));
        assert(Self::known("getMessages"@));
    }
}

impl Method for GetMessages {
    const TYPE: &'static str = "getMessages";

    type Response = Messages;

    proof fn type_is_tag(&self) {
        reveal(<GetMessages as Wire>::wire);
        assert(tag_of(self.wire()) == Some("getMessages"@));
    }
}

/// Returns information about a file; this is an offline request
#[derive(Debug, Clone)]
pub struct GetFile {
    /// Identifier of the file to get
    pub file_id: i32,
}

impl Wire for GetFile {
    #[verifier::opaque]
    open spec fn wire(&self) -> Doc {
        tagged(
            Map::empty()
                .insert("fileId"@, self.file_id.wire()),
            "getFile"@,
        )
    }

    #[verifier::opaque]
    open spec fn parse(d: Doc, at: Seq<char>) -> Result<Doc, Fault> {
        match d {
            Doc::Object(m) => {
                let file_id = field::<i32>(m, "fileId"@);
                if file_id is Err {
                    file_id
                } else {
                    Ok(
                        tagged(
                            Map::empty()
                                .insert("fileId"@, file_id->Ok_0),
                            "getFile"@,
                        ),
                    )
                }
            },
            _ => Err(Fault::TypeMismatch(at)),
        }
    }

    fn encode(&self) -> (j: Json) {
        proof {
            reveal(<GetFile as Wire>::wire);
        }
        let mut members: Vec<Member> = Vec::new();
        put(&mut members, "fileId", self.file_id.encode());
        seal(members, "getFile")
    }

    fn decode(j: &Json, at: &str) -> (r: Result<Self, DecodeError>) {
        proof {
            reveal(<GetFile as Wire>::wire);
            reveal(<GetFile as Wire>::parse);
        }
        let members = members_of(j, at)?;
        let file_id = read_field::<i32>(members, "fileId")?;
        Ok(GetFile { file_id })
    }

    proof fn round_trip(&self, at: Seq<char>) {
        reveal(<GetFile as Wire>::wire);
        reveal(<GetFile as Wire>::parse);
        reveal_strlit("@type");
        reveal_strlit("fileId");
        assert("@type"@.len() == 5);
        assert("fileId"@.len() == 6);
        self.file_id.round_trip("fileId"@);
    }
}

impl Tagged for GetFile {
    open spec fn known(tag: Seq<char>) -> bool {
        tag == "getFile"@
    }

    fn knows(tag: &str) -> (r: bool) {
        same_text(tag, "getFile")
    }

    proof fn tag_known(&self) {
        reveal(<GetFile as Wire>::wire);
        assert(tag_of(self.wire()) == Some("getFile"@));
        assert(Self::known("getFile"@));
    }
}

impl Method for GetFile {
    const TYPE: &'static str = "getFile";

    type Response = File;

    proof fn type_is_tag(&self) {
        reveal(<GetFile as Wire>::wire);
        assert(tag_of(self.wire()) == Some("getFile"@));
    }
}

/// Returns information about a file by its remote ID; this is an offline request. Can be used to
/// register a URL as a file for further uploading, or sending as a message. Even the request
/// succeeds, the file can be used only if it is still accessible to the user. For example, if the
/// file is from a message, then the message must be not deleted and accessible to the user. If the
/// file database is disabled, then the corresponding object with the file must be preloaded by the
/// client
#[derive(Debug, Clone)]
pub struct GetRemoteFile {
    /// Remote identifier of the file to get
    pub remote_file_id: String,
    /// File type, if known
    pub file_type: FileType,
}

impl Wire for GetRemoteFile {
    #[verifier::opaque]
    open spec fn wire(&self) -> Doc {
        tagged(
            Map::empty()
                .insert("remoteFileId"@, self.remote_file_id.wire())
                .insert("fileType"@, self.file_type.wire()),
            "getRemoteFile"@,
        )
    }

    #[verifier::opaque]
    open spec fn parse(d: Doc, at: Seq<char>) -> Result<Doc, Fault> {
        match d {
            Doc::Object(m) => {
                let remote_file_id = field::<String>(m, "remoteFileId"@);
                let file_type = field::<FileType>(m, "fileType"@);
                if remote_file_id is Err {
                    remote_file_id
                } else if file_type is Err {
                    file_type
                } else {
                    Ok(
                        tagged(
                            Map::empty()
                                .insert("remoteFileId"@, remote_file_id->Ok_0)
                                .insert("fileType"@, file_type->Ok_0),
                            "getRemoteFile"@,
                        ),
                    )
                }
            },
            _ => Err(Fault::TypeMismatch(at)),
        }
    }

    fn encode(&self) -> (j: Json) {
        proof {
            reveal(<GetRemoteFile as Wire>::wire);
        }
        let mut members: Vec<Member> = Vec::new();
        put(&mut members, "remoteFileId", self.remote_file_id.encode());
        put(&mut members, "fileType", self.file_type.encode());
        seal(members, "getRemoteFile")
    }

    fn decode(j: &Json, at: &str) -> (r: Result<Self, DecodeError>) {
        proof {
            reveal(<GetRemoteFile as Wire>::wire);
            reveal(<GetRemoteFile as Wire>::parse);
        }
        let members = members_of(j, at)?;
        let remote_file_id = read_field::<String>(members, "remoteFileId")?;
        let file_type = read_field::<FileType>(members, "fileType")?;
        Ok(GetRemoteFile { remote_file_id, file_type })
    }

    proof fn round_trip(&self, at: Seq<char>) {
        reveal(<GetRemoteFile as Wire>::wire);
        reveal(<GetRemoteFile as Wire>::parse);
        reveal_strlit("@type");
        reveal_strlit("fileType");
        reveal_strlit("remoteFileId");
        assert("@type"@.len() == 5);
        assert("fileType"@.len() == 8);
        assert("remoteFileId"@.len() == 12);
        self.remote_file_id.round_trip("remoteFileId"@);
        self.file_type.round_trip("fileType"@);
    }
}

impl Tagged for GetRemoteFile {
    open spec fn known(tag: Seq<char>) -> bool {
        tag == "getRemoteFile"@
    }

    fn knows(tag: &str) -> (r: bool) {
        same_text(tag, "getRemoteFile")
    }

    proof fn tag_known(&self) {
        reveal(<GetRemoteFile as Wire>::wire);
        assert(tag_of(self.wire()) == Some("getRemoteFile"@));
        assert(Self::known("getRemoteFile"@));
    }
}

impl Method for GetRemoteFile {
    const TYPE: &'static str = "getRemoteFile";

    type Response = File;

    proof fn type_is_tag(&self) {
        reveal(<GetRemoteFile as Wire>::wire);
        assert(tag_of(self.wire()) == Some("getRemoteFile"@));
    }
}

/// Returns an ordered list of chats in a chat list. Chats are sorted by the pair (order, chat_id)
/// in decreasing order. (For example, to get a list of chats from the beginning, the offset_order
/// should be equal to a biggest signed 64-bit number 9223372036854775807 == 2^63 - 1). For optimal
/// performance the number of returned chats is chosen by the library
#[derive(Debug, Clone)]
pub struct GetChats {
    /// The chat list in which to return chats
    pub chat_list: ChatList,
    /// Chat order to return chats from
    pub offset_order: i64,
    /// Chat identifier to return chats from
    pub offset_chat_id: i64,
    /// The maximum number of chats to be returned. It is possible that fewer chats than the limit
    /// are returned even if the end of the list is not reached
    pub limit: i32,
}

impl Wire for GetChats {
    #[verifier::opaque]
    open spec fn wire(&self) -> Doc {
        tagged(
            Map::empty()
                .insert("chatList"@, self.chat_list.wire())
                .insert("offsetOrder"@, wide_doc(self.offset_order))
                .insert("offsetChatId"@, self.offset_chat_id.wire())
                .insert("limit"@, self.limit.wire()),
            "getChats"@,
        )
    }

    #[verifier::opaque]
    open spec fn parse(d: Doc, at: Seq<char>) -> Result<Doc, Fault> {
        match d {
            Doc::Object(m) => {
                let chat_list = field::<ChatList>(m, "chatList"@);
                let offset_order = wide_field(m, "offsetOrder"@);
                let offset_chat_id = field::<i64>(m, "offsetChatId"@);
                let limit = field::<i32>(m, "limit"@);
                if chat_list is Err {
                    chat_list
                } else if offset_order is Err {
                    offset_order
                } else if offset_chat_id is Err {
                    offset_chat_id
                } else if limit is Err {
                    limit
                } else {
                    Ok(
                        tagged(
                            Map::empty()
                                .insert("chatList"@, chat_list->Ok_0)
                                .insert("offsetOrder"@, offset_order->Ok_0)
                                .insert("offsetChatId"@, offset_chat_id->Ok_0)
                                .insert("limit"@, limit->Ok_0),
                            "getChats"@,
                        ),
                    )
                }
            },
            _ => Err(Fault::TypeMismatch(at)),
        }
    }

    fn encode(&self) -> (j: Json) {
        proof {
            reveal(<GetChats as Wire>::wire);
        }
        let mut members: Vec<Member> = Vec::new();
        put(&mut members, "chatList", self.chat_list.encode());
        put(&mut members, "offsetOrder", encode_wide(self.offset_order));
        put(&mut members, "offsetChatId", self.offset_chat_id.encode());
        put(&mut members, "limit", self.limit.encode());
        seal(members, "getChats")
    }

    fn decode(j: &Json, at: &str) -> (r: Result<Self, DecodeError>) {
        proof {
            reveal(<GetChats as Wire>::wire);
            reveal(<GetChats as Wire>::parse);
        }
        let members = members_of(j, at)?;
        let chat_list = read_field::<ChatList>(members, "chatList")?;
        let offset_order = read_wide(members, "offsetOrder")?;
        let offset_chat_id = read_field::<i64>(members, "offsetChatId")?;
        let limit = read_field::<i32>(members, "limit")?;
        Ok(GetChats { chat_list, offset_order, offset_chat_id, limit })
    }

    proof fn round_trip(&self, at: Seq<char>) {
        reveal(<GetChats as Wire>::wire);
        reveal(<GetChats as Wire>::parse);
        reveal_strlit("@type");
        reveal_strlit("chatList");
        reveal_strlit("limit");
        reveal_strlit("offsetChatId");
        reveal_strlit("offsetOrder");
        assert("@type"@.len() == 5 && "@type"@[0] == '@');
        assert("chatList"@.len() == 8);
        assert("limit"@.len() == 5 && "limit"@[0] == 'l');
        assert("offsetChatId"@.len() == 12);
        assert("offsetOrder"@.len() == 11);
        self.chat_list.round_trip("chatList"@);
        lemma_wide_round_trip(self.offset_order, "offsetOrder"@);
        self.offset_chat_id.round_trip("offsetChatId"@);
        self.limit.round_trip("limit"@);
    }
}

impl Tagged for GetChats {
    open spec fn known(tag: Seq<char>) -> bool {
        tag == "getChats"@
    }

    fn knows(tag: &str) -> (r: bool) {
        same_text(tag, "getChats")
    }

    proof fn tag_known(&self) {
        reveal(<GetChats as Wire>::wire);
        assert(tag_of(self.wire()) == Some("getChats"@));
        assert(Self::known("getChats"@));
    }
}

impl Method for GetChats {
    const TYPE: &'static str = "getChats";

    type Response = Chats;

    proof fn type_is_tag(&self) {
        reveal(<GetChats as Wire>::wire);
        assert(tag_of(self.wire()) == Some("getChats"@));
    }
}

/// Searches a public chat by its username. Currently only private chats, supergroups and channels
/// can be public. Returns the chat if found; otherwise an error is returned
#[derive(Debug, Clone)]
pub struct SearchPublicChat {
    /// Username to be resolved
    pub username: String,
}

impl Wire for SearchPublicChat {
    #[verifier::opaque]
    open spec fn wire(&self) -> Doc {
        tagged(
            Map::empty()
                .insert("username"@, self.username.wire()),
            "searchPublicChat"@,
        )
    }

    #[verifier::opaque]
    open spec fn parse(d: Doc, at: Seq<char>) -> Result<Doc, Fault> {
        match d {
            Doc::Object(m) => {
                let username = field::<String>(m, "username"@);
                if username is Err {
                    username
                } else {
                    Ok(
                        tagged(
                            Map::empty()
                                .insert("username"@, username->Ok_0),
                            "searchPublicChat"@,
                        ),
                    )
                }
            },
            _ => Err(Fault::TypeMismatch(at)),
        }
    }

    fn encode(&self) -> (j: Json) {
        proof {
            reveal(<SearchPublicChat as Wire>::wire);
        }
        let mut members: Vec<Member> = Vec::new();
        put(&mut members, "username", self.username.encode());
        seal(members, "searchPublicChat")
    }

    fn decode(j: &Json, at: &str) -> (r: Result<Self, DecodeError>) {
        proof {
            reveal(<SearchPublicChat as Wire>::wire);
            reveal(<SearchPublicChat as Wire>::parse);
        }
        let members = members_of(j, at)?;
        let username = read_field::<String>(members, "username")?;
        Ok(SearchPublicChat { username })
    }

    proof fn round_trip(&self, at: Seq<char>) {
        reveal(<SearchPublicChat as Wire>::wire);
        reveal(<SearchPublicChat as Wire>::parse);
        reveal_strlit("@type");
        reveal_strlit("username");
        assert("@type"@.len() == 5);
        assert("username"@.len() == 8);
        self.username.round_trip("username"@);
    }
}

impl Tagged for SearchPublicChat {
    open spec fn known(tag: Seq<char>) -> bool {
        tag == "searchPublicChat"@
    }

    fn knows(tag: &str) -> (r: bool) {
        same_text(tag, "searchPublicChat")
    }

    proof fn tag_known(&self) {
        reveal(<SearchPublicChat as Wire>::wire);
        assert(tag_of(self.wire()) == Some("searchPublicChat"@));
        assert(Self::known("searchPublicChat"@));
    }
}

impl Method for SearchPublicChat {
    const TYPE: &'static str = "searchPublicChat";

    type Response = Chat;

    proof fn type_is_tag(&self) {
        reveal(<SearchPublicChat as Wire>::wire);
        assert(tag_of(self.wire()) == Some("searchPublicChat"@));
    }
}

/// Searches public chats by looking for specified query in their username and title. Currently only
/// private chats, supergroups and channels can be public. Returns a meaningful number of results.
/// Returns nothing if the length of the searched username prefix is less than 5. Excludes private
/// chats with contacts and chats from the chat list from the results
#[derive(Debug, Clone)]
pub struct SearchPublicChats {
    /// Query to search for
    pub query: String,
}

impl Wire for SearchPublicChats {
    #[verifier::opaque]
    open spec fn wire(&self) -> Doc {
        tagged(
            Map::empty()
                .insert("query"@, self.query.wire()),
            "searchPublicChats"@,
        )
    }

    #[verifier::opaque]
    open spec fn parse(d: Doc, at: Seq<char>) -> Result<Doc, Fault> {
        match d {
            Doc::Object(m) => {
                let query = field::<String>(m, "query"@);
                if query is Err {
                    query
                } else {
                    Ok(
                        tagged(
                            Map::empty()
                                .insert("query"@, query->Ok_0),
                            "searchPublicChats"@,
                        ),
                    )
                }
            },
            _ => Err(Fault::TypeMismatch(at)),
        }
    }

    fn encode(&self) -> (j: Json) {
        proof {
            reveal(<SearchPublicChats as Wire>::wire);
        }
        let mut members: Vec<Member> = Vec::new();
        put(&mut members, "query", self.query.encode());
        seal(members, "searchPublicChats")
    }

    fn decode(j: &Json, at: &str) -> (r: Result<Self, DecodeError>) {
        proof {
            reveal(<SearchPublicChats as Wire>::wire);
            reveal(<SearchPublicChats as Wire>::parse);
        }
        let members = members_of(j, at)?;
        let query = read_field::<String>(members, "query")?;
        Ok(SearchPublicChats { query })
    }

    proof fn round_trip(&self, at: Seq<char>) {
        reveal(<SearchPublicChats as Wire>::wire);
        reveal(<SearchPublicChats as Wire>::parse);
        reveal_strlit("@type");
        reveal_strlit("query");
        assert("@type"@.len() == 5 && "@type"@[0] == '@');
        assert("query"@.len() == 5 && "query"@[0] == 'q');
        self.query.round_trip("query"@);
    }
}

impl Tagged for SearchPublicChats {
    open spec fn known(tag: Seq<char>) -> bool {
        tag == "searchPublicChats"@
    }

    fn knows(tag: &str) -> (r: bool) {
        same_text(tag, "searchPublicChats")
    }

    proof fn tag_known(&self) {
        reveal(<SearchPublicChats as Wire>::wire);
        assert(tag_of(self.wire()) == Some("searchPublicChats"@));
        assert(Self::known("searchPublicChats"@));
    }
}

impl Method for SearchPublicChats {
    const TYPE: &'static str = "searchPublicChats";

    type Response = Chats;

    proof fn type_is_tag(&self) {
        reveal(<SearchPublicChats as Wire>::wire);
        assert(tag_of(self.wire()) == Some("searchPublicChats"@));
    }
}

/// Searches for the specified query in the title and username of already known chats, this is an
/// offline request. Returns chats in the order seen in the chat list
#[derive(Debug, Clone)]
pub struct SearchChats {
    /// Query to search for. If the query is empty, returns up to 20 recently found chats
    pub query: String,
    /// The maximum number of chats to be returned
    pub limit: i32,
}

impl Wire for SearchChats {
    #[verifier::opaque]
    open spec fn wire(&self) -> Doc {
        tagged(
            Map::empty()
                .insert("query"@, self.query.wire())
                .insert("limit"@, self.limit.wire()),
            "searchChats"@,
        )
    }

    #[verifier::opaque]
    open spec fn parse(d: Doc, at: Seq<char>) -> Result<Doc, Fault> {
        match d {
            Doc::Object(m) => {
                let query = field::<String>(m, "query"@);
                let limit = field::<i32>(m, "limit"@);
                if query is Err {
                    query
                } else if limit is Err {
                    limit
                } else {
                    Ok(
                        tagged(
                            Map::empty()
                                .insert("query"@, query->Ok_0)
                                .insert("limit"@, limit->Ok_0),
                            "searchChats"@,
                        ),
                    )
                }
            },
            _ => Err(Fault::TypeMismatch(at)),
        }
    }

    fn encode(&self) -> (j: Json) {
        proof {
            reveal(<SearchChats as Wire>::wire);
        }
        let mut members: Vec<Member> = Vec::new();
        put(&mut members, "query", self.query.encode());
        put(&mut members, "limit", self.limit.encode());
        seal(members, "searchChats")
    }

    fn decode(j: &Json, at: &str) -> (r: Result<Self, DecodeError>) {
        proof {
            reveal(<SearchChats as Wire>::wire);
            reveal(<SearchChats as Wire>::parse);
        }
        let members = members_of(j, at)?;
        let query = read_field::<String>(members, "query")?;
        let limit = read_field::<i32>(members, "limit")?;
        Ok(SearchChats { query, limit })
    }

    proof fn round_trip(&self, at: Seq<char>) {
        reveal(<SearchChats as Wire>::wire);
        reveal(<SearchChats as Wire>::parse);
        reveal_strlit("@type");
        reveal_strlit("limit");
        reveal_strlit("query");
        assert("@type"@.len() == 5 && "@type"@[0] == '@');
        assert("limit"@.len() == 5 && "limit"@[0] == 'l');
        assert("query"@.len() == 5 && "query"@[0] == 'q');
        self.query.round_trip("query"@);
        self.limit.round_trip("limit"@);
    }
}

impl Tagged for SearchChats {
    open spec fn known(tag: Seq<char>) -> bool {
        tag == "searchChats"@
    }

    fn knows(tag: &str) -> (r: bool) {
        same_text(tag, "searchChats")
    }

    proof fn tag_known(&self) {
        reveal(<SearchChats as Wire>::wire);
        assert(tag_of(self.wire()) == Some("searchChats"@));
        assert(Self::known("searchChats"@));
    }
}

impl Method for SearchChats {
    const TYPE: &'static str = "searchChats";

    type Response = Chats;

    proof fn type_is_tag(&self) {
        reveal(<SearchChats as Wire>::wire);
        assert(tag_of(self.wire()) == Some("searchChats"@));
    }
}

/// Searches for the specified query in the title and username of already known chats via request to
/// the server. Returns chats in the order seen in the chat list
#[derive(Debug, Clone)]
pub struct SearchChatsOnServer {
    /// Query to search for
    pub query: String,
    /// The maximum number of chats to be returned
    pub limit: i32,
}

impl Wire for SearchChatsOnServer {
    #[verifier::opaque]
    open spec fn wire(&self) -> Doc {
        tagged(
            Map::empty()
                .insert("query"@, self.query.wire())
                .insert("limit"@, self.limit.wire()),
            "searchChatsOnServer"@,
        )
    }

    #[verifier::opaque]
    open spec fn parse(d: Doc, at: Seq<char>) -> Result<Doc, Fault> {
        match d {
            Doc::Object(m) => {
                let query = field::<String>(m, "query"@);
                let limit = field::<i32>(m, "limit"@);
                if query is Err {
                    query
                } else if limit is Err {
                    limit
                } else {
                    Ok(
                        tagged(
                            Map::empty()
                                .insert("query"@, query->Ok_0)
                                .insert("limit"@, limit->Ok_0),
                            "searchChatsOnServer"@,
                        ),
                    )
                }
            },
            _ => Err(Fault::TypeMismatch(at)),
        }
    }

    fn encode(&self) -> (j: Json) {
        proof {
            reveal(<SearchChatsOnServer as Wire>::wire);
        }
        let mut members: Vec<Member> = Vec::new();
        put(&mut members, "query", self.query.encode());
        put(&mut members, "limit", self.limit.encode());
        seal(members, "searchChatsOnServer")
    }

    fn decode(j: &Json, at: &str) -> (r: Result<Self, DecodeError>) {
        proof {
            reveal(<SearchChatsOnServer as Wire>::wire);
            reveal(<SearchChatsOnServer as Wire>::parse);
        }
        let members = members_of(j, at)?;
        let query = read_field::<String>(members, "query")?;
        let limit = read_field::<i32>(members, "limit")?;
        Ok(SearchChatsOnServer { query, limit })
    }

    proof fn round_trip(&self, at: Seq<char>) {
        reveal(<SearchChatsOnServer as Wire>::wire);
        reveal(<SearchChatsOnServer as Wire>::parse);
        reveal_strlit("@type");
        reveal_strlit("limit");
        reveal_strlit("query");
        assert("@type"@.len() == 5 && "@type"@[0] == '@');
        assert("limit"@.len() == 5 && "limit"@[0] == 'l');
        assert("query"@.len() == 5 && "query"@[0] == 'q');
        self.query.round_trip("query"@);
        self.limit.round_trip("limit"@);
    }
}

impl Tagged for SearchChatsOnServer {
    open spec fn known(tag: Seq<char>) -> bool {
        tag == "searchChatsOnServer"@
    }

    fn knows(tag: &str) -> (r: bool) {
        same_text(tag, "searchChatsOnServer")
    }

    proof fn tag_known(&self) {
        reveal(<SearchChatsOnServer as Wire>::wire);
        assert(tag_of(self.wire()) == Some("searchChatsOnServer"@));
        assert(Self::known("searchChatsOnServer"@));
    }
}

impl Method for SearchChatsOnServer {
    const TYPE: &'static str = "searchChatsOnServer";

    type Response = Chats;

    proof fn type_is_tag(&self) {
        reveal(<SearchChatsOnServer as Wire>::wire);
        assert(tag_of(self.wire()) == Some("searchChatsOnServer"@));
    }
}

/// Returns a list of users and location-based supergroups nearby. The list of users nearby will be
/// updated for 60 seconds after the request by the updates updateUsersNearby. The request should be
/// sent again every 25 seconds with adjusted location to not miss new chats
#[derive(Debug, Clone)]
pub struct SearchChatsNearby {
    /// Current user location
    pub location: Location,
}

impl Wire for SearchChatsNearby {
    #[verifier::opaque]
    open spec fn wire(&self) -> Doc {
        tagged(
            Map::empty()
                .insert("location"@, self.location.wire()),
            "searchChatsNearby"@,
        )
    }

    #[verifier::opaque]
    open spec fn parse(d: Doc, at: Seq<char>) -> Result<Doc, Fault> {
        match d {
            Doc::Object(m) => {
                let location = field::<Location>(m, "location"@);
                if location is Err {
                    location
                } else {
                    Ok(
                        tagged(
                            Map::empty()
                                .insert("location"@, location->Ok_0),
                            "searchChatsNearby"@,
                        ),
                    )
                }
            },
            _ => Err(Fault::TypeMismatch(at)),
        }
    }

    fn encode(&self) -> (j: Json) {
        proof {
            reveal(<SearchChatsNearby as Wire>::wire);
        }
        let mut members: Vec<Member> = Vec::new();
        put(&mut members, "location", self.location.encode());
        seal(members, "searchChatsNearby")
    }

    fn decode(j: &Json, at: &str) -> (r: Result<Self, DecodeError>) {
        proof {
            reveal(<SearchChatsNearby as Wire>::wire);
            reveal(<SearchChatsNearby as Wire>::parse);
        }
        let members = members_of(j, at)?;
        let location = read_field::<Location>(members, "location")?;
        Ok(SearchChatsNearby { location })
    }

    proof fn round_trip(&self, at: Seq<char>) {
        reveal(<SearchChatsNearby as Wire>::wire);
        reveal(<SearchChatsNearby as Wire>::parse);
        reveal_strlit("@type");
        reveal_strlit("location");
        assert("@type"@.len() == 5);
        assert("location"@.len() == 8);
        self.location.round_trip("location"@);
    }
}

impl Tagged for SearchChatsNearby {
    open spec fn known(tag: Seq<char>) -> bool {
        tag == "searchChatsNearby"@
    }

    fn knows(tag: &str) -> (r: bool) {
        same_text(tag, "searchChatsNearby")
    }

    proof fn tag_known(&self) {
        reveal(<SearchChatsNearby as Wire>::wire);
        assert(tag_of(self.wire()) == Some("searchChatsNearby"@));
        assert(Self::known("searchChatsNearby"@));
    }
}

impl Method for SearchChatsNearby {
    const TYPE: &'static str = "searchChatsNearby";

    type Response = ChatsNearby;

    proof fn type_is_tag(&self) {
        reveal(<SearchChatsNearby as Wire>::wire);
        assert(tag_of(self.wire()) == Some("searchChatsNearby"@));
    }
}

/// Returns a list of frequently used chats. Supported only if the chat info database is enabled
#[derive(Debug, Clone)]
pub struct GetTopChats {
    /// Category of chats to be returned
    pub category: TopChatCategory,
    /// The maximum number of chats to be returned; up to 30
    pub limit: i32,
}

impl Wire for GetTopChats {
    #[verifier::opaque]
    open spec fn wire(&self) -> Doc {
        tagged(
            Map::empty()
                .insert("category"@, self.category.wire())
                .insert("limit"@, self.limit.wire()),
            "getTopChats"@,
        )
    }

    #[verifier::opaque]
    open spec fn parse(d: Doc, at: Seq<char>) -> Result<Doc, Fault> {
        match d {
            Doc::Object(m) => {
                let category = field::<TopChatCategory>(m, "category"@);
                let limit = field::<i32>(m, "limit"@);
                if category is Err {
                    category
                } else if limit is Err {
                    limit
                } else {
                    Ok(
                        tagged(
                            Map::empty()
                                .insert("category"@, category->Ok_0)
                                .insert("limit"@, limit->Ok_0),
                            "getTopChats"@,
                        ),
                    )
                }
            },
            _ => Err(Fault::TypeMismatch(at)),
        }
    }

    fn encode(&self) -> (j: Json) {
        proof {
            reveal(<GetTopChats as Wire>::wire);
        }
        let mut members: Vec<Member> = Vec::new();
        put(&mut members, "category", self.category.encode());
        put(&mut members, "limit", self.limit.encode());
        seal(members, "getTopChats")
    }

    fn decode(j: &Json, at: &str) -> (r: Result<Self, DecodeError>) {
        proof {
            reveal(<GetTopChats as Wire>::wire);
            reveal(<GetTopChats as Wire>::parse);
        }
        let members = members_of(j, at)?;
        let category = read_field::<TopChatCategory>(members, "category")?;
        let limit = read_field::<i32>(members, "limit")?;
        Ok(GetTopChats { category, limit })
    }

    proof fn round_trip(&self, at: Seq<char>) {
        reveal(<GetTopChats as Wire>::wire);
        reveal(<GetTopChats as Wire>::parse);
        reveal_strlit("@type");
        reveal_strlit("category");
        reveal_strlit("limit");
        assert("@type"@.len() == 5 && "@type"@[0] == '@');
        assert("category"@.len() == 8);
        assert("limit"@.len() == 5 && "limit"@[0] == 'l');
        self.category.round_trip("category"@);
        self.limit.round_trip("limit"@);
    }
}

impl Tagged for GetTopChats {
    open spec fn known(tag: Seq<char>) -> bool {
        tag == "getTopChats"@
    }

    fn knows(tag: &str) -> (r: bool) {
        same_text(tag, "getTopChats")
    }

    proof fn tag_known(&self) {
        reveal(<GetTopChats as Wire>::wire);
        assert(tag_of(self.wire()) == Some("getTopChats"@));
        assert(Self::known("getTopChats"@));
    }
}

impl Method for GetTopChats {
    const TYPE: &'static str = "getTopChats";

    type Response = Chats;

    proof fn type_is_tag(&self) {
        reveal(<GetTopChats as Wire>::wire);
        assert(tag_of(self.wire()) == Some("getTopChats"@));
    }
}

/// Removes a chat from the list of frequently used chats. Supported only if the chat info database
/// is enabled
#[derive(Debug, Clone)]
pub struct RemoveTopChat {
    /// Category of frequently used chats
    pub category: TopChatCategory,
    /// Chat identifier
    pub chat_id: i64,
}

impl Wire for RemoveTopChat {
    #[verifier::opaque]
    open spec fn wire(&self) -> Doc {
        tagged(
            Map::empty()
                .insert("category"@, self.category.wire())
                .insert("chatId"@, self.chat_id.wire()),
            "removeTopChat"@,
        )
    }

    #[verifier::opaque]
    open spec fn parse(d: Doc, at: Seq<char>) -> Result<Doc, Fault> {
        match d {
            Doc::Object(m) => {
                let category = field::<TopChatCategory>(m, "category"@);
                let chat_id = field::<i64>(m, "chatId"@);
                if category is Err {
                    category
                } else if chat_id is Err {
                    chat_id
                } else {
                    Ok(
                        tagged(
                            Map::empty()
                                .insert("category"@, category->Ok_0)
                                .insert("chatId"@, chat_id->Ok_0),
                            "removeTopChat"@,
                        ),
                    )
                }
            },
            _ => Err(Fault::TypeMismatch(at)),
        }
    }

    fn encode(&self) -> (j: Json) {
        proof {
            reveal(<RemoveTopChat as Wire>::wire);
        }
        let mut members: Vec<Member> = Vec::new();
        put(&mut members, "category", self.category.encode());
        put(&mut members, "chatId", self.chat_id.encode());
        seal(members, "removeTopChat")
    }

    fn decode(j: &Json, at: &str) -> (r: Result<Self, DecodeError>) {
        proof {
            reveal(<RemoveTopChat as Wire>::wire);
            reveal(<RemoveTopChat as Wire>::parse);
        }
        let members = members_of(j, at)?;
        let category = read_field::<TopChatCategory>(members, "category")?;
        let chat_id = read_field::<i64>(members, "chatId")?;
        Ok(RemoveTopChat { category, chat_id })
    }

    proof fn round_trip(&self, at: Seq<char>) {
        reveal(<RemoveTopChat as Wire>::wire);
        reveal(<RemoveTopChat as Wire>::parse);
        reveal_strlit("@type");
        reveal_strlit("category");
        reveal_strlit("chatId");
        assert("@type"@.len() == 5);
        assert("category"@.len() == 8);
        assert("chatId"@.len() == 6);
        self.category.round_trip("category"@);
        self.chat_id.round_trip("chatId"@);
    }
}

impl Tagged for RemoveTopChat {
    open spec fn known(tag: Seq<char>) -> bool {
        tag == "removeTopChat"@
    }

    fn knows(tag: &str) -> (r: bool) {
        same_text(tag, "removeTopChat")
    }

    proof fn tag_known(&self) {
        reveal(<RemoveTopChat as Wire>::wire);
        assert(tag_of(self.wire()) == Some("removeTopChat"@));
        assert(Self::known("removeTopChat"@));
    }
}

impl Method for RemoveTopChat {
    const TYPE: &'static str = "removeTopChat";

    type Response = Okay;

    proof fn type_is_tag(&self) {
        reveal(<RemoveTopChat as Wire>::wire);
        assert(tag_of(self.wire()) == Some("removeTopChat"@));
    }
}

/// Adds a chat to the list of recently found chats. The chat is added to the beginning of the list.
/// If the chat is already in the list, it will be removed from the list first
#[derive(Debug, Clone)]
pub struct AddRecentlyFoundChat {
    /// Identifier of the chat to add
    pub chat_id: i64,
}

impl Wire for AddRecentlyFoundChat {
    #[verifier::opaque]
    open spec fn wire(&self) -> Doc {
        tagged(
            Map::empty()
                .insert("chatId"@, self.chat_id.wire()),
            "addRecentlyFoundChat"@,
        )
    }

    #[verifier::opaque]
    open spec fn parse(d: Doc, at: Seq<char>) -> Result<Doc, Fault> {
        match d {
            Doc::Object(m) => {
                let chat_id = field::<i64>(m, "chatId"@);
                if chat_id is Err {
                    chat_id
                } else {
                    Ok(
                        tagged(
                            Map::empty()
                                .insert("chatId"@, chat_id->Ok_0),
                            "addRecentlyFoundChat"@,
                        ),
                    )
                }
            },
            _ => Err(Fault::TypeMismatch(at)),
        }
    }

    fn encode(&self) -> (j: Json) {
        proof {
            reveal(<AddRecentlyFoundChat as Wire>::wire);
        }
        let mut members: Vec<Member> = Vec::new();
        put(&mut members, "chatId", self.chat_id.encode());
        seal(members, "addRecentlyFoundChat")
    }

    fn decode(j: &Json, at: &str) -> (r: Result<Self, DecodeError>) {
        proof {
            reveal(<AddRecentlyFoundChat as Wire>::wire);
            reveal(<AddRecentlyFoundChat as Wire>::parse);
        }
        let members = members_of(j, at)?;
        let chat_id = read_field::<i64>(members, "chatId")?;
        Ok(AddRecentlyFoundChat { chat_id })
    }

    proof fn round_trip(&self, at: Seq<char>) {
        reveal(<AddRecentlyFoundChat as Wire>::wire);
        reveal(<AddRecentlyFoundChat as Wire>::parse);
        reveal_strlit("@type");
        reveal_strlit("chatId");
        assert("@type"@.len() == 5);
        assert("chatId"@.len() == 6);
        self.chat_id.round_trip("chatId"@);
    }
}

impl Tagged for AddRecentlyFoundChat {
    open spec fn known(tag: Seq<char>) -> bool {
        tag == "addRecentlyFoundChat"@
    }

    fn knows(tag: &str) -> (r: bool) {
        same_text(tag, "addRecentlyFoundChat")
    }

    proof fn tag_known(&self) {
        reveal(<AddRecentlyFoundChat as Wire>::wire);
        assert(tag_of(self.wire()) == Some("addRecentlyFoundChat"@));
        assert(Self::known("addRecentlyFoundChat"@));
    }
}

impl Method for AddRecentlyFoundChat {
    const TYPE: &'static str = "addRecentlyFoundChat";

    type Response = Okay;

    proof fn type_is_tag(&self) {
        reveal(<AddRecentlyFoundChat as Wire>::wire);
        assert(tag_of(self.wire()) == Some("addRecentlyFoundChat"@));
    }
}

/// Removes a chat from the list of recently found chats
#[derive(Debug, Clone)]
pub struct RemoveRecentlyFoundChat {
    /// Identifier of the chat to be removed
    pub chat_id: i64,
}

impl Wire for RemoveRecentlyFoundChat {
    #[verifier::opaque]
    open spec fn wire(&self) -> Doc {
        tagged(
            Map::empty()
                .insert("chatId"@, self.chat_id.wire()),
            "removeRecentlyFoundChat"@,
        )
    }

    #[verifier::opaque]
    open spec fn parse(d: Doc, at: Seq<char>) -> Result<Doc, Fault> {
        match d {
            Doc::Object(m) => {
                let chat_id = field::<i64>(m, "chatId"@);
                if chat_id is Err {
                    chat_id
                } else {
                    Ok(
                        tagged(
                            Map::empty()
                                .insert("chatId"@, chat_id->Ok_0),
                            "removeRecentlyFoundChat"@,
                        ),
                    )
                }
            },
            _ => Err(Fault::TypeMismatch(at)),
        }
    }

    fn encode(&self) -> (j: Json) {
        proof {
            reveal(<RemoveRecentlyFoundChat as Wire>::wire);
        }
        let mut members: Vec<Member> = Vec::new();
        put(&mut members, "chatId", self.chat_id.encode());
        seal(members, "removeRecentlyFoundChat")
    }

    fn decode(j: &Json, at: &str) -> (r: Result<Self, DecodeError>) {
        proof {
            reveal(<RemoveRecentlyFoundChat as Wire>::wire);
            reveal(<RemoveRecentlyFoundChat as Wire>::parse);
        }
        let members = members_of(j, at)?;
        let chat_id = read_field::<i64>(members, "chatId")?;
        Ok(RemoveRecentlyFoundChat { chat_id })
    }

    proof fn round_trip(&self, at: Seq<char>) {
        reveal(<RemoveRecentlyFoundChat as Wire>::wire);
        reveal(<RemoveRecentlyFoundChat as Wire>::parse);
        reveal_strlit("@type");
        reveal_strlit("chatId");
        assert("@type"@.len() == 5);
        assert("chatId"@.len() == 6);
        self.chat_id.round_trip("chatId"@);
    }
}

impl Tagged for RemoveRecentlyFoundChat {
    open spec fn known(tag: Seq<char>) -> bool {
        tag == "removeRecentlyFoundChat"@
    }

    fn knows(tag: &str) -> (r: bool) {
        same_text(tag, "removeRecentlyFoundChat")
    }

    proof fn tag_known(&self) {
        reveal(<RemoveRecentlyFoundChat as Wire>::wire);
        assert(tag_of(self.wire()) == Some("removeRecentlyFoundChat"@));
        assert(Self::known("removeRecentlyFoundChat"@));
    }
}

impl Method for RemoveRecentlyFoundChat {
    const TYPE: &'static str = "removeRecentlyFoundChat";

    type Response = Okay;

    proof fn type_is_tag(&self) {
        reveal(<RemoveRecentlyFoundChat as Wire>::wire);
        assert(tag_of(self.wire()) == Some("removeRecentlyFoundChat"@));
    }
}

/// Clears the list of recently found chats
#[derive(Debug, Clone)]
pub struct ClearRecentlyFoundChats {}

impl Wire for ClearRecentlyFoundChats {
    #[verifier::opaque]
    open spec fn wire(&self) -> Doc {
        tagged(Map::empty(), "clearRecentlyFoundChats"@)
    }

    #[verifier::opaque]
    open spec fn parse(d: Doc, at: Seq<char>) -> Result<Doc, Fault> {
        match d {
            Doc::Object(_) => Ok(tagged(Map::empty(), "clearRecentlyFoundChats"@)),
            _ => Err(Fault::TypeMismatch(at)),
        }
    }

    fn encode(&self) -> (j: Json) {
        proof {
            reveal(<ClearRecentlyFoundChats as Wire>::wire);
        }
        seal(Vec::new(), "clearRecentlyFoundChats")
    }

    fn decode(j: &Json, at: &str) -> (r: Result<Self, DecodeError>) {
        proof {
            reveal(<ClearRecentlyFoundChats as Wire>::wire);
            reveal(<ClearRecentlyFoundChats as Wire>::parse);
        }
        let _ = members_of(j, at)?;
        Ok(ClearRecentlyFoundChats {})
    }

    proof fn round_trip(&self, at: Seq<char>) {
        reveal(<ClearRecentlyFoundChats as Wire>::wire);
        reveal(<ClearRecentlyFoundChats as Wire>::parse);
    }
}

impl Tagged for ClearRecentlyFoundChats {
    open spec fn known(tag: Seq<char>) -> bool {
        tag == "clearRecentlyFoundChats"@
    }

    fn knows(tag: &str) -> (r: bool) {
        same_text(tag, "clearRecentlyFoundChats")
    }

    proof fn tag_known(&self) {
        reveal(<ClearRecentlyFoundChats as Wire>::wire);
        assert(tag_of(self.wire()) == Some("clearRecentlyFoundChats"@));
        assert(Self::known("clearRecentlyFoundChats"@));
    }
}

impl Method for ClearRecentlyFoundChats {
    const TYPE: &'static str = "clearRecentlyFoundChats";

    type Response = Okay;

    proof fn type_is_tag(&self) {
        reveal(<ClearRecentlyFoundChats as Wire>::wire);
        assert(tag_of(self.wire()) == Some("clearRecentlyFoundChats"@));
    }
}

/// Checks whether a username can be set for a chat
#[derive(Debug, Clone)]
pub struct CheckChatUsername {
    /// Chat identifier; should be identifier of a supergroup chat, or a channel chat, or a private
    /// chat with self, or zero if chat is being created
    pub chat_id: i64,
    /// Username to be checked
    pub username: String,
}

impl Wire for CheckChatUsername {
    #[verifier::opaque]
    open spec fn wire(&self) -> Doc {
        tagged(
            Map::empty()
                .insert("chatId"@, self.chat_id.wire())
                .insert("username"@, self.username.wire()),
            "checkChatUsername"@,
        )
    }

    #[verifier::opaque]
    open spec fn parse(d: Doc, at: Seq<char>) -> Result<Doc, Fault> {
        match d {
            Doc::Object(m) => {
                let chat_id = field::<i64>(m, "chatId"@);
                let username = field::<String>(m, "username"@);
                if chat_id is Err {
                    chat_id
                } else if username is Err {
                    username
                } else {
                    Ok(
                        tagged(
                            Map::empty()
                                .insert("chatId"@, chat_id->Ok_0)
                                .insert("username"@, username->Ok_0),
                            "checkChatUsername"@,
                        ),
                    )
                }
            },
            _ => Err(Fault::TypeMismatch(at)),
        }
    }

    fn encode(&self) -> (j: Json) {
        proof {
            reveal(<CheckChatUsername as Wire>::wire);
        }
        let mut members: Vec<Member> = Vec::new();
        put(&mut members, "chatId", self.chat_id.encode());
        put(&mut members, "username", self.username.encode());
        seal(members, "checkChatUsername")
    }

    fn decode(j: &Json, at: &str) -> (r: Result<Self, DecodeError>) {
        proof {
            reveal(<CheckChatUsername as Wire>::wire);
            reveal(<CheckChatUsername as Wire>::parse);
        }
        let members = members_of(j, at)?;
        let chat_id = read_field::<i64>(members, "chatId")?;
        let username = read_field::<String>(members, "username")?;
        Ok(CheckChatUsername { chat_id, username })
    }

    proof fn round_trip(&self, at: Seq<char>) {
        reveal(<CheckChatUsername as Wire>::wire);
        reveal(<CheckChatUsername as Wire>::parse);
        reveal_strlit("@type");
        reveal_strlit("chatId");
        reveal_strlit("username");
        assert("@type"@.len() == 5);
        assert("chatId"@.len() == 6);
        assert("username"@.len() == 8);
        self.chat_id.round_trip("chatId"@);
        self.username.round_trip("username"@);
    }
}

impl Tagged for CheckChatUsername {
    open spec fn known(tag: Seq<char>) -> bool {
        tag == "checkChatUsername"@
    }

    fn knows(tag: &str) -> (r: bool) {
        same_text(tag, "checkChatUsername")
    }

    proof fn tag_known(&self) {
        reveal(<CheckChatUsername as Wire>::wire);
        assert(tag_of(self.wire()) == Some("checkChatUsername"@));
        assert(Self::known("checkChatUsername"@));
    }
}

impl Method for CheckChatUsername {
    const TYPE: &'static str = "checkChatUsername";

    type Response = CheckChatUsernameResult;

    proof fn type_is_tag(&self) {
        reveal(<CheckChatUsername as Wire>::wire);
        assert(tag_of(self.wire()) == Some("checkChatUsername"@));
    }
}

/// Returns a list of public chats of the specified type, owned by the user
#[derive(Debug, Clone)]
pub struct GetCreatedPublicChats {
    /// Type of the public chats to return
    pub type_: PublicChatType,
}

impl Wire for GetCreatedPublicChats {
    #[verifier::opaque]
    open spec fn wire(&self) -> Doc {
        tagged(
            Map::empty()
                .insert("type"@, self.type_.wire()),
            "getCreatedPublicChats"@,
        )
    }

    #[verifier::opaque]
    open spec fn parse(d: Doc, at: Seq<char>) -> Result<Doc, Fault> {
        match d {
            Doc::Object(m) => {
                let type_ = field::<PublicChatType>(m, "type"@);
                if type_ is Err {
                    type_
                } else {
                    Ok(
                        tagged(
                            Map::empty()
                                .insert("type"@, type_->Ok_0),
                            "getCreatedPublicChats"@,
                        ),
                    )
                }
            },
            _ => Err(Fault::TypeMismatch(at)),
        }
    }

    fn encode(&self) -> (j: Json) {
        proof {
            reveal(<GetCreatedPublicChats as Wire>::wire);
        }
        let mut members: Vec<Member> = Vec::new();
        put(&mut members, "type", self.type_.encode());
        seal(members, "getCreatedPublicChats")
    }

    fn decode(j: &Json, at: &str) -> (r: Result<Self, DecodeError>) {
        proof {
            reveal(<GetCreatedPublicChats as Wire>::wire);
            reveal(<GetCreatedPublicChats as Wire>::parse);
        }
        let members = members_of(j, at)?;
        let type_ = read_field::<PublicChatType>(members, "type")?;
        Ok(GetCreatedPublicChats { type_ })
    }

    proof fn round_trip(&self, at: Seq<char>) {
        reveal(<GetCreatedPublicChats as Wire>::wire);
        reveal(<GetCreatedPublicChats as Wire>::parse);
        reveal_strlit("@type");
        reveal_strlit("type");
        assert("@type"@.len() == 5);
        assert("type"@.len() == 4);
        self.type_.round_trip("type"@);
    }
}

impl Tagged for GetCreatedPublicChats {
    open spec fn known(tag: Seq<char>) -> bool {
        tag == "getCreatedPublicChats"@
    }

    fn knows(tag: &str) -> (r: bool) {
        same_text(tag, "getCreatedPublicChats")
    }

    proof fn tag_known(&self) {
        reveal(<GetCreatedPublicChats as Wire>::wire);
        assert(tag_of(self.wire()) == Some("getCreatedPublicChats"@));
        assert(Self::known("getCreatedPublicChats"@));
    }
}

impl Method for GetCreatedPublicChats {
    const TYPE: &'static str = "getCreatedPublicChats";

    type Response = Chats;

    proof fn type_is_tag(&self) {
        reveal(<GetCreatedPublicChats as Wire>::wire);
        assert(tag_of(self.wire()) == Some("getCreatedPublicChats"@));
    }
}

/// Checks whether the maximum number of owned public chats has been reached. Returns corresponding
/// error if the limit was reached
#[derive(Debug, Clone)]
pub struct CheckCreatedPublicChatsLimit {
    /// Type of the public chats, for which to check the limit
    pub type_: PublicChatType,
}

impl Wire for CheckCreatedPublicChatsLimit {
    #[verifier::opaque]
    open spec fn wire(&self) -> Doc {
        tagged(
            Map::empty()
                .insert("type"@, self.type_.wire()),
            "checkCreatedPublicChatsLimit"@,
        )
    }

    #[verifier::opaque]
    open spec fn parse(d: Doc, at: Seq<char>) -> Result<Doc, Fault> {
        match d {
            Doc::Object(m) => {
                let type_ = field::<PublicChatType>(m, "type"@);
                if type_ is Err {
                    type_
                } else {
                    Ok(
                        tagged(
                            Map::empty()
                                .insert("type"@, type_->Ok_0),
                            "checkCreatedPublicChatsLimit"@,
                        ),
                    )
                }
            },
            _ => Err(Fault::TypeMismatch(at)),
        }
    }

    fn encode(&self) -> (j: Json) {
        proof {
            reveal(<CheckCreatedPublicChatsLimit as Wire>::wire);
        }
        let mut members: Vec<Member> = Vec::new();
        put(&mut members, "type", self.type_.encode());
        seal(members, "checkCreatedPublicChatsLimit")
    }

    fn decode(j: &Json, at: &str) -> (r: Result<Self, DecodeError>) {
        proof {
            reveal(<CheckCreatedPublicChatsLimit as Wire>::wire);
            reveal(<CheckCreatedPublicChatsLimit as Wire>::parse);
        }
        let members = members_of(j, at)?;
        let type_ = read_field::<PublicChatType>(members, "type")?;
        Ok(CheckCreatedPublicChatsLimit { type_ })
    }

    proof fn round_trip(&self, at: Seq<char>) {
        reveal(<CheckCreatedPublicChatsLimit as Wire>::wire);
        reveal(<CheckCreatedPublicChatsLimit as Wire>::parse);
        reveal_strlit("@type");
        reveal_strlit("type");
        assert("@type"@.len() == 5);
        assert("type"@.len() == 4);
        self.type_.round_trip("type"@);
    }
}

impl Tagged for CheckCreatedPublicChatsLimit {
    open spec fn known(tag: Seq<char>) -> bool {
        tag == "checkCreatedPublicChatsLimit"@
    }

    fn knows(tag: &str) -> (r: bool) {
        same_text(tag, "checkCreatedPublicChatsLimit")
    }

    proof fn tag_known(&self) {
        reveal(<CheckCreatedPublicChatsLimit as Wire>::wire);
        assert(tag_of(self.wire()) == Some("checkCreatedPublicChatsLimit"@));
        assert(Self::known("checkCreatedPublicChatsLimit"@));
    }
}

impl Method for CheckCreatedPublicChatsLimit {
    const TYPE: &'static str = "checkCreatedPublicChatsLimit";

    type Response = Okay;

    proof fn type_is_tag(&self) {
        reveal(<CheckCreatedPublicChatsLimit as Wire>::wire);
        assert(tag_of(self.wire()) == Some("checkCreatedPublicChatsLimit"@));
    }
}

/// Returns a list of basic group and supergroup chats, which can be used as a discussion group for
/// a channel. Basic group chats need to be first upgraded to supergroups before they can be set as
/// a discussion group
#[derive(Debug, Clone)]
pub struct GetSuitableDiscussionChats {}

impl Wire for GetSuitableDiscussionChats {
    #[verifier::opaque]
    open spec fn wire(&self) -> Doc {
        tagged(Map::empty(), "getSuitableDiscussionChats"@)
    }

    #[verifier::opaque]
    open spec fn parse(d: Doc, at: Seq<char>) -> Result<Doc, Fault> {
        match d {
            Doc::Object(_) => Ok(tagged(Map::empty(), "getSuitableDiscussionChats"@)),
            _ => Err(Fault::TypeMismatch(at)),
        }
    }

    fn encode(&self) -> (j: Json) {
        proof {
            reveal(<GetSuitableDiscussionChats as Wire>::wire);
        }
        seal(Vec::new(), "getSuitableDiscussionChats")
    }

    fn decode(j: &Json, at: &str) -> (r: Result<Self, DecodeError>) {
        proof {
            reveal(<GetSuitableDiscussionChats as Wire>::wire);
            reveal(<GetSuitableDiscussionChats as Wire>::parse);
        }
        let _ = members_of(j, at)?;
        Ok(GetSuitableDiscussionChats {})
    }

    proof fn round_trip(&self, at: Seq<char>) {
        reveal(<GetSuitableDiscussionChats as Wire>::wire);
        reveal(<GetSuitableDiscussionChats as Wire>::parse);
    }
}

impl Tagged for GetSuitableDiscussionChats {
    open spec fn known(tag: Seq<char>) -> bool {
        tag == "getSuitableDiscussionChats"@
    }

    fn knows(tag: &str) -> (r: bool) {
        same_text(tag, "getSuitableDiscussionChats")
    }

    proof fn tag_known(&self) {
        reveal(<GetSuitableDiscussionChats as Wire>::wire);
        assert(tag_of(self.wire()) == Some("getSuitableDiscussionChats"@));
        assert(Self::known("getSuitableDiscussionChats"@));
    }
}

impl Method for GetSuitableDiscussionChats {
    const TYPE: &'static str = "getSuitableDiscussionChats";

    type Response = Chats;

    proof fn type_is_tag(&self) {
        reveal(<GetSuitableDiscussionChats as Wire>::wire);
        assert(tag_of(self.wire()) == Some("getSuitableDiscussionChats"@));
    }
}

/// Returns a list of recently inactive supergroups and channels. Can be used when user reaches
/// limit on the number of joined supergroups and channels and receives CHANNELS_TOO_MUCH error
#[derive(Debug, Clone)]
pub struct GetInactiveSupergroupChats {}

impl Wire for GetInactiveSupergroupChats {
    #[verifier::opaque]
    open spec fn wire(&self) -> Doc {
        tagged(Map::empty(), "getInactiveSupergroupChats"@)
    }

    #[verifier::opaque]
    open spec fn parse(d: Doc, at: Seq<char>) -> Result<Doc, Fault> {
        match d {
            Doc::Object(_) => Ok(tagged(Map::empty(), "getInactiveSupergroupChats"@)),
            _ => Err(Fault::TypeMismatch(at)),
        }
    }

    fn encode(&self) -> (j: Json) {
        proof {
            reveal(<GetInactiveSupergroupChats as Wire>::wire);
        }
        seal(Vec::new(), "getInactiveSupergroupChats")
    }

    fn decode(j: &Json, at: &str) -> (r: Result<Self, DecodeError>) {
        proof {
            reveal(<GetInactiveSupergroupChats as Wire>::wire);
            reveal(<GetInactiveSupergroupChats as Wire>::parse);
        }
        let _ = members_of(j, at)?;
        Ok(GetInactiveSupergroupChats {})
    }

    proof fn round_trip(&self, at: Seq<char>) {
        reveal(<GetInactiveSupergroupChats as Wire>::wire);
        reveal(<GetInactiveSupergroupChats as Wire>::parse);
    }
}

impl Tagged for GetInactiveSupergroupChats {
    open spec fn known(tag: Seq<char>) -> bool {
        tag == "getInactiveSupergroupChats"@
    }

    fn knows(tag: &str) -> (r: bool) {
        same_text(tag, "getInactiveSupergroupChats")
    }

    proof fn tag_known(&self) {
        reveal(<GetInactiveSupergroupChats as Wire>::wire);
        assert(tag_of(self.wire()) == Some("getInactiveSupergroupChats"@));
        assert(Self::known("getInactiveSupergroupChats"@));
    }
}

impl Method for GetInactiveSupergroupChats {
    const TYPE: &'static str = "getInactiveSupergroupChats";

    type Response = Chats;

    proof fn type_is_tag(&self) {
        reveal(<GetInactiveSupergroupChats as Wire>::wire);
        assert(tag_of(self.wire()) == Some("getInactiveSupergroupChats"@));
    }
}

/// Returns a list of common group chats with a given user. Chats are sorted by their type and
/// creation date
#[derive(Debug, Clone)]
pub struct GetGroupsInCommon {
    /// User identifier
    pub user_id: i32,
    /// Chat identifier starting from which to return chats; use 0 for the first request
    pub offset_chat_id: i64,
    /// The maximum number of chats to be returned; up to 100
    pub limit: i32,
}

impl Wire for GetGroupsInCommon {
    #[verifier::opaque]
    open spec fn wire(&self) -> Doc {
        tagged(
            Map::empty()
                .insert("userId"@, self.user_id.wire())
                .insert("offsetChatId"@, self.offset_chat_id.wire())
                .insert("limit"@, self.limit.wire()),
            "getGroupsInCommon"@,
        )
    }

    #[verifier::opaque]
    open spec fn parse(d: Doc, at: Seq<char>) -> Result<Doc, Fault> {
        match d {
            Doc::Object(m) => {
                let user_id = field::<i32>(m, "userId"@);
                let offset_chat_id = field::<i64>(m, "offsetChatId"@);
                let limit = field::<i32>(m, "limit"@);
                if user_id is Err {
                    user_id
                } else if offset_chat_id is Err {
                    offset_chat_id
                } else if limit is Err {
                    limit
                } else {
                    Ok(
                        tagged(
                            Map::empty()
                                .insert("userId"@, user_id->Ok_0)
                                .insert("offsetChatId"@, offset_chat_id->Ok_0)
                                .insert("limit"@, limit->Ok_0),
                            "getGroupsInCommon"@,
                        ),
                    )
                }
            },
            _ => Err(Fault::TypeMismatch(at)),
        }
    }

    fn encode(&self) -> (j: Json) {
        proof {
            reveal(<GetGroupsInCommon as Wire>::wire);
        }
        let mut members: Vec<Member> = Vec::new();
        put(&mut members, "userId", self.user_id.encode());
        put(&mut members, "offsetChatId", self.offset_chat_id.encode());
        put(&mut members, "limit", self.limit.encode());
        seal(members, "getGroupsInCommon")
    }

    fn decode(j: &Json, at: &str) -> (r: Result<Self, DecodeError>) {
        proof {
            reveal(<GetGroupsInCommon as Wire>::wire);
            reveal(<GetGroupsInCommon as Wire>::parse);
        }
        let members = members_of(j, at)?;
        let user_id = read_field::<i32>(members, "userId")?;
        let offset_chat_id = read_field::<i64>(members, "offsetChatId")?;
        let limit = read_field::<i32>(members, "limit")?;
        Ok(GetGroupsInCommon { user_id, offset_chat_id, limit })
    }

    proof fn round_trip(&self, at: Seq<char>) {
        reveal(<GetGroupsInCommon as Wire>::wire);
        reveal(<GetGroupsInCommon as Wire>::parse);
        reveal_strlit("@type");
        reveal_strlit("limit");
        reveal_strlit("offsetChatId");
        reveal_strlit("userId");
        assert("@type"@.len() == 5 && "@type"@[0] == '@');
        assert("limit"@.len() == 5 && "limit"@[0] == 'l');
        assert("offsetChatId"@.len() == 12);
        assert("userId"@.len() == 6);
        self.user_id.round_trip("userId"@);
        self.offset_chat_id.round_trip("offsetChatId"@);
        self.limit.round_trip("limit"@);
    }
}

impl Tagged for GetGroupsInCommon {
    open spec fn known(tag: Seq<char>) -> bool {
        tag == "getGroupsInCommon"@
    }

    fn knows(tag: &str) -> (r: bool) {
        same_text(tag, "getGroupsInCommon")
    }

    proof fn tag_known(&self) {
        reveal(<GetGroupsInCommon as Wire>::wire);
        assert(tag_of(self.wire()) == Some("getGroupsInCommon"@));
        assert(Self::known("getGroupsInCommon"@));
    }
}

impl Method for GetGroupsInCommon {
    const TYPE: &'static str = "getGroupsInCommon";

    type Response = Chats;

    proof fn type_is_tag(&self) {
        reveal(<GetGroupsInCommon as Wire>::wire);
        assert(tag_of(self.wire()) == Some("getGroupsInCommon"@));
    }
}

/// Returns messages in a chat. The messages are returned in a reverse chronological order (i.e., in
/// order of decreasing message_id). For optimal performance the number of returned messages is
/// chosen by the library. This is an offline request if only_local is true
#[derive(Debug, Clone)]
pub struct GetChatHistory {
    /// Chat identifier
    pub chat_id: i64,
    /// Identifier of the message starting from which history must be fetched; use 0 to get results
    /// from the last message
    pub from_message_id: i64,
    /// Specify 0 to get results from exactly the from_message_id or a negative offset up to 99 to
    /// get additionally some newer messages
    pub offset: i32,
    /// The maximum number of messages to be returned; must be positive and can't be greater than
    /// 100. If the offset is negative, the limit must be greater or equal to -offset. Fewer
    /// messages may be returned than specified by the limit, even if the end of the message history
    /// has not been reached
    pub limit: i32,
    /// If true, returns only messages that are available locally without sending network requests
    pub only_local: bool,
}

impl Wire for GetChatHistory {
    #[verifier::opaque]
    open spec fn wire(&self) -> Doc {
        tagged(
            Map::empty()
                .insert("chatId"@, self.chat_id.wire())
                .insert("fromMessageId"@, self.from_message_id.wire())
                .insert("offset"@, self.offset.wire())
                .insert("limit"@, self.limit.wire())
                .insert("onlyLocal"@, self.only_local.wire()),
            "getChatHistory"@,
        )
    }

    #[verifier::opaque]
    open spec fn parse(d: Doc, at: Seq<char>) -> Result<Doc, Fault> {
        match d {
            Doc::Object(m) => {
                let chat_id = field::<i64>(m, "chatId"@);
                let from_message_id = field::<i64>(m, "fromMessageId"@);
                let offset = field::<i32>(m, "offset"@);
                let limit = field::<i32>(m, "limit"@);
                let only_local = field::<bool>(m, "onlyLocal"@);
                if chat_id is Err {
                    chat_id
                } else if from_message_id is Err {
                    from_message_id
                } else if offset is Err {
                    offset
                } else if limit is Err {
                    limit
                } else if only_local is Err {
                    only_local
                } else {
                    Ok(
                        tagged(
                            Map::empty()
                                .insert("chatId"@, chat_id->Ok_0)
                                .insert("fromMessageId"@, from_message_id->Ok_0)
                                .insert("offset"@, offset->Ok_0)
                                .insert("limit"@, limit->Ok_0)
                                .insert("onlyLocal"@, only_local->Ok_0),
                            "getChatHistory"@,
                        ),
                    )
                }
            },
            _ => Err(Fault::TypeMismatch(at)),
        }
    }

    fn encode(&self) -> (j: Json) {
        proof {
            reveal(<GetChatHistory as Wire>::wire);
        }
        let mut members: Vec<Member> = Vec::new();
        put(&mut members, "chatId", self.chat_id.encode());
        put(&mut members, "fromMessageId", self.from_message_id.encode());
        put(&mut members, "offset", self.offset.encode());
        put(&mut members, "limit", self.limit.encode());
        put(&mut members, "onlyLocal", self.only_local.encode());
        seal(members, "getChatHistory")
    }

    fn decode(j: &Json, at: &str) -> (r: Result<Self, DecodeError>) {
        proof {
            reveal(<GetChatHistory as Wire>::wire);
            reveal(<GetChatHistory as Wire>::parse);
        }
        let members = members_of(j, at)?;
        let chat_id = read_field::<i64>(members, "chatId")?;
        let from_message_id = read_field::<i64>(members, "fromMessageId")?;
        let offset = read_field::<i32>(members, "offset")?;
        let limit = read_field::<i32>(members, "limit")?;
        let only_local = read_field::<bool>(members, "onlyLocal")?;
        Ok(GetChatHistory { chat_id, from_message_id, offset, limit, only_local })
    }

    proof fn round_trip(&self, at: Seq<char>) {
        reveal(<GetChatHistory as Wire>::wire);
        reveal(<GetChatHistory as Wire>::parse);
        reveal_strlit("@type");
        reveal_strlit("chatId");
        reveal_strlit("fromMessageId");
        reveal_strlit("limit");
        reveal_strlit("offset");
        reveal_strlit("onlyLocal");
        assert("@type"@.len() == 5 && "@type"@[0] == '@');
        assert("chatId"@.len() == 6 && "chatId"@[0] == 'c');
        assert("fromMessageId"@.len() == 13);
        assert("limit"@.len() == 5 && "limit"@[0] == 'l');
        assert("offset"@.len() == 6 && "offset"@[0] == 'o');
        assert("onlyLocal"@.len() == 9);
        self.chat_id.round_trip("chatId"@);
        self.from_message_id.round_trip("fromMessageId"@);
        self.offset.round_trip("offset"@);
        self.limit.round_trip("limit"@);
        self.only_local.round_trip("onlyLocal"@);
    }
}

impl Tagged for GetChatHistory {
    open spec fn known(tag: Seq<char>) -> bool {
        tag == "getChatHistory"@
    }

    fn knows(tag: &str) -> (r: bool) {
        same_text(tag, "getChatHistory")
    }

    proof fn tag_known(&self) {
        reveal(<GetChatHistory as Wire>::wire);
        assert(tag_of(self.wire()) == Some("getChatHistory"@));
        assert(Self::known("getChatHistory"@));
    }
}

impl Method for GetChatHistory {
    const TYPE: &'static str = "getChatHistory";

    type Response = Messages;

    proof fn type_is_tag(&self) {
        reveal(<GetChatHistory as Wire>::wire);
        assert(tag_of(self.wire()) == Some("getChatHistory"@));
    }
}

} // verus!
