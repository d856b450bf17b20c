//! Requests that search, send and edit messages.

use vstd::prelude::*;
use crate::codec::{
    encode_wide, field, find, lemma_wide_round_trip, members_of, optional_field, put, read_field,
    read_optional, read_wide, seal, Tagged, wide_doc, wide_field, Wire,
};
use crate::error::{DecodeError, Fault};
use crate::json::{Doc, Json, Member, Number, tag_of, tagged};
use crate::methods::Method;
use crate::text::same_text;
use crate::types::{
    CallbackQueryAnswer, CallbackQueryPayload, ChatList, Count, FormattedText, FoundMessages,
    GameHighScores, HttpUrl, InlineQueryResults, InputInlineQueryResult, InputMessageContent,
    JsonValue, LanguagePackStringValue, Location, LoginUrlInfo, Message, MessageLinkInfo,
    MessageSchedulingState, Messages, Okay, PublicMessageLink, ReplyMarkup, SearchMessagesFilter,
    SendMessageOptions, ShippingOption, Text, TextEntities, TextParseMode, Users,
};

verus! {

/// Deletes all messages in the chat. Use Chat.can_be_deleted_only_for_self and
/// Chat.can_be_deleted_for_all_users fields to find whether and how the method can be applied to
/// the chat
#[derive(Debug, Clone)]
pub struct DeleteChatHistory {
    /// Chat identifier
    pub chat_id: i64,
    /// Pass true if the chat should be removed from the chat list
    pub remove_from_chat_list: bool,
    /// Pass true to try to delete chat history for all users
    pub revoke: bool,
}

impl Wire for DeleteChatHistory {
    #[verifier::opaque]
    open spec fn wire(&self) -> Doc {
        tagged(
            Map::empty()
                .insert("chatId"@, self.chat_id.wire())
                .insert("removeFromChatList"@, self.remove_from_chat_list.wire())
                .insert("revoke"@, self.revoke.wire()),
            "deleteChatHistory"@,
        )
    }

    #[verifier::opaque]
    open spec fn parse(d: Doc, at: Seq<char>) -> Result<Doc, Fault> {
        match d {
            Doc::Object(m) => {
                let chat_id = field::<i64>(m, "chatId"@);
                let remove_from_chat_list = field::<bool>(m, "removeFromChatList"@);
                let revoke = field::<bool>(m, "revoke"@);
                if chat_id is Err {
                    chat_id
                } else if remove_from_chat_list is Err {
                    remove_from_chat_list
                } else if revoke is Err {
                    revoke
                } else {
                    Ok(
                        tagged(
                            Map::empty()
                                .insert("chatId"@, chat_id->Ok_0)
                                .insert("removeFromChatList"@, remove_from_chat_list->Ok_0)
                                .insert("revoke"@, revoke->Ok_0),
                            "deleteChatHistory"@,
                        ),
                    )
                }
            },
            _ => Err(Fault::TypeMismatch(at)),
        }
    }

    fn encode(&self) -> (j: Json) {
        proof {
            reveal(<DeleteChatHistory as Wire>::wire);
        }
        let mut members: Vec<Member> = Vec::new();
        put(&mut members, "chatId", self.chat_id.encode());
        put(&mut members, "removeFromChatList", self.remove_from_chat_list.encode());
        put(&mut members, "revoke", self.revoke.encode());
        seal(members, "deleteChatHistory")
    }

    fn decode(j: &Json, at: &str) -> (r: Result<Self, DecodeError>) {
        proof {
            reveal(<DeleteChatHistory as Wire>::wire);
            reveal(<DeleteChatHistory as Wire>::parse);
        }
        let members = members_of(j, at)?;
        let chat_id = read_field::<i64>(members, "chatId")?;
        let remove_from_chat_list = read_field::<bool>(members, "removeFromChatList")?;
        let revoke = read_field::<bool>(members, "revoke")?;
        Ok(DeleteChatHistory { chat_id, remove_from_chat_list, revoke })
    }

    proof fn round_trip(&self, at: Seq<char>) {
        reveal(<DeleteChatHistory as Wire>::wire);
        reveal(<DeleteChatHistory as Wire>::parse);
        reveal_strlit("@type");
        reveal_strlit("chatId");
        reveal_strlit("removeFromChatList");
        reveal_strlit("revoke");
        assert("@type"@.len() == 5);
        assert("chatId"@.len() == 6 && "chatId"@[0] == 'c');
        assert("removeFromChatList"@.len() == 18);
        assert("revoke"@.len() == 6 && "revoke"@[0] == 'r');
        self.chat_id.round_trip("chatId"@);
        self.remove_from_chat_list.round_trip("removeFromChatList"@);
        self.revoke.round_trip("revoke"@);
    }
}

impl Tagged for DeleteChatHistory {
    open spec fn known(tag: Seq<char>) -> bool {
        tag == "deleteChatHistory"@
    }

    fn knows(tag: &str) -> (r: bool) {
        same_text(tag, "deleteChatHistory")
    }

    proof fn tag_known(&self) {
        reveal(<DeleteChatHistory as Wire>::wire);
        assert(tag_of(self.wire()) == Some("deleteChatHistory"@));
        assert(Self::known("deleteChatHistory"@));
    }
}

impl Method for DeleteChatHistory {
    const TYPE: &'static str = "deleteChatHistory";

    type Response = Okay;

    proof fn type_is_tag(&self) {
        reveal(<DeleteChatHistory as Wire>::wire);
        assert(tag_of(self.wire()) == Some("deleteChatHistory"@));
    }
}

/// Searches for messages with given words in the chat. Returns the results in reverse chronological
/// order, i.e. in order of decreasing message_id. Cannot be used in secret chats with a non-empty
/// query (searchSecretMessages should be used instead), or without an enabled message database. For
/// optimal performance the number of returned messages is chosen by the library
#[derive(Debug, Clone)]
pub struct SearchChatMessages {
    /// Identifier of the chat in which to search messages
    pub chat_id: i64,
    /// Query to search for
    pub query: String,
    /// If not 0, only messages sent by the specified user will be returned. Not supported in secret
    /// chats
    pub sender_user_id: i32,
    /// Identifier of the message starting from which history must be fetched; use 0 to get results
    /// from the last message
    pub from_message_id: i64,
    /// Specify 0 to get results from exactly the from_message_id or a negative offset to get the
    /// specified message and some newer messages
    pub offset: i32,
    /// The maximum number of messages to be returned; must be positive and can't be greater than
    /// 100. If the offset is negative, the limit must be greater than -offset. Fewer messages may
    /// be returned than specified by the limit, even if the end of the message history has not been
    /// reached
    pub limit: i32,
    /// Filter for message content in the search results
    pub filter: SearchMessagesFilter,
}

impl Wire for SearchChatMessages {
    #[verifier::opaque]
    open spec fn wire(&self) -> Doc {
        tagged(
            Map::empty()
                .insert("chatId"@, self.chat_id.wire())
                .insert("query"@, self.query.wire())
                .insert("senderUserId"@, self.sender_user_id.wire())
                .insert("fromMessageId"@, self.from_message_id.wire())
                .insert("offset"@, self.offset.wire())
                .insert("limit"@, self.limit.wire())
                .insert("filter"@, self.filter.wire()),
            "searchChatMessages"@,
        )
    }

    #[verifier::opaque]
    open spec fn parse(d: Doc, at: Seq<char>) -> Result<Doc, Fault> {
        match d {
            Doc::Object(m) => {
                let chat_id = field::<i64>(m, "chatId"@);
                let query = field::<String>(m, "query"@);
                let sender_user_id = field::<i32>(m, "senderUserId"@);
                let from_message_id = field::<i64>(m, "fromMessageId"@);
                let offset = field::<i32>(m, "offset"@);
                let limit = field::<i32>(m, "limit"@);
                let filter = field::<SearchMessagesFilter>(m, "filter"@);
                if chat_id is Err {
                    chat_id
                } else if query is Err {
                    query
                } else if sender_user_id is Err {
                    sender_user_id
                } else if from_message_id is Err {
                    from_message_id
                } else if offset is Err {
                    offset
                } else if limit is Err {
                    limit
                } else if filter is Err {
                    filter
                } else {
                    Ok(
                        tagged(
                            Map::empty()
                                .insert("chatId"@, chat_id->Ok_0)
                                .insert("query"@, query->Ok_0)
                                .insert("senderUserId"@, sender_user_id->Ok_0)
                                .insert("fromMessageId"@, from_message_id->Ok_0)
                                .insert("offset"@, offset->Ok_0)
                                .insert("limit"@, limit->Ok_0)
                                .insert("filter"@, filter->Ok_0),
                            "searchChatMessages"@,
                        ),
                    )
                }
            },
            _ => Err(Fault::TypeMismatch(at)),
        }
    }

    fn encode(&self) -> (j: Json) {
        proof {
            reveal(<SearchChatMessages as Wire>::wire);
        }
        let mut members: Vec<Member> = Vec::new();
        put(&mut members, "chatId", self.chat_id.encode());
        put(&mut members, "query", self.query.encode());
        put(&mut members, "senderUserId", self.sender_user_id.encode());
        put(&mut members, "fromMessageId", self.from_message_id.encode());
        put(&mut members, "offset", self.offset.encode());
        put(&mut members, "limit", self.limit.encode());
        put(&mut members, "filter", self.filter.encode());
        seal(members, "searchChatMessages")
    }

    fn decode(j: &Json, at: &str) -> (r: Result<Self, DecodeError>) {
        proof {
            reveal(<SearchChatMessages as Wire>::wire);
            reveal(<SearchChatMessages as Wire>::parse);
        }
        let members = members_of(j, at)?;
        let chat_id = read_field::<i64>(members, "chatId")?;
        let query = read_field::<String>(members, "query")?;
        let sender_user_id = read_field::<i32>(members, "senderUserId")?;
        let from_message_id = read_field::<i64>(members, "fromMessageId")?;
        let offset = read_field::<i32>(members, "offset")?;
        let limit = read_field::<i32>(members, "limit")?;
        let filter = read_field::<SearchMessagesFilter>(members, "filter")?;
        Ok(SearchChatMessages {
            chat_id,
            query,
            sender_user_id,
            from_message_id,
            offset,
            limit,
            filter,
        })
    }

    proof fn round_trip(&self, at: Seq<char>) {
        reveal(<SearchChatMessages as Wire>::wire);
        reveal(<SearchChatMessages as Wire>::parse);
        reveal_strlit("@type");
        reveal_strlit("chatId");
        reveal_strlit("filter");
        reveal_strlit("fromMessageId");
        reveal_strlit("limit");
        reveal_strlit("offset");
        reveal_strlit("query");
        reveal_strlit("senderUserId");
        assert("@type"@.len() == 5 && "@type"@[0] == '@');
        assert("chatId"@.len() == 6 && "chatId"@[0] == 'c');
        assert("filter"@.len() == 6 && "filter"@[0] == 'f');
        assert("fromMessageId"@.len() == 13);
        assert("limit"@.len() == 5 && "limit"@[0] == 'l');
        assert("offset"@.len() == 6 && "offset"@[0] == 'o');
        assert("query"@.len() == 5 && "query"@[0] == 'q');
        assert("senderUserId"@.len() == 12);
        self.chat_id.round_trip("chatId"@);
        self.query.round_trip("query"@);
        self.sender_user_id.round_trip("senderUserId"@);
        self.from_message_id.round_trip("fromMessageId"@);
        self.offset.round_trip("offset"@);
        self.limit.round_trip("limit"@);
        self.filter.round_trip("filter"@);
    }
}

impl Tagged for SearchChatMessages {
    open spec fn known(tag: Seq<char>) -> bool {
        tag == "searchChatMessages"@
    }

    fn knows(tag: &str) -> (r: bool) {
        same_text(tag, "searchChatMessages")
    }

    proof fn tag_known(&self) {
        reveal(<SearchChatMessages as Wire>::wire);
        assert(tag_of(self.wire()) == Some("searchChatMessages"@));
        assert(Self::known("searchChatMessages"@));
    }
}

impl Method for SearchChatMessages {
    const TYPE: &'static str = "searchChatMessages";

    type Response = Messages;

    proof fn type_is_tag(&self) {
        reveal(<SearchChatMessages as Wire>::wire);
        assert(tag_of(self.wire()) == Some("searchChatMessages"@));
    }
}

/// Searches for messages in all chats except secret chats. Returns the results in reverse
/// chronological order (i.e., in order of decreasing (date, chat_id, message_id)). For optimal
/// performance the number of returned messages is chosen by the library
#[derive(Debug, Clone)]
pub struct SearchMessages {
    /// Chat list in which to search messages; pass null to search in all chats regardless of their
    /// chat list
    pub chat_list: ChatList,
    /// Query to search for
    pub query: String,
    /// The date of the message starting from which the results should be fetched. Use 0 or any date
    /// in the future to get results from the last message
    pub offset_date: i32,
    /// The chat identifier of the last found message, or 0 for the first request
    pub offset_chat_id: i64,
    /// The message identifier of the last found message, or 0 for the first request
    pub offset_message_id: i64,
    /// The maximum number of messages to be returned, up to 100. Fewer messages may be returned
    /// than specified by the limit, even if the end of the message history has not been reached
    pub limit: i32,
}

impl Wire for SearchMessages {
    #[verifier::opaque]
    open spec fn wire(&self) -> Doc {
        tagged(
            Map::empty()
                .insert("chatList"@, self.chat_list.wire())
                .insert("query"@, self.query.wire())
                .insert("offsetDate"@, self.offset_date.wire())
                .insert("offsetChatId"@, self.offset_chat_id.wire())
                .insert("offsetMessageId"@, self.offset_message_id.wire())
                .insert("limit"@, self.limit.wire()),
            "searchMessages"@,
        )
    }

    #[verifier::opaque]
    open spec fn parse(d: Doc, at: Seq<char>) -> Result<Doc, Fault> {
        match d {
            Doc::Object(m) => {
                let chat_list = field::<ChatList>(m, "chatList"@);
                let query = field::<String>(m, "query"@);
                let offset_date = field::<i32>(m, "offsetDate"@);
                let offset_chat_id = field::<i64>(m, "offsetChatId"@);
                let offset_message_id = field::<i64>(m, "offsetMessageId"@);
                let limit = field::<i32>(m, "limit"@);
                if chat_list is Err {
                    chat_list
                } else if query is Err {
                    query
                } else if offset_date is Err {
                    offset_date
                } else if offset_chat_id is Err {
                    offset_chat_id
                } else if offset_message_id is Err {
                    offset_message_id
                } else if limit is Err {
                    limit
                } else {
                    Ok(
                        tagged(
                            Map::empty()
                                .insert("chatList"@, chat_list->Ok_0)
                                .insert("query"@, query->Ok_0)
                                .insert("offsetDate"@, offset_date->Ok_0)
                                .insert("offsetChatId"@, offset_chat_id->Ok_0)
                                .insert("offsetMessageId"@, offset_message_id->Ok_0)
                                .insert("limit"@, limit->Ok_0),
                            "searchMessages"@,
                        ),
                    )
                }
            },
            _ => Err(Fault::TypeMismatch(at)),
        }
    }

    fn encode(&self) -> (j: Json) {
        proof {
            reveal(<SearchMessages as Wire>::wire);
        }
        let mut members: Vec<Member> = Vec::new();
        put(&mut members, "chatList", self.chat_list.encode());
        put(&mut members, "query", self.query.encode());
        put(&mut members, "offsetDate", self.offset_date.encode());
        put(&mut members, "offsetChatId", self.offset_chat_id.encode());
        put(&mut members, "offsetMessageId", self.offset_message_id.encode());
        put(&mut members, "limit", self.limit.encode());
        seal(members, "searchMessages")
    }

    fn decode(j: &Json, at: &str) -> (r: Result<Self, DecodeError>) {
        proof {
            reveal(<SearchMessages as Wire>::wire);
            reveal(<SearchMessages as Wire>::parse);
        }
        let members = members_of(j, at)?;
        let chat_list = read_field::<ChatList>(members, "chatList")?;
        let query = read_field::<String>(members, "query")?;
        let offset_date = read_field::<i32>(members, "offsetDate")?;
        let offset_chat_id = read_field::<i64>(members, "offsetChatId")?;
        let offset_message_id = read_field::<i64>(members, "offsetMessageId")?;
        let limit = read_field::<i32>(members, "limit")?;
        Ok(SearchMessages {
            chat_list,
            query,
            offset_date,
            offset_chat_id,
            offset_message_id,
            limit,
        })
    }

    proof fn round_trip(&self, at: Seq<char>) {
        reveal(<SearchMessages as Wire>::wire);
        reveal(<SearchMessages as Wire>::parse);
        reveal_strlit("@type");
        reveal_strlit("chatList");
        reveal_strlit("limit");
        reveal_strlit("offsetChatId");
        reveal_strlit("offsetDate");
        reveal_strlit("offsetMessageId");
        reveal_strlit("query");
        assert("@type"@.len() == 5 && "@type"@[0] == '@');
        assert("chatList"@.len() == 8);
        assert("limit"@.len() == 5 && "limit"@[0] == 'l');
        assert("offsetChatId"@.len() == 12);
        assert("offsetDate"@.len() == 10);
        assert("offsetMessageId"@.len() == 15);
        assert("query"@.len() == 5 && "query"@[0] == 'q');
        self.chat_list.round_trip("chatList"@);
        self.query.round_trip("query"@);
        self.offset_date.round_trip("offsetDate"@);
        self.offset_chat_id.round_trip("offsetChatId"@);
        self.offset_message_id.round_trip("offsetMessageId"@);
        self.limit.round_trip("limit"@);
    }
}

impl Tagged for SearchMessages {
    open spec fn known(tag: Seq<char>) -> bool {
        tag == "searchMessages"@
    }

    fn knows(tag: &str) -> (r: bool) {
        same_text(tag, "searchMessages")
    }

    proof fn tag_known(&self) {
        reveal(<SearchMessages as Wire>::wire);
        assert(tag_of(self.wire()) == Some("searchMessages"@));
        assert(Self::known("searchMessages"@));
    }
}

impl Method for SearchMessages {
    const TYPE: &'static str = "searchMessages";

    type Response = Messages;

    proof fn type_is_tag(&self) {
        reveal(<SearchMessages as Wire>::wire);
        assert(tag_of(self.wire()) == Some("searchMessages"@));
    }
}

/// Searches for messages in secret chats. Returns the results in reverse chronological order. For
/// optimal performance the number of returned messages is chosen by the library
#[derive(Debug, Clone)]
pub struct SearchSecretMessages {
    /// Identifier of the chat in which to search. Specify 0 to search in all secret chats
    pub chat_id: i64,
    /// Query to search for. If empty, searchChatMessages should be used instead
    pub query: String,
    /// The identifier from the result of a previous request, use 0 to get results from the last
    /// message
    pub from_search_id: i64,
    /// The maximum number of messages to be returned; up to 100. Fewer messages may be returned
    /// than specified by the limit, even if the end of the message history has not been reached
    pub limit: i32,
    /// A filter for the content of messages in the search results
    pub filter: SearchMessagesFilter,
}

impl Wire for SearchSecretMessages {
    #[verifier::opaque]
    open spec fn wire(&self) -> Doc {
        tagged(
            Map::empty()
                .insert("chatId"@, self.chat_id.wire())
                .insert("query"@, self.query.wire())
                .insert("fromSearchId"@, wide_doc(self.from_search_id))
                .insert("limit"@, self.limit.wire())
                .insert("filter"@, self.filter.wire()),
            "searchSecretMessages"@,
        )
    }

    #[verifier::opaque]
    open spec fn parse(d: Doc, at: Seq<char>) -> Result<Doc, Fault> {
        match d {
            Doc::Object(m) => {
                let chat_id = field::<i64>(m, "chatId"@);
                let query = field::<String>(m, "query"@);
                let from_search_id = wide_field(m, "fromSearchId"@);
                let limit = field::<i32>(m, "limit"@);
                let filter = field::<SearchMessagesFilter>(m, "filter"@);
                if chat_id is Err {
                    chat_id
                } else if query is Err {
                    query
                } else if from_search_id is Err {
                    from_search_id
                } else if limit is Err {
                    limit
                } else if filter is Err {
                    filter
                } else {
                    Ok(
                        tagged(
                            Map::empty()
                                .insert("chatId"@, chat_id->Ok_0)
                                .insert("query"@, query->Ok_0)
                                .insert("fromSearchId"@, from_search_id->Ok_0)
                                .insert("limit"@, limit->Ok_0)
                                .insert("filter"@, filter->Ok_0),
                            "searchSecretMessages"@,
                        ),
                    )
                }
            },
            _ => Err(Fault::TypeMismatch(at)),
        }
    }

    fn encode(&self) -> (j: Json) {
        proof {
            reveal(<SearchSecretMessages as Wire>::wire);
        }
        let mut members: Vec<Member> = Vec::new();
        put(&mut members, "chatId", self.chat_id.encode());
        put(&mut members, "query", self.query.encode());
        put(&mut members, "fromSearchId", encode_wide(self.from_search_id));
        put(&mut members, "limit", self.limit.encode());
        put(&mut members, "filter", self.filter.encode());
        seal(members, "searchSecretMessages")
    }

    fn decode(j: &Json, at: &str) -> (r: Result<Self, DecodeError>) {
        proof {
            reveal(<SearchSecretMessages as Wire>::wire);
            reveal(<SearchSecretMessages as Wire>::parse);
        }
        let members = members_of(j, at)?;
        let chat_id = read_field::<i64>(members, "chatId")?;
        let query = read_field::<String>(members, "query")?;
        let from_search_id = read_wide(members, "fromSearchId")?;
        let limit = read_field::<i32>(members, "limit")?;
        let filter = read_field::<SearchMessagesFilter>(members, "filter")?;
        Ok(SearchSecretMessages { chat_id, query, from_search_id, limit, filter })
    }

    proof fn round_trip(&self, at: Seq<char>) {
        reveal(<SearchSecretMessages as Wire>::wire);
        reveal(<SearchSecretMessages as Wire>::parse);
        reveal_strlit("@type");
        reveal_strlit("chatId");
        reveal_strlit("filter");
        reveal_strlit("fromSearchId");
        reveal_strlit("limit");
        reveal_strlit("query");
        assert("@type"@.len() == 5 && "@type"@[0] == '@');
        assert("chatId"@.len() == 6 && "chatId"@[0] == 'c');
        assert("filter"@.len() == 6 && "filter"@[0] == 'f');
        assert("fromSearchId"@.len() == 12);
        assert("limit"@.len() == 5 && "limit"@[0] == 'l');
        assert("query"@.len() == 5 && "query"@[0] == 'q');
        self.chat_id.round_trip("chatId"@);
        self.query.round_trip("query"@);
        lemma_wide_round_trip(self.from_search_id, "fromSearchId"@);
        self.limit.round_trip("limit"@);
        self.filter.round_trip("filter"@);
    }
}

impl Tagged for SearchSecretMessages {
    open spec fn known(tag: Seq<char>) -> bool {
        tag == "searchSecretMessages"@
    }

    fn knows(tag: &str) -> (r: bool) {
        same_text(tag, "searchSecretMessages")
    }

    proof fn tag_known(&self) {
        reveal(<SearchSecretMessages as Wire>::wire);
        assert(tag_of(self.wire()) == Some("searchSecretMessages"@));
        assert(Self::known("searchSecretMessages"@));
    }
}

impl Method for SearchSecretMessages {
    const TYPE: &'static str = "searchSecretMessages";

    type Response = FoundMessages;

    proof fn type_is_tag(&self) {
        reveal(<SearchSecretMessages as Wire>::wire);
        assert(tag_of(self.wire()) == Some("searchSecretMessages"@));
    }
}

/// Searches for call messages. Returns the results in reverse chronological order (i. e., in order
/// of decreasing message_id). For optimal performance the number of returned messages is chosen by
/// the library
#[derive(Debug, Clone)]
pub struct SearchCallMessages {
    /// Identifier of the message from which to search; use 0 to get results from the last message
    pub from_message_id: i64,
    /// The maximum number of messages to be returned; up to 100. Fewer messages may be returned
    /// than specified by the limit, even if the end of the message history has not been reached
    pub limit: i32,
    /// If true, returns only messages with missed calls
    pub only_missed: bool,
}

impl Wire for SearchCallMessages {
    #[verifier::opaque]
    open spec fn wire(&self) -> Doc {
        tagged(
            Map::empty()
                .insert("fromMessageId"@, self.from_message_id.wire())
                .insert("limit"@, self.limit.wire())
                .insert("onlyMissed"@, self.only_missed.wire()),
            "searchCallMessages"@,
        )
    }

    #[verifier::opaque]
    open spec fn parse(d: Doc, at: Seq<char>) -> Result<Doc, Fault> {
        match d {
            Doc::Object(m) => {
                let from_message_id = field::<i64>(m, "fromMessageId"@);
                let limit = field::<i32>(m, "limit"@);
                let only_missed = field::<bool>(m, "onlyMissed"@);
                if from_message_id is Err {
                    from_message_id
                } else if limit is Err {
                    limit
                } else if only_missed is Err {
                    only_missed
                } else {
                    Ok(
                        tagged(
                            Map::empty()
                                .insert("fromMessageId"@, from_message_id->Ok_0)
                                .insert("limit"@, limit->Ok_0)
                                .insert("onlyMissed"@, only_missed->Ok_0),
                            "searchCallMessages"@,
                        ),
                    )
                }
            },
            _ => Err(Fault::TypeMismatch(at)),
        }
    }

    fn encode(&self) -> (j: Json) {
        proof {
            reveal(<SearchCallMessages as Wire>::wire);
        }
        let mut members: Vec<Member> = Vec::new();
        put(&mut members, "fromMessageId", self.from_message_id.encode());
        put(&mut members, "limit", self.limit.encode());
        put(&mut members, "onlyMissed", self.only_missed.encode());
        seal(members, "searchCallMessages")
    }

    fn decode(j: &Json, at: &str) -> (r: Result<Self, DecodeError>) {
        proof {
            reveal(<SearchCallMessages as Wire>::wire);
            reveal(<SearchCallMessages as Wire>::parse);
        }
        let members = members_of(j, at)?;
        let from_message_id = read_field::<i64>(members, "fromMessageId")?;
        let limit = read_field::<i32>(members, "limit")?;
        let only_missed = read_field::<bool>(members, "onlyMissed")?;
        Ok(SearchCallMessages { from_message_id, limit, only_missed })
    }

    proof fn round_trip(&self, at: Seq<char>) {
        reveal(<SearchCallMessages as Wire>::wire);
        reveal(<SearchCallMessages as Wire>::parse);
        reveal_strlit("@type");
        reveal_strlit("fromMessageId");
        reveal_strlit("limit");
        reveal_strlit("onlyMissed");
        assert("@type"@.len() == 5 && "@type"@[0] == '@');
        assert("fromMessageId"@.len() == 13);
        assert("limit"@.len() == 5 && "limit"@[0] == 'l');
        assert("onlyMissed"@.len() == 10);
        self.from_message_id.round_trip("fromMessageId"@);
        self.limit.round_trip("limit"@);
        self.only_missed.round_trip("onlyMissed"@);
    }
}

impl Tagged for SearchCallMessages {
    open spec fn known(tag: Seq<char>) -> bool {
        tag == "searchCallMessages"@
    }

    fn knows(tag: &str) -> (r: bool) {
        same_text(tag, "searchCallMessages")
    }

    proof fn tag_known(&self) {
        reveal(<SearchCallMessages as Wire>::wire);
        assert(tag_of(self.wire()) == Some("searchCallMessages"@));
        assert(Self::known("searchCallMessages"@));
    }
}

impl Method for SearchCallMessages {
    const TYPE: &'static str = "searchCallMessages";

    type Response = Messages;

    proof fn type_is_tag(&self) {
        reveal(<SearchCallMessages as Wire>::wire);
        assert(tag_of(self.wire()) == Some("searchCallMessages"@));
    }
}

/// Returns information about the recent locations of chat members that were sent to the chat.
/// Returns up to 1 location message per user
#[derive(Debug, Clone)]
pub struct SearchChatRecentLocationMessages {
    /// Chat identifier
    pub chat_id: i64,
    /// The maximum number of messages to be returned
    pub limit: i32,
}

impl Wire for SearchChatRecentLocationMessages {
    #[verifier::opaque]
    open spec fn wire(&self) -> Doc {
        tagged(
            Map::empty()
                .insert("chatId"@, self.chat_id.wire())
                .insert("limit"@, self.limit.wire()),
            "searchChatRecentLocationMessages"@,
        )
    }

    #[verifier::opaque]
    open spec fn parse(d: Doc, at: Seq<char>) -> Result<Doc, Fault> {
        match d {
            Doc::Object(m) => {
                let chat_id = field::<i64>(m, "chatId"@);
                let limit = field::<i32>(m, "limit"@);
                if chat_id is Err {
                    chat_id
                } else if limit is Err {
                    limit
                } else {
                    Ok(
                        tagged(
                            Map::empty()
                                .insert("chatId"@, chat_id->Ok_0)
                                .insert("limit"@, limit->Ok_0),
                            "searchChatRecentLocationMessages"@,
                        ),
                    )
                }
            },
            _ => Err(Fault::TypeMismatch(at)),
        }
    }

    fn encode(&self) -> (j: Json) {
        proof {
            reveal(<SearchChatRecentLocationMessages as Wire>::wire);
        }
        let mut members: Vec<Member> = Vec::new();
        put(&mut members, "chatId", self.chat_id.encode());
        put(&mut members, "limit", self.limit.encode());
        seal(members, "searchChatRecentLocationMessages")
    }

    fn decode(j: &Json, at: &str) -> (r: Result<Self, DecodeError>) {
        proof {
            reveal(<SearchChatRecentLocationMessages as Wire>::wire);
            reveal(<SearchChatRecentLocationMessages as Wire>::parse);
        }
        let members = members_of(j, at)?;
        let chat_id = read_field::<i64>(members, "chatId")?;
        let limit = read_field::<i32>(members, "limit")?;
        Ok(SearchChatRecentLocationMessages { chat_id, limit })
    }

    proof fn round_trip(&self, at: Seq<char>) {
        reveal(<SearchChatRecentLocationMessages as Wire>::wire);
        reveal(<SearchChatRecentLocationMessages as Wire>::parse);
        reveal_strlit("@type");
        reveal_strlit("chatId");
        reveal_strlit("limit");
        assert("@type"@.len() == 5 && "@type"@[0] == '@');
        assert("chatId"@.len() == 6);
        assert("limit"@.len() == 5 && "limit"@[0] == 'l');
        self.chat_id.round_trip("chatId"@);
        self.limit.round_trip("limit"@);
    }
}

impl Tagged for SearchChatRecentLocationMessages {
    open spec fn known(tag: Seq<char>) -> bool {
        tag == "searchChatRecentLocationMessages"@
    }

    fn knows(tag: &str) -> (r: bool) {
        same_text(tag, "searchChatRecentLocationMessages")
    }

    proof fn tag_known(&self) {
        reveal(<SearchChatRecentLocationMessages as Wire>::wire);
        assert(tag_of(self.wire()) == Some("searchChatRecentLocationMessages"@));
        assert(Self::known("searchChatRecentLocationMessages"@));
    }
}

impl Method for SearchChatRecentLocationMessages {
    const TYPE: &'static str = "searchChatRecentLocationMessages";

    type Response = Messages;

    proof fn type_is_tag(&self) {
        reveal(<SearchChatRecentLocationMessages as Wire>::wire);
        assert(tag_of(self.wire()) == Some("searchChatRecentLocationMessages"@));
    }
}

/// Returns all active live locations that should be updated by the client. The list is persistent
/// across application restarts only if the message database is used
#[derive(Debug, Clone)]
pub struct GetActiveLiveLocationMessages {}

impl Wire for GetActiveLiveLocationMessages {
    #[verifier::opaque]
    open spec fn wire(&self) -> Doc {
        tagged(Map::empty(), "getActiveLiveLocationMessages"@)
    }

    #[verifier::opaque]
    open spec fn parse(d: Doc, at: Seq<char>) -> Result<Doc, Fault> {
        match d {
            Doc::Object(_) => Ok(tagged(Map::empty(), "getActiveLiveLocationMessages"@)),
            _ => Err(Fault::TypeMismatch(at)),
        }
    }

    fn encode(&self) -> (j: Json) {
        proof {
            reveal(<GetActiveLiveLocationMessages as Wire>::wire);
        }
        seal(Vec::new(), "getActiveLiveLocationMessages")
    }

    fn decode(j: &Json, at: &str) -> (r: Result<Self, DecodeError>) {
        proof {
            reveal(<GetActiveLiveLocationMessages as Wire>::wire);
            reveal(<GetActiveLiveLocationMessages as Wire>::parse);
        }
        let _ = members_of(j, at)?;
        Ok(GetActiveLiveLocationMessages {})
    }

    proof fn round_trip(&self, at: Seq<char>) {
        reveal(<GetActiveLiveLocationMessages as Wire>::wire);
        reveal(<GetActiveLiveLocationMessages as Wire>::parse);
    }
}

impl Tagged for GetActiveLiveLocationMessages {
    open spec fn known(tag: Seq<char>) -> bool {
        tag == "getActiveLiveLocationMessages"@
    }

    fn knows(tag: &str) -> (r: bool) {
        same_text(tag, "getActiveLiveLocationMessages")
    }

    proof fn tag_known(&self) {
        reveal(<GetActiveLiveLocationMessages as Wire>::wire);
        assert(tag_of(self.wire()) == Some("getActiveLiveLocationMessages"@));
        assert(Self::known("getActiveLiveLocationMessages"@));
    }
}

impl Method for GetActiveLiveLocationMessages {
    const TYPE: &'static str = "getActiveLiveLocationMessages";

    type Response = Messages;

    proof fn type_is_tag(&self) {
        reveal(<GetActiveLiveLocationMessages as Wire>::wire);
        assert(tag_of(self.wire()) == Some("getActiveLiveLocationMessages"@));
    }
}

/// Returns the last message sent in a chat no later than the specified date
#[derive(Debug, Clone)]
pub struct GetChatMessageByDate {
    /// Chat identifier
    pub chat_id: i64,
    /// Point in time (Unix timestamp) relative to which to search for messages
    pub date: i32,
}

impl Wire for GetChatMessageByDate {
    #[verifier::opaque]
    open spec fn wire(&self) -> Doc {
        tagged(
            Map::empty()
                .insert("chatId"@, self.chat_id.wire())
                .insert("date"@, self.date.wire()),
            "getChatMessageByDate"@,
        )
    }

    #[verifier::opaque]
    open spec fn parse(d: Doc, at: Seq<char>) -> Result<Doc, Fault> {
        match d {
            Doc::Object(m) => {
                let chat_id = field::<i64>(m, "chatId"@);
                let date = field::<i32>(m, "date"@);
                if chat_id is Err {
                    chat_id
                } else if date is Err {
                    date
                } else {
                    Ok(
                        tagged(
                            Map::empty()
                                .insert("chatId"@, chat_id->Ok_0)
                                .insert("date"@, date->Ok_0),
                            "getChatMessageByDate"@,
                        ),
                    )
                }
            },
            _ => Err(Fault::TypeMismatch(at)),
        }
    }

    fn encode(&self) -> (j: Json) {
        proof {
            reveal(<GetChatMessageByDate as Wire>::wire);
        }
        let mut members: Vec<Member> = Vec::new();
        put(&mut members, "chatId", self.chat_id.encode());
        put(&mut members, "date", self.date.encode());
        seal(members, "getChatMessageByDate")
    }

    fn decode(j: &Json, at: &str) -> (r: Result<Self, DecodeError>) {
        proof {
            reveal(<GetChatMessageByDate as Wire>::wire);
            reveal(<GetChatMessageByDate as Wire>::parse);
        }
        let members = members_of(j, at)?;
        let chat_id = read_field::<i64>(members, "chatId")?;
        let date = read_field::<i32>(members, "date")?;
        Ok(GetChatMessageByDate { chat_id, date })
    }

    proof fn round_trip(&self, at: Seq<char>) {
        reveal(<GetChatMessageByDate as Wire>::wire);
        reveal(<GetChatMessageByDate as Wire>::parse);
        reveal_strlit("@type");
        reveal_strlit("chatId");
        reveal_strlit("date");
        assert("@type"@.len() == 5);
        assert("chatId"@.len() == 6);
        assert("date"@.len() == 4);
        self.chat_id.round_trip("chatId"@);
        self.date.round_trip("date"@);
    }
}

impl Tagged for GetChatMessageByDate {
    open spec fn known(tag: Seq<char>) -> bool {
        tag == "getChatMessageByDate"@
    }

    fn knows(tag: &str) -> (r: bool) {
        same_text(tag, "getChatMessageByDate")
    }

    proof fn tag_known(&self) {
        reveal(<GetChatMessageByDate as Wire>::wire);
        assert(tag_of(self.wire()) == Some("getChatMessageByDate"@));
        assert(Self::known("getChatMessageByDate"@));
    }
}

impl Method for GetChatMessageByDate {
    const TYPE: &'static str = "getChatMessageByDate";

    type Response = Message;

    proof fn type_is_tag(&self) {
        reveal(<GetChatMessageByDate as Wire>::wire);
        assert(tag_of(self.wire()) == Some("getChatMessageByDate"@));
    }
}

/// Returns approximate number of messages of the specified type in the chat
#[derive(Debug, Clone)]
pub struct GetChatMessageCount {
    /// Identifier of the chat in which to count messages
    pub chat_id: i64,
    /// Filter for message content; searchMessagesFilterEmpty is unsupported in this function
    pub filter: SearchMessagesFilter,
    /// If true, returns count that is available locally without sending network requests, returning
    /// -1 if the number of messages is unknown
    pub return_local: bool,
}

impl Wire for GetChatMessageCount {
    #[verifier::opaque]
    open spec fn wire(&self) -> Doc {
        tagged(
            Map::empty()
                .insert("chatId"@, self.chat_id.wire())
                .insert("filter"@, self.filter.wire())
                .insert("returnLocal"@, self.return_local.wire()),
            "getChatMessageCount"@,
        )
    }

    #[verifier::opaque]
    open spec fn parse(d: Doc, at: Seq<char>) -> Result<Doc, Fault> {
        match d {
            Doc::Object(m) => {
                let chat_id = field::<i64>(m, "chatId"@);
                let filter = field::<SearchMessagesFilter>(m, "filter"@);
                let return_local = field::<bool>(m, "returnLocal"@);
                if chat_id is Err {
                    chat_id
                } else if filter is Err {
                    filter
                } else if return_local is Err {
                    return_local
                } else {
                    Ok(
                        tagged(
                            Map::empty()
                                .insert("chatId"@, chat_id->Ok_0)
                                .insert("filter"@, filter->Ok_0)
                                .insert("returnLocal"@, return_local->Ok_0),
                            "getChatMessageCount"@,
                        ),
                    )
                }
            },
            _ => Err(Fault::TypeMismatch(at)),
        }
    }

    fn encode(&self) -> (j: Json) {
        proof {
            reveal(<GetChatMessageCount as Wire>::wire);
        }
        let mut members: Vec<Member> = Vec::new();
        put(&mut members, "chatId", self.chat_id.encode());
        put(&mut members, "filter", self.filter.encode());
        put(&mut members, "returnLocal", self.return_local.encode());
        seal(members, "getChatMessageCount")
    }

    fn decode(j: &Json, at: &str) -> (r: Result<Self, DecodeError>) {
        proof {
            reveal(<GetChatMessageCount as Wire>::wire);
            reveal(<GetChatMessageCount as Wire>::parse);
        }
        let members = members_of(j, at)?;
        let chat_id = read_field::<i64>(members, "chatId")?;
        let filter = read_field::<SearchMessagesFilter>(members, "filter")?;
        let return_local = read_field::<bool>(members, "returnLocal")?;
        Ok(GetChatMessageCount { chat_id, filter, return_local })
    }

    proof fn round_trip(&self, at: Seq<char>) {
        reveal(<GetChatMessageCount as Wire>::wire);
        reveal(<GetChatMessageCount as Wire>::parse);
        reveal_strlit("@type");
        reveal_strlit("chatId");
        reveal_strlit("filter");
        reveal_strlit("returnLocal");
        assert("@type"@.len() == 5);
        assert("chatId"@.len() == 6 && "chatId"@[0] == 'c');
        assert("filter"@.len() == 6 && "filter"@[0] == 'f');
        assert("returnLocal"@.len() == 11);
        self.chat_id.round_trip("chatId"@);
        self.filter.round_trip("filter"@);
        self.return_local.round_trip("returnLocal"@);
    }
}

impl Tagged for GetChatMessageCount {
    open spec fn known(tag: Seq<char>) -> bool {
        tag == "getChatMessageCount"@
    }

    fn knows(tag: &str) -> (r: bool) {
        same_text(tag, "getChatMessageCount")
    }

    proof fn tag_known(&self) {
        reveal(<GetChatMessageCount as Wire>::wire);
        assert(tag_of(self.wire()) == Some("getChatMessageCount"@));
        assert(Self::known("getChatMessageCount"@));
    }
}

impl Method for GetChatMessageCount {
    const TYPE: &'static str = "getChatMessageCount";

    type Response = Count;

    proof fn type_is_tag(&self) {
        reveal(<GetChatMessageCount as Wire>::wire);
        assert(tag_of(self.wire()) == Some("getChatMessageCount"@));
    }
}

/// Returns all scheduled messages in a chat. The messages are returned in a reverse chronological
/// order (i.e., in order of decreasing message_id)
#[derive(Debug, Clone)]
pub struct GetChatScheduledMessages {
    /// Chat identifier
    pub chat_id: i64,
}

impl Wire for GetChatScheduledMessages {
    #[verifier::opaque]
    open spec fn wire(&self) -> Doc {
        tagged(
            Map::empty()
                .insert("chatId"@, self.chat_id.wire()),
            "getChatScheduledMessages"@,
        )
    }

    #[verifier::opaque]
    open spec fn parse(d: Doc, at: Seq<char>) -> Result<Doc, Fault> {
        match d {
            Doc::Object(m) => {
                let chat_id = field::<i64>(m, "chatId"@);
                if chat_id is Err {
                    chat_id
                } else {
                    Ok(
                        tagged(
                            Map::empty()
                                .insert("chatId"@, chat_id->Ok_0),
                            "getChatScheduledMessages"@,
                        ),
                    )
                }
            },
            _ => Err(Fault::TypeMismatch(at)),
        }
    }

    fn encode(&self) -> (j: Json) {
        proof {
            reveal(<GetChatScheduledMessages as Wire>::wire);
        }
        let mut members: Vec<Member> = Vec::new();
        put(&mut members, "chatId", self.chat_id.encode());
        seal(members, "getChatScheduledMessages")
    }

    fn decode(j: &Json, at: &str) -> (r: Result<Self, DecodeError>) {
        proof {
            reveal(<GetChatScheduledMessages as Wire>::wire);
            reveal(<GetChatScheduledMessages as Wire>::parse);
        }
        let members = members_of(j, at)?;
        let chat_id = read_field::<i64>(members, "chatId")?;
        Ok(GetChatScheduledMessages { chat_id })
    }

    proof fn round_trip(&self, at: Seq<char>) {
        reveal(<GetChatScheduledMessages as Wire>::wire);
        reveal(<GetChatScheduledMessages as Wire>::parse);
        reveal_strlit("@type");
        reveal_strlit("chatId");
        assert("@type"@.len() == 5);
        assert("chatId"@.len() == 6);
        self.chat_id.round_trip("chatId"@);
    }
}

impl Tagged for GetChatScheduledMessages {
    open spec fn known(tag: Seq<char>) -> bool {
        tag == "getChatScheduledMessages"@
    }

    fn knows(tag: &str) -> (r: bool) {
        same_text(tag, "getChatScheduledMessages")
    }

    proof fn tag_known(&self) {
        reveal(<GetChatScheduledMessages as Wire>::wire);
        assert(tag_of(self.wire()) == Some("getChatScheduledMessages"@));
        assert(Self::known("getChatScheduledMessages"@));
    }
}

impl Method for GetChatScheduledMessages {
    const TYPE: &'static str = "getChatScheduledMessages";

    type Response = Messages;

    proof fn type_is_tag(&self) {
        reveal(<GetChatScheduledMessages as Wire>::wire);
        assert(tag_of(self.wire()) == Some("getChatScheduledMessages"@));
    }
}

/// Removes an active notification from notification list. Needs to be called only if the
/// notification is removed by the current user
#[derive(Debug, Clone)]
pub struct RemoveNotification {
    /// Identifier of notification group to which the notification belongs
    pub notification_group_id: i32,
    /// Identifier of removed notification
    pub notification_id: i32,
}

impl Wire for RemoveNotification {
    #[verifier::opaque]
    open spec fn wire(&self) -> Doc {
        tagged(
            Map::empty()
                .insert("notificationGroupId"@, self.notification_group_id.wire())
                .insert("notificationId"@, self.notification_id.wire()),
            "removeNotification"@,
        )
    }

    #[verifier::opaque]
    open spec fn parse(d: Doc, at: Seq<char>) -> Result<Doc, Fault> {
        match d {
            Doc::Object(m) => {
                let notification_group_id = field::<i32>(m, "notificationGroupId"@);
                let notification_id = field::<i32>(m, "notificationId"@);
                if notification_group_id is Err {
                    notification_group_id
                } else if notification_id is Err {
                    notification_id
                } else {
                    Ok(
                        tagged(
                            Map::empty()
                                .insert("notificationGroupId"@, notification_group_id->Ok_0)
                                .insert("notificationId"@, notification_id->Ok_0),
                            "removeNotification"@,
                        ),
                    )
                }
            },
            _ => Err(Fault::TypeMismatch(at)),
        }
    }

    fn encode(&self) -> (j: Json) {
        proof {
            reveal(<RemoveNotification as Wire>::wire);
        }
        let mut members: Vec<Member> = Vec::new();
        put(&mut members, "notificationGroupId", self.notification_group_id.encode());
        put(&mut members, "notificationId", self.notification_id.encode());
        seal(members, "removeNotification")
    }

    fn decode(j: &Json, at: &str) -> (r: Result<Self, DecodeError>) {
        proof {
            reveal(<RemoveNotification as Wire>::wire);
            reveal(<RemoveNotification as Wire>::parse);
        }
        let members = members_of(j, at)?;
        let notification_group_id = read_field::<i32>(members, "notificationGroupId")?;
        let notification_id = read_field::<i32>(members, "notificationId")?;
        Ok(RemoveNotification { notification_group_id, notification_id })
    }

    proof fn round_trip(&self, at: Seq<char>) {
        reveal(<RemoveNotification as Wire>::wire);
        reveal(<RemoveNotification as Wire>::parse);
        reveal_strlit("@type");
        reveal_strlit("notificationGroupId");
        reveal_strlit("notificationId");
        assert("@type"@.len() == 5);
        assert("notificationGroupId"@.len() == 19);
        assert("notificationId"@.len() == 14);
        self.notification_group_id.round_trip("notificationGroupId"@);
        self.notification_id.round_trip("notificationId"@);
    }
}

impl Tagged for RemoveNotification {
    open spec fn known(tag: Seq<char>) -> bool {
        tag == "removeNotification"@
    }

    fn knows(tag: &str) -> (r: bool) {
        same_text(tag, "removeNotification")
    }

    proof fn tag_known(&self) {
        reveal(<RemoveNotification as Wire>::wire);
        assert(tag_of(self.wire()) == Some("removeNotification"@));
        assert(Self::known("removeNotification"@));
    }
}

impl Method for RemoveNotification {
    const TYPE: &'static str = "removeNotification";

    type Response = Okay;

    proof fn type_is_tag(&self) {
        reveal(<RemoveNotification as Wire>::wire);
        assert(tag_of(self.wire()) == Some("removeNotification"@));
    }
}

/// Removes a group of active notifications. Needs to be called only if the notification group is
/// removed by the current user
#[derive(Debug, Clone)]
pub struct RemoveNotificationGroup {
    /// Notification group identifier
    pub notification_group_id: i32,
    /// The maximum identifier of removed notifications
    pub max_notification_id: i32,
}

impl Wire for RemoveNotificationGroup {
    #[verifier::opaque]
    open spec fn wire(&self) -> Doc {
        tagged(
            Map::empty()
                .insert("notificationGroupId"@, self.notification_group_id.wire())
                .insert("maxNotificationId"@, self.max_notification_id.wire()),
            "removeNotificationGroup"@,
        )
    }

    #[verifier::opaque]
    open spec fn parse(d: Doc, at: Seq<char>) -> Result<Doc, Fault> {
        match d {
            Doc::Object(m) => {
                let notification_group_id = field::<i32>(m, "notificationGroupId"@);
                let max_notification_id = field::<i32>(m, "maxNotificationId"@);
                if notification_group_id is Err {
                    notification_group_id
                } else if max_notification_id is Err {
                    max_notification_id
                } else {
                    Ok(
                        tagged(
                            Map::empty()
                                .insert("notificationGroupId"@, notification_group_id->Ok_0)
                                .insert("maxNotificationId"@, max_notification_id->Ok_0),
                            "removeNotificationGroup"@,
                        ),
                    )
                }
            },
            _ => Err(Fault::TypeMismatch(at)),
        }
    }

    fn encode(&self) -> (j: Json) {
        proof {
            reveal(<RemoveNotificationGroup as Wire>::wire);
        }
        let mut members: Vec<Member> = Vec::new();
        put(&mut members, "notificationGroupId", self.notification_group_id.encode());
        put(&mut members, "maxNotificationId", self.max_notification_id.encode());
        seal(members, "removeNotificationGroup")
    }

    fn decode(j: &Json, at: &str) -> (r: Result<Self, DecodeError>) {
        proof {
            reveal(<RemoveNotificationGroup as Wire>::wire);
            reveal(<RemoveNotificationGroup as Wire>::parse);
        }
        let members = members_of(j, at)?;
        let notification_group_id = read_field::<i32>(members, "notificationGroupId")?;
        let max_notification_id = read_field::<i32>(members, "maxNotificationId")?;
        Ok(RemoveNotificationGroup { notification_group_id, max_notification_id })
    }

    proof fn round_trip(&self, at: Seq<char>) {
        reveal(<RemoveNotificationGroup as Wire>::wire);
        reveal(<RemoveNotificationGroup as Wire>::parse);
        reveal_strlit("@type");
        reveal_strlit("maxNotificationId");
        reveal_strlit("notificationGroupId");
        assert("@type"@.len() == 5);
        assert("maxNotificationId"@.len() == 17);
        assert("notificationGroupId"@.len() == 19);
        self.notification_group_id.round_trip("notificationGroupId"@);
        self.max_notification_id.round_trip("maxNotificationId"@);
    }
}

impl Tagged for RemoveNotificationGroup {
    open spec fn known(tag: Seq<char>) -> bool {
        tag == "removeNotificationGroup"@
    }

    fn knows(tag: &str) -> (r: bool) {
        same_text(tag, "removeNotificationGroup")
    }

    proof fn tag_known(&self) {
        reveal(<RemoveNotificationGroup as Wire>::wire);
        assert(tag_of(self.wire()) == Some("removeNotificationGroup"@));
        assert(Self::known("removeNotificationGroup"@));
    }
}

impl Method for RemoveNotificationGroup {
    const TYPE: &'static str = "removeNotificationGroup";

    type Response = Okay;

    proof fn type_is_tag(&self) {
        reveal(<RemoveNotificationGroup as Wire>::wire);
        assert(tag_of(self.wire()) == Some("removeNotificationGroup"@));
    }
}

/// Returns a public HTTPS link to a message. Available only for messages in supergroups and
/// channels with a username
#[derive(Debug, Clone)]
pub struct GetPublicMessageLink {
    /// Identifier of the chat to which the message belongs
    pub chat_id: i64,
    /// Identifier of the message
    pub message_id: i64,
    /// Pass true if a link for a whole media album should be returned
    pub for_album: bool,
}

impl Wire for GetPublicMessageLink {
    #[verifier::opaque]
    open spec fn wire(&self) -> Doc {
        tagged(
            Map::empty()
                .insert("chatId"@, self.chat_id.wire())
                .insert("messageId"@, self.message_id.wire())
                .insert("forAlbum"@, self.for_album.wire()),
            "getPublicMessageLink"@,
        )
    }

    #[verifier::opaque]
    open spec fn parse(d: Doc, at: Seq<char>) -> Result<Doc, Fault> {
        match d {
            Doc::Object(m) => {
                let chat_id = field::<i64>(m, "chatId"@);
                let message_id = field::<i64>(m, "messageId"@);
                let for_album = field::<bool>(m, "forAlbum"@);
                if chat_id is Err {
                    chat_id
                } else if message_id is Err {
                    message_id
                } else if for_album is Err {
                    for_album
                } else {
                    Ok(
                        tagged(
                            Map::empty()
                                .insert("chatId"@, chat_id->Ok_0)
                                .insert("messageId"@, message_id->Ok_0)
                                .insert("forAlbum"@, for_album->Ok_0),
                            "getPublicMessageLink"@,
                        ),
                    )
                }
            },
            _ => Err(Fault::TypeMismatch(at)),
        }
    }

    fn encode(&self) -> (j: Json) {
        proof {
            reveal(<GetPublicMessageLink as Wire>::wire);
        }
        let mut members: Vec<Member> = Vec::new();
        put(&mut members, "chatId", self.chat_id.encode());
        put(&mut members, "messageId", self.message_id.encode());
        put(&mut members, "forAlbum", self.for_album.encode());
        seal(members, "getPublicMessageLink")
    }

    fn decode(j: &Json, at: &str) -> (r: Result<Self, DecodeError>) {
        proof {
            reveal(<GetPublicMessageLink as Wire>::wire);
            reveal(<GetPublicMessageLink as Wire>::parse);
        }
        let members = members_of(j, at)?;
        let chat_id = read_field::<i64>(members, "chatId")?;
        let message_id = read_field::<i64>(members, "messageId")?;
        let for_album = read_field::<bool>(members, "forAlbum")?;
        Ok(GetPublicMessageLink { chat_id, message_id, for_album })
    }

    proof fn round_trip(&self, at: Seq<char>) {
        reveal(<GetPublicMessageLink as Wire>::wire);
        reveal(<GetPublicMessageLink as Wire>::parse);
        reveal_strlit("@type");
        reveal_strlit("chatId");
        reveal_strlit("forAlbum");
        reveal_strlit("messageId");
        assert("@type"@.len() == 5);
        assert("chatId"@.len() == 6);
        assert("forAlbum"@.len() == 8);
        assert("messageId"@.len() == 9);
        self.chat_id.round_trip("chatId"@);
        self.message_id.round_trip("messageId"@);
        self.for_album.round_trip("forAlbum"@);
    }
}

impl Tagged for GetPublicMessageLink {
    open spec fn known(tag: Seq<char>) -> bool {
        tag == "getPublicMessageLink"@
    }

    fn knows(tag: &str) -> (r: bool) {
        same_text(tag, "getPublicMessageLink")
    }

    proof fn tag_known(&self) {
        reveal(<GetPublicMessageLink as Wire>::wire);
        assert(tag_of(self.wire()) == Some("getPublicMessageLink"@));
        assert(Self::known("getPublicMessageLink"@));
    }
}

impl Method for GetPublicMessageLink {
    const TYPE: &'static str = "getPublicMessageLink";

    type Response = PublicMessageLink;

    proof fn type_is_tag(&self) {
        reveal(<GetPublicMessageLink as Wire>::wire);
        assert(tag_of(self.wire()) == Some("getPublicMessageLink"@));
    }
}

/// Returns a private HTTPS link to a message in a chat. Available only for already sent messages in
/// supergroups and channels. The link will work only for members of the chat
#[derive(Debug, Clone)]
pub struct GetMessageLink {
    /// Identifier of the chat to which the message belongs
    pub chat_id: i64,
    /// Identifier of the message
    pub message_id: i64,
}

impl Wire for GetMessageLink {
    #[verifier::opaque]
    open spec fn wire(&self) -> Doc {
        tagged(
            Map::empty()
                .insert("chatId"@, self.chat_id.wire())
                .insert("messageId"@, self.message_id.wire()),
            "getMessageLink"@,
        )
    }

    #[verifier::opaque]
    open spec fn parse(d: Doc, at: Seq<char>) -> Result<Doc, Fault> {
        match d {
            Doc::Object(m) => {
                let chat_id = field::<i64>(m, "chatId"@);
                let message_id = field::<i64>(m, "messageId"@);
                if chat_id is Err {
                    chat_id
                } else if message_id is Err {
                    message_id
                } else {
                    Ok(
                        tagged(
                            Map::empty()
                                .insert("chatId"@, chat_id->Ok_0)
                                .insert("messageId"@, message_id->Ok_0),
                            "getMessageLink"@,
                        ),
                    )
                }
            },
            _ => Err(Fault::TypeMismatch(at)),
        }
    }

    fn encode(&self) -> (j: Json) {
        proof {
            reveal(<GetMessageLink as Wire>::wire);
        }
        let mut members: Vec<Member> = Vec::new();
        put(&mut members, "chatId", self.chat_id.encode());
        put(&mut members, "messageId", self.message_id.encode());
        seal(members, "getMessageLink")
    }

    fn decode(j: &Json, at: &str) -> (r: Result<Self, DecodeError>) {
        proof {
            reveal(<GetMessageLink as Wire>::wire);
            reveal(<GetMessageLink as Wire>::parse);
        }
        let members = members_of(j, at)?;
        let chat_id = read_field::<i64>(members, "chatId")?;
        let message_id = read_field::<i64>(members, "messageId")?;
        Ok(GetMessageLink { chat_id, message_id })
    }

    proof fn round_trip(&self, at: Seq<char>) {
        reveal(<GetMessageLink as Wire>::wire);
        reveal(<GetMessageLink as Wire>::parse);
        reveal_strlit("@type");
        reveal_strlit("chatId");
        reveal_strlit("messageId");
        assert("@type"@.len() == 5);
        assert("chatId"@.len() == 6);
        assert("messageId"@.len() == 9);
        self.chat_id.round_trip("chatId"@);
        self.message_id.round_trip("messageId"@);
    }
}

impl Tagged for GetMessageLink {
    open spec fn known(tag: Seq<char>) -> bool {
        tag == "getMessageLink"@
    }

    fn knows(tag: &str) -> (r: bool) {
        same_text(tag, "getMessageLink")
    }

    proof fn tag_known(&self) {
        reveal(<GetMessageLink as Wire>::wire);
        assert(tag_of(self.wire()) == Some("getMessageLink"@));
        assert(Self::known("getMessageLink"@));
    }
}

impl Method for GetMessageLink {
    const TYPE: &'static str = "getMessageLink";

    type Response = HttpUrl;

    proof fn type_is_tag(&self) {
        reveal(<GetMessageLink as Wire>::wire);
        assert(tag_of(self.wire()) == Some("getMessageLink"@));
    }
}

/// Returns information about a public or private message link
#[derive(Debug, Clone)]
pub struct GetMessageLinkInfo {
    /// The message link in the format "https://t.me/c/...", or "tg://privatepost?...", or
    /// "https://t.me/username/...", or "tg://resolve?..."
    pub url: String,
}

impl Wire for GetMessageLinkInfo {
    #[verifier::opaque]
    open spec fn wire(&self) -> Doc {
        tagged(
            Map::empty()
                .insert("url"@, self.url.wire()),
            "getMessageLinkInfo"@,
        )
    }

    #[verifier::opaque]
    open spec fn parse(d: Doc, at: Seq<char>) -> Result<Doc, Fault> {
        match d {
            Doc::Object(m) => {
                let url = field::<String>(m, "url"@);
                if url is Err {
                    url
                } else {
                    Ok(
                        tagged(
                            Map::empty()
                                .insert("url"@, url->Ok_0),
                            "getMessageLinkInfo"@,
                        ),
                    )
                }
            },
            _ => Err(Fault::TypeMismatch(at)),
        }
    }

    fn encode(&self) -> (j: Json) {
        proof {
            reveal(<GetMessageLinkInfo as Wire>::wire);
        }
        let mut members: Vec<Member> = Vec::new();
        put(&mut members, "url", self.url.encode());
        seal(members, "getMessageLinkInfo")
    }

    fn decode(j: &Json, at: &str) -> (r: Result<Self, DecodeError>) {
        proof {
            reveal(<GetMessageLinkInfo as Wire>::wire);
            reveal(<GetMessageLinkInfo as Wire>::parse);
        }
        let members = members_of(j, at)?;
        let url = read_field::<String>(members, "url")?;
        Ok(GetMessageLinkInfo { url })
    }

    proof fn round_trip(&self, at: Seq<char>) {
        reveal(<GetMessageLinkInfo as Wire>::wire);
        reveal(<GetMessageLinkInfo as Wire>::parse);
        reveal_strlit("@type");
        reveal_strlit("url");
        assert("@type"@.len() == 5);
        assert("url"@.len() == 3);
        self.url.round_trip("url"@);
    }
}

impl Tagged for GetMessageLinkInfo {
    open spec fn known(tag: Seq<char>) -> bool {
        tag == "getMessageLinkInfo"@
    }

    fn knows(tag: &str) -> (r: bool) {
        same_text(tag, "getMessageLinkInfo")
    }

    proof fn tag_known(&self) {
        reveal(<GetMessageLinkInfo as Wire>::wire);
        assert(tag_of(self.wire()) == Some("getMessageLinkInfo"@));
        assert(Self::known("getMessageLinkInfo"@));
    }
}

impl Method for GetMessageLinkInfo {
    const TYPE: &'static str = "getMessageLinkInfo";

    type Response = MessageLinkInfo;

    proof fn type_is_tag(&self) {
        reveal(<GetMessageLinkInfo as Wire>::wire);
        assert(tag_of(self.wire()) == Some("getMessageLinkInfo"@));
    }
}

/// Sends a message. Returns the sent message
#[derive(Debug, Clone)]
pub struct SendMessage {
    /// Target chat
    pub chat_id: i64,
    /// Identifier of the message to reply to or 0
    pub reply_to_message_id: i64,
    /// Options to be used to send the message
    pub options: SendMessageOptions,
    /// Markup for replying to the message; for bots only
    pub reply_markup: Option<ReplyMarkup>,
    /// The content of the message to be sent
    pub input_message_content: InputMessageContent,
}

impl Wire for SendMessage {
    #[verifier::opaque]
    open spec fn wire(&self) -> Doc {
        tagged(
            Map::empty()
                .insert("chatId"@, self.chat_id.wire())
                .insert("replyToMessageId"@, self.reply_to_message_id.wire())
                .insert("options"@, self.options.wire())
                .insert("replyMarkup"@, self.reply_markup.wire())
                .insert("inputMessageContent"@, self.input_message_content.wire()),
            "sendMessage"@,
        )
    }

    #[verifier::opaque]
    open spec fn parse(d: Doc, at: Seq<char>) -> Result<Doc, Fault> {
        match d {
            Doc::Object(m) => {
                let chat_id = field::<i64>(m, "chatId"@);
                let reply_to_message_id = field::<i64>(m, "replyToMessageId"@);
                let options = field::<SendMessageOptions>(m, "options"@);
                let reply_markup = optional_field::<ReplyMarkup>(m, "replyMarkup"@);
                let input_message_content = field::<InputMessageContent>(m, "inputMessageContent"@);
                if chat_id is Err {
                    chat_id
                } else if reply_to_message_id is Err {
                    reply_to_message_id
                } else if options is Err {
                    options
                } else if reply_markup is Err {
                    reply_markup
                } else if input_message_content is Err {
                    input_message_content
                } else {
                    Ok(
                        tagged(
                            Map::empty()
                                .insert("chatId"@, chat_id->Ok_0)
                                .insert("replyToMessageId"@, reply_to_message_id->Ok_0)
                                .insert("options"@, options->Ok_0)
                                .insert("replyMarkup"@, reply_markup->Ok_0)
                                .insert("inputMessageContent"@, input_message_content->Ok_0),
                            "sendMessage"@,
                        ),
                    )
                }
            },
            _ => Err(Fault::TypeMismatch(at)),
        }
    }

    fn encode(&self) -> (j: Json) {
        proof {
            reveal(<SendMessage as Wire>::wire);
        }
        let mut members: Vec<Member> = Vec::new();
        put(&mut members, "chatId", self.chat_id.encode());
        put(&mut members, "replyToMessageId", self.reply_to_message_id.encode());
        put(&mut members, "options", self.options.encode());
        put(&mut members, "replyMarkup", self.reply_markup.encode());
        put(&mut members, "inputMessageContent", self.input_message_content.encode());
        seal(members, "sendMessage")
    }

    fn decode(j: &Json, at: &str) -> (r: Result<Self, DecodeError>) {
        proof {
            reveal(<SendMessage as Wire>::wire);
            reveal(<SendMessage as Wire>::parse);
        }
        let members = members_of(j, at)?;
        let chat_id = read_field::<i64>(members, "chatId")?;
        let reply_to_message_id = read_field::<i64>(members, "replyToMessageId")?;
        let options = read_field::<SendMessageOptions>(members, "options")?;
        let reply_markup = read_optional::<ReplyMarkup>(members, "replyMarkup")?;
        let input_message_content = read_field::<InputMessageContent>(
            members,
            "inputMessageContent",
        )?;
        Ok(SendMessage {
            chat_id,
            reply_to_message_id,
            options,
            reply_markup,
            input_message_content,
        })
    }

    proof fn round_trip(&self, at: Seq<char>) {
        reveal(<SendMessage as Wire>::wire);
        reveal(<SendMessage as Wire>::parse);
        reveal_strlit("@type");
        reveal_strlit("chatId");
        reveal_strlit("inputMessageContent");
        reveal_strlit("options");
        reveal_strlit("replyMarkup");
        reveal_strlit("replyToMessageId");
        assert("@type"@.len() == 5);
        assert("chatId"@.len() == 6);
        assert("inputMessageContent"@.len() == 19);
        assert("options"@.len() == 7);
        assert("replyMarkup"@.len() == 11);
        assert("replyToMessageId"@.len() == 16);
        self.chat_id.round_trip("chatId"@);
        self.reply_to_message_id.round_trip("replyToMessageId"@);
        self.options.round_trip("options"@);
        self.reply_markup.round_trip("replyMarkup"@);
        self.input_message_content.round_trip("inputMessageContent"@);
    }
}

impl Tagged for SendMessage {
    open spec fn known(tag: Seq<char>) -> bool {
        tag == "sendMessage"@
    }

    fn knows(tag: &str) -> (r: bool) {
        same_text(tag, "sendMessage")
    }

    proof fn tag_known(&self) {
        reveal(<SendMessage as Wire>::wire);
        assert(tag_of(self.wire()) == Some("sendMessage"@));
        assert(Self::known("sendMessage"@));
    }
}

impl Method for SendMessage {
    const TYPE: &'static str = "sendMessage";

    type Response = Message;

    proof fn type_is_tag(&self) {
        reveal(<SendMessage as Wire>::wire);
        assert(tag_of(self.wire()) == Some("sendMessage"@));
    }
}

/// Sends messages grouped together into an album. Currently only photo and video messages can be
/// grouped into an album. Returns sent messages
#[derive(Debug, Clone)]
pub struct SendMessageAlbum {
    /// Target chat
    pub chat_id: i64,
    /// Identifier of a message to reply to or 0
    pub reply_to_message_id: i64,
    /// Options to be used to send the messages
    pub options: SendMessageOptions,
    /// Contents of messages to be sent
    pub input_message_contents: Vec<InputMessageContent>,
}

impl Wire for SendMessageAlbum {
    #[verifier::opaque]
    open spec fn wire(&self) -> Doc {
        tagged(
            Map::empty()
                .insert("chatId"@, self.chat_id.wire())
                .insert("replyToMessageId"@, self.reply_to_message_id.wire())
                .insert("options"@, self.options.wire())
                .insert("inputMessageContents"@, self.input_message_contents.wire()),
            "sendMessageAlbum"@,
        )
    }

    #[verifier::opaque]
    open spec fn parse(d: Doc, at: Seq<char>) -> Result<Doc, Fault> {
        match d {
            Doc::Object(m) => {
                let chat_id = field::<i64>(m, "chatId"@);
                let reply_to_message_id = field::<i64>(m, "replyToMessageId"@);
                let options = field::<SendMessageOptions>(m, "options"@);
                let input_message_contents = field::<Vec<InputMessageContent>>(
                    m,
                    "inputMessageContents"@,
                );
                if chat_id is Err {
                    chat_id
                } else if reply_to_message_id is Err {
                    reply_to_message_id
                } else if options is Err {
                    options
                } else if input_message_contents is Err {
                    input_message_contents
                } else {
                    Ok(
                        tagged(
                            Map::empty()
                                .insert("chatId"@, chat_id->Ok_0)
                                .insert("replyToMessageId"@, reply_to_message_id->Ok_0)
                                .insert("options"@, options->Ok_0)
                                .insert("inputMessageContents"@, input_message_contents->Ok_0),
                            "sendMessageAlbum"@,
                        ),
                    )
                }
            },
            _ => Err(Fault::TypeMismatch(at)),
        }
    }

    fn encode(&self) -> (j: Json) {
        proof {
            reveal(<SendMessageAlbum as Wire>::wire);
        }
        let mut members: Vec<Member> = Vec::new();
        put(&mut members, "chatId", self.chat_id.encode());
        put(&mut members, "replyToMessageId", self.reply_to_message_id.encode());
        put(&mut members, "options", self.options.encode());
        put(&mut members, "inputMessageContents", self.input_message_contents.encode());
        seal(members, "sendMessageAlbum")
    }

    fn decode(j: &Json, at: &str) -> (r: Result<Self, DecodeError>) {
        proof {
            reveal(<SendMessageAlbum as Wire>::wire);
            reveal(<SendMessageAlbum as Wire>::parse);
        }
        let members = members_of(j, at)?;
        let chat_id = read_field::<i64>(members, "chatId")?;
        let reply_to_message_id = read_field::<i64>(members, "replyToMessageId")?;
        let options = read_field::<SendMessageOptions>(members, "options")?;
        let input_message_contents = read_field::<Vec<InputMessageContent>>(
            members,
            "inputMessageContents",
        )?;
        Ok(SendMessageAlbum { chat_id, reply_to_message_id, options, input_message_contents })
    }

    proof fn round_trip(&self, at: Seq<char>) {
        reveal(<SendMessageAlbum as Wire>::wire);
        reveal(<SendMessageAlbum as Wire>::parse);
        reveal_strlit("@type");
        reveal_strlit("chatId");
        reveal_strlit("inputMessageContents");
        reveal_strlit("options");
        reveal_strlit("replyToMessageId");
        assert("@type"@.len() == 5);
        assert("chatId"@.len() == 6);
        assert("inputMessageContents"@.len() == 20);
        assert("options"@.len() == 7);
        assert("replyToMessageId"@.len() == 16);
        self.chat_id.round_trip("chatId"@);
        self.reply_to_message_id.round_trip("replyToMessageId"@);
        self.options.round_trip("options"@);
        self.input_message_contents.round_trip("inputMessageContents"@);
    }
}

impl Tagged for SendMessageAlbum {
    open spec fn known(tag: Seq<char>) -> bool {
        tag == "sendMessageAlbum"@
    }

    fn knows(tag: &str) -> (r: bool) {
        same_text(tag, "sendMessageAlbum")
    }

    proof fn tag_known(&self) {
        reveal(<SendMessageAlbum as Wire>::wire);
        assert(tag_of(self.wire()) == Some("sendMessageAlbum"@));
        assert(Self::known("sendMessageAlbum"@));
    }
}

impl Method for SendMessageAlbum {
    const TYPE: &'static str = "sendMessageAlbum";

    type Response = Messages;

    proof fn type_is_tag(&self) {
        reveal(<SendMessageAlbum as Wire>::wire);
        assert(tag_of(self.wire()) == Some("sendMessageAlbum"@));
    }
}

/// Invites a bot to a chat (if it is not yet a member) and sends it the /start command. Bots can't
/// be invited to a private chat other than the chat with the bot. Bots can't be invited to channels
/// (although they can be added as admins) and secret chats. Returns the sent message
#[derive(Debug, Clone)]
pub struct SendBotStartMessage {
    /// Identifier of the bot
    pub bot_user_id: i32,
    /// Identifier of the target chat
    pub chat_id: i64,
    /// A hidden parameter sent to the bot for deep linking purposes
    /// (https://core.telegram.org/bots#deep-linking)
    pub parameter: String,
}

impl Wire for SendBotStartMessage {
    #[verifier::opaque]
    open spec fn wire(&self) -> Doc {
        tagged(
            Map::empty()
                .insert("botUserId"@, self.bot_user_id.wire())
                .insert("chatId"@, self.chat_id.wire())
                .insert("parameter"@, self.parameter.wire()),
            "sendBotStartMessage"@,
        )
    }

    #[verifier::opaque]
    open spec fn parse(d: Doc, at: Seq<char>) -> Result<Doc, Fault> {
        match d {
            Doc::Object(m) => {
                let bot_user_id = field::<i32>(m, "botUserId"@);
                let chat_id = field::<i64>(m, "chatId"@);
                let parameter = field::<String>(m, "parameter"@);
                if bot_user_id is Err {
                    bot_user_id
                } else if chat_id is Err {
                    chat_id
                } else if parameter is Err {
                    parameter
                } else {
                    Ok(
                        tagged(
                            Map::empty()
                                .insert("botUserId"@, bot_user_id->Ok_0)
                                .insert("chatId"@, chat_id->Ok_0)
                                .insert("parameter"@, parameter->Ok_0),
                            "sendBotStartMessage"@,
                        ),
                    )
                }
            },
            _ => Err(Fault::TypeMismatch(at)),
        }
    }

    fn encode(&self) -> (j: Json) {
        proof {
            reveal(<SendBotStartMessage as Wire>::wire);
        }
        let mut members: Vec<Member> = Vec::new();
        put(&mut members, "botUserId", self.bot_user_id.encode());
        put(&mut members, "chatId", self.chat_id.encode());
        put(&mut members, "parameter", self.parameter.encode());
        seal(members, "sendBotStartMessage")
    }

    fn decode(j: &Json, at: &str) -> (r: Result<Self, DecodeError>) {
        proof {
            reveal(<SendBotStartMessage as Wire>::wire);
            reveal(<SendBotStartMessage as Wire>::parse);
        }
        let members = members_of(j, at)?;
        let bot_user_id = read_field::<i32>(members, "botUserId")?;
        let chat_id = read_field::<i64>(members, "chatId")?;
        let parameter = read_field::<String>(members, "parameter")?;
        Ok(SendBotStartMessage { bot_user_id, chat_id, parameter })
    }

    proof fn round_trip(&self, at: Seq<char>) {
        reveal(<SendBotStartMessage as Wire>::wire);
        reveal(<SendBotStartMessage as Wire>::parse);
        reveal_strlit("@type");
        reveal_strlit("botUserId");
        reveal_strlit("chatId");
        reveal_strlit("parameter");
        assert("@type"@.len() == 5);
        assert("botUserId"@.len() == 9 && "botUserId"@[0] == 'b');
        assert("chatId"@.len() == 6);
        assert("parameter"@.len() == 9 && "parameter"@[0] == 'p');
        self.bot_user_id.round_trip("botUserId"@);
        self.chat_id.round_trip("chatId"@);
        self.parameter.round_trip("parameter"@);
    }
}

impl Tagged for SendBotStartMessage {
    open spec fn known(tag: Seq<char>) -> bool {
        tag == "sendBotStartMessage"@
    }

    fn knows(tag: &str) -> (r: bool) {
        same_text(tag, "sendBotStartMessage")
    }

    proof fn tag_known(&self) {
        reveal(<SendBotStartMessage as Wire>::wire);
        assert(tag_of(self.wire()) == Some("sendBotStartMessage"@));
        assert(Self::known("sendBotStartMessage"@));
    }
}

impl Method for SendBotStartMessage {
    const TYPE: &'static str = "sendBotStartMessage";

    type Response = Message;

    proof fn type_is_tag(&self) {
        reveal(<SendBotStartMessage as Wire>::wire);
        assert(tag_of(self.wire()) == Some("sendBotStartMessage"@));
    }
}

/// Sends the result of an inline query as a message. Returns the sent message. Always clears a chat
/// draft message
#[derive(Debug, Clone)]
pub struct SendInlineQueryResultMessage {
    /// Target chat
    pub chat_id: i64,
    /// Identifier of a message to reply to or 0
    pub reply_to_message_id: i64,
    /// Options to be used to send the message
    pub options: SendMessageOptions,
    /// Identifier of the inline query
    pub query_id: i64,
    /// Identifier of the inline result
    pub result_id: String,
    /// If true, there will be no mention of a bot, via which the message is sent. Can be used only
    /// for bots GetOption("animation_search_bot_username"), GetOption("photo_search_bot_username")
    /// and GetOption("venue_search_bot_username")
    pub hide_via_bot: bool,
}

impl Wire for SendInlineQueryResultMessage {
    #[verifier::opaque]
    open spec fn wire(&self) -> Doc {
        tagged(
            Map::empty()
                .insert("chatId"@, self.chat_id.wire())
                .insert("replyToMessageId"@, self.reply_to_message_id.wire())
                .insert("options"@, self.options.wire())
                .insert("queryId"@, wide_doc(self.query_id))
                .insert("resultId"@, self.result_id.wire())
                .insert("hideViaBot"@, self.hide_via_bot.wire()),
            "sendInlineQueryResultMessage"@,
        )
    }

    #[verifier::opaque]
    open spec fn parse(d: Doc, at: Seq<char>) -> Result<Doc, Fault> {
        match d {
            Doc::Object(m) => {
                let chat_id = field::<i64>(m, "chatId"@);
                let reply_to_message_id = field::<i64>(m, "replyToMessageId"@);
                let options = field::<SendMessageOptions>(m, "options"@);
                let query_id = wide_field(m, "queryId"@);
                let result_id = field::<String>(m, "resultId"@);
                let hide_via_bot = field::<bool>(m, "hideViaBot"@);
                if chat_id is Err {
                    chat_id
                } else if reply_to_message_id is Err {
                    reply_to_message_id
                } else if options is Err {
                    options
                } else if query_id is Err {
                    query_id
                } else if result_id is Err {
                    result_id
                } else if hide_via_bot is Err {
                    hide_via_bot
                } else {
                    Ok(
                        tagged(
                            Map::empty()
                                .insert("chatId"@, chat_id->Ok_0)
                                .insert("replyToMessageId"@, reply_to_message_id->Ok_0)
                                .insert("options"@, options->Ok_0)
                                .insert("queryId"@, query_id->Ok_0)
                                .insert("resultId"@, result_id->Ok_0)
                                .insert("hideViaBot"@, hide_via_bot->Ok_0),
                            "sendInlineQueryResultMessage"@,
                        ),
                    )
                }
            },
            _ => Err(Fault::TypeMismatch(at)),
        }
    }

    fn encode(&self) -> (j: Json) {
        proof {
            reveal(<SendInlineQueryResultMessage as Wire>::wire);
        }
        let mut members: Vec<Member> = Vec::new();
        put(&mut members, "chatId", self.chat_id.encode());
        put(&mut members, "replyToMessageId", self.reply_to_message_id.encode());
        put(&mut members, "options", self.options.encode());
        put(&mut members, "queryId", encode_wide(self.query_id));
        put(&mut members, "resultId", self.result_id.encode());
        put(&mut members, "hideViaBot", self.hide_via_bot.encode());
        seal(members, "sendInlineQueryResultMessage")
    }

    fn decode(j: &Json, at: &str) -> (r: Result<Self, DecodeError>) {
        proof {
            reveal(<SendInlineQueryResultMessage as Wire>::wire);
            reveal(<SendInlineQueryResultMessage as Wire>::parse);
        }
        let members = members_of(j, at)?;
        let chat_id = read_field::<i64>(members, "chatId")?;
        let reply_to_message_id = read_field::<i64>(members, "replyToMessageId")?;
        let options = read_field::<SendMessageOptions>(members, "options")?;
        let query_id = read_wide(members, "queryId")?;
        let result_id = read_field::<String>(members, "resultId")?;
        let hide_via_bot = read_field::<bool>(members, "hideViaBot")?;
        Ok(SendInlineQueryResultMessage {
            chat_id,
            reply_to_message_id,
            options,
            query_id,
            result_id,
            hide_via_bot,
        })
    }

    proof fn round_trip(&self, at: Seq<char>) {
        reveal(<SendInlineQueryResultMessage as Wire>::wire);
        reveal(<SendInlineQueryResultMessage as Wire>::parse);
        reveal_strlit("@type");
        reveal_strlit("chatId");
        reveal_strlit("hideViaBot");
        reveal_strlit("options");
        reveal_strlit("queryId");
        reveal_strlit("replyToMessageId");
        reveal_strlit("resultId");
        assert("@type"@.len() == 5);
        assert("chatId"@.len() == 6);
        assert("hideViaBot"@.len() == 10);
        assert("options"@.len() == 7 && "options"@[0] == 'o');
        assert("queryId"@.len() == 7 && "queryId"@[0] == 'q');
        assert("replyToMessageId"@.len() == 16);
        assert("resultId"@.len() == 8);
        self.chat_id.round_trip("chatId"@);
        self.reply_to_message_id.round_trip("replyToMessageId"@);
        self.options.round_trip("options"@);
        lemma_wide_round_trip(self.query_id, "queryId"@);
        self.result_id.round_trip("resultId"@);
        self.hide_via_bot.round_trip("hideViaBot"@);
    }
}

impl Tagged for SendInlineQueryResultMessage {
    open spec fn known(tag: Seq<char>) -> bool {
        tag == "sendInlineQueryResultMessage"@
    }

    fn knows(tag: &str) -> (r: bool) {
        same_text(tag, "sendInlineQueryResultMessage")
    }

    proof fn tag_known(&self) {
        reveal(<SendInlineQueryResultMessage as Wire>::wire);
        assert(tag_of(self.wire()) == Some("sendInlineQueryResultMessage"@));
        assert(Self::known("sendInlineQueryResultMessage"@));
    }
}

impl Method for SendInlineQueryResultMessage {
    const TYPE: &'static str = "sendInlineQueryResultMessage";

    type Response = Message;

    proof fn type_is_tag(&self) {
        reveal(<SendInlineQueryResultMessage as Wire>::wire);
        assert(tag_of(self.wire()) == Some("sendInlineQueryResultMessage"@));
    }
}

/// Forwards previously sent messages. Returns the forwarded messages in the same order as the
/// message identifiers passed in message_ids. If a message can't be forwarded, null will be
/// returned instead of the message
#[derive(Debug, Clone)]
pub struct ForwardMessages {
    /// Identifier of the chat to which to forward messages
    pub chat_id: i64,
    /// Identifier of the chat from which to forward messages
    pub from_chat_id: i64,
    /// Identifiers of the messages to forward
    pub message_ids: Vec<i64>,
    /// Options to be used to send the messages
    pub options: SendMessageOptions,
    /// True, if the messages should be grouped into an album after forwarding. For this to work, no
    /// more than 10 messages may be forwarded, and all of them must be photo or video messages
    pub as_album: bool,
    /// True, if content of the messages needs to be copied without links to the original messages.
    /// Always true if the messages are forwarded to a secret chat
    pub send_copy: bool,
    /// True, if media captions of message copies needs to be removed. Ignored if send_copy is false
    pub remove_caption: bool,
}

impl Wire for ForwardMessages {
    #[verifier::opaque]
    open spec fn wire(&self) -> Doc {
        tagged(
            Map::empty()
                .insert("chatId"@, self.chat_id.wire())
                .insert("fromChatId"@, self.from_chat_id.wire())
                .insert("messageIds"@, self.message_ids.wire())
                .insert("options"@, self.options.wire())
                .insert("asAlbum"@, self.as_album.wire())
                .insert("sendCopy"@, self.send_copy.wire())
                .insert("removeCaption"@, self.remove_caption.wire()),
            "forwardMessages"@,
        )
    }

    #[verifier::opaque]
    open spec fn parse(d: Doc, at: Seq<char>) -> Result<Doc, Fault> {
        match d {
            Doc::Object(m) => {
                let chat_id = field::<i64>(m, "chatId"@);
                let from_chat_id = field::<i64>(m, "fromChatId"@);
                let message_ids = field::<Vec<i64>>(m, "messageIds"@);
                let options = field::<SendMessageOptions>(m, "options"@);
                let as_album = field::<bool>(m, "asAlbum"@);
                let send_copy = field::<bool>(m, "sendCopy"@);
                let remove_caption = field::<bool>(m, "removeCaption"@);
                if chat_id is Err {
                    chat_id
                } else if from_chat_id is Err {
                    from_chat_id
                } else if message_ids is Err {
                    message_ids
                } else if options is Err {
                    options
                } else if as_album is Err {
                    as_album
                } else if send_copy is Err {
                    send_copy
                } else if remove_caption is Err {
                    remove_caption
                } else {
                    Ok(
                        tagged(
                            Map::empty()
                                .insert("chatId"@, chat_id->Ok_0)
                                .insert("fromChatId"@, from_chat_id->Ok_0)
                                .insert("messageIds"@, message_ids->Ok_0)
                                .insert("options"@, options->Ok_0)
                                .insert("asAlbum"@, as_album->Ok_0)
                                .insert("sendCopy"@, send_copy->Ok_0)
                                .insert("removeCaption"@, remove_caption->Ok_0),
                            "forwardMessages"@,
                        ),
                    )
                }
            },
            _ => Err(Fault::TypeMismatch(at)),
        }
    }

    fn encode(&self) -> (j: Json) {
        proof {
            reveal(<ForwardMessages as Wire>::wire);
        }
        let mut members: Vec<Member> = Vec::new();
        put(&mut members, "chatId", self.chat_id.encode());
        put(&mut members, "fromChatId", self.from_chat_id.encode());
        put(&mut members, "messageIds", self.message_ids.encode());
        put(&mut members, "options", self.options.encode());
        put(&mut members, "asAlbum", self.as_album.encode());
        put(&mut members, "sendCopy", self.send_copy.encode());
        put(&mut members, "removeCaption", self.remove_caption.encode());
        seal(members, "forwardMessages")
    }

    fn decode(j: &Json, at: &str) -> (r: Result<Self, DecodeError>) {
        proof {
            reveal(<ForwardMessages as Wire>::wire);
            reveal(<ForwardMessages as Wire>::parse);
        }
        let members = members_of(j, at)?;
        let chat_id = read_field::<i64>(members, "chatId")?;
        let from_chat_id = read_field::<i64>(members, "fromChatId")?;
        let message_ids = read_field::<Vec<i64>>(members, "messageIds")?;
        let options = read_field::<SendMessageOptions>(members, "options")?;
        let as_album = read_field::<bool>(members, "asAlbum")?;
        let send_copy = read_field::<bool>(members, "sendCopy")?;
        let remove_caption = read_field::<bool>(members, "removeCaption")?;
        Ok(ForwardMessages {
            chat_id,
            from_chat_id,
            message_ids,
            options,
            as_album,
            send_copy,
            remove_caption,
        })
    }

    proof fn round_trip(&self, at: Seq<char>) {
        reveal(<ForwardMessages as Wire>::wire);
        reveal(<ForwardMessages as Wire>::parse);
        reveal_strlit("@type");
        reveal_strlit("asAlbum");
        reveal_strlit("chatId");
        reveal_strlit("fromChatId");
        reveal_strlit("messageIds");
        reveal_strlit("options");
        reveal_strlit("removeCaption");
        reveal_strlit("sendCopy");
        assert("@type"@.len() == 5);
        assert("asAlbum"@.len() == 7 && "asAlbum"@[0] == 'a');
        assert("chatId"@.len() == 6);
        assert("fromChatId"@.len() == 10 && "fromChatId"@[0] == 'f');
        assert("messageIds"@.len() == 10 && "messageIds"@[0] == 'm');
        assert("options"@.len() == 7 && "options"@[0] == 'o');
        assert("removeCaption"@.len() == 13);
        assert("sendCopy"@.len() == 8);
        self.chat_id.round_trip("chatId"@);
        self.from_chat_id.round_trip("fromChatId"@);
        self.message_ids.round_trip("messageIds"@);
        self.options.round_trip("options"@);
        self.as_album.round_trip("asAlbum"@);
        self.send_copy.round_trip("sendCopy"@);
        self.remove_caption.round_trip("removeCaption"@);
    }
}

impl Tagged for ForwardMessages {
    open spec fn known(tag: Seq<char>) -> bool {
        tag == "forwardMessages"@
    }

    fn knows(tag: &str) -> (r: bool) {
        same_text(tag, "forwardMessages")
    }

    proof fn tag_known(&self) {
        reveal(<ForwardMessages as Wire>::wire);
        assert(tag_of(self.wire()) == Some("forwardMessages"@));
        assert(Self::known("forwardMessages"@));
    }
}

impl Method for ForwardMessages {
    const TYPE: &'static str = "forwardMessages";

    type Response = Messages;

    proof fn type_is_tag(&self) {
        reveal(<ForwardMessages as Wire>::wire);
        assert(tag_of(self.wire()) == Some("forwardMessages"@));
    }
}

/// Resends messages which failed to send. Can be called only for messages for which
/// messageSendingStateFailed.can_retry is true and after specified in
/// messageSendingStateFailed.retry_after time passed. If a message is re-sent, the corresponding
/// failed to send message is deleted. Returns the sent messages in the same order as the message
/// identifiers passed in message_ids. If a message can't be re-sent, null will be returned instead
/// of the message
#[derive(Debug, Clone)]
pub struct ResendMessages {
    /// Identifier of the chat to send messages
    pub chat_id: i64,
    /// Identifiers of the messages to resend. Message identifiers must be in a strictly increasing
    /// order
    pub message_ids: Vec<i64>,
}

impl Wire for ResendMessages {
    #[verifier::opaque]
    open spec fn wire(&self) -> Doc {
        tagged(
            Map::empty()
                .insert("chatId"@, self.chat_id.wire())
                .insert("messageIds"@, self.message_ids.wire()),
            "resendMessages"@,
        )
    }

    #[verifier::opaque]
    open spec fn parse(d: Doc, at: Seq<char>) -> Result<Doc, Fault> {
        match d {
            Doc::Object(m) => {
                let chat_id = field::<i64>(m, "chatId"@);
                let message_ids = field::<Vec<i64>>(m, "messageIds"@);
                if chat_id is Err {
                    chat_id
                } else if message_ids is Err {
                    message_ids
                } else {
                    Ok(
                        tagged(
                            Map::empty()
                                .insert("chatId"@, chat_id->Ok_0)
                                .insert("messageIds"@, message_ids->Ok_0),
                            "resendMessages"@,
                        ),
                    )
                }
            },
            _ => Err(Fault::TypeMismatch(at)),
        }
    }

    fn encode(&self) -> (j: Json) {
        proof {
            reveal(<ResendMessages as Wire>::wire);
        }
        let mut members: Vec<Member> = Vec::new();
        put(&mut members, "chatId", self.chat_id.encode());
        put(&mut members, "messageIds", self.message_ids.encode());
        seal(members, "resendMessages")
    }

    fn decode(j: &Json, at: &str) -> (r: Result<Self, DecodeError>) {
        proof {
            reveal(<ResendMessages as Wire>::wire);
            reveal(<ResendMessages as Wire>::parse);
        }
        let members = members_of(j, at)?;
        let chat_id = read_field::<i64>(members, "chatId")?;
        let message_ids = read_field::<Vec<i64>>(members, "messageIds")?;
        Ok(ResendMessages { chat_id, message_ids })
    }

    proof fn round_trip(&self, at: Seq<char>) {
        reveal(<ResendMessages as Wire>::wire);
        reveal(<ResendMessages as Wire>::parse);
        reveal_strlit("@type");
        reveal_strlit("chatId");
        reveal_strlit("messageIds");
        assert("@type"@.len() == 5);
        assert("chatId"@.len() == 6);
        assert("messageIds"@.len() == 10);
        self.chat_id.round_trip("chatId"@);
        self.message_ids.round_trip("messageIds"@);
    }
}

impl Tagged for ResendMessages {
    open spec fn known(tag: Seq<char>) -> bool {
        tag == "resendMessages"@
    }

    fn knows(tag: &str) -> (r: bool) {
        same_text(tag, "resendMessages")
    }

    proof fn tag_known(&self) {
        reveal(<ResendMessages as Wire>::wire);
        assert(tag_of(self.wire()) == Some("resendMessages"@));
        assert(Self::known("resendMessages"@));
    }
}

impl Method for ResendMessages {
    const TYPE: &'static str = "resendMessages";

    type Response = Messages;

    proof fn type_is_tag(&self) {
        reveal(<ResendMessages as Wire>::wire);
        assert(tag_of(self.wire()) == Some("resendMessages"@));
    }
}

/// Changes the current TTL setting (sets a new self-destruct timer) in a secret chat and sends the
/// corresponding message
#[derive(Debug, Clone)]
pub struct SendChatSetTtlMessage {
    /// Chat identifier
    pub chat_id: i64,
    /// New TTL value, in seconds
    pub ttl: i32,
}

impl Wire for SendChatSetTtlMessage {
    #[verifier::opaque]
    open spec fn wire(&self) -> Doc {
        tagged(
            Map::empty()
                .insert("chatId"@, self.chat_id.wire())
                .insert("ttl"@, self.ttl.wire()),
            "sendChatSetTtlMessage"@,
        )
    }

    #[verifier::opaque]
    open spec fn parse(d: Doc, at: Seq<char>) -> Result<Doc, Fault> {
        match d {
            Doc::Object(m) => {
                let chat_id = field::<i64>(m, "chatId"@);
                let ttl = field::<i32>(m, "ttl"@);
                if chat_id is Err {
                    chat_id
                } else if ttl is Err {
                    ttl
                } else {
                    Ok(
                        tagged(
                            Map::empty()
                                .insert("chatId"@, chat_id->Ok_0)
                                .insert("ttl"@, ttl->Ok_0),
                            "sendChatSetTtlMessage"@,
                        ),
                    )
                }
            },
            _ => Err(Fault::TypeMismatch(at)),
        }
    }

    fn encode(&self) -> (j: Json) {
        proof {
            reveal(<SendChatSetTtlMessage as Wire>::wire);
        }
        let mut members: Vec<Member> = Vec::new();
        put(&mut members, "chatId", self.chat_id.encode());
        put(&mut members, "ttl", self.ttl.encode());
        seal(members, "sendChatSetTtlMessage")
    }

    fn decode(j: &Json, at: &str) -> (r: Result<Self, DecodeError>) {
        proof {
            reveal(<SendChatSetTtlMessage as Wire>::wire);
            reveal(<SendChatSetTtlMessage as Wire>::parse);
        }
        let members = members_of(j, at)?;
        let chat_id = read_field::<i64>(members, "chatId")?;
        let ttl = read_field::<i32>(members, "ttl")?;
        Ok(SendChatSetTtlMessage { chat_id, ttl })
    }

    proof fn round_trip(&self, at: Seq<char>) {
        reveal(<SendChatSetTtlMessage as Wire>::wire);
        reveal(<SendChatSetTtlMessage as Wire>::parse);
        reveal_strlit("@type");
        reveal_strlit("chatId");
        reveal_strlit("ttl");
        assert("@type"@.len() == 5);
        assert("chatId"@.len() == 6);
        assert("ttl"@.len() == 3);
        self.chat_id.round_trip("chatId"@);
        self.ttl.round_trip("ttl"@);
    }
}

impl Tagged for SendChatSetTtlMessage {
    open spec fn known(tag: Seq<char>) -> bool {
        tag == "sendChatSetTtlMessage"@
    }

    fn knows(tag: &str) -> (r: bool) {
        same_text(tag, "sendChatSetTtlMessage")
    }

    proof fn tag_known(&self) {
        reveal(<SendChatSetTtlMessage as Wire>::wire);
        assert(tag_of(self.wire()) == Some("sendChatSetTtlMessage"@));
        assert(Self::known("sendChatSetTtlMessage"@));
    }
}

impl Method for SendChatSetTtlMessage {
    const TYPE: &'static str = "sendChatSetTtlMessage";

    type Response = Message;

    proof fn type_is_tag(&self) {
        reveal(<SendChatSetTtlMessage as Wire>::wire);
        assert(tag_of(self.wire()) == Some("sendChatSetTtlMessage"@));
    }
}

/// Sends a notification about a screenshot taken in a chat. Supported only in private and secret
/// chats
#[derive(Debug, Clone)]
pub struct SendChatScreenshotTakenNotification {
    /// Chat identifier
    pub chat_id: i64,
}

impl Wire for SendChatScreenshotTakenNotification {
    #[verifier::opaque]
    open spec fn wire(&self) -> Doc {
        tagged(
            Map::empty()
                .insert("chatId"@, self.chat_id.wire()),
            "sendChatScreenshotTakenNotification"@,
        )
    }

    #[verifier::opaque]
    open spec fn parse(d: Doc, at: Seq<char>) -> Result<Doc, Fault> {
        match d {
            Doc::Object(m) => {
                let chat_id = field::<i64>(m, "chatId"@);
                if chat_id is Err {
                    chat_id
                } else {
                    Ok(
                        tagged(
                            Map::empty()
                                .insert("chatId"@, chat_id->Ok_0),
                            "sendChatScreenshotTakenNotification"@,
                        ),
                    )
                }
            },
            _ => Err(Fault::TypeMismatch(at)),
        }
    }

    fn encode(&self) -> (j: Json) {
        proof {
            reveal(<SendChatScreenshotTakenNotification as Wire>::wire);
        }
        let mut members: Vec<Member> = Vec::new();
        put(&mut members, "chatId", self.chat_id.encode());
        seal(members, "sendChatScreenshotTakenNotification")
    }

    fn decode(j: &Json, at: &str) -> (r: Result<Self, DecodeError>) {
        proof {
            reveal(<SendChatScreenshotTakenNotification as Wire>::wire);
            reveal(<SendChatScreenshotTakenNotification as Wire>::parse);
        }
        let members = members_of(j, at)?;
        let chat_id = read_field::<i64>(members, "chatId")?;
        Ok(SendChatScreenshotTakenNotification { chat_id })
    }

    proof fn round_trip(&self, at: Seq<char>) {
        reveal(<SendChatScreenshotTakenNotification as Wire>::wire);
        reveal(<SendChatScreenshotTakenNotification as Wire>::parse);
        reveal_strlit("@type");
        reveal_strlit("chatId");
        assert("@type"@.len() == 5);
        assert("chatId"@.len() == 6);
        self.chat_id.round_trip("chatId"@);
    }
}

impl Tagged for SendChatScreenshotTakenNotification {
    open spec fn known(tag: Seq<char>) -> bool {
        tag == "sendChatScreenshotTakenNotification"@
    }

    fn knows(tag: &str) -> (r: bool) {
        same_text(tag, "sendChatScreenshotTakenNotification")
    }

    proof fn tag_known(&self) {
        reveal(<SendChatScreenshotTakenNotification as Wire>::wire);
        assert(tag_of(self.wire()) == Some("sendChatScreenshotTakenNotification"@));
        assert(Self::known("sendChatScreenshotTakenNotification"@));
    }
}

impl Method for SendChatScreenshotTakenNotification {
    const TYPE: &'static str = "sendChatScreenshotTakenNotification";

    type Response = Okay;

    proof fn type_is_tag(&self) {
        reveal(<SendChatScreenshotTakenNotification as Wire>::wire);
        assert(tag_of(self.wire()) == Some("sendChatScreenshotTakenNotification"@));
    }
}

/// Adds a local message to a chat. The message is persistent across application restarts only if
/// the message database is used. Returns the added message
#[derive(Debug, Clone)]
pub struct AddLocalMessage {
    /// Target chat
    pub chat_id: i64,
    /// Identifier of the user who will be shown as the sender of the message; may be 0 for channel
    /// posts
    pub sender_user_id: i32,
    /// Identifier of the message to reply to or 0
    pub reply_to_message_id: i64,
    /// Pass true to disable notification for the message
    pub disable_notification: bool,
    /// The content of the message to be added
    pub input_message_content: InputMessageContent,
}

impl Wire for AddLocalMessage {
    #[verifier::opaque]
    open spec fn wire(&self) -> Doc {
        tagged(
            Map::empty()
                .insert("chatId"@, self.chat_id.wire())
                .insert("senderUserId"@, self.sender_user_id.wire())
                .insert("replyToMessageId"@, self.reply_to_message_id.wire())
                .insert("disableNotification"@, self.disable_notification.wire())
                .insert("inputMessageContent"@, self.input_message_content.wire()),
            "addLocalMessage"@,
        )
    }

    #[verifier::opaque]
    open spec fn parse(d: Doc, at: Seq<char>) -> Result<Doc, Fault> {
        match d {
            Doc::Object(m) => {
                let chat_id = field::<i64>(m, "chatId"@);
                let sender_user_id = field::<i32>(m, "senderUserId"@);
                let reply_to_message_id = field::<i64>(m, "replyToMessageId"@);
                let disable_notification = field::<bool>(m, "disableNotification"@);
                let input_message_content = field::<InputMessageContent>(m, "inputMessageContent"@);
                if chat_id is Err {
                    chat_id
                } else if sender_user_id is Err {
                    sender_user_id
                } else if reply_to_message_id is Err {
                    reply_to_message_id
                } else if disable_notification is Err {
                    disable_notification
                } else if input_message_content is Err {
                    input_message_content
                } else {
                    Ok(
                        tagged(
                            Map::empty()
                                .insert("chatId"@, chat_id->Ok_0)
                                .insert("senderUserId"@, sender_user_id->Ok_0)
                                .insert("replyToMessageId"@, reply_to_message_id->Ok_0)
                                .insert("disableNotification"@, disable_notification->Ok_0)
                                .insert("inputMessageContent"@, input_message_content->Ok_0),
                            "addLocalMessage"@,
                        ),
                    )
                }
            },
            _ => Err(Fault::TypeMismatch(at)),
        }
    }

    fn encode(&self) -> (j: Json) {
        proof {
            reveal(<AddLocalMessage as Wire>::wire);
        }
        let mut members: Vec<Member> = Vec::new();
        put(&mut members, "chatId", self.chat_id.encode());
        put(&mut members, "senderUserId", self.sender_user_id.encode());
        put(&mut members, "replyToMessageId", self.reply_to_message_id.encode());
        put(&mut members, "disableNotification", self.disable_notification.encode());
        put(&mut members, "inputMessageContent", self.input_message_content.encode());
        seal(members, "addLocalMessage")
    }

    fn decode(j: &Json, at: &str) -> (r: Result<Self, DecodeError>) {
        proof {
            reveal(<AddLocalMessage as Wire>::wire);
            reveal(<AddLocalMessage as Wire>::parse);
        }
        let members = members_of(j, at)?;
        let chat_id = read_field::<i64>(members, "chatId")?;
        let sender_user_id = read_field::<i32>(members, "senderUserId")?;
        let reply_to_message_id = read_field::<i64>(members, "replyToMessageId")?;
        let disable_notification = read_field::<bool>(members, "disableNotification")?;
        let input_message_content = read_field::<InputMessageContent>(
            members,
            "inputMessageContent",
        )?;
        Ok(AddLocalMessage {
            chat_id,
            sender_user_id,
            reply_to_message_id,
            disable_notification,
            input_message_content,
        })
    }

    proof fn round_trip(&self, at: Seq<char>) {
        reveal(<AddLocalMessage as Wire>::wire);
        reveal(<AddLocalMessage as Wire>::parse);
        reveal_strlit("@type");
        reveal_strlit("chatId");
        reveal_strlit("disableNotification");
        reveal_strlit("inputMessageContent");
        reveal_strlit("replyToMessageId");
        reveal_strlit("senderUserId");
        assert("@type"@.len() == 5);
        assert("chatId"@.len() == 6);
        assert("disableNotification"@.len() == 19 && "disableNotification"@[0] == 'd');
        assert("inputMessageContent"@.len() == 19 && "inputMessageContent"@[0] == 'i');
        assert("replyToMessageId"@.len() == 16);
        assert("senderUserId"@.len() == 12);
        self.chat_id.round_trip("chatId"@);
        self.sender_user_id.round_trip("senderUserId"@);
        self.reply_to_message_id.round_trip("replyToMessageId"@);
        self.disable_notification.round_trip("disableNotification"@);
        self.input_message_content.round_trip("inputMessageContent"@);
    }
}

impl Tagged for AddLocalMessage {
    open spec fn known(tag: Seq<char>) -> bool {
        tag == "addLocalMessage"@
    }

    fn knows(tag: &str) -> (r: bool) {
        same_text(tag, "addLocalMessage")
    }

    proof fn tag_known(&self) {
        reveal(<AddLocalMessage as Wire>::wire);
        assert(tag_of(self.wire()) == Some("addLocalMessage"@));
        assert(Self::known("addLocalMessage"@));
    }
}

impl Method for AddLocalMessage {
    const TYPE: &'static str = "addLocalMessage";

    type Response = Message;

    proof fn type_is_tag(&self) {
        reveal(<AddLocalMessage as Wire>::wire);
        assert(tag_of(self.wire()) == Some("addLocalMessage"@));
    }
}

/// Deletes messages
#[derive(Debug, Clone)]
pub struct DeleteMessages {
    /// Chat identifier
    pub chat_id: i64,
    /// Identifiers of the messages to be deleted
    pub message_ids: Vec<i64>,
    /// Pass true to try to delete messages for all chat members. Always true for supergroups,
    /// channels and secret chats
    pub revoke: bool,
}

impl Wire for DeleteMessages {
    #[verifier::opaque]
    open spec fn wire(&self) -> Doc {
        tagged(
            Map::empty()
                .insert("chatId"@, self.chat_id.wire())
                .insert("messageIds"@, self.message_ids.wire())
                .insert("revoke"@, self.revoke.wire()),
            "deleteMessages"@,
        )
    }

    #[verifier::opaque]
    open spec fn parse(d: Doc, at: Seq<char>) -> Result<Doc, Fault> {
        match d {
            Doc::Object(m) => {
                let chat_id = field::<i64>(m, "chatId"@);
                let message_ids = field::<Vec<i64>>(m, "messageIds"@);
                let revoke = field::<bool>(m, "revoke"@);
                if chat_id is Err {
                    chat_id
                } else if message_ids is Err {
                    message_ids
                } else if revoke is Err {
                    revoke
                } else {
                    Ok(
                        tagged(
                            Map::empty()
                                .insert("chatId"@, chat_id->Ok_0)
                                .insert("messageIds"@, message_ids->Ok_0)
                                .insert("revoke"@, revoke->Ok_0),
                            "deleteMessages"@,
                        ),
                    )
                }
            },
            _ => Err(Fault::TypeMismatch(at)),
        }
    }

    fn encode(&self) -> (j: Json) {
        proof {
            reveal(<DeleteMessages as Wire>::wire);
        }
        let mut members: Vec<Member> = Vec::new();
        put(&mut members, "chatId", self.chat_id.encode());
        put(&mut members, "messageIds", self.message_ids.encode());
        put(&mut members, "revoke", self.revoke.encode());
        seal(members, "deleteMessages")
    }

    fn decode(j: &Json, at: &str) -> (r: Result<Self, DecodeError>) {
        proof {
            reveal(<DeleteMessages as Wire>::wire);
            reveal(<DeleteMessages as Wire>::parse);
        }
        let members = members_of(j, at)?;
        let chat_id = read_field::<i64>(members, "chatId")?;
        let message_ids = read_field::<Vec<i64>>(members, "messageIds")?;
        let revoke = read_field::<bool>(members, "revoke")?;
        Ok(DeleteMessages { chat_id, message_ids, revoke })
    }

    proof fn round_trip(&self, at: Seq<char>) {
        reveal(<DeleteMessages as Wire>::wire);
        reveal(<DeleteMessages as Wire>::parse);
        reveal_strlit("@type");
        reveal_strlit("chatId");
        reveal_strlit("messageIds");
        reveal_strlit("revoke");
        assert("@type"@.len() == 5);
        assert("chatId"@.len() == 6 && "chatId"@[0] == 'c');
        assert("messageIds"@.len() == 10);
        assert("revoke"@.len() == 6 && "revoke"@[0] == 'r');
        self.chat_id.round_trip("chatId"@);
        self.message_ids.round_trip("messageIds"@);
        self.revoke.round_trip("revoke"@);
    }
}

impl Tagged for DeleteMessages {
    open spec fn known(tag: Seq<char>) -> bool {
        tag == "deleteMessages"@
    }

    fn knows(tag: &str) -> (r: bool) {
        same_text(tag, "deleteMessages")
    }

    proof fn tag_known(&self) {
        reveal(<DeleteMessages as Wire>::wire);
        assert(tag_of(self.wire()) == Some("deleteMessages"@));
        assert(Self::known("deleteMessages"@));
    }
}

impl Method for DeleteMessages {
    const TYPE: &'static str = "deleteMessages";

    type Response = Okay;

    proof fn type_is_tag(&self) {
        reveal(<DeleteMessages as Wire>::wire);
        assert(tag_of(self.wire()) == Some("deleteMessages"@));
    }
}

/// Deletes all messages sent by the specified user to a chat. Supported only for supergroups;
/// requires can_delete_messages administrator privileges
#[derive(Debug, Clone)]
pub struct DeleteChatMessagesFromUser {
    /// Chat identifier
    pub chat_id: i64,
    /// User identifier
    pub user_id: i32,
}

impl Wire for DeleteChatMessagesFromUser {
    #[verifier::opaque]
    open spec fn wire(&self) -> Doc {
        tagged(
            Map::empty()
                .insert("chatId"@, self.chat_id.wire())
                .insert("userId"@, self.user_id.wire()),
            "deleteChatMessagesFromUser"@,
        )
    }

    #[verifier::opaque]
    open spec fn parse(d: Doc, at: Seq<char>) -> Result<Doc, Fault> {
        match d {
            Doc::Object(m) => {
                let chat_id = field::<i64>(m, "chatId"@);
                let user_id = field::<i32>(m, "userId"@);
                if chat_id is Err {
                    chat_id
                } else if user_id is Err {
                    user_id
                } else {
                    Ok(
                        tagged(
                            Map::empty()
                                .insert("chatId"@, chat_id->Ok_0)
                                .insert("userId"@, user_id->Ok_0),
                            "deleteChatMessagesFromUser"@,
                        ),
                    )
                }
            },
            _ => Err(Fault::TypeMismatch(at)),
        }
    }

    fn encode(&self) -> (j: Json) {
        proof {
            reveal(<DeleteChatMessagesFromUser as Wire>::wire);
        }
        let mut members: Vec<Member> = Vec::new();
        put(&mut members, "chatId", self.chat_id.encode());
        put(&mut members, "userId", self.user_id.encode());
        seal(members, "deleteChatMessagesFromUser")
    }

    fn decode(j: &Json, at: &str) -> (r: Result<Self, DecodeError>) {
        proof {
            reveal(<DeleteChatMessagesFromUser as Wire>::wire);
            reveal(<DeleteChatMessagesFromUser as Wire>::parse);
        }
        let members = members_of(j, at)?;
        let chat_id = read_field::<i64>(members, "chatId")?;
        let user_id = read_field::<i32>(members, "userId")?;
        Ok(DeleteChatMessagesFromUser { chat_id, user_id })
    }

    proof fn round_trip(&self, at: Seq<char>) {
        reveal(<DeleteChatMessagesFromUser as Wire>::wire);
        reveal(<DeleteChatMessagesFromUser as Wire>::parse);
        reveal_strlit("@type");
        reveal_strlit("chatId");
        reveal_strlit("userId");
        assert("@type"@.len() == 5);
        assert("chatId"@.len() == 6 && "chatId"@[0] == 'c');
        assert("userId"@.len() == 6 && "userId"@[0] == 'u');
        self.chat_id.round_trip("chatId"@);
        self.user_id.round_trip("userId"@);
    }
}

impl Tagged for DeleteChatMessagesFromUser {
    open spec fn known(tag: Seq<char>) -> bool {
        tag == "deleteChatMessagesFromUser"@
    }

    fn knows(tag: &str) -> (r: bool) {
        same_text(tag, "deleteChatMessagesFromUser")
    }

    proof fn tag_known(&self) {
        reveal(<DeleteChatMessagesFromUser as Wire>::wire);
        assert(tag_of(self.wire()) == Some("deleteChatMessagesFromUser"@));
        assert(Self::known("deleteChatMessagesFromUser"@));
    }
}

impl Method for DeleteChatMessagesFromUser {
    const TYPE: &'static str = "deleteChatMessagesFromUser";

    type Response = Okay;

    proof fn type_is_tag(&self) {
        reveal(<DeleteChatMessagesFromUser as Wire>::wire);
        assert(tag_of(self.wire()) == Some("deleteChatMessagesFromUser"@));
    }
}

/// Edits the text of a message (or a text of a game message). Returns the edited message after the
/// edit is completed on the server side
#[derive(Debug, Clone)]
pub struct EditMessageText {
    /// The chat the message belongs to
    pub chat_id: i64,
    /// Identifier of the message
    pub message_id: i64,
    /// The new message reply markup; for bots only
    pub reply_markup: Option<ReplyMarkup>,
    /// New text content of the message. Should be of type InputMessageText
    pub input_message_content: InputMessageContent,
}

impl Wire for EditMessageText {
    #[verifier::opaque]
    open spec fn wire(&self) -> Doc {
        tagged(
            Map::empty()
                .insert("chatId"@, self.chat_id.wire())
                .insert("messageId"@, self.message_id.wire())
                .insert("replyMarkup"@, self.reply_markup.wire())
                .insert("inputMessageContent"@, self.input_message_content.wire()),
            "editMessageText"@,
        )
    }

    #[verifier::opaque]
    open spec fn parse(d: Doc, at: Seq<char>) -> Result<Doc, Fault> {
        match d {
            Doc::Object(m) => {
                let chat_id = field::<i64>(m, "chatId"@);
                let message_id = field::<i64>(m, "messageId"@);
                let reply_markup = optional_field::<ReplyMarkup>(m, "replyMarkup"@);
                let input_message_content = field::<InputMessageContent>(m, "inputMessageContent"@);
                if chat_id is Err {
                    chat_id
                } else if message_id is Err {
                    message_id
                } else if reply_markup is Err {
                    reply_markup
                } else if input_message_content is Err {
                    input_message_content
                } else {
                    Ok(
                        tagged(
                            Map::empty()
                                .insert("chatId"@, chat_id->Ok_0)
                                .insert("messageId"@, message_id->Ok_0)
                                .insert("replyMarkup"@, reply_markup->Ok_0)
                                .insert("inputMessageContent"@, input_message_content->Ok_0),
                            "editMessageText"@,
                        ),
                    )
                }
            },
            _ => Err(Fault::TypeMismatch(at)),
        }
    }

    fn encode(&self) -> (j: Json) {
        proof {
            reveal(<EditMessageText as Wire>::wire);
        }
        let mut members: Vec<Member> = Vec::new();
        put(&mut members, "chatId", self.chat_id.encode());
        put(&mut members, "messageId", self.message_id.encode());
        put(&mut members, "replyMarkup", self.reply_markup.encode());
        put(&mut members, "inputMessageContent", self.input_message_content.encode());
        seal(members, "editMessageText")
    }

    fn decode(j: &Json, at: &str) -> (r: Result<Self, DecodeError>) {
        proof {
            reveal(<EditMessageText as Wire>::wire);
            reveal(<EditMessageText as Wire>::parse);
        }
        let members = members_of(j, at)?;
        let chat_id = read_field::<i64>(members, "chatId")?;
        let message_id = read_field::<i64>(members, "messageId")?;
        let reply_markup = read_optional::<ReplyMarkup>(members, "replyMarkup")?;
        let input_message_content = read_field::<InputMessageContent>(
            members,
            "inputMessageContent",
        )?;
        Ok(EditMessageText { chat_id, message_id, reply_markup, input_message_content })
    }

    proof fn round_trip(&self, at: Seq<char>) {
        reveal(<EditMessageText as Wire>::wire);
        reveal(<EditMessageText as Wire>::parse);
        reveal_strlit("@type");
        reveal_strlit("chatId");
        reveal_strlit("inputMessageContent");
        reveal_strlit("messageId");
        reveal_strlit("replyMarkup");
        assert("@type"@.len() == 5);
        assert("chatId"@.len() == 6);
        assert("inputMessageContent"@.len() == 19);
        assert("messageId"@.len() == 9);
        assert("replyMarkup"@.len() == 11);
        self.chat_id.round_trip("chatId"@);
        self.message_id.round_trip("messageId"@);
        self.reply_markup.round_trip("replyMarkup"@);
        self.input_message_content.round_trip("inputMessageContent"@);
    }
}

impl Tagged for EditMessageText {
    open spec fn known(tag: Seq<char>) -> bool {
        tag == "editMessageText"@
    }

    fn knows(tag: &str) -> (r: bool) {
        same_text(tag, "editMessageText")
    }

    proof fn tag_known(&self) {
        reveal(<EditMessageText as Wire>::wire);
        assert(tag_of(self.wire()) == Some("editMessageText"@));
        assert(Self::known("editMessageText"@));
    }
}

impl Method for EditMessageText {
    const TYPE: &'static str = "editMessageText";

    type Response = Message;

    proof fn type_is_tag(&self) {
        reveal(<EditMessageText as Wire>::wire);
        assert(tag_of(self.wire()) == Some("editMessageText"@));
    }
}

/// Edits the message content of a live location. Messages can be edited for a limited period of
/// time specified in the live location. Returns the edited message after the edit is completed on
/// the server side
#[derive(Debug, Clone)]
pub struct EditMessageLiveLocation {
    /// The chat the message belongs to
    pub chat_id: i64,
    /// Identifier of the message
    pub message_id: i64,
    /// The new message reply markup; for bots only
    pub reply_markup: Option<ReplyMarkup>,
    /// New location content of the message; may be null. Pass null to stop sharing the live
    /// location
    pub location: Option<Location>,
}

impl Wire for EditMessageLiveLocation {
    #[verifier::opaque]
    open spec fn wire(&self) -> Doc {
        tagged(
            Map::empty()
                .insert("chatId"@, self.chat_id.wire())
                .insert("messageId"@, self.message_id.wire())
                .insert("replyMarkup"@, self.reply_markup.wire())
                .insert("location"@, self.location.wire()),
            "editMessageLiveLocation"@,
        )
    }

    #[verifier::opaque]
    open spec fn parse(d: Doc, at: Seq<char>) -> Result<Doc, Fault> {
        match d {
            Doc::Object(m) => {
                let chat_id = field::<i64>(m, "chatId"@);
                let message_id = field::<i64>(m, "messageId"@);
                let reply_markup = optional_field::<ReplyMarkup>(m, "replyMarkup"@);
                let location = optional_field::<Location>(m, "location"@);
                if chat_id is Err {
                    chat_id
                } else if message_id is Err {
                    message_id
                } else if reply_markup is Err {
                    reply_markup
                } else if location is Err {
                    location
                } else {
                    Ok(
                        tagged(
                            Map::empty()
                                .insert("chatId"@, chat_id->Ok_0)
                                .insert("messageId"@, message_id->Ok_0)
                                .insert("replyMarkup"@, reply_markup->Ok_0)
                                .insert("location"@, location->Ok_0),
                            "editMessageLiveLocation"@,
                        ),
                    )
                }
            },
            _ => Err(Fault::TypeMismatch(at)),
        }
    }

    fn encode(&self) -> (j: Json) {
        proof {
            reveal(<EditMessageLiveLocation as Wire>::wire);
        }
        let mut members: Vec<Member> = Vec::new();
        put(&mut members, "chatId", self.chat_id.encode());
        put(&mut members, "messageId", self.message_id.encode());
        put(&mut members, "replyMarkup", self.reply_markup.encode());
        put(&mut members, "location", self.location.encode());
        seal(members, "editMessageLiveLocation")
    }

    fn decode(j: &Json, at: &str) -> (r: Result<Self, DecodeError>) {
        proof {
            reveal(<EditMessageLiveLocation as Wire>::wire);
            reveal(<EditMessageLiveLocation as Wire>::parse);
        }
        let members = members_of(j, at)?;
        let chat_id = read_field::<i64>(members, "chatId")?;
        let message_id = read_field::<i64>(members, "messageId")?;
        let reply_markup = read_optional::<ReplyMarkup>(members, "replyMarkup")?;
        let location = read_optional::<Location>(members, "location")?;
        Ok(EditMessageLiveLocation { chat_id, message_id, reply_markup, location })
    }

    proof fn round_trip(&self, at: Seq<char>) {
        reveal(<EditMessageLiveLocation as Wire>::wire);
        reveal(<EditMessageLiveLocation as Wire>::parse);
        reveal_strlit("@type");
        reveal_strlit("chatId");
        reveal_strlit("location");
        reveal_strlit("messageId");
        reveal_strlit("replyMarkup");
        assert("@type"@.len() == 5);
        assert("chatId"@.len() == 6);
        assert("location"@.len() == 8);
        assert("messageId"@.len() == 9);
        assert("replyMarkup"@.len() == 11);
        self.chat_id.round_trip("chatId"@);
        self.message_id.round_trip("messageId"@);
        self.reply_markup.round_trip("replyMarkup"@);
        self.location.round_trip("location"@);
    }
}

impl Tagged for EditMessageLiveLocation {
    open spec fn known(tag: Seq<char>) -> bool {
        tag == "editMessageLiveLocation"@
    }

    fn knows(tag: &str) -> (r: bool) {
        same_text(tag, "editMessageLiveLocation")
    }

    proof fn tag_known(&self) {
        reveal(<EditMessageLiveLocation as Wire>::wire);
        assert(tag_of(self.wire()) == Some("editMessageLiveLocation"@));
        assert(Self::known("editMessageLiveLocation"@));
    }
}

impl Method for EditMessageLiveLocation {
    const TYPE: &'static str = "editMessageLiveLocation";

    type Response = Message;

    proof fn type_is_tag(&self) {
        reveal(<EditMessageLiveLocation as Wire>::wire);
        assert(tag_of(self.wire()) == Some("editMessageLiveLocation"@));
    }
}

/// Edits the content of a message with an animation, an audio, a document, a photo or a video. The
/// media in the message can't be replaced if the message was set to self-destruct. Media can't be
/// replaced by self-destructing media. Media in an album can be edited only to contain a photo or a
/// video. Returns the edited message after the edit is completed on the server side
#[derive(Debug, Clone)]
pub struct EditMessageMedia {
    /// The chat the message belongs to
    pub chat_id: i64,
    /// Identifier of the message
    pub message_id: i64,
    /// The new message reply markup; for bots only
    pub reply_markup: Option<ReplyMarkup>,
    /// New content of the message. Must be one of the following types: InputMessageAnimation,
    /// InputMessageAudio, InputMessageDocument, InputMessagePhoto or InputMessageVideo
    pub input_message_content: InputMessageContent,
}

impl Wire for EditMessageMedia {
    #[verifier::opaque]
    open spec fn wire(&self) -> Doc {
        tagged(
            Map::empty()
                .insert("chatId"@, self.chat_id.wire())
                .insert("messageId"@, self.message_id.wire())
                .insert("replyMarkup"@, self.reply_markup.wire())
                .insert("inputMessageContent"@, self.input_message_content.wire()),
            "editMessageMedia"@,
        )
    }

    #[verifier::opaque]
    open spec fn parse(d: Doc, at: Seq<char>) -> Result<Doc, Fault> {
        match d {
            Doc::Object(m) => {
                let chat_id = field::<i64>(m, "chatId"@);
                let message_id = field::<i64>(m, "messageId"@);
                let reply_markup = optional_field::<ReplyMarkup>(m, "replyMarkup"@);
                let input_message_content = field::<InputMessageContent>(m, "inputMessageContent"@);
                if chat_id is Err {
                    chat_id
                } else if message_id is Err {
                    message_id
                } else if reply_markup is Err {
                    reply_markup
                } else if input_message_content is Err {
                    input_message_content
                } else {
                    Ok(
                        tagged(
                            Map::empty()
                                .insert("chatId"@, chat_id->Ok_0)
                                .insert("messageId"@, message_id->Ok_0)
                                .insert("replyMarkup"@, reply_markup->Ok_0)
                                .insert("inputMessageContent"@, input_message_content->Ok_0),
                            "editMessageMedia"@,
                        ),
                    )
                }
            },
            _ => Err(Fault::TypeMismatch(at)),
        }
    }

    fn encode(&self) -> (j: Json) {
        proof {
            reveal(<EditMessageMedia as Wire>::wire);
        }
        let mut members: Vec<Member> = Vec::new();
        put(&mut members, "chatId", self.chat_id.encode());
        put(&mut members, "messageId", self.message_id.encode());
        put(&mut members, "replyMarkup", self.reply_markup.encode());
        put(&mut members, "inputMessageContent", self.input_message_content.encode());
        seal(members, "editMessageMedia")
    }

    fn decode(j: &Json, at: &str) -> (r: Result<Self, DecodeError>) {
        proof {
            reveal(<EditMessageMedia as Wire>::wire);
            reveal(<EditMessageMedia as Wire>::parse);
        }
        let members = members_of(j, at)?;
        let chat_id = read_field::<i64>(members, "chatId")?;
        let message_id = read_field::<i64>(members, "messageId")?;
        let reply_markup = read_optional::<ReplyMarkup>(members, "replyMarkup")?;
        let input_message_content = read_field::<InputMessageContent>(
            members,
            "inputMessageContent",
        )?;
        Ok(EditMessageMedia { chat_id, message_id, reply_markup, input_message_content })
    }

    proof fn round_trip(&self, at: Seq<char>) {
        reveal(<EditMessageMedia as Wire>::wire);
        reveal(<EditMessageMedia as Wire>::parse);
        reveal_strlit("@type");
        reveal_strlit("chatId");
        reveal_strlit("inputMessageContent");
        reveal_strlit("messageId");
        reveal_strlit("replyMarkup");
        assert("@type"@.len() == 5);
        assert("chatId"@.len() == 6);
        assert("inputMessageContent"@.len() == 19);
        assert("messageId"@.len() == 9);
        assert("replyMarkup"@.len() == 11);
        self.chat_id.round_trip("chatId"@);
        self.message_id.round_trip("messageId"@);
        self.reply_markup.round_trip("replyMarkup"@);
        self.input_message_content.round_trip("inputMessageContent"@);
    }
}

impl Tagged for EditMessageMedia {
    open spec fn known(tag: Seq<char>) -> bool {
        tag == "editMessageMedia"@
    }

    fn knows(tag: &str) -> (r: bool) {
        same_text(tag, "editMessageMedia")
    }

    proof fn tag_known(&self) {
        reveal(<EditMessageMedia as Wire>::wire);
        assert(tag_of(self.wire()) == Some("editMessageMedia"@));
        assert(Self::known("editMessageMedia"@));
    }
}

impl Method for EditMessageMedia {
    const TYPE: &'static str = "editMessageMedia";

    type Response = Message;

    proof fn type_is_tag(&self) {
        reveal(<EditMessageMedia as Wire>::wire);
        assert(tag_of(self.wire()) == Some("editMessageMedia"@));
    }
}

/// Edits the message content caption. Returns the edited message after the edit is completed on the
/// server side
#[derive(Debug, Clone)]
pub struct EditMessageCaption {
    /// The chat the message belongs to
    pub chat_id: i64,
    /// Identifier of the message
    pub message_id: i64,
    /// The new message reply markup; for bots only
    pub reply_markup: Option<ReplyMarkup>,
    /// New message content caption; 0-GetOption("message_caption_length_max") characters
    pub caption: FormattedText,
}

impl Wire for EditMessageCaption {
    #[verifier::opaque]
    open spec fn wire(&self) -> Doc {
        tagged(
            Map::empty()
                .insert("chatId"@, self.chat_id.wire())
                .insert("messageId"@, self.message_id.wire())
                .insert("replyMarkup"@, self.reply_markup.wire())
                .insert("caption"@, self.caption.wire()),
            "editMessageCaption"@,
        )
    }

    #[verifier::opaque]
    open spec fn parse(d: Doc, at: Seq<char>) -> Result<Doc, Fault> {
        match d {
            Doc::Object(m) => {
                let chat_id = field::<i64>(m, "chatId"@);
                let message_id = field::<i64>(m, "messageId"@);
                let reply_markup = optional_field::<ReplyMarkup>(m, "replyMarkup"@);
                let caption = field::<FormattedText>(m, "caption"@);
                if chat_id is Err {
                    chat_id
                } else if message_id is Err {
                    message_id
                } else if reply_markup is Err {
                    reply_markup
                } else if caption is Err {
                    caption
                } else {
                    Ok(
                        tagged(
                            Map::empty()
                                .insert("chatId"@, chat_id->Ok_0)
                                .insert("messageId"@, message_id->Ok_0)
                                .insert("replyMarkup"@, reply_markup->Ok_0)
                                .insert("caption"@, caption->Ok_0),
                            "editMessageCaption"@,
                        ),
                    )
                }
            },
            _ => Err(Fault::TypeMismatch(at)),
        }
    }

    fn encode(&self) -> (j: Json) {
        proof {
            reveal(<EditMessageCaption as Wire>::wire);
        }
        let mut members: Vec<Member> = Vec::new();
        put(&mut members, "chatId", self.chat_id.encode());
        put(&mut members, "messageId", self.message_id.encode());
        put(&mut members, "replyMarkup", self.reply_markup.encode());
        put(&mut members, "caption", self.caption.encode());
        seal(members, "editMessageCaption")
    }

    fn decode(j: &Json, at: &str) -> (r: Result<Self, DecodeError>) {
        proof {
            reveal(<EditMessageCaption as Wire>::wire);
            reveal(<EditMessageCaption as Wire>::parse);
        }
        let members = members_of(j, at)?;
        let chat_id = read_field::<i64>(members, "chatId")?;
        let message_id = read_field::<i64>(members, "messageId")?;
        let reply_markup = read_optional::<ReplyMarkup>(members, "replyMarkup")?;
        let caption = read_field::<FormattedText>(members, "caption")?;
        Ok(EditMessageCaption { chat_id, message_id, reply_markup, caption })
    }

    proof fn round_trip(&self, at: Seq<char>) {
        reveal(<EditMessageCaption as Wire>::wire);
        reveal(<EditMessageCaption as Wire>::parse);
        reveal_strlit("@type");
        reveal_strlit("caption");
        reveal_strlit("chatId");
        reveal_strlit("messageId");
        reveal_strlit("replyMarkup");
        assert("@type"@.len() == 5);
        assert("caption"@.len() == 7);
        assert("chatId"@.len() == 6);
        assert("messageId"@.len() == 9);
        assert("replyMarkup"@.len() == 11);
        self.chat_id.round_trip("chatId"@);
        self.message_id.round_trip("messageId"@);
        self.reply_markup.round_trip("replyMarkup"@);
        self.caption.round_trip("caption"@);
    }
}

impl Tagged for EditMessageCaption {
    open spec fn known(tag: Seq<char>) -> bool {
        tag == "editMessageCaption"@
    }

    fn knows(tag: &str) -> (r: bool) {
        same_text(tag, "editMessageCaption")
    }

    proof fn tag_known(&self) {
        reveal(<EditMessageCaption as Wire>::wire);
        assert(tag_of(self.wire()) == Some("editMessageCaption"@));
        assert(Self::known("editMessageCaption"@));
    }
}

impl Method for EditMessageCaption {
    const TYPE: &'static str = "editMessageCaption";

    type Response = Message;

    proof fn type_is_tag(&self) {
        reveal(<EditMessageCaption as Wire>::wire);
        assert(tag_of(self.wire()) == Some("editMessageCaption"@));
    }
}

/// Edits the message reply markup; for bots only. Returns the edited message after the edit is
/// completed on the server side
#[derive(Debug, Clone)]
pub struct EditMessageReplyMarkup {
    /// The chat the message belongs to
    pub chat_id: i64,
    /// Identifier of the message
    pub message_id: i64,
    /// The new message reply markup
    pub reply_markup: ReplyMarkup,
}

impl Wire for EditMessageReplyMarkup {
    #[verifier::opaque]
    open spec fn wire(&self) -> Doc {
        tagged(
            Map::empty()
                .insert("chatId"@, self.chat_id.wire())
                .insert("messageId"@, self.message_id.wire())
                .insert("replyMarkup"@, self.reply_markup.wire()),
            "editMessageReplyMarkup"@,
        )
    }

    #[verifier::opaque]
    open spec fn parse(d: Doc, at: Seq<char>) -> Result<Doc, Fault> {
        match d {
            Doc::Object(m) => {
                let chat_id = field::<i64>(m, "chatId"@);
                let message_id = field::<i64>(m, "messageId"@);
                let reply_markup = field::<ReplyMarkup>(m, "replyMarkup"@);
                if chat_id is Err {
                    chat_id
                } else if message_id is Err {
                    message_id
                } else if reply_markup is Err {
                    reply_markup
                } else {
                    Ok(
                        tagged(
                            Map::empty()
                                .insert("chatId"@, chat_id->Ok_0)
                                .insert("messageId"@, message_id->Ok_0)
                                .insert("replyMarkup"@, reply_markup->Ok_0),
                            "editMessageReplyMarkup"@,
                        ),
                    )
                }
            },
            _ => Err(Fault::TypeMismatch(at)),
        }
    }

    fn encode(&self) -> (j: Json) {
        proof {
            reveal(<EditMessageReplyMarkup as Wire>::wire);
        }
        let mut members: Vec<Member> = Vec::new();
        put(&mut members, "chatId", self.chat_id.encode());
        put(&mut members, "messageId", self.message_id.encode());
        put(&mut members, "replyMarkup", self.reply_markup.encode());
        seal(members, "editMessageReplyMarkup")
    }

    fn decode(j: &Json, at: &str) -> (r: Result<Self, DecodeError>) {
        proof {
            reveal(<EditMessageReplyMarkup as Wire>::wire);
            reveal(<EditMessageReplyMarkup as Wire>::parse);
        }
        let members = members_of(j, at)?;
        let chat_id = read_field::<i64>(members, "chatId")?;
        let message_id = read_field::<i64>(members, "messageId")?;
        let reply_markup = read_field::<ReplyMarkup>(members, "replyMarkup")?;
        Ok(EditMessageReplyMarkup { chat_id, message_id, reply_markup })
    }

    proof fn round_trip(&self, at: Seq<char>) {
        reveal(<EditMessageReplyMarkup as Wire>::wire);
        reveal(<EditMessageReplyMarkup as Wire>::parse);
        reveal_strlit("@type");
        reveal_strlit("chatId");
        reveal_strlit("messageId");
        reveal_strlit("replyMarkup");
        assert("@type"@.len() == 5);
        assert("chatId"@.len() == 6);
        assert("messageId"@.len() == 9);
        assert("replyMarkup"@.len() == 11);
        self.chat_id.round_trip("chatId"@);
        self.message_id.round_trip("messageId"@);
        self.reply_markup.round_trip("replyMarkup"@);
    }
}

impl Tagged for EditMessageReplyMarkup {
    open spec fn known(tag: Seq<char>) -> bool {
        tag == "editMessageReplyMarkup"@
    }

    fn knows(tag: &str) -> (r: bool) {
        same_text(tag, "editMessageReplyMarkup")
    }

    proof fn tag_known(&self) {
        reveal(<EditMessageReplyMarkup as Wire>::wire);
        assert(tag_of(self.wire()) == Some("editMessageReplyMarkup"@));
        assert(Self::known("editMessageReplyMarkup"@));
    }
}

impl Method for EditMessageReplyMarkup {
    const TYPE: &'static str = "editMessageReplyMarkup";

    type Response = Message;

    proof fn type_is_tag(&self) {
        reveal(<EditMessageReplyMarkup as Wire>::wire);
        assert(tag_of(self.wire()) == Some("editMessageReplyMarkup"@));
    }
}

/// Edits the text of an inline text or game message sent via a bot; for bots only
#[derive(Debug, Clone)]
pub struct EditInlineMessageText {
    /// Inline message identifier
    pub inline_message_id: String,
    /// The new message reply markup
    pub reply_markup: ReplyMarkup,
    /// New text content of the message. Should be of type InputMessageText
    pub input_message_content: InputMessageContent,
}

impl Wire for EditInlineMessageText {
    #[verifier::opaque]
    open spec fn wire(&self) -> Doc {
        tagged(
            Map::empty()
                .insert("inlineMessageId"@, self.inline_message_id.wire())
                .insert("replyMarkup"@, self.reply_markup.wire())
                .insert("inputMessageContent"@, self.input_message_content.wire()),
            "editInlineMessageText"@,
        )
    }

    #[verifier::opaque]
    open spec fn parse(d: Doc, at: Seq<char>) -> Result<Doc, Fault> {
        match d {
            Doc::Object(m) => {
                let inline_message_id = field::<String>(m, "inlineMessageId"@);
                let reply_markup = field::<ReplyMarkup>(m, "replyMarkup"@);
                let input_message_content = field::<InputMessageContent>(m, "inputMessageContent"@);
                if inline_message_id is Err {
                    inline_message_id
                } else if reply_markup is Err {
                    reply_markup
                } else if input_message_content is Err {
                    input_message_content
                } else {
                    Ok(
                        tagged(
                            Map::empty()
                                .insert("inlineMessageId"@, inline_message_id->Ok_0)
                                .insert("replyMarkup"@, reply_markup->Ok_0)
                                .insert("inputMessageContent"@, input_message_content->Ok_0),
                            "editInlineMessageText"@,
                        ),
                    )
                }
            },
            _ => Err(Fault::TypeMismatch(at)),
        }
    }

    fn encode(&self) -> (j: Json) {
        proof {
            reveal(<EditInlineMessageText as Wire>::wire);
        }
        let mut members: Vec<Member> = Vec::new();
        put(&mut members, "inlineMessageId", self.inline_message_id.encode());
        put(&mut members, "replyMarkup", self.reply_markup.encode());
        put(&mut members, "inputMessageContent", self.input_message_content.encode());
        seal(members, "editInlineMessageText")
    }

    fn decode(j: &Json, at: &str) -> (r: Result<Self, DecodeError>) {
        proof {
            reveal(<EditInlineMessageText as Wire>::wire);
            reveal(<EditInlineMessageText as Wire>::parse);
        }
        let members = members_of(j, at)?;
        let inline_message_id = read_field::<String>(members, "inlineMessageId")?;
        let reply_markup = read_field::<ReplyMarkup>(members, "replyMarkup")?;
        let input_message_content = read_field::<InputMessageContent>(
            members,
            "inputMessageContent",
        )?;
        Ok(EditInlineMessageText { inline_message_id, reply_markup, input_message_content })
    }

    proof fn round_trip(&self, at: Seq<char>) {
        reveal(<EditInlineMessageText as Wire>::wire);
        reveal(<EditInlineMessageText as Wire>::parse);
        reveal_strlit("@type");
        reveal_strlit("inlineMessageId");
        reveal_strlit("inputMessageContent");
        reveal_strlit("replyMarkup");
        assert("@type"@.len() == 5);
        assert("inlineMessageId"@.len() == 15);
        assert("inputMessageContent"@.len() == 19);
        assert("replyMarkup"@.len() == 11);
        self.inline_message_id.round_trip("inlineMessageId"@);
        self.reply_markup.round_trip("replyMarkup"@);
        self.input_message_content.round_trip("inputMessageContent"@);
    }
}

impl Tagged for EditInlineMessageText {
    open spec fn known(tag: Seq<char>) -> bool {
        tag == "editInlineMessageText"@
    }

    fn knows(tag: &str) -> (r: bool) {
        same_text(tag, "editInlineMessageText")
    }

    proof fn tag_known(&self) {
        reveal(<EditInlineMessageText as Wire>::wire);
        assert(tag_of(self.wire()) == Some("editInlineMessageText"@));
        assert(Self::known("editInlineMessageText"@));
    }
}

impl Method for EditInlineMessageText {
    const TYPE: &'static str = "editInlineMessageText";

    type Response = Okay;

    proof fn type_is_tag(&self) {
        reveal(<EditInlineMessageText as Wire>::wire);
        assert(tag_of(self.wire()) == Some("editInlineMessageText"@));
    }
}

/// Edits the content of a live location in an inline message sent via a bot; for bots only
#[derive(Debug, Clone)]
pub struct EditInlineMessageLiveLocation {
    /// Inline message identifier
    pub inline_message_id: String,
    /// The new message reply markup
    pub reply_markup: ReplyMarkup,
    /// New location content of the message; may be null. Pass null to stop sharing the live
    /// location
    pub location: Option<Location>,
}

impl Wire for EditInlineMessageLiveLocation {
    #[verifier::opaque]
    open spec fn wire(&self) -> Doc {
        tagged(
            Map::empty()
                .insert("inlineMessageId"@, self.inline_message_id.wire())
                .insert("replyMarkup"@, self.reply_markup.wire())
                .insert("location"@, self.location.wire()),
            "editInlineMessageLiveLocation"@,
        )
    }

    #[verifier::opaque]
    open spec fn parse(d: Doc, at: Seq<char>) -> Result<Doc, Fault> {
        match d {
            Doc::Object(m) => {
                let inline_message_id = field::<String>(m, "inlineMessageId"@);
                let reply_markup = field::<ReplyMarkup>(m, "replyMarkup"@);
                let location = optional_field::<Location>(m, "location"@);
                if inline_message_id is Err {
                    inline_message_id
                } else if reply_markup is Err {
                    reply_markup
                } else if location is Err {
                    location
                } else {
                    Ok(
                        tagged(
                            Map::empty()
                                .insert("inlineMessageId"@, inline_message_id->Ok_0)
                                .insert("replyMarkup"@, reply_markup->Ok_0)
                                .insert("location"@, location->Ok_0),
                            "editInlineMessageLiveLocation"@,
                        ),
                    )
                }
            },
            _ => Err(Fault::TypeMismatch(at)),
        }
    }

    fn encode(&self) -> (j: Json) {
        proof {
            reveal(<EditInlineMessageLiveLocation as Wire>::wire);
        }
        let mut members: Vec<Member> = Vec::new();
        put(&mut members, "inlineMessageId", self.inline_message_id.encode());
        put(&mut members, "replyMarkup", self.reply_markup.encode());
        put(&mut members, "location", self.location.encode());
        seal(members, "editInlineMessageLiveLocation")
    }

    fn decode(j: &Json, at: &str) -> (r: Result<Self, DecodeError>) {
        proof {
            reveal(<EditInlineMessageLiveLocation as Wire>::wire);
            reveal(<EditInlineMessageLiveLocation as Wire>::parse);
        }
        let members = members_of(j, at)?;
        let inline_message_id = read_field::<String>(members, "inlineMessageId")?;
        let reply_markup = read_field::<ReplyMarkup>(members, "replyMarkup")?;
        let location = read_optional::<Location>(members, "location")?;
        Ok(EditInlineMessageLiveLocation { inline_message_id, reply_markup, location })
    }

    proof fn round_trip(&self, at: Seq<char>) {
        reveal(<EditInlineMessageLiveLocation as Wire>::wire);
        reveal(<EditInlineMessageLiveLocation as Wire>::parse);
        reveal_strlit("@type");
        reveal_strlit("inlineMessageId");
        reveal_strlit("location");
        reveal_strlit("replyMarkup");
        assert("@type"@.len() == 5);
        assert("inlineMessageId"@.len() == 15);
        assert("location"@.len() == 8);
        assert("replyMarkup"@.len() == 11);
        self.inline_message_id.round_trip("inlineMessageId"@);
        self.reply_markup.round_trip("replyMarkup"@);
        self.location.round_trip("location"@);
    }
}

impl Tagged for EditInlineMessageLiveLocation {
    open spec fn known(tag: Seq<char>) -> bool {
        tag == "editInlineMessageLiveLocation"@
    }

    fn knows(tag: &str) -> (r: bool) {
        same_text(tag, "editInlineMessageLiveLocation")
    }

    proof fn tag_known(&self) {
        reveal(<EditInlineMessageLiveLocation as Wire>::wire);
        assert(tag_of(self.wire()) == Some("editInlineMessageLiveLocation"@));
        assert(Self::known("editInlineMessageLiveLocation"@));
    }
}

impl Method for EditInlineMessageLiveLocation {
    const TYPE: &'static str = "editInlineMessageLiveLocation";

    type Response = Okay;

    proof fn type_is_tag(&self) {
        reveal(<EditInlineMessageLiveLocation as Wire>::wire);
        assert(tag_of(self.wire()) == Some("editInlineMessageLiveLocation"@));
    }
}

/// Edits the content of a message with an animation, an audio, a document, a photo or a video in an
/// inline message sent via a bot; for bots only
#[derive(Debug, Clone)]
pub struct EditInlineMessageMedia {
    /// Inline message identifier
    pub inline_message_id: String,
    /// The new message reply markup; for bots only
    pub reply_markup: Option<ReplyMarkup>,
    /// New content of the message. Must be one of the following types: InputMessageAnimation,
    /// InputMessageAudio, InputMessageDocument, InputMessagePhoto or InputMessageVideo
    pub input_message_content: InputMessageContent,
}

impl Wire for EditInlineMessageMedia {
    #[verifier::opaque]
    open spec fn wire(&self) -> Doc {
        tagged(
            Map::empty()
                .insert("inlineMessageId"@, self.inline_message_id.wire())
                .insert("replyMarkup"@, self.reply_markup.wire())
                .insert("inputMessageContent"@, self.input_message_content.wire()),
            "editInlineMessageMedia"@,
        )
    }

    #[verifier::opaque]
    open spec fn parse(d: Doc, at: Seq<char>) -> Result<Doc, Fault> {
        match d {
            Doc::Object(m) => {
                let inline_message_id = field::<String>(m, "inlineMessageId"@);
                let reply_markup = optional_field::<ReplyMarkup>(m, "replyMarkup"@);
                let input_message_content = field::<InputMessageContent>(m, "inputMessageContent"@);
                if inline_message_id is Err {
                    inline_message_id
                } else if reply_markup is Err {
                    reply_markup
                } else if input_message_content is Err {
                    input_message_content
                } else {
                    Ok(
                        tagged(
                            Map::empty()
                                .insert("inlineMessageId"@, inline_message_id->Ok_0)
                                .insert("replyMarkup"@, reply_markup->Ok_0)
                                .insert("inputMessageContent"@, input_message_content->Ok_0),
                            "editInlineMessageMedia"@,
                        ),
                    )
                }
            },
            _ => Err(Fault::TypeMismatch(at)),
        }
    }

    fn encode(&self) -> (j: Json) {
        proof {
            reveal(<EditInlineMessageMedia as Wire>::wire);
        }
        let mut members: Vec<Member> = Vec::new();
        put(&mut members, "inlineMessageId", self.inline_message_id.encode());
        put(&mut members, "replyMarkup", self.reply_markup.encode());
        put(&mut members, "inputMessageContent", self.input_message_content.encode());
        seal(members, "editInlineMessageMedia")
    }

    fn decode(j: &Json, at: &str) -> (r: Result<Self, DecodeError>) {
        proof {
            reveal(<EditInlineMessageMedia as Wire>::wire);
            reveal(<EditInlineMessageMedia as Wire>::parse);
        }
        let members = members_of(j, at)?;
        let inline_message_id = read_field::<String>(members, "inlineMessageId")?;
        let reply_markup = read_optional::<ReplyMarkup>(members, "replyMarkup")?;
        let input_message_content = read_field::<InputMessageContent>(
            members,
            "inputMessageContent",
        )?;
        Ok(EditInlineMessageMedia { inline_message_id, reply_markup, input_message_content })
    }

    proof fn round_trip(&self, at: Seq<char>) {
        reveal(<EditInlineMessageMedia as Wire>::wire);
        reveal(<EditInlineMessageMedia as Wire>::parse);
        reveal_strlit("@type");
        reveal_strlit("inlineMessageId");
        reveal_strlit("inputMessageContent");
        reveal_strlit("replyMarkup");
        assert("@type"@.len() == 5);
        assert("inlineMessageId"@.len() == 15);
        assert("inputMessageContent"@.len() == 19);
        assert("replyMarkup"@.len() == 11);
        self.inline_message_id.round_trip("inlineMessageId"@);
        self.reply_markup.round_trip("replyMarkup"@);
        self.input_message_content.round_trip("inputMessageContent"@);
    }
}

impl Tagged for EditInlineMessageMedia {
    open spec fn known(tag: Seq<char>) -> bool {
        tag == "editInlineMessageMedia"@
    }

    fn knows(tag: &str) -> (r: bool) {
        same_text(tag, "editInlineMessageMedia")
    }

    proof fn tag_known(&self) {
        reveal(<EditInlineMessageMedia as Wire>::wire);
        assert(tag_of(self.wire()) == Some("editInlineMessageMedia"@));
        assert(Self::known("editInlineMessageMedia"@));
    }
}

impl Method for EditInlineMessageMedia {
    const TYPE: &'static str = "editInlineMessageMedia";

    type Response = Okay;

    proof fn type_is_tag(&self) {
        reveal(<EditInlineMessageMedia as Wire>::wire);
        assert(tag_of(self.wire()) == Some("editInlineMessageMedia"@));
    }
}

/// Edits the caption of an inline message sent via a bot; for bots only
#[derive(Debug, Clone)]
pub struct EditInlineMessageCaption {
    /// Inline message identifier
    pub inline_message_id: String,
    /// The new message reply markup
    pub reply_markup: ReplyMarkup,
    /// New message content caption; 0-GetOption("message_caption_length_max") characters
    pub caption: FormattedText,
}

impl Wire for EditInlineMessageCaption {
    #[verifier::opaque]
    open spec fn wire(&self) -> Doc {
        tagged(
            Map::empty()
                .insert("inlineMessageId"@, self.inline_message_id.wire())
                .insert("replyMarkup"@, self.reply_markup.wire())
                .insert("caption"@, self.caption.wire()),
            "editInlineMessageCaption"@,
        )
    }

    #[verifier::opaque]
    open spec fn parse(d: Doc, at: Seq<char>) -> Result<Doc, Fault> {
        match d {
            Doc::Object(m) => {
                let inline_message_id = field::<String>(m, "inlineMessageId"@);
                let reply_markup = field::<ReplyMarkup>(m, "replyMarkup"@);
                let caption = field::<FormattedText>(m, "caption"@);
                if inline_message_id is Err {
                    inline_message_id
                } else if reply_markup is Err {
                    reply_markup
                } else if caption is Err {
                    caption
                } else {
                    Ok(
                        tagged(
                            Map::empty()
                                .insert("inlineMessageId"@, inline_message_id->Ok_0)
                                .insert("replyMarkup"@, reply_markup->Ok_0)
                                .insert("caption"@, caption->Ok_0),
                            "editInlineMessageCaption"@,
                        ),
                    )
                }
            },
            _ => Err(Fault::TypeMismatch(at)),
        }
    }

    fn encode(&self) -> (j: Json) {
        proof {
            reveal(<EditInlineMessageCaption as Wire>::wire);
        }
        let mut members: Vec<Member> = Vec::new();
        put(&mut members, "inlineMessageId", self.inline_message_id.encode());
        put(&mut members, "replyMarkup", self.reply_markup.encode());
        put(&mut members, "caption", self.caption.encode());
        seal(members, "editInlineMessageCaption")
    }

    fn decode(j: &Json, at: &str) -> (r: Result<Self, DecodeError>) {
        proof {
            reveal(<EditInlineMessageCaption as Wire>::wire);
            reveal(<EditInlineMessageCaption as Wire>::parse);
        }
        let members = members_of(j, at)?;
        let inline_message_id = read_field::<String>(members, "inlineMessageId")?;
        let reply_markup = read_field::<ReplyMarkup>(members, "replyMarkup")?;
        let caption = read_field::<FormattedText>(members, "caption")?;
        Ok(EditInlineMessageCaption { inline_message_id, reply_markup, caption })
    }

    proof fn round_trip(&self, at: Seq<char>) {
        reveal(<EditInlineMessageCaption as Wire>::wire);
        reveal(<EditInlineMessageCaption as Wire>::parse);
        reveal_strlit("@type");
        reveal_strlit("caption");
        reveal_strlit("inlineMessageId");
        reveal_strlit("replyMarkup");
        assert("@type"@.len() == 5);
        assert("caption"@.len() == 7);
        assert("inlineMessageId"@.len() == 15);
        assert("replyMarkup"@.len() == 11);
        self.inline_message_id.round_trip("inlineMessageId"@);
        self.reply_markup.round_trip("replyMarkup"@);
        self.caption.round_trip("caption"@);
    }
}

impl Tagged for EditInlineMessageCaption {
    open spec fn known(tag: Seq<char>) -> bool {
        tag == "editInlineMessageCaption"@
    }

    fn knows(tag: &str) -> (r: bool) {
        same_text(tag, "editInlineMessageCaption")
    }

    proof fn tag_known(&self) {
        reveal(<EditInlineMessageCaption as Wire>::wire);
        assert(tag_of(self.wire()) == Some("editInlineMessageCaption"@));
        assert(Self::known("editInlineMessageCaption"@));
    }
}

impl Method for EditInlineMessageCaption {
    const TYPE: &'static str = "editInlineMessageCaption";

    type Response = Okay;

    proof fn type_is_tag(&self) {
        reveal(<EditInlineMessageCaption as Wire>::wire);
        assert(tag_of(self.wire()) == Some("editInlineMessageCaption"@));
    }
}

/// Edits the reply markup of an inline message sent via a bot; for bots only
#[derive(Debug, Clone)]
pub struct EditInlineMessageReplyMarkup {
    /// Inline message identifier
    pub inline_message_id: String,
    /// The new message reply markup
    pub reply_markup: ReplyMarkup,
}

impl Wire for EditInlineMessageReplyMarkup {
    #[verifier::opaque]
    open spec fn wire(&self) -> Doc {
        tagged(
            Map::empty()
                .insert("inlineMessageId"@, self.inline_message_id.wire())
                .insert("replyMarkup"@, self.reply_markup.wire()),
            "editInlineMessageReplyMarkup"@,
        )
    }

    #[verifier::opaque]
    open spec fn parse(d: Doc, at: Seq<char>) -> Result<Doc, Fault> {
        match d {
            Doc::Object(m) => {
                let inline_message_id = field::<String>(m, "inlineMessageId"@);
                let reply_markup = field::<ReplyMarkup>(m, "replyMarkup"@);
                if inline_message_id is Err {
                    inline_message_id
                } else if reply_markup is Err {
                    reply_markup
                } else {
                    Ok(
                        tagged(
                            Map::empty()
                                .insert("inlineMessageId"@, inline_message_id->Ok_0)
                                .insert("replyMarkup"@, reply_markup->Ok_0),
                            "editInlineMessageReplyMarkup"@,
                        ),
                    )
                }
            },
            _ => Err(Fault::TypeMismatch(at)),
        }
    }

    fn encode(&self) -> (j: Json) {
        proof {
            reveal(<EditInlineMessageReplyMarkup as Wire>::wire);
        }
        let mut members: Vec<Member> = Vec::new();
        put(&mut members, "inlineMessageId", self.inline_message_id.encode());
        put(&mut members, "replyMarkup", self.reply_markup.encode());
        seal(members, "editInlineMessageReplyMarkup")
    }

    fn decode(j: &Json, at: &str) -> (r: Result<Self, DecodeError>) {
        proof {
            reveal(<EditInlineMessageReplyMarkup as Wire>::wire);
            reveal(<EditInlineMessageReplyMarkup as Wire>::parse);
        }
        let members = members_of(j, at)?;
        let inline_message_id = read_field::<String>(members, "inlineMessageId")?;
        let reply_markup = read_field::<ReplyMarkup>(members, "replyMarkup")?;
        Ok(EditInlineMessageReplyMarkup { inline_message_id, reply_markup })
    }

    proof fn round_trip(&self, at: Seq<char>) {
        reveal(<EditInlineMessageReplyMarkup as Wire>::wire);
        reveal(<EditInlineMessageReplyMarkup as Wire>::parse);
        reveal_strlit("@type");
        reveal_strlit("inlineMessageId");
        reveal_strlit("replyMarkup");
        assert("@type"@.len() == 5);
        assert("inlineMessageId"@.len() == 15);
        assert("replyMarkup"@.len() == 11);
        self.inline_message_id.round_trip("inlineMessageId"@);
        self.reply_markup.round_trip("replyMarkup"@);
    }
}

impl Tagged for EditInlineMessageReplyMarkup {
    open spec fn known(tag: Seq<char>) -> bool {
        tag == "editInlineMessageReplyMarkup"@
    }

    fn knows(tag: &str) -> (r: bool) {
        same_text(tag, "editInlineMessageReplyMarkup")
    }

    proof fn tag_known(&self) {
        reveal(<EditInlineMessageReplyMarkup as Wire>::wire);
        assert(tag_of(self.wire()) == Some("editInlineMessageReplyMarkup"@));
        assert(Self::known("editInlineMessageReplyMarkup"@));
    }
}

impl Method for EditInlineMessageReplyMarkup {
    const TYPE: &'static str = "editInlineMessageReplyMarkup";

    type Response = Okay;

    proof fn type_is_tag(&self) {
        reveal(<EditInlineMessageReplyMarkup as Wire>::wire);
        assert(tag_of(self.wire()) == Some("editInlineMessageReplyMarkup"@));
    }
}

/// Edits the time when a scheduled message will be sent. Scheduling state of all messages in the
/// same album or forwarded together with the message will be also changed
#[derive(Debug, Clone)]
pub struct EditMessageSchedulingState {
    /// The chat the message belongs to
    pub chat_id: i64,
    /// Identifier of the message
    pub message_id: i64,
    /// The new message scheduling state. Pass null to send the message immediately
    pub scheduling_state: MessageSchedulingState,
}

impl Wire for EditMessageSchedulingState {
    #[verifier::opaque]
    open spec fn wire(&self) -> Doc {
        tagged(
            Map::empty()
                .insert("chatId"@, self.chat_id.wire())
                .insert("messageId"@, self.message_id.wire())
                .insert("schedulingState"@, self.scheduling_state.wire()),
            "editMessageSchedulingState"@,
        )
    }

    #[verifier::opaque]
    open spec fn parse(d: Doc, at: Seq<char>) -> Result<Doc, Fault> {
        match d {
            Doc::Object(m) => {
                let chat_id = field::<i64>(m, "chatId"@);
                let message_id = field::<i64>(m, "messageId"@);
                let scheduling_state = field::<MessageSchedulingState>(m, "schedulingState"@);
                if chat_id is Err {
                    chat_id
                } else if message_id is Err {
                    message_id
                } else if scheduling_state is Err {
                    scheduling_state
                } else {
                    Ok(
                        tagged(
                            Map::empty()
                                .insert("chatId"@, chat_id->Ok_0)
                                .insert("messageId"@, message_id->Ok_0)
                                .insert("schedulingState"@, scheduling_state->Ok_0),
                            "editMessageSchedulingState"@,
                        ),
                    )
                }
            },
            _ => Err(Fault::TypeMismatch(at)),
        }
    }

    fn encode(&self) -> (j: Json) {
        proof {
            reveal(<EditMessageSchedulingState as Wire>::wire);
        }
        let mut members: Vec<Member> = Vec::new();
        put(&mut members, "chatId", self.chat_id.encode());
        put(&mut members, "messageId", self.message_id.encode());
        put(&mut members, "schedulingState", self.scheduling_state.encode());
        seal(members, "editMessageSchedulingState")
    }

    fn decode(j: &Json, at: &str) -> (r: Result<Self, DecodeError>) {
        proof {
            reveal(<EditMessageSchedulingState as Wire>::wire);
            reveal(<EditMessageSchedulingState as Wire>::parse);
        }
        let members = members_of(j, at)?;
        let chat_id = read_field::<i64>(members, "chatId")?;
        let message_id = read_field::<i64>(members, "messageId")?;
        let scheduling_state = read_field::<MessageSchedulingState>(members, "schedulingState")?;
        Ok(EditMessageSchedulingState { chat_id, message_id, scheduling_state })
    }

    proof fn round_trip(&self, at: Seq<char>) {
        reveal(<EditMessageSchedulingState as Wire>::wire);
        reveal(<EditMessageSchedulingState as Wire>::parse);
        reveal_strlit("@type");
        reveal_strlit("chatId");
        reveal_strlit("messageId");
        reveal_strlit("schedulingState");
        assert("@type"@.len() == 5);
        assert("chatId"@.len() == 6);
        assert("messageId"@.len() == 9);
        assert("schedulingState"@.len() == 15);
        self.chat_id.round_trip("chatId"@);
        self.message_id.round_trip("messageId"@);
        self.scheduling_state.round_trip("schedulingState"@);
    }
}

impl Tagged for EditMessageSchedulingState {
    open spec fn known(tag: Seq<char>) -> bool {
        tag == "editMessageSchedulingState"@
    }

    fn knows(tag: &str) -> (r: bool) {
        same_text(tag, "editMessageSchedulingState")
    }

    proof fn tag_known(&self) {
        reveal(<EditMessageSchedulingState as Wire>::wire);
        assert(tag_of(self.wire()) == Some("editMessageSchedulingState"@));
        assert(Self::known("editMessageSchedulingState"@));
    }
}

impl Method for EditMessageSchedulingState {
    const TYPE: &'static str = "editMessageSchedulingState";

    type Response = Okay;

    proof fn type_is_tag(&self) {
        reveal(<EditMessageSchedulingState as Wire>::wire);
        assert(tag_of(self.wire()) == Some("editMessageSchedulingState"@));
    }
}

/// Returns all entities (mentions, hashtags, cashtags, bot commands, URLs, and email addresses)
/// contained in the text. This is an offline method. Can be called before authorization. Can be
/// called synchronously
#[derive(Debug, Clone)]
pub struct GetTextEntities {
    /// The text in which to look for entites
    pub text: String,
}

impl Wire for GetTextEntities {
    #[verifier::opaque]
    open spec fn wire(&self) -> Doc {
        tagged(
            Map::empty()
                .insert("text"@, self.text.wire()),
            "getTextEntities"@,
        )
    }

    #[verifier::opaque]
    open spec fn parse(d: Doc, at: Seq<char>) -> Result<Doc, Fault> {
        match d {
            Doc::Object(m) => {
                let text = field::<String>(m, "text"@);
                if text is Err {
                    text
                } else {
                    Ok(
                        tagged(
                            Map::empty()
                                .insert("text"@, text->Ok_0),
                            "getTextEntities"@,
                        ),
                    )
                }
            },
            _ => Err(Fault::TypeMismatch(at)),
        }
    }

    fn encode(&self) -> (j: Json) {
        proof {
            reveal(<GetTextEntities as Wire>::wire);
        }
        let mut members: Vec<Member> = Vec::new();
        put(&mut members, "text", self.text.encode());
        seal(members, "getTextEntities")
    }

    fn decode(j: &Json, at: &str) -> (r: Result<Self, DecodeError>) {
        proof {
            reveal(<GetTextEntities as Wire>::wire);
            reveal(<GetTextEntities as Wire>::parse);
        }
        let members = members_of(j, at)?;
        let text = read_field::<String>(members, "text")?;
        Ok(GetTextEntities { text })
    }

    proof fn round_trip(&self, at: Seq<char>) {
        reveal(<GetTextEntities as Wire>::wire);
        reveal(<GetTextEntities as Wire>::parse);
        reveal_strlit("@type");
        reveal_strlit("text");
        assert("@type"@.len() == 5);
        assert("text"@.len() == 4);
        self.text.round_trip("text"@);
    }
}

impl Tagged for GetTextEntities {
    open spec fn known(tag: Seq<char>) -> bool {
        tag == "getTextEntities"@
    }

    fn knows(tag: &str) -> (r: bool) {
        same_text(tag, "getTextEntities")
    }

    proof fn tag_known(&self) {
        reveal(<GetTextEntities as Wire>::wire);
        assert(tag_of(self.wire()) == Some("getTextEntities"@));
        assert(Self::known("getTextEntities"@));
    }
}

impl Method for GetTextEntities {
    const TYPE: &'static str = "getTextEntities";

    type Response = TextEntities;

    proof fn type_is_tag(&self) {
        reveal(<GetTextEntities as Wire>::wire);
        assert(tag_of(self.wire()) == Some("getTextEntities"@));
    }
}

/// Parses Bold, Italic, Underline, Strikethrough, Code, Pre, PreCode, TextUrl and MentionName
/// entities contained in the text. This is an offline method. Can be called before authorization.
/// Can be called synchronously
#[derive(Debug, Clone)]
pub struct ParseTextEntities {
    /// The text which should be parsed
    pub text: String,
    /// Text parse mode
    pub parse_mode: TextParseMode,
}

impl Wire for ParseTextEntities {
    #[verifier::opaque]
    open spec fn wire(&self) -> Doc {
        tagged(
            Map::empty()
                .insert("text"@, self.text.wire())
                .insert("parseMode"@, self.parse_mode.wire()),
            "parseTextEntities"@,
        )
    }

    #[verifier::opaque]
    open spec fn parse(d: Doc, at: Seq<char>) -> Result<Doc, Fault> {
        match d {
            Doc::Object(m) => {
                let text = field::<String>(m, "text"@);
                let parse_mode = field::<TextParseMode>(m, "parseMode"@);
                if text is Err {
                    text
                } else if parse_mode is Err {
                    parse_mode
                } else {
                    Ok(
                        tagged(
                            Map::empty()
                                .insert("text"@, text->Ok_0)
                                .insert("parseMode"@, parse_mode->Ok_0),
                            "parseTextEntities"@,
                        ),
                    )
                }
            },
            _ => Err(Fault::TypeMismatch(at)),
        }
    }

    fn encode(&self) -> (j: Json) {
        proof {
            reveal(<ParseTextEntities as Wire>::wire);
        }
        let mut members: Vec<Member> = Vec::new();
        put(&mut members, "text", self.text.encode());
        put(&mut members, "parseMode", self.parse_mode.encode());
        seal(members, "parseTextEntities")
    }

    fn decode(j: &Json, at: &str) -> (r: Result<Self, DecodeError>) {
        proof {
            reveal(<ParseTextEntities as Wire>::wire);
            reveal(<ParseTextEntities as Wire>::parse);
        }
        let members = members_of(j, at)?;
        let text = read_field::<String>(members, "text")?;
        let parse_mode = read_field::<TextParseMode>(members, "parseMode")?;
        Ok(ParseTextEntities { text, parse_mode })
    }

    proof fn round_trip(&self, at: Seq<char>) {
        reveal(<ParseTextEntities as Wire>::wire);
        reveal(<ParseTextEntities as Wire>::parse);
        reveal_strlit("@type");
        reveal_strlit("parseMode");
        reveal_strlit("text");
        assert("@type"@.len() == 5);
        assert("parseMode"@.len() == 9);
        assert("text"@.len() == 4);
        self.text.round_trip("text"@);
        self.parse_mode.round_trip("parseMode"@);
    }
}

impl Tagged for ParseTextEntities {
    open spec fn known(tag: Seq<char>) -> bool {
        tag == "parseTextEntities"@
    }

    fn knows(tag: &str) -> (r: bool) {
        same_text(tag, "parseTextEntities")
    }

    proof fn tag_known(&self) {
        reveal(<ParseTextEntities as Wire>::wire);
        assert(tag_of(self.wire()) == Some("parseTextEntities"@));
        assert(Self::known("parseTextEntities"@));
    }
}

impl Method for ParseTextEntities {
    const TYPE: &'static str = "parseTextEntities";

    type Response = FormattedText;

    proof fn type_is_tag(&self) {
        reveal(<ParseTextEntities as Wire>::wire);
        assert(tag_of(self.wire()) == Some("parseTextEntities"@));
    }
}

/// Returns the MIME type of a file, guessed by its extension. Returns an empty string on failure.
/// This is an offline method. Can be called before authorization. Can be called synchronously
#[derive(Debug, Clone)]
pub struct GetFileMimeType {
    /// The name of the file or path to the file
    pub file_name: String,
}

impl Wire for GetFileMimeType {
    #[verifier::opaque]
    open spec fn wire(&self) -> Doc {
        tagged(
            Map::empty()
                .insert("fileName"@, self.file_name.wire()),
            "getFileMimeType"@,
        )
    }

    #[verifier::opaque]
    open spec fn parse(d: Doc, at: Seq<char>) -> Result<Doc, Fault> {
        match d {
            Doc::Object(m) => {
                let file_name = field::<String>(m, "fileName"@);
                if file_name is Err {
                    file_name
                } else {
                    Ok(
                        tagged(
                            Map::empty()
                                .insert("fileName"@, file_name->Ok_0),
                            "getFileMimeType"@,
                        ),
                    )
                }
            },
            _ => Err(Fault::TypeMismatch(at)),
        }
    }

    fn encode(&self) -> (j: Json) {
        proof {
            reveal(<GetFileMimeType as Wire>::wire);
        }
        let mut members: Vec<Member> = Vec::new();
        put(&mut members, "fileName", self.file_name.encode());
        seal(members, "getFileMimeType")
    }

    fn decode(j: &Json, at: &str) -> (r: Result<Self, DecodeError>) {
        proof {
            reveal(<GetFileMimeType as Wire>::wire);
            reveal(<GetFileMimeType as Wire>::parse);
        }
        let members = members_of(j, at)?;
        let file_name = read_field::<String>(members, "fileName")?;
        Ok(GetFileMimeType { file_name })
    }

    proof fn round_trip(&self, at: Seq<char>) {
        reveal(<GetFileMimeType as Wire>::wire);
        reveal(<GetFileMimeType as Wire>::parse);
        reveal_strlit("@type");
        reveal_strlit("fileName");
        assert("@type"@.len() == 5);
        assert("fileName"@.len() == 8);
        self.file_name.round_trip("fileName"@);
    }
}

impl Tagged for GetFileMimeType {
    open spec fn known(tag: Seq<char>) -> bool {
        tag == "getFileMimeType"@
    }

    fn knows(tag: &str) -> (r: bool) {
        same_text(tag, "getFileMimeType")
    }

    proof fn tag_known(&self) {
        reveal(<GetFileMimeType as Wire>::wire);
        assert(tag_of(self.wire()) == Some("getFileMimeType"@));
        assert(Self::known("getFileMimeType"@));
    }
}

impl Method for GetFileMimeType {
    const TYPE: &'static str = "getFileMimeType";

    type Response = Text;

    proof fn type_is_tag(&self) {
        reveal(<GetFileMimeType as Wire>::wire);
        assert(tag_of(self.wire()) == Some("getFileMimeType"@));
    }
}

/// Returns the extension of a file, guessed by its MIME type. Returns an empty string on failure.
/// This is an offline method. Can be called before authorization. Can be called synchronously
#[derive(Debug, Clone)]
pub struct GetFileExtension {
    /// The MIME type of the file
    pub mime_type: String,
}

impl Wire for GetFileExtension {
    #[verifier::opaque]
    open spec fn wire(&self) -> Doc {
        tagged(
            Map::empty()
                .insert("mimeType"@, self.mime_type.wire()),
            "getFileExtension"@,
        )
    }

    #[verifier::opaque]
    open spec fn parse(d: Doc, at: Seq<char>) -> Result<Doc, Fault> {
        match d {
            Doc::Object(m) => {
                let mime_type = field::<String>(m, "mimeType"@);
                if mime_type is Err {
                    mime_type
                } else {
                    Ok(
                        tagged(
                            Map::empty()
                                .insert("mimeType"@, mime_type->Ok_0),
                            "getFileExtension"@,
                        ),
                    )
                }
            },
            _ => Err(Fault::TypeMismatch(at)),
        }
    }

    fn encode(&self) -> (j: Json) {
        proof {
            reveal(<GetFileExtension as Wire>::wire);
        }
        let mut members: Vec<Member> = Vec::new();
        put(&mut members, "mimeType", self.mime_type.encode());
        seal(members, "getFileExtension")
    }

    fn decode(j: &Json, at: &str) -> (r: Result<Self, DecodeError>) {
        proof {
            reveal(<GetFileExtension as Wire>::wire);
            reveal(<GetFileExtension as Wire>::parse);
        }
        let members = members_of(j, at)?;
        let mime_type = read_field::<String>(members, "mimeType")?;
        Ok(GetFileExtension { mime_type })
    }

    proof fn round_trip(&self, at: Seq<char>) {
        reveal(<GetFileExtension as Wire>::wire);
        reveal(<GetFileExtension as Wire>::parse);
        reveal_strlit("@type");
        reveal_strlit("mimeType");
        assert("@type"@.len() == 5);
        assert("mimeType"@.len() == 8);
        self.mime_type.round_trip("mimeType"@);
    }
}

impl Tagged for GetFileExtension {
    open spec fn known(tag: Seq<char>) -> bool {
        tag == "getFileExtension"@
    }

    fn knows(tag: &str) -> (r: bool) {
        same_text(tag, "getFileExtension")
    }

    proof fn tag_known(&self) {
        reveal(<GetFileExtension as Wire>::wire);
        assert(tag_of(self.wire()) == Some("getFileExtension"@));
        assert(Self::known("getFileExtension"@));
    }
}

impl Method for GetFileExtension {
    const TYPE: &'static str = "getFileExtension";

    type Response = Text;

    proof fn type_is_tag(&self) {
        reveal(<GetFileExtension as Wire>::wire);
        assert(tag_of(self.wire()) == Some("getFileExtension"@));
    }
}

/// Removes potentially dangerous characters from the name of a file. The encoding of the file name
/// is supposed to be UTF-8. Returns an empty string on failure. This is an offline method. Can be
/// called before authorization. Can be called synchronously
#[derive(Debug, Clone)]
pub struct CleanFileName {
    /// File name or path to the file
    pub file_name: String,
}

impl Wire for CleanFileName {
    #[verifier::opaque]
    open spec fn wire(&self) -> Doc {
        tagged(
            Map::empty()
                .insert("fileName"@, self.file_name.wire()),
            "cleanFileName"@,
        )
    }

    #[verifier::opaque]
    open spec fn parse(d: Doc, at: Seq<char>) -> Result<Doc, Fault> {
        match d {
            Doc::Object(m) => {
                let file_name = field::<String>(m, "fileName"@);
                if file_name is Err {
                    file_name
                } else {
                    Ok(
                        tagged(
                            Map::empty()
                                .insert("fileName"@, file_name->Ok_0),
                            "cleanFileName"@,
                        ),
                    )
                }
            },
            _ => Err(Fault::TypeMismatch(at)),
        }
    }

    fn encode(&self) -> (j: Json) {
        proof {
            reveal(<CleanFileName as Wire>::wire);
        }
        let mut members: Vec<Member> = Vec::new();
        put(&mut members, "fileName", self.file_name.encode());
        seal(members, "cleanFileName")
    }

    fn decode(j: &Json, at: &str) -> (r: Result<Self, DecodeError>) {
        proof {
            reveal(<CleanFileName as Wire>::wire);
            reveal(<CleanFileName as Wire>::parse);
        }
        let members = members_of(j, at)?;
        let file_name = read_field::<String>(members, "fileName")?;
        Ok(CleanFileName { file_name })
    }

    proof fn round_trip(&self, at: Seq<char>) {
        reveal(<CleanFileName as Wire>::wire);
        reveal(<CleanFileName as Wire>::parse);
        reveal_strlit("@type");
        reveal_strlit("fileName");
        assert("@type"@.len() == 5);
        assert("fileName"@.len() == 8);
        self.file_name.round_trip("fileName"@);
    }
}

impl Tagged for CleanFileName {
    open spec fn known(tag: Seq<char>) -> bool {
        tag == "cleanFileName"@
    }

    fn knows(tag: &str) -> (r: bool) {
        same_text(tag, "cleanFileName")
    }

    proof fn tag_known(&self) {
        reveal(<CleanFileName as Wire>::wire);
        assert(tag_of(self.wire()) == Some("cleanFileName"@));
        assert(Self::known("cleanFileName"@));
    }
}

impl Method for CleanFileName {
    const TYPE: &'static str = "cleanFileName";

    type Response = Text;

    proof fn type_is_tag(&self) {
        reveal(<CleanFileName as Wire>::wire);
        assert(tag_of(self.wire()) == Some("cleanFileName"@));
    }
}

/// Returns a string stored in the local database from the specified localization target and
/// language pack by its key. Returns a 404 error if the string is not found. This is an offline
/// method. Can be called before authorization. Can be called synchronously
#[derive(Debug, Clone)]
pub struct GetLanguagePackString {
    /// Path to the language pack database in which strings are stored
    pub language_pack_database_path: String,
    /// Localization target to which the language pack belongs
    pub localization_target: String,
    /// Language pack identifier
    pub language_pack_id: String,
    /// Language pack key of the string to be returned
    pub key: String,
}

impl Wire for GetLanguagePackString {
    #[verifier::opaque]
    open spec fn wire(&self) -> Doc {
        tagged(
            Map::empty()
                .insert("languagePackDatabasePath"@, self.language_pack_database_path.wire())
                .insert("localizationTarget"@, self.localization_target.wire())
                .insert("languagePackId"@, self.language_pack_id.wire())
                .insert("key"@, self.key.wire()),
            "getLanguagePackString"@,
        )
    }

    #[verifier::opaque]
    open spec fn parse(d: Doc, at: Seq<char>) -> Result<Doc, Fault> {
        match d {
            Doc::Object(m) => {
                let language_pack_database_path = field::<String>(m, "languagePackDatabasePath"@);
                let localization_target = field::<String>(m, "localizationTarget"@);
                let language_pack_id = field::<String>(m, "languagePackId"@);
                let key = field::<String>(m, "key"@);
                if language_pack_database_path is Err {
                    language_pack_database_path
                } else if localization_target is Err {
                    localization_target
                } else if language_pack_id is Err {
                    language_pack_id
                } else if key is Err {
                    key
                } else {
                    Ok(
                        tagged(
                            Map::empty()
                                .insert(
                                    "languagePackDatabasePath"@,
                                    language_pack_database_path->Ok_0,
                                )
                                .insert("localizationTarget"@, localization_target->Ok_0)
                                .insert("languagePackId"@, language_pack_id->Ok_0)
                                .insert("key"@, key->Ok_0),
                            "getLanguagePackString"@,
                        ),
                    )
                }
            },
            _ => Err(Fault::TypeMismatch(at)),
        }
    }

    fn encode(&self) -> (j: Json) {
        proof {
            reveal(<GetLanguagePackString as Wire>::wire);
        }
        let mut members: Vec<Member> = Vec::new();
        put(&mut members, "languagePackDatabasePath", self.language_pack_database_path.encode());
        put(&mut members, "localizationTarget", self.localization_target.encode());
        put(&mut members, "languagePackId", self.language_pack_id.encode());
        put(&mut members, "key", self.key.encode());
        seal(members, "getLanguagePackString")
    }

    fn decode(j: &Json, at: &str) -> (r: Result<Self, DecodeError>) {
        proof {
            reveal(<GetLanguagePackString as Wire>::wire);
            reveal(<GetLanguagePackString as Wire>::parse);
        }
        let members = members_of(j, at)?;
        let language_pack_database_path = read_field::<String>(
            members,
            "languagePackDatabasePath",
        )?;
        let localization_target = read_field::<String>(members, "localizationTarget")?;
        let language_pack_id = read_field::<String>(members, "languagePackId")?;
        let key = read_field::<String>(members, "key")?;
        Ok(GetLanguagePackString {
            language_pack_database_path,
            localization_target,
            language_pack_id,
            key,
        })
    }

    proof fn round_trip(&self, at: Seq<char>) {
        reveal(<GetLanguagePackString as Wire>::wire);
        reveal(<GetLanguagePackString as Wire>::parse);
        reveal_strlit("@type");
        reveal_strlit("key");
        reveal_strlit("languagePackDatabasePath");
        reveal_strlit("languagePackId");
        reveal_strlit("localizationTarget");
        assert("@type"@.len() == 5);
        assert("key"@.len() == 3);
        assert("languagePackDatabasePath"@.len() == 24);
        assert("languagePackId"@.len() == 14);
        assert("localizationTarget"@.len() == 18);
        self.language_pack_database_path.round_trip("languagePackDatabasePath"@);
        self.localization_target.round_trip("localizationTarget"@);
        self.language_pack_id.round_trip("languagePackId"@);
        self.key.round_trip("key"@);
    }
}

impl Tagged for GetLanguagePackString {
    open spec fn known(tag: Seq<char>) -> bool {
        tag == "getLanguagePackString"@
    }

    fn knows(tag: &str) -> (r: bool) {
        same_text(tag, "getLanguagePackString")
    }

    proof fn tag_known(&self) {
        reveal(<GetLanguagePackString as Wire>::wire);
        assert(tag_of(self.wire()) == Some("getLanguagePackString"@));
        assert(Self::known("getLanguagePackString"@));
    }
}

impl Method for GetLanguagePackString {
    const TYPE: &'static str = "getLanguagePackString";

    type Response = LanguagePackStringValue;

    proof fn type_is_tag(&self) {
        reveal(<GetLanguagePackString as Wire>::wire);
        assert(tag_of(self.wire()) == Some("getLanguagePackString"@));
    }
}

/// Converts a JSON-serialized string to corresponding JsonValue object. This is an offline method.
/// Can be called before authorization. Can be called synchronously
#[derive(Debug, Clone)]
pub struct GetJsonValue {
    /// The JSON-serialized string
    pub json: String,
}

impl Wire for GetJsonValue {
    #[verifier::opaque]
    open spec fn wire(&self) -> Doc {
        tagged(
            Map::empty()
                .insert("json"@, self.json.wire()),
            "getJsonValue"@,
        )
    }

    #[verifier::opaque]
    open spec fn parse(d: Doc, at: Seq<char>) -> Result<Doc, Fault> {
        match d {
            Doc::Object(m) => {
                let json = field::<String>(m, "json"@);
                if json is Err {
                    json
                } else {
                    Ok(
                        tagged(
                            Map::empty()
                                .insert("json"@, json->Ok_0),
                            "getJsonValue"@,
                        ),
                    )
                }
            },
            _ => Err(Fault::TypeMismatch(at)),
        }
    }

    fn encode(&self) -> (j: Json) {
        proof {
            reveal(<GetJsonValue as Wire>::wire);
        }
        let mut members: Vec<Member> = Vec::new();
        put(&mut members, "json", self.json.encode());
        seal(members, "getJsonValue")
    }

    fn decode(j: &Json, at: &str) -> (r: Result<Self, DecodeError>) {
        proof {
            reveal(<GetJsonValue as Wire>::wire);
            reveal(<GetJsonValue as Wire>::parse);
        }
        let members = members_of(j, at)?;
        let json = read_field::<String>(members, "json")?;
        Ok(GetJsonValue { json })
    }

    proof fn round_trip(&self, at: Seq<char>) {
        reveal(<GetJsonValue as Wire>::wire);
        reveal(<GetJsonValue as Wire>::parse);
        reveal_strlit("@type");
        reveal_strlit("json");
        assert("@type"@.len() == 5);
        assert("json"@.len() == 4);
        self.json.round_trip("json"@);
    }
}

impl Tagged for GetJsonValue {
    open spec fn known(tag: Seq<char>) -> bool {
        tag == "getJsonValue"@
    }

    fn knows(tag: &str) -> (r: bool) {
        same_text(tag, "getJsonValue")
    }

    proof fn tag_known(&self) {
        reveal(<GetJsonValue as Wire>::wire);
        assert(tag_of(self.wire()) == Some("getJsonValue"@));
        assert(Self::known("getJsonValue"@));
    }
}

impl Method for GetJsonValue {
    const TYPE: &'static str = "getJsonValue";

    type Response = JsonValue;

    proof fn type_is_tag(&self) {
        reveal(<GetJsonValue as Wire>::wire);
        assert(tag_of(self.wire()) == Some("getJsonValue"@));
    }
}

/// Converts a JsonValue object to corresponding JSON-serialized string. This is an offline method.
/// Can be called before authorization. Can be called synchronously
#[derive(Debug, Clone)]
pub struct GetJsonString {
    /// The JsonValue object
    pub json_value: JsonValue,
}

impl Wire for GetJsonString {
    #[verifier::opaque]
    open spec fn wire(&self) -> Doc {
        tagged(
            Map::empty()
                .insert("jsonValue"@, self.json_value.wire()),
            "getJsonString"@,
        )
    }

    #[verifier::opaque]
    open spec fn parse(d: Doc, at: Seq<char>) -> Result<Doc, Fault> {
        match d {
            Doc::Object(m) => {
                let json_value = field::<JsonValue>(m, "jsonValue"@);
                if json_value is Err {
                    json_value
                } else {
                    Ok(
                        tagged(
                            Map::empty()
                                .insert("jsonValue"@, json_value->Ok_0),
                            "getJsonString"@,
                        ),
                    )
                }
            },
            _ => Err(Fault::TypeMismatch(at)),
        }
    }

    fn encode(&self) -> (j: Json) {
        proof {
            reveal(<GetJsonString as Wire>::wire);
        }
        let mut members: Vec<Member> = Vec::new();
        put(&mut members, "jsonValue", self.json_value.encode());
        seal(members, "getJsonString")
    }

    fn decode(j: &Json, at: &str) -> (r: Result<Self, DecodeError>) {
        proof {
            reveal(<GetJsonString as Wire>::wire);
            reveal(<GetJsonString as Wire>::parse);
        }
        let members = members_of(j, at)?;
        let json_value = read_field::<JsonValue>(members, "jsonValue")?;
        Ok(GetJsonString { json_value })
    }

    proof fn round_trip(&self, at: Seq<char>) {
        reveal(<GetJsonString as Wire>::wire);
        reveal(<GetJsonString as Wire>::parse);
        reveal_strlit("@type");
        reveal_strlit("jsonValue");
        assert("@type"@.len() == 5);
        assert("jsonValue"@.len() == 9);
        self.json_value.round_trip("jsonValue"@);
    }
}

impl Tagged for GetJsonString {
    open spec fn known(tag: Seq<char>) -> bool {
        tag == "getJsonString"@
    }

    fn knows(tag: &str) -> (r: bool) {
        same_text(tag, "getJsonString")
    }

    proof fn tag_known(&self) {
        reveal(<GetJsonString as Wire>::wire);
        assert(tag_of(self.wire()) == Some("getJsonString"@));
        assert(Self::known("getJsonString"@));
    }
}

impl Method for GetJsonString {
    const TYPE: &'static str = "getJsonString";

    type Response = Text;

    proof fn type_is_tag(&self) {
        reveal(<GetJsonString as Wire>::wire);
        assert(tag_of(self.wire()) == Some("getJsonString"@));
    }
}

/// Changes the user answer to a poll. A poll in quiz mode can be answered only once
#[derive(Debug, Clone)]
pub struct SetPollAnswer {
    /// Identifier of the chat to which the poll belongs
    pub chat_id: i64,
    /// Identifier of the message containing the poll
    pub message_id: i64,
    /// 0-based identifiers of answer options, chosen by the user. User can choose more than 1
    /// answer option only is the poll allows multiple answers
    pub option_ids: Vec<i32>,
}

impl Wire for SetPollAnswer {
    #[verifier::opaque]
    open spec fn wire(&self) -> Doc {
        tagged(
            Map::empty()
                .insert("chatId"@, self.chat_id.wire())
                .insert("messageId"@, self.message_id.wire())
                .insert("optionIds"@, self.option_ids.wire()),
            "setPollAnswer"@,
        )
    }

    #[verifier::opaque]
    open spec fn parse(d: Doc, at: Seq<char>) -> Result<Doc, Fault> {
        match d {
            Doc::Object(m) => {
                let chat_id = field::<i64>(m, "chatId"@);
                let message_id = field::<i64>(m, "messageId"@);
                let option_ids = field::<Vec<i32>>(m, "optionIds"@);
                if chat_id is Err {
                    chat_id
                } else if message_id is Err {
                    message_id
                } else if option_ids is Err {
                    option_ids
                } else {
                    Ok(
                        tagged(
                            Map::empty()
                                .insert("chatId"@, chat_id->Ok_0)
                                .insert("messageId"@, message_id->Ok_0)
                                .insert("optionIds"@, option_ids->Ok_0),
                            "setPollAnswer"@,
                        ),
                    )
                }
            },
            _ => Err(Fault::TypeMismatch(at)),
        }
    }

    fn encode(&self) -> (j: Json) {
        proof {
            reveal(<SetPollAnswer as Wire>::wire);
        }
        let mut members: Vec<Member> = Vec::new();
        put(&mut members, "chatId", self.chat_id.encode());
        put(&mut members, "messageId", self.message_id.encode());
        put(&mut members, "optionIds", self.option_ids.encode());
        seal(members, "setPollAnswer")
    }

    fn decode(j: &Json, at: &str) -> (r: Result<Self, DecodeError>) {
        proof {
            reveal(<SetPollAnswer as Wire>::wire);
            reveal(<SetPollAnswer as Wire>::parse);
        }
        let members = members_of(j, at)?;
        let chat_id = read_field::<i64>(members, "chatId")?;
        let message_id = read_field::<i64>(members, "messageId")?;
        let option_ids = read_field::<Vec<i32>>(members, "optionIds")?;
        Ok(SetPollAnswer { chat_id, message_id, option_ids })
    }

    proof fn round_trip(&self, at: Seq<char>) {
        reveal(<SetPollAnswer as Wire>::wire);
        reveal(<SetPollAnswer as Wire>::parse);
        reveal_strlit("@type");
        reveal_strlit("chatId");
        reveal_strlit("messageId");
        reveal_strlit("optionIds");
        assert("@type"@.len() == 5);
        assert("chatId"@.len() == 6);
        assert("messageId"@.len() == 9 && "messageId"@[0] == 'm');
        assert("optionIds"@.len() == 9 && "optionIds"@[0] == 'o');
        self.chat_id.round_trip("chatId"@);
        self.message_id.round_trip("messageId"@);
        self.option_ids.round_trip("optionIds"@);
    }
}

impl Tagged for SetPollAnswer {
    open spec fn known(tag: Seq<char>) -> bool {
        tag == "setPollAnswer"@
    }

    fn knows(tag: &str) -> (r: bool) {
        same_text(tag, "setPollAnswer")
    }

    proof fn tag_known(&self) {
        reveal(<SetPollAnswer as Wire>::wire);
        assert(tag_of(self.wire()) == Some("setPollAnswer"@));
        assert(Self::known("setPollAnswer"@));
    }
}

impl Method for SetPollAnswer {
    const TYPE: &'static str = "setPollAnswer";

    type Response = Okay;

    proof fn type_is_tag(&self) {
        reveal(<SetPollAnswer as Wire>::wire);
        assert(tag_of(self.wire()) == Some("setPollAnswer"@));
    }
}

/// Returns users voted for the specified option in a non-anonymous polls. For the optimal
/// performance the number of returned users is chosen by the library
#[derive(Debug, Clone)]
pub struct GetPollVoters {
    /// Identifier of the chat to which the poll belongs
    pub chat_id: i64,
    /// Identifier of the message containing the poll
    pub message_id: i64,
    /// 0-based identifier of the answer option
    pub option_id: i32,
    /// Number of users to skip in the result; must be non-negative
    pub offset: i32,
    /// The maximum number of users to be returned; must be positive and can't be greater than 50.
    /// Fewer users may be returned than specified by the limit, even if the end of the voter list
    /// has not been reached
    pub limit: i32,
}

impl Wire for GetPollVoters {
    #[verifier::opaque]
    open spec fn wire(&self) -> Doc {
        tagged(
            Map::empty()
                .insert("chatId"@, self.chat_id.wire())
                .insert("messageId"@, self.message_id.wire())
                .insert("optionId"@, self.option_id.wire())
                .insert("offset"@, self.offset.wire())
                .insert("limit"@, self.limit.wire()),
            "getPollVoters"@,
        )
    }

    #[verifier::opaque]
    open spec fn parse(d: Doc, at: Seq<char>) -> Result<Doc, Fault> {
        match d {
            Doc::Object(m) => {
                let chat_id = field::<i64>(m, "chatId"@);
                let message_id = field::<i64>(m, "messageId"@);
                let option_id = field::<i32>(m, "optionId"@);
                let offset = field::<i32>(m, "offset"@);
                let limit = field::<i32>(m, "limit"@);
                if chat_id is Err {
                    chat_id
                } else if message_id is Err {
                    message_id
                } else if option_id is Err {
                    option_id
                } else if offset is Err {
                    offset
                } else if limit is Err {
                    limit
                } else {
                    Ok(
                        tagged(
                            Map::empty()
                                .insert("chatId"@, chat_id->Ok_0)
                                .insert("messageId"@, message_id->Ok_0)
                                .insert("optionId"@, option_id->Ok_0)
                                .insert("offset"@, offset->Ok_0)
                                .insert("limit"@, limit->Ok_0),
                            "getPollVoters"@,
                        ),
                    )
                }
            },
            _ => Err(Fault::TypeMismatch(at)),
        }
    }

    fn encode(&self) -> (j: Json) {
        proof {
            reveal(<GetPollVoters as Wire>::wire);
        }
        let mut members: Vec<Member> = Vec::new();
        put(&mut members, "chatId", self.chat_id.encode());
        put(&mut members, "messageId", self.message_id.encode());
        put(&mut members, "optionId", self.option_id.encode());
        put(&mut members, "offset", self.offset.encode());
        put(&mut members, "limit", self.limit.encode());
        seal(members, "getPollVoters")
    }

    fn decode(j: &Json, at: &str) -> (r: Result<Self, DecodeError>) {
        proof {
            reveal(<GetPollVoters as Wire>::wire);
            reveal(<GetPollVoters as Wire>::parse);
        }
        let members = members_of(j, at)?;
        let chat_id = read_field::<i64>(members, "chatId")?;
        let message_id = read_field::<i64>(members, "messageId")?;
        let option_id = read_field::<i32>(members, "optionId")?;
        let offset = read_field::<i32>(members, "offset")?;
        let limit = read_field::<i32>(members, "limit")?;
        Ok(GetPollVoters { chat_id, message_id, option_id, offset, limit })
    }

    proof fn round_trip(&self, at: Seq<char>) {
        reveal(<GetPollVoters as Wire>::wire);
        reveal(<GetPollVoters as Wire>::parse);
        reveal_strlit("@type");
        reveal_strlit("chatId");
        reveal_strlit("limit");
        reveal_strlit("messageId");
        reveal_strlit("offset");
        reveal_strlit("optionId");
        assert("@type"@.len() == 5 && "@type"@[0] == '@');
        assert("chatId"@.len() == 6 && "chatId"@[0] == 'c');
        assert("limit"@.len() == 5 && "limit"@[0] == 'l');
        assert("messageId"@.len() == 9);
        assert("offset"@.len() == 6 && "offset"@[0] == 'o');
        assert("optionId"@.len() == 8);
        self.chat_id.round_trip("chatId"@);
        self.message_id.round_trip("messageId"@);
        self.option_id.round_trip("optionId"@);
        self.offset.round_trip("offset"@);
        self.limit.round_trip("limit"@);
    }
}

impl Tagged for GetPollVoters {
    open spec fn known(tag: Seq<char>) -> bool {
        tag == "getPollVoters"@
    }

    fn knows(tag: &str) -> (r: bool) {
        same_text(tag, "getPollVoters")
    }

    proof fn tag_known(&self) {
        reveal(<GetPollVoters as Wire>::wire);
        assert(tag_of(self.wire()) == Some("getPollVoters"@));
        assert(Self::known("getPollVoters"@));
    }
}

impl Method for GetPollVoters {
    const TYPE: &'static str = "getPollVoters";

    type Response = Users;

    proof fn type_is_tag(&self) {
        reveal(<GetPollVoters as Wire>::wire);
        assert(tag_of(self.wire()) == Some("getPollVoters"@));
    }
}

/// Stops a poll. A poll in a message can be stopped when the message has can_be_edited flag set
#[derive(Debug, Clone)]
pub struct StopPoll {
    /// Identifier of the chat to which the poll belongs
    pub chat_id: i64,
    /// Identifier of the message containing the poll
    pub message_id: i64,
    /// The new message reply markup; for bots only
    pub reply_markup: Option<ReplyMarkup>,
}

impl Wire for StopPoll {
    #[verifier::opaque]
    open spec fn wire(&self) -> Doc {
        tagged(
            Map::empty()
                .insert("chatId"@, self.chat_id.wire())
                .insert("messageId"@, self.message_id.wire())
                .insert("replyMarkup"@, self.reply_markup.wire()),
            "stopPoll"@,
        )
    }

    #[verifier::opaque]
    open spec fn parse(d: Doc, at: Seq<char>) -> Result<Doc, Fault> {
        match d {
            Doc::Object(m) => {
                let chat_id = field::<i64>(m, "chatId"@);
                let message_id = field::<i64>(m, "messageId"@);
                let reply_markup = optional_field::<ReplyMarkup>(m, "replyMarkup"@);
                if chat_id is Err {
                    chat_id
                } else if message_id is Err {
                    message_id
                } else if reply_markup is Err {
                    reply_markup
                } else {
                    Ok(
                        tagged(
                            Map::empty()
                                .insert("chatId"@, chat_id->Ok_0)
                                .insert("messageId"@, message_id->Ok_0)
                                .insert("replyMarkup"@, reply_markup->Ok_0),
                            "stopPoll"@,
                        ),
                    )
                }
            },
            _ => Err(Fault::TypeMismatch(at)),
        }
    }

    fn encode(&self) -> (j: Json) {
        proof {
            reveal(<StopPoll as Wire>::wire);
        }
        let mut members: Vec<Member> = Vec::new();
        put(&mut members, "chatId", self.chat_id.encode());
        put(&mut members, "messageId", self.message_id.encode());
        put(&mut members, "replyMarkup", self.reply_markup.encode());
        seal(members, "stopPoll")
    }

    fn decode(j: &Json, at: &str) -> (r: Result<Self, DecodeError>) {
        proof {
            reveal(<StopPoll as Wire>::wire);
            reveal(<StopPoll as Wire>::parse);
        }
        let members = members_of(j, at)?;
        let chat_id = read_field::<i64>(members, "chatId")?;
        let message_id = read_field::<i64>(members, "messageId")?;
        let reply_markup = read_optional::<ReplyMarkup>(members, "replyMarkup")?;
        Ok(StopPoll { chat_id, message_id, reply_markup })
    }

    proof fn round_trip(&self, at: Seq<char>) {
        reveal(<StopPoll as Wire>::wire);
        reveal(<StopPoll as Wire>::parse);
        reveal_strlit("@type");
        reveal_strlit("chatId");
        reveal_strlit("messageId");
        reveal_strlit("replyMarkup");
        assert("@type"@.len() == 5);
        assert("chatId"@.len() == 6);
        assert("messageId"@.len() == 9);
        assert("replyMarkup"@.len() == 11);
        self.chat_id.round_trip("chatId"@);
        self.message_id.round_trip("messageId"@);
        self.reply_markup.round_trip("replyMarkup"@);
    }
}

impl Tagged for StopPoll {
    open spec fn known(tag: Seq<char>) -> bool {
        tag == "stopPoll"@
    }

    fn knows(tag: &str) -> (r: bool) {
        same_text(tag, "stopPoll")
    }

    proof fn tag_known(&self) {
        reveal(<StopPoll as Wire>::wire);
        assert(tag_of(self.wire()) == Some("stopPoll"@));
        assert(Self::known("stopPoll"@));
    }
}

impl Method for StopPoll {
    const TYPE: &'static str = "stopPoll";

    type Response = Okay;

    proof fn type_is_tag(&self) {
        reveal(<StopPoll as Wire>::wire);
        assert(tag_of(self.wire()) == Some("stopPoll"@));
    }
}

/// Returns information about a button of type inlineKeyboardButtonTypeLoginUrl. The method needs to
/// be called when the user presses the button
#[derive(Debug, Clone)]
pub struct GetLoginUrlInfo {
    /// Chat identifier of the message with the button
    pub chat_id: i64,
    /// Message identifier of the message with the button
    pub message_id: i64,
    /// Button identifier
    pub button_id: i32,
}

impl Wire for GetLoginUrlInfo {
    #[verifier::opaque]
    open spec fn wire(&self) -> Doc {
        tagged(
            Map::empty()
                .insert("chatId"@, self.chat_id.wire())
                .insert("messageId"@, self.message_id.wire())
                .insert("buttonId"@, self.button_id.wire()),
            "getLoginUrlInfo"@,
        )
    }

    #[verifier::opaque]
    open spec fn parse(d: Doc, at: Seq<char>) -> Result<Doc, Fault> {
        match d {
            Doc::Object(m) => {
                let chat_id = field::<i64>(m, "chatId"@);
                let message_id = field::<i64>(m, "messageId"@);
                let button_id = field::<i32>(m, "buttonId"@);
                if chat_id is Err {
                    chat_id
                } else if message_id is Err {
                    message_id
                } else if button_id is Err {
                    button_id
                } else {
                    Ok(
                        tagged(
                            Map::empty()
                                .insert("chatId"@, chat_id->Ok_0)
                                .insert("messageId"@, message_id->Ok_0)
                                .insert("buttonId"@, button_id->Ok_0),
                            "getLoginUrlInfo"@,
                        ),
                    )
                }
            },
            _ => Err(Fault::TypeMismatch(at)),
        }
    }

    fn encode(&self) -> (j: Json) {
        proof {
            reveal(<GetLoginUrlInfo as Wire>::wire);
        }
        let mut members: Vec<Member> = Vec::new();
        put(&mut members, "chatId", self.chat_id.encode());
        put(&mut members, "messageId", self.message_id.encode());
        put(&mut members, "buttonId", self.button_id.encode());
        seal(members, "getLoginUrlInfo")
    }

    fn decode(j: &Json, at: &str) -> (r: Result<Self, DecodeError>) {
        proof {
            reveal(<GetLoginUrlInfo as Wire>::wire);
            reveal(<GetLoginUrlInfo as Wire>::parse);
        }
        let members = members_of(j, at)?;
        let chat_id = read_field::<i64>(members, "chatId")?;
        let message_id = read_field::<i64>(members, "messageId")?;
        let button_id = read_field::<i32>(members, "buttonId")?;
        Ok(GetLoginUrlInfo { chat_id, message_id, button_id })
    }

    proof fn round_trip(&self, at: Seq<char>) {
        reveal(<GetLoginUrlInfo as Wire>::wire);
        reveal(<GetLoginUrlInfo as Wire>::parse);
        reveal_strlit("@type");
        reveal_strlit("buttonId");
        reveal_strlit("chatId");
        reveal_strlit("messageId");
        assert("@type"@.len() == 5);
        assert("buttonId"@.len() == 8);
        assert("chatId"@.len() == 6);
        assert("messageId"@.len() == 9);
        self.chat_id.round_trip("chatId"@);
        self.message_id.round_trip("messageId"@);
        self.button_id.round_trip("buttonId"@);
    }
}

impl Tagged for GetLoginUrlInfo {
    open spec fn known(tag: Seq<char>) -> bool {
        tag == "getLoginUrlInfo"@
    }

    fn knows(tag: &str) -> (r: bool) {
        same_text(tag, "getLoginUrlInfo")
    }

    proof fn tag_known(&self) {
        reveal(<GetLoginUrlInfo as Wire>::wire);
        assert(tag_of(self.wire()) == Some("getLoginUrlInfo"@));
        assert(Self::known("getLoginUrlInfo"@));
    }
}

impl Method for GetLoginUrlInfo {
    const TYPE: &'static str = "getLoginUrlInfo";

    type Response = LoginUrlInfo;

    proof fn type_is_tag(&self) {
        reveal(<GetLoginUrlInfo as Wire>::wire);
        assert(tag_of(self.wire()) == Some("getLoginUrlInfo"@));
    }
}

/// Returns an HTTP URL which can be used to automatically authorize the user on a website after
/// clicking an inline button of type inlineKeyboardButtonTypeLoginUrl. Use the method
/// getLoginUrlInfo to find whether a prior user confirmation is needed. If an error is returned,
/// then the button must be handled as an ordinary URL button
#[derive(Debug, Clone)]
pub struct GetLoginUrl {
    /// Chat identifier of the message with the button
    pub chat_id: i64,
    /// Message identifier of the message with the button
    pub message_id: i64,
    /// Button identifier
    pub button_id: i32,
    /// True, if the user allowed the bot to send them messages
    pub allow_write_access: bool,
}

impl Wire for GetLoginUrl {
    #[verifier::opaque]
    open spec fn wire(&self) -> Doc {
        tagged(
            Map::empty()
                .insert("chatId"@, self.chat_id.wire())
                .insert("messageId"@, self.message_id.wire())
                .insert("buttonId"@, self.button_id.wire())
                .insert("allowWriteAccess"@, self.allow_write_access.wire()),
            "getLoginUrl"@,
        )
    }

    #[verifier::opaque]
    open spec fn parse(d: Doc, at: Seq<char>) -> Result<Doc, Fault> {
        match d {
            Doc::Object(m) => {
                let chat_id = field::<i64>(m, "chatId"@);
                let message_id = field::<i64>(m, "messageId"@);
                let button_id = field::<i32>(m, "buttonId"@);
                let allow_write_access = field::<bool>(m, "allowWriteAccess"@);
                if chat_id is Err {
                    chat_id
                } else if message_id is Err {
                    message_id
                } else if button_id is Err {
                    button_id
                } else if allow_write_access is Err {
                    allow_write_access
                } else {
                    Ok(
                        tagged(
                            Map::empty()
                                .insert("chatId"@, chat_id->Ok_0)
                                .insert("messageId"@, message_id->Ok_0)
                                .insert("buttonId"@, button_id->Ok_0)
                                .insert("allowWriteAccess"@, allow_write_access->Ok_0),
                            "getLoginUrl"@,
                        ),
                    )
                }
            },
            _ => Err(Fault::TypeMismatch(at)),
        }
    }

    fn encode(&self) -> (j: Json) {
        proof {
            reveal(<GetLoginUrl as Wire>::wire);
        }
        let mut members: Vec<Member> = Vec::new();
        put(&mut members, "chatId", self.chat_id.encode());
        put(&mut members, "messageId", self.message_id.encode());
        put(&mut members, "buttonId", self.button_id.encode());
        put(&mut members, "allowWriteAccess", self.allow_write_access.encode());
        seal(members, "getLoginUrl")
    }

    fn decode(j: &Json, at: &str) -> (r: Result<Self, DecodeError>) {
        proof {
            reveal(<GetLoginUrl as Wire>::wire);
            reveal(<GetLoginUrl as Wire>::parse);
        }
        let members = members_of(j, at)?;
        let chat_id = read_field::<i64>(members, "chatId")?;
        let message_id = read_field::<i64>(members, "messageId")?;
        let button_id = read_field::<i32>(members, "buttonId")?;
        let allow_write_access = read_field::<bool>(members, "allowWriteAccess")?;
        Ok(GetLoginUrl { chat_id, message_id, button_id, allow_write_access })
    }

    proof fn round_trip(&self, at: Seq<char>) {
        reveal(<GetLoginUrl as Wire>::wire);
        reveal(<GetLoginUrl as Wire>::parse);
        reveal_strlit("@type");
        reveal_strlit("allowWriteAccess");
        reveal_strlit("buttonId");
        reveal_strlit("chatId");
        reveal_strlit("messageId");
        assert("@type"@.len() == 5);
        assert("allowWriteAccess"@.len() == 16);
        assert("buttonId"@.len() == 8);
        assert("chatId"@.len() == 6);
        assert("messageId"@.len() == 9);
        self.chat_id.round_trip("chatId"@);
        self.message_id.round_trip("messageId"@);
        self.button_id.round_trip("buttonId"@);
        self.allow_write_access.round_trip("allowWriteAccess"@);
    }
}

impl Tagged for GetLoginUrl {
    open spec fn known(tag: Seq<char>) -> bool {
        tag == "getLoginUrl"@
    }

    fn knows(tag: &str) -> (r: bool) {
        same_text(tag, "getLoginUrl")
    }

    proof fn tag_known(&self) {
        reveal(<GetLoginUrl as Wire>::wire);
        assert(tag_of(self.wire()) == Some("getLoginUrl"@));
        assert(Self::known("getLoginUrl"@));
    }
}

impl Method for GetLoginUrl {
    const TYPE: &'static str = "getLoginUrl";

    type Response = HttpUrl;

    proof fn type_is_tag(&self) {
        reveal(<GetLoginUrl as Wire>::wire);
        assert(tag_of(self.wire()) == Some("getLoginUrl"@));
    }
}

/// Sends an inline query to a bot and returns its results. Returns an error with code 502 if the
/// bot fails to answer the query before the query timeout expires
#[derive(Debug, Clone)]
pub struct GetInlineQueryResults {
    /// The identifier of the target bot
    pub bot_user_id: i32,
    /// Identifier of the chat where the query was sent
    pub chat_id: i64,
    /// Location of the user, only if needed
    pub user_location: Location,
    /// Text of the query
    pub query: String,
    /// Offset of the first entry to return
    pub offset: String,
}

impl Wire for GetInlineQueryResults {
    #[verifier::opaque]
    open spec fn wire(&self) -> Doc {
        tagged(
            Map::empty()
                .insert("botUserId"@, self.bot_user_id.wire())
                .insert("chatId"@, self.chat_id.wire())
                .insert("userLocation"@, self.user_location.wire())
                .insert("query"@, self.query.wire())
                .insert("offset"@, self.offset.wire()),
            "getInlineQueryResults"@,
        )
    }

    #[verifier::opaque]
    open spec fn parse(d: Doc, at: Seq<char>) -> Result<Doc, Fault> {
        match d {
            Doc::Object(m) => {
                let bot_user_id = field::<i32>(m, "botUserId"@);
                let chat_id = field::<i64>(m, "chatId"@);
                let user_location = field::<Location>(m, "userLocation"@);
                let query = field::<String>(m, "query"@);
                let offset = field::<String>(m, "offset"@);
                if bot_user_id is Err {
                    bot_user_id
                } else if chat_id is Err {
                    chat_id
                } else if user_location is Err {
                    user_location
                } else if query is Err {
                    query
                } else if offset is Err {
                    offset
                } else {
                    Ok(
                        tagged(
                            Map::empty()
                                .insert("botUserId"@, bot_user_id->Ok_0)
                                .insert("chatId"@, chat_id->Ok_0)
                                .insert("userLocation"@, user_location->Ok_0)
                                .insert("query"@, query->Ok_0)
                                .insert("offset"@, offset->Ok_0),
                            "getInlineQueryResults"@,
                        ),
                    )
                }
            },
            _ => Err(Fault::TypeMismatch(at)),
        }
    }

    fn encode(&self) -> (j: Json) {
        proof {
            reveal(<GetInlineQueryResults as Wire>::wire);
        }
        let mut members: Vec<Member> = Vec::new();
        put(&mut members, "botUserId", self.bot_user_id.encode());
        put(&mut members, "chatId", self.chat_id.encode());
        put(&mut members, "userLocation", self.user_location.encode());
        put(&mut members, "query", self.query.encode());
        put(&mut members, "offset", self.offset.encode());
        seal(members, "getInlineQueryResults")
    }

    fn decode(j: &Json, at: &str) -> (r: Result<Self, DecodeError>) {
        proof {
            reveal(<GetInlineQueryResults as Wire>::wire);
            reveal(<GetInlineQueryResults as Wire>::parse);
        }
        let members = members_of(j, at)?;
        let bot_user_id = read_field::<i32>(members, "botUserId")?;
        let chat_id = read_field::<i64>(members, "chatId")?;
        let user_location = read_field::<Location>(members, "userLocation")?;
        let query = read_field::<String>(members, "query")?;
        let offset = read_field::<String>(members, "offset")?;
        Ok(GetInlineQueryResults { bot_user_id, chat_id, user_location, query, offset })
    }

    proof fn round_trip(&self, at: Seq<char>) {
        reveal(<GetInlineQueryResults as Wire>::wire);
        reveal(<GetInlineQueryResults as Wire>::parse);
        reveal_strlit("@type");
        reveal_strlit("botUserId");
        reveal_strlit("chatId");
        reveal_strlit("offset");
        reveal_strlit("query");
        reveal_strlit("userLocation");
        assert("@type"@.len() == 5 && "@type"@[0] == '@');
        assert("botUserId"@.len() == 9);
        assert("chatId"@.len() == 6 && "chatId"@[0] == 'c');
        assert("offset"@.len() == 6 && "offset"@[0] == 'o');
        assert("query"@.len() == 5 && "query"@[0] == 'q');
        assert("userLocation"@.len() == 12);
        self.bot_user_id.round_trip("botUserId"@);
        self.chat_id.round_trip("chatId"@);
        self.user_location.round_trip("userLocation"@);
        self.query.round_trip("query"@);
        self.offset.round_trip("offset"@);
    }
}

impl Tagged for GetInlineQueryResults {
    open spec fn known(tag: Seq<char>) -> bool {
        tag == "getInlineQueryResults"@
    }

    fn knows(tag: &str) -> (r: bool) {
        same_text(tag, "getInlineQueryResults")
    }

    proof fn tag_known(&self) {
        reveal(<GetInlineQueryResults as Wire>::wire);
        assert(tag_of(self.wire()) == Some("getInlineQueryResults"@));
        assert(Self::known("getInlineQueryResults"@));
    }
}

impl Method for GetInlineQueryResults {
    const TYPE: &'static str = "getInlineQueryResults";

    type Response = InlineQueryResults;

    proof fn type_is_tag(&self) {
        reveal(<GetInlineQueryResults as Wire>::wire);
        assert(tag_of(self.wire()) == Some("getInlineQueryResults"@));
    }
}

/// Sets the result of an inline query; for bots only
#[derive(Debug, Clone)]
pub struct AnswerInlineQuery {
    /// Identifier of the inline query
    pub inline_query_id: i64,
    /// True, if the result of the query can be cached for the specified user
    pub is_personal: bool,
    /// The results of the query
    pub results: Vec<InputInlineQueryResult>,
    /// Allowed time to cache the results of the query, in seconds
    pub cache_time: i32,
    /// Offset for the next inline query; pass an empty string if there are no more results
    pub next_offset: String,
    /// If non-empty, this text should be shown on the button that opens a private chat with the bot
    /// and sends a start message to the bot with the parameter switch_pm_parameter
    pub switch_pm_text: String,
    /// The parameter for the bot start message
    pub switch_pm_parameter: String,
}

impl Wire for AnswerInlineQuery {
    #[verifier::opaque]
    open spec fn wire(&self) -> Doc {
        tagged(
            Map::empty()
                .insert("inlineQueryId"@, wide_doc(self.inline_query_id))
                .insert("isPersonal"@, self.is_personal.wire())
                .insert("results"@, self.results.wire())
                .insert("cacheTime"@, self.cache_time.wire())
                .insert("nextOffset"@, self.next_offset.wire())
                .insert("switchPmText"@, self.switch_pm_text.wire())
                .insert("switchPmParameter"@, self.switch_pm_parameter.wire()),
            "answerInlineQuery"@,
        )
    }

    #[verifier::opaque]
    open spec fn parse(d: Doc, at: Seq<char>) -> Result<Doc, Fault> {
        match d {
            Doc::Object(m) => {
                let inline_query_id = wide_field(m, "inlineQueryId"@);
                let is_personal = field::<bool>(m, "isPersonal"@);
                let results = field::<Vec<InputInlineQueryResult>>(m, "results"@);
                let cache_time = field::<i32>(m, "cacheTime"@);
                let next_offset = field::<String>(m, "nextOffset"@);
                let switch_pm_text = field::<String>(m, "switchPmText"@);
                let switch_pm_parameter = field::<String>(m, "switchPmParameter"@);
                if inline_query_id is Err {
                    inline_query_id
                } else if is_personal is Err {
                    is_personal
                } else if results is Err {
                    results
                } else if cache_time is Err {
                    cache_time
                } else if next_offset is Err {
                    next_offset
                } else if switch_pm_text is Err {
                    switch_pm_text
                } else if switch_pm_parameter is Err {
                    switch_pm_parameter
                } else {
                    Ok(
                        tagged(
                            Map::empty()
                                .insert("inlineQueryId"@, inline_query_id->Ok_0)
                                .insert("isPersonal"@, is_personal->Ok_0)
                                .insert("results"@, results->Ok_0)
                                .insert("cacheTime"@, cache_time->Ok_0)
                                .insert("nextOffset"@, next_offset->Ok_0)
                                .insert("switchPmText"@, switch_pm_text->Ok_0)
                                .insert("switchPmParameter"@, switch_pm_parameter->Ok_0),
                            "answerInlineQuery"@,
                        ),
                    )
                }
            },
            _ => Err(Fault::TypeMismatch(at)),
        }
    }

    fn encode(&self) -> (j: Json) {
        proof {
            reveal(<AnswerInlineQuery as Wire>::wire);
        }
        let mut members: Vec<Member> = Vec::new();
        put(&mut members, "inlineQueryId", encode_wide(self.inline_query_id));
        put(&mut members, "isPersonal", self.is_personal.encode());
        put(&mut members, "results", self.results.encode());
        put(&mut members, "cacheTime", self.cache_time.encode());
        put(&mut members, "nextOffset", self.next_offset.encode());
        put(&mut members, "switchPmText", self.switch_pm_text.encode());
        put(&mut members, "switchPmParameter", self.switch_pm_parameter.encode());
        seal(members, "answerInlineQuery")
    }

    fn decode(j: &Json, at: &str) -> (r: Result<Self, DecodeError>) {
        proof {
            reveal(<AnswerInlineQuery as Wire>::wire);
            reveal(<AnswerInlineQuery as Wire>::parse);
        }
        let members = members_of(j, at)?;
        let inline_query_id = read_wide(members, "inlineQueryId")?;
        let is_personal = read_field::<bool>(members, "isPersonal")?;
        let results = read_field::<Vec<InputInlineQueryResult>>(members, "results")?;
        let cache_time = read_field::<i32>(members, "cacheTime")?;
        let next_offset = read_field::<String>(members, "nextOffset")?;
        let switch_pm_text = read_field::<String>(members, "switchPmText")?;
        let switch_pm_parameter = read_field::<String>(members, "switchPmParameter")?;
        Ok(AnswerInlineQuery {
            inline_query_id,
            is_personal,
            results,
            cache_time,
            next_offset,
            switch_pm_text,
            switch_pm_parameter,
        })
    }

    proof fn round_trip(&self, at: Seq<char>) {
        reveal(<AnswerInlineQuery as Wire>::wire);
        reveal(<AnswerInlineQuery as Wire>::parse);
        reveal_strlit("@type");
        reveal_strlit("cacheTime");
        reveal_strlit("inlineQueryId");
        reveal_strlit("isPersonal");
        reveal_strlit("nextOffset");
        reveal_strlit("results");
        reveal_strlit("switchPmParameter");
        reveal_strlit("switchPmText");
        assert("@type"@.len() == 5);
        assert("cacheTime"@.len() == 9);
        assert("inlineQueryId"@.len() == 13);
        assert("isPersonal"@.len() == 10 && "isPersonal"@[0] == 'i');
        assert("nextOffset"@.len() == 10 && "nextOffset"@[0] == 'n');
        assert("results"@.len() == 7);
        assert("switchPmParameter"@.len() == 17);
        assert("switchPmText"@.len() == 12);
        lemma_wide_round_trip(self.inline_query_id, "inlineQueryId"@);
        self.is_personal.round_trip("isPersonal"@);
        self.results.round_trip("results"@);
        self.cache_time.round_trip("cacheTime"@);
        self.next_offset.round_trip("nextOffset"@);
        self.switch_pm_text.round_trip("switchPmText"@);
        self.switch_pm_parameter.round_trip("switchPmParameter"@);
    }
}

impl Tagged for AnswerInlineQuery {
    open spec fn known(tag: Seq<char>) -> bool {
        tag == "answerInlineQuery"@
    }

    fn knows(tag: &str) -> (r: bool) {
        same_text(tag, "answerInlineQuery")
    }

    proof fn tag_known(&self) {
        reveal(<AnswerInlineQuery as Wire>::wire);
        assert(tag_of(self.wire()) == Some("answerInlineQuery"@));
        assert(Self::known("answerInlineQuery"@));
    }
}

impl Method for AnswerInlineQuery {
    const TYPE: &'static str = "answerInlineQuery";

    type Response = Okay;

    proof fn type_is_tag(&self) {
        reveal(<AnswerInlineQuery as Wire>::wire);
        assert(tag_of(self.wire()) == Some("answerInlineQuery"@));
    }
}

/// Sends a callback query to a bot and returns an answer. Returns an error with code 502 if the bot
/// fails to answer the query before the query timeout expires
#[derive(Debug, Clone)]
pub struct GetCallbackQueryAnswer {
    /// Identifier of the chat with the message
    pub chat_id: i64,
    /// Identifier of the message from which the query originated
    pub message_id: i64,
    /// Query payload
    pub payload: CallbackQueryPayload,
}

impl Wire for GetCallbackQueryAnswer {
    #[verifier::opaque]
    open spec fn wire(&self) -> Doc {
        tagged(
            Map::empty()
                .insert("chatId"@, self.chat_id.wire())
                .insert("messageId"@, self.message_id.wire())
                .insert("payload"@, self.payload.wire()),
            "getCallbackQueryAnswer"@,
        )
    }

    #[verifier::opaque]
    open spec fn parse(d: Doc, at: Seq<char>) -> Result<Doc, Fault> {
        match d {
            Doc::Object(m) => {
                let chat_id = field::<i64>(m, "chatId"@);
                let message_id = field::<i64>(m, "messageId"@);
                let payload = field::<CallbackQueryPayload>(m, "payload"@);
                if chat_id is Err {
                    chat_id
                } else if message_id is Err {
                    message_id
                } else if payload is Err {
                    payload
                } else {
                    Ok(
                        tagged(
                            Map::empty()
                                .insert("chatId"@, chat_id->Ok_0)
                                .insert("messageId"@, message_id->Ok_0)
                                .insert("payload"@, payload->Ok_0),
                            "getCallbackQueryAnswer"@,
                        ),
                    )
                }
            },
            _ => Err(Fault::TypeMismatch(at)),
        }
    }

    fn encode(&self) -> (j: Json) {
        proof {
            reveal(<GetCallbackQueryAnswer as Wire>::wire);
        }
        let mut members: Vec<Member> = Vec::new();
        put(&mut members, "chatId", self.chat_id.encode());
        put(&mut members, "messageId", self.message_id.encode());
        put(&mut members, "payload", self.payload.encode());
        seal(members, "getCallbackQueryAnswer")
    }

    fn decode(j: &Json, at: &str) -> (r: Result<Self, DecodeError>) {
        proof {
            reveal(<GetCallbackQueryAnswer as Wire>::wire);
            reveal(<GetCallbackQueryAnswer as Wire>::parse);
        }
        let members = members_of(j, at)?;
        let chat_id = read_field::<i64>(members, "chatId")?;
        let message_id = read_field::<i64>(members, "messageId")?;
        let payload = read_field::<CallbackQueryPayload>(members, "payload")?;
        Ok(GetCallbackQueryAnswer { chat_id, message_id, payload })
    }

    proof fn round_trip(&self, at: Seq<char>) {
        reveal(<GetCallbackQueryAnswer as Wire>::wire);
        reveal(<GetCallbackQueryAnswer as Wire>::parse);
        reveal_strlit("@type");
        reveal_strlit("chatId");
        reveal_strlit("messageId");
        reveal_strlit("payload");
        assert("@type"@.len() == 5);
        assert("chatId"@.len() == 6);
        assert("messageId"@.len() == 9);
        assert("payload"@.len() == 7);
        self.chat_id.round_trip("chatId"@);
        self.message_id.round_trip("messageId"@);
        self.payload.round_trip("payload"@);
    }
}

impl Tagged for GetCallbackQueryAnswer {
    open spec fn known(tag: Seq<char>) -> bool {
        tag == "getCallbackQueryAnswer"@
    }

    fn knows(tag: &str) -> (r: bool) {
        same_text(tag, "getCallbackQueryAnswer")
    }

    proof fn tag_known(&self) {
        reveal(<GetCallbackQueryAnswer as Wire>::wire);
        assert(tag_of(self.wire()) == Some("getCallbackQueryAnswer"@));
        assert(Self::known("getCallbackQueryAnswer"@));
    }
}

impl Method for GetCallbackQueryAnswer {
    const TYPE: &'static str = "getCallbackQueryAnswer";

    type Response = CallbackQueryAnswer;

    proof fn type_is_tag(&self) {
        reveal(<GetCallbackQueryAnswer as Wire>::wire);
        assert(tag_of(self.wire()) == Some("getCallbackQueryAnswer"@));
    }
}

/// Sets the result of a callback query; for bots only
#[derive(Debug, Clone)]
pub struct AnswerCallbackQuery {
    /// Identifier of the callback query
    pub callback_query_id: i64,
    /// Text of the answer
    pub text: String,
    /// If true, an alert should be shown to the user instead of a toast notification
    pub show_alert: bool,
    /// URL to be opened
    pub url: String,
    /// Time during which the result of the query can be cached, in seconds
    pub cache_time: i32,
}

impl Wire for AnswerCallbackQuery {
    #[verifier::opaque]
    open spec fn wire(&self) -> Doc {
        tagged(
            Map::empty()
                .insert("callbackQueryId"@, wide_doc(self.callback_query_id))
                .insert("text"@, self.text.wire())
                .insert("showAlert"@, self.show_alert.wire())
                .insert("url"@, self.url.wire())
                .insert("cacheTime"@, self.cache_time.wire()),
            "answerCallbackQuery"@,
        )
    }

    #[verifier::opaque]
    open spec fn parse(d: Doc, at: Seq<char>) -> Result<Doc, Fault> {
        match d {
            Doc::Object(m) => {
                let callback_query_id = wide_field(m, "callbackQueryId"@);
                let text = field::<String>(m, "text"@);
                let show_alert = field::<bool>(m, "showAlert"@);
                let url = field::<String>(m, "url"@);
                let cache_time = field::<i32>(m, "cacheTime"@);
                if callback_query_id is Err {
                    callback_query_id
                } else if text is Err {
                    text
                } else if show_alert is Err {
                    show_alert
                } else if url is Err {
                    url
                } else if cache_time is Err {
                    cache_time
                } else {
                    Ok(
                        tagged(
                            Map::empty()
                                .insert("callbackQueryId"@, callback_query_id->Ok_0)
                                .insert("text"@, text->Ok_0)
                                .insert("showAlert"@, show_alert->Ok_0)
                                .insert("url"@, url->Ok_0)
                                .insert("cacheTime"@, cache_time->Ok_0),
                            "answerCallbackQuery"@,
                        ),
                    )
                }
            },
            _ => Err(Fault::TypeMismatch(at)),
        }
    }

    fn encode(&self) -> (j: Json) {
        proof {
            reveal(<AnswerCallbackQuery as Wire>::wire);
        }
        let mut members: Vec<Member> = Vec::new();
        put(&mut members, "callbackQueryId", encode_wide(self.callback_query_id));
        put(&mut members, "text", self.text.encode());
        put(&mut members, "showAlert", self.show_alert.encode());
        put(&mut members, "url", self.url.encode());
        put(&mut members, "cacheTime", self.cache_time.encode());
        seal(members, "answerCallbackQuery")
    }

    fn decode(j: &Json, at: &str) -> (r: Result<Self, DecodeError>) {
        proof {
            reveal(<AnswerCallbackQuery as Wire>::wire);
            reveal(<AnswerCallbackQuery as Wire>::parse);
        }
        let members = members_of(j, at)?;
        let callback_query_id = read_wide(members, "callbackQueryId")?;
        let text = read_field::<String>(members, "text")?;
        let show_alert = read_field::<bool>(members, "showAlert")?;
        let url = read_field::<String>(members, "url")?;
        let cache_time = read_field::<i32>(members, "cacheTime")?;
        Ok(AnswerCallbackQuery { callback_query_id, text, show_alert, url, cache_time })
    }

    proof fn round_trip(&self, at: Seq<char>) {
        reveal(<AnswerCallbackQuery as Wire>::wire);
        reveal(<AnswerCallbackQuery as Wire>::parse);
        reveal_strlit("@type");
        reveal_strlit("cacheTime");
        reveal_strlit("callbackQueryId");
        reveal_strlit("showAlert");
        reveal_strlit("text");
        reveal_strlit("url");
        assert("@type"@.len() == 5);
        assert("cacheTime"@.len() == 9 && "cacheTime"@[0] == 'c');
        assert("callbackQueryId"@.len() == 15);
        assert("showAlert"@.len() == 9 && "showAlert"@[0] == 's');
        assert("text"@.len() == 4);
        assert("url"@.len() == 3);
        lemma_wide_round_trip(self.callback_query_id, "callbackQueryId"@);
        self.text.round_trip("text"@);
        self.show_alert.round_trip("showAlert"@);
        self.url.round_trip("url"@);
        self.cache_time.round_trip("cacheTime"@);
    }
}

impl Tagged for AnswerCallbackQuery {
    open spec fn known(tag: Seq<char>) -> bool {
        tag == "answerCallbackQuery"@
    }

    fn knows(tag: &str) -> (r: bool) {
        same_text(tag, "answerCallbackQuery")
    }

    proof fn tag_known(&self) {
        reveal(<AnswerCallbackQuery as Wire>::wire);
        assert(tag_of(self.wire()) == Some("answerCallbackQuery"@));
        assert(Self::known("answerCallbackQuery"@));
    }
}

impl Method for AnswerCallbackQuery {
    const TYPE: &'static str = "answerCallbackQuery";

    type Response = Okay;

    proof fn type_is_tag(&self) {
        reveal(<AnswerCallbackQuery as Wire>::wire);
        assert(tag_of(self.wire()) == Some("answerCallbackQuery"@));
    }
}

/// Sets the result of a shipping query; for bots only
#[derive(Debug, Clone)]
pub struct AnswerShippingQuery {
    /// Identifier of the shipping query
    pub shipping_query_id: i64,
    /// Available shipping options
    pub shipping_options: Vec<ShippingOption>,
    /// An error message, empty on success
    pub error_message: String,
}

impl Wire for AnswerShippingQuery {
    #[verifier::opaque]
    open spec fn wire(&self) -> Doc {
        tagged(
            Map::empty()
                .insert("shippingQueryId"@, wide_doc(self.shipping_query_id))
                .insert("shippingOptions"@, self.shipping_options.wire())
                .insert("errorMessage"@, self.error_message.wire()),
            "answerShippingQuery"@,
        )
    }

    #[verifier::opaque]
    open spec fn parse(d: Doc, at: Seq<char>) -> Result<Doc, Fault> {
        match d {
            Doc::Object(m) => {
                let shipping_query_id = wide_field(m, "shippingQueryId"@);
                let shipping_options = field::<Vec<ShippingOption>>(m, "shippingOptions"@);
                let error_message = field::<String>(m, "errorMessage"@);
                if shipping_query_id is Err {
                    shipping_query_id
                } else if shipping_options is Err {
                    shipping_options
                } else if error_message is Err {
                    error_message
                } else {
                    Ok(
                        tagged(
                            Map::empty()
                                .insert("shippingQueryId"@, shipping_query_id->Ok_0)
                                .insert("shippingOptions"@, shipping_options->Ok_0)
                                .insert("errorMessage"@, error_message->Ok_0),
                            "answerShippingQuery"@,
                        ),
                    )
                }
            },
            _ => Err(Fault::TypeMismatch(at)),
        }
    }

    fn encode(&self) -> (j: Json) {
        proof {
            reveal(<AnswerShippingQuery as Wire>::wire);
        }
        let mut members: Vec<Member> = Vec::new();
        put(&mut members, "shippingQueryId", encode_wide(self.shipping_query_id));
        put(&mut members, "shippingOptions", self.shipping_options.encode());
        put(&mut members, "errorMessage", self.error_message.encode());
        seal(members, "answerShippingQuery")
    }

    fn decode(j: &Json, at: &str) -> (r: Result<Self, DecodeError>) {
        proof {
            reveal(<AnswerShippingQuery as Wire>::wire);
            reveal(<AnswerShippingQuery as Wire>::parse);
        }
        let members = members_of(j, at)?;
        let shipping_query_id = read_wide(members, "shippingQueryId")?;
        let shipping_options = read_field::<Vec<ShippingOption>>(members, "shippingOptions")?;
        let error_message = read_field::<String>(members, "errorMessage")?;
        Ok(AnswerShippingQuery { shipping_query_id, shipping_options, error_message })
    }

    proof fn round_trip(&self, at: Seq<char>) {
        reveal(<AnswerShippingQuery as Wire>::wire);
        reveal(<AnswerShippingQuery as Wire>::parse);
        reveal_strlit("@type");
        reveal_strlit("errorMessage");
        reveal_strlit("shippingOptions");
        reveal_strlit("shippingQueryId");
        assert("@type"@.len() == 5);
        assert("errorMessage"@.len() == 12);
        assert("shippingOptions"@.len() == 15 && "shippingOptions"@[8] == 'O');
        assert("shippingQueryId"@.len() == 15 && "shippingQueryId"@[8] == 'Q');
        lemma_wide_round_trip(self.shipping_query_id, "shippingQueryId"@);
        self.shipping_options.round_trip("shippingOptions"@);
        self.error_message.round_trip("errorMessage"@);
    }
}

impl Tagged for AnswerShippingQuery {
    open spec fn known(tag: Seq<char>) -> bool {
        tag == "answerShippingQuery"@
    }

    fn knows(tag: &str) -> (r: bool) {
        same_text(tag, "answerShippingQuery")
    }

    proof fn tag_known(&self) {
        reveal(<AnswerShippingQuery as Wire>::wire);
        assert(tag_of(self.wire()) == Some("answerShippingQuery"@));
        assert(Self::known("answerShippingQuery"@));
    }
}

impl Method for AnswerShippingQuery {
    const TYPE: &'static str = "answerShippingQuery";

    type Response = Okay;

    proof fn type_is_tag(&self) {
        reveal(<AnswerShippingQuery as Wire>::wire);
        assert(tag_of(self.wire()) == Some("answerShippingQuery"@));
    }
}

/// Sets the result of a pre-checkout query; for bots only
#[derive(Debug, Clone)]
pub struct AnswerPreCheckoutQuery {
    /// Identifier of the pre-checkout query
    pub pre_checkout_query_id: i64,
    /// An error message, empty on success
    pub error_message: String,
}

impl Wire for AnswerPreCheckoutQuery {
    #[verifier::opaque]
    open spec fn wire(&self) -> Doc {
        tagged(
            Map::empty()
                .insert("preCheckoutQueryId"@, wide_doc(self.pre_checkout_query_id))
                .insert("errorMessage"@, self.error_message.wire()),
            "answerPreCheckoutQuery"@,
        )
    }

    #[verifier::opaque]
    open spec fn parse(d: Doc, at: Seq<char>) -> Result<Doc, Fault> {
        match d {
            Doc::Object(m) => {
                let pre_checkout_query_id = wide_field(m, "preCheckoutQueryId"@);
                let error_message = field::<String>(m, "errorMessage"@);
                if pre_checkout_query_id is Err {
                    pre_checkout_query_id
                } else if error_message is Err {
                    error_message
                } else {
                    Ok(
                        tagged(
                            Map::empty()
                                .insert("preCheckoutQueryId"@, pre_checkout_query_id->Ok_0)
                                .insert("errorMessage"@, error_message->Ok_0),
                            "answerPreCheckoutQuery"@,
                        ),
                    )
                }
            },
            _ => Err(Fault::TypeMismatch(at)),
        }
    }

    fn encode(&self) -> (j: Json) {
        proof {
            reveal(<AnswerPreCheckoutQuery as Wire>::wire);
        }
        let mut members: Vec<Member> = Vec::new();
        put(&mut members, "preCheckoutQueryId", encode_wide(self.pre_checkout_query_id));
        put(&mut members, "errorMessage", self.error_message.encode());
        seal(members, "answerPreCheckoutQuery")
    }

    fn decode(j: &Json, at: &str) -> (r: Result<Self, DecodeError>) {
        proof {
            reveal(<AnswerPreCheckoutQuery as Wire>::wire);
            reveal(<AnswerPreCheckoutQuery as Wire>::parse);
        }
        let members = members_of(j, at)?;
        let pre_checkout_query_id = read_wide(members, "preCheckoutQueryId")?;
        let error_message = read_field::<String>(members, "errorMessage")?;
        Ok(AnswerPreCheckoutQuery { pre_checkout_query_id, error_message })
    }

    proof fn round_trip(&self, at: Seq<char>) {
        reveal(<AnswerPreCheckoutQuery as Wire>::wire);
        reveal(<AnswerPreCheckoutQuery as Wire>::parse);
        reveal_strlit("@type");
        reveal_strlit("errorMessage");
        reveal_strlit("preCheckoutQueryId");
        assert("@type"@.len() == 5);
        assert("errorMessage"@.len() == 12);
        assert("preCheckoutQueryId"@.len() == 18);
        lemma_wide_round_trip(self.pre_checkout_query_id, "preCheckoutQueryId"@);
        self.error_message.round_trip("errorMessage"@);
    }
}

impl Tagged for AnswerPreCheckoutQuery {
    open spec fn known(tag: Seq<char>) -> bool {
        tag == "answerPreCheckoutQuery"@
    }

    fn knows(tag: &str) -> (r: bool) {
        same_text(tag, "answerPreCheckoutQuery")
    }

    proof fn tag_known(&self) {
        reveal(<AnswerPreCheckoutQuery as Wire>::wire);
        assert(tag_of(self.wire()) == Some("answerPreCheckoutQuery"@));
        assert(Self::known("answerPreCheckoutQuery"@));
    }
}

impl Method for AnswerPreCheckoutQuery {
    const TYPE: &'static str = "answerPreCheckoutQuery";

    type Response = Okay;

    proof fn type_is_tag(&self) {
        reveal(<AnswerPreCheckoutQuery as Wire>::wire);
        assert(tag_of(self.wire()) == Some("answerPreCheckoutQuery"@));
    }
}

/// Updates the game score of the specified user in the game; for bots only
#[derive(Debug, Clone)]
pub struct SetGameScore {
    /// The chat to which the message with the game belongs
    pub chat_id: i64,
    /// Identifier of the message
    pub message_id: i64,
    /// True, if the message should be edited
    pub edit_message: bool,
    /// User identifier
    pub user_id: i32,
    /// The new score
    pub score: i32,
    /// Pass true to update the score even if it decreases. If the score is 0, the user will be
    /// deleted from the high score table
    pub force: bool,
}

impl Wire for SetGameScore {
    #[verifier::opaque]
    open spec fn wire(&self) -> Doc {
        tagged(
            Map::empty()
                .insert("chatId"@, self.chat_id.wire())
                .insert("messageId"@, self.message_id.wire())
                .insert("editMessage"@, self.edit_message.wire())
                .insert("userId"@, self.user_id.wire())
                .insert("score"@, self.score.wire())
                .insert("force"@, self.force.wire()),
            "setGameScore"@,
        )
    }

    #[verifier::opaque]
    open spec fn parse(d: Doc, at: Seq<char>) -> Result<Doc, Fault> {
        match d {
            Doc::Object(m) => {
                let chat_id = field::<i64>(m, "chatId"@);
                let message_id = field::<i64>(m, "messageId"@);
                let edit_message = field::<bool>(m, "editMessage"@);
                let user_id = field::<i32>(m, "userId"@);
                let score = field::<i32>(m, "score"@);
                let force = field::<bool>(m, "force"@);
                if chat_id is Err {
                    chat_id
                } else if message_id is Err {
                    message_id
                } else if edit_message is Err {
                    edit_message
                } else if user_id is Err {
                    user_id
                } else if score is Err {
                    score
                } else if force is Err {
                    force
                } else {
                    Ok(
                        tagged(
                            Map::empty()
                                .insert("chatId"@, chat_id->Ok_0)
                                .insert("messageId"@, message_id->Ok_0)
                                .insert("editMessage"@, edit_message->Ok_0)
                                .insert("userId"@, user_id->Ok_0)
                                .insert("score"@, score->Ok_0)
                                .insert("force"@, force->Ok_0),
                            "setGameScore"@,
                        ),
                    )
                }
            },
            _ => Err(Fault::TypeMismatch(at)),
        }
    }

    fn encode(&self) -> (j: Json) {
        proof {
            reveal(<SetGameScore as Wire>::wire);
        }
        let mut members: Vec<Member> = Vec::new();
        put(&mut members, "chatId", self.chat_id.encode());
        put(&mut members, "messageId", self.message_id.encode());
        put(&mut members, "editMessage", self.edit_message.encode());
        put(&mut members, "userId", self.user_id.encode());
        put(&mut members, "score", self.score.encode());
        put(&mut members, "force", self.force.encode());
        seal(members, "setGameScore")
    }

    fn decode(j: &Json, at: &str) -> (r: Result<Self, DecodeError>) {
        proof {
            reveal(<SetGameScore as Wire>::wire);
            reveal(<SetGameScore as Wire>::parse);
        }
        let members = members_of(j, at)?;
        let chat_id = read_field::<i64>(members, "chatId")?;
        let message_id = read_field::<i64>(members, "messageId")?;
        let edit_message = read_field::<bool>(members, "editMessage")?;
        let user_id = read_field::<i32>(members, "userId")?;
        let score = read_field::<i32>(members, "score")?;
        let force = read_field::<bool>(members, "force")?;
        Ok(SetGameScore { chat_id, message_id, edit_message, user_id, score, force })
    }

    proof fn round_trip(&self, at: Seq<char>) {
        reveal(<SetGameScore as Wire>::wire);
        reveal(<SetGameScore as Wire>::parse);
        reveal_strlit("@type");
        reveal_strlit("chatId");
        reveal_strlit("editMessage");
        reveal_strlit("force");
        reveal_strlit("messageId");
        reveal_strlit("score");
        reveal_strlit("userId");
        assert("@type"@.len() == 5 && "@type"@[0] == '@');
        assert("chatId"@.len() == 6 && "chatId"@[0] == 'c');
        assert("editMessage"@.len() == 11);
        assert("force"@.len() == 5 && "force"@[0] == 'f');
        assert("messageId"@.len() == 9);
        assert("score"@.len() == 5 && "score"@[0] == 's');
        assert("userId"@.len() == 6 && "userId"@[0] == 'u');
        self.chat_id.round_trip("chatId"@);
        self.message_id.round_trip("messageId"@);
        self.edit_message.round_trip("editMessage"@);
        self.user_id.round_trip("userId"@);
        self.score.round_trip("score"@);
        self.force.round_trip("force"@);
    }
}

impl Tagged for SetGameScore {
    open spec fn known(tag: Seq<char>) -> bool {
        tag == "setGameScore"@
    }

    fn knows(tag: &str) -> (r: bool) {
        same_text(tag, "setGameScore")
    }

    proof fn tag_known(&self) {
        reveal(<SetGameScore as Wire>::wire);
        assert(tag_of(self.wire()) == Some("setGameScore"@));
        assert(Self::known("setGameScore"@));
    }
}

impl Method for SetGameScore {
    const TYPE: &'static str = "setGameScore";

    type Response = Message;

    proof fn type_is_tag(&self) {
        reveal(<SetGameScore as Wire>::wire);
        assert(tag_of(self.wire()) == Some("setGameScore"@));
    }
}

/// Updates the game score of the specified user in a game; for bots only
#[derive(Debug, Clone)]
pub struct SetInlineGameScore {
    /// Inline message identifier
    pub inline_message_id: String,
    /// True, if the message should be edited
    pub edit_message: bool,
    /// User identifier
    pub user_id: i32,
    /// The new score
    pub score: i32,
    /// Pass true to update the score even if it decreases. If the score is 0, the user will be
    /// deleted from the high score table
    pub force: bool,
}

impl Wire for SetInlineGameScore {
    #[verifier::opaque]
    open spec fn wire(&self) -> Doc {
        tagged(
            Map::empty()
                .insert("inlineMessageId"@, self.inline_message_id.wire())
                .insert("editMessage"@, self.edit_message.wire())
                .insert("userId"@, self.user_id.wire())
                .insert("score"@, self.score.wire())
                .insert("force"@, self.force.wire()),
            "setInlineGameScore"@,
        )
    }

    #[verifier::opaque]
    open spec fn parse(d: Doc, at: Seq<char>) -> Result<Doc, Fault> {
        match d {
            Doc::Object(m) => {
                let inline_message_id = field::<String>(m, "inlineMessageId"@);
                let edit_message = field::<bool>(m, "editMessage"@);
                let user_id = field::<i32>(m, "userId"@);
                let score = field::<i32>(m, "score"@);
                let force = field::<bool>(m, "force"@);
                if inline_message_id is Err {
                    inline_message_id
                } else if edit_message is Err {
                    edit_message
                } else if user_id is Err {
                    user_id
                } else if score is Err {
                    score
                } else if force is Err {
                    force
                } else {
                    Ok(
                        tagged(
                            Map::empty()
                                .insert("inlineMessageId"@, inline_message_id->Ok_0)
                                .insert("editMessage"@, edit_message->Ok_0)
                                .insert("userId"@, user_id->Ok_0)
                                .insert("score"@, score->Ok_0)
                                .insert("force"@, force->Ok_0),
                            "setInlineGameScore"@,
                        ),
                    )
                }
            },
            _ => Err(Fault::TypeMismatch(at)),
        }
    }

    fn encode(&self) -> (j: Json) {
        proof {
            reveal(<SetInlineGameScore as Wire>::wire);
        }
        let mut members: Vec<Member> = Vec::new();
        put(&mut members, "inlineMessageId", self.inline_message_id.encode());
        put(&mut members, "editMessage", self.edit_message.encode());
        put(&mut members, "userId", self.user_id.encode());
        put(&mut members, "score", self.score.encode());
        put(&mut members, "force", self.force.encode());
        seal(members, "setInlineGameScore")
    }

    fn decode(j: &Json, at: &str) -> (r: Result<Self, DecodeError>) {
        proof {
            reveal(<SetInlineGameScore as Wire>::wire);
            reveal(<SetInlineGameScore as Wire>::parse);
        }
        let members = members_of(j, at)?;
        let inline_message_id = read_field::<String>(members, "inlineMessageId")?;
        let edit_message = read_field::<bool>(members, "editMessage")?;
        let user_id = read_field::<i32>(members, "userId")?;
        let score = read_field::<i32>(members, "score")?;
        let force = read_field::<bool>(members, "force")?;
        Ok(SetInlineGameScore { inline_message_id, edit_message, user_id, score, force })
    }

    proof fn round_trip(&self, at: Seq<char>) {
        reveal(<SetInlineGameScore as Wire>::wire);
        reveal(<SetInlineGameScore as Wire>::parse);
        reveal_strlit("@type");
        reveal_strlit("editMessage");
        reveal_strlit("force");
        reveal_strlit("inlineMessageId");
        reveal_strlit("score");
        reveal_strlit("userId");
        assert("@type"@.len() == 5 && "@type"@[0] == '@');
        assert("editMessage"@.len() == 11);
        assert("force"@.len() == 5 && "force"@[0] == 'f');
        assert("inlineMessageId"@.len() == 15);
        assert("score"@.len() == 5 && "score"@[0] == 's');
        assert("userId"@.len() == 6);
        self.inline_message_id.round_trip("inlineMessageId"@);
        self.edit_message.round_trip("editMessage"@);
        self.user_id.round_trip("userId"@);
        self.score.round_trip("score"@);
        self.force.round_trip("force"@);
    }
}

impl Tagged for SetInlineGameScore {
    open spec fn known(tag: Seq<char>) -> bool {
        tag == "setInlineGameScore"@
    }

    fn knows(tag: &str) -> (r: bool) {
        same_text(tag, "setInlineGameScore")
    }

    proof fn tag_known(&self) {
        reveal(<SetInlineGameScore as Wire>::wire);
        assert(tag_of(self.wire()) == Some("setInlineGameScore"@));
        assert(Self::known("setInlineGameScore"@));
    }
}

impl Method for SetInlineGameScore {
    const TYPE: &'static str = "setInlineGameScore";

    type Response = Okay;

    proof fn type_is_tag(&self) {
        reveal(<SetInlineGameScore as Wire>::wire);
        assert(tag_of(self.wire()) == Some("setInlineGameScore"@));
    }
}

/// Returns the high scores for a game and some part of the high score table in the range of the
/// specified user; for bots only
#[derive(Debug, Clone)]
pub struct GetGameHighScores {
    /// The chat that contains the message with the game
    pub chat_id: i64,
    /// Identifier of the message
    pub message_id: i64,
    /// User identifier
    pub user_id: i32,
}

impl Wire for GetGameHighScores {
    #[verifier::opaque]
    open spec fn wire(&self) -> Doc {
        tagged(
            Map::empty()
                .insert("chatId"@, self.chat_id.wire())
                .insert("messageId"@, self.message_id.wire())
                .insert("userId"@, self.user_id.wire()),
            "getGameHighScores"@,
        )
    }

    #[verifier::opaque]
    open spec fn parse(d: Doc, at: Seq<char>) -> Result<Doc, Fault> {
        match d {
            Doc::Object(m) => {
                let chat_id = field::<i64>(m, "chatId"@);
                let message_id = field::<i64>(m, "messageId"@);
                let user_id = field::<i32>(m, "userId"@);
                if chat_id is Err {
                    chat_id
                } else if message_id is Err {
                    message_id
                } else if user_id is Err {
                    user_id
                } else {
                    Ok(
                        tagged(
                            Map::empty()
                                .insert("chatId"@, chat_id->Ok_0)
                                .insert("messageId"@, message_id->Ok_0)
                                .insert("userId"@, user_id->Ok_0),
                            "getGameHighScores"@,
                        ),
                    )
                }
            },
            _ => Err(Fault::TypeMismatch(at)),
        }
    }

    fn encode(&self) -> (j: Json) {
        proof {
            reveal(<GetGameHighScores as Wire>::wire);
        }
        let mut members: Vec<Member> = Vec::new();
        put(&mut members, "chatId", self.chat_id.encode());
        put(&mut members, "messageId", self.message_id.encode());
        put(&mut members, "userId", self.user_id.encode());
        seal(members, "getGameHighScores")
    }

    fn decode(j: &Json, at: &str) -> (r: Result<Self, DecodeError>) {
        proof {
            reveal(<GetGameHighScores as Wire>::wire);
            reveal(<GetGameHighScores as Wire>::parse);
        }
        let members = members_of(j, at)?;
        let chat_id = read_field::<i64>(members, "chatId")?;
        let message_id = read_field::<i64>(members, "messageId")?;
        let user_id = read_field::<i32>(members, "userId")?;
        Ok(GetGameHighScores { chat_id, message_id, user_id })
    }

    proof fn round_trip(&self, at: Seq<char>) {
        reveal(<GetGameHighScores as Wire>::wire);
        reveal(<GetGameHighScores as Wire>::parse);
        reveal_strlit("@type");
        reveal_strlit("chatId");
        reveal_strlit("messageId");
        reveal_strlit("userId");
        assert("@type"@.len() == 5);
        assert("chatId"@.len() == 6 && "chatId"@[0] == 'c');
        assert("messageId"@.len() == 9);
        assert("userId"@.len() == 6 && "userId"@[0] == 'u');
        self.chat_id.round_trip("chatId"@);
        self.message_id.round_trip("messageId"@);
        self.user_id.round_trip("userId"@);
    }
}

impl Tagged for GetGameHighScores {
    open spec fn known(tag: Seq<char>) -> bool {
        tag == "getGameHighScores"@
    }

    fn knows(tag: &str) -> (r: bool) {
        same_text(tag, "getGameHighScores")
    }

    proof fn tag_known(&self) {
        reveal(<GetGameHighScores as Wire>::wire);
        assert(tag_of(self.wire()) == Some("getGameHighScores"@));
        assert(Self::known("getGameHighScores"@));
    }
}

impl Method for GetGameHighScores {
    const TYPE: &'static str = "getGameHighScores";

    type Response = GameHighScores;

    proof fn type_is_tag(&self) {
        reveal(<GetGameHighScores as Wire>::wire);
        assert(tag_of(self.wire()) == Some("getGameHighScores"@));
    }
}

/// Returns game high scores and some part of the high score table in the range of the specified
/// user; for bots only
#[derive(Debug, Clone)]
pub struct GetInlineGameHighScores {
    /// Inline message identifier
    pub inline_message_id: String,
    /// User identifier
    pub user_id: i32,
}

impl Wire for GetInlineGameHighScores {
    #[verifier::opaque]
    open spec fn wire(&self) -> Doc {
        tagged(
            Map::empty()
                .insert("inlineMessageId"@, self.inline_message_id.wire())
                .insert("userId"@, self.user_id.wire()),
            "getInlineGameHighScores"@,
        )
    }

    #[verifier::opaque]
    open spec fn parse(d: Doc, at: Seq<char>) -> Result<Doc, Fault> {
        match d {
            Doc::Object(m) => {
                let inline_message_id = field::<String>(m, "inlineMessageId"@);
                let user_id = field::<i32>(m, "userId"@);
                if inline_message_id is Err {
                    inline_message_id
                } else if user_id is Err {
                    user_id
                } else {
                    Ok(
                        tagged(
                            Map::empty()
                                .insert("inlineMessageId"@, inline_message_id->Ok_0)
                                .insert("userId"@, user_id->Ok_0),
                            "getInlineGameHighScores"@,
                        ),
                    )
                }
            },
            _ => Err(Fault::TypeMismatch(at)),
        }
    }

    fn encode(&self) -> (j: Json) {
        proof {
            reveal(<GetInlineGameHighScores as Wire>::wire);
        }
        let mut members: Vec<Member> = Vec::new();
        put(&mut members, "inlineMessageId", self.inline_message_id.encode());
        put(&mut members, "userId", self.user_id.encode());
        seal(members, "getInlineGameHighScores")
    }

    fn decode(j: &Json, at: &str) -> (r: Result<Self, DecodeError>) {
        proof {
            reveal(<GetInlineGameHighScores as Wire>::wire);
            reveal(<GetInlineGameHighScores as Wire>::parse);
        }
        let members = members_of(j, at)?;
        let inline_message_id = read_field::<String>(members, "inlineMessageId")?;
        let user_id = read_field::<i32>(members, "userId")?;
        Ok(GetInlineGameHighScores { inline_message_id, user_id })
    }

    proof fn round_trip(&self, at: Seq<char>) {
        reveal(<GetInlineGameHighScores as Wire>::wire);
        reveal(<GetInlineGameHighScores as Wire>::parse);
        reveal_strlit("@type");
        reveal_strlit("inlineMessageId");
        reveal_strlit("userId");
        assert("@type"@.len() == 5);
        assert("inlineMessageId"@.len() == 15);
        assert("userId"@.len() == 6);
        self.inline_message_id.round_trip("inlineMessageId"@);
        self.user_id.round_trip("userId"@);
    }
}

impl Tagged for GetInlineGameHighScores {
    open spec fn known(tag: Seq<char>) -> bool {
        tag == "getInlineGameHighScores"@
    }

    fn knows(tag: &str) -> (r: bool) {
        same_text(tag, "getInlineGameHighScores")
    }

    proof fn tag_known(&self) {
        reveal(<GetInlineGameHighScores as Wire>::wire);
        assert(tag_of(self.wire()) == Some("getInlineGameHighScores"@));
        assert(Self::known("getInlineGameHighScores"@));
    }
}

impl Method for GetInlineGameHighScores {
    const TYPE: &'static str = "getInlineGameHighScores";

    type Response = GameHighScores;

    proof fn type_is_tag(&self) {
        reveal(<GetInlineGameHighScores as Wire>::wire);
        assert(tag_of(self.wire()) == Some("getInlineGameHighScores"@));
    }
}

} // verus!
