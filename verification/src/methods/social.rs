//! Requests on calls, contacts, stickers and saved media.

use vstd::prelude::*;
use crate::codec::{
    encode_wide, field, lemma_wide_round_trip, members_of, put, read_field, read_wide, seal,
    Tagged, wide_doc, wide_field, Wire,
};
use crate::error::{DecodeError, Fault};
use crate::json::{Doc, Json, Member, Number, tag_of, tagged};
use crate::methods::Method;
use crate::text::same_text;
use crate::types::{
    Animations, CallId, CallProblem, CallProtocol, Contact, Count, Emojis, FormattedText,
    Hashtags, HttpUrl, ImportedContacts, InputFile, Okay, StickerSet, StickerSets, Stickers,
    UserProfilePhotos, Users, WebPage, WebPageInstantView,
};

verus! {

/// Creates a new call
#[derive(Debug, Clone)]
pub struct CreateCall {
    /// Identifier of the user to be called
    pub user_id: i32,
    /// Description of the call protocols supported by the client
    pub protocol: CallProtocol,
}

impl Wire for CreateCall {
    #[verifier::opaque]
    open spec fn wire(&self) -> Doc {
        tagged(
            Map::empty()
                .insert("userId"@, self.user_id.wire())
                .insert("protocol"@, self.protocol.wire()),
            "createCall"@,
        )
    }

    #[verifier::opaque]
    open spec fn parse(d: Doc, at: Seq<char>) -> Result<Doc, Fault> {
        match d {
            Doc::Object(m) => {
                let user_id = field::<i32>(m, "userId"@);
                let protocol = field::<CallProtocol>(m, "protocol"@);
                if user_id is Err {
                    user_id
                } else if protocol is Err {
                    protocol
                } else {
                    Ok(
                        tagged(
                            Map::empty()
                                .insert("userId"@, user_id->Ok_0)
                                .insert("protocol"@, protocol->Ok_0),
                            "createCall"@,
                        ),
                    )
                }
            },
            _ => Err(Fault::TypeMismatch(at)),
        }
    }

    fn encode(&self) -> (j: Json) {
        proof {
            reveal(<CreateCall as Wire>::wire);
        }
        let mut members: Vec<Member> = Vec::new();
        put(&mut members, "userId", self.user_id.encode());
        put(&mut members, "protocol", self.protocol.encode());
        seal(members, "createCall")
    }

    fn decode(j: &Json, at: &str) -> (r: Result<Self, DecodeError>) {
        proof {
            reveal(<CreateCall as Wire>::wire);
            reveal(<CreateCall as Wire>::parse);
        }
        let members = members_of(j, at)?;
        let user_id = read_field::<i32>(members, "userId")?;
        let protocol = read_field::<CallProtocol>(members, "protocol")?;
        Ok(CreateCall { user_id, protocol })
    }

    proof fn round_trip(&self, at: Seq<char>) {
        reveal(<CreateCall as Wire>::wire);
        reveal(<CreateCall as Wire>::parse);
        reveal_strlit("@type");
        reveal_strlit("protocol");
        reveal_strlit("userId");
        assert("@type"@.len() == 5);
        assert("protocol"@.len() == 8);
        assert("userId"@.len() == 6);
        self.user_id.round_trip("userId"@);
        self.protocol.round_trip("protocol"@);
    }
}

impl Tagged for CreateCall {
    open spec fn known(tag: Seq<char>) -> bool {
        tag == "createCall"@
    }

    fn knows(tag: &str) -> (r: bool) {
        same_text(tag, "createCall")
    }

    proof fn tag_known(&self) {
        reveal(<CreateCall as Wire>::wire);
        assert(tag_of(self.wire()) == Some("createCall"@));
        assert(Self::known("createCall"@));
    }
}

impl Method for CreateCall {
    const TYPE: &'static str = "createCall";

    type Response = CallId;

    proof fn type_is_tag(&self) {
        reveal(<CreateCall as Wire>::wire);
        assert(tag_of(self.wire()) == Some("createCall"@));
    }
}

/// Accepts an incoming call
#[derive(Debug, Clone)]
pub struct AcceptCall {
    /// Call identifier
    pub call_id: i32,
    /// Description of the call protocols supported by the client
    pub protocol: CallProtocol,
}

impl Wire for AcceptCall {
    #[verifier::opaque]
    open spec fn wire(&self) -> Doc {
        tagged(
            Map::empty()
                .insert("callId"@, self.call_id.wire())
                .insert("protocol"@, self.protocol.wire()),
            "acceptCall"@,
        )
    }

    #[verifier::opaque]
    open spec fn parse(d: Doc, at: Seq<char>) -> Result<Doc, Fault> {
        match d {
            Doc::Object(m) => {
                let call_id = field::<i32>(m, "callId"@);
                let protocol = field::<CallProtocol>(m, "protocol"@);
                if call_id is Err {
                    call_id
                } else if protocol is Err {
                    protocol
                } else {
                    Ok(
                        tagged(
                            Map::empty()
                                .insert("callId"@, call_id->Ok_0)
                                .insert("protocol"@, protocol->Ok_0),
                            "acceptCall"@,
                        ),
                    )
                }
            },
            _ => Err(Fault::TypeMismatch(at)),
        }
    }

    fn encode(&self) -> (j: Json) {
        proof {
            reveal(<AcceptCall as Wire>::wire);
        }
        let mut members: Vec<Member> = Vec::new();
        put(&mut members, "callId", self.call_id.encode());
        put(&mut members, "protocol", self.protocol.encode());
        seal(members, "acceptCall")
    }

    fn decode(j: &Json, at: &str) -> (r: Result<Self, DecodeError>) {
        proof {
            reveal(<AcceptCall as Wire>::wire);
            reveal(<AcceptCall as Wire>::parse);
        }
        let members = members_of(j, at)?;
        let call_id = read_field::<i32>(members, "callId")?;
        let protocol = read_field::<CallProtocol>(members, "protocol")?;
        Ok(AcceptCall { call_id, protocol })
    }

    proof fn round_trip(&self, at: Seq<char>) {
        reveal(<AcceptCall as Wire>::wire);
        reveal(<AcceptCall as Wire>::parse);
        reveal_strlit("@type");
        reveal_strlit("callId");
        reveal_strlit("protocol");
        assert("@type"@.len() == 5);
        assert("callId"@.len() == 6);
        assert("protocol"@.len() == 8);
        self.call_id.round_trip("callId"@);
        self.protocol.round_trip("protocol"@);
    }
}

impl Tagged for AcceptCall {
    open spec fn known(tag: Seq<char>) -> bool {
        tag == "acceptCall"@
    }

    fn knows(tag: &str) -> (r: bool) {
        same_text(tag, "acceptCall")
    }

    proof fn tag_known(&self) {
        reveal(<AcceptCall as Wire>::wire);
        assert(tag_of(self.wire()) == Some("acceptCall"@));
        assert(Self::known("acceptCall"@));
    }
}

impl Method for AcceptCall {
    const TYPE: &'static str = "acceptCall";

    type Response = Okay;

    proof fn type_is_tag(&self) {
        reveal(<AcceptCall as Wire>::wire);
        assert(tag_of(self.wire()) == Some("acceptCall"@));
    }
}

/// Discards a call
#[derive(Debug, Clone)]
pub struct DiscardCall {
    /// Call identifier
    pub call_id: i32,
    /// True, if the user was disconnected
    pub is_disconnected: bool,
    /// The call duration, in seconds
    pub duration: i32,
    /// Identifier of the connection used during the call
    pub connection_id: i64,
}

impl Wire for DiscardCall {
    #[verifier::opaque]
    open spec fn wire(&self) -> Doc {
        tagged(
            Map::empty()
                .insert("callId"@, self.call_id.wire())
                .insert("isDisconnected"@, self.is_disconnected.wire())
                .insert("duration"@, self.duration.wire())
                .insert("connectionId"@, wide_doc(self.connection_id)),
            "discardCall"@,
        )
    }

    #[verifier::opaque]
    open spec fn parse(d: Doc, at: Seq<char>) -> Result<Doc, Fault> {
        match d {
            Doc::Object(m) => {
                let call_id = field::<i32>(m, "callId"@);
                let is_disconnected = field::<bool>(m, "isDisconnected"@);
                let duration = field::<i32>(m, "duration"@);
                let connection_id = wide_field(m, "connectionId"@);
                if call_id is Err {
                    call_id
                } else if is_disconnected is Err {
                    is_disconnected
                } else if duration is Err {
                    duration
                } else if connection_id is Err {
                    connection_id
                } else {
                    Ok(
                        tagged(
                            Map::empty()
                                .insert("callId"@, call_id->Ok_0)
                                .insert("isDisconnected"@, is_disconnected->Ok_0)
                                .insert("duration"@, duration->Ok_0)
                                .insert("connectionId"@, connection_id->Ok_0),
                            "discardCall"@,
                        ),
                    )
                }
            },
            _ => Err(Fault::TypeMismatch(at)),
        }
    }

    fn encode(&self) -> (j: Json) {
        proof {
            reveal(<DiscardCall as Wire>::wire);
        }
        let mut members: Vec<Member> = Vec::new();
        put(&mut members, "callId", self.call_id.encode());
        put(&mut members, "isDisconnected", self.is_disconnected.encode());
        put(&mut members, "duration", self.duration.encode());
        put(&mut members, "connectionId", encode_wide(self.connection_id));
        seal(members, "discardCall")
    }

    fn decode(j: &Json, at: &str) -> (r: Result<Self, DecodeError>) {
        proof {
            reveal(<DiscardCall as Wire>::wire);
            reveal(<DiscardCall as Wire>::parse);
        }
        let members = members_of(j, at)?;
        let call_id = read_field::<i32>(members, "callId")?;
        let is_disconnected = read_field::<bool>(members, "isDisconnected")?;
        let duration = read_field::<i32>(members, "duration")?;
        let connection_id = read_wide(members, "connectionId")?;
        Ok(DiscardCall { call_id, is_disconnected, duration, connection_id })
    }

    proof fn round_trip(&self, at: Seq<char>) {
        reveal(<DiscardCall as Wire>::wire);
        reveal(<DiscardCall as Wire>::parse);
        reveal_strlit("@type");
        reveal_strlit("callId");
        reveal_strlit("connectionId");
        reveal_strlit("duration");
        reveal_strlit("isDisconnected");
        assert("@type"@.len() == 5);
        assert("callId"@.len() == 6);
        assert("connectionId"@.len() == 12);
        assert("duration"@.len() == 8);
        assert("isDisconnected"@.len() == 14);
        self.call_id.round_trip("callId"@);
        self.is_disconnected.round_trip("isDisconnected"@);
        self.duration.round_trip("duration"@);
        lemma_wide_round_trip(self.connection_id, "connectionId"@);
    }
}

impl Tagged for DiscardCall {
    open spec fn known(tag: Seq<char>) -> bool {
        tag == "discardCall"@
    }

    fn knows(tag: &str) -> (r: bool) {
        same_text(tag, "discardCall")
    }

    proof fn tag_known(&self) {
        reveal(<DiscardCall as Wire>::wire);
        assert(tag_of(self.wire()) == Some("discardCall"@));
        assert(Self::known("discardCall"@));
    }
}

impl Method for DiscardCall {
    const TYPE: &'static str = "discardCall";

    type Response = Okay;

    proof fn type_is_tag(&self) {
        reveal(<DiscardCall as Wire>::wire);
        assert(tag_of(self.wire()) == Some("discardCall"@));
    }
}

/// Sends a call rating
#[derive(Debug, Clone)]
pub struct SendCallRating {
    /// Call identifier
    pub call_id: i32,
    /// Call rating; 1-5
    pub rating: i32,
    /// An optional user comment if the rating is less than 5
    pub comment: String,
    /// List of the exact types of problems with the call, specified by the user
    pub problems: Vec<CallProblem>,
}

impl Wire for SendCallRating {
    #[verifier::opaque]
    open spec fn wire(&self) -> Doc {
        tagged(
            Map::empty()
                .insert("callId"@, self.call_id.wire())
                .insert("rating"@, self.rating.wire())
                .insert("comment"@, self.comment.wire())
                .insert("problems"@, self.problems.wire()),
            "sendCallRating"@,
        )
    }

    #[verifier::opaque]
    open spec fn parse(d: Doc, at: Seq<char>) -> Result<Doc, Fault> {
        match d {
            Doc::Object(m) => {
                let call_id = field::<i32>(m, "callId"@);
                let rating = field::<i32>(m, "rating"@);
                let comment = field::<String>(m, "comment"@);
                let problems = field::<Vec<CallProblem>>(m, "problems"@);
                if call_id is Err {
                    call_id
                } else if rating is Err {
                    rating
                } else if comment is Err {
                    comment
                } else if problems is Err {
                    problems
                } else {
                    Ok(
                        tagged(
                            Map::empty()
                                .insert("callId"@, call_id->Ok_0)
                                .insert("rating"@, rating->Ok_0)
                                .insert("comment"@, comment->Ok_0)
                                .insert("problems"@, problems->Ok_0),
                            "sendCallRating"@,
                        ),
                    )
                }
            },
            _ => Err(Fault::TypeMismatch(at)),
        }
    }

    fn encode(&self) -> (j: Json) {
        proof {
            reveal(<SendCallRating as Wire>::wire);
        }
        let mut members: Vec<Member> = Vec::new();
        put(&mut members, "callId", self.call_id.encode());
        put(&mut members, "rating", self.rating.encode());
        put(&mut members, "comment", self.comment.encode());
        put(&mut members, "problems", self.problems.encode());
        seal(members, "sendCallRating")
    }

    fn decode(j: &Json, at: &str) -> (r: Result<Self, DecodeError>) {
        proof {
            reveal(<SendCallRating as Wire>::wire);
            reveal(<SendCallRating as Wire>::parse);
        }
        let members = members_of(j, at)?;
        let call_id = read_field::<i32>(members, "callId")?;
        let rating = read_field::<i32>(members, "rating")?;
        let comment = read_field::<String>(members, "comment")?;
        let problems = read_field::<Vec<CallProblem>>(members, "problems")?;
        Ok(SendCallRating { call_id, rating, comment, problems })
    }

    proof fn round_trip(&self, at: Seq<char>) {
        reveal(<SendCallRating as Wire>::wire);
        reveal(<SendCallRating as Wire>::parse);
        reveal_strlit("@type");
        reveal_strlit("callId");
        reveal_strlit("comment");
        reveal_strlit("problems");
        reveal_strlit("rating");
        assert("@type"@.len() == 5);
        assert("callId"@.len() == 6 && "callId"@[0] == 'c');
        assert("comment"@.len() == 7);
        assert("problems"@.len() == 8);
        assert("rating"@.len() == 6 && "rating"@[0] == 'r');
        self.call_id.round_trip("callId"@);
        self.rating.round_trip("rating"@);
        self.comment.round_trip("comment"@);
        self.problems.round_trip("problems"@);
    }
}

impl Tagged for SendCallRating {
    open spec fn known(tag: Seq<char>) -> bool {
        tag == "sendCallRating"@
    }

    fn knows(tag: &str) -> (r: bool) {
        same_text(tag, "sendCallRating")
    }

    proof fn tag_known(&self) {
        reveal(<SendCallRating as Wire>::wire);
        assert(tag_of(self.wire()) == Some("sendCallRating"@));
        assert(Self::known("sendCallRating"@));
    }
}

impl Method for SendCallRating {
    const TYPE: &'static str = "sendCallRating";

    type Response = Okay;

    proof fn type_is_tag(&self) {
        reveal(<SendCallRating as Wire>::wire);
        assert(tag_of(self.wire()) == Some("sendCallRating"@));
    }
}

/// Sends debug information for a call
#[derive(Debug, Clone)]
pub struct SendCallDebugInformation {
    /// Call identifier
    pub call_id: i32,
    /// Debug information in application-specific format
    pub debug_information: String,
}

impl Wire for SendCallDebugInformation {
    #[verifier::opaque]
    open spec fn wire(&self) -> Doc {
        tagged(
            Map::empty()
                .insert("callId"@, self.call_id.wire())
                .insert("debugInformation"@, self.debug_information.wire()),
            "sendCallDebugInformation"@,
        )
    }

    #[verifier::opaque]
    open spec fn parse(d: Doc, at: Seq<char>) -> Result<Doc, Fault> {
        match d {
            Doc::Object(m) => {
                let call_id = field::<i32>(m, "callId"@);
                let debug_information = field::<String>(m, "debugInformation"@);
                if call_id is Err {
                    call_id
                } else if debug_information is Err {
                    debug_information
                } else {
                    Ok(
                        tagged(
                            Map::empty()
                                .insert("callId"@, call_id->Ok_0)
                                .insert("debugInformation"@, debug_information->Ok_0),
                            "sendCallDebugInformation"@,
                        ),
                    )
                }
            },
            _ => Err(Fault::TypeMismatch(at)),
        }
    }

    fn encode(&self) -> (j: Json) {
        proof {
            reveal(<SendCallDebugInformation as Wire>::wire);
        }
        let mut members: Vec<Member> = Vec::new();
        put(&mut members, "callId", self.call_id.encode());
        put(&mut members, "debugInformation", self.debug_information.encode());
        seal(members, "sendCallDebugInformation")
    }

    fn decode(j: &Json, at: &str) -> (r: Result<Self, DecodeError>) {
        proof {
            reveal(<SendCallDebugInformation as Wire>::wire);
            reveal(<SendCallDebugInformation as Wire>::parse);
        }
        let members = members_of(j, at)?;
        let call_id = read_field::<i32>(members, "callId")?;
        let debug_information = read_field::<String>(members, "debugInformation")?;
        Ok(SendCallDebugInformation { call_id, debug_information })
    }

    proof fn round_trip(&self, at: Seq<char>) {
        reveal(<SendCallDebugInformation as Wire>::wire);
        reveal(<SendCallDebugInformation as Wire>::parse);
        reveal_strlit("@type");
        reveal_strlit("callId");
        reveal_strlit("debugInformation");
        assert("@type"@.len() == 5);
        assert("callId"@.len() == 6);
        assert("debugInformation"@.len() == 16);
        self.call_id.round_trip("callId"@);
        self.debug_information.round_trip("debugInformation"@);
    }
}

impl Tagged for SendCallDebugInformation {
    open spec fn known(tag: Seq<char>) -> bool {
        tag == "sendCallDebugInformation"@
    }

    fn knows(tag: &str) -> (r: bool) {
        same_text(tag, "sendCallDebugInformation")
    }

    proof fn tag_known(&self) {
        reveal(<SendCallDebugInformation as Wire>::wire);
        assert(tag_of(self.wire()) == Some("sendCallDebugInformation"@));
        assert(Self::known("sendCallDebugInformation"@));
    }
}

impl Method for SendCallDebugInformation {
    const TYPE: &'static str = "sendCallDebugInformation";

    type Response = Okay;

    proof fn type_is_tag(&self) {
        reveal(<SendCallDebugInformation as Wire>::wire);
        assert(tag_of(self.wire()) == Some("sendCallDebugInformation"@));
    }
}

/// Adds a user to the blacklist
#[derive(Debug, Clone)]
pub struct BlockUser {
    /// User identifier
    pub user_id: i32,
}

impl Wire for BlockUser {
    #[verifier::opaque]
    open spec fn wire(&self) -> Doc {
        tagged(
            Map::empty()
                .insert("userId"@, self.user_id.wire()),
            "blockUser"@,
        )
    }

    #[verifier::opaque]
    open spec fn parse(d: Doc, at: Seq<char>) -> Result<Doc, Fault> {
        match d {
            Doc::Object(m) => {
                let user_id = field::<i32>(m, "userId"@);
                if user_id is Err {
                    user_id
                } else {
                    Ok(
                        tagged(
                            Map::empty()
                                .insert("userId"@, user_id->Ok_0),
                            "blockUser"@,
                        ),
                    )
                }
            },
            _ => Err(Fault::TypeMismatch(at)),
        }
    }

    fn encode(&self) -> (j: Json) {
        proof {
            reveal(<BlockUser as Wire>::wire);
        }
        let mut members: Vec<Member> = Vec::new();
        put(&mut members, "userId", self.user_id.encode());
        seal(members, "blockUser")
    }

    fn decode(j: &Json, at: &str) -> (r: Result<Self, DecodeError>) {
        proof {
            reveal(<BlockUser as Wire>::wire);
            reveal(<BlockUser as Wire>::parse);
        }
        let members = members_of(j, at)?;
        let user_id = read_field::<i32>(members, "userId")?;
        Ok(BlockUser { user_id })
    }

    proof fn round_trip(&self, at: Seq<char>) {
        reveal(<BlockUser as Wire>::wire);
        reveal(<BlockUser as Wire>::parse);
        reveal_strlit("@type");
        reveal_strlit("userId");
        assert("@type"@.len() == 5);
        assert("userId"@.len() == 6);
        self.user_id.round_trip("userId"@);
    }
}

impl Tagged for BlockUser {
    open spec fn known(tag: Seq<char>) -> bool {
        tag == "blockUser"@
    }

    fn knows(tag: &str) -> (r: bool) {
        same_text(tag, "blockUser")
    }

    proof fn tag_known(&self) {
        reveal(<BlockUser as Wire>::wire);
        assert(tag_of(self.wire()) == Some("blockUser"@));
        assert(Self::known("blockUser"@));
    }
}

impl Method for BlockUser {
    const TYPE: &'static str = "blockUser";

    type Response = Okay;

    proof fn type_is_tag(&self) {
        reveal(<BlockUser as Wire>::wire);
        assert(tag_of(self.wire()) == Some("blockUser"@));
    }
}

/// Removes a user from the blacklist
#[derive(Debug, Clone)]
pub struct UnblockUser {
    /// User identifier
    pub user_id: i32,
}

impl Wire for UnblockUser {
    #[verifier::opaque]
    open spec fn wire(&self) -> Doc {
        tagged(
            Map::empty()
                .insert("userId"@, self.user_id.wire()),
            "unblockUser"@,
        )
    }

    #[verifier::opaque]
    open spec fn parse(d: Doc, at: Seq<char>) -> Result<Doc, Fault> {
        match d {
            Doc::Object(m) => {
                let user_id = field::<i32>(m, "userId"@);
                if user_id is Err {
                    user_id
                } else {
                    Ok(
                        tagged(
                            Map::empty()
                                .insert("userId"@, user_id->Ok_0),
                            "unblockUser"@,
                        ),
                    )
                }
            },
            _ => Err(Fault::TypeMismatch(at)),
        }
    }

    fn encode(&self) -> (j: Json) {
        proof {
            reveal(<UnblockUser as Wire>::wire);
        }
        let mut members: Vec<Member> = Vec::new();
        put(&mut members, "userId", self.user_id.encode());
        seal(members, "unblockUser")
    }

    fn decode(j: &Json, at: &str) -> (r: Result<Self, DecodeError>) {
        proof {
            reveal(<UnblockUser as Wire>::wire);
            reveal(<UnblockUser as Wire>::parse);
        }
        let members = members_of(j, at)?;
        let user_id = read_field::<i32>(members, "userId")?;
        Ok(UnblockUser { user_id })
    }

    proof fn round_trip(&self, at: Seq<char>) {
        reveal(<UnblockUser as Wire>::wire);
        reveal(<UnblockUser as Wire>::parse);
        reveal_strlit("@type");
        reveal_strlit("userId");
        assert("@type"@.len() == 5);
        assert("userId"@.len() == 6);
        self.user_id.round_trip("userId"@);
    }
}

impl Tagged for UnblockUser {
    open spec fn known(tag: Seq<char>) -> bool {
        tag == "unblockUser"@
    }

    fn knows(tag: &str) -> (r: bool) {
        same_text(tag, "unblockUser")
    }

    proof fn tag_known(&self) {
        reveal(<UnblockUser as Wire>::wire);
        assert(tag_of(self.wire()) == Some("unblockUser"@));
        assert(Self::known("unblockUser"@));
    }
}

impl Method for UnblockUser {
    const TYPE: &'static str = "unblockUser";

    type Response = Okay;

    proof fn type_is_tag(&self) {
        reveal(<UnblockUser as Wire>::wire);
        assert(tag_of(self.wire()) == Some("unblockUser"@));
    }
}

/// Returns users that were blocked by the current user
#[derive(Debug, Clone)]
pub struct GetBlockedUsers {
    /// Number of users to skip in the result; must be non-negative
    pub offset: i32,
    /// The maximum number of users to return; up to 100
    pub limit: i32,
}

impl Wire for GetBlockedUsers {
    #[verifier::opaque]
    open spec fn wire(&self) -> Doc {
        tagged(
            Map::empty()
                .insert("offset"@, self.offset.wire())
                .insert("limit"@, self.limit.wire()),
            "getBlockedUsers"@,
        )
    }

    #[verifier::opaque]
    open spec fn parse(d: Doc, at: Seq<char>) -> Result<Doc, Fault> {
        match d {
            Doc::Object(m) => {
                let offset = field::<i32>(m, "offset"@);
                let limit = field::<i32>(m, "limit"@);
                if offset is Err {
                    offset
                } else if limit is Err {
                    limit
                } else {
                    Ok(
                        tagged(
                            Map::empty()
                                .insert("offset"@, offset->Ok_0)
                                .insert("limit"@, limit->Ok_0),
                            "getBlockedUsers"@,
                        ),
                    )
                }
            },
            _ => Err(Fault::TypeMismatch(at)),
        }
    }

    fn encode(&self) -> (j: Json) {
        proof {
            reveal(<GetBlockedUsers as Wire>::wire);
        }
        let mut members: Vec<Member> = Vec::new();
        put(&mut members, "offset", self.offset.encode());
        put(&mut members, "limit", self.limit.encode());
        seal(members, "getBlockedUsers")
    }

    fn decode(j: &Json, at: &str) -> (r: Result<Self, DecodeError>) {
        proof {
            reveal(<GetBlockedUsers as Wire>::wire);
            reveal(<GetBlockedUsers as Wire>::parse);
        }
        let members = members_of(j, at)?;
        let offset = read_field::<i32>(members, "offset")?;
        let limit = read_field::<i32>(members, "limit")?;
        Ok(GetBlockedUsers { offset, limit })
    }

    proof fn round_trip(&self, at: Seq<char>) {
        reveal(<GetBlockedUsers as Wire>::wire);
        reveal(<GetBlockedUsers as Wire>::parse);
        reveal_strlit("@type");
        reveal_strlit("limit");
        reveal_strlit("offset");
        assert("@type"@.len() == 5 && "@type"@[0] == '@');
        assert("limit"@.len() == 5 && "limit"@[0] == 'l');
        assert("offset"@.len() == 6);
        self.offset.round_trip("offset"@);
        self.limit.round_trip("limit"@);
    }
}

impl Tagged for GetBlockedUsers {
    open spec fn known(tag: Seq<char>) -> bool {
        tag == "getBlockedUsers"@
    }

    fn knows(tag: &str) -> (r: bool) {
        same_text(tag, "getBlockedUsers")
    }

    proof fn tag_known(&self) {
        reveal(<GetBlockedUsers as Wire>::wire);
        assert(tag_of(self.wire()) == Some("getBlockedUsers"@));
        assert(Self::known("getBlockedUsers"@));
    }
}

impl Method for GetBlockedUsers {
    const TYPE: &'static str = "getBlockedUsers";

    type Response = Users;

    proof fn type_is_tag(&self) {
        reveal(<GetBlockedUsers as Wire>::wire);
        assert(tag_of(self.wire()) == Some("getBlockedUsers"@));
    }
}

/// Adds a user to the contact list or edits an existing contact by their user identifier
#[derive(Debug, Clone)]
pub struct AddContact {
    /// The contact to add or edit; phone number can be empty and needs to be specified only if
    /// known, vCard is ignored
    pub contact: Contact,
    /// True, if the new contact needs to be allowed to see current user's phone number. A
    /// corresponding rule to userPrivacySettingShowPhoneNumber will be added if needed. Use the
    /// field UserFullInfo.need_phone_number_privacy_exception to check whether the current user
    /// needs to be asked to share their phone number
    pub share_phone_number: bool,
}

impl Wire for AddContact {
    #[verifier::opaque]
    open spec fn wire(&self) -> Doc {
        tagged(
            Map::empty()
                .insert("contact"@, self.contact.wire())
                .insert("sharePhoneNumber"@, self.share_phone_number.wire()),
            "addContact"@,
        )
    }

    #[verifier::opaque]
    open spec fn parse(d: Doc, at: Seq<char>) -> Result<Doc, Fault> {
        match d {
            Doc::Object(m) => {
                let contact = field::<Contact>(m, "contact"@);
                let share_phone_number = field::<bool>(m, "sharePhoneNumber"@);
                if contact is Err {
                    contact
                } else if share_phone_number is Err {
                    share_phone_number
                } else {
                    Ok(
                        tagged(
                            Map::empty()
                                .insert("contact"@, contact->Ok_0)
                                .insert("sharePhoneNumber"@, share_phone_number->Ok_0),
                            "addContact"@,
                        ),
                    )
                }
            },
            _ => Err(Fault::TypeMismatch(at)),
        }
    }

    fn encode(&self) -> (j: Json) {
        proof {
            reveal(<AddContact as Wire>::wire);
        }
        let mut members: Vec<Member> = Vec::new();
        put(&mut members, "contact", self.contact.encode());
        put(&mut members, "sharePhoneNumber", self.share_phone_number.encode());
        seal(members, "addContact")
    }

    fn decode(j: &Json, at: &str) -> (r: Result<Self, DecodeError>) {
        proof {
            reveal(<AddContact as Wire>::wire);
            reveal(<AddContact as Wire>::parse);
        }
        let members = members_of(j, at)?;
        let contact = read_field::<Contact>(members, "contact")?;
        let share_phone_number = read_field::<bool>(members, "sharePhoneNumber")?;
        Ok(AddContact { contact, share_phone_number })
    }

    proof fn round_trip(&self, at: Seq<char>) {
        reveal(<AddContact as Wire>::wire);
        reveal(<AddContact as Wire>::parse);
        reveal_strlit("@type");
        reveal_strlit("contact");
        reveal_strlit("sharePhoneNumber");
        assert("@type"@.len() == 5);
        assert("contact"@.len() == 7);
        assert("sharePhoneNumber"@.len() == 16);
        self.contact.round_trip("contact"@);
        self.share_phone_number.round_trip("sharePhoneNumber"@);
    }
}

impl Tagged for AddContact {
    open spec fn known(tag: Seq<char>) -> bool {
        tag == "addContact"@
    }

    fn knows(tag: &str) -> (r: bool) {
        same_text(tag, "addContact")
    }

    proof fn tag_known(&self) {
        reveal(<AddContact as Wire>::wire);
        assert(tag_of(self.wire()) == Some("addContact"@));
        assert(Self::known("addContact"@));
    }
}

impl Method for AddContact {
    const TYPE: &'static str = "addContact";

    type Response = Okay;

    proof fn type_is_tag(&self) {
        reveal(<AddContact as Wire>::wire);
        assert(tag_of(self.wire()) == Some("addContact"@));
    }
}

/// Adds new contacts or edits existing contacts by their phone numbers; contacts' user identifiers
/// are ignored
#[derive(Debug, Clone)]
pub struct ImportContacts {
    /// The list of contacts to import or edit; contacts' vCard are ignored and are not imported
    pub contacts: Vec<Contact>,
}

impl Wire for ImportContacts {
    #[verifier::opaque]
    open spec fn wire(&self) -> Doc {
        tagged(
            Map::empty()
                .insert("contacts"@, self.contacts.wire()),
            "importContacts"@,
        )
    }

    #[verifier::opaque]
    open spec fn parse(d: Doc, at: Seq<char>) -> Result<Doc, Fault> {
        match d {
            Doc::Object(m) => {
                let contacts = field::<Vec<Contact>>(m, "contacts"@);
                if contacts is Err {
                    contacts
                } else {
                    Ok(
                        tagged(
                            Map::empty()
                                .insert("contacts"@, contacts->Ok_0),
                            "importContacts"@,
                        ),
                    )
                }
            },
            _ => Err(Fault::TypeMismatch(at)),
        }
    }

    fn encode(&self) -> (j: Json) {
        proof {
            reveal(<ImportContacts as Wire>::wire);
        }
        let mut members: Vec<Member> = Vec::new();
        put(&mut members, "contacts", self.contacts.encode());
        seal(members, "importContacts")
    }

    fn decode(j: &Json, at: &str) -> (r: Result<Self, DecodeError>) {
        proof {
            reveal(<ImportContacts as Wire>::wire);
            reveal(<ImportContacts as Wire>::parse);
        }
        let members = members_of(j, at)?;
        let contacts = read_field::<Vec<Contact>>(members, "contacts")?;
        Ok(ImportContacts { contacts })
    }

    proof fn round_trip(&self, at: Seq<char>) {
        reveal(<ImportContacts as Wire>::wire);
        reveal(<ImportContacts as Wire>::parse);
        reveal_strlit("@type");
        reveal_strlit("contacts");
        assert("@type"@.len() == 5);
        assert("contacts"@.len() == 8);
        self.contacts.round_trip("contacts"@);
    }
}

impl Tagged for ImportContacts {
    open spec fn known(tag: Seq<char>) -> bool {
        tag == "importContacts"@
    }

    fn knows(tag: &str) -> (r: bool) {
        same_text(tag, "importContacts")
    }

    proof fn tag_known(&self) {
        reveal(<ImportContacts as Wire>::wire);
        assert(tag_of(self.wire()) == Some("importContacts"@));
        assert(Self::known("importContacts"@));
    }
}

impl Method for ImportContacts {
    const TYPE: &'static str = "importContacts";

    type Response = ImportedContacts;

    proof fn type_is_tag(&self) {
        reveal(<ImportContacts as Wire>::wire);
        assert(tag_of(self.wire()) == Some("importContacts"@));
    }
}

/// Returns all user contacts
#[derive(Debug, Clone)]
pub struct GetContacts {}

impl Wire for GetContacts {
    #[verifier::opaque]
    open spec fn wire(&self) -> Doc {
        tagged(Map::empty(), "getContacts"@)
    }

    #[verifier::opaque]
    open spec fn parse(d: Doc, at: Seq<char>) -> Result<Doc, Fault> {
        match d {
            Doc::Object(_) => Ok(tagged(Map::empty(), "getContacts"@)),
            _ => Err(Fault::TypeMismatch(at)),
        }
    }

    fn encode(&self) -> (j: Json) {
        proof {
            reveal(<GetContacts as Wire>::wire);
        }
        seal(Vec::new(), "getContacts")
    }

    fn decode(j: &Json, at: &str) -> (r: Result<Self, DecodeError>) {
        proof {
            reveal(<GetContacts as Wire>::wire);
            reveal(<GetContacts as Wire>::parse);
        }
        let _ = members_of(j, at)?;
        Ok(GetContacts {})
    }

    proof fn round_trip(&self, at: Seq<char>) {
        reveal(<GetContacts as Wire>::wire);
        reveal(<GetContacts as Wire>::parse);
    }
}

impl Tagged for GetContacts {
    open spec fn known(tag: Seq<char>) -> bool {
        tag == "getContacts"@
    }

    fn knows(tag: &str) -> (r: bool) {
        same_text(tag, "getContacts")
    }

    proof fn tag_known(&self) {
        reveal(<GetContacts as Wire>::wire);
        assert(tag_of(self.wire()) == Some("getContacts"@));
        assert(Self::known("getContacts"@));
    }
}

impl Method for GetContacts {
    const TYPE: &'static str = "getContacts";

    type Response = Users;

    proof fn type_is_tag(&self) {
        reveal(<GetContacts as Wire>::wire);
        assert(tag_of(self.wire()) == Some("getContacts"@));
    }
}

/// Searches for the specified query in the first names, last names and usernames of the known user
/// contacts
#[derive(Debug, Clone)]
pub struct SearchContacts {
    /// Query to search for; may be empty to return all contacts
    pub query: String,
    /// The maximum number of users to be returned
    pub limit: i32,
}

impl Wire for SearchContacts {
    #[verifier::opaque]
    open spec fn wire(&self) -> Doc {
        tagged(
            Map::empty()
                .insert("query"@, self.query.wire())
                .insert("limit"@, self.limit.wire()),
            "searchContacts"@,
        )
    }

    #[verifier::opaque]
    open spec fn parse(d: Doc, at: Seq<char>) -> Result<Doc, Fault> {
        match d {
            Doc::Object(m) => {
                let query = field::<String>(m, "query"@);
                let limit = field::<i32>(m, "limit"@);
                if query is Err {
                    query
                } else if limit is Err {
                    limit
                } else {
                    Ok(
                        tagged(
                            Map::empty()
                                .insert("query"@, query->Ok_0)
                                .insert("limit"@, limit->Ok_0),
                            "searchContacts"@,
                        ),
                    )
                }
            },
            _ => Err(Fault::TypeMismatch(at)),
        }
    }

    fn encode(&self) -> (j: Json) {
        proof {
            reveal(<SearchContacts as Wire>::wire);
        }
        let mut members: Vec<Member> = Vec::new();
        put(&mut members, "query", self.query.encode());
        put(&mut members, "limit", self.limit.encode());
        seal(members, "searchContacts")
    }

    fn decode(j: &Json, at: &str) -> (r: Result<Self, DecodeError>) {
        proof {
            reveal(<SearchContacts as Wire>::wire);
            reveal(<SearchContacts as Wire>::parse);
        }
        let members = members_of(j, at)?;
        let query = read_field::<String>(members, "query")?;
        let limit = read_field::<i32>(members, "limit")?;
        Ok(SearchContacts { query, limit })
    }

    proof fn round_trip(&self, at: Seq<char>) {
        reveal(<SearchContacts as Wire>::wire);
        reveal(<SearchContacts as Wire>::parse);
        reveal_strlit("@type");
        reveal_strlit("limit");
        reveal_strlit("query");
        assert("@type"@.len() == 5 && "@type"@[0] == '@');
        assert("limit"@.len() == 5 && "limit"@[0] == 'l');
        assert("query"@.len() == 5 && "query"@[0] == 'q');
        self.query.round_trip("query"@);
        self.limit.round_trip("limit"@);
    }
}

impl Tagged for SearchContacts {
    open spec fn known(tag: Seq<char>) -> bool {
        tag == "searchContacts"@
    }

    fn knows(tag: &str) -> (r: bool) {
        same_text(tag, "searchContacts")
    }

    proof fn tag_known(&self) {
        reveal(<SearchContacts as Wire>::wire);
        assert(tag_of(self.wire()) == Some("searchContacts"@));
        assert(Self::known("searchContacts"@));
    }
}

impl Method for SearchContacts {
    const TYPE: &'static str = "searchContacts";

    type Response = Users;

    proof fn type_is_tag(&self) {
        reveal(<SearchContacts as Wire>::wire);
        assert(tag_of(self.wire()) == Some("searchContacts"@));
    }
}

/// Removes users from the contact list
#[derive(Debug, Clone)]
pub struct RemoveContacts {
    /// Identifiers of users to be deleted
    pub user_ids: Vec<i32>,
}

impl Wire for RemoveContacts {
    #[verifier::opaque]
    open spec fn wire(&self) -> Doc {
        tagged(
            Map::empty()
                .insert("userIds"@, self.user_ids.wire()),
            "removeContacts"@,
        )
    }

    #[verifier::opaque]
    open spec fn parse(d: Doc, at: Seq<char>) -> Result<Doc, Fault> {
        match d {
            Doc::Object(m) => {
                let user_ids = field::<Vec<i32>>(m, "userIds"@);
                if user_ids is Err {
                    user_ids
                } else {
                    Ok(
                        tagged(
                            Map::empty()
                                .insert("userIds"@, user_ids->Ok_0),
                            "removeContacts"@,
                        ),
                    )
                }
            },
            _ => Err(Fault::TypeMismatch(at)),
        }
    }

    fn encode(&self) -> (j: Json) {
        proof {
            reveal(<RemoveContacts as Wire>::wire);
        }
        let mut members: Vec<Member> = Vec::new();
        put(&mut members, "userIds", self.user_ids.encode());
        seal(members, "removeContacts")
    }

    fn decode(j: &Json, at: &str) -> (r: Result<Self, DecodeError>) {
        proof {
            reveal(<RemoveContacts as Wire>::wire);
            reveal(<RemoveContacts as Wire>::parse);
        }
        let members = members_of(j, at)?;
        let user_ids = read_field::<Vec<i32>>(members, "userIds")?;
        Ok(RemoveContacts { user_ids })
    }

    proof fn round_trip(&self, at: Seq<char>) {
        reveal(<RemoveContacts as Wire>::wire);
        reveal(<RemoveContacts as Wire>::parse);
        reveal_strlit("@type");
        reveal_strlit("userIds");
        assert("@type"@.len() == 5);
        assert("userIds"@.len() == 7);
        self.user_ids.round_trip("userIds"@);
    }
}

impl Tagged for RemoveContacts {
    open spec fn known(tag: Seq<char>) -> bool {
        tag == "removeContacts"@
    }

    fn knows(tag: &str) -> (r: bool) {
        same_text(tag, "removeContacts")
    }

    proof fn tag_known(&self) {
        reveal(<RemoveContacts as Wire>::wire);
        assert(tag_of(self.wire()) == Some("removeContacts"@));
        assert(Self::known("removeContacts"@));
    }
}

impl Method for RemoveContacts {
    const TYPE: &'static str = "removeContacts";

    type Response = Okay;

    proof fn type_is_tag(&self) {
        reveal(<RemoveContacts as Wire>::wire);
        assert(tag_of(self.wire()) == Some("removeContacts"@));
    }
}

/// Returns the total number of imported contacts
#[derive(Debug, Clone)]
pub struct GetImportedContactCount {}

impl Wire for GetImportedContactCount {
    #[verifier::opaque]
    open spec fn wire(&self) -> Doc {
        tagged(Map::empty(), "getImportedContactCount"@)
    }

    #[verifier::opaque]
    open spec fn parse(d: Doc, at: Seq<char>) -> Result<Doc, Fault> {
        match d {
            Doc::Object(_) => Ok(tagged(Map::empty(), "getImportedContactCount"@)),
            _ => Err(Fault::TypeMismatch(at)),
        }
    }

    fn encode(&self) -> (j: Json) {
        proof {
            reveal(<GetImportedContactCount as Wire>::wire);
        }
        seal(Vec::new(), "getImportedContactCount")
    }

    fn decode(j: &Json, at: &str) -> (r: Result<Self, DecodeError>) {
        proof {
            reveal(<GetImportedContactCount as Wire>::wire);
            reveal(<GetImportedContactCount as Wire>::parse);
        }
        let _ = members_of(j, at)?;
        Ok(GetImportedContactCount {})
    }

    proof fn round_trip(&self, at: Seq<char>) {
        reveal(<GetImportedContactCount as Wire>::wire);
        reveal(<GetImportedContactCount as Wire>::parse);
    }
}

impl Tagged for GetImportedContactCount {
    open spec fn known(tag: Seq<char>) -> bool {
        tag == "getImportedContactCount"@
    }

    fn knows(tag: &str) -> (r: bool) {
        same_text(tag, "getImportedContactCount")
    }

    proof fn tag_known(&self) {
        reveal(<GetImportedContactCount as Wire>::wire);
        assert(tag_of(self.wire()) == Some("getImportedContactCount"@));
        assert(Self::known("getImportedContactCount"@));
    }
}

impl Method for GetImportedContactCount {
    const TYPE: &'static str = "getImportedContactCount";

    type Response = Count;

    proof fn type_is_tag(&self) {
        reveal(<GetImportedContactCount as Wire>::wire);
        assert(tag_of(self.wire()) == Some("getImportedContactCount"@));
    }
}

/// Changes imported contacts using the list of current user contacts saved on the device. Imports
/// newly added contacts and, if at least the file database is enabled, deletes recently deleted
/// contacts. Query result depends on the result of the previous query, so only one query is
/// possible at the same time @contacts The new list of contacts, contact's vCard are ignored and
/// are not imported
#[derive(Debug, Clone)]
pub struct ChangeImportedContacts {
    pub contacts: Vec<Contact>,
}

impl Wire for ChangeImportedContacts {
    #[verifier::opaque]
    open spec fn wire(&self) -> Doc {
        tagged(
            Map::empty()
                .insert("contacts"@, self.contacts.wire()),
            "changeImportedContacts"@,
        )
    }

    #[verifier::opaque]
    open spec fn parse(d: Doc, at: Seq<char>) -> Result<Doc, Fault> {
        match d {
            Doc::Object(m) => {
                let contacts = field::<Vec<Contact>>(m, "contacts"@);
                if contacts is Err {
                    contacts
                } else {
                    Ok(
                        tagged(
                            Map::empty()
                                .insert("contacts"@, contacts->Ok_0),
                            "changeImportedContacts"@,
                        ),
                    )
                }
            },
            _ => Err(Fault::TypeMismatch(at)),
        }
    }

    fn encode(&self) -> (j: Json) {
        proof {
            reveal(<ChangeImportedContacts as Wire>::wire);
        }
        let mut members: Vec<Member> = Vec::new();
        put(&mut members, "contacts", self.contacts.encode());
        seal(members, "changeImportedContacts")
    }

    fn decode(j: &Json, at: &str) -> (r: Result<Self, DecodeError>) {
        proof {
            reveal(<ChangeImportedContacts as Wire>::wire);
            reveal(<ChangeImportedContacts as Wire>::parse);
        }
        let members = members_of(j, at)?;
        let contacts = read_field::<Vec<Contact>>(members, "contacts")?;
        Ok(ChangeImportedContacts { contacts })
    }

    proof fn round_trip(&self, at: Seq<char>) {
        reveal(<ChangeImportedContacts as Wire>::wire);
        reveal(<ChangeImportedContacts as Wire>::parse);
        reveal_strlit("@type");
        reveal_strlit("contacts");
        assert("@type"@.len() == 5);
        assert("contacts"@.len() == 8);
        self.contacts.round_trip("contacts"@);
    }
}

impl Tagged for ChangeImportedContacts {
    open spec fn known(tag: Seq<char>) -> bool {
        tag == "changeImportedContacts"@
    }

    fn knows(tag: &str) -> (r: bool) {
        same_text(tag, "changeImportedContacts")
    }

    proof fn tag_known(&self) {
        reveal(<ChangeImportedContacts as Wire>::wire);
        assert(tag_of(self.wire()) == Some("changeImportedContacts"@));
        assert(Self::known("changeImportedContacts"@));
    }
}

impl Method for ChangeImportedContacts {
    const TYPE: &'static str = "changeImportedContacts";

    type Response = ImportedContacts;

    proof fn type_is_tag(&self) {
        reveal(<ChangeImportedContacts as Wire>::wire);
        assert(tag_of(self.wire()) == Some("changeImportedContacts"@));
    }
}

/// Clears all imported contacts, contact list remains unchanged
#[derive(Debug, Clone)]
pub struct ClearImportedContacts {}

impl Wire for ClearImportedContacts {
    #[verifier::opaque]
    open spec fn wire(&self) -> Doc {
        tagged(Map::empty(), "clearImportedContacts"@)
    }

    #[verifier::opaque]
    open spec fn parse(d: Doc, at: Seq<char>) -> Result<Doc, Fault> {
        match d {
            Doc::Object(_) => Ok(tagged(Map::empty(), "clearImportedContacts"@)),
            _ => Err(Fault::TypeMismatch(at)),
        }
    }

    fn encode(&self) -> (j: Json) {
        proof {
            reveal(<ClearImportedContacts as Wire>::wire);
        }
        seal(Vec::new(), "clearImportedContacts")
    }

    fn decode(j: &Json, at: &str) -> (r: Result<Self, DecodeError>) {
        proof {
            reveal(<ClearImportedContacts as Wire>::wire);
            reveal(<ClearImportedContacts as Wire>::parse);
        }
        let _ = members_of(j, at)?;
        Ok(ClearImportedContacts {})
    }

    proof fn round_trip(&self, at: Seq<char>) {
        reveal(<ClearImportedContacts as Wire>::wire);
        reveal(<ClearImportedContacts as Wire>::parse);
    }
}

impl Tagged for ClearImportedContacts {
    open spec fn known(tag: Seq<char>) -> bool {
        tag == "clearImportedContacts"@
    }

    fn knows(tag: &str) -> (r: bool) {
        same_text(tag, "clearImportedContacts")
    }

    proof fn tag_known(&self) {
        reveal(<ClearImportedContacts as Wire>::wire);
        assert(tag_of(self.wire()) == Some("clearImportedContacts"@));
        assert(Self::known("clearImportedContacts"@));
    }
}

impl Method for ClearImportedContacts {
    const TYPE: &'static str = "clearImportedContacts";

    type Response = Okay;

    proof fn type_is_tag(&self) {
        reveal(<ClearImportedContacts as Wire>::wire);
        assert(tag_of(self.wire()) == Some("clearImportedContacts"@));
    }
}

/// Shares the phone number of the current user with a mutual contact. Supposed to be called when
/// the user clicks on chatActionBarSharePhoneNumber
#[derive(Debug, Clone)]
pub struct SharePhoneNumber {
    /// Identifier of the user with whom to share the phone number. The user must be a mutual
    /// contact
    pub user_id: i32,
}

impl Wire for SharePhoneNumber {
    #[verifier::opaque]
    open spec fn wire(&self) -> Doc {
        tagged(
            Map::empty()
                .insert("userId"@, self.user_id.wire()),
            "sharePhoneNumber"@,
        )
    }

    #[verifier::opaque]
    open spec fn parse(d: Doc, at: Seq<char>) -> Result<Doc, Fault> {
        match d {
            Doc::Object(m) => {
                let user_id = field::<i32>(m, "userId"@);
                if user_id is Err {
                    user_id
                } else {
                    Ok(
                        tagged(
                            Map::empty()
                                .insert("userId"@, user_id->Ok_0),
                            "sharePhoneNumber"@,
                        ),
                    )
                }
            },
            _ => Err(Fault::TypeMismatch(at)),
        }
    }

    fn encode(&self) -> (j: Json) {
        proof {
            reveal(<SharePhoneNumber as Wire>::wire);
        }
        let mut members: Vec<Member> = Vec::new();
        put(&mut members, "userId", self.user_id.encode());
        seal(members, "sharePhoneNumber")
    }

    fn decode(j: &Json, at: &str) -> (r: Result<Self, DecodeError>) {
        proof {
            reveal(<SharePhoneNumber as Wire>::wire);
            reveal(<SharePhoneNumber as Wire>::parse);
        }
        let members = members_of(j, at)?;
        let user_id = read_field::<i32>(members, "userId")?;
        Ok(SharePhoneNumber { user_id })
    }

    proof fn round_trip(&self, at: Seq<char>) {
        reveal(<SharePhoneNumber as Wire>::wire);
        reveal(<SharePhoneNumber as Wire>::parse);
        reveal_strlit("@type");
        reveal_strlit("userId");
        assert("@type"@.len() == 5);
        assert("userId"@.len() == 6);
        self.user_id.round_trip("userId"@);
    }
}

impl Tagged for SharePhoneNumber {
    open spec fn known(tag: Seq<char>) -> bool {
        tag == "sharePhoneNumber"@
    }

    fn knows(tag: &str) -> (r: bool) {
        same_text(tag, "sharePhoneNumber")
    }

    proof fn tag_known(&self) {
        reveal(<SharePhoneNumber as Wire>::wire);
        assert(tag_of(self.wire()) == Some("sharePhoneNumber"@));
        assert(Self::known("sharePhoneNumber"@));
    }
}

impl Method for SharePhoneNumber {
    const TYPE: &'static str = "sharePhoneNumber";

    type Response = Okay;

    proof fn type_is_tag(&self) {
        reveal(<SharePhoneNumber as Wire>::wire);
        assert(tag_of(self.wire()) == Some("sharePhoneNumber"@));
    }
}

/// Returns the profile photos of a user. The result of this query may be outdated: some photos
/// might have been deleted already
#[derive(Debug, Clone)]
pub struct GetUserProfilePhotos {
    /// User identifier
    pub user_id: i32,
    /// The number of photos to skip; must be non-negative
    pub offset: i32,
    /// The maximum number of photos to be returned; up to 100
    pub limit: i32,
}

impl Wire for GetUserProfilePhotos {
    #[verifier::opaque]
    open spec fn wire(&self) -> Doc {
        tagged(
            Map::empty()
                .insert("userId"@, self.user_id.wire())
                .insert("offset"@, self.offset.wire())
                .insert("limit"@, self.limit.wire()),
            "getUserProfilePhotos"@,
        )
    }

    #[verifier::opaque]
    open spec fn parse(d: Doc, at: Seq<char>) -> Result<Doc, Fault> {
        match d {
            Doc::Object(m) => {
                let user_id = field::<i32>(m, "userId"@);
                let offset = field::<i32>(m, "offset"@);
                let limit = field::<i32>(m, "limit"@);
                if user_id is Err {
                    user_id
                } else if offset is Err {
                    offset
                } else if limit is Err {
                    limit
                } else {
                    Ok(
                        tagged(
                            Map::empty()
                                .insert("userId"@, user_id->Ok_0)
                                .insert("offset"@, offset->Ok_0)
                                .insert("limit"@, limit->Ok_0),
                            "getUserProfilePhotos"@,
                        ),
                    )
                }
            },
            _ => Err(Fault::TypeMismatch(at)),
        }
    }

    fn encode(&self) -> (j: Json) {
        proof {
            reveal(<GetUserProfilePhotos as Wire>::wire);
        }
        let mut members: Vec<Member> = Vec::new();
        put(&mut members, "userId", self.user_id.encode());
        put(&mut members, "offset", self.offset.encode());
        put(&mut members, "limit", self.limit.encode());
        seal(members, "getUserProfilePhotos")
    }

    fn decode(j: &Json, at: &str) -> (r: Result<Self, DecodeError>) {
        proof {
            reveal(<GetUserProfilePhotos as Wire>::wire);
            reveal(<GetUserProfilePhotos as Wire>::parse);
        }
        let members = members_of(j, at)?;
        let user_id = read_field::<i32>(members, "userId")?;
        let offset = read_field::<i32>(members, "offset")?;
        let limit = read_field::<i32>(members, "limit")?;
        Ok(GetUserProfilePhotos { user_id, offset, limit })
    }

    proof fn round_trip(&self, at: Seq<char>) {
        reveal(<GetUserProfilePhotos as Wire>::wire);
        reveal(<GetUserProfilePhotos as Wire>::parse);
        reveal_strlit("@type");
        reveal_strlit("limit");
        reveal_strlit("offset");
        reveal_strlit("userId");
        assert("@type"@.len() == 5 && "@type"@[0] == '@');
        assert("limit"@.len() == 5 && "limit"@[0] == 'l');
        assert("offset"@.len() == 6 && "offset"@[0] == 'o');
        assert("userId"@.len() == 6 && "userId"@[0] == 'u');
        self.user_id.round_trip("userId"@);
        self.offset.round_trip("offset"@);
        self.limit.round_trip("limit"@);
    }
}

impl Tagged for GetUserProfilePhotos {
    open spec fn known(tag: Seq<char>) -> bool {
        tag == "getUserProfilePhotos"@
    }

    fn knows(tag: &str) -> (r: bool) {
        same_text(tag, "getUserProfilePhotos")
    }

    proof fn tag_known(&self) {
        reveal(<GetUserProfilePhotos as Wire>::wire);
        assert(tag_of(self.wire()) == Some("getUserProfilePhotos"@));
        assert(Self::known("getUserProfilePhotos"@));
    }
}

impl Method for GetUserProfilePhotos {
    const TYPE: &'static str = "getUserProfilePhotos";

    type Response = UserProfilePhotos;

    proof fn type_is_tag(&self) {
        reveal(<GetUserProfilePhotos as Wire>::wire);
        assert(tag_of(self.wire()) == Some("getUserProfilePhotos"@));
    }
}

/// Returns stickers from the installed sticker sets that correspond to a given emoji. If the emoji
/// is not empty, favorite and recently used stickers may also be returned
#[derive(Debug, Clone)]
pub struct GetStickers {
    /// String representation of emoji. If empty, returns all known installed stickers
    pub emoji: String,
    /// The maximum number of stickers to be returned
    pub limit: i32,
}

impl Wire for GetStickers {
    #[verifier::opaque]
    open spec fn wire(&self) -> Doc {
        tagged(
            Map::empty()
                .insert("emoji"@, self.emoji.wire())
                .insert("limit"@, self.limit.wire()),
            "getStickers"@,
        )
    }

    #[verifier::opaque]
    open spec fn parse(d: Doc, at: Seq<char>) -> Result<Doc, Fault> {
        match d {
            Doc::Object(m) => {
                let emoji = field::<String>(m, "emoji"@);
                let limit = field::<i32>(m, "limit"@);
                if emoji is Err {
                    emoji
                } else if limit is Err {
                    limit
                } else {
                    Ok(
                        tagged(
                            Map::empty()
                                .insert("emoji"@, emoji->Ok_0)
                                .insert("limit"@, limit->Ok_0),
                            "getStickers"@,
                        ),
                    )
                }
            },
            _ => Err(Fault::TypeMismatch(at)),
        }
    }

    fn encode(&self) -> (j: Json) {
        proof {
            reveal(<GetStickers as Wire>::wire);
        }
        let mut members: Vec<Member> = Vec::new();
        put(&mut members, "emoji", self.emoji.encode());
        put(&mut members, "limit", self.limit.encode());
        seal(members, "getStickers")
    }

    fn decode(j: &Json, at: &str) -> (r: Result<Self, DecodeError>) {
        proof {
            reveal(<GetStickers as Wire>::wire);
            reveal(<GetStickers as Wire>::parse);
        }
        let members = members_of(j, at)?;
        let emoji = read_field::<String>(members, "emoji")?;
        let limit = read_field::<i32>(members, "limit")?;
        Ok(GetStickers { emoji, limit })
    }

    proof fn round_trip(&self, at: Seq<char>) {
        reveal(<GetStickers as Wire>::wire);
        reveal(<GetStickers as Wire>::parse);
        reveal_strlit("@type");
        reveal_strlit("emoji");
        reveal_strlit("limit");
        assert("@type"@.len() == 5 && "@type"@[0] == '@');
        assert("emoji"@.len() == 5 && "emoji"@[0] == 'e');
        assert("limit"@.len() == 5 && "limit"@[0] == 'l');
        self.emoji.round_trip("emoji"@);
        self.limit.round_trip("limit"@);
    }
}

impl Tagged for GetStickers {
    open spec fn known(tag: Seq<char>) -> bool {
        tag == "getStickers"@
    }

    fn knows(tag: &str) -> (r: bool) {
        same_text(tag, "getStickers")
    }

    proof fn tag_known(&self) {
        reveal(<GetStickers as Wire>::wire);
        assert(tag_of(self.wire()) == Some("getStickers"@));
        assert(Self::known("getStickers"@));
    }
}

impl Method for GetStickers {
    const TYPE: &'static str = "getStickers";

    type Response = Stickers;

    proof fn type_is_tag(&self) {
        reveal(<GetStickers as Wire>::wire);
        assert(tag_of(self.wire()) == Some("getStickers"@));
    }
}

/// Searches for stickers from public sticker sets that correspond to a given emoji
#[derive(Debug, Clone)]
pub struct SearchStickers {
    /// String representation of emoji; must be non-empty
    pub emoji: String,
    /// The maximum number of stickers to be returned
    pub limit: i32,
}

impl Wire for SearchStickers {
    #[verifier::opaque]
    open spec fn wire(&self) -> Doc {
        tagged(
            Map::empty()
                .insert("emoji"@, self.emoji.wire())
                .insert("limit"@, self.limit.wire()),
            "searchStickers"@,
        )
    }

    #[verifier::opaque]
    open spec fn parse(d: Doc, at: Seq<char>) -> Result<Doc, Fault> {
        match d {
            Doc::Object(m) => {
                let emoji = field::<String>(m, "emoji"@);
                let limit = field::<i32>(m, "limit"@);
                if emoji is Err {
                    emoji
                } else if limit is Err {
                    limit
                } else {
                    Ok(
                        tagged(
                            Map::empty()
                                .insert("emoji"@, emoji->Ok_0)
                                .insert("limit"@, limit->Ok_0),
                            "searchStickers"@,
                        ),
                    )
                }
            },
            _ => Err(Fault::TypeMismatch(at)),
        }
    }

    fn encode(&self) -> (j: Json) {
        proof {
            reveal(<SearchStickers as Wire>::wire);
        }
        let mut members: Vec<Member> = Vec::new();
        put(&mut members, "emoji", self.emoji.encode());
        put(&mut members, "limit", self.limit.encode());
        seal(members, "searchStickers")
    }

    fn decode(j: &Json, at: &str) -> (r: Result<Self, DecodeError>) {
        proof {
            reveal(<SearchStickers as Wire>::wire);
            reveal(<SearchStickers as Wire>::parse);
        }
        let members = members_of(j, at)?;
        let emoji = read_field::<String>(members, "emoji")?;
        let limit = read_field::<i32>(members, "limit")?;
        Ok(SearchStickers { emoji, limit })
    }

    proof fn round_trip(&self, at: Seq<char>) {
        reveal(<SearchStickers as Wire>::wire);
        reveal(<SearchStickers as Wire>::parse);
        reveal_strlit("@type");
        reveal_strlit("emoji");
        reveal_strlit("limit");
        assert("@type"@.len() == 5 && "@type"@[0] == '@');
        assert("emoji"@.len() == 5 && "emoji"@[0] == 'e');
        assert("limit"@.len() == 5 && "limit"@[0] == 'l');
        self.emoji.round_trip("emoji"@);
        self.limit.round_trip("limit"@);
    }
}

impl Tagged for SearchStickers {
    open spec fn known(tag: Seq<char>) -> bool {
        tag == "searchStickers"@
    }

    fn knows(tag: &str) -> (r: bool) {
        same_text(tag, "searchStickers")
    }

    proof fn tag_known(&self) {
        reveal(<SearchStickers as Wire>::wire);
        assert(tag_of(self.wire()) == Some("searchStickers"@));
        assert(Self::known("searchStickers"@));
    }
}

impl Method for SearchStickers {
    const TYPE: &'static str = "searchStickers";

    type Response = Stickers;

    proof fn type_is_tag(&self) {
        reveal(<SearchStickers as Wire>::wire);
        assert(tag_of(self.wire()) == Some("searchStickers"@));
    }
}

/// Returns a list of installed sticker sets
#[derive(Debug, Clone)]
pub struct GetInstalledStickerSets {
    /// Pass true to return mask sticker sets; pass false to return ordinary sticker sets
    pub is_masks: bool,
}

impl Wire for GetInstalledStickerSets {
    #[verifier::opaque]
    open spec fn wire(&self) -> Doc {
        tagged(
            Map::empty()
                .insert("isMasks"@, self.is_masks.wire()),
            "getInstalledStickerSets"@,
        )
    }

    #[verifier::opaque]
    open spec fn parse(d: Doc, at: Seq<char>) -> Result<Doc, Fault> {
        match d {
            Doc::Object(m) => {
                let is_masks = field::<bool>(m, "isMasks"@);
                if is_masks is Err {
                    is_masks
                } else {
                    Ok(
                        tagged(
                            Map::empty()
                                .insert("isMasks"@, is_masks->Ok_0),
                            "getInstalledStickerSets"@,
                        ),
                    )
                }
            },
            _ => Err(Fault::TypeMismatch(at)),
        }
    }

    fn encode(&self) -> (j: Json) {
        proof {
            reveal(<GetInstalledStickerSets as Wire>::wire);
        }
        let mut members: Vec<Member> = Vec::new();
        put(&mut members, "isMasks", self.is_masks.encode());
        seal(members, "getInstalledStickerSets")
    }

    fn decode(j: &Json, at: &str) -> (r: Result<Self, DecodeError>) {
        proof {
            reveal(<GetInstalledStickerSets as Wire>::wire);
            reveal(<GetInstalledStickerSets as Wire>::parse);
        }
        let members = members_of(j, at)?;
        let is_masks = read_field::<bool>(members, "isMasks")?;
        Ok(GetInstalledStickerSets { is_masks })
    }

    proof fn round_trip(&self, at: Seq<char>) {
        reveal(<GetInstalledStickerSets as Wire>::wire);
        reveal(<GetInstalledStickerSets as Wire>::parse);
        reveal_strlit("@type");
        reveal_strlit("isMasks");
        assert("@type"@.len() == 5);
        assert("isMasks"@.len() == 7);
        self.is_masks.round_trip("isMasks"@);
    }
}

impl Tagged for GetInstalledStickerSets {
    open spec fn known(tag: Seq<char>) -> bool {
        tag == "getInstalledStickerSets"@
    }

    fn knows(tag: &str) -> (r: bool) {
        same_text(tag, "getInstalledStickerSets")
    }

    proof fn tag_known(&self) {
        reveal(<GetInstalledStickerSets as Wire>::wire);
        assert(tag_of(self.wire()) == Some("getInstalledStickerSets"@));
        assert(Self::known("getInstalledStickerSets"@));
    }
}

impl Method for GetInstalledStickerSets {
    const TYPE: &'static str = "getInstalledStickerSets";

    type Response = StickerSets;

    proof fn type_is_tag(&self) {
        reveal(<GetInstalledStickerSets as Wire>::wire);
        assert(tag_of(self.wire()) == Some("getInstalledStickerSets"@));
    }
}

/// Returns a list of archived sticker sets
#[derive(Debug, Clone)]
pub struct GetArchivedStickerSets {
    /// Pass true to return mask stickers sets; pass false to return ordinary sticker sets
    pub is_masks: bool,
    /// Identifier of the sticker set from which to return the result
    pub offset_sticker_set_id: i64,
    /// The maximum number of sticker sets to return
    pub limit: i32,
}

impl Wire for GetArchivedStickerSets {
    #[verifier::opaque]
    open spec fn wire(&self) -> Doc {
        tagged(
            Map::empty()
                .insert("isMasks"@, self.is_masks.wire())
                .insert("offsetStickerSetId"@, wide_doc(self.offset_sticker_set_id))
                .insert("limit"@, self.limit.wire()),
            "getArchivedStickerSets"@,
        )
    }

    #[verifier::opaque]
    open spec fn parse(d: Doc, at: Seq<char>) -> Result<Doc, Fault> {
        match d {
            Doc::Object(m) => {
                let is_masks = field::<bool>(m, "isMasks"@);
                let offset_sticker_set_id = wide_field(m, "offsetStickerSetId"@);
                let limit = field::<i32>(m, "limit"@);
                if is_masks is Err {
                    is_masks
                } else if offset_sticker_set_id is Err {
                    offset_sticker_set_id
                } else if limit is Err {
                    limit
                } else {
                    Ok(
                        tagged(
                            Map::empty()
                                .insert("isMasks"@, is_masks->Ok_0)
                                .insert("offsetStickerSetId"@, offset_sticker_set_id->Ok_0)
                                .insert("limit"@, limit->Ok_0),
                            "getArchivedStickerSets"@,
                        ),
                    )
                }
            },
            _ => Err(Fault::TypeMismatch(at)),
        }
    }

    fn encode(&self) -> (j: Json) {
        proof {
            reveal(<GetArchivedStickerSets as Wire>::wire);
        }
        let mut members: Vec<Member> = Vec::new();
        put(&mut members, "isMasks", self.is_masks.encode());
        put(&mut members, "offsetStickerSetId", encode_wide(self.offset_sticker_set_id));
        put(&mut members, "limit", self.limit.encode());
        seal(members, "getArchivedStickerSets")
    }

    fn decode(j: &Json, at: &str) -> (r: Result<Self, DecodeError>) {
        proof {
            reveal(<GetArchivedStickerSets as Wire>::wire);
            reveal(<GetArchivedStickerSets as Wire>::parse);
        }
        let members = members_of(j, at)?;
        let is_masks = read_field::<bool>(members, "isMasks")?;
        let offset_sticker_set_id = read_wide(members, "offsetStickerSetId")?;
        let limit = read_field::<i32>(members, "limit")?;
        Ok(GetArchivedStickerSets { is_masks, offset_sticker_set_id, limit })
    }

    proof fn round_trip(&self, at: Seq<char>) {
        reveal(<GetArchivedStickerSets as Wire>::wire);
        reveal(<GetArchivedStickerSets as Wire>::parse);
        reveal_strlit("@type");
        reveal_strlit("isMasks");
        reveal_strlit("limit");
        reveal_strlit("offsetStickerSetId");
        assert("@type"@.len() == 5 && "@type"@[0] == '@');
        assert("isMasks"@.len() == 7);
        assert("limit"@.len() == 5 && "limit"@[0] == 'l');
        assert("offsetStickerSetId"@.len() == 18);
        self.is_masks.round_trip("isMasks"@);
        lemma_wide_round_trip(self.offset_sticker_set_id, "offsetStickerSetId"@);
        self.limit.round_trip("limit"@);
    }
}

impl Tagged for GetArchivedStickerSets {
    open spec fn known(tag: Seq<char>) -> bool {
        tag == "getArchivedStickerSets"@
    }

    fn knows(tag: &str) -> (r: bool) {
        same_text(tag, "getArchivedStickerSets")
    }

    proof fn tag_known(&self) {
        reveal(<GetArchivedStickerSets as Wire>::wire);
        assert(tag_of(self.wire()) == Some("getArchivedStickerSets"@));
        assert(Self::known("getArchivedStickerSets"@));
    }
}

impl Method for GetArchivedStickerSets {
    const TYPE: &'static str = "getArchivedStickerSets";

    type Response = StickerSets;

    proof fn type_is_tag(&self) {
        reveal(<GetArchivedStickerSets as Wire>::wire);
        assert(tag_of(self.wire()) == Some("getArchivedStickerSets"@));
    }
}

/// Returns a list of trending sticker sets
#[derive(Debug, Clone)]
pub struct GetTrendingStickerSets {}

impl Wire for GetTrendingStickerSets {
    #[verifier::opaque]
    open spec fn wire(&self) -> Doc {
        tagged(Map::empty(), "getTrendingStickerSets"@)
    }

    #[verifier::opaque]
    open spec fn parse(d: Doc, at: Seq<char>) -> Result<Doc, Fault> {
        match d {
            Doc::Object(_) => Ok(tagged(Map::empty(), "getTrendingStickerSets"@)),
            _ => Err(Fault::TypeMismatch(at)),
        }
    }

    fn encode(&self) -> (j: Json) {
        proof {
            reveal(<GetTrendingStickerSets as Wire>::wire);
        }
        seal(Vec::new(), "getTrendingStickerSets")
    }

    fn decode(j: &Json, at: &str) -> (r: Result<Self, DecodeError>) {
        proof {
            reveal(<GetTrendingStickerSets as Wire>::wire);
            reveal(<GetTrendingStickerSets as Wire>::parse);
        }
        let _ = members_of(j, at)?;
        Ok(GetTrendingStickerSets {})
    }

    proof fn round_trip(&self, at: Seq<char>) {
        reveal(<GetTrendingStickerSets as Wire>::wire);
        reveal(<GetTrendingStickerSets as Wire>::parse);
    }
}

impl Tagged for GetTrendingStickerSets {
    open spec fn known(tag: Seq<char>) -> bool {
        tag == "getTrendingStickerSets"@
    }

    fn knows(tag: &str) -> (r: bool) {
        same_text(tag, "getTrendingStickerSets")
    }

    proof fn tag_known(&self) {
        reveal(<GetTrendingStickerSets as Wire>::wire);
        assert(tag_of(self.wire()) == Some("getTrendingStickerSets"@));
        assert(Self::known("getTrendingStickerSets"@));
    }
}

impl Method for GetTrendingStickerSets {
    const TYPE: &'static str = "getTrendingStickerSets";

    type Response = StickerSets;

    proof fn type_is_tag(&self) {
        reveal(<GetTrendingStickerSets as Wire>::wire);
        assert(tag_of(self.wire()) == Some("getTrendingStickerSets"@));
    }
}

/// Returns a list of sticker sets attached to a file. Currently only photos and videos can have
/// attached sticker sets
#[derive(Debug, Clone)]
pub struct GetAttachedStickerSets {
    /// File identifier
    pub file_id: i32,
}

impl Wire for GetAttachedStickerSets {
    #[verifier::opaque]
    open spec fn wire(&self) -> Doc {
        tagged(
            Map::empty()
                .insert("fileId"@, self.file_id.wire()),
            "getAttachedStickerSets"@,
        )
    }

    #[verifier::opaque]
    open spec fn parse(d: Doc, at: Seq<char>) -> Result<Doc, Fault> {
        match d {
            Doc::Object(m) => {
                let file_id = field::<i32>(m, "fileId"@);
                if file_id is Err {
                    file_id
                } else {
                    Ok(
                        tagged(
                            Map::empty()
                                .insert("fileId"@, file_id->Ok_0),
                            "getAttachedStickerSets"@,
                        ),
                    )
                }
            },
            _ => Err(Fault::TypeMismatch(at)),
        }
    }

    fn encode(&self) -> (j: Json) {
        proof {
            reveal(<GetAttachedStickerSets as Wire>::wire);
        }
        let mut members: Vec<Member> = Vec::new();
        put(&mut members, "fileId", self.file_id.encode());
        seal(members, "getAttachedStickerSets")
    }

    fn decode(j: &Json, at: &str) -> (r: Result<Self, DecodeError>) {
        proof {
            reveal(<GetAttachedStickerSets as Wire>::wire);
            reveal(<GetAttachedStickerSets as Wire>::parse);
        }
        let members = members_of(j, at)?;
        let file_id = read_field::<i32>(members, "fileId")?;
        Ok(GetAttachedStickerSets { file_id })
    }

    proof fn round_trip(&self, at: Seq<char>) {
        reveal(<GetAttachedStickerSets as Wire>::wire);
        reveal(<GetAttachedStickerSets as Wire>::parse);
        reveal_strlit("@type");
        reveal_strlit("fileId");
        assert("@type"@.len() == 5);
        assert("fileId"@.len() == 6);
        self.file_id.round_trip("fileId"@);
    }
}

impl Tagged for GetAttachedStickerSets {
    open spec fn known(tag: Seq<char>) -> bool {
        tag == "getAttachedStickerSets"@
    }

    fn knows(tag: &str) -> (r: bool) {
        same_text(tag, "getAttachedStickerSets")
    }

    proof fn tag_known(&self) {
        reveal(<GetAttachedStickerSets as Wire>::wire);
        assert(tag_of(self.wire()) == Some("getAttachedStickerSets"@));
        assert(Self::known("getAttachedStickerSets"@));
    }
}

impl Method for GetAttachedStickerSets {
    const TYPE: &'static str = "getAttachedStickerSets";

    type Response = StickerSets;

    proof fn type_is_tag(&self) {
        reveal(<GetAttachedStickerSets as Wire>::wire);
        assert(tag_of(self.wire()) == Some("getAttachedStickerSets"@));
    }
}

/// Returns information about a sticker set by its identifier
#[derive(Debug, Clone)]
pub struct GetStickerSet {
    /// Identifier of the sticker set
    pub set_id: i64,
}

impl Wire for GetStickerSet {
    #[verifier::opaque]
    open spec fn wire(&self) -> Doc {
        tagged(
            Map::empty()
                .insert("setId"@, wide_doc(self.set_id)),
            "getStickerSet"@,
        )
    }

    #[verifier::opaque]
    open spec fn parse(d: Doc, at: Seq<char>) -> Result<Doc, Fault> {
        match d {
            Doc::Object(m) => {
                let set_id = wide_field(m, "setId"@);
                if set_id is Err {
                    set_id
                } else {
                    Ok(
                        tagged(
                            Map::empty()
                                .insert("setId"@, set_id->Ok_0),
                            "getStickerSet"@,
                        ),
                    )
                }
            },
            _ => Err(Fault::TypeMismatch(at)),
        }
    }

    fn encode(&self) -> (j: Json) {
        proof {
            reveal(<GetStickerSet as Wire>::wire);
        }
        let mut members: Vec<Member> = Vec::new();
        put(&mut members, "setId", encode_wide(self.set_id));
        seal(members, "getStickerSet")
    }

    fn decode(j: &Json, at: &str) -> (r: Result<Self, DecodeError>) {
        proof {
            reveal(<GetStickerSet as Wire>::wire);
            reveal(<GetStickerSet as Wire>::parse);
        }
        let members = members_of(j, at)?;
        let set_id = read_wide(members, "setId")?;
        Ok(GetStickerSet { set_id })
    }

    proof fn round_trip(&self, at: Seq<char>) {
        reveal(<GetStickerSet as Wire>::wire);
        reveal(<GetStickerSet as Wire>::parse);
        reveal_strlit("@type");
        reveal_strlit("setId");
        assert("@type"@.len() == 5 && "@type"@[0] == '@');
        assert("setId"@.len() == 5 && "setId"@[0] == 's');
        lemma_wide_round_trip(self.set_id, "setId"@);
    }
}

impl Tagged for GetStickerSet {
    open spec fn known(tag: Seq<char>) -> bool {
        tag == "getStickerSet"@
    }

    fn knows(tag: &str) -> (r: bool) {
        same_text(tag, "getStickerSet")
    }

    proof fn tag_known(&self) {
        reveal(<GetStickerSet as Wire>::wire);
        assert(tag_of(self.wire()) == Some("getStickerSet"@));
        assert(Self::known("getStickerSet"@));
    }
}

impl Method for GetStickerSet {
    const TYPE: &'static str = "getStickerSet";

    type Response = StickerSet;

    proof fn type_is_tag(&self) {
        reveal(<GetStickerSet as Wire>::wire);
        assert(tag_of(self.wire()) == Some("getStickerSet"@));
    }
}

/// Searches for a sticker set by its name
#[derive(Debug, Clone)]
pub struct SearchStickerSet {
    /// Name of the sticker set
    pub name: String,
}

impl Wire for SearchStickerSet {
    #[verifier::opaque]
    open spec fn wire(&self) -> Doc {
        tagged(
            Map::empty()
                .insert("name"@, self.name.wire()),
            "searchStickerSet"@,
        )
    }

    #[verifier::opaque]
    open spec fn parse(d: Doc, at: Seq<char>) -> Result<Doc, Fault> {
        match d {
            Doc::Object(m) => {
                let name = field::<String>(m, "name"@);
                if name is Err {
                    name
                } else {
                    Ok(
                        tagged(
                            Map::empty()
                                .insert("name"@, name->Ok_0),
                            "searchStickerSet"@,
                        ),
                    )
                }
            },
            _ => Err(Fault::TypeMismatch(at)),
        }
    }

    fn encode(&self) -> (j: Json) {
        proof {
            reveal(<SearchStickerSet as Wire>::wire);
        }
        let mut members: Vec<Member> = Vec::new();
        put(&mut members, "name", self.name.encode());
        seal(members, "searchStickerSet")
    }

    fn decode(j: &Json, at: &str) -> (r: Result<Self, DecodeError>) {
        proof {
            reveal(<SearchStickerSet as Wire>::wire);
            reveal(<SearchStickerSet as Wire>::parse);
        }
        let members = members_of(j, at)?;
        let name = read_field::<String>(members, "name")?;
        Ok(SearchStickerSet { name })
    }

    proof fn round_trip(&self, at: Seq<char>) {
        reveal(<SearchStickerSet as Wire>::wire);
        reveal(<SearchStickerSet as Wire>::parse);
        reveal_strlit("@type");
        reveal_strlit("name");
        assert("@type"@.len() == 5);
        assert("name"@.len() == 4);
        self.name.round_trip("name"@);
    }
}

impl Tagged for SearchStickerSet {
    open spec fn known(tag: Seq<char>) -> bool {
        tag == "searchStickerSet"@
    }

    fn knows(tag: &str) -> (r: bool) {
        same_text(tag, "searchStickerSet")
    }

    proof fn tag_known(&self) {
        reveal(<SearchStickerSet as Wire>::wire);
        assert(tag_of(self.wire()) == Some("searchStickerSet"@));
        assert(Self::known("searchStickerSet"@));
    }
}

impl Method for SearchStickerSet {
    const TYPE: &'static str = "searchStickerSet";

    type Response = StickerSet;

    proof fn type_is_tag(&self) {
        reveal(<SearchStickerSet as Wire>::wire);
        assert(tag_of(self.wire()) == Some("searchStickerSet"@));
    }
}

/// Searches for installed sticker sets by looking for specified query in their title and name
#[derive(Debug, Clone)]
pub struct SearchInstalledStickerSets {
    /// Pass true to return mask sticker sets; pass false to return ordinary sticker sets
    pub is_masks: bool,
    /// Query to search for
    pub query: String,
    /// The maximum number of sticker sets to return
    pub limit: i32,
}

impl Wire for SearchInstalledStickerSets {
    #[verifier::opaque]
    open spec fn wire(&self) -> Doc {
        tagged(
            Map::empty()
                .insert("isMasks"@, self.is_masks.wire())
                .insert("query"@, self.query.wire())
                .insert("limit"@, self.limit.wire()),
            "searchInstalledStickerSets"@,
        )
    }

    #[verifier::opaque]
    open spec fn parse(d: Doc, at: Seq<char>) -> Result<Doc, Fault> {
        match d {
            Doc::Object(m) => {
                let is_masks = field::<bool>(m, "isMasks"@);
                let query = field::<String>(m, "query"@);
                let limit = field::<i32>(m, "limit"@);
                if is_masks is Err {
                    is_masks
                } else if query is Err {
                    query
                } else if limit is Err {
                    limit
                } else {
                    Ok(
                        tagged(
                            Map::empty()
                                .insert("isMasks"@, is_masks->Ok_0)
                                .insert("query"@, query->Ok_0)
                                .insert("limit"@, limit->Ok_0),
                            "searchInstalledStickerSets"@,
                        ),
                    )
                }
            },
            _ => Err(Fault::TypeMismatch(at)),
        }
    }

    fn encode(&self) -> (j: Json) {
        proof {
            reveal(<SearchInstalledStickerSets as Wire>::wire);
        }
        let mut members: Vec<Member> = Vec::new();
        put(&mut members, "isMasks", self.is_masks.encode());
        put(&mut members, "query", self.query.encode());
        put(&mut members, "limit", self.limit.encode());
        seal(members, "searchInstalledStickerSets")
    }

    fn decode(j: &Json, at: &str) -> (r: Result<Self, DecodeError>) {
        proof {
            reveal(<SearchInstalledStickerSets as Wire>::wire);
            reveal(<SearchInstalledStickerSets as Wire>::parse);
        }
        let members = members_of(j, at)?;
        let is_masks = read_field::<bool>(members, "isMasks")?;
        let query = read_field::<String>(members, "query")?;
        let limit = read_field::<i32>(members, "limit")?;
        Ok(SearchInstalledStickerSets { is_masks, query, limit })
    }

    proof fn round_trip(&self, at: Seq<char>) {
        reveal(<SearchInstalledStickerSets as Wire>::wire);
        reveal(<SearchInstalledStickerSets as Wire>::parse);
        reveal_strlit("@type");
        reveal_strlit("isMasks");
        reveal_strlit("limit");
        reveal_strlit("query");
        assert("@type"@.len() == 5 && "@type"@[0] == '@');
        assert("isMasks"@.len() == 7);
        assert("limit"@.len() == 5 && "limit"@[0] == 'l');
        assert("query"@.len() == 5 && "query"@[0] == 'q');
        self.is_masks.round_trip("isMasks"@);
        self.query.round_trip("query"@);
        self.limit.round_trip("limit"@);
    }
}

impl Tagged for SearchInstalledStickerSets {
    open spec fn known(tag: Seq<char>) -> bool {
        tag == "searchInstalledStickerSets"@
    }

    fn knows(tag: &str) -> (r: bool) {
        same_text(tag, "searchInstalledStickerSets")
    }

    proof fn tag_known(&self) {
        reveal(<SearchInstalledStickerSets as Wire>::wire);
        assert(tag_of(self.wire()) == Some("searchInstalledStickerSets"@));
        assert(Self::known("searchInstalledStickerSets"@));
    }
}

impl Method for SearchInstalledStickerSets {
    const TYPE: &'static str = "searchInstalledStickerSets";

    type Response = StickerSets;

    proof fn type_is_tag(&self) {
        reveal(<SearchInstalledStickerSets as Wire>::wire);
        assert(tag_of(self.wire()) == Some("searchInstalledStickerSets"@));
    }
}

/// Searches for ordinary sticker sets by looking for specified query in their title and name.
/// Excludes installed sticker sets from the results
#[derive(Debug, Clone)]
pub struct SearchStickerSets {
    /// Query to search for
    pub query: String,
}

impl Wire for SearchStickerSets {
    #[verifier::opaque]
    open spec fn wire(&self) -> Doc {
        tagged(
            Map::empty()
                .insert("query"@, self.query.wire()),
            "searchStickerSets"@,
        )
    }

    #[verifier::opaque]
    open spec fn parse(d: Doc, at: Seq<char>) -> Result<Doc, Fault> {
        match d {
            Doc::Object(m) => {
                let query = field::<String>(m, "query"@);
                if query is Err {
                    query
                } else {
                    Ok(
                        tagged(
                            Map::empty()
                                .insert("query"@, query->Ok_0),
                            "searchStickerSets"@,
                        ),
                    )
                }
            },
            _ => Err(Fault::TypeMismatch(at)),
        }
    }

    fn encode(&self) -> (j: Json) {
        proof {
            reveal(<SearchStickerSets as Wire>::wire);
        }
        let mut members: Vec<Member> = Vec::new();
        put(&mut members, "query", self.query.encode());
        seal(members, "searchStickerSets")
    }

    fn decode(j: &Json, at: &str) -> (r: Result<Self, DecodeError>) {
        proof {
            reveal(<SearchStickerSets as Wire>::wire);
            reveal(<SearchStickerSets as Wire>::parse);
        }
        let members = members_of(j, at)?;
        let query = read_field::<String>(members, "query")?;
        Ok(SearchStickerSets { query })
    }

    proof fn round_trip(&self, at: Seq<char>) {
        reveal(<SearchStickerSets as Wire>::wire);
        reveal(<SearchStickerSets as Wire>::parse);
        reveal_strlit("@type");
        reveal_strlit("query");
        assert("@type"@.len() == 5 && "@type"@[0] == '@');
        assert("query"@.len() == 5 && "query"@[0] == 'q');
        self.query.round_trip("query"@);
    }
}

impl Tagged for SearchStickerSets {
    open spec fn known(tag: Seq<char>) -> bool {
        tag == "searchStickerSets"@
    }

    fn knows(tag: &str) -> (r: bool) {
        same_text(tag, "searchStickerSets")
    }

    proof fn tag_known(&self) {
        reveal(<SearchStickerSets as Wire>::wire);
        assert(tag_of(self.wire()) == Some("searchStickerSets"@));
        assert(Self::known("searchStickerSets"@));
    }
}

impl Method for SearchStickerSets {
    const TYPE: &'static str = "searchStickerSets";

    type Response = StickerSets;

    proof fn type_is_tag(&self) {
        reveal(<SearchStickerSets as Wire>::wire);
        assert(tag_of(self.wire()) == Some("searchStickerSets"@));
    }
}

/// Installs/uninstalls or activates/archives a sticker set
#[derive(Debug, Clone)]
pub struct ChangeStickerSet {
    /// Identifier of the sticker set
    pub set_id: i64,
    /// The new value of is_installed
    pub is_installed: bool,
    /// The new value of is_archived. A sticker set can't be installed and archived simultaneously
    pub is_archived: bool,
}

impl Wire for ChangeStickerSet {
    #[verifier::opaque]
    open spec fn wire(&self) -> Doc {
        tagged(
            Map::empty()
                .insert("setId"@, wide_doc(self.set_id))
                .insert("isInstalled"@, self.is_installed.wire())
                .insert("isArchived"@, self.is_archived.wire()),
            "changeStickerSet"@,
        )
    }

    #[verifier::opaque]
    open spec fn parse(d: Doc, at: Seq<char>) -> Result<Doc, Fault> {
        match d {
            Doc::Object(m) => {
                let set_id = wide_field(m, "setId"@);
                let is_installed = field::<bool>(m, "isInstalled"@);
                let is_archived = field::<bool>(m, "isArchived"@);
                if set_id is Err {
                    set_id
                } else if is_installed is Err {
                    is_installed
                } else if is_archived is Err {
                    is_archived
                } else {
                    Ok(
                        tagged(
                            Map::empty()
                                .insert("setId"@, set_id->Ok_0)
                                .insert("isInstalled"@, is_installed->Ok_0)
                                .insert("isArchived"@, is_archived->Ok_0),
                            "changeStickerSet"@,
                        ),
                    )
                }
            },
            _ => Err(Fault::TypeMismatch(at)),
        }
    }

    fn encode(&self) -> (j: Json) {
        proof {
            reveal(<ChangeStickerSet as Wire>::wire);
        }
        let mut members: Vec<Member> = Vec::new();
        put(&mut members, "setId", encode_wide(self.set_id));
        put(&mut members, "isInstalled", self.is_installed.encode());
        put(&mut members, "isArchived", self.is_archived.encode());
        seal(members, "changeStickerSet")
    }

    fn decode(j: &Json, at: &str) -> (r: Result<Self, DecodeError>) {
        proof {
            reveal(<ChangeStickerSet as Wire>::wire);
            reveal(<ChangeStickerSet as Wire>::parse);
        }
        let members = members_of(j, at)?;
        let set_id = read_wide(members, "setId")?;
        let is_installed = read_field::<bool>(members, "isInstalled")?;
        let is_archived = read_field::<bool>(members, "isArchived")?;
        Ok(ChangeStickerSet { set_id, is_installed, is_archived })
    }

    proof fn round_trip(&self, at: Seq<char>) {
        reveal(<ChangeStickerSet as Wire>::wire);
        reveal(<ChangeStickerSet as Wire>::parse);
        reveal_strlit("@type");
        reveal_strlit("isArchived");
        reveal_strlit("isInstalled");
        reveal_strlit("setId");
        assert("@type"@.len() == 5 && "@type"@[0] == '@');
        assert("isArchived"@.len() == 10);
        assert("isInstalled"@.len() == 11);
        assert("setId"@.len() == 5 && "setId"@[0] == 's');
        lemma_wide_round_trip(self.set_id, "setId"@);
        self.is_installed.round_trip("isInstalled"@);
        self.is_archived.round_trip("isArchived"@);
    }
}

impl Tagged for ChangeStickerSet {
    open spec fn known(tag: Seq<char>) -> bool {
        tag == "changeStickerSet"@
    }

    fn knows(tag: &str) -> (r: bool) {
        same_text(tag, "changeStickerSet")
    }

    proof fn tag_known(&self) {
        reveal(<ChangeStickerSet as Wire>::wire);
        assert(tag_of(self.wire()) == Some("changeStickerSet"@));
        assert(Self::known("changeStickerSet"@));
    }
}

impl Method for ChangeStickerSet {
    const TYPE: &'static str = "changeStickerSet";

    type Response = Okay;

    proof fn type_is_tag(&self) {
        reveal(<ChangeStickerSet as Wire>::wire);
        assert(tag_of(self.wire()) == Some("changeStickerSet"@));
    }
}

/// Informs the server that some trending sticker sets have been viewed by the user
#[derive(Debug, Clone)]
pub struct ViewTrendingStickerSets {
    /// Identifiers of viewed trending sticker sets
    pub sticker_set_ids: Vec<i64>,
}

impl Wire for ViewTrendingStickerSets {
    #[verifier::opaque]
    open spec fn wire(&self) -> Doc {
        tagged(
            Map::empty()
                .insert("stickerSetIds"@, self.sticker_set_ids.wire()),
            "viewTrendingStickerSets"@,
        )
    }

    #[verifier::opaque]
    open spec fn parse(d: Doc, at: Seq<char>) -> Result<Doc, Fault> {
        match d {
            Doc::Object(m) => {
                let sticker_set_ids = field::<Vec<i64>>(m, "stickerSetIds"@);
                if sticker_set_ids is Err {
                    sticker_set_ids
                } else {
                    Ok(
                        tagged(
                            Map::empty()
                                .insert("stickerSetIds"@, sticker_set_ids->Ok_0),
                            "viewTrendingStickerSets"@,
                        ),
                    )
                }
            },
            _ => Err(Fault::TypeMismatch(at)),
        }
    }

    fn encode(&self) -> (j: Json) {
        proof {
            reveal(<ViewTrendingStickerSets as Wire>::wire);
        }
        let mut members: Vec<Member> = Vec::new();
        put(&mut members, "stickerSetIds", self.sticker_set_ids.encode());
        seal(members, "viewTrendingStickerSets")
    }

    fn decode(j: &Json, at: &str) -> (r: Result<Self, DecodeError>) {
        proof {
            reveal(<ViewTrendingStickerSets as Wire>::wire);
            reveal(<ViewTrendingStickerSets as Wire>::parse);
        }
        let members = members_of(j, at)?;
        let sticker_set_ids = read_field::<Vec<i64>>(members, "stickerSetIds")?;
        Ok(ViewTrendingStickerSets { sticker_set_ids })
    }

    proof fn round_trip(&self, at: Seq<char>) {
        reveal(<ViewTrendingStickerSets as Wire>::wire);
        reveal(<ViewTrendingStickerSets as Wire>::parse);
        reveal_strlit("@type");
        reveal_strlit("stickerSetIds");
        assert("@type"@.len() == 5);
        assert("stickerSetIds"@.len() == 13);
        self.sticker_set_ids.round_trip("stickerSetIds"@);
    }
}

impl Tagged for ViewTrendingStickerSets {
    open spec fn known(tag: Seq<char>) -> bool {
        tag == "viewTrendingStickerSets"@
    }

    fn knows(tag: &str) -> (r: bool) {
        same_text(tag, "viewTrendingStickerSets")
    }

    proof fn tag_known(&self) {
        reveal(<ViewTrendingStickerSets as Wire>::wire);
        assert(tag_of(self.wire()) == Some("viewTrendingStickerSets"@));
        assert(Self::known("viewTrendingStickerSets"@));
    }
}

impl Method for ViewTrendingStickerSets {
    const TYPE: &'static str = "viewTrendingStickerSets";

    type Response = Okay;

    proof fn type_is_tag(&self) {
        reveal(<ViewTrendingStickerSets as Wire>::wire);
        assert(tag_of(self.wire()) == Some("viewTrendingStickerSets"@));
    }
}

/// Changes the order of installed sticker sets
#[derive(Debug, Clone)]
pub struct ReorderInstalledStickerSets {
    /// Pass true to change the order of mask sticker sets; pass false to change the order of
    /// ordinary sticker sets
    pub is_masks: bool,
    /// Identifiers of installed sticker sets in the new correct order
    pub sticker_set_ids: Vec<i64>,
}

impl Wire for ReorderInstalledStickerSets {
    #[verifier::opaque]
    open spec fn wire(&self) -> Doc {
        tagged(
            Map::empty()
                .insert("isMasks"@, self.is_masks.wire())
                .insert("stickerSetIds"@, self.sticker_set_ids.wire()),
            "reorderInstalledStickerSets"@,
        )
    }

    #[verifier::opaque]
    open spec fn parse(d: Doc, at: Seq<char>) -> Result<Doc, Fault> {
        match d {
            Doc::Object(m) => {
                let is_masks = field::<bool>(m, "isMasks"@);
                let sticker_set_ids = field::<Vec<i64>>(m, "stickerSetIds"@);
                if is_masks is Err {
                    is_masks
                } else if sticker_set_ids is Err {
                    sticker_set_ids
                } else {
                    Ok(
                        tagged(
                            Map::empty()
                                .insert("isMasks"@, is_masks->Ok_0)
                                .insert("stickerSetIds"@, sticker_set_ids->Ok_0),
                            "reorderInstalledStickerSets"@,
                        ),
                    )
                }
            },
            _ => Err(Fault::TypeMismatch(at)),
        }
    }

    fn encode(&self) -> (j: Json) {
        proof {
            reveal(<ReorderInstalledStickerSets as Wire>::wire);
        }
        let mut members: Vec<Member> = Vec::new();
        put(&mut members, "isMasks", self.is_masks.encode());
        put(&mut members, "stickerSetIds", self.sticker_set_ids.encode());
        seal(members, "reorderInstalledStickerSets")
    }

    fn decode(j: &Json, at: &str) -> (r: Result<Self, DecodeError>) {
        proof {
            reveal(<ReorderInstalledStickerSets as Wire>::wire);
            reveal(<ReorderInstalledStickerSets as Wire>::parse);
        }
        let members = members_of(j, at)?;
        let is_masks = read_field::<bool>(members, "isMasks")?;
        let sticker_set_ids = read_field::<Vec<i64>>(members, "stickerSetIds")?;
        Ok(ReorderInstalledStickerSets { is_masks, sticker_set_ids })
    }

    proof fn round_trip(&self, at: Seq<char>) {
        reveal(<ReorderInstalledStickerSets as Wire>::wire);
        reveal(<ReorderInstalledStickerSets as Wire>::parse);
        reveal_strlit("@type");
        reveal_strlit("isMasks");
        reveal_strlit("stickerSetIds");
        assert("@type"@.len() == 5);
        assert("isMasks"@.len() == 7);
        assert("stickerSetIds"@.len() == 13);
        self.is_masks.round_trip("isMasks"@);
        self.sticker_set_ids.round_trip("stickerSetIds"@);
    }
}

impl Tagged for ReorderInstalledStickerSets {
    open spec fn known(tag: Seq<char>) -> bool {
        tag == "reorderInstalledStickerSets"@
    }

    fn knows(tag: &str) -> (r: bool) {
        same_text(tag, "reorderInstalledStickerSets")
    }

    proof fn tag_known(&self) {
        reveal(<ReorderInstalledStickerSets as Wire>::wire);
        assert(tag_of(self.wire()) == Some("reorderInstalledStickerSets"@));
        assert(Self::known("reorderInstalledStickerSets"@));
    }
}

impl Method for ReorderInstalledStickerSets {
    const TYPE: &'static str = "reorderInstalledStickerSets";

    type Response = Okay;

    proof fn type_is_tag(&self) {
        reveal(<ReorderInstalledStickerSets as Wire>::wire);
        assert(tag_of(self.wire()) == Some("reorderInstalledStickerSets"@));
    }
}

/// Returns a list of recently used stickers
#[derive(Debug, Clone)]
pub struct GetRecentStickers {
    /// Pass true to return stickers and masks that were recently attached to photos or video files;
    /// pass false to return recently sent stickers
    pub is_attached: bool,
}

impl Wire for GetRecentStickers {
    #[verifier::opaque]
    open spec fn wire(&self) -> Doc {
        tagged(
            Map::empty()
                .insert("isAttached"@, self.is_attached.wire()),
            "getRecentStickers"@,
        )
    }

    #[verifier::opaque]
    open spec fn parse(d: Doc, at: Seq<char>) -> Result<Doc, Fault> {
        match d {
            Doc::Object(m) => {
                let is_attached = field::<bool>(m, "isAttached"@);
                if is_attached is Err {
                    is_attached
                } else {
                    Ok(
                        tagged(
                            Map::empty()
                                .insert("isAttached"@, is_attached->Ok_0),
                            "getRecentStickers"@,
                        ),
                    )
                }
            },
            _ => Err(Fault::TypeMismatch(at)),
        }
    }

    fn encode(&self) -> (j: Json) {
        proof {
            reveal(<GetRecentStickers as Wire>::wire);
        }
        let mut members: Vec<Member> = Vec::new();
        put(&mut members, "isAttached", self.is_attached.encode());
        seal(members, "getRecentStickers")
    }

    fn decode(j: &Json, at: &str) -> (r: Result<Self, DecodeError>) {
        proof {
            reveal(<GetRecentStickers as Wire>::wire);
            reveal(<GetRecentStickers as Wire>::parse);
        }
        let members = members_of(j, at)?;
        let is_attached = read_field::<bool>(members, "isAttached")?;
        Ok(GetRecentStickers { is_attached })
    }

    proof fn round_trip(&self, at: Seq<char>) {
        reveal(<GetRecentStickers as Wire>::wire);
        reveal(<GetRecentStickers as Wire>::parse);
        reveal_strlit("@type");
        reveal_strlit("isAttached");
        assert("@type"@.len() == 5);
        assert("isAttached"@.len() == 10);
        self.is_attached.round_trip("isAttached"@);
    }
}

impl Tagged for GetRecentStickers {
    open spec fn known(tag: Seq<char>) -> bool {
        tag == "getRecentStickers"@
    }

    fn knows(tag: &str) -> (r: bool) {
        same_text(tag, "getRecentStickers")
    }

    proof fn tag_known(&self) {
        reveal(<GetRecentStickers as Wire>::wire);
        assert(tag_of(self.wire()) == Some("getRecentStickers"@));
        assert(Self::known("getRecentStickers"@));
    }
}

impl Method for GetRecentStickers {
    const TYPE: &'static str = "getRecentStickers";

    type Response = Stickers;

    proof fn type_is_tag(&self) {
        reveal(<GetRecentStickers as Wire>::wire);
        assert(tag_of(self.wire()) == Some("getRecentStickers"@));
    }
}

/// Manually adds a new sticker to the list of recently used stickers. The new sticker is added to
/// the top of the list. If the sticker was already in the list, it is removed from the list first.
/// Only stickers belonging to a sticker set can be added to this list
#[derive(Debug, Clone)]
pub struct AddRecentSticker {
    /// Pass true to add the sticker to the list of stickers recently attached to photo or video
    /// files; pass false to add the sticker to the list of recently sent stickers
    pub is_attached: bool,
    /// Sticker file to add
    pub sticker: InputFile,
}

impl Wire for AddRecentSticker {
    #[verifier::opaque]
    open spec fn wire(&self) -> Doc {
        tagged(
            Map::empty()
                .insert("isAttached"@, self.is_attached.wire())
                .insert("sticker"@, self.sticker.wire()),
            "addRecentSticker"@,
        )
    }

    #[verifier::opaque]
    open spec fn parse(d: Doc, at: Seq<char>) -> Result<Doc, Fault> {
        match d {
            Doc::Object(m) => {
                let is_attached = field::<bool>(m, "isAttached"@);
                let sticker = field::<InputFile>(m, "sticker"@);
                if is_attached is Err {
                    is_attached
                } else if sticker is Err {
                    sticker
                } else {
                    Ok(
                        tagged(
                            Map::empty()
                                .insert("isAttached"@, is_attached->Ok_0)
                                .insert("sticker"@, sticker->Ok_0),
                            "addRecentSticker"@,
                        ),
                    )
                }
            },
            _ => Err(Fault::TypeMismatch(at)),
        }
    }

    fn encode(&self) -> (j: Json) {
        proof {
            reveal(<AddRecentSticker as Wire>::wire);
        }
        let mut members: Vec<Member> = Vec::new();
        put(&mut members, "isAttached", self.is_attached.encode());
        put(&mut members, "sticker", self.sticker.encode());
        seal(members, "addRecentSticker")
    }

    fn decode(j: &Json, at: &str) -> (r: Result<Self, DecodeError>) {
        proof {
            reveal(<AddRecentSticker as Wire>::wire);
            reveal(<AddRecentSticker as Wire>::parse);
        }
        let members = members_of(j, at)?;
        let is_attached = read_field::<bool>(members, "isAttached")?;
        let sticker = read_field::<InputFile>(members, "sticker")?;
        Ok(AddRecentSticker { is_attached, sticker })
    }

    proof fn round_trip(&self, at: Seq<char>) {
        reveal(<AddRecentSticker as Wire>::wire);
        reveal(<AddRecentSticker as Wire>::parse);
        reveal_strlit("@type");
        reveal_strlit("isAttached");
        reveal_strlit("sticker");
        assert("@type"@.len() == 5);
        assert("isAttached"@.len() == 10);
        assert("sticker"@.len() == 7);
        self.is_attached.round_trip("isAttached"@);
        self.sticker.round_trip("sticker"@);
    }
}

impl Tagged for AddRecentSticker {
    open spec fn known(tag: Seq<char>) -> bool {
        tag == "addRecentSticker"@
    }

    fn knows(tag: &str) -> (r: bool) {
        same_text(tag, "addRecentSticker")
    }

    proof fn tag_known(&self) {
        reveal(<AddRecentSticker as Wire>::wire);
        assert(tag_of(self.wire()) == Some("addRecentSticker"@));
        assert(Self::known("addRecentSticker"@));
    }
}

impl Method for AddRecentSticker {
    const TYPE: &'static str = "addRecentSticker";

    type Response = Stickers;

    proof fn type_is_tag(&self) {
        reveal(<AddRecentSticker as Wire>::wire);
        assert(tag_of(self.wire()) == Some("addRecentSticker"@));
    }
}

/// Removes a sticker from the list of recently used stickers
#[derive(Debug, Clone)]
pub struct RemoveRecentSticker {
    /// Pass true to remove the sticker from the list of stickers recently attached to photo or
    /// video files; pass false to remove the sticker from the list of recently sent stickers
    pub is_attached: bool,
    /// Sticker file to delete
    pub sticker: InputFile,
}

impl Wire for RemoveRecentSticker {
    #[verifier::opaque]
    open spec fn wire(&self) -> Doc {
        tagged(
            Map::empty()
                .insert("isAttached"@, self.is_attached.wire())
                .insert("sticker"@, self.sticker.wire()),
            "removeRecentSticker"@,
        )
    }

    #[verifier::opaque]
    open spec fn parse(d: Doc, at: Seq<char>) -> Result<Doc, Fault> {
        match d {
            Doc::Object(m) => {
                let is_attached = field::<bool>(m, "isAttached"@);
                let sticker = field::<InputFile>(m, "sticker"@);
                if is_attached is Err {
                    is_attached
                } else if sticker is Err {
                    sticker
                } else {
                    Ok(
                        tagged(
                            Map::empty()
                                .insert("isAttached"@, is_attached->Ok_0)
                                .insert("sticker"@, sticker->Ok_0),
                            "removeRecentSticker"@,
                        ),
                    )
                }
            },
            _ => Err(Fault::TypeMismatch(at)),
        }
    }

    fn encode(&self) -> (j: Json) {
        proof {
            reveal(<RemoveRecentSticker as Wire>::wire);
        }
        let mut members: Vec<Member> = Vec::new();
        put(&mut members, "isAttached", self.is_attached.encode());
        put(&mut members, "sticker", self.sticker.encode());
        seal(members, "removeRecentSticker")
    }

    fn decode(j: &Json, at: &str) -> (r: Result<Self, DecodeError>) {
        proof {
            reveal(<RemoveRecentSticker as Wire>::wire);
            reveal(<RemoveRecentSticker as Wire>::parse);
        }
        let members = members_of(j, at)?;
        let is_attached = read_field::<bool>(members, "isAttached")?;
        let sticker = read_field::<InputFile>(members, "sticker")?;
        Ok(RemoveRecentSticker { is_attached, sticker })
    }

    proof fn round_trip(&self, at: Seq<char>) {
        reveal(<RemoveRecentSticker as Wire>::wire);
        reveal(<RemoveRecentSticker as Wire>::parse);
        reveal_strlit("@type");
        reveal_strlit("isAttached");
        reveal_strlit("sticker");
        assert("@type"@.len() == 5);
        assert("isAttached"@.len() == 10);
        assert("sticker"@.len() == 7);
        self.is_attached.round_trip("isAttached"@);
        self.sticker.round_trip("sticker"@);
    }
}

impl Tagged for RemoveRecentSticker {
    open spec fn known(tag: Seq<char>) -> bool {
        tag == "removeRecentSticker"@
    }

    fn knows(tag: &str) -> (r: bool) {
        same_text(tag, "removeRecentSticker")
    }

    proof fn tag_known(&self) {
        reveal(<RemoveRecentSticker as Wire>::wire);
        assert(tag_of(self.wire()) == Some("removeRecentSticker"@));
        assert(Self::known("removeRecentSticker"@));
    }
}

impl Method for RemoveRecentSticker {
    const TYPE: &'static str = "removeRecentSticker";

    type Response = Okay;

    proof fn type_is_tag(&self) {
        reveal(<RemoveRecentSticker as Wire>::wire);
        assert(tag_of(self.wire()) == Some("removeRecentSticker"@));
    }
}

/// Clears the list of recently used stickers
#[derive(Debug, Clone)]
pub struct ClearRecentStickers {
    /// Pass true to clear the list of stickers recently attached to photo or video files; pass
    /// false to clear the list of recently sent stickers
    pub is_attached: bool,
}

impl Wire for ClearRecentStickers {
    #[verifier::opaque]
    open spec fn wire(&self) -> Doc {
        tagged(
            Map::empty()
                .insert("isAttached"@, self.is_attached.wire()),
            "clearRecentStickers"@,
        )
    }

    #[verifier::opaque]
    open spec fn parse(d: Doc, at: Seq<char>) -> Result<Doc, Fault> {
        match d {
            Doc::Object(m) => {
                let is_attached = field::<bool>(m, "isAttached"@);
                if is_attached is Err {
                    is_attached
                } else {
                    Ok(
                        tagged(
                            Map::empty()
                                .insert("isAttached"@, is_attached->Ok_0),
                            "clearRecentStickers"@,
                        ),
                    )
                }
            },
            _ => Err(Fault::TypeMismatch(at)),
        }
    }

    fn encode(&self) -> (j: Json) {
        proof {
            reveal(<ClearRecentStickers as Wire>::wire);
        }
        let mut members: Vec<Member> = Vec::new();
        put(&mut members, "isAttached", self.is_attached.encode());
        seal(members, "clearRecentStickers")
    }

    fn decode(j: &Json, at: &str) -> (r: Result<Self, DecodeError>) {
        proof {
            reveal(<ClearRecentStickers as Wire>::wire);
            reveal(<ClearRecentStickers as Wire>::parse);
        }
        let members = members_of(j, at)?;
        let is_attached = read_field::<bool>(members, "isAttached")?;
        Ok(ClearRecentStickers { is_attached })
    }

    proof fn round_trip(&self, at: Seq<char>) {
        reveal(<ClearRecentStickers as Wire>::wire);
        reveal(<ClearRecentStickers as Wire>::parse);
        reveal_strlit("@type");
        reveal_strlit("isAttached");
        assert("@type"@.len() == 5);
        assert("isAttached"@.len() == 10);
        self.is_attached.round_trip("isAttached"@);
    }
}

impl Tagged for ClearRecentStickers {
    open spec fn known(tag: Seq<char>) -> bool {
        tag == "clearRecentStickers"@
    }

    fn knows(tag: &str) -> (r: bool) {
        same_text(tag, "clearRecentStickers")
    }

    proof fn tag_known(&self) {
        reveal(<ClearRecentStickers as Wire>::wire);
        assert(tag_of(self.wire()) == Some("clearRecentStickers"@));
        assert(Self::known("clearRecentStickers"@));
    }
}

impl Method for ClearRecentStickers {
    const TYPE: &'static str = "clearRecentStickers";

    type Response = Okay;

    proof fn type_is_tag(&self) {
        reveal(<ClearRecentStickers as Wire>::wire);
        assert(tag_of(self.wire()) == Some("clearRecentStickers"@));
    }
}

/// Returns favorite stickers
#[derive(Debug, Clone)]
pub struct GetFavoriteStickers {}

impl Wire for GetFavoriteStickers {
    #[verifier::opaque]
    open spec fn wire(&self) -> Doc {
        tagged(Map::empty(), "getFavoriteStickers"@)
    }

    #[verifier::opaque]
    open spec fn parse(d: Doc, at: Seq<char>) -> Result<Doc, Fault> {
        match d {
            Doc::Object(_) => Ok(tagged(Map::empty(), "getFavoriteStickers"@)),
            _ => Err(Fault::TypeMismatch(at)),
        }
    }

    fn encode(&self) -> (j: Json) {
        proof {
            reveal(<GetFavoriteStickers as Wire>::wire);
        }
        seal(Vec::new(), "getFavoriteStickers")
    }

    fn decode(j: &Json, at: &str) -> (r: Result<Self, DecodeError>) {
        proof {
            reveal(<GetFavoriteStickers as Wire>::wire);
            reveal(<GetFavoriteStickers as Wire>::parse);
        }
        let _ = members_of(j, at)?;
        Ok(GetFavoriteStickers {})
    }

    proof fn round_trip(&self, at: Seq<char>) {
        reveal(<GetFavoriteStickers as Wire>::wire);
        reveal(<GetFavoriteStickers as Wire>::parse);
    }
}

impl Tagged for GetFavoriteStickers {
    open spec fn known(tag: Seq<char>) -> bool {
        tag == "getFavoriteStickers"@
    }

    fn knows(tag: &str) -> (r: bool) {
        same_text(tag, "getFavoriteStickers")
    }

    proof fn tag_known(&self) {
        reveal(<GetFavoriteStickers as Wire>::wire);
        assert(tag_of(self.wire()) == Some("getFavoriteStickers"@));
        assert(Self::known("getFavoriteStickers"@));
    }
}

impl Method for GetFavoriteStickers {
    const TYPE: &'static str = "getFavoriteStickers";

    type Response = Stickers;

    proof fn type_is_tag(&self) {
        reveal(<GetFavoriteStickers as Wire>::wire);
        assert(tag_of(self.wire()) == Some("getFavoriteStickers"@));
    }
}

/// Adds a new sticker to the list of favorite stickers. The new sticker is added to the top of the
/// list. If the sticker was already in the list, it is removed from the list first. Only stickers
/// belonging to a sticker set can be added to this list
#[derive(Debug, Clone)]
pub struct AddFavoriteSticker {
    /// Sticker file to add
    pub sticker: InputFile,
}

impl Wire for AddFavoriteSticker {
    #[verifier::opaque]
    open spec fn wire(&self) -> Doc {
        tagged(
            Map::empty()
                .insert("sticker"@, self.sticker.wire()),
            "addFavoriteSticker"@,
        )
    }

    #[verifier::opaque]
    open spec fn parse(d: Doc, at: Seq<char>) -> Result<Doc, Fault> {
        match d {
            Doc::Object(m) => {
                let sticker = field::<InputFile>(m, "sticker"@);
                if sticker is Err {
                    sticker
                } else {
                    Ok(
                        tagged(
                            Map::empty()
                                .insert("sticker"@, sticker->Ok_0),
                            "addFavoriteSticker"@,
                        ),
                    )
                }
            },
            _ => Err(Fault::TypeMismatch(at)),
        }
    }

    fn encode(&self) -> (j: Json) {
        proof {
            reveal(<AddFavoriteSticker as Wire>::wire);
        }
        let mut members: Vec<Member> = Vec::new();
        put(&mut members, "sticker", self.sticker.encode());
        seal(members, "addFavoriteSticker")
    }

    fn decode(j: &Json, at: &str) -> (r: Result<Self, DecodeError>) {
        proof {
            reveal(<AddFavoriteSticker as Wire>::wire);
            reveal(<AddFavoriteSticker as Wire>::parse);
        }
        let members = members_of(j, at)?;
        let sticker = read_field::<InputFile>(members, "sticker")?;
        Ok(AddFavoriteSticker { sticker })
    }

    proof fn round_trip(&self, at: Seq<char>) {
        reveal(<AddFavoriteSticker as Wire>::wire);
        reveal(<AddFavoriteSticker as Wire>::parse);
        reveal_strlit("@type");
        reveal_strlit("sticker");
        assert("@type"@.len() == 5);
        assert("sticker"@.len() == 7);
        self.sticker.round_trip("sticker"@);
    }
}

impl Tagged for AddFavoriteSticker {
    open spec fn known(tag: Seq<char>) -> bool {
        tag == "addFavoriteSticker"@
    }

    fn knows(tag: &str) -> (r: bool) {
        same_text(tag, "addFavoriteSticker")
    }

    proof fn tag_known(&self) {
        reveal(<AddFavoriteSticker as Wire>::wire);
        assert(tag_of(self.wire()) == Some("addFavoriteSticker"@));
        assert(Self::known("addFavoriteSticker"@));
    }
}

impl Method for AddFavoriteSticker {
    const TYPE: &'static str = "addFavoriteSticker";

    type Response = Okay;

    proof fn type_is_tag(&self) {
        reveal(<AddFavoriteSticker as Wire>::wire);
        assert(tag_of(self.wire()) == Some("addFavoriteSticker"@));
    }
}

/// Removes a sticker from the list of favorite stickers
#[derive(Debug, Clone)]
pub struct RemoveFavoriteSticker {
    /// Sticker file to delete from the list
    pub sticker: InputFile,
}

impl Wire for RemoveFavoriteSticker {
    #[verifier::opaque]
    open spec fn wire(&self) -> Doc {
        tagged(
            Map::empty()
                .insert("sticker"@, self.sticker.wire()),
            "removeFavoriteSticker"@,
        )
    }

    #[verifier::opaque]
    open spec fn parse(d: Doc, at: Seq<char>) -> Result<Doc, Fault> {
        match d {
            Doc::Object(m) => {
                let sticker = field::<InputFile>(m, "sticker"@);
                if sticker is Err {
                    sticker
                } else {
                    Ok(
                        tagged(
                            Map::empty()
                                .insert("sticker"@, sticker->Ok_0),
                            "removeFavoriteSticker"@,
                        ),
                    )
                }
            },
            _ => Err(Fault::TypeMismatch(at)),
        }
    }

    fn encode(&self) -> (j: Json) {
        proof {
            reveal(<RemoveFavoriteSticker as Wire>::wire);
        }
        let mut members: Vec<Member> = Vec::new();
        put(&mut members, "sticker", self.sticker.encode());
        seal(members, "removeFavoriteSticker")
    }

    fn decode(j: &Json, at: &str) -> (r: Result<Self, DecodeError>) {
        proof {
            reveal(<RemoveFavoriteSticker as Wire>::wire);
            reveal(<RemoveFavoriteSticker as Wire>::parse);
        }
        let members = members_of(j, at)?;
        let sticker = read_field::<InputFile>(members, "sticker")?;
        Ok(RemoveFavoriteSticker { sticker })
    }

    proof fn round_trip(&self, at: Seq<char>) {
        reveal(<RemoveFavoriteSticker as Wire>::wire);
        reveal(<RemoveFavoriteSticker as Wire>::parse);
        reveal_strlit("@type");
        reveal_strlit("sticker");
        assert("@type"@.len() == 5);
        assert("sticker"@.len() == 7);
        self.sticker.round_trip("sticker"@);
    }
}

impl Tagged for RemoveFavoriteSticker {
    open spec fn known(tag: Seq<char>) -> bool {
        tag == "removeFavoriteSticker"@
    }

    fn knows(tag: &str) -> (r: bool) {
        same_text(tag, "removeFavoriteSticker")
    }

    proof fn tag_known(&self) {
        reveal(<RemoveFavoriteSticker as Wire>::wire);
        assert(tag_of(self.wire()) == Some("removeFavoriteSticker"@));
        assert(Self::known("removeFavoriteSticker"@));
    }
}

impl Method for RemoveFavoriteSticker {
    const TYPE: &'static str = "removeFavoriteSticker";

    type Response = Okay;

    proof fn type_is_tag(&self) {
        reveal(<RemoveFavoriteSticker as Wire>::wire);
        assert(tag_of(self.wire()) == Some("removeFavoriteSticker"@));
    }
}

/// Returns emoji corresponding to a sticker. The list is only for informational purposes, because a
/// sticker is always sent with a fixed emoji from the corresponding Sticker object
#[derive(Debug, Clone)]
pub struct GetStickerEmojis {
    /// Sticker file identifier
    pub sticker: InputFile,
}

impl Wire for GetStickerEmojis {
    #[verifier::opaque]
    open spec fn wire(&self) -> Doc {
        tagged(
            Map::empty()
                .insert("sticker"@, self.sticker.wire()),
            "getStickerEmojis"@,
        )
    }

    #[verifier::opaque]
    open spec fn parse(d: Doc, at: Seq<char>) -> Result<Doc, Fault> {
        match d {
            Doc::Object(m) => {
                let sticker = field::<InputFile>(m, "sticker"@);
                if sticker is Err {
                    sticker
                } else {
                    Ok(
                        tagged(
                            Map::empty()
                                .insert("sticker"@, sticker->Ok_0),
                            "getStickerEmojis"@,
                        ),
                    )
                }
            },
            _ => Err(Fault::TypeMismatch(at)),
        }
    }

    fn encode(&self) -> (j: Json) {
        proof {
            reveal(<GetStickerEmojis as Wire>::wire);
        }
        let mut members: Vec<Member> = Vec::new();
        put(&mut members, "sticker", self.sticker.encode());
        seal(members, "getStickerEmojis")
    }

    fn decode(j: &Json, at: &str) -> (r: Result<Self, DecodeError>) {
        proof {
            reveal(<GetStickerEmojis as Wire>::wire);
            reveal(<GetStickerEmojis as Wire>::parse);
        }
        let members = members_of(j, at)?;
        let sticker = read_field::<InputFile>(members, "sticker")?;
        Ok(GetStickerEmojis { sticker })
    }

    proof fn round_trip(&self, at: Seq<char>) {
        reveal(<GetStickerEmojis as Wire>::wire);
        reveal(<GetStickerEmojis as Wire>::parse);
        reveal_strlit("@type");
        reveal_strlit("sticker");
        assert("@type"@.len() == 5);
        assert("sticker"@.len() == 7);
        self.sticker.round_trip("sticker"@);
    }
}

impl Tagged for GetStickerEmojis {
    open spec fn known(tag: Seq<char>) -> bool {
        tag == "getStickerEmojis"@
    }

    fn knows(tag: &str) -> (r: bool) {
        same_text(tag, "getStickerEmojis")
    }

    proof fn tag_known(&self) {
        reveal(<GetStickerEmojis as Wire>::wire);
        assert(tag_of(self.wire()) == Some("getStickerEmojis"@));
        assert(Self::known("getStickerEmojis"@));
    }
}

impl Method for GetStickerEmojis {
    const TYPE: &'static str = "getStickerEmojis";

    type Response = Emojis;

    proof fn type_is_tag(&self) {
        reveal(<GetStickerEmojis as Wire>::wire);
        assert(tag_of(self.wire()) == Some("getStickerEmojis"@));
    }
}

/// Searches for emojis by keywords. Supported only if the file database is enabled
#[derive(Debug, Clone)]
pub struct SearchEmojis {
    /// Text to search for
    pub text: String,
    /// True, if only emojis, which exactly match text needs to be returned
    pub exact_match: bool,
    /// IETF language tag of the user's input language; may be empty if unknown
    pub input_language_code: String,
}

impl Wire for SearchEmojis {
    #[verifier::opaque]
    open spec fn wire(&self) -> Doc {
        tagged(
            Map::empty()
                .insert("text"@, self.text.wire())
                .insert("exactMatch"@, self.exact_match.wire())
                .insert("inputLanguageCode"@, self.input_language_code.wire()),
            "searchEmojis"@,
        )
    }

    #[verifier::opaque]
    open spec fn parse(d: Doc, at: Seq<char>) -> Result<Doc, Fault> {
        match d {
            Doc::Object(m) => {
                let text = field::<String>(m, "text"@);
                let exact_match = field::<bool>(m, "exactMatch"@);
                let input_language_code = field::<String>(m, "inputLanguageCode"@);
                if text is Err {
                    text
                } else if exact_match is Err {
                    exact_match
                } else if input_language_code is Err {
                    input_language_code
                } else {
                    Ok(
                        tagged(
                            Map::empty()
                                .insert("text"@, text->Ok_0)
                                .insert("exactMatch"@, exact_match->Ok_0)
                                .insert("inputLanguageCode"@, input_language_code->Ok_0),
                            "searchEmojis"@,
                        ),
                    )
                }
            },
            _ => Err(Fault::TypeMismatch(at)),
        }
    }

    fn encode(&self) -> (j: Json) {
        proof {
            reveal(<SearchEmojis as Wire>::wire);
        }
        let mut members: Vec<Member> = Vec::new();
        put(&mut members, "text", self.text.encode());
        put(&mut members, "exactMatch", self.exact_match.encode());
        put(&mut members, "inputLanguageCode", self.input_language_code.encode());
        seal(members, "searchEmojis")
    }

    fn decode(j: &Json, at: &str) -> (r: Result<Self, DecodeError>) {
        proof {
            reveal(<SearchEmojis as Wire>::wire);
            reveal(<SearchEmojis as Wire>::parse);
        }
        let members = members_of(j, at)?;
        let text = read_field::<String>(members, "text")?;
        let exact_match = read_field::<bool>(members, "exactMatch")?;
        let input_language_code = read_field::<String>(members, "inputLanguageCode")?;
        Ok(SearchEmojis { text, exact_match, input_language_code })
    }

    proof fn round_trip(&self, at: Seq<char>) {
        reveal(<SearchEmojis as Wire>::wire);
        reveal(<SearchEmojis as Wire>::parse);
        reveal_strlit("@type");
        reveal_strlit("exactMatch");
        reveal_strlit("inputLanguageCode");
        reveal_strlit("text");
        assert("@type"@.len() == 5);
        assert("exactMatch"@.len() == 10);
        assert("inputLanguageCode"@.len() == 17);
        assert("text"@.len() == 4);
        self.text.round_trip("text"@);
        self.exact_match.round_trip("exactMatch"@);
        self.input_language_code.round_trip("inputLanguageCode"@);
    }
}

impl Tagged for SearchEmojis {
    open spec fn known(tag: Seq<char>) -> bool {
        tag == "searchEmojis"@
    }

    fn knows(tag: &str) -> (r: bool) {
        same_text(tag, "searchEmojis")
    }

    proof fn tag_known(&self) {
        reveal(<SearchEmojis as Wire>::wire);
        assert(tag_of(self.wire()) == Some("searchEmojis"@));
        assert(Self::known("searchEmojis"@));
    }
}

impl Method for SearchEmojis {
    const TYPE: &'static str = "searchEmojis";

    type Response = Emojis;

    proof fn type_is_tag(&self) {
        reveal(<SearchEmojis as Wire>::wire);
        assert(tag_of(self.wire()) == Some("searchEmojis"@));
    }
}

/// Returns an HTTP URL which can be used to automatically log in to the translation platform and
/// suggest new emoji replacements. The URL will be valid for 30 seconds after generation
#[derive(Debug, Clone)]
pub struct GetEmojiSuggestionsUrl {
    /// Language code for which the emoji replacements will be suggested
    pub language_code: String,
}

impl Wire for GetEmojiSuggestionsUrl {
    #[verifier::opaque]
    open spec fn wire(&self) -> Doc {
        tagged(
            Map::empty()
                .insert("languageCode"@, self.language_code.wire()),
            "getEmojiSuggestionsUrl"@,
        )
    }

    #[verifier::opaque]
    open spec fn parse(d: Doc, at: Seq<char>) -> Result<Doc, Fault> {
        match d {
            Doc::Object(m) => {
                let language_code = field::<String>(m, "languageCode"@);
                if language_code is Err {
                    language_code
                } else {
                    Ok(
                        tagged(
                            Map::empty()
                                .insert("languageCode"@, language_code->Ok_0),
                            "getEmojiSuggestionsUrl"@,
                        ),
                    )
                }
            },
            _ => Err(Fault::TypeMismatch(at)),
        }
    }

    fn encode(&self) -> (j: Json) {
        proof {
            reveal(<GetEmojiSuggestionsUrl as Wire>::wire);
        }
        let mut members: Vec<Member> = Vec::new();
        put(&mut members, "languageCode", self.language_code.encode());
        seal(members, "getEmojiSuggestionsUrl")
    }

    fn decode(j: &Json, at: &str) -> (r: Result<Self, DecodeError>) {
        proof {
            reveal(<GetEmojiSuggestionsUrl as Wire>::wire);
            reveal(<GetEmojiSuggestionsUrl as Wire>::parse);
        }
        let members = members_of(j, at)?;
        let language_code = read_field::<String>(members, "languageCode")?;
        Ok(GetEmojiSuggestionsUrl { language_code })
    }

    proof fn round_trip(&self, at: Seq<char>) {
        reveal(<GetEmojiSuggestionsUrl as Wire>::wire);
        reveal(<GetEmojiSuggestionsUrl as Wire>::parse);
        reveal_strlit("@type");
        reveal_strlit("languageCode");
        assert("@type"@.len() == 5);
        assert("languageCode"@.len() == 12);
        self.language_code.round_trip("languageCode"@);
    }
}

impl Tagged for GetEmojiSuggestionsUrl {
    open spec fn known(tag: Seq<char>) -> bool {
        tag == "getEmojiSuggestionsUrl"@
    }

    fn knows(tag: &str) -> (r: bool) {
        same_text(tag, "getEmojiSuggestionsUrl")
    }

    proof fn tag_known(&self) {
        reveal(<GetEmojiSuggestionsUrl as Wire>::wire);
        assert(tag_of(self.wire()) == Some("getEmojiSuggestionsUrl"@));
        assert(Self::known("getEmojiSuggestionsUrl"@));
    }
}

impl Method for GetEmojiSuggestionsUrl {
    const TYPE: &'static str = "getEmojiSuggestionsUrl";

    type Response = HttpUrl;

    proof fn type_is_tag(&self) {
        reveal(<GetEmojiSuggestionsUrl as Wire>::wire);
        assert(tag_of(self.wire()) == Some("getEmojiSuggestionsUrl"@));
    }
}

/// Returns saved animations
#[derive(Debug, Clone)]
pub struct GetSavedAnimations {}

impl Wire for GetSavedAnimations {
    #[verifier::opaque]
    open spec fn wire(&self) -> Doc {
        tagged(Map::empty(), "getSavedAnimations"@)
    }

    #[verifier::opaque]
    open spec fn parse(d: Doc, at: Seq<char>) -> Result<Doc, Fault> {
        match d {
            Doc::Object(_) => Ok(tagged(Map::empty(), "getSavedAnimations"@)),
            _ => Err(Fault::TypeMismatch(at)),
        }
    }

    fn encode(&self) -> (j: Json) {
        proof {
            reveal(<GetSavedAnimations as Wire>::wire);
        }
        seal(Vec::new(), "getSavedAnimations")
    }

    fn decode(j: &Json, at: &str) -> (r: Result<Self, DecodeError>) {
        proof {
            reveal(<GetSavedAnimations as Wire>::wire);
            reveal(<GetSavedAnimations as Wire>::parse);
        }
        let _ = members_of(j, at)?;
        Ok(GetSavedAnimations {})
    }

    proof fn round_trip(&self, at: Seq<char>) {
        reveal(<GetSavedAnimations as Wire>::wire);
        reveal(<GetSavedAnimations as Wire>::parse);
    }
}

impl Tagged for GetSavedAnimations {
    open spec fn known(tag: Seq<char>) -> bool {
        tag == "getSavedAnimations"@
    }

    fn knows(tag: &str) -> (r: bool) {
        same_text(tag, "getSavedAnimations")
    }

    proof fn tag_known(&self) {
        reveal(<GetSavedAnimations as Wire>::wire);
        assert(tag_of(self.wire()) == Some("getSavedAnimations"@));
        assert(Self::known("getSavedAnimations"@));
    }
}

impl Method for GetSavedAnimations {
    const TYPE: &'static str = "getSavedAnimations";

    type Response = Animations;

    proof fn type_is_tag(&self) {
        reveal(<GetSavedAnimations as Wire>::wire);
        assert(tag_of(self.wire()) == Some("getSavedAnimations"@));
    }
}

/// Manually adds a new animation to the list of saved animations. The new animation is added to the
/// beginning of the list. If the animation was already in the list, it is removed first. Only
/// non-secret video animations with MIME type "video/mp4" can be added to the list
#[derive(Debug, Clone)]
pub struct AddSavedAnimation {
    /// The animation file to be added. Only animations known to the server (i.e. successfully sent
    /// via a message) can be added to the list
    pub animation: InputFile,
}

impl Wire for AddSavedAnimation {
    #[verifier::opaque]
    open spec fn wire(&self) -> Doc {
        tagged(
            Map::empty()
                .insert("animation"@, self.animation.wire()),
            "addSavedAnimation"@,
        )
    }

    #[verifier::opaque]
    open spec fn parse(d: Doc, at: Seq<char>) -> Result<Doc, Fault> {
        match d {
            Doc::Object(m) => {
                let animation = field::<InputFile>(m, "animation"@);
                if animation is Err {
                    animation
                } else {
                    Ok(
                        tagged(
                            Map::empty()
                                .insert("animation"@, animation->Ok_0),
                            "addSavedAnimation"@,
                        ),
                    )
                }
            },
            _ => Err(Fault::TypeMismatch(at)),
        }
    }

    fn encode(&self) -> (j: Json) {
        proof {
            reveal(<AddSavedAnimation as Wire>::wire);
        }
        let mut members: Vec<Member> = Vec::new();
        put(&mut members, "animation", self.animation.encode());
        seal(members, "addSavedAnimation")
    }

    fn decode(j: &Json, at: &str) -> (r: Result<Self, DecodeError>) {
        proof {
            reveal(<AddSavedAnimation as Wire>::wire);
            reveal(<AddSavedAnimation as Wire>::parse);
        }
        let members = members_of(j, at)?;
        let animation = read_field::<InputFile>(members, "animation")?;
        Ok(AddSavedAnimation { animation })
    }

    proof fn round_trip(&self, at: Seq<char>) {
        reveal(<AddSavedAnimation as Wire>::wire);
        reveal(<AddSavedAnimation as Wire>::parse);
        reveal_strlit("@type");
        reveal_strlit("animation");
        assert("@type"@.len() == 5);
        assert("animation"@.len() == 9);
        self.animation.round_trip("animation"@);
    }
}

impl Tagged for AddSavedAnimation {
    open spec fn known(tag: Seq<char>) -> bool {
        tag == "addSavedAnimation"@
    }

    fn knows(tag: &str) -> (r: bool) {
        same_text(tag, "addSavedAnimation")
    }

    proof fn tag_known(&self) {
        reveal(<AddSavedAnimation as Wire>::wire);
        assert(tag_of(self.wire()) == Some("addSavedAnimation"@));
        assert(Self::known("addSavedAnimation"@));
    }
}

impl Method for AddSavedAnimation {
    const TYPE: &'static str = "addSavedAnimation";

    type Response = Okay;

    proof fn type_is_tag(&self) {
        reveal(<AddSavedAnimation as Wire>::wire);
        assert(tag_of(self.wire()) == Some("addSavedAnimation"@));
    }
}

/// Removes an animation from the list of saved animations
#[derive(Debug, Clone)]
pub struct RemoveSavedAnimation {
    /// Animation file to be removed
    pub animation: InputFile,
}

impl Wire for RemoveSavedAnimation {
    #[verifier::opaque]
    open spec fn wire(&self) -> Doc {
        tagged(
            Map::empty()
                .insert("animation"@, self.animation.wire()),
            "removeSavedAnimation"@,
        )
    }

    #[verifier::opaque]
    open spec fn parse(d: Doc, at: Seq<char>) -> Result<Doc, Fault> {
        match d {
            Doc::Object(m) => {
                let animation = field::<InputFile>(m, "animation"@);
                if animation is Err {
                    animation
                } else {
                    Ok(
                        tagged(
                            Map::empty()
                                .insert("animation"@, animation->Ok_0),
                            "removeSavedAnimation"@,
                        ),
                    )
                }
            },
            _ => Err(Fault::TypeMismatch(at)),
        }
    }

    fn encode(&self) -> (j: Json) {
        proof {
            reveal(<RemoveSavedAnimation as Wire>::wire);
        }
        let mut members: Vec<Member> = Vec::new();
        put(&mut members, "animation", self.animation.encode());
        seal(members, "removeSavedAnimation")
    }

    fn decode(j: &Json, at: &str) -> (r: Result<Self, DecodeError>) {
        proof {
            reveal(<RemoveSavedAnimation as Wire>::wire);
            reveal(<RemoveSavedAnimation as Wire>::parse);
        }
        let members = members_of(j, at)?;
        let animation = read_field::<InputFile>(members, "animation")?;
        Ok(RemoveSavedAnimation { animation })
    }

    proof fn round_trip(&self, at: Seq<char>) {
        reveal(<RemoveSavedAnimation as Wire>::wire);
        reveal(<RemoveSavedAnimation as Wire>::parse);
        reveal_strlit("@type");
        reveal_strlit("animation");
        assert("@type"@.len() == 5);
        assert("animation"@.len() == 9);
        self.animation.round_trip("animation"@);
    }
}

impl Tagged for RemoveSavedAnimation {
    open spec fn known(tag: Seq<char>) -> bool {
        tag == "removeSavedAnimation"@
    }

    fn knows(tag: &str) -> (r: bool) {
        same_text(tag, "removeSavedAnimation")
    }

    proof fn tag_known(&self) {
        reveal(<RemoveSavedAnimation as Wire>::wire);
        assert(tag_of(self.wire()) == Some("removeSavedAnimation"@));
        assert(Self::known("removeSavedAnimation"@));
    }
}

impl Method for RemoveSavedAnimation {
    const TYPE: &'static str = "removeSavedAnimation";

    type Response = Okay;

    proof fn type_is_tag(&self) {
        reveal(<RemoveSavedAnimation as Wire>::wire);
        assert(tag_of(self.wire()) == Some("removeSavedAnimation"@));
    }
}

/// Returns up to 20 recently used inline bots in the order of their last usage
#[derive(Debug, Clone)]
pub struct GetRecentInlineBots {}

impl Wire for GetRecentInlineBots {
    #[verifier::opaque]
    open spec fn wire(&self) -> Doc {
        tagged(Map::empty(), "getRecentInlineBots"@)
    }

    #[verifier::opaque]
    open spec fn parse(d: Doc, at: Seq<char>) -> Result<Doc, Fault> {
        match d {
            Doc::Object(_) => Ok(tagged(Map::empty(), "getRecentInlineBots"@)),
            _ => Err(Fault::TypeMismatch(at)),
        }
    }

    fn encode(&self) -> (j: Json) {
        proof {
            reveal(<GetRecentInlineBots as Wire>::wire);
        }
        seal(Vec::new(), "getRecentInlineBots")
    }

    fn decode(j: &Json, at: &str) -> (r: Result<Self, DecodeError>) {
        proof {
            reveal(<GetRecentInlineBots as Wire>::wire);
            reveal(<GetRecentInlineBots as Wire>::parse);
        }
        let _ = members_of(j, at)?;
        Ok(GetRecentInlineBots {})
    }

    proof fn round_trip(&self, at: Seq<char>) {
        reveal(<GetRecentInlineBots as Wire>::wire);
        reveal(<GetRecentInlineBots as Wire>::parse);
    }
}

impl Tagged for GetRecentInlineBots {
    open spec fn known(tag: Seq<char>) -> bool {
        tag == "getRecentInlineBots"@
    }

    fn knows(tag: &str) -> (r: bool) {
        same_text(tag, "getRecentInlineBots")
    }

    proof fn tag_known(&self) {
        reveal(<GetRecentInlineBots as Wire>::wire);
        assert(tag_of(self.wire()) == Some("getRecentInlineBots"@));
        assert(Self::known("getRecentInlineBots"@));
    }
}

impl Method for GetRecentInlineBots {
    const TYPE: &'static str = "getRecentInlineBots";

    type Response = Users;

    proof fn type_is_tag(&self) {
        reveal(<GetRecentInlineBots as Wire>::wire);
        assert(tag_of(self.wire()) == Some("getRecentInlineBots"@));
    }
}

/// Searches for recently used hashtags by their prefix
#[derive(Debug, Clone)]
pub struct SearchHashtags {
    /// Hashtag prefix to search for
    pub prefix: String,
    /// The maximum number of hashtags to be returned
    pub limit: i32,
}

impl Wire for SearchHashtags {
    #[verifier::opaque]
    open spec fn wire(&self) -> Doc {
        tagged(
            Map::empty()
                .insert("prefix"@, self.prefix.wire())
                .insert("limit"@, self.limit.wire()),
            "searchHashtags"@,
        )
    }

    #[verifier::opaque]
    open spec fn parse(d: Doc, at: Seq<char>) -> Result<Doc, Fault> {
        match d {
            Doc::Object(m) => {
                let prefix = field::<String>(m, "prefix"@);
                let limit = field::<i32>(m, "limit"@);
                if prefix is Err {
                    prefix
                } else if limit is Err {
                    limit
                } else {
                    Ok(
                        tagged(
                            Map::empty()
                                .insert("prefix"@, prefix->Ok_0)
                                .insert("limit"@, limit->Ok_0),
                            "searchHashtags"@,
                        ),
                    )
                }
            },
            _ => Err(Fault::TypeMismatch(at)),
        }
    }

    fn encode(&self) -> (j: Json) {
        proof {
            reveal(<SearchHashtags as Wire>::wire);
        }
        let mut members: Vec<Member> = Vec::new();
        put(&mut members, "prefix", self.prefix.encode());
        put(&mut members, "limit", self.limit.encode());
        seal(members, "searchHashtags")
    }

    fn decode(j: &Json, at: &str) -> (r: Result<Self, DecodeError>) {
        proof {
            reveal(<SearchHashtags as Wire>::wire);
            reveal(<SearchHashtags as Wire>::parse);
        }
        let members = members_of(j, at)?;
        let prefix = read_field::<String>(members, "prefix")?;
        let limit = read_field::<i32>(members, "limit")?;
        Ok(SearchHashtags { prefix, limit })
    }

    proof fn round_trip(&self, at: Seq<char>) {
        reveal(<SearchHashtags as Wire>::wire);
        reveal(<SearchHashtags as Wire>::parse);
        reveal_strlit("@type");
        reveal_strlit("limit");
        reveal_strlit("prefix");
        assert("@type"@.len() == 5 && "@type"@[0] == '@');
        assert("limit"@.len() == 5 && "limit"@[0] == 'l');
        assert("prefix"@.len() == 6);
        self.prefix.round_trip("prefix"@);
        self.limit.round_trip("limit"@);
    }
}

impl Tagged for SearchHashtags {
    open spec fn known(tag: Seq<char>) -> bool {
        tag == "searchHashtags"@
    }

    fn knows(tag: &str) -> (r: bool) {
        same_text(tag, "searchHashtags")
    }

    proof fn tag_known(&self) {
        reveal(<SearchHashtags as Wire>::wire);
        assert(tag_of(self.wire()) == Some("searchHashtags"@));
        assert(Self::known("searchHashtags"@));
    }
}

impl Method for SearchHashtags {
    const TYPE: &'static str = "searchHashtags";

    type Response = Hashtags;

    proof fn type_is_tag(&self) {
        reveal(<SearchHashtags as Wire>::wire);
        assert(tag_of(self.wire()) == Some("searchHashtags"@));
    }
}

/// Removes a hashtag from the list of recently used hashtags
#[derive(Debug, Clone)]
pub struct RemoveRecentHashtag {
    /// Hashtag to delete
    pub hashtag: String,
}

impl Wire for RemoveRecentHashtag {
    #[verifier::opaque]
    open spec fn wire(&self) -> Doc {
        tagged(
            Map::empty()
                .insert("hashtag"@, self.hashtag.wire()),
            "removeRecentHashtag"@,
        )
    }

    #[verifier::opaque]
    open spec fn parse(d: Doc, at: Seq<char>) -> Result<Doc, Fault> {
        match d {
            Doc::Object(m) => {
                let hashtag = field::<String>(m, "hashtag"@);
                if hashtag is Err {
                    hashtag
                } else {
                    Ok(
                        tagged(
                            Map::empty()
                                .insert("hashtag"@, hashtag->Ok_0),
                            "removeRecentHashtag"@,
                        ),
                    )
                }
            },
            _ => Err(Fault::TypeMismatch(at)),
        }
    }

    fn encode(&self) -> (j: Json) {
        proof {
            reveal(<RemoveRecentHashtag as Wire>::wire);
        }
        let mut members: Vec<Member> = Vec::new();
        put(&mut members, "hashtag", self.hashtag.encode());
        seal(members, "removeRecentHashtag")
    }

    fn decode(j: &Json, at: &str) -> (r: Result<Self, DecodeError>) {
        proof {
            reveal(<RemoveRecentHashtag as Wire>::wire);
            reveal(<RemoveRecentHashtag as Wire>::parse);
        }
        let members = members_of(j, at)?;
        let hashtag = read_field::<String>(members, "hashtag")?;
        Ok(RemoveRecentHashtag { hashtag })
    }

    proof fn round_trip(&self, at: Seq<char>) {
        reveal(<RemoveRecentHashtag as Wire>::wire);
        reveal(<RemoveRecentHashtag as Wire>::parse);
        reveal_strlit("@type");
        reveal_strlit("hashtag");
        assert("@type"@.len() == 5);
        assert("hashtag"@.len() == 7);
        self.hashtag.round_trip("hashtag"@);
    }
}

impl Tagged for RemoveRecentHashtag {
    open spec fn known(tag: Seq<char>) -> bool {
        tag == "removeRecentHashtag"@
    }

    fn knows(tag: &str) -> (r: bool) {
        same_text(tag, "removeRecentHashtag")
    }

    proof fn tag_known(&self) {
        reveal(<RemoveRecentHashtag as Wire>::wire);
        assert(tag_of(self.wire()) == Some("removeRecentHashtag"@));
        assert(Self::known("removeRecentHashtag"@));
    }
}

impl Method for RemoveRecentHashtag {
    const TYPE: &'static str = "removeRecentHashtag";

    type Response = Okay;

    proof fn type_is_tag(&self) {
        reveal(<RemoveRecentHashtag as Wire>::wire);
        assert(tag_of(self.wire()) == Some("removeRecentHashtag"@));
    }
}

/// Returns a web page preview by the text of the message. Do not call this function too often.
/// Returns a 404 error if the web page has no preview
#[derive(Debug, Clone)]
pub struct GetWebPagePreview {
    /// Message text with formatting
    pub text: FormattedText,
}

impl Wire for GetWebPagePreview {
    #[verifier::opaque]
    open spec fn wire(&self) -> Doc {
        tagged(
            Map::empty()
                .insert("text"@, self.text.wire()),
            "getWebPagePreview"@,
        )
    }

    #[verifier::opaque]
    open spec fn parse(d: Doc, at: Seq<char>) -> Result<Doc, Fault> {
        match d {
            Doc::Object(m) => {
                let text = field::<FormattedText>(m, "text"@);
                if text is Err {
                    text
                } else {
                    Ok(
                        tagged(
                            Map::empty()
                                .insert("text"@, text->Ok_0),
                            "getWebPagePreview"@,
                        ),
                    )
                }
            },
            _ => Err(Fault::TypeMismatch(at)),
        }
    }

    fn encode(&self) -> (j: Json) {
        proof {
            reveal(<GetWebPagePreview as Wire>::wire);
        }
        let mut members: Vec<Member> = Vec::new();
        put(&mut members, "text", self.text.encode());
        seal(members, "getWebPagePreview")
    }

    fn decode(j: &Json, at: &str) -> (r: Result<Self, DecodeError>) {
        proof {
            reveal(<GetWebPagePreview as Wire>::wire);
            reveal(<GetWebPagePreview as Wire>::parse);
        }
        let members = members_of(j, at)?;
        let text = read_field::<FormattedText>(members, "text")?;
        Ok(GetWebPagePreview { text })
    }

    proof fn round_trip(&self, at: Seq<char>) {
        reveal(<GetWebPagePreview as Wire>::wire);
        reveal(<GetWebPagePreview as Wire>::parse);
        reveal_strlit("@type");
        reveal_strlit("text");
        assert("@type"@.len() == 5);
        assert("text"@.len() == 4);
        self.text.round_trip("text"@);
    }
}

impl Tagged for GetWebPagePreview {
    open spec fn known(tag: Seq<char>) -> bool {
        tag == "getWebPagePreview"@
    }

    fn knows(tag: &str) -> (r: bool) {
        same_text(tag, "getWebPagePreview")
    }

    proof fn tag_known(&self) {
        reveal(<GetWebPagePreview as Wire>::wire);
        assert(tag_of(self.wire()) == Some("getWebPagePreview"@));
        assert(Self::known("getWebPagePreview"@));
    }
}

impl Method for GetWebPagePreview {
    const TYPE: &'static str = "getWebPagePreview";

    type Response = WebPage;

    proof fn type_is_tag(&self) {
        reveal(<GetWebPagePreview as Wire>::wire);
        assert(tag_of(self.wire()) == Some("getWebPagePreview"@));
    }
}

/// Returns an instant view version of a web page if available. Returns a 404 error if the web page
/// has no instant view page
#[derive(Debug, Clone)]
pub struct GetWebPageInstantView {
    /// The web page URL
    pub url: String,
    /// If true, the full instant view for the web page will be returned
    pub force_full: bool,
}

impl Wire for GetWebPageInstantView {
    #[verifier::opaque]
    open spec fn wire(&self) -> Doc {
        tagged(
            Map::empty()
                .insert("url"@, self.url.wire())
                .insert("forceFull"@, self.force_full.wire()),
            "getWebPageInstantView"@,
        )
    }

    #[verifier::opaque]
    open spec fn parse(d: Doc, at: Seq<char>) -> Result<Doc, Fault> {
        match d {
            Doc::Object(m) => {
                let url = field::<String>(m, "url"@);
                let force_full = field::<bool>(m, "forceFull"@);
                if url is Err {
                    url
                } else if force_full is Err {
                    force_full
                } else {
                    Ok(
                        tagged(
                            Map::empty()
                                .insert("url"@, url->Ok_0)
                                .insert("forceFull"@, force_full->Ok_0),
                            "getWebPageInstantView"@,
                        ),
                    )
                }
            },
            _ => Err(Fault::TypeMismatch(at)),
        }
    }

    fn encode(&self) -> (j: Json) {
        proof {
            reveal(<GetWebPageInstantView as Wire>::wire);
        }
        let mut members: Vec<Member> = Vec::new();
        put(&mut members, "url", self.url.encode());
        put(&mut members, "forceFull", self.force_full.encode());
        seal(members, "getWebPageInstantView")
    }

    fn decode(j: &Json, at: &str) -> (r: Result<Self, DecodeError>) {
        proof {
            reveal(<GetWebPageInstantView as Wire>::wire);
            reveal(<GetWebPageInstantView as Wire>::parse);
        }
        let members = members_of(j, at)?;
        let url = read_field::<String>(members, "url")?;
        let force_full = read_field::<bool>(members, "forceFull")?;
        Ok(GetWebPageInstantView { url, force_full })
    }

    proof fn round_trip(&self, at: Seq<char>) {
        reveal(<GetWebPageInstantView as Wire>::wire);
        reveal(<GetWebPageInstantView as Wire>::parse);
        reveal_strlit("@type");
        reveal_strlit("forceFull");
        reveal_strlit("url");
        assert("@type"@.len() == 5);
        assert("forceFull"@.len() == 9);
        assert("url"@.len() == 3);
        self.url.round_trip("url"@);
        self.force_full.round_trip("forceFull"@);
    }
}

impl Tagged for GetWebPageInstantView {
    open spec fn known(tag: Seq<char>) -> bool {
        tag == "getWebPageInstantView"@
    }

    fn knows(tag: &str) -> (r: bool) {
        same_text(tag, "getWebPageInstantView")
    }

    proof fn tag_known(&self) {
        reveal(<GetWebPageInstantView as Wire>::wire);
        assert(tag_of(self.wire()) == Some("getWebPageInstantView"@));
        assert(Self::known("getWebPageInstantView"@));
    }
}

impl Method for GetWebPageInstantView {
    const TYPE: &'static str = "getWebPageInstantView";

    type Response = WebPageInstantView;

    proof fn type_is_tag(&self) {
        reveal(<GetWebPageInstantView as Wire>::wire);
        assert(tag_of(self.wire()) == Some("getWebPageInstantView"@));
    }
}

/// Uploads a new profile photo for the current user. If something changes, updateUser will be sent
#[derive(Debug, Clone)]
pub struct SetProfilePhoto {
    /// Profile photo to set. inputFileId and inputFileRemote may still be unsupported
    pub photo: InputFile,
}

impl Wire for SetProfilePhoto {
    #[verifier::opaque]
    open spec fn wire(&self) -> Doc {
        tagged(
            Map::empty()
                .insert("photo"@, self.photo.wire()),
            "setProfilePhoto"@,
        )
    }

    #[verifier::opaque]
    open spec fn parse(d: Doc, at: Seq<char>) -> Result<Doc, Fault> {
        match d {
            Doc::Object(m) => {
                let photo = field::<InputFile>(m, "photo"@);
                if photo is Err {
                    photo
                } else {
                    Ok(
                        tagged(
                            Map::empty()
                                .insert("photo"@, photo->Ok_0),
                            "setProfilePhoto"@,
                        ),
                    )
                }
            },
            _ => Err(Fault::TypeMismatch(at)),
        }
    }

    fn encode(&self) -> (j: Json) {
        proof {
            reveal(<SetProfilePhoto as Wire>::wire);
        }
        let mut members: Vec<Member> = Vec::new();
        put(&mut members, "photo", self.photo.encode());
        seal(members, "setProfilePhoto")
    }

    fn decode(j: &Json, at: &str) -> (r: Result<Self, DecodeError>) {
        proof {
            reveal(<SetProfilePhoto as Wire>::wire);
            reveal(<SetProfilePhoto as Wire>::parse);
        }
        let members = members_of(j, at)?;
        let photo = read_field::<InputFile>(members, "photo")?;
        Ok(SetProfilePhoto { photo })
    }

    proof fn round_trip(&self, at: Seq<char>) {
        reveal(<SetProfilePhoto as Wire>::wire);
        reveal(<SetProfilePhoto as Wire>::parse);
        reveal_strlit("@type");
        reveal_strlit("photo");
        assert("@type"@.len() == 5 && "@type"@[0] == '@');
        assert("photo"@.len() == 5 && "photo"@[0] == 'p');
        self.photo.round_trip("photo"@);
    }
}

impl Tagged for SetProfilePhoto {
    open spec fn known(tag: Seq<char>) -> bool {
        tag == "setProfilePhoto"@
    }

    fn knows(tag: &str) -> (r: bool) {
        same_text(tag, "setProfilePhoto")
    }

    proof fn tag_known(&self) {
        reveal(<SetProfilePhoto as Wire>::wire);
        assert(tag_of(self.wire()) == Some("setProfilePhoto"@));
        assert(Self::known("setProfilePhoto"@));
    }
}

impl Method for SetProfilePhoto {
    const TYPE: &'static str = "setProfilePhoto";

    type Response = Okay;

    proof fn type_is_tag(&self) {
        reveal(<SetProfilePhoto as Wire>::wire);
        assert(tag_of(self.wire()) == Some("setProfilePhoto"@));
    }
}

/// Deletes a profile photo. If something changes, updateUser will be sent
#[derive(Debug, Clone)]
pub struct DeleteProfilePhoto {
    /// Identifier of the profile photo to delete
    pub profile_photo_id: i64,
}

impl Wire for DeleteProfilePhoto {
    #[verifier::opaque]
    open spec fn wire(&self) -> Doc {
        tagged(
            Map::empty()
                .insert("profilePhotoId"@, wide_doc(self.profile_photo_id)),
            "deleteProfilePhoto"@,
        )
    }

    #[verifier::opaque]
    open spec fn parse(d: Doc, at: Seq<char>) -> Result<Doc, Fault> {
        match d {
            Doc::Object(m) => {
                let profile_photo_id = wide_field(m, "profilePhotoId"@);
                if profile_photo_id is Err {
                    profile_photo_id
                } else {
                    Ok(
                        tagged(
                            Map::empty()
                                .insert("profilePhotoId"@, profile_photo_id->Ok_0),
                            "deleteProfilePhoto"@,
                        ),
                    )
                }
            },
            _ => Err(Fault::TypeMismatch(at)),
        }
    }

    fn encode(&self) -> (j: Json) {
        proof {
            reveal(<DeleteProfilePhoto as Wire>::wire);
        }
        let mut members: Vec<Member> = Vec::new();
        put(&mut members, "profilePhotoId", encode_wide(self.profile_photo_id));
        seal(members, "deleteProfilePhoto")
    }

    fn decode(j: &Json, at: &str) -> (r: Result<Self, DecodeError>) {
        proof {
            reveal(<DeleteProfilePhoto as Wire>::wire);
            reveal(<DeleteProfilePhoto as Wire>::parse);
        }
        let members = members_of(j, at)?;
        let profile_photo_id = read_wide(members, "profilePhotoId")?;
        Ok(DeleteProfilePhoto { profile_photo_id })
    }

    proof fn round_trip(&self, at: Seq<char>) {
        reveal(<DeleteProfilePhoto as Wire>::wire);
        reveal(<DeleteProfilePhoto as Wire>::parse);
        reveal_strlit("@type");
        reveal_strlit("profilePhotoId");
        assert("@type"@.len() == 5);
        assert("profilePhotoId"@.len() == 14);
        lemma_wide_round_trip(self.profile_photo_id, "profilePhotoId"@);
    }
}

impl Tagged for DeleteProfilePhoto {
    open spec fn known(tag: Seq<char>) -> bool {
        tag == "deleteProfilePhoto"@
    }

    fn knows(tag: &str) -> (r: bool) {
        same_text(tag, "deleteProfilePhoto")
    }

    proof fn tag_known(&self) {
        reveal(<DeleteProfilePhoto as Wire>::wire);
        assert(tag_of(self.wire()) == Some("deleteProfilePhoto"@));
        assert(Self::known("deleteProfilePhoto"@));
    }
}

impl Method for DeleteProfilePhoto {
    const TYPE: &'static str = "deleteProfilePhoto";

    type Response = Okay;

    proof fn type_is_tag(&self) {
        reveal(<DeleteProfilePhoto as Wire>::wire);
        assert(tag_of(self.wire()) == Some("deleteProfilePhoto"@));
    }
}

} // verus!
