//! Requests on the account, payments, backgrounds, languages and statistics.

use vstd::prelude::*;
use crate::codec::{
    encode_wide, field, lemma_wide_round_trip, members_of, put, read_field, read_wide, seal,
    Tagged, wide_doc, wide_field, Wire,
};
use crate::error::{DecodeError, Fault};
use crate::json::{Doc, Json, Member, Number, tag_of, tagged};
use crate::methods::Method;
use crate::text::same_text;
use crate::types::{
    AccountTtl, AuthenticationCodeInfo, AutoDownloadSettings, AutoDownloadSettingsPresets,
    Background, BackgroundType, Backgrounds, ChatEventLogFilters, ChatEvents, ChatMembers,
    ChatReportReason, ConnectedWebsites, DatabaseStatistics, DeviceToken, FileType, HttpUrl,
    InputBackground, InputCredentials, LanguagePackInfo, LanguagePackString, LanguagePackStrings,
    LocalizationTargetInfo, NetworkStatistics, NetworkStatisticsEntry, NetworkType, Okay,
    OptionValue, OrderInfo, PassportElement, PassportElementType, PaymentForm, PaymentReceipt,
    PaymentResult, PhoneNumberAuthenticationSettings, PushReceiverId, Sessions, StorageStatistics,
    StorageStatisticsFast, SupergroupMembersFilter, TMeUrls, User, UserPrivacySetting,
    UserPrivacySettingRules, ValidatedOrderInfo,
};

verus! {

/// Changes the first and last name of the current user. If something changes, updateUser will be
/// sent
#[derive(Debug, Clone)]
pub struct SetName {
    /// The new value of the first name for the user; 1-64 characters
    pub first_name: String,
    /// The new value of the optional last name for the user; 0-64 characters
    pub last_name: String,
}

impl Wire for SetName {
    #[verifier::opaque]
    open spec fn wire(&self) -> Doc {
        tagged(
            Map::empty()
                .insert("firstName"@, self.first_name.wire())
                .insert("lastName"@, self.last_name.wire()),
            "setName"@,
        )
    }

    #[verifier::opaque]
    open spec fn parse(d: Doc, at: Seq<char>) -> Result<Doc, Fault> {
        match d {
            Doc::Object(m) => {
                let first_name = field::<String>(m, "firstName"@);
                let last_name = field::<String>(m, "lastName"@);
                if first_name is Err {
                    first_name
                } else if last_name is Err {
                    last_name
                } else {
                    Ok(
                        tagged(
                            Map::empty()
                                .insert("firstName"@, first_name->Ok_0)
                                .insert("lastName"@, last_name->Ok_0),
                            "setName"@,
                        ),
                    )
                }
            },
            _ => Err(Fault::TypeMismatch(at)),
        }
    }

    fn encode(&self) -> (j: Json) {
        proof {
            reveal(<SetName as Wire>::wire);
        }
        let mut members: Vec<Member> = Vec::new();
        put(&mut members, "firstName", self.first_name.encode());
        put(&mut members, "lastName", self.last_name.encode());
        seal(members, "setName")
    }

    fn decode(j: &Json, at: &str) -> (r: Result<Self, DecodeError>) {
        proof {
            reveal(<SetName as Wire>::wire);
            reveal(<SetName as Wire>::parse);
        }
        let members = members_of(j, at)?;
        let first_name = read_field::<String>(members, "firstName")?;
        let last_name = read_field::<String>(members, "lastName")?;
        Ok(SetName { first_name, last_name })
    }

    proof fn round_trip(&self, at: Seq<char>) {
        reveal(<SetName as Wire>::wire);
        reveal(<SetName as Wire>::parse);
        reveal_strlit("@type");
        reveal_strlit("firstName");
        reveal_strlit("lastName");
        assert("@type"@.len() == 5);
        assert("firstName"@.len() == 9);
        assert("lastName"@.len() == 8);
        self.first_name.round_trip("firstName"@);
        self.last_name.round_trip("lastName"@);
    }
}

impl Tagged for SetName {
    open spec fn known(tag: Seq<char>) -> bool {
        tag == "setName"@
    }

    fn knows(tag: &str) -> (r: bool) {
        same_text(tag, "setName")
    }

    proof fn tag_known(&self) {
        reveal(<SetName as Wire>::wire);
        assert(tag_of(self.wire()) == Some("setName"@));
        assert(Self::known("setName"@));
    }
}

impl Method for SetName {
    const TYPE: &'static str = "setName";

    type Response = Okay;

    proof fn type_is_tag(&self) {
        reveal(<SetName as Wire>::wire);
        assert(tag_of(self.wire()) == Some("setName"@));
    }
}

/// Changes the bio of the current user
#[derive(Debug, Clone)]
pub struct SetBio {
    /// The new value of the user bio; 0-70 characters without line feeds
    pub bio: String,
}

impl Wire for SetBio {
    #[verifier::opaque]
    open spec fn wire(&self) -> Doc {
        tagged(
            Map::empty()
                .insert("bio"@, self.bio.wire()),
            "setBio"@,
        )
    }

    #[verifier::opaque]
    open spec fn parse(d: Doc, at: Seq<char>) -> Result<Doc, Fault> {
        match d {
            Doc::Object(m) => {
                let bio = field::<String>(m, "bio"@);
                if bio is Err {
                    bio
                } else {
                    Ok(
                        tagged(
                            Map::empty()
                                .insert("bio"@, bio->Ok_0),
                            "setBio"@,
                        ),
                    )
                }
            },
            _ => Err(Fault::TypeMismatch(at)),
        }
    }

    fn encode(&self) -> (j: Json) {
        proof {
            reveal(<SetBio as Wire>::wire);
        }
        let mut members: Vec<Member> = Vec::new();
        put(&mut members, "bio", self.bio.encode());
        seal(members, "setBio")
    }

    fn decode(j: &Json, at: &str) -> (r: Result<Self, DecodeError>) {
        proof {
            reveal(<SetBio as Wire>::wire);
            reveal(<SetBio as Wire>::parse);
        }
        let members = members_of(j, at)?;
        let bio = read_field::<String>(members, "bio")?;
        Ok(SetBio { bio })
    }

    proof fn round_trip(&self, at: Seq<char>) {
        reveal(<SetBio as Wire>::wire);
        reveal(<SetBio as Wire>::parse);
        reveal_strlit("@type");
        reveal_strlit("bio");
        assert("@type"@.len() == 5);
        assert("bio"@.len() == 3);
        self.bio.round_trip("bio"@);
    }
}

impl Tagged for SetBio {
    open spec fn known(tag: Seq<char>) -> bool {
        tag == "setBio"@
    }

    fn knows(tag: &str) -> (r: bool) {
        same_text(tag, "setBio")
    }

    proof fn tag_known(&self) {
        reveal(<SetBio as Wire>::wire);
        assert(tag_of(self.wire()) == Some("setBio"@));
        assert(Self::known("setBio"@));
    }
}

impl Method for SetBio {
    const TYPE: &'static str = "setBio";

    type Response = Okay;

    proof fn type_is_tag(&self) {
        reveal(<SetBio as Wire>::wire);
        assert(tag_of(self.wire()) == Some("setBio"@));
    }
}

/// Changes the username of the current user. If something changes, updateUser will be sent
#[derive(Debug, Clone)]
pub struct SetUsername {
    /// The new value of the username. Use an empty string to remove the username
    pub username: String,
}

impl Wire for SetUsername {
    #[verifier::opaque]
    open spec fn wire(&self) -> Doc {
        tagged(
            Map::empty()
                .insert("username"@, self.username.wire()),
            "setUsername"@,
        )
    }

    #[verifier::opaque]
    open spec fn parse(d: Doc, at: Seq<char>) -> Result<Doc, Fault> {
        match d {
            Doc::Object(m) => {
                let username = field::<String>(m, "username"@);
                if username is Err {
                    username
                } else {
                    Ok(
                        tagged(
                            Map::empty()
                                .insert("username"@, username->Ok_0),
                            "setUsername"@,
                        ),
                    )
                }
            },
            _ => Err(Fault::TypeMismatch(at)),
        }
    }

    fn encode(&self) -> (j: Json) {
        proof {
            reveal(<SetUsername as Wire>::wire);
        }
        let mut members: Vec<Member> = Vec::new();
        put(&mut members, "username", self.username.encode());
        seal(members, "setUsername")
    }

    fn decode(j: &Json, at: &str) -> (r: Result<Self, DecodeError>) {
        proof {
            reveal(<SetUsername as Wire>::wire);
            reveal(<SetUsername as Wire>::parse);
        }
        let members = members_of(j, at)?;
        let username = read_field::<String>(members, "username")?;
        Ok(SetUsername { username })
    }

    proof fn round_trip(&self, at: Seq<char>) {
        reveal(<SetUsername as Wire>::wire);
        reveal(<SetUsername as Wire>::parse);
        reveal_strlit("@type");
        reveal_strlit("username");
        assert("@type"@.len() == 5);
        assert("username"@.len() == 8);
        self.username.round_trip("username"@);
    }
}

impl Tagged for SetUsername {
    open spec fn known(tag: Seq<char>) -> bool {
        tag == "setUsername"@
    }

    fn knows(tag: &str) -> (r: bool) {
        same_text(tag, "setUsername")
    }

    proof fn tag_known(&self) {
        reveal(<SetUsername as Wire>::wire);
        assert(tag_of(self.wire()) == Some("setUsername"@));
        assert(Self::known("setUsername"@));
    }
}

impl Method for SetUsername {
    const TYPE: &'static str = "setUsername";

    type Response = Okay;

    proof fn type_is_tag(&self) {
        reveal(<SetUsername as Wire>::wire);
        assert(tag_of(self.wire()) == Some("setUsername"@));
    }
}

/// Changes the phone number of the user and sends an authentication code to the user's new phone
/// number. On success, returns information about the sent code
#[derive(Debug, Clone)]
pub struct ChangePhoneNumber {
    /// The new phone number of the user in international format
    pub phone_number: String,
    /// Settings for the authentication of the user's phone number
    pub settings: PhoneNumberAuthenticationSettings,
}

impl Wire for ChangePhoneNumber {
    #[verifier::opaque]
    open spec fn wire(&self) -> Doc {
        tagged(
            Map::empty()
                .insert("phoneNumber"@, self.phone_number.wire())
                .insert("settings"@, self.settings.wire()),
            "changePhoneNumber"@,
        )
    }

    #[verifier::opaque]
    open spec fn parse(d: Doc, at: Seq<char>) -> Result<Doc, Fault> {
        match d {
            Doc::Object(m) => {
                let phone_number = field::<String>(m, "phoneNumber"@);
                let settings = field::<PhoneNumberAuthenticationSettings>(m, "settings"@);
                if phone_number is Err {
                    phone_number
                } else if settings is Err {
                    settings
                } else {
                    Ok(
                        tagged(
                            Map::empty()
                                .insert("phoneNumber"@, phone_number->Ok_0)
                                .insert("settings"@, settings->Ok_0),
                            "changePhoneNumber"@,
                        ),
                    )
                }
            },
            _ => Err(Fault::TypeMismatch(at)),
        }
    }

    fn encode(&self) -> (j: Json) {
        proof {
            reveal(<ChangePhoneNumber as Wire>::wire);
        }
        let mut members: Vec<Member> = Vec::new();
        put(&mut members, "phoneNumber", self.phone_number.encode());
        put(&mut members, "settings", self.settings.encode());
        seal(members, "changePhoneNumber")
    }

    fn decode(j: &Json, at: &str) -> (r: Result<Self, DecodeError>) {
        proof {
            reveal(<ChangePhoneNumber as Wire>::wire);
            reveal(<ChangePhoneNumber as Wire>::parse);
        }
        let members = members_of(j, at)?;
        let phone_number = read_field::<String>(members, "phoneNumber")?;
        let settings = read_field::<PhoneNumberAuthenticationSettings>(members, "settings")?;
        Ok(ChangePhoneNumber { phone_number, settings })
    }

    proof fn round_trip(&self, at: Seq<char>) {
        reveal(<ChangePhoneNumber as Wire>::wire);
        reveal(<ChangePhoneNumber as Wire>::parse);
        reveal_strlit("@type");
        reveal_strlit("phoneNumber");
        reveal_strlit("settings");
        assert("@type"@.len() == 5);
        assert("phoneNumber"@.len() == 11);
        assert("settings"@.len() == 8);
        self.phone_number.round_trip("phoneNumber"@);
        self.settings.round_trip("settings"@);
    }
}

impl Tagged for ChangePhoneNumber {
    open spec fn known(tag: Seq<char>) -> bool {
        tag == "changePhoneNumber"@
    }

    fn knows(tag: &str) -> (r: bool) {
        same_text(tag, "changePhoneNumber")
    }

    proof fn tag_known(&self) {
        reveal(<ChangePhoneNumber as Wire>::wire);
        assert(tag_of(self.wire()) == Some("changePhoneNumber"@));
        assert(Self::known("changePhoneNumber"@));
    }
}

impl Method for ChangePhoneNumber {
    const TYPE: &'static str = "changePhoneNumber";

    type Response = AuthenticationCodeInfo;

    proof fn type_is_tag(&self) {
        reveal(<ChangePhoneNumber as Wire>::wire);
        assert(tag_of(self.wire()) == Some("changePhoneNumber"@));
    }
}

/// Re-sends the authentication code sent to confirm a new phone number for the user. Works only if
/// the previously received authenticationCodeInfo next_code_type was not null
#[derive(Debug, Clone)]
pub struct ResendChangePhoneNumberCode {}

impl Wire for ResendChangePhoneNumberCode {
    #[verifier::opaque]
    open spec fn wire(&self) -> Doc {
        tagged(Map::empty(), "resendChangePhoneNumberCode"@)
    }

    #[verifier::opaque]
    open spec fn parse(d: Doc, at: Seq<char>) -> Result<Doc, Fault> {
        match d {
            Doc::Object(_) => Ok(tagged(Map::empty(), "resendChangePhoneNumberCode"@)),
            _ => Err(Fault::TypeMismatch(at)),
        }
    }

    fn encode(&self) -> (j: Json) {
        proof {
            reveal(<ResendChangePhoneNumberCode as Wire>::wire);
        }
        seal(Vec::new(), "resendChangePhoneNumberCode")
    }

    fn decode(j: &Json, at: &str) -> (r: Result<Self, DecodeError>) {
        proof {
            reveal(<ResendChangePhoneNumberCode as Wire>::wire);
            reveal(<ResendChangePhoneNumberCode as Wire>::parse);
        }
        let _ = members_of(j, at)?;
        Ok(ResendChangePhoneNumberCode {})
    }

    proof fn round_trip(&self, at: Seq<char>) {
        reveal(<ResendChangePhoneNumberCode as Wire>::wire);
        reveal(<ResendChangePhoneNumberCode as Wire>::parse);
    }
}

impl Tagged for ResendChangePhoneNumberCode {
    open spec fn known(tag: Seq<char>) -> bool {
        tag == "resendChangePhoneNumberCode"@
    }

    fn knows(tag: &str) -> (r: bool) {
        same_text(tag, "resendChangePhoneNumberCode")
    }

    proof fn tag_known(&self) {
        reveal(<ResendChangePhoneNumberCode as Wire>::wire);
        assert(tag_of(self.wire()) == Some("resendChangePhoneNumberCode"@));
        assert(Self::known("resendChangePhoneNumberCode"@));
    }
}

impl Method for ResendChangePhoneNumberCode {
    const TYPE: &'static str = "resendChangePhoneNumberCode";

    type Response = AuthenticationCodeInfo;

    proof fn type_is_tag(&self) {
        reveal(<ResendChangePhoneNumberCode as Wire>::wire);
        assert(tag_of(self.wire()) == Some("resendChangePhoneNumberCode"@));
    }
}

/// Checks the authentication code sent to confirm a new phone number of the user
#[derive(Debug, Clone)]
pub struct CheckChangePhoneNumberCode {
    /// Verification code received by SMS, phone call or flash call
    pub code: String,
}

impl Wire for CheckChangePhoneNumberCode {
    #[verifier::opaque]
    open spec fn wire(&self) -> Doc {
        tagged(
            Map::empty()
                .insert("code"@, self.code.wire()),
            "checkChangePhoneNumberCode"@,
        )
    }

    #[verifier::opaque]
    open spec fn parse(d: Doc, at: Seq<char>) -> Result<Doc, Fault> {
        match d {
            Doc::Object(m) => {
                let code = field::<String>(m, "code"@);
                if code is Err {
                    code
                } else {
                    Ok(
                        tagged(
                            Map::empty()
                                .insert("code"@, code->Ok_0),
                            "checkChangePhoneNumberCode"@,
                        ),
                    )
                }
            },
            _ => Err(Fault::TypeMismatch(at)),
        }
    }

    fn encode(&self) -> (j: Json) {
        proof {
            reveal(<CheckChangePhoneNumberCode as Wire>::wire);
        }
        let mut members: Vec<Member> = Vec::new();
        put(&mut members, "code", self.code.encode());
        seal(members, "checkChangePhoneNumberCode")
    }

    fn decode(j: &Json, at: &str) -> (r: Result<Self, DecodeError>) {
        proof {
            reveal(<CheckChangePhoneNumberCode as Wire>::wire);
            reveal(<CheckChangePhoneNumberCode as Wire>::parse);
        }
        let members = members_of(j, at)?;
        let code = read_field::<String>(members, "code")?;
        Ok(CheckChangePhoneNumberCode { code })
    }

    proof fn round_trip(&self, at: Seq<char>) {
        reveal(<CheckChangePhoneNumberCode as Wire>::wire);
        reveal(<CheckChangePhoneNumberCode as Wire>::parse);
        reveal_strlit("@type");
        reveal_strlit("code");
        assert("@type"@.len() == 5);
        assert("code"@.len() == 4);
        self.code.round_trip("code"@);
    }
}

impl Tagged for CheckChangePhoneNumberCode {
    open spec fn known(tag: Seq<char>) -> bool {
        tag == "checkChangePhoneNumberCode"@
    }

    fn knows(tag: &str) -> (r: bool) {
        same_text(tag, "checkChangePhoneNumberCode")
    }

    proof fn tag_known(&self) {
        reveal(<CheckChangePhoneNumberCode as Wire>::wire);
        assert(tag_of(self.wire()) == Some("checkChangePhoneNumberCode"@));
        assert(Self::known("checkChangePhoneNumberCode"@));
    }
}

impl Method for CheckChangePhoneNumberCode {
    const TYPE: &'static str = "checkChangePhoneNumberCode";

    type Response = Okay;

    proof fn type_is_tag(&self) {
        reveal(<CheckChangePhoneNumberCode as Wire>::wire);
        assert(tag_of(self.wire()) == Some("checkChangePhoneNumberCode"@));
    }
}

/// Returns all active sessions of the current user
#[derive(Debug, Clone)]
pub struct GetActiveSessions {}

impl Wire for GetActiveSessions {
    #[verifier::opaque]
    open spec fn wire(&self) -> Doc {
        tagged(Map::empty(), "getActiveSessions"@)
    }

    #[verifier::opaque]
    open spec fn parse(d: Doc, at: Seq<char>) -> Result<Doc, Fault> {
        match d {
            Doc::Object(_) => Ok(tagged(Map::empty(), "getActiveSessions"@)),
            _ => Err(Fault::TypeMismatch(at)),
        }
    }

    fn encode(&self) -> (j: Json) {
        proof {
            reveal(<GetActiveSessions as Wire>::wire);
        }
        seal(Vec::new(), "getActiveSessions")
    }

    fn decode(j: &Json, at: &str) -> (r: Result<Self, DecodeError>) {
        proof {
            reveal(<GetActiveSessions as Wire>::wire);
            reveal(<GetActiveSessions as Wire>::parse);
        }
        let _ = members_of(j, at)?;
        Ok(GetActiveSessions {})
    }

    proof fn round_trip(&self, at: Seq<char>) {
        reveal(<GetActiveSessions as Wire>::wire);
        reveal(<GetActiveSessions as Wire>::parse);
    }
}

impl Tagged for GetActiveSessions {
    open spec fn known(tag: Seq<char>) -> bool {
        tag == "getActiveSessions"@
    }

    fn knows(tag: &str) -> (r: bool) {
        same_text(tag, "getActiveSessions")
    }

    proof fn tag_known(&self) {
        reveal(<GetActiveSessions as Wire>::wire);
        assert(tag_of(self.wire()) == Some("getActiveSessions"@));
        assert(Self::known("getActiveSessions"@));
    }
}

impl Method for GetActiveSessions {
    const TYPE: &'static str = "getActiveSessions";

    type Response = Sessions;

    proof fn type_is_tag(&self) {
        reveal(<GetActiveSessions as Wire>::wire);
        assert(tag_of(self.wire()) == Some("getActiveSessions"@));
    }
}

/// Terminates a session of the current user
#[derive(Debug, Clone)]
pub struct TerminateSession {
    /// Session identifier
    pub session_id: i64,
}

impl Wire for TerminateSession {
    #[verifier::opaque]
    open spec fn wire(&self) -> Doc {
        tagged(
            Map::empty()
                .insert("sessionId"@, wide_doc(self.session_id)),
            "terminateSession"@,
        )
    }

    #[verifier::opaque]
    open spec fn parse(d: Doc, at: Seq<char>) -> Result<Doc, Fault> {
        match d {
            Doc::Object(m) => {
                let session_id = wide_field(m, "sessionId"@);
                if session_id is Err {
                    session_id
                } else {
                    Ok(
                        tagged(
                            Map::empty()
                                .insert("sessionId"@, session_id->Ok_0),
                            "terminateSession"@,
                        ),
                    )
                }
            },
            _ => Err(Fault::TypeMismatch(at)),
        }
    }

    fn encode(&self) -> (j: Json) {
        proof {
            reveal(<TerminateSession as Wire>::wire);
        }
        let mut members: Vec<Member> = Vec::new();
        put(&mut members, "sessionId", encode_wide(self.session_id));
        seal(members, "terminateSession")
    }

    fn decode(j: &Json, at: &str) -> (r: Result<Self, DecodeError>) {
        proof {
            reveal(<TerminateSession as Wire>::wire);
            reveal(<TerminateSession as Wire>::parse);
        }
        let members = members_of(j, at)?;
        let session_id = read_wide(members, "sessionId")?;
        Ok(TerminateSession { session_id })
    }

    proof fn round_trip(&self, at: Seq<char>) {
        reveal(<TerminateSession as Wire>::wire);
        reveal(<TerminateSession as Wire>::parse);
        reveal_strlit("@type");
        reveal_strlit("sessionId");
        assert("@type"@.len() == 5);
        assert("sessionId"@.len() == 9);
        lemma_wide_round_trip(self.session_id, "sessionId"@);
    }
}

impl Tagged for TerminateSession {
    open spec fn known(tag: Seq<char>) -> bool {
        tag == "terminateSession"@
    }

    fn knows(tag: &str) -> (r: bool) {
        same_text(tag, "terminateSession")
    }

    proof fn tag_known(&self) {
        reveal(<TerminateSession as Wire>::wire);
        assert(tag_of(self.wire()) == Some("terminateSession"@));
        assert(Self::known("terminateSession"@));
    }
}

impl Method for TerminateSession {
    const TYPE: &'static str = "terminateSession";

    type Response = Okay;

    proof fn type_is_tag(&self) {
        reveal(<TerminateSession as Wire>::wire);
        assert(tag_of(self.wire()) == Some("terminateSession"@));
    }
}

/// Terminates all other sessions of the current user
#[derive(Debug, Clone)]
pub struct TerminateAllOtherSessions {}

impl Wire for TerminateAllOtherSessions {
    #[verifier::opaque]
    open spec fn wire(&self) -> Doc {
        tagged(Map::empty(), "terminateAllOtherSessions"@)
    }

    #[verifier::opaque]
    open spec fn parse(d: Doc, at: Seq<char>) -> Result<Doc, Fault> {
        match d {
            Doc::Object(_) => Ok(tagged(Map::empty(), "terminateAllOtherSessions"@)),
            _ => Err(Fault::TypeMismatch(at)),
        }
    }

    fn encode(&self) -> (j: Json) {
        proof {
            reveal(<TerminateAllOtherSessions as Wire>::wire);
        }
        seal(Vec::new(), "terminateAllOtherSessions")
    }

    fn decode(j: &Json, at: &str) -> (r: Result<Self, DecodeError>) {
        proof {
            reveal(<TerminateAllOtherSessions as Wire>::wire);
            reveal(<TerminateAllOtherSessions as Wire>::parse);
        }
        let _ = members_of(j, at)?;
        Ok(TerminateAllOtherSessions {})
    }

    proof fn round_trip(&self, at: Seq<char>) {
        reveal(<TerminateAllOtherSessions as Wire>::wire);
        reveal(<TerminateAllOtherSessions as Wire>::parse);
    }
}

impl Tagged for TerminateAllOtherSessions {
    open spec fn known(tag: Seq<char>) -> bool {
        tag == "terminateAllOtherSessions"@
    }

    fn knows(tag: &str) -> (r: bool) {
        same_text(tag, "terminateAllOtherSessions")
    }

    proof fn tag_known(&self) {
        reveal(<TerminateAllOtherSessions as Wire>::wire);
        assert(tag_of(self.wire()) == Some("terminateAllOtherSessions"@));
        assert(Self::known("terminateAllOtherSessions"@));
    }
}

impl Method for TerminateAllOtherSessions {
    const TYPE: &'static str = "terminateAllOtherSessions";

    type Response = Okay;

    proof fn type_is_tag(&self) {
        reveal(<TerminateAllOtherSessions as Wire>::wire);
        assert(tag_of(self.wire()) == Some("terminateAllOtherSessions"@));
    }
}

/// Returns all website where the current user used Telegram to log in
#[derive(Debug, Clone)]
pub struct GetConnectedWebsites {}

impl Wire for GetConnectedWebsites {
    #[verifier::opaque]
    open spec fn wire(&self) -> Doc {
        tagged(Map::empty(), "getConnectedWebsites"@)
    }

    #[verifier::opaque]
    open spec fn parse(d: Doc, at: Seq<char>) -> Result<Doc, Fault> {
        match d {
            Doc::Object(_) => Ok(tagged(Map::empty(), "getConnectedWebsites"@)),
            _ => Err(Fault::TypeMismatch(at)),
        }
    }

    fn encode(&self) -> (j: Json) {
        proof {
            reveal(<GetConnectedWebsites as Wire>::wire);
        }
        seal(Vec::new(), "getConnectedWebsites")
    }

    fn decode(j: &Json, at: &str) -> (r: Result<Self, DecodeError>) {
        proof {
            reveal(<GetConnectedWebsites as Wire>::wire);
            reveal(<GetConnectedWebsites as Wire>::parse);
        }
        let _ = members_of(j, at)?;
        Ok(GetConnectedWebsites {})
    }

    proof fn round_trip(&self, at: Seq<char>) {
        reveal(<GetConnectedWebsites as Wire>::wire);
        reveal(<GetConnectedWebsites as Wire>::parse);
    }
}

impl Tagged for GetConnectedWebsites {
    open spec fn known(tag: Seq<char>) -> bool {
        tag == "getConnectedWebsites"@
    }

    fn knows(tag: &str) -> (r: bool) {
        same_text(tag, "getConnectedWebsites")
    }

    proof fn tag_known(&self) {
        reveal(<GetConnectedWebsites as Wire>::wire);
        assert(tag_of(self.wire()) == Some("getConnectedWebsites"@));
        assert(Self::known("getConnectedWebsites"@));
    }
}

impl Method for GetConnectedWebsites {
    const TYPE: &'static str = "getConnectedWebsites";

    type Response = ConnectedWebsites;

    proof fn type_is_tag(&self) {
        reveal(<GetConnectedWebsites as Wire>::wire);
        assert(tag_of(self.wire()) == Some("getConnectedWebsites"@));
    }
}

/// Disconnects website from the current user's Telegram account
#[derive(Debug, Clone)]
pub struct DisconnectWebsite {
    /// Website identifier
    pub website_id: i64,
}

impl Wire for DisconnectWebsite {
    #[verifier::opaque]
    open spec fn wire(&self) -> Doc {
        tagged(
            Map::empty()
                .insert("websiteId"@, wide_doc(self.website_id)),
            "disconnectWebsite"@,
        )
    }

    #[verifier::opaque]
    open spec fn parse(d: Doc, at: Seq<char>) -> Result<Doc, Fault> {
        match d {
            Doc::Object(m) => {
                let website_id = wide_field(m, "websiteId"@);
                if website_id is Err {
                    website_id
                } else {
                    Ok(
                        tagged(
                            Map::empty()
                                .insert("websiteId"@, website_id->Ok_0),
                            "disconnectWebsite"@,
                        ),
                    )
                }
            },
            _ => Err(Fault::TypeMismatch(at)),
        }
    }

    fn encode(&self) -> (j: Json) {
        proof {
            reveal(<DisconnectWebsite as Wire>::wire);
        }
        let mut members: Vec<Member> = Vec::new();
        put(&mut members, "websiteId", encode_wide(self.website_id));
        seal(members, "disconnectWebsite")
    }

    fn decode(j: &Json, at: &str) -> (r: Result<Self, DecodeError>) {
        proof {
            reveal(<DisconnectWebsite as Wire>::wire);
            reveal(<DisconnectWebsite as Wire>::parse);
        }
        let members = members_of(j, at)?;
        let website_id = read_wide(members, "websiteId")?;
        Ok(DisconnectWebsite { website_id })
    }

    proof fn round_trip(&self, at: Seq<char>) {
        reveal(<DisconnectWebsite as Wire>::wire);
        reveal(<DisconnectWebsite as Wire>::parse);
        reveal_strlit("@type");
        reveal_strlit("websiteId");
        assert("@type"@.len() == 5);
        assert("websiteId"@.len() == 9);
        lemma_wide_round_trip(self.website_id, "websiteId"@);
    }
}

impl Tagged for DisconnectWebsite {
    open spec fn known(tag: Seq<char>) -> bool {
        tag == "disconnectWebsite"@
    }

    fn knows(tag: &str) -> (r: bool) {
        same_text(tag, "disconnectWebsite")
    }

    proof fn tag_known(&self) {
        reveal(<DisconnectWebsite as Wire>::wire);
        assert(tag_of(self.wire()) == Some("disconnectWebsite"@));
        assert(Self::known("disconnectWebsite"@));
    }
}

impl Method for DisconnectWebsite {
    const TYPE: &'static str = "disconnectWebsite";

    type Response = Okay;

    proof fn type_is_tag(&self) {
        reveal(<DisconnectWebsite as Wire>::wire);
        assert(tag_of(self.wire()) == Some("disconnectWebsite"@));
    }
}

/// Disconnects all websites from the current user's Telegram account
#[derive(Debug, Clone)]
pub struct DisconnectAllWebsites {}

impl Wire for DisconnectAllWebsites {
    #[verifier::opaque]
    open spec fn wire(&self) -> Doc {
        tagged(Map::empty(), "disconnectAllWebsites"@)
    }

    #[verifier::opaque]
    open spec fn parse(d: Doc, at: Seq<char>) -> Result<Doc, Fault> {
        match d {
            Doc::Object(_) => Ok(tagged(Map::empty(), "disconnectAllWebsites"@)),
            _ => Err(Fault::TypeMismatch(at)),
        }
    }

    fn encode(&self) -> (j: Json) {
        proof {
            reveal(<DisconnectAllWebsites as Wire>::wire);
        }
        seal(Vec::new(), "disconnectAllWebsites")
    }

    fn decode(j: &Json, at: &str) -> (r: Result<Self, DecodeError>) {
        proof {
            reveal(<DisconnectAllWebsites as Wire>::wire);
            reveal(<DisconnectAllWebsites as Wire>::parse);
        }
        let _ = members_of(j, at)?;
        Ok(DisconnectAllWebsites {})
    }

    proof fn round_trip(&self, at: Seq<char>) {
        reveal(<DisconnectAllWebsites as Wire>::wire);
        reveal(<DisconnectAllWebsites as Wire>::parse);
    }
}

impl Tagged for DisconnectAllWebsites {
    open spec fn known(tag: Seq<char>) -> bool {
        tag == "disconnectAllWebsites"@
    }

    fn knows(tag: &str) -> (r: bool) {
        same_text(tag, "disconnectAllWebsites")
    }

    proof fn tag_known(&self) {
        reveal(<DisconnectAllWebsites as Wire>::wire);
        assert(tag_of(self.wire()) == Some("disconnectAllWebsites"@));
        assert(Self::known("disconnectAllWebsites"@));
    }
}

impl Method for DisconnectAllWebsites {
    const TYPE: &'static str = "disconnectAllWebsites";

    type Response = Okay;

    proof fn type_is_tag(&self) {
        reveal(<DisconnectAllWebsites as Wire>::wire);
        assert(tag_of(self.wire()) == Some("disconnectAllWebsites"@));
    }
}

/// Changes the username of a supergroup or channel, requires owner privileges in the supergroup or
/// channel
#[derive(Debug, Clone)]
pub struct SetSupergroupUsername {
    /// Identifier of the supergroup or channel
    pub supergroup_id: i32,
    /// New value of the username. Use an empty string to remove the username
    pub username: String,
}

impl Wire for SetSupergroupUsername {
    #[verifier::opaque]
    open spec fn wire(&self) -> Doc {
        tagged(
            Map::empty()
                .insert("supergroupId"@, self.supergroup_id.wire())
                .insert("username"@, self.username.wire()),
            "setSupergroupUsername"@,
        )
    }

    #[verifier::opaque]
    open spec fn parse(d: Doc, at: Seq<char>) -> Result<Doc, Fault> {
        match d {
            Doc::Object(m) => {
                let supergroup_id = field::<i32>(m, "supergroupId"@);
                let username = field::<String>(m, "username"@);
                if supergroup_id is Err {
                    supergroup_id
                } else if username is Err {
                    username
                } else {
                    Ok(
                        tagged(
                            Map::empty()
                                .insert("supergroupId"@, supergroup_id->Ok_0)
                                .insert("username"@, username->Ok_0),
                            "setSupergroupUsername"@,
                        ),
                    )
                }
            },
            _ => Err(Fault::TypeMismatch(at)),
        }
    }

    fn encode(&self) -> (j: Json) {
        proof {
            reveal(<SetSupergroupUsername as Wire>::wire);
        }
        let mut members: Vec<Member> = Vec::new();
        put(&mut members, "supergroupId", self.supergroup_id.encode());
        put(&mut members, "username", self.username.encode());
        seal(members, "setSupergroupUsername")
    }

    fn decode(j: &Json, at: &str) -> (r: Result<Self, DecodeError>) {
        proof {
            reveal(<SetSupergroupUsername as Wire>::wire);
            reveal(<SetSupergroupUsername as Wire>::parse);
        }
        let members = members_of(j, at)?;
        let supergroup_id = read_field::<i32>(members, "supergroupId")?;
        let username = read_field::<String>(members, "username")?;
        Ok(SetSupergroupUsername { supergroup_id, username })
    }

    proof fn round_trip(&self, at: Seq<char>) {
        reveal(<SetSupergroupUsername as Wire>::wire);
        reveal(<SetSupergroupUsername as Wire>::parse);
        reveal_strlit("@type");
        reveal_strlit("supergroupId");
        reveal_strlit("username");
        assert("@type"@.len() == 5);
        assert("supergroupId"@.len() == 12);
        assert("username"@.len() == 8);
        self.supergroup_id.round_trip("supergroupId"@);
        self.username.round_trip("username"@);
    }
}

impl Tagged for SetSupergroupUsername {
    open spec fn known(tag: Seq<char>) -> bool {
        tag == "setSupergroupUsername"@
    }

    fn knows(tag: &str) -> (r: bool) {
        same_text(tag, "setSupergroupUsername")
    }

    proof fn tag_known(&self) {
        reveal(<SetSupergroupUsername as Wire>::wire);
        assert(tag_of(self.wire()) == Some("setSupergroupUsername"@));
        assert(Self::known("setSupergroupUsername"@));
    }
}

impl Method for SetSupergroupUsername {
    const TYPE: &'static str = "setSupergroupUsername";

    type Response = Okay;

    proof fn type_is_tag(&self) {
        reveal(<SetSupergroupUsername as Wire>::wire);
        assert(tag_of(self.wire()) == Some("setSupergroupUsername"@));
    }
}

/// Changes the sticker set of a supergroup; requires can_change_info rights
#[derive(Debug, Clone)]
pub struct SetSupergroupStickerSet {
    /// Identifier of the supergroup
    pub supergroup_id: i32,
    /// New value of the supergroup sticker set identifier. Use 0 to remove the supergroup sticker
    /// set
    pub sticker_set_id: i64,
}

impl Wire for SetSupergroupStickerSet {
    #[verifier::opaque]
    open spec fn wire(&self) -> Doc {
        tagged(
            Map::empty()
                .insert("supergroupId"@, self.supergroup_id.wire())
                .insert("stickerSetId"@, wide_doc(self.sticker_set_id)),
            "setSupergroupStickerSet"@,
        )
    }

    #[verifier::opaque]
    open spec fn parse(d: Doc, at: Seq<char>) -> Result<Doc, Fault> {
        match d {
            Doc::Object(m) => {
                let supergroup_id = field::<i32>(m, "supergroupId"@);
                let sticker_set_id = wide_field(m, "stickerSetId"@);
                if supergroup_id is Err {
                    supergroup_id
                } else if sticker_set_id is Err {
                    sticker_set_id
                } else {
                    Ok(
                        tagged(
                            Map::empty()
                                .insert("supergroupId"@, supergroup_id->Ok_0)
                                .insert("stickerSetId"@, sticker_set_id->Ok_0),
                            "setSupergroupStickerSet"@,
                        ),
                    )
                }
            },
            _ => Err(Fault::TypeMismatch(at)),
        }
    }

    fn encode(&self) -> (j: Json) {
        proof {
            reveal(<SetSupergroupStickerSet as Wire>::wire);
        }
        let mut members: Vec<Member> = Vec::new();
        put(&mut members, "supergroupId", self.supergroup_id.encode());
        put(&mut members, "stickerSetId", encode_wide(self.sticker_set_id));
        seal(members, "setSupergroupStickerSet")
    }

    fn decode(j: &Json, at: &str) -> (r: Result<Self, DecodeError>) {
        proof {
            reveal(<SetSupergroupStickerSet as Wire>::wire);
            reveal(<SetSupergroupStickerSet as Wire>::parse);
        }
        let members = members_of(j, at)?;
        let supergroup_id = read_field::<i32>(members, "supergroupId")?;
        let sticker_set_id = read_wide(members, "stickerSetId")?;
        Ok(SetSupergroupStickerSet { supergroup_id, sticker_set_id })
    }

    proof fn round_trip(&self, at: Seq<char>) {
        reveal(<SetSupergroupStickerSet as Wire>::wire);
        reveal(<SetSupergroupStickerSet as Wire>::parse);
        reveal_strlit("@type");
        reveal_strlit("stickerSetId");
        reveal_strlit("supergroupId");
        assert("@type"@.len() == 5);
        assert("stickerSetId"@.len() == 12 && "stickerSetId"@[1] == 't');
        assert("supergroupId"@.len() == 12 && "supergroupId"@[1] == 'u');
        self.supergroup_id.round_trip("supergroupId"@);
        lemma_wide_round_trip(self.sticker_set_id, "stickerSetId"@);
    }
}

impl Tagged for SetSupergroupStickerSet {
    open spec fn known(tag: Seq<char>) -> bool {
        tag == "setSupergroupStickerSet"@
    }

    fn knows(tag: &str) -> (r: bool) {
        same_text(tag, "setSupergroupStickerSet")
    }

    proof fn tag_known(&self) {
        reveal(<SetSupergroupStickerSet as Wire>::wire);
        assert(tag_of(self.wire()) == Some("setSupergroupStickerSet"@));
        assert(Self::known("setSupergroupStickerSet"@));
    }
}

impl Method for SetSupergroupStickerSet {
    const TYPE: &'static str = "setSupergroupStickerSet";

    type Response = Okay;

    proof fn type_is_tag(&self) {
        reveal(<SetSupergroupStickerSet as Wire>::wire);
        assert(tag_of(self.wire()) == Some("setSupergroupStickerSet"@));
    }
}

/// Toggles sender signatures messages sent in a channel; requires can_change_info rights
#[derive(Debug, Clone)]
pub struct ToggleSupergroupSignMessages {
    /// Identifier of the channel
    pub supergroup_id: i32,
    /// New value of sign_messages
    pub sign_messages: bool,
}

impl Wire for ToggleSupergroupSignMessages {
    #[verifier::opaque]
    open spec fn wire(&self) -> Doc {
        tagged(
            Map::empty()
                .insert("supergroupId"@, self.supergroup_id.wire())
                .insert("signMessages"@, self.sign_messages.wire()),
            "toggleSupergroupSignMessages"@,
        )
    }

    #[verifier::opaque]
    open spec fn parse(d: Doc, at: Seq<char>) -> Result<Doc, Fault> {
        match d {
            Doc::Object(m) => {
                let supergroup_id = field::<i32>(m, "supergroupId"@);
                let sign_messages = field::<bool>(m, "signMessages"@);
                if supergroup_id is Err {
                    supergroup_id
                } else if sign_messages is Err {
                    sign_messages
                } else {
                    Ok(
                        tagged(
                            Map::empty()
                                .insert("supergroupId"@, supergroup_id->Ok_0)
                                .insert("signMessages"@, sign_messages->Ok_0),
                            "toggleSupergroupSignMessages"@,
                        ),
                    )
                }
            },
            _ => Err(Fault::TypeMismatch(at)),
        }
    }

    fn encode(&self) -> (j: Json) {
        proof {
            reveal(<ToggleSupergroupSignMessages as Wire>::wire);
        }
        let mut members: Vec<Member> = Vec::new();
        put(&mut members, "supergroupId", self.supergroup_id.encode());
        put(&mut members, "signMessages", self.sign_messages.encode());
        seal(members, "toggleSupergroupSignMessages")
    }

    fn decode(j: &Json, at: &str) -> (r: Result<Self, DecodeError>) {
        proof {
            reveal(<ToggleSupergroupSignMessages as Wire>::wire);
            reveal(<ToggleSupergroupSignMessages as Wire>::parse);
        }
        let members = members_of(j, at)?;
        let supergroup_id = read_field::<i32>(members, "supergroupId")?;
        let sign_messages = read_field::<bool>(members, "signMessages")?;
        Ok(ToggleSupergroupSignMessages { supergroup_id, sign_messages })
    }

    proof fn round_trip(&self, at: Seq<char>) {
        reveal(<ToggleSupergroupSignMessages as Wire>::wire);
        reveal(<ToggleSupergroupSignMessages as Wire>::parse);
        reveal_strlit("@type");
        reveal_strlit("signMessages");
        reveal_strlit("supergroupId");
        assert("@type"@.len() == 5);
        assert("signMessages"@.len() == 12 && "signMessages"@[1] == 'i');
        assert("supergroupId"@.len() == 12 && "supergroupId"@[1] == 'u');
        self.supergroup_id.round_trip("supergroupId"@);
        self.sign_messages.round_trip("signMessages"@);
    }
}

impl Tagged for ToggleSupergroupSignMessages {
    open spec fn known(tag: Seq<char>) -> bool {
        tag == "toggleSupergroupSignMessages"@
    }

    fn knows(tag: &str) -> (r: bool) {
        same_text(tag, "toggleSupergroupSignMessages")
    }

    proof fn tag_known(&self) {
        reveal(<ToggleSupergroupSignMessages as Wire>::wire);
        assert(tag_of(self.wire()) == Some("toggleSupergroupSignMessages"@));
        assert(Self::known("toggleSupergroupSignMessages"@));
    }
}

impl Method for ToggleSupergroupSignMessages {
    const TYPE: &'static str = "toggleSupergroupSignMessages";

    type Response = Okay;

    proof fn type_is_tag(&self) {
        reveal(<ToggleSupergroupSignMessages as Wire>::wire);
        assert(tag_of(self.wire()) == Some("toggleSupergroupSignMessages"@));
    }
}

/// Toggles whether the message history of a supergroup is available to new members; requires
/// can_change_info rights
#[derive(Debug, Clone)]
pub struct ToggleSupergroupIsAllHistoryAvailable {
    /// The identifier of the supergroup
    pub supergroup_id: i32,
    /// The new value of is_all_history_available
    pub is_all_history_available: bool,
}

impl Wire for ToggleSupergroupIsAllHistoryAvailable {
    #[verifier::opaque]
    open spec fn wire(&self) -> Doc {
        tagged(
            Map::empty()
                .insert("supergroupId"@, self.supergroup_id.wire())
                .insert("isAllHistoryAvailable"@, self.is_all_history_available.wire()),
            "toggleSupergroupIsAllHistoryAvailable"@,
        )
    }

    #[verifier::opaque]
    open spec fn parse(d: Doc, at: Seq<char>) -> Result<Doc, Fault> {
        match d {
            Doc::Object(m) => {
                let supergroup_id = field::<i32>(m, "supergroupId"@);
                let is_all_history_available = field::<bool>(m, "isAllHistoryAvailable"@);
                if supergroup_id is Err {
                    supergroup_id
                } else if is_all_history_available is Err {
                    is_all_history_available
                } else {
                    Ok(
                        tagged(
                            Map::empty()
                                .insert("supergroupId"@, supergroup_id->Ok_0)
                                .insert("isAllHistoryAvailable"@, is_all_history_available->Ok_0),
                            "toggleSupergroupIsAllHistoryAvailable"@,
                        ),
                    )
                }
            },
            _ => Err(Fault::TypeMismatch(at)),
        }
    }

    fn encode(&self) -> (j: Json) {
        proof {
            reveal(<ToggleSupergroupIsAllHistoryAvailable as Wire>::wire);
        }
        let mut members: Vec<Member> = Vec::new();
        put(&mut members, "supergroupId", self.supergroup_id.encode());
        put(&mut members, "isAllHistoryAvailable", self.is_all_history_available.encode());
        seal(members, "toggleSupergroupIsAllHistoryAvailable")
    }

    fn decode(j: &Json, at: &str) -> (r: Result<Self, DecodeError>) {
        proof {
            reveal(<ToggleSupergroupIsAllHistoryAvailable as Wire>::wire);
            reveal(<ToggleSupergroupIsAllHistoryAvailable as Wire>::parse);
        }
        let members = members_of(j, at)?;
        let supergroup_id = read_field::<i32>(members, "supergroupId")?;
        let is_all_history_available = read_field::<bool>(members, "isAllHistoryAvailable")?;
        Ok(ToggleSupergroupIsAllHistoryAvailable { supergroup_id, is_all_history_available })
    }

    proof fn round_trip(&self, at: Seq<char>) {
        reveal(<ToggleSupergroupIsAllHistoryAvailable as Wire>::wire);
        reveal(<ToggleSupergroupIsAllHistoryAvailable as Wire>::parse);
        reveal_strlit("@type");
        reveal_strlit("isAllHistoryAvailable");
        reveal_strlit("supergroupId");
        assert("@type"@.len() == 5);
        assert("isAllHistoryAvailable"@.len() == 21);
        assert("supergroupId"@.len() == 12);
        self.supergroup_id.round_trip("supergroupId"@);
        self.is_all_history_available.round_trip("isAllHistoryAvailable"@);
    }
}

impl Tagged for ToggleSupergroupIsAllHistoryAvailable {
    open spec fn known(tag: Seq<char>) -> bool {
        tag == "toggleSupergroupIsAllHistoryAvailable"@
    }

    fn knows(tag: &str) -> (r: bool) {
        same_text(tag, "toggleSupergroupIsAllHistoryAvailable")
    }

    proof fn tag_known(&self) {
        reveal(<ToggleSupergroupIsAllHistoryAvailable as Wire>::wire);
        assert(tag_of(self.wire()) == Some("toggleSupergroupIsAllHistoryAvailable"@));
        assert(Self::known("toggleSupergroupIsAllHistoryAvailable"@));
    }
}

impl Method for ToggleSupergroupIsAllHistoryAvailable {
    const TYPE: &'static str = "toggleSupergroupIsAllHistoryAvailable";

    type Response = Okay;

    proof fn type_is_tag(&self) {
        reveal(<ToggleSupergroupIsAllHistoryAvailable as Wire>::wire);
        assert(tag_of(self.wire()) == Some("toggleSupergroupIsAllHistoryAvailable"@));
    }
}

/// Reports some messages from a user in a supergroup as spam; requires administrator rights in the
/// supergroup
#[derive(Debug, Clone)]
pub struct ReportSupergroupSpam {
    /// Supergroup identifier
    pub supergroup_id: i32,
    /// User identifier
    pub user_id: i32,
    /// Identifiers of messages sent in the supergroup by the user. This list must be non-empty
    pub message_ids: Vec<i64>,
}

impl Wire for ReportSupergroupSpam {
    #[verifier::opaque]
    open spec fn wire(&self) -> Doc {
        tagged(
            Map::empty()
                .insert("supergroupId"@, self.supergroup_id.wire())
                .insert("userId"@, self.user_id.wire())
                .insert("messageIds"@, self.message_ids.wire()),
            "reportSupergroupSpam"@,
        )
    }

    #[verifier::opaque]
    open spec fn parse(d: Doc, at: Seq<char>) -> Result<Doc, Fault> {
        match d {
            Doc::Object(m) => {
                let supergroup_id = field::<i32>(m, "supergroupId"@);
                let user_id = field::<i32>(m, "userId"@);
                let message_ids = field::<Vec<i64>>(m, "messageIds"@);
                if supergroup_id is Err {
                    supergroup_id
                } else if user_id is Err {
                    user_id
                } else if message_ids is Err {
                    message_ids
                } else {
                    Ok(
                        tagged(
                            Map::empty()
                                .insert("supergroupId"@, supergroup_id->Ok_0)
                                .insert("userId"@, user_id->Ok_0)
                                .insert("messageIds"@, message_ids->Ok_0),
                            "reportSupergroupSpam"@,
                        ),
                    )
                }
            },
            _ => Err(Fault::TypeMismatch(at)),
        }
    }

    fn encode(&self) -> (j: Json) {
        proof {
            reveal(<ReportSupergroupSpam as Wire>::wire);
        }
        let mut members: Vec<Member> = Vec::new();
        put(&mut members, "supergroupId", self.supergroup_id.encode());
        put(&mut members, "userId", self.user_id.encode());
        put(&mut members, "messageIds", self.message_ids.encode());
        seal(members, "reportSupergroupSpam")
    }

    fn decode(j: &Json, at: &str) -> (r: Result<Self, DecodeError>) {
        proof {
            reveal(<ReportSupergroupSpam as Wire>::wire);
            reveal(<ReportSupergroupSpam as Wire>::parse);
        }
        let members = members_of(j, at)?;
        let supergroup_id = read_field::<i32>(members, "supergroupId")?;
        let user_id = read_field::<i32>(members, "userId")?;
        let message_ids = read_field::<Vec<i64>>(members, "messageIds")?;
        Ok(ReportSupergroupSpam { supergroup_id, user_id, message_ids })
    }

    proof fn round_trip(&self, at: Seq<char>) {
        reveal(<ReportSupergroupSpam as Wire>::wire);
        reveal(<ReportSupergroupSpam as Wire>::parse);
        reveal_strlit("@type");
        reveal_strlit("messageIds");
        reveal_strlit("supergroupId");
        reveal_strlit("userId");
        assert("@type"@.len() == 5);
        assert("messageIds"@.len() == 10);
        assert("supergroupId"@.len() == 12);
        assert("userId"@.len() == 6);
        self.supergroup_id.round_trip("supergroupId"@);
        self.user_id.round_trip("userId"@);
        self.message_ids.round_trip("messageIds"@);
    }
}

impl Tagged for ReportSupergroupSpam {
    open spec fn known(tag: Seq<char>) -> bool {
        tag == "reportSupergroupSpam"@
    }

    fn knows(tag: &str) -> (r: bool) {
        same_text(tag, "reportSupergroupSpam")
    }

    proof fn tag_known(&self) {
        reveal(<ReportSupergroupSpam as Wire>::wire);
        assert(tag_of(self.wire()) == Some("reportSupergroupSpam"@));
        assert(Self::known("reportSupergroupSpam"@));
    }
}

impl Method for ReportSupergroupSpam {
    const TYPE: &'static str = "reportSupergroupSpam";

    type Response = Okay;

    proof fn type_is_tag(&self) {
        reveal(<ReportSupergroupSpam as Wire>::wire);
        assert(tag_of(self.wire()) == Some("reportSupergroupSpam"@));
    }
}

/// Returns information about members or banned users in a supergroup or channel. Can be used only
/// if SupergroupFullInfo.can_get_members == true; additionally, administrator privileges may be
/// required for some filters
#[derive(Debug, Clone)]
pub struct GetSupergroupMembers {
    /// Identifier of the supergroup or channel
    pub supergroup_id: i32,
    /// The type of users to return. By default, supergroupMembersRecent
    pub filter: SupergroupMembersFilter,
    /// Number of users to skip
    pub offset: i32,
    /// The maximum number of users be returned; up to 200
    pub limit: i32,
}

impl Wire for GetSupergroupMembers {
    #[verifier::opaque]
    open spec fn wire(&self) -> Doc {
        tagged(
            Map::empty()
                .insert("supergroupId"@, self.supergroup_id.wire())
                .insert("filter"@, self.filter.wire())
                .insert("offset"@, self.offset.wire())
                .insert("limit"@, self.limit.wire()),
            "getSupergroupMembers"@,
        )
    }

    #[verifier::opaque]
    open spec fn parse(d: Doc, at: Seq<char>) -> Result<Doc, Fault> {
        match d {
            Doc::Object(m) => {
                let supergroup_id = field::<i32>(m, "supergroupId"@);
                let filter = field::<SupergroupMembersFilter>(m, "filter"@);
                let offset = field::<i32>(m, "offset"@);
                let limit = field::<i32>(m, "limit"@);
                if supergroup_id is Err {
                    supergroup_id
                } else if filter is Err {
                    filter
                } else if offset is Err {
                    offset
                } else if limit is Err {
                    limit
                } else {
                    Ok(
                        tagged(
                            Map::empty()
                                .insert("supergroupId"@, supergroup_id->Ok_0)
                                .insert("filter"@, filter->Ok_0)
                                .insert("offset"@, offset->Ok_0)
                                .insert("limit"@, limit->Ok_0),
                            "getSupergroupMembers"@,
                        ),
                    )
                }
            },
            _ => Err(Fault::TypeMismatch(at)),
        }
    }

    fn encode(&self) -> (j: Json) {
        proof {
            reveal(<GetSupergroupMembers as Wire>::wire);
        }
        let mut members: Vec<Member> = Vec::new();
        put(&mut members, "supergroupId", self.supergroup_id.encode());
        put(&mut members, "filter", self.filter.encode());
        put(&mut members, "offset", self.offset.encode());
        put(&mut members, "limit", self.limit.encode());
        seal(members, "getSupergroupMembers")
    }

    fn decode(j: &Json, at: &str) -> (r: Result<Self, DecodeError>) {
        proof {
            reveal(<GetSupergroupMembers as Wire>::wire);
            reveal(<GetSupergroupMembers as Wire>::parse);
        }
        let members = members_of(j, at)?;
        let supergroup_id = read_field::<i32>(members, "supergroupId")?;
        let filter = read_field::<SupergroupMembersFilter>(members, "filter")?;
        let offset = read_field::<i32>(members, "offset")?;
        let limit = read_field::<i32>(members, "limit")?;
        Ok(GetSupergroupMembers { supergroup_id, filter, offset, limit })
    }

    proof fn round_trip(&self, at: Seq<char>) {
        reveal(<GetSupergroupMembers as Wire>::wire);
        reveal(<GetSupergroupMembers as Wire>::parse);
        reveal_strlit("@type");
        reveal_strlit("filter");
        reveal_strlit("limit");
        reveal_strlit("offset");
        reveal_strlit("supergroupId");
        assert("@type"@.len() == 5 && "@type"@[0] == '@');
        assert("filter"@.len() == 6 && "filter"@[0] == 'f');
        assert("limit"@.len() == 5 && "limit"@[0] == 'l');
        assert("offset"@.len() == 6 && "offset"@[0] == 'o');
        assert("supergroupId"@.len() == 12);
        self.supergroup_id.round_trip("supergroupId"@);
        self.filter.round_trip("filter"@);
        self.offset.round_trip("offset"@);
        self.limit.round_trip("limit"@);
    }
}

impl Tagged for GetSupergroupMembers {
    open spec fn known(tag: Seq<char>) -> bool {
        tag == "getSupergroupMembers"@
    }

    fn knows(tag: &str) -> (r: bool) {
        same_text(tag, "getSupergroupMembers")
    }

    proof fn tag_known(&self) {
        reveal(<GetSupergroupMembers as Wire>::wire);
        assert(tag_of(self.wire()) == Some("getSupergroupMembers"@));
        assert(Self::known("getSupergroupMembers"@));
    }
}

impl Method for GetSupergroupMembers {
    const TYPE: &'static str = "getSupergroupMembers";

    type Response = ChatMembers;

    proof fn type_is_tag(&self) {
        reveal(<GetSupergroupMembers as Wire>::wire);
        assert(tag_of(self.wire()) == Some("getSupergroupMembers"@));
    }
}

/// Deletes a supergroup or channel along with all messages in the corresponding chat. This will
/// release the supergroup or channel username and remove all members; requires owner privileges in
/// the supergroup or channel. Chats with more than 1000 members can't be deleted using this method
#[derive(Debug, Clone)]
pub struct DeleteSupergroup {
    /// Identifier of the supergroup or channel
    pub supergroup_id: i32,
}

impl Wire for DeleteSupergroup {
    #[verifier::opaque]
    open spec fn wire(&self) -> Doc {
        tagged(
            Map::empty()
                .insert("supergroupId"@, self.supergroup_id.wire()),
            "deleteSupergroup"@,
        )
    }

    #[verifier::opaque]
    open spec fn parse(d: Doc, at: Seq<char>) -> Result<Doc, Fault> {
        match d {
            Doc::Object(m) => {
                let supergroup_id = field::<i32>(m, "supergroupId"@);
                if supergroup_id is Err {
                    supergroup_id
                } else {
                    Ok(
                        tagged(
                            Map::empty()
                                .insert("supergroupId"@, supergroup_id->Ok_0),
                            "deleteSupergroup"@,
                        ),
                    )
                }
            },
            _ => Err(Fault::TypeMismatch(at)),
        }
    }

    fn encode(&self) -> (j: Json) {
        proof {
            reveal(<DeleteSupergroup as Wire>::wire);
        }
        let mut members: Vec<Member> = Vec::new();
        put(&mut members, "supergroupId", self.supergroup_id.encode());
        seal(members, "deleteSupergroup")
    }

    fn decode(j: &Json, at: &str) -> (r: Result<Self, DecodeError>) {
        proof {
            reveal(<DeleteSupergroup as Wire>::wire);
            reveal(<DeleteSupergroup as Wire>::parse);
        }
        let members = members_of(j, at)?;
        let supergroup_id = read_field::<i32>(members, "supergroupId")?;
        Ok(DeleteSupergroup { supergroup_id })
    }

    proof fn round_trip(&self, at: Seq<char>) {
        reveal(<DeleteSupergroup as Wire>::wire);
        reveal(<DeleteSupergroup as Wire>::parse);
        reveal_strlit("@type");
        reveal_strlit("supergroupId");
        assert("@type"@.len() == 5);
        assert("supergroupId"@.len() == 12);
        self.supergroup_id.round_trip("supergroupId"@);
    }
}

impl Tagged for DeleteSupergroup {
    open spec fn known(tag: Seq<char>) -> bool {
        tag == "deleteSupergroup"@
    }

    fn knows(tag: &str) -> (r: bool) {
        same_text(tag, "deleteSupergroup")
    }

    proof fn tag_known(&self) {
        reveal(<DeleteSupergroup as Wire>::wire);
        assert(tag_of(self.wire()) == Some("deleteSupergroup"@));
        assert(Self::known("deleteSupergroup"@));
    }
}

impl Method for DeleteSupergroup {
    const TYPE: &'static str = "deleteSupergroup";

    type Response = Okay;

    proof fn type_is_tag(&self) {
        reveal(<DeleteSupergroup as Wire>::wire);
        assert(tag_of(self.wire()) == Some("deleteSupergroup"@));
    }
}

/// Closes a secret chat, effectively transferring its state to secretChatStateClosed
#[derive(Debug, Clone)]
pub struct CloseSecretChat {
    /// Secret chat identifier
    pub secret_chat_id: i32,
}

impl Wire for CloseSecretChat {
    #[verifier::opaque]
    open spec fn wire(&self) -> Doc {
        tagged(
            Map::empty()
                .insert("secretChatId"@, self.secret_chat_id.wire()),
            "closeSecretChat"@,
        )
    }

    #[verifier::opaque]
    open spec fn parse(d: Doc, at: Seq<char>) -> Result<Doc, Fault> {
        match d {
            Doc::Object(m) => {
                let secret_chat_id = field::<i32>(m, "secretChatId"@);
                if secret_chat_id is Err {
                    secret_chat_id
                } else {
                    Ok(
                        tagged(
                            Map::empty()
                                .insert("secretChatId"@, secret_chat_id->Ok_0),
                            "closeSecretChat"@,
                        ),
                    )
                }
            },
            _ => Err(Fault::TypeMismatch(at)),
        }
    }

    fn encode(&self) -> (j: Json) {
        proof {
            reveal(<CloseSecretChat as Wire>::wire);
        }
        let mut members: Vec<Member> = Vec::new();
        put(&mut members, "secretChatId", self.secret_chat_id.encode());
        seal(members, "closeSecretChat")
    }

    fn decode(j: &Json, at: &str) -> (r: Result<Self, DecodeError>) {
        proof {
            reveal(<CloseSecretChat as Wire>::wire);
            reveal(<CloseSecretChat as Wire>::parse);
        }
        let members = members_of(j, at)?;
        let secret_chat_id = read_field::<i32>(members, "secretChatId")?;
        Ok(CloseSecretChat { secret_chat_id })
    }

    proof fn round_trip(&self, at: Seq<char>) {
        reveal(<CloseSecretChat as Wire>::wire);
        reveal(<CloseSecretChat as Wire>::parse);
        reveal_strlit("@type");
        reveal_strlit("secretChatId");
        assert("@type"@.len() == 5);
        assert("secretChatId"@.len() == 12);
        self.secret_chat_id.round_trip("secretChatId"@);
    }
}

impl Tagged for CloseSecretChat {
    open spec fn known(tag: Seq<char>) -> bool {
        tag == "closeSecretChat"@
    }

    fn knows(tag: &str) -> (r: bool) {
        same_text(tag, "closeSecretChat")
    }

    proof fn tag_known(&self) {
        reveal(<CloseSecretChat as Wire>::wire);
        assert(tag_of(self.wire()) == Some("closeSecretChat"@));
        assert(Self::known("closeSecretChat"@));
    }
}

impl Method for CloseSecretChat {
    const TYPE: &'static str = "closeSecretChat";

    type Response = Okay;

    proof fn type_is_tag(&self) {
        reveal(<CloseSecretChat as Wire>::wire);
        assert(tag_of(self.wire()) == Some("closeSecretChat"@));
    }
}

/// Returns a list of service actions taken by chat members and administrators in the last 48 hours.
/// Available only for supergroups and channels. Requires administrator rights. Returns results in
/// reverse chronological order (i. e., in order of decreasing event_id)
#[derive(Debug, Clone)]
pub struct GetChatEventLog {
    /// Chat identifier
    pub chat_id: i64,
    /// Search query by which to filter events
    pub query: String,
    /// Identifier of an event from which to return results. Use 0 to get results from the latest
    /// events
    pub from_event_id: i64,
    /// The maximum number of events to return; up to 100
    pub limit: i32,
    /// The types of events to return. By default, all types will be returned
    pub filters: ChatEventLogFilters,
    /// User identifiers by which to filter events. By default, events relating to all users will be
    /// returned
    pub user_ids: Vec<i32>,
}

impl Wire for GetChatEventLog {
    #[verifier::opaque]
    open spec fn wire(&self) -> Doc {
        tagged(
            Map::empty()
                .insert("chatId"@, self.chat_id.wire())
                .insert("query"@, self.query.wire())
                .insert("fromEventId"@, wide_doc(self.from_event_id))
                .insert("limit"@, self.limit.wire())
                .insert("filters"@, self.filters.wire())
                .insert("userIds"@, self.user_ids.wire()),
            "getChatEventLog"@,
        )
    }

    #[verifier::opaque]
    open spec fn parse(d: Doc, at: Seq<char>) -> Result<Doc, Fault> {
        match d {
            Doc::Object(m) => {
                let chat_id = field::<i64>(m, "chatId"@);
                let query = field::<String>(m, "query"@);
                let from_event_id = wide_field(m, "fromEventId"@);
                let limit = field::<i32>(m, "limit"@);
                let filters = field::<ChatEventLogFilters>(m, "filters"@);
                let user_ids = field::<Vec<i32>>(m, "userIds"@);
                if chat_id is Err {
                    chat_id
                } else if query is Err {
                    query
                } else if from_event_id is Err {
                    from_event_id
                } else if limit is Err {
                    limit
                } else if filters is Err {
                    filters
                } else if user_ids is Err {
                    user_ids
                } else {
                    Ok(
                        tagged(
                            Map::empty()
                                .insert("chatId"@, chat_id->Ok_0)
                                .insert("query"@, query->Ok_0)
                                .insert("fromEventId"@, from_event_id->Ok_0)
                                .insert("limit"@, limit->Ok_0)
                                .insert("filters"@, filters->Ok_0)
                                .insert("userIds"@, user_ids->Ok_0),
                            "getChatEventLog"@,
                        ),
                    )
                }
            },
            _ => Err(Fault::TypeMismatch(at)),
        }
    }

    fn encode(&self) -> (j: Json) {
        proof {
            reveal(<GetChatEventLog as Wire>::wire);
        }
        let mut members: Vec<Member> = Vec::new();
        put(&mut members, "chatId", self.chat_id.encode());
        put(&mut members, "query", self.query.encode());
        put(&mut members, "fromEventId", encode_wide(self.from_event_id));
        put(&mut members, "limit", self.limit.encode());
        put(&mut members, "filters", self.filters.encode());
        put(&mut members, "userIds", self.user_ids.encode());
        seal(members, "getChatEventLog")
    }

    fn decode(j: &Json, at: &str) -> (r: Result<Self, DecodeError>) {
        proof {
            reveal(<GetChatEventLog as Wire>::wire);
            reveal(<GetChatEventLog as Wire>::parse);
        }
        let members = members_of(j, at)?;
        let chat_id = read_field::<i64>(members, "chatId")?;
        let query = read_field::<String>(members, "query")?;
        let from_event_id = read_wide(members, "fromEventId")?;
        let limit = read_field::<i32>(members, "limit")?;
        let filters = read_field::<ChatEventLogFilters>(members, "filters")?;
        let user_ids = read_field::<Vec<i32>>(members, "userIds")?;
        Ok(GetChatEventLog { chat_id, query, from_event_id, limit, filters, user_ids })
    }

    proof fn round_trip(&self, at: Seq<char>) {
        reveal(<GetChatEventLog as Wire>::wire);
        reveal(<GetChatEventLog as Wire>::parse);
        reveal_strlit("@type");
        reveal_strlit("chatId");
        reveal_strlit("filters");
        reveal_strlit("fromEventId");
        reveal_strlit("limit");
        reveal_strlit("query");
        reveal_strlit("userIds");
        assert("@type"@.len() == 5 && "@type"@[0] == '@');
        assert("chatId"@.len() == 6);
        assert("filters"@.len() == 7 && "filters"@[0] == 'f');
        assert("fromEventId"@.len() == 11);
        assert("limit"@.len() == 5 && "limit"@[0] == 'l');
        assert("query"@.len() == 5 && "query"@[0] == 'q');
        assert("userIds"@.len() == 7 && "userIds"@[0] == 'u');
        self.chat_id.round_trip("chatId"@);
        self.query.round_trip("query"@);
        lemma_wide_round_trip(self.from_event_id, "fromEventId"@);
        self.limit.round_trip("limit"@);
        self.filters.round_trip("filters"@);
        self.user_ids.round_trip("userIds"@);
    }
}

impl Tagged for GetChatEventLog {
    open spec fn known(tag: Seq<char>) -> bool {
        tag == "getChatEventLog"@
    }

    fn knows(tag: &str) -> (r: bool) {
        same_text(tag, "getChatEventLog")
    }

    proof fn tag_known(&self) {
        reveal(<GetChatEventLog as Wire>::wire);
        assert(tag_of(self.wire()) == Some("getChatEventLog"@));
        assert(Self::known("getChatEventLog"@));
    }
}

impl Method for GetChatEventLog {
    const TYPE: &'static str = "getChatEventLog";

    type Response = ChatEvents;

    proof fn type_is_tag(&self) {
        reveal(<GetChatEventLog as Wire>::wire);
        assert(tag_of(self.wire()) == Some("getChatEventLog"@));
    }
}

/// Returns an invoice payment form. This method should be called when the user presses
/// inlineKeyboardButtonBuy
#[derive(Debug, Clone)]
pub struct GetPaymentForm {
    /// Chat identifier of the Invoice message
    pub chat_id: i64,
    /// Message identifier
    pub message_id: i64,
}

impl Wire for GetPaymentForm {
    #[verifier::opaque]
    open spec fn wire(&self) -> Doc {
        tagged(
            Map::empty()
                .insert("chatId"@, self.chat_id.wire())
                .insert("messageId"@, self.message_id.wire()),
            "getPaymentForm"@,
        )
    }

    #[verifier::opaque]
    open spec fn parse(d: Doc, at: Seq<char>) -> Result<Doc, Fault> {
        match d {
            Doc::Object(m) => {
                let chat_id = field::<i64>(m, "chatId"@);
                let message_id = field::<i64>(m, "messageId"@);
                if chat_id is Err {
                    chat_id
                } else if message_id is Err {
                    message_id
                } else {
                    Ok(
                        tagged(
                            Map::empty()
                                .insert("chatId"@, chat_id->Ok_0)
                                .insert("messageId"@, message_id->Ok_0),
                            "getPaymentForm"@,
                        ),
                    )
                }
            },
            _ => Err(Fault::TypeMismatch(at)),
        }
    }

    fn encode(&self) -> (j: Json) {
        proof {
            reveal(<GetPaymentForm as Wire>::wire);
        }
        let mut members: Vec<Member> = Vec::new();
        put(&mut members, "chatId", self.chat_id.encode());
        put(&mut members, "messageId", self.message_id.encode());
        seal(members, "getPaymentForm")
    }

    fn decode(j: &Json, at: &str) -> (r: Result<Self, DecodeError>) {
        proof {
            reveal(<GetPaymentForm as Wire>::wire);
            reveal(<GetPaymentForm as Wire>::parse);
        }
        let members = members_of(j, at)?;
        let chat_id = read_field::<i64>(members, "chatId")?;
        let message_id = read_field::<i64>(members, "messageId")?;
        Ok(GetPaymentForm { chat_id, message_id })
    }

    proof fn round_trip(&self, at: Seq<char>) {
        reveal(<GetPaymentForm as Wire>::wire);
        reveal(<GetPaymentForm as Wire>::parse);
        reveal_strlit("@type");
        reveal_strlit("chatId");
        reveal_strlit("messageId");
        assert("@type"@.len() == 5);
        assert("chatId"@.len() == 6);
        assert("messageId"@.len() == 9);
        self.chat_id.round_trip("chatId"@);
        self.message_id.round_trip("messageId"@);
    }
}

impl Tagged for GetPaymentForm {
    open spec fn known(tag: Seq<char>) -> bool {
        tag == "getPaymentForm"@
    }

    fn knows(tag: &str) -> (r: bool) {
        same_text(tag, "getPaymentForm")
    }

    proof fn tag_known(&self) {
        reveal(<GetPaymentForm as Wire>::wire);
        assert(tag_of(self.wire()) == Some("getPaymentForm"@));
        assert(Self::known("getPaymentForm"@));
    }
}

impl Method for GetPaymentForm {
    const TYPE: &'static str = "getPaymentForm";

    type Response = PaymentForm;

    proof fn type_is_tag(&self) {
        reveal(<GetPaymentForm as Wire>::wire);
        assert(tag_of(self.wire()) == Some("getPaymentForm"@));
    }
}

/// Validates the order information provided by a user and returns the available shipping options
/// for a flexible invoice
#[derive(Debug, Clone)]
pub struct ValidateOrderInfo {
    /// Chat identifier of the Invoice message
    pub chat_id: i64,
    /// Message identifier
    pub message_id: i64,
    /// The order information, provided by the user
    pub order_info: OrderInfo,
    /// True, if the order information can be saved
    pub allow_save: bool,
}

impl Wire for ValidateOrderInfo {
    #[verifier::opaque]
    open spec fn wire(&self) -> Doc {
        tagged(
            Map::empty()
                .insert("chatId"@, self.chat_id.wire())
                .insert("messageId"@, self.message_id.wire())
                .insert("orderInfo"@, self.order_info.wire())
                .insert("allowSave"@, self.allow_save.wire()),
            "validateOrderInfo"@,
        )
    }

    #[verifier::opaque]
    open spec fn parse(d: Doc, at: Seq<char>) -> Result<Doc, Fault> {
        match d {
            Doc::Object(m) => {
                let chat_id = field::<i64>(m, "chatId"@);
                let message_id = field::<i64>(m, "messageId"@);
                let order_info = field::<OrderInfo>(m, "orderInfo"@);
                let allow_save = field::<bool>(m, "allowSave"@);
                if chat_id is Err {
                    chat_id
                } else if message_id is Err {
                    message_id
                } else if order_info is Err {
                    order_info
                } else if allow_save is Err {
                    allow_save
                } else {
                    Ok(
                        tagged(
                            Map::empty()
                                .insert("chatId"@, chat_id->Ok_0)
                                .insert("messageId"@, message_id->Ok_0)
                                .insert("orderInfo"@, order_info->Ok_0)
                                .insert("allowSave"@, allow_save->Ok_0),
                            "validateOrderInfo"@,
                        ),
                    )
                }
            },
            _ => Err(Fault::TypeMismatch(at)),
        }
    }

    fn encode(&self) -> (j: Json) {
        proof {
            reveal(<ValidateOrderInfo as Wire>::wire);
        }
        let mut members: Vec<Member> = Vec::new();
        put(&mut members, "chatId", self.chat_id.encode());
        put(&mut members, "messageId", self.message_id.encode());
        put(&mut members, "orderInfo", self.order_info.encode());
        put(&mut members, "allowSave", self.allow_save.encode());
        seal(members, "validateOrderInfo")
    }

    fn decode(j: &Json, at: &str) -> (r: Result<Self, DecodeError>) {
        proof {
            reveal(<ValidateOrderInfo as Wire>::wire);
            reveal(<ValidateOrderInfo as Wire>::parse);
        }
        let members = members_of(j, at)?;
        let chat_id = read_field::<i64>(members, "chatId")?;
        let message_id = read_field::<i64>(members, "messageId")?;
        let order_info = read_field::<OrderInfo>(members, "orderInfo")?;
        let allow_save = read_field::<bool>(members, "allowSave")?;
        Ok(ValidateOrderInfo { chat_id, message_id, order_info, allow_save })
    }

    proof fn round_trip(&self, at: Seq<char>) {
        reveal(<ValidateOrderInfo as Wire>::wire);
        reveal(<ValidateOrderInfo as Wire>::parse);
        reveal_strlit("@type");
        reveal_strlit("allowSave");
        reveal_strlit("chatId");
        reveal_strlit("messageId");
        reveal_strlit("orderInfo");
        assert("@type"@.len() == 5);
        assert("allowSave"@.len() == 9 && "allowSave"@[0] == 'a');
        assert("chatId"@.len() == 6);
        assert("messageId"@.len() == 9 && "messageId"@[0] == 'm');
        assert("orderInfo"@.len() == 9 && "orderInfo"@[0] == 'o');
        self.chat_id.round_trip("chatId"@);
        self.message_id.round_trip("messageId"@);
        self.order_info.round_trip("orderInfo"@);
        self.allow_save.round_trip("allowSave"@);
    }
}

impl Tagged for ValidateOrderInfo {
    open spec fn known(tag: Seq<char>) -> bool {
        tag == "validateOrderInfo"@
    }

    fn knows(tag: &str) -> (r: bool) {
        same_text(tag, "validateOrderInfo")
    }

    proof fn tag_known(&self) {
        reveal(<ValidateOrderInfo as Wire>::wire);
        assert(tag_of(self.wire()) == Some("validateOrderInfo"@));
        assert(Self::known("validateOrderInfo"@));
    }
}

impl Method for ValidateOrderInfo {
    const TYPE: &'static str = "validateOrderInfo";

    type Response = ValidatedOrderInfo;

    proof fn type_is_tag(&self) {
        reveal(<ValidateOrderInfo as Wire>::wire);
        assert(tag_of(self.wire()) == Some("validateOrderInfo"@));
    }
}

/// Sends a filled-out payment form to the bot for final verification
#[derive(Debug, Clone)]
pub struct SendPaymentForm {
    /// Chat identifier of the Invoice message
    pub chat_id: i64,
    /// Message identifier
    pub message_id: i64,
    /// Identifier returned by ValidateOrderInfo, or an empty string
    pub order_info_id: String,
    /// Identifier of a chosen shipping option, if applicable
    pub shipping_option_id: String,
    /// The credentials chosen by user for payment
    pub credentials: InputCredentials,
}

impl Wire for SendPaymentForm {
    #[verifier::opaque]
    open spec fn wire(&self) -> Doc {
        tagged(
            Map::empty()
                .insert("chatId"@, self.chat_id.wire())
                .insert("messageId"@, self.message_id.wire())
                .insert("orderInfoId"@, self.order_info_id.wire())
                .insert("shippingOptionId"@, self.shipping_option_id.wire())
                .insert("credentials"@, self.credentials.wire()),
            "sendPaymentForm"@,
        )
    }

    #[verifier::opaque]
    open spec fn parse(d: Doc, at: Seq<char>) -> Result<Doc, Fault> {
        match d {
            Doc::Object(m) => {
                let chat_id = field::<i64>(m, "chatId"@);
                let message_id = field::<i64>(m, "messageId"@);
                let order_info_id = field::<String>(m, "orderInfoId"@);
                let shipping_option_id = field::<String>(m, "shippingOptionId"@);
                let credentials = field::<InputCredentials>(m, "credentials"@);
                if chat_id is Err {
                    chat_id
                } else if message_id is Err {
                    message_id
                } else if order_info_id is Err {
                    order_info_id
                } else if shipping_option_id is Err {
                    shipping_option_id
                } else if credentials is Err {
                    credentials
                } else {
                    Ok(
                        tagged(
                            Map::empty()
                                .insert("chatId"@, chat_id->Ok_0)
                                .insert("messageId"@, message_id->Ok_0)
                                .insert("orderInfoId"@, order_info_id->Ok_0)
                                .insert("shippingOptionId"@, shipping_option_id->Ok_0)
                                .insert("credentials"@, credentials->Ok_0),
                            "sendPaymentForm"@,
                        ),
                    )
                }
            },
            _ => Err(Fault::TypeMismatch(at)),
        }
    }

    fn encode(&self) -> (j: Json) {
        proof {
            reveal(<SendPaymentForm as Wire>::wire);
        }
        let mut members: Vec<Member> = Vec::new();
        put(&mut members, "chatId", self.chat_id.encode());
        put(&mut members, "messageId", self.message_id.encode());
        put(&mut members, "orderInfoId", self.order_info_id.encode());
        put(&mut members, "shippingOptionId", self.shipping_option_id.encode());
        put(&mut members, "credentials", self.credentials.encode());
        seal(members, "sendPaymentForm")
    }

    fn decode(j: &Json, at: &str) -> (r: Result<Self, DecodeError>) {
        proof {
            reveal(<SendPaymentForm as Wire>::wire);
            reveal(<SendPaymentForm as Wire>::parse);
        }
        let members = members_of(j, at)?;
        let chat_id = read_field::<i64>(members, "chatId")?;
        let message_id = read_field::<i64>(members, "messageId")?;
        let order_info_id = read_field::<String>(members, "orderInfoId")?;
        let shipping_option_id = read_field::<String>(members, "shippingOptionId")?;
        let credentials = read_field::<InputCredentials>(members, "credentials")?;
        Ok(SendPaymentForm { chat_id, message_id, order_info_id, shipping_option_id, credentials })
    }

    proof fn round_trip(&self, at: Seq<char>) {
        reveal(<SendPaymentForm as Wire>::wire);
        reveal(<SendPaymentForm as Wire>::parse);
        reveal_strlit("@type");
        reveal_strlit("chatId");
        reveal_strlit("credentials");
        reveal_strlit("messageId");
        reveal_strlit("orderInfoId");
        reveal_strlit("shippingOptionId");
        assert("@type"@.len() == 5);
        assert("chatId"@.len() == 6);
        assert("credentials"@.len() == 11 && "credentials"@[0] == 'c');
        assert("messageId"@.len() == 9);
        assert("orderInfoId"@.len() == 11 && "orderInfoId"@[0] == 'o');
        assert("shippingOptionId"@.len() == 16);
        self.chat_id.round_trip("chatId"@);
        self.message_id.round_trip("messageId"@);
        self.order_info_id.round_trip("orderInfoId"@);
        self.shipping_option_id.round_trip("shippingOptionId"@);
        self.credentials.round_trip("credentials"@);
    }
}

impl Tagged for SendPaymentForm {
    open spec fn known(tag: Seq<char>) -> bool {
        tag == "sendPaymentForm"@
    }

    fn knows(tag: &str) -> (r: bool) {
        same_text(tag, "sendPaymentForm")
    }

    proof fn tag_known(&self) {
        reveal(<SendPaymentForm as Wire>::wire);
        assert(tag_of(self.wire()) == Some("sendPaymentForm"@));
        assert(Self::known("sendPaymentForm"@));
    }
}

impl Method for SendPaymentForm {
    const TYPE: &'static str = "sendPaymentForm";

    type Response = PaymentResult;

    proof fn type_is_tag(&self) {
        reveal(<SendPaymentForm as Wire>::wire);
        assert(tag_of(self.wire()) == Some("sendPaymentForm"@));
    }
}

/// Returns information about a successful payment
#[derive(Debug, Clone)]
pub struct GetPaymentReceipt {
    /// Chat identifier of the PaymentSuccessful message
    pub chat_id: i64,
    /// Message identifier
    pub message_id: i64,
}

impl Wire for GetPaymentReceipt {
    #[verifier::opaque]
    open spec fn wire(&self) -> Doc {
        tagged(
            Map::empty()
                .insert("chatId"@, self.chat_id.wire())
                .insert("messageId"@, self.message_id.wire()),
            "getPaymentReceipt"@,
        )
    }

    #[verifier::opaque]
    open spec fn parse(d: Doc, at: Seq<char>) -> Result<Doc, Fault> {
        match d {
            Doc::Object(m) => {
                let chat_id = field::<i64>(m, "chatId"@);
                let message_id = field::<i64>(m, "messageId"@);
                if chat_id is Err {
                    chat_id
                } else if message_id is Err {
                    message_id
                } else {
                    Ok(
                        tagged(
                            Map::empty()
                                .insert("chatId"@, chat_id->Ok_0)
                                .insert("messageId"@, message_id->Ok_0),
                            "getPaymentReceipt"@,
                        ),
                    )
                }
            },
            _ => Err(Fault::TypeMismatch(at)),
        }
    }

    fn encode(&self) -> (j: Json) {
        proof {
            reveal(<GetPaymentReceipt as Wire>::wire);
        }
        let mut members: Vec<Member> = Vec::new();
        put(&mut members, "chatId", self.chat_id.encode());
        put(&mut members, "messageId", self.message_id.encode());
        seal(members, "getPaymentReceipt")
    }

    fn decode(j: &Json, at: &str) -> (r: Result<Self, DecodeError>) {
        proof {
            reveal(<GetPaymentReceipt as Wire>::wire);
            reveal(<GetPaymentReceipt as Wire>::parse);
        }
        let members = members_of(j, at)?;
        let chat_id = read_field::<i64>(members, "chatId")?;
        let message_id = read_field::<i64>(members, "messageId")?;
        Ok(GetPaymentReceipt { chat_id, message_id })
    }

    proof fn round_trip(&self, at: Seq<char>) {
        reveal(<GetPaymentReceipt as Wire>::wire);
        reveal(<GetPaymentReceipt as Wire>::parse);
        reveal_strlit("@type");
        reveal_strlit("chatId");
        reveal_strlit("messageId");
        assert("@type"@.len() == 5);
        assert("chatId"@.len() == 6);
        assert("messageId"@.len() == 9);
        self.chat_id.round_trip("chatId"@);
        self.message_id.round_trip("messageId"@);
    }
}

impl Tagged for GetPaymentReceipt {
    open spec fn known(tag: Seq<char>) -> bool {
        tag == "getPaymentReceipt"@
    }

    fn knows(tag: &str) -> (r: bool) {
        same_text(tag, "getPaymentReceipt")
    }

    proof fn tag_known(&self) {
        reveal(<GetPaymentReceipt as Wire>::wire);
        assert(tag_of(self.wire()) == Some("getPaymentReceipt"@));
        assert(Self::known("getPaymentReceipt"@));
    }
}

impl Method for GetPaymentReceipt {
    const TYPE: &'static str = "getPaymentReceipt";

    type Response = PaymentReceipt;

    proof fn type_is_tag(&self) {
        reveal(<GetPaymentReceipt as Wire>::wire);
        assert(tag_of(self.wire()) == Some("getPaymentReceipt"@));
    }
}

/// Returns saved order info, if any
#[derive(Debug, Clone)]
pub struct GetSavedOrderInfo {}

impl Wire for GetSavedOrderInfo {
    #[verifier::opaque]
    open spec fn wire(&self) -> Doc {
        tagged(Map::empty(), "getSavedOrderInfo"@)
    }

    #[verifier::opaque]
    open spec fn parse(d: Doc, at: Seq<char>) -> Result<Doc, Fault> {
        match d {
            Doc::Object(_) => Ok(tagged(Map::empty(), "getSavedOrderInfo"@)),
            _ => Err(Fault::TypeMismatch(at)),
        }
    }

    fn encode(&self) -> (j: Json) {
        proof {
            reveal(<GetSavedOrderInfo as Wire>::wire);
        }
        seal(Vec::new(), "getSavedOrderInfo")
    }

    fn decode(j: &Json, at: &str) -> (r: Result<Self, DecodeError>) {
        proof {
            reveal(<GetSavedOrderInfo as Wire>::wire);
            reveal(<GetSavedOrderInfo as Wire>::parse);
        }
        let _ = members_of(j, at)?;
        Ok(GetSavedOrderInfo {})
    }

    proof fn round_trip(&self, at: Seq<char>) {
        reveal(<GetSavedOrderInfo as Wire>::wire);
        reveal(<GetSavedOrderInfo as Wire>::parse);
    }
}

impl Tagged for GetSavedOrderInfo {
    open spec fn known(tag: Seq<char>) -> bool {
        tag == "getSavedOrderInfo"@
    }

    fn knows(tag: &str) -> (r: bool) {
        same_text(tag, "getSavedOrderInfo")
    }

    proof fn tag_known(&self) {
        reveal(<GetSavedOrderInfo as Wire>::wire);
        assert(tag_of(self.wire()) == Some("getSavedOrderInfo"@));
        assert(Self::known("getSavedOrderInfo"@));
    }
}

impl Method for GetSavedOrderInfo {
    const TYPE: &'static str = "getSavedOrderInfo";

    type Response = OrderInfo;

    proof fn type_is_tag(&self) {
        reveal(<GetSavedOrderInfo as Wire>::wire);
        assert(tag_of(self.wire()) == Some("getSavedOrderInfo"@));
    }
}

/// Deletes saved order info
#[derive(Debug, Clone)]
pub struct DeleteSavedOrderInfo {}

impl Wire for DeleteSavedOrderInfo {
    #[verifier::opaque]
    open spec fn wire(&self) -> Doc {
        tagged(Map::empty(), "deleteSavedOrderInfo"@)
    }

    #[verifier::opaque]
    open spec fn parse(d: Doc, at: Seq<char>) -> Result<Doc, Fault> {
        match d {
            Doc::Object(_) => Ok(tagged(Map::empty(), "deleteSavedOrderInfo"@)),
            _ => Err(Fault::TypeMismatch(at)),
        }
    }

    fn encode(&self) -> (j: Json) {
        proof {
            reveal(<DeleteSavedOrderInfo as Wire>::wire);
        }
        seal(Vec::new(), "deleteSavedOrderInfo")
    }

    fn decode(j: &Json, at: &str) -> (r: Result<Self, DecodeError>) {
        proof {
            reveal(<DeleteSavedOrderInfo as Wire>::wire);
            reveal(<DeleteSavedOrderInfo as Wire>::parse);
        }
        let _ = members_of(j, at)?;
        Ok(DeleteSavedOrderInfo {})
    }

    proof fn round_trip(&self, at: Seq<char>) {
        reveal(<DeleteSavedOrderInfo as Wire>::wire);
        reveal(<DeleteSavedOrderInfo as Wire>::parse);
    }
}

impl Tagged for DeleteSavedOrderInfo {
    open spec fn known(tag: Seq<char>) -> bool {
        tag == "deleteSavedOrderInfo"@
    }

    fn knows(tag: &str) -> (r: bool) {
        same_text(tag, "deleteSavedOrderInfo")
    }

    proof fn tag_known(&self) {
        reveal(<DeleteSavedOrderInfo as Wire>::wire);
        assert(tag_of(self.wire()) == Some("deleteSavedOrderInfo"@));
        assert(Self::known("deleteSavedOrderInfo"@));
    }
}

impl Method for DeleteSavedOrderInfo {
    const TYPE: &'static str = "deleteSavedOrderInfo";

    type Response = Okay;

    proof fn type_is_tag(&self) {
        reveal(<DeleteSavedOrderInfo as Wire>::wire);
        assert(tag_of(self.wire()) == Some("deleteSavedOrderInfo"@));
    }
}

/// Deletes saved credentials for all payment provider bots
#[derive(Debug, Clone)]
pub struct DeleteSavedCredentials {}

impl Wire for DeleteSavedCredentials {
    #[verifier::opaque]
    open spec fn wire(&self) -> Doc {
        tagged(Map::empty(), "deleteSavedCredentials"@)
    }

    #[verifier::opaque]
    open spec fn parse(d: Doc, at: Seq<char>) -> Result<Doc, Fault> {
        match d {
            Doc::Object(_) => Ok(tagged(Map::empty(), "deleteSavedCredentials"@)),
            _ => Err(Fault::TypeMismatch(at)),
        }
    }

    fn encode(&self) -> (j: Json) {
        proof {
            reveal(<DeleteSavedCredentials as Wire>::wire);
        }
        seal(Vec::new(), "deleteSavedCredentials")
    }

    fn decode(j: &Json, at: &str) -> (r: Result<Self, DecodeError>) {
        proof {
            reveal(<DeleteSavedCredentials as Wire>::wire);
            reveal(<DeleteSavedCredentials as Wire>::parse);
        }
        let _ = members_of(j, at)?;
        Ok(DeleteSavedCredentials {})
    }

    proof fn round_trip(&self, at: Seq<char>) {
        reveal(<DeleteSavedCredentials as Wire>::wire);
        reveal(<DeleteSavedCredentials as Wire>::parse);
    }
}

impl Tagged for DeleteSavedCredentials {
    open spec fn known(tag: Seq<char>) -> bool {
        tag == "deleteSavedCredentials"@
    }

    fn knows(tag: &str) -> (r: bool) {
        same_text(tag, "deleteSavedCredentials")
    }

    proof fn tag_known(&self) {
        reveal(<DeleteSavedCredentials as Wire>::wire);
        assert(tag_of(self.wire()) == Some("deleteSavedCredentials"@));
        assert(Self::known("deleteSavedCredentials"@));
    }
}

impl Method for DeleteSavedCredentials {
    const TYPE: &'static str = "deleteSavedCredentials";

    type Response = Okay;

    proof fn type_is_tag(&self) {
        reveal(<DeleteSavedCredentials as Wire>::wire);
        assert(tag_of(self.wire()) == Some("deleteSavedCredentials"@));
    }
}

/// Returns a user that can be contacted to get support
#[derive(Debug, Clone)]
pub struct GetSupportUser {}

impl Wire for GetSupportUser {
    #[verifier::opaque]
    open spec fn wire(&self) -> Doc {
        tagged(Map::empty(), "getSupportUser"@)
    }

    #[verifier::opaque]
    open spec fn parse(d: Doc, at: Seq<char>) -> Result<Doc, Fault> {
        match d {
            Doc::Object(_) => Ok(tagged(Map::empty(), "getSupportUser"@)),
            _ => Err(Fault::TypeMismatch(at)),
        }
    }

    fn encode(&self) -> (j: Json) {
        proof {
            reveal(<GetSupportUser as Wire>::wire);
        }
        seal(Vec::new(), "getSupportUser")
    }

    fn decode(j: &Json, at: &str) -> (r: Result<Self, DecodeError>) {
        proof {
            reveal(<GetSupportUser as Wire>::wire);
            reveal(<GetSupportUser as Wire>::parse);
        }
        let _ = members_of(j, at)?;
        Ok(GetSupportUser {})
    }

    proof fn round_trip(&self, at: Seq<char>) {
        reveal(<GetSupportUser as Wire>::wire);
        reveal(<GetSupportUser as Wire>::parse);
    }
}

impl Tagged for GetSupportUser {
    open spec fn known(tag: Seq<char>) -> bool {
        tag == "getSupportUser"@
    }

    fn knows(tag: &str) -> (r: bool) {
        same_text(tag, "getSupportUser")
    }

    proof fn tag_known(&self) {
        reveal(<GetSupportUser as Wire>::wire);
        assert(tag_of(self.wire()) == Some("getSupportUser"@));
        assert(Self::known("getSupportUser"@));
    }
}

impl Method for GetSupportUser {
    const TYPE: &'static str = "getSupportUser";

    type Response = User;

    proof fn type_is_tag(&self) {
        reveal(<GetSupportUser as Wire>::wire);
        assert(tag_of(self.wire()) == Some("getSupportUser"@));
    }
}

/// Returns backgrounds installed by the user
#[derive(Debug, Clone)]
pub struct GetBackgrounds {
    /// True, if the backgrounds needs to be ordered for dark theme
    pub for_dark_theme: bool,
}

impl Wire for GetBackgrounds {
    #[verifier::opaque]
    open spec fn wire(&self) -> Doc {
        tagged(
            Map::empty()
                .insert("forDarkTheme"@, self.for_dark_theme.wire()),
            "getBackgrounds"@,
        )
    }

    #[verifier::opaque]
    open spec fn parse(d: Doc, at: Seq<char>) -> Result<Doc, Fault> {
        match d {
            Doc::Object(m) => {
                let for_dark_theme = field::<bool>(m, "forDarkTheme"@);
                if for_dark_theme is Err {
                    for_dark_theme
                } else {
                    Ok(
                        tagged(
                            Map::empty()
                                .insert("forDarkTheme"@, for_dark_theme->Ok_0),
                            "getBackgrounds"@,
                        ),
                    )
                }
            },
            _ => Err(Fault::TypeMismatch(at)),
        }
    }

    fn encode(&self) -> (j: Json) {
        proof {
            reveal(<GetBackgrounds as Wire>::wire);
        }
        let mut members: Vec<Member> = Vec::new();
        put(&mut members, "forDarkTheme", self.for_dark_theme.encode());
        seal(members, "getBackgrounds")
    }

    fn decode(j: &Json, at: &str) -> (r: Result<Self, DecodeError>) {
        proof {
            reveal(<GetBackgrounds as Wire>::wire);
            reveal(<GetBackgrounds as Wire>::parse);
        }
        let members = members_of(j, at)?;
        let for_dark_theme = read_field::<bool>(members, "forDarkTheme")?;
        Ok(GetBackgrounds { for_dark_theme })
    }

    proof fn round_trip(&self, at: Seq<char>) {
        reveal(<GetBackgrounds as Wire>::wire);
        reveal(<GetBackgrounds as Wire>::parse);
        reveal_strlit("@type");
        reveal_strlit("forDarkTheme");
        assert("@type"@.len() == 5);
        assert("forDarkTheme"@.len() == 12);
        self.for_dark_theme.round_trip("forDarkTheme"@);
    }
}

impl Tagged for GetBackgrounds {
    open spec fn known(tag: Seq<char>) -> bool {
        tag == "getBackgrounds"@
    }

    fn knows(tag: &str) -> (r: bool) {
        same_text(tag, "getBackgrounds")
    }

    proof fn tag_known(&self) {
        reveal(<GetBackgrounds as Wire>::wire);
        assert(tag_of(self.wire()) == Some("getBackgrounds"@));
        assert(Self::known("getBackgrounds"@));
    }
}

impl Method for GetBackgrounds {
    const TYPE: &'static str = "getBackgrounds";

    type Response = Backgrounds;

    proof fn type_is_tag(&self) {
        reveal(<GetBackgrounds as Wire>::wire);
        assert(tag_of(self.wire()) == Some("getBackgrounds"@));
    }
}

/// Constructs a persistent HTTP URL for a background
#[derive(Debug, Clone)]
pub struct GetBackgroundUrl {
    /// Background name
    pub name: String,
    /// Background type
    pub type_: BackgroundType,
}

impl Wire for GetBackgroundUrl {
    #[verifier::opaque]
    open spec fn wire(&self) -> Doc {
        tagged(
            Map::empty()
                .insert("name"@, self.name.wire())
                .insert("type"@, self.type_.wire()),
            "getBackgroundUrl"@,
        )
    }

    #[verifier::opaque]
    open spec fn parse(d: Doc, at: Seq<char>) -> Result<Doc, Fault> {
        match d {
            Doc::Object(m) => {
                let name = field::<String>(m, "name"@);
                let type_ = field::<BackgroundType>(m, "type"@);
                if name is Err {
                    name
                } else if type_ is Err {
                    type_
                } else {
                    Ok(
                        tagged(
                            Map::empty()
                                .insert("name"@, name->Ok_0)
                                .insert("type"@, type_->Ok_0),
                            "getBackgroundUrl"@,
                        ),
                    )
                }
            },
            _ => Err(Fault::TypeMismatch(at)),
        }
    }

    fn encode(&self) -> (j: Json) {
        proof {
            reveal(<GetBackgroundUrl as Wire>::wire);
        }
        let mut members: Vec<Member> = Vec::new();
        put(&mut members, "name", self.name.encode());
        put(&mut members, "type", self.type_.encode());
        seal(members, "getBackgroundUrl")
    }

    fn decode(j: &Json, at: &str) -> (r: Result<Self, DecodeError>) {
        proof {
            reveal(<GetBackgroundUrl as Wire>::wire);
            reveal(<GetBackgroundUrl as Wire>::parse);
        }
        let members = members_of(j, at)?;
        let name = read_field::<String>(members, "name")?;
        let type_ = read_field::<BackgroundType>(members, "type")?;
        Ok(GetBackgroundUrl { name, type_ })
    }

    proof fn round_trip(&self, at: Seq<char>) {
        reveal(<GetBackgroundUrl as Wire>::wire);
        reveal(<GetBackgroundUrl as Wire>::parse);
        reveal_strlit("@type");
        reveal_strlit("name");
        reveal_strlit("type");
        assert("@type"@.len() == 5);
        assert("name"@.len() == 4 && "name"@[0] == 'n');
        assert("type"@.len() == 4 && "type"@[0] == 't');
        self.name.round_trip("name"@);
        self.type_.round_trip("type"@);
    }
}

impl Tagged for GetBackgroundUrl {
    open spec fn known(tag: Seq<char>) -> bool {
        tag == "getBackgroundUrl"@
    }

    fn knows(tag: &str) -> (r: bool) {
        same_text(tag, "getBackgroundUrl")
    }

    proof fn tag_known(&self) {
        reveal(<GetBackgroundUrl as Wire>::wire);
        assert(tag_of(self.wire()) == Some("getBackgroundUrl"@));
        assert(Self::known("getBackgroundUrl"@));
    }
}

impl Method for GetBackgroundUrl {
    const TYPE: &'static str = "getBackgroundUrl";

    type Response = HttpUrl;

    proof fn type_is_tag(&self) {
        reveal(<GetBackgroundUrl as Wire>::wire);
        assert(tag_of(self.wire()) == Some("getBackgroundUrl"@));
    }
}

/// Searches for a background by its name
#[derive(Debug, Clone)]
pub struct SearchBackground {
    /// The name of the background
    pub name: String,
}

impl Wire for SearchBackground {
    #[verifier::opaque]
    open spec fn wire(&self) -> Doc {
        tagged(
            Map::empty()
                .insert("name"@, self.name.wire()),
            "searchBackground"@,
        )
    }

    #[verifier::opaque]
    open spec fn parse(d: Doc, at: Seq<char>) -> Result<Doc, Fault> {
        match d {
            Doc::Object(m) => {
                let name = field::<String>(m, "name"@);
                if name is Err {
                    name
                } else {
                    Ok(
                        tagged(
                            Map::empty()
                                .insert("name"@, name->Ok_0),
                            "searchBackground"@,
                        ),
                    )
                }
            },
            _ => Err(Fault::TypeMismatch(at)),
        }
    }

    fn encode(&self) -> (j: Json) {
        proof {
            reveal(<SearchBackground as Wire>::wire);
        }
        let mut members: Vec<Member> = Vec::new();
        put(&mut members, "name", self.name.encode());
        seal(members, "searchBackground")
    }

    fn decode(j: &Json, at: &str) -> (r: Result<Self, DecodeError>) {
        proof {
            reveal(<SearchBackground as Wire>::wire);
            reveal(<SearchBackground as Wire>::parse);
        }
        let members = members_of(j, at)?;
        let name = read_field::<String>(members, "name")?;
        Ok(SearchBackground { name })
    }

    proof fn round_trip(&self, at: Seq<char>) {
        reveal(<SearchBackground as Wire>::wire);
        reveal(<SearchBackground as Wire>::parse);
        reveal_strlit("@type");
        reveal_strlit("name");
        assert("@type"@.len() == 5);
        assert("name"@.len() == 4);
        self.name.round_trip("name"@);
    }
}

impl Tagged for SearchBackground {
    open spec fn known(tag: Seq<char>) -> bool {
        tag == "searchBackground"@
    }

    fn knows(tag: &str) -> (r: bool) {
        same_text(tag, "searchBackground")
    }

    proof fn tag_known(&self) {
        reveal(<SearchBackground as Wire>::wire);
        assert(tag_of(self.wire()) == Some("searchBackground"@));
        assert(Self::known("searchBackground"@));
    }
}

impl Method for SearchBackground {
    const TYPE: &'static str = "searchBackground";

    type Response = Background;

    proof fn type_is_tag(&self) {
        reveal(<SearchBackground as Wire>::wire);
        assert(tag_of(self.wire()) == Some("searchBackground"@));
    }
}

/// Changes the background selected by the user; adds background to the list of installed
/// backgrounds
#[derive(Debug, Clone)]
pub struct SetBackground {
    /// The input background to use, null for filled backgrounds
    pub background: InputBackground,
    /// Background type; null for default background. The method will return error 404 if type is
    /// null
    pub type_: BackgroundType,
    /// True, if the background is chosen for dark theme
    pub for_dark_theme: bool,
}

impl Wire for SetBackground {
    #[verifier::opaque]
    open spec fn wire(&self) -> Doc {
        tagged(
            Map::empty()
                .insert("background"@, self.background.wire())
                .insert("type"@, self.type_.wire())
                .insert("forDarkTheme"@, self.for_dark_theme.wire()),
            "setBackground"@,
        )
    }

    #[verifier::opaque]
    open spec fn parse(d: Doc, at: Seq<char>) -> Result<Doc, Fault> {
        match d {
            Doc::Object(m) => {
                let background = field::<InputBackground>(m, "background"@);
                let type_ = field::<BackgroundType>(m, "type"@);
                let for_dark_theme = field::<bool>(m, "forDarkTheme"@);
                if background is Err {
                    background
                } else if type_ is Err {
                    type_
                } else if for_dark_theme is Err {
                    for_dark_theme
                } else {
                    Ok(
                        tagged(
                            Map::empty()
                                .insert("background"@, background->Ok_0)
                                .insert("type"@, type_->Ok_0)
                                .insert("forDarkTheme"@, for_dark_theme->Ok_0),
                            "setBackground"@,
                        ),
                    )
                }
            },
            _ => Err(Fault::TypeMismatch(at)),
        }
    }

    fn encode(&self) -> (j: Json) {
        proof {
            reveal(<SetBackground as Wire>::wire);
        }
        let mut members: Vec<Member> = Vec::new();
        put(&mut members, "background", self.background.encode());
        put(&mut members, "type", self.type_.encode());
        put(&mut members, "forDarkTheme", self.for_dark_theme.encode());
        seal(members, "setBackground")
    }

    fn decode(j: &Json, at: &str) -> (r: Result<Self, DecodeError>) {
        proof {
            reveal(<SetBackground as Wire>::wire);
            reveal(<SetBackground as Wire>::parse);
        }
        let members = members_of(j, at)?;
        let background = read_field::<InputBackground>(members, "background")?;
        let type_ = read_field::<BackgroundType>(members, "type")?;
        let for_dark_theme = read_field::<bool>(members, "forDarkTheme")?;
        Ok(SetBackground { background, type_, for_dark_theme })
    }

    proof fn round_trip(&self, at: Seq<char>) {
        reveal(<SetBackground as Wire>::wire);
        reveal(<SetBackground as Wire>::parse);
        reveal_strlit("@type");
        reveal_strlit("background");
        reveal_strlit("forDarkTheme");
        reveal_strlit("type");
        assert("@type"@.len() == 5);
        assert("background"@.len() == 10);
        assert("forDarkTheme"@.len() == 12);
        assert("type"@.len() == 4);
        self.background.round_trip("background"@);
        self.type_.round_trip("type"@);
        self.for_dark_theme.round_trip("forDarkTheme"@);
    }
}

impl Tagged for SetBackground {
    open spec fn known(tag: Seq<char>) -> bool {
        tag == "setBackground"@
    }

    fn knows(tag: &str) -> (r: bool) {
        same_text(tag, "setBackground")
    }

    proof fn tag_known(&self) {
        reveal(<SetBackground as Wire>::wire);
        assert(tag_of(self.wire()) == Some("setBackground"@));
        assert(Self::known("setBackground"@));
    }
}

impl Method for SetBackground {
    const TYPE: &'static str = "setBackground";

    type Response = Background;

    proof fn type_is_tag(&self) {
        reveal(<SetBackground as Wire>::wire);
        assert(tag_of(self.wire()) == Some("setBackground"@));
    }
}

/// Removes background from the list of installed backgrounds
#[derive(Debug, Clone)]
pub struct RemoveBackground {
    /// The background identifier
    pub background_id: i64,
}

impl Wire for RemoveBackground {
    #[verifier::opaque]
    open spec fn wire(&self) -> Doc {
        tagged(
            Map::empty()
                .insert("backgroundId"@, wide_doc(self.background_id)),
            "removeBackground"@,
        )
    }

    #[verifier::opaque]
    open spec fn parse(d: Doc, at: Seq<char>) -> Result<Doc, Fault> {
        match d {
            Doc::Object(m) => {
                let background_id = wide_field(m, "backgroundId"@);
                if background_id is Err {
                    background_id
                } else {
                    Ok(
                        tagged(
                            Map::empty()
                                .insert("backgroundId"@, background_id->Ok_0),
                            "removeBackground"@,
                        ),
                    )
                }
            },
            _ => Err(Fault::TypeMismatch(at)),
        }
    }

    fn encode(&self) -> (j: Json) {
        proof {
            reveal(<RemoveBackground as Wire>::wire);
        }
        let mut members: Vec<Member> = Vec::new();
        put(&mut members, "backgroundId", encode_wide(self.background_id));
        seal(members, "removeBackground")
    }

    fn decode(j: &Json, at: &str) -> (r: Result<Self, DecodeError>) {
        proof {
            reveal(<RemoveBackground as Wire>::wire);
            reveal(<RemoveBackground as Wire>::parse);
        }
        let members = members_of(j, at)?;
        let background_id = read_wide(members, "backgroundId")?;
        Ok(RemoveBackground { background_id })
    }

    proof fn round_trip(&self, at: Seq<char>) {
        reveal(<RemoveBackground as Wire>::wire);
        reveal(<RemoveBackground as Wire>::parse);
        reveal_strlit("@type");
        reveal_strlit("backgroundId");
        assert("@type"@.len() == 5);
        assert("backgroundId"@.len() == 12);
        lemma_wide_round_trip(self.background_id, "backgroundId"@);
    }
}

impl Tagged for RemoveBackground {
    open spec fn known(tag: Seq<char>) -> bool {
        tag == "removeBackground"@
    }

    fn knows(tag: &str) -> (r: bool) {
        same_text(tag, "removeBackground")
    }

    proof fn tag_known(&self) {
        reveal(<RemoveBackground as Wire>::wire);
        assert(tag_of(self.wire()) == Some("removeBackground"@));
        assert(Self::known("removeBackground"@));
    }
}

impl Method for RemoveBackground {
    const TYPE: &'static str = "removeBackground";

    type Response = Okay;

    proof fn type_is_tag(&self) {
        reveal(<RemoveBackground as Wire>::wire);
        assert(tag_of(self.wire()) == Some("removeBackground"@));
    }
}

/// Resets list of installed backgrounds to its default value
#[derive(Debug, Clone)]
pub struct ResetBackgrounds {}

impl Wire for ResetBackgrounds {
    #[verifier::opaque]
    open spec fn wire(&self) -> Doc {
        tagged(Map::empty(), "resetBackgrounds"@)
    }

    #[verifier::opaque]
    open spec fn parse(d: Doc, at: Seq<char>) -> Result<Doc, Fault> {
        match d {
            Doc::Object(_) => Ok(tagged(Map::empty(), "resetBackgrounds"@)),
            _ => Err(Fault::TypeMismatch(at)),
        }
    }

    fn encode(&self) -> (j: Json) {
        proof {
            reveal(<ResetBackgrounds as Wire>::wire);
        }
        seal(Vec::new(), "resetBackgrounds")
    }

    fn decode(j: &Json, at: &str) -> (r: Result<Self, DecodeError>) {
        proof {
            reveal(<ResetBackgrounds as Wire>::wire);
            reveal(<ResetBackgrounds as Wire>::parse);
        }
        let _ = members_of(j, at)?;
        Ok(ResetBackgrounds {})
    }

    proof fn round_trip(&self, at: Seq<char>) {
        reveal(<ResetBackgrounds as Wire>::wire);
        reveal(<ResetBackgrounds as Wire>::parse);
    }
}

impl Tagged for ResetBackgrounds {
    open spec fn known(tag: Seq<char>) -> bool {
        tag == "resetBackgrounds"@
    }

    fn knows(tag: &str) -> (r: bool) {
        same_text(tag, "resetBackgrounds")
    }

    proof fn tag_known(&self) {
        reveal(<ResetBackgrounds as Wire>::wire);
        assert(tag_of(self.wire()) == Some("resetBackgrounds"@));
        assert(Self::known("resetBackgrounds"@));
    }
}

impl Method for ResetBackgrounds {
    const TYPE: &'static str = "resetBackgrounds";

    type Response = Okay;

    proof fn type_is_tag(&self) {
        reveal(<ResetBackgrounds as Wire>::wire);
        assert(tag_of(self.wire()) == Some("resetBackgrounds"@));
    }
}

/// Returns information about the current localization target. This is an offline request if
/// only_local is true. Can be called before authorization
#[derive(Debug, Clone)]
pub struct GetLocalizationTargetInfo {
    /// If true, returns only locally available information without sending network requests
    pub only_local: bool,
}

impl Wire for GetLocalizationTargetInfo {
    #[verifier::opaque]
    open spec fn wire(&self) -> Doc {
        tagged(
            Map::empty()
                .insert("onlyLocal"@, self.only_local.wire()),
            "getLocalizationTargetInfo"@,
        )
    }

    #[verifier::opaque]
    open spec fn parse(d: Doc, at: Seq<char>) -> Result<Doc, Fault> {
        match d {
            Doc::Object(m) => {
                let only_local = field::<bool>(m, "onlyLocal"@);
                if only_local is Err {
                    only_local
                } else {
                    Ok(
                        tagged(
                            Map::empty()
                                .insert("onlyLocal"@, only_local->Ok_0),
                            "getLocalizationTargetInfo"@,
                        ),
                    )
                }
            },
            _ => Err(Fault::TypeMismatch(at)),
        }
    }

    fn encode(&self) -> (j: Json) {
        proof {
            reveal(<GetLocalizationTargetInfo as Wire>::wire);
        }
        let mut members: Vec<Member> = Vec::new();
        put(&mut members, "onlyLocal", self.only_local.encode());
        seal(members, "getLocalizationTargetInfo")
    }

    fn decode(j: &Json, at: &str) -> (r: Result<Self, DecodeError>) {
        proof {
            reveal(<GetLocalizationTargetInfo as Wire>::wire);
            reveal(<GetLocalizationTargetInfo as Wire>::parse);
        }
        let members = members_of(j, at)?;
        let only_local = read_field::<bool>(members, "onlyLocal")?;
        Ok(GetLocalizationTargetInfo { only_local })
    }

    proof fn round_trip(&self, at: Seq<char>) {
        reveal(<GetLocalizationTargetInfo as Wire>::wire);
        reveal(<GetLocalizationTargetInfo as Wire>::parse);
        reveal_strlit("@type");
        reveal_strlit("onlyLocal");
        assert("@type"@.len() == 5);
        assert("onlyLocal"@.len() == 9);
        self.only_local.round_trip("onlyLocal"@);
    }
}

impl Tagged for GetLocalizationTargetInfo {
    open spec fn known(tag: Seq<char>) -> bool {
        tag == "getLocalizationTargetInfo"@
    }

    fn knows(tag: &str) -> (r: bool) {
        same_text(tag, "getLocalizationTargetInfo")
    }

    proof fn tag_known(&self) {
        reveal(<GetLocalizationTargetInfo as Wire>::wire);
        assert(tag_of(self.wire()) == Some("getLocalizationTargetInfo"@));
        assert(Self::known("getLocalizationTargetInfo"@));
    }
}

impl Method for GetLocalizationTargetInfo {
    const TYPE: &'static str = "getLocalizationTargetInfo";

    type Response = LocalizationTargetInfo;

    proof fn type_is_tag(&self) {
        reveal(<GetLocalizationTargetInfo as Wire>::wire);
        assert(tag_of(self.wire()) == Some("getLocalizationTargetInfo"@));
    }
}

/// Returns information about a language pack. Returned language pack identifier may be different
/// from a provided one. Can be called before authorization
#[derive(Debug, Clone)]
pub struct GetLanguagePackInfo {
    /// Language pack identifier
    pub language_pack_id: String,
}

impl Wire for GetLanguagePackInfo {
    #[verifier::opaque]
    open spec fn wire(&self) -> Doc {
        tagged(
            Map::empty()
                .insert("languagePackId"@, self.language_pack_id.wire()),
            "getLanguagePackInfo"@,
        )
    }

    #[verifier::opaque]
    open spec fn parse(d: Doc, at: Seq<char>) -> Result<Doc, Fault> {
        match d {
            Doc::Object(m) => {
                let language_pack_id = field::<String>(m, "languagePackId"@);
                if language_pack_id is Err {
                    language_pack_id
                } else {
                    Ok(
                        tagged(
                            Map::empty()
                                .insert("languagePackId"@, language_pack_id->Ok_0),
                            "getLanguagePackInfo"@,
                        ),
                    )
                }
            },
            _ => Err(Fault::TypeMismatch(at)),
        }
    }

    fn encode(&self) -> (j: Json) {
        proof {
            reveal(<GetLanguagePackInfo as Wire>::wire);
        }
        let mut members: Vec<Member> = Vec::new();
        put(&mut members, "languagePackId", self.language_pack_id.encode());
        seal(members, "getLanguagePackInfo")
    }

    fn decode(j: &Json, at: &str) -> (r: Result<Self, DecodeError>) {
        proof {
            reveal(<GetLanguagePackInfo as Wire>::wire);
            reveal(<GetLanguagePackInfo as Wire>::parse);
        }
        let members = members_of(j, at)?;
        let language_pack_id = read_field::<String>(members, "languagePackId")?;
        Ok(GetLanguagePackInfo { language_pack_id })
    }

    proof fn round_trip(&self, at: Seq<char>) {
        reveal(<GetLanguagePackInfo as Wire>::wire);
        reveal(<GetLanguagePackInfo as Wire>::parse);
        reveal_strlit("@type");
        reveal_strlit("languagePackId");
        assert("@type"@.len() == 5);
        assert("languagePackId"@.len() == 14);
        self.language_pack_id.round_trip("languagePackId"@);
    }
}

impl Tagged for GetLanguagePackInfo {
    open spec fn known(tag: Seq<char>) -> bool {
        tag == "getLanguagePackInfo"@
    }

    fn knows(tag: &str) -> (r: bool) {
        same_text(tag, "getLanguagePackInfo")
    }

    proof fn tag_known(&self) {
        reveal(<GetLanguagePackInfo as Wire>::wire);
        assert(tag_of(self.wire()) == Some("getLanguagePackInfo"@));
        assert(Self::known("getLanguagePackInfo"@));
    }
}

impl Method for GetLanguagePackInfo {
    const TYPE: &'static str = "getLanguagePackInfo";

    type Response = LanguagePackInfo;

    proof fn type_is_tag(&self) {
        reveal(<GetLanguagePackInfo as Wire>::wire);
        assert(tag_of(self.wire()) == Some("getLanguagePackInfo"@));
    }
}

/// Returns strings from a language pack in the current localization target by their keys. Can be
/// called before authorization
#[derive(Debug, Clone)]
pub struct GetLanguagePackStrings {
    /// Language pack identifier of the strings to be returned
    pub language_pack_id: String,
    /// Language pack keys of the strings to be returned; leave empty to request all available
    /// strings
    pub keys: Vec<String>,
}

impl Wire for GetLanguagePackStrings {
    #[verifier::opaque]
    open spec fn wire(&self) -> Doc {
        tagged(
            Map::empty()
                .insert("languagePackId"@, self.language_pack_id.wire())
                .insert("keys"@, self.keys.wire()),
            "getLanguagePackStrings"@,
        )
    }

    #[verifier::opaque]
    open spec fn parse(d: Doc, at: Seq<char>) -> Result<Doc, Fault> {
        match d {
            Doc::Object(m) => {
                let language_pack_id = field::<String>(m, "languagePackId"@);
                let keys = field::<Vec<String>>(m, "keys"@);
                if language_pack_id is Err {
                    language_pack_id
                } else if keys is Err {
                    keys
                } else {
                    Ok(
                        tagged(
                            Map::empty()
                                .insert("languagePackId"@, language_pack_id->Ok_0)
                                .insert("keys"@, keys->Ok_0),
                            "getLanguagePackStrings"@,
                        ),
                    )
                }
            },
            _ => Err(Fault::TypeMismatch(at)),
        }
    }

    fn encode(&self) -> (j: Json) {
        proof {
            reveal(<GetLanguagePackStrings as Wire>::wire);
        }
        let mut members: Vec<Member> = Vec::new();
        put(&mut members, "languagePackId", self.language_pack_id.encode());
        put(&mut members, "keys", self.keys.encode());
        seal(members, "getLanguagePackStrings")
    }

    fn decode(j: &Json, at: &str) -> (r: Result<Self, DecodeError>) {
        proof {
            reveal(<GetLanguagePackStrings as Wire>::wire);
            reveal(<GetLanguagePackStrings as Wire>::parse);
        }
        let members = members_of(j, at)?;
        let language_pack_id = read_field::<String>(members, "languagePackId")?;
        let keys = read_field::<Vec<String>>(members, "keys")?;
        Ok(GetLanguagePackStrings { language_pack_id, keys })
    }

    proof fn round_trip(&self, at: Seq<char>) {
        reveal(<GetLanguagePackStrings as Wire>::wire);
        reveal(<GetLanguagePackStrings as Wire>::parse);
        reveal_strlit("@type");
        reveal_strlit("keys");
        reveal_strlit("languagePackId");
        assert("@type"@.len() == 5);
        assert("keys"@.len() == 4);
        assert("languagePackId"@.len() == 14);
        self.language_pack_id.round_trip("languagePackId"@);
        self.keys.round_trip("keys"@);
    }
}

impl Tagged for GetLanguagePackStrings {
    open spec fn known(tag: Seq<char>) -> bool {
        tag == "getLanguagePackStrings"@
    }

    fn knows(tag: &str) -> (r: bool) {
        same_text(tag, "getLanguagePackStrings")
    }

    proof fn tag_known(&self) {
        reveal(<GetLanguagePackStrings as Wire>::wire);
        assert(tag_of(self.wire()) == Some("getLanguagePackStrings"@));
        assert(Self::known("getLanguagePackStrings"@));
    }
}

impl Method for GetLanguagePackStrings {
    const TYPE: &'static str = "getLanguagePackStrings";

    type Response = LanguagePackStrings;

    proof fn type_is_tag(&self) {
        reveal(<GetLanguagePackStrings as Wire>::wire);
        assert(tag_of(self.wire()) == Some("getLanguagePackStrings"@));
    }
}

/// Fetches the latest versions of all strings from a language pack in the current localization
/// target from the server. This method doesn't need to be called explicitly for the current
/// used/base language packs. Can be called before authorization
#[derive(Debug, Clone)]
pub struct SynchronizeLanguagePack {
    /// Language pack identifier
    pub language_pack_id: String,
}

impl Wire for SynchronizeLanguagePack {
    #[verifier::opaque]
    open spec fn wire(&self) -> Doc {
        tagged(
            Map::empty()
                .insert("languagePackId"@, self.language_pack_id.wire()),
            "synchronizeLanguagePack"@,
        )
    }

    #[verifier::opaque]
    open spec fn parse(d: Doc, at: Seq<char>) -> Result<Doc, Fault> {
        match d {
            Doc::Object(m) => {
                let language_pack_id = field::<String>(m, "languagePackId"@);
                if language_pack_id is Err {
                    language_pack_id
                } else {
                    Ok(
                        tagged(
                            Map::empty()
                                .insert("languagePackId"@, language_pack_id->Ok_0),
                            "synchronizeLanguagePack"@,
                        ),
                    )
                }
            },
            _ => Err(Fault::TypeMismatch(at)),
        }
    }

    fn encode(&self) -> (j: Json) {
        proof {
            reveal(<SynchronizeLanguagePack as Wire>::wire);
        }
        let mut members: Vec<Member> = Vec::new();
        put(&mut members, "languagePackId", self.language_pack_id.encode());
        seal(members, "synchronizeLanguagePack")
    }

    fn decode(j: &Json, at: &str) -> (r: Result<Self, DecodeError>) {
        proof {
            reveal(<SynchronizeLanguagePack as Wire>::wire);
            reveal(<SynchronizeLanguagePack as Wire>::parse);
        }
        let members = members_of(j, at)?;
        let language_pack_id = read_field::<String>(members, "languagePackId")?;
        Ok(SynchronizeLanguagePack { language_pack_id })
    }

    proof fn round_trip(&self, at: Seq<char>) {
        reveal(<SynchronizeLanguagePack as Wire>::wire);
        reveal(<SynchronizeLanguagePack as Wire>::parse);
        reveal_strlit("@type");
        reveal_strlit("languagePackId");
        assert("@type"@.len() == 5);
        assert("languagePackId"@.len() == 14);
        self.language_pack_id.round_trip("languagePackId"@);
    }
}

impl Tagged for SynchronizeLanguagePack {
    open spec fn known(tag: Seq<char>) -> bool {
        tag == "synchronizeLanguagePack"@
    }

    fn knows(tag: &str) -> (r: bool) {
        same_text(tag, "synchronizeLanguagePack")
    }

    proof fn tag_known(&self) {
        reveal(<SynchronizeLanguagePack as Wire>::wire);
        assert(tag_of(self.wire()) == Some("synchronizeLanguagePack"@));
        assert(Self::known("synchronizeLanguagePack"@));
    }
}

impl Method for SynchronizeLanguagePack {
    const TYPE: &'static str = "synchronizeLanguagePack";

    type Response = Okay;

    proof fn type_is_tag(&self) {
        reveal(<SynchronizeLanguagePack as Wire>::wire);
        assert(tag_of(self.wire()) == Some("synchronizeLanguagePack"@));
    }
}

/// Adds a custom server language pack to the list of installed language packs in current
/// localization target. Can be called before authorization
#[derive(Debug, Clone)]
pub struct AddCustomServerLanguagePack {
    /// Identifier of a language pack to be added; may be different from a name that is used in an
    /// "https://t.me/setlanguage/" link
    pub language_pack_id: String,
}

impl Wire for AddCustomServerLanguagePack {
    #[verifier::opaque]
    open spec fn wire(&self) -> Doc {
        tagged(
            Map::empty()
                .insert("languagePackId"@, self.language_pack_id.wire()),
            "addCustomServerLanguagePack"@,
        )
    }

    #[verifier::opaque]
    open spec fn parse(d: Doc, at: Seq<char>) -> Result<Doc, Fault> {
        match d {
            Doc::Object(m) => {
                let language_pack_id = field::<String>(m, "languagePackId"@);
                if language_pack_id is Err {
                    language_pack_id
                } else {
                    Ok(
                        tagged(
                            Map::empty()
                                .insert("languagePackId"@, language_pack_id->Ok_0),
                            "addCustomServerLanguagePack"@,
                        ),
                    )
                }
            },
            _ => Err(Fault::TypeMismatch(at)),
        }
    }

    fn encode(&self) -> (j: Json) {
        proof {
            reveal(<AddCustomServerLanguagePack as Wire>::wire);
        }
        let mut members: Vec<Member> = Vec::new();
        put(&mut members, "languagePackId", self.language_pack_id.encode());
        seal(members, "addCustomServerLanguagePack")
    }

    fn decode(j: &Json, at: &str) -> (r: Result<Self, DecodeError>) {
        proof {
            reveal(<AddCustomServerLanguagePack as Wire>::wire);
            reveal(<AddCustomServerLanguagePack as Wire>::parse);
        }
        let members = members_of(j, at)?;
        let language_pack_id = read_field::<String>(members, "languagePackId")?;
        Ok(AddCustomServerLanguagePack { language_pack_id })
    }

    proof fn round_trip(&self, at: Seq<char>) {
        reveal(<AddCustomServerLanguagePack as Wire>::wire);
        reveal(<AddCustomServerLanguagePack as Wire>::parse);
        reveal_strlit("@type");
        reveal_strlit("languagePackId");
        assert("@type"@.len() == 5);
        assert("languagePackId"@.len() == 14);
        self.language_pack_id.round_trip("languagePackId"@);
    }
}

impl Tagged for AddCustomServerLanguagePack {
    open spec fn known(tag: Seq<char>) -> bool {
        tag == "addCustomServerLanguagePack"@
    }

    fn knows(tag: &str) -> (r: bool) {
        same_text(tag, "addCustomServerLanguagePack")
    }

    proof fn tag_known(&self) {
        reveal(<AddCustomServerLanguagePack as Wire>::wire);
        assert(tag_of(self.wire()) == Some("addCustomServerLanguagePack"@));
        assert(Self::known("addCustomServerLanguagePack"@));
    }
}

impl Method for AddCustomServerLanguagePack {
    const TYPE: &'static str = "addCustomServerLanguagePack";

    type Response = Okay;

    proof fn type_is_tag(&self) {
        reveal(<AddCustomServerLanguagePack as Wire>::wire);
        assert(tag_of(self.wire()) == Some("addCustomServerLanguagePack"@));
    }
}

/// Adds or changes a custom local language pack to the current localization target
#[derive(Debug, Clone)]
pub struct SetCustomLanguagePack {
    /// Information about the language pack. Language pack ID must start with 'X', consist only of
    /// English letters, digits and hyphens, and must not exceed 64 characters. Can be called before
    /// authorization
    pub info: LanguagePackInfo,
    /// Strings of the new language pack
    pub strings: Vec<LanguagePackString>,
}

impl Wire for SetCustomLanguagePack {
    #[verifier::opaque]
    open spec fn wire(&self) -> Doc {
        tagged(
            Map::empty()
                .insert("info"@, self.info.wire())
                .insert("strings"@, self.strings.wire()),
            "setCustomLanguagePack"@,
        )
    }

    #[verifier::opaque]
    open spec fn parse(d: Doc, at: Seq<char>) -> Result<Doc, Fault> {
        match d {
            Doc::Object(m) => {
                let info = field::<LanguagePackInfo>(m, "info"@);
                let strings = field::<Vec<LanguagePackString>>(m, "strings"@);
                if info is Err {
                    info
                } else if strings is Err {
                    strings
                } else {
                    Ok(
                        tagged(
                            Map::empty()
                                .insert("info"@, info->Ok_0)
                                .insert("strings"@, strings->Ok_0),
                            "setCustomLanguagePack"@,
                        ),
                    )
                }
            },
            _ => Err(Fault::TypeMismatch(at)),
        }
    }

    fn encode(&self) -> (j: Json) {
        proof {
            reveal(<SetCustomLanguagePack as Wire>::wire);
        }
        let mut members: Vec<Member> = Vec::new();
        put(&mut members, "info", self.info.encode());
        put(&mut members, "strings", self.strings.encode());
        seal(members, "setCustomLanguagePack")
    }

    fn decode(j: &Json, at: &str) -> (r: Result<Self, DecodeError>) {
        proof {
            reveal(<SetCustomLanguagePack as Wire>::wire);
            reveal(<SetCustomLanguagePack as Wire>::parse);
        }
        let members = members_of(j, at)?;
        let info = read_field::<LanguagePackInfo>(members, "info")?;
        let strings = read_field::<Vec<LanguagePackString>>(members, "strings")?;
        Ok(SetCustomLanguagePack { info, strings })
    }

    proof fn round_trip(&self, at: Seq<char>) {
        reveal(<SetCustomLanguagePack as Wire>::wire);
        reveal(<SetCustomLanguagePack as Wire>::parse);
        reveal_strlit("@type");
        reveal_strlit("info");
        reveal_strlit("strings");
        assert("@type"@.len() == 5);
        assert("info"@.len() == 4);
        assert("strings"@.len() == 7);
        self.info.round_trip("info"@);
        self.strings.round_trip("strings"@);
    }
}

impl Tagged for SetCustomLanguagePack {
    open spec fn known(tag: Seq<char>) -> bool {
        tag == "setCustomLanguagePack"@
    }

    fn knows(tag: &str) -> (r: bool) {
        same_text(tag, "setCustomLanguagePack")
    }

    proof fn tag_known(&self) {
        reveal(<SetCustomLanguagePack as Wire>::wire);
        assert(tag_of(self.wire()) == Some("setCustomLanguagePack"@));
        assert(Self::known("setCustomLanguagePack"@));
    }
}

impl Method for SetCustomLanguagePack {
    const TYPE: &'static str = "setCustomLanguagePack";

    type Response = Okay;

    proof fn type_is_tag(&self) {
        reveal(<SetCustomLanguagePack as Wire>::wire);
        assert(tag_of(self.wire()) == Some("setCustomLanguagePack"@));
    }
}

/// Edits information about a custom local language pack in the current localization target. Can be
/// called before authorization
#[derive(Debug, Clone)]
pub struct EditCustomLanguagePackInfo {
    /// New information about the custom local language pack
    pub info: LanguagePackInfo,
}

impl Wire for EditCustomLanguagePackInfo {
    #[verifier::opaque]
    open spec fn wire(&self) -> Doc {
        tagged(
            Map::empty()
                .insert("info"@, self.info.wire()),
            "editCustomLanguagePackInfo"@,
        )
    }

    #[verifier::opaque]
    open spec fn parse(d: Doc, at: Seq<char>) -> Result<Doc, Fault> {
        match d {
            Doc::Object(m) => {
                let info = field::<LanguagePackInfo>(m, "info"@);
                if info is Err {
                    info
                } else {
                    Ok(
                        tagged(
                            Map::empty()
                                .insert("info"@, info->Ok_0),
                            "editCustomLanguagePackInfo"@,
                        ),
                    )
                }
            },
            _ => Err(Fault::TypeMismatch(at)),
        }
    }

    fn encode(&self) -> (j: Json) {
        proof {
            reveal(<EditCustomLanguagePackInfo as Wire>::wire);
        }
        let mut members: Vec<Member> = Vec::new();
        put(&mut members, "info", self.info.encode());
        seal(members, "editCustomLanguagePackInfo")
    }

    fn decode(j: &Json, at: &str) -> (r: Result<Self, DecodeError>) {
        proof {
            reveal(<EditCustomLanguagePackInfo as Wire>::wire);
            reveal(<EditCustomLanguagePackInfo as Wire>::parse);
        }
        let members = members_of(j, at)?;
        let info = read_field::<LanguagePackInfo>(members, "info")?;
        Ok(EditCustomLanguagePackInfo { info })
    }

    proof fn round_trip(&self, at: Seq<char>) {
        reveal(<EditCustomLanguagePackInfo as Wire>::wire);
        reveal(<EditCustomLanguagePackInfo as Wire>::parse);
        reveal_strlit("@type");
        reveal_strlit("info");
        assert("@type"@.len() == 5);
        assert("info"@.len() == 4);
        self.info.round_trip("info"@);
    }
}

impl Tagged for EditCustomLanguagePackInfo {
    open spec fn known(tag: Seq<char>) -> bool {
        tag == "editCustomLanguagePackInfo"@
    }

    fn knows(tag: &str) -> (r: bool) {
        same_text(tag, "editCustomLanguagePackInfo")
    }

    proof fn tag_known(&self) {
        reveal(<EditCustomLanguagePackInfo as Wire>::wire);
        assert(tag_of(self.wire()) == Some("editCustomLanguagePackInfo"@));
        assert(Self::known("editCustomLanguagePackInfo"@));
    }
}

impl Method for EditCustomLanguagePackInfo {
    const TYPE: &'static str = "editCustomLanguagePackInfo";

    type Response = Okay;

    proof fn type_is_tag(&self) {
        reveal(<EditCustomLanguagePackInfo as Wire>::wire);
        assert(tag_of(self.wire()) == Some("editCustomLanguagePackInfo"@));
    }
}

/// Adds, edits or deletes a string in a custom local language pack. Can be called before
/// authorization
#[derive(Debug, Clone)]
pub struct SetCustomLanguagePackString {
    /// Identifier of a previously added custom local language pack in the current localization
    /// target
    pub language_pack_id: String,
    /// New language pack string
    pub new_string: LanguagePackString,
}

impl Wire for SetCustomLanguagePackString {
    #[verifier::opaque]
    open spec fn wire(&self) -> Doc {
        tagged(
            Map::empty()
                .insert("languagePackId"@, self.language_pack_id.wire())
                .insert("newString"@, self.new_string.wire()),
            "setCustomLanguagePackString"@,
        )
    }

    #[verifier::opaque]
    open spec fn parse(d: Doc, at: Seq<char>) -> Result<Doc, Fault> {
        match d {
            Doc::Object(m) => {
                let language_pack_id = field::<String>(m, "languagePackId"@);
                let new_string = field::<LanguagePackString>(m, "newString"@);
                if language_pack_id is Err {
                    language_pack_id
                } else if new_string is Err {
                    new_string
                } else {
                    Ok(
                        tagged(
                            Map::empty()
                                .insert("languagePackId"@, language_pack_id->Ok_0)
                                .insert("newString"@, new_string->Ok_0),
                            "setCustomLanguagePackString"@,
                        ),
                    )
                }
            },
            _ => Err(Fault::TypeMismatch(at)),
        }
    }

    fn encode(&self) -> (j: Json) {
        proof {
            reveal(<SetCustomLanguagePackString as Wire>::wire);
        }
        let mut members: Vec<Member> = Vec::new();
        put(&mut members, "languagePackId", self.language_pack_id.encode());
        put(&mut members, "newString", self.new_string.encode());
        seal(members, "setCustomLanguagePackString")
    }

    fn decode(j: &Json, at: &str) -> (r: Result<Self, DecodeError>) {
        proof {
            reveal(<SetCustomLanguagePackString as Wire>::wire);
            reveal(<SetCustomLanguagePackString as Wire>::parse);
        }
        let members = members_of(j, at)?;
        let language_pack_id = read_field::<String>(members, "languagePackId")?;
        let new_string = read_field::<LanguagePackString>(members, "newString")?;
        Ok(SetCustomLanguagePackString { language_pack_id, new_string })
    }

    proof fn round_trip(&self, at: Seq<char>) {
        reveal(<SetCustomLanguagePackString as Wire>::wire);
        reveal(<SetCustomLanguagePackString as Wire>::parse);
        reveal_strlit("@type");
        reveal_strlit("languagePackId");
        reveal_strlit("newString");
        assert("@type"@.len() == 5);
        assert("languagePackId"@.len() == 14);
        assert("newString"@.len() == 9);
        self.language_pack_id.round_trip("languagePackId"@);
        self.new_string.round_trip("newString"@);
    }
}

impl Tagged for SetCustomLanguagePackString {
    open spec fn known(tag: Seq<char>) -> bool {
        tag == "setCustomLanguagePackString"@
    }

    fn knows(tag: &str) -> (r: bool) {
        same_text(tag, "setCustomLanguagePackString")
    }

    proof fn tag_known(&self) {
        reveal(<SetCustomLanguagePackString as Wire>::wire);
        assert(tag_of(self.wire()) == Some("setCustomLanguagePackString"@));
        assert(Self::known("setCustomLanguagePackString"@));
    }
}

impl Method for SetCustomLanguagePackString {
    const TYPE: &'static str = "setCustomLanguagePackString";

    type Response = Okay;

    proof fn type_is_tag(&self) {
        reveal(<SetCustomLanguagePackString as Wire>::wire);
        assert(tag_of(self.wire()) == Some("setCustomLanguagePackString"@));
    }
}

/// Deletes all information about a language pack in the current localization target. The language
/// pack which is currently in use (including base language pack) or is being synchronized can't be
/// deleted. Can be called before authorization
#[derive(Debug, Clone)]
pub struct DeleteLanguagePack {
    /// Identifier of the language pack to delete
    pub language_pack_id: String,
}

impl Wire for DeleteLanguagePack {
    #[verifier::opaque]
    open spec fn wire(&self) -> Doc {
        tagged(
            Map::empty()
                .insert("languagePackId"@, self.language_pack_id.wire()),
            "deleteLanguagePack"@,
        )
    }

    #[verifier::opaque]
    open spec fn parse(d: Doc, at: Seq<char>) -> Result<Doc, Fault> {
        match d {
            Doc::Object(m) => {
                let language_pack_id = field::<String>(m, "languagePackId"@);
                if language_pack_id is Err {
                    language_pack_id
                } else {
                    Ok(
                        tagged(
                            Map::empty()
                                .insert("languagePackId"@, language_pack_id->Ok_0),
                            "deleteLanguagePack"@,
                        ),
                    )
                }
            },
            _ => Err(Fault::TypeMismatch(at)),
        }
    }

    fn encode(&self) -> (j: Json) {
        proof {
            reveal(<DeleteLanguagePack as Wire>::wire);
        }
        let mut members: Vec<Member> = Vec::new();
        put(&mut members, "languagePackId", self.language_pack_id.encode());
        seal(members, "deleteLanguagePack")
    }

    fn decode(j: &Json, at: &str) -> (r: Result<Self, DecodeError>) {
        proof {
            reveal(<DeleteLanguagePack as Wire>::wire);
            reveal(<DeleteLanguagePack as Wire>::parse);
        }
        let members = members_of(j, at)?;
        let language_pack_id = read_field::<String>(members, "languagePackId")?;
        Ok(DeleteLanguagePack { language_pack_id })
    }

    proof fn round_trip(&self, at: Seq<char>) {
        reveal(<DeleteLanguagePack as Wire>::wire);
        reveal(<DeleteLanguagePack as Wire>::parse);
        reveal_strlit("@type");
        reveal_strlit("languagePackId");
        assert("@type"@.len() == 5);
        assert("languagePackId"@.len() == 14);
        self.language_pack_id.round_trip("languagePackId"@);
    }
}

impl Tagged for DeleteLanguagePack {
    open spec fn known(tag: Seq<char>) -> bool {
        tag == "deleteLanguagePack"@
    }

    fn knows(tag: &str) -> (r: bool) {
        same_text(tag, "deleteLanguagePack")
    }

    proof fn tag_known(&self) {
        reveal(<DeleteLanguagePack as Wire>::wire);
        assert(tag_of(self.wire()) == Some("deleteLanguagePack"@));
        assert(Self::known("deleteLanguagePack"@));
    }
}

impl Method for DeleteLanguagePack {
    const TYPE: &'static str = "deleteLanguagePack";

    type Response = Okay;

    proof fn type_is_tag(&self) {
        reveal(<DeleteLanguagePack as Wire>::wire);
        assert(tag_of(self.wire()) == Some("deleteLanguagePack"@));
    }
}

/// Registers the currently used device for receiving push notifications. Returns a globally unique
/// identifier of the push notification subscription
#[derive(Debug, Clone)]
pub struct RegisterDevice {
    /// Device token
    pub device_token: DeviceToken,
    /// List of user identifiers of other users currently using the client
    pub other_user_ids: Vec<i32>,
}

impl Wire for RegisterDevice {
    #[verifier::opaque]
    open spec fn wire(&self) -> Doc {
        tagged(
            Map::empty()
                .insert("deviceToken"@, self.device_token.wire())
                .insert("otherUserIds"@, self.other_user_ids.wire()),
            "registerDevice"@,
        )
    }

    #[verifier::opaque]
    open spec fn parse(d: Doc, at: Seq<char>) -> Result<Doc, Fault> {
        match d {
            Doc::Object(m) => {
                let device_token = field::<DeviceToken>(m, "deviceToken"@);
                let other_user_ids = field::<Vec<i32>>(m, "otherUserIds"@);
                if device_token is Err {
                    device_token
                } else if other_user_ids is Err {
                    other_user_ids
                } else {
                    Ok(
                        tagged(
                            Map::empty()
                                .insert("deviceToken"@, device_token->Ok_0)
                                .insert("otherUserIds"@, other_user_ids->Ok_0),
                            "registerDevice"@,
                        ),
                    )
                }
            },
            _ => Err(Fault::TypeMismatch(at)),
        }
    }

    fn encode(&self) -> (j: Json) {
        proof {
            reveal(<RegisterDevice as Wire>::wire);
        }
        let mut members: Vec<Member> = Vec::new();
        put(&mut members, "deviceToken", self.device_token.encode());
        put(&mut members, "otherUserIds", self.other_user_ids.encode());
        seal(members, "registerDevice")
    }

    fn decode(j: &Json, at: &str) -> (r: Result<Self, DecodeError>) {
        proof {
            reveal(<RegisterDevice as Wire>::wire);
            reveal(<RegisterDevice as Wire>::parse);
        }
        let members = members_of(j, at)?;
        let device_token = read_field::<DeviceToken>(members, "deviceToken")?;
        let other_user_ids = read_field::<Vec<i32>>(members, "otherUserIds")?;
        Ok(RegisterDevice { device_token, other_user_ids })
    }

    proof fn round_trip(&self, at: Seq<char>) {
        reveal(<RegisterDevice as Wire>::wire);
        reveal(<RegisterDevice as Wire>::parse);
        reveal_strlit("@type");
        reveal_strlit("deviceToken");
        reveal_strlit("otherUserIds");
        assert("@type"@.len() == 5);
        assert("deviceToken"@.len() == 11);
        assert("otherUserIds"@.len() == 12);
        self.device_token.round_trip("deviceToken"@);
        self.other_user_ids.round_trip("otherUserIds"@);
    }
}

impl Tagged for RegisterDevice {
    open spec fn known(tag: Seq<char>) -> bool {
        tag == "registerDevice"@
    }

    fn knows(tag: &str) -> (r: bool) {
        same_text(tag, "registerDevice")
    }

    proof fn tag_known(&self) {
        reveal(<RegisterDevice as Wire>::wire);
        assert(tag_of(self.wire()) == Some("registerDevice"@));
        assert(Self::known("registerDevice"@));
    }
}

impl Method for RegisterDevice {
    const TYPE: &'static str = "registerDevice";

    type Response = PushReceiverId;

    proof fn type_is_tag(&self) {
        reveal(<RegisterDevice as Wire>::wire);
        assert(tag_of(self.wire()) == Some("registerDevice"@));
    }
}

/// Handles a push notification. Returns error with code 406 if the push notification is not
/// supported and connection to the server is required to fetch new data. Can be called before
/// authorization
#[derive(Debug, Clone)]
pub struct ProcessPushNotification {
    /// JSON-encoded push notification payload with all fields sent by the server, and
    /// "google.sent_time" and "google.notification.sound" fields added
    pub payload: String,
}

impl Wire for ProcessPushNotification {
    #[verifier::opaque]
    open spec fn wire(&self) -> Doc {
        tagged(
            Map::empty()
                .insert("payload"@, self.payload.wire()),
            "processPushNotification"@,
        )
    }

    #[verifier::opaque]
    open spec fn parse(d: Doc, at: Seq<char>) -> Result<Doc, Fault> {
        match d {
            Doc::Object(m) => {
                let payload = field::<String>(m, "payload"@);
                if payload is Err {
                    payload
                } else {
                    Ok(
                        tagged(
                            Map::empty()
                                .insert("payload"@, payload->Ok_0),
                            "processPushNotification"@,
                        ),
                    )
                }
            },
            _ => Err(Fault::TypeMismatch(at)),
        }
    }

    fn encode(&self) -> (j: Json) {
        proof {
            reveal(<ProcessPushNotification as Wire>::wire);
        }
        let mut members: Vec<Member> = Vec::new();
        put(&mut members, "payload", self.payload.encode());
        seal(members, "processPushNotification")
    }

    fn decode(j: &Json, at: &str) -> (r: Result<Self, DecodeError>) {
        proof {
            reveal(<ProcessPushNotification as Wire>::wire);
            reveal(<ProcessPushNotification as Wire>::parse);
        }
        let members = members_of(j, at)?;
        let payload = read_field::<String>(members, "payload")?;
        Ok(ProcessPushNotification { payload })
    }

    proof fn round_trip(&self, at: Seq<char>) {
        reveal(<ProcessPushNotification as Wire>::wire);
        reveal(<ProcessPushNotification as Wire>::parse);
        reveal_strlit("@type");
        reveal_strlit("payload");
        assert("@type"@.len() == 5);
        assert("payload"@.len() == 7);
        self.payload.round_trip("payload"@);
    }
}

impl Tagged for ProcessPushNotification {
    open spec fn known(tag: Seq<char>) -> bool {
        tag == "processPushNotification"@
    }

    fn knows(tag: &str) -> (r: bool) {
        same_text(tag, "processPushNotification")
    }

    proof fn tag_known(&self) {
        reveal(<ProcessPushNotification as Wire>::wire);
        assert(tag_of(self.wire()) == Some("processPushNotification"@));
        assert(Self::known("processPushNotification"@));
    }
}

impl Method for ProcessPushNotification {
    const TYPE: &'static str = "processPushNotification";

    type Response = Okay;

    proof fn type_is_tag(&self) {
        reveal(<ProcessPushNotification as Wire>::wire);
        assert(tag_of(self.wire()) == Some("processPushNotification"@));
    }
}

/// Returns a globally unique push notification subscription identifier for identification of an
/// account, which has received a push notification. This is an offline method. Can be called before
/// authorization. Can be called synchronously
#[derive(Debug, Clone)]
pub struct GetPushReceiverId {
    /// JSON-encoded push notification payload
    pub payload: String,
}

impl Wire for GetPushReceiverId {
    #[verifier::opaque]
    open spec fn wire(&self) -> Doc {
        tagged(
            Map::empty()
                .insert("payload"@, self.payload.wire()),
            "getPushReceiverId"@,
        )
    }

    #[verifier::opaque]
    open spec fn parse(d: Doc, at: Seq<char>) -> Result<Doc, Fault> {
        match d {
            Doc::Object(m) => {
                let payload = field::<String>(m, "payload"@);
                if payload is Err {
                    payload
                } else {
                    Ok(
                        tagged(
                            Map::empty()
                                .insert("payload"@, payload->Ok_0),
                            "getPushReceiverId"@,
                        ),
                    )
                }
            },
            _ => Err(Fault::TypeMismatch(at)),
        }
    }

    fn encode(&self) -> (j: Json) {
        proof {
            reveal(<GetPushReceiverId as Wire>::wire);
        }
        let mut members: Vec<Member> = Vec::new();
        put(&mut members, "payload", self.payload.encode());
        seal(members, "getPushReceiverId")
    }

    fn decode(j: &Json, at: &str) -> (r: Result<Self, DecodeError>) {
        proof {
            reveal(<GetPushReceiverId as Wire>::wire);
            reveal(<GetPushReceiverId as Wire>::parse);
        }
        let members = members_of(j, at)?;
        let payload = read_field::<String>(members, "payload")?;
        Ok(GetPushReceiverId { payload })
    }

    proof fn round_trip(&self, at: Seq<char>) {
        reveal(<GetPushReceiverId as Wire>::wire);
        reveal(<GetPushReceiverId as Wire>::parse);
        reveal_strlit("@type");
        reveal_strlit("payload");
        assert("@type"@.len() == 5);
        assert("payload"@.len() == 7);
        self.payload.round_trip("payload"@);
    }
}

impl Tagged for GetPushReceiverId {
    open spec fn known(tag: Seq<char>) -> bool {
        tag == "getPushReceiverId"@
    }

    fn knows(tag: &str) -> (r: bool) {
        same_text(tag, "getPushReceiverId")
    }

    proof fn tag_known(&self) {
        reveal(<GetPushReceiverId as Wire>::wire);
        assert(tag_of(self.wire()) == Some("getPushReceiverId"@));
        assert(Self::known("getPushReceiverId"@));
    }
}

impl Method for GetPushReceiverId {
    const TYPE: &'static str = "getPushReceiverId";

    type Response = PushReceiverId;

    proof fn type_is_tag(&self) {
        reveal(<GetPushReceiverId as Wire>::wire);
        assert(tag_of(self.wire()) == Some("getPushReceiverId"@));
    }
}

/// Returns t.me URLs recently visited by a newly registered user
#[derive(Debug, Clone)]
pub struct GetRecentlyVisitedTMeUrls {
    /// Google Play referrer to identify the user
    pub referrer: String,
}

impl Wire for GetRecentlyVisitedTMeUrls {
    #[verifier::opaque]
    open spec fn wire(&self) -> Doc {
        tagged(
            Map::empty()
                .insert("referrer"@, self.referrer.wire()),
            "getRecentlyVisitedTMeUrls"@,
        )
    }

    #[verifier::opaque]
    open spec fn parse(d: Doc, at: Seq<char>) -> Result<Doc, Fault> {
        match d {
            Doc::Object(m) => {
                let referrer = field::<String>(m, "referrer"@);
                if referrer is Err {
                    referrer
                } else {
                    Ok(
                        tagged(
                            Map::empty()
                                .insert("referrer"@, referrer->Ok_0),
                            "getRecentlyVisitedTMeUrls"@,
                        ),
                    )
                }
            },
            _ => Err(Fault::TypeMismatch(at)),
        }
    }

    fn encode(&self) -> (j: Json) {
        proof {
            reveal(<GetRecentlyVisitedTMeUrls as Wire>::wire);
        }
        let mut members: Vec<Member> = Vec::new();
        put(&mut members, "referrer", self.referrer.encode());
        seal(members, "getRecentlyVisitedTMeUrls")
    }

    fn decode(j: &Json, at: &str) -> (r: Result<Self, DecodeError>) {
        proof {
            reveal(<GetRecentlyVisitedTMeUrls as Wire>::wire);
            reveal(<GetRecentlyVisitedTMeUrls as Wire>::parse);
        }
        let members = members_of(j, at)?;
        let referrer = read_field::<String>(members, "referrer")?;
        Ok(GetRecentlyVisitedTMeUrls { referrer })
    }

    proof fn round_trip(&self, at: Seq<char>) {
        reveal(<GetRecentlyVisitedTMeUrls as Wire>::wire);
        reveal(<GetRecentlyVisitedTMeUrls as Wire>::parse);
        reveal_strlit("@type");
        reveal_strlit("referrer");
        assert("@type"@.len() == 5);
        assert("referrer"@.len() == 8);
        self.referrer.round_trip("referrer"@);
    }
}

impl Tagged for GetRecentlyVisitedTMeUrls {
    open spec fn known(tag: Seq<char>) -> bool {
        tag == "getRecentlyVisitedTMeUrls"@
    }

    fn knows(tag: &str) -> (r: bool) {
        same_text(tag, "getRecentlyVisitedTMeUrls")
    }

    proof fn tag_known(&self) {
        reveal(<GetRecentlyVisitedTMeUrls as Wire>::wire);
        assert(tag_of(self.wire()) == Some("getRecentlyVisitedTMeUrls"@));
        assert(Self::known("getRecentlyVisitedTMeUrls"@));
    }
}

impl Method for GetRecentlyVisitedTMeUrls {
    const TYPE: &'static str = "getRecentlyVisitedTMeUrls";

    type Response = TMeUrls;

    proof fn type_is_tag(&self) {
        reveal(<GetRecentlyVisitedTMeUrls as Wire>::wire);
        assert(tag_of(self.wire()) == Some("getRecentlyVisitedTMeUrls"@));
    }
}

/// Changes user privacy settings
#[derive(Debug, Clone)]
pub struct SetUserPrivacySettingRules {
    /// The privacy setting
    pub setting: UserPrivacySetting,
    /// The new privacy rules
    pub rules: UserPrivacySettingRules,
}

impl Wire for SetUserPrivacySettingRules {
    #[verifier::opaque]
    open spec fn wire(&self) -> Doc {
        tagged(
            Map::empty()
                .insert("setting"@, self.setting.wire())
                .insert("rules"@, self.rules.wire()),
            "setUserPrivacySettingRules"@,
        )
    }

    #[verifier::opaque]
    open spec fn parse(d: Doc, at: Seq<char>) -> Result<Doc, Fault> {
        match d {
            Doc::Object(m) => {
                let setting = field::<UserPrivacySetting>(m, "setting"@);
                let rules = field::<UserPrivacySettingRules>(m, "rules"@);
                if setting is Err {
                    setting
                } else if rules is Err {
                    rules
                } else {
                    Ok(
                        tagged(
                            Map::empty()
                                .insert("setting"@, setting->Ok_0)
                                .insert("rules"@, rules->Ok_0),
                            "setUserPrivacySettingRules"@,
                        ),
                    )
                }
            },
            _ => Err(Fault::TypeMismatch(at)),
        }
    }

    fn encode(&self) -> (j: Json) {
        proof {
            reveal(<SetUserPrivacySettingRules as Wire>::wire);
        }
        let mut members: Vec<Member> = Vec::new();
        put(&mut members, "setting", self.setting.encode());
        put(&mut members, "rules", self.rules.encode());
        seal(members, "setUserPrivacySettingRules")
    }

    fn decode(j: &Json, at: &str) -> (r: Result<Self, DecodeError>) {
        proof {
            reveal(<SetUserPrivacySettingRules as Wire>::wire);
            reveal(<SetUserPrivacySettingRules as Wire>::parse);
        }
        let members = members_of(j, at)?;
        let setting = read_field::<UserPrivacySetting>(members, "setting")?;
        let rules = read_field::<UserPrivacySettingRules>(members, "rules")?;
        Ok(SetUserPrivacySettingRules { setting, rules })
    }

    proof fn round_trip(&self, at: Seq<char>) {
        reveal(<SetUserPrivacySettingRules as Wire>::wire);
        reveal(<SetUserPrivacySettingRules as Wire>::parse);
        reveal_strlit("@type");
        reveal_strlit("rules");
        reveal_strlit("setting");
        assert("@type"@.len() == 5 && "@type"@[0] == '@');
        assert("rules"@.len() == 5 && "rules"@[0] == 'r');
        assert("setting"@.len() == 7);
        self.setting.round_trip("setting"@);
        self.rules.round_trip("rules"@);
    }
}

impl Tagged for SetUserPrivacySettingRules {
    open spec fn known(tag: Seq<char>) -> bool {
        tag == "setUserPrivacySettingRules"@
    }

    fn knows(tag: &str) -> (r: bool) {
        same_text(tag, "setUserPrivacySettingRules")
    }

    proof fn tag_known(&self) {
        reveal(<SetUserPrivacySettingRules as Wire>::wire);
        assert(tag_of(self.wire()) == Some("setUserPrivacySettingRules"@));
        assert(Self::known("setUserPrivacySettingRules"@));
    }
}

impl Method for SetUserPrivacySettingRules {
    const TYPE: &'static str = "setUserPrivacySettingRules";

    type Response = Okay;

    proof fn type_is_tag(&self) {
        reveal(<SetUserPrivacySettingRules as Wire>::wire);
        assert(tag_of(self.wire()) == Some("setUserPrivacySettingRules"@));
    }
}

/// Returns the current privacy settings
#[derive(Debug, Clone)]
pub struct GetUserPrivacySettingRules {
    /// The privacy setting
    pub setting: UserPrivacySetting,
}

impl Wire for GetUserPrivacySettingRules {
    #[verifier::opaque]
    open spec fn wire(&self) -> Doc {
        tagged(
            Map::empty()
                .insert("setting"@, self.setting.wire()),
            "getUserPrivacySettingRules"@,
        )
    }

    #[verifier::opaque]
    open spec fn parse(d: Doc, at: Seq<char>) -> Result<Doc, Fault> {
        match d {
            Doc::Object(m) => {
                let setting = field::<UserPrivacySetting>(m, "setting"@);
                if setting is Err {
                    setting
                } else {
                    Ok(
                        tagged(
                            Map::empty()
                                .insert("setting"@, setting->Ok_0),
                            "getUserPrivacySettingRules"@,
                        ),
                    )
                }
            },
            _ => Err(Fault::TypeMismatch(at)),
        }
    }

    fn encode(&self) -> (j: Json) {
        proof {
            reveal(<GetUserPrivacySettingRules as Wire>::wire);
        }
        let mut members: Vec<Member> = Vec::new();
        put(&mut members, "setting", self.setting.encode());
        seal(members, "getUserPrivacySettingRules")
    }

    fn decode(j: &Json, at: &str) -> (r: Result<Self, DecodeError>) {
        proof {
            reveal(<GetUserPrivacySettingRules as Wire>::wire);
            reveal(<GetUserPrivacySettingRules as Wire>::parse);
        }
        let members = members_of(j, at)?;
        let setting = read_field::<UserPrivacySetting>(members, "setting")?;
        Ok(GetUserPrivacySettingRules { setting })
    }

    proof fn round_trip(&self, at: Seq<char>) {
        reveal(<GetUserPrivacySettingRules as Wire>::wire);
        reveal(<GetUserPrivacySettingRules as Wire>::parse);
        reveal_strlit("@type");
        reveal_strlit("setting");
        assert("@type"@.len() == 5);
        assert("setting"@.len() == 7);
        self.setting.round_trip("setting"@);
    }
}

impl Tagged for GetUserPrivacySettingRules {
    open spec fn known(tag: Seq<char>) -> bool {
        tag == "getUserPrivacySettingRules"@
    }

    fn knows(tag: &str) -> (r: bool) {
        same_text(tag, "getUserPrivacySettingRules")
    }

    proof fn tag_known(&self) {
        reveal(<GetUserPrivacySettingRules as Wire>::wire);
        assert(tag_of(self.wire()) == Some("getUserPrivacySettingRules"@));
        assert(Self::known("getUserPrivacySettingRules"@));
    }
}

impl Method for GetUserPrivacySettingRules {
    const TYPE: &'static str = "getUserPrivacySettingRules";

    type Response = UserPrivacySettingRules;

    proof fn type_is_tag(&self) {
        reveal(<GetUserPrivacySettingRules as Wire>::wire);
        assert(tag_of(self.wire()) == Some("getUserPrivacySettingRules"@));
    }
}

/// Returns the value of an option by its name. (Check the list of available options on
/// https://core.telegram.org/tdlib/options.) Can be called before authorization
#[derive(Debug, Clone)]
pub struct GetOption {
    /// The name of the option
    pub name: String,
}

impl Wire for GetOption {
    #[verifier::opaque]
    open spec fn wire(&self) -> Doc {
        tagged(
            Map::empty()
                .insert("name"@, self.name.wire()),
            "getOption"@,
        )
    }

    #[verifier::opaque]
    open spec fn parse(d: Doc, at: Seq<char>) -> Result<Doc, Fault> {
        match d {
            Doc::Object(m) => {
                let name = field::<String>(m, "name"@);
                if name is Err {
                    name
                } else {
                    Ok(
                        tagged(
                            Map::empty()
                                .insert("name"@, name->Ok_0),
                            "getOption"@,
                        ),
                    )
                }
            },
            _ => Err(Fault::TypeMismatch(at)),
        }
    }

    fn encode(&self) -> (j: Json) {
        proof {
            reveal(<GetOption as Wire>::wire);
        }
        let mut members: Vec<Member> = Vec::new();
        put(&mut members, "name", self.name.encode());
        seal(members, "getOption")
    }

    fn decode(j: &Json, at: &str) -> (r: Result<Self, DecodeError>) {
        proof {
            reveal(<GetOption as Wire>::wire);
            reveal(<GetOption as Wire>::parse);
        }
        let members = members_of(j, at)?;
        let name = read_field::<String>(members, "name")?;
        Ok(GetOption { name })
    }

    proof fn round_trip(&self, at: Seq<char>) {
        reveal(<GetOption as Wire>::wire);
        reveal(<GetOption as Wire>::parse);
        reveal_strlit("@type");
        reveal_strlit("name");
        assert("@type"@.len() == 5);
        assert("name"@.len() == 4);
        self.name.round_trip("name"@);
    }
}

impl Tagged for GetOption {
    open spec fn known(tag: Seq<char>) -> bool {
        tag == "getOption"@
    }

    fn knows(tag: &str) -> (r: bool) {
        same_text(tag, "getOption")
    }

    proof fn tag_known(&self) {
        reveal(<GetOption as Wire>::wire);
        assert(tag_of(self.wire()) == Some("getOption"@));
        assert(Self::known("getOption"@));
    }
}

impl Method for GetOption {
    const TYPE: &'static str = "getOption";

    type Response = OptionValue;

    proof fn type_is_tag(&self) {
        reveal(<GetOption as Wire>::wire);
        assert(tag_of(self.wire()) == Some("getOption"@));
    }
}

/// Sets the value of an option. (Check the list of available options on
/// https://core.telegram.org/tdlib/options.) Only writable options can be set. Can be called before
/// authorization
#[derive(Debug, Clone)]
pub struct SetOption {
    /// The name of the option
    pub name: String,
    /// The new value of the option
    pub value: OptionValue,
}

impl Wire for SetOption {
    #[verifier::opaque]
    open spec fn wire(&self) -> Doc {
        tagged(
            Map::empty()
                .insert("name"@, self.name.wire())
                .insert("value"@, self.value.wire()),
            "setOption"@,
        )
    }

    #[verifier::opaque]
    open spec fn parse(d: Doc, at: Seq<char>) -> Result<Doc, Fault> {
        match d {
            Doc::Object(m) => {
                let name = field::<String>(m, "name"@);
                let value = field::<OptionValue>(m, "value"@);
                if name is Err {
                    name
                } else if value is Err {
                    value
                } else {
                    Ok(
                        tagged(
                            Map::empty()
                                .insert("name"@, name->Ok_0)
                                .insert("value"@, value->Ok_0),
                            "setOption"@,
                        ),
                    )
                }
            },
            _ => Err(Fault::TypeMismatch(at)),
        }
    }

    fn encode(&self) -> (j: Json) {
        proof {
            reveal(<SetOption as Wire>::wire);
        }
        let mut members: Vec<Member> = Vec::new();
        put(&mut members, "name", self.name.encode());
        put(&mut members, "value", self.value.encode());
        seal(members, "setOption")
    }

    fn decode(j: &Json, at: &str) -> (r: Result<Self, DecodeError>) {
        proof {
            reveal(<SetOption as Wire>::wire);
            reveal(<SetOption as Wire>::parse);
        }
        let members = members_of(j, at)?;
        let name = read_field::<String>(members, "name")?;
        let value = read_field::<OptionValue>(members, "value")?;
        Ok(SetOption { name, value })
    }

    proof fn round_trip(&self, at: Seq<char>) {
        reveal(<SetOption as Wire>::wire);
        reveal(<SetOption as Wire>::parse);
        reveal_strlit("@type");
        reveal_strlit("name");
        reveal_strlit("value");
        assert("@type"@.len() == 5 && "@type"@[0] == '@');
        assert("name"@.len() == 4);
        assert("value"@.len() == 5 && "value"@[0] == 'v');
        self.name.round_trip("name"@);
        self.value.round_trip("value"@);
    }
}

impl Tagged for SetOption {
    open spec fn known(tag: Seq<char>) -> bool {
        tag == "setOption"@
    }

    fn knows(tag: &str) -> (r: bool) {
        same_text(tag, "setOption")
    }

    proof fn tag_known(&self) {
        reveal(<SetOption as Wire>::wire);
        assert(tag_of(self.wire()) == Some("setOption"@));
        assert(Self::known("setOption"@));
    }
}

impl Method for SetOption {
    const TYPE: &'static str = "setOption";

    type Response = Okay;

    proof fn type_is_tag(&self) {
        reveal(<SetOption as Wire>::wire);
        assert(tag_of(self.wire()) == Some("setOption"@));
    }
}

/// Changes the period of inactivity after which the account of the current user will automatically
/// be deleted
#[derive(Debug, Clone)]
pub struct SetAccountTtl {
    /// New account TTL
    pub ttl: AccountTtl,
}

impl Wire for SetAccountTtl {
    #[verifier::opaque]
    open spec fn wire(&self) -> Doc {
        tagged(
            Map::empty()
                .insert("ttl"@, self.ttl.wire()),
            "setAccountTtl"@,
        )
    }

    #[verifier::opaque]
    open spec fn parse(d: Doc, at: Seq<char>) -> Result<Doc, Fault> {
        match d {
            Doc::Object(m) => {
                let ttl = field::<AccountTtl>(m, "ttl"@);
                if ttl is Err {
                    ttl
                } else {
                    Ok(
                        tagged(
                            Map::empty()
                                .insert("ttl"@, ttl->Ok_0),
                            "setAccountTtl"@,
                        ),
                    )
                }
            },
            _ => Err(Fault::TypeMismatch(at)),
        }
    }

    fn encode(&self) -> (j: Json) {
        proof {
            reveal(<SetAccountTtl as Wire>::wire);
        }
        let mut members: Vec<Member> = Vec::new();
        put(&mut members, "ttl", self.ttl.encode());
        seal(members, "setAccountTtl")
    }

    fn decode(j: &Json, at: &str) -> (r: Result<Self, DecodeError>) {
        proof {
            reveal(<SetAccountTtl as Wire>::wire);
            reveal(<SetAccountTtl as Wire>::parse);
        }
        let members = members_of(j, at)?;
        let ttl = read_field::<AccountTtl>(members, "ttl")?;
        Ok(SetAccountTtl { ttl })
    }

    proof fn round_trip(&self, at: Seq<char>) {
        reveal(<SetAccountTtl as Wire>::wire);
        reveal(<SetAccountTtl as Wire>::parse);
        reveal_strlit("@type");
        reveal_strlit("ttl");
        assert("@type"@.len() == 5);
        assert("ttl"@.len() == 3);
        self.ttl.round_trip("ttl"@);
    }
}

impl Tagged for SetAccountTtl {
    open spec fn known(tag: Seq<char>) -> bool {
        tag == "setAccountTtl"@
    }

    fn knows(tag: &str) -> (r: bool) {
        same_text(tag, "setAccountTtl")
    }

    proof fn tag_known(&self) {
        reveal(<SetAccountTtl as Wire>::wire);
        assert(tag_of(self.wire()) == Some("setAccountTtl"@));
        assert(Self::known("setAccountTtl"@));
    }
}

impl Method for SetAccountTtl {
    const TYPE: &'static str = "setAccountTtl";

    type Response = Okay;

    proof fn type_is_tag(&self) {
        reveal(<SetAccountTtl as Wire>::wire);
        assert(tag_of(self.wire()) == Some("setAccountTtl"@));
    }
}

/// Returns the period of inactivity after which the account of the current user will automatically
/// be deleted
#[derive(Debug, Clone)]
pub struct GetAccountTtl {}

impl Wire for GetAccountTtl {
    #[verifier::opaque]
    open spec fn wire(&self) -> Doc {
        tagged(Map::empty(), "getAccountTtl"@)
    }

    #[verifier::opaque]
    open spec fn parse(d: Doc, at: Seq<char>) -> Result<Doc, Fault> {
        match d {
            Doc::Object(_) => Ok(tagged(Map::empty(), "getAccountTtl"@)),
            _ => Err(Fault::TypeMismatch(at)),
        }
    }

    fn encode(&self) -> (j: Json) {
        proof {
            reveal(<GetAccountTtl as Wire>::wire);
        }
        seal(Vec::new(), "getAccountTtl")
    }

    fn decode(j: &Json, at: &str) -> (r: Result<Self, DecodeError>) {
        proof {
            reveal(<GetAccountTtl as Wire>::wire);
            reveal(<GetAccountTtl as Wire>::parse);
        }
        let _ = members_of(j, at)?;
        Ok(GetAccountTtl {})
    }

    proof fn round_trip(&self, at: Seq<char>) {
        reveal(<GetAccountTtl as Wire>::wire);
        reveal(<GetAccountTtl as Wire>::parse);
    }
}

impl Tagged for GetAccountTtl {
    open spec fn known(tag: Seq<char>) -> bool {
        tag == "getAccountTtl"@
    }

    fn knows(tag: &str) -> (r: bool) {
        same_text(tag, "getAccountTtl")
    }

    proof fn tag_known(&self) {
        reveal(<GetAccountTtl as Wire>::wire);
        assert(tag_of(self.wire()) == Some("getAccountTtl"@));
        assert(Self::known("getAccountTtl"@));
    }
}

impl Method for GetAccountTtl {
    const TYPE: &'static str = "getAccountTtl";

    type Response = AccountTtl;

    proof fn type_is_tag(&self) {
        reveal(<GetAccountTtl as Wire>::wire);
        assert(tag_of(self.wire()) == Some("getAccountTtl"@));
    }
}

/// Deletes the account of the current user, deleting all information associated with the user from
/// the server. The phone number of the account can be used to create a new account. Can be called
/// before authorization when the current authorization state is authorizationStateWaitPassword
#[derive(Debug, Clone)]
pub struct DeleteAccount {
    /// The reason why the account was deleted; optional
    pub reason: String,
}

impl Wire for DeleteAccount {
    #[verifier::opaque]
    open spec fn wire(&self) -> Doc {
        tagged(
            Map::empty()
                .insert("reason"@, self.reason.wire()),
            "deleteAccount"@,
        )
    }

    #[verifier::opaque]
    open spec fn parse(d: Doc, at: Seq<char>) -> Result<Doc, Fault> {
        match d {
            Doc::Object(m) => {
                let reason = field::<String>(m, "reason"@);
                if reason is Err {
                    reason
                } else {
                    Ok(
                        tagged(
                            Map::empty()
                                .insert("reason"@, reason->Ok_0),
                            "deleteAccount"@,
                        ),
                    )
                }
            },
            _ => Err(Fault::TypeMismatch(at)),
        }
    }

    fn encode(&self) -> (j: Json) {
        proof {
            reveal(<DeleteAccount as Wire>::wire);
        }
        let mut members: Vec<Member> = Vec::new();
        put(&mut members, "reason", self.reason.encode());
        seal(members, "deleteAccount")
    }

    fn decode(j: &Json, at: &str) -> (r: Result<Self, DecodeError>) {
        proof {
            reveal(<DeleteAccount as Wire>::wire);
            reveal(<DeleteAccount as Wire>::parse);
        }
        let members = members_of(j, at)?;
        let reason = read_field::<String>(members, "reason")?;
        Ok(DeleteAccount { reason })
    }

    proof fn round_trip(&self, at: Seq<char>) {
        reveal(<DeleteAccount as Wire>::wire);
        reveal(<DeleteAccount as Wire>::parse);
        reveal_strlit("@type");
        reveal_strlit("reason");
        assert("@type"@.len() == 5);
        assert("reason"@.len() == 6);
        self.reason.round_trip("reason"@);
    }
}

impl Tagged for DeleteAccount {
    open spec fn known(tag: Seq<char>) -> bool {
        tag == "deleteAccount"@
    }

    fn knows(tag: &str) -> (r: bool) {
        same_text(tag, "deleteAccount")
    }

    proof fn tag_known(&self) {
        reveal(<DeleteAccount as Wire>::wire);
        assert(tag_of(self.wire()) == Some("deleteAccount"@));
        assert(Self::known("deleteAccount"@));
    }
}

impl Method for DeleteAccount {
    const TYPE: &'static str = "deleteAccount";

    type Response = Okay;

    proof fn type_is_tag(&self) {
        reveal(<DeleteAccount as Wire>::wire);
        assert(tag_of(self.wire()) == Some("deleteAccount"@));
    }
}

/// Removes a chat action bar without any other action
#[derive(Debug, Clone)]
pub struct RemoveChatActionBar {
    /// Chat identifier
    pub chat_id: i64,
}

impl Wire for RemoveChatActionBar {
    #[verifier::opaque]
    open spec fn wire(&self) -> Doc {
        tagged(
            Map::empty()
                .insert("chatId"@, self.chat_id.wire()),
            "removeChatActionBar"@,
        )
    }

    #[verifier::opaque]
    open spec fn parse(d: Doc, at: Seq<char>) -> Result<Doc, Fault> {
        match d {
            Doc::Object(m) => {
                let chat_id = field::<i64>(m, "chatId"@);
                if chat_id is Err {
                    chat_id
                } else {
                    Ok(
                        tagged(
                            Map::empty()
                                .insert("chatId"@, chat_id->Ok_0),
                            "removeChatActionBar"@,
                        ),
                    )
                }
            },
            _ => Err(Fault::TypeMismatch(at)),
        }
    }

    fn encode(&self) -> (j: Json) {
        proof {
            reveal(<RemoveChatActionBar as Wire>::wire);
        }
        let mut members: Vec<Member> = Vec::new();
        put(&mut members, "chatId", self.chat_id.encode());
        seal(members, "removeChatActionBar")
    }

    fn decode(j: &Json, at: &str) -> (r: Result<Self, DecodeError>) {
        proof {
            reveal(<RemoveChatActionBar as Wire>::wire);
            reveal(<RemoveChatActionBar as Wire>::parse);
        }
        let members = members_of(j, at)?;
        let chat_id = read_field::<i64>(members, "chatId")?;
        Ok(RemoveChatActionBar { chat_id })
    }

    proof fn round_trip(&self, at: Seq<char>) {
        reveal(<RemoveChatActionBar as Wire>::wire);
        reveal(<RemoveChatActionBar as Wire>::parse);
        reveal_strlit("@type");
        reveal_strlit("chatId");
        assert("@type"@.len() == 5);
        assert("chatId"@.len() == 6);
        self.chat_id.round_trip("chatId"@);
    }
}

impl Tagged for RemoveChatActionBar {
    open spec fn known(tag: Seq<char>) -> bool {
        tag == "removeChatActionBar"@
    }

    fn knows(tag: &str) -> (r: bool) {
        same_text(tag, "removeChatActionBar")
    }

    proof fn tag_known(&self) {
        reveal(<RemoveChatActionBar as Wire>::wire);
        assert(tag_of(self.wire()) == Some("removeChatActionBar"@));
        assert(Self::known("removeChatActionBar"@));
    }
}

impl Method for RemoveChatActionBar {
    const TYPE: &'static str = "removeChatActionBar";

    type Response = Okay;

    proof fn type_is_tag(&self) {
        reveal(<RemoveChatActionBar as Wire>::wire);
        assert(tag_of(self.wire()) == Some("removeChatActionBar"@));
    }
}

/// Reports a chat to the Telegram moderators. Supported only for supergroups, channels, or private
/// chats with bots, since other chats can't be checked by moderators, or when the report is done
/// from the chat action bar
#[derive(Debug, Clone)]
pub struct ReportChat {
    /// Chat identifier
    pub chat_id: i64,
    /// The reason for reporting the chat
    pub reason: ChatReportReason,
    /// Identifiers of reported messages, if any
    pub message_ids: Vec<i64>,
}

impl Wire for ReportChat {
    #[verifier::opaque]
    open spec fn wire(&self) -> Doc {
        tagged(
            Map::empty()
                .insert("chatId"@, self.chat_id.wire())
                .insert("reason"@, self.reason.wire())
                .insert("messageIds"@, self.message_ids.wire()),
            "reportChat"@,
        )
    }

    #[verifier::opaque]
    open spec fn parse(d: Doc, at: Seq<char>) -> Result<Doc, Fault> {
        match d {
            Doc::Object(m) => {
                let chat_id = field::<i64>(m, "chatId"@);
                let reason = field::<ChatReportReason>(m, "reason"@);
                let message_ids = field::<Vec<i64>>(m, "messageIds"@);
                if chat_id is Err {
                    chat_id
                } else if reason is Err {
                    reason
                } else if message_ids is Err {
                    message_ids
                } else {
                    Ok(
                        tagged(
                            Map::empty()
                                .insert("chatId"@, chat_id->Ok_0)
                                .insert("reason"@, reason->Ok_0)
                                .insert("messageIds"@, message_ids->Ok_0),
                            "reportChat"@,
                        ),
                    )
                }
            },
            _ => Err(Fault::TypeMismatch(at)),
        }
    }

    fn encode(&self) -> (j: Json) {
        proof {
            reveal(<ReportChat as Wire>::wire);
        }
        let mut members: Vec<Member> = Vec::new();
        put(&mut members, "chatId", self.chat_id.encode());
        put(&mut members, "reason", self.reason.encode());
        put(&mut members, "messageIds", self.message_ids.encode());
        seal(members, "reportChat")
    }

    fn decode(j: &Json, at: &str) -> (r: Result<Self, DecodeError>) {
        proof {
            reveal(<ReportChat as Wire>::wire);
            reveal(<ReportChat as Wire>::parse);
        }
        let members = members_of(j, at)?;
        let chat_id = read_field::<i64>(members, "chatId")?;
        let reason = read_field::<ChatReportReason>(members, "reason")?;
        let message_ids = read_field::<Vec<i64>>(members, "messageIds")?;
        Ok(ReportChat { chat_id, reason, message_ids })
    }

    proof fn round_trip(&self, at: Seq<char>) {
        reveal(<ReportChat as Wire>::wire);
        reveal(<ReportChat as Wire>::parse);
        reveal_strlit("@type");
        reveal_strlit("chatId");
        reveal_strlit("messageIds");
        reveal_strlit("reason");
        assert("@type"@.len() == 5);
        assert("chatId"@.len() == 6 && "chatId"@[0] == 'c');
        assert("messageIds"@.len() == 10);
        assert("reason"@.len() == 6 && "reason"@[0] == 'r');
        self.chat_id.round_trip("chatId"@);
        self.reason.round_trip("reason"@);
        self.message_ids.round_trip("messageIds"@);
    }
}

impl Tagged for ReportChat {
    open spec fn known(tag: Seq<char>) -> bool {
        tag == "reportChat"@
    }

    fn knows(tag: &str) -> (r: bool) {
        same_text(tag, "reportChat")
    }

    proof fn tag_known(&self) {
        reveal(<ReportChat as Wire>::wire);
        assert(tag_of(self.wire()) == Some("reportChat"@));
        assert(Self::known("reportChat"@));
    }
}

impl Method for ReportChat {
    const TYPE: &'static str = "reportChat";

    type Response = Okay;

    proof fn type_is_tag(&self) {
        reveal(<ReportChat as Wire>::wire);
        assert(tag_of(self.wire()) == Some("reportChat"@));
    }
}

/// Returns an HTTP URL with the chat statistics. Currently this method can be used only for
/// channels. Can be used only if SupergroupFullInfo.can_view_statistics == true
#[derive(Debug, Clone)]
pub struct GetChatStatisticsUrl {
    /// Chat identifier
    pub chat_id: i64,
    /// Parameters from "tg://statsrefresh?params=******" link
    pub parameters: String,
    /// Pass true if a URL with the dark theme must be returned
    pub is_dark: bool,
}

impl Wire for GetChatStatisticsUrl {
    #[verifier::opaque]
    open spec fn wire(&self) -> Doc {
        tagged(
            Map::empty()
                .insert("chatId"@, self.chat_id.wire())
                .insert("parameters"@, self.parameters.wire())
                .insert("isDark"@, self.is_dark.wire()),
            "getChatStatisticsUrl"@,
        )
    }

    #[verifier::opaque]
    open spec fn parse(d: Doc, at: Seq<char>) -> Result<Doc, Fault> {
        match d {
            Doc::Object(m) => {
                let chat_id = field::<i64>(m, "chatId"@);
                let parameters = field::<String>(m, "parameters"@);
                let is_dark = field::<bool>(m, "isDark"@);
                if chat_id is Err {
                    chat_id
                } else if parameters is Err {
                    parameters
                } else if is_dark is Err {
                    is_dark
                } else {
                    Ok(
                        tagged(
                            Map::empty()
                                .insert("chatId"@, chat_id->Ok_0)
                                .insert("parameters"@, parameters->Ok_0)
                                .insert("isDark"@, is_dark->Ok_0),
                            "getChatStatisticsUrl"@,
                        ),
                    )
                }
            },
            _ => Err(Fault::TypeMismatch(at)),
        }
    }

    fn encode(&self) -> (j: Json) {
        proof {
            reveal(<GetChatStatisticsUrl as Wire>::wire);
        }
        let mut members: Vec<Member> = Vec::new();
        put(&mut members, "chatId", self.chat_id.encode());
        put(&mut members, "parameters", self.parameters.encode());
        put(&mut members, "isDark", self.is_dark.encode());
        seal(members, "getChatStatisticsUrl")
    }

    fn decode(j: &Json, at: &str) -> (r: Result<Self, DecodeError>) {
        proof {
            reveal(<GetChatStatisticsUrl as Wire>::wire);
            reveal(<GetChatStatisticsUrl as Wire>::parse);
        }
        let members = members_of(j, at)?;
        let chat_id = read_field::<i64>(members, "chatId")?;
        let parameters = read_field::<String>(members, "parameters")?;
        let is_dark = read_field::<bool>(members, "isDark")?;
        Ok(GetChatStatisticsUrl { chat_id, parameters, is_dark })
    }

    proof fn round_trip(&self, at: Seq<char>) {
        reveal(<GetChatStatisticsUrl as Wire>::wire);
        reveal(<GetChatStatisticsUrl as Wire>::parse);
        reveal_strlit("@type");
        reveal_strlit("chatId");
        reveal_strlit("isDark");
        reveal_strlit("parameters");
        assert("@type"@.len() == 5);
        assert("chatId"@.len() == 6 && "chatId"@[0] == 'c');
        assert("isDark"@.len() == 6 && "isDark"@[0] == 'i');
        assert("parameters"@.len() == 10);
        self.chat_id.round_trip("chatId"@);
        self.parameters.round_trip("parameters"@);
        self.is_dark.round_trip("isDark"@);
    }
}

impl Tagged for GetChatStatisticsUrl {
    open spec fn known(tag: Seq<char>) -> bool {
        tag == "getChatStatisticsUrl"@
    }

    fn knows(tag: &str) -> (r: bool) {
        same_text(tag, "getChatStatisticsUrl")
    }

    proof fn tag_known(&self) {
        reveal(<GetChatStatisticsUrl as Wire>::wire);
        assert(tag_of(self.wire()) == Some("getChatStatisticsUrl"@));
        assert(Self::known("getChatStatisticsUrl"@));
    }
}

impl Method for GetChatStatisticsUrl {
    const TYPE: &'static str = "getChatStatisticsUrl";

    type Response = HttpUrl;

    proof fn type_is_tag(&self) {
        reveal(<GetChatStatisticsUrl as Wire>::wire);
        assert(tag_of(self.wire()) == Some("getChatStatisticsUrl"@));
    }
}

/// Returns storage usage statistics. Can be called before authorization
#[derive(Debug, Clone)]
pub struct GetStorageStatistics {
    /// The maximum number of chats with the largest storage usage for which separate statistics
    /// should be returned. All other chats will be grouped in entries with chat_id == 0. If the
    /// chat info database is not used, the chat_limit is ignored and is always set to 0
    pub chat_limit: i32,
}

impl Wire for GetStorageStatistics {
    #[verifier::opaque]
    open spec fn wire(&self) -> Doc {
        tagged(
            Map::empty()
                .insert("chatLimit"@, self.chat_limit.wire()),
            "getStorageStatistics"@,
        )
    }

    #[verifier::opaque]
    open spec fn parse(d: Doc, at: Seq<char>) -> Result<Doc, Fault> {
        match d {
            Doc::Object(m) => {
                let chat_limit = field::<i32>(m, "chatLimit"@);
                if chat_limit is Err {
                    chat_limit
                } else {
                    Ok(
                        tagged(
                            Map::empty()
                                .insert("chatLimit"@, chat_limit->Ok_0),
                            "getStorageStatistics"@,
                        ),
                    )
                }
            },
            _ => Err(Fault::TypeMismatch(at)),
        }
    }

    fn encode(&self) -> (j: Json) {
        proof {
            reveal(<GetStorageStatistics as Wire>::wire);
        }
        let mut members: Vec<Member> = Vec::new();
        put(&mut members, "chatLimit", self.chat_limit.encode());
        seal(members, "getStorageStatistics")
    }

    fn decode(j: &Json, at: &str) -> (r: Result<Self, DecodeError>) {
        proof {
            reveal(<GetStorageStatistics as Wire>::wire);
            reveal(<GetStorageStatistics as Wire>::parse);
        }
        let members = members_of(j, at)?;
        let chat_limit = read_field::<i32>(members, "chatLimit")?;
        Ok(GetStorageStatistics { chat_limit })
    }

    proof fn round_trip(&self, at: Seq<char>) {
        reveal(<GetStorageStatistics as Wire>::wire);
        reveal(<GetStorageStatistics as Wire>::parse);
        reveal_strlit("@type");
        reveal_strlit("chatLimit");
        assert("@type"@.len() == 5);
        assert("chatLimit"@.len() == 9);
        self.chat_limit.round_trip("chatLimit"@);
    }
}

impl Tagged for GetStorageStatistics {
    open spec fn known(tag: Seq<char>) -> bool {
        tag == "getStorageStatistics"@
    }

    fn knows(tag: &str) -> (r: bool) {
        same_text(tag, "getStorageStatistics")
    }

    proof fn tag_known(&self) {
        reveal(<GetStorageStatistics as Wire>::wire);
        assert(tag_of(self.wire()) == Some("getStorageStatistics"@));
        assert(Self::known("getStorageStatistics"@));
    }
}

impl Method for GetStorageStatistics {
    const TYPE: &'static str = "getStorageStatistics";

    type Response = StorageStatistics;

    proof fn type_is_tag(&self) {
        reveal(<GetStorageStatistics as Wire>::wire);
        assert(tag_of(self.wire()) == Some("getStorageStatistics"@));
    }
}

/// Quickly returns approximate storage usage statistics. Can be called before authorization
#[derive(Debug, Clone)]
pub struct GetStorageStatisticsFast {}

impl Wire for GetStorageStatisticsFast {
    #[verifier::opaque]
    open spec fn wire(&self) -> Doc {
        tagged(Map::empty(), "getStorageStatisticsFast"@)
    }

    #[verifier::opaque]
    open spec fn parse(d: Doc, at: Seq<char>) -> Result<Doc, Fault> {
        match d {
            Doc::Object(_) => Ok(tagged(Map::empty(), "getStorageStatisticsFast"@)),
            _ => Err(Fault::TypeMismatch(at)),
        }
    }

    fn encode(&self) -> (j: Json) {
        proof {
            reveal(<GetStorageStatisticsFast as Wire>::wire);
        }
        seal(Vec::new(), "getStorageStatisticsFast")
    }

    fn decode(j: &Json, at: &str) -> (r: Result<Self, DecodeError>) {
        proof {
            reveal(<GetStorageStatisticsFast as Wire>::wire);
            reveal(<GetStorageStatisticsFast as Wire>::parse);
        }
        let _ = members_of(j, at)?;
        Ok(GetStorageStatisticsFast {})
    }

    proof fn round_trip(&self, at: Seq<char>) {
        reveal(<GetStorageStatisticsFast as Wire>::wire);
        reveal(<GetStorageStatisticsFast as Wire>::parse);
    }
}

impl Tagged for GetStorageStatisticsFast {
    open spec fn known(tag: Seq<char>) -> bool {
        tag == "getStorageStatisticsFast"@
    }

    fn knows(tag: &str) -> (r: bool) {
        same_text(tag, "getStorageStatisticsFast")
    }

    proof fn tag_known(&self) {
        reveal(<GetStorageStatisticsFast as Wire>::wire);
        assert(tag_of(self.wire()) == Some("getStorageStatisticsFast"@));
        assert(Self::known("getStorageStatisticsFast"@));
    }
}

impl Method for GetStorageStatisticsFast {
    const TYPE: &'static str = "getStorageStatisticsFast";

    type Response = StorageStatisticsFast;

    proof fn type_is_tag(&self) {
        reveal(<GetStorageStatisticsFast as Wire>::wire);
        assert(tag_of(self.wire()) == Some("getStorageStatisticsFast"@));
    }
}

/// Returns database statistics
#[derive(Debug, Clone)]
pub struct GetDatabaseStatistics {}

impl Wire for GetDatabaseStatistics {
    #[verifier::opaque]
    open spec fn wire(&self) -> Doc {
        tagged(Map::empty(), "getDatabaseStatistics"@)
    }

    #[verifier::opaque]
    open spec fn parse(d: Doc, at: Seq<char>) -> Result<Doc, Fault> {
        match d {
            Doc::Object(_) => Ok(tagged(Map::empty(), "getDatabaseStatistics"@)),
            _ => Err(Fault::TypeMismatch(at)),
        }
    }

    fn encode(&self) -> (j: Json) {
        proof {
            reveal(<GetDatabaseStatistics as Wire>::wire);
        }
        seal(Vec::new(), "getDatabaseStatistics")
    }

    fn decode(j: &Json, at: &str) -> (r: Result<Self, DecodeError>) {
        proof {
            reveal(<GetDatabaseStatistics as Wire>::wire);
            reveal(<GetDatabaseStatistics as Wire>::parse);
        }
        let _ = members_of(j, at)?;
        Ok(GetDatabaseStatistics {})
    }

    proof fn round_trip(&self, at: Seq<char>) {
        reveal(<GetDatabaseStatistics as Wire>::wire);
        reveal(<GetDatabaseStatistics as Wire>::parse);
    }
}

impl Tagged for GetDatabaseStatistics {
    open spec fn known(tag: Seq<char>) -> bool {
        tag == "getDatabaseStatistics"@
    }

    fn knows(tag: &str) -> (r: bool) {
        same_text(tag, "getDatabaseStatistics")
    }

    proof fn tag_known(&self) {
        reveal(<GetDatabaseStatistics as Wire>::wire);
        assert(tag_of(self.wire()) == Some("getDatabaseStatistics"@));
        assert(Self::known("getDatabaseStatistics"@));
    }
}

impl Method for GetDatabaseStatistics {
    const TYPE: &'static str = "getDatabaseStatistics";

    type Response = DatabaseStatistics;

    proof fn type_is_tag(&self) {
        reveal(<GetDatabaseStatistics as Wire>::wire);
        assert(tag_of(self.wire()) == Some("getDatabaseStatistics"@));
    }
}

/// Optimizes storage usage, i.e. deletes some files and returns new storage usage statistics.
/// Secret thumbnails can't be deleted
#[derive(Debug, Clone)]
pub struct OptimizeStorage {
    /// Limit on the total size of files after deletion. Pass -1 to use the default limit
    pub size: i64,
    /// Limit on the time that has passed since the last time a file was accessed (or creation time
    /// for some filesystems). Pass -1 to use the default limit
    pub ttl: i32,
    /// Limit on the total count of files after deletion. Pass -1 to use the default limit
    pub count: i32,
    /// The amount of time after the creation of a file during which it can't be deleted, in
    /// seconds. Pass -1 to use the default value
    pub immunity_delay: i32,
    /// If not empty, only files with the given type(s) are considered. By default, all types except
    /// thumbnails, profile photos, stickers and wallpapers are deleted
    pub file_types: Vec<FileType>,
    /// If not empty, only files from the given chats are considered. Use 0 as chat identifier to
    /// delete files not belonging to any chat (e.g., profile photos)
    pub chat_ids: Vec<i64>,
    /// If not empty, files from the given chats are excluded. Use 0 as chat identifier to exclude
    /// all files not belonging to any chat (e.g., profile photos)
    pub exclude_chat_ids: Vec<i64>,
    /// Same as in getStorageStatistics. Affects only returned statistics
    pub chat_limit: i32,
}

impl Wire for OptimizeStorage {
    #[verifier::opaque]
    open spec fn wire(&self) -> Doc {
        tagged(
            Map::empty()
                .insert("size"@, self.size.wire())
                .insert("ttl"@, self.ttl.wire())
                .insert("count"@, self.count.wire())
                .insert("immunityDelay"@, self.immunity_delay.wire())
                .insert("fileTypes"@, self.file_types.wire())
                .insert("chatIds"@, self.chat_ids.wire())
                .insert("excludeChatIds"@, self.exclude_chat_ids.wire())
                .insert("chatLimit"@, self.chat_limit.wire()),
            "optimizeStorage"@,
        )
    }

    #[verifier::opaque]
    open spec fn parse(d: Doc, at: Seq<char>) -> Result<Doc, Fault> {
        match d {
            Doc::Object(m) => {
                let size = field::<i64>(m, "size"@);
                let ttl = field::<i32>(m, "ttl"@);
                let count = field::<i32>(m, "count"@);
                let immunity_delay = field::<i32>(m, "immunityDelay"@);
                let file_types = field::<Vec<FileType>>(m, "fileTypes"@);
                let chat_ids = field::<Vec<i64>>(m, "chatIds"@);
                let exclude_chat_ids = field::<Vec<i64>>(m, "excludeChatIds"@);
                let chat_limit = field::<i32>(m, "chatLimit"@);
                if size is Err {
                    size
                } else if ttl is Err {
                    ttl
                } else if count is Err {
                    count
                } else if immunity_delay is Err {
                    immunity_delay
                } else if file_types is Err {
                    file_types
                } else if chat_ids is Err {
                    chat_ids
                } else if exclude_chat_ids is Err {
                    exclude_chat_ids
                } else if chat_limit is Err {
                    chat_limit
                } else {
                    Ok(
                        tagged(
                            Map::empty()
                                .insert("size"@, size->Ok_0)
                                .insert("ttl"@, ttl->Ok_0)
                                .insert("count"@, count->Ok_0)
                                .insert("immunityDelay"@, immunity_delay->Ok_0)
                                .insert("fileTypes"@, file_types->Ok_0)
                                .insert("chatIds"@, chat_ids->Ok_0)
                                .insert("excludeChatIds"@, exclude_chat_ids->Ok_0)
                                .insert("chatLimit"@, chat_limit->Ok_0),
                            "optimizeStorage"@,
                        ),
                    )
                }
            },
            _ => Err(Fault::TypeMismatch(at)),
        }
    }

    fn encode(&self) -> (j: Json) {
        proof {
            reveal(<OptimizeStorage as Wire>::wire);
        }
        let mut members: Vec<Member> = Vec::new();
        put(&mut members, "size", self.size.encode());
        put(&mut members, "ttl", self.ttl.encode());
        put(&mut members, "count", self.count.encode());
        put(&mut members, "immunityDelay", self.immunity_delay.encode());
        put(&mut members, "fileTypes", self.file_types.encode());
        put(&mut members, "chatIds", self.chat_ids.encode());
        put(&mut members, "excludeChatIds", self.exclude_chat_ids.encode());
        put(&mut members, "chatLimit", self.chat_limit.encode());
        seal(members, "optimizeStorage")
    }

    fn decode(j: &Json, at: &str) -> (r: Result<Self, DecodeError>) {
        proof {
            reveal(<OptimizeStorage as Wire>::wire);
            reveal(<OptimizeStorage as Wire>::parse);
        }
        let members = members_of(j, at)?;
        let size = read_field::<i64>(members, "size")?;
        let ttl = read_field::<i32>(members, "ttl")?;
        let count = read_field::<i32>(members, "count")?;
        let immunity_delay = read_field::<i32>(members, "immunityDelay")?;
        let file_types = read_field::<Vec<FileType>>(members, "fileTypes")?;
        let chat_ids = read_field::<Vec<i64>>(members, "chatIds")?;
        let exclude_chat_ids = read_field::<Vec<i64>>(members, "excludeChatIds")?;
        let chat_limit = read_field::<i32>(members, "chatLimit")?;
        Ok(OptimizeStorage {
            size,
            ttl,
            count,
            immunity_delay,
            file_types,
            chat_ids,
            exclude_chat_ids,
            chat_limit,
        })
    }

    proof fn round_trip(&self, at: Seq<char>) {
        reveal(<OptimizeStorage as Wire>::wire);
        reveal(<OptimizeStorage as Wire>::parse);
        reveal_strlit("@type");
        reveal_strlit("chatIds");
        reveal_strlit("chatLimit");
        reveal_strlit("count");
        reveal_strlit("excludeChatIds");
        reveal_strlit("fileTypes");
        reveal_strlit("immunityDelay");
        reveal_strlit("size");
        reveal_strlit("ttl");
        assert("@type"@.len() == 5 && "@type"@[0] == '@');
        assert("chatIds"@.len() == 7);
        assert("chatLimit"@.len() == 9 && "chatLimit"@[0] == 'c');
        assert("count"@.len() == 5 && "count"@[0] == 'c');
        assert("excludeChatIds"@.len() == 14);
        assert("fileTypes"@.len() == 9 && "fileTypes"@[0] == 'f');
        assert("immunityDelay"@.len() == 13);
        assert("size"@.len() == 4);
        assert("ttl"@.len() == 3);
        self.size.round_trip("size"@);
        self.ttl.round_trip("ttl"@);
        self.count.round_trip("count"@);
        self.immunity_delay.round_trip("immunityDelay"@);
        self.file_types.round_trip("fileTypes"@);
        self.chat_ids.round_trip("chatIds"@);
        self.exclude_chat_ids.round_trip("excludeChatIds"@);
        self.chat_limit.round_trip("chatLimit"@);
    }
}

impl Tagged for OptimizeStorage {
    open spec fn known(tag: Seq<char>) -> bool {
        tag == "optimizeStorage"@
    }

    fn knows(tag: &str) -> (r: bool) {
        same_text(tag, "optimizeStorage")
    }

    proof fn tag_known(&self) {
        reveal(<OptimizeStorage as Wire>::wire);
        assert(tag_of(self.wire()) == Some("optimizeStorage"@));
        assert(Self::known("optimizeStorage"@));
    }
}

impl Method for OptimizeStorage {
    const TYPE: &'static str = "optimizeStorage";

    type Response = StorageStatistics;

    proof fn type_is_tag(&self) {
        reveal(<OptimizeStorage as Wire>::wire);
        assert(tag_of(self.wire()) == Some("optimizeStorage"@));
    }
}

/// Sets the current network type. Can be called before authorization. Calling this method forces
/// all network connections to reopen, mitigating the delay in switching between different networks,
/// so it should be called whenever the network is changed, even if the network type remains the
/// same. Network type is used to check whether the library can use the network at all and also for
/// collecting detailed network data usage statistics @type The new network type. By default,
/// networkTypeOther
#[derive(Debug, Clone)]
pub struct SetNetworkType {
    pub type_: NetworkType,
}

impl Wire for SetNetworkType {
    #[verifier::opaque]
    open spec fn wire(&self) -> Doc {
        tagged(
            Map::empty()
                .insert("type"@, self.type_.wire()),
            "setNetworkType"@,
        )
    }

    #[verifier::opaque]
    open spec fn parse(d: Doc, at: Seq<char>) -> Result<Doc, Fault> {
        match d {
            Doc::Object(m) => {
                let type_ = field::<NetworkType>(m, "type"@);
                if type_ is Err {
                    type_
                } else {
                    Ok(
                        tagged(
                            Map::empty()
                                .insert("type"@, type_->Ok_0),
                            "setNetworkType"@,
                        ),
                    )
                }
            },
            _ => Err(Fault::TypeMismatch(at)),
        }
    }

    fn encode(&self) -> (j: Json) {
        proof {
            reveal(<SetNetworkType as Wire>::wire);
        }
        let mut members: Vec<Member> = Vec::new();
        put(&mut members, "type", self.type_.encode());
        seal(members, "setNetworkType")
    }

    fn decode(j: &Json, at: &str) -> (r: Result<Self, DecodeError>) {
        proof {
            reveal(<SetNetworkType as Wire>::wire);
            reveal(<SetNetworkType as Wire>::parse);
        }
        let members = members_of(j, at)?;
        let type_ = read_field::<NetworkType>(members, "type")?;
        Ok(SetNetworkType { type_ })
    }

    proof fn round_trip(&self, at: Seq<char>) {
        reveal(<SetNetworkType as Wire>::wire);
        reveal(<SetNetworkType as Wire>::parse);
        reveal_strlit("@type");
        reveal_strlit("type");
        assert("@type"@.len() == 5);
        assert("type"@.len() == 4);
        self.type_.round_trip("type"@);
    }
}

impl Tagged for SetNetworkType {
    open spec fn known(tag: Seq<char>) -> bool {
        tag == "setNetworkType"@
    }

    fn knows(tag: &str) -> (r: bool) {
        same_text(tag, "setNetworkType")
    }

    proof fn tag_known(&self) {
        reveal(<SetNetworkType as Wire>::wire);
        assert(tag_of(self.wire()) == Some("setNetworkType"@));
        assert(Self::known("setNetworkType"@));
    }
}

impl Method for SetNetworkType {
    const TYPE: &'static str = "setNetworkType";

    type Response = Okay;

    proof fn type_is_tag(&self) {
        reveal(<SetNetworkType as Wire>::wire);
        assert(tag_of(self.wire()) == Some("setNetworkType"@));
    }
}

/// Returns network data usage statistics. Can be called before authorization
#[derive(Debug, Clone)]
pub struct GetNetworkStatistics {
    /// If true, returns only data for the current library launch
    pub only_current: bool,
}

impl Wire for GetNetworkStatistics {
    #[verifier::opaque]
    open spec fn wire(&self) -> Doc {
        tagged(
            Map::empty()
                .insert("onlyCurrent"@, self.only_current.wire()),
            "getNetworkStatistics"@,
        )
    }

    #[verifier::opaque]
    open spec fn parse(d: Doc, at: Seq<char>) -> Result<Doc, Fault> {
        match d {
            Doc::Object(m) => {
                let only_current = field::<bool>(m, "onlyCurrent"@);
                if only_current is Err {
                    only_current
                } else {
                    Ok(
                        tagged(
                            Map::empty()
                                .insert("onlyCurrent"@, only_current->Ok_0),
                            "getNetworkStatistics"@,
                        ),
                    )
                }
            },
            _ => Err(Fault::TypeMismatch(at)),
        }
    }

    fn encode(&self) -> (j: Json) {
        proof {
            reveal(<GetNetworkStatistics as Wire>::wire);
        }
        let mut members: Vec<Member> = Vec::new();
        put(&mut members, "onlyCurrent", self.only_current.encode());
        seal(members, "getNetworkStatistics")
    }

    fn decode(j: &Json, at: &str) -> (r: Result<Self, DecodeError>) {
        proof {
            reveal(<GetNetworkStatistics as Wire>::wire);
            reveal(<GetNetworkStatistics as Wire>::parse);
        }
        let members = members_of(j, at)?;
        let only_current = read_field::<bool>(members, "onlyCurrent")?;
        Ok(GetNetworkStatistics { only_current })
    }

    proof fn round_trip(&self, at: Seq<char>) {
        reveal(<GetNetworkStatistics as Wire>::wire);
        reveal(<GetNetworkStatistics as Wire>::parse);
        reveal_strlit("@type");
        reveal_strlit("onlyCurrent");
        assert("@type"@.len() == 5);
        assert("onlyCurrent"@.len() == 11);
        self.only_current.round_trip("onlyCurrent"@);
    }
}

impl Tagged for GetNetworkStatistics {
    open spec fn known(tag: Seq<char>) -> bool {
        tag == "getNetworkStatistics"@
    }

    fn knows(tag: &str) -> (r: bool) {
        same_text(tag, "getNetworkStatistics")
    }

    proof fn tag_known(&self) {
        reveal(<GetNetworkStatistics as Wire>::wire);
        assert(tag_of(self.wire()) == Some("getNetworkStatistics"@));
        assert(Self::known("getNetworkStatistics"@));
    }
}

impl Method for GetNetworkStatistics {
    const TYPE: &'static str = "getNetworkStatistics";

    type Response = NetworkStatistics;

    proof fn type_is_tag(&self) {
        reveal(<GetNetworkStatistics as Wire>::wire);
        assert(tag_of(self.wire()) == Some("getNetworkStatistics"@));
    }
}

/// Adds the specified data to data usage statistics. Can be called before authorization
#[derive(Debug, Clone)]
pub struct AddNetworkStatistics {
    /// The network statistics entry with the data to be added to statistics
    pub entry: NetworkStatisticsEntry,
}

impl Wire for AddNetworkStatistics {
    #[verifier::opaque]
    open spec fn wire(&self) -> Doc {
        tagged(
            Map::empty()
                .insert("entry"@, self.entry.wire()),
            "addNetworkStatistics"@,
        )
    }

    #[verifier::opaque]
    open spec fn parse(d: Doc, at: Seq<char>) -> Result<Doc, Fault> {
        match d {
            Doc::Object(m) => {
                let entry = field::<NetworkStatisticsEntry>(m, "entry"@);
                if entry is Err {
                    entry
                } else {
                    Ok(
                        tagged(
                            Map::empty()
                                .insert("entry"@, entry->Ok_0),
                            "addNetworkStatistics"@,
                        ),
                    )
                }
            },
            _ => Err(Fault::TypeMismatch(at)),
        }
    }

    fn encode(&self) -> (j: Json) {
        proof {
            reveal(<AddNetworkStatistics as Wire>::wire);
        }
        let mut members: Vec<Member> = Vec::new();
        put(&mut members, "entry", self.entry.encode());
        seal(members, "addNetworkStatistics")
    }

    fn decode(j: &Json, at: &str) -> (r: Result<Self, DecodeError>) {
        proof {
            reveal(<AddNetworkStatistics as Wire>::wire);
            reveal(<AddNetworkStatistics as Wire>::parse);
        }
        let members = members_of(j, at)?;
        let entry = read_field::<NetworkStatisticsEntry>(members, "entry")?;
        Ok(AddNetworkStatistics { entry })
    }

    proof fn round_trip(&self, at: Seq<char>) {
        reveal(<AddNetworkStatistics as Wire>::wire);
        reveal(<AddNetworkStatistics as Wire>::parse);
        reveal_strlit("@type");
        reveal_strlit("entry");
        assert("@type"@.len() == 5 && "@type"@[0] == '@');
        assert("entry"@.len() == 5 && "entry"@[0] == 'e');
        self.entry.round_trip("entry"@);
    }
}

impl Tagged for AddNetworkStatistics {
    open spec fn known(tag: Seq<char>) -> bool {
        tag == "addNetworkStatistics"@
    }

    fn knows(tag: &str) -> (r: bool) {
        same_text(tag, "addNetworkStatistics")
    }

    proof fn tag_known(&self) {
        reveal(<AddNetworkStatistics as Wire>::wire);
        assert(tag_of(self.wire()) == Some("addNetworkStatistics"@));
        assert(Self::known("addNetworkStatistics"@));
    }
}

impl Method for AddNetworkStatistics {
    const TYPE: &'static str = "addNetworkStatistics";

    type Response = Okay;

    proof fn type_is_tag(&self) {
        reveal(<AddNetworkStatistics as Wire>::wire);
        assert(tag_of(self.wire()) == Some("addNetworkStatistics"@));
    }
}

/// Resets all network data usage statistics to zero. Can be called before authorization
#[derive(Debug, Clone)]
pub struct ResetNetworkStatistics {}

impl Wire for ResetNetworkStatistics {
    #[verifier::opaque]
    open spec fn wire(&self) -> Doc {
        tagged(Map::empty(), "resetNetworkStatistics"@)
    }

    #[verifier::opaque]
    open spec fn parse(d: Doc, at: Seq<char>) -> Result<Doc, Fault> {
        match d {
            Doc::Object(_) => Ok(tagged(Map::empty(), "resetNetworkStatistics"@)),
            _ => Err(Fault::TypeMismatch(at)),
        }
    }

    fn encode(&self) -> (j: Json) {
        proof {
            reveal(<ResetNetworkStatistics as Wire>::wire);
        }
        seal(Vec::new(), "resetNetworkStatistics")
    }

    fn decode(j: &Json, at: &str) -> (r: Result<Self, DecodeError>) {
        proof {
            reveal(<ResetNetworkStatistics as Wire>::wire);
            reveal(<ResetNetworkStatistics as Wire>::parse);
        }
        let _ = members_of(j, at)?;
        Ok(ResetNetworkStatistics {})
    }

    proof fn round_trip(&self, at: Seq<char>) {
        reveal(<ResetNetworkStatistics as Wire>::wire);
        reveal(<ResetNetworkStatistics as Wire>::parse);
    }
}

impl Tagged for ResetNetworkStatistics {
    open spec fn known(tag: Seq<char>) -> bool {
        tag == "resetNetworkStatistics"@
    }

    fn knows(tag: &str) -> (r: bool) {
        same_text(tag, "resetNetworkStatistics")
    }

    proof fn tag_known(&self) {
        reveal(<ResetNetworkStatistics as Wire>::wire);
        assert(tag_of(self.wire()) == Some("resetNetworkStatistics"@));
        assert(Self::known("resetNetworkStatistics"@));
    }
}

impl Method for ResetNetworkStatistics {
    const TYPE: &'static str = "resetNetworkStatistics";

    type Response = Okay;

    proof fn type_is_tag(&self) {
        reveal(<ResetNetworkStatistics as Wire>::wire);
        assert(tag_of(self.wire()) == Some("resetNetworkStatistics"@));
    }
}

/// Returns auto-download settings presets for the currently logged in user
#[derive(Debug, Clone)]
pub struct GetAutoDownloadSettingsPresets {}

impl Wire for GetAutoDownloadSettingsPresets {
    #[verifier::opaque]
    open spec fn wire(&self) -> Doc {
        tagged(Map::empty(), "getAutoDownloadSettingsPresets"@)
    }

    #[verifier::opaque]
    open spec fn parse(d: Doc, at: Seq<char>) -> Result<Doc, Fault> {
        match d {
            Doc::Object(_) => Ok(tagged(Map::empty(), "getAutoDownloadSettingsPresets"@)),
            _ => Err(Fault::TypeMismatch(at)),
        }
    }

    fn encode(&self) -> (j: Json) {
        proof {
            reveal(<GetAutoDownloadSettingsPresets as Wire>::wire);
        }
        seal(Vec::new(), "getAutoDownloadSettingsPresets")
    }

    fn decode(j: &Json, at: &str) -> (r: Result<Self, DecodeError>) {
        proof {
            reveal(<GetAutoDownloadSettingsPresets as Wire>::wire);
            reveal(<GetAutoDownloadSettingsPresets as Wire>::parse);
        }
        let _ = members_of(j, at)?;
        Ok(GetAutoDownloadSettingsPresets {})
    }

    proof fn round_trip(&self, at: Seq<char>) {
        reveal(<GetAutoDownloadSettingsPresets as Wire>::wire);
        reveal(<GetAutoDownloadSettingsPresets as Wire>::parse);
    }
}

impl Tagged for GetAutoDownloadSettingsPresets {
    open spec fn known(tag: Seq<char>) -> bool {
        tag == "getAutoDownloadSettingsPresets"@
    }

    fn knows(tag: &str) -> (r: bool) {
        same_text(tag, "getAutoDownloadSettingsPresets")
    }

    proof fn tag_known(&self) {
        reveal(<GetAutoDownloadSettingsPresets as Wire>::wire);
        assert(tag_of(self.wire()) == Some("getAutoDownloadSettingsPresets"@));
        assert(Self::known("getAutoDownloadSettingsPresets"@));
    }
}

impl Method for GetAutoDownloadSettingsPresets {
    const TYPE: &'static str = "getAutoDownloadSettingsPresets";

    type Response = AutoDownloadSettingsPresets;

    proof fn type_is_tag(&self) {
        reveal(<GetAutoDownloadSettingsPresets as Wire>::wire);
        assert(tag_of(self.wire()) == Some("getAutoDownloadSettingsPresets"@));
    }
}

/// Sets auto-download settings
#[derive(Debug, Clone)]
pub struct SetAutoDownloadSettings {
    /// New user auto-download settings
    pub settings: AutoDownloadSettings,
    /// Type of the network for which the new settings are applied
    pub type_: NetworkType,
}

impl Wire for SetAutoDownloadSettings {
    #[verifier::opaque]
    open spec fn wire(&self) -> Doc {
        tagged(
            Map::empty()
                .insert("settings"@, self.settings.wire())
                .insert("type"@, self.type_.wire()),
            "setAutoDownloadSettings"@,
        )
    }

    #[verifier::opaque]
    open spec fn parse(d: Doc, at: Seq<char>) -> Result<Doc, Fault> {
        match d {
            Doc::Object(m) => {
                let settings = field::<AutoDownloadSettings>(m, "settings"@);
                let type_ = field::<NetworkType>(m, "type"@);
                if settings is Err {
                    settings
                } else if type_ is Err {
                    type_
                } else {
                    Ok(
                        tagged(
                            Map::empty()
                                .insert("settings"@, settings->Ok_0)
                                .insert("type"@, type_->Ok_0),
                            "setAutoDownloadSettings"@,
                        ),
                    )
                }
            },
            _ => Err(Fault::TypeMismatch(at)),
        }
    }

    fn encode(&self) -> (j: Json) {
        proof {
            reveal(<SetAutoDownloadSettings as Wire>::wire);
        }
        let mut members: Vec<Member> = Vec::new();
        put(&mut members, "settings", self.settings.encode());
        put(&mut members, "type", self.type_.encode());
        seal(members, "setAutoDownloadSettings")
    }

    fn decode(j: &Json, at: &str) -> (r: Result<Self, DecodeError>) {
        proof {
            reveal(<SetAutoDownloadSettings as Wire>::wire);
            reveal(<SetAutoDownloadSettings as Wire>::parse);
        }
        let members = members_of(j, at)?;
        let settings = read_field::<AutoDownloadSettings>(members, "settings")?;
        let type_ = read_field::<NetworkType>(members, "type")?;
        Ok(SetAutoDownloadSettings { settings, type_ })
    }

    proof fn round_trip(&self, at: Seq<char>) {
        reveal(<SetAutoDownloadSettings as Wire>::wire);
        reveal(<SetAutoDownloadSettings as Wire>::parse);
        reveal_strlit("@type");
        reveal_strlit("settings");
        reveal_strlit("type");
        assert("@type"@.len() == 5);
        assert("settings"@.len() == 8);
        assert("type"@.len() == 4);
        self.settings.round_trip("settings"@);
        self.type_.round_trip("type"@);
    }
}

impl Tagged for SetAutoDownloadSettings {
    open spec fn known(tag: Seq<char>) -> bool {
        tag == "setAutoDownloadSettings"@
    }

    fn knows(tag: &str) -> (r: bool) {
        same_text(tag, "setAutoDownloadSettings")
    }

    proof fn tag_known(&self) {
        reveal(<SetAutoDownloadSettings as Wire>::wire);
        assert(tag_of(self.wire()) == Some("setAutoDownloadSettings"@));
        assert(Self::known("setAutoDownloadSettings"@));
    }
}

impl Method for SetAutoDownloadSettings {
    const TYPE: &'static str = "setAutoDownloadSettings";

    type Response = Okay;

    proof fn type_is_tag(&self) {
        reveal(<SetAutoDownloadSettings as Wire>::wire);
        assert(tag_of(self.wire()) == Some("setAutoDownloadSettings"@));
    }
}

/// Returns one of the available Telegram Passport elements
#[derive(Debug, Clone)]
pub struct GetPassportElement {
    /// Telegram Passport element type
    pub type_: PassportElementType,
    /// Password of the current user
    pub password: String,
}

impl Wire for GetPassportElement {
    #[verifier::opaque]
    open spec fn wire(&self) -> Doc {
        tagged(
            Map::empty()
                .insert("type"@, self.type_.wire())
                .insert("password"@, self.password.wire()),
            "getPassportElement"@,
        )
    }

    #[verifier::opaque]
    open spec fn parse(d: Doc, at: Seq<char>) -> Result<Doc, Fault> {
        match d {
            Doc::Object(m) => {
                let type_ = field::<PassportElementType>(m, "type"@);
                let password = field::<String>(m, "password"@);
                if type_ is Err {
                    type_
                } else if password is Err {
                    password
                } else {
                    Ok(
                        tagged(
                            Map::empty()
                                .insert("type"@, type_->Ok_0)
                                .insert("password"@, password->Ok_0),
                            "getPassportElement"@,
                        ),
                    )
                }
            },
            _ => Err(Fault::TypeMismatch(at)),
        }
    }

    fn encode(&self) -> (j: Json) {
        proof {
            reveal(<GetPassportElement as Wire>::wire);
        }
        let mut members: Vec<Member> = Vec::new();
        put(&mut members, "type", self.type_.encode());
        put(&mut members, "password", self.password.encode());
        seal(members, "getPassportElement")
    }

    fn decode(j: &Json, at: &str) -> (r: Result<Self, DecodeError>) {
        proof {
            reveal(<GetPassportElement as Wire>::wire);
            reveal(<GetPassportElement as Wire>::parse);
        }
        let members = members_of(j, at)?;
        let type_ = read_field::<PassportElementType>(members, "type")?;
        let password = read_field::<String>(members, "password")?;
        Ok(GetPassportElement { type_, password })
    }

    proof fn round_trip(&self, at: Seq<char>) {
        reveal(<GetPassportElement as Wire>::wire);
        reveal(<GetPassportElement as Wire>::parse);
        reveal_strlit("@type");
        reveal_strlit("password");
        reveal_strlit("type");
        assert("@type"@.len() == 5);
        assert("password"@.len() == 8);
        assert("type"@.len() == 4);
        self.type_.round_trip("type"@);
        self.password.round_trip("password"@);
    }
}

impl Tagged for GetPassportElement {
    open spec fn known(tag: Seq<char>) -> bool {
        tag == "getPassportElement"@
    }

    fn knows(tag: &str) -> (r: bool) {
        same_text(tag, "getPassportElement")
    }

    proof fn tag_known(&self) {
        reveal(<GetPassportElement as Wire>::wire);
        assert(tag_of(self.wire()) == Some("getPassportElement"@));
        assert(Self::known("getPassportElement"@));
    }
}

impl Method for GetPassportElement {
    const TYPE: &'static str = "getPassportElement";

    type Response = PassportElement;

    proof fn type_is_tag(&self) {
        reveal(<GetPassportElement as Wire>::wire);
        assert(tag_of(self.wire()) == Some("getPassportElement"@));
    }
}

} // verus!
