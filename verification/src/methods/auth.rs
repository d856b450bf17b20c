//! Requests that authorize the client and manage its password.

use vstd::prelude::*;
use crate::codec::{field, members_of, put, read_field, seal, Tagged, Wire};
use crate::error::{DecodeError, Fault};
use crate::json::{Doc, Json, Member, tag_of, tagged};
use crate::methods::Method;
use crate::text::same_text;
use crate::types::{
    AuthorizationState, EmailAddressAuthenticationCodeInfo, Okay, PasswordState,
    PhoneNumberAuthenticationSettings, RecoveryEmailAddress, Session, TdlibParameters,
    TemporaryPasswordState, Updates,
};

verus! {

/// Returns the current authorization state; this is an offline request. For informational purposes
/// only. Use updateAuthorizationState instead to maintain the current authorization state
#[derive(Debug, Clone)]
pub struct GetAuthorizationState {}

impl Wire for GetAuthorizationState {
    #[verifier::opaque]
    open spec fn wire(&self) -> Doc {
        tagged(Map::empty(), "getAuthorizationState"@)
    }

    #[verifier::opaque]
    open spec fn parse(d: Doc, at: Seq<char>) -> Result<Doc, Fault> {
        match d {
            Doc::Object(_) => Ok(tagged(Map::empty(), "getAuthorizationState"@)),
            _ => Err(Fault::TypeMismatch(at)),
        }
    }

    fn encode(&self) -> (j: Json) {
        proof {
            reveal(<GetAuthorizationState as Wire>::wire);
        }
        seal(Vec::new(), "getAuthorizationState")
    }

    fn decode(j: &Json, at: &str) -> (r: Result<Self, DecodeError>) {
        proof {
            reveal(<GetAuthorizationState as Wire>::wire);
            reveal(<GetAuthorizationState as Wire>::parse);
        }
        let _ = members_of(j, at)?;
        Ok(GetAuthorizationState {})
    }

    proof fn round_trip(&self, at: Seq<char>) {
        reveal(<GetAuthorizationState as Wire>::wire);
        reveal(<GetAuthorizationState as Wire>::parse);
    }
}

impl Tagged for GetAuthorizationState {
    open spec fn known(tag: Seq<char>) -> bool {
        tag == "getAuthorizationState"@
    }

    fn knows(tag: &str) -> (r: bool) {
        same_text(tag, "getAuthorizationState")
    }

    proof fn tag_known(&self) {
        reveal(<GetAuthorizationState as Wire>::wire);
        assert(tag_of(self.wire()) == Some("getAuthorizationState"@));
        assert(Self::known("getAuthorizationState"@));
    }
}

impl Method for GetAuthorizationState {
    const TYPE: &'static str = "getAuthorizationState";

    type Response = AuthorizationState;

    proof fn type_is_tag(&self) {
        reveal(<GetAuthorizationState as Wire>::wire);
        assert(tag_of(self.wire()) == Some("getAuthorizationState"@));
    }
}

/// Sets the parameters for TDLib initialization. Works only when the current authorization state is
/// authorizationStateWaitTdlibParameters
#[derive(Debug, Clone)]
pub struct SetTdlibParameters {
    /// Parameters
    pub parameters: TdlibParameters,
}

impl Wire for SetTdlibParameters {
    #[verifier::opaque]
    open spec fn wire(&self) -> Doc {
        tagged(
            Map::empty()
                .insert("parameters"@, self.parameters.wire()),
            "setTdlibParameters"@,
        )
    }

    #[verifier::opaque]
    open spec fn parse(d: Doc, at: Seq<char>) -> Result<Doc, Fault> {
        match d {
            Doc::Object(m) => {
                let parameters = field::<TdlibParameters>(m, "parameters"@);
                if parameters is Err {
                    parameters
                } else {
                    Ok(
                        tagged(
                            Map::empty()
                                .insert("parameters"@, parameters->Ok_0),
                            "setTdlibParameters"@,
                        ),
                    )
                }
            },
            _ => Err(Fault::TypeMismatch(at)),
        }
    }

    fn encode(&self) -> (j: Json) {
        proof {
            reveal(<SetTdlibParameters as Wire>::wire);
        }
        let mut members: Vec<Member> = Vec::new();
        put(&mut members, "parameters", self.parameters.encode());
        seal(members, "setTdlibParameters")
    }

    fn decode(j: &Json, at: &str) -> (r: Result<Self, DecodeError>) {
        proof {
            reveal(<SetTdlibParameters as Wire>::wire);
            reveal(<SetTdlibParameters as Wire>::parse);
        }
        let members = members_of(j, at)?;
        let parameters = read_field::<TdlibParameters>(members, "parameters")?;
        Ok(SetTdlibParameters { parameters })
    }

    proof fn round_trip(&self, at: Seq<char>) {
        reveal(<SetTdlibParameters as Wire>::wire);
        reveal(<SetTdlibParameters as Wire>::parse);
        reveal_strlit("@type");
        reveal_strlit("parameters");
        assert("@type"@.len() == 5);
        assert("parameters"@.len() == 10);
        self.parameters.round_trip("parameters"@);
    }
}

impl Tagged for SetTdlibParameters {
    open spec fn known(tag: Seq<char>) -> bool {
        tag == "setTdlibParameters"@
    }

    fn knows(tag: &str) -> (r: bool) {
        same_text(tag, "setTdlibParameters")
    }

    proof fn tag_known(&self) {
        reveal(<SetTdlibParameters as Wire>::wire);
        assert(tag_of(self.wire()) == Some("setTdlibParameters"@));
        assert(Self::known("setTdlibParameters"@));
    }
}

impl Method for SetTdlibParameters {
    const TYPE: &'static str = "setTdlibParameters";

    type Response = Okay;

    proof fn type_is_tag(&self) {
        reveal(<SetTdlibParameters as Wire>::wire);
        assert(tag_of(self.wire()) == Some("setTdlibParameters"@));
    }
}

/// Checks the database encryption key for correctness. Works only when the current authorization
/// state is authorizationStateWaitEncryptionKey
#[derive(Debug, Clone)]
pub struct CheckDatabaseEncryptionKey {
    /// Encryption key to check or set up
    pub encryption_key: String,
}

impl Wire for CheckDatabaseEncryptionKey {
    #[verifier::opaque]
    open spec fn wire(&self) -> Doc {
        tagged(
            Map::empty()
                .insert("encryptionKey"@, self.encryption_key.wire()),
            "checkDatabaseEncryptionKey"@,
        )
    }

    #[verifier::opaque]
    open spec fn parse(d: Doc, at: Seq<char>) -> Result<Doc, Fault> {
        match d {
            Doc::Object(m) => {
                let encryption_key = field::<String>(m, "encryptionKey"@);
                if encryption_key is Err {
                    encryption_key
                } else {
                    Ok(
                        tagged(
                            Map::empty()
                                .insert("encryptionKey"@, encryption_key->Ok_0),
                            "checkDatabaseEncryptionKey"@,
                        ),
                    )
                }
            },
            _ => Err(Fault::TypeMismatch(at)),
        }
    }

    fn encode(&self) -> (j: Json) {
        proof {
            reveal(<CheckDatabaseEncryptionKey as Wire>::wire);
        }
        let mut members: Vec<Member> = Vec::new();
        put(&mut members, "encryptionKey", self.encryption_key.encode());
        seal(members, "checkDatabaseEncryptionKey")
    }

    fn decode(j: &Json, at: &str) -> (r: Result<Self, DecodeError>) {
        proof {
            reveal(<CheckDatabaseEncryptionKey as Wire>::wire);
            reveal(<CheckDatabaseEncryptionKey as Wire>::parse);
        }
        let members = members_of(j, at)?;
        let encryption_key = read_field::<String>(members, "encryptionKey")?;
        Ok(CheckDatabaseEncryptionKey { encryption_key })
    }

    proof fn round_trip(&self, at: Seq<char>) {
        reveal(<CheckDatabaseEncryptionKey as Wire>::wire);
        reveal(<CheckDatabaseEncryptionKey as Wire>::parse);
        reveal_strlit("@type");
        reveal_strlit("encryptionKey");
        assert("@type"@.len() == 5);
        assert("encryptionKey"@.len() == 13);
        self.encryption_key.round_trip("encryptionKey"@);
    }
}

impl Tagged for CheckDatabaseEncryptionKey {
    open spec fn known(tag: Seq<char>) -> bool {
        tag == "checkDatabaseEncryptionKey"@
    }

    fn knows(tag: &str) -> (r: bool) {
        same_text(tag, "checkDatabaseEncryptionKey")
    }

    proof fn tag_known(&self) {
        reveal(<CheckDatabaseEncryptionKey as Wire>::wire);
        assert(tag_of(self.wire()) == Some("checkDatabaseEncryptionKey"@));
        assert(Self::known("checkDatabaseEncryptionKey"@));
    }
}

impl Method for CheckDatabaseEncryptionKey {
    const TYPE: &'static str = "checkDatabaseEncryptionKey";

    type Response = Okay;

    proof fn type_is_tag(&self) {
        reveal(<CheckDatabaseEncryptionKey as Wire>::wire);
        assert(tag_of(self.wire()) == Some("checkDatabaseEncryptionKey"@));
    }
}

/// Sets the phone number of the user and sends an authentication code to the user. Works only when
/// the current authorization state is authorizationStateWaitPhoneNumber, or if there is no pending
/// authentication query and the current authorization state is authorizationStateWaitCode,
/// authorizationStateWaitRegistration, or authorizationStateWaitPassword
#[derive(Debug, Clone)]
pub struct SetAuthenticationPhoneNumber {
    /// The phone number of the user, in international format
    pub phone_number: String,
    /// Settings for the authentication of the user's phone number
    pub settings: PhoneNumberAuthenticationSettings,
}

impl Wire for SetAuthenticationPhoneNumber {
    #[verifier::opaque]
    open spec fn wire(&self) -> Doc {
        tagged(
            Map::empty()
                .insert("phoneNumber"@, self.phone_number.wire())
                .insert("settings"@, self.settings.wire()),
            "setAuthenticationPhoneNumber"@,
        )
    }

    #[verifier::opaque]
    open spec fn parse(d: Doc, at: Seq<char>) -> Result<Doc, Fault> {
        match d {
            Doc::Object(m) => {
                let phone_number = field::<String>(m, "phoneNumber"@);
                let settings = field::<PhoneNumberAuthenticationSettings>(m, "settings"@);
                if phone_number is Err {
                    phone_number
                } else if settings is Err {
                    settings
                } else {
                    Ok(
                        tagged(
                            Map::empty()
                                .insert("phoneNumber"@, phone_number->Ok_0)
                                .insert("settings"@, settings->Ok_0),
                            "setAuthenticationPhoneNumber"@,
                        ),
                    )
                }
            },
            _ => Err(Fault::TypeMismatch(at)),
        }
    }

    fn encode(&self) -> (j: Json) {
        proof {
            reveal(<SetAuthenticationPhoneNumber as Wire>::wire);
        }
        let mut members: Vec<Member> = Vec::new();
        put(&mut members, "phoneNumber", self.phone_number.encode());
        put(&mut members, "settings", self.settings.encode());
        seal(members, "setAuthenticationPhoneNumber")
    }

    fn decode(j: &Json, at: &str) -> (r: Result<Self, DecodeError>) {
        proof {
            reveal(<SetAuthenticationPhoneNumber as Wire>::wire);
            reveal(<SetAuthenticationPhoneNumber as Wire>::parse);
        }
        let members = members_of(j, at)?;
        let phone_number = read_field::<String>(members, "phoneNumber")?;
        let settings = read_field::<PhoneNumberAuthenticationSettings>(members, "settings")?;
        Ok(SetAuthenticationPhoneNumber { phone_number, settings })
    }

    proof fn round_trip(&self, at: Seq<char>) {
        reveal(<SetAuthenticationPhoneNumber as Wire>::wire);
        reveal(<SetAuthenticationPhoneNumber as Wire>::parse);
        reveal_strlit("@type");
        reveal_strlit("phoneNumber");
        reveal_strlit("settings");
        assert("@type"@.len() == 5);
        assert("phoneNumber"@.len() == 11);
        assert("settings"@.len() == 8);
        self.phone_number.round_trip("phoneNumber"@);
        self.settings.round_trip("settings"@);
    }
}

impl Tagged for SetAuthenticationPhoneNumber {
    open spec fn known(tag: Seq<char>) -> bool {
        tag == "setAuthenticationPhoneNumber"@
    }

    fn knows(tag: &str) -> (r: bool) {
        same_text(tag, "setAuthenticationPhoneNumber")
    }

    proof fn tag_known(&self) {
        reveal(<SetAuthenticationPhoneNumber as Wire>::wire);
        assert(tag_of(self.wire()) == Some("setAuthenticationPhoneNumber"@));
        assert(Self::known("setAuthenticationPhoneNumber"@));
    }
}

impl Method for SetAuthenticationPhoneNumber {
    const TYPE: &'static str = "setAuthenticationPhoneNumber";

    type Response = Okay;

    proof fn type_is_tag(&self) {
        reveal(<SetAuthenticationPhoneNumber as Wire>::wire);
        assert(tag_of(self.wire()) == Some("setAuthenticationPhoneNumber"@));
    }
}

/// Re-sends an authentication code to the user. Works only when the current authorization state is
/// authorizationStateWaitCode and the next_code_type of the result is not null
#[derive(Debug, Clone)]
pub struct ResendAuthenticationCode {}

impl Wire for ResendAuthenticationCode {
    #[verifier::opaque]
    open spec fn wire(&self) -> Doc {
        tagged(Map::empty(), "resendAuthenticationCode"@)
    }

    #[verifier::opaque]
    open spec fn parse(d: Doc, at: Seq<char>) -> Result<Doc, Fault> {
        match d {
            Doc::Object(_) => Ok(tagged(Map::empty(), "resendAuthenticationCode"@)),
            _ => Err(Fault::TypeMismatch(at)),
        }
    }

    fn encode(&self) -> (j: Json) {
        proof {
            reveal(<ResendAuthenticationCode as Wire>::wire);
        }
        seal(Vec::new(), "resendAuthenticationCode")
    }

    fn decode(j: &Json, at: &str) -> (r: Result<Self, DecodeError>) {
        proof {
            reveal(<ResendAuthenticationCode as Wire>::wire);
            reveal(<ResendAuthenticationCode as Wire>::parse);
        }
        let _ = members_of(j, at)?;
        Ok(ResendAuthenticationCode {})
    }

    proof fn round_trip(&self, at: Seq<char>) {
        reveal(<ResendAuthenticationCode as Wire>::wire);
        reveal(<ResendAuthenticationCode as Wire>::parse);
    }
}

impl Tagged for ResendAuthenticationCode {
    open spec fn known(tag: Seq<char>) -> bool {
        tag == "resendAuthenticationCode"@
    }

    fn knows(tag: &str) -> (r: bool) {
        same_text(tag, "resendAuthenticationCode")
    }

    proof fn tag_known(&self) {
        reveal(<ResendAuthenticationCode as Wire>::wire);
        assert(tag_of(self.wire()) == Some("resendAuthenticationCode"@));
        assert(Self::known("resendAuthenticationCode"@));
    }
}

impl Method for ResendAuthenticationCode {
    const TYPE: &'static str = "resendAuthenticationCode";

    type Response = Okay;

    proof fn type_is_tag(&self) {
        reveal(<ResendAuthenticationCode as Wire>::wire);
        assert(tag_of(self.wire()) == Some("resendAuthenticationCode"@));
    }
}

/// Checks the authentication code. Works only when the current authorization state is
/// authorizationStateWaitCode
#[derive(Debug, Clone)]
pub struct CheckAuthenticationCode {
    /// The verification code received via SMS, Telegram message, phone call, or flash call
    pub code: String,
}

impl Wire for CheckAuthenticationCode {
    #[verifier::opaque]
    open spec fn wire(&self) -> Doc {
        tagged(
            Map::empty()
                .insert("code"@, self.code.wire()),
            "checkAuthenticationCode"@,
        )
    }

    #[verifier::opaque]
    open spec fn parse(d: Doc, at: Seq<char>) -> Result<Doc, Fault> {
        match d {
            Doc::Object(m) => {
                let code = field::<String>(m, "code"@);
                if code is Err {
                    code
                } else {
                    Ok(
                        tagged(
                            Map::empty()
                                .insert("code"@, code->Ok_0),
                            "checkAuthenticationCode"@,
                        ),
                    )
                }
            },
            _ => Err(Fault::TypeMismatch(at)),
        }
    }

    fn encode(&self) -> (j: Json) {
        proof {
            reveal(<CheckAuthenticationCode as Wire>::wire);
        }
        let mut members: Vec<Member> = Vec::new();
        put(&mut members, "code", self.code.encode());
        seal(members, "checkAuthenticationCode")
    }

    fn decode(j: &Json, at: &str) -> (r: Result<Self, DecodeError>) {
        proof {
            reveal(<CheckAuthenticationCode as Wire>::wire);
            reveal(<CheckAuthenticationCode as Wire>::parse);
        }
        let members = members_of(j, at)?;
        let code = read_field::<String>(members, "code")?;
        Ok(CheckAuthenticationCode { code })
    }

    proof fn round_trip(&self, at: Seq<char>) {
        reveal(<CheckAuthenticationCode as Wire>::wire);
        reveal(<CheckAuthenticationCode as Wire>::parse);
        reveal_strlit("@type");
        reveal_strlit("code");
        assert("@type"@.len() == 5);
        assert("code"@.len() == 4);
        self.code.round_trip("code"@);
    }
}

impl Tagged for CheckAuthenticationCode {
    open spec fn known(tag: Seq<char>) -> bool {
        tag == "checkAuthenticationCode"@
    }

    fn knows(tag: &str) -> (r: bool) {
        same_text(tag, "checkAuthenticationCode")
    }

    proof fn tag_known(&self) {
        reveal(<CheckAuthenticationCode as Wire>::wire);
        assert(tag_of(self.wire()) == Some("checkAuthenticationCode"@));
        assert(Self::known("checkAuthenticationCode"@));
    }
}

impl Method for CheckAuthenticationCode {
    const TYPE: &'static str = "checkAuthenticationCode";

    type Response = Okay;

    proof fn type_is_tag(&self) {
        reveal(<CheckAuthenticationCode as Wire>::wire);
        assert(tag_of(self.wire()) == Some("checkAuthenticationCode"@));
    }
}

/// Requests QR code authentication by scanning a QR code on another logged in device. Works only
/// when the current authorization state is authorizationStateWaitPhoneNumber
#[derive(Debug, Clone)]
pub struct RequestQrCodeAuthentication {
    /// List of user identifiers of other users currently using the client
    pub other_user_ids: Vec<i32>,
}

impl Wire for RequestQrCodeAuthentication {
    #[verifier::opaque]
    open spec fn wire(&self) -> Doc {
        tagged(
            Map::empty()
                .insert("otherUserIds"@, self.other_user_ids.wire()),
            "requestQrCodeAuthentication"@,
        )
    }

    #[verifier::opaque]
    open spec fn parse(d: Doc, at: Seq<char>) -> Result<Doc, Fault> {
        match d {
            Doc::Object(m) => {
                let other_user_ids = field::<Vec<i32>>(m, "otherUserIds"@);
                if other_user_ids is Err {
                    other_user_ids
                } else {
                    Ok(
                        tagged(
                            Map::empty()
                                .insert("otherUserIds"@, other_user_ids->Ok_0),
                            "requestQrCodeAuthentication"@,
                        ),
                    )
                }
            },
            _ => Err(Fault::TypeMismatch(at)),
        }
    }

    fn encode(&self) -> (j: Json) {
        proof {
            reveal(<RequestQrCodeAuthentication as Wire>::wire);
        }
        let mut members: Vec<Member> = Vec::new();
        put(&mut members, "otherUserIds", self.other_user_ids.encode());
        seal(members, "requestQrCodeAuthentication")
    }

    fn decode(j: &Json, at: &str) -> (r: Result<Self, DecodeError>) {
        proof {
            reveal(<RequestQrCodeAuthentication as Wire>::wire);
            reveal(<RequestQrCodeAuthentication as Wire>::parse);
        }
        let members = members_of(j, at)?;
        let other_user_ids = read_field::<Vec<i32>>(members, "otherUserIds")?;
        Ok(RequestQrCodeAuthentication { other_user_ids })
    }

    proof fn round_trip(&self, at: Seq<char>) {
        reveal(<RequestQrCodeAuthentication as Wire>::wire);
        reveal(<RequestQrCodeAuthentication as Wire>::parse);
        reveal_strlit("@type");
        reveal_strlit("otherUserIds");
        assert("@type"@.len() == 5);
        assert("otherUserIds"@.len() == 12);
        self.other_user_ids.round_trip("otherUserIds"@);
    }
}

impl Tagged for RequestQrCodeAuthentication {
    open spec fn known(tag: Seq<char>) -> bool {
        tag == "requestQrCodeAuthentication"@
    }

    fn knows(tag: &str) -> (r: bool) {
        same_text(tag, "requestQrCodeAuthentication")
    }

    proof fn tag_known(&self) {
        reveal(<RequestQrCodeAuthentication as Wire>::wire);
        assert(tag_of(self.wire()) == Some("requestQrCodeAuthentication"@));
        assert(Self::known("requestQrCodeAuthentication"@));
    }
}

impl Method for RequestQrCodeAuthentication {
    const TYPE: &'static str = "requestQrCodeAuthentication";

    type Response = Okay;

    proof fn type_is_tag(&self) {
        reveal(<RequestQrCodeAuthentication as Wire>::wire);
        assert(tag_of(self.wire()) == Some("requestQrCodeAuthentication"@));
    }
}

/// Finishes user registration. Works only when the current authorization state is
/// authorizationStateWaitRegistration
#[derive(Debug, Clone)]
pub struct RegisterUser {
    /// The first name of the user; 1-64 characters
    pub first_name: String,
    /// The last name of the user; 0-64 characters
    pub last_name: String,
}

impl Wire for RegisterUser {
    #[verifier::opaque]
    open spec fn wire(&self) -> Doc {
        tagged(
            Map::empty()
                .insert("firstName"@, self.first_name.wire())
                .insert("lastName"@, self.last_name.wire()),
            "registerUser"@,
        )
    }

    #[verifier::opaque]
    open spec fn parse(d: Doc, at: Seq<char>) -> Result<Doc, Fault> {
        match d {
            Doc::Object(m) => {
                let first_name = field::<String>(m, "firstName"@);
                let last_name = field::<String>(m, "lastName"@);
                if first_name is Err {
                    first_name
                } else if last_name is Err {
                    last_name
                } else {
                    Ok(
                        tagged(
                            Map::empty()
                                .insert("firstName"@, first_name->Ok_0)
                                .insert("lastName"@, last_name->Ok_0),
                            "registerUser"@,
                        ),
                    )
                }
            },
            _ => Err(Fault::TypeMismatch(at)),
        }
    }

    fn encode(&self) -> (j: Json) {
        proof {
            reveal(<RegisterUser as Wire>::wire);
        }
        let mut members: Vec<Member> = Vec::new();
        put(&mut members, "firstName", self.first_name.encode());
        put(&mut members, "lastName", self.last_name.encode());
        seal(members, "registerUser")
    }

    fn decode(j: &Json, at: &str) -> (r: Result<Self, DecodeError>) {
        proof {
            reveal(<RegisterUser as Wire>::wire);
            reveal(<RegisterUser as Wire>::parse);
        }
        let members = members_of(j, at)?;
        let first_name = read_field::<String>(members, "firstName")?;
        let last_name = read_field::<String>(members, "lastName")?;
        Ok(RegisterUser { first_name, last_name })
    }

    proof fn round_trip(&self, at: Seq<char>) {
        reveal(<RegisterUser as Wire>::wire);
        reveal(<RegisterUser as Wire>::parse);
        reveal_strlit("@type");
        reveal_strlit("firstName");
        reveal_strlit("lastName");
        assert("@type"@.len() == 5);
        assert("firstName"@.len() == 9);
        assert("lastName"@.len() == 8);
        self.first_name.round_trip("firstName"@);
        self.last_name.round_trip("lastName"@);
    }
}

impl Tagged for RegisterUser {
    open spec fn known(tag: Seq<char>) -> bool {
        tag == "registerUser"@
    }

    fn knows(tag: &str) -> (r: bool) {
        same_text(tag, "registerUser")
    }

    proof fn tag_known(&self) {
        reveal(<RegisterUser as Wire>::wire);
        assert(tag_of(self.wire()) == Some("registerUser"@));
        assert(Self::known("registerUser"@));
    }
}

impl Method for RegisterUser {
    const TYPE: &'static str = "registerUser";

    type Response = Okay;

    proof fn type_is_tag(&self) {
        reveal(<RegisterUser as Wire>::wire);
        assert(tag_of(self.wire()) == Some("registerUser"@));
    }
}

/// Checks the authentication password for correctness. Works only when the current authorization
/// state is authorizationStateWaitPassword
#[derive(Debug, Clone)]
pub struct CheckAuthenticationPassword {
    /// The password to check
    pub password: String,
}

impl Wire for CheckAuthenticationPassword {
    #[verifier::opaque]
    open spec fn wire(&self) -> Doc {
        tagged(
            Map::empty()
                .insert("password"@, self.password.wire()),
            "checkAuthenticationPassword"@,
        )
    }

    #[verifier::opaque]
    open spec fn parse(d: Doc, at: Seq<char>) -> Result<Doc, Fault> {
        match d {
            Doc::Object(m) => {
                let password = field::<String>(m, "password"@);
                if password is Err {
                    password
                } else {
                    Ok(
                        tagged(
                            Map::empty()
                                .insert("password"@, password->Ok_0),
                            "checkAuthenticationPassword"@,
                        ),
                    )
                }
            },
            _ => Err(Fault::TypeMismatch(at)),
        }
    }

    fn encode(&self) -> (j: Json) {
        proof {
            reveal(<CheckAuthenticationPassword as Wire>::wire);
        }
        let mut members: Vec<Member> = Vec::new();
        put(&mut members, "password", self.password.encode());
        seal(members, "checkAuthenticationPassword")
    }

    fn decode(j: &Json, at: &str) -> (r: Result<Self, DecodeError>) {
        proof {
            reveal(<CheckAuthenticationPassword as Wire>::wire);
            reveal(<CheckAuthenticationPassword as Wire>::parse);
        }
        let members = members_of(j, at)?;
        let password = read_field::<String>(members, "password")?;
        Ok(CheckAuthenticationPassword { password })
    }

    proof fn round_trip(&self, at: Seq<char>) {
        reveal(<CheckAuthenticationPassword as Wire>::wire);
        reveal(<CheckAuthenticationPassword as Wire>::parse);
        reveal_strlit("@type");
        reveal_strlit("password");
        assert("@type"@.len() == 5);
        assert("password"@.len() == 8);
        self.password.round_trip("password"@);
    }
}

impl Tagged for CheckAuthenticationPassword {
    open spec fn known(tag: Seq<char>) -> bool {
        tag == "checkAuthenticationPassword"@
    }

    fn knows(tag: &str) -> (r: bool) {
        same_text(tag, "checkAuthenticationPassword")
    }

    proof fn tag_known(&self) {
        reveal(<CheckAuthenticationPassword as Wire>::wire);
        assert(tag_of(self.wire()) == Some("checkAuthenticationPassword"@));
        assert(Self::known("checkAuthenticationPassword"@));
    }
}

impl Method for CheckAuthenticationPassword {
    const TYPE: &'static str = "checkAuthenticationPassword";

    type Response = Okay;

    proof fn type_is_tag(&self) {
        reveal(<CheckAuthenticationPassword as Wire>::wire);
        assert(tag_of(self.wire()) == Some("checkAuthenticationPassword"@));
    }
}

/// Requests to send a password recovery code to an email address that was previously set up. Works
/// only when the current authorization state is authorizationStateWaitPassword
#[derive(Debug, Clone)]
pub struct RequestAuthenticationPasswordRecovery {}

impl Wire for RequestAuthenticationPasswordRecovery {
    #[verifier::opaque]
    open spec fn wire(&self) -> Doc {
        tagged(Map::empty(), "requestAuthenticationPasswordRecovery"@)
    }

    #[verifier::opaque]
    open spec fn parse(d: Doc, at: Seq<char>) -> Result<Doc, Fault> {
        match d {
            Doc::Object(_) => Ok(tagged(Map::empty(), "requestAuthenticationPasswordRecovery"@)),
            _ => Err(Fault::TypeMismatch(at)),
        }
    }

    fn encode(&self) -> (j: Json) {
        proof {
            reveal(<RequestAuthenticationPasswordRecovery as Wire>::wire);
        }
        seal(Vec::new(), "requestAuthenticationPasswordRecovery")
    }

    fn decode(j: &Json, at: &str) -> (r: Result<Self, DecodeError>) {
        proof {
            reveal(<RequestAuthenticationPasswordRecovery as Wire>::wire);
            reveal(<RequestAuthenticationPasswordRecovery as Wire>::parse);
        }
        let _ = members_of(j, at)?;
        Ok(RequestAuthenticationPasswordRecovery {})
    }

    proof fn round_trip(&self, at: Seq<char>) {
        reveal(<RequestAuthenticationPasswordRecovery as Wire>::wire);
        reveal(<RequestAuthenticationPasswordRecovery as Wire>::parse);
    }
}

impl Tagged for RequestAuthenticationPasswordRecovery {
    open spec fn known(tag: Seq<char>) -> bool {
        tag == "requestAuthenticationPasswordRecovery"@
    }

    fn knows(tag: &str) -> (r: bool) {
        same_text(tag, "requestAuthenticationPasswordRecovery")
    }

    proof fn tag_known(&self) {
        reveal(<RequestAuthenticationPasswordRecovery as Wire>::wire);
        assert(tag_of(self.wire()) == Some("requestAuthenticationPasswordRecovery"@));
        assert(Self::known("requestAuthenticationPasswordRecovery"@));
    }
}

impl Method for RequestAuthenticationPasswordRecovery {
    const TYPE: &'static str = "requestAuthenticationPasswordRecovery";

    type Response = Okay;

    proof fn type_is_tag(&self) {
        reveal(<RequestAuthenticationPasswordRecovery as Wire>::wire);
        assert(tag_of(self.wire()) == Some("requestAuthenticationPasswordRecovery"@));
    }
}

/// Recovers the password with a password recovery code sent to an email address that was previously
/// set up. Works only when the current authorization state is authorizationStateWaitPassword
#[derive(Debug, Clone)]
pub struct RecoverAuthenticationPassword {
    /// Recovery code to check
    pub recovery_code: String,
}

impl Wire for RecoverAuthenticationPassword {
    #[verifier::opaque]
    open spec fn wire(&self) -> Doc {
        tagged(
            Map::empty()
                .insert("recoveryCode"@, self.recovery_code.wire()),
            "recoverAuthenticationPassword"@,
        )
    }

    #[verifier::opaque]
    open spec fn parse(d: Doc, at: Seq<char>) -> Result<Doc, Fault> {
        match d {
            Doc::Object(m) => {
                let recovery_code = field::<String>(m, "recoveryCode"@);
                if recovery_code is Err {
                    recovery_code
                } else {
                    Ok(
                        tagged(
                            Map::empty()
                                .insert("recoveryCode"@, recovery_code->Ok_0),
                            "recoverAuthenticationPassword"@,
                        ),
                    )
                }
            },
            _ => Err(Fault::TypeMismatch(at)),
        }
    }

    fn encode(&self) -> (j: Json) {
        proof {
            reveal(<RecoverAuthenticationPassword as Wire>::wire);
        }
        let mut members: Vec<Member> = Vec::new();
        put(&mut members, "recoveryCode", self.recovery_code.encode());
        seal(members, "recoverAuthenticationPassword")
    }

    fn decode(j: &Json, at: &str) -> (r: Result<Self, DecodeError>) {
        proof {
            reveal(<RecoverAuthenticationPassword as Wire>::wire);
            reveal(<RecoverAuthenticationPassword as Wire>::parse);
        }
        let members = members_of(j, at)?;
        let recovery_code = read_field::<String>(members, "recoveryCode")?;
        Ok(RecoverAuthenticationPassword { recovery_code })
    }

    proof fn round_trip(&self, at: Seq<char>) {
        reveal(<RecoverAuthenticationPassword as Wire>::wire);
        reveal(<RecoverAuthenticationPassword as Wire>::parse);
        reveal_strlit("@type");
        reveal_strlit("recoveryCode");
        assert("@type"@.len() == 5);
        assert("recoveryCode"@.len() == 12);
        self.recovery_code.round_trip("recoveryCode"@);
    }
}

impl Tagged for RecoverAuthenticationPassword {
    open spec fn known(tag: Seq<char>) -> bool {
        tag == "recoverAuthenticationPassword"@
    }

    fn knows(tag: &str) -> (r: bool) {
        same_text(tag, "recoverAuthenticationPassword")
    }

    proof fn tag_known(&self) {
        reveal(<RecoverAuthenticationPassword as Wire>::wire);
        assert(tag_of(self.wire()) == Some("recoverAuthenticationPassword"@));
        assert(Self::known("recoverAuthenticationPassword"@));
    }
}

impl Method for RecoverAuthenticationPassword {
    const TYPE: &'static str = "recoverAuthenticationPassword";

    type Response = Okay;

    proof fn type_is_tag(&self) {
        reveal(<RecoverAuthenticationPassword as Wire>::wire);
        assert(tag_of(self.wire()) == Some("recoverAuthenticationPassword"@));
    }
}

/// Checks the authentication token of a bot; to log in as a bot. Works only when the current
/// authorization state is authorizationStateWaitPhoneNumber. Can be used instead of
/// setAuthenticationPhoneNumber and checkAuthenticationCode to log in
#[derive(Debug, Clone)]
pub struct CheckAuthenticationBotToken {
    /// The bot token
    pub token: String,
}

impl Wire for CheckAuthenticationBotToken {
    #[verifier::opaque]
    open spec fn wire(&self) -> Doc {
        tagged(
            Map::empty()
                .insert("token"@, self.token.wire()),
            "checkAuthenticationBotToken"@,
        )
    }

    #[verifier::opaque]
    open spec fn parse(d: Doc, at: Seq<char>) -> Result<Doc, Fault> {
        match d {
            Doc::Object(m) => {
                let token = field::<String>(m, "token"@);
                if token is Err {
                    token
                } else {
                    Ok(
                        tagged(
                            Map::empty()
                                .insert("token"@, token->Ok_0),
                            "checkAuthenticationBotToken"@,
                        ),
                    )
                }
            },
            _ => Err(Fault::TypeMismatch(at)),
        }
    }

    fn encode(&self) -> (j: Json) {
        proof {
            reveal(<CheckAuthenticationBotToken as Wire>::wire);
        }
        let mut members: Vec<Member> = Vec::new();
        put(&mut members, "token", self.token.encode());
        seal(members, "checkAuthenticationBotToken")
    }

    fn decode(j: &Json, at: &str) -> (r: Result<Self, DecodeError>) {
        proof {
            reveal(<CheckAuthenticationBotToken as Wire>::wire);
            reveal(<CheckAuthenticationBotToken as Wire>::parse);
        }
        let members = members_of(j, at)?;
        let token = read_field::<String>(members, "token")?;
        Ok(CheckAuthenticationBotToken { token })
    }

    proof fn round_trip(&self, at: Seq<char>) {
        reveal(<CheckAuthenticationBotToken as Wire>::wire);
        reveal(<CheckAuthenticationBotToken as Wire>::parse);
        reveal_strlit("@type");
        reveal_strlit("token");
        assert("@type"@.len() == 5 && "@type"@[0] == '@');
        assert("token"@.len() == 5 && "token"@[0] == 't');
        self.token.round_trip("token"@);
    }
}

impl Tagged for CheckAuthenticationBotToken {
    open spec fn known(tag: Seq<char>) -> bool {
        tag == "checkAuthenticationBotToken"@
    }

    fn knows(tag: &str) -> (r: bool) {
        same_text(tag, "checkAuthenticationBotToken")
    }

    proof fn tag_known(&self) {
        reveal(<CheckAuthenticationBotToken as Wire>::wire);
        assert(tag_of(self.wire()) == Some("checkAuthenticationBotToken"@));
        assert(Self::known("checkAuthenticationBotToken"@));
    }
}

impl Method for CheckAuthenticationBotToken {
    const TYPE: &'static str = "checkAuthenticationBotToken";

    type Response = Okay;

    proof fn type_is_tag(&self) {
        reveal(<CheckAuthenticationBotToken as Wire>::wire);
        assert(tag_of(self.wire()) == Some("checkAuthenticationBotToken"@));
    }
}

/// Closes the TDLib instance after a proper logout. Requires an available network connection. All
/// local data will be destroyed. After the logout completes, updateAuthorizationState with
/// authorizationStateClosed will be sent
#[derive(Debug, Clone)]
pub struct LogOut {}

impl Wire for LogOut {
    #[verifier::opaque]
    open spec fn wire(&self) -> Doc {
        tagged(Map::empty(), "logOut"@)
    }

    #[verifier::opaque]
    open spec fn parse(d: Doc, at: Seq<char>) -> Result<Doc, Fault> {
        match d {
            Doc::Object(_) => Ok(tagged(Map::empty(), "logOut"@)),
            _ => Err(Fault::TypeMismatch(at)),
        }
    }

    fn encode(&self) -> (j: Json) {
        proof {
            reveal(<LogOut as Wire>::wire);
        }
        seal(Vec::new(), "logOut")
    }

    fn decode(j: &Json, at: &str) -> (r: Result<Self, DecodeError>) {
        proof {
            reveal(<LogOut as Wire>::wire);
            reveal(<LogOut as Wire>::parse);
        }
        let _ = members_of(j, at)?;
        Ok(LogOut {})
    }

    proof fn round_trip(&self, at: Seq<char>) {
        reveal(<LogOut as Wire>::wire);
        reveal(<LogOut as Wire>::parse);
    }
}

impl Tagged for LogOut {
    open spec fn known(tag: Seq<char>) -> bool {
        tag == "logOut"@
    }

    fn knows(tag: &str) -> (r: bool) {
        same_text(tag, "logOut")
    }

    proof fn tag_known(&self) {
        reveal(<LogOut as Wire>::wire);
        assert(tag_of(self.wire()) == Some("logOut"@));
        assert(Self::known("logOut"@));
    }
}

impl Method for LogOut {
    const TYPE: &'static str = "logOut";

    type Response = Okay;

    proof fn type_is_tag(&self) {
        reveal(<LogOut as Wire>::wire);
        assert(tag_of(self.wire()) == Some("logOut"@));
    }
}

/// Closes the TDLib instance. All databases will be flushed to disk and properly closed. After the
/// close completes, updateAuthorizationState with authorizationStateClosed will be sent
#[derive(Debug, Clone)]
pub struct Close {}

impl Wire for Close {
    #[verifier::opaque]
    open spec fn wire(&self) -> Doc {
        tagged(Map::empty(), "close"@)
    }

    #[verifier::opaque]
    open spec fn parse(d: Doc, at: Seq<char>) -> Result<Doc, Fault> {
        match d {
            Doc::Object(_) => Ok(tagged(Map::empty(), "close"@)),
            _ => Err(Fault::TypeMismatch(at)),
        }
    }

    fn encode(&self) -> (j: Json) {
        proof {
            reveal(<Close as Wire>::wire);
        }
        seal(Vec::new(), "close")
    }

    fn decode(j: &Json, at: &str) -> (r: Result<Self, DecodeError>) {
        proof {
            reveal(<Close as Wire>::wire);
            reveal(<Close as Wire>::parse);
        }
        let _ = members_of(j, at)?;
        Ok(Close {})
    }

    proof fn round_trip(&self, at: Seq<char>) {
        reveal(<Close as Wire>::wire);
        reveal(<Close as Wire>::parse);
    }
}

impl Tagged for Close {
    open spec fn known(tag: Seq<char>) -> bool {
        tag == "close"@
    }

    fn knows(tag: &str) -> (r: bool) {
        same_text(tag, "close")
    }

    proof fn tag_known(&self) {
        reveal(<Close as Wire>::wire);
        assert(tag_of(self.wire()) == Some("close"@));
        assert(Self::known("close"@));
    }
}

impl Method for Close {
    const TYPE: &'static str = "close";

    type Response = Okay;

    proof fn type_is_tag(&self) {
        reveal(<Close as Wire>::wire);
        assert(tag_of(self.wire()) == Some("close"@));
    }
}

/// Closes the TDLib instance, destroying all local data without a proper logout. The current user
/// session will remain in the list of all active sessions. All local data will be destroyed. After
/// the destruction completes updateAuthorizationState with authorizationStateClosed will be sent
#[derive(Debug, Clone)]
pub struct Destroy {}

impl Wire for Destroy {
    #[verifier::opaque]
    open spec fn wire(&self) -> Doc {
        tagged(Map::empty(), "destroy"@)
    }

    #[verifier::opaque]
    open spec fn parse(d: Doc, at: Seq<char>) -> Result<Doc, Fault> {
        match d {
            Doc::Object(_) => Ok(tagged(Map::empty(), "destroy"@)),
            _ => Err(Fault::TypeMismatch(at)),
        }
    }

    fn encode(&self) -> (j: Json) {
        proof {
            reveal(<Destroy as Wire>::wire);
        }
        seal(Vec::new(), "destroy")
    }

    fn decode(j: &Json, at: &str) -> (r: Result<Self, DecodeError>) {
        proof {
            reveal(<Destroy as Wire>::wire);
            reveal(<Destroy as Wire>::parse);
        }
        let _ = members_of(j, at)?;
        Ok(Destroy {})
    }

    proof fn round_trip(&self, at: Seq<char>) {
        reveal(<Destroy as Wire>::wire);
        reveal(<Destroy as Wire>::parse);
    }
}

impl Tagged for Destroy {
    open spec fn known(tag: Seq<char>) -> bool {
        tag == "destroy"@
    }

    fn knows(tag: &str) -> (r: bool) {
        same_text(tag, "destroy")
    }

    proof fn tag_known(&self) {
        reveal(<Destroy as Wire>::wire);
        assert(tag_of(self.wire()) == Some("destroy"@));
        assert(Self::known("destroy"@));
    }
}

impl Method for Destroy {
    const TYPE: &'static str = "destroy";

    type Response = Okay;

    proof fn type_is_tag(&self) {
        reveal(<Destroy as Wire>::wire);
        assert(tag_of(self.wire()) == Some("destroy"@));
    }
}

/// Confirms QR code authentication on another device. Returns created session on success
#[derive(Debug, Clone)]
pub struct ConfirmQrCodeAuthentication {
    /// A link from a QR code. The link must be scanned by the in-app camera
    pub link: String,
}

impl Wire for ConfirmQrCodeAuthentication {
    #[verifier::opaque]
    open spec fn wire(&self) -> Doc {
        tagged(
            Map::empty()
                .insert("link"@, self.link.wire()),
            "confirmQrCodeAuthentication"@,
        )
    }

    #[verifier::opaque]
    open spec fn parse(d: Doc, at: Seq<char>) -> Result<Doc, Fault> {
        match d {
            Doc::Object(m) => {
                let link = field::<String>(m, "link"@);
                if link is Err {
                    link
                } else {
                    Ok(
                        tagged(
                            Map::empty()
                                .insert("link"@, link->Ok_0),
                            "confirmQrCodeAuthentication"@,
                        ),
                    )
                }
            },
            _ => Err(Fault::TypeMismatch(at)),
        }
    }

    fn encode(&self) -> (j: Json) {
        proof {
            reveal(<ConfirmQrCodeAuthentication as Wire>::wire);
        }
        let mut members: Vec<Member> = Vec::new();
        put(&mut members, "link", self.link.encode());
        seal(members, "confirmQrCodeAuthentication")
    }

    fn decode(j: &Json, at: &str) -> (r: Result<Self, DecodeError>) {
        proof {
            reveal(<ConfirmQrCodeAuthentication as Wire>::wire);
            reveal(<ConfirmQrCodeAuthentication as Wire>::parse);
        }
        let members = members_of(j, at)?;
        let link = read_field::<String>(members, "link")?;
        Ok(ConfirmQrCodeAuthentication { link })
    }

    proof fn round_trip(&self, at: Seq<char>) {
        reveal(<ConfirmQrCodeAuthentication as Wire>::wire);
        reveal(<ConfirmQrCodeAuthentication as Wire>::parse);
        reveal_strlit("@type");
        reveal_strlit("link");
        assert("@type"@.len() == 5);
        assert("link"@.len() == 4);
        self.link.round_trip("link"@);
    }
}

impl Tagged for ConfirmQrCodeAuthentication {
    open spec fn known(tag: Seq<char>) -> bool {
        tag == "confirmQrCodeAuthentication"@
    }

    fn knows(tag: &str) -> (r: bool) {
        same_text(tag, "confirmQrCodeAuthentication")
    }

    proof fn tag_known(&self) {
        reveal(<ConfirmQrCodeAuthentication as Wire>::wire);
        assert(tag_of(self.wire()) == Some("confirmQrCodeAuthentication"@));
        assert(Self::known("confirmQrCodeAuthentication"@));
    }
}

impl Method for ConfirmQrCodeAuthentication {
    const TYPE: &'static str = "confirmQrCodeAuthentication";

    type Response = Session;

    proof fn type_is_tag(&self) {
        reveal(<ConfirmQrCodeAuthentication as Wire>::wire);
        assert(tag_of(self.wire()) == Some("confirmQrCodeAuthentication"@));
    }
}

/// Returns all updates needed to restore current TDLib state, i.e. all actual
/// UpdateAuthorizationState/UpdateUser/UpdateNewChat and others. This is especially useful if TDLib
/// is run in a separate process. This is an offline method. Can be called before authorization
#[derive(Debug, Clone)]
pub struct GetCurrentState {}

impl Wire for GetCurrentState {
    #[verifier::opaque]
    open spec fn wire(&self) -> Doc {
        tagged(Map::empty(), "getCurrentState"@)
    }

    #[verifier::opaque]
    open spec fn parse(d: Doc, at: Seq<char>) -> Result<Doc, Fault> {
        match d {
            Doc::Object(_) => Ok(tagged(Map::empty(), "getCurrentState"@)),
            _ => Err(Fault::TypeMismatch(at)),
        }
    }

    fn encode(&self) -> (j: Json) {
        proof {
            reveal(<GetCurrentState as Wire>::wire);
        }
        seal(Vec::new(), "getCurrentState")
    }

    fn decode(j: &Json, at: &str) -> (r: Result<Self, DecodeError>) {
        proof {
            reveal(<GetCurrentState as Wire>::wire);
            reveal(<GetCurrentState as Wire>::parse);
        }
        let _ = members_of(j, at)?;
        Ok(GetCurrentState {})
    }

    proof fn round_trip(&self, at: Seq<char>) {
        reveal(<GetCurrentState as Wire>::wire);
        reveal(<GetCurrentState as Wire>::parse);
    }
}

impl Tagged for GetCurrentState {
    open spec fn known(tag: Seq<char>) -> bool {
        tag == "getCurrentState"@
    }

    fn knows(tag: &str) -> (r: bool) {
        same_text(tag, "getCurrentState")
    }

    proof fn tag_known(&self) {
        reveal(<GetCurrentState as Wire>::wire);
        assert(tag_of(self.wire()) == Some("getCurrentState"@));
        assert(Self::known("getCurrentState"@));
    }
}

impl Method for GetCurrentState {
    const TYPE: &'static str = "getCurrentState";

    type Response = Updates;

    proof fn type_is_tag(&self) {
        reveal(<GetCurrentState as Wire>::wire);
        assert(tag_of(self.wire()) == Some("getCurrentState"@));
    }
}

/// Changes the database encryption key. Usually the encryption key is never changed and is stored
/// in some OS keychain
#[derive(Debug, Clone)]
pub struct SetDatabaseEncryptionKey {
    /// New encryption key
    pub new_encryption_key: String,
}

impl Wire for SetDatabaseEncryptionKey {
    #[verifier::opaque]
    open spec fn wire(&self) -> Doc {
        tagged(
            Map::empty()
                .insert("newEncryptionKey"@, self.new_encryption_key.wire()),
            "setDatabaseEncryptionKey"@,
        )
    }

    #[verifier::opaque]
    open spec fn parse(d: Doc, at: Seq<char>) -> Result<Doc, Fault> {
        match d {
            Doc::Object(m) => {
                let new_encryption_key = field::<String>(m, "newEncryptionKey"@);
                if new_encryption_key is Err {
                    new_encryption_key
                } else {
                    Ok(
                        tagged(
                            Map::empty()
                                .insert("newEncryptionKey"@, new_encryption_key->Ok_0),
                            "setDatabaseEncryptionKey"@,
                        ),
                    )
                }
            },
            _ => Err(Fault::TypeMismatch(at)),
        }
    }

    fn encode(&self) -> (j: Json) {
        proof {
            reveal(<SetDatabaseEncryptionKey as Wire>::wire);
        }
        let mut members: Vec<Member> = Vec::new();
        put(&mut members, "newEncryptionKey", self.new_encryption_key.encode());
        seal(members, "setDatabaseEncryptionKey")
    }

    fn decode(j: &Json, at: &str) -> (r: Result<Self, DecodeError>) {
        proof {
            reveal(<SetDatabaseEncryptionKey as Wire>::wire);
            reveal(<SetDatabaseEncryptionKey as Wire>::parse);
        }
        let members = members_of(j, at)?;
        let new_encryption_key = read_field::<String>(members, "newEncryptionKey")?;
        Ok(SetDatabaseEncryptionKey { new_encryption_key })
    }

    proof fn round_trip(&self, at: Seq<char>) {
        reveal(<SetDatabaseEncryptionKey as Wire>::wire);
        reveal(<SetDatabaseEncryptionKey as Wire>::parse);
        reveal_strlit("@type");
        reveal_strlit("newEncryptionKey");
        assert("@type"@.len() == 5);
        assert("newEncryptionKey"@.len() == 16);
        self.new_encryption_key.round_trip("newEncryptionKey"@);
    }
}

impl Tagged for SetDatabaseEncryptionKey {
    open spec fn known(tag: Seq<char>) -> bool {
        tag == "setDatabaseEncryptionKey"@
    }

    fn knows(tag: &str) -> (r: bool) {
        same_text(tag, "setDatabaseEncryptionKey")
    }

    proof fn tag_known(&self) {
        reveal(<SetDatabaseEncryptionKey as Wire>::wire);
        assert(tag_of(self.wire()) == Some("setDatabaseEncryptionKey"@));
        assert(Self::known("setDatabaseEncryptionKey"@));
    }
}

impl Method for SetDatabaseEncryptionKey {
    const TYPE: &'static str = "setDatabaseEncryptionKey";

    type Response = Okay;

    proof fn type_is_tag(&self) {
        reveal(<SetDatabaseEncryptionKey as Wire>::wire);
        assert(tag_of(self.wire()) == Some("setDatabaseEncryptionKey"@));
    }
}

/// Returns the current state of 2-step verification
#[derive(Debug, Clone)]
pub struct GetPasswordState {}

impl Wire for GetPasswordState {
    #[verifier::opaque]
    open spec fn wire(&self) -> Doc {
        tagged(Map::empty(), "getPasswordState"@)
    }

    #[verifier::opaque]
    open spec fn parse(d: Doc, at: Seq<char>) -> Result<Doc, Fault> {
        match d {
            Doc::Object(_) => Ok(tagged(Map::empty(), "getPasswordState"@)),
            _ => Err(Fault::TypeMismatch(at)),
        }
    }

    fn encode(&self) -> (j: Json) {
        proof {
            reveal(<GetPasswordState as Wire>::wire);
        }
        seal(Vec::new(), "getPasswordState")
    }

    fn decode(j: &Json, at: &str) -> (r: Result<Self, DecodeError>) {
        proof {
            reveal(<GetPasswordState as Wire>::wire);
            reveal(<GetPasswordState as Wire>::parse);
        }
        let _ = members_of(j, at)?;
        Ok(GetPasswordState {})
    }

    proof fn round_trip(&self, at: Seq<char>) {
        reveal(<GetPasswordState as Wire>::wire);
        reveal(<GetPasswordState as Wire>::parse);
    }
}

impl Tagged for GetPasswordState {
    open spec fn known(tag: Seq<char>) -> bool {
        tag == "getPasswordState"@
    }

    fn knows(tag: &str) -> (r: bool) {
        same_text(tag, "getPasswordState")
    }

    proof fn tag_known(&self) {
        reveal(<GetPasswordState as Wire>::wire);
        assert(tag_of(self.wire()) == Some("getPasswordState"@));
        assert(Self::known("getPasswordState"@));
    }
}

impl Method for GetPasswordState {
    const TYPE: &'static str = "getPasswordState";

    type Response = PasswordState;

    proof fn type_is_tag(&self) {
        reveal(<GetPasswordState as Wire>::wire);
        assert(tag_of(self.wire()) == Some("getPasswordState"@));
    }
}

/// Changes the password for the user. If a new recovery email address is specified, then the change
/// will not be applied until the new recovery email address is confirmed
#[derive(Debug, Clone)]
pub struct SetPassword {
    /// Previous password of the user
    pub old_password: String,
    /// New password of the user; may be empty to remove the password
    pub new_password: String,
    /// New password hint; may be empty
    pub new_hint: String,
    /// Pass true if the recovery email address should be changed
    pub set_recovery_email_address: bool,
    /// New recovery email address; may be empty
    pub new_recovery_email_address: String,
}

impl Wire for SetPassword {
    #[verifier::opaque]
    open spec fn wire(&self) -> Doc {
        tagged(
            Map::empty()
                .insert("oldPassword"@, self.old_password.wire())
                .insert("newPassword"@, self.new_password.wire())
                .insert("newHint"@, self.new_hint.wire())
                .insert("setRecoveryEmailAddress"@, self.set_recovery_email_address.wire())
                .insert("newRecoveryEmailAddress"@, self.new_recovery_email_address.wire()),
            "setPassword"@,
        )
    }

    #[verifier::opaque]
    open spec fn parse(d: Doc, at: Seq<char>) -> Result<Doc, Fault> {
        match d {
            Doc::Object(m) => {
                let old_password = field::<String>(m, "oldPassword"@);
                let new_password = field::<String>(m, "newPassword"@);
                let new_hint = field::<String>(m, "newHint"@);
                let set_recovery_email_address = field::<bool>(m, "setRecoveryEmailAddress"@);
                let new_recovery_email_address = field::<String>(m, "newRecoveryEmailAddress"@);
                if old_password is Err {
                    old_password
                } else if new_password is Err {
                    new_password
                } else if new_hint is Err {
                    new_hint
                } else if set_recovery_email_address is Err {
                    set_recovery_email_address
                } else if new_recovery_email_address is Err {
                    new_recovery_email_address
                } else {
                    Ok(
                        tagged(
                            Map::empty()
                                .insert("oldPassword"@, old_password->Ok_0)
                                .insert("newPassword"@, new_password->Ok_0)
                                .insert("newHint"@, new_hint->Ok_0)
                                .insert(
                                    "setRecoveryEmailAddress"@,
                                    set_recovery_email_address->Ok_0,
                                )
                                .insert(
                                    "newRecoveryEmailAddress"@,
                                    new_recovery_email_address->Ok_0,
                                ),
                            "setPassword"@,
                        ),
                    )
                }
            },
            _ => Err(Fault::TypeMismatch(at)),
        }
    }

    fn encode(&self) -> (j: Json) {
        proof {
            reveal(<SetPassword as Wire>::wire);
        }
        let mut members: Vec<Member> = Vec::new();
        put(&mut members, "oldPassword", self.old_password.encode());
        put(&mut members, "newPassword", self.new_password.encode());
        put(&mut members, "newHint", self.new_hint.encode());
        put(&mut members, "setRecoveryEmailAddress", self.set_recovery_email_address.encode());
        put(&mut members, "newRecoveryEmailAddress", self.new_recovery_email_address.encode());
        seal(members, "setPassword")
    }

    fn decode(j: &Json, at: &str) -> (r: Result<Self, DecodeError>) {
        proof {
            reveal(<SetPassword as Wire>::wire);
            reveal(<SetPassword as Wire>::parse);
        }
        let members = members_of(j, at)?;
        let old_password = read_field::<String>(members, "oldPassword")?;
        let new_password = read_field::<String>(members, "newPassword")?;
        let new_hint = read_field::<String>(members, "newHint")?;
        let set_recovery_email_address = read_field::<bool>(members, "setRecoveryEmailAddress")?;
        let new_recovery_email_address = read_field::<String>(members, "newRecoveryEmailAddress")?;
        Ok(SetPassword {
            old_password,
            new_password,
            new_hint,
            set_recovery_email_address,
            new_recovery_email_address,
        })
    }

    proof fn round_trip(&self, at: Seq<char>) {
        reveal(<SetPassword as Wire>::wire);
        reveal(<SetPassword as Wire>::parse);
        reveal_strlit("@type");
        reveal_strlit("newHint");
        reveal_strlit("newPassword");
        reveal_strlit("newRecoveryEmailAddress");
        reveal_strlit("oldPassword");
        reveal_strlit("setRecoveryEmailAddress");
        assert("@type"@.len() == 5);
        assert("newHint"@.len() == 7);
        assert("newPassword"@.len() == 11 && "newPassword"@[0] == 'n');
        assert("newRecoveryEmailAddress"@.len() == 23 && "newRecoveryEmailAddress"@[0] == 'n');
        assert("oldPassword"@.len() == 11 && "oldPassword"@[0] == 'o');
        assert("setRecoveryEmailAddress"@.len() == 23 && "setRecoveryEmailAddress"@[0] == 's');
        self.old_password.round_trip("oldPassword"@);
        self.new_password.round_trip("newPassword"@);
        self.new_hint.round_trip("newHint"@);
        self.set_recovery_email_address.round_trip("setRecoveryEmailAddress"@);
        self.new_recovery_email_address.round_trip("newRecoveryEmailAddress"@);
    }
}

impl Tagged for SetPassword {
    open spec fn known(tag: Seq<char>) -> bool {
        tag == "setPassword"@
    }

    fn knows(tag: &str) -> (r: bool) {
        same_text(tag, "setPassword")
    }

    proof fn tag_known(&self) {
        reveal(<SetPassword as Wire>::wire);
        assert(tag_of(self.wire()) == Some("setPassword"@));
        assert(Self::known("setPassword"@));
    }
}

impl Method for SetPassword {
    const TYPE: &'static str = "setPassword";

    type Response = PasswordState;

    proof fn type_is_tag(&self) {
        reveal(<SetPassword as Wire>::wire);
        assert(tag_of(self.wire()) == Some("setPassword"@));
    }
}

/// Returns a 2-step verification recovery email address that was previously set up. This method can
/// be used to verify a password provided by the user
#[derive(Debug, Clone)]
pub struct GetRecoveryEmailAddress {
    /// The password for the current user
    pub password: String,
}

impl Wire for GetRecoveryEmailAddress {
    #[verifier::opaque]
    open spec fn wire(&self) -> Doc {
        tagged(
            Map::empty()
                .insert("password"@, self.password.wire()),
            "getRecoveryEmailAddress"@,
        )
    }

    #[verifier::opaque]
    open spec fn parse(d: Doc, at: Seq<char>) -> Result<Doc, Fault> {
        match d {
            Doc::Object(m) => {
                let password = field::<String>(m, "password"@);
                if password is Err {
                    password
                } else {
                    Ok(
                        tagged(
                            Map::empty()
                                .insert("password"@, password->Ok_0),
                            "getRecoveryEmailAddress"@,
                        ),
                    )
                }
            },
            _ => Err(Fault::TypeMismatch(at)),
        }
    }

    fn encode(&self) -> (j: Json) {
        proof {
            reveal(<GetRecoveryEmailAddress as Wire>::wire);
        }
        let mut members: Vec<Member> = Vec::new();
        put(&mut members, "password", self.password.encode());
        seal(members, "getRecoveryEmailAddress")
    }

    fn decode(j: &Json, at: &str) -> (r: Result<Self, DecodeError>) {
        proof {
            reveal(<GetRecoveryEmailAddress as Wire>::wire);
            reveal(<GetRecoveryEmailAddress as Wire>::parse);
        }
        let members = members_of(j, at)?;
        let password = read_field::<String>(members, "password")?;
        Ok(GetRecoveryEmailAddress { password })
    }

    proof fn round_trip(&self, at: Seq<char>) {
        reveal(<GetRecoveryEmailAddress as Wire>::wire);
        reveal(<GetRecoveryEmailAddress as Wire>::parse);
        reveal_strlit("@type");
        reveal_strlit("password");
        assert("@type"@.len() == 5);
        assert("password"@.len() == 8);
        self.password.round_trip("password"@);
    }
}

impl Tagged for GetRecoveryEmailAddress {
    open spec fn known(tag: Seq<char>) -> bool {
        tag == "getRecoveryEmailAddress"@
    }

    fn knows(tag: &str) -> (r: bool) {
        same_text(tag, "getRecoveryEmailAddress")
    }

    proof fn tag_known(&self) {
        reveal(<GetRecoveryEmailAddress as Wire>::wire);
        assert(tag_of(self.wire()) == Some("getRecoveryEmailAddress"@));
        assert(Self::known("getRecoveryEmailAddress"@));
    }
}

impl Method for GetRecoveryEmailAddress {
    const TYPE: &'static str = "getRecoveryEmailAddress";

    type Response = RecoveryEmailAddress;

    proof fn type_is_tag(&self) {
        reveal(<GetRecoveryEmailAddress as Wire>::wire);
        assert(tag_of(self.wire()) == Some("getRecoveryEmailAddress"@));
    }
}

/// Changes the 2-step verification recovery email address of the user. If a new recovery email
/// address is specified, then the change will not be applied until the new recovery email address
/// is confirmed. If new_recovery_email_address is the same as the email address that is currently
/// set up, this call succeeds immediately and aborts all other requests waiting for an email
/// confirmation @password Password of the current user @new_recovery_email_address New recovery
/// email address
#[derive(Debug, Clone)]
pub struct SetRecoveryEmailAddress {
    pub password: String,
    pub new_recovery_email_address: String,
}

impl Wire for SetRecoveryEmailAddress {
    #[verifier::opaque]
    open spec fn wire(&self) -> Doc {
        tagged(
            Map::empty()
                .insert("password"@, self.password.wire())
                .insert("newRecoveryEmailAddress"@, self.new_recovery_email_address.wire()),
            "setRecoveryEmailAddress"@,
        )
    }

    #[verifier::opaque]
    open spec fn parse(d: Doc, at: Seq<char>) -> Result<Doc, Fault> {
        match d {
            Doc::Object(m) => {
                let password = field::<String>(m, "password"@);
                let new_recovery_email_address = field::<String>(m, "newRecoveryEmailAddress"@);
                if password is Err {
                    password
                } else if new_recovery_email_address is Err {
                    new_recovery_email_address
                } else {
                    Ok(
                        tagged(
                            Map::empty()
                                .insert("password"@, password->Ok_0)
                                .insert(
                                    "newRecoveryEmailAddress"@,
                                    new_recovery_email_address->Ok_0,
                                ),
                            "setRecoveryEmailAddress"@,
                        ),
                    )
                }
            },
            _ => Err(Fault::TypeMismatch(at)),
        }
    }

    fn encode(&self) -> (j: Json) {
        proof {
            reveal(<SetRecoveryEmailAddress as Wire>::wire);
        }
        let mut members: Vec<Member> = Vec::new();
        put(&mut members, "password", self.password.encode());
        put(&mut members, "newRecoveryEmailAddress", self.new_recovery_email_address.encode());
        seal(members, "setRecoveryEmailAddress")
    }

    fn decode(j: &Json, at: &str) -> (r: Result<Self, DecodeError>) {
        proof {
            reveal(<SetRecoveryEmailAddress as Wire>::wire);
            reveal(<SetRecoveryEmailAddress as Wire>::parse);
        }
        let members = members_of(j, at)?;
        let password = read_field::<String>(members, "password")?;
        let new_recovery_email_address = read_field::<String>(members, "newRecoveryEmailAddress")?;
        Ok(SetRecoveryEmailAddress { password, new_recovery_email_address })
    }

    proof fn round_trip(&self, at: Seq<char>) {
        reveal(<SetRecoveryEmailAddress as Wire>::wire);
        reveal(<SetRecoveryEmailAddress as Wire>::parse);
        reveal_strlit("@type");
        reveal_strlit("newRecoveryEmailAddress");
        reveal_strlit("password");
        assert("@type"@.len() == 5);
        assert("newRecoveryEmailAddress"@.len() == 23);
        assert("password"@.len() == 8);
        self.password.round_trip("password"@);
        self.new_recovery_email_address.round_trip("newRecoveryEmailAddress"@);
    }
}

impl Tagged for SetRecoveryEmailAddress {
    open spec fn known(tag: Seq<char>) -> bool {
        tag == "setRecoveryEmailAddress"@
    }

    fn knows(tag: &str) -> (r: bool) {
        same_text(tag, "setRecoveryEmailAddress")
    }

    proof fn tag_known(&self) {
        reveal(<SetRecoveryEmailAddress as Wire>::wire);
        assert(tag_of(self.wire()) == Some("setRecoveryEmailAddress"@));
        assert(Self::known("setRecoveryEmailAddress"@));
    }
}

impl Method for SetRecoveryEmailAddress {
    const TYPE: &'static str = "setRecoveryEmailAddress";

    type Response = PasswordState;

    proof fn type_is_tag(&self) {
        reveal(<SetRecoveryEmailAddress as Wire>::wire);
        assert(tag_of(self.wire()) == Some("setRecoveryEmailAddress"@));
    }
}

/// Checks the 2-step verification recovery email address verification code
#[derive(Debug, Clone)]
pub struct CheckRecoveryEmailAddressCode {
    /// Verification code
    pub code: String,
}

impl Wire for CheckRecoveryEmailAddressCode {
    #[verifier::opaque]
    open spec fn wire(&self) -> Doc {
        tagged(
            Map::empty()
                .insert("code"@, self.code.wire()),
            "checkRecoveryEmailAddressCode"@,
        )
    }

    #[verifier::opaque]
    open spec fn parse(d: Doc, at: Seq<char>) -> Result<Doc, Fault> {
        match d {
            Doc::Object(m) => {
                let code = field::<String>(m, "code"@);
                if code is Err {
                    code
                } else {
                    Ok(
                        tagged(
                            Map::empty()
                                .insert("code"@, code->Ok_0),
                            "checkRecoveryEmailAddressCode"@,
                        ),
                    )
                }
            },
            _ => Err(Fault::TypeMismatch(at)),
        }
    }

    fn encode(&self) -> (j: Json) {
        proof {
            reveal(<CheckRecoveryEmailAddressCode as Wire>::wire);
        }
        let mut members: Vec<Member> = Vec::new();
        put(&mut members, "code", self.code.encode());
        seal(members, "checkRecoveryEmailAddressCode")
    }

    fn decode(j: &Json, at: &str) -> (r: Result<Self, DecodeError>) {
        proof {
            reveal(<CheckRecoveryEmailAddressCode as Wire>::wire);
            reveal(<CheckRecoveryEmailAddressCode as Wire>::parse);
        }
        let members = members_of(j, at)?;
        let code = read_field::<String>(members, "code")?;
        Ok(CheckRecoveryEmailAddressCode { code })
    }

    proof fn round_trip(&self, at: Seq<char>) {
        reveal(<CheckRecoveryEmailAddressCode as Wire>::wire);
        reveal(<CheckRecoveryEmailAddressCode as Wire>::parse);
        reveal_strlit("@type");
        reveal_strlit("code");
        assert("@type"@.len() == 5);
        assert("code"@.len() == 4);
        self.code.round_trip("code"@);
    }
}

impl Tagged for CheckRecoveryEmailAddressCode {
    open spec fn known(tag: Seq<char>) -> bool {
        tag == "checkRecoveryEmailAddressCode"@
    }

    fn knows(tag: &str) -> (r: bool) {
        same_text(tag, "checkRecoveryEmailAddressCode")
    }

    proof fn tag_known(&self) {
        reveal(<CheckRecoveryEmailAddressCode as Wire>::wire);
        assert(tag_of(self.wire()) == Some("checkRecoveryEmailAddressCode"@));
        assert(Self::known("checkRecoveryEmailAddressCode"@));
    }
}

impl Method for CheckRecoveryEmailAddressCode {
    const TYPE: &'static str = "checkRecoveryEmailAddressCode";

    type Response = PasswordState;

    proof fn type_is_tag(&self) {
        reveal(<CheckRecoveryEmailAddressCode as Wire>::wire);
        assert(tag_of(self.wire()) == Some("checkRecoveryEmailAddressCode"@));
    }
}

/// Resends the 2-step verification recovery email address verification code
#[derive(Debug, Clone)]
pub struct ResendRecoveryEmailAddressCode {}

impl Wire for ResendRecoveryEmailAddressCode {
    #[verifier::opaque]
    open spec fn wire(&self) -> Doc {
        tagged(Map::empty(), "resendRecoveryEmailAddressCode"@)
    }

    #[verifier::opaque]
    open spec fn parse(d: Doc, at: Seq<char>) -> Result<Doc, Fault> {
        match d {
            Doc::Object(_) => Ok(tagged(Map::empty(), "resendRecoveryEmailAddressCode"@)),
            _ => Err(Fault::TypeMismatch(at)),
        }
    }

    fn encode(&self) -> (j: Json) {
        proof {
            reveal(<ResendRecoveryEmailAddressCode as Wire>::wire);
        }
        seal(Vec::new(), "resendRecoveryEmailAddressCode")
    }

    fn decode(j: &Json, at: &str) -> (r: Result<Self, DecodeError>) {
        proof {
            reveal(<ResendRecoveryEmailAddressCode as Wire>::wire);
            reveal(<ResendRecoveryEmailAddressCode as Wire>::parse);
        }
        let _ = members_of(j, at)?;
        Ok(ResendRecoveryEmailAddressCode {})
    }

    proof fn round_trip(&self, at: Seq<char>) {
        reveal(<ResendRecoveryEmailAddressCode as Wire>::wire);
        reveal(<ResendRecoveryEmailAddressCode as Wire>::parse);
    }
}

impl Tagged for ResendRecoveryEmailAddressCode {
    open spec fn known(tag: Seq<char>) -> bool {
        tag == "resendRecoveryEmailAddressCode"@
    }

    fn knows(tag: &str) -> (r: bool) {
        same_text(tag, "resendRecoveryEmailAddressCode")
    }

    proof fn tag_known(&self) {
        reveal(<ResendRecoveryEmailAddressCode as Wire>::wire);
        assert(tag_of(self.wire()) == Some("resendRecoveryEmailAddressCode"@));
        assert(Self::known("resendRecoveryEmailAddressCode"@));
    }
}

impl Method for ResendRecoveryEmailAddressCode {
    const TYPE: &'static str = "resendRecoveryEmailAddressCode";

    type Response = PasswordState;

    proof fn type_is_tag(&self) {
        reveal(<ResendRecoveryEmailAddressCode as Wire>::wire);
        assert(tag_of(self.wire()) == Some("resendRecoveryEmailAddressCode"@));
    }
}

/// Requests to send a password recovery code to an email address that was previously set up
#[derive(Debug, Clone)]
pub struct RequestPasswordRecovery {}

impl Wire for RequestPasswordRecovery {
    #[verifier::opaque]
    open spec fn wire(&self) -> Doc {
        tagged(Map::empty(), "requestPasswordRecovery"@)
    }

    #[verifier::opaque]
    open spec fn parse(d: Doc, at: Seq<char>) -> Result<Doc, Fault> {
        match d {
            Doc::Object(_) => Ok(tagged(Map::empty(), "requestPasswordRecovery"@)),
            _ => Err(Fault::TypeMismatch(at)),
        }
    }

    fn encode(&self) -> (j: Json) {
        proof {
            reveal(<RequestPasswordRecovery as Wire>::wire);
        }
        seal(Vec::new(), "requestPasswordRecovery")
    }

    fn decode(j: &Json, at: &str) -> (r: Result<Self, DecodeError>) {
        proof {
            reveal(<RequestPasswordRecovery as Wire>::wire);
            reveal(<RequestPasswordRecovery as Wire>::parse);
        }
        let _ = members_of(j, at)?;
        Ok(RequestPasswordRecovery {})
    }

    proof fn round_trip(&self, at: Seq<char>) {
        reveal(<RequestPasswordRecovery as Wire>::wire);
        reveal(<RequestPasswordRecovery as Wire>::parse);
    }
}

impl Tagged for RequestPasswordRecovery {
    open spec fn known(tag: Seq<char>) -> bool {
        tag == "requestPasswordRecovery"@
    }

    fn knows(tag: &str) -> (r: bool) {
        same_text(tag, "requestPasswordRecovery")
    }

    proof fn tag_known(&self) {
        reveal(<RequestPasswordRecovery as Wire>::wire);
        assert(tag_of(self.wire()) == Some("requestPasswordRecovery"@));
        assert(Self::known("requestPasswordRecovery"@));
    }
}

impl Method for RequestPasswordRecovery {
    const TYPE: &'static str = "requestPasswordRecovery";

    type Response = EmailAddressAuthenticationCodeInfo;

    proof fn type_is_tag(&self) {
        reveal(<RequestPasswordRecovery as Wire>::wire);
        assert(tag_of(self.wire()) == Some("requestPasswordRecovery"@));
    }
}

/// Recovers the password using a recovery code sent to an email address that was previously set up
#[derive(Debug, Clone)]
pub struct RecoverPassword {
    /// Recovery code to check
    pub recovery_code: String,
}

impl Wire for RecoverPassword {
    #[verifier::opaque]
    open spec fn wire(&self) -> Doc {
        tagged(
            Map::empty()
                .insert("recoveryCode"@, self.recovery_code.wire()),
            "recoverPassword"@,
        )
    }

    #[verifier::opaque]
    open spec fn parse(d: Doc, at: Seq<char>) -> Result<Doc, Fault> {
        match d {
            Doc::Object(m) => {
                let recovery_code = field::<String>(m, "recoveryCode"@);
                if recovery_code is Err {
                    recovery_code
                } else {
                    Ok(
                        tagged(
                            Map::empty()
                                .insert("recoveryCode"@, recovery_code->Ok_0),
                            "recoverPassword"@,
                        ),
                    )
                }
            },
            _ => Err(Fault::TypeMismatch(at)),
        }
    }

    fn encode(&self) -> (j: Json) {
        proof {
            reveal(<RecoverPassword as Wire>::wire);
        }
        let mut members: Vec<Member> = Vec::new();
        put(&mut members, "recoveryCode", self.recovery_code.encode());
        seal(members, "recoverPassword")
    }

    fn decode(j: &Json, at: &str) -> (r: Result<Self, DecodeError>) {
        proof {
            reveal(<RecoverPassword as Wire>::wire);
            reveal(<RecoverPassword as Wire>::parse);
        }
        let members = members_of(j, at)?;
        let recovery_code = read_field::<String>(members, "recoveryCode")?;
        Ok(RecoverPassword { recovery_code })
    }

    proof fn round_trip(&self, at: Seq<char>) {
        reveal(<RecoverPassword as Wire>::wire);
        reveal(<RecoverPassword as Wire>::parse);
        reveal_strlit("@type");
        reveal_strlit("recoveryCode");
        assert("@type"@.len() == 5);
        assert("recoveryCode"@.len() == 12);
        self.recovery_code.round_trip("recoveryCode"@);
    }
}

impl Tagged for RecoverPassword {
    open spec fn known(tag: Seq<char>) -> bool {
        tag == "recoverPassword"@
    }

    fn knows(tag: &str) -> (r: bool) {
        same_text(tag, "recoverPassword")
    }

    proof fn tag_known(&self) {
        reveal(<RecoverPassword as Wire>::wire);
        assert(tag_of(self.wire()) == Some("recoverPassword"@));
        assert(Self::known("recoverPassword"@));
    }
}

impl Method for RecoverPassword {
    const TYPE: &'static str = "recoverPassword";

    type Response = PasswordState;

    proof fn type_is_tag(&self) {
        reveal(<RecoverPassword as Wire>::wire);
        assert(tag_of(self.wire()) == Some("recoverPassword"@));
    }
}

/// Creates a new temporary password for processing payments
#[derive(Debug, Clone)]
pub struct CreateTemporaryPassword {
    /// Persistent user password
    pub password: String,
    /// Time during which the temporary password will be valid, in seconds; should be between 60 and
    /// 86400
    pub valid_for: i32,
}

impl Wire for CreateTemporaryPassword {
    #[verifier::opaque]
    open spec fn wire(&self) -> Doc {
        tagged(
            Map::empty()
                .insert("password"@, self.password.wire())
                .insert("validFor"@, self.valid_for.wire()),
            "createTemporaryPassword"@,
        )
    }

    #[verifier::opaque]
    open spec fn parse(d: Doc, at: Seq<char>) -> Result<Doc, Fault> {
        match d {
            Doc::Object(m) => {
                let password = field::<String>(m, "password"@);
                let valid_for = field::<i32>(m, "validFor"@);
                if password is Err {
                    password
                } else if valid_for is Err {
                    valid_for
                } else {
                    Ok(
                        tagged(
                            Map::empty()
                                .insert("password"@, password->Ok_0)
                                .insert("validFor"@, valid_for->Ok_0),
                            "createTemporaryPassword"@,
                        ),
                    )
                }
            },
            _ => Err(Fault::TypeMismatch(at)),
        }
    }

    fn encode(&self) -> (j: Json) {
        proof {
            reveal(<CreateTemporaryPassword as Wire>::wire);
        }
        let mut members: Vec<Member> = Vec::new();
        put(&mut members, "password", self.password.encode());
        put(&mut members, "validFor", self.valid_for.encode());
        seal(members, "createTemporaryPassword")
    }

    fn decode(j: &Json, at: &str) -> (r: Result<Self, DecodeError>) {
        proof {
            reveal(<CreateTemporaryPassword as Wire>::wire);
            reveal(<CreateTemporaryPassword as Wire>::parse);
        }
        let members = members_of(j, at)?;
        let password = read_field::<String>(members, "password")?;
        let valid_for = read_field::<i32>(members, "validFor")?;
        Ok(CreateTemporaryPassword { password, valid_for })
    }

    proof fn round_trip(&self, at: Seq<char>) {
        reveal(<CreateTemporaryPassword as Wire>::wire);
        reveal(<CreateTemporaryPassword as Wire>::parse);
        reveal_strlit("@type");
        reveal_strlit("password");
        reveal_strlit("validFor");
        assert("@type"@.len() == 5);
        assert("password"@.len() == 8 && "password"@[0] == 'p');
        assert("validFor"@.len() == 8 && "validFor"@[0] == 'v');
        self.password.round_trip("password"@);
        self.valid_for.round_trip("validFor"@);
    }
}

impl Tagged for CreateTemporaryPassword {
    open spec fn known(tag: Seq<char>) -> bool {
        tag == "createTemporaryPassword"@
    }

    fn knows(tag: &str) -> (r: bool) {
        same_text(tag, "createTemporaryPassword")
    }

    proof fn tag_known(&self) {
        reveal(<CreateTemporaryPassword as Wire>::wire);
        assert(tag_of(self.wire()) == Some("createTemporaryPassword"@));
        assert(Self::known("createTemporaryPassword"@));
    }
}

impl Method for CreateTemporaryPassword {
    const TYPE: &'static str = "createTemporaryPassword";

    type Response = TemporaryPasswordState;

    proof fn type_is_tag(&self) {
        reveal(<CreateTemporaryPassword as Wire>::wire);
        assert(tag_of(self.wire()) == Some("createTemporaryPassword"@));
    }
}

/// Returns information about the current temporary password
#[derive(Debug, Clone)]
pub struct GetTemporaryPasswordState {}

impl Wire for GetTemporaryPasswordState {
    #[verifier::opaque]
    open spec fn wire(&self) -> Doc {
        tagged(Map::empty(), "getTemporaryPasswordState"@)
    }

    #[verifier::opaque]
    open spec fn parse(d: Doc, at: Seq<char>) -> Result<Doc, Fault> {
        match d {
            Doc::Object(_) => Ok(tagged(Map::empty(), "getTemporaryPasswordState"@)),
            _ => Err(Fault::TypeMismatch(at)),
        }
    }

    fn encode(&self) -> (j: Json) {
        proof {
            reveal(<GetTemporaryPasswordState as Wire>::wire);
        }
        seal(Vec::new(), "getTemporaryPasswordState")
    }

    fn decode(j: &Json, at: &str) -> (r: Result<Self, DecodeError>) {
        proof {
            reveal(<GetTemporaryPasswordState as Wire>::wire);
            reveal(<GetTemporaryPasswordState as Wire>::parse);
        }
        let _ = members_of(j, at)?;
        Ok(GetTemporaryPasswordState {})
    }

    proof fn round_trip(&self, at: Seq<char>) {
        reveal(<GetTemporaryPasswordState as Wire>::wire);
        reveal(<GetTemporaryPasswordState as Wire>::parse);
    }
}

impl Tagged for GetTemporaryPasswordState {
    open spec fn known(tag: Seq<char>) -> bool {
        tag == "getTemporaryPasswordState"@
    }

    fn knows(tag: &str) -> (r: bool) {
        same_text(tag, "getTemporaryPasswordState")
    }

    proof fn tag_known(&self) {
        reveal(<GetTemporaryPasswordState as Wire>::wire);
        assert(tag_of(self.wire()) == Some("getTemporaryPasswordState"@));
        assert(Self::known("getTemporaryPasswordState"@));
    }
}

impl Method for GetTemporaryPasswordState {
    const TYPE: &'static str = "getTemporaryPasswordState";

    type Response = TemporaryPasswordState;

    proof fn type_is_tag(&self) {
        reveal(<GetTemporaryPasswordState as Wire>::wire);
        assert(tag_of(self.wire()) == Some("getTemporaryPasswordState"@));
    }
}

} // verus!
