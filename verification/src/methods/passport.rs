//! Requests on Telegram Passport.

use vstd::prelude::*;
use crate::codec::{field, members_of, put, read_field, seal, Tagged, Wire};
use crate::error::{DecodeError, Fault};
use crate::json::{Doc, Json, Member, tag_of, tagged};
use crate::methods::Method;
use crate::text::same_text;
use crate::types::{
    AuthenticationCodeInfo, EmailAddressAuthenticationCodeInfo, InputPassportElement,
    InputPassportElementError, Okay, PassportAuthorizationForm, PassportElement,
    PassportElementType, PassportElements, PassportElementsWithErrors,
    PhoneNumberAuthenticationSettings, Text,
};

verus! {

/// Returns all available Telegram Passport elements
#[derive(Debug, Clone)]
pub struct GetAllPassportElements {
    /// Password of the current user
    pub password: String,
}

impl Wire for GetAllPassportElements {
    #[verifier::opaque]
    open spec fn wire(&self) -> Doc {
        tagged(
            Map::empty()
                .insert("password"@, self.password.wire()),
            "getAllPassportElements"@,
        )
    }

    #[verifier::opaque]
    open spec fn parse(d: Doc, at: Seq<char>) -> Result<Doc, Fault> {
        match d {
            Doc::Object(m) => {
                let password = field::<String>(m, "password"@);
                if password is Err {
                    password
                } else {
                    Ok(
                        tagged(
                            Map::empty()
                                .insert("password"@, password->Ok_0),
                            "getAllPassportElements"@,
                        ),
                    )
                }
            },
            _ => Err(Fault::TypeMismatch(at)),
        }
    }

    fn encode(&self) -> (j: Json) {
        proof {
            reveal(<GetAllPassportElements as Wire>::wire);
        }
        let mut members: Vec<Member> = Vec::new();
        put(&mut members, "password", self.password.encode());
        seal(members, "getAllPassportElements")
    }

    fn decode(j: &Json, at: &str) -> (r: Result<Self, DecodeError>) {
        proof {
            reveal(<GetAllPassportElements as Wire>::wire);
            reveal(<GetAllPassportElements as Wire>::parse);
        }
        let members = members_of(j, at)?;
        let password = read_field::<String>(members, "password")?;
        Ok(GetAllPassportElements { password })
    }

    proof fn round_trip(&self, at: Seq<char>) {
        reveal(<GetAllPassportElements as Wire>::wire);
        reveal(<GetAllPassportElements as Wire>::parse);
        reveal_strlit("@type");
        reveal_strlit("password");
        assert("@type"@.len() == 5);
        assert("password"@.len() == 8);
        self.password.round_trip("password"@);
    }
}

impl Tagged for GetAllPassportElements {
    open spec fn known(tag: Seq<char>) -> bool {
        tag == "getAllPassportElements"@
    }

    fn knows(tag: &str) -> (r: bool) {
        same_text(tag, "getAllPassportElements")
    }

    proof fn tag_known(&self) {
        reveal(<GetAllPassportElements as Wire>::wire);
        assert(tag_of(self.wire()) == Some("getAllPassportElements"@));
        assert(Self::known("getAllPassportElements"@));
    }
}

impl Method for GetAllPassportElements {
    const TYPE: &'static str = "getAllPassportElements";

    type Response = PassportElements;

    proof fn type_is_tag(&self) {
        reveal(<GetAllPassportElements as Wire>::wire);
        assert(tag_of(self.wire()) == Some("getAllPassportElements"@));
    }
}

/// Adds an element to the user's Telegram Passport. May return an error with a message
/// "PHONE_VERIFICATION_NEEDED" or "EMAIL_VERIFICATION_NEEDED" if the chosen phone number or the
/// chosen email address must be verified first
#[derive(Debug, Clone)]
pub struct SetPassportElement {
    /// Input Telegram Passport element
    pub element: InputPassportElement,
    /// Password of the current user
    pub password: String,
}

impl Wire for SetPassportElement {
    #[verifier::opaque]
    open spec fn wire(&self) -> Doc {
        tagged(
            Map::empty()
                .insert("element"@, self.element.wire())
                .insert("password"@, self.password.wire()),
            "setPassportElement"@,
        )
    }

    #[verifier::opaque]
    open spec fn parse(d: Doc, at: Seq<char>) -> Result<Doc, Fault> {
        match d {
            Doc::Object(m) => {
                let element = field::<InputPassportElement>(m, "element"@);
                let password = field::<String>(m, "password"@);
                if element is Err {
                    element
                } else if password is Err {
                    password
                } else {
                    Ok(
                        tagged(
                            Map::empty()
                                .insert("element"@, element->Ok_0)
                                .insert("password"@, password->Ok_0),
                            "setPassportElement"@,
                        ),
                    )
                }
            },
            _ => Err(Fault::TypeMismatch(at)),
        }
    }

    fn encode(&self) -> (j: Json) {
        proof {
            reveal(<SetPassportElement as Wire>::wire);
        }
        let mut members: Vec<Member> = Vec::new();
        put(&mut members, "element", self.element.encode());
        put(&mut members, "password", self.password.encode());
        seal(members, "setPassportElement")
    }

    fn decode(j: &Json, at: &str) -> (r: Result<Self, DecodeError>) {
        proof {
            reveal(<SetPassportElement as Wire>::wire);
            reveal(<SetPassportElement as Wire>::parse);
        }
        let members = members_of(j, at)?;
        let element = read_field::<InputPassportElement>(members, "element")?;
        let password = read_field::<String>(members, "password")?;
        Ok(SetPassportElement { element, password })
    }

    proof fn round_trip(&self, at: Seq<char>) {
        reveal(<SetPassportElement as Wire>::wire);
        reveal(<SetPassportElement as Wire>::parse);
        reveal_strlit("@type");
        reveal_strlit("element");
        reveal_strlit("password");
        assert("@type"@.len() == 5);
        assert("element"@.len() == 7);
        assert("password"@.len() == 8);
        self.element.round_trip("element"@);
        self.password.round_trip("password"@);
    }
}

impl Tagged for SetPassportElement {
    open spec fn known(tag: Seq<char>) -> bool {
        tag == "setPassportElement"@
    }

    fn knows(tag: &str) -> (r: bool) {
        same_text(tag, "setPassportElement")
    }

    proof fn tag_known(&self) {
        reveal(<SetPassportElement as Wire>::wire);
        assert(tag_of(self.wire()) == Some("setPassportElement"@));
        assert(Self::known("setPassportElement"@));
    }
}

impl Method for SetPassportElement {
    const TYPE: &'static str = "setPassportElement";

    type Response = PassportElement;

    proof fn type_is_tag(&self) {
        reveal(<SetPassportElement as Wire>::wire);
        assert(tag_of(self.wire()) == Some("setPassportElement"@));
    }
}

/// Deletes a Telegram Passport element
#[derive(Debug, Clone)]
pub struct DeletePassportElement {
    /// Element type
    pub type_: PassportElementType,
}

impl Wire for DeletePassportElement {
    #[verifier::opaque]
    open spec fn wire(&self) -> Doc {
        tagged(
            Map::empty()
                .insert("type"@, self.type_.wire()),
            "deletePassportElement"@,
        )
    }

    #[verifier::opaque]
    open spec fn parse(d: Doc, at: Seq<char>) -> Result<Doc, Fault> {
        match d {
            Doc::Object(m) => {
                let type_ = field::<PassportElementType>(m, "type"@);
                if type_ is Err {
                    type_
                } else {
                    Ok(
                        tagged(
                            Map::empty()
                                .insert("type"@, type_->Ok_0),
                            "deletePassportElement"@,
                        ),
                    )
                }
            },
            _ => Err(Fault::TypeMismatch(at)),
        }
    }

    fn encode(&self) -> (j: Json) {
        proof {
            reveal(<DeletePassportElement as Wire>::wire);
        }
        let mut members: Vec<Member> = Vec::new();
        put(&mut members, "type", self.type_.encode());
        seal(members, "deletePassportElement")
    }

    fn decode(j: &Json, at: &str) -> (r: Result<Self, DecodeError>) {
        proof {
            reveal(<DeletePassportElement as Wire>::wire);
            reveal(<DeletePassportElement as Wire>::parse);
        }
        let members = members_of(j, at)?;
        let type_ = read_field::<PassportElementType>(members, "type")?;
        Ok(DeletePassportElement { type_ })
    }

    proof fn round_trip(&self, at: Seq<char>) {
        reveal(<DeletePassportElement as Wire>::wire);
        reveal(<DeletePassportElement as Wire>::parse);
        reveal_strlit("@type");
        reveal_strlit("type");
        assert("@type"@.len() == 5);
        assert("type"@.len() == 4);
        self.type_.round_trip("type"@);
    }
}

impl Tagged for DeletePassportElement {
    open spec fn known(tag: Seq<char>) -> bool {
        tag == "deletePassportElement"@
    }

    fn knows(tag: &str) -> (r: bool) {
        same_text(tag, "deletePassportElement")
    }

    proof fn tag_known(&self) {
        reveal(<DeletePassportElement as Wire>::wire);
        assert(tag_of(self.wire()) == Some("deletePassportElement"@));
        assert(Self::known("deletePassportElement"@));
    }
}

impl Method for DeletePassportElement {
    const TYPE: &'static str = "deletePassportElement";

    type Response = Okay;

    proof fn type_is_tag(&self) {
        reveal(<DeletePassportElement as Wire>::wire);
        assert(tag_of(self.wire()) == Some("deletePassportElement"@));
    }
}

/// Informs the user that some of the elements in their Telegram Passport contain errors; for bots
/// only. The user will not be able to resend the elements, until the errors are fixed
#[derive(Debug, Clone)]
pub struct SetPassportElementErrors {
    /// User identifier
    pub user_id: i32,
    /// The errors
    pub errors: Vec<InputPassportElementError>,
}

impl Wire for SetPassportElementErrors {
    #[verifier::opaque]
    open spec fn wire(&self) -> Doc {
        tagged(
            Map::empty()
                .insert("userId"@, self.user_id.wire())
                .insert("errors"@, self.errors.wire()),
            "setPassportElementErrors"@,
        )
    }

    #[verifier::opaque]
    open spec fn parse(d: Doc, at: Seq<char>) -> Result<Doc, Fault> {
        match d {
            Doc::Object(m) => {
                let user_id = field::<i32>(m, "userId"@);
                let errors = field::<Vec<InputPassportElementError>>(m, "errors"@);
                if user_id is Err {
                    user_id
                } else if errors is Err {
                    errors
                } else {
                    Ok(
                        tagged(
                            Map::empty()
                                .insert("userId"@, user_id->Ok_0)
                                .insert("errors"@, errors->Ok_0),
                            "setPassportElementErrors"@,
                        ),
                    )
                }
            },
            _ => Err(Fault::TypeMismatch(at)),
        }
    }

    fn encode(&self) -> (j: Json) {
        proof {
            reveal(<SetPassportElementErrors as Wire>::wire);
        }
        let mut members: Vec<Member> = Vec::new();
        put(&mut members, "userId", self.user_id.encode());
        put(&mut members, "errors", self.errors.encode());
        seal(members, "setPassportElementErrors")
    }

    fn decode(j: &Json, at: &str) -> (r: Result<Self, DecodeError>) {
        proof {
            reveal(<SetPassportElementErrors as Wire>::wire);
            reveal(<SetPassportElementErrors as Wire>::parse);
        }
        let members = members_of(j, at)?;
        let user_id = read_field::<i32>(members, "userId")?;
        let errors = read_field::<Vec<InputPassportElementError>>(members, "errors")?;
        Ok(SetPassportElementErrors { user_id, errors })
    }

    proof fn round_trip(&self, at: Seq<char>) {
        reveal(<SetPassportElementErrors as Wire>::wire);
        reveal(<SetPassportElementErrors as Wire>::parse);
        reveal_strlit("@type");
        reveal_strlit("errors");
        reveal_strlit("userId");
        assert("@type"@.len() == 5);
        assert("errors"@.len() == 6 && "errors"@[0] == 'e');
        assert("userId"@.len() == 6 && "userId"@[0] == 'u');
        self.user_id.round_trip("userId"@);
        self.errors.round_trip("errors"@);
    }
}

impl Tagged for SetPassportElementErrors {
    open spec fn known(tag: Seq<char>) -> bool {
        tag == "setPassportElementErrors"@
    }

    fn knows(tag: &str) -> (r: bool) {
        same_text(tag, "setPassportElementErrors")
    }

    proof fn tag_known(&self) {
        reveal(<SetPassportElementErrors as Wire>::wire);
        assert(tag_of(self.wire()) == Some("setPassportElementErrors"@));
        assert(Self::known("setPassportElementErrors"@));
    }
}

impl Method for SetPassportElementErrors {
    const TYPE: &'static str = "setPassportElementErrors";

    type Response = Okay;

    proof fn type_is_tag(&self) {
        reveal(<SetPassportElementErrors as Wire>::wire);
        assert(tag_of(self.wire()) == Some("setPassportElementErrors"@));
    }
}

/// Returns an IETF language tag of the language preferred in the country, which should be used to
/// fill native fields in Telegram Passport personal details. Returns a 404 error if unknown
#[derive(Debug, Clone)]
pub struct GetPreferredCountryLanguage {
    /// A two-letter ISO 3166-1 alpha-2 country code
    pub country_code: String,
}

impl Wire for GetPreferredCountryLanguage {
    #[verifier::opaque]
    open spec fn wire(&self) -> Doc {
        tagged(
            Map::empty()
                .insert("countryCode"@, self.country_code.wire()),
            "getPreferredCountryLanguage"@,
        )
    }

    #[verifier::opaque]
    open spec fn parse(d: Doc, at: Seq<char>) -> Result<Doc, Fault> {
        match d {
            Doc::Object(m) => {
                let country_code = field::<String>(m, "countryCode"@);
                if country_code is Err {
                    country_code
                } else {
                    Ok(
                        tagged(
                            Map::empty()
                                .insert("countryCode"@, country_code->Ok_0),
                            "getPreferredCountryLanguage"@,
                        ),
                    )
                }
            },
            _ => Err(Fault::TypeMismatch(at)),
        }
    }

    fn encode(&self) -> (j: Json) {
        proof {
            reveal(<GetPreferredCountryLanguage as Wire>::wire);
        }
        let mut members: Vec<Member> = Vec::new();
        put(&mut members, "countryCode", self.country_code.encode());
        seal(members, "getPreferredCountryLanguage")
    }

    fn decode(j: &Json, at: &str) -> (r: Result<Self, DecodeError>) {
        proof {
            reveal(<GetPreferredCountryLanguage as Wire>::wire);
            reveal(<GetPreferredCountryLanguage as Wire>::parse);
        }
        let members = members_of(j, at)?;
        let country_code = read_field::<String>(members, "countryCode")?;
        Ok(GetPreferredCountryLanguage { country_code })
    }

    proof fn round_trip(&self, at: Seq<char>) {
        reveal(<GetPreferredCountryLanguage as Wire>::wire);
        reveal(<GetPreferredCountryLanguage as Wire>::parse);
        reveal_strlit("@type");
        reveal_strlit("countryCode");
        assert("@type"@.len() == 5);
        assert("countryCode"@.len() == 11);
        self.country_code.round_trip("countryCode"@);
    }
}

impl Tagged for GetPreferredCountryLanguage {
    open spec fn known(tag: Seq<char>) -> bool {
        tag == "getPreferredCountryLanguage"@
    }

    fn knows(tag: &str) -> (r: bool) {
        same_text(tag, "getPreferredCountryLanguage")
    }

    proof fn tag_known(&self) {
        reveal(<GetPreferredCountryLanguage as Wire>::wire);
        assert(tag_of(self.wire()) == Some("getPreferredCountryLanguage"@));
        assert(Self::known("getPreferredCountryLanguage"@));
    }
}

impl Method for GetPreferredCountryLanguage {
    const TYPE: &'static str = "getPreferredCountryLanguage";

    type Response = Text;

    proof fn type_is_tag(&self) {
        reveal(<GetPreferredCountryLanguage as Wire>::wire);
        assert(tag_of(self.wire()) == Some("getPreferredCountryLanguage"@));
    }
}

/// Sends a code to verify a phone number to be added to a user's Telegram Passport
#[derive(Debug, Clone)]
pub struct SendPhoneNumberVerificationCode {
    /// The phone number of the user, in international format
    pub phone_number: String,
    /// Settings for the authentication of the user's phone number
    pub settings: PhoneNumberAuthenticationSettings,
}

impl Wire for SendPhoneNumberVerificationCode {
    #[verifier::opaque]
    open spec fn wire(&self) -> Doc {
        tagged(
            Map::empty()
                .insert("phoneNumber"@, self.phone_number.wire())
                .insert("settings"@, self.settings.wire()),
            "sendPhoneNumberVerificationCode"@,
        )
    }

    #[verifier::opaque]
    open spec fn parse(d: Doc, at: Seq<char>) -> Result<Doc, Fault> {
        match d {
            Doc::Object(m) => {
                let phone_number = field::<String>(m, "phoneNumber"@);
                let settings = field::<PhoneNumberAuthenticationSettings>(m, "settings"@);
                if phone_number is Err {
                    phone_number
                } else if settings is Err {
                    settings
                } else {
                    Ok(
                        tagged(
                            Map::empty()
                                .insert("phoneNumber"@, phone_number->Ok_0)
                                .insert("settings"@, settings->Ok_0),
                            "sendPhoneNumberVerificationCode"@,
                        ),
                    )
                }
            },
            _ => Err(Fault::TypeMismatch(at)),
        }
    }

    fn encode(&self) -> (j: Json) {
        proof {
            reveal(<SendPhoneNumberVerificationCode as Wire>::wire);
        }
        let mut members: Vec<Member> = Vec::new();
        put(&mut members, "phoneNumber", self.phone_number.encode());
        put(&mut members, "settings", self.settings.encode());
        seal(members, "sendPhoneNumberVerificationCode")
    }

    fn decode(j: &Json, at: &str) -> (r: Result<Self, DecodeError>) {
        proof {
            reveal(<SendPhoneNumberVerificationCode as Wire>::wire);
            reveal(<SendPhoneNumberVerificationCode as Wire>::parse);
        }
        let members = members_of(j, at)?;
        let phone_number = read_field::<String>(members, "phoneNumber")?;
        let settings = read_field::<PhoneNumberAuthenticationSettings>(members, "settings")?;
        Ok(SendPhoneNumberVerificationCode { phone_number, settings })
    }

    proof fn round_trip(&self, at: Seq<char>) {
        reveal(<SendPhoneNumberVerificationCode as Wire>::wire);
        reveal(<SendPhoneNumberVerificationCode as Wire>::parse);
        reveal_strlit("@type");
        reveal_strlit("phoneNumber");
        reveal_strlit("settings");
        assert("@type"@.len() == 5);
        assert("phoneNumber"@.len() == 11);
        assert("settings"@.len() == 8);
        self.phone_number.round_trip("phoneNumber"@);
        self.settings.round_trip("settings"@);
    }
}

impl Tagged for SendPhoneNumberVerificationCode {
    open spec fn known(tag: Seq<char>) -> bool {
        tag == "sendPhoneNumberVerificationCode"@
    }

    fn knows(tag: &str) -> (r: bool) {
        same_text(tag, "sendPhoneNumberVerificationCode")
    }

    proof fn tag_known(&self) {
        reveal(<SendPhoneNumberVerificationCode as Wire>::wire);
        assert(tag_of(self.wire()) == Some("sendPhoneNumberVerificationCode"@));
        assert(Self::known("sendPhoneNumberVerificationCode"@));
    }
}

impl Method for SendPhoneNumberVerificationCode {
    const TYPE: &'static str = "sendPhoneNumberVerificationCode";

    type Response = AuthenticationCodeInfo;

    proof fn type_is_tag(&self) {
        reveal(<SendPhoneNumberVerificationCode as Wire>::wire);
        assert(tag_of(self.wire()) == Some("sendPhoneNumberVerificationCode"@));
    }
}

/// Re-sends the code to verify a phone number to be added to a user's Telegram Passport
#[derive(Debug, Clone)]
pub struct ResendPhoneNumberVerificationCode {}

impl Wire for ResendPhoneNumberVerificationCode {
    #[verifier::opaque]
    open spec fn wire(&self) -> Doc {
        tagged(Map::empty(), "resendPhoneNumberVerificationCode"@)
    }

    #[verifier::opaque]
    open spec fn parse(d: Doc, at: Seq<char>) -> Result<Doc, Fault> {
        match d {
            Doc::Object(_) => Ok(tagged(Map::empty(), "resendPhoneNumberVerificationCode"@)),
            _ => Err(Fault::TypeMismatch(at)),
        }
    }

    fn encode(&self) -> (j: Json) {
        proof {
            reveal(<ResendPhoneNumberVerificationCode as Wire>::wire);
        }
        seal(Vec::new(), "resendPhoneNumberVerificationCode")
    }

    fn decode(j: &Json, at: &str) -> (r: Result<Self, DecodeError>) {
        proof {
            reveal(<ResendPhoneNumberVerificationCode as Wire>::wire);
            reveal(<ResendPhoneNumberVerificationCode as Wire>::parse);
        }
        let _ = members_of(j, at)?;
        Ok(ResendPhoneNumberVerificationCode {})
    }

    proof fn round_trip(&self, at: Seq<char>) {
        reveal(<ResendPhoneNumberVerificationCode as Wire>::wire);
        reveal(<ResendPhoneNumberVerificationCode as Wire>::parse);
    }
}

impl Tagged for ResendPhoneNumberVerificationCode {
    open spec fn known(tag: Seq<char>) -> bool {
        tag == "resendPhoneNumberVerificationCode"@
    }

    fn knows(tag: &str) -> (r: bool) {
        same_text(tag, "resendPhoneNumberVerificationCode")
    }

    proof fn tag_known(&self) {
        reveal(<ResendPhoneNumberVerificationCode as Wire>::wire);
        assert(tag_of(self.wire()) == Some("resendPhoneNumberVerificationCode"@));
        assert(Self::known("resendPhoneNumberVerificationCode"@));
    }
}

impl Method for ResendPhoneNumberVerificationCode {
    const TYPE: &'static str = "resendPhoneNumberVerificationCode";

    type Response = AuthenticationCodeInfo;

    proof fn type_is_tag(&self) {
        reveal(<ResendPhoneNumberVerificationCode as Wire>::wire);
        assert(tag_of(self.wire()) == Some("resendPhoneNumberVerificationCode"@));
    }
}

/// Checks the phone number verification code for Telegram Passport
#[derive(Debug, Clone)]
pub struct CheckPhoneNumberVerificationCode {
    /// Verification code
    pub code: String,
}

impl Wire for CheckPhoneNumberVerificationCode {
    #[verifier::opaque]
    open spec fn wire(&self) -> Doc {
        tagged(
            Map::empty()
                .insert("code"@, self.code.wire()),
            "checkPhoneNumberVerificationCode"@,
        )
    }

    #[verifier::opaque]
    open spec fn parse(d: Doc, at: Seq<char>) -> Result<Doc, Fault> {
        match d {
            Doc::Object(m) => {
                let code = field::<String>(m, "code"@);
                if code is Err {
                    code
                } else {
                    Ok(
                        tagged(
                            Map::empty()
                                .insert("code"@, code->Ok_0),
                            "checkPhoneNumberVerificationCode"@,
                        ),
                    )
                }
            },
            _ => Err(Fault::TypeMismatch(at)),
        }
    }

    fn encode(&self) -> (j: Json) {
        proof {
            reveal(<CheckPhoneNumberVerificationCode as Wire>::wire);
        }
        let mut members: Vec<Member> = Vec::new();
        put(&mut members, "code", self.code.encode());
        seal(members, "checkPhoneNumberVerificationCode")
    }

    fn decode(j: &Json, at: &str) -> (r: Result<Self, DecodeError>) {
        proof {
            reveal(<CheckPhoneNumberVerificationCode as Wire>::wire);
            reveal(<CheckPhoneNumberVerificationCode as Wire>::parse);
        }
        let members = members_of(j, at)?;
        let code = read_field::<String>(members, "code")?;
        Ok(CheckPhoneNumberVerificationCode { code })
    }

    proof fn round_trip(&self, at: Seq<char>) {
        reveal(<CheckPhoneNumberVerificationCode as Wire>::wire);
        reveal(<CheckPhoneNumberVerificationCode as Wire>::parse);
        reveal_strlit("@type");
        reveal_strlit("code");
        assert("@type"@.len() == 5);
        assert("code"@.len() == 4);
        self.code.round_trip("code"@);
    }
}

impl Tagged for CheckPhoneNumberVerificationCode {
    open spec fn known(tag: Seq<char>) -> bool {
        tag == "checkPhoneNumberVerificationCode"@
    }

    fn knows(tag: &str) -> (r: bool) {
        same_text(tag, "checkPhoneNumberVerificationCode")
    }

    proof fn tag_known(&self) {
        reveal(<CheckPhoneNumberVerificationCode as Wire>::wire);
        assert(tag_of(self.wire()) == Some("checkPhoneNumberVerificationCode"@));
        assert(Self::known("checkPhoneNumberVerificationCode"@));
    }
}

impl Method for CheckPhoneNumberVerificationCode {
    const TYPE: &'static str = "checkPhoneNumberVerificationCode";

    type Response = Okay;

    proof fn type_is_tag(&self) {
        reveal(<CheckPhoneNumberVerificationCode as Wire>::wire);
        assert(tag_of(self.wire()) == Some("checkPhoneNumberVerificationCode"@));
    }
}

/// Sends a code to verify an email address to be added to a user's Telegram Passport
#[derive(Debug, Clone)]
pub struct SendEmailAddressVerificationCode {
    /// Email address
    pub email_address: String,
}

impl Wire for SendEmailAddressVerificationCode {
    #[verifier::opaque]
    open spec fn wire(&self) -> Doc {
        tagged(
            Map::empty()
                .insert("emailAddress"@, self.email_address.wire()),
            "sendEmailAddressVerificationCode"@,
        )
    }

    #[verifier::opaque]
    open spec fn parse(d: Doc, at: Seq<char>) -> Result<Doc, Fault> {
        match d {
            Doc::Object(m) => {
                let email_address = field::<String>(m, "emailAddress"@);
                if email_address is Err {
                    email_address
                } else {
                    Ok(
                        tagged(
                            Map::empty()
                                .insert("emailAddress"@, email_address->Ok_0),
                            "sendEmailAddressVerificationCode"@,
                        ),
                    )
                }
            },
            _ => Err(Fault::TypeMismatch(at)),
        }
    }

    fn encode(&self) -> (j: Json) {
        proof {
            reveal(<SendEmailAddressVerificationCode as Wire>::wire);
        }
        let mut members: Vec<Member> = Vec::new();
        put(&mut members, "emailAddress", self.email_address.encode());
        seal(members, "sendEmailAddressVerificationCode")
    }

    fn decode(j: &Json, at: &str) -> (r: Result<Self, DecodeError>) {
        proof {
            reveal(<SendEmailAddressVerificationCode as Wire>::wire);
            reveal(<SendEmailAddressVerificationCode as Wire>::parse);
        }
        let members = members_of(j, at)?;
        let email_address = read_field::<String>(members, "emailAddress")?;
        Ok(SendEmailAddressVerificationCode { email_address })
    }

    proof fn round_trip(&self, at: Seq<char>) {
        reveal(<SendEmailAddressVerificationCode as Wire>::wire);
        reveal(<SendEmailAddressVerificationCode as Wire>::parse);
        reveal_strlit("@type");
        reveal_strlit("emailAddress");
        assert("@type"@.len() == 5);
        assert("emailAddress"@.len() == 12);
        self.email_address.round_trip("emailAddress"@);
    }
}

impl Tagged for SendEmailAddressVerificationCode {
    open spec fn known(tag: Seq<char>) -> bool {
        tag == "sendEmailAddressVerificationCode"@
    }

    fn knows(tag: &str) -> (r: bool) {
        same_text(tag, "sendEmailAddressVerificationCode")
    }

    proof fn tag_known(&self) {
        reveal(<SendEmailAddressVerificationCode as Wire>::wire);
        assert(tag_of(self.wire()) == Some("sendEmailAddressVerificationCode"@));
        assert(Self::known("sendEmailAddressVerificationCode"@));
    }
}

impl Method for SendEmailAddressVerificationCode {
    const TYPE: &'static str = "sendEmailAddressVerificationCode";

    type Response = EmailAddressAuthenticationCodeInfo;

    proof fn type_is_tag(&self) {
        reveal(<SendEmailAddressVerificationCode as Wire>::wire);
        assert(tag_of(self.wire()) == Some("sendEmailAddressVerificationCode"@));
    }
}

/// Re-sends the code to verify an email address to be added to a user's Telegram Passport
#[derive(Debug, Clone)]
pub struct ResendEmailAddressVerificationCode {}

impl Wire for ResendEmailAddressVerificationCode {
    #[verifier::opaque]
    open spec fn wire(&self) -> Doc {
        tagged(Map::empty(), "resendEmailAddressVerificationCode"@)
    }

    #[verifier::opaque]
    open spec fn parse(d: Doc, at: Seq<char>) -> Result<Doc, Fault> {
        match d {
            Doc::Object(_) => Ok(tagged(Map::empty(), "resendEmailAddressVerificationCode"@)),
            _ => Err(Fault::TypeMismatch(at)),
        }
    }

    fn encode(&self) -> (j: Json) {
        proof {
            reveal(<ResendEmailAddressVerificationCode as Wire>::wire);
        }
        seal(Vec::new(), "resendEmailAddressVerificationCode")
    }

    fn decode(j: &Json, at: &str) -> (r: Result<Self, DecodeError>) {
        proof {
            reveal(<ResendEmailAddressVerificationCode as Wire>::wire);
            reveal(<ResendEmailAddressVerificationCode as Wire>::parse);
        }
        let _ = members_of(j, at)?;
        Ok(ResendEmailAddressVerificationCode {})
    }

    proof fn round_trip(&self, at: Seq<char>) {
        reveal(<ResendEmailAddressVerificationCode as Wire>::wire);
        reveal(<ResendEmailAddressVerificationCode as Wire>::parse);
    }
}

impl Tagged for ResendEmailAddressVerificationCode {
    open spec fn known(tag: Seq<char>) -> bool {
        tag == "resendEmailAddressVerificationCode"@
    }

    fn knows(tag: &str) -> (r: bool) {
        same_text(tag, "resendEmailAddressVerificationCode")
    }

    proof fn tag_known(&self) {
        reveal(<ResendEmailAddressVerificationCode as Wire>::wire);
        assert(tag_of(self.wire()) == Some("resendEmailAddressVerificationCode"@));
        assert(Self::known("resendEmailAddressVerificationCode"@));
    }
}

impl Method for ResendEmailAddressVerificationCode {
    const TYPE: &'static str = "resendEmailAddressVerificationCode";

    type Response = EmailAddressAuthenticationCodeInfo;

    proof fn type_is_tag(&self) {
        reveal(<ResendEmailAddressVerificationCode as Wire>::wire);
        assert(tag_of(self.wire()) == Some("resendEmailAddressVerificationCode"@));
    }
}

/// Checks the email address verification code for Telegram Passport
#[derive(Debug, Clone)]
pub struct CheckEmailAddressVerificationCode {
    /// Verification code
    pub code: String,
}

impl Wire for CheckEmailAddressVerificationCode {
    #[verifier::opaque]
    open spec fn wire(&self) -> Doc {
        tagged(
            Map::empty()
                .insert("code"@, self.code.wire()),
            "checkEmailAddressVerificationCode"@,
        )
    }

    #[verifier::opaque]
    open spec fn parse(d: Doc, at: Seq<char>) -> Result<Doc, Fault> {
        match d {
            Doc::Object(m) => {
                let code = field::<String>(m, "code"@);
                if code is Err {
                    code
                } else {
                    Ok(
                        tagged(
                            Map::empty()
                                .insert("code"@, code->Ok_0),
                            "checkEmailAddressVerificationCode"@,
                        ),
                    )
                }
            },
            _ => Err(Fault::TypeMismatch(at)),
        }
    }

    fn encode(&self) -> (j: Json) {
        proof {
            reveal(<CheckEmailAddressVerificationCode as Wire>::wire);
        }
        let mut members: Vec<Member> = Vec::new();
        put(&mut members, "code", self.code.encode());
        seal(members, "checkEmailAddressVerificationCode")
    }

    fn decode(j: &Json, at: &str) -> (r: Result<Self, DecodeError>) {
        proof {
            reveal(<CheckEmailAddressVerificationCode as Wire>::wire);
            reveal(<CheckEmailAddressVerificationCode as Wire>::parse);
        }
        let members = members_of(j, at)?;
        let code = read_field::<String>(members, "code")?;
        Ok(CheckEmailAddressVerificationCode { code })
    }

    proof fn round_trip(&self, at: Seq<char>) {
        reveal(<CheckEmailAddressVerificationCode as Wire>::wire);
        reveal(<CheckEmailAddressVerificationCode as Wire>::parse);
        reveal_strlit("@type");
        reveal_strlit("code");
        assert("@type"@.len() == 5);
        assert("code"@.len() == 4);
        self.code.round_trip("code"@);
    }
}

impl Tagged for CheckEmailAddressVerificationCode {
    open spec fn known(tag: Seq<char>) -> bool {
        tag == "checkEmailAddressVerificationCode"@
    }

    fn knows(tag: &str) -> (r: bool) {
        same_text(tag, "checkEmailAddressVerificationCode")
    }

    proof fn tag_known(&self) {
        reveal(<CheckEmailAddressVerificationCode as Wire>::wire);
        assert(tag_of(self.wire()) == Some("checkEmailAddressVerificationCode"@));
        assert(Self::known("checkEmailAddressVerificationCode"@));
    }
}

impl Method for CheckEmailAddressVerificationCode {
    const TYPE: &'static str = "checkEmailAddressVerificationCode";

    type Response = Okay;

    proof fn type_is_tag(&self) {
        reveal(<CheckEmailAddressVerificationCode as Wire>::wire);
        assert(tag_of(self.wire()) == Some("checkEmailAddressVerificationCode"@));
    }
}

/// Returns a Telegram Passport authorization form for sharing data with a service
#[derive(Debug, Clone)]
pub struct GetPassportAuthorizationForm {
    /// User identifier of the service's bot
    pub bot_user_id: i32,
    /// Telegram Passport element types requested by the service
    pub scope: String,
    /// Service's public_key
    pub public_key: String,
    /// Authorization form nonce provided by the service
    pub nonce: String,
}

impl Wire for GetPassportAuthorizationForm {
    #[verifier::opaque]
    open spec fn wire(&self) -> Doc {
        tagged(
            Map::empty()
                .insert("botUserId"@, self.bot_user_id.wire())
                .insert("scope"@, self.scope.wire())
                .insert("publicKey"@, self.public_key.wire())
                .insert("nonce"@, self.nonce.wire()),
            "getPassportAuthorizationForm"@,
        )
    }

    #[verifier::opaque]
    open spec fn parse(d: Doc, at: Seq<char>) -> Result<Doc, Fault> {
        match d {
            Doc::Object(m) => {
                let bot_user_id = field::<i32>(m, "botUserId"@);
                let scope = field::<String>(m, "scope"@);
                let public_key = field::<String>(m, "publicKey"@);
                let nonce = field::<String>(m, "nonce"@);
                if bot_user_id is Err {
                    bot_user_id
                } else if scope is Err {
                    scope
                } else if public_key is Err {
                    public_key
                } else if nonce is Err {
                    nonce
                } else {
                    Ok(
                        tagged(
                            Map::empty()
                                .insert("botUserId"@, bot_user_id->Ok_0)
                                .insert("scope"@, scope->Ok_0)
                                .insert("publicKey"@, public_key->Ok_0)
                                .insert("nonce"@, nonce->Ok_0),
                            "getPassportAuthorizationForm"@,
                        ),
                    )
                }
            },
            _ => Err(Fault::TypeMismatch(at)),
        }
    }

    fn encode(&self) -> (j: Json) {
        proof {
            reveal(<GetPassportAuthorizationForm as Wire>::wire);
        }
        let mut members: Vec<Member> = Vec::new();
        put(&mut members, "botUserId", self.bot_user_id.encode());
        put(&mut members, "scope", self.scope.encode());
        put(&mut members, "publicKey", self.public_key.encode());
        put(&mut members, "nonce", self.nonce.encode());
        seal(members, "getPassportAuthorizationForm")
    }

    fn decode(j: &Json, at: &str) -> (r: Result<Self, DecodeError>) {
        proof {
            reveal(<GetPassportAuthorizationForm as Wire>::wire);
            reveal(<GetPassportAuthorizationForm as Wire>::parse);
        }
        let members = members_of(j, at)?;
        let bot_user_id = read_field::<i32>(members, "botUserId")?;
        let scope = read_field::<String>(members, "scope")?;
        let public_key = read_field::<String>(members, "publicKey")?;
        let nonce = read_field::<String>(members, "nonce")?;
        Ok(GetPassportAuthorizationForm { bot_user_id, scope, public_key, nonce })
    }

    proof fn round_trip(&self, at: Seq<char>) {
        reveal(<GetPassportAuthorizationForm as Wire>::wire);
        reveal(<GetPassportAuthorizationForm as Wire>::parse);
        reveal_strlit("@type");
        reveal_strlit("botUserId");
        reveal_strlit("nonce");
        reveal_strlit("publicKey");
        reveal_strlit("scope");
        assert("@type"@.len() == 5 && "@type"@[0] == '@');
        assert("botUserId"@.len() == 9 && "botUserId"@[0] == 'b');
        assert("nonce"@.len() == 5 && "nonce"@[0] == 'n');
        assert("publicKey"@.len() == 9 && "publicKey"@[0] == 'p');
        assert("scope"@.len() == 5 && "scope"@[0] == 's');
        self.bot_user_id.round_trip("botUserId"@);
        self.scope.round_trip("scope"@);
        self.public_key.round_trip("publicKey"@);
        self.nonce.round_trip("nonce"@);
    }
}

impl Tagged for GetPassportAuthorizationForm {
    open spec fn known(tag: Seq<char>) -> bool {
        tag == "getPassportAuthorizationForm"@
    }

    fn knows(tag: &str) -> (r: bool) {
        same_text(tag, "getPassportAuthorizationForm")
    }

    proof fn tag_known(&self) {
        reveal(<GetPassportAuthorizationForm as Wire>::wire);
        assert(tag_of(self.wire()) == Some("getPassportAuthorizationForm"@));
        assert(Self::known("getPassportAuthorizationForm"@));
    }
}

impl Method for GetPassportAuthorizationForm {
    const TYPE: &'static str = "getPassportAuthorizationForm";

    type Response = PassportAuthorizationForm;

    proof fn type_is_tag(&self) {
        reveal(<GetPassportAuthorizationForm as Wire>::wire);
        assert(tag_of(self.wire()) == Some("getPassportAuthorizationForm"@));
    }
}

/// Returns already available Telegram Passport elements suitable for completing a Telegram Passport
/// authorization form. Result can be received only once for each authorization form
#[derive(Debug, Clone)]
pub struct GetPassportAuthorizationFormAvailableElements {
    /// Authorization form identifier
    pub autorization_form_id: i32,
    /// Password of the current user
    pub password: String,
}

impl Wire for GetPassportAuthorizationFormAvailableElements {
    #[verifier::opaque]
    open spec fn wire(&self) -> Doc {
        tagged(
            Map::empty()
                .insert("autorizationFormId"@, self.autorization_form_id.wire())
                .insert("password"@, self.password.wire()),
            "getPassportAuthorizationFormAvailableElements"@,
        )
    }

    #[verifier::opaque]
    open spec fn parse(d: Doc, at: Seq<char>) -> Result<Doc, Fault> {
        match d {
            Doc::Object(m) => {
                let autorization_form_id = field::<i32>(m, "autorizationFormId"@);
                let password = field::<String>(m, "password"@);
                if autorization_form_id is Err {
                    autorization_form_id
                } else if password is Err {
                    password
                } else {
                    Ok(
                        tagged(
                            Map::empty()
                                .insert("autorizationFormId"@, autorization_form_id->Ok_0)
                                .insert("password"@, password->Ok_0),
                            "getPassportAuthorizationFormAvailableElements"@,
                        ),
                    )
                }
            },
            _ => Err(Fault::TypeMismatch(at)),
        }
    }

    fn encode(&self) -> (j: Json) {
        proof {
            reveal(<GetPassportAuthorizationFormAvailableElements as Wire>::wire);
        }
        let mut members: Vec<Member> = Vec::new();
        put(&mut members, "autorizationFormId", self.autorization_form_id.encode());
        put(&mut members, "password", self.password.encode());
        seal(members, "getPassportAuthorizationFormAvailableElements")
    }

    fn decode(j: &Json, at: &str) -> (r: Result<Self, DecodeError>) {
        proof {
            reveal(<GetPassportAuthorizationFormAvailableElements as Wire>::wire);
            reveal(<GetPassportAuthorizationFormAvailableElements as Wire>::parse);
        }
        let members = members_of(j, at)?;
        let autorization_form_id = read_field::<i32>(members, "autorizationFormId")?;
        let password = read_field::<String>(members, "password")?;
        Ok(GetPassportAuthorizationFormAvailableElements { autorization_form_id, password })
    }

    proof fn round_trip(&self, at: Seq<char>) {
        reveal(<GetPassportAuthorizationFormAvailableElements as Wire>::wire);
        reveal(<GetPassportAuthorizationFormAvailableElements as Wire>::parse);
        reveal_strlit("@type");
        reveal_strlit("autorizationFormId");
        reveal_strlit("password");
        assert("@type"@.len() == 5);
        assert("autorizationFormId"@.len() == 18);
        assert("password"@.len() == 8);
        self.autorization_form_id.round_trip("autorizationFormId"@);
        self.password.round_trip("password"@);
    }
}

impl Tagged for GetPassportAuthorizationFormAvailableElements {
    open spec fn known(tag: Seq<char>) -> bool {
        tag == "getPassportAuthorizationFormAvailableElements"@
    }

    fn knows(tag: &str) -> (r: bool) {
        same_text(tag, "getPassportAuthorizationFormAvailableElements")
    }

    proof fn tag_known(&self) {
        reveal(<GetPassportAuthorizationFormAvailableElements as Wire>::wire);
        assert(tag_of(self.wire()) == Some("getPassportAuthorizationFormAvailableElements"@));
        assert(Self::known("getPassportAuthorizationFormAvailableElements"@));
    }
}

impl Method for GetPassportAuthorizationFormAvailableElements {
    const TYPE: &'static str = "getPassportAuthorizationFormAvailableElements";

    type Response = PassportElementsWithErrors;

    proof fn type_is_tag(&self) {
        reveal(<GetPassportAuthorizationFormAvailableElements as Wire>::wire);
        assert(tag_of(self.wire()) == Some("getPassportAuthorizationFormAvailableElements"@));
    }
}

/// Sends a Telegram Passport authorization form, effectively sharing data with the service. This
/// method must be called after getPassportAuthorizationFormAvailableElements if some previously
/// available elements need to be used
#[derive(Debug, Clone)]
pub struct SendPassportAuthorizationForm {
    /// Authorization form identifier
    pub autorization_form_id: i32,
    /// Types of Telegram Passport elements chosen by user to complete the authorization form
    pub types: Vec<PassportElementType>,
}

impl Wire for SendPassportAuthorizationForm {
    #[verifier::opaque]
    open spec fn wire(&self) -> Doc {
        tagged(
            Map::empty()
                .insert("autorizationFormId"@, self.autorization_form_id.wire())
                .insert("types"@, self.types.wire()),
            "sendPassportAuthorizationForm"@,
        )
    }

    #[verifier::opaque]
    open spec fn parse(d: Doc, at: Seq<char>) -> Result<Doc, Fault> {
        match d {
            Doc::Object(m) => {
                let autorization_form_id = field::<i32>(m, "autorizationFormId"@);
                let types = field::<Vec<PassportElementType>>(m, "types"@);
                if autorization_form_id is Err {
                    autorization_form_id
                } else if types is Err {
                    types
                } else {
                    Ok(
                        tagged(
                            Map::empty()
                                .insert("autorizationFormId"@, autorization_form_id->Ok_0)
                                .insert("types"@, types->Ok_0),
                            "sendPassportAuthorizationForm"@,
                        ),
                    )
                }
            },
            _ => Err(Fault::TypeMismatch(at)),
        }
    }

    fn encode(&self) -> (j: Json) {
        proof {
            reveal(<SendPassportAuthorizationForm as Wire>::wire);
        }
        let mut members: Vec<Member> = Vec::new();
        put(&mut members, "autorizationFormId", self.autorization_form_id.encode());
        put(&mut members, "types", self.types.encode());
        seal(members, "sendPassportAuthorizationForm")
    }

    fn decode(j: &Json, at: &str) -> (r: Result<Self, DecodeError>) {
        proof {
            reveal(<SendPassportAuthorizationForm as Wire>::wire);
            reveal(<SendPassportAuthorizationForm as Wire>::parse);
        }
        let members = members_of(j, at)?;
        let autorization_form_id = read_field::<i32>(members, "autorizationFormId")?;
        let types = read_field::<Vec<PassportElementType>>(members, "types")?;
        Ok(SendPassportAuthorizationForm { autorization_form_id, types })
    }

    proof fn round_trip(&self, at: Seq<char>) {
        reveal(<SendPassportAuthorizationForm as Wire>::wire);
        reveal(<SendPassportAuthorizationForm as Wire>::parse);
        reveal_strlit("@type");
        reveal_strlit("autorizationFormId");
        reveal_strlit("types");
        assert("@type"@.len() == 5 && "@type"@[0] == '@');
        assert("autorizationFormId"@.len() == 18);
        assert("types"@.len() == 5 && "types"@[0] == 't');
        self.autorization_form_id.round_trip("autorizationFormId"@);
        self.types.round_trip("types"@);
    }
}

impl Tagged for SendPassportAuthorizationForm {
    open spec fn known(tag: Seq<char>) -> bool {
        tag == "sendPassportAuthorizationForm"@
    }

    fn knows(tag: &str) -> (r: bool) {
        same_text(tag, "sendPassportAuthorizationForm")
    }

    proof fn tag_known(&self) {
        reveal(<SendPassportAuthorizationForm as Wire>::wire);
        assert(tag_of(self.wire()) == Some("sendPassportAuthorizationForm"@));
        assert(Self::known("sendPassportAuthorizationForm"@));
    }
}

impl Method for SendPassportAuthorizationForm {
    const TYPE: &'static str = "sendPassportAuthorizationForm";

    type Response = Okay;

    proof fn type_is_tag(&self) {
        reveal(<SendPassportAuthorizationForm as Wire>::wire);
        assert(tag_of(self.wire()) == Some("sendPassportAuthorizationForm"@));
    }
}

/// Sends phone number confirmation code. Should be called when user presses
/// "https://t.me/confirmphone?phone=*******&hash=**********" or
/// "tg://confirmphone?phone=*******&hash=**********" link
#[derive(Debug, Clone)]
pub struct SendPhoneNumberConfirmationCode {
    /// Value of the "hash" parameter from the link
    pub hash: String,
    /// Value of the "phone" parameter from the link
    pub phone_number: String,
    /// Settings for the authentication of the user's phone number
    pub settings: PhoneNumberAuthenticationSettings,
}

impl Wire for SendPhoneNumberConfirmationCode {
    #[verifier::opaque]
    open spec fn wire(&self) -> Doc {
        tagged(
            Map::empty()
                .insert("hash"@, self.hash.wire())
                .insert("phoneNumber"@, self.phone_number.wire())
                .insert("settings"@, self.settings.wire()),
            "sendPhoneNumberConfirmationCode"@,
        )
    }

    #[verifier::opaque]
    open spec fn parse(d: Doc, at: Seq<char>) -> Result<Doc, Fault> {
        match d {
            Doc::Object(m) => {
                let hash = field::<String>(m, "hash"@);
                let phone_number = field::<String>(m, "phoneNumber"@);
                let settings = field::<PhoneNumberAuthenticationSettings>(m, "settings"@);
                if hash is Err {
                    hash
                } else if phone_number is Err {
                    phone_number
                } else if settings is Err {
                    settings
                } else {
                    Ok(
                        tagged(
                            Map::empty()
                                .insert("hash"@, hash->Ok_0)
                                .insert("phoneNumber"@, phone_number->Ok_0)
                                .insert("settings"@, settings->Ok_0),
                            "sendPhoneNumberConfirmationCode"@,
                        ),
                    )
                }
            },
            _ => Err(Fault::TypeMismatch(at)),
        }
    }

    fn encode(&self) -> (j: Json) {
        proof {
            reveal(<SendPhoneNumberConfirmationCode as Wire>::wire);
        }
        let mut members: Vec<Member> = Vec::new();
        put(&mut members, "hash", self.hash.encode());
        put(&mut members, "phoneNumber", self.phone_number.encode());
        put(&mut members, "settings", self.settings.encode());
        seal(members, "sendPhoneNumberConfirmationCode")
    }

    fn decode(j: &Json, at: &str) -> (r: Result<Self, DecodeError>) {
        proof {
            reveal(<SendPhoneNumberConfirmationCode as Wire>::wire);
            reveal(<SendPhoneNumberConfirmationCode as Wire>::parse);
        }
        let members = members_of(j, at)?;
        let hash = read_field::<String>(members, "hash")?;
        let phone_number = read_field::<String>(members, "phoneNumber")?;
        let settings = read_field::<PhoneNumberAuthenticationSettings>(members, "settings")?;
        Ok(SendPhoneNumberConfirmationCode { hash, phone_number, settings })
    }

    proof fn round_trip(&self, at: Seq<char>) {
        reveal(<SendPhoneNumberConfirmationCode as Wire>::wire);
        reveal(<SendPhoneNumberConfirmationCode as Wire>::parse);
        reveal_strlit("@type");
        reveal_strlit("hash");
        reveal_strlit("phoneNumber");
        reveal_strlit("settings");
        assert("@type"@.len() == 5);
        assert("hash"@.len() == 4);
        assert("phoneNumber"@.len() == 11);
        assert("settings"@.len() == 8);
        self.hash.round_trip("hash"@);
        self.phone_number.round_trip("phoneNumber"@);
        self.settings.round_trip("settings"@);
    }
}

impl Tagged for SendPhoneNumberConfirmationCode {
    open spec fn known(tag: Seq<char>) -> bool {
        tag == "sendPhoneNumberConfirmationCode"@
    }

    fn knows(tag: &str) -> (r: bool) {
        same_text(tag, "sendPhoneNumberConfirmationCode")
    }

    proof fn tag_known(&self) {
        reveal(<SendPhoneNumberConfirmationCode as Wire>::wire);
        assert(tag_of(self.wire()) == Some("sendPhoneNumberConfirmationCode"@));
        assert(Self::known("sendPhoneNumberConfirmationCode"@));
    }
}

impl Method for SendPhoneNumberConfirmationCode {
    const TYPE: &'static str = "sendPhoneNumberConfirmationCode";

    type Response = AuthenticationCodeInfo;

    proof fn type_is_tag(&self) {
        reveal(<SendPhoneNumberConfirmationCode as Wire>::wire);
        assert(tag_of(self.wire()) == Some("sendPhoneNumberConfirmationCode"@));
    }
}

/// Resends phone number confirmation code
#[derive(Debug, Clone)]
pub struct ResendPhoneNumberConfirmationCode {}

impl Wire for ResendPhoneNumberConfirmationCode {
    #[verifier::opaque]
    open spec fn wire(&self) -> Doc {
        tagged(Map::empty(), "resendPhoneNumberConfirmationCode"@)
    }

    #[verifier::opaque]
    open spec fn parse(d: Doc, at: Seq<char>) -> Result<Doc, Fault> {
        match d {
            Doc::Object(_) => Ok(tagged(Map::empty(), "resendPhoneNumberConfirmationCode"@)),
            _ => Err(Fault::TypeMismatch(at)),
        }
    }

    fn encode(&self) -> (j: Json) {
        proof {
            reveal(<ResendPhoneNumberConfirmationCode as Wire>::wire);
        }
        seal(Vec::new(), "resendPhoneNumberConfirmationCode")
    }

    fn decode(j: &Json, at: &str) -> (r: Result<Self, DecodeError>) {
        proof {
            reveal(<ResendPhoneNumberConfirmationCode as Wire>::wire);
            reveal(<ResendPhoneNumberConfirmationCode as Wire>::parse);
        }
        let _ = members_of(j, at)?;
        Ok(ResendPhoneNumberConfirmationCode {})
    }

    proof fn round_trip(&self, at: Seq<char>) {
        reveal(<ResendPhoneNumberConfirmationCode as Wire>::wire);
        reveal(<ResendPhoneNumberConfirmationCode as Wire>::parse);
    }
}

impl Tagged for ResendPhoneNumberConfirmationCode {
    open spec fn known(tag: Seq<char>) -> bool {
        tag == "resendPhoneNumberConfirmationCode"@
    }

    fn knows(tag: &str) -> (r: bool) {
        same_text(tag, "resendPhoneNumberConfirmationCode")
    }

    proof fn tag_known(&self) {
        reveal(<ResendPhoneNumberConfirmationCode as Wire>::wire);
        assert(tag_of(self.wire()) == Some("resendPhoneNumberConfirmationCode"@));
        assert(Self::known("resendPhoneNumberConfirmationCode"@));
    }
}

impl Method for ResendPhoneNumberConfirmationCode {
    const TYPE: &'static str = "resendPhoneNumberConfirmationCode";

    type Response = AuthenticationCodeInfo;

    proof fn type_is_tag(&self) {
        reveal(<ResendPhoneNumberConfirmationCode as Wire>::wire);
        assert(tag_of(self.wire()) == Some("resendPhoneNumberConfirmationCode"@));
    }
}

/// Checks phone number confirmation code
#[derive(Debug, Clone)]
pub struct CheckPhoneNumberConfirmationCode {
    /// The phone number confirmation code
    pub code: String,
}

impl Wire for CheckPhoneNumberConfirmationCode {
    #[verifier::opaque]
    open spec fn wire(&self) -> Doc {
        tagged(
            Map::empty()
                .insert("code"@, self.code.wire()),
            "checkPhoneNumberConfirmationCode"@,
        )
    }

    #[verifier::opaque]
    open spec fn parse(d: Doc, at: Seq<char>) -> Result<Doc, Fault> {
        match d {
            Doc::Object(m) => {
                let code = field::<String>(m, "code"@);
                if code is Err {
                    code
                } else {
                    Ok(
                        tagged(
                            Map::empty()
                                .insert("code"@, code->Ok_0),
                            "checkPhoneNumberConfirmationCode"@,
                        ),
                    )
                }
            },
            _ => Err(Fault::TypeMismatch(at)),
        }
    }

    fn encode(&self) -> (j: Json) {
        proof {
            reveal(<CheckPhoneNumberConfirmationCode as Wire>::wire);
        }
        let mut members: Vec<Member> = Vec::new();
        put(&mut members, "code", self.code.encode());
        seal(members, "checkPhoneNumberConfirmationCode")
    }

    fn decode(j: &Json, at: &str) -> (r: Result<Self, DecodeError>) {
        proof {
            reveal(<CheckPhoneNumberConfirmationCode as Wire>::wire);
            reveal(<CheckPhoneNumberConfirmationCode as Wire>::parse);
        }
        let members = members_of(j, at)?;
        let code = read_field::<String>(members, "code")?;
        Ok(CheckPhoneNumberConfirmationCode { code })
    }

    proof fn round_trip(&self, at: Seq<char>) {
        reveal(<CheckPhoneNumberConfirmationCode as Wire>::wire);
        reveal(<CheckPhoneNumberConfirmationCode as Wire>::parse);
        reveal_strlit("@type");
        reveal_strlit("code");
        assert("@type"@.len() == 5);
        assert("code"@.len() == 4);
        self.code.round_trip("code"@);
    }
}

impl Tagged for CheckPhoneNumberConfirmationCode {
    open spec fn known(tag: Seq<char>) -> bool {
        tag == "checkPhoneNumberConfirmationCode"@
    }

    fn knows(tag: &str) -> (r: bool) {
        same_text(tag, "checkPhoneNumberConfirmationCode")
    }

    proof fn tag_known(&self) {
        reveal(<CheckPhoneNumberConfirmationCode as Wire>::wire);
        assert(tag_of(self.wire()) == Some("checkPhoneNumberConfirmationCode"@));
        assert(Self::known("checkPhoneNumberConfirmationCode"@));
    }
}

impl Method for CheckPhoneNumberConfirmationCode {
    const TYPE: &'static str = "checkPhoneNumberConfirmationCode";

    type Response = Okay;

    proof fn type_is_tag(&self) {
        reveal(<CheckPhoneNumberConfirmationCode as Wire>::wire);
        assert(tag_of(self.wire()) == Some("checkPhoneNumberConfirmationCode"@));
    }
}

} // verus!
