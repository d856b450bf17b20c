//! Telegram Passport elements and their errors.

use vstd::prelude::*;
use crate::codec::{
    discriminator, field, members_of, optional_field, put, read_field, read_optional, seal,
    Tagged, Union, Wire,
};
use crate::error::{DecodeError, Fault};
use crate::json::{Doc, Json, Member, tag_of, tagged};
use crate::text::same_text;
use crate::types::{
    Address, File, InputFile,
};

verus! {

/// File with the date it was uploaded
#[derive(Debug, Clone, PartialEq)]
pub struct DatedFile {
    /// The file
    pub file: File,
    /// Point in time (Unix timestamp) when the file was uploaded
    pub date: i32,
}

impl Wire for DatedFile {
    #[verifier::opaque]
    open spec fn wire(&self) -> Doc {
        tagged(
            Map::empty()
                .insert("file"@, self.file.wire())
                .insert("date"@, self.date.wire()),
            "datedFile"@,
        )
    }

    #[verifier::opaque]
    open spec fn parse(d: Doc, at: Seq<char>) -> Result<Doc, Fault> {
        match d {
            Doc::Object(m) => {
                let file = field::<File>(m, "file"@);
                let date = field::<i32>(m, "date"@);
                if file is Err {
                    file
                } else if date is Err {
                    date
                } else {
                    Ok(
                        tagged(
                            Map::empty()
                                .insert("file"@, file->Ok_0)
                                .insert("date"@, date->Ok_0),
                            "datedFile"@,
                        ),
                    )
                }
            },
            _ => Err(Fault::TypeMismatch(at)),
        }
    }

    fn encode(&self) -> (j: Json) {
        proof {
            reveal(<DatedFile as Wire>::wire);
        }
        let mut members: Vec<Member> = Vec::new();
        put(&mut members, "file", self.file.encode());
        put(&mut members, "date", self.date.encode());
        seal(members, "datedFile")
    }

    fn decode(j: &Json, at: &str) -> (r: Result<Self, DecodeError>) {
        proof {
            reveal(<DatedFile as Wire>::wire);
            reveal(<DatedFile as Wire>::parse);
        }
        let members = members_of(j, at)?;
        let file = read_field::<File>(members, "file")?;
        let date = read_field::<i32>(members, "date")?;
        Ok(DatedFile { file, date })
    }

    proof fn round_trip(&self, at: Seq<char>) {
        reveal(<DatedFile as Wire>::wire);
        reveal(<DatedFile as Wire>::parse);
        reveal_strlit("@type");
        reveal_strlit("date");
        reveal_strlit("file");
        assert("@type"@.len() == 5);
        assert("date"@.len() == 4 && "date"@[0] == 'd');
        assert("file"@.len() == 4 && "file"@[0] == 'f');
        self.file.round_trip("file"@);
        self.date.round_trip("date"@);
    }
}

impl Tagged for DatedFile {
    open spec fn known(tag: Seq<char>) -> bool {
        tag == "datedFile"@
    }

    fn knows(tag: &str) -> (r: bool) {
        same_text(tag, "datedFile")
    }

    proof fn tag_known(&self) {
        reveal(<DatedFile as Wire>::wire);
        assert(tag_of(self.wire()) == Some("datedFile"@));
        assert(Self::known("datedFile"@));
    }
}

/// A Telegram Passport element containing the user's personal details
#[derive(Debug, Clone, PartialEq)]
pub struct PassportElementTypePersonalDetails {}

impl Wire for PassportElementTypePersonalDetails {
    #[verifier::opaque]
    open spec fn wire(&self) -> Doc {
        tagged(Map::empty(), "passportElementTypePersonalDetails"@)
    }

    #[verifier::opaque]
    open spec fn parse(d: Doc, at: Seq<char>) -> Result<Doc, Fault> {
        match d {
            Doc::Object(_) => Ok(tagged(Map::empty(), "passportElementTypePersonalDetails"@)),
            _ => Err(Fault::TypeMismatch(at)),
        }
    }

    fn encode(&self) -> (j: Json) {
        proof {
            reveal(<PassportElementTypePersonalDetails as Wire>::wire);
        }
        seal(Vec::new(), "passportElementTypePersonalDetails")
    }

    fn decode(j: &Json, at: &str) -> (r: Result<Self, DecodeError>) {
        proof {
            reveal(<PassportElementTypePersonalDetails as Wire>::wire);
            reveal(<PassportElementTypePersonalDetails as Wire>::parse);
        }
        let _ = members_of(j, at)?;
        Ok(PassportElementTypePersonalDetails {})
    }

    proof fn round_trip(&self, at: Seq<char>) {
        reveal(<PassportElementTypePersonalDetails as Wire>::wire);
        reveal(<PassportElementTypePersonalDetails as Wire>::parse);
    }
}

impl Tagged for PassportElementTypePersonalDetails {
    open spec fn known(tag: Seq<char>) -> bool {
        tag == "passportElementTypePersonalDetails"@
    }

    fn knows(tag: &str) -> (r: bool) {
        same_text(tag, "passportElementTypePersonalDetails")
    }

    proof fn tag_known(&self) {
        reveal(<PassportElementTypePersonalDetails as Wire>::wire);
        assert(tag_of(self.wire()) == Some("passportElementTypePersonalDetails"@));
        assert(Self::known("passportElementTypePersonalDetails"@));
    }
}

/// A Telegram Passport element containing the user's passport
#[derive(Debug, Clone, PartialEq)]
pub struct PassportElementTypePassport {}

impl Wire for PassportElementTypePassport {
    #[verifier::opaque]
    open spec fn wire(&self) -> Doc {
        tagged(Map::empty(), "passportElementTypePassport"@)
    }

    #[verifier::opaque]
    open spec fn parse(d: Doc, at: Seq<char>) -> Result<Doc, Fault> {
        match d {
            Doc::Object(_) => Ok(tagged(Map::empty(), "passportElementTypePassport"@)),
            _ => Err(Fault::TypeMismatch(at)),
        }
    }

    fn encode(&self) -> (j: Json) {
        proof {
            reveal(<PassportElementTypePassport as Wire>::wire);
        }
        seal(Vec::new(), "passportElementTypePassport")
    }

    fn decode(j: &Json, at: &str) -> (r: Result<Self, DecodeError>) {
        proof {
            reveal(<PassportElementTypePassport as Wire>::wire);
            reveal(<PassportElementTypePassport as Wire>::parse);
        }
        let _ = members_of(j, at)?;
        Ok(PassportElementTypePassport {})
    }

    proof fn round_trip(&self, at: Seq<char>) {
        reveal(<PassportElementTypePassport as Wire>::wire);
        reveal(<PassportElementTypePassport as Wire>::parse);
    }
}

impl Tagged for PassportElementTypePassport {
    open spec fn known(tag: Seq<char>) -> bool {
        tag == "passportElementTypePassport"@
    }

    fn knows(tag: &str) -> (r: bool) {
        same_text(tag, "passportElementTypePassport")
    }

    proof fn tag_known(&self) {
        reveal(<PassportElementTypePassport as Wire>::wire);
        assert(tag_of(self.wire()) == Some("passportElementTypePassport"@));
        assert(Self::known("passportElementTypePassport"@));
    }
}

/// A Telegram Passport element containing the user's driver license
#[derive(Debug, Clone, PartialEq)]
pub struct PassportElementTypeDriverLicense {}

impl Wire for PassportElementTypeDriverLicense {
    #[verifier::opaque]
    open spec fn wire(&self) -> Doc {
        tagged(Map::empty(), "passportElementTypeDriverLicense"@)
    }

    #[verifier::opaque]
    open spec fn parse(d: Doc, at: Seq<char>) -> Result<Doc, Fault> {
        match d {
            Doc::Object(_) => Ok(tagged(Map::empty(), "passportElementTypeDriverLicense"@)),
            _ => Err(Fault::TypeMismatch(at)),
        }
    }

    fn encode(&self) -> (j: Json) {
        proof {
            reveal(<PassportElementTypeDriverLicense as Wire>::wire);
        }
        seal(Vec::new(), "passportElementTypeDriverLicense")
    }

    fn decode(j: &Json, at: &str) -> (r: Result<Self, DecodeError>) {
        proof {
            reveal(<PassportElementTypeDriverLicense as Wire>::wire);
            reveal(<PassportElementTypeDriverLicense as Wire>::parse);
        }
        let _ = members_of(j, at)?;
        Ok(PassportElementTypeDriverLicense {})
    }

    proof fn round_trip(&self, at: Seq<char>) {
        reveal(<PassportElementTypeDriverLicense as Wire>::wire);
        reveal(<PassportElementTypeDriverLicense as Wire>::parse);
    }
}

impl Tagged for PassportElementTypeDriverLicense {
    open spec fn known(tag: Seq<char>) -> bool {
        tag == "passportElementTypeDriverLicense"@
    }

    fn knows(tag: &str) -> (r: bool) {
        same_text(tag, "passportElementTypeDriverLicense")
    }

    proof fn tag_known(&self) {
        reveal(<PassportElementTypeDriverLicense as Wire>::wire);
        assert(tag_of(self.wire()) == Some("passportElementTypeDriverLicense"@));
        assert(Self::known("passportElementTypeDriverLicense"@));
    }
}

/// A Telegram Passport element containing the user's identity card
#[derive(Debug, Clone, PartialEq)]
pub struct PassportElementTypeIdentityCard {}

impl Wire for PassportElementTypeIdentityCard {
    #[verifier::opaque]
    open spec fn wire(&self) -> Doc {
        tagged(Map::empty(), "passportElementTypeIdentityCard"@)
    }

    #[verifier::opaque]
    open spec fn parse(d: Doc, at: Seq<char>) -> Result<Doc, Fault> {
        match d {
            Doc::Object(_) => Ok(tagged(Map::empty(), "passportElementTypeIdentityCard"@)),
            _ => Err(Fault::TypeMismatch(at)),
        }
    }

    fn encode(&self) -> (j: Json) {
        proof {
            reveal(<PassportElementTypeIdentityCard as Wire>::wire);
        }
        seal(Vec::new(), "passportElementTypeIdentityCard")
    }

    fn decode(j: &Json, at: &str) -> (r: Result<Self, DecodeError>) {
        proof {
            reveal(<PassportElementTypeIdentityCard as Wire>::wire);
            reveal(<PassportElementTypeIdentityCard as Wire>::parse);
        }
        let _ = members_of(j, at)?;
        Ok(PassportElementTypeIdentityCard {})
    }

    proof fn round_trip(&self, at: Seq<char>) {
        reveal(<PassportElementTypeIdentityCard as Wire>::wire);
        reveal(<PassportElementTypeIdentityCard as Wire>::parse);
    }
}

impl Tagged for PassportElementTypeIdentityCard {
    open spec fn known(tag: Seq<char>) -> bool {
        tag == "passportElementTypeIdentityCard"@
    }

    fn knows(tag: &str) -> (r: bool) {
        same_text(tag, "passportElementTypeIdentityCard")
    }

    proof fn tag_known(&self) {
        reveal(<PassportElementTypeIdentityCard as Wire>::wire);
        assert(tag_of(self.wire()) == Some("passportElementTypeIdentityCard"@));
        assert(Self::known("passportElementTypeIdentityCard"@));
    }
}

/// A Telegram Passport element containing the user's internal passport
#[derive(Debug, Clone, PartialEq)]
pub struct PassportElementTypeInternalPassport {}

impl Wire for PassportElementTypeInternalPassport {
    #[verifier::opaque]
    open spec fn wire(&self) -> Doc {
        tagged(Map::empty(), "passportElementTypeInternalPassport"@)
    }

    #[verifier::opaque]
    open spec fn parse(d: Doc, at: Seq<char>) -> Result<Doc, Fault> {
        match d {
            Doc::Object(_) => Ok(tagged(Map::empty(), "passportElementTypeInternalPassport"@)),
            _ => Err(Fault::TypeMismatch(at)),
        }
    }

    fn encode(&self) -> (j: Json) {
        proof {
            reveal(<PassportElementTypeInternalPassport as Wire>::wire);
        }
        seal(Vec::new(), "passportElementTypeInternalPassport")
    }

    fn decode(j: &Json, at: &str) -> (r: Result<Self, DecodeError>) {
        proof {
            reveal(<PassportElementTypeInternalPassport as Wire>::wire);
            reveal(<PassportElementTypeInternalPassport as Wire>::parse);
        }
        let _ = members_of(j, at)?;
        Ok(PassportElementTypeInternalPassport {})
    }

    proof fn round_trip(&self, at: Seq<char>) {
        reveal(<PassportElementTypeInternalPassport as Wire>::wire);
        reveal(<PassportElementTypeInternalPassport as Wire>::parse);
    }
}

impl Tagged for PassportElementTypeInternalPassport {
    open spec fn known(tag: Seq<char>) -> bool {
        tag == "passportElementTypeInternalPassport"@
    }

    fn knows(tag: &str) -> (r: bool) {
        same_text(tag, "passportElementTypeInternalPassport")
    }

    proof fn tag_known(&self) {
        reveal(<PassportElementTypeInternalPassport as Wire>::wire);
        assert(tag_of(self.wire()) == Some("passportElementTypeInternalPassport"@));
        assert(Self::known("passportElementTypeInternalPassport"@));
    }
}

/// A Telegram Passport element containing the user's address
#[derive(Debug, Clone, PartialEq)]
pub struct PassportElementTypeAddress {}

impl Wire for PassportElementTypeAddress {
    #[verifier::opaque]
    open spec fn wire(&self) -> Doc {
        tagged(Map::empty(), "passportElementTypeAddress"@)
    }

    #[verifier::opaque]
    open spec fn parse(d: Doc, at: Seq<char>) -> Result<Doc, Fault> {
        match d {
            Doc::Object(_) => Ok(tagged(Map::empty(), "passportElementTypeAddress"@)),
            _ => Err(Fault::TypeMismatch(at)),
        }
    }

    fn encode(&self) -> (j: Json) {
        proof {
            reveal(<PassportElementTypeAddress as Wire>::wire);
        }
        seal(Vec::new(), "passportElementTypeAddress")
    }

    fn decode(j: &Json, at: &str) -> (r: Result<Self, DecodeError>) {
        proof {
            reveal(<PassportElementTypeAddress as Wire>::wire);
            reveal(<PassportElementTypeAddress as Wire>::parse);
        }
        let _ = members_of(j, at)?;
        Ok(PassportElementTypeAddress {})
    }

    proof fn round_trip(&self, at: Seq<char>) {
        reveal(<PassportElementTypeAddress as Wire>::wire);
        reveal(<PassportElementTypeAddress as Wire>::parse);
    }
}

impl Tagged for PassportElementTypeAddress {
    open spec fn known(tag: Seq<char>) -> bool {
        tag == "passportElementTypeAddress"@
    }

    fn knows(tag: &str) -> (r: bool) {
        same_text(tag, "passportElementTypeAddress")
    }

    proof fn tag_known(&self) {
        reveal(<PassportElementTypeAddress as Wire>::wire);
        assert(tag_of(self.wire()) == Some("passportElementTypeAddress"@));
        assert(Self::known("passportElementTypeAddress"@));
    }
}

/// A Telegram Passport element containing the user's utility bill
#[derive(Debug, Clone, PartialEq)]
pub struct PassportElementTypeUtilityBill {}

impl Wire for PassportElementTypeUtilityBill {
    #[verifier::opaque]
    open spec fn wire(&self) -> Doc {
        tagged(Map::empty(), "passportElementTypeUtilityBill"@)
    }

    #[verifier::opaque]
    open spec fn parse(d: Doc, at: Seq<char>) -> Result<Doc, Fault> {
        match d {
            Doc::Object(_) => Ok(tagged(Map::empty(), "passportElementTypeUtilityBill"@)),
            _ => Err(Fault::TypeMismatch(at)),
        }
    }

    fn encode(&self) -> (j: Json) {
        proof {
            reveal(<PassportElementTypeUtilityBill as Wire>::wire);
        }
        seal(Vec::new(), "passportElementTypeUtilityBill")
    }

    fn decode(j: &Json, at: &str) -> (r: Result<Self, DecodeError>) {
        proof {
            reveal(<PassportElementTypeUtilityBill as Wire>::wire);
            reveal(<PassportElementTypeUtilityBill as Wire>::parse);
        }
        let _ = members_of(j, at)?;
        Ok(PassportElementTypeUtilityBill {})
    }

    proof fn round_trip(&self, at: Seq<char>) {
        reveal(<PassportElementTypeUtilityBill as Wire>::wire);
        reveal(<PassportElementTypeUtilityBill as Wire>::parse);
    }
}

impl Tagged for PassportElementTypeUtilityBill {
    open spec fn known(tag: Seq<char>) -> bool {
        tag == "passportElementTypeUtilityBill"@
    }

    fn knows(tag: &str) -> (r: bool) {
        same_text(tag, "passportElementTypeUtilityBill")
    }

    proof fn tag_known(&self) {
        reveal(<PassportElementTypeUtilityBill as Wire>::wire);
        assert(tag_of(self.wire()) == Some("passportElementTypeUtilityBill"@));
        assert(Self::known("passportElementTypeUtilityBill"@));
    }
}

/// A Telegram Passport element containing the user's bank statement
#[derive(Debug, Clone, PartialEq)]
pub struct PassportElementTypeBankStatement {}

impl Wire for PassportElementTypeBankStatement {
    #[verifier::opaque]
    open spec fn wire(&self) -> Doc {
        tagged(Map::empty(), "passportElementTypeBankStatement"@)
    }

    #[verifier::opaque]
    open spec fn parse(d: Doc, at: Seq<char>) -> Result<Doc, Fault> {
        match d {
            Doc::Object(_) => Ok(tagged(Map::empty(), "passportElementTypeBankStatement"@)),
            _ => Err(Fault::TypeMismatch(at)),
        }
    }

    fn encode(&self) -> (j: Json) {
        proof {
            reveal(<PassportElementTypeBankStatement as Wire>::wire);
        }
        seal(Vec::new(), "passportElementTypeBankStatement")
    }

    fn decode(j: &Json, at: &str) -> (r: Result<Self, DecodeError>) {
        proof {
            reveal(<PassportElementTypeBankStatement as Wire>::wire);
            reveal(<PassportElementTypeBankStatement as Wire>::parse);
        }
        let _ = members_of(j, at)?;
        Ok(PassportElementTypeBankStatement {})
    }

    proof fn round_trip(&self, at: Seq<char>) {
        reveal(<PassportElementTypeBankStatement as Wire>::wire);
        reveal(<PassportElementTypeBankStatement as Wire>::parse);
    }
}

impl Tagged for PassportElementTypeBankStatement {
    open spec fn known(tag: Seq<char>) -> bool {
        tag == "passportElementTypeBankStatement"@
    }

    fn knows(tag: &str) -> (r: bool) {
        same_text(tag, "passportElementTypeBankStatement")
    }

    proof fn tag_known(&self) {
        reveal(<PassportElementTypeBankStatement as Wire>::wire);
        assert(tag_of(self.wire()) == Some("passportElementTypeBankStatement"@));
        assert(Self::known("passportElementTypeBankStatement"@));
    }
}

/// A Telegram Passport element containing the user's rental agreement
#[derive(Debug, Clone, PartialEq)]
pub struct PassportElementTypeRentalAgreement {}

impl Wire for PassportElementTypeRentalAgreement {
    #[verifier::opaque]
    open spec fn wire(&self) -> Doc {
        tagged(Map::empty(), "passportElementTypeRentalAgreement"@)
    }

    #[verifier::opaque]
    open spec fn parse(d: Doc, at: Seq<char>) -> Result<Doc, Fault> {
        match d {
            Doc::Object(_) => Ok(tagged(Map::empty(), "passportElementTypeRentalAgreement"@)),
            _ => Err(Fault::TypeMismatch(at)),
        }
    }

    fn encode(&self) -> (j: Json) {
        proof {
            reveal(<PassportElementTypeRentalAgreement as Wire>::wire);
        }
        seal(Vec::new(), "passportElementTypeRentalAgreement")
    }

    fn decode(j: &Json, at: &str) -> (r: Result<Self, DecodeError>) {
        proof {
            reveal(<PassportElementTypeRentalAgreement as Wire>::wire);
            reveal(<PassportElementTypeRentalAgreement as Wire>::parse);
        }
        let _ = members_of(j, at)?;
        Ok(PassportElementTypeRentalAgreement {})
    }

    proof fn round_trip(&self, at: Seq<char>) {
        reveal(<PassportElementTypeRentalAgreement as Wire>::wire);
        reveal(<PassportElementTypeRentalAgreement as Wire>::parse);
    }
}

impl Tagged for PassportElementTypeRentalAgreement {
    open spec fn known(tag: Seq<char>) -> bool {
        tag == "passportElementTypeRentalAgreement"@
    }

    fn knows(tag: &str) -> (r: bool) {
        same_text(tag, "passportElementTypeRentalAgreement")
    }

    proof fn tag_known(&self) {
        reveal(<PassportElementTypeRentalAgreement as Wire>::wire);
        assert(tag_of(self.wire()) == Some("passportElementTypeRentalAgreement"@));
        assert(Self::known("passportElementTypeRentalAgreement"@));
    }
}

/// A Telegram Passport element containing the registration page of the user's passport
#[derive(Debug, Clone, PartialEq)]
pub struct PassportElementTypePassportRegistration {}

impl Wire for PassportElementTypePassportRegistration {
    #[verifier::opaque]
    open spec fn wire(&self) -> Doc {
        tagged(Map::empty(), "passportElementTypePassportRegistration"@)
    }

    #[verifier::opaque]
    open spec fn parse(d: Doc, at: Seq<char>) -> Result<Doc, Fault> {
        match d {
            Doc::Object(_) => Ok(tagged(Map::empty(), "passportElementTypePassportRegistration"@)),
            _ => Err(Fault::TypeMismatch(at)),
        }
    }

    fn encode(&self) -> (j: Json) {
        proof {
            reveal(<PassportElementTypePassportRegistration as Wire>::wire);
        }
        seal(Vec::new(), "passportElementTypePassportRegistration")
    }

    fn decode(j: &Json, at: &str) -> (r: Result<Self, DecodeError>) {
        proof {
            reveal(<PassportElementTypePassportRegistration as Wire>::wire);
            reveal(<PassportElementTypePassportRegistration as Wire>::parse);
        }
        let _ = members_of(j, at)?;
        Ok(PassportElementTypePassportRegistration {})
    }

    proof fn round_trip(&self, at: Seq<char>) {
        reveal(<PassportElementTypePassportRegistration as Wire>::wire);
        reveal(<PassportElementTypePassportRegistration as Wire>::parse);
    }
}

impl Tagged for PassportElementTypePassportRegistration {
    open spec fn known(tag: Seq<char>) -> bool {
        tag == "passportElementTypePassportRegistration"@
    }

    fn knows(tag: &str) -> (r: bool) {
        same_text(tag, "passportElementTypePassportRegistration")
    }

    proof fn tag_known(&self) {
        reveal(<PassportElementTypePassportRegistration as Wire>::wire);
        assert(tag_of(self.wire()) == Some("passportElementTypePassportRegistration"@));
        assert(Self::known("passportElementTypePassportRegistration"@));
    }
}

/// A Telegram Passport element containing the user's temporary registration
#[derive(Debug, Clone, PartialEq)]
pub struct PassportElementTypeTemporaryRegistration {}

impl Wire for PassportElementTypeTemporaryRegistration {
    #[verifier::opaque]
    open spec fn wire(&self) -> Doc {
        tagged(Map::empty(), "passportElementTypeTemporaryRegistration"@)
    }

    #[verifier::opaque]
    open spec fn parse(d: Doc, at: Seq<char>) -> Result<Doc, Fault> {
        match d {
            Doc::Object(_) => Ok(tagged(Map::empty(), "passportElementTypeTemporaryRegistration"@)),
            _ => Err(Fault::TypeMismatch(at)),
        }
    }

    fn encode(&self) -> (j: Json) {
        proof {
            reveal(<PassportElementTypeTemporaryRegistration as Wire>::wire);
        }
        seal(Vec::new(), "passportElementTypeTemporaryRegistration")
    }

    fn decode(j: &Json, at: &str) -> (r: Result<Self, DecodeError>) {
        proof {
            reveal(<PassportElementTypeTemporaryRegistration as Wire>::wire);
            reveal(<PassportElementTypeTemporaryRegistration as Wire>::parse);
        }
        let _ = members_of(j, at)?;
        Ok(PassportElementTypeTemporaryRegistration {})
    }

    proof fn round_trip(&self, at: Seq<char>) {
        reveal(<PassportElementTypeTemporaryRegistration as Wire>::wire);
        reveal(<PassportElementTypeTemporaryRegistration as Wire>::parse);
    }
}

impl Tagged for PassportElementTypeTemporaryRegistration {
    open spec fn known(tag: Seq<char>) -> bool {
        tag == "passportElementTypeTemporaryRegistration"@
    }

    fn knows(tag: &str) -> (r: bool) {
        same_text(tag, "passportElementTypeTemporaryRegistration")
    }

    proof fn tag_known(&self) {
        reveal(<PassportElementTypeTemporaryRegistration as Wire>::wire);
        assert(tag_of(self.wire()) == Some("passportElementTypeTemporaryRegistration"@));
        assert(Self::known("passportElementTypeTemporaryRegistration"@));
    }
}

/// A Telegram Passport element containing the user's phone number
#[derive(Debug, Clone, PartialEq)]
pub struct PassportElementTypePhoneNumber {}

impl Wire for PassportElementTypePhoneNumber {
    #[verifier::opaque]
    open spec fn wire(&self) -> Doc {
        tagged(Map::empty(), "passportElementTypePhoneNumber"@)
    }

    #[verifier::opaque]
    open spec fn parse(d: Doc, at: Seq<char>) -> Result<Doc, Fault> {
        match d {
            Doc::Object(_) => Ok(tagged(Map::empty(), "passportElementTypePhoneNumber"@)),
            _ => Err(Fault::TypeMismatch(at)),
        }
    }

    fn encode(&self) -> (j: Json) {
        proof {
            reveal(<PassportElementTypePhoneNumber as Wire>::wire);
        }
        seal(Vec::new(), "passportElementTypePhoneNumber")
    }

    fn decode(j: &Json, at: &str) -> (r: Result<Self, DecodeError>) {
        proof {
            reveal(<PassportElementTypePhoneNumber as Wire>::wire);
            reveal(<PassportElementTypePhoneNumber as Wire>::parse);
        }
        let _ = members_of(j, at)?;
        Ok(PassportElementTypePhoneNumber {})
    }

    proof fn round_trip(&self, at: Seq<char>) {
        reveal(<PassportElementTypePhoneNumber as Wire>::wire);
        reveal(<PassportElementTypePhoneNumber as Wire>::parse);
    }
}

impl Tagged for PassportElementTypePhoneNumber {
    open spec fn known(tag: Seq<char>) -> bool {
        tag == "passportElementTypePhoneNumber"@
    }

    fn knows(tag: &str) -> (r: bool) {
        same_text(tag, "passportElementTypePhoneNumber")
    }

    proof fn tag_known(&self) {
        reveal(<PassportElementTypePhoneNumber as Wire>::wire);
        assert(tag_of(self.wire()) == Some("passportElementTypePhoneNumber"@));
        assert(Self::known("passportElementTypePhoneNumber"@));
    }
}

/// A Telegram Passport element containing the user's email address
#[derive(Debug, Clone, PartialEq)]
pub struct PassportElementTypeEmailAddress {}

impl Wire for PassportElementTypeEmailAddress {
    #[verifier::opaque]
    open spec fn wire(&self) -> Doc {
        tagged(Map::empty(), "passportElementTypeEmailAddress"@)
    }

    #[verifier::opaque]
    open spec fn parse(d: Doc, at: Seq<char>) -> Result<Doc, Fault> {
        match d {
            Doc::Object(_) => Ok(tagged(Map::empty(), "passportElementTypeEmailAddress"@)),
            _ => Err(Fault::TypeMismatch(at)),
        }
    }

    fn encode(&self) -> (j: Json) {
        proof {
            reveal(<PassportElementTypeEmailAddress as Wire>::wire);
        }
        seal(Vec::new(), "passportElementTypeEmailAddress")
    }

    fn decode(j: &Json, at: &str) -> (r: Result<Self, DecodeError>) {
        proof {
            reveal(<PassportElementTypeEmailAddress as Wire>::wire);
            reveal(<PassportElementTypeEmailAddress as Wire>::parse);
        }
        let _ = members_of(j, at)?;
        Ok(PassportElementTypeEmailAddress {})
    }

    proof fn round_trip(&self, at: Seq<char>) {
        reveal(<PassportElementTypeEmailAddress as Wire>::wire);
        reveal(<PassportElementTypeEmailAddress as Wire>::parse);
    }
}

impl Tagged for PassportElementTypeEmailAddress {
    open spec fn known(tag: Seq<char>) -> bool {
        tag == "passportElementTypeEmailAddress"@
    }

    fn knows(tag: &str) -> (r: bool) {
        same_text(tag, "passportElementTypeEmailAddress")
    }

    proof fn tag_known(&self) {
        reveal(<PassportElementTypeEmailAddress as Wire>::wire);
        assert(tag_of(self.wire()) == Some("passportElementTypeEmailAddress"@));
        assert(Self::known("passportElementTypeEmailAddress"@));
    }
}

/// Contains the type of a Telegram Passport element
#[derive(Debug, Clone, PartialEq)]
pub enum PassportElementType {
    PassportElementTypePersonalDetails(PassportElementTypePersonalDetails),
    PassportElementTypePassport(PassportElementTypePassport),
    PassportElementTypeDriverLicense(PassportElementTypeDriverLicense),
    PassportElementTypeIdentityCard(PassportElementTypeIdentityCard),
    PassportElementTypeInternalPassport(PassportElementTypeInternalPassport),
    PassportElementTypeAddress(PassportElementTypeAddress),
    PassportElementTypeUtilityBill(PassportElementTypeUtilityBill),
    PassportElementTypeBankStatement(PassportElementTypeBankStatement),
    PassportElementTypeRentalAgreement(PassportElementTypeRentalAgreement),
    PassportElementTypePassportRegistration(PassportElementTypePassportRegistration),
    PassportElementTypeTemporaryRegistration(PassportElementTypeTemporaryRegistration),
    PassportElementTypePhoneNumber(PassportElementTypePhoneNumber),
    PassportElementTypeEmailAddress(PassportElementTypeEmailAddress),
}

impl Wire for PassportElementType {
    #[verifier::opaque]
    open spec fn wire(&self) -> Doc {
        match self {
            Self::PassportElementTypePersonalDetails(p) => p.wire(),
            Self::PassportElementTypePassport(p) => p.wire(),
            Self::PassportElementTypeDriverLicense(p) => p.wire(),
            Self::PassportElementTypeIdentityCard(p) => p.wire(),
            Self::PassportElementTypeInternalPassport(p) => p.wire(),
            Self::PassportElementTypeAddress(p) => p.wire(),
            Self::PassportElementTypeUtilityBill(p) => p.wire(),
            Self::PassportElementTypeBankStatement(p) => p.wire(),
            Self::PassportElementTypeRentalAgreement(p) => p.wire(),
            Self::PassportElementTypePassportRegistration(p) => p.wire(),
            Self::PassportElementTypeTemporaryRegistration(p) => p.wire(),
            Self::PassportElementTypePhoneNumber(p) => p.wire(),
            Self::PassportElementTypeEmailAddress(p) => p.wire(),
        }
    }

    #[verifier::opaque]
    open spec fn parse(d: Doc, at: Seq<char>) -> Result<Doc, Fault> {
        match d {
            Doc::Object(_) => match tag_of(d) {
                Some(t) => if t == "passportElementTypePersonalDetails"@ {
                    PassportElementTypePersonalDetails::parse(d, at)
                } else if t == "passportElementTypePassport"@ {
                    PassportElementTypePassport::parse(d, at)
                } else if t == "passportElementTypeDriverLicense"@ {
                    PassportElementTypeDriverLicense::parse(d, at)
                } else if t == "passportElementTypeIdentityCard"@ {
                    PassportElementTypeIdentityCard::parse(d, at)
                } else if t == "passportElementTypeInternalPassport"@ {
                    PassportElementTypeInternalPassport::parse(d, at)
                } else if t == "passportElementTypeAddress"@ {
                    PassportElementTypeAddress::parse(d, at)
                } else if t == "passportElementTypeUtilityBill"@ {
                    PassportElementTypeUtilityBill::parse(d, at)
                } else if t == "passportElementTypeBankStatement"@ {
                    PassportElementTypeBankStatement::parse(d, at)
                } else if t == "passportElementTypeRentalAgreement"@ {
                    PassportElementTypeRentalAgreement::parse(d, at)
                } else if t == "passportElementTypePassportRegistration"@ {
                    PassportElementTypePassportRegistration::parse(d, at)
                } else if t == "passportElementTypeTemporaryRegistration"@ {
                    PassportElementTypeTemporaryRegistration::parse(d, at)
                } else if t == "passportElementTypePhoneNumber"@ {
                    PassportElementTypePhoneNumber::parse(d, at)
                } else if t == "passportElementTypeEmailAddress"@ {
                    PassportElementTypeEmailAddress::parse(d, at)
                } else {
                    Err(Fault::UnknownVariant(t))
                },
                None => Err(Fault::MissingDiscriminator),
            },
            _ => Err(Fault::TypeMismatch(at)),
        }
    }

    fn encode(&self) -> (j: Json) {
        proof {
            reveal(<PassportElementType as Wire>::wire);
        }
        match self {
            Self::PassportElementTypePersonalDetails(p) => p.encode(),
            Self::PassportElementTypePassport(p) => p.encode(),
            Self::PassportElementTypeDriverLicense(p) => p.encode(),
            Self::PassportElementTypeIdentityCard(p) => p.encode(),
            Self::PassportElementTypeInternalPassport(p) => p.encode(),
            Self::PassportElementTypeAddress(p) => p.encode(),
            Self::PassportElementTypeUtilityBill(p) => p.encode(),
            Self::PassportElementTypeBankStatement(p) => p.encode(),
            Self::PassportElementTypeRentalAgreement(p) => p.encode(),
            Self::PassportElementTypePassportRegistration(p) => p.encode(),
            Self::PassportElementTypeTemporaryRegistration(p) => p.encode(),
            Self::PassportElementTypePhoneNumber(p) => p.encode(),
            Self::PassportElementTypeEmailAddress(p) => p.encode(),
        }
    }

    fn decode(j: &Json, at: &str) -> (r: Result<Self, DecodeError>) {
        proof {
            reveal(<PassportElementType as Wire>::wire);
            reveal(<PassportElementType as Wire>::parse);
        }
        let members = members_of(j, at)?;
        let tag = discriminator(members)?;
        if same_text(tag, "passportElementTypePersonalDetails") {
            Ok(
                Self::PassportElementTypePersonalDetails(
                    PassportElementTypePersonalDetails::decode(j, at)?,
                ),
            )
        } else if same_text(tag, "passportElementTypePassport") {
            Ok(Self::PassportElementTypePassport(PassportElementTypePassport::decode(j, at)?))
        } else if same_text(tag, "passportElementTypeDriverLicense") {
            Ok(
                Self::PassportElementTypeDriverLicense(
                    PassportElementTypeDriverLicense::decode(j, at)?,
                ),
            )
        } else if same_text(tag, "passportElementTypeIdentityCard") {
            Ok(
                Self::PassportElementTypeIdentityCard(
                    PassportElementTypeIdentityCard::decode(j, at)?,
                ),
            )
        } else if same_text(tag, "passportElementTypeInternalPassport") {
            Ok(
                Self::PassportElementTypeInternalPassport(
                    PassportElementTypeInternalPassport::decode(j, at)?,
                ),
            )
        } else if same_text(tag, "passportElementTypeAddress") {
            Ok(Self::PassportElementTypeAddress(PassportElementTypeAddress::decode(j, at)?))
        } else if same_text(tag, "passportElementTypeUtilityBill") {
            Ok(Self::PassportElementTypeUtilityBill(PassportElementTypeUtilityBill::decode(j, at)?))
        } else if same_text(tag, "passportElementTypeBankStatement") {
            Ok(
                Self::PassportElementTypeBankStatement(
                    PassportElementTypeBankStatement::decode(j, at)?,
                ),
            )
        } else if same_text(tag, "passportElementTypeRentalAgreement") {
            Ok(
                Self::PassportElementTypeRentalAgreement(
                    PassportElementTypeRentalAgreement::decode(j, at)?,
                ),
            )
        } else if same_text(tag, "passportElementTypePassportRegistration") {
            Ok(
                Self::PassportElementTypePassportRegistration(
                    PassportElementTypePassportRegistration::decode(j, at)?,
                ),
            )
        } else if same_text(tag, "passportElementTypeTemporaryRegistration") {
            Ok(
                Self::PassportElementTypeTemporaryRegistration(
                    PassportElementTypeTemporaryRegistration::decode(j, at)?,
                ),
            )
        } else if same_text(tag, "passportElementTypePhoneNumber") {
            Ok(Self::PassportElementTypePhoneNumber(PassportElementTypePhoneNumber::decode(j, at)?))
        } else if same_text(tag, "passportElementTypeEmailAddress") {
            Ok(
                Self::PassportElementTypeEmailAddress(
                    PassportElementTypeEmailAddress::decode(j, at)?,
                ),
            )
        } else {
            Err(DecodeError::UnknownVariant(tag.to_owned()))
        }
    }

    proof fn round_trip(&self, at: Seq<char>) {
        reveal(<PassportElementType as Wire>::wire);
        reveal(<PassportElementType as Wire>::parse);
        reveal_strlit("passportElementTypeAddress");
        reveal_strlit("passportElementTypeBankStatement");
        reveal_strlit("passportElementTypeDriverLicense");
        reveal_strlit("passportElementTypeEmailAddress");
        reveal_strlit("passportElementTypeIdentityCard");
        reveal_strlit("passportElementTypeInternalPassport");
        reveal_strlit("passportElementTypePassport");
        reveal_strlit("passportElementTypePassportRegistration");
        reveal_strlit("passportElementTypePersonalDetails");
        reveal_strlit("passportElementTypePhoneNumber");
        reveal_strlit("passportElementTypeRentalAgreement");
        reveal_strlit("passportElementTypeTemporaryRegistration");
        reveal_strlit("passportElementTypeUtilityBill");
        assert("passportElementTypeAddress"@.len() == 26);
        assert({
            &&& "passportElementTypeBankStatement"@.len() == 32
            &&& "passportElementTypeBankStatement"@[19] == 'B'
        });
        assert({
            &&& "passportElementTypeDriverLicense"@.len() == 32
            &&& "passportElementTypeDriverLicense"@[19] == 'D'
        });
        assert({
            &&& "passportElementTypeEmailAddress"@.len() == 31
            &&& "passportElementTypeEmailAddress"@[19] == 'E'
        });
        assert({
            &&& "passportElementTypeIdentityCard"@.len() == 31
            &&& "passportElementTypeIdentityCard"@[19] == 'I'
        });
        assert("passportElementTypeInternalPassport"@.len() == 35);
        assert("passportElementTypePassport"@.len() == 27);
        assert("passportElementTypePassportRegistration"@.len() == 39);
        assert({
            &&& "passportElementTypePersonalDetails"@.len() == 34
            &&& "passportElementTypePersonalDetails"@[19] == 'P'
        });
        assert({
            &&& "passportElementTypePhoneNumber"@.len() == 30
            &&& "passportElementTypePhoneNumber"@[19] == 'P'
        });
        assert({
            &&& "passportElementTypeRentalAgreement"@.len() == 34
            &&& "passportElementTypeRentalAgreement"@[19] == 'R'
        });
        assert("passportElementTypeTemporaryRegistration"@.len() == 40);
        assert({
            &&& "passportElementTypeUtilityBill"@.len() == 30
            &&& "passportElementTypeUtilityBill"@[19] == 'U'
        });
        match self {
            Self::PassportElementTypePersonalDetails(p) => {
                p.tag_known();
                p.round_trip(at);
            },
            Self::PassportElementTypePassport(p) => {
                p.tag_known();
                p.round_trip(at);
            },
            Self::PassportElementTypeDriverLicense(p) => {
                p.tag_known();
                p.round_trip(at);
            },
            Self::PassportElementTypeIdentityCard(p) => {
                p.tag_known();
                p.round_trip(at);
            },
            Self::PassportElementTypeInternalPassport(p) => {
                p.tag_known();
                p.round_trip(at);
            },
            Self::PassportElementTypeAddress(p) => {
                p.tag_known();
                p.round_trip(at);
            },
            Self::PassportElementTypeUtilityBill(p) => {
                p.tag_known();
                p.round_trip(at);
            },
            Self::PassportElementTypeBankStatement(p) => {
                p.tag_known();
                p.round_trip(at);
            },
            Self::PassportElementTypeRentalAgreement(p) => {
                p.tag_known();
                p.round_trip(at);
            },
            Self::PassportElementTypePassportRegistration(p) => {
                p.tag_known();
                p.round_trip(at);
            },
            Self::PassportElementTypeTemporaryRegistration(p) => {
                p.tag_known();
                p.round_trip(at);
            },
            Self::PassportElementTypePhoneNumber(p) => {
                p.tag_known();
                p.round_trip(at);
            },
            Self::PassportElementTypeEmailAddress(p) => {
                p.tag_known();
                p.round_trip(at);
            },
        }
    }
}

impl Tagged for PassportElementType {
    open spec fn known(tag: Seq<char>) -> bool {
        ||| tag == "passportElementTypePersonalDetails"@
        ||| tag == "passportElementTypePassport"@
        ||| tag == "passportElementTypeDriverLicense"@
        ||| tag == "passportElementTypeIdentityCard"@
        ||| tag == "passportElementTypeInternalPassport"@
        ||| tag == "passportElementTypeAddress"@
        ||| tag == "passportElementTypeUtilityBill"@
        ||| tag == "passportElementTypeBankStatement"@
        ||| tag == "passportElementTypeRentalAgreement"@
        ||| tag == "passportElementTypePassportRegistration"@
        ||| tag == "passportElementTypeTemporaryRegistration"@
        ||| tag == "passportElementTypePhoneNumber"@
        ||| tag == "passportElementTypeEmailAddress"@
    }

    fn knows(tag: &str) -> (r: bool) {
        same_text(tag, "passportElementTypePersonalDetails")
            || same_text(tag, "passportElementTypePassport")
            || same_text(tag, "passportElementTypeDriverLicense")
            || same_text(tag, "passportElementTypeIdentityCard")
            || same_text(tag, "passportElementTypeInternalPassport")
            || same_text(tag, "passportElementTypeAddress")
            || same_text(tag, "passportElementTypeUtilityBill")
            || same_text(tag, "passportElementTypeBankStatement")
            || same_text(tag, "passportElementTypeRentalAgreement")
            || same_text(tag, "passportElementTypePassportRegistration")
            || same_text(tag, "passportElementTypeTemporaryRegistration")
            || same_text(tag, "passportElementTypePhoneNumber")
            || same_text(tag, "passportElementTypeEmailAddress")
    }

    proof fn tag_known(&self) {
        reveal(<PassportElementType as Wire>::wire);
        match self {
            Self::PassportElementTypePersonalDetails(p) => p.tag_known(),
            Self::PassportElementTypePassport(p) => p.tag_known(),
            Self::PassportElementTypeDriverLicense(p) => p.tag_known(),
            Self::PassportElementTypeIdentityCard(p) => p.tag_known(),
            Self::PassportElementTypeInternalPassport(p) => p.tag_known(),
            Self::PassportElementTypeAddress(p) => p.tag_known(),
            Self::PassportElementTypeUtilityBill(p) => p.tag_known(),
            Self::PassportElementTypeBankStatement(p) => p.tag_known(),
            Self::PassportElementTypeRentalAgreement(p) => p.tag_known(),
            Self::PassportElementTypePassportRegistration(p) => p.tag_known(),
            Self::PassportElementTypeTemporaryRegistration(p) => p.tag_known(),
            Self::PassportElementTypePhoneNumber(p) => p.tag_known(),
            Self::PassportElementTypeEmailAddress(p) => p.tag_known(),
        }
    }
}

impl Union for PassportElementType {
    proof fn unknown_rejected(d: Doc, at: Seq<char>) {
        reveal(<PassportElementType as Wire>::parse);
    }

    proof fn untagged_rejected(d: Doc, at: Seq<char>) {
        reveal(<PassportElementType as Wire>::parse);
    }
}

/// Represents a date according to the Gregorian calendar
#[derive(Debug, Clone, PartialEq)]
pub struct Date {
    /// Day of the month, 1-31
    pub day: i32,
    /// Month, 1-12
    pub month: i32,
    /// Year, 1-9999
    pub year: i32,
}

impl Wire for Date {
    #[verifier::opaque]
    open spec fn wire(&self) -> Doc {
        tagged(
            Map::empty()
                .insert("day"@, self.day.wire())
                .insert("month"@, self.month.wire())
                .insert("year"@, self.year.wire()),
            "date"@,
        )
    }

    #[verifier::opaque]
    open spec fn parse(d: Doc, at: Seq<char>) -> Result<Doc, Fault> {
        match d {
            Doc::Object(m) => {
                let day = field::<i32>(m, "day"@);
                let month = field::<i32>(m, "month"@);
                let year = field::<i32>(m, "year"@);
                if day is Err {
                    day
                } else if month is Err {
                    month
                } else if year is Err {
                    year
                } else {
                    Ok(
                        tagged(
                            Map::empty()
                                .insert("day"@, day->Ok_0)
                                .insert("month"@, month->Ok_0)
                                .insert("year"@, year->Ok_0),
                            "date"@,
                        ),
                    )
                }
            },
            _ => Err(Fault::TypeMismatch(at)),
        }
    }

    fn encode(&self) -> (j: Json) {
        proof {
            reveal(<Date as Wire>::wire);
        }
        let mut members: Vec<Member> = Vec::new();
        put(&mut members, "day", self.day.encode());
        put(&mut members, "month", self.month.encode());
        put(&mut members, "year", self.year.encode());
        seal(members, "date")
    }

    fn decode(j: &Json, at: &str) -> (r: Result<Self, DecodeError>) {
        proof {
            reveal(<Date as Wire>::wire);
            reveal(<Date as Wire>::parse);
        }
        let members = members_of(j, at)?;
        let day = read_field::<i32>(members, "day")?;
        let month = read_field::<i32>(members, "month")?;
        let year = read_field::<i32>(members, "year")?;
        Ok(Date { day, month, year })
    }

    proof fn round_trip(&self, at: Seq<char>) {
        reveal(<Date as Wire>::wire);
        reveal(<Date as Wire>::parse);
        reveal_strlit("@type");
        reveal_strlit("day");
        reveal_strlit("month");
        reveal_strlit("year");
        assert("@type"@.len() == 5 && "@type"@[0] == '@');
        assert("day"@.len() == 3);
        assert("month"@.len() == 5 && "month"@[0] == 'm');
        assert("year"@.len() == 4);
        self.day.round_trip("day"@);
        self.month.round_trip("month"@);
        self.year.round_trip("year"@);
    }
}

impl Tagged for Date {
    open spec fn known(tag: Seq<char>) -> bool {
        tag == "date"@
    }

    fn knows(tag: &str) -> (r: bool) {
        same_text(tag, "date")
    }

    proof fn tag_known(&self) {
        reveal(<Date as Wire>::wire);
        assert(tag_of(self.wire()) == Some("date"@));
        assert(Self::known("date"@));
    }
}

/// Contains the user's personal details
#[derive(Debug, Clone, PartialEq)]
pub struct PersonalDetails {
    /// First name of the user written in English; 1-255 characters
    pub first_name: String,
    /// Middle name of the user written in English; 0-255 characters
    pub middle_name: String,
    /// Last name of the user written in English; 1-255 characters
    pub last_name: String,
    /// Native first name of the user; 1-255 characters
    pub native_first_name: String,
    /// Native middle name of the user; 0-255 characters
    pub native_middle_name: String,
    /// Native last name of the user; 1-255 characters
    pub native_last_name: String,
    /// Birthdate of the user
    pub birthdate: Date,
    /// Gender of the user, "male" or "female"
    pub gender: String,
    /// A two-letter ISO 3166-1 alpha-2 country code of the user's country
    pub country_code: String,
    /// A two-letter ISO 3166-1 alpha-2 country code of the user's residence country
    pub residence_country_code: String,
}

impl Wire for PersonalDetails {
    #[verifier::opaque]
    open spec fn wire(&self) -> Doc {
        tagged(
            Map::empty()
                .insert("firstName"@, self.first_name.wire())
                .insert("middleName"@, self.middle_name.wire())
                .insert("lastName"@, self.last_name.wire())
                .insert("nativeFirstName"@, self.native_first_name.wire())
                .insert("nativeMiddleName"@, self.native_middle_name.wire())
                .insert("nativeLastName"@, self.native_last_name.wire())
                .insert("birthdate"@, self.birthdate.wire())
                .insert("gender"@, self.gender.wire())
                .insert("countryCode"@, self.country_code.wire())
                .insert("residenceCountryCode"@, self.residence_country_code.wire()),
            "personalDetails"@,
        )
    }

    #[verifier::opaque]
    open spec fn parse(d: Doc, at: Seq<char>) -> Result<Doc, Fault> {
        match d {
            Doc::Object(m) => {
                let first_name = field::<String>(m, "firstName"@);
                let middle_name = field::<String>(m, "middleName"@);
                let last_name = field::<String>(m, "lastName"@);
                let native_first_name = field::<String>(m, "nativeFirstName"@);
                let native_middle_name = field::<String>(m, "nativeMiddleName"@);
                let native_last_name = field::<String>(m, "nativeLastName"@);
                let birthdate = field::<Date>(m, "birthdate"@);
                let gender = field::<String>(m, "gender"@);
                let country_code = field::<String>(m, "countryCode"@);
                let residence_country_code = field::<String>(m, "residenceCountryCode"@);
                if first_name is Err {
                    first_name
                } else if middle_name is Err {
                    middle_name
                } else if last_name is Err {
                    last_name
                } else if native_first_name is Err {
                    native_first_name
                } else if native_middle_name is Err {
                    native_middle_name
                } else if native_last_name is Err {
                    native_last_name
                } else if birthdate is Err {
                    birthdate
                } else if gender is Err {
                    gender
                } else if country_code is Err {
                    country_code
                } else if residence_country_code is Err {
                    residence_country_code
                } else {
                    Ok(
                        tagged(
                            Map::empty()
                                .insert("firstName"@, first_name->Ok_0)
                                .insert("middleName"@, middle_name->Ok_0)
                                .insert("lastName"@, last_name->Ok_0)
                                .insert("nativeFirstName"@, native_first_name->Ok_0)
                                .insert("nativeMiddleName"@, native_middle_name->Ok_0)
                                .insert("nativeLastName"@, native_last_name->Ok_0)
                                .insert("birthdate"@, birthdate->Ok_0)
                                .insert("gender"@, gender->Ok_0)
                                .insert("countryCode"@, country_code->Ok_0)
                                .insert("residenceCountryCode"@, residence_country_code->Ok_0),
                            "personalDetails"@,
                        ),
                    )
                }
            },
            _ => Err(Fault::TypeMismatch(at)),
        }
    }

    fn encode(&self) -> (j: Json) {
        proof {
            reveal(<PersonalDetails as Wire>::wire);
        }
        let mut members: Vec<Member> = Vec::new();
        put(&mut members, "firstName", self.first_name.encode());
        put(&mut members, "middleName", self.middle_name.encode());
        put(&mut members, "lastName", self.last_name.encode());
        put(&mut members, "nativeFirstName", self.native_first_name.encode());
        put(&mut members, "nativeMiddleName", self.native_middle_name.encode());
        put(&mut members, "nativeLastName", self.native_last_name.encode());
        put(&mut members, "birthdate", self.birthdate.encode());
        put(&mut members, "gender", self.gender.encode());
        put(&mut members, "countryCode", self.country_code.encode());
        put(&mut members, "residenceCountryCode", self.residence_country_code.encode());
        seal(members, "personalDetails")
    }

    fn decode(j: &Json, at: &str) -> (r: Result<Self, DecodeError>) {
        proof {
            reveal(<PersonalDetails as Wire>::wire);
            reveal(<PersonalDetails as Wire>::parse);
        }
        let members = members_of(j, at)?;
        let first_name = read_field::<String>(members, "firstName")?;
        let middle_name = read_field::<String>(members, "middleName")?;
        let last_name = read_field::<String>(members, "lastName")?;
        let native_first_name = read_field::<String>(members, "nativeFirstName")?;
        let native_middle_name = read_field::<String>(members, "nativeMiddleName")?;
        let native_last_name = read_field::<String>(members, "nativeLastName")?;
        let birthdate = read_field::<Date>(members, "birthdate")?;
        let gender = read_field::<String>(members, "gender")?;
        let country_code = read_field::<String>(members, "countryCode")?;
        let residence_country_code = read_field::<String>(members, "residenceCountryCode")?;
        Ok(PersonalDetails {
            first_name,
            middle_name,
            last_name,
            native_first_name,
            native_middle_name,
            native_last_name,
            birthdate,
            gender,
            country_code,
            residence_country_code,
        })
    }

    proof fn round_trip(&self, at: Seq<char>) {
        reveal(<PersonalDetails as Wire>::wire);
        reveal(<PersonalDetails as Wire>::parse);
        reveal_strlit("@type");
        reveal_strlit("birthdate");
        reveal_strlit("countryCode");
        reveal_strlit("firstName");
        reveal_strlit("gender");
        reveal_strlit("lastName");
        reveal_strlit("middleName");
        reveal_strlit("nativeFirstName");
        reveal_strlit("nativeLastName");
        reveal_strlit("nativeMiddleName");
        reveal_strlit("residenceCountryCode");
        assert("@type"@.len() == 5);
        assert("birthdate"@.len() == 9 && "birthdate"@[0] == 'b');
        assert("countryCode"@.len() == 11);
        assert("firstName"@.len() == 9 && "firstName"@[0] == 'f');
        assert("gender"@.len() == 6);
        assert("lastName"@.len() == 8);
        assert("middleName"@.len() == 10);
        assert("nativeFirstName"@.len() == 15);
        assert("nativeLastName"@.len() == 14);
        assert("nativeMiddleName"@.len() == 16);
        assert("residenceCountryCode"@.len() == 20);
        self.first_name.round_trip("firstName"@);
        self.middle_name.round_trip("middleName"@);
        self.last_name.round_trip("lastName"@);
        self.native_first_name.round_trip("nativeFirstName"@);
        self.native_middle_name.round_trip("nativeMiddleName"@);
        self.native_last_name.round_trip("nativeLastName"@);
        self.birthdate.round_trip("birthdate"@);
        self.gender.round_trip("gender"@);
        self.country_code.round_trip("countryCode"@);
        self.residence_country_code.round_trip("residenceCountryCode"@);
        let m = self.wire()->Object_0;
        assert(field::<String>(m, "firstName"@) == Ok::<Doc, Fault>(self.first_name.wire()));
        assert(field::<String>(m, "middleName"@) == Ok::<Doc, Fault>(self.middle_name.wire()));
        assert(field::<String>(m, "lastName"@) == Ok::<Doc, Fault>(self.last_name.wire()));
        assert(field::<String>(m, "nativeFirstName"@)
            == Ok::<Doc, Fault>(self.native_first_name.wire()));
        assert(field::<String>(m, "nativeMiddleName"@)
            == Ok::<Doc, Fault>(self.native_middle_name.wire()));
        assert(field::<String>(m, "nativeLastName"@)
            == Ok::<Doc, Fault>(self.native_last_name.wire()));
        assert(field::<Date>(m, "birthdate"@) == Ok::<Doc, Fault>(self.birthdate.wire()));
        assert(field::<String>(m, "gender"@) == Ok::<Doc, Fault>(self.gender.wire()));
        assert(field::<String>(m, "countryCode"@) == Ok::<Doc, Fault>(self.country_code.wire()));
        assert(field::<String>(m, "residenceCountryCode"@)
            == Ok::<Doc, Fault>(self.residence_country_code.wire()));
    }
}

impl Tagged for PersonalDetails {
    open spec fn known(tag: Seq<char>) -> bool {
        tag == "personalDetails"@
    }

    fn knows(tag: &str) -> (r: bool) {
        same_text(tag, "personalDetails")
    }

    proof fn tag_known(&self) {
        reveal(<PersonalDetails as Wire>::wire);
        assert(tag_of(self.wire()) == Some("personalDetails"@));
        assert(Self::known("personalDetails"@));
    }
}

/// An identity document
#[derive(Debug, Clone, PartialEq)]
pub struct IdentityDocument {
    /// Document number; 1-24 characters
    pub number: String,
    /// Document expiry date; may be null
    pub expiry_date: Option<Date>,
    /// Front side of the document
    pub front_side: DatedFile,
    /// Reverse side of the document; only for driver license and identity card
    pub reverse_side: DatedFile,
    /// Selfie with the document; may be null
    pub selfie: Option<DatedFile>,
    /// List of files containing a certified English translation of the document
    pub translation: Vec<DatedFile>,
}

impl Wire for IdentityDocument {
    #[verifier::opaque]
    open spec fn wire(&self) -> Doc {
        tagged(
            Map::empty()
                .insert("number"@, self.number.wire())
                .insert("expiryDate"@, self.expiry_date.wire())
                .insert("frontSide"@, self.front_side.wire())
                .insert("reverseSide"@, self.reverse_side.wire())
                .insert("selfie"@, self.selfie.wire())
                .insert("translation"@, self.translation.wire()),
            "identityDocument"@,
        )
    }

    #[verifier::opaque]
    open spec fn parse(d: Doc, at: Seq<char>) -> Result<Doc, Fault> {
        match d {
            Doc::Object(m) => {
                let number = field::<String>(m, "number"@);
                let expiry_date = optional_field::<Date>(m, "expiryDate"@);
                let front_side = field::<DatedFile>(m, "frontSide"@);
                let reverse_side = field::<DatedFile>(m, "reverseSide"@);
                let selfie = optional_field::<DatedFile>(m, "selfie"@);
                let translation = field::<Vec<DatedFile>>(m, "translation"@);
                if number is Err {
                    number
                } else if expiry_date is Err {
                    expiry_date
                } else if front_side is Err {
                    front_side
                } else if reverse_side is Err {
                    reverse_side
                } else if selfie is Err {
                    selfie
                } else if translation is Err {
                    translation
                } else {
                    Ok(
                        tagged(
                            Map::empty()
                                .insert("number"@, number->Ok_0)
                                .insert("expiryDate"@, expiry_date->Ok_0)
                                .insert("frontSide"@, front_side->Ok_0)
                                .insert("reverseSide"@, reverse_side->Ok_0)
                                .insert("selfie"@, selfie->Ok_0)
                                .insert("translation"@, translation->Ok_0),
                            "identityDocument"@,
                        ),
                    )
                }
            },
            _ => Err(Fault::TypeMismatch(at)),
        }
    }

    fn encode(&self) -> (j: Json) {
        proof {
            reveal(<IdentityDocument as Wire>::wire);
        }
        let mut members: Vec<Member> = Vec::new();
        put(&mut members, "number", self.number.encode());
        put(&mut members, "expiryDate", self.expiry_date.encode());
        put(&mut members, "frontSide", self.front_side.encode());
        put(&mut members, "reverseSide", self.reverse_side.encode());
        put(&mut members, "selfie", self.selfie.encode());
        put(&mut members, "translation", self.translation.encode());
        seal(members, "identityDocument")
    }

    fn decode(j: &Json, at: &str) -> (r: Result<Self, DecodeError>) {
        proof {
            reveal(<IdentityDocument as Wire>::wire);
            reveal(<IdentityDocument as Wire>::parse);
        }
        let members = members_of(j, at)?;
        let number = read_field::<String>(members, "number")?;
        let expiry_date = read_optional::<Date>(members, "expiryDate")?;
        let front_side = read_field::<DatedFile>(members, "frontSide")?;
        let reverse_side = read_field::<DatedFile>(members, "reverseSide")?;
        let selfie = read_optional::<DatedFile>(members, "selfie")?;
        let translation = read_field::<Vec<DatedFile>>(members, "translation")?;
        Ok(IdentityDocument { number, expiry_date, front_side, reverse_side, selfie, translation })
    }

    proof fn round_trip(&self, at: Seq<char>) {
        reveal(<IdentityDocument as Wire>::wire);
        reveal(<IdentityDocument as Wire>::parse);
        reveal_strlit("@type");
        reveal_strlit("expiryDate");
        reveal_strlit("frontSide");
        reveal_strlit("number");
        reveal_strlit("reverseSide");
        reveal_strlit("selfie");
        reveal_strlit("translation");
        assert("@type"@.len() == 5);
        assert("expiryDate"@.len() == 10);
        assert("frontSide"@.len() == 9);
        assert("number"@.len() == 6 && "number"@[0] == 'n');
        assert("reverseSide"@.len() == 11 && "reverseSide"@[0] == 'r');
        assert("selfie"@.len() == 6 && "selfie"@[0] == 's');
        assert("translation"@.len() == 11 && "translation"@[0] == 't');
        self.number.round_trip("number"@);
        self.expiry_date.round_trip("expiryDate"@);
        self.front_side.round_trip("frontSide"@);
        self.reverse_side.round_trip("reverseSide"@);
        self.selfie.round_trip("selfie"@);
        self.translation.round_trip("translation"@);
    }
}

impl Tagged for IdentityDocument {
    open spec fn known(tag: Seq<char>) -> bool {
        tag == "identityDocument"@
    }

    fn knows(tag: &str) -> (r: bool) {
        same_text(tag, "identityDocument")
    }

    proof fn tag_known(&self) {
        reveal(<IdentityDocument as Wire>::wire);
        assert(tag_of(self.wire()) == Some("identityDocument"@));
        assert(Self::known("identityDocument"@));
    }
}

/// An identity document to be saved to Telegram Passport
#[derive(Debug, Clone, PartialEq)]
pub struct InputIdentityDocument {
    /// Document number; 1-24 characters
    pub number: String,
    /// Document expiry date, if available
    pub expiry_date: Date,
    /// Front side of the document
    pub front_side: InputFile,
    /// Reverse side of the document; only for driver license and identity card
    pub reverse_side: InputFile,
    /// Selfie with the document, if available
    pub selfie: InputFile,
    /// List of files containing a certified English translation of the document
    pub translation: Vec<InputFile>,
}

impl Wire for InputIdentityDocument {
    #[verifier::opaque]
    open spec fn wire(&self) -> Doc {
        tagged(
            Map::empty()
                .insert("number"@, self.number.wire())
                .insert("expiryDate"@, self.expiry_date.wire())
                .insert("frontSide"@, self.front_side.wire())
                .insert("reverseSide"@, self.reverse_side.wire())
                .insert("selfie"@, self.selfie.wire())
                .insert("translation"@, self.translation.wire()),
            "inputIdentityDocument"@,
        )
    }

    #[verifier::opaque]
    open spec fn parse(d: Doc, at: Seq<char>) -> Result<Doc, Fault> {
        match d {
            Doc::Object(m) => {
                let number = field::<String>(m, "number"@);
                let expiry_date = field::<Date>(m, "expiryDate"@);
                let front_side = field::<InputFile>(m, "frontSide"@);
                let reverse_side = field::<InputFile>(m, "reverseSide"@);
                let selfie = field::<InputFile>(m, "selfie"@);
                let translation = field::<Vec<InputFile>>(m, "translation"@);
                if number is Err {
                    number
                } else if expiry_date is Err {
                    expiry_date
                } else if front_side is Err {
                    front_side
                } else if reverse_side is Err {
                    reverse_side
                } else if selfie is Err {
                    selfie
                } else if translation is Err {
                    translation
                } else {
                    Ok(
                        tagged(
                            Map::empty()
                                .insert("number"@, number->Ok_0)
                                .insert("expiryDate"@, expiry_date->Ok_0)
                                .insert("frontSide"@, front_side->Ok_0)
                                .insert("reverseSide"@, reverse_side->Ok_0)
                                .insert("selfie"@, selfie->Ok_0)
                                .insert("translation"@, translation->Ok_0),
                            "inputIdentityDocument"@,
                        ),
                    )
                }
            },
            _ => Err(Fault::TypeMismatch(at)),
        }
    }

    fn encode(&self) -> (j: Json) {
        proof {
            reveal(<InputIdentityDocument as Wire>::wire);
        }
        let mut members: Vec<Member> = Vec::new();
        put(&mut members, "number", self.number.encode());
        put(&mut members, "expiryDate", self.expiry_date.encode());
        put(&mut members, "frontSide", self.front_side.encode());
        put(&mut members, "reverseSide", self.reverse_side.encode());
        put(&mut members, "selfie", self.selfie.encode());
        put(&mut members, "translation", self.translation.encode());
        seal(members, "inputIdentityDocument")
    }

    fn decode(j: &Json, at: &str) -> (r: Result<Self, DecodeError>) {
        proof {
            reveal(<InputIdentityDocument as Wire>::wire);
            reveal(<InputIdentityDocument as Wire>::parse);
        }
        let members = members_of(j, at)?;
        let number = read_field::<String>(members, "number")?;
        let expiry_date = read_field::<Date>(members, "expiryDate")?;
        let front_side = read_field::<InputFile>(members, "frontSide")?;
        let reverse_side = read_field::<InputFile>(members, "reverseSide")?;
        let selfie = read_field::<InputFile>(members, "selfie")?;
        let translation = read_field::<Vec<InputFile>>(members, "translation")?;
        Ok(InputIdentityDocument {
            number,
            expiry_date,
            front_side,
            reverse_side,
            selfie,
            translation,
        })
    }

    proof fn round_trip(&self, at: Seq<char>) {
        reveal(<InputIdentityDocument as Wire>::wire);
        reveal(<InputIdentityDocument as Wire>::parse);
        reveal_strlit("@type");
        reveal_strlit("expiryDate");
        reveal_strlit("frontSide");
        reveal_strlit("number");
        reveal_strlit("reverseSide");
        reveal_strlit("selfie");
        reveal_strlit("translation");
        assert("@type"@.len() == 5);
        assert("expiryDate"@.len() == 10);
        assert("frontSide"@.len() == 9);
        assert("number"@.len() == 6 && "number"@[0] == 'n');
        assert("reverseSide"@.len() == 11 && "reverseSide"@[0] == 'r');
        assert("selfie"@.len() == 6 && "selfie"@[0] == 's');
        assert("translation"@.len() == 11 && "translation"@[0] == 't');
        self.number.round_trip("number"@);
        self.expiry_date.round_trip("expiryDate"@);
        self.front_side.round_trip("frontSide"@);
        self.reverse_side.round_trip("reverseSide"@);
        self.selfie.round_trip("selfie"@);
        self.translation.round_trip("translation"@);
    }
}

impl Tagged for InputIdentityDocument {
    open spec fn known(tag: Seq<char>) -> bool {
        tag == "inputIdentityDocument"@
    }

    fn knows(tag: &str) -> (r: bool) {
        same_text(tag, "inputIdentityDocument")
    }

    proof fn tag_known(&self) {
        reveal(<InputIdentityDocument as Wire>::wire);
        assert(tag_of(self.wire()) == Some("inputIdentityDocument"@));
        assert(Self::known("inputIdentityDocument"@));
    }
}

/// A personal document, containing some information about a user
#[derive(Debug, Clone, PartialEq)]
pub struct PersonalDocument {
    /// List of files containing the pages of the document
    pub files: Vec<DatedFile>,
    /// List of files containing a certified English translation of the document
    pub translation: Vec<DatedFile>,
}

impl Wire for PersonalDocument {
    #[verifier::opaque]
    open spec fn wire(&self) -> Doc {
        tagged(
            Map::empty()
                .insert("files"@, self.files.wire())
                .insert("translation"@, self.translation.wire()),
            "personalDocument"@,
        )
    }

    #[verifier::opaque]
    open spec fn parse(d: Doc, at: Seq<char>) -> Result<Doc, Fault> {
        match d {
            Doc::Object(m) => {
                let files = field::<Vec<DatedFile>>(m, "files"@);
                let translation = field::<Vec<DatedFile>>(m, "translation"@);
                if files is Err {
                    files
                } else if translation is Err {
                    translation
                } else {
                    Ok(
                        tagged(
                            Map::empty()
                                .insert("files"@, files->Ok_0)
                                .insert("translation"@, translation->Ok_0),
                            "personalDocument"@,
                        ),
                    )
                }
            },
            _ => Err(Fault::TypeMismatch(at)),
        }
    }

    fn encode(&self) -> (j: Json) {
        proof {
            reveal(<PersonalDocument as Wire>::wire);
        }
        let mut members: Vec<Member> = Vec::new();
        put(&mut members, "files", self.files.encode());
        put(&mut members, "translation", self.translation.encode());
        seal(members, "personalDocument")
    }

    fn decode(j: &Json, at: &str) -> (r: Result<Self, DecodeError>) {
        proof {
            reveal(<PersonalDocument as Wire>::wire);
            reveal(<PersonalDocument as Wire>::parse);
        }
        let members = members_of(j, at)?;
        let files = read_field::<Vec<DatedFile>>(members, "files")?;
        let translation = read_field::<Vec<DatedFile>>(members, "translation")?;
        Ok(PersonalDocument { files, translation })
    }

    proof fn round_trip(&self, at: Seq<char>) {
        reveal(<PersonalDocument as Wire>::wire);
        reveal(<PersonalDocument as Wire>::parse);
        reveal_strlit("@type");
        reveal_strlit("files");
        reveal_strlit("translation");
        assert("@type"@.len() == 5 && "@type"@[0] == '@');
        assert("files"@.len() == 5 && "files"@[0] == 'f');
        assert("translation"@.len() == 11);
        self.files.round_trip("files"@);
        self.translation.round_trip("translation"@);
    }
}

impl Tagged for PersonalDocument {
    open spec fn known(tag: Seq<char>) -> bool {
        tag == "personalDocument"@
    }

    fn knows(tag: &str) -> (r: bool) {
        same_text(tag, "personalDocument")
    }

    proof fn tag_known(&self) {
        reveal(<PersonalDocument as Wire>::wire);
        assert(tag_of(self.wire()) == Some("personalDocument"@));
        assert(Self::known("personalDocument"@));
    }
}

/// A personal document to be saved to Telegram Passport
#[derive(Debug, Clone, PartialEq)]
pub struct InputPersonalDocument {
    /// List of files containing the pages of the document
    pub files: Vec<InputFile>,
    /// List of files containing a certified English translation of the document
    pub translation: Vec<InputFile>,
}

impl Wire for InputPersonalDocument {
    #[verifier::opaque]
    open spec fn wire(&self) -> Doc {
        tagged(
            Map::empty()
                .insert("files"@, self.files.wire())
                .insert("translation"@, self.translation.wire()),
            "inputPersonalDocument"@,
        )
    }

    #[verifier::opaque]
    open spec fn parse(d: Doc, at: Seq<char>) -> Result<Doc, Fault> {
        match d {
            Doc::Object(m) => {
                let files = field::<Vec<InputFile>>(m, "files"@);
                let translation = field::<Vec<InputFile>>(m, "translation"@);
                if files is Err {
                    files
                } else if translation is Err {
                    translation
                } else {
                    Ok(
                        tagged(
                            Map::empty()
                                .insert("files"@, files->Ok_0)
                                .insert("translation"@, translation->Ok_0),
                            "inputPersonalDocument"@,
                        ),
                    )
                }
            },
            _ => Err(Fault::TypeMismatch(at)),
        }
    }

    fn encode(&self) -> (j: Json) {
        proof {
            reveal(<InputPersonalDocument as Wire>::wire);
        }
        let mut members: Vec<Member> = Vec::new();
        put(&mut members, "files", self.files.encode());
        put(&mut members, "translation", self.translation.encode());
        seal(members, "inputPersonalDocument")
    }

    fn decode(j: &Json, at: &str) -> (r: Result<Self, DecodeError>) {
        proof {
            reveal(<InputPersonalDocument as Wire>::wire);
            reveal(<InputPersonalDocument as Wire>::parse);
        }
        let members = members_of(j, at)?;
        let files = read_field::<Vec<InputFile>>(members, "files")?;
        let translation = read_field::<Vec<InputFile>>(members, "translation")?;
        Ok(InputPersonalDocument { files, translation })
    }

    proof fn round_trip(&self, at: Seq<char>) {
        reveal(<InputPersonalDocument as Wire>::wire);
        reveal(<InputPersonalDocument as Wire>::parse);
        reveal_strlit("@type");
        reveal_strlit("files");
        reveal_strlit("translation");
        assert("@type"@.len() == 5 && "@type"@[0] == '@');
        assert("files"@.len() == 5 && "files"@[0] == 'f');
        assert("translation"@.len() == 11);
        self.files.round_trip("files"@);
        self.translation.round_trip("translation"@);
    }
}

impl Tagged for InputPersonalDocument {
    open spec fn known(tag: Seq<char>) -> bool {
        tag == "inputPersonalDocument"@
    }

    fn knows(tag: &str) -> (r: bool) {
        same_text(tag, "inputPersonalDocument")
    }

    proof fn tag_known(&self) {
        reveal(<InputPersonalDocument as Wire>::wire);
        assert(tag_of(self.wire()) == Some("inputPersonalDocument"@));
        assert(Self::known("inputPersonalDocument"@));
    }
}

/// A Telegram Passport element containing the user's personal details
#[derive(Debug, Clone, PartialEq)]
pub struct PassportElementPersonalDetails {
    /// Personal details of the user
    pub personal_details: PersonalDetails,
}

impl Wire for PassportElementPersonalDetails {
    #[verifier::opaque]
    open spec fn wire(&self) -> Doc {
        tagged(
            Map::empty()
                .insert("personalDetails"@, self.personal_details.wire()),
            "passportElementPersonalDetails"@,
        )
    }

    #[verifier::opaque]
    open spec fn parse(d: Doc, at: Seq<char>) -> Result<Doc, Fault> {
        match d {
            Doc::Object(m) => {
                let personal_details = field::<PersonalDetails>(m, "personalDetails"@);
                if personal_details is Err {
                    personal_details
                } else {
                    Ok(
                        tagged(
                            Map::empty()
                                .insert("personalDetails"@, personal_details->Ok_0),
                            "passportElementPersonalDetails"@,
                        ),
                    )
                }
            },
            _ => Err(Fault::TypeMismatch(at)),
        }
    }

    fn encode(&self) -> (j: Json) {
        proof {
            reveal(<PassportElementPersonalDetails as Wire>::wire);
        }
        let mut members: Vec<Member> = Vec::new();
        put(&mut members, "personalDetails", self.personal_details.encode());
        seal(members, "passportElementPersonalDetails")
    }

    fn decode(j: &Json, at: &str) -> (r: Result<Self, DecodeError>) {
        proof {
            reveal(<PassportElementPersonalDetails as Wire>::wire);
            reveal(<PassportElementPersonalDetails as Wire>::parse);
        }
        let members = members_of(j, at)?;
        let personal_details = read_field::<PersonalDetails>(members, "personalDetails")?;
        Ok(PassportElementPersonalDetails { personal_details })
    }

    proof fn round_trip(&self, at: Seq<char>) {
        reveal(<PassportElementPersonalDetails as Wire>::wire);
        reveal(<PassportElementPersonalDetails as Wire>::parse);
        reveal_strlit("@type");
        reveal_strlit("personalDetails");
        assert("@type"@.len() == 5);
        assert("personalDetails"@.len() == 15);
        self.personal_details.round_trip("personalDetails"@);
    }
}

impl Tagged for PassportElementPersonalDetails {
    open spec fn known(tag: Seq<char>) -> bool {
        tag == "passportElementPersonalDetails"@
    }

    fn knows(tag: &str) -> (r: bool) {
        same_text(tag, "passportElementPersonalDetails")
    }

    proof fn tag_known(&self) {
        reveal(<PassportElementPersonalDetails as Wire>::wire);
        assert(tag_of(self.wire()) == Some("passportElementPersonalDetails"@));
        assert(Self::known("passportElementPersonalDetails"@));
    }
}

/// A Telegram Passport element containing the user's passport
#[derive(Debug, Clone, PartialEq)]
pub struct PassportElementPassport {
    /// Passport
    pub passport: IdentityDocument,
}

impl Wire for PassportElementPassport {
    #[verifier::opaque]
    open spec fn wire(&self) -> Doc {
        tagged(
            Map::empty()
                .insert("passport"@, self.passport.wire()),
            "passportElementPassport"@,
        )
    }

    #[verifier::opaque]
    open spec fn parse(d: Doc, at: Seq<char>) -> Result<Doc, Fault> {
        match d {
            Doc::Object(m) => {
                let passport = field::<IdentityDocument>(m, "passport"@);
                if passport is Err {
                    passport
                } else {
                    Ok(
                        tagged(
                            Map::empty()
                                .insert("passport"@, passport->Ok_0),
                            "passportElementPassport"@,
                        ),
                    )
                }
            },
            _ => Err(Fault::TypeMismatch(at)),
        }
    }

    fn encode(&self) -> (j: Json) {
        proof {
            reveal(<PassportElementPassport as Wire>::wire);
        }
        let mut members: Vec<Member> = Vec::new();
        put(&mut members, "passport", self.passport.encode());
        seal(members, "passportElementPassport")
    }

    fn decode(j: &Json, at: &str) -> (r: Result<Self, DecodeError>) {
        proof {
            reveal(<PassportElementPassport as Wire>::wire);
            reveal(<PassportElementPassport as Wire>::parse);
        }
        let members = members_of(j, at)?;
        let passport = read_field::<IdentityDocument>(members, "passport")?;
        Ok(PassportElementPassport { passport })
    }

    proof fn round_trip(&self, at: Seq<char>) {
        reveal(<PassportElementPassport as Wire>::wire);
        reveal(<PassportElementPassport as Wire>::parse);
        reveal_strlit("@type");
        reveal_strlit("passport");
        assert("@type"@.len() == 5);
        assert("passport"@.len() == 8);
        self.passport.round_trip("passport"@);
    }
}

impl Tagged for PassportElementPassport {
    open spec fn known(tag: Seq<char>) -> bool {
        tag == "passportElementPassport"@
    }

    fn knows(tag: &str) -> (r: bool) {
        same_text(tag, "passportElementPassport")
    }

    proof fn tag_known(&self) {
        reveal(<PassportElementPassport as Wire>::wire);
        assert(tag_of(self.wire()) == Some("passportElementPassport"@));
        assert(Self::known("passportElementPassport"@));
    }
}

/// A Telegram Passport element containing the user's driver license
#[derive(Debug, Clone, PartialEq)]
pub struct PassportElementDriverLicense {
    /// Driver license
    pub driver_license: IdentityDocument,
}

impl Wire for PassportElementDriverLicense {
    #[verifier::opaque]
    open spec fn wire(&self) -> Doc {
        tagged(
            Map::empty()
                .insert("driverLicense"@, self.driver_license.wire()),
            "passportElementDriverLicense"@,
        )
    }

    #[verifier::opaque]
    open spec fn parse(d: Doc, at: Seq<char>) -> Result<Doc, Fault> {
        match d {
            Doc::Object(m) => {
                let driver_license = field::<IdentityDocument>(m, "driverLicense"@);
                if driver_license is Err {
                    driver_license
                } else {
                    Ok(
                        tagged(
                            Map::empty()
                                .insert("driverLicense"@, driver_license->Ok_0),
                            "passportElementDriverLicense"@,
                        ),
                    )
                }
            },
            _ => Err(Fault::TypeMismatch(at)),
        }
    }

    fn encode(&self) -> (j: Json) {
        proof {
            reveal(<PassportElementDriverLicense as Wire>::wire);
        }
        let mut members: Vec<Member> = Vec::new();
        put(&mut members, "driverLicense", self.driver_license.encode());
        seal(members, "passportElementDriverLicense")
    }

    fn decode(j: &Json, at: &str) -> (r: Result<Self, DecodeError>) {
        proof {
            reveal(<PassportElementDriverLicense as Wire>::wire);
            reveal(<PassportElementDriverLicense as Wire>::parse);
        }
        let members = members_of(j, at)?;
        let driver_license = read_field::<IdentityDocument>(members, "driverLicense")?;
        Ok(PassportElementDriverLicense { driver_license })
    }

    proof fn round_trip(&self, at: Seq<char>) {
        reveal(<PassportElementDriverLicense as Wire>::wire);
        reveal(<PassportElementDriverLicense as Wire>::parse);
        reveal_strlit("@type");
        reveal_strlit("driverLicense");
        assert("@type"@.len() == 5);
        assert("driverLicense"@.len() == 13);
        self.driver_license.round_trip("driverLicense"@);
    }
}

impl Tagged for PassportElementDriverLicense {
    open spec fn known(tag: Seq<char>) -> bool {
        tag == "passportElementDriverLicense"@
    }

    fn knows(tag: &str) -> (r: bool) {
        same_text(tag, "passportElementDriverLicense")
    }

    proof fn tag_known(&self) {
        reveal(<PassportElementDriverLicense as Wire>::wire);
        assert(tag_of(self.wire()) == Some("passportElementDriverLicense"@));
        assert(Self::known("passportElementDriverLicense"@));
    }
}

/// A Telegram Passport element containing the user's identity card
#[derive(Debug, Clone, PartialEq)]
pub struct PassportElementIdentityCard {
    /// Identity card
    pub identity_card: IdentityDocument,
}

impl Wire for PassportElementIdentityCard {
    #[verifier::opaque]
    open spec fn wire(&self) -> Doc {
        tagged(
            Map::empty()
                .insert("identityCard"@, self.identity_card.wire()),
            "passportElementIdentityCard"@,
        )
    }

    #[verifier::opaque]
    open spec fn parse(d: Doc, at: Seq<char>) -> Result<Doc, Fault> {
        match d {
            Doc::Object(m) => {
                let identity_card = field::<IdentityDocument>(m, "identityCard"@);
                if identity_card is Err {
                    identity_card
                } else {
                    Ok(
                        tagged(
                            Map::empty()
                                .insert("identityCard"@, identity_card->Ok_0),
                            "passportElementIdentityCard"@,
                        ),
                    )
                }
            },
            _ => Err(Fault::TypeMismatch(at)),
        }
    }

    fn encode(&self) -> (j: Json) {
        proof {
            reveal(<PassportElementIdentityCard as Wire>::wire);
        }
        let mut members: Vec<Member> = Vec::new();
        put(&mut members, "identityCard", self.identity_card.encode());
        seal(members, "passportElementIdentityCard")
    }

    fn decode(j: &Json, at: &str) -> (r: Result<Self, DecodeError>) {
        proof {
            reveal(<PassportElementIdentityCard as Wire>::wire);
            reveal(<PassportElementIdentityCard as Wire>::parse);
        }
        let members = members_of(j, at)?;
        let identity_card = read_field::<IdentityDocument>(members, "identityCard")?;
        Ok(PassportElementIdentityCard { identity_card })
    }

    proof fn round_trip(&self, at: Seq<char>) {
        reveal(<PassportElementIdentityCard as Wire>::wire);
        reveal(<PassportElementIdentityCard as Wire>::parse);
        reveal_strlit("@type");
        reveal_strlit("identityCard");
        assert("@type"@.len() == 5);
        assert("identityCard"@.len() == 12);
        self.identity_card.round_trip("identityCard"@);
    }
}

impl Tagged for PassportElementIdentityCard {
    open spec fn known(tag: Seq<char>) -> bool {
        tag == "passportElementIdentityCard"@
    }

    fn knows(tag: &str) -> (r: bool) {
        same_text(tag, "passportElementIdentityCard")
    }

    proof fn tag_known(&self) {
        reveal(<PassportElementIdentityCard as Wire>::wire);
        assert(tag_of(self.wire()) == Some("passportElementIdentityCard"@));
        assert(Self::known("passportElementIdentityCard"@));
    }
}

/// A Telegram Passport element containing the user's internal passport
#[derive(Debug, Clone, PartialEq)]
pub struct PassportElementInternalPassport {
    /// Internal passport
    pub internal_passport: IdentityDocument,
}

impl Wire for PassportElementInternalPassport {
    #[verifier::opaque]
    open spec fn wire(&self) -> Doc {
        tagged(
            Map::empty()
                .insert("internalPassport"@, self.internal_passport.wire()),
            "passportElementInternalPassport"@,
        )
    }

    #[verifier::opaque]
    open spec fn parse(d: Doc, at: Seq<char>) -> Result<Doc, Fault> {
        match d {
            Doc::Object(m) => {
                let internal_passport = field::<IdentityDocument>(m, "internalPassport"@);
                if internal_passport is Err {
                    internal_passport
                } else {
                    Ok(
                        tagged(
                            Map::empty()
                                .insert("internalPassport"@, internal_passport->Ok_0),
                            "passportElementInternalPassport"@,
                        ),
                    )
                }
            },
            _ => Err(Fault::TypeMismatch(at)),
        }
    }

    fn encode(&self) -> (j: Json) {
        proof {
            reveal(<PassportElementInternalPassport as Wire>::wire);
        }
        let mut members: Vec<Member> = Vec::new();
        put(&mut members, "internalPassport", self.internal_passport.encode());
        seal(members, "passportElementInternalPassport")
    }

    fn decode(j: &Json, at: &str) -> (r: Result<Self, DecodeError>) {
        proof {
            reveal(<PassportElementInternalPassport as Wire>::wire);
            reveal(<PassportElementInternalPassport as Wire>::parse);
        }
        let members = members_of(j, at)?;
        let internal_passport = read_field::<IdentityDocument>(members, "internalPassport")?;
        Ok(PassportElementInternalPassport { internal_passport })
    }

    proof fn round_trip(&self, at: Seq<char>) {
        reveal(<PassportElementInternalPassport as Wire>::wire);
        reveal(<PassportElementInternalPassport as Wire>::parse);
        reveal_strlit("@type");
        reveal_strlit("internalPassport");
        assert("@type"@.len() == 5);
        assert("internalPassport"@.len() == 16);
        self.internal_passport.round_trip("internalPassport"@);
    }
}

impl Tagged for PassportElementInternalPassport {
    open spec fn known(tag: Seq<char>) -> bool {
        tag == "passportElementInternalPassport"@
    }

    fn knows(tag: &str) -> (r: bool) {
        same_text(tag, "passportElementInternalPassport")
    }

    proof fn tag_known(&self) {
        reveal(<PassportElementInternalPassport as Wire>::wire);
        assert(tag_of(self.wire()) == Some("passportElementInternalPassport"@));
        assert(Self::known("passportElementInternalPassport"@));
    }
}

/// A Telegram Passport element containing the user's address
#[derive(Debug, Clone, PartialEq)]
pub struct PassportElementAddress {
    /// Address
    pub address: Address,
}

impl Wire for PassportElementAddress {
    #[verifier::opaque]
    open spec fn wire(&self) -> Doc {
        tagged(
            Map::empty()
                .insert("address"@, self.address.wire()),
            "passportElementAddress"@,
        )
    }

    #[verifier::opaque]
    open spec fn parse(d: Doc, at: Seq<char>) -> Result<Doc, Fault> {
        match d {
            Doc::Object(m) => {
                let address = field::<Address>(m, "address"@);
                if address is Err {
                    address
                } else {
                    Ok(
                        tagged(
                            Map::empty()
                                .insert("address"@, address->Ok_0),
                            "passportElementAddress"@,
                        ),
                    )
                }
            },
            _ => Err(Fault::TypeMismatch(at)),
        }
    }

    fn encode(&self) -> (j: Json) {
        proof {
            reveal(<PassportElementAddress as Wire>::wire);
        }
        let mut members: Vec<Member> = Vec::new();
        put(&mut members, "address", self.address.encode());
        seal(members, "passportElementAddress")
    }

    fn decode(j: &Json, at: &str) -> (r: Result<Self, DecodeError>) {
        proof {
            reveal(<PassportElementAddress as Wire>::wire);
            reveal(<PassportElementAddress as Wire>::parse);
        }
        let members = members_of(j, at)?;
        let address = read_field::<Address>(members, "address")?;
        Ok(PassportElementAddress { address })
    }

    proof fn round_trip(&self, at: Seq<char>) {
        reveal(<PassportElementAddress as Wire>::wire);
        reveal(<PassportElementAddress as Wire>::parse);
        reveal_strlit("@type");
        reveal_strlit("address");
        assert("@type"@.len() == 5);
        assert("address"@.len() == 7);
        self.address.round_trip("address"@);
    }
}

impl Tagged for PassportElementAddress {
    open spec fn known(tag: Seq<char>) -> bool {
        tag == "passportElementAddress"@
    }

    fn knows(tag: &str) -> (r: bool) {
        same_text(tag, "passportElementAddress")
    }

    proof fn tag_known(&self) {
        reveal(<PassportElementAddress as Wire>::wire);
        assert(tag_of(self.wire()) == Some("passportElementAddress"@));
        assert(Self::known("passportElementAddress"@));
    }
}

/// A Telegram Passport element containing the user's utility bill
#[derive(Debug, Clone, PartialEq)]
pub struct PassportElementUtilityBill {
    /// Utility bill
    pub utility_bill: PersonalDocument,
}

impl Wire for PassportElementUtilityBill {
    #[verifier::opaque]
    open spec fn wire(&self) -> Doc {
        tagged(
            Map::empty()
                .insert("utilityBill"@, self.utility_bill.wire()),
            "passportElementUtilityBill"@,
        )
    }

    #[verifier::opaque]
    open spec fn parse(d: Doc, at: Seq<char>) -> Result<Doc, Fault> {
        match d {
            Doc::Object(m) => {
                let utility_bill = field::<PersonalDocument>(m, "utilityBill"@);
                if utility_bill is Err {
                    utility_bill
                } else {
                    Ok(
                        tagged(
                            Map::empty()
                                .insert("utilityBill"@, utility_bill->Ok_0),
                            "passportElementUtilityBill"@,
                        ),
                    )
                }
            },
            _ => Err(Fault::TypeMismatch(at)),
        }
    }

    fn encode(&self) -> (j: Json) {
        proof {
            reveal(<PassportElementUtilityBill as Wire>::wire);
        }
        let mut members: Vec<Member> = Vec::new();
        put(&mut members, "utilityBill", self.utility_bill.encode());
        seal(members, "passportElementUtilityBill")
    }

    fn decode(j: &Json, at: &str) -> (r: Result<Self, DecodeError>) {
        proof {
            reveal(<PassportElementUtilityBill as Wire>::wire);
            reveal(<PassportElementUtilityBill as Wire>::parse);
        }
        let members = members_of(j, at)?;
        let utility_bill = read_field::<PersonalDocument>(members, "utilityBill")?;
        Ok(PassportElementUtilityBill { utility_bill })
    }

    proof fn round_trip(&self, at: Seq<char>) {
        reveal(<PassportElementUtilityBill as Wire>::wire);
        reveal(<PassportElementUtilityBill as Wire>::parse);
        reveal_strlit("@type");
        reveal_strlit("utilityBill");
        assert("@type"@.len() == 5);
        assert("utilityBill"@.len() == 11);
        self.utility_bill.round_trip("utilityBill"@);
    }
}

impl Tagged for PassportElementUtilityBill {
    open spec fn known(tag: Seq<char>) -> bool {
        tag == "passportElementUtilityBill"@
    }

    fn knows(tag: &str) -> (r: bool) {
        same_text(tag, "passportElementUtilityBill")
    }

    proof fn tag_known(&self) {
        reveal(<PassportElementUtilityBill as Wire>::wire);
        assert(tag_of(self.wire()) == Some("passportElementUtilityBill"@));
        assert(Self::known("passportElementUtilityBill"@));
    }
}

/// A Telegram Passport element containing the user's bank statement
#[derive(Debug, Clone, PartialEq)]
pub struct PassportElementBankStatement {
    /// Bank statement
    pub bank_statement: PersonalDocument,
}

impl Wire for PassportElementBankStatement {
    #[verifier::opaque]
    open spec fn wire(&self) -> Doc {
        tagged(
            Map::empty()
                .insert("bankStatement"@, self.bank_statement.wire()),
            "passportElementBankStatement"@,
        )
    }

    #[verifier::opaque]
    open spec fn parse(d: Doc, at: Seq<char>) -> Result<Doc, Fault> {
        match d {
            Doc::Object(m) => {
                let bank_statement = field::<PersonalDocument>(m, "bankStatement"@);
                if bank_statement is Err {
                    bank_statement
                } else {
                    Ok(
                        tagged(
                            Map::empty()
                                .insert("bankStatement"@, bank_statement->Ok_0),
                            "passportElementBankStatement"@,
                        ),
                    )
                }
            },
            _ => Err(Fault::TypeMismatch(at)),
        }
    }

    fn encode(&self) -> (j: Json) {
        proof {
            reveal(<PassportElementBankStatement as Wire>::wire);
        }
        let mut members: Vec<Member> = Vec::new();
        put(&mut members, "bankStatement", self.bank_statement.encode());
        seal(members, "passportElementBankStatement")
    }

    fn decode(j: &Json, at: &str) -> (r: Result<Self, DecodeError>) {
        proof {
            reveal(<PassportElementBankStatement as Wire>::wire);
            reveal(<PassportElementBankStatement as Wire>::parse);
        }
        let members = members_of(j, at)?;
        let bank_statement = read_field::<PersonalDocument>(members, "bankStatement")?;
        Ok(PassportElementBankStatement { bank_statement })
    }

    proof fn round_trip(&self, at: Seq<char>) {
        reveal(<PassportElementBankStatement as Wire>::wire);
        reveal(<PassportElementBankStatement as Wire>::parse);
        reveal_strlit("@type");
        reveal_strlit("bankStatement");
        assert("@type"@.len() == 5);
        assert("bankStatement"@.len() == 13);
        self.bank_statement.round_trip("bankStatement"@);
    }
}

impl Tagged for PassportElementBankStatement {
    open spec fn known(tag: Seq<char>) -> bool {
        tag == "passportElementBankStatement"@
    }

    fn knows(tag: &str) -> (r: bool) {
        same_text(tag, "passportElementBankStatement")
    }

    proof fn tag_known(&self) {
        reveal(<PassportElementBankStatement as Wire>::wire);
        assert(tag_of(self.wire()) == Some("passportElementBankStatement"@));
        assert(Self::known("passportElementBankStatement"@));
    }
}

/// A Telegram Passport element containing the user's rental agreement
#[derive(Debug, Clone, PartialEq)]
pub struct PassportElementRentalAgreement {
    /// Rental agreement
    pub rental_agreement: PersonalDocument,
}

impl Wire for PassportElementRentalAgreement {
    #[verifier::opaque]
    open spec fn wire(&self) -> Doc {
        tagged(
            Map::empty()
                .insert("rentalAgreement"@, self.rental_agreement.wire()),
            "passportElementRentalAgreement"@,
        )
    }

    #[verifier::opaque]
    open spec fn parse(d: Doc, at: Seq<char>) -> Result<Doc, Fault> {
        match d {
            Doc::Object(m) => {
                let rental_agreement = field::<PersonalDocument>(m, "rentalAgreement"@);
                if rental_agreement is Err {
                    rental_agreement
                } else {
                    Ok(
                        tagged(
                            Map::empty()
                                .insert("rentalAgreement"@, rental_agreement->Ok_0),
                            "passportElementRentalAgreement"@,
                        ),
                    )
                }
            },
            _ => Err(Fault::TypeMismatch(at)),
        }
    }

    fn encode(&self) -> (j: Json) {
        proof {
            reveal(<PassportElementRentalAgreement as Wire>::wire);
        }
        let mut members: Vec<Member> = Vec::new();
        put(&mut members, "rentalAgreement", self.rental_agreement.encode());
        seal(members, "passportElementRentalAgreement")
    }

    fn decode(j: &Json, at: &str) -> (r: Result<Self, DecodeError>) {
        proof {
            reveal(<PassportElementRentalAgreement as Wire>::wire);
            reveal(<PassportElementRentalAgreement as Wire>::parse);
        }
        let members = members_of(j, at)?;
        let rental_agreement = read_field::<PersonalDocument>(members, "rentalAgreement")?;
        Ok(PassportElementRentalAgreement { rental_agreement })
    }

    proof fn round_trip(&self, at: Seq<char>) {
        reveal(<PassportElementRentalAgreement as Wire>::wire);
        reveal(<PassportElementRentalAgreement as Wire>::parse);
        reveal_strlit("@type");
        reveal_strlit("rentalAgreement");
        assert("@type"@.len() == 5);
        assert("rentalAgreement"@.len() == 15);
        self.rental_agreement.round_trip("rentalAgreement"@);
    }
}

impl Tagged for PassportElementRentalAgreement {
    open spec fn known(tag: Seq<char>) -> bool {
        tag == "passportElementRentalAgreement"@
    }

    fn knows(tag: &str) -> (r: bool) {
        same_text(tag, "passportElementRentalAgreement")
    }

    proof fn tag_known(&self) {
        reveal(<PassportElementRentalAgreement as Wire>::wire);
        assert(tag_of(self.wire()) == Some("passportElementRentalAgreement"@));
        assert(Self::known("passportElementRentalAgreement"@));
    }
}

/// A Telegram Passport element containing the user's passport registration pages
#[derive(Debug, Clone, PartialEq)]
pub struct PassportElementPassportRegistration {
    /// Passport registration pages
    pub passport_registration: PersonalDocument,
}

impl Wire for PassportElementPassportRegistration {
    #[verifier::opaque]
    open spec fn wire(&self) -> Doc {
        tagged(
            Map::empty()
                .insert("passportRegistration"@, self.passport_registration.wire()),
            "passportElementPassportRegistration"@,
        )
    }

    #[verifier::opaque]
    open spec fn parse(d: Doc, at: Seq<char>) -> Result<Doc, Fault> {
        match d {
            Doc::Object(m) => {
                let passport_registration = field::<PersonalDocument>(m, "passportRegistration"@);
                if passport_registration is Err {
                    passport_registration
                } else {
                    Ok(
                        tagged(
                            Map::empty()
                                .insert("passportRegistration"@, passport_registration->Ok_0),
                            "passportElementPassportRegistration"@,
                        ),
                    )
                }
            },
            _ => Err(Fault::TypeMismatch(at)),
        }
    }

    fn encode(&self) -> (j: Json) {
        proof {
            reveal(<PassportElementPassportRegistration as Wire>::wire);
        }
        let mut members: Vec<Member> = Vec::new();
        put(&mut members, "passportRegistration", self.passport_registration.encode());
        seal(members, "passportElementPassportRegistration")
    }

    fn decode(j: &Json, at: &str) -> (r: Result<Self, DecodeError>) {
        proof {
            reveal(<PassportElementPassportRegistration as Wire>::wire);
            reveal(<PassportElementPassportRegistration as Wire>::parse);
        }
        let members = members_of(j, at)?;
        let passport_registration = read_field::<PersonalDocument>(
            members,
            "passportRegistration",
        )?;
        Ok(PassportElementPassportRegistration { passport_registration })
    }

    proof fn round_trip(&self, at: Seq<char>) {
        reveal(<PassportElementPassportRegistration as Wire>::wire);
        reveal(<PassportElementPassportRegistration as Wire>::parse);
        reveal_strlit("@type");
        reveal_strlit("passportRegistration");
        assert("@type"@.len() == 5);
        assert("passportRegistration"@.len() == 20);
        self.passport_registration.round_trip("passportRegistration"@);
    }
}

impl Tagged for PassportElementPassportRegistration {
    open spec fn known(tag: Seq<char>) -> bool {
        tag == "passportElementPassportRegistration"@
    }

    fn knows(tag: &str) -> (r: bool) {
        same_text(tag, "passportElementPassportRegistration")
    }

    proof fn tag_known(&self) {
        reveal(<PassportElementPassportRegistration as Wire>::wire);
        assert(tag_of(self.wire()) == Some("passportElementPassportRegistration"@));
        assert(Self::known("passportElementPassportRegistration"@));
    }
}

/// A Telegram Passport element containing the user's temporary registration
#[derive(Debug, Clone, PartialEq)]
pub struct PassportElementTemporaryRegistration {
    /// Temporary registration
    pub temporary_registration: PersonalDocument,
}

impl Wire for PassportElementTemporaryRegistration {
    #[verifier::opaque]
    open spec fn wire(&self) -> Doc {
        tagged(
            Map::empty()
                .insert("temporaryRegistration"@, self.temporary_registration.wire()),
            "passportElementTemporaryRegistration"@,
        )
    }

    #[verifier::opaque]
    open spec fn parse(d: Doc, at: Seq<char>) -> Result<Doc, Fault> {
        match d {
            Doc::Object(m) => {
                let temporary_registration = field::<PersonalDocument>(m, "temporaryRegistration"@);
                if temporary_registration is Err {
                    temporary_registration
                } else {
                    Ok(
                        tagged(
                            Map::empty()
                                .insert("temporaryRegistration"@, temporary_registration->Ok_0),
                            "passportElementTemporaryRegistration"@,
                        ),
                    )
                }
            },
            _ => Err(Fault::TypeMismatch(at)),
        }
    }

    fn encode(&self) -> (j: Json) {
        proof {
            reveal(<PassportElementTemporaryRegistration as Wire>::wire);
        }
        let mut members: Vec<Member> = Vec::new();
        put(&mut members, "temporaryRegistration", self.temporary_registration.encode());
        seal(members, "passportElementTemporaryRegistration")
    }

    fn decode(j: &Json, at: &str) -> (r: Result<Self, DecodeError>) {
        proof {
            reveal(<PassportElementTemporaryRegistration as Wire>::wire);
            reveal(<PassportElementTemporaryRegistration as Wire>::parse);
        }
        let members = members_of(j, at)?;
        let temporary_registration = read_field::<PersonalDocument>(
            members,
            "temporaryRegistration",
        )?;
        Ok(PassportElementTemporaryRegistration { temporary_registration })
    }

    proof fn round_trip(&self, at: Seq<char>) {
        reveal(<PassportElementTemporaryRegistration as Wire>::wire);
        reveal(<PassportElementTemporaryRegistration as Wire>::parse);
        reveal_strlit("@type");
        reveal_strlit("temporaryRegistration");
        assert("@type"@.len() == 5);
        assert("temporaryRegistration"@.len() == 21);
        self.temporary_registration.round_trip("temporaryRegistration"@);
    }
}

impl Tagged for PassportElementTemporaryRegistration {
    open spec fn known(tag: Seq<char>) -> bool {
        tag == "passportElementTemporaryRegistration"@
    }

    fn knows(tag: &str) -> (r: bool) {
        same_text(tag, "passportElementTemporaryRegistration")
    }

    proof fn tag_known(&self) {
        reveal(<PassportElementTemporaryRegistration as Wire>::wire);
        assert(tag_of(self.wire()) == Some("passportElementTemporaryRegistration"@));
        assert(Self::known("passportElementTemporaryRegistration"@));
    }
}

/// A Telegram Passport element containing the user's phone number
#[derive(Debug, Clone, PartialEq)]
pub struct PassportElementPhoneNumber {
    /// Phone number
    pub phone_number: String,
}

impl Wire for PassportElementPhoneNumber {
    #[verifier::opaque]
    open spec fn wire(&self) -> Doc {
        tagged(
            Map::empty()
                .insert("phoneNumber"@, self.phone_number.wire()),
            "passportElementPhoneNumber"@,
        )
    }

    #[verifier::opaque]
    open spec fn parse(d: Doc, at: Seq<char>) -> Result<Doc, Fault> {
        match d {
            Doc::Object(m) => {
                let phone_number = field::<String>(m, "phoneNumber"@);
                if phone_number is Err {
                    phone_number
                } else {
                    Ok(
                        tagged(
                            Map::empty()
                                .insert("phoneNumber"@, phone_number->Ok_0),
                            "passportElementPhoneNumber"@,
                        ),
                    )
                }
            },
            _ => Err(Fault::TypeMismatch(at)),
        }
    }

    fn encode(&self) -> (j: Json) {
        proof {
            reveal(<PassportElementPhoneNumber as Wire>::wire);
        }
        let mut members: Vec<Member> = Vec::new();
        put(&mut members, "phoneNumber", self.phone_number.encode());
        seal(members, "passportElementPhoneNumber")
    }

    fn decode(j: &Json, at: &str) -> (r: Result<Self, DecodeError>) {
        proof {
            reveal(<PassportElementPhoneNumber as Wire>::wire);
            reveal(<PassportElementPhoneNumber as Wire>::parse);
        }
        let members = members_of(j, at)?;
        let phone_number = read_field::<String>(members, "phoneNumber")?;
        Ok(PassportElementPhoneNumber { phone_number })
    }

    proof fn round_trip(&self, at: Seq<char>) {
        reveal(<PassportElementPhoneNumber as Wire>::wire);
        reveal(<PassportElementPhoneNumber as Wire>::parse);
        reveal_strlit("@type");
        reveal_strlit("phoneNumber");
        assert("@type"@.len() == 5);
        assert("phoneNumber"@.len() == 11);
        self.phone_number.round_trip("phoneNumber"@);
    }
}

impl Tagged for PassportElementPhoneNumber {
    open spec fn known(tag: Seq<char>) -> bool {
        tag == "passportElementPhoneNumber"@
    }

    fn knows(tag: &str) -> (r: bool) {
        same_text(tag, "passportElementPhoneNumber")
    }

    proof fn tag_known(&self) {
        reveal(<PassportElementPhoneNumber as Wire>::wire);
        assert(tag_of(self.wire()) == Some("passportElementPhoneNumber"@));
        assert(Self::known("passportElementPhoneNumber"@));
    }
}

/// A Telegram Passport element containing the user's email address
#[derive(Debug, Clone, PartialEq)]
pub struct PassportElementEmailAddress {
    /// Email address
    pub email_address: String,
}

impl Wire for PassportElementEmailAddress {
    #[verifier::opaque]
    open spec fn wire(&self) -> Doc {
        tagged(
            Map::empty()
                .insert("emailAddress"@, self.email_address.wire()),
            "passportElementEmailAddress"@,
        )
    }

    #[verifier::opaque]
    open spec fn parse(d: Doc, at: Seq<char>) -> Result<Doc, Fault> {
        match d {
            Doc::Object(m) => {
                let email_address = field::<String>(m, "emailAddress"@);
                if email_address is Err {
                    email_address
                } else {
                    Ok(
                        tagged(
                            Map::empty()
                                .insert("emailAddress"@, email_address->Ok_0),
                            "passportElementEmailAddress"@,
                        ),
                    )
                }
            },
            _ => Err(Fault::TypeMismatch(at)),
        }
    }

    fn encode(&self) -> (j: Json) {
        proof {
            reveal(<PassportElementEmailAddress as Wire>::wire);
        }
        let mut members: Vec<Member> = Vec::new();
        put(&mut members, "emailAddress", self.email_address.encode());
        seal(members, "passportElementEmailAddress")
    }

    fn decode(j: &Json, at: &str) -> (r: Result<Self, DecodeError>) {
        proof {
            reveal(<PassportElementEmailAddress as Wire>::wire);
            reveal(<PassportElementEmailAddress as Wire>::parse);
        }
        let members = members_of(j, at)?;
        let email_address = read_field::<String>(members, "emailAddress")?;
        Ok(PassportElementEmailAddress { email_address })
    }

    proof fn round_trip(&self, at: Seq<char>) {
        reveal(<PassportElementEmailAddress as Wire>::wire);
        reveal(<PassportElementEmailAddress as Wire>::parse);
        reveal_strlit("@type");
        reveal_strlit("emailAddress");
        assert("@type"@.len() == 5);
        assert("emailAddress"@.len() == 12);
        self.email_address.round_trip("emailAddress"@);
    }
}

impl Tagged for PassportElementEmailAddress {
    open spec fn known(tag: Seq<char>) -> bool {
        tag == "passportElementEmailAddress"@
    }

    fn knows(tag: &str) -> (r: bool) {
        same_text(tag, "passportElementEmailAddress")
    }

    proof fn tag_known(&self) {
        reveal(<PassportElementEmailAddress as Wire>::wire);
        assert(tag_of(self.wire()) == Some("passportElementEmailAddress"@));
        assert(Self::known("passportElementEmailAddress"@));
    }
}

/// Contains information about a Telegram Passport element
#[derive(Debug, Clone, PartialEq)]
pub enum PassportElement {
    PassportElementPersonalDetails(PassportElementPersonalDetails),
    PassportElementPassport(PassportElementPassport),
    PassportElementDriverLicense(PassportElementDriverLicense),
    PassportElementIdentityCard(PassportElementIdentityCard),
    PassportElementInternalPassport(PassportElementInternalPassport),
    PassportElementAddress(PassportElementAddress),
    PassportElementUtilityBill(PassportElementUtilityBill),
    PassportElementBankStatement(PassportElementBankStatement),
    PassportElementRentalAgreement(PassportElementRentalAgreement),
    PassportElementPassportRegistration(PassportElementPassportRegistration),
    PassportElementTemporaryRegistration(PassportElementTemporaryRegistration),
    PassportElementPhoneNumber(PassportElementPhoneNumber),
    PassportElementEmailAddress(PassportElementEmailAddress),
}

impl Wire for PassportElement {
    #[verifier::opaque]
    open spec fn wire(&self) -> Doc {
        match self {
            Self::PassportElementPersonalDetails(p) => p.wire(),
            Self::PassportElementPassport(p) => p.wire(),
            Self::PassportElementDriverLicense(p) => p.wire(),
            Self::PassportElementIdentityCard(p) => p.wire(),
            Self::PassportElementInternalPassport(p) => p.wire(),
            Self::PassportElementAddress(p) => p.wire(),
            Self::PassportElementUtilityBill(p) => p.wire(),
            Self::PassportElementBankStatement(p) => p.wire(),
            Self::PassportElementRentalAgreement(p) => p.wire(),
            Self::PassportElementPassportRegistration(p) => p.wire(),
            Self::PassportElementTemporaryRegistration(p) => p.wire(),
            Self::PassportElementPhoneNumber(p) => p.wire(),
            Self::PassportElementEmailAddress(p) => p.wire(),
        }
    }

    #[verifier::opaque]
    open spec fn parse(d: Doc, at: Seq<char>) -> Result<Doc, Fault> {
        match d {
            Doc::Object(_) => match tag_of(d) {
                Some(t) => if t == "passportElementPersonalDetails"@ {
                    PassportElementPersonalDetails::parse(d, at)
                } else if t == "passportElementPassport"@ {
                    PassportElementPassport::parse(d, at)
                } else if t == "passportElementDriverLicense"@ {
                    PassportElementDriverLicense::parse(d, at)
                } else if t == "passportElementIdentityCard"@ {
                    PassportElementIdentityCard::parse(d, at)
                } else if t == "passportElementInternalPassport"@ {
                    PassportElementInternalPassport::parse(d, at)
                } else if t == "passportElementAddress"@ {
                    PassportElementAddress::parse(d, at)
                } else if t == "passportElementUtilityBill"@ {
                    PassportElementUtilityBill::parse(d, at)
                } else if t == "passportElementBankStatement"@ {
                    PassportElementBankStatement::parse(d, at)
                } else if t == "passportElementRentalAgreement"@ {
                    PassportElementRentalAgreement::parse(d, at)
                } else if t == "passportElementPassportRegistration"@ {
                    PassportElementPassportRegistration::parse(d, at)
                } else if t == "passportElementTemporaryRegistration"@ {
                    PassportElementTemporaryRegistration::parse(d, at)
                } else if t == "passportElementPhoneNumber"@ {
                    PassportElementPhoneNumber::parse(d, at)
                } else if t == "passportElementEmailAddress"@ {
                    PassportElementEmailAddress::parse(d, at)
                } else {
                    Err(Fault::UnknownVariant(t))
                },
                None => Err(Fault::MissingDiscriminator),
            },
            _ => Err(Fault::TypeMismatch(at)),
        }
    }

    fn encode(&self) -> (j: Json) {
        proof {
            reveal(<PassportElement as Wire>::wire);
        }
        match self {
            Self::PassportElementPersonalDetails(p) => p.encode(),
            Self::PassportElementPassport(p) => p.encode(),
            Self::PassportElementDriverLicense(p) => p.encode(),
            Self::PassportElementIdentityCard(p) => p.encode(),
            Self::PassportElementInternalPassport(p) => p.encode(),
            Self::PassportElementAddress(p) => p.encode(),
            Self::PassportElementUtilityBill(p) => p.encode(),
            Self::PassportElementBankStatement(p) => p.encode(),
            Self::PassportElementRentalAgreement(p) => p.encode(),
            Self::PassportElementPassportRegistration(p) => p.encode(),
            Self::PassportElementTemporaryRegistration(p) => p.encode(),
            Self::PassportElementPhoneNumber(p) => p.encode(),
            Self::PassportElementEmailAddress(p) => p.encode(),
        }
    }

    fn decode(j: &Json, at: &str) -> (r: Result<Self, DecodeError>) {
        proof {
            reveal(<PassportElement as Wire>::wire);
            reveal(<PassportElement as Wire>::parse);
        }
        let members = members_of(j, at)?;
        let tag = discriminator(members)?;
        if same_text(tag, "passportElementPersonalDetails") {
            Ok(Self::PassportElementPersonalDetails(PassportElementPersonalDetails::decode(j, at)?))
        } else if same_text(tag, "passportElementPassport") {
            Ok(Self::PassportElementPassport(PassportElementPassport::decode(j, at)?))
        } else if same_text(tag, "passportElementDriverLicense") {
            Ok(Self::PassportElementDriverLicense(PassportElementDriverLicense::decode(j, at)?))
        } else if same_text(tag, "passportElementIdentityCard") {
            Ok(Self::PassportElementIdentityCard(PassportElementIdentityCard::decode(j, at)?))
        } else if same_text(tag, "passportElementInternalPassport") {
            Ok(
                Self::PassportElementInternalPassport(
                    PassportElementInternalPassport::decode(j, at)?,
                ),
            )
        } else if same_text(tag, "passportElementAddress") {
            Ok(Self::PassportElementAddress(PassportElementAddress::decode(j, at)?))
        } else if same_text(tag, "passportElementUtilityBill") {
            Ok(Self::PassportElementUtilityBill(PassportElementUtilityBill::decode(j, at)?))
        } else if same_text(tag, "passportElementBankStatement") {
            Ok(Self::PassportElementBankStatement(PassportElementBankStatement::decode(j, at)?))
        } else if same_text(tag, "passportElementRentalAgreement") {
            Ok(Self::PassportElementRentalAgreement(PassportElementRentalAgreement::decode(j, at)?))
        } else if same_text(tag, "passportElementPassportRegistration") {
            Ok(
                Self::PassportElementPassportRegistration(
                    PassportElementPassportRegistration::decode(j, at)?,
                ),
            )
        } else if same_text(tag, "passportElementTemporaryRegistration") {
            Ok(
                Self::PassportElementTemporaryRegistration(
                    PassportElementTemporaryRegistration::decode(j, at)?,
                ),
            )
        } else if same_text(tag, "passportElementPhoneNumber") {
            Ok(Self::PassportElementPhoneNumber(PassportElementPhoneNumber::decode(j, at)?))
        } else if same_text(tag, "passportElementEmailAddress") {
            Ok(Self::PassportElementEmailAddress(PassportElementEmailAddress::decode(j, at)?))
        } else {
            Err(DecodeError::UnknownVariant(tag.to_owned()))
        }
    }

    proof fn round_trip(&self, at: Seq<char>) {
        reveal(<PassportElement as Wire>::wire);
        reveal(<PassportElement as Wire>::parse);
        reveal_strlit("passportElementAddress");
        reveal_strlit("passportElementBankStatement");
        reveal_strlit("passportElementDriverLicense");
        reveal_strlit("passportElementEmailAddress");
        reveal_strlit("passportElementIdentityCard");
        reveal_strlit("passportElementInternalPassport");
        reveal_strlit("passportElementPassport");
        reveal_strlit("passportElementPassportRegistration");
        reveal_strlit("passportElementPersonalDetails");
        reveal_strlit("passportElementPhoneNumber");
        reveal_strlit("passportElementRentalAgreement");
        reveal_strlit("passportElementTemporaryRegistration");
        reveal_strlit("passportElementUtilityBill");
        assert("passportElementAddress"@.len() == 22);
        assert({
            &&& "passportElementBankStatement"@.len() == 28
            &&& "passportElementBankStatement"@[15] == 'B'
        });
        assert({
            &&& "passportElementDriverLicense"@.len() == 28
            &&& "passportElementDriverLicense"@[15] == 'D'
        });
        assert({
            &&& "passportElementEmailAddress"@.len() == 27
            &&& "passportElementEmailAddress"@[15] == 'E'
        });
        assert({
            &&& "passportElementIdentityCard"@.len() == 27
            &&& "passportElementIdentityCard"@[15] == 'I'
        });
        assert("passportElementInternalPassport"@.len() == 31);
        assert("passportElementPassport"@.len() == 23);
        assert("passportElementPassportRegistration"@.len() == 35);
        assert({
            &&& "passportElementPersonalDetails"@.len() == 30
            &&& "passportElementPersonalDetails"@[15] == 'P'
        });
        assert({
            &&& "passportElementPhoneNumber"@.len() == 26
            &&& "passportElementPhoneNumber"@[15] == 'P'
        });
        assert({
            &&& "passportElementRentalAgreement"@.len() == 30
            &&& "passportElementRentalAgreement"@[15] == 'R'
        });
        assert("passportElementTemporaryRegistration"@.len() == 36);
        assert({
            &&& "passportElementUtilityBill"@.len() == 26
            &&& "passportElementUtilityBill"@[15] == 'U'
        });
        match self {
            Self::PassportElementPersonalDetails(p) => {
                p.tag_known();
                p.round_trip(at);
            },
            Self::PassportElementPassport(p) => {
                p.tag_known();
                p.round_trip(at);
            },
            Self::PassportElementDriverLicense(p) => {
                p.tag_known();
                p.round_trip(at);
            },
            Self::PassportElementIdentityCard(p) => {
                p.tag_known();
                p.round_trip(at);
            },
            Self::PassportElementInternalPassport(p) => {
                p.tag_known();
                p.round_trip(at);
            },
            Self::PassportElementAddress(p) => {
                p.tag_known();
                p.round_trip(at);
            },
            Self::PassportElementUtilityBill(p) => {
                p.tag_known();
                p.round_trip(at);
            },
            Self::PassportElementBankStatement(p) => {
                p.tag_known();
                p.round_trip(at);
            },
            Self::PassportElementRentalAgreement(p) => {
                p.tag_known();
                p.round_trip(at);
            },
            Self::PassportElementPassportRegistration(p) => {
                p.tag_known();
                p.round_trip(at);
            },
            Self::PassportElementTemporaryRegistration(p) => {
                p.tag_known();
                p.round_trip(at);
            },
            Self::PassportElementPhoneNumber(p) => {
                p.tag_known();
                p.round_trip(at);
            },
            Self::PassportElementEmailAddress(p) => {
                p.tag_known();
                p.round_trip(at);
            },
        }
    }
}

impl Tagged for PassportElement {
    open spec fn known(tag: Seq<char>) -> bool {
        ||| tag == "passportElementPersonalDetails"@
        ||| tag == "passportElementPassport"@
        ||| tag == "passportElementDriverLicense"@
        ||| tag == "passportElementIdentityCard"@
        ||| tag == "passportElementInternalPassport"@
        ||| tag == "passportElementAddress"@
        ||| tag == "passportElementUtilityBill"@
        ||| tag == "passportElementBankStatement"@
        ||| tag == "passportElementRentalAgreement"@
        ||| tag == "passportElementPassportRegistration"@
        ||| tag == "passportElementTemporaryRegistration"@
        ||| tag == "passportElementPhoneNumber"@
        ||| tag == "passportElementEmailAddress"@
    }

    fn knows(tag: &str) -> (r: bool) {
        same_text(tag, "passportElementPersonalDetails")
            || same_text(tag, "passportElementPassport")
            || same_text(tag, "passportElementDriverLicense")
            || same_text(tag, "passportElementIdentityCard")
            || same_text(tag, "passportElementInternalPassport")
            || same_text(tag, "passportElementAddress")
            || same_text(tag, "passportElementUtilityBill")
            || same_text(tag, "passportElementBankStatement")
            || same_text(tag, "passportElementRentalAgreement")
            || same_text(tag, "passportElementPassportRegistration")
            || same_text(tag, "passportElementTemporaryRegistration")
            || same_text(tag, "passportElementPhoneNumber")
            || same_text(tag, "passportElementEmailAddress")
    }

    proof fn tag_known(&self) {
        reveal(<PassportElement as Wire>::wire);
        match self {
            Self::PassportElementPersonalDetails(p) => p.tag_known(),
            Self::PassportElementPassport(p) => p.tag_known(),
            Self::PassportElementDriverLicense(p) => p.tag_known(),
            Self::PassportElementIdentityCard(p) => p.tag_known(),
            Self::PassportElementInternalPassport(p) => p.tag_known(),
            Self::PassportElementAddress(p) => p.tag_known(),
            Self::PassportElementUtilityBill(p) => p.tag_known(),
            Self::PassportElementBankStatement(p) => p.tag_known(),
            Self::PassportElementRentalAgreement(p) => p.tag_known(),
            Self::PassportElementPassportRegistration(p) => p.tag_known(),
            Self::PassportElementTemporaryRegistration(p) => p.tag_known(),
            Self::PassportElementPhoneNumber(p) => p.tag_known(),
            Self::PassportElementEmailAddress(p) => p.tag_known(),
        }
    }
}

impl Union for PassportElement {
    proof fn unknown_rejected(d: Doc, at: Seq<char>) {
        reveal(<PassportElement as Wire>::parse);
    }

    proof fn untagged_rejected(d: Doc, at: Seq<char>) {
        reveal(<PassportElement as Wire>::parse);
    }
}

/// A Telegram Passport element to be saved containing the user's personal details
#[derive(Debug, Clone, PartialEq)]
pub struct InputPassportElementPersonalDetails {
    /// Personal details of the user
    pub personal_details: PersonalDetails,
}

impl Wire for InputPassportElementPersonalDetails {
    #[verifier::opaque]
    open spec fn wire(&self) -> Doc {
        tagged(
            Map::empty()
                .insert("personalDetails"@, self.personal_details.wire()),
            "inputPassportElementPersonalDetails"@,
        )
    }

    #[verifier::opaque]
    open spec fn parse(d: Doc, at: Seq<char>) -> Result<Doc, Fault> {
        match d {
            Doc::Object(m) => {
                let personal_details = field::<PersonalDetails>(m, "personalDetails"@);
                if personal_details is Err {
                    personal_details
                } else {
                    Ok(
                        tagged(
                            Map::empty()
                                .insert("personalDetails"@, personal_details->Ok_0),
                            "inputPassportElementPersonalDetails"@,
                        ),
                    )
                }
            },
            _ => Err(Fault::TypeMismatch(at)),
        }
    }

    fn encode(&self) -> (j: Json) {
        proof {
            reveal(<InputPassportElementPersonalDetails as Wire>::wire);
        }
        let mut members: Vec<Member> = Vec::new();
        put(&mut members, "personalDetails", self.personal_details.encode());
        seal(members, "inputPassportElementPersonalDetails")
    }

    fn decode(j: &Json, at: &str) -> (r: Result<Self, DecodeError>) {
        proof {
            reveal(<InputPassportElementPersonalDetails as Wire>::wire);
            reveal(<InputPassportElementPersonalDetails as Wire>::parse);
        }
        let members = members_of(j, at)?;
        let personal_details = read_field::<PersonalDetails>(members, "personalDetails")?;
        Ok(InputPassportElementPersonalDetails { personal_details })
    }

    proof fn round_trip(&self, at: Seq<char>) {
        reveal(<InputPassportElementPersonalDetails as Wire>::wire);
        reveal(<InputPassportElementPersonalDetails as Wire>::parse);
        reveal_strlit("@type");
        reveal_strlit("personalDetails");
        assert("@type"@.len() == 5);
        assert("personalDetails"@.len() == 15);
        self.personal_details.round_trip("personalDetails"@);
    }
}

impl Tagged for InputPassportElementPersonalDetails {
    open spec fn known(tag: Seq<char>) -> bool {
        tag == "inputPassportElementPersonalDetails"@
    }

    fn knows(tag: &str) -> (r: bool) {
        same_text(tag, "inputPassportElementPersonalDetails")
    }

    proof fn tag_known(&self) {
        reveal(<InputPassportElementPersonalDetails as Wire>::wire);
        assert(tag_of(self.wire()) == Some("inputPassportElementPersonalDetails"@));
        assert(Self::known("inputPassportElementPersonalDetails"@));
    }
}

/// A Telegram Passport element to be saved containing the user's passport
#[derive(Debug, Clone, PartialEq)]
pub struct InputPassportElementPassport {
    /// The passport to be saved
    pub passport: InputIdentityDocument,
}

impl Wire for InputPassportElementPassport {
    #[verifier::opaque]
    open spec fn wire(&self) -> Doc {
        tagged(
            Map::empty()
                .insert("passport"@, self.passport.wire()),
            "inputPassportElementPassport"@,
        )
    }

    #[verifier::opaque]
    open spec fn parse(d: Doc, at: Seq<char>) -> Result<Doc, Fault> {
        match d {
            Doc::Object(m) => {
                let passport = field::<InputIdentityDocument>(m, "passport"@);
                if passport is Err {
                    passport
                } else {
                    Ok(
                        tagged(
                            Map::empty()
                                .insert("passport"@, passport->Ok_0),
                            "inputPassportElementPassport"@,
                        ),
                    )
                }
            },
            _ => Err(Fault::TypeMismatch(at)),
        }
    }

    fn encode(&self) -> (j: Json) {
        proof {
            reveal(<InputPassportElementPassport as Wire>::wire);
        }
        let mut members: Vec<Member> = Vec::new();
        put(&mut members, "passport", self.passport.encode());
        seal(members, "inputPassportElementPassport")
    }

    fn decode(j: &Json, at: &str) -> (r: Result<Self, DecodeError>) {
        proof {
            reveal(<InputPassportElementPassport as Wire>::wire);
            reveal(<InputPassportElementPassport as Wire>::parse);
        }
        let members = members_of(j, at)?;
        let passport = read_field::<InputIdentityDocument>(members, "passport")?;
        Ok(InputPassportElementPassport { passport })
    }

    proof fn round_trip(&self, at: Seq<char>) {
        reveal(<InputPassportElementPassport as Wire>::wire);
        reveal(<InputPassportElementPassport as Wire>::parse);
        reveal_strlit("@type");
        reveal_strlit("passport");
        assert("@type"@.len() == 5);
        assert("passport"@.len() == 8);
        self.passport.round_trip("passport"@);
    }
}

impl Tagged for InputPassportElementPassport {
    open spec fn known(tag: Seq<char>) -> bool {
        tag == "inputPassportElementPassport"@
    }

    fn knows(tag: &str) -> (r: bool) {
        same_text(tag, "inputPassportElementPassport")
    }

    proof fn tag_known(&self) {
        reveal(<InputPassportElementPassport as Wire>::wire);
        assert(tag_of(self.wire()) == Some("inputPassportElementPassport"@));
        assert(Self::known("inputPassportElementPassport"@));
    }
}

/// A Telegram Passport element to be saved containing the user's driver license
#[derive(Debug, Clone, PartialEq)]
pub struct InputPassportElementDriverLicense {
    /// The driver license to be saved
    pub driver_license: InputIdentityDocument,
}

impl Wire for InputPassportElementDriverLicense {
    #[verifier::opaque]
    open spec fn wire(&self) -> Doc {
        tagged(
            Map::empty()
                .insert("driverLicense"@, self.driver_license.wire()),
            "inputPassportElementDriverLicense"@,
        )
    }

    #[verifier::opaque]
    open spec fn parse(d: Doc, at: Seq<char>) -> Result<Doc, Fault> {
        match d {
            Doc::Object(m) => {
                let driver_license = field::<InputIdentityDocument>(m, "driverLicense"@);
                if driver_license is Err {
                    driver_license
                } else {
                    Ok(
                        tagged(
                            Map::empty()
                                .insert("driverLicense"@, driver_license->Ok_0),
                            "inputPassportElementDriverLicense"@,
                        ),
                    )
                }
            },
            _ => Err(Fault::TypeMismatch(at)),
        }
    }

    fn encode(&self) -> (j: Json) {
        proof {
            reveal(<InputPassportElementDriverLicense as Wire>::wire);
        }
        let mut members: Vec<Member> = Vec::new();
        put(&mut members, "driverLicense", self.driver_license.encode());
        seal(members, "inputPassportElementDriverLicense")
    }

    fn decode(j: &Json, at: &str) -> (r: Result<Self, DecodeError>) {
        proof {
            reveal(<InputPassportElementDriverLicense as Wire>::wire);
            reveal(<InputPassportElementDriverLicense as Wire>::parse);
        }
        let members = members_of(j, at)?;
        let driver_license = read_field::<InputIdentityDocument>(members, "driverLicense")?;
        Ok(InputPassportElementDriverLicense { driver_license })
    }

    proof fn round_trip(&self, at: Seq<char>) {
        reveal(<InputPassportElementDriverLicense as Wire>::wire);
        reveal(<InputPassportElementDriverLicense as Wire>::parse);
        reveal_strlit("@type");
        reveal_strlit("driverLicense");
        assert("@type"@.len() == 5);
        assert("driverLicense"@.len() == 13);
        self.driver_license.round_trip("driverLicense"@);
    }
}

impl Tagged for InputPassportElementDriverLicense {
    open spec fn known(tag: Seq<char>) -> bool {
        tag == "inputPassportElementDriverLicense"@
    }

    fn knows(tag: &str) -> (r: bool) {
        same_text(tag, "inputPassportElementDriverLicense")
    }

    proof fn tag_known(&self) {
        reveal(<InputPassportElementDriverLicense as Wire>::wire);
        assert(tag_of(self.wire()) == Some("inputPassportElementDriverLicense"@));
        assert(Self::known("inputPassportElementDriverLicense"@));
    }
}

/// A Telegram Passport element to be saved containing the user's identity card
#[derive(Debug, Clone, PartialEq)]
pub struct InputPassportElementIdentityCard {
    /// The identity card to be saved
    pub identity_card: InputIdentityDocument,
}

impl Wire for InputPassportElementIdentityCard {
    #[verifier::opaque]
    open spec fn wire(&self) -> Doc {
        tagged(
            Map::empty()
                .insert("identityCard"@, self.identity_card.wire()),
            "inputPassportElementIdentityCard"@,
        )
    }

    #[verifier::opaque]
    open spec fn parse(d: Doc, at: Seq<char>) -> Result<Doc, Fault> {
        match d {
            Doc::Object(m) => {
                let identity_card = field::<InputIdentityDocument>(m, "identityCard"@);
                if identity_card is Err {
                    identity_card
                } else {
                    Ok(
                        tagged(
                            Map::empty()
                                .insert("identityCard"@, identity_card->Ok_0),
                            "inputPassportElementIdentityCard"@,
                        ),
                    )
                }
            },
            _ => Err(Fault::TypeMismatch(at)),
        }
    }

    fn encode(&self) -> (j: Json) {
        proof {
            reveal(<InputPassportElementIdentityCard as Wire>::wire);
        }
        let mut members: Vec<Member> = Vec::new();
        put(&mut members, "identityCard", self.identity_card.encode());
        seal(members, "inputPassportElementIdentityCard")
    }

    fn decode(j: &Json, at: &str) -> (r: Result<Self, DecodeError>) {
        proof {
            reveal(<InputPassportElementIdentityCard as Wire>::wire);
            reveal(<InputPassportElementIdentityCard as Wire>::parse);
        }
        let members = members_of(j, at)?;
        let identity_card = read_field::<InputIdentityDocument>(members, "identityCard")?;
        Ok(InputPassportElementIdentityCard { identity_card })
    }

    proof fn round_trip(&self, at: Seq<char>) {
        reveal(<InputPassportElementIdentityCard as Wire>::wire);
        reveal(<InputPassportElementIdentityCard as Wire>::parse);
        reveal_strlit("@type");
        reveal_strlit("identityCard");
        assert("@type"@.len() == 5);
        assert("identityCard"@.len() == 12);
        self.identity_card.round_trip("identityCard"@);
    }
}

impl Tagged for InputPassportElementIdentityCard {
    open spec fn known(tag: Seq<char>) -> bool {
        tag == "inputPassportElementIdentityCard"@
    }

    fn knows(tag: &str) -> (r: bool) {
        same_text(tag, "inputPassportElementIdentityCard")
    }

    proof fn tag_known(&self) {
        reveal(<InputPassportElementIdentityCard as Wire>::wire);
        assert(tag_of(self.wire()) == Some("inputPassportElementIdentityCard"@));
        assert(Self::known("inputPassportElementIdentityCard"@));
    }
}

/// A Telegram Passport element to be saved containing the user's internal passport
#[derive(Debug, Clone, PartialEq)]
pub struct InputPassportElementInternalPassport {
    /// The internal passport to be saved
    pub internal_passport: InputIdentityDocument,
}

impl Wire for InputPassportElementInternalPassport {
    #[verifier::opaque]
    open spec fn wire(&self) -> Doc {
        tagged(
            Map::empty()
                .insert("internalPassport"@, self.internal_passport.wire()),
            "inputPassportElementInternalPassport"@,
        )
    }

    #[verifier::opaque]
    open spec fn parse(d: Doc, at: Seq<char>) -> Result<Doc, Fault> {
        match d {
            Doc::Object(m) => {
                let internal_passport = field::<InputIdentityDocument>(m, "internalPassport"@);
                if internal_passport is Err {
                    internal_passport
                } else {
                    Ok(
                        tagged(
                            Map::empty()
                                .insert("internalPassport"@, internal_passport->Ok_0),
                            "inputPassportElementInternalPassport"@,
                        ),
                    )
                }
            },
            _ => Err(Fault::TypeMismatch(at)),
        }
    }

    fn encode(&self) -> (j: Json) {
        proof {
            reveal(<InputPassportElementInternalPassport as Wire>::wire);
        }
        let mut members: Vec<Member> = Vec::new();
        put(&mut members, "internalPassport", self.internal_passport.encode());
        seal(members, "inputPassportElementInternalPassport")
    }

    fn decode(j: &Json, at: &str) -> (r: Result<Self, DecodeError>) {
        proof {
            reveal(<InputPassportElementInternalPassport as Wire>::wire);
            reveal(<InputPassportElementInternalPassport as Wire>::parse);
        }
        let members = members_of(j, at)?;
        let internal_passport = read_field::<InputIdentityDocument>(members, "internalPassport")?;
        Ok(InputPassportElementInternalPassport { internal_passport })
    }

    proof fn round_trip(&self, at: Seq<char>) {
        reveal(<InputPassportElementInternalPassport as Wire>::wire);
        reveal(<InputPassportElementInternalPassport as Wire>::parse);
        reveal_strlit("@type");
        reveal_strlit("internalPassport");
        assert("@type"@.len() == 5);
        assert("internalPassport"@.len() == 16);
        self.internal_passport.round_trip("internalPassport"@);
    }
}

impl Tagged for InputPassportElementInternalPassport {
    open spec fn known(tag: Seq<char>) -> bool {
        tag == "inputPassportElementInternalPassport"@
    }

    fn knows(tag: &str) -> (r: bool) {
        same_text(tag, "inputPassportElementInternalPassport")
    }

    proof fn tag_known(&self) {
        reveal(<InputPassportElementInternalPassport as Wire>::wire);
        assert(tag_of(self.wire()) == Some("inputPassportElementInternalPassport"@));
        assert(Self::known("inputPassportElementInternalPassport"@));
    }
}

/// A Telegram Passport element to be saved containing the user's address
#[derive(Debug, Clone, PartialEq)]
pub struct InputPassportElementAddress {
    /// The address to be saved
    pub address: Address,
}

impl Wire for InputPassportElementAddress {
    #[verifier::opaque]
    open spec fn wire(&self) -> Doc {
        tagged(
            Map::empty()
                .insert("address"@, self.address.wire()),
            "inputPassportElementAddress"@,
        )
    }

    #[verifier::opaque]
    open spec fn parse(d: Doc, at: Seq<char>) -> Result<Doc, Fault> {
        match d {
            Doc::Object(m) => {
                let address = field::<Address>(m, "address"@);
                if address is Err {
                    address
                } else {
                    Ok(
                        tagged(
                            Map::empty()
                                .insert("address"@, address->Ok_0),
                            "inputPassportElementAddress"@,
                        ),
                    )
                }
            },
            _ => Err(Fault::TypeMismatch(at)),
        }
    }

    fn encode(&self) -> (j: Json) {
        proof {
            reveal(<InputPassportElementAddress as Wire>::wire);
        }
        let mut members: Vec<Member> = Vec::new();
        put(&mut members, "address", self.address.encode());
        seal(members, "inputPassportElementAddress")
    }

    fn decode(j: &Json, at: &str) -> (r: Result<Self, DecodeError>) {
        proof {
            reveal(<InputPassportElementAddress as Wire>::wire);
            reveal(<InputPassportElementAddress as Wire>::parse);
        }
        let members = members_of(j, at)?;
        let address = read_field::<Address>(members, "address")?;
        Ok(InputPassportElementAddress { address })
    }

    proof fn round_trip(&self, at: Seq<char>) {
        reveal(<InputPassportElementAddress as Wire>::wire);
        reveal(<InputPassportElementAddress as Wire>::parse);
        reveal_strlit("@type");
        reveal_strlit("address");
        assert("@type"@.len() == 5);
        assert("address"@.len() == 7);
        self.address.round_trip("address"@);
    }
}

impl Tagged for InputPassportElementAddress {
    open spec fn known(tag: Seq<char>) -> bool {
        tag == "inputPassportElementAddress"@
    }

    fn knows(tag: &str) -> (r: bool) {
        same_text(tag, "inputPassportElementAddress")
    }

    proof fn tag_known(&self) {
        reveal(<InputPassportElementAddress as Wire>::wire);
        assert(tag_of(self.wire()) == Some("inputPassportElementAddress"@));
        assert(Self::known("inputPassportElementAddress"@));
    }
}

/// A Telegram Passport element to be saved containing the user's utility bill
#[derive(Debug, Clone, PartialEq)]
pub struct InputPassportElementUtilityBill {
    /// The utility bill to be saved
    pub utility_bill: InputPersonalDocument,
}

impl Wire for InputPassportElementUtilityBill {
    #[verifier::opaque]
    open spec fn wire(&self) -> Doc {
        tagged(
            Map::empty()
                .insert("utilityBill"@, self.utility_bill.wire()),
            "inputPassportElementUtilityBill"@,
        )
    }

    #[verifier::opaque]
    open spec fn parse(d: Doc, at: Seq<char>) -> Result<Doc, Fault> {
        match d {
            Doc::Object(m) => {
                let utility_bill = field::<InputPersonalDocument>(m, "utilityBill"@);
                if utility_bill is Err {
                    utility_bill
                } else {
                    Ok(
                        tagged(
                            Map::empty()
                                .insert("utilityBill"@, utility_bill->Ok_0),
                            "inputPassportElementUtilityBill"@,
                        ),
                    )
                }
            },
            _ => Err(Fault::TypeMismatch(at)),
        }
    }

    fn encode(&self) -> (j: Json) {
        proof {
            reveal(<InputPassportElementUtilityBill as Wire>::wire);
        }
        let mut members: Vec<Member> = Vec::new();
        put(&mut members, "utilityBill", self.utility_bill.encode());
        seal(members, "inputPassportElementUtilityBill")
    }

    fn decode(j: &Json, at: &str) -> (r: Result<Self, DecodeError>) {
        proof {
            reveal(<InputPassportElementUtilityBill as Wire>::wire);
            reveal(<InputPassportElementUtilityBill as Wire>::parse);
        }
        let members = members_of(j, at)?;
        let utility_bill = read_field::<InputPersonalDocument>(members, "utilityBill")?;
        Ok(InputPassportElementUtilityBill { utility_bill })
    }

    proof fn round_trip(&self, at: Seq<char>) {
        reveal(<InputPassportElementUtilityBill as Wire>::wire);
        reveal(<InputPassportElementUtilityBill as Wire>::parse);
        reveal_strlit("@type");
        reveal_strlit("utilityBill");
        assert("@type"@.len() == 5);
        assert("utilityBill"@.len() == 11);
        self.utility_bill.round_trip("utilityBill"@);
    }
}

impl Tagged for InputPassportElementUtilityBill {
    open spec fn known(tag: Seq<char>) -> bool {
        tag == "inputPassportElementUtilityBill"@
    }

    fn knows(tag: &str) -> (r: bool) {
        same_text(tag, "inputPassportElementUtilityBill")
    }

    proof fn tag_known(&self) {
        reveal(<InputPassportElementUtilityBill as Wire>::wire);
        assert(tag_of(self.wire()) == Some("inputPassportElementUtilityBill"@));
        assert(Self::known("inputPassportElementUtilityBill"@));
    }
}

/// A Telegram Passport element to be saved containing the user's bank statement
#[derive(Debug, Clone, PartialEq)]
pub struct InputPassportElementBankStatement {
    /// The bank statement to be saved
    pub bank_statement: InputPersonalDocument,
}

impl Wire for InputPassportElementBankStatement {
    #[verifier::opaque]
    open spec fn wire(&self) -> Doc {
        tagged(
            Map::empty()
                .insert("bankStatement"@, self.bank_statement.wire()),
            "inputPassportElementBankStatement"@,
        )
    }

    #[verifier::opaque]
    open spec fn parse(d: Doc, at: Seq<char>) -> Result<Doc, Fault> {
        match d {
            Doc::Object(m) => {
                let bank_statement = field::<InputPersonalDocument>(m, "bankStatement"@);
                if bank_statement is Err {
                    bank_statement
                } else {
                    Ok(
                        tagged(
                            Map::empty()
                                .insert("bankStatement"@, bank_statement->Ok_0),
                            "inputPassportElementBankStatement"@,
                        ),
                    )
                }
            },
            _ => Err(Fault::TypeMismatch(at)),
        }
    }

    fn encode(&self) -> (j: Json) {
        proof {
            reveal(<InputPassportElementBankStatement as Wire>::wire);
        }
        let mut members: Vec<Member> = Vec::new();
        put(&mut members, "bankStatement", self.bank_statement.encode());
        seal(members, "inputPassportElementBankStatement")
    }

    fn decode(j: &Json, at: &str) -> (r: Result<Self, DecodeError>) {
        proof {
            reveal(<InputPassportElementBankStatement as Wire>::wire);
            reveal(<InputPassportElementBankStatement as Wire>::parse);
        }
        let members = members_of(j, at)?;
        let bank_statement = read_field::<InputPersonalDocument>(members, "bankStatement")?;
        Ok(InputPassportElementBankStatement { bank_statement })
    }

    proof fn round_trip(&self, at: Seq<char>) {
        reveal(<InputPassportElementBankStatement as Wire>::wire);
        reveal(<InputPassportElementBankStatement as Wire>::parse);
        reveal_strlit("@type");
        reveal_strlit("bankStatement");
        assert("@type"@.len() == 5);
        assert("bankStatement"@.len() == 13);
        self.bank_statement.round_trip("bankStatement"@);
    }
}

impl Tagged for InputPassportElementBankStatement {
    open spec fn known(tag: Seq<char>) -> bool {
        tag == "inputPassportElementBankStatement"@
    }

    fn knows(tag: &str) -> (r: bool) {
        same_text(tag, "inputPassportElementBankStatement")
    }

    proof fn tag_known(&self) {
        reveal(<InputPassportElementBankStatement as Wire>::wire);
        assert(tag_of(self.wire()) == Some("inputPassportElementBankStatement"@));
        assert(Self::known("inputPassportElementBankStatement"@));
    }
}

/// A Telegram Passport element to be saved containing the user's rental agreement
#[derive(Debug, Clone, PartialEq)]
pub struct InputPassportElementRentalAgreement {
    /// The rental agreement to be saved
    pub rental_agreement: InputPersonalDocument,
}

impl Wire for InputPassportElementRentalAgreement {
    #[verifier::opaque]
    open spec fn wire(&self) -> Doc {
        tagged(
            Map::empty()
                .insert("rentalAgreement"@, self.rental_agreement.wire()),
            "inputPassportElementRentalAgreement"@,
        )
    }

    #[verifier::opaque]
    open spec fn parse(d: Doc, at: Seq<char>) -> Result<Doc, Fault> {
        match d {
            Doc::Object(m) => {
                let rental_agreement = field::<InputPersonalDocument>(m, "rentalAgreement"@);
                if rental_agreement is Err {
                    rental_agreement
                } else {
                    Ok(
                        tagged(
                            Map::empty()
                                .insert("rentalAgreement"@, rental_agreement->Ok_0),
                            "inputPassportElementRentalAgreement"@,
                        ),
                    )
                }
            },
            _ => Err(Fault::TypeMismatch(at)),
        }
    }

    fn encode(&self) -> (j: Json) {
        proof {
            reveal(<InputPassportElementRentalAgreement as Wire>::wire);
        }
        let mut members: Vec<Member> = Vec::new();
        put(&mut members, "rentalAgreement", self.rental_agreement.encode());
        seal(members, "inputPassportElementRentalAgreement")
    }

    fn decode(j: &Json, at: &str) -> (r: Result<Self, DecodeError>) {
        proof {
            reveal(<InputPassportElementRentalAgreement as Wire>::wire);
            reveal(<InputPassportElementRentalAgreement as Wire>::parse);
        }
        let members = members_of(j, at)?;
        let rental_agreement = read_field::<InputPersonalDocument>(members, "rentalAgreement")?;
        Ok(InputPassportElementRentalAgreement { rental_agreement })
    }

    proof fn round_trip(&self, at: Seq<char>) {
        reveal(<InputPassportElementRentalAgreement as Wire>::wire);
        reveal(<InputPassportElementRentalAgreement as Wire>::parse);
        reveal_strlit("@type");
        reveal_strlit("rentalAgreement");
        assert("@type"@.len() == 5);
        assert("rentalAgreement"@.len() == 15);
        self.rental_agreement.round_trip("rentalAgreement"@);
    }
}

impl Tagged for InputPassportElementRentalAgreement {
    open spec fn known(tag: Seq<char>) -> bool {
        tag == "inputPassportElementRentalAgreement"@
    }

    fn knows(tag: &str) -> (r: bool) {
        same_text(tag, "inputPassportElementRentalAgreement")
    }

    proof fn tag_known(&self) {
        reveal(<InputPassportElementRentalAgreement as Wire>::wire);
        assert(tag_of(self.wire()) == Some("inputPassportElementRentalAgreement"@));
        assert(Self::known("inputPassportElementRentalAgreement"@));
    }
}

/// A Telegram Passport element to be saved containing the user's passport registration
#[derive(Debug, Clone, PartialEq)]
pub struct InputPassportElementPassportRegistration {
    /// The passport registration page to be saved
    pub passport_registration: InputPersonalDocument,
}

impl Wire for InputPassportElementPassportRegistration {
    #[verifier::opaque]
    open spec fn wire(&self) -> Doc {
        tagged(
            Map::empty()
                .insert("passportRegistration"@, self.passport_registration.wire()),
            "inputPassportElementPassportRegistration"@,
        )
    }

    #[verifier::opaque]
    open spec fn parse(d: Doc, at: Seq<char>) -> Result<Doc, Fault> {
        match d {
            Doc::Object(m) => {
                let passport_registration = field::<InputPersonalDocument>(
                    m,
                    "passportRegistration"@,
                );
                if passport_registration is Err {
                    passport_registration
                } else {
                    Ok(
                        tagged(
                            Map::empty()
                                .insert("passportRegistration"@, passport_registration->Ok_0),
                            "inputPassportElementPassportRegistration"@,
                        ),
                    )
                }
            },
            _ => Err(Fault::TypeMismatch(at)),
        }
    }

    fn encode(&self) -> (j: Json) {
        proof {
            reveal(<InputPassportElementPassportRegistration as Wire>::wire);
        }
        let mut members: Vec<Member> = Vec::new();
        put(&mut members, "passportRegistration", self.passport_registration.encode());
        seal(members, "inputPassportElementPassportRegistration")
    }

    fn decode(j: &Json, at: &str) -> (r: Result<Self, DecodeError>) {
        proof {
            reveal(<InputPassportElementPassportRegistration as Wire>::wire);
            reveal(<InputPassportElementPassportRegistration as Wire>::parse);
        }
        let members = members_of(j, at)?;
        let passport_registration = read_field::<InputPersonalDocument>(
            members,
            "passportRegistration",
        )?;
        Ok(InputPassportElementPassportRegistration { passport_registration })
    }

    proof fn round_trip(&self, at: Seq<char>) {
        reveal(<InputPassportElementPassportRegistration as Wire>::wire);
        reveal(<InputPassportElementPassportRegistration as Wire>::parse);
        reveal_strlit("@type");
        reveal_strlit("passportRegistration");
        assert("@type"@.len() == 5);
        assert("passportRegistration"@.len() == 20);
        self.passport_registration.round_trip("passportRegistration"@);
    }
}

impl Tagged for InputPassportElementPassportRegistration {
    open spec fn known(tag: Seq<char>) -> bool {
        tag == "inputPassportElementPassportRegistration"@
    }

    fn knows(tag: &str) -> (r: bool) {
        same_text(tag, "inputPassportElementPassportRegistration")
    }

    proof fn tag_known(&self) {
        reveal(<InputPassportElementPassportRegistration as Wire>::wire);
        assert(tag_of(self.wire()) == Some("inputPassportElementPassportRegistration"@));
        assert(Self::known("inputPassportElementPassportRegistration"@));
    }
}

/// A Telegram Passport element to be saved containing the user's temporary registration
#[derive(Debug, Clone, PartialEq)]
pub struct InputPassportElementTemporaryRegistration {
    /// The temporary registration document to be saved
    pub temporary_registration: InputPersonalDocument,
}

impl Wire for InputPassportElementTemporaryRegistration {
    #[verifier::opaque]
    open spec fn wire(&self) -> Doc {
        tagged(
            Map::empty()
                .insert("temporaryRegistration"@, self.temporary_registration.wire()),
            "inputPassportElementTemporaryRegistration"@,
        )
    }

    #[verifier::opaque]
    open spec fn parse(d: Doc, at: Seq<char>) -> Result<Doc, Fault> {
        match d {
            Doc::Object(m) => {
                let temporary_registration = field::<InputPersonalDocument>(
                    m,
                    "temporaryRegistration"@,
                );
                if temporary_registration is Err {
                    temporary_registration
                } else {
                    Ok(
                        tagged(
                            Map::empty()
                                .insert("temporaryRegistration"@, temporary_registration->Ok_0),
                            "inputPassportElementTemporaryRegistration"@,
                        ),
                    )
                }
            },
            _ => Err(Fault::TypeMismatch(at)),
        }
    }

    fn encode(&self) -> (j: Json) {
        proof {
            reveal(<InputPassportElementTemporaryRegistration as Wire>::wire);
        }
        let mut members: Vec<Member> = Vec::new();
        put(&mut members, "temporaryRegistration", self.temporary_registration.encode());
        seal(members, "inputPassportElementTemporaryRegistration")
    }

    fn decode(j: &Json, at: &str) -> (r: Result<Self, DecodeError>) {
        proof {
            reveal(<InputPassportElementTemporaryRegistration as Wire>::wire);
            reveal(<InputPassportElementTemporaryRegistration as Wire>::parse);
        }
        let members = members_of(j, at)?;
        let temporary_registration = read_field::<InputPersonalDocument>(
            members,
            "temporaryRegistration",
        )?;
        Ok(InputPassportElementTemporaryRegistration { temporary_registration })
    }

    proof fn round_trip(&self, at: Seq<char>) {
        reveal(<InputPassportElementTemporaryRegistration as Wire>::wire);
        reveal(<InputPassportElementTemporaryRegistration as Wire>::parse);
        reveal_strlit("@type");
        reveal_strlit("temporaryRegistration");
        assert("@type"@.len() == 5);
        assert("temporaryRegistration"@.len() == 21);
        self.temporary_registration.round_trip("temporaryRegistration"@);
    }
}

impl Tagged for InputPassportElementTemporaryRegistration {
    open spec fn known(tag: Seq<char>) -> bool {
        tag == "inputPassportElementTemporaryRegistration"@
    }

    fn knows(tag: &str) -> (r: bool) {
        same_text(tag, "inputPassportElementTemporaryRegistration")
    }

    proof fn tag_known(&self) {
        reveal(<InputPassportElementTemporaryRegistration as Wire>::wire);
        assert(tag_of(self.wire()) == Some("inputPassportElementTemporaryRegistration"@));
        assert(Self::known("inputPassportElementTemporaryRegistration"@));
    }
}

/// A Telegram Passport element to be saved containing the user's phone number
#[derive(Debug, Clone, PartialEq)]
pub struct InputPassportElementPhoneNumber {
    /// The phone number to be saved
    pub phone_number: String,
}

impl Wire for InputPassportElementPhoneNumber {
    #[verifier::opaque]
    open spec fn wire(&self) -> Doc {
        tagged(
            Map::empty()
                .insert("phoneNumber"@, self.phone_number.wire()),
            "inputPassportElementPhoneNumber"@,
        )
    }

    #[verifier::opaque]
    open spec fn parse(d: Doc, at: Seq<char>) -> Result<Doc, Fault> {
        match d {
            Doc::Object(m) => {
                let phone_number = field::<String>(m, "phoneNumber"@);
                if phone_number is Err {
                    phone_number
                } else {
                    Ok(
                        tagged(
                            Map::empty()
                                .insert("phoneNumber"@, phone_number->Ok_0),
                            "inputPassportElementPhoneNumber"@,
                        ),
                    )
                }
            },
            _ => Err(Fault::TypeMismatch(at)),
        }
    }

    fn encode(&self) -> (j: Json) {
        proof {
            reveal(<InputPassportElementPhoneNumber as Wire>::wire);
        }
        let mut members: Vec<Member> = Vec::new();
        put(&mut members, "phoneNumber", self.phone_number.encode());
        seal(members, "inputPassportElementPhoneNumber")
    }

    fn decode(j: &Json, at: &str) -> (r: Result<Self, DecodeError>) {
        proof {
            reveal(<InputPassportElementPhoneNumber as Wire>::wire);
            reveal(<InputPassportElementPhoneNumber as Wire>::parse);
        }
        let members = members_of(j, at)?;
        let phone_number = read_field::<String>(members, "phoneNumber")?;
        Ok(InputPassportElementPhoneNumber { phone_number })
    }

    proof fn round_trip(&self, at: Seq<char>) {
        reveal(<InputPassportElementPhoneNumber as Wire>::wire);
        reveal(<InputPassportElementPhoneNumber as Wire>::parse);
        reveal_strlit("@type");
        reveal_strlit("phoneNumber");
        assert("@type"@.len() == 5);
        assert("phoneNumber"@.len() == 11);
        self.phone_number.round_trip("phoneNumber"@);
    }
}

impl Tagged for InputPassportElementPhoneNumber {
    open spec fn known(tag: Seq<char>) -> bool {
        tag == "inputPassportElementPhoneNumber"@
    }

    fn knows(tag: &str) -> (r: bool) {
        same_text(tag, "inputPassportElementPhoneNumber")
    }

    proof fn tag_known(&self) {
        reveal(<InputPassportElementPhoneNumber as Wire>::wire);
        assert(tag_of(self.wire()) == Some("inputPassportElementPhoneNumber"@));
        assert(Self::known("inputPassportElementPhoneNumber"@));
    }
}

/// A Telegram Passport element to be saved containing the user's email address
#[derive(Debug, Clone, PartialEq)]
pub struct InputPassportElementEmailAddress {
    /// The email address to be saved
    pub email_address: String,
}

impl Wire for InputPassportElementEmailAddress {
    #[verifier::opaque]
    open spec fn wire(&self) -> Doc {
        tagged(
            Map::empty()
                .insert("emailAddress"@, self.email_address.wire()),
            "inputPassportElementEmailAddress"@,
        )
    }

    #[verifier::opaque]
    open spec fn parse(d: Doc, at: Seq<char>) -> Result<Doc, Fault> {
        match d {
            Doc::Object(m) => {
                let email_address = field::<String>(m, "emailAddress"@);
                if email_address is Err {
                    email_address
                } else {
                    Ok(
                        tagged(
                            Map::empty()
                                .insert("emailAddress"@, email_address->Ok_0),
                            "inputPassportElementEmailAddress"@,
                        ),
                    )
                }
            },
            _ => Err(Fault::TypeMismatch(at)),
        }
    }

    fn encode(&self) -> (j: Json) {
        proof {
            reveal(<InputPassportElementEmailAddress as Wire>::wire);
        }
        let mut members: Vec<Member> = Vec::new();
        put(&mut members, "emailAddress", self.email_address.encode());
        seal(members, "inputPassportElementEmailAddress")
    }

    fn decode(j: &Json, at: &str) -> (r: Result<Self, DecodeError>) {
        proof {
            reveal(<InputPassportElementEmailAddress as Wire>::wire);
            reveal(<InputPassportElementEmailAddress as Wire>::parse);
        }
        let members = members_of(j, at)?;
        let email_address = read_field::<String>(members, "emailAddress")?;
        Ok(InputPassportElementEmailAddress { email_address })
    }

    proof fn round_trip(&self, at: Seq<char>) {
        reveal(<InputPassportElementEmailAddress as Wire>::wire);
        reveal(<InputPassportElementEmailAddress as Wire>::parse);
        reveal_strlit("@type");
        reveal_strlit("emailAddress");
        assert("@type"@.len() == 5);
        assert("emailAddress"@.len() == 12);
        self.email_address.round_trip("emailAddress"@);
    }
}

impl Tagged for InputPassportElementEmailAddress {
    open spec fn known(tag: Seq<char>) -> bool {
        tag == "inputPassportElementEmailAddress"@
    }

    fn knows(tag: &str) -> (r: bool) {
        same_text(tag, "inputPassportElementEmailAddress")
    }

    proof fn tag_known(&self) {
        reveal(<InputPassportElementEmailAddress as Wire>::wire);
        assert(tag_of(self.wire()) == Some("inputPassportElementEmailAddress"@));
        assert(Self::known("inputPassportElementEmailAddress"@));
    }
}

/// Contains information about a Telegram Passport element to be saved
#[derive(Debug, Clone, PartialEq)]
pub enum InputPassportElement {
    InputPassportElementPersonalDetails(InputPassportElementPersonalDetails),
    InputPassportElementPassport(InputPassportElementPassport),
    InputPassportElementDriverLicense(InputPassportElementDriverLicense),
    InputPassportElementIdentityCard(InputPassportElementIdentityCard),
    InputPassportElementInternalPassport(InputPassportElementInternalPassport),
    InputPassportElementAddress(InputPassportElementAddress),
    InputPassportElementUtilityBill(InputPassportElementUtilityBill),
    InputPassportElementBankStatement(InputPassportElementBankStatement),
    InputPassportElementRentalAgreement(InputPassportElementRentalAgreement),
    InputPassportElementPassportRegistration(InputPassportElementPassportRegistration),
    InputPassportElementTemporaryRegistration(InputPassportElementTemporaryRegistration),
    InputPassportElementPhoneNumber(InputPassportElementPhoneNumber),
    InputPassportElementEmailAddress(InputPassportElementEmailAddress),
}

impl Wire for InputPassportElement {
    #[verifier::opaque]
    open spec fn wire(&self) -> Doc {
        match self {
            Self::InputPassportElementPersonalDetails(p) => p.wire(),
            Self::InputPassportElementPassport(p) => p.wire(),
            Self::InputPassportElementDriverLicense(p) => p.wire(),
            Self::InputPassportElementIdentityCard(p) => p.wire(),
            Self::InputPassportElementInternalPassport(p) => p.wire(),
            Self::InputPassportElementAddress(p) => p.wire(),
            Self::InputPassportElementUtilityBill(p) => p.wire(),
            Self::InputPassportElementBankStatement(p) => p.wire(),
            Self::InputPassportElementRentalAgreement(p) => p.wire(),
            Self::InputPassportElementPassportRegistration(p) => p.wire(),
            Self::InputPassportElementTemporaryRegistration(p) => p.wire(),
            Self::InputPassportElementPhoneNumber(p) => p.wire(),
            Self::InputPassportElementEmailAddress(p) => p.wire(),
        }
    }

    #[verifier::opaque]
    open spec fn parse(d: Doc, at: Seq<char>) -> Result<Doc, Fault> {
        match d {
            Doc::Object(_) => match tag_of(d) {
                Some(t) => if t == "inputPassportElementPersonalDetails"@ {
                    InputPassportElementPersonalDetails::parse(d, at)
                } else if t == "inputPassportElementPassport"@ {
                    InputPassportElementPassport::parse(d, at)
                } else if t == "inputPassportElementDriverLicense"@ {
                    InputPassportElementDriverLicense::parse(d, at)
                } else if t == "inputPassportElementIdentityCard"@ {
                    InputPassportElementIdentityCard::parse(d, at)
                } else if t == "inputPassportElementInternalPassport"@ {
                    InputPassportElementInternalPassport::parse(d, at)
                } else if t == "inputPassportElementAddress"@ {
                    InputPassportElementAddress::parse(d, at)
                } else if t == "inputPassportElementUtilityBill"@ {
                    InputPassportElementUtilityBill::parse(d, at)
                } else if t == "inputPassportElementBankStatement"@ {
                    InputPassportElementBankStatement::parse(d, at)
                } else if t == "inputPassportElementRentalAgreement"@ {
                    InputPassportElementRentalAgreement::parse(d, at)
                } else if t == "inputPassportElementPassportRegistration"@ {
                    InputPassportElementPassportRegistration::parse(d, at)
                } else if t == "inputPassportElementTemporaryRegistration"@ {
                    InputPassportElementTemporaryRegistration::parse(d, at)
                } else if t == "inputPassportElementPhoneNumber"@ {
                    InputPassportElementPhoneNumber::parse(d, at)
                } else if t == "inputPassportElementEmailAddress"@ {
                    InputPassportElementEmailAddress::parse(d, at)
                } else {
                    Err(Fault::UnknownVariant(t))
                },
                None => Err(Fault::MissingDiscriminator),
            },
            _ => Err(Fault::TypeMismatch(at)),
        }
    }

    fn encode(&self) -> (j: Json) {
        proof {
            reveal(<InputPassportElement as Wire>::wire);
        }
        match self {
            Self::InputPassportElementPersonalDetails(p) => p.encode(),
            Self::InputPassportElementPassport(p) => p.encode(),
            Self::InputPassportElementDriverLicense(p) => p.encode(),
            Self::InputPassportElementIdentityCard(p) => p.encode(),
            Self::InputPassportElementInternalPassport(p) => p.encode(),
            Self::InputPassportElementAddress(p) => p.encode(),
            Self::InputPassportElementUtilityBill(p) => p.encode(),
            Self::InputPassportElementBankStatement(p) => p.encode(),
            Self::InputPassportElementRentalAgreement(p) => p.encode(),
            Self::InputPassportElementPassportRegistration(p) => p.encode(),
            Self::InputPassportElementTemporaryRegistration(p) => p.encode(),
            Self::InputPassportElementPhoneNumber(p) => p.encode(),
            Self::InputPassportElementEmailAddress(p) => p.encode(),
        }
    }

    fn decode(j: &Json, at: &str) -> (r: Result<Self, DecodeError>) {
        proof {
            reveal(<InputPassportElement as Wire>::wire);
            reveal(<InputPassportElement as Wire>::parse);
        }
        let members = members_of(j, at)?;
        let tag = discriminator(members)?;
        if same_text(tag, "inputPassportElementPersonalDetails") {
            Ok(
                Self::InputPassportElementPersonalDetails(
                    InputPassportElementPersonalDetails::decode(j, at)?,
                ),
            )
        } else if same_text(tag, "inputPassportElementPassport") {
            Ok(Self::InputPassportElementPassport(InputPassportElementPassport::decode(j, at)?))
        } else if same_text(tag, "inputPassportElementDriverLicense") {
            Ok(
                Self::InputPassportElementDriverLicense(
                    InputPassportElementDriverLicense::decode(j, at)?,
                ),
            )
        } else if same_text(tag, "inputPassportElementIdentityCard") {
            Ok(
                Self::InputPassportElementIdentityCard(
                    InputPassportElementIdentityCard::decode(j, at)?,
                ),
            )
        } else if same_text(tag, "inputPassportElementInternalPassport") {
            Ok(
                Self::InputPassportElementInternalPassport(
                    InputPassportElementInternalPassport::decode(j, at)?,
                ),
            )
        } else if same_text(tag, "inputPassportElementAddress") {
            Ok(Self::InputPassportElementAddress(InputPassportElementAddress::decode(j, at)?))
        } else if same_text(tag, "inputPassportElementUtilityBill") {
            Ok(
                Self::InputPassportElementUtilityBill(
                    InputPassportElementUtilityBill::decode(j, at)?,
                ),
            )
        } else if same_text(tag, "inputPassportElementBankStatement") {
            Ok(
                Self::InputPassportElementBankStatement(
                    InputPassportElementBankStatement::decode(j, at)?,
                ),
            )
        } else if same_text(tag, "inputPassportElementRentalAgreement") {
            Ok(
                Self::InputPassportElementRentalAgreement(
                    InputPassportElementRentalAgreement::decode(j, at)?,
                ),
            )
        } else if same_text(tag, "inputPassportElementPassportRegistration") {
            Ok(
                Self::InputPassportElementPassportRegistration(
                    InputPassportElementPassportRegistration::decode(j, at)?,
                ),
            )
        } else if same_text(tag, "inputPassportElementTemporaryRegistration") {
            Ok(
                Self::InputPassportElementTemporaryRegistration(
                    InputPassportElementTemporaryRegistration::decode(j, at)?,
                ),
            )
        } else if same_text(tag, "inputPassportElementPhoneNumber") {
            Ok(
                Self::InputPassportElementPhoneNumber(
                    InputPassportElementPhoneNumber::decode(j, at)?,
                ),
            )
        } else if same_text(tag, "inputPassportElementEmailAddress") {
            Ok(
                Self::InputPassportElementEmailAddress(
                    InputPassportElementEmailAddress::decode(j, at)?,
                ),
            )
        } else {
            Err(DecodeError::UnknownVariant(tag.to_owned()))
        }
    }

    proof fn round_trip(&self, at: Seq<char>) {
        reveal(<InputPassportElement as Wire>::wire);
        reveal(<InputPassportElement as Wire>::parse);
        reveal_strlit("inputPassportElementAddress");
        reveal_strlit("inputPassportElementBankStatement");
        reveal_strlit("inputPassportElementDriverLicense");
        reveal_strlit("inputPassportElementEmailAddress");
        reveal_strlit("inputPassportElementIdentityCard");
        reveal_strlit("inputPassportElementInternalPassport");
        reveal_strlit("inputPassportElementPassport");
        reveal_strlit("inputPassportElementPassportRegistration");
        reveal_strlit("inputPassportElementPersonalDetails");
        reveal_strlit("inputPassportElementPhoneNumber");
        reveal_strlit("inputPassportElementRentalAgreement");
        reveal_strlit("inputPassportElementTemporaryRegistration");
        reveal_strlit("inputPassportElementUtilityBill");
        assert("inputPassportElementAddress"@.len() == 27);
        assert({
            &&& "inputPassportElementBankStatement"@.len() == 33
            &&& "inputPassportElementBankStatement"@[20] == 'B'
        });
        assert({
            &&& "inputPassportElementDriverLicense"@.len() == 33
            &&& "inputPassportElementDriverLicense"@[20] == 'D'
        });
        assert({
            &&& "inputPassportElementEmailAddress"@.len() == 32
            &&& "inputPassportElementEmailAddress"@[20] == 'E'
        });
        assert({
            &&& "inputPassportElementIdentityCard"@.len() == 32
            &&& "inputPassportElementIdentityCard"@[20] == 'I'
        });
        assert("inputPassportElementInternalPassport"@.len() == 36);
        assert("inputPassportElementPassport"@.len() == 28);
        assert("inputPassportElementPassportRegistration"@.len() == 40);
        assert({
            &&& "inputPassportElementPersonalDetails"@.len() == 35
            &&& "inputPassportElementPersonalDetails"@[20] == 'P'
        });
        assert({
            &&& "inputPassportElementPhoneNumber"@.len() == 31
            &&& "inputPassportElementPhoneNumber"@[20] == 'P'
        });
        assert({
            &&& "inputPassportElementRentalAgreement"@.len() == 35
            &&& "inputPassportElementRentalAgreement"@[20] == 'R'
        });
        assert("inputPassportElementTemporaryRegistration"@.len() == 41);
        assert({
            &&& "inputPassportElementUtilityBill"@.len() == 31
            &&& "inputPassportElementUtilityBill"@[20] == 'U'
        });
        match self {
            Self::InputPassportElementPersonalDetails(p) => {
                p.tag_known();
                p.round_trip(at);
            },
            Self::InputPassportElementPassport(p) => {
                p.tag_known();
                p.round_trip(at);
            },
            Self::InputPassportElementDriverLicense(p) => {
                p.tag_known();
                p.round_trip(at);
            },
            Self::InputPassportElementIdentityCard(p) => {
                p.tag_known();
                p.round_trip(at);
            },
            Self::InputPassportElementInternalPassport(p) => {
                p.tag_known();
                p.round_trip(at);
            },
            Self::InputPassportElementAddress(p) => {
                p.tag_known();
                p.round_trip(at);
            },
            Self::InputPassportElementUtilityBill(p) => {
                p.tag_known();
                p.round_trip(at);
            },
            Self::InputPassportElementBankStatement(p) => {
                p.tag_known();
                p.round_trip(at);
            },
            Self::InputPassportElementRentalAgreement(p) => {
                p.tag_known();
                p.round_trip(at);
            },
            Self::InputPassportElementPassportRegistration(p) => {
                p.tag_known();
                p.round_trip(at);
            },
            Self::InputPassportElementTemporaryRegistration(p) => {
                p.tag_known();
                p.round_trip(at);
            },
            Self::InputPassportElementPhoneNumber(p) => {
                p.tag_known();
                p.round_trip(at);
            },
            Self::InputPassportElementEmailAddress(p) => {
                p.tag_known();
                p.round_trip(at);
            },
        }
    }
}

impl Tagged for InputPassportElement {
    open spec fn known(tag: Seq<char>) -> bool {
        ||| tag == "inputPassportElementPersonalDetails"@
        ||| tag == "inputPassportElementPassport"@
        ||| tag == "inputPassportElementDriverLicense"@
        ||| tag == "inputPassportElementIdentityCard"@
        ||| tag == "inputPassportElementInternalPassport"@
        ||| tag == "inputPassportElementAddress"@
        ||| tag == "inputPassportElementUtilityBill"@
        ||| tag == "inputPassportElementBankStatement"@
        ||| tag == "inputPassportElementRentalAgreement"@
        ||| tag == "inputPassportElementPassportRegistration"@
        ||| tag == "inputPassportElementTemporaryRegistration"@
        ||| tag == "inputPassportElementPhoneNumber"@
        ||| tag == "inputPassportElementEmailAddress"@
    }

    fn knows(tag: &str) -> (r: bool) {
        same_text(tag, "inputPassportElementPersonalDetails")
            || same_text(tag, "inputPassportElementPassport")
            || same_text(tag, "inputPassportElementDriverLicense")
            || same_text(tag, "inputPassportElementIdentityCard")
            || same_text(tag, "inputPassportElementInternalPassport")
            || same_text(tag, "inputPassportElementAddress")
            || same_text(tag, "inputPassportElementUtilityBill")
            || same_text(tag, "inputPassportElementBankStatement")
            || same_text(tag, "inputPassportElementRentalAgreement")
            || same_text(tag, "inputPassportElementPassportRegistration")
            || same_text(tag, "inputPassportElementTemporaryRegistration")
            || same_text(tag, "inputPassportElementPhoneNumber")
            || same_text(tag, "inputPassportElementEmailAddress")
    }

    proof fn tag_known(&self) {
        reveal(<InputPassportElement as Wire>::wire);
        match self {
            Self::InputPassportElementPersonalDetails(p) => p.tag_known(),
            Self::InputPassportElementPassport(p) => p.tag_known(),
            Self::InputPassportElementDriverLicense(p) => p.tag_known(),
            Self::InputPassportElementIdentityCard(p) => p.tag_known(),
            Self::InputPassportElementInternalPassport(p) => p.tag_known(),
            Self::InputPassportElementAddress(p) => p.tag_known(),
            Self::InputPassportElementUtilityBill(p) => p.tag_known(),
            Self::InputPassportElementBankStatement(p) => p.tag_known(),
            Self::InputPassportElementRentalAgreement(p) => p.tag_known(),
            Self::InputPassportElementPassportRegistration(p) => p.tag_known(),
            Self::InputPassportElementTemporaryRegistration(p) => p.tag_known(),
            Self::InputPassportElementPhoneNumber(p) => p.tag_known(),
            Self::InputPassportElementEmailAddress(p) => p.tag_known(),
        }
    }
}

impl Union for InputPassportElement {
    proof fn unknown_rejected(d: Doc, at: Seq<char>) {
        reveal(<InputPassportElement as Wire>::parse);
    }

    proof fn untagged_rejected(d: Doc, at: Seq<char>) {
        reveal(<InputPassportElement as Wire>::parse);
    }
}

/// Contains information about saved Telegram Passport elements
#[derive(Debug, Clone, PartialEq)]
pub struct PassportElements {
    /// Telegram Passport elements
    pub elements: Vec<PassportElement>,
}

impl Wire for PassportElements {
    #[verifier::opaque]
    open spec fn wire(&self) -> Doc {
        tagged(
            Map::empty()
                .insert("elements"@, self.elements.wire()),
            "passportElements"@,
        )
    }

    #[verifier::opaque]
    open spec fn parse(d: Doc, at: Seq<char>) -> Result<Doc, Fault> {
        match d {
            Doc::Object(m) => {
                let elements = field::<Vec<PassportElement>>(m, "elements"@);
                if elements is Err {
                    elements
                } else {
                    Ok(
                        tagged(
                            Map::empty()
                                .insert("elements"@, elements->Ok_0),
                            "passportElements"@,
                        ),
                    )
                }
            },
            _ => Err(Fault::TypeMismatch(at)),
        }
    }

    fn encode(&self) -> (j: Json) {
        proof {
            reveal(<PassportElements as Wire>::wire);
        }
        let mut members: Vec<Member> = Vec::new();
        put(&mut members, "elements", self.elements.encode());
        seal(members, "passportElements")
    }

    fn decode(j: &Json, at: &str) -> (r: Result<Self, DecodeError>) {
        proof {
            reveal(<PassportElements as Wire>::wire);
            reveal(<PassportElements as Wire>::parse);
        }
        let members = members_of(j, at)?;
        let elements = read_field::<Vec<PassportElement>>(members, "elements")?;
        Ok(PassportElements { elements })
    }

    proof fn round_trip(&self, at: Seq<char>) {
        reveal(<PassportElements as Wire>::wire);
        reveal(<PassportElements as Wire>::parse);
        reveal_strlit("@type");
        reveal_strlit("elements");
        assert("@type"@.len() == 5);
        assert("elements"@.len() == 8);
        self.elements.round_trip("elements"@);
    }
}

impl Tagged for PassportElements {
    open spec fn known(tag: Seq<char>) -> bool {
        tag == "passportElements"@
    }

    fn knows(tag: &str) -> (r: bool) {
        same_text(tag, "passportElements")
    }

    proof fn tag_known(&self) {
        reveal(<PassportElements as Wire>::wire);
        assert(tag_of(self.wire()) == Some("passportElements"@));
        assert(Self::known("passportElements"@));
    }
}

/// The element contains an error in an unspecified place. The error will be considered resolved
/// when new data is added
#[derive(Debug, Clone, PartialEq)]
pub struct PassportElementErrorSourceUnspecified {}

impl Wire for PassportElementErrorSourceUnspecified {
    #[verifier::opaque]
    open spec fn wire(&self) -> Doc {
        tagged(Map::empty(), "passportElementErrorSourceUnspecified"@)
    }

    #[verifier::opaque]
    open spec fn parse(d: Doc, at: Seq<char>) -> Result<Doc, Fault> {
        match d {
            Doc::Object(_) => Ok(tagged(Map::empty(), "passportElementErrorSourceUnspecified"@)),
            _ => Err(Fault::TypeMismatch(at)),
        }
    }

    fn encode(&self) -> (j: Json) {
        proof {
            reveal(<PassportElementErrorSourceUnspecified as Wire>::wire);
        }
        seal(Vec::new(), "passportElementErrorSourceUnspecified")
    }

    fn decode(j: &Json, at: &str) -> (r: Result<Self, DecodeError>) {
        proof {
            reveal(<PassportElementErrorSourceUnspecified as Wire>::wire);
            reveal(<PassportElementErrorSourceUnspecified as Wire>::parse);
        }
        let _ = members_of(j, at)?;
        Ok(PassportElementErrorSourceUnspecified {})
    }

    proof fn round_trip(&self, at: Seq<char>) {
        reveal(<PassportElementErrorSourceUnspecified as Wire>::wire);
        reveal(<PassportElementErrorSourceUnspecified as Wire>::parse);
    }
}

impl Tagged for PassportElementErrorSourceUnspecified {
    open spec fn known(tag: Seq<char>) -> bool {
        tag == "passportElementErrorSourceUnspecified"@
    }

    fn knows(tag: &str) -> (r: bool) {
        same_text(tag, "passportElementErrorSourceUnspecified")
    }

    proof fn tag_known(&self) {
        reveal(<PassportElementErrorSourceUnspecified as Wire>::wire);
        assert(tag_of(self.wire()) == Some("passportElementErrorSourceUnspecified"@));
        assert(Self::known("passportElementErrorSourceUnspecified"@));
    }
}

/// One of the data fields contains an error. The error will be considered resolved when the value
/// of the field changes
#[derive(Debug, Clone, PartialEq)]
pub struct PassportElementErrorSourceDataField {
    /// Field name
    pub field_name: String,
}

impl Wire for PassportElementErrorSourceDataField {
    #[verifier::opaque]
    open spec fn wire(&self) -> Doc {
        tagged(
            Map::empty()
                .insert("fieldName"@, self.field_name.wire()),
            "passportElementErrorSourceDataField"@,
        )
    }

    #[verifier::opaque]
    open spec fn parse(d: Doc, at: Seq<char>) -> Result<Doc, Fault> {
        match d {
            Doc::Object(m) => {
                let field_name = field::<String>(m, "fieldName"@);
                if field_name is Err {
                    field_name
                } else {
                    Ok(
                        tagged(
                            Map::empty()
                                .insert("fieldName"@, field_name->Ok_0),
                            "passportElementErrorSourceDataField"@,
                        ),
                    )
                }
            },
            _ => Err(Fault::TypeMismatch(at)),
        }
    }

    fn encode(&self) -> (j: Json) {
        proof {
            reveal(<PassportElementErrorSourceDataField as Wire>::wire);
        }
        let mut members: Vec<Member> = Vec::new();
        put(&mut members, "fieldName", self.field_name.encode());
        seal(members, "passportElementErrorSourceDataField")
    }

    fn decode(j: &Json, at: &str) -> (r: Result<Self, DecodeError>) {
        proof {
            reveal(<PassportElementErrorSourceDataField as Wire>::wire);
            reveal(<PassportElementErrorSourceDataField as Wire>::parse);
        }
        let members = members_of(j, at)?;
        let field_name = read_field::<String>(members, "fieldName")?;
        Ok(PassportElementErrorSourceDataField { field_name })
    }

    proof fn round_trip(&self, at: Seq<char>) {
        reveal(<PassportElementErrorSourceDataField as Wire>::wire);
        reveal(<PassportElementErrorSourceDataField as Wire>::parse);
        reveal_strlit("@type");
        reveal_strlit("fieldName");
        assert("@type"@.len() == 5);
        assert("fieldName"@.len() == 9);
        self.field_name.round_trip("fieldName"@);
    }
}

impl Tagged for PassportElementErrorSourceDataField {
    open spec fn known(tag: Seq<char>) -> bool {
        tag == "passportElementErrorSourceDataField"@
    }

    fn knows(tag: &str) -> (r: bool) {
        same_text(tag, "passportElementErrorSourceDataField")
    }

    proof fn tag_known(&self) {
        reveal(<PassportElementErrorSourceDataField as Wire>::wire);
        assert(tag_of(self.wire()) == Some("passportElementErrorSourceDataField"@));
        assert(Self::known("passportElementErrorSourceDataField"@));
    }
}

/// The front side of the document contains an error. The error will be considered resolved when the
/// file with the front side changes
#[derive(Debug, Clone, PartialEq)]
pub struct PassportElementErrorSourceFrontSide {}

impl Wire for PassportElementErrorSourceFrontSide {
    #[verifier::opaque]
    open spec fn wire(&self) -> Doc {
        tagged(Map::empty(), "passportElementErrorSourceFrontSide"@)
    }

    #[verifier::opaque]
    open spec fn parse(d: Doc, at: Seq<char>) -> Result<Doc, Fault> {
        match d {
            Doc::Object(_) => Ok(tagged(Map::empty(), "passportElementErrorSourceFrontSide"@)),
            _ => Err(Fault::TypeMismatch(at)),
        }
    }

    fn encode(&self) -> (j: Json) {
        proof {
            reveal(<PassportElementErrorSourceFrontSide as Wire>::wire);
        }
        seal(Vec::new(), "passportElementErrorSourceFrontSide")
    }

    fn decode(j: &Json, at: &str) -> (r: Result<Self, DecodeError>) {
        proof {
            reveal(<PassportElementErrorSourceFrontSide as Wire>::wire);
            reveal(<PassportElementErrorSourceFrontSide as Wire>::parse);
        }
        let _ = members_of(j, at)?;
        Ok(PassportElementErrorSourceFrontSide {})
    }

    proof fn round_trip(&self, at: Seq<char>) {
        reveal(<PassportElementErrorSourceFrontSide as Wire>::wire);
        reveal(<PassportElementErrorSourceFrontSide as Wire>::parse);
    }
}

impl Tagged for PassportElementErrorSourceFrontSide {
    open spec fn known(tag: Seq<char>) -> bool {
        tag == "passportElementErrorSourceFrontSide"@
    }

    fn knows(tag: &str) -> (r: bool) {
        same_text(tag, "passportElementErrorSourceFrontSide")
    }

    proof fn tag_known(&self) {
        reveal(<PassportElementErrorSourceFrontSide as Wire>::wire);
        assert(tag_of(self.wire()) == Some("passportElementErrorSourceFrontSide"@));
        assert(Self::known("passportElementErrorSourceFrontSide"@));
    }
}

/// The reverse side of the document contains an error. The error will be considered resolved when
/// the file with the reverse side changes
#[derive(Debug, Clone, PartialEq)]
pub struct PassportElementErrorSourceReverseSide {}

impl Wire for PassportElementErrorSourceReverseSide {
    #[verifier::opaque]
    open spec fn wire(&self) -> Doc {
        tagged(Map::empty(), "passportElementErrorSourceReverseSide"@)
    }

    #[verifier::opaque]
    open spec fn parse(d: Doc, at: Seq<char>) -> Result<Doc, Fault> {
        match d {
            Doc::Object(_) => Ok(tagged(Map::empty(), "passportElementErrorSourceReverseSide"@)),
            _ => Err(Fault::TypeMismatch(at)),
        }
    }

    fn encode(&self) -> (j: Json) {
        proof {
            reveal(<PassportElementErrorSourceReverseSide as Wire>::wire);
        }
        seal(Vec::new(), "passportElementErrorSourceReverseSide")
    }

    fn decode(j: &Json, at: &str) -> (r: Result<Self, DecodeError>) {
        proof {
            reveal(<PassportElementErrorSourceReverseSide as Wire>::wire);
            reveal(<PassportElementErrorSourceReverseSide as Wire>::parse);
        }
        let _ = members_of(j, at)?;
        Ok(PassportElementErrorSourceReverseSide {})
    }

    proof fn round_trip(&self, at: Seq<char>) {
        reveal(<PassportElementErrorSourceReverseSide as Wire>::wire);
        reveal(<PassportElementErrorSourceReverseSide as Wire>::parse);
    }
}

impl Tagged for PassportElementErrorSourceReverseSide {
    open spec fn known(tag: Seq<char>) -> bool {
        tag == "passportElementErrorSourceReverseSide"@
    }

    fn knows(tag: &str) -> (r: bool) {
        same_text(tag, "passportElementErrorSourceReverseSide")
    }

    proof fn tag_known(&self) {
        reveal(<PassportElementErrorSourceReverseSide as Wire>::wire);
        assert(tag_of(self.wire()) == Some("passportElementErrorSourceReverseSide"@));
        assert(Self::known("passportElementErrorSourceReverseSide"@));
    }
}

/// The selfie with the document contains an error. The error will be considered resolved when the
/// file with the selfie changes
#[derive(Debug, Clone, PartialEq)]
pub struct PassportElementErrorSourceSelfie {}

impl Wire for PassportElementErrorSourceSelfie {
    #[verifier::opaque]
    open spec fn wire(&self) -> Doc {
        tagged(Map::empty(), "passportElementErrorSourceSelfie"@)
    }

    #[verifier::opaque]
    open spec fn parse(d: Doc, at: Seq<char>) -> Result<Doc, Fault> {
        match d {
            Doc::Object(_) => Ok(tagged(Map::empty(), "passportElementErrorSourceSelfie"@)),
            _ => Err(Fault::TypeMismatch(at)),
        }
    }

    fn encode(&self) -> (j: Json) {
        proof {
            reveal(<PassportElementErrorSourceSelfie as Wire>::wire);
        }
        seal(Vec::new(), "passportElementErrorSourceSelfie")
    }

    fn decode(j: &Json, at: &str) -> (r: Result<Self, DecodeError>) {
        proof {
            reveal(<PassportElementErrorSourceSelfie as Wire>::wire);
            reveal(<PassportElementErrorSourceSelfie as Wire>::parse);
        }
        let _ = members_of(j, at)?;
        Ok(PassportElementErrorSourceSelfie {})
    }

    proof fn round_trip(&self, at: Seq<char>) {
        reveal(<PassportElementErrorSourceSelfie as Wire>::wire);
        reveal(<PassportElementErrorSourceSelfie as Wire>::parse);
    }
}

impl Tagged for PassportElementErrorSourceSelfie {
    open spec fn known(tag: Seq<char>) -> bool {
        tag == "passportElementErrorSourceSelfie"@
    }

    fn knows(tag: &str) -> (r: bool) {
        same_text(tag, "passportElementErrorSourceSelfie")
    }

    proof fn tag_known(&self) {
        reveal(<PassportElementErrorSourceSelfie as Wire>::wire);
        assert(tag_of(self.wire()) == Some("passportElementErrorSourceSelfie"@));
        assert(Self::known("passportElementErrorSourceSelfie"@));
    }
}

/// One of files with the translation of the document contains an error. The error will be
/// considered resolved when the file changes
#[derive(Debug, Clone, PartialEq)]
pub struct PassportElementErrorSourceTranslationFile {
    /// Index of a file with the error
    pub file_index: i32,
}

impl Wire for PassportElementErrorSourceTranslationFile {
    #[verifier::opaque]
    open spec fn wire(&self) -> Doc {
        tagged(
            Map::empty()
                .insert("fileIndex"@, self.file_index.wire()),
            "passportElementErrorSourceTranslationFile"@,
        )
    }

    #[verifier::opaque]
    open spec fn parse(d: Doc, at: Seq<char>) -> Result<Doc, Fault> {
        match d {
            Doc::Object(m) => {
                let file_index = field::<i32>(m, "fileIndex"@);
                if file_index is Err {
                    file_index
                } else {
                    Ok(
                        tagged(
                            Map::empty()
                                .insert("fileIndex"@, file_index->Ok_0),
                            "passportElementErrorSourceTranslationFile"@,
                        ),
                    )
                }
            },
            _ => Err(Fault::TypeMismatch(at)),
        }
    }

    fn encode(&self) -> (j: Json) {
        proof {
            reveal(<PassportElementErrorSourceTranslationFile as Wire>::wire);
        }
        let mut members: Vec<Member> = Vec::new();
        put(&mut members, "fileIndex", self.file_index.encode());
        seal(members, "passportElementErrorSourceTranslationFile")
    }

    fn decode(j: &Json, at: &str) -> (r: Result<Self, DecodeError>) {
        proof {
            reveal(<PassportElementErrorSourceTranslationFile as Wire>::wire);
            reveal(<PassportElementErrorSourceTranslationFile as Wire>::parse);
        }
        let members = members_of(j, at)?;
        let file_index = read_field::<i32>(members, "fileIndex")?;
        Ok(PassportElementErrorSourceTranslationFile { file_index })
    }

    proof fn round_trip(&self, at: Seq<char>) {
        reveal(<PassportElementErrorSourceTranslationFile as Wire>::wire);
        reveal(<PassportElementErrorSourceTranslationFile as Wire>::parse);
        reveal_strlit("@type");
        reveal_strlit("fileIndex");
        assert("@type"@.len() == 5);
        assert("fileIndex"@.len() == 9);
        self.file_index.round_trip("fileIndex"@);
    }
}

impl Tagged for PassportElementErrorSourceTranslationFile {
    open spec fn known(tag: Seq<char>) -> bool {
        tag == "passportElementErrorSourceTranslationFile"@
    }

    fn knows(tag: &str) -> (r: bool) {
        same_text(tag, "passportElementErrorSourceTranslationFile")
    }

    proof fn tag_known(&self) {
        reveal(<PassportElementErrorSourceTranslationFile as Wire>::wire);
        assert(tag_of(self.wire()) == Some("passportElementErrorSourceTranslationFile"@));
        assert(Self::known("passportElementErrorSourceTranslationFile"@));
    }
}

/// The translation of the document contains an error. The error will be considered resolved when
/// the list of translation files changes
#[derive(Debug, Clone, PartialEq)]
pub struct PassportElementErrorSourceTranslationFiles {}

impl Wire for PassportElementErrorSourceTranslationFiles {
    #[verifier::opaque]
    open spec fn wire(&self) -> Doc {
        tagged(Map::empty(), "passportElementErrorSourceTranslationFiles"@)
    }

    #[verifier::opaque]
    open spec fn parse(d: Doc, at: Seq<char>) -> Result<Doc, Fault> {
        match d {
            Doc::Object(
                _) => Ok(tagged(Map::empty(),
                "passportElementErrorSourceTranslationFiles"@),
            ),
            _ => Err(Fault::TypeMismatch(at)),
        }
    }

    fn encode(&self) -> (j: Json) {
        proof {
            reveal(<PassportElementErrorSourceTranslationFiles as Wire>::wire);
        }
        seal(Vec::new(), "passportElementErrorSourceTranslationFiles")
    }

    fn decode(j: &Json, at: &str) -> (r: Result<Self, DecodeError>) {
        proof {
            reveal(<PassportElementErrorSourceTranslationFiles as Wire>::wire);
            reveal(<PassportElementErrorSourceTranslationFiles as Wire>::parse);
        }
        let _ = members_of(j, at)?;
        Ok(PassportElementErrorSourceTranslationFiles {})
    }

    proof fn round_trip(&self, at: Seq<char>) {
        reveal(<PassportElementErrorSourceTranslationFiles as Wire>::wire);
        reveal(<PassportElementErrorSourceTranslationFiles as Wire>::parse);
    }
}

impl Tagged for PassportElementErrorSourceTranslationFiles {
    open spec fn known(tag: Seq<char>) -> bool {
        tag == "passportElementErrorSourceTranslationFiles"@
    }

    fn knows(tag: &str) -> (r: bool) {
        same_text(tag, "passportElementErrorSourceTranslationFiles")
    }

    proof fn tag_known(&self) {
        reveal(<PassportElementErrorSourceTranslationFiles as Wire>::wire);
        assert(tag_of(self.wire()) == Some("passportElementErrorSourceTranslationFiles"@));
        assert(Self::known("passportElementErrorSourceTranslationFiles"@));
    }
}

/// The file contains an error. The error will be considered resolved when the file changes
#[derive(Debug, Clone, PartialEq)]
pub struct PassportElementErrorSourceFile {
    /// Index of a file with the error
    pub file_index: i32,
}

impl Wire for PassportElementErrorSourceFile {
    #[verifier::opaque]
    open spec fn wire(&self) -> Doc {
        tagged(
            Map::empty()
                .insert("fileIndex"@, self.file_index.wire()),
            "passportElementErrorSourceFile"@,
        )
    }

    #[verifier::opaque]
    open spec fn parse(d: Doc, at: Seq<char>) -> Result<Doc, Fault> {
        match d {
            Doc::Object(m) => {
                let file_index = field::<i32>(m, "fileIndex"@);
                if file_index is Err {
                    file_index
                } else {
                    Ok(
                        tagged(
                            Map::empty()
                                .insert("fileIndex"@, file_index->Ok_0),
                            "passportElementErrorSourceFile"@,
                        ),
                    )
                }
            },
            _ => Err(Fault::TypeMismatch(at)),
        }
    }

    fn encode(&self) -> (j: Json) {
        proof {
            reveal(<PassportElementErrorSourceFile as Wire>::wire);
        }
        let mut members: Vec<Member> = Vec::new();
        put(&mut members, "fileIndex", self.file_index.encode());
        seal(members, "passportElementErrorSourceFile")
    }

    fn decode(j: &Json, at: &str) -> (r: Result<Self, DecodeError>) {
        proof {
            reveal(<PassportElementErrorSourceFile as Wire>::wire);
            reveal(<PassportElementErrorSourceFile as Wire>::parse);
        }
        let members = members_of(j, at)?;
        let file_index = read_field::<i32>(members, "fileIndex")?;
        Ok(PassportElementErrorSourceFile { file_index })
    }

    proof fn round_trip(&self, at: Seq<char>) {
        reveal(<PassportElementErrorSourceFile as Wire>::wire);
        reveal(<PassportElementErrorSourceFile as Wire>::parse);
        reveal_strlit("@type");
        reveal_strlit("fileIndex");
        assert("@type"@.len() == 5);
        assert("fileIndex"@.len() == 9);
        self.file_index.round_trip("fileIndex"@);
    }
}

impl Tagged for PassportElementErrorSourceFile {
    open spec fn known(tag: Seq<char>) -> bool {
        tag == "passportElementErrorSourceFile"@
    }

    fn knows(tag: &str) -> (r: bool) {
        same_text(tag, "passportElementErrorSourceFile")
    }

    proof fn tag_known(&self) {
        reveal(<PassportElementErrorSourceFile as Wire>::wire);
        assert(tag_of(self.wire()) == Some("passportElementErrorSourceFile"@));
        assert(Self::known("passportElementErrorSourceFile"@));
    }
}

/// The list of attached files contains an error. The error will be considered resolved when the
/// list of files changes
#[derive(Debug, Clone, PartialEq)]
pub struct PassportElementErrorSourceFiles {}

impl Wire for PassportElementErrorSourceFiles {
    #[verifier::opaque]
    open spec fn wire(&self) -> Doc {
        tagged(Map::empty(), "passportElementErrorSourceFiles"@)
    }

    #[verifier::opaque]
    open spec fn parse(d: Doc, at: Seq<char>) -> Result<Doc, Fault> {
        match d {
            Doc::Object(_) => Ok(tagged(Map::empty(), "passportElementErrorSourceFiles"@)),
            _ => Err(Fault::TypeMismatch(at)),
        }
    }

    fn encode(&self) -> (j: Json) {
        proof {
            reveal(<PassportElementErrorSourceFiles as Wire>::wire);
        }
        seal(Vec::new(), "passportElementErrorSourceFiles")
    }

    fn decode(j: &Json, at: &str) -> (r: Result<Self, DecodeError>) {
        proof {
            reveal(<PassportElementErrorSourceFiles as Wire>::wire);
            reveal(<PassportElementErrorSourceFiles as Wire>::parse);
        }
        let _ = members_of(j, at)?;
        Ok(PassportElementErrorSourceFiles {})
    }

    proof fn round_trip(&self, at: Seq<char>) {
        reveal(<PassportElementErrorSourceFiles as Wire>::wire);
        reveal(<PassportElementErrorSourceFiles as Wire>::parse);
    }
}

impl Tagged for PassportElementErrorSourceFiles {
    open spec fn known(tag: Seq<char>) -> bool {
        tag == "passportElementErrorSourceFiles"@
    }

    fn knows(tag: &str) -> (r: bool) {
        same_text(tag, "passportElementErrorSourceFiles")
    }

    proof fn tag_known(&self) {
        reveal(<PassportElementErrorSourceFiles as Wire>::wire);
        assert(tag_of(self.wire()) == Some("passportElementErrorSourceFiles"@));
        assert(Self::known("passportElementErrorSourceFiles"@));
    }
}

/// Contains the description of an error in a Telegram Passport element
#[derive(Debug, Clone, PartialEq)]
pub enum PassportElementErrorSource {
    PassportElementErrorSourceUnspecified(PassportElementErrorSourceUnspecified),
    PassportElementErrorSourceDataField(PassportElementErrorSourceDataField),
    PassportElementErrorSourceFrontSide(PassportElementErrorSourceFrontSide),
    PassportElementErrorSourceReverseSide(PassportElementErrorSourceReverseSide),
    PassportElementErrorSourceSelfie(PassportElementErrorSourceSelfie),
    PassportElementErrorSourceTranslationFile(PassportElementErrorSourceTranslationFile),
    PassportElementErrorSourceTranslationFiles(PassportElementErrorSourceTranslationFiles),
    PassportElementErrorSourceFile(PassportElementErrorSourceFile),
    PassportElementErrorSourceFiles(PassportElementErrorSourceFiles),
}

impl Wire for PassportElementErrorSource {
    #[verifier::opaque]
    open spec fn wire(&self) -> Doc {
        match self {
            Self::PassportElementErrorSourceUnspecified(p) => p.wire(),
            Self::PassportElementErrorSourceDataField(p) => p.wire(),
            Self::PassportElementErrorSourceFrontSide(p) => p.wire(),
            Self::PassportElementErrorSourceReverseSide(p) => p.wire(),
            Self::PassportElementErrorSourceSelfie(p) => p.wire(),
            Self::PassportElementErrorSourceTranslationFile(p) => p.wire(),
            Self::PassportElementErrorSourceTranslationFiles(p) => p.wire(),
            Self::PassportElementErrorSourceFile(p) => p.wire(),
            Self::PassportElementErrorSourceFiles(p) => p.wire(),
        }
    }

    #[verifier::opaque]
    open spec fn parse(d: Doc, at: Seq<char>) -> Result<Doc, Fault> {
        match d {
            Doc::Object(_) => match tag_of(d) {
                Some(t) => if t == "passportElementErrorSourceUnspecified"@ {
                    PassportElementErrorSourceUnspecified::parse(d, at)
                } else if t == "passportElementErrorSourceDataField"@ {
                    PassportElementErrorSourceDataField::parse(d, at)
                } else if t == "passportElementErrorSourceFrontSide"@ {
                    PassportElementErrorSourceFrontSide::parse(d, at)
                } else if t == "passportElementErrorSourceReverseSide"@ {
                    PassportElementErrorSourceReverseSide::parse(d, at)
                } else if t == "passportElementErrorSourceSelfie"@ {
                    PassportElementErrorSourceSelfie::parse(d, at)
                } else if t == "passportElementErrorSourceTranslationFile"@ {
                    PassportElementErrorSourceTranslationFile::parse(d, at)
                } else if t == "passportElementErrorSourceTranslationFiles"@ {
                    PassportElementErrorSourceTranslationFiles::parse(d, at)
                } else if t == "passportElementErrorSourceFile"@ {
                    PassportElementErrorSourceFile::parse(d, at)
                } else if t == "passportElementErrorSourceFiles"@ {
                    PassportElementErrorSourceFiles::parse(d, at)
                } else {
                    Err(Fault::UnknownVariant(t))
                },
                None => Err(Fault::MissingDiscriminator),
            },
            _ => Err(Fault::TypeMismatch(at)),
        }
    }

    fn encode(&self) -> (j: Json) {
        proof {
            reveal(<PassportElementErrorSource as Wire>::wire);
        }
        match self {
            Self::PassportElementErrorSourceUnspecified(p) => p.encode(),
            Self::PassportElementErrorSourceDataField(p) => p.encode(),
            Self::PassportElementErrorSourceFrontSide(p) => p.encode(),
            Self::PassportElementErrorSourceReverseSide(p) => p.encode(),
            Self::PassportElementErrorSourceSelfie(p) => p.encode(),
            Self::PassportElementErrorSourceTranslationFile(p) => p.encode(),
            Self::PassportElementErrorSourceTranslationFiles(p) => p.encode(),
            Self::PassportElementErrorSourceFile(p) => p.encode(),
            Self::PassportElementErrorSourceFiles(p) => p.encode(),
        }
    }

    fn decode(j: &Json, at: &str) -> (r: Result<Self, DecodeError>) {
        proof {
            reveal(<PassportElementErrorSource as Wire>::wire);
            reveal(<PassportElementErrorSource as Wire>::parse);
        }
        let members = members_of(j, at)?;
        let tag = discriminator(members)?;
        if same_text(tag, "passportElementErrorSourceUnspecified") {
            Ok(
                Self::PassportElementErrorSourceUnspecified(
                    PassportElementErrorSourceUnspecified::decode(j, at)?,
                ),
            )
        } else if same_text(tag, "passportElementErrorSourceDataField") {
            Ok(
                Self::PassportElementErrorSourceDataField(
                    PassportElementErrorSourceDataField::decode(j, at)?,
                ),
            )
        } else if same_text(tag, "passportElementErrorSourceFrontSide") {
            Ok(
                Self::PassportElementErrorSourceFrontSide(
                    PassportElementErrorSourceFrontSide::decode(j, at)?,
                ),
            )
        } else if same_text(tag, "passportElementErrorSourceReverseSide") {
            Ok(
                Self::PassportElementErrorSourceReverseSide(
                    PassportElementErrorSourceReverseSide::decode(j, at)?,
                ),
            )
        } else if same_text(tag, "passportElementErrorSourceSelfie") {
            Ok(
                Self::PassportElementErrorSourceSelfie(
                    PassportElementErrorSourceSelfie::decode(j, at)?,
                ),
            )
        } else if same_text(tag, "passportElementErrorSourceTranslationFile") {
            Ok(
                Self::PassportElementErrorSourceTranslationFile(
                    PassportElementErrorSourceTranslationFile::decode(j, at)?,
                ),
            )
        } else if same_text(tag, "passportElementErrorSourceTranslationFiles") {
            Ok(
                Self::PassportElementErrorSourceTranslationFiles(
                    PassportElementErrorSourceTranslationFiles::decode(j, at)?,
                ),
            )
        } else if same_text(tag, "passportElementErrorSourceFile") {
            Ok(Self::PassportElementErrorSourceFile(PassportElementErrorSourceFile::decode(j, at)?))
        } else if same_text(tag, "passportElementErrorSourceFiles") {
            Ok(
                Self::PassportElementErrorSourceFiles(
                    PassportElementErrorSourceFiles::decode(j, at)?,
                ),
            )
        } else {
            Err(DecodeError::UnknownVariant(tag.to_owned()))
        }
    }

    proof fn round_trip(&self, at: Seq<char>) {
        reveal(<PassportElementErrorSource as Wire>::wire);
        reveal(<PassportElementErrorSource as Wire>::parse);
        reveal_strlit("passportElementErrorSourceDataField");
        reveal_strlit("passportElementErrorSourceFile");
        reveal_strlit("passportElementErrorSourceFiles");
        reveal_strlit("passportElementErrorSourceFrontSide");
        reveal_strlit("passportElementErrorSourceReverseSide");
        reveal_strlit("passportElementErrorSourceSelfie");
        reveal_strlit("passportElementErrorSourceTranslationFile");
        reveal_strlit("passportElementErrorSourceTranslationFiles");
        reveal_strlit("passportElementErrorSourceUnspecified");
        assert({
            &&& "passportElementErrorSourceDataField"@.len() == 35
            &&& "passportElementErrorSourceDataField"@[26] == 'D'
        });
        assert("passportElementErrorSourceFile"@.len() == 30);
        assert("passportElementErrorSourceFiles"@.len() == 31);
        assert({
            &&& "passportElementErrorSourceFrontSide"@.len() == 35
            &&& "passportElementErrorSourceFrontSide"@[26] == 'F'
        });
        assert({
            &&& "passportElementErrorSourceReverseSide"@.len() == 37
            &&& "passportElementErrorSourceReverseSide"@[26] == 'R'
        });
        assert("passportElementErrorSourceSelfie"@.len() == 32);
        assert("passportElementErrorSourceTranslationFile"@.len() == 41);
        assert("passportElementErrorSourceTranslationFiles"@.len() == 42);
        assert({
            &&& "passportElementErrorSourceUnspecified"@.len() == 37
            &&& "passportElementErrorSourceUnspecified"@[26] == 'U'
        });
        match self {
            Self::PassportElementErrorSourceUnspecified(p) => {
                p.tag_known();
                p.round_trip(at);
            },
            Self::PassportElementErrorSourceDataField(p) => {
                p.tag_known();
                p.round_trip(at);
            },
            Self::PassportElementErrorSourceFrontSide(p) => {
                p.tag_known();
                p.round_trip(at);
            },
            Self::PassportElementErrorSourceReverseSide(p) => {
                p.tag_known();
                p.round_trip(at);
            },
            Self::PassportElementErrorSourceSelfie(p) => {
                p.tag_known();
                p.round_trip(at);
            },
            Self::PassportElementErrorSourceTranslationFile(p) => {
                p.tag_known();
                p.round_trip(at);
            },
            Self::PassportElementErrorSourceTranslationFiles(p) => {
                p.tag_known();
                p.round_trip(at);
            },
            Self::PassportElementErrorSourceFile(p) => {
                p.tag_known();
                p.round_trip(at);
            },
            Self::PassportElementErrorSourceFiles(p) => {
                p.tag_known();
                p.round_trip(at);
            },
        }
    }
}

impl Tagged for PassportElementErrorSource {
    open spec fn known(tag: Seq<char>) -> bool {
        ||| tag == "passportElementErrorSourceUnspecified"@
        ||| tag == "passportElementErrorSourceDataField"@
        ||| tag == "passportElementErrorSourceFrontSide"@
        ||| tag == "passportElementErrorSourceReverseSide"@
        ||| tag == "passportElementErrorSourceSelfie"@
        ||| tag == "passportElementErrorSourceTranslationFile"@
        ||| tag == "passportElementErrorSourceTranslationFiles"@
        ||| tag == "passportElementErrorSourceFile"@
        ||| tag == "passportElementErrorSourceFiles"@
    }

    fn knows(tag: &str) -> (r: bool) {
        same_text(tag, "passportElementErrorSourceUnspecified")
            || same_text(tag, "passportElementErrorSourceDataField")
            || same_text(tag, "passportElementErrorSourceFrontSide")
            || same_text(tag, "passportElementErrorSourceReverseSide")
            || same_text(tag, "passportElementErrorSourceSelfie")
            || same_text(tag, "passportElementErrorSourceTranslationFile")
            || same_text(tag, "passportElementErrorSourceTranslationFiles")
            || same_text(tag, "passportElementErrorSourceFile")
            || same_text(tag, "passportElementErrorSourceFiles")
    }

    proof fn tag_known(&self) {
        reveal(<PassportElementErrorSource as Wire>::wire);
        match self {
            Self::PassportElementErrorSourceUnspecified(p) => p.tag_known(),
            Self::PassportElementErrorSourceDataField(p) => p.tag_known(),
            Self::PassportElementErrorSourceFrontSide(p) => p.tag_known(),
            Self::PassportElementErrorSourceReverseSide(p) => p.tag_known(),
            Self::PassportElementErrorSourceSelfie(p) => p.tag_known(),
            Self::PassportElementErrorSourceTranslationFile(p) => p.tag_known(),
            Self::PassportElementErrorSourceTranslationFiles(p) => p.tag_known(),
            Self::PassportElementErrorSourceFile(p) => p.tag_known(),
            Self::PassportElementErrorSourceFiles(p) => p.tag_known(),
        }
    }
}

impl Union for PassportElementErrorSource {
    proof fn unknown_rejected(d: Doc, at: Seq<char>) {
        reveal(<PassportElementErrorSource as Wire>::parse);
    }

    proof fn untagged_rejected(d: Doc, at: Seq<char>) {
        reveal(<PassportElementErrorSource as Wire>::parse);
    }
}

/// Contains the description of an error in a Telegram Passport element
#[derive(Debug, Clone, PartialEq)]
pub struct PassportElementError {
    /// Type of the Telegram Passport element which has the error
    pub type_: PassportElementType,
    /// Error message
    pub message: String,
    /// Error source
    pub source: PassportElementErrorSource,
}

impl Wire for PassportElementError {
    #[verifier::opaque]
    open spec fn wire(&self) -> Doc {
        tagged(
            Map::empty()
                .insert("type"@, self.type_.wire())
                .insert("message"@, self.message.wire())
                .insert("source"@, self.source.wire()),
            "passportElementError"@,
        )
    }

    #[verifier::opaque]
    open spec fn parse(d: Doc, at: Seq<char>) -> Result<Doc, Fault> {
        match d {
            Doc::Object(m) => {
                let type_ = field::<PassportElementType>(m, "type"@);
                let message = field::<String>(m, "message"@);
                let source = field::<PassportElementErrorSource>(m, "source"@);
                if type_ is Err {
                    type_
                } else if message is Err {
                    message
                } else if source is Err {
                    source
                } else {
                    Ok(
                        tagged(
                            Map::empty()
                                .insert("type"@, type_->Ok_0)
                                .insert("message"@, message->Ok_0)
                                .insert("source"@, source->Ok_0),
                            "passportElementError"@,
                        ),
                    )
                }
            },
            _ => Err(Fault::TypeMismatch(at)),
        }
    }

    fn encode(&self) -> (j: Json) {
        proof {
            reveal(<PassportElementError as Wire>::wire);
        }
        let mut members: Vec<Member> = Vec::new();
        put(&mut members, "type", self.type_.encode());
        put(&mut members, "message", self.message.encode());
        put(&mut members, "source", self.source.encode());
        seal(members, "passportElementError")
    }

    fn decode(j: &Json, at: &str) -> (r: Result<Self, DecodeError>) {
        proof {
            reveal(<PassportElementError as Wire>::wire);
            reveal(<PassportElementError as Wire>::parse);
        }
        let members = members_of(j, at)?;
        let type_ = read_field::<PassportElementType>(members, "type")?;
        let message = read_field::<String>(members, "message")?;
        let source = read_field::<PassportElementErrorSource>(members, "source")?;
        Ok(PassportElementError { type_, message, source })
    }

    proof fn round_trip(&self, at: Seq<char>) {
        reveal(<PassportElementError as Wire>::wire);
        reveal(<PassportElementError as Wire>::parse);
        reveal_strlit("@type");
        reveal_strlit("message");
        reveal_strlit("source");
        reveal_strlit("type");
        assert("@type"@.len() == 5);
        assert("message"@.len() == 7);
        assert("source"@.len() == 6);
        assert("type"@.len() == 4);
        self.type_.round_trip("type"@);
        self.message.round_trip("message"@);
        self.source.round_trip("source"@);
    }
}

impl Tagged for PassportElementError {
    open spec fn known(tag: Seq<char>) -> bool {
        tag == "passportElementError"@
    }

    fn knows(tag: &str) -> (r: bool) {
        same_text(tag, "passportElementError")
    }

    proof fn tag_known(&self) {
        reveal(<PassportElementError as Wire>::wire);
        assert(tag_of(self.wire()) == Some("passportElementError"@));
        assert(Self::known("passportElementError"@));
    }
}

/// Contains information about a Telegram Passport element that was requested by a service
#[derive(Debug, Clone, PartialEq)]
pub struct PassportSuitableElement {
    /// Type of the element
    pub type_: PassportElementType,
    /// True, if a selfie is required with the identity document
    pub is_selfie_required: bool,
    /// True, if a certified English translation is required with the document
    pub is_translation_required: bool,
    /// True, if personal details must include the user's name in the language of their country of
    /// residence
    pub is_native_name_required: bool,
}

impl Wire for PassportSuitableElement {
    #[verifier::opaque]
    open spec fn wire(&self) -> Doc {
        tagged(
            Map::empty()
                .insert("type"@, self.type_.wire())
                .insert("isSelfieRequired"@, self.is_selfie_required.wire())
                .insert("isTranslationRequired"@, self.is_translation_required.wire())
                .insert("isNativeNameRequired"@, self.is_native_name_required.wire()),
            "passportSuitableElement"@,
        )
    }

    #[verifier::opaque]
    open spec fn parse(d: Doc, at: Seq<char>) -> Result<Doc, Fault> {
        match d {
            Doc::Object(m) => {
                let type_ = field::<PassportElementType>(m, "type"@);
                let is_selfie_required = field::<bool>(m, "isSelfieRequired"@);
                let is_translation_required = field::<bool>(m, "isTranslationRequired"@);
                let is_native_name_required = field::<bool>(m, "isNativeNameRequired"@);
                if type_ is Err {
                    type_
                } else if is_selfie_required is Err {
                    is_selfie_required
                } else if is_translation_required is Err {
                    is_translation_required
                } else if is_native_name_required is Err {
                    is_native_name_required
                } else {
                    Ok(
                        tagged(
                            Map::empty()
                                .insert("type"@, type_->Ok_0)
                                .insert("isSelfieRequired"@, is_selfie_required->Ok_0)
                                .insert("isTranslationRequired"@, is_translation_required->Ok_0)
                                .insert("isNativeNameRequired"@, is_native_name_required->Ok_0),
                            "passportSuitableElement"@,
                        ),
                    )
                }
            },
            _ => Err(Fault::TypeMismatch(at)),
        }
    }

    fn encode(&self) -> (j: Json) {
        proof {
            reveal(<PassportSuitableElement as Wire>::wire);
        }
        let mut members: Vec<Member> = Vec::new();
        put(&mut members, "type", self.type_.encode());
        put(&mut members, "isSelfieRequired", self.is_selfie_required.encode());
        put(&mut members, "isTranslationRequired", self.is_translation_required.encode());
        put(&mut members, "isNativeNameRequired", self.is_native_name_required.encode());
        seal(members, "passportSuitableElement")
    }

    fn decode(j: &Json, at: &str) -> (r: Result<Self, DecodeError>) {
        proof {
            reveal(<PassportSuitableElement as Wire>::wire);
            reveal(<PassportSuitableElement as Wire>::parse);
        }
        let members = members_of(j, at)?;
        let type_ = read_field::<PassportElementType>(members, "type")?;
        let is_selfie_required = read_field::<bool>(members, "isSelfieRequired")?;
        let is_translation_required = read_field::<bool>(members, "isTranslationRequired")?;
        let is_native_name_required = read_field::<bool>(members, "isNativeNameRequired")?;
        Ok(PassportSuitableElement {
            type_,
            is_selfie_required,
            is_translation_required,
            is_native_name_required,
        })
    }

    proof fn round_trip(&self, at: Seq<char>) {
        reveal(<PassportSuitableElement as Wire>::wire);
        reveal(<PassportSuitableElement as Wire>::parse);
        reveal_strlit("@type");
        reveal_strlit("isNativeNameRequired");
        reveal_strlit("isSelfieRequired");
        reveal_strlit("isTranslationRequired");
        reveal_strlit("type");
        assert("@type"@.len() == 5);
        assert("isNativeNameRequired"@.len() == 20);
        assert("isSelfieRequired"@.len() == 16);
        assert("isTranslationRequired"@.len() == 21);
        assert("type"@.len() == 4);
        self.type_.round_trip("type"@);
        self.is_selfie_required.round_trip("isSelfieRequired"@);
        self.is_translation_required.round_trip("isTranslationRequired"@);
        self.is_native_name_required.round_trip("isNativeNameRequired"@);
    }
}

impl Tagged for PassportSuitableElement {
    open spec fn known(tag: Seq<char>) -> bool {
        tag == "passportSuitableElement"@
    }

    fn knows(tag: &str) -> (r: bool) {
        same_text(tag, "passportSuitableElement")
    }

    proof fn tag_known(&self) {
        reveal(<PassportSuitableElement as Wire>::wire);
        assert(tag_of(self.wire()) == Some("passportSuitableElement"@));
        assert(Self::known("passportSuitableElement"@));
    }
}

/// Contains a description of the required Telegram Passport element that was requested by a service
#[derive(Debug, Clone, PartialEq)]
pub struct PassportRequiredElement {
    /// List of Telegram Passport elements any of which is enough to provide
    pub suitable_elements: Vec<PassportSuitableElement>,
}

impl Wire for PassportRequiredElement {
    #[verifier::opaque]
    open spec fn wire(&self) -> Doc {
        tagged(
            Map::empty()
                .insert("suitableElements"@, self.suitable_elements.wire()),
            "passportRequiredElement"@,
        )
    }

    #[verifier::opaque]
    open spec fn parse(d: Doc, at: Seq<char>) -> Result<Doc, Fault> {
        match d {
            Doc::Object(m) => {
                let suitable_elements = field::<Vec<PassportSuitableElement>>(
                    m,
                    "suitableElements"@,
                );
                if suitable_elements is Err {
                    suitable_elements
                } else {
                    Ok(
                        tagged(
                            Map::empty()
                                .insert("suitableElements"@, suitable_elements->Ok_0),
                            "passportRequiredElement"@,
                        ),
                    )
                }
            },
            _ => Err(Fault::TypeMismatch(at)),
        }
    }

    fn encode(&self) -> (j: Json) {
        proof {
            reveal(<PassportRequiredElement as Wire>::wire);
        }
        let mut members: Vec<Member> = Vec::new();
        put(&mut members, "suitableElements", self.suitable_elements.encode());
        seal(members, "passportRequiredElement")
    }

    fn decode(j: &Json, at: &str) -> (r: Result<Self, DecodeError>) {
        proof {
            reveal(<PassportRequiredElement as Wire>::wire);
            reveal(<PassportRequiredElement as Wire>::parse);
        }
        let members = members_of(j, at)?;
        let suitable_elements = read_field::<Vec<PassportSuitableElement>>(
            members,
            "suitableElements",
        )?;
        Ok(PassportRequiredElement { suitable_elements })
    }

    proof fn round_trip(&self, at: Seq<char>) {
        reveal(<PassportRequiredElement as Wire>::wire);
        reveal(<PassportRequiredElement as Wire>::parse);
        reveal_strlit("@type");
        reveal_strlit("suitableElements");
        assert("@type"@.len() == 5);
        assert("suitableElements"@.len() == 16);
        self.suitable_elements.round_trip("suitableElements"@);
    }
}

impl Tagged for PassportRequiredElement {
    open spec fn known(tag: Seq<char>) -> bool {
        tag == "passportRequiredElement"@
    }

    fn knows(tag: &str) -> (r: bool) {
        same_text(tag, "passportRequiredElement")
    }

    proof fn tag_known(&self) {
        reveal(<PassportRequiredElement as Wire>::wire);
        assert(tag_of(self.wire()) == Some("passportRequiredElement"@));
        assert(Self::known("passportRequiredElement"@));
    }
}

/// Contains information about a Telegram Passport authorization form that was requested
#[derive(Debug, Clone, PartialEq)]
pub struct PassportAuthorizationForm {
    /// Unique identifier of the authorization form
    pub id: i32,
    /// Information about the Telegram Passport elements that need to be provided to complete the
    /// form
    pub required_elements: Vec<PassportRequiredElement>,
    /// URL for the privacy policy of the service; may be empty
    pub privacy_policy_url: String,
}

impl Wire for PassportAuthorizationForm {
    #[verifier::opaque]
    open spec fn wire(&self) -> Doc {
        tagged(
            Map::empty()
                .insert("id"@, self.id.wire())
                .insert("requiredElements"@, self.required_elements.wire())
                .insert("privacyPolicyUrl"@, self.privacy_policy_url.wire()),
            "passportAuthorizationForm"@,
        )
    }

    #[verifier::opaque]
    open spec fn parse(d: Doc, at: Seq<char>) -> Result<Doc, Fault> {
        match d {
            Doc::Object(m) => {
                let id = field::<i32>(m, "id"@);
                let required_elements = field::<Vec<PassportRequiredElement>>(
                    m,
                    "requiredElements"@,
                );
                let privacy_policy_url = field::<String>(m, "privacyPolicyUrl"@);
                if id is Err {
                    id
                } else if required_elements is Err {
                    required_elements
                } else if privacy_policy_url is Err {
                    privacy_policy_url
                } else {
                    Ok(
                        tagged(
                            Map::empty()
                                .insert("id"@, id->Ok_0)
                                .insert("requiredElements"@, required_elements->Ok_0)
                                .insert("privacyPolicyUrl"@, privacy_policy_url->Ok_0),
                            "passportAuthorizationForm"@,
                        ),
                    )
                }
            },
            _ => Err(Fault::TypeMismatch(at)),
        }
    }

    fn encode(&self) -> (j: Json) {
        proof {
            reveal(<PassportAuthorizationForm as Wire>::wire);
        }
        let mut members: Vec<Member> = Vec::new();
        put(&mut members, "id", self.id.encode());
        put(&mut members, "requiredElements", self.required_elements.encode());
        put(&mut members, "privacyPolicyUrl", self.privacy_policy_url.encode());
        seal(members, "passportAuthorizationForm")
    }

    fn decode(j: &Json, at: &str) -> (r: Result<Self, DecodeError>) {
        proof {
            reveal(<PassportAuthorizationForm as Wire>::wire);
            reveal(<PassportAuthorizationForm as Wire>::parse);
        }
        let members = members_of(j, at)?;
        let id = read_field::<i32>(members, "id")?;
        let required_elements = read_field::<Vec<PassportRequiredElement>>(
            members,
            "requiredElements",
        )?;
        let privacy_policy_url = read_field::<String>(members, "privacyPolicyUrl")?;
        Ok(PassportAuthorizationForm { id, required_elements, privacy_policy_url })
    }

    proof fn round_trip(&self, at: Seq<char>) {
        reveal(<PassportAuthorizationForm as Wire>::wire);
        reveal(<PassportAuthorizationForm as Wire>::parse);
        reveal_strlit("@type");
        reveal_strlit("id");
        reveal_strlit("privacyPolicyUrl");
        reveal_strlit("requiredElements");
        assert("@type"@.len() == 5);
        assert("id"@.len() == 2);
        assert("privacyPolicyUrl"@.len() == 16 && "privacyPolicyUrl"@[0] == 'p');
        assert("requiredElements"@.len() == 16 && "requiredElements"@[0] == 'r');
        self.id.round_trip("id"@);
        self.required_elements.round_trip("requiredElements"@);
        self.privacy_policy_url.round_trip("privacyPolicyUrl"@);
    }
}

impl Tagged for PassportAuthorizationForm {
    open spec fn known(tag: Seq<char>) -> bool {
        tag == "passportAuthorizationForm"@
    }

    fn knows(tag: &str) -> (r: bool) {
        same_text(tag, "passportAuthorizationForm")
    }

    proof fn tag_known(&self) {
        reveal(<PassportAuthorizationForm as Wire>::wire);
        assert(tag_of(self.wire()) == Some("passportAuthorizationForm"@));
        assert(Self::known("passportAuthorizationForm"@));
    }
}

/// Contains information about a Telegram Passport elements and corresponding errors
#[derive(Debug, Clone, PartialEq)]
pub struct PassportElementsWithErrors {
    /// Telegram Passport elements
    pub elements: Vec<PassportElement>,
    /// Errors in the elements that are already available
    pub errors: Vec<PassportElementError>,
}

impl Wire for PassportElementsWithErrors {
    #[verifier::opaque]
    open spec fn wire(&self) -> Doc {
        tagged(
            Map::empty()
                .insert("elements"@, self.elements.wire())
                .insert("errors"@, self.errors.wire()),
            "passportElementsWithErrors"@,
        )
    }

    #[verifier::opaque]
    open spec fn parse(d: Doc, at: Seq<char>) -> Result<Doc, Fault> {
        match d {
            Doc::Object(m) => {
                let elements = field::<Vec<PassportElement>>(m, "elements"@);
                let errors = field::<Vec<PassportElementError>>(m, "errors"@);
                if elements is Err {
                    elements
                } else if errors is Err {
                    errors
                } else {
                    Ok(
                        tagged(
                            Map::empty()
                                .insert("elements"@, elements->Ok_0)
                                .insert("errors"@, errors->Ok_0),
                            "passportElementsWithErrors"@,
                        ),
                    )
                }
            },
            _ => Err(Fault::TypeMismatch(at)),
        }
    }

    fn encode(&self) -> (j: Json) {
        proof {
            reveal(<PassportElementsWithErrors as Wire>::wire);
        }
        let mut members: Vec<Member> = Vec::new();
        put(&mut members, "elements", self.elements.encode());
        put(&mut members, "errors", self.errors.encode());
        seal(members, "passportElementsWithErrors")
    }

    fn decode(j: &Json, at: &str) -> (r: Result<Self, DecodeError>) {
        proof {
            reveal(<PassportElementsWithErrors as Wire>::wire);
            reveal(<PassportElementsWithErrors as Wire>::parse);
        }
        let members = members_of(j, at)?;
        let elements = read_field::<Vec<PassportElement>>(members, "elements")?;
        let errors = read_field::<Vec<PassportElementError>>(members, "errors")?;
        Ok(PassportElementsWithErrors { elements, errors })
    }

    proof fn round_trip(&self, at: Seq<char>) {
        reveal(<PassportElementsWithErrors as Wire>::wire);
        reveal(<PassportElementsWithErrors as Wire>::parse);
        reveal_strlit("@type");
        reveal_strlit("elements");
        reveal_strlit("errors");
        assert("@type"@.len() == 5);
        assert("elements"@.len() == 8);
        assert("errors"@.len() == 6);
        self.elements.round_trip("elements"@);
        self.errors.round_trip("errors"@);
    }
}

impl Tagged for PassportElementsWithErrors {
    open spec fn known(tag: Seq<char>) -> bool {
        tag == "passportElementsWithErrors"@
    }

    fn knows(tag: &str) -> (r: bool) {
        same_text(tag, "passportElementsWithErrors")
    }

    proof fn tag_known(&self) {
        reveal(<PassportElementsWithErrors as Wire>::wire);
        assert(tag_of(self.wire()) == Some("passportElementsWithErrors"@));
        assert(Self::known("passportElementsWithErrors"@));
    }
}

/// Contains encrypted Telegram Passport data credentials
#[derive(Debug, Clone, PartialEq)]
pub struct EncryptedCredentials {
    /// The encrypted credentials
    pub data: String,
    /// The decrypted data hash
    pub hash: String,
    /// Secret for data decryption, encrypted with the service's public key
    pub secret: String,
}

impl Wire for EncryptedCredentials {
    #[verifier::opaque]
    open spec fn wire(&self) -> Doc {
        tagged(
            Map::empty()
                .insert("data"@, self.data.wire())
                .insert("hash"@, self.hash.wire())
                .insert("secret"@, self.secret.wire()),
            "encryptedCredentials"@,
        )
    }

    #[verifier::opaque]
    open spec fn parse(d: Doc, at: Seq<char>) -> Result<Doc, Fault> {
        match d {
            Doc::Object(m) => {
                let data = field::<String>(m, "data"@);
                let hash = field::<String>(m, "hash"@);
                let secret = field::<String>(m, "secret"@);
                if data is Err {
                    data
                } else if hash is Err {
                    hash
                } else if secret is Err {
                    secret
                } else {
                    Ok(
                        tagged(
                            Map::empty()
                                .insert("data"@, data->Ok_0)
                                .insert("hash"@, hash->Ok_0)
                                .insert("secret"@, secret->Ok_0),
                            "encryptedCredentials"@,
                        ),
                    )
                }
            },
            _ => Err(Fault::TypeMismatch(at)),
        }
    }

    fn encode(&self) -> (j: Json) {
        proof {
            reveal(<EncryptedCredentials as Wire>::wire);
        }
        let mut members: Vec<Member> = Vec::new();
        put(&mut members, "data", self.data.encode());
        put(&mut members, "hash", self.hash.encode());
        put(&mut members, "secret", self.secret.encode());
        seal(members, "encryptedCredentials")
    }

    fn decode(j: &Json, at: &str) -> (r: Result<Self, DecodeError>) {
        proof {
            reveal(<EncryptedCredentials as Wire>::wire);
            reveal(<EncryptedCredentials as Wire>::parse);
        }
        let members = members_of(j, at)?;
        let data = read_field::<String>(members, "data")?;
        let hash = read_field::<String>(members, "hash")?;
        let secret = read_field::<String>(members, "secret")?;
        Ok(EncryptedCredentials { data, hash, secret })
    }

    proof fn round_trip(&self, at: Seq<char>) {
        reveal(<EncryptedCredentials as Wire>::wire);
        reveal(<EncryptedCredentials as Wire>::parse);
        reveal_strlit("@type");
        reveal_strlit("data");
        reveal_strlit("hash");
        reveal_strlit("secret");
        assert("@type"@.len() == 5);
        assert("data"@.len() == 4 && "data"@[0] == 'd');
        assert("hash"@.len() == 4 && "hash"@[0] == 'h');
        assert("secret"@.len() == 6);
        self.data.round_trip("data"@);
        self.hash.round_trip("hash"@);
        self.secret.round_trip("secret"@);
    }
}

impl Tagged for EncryptedCredentials {
    open spec fn known(tag: Seq<char>) -> bool {
        tag == "encryptedCredentials"@
    }

    fn knows(tag: &str) -> (r: bool) {
        same_text(tag, "encryptedCredentials")
    }

    proof fn tag_known(&self) {
        reveal(<EncryptedCredentials as Wire>::wire);
        assert(tag_of(self.wire()) == Some("encryptedCredentials"@));
        assert(Self::known("encryptedCredentials"@));
    }
}

/// Contains information about an encrypted Telegram Passport element; for bots only
#[derive(Debug, Clone, PartialEq)]
pub struct EncryptedPassportElement {
    /// Type of Telegram Passport element
    pub type_: PassportElementType,
    /// Encrypted JSON-encoded data about the user
    pub data: String,
    /// The front side of an identity document
    pub front_side: DatedFile,
    /// The reverse side of an identity document; may be null
    pub reverse_side: Option<DatedFile>,
    /// Selfie with the document; may be null
    pub selfie: Option<DatedFile>,
    /// List of files containing a certified English translation of the document
    pub translation: Vec<DatedFile>,
    /// List of attached files
    pub files: Vec<DatedFile>,
    /// Unencrypted data, phone number or email address
    pub value: String,
    /// Hash of the entire element
    pub hash: String,
}

impl Wire for EncryptedPassportElement {
    #[verifier::opaque]
    open spec fn wire(&self) -> Doc {
        tagged(
            Map::empty()
                .insert("type"@, self.type_.wire())
                .insert("data"@, self.data.wire())
                .insert("frontSide"@, self.front_side.wire())
                .insert("reverseSide"@, self.reverse_side.wire())
                .insert("selfie"@, self.selfie.wire())
                .insert("translation"@, self.translation.wire())
                .insert("files"@, self.files.wire())
                .insert("value"@, self.value.wire())
                .insert("hash"@, self.hash.wire()),
            "encryptedPassportElement"@,
        )
    }

    #[verifier::opaque]
    open spec fn parse(d: Doc, at: Seq<char>) -> Result<Doc, Fault> {
        match d {
            Doc::Object(m) => {
                let type_ = field::<PassportElementType>(m, "type"@);
                let data = field::<String>(m, "data"@);
                let front_side = field::<DatedFile>(m, "frontSide"@);
                let reverse_side = optional_field::<DatedFile>(m, "reverseSide"@);
                let selfie = optional_field::<DatedFile>(m, "selfie"@);
                let translation = field::<Vec<DatedFile>>(m, "translation"@);
                let files = field::<Vec<DatedFile>>(m, "files"@);
                let value = field::<String>(m, "value"@);
                let hash = field::<String>(m, "hash"@);
                if type_ is Err {
                    type_
                } else if data is Err {
                    data
                } else if front_side is Err {
                    front_side
                } else if reverse_side is Err {
                    reverse_side
                } else if selfie is Err {
                    selfie
                } else if translation is Err {
                    translation
                } else if files is Err {
                    files
                } else if value is Err {
                    value
                } else if hash is Err {
                    hash
                } else {
                    Ok(
                        tagged(
                            Map::empty()
                                .insert("type"@, type_->Ok_0)
                                .insert("data"@, data->Ok_0)
                                .insert("frontSide"@, front_side->Ok_0)
                                .insert("reverseSide"@, reverse_side->Ok_0)
                                .insert("selfie"@, selfie->Ok_0)
                                .insert("translation"@, translation->Ok_0)
                                .insert("files"@, files->Ok_0)
                                .insert("value"@, value->Ok_0)
                                .insert("hash"@, hash->Ok_0),
                            "encryptedPassportElement"@,
                        ),
                    )
                }
            },
            _ => Err(Fault::TypeMismatch(at)),
        }
    }

    fn encode(&self) -> (j: Json) {
        proof {
            reveal(<EncryptedPassportElement as Wire>::wire);
        }
        let mut members: Vec<Member> = Vec::new();
        put(&mut members, "type", self.type_.encode());
        put(&mut members, "data", self.data.encode());
        put(&mut members, "frontSide", self.front_side.encode());
        put(&mut members, "reverseSide", self.reverse_side.encode());
        put(&mut members, "selfie", self.selfie.encode());
        put(&mut members, "translation", self.translation.encode());
        put(&mut members, "files", self.files.encode());
        put(&mut members, "value", self.value.encode());
        put(&mut members, "hash", self.hash.encode());
        seal(members, "encryptedPassportElement")
    }

    fn decode(j: &Json, at: &str) -> (r: Result<Self, DecodeError>) {
        proof {
            reveal(<EncryptedPassportElement as Wire>::wire);
            reveal(<EncryptedPassportElement as Wire>::parse);
        }
        let members = members_of(j, at)?;
        let type_ = read_field::<PassportElementType>(members, "type")?;
        let data = read_field::<String>(members, "data")?;
        let front_side = read_field::<DatedFile>(members, "frontSide")?;
        let reverse_side = read_optional::<DatedFile>(members, "reverseSide")?;
        let selfie = read_optional::<DatedFile>(members, "selfie")?;
        let translation = read_field::<Vec<DatedFile>>(members, "translation")?;
        let files = read_field::<Vec<DatedFile>>(members, "files")?;
        let value = read_field::<String>(members, "value")?;
        let hash = read_field::<String>(members, "hash")?;
        Ok(EncryptedPassportElement {
            type_,
            data,
            front_side,
            reverse_side,
            selfie,
            translation,
            files,
            value,
            hash,
        })
    }

    proof fn round_trip(&self, at: Seq<char>) {
        reveal(<EncryptedPassportElement as Wire>::wire);
        reveal(<EncryptedPassportElement as Wire>::parse);
        reveal_strlit("@type");
        reveal_strlit("data");
        reveal_strlit("files");
        reveal_strlit("frontSide");
        reveal_strlit("hash");
        reveal_strlit("reverseSide");
        reveal_strlit("selfie");
        reveal_strlit("translation");
        reveal_strlit("type");
        reveal_strlit("value");
        assert("@type"@.len() == 5 && "@type"@[0] == '@');
        assert("data"@.len() == 4 && "data"@[0] == 'd');
        assert("files"@.len() == 5 && "files"@[0] == 'f');
        assert("frontSide"@.len() == 9);
        assert("hash"@.len() == 4 && "hash"@[0] == 'h');
        assert("reverseSide"@.len() == 11 && "reverseSide"@[0] == 'r');
        assert("selfie"@.len() == 6);
        assert("translation"@.len() == 11 && "translation"@[0] == 't');
        assert("type"@.len() == 4 && "type"@[0] == 't');
        assert("value"@.len() == 5 && "value"@[0] == 'v');
        self.type_.round_trip("type"@);
        self.data.round_trip("data"@);
        self.front_side.round_trip("frontSide"@);
        self.reverse_side.round_trip("reverseSide"@);
        self.selfie.round_trip("selfie"@);
        self.translation.round_trip("translation"@);
        self.files.round_trip("files"@);
        self.value.round_trip("value"@);
        self.hash.round_trip("hash"@);
        let m = self.wire()->Object_0;
        assert(field::<PassportElementType>(m, "type"@) == Ok::<Doc, Fault>(self.type_.wire()));
        assert(field::<String>(m, "data"@) == Ok::<Doc, Fault>(self.data.wire()));
        assert(field::<DatedFile>(m, "frontSide"@) == Ok::<Doc, Fault>(self.front_side.wire()));
        assert(optional_field::<DatedFile>(m, "reverseSide"@)
            == Ok::<Doc, Fault>(self.reverse_side.wire()));
        assert(optional_field::<DatedFile>(m, "selfie"@) == Ok::<Doc, Fault>(self.selfie.wire()));
        assert(field::<Vec<DatedFile>>(m, "translation"@)
            == Ok::<Doc, Fault>(self.translation.wire()));
        assert(field::<Vec<DatedFile>>(m, "files"@) == Ok::<Doc, Fault>(self.files.wire()));
        assert(field::<String>(m, "value"@) == Ok::<Doc, Fault>(self.value.wire()));
        assert(field::<String>(m, "hash"@) == Ok::<Doc, Fault>(self.hash.wire()));
    }
}

impl Tagged for EncryptedPassportElement {
    open spec fn known(tag: Seq<char>) -> bool {
        tag == "encryptedPassportElement"@
    }

    fn knows(tag: &str) -> (r: bool) {
        same_text(tag, "encryptedPassportElement")
    }

    proof fn tag_known(&self) {
        reveal(<EncryptedPassportElement as Wire>::wire);
        assert(tag_of(self.wire()) == Some("encryptedPassportElement"@));
        assert(Self::known("encryptedPassportElement"@));
    }
}

/// The element contains an error in an unspecified place. The error will be considered resolved
/// when new data is added
#[derive(Debug, Clone, PartialEq)]
pub struct InputPassportElementErrorSourceUnspecified {
    /// Current hash of the entire element
    pub element_hash: String,
}

impl Wire for InputPassportElementErrorSourceUnspecified {
    #[verifier::opaque]
    open spec fn wire(&self) -> Doc {
        tagged(
            Map::empty()
                .insert("elementHash"@, self.element_hash.wire()),
            "inputPassportElementErrorSourceUnspecified"@,
        )
    }

    #[verifier::opaque]
    open spec fn parse(d: Doc, at: Seq<char>) -> Result<Doc, Fault> {
        match d {
            Doc::Object(m) => {
                let element_hash = field::<String>(m, "elementHash"@);
                if element_hash is Err {
                    element_hash
                } else {
                    Ok(
                        tagged(
                            Map::empty()
                                .insert("elementHash"@, element_hash->Ok_0),
                            "inputPassportElementErrorSourceUnspecified"@,
                        ),
                    )
                }
            },
            _ => Err(Fault::TypeMismatch(at)),
        }
    }

    fn encode(&self) -> (j: Json) {
        proof {
            reveal(<InputPassportElementErrorSourceUnspecified as Wire>::wire);
        }
        let mut members: Vec<Member> = Vec::new();
        put(&mut members, "elementHash", self.element_hash.encode());
        seal(members, "inputPassportElementErrorSourceUnspecified")
    }

    fn decode(j: &Json, at: &str) -> (r: Result<Self, DecodeError>) {
        proof {
            reveal(<InputPassportElementErrorSourceUnspecified as Wire>::wire);
            reveal(<InputPassportElementErrorSourceUnspecified as Wire>::parse);
        }
        let members = members_of(j, at)?;
        let element_hash = read_field::<String>(members, "elementHash")?;
        Ok(InputPassportElementErrorSourceUnspecified { element_hash })
    }

    proof fn round_trip(&self, at: Seq<char>) {
        reveal(<InputPassportElementErrorSourceUnspecified as Wire>::wire);
        reveal(<InputPassportElementErrorSourceUnspecified as Wire>::parse);
        reveal_strlit("@type");
        reveal_strlit("elementHash");
        assert("@type"@.len() == 5);
        assert("elementHash"@.len() == 11);
        self.element_hash.round_trip("elementHash"@);
    }
}

impl Tagged for InputPassportElementErrorSourceUnspecified {
    open spec fn known(tag: Seq<char>) -> bool {
        tag == "inputPassportElementErrorSourceUnspecified"@
    }

    fn knows(tag: &str) -> (r: bool) {
        same_text(tag, "inputPassportElementErrorSourceUnspecified")
    }

    proof fn tag_known(&self) {
        reveal(<InputPassportElementErrorSourceUnspecified as Wire>::wire);
        assert(tag_of(self.wire()) == Some("inputPassportElementErrorSourceUnspecified"@));
        assert(Self::known("inputPassportElementErrorSourceUnspecified"@));
    }
}

/// A data field contains an error. The error is considered resolved when the field's value changes
#[derive(Debug, Clone, PartialEq)]
pub struct InputPassportElementErrorSourceDataField {
    /// Field name
    pub field_name: String,
    /// Current data hash
    pub data_hash: String,
}

impl Wire for InputPassportElementErrorSourceDataField {
    #[verifier::opaque]
    open spec fn wire(&self) -> Doc {
        tagged(
            Map::empty()
                .insert("fieldName"@, self.field_name.wire())
                .insert("dataHash"@, self.data_hash.wire()),
            "inputPassportElementErrorSourceDataField"@,
        )
    }

    #[verifier::opaque]
    open spec fn parse(d: Doc, at: Seq<char>) -> Result<Doc, Fault> {
        match d {
            Doc::Object(m) => {
                let field_name = field::<String>(m, "fieldName"@);
                let data_hash = field::<String>(m, "dataHash"@);
                if field_name is Err {
                    field_name
                } else if data_hash is Err {
                    data_hash
                } else {
                    Ok(
                        tagged(
                            Map::empty()
                                .insert("fieldName"@, field_name->Ok_0)
                                .insert("dataHash"@, data_hash->Ok_0),
                            "inputPassportElementErrorSourceDataField"@,
                        ),
                    )
                }
            },
            _ => Err(Fault::TypeMismatch(at)),
        }
    }

    fn encode(&self) -> (j: Json) {
        proof {
            reveal(<InputPassportElementErrorSourceDataField as Wire>::wire);
        }
        let mut members: Vec<Member> = Vec::new();
        put(&mut members, "fieldName", self.field_name.encode());
        put(&mut members, "dataHash", self.data_hash.encode());
        seal(members, "inputPassportElementErrorSourceDataField")
    }

    fn decode(j: &Json, at: &str) -> (r: Result<Self, DecodeError>) {
        proof {
            reveal(<InputPassportElementErrorSourceDataField as Wire>::wire);
            reveal(<InputPassportElementErrorSourceDataField as Wire>::parse);
        }
        let members = members_of(j, at)?;
        let field_name = read_field::<String>(members, "fieldName")?;
        let data_hash = read_field::<String>(members, "dataHash")?;
        Ok(InputPassportElementErrorSourceDataField { field_name, data_hash })
    }

    proof fn round_trip(&self, at: Seq<char>) {
        reveal(<InputPassportElementErrorSourceDataField as Wire>::wire);
        reveal(<InputPassportElementErrorSourceDataField as Wire>::parse);
        reveal_strlit("@type");
        reveal_strlit("dataHash");
        reveal_strlit("fieldName");
        assert("@type"@.len() == 5);
        assert("dataHash"@.len() == 8);
        assert("fieldName"@.len() == 9);
        self.field_name.round_trip("fieldName"@);
        self.data_hash.round_trip("dataHash"@);
    }
}

impl Tagged for InputPassportElementErrorSourceDataField {
    open spec fn known(tag: Seq<char>) -> bool {
        tag == "inputPassportElementErrorSourceDataField"@
    }

    fn knows(tag: &str) -> (r: bool) {
        same_text(tag, "inputPassportElementErrorSourceDataField")
    }

    proof fn tag_known(&self) {
        reveal(<InputPassportElementErrorSourceDataField as Wire>::wire);
        assert(tag_of(self.wire()) == Some("inputPassportElementErrorSourceDataField"@));
        assert(Self::known("inputPassportElementErrorSourceDataField"@));
    }
}

/// The front side of the document contains an error. The error is considered resolved when the file
/// with the front side of the document changes
#[derive(Debug, Clone, PartialEq)]
pub struct InputPassportElementErrorSourceFrontSide {
    /// Current hash of the file containing the front side
    pub file_hash: String,
}

impl Wire for InputPassportElementErrorSourceFrontSide {
    #[verifier::opaque]
    open spec fn wire(&self) -> Doc {
        tagged(
            Map::empty()
                .insert("fileHash"@, self.file_hash.wire()),
            "inputPassportElementErrorSourceFrontSide"@,
        )
    }

    #[verifier::opaque]
    open spec fn parse(d: Doc, at: Seq<char>) -> Result<Doc, Fault> {
        match d {
            Doc::Object(m) => {
                let file_hash = field::<String>(m, "fileHash"@);
                if file_hash is Err {
                    file_hash
                } else {
                    Ok(
                        tagged(
                            Map::empty()
                                .insert("fileHash"@, file_hash->Ok_0),
                            "inputPassportElementErrorSourceFrontSide"@,
                        ),
                    )
                }
            },
            _ => Err(Fault::TypeMismatch(at)),
        }
    }

    fn encode(&self) -> (j: Json) {
        proof {
            reveal(<InputPassportElementErrorSourceFrontSide as Wire>::wire);
        }
        let mut members: Vec<Member> = Vec::new();
        put(&mut members, "fileHash", self.file_hash.encode());
        seal(members, "inputPassportElementErrorSourceFrontSide")
    }

    fn decode(j: &Json, at: &str) -> (r: Result<Self, DecodeError>) {
        proof {
            reveal(<InputPassportElementErrorSourceFrontSide as Wire>::wire);
            reveal(<InputPassportElementErrorSourceFrontSide as Wire>::parse);
        }
        let members = members_of(j, at)?;
        let file_hash = read_field::<String>(members, "fileHash")?;
        Ok(InputPassportElementErrorSourceFrontSide { file_hash })
    }

    proof fn round_trip(&self, at: Seq<char>) {
        reveal(<InputPassportElementErrorSourceFrontSide as Wire>::wire);
        reveal(<InputPassportElementErrorSourceFrontSide as Wire>::parse);
        reveal_strlit("@type");
        reveal_strlit("fileHash");
        assert("@type"@.len() == 5);
        assert("fileHash"@.len() == 8);
        self.file_hash.round_trip("fileHash"@);
    }
}

impl Tagged for InputPassportElementErrorSourceFrontSide {
    open spec fn known(tag: Seq<char>) -> bool {
        tag == "inputPassportElementErrorSourceFrontSide"@
    }

    fn knows(tag: &str) -> (r: bool) {
        same_text(tag, "inputPassportElementErrorSourceFrontSide")
    }

    proof fn tag_known(&self) {
        reveal(<InputPassportElementErrorSourceFrontSide as Wire>::wire);
        assert(tag_of(self.wire()) == Some("inputPassportElementErrorSourceFrontSide"@));
        assert(Self::known("inputPassportElementErrorSourceFrontSide"@));
    }
}

/// The reverse side of the document contains an error. The error is considered resolved when the
/// file with the reverse side of the document changes
#[derive(Debug, Clone, PartialEq)]
pub struct InputPassportElementErrorSourceReverseSide {
    /// Current hash of the file containing the reverse side
    pub file_hash: String,
}

impl Wire for InputPassportElementErrorSourceReverseSide {
    #[verifier::opaque]
    open spec fn wire(&self) -> Doc {
        tagged(
            Map::empty()
                .insert("fileHash"@, self.file_hash.wire()),
            "inputPassportElementErrorSourceReverseSide"@,
        )
    }

    #[verifier::opaque]
    open spec fn parse(d: Doc, at: Seq<char>) -> Result<Doc, Fault> {
        match d {
            Doc::Object(m) => {
                let file_hash = field::<String>(m, "fileHash"@);
                if file_hash is Err {
                    file_hash
                } else {
                    Ok(
                        tagged(
                            Map::empty()
                                .insert("fileHash"@, file_hash->Ok_0),
                            "inputPassportElementErrorSourceReverseSide"@,
                        ),
                    )
                }
            },
            _ => Err(Fault::TypeMismatch(at)),
        }
    }

    fn encode(&self) -> (j: Json) {
        proof {
            reveal(<InputPassportElementErrorSourceReverseSide as Wire>::wire);
        }
        let mut members: Vec<Member> = Vec::new();
        put(&mut members, "fileHash", self.file_hash.encode());
        seal(members, "inputPassportElementErrorSourceReverseSide")
    }

    fn decode(j: &Json, at: &str) -> (r: Result<Self, DecodeError>) {
        proof {
            reveal(<InputPassportElementErrorSourceReverseSide as Wire>::wire);
            reveal(<InputPassportElementErrorSourceReverseSide as Wire>::parse);
        }
        let members = members_of(j, at)?;
        let file_hash = read_field::<String>(members, "fileHash")?;
        Ok(InputPassportElementErrorSourceReverseSide { file_hash })
    }

    proof fn round_trip(&self, at: Seq<char>) {
        reveal(<InputPassportElementErrorSourceReverseSide as Wire>::wire);
        reveal(<InputPassportElementErrorSourceReverseSide as Wire>::parse);
        reveal_strlit("@type");
        reveal_strlit("fileHash");
        assert("@type"@.len() == 5);
        assert("fileHash"@.len() == 8);
        self.file_hash.round_trip("fileHash"@);
    }
}

impl Tagged for InputPassportElementErrorSourceReverseSide {
    open spec fn known(tag: Seq<char>) -> bool {
        tag == "inputPassportElementErrorSourceReverseSide"@
    }

    fn knows(tag: &str) -> (r: bool) {
        same_text(tag, "inputPassportElementErrorSourceReverseSide")
    }

    proof fn tag_known(&self) {
        reveal(<InputPassportElementErrorSourceReverseSide as Wire>::wire);
        assert(tag_of(self.wire()) == Some("inputPassportElementErrorSourceReverseSide"@));
        assert(Self::known("inputPassportElementErrorSourceReverseSide"@));
    }
}

/// The selfie contains an error. The error is considered resolved when the file with the selfie
/// changes
#[derive(Debug, Clone, PartialEq)]
pub struct InputPassportElementErrorSourceSelfie {
    /// Current hash of the file containing the selfie
    pub file_hash: String,
}

impl Wire for InputPassportElementErrorSourceSelfie {
    #[verifier::opaque]
    open spec fn wire(&self) -> Doc {
        tagged(
            Map::empty()
                .insert("fileHash"@, self.file_hash.wire()),
            "inputPassportElementErrorSourceSelfie"@,
        )
    }

    #[verifier::opaque]
    open spec fn parse(d: Doc, at: Seq<char>) -> Result<Doc, Fault> {
        match d {
            Doc::Object(m) => {
                let file_hash = field::<String>(m, "fileHash"@);
                if file_hash is Err {
                    file_hash
                } else {
                    Ok(
                        tagged(
                            Map::empty()
                                .insert("fileHash"@, file_hash->Ok_0),
                            "inputPassportElementErrorSourceSelfie"@,
                        ),
                    )
                }
            },
            _ => Err(Fault::TypeMismatch(at)),
        }
    }

    fn encode(&self) -> (j: Json) {
        proof {
            reveal(<InputPassportElementErrorSourceSelfie as Wire>::wire);
        }
        let mut members: Vec<Member> = Vec::new();
        put(&mut members, "fileHash", self.file_hash.encode());
        seal(members, "inputPassportElementErrorSourceSelfie")
    }

    fn decode(j: &Json, at: &str) -> (r: Result<Self, DecodeError>) {
        proof {
            reveal(<InputPassportElementErrorSourceSelfie as Wire>::wire);
            reveal(<InputPassportElementErrorSourceSelfie as Wire>::parse);
        }
        let members = members_of(j, at)?;
        let file_hash = read_field::<String>(members, "fileHash")?;
        Ok(InputPassportElementErrorSourceSelfie { file_hash })
    }

    proof fn round_trip(&self, at: Seq<char>) {
        reveal(<InputPassportElementErrorSourceSelfie as Wire>::wire);
        reveal(<InputPassportElementErrorSourceSelfie as Wire>::parse);
        reveal_strlit("@type");
        reveal_strlit("fileHash");
        assert("@type"@.len() == 5);
        assert("fileHash"@.len() == 8);
        self.file_hash.round_trip("fileHash"@);
    }
}

impl Tagged for InputPassportElementErrorSourceSelfie {
    open spec fn known(tag: Seq<char>) -> bool {
        tag == "inputPassportElementErrorSourceSelfie"@
    }

    fn knows(tag: &str) -> (r: bool) {
        same_text(tag, "inputPassportElementErrorSourceSelfie")
    }

    proof fn tag_known(&self) {
        reveal(<InputPassportElementErrorSourceSelfie as Wire>::wire);
        assert(tag_of(self.wire()) == Some("inputPassportElementErrorSourceSelfie"@));
        assert(Self::known("inputPassportElementErrorSourceSelfie"@));
    }
}

/// One of the files containing the translation of the document contains an error. The error is
/// considered resolved when the file with the translation changes
#[derive(Debug, Clone, PartialEq)]
pub struct InputPassportElementErrorSourceTranslationFile {
    /// Current hash of the file containing the translation
    pub file_hash: String,
}

impl Wire for InputPassportElementErrorSourceTranslationFile {
    #[verifier::opaque]
    open spec fn wire(&self) -> Doc {
        tagged(
            Map::empty()
                .insert("fileHash"@, self.file_hash.wire()),
            "inputPassportElementErrorSourceTranslationFile"@,
        )
    }

    #[verifier::opaque]
    open spec fn parse(d: Doc, at: Seq<char>) -> Result<Doc, Fault> {
        match d {
            Doc::Object(m) => {
                let file_hash = field::<String>(m, "fileHash"@);
                if file_hash is Err {
                    file_hash
                } else {
                    Ok(
                        tagged(
                            Map::empty()
                                .insert("fileHash"@, file_hash->Ok_0),
                            "inputPassportElementErrorSourceTranslationFile"@,
                        ),
                    )
                }
            },
            _ => Err(Fault::TypeMismatch(at)),
        }
    }

    fn encode(&self) -> (j: Json) {
        proof {
            reveal(<InputPassportElementErrorSourceTranslationFile as Wire>::wire);
        }
        let mut members: Vec<Member> = Vec::new();
        put(&mut members, "fileHash", self.file_hash.encode());
        seal(members, "inputPassportElementErrorSourceTranslationFile")
    }

    fn decode(j: &Json, at: &str) -> (r: Result<Self, DecodeError>) {
        proof {
            reveal(<InputPassportElementErrorSourceTranslationFile as Wire>::wire);
            reveal(<InputPassportElementErrorSourceTranslationFile as Wire>::parse);
        }
        let members = members_of(j, at)?;
        let file_hash = read_field::<String>(members, "fileHash")?;
        Ok(InputPassportElementErrorSourceTranslationFile { file_hash })
    }

    proof fn round_trip(&self, at: Seq<char>) {
        reveal(<InputPassportElementErrorSourceTranslationFile as Wire>::wire);
        reveal(<InputPassportElementErrorSourceTranslationFile as Wire>::parse);
        reveal_strlit("@type");
        reveal_strlit("fileHash");
        assert("@type"@.len() == 5);
        assert("fileHash"@.len() == 8);
        self.file_hash.round_trip("fileHash"@);
    }
}

impl Tagged for InputPassportElementErrorSourceTranslationFile {
    open spec fn known(tag: Seq<char>) -> bool {
        tag == "inputPassportElementErrorSourceTranslationFile"@
    }

    fn knows(tag: &str) -> (r: bool) {
        same_text(tag, "inputPassportElementErrorSourceTranslationFile")
    }

    proof fn tag_known(&self) {
        reveal(<InputPassportElementErrorSourceTranslationFile as Wire>::wire);
        assert(tag_of(self.wire()) == Some("inputPassportElementErrorSourceTranslationFile"@));
        assert(Self::known("inputPassportElementErrorSourceTranslationFile"@));
    }
}

/// The translation of the document contains an error. The error is considered resolved when the
/// list of files changes
#[derive(Debug, Clone, PartialEq)]
pub struct InputPassportElementErrorSourceTranslationFiles {
    /// Current hashes of all files with the translation
    pub file_hashes: Vec<String>,
}

impl Wire for InputPassportElementErrorSourceTranslationFiles {
    #[verifier::opaque]
    open spec fn wire(&self) -> Doc {
        tagged(
            Map::empty()
                .insert("fileHashes"@, self.file_hashes.wire()),
            "inputPassportElementErrorSourceTranslationFiles"@,
        )
    }

    #[verifier::opaque]
    open spec fn parse(d: Doc, at: Seq<char>) -> Result<Doc, Fault> {
        match d {
            Doc::Object(m) => {
                let file_hashes = field::<Vec<String>>(m, "fileHashes"@);
                if file_hashes is Err {
                    file_hashes
                } else {
                    Ok(
                        tagged(
                            Map::empty()
                                .insert("fileHashes"@, file_hashes->Ok_0),
                            "inputPassportElementErrorSourceTranslationFiles"@,
                        ),
                    )
                }
            },
            _ => Err(Fault::TypeMismatch(at)),
        }
    }

    fn encode(&self) -> (j: Json) {
        proof {
            reveal(<InputPassportElementErrorSourceTranslationFiles as Wire>::wire);
        }
        let mut members: Vec<Member> = Vec::new();
        put(&mut members, "fileHashes", self.file_hashes.encode());
        seal(members, "inputPassportElementErrorSourceTranslationFiles")
    }

    fn decode(j: &Json, at: &str) -> (r: Result<Self, DecodeError>) {
        proof {
            reveal(<InputPassportElementErrorSourceTranslationFiles as Wire>::wire);
            reveal(<InputPassportElementErrorSourceTranslationFiles as Wire>::parse);
        }
        let members = members_of(j, at)?;
        let file_hashes = read_field::<Vec<String>>(members, "fileHashes")?;
        Ok(InputPassportElementErrorSourceTranslationFiles { file_hashes })
    }

    proof fn round_trip(&self, at: Seq<char>) {
        reveal(<InputPassportElementErrorSourceTranslationFiles as Wire>::wire);
        reveal(<InputPassportElementErrorSourceTranslationFiles as Wire>::parse);
        reveal_strlit("@type");
        reveal_strlit("fileHashes");
        assert("@type"@.len() == 5);
        assert("fileHashes"@.len() == 10);
        self.file_hashes.round_trip("fileHashes"@);
    }
}

impl Tagged for InputPassportElementErrorSourceTranslationFiles {
    open spec fn known(tag: Seq<char>) -> bool {
        tag == "inputPassportElementErrorSourceTranslationFiles"@
    }

    fn knows(tag: &str) -> (r: bool) {
        same_text(tag, "inputPassportElementErrorSourceTranslationFiles")
    }

    proof fn tag_known(&self) {
        reveal(<InputPassportElementErrorSourceTranslationFiles as Wire>::wire);
        assert(tag_of(self.wire()) == Some("inputPassportElementErrorSourceTranslationFiles"@));
        assert(Self::known("inputPassportElementErrorSourceTranslationFiles"@));
    }
}

/// The file contains an error. The error is considered resolved when the file changes
#[derive(Debug, Clone, PartialEq)]
pub struct InputPassportElementErrorSourceFile {
    /// Current hash of the file which has the error
    pub file_hash: String,
}

impl Wire for InputPassportElementErrorSourceFile {
    #[verifier::opaque]
    open spec fn wire(&self) -> Doc {
        tagged(
            Map::empty()
                .insert("fileHash"@, self.file_hash.wire()),
            "inputPassportElementErrorSourceFile"@,
        )
    }

    #[verifier::opaque]
    open spec fn parse(d: Doc, at: Seq<char>) -> Result<Doc, Fault> {
        match d {
            Doc::Object(m) => {
                let file_hash = field::<String>(m, "fileHash"@);
                if file_hash is Err {
                    file_hash
                } else {
                    Ok(
                        tagged(
                            Map::empty()
                                .insert("fileHash"@, file_hash->Ok_0),
                            "inputPassportElementErrorSourceFile"@,
                        ),
                    )
                }
            },
            _ => Err(Fault::TypeMismatch(at)),
        }
    }

    fn encode(&self) -> (j: Json) {
        proof {
            reveal(<InputPassportElementErrorSourceFile as Wire>::wire);
        }
        let mut members: Vec<Member> = Vec::new();
        put(&mut members, "fileHash", self.file_hash.encode());
        seal(members, "inputPassportElementErrorSourceFile")
    }

    fn decode(j: &Json, at: &str) -> (r: Result<Self, DecodeError>) {
        proof {
            reveal(<InputPassportElementErrorSourceFile as Wire>::wire);
            reveal(<InputPassportElementErrorSourceFile as Wire>::parse);
        }
        let members = members_of(j, at)?;
        let file_hash = read_field::<String>(members, "fileHash")?;
        Ok(InputPassportElementErrorSourceFile { file_hash })
    }

    proof fn round_trip(&self, at: Seq<char>) {
        reveal(<InputPassportElementErrorSourceFile as Wire>::wire);
        reveal(<InputPassportElementErrorSourceFile as Wire>::parse);
        reveal_strlit("@type");
        reveal_strlit("fileHash");
        assert("@type"@.len() == 5);
        assert("fileHash"@.len() == 8);
        self.file_hash.round_trip("fileHash"@);
    }
}

impl Tagged for InputPassportElementErrorSourceFile {
    open spec fn known(tag: Seq<char>) -> bool {
        tag == "inputPassportElementErrorSourceFile"@
    }

    fn knows(tag: &str) -> (r: bool) {
        same_text(tag, "inputPassportElementErrorSourceFile")
    }

    proof fn tag_known(&self) {
        reveal(<InputPassportElementErrorSourceFile as Wire>::wire);
        assert(tag_of(self.wire()) == Some("inputPassportElementErrorSourceFile"@));
        assert(Self::known("inputPassportElementErrorSourceFile"@));
    }
}

/// The list of attached files contains an error. The error is considered resolved when the file
/// list changes
#[derive(Debug, Clone, PartialEq)]
pub struct InputPassportElementErrorSourceFiles {
    /// Current hashes of all attached files
    pub file_hashes: Vec<String>,
}

impl Wire for InputPassportElementErrorSourceFiles {
    #[verifier::opaque]
    open spec fn wire(&self) -> Doc {
        tagged(
            Map::empty()
                .insert("fileHashes"@, self.file_hashes.wire()),
            "inputPassportElementErrorSourceFiles"@,
        )
    }

    #[verifier::opaque]
    open spec fn parse(d: Doc, at: Seq<char>) -> Result<Doc, Fault> {
        match d {
            Doc::Object(m) => {
                let file_hashes = field::<Vec<String>>(m, "fileHashes"@);
                if file_hashes is Err {
                    file_hashes
                } else {
                    Ok(
                        tagged(
                            Map::empty()
                                .insert("fileHashes"@, file_hashes->Ok_0),
                            "inputPassportElementErrorSourceFiles"@,
                        ),
                    )
                }
            },
            _ => Err(Fault::TypeMismatch(at)),
        }
    }

    fn encode(&self) -> (j: Json) {
        proof {
            reveal(<InputPassportElementErrorSourceFiles as Wire>::wire);
        }
        let mut members: Vec<Member> = Vec::new();
        put(&mut members, "fileHashes", self.file_hashes.encode());
        seal(members, "inputPassportElementErrorSourceFiles")
    }

    fn decode(j: &Json, at: &str) -> (r: Result<Self, DecodeError>) {
        proof {
            reveal(<InputPassportElementErrorSourceFiles as Wire>::wire);
            reveal(<InputPassportElementErrorSourceFiles as Wire>::parse);
        }
        let members = members_of(j, at)?;
        let file_hashes = read_field::<Vec<String>>(members, "fileHashes")?;
        Ok(InputPassportElementErrorSourceFiles { file_hashes })
    }

    proof fn round_trip(&self, at: Seq<char>) {
        reveal(<InputPassportElementErrorSourceFiles as Wire>::wire);
        reveal(<InputPassportElementErrorSourceFiles as Wire>::parse);
        reveal_strlit("@type");
        reveal_strlit("fileHashes");
        assert("@type"@.len() == 5);
        assert("fileHashes"@.len() == 10);
        self.file_hashes.round_trip("fileHashes"@);
    }
}

impl Tagged for InputPassportElementErrorSourceFiles {
    open spec fn known(tag: Seq<char>) -> bool {
        tag == "inputPassportElementErrorSourceFiles"@
    }

    fn knows(tag: &str) -> (r: bool) {
        same_text(tag, "inputPassportElementErrorSourceFiles")
    }

    proof fn tag_known(&self) {
        reveal(<InputPassportElementErrorSourceFiles as Wire>::wire);
        assert(tag_of(self.wire()) == Some("inputPassportElementErrorSourceFiles"@));
        assert(Self::known("inputPassportElementErrorSourceFiles"@));
    }
}

/// Contains the description of an error in a Telegram Passport element; for bots only
#[derive(Debug, Clone, PartialEq)]
pub enum InputPassportElementErrorSource {
    InputPassportElementErrorSourceUnspecified(InputPassportElementErrorSourceUnspecified),
    InputPassportElementErrorSourceDataField(InputPassportElementErrorSourceDataField),
    InputPassportElementErrorSourceFrontSide(InputPassportElementErrorSourceFrontSide),
    InputPassportElementErrorSourceReverseSide(InputPassportElementErrorSourceReverseSide),
    InputPassportElementErrorSourceSelfie(InputPassportElementErrorSourceSelfie),
    InputPassportElementErrorSourceTranslationFile(InputPassportElementErrorSourceTranslationFile),
    InputPassportElementErrorSourceTranslationFiles(
        InputPassportElementErrorSourceTranslationFiles,
    ),
    InputPassportElementErrorSourceFile(InputPassportElementErrorSourceFile),
    InputPassportElementErrorSourceFiles(InputPassportElementErrorSourceFiles),
}

impl Wire for InputPassportElementErrorSource {
    #[verifier::opaque]
    open spec fn wire(&self) -> Doc {
        match self {
            Self::InputPassportElementErrorSourceUnspecified(p) => p.wire(),
            Self::InputPassportElementErrorSourceDataField(p) => p.wire(),
            Self::InputPassportElementErrorSourceFrontSide(p) => p.wire(),
            Self::InputPassportElementErrorSourceReverseSide(p) => p.wire(),
            Self::InputPassportElementErrorSourceSelfie(p) => p.wire(),
            Self::InputPassportElementErrorSourceTranslationFile(p) => p.wire(),
            Self::InputPassportElementErrorSourceTranslationFiles(p) => p.wire(),
            Self::InputPassportElementErrorSourceFile(p) => p.wire(),
            Self::InputPassportElementErrorSourceFiles(p) => p.wire(),
        }
    }

    #[verifier::opaque]
    open spec fn parse(d: Doc, at: Seq<char>) -> Result<Doc, Fault> {
        match d {
            Doc::Object(_) => match tag_of(d) {
                Some(t) => if t == "inputPassportElementErrorSourceUnspecified"@ {
                    InputPassportElementErrorSourceUnspecified::parse(d, at)
                } else if t == "inputPassportElementErrorSourceDataField"@ {
                    InputPassportElementErrorSourceDataField::parse(d, at)
                } else if t == "inputPassportElementErrorSourceFrontSide"@ {
                    InputPassportElementErrorSourceFrontSide::parse(d, at)
                } else if t == "inputPassportElementErrorSourceReverseSide"@ {
                    InputPassportElementErrorSourceReverseSide::parse(d, at)
                } else if t == "inputPassportElementErrorSourceSelfie"@ {
                    InputPassportElementErrorSourceSelfie::parse(d, at)
                } else if t == "inputPassportElementErrorSourceTranslationFile"@ {
                    InputPassportElementErrorSourceTranslationFile::parse(d, at)
                } else if t == "inputPassportElementErrorSourceTranslationFiles"@ {
                    InputPassportElementErrorSourceTranslationFiles::parse(d, at)
                } else if t == "inputPassportElementErrorSourceFile"@ {
                    InputPassportElementErrorSourceFile::parse(d, at)
                } else if t == "inputPassportElementErrorSourceFiles"@ {
                    InputPassportElementErrorSourceFiles::parse(d, at)
                } else {
                    Err(Fault::UnknownVariant(t))
                },
                None => Err(Fault::MissingDiscriminator),
            },
            _ => Err(Fault::TypeMismatch(at)),
        }
    }

    fn encode(&self) -> (j: Json) {
        proof {
            reveal(<InputPassportElementErrorSource as Wire>::wire);
        }
        match self {
            Self::InputPassportElementErrorSourceUnspecified(p) => p.encode(),
            Self::InputPassportElementErrorSourceDataField(p) => p.encode(),
            Self::InputPassportElementErrorSourceFrontSide(p) => p.encode(),
            Self::InputPassportElementErrorSourceReverseSide(p) => p.encode(),
            Self::InputPassportElementErrorSourceSelfie(p) => p.encode(),
            Self::InputPassportElementErrorSourceTranslationFile(p) => p.encode(),
            Self::InputPassportElementErrorSourceTranslationFiles(p) => p.encode(),
            Self::InputPassportElementErrorSourceFile(p) => p.encode(),
            Self::InputPassportElementErrorSourceFiles(p) => p.encode(),
        }
    }

    fn decode(j: &Json, at: &str) -> (r: Result<Self, DecodeError>) {
        proof {
            reveal(<InputPassportElementErrorSource as Wire>::wire);
            reveal(<InputPassportElementErrorSource as Wire>::parse);
        }
        let members = members_of(j, at)?;
        let tag = discriminator(members)?;
        if same_text(tag, "inputPassportElementErrorSourceUnspecified") {
            Ok(
                Self::InputPassportElementErrorSourceUnspecified(
                    InputPassportElementErrorSourceUnspecified::decode(j, at)?,
                ),
            )
        } else if same_text(tag, "inputPassportElementErrorSourceDataField") {
            Ok(
                Self::InputPassportElementErrorSourceDataField(
                    InputPassportElementErrorSourceDataField::decode(j, at)?,
                ),
            )
        } else if same_text(tag, "inputPassportElementErrorSourceFrontSide") {
            Ok(
                Self::InputPassportElementErrorSourceFrontSide(
                    InputPassportElementErrorSourceFrontSide::decode(j, at)?,
                ),
            )
        } else if same_text(tag, "inputPassportElementErrorSourceReverseSide") {
            Ok(
                Self::InputPassportElementErrorSourceReverseSide(
                    InputPassportElementErrorSourceReverseSide::decode(j, at)?,
                ),
            )
        } else if same_text(tag, "inputPassportElementErrorSourceSelfie") {
            Ok(
                Self::InputPassportElementErrorSourceSelfie(
                    InputPassportElementErrorSourceSelfie::decode(j, at)?,
                ),
            )
        } else if same_text(tag, "inputPassportElementErrorSourceTranslationFile") {
            Ok(
                Self::InputPassportElementErrorSourceTranslationFile(
                    InputPassportElementErrorSourceTranslationFile::decode(j, at)?,
                ),
            )
        } else if same_text(tag, "inputPassportElementErrorSourceTranslationFiles") {
            Ok(
                Self::InputPassportElementErrorSourceTranslationFiles(
                    InputPassportElementErrorSourceTranslationFiles::decode(j, at)?,
                ),
            )
        } else if same_text(tag, "inputPassportElementErrorSourceFile") {
            Ok(
                Self::InputPassportElementErrorSourceFile(
                    InputPassportElementErrorSourceFile::decode(j, at)?,
                ),
            )
        } else if same_text(tag, "inputPassportElementErrorSourceFiles") {
            Ok(
                Self::InputPassportElementErrorSourceFiles(
                    InputPassportElementErrorSourceFiles::decode(j, at)?,
                ),
            )
        } else {
            Err(DecodeError::UnknownVariant(tag.to_owned()))
        }
    }

    proof fn round_trip(&self, at: Seq<char>) {
        reveal(<InputPassportElementErrorSource as Wire>::wire);
        reveal(<InputPassportElementErrorSource as Wire>::parse);
        reveal_strlit("inputPassportElementErrorSourceDataField");
        reveal_strlit("inputPassportElementErrorSourceFile");
        reveal_strlit("inputPassportElementErrorSourceFiles");
        reveal_strlit("inputPassportElementErrorSourceFrontSide");
        reveal_strlit("inputPassportElementErrorSourceReverseSide");
        reveal_strlit("inputPassportElementErrorSourceSelfie");
        reveal_strlit("inputPassportElementErrorSourceTranslationFile");
        reveal_strlit("inputPassportElementErrorSourceTranslationFiles");
        reveal_strlit("inputPassportElementErrorSourceUnspecified");
        assert({
            &&& "inputPassportElementErrorSourceDataField"@.len() == 40
            &&& "inputPassportElementErrorSourceDataField"@[31] == 'D'
        });
        assert("inputPassportElementErrorSourceFile"@.len() == 35);
        assert("inputPassportElementErrorSourceFiles"@.len() == 36);
        assert({
            &&& "inputPassportElementErrorSourceFrontSide"@.len() == 40
            &&& "inputPassportElementErrorSourceFrontSide"@[31] == 'F'
        });
        assert({
            &&& "inputPassportElementErrorSourceReverseSide"@.len() == 42
            &&& "inputPassportElementErrorSourceReverseSide"@[31] == 'R'
        });
        assert("inputPassportElementErrorSourceSelfie"@.len() == 37);
        assert("inputPassportElementErrorSourceTranslationFile"@.len() == 46);
        assert("inputPassportElementErrorSourceTranslationFiles"@.len() == 47);
        assert({
            &&& "inputPassportElementErrorSourceUnspecified"@.len() == 42
            &&& "inputPassportElementErrorSourceUnspecified"@[31] == 'U'
        });
        match self {
            Self::InputPassportElementErrorSourceUnspecified(p) => {
                p.tag_known();
                p.round_trip(at);
            },
            Self::InputPassportElementErrorSourceDataField(p) => {
                p.tag_known();
                p.round_trip(at);
            },
            Self::InputPassportElementErrorSourceFrontSide(p) => {
                p.tag_known();
                p.round_trip(at);
            },
            Self::InputPassportElementErrorSourceReverseSide(p) => {
                p.tag_known();
                p.round_trip(at);
            },
            Self::InputPassportElementErrorSourceSelfie(p) => {
                p.tag_known();
                p.round_trip(at);
            },
            Self::InputPassportElementErrorSourceTranslationFile(p) => {
                p.tag_known();
                p.round_trip(at);
            },
            Self::InputPassportElementErrorSourceTranslationFiles(p) => {
                p.tag_known();
                p.round_trip(at);
            },
            Self::InputPassportElementErrorSourceFile(p) => {
                p.tag_known();
                p.round_trip(at);
            },
            Self::InputPassportElementErrorSourceFiles(p) => {
                p.tag_known();
                p.round_trip(at);
            },
        }
    }
}

impl Tagged for InputPassportElementErrorSource {
    open spec fn known(tag: Seq<char>) -> bool {
        ||| tag == "inputPassportElementErrorSourceUnspecified"@
        ||| tag == "inputPassportElementErrorSourceDataField"@
        ||| tag == "inputPassportElementErrorSourceFrontSide"@
        ||| tag == "inputPassportElementErrorSourceReverseSide"@
        ||| tag == "inputPassportElementErrorSourceSelfie"@
        ||| tag == "inputPassportElementErrorSourceTranslationFile"@
        ||| tag == "inputPassportElementErrorSourceTranslationFiles"@
        ||| tag == "inputPassportElementErrorSourceFile"@
        ||| tag == "inputPassportElementErrorSourceFiles"@
    }

    fn knows(tag: &str) -> (r: bool) {
        same_text(tag, "inputPassportElementErrorSourceUnspecified")
            || same_text(tag, "inputPassportElementErrorSourceDataField")
            || same_text(tag, "inputPassportElementErrorSourceFrontSide")
            || same_text(tag, "inputPassportElementErrorSourceReverseSide")
            || same_text(tag, "inputPassportElementErrorSourceSelfie")
            || same_text(tag, "inputPassportElementErrorSourceTranslationFile")
            || same_text(tag, "inputPassportElementErrorSourceTranslationFiles")
            || same_text(tag, "inputPassportElementErrorSourceFile")
            || same_text(tag, "inputPassportElementErrorSourceFiles")
    }

    proof fn tag_known(&self) {
        reveal(<InputPassportElementErrorSource as Wire>::wire);
        match self {
            Self::InputPassportElementErrorSourceUnspecified(p) => p.tag_known(),
            Self::InputPassportElementErrorSourceDataField(p) => p.tag_known(),
            Self::InputPassportElementErrorSourceFrontSide(p) => p.tag_known(),
            Self::InputPassportElementErrorSourceReverseSide(p) => p.tag_known(),
            Self::InputPassportElementErrorSourceSelfie(p) => p.tag_known(),
            Self::InputPassportElementErrorSourceTranslationFile(p) => p.tag_known(),
            Self::InputPassportElementErrorSourceTranslationFiles(p) => p.tag_known(),
            Self::InputPassportElementErrorSourceFile(p) => p.tag_known(),
            Self::InputPassportElementErrorSourceFiles(p) => p.tag_known(),
        }
    }
}

impl Union for InputPassportElementErrorSource {
    proof fn unknown_rejected(d: Doc, at: Seq<char>) {
        reveal(<InputPassportElementErrorSource as Wire>::parse);
    }

    proof fn untagged_rejected(d: Doc, at: Seq<char>) {
        reveal(<InputPassportElementErrorSource as Wire>::parse);
    }
}

/// Contains the description of an error in a Telegram Passport element; for bots only
#[derive(Debug, Clone, PartialEq)]
pub struct InputPassportElementError {
    /// Type of Telegram Passport element that has the error
    pub type_: PassportElementType,
    /// Error message
    pub message: String,
    /// Error source
    pub source: InputPassportElementErrorSource,
}

impl Wire for InputPassportElementError {
    #[verifier::opaque]
    open spec fn wire(&self) -> Doc {
        tagged(
            Map::empty()
                .insert("type"@, self.type_.wire())
                .insert("message"@, self.message.wire())
                .insert("source"@, self.source.wire()),
            "inputPassportElementError"@,
        )
    }

    #[verifier::opaque]
    open spec fn parse(d: Doc, at: Seq<char>) -> Result<Doc, Fault> {
        match d {
            Doc::Object(m) => {
                let type_ = field::<PassportElementType>(m, "type"@);
                let message = field::<String>(m, "message"@);
                let source = field::<InputPassportElementErrorSource>(m, "source"@);
                if type_ is Err {
                    type_
                } else if message is Err {
                    message
                } else if source is Err {
                    source
                } else {
                    Ok(
                        tagged(
                            Map::empty()
                                .insert("type"@, type_->Ok_0)
                                .insert("message"@, message->Ok_0)
                                .insert("source"@, source->Ok_0),
                            "inputPassportElementError"@,
                        ),
                    )
                }
            },
            _ => Err(Fault::TypeMismatch(at)),
        }
    }

    fn encode(&self) -> (j: Json) {
        proof {
            reveal(<InputPassportElementError as Wire>::wire);
        }
        let mut members: Vec<Member> = Vec::new();
        put(&mut members, "type", self.type_.encode());
        put(&mut members, "message", self.message.encode());
        put(&mut members, "source", self.source.encode());
        seal(members, "inputPassportElementError")
    }

    fn decode(j: &Json, at: &str) -> (r: Result<Self, DecodeError>) {
        proof {
            reveal(<InputPassportElementError as Wire>::wire);
            reveal(<InputPassportElementError as Wire>::parse);
        }
        let members = members_of(j, at)?;
        let type_ = read_field::<PassportElementType>(members, "type")?;
        let message = read_field::<String>(members, "message")?;
        let source = read_field::<InputPassportElementErrorSource>(members, "source")?;
        Ok(InputPassportElementError { type_, message, source })
    }

    proof fn round_trip(&self, at: Seq<char>) {
        reveal(<InputPassportElementError as Wire>::wire);
        reveal(<InputPassportElementError as Wire>::parse);
        reveal_strlit("@type");
        reveal_strlit("message");
        reveal_strlit("source");
        reveal_strlit("type");
        assert("@type"@.len() == 5);
        assert("message"@.len() == 7);
        assert("source"@.len() == 6);
        assert("type"@.len() == 4);
        self.type_.round_trip("type"@);
        self.message.round_trip("message"@);
        self.source.round_trip("source"@);
    }
}

impl Tagged for InputPassportElementError {
    open spec fn known(tag: Seq<char>) -> bool {
        tag == "inputPassportElementError"@
    }

    fn knows(tag: &str) -> (r: bool) {
        same_text(tag, "inputPassportElementError")
    }

    proof fn tag_known(&self) {
        reveal(<InputPassportElementError as Wire>::wire);
        assert(tag_of(self.wire()) == Some("inputPassportElementError"@));
        assert(Self::known("inputPassportElementError"@));
    }
}

} // verus!
