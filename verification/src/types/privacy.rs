//! Options, JSON values, privacy rules, sessions and message links.

use vstd::prelude::*;
use crate::codec::{
    discriminator, encode_wide, field, find, lemma_wide_round_trip, members_of, optional_field,
    parse_items, put, read_field, read_optional, read_wide, seal, Tagged, Union, wide_doc,
    wide_field, Wire, wire_items,
};
use crate::error::{DecodeError, Fault};
use crate::json::{Doc, docs_of, Json, map_of, Member, Number, tag_of, tagged};
use crate::text::same_text;
use crate::types::{
    Message,
};

verus! {

/// Represents a boolean option
#[derive(Debug, Clone, PartialEq)]
pub struct OptionValueBoolean {
    /// The value of the option
    pub value: bool,
}

impl Wire for OptionValueBoolean {
    #[verifier::opaque]
    open spec fn wire(&self) -> Doc {
        tagged(
            Map::empty()
                .insert("value"@, self.value.wire()),
            "optionValueBoolean"@,
        )
    }

    #[verifier::opaque]
    open spec fn parse(d: Doc, at: Seq<char>) -> Result<Doc, Fault> {
        match d {
            Doc::Object(m) => {
                let value = field::<bool>(m, "value"@);
                if value is Err {
                    value
                } else {
                    Ok(
                        tagged(
                            Map::empty()
                                .insert("value"@, value->Ok_0),
                            "optionValueBoolean"@,
                        ),
                    )
                }
            },
            _ => Err(Fault::TypeMismatch(at)),
        }
    }

    fn encode(&self) -> (j: Json) {
        proof {
            reveal(<OptionValueBoolean as Wire>::wire);
        }
        let mut members: Vec<Member> = Vec::new();
        put(&mut members, "value", self.value.encode());
        seal(members, "optionValueBoolean")
    }

    fn decode(j: &Json, at: &str) -> (r: Result<Self, DecodeError>) {
        proof {
            reveal(<OptionValueBoolean as Wire>::wire);
            reveal(<OptionValueBoolean as Wire>::parse);
        }
        let members = members_of(j, at)?;
        let value = read_field::<bool>(members, "value")?;
        Ok(OptionValueBoolean { value })
    }

    proof fn round_trip(&self, at: Seq<char>) {
        reveal(<OptionValueBoolean as Wire>::wire);
        reveal(<OptionValueBoolean as Wire>::parse);
        reveal_strlit("@type");
        reveal_strlit("value");
        assert("@type"@.len() == 5 && "@type"@[0] == '@');
        assert("value"@.len() == 5 && "value"@[0] == 'v');
        self.value.round_trip("value"@);
    }
}

impl Tagged for OptionValueBoolean {
    open spec fn known(tag: Seq<char>) -> bool {
        tag == "optionValueBoolean"@
    }

    fn knows(tag: &str) -> (r: bool) {
        same_text(tag, "optionValueBoolean")
    }

    proof fn tag_known(&self) {
        reveal(<OptionValueBoolean as Wire>::wire);
        assert(tag_of(self.wire()) == Some("optionValueBoolean"@));
        assert(Self::known("optionValueBoolean"@));
    }
}

/// Represents an unknown option or an option which has a default value
#[derive(Debug, Clone, PartialEq)]
pub struct OptionValueEmpty {}

impl Wire for OptionValueEmpty {
    #[verifier::opaque]
    open spec fn wire(&self) -> Doc {
        tagged(Map::empty(), "optionValueEmpty"@)
    }

    #[verifier::opaque]
    open spec fn parse(d: Doc, at: Seq<char>) -> Result<Doc, Fault> {
        match d {
            Doc::Object(_) => Ok(tagged(Map::empty(), "optionValueEmpty"@)),
            _ => Err(Fault::TypeMismatch(at)),
        }
    }

    fn encode(&self) -> (j: Json) {
        proof {
            reveal(<OptionValueEmpty as Wire>::wire);
        }
        seal(Vec::new(), "optionValueEmpty")
    }

    fn decode(j: &Json, at: &str) -> (r: Result<Self, DecodeError>) {
        proof {
            reveal(<OptionValueEmpty as Wire>::wire);
            reveal(<OptionValueEmpty as Wire>::parse);
        }
        let _ = members_of(j, at)?;
        Ok(OptionValueEmpty {})
    }

    proof fn round_trip(&self, at: Seq<char>) {
        reveal(<OptionValueEmpty as Wire>::wire);
        reveal(<OptionValueEmpty as Wire>::parse);
    }
}

impl Tagged for OptionValueEmpty {
    open spec fn known(tag: Seq<char>) -> bool {
        tag == "optionValueEmpty"@
    }

    fn knows(tag: &str) -> (r: bool) {
        same_text(tag, "optionValueEmpty")
    }

    proof fn tag_known(&self) {
        reveal(<OptionValueEmpty as Wire>::wire);
        assert(tag_of(self.wire()) == Some("optionValueEmpty"@));
        assert(Self::known("optionValueEmpty"@));
    }
}

/// Represents an integer option
#[derive(Debug, Clone, PartialEq)]
pub struct OptionValueInteger {
    /// The value of the option
    pub value: i32,
}

impl Wire for OptionValueInteger {
    #[verifier::opaque]
    open spec fn wire(&self) -> Doc {
        tagged(
            Map::empty()
                .insert("value"@, self.value.wire()),
            "optionValueInteger"@,
        )
    }

    #[verifier::opaque]
    open spec fn parse(d: Doc, at: Seq<char>) -> Result<Doc, Fault> {
        match d {
            Doc::Object(m) => {
                let value = field::<i32>(m, "value"@);
                if value is Err {
                    value
                } else {
                    Ok(
                        tagged(
                            Map::empty()
                                .insert("value"@, value->Ok_0),
                            "optionValueInteger"@,
                        ),
                    )
                }
            },
            _ => Err(Fault::TypeMismatch(at)),
        }
    }

    fn encode(&self) -> (j: Json) {
        proof {
            reveal(<OptionValueInteger as Wire>::wire);
        }
        let mut members: Vec<Member> = Vec::new();
        put(&mut members, "value", self.value.encode());
        seal(members, "optionValueInteger")
    }

    fn decode(j: &Json, at: &str) -> (r: Result<Self, DecodeError>) {
        proof {
            reveal(<OptionValueInteger as Wire>::wire);
            reveal(<OptionValueInteger as Wire>::parse);
        }
        let members = members_of(j, at)?;
        let value = read_field::<i32>(members, "value")?;
        Ok(OptionValueInteger { value })
    }

    proof fn round_trip(&self, at: Seq<char>) {
        reveal(<OptionValueInteger as Wire>::wire);
        reveal(<OptionValueInteger as Wire>::parse);
        reveal_strlit("@type");
        reveal_strlit("value");
        assert("@type"@.len() == 5 && "@type"@[0] == '@');
        assert("value"@.len() == 5 && "value"@[0] == 'v');
        self.value.round_trip("value"@);
    }
}

impl Tagged for OptionValueInteger {
    open spec fn known(tag: Seq<char>) -> bool {
        tag == "optionValueInteger"@
    }

    fn knows(tag: &str) -> (r: bool) {
        same_text(tag, "optionValueInteger")
    }

    proof fn tag_known(&self) {
        reveal(<OptionValueInteger as Wire>::wire);
        assert(tag_of(self.wire()) == Some("optionValueInteger"@));
        assert(Self::known("optionValueInteger"@));
    }
}

/// Represents a string option
#[derive(Debug, Clone, PartialEq)]
pub struct OptionValueString {
    /// The value of the option
    pub value: String,
}

impl Wire for OptionValueString {
    #[verifier::opaque]
    open spec fn wire(&self) -> Doc {
        tagged(
            Map::empty()
                .insert("value"@, self.value.wire()),
            "optionValueString"@,
        )
    }

    #[verifier::opaque]
    open spec fn parse(d: Doc, at: Seq<char>) -> Result<Doc, Fault> {
        match d {
            Doc::Object(m) => {
                let value = field::<String>(m, "value"@);
                if value is Err {
                    value
                } else {
                    Ok(
                        tagged(
                            Map::empty()
                                .insert("value"@, value->Ok_0),
                            "optionValueString"@,
                        ),
                    )
                }
            },
            _ => Err(Fault::TypeMismatch(at)),
        }
    }

    fn encode(&self) -> (j: Json) {
        proof {
            reveal(<OptionValueString as Wire>::wire);
        }
        let mut members: Vec<Member> = Vec::new();
        put(&mut members, "value", self.value.encode());
        seal(members, "optionValueString")
    }

    fn decode(j: &Json, at: &str) -> (r: Result<Self, DecodeError>) {
        proof {
            reveal(<OptionValueString as Wire>::wire);
            reveal(<OptionValueString as Wire>::parse);
        }
        let members = members_of(j, at)?;
        let value = read_field::<String>(members, "value")?;
        Ok(OptionValueString { value })
    }

    proof fn round_trip(&self, at: Seq<char>) {
        reveal(<OptionValueString as Wire>::wire);
        reveal(<OptionValueString as Wire>::parse);
        reveal_strlit("@type");
        reveal_strlit("value");
        assert("@type"@.len() == 5 && "@type"@[0] == '@');
        assert("value"@.len() == 5 && "value"@[0] == 'v');
        self.value.round_trip("value"@);
    }
}

impl Tagged for OptionValueString {
    open spec fn known(tag: Seq<char>) -> bool {
        tag == "optionValueString"@
    }

    fn knows(tag: &str) -> (r: bool) {
        same_text(tag, "optionValueString")
    }

    proof fn tag_known(&self) {
        reveal(<OptionValueString as Wire>::wire);
        assert(tag_of(self.wire()) == Some("optionValueString"@));
        assert(Self::known("optionValueString"@));
    }
}

/// Represents the value of an option
#[derive(Debug, Clone, PartialEq)]
pub enum OptionValue {
    OptionValueBoolean(OptionValueBoolean),
    OptionValueEmpty(OptionValueEmpty),
    OptionValueInteger(OptionValueInteger),
    OptionValueString(OptionValueString),
}

impl Wire for OptionValue {
    #[verifier::opaque]
    open spec fn wire(&self) -> Doc {
        match self {
            Self::OptionValueBoolean(p) => p.wire(),
            Self::OptionValueEmpty(p) => p.wire(),
            Self::OptionValueInteger(p) => p.wire(),
            Self::OptionValueString(p) => p.wire(),
        }
    }

    #[verifier::opaque]
    open spec fn parse(d: Doc, at: Seq<char>) -> Result<Doc, Fault> {
        match d {
            Doc::Object(_) => match tag_of(d) {
                Some(t) => if t == "optionValueBoolean"@ {
                    OptionValueBoolean::parse(d, at)
                } else if t == "optionValueEmpty"@ {
                    OptionValueEmpty::parse(d, at)
                } else if t == "optionValueInteger"@ {
                    OptionValueInteger::parse(d, at)
                } else if t == "optionValueString"@ {
                    OptionValueString::parse(d, at)
                } else {
                    Err(Fault::UnknownVariant(t))
                },
                None => Err(Fault::MissingDiscriminator),
            },
            _ => Err(Fault::TypeMismatch(at)),
        }
    }

    fn encode(&self) -> (j: Json) {
        proof {
            reveal(<OptionValue as Wire>::wire);
        }
        match self {
            Self::OptionValueBoolean(p) => p.encode(),
            Self::OptionValueEmpty(p) => p.encode(),
            Self::OptionValueInteger(p) => p.encode(),
            Self::OptionValueString(p) => p.encode(),
        }
    }

    fn decode(j: &Json, at: &str) -> (r: Result<Self, DecodeError>) {
        proof {
            reveal(<OptionValue as Wire>::wire);
            reveal(<OptionValue as Wire>::parse);
        }
        let members = members_of(j, at)?;
        let tag = discriminator(members)?;
        if same_text(tag, "optionValueBoolean") {
            Ok(Self::OptionValueBoolean(OptionValueBoolean::decode(j, at)?))
        } else if same_text(tag, "optionValueEmpty") {
            Ok(Self::OptionValueEmpty(OptionValueEmpty::decode(j, at)?))
        } else if same_text(tag, "optionValueInteger") {
            Ok(Self::OptionValueInteger(OptionValueInteger::decode(j, at)?))
        } else if same_text(tag, "optionValueString") {
            Ok(Self::OptionValueString(OptionValueString::decode(j, at)?))
        } else {
            Err(DecodeError::UnknownVariant(tag.to_owned()))
        }
    }

    proof fn round_trip(&self, at: Seq<char>) {
        reveal(<OptionValue as Wire>::wire);
        reveal(<OptionValue as Wire>::parse);
        reveal_strlit("optionValueBoolean");
        reveal_strlit("optionValueEmpty");
        reveal_strlit("optionValueInteger");
        reveal_strlit("optionValueString");
        assert("optionValueBoolean"@.len() == 18 && "optionValueBoolean"@[11] == 'B');
        assert("optionValueEmpty"@.len() == 16);
        assert("optionValueInteger"@.len() == 18 && "optionValueInteger"@[11] == 'I');
        assert("optionValueString"@.len() == 17);
        match self {
            Self::OptionValueBoolean(p) => {
                p.tag_known();
                p.round_trip(at);
            },
            Self::OptionValueEmpty(p) => {
                p.tag_known();
                p.round_trip(at);
            },
            Self::OptionValueInteger(p) => {
                p.tag_known();
                p.round_trip(at);
            },
            Self::OptionValueString(p) => {
                p.tag_known();
                p.round_trip(at);
            },
        }
    }
}

impl Tagged for OptionValue {
    open spec fn known(tag: Seq<char>) -> bool {
        ||| tag == "optionValueBoolean"@
        ||| tag == "optionValueEmpty"@
        ||| tag == "optionValueInteger"@
        ||| tag == "optionValueString"@
    }

    fn knows(tag: &str) -> (r: bool) {
        same_text(tag, "optionValueBoolean")
            || same_text(tag, "optionValueEmpty")
            || same_text(tag, "optionValueInteger")
            || same_text(tag, "optionValueString")
    }

    proof fn tag_known(&self) {
        reveal(<OptionValue as Wire>::wire);
        match self {
            Self::OptionValueBoolean(p) => p.tag_known(),
            Self::OptionValueEmpty(p) => p.tag_known(),
            Self::OptionValueInteger(p) => p.tag_known(),
            Self::OptionValueString(p) => p.tag_known(),
        }
    }
}

impl Union for OptionValue {
    proof fn unknown_rejected(d: Doc, at: Seq<char>) {
        reveal(<OptionValue as Wire>::parse);
    }

    proof fn untagged_rejected(d: Doc, at: Seq<char>) {
        reveal(<OptionValue as Wire>::parse);
    }
}

/// Represents one member of a JSON object
#[derive(Debug, Clone, PartialEq)]
pub struct JsonObjectMember {
    /// Member's key
    pub key: String,
    /// Member's value
    pub value: JsonValue,
}

impl Wire for JsonObjectMember {
    #[verifier::opaque]
    open spec fn wire(&self) -> Doc {
        tagged(
            Map::empty()
                .insert("key"@, self.key.wire())
                .insert("value"@, self.value.wire()),
            "jsonObjectMember"@,
        )
    }

    #[verifier::opaque]
    open spec fn parse(d: Doc, at: Seq<char>) -> Result<Doc, Fault> {
        match d {
            Doc::Object(m) => {
                let key = field::<String>(m, "key"@);
                let value = field::<JsonValue>(m, "value"@);
                if key is Err {
                    key
                } else if value is Err {
                    value
                } else {
                    Ok(
                        tagged(
                            Map::empty()
                                .insert("key"@, key->Ok_0)
                                .insert("value"@, value->Ok_0),
                            "jsonObjectMember"@,
                        ),
                    )
                }
            },
            _ => Err(Fault::TypeMismatch(at)),
        }
    }

    fn encode(&self) -> (j: Json) {
        proof {
            reveal(<JsonObjectMember as Wire>::wire);
        }
        let mut members: Vec<Member> = Vec::new();
        put(&mut members, "key", self.key.encode());
        put(&mut members, "value", self.value.encode());
        seal(members, "jsonObjectMember")
    }

    fn decode(j: &Json, at: &str) -> (r: Result<Self, DecodeError>) {
        proof {
            reveal(<JsonObjectMember as Wire>::wire);
            reveal(<JsonObjectMember as Wire>::parse);
        }
        let members = members_of(j, at)?;
        let key = read_field::<String>(members, "key")?;
        let value = read_field::<JsonValue>(members, "value")?;
        Ok(JsonObjectMember { key, value })
    }

    proof fn round_trip(&self, at: Seq<char>) {
        reveal(<JsonObjectMember as Wire>::wire);
        reveal(<JsonObjectMember as Wire>::parse);
        reveal_strlit("@type");
        reveal_strlit("key");
        reveal_strlit("value");
        assert("@type"@.len() == 5 && "@type"@[0] == '@');
        assert("key"@.len() == 3);
        assert("value"@.len() == 5 && "value"@[0] == 'v');
        self.key.round_trip("key"@);
        self.value.round_trip("value"@);
    }
}

impl Tagged for JsonObjectMember {
    open spec fn known(tag: Seq<char>) -> bool {
        tag == "jsonObjectMember"@
    }

    fn knows(tag: &str) -> (r: bool) {
        same_text(tag, "jsonObjectMember")
    }

    proof fn tag_known(&self) {
        reveal(<JsonObjectMember as Wire>::wire);
        assert(tag_of(self.wire()) == Some("jsonObjectMember"@));
        assert(Self::known("jsonObjectMember"@));
    }
}

/// Represents a null JSON value
#[derive(Debug, Clone, PartialEq)]
pub struct JsonValueNull {}

impl Wire for JsonValueNull {
    #[verifier::opaque]
    open spec fn wire(&self) -> Doc {
        tagged(Map::empty(), "jsonValueNull"@)
    }

    #[verifier::opaque]
    open spec fn parse(d: Doc, at: Seq<char>) -> Result<Doc, Fault> {
        match d {
            Doc::Object(_) => Ok(tagged(Map::empty(), "jsonValueNull"@)),
            _ => Err(Fault::TypeMismatch(at)),
        }
    }

    fn encode(&self) -> (j: Json) {
        proof {
            reveal(<JsonValueNull as Wire>::wire);
        }
        seal(Vec::new(), "jsonValueNull")
    }

    fn decode(j: &Json, at: &str) -> (r: Result<Self, DecodeError>) {
        proof {
            reveal(<JsonValueNull as Wire>::wire);
            reveal(<JsonValueNull as Wire>::parse);
        }
        let _ = members_of(j, at)?;
        Ok(JsonValueNull {})
    }

    proof fn round_trip(&self, at: Seq<char>) {
        reveal(<JsonValueNull as Wire>::wire);
        reveal(<JsonValueNull as Wire>::parse);
    }
}

impl Tagged for JsonValueNull {
    open spec fn known(tag: Seq<char>) -> bool {
        tag == "jsonValueNull"@
    }

    fn knows(tag: &str) -> (r: bool) {
        same_text(tag, "jsonValueNull")
    }

    proof fn tag_known(&self) {
        reveal(<JsonValueNull as Wire>::wire);
        assert(tag_of(self.wire()) == Some("jsonValueNull"@));
        assert(Self::known("jsonValueNull"@));
    }
}

/// Represents a boolean JSON value
#[derive(Debug, Clone, PartialEq)]
pub struct JsonValueBoolean {
    /// The value
    pub value: bool,
}

impl Wire for JsonValueBoolean {
    #[verifier::opaque]
    open spec fn wire(&self) -> Doc {
        tagged(
            Map::empty()
                .insert("value"@, self.value.wire()),
            "jsonValueBoolean"@,
        )
    }

    #[verifier::opaque]
    open spec fn parse(d: Doc, at: Seq<char>) -> Result<Doc, Fault> {
        match d {
            Doc::Object(m) => {
                let value = field::<bool>(m, "value"@);
                if value is Err {
                    value
                } else {
                    Ok(
                        tagged(
                            Map::empty()
                                .insert("value"@, value->Ok_0),
                            "jsonValueBoolean"@,
                        ),
                    )
                }
            },
            _ => Err(Fault::TypeMismatch(at)),
        }
    }

    fn encode(&self) -> (j: Json) {
        proof {
            reveal(<JsonValueBoolean as Wire>::wire);
        }
        let mut members: Vec<Member> = Vec::new();
        put(&mut members, "value", self.value.encode());
        seal(members, "jsonValueBoolean")
    }

    fn decode(j: &Json, at: &str) -> (r: Result<Self, DecodeError>) {
        proof {
            reveal(<JsonValueBoolean as Wire>::wire);
            reveal(<JsonValueBoolean as Wire>::parse);
        }
        let members = members_of(j, at)?;
        let value = read_field::<bool>(members, "value")?;
        Ok(JsonValueBoolean { value })
    }

    proof fn round_trip(&self, at: Seq<char>) {
        reveal(<JsonValueBoolean as Wire>::wire);
        reveal(<JsonValueBoolean as Wire>::parse);
        reveal_strlit("@type");
        reveal_strlit("value");
        assert("@type"@.len() == 5 && "@type"@[0] == '@');
        assert("value"@.len() == 5 && "value"@[0] == 'v');
        self.value.round_trip("value"@);
    }
}

impl Tagged for JsonValueBoolean {
    open spec fn known(tag: Seq<char>) -> bool {
        tag == "jsonValueBoolean"@
    }

    fn knows(tag: &str) -> (r: bool) {
        same_text(tag, "jsonValueBoolean")
    }

    proof fn tag_known(&self) {
        reveal(<JsonValueBoolean as Wire>::wire);
        assert(tag_of(self.wire()) == Some("jsonValueBoolean"@));
        assert(Self::known("jsonValueBoolean"@));
    }
}

/// Represents a numeric JSON value
#[derive(Debug, Clone, PartialEq)]
pub struct JsonValueNumber {
    /// The value
    pub value: Number,
}

impl Wire for JsonValueNumber {
    #[verifier::opaque]
    open spec fn wire(&self) -> Doc {
        tagged(
            Map::empty()
                .insert("value"@, self.value.wire()),
            "jsonValueNumber"@,
        )
    }

    #[verifier::opaque]
    open spec fn parse(d: Doc, at: Seq<char>) -> Result<Doc, Fault> {
        match d {
            Doc::Object(m) => {
                let value = field::<Number>(m, "value"@);
                if value is Err {
                    value
                } else {
                    Ok(
                        tagged(
                            Map::empty()
                                .insert("value"@, value->Ok_0),
                            "jsonValueNumber"@,
                        ),
                    )
                }
            },
            _ => Err(Fault::TypeMismatch(at)),
        }
    }

    fn encode(&self) -> (j: Json) {
        proof {
            reveal(<JsonValueNumber as Wire>::wire);
        }
        let mut members: Vec<Member> = Vec::new();
        put(&mut members, "value", self.value.encode());
        seal(members, "jsonValueNumber")
    }

    fn decode(j: &Json, at: &str) -> (r: Result<Self, DecodeError>) {
        proof {
            reveal(<JsonValueNumber as Wire>::wire);
            reveal(<JsonValueNumber as Wire>::parse);
        }
        let members = members_of(j, at)?;
        let value = read_field::<Number>(members, "value")?;
        Ok(JsonValueNumber { value })
    }

    proof fn round_trip(&self, at: Seq<char>) {
        reveal(<JsonValueNumber as Wire>::wire);
        reveal(<JsonValueNumber as Wire>::parse);
        reveal_strlit("@type");
        reveal_strlit("value");
        assert("@type"@.len() == 5 && "@type"@[0] == '@');
        assert("value"@.len() == 5 && "value"@[0] == 'v');
        self.value.round_trip("value"@);
    }
}

impl Tagged for JsonValueNumber {
    open spec fn known(tag: Seq<char>) -> bool {
        tag == "jsonValueNumber"@
    }

    fn knows(tag: &str) -> (r: bool) {
        same_text(tag, "jsonValueNumber")
    }

    proof fn tag_known(&self) {
        reveal(<JsonValueNumber as Wire>::wire);
        assert(tag_of(self.wire()) == Some("jsonValueNumber"@));
        assert(Self::known("jsonValueNumber"@));
    }
}

/// Represents a string JSON value
#[derive(Debug, Clone, PartialEq)]
pub struct JsonValueString {
    /// The value
    pub value: String,
}

impl Wire for JsonValueString {
    #[verifier::opaque]
    open spec fn wire(&self) -> Doc {
        tagged(
            Map::empty()
                .insert("value"@, self.value.wire()),
            "jsonValueString"@,
        )
    }

    #[verifier::opaque]
    open spec fn parse(d: Doc, at: Seq<char>) -> Result<Doc, Fault> {
        match d {
            Doc::Object(m) => {
                let value = field::<String>(m, "value"@);
                if value is Err {
                    value
                } else {
                    Ok(
                        tagged(
                            Map::empty()
                                .insert("value"@, value->Ok_0),
                            "jsonValueString"@,
                        ),
                    )
                }
            },
            _ => Err(Fault::TypeMismatch(at)),
        }
    }

    fn encode(&self) -> (j: Json) {
        proof {
            reveal(<JsonValueString as Wire>::wire);
        }
        let mut members: Vec<Member> = Vec::new();
        put(&mut members, "value", self.value.encode());
        seal(members, "jsonValueString")
    }

    fn decode(j: &Json, at: &str) -> (r: Result<Self, DecodeError>) {
        proof {
            reveal(<JsonValueString as Wire>::wire);
            reveal(<JsonValueString as Wire>::parse);
        }
        let members = members_of(j, at)?;
        let value = read_field::<String>(members, "value")?;
        Ok(JsonValueString { value })
    }

    proof fn round_trip(&self, at: Seq<char>) {
        reveal(<JsonValueString as Wire>::wire);
        reveal(<JsonValueString as Wire>::parse);
        reveal_strlit("@type");
        reveal_strlit("value");
        assert("@type"@.len() == 5 && "@type"@[0] == '@');
        assert("value"@.len() == 5 && "value"@[0] == 'v');
        self.value.round_trip("value"@);
    }
}

impl Tagged for JsonValueString {
    open spec fn known(tag: Seq<char>) -> bool {
        tag == "jsonValueString"@
    }

    fn knows(tag: &str) -> (r: bool) {
        same_text(tag, "jsonValueString")
    }

    proof fn tag_known(&self) {
        reveal(<JsonValueString as Wire>::wire);
        assert(tag_of(self.wire()) == Some("jsonValueString"@));
        assert(Self::known("jsonValueString"@));
    }
}

/// Represents a JSON array
#[derive(Debug, Clone, PartialEq)]
pub struct JsonValueArray {
    /// The list of array elements
    pub values: Vec<JsonValue>,
}

impl Wire for JsonValueArray {
    #[verifier::opaque]
    open spec fn wire(&self) -> Doc {
        tagged(
            Map::empty()
                .insert("values"@, self.values.wire()),
            "jsonValueArray"@,
        )
    }

    #[verifier::opaque]
    open spec fn parse(d: Doc, at: Seq<char>) -> Result<Doc, Fault> {
        match d {
            Doc::Object(m) => {
                let values = field::<Vec<JsonValue>>(m, "values"@);
                if values is Err {
                    values
                } else {
                    Ok(
                        tagged(
                            Map::empty()
                                .insert("values"@, values->Ok_0),
                            "jsonValueArray"@,
                        ),
                    )
                }
            },
            _ => Err(Fault::TypeMismatch(at)),
        }
    }

    fn encode(&self) -> (j: Json) {
        proof {
            reveal(<JsonValueArray as Wire>::wire);
        }
        let mut members: Vec<Member> = Vec::new();
        put(&mut members, "values", self.values.encode());
        seal(members, "jsonValueArray")
    }

    fn decode(j: &Json, at: &str) -> (r: Result<Self, DecodeError>) {
        proof {
            reveal(<JsonValueArray as Wire>::wire);
            reveal(<JsonValueArray as Wire>::parse);
        }
        let members = members_of(j, at)?;
        let values = read_field::<Vec<JsonValue>>(members, "values")?;
        Ok(JsonValueArray { values })
    }

    proof fn round_trip(&self, at: Seq<char>) {
        reveal(<JsonValueArray as Wire>::wire);
        reveal(<JsonValueArray as Wire>::parse);
        reveal_strlit("@type");
        reveal_strlit("values");
        assert("@type"@.len() == 5);
        assert("values"@.len() == 6);
        self.values.round_trip("values"@);
    }
}

impl Tagged for JsonValueArray {
    open spec fn known(tag: Seq<char>) -> bool {
        tag == "jsonValueArray"@
    }

    fn knows(tag: &str) -> (r: bool) {
        same_text(tag, "jsonValueArray")
    }

    proof fn tag_known(&self) {
        reveal(<JsonValueArray as Wire>::wire);
        assert(tag_of(self.wire()) == Some("jsonValueArray"@));
        assert(Self::known("jsonValueArray"@));
    }
}

/// Represents a JSON object
#[derive(Debug, Clone, PartialEq)]
pub struct JsonValueObject {
    /// The list of object members
    pub members: Vec<JsonObjectMember>,
}

impl Wire for JsonValueObject {
    #[verifier::opaque]
    open spec fn wire(&self) -> Doc {
        tagged(
            Map::empty()
                .insert("members"@, self.members.wire()),
            "jsonValueObject"@,
        )
    }

    #[verifier::opaque]
    open spec fn parse(d: Doc, at: Seq<char>) -> Result<Doc, Fault> {
        match d {
            Doc::Object(m) => {
                let members_ = field::<Vec<JsonObjectMember>>(m, "members"@);
                if members_ is Err {
                    members_
                } else {
                    Ok(
                        tagged(
                            Map::empty()
                                .insert("members"@, members_->Ok_0),
                            "jsonValueObject"@,
                        ),
                    )
                }
            },
            _ => Err(Fault::TypeMismatch(at)),
        }
    }

    fn encode(&self) -> (j: Json) {
        proof {
            reveal(<JsonValueObject as Wire>::wire);
        }
        let mut members: Vec<Member> = Vec::new();
        put(&mut members, "members", self.members.encode());
        seal(members, "jsonValueObject")
    }

    fn decode(j: &Json, at: &str) -> (r: Result<Self, DecodeError>) {
        proof {
            reveal(<JsonValueObject as Wire>::wire);
            reveal(<JsonValueObject as Wire>::parse);
        }
        let members = members_of(j, at)?;
        let members_ = read_field::<Vec<JsonObjectMember>>(members, "members")?;
        Ok(JsonValueObject { members: members_ })
    }

    proof fn round_trip(&self, at: Seq<char>) {
        reveal(<JsonValueObject as Wire>::wire);
        reveal(<JsonValueObject as Wire>::parse);
        reveal_strlit("@type");
        reveal_strlit("members");
        assert("@type"@.len() == 5);
        assert("members"@.len() == 7);
        self.members.round_trip("members"@);
    }
}

impl Tagged for JsonValueObject {
    open spec fn known(tag: Seq<char>) -> bool {
        tag == "jsonValueObject"@
    }

    fn knows(tag: &str) -> (r: bool) {
        same_text(tag, "jsonValueObject")
    }

    proof fn tag_known(&self) {
        reveal(<JsonValueObject as Wire>::wire);
        assert(tag_of(self.wire()) == Some("jsonValueObject"@));
        assert(Self::known("jsonValueObject"@));
    }
}

/// Represents a JSON value
#[derive(Debug, PartialEq)]
pub enum JsonValue {
    JsonValueNull(JsonValueNull),
    JsonValueBoolean(JsonValueBoolean),
    JsonValueNumber(JsonValueNumber),
    JsonValueString(JsonValueString),
    JsonValueArray(JsonValueArray),
    JsonValueObject(JsonValueObject),
}

/// The canonical document of a `JsonValue`.
pub open spec fn json_value_doc(x: JsonValue) -> Doc
    decreases x,
{
    match x {
        JsonValue::JsonValueNull(p) => p.wire(),
        JsonValue::JsonValueBoolean(p) => p.wire(),
        JsonValue::JsonValueNumber(p) => p.wire(),
        JsonValue::JsonValueString(p) => p.wire(),
        JsonValue::JsonValueArray(p) => {
            tagged(
                Map::empty()
                    .insert("values"@, Doc::List(json_value_docs(p.values@))),
                "jsonValueArray"@,
            )
        },
        JsonValue::JsonValueObject(p) => {
            tagged(
                Map::empty()
                    .insert("members"@, Doc::List(json_object_member_docs(p.members@))),
                "jsonValueObject"@,
            )
        },
    }
}

/// The canonical documents of a list of `JsonValue`.
pub open spec fn json_value_docs(items: Seq<JsonValue>) -> Seq<Doc>
    decreases items,
{
    Seq::new(
        items.len(),
        |i: int|
            if 0 <= i < items.len() {
                json_value_doc(items[i])
            } else {
                Doc::Null
            },
    )
}

/// The canonical document of a `JsonObjectMember`.
pub open spec fn json_object_member_doc(x: JsonObjectMember) -> Doc
    decreases x,
{
    tagged(
        Map::empty()
            .insert("key"@, x.key.wire())
            .insert("value"@, json_value_doc(x.value)),
        "jsonObjectMember"@,
    )
}

/// The canonical documents of a list of `JsonObjectMember`.
pub open spec fn json_object_member_docs(items: Seq<JsonObjectMember>) -> Seq<Doc>
    decreases items,
{
    Seq::new(
        items.len(),
        |i: int|
            if 0 <= i < items.len() {
                json_object_member_doc(items[i])
            } else {
                Doc::Null
            },
    )
}

/// What decoding a `JsonValue` from the document `d` yields.
pub open spec fn json_value_parse(d: Doc, at: Seq<char>) -> Result<Doc, Fault>
    decreases d,
{
    match d {
        Doc::Object(m) => match tag_of(d) {
            Some(t) => if t == "jsonValueNull"@ {
                JsonValueNull::parse(d, at)
            } else if t == "jsonValueBoolean"@ {
                JsonValueBoolean::parse(d, at)
            } else if t == "jsonValueNumber"@ {
                JsonValueNumber::parse(d, at)
            } else if t == "jsonValueString"@ {
                JsonValueString::parse(d, at)
            } else if t == "jsonValueArray"@ {
                let values = if m.contains_key("values"@) {
                    match m["values"@] {
                        Doc::List(items) => match json_value_list_parse(items, "values"@) {
                            Ok(docs) => Ok(Doc::List(docs)),
                            Err(e) => Err(e),
                        },
                        _ => Err(Fault::TypeMismatch("values"@)),
                    }
                } else {
                    Err(Fault::MissingField("values"@))
                };
                if values is Err {
                    values
                } else {
                    Ok(
                        tagged(
                            Map::empty()
                                .insert("values"@, values->Ok_0),
                            "jsonValueArray"@,
                        ),
                    )
                }
            } else if t == "jsonValueObject"@ {
                let members_ = if m.contains_key("members"@) {
                    match m["members"@] {
                        Doc::List(items) => match json_object_member_list_parse(items, "members"@) {
                            Ok(docs) => Ok(Doc::List(docs)),
                            Err(e) => Err(e),
                        },
                        _ => Err(Fault::TypeMismatch("members"@)),
                    }
                } else {
                    Err(Fault::MissingField("members"@))
                };
                if members_ is Err {
                    members_
                } else {
                    Ok(
                        tagged(
                            Map::empty()
                                .insert("members"@, members_->Ok_0),
                            "jsonValueObject"@,
                        ),
                    )
                }
            } else {
                Err(Fault::UnknownVariant(t))
            },
            None => Err(Fault::MissingDiscriminator),
        },
        _ => Err(Fault::TypeMismatch(at)),
    }
}

/// What reading the required field `key`, a `JsonValue`, yields.
pub open spec fn json_value_field(m: Map<Seq<char>, Doc>, key: Seq<char>) -> Result<Doc, Fault> {
    if m.contains_key(key) {
        json_value_parse(m[key], key)
    } else {
        Err(Fault::MissingField(key))
    }
}

/// What decoding the items of a list of `JsonValue` yields.
pub open spec fn json_value_list_parse(items: Seq<Doc>, at: Seq<char>) -> Result<Seq<Doc>, Fault>
    decreases items,
{
    if items.len() == 0 {
        Ok(Seq::empty())
    } else {
        match json_value_list_parse(items.drop_last(), at) {
            Err(e) => Err(e),
            Ok(front) => match json_value_parse(items.last(), at) {
                Err(e) => Err(e),
                Ok(c) => Ok(front.push(c)),
            },
        }
    }
}

/// What reading the required field `key`, a list of `JsonValue`, yields.
pub open spec fn json_value_list_field(
    m: Map<Seq<char>, Doc>,
    key: Seq<char>,
) -> Result<Doc, Fault> {
    if m.contains_key(key) {
        match m[key] {
            Doc::List(items) => match json_value_list_parse(items, key) {
                Ok(docs) => Ok(Doc::List(docs)),
                Err(e) => Err(e),
            },
            _ => Err(Fault::TypeMismatch(key)),
        }
    } else {
        Err(Fault::MissingField(key))
    }
}

/// What decoding a `JsonObjectMember` from the document `d` yields.
pub open spec fn json_object_member_parse(d: Doc, at: Seq<char>) -> Result<Doc, Fault>
    decreases d,
{
    match d {
        Doc::Object(m) => {
            let key = field::<String>(m, "key"@);
            let value = if m.contains_key("value"@) {
                json_value_parse(m["value"@], "value"@)
            } else {
                Err(Fault::MissingField("value"@))
            };
            if key is Err {
                key
            } else if value is Err {
                value
            } else {
                Ok(
                    tagged(
                        Map::empty()
                            .insert("key"@, key->Ok_0)
                            .insert("value"@, value->Ok_0),
                        "jsonObjectMember"@,
                    ),
                )
            }
        },
        _ => Err(Fault::TypeMismatch(at)),
    }
}

/// What decoding the items of a list of `JsonObjectMember` yields.
pub open spec fn json_object_member_list_parse(
    items: Seq<Doc>,
    at: Seq<char>,
) -> Result<Seq<Doc>, Fault>
    decreases items,
{
    if items.len() == 0 {
        Ok(Seq::empty())
    } else {
        match json_object_member_list_parse(items.drop_last(), at) {
            Err(e) => Err(e),
            Ok(front) => match json_object_member_parse(items.last(), at) {
                Err(e) => Err(e),
                Ok(c) => Ok(front.push(c)),
            },
        }
    }
}

/// What reading the required field `key`, a list of `JsonObjectMember`, yields.
pub open spec fn json_object_member_list_field(
    m: Map<Seq<char>, Doc>,
    key: Seq<char>,
) -> Result<Doc, Fault> {
    if m.contains_key(key) {
        match m[key] {
            Doc::List(items) => match json_object_member_list_parse(items, key) {
                Ok(docs) => Ok(Doc::List(docs)),
                Err(e) => Err(e),
            },
            _ => Err(Fault::TypeMismatch(key)),
        }
    } else {
        Err(Fault::MissingField(key))
    }
}

proof fn lemma_json_value_list_step(items: Seq<Doc>, i: int, at: Seq<char>)
    requires
        0 <= i < items.len(),
    ensures
        json_value_list_parse(
            items.take(i + 1),
            at) == match json_value_list_parse(items.take(i),
            at,
        ) {
            Err(e) => Err::<Seq<Doc>, Fault>(e),
            Ok(front) => match json_value_parse(items[i], at) {
                Err(e) => Err(e),
                Ok(c) => Ok(front.push(c)),
            },
        },
{
    assert(items.take(i + 1).drop_last() =~= items.take(i));
}

proof fn lemma_json_value_list_fault(items: Seq<Doc>, i: int, at: Seq<char>)
    requires
        0 <= i <= items.len(),
        json_value_list_parse(items.take(i), at) is Err,
    ensures
        json_value_list_parse(items, at) == json_value_list_parse(items.take(i), at),
    decreases items.len() - i,
{
    if i < items.len() {
        lemma_json_value_list_step(items, i, at);
        lemma_json_value_list_fault(items, i + 1, at);
    } else {
        assert(items.take(i) =~= items);
    }
}

proof fn lemma_json_object_member_list_step(items: Seq<Doc>, i: int, at: Seq<char>)
    requires
        0 <= i < items.len(),
    ensures
        json_object_member_list_parse(
            items.take(i + 1),
            at) == match json_object_member_list_parse(items.take(i),
            at,
        ) {
            Err(e) => Err::<Seq<Doc>, Fault>(e),
            Ok(front) => match json_object_member_parse(items[i], at) {
                Err(e) => Err(e),
                Ok(c) => Ok(front.push(c)),
            },
        },
{
    assert(items.take(i + 1).drop_last() =~= items.take(i));
}

proof fn lemma_json_object_member_list_fault(items: Seq<Doc>, i: int, at: Seq<char>)
    requires
        0 <= i <= items.len(),
        json_object_member_list_parse(items.take(i), at) is Err,
    ensures
        json_object_member_list_parse(
            items,
            at) == json_object_member_list_parse(items.take(i),
            at,
        ),
    decreases items.len() - i,
{
    if i < items.len() {
        lemma_json_object_member_list_step(items, i, at);
        lemma_json_object_member_list_fault(items, i + 1, at);
    } else {
        assert(items.take(i) =~= items);
    }
}

/// Decoding the document of a `JsonValue` gives the same document back.
pub proof fn lemma_json_value_round_trip(x: JsonValue, at: Seq<char>)
    ensures
        json_value_parse(json_value_doc(x), at) == Ok::<Doc, Fault>(json_value_doc(x)),
    decreases x,
{
    reveal_strlit("jsonValueArray");
    reveal_strlit("jsonValueBoolean");
    reveal_strlit("jsonValueNull");
    reveal_strlit("jsonValueNumber");
    reveal_strlit("jsonValueObject");
    reveal_strlit("jsonValueString");
    assert("jsonValueArray"@.len() == 14);
    assert("jsonValueBoolean"@.len() == 16);
    assert("jsonValueNull"@.len() == 13);
    assert("jsonValueNumber"@.len() == 15 && "jsonValueNumber"@[9] == 'N');
    assert("jsonValueObject"@.len() == 15 && "jsonValueObject"@[9] == 'O');
    assert("jsonValueString"@.len() == 15 && "jsonValueString"@[9] == 'S');
    match x {
        JsonValue::JsonValueNull(p) => {
            p.tag_known();
            p.round_trip(at);
        },
        JsonValue::JsonValueBoolean(p) => {
            p.tag_known();
            p.round_trip(at);
        },
        JsonValue::JsonValueNumber(p) => {
            p.tag_known();
            p.round_trip(at);
        },
        JsonValue::JsonValueString(p) => {
            p.tag_known();
            p.round_trip(at);
        },
        JsonValue::JsonValueArray(p) => {
            reveal_strlit("@type");
            reveal_strlit("values");
            assert("@type"@.len() == 5);
            assert("values"@.len() == 6);
            lemma_json_value_list_round_trip(p.values@, "values"@);
        },
        JsonValue::JsonValueObject(p) => {
            reveal_strlit("@type");
            reveal_strlit("members");
            assert("@type"@.len() == 5);
            assert("members"@.len() == 7);
            lemma_json_object_member_list_round_trip(p.members@, "members"@);
        },
    }
}

pub proof fn lemma_json_value_list_round_trip(items: Seq<JsonValue>, at: Seq<char>)
    ensures
        json_value_list_parse(
            json_value_docs(items),
            at) == Ok::<Seq<Doc>,
            Fault>(json_value_docs(items),
        ),
    decreases items,
{
    let docs = json_value_docs(items);
    if items.len() == 0 {
        assert(docs =~= Seq::<Doc>::empty());
    } else {
        lemma_json_value_list_round_trip(items.drop_last(), at);
        assert(docs.drop_last() =~= json_value_docs(items.drop_last()));
        lemma_json_value_round_trip(items.last(), at);
        assert(docs.drop_last().push(docs.last()) =~= docs);
    }
}

/// Decoding the document of a `JsonObjectMember` gives the same document back.
pub proof fn lemma_json_object_member_round_trip(x: JsonObjectMember, at: Seq<char>)
    ensures
        json_object_member_parse(
            json_object_member_doc(x),
            at) == Ok::<Doc,
            Fault>(json_object_member_doc(x),
        ),
    decreases x,
{
    reveal_strlit("@type");
    reveal_strlit("key");
    reveal_strlit("value");
    assert("@type"@.len() == 5 && "@type"@[0] == '@');
    assert("key"@.len() == 3);
    assert("value"@.len() == 5 && "value"@[0] == 'v');
    x.key.round_trip("key"@);
    lemma_json_value_round_trip(x.value, "value"@);
}

pub proof fn lemma_json_object_member_list_round_trip(items: Seq<JsonObjectMember>, at: Seq<char>)
    ensures
        json_object_member_list_parse(
            json_object_member_docs(items),
            at) == Ok::<Seq<Doc>,
            Fault>(json_object_member_docs(items),
        ),
    decreases items,
{
    let docs = json_object_member_docs(items);
    if items.len() == 0 {
        assert(docs =~= Seq::<Doc>::empty());
    } else {
        lemma_json_object_member_list_round_trip(items.drop_last(), at);
        assert(docs.drop_last() =~= json_object_member_docs(items.drop_last()));
        lemma_json_object_member_round_trip(items.last(), at);
        assert(docs.drop_last().push(docs.last()) =~= docs);
    }
}

fn encode_json_value(x: &JsonValue) -> (j: Json)
    ensures
        j@ == json_value_doc(*x),
    decreases x,
{
    match x {
        JsonValue::JsonValueNull(p) => p.encode(),
        JsonValue::JsonValueBoolean(p) => p.encode(),
        JsonValue::JsonValueNumber(p) => p.encode(),
        JsonValue::JsonValueString(p) => p.encode(),
        JsonValue::JsonValueArray(p) => {
            let mut members: Vec<Member> = Vec::new();
            put(&mut members, "values", encode_json_value_list(&p.values));
            seal(members, "jsonValueArray")
        },
        JsonValue::JsonValueObject(p) => {
            let mut members: Vec<Member> = Vec::new();
            put(&mut members, "members", encode_json_object_member_list(&p.members));
            seal(members, "jsonValueObject")
        },
    }
}

fn encode_json_value_list(items: &Vec<JsonValue>) -> (j: Json)
    ensures
        j@ == Doc::List(json_value_docs(items@)),
    decreases items,
{
    let mut out: Vec<Json> = Vec::new();
    let mut i: usize = 0;
    while i < items.len()
        invariant
            i <= items.len(),
            out.len() == i,
            forall|k: int| 0 <= k < i ==> out[k]@ == json_value_doc(items[k]),
        decreases items.len() - i,
    {
        assert(decreases_to!(items => items[i as int]));
        out.push(encode_json_value(&items[i]));
        i += 1;
    }
    assert(docs_of(out@) =~= json_value_docs(items@));
    Json::List(out)
}

fn encode_json_object_member(x: &JsonObjectMember) -> (j: Json)
    ensures
        j@ == json_object_member_doc(*x),
    decreases x,
{
    let mut members: Vec<Member> = Vec::new();
    put(&mut members, "key", x.key.encode());
    put(&mut members, "value", encode_json_value(&x.value));
    seal(members, "jsonObjectMember")
}

fn encode_json_object_member_list(items: &Vec<JsonObjectMember>) -> (j: Json)
    ensures
        j@ == Doc::List(json_object_member_docs(items@)),
    decreases items,
{
    let mut out: Vec<Json> = Vec::new();
    let mut i: usize = 0;
    while i < items.len()
        invariant
            i <= items.len(),
            out.len() == i,
            forall|k: int| 0 <= k < i ==> out[k]@ == json_object_member_doc(items[k]),
        decreases items.len() - i,
    {
        assert(decreases_to!(items => items[i as int]));
        out.push(encode_json_object_member(&items[i]));
        i += 1;
    }
    assert(docs_of(out@) =~= json_object_member_docs(items@));
    Json::List(out)
}

fn decode_json_value(j: &Json, at: &str) -> (r: Result<JsonValue, DecodeError>)
    ensures
        match r {
            Ok(v) => json_value_parse(j@, at@) == Ok::<Doc, Fault>(json_value_doc(v)),
            Err(e) => json_value_parse(j@, at@) == Err::<Doc, Fault>(e@),
        },
    decreases j,
{
    let members = members_of(j, at)?;
    let tag = discriminator(members)?;
    if same_text(tag, "jsonValueNull") {
        Ok(JsonValue::JsonValueNull(JsonValueNull::decode(j, at)?))
    } else if same_text(tag, "jsonValueBoolean") {
        Ok(JsonValue::JsonValueBoolean(JsonValueBoolean::decode(j, at)?))
    } else if same_text(tag, "jsonValueNumber") {
        Ok(JsonValue::JsonValueNumber(JsonValueNumber::decode(j, at)?))
    } else if same_text(tag, "jsonValueString") {
        Ok(JsonValue::JsonValueString(JsonValueString::decode(j, at)?))
    } else if same_text(tag, "jsonValueArray") {
        let values = read_json_value_list(members, "values")?;
        Ok(JsonValue::JsonValueArray(JsonValueArray { values }))
    } else if same_text(tag, "jsonValueObject") {
        let members_ = read_json_object_member_list(members, "members")?;
        Ok(JsonValue::JsonValueObject(JsonValueObject { members: members_ }))
    } else {
        Err(DecodeError::UnknownVariant(tag.to_owned()))
    }
}

fn read_json_value(members: &Vec<Member>, key: &str) -> (r: Result<JsonValue, DecodeError>)
    ensures
        match r {
            Ok(
                v) => json_value_field(map_of(members@), key@) == Ok::<Doc, Fault>(json_value_doc(v),
            ),
            Err(e) => json_value_field(map_of(members@), key@) == Err::<Doc, Fault>(e@),
        },
    decreases members,
{
    match find(members, key) {
        Some(v) => decode_json_value(v, key),
        None => Err(DecodeError::MissingField(key.to_owned())),
    }
}

fn read_json_value_list(
    members: &Vec<Member>,
    key: &str,
) -> (r: Result<Vec<JsonValue>, DecodeError>)
    ensures
        match r {
            Ok(v) => json_value_list_field(map_of(members@), key@) == Ok::<Doc, Fault>(
                Doc::List(json_value_docs(v@)),
            ),
            Err(e) => json_value_list_field(map_of(members@), key@) == Err::<Doc, Fault>(e@),
        },
    decreases members,
{
    let found = match find(members, key) {
        Some(v) => v,
        None => {
            return Err(DecodeError::MissingField(key.to_owned()));
        },
    };
    let items = match found {
        Json::List(items) => items,
        _ => {
            return Err(DecodeError::TypeMismatch(key.to_owned()));
        },
    };
    assert(decreases_to!(found => found->List_0));
    let ghost docs = docs_of(items@);
    let mut out: Vec<JsonValue> = Vec::new();
    let mut i: usize = 0;
    assert(docs.take(0) =~= Seq::<Doc>::empty());
    assert(json_value_docs(out@) =~= Seq::<Doc>::empty());
    while i < items.len()
        invariant
            i <= items.len(),
            docs == docs_of(items@),
            map_of(members@).contains_key(key@),
            map_of(members@)[key@] == Doc::List(docs),
            decreases_to!(members => items),
            json_value_list_parse(docs.take(i as int), key@) == Ok::<Seq<Doc>, Fault>(
                json_value_docs(out@),
            ),
        decreases items.len() - i,
    {
        proof {
            lemma_json_value_list_step(docs, i as int, key@);
            assert(docs[i as int] == items[i as int]@);
            assert(decreases_to!(items => items[i as int]));
        }
        let ghost before = out@;
        match decode_json_value(&items[i], key) {
            Ok(v) => {
                out.push(v);
                assert(json_value_docs(out@) =~= json_value_docs(before).push(json_value_doc(v)));
            },
            Err(e) => {
                proof {
                    lemma_json_value_list_fault(docs, i + 1, key@);
                }
                return Err(e);
            },
        }
        i += 1;
    }
    assert(docs.take(i as int) =~= docs);
    Ok(out)
}

fn decode_json_object_member(j: &Json, at: &str) -> (r: Result<JsonObjectMember, DecodeError>)
    ensures
        match r {
            Ok(
                v) => json_object_member_parse(j@, at@) == Ok::<Doc, Fault>(json_object_member_doc(v),
            ),
            Err(e) => json_object_member_parse(j@, at@) == Err::<Doc, Fault>(e@),
        },
    decreases j,
{
    let members = members_of(j, at)?;
    let key = read_field::<String>(members, "key")?;
    let value = read_json_value(members, "value")?;
    Ok(JsonObjectMember { key, value })
}

fn read_json_object_member_list(
    members: &Vec<Member>,
    key: &str,
) -> (r: Result<Vec<JsonObjectMember>, DecodeError>)
    ensures
        match r {
            Ok(v) => json_object_member_list_field(map_of(members@), key@) == Ok::<Doc, Fault>(
                Doc::List(json_object_member_docs(v@)),
            ),
            Err(
                e) => json_object_member_list_field(map_of(members@), key@) == Err::<Doc, Fault>(e@,
            ),
        },
    decreases members,
{
    let found = match find(members, key) {
        Some(v) => v,
        None => {
            return Err(DecodeError::MissingField(key.to_owned()));
        },
    };
    let items = match found {
        Json::List(items) => items,
        _ => {
            return Err(DecodeError::TypeMismatch(key.to_owned()));
        },
    };
    assert(decreases_to!(found => found->List_0));
    let ghost docs = docs_of(items@);
    let mut out: Vec<JsonObjectMember> = Vec::new();
    let mut i: usize = 0;
    assert(docs.take(0) =~= Seq::<Doc>::empty());
    assert(json_object_member_docs(out@) =~= Seq::<Doc>::empty());
    while i < items.len()
        invariant
            i <= items.len(),
            docs == docs_of(items@),
            map_of(members@).contains_key(key@),
            map_of(members@)[key@] == Doc::List(docs),
            decreases_to!(members => items),
            json_object_member_list_parse(docs.take(i as int), key@) == Ok::<Seq<Doc>, Fault>(
                json_object_member_docs(out@),
            ),
        decreases items.len() - i,
    {
        proof {
            lemma_json_object_member_list_step(docs, i as int, key@);
            assert(docs[i as int] == items[i as int]@);
            assert(decreases_to!(items => items[i as int]));
        }
        let ghost before = out@;
        match decode_json_object_member(&items[i], key) {
            Ok(v) => {
                out.push(v);
                assert(json_object_member_docs(out@)
                    =~= json_object_member_docs(before).push(json_object_member_doc(v)));
            },
            Err(e) => {
                proof {
                    lemma_json_object_member_list_fault(docs, i + 1, key@);
                }
                return Err(e);
            },
        }
        i += 1;
    }
    assert(docs.take(i as int) =~= docs);
    Ok(out)
}

fn clone_json_value(x: &JsonValue) -> JsonValue
    decreases x,
{
    match x {
        JsonValue::JsonValueNull(p) => JsonValue::JsonValueNull(p.clone()),
        JsonValue::JsonValueBoolean(p) => JsonValue::JsonValueBoolean(p.clone()),
        JsonValue::JsonValueNumber(p) => JsonValue::JsonValueNumber(p.clone()),
        JsonValue::JsonValueString(p) => JsonValue::JsonValueString(p.clone()),
        JsonValue::JsonValueArray(
            p) => JsonValue::JsonValueArray(JsonValueArray { values: clone_json_value_list(&p.values) },
        ),
        JsonValue::JsonValueObject(
            p) => JsonValue::JsonValueObject(JsonValueObject { members: clone_json_object_member_list(&p.members) },
        ),
    }
}

fn clone_json_value_list(items: &Vec<JsonValue>) -> Vec<JsonValue>
    decreases items,
{
    let mut out: Vec<JsonValue> = Vec::new();
    let mut i: usize = 0;
    while i < items.len()
        invariant
            i <= items.len(),
        decreases items.len() - i,
    {
        assert(decreases_to!(items => items[i as int]));
        out.push(clone_json_value(&items[i]));
        i += 1;
    }
    out
}

fn clone_json_object_member(x: &JsonObjectMember) -> JsonObjectMember
    decreases x,
{
    JsonObjectMember { key: x.key.clone(), value: clone_json_value(&x.value) }
}

fn clone_json_object_member_list(items: &Vec<JsonObjectMember>) -> Vec<JsonObjectMember>
    decreases items,
{
    let mut out: Vec<JsonObjectMember> = Vec::new();
    let mut i: usize = 0;
    while i < items.len()
        invariant
            i <= items.len(),
        decreases items.len() - i,
    {
        assert(decreases_to!(items => items[i as int]));
        out.push(clone_json_object_member(&items[i]));
        i += 1;
    }
    out
}

impl Clone for JsonValue {
    fn clone(&self) -> Self {
        clone_json_value(self)
    }
}

impl Wire for JsonValue {
    open spec fn wire(&self) -> Doc {
        json_value_doc(*self)
    }

    open spec fn parse(d: Doc, at: Seq<char>) -> Result<Doc, Fault> {
        json_value_parse(d, at)
    }

    fn encode(&self) -> (j: Json) {
        encode_json_value(self)
    }

    fn decode(j: &Json, at: &str) -> (r: Result<Self, DecodeError>) {
        decode_json_value(j, at)
    }

    proof fn round_trip(&self, at: Seq<char>) {
        lemma_json_value_round_trip(*self, at);
    }
}

impl Tagged for JsonValue {
    open spec fn known(tag: Seq<char>) -> bool {
        ||| tag == "jsonValueNull"@
        ||| tag == "jsonValueBoolean"@
        ||| tag == "jsonValueNumber"@
        ||| tag == "jsonValueString"@
        ||| tag == "jsonValueArray"@
        ||| tag == "jsonValueObject"@
    }

    fn knows(tag: &str) -> (r: bool) {
        same_text(tag, "jsonValueNull")
            || same_text(tag, "jsonValueBoolean")
            || same_text(tag, "jsonValueNumber")
            || same_text(tag, "jsonValueString")
            || same_text(tag, "jsonValueArray")
            || same_text(tag, "jsonValueObject")
    }

    proof fn tag_known(&self) {
        match self {
            Self::JsonValueNull(p) => p.tag_known(),
            Self::JsonValueBoolean(p) => p.tag_known(),
            Self::JsonValueNumber(p) => p.tag_known(),
            Self::JsonValueString(p) => p.tag_known(),
            Self::JsonValueArray(p) => {
                assert(tag_of(self.wire()) == Some("jsonValueArray"@));
                assert(Self::known("jsonValueArray"@));
            },
            Self::JsonValueObject(p) => {
                assert(tag_of(self.wire()) == Some("jsonValueObject"@));
                assert(Self::known("jsonValueObject"@));
            },
        }
    }
}

impl Union for JsonValue {
    proof fn unknown_rejected(d: Doc, at: Seq<char>) {
    }

    proof fn untagged_rejected(d: Doc, at: Seq<char>) {
    }
}

/// The document of a `JsonObjectMember` is the one that its own codec writes.
pub proof fn lemma_json_object_member_doc_is_wire(x: JsonObjectMember)
    ensures
        json_object_member_doc(x) == x.wire(),
{
    reveal(<JsonObjectMember as Wire>::wire);
}

/// A `JsonObjectMember` is decoded as its own codec decodes it.
pub proof fn lemma_json_object_member_parse_is_generic(d: Doc, at: Seq<char>)
    ensures
        json_object_member_parse(d, at) == JsonObjectMember::parse(d, at),
{
    reveal(<JsonObjectMember as Wire>::parse);
}

pub proof fn lemma_json_value_docs_are_wire(items: Seq<JsonValue>)
    ensures
        json_value_docs(items) == wire_items::<JsonValue>(items),
{
    assert(json_value_docs(items) =~= wire_items::<JsonValue>(items));
}

pub proof fn lemma_json_value_list_parse_is_generic(items: Seq<Doc>, at: Seq<char>)
    ensures
        json_value_list_parse(items, at) == parse_items::<JsonValue>(items, at),
    decreases items.len(),
{
    if items.len() > 0 {
        lemma_json_value_list_parse_is_generic(items.drop_last(), at);
    }
}

pub proof fn lemma_json_object_member_docs_are_wire(items: Seq<JsonObjectMember>)
    ensures
        json_object_member_docs(items) == wire_items::<JsonObjectMember>(items),
{
    assert forall|i: int| 0 <= i < items.len() implies json_object_member_doc(items[i]) == items[i].wire() by {
        lemma_json_object_member_doc_is_wire(items[i]);
    }
    assert(json_object_member_docs(items) =~= wire_items::<JsonObjectMember>(items));
}

pub proof fn lemma_json_object_member_list_parse_is_generic(items: Seq<Doc>, at: Seq<char>)
    ensures
        json_object_member_list_parse(items, at) == parse_items::<JsonObjectMember>(items, at),
    decreases items.len(),
{
    if items.len() > 0 {
        lemma_json_object_member_list_parse_is_generic(items.drop_last(), at);
        lemma_json_object_member_parse_is_generic(items.last(), at);
    }
}

impl JsonValue {
    /// A document tagged `jsonValueArray` decodes as a `JsonValueArray`.
    pub proof fn selects_json_value_array(d: Doc, at: Seq<char>)
        requires
            tag_of(d) == Some("jsonValueArray"@),
        ensures
            Self::parse(d, at) == JsonValueArray::parse(d, at),
    {
        reveal(<JsonValueArray as Wire>::parse);
        reveal_strlit("jsonValueArray");
        reveal_strlit("jsonValueBoolean");
        reveal_strlit("jsonValueNull");
        reveal_strlit("jsonValueNumber");
        reveal_strlit("jsonValueObject");
        reveal_strlit("jsonValueString");
        assert("jsonValueArray"@.len() == 14);
        assert("jsonValueBoolean"@.len() == 16);
        assert("jsonValueNull"@.len() == 13);
        assert("jsonValueNumber"@.len() == 15 && "jsonValueNumber"@[9] == 'N');
        assert("jsonValueObject"@.len() == 15 && "jsonValueObject"@[9] == 'O');
        assert("jsonValueString"@.len() == 15 && "jsonValueString"@[9] == 'S');
        if d is Object && d->Object_0.contains_key("values"@) {
            if let Doc::List(items) = d->Object_0["values"@] {
                lemma_json_value_list_parse_is_generic(items, "values"@);
            }
        }
    }

    /// The union writes a `JsonValueArray` as the `JsonValueArray` writes itself.
    pub proof fn writes_json_value_array(p: JsonValueArray)
        ensures
            Self::JsonValueArray(p).wire() == p.wire(),
    {
        reveal(<JsonValueArray as Wire>::wire);
        lemma_json_value_docs_are_wire(p.values@);
    }

    /// A document tagged `jsonValueObject` decodes as a `JsonValueObject`.
    pub proof fn selects_json_value_object(d: Doc, at: Seq<char>)
        requires
            tag_of(d) == Some("jsonValueObject"@),
        ensures
            Self::parse(d, at) == JsonValueObject::parse(d, at),
    {
        reveal(<JsonValueObject as Wire>::parse);
        reveal_strlit("jsonValueArray");
        reveal_strlit("jsonValueBoolean");
        reveal_strlit("jsonValueNull");
        reveal_strlit("jsonValueNumber");
        reveal_strlit("jsonValueObject");
        reveal_strlit("jsonValueString");
        assert("jsonValueArray"@.len() == 14);
        assert("jsonValueBoolean"@.len() == 16);
        assert("jsonValueNull"@.len() == 13);
        assert("jsonValueNumber"@.len() == 15 && "jsonValueNumber"@[9] == 'N');
        assert("jsonValueObject"@.len() == 15 && "jsonValueObject"@[9] == 'O');
        assert("jsonValueString"@.len() == 15 && "jsonValueString"@[9] == 'S');
        if d is Object && d->Object_0.contains_key("members"@) {
            if let Doc::List(items) = d->Object_0["members"@] {
                lemma_json_object_member_list_parse_is_generic(items, "members"@);
            }
        }
    }

    /// The union writes a `JsonValueObject` as the `JsonValueObject` writes itself.
    pub proof fn writes_json_value_object(p: JsonValueObject)
        ensures
            Self::JsonValueObject(p).wire() == p.wire(),
    {
        reveal(<JsonValueObject as Wire>::wire);
        lemma_json_object_member_docs_are_wire(p.members@);
    }
}

/// A rule to allow all users to do something
#[derive(Debug, Clone, PartialEq)]
pub struct UserPrivacySettingRuleAllowAll {}

impl Wire for UserPrivacySettingRuleAllowAll {
    #[verifier::opaque]
    open spec fn wire(&self) -> Doc {
        tagged(Map::empty(), "userPrivacySettingRuleAllowAll"@)
    }

    #[verifier::opaque]
    open spec fn parse(d: Doc, at: Seq<char>) -> Result<Doc, Fault> {
        match d {
            Doc::Object(_) => Ok(tagged(Map::empty(), "userPrivacySettingRuleAllowAll"@)),
            _ => Err(Fault::TypeMismatch(at)),
        }
    }

    fn encode(&self) -> (j: Json) {
        proof {
            reveal(<UserPrivacySettingRuleAllowAll as Wire>::wire);
        }
        seal(Vec::new(), "userPrivacySettingRuleAllowAll")
    }

    fn decode(j: &Json, at: &str) -> (r: Result<Self, DecodeError>) {
        proof {
            reveal(<UserPrivacySettingRuleAllowAll as Wire>::wire);
            reveal(<UserPrivacySettingRuleAllowAll as Wire>::parse);
        }
        let _ = members_of(j, at)?;
        Ok(UserPrivacySettingRuleAllowAll {})
    }

    proof fn round_trip(&self, at: Seq<char>) {
        reveal(<UserPrivacySettingRuleAllowAll as Wire>::wire);
        reveal(<UserPrivacySettingRuleAllowAll as Wire>::parse);
    }
}

impl Tagged for UserPrivacySettingRuleAllowAll {
    open spec fn known(tag: Seq<char>) -> bool {
        tag == "userPrivacySettingRuleAllowAll"@
    }

    fn knows(tag: &str) -> (r: bool) {
        same_text(tag, "userPrivacySettingRuleAllowAll")
    }

    proof fn tag_known(&self) {
        reveal(<UserPrivacySettingRuleAllowAll as Wire>::wire);
        assert(tag_of(self.wire()) == Some("userPrivacySettingRuleAllowAll"@));
        assert(Self::known("userPrivacySettingRuleAllowAll"@));
    }
}

/// A rule to allow all of a user's contacts to do something
#[derive(Debug, Clone, PartialEq)]
pub struct UserPrivacySettingRuleAllowContacts {}

impl Wire for UserPrivacySettingRuleAllowContacts {
    #[verifier::opaque]
    open spec fn wire(&self) -> Doc {
        tagged(Map::empty(), "userPrivacySettingRuleAllowContacts"@)
    }

    #[verifier::opaque]
    open spec fn parse(d: Doc, at: Seq<char>) -> Result<Doc, Fault> {
        match d {
            Doc::Object(_) => Ok(tagged(Map::empty(), "userPrivacySettingRuleAllowContacts"@)),
            _ => Err(Fault::TypeMismatch(at)),
        }
    }

    fn encode(&self) -> (j: Json) {
        proof {
            reveal(<UserPrivacySettingRuleAllowContacts as Wire>::wire);
        }
        seal(Vec::new(), "userPrivacySettingRuleAllowContacts")
    }

    fn decode(j: &Json, at: &str) -> (r: Result<Self, DecodeError>) {
        proof {
            reveal(<UserPrivacySettingRuleAllowContacts as Wire>::wire);
            reveal(<UserPrivacySettingRuleAllowContacts as Wire>::parse);
        }
        let _ = members_of(j, at)?;
        Ok(UserPrivacySettingRuleAllowContacts {})
    }

    proof fn round_trip(&self, at: Seq<char>) {
        reveal(<UserPrivacySettingRuleAllowContacts as Wire>::wire);
        reveal(<UserPrivacySettingRuleAllowContacts as Wire>::parse);
    }
}

impl Tagged for UserPrivacySettingRuleAllowContacts {
    open spec fn known(tag: Seq<char>) -> bool {
        tag == "userPrivacySettingRuleAllowContacts"@
    }

    fn knows(tag: &str) -> (r: bool) {
        same_text(tag, "userPrivacySettingRuleAllowContacts")
    }

    proof fn tag_known(&self) {
        reveal(<UserPrivacySettingRuleAllowContacts as Wire>::wire);
        assert(tag_of(self.wire()) == Some("userPrivacySettingRuleAllowContacts"@));
        assert(Self::known("userPrivacySettingRuleAllowContacts"@));
    }
}

/// A rule to allow certain specified users to do something
#[derive(Debug, Clone, PartialEq)]
pub struct UserPrivacySettingRuleAllowUsers {
    /// The user identifiers, total number of users in all rules must not exceed 1000
    pub user_ids: Vec<i32>,
}

impl Wire for UserPrivacySettingRuleAllowUsers {
    #[verifier::opaque]
    open spec fn wire(&self) -> Doc {
        tagged(
            Map::empty()
                .insert("userIds"@, self.user_ids.wire()),
            "userPrivacySettingRuleAllowUsers"@,
        )
    }

    #[verifier::opaque]
    open spec fn parse(d: Doc, at: Seq<char>) -> Result<Doc, Fault> {
        match d {
            Doc::Object(m) => {
                let user_ids = field::<Vec<i32>>(m, "userIds"@);
                if user_ids is Err {
                    user_ids
                } else {
                    Ok(
                        tagged(
                            Map::empty()
                                .insert("userIds"@, user_ids->Ok_0),
                            "userPrivacySettingRuleAllowUsers"@,
                        ),
                    )
                }
            },
            _ => Err(Fault::TypeMismatch(at)),
        }
    }

    fn encode(&self) -> (j: Json) {
        proof {
            reveal(<UserPrivacySettingRuleAllowUsers as Wire>::wire);
        }
        let mut members: Vec<Member> = Vec::new();
        put(&mut members, "userIds", self.user_ids.encode());
        seal(members, "userPrivacySettingRuleAllowUsers")
    }

    fn decode(j: &Json, at: &str) -> (r: Result<Self, DecodeError>) {
        proof {
            reveal(<UserPrivacySettingRuleAllowUsers as Wire>::wire);
            reveal(<UserPrivacySettingRuleAllowUsers as Wire>::parse);
        }
        let members = members_of(j, at)?;
        let user_ids = read_field::<Vec<i32>>(members, "userIds")?;
        Ok(UserPrivacySettingRuleAllowUsers { user_ids })
    }

    proof fn round_trip(&self, at: Seq<char>) {
        reveal(<UserPrivacySettingRuleAllowUsers as Wire>::wire);
        reveal(<UserPrivacySettingRuleAllowUsers as Wire>::parse);
        reveal_strlit("@type");
        reveal_strlit("userIds");
        assert("@type"@.len() == 5);
        assert("userIds"@.len() == 7);
        self.user_ids.round_trip("userIds"@);
    }
}

impl Tagged for UserPrivacySettingRuleAllowUsers {
    open spec fn known(tag: Seq<char>) -> bool {
        tag == "userPrivacySettingRuleAllowUsers"@
    }

    fn knows(tag: &str) -> (r: bool) {
        same_text(tag, "userPrivacySettingRuleAllowUsers")
    }

    proof fn tag_known(&self) {
        reveal(<UserPrivacySettingRuleAllowUsers as Wire>::wire);
        assert(tag_of(self.wire()) == Some("userPrivacySettingRuleAllowUsers"@));
        assert(Self::known("userPrivacySettingRuleAllowUsers"@));
    }
}

/// A rule to allow all members of certain specified basic groups and supergroups to doing something
#[derive(Debug, Clone, PartialEq)]
pub struct UserPrivacySettingRuleAllowChatMembers {
    /// The chat identifiers, total number of chats in all rules must not exceed 20
    pub chat_ids: Vec<i64>,
}

impl Wire for UserPrivacySettingRuleAllowChatMembers {
    #[verifier::opaque]
    open spec fn wire(&self) -> Doc {
        tagged(
            Map::empty()
                .insert("chatIds"@, self.chat_ids.wire()),
            "userPrivacySettingRuleAllowChatMembers"@,
        )
    }

    #[verifier::opaque]
    open spec fn parse(d: Doc, at: Seq<char>) -> Result<Doc, Fault> {
        match d {
            Doc::Object(m) => {
                let chat_ids = field::<Vec<i64>>(m, "chatIds"@);
                if chat_ids is Err {
                    chat_ids
                } else {
                    Ok(
                        tagged(
                            Map::empty()
                                .insert("chatIds"@, chat_ids->Ok_0),
                            "userPrivacySettingRuleAllowChatMembers"@,
                        ),
                    )
                }
            },
            _ => Err(Fault::TypeMismatch(at)),
        }
    }

    fn encode(&self) -> (j: Json) {
        proof {
            reveal(<UserPrivacySettingRuleAllowChatMembers as Wire>::wire);
        }
        let mut members: Vec<Member> = Vec::new();
        put(&mut members, "chatIds", self.chat_ids.encode());
        seal(members, "userPrivacySettingRuleAllowChatMembers")
    }

    fn decode(j: &Json, at: &str) -> (r: Result<Self, DecodeError>) {
        proof {
            reveal(<UserPrivacySettingRuleAllowChatMembers as Wire>::wire);
            reveal(<UserPrivacySettingRuleAllowChatMembers as Wire>::parse);
        }
        let members = members_of(j, at)?;
        let chat_ids = read_field::<Vec<i64>>(members, "chatIds")?;
        Ok(UserPrivacySettingRuleAllowChatMembers { chat_ids })
    }

    proof fn round_trip(&self, at: Seq<char>) {
        reveal(<UserPrivacySettingRuleAllowChatMembers as Wire>::wire);
        reveal(<UserPrivacySettingRuleAllowChatMembers as Wire>::parse);
        reveal_strlit("@type");
        reveal_strlit("chatIds");
        assert("@type"@.len() == 5);
        assert("chatIds"@.len() == 7);
        self.chat_ids.round_trip("chatIds"@);
    }
}

impl Tagged for UserPrivacySettingRuleAllowChatMembers {
    open spec fn known(tag: Seq<char>) -> bool {
        tag == "userPrivacySettingRuleAllowChatMembers"@
    }

    fn knows(tag: &str) -> (r: bool) {
        same_text(tag, "userPrivacySettingRuleAllowChatMembers")
    }

    proof fn tag_known(&self) {
        reveal(<UserPrivacySettingRuleAllowChatMembers as Wire>::wire);
        assert(tag_of(self.wire()) == Some("userPrivacySettingRuleAllowChatMembers"@));
        assert(Self::known("userPrivacySettingRuleAllowChatMembers"@));
    }
}

/// A rule to restrict all users from doing something
#[derive(Debug, Clone, PartialEq)]
pub struct UserPrivacySettingRuleRestrictAll {}

impl Wire for UserPrivacySettingRuleRestrictAll {
    #[verifier::opaque]
    open spec fn wire(&self) -> Doc {
        tagged(Map::empty(), "userPrivacySettingRuleRestrictAll"@)
    }

    #[verifier::opaque]
    open spec fn parse(d: Doc, at: Seq<char>) -> Result<Doc, Fault> {
        match d {
            Doc::Object(_) => Ok(tagged(Map::empty(), "userPrivacySettingRuleRestrictAll"@)),
            _ => Err(Fault::TypeMismatch(at)),
        }
    }

    fn encode(&self) -> (j: Json) {
        proof {
            reveal(<UserPrivacySettingRuleRestrictAll as Wire>::wire);
        }
        seal(Vec::new(), "userPrivacySettingRuleRestrictAll")
    }

    fn decode(j: &Json, at: &str) -> (r: Result<Self, DecodeError>) {
        proof {
            reveal(<UserPrivacySettingRuleRestrictAll as Wire>::wire);
            reveal(<UserPrivacySettingRuleRestrictAll as Wire>::parse);
        }
        let _ = members_of(j, at)?;
        Ok(UserPrivacySettingRuleRestrictAll {})
    }

    proof fn round_trip(&self, at: Seq<char>) {
        reveal(<UserPrivacySettingRuleRestrictAll as Wire>::wire);
        reveal(<UserPrivacySettingRuleRestrictAll as Wire>::parse);
    }
}

impl Tagged for UserPrivacySettingRuleRestrictAll {
    open spec fn known(tag: Seq<char>) -> bool {
        tag == "userPrivacySettingRuleRestrictAll"@
    }

    fn knows(tag: &str) -> (r: bool) {
        same_text(tag, "userPrivacySettingRuleRestrictAll")
    }

    proof fn tag_known(&self) {
        reveal(<UserPrivacySettingRuleRestrictAll as Wire>::wire);
        assert(tag_of(self.wire()) == Some("userPrivacySettingRuleRestrictAll"@));
        assert(Self::known("userPrivacySettingRuleRestrictAll"@));
    }
}

/// A rule to restrict all contacts of a user from doing something
#[derive(Debug, Clone, PartialEq)]
pub struct UserPrivacySettingRuleRestrictContacts {}

impl Wire for UserPrivacySettingRuleRestrictContacts {
    #[verifier::opaque]
    open spec fn wire(&self) -> Doc {
        tagged(Map::empty(), "userPrivacySettingRuleRestrictContacts"@)
    }

    #[verifier::opaque]
    open spec fn parse(d: Doc, at: Seq<char>) -> Result<Doc, Fault> {
        match d {
            Doc::Object(_) => Ok(tagged(Map::empty(), "userPrivacySettingRuleRestrictContacts"@)),
            _ => Err(Fault::TypeMismatch(at)),
        }
    }

    fn encode(&self) -> (j: Json) {
        proof {
            reveal(<UserPrivacySettingRuleRestrictContacts as Wire>::wire);
        }
        seal(Vec::new(), "userPrivacySettingRuleRestrictContacts")
    }

    fn decode(j: &Json, at: &str) -> (r: Result<Self, DecodeError>) {
        proof {
            reveal(<UserPrivacySettingRuleRestrictContacts as Wire>::wire);
            reveal(<UserPrivacySettingRuleRestrictContacts as Wire>::parse);
        }
        let _ = members_of(j, at)?;
        Ok(UserPrivacySettingRuleRestrictContacts {})
    }

    proof fn round_trip(&self, at: Seq<char>) {
        reveal(<UserPrivacySettingRuleRestrictContacts as Wire>::wire);
        reveal(<UserPrivacySettingRuleRestrictContacts as Wire>::parse);
    }
}

impl Tagged for UserPrivacySettingRuleRestrictContacts {
    open spec fn known(tag: Seq<char>) -> bool {
        tag == "userPrivacySettingRuleRestrictContacts"@
    }

    fn knows(tag: &str) -> (r: bool) {
        same_text(tag, "userPrivacySettingRuleRestrictContacts")
    }

    proof fn tag_known(&self) {
        reveal(<UserPrivacySettingRuleRestrictContacts as Wire>::wire);
        assert(tag_of(self.wire()) == Some("userPrivacySettingRuleRestrictContacts"@));
        assert(Self::known("userPrivacySettingRuleRestrictContacts"@));
    }
}

/// A rule to restrict all specified users from doing something
#[derive(Debug, Clone, PartialEq)]
pub struct UserPrivacySettingRuleRestrictUsers {
    /// The user identifiers, total number of users in all rules must not exceed 1000
    pub user_ids: Vec<i32>,
}

impl Wire for UserPrivacySettingRuleRestrictUsers {
    #[verifier::opaque]
    open spec fn wire(&self) -> Doc {
        tagged(
            Map::empty()
                .insert("userIds"@, self.user_ids.wire()),
            "userPrivacySettingRuleRestrictUsers"@,
        )
    }

    #[verifier::opaque]
    open spec fn parse(d: Doc, at: Seq<char>) -> Result<Doc, Fault> {
        match d {
            Doc::Object(m) => {
                let user_ids = field::<Vec<i32>>(m, "userIds"@);
                if user_ids is Err {
                    user_ids
                } else {
                    Ok(
                        tagged(
                            Map::empty()
                                .insert("userIds"@, user_ids->Ok_0),
                            "userPrivacySettingRuleRestrictUsers"@,
                        ),
                    )
                }
            },
            _ => Err(Fault::TypeMismatch(at)),
        }
    }

    fn encode(&self) -> (j: Json) {
        proof {
            reveal(<UserPrivacySettingRuleRestrictUsers as Wire>::wire);
        }
        let mut members: Vec<Member> = Vec::new();
        put(&mut members, "userIds", self.user_ids.encode());
        seal(members, "userPrivacySettingRuleRestrictUsers")
    }

    fn decode(j: &Json, at: &str) -> (r: Result<Self, DecodeError>) {
        proof {
            reveal(<UserPrivacySettingRuleRestrictUsers as Wire>::wire);
            reveal(<UserPrivacySettingRuleRestrictUsers as Wire>::parse);
        }
        let members = members_of(j, at)?;
        let user_ids = read_field::<Vec<i32>>(members, "userIds")?;
        Ok(UserPrivacySettingRuleRestrictUsers { user_ids })
    }

    proof fn round_trip(&self, at: Seq<char>) {
        reveal(<UserPrivacySettingRuleRestrictUsers as Wire>::wire);
        reveal(<UserPrivacySettingRuleRestrictUsers as Wire>::parse);
        reveal_strlit("@type");
        reveal_strlit("userIds");
        assert("@type"@.len() == 5);
        assert("userIds"@.len() == 7);
        self.user_ids.round_trip("userIds"@);
    }
}

impl Tagged for UserPrivacySettingRuleRestrictUsers {
    open spec fn known(tag: Seq<char>) -> bool {
        tag == "userPrivacySettingRuleRestrictUsers"@
    }

    fn knows(tag: &str) -> (r: bool) {
        same_text(tag, "userPrivacySettingRuleRestrictUsers")
    }

    proof fn tag_known(&self) {
        reveal(<UserPrivacySettingRuleRestrictUsers as Wire>::wire);
        assert(tag_of(self.wire()) == Some("userPrivacySettingRuleRestrictUsers"@));
        assert(Self::known("userPrivacySettingRuleRestrictUsers"@));
    }
}

/// A rule to restrict all members of specified basic groups and supergroups from doing something
#[derive(Debug, Clone, PartialEq)]
pub struct UserPrivacySettingRuleRestrictChatMembers {
    /// The chat identifiers, total number of chats in all rules must not exceed 20
    pub chat_ids: Vec<i64>,
}

impl Wire for UserPrivacySettingRuleRestrictChatMembers {
    #[verifier::opaque]
    open spec fn wire(&self) -> Doc {
        tagged(
            Map::empty()
                .insert("chatIds"@, self.chat_ids.wire()),
            "userPrivacySettingRuleRestrictChatMembers"@,
        )
    }

    #[verifier::opaque]
    open spec fn parse(d: Doc, at: Seq<char>) -> Result<Doc, Fault> {
        match d {
            Doc::Object(m) => {
                let chat_ids = field::<Vec<i64>>(m, "chatIds"@);
                if chat_ids is Err {
                    chat_ids
                } else {
                    Ok(
                        tagged(
                            Map::empty()
                                .insert("chatIds"@, chat_ids->Ok_0),
                            "userPrivacySettingRuleRestrictChatMembers"@,
                        ),
                    )
                }
            },
            _ => Err(Fault::TypeMismatch(at)),
        }
    }

    fn encode(&self) -> (j: Json) {
        proof {
            reveal(<UserPrivacySettingRuleRestrictChatMembers as Wire>::wire);
        }
        let mut members: Vec<Member> = Vec::new();
        put(&mut members, "chatIds", self.chat_ids.encode());
        seal(members, "userPrivacySettingRuleRestrictChatMembers")
    }

    fn decode(j: &Json, at: &str) -> (r: Result<Self, DecodeError>) {
        proof {
            reveal(<UserPrivacySettingRuleRestrictChatMembers as Wire>::wire);
            reveal(<UserPrivacySettingRuleRestrictChatMembers as Wire>::parse);
        }
        let members = members_of(j, at)?;
        let chat_ids = read_field::<Vec<i64>>(members, "chatIds")?;
        Ok(UserPrivacySettingRuleRestrictChatMembers { chat_ids })
    }

    proof fn round_trip(&self, at: Seq<char>) {
        reveal(<UserPrivacySettingRuleRestrictChatMembers as Wire>::wire);
        reveal(<UserPrivacySettingRuleRestrictChatMembers as Wire>::parse);
        reveal_strlit("@type");
        reveal_strlit("chatIds");
        assert("@type"@.len() == 5);
        assert("chatIds"@.len() == 7);
        self.chat_ids.round_trip("chatIds"@);
    }
}

impl Tagged for UserPrivacySettingRuleRestrictChatMembers {
    open spec fn known(tag: Seq<char>) -> bool {
        tag == "userPrivacySettingRuleRestrictChatMembers"@
    }

    fn knows(tag: &str) -> (r: bool) {
        same_text(tag, "userPrivacySettingRuleRestrictChatMembers")
    }

    proof fn tag_known(&self) {
        reveal(<UserPrivacySettingRuleRestrictChatMembers as Wire>::wire);
        assert(tag_of(self.wire()) == Some("userPrivacySettingRuleRestrictChatMembers"@));
        assert(Self::known("userPrivacySettingRuleRestrictChatMembers"@));
    }
}

/// Represents a single rule for managing privacy settings
#[derive(Debug, Clone, PartialEq)]
pub enum UserPrivacySettingRule {
    UserPrivacySettingRuleAllowAll(UserPrivacySettingRuleAllowAll),
    UserPrivacySettingRuleAllowContacts(UserPrivacySettingRuleAllowContacts),
    UserPrivacySettingRuleAllowUsers(UserPrivacySettingRuleAllowUsers),
    UserPrivacySettingRuleAllowChatMembers(UserPrivacySettingRuleAllowChatMembers),
    UserPrivacySettingRuleRestrictAll(UserPrivacySettingRuleRestrictAll),
    UserPrivacySettingRuleRestrictContacts(UserPrivacySettingRuleRestrictContacts),
    UserPrivacySettingRuleRestrictUsers(UserPrivacySettingRuleRestrictUsers),
    UserPrivacySettingRuleRestrictChatMembers(UserPrivacySettingRuleRestrictChatMembers),
}

impl Wire for UserPrivacySettingRule {
    #[verifier::opaque]
    open spec fn wire(&self) -> Doc {
        match self {
            Self::UserPrivacySettingRuleAllowAll(p) => p.wire(),
            Self::UserPrivacySettingRuleAllowContacts(p) => p.wire(),
            Self::UserPrivacySettingRuleAllowUsers(p) => p.wire(),
            Self::UserPrivacySettingRuleAllowChatMembers(p) => p.wire(),
            Self::UserPrivacySettingRuleRestrictAll(p) => p.wire(),
            Self::UserPrivacySettingRuleRestrictContacts(p) => p.wire(),
            Self::UserPrivacySettingRuleRestrictUsers(p) => p.wire(),
            Self::UserPrivacySettingRuleRestrictChatMembers(p) => p.wire(),
        }
    }

    #[verifier::opaque]
    open spec fn parse(d: Doc, at: Seq<char>) -> Result<Doc, Fault> {
        match d {
            Doc::Object(_) => match tag_of(d) {
                Some(t) => if t == "userPrivacySettingRuleAllowAll"@ {
                    UserPrivacySettingRuleAllowAll::parse(d, at)
                } else if t == "userPrivacySettingRuleAllowContacts"@ {
                    UserPrivacySettingRuleAllowContacts::parse(d, at)
                } else if t == "userPrivacySettingRuleAllowUsers"@ {
                    UserPrivacySettingRuleAllowUsers::parse(d, at)
                } else if t == "userPrivacySettingRuleAllowChatMembers"@ {
                    UserPrivacySettingRuleAllowChatMembers::parse(d, at)
                } else if t == "userPrivacySettingRuleRestrictAll"@ {
                    UserPrivacySettingRuleRestrictAll::parse(d, at)
                } else if t == "userPrivacySettingRuleRestrictContacts"@ {
                    UserPrivacySettingRuleRestrictContacts::parse(d, at)
                } else if t == "userPrivacySettingRuleRestrictUsers"@ {
                    UserPrivacySettingRuleRestrictUsers::parse(d, at)
                } else if t == "userPrivacySettingRuleRestrictChatMembers"@ {
                    UserPrivacySettingRuleRestrictChatMembers::parse(d, at)
                } else {
                    Err(Fault::UnknownVariant(t))
                },
                None => Err(Fault::MissingDiscriminator),
            },
            _ => Err(Fault::TypeMismatch(at)),
        }
    }

    fn encode(&self) -> (j: Json) {
        proof {
            reveal(<UserPrivacySettingRule as Wire>::wire);
        }
        match self {
            Self::UserPrivacySettingRuleAllowAll(p) => p.encode(),
            Self::UserPrivacySettingRuleAllowContacts(p) => p.encode(),
            Self::UserPrivacySettingRuleAllowUsers(p) => p.encode(),
            Self::UserPrivacySettingRuleAllowChatMembers(p) => p.encode(),
            Self::UserPrivacySettingRuleRestrictAll(p) => p.encode(),
            Self::UserPrivacySettingRuleRestrictContacts(p) => p.encode(),
            Self::UserPrivacySettingRuleRestrictUsers(p) => p.encode(),
            Self::UserPrivacySettingRuleRestrictChatMembers(p) => p.encode(),
        }
    }

    fn decode(j: &Json, at: &str) -> (r: Result<Self, DecodeError>) {
        proof {
            reveal(<UserPrivacySettingRule as Wire>::wire);
            reveal(<UserPrivacySettingRule as Wire>::parse);
        }
        let members = members_of(j, at)?;
        let tag = discriminator(members)?;
        if same_text(tag, "userPrivacySettingRuleAllowAll") {
            Ok(Self::UserPrivacySettingRuleAllowAll(UserPrivacySettingRuleAllowAll::decode(j, at)?))
        } else if same_text(tag, "userPrivacySettingRuleAllowContacts") {
            Ok(
                Self::UserPrivacySettingRuleAllowContacts(
                    UserPrivacySettingRuleAllowContacts::decode(j, at)?,
                ),
            )
        } else if same_text(tag, "userPrivacySettingRuleAllowUsers") {
            Ok(
                Self::UserPrivacySettingRuleAllowUsers(
                    UserPrivacySettingRuleAllowUsers::decode(j, at)?,
                ),
            )
        } else if same_text(tag, "userPrivacySettingRuleAllowChatMembers") {
            Ok(
                Self::UserPrivacySettingRuleAllowChatMembers(
                    UserPrivacySettingRuleAllowChatMembers::decode(j, at)?,
                ),
            )
        } else if same_text(tag, "userPrivacySettingRuleRestrictAll") {
            Ok(
                Self::UserPrivacySettingRuleRestrictAll(
                    UserPrivacySettingRuleRestrictAll::decode(j, at)?,
                ),
            )
        } else if same_text(tag, "userPrivacySettingRuleRestrictContacts") {
            Ok(
                Self::UserPrivacySettingRuleRestrictContacts(
                    UserPrivacySettingRuleRestrictContacts::decode(j, at)?,
                ),
            )
        } else if same_text(tag, "userPrivacySettingRuleRestrictUsers") {
            Ok(
                Self::UserPrivacySettingRuleRestrictUsers(
                    UserPrivacySettingRuleRestrictUsers::decode(j, at)?,
                ),
            )
        } else if same_text(tag, "userPrivacySettingRuleRestrictChatMembers") {
            Ok(
                Self::UserPrivacySettingRuleRestrictChatMembers(
                    UserPrivacySettingRuleRestrictChatMembers::decode(j, at)?,
                ),
            )
        } else {
            Err(DecodeError::UnknownVariant(tag.to_owned()))
        }
    }

    proof fn round_trip(&self, at: Seq<char>) {
        reveal(<UserPrivacySettingRule as Wire>::wire);
        reveal(<UserPrivacySettingRule as Wire>::parse);
        reveal_strlit("userPrivacySettingRuleAllowAll");
        reveal_strlit("userPrivacySettingRuleAllowChatMembers");
        reveal_strlit("userPrivacySettingRuleAllowContacts");
        reveal_strlit("userPrivacySettingRuleAllowUsers");
        reveal_strlit("userPrivacySettingRuleRestrictAll");
        reveal_strlit("userPrivacySettingRuleRestrictChatMembers");
        reveal_strlit("userPrivacySettingRuleRestrictContacts");
        reveal_strlit("userPrivacySettingRuleRestrictUsers");
        assert("userPrivacySettingRuleAllowAll"@.len() == 30);
        assert({
            &&& "userPrivacySettingRuleAllowChatMembers"@.len() == 38
            &&& "userPrivacySettingRuleAllowChatMembers"@[22] == 'A'
        });
        assert({
            &&& "userPrivacySettingRuleAllowContacts"@.len() == 35
            &&& "userPrivacySettingRuleAllowContacts"@[22] == 'A'
        });
        assert("userPrivacySettingRuleAllowUsers"@.len() == 32);
        assert("userPrivacySettingRuleRestrictAll"@.len() == 33);
        assert("userPrivacySettingRuleRestrictChatMembers"@.len() == 41);
        assert({
            &&& "userPrivacySettingRuleRestrictContacts"@.len() == 38
            &&& "userPrivacySettingRuleRestrictContacts"@[22] == 'R'
        });
        assert({
            &&& "userPrivacySettingRuleRestrictUsers"@.len() == 35
            &&& "userPrivacySettingRuleRestrictUsers"@[22] == 'R'
        });
        match self {
            Self::UserPrivacySettingRuleAllowAll(p) => {
                p.tag_known();
                p.round_trip(at);
            },
            Self::UserPrivacySettingRuleAllowContacts(p) => {
                p.tag_known();
                p.round_trip(at);
            },
            Self::UserPrivacySettingRuleAllowUsers(p) => {
                p.tag_known();
                p.round_trip(at);
            },
            Self::UserPrivacySettingRuleAllowChatMembers(p) => {
                p.tag_known();
                p.round_trip(at);
            },
            Self::UserPrivacySettingRuleRestrictAll(p) => {
                p.tag_known();
                p.round_trip(at);
            },
            Self::UserPrivacySettingRuleRestrictContacts(p) => {
                p.tag_known();
                p.round_trip(at);
            },
            Self::UserPrivacySettingRuleRestrictUsers(p) => {
                p.tag_known();
                p.round_trip(at);
            },
            Self::UserPrivacySettingRuleRestrictChatMembers(p) => {
                p.tag_known();
                p.round_trip(at);
            },
        }
    }
}

impl Tagged for UserPrivacySettingRule {
    open spec fn known(tag: Seq<char>) -> bool {
        ||| tag == "userPrivacySettingRuleAllowAll"@
        ||| tag == "userPrivacySettingRuleAllowContacts"@
        ||| tag == "userPrivacySettingRuleAllowUsers"@
        ||| tag == "userPrivacySettingRuleAllowChatMembers"@
        ||| tag == "userPrivacySettingRuleRestrictAll"@
        ||| tag == "userPrivacySettingRuleRestrictContacts"@
        ||| tag == "userPrivacySettingRuleRestrictUsers"@
        ||| tag == "userPrivacySettingRuleRestrictChatMembers"@
    }

    fn knows(tag: &str) -> (r: bool) {
        same_text(tag, "userPrivacySettingRuleAllowAll")
            || same_text(tag, "userPrivacySettingRuleAllowContacts")
            || same_text(tag, "userPrivacySettingRuleAllowUsers")
            || same_text(tag, "userPrivacySettingRuleAllowChatMembers")
            || same_text(tag, "userPrivacySettingRuleRestrictAll")
            || same_text(tag, "userPrivacySettingRuleRestrictContacts")
            || same_text(tag, "userPrivacySettingRuleRestrictUsers")
            || same_text(tag, "userPrivacySettingRuleRestrictChatMembers")
    }

    proof fn tag_known(&self) {
        reveal(<UserPrivacySettingRule as Wire>::wire);
        match self {
            Self::UserPrivacySettingRuleAllowAll(p) => p.tag_known(),
            Self::UserPrivacySettingRuleAllowContacts(p) => p.tag_known(),
            Self::UserPrivacySettingRuleAllowUsers(p) => p.tag_known(),
            Self::UserPrivacySettingRuleAllowChatMembers(p) => p.tag_known(),
            Self::UserPrivacySettingRuleRestrictAll(p) => p.tag_known(),
            Self::UserPrivacySettingRuleRestrictContacts(p) => p.tag_known(),
            Self::UserPrivacySettingRuleRestrictUsers(p) => p.tag_known(),
            Self::UserPrivacySettingRuleRestrictChatMembers(p) => p.tag_known(),
        }
    }
}

impl Union for UserPrivacySettingRule {
    proof fn unknown_rejected(d: Doc, at: Seq<char>) {
        reveal(<UserPrivacySettingRule as Wire>::parse);
    }

    proof fn untagged_rejected(d: Doc, at: Seq<char>) {
        reveal(<UserPrivacySettingRule as Wire>::parse);
    }
}

/// A list of privacy rules. Rules are matched in the specified order. The first matched rule
/// defines the privacy setting for a given user. If no rule matches, the action is not allowed
#[derive(Debug, Clone, PartialEq)]
pub struct UserPrivacySettingRules {
    /// A list of rules
    pub rules: Vec<UserPrivacySettingRule>,
}

impl Wire for UserPrivacySettingRules {
    #[verifier::opaque]
    open spec fn wire(&self) -> Doc {
        tagged(
            Map::empty()
                .insert("rules"@, self.rules.wire()),
            "userPrivacySettingRules"@,
        )
    }

    #[verifier::opaque]
    open spec fn parse(d: Doc, at: Seq<char>) -> Result<Doc, Fault> {
        match d {
            Doc::Object(m) => {
                let rules = field::<Vec<UserPrivacySettingRule>>(m, "rules"@);
                if rules is Err {
                    rules
                } else {
                    Ok(
                        tagged(
                            Map::empty()
                                .insert("rules"@, rules->Ok_0),
                            "userPrivacySettingRules"@,
                        ),
                    )
                }
            },
            _ => Err(Fault::TypeMismatch(at)),
        }
    }

    fn encode(&self) -> (j: Json) {
        proof {
            reveal(<UserPrivacySettingRules as Wire>::wire);
        }
        let mut members: Vec<Member> = Vec::new();
        put(&mut members, "rules", self.rules.encode());
        seal(members, "userPrivacySettingRules")
    }

    fn decode(j: &Json, at: &str) -> (r: Result<Self, DecodeError>) {
        proof {
            reveal(<UserPrivacySettingRules as Wire>::wire);
            reveal(<UserPrivacySettingRules as Wire>::parse);
        }
        let members = members_of(j, at)?;
        let rules = read_field::<Vec<UserPrivacySettingRule>>(members, "rules")?;
        Ok(UserPrivacySettingRules { rules })
    }

    proof fn round_trip(&self, at: Seq<char>) {
        reveal(<UserPrivacySettingRules as Wire>::wire);
        reveal(<UserPrivacySettingRules as Wire>::parse);
        reveal_strlit("@type");
        reveal_strlit("rules");
        assert("@type"@.len() == 5 && "@type"@[0] == '@');
        assert("rules"@.len() == 5 && "rules"@[0] == 'r');
        self.rules.round_trip("rules"@);
    }
}

impl Tagged for UserPrivacySettingRules {
    open spec fn known(tag: Seq<char>) -> bool {
        tag == "userPrivacySettingRules"@
    }

    fn knows(tag: &str) -> (r: bool) {
        same_text(tag, "userPrivacySettingRules")
    }

    proof fn tag_known(&self) {
        reveal(<UserPrivacySettingRules as Wire>::wire);
        assert(tag_of(self.wire()) == Some("userPrivacySettingRules"@));
        assert(Self::known("userPrivacySettingRules"@));
    }
}

/// A privacy setting for managing whether the user's online status is visible
#[derive(Debug, Clone, PartialEq)]
pub struct UserPrivacySettingShowStatus {}

impl Wire for UserPrivacySettingShowStatus {
    #[verifier::opaque]
    open spec fn wire(&self) -> Doc {
        tagged(Map::empty(), "userPrivacySettingShowStatus"@)
    }

    #[verifier::opaque]
    open spec fn parse(d: Doc, at: Seq<char>) -> Result<Doc, Fault> {
        match d {
            Doc::Object(_) => Ok(tagged(Map::empty(), "userPrivacySettingShowStatus"@)),
            _ => Err(Fault::TypeMismatch(at)),
        }
    }

    fn encode(&self) -> (j: Json) {
        proof {
            reveal(<UserPrivacySettingShowStatus as Wire>::wire);
        }
        seal(Vec::new(), "userPrivacySettingShowStatus")
    }

    fn decode(j: &Json, at: &str) -> (r: Result<Self, DecodeError>) {
        proof {
            reveal(<UserPrivacySettingShowStatus as Wire>::wire);
            reveal(<UserPrivacySettingShowStatus as Wire>::parse);
        }
        let _ = members_of(j, at)?;
        Ok(UserPrivacySettingShowStatus {})
    }

    proof fn round_trip(&self, at: Seq<char>) {
        reveal(<UserPrivacySettingShowStatus as Wire>::wire);
        reveal(<UserPrivacySettingShowStatus as Wire>::parse);
    }
}

impl Tagged for UserPrivacySettingShowStatus {
    open spec fn known(tag: Seq<char>) -> bool {
        tag == "userPrivacySettingShowStatus"@
    }

    fn knows(tag: &str) -> (r: bool) {
        same_text(tag, "userPrivacySettingShowStatus")
    }

    proof fn tag_known(&self) {
        reveal(<UserPrivacySettingShowStatus as Wire>::wire);
        assert(tag_of(self.wire()) == Some("userPrivacySettingShowStatus"@));
        assert(Self::known("userPrivacySettingShowStatus"@));
    }
}

/// A privacy setting for managing whether the user's profile photo is visible
#[derive(Debug, Clone, PartialEq)]
pub struct UserPrivacySettingShowProfilePhoto {}

impl Wire for UserPrivacySettingShowProfilePhoto {
    #[verifier::opaque]
    open spec fn wire(&self) -> Doc {
        tagged(Map::empty(), "userPrivacySettingShowProfilePhoto"@)
    }

    #[verifier::opaque]
    open spec fn parse(d: Doc, at: Seq<char>) -> Result<Doc, Fault> {
        match d {
            Doc::Object(_) => Ok(tagged(Map::empty(), "userPrivacySettingShowProfilePhoto"@)),
            _ => Err(Fault::TypeMismatch(at)),
        }
    }

    fn encode(&self) -> (j: Json) {
        proof {
            reveal(<UserPrivacySettingShowProfilePhoto as Wire>::wire);
        }
        seal(Vec::new(), "userPrivacySettingShowProfilePhoto")
    }

    fn decode(j: &Json, at: &str) -> (r: Result<Self, DecodeError>) {
        proof {
            reveal(<UserPrivacySettingShowProfilePhoto as Wire>::wire);
            reveal(<UserPrivacySettingShowProfilePhoto as Wire>::parse);
        }
        let _ = members_of(j, at)?;
        Ok(UserPrivacySettingShowProfilePhoto {})
    }

    proof fn round_trip(&self, at: Seq<char>) {
        reveal(<UserPrivacySettingShowProfilePhoto as Wire>::wire);
        reveal(<UserPrivacySettingShowProfilePhoto as Wire>::parse);
    }
}

impl Tagged for UserPrivacySettingShowProfilePhoto {
    open spec fn known(tag: Seq<char>) -> bool {
        tag == "userPrivacySettingShowProfilePhoto"@
    }

    fn knows(tag: &str) -> (r: bool) {
        same_text(tag, "userPrivacySettingShowProfilePhoto")
    }

    proof fn tag_known(&self) {
        reveal(<UserPrivacySettingShowProfilePhoto as Wire>::wire);
        assert(tag_of(self.wire()) == Some("userPrivacySettingShowProfilePhoto"@));
        assert(Self::known("userPrivacySettingShowProfilePhoto"@));
    }
}

/// A privacy setting for managing whether a link to the user's account is included in forwarded
/// messages
#[derive(Debug, Clone, PartialEq)]
pub struct UserPrivacySettingShowLinkInForwardedMessages {}

impl Wire for UserPrivacySettingShowLinkInForwardedMessages {
    #[verifier::opaque]
    open spec fn wire(&self) -> Doc {
        tagged(Map::empty(), "userPrivacySettingShowLinkInForwardedMessages"@)
    }

    #[verifier::opaque]
    open spec fn parse(d: Doc, at: Seq<char>) -> Result<Doc, Fault> {
        match d {
            Doc::Object(
                _) => Ok(tagged(Map::empty(),
                "userPrivacySettingShowLinkInForwardedMessages"@),
            ),
            _ => Err(Fault::TypeMismatch(at)),
        }
    }

    fn encode(&self) -> (j: Json) {
        proof {
            reveal(<UserPrivacySettingShowLinkInForwardedMessages as Wire>::wire);
        }
        seal(Vec::new(), "userPrivacySettingShowLinkInForwardedMessages")
    }

    fn decode(j: &Json, at: &str) -> (r: Result<Self, DecodeError>) {
        proof {
            reveal(<UserPrivacySettingShowLinkInForwardedMessages as Wire>::wire);
            reveal(<UserPrivacySettingShowLinkInForwardedMessages as Wire>::parse);
        }
        let _ = members_of(j, at)?;
        Ok(UserPrivacySettingShowLinkInForwardedMessages {})
    }

    proof fn round_trip(&self, at: Seq<char>) {
        reveal(<UserPrivacySettingShowLinkInForwardedMessages as Wire>::wire);
        reveal(<UserPrivacySettingShowLinkInForwardedMessages as Wire>::parse);
    }
}

impl Tagged for UserPrivacySettingShowLinkInForwardedMessages {
    open spec fn known(tag: Seq<char>) -> bool {
        tag == "userPrivacySettingShowLinkInForwardedMessages"@
    }

    fn knows(tag: &str) -> (r: bool) {
        same_text(tag, "userPrivacySettingShowLinkInForwardedMessages")
    }

    proof fn tag_known(&self) {
        reveal(<UserPrivacySettingShowLinkInForwardedMessages as Wire>::wire);
        assert(tag_of(self.wire()) == Some("userPrivacySettingShowLinkInForwardedMessages"@));
        assert(Self::known("userPrivacySettingShowLinkInForwardedMessages"@));
    }
}

/// A privacy setting for managing whether the user's phone number is visible
#[derive(Debug, Clone, PartialEq)]
pub struct UserPrivacySettingShowPhoneNumber {}

impl Wire for UserPrivacySettingShowPhoneNumber {
    #[verifier::opaque]
    open spec fn wire(&self) -> Doc {
        tagged(Map::empty(), "userPrivacySettingShowPhoneNumber"@)
    }

    #[verifier::opaque]
    open spec fn parse(d: Doc, at: Seq<char>) -> Result<Doc, Fault> {
        match d {
            Doc::Object(_) => Ok(tagged(Map::empty(), "userPrivacySettingShowPhoneNumber"@)),
            _ => Err(Fault::TypeMismatch(at)),
        }
    }

    fn encode(&self) -> (j: Json) {
        proof {
            reveal(<UserPrivacySettingShowPhoneNumber as Wire>::wire);
        }
        seal(Vec::new(), "userPrivacySettingShowPhoneNumber")
    }

    fn decode(j: &Json, at: &str) -> (r: Result<Self, DecodeError>) {
        proof {
            reveal(<UserPrivacySettingShowPhoneNumber as Wire>::wire);
            reveal(<UserPrivacySettingShowPhoneNumber as Wire>::parse);
        }
        let _ = members_of(j, at)?;
        Ok(UserPrivacySettingShowPhoneNumber {})
    }

    proof fn round_trip(&self, at: Seq<char>) {
        reveal(<UserPrivacySettingShowPhoneNumber as Wire>::wire);
        reveal(<UserPrivacySettingShowPhoneNumber as Wire>::parse);
    }
}

impl Tagged for UserPrivacySettingShowPhoneNumber {
    open spec fn known(tag: Seq<char>) -> bool {
        tag == "userPrivacySettingShowPhoneNumber"@
    }

    fn knows(tag: &str) -> (r: bool) {
        same_text(tag, "userPrivacySettingShowPhoneNumber")
    }

    proof fn tag_known(&self) {
        reveal(<UserPrivacySettingShowPhoneNumber as Wire>::wire);
        assert(tag_of(self.wire()) == Some("userPrivacySettingShowPhoneNumber"@));
        assert(Self::known("userPrivacySettingShowPhoneNumber"@));
    }
}

/// A privacy setting for managing whether the user can be invited to chats
#[derive(Debug, Clone, PartialEq)]
pub struct UserPrivacySettingAllowChatInvites {}

impl Wire for UserPrivacySettingAllowChatInvites {
    #[verifier::opaque]
    open spec fn wire(&self) -> Doc {
        tagged(Map::empty(), "userPrivacySettingAllowChatInvites"@)
    }

    #[verifier::opaque]
    open spec fn parse(d: Doc, at: Seq<char>) -> Result<Doc, Fault> {
        match d {
            Doc::Object(_) => Ok(tagged(Map::empty(), "userPrivacySettingAllowChatInvites"@)),
            _ => Err(Fault::TypeMismatch(at)),
        }
    }

    fn encode(&self) -> (j: Json) {
        proof {
            reveal(<UserPrivacySettingAllowChatInvites as Wire>::wire);
        }
        seal(Vec::new(), "userPrivacySettingAllowChatInvites")
    }

    fn decode(j: &Json, at: &str) -> (r: Result<Self, DecodeError>) {
        proof {
            reveal(<UserPrivacySettingAllowChatInvites as Wire>::wire);
            reveal(<UserPrivacySettingAllowChatInvites as Wire>::parse);
        }
        let _ = members_of(j, at)?;
        Ok(UserPrivacySettingAllowChatInvites {})
    }

    proof fn round_trip(&self, at: Seq<char>) {
        reveal(<UserPrivacySettingAllowChatInvites as Wire>::wire);
        reveal(<UserPrivacySettingAllowChatInvites as Wire>::parse);
    }
}

impl Tagged for UserPrivacySettingAllowChatInvites {
    open spec fn known(tag: Seq<char>) -> bool {
        tag == "userPrivacySettingAllowChatInvites"@
    }

    fn knows(tag: &str) -> (r: bool) {
        same_text(tag, "userPrivacySettingAllowChatInvites")
    }

    proof fn tag_known(&self) {
        reveal(<UserPrivacySettingAllowChatInvites as Wire>::wire);
        assert(tag_of(self.wire()) == Some("userPrivacySettingAllowChatInvites"@));
        assert(Self::known("userPrivacySettingAllowChatInvites"@));
    }
}

/// A privacy setting for managing whether the user can be called
#[derive(Debug, Clone, PartialEq)]
pub struct UserPrivacySettingAllowCalls {}

impl Wire for UserPrivacySettingAllowCalls {
    #[verifier::opaque]
    open spec fn wire(&self) -> Doc {
        tagged(Map::empty(), "userPrivacySettingAllowCalls"@)
    }

    #[verifier::opaque]
    open spec fn parse(d: Doc, at: Seq<char>) -> Result<Doc, Fault> {
        match d {
            Doc::Object(_) => Ok(tagged(Map::empty(), "userPrivacySettingAllowCalls"@)),
            _ => Err(Fault::TypeMismatch(at)),
        }
    }

    fn encode(&self) -> (j: Json) {
        proof {
            reveal(<UserPrivacySettingAllowCalls as Wire>::wire);
        }
        seal(Vec::new(), "userPrivacySettingAllowCalls")
    }

    fn decode(j: &Json, at: &str) -> (r: Result<Self, DecodeError>) {
        proof {
            reveal(<UserPrivacySettingAllowCalls as Wire>::wire);
            reveal(<UserPrivacySettingAllowCalls as Wire>::parse);
        }
        let _ = members_of(j, at)?;
        Ok(UserPrivacySettingAllowCalls {})
    }

    proof fn round_trip(&self, at: Seq<char>) {
        reveal(<UserPrivacySettingAllowCalls as Wire>::wire);
        reveal(<UserPrivacySettingAllowCalls as Wire>::parse);
    }
}

impl Tagged for UserPrivacySettingAllowCalls {
    open spec fn known(tag: Seq<char>) -> bool {
        tag == "userPrivacySettingAllowCalls"@
    }

    fn knows(tag: &str) -> (r: bool) {
        same_text(tag, "userPrivacySettingAllowCalls")
    }

    proof fn tag_known(&self) {
        reveal(<UserPrivacySettingAllowCalls as Wire>::wire);
        assert(tag_of(self.wire()) == Some("userPrivacySettingAllowCalls"@));
        assert(Self::known("userPrivacySettingAllowCalls"@));
    }
}

/// A privacy setting for managing whether peer-to-peer connections can be used for calls
#[derive(Debug, Clone, PartialEq)]
pub struct UserPrivacySettingAllowPeerToPeerCalls {}

impl Wire for UserPrivacySettingAllowPeerToPeerCalls {
    #[verifier::opaque]
    open spec fn wire(&self) -> Doc {
        tagged(Map::empty(), "userPrivacySettingAllowPeerToPeerCalls"@)
    }

    #[verifier::opaque]
    open spec fn parse(d: Doc, at: Seq<char>) -> Result<Doc, Fault> {
        match d {
            Doc::Object(_) => Ok(tagged(Map::empty(), "userPrivacySettingAllowPeerToPeerCalls"@)),
            _ => Err(Fault::TypeMismatch(at)),
        }
    }

    fn encode(&self) -> (j: Json) {
        proof {
            reveal(<UserPrivacySettingAllowPeerToPeerCalls as Wire>::wire);
        }
        seal(Vec::new(), "userPrivacySettingAllowPeerToPeerCalls")
    }

    fn decode(j: &Json, at: &str) -> (r: Result<Self, DecodeError>) {
        proof {
            reveal(<UserPrivacySettingAllowPeerToPeerCalls as Wire>::wire);
            reveal(<UserPrivacySettingAllowPeerToPeerCalls as Wire>::parse);
        }
        let _ = members_of(j, at)?;
        Ok(UserPrivacySettingAllowPeerToPeerCalls {})
    }

    proof fn round_trip(&self, at: Seq<char>) {
        reveal(<UserPrivacySettingAllowPeerToPeerCalls as Wire>::wire);
        reveal(<UserPrivacySettingAllowPeerToPeerCalls as Wire>::parse);
    }
}

impl Tagged for UserPrivacySettingAllowPeerToPeerCalls {
    open spec fn known(tag: Seq<char>) -> bool {
        tag == "userPrivacySettingAllowPeerToPeerCalls"@
    }

    fn knows(tag: &str) -> (r: bool) {
        same_text(tag, "userPrivacySettingAllowPeerToPeerCalls")
    }

    proof fn tag_known(&self) {
        reveal(<UserPrivacySettingAllowPeerToPeerCalls as Wire>::wire);
        assert(tag_of(self.wire()) == Some("userPrivacySettingAllowPeerToPeerCalls"@));
        assert(Self::known("userPrivacySettingAllowPeerToPeerCalls"@));
    }
}

/// A privacy setting for managing whether the user can be found by their phone number. Checked only
/// if the phone number is not known to the other user. Can be set only to "Allow contacts" or
/// "Allow all"
#[derive(Debug, Clone, PartialEq)]
pub struct UserPrivacySettingAllowFindingByPhoneNumber {}

impl Wire for UserPrivacySettingAllowFindingByPhoneNumber {
    #[verifier::opaque]
    open spec fn wire(&self) -> Doc {
        tagged(Map::empty(), "userPrivacySettingAllowFindingByPhoneNumber"@)
    }

    #[verifier::opaque]
    open spec fn parse(d: Doc, at: Seq<char>) -> Result<Doc, Fault> {
        match d {
            Doc::Object(
                _) => Ok(tagged(Map::empty(),
                "userPrivacySettingAllowFindingByPhoneNumber"@),
            ),
            _ => Err(Fault::TypeMismatch(at)),
        }
    }

    fn encode(&self) -> (j: Json) {
        proof {
            reveal(<UserPrivacySettingAllowFindingByPhoneNumber as Wire>::wire);
        }
        seal(Vec::new(), "userPrivacySettingAllowFindingByPhoneNumber")
    }

    fn decode(j: &Json, at: &str) -> (r: Result<Self, DecodeError>) {
        proof {
            reveal(<UserPrivacySettingAllowFindingByPhoneNumber as Wire>::wire);
            reveal(<UserPrivacySettingAllowFindingByPhoneNumber as Wire>::parse);
        }
        let _ = members_of(j, at)?;
        Ok(UserPrivacySettingAllowFindingByPhoneNumber {})
    }

    proof fn round_trip(&self, at: Seq<char>) {
        reveal(<UserPrivacySettingAllowFindingByPhoneNumber as Wire>::wire);
        reveal(<UserPrivacySettingAllowFindingByPhoneNumber as Wire>::parse);
    }
}

impl Tagged for UserPrivacySettingAllowFindingByPhoneNumber {
    open spec fn known(tag: Seq<char>) -> bool {
        tag == "userPrivacySettingAllowFindingByPhoneNumber"@
    }

    fn knows(tag: &str) -> (r: bool) {
        same_text(tag, "userPrivacySettingAllowFindingByPhoneNumber")
    }

    proof fn tag_known(&self) {
        reveal(<UserPrivacySettingAllowFindingByPhoneNumber as Wire>::wire);
        assert(tag_of(self.wire()) == Some("userPrivacySettingAllowFindingByPhoneNumber"@));
        assert(Self::known("userPrivacySettingAllowFindingByPhoneNumber"@));
    }
}

/// Describes available user privacy settings
#[derive(Debug, Clone, PartialEq)]
pub enum UserPrivacySetting {
    UserPrivacySettingShowStatus(UserPrivacySettingShowStatus),
    UserPrivacySettingShowProfilePhoto(UserPrivacySettingShowProfilePhoto),
    UserPrivacySettingShowLinkInForwardedMessages(UserPrivacySettingShowLinkInForwardedMessages),
    UserPrivacySettingShowPhoneNumber(UserPrivacySettingShowPhoneNumber),
    UserPrivacySettingAllowChatInvites(UserPrivacySettingAllowChatInvites),
    UserPrivacySettingAllowCalls(UserPrivacySettingAllowCalls),
    UserPrivacySettingAllowPeerToPeerCalls(UserPrivacySettingAllowPeerToPeerCalls),
    UserPrivacySettingAllowFindingByPhoneNumber(UserPrivacySettingAllowFindingByPhoneNumber),
}

impl Wire for UserPrivacySetting {
    #[verifier::opaque]
    open spec fn wire(&self) -> Doc {
        match self {
            Self::UserPrivacySettingShowStatus(p) => p.wire(),
            Self::UserPrivacySettingShowProfilePhoto(p) => p.wire(),
            Self::UserPrivacySettingShowLinkInForwardedMessages(p) => p.wire(),
            Self::UserPrivacySettingShowPhoneNumber(p) => p.wire(),
            Self::UserPrivacySettingAllowChatInvites(p) => p.wire(),
            Self::UserPrivacySettingAllowCalls(p) => p.wire(),
            Self::UserPrivacySettingAllowPeerToPeerCalls(p) => p.wire(),
            Self::UserPrivacySettingAllowFindingByPhoneNumber(p) => p.wire(),
        }
    }

    #[verifier::opaque]
    open spec fn parse(d: Doc, at: Seq<char>) -> Result<Doc, Fault> {
        match d {
            Doc::Object(_) => match tag_of(d) {
                Some(t) => if t == "userPrivacySettingShowStatus"@ {
                    UserPrivacySettingShowStatus::parse(d, at)
                } else if t == "userPrivacySettingShowProfilePhoto"@ {
                    UserPrivacySettingShowProfilePhoto::parse(d, at)
                } else if t == "userPrivacySettingShowLinkInForwardedMessages"@ {
                    UserPrivacySettingShowLinkInForwardedMessages::parse(d, at)
                } else if t == "userPrivacySettingShowPhoneNumber"@ {
                    UserPrivacySettingShowPhoneNumber::parse(d, at)
                } else if t == "userPrivacySettingAllowChatInvites"@ {
                    UserPrivacySettingAllowChatInvites::parse(d, at)
                } else if t == "userPrivacySettingAllowCalls"@ {
                    UserPrivacySettingAllowCalls::parse(d, at)
                } else if t == "userPrivacySettingAllowPeerToPeerCalls"@ {
                    UserPrivacySettingAllowPeerToPeerCalls::parse(d, at)
                } else if t == "userPrivacySettingAllowFindingByPhoneNumber"@ {
                    UserPrivacySettingAllowFindingByPhoneNumber::parse(d, at)
                } else {
                    Err(Fault::UnknownVariant(t))
                },
                None => Err(Fault::MissingDiscriminator),
            },
            _ => Err(Fault::TypeMismatch(at)),
        }
    }

    fn encode(&self) -> (j: Json) {
        proof {
            reveal(<UserPrivacySetting as Wire>::wire);
        }
        match self {
            Self::UserPrivacySettingShowStatus(p) => p.encode(),
            Self::UserPrivacySettingShowProfilePhoto(p) => p.encode(),
            Self::UserPrivacySettingShowLinkInForwardedMessages(p) => p.encode(),
            Self::UserPrivacySettingShowPhoneNumber(p) => p.encode(),
            Self::UserPrivacySettingAllowChatInvites(p) => p.encode(),
            Self::UserPrivacySettingAllowCalls(p) => p.encode(),
            Self::UserPrivacySettingAllowPeerToPeerCalls(p) => p.encode(),
            Self::UserPrivacySettingAllowFindingByPhoneNumber(p) => p.encode(),
        }
    }

    fn decode(j: &Json, at: &str) -> (r: Result<Self, DecodeError>) {
        proof {
            reveal(<UserPrivacySetting as Wire>::wire);
            reveal(<UserPrivacySetting as Wire>::parse);
        }
        let members = members_of(j, at)?;
        let tag = discriminator(members)?;
        if same_text(tag, "userPrivacySettingShowStatus") {
            Ok(Self::UserPrivacySettingShowStatus(UserPrivacySettingShowStatus::decode(j, at)?))
        } else if same_text(tag, "userPrivacySettingShowProfilePhoto") {
            Ok(
                Self::UserPrivacySettingShowProfilePhoto(
                    UserPrivacySettingShowProfilePhoto::decode(j, at)?,
                ),
            )
        } else if same_text(tag, "userPrivacySettingShowLinkInForwardedMessages") {
            Ok(
                Self::UserPrivacySettingShowLinkInForwardedMessages(
                    UserPrivacySettingShowLinkInForwardedMessages::decode(j, at)?,
                ),
            )
        } else if same_text(tag, "userPrivacySettingShowPhoneNumber") {
            Ok(
                Self::UserPrivacySettingShowPhoneNumber(
                    UserPrivacySettingShowPhoneNumber::decode(j, at)?,
                ),
            )
        } else if same_text(tag, "userPrivacySettingAllowChatInvites") {
            Ok(
                Self::UserPrivacySettingAllowChatInvites(
                    UserPrivacySettingAllowChatInvites::decode(j, at)?,
                ),
            )
        } else if same_text(tag, "userPrivacySettingAllowCalls") {
            Ok(Self::UserPrivacySettingAllowCalls(UserPrivacySettingAllowCalls::decode(j, at)?))
        } else if same_text(tag, "userPrivacySettingAllowPeerToPeerCalls") {
            Ok(
                Self::UserPrivacySettingAllowPeerToPeerCalls(
                    UserPrivacySettingAllowPeerToPeerCalls::decode(j, at)?,
                ),
            )
        } else if same_text(tag, "userPrivacySettingAllowFindingByPhoneNumber") {
            Ok(
                Self::UserPrivacySettingAllowFindingByPhoneNumber(
                    UserPrivacySettingAllowFindingByPhoneNumber::decode(j, at)?,
                ),
            )
        } else {
            Err(DecodeError::UnknownVariant(tag.to_owned()))
        }
    }

    proof fn round_trip(&self, at: Seq<char>) {
        reveal(<UserPrivacySetting as Wire>::wire);
        reveal(<UserPrivacySetting as Wire>::parse);
        reveal_strlit("userPrivacySettingAllowCalls");
        reveal_strlit("userPrivacySettingAllowChatInvites");
        reveal_strlit("userPrivacySettingAllowFindingByPhoneNumber");
        reveal_strlit("userPrivacySettingAllowPeerToPeerCalls");
        reveal_strlit("userPrivacySettingShowLinkInForwardedMessages");
        reveal_strlit("userPrivacySettingShowPhoneNumber");
        reveal_strlit("userPrivacySettingShowProfilePhoto");
        reveal_strlit("userPrivacySettingShowStatus");
        assert({
            &&& "userPrivacySettingAllowCalls"@.len() == 28
            &&& "userPrivacySettingAllowCalls"@[18] == 'A'
        });
        assert({
            &&& "userPrivacySettingAllowChatInvites"@.len() == 34
            &&& "userPrivacySettingAllowChatInvites"@[18] == 'A'
        });
        assert("userPrivacySettingAllowFindingByPhoneNumber"@.len() == 43);
        assert("userPrivacySettingAllowPeerToPeerCalls"@.len() == 38);
        assert("userPrivacySettingShowLinkInForwardedMessages"@.len() == 45);
        assert("userPrivacySettingShowPhoneNumber"@.len() == 33);
        assert({
            &&& "userPrivacySettingShowProfilePhoto"@.len() == 34
            &&& "userPrivacySettingShowProfilePhoto"@[18] == 'S'
        });
        assert({
            &&& "userPrivacySettingShowStatus"@.len() == 28
            &&& "userPrivacySettingShowStatus"@[18] == 'S'
        });
        match self {
            Self::UserPrivacySettingShowStatus(p) => {
                p.tag_known();
                p.round_trip(at);
            },
            Self::UserPrivacySettingShowProfilePhoto(p) => {
                p.tag_known();
                p.round_trip(at);
            },
            Self::UserPrivacySettingShowLinkInForwardedMessages(p) => {
                p.tag_known();
                p.round_trip(at);
            },
            Self::UserPrivacySettingShowPhoneNumber(p) => {
                p.tag_known();
                p.round_trip(at);
            },
            Self::UserPrivacySettingAllowChatInvites(p) => {
                p.tag_known();
                p.round_trip(at);
            },
            Self::UserPrivacySettingAllowCalls(p) => {
                p.tag_known();
                p.round_trip(at);
            },
            Self::UserPrivacySettingAllowPeerToPeerCalls(p) => {
                p.tag_known();
                p.round_trip(at);
            },
            Self::UserPrivacySettingAllowFindingByPhoneNumber(p) => {
                p.tag_known();
                p.round_trip(at);
            },
        }
    }
}

impl Tagged for UserPrivacySetting {
    open spec fn known(tag: Seq<char>) -> bool {
        ||| tag == "userPrivacySettingShowStatus"@
        ||| tag == "userPrivacySettingShowProfilePhoto"@
        ||| tag == "userPrivacySettingShowLinkInForwardedMessages"@
        ||| tag == "userPrivacySettingShowPhoneNumber"@
        ||| tag == "userPrivacySettingAllowChatInvites"@
        ||| tag == "userPrivacySettingAllowCalls"@
        ||| tag == "userPrivacySettingAllowPeerToPeerCalls"@
        ||| tag == "userPrivacySettingAllowFindingByPhoneNumber"@
    }

    fn knows(tag: &str) -> (r: bool) {
        same_text(tag, "userPrivacySettingShowStatus")
            || same_text(tag, "userPrivacySettingShowProfilePhoto")
            || same_text(tag, "userPrivacySettingShowLinkInForwardedMessages")
            || same_text(tag, "userPrivacySettingShowPhoneNumber")
            || same_text(tag, "userPrivacySettingAllowChatInvites")
            || same_text(tag, "userPrivacySettingAllowCalls")
            || same_text(tag, "userPrivacySettingAllowPeerToPeerCalls")
            || same_text(tag, "userPrivacySettingAllowFindingByPhoneNumber")
    }

    proof fn tag_known(&self) {
        reveal(<UserPrivacySetting as Wire>::wire);
        match self {
            Self::UserPrivacySettingShowStatus(p) => p.tag_known(),
            Self::UserPrivacySettingShowProfilePhoto(p) => p.tag_known(),
            Self::UserPrivacySettingShowLinkInForwardedMessages(p) => p.tag_known(),
            Self::UserPrivacySettingShowPhoneNumber(p) => p.tag_known(),
            Self::UserPrivacySettingAllowChatInvites(p) => p.tag_known(),
            Self::UserPrivacySettingAllowCalls(p) => p.tag_known(),
            Self::UserPrivacySettingAllowPeerToPeerCalls(p) => p.tag_known(),
            Self::UserPrivacySettingAllowFindingByPhoneNumber(p) => p.tag_known(),
        }
    }
}

impl Union for UserPrivacySetting {
    proof fn unknown_rejected(d: Doc, at: Seq<char>) {
        reveal(<UserPrivacySetting as Wire>::parse);
    }

    proof fn untagged_rejected(d: Doc, at: Seq<char>) {
        reveal(<UserPrivacySetting as Wire>::parse);
    }
}

/// Contains information about the period of inactivity after which the current user's account will
/// automatically be deleted
#[derive(Debug, Clone, PartialEq)]
pub struct AccountTtl {
    /// Number of days of inactivity before the account will be flagged for deletion; should range
    /// from 30-366 days
    pub days: i32,
}

impl Wire for AccountTtl {
    #[verifier::opaque]
    open spec fn wire(&self) -> Doc {
        tagged(
            Map::empty()
                .insert("days"@, self.days.wire()),
            "accountTtl"@,
        )
    }

    #[verifier::opaque]
    open spec fn parse(d: Doc, at: Seq<char>) -> Result<Doc, Fault> {
        match d {
            Doc::Object(m) => {
                let days = field::<i32>(m, "days"@);
                if days is Err {
                    days
                } else {
                    Ok(
                        tagged(
                            Map::empty()
                                .insert("days"@, days->Ok_0),
                            "accountTtl"@,
                        ),
                    )
                }
            },
            _ => Err(Fault::TypeMismatch(at)),
        }
    }

    fn encode(&self) -> (j: Json) {
        proof {
            reveal(<AccountTtl as Wire>::wire);
        }
        let mut members: Vec<Member> = Vec::new();
        put(&mut members, "days", self.days.encode());
        seal(members, "accountTtl")
    }

    fn decode(j: &Json, at: &str) -> (r: Result<Self, DecodeError>) {
        proof {
            reveal(<AccountTtl as Wire>::wire);
            reveal(<AccountTtl as Wire>::parse);
        }
        let members = members_of(j, at)?;
        let days = read_field::<i32>(members, "days")?;
        Ok(AccountTtl { days })
    }

    proof fn round_trip(&self, at: Seq<char>) {
        reveal(<AccountTtl as Wire>::wire);
        reveal(<AccountTtl as Wire>::parse);
        reveal_strlit("@type");
        reveal_strlit("days");
        assert("@type"@.len() == 5);
        assert("days"@.len() == 4);
        self.days.round_trip("days"@);
    }
}

impl Tagged for AccountTtl {
    open spec fn known(tag: Seq<char>) -> bool {
        tag == "accountTtl"@
    }

    fn knows(tag: &str) -> (r: bool) {
        same_text(tag, "accountTtl")
    }

    proof fn tag_known(&self) {
        reveal(<AccountTtl as Wire>::wire);
        assert(tag_of(self.wire()) == Some("accountTtl"@));
        assert(Self::known("accountTtl"@));
    }
}

/// Contains information about one session in a Telegram application used by the current user.
/// Sessions should be shown to the user in the returned order
#[derive(Debug, Clone, PartialEq)]
pub struct Session {
    /// Session identifier
    pub id: i64,
    /// True, if this session is the current session
    pub is_current: bool,
    /// True, if a password is needed to complete authorization of the session
    pub is_password_pending: bool,
    /// Telegram API identifier, as provided by the application
    pub api_id: i32,
    /// Name of the application, as provided by the application
    pub application_name: String,
    /// The version of the application, as provided by the application
    pub application_version: String,
    /// True, if the application is an official application or uses the api_id of an official
    /// application
    pub is_official_application: bool,
    /// Model of the device the application has been run or is running on, as provided by the
    /// application
    pub device_model: String,
    /// Operating system the application has been run or is running on, as provided by the
    /// application
    pub platform: String,
    /// Version of the operating system the application has been run or is running on, as provided
    /// by the application
    pub system_version: String,
    /// Point in time (Unix timestamp) when the user has logged in
    pub log_in_date: i32,
    /// Point in time (Unix timestamp) when the session was last used
    pub last_active_date: i32,
    /// IP address from which the session was created, in human-readable format
    pub ip: String,
    /// A two-letter country code for the country from which the session was created, based on the
    /// IP address
    pub country: String,
    /// Region code from which the session was created, based on the IP address
    pub region: String,
}

impl Wire for Session {
    #[verifier::opaque]
    open spec fn wire(&self) -> Doc {
        tagged(
            Map::empty()
                .insert("id"@, wide_doc(self.id))
                .insert("isCurrent"@, self.is_current.wire())
                .insert("isPasswordPending"@, self.is_password_pending.wire())
                .insert("apiId"@, self.api_id.wire())
                .insert("applicationName"@, self.application_name.wire())
                .insert("applicationVersion"@, self.application_version.wire())
                .insert("isOfficialApplication"@, self.is_official_application.wire())
                .insert("deviceModel"@, self.device_model.wire())
                .insert("platform"@, self.platform.wire())
                .insert("systemVersion"@, self.system_version.wire())
                .insert("logInDate"@, self.log_in_date.wire())
                .insert("lastActiveDate"@, self.last_active_date.wire())
                .insert("ip"@, self.ip.wire())
                .insert("country"@, self.country.wire())
                .insert("region"@, self.region.wire()),
            "session"@,
        )
    }

    #[verifier::opaque]
    open spec fn parse(d: Doc, at: Seq<char>) -> Result<Doc, Fault> {
        match d {
            Doc::Object(m) => {
                let id = wide_field(m, "id"@);
                let is_current = field::<bool>(m, "isCurrent"@);
                let is_password_pending = field::<bool>(m, "isPasswordPending"@);
                let api_id = field::<i32>(m, "apiId"@);
                let application_name = field::<String>(m, "applicationName"@);
                let application_version = field::<String>(m, "applicationVersion"@);
                let is_official_application = field::<bool>(m, "isOfficialApplication"@);
                let device_model = field::<String>(m, "deviceModel"@);
                let platform = field::<String>(m, "platform"@);
                let system_version = field::<String>(m, "systemVersion"@);
                let log_in_date = field::<i32>(m, "logInDate"@);
                let last_active_date = field::<i32>(m, "lastActiveDate"@);
                let ip = field::<String>(m, "ip"@);
                let country = field::<String>(m, "country"@);
                let region = field::<String>(m, "region"@);
                if id is Err {
                    id
                } else if is_current is Err {
                    is_current
                } else if is_password_pending is Err {
                    is_password_pending
                } else if api_id is Err {
                    api_id
                } else if application_name is Err {
                    application_name
                } else if application_version is Err {
                    application_version
                } else if is_official_application is Err {
                    is_official_application
                } else if device_model is Err {
                    device_model
                } else if platform is Err {
                    platform
                } else if system_version is Err {
                    system_version
                } else if log_in_date is Err {
                    log_in_date
                } else if last_active_date is Err {
                    last_active_date
                } else if ip is Err {
                    ip
                } else if country is Err {
                    country
                } else if region is Err {
                    region
                } else {
                    Ok(
                        tagged(
                            Map::empty()
                                .insert("id"@, id->Ok_0)
                                .insert("isCurrent"@, is_current->Ok_0)
                                .insert("isPasswordPending"@, is_password_pending->Ok_0)
                                .insert("apiId"@, api_id->Ok_0)
                                .insert("applicationName"@, application_name->Ok_0)
                                .insert("applicationVersion"@, application_version->Ok_0)
                                .insert("isOfficialApplication"@, is_official_application->Ok_0)
                                .insert("deviceModel"@, device_model->Ok_0)
                                .insert("platform"@, platform->Ok_0)
                                .insert("systemVersion"@, system_version->Ok_0)
                                .insert("logInDate"@, log_in_date->Ok_0)
                                .insert("lastActiveDate"@, last_active_date->Ok_0)
                                .insert("ip"@, ip->Ok_0)
                                .insert("country"@, country->Ok_0)
                                .insert("region"@, region->Ok_0),
                            "session"@,
                        ),
                    )
                }
            },
            _ => Err(Fault::TypeMismatch(at)),
        }
    }

    fn encode(&self) -> (j: Json) {
        proof {
            reveal(<Session as Wire>::wire);
        }
        let mut members: Vec<Member> = Vec::new();
        put(&mut members, "id", encode_wide(self.id));
        put(&mut members, "isCurrent", self.is_current.encode());
        put(&mut members, "isPasswordPending", self.is_password_pending.encode());
        put(&mut members, "apiId", self.api_id.encode());
        put(&mut members, "applicationName", self.application_name.encode());
        put(&mut members, "applicationVersion", self.application_version.encode());
        put(&mut members, "isOfficialApplication", self.is_official_application.encode());
        put(&mut members, "deviceModel", self.device_model.encode());
        put(&mut members, "platform", self.platform.encode());
        put(&mut members, "systemVersion", self.system_version.encode());
        put(&mut members, "logInDate", self.log_in_date.encode());
        put(&mut members, "lastActiveDate", self.last_active_date.encode());
        put(&mut members, "ip", self.ip.encode());
        put(&mut members, "country", self.country.encode());
        put(&mut members, "region", self.region.encode());
        seal(members, "session")
    }

    fn decode(j: &Json, at: &str) -> (r: Result<Self, DecodeError>) {
        proof {
            reveal(<Session as Wire>::wire);
            reveal(<Session as Wire>::parse);
        }
        let members = members_of(j, at)?;
        let id = read_wide(members, "id")?;
        let is_current = read_field::<bool>(members, "isCurrent")?;
        let is_password_pending = read_field::<bool>(members, "isPasswordPending")?;
        let api_id = read_field::<i32>(members, "apiId")?;
        let application_name = read_field::<String>(members, "applicationName")?;
        let application_version = read_field::<String>(members, "applicationVersion")?;
        let is_official_application = read_field::<bool>(members, "isOfficialApplication")?;
        let device_model = read_field::<String>(members, "deviceModel")?;
        let platform = read_field::<String>(members, "platform")?;
        let system_version = read_field::<String>(members, "systemVersion")?;
        let log_in_date = read_field::<i32>(members, "logInDate")?;
        let last_active_date = read_field::<i32>(members, "lastActiveDate")?;
        let ip = read_field::<String>(members, "ip")?;
        let country = read_field::<String>(members, "country")?;
        let region = read_field::<String>(members, "region")?;
        Ok(Session {
            id,
            is_current,
            is_password_pending,
            api_id,
            application_name,
            application_version,
            is_official_application,
            device_model,
            platform,
            system_version,
            log_in_date,
            last_active_date,
            ip,
            country,
            region,
        })
    }

    proof fn round_trip(&self, at: Seq<char>) {
        reveal(<Session as Wire>::wire);
        reveal(<Session as Wire>::parse);
        reveal_strlit("@type");
        reveal_strlit("apiId");
        reveal_strlit("applicationName");
        reveal_strlit("applicationVersion");
        reveal_strlit("country");
        reveal_strlit("deviceModel");
        reveal_strlit("id");
        reveal_strlit("ip");
        reveal_strlit("isCurrent");
        reveal_strlit("isOfficialApplication");
        reveal_strlit("isPasswordPending");
        reveal_strlit("lastActiveDate");
        reveal_strlit("logInDate");
        reveal_strlit("platform");
        reveal_strlit("region");
        reveal_strlit("systemVersion");
        assert("@type"@.len() == 5 && "@type"@[0] == '@');
        assert("apiId"@.len() == 5 && "apiId"@[0] == 'a');
        assert("applicationName"@.len() == 15);
        assert("applicationVersion"@.len() == 18);
        assert("country"@.len() == 7);
        assert("deviceModel"@.len() == 11);
        assert("id"@.len() == 2 && "id"@[1] == 'd');
        assert("ip"@.len() == 2 && "ip"@[1] == 'p');
        assert("isCurrent"@.len() == 9 && "isCurrent"@[0] == 'i');
        assert("isOfficialApplication"@.len() == 21);
        assert("isPasswordPending"@.len() == 17);
        assert("lastActiveDate"@.len() == 14);
        assert("logInDate"@.len() == 9 && "logInDate"@[0] == 'l');
        assert("platform"@.len() == 8);
        assert("region"@.len() == 6);
        assert("systemVersion"@.len() == 13);
        lemma_wide_round_trip(self.id, "id"@);
        self.is_current.round_trip("isCurrent"@);
        self.is_password_pending.round_trip("isPasswordPending"@);
        self.api_id.round_trip("apiId"@);
        self.application_name.round_trip("applicationName"@);
        self.application_version.round_trip("applicationVersion"@);
        self.is_official_application.round_trip("isOfficialApplication"@);
        self.device_model.round_trip("deviceModel"@);
        self.platform.round_trip("platform"@);
        self.system_version.round_trip("systemVersion"@);
        self.log_in_date.round_trip("logInDate"@);
        self.last_active_date.round_trip("lastActiveDate"@);
        self.ip.round_trip("ip"@);
        self.country.round_trip("country"@);
        self.region.round_trip("region"@);
        let m = self.wire()->Object_0;
        assert(wide_field(m, "id"@) == Ok::<Doc, Fault>(wide_doc(self.id)));
        assert(field::<bool>(m, "isCurrent"@) == Ok::<Doc, Fault>(self.is_current.wire()));
        assert(field::<bool>(m, "isPasswordPending"@)
            == Ok::<Doc, Fault>(self.is_password_pending.wire()));
        assert(field::<i32>(m, "apiId"@) == Ok::<Doc, Fault>(self.api_id.wire()));
        assert(field::<String>(m, "applicationName"@)
            == Ok::<Doc, Fault>(self.application_name.wire()));
        assert(field::<String>(m, "applicationVersion"@)
            == Ok::<Doc, Fault>(self.application_version.wire()));
        assert(field::<bool>(m, "isOfficialApplication"@)
            == Ok::<Doc, Fault>(self.is_official_application.wire()));
        assert(field::<String>(m, "deviceModel"@) == Ok::<Doc, Fault>(self.device_model.wire()));
        assert(field::<String>(m, "platform"@) == Ok::<Doc, Fault>(self.platform.wire()));
        assert(field::<String>(m, "systemVersion"@)
            == Ok::<Doc, Fault>(self.system_version.wire()));
        assert(field::<i32>(m, "logInDate"@) == Ok::<Doc, Fault>(self.log_in_date.wire()));
        assert(field::<i32>(m, "lastActiveDate"@)
            == Ok::<Doc, Fault>(self.last_active_date.wire()));
        assert(field::<String>(m, "ip"@) == Ok::<Doc, Fault>(self.ip.wire()));
        assert(field::<String>(m, "country"@) == Ok::<Doc, Fault>(self.country.wire()));
        assert(field::<String>(m, "region"@) == Ok::<Doc, Fault>(self.region.wire()));
    }
}

impl Tagged for Session {
    open spec fn known(tag: Seq<char>) -> bool {
        tag == "session"@
    }

    fn knows(tag: &str) -> (r: bool) {
        same_text(tag, "session")
    }

    proof fn tag_known(&self) {
        reveal(<Session as Wire>::wire);
        assert(tag_of(self.wire()) == Some("session"@));
        assert(Self::known("session"@));
    }
}

/// Contains a list of sessions
#[derive(Debug, Clone, PartialEq)]
pub struct Sessions {
    /// List of sessions
    pub sessions: Vec<Session>,
}

impl Wire for Sessions {
    #[verifier::opaque]
    open spec fn wire(&self) -> Doc {
        tagged(
            Map::empty()
                .insert("sessions"@, self.sessions.wire()),
            "sessions"@,
        )
    }

    #[verifier::opaque]
    open spec fn parse(d: Doc, at: Seq<char>) -> Result<Doc, Fault> {
        match d {
            Doc::Object(m) => {
                let sessions = field::<Vec<Session>>(m, "sessions"@);
                if sessions is Err {
                    sessions
                } else {
                    Ok(
                        tagged(
                            Map::empty()
                                .insert("sessions"@, sessions->Ok_0),
                            "sessions"@,
                        ),
                    )
                }
            },
            _ => Err(Fault::TypeMismatch(at)),
        }
    }

    fn encode(&self) -> (j: Json) {
        proof {
            reveal(<Sessions as Wire>::wire);
        }
        let mut members: Vec<Member> = Vec::new();
        put(&mut members, "sessions", self.sessions.encode());
        seal(members, "sessions")
    }

    fn decode(j: &Json, at: &str) -> (r: Result<Self, DecodeError>) {
        proof {
            reveal(<Sessions as Wire>::wire);
            reveal(<Sessions as Wire>::parse);
        }
        let members = members_of(j, at)?;
        let sessions = read_field::<Vec<Session>>(members, "sessions")?;
        Ok(Sessions { sessions })
    }

    proof fn round_trip(&self, at: Seq<char>) {
        reveal(<Sessions as Wire>::wire);
        reveal(<Sessions as Wire>::parse);
        reveal_strlit("@type");
        reveal_strlit("sessions");
        assert("@type"@.len() == 5);
        assert("sessions"@.len() == 8);
        self.sessions.round_trip("sessions"@);
    }
}

impl Tagged for Sessions {
    open spec fn known(tag: Seq<char>) -> bool {
        tag == "sessions"@
    }

    fn knows(tag: &str) -> (r: bool) {
        same_text(tag, "sessions")
    }

    proof fn tag_known(&self) {
        reveal(<Sessions as Wire>::wire);
        assert(tag_of(self.wire()) == Some("sessions"@));
        assert(Self::known("sessions"@));
    }
}

/// Contains information about one website the current user is logged in with Telegram
#[derive(Debug, Clone, PartialEq)]
pub struct ConnectedWebsite {
    /// Website identifier
    pub id: i64,
    /// The domain name of the website
    pub domain_name: String,
    /// User identifier of a bot linked with the website
    pub bot_user_id: i32,
    /// The version of a browser used to log in
    pub browser: String,
    /// Operating system the browser is running on
    pub platform: String,
    /// Point in time (Unix timestamp) when the user was logged in
    pub log_in_date: i32,
    /// Point in time (Unix timestamp) when obtained authorization was last used
    pub last_active_date: i32,
    /// IP address from which the user was logged in, in human-readable format
    pub ip: String,
    /// Human-readable description of a country and a region, from which the user was logged in,
    /// based on the IP address
    pub location: String,
}

impl Wire for ConnectedWebsite {
    #[verifier::opaque]
    open spec fn wire(&self) -> Doc {
        tagged(
            Map::empty()
                .insert("id"@, wide_doc(self.id))
                .insert("domainName"@, self.domain_name.wire())
                .insert("botUserId"@, self.bot_user_id.wire())
                .insert("browser"@, self.browser.wire())
                .insert("platform"@, self.platform.wire())
                .insert("logInDate"@, self.log_in_date.wire())
                .insert("lastActiveDate"@, self.last_active_date.wire())
                .insert("ip"@, self.ip.wire())
                .insert("location"@, self.location.wire()),
            "connectedWebsite"@,
        )
    }

    #[verifier::opaque]
    open spec fn parse(d: Doc, at: Seq<char>) -> Result<Doc, Fault> {
        match d {
            Doc::Object(m) => {
                let id = wide_field(m, "id"@);
                let domain_name = field::<String>(m, "domainName"@);
                let bot_user_id = field::<i32>(m, "botUserId"@);
                let browser = field::<String>(m, "browser"@);
                let platform = field::<String>(m, "platform"@);
                let log_in_date = field::<i32>(m, "logInDate"@);
                let last_active_date = field::<i32>(m, "lastActiveDate"@);
                let ip = field::<String>(m, "ip"@);
                let location = field::<String>(m, "location"@);
                if id is Err {
                    id
                } else if domain_name is Err {
                    domain_name
                } else if bot_user_id is Err {
                    bot_user_id
                } else if browser is Err {
                    browser
                } else if platform is Err {
                    platform
                } else if log_in_date is Err {
                    log_in_date
                } else if last_active_date is Err {
                    last_active_date
                } else if ip is Err {
                    ip
                } else if location is Err {
                    location
                } else {
                    Ok(
                        tagged(
                            Map::empty()
                                .insert("id"@, id->Ok_0)
                                .insert("domainName"@, domain_name->Ok_0)
                                .insert("botUserId"@, bot_user_id->Ok_0)
                                .insert("browser"@, browser->Ok_0)
                                .insert("platform"@, platform->Ok_0)
                                .insert("logInDate"@, log_in_date->Ok_0)
                                .insert("lastActiveDate"@, last_active_date->Ok_0)
                                .insert("ip"@, ip->Ok_0)
                                .insert("location"@, location->Ok_0),
                            "connectedWebsite"@,
                        ),
                    )
                }
            },
            _ => Err(Fault::TypeMismatch(at)),
        }
    }

    fn encode(&self) -> (j: Json) {
        proof {
            reveal(<ConnectedWebsite as Wire>::wire);
        }
        let mut members: Vec<Member> = Vec::new();
        put(&mut members, "id", encode_wide(self.id));
        put(&mut members, "domainName", self.domain_name.encode());
        put(&mut members, "botUserId", self.bot_user_id.encode());
        put(&mut members, "browser", self.browser.encode());
        put(&mut members, "platform", self.platform.encode());
        put(&mut members, "logInDate", self.log_in_date.encode());
        put(&mut members, "lastActiveDate", self.last_active_date.encode());
        put(&mut members, "ip", self.ip.encode());
        put(&mut members, "location", self.location.encode());
        seal(members, "connectedWebsite")
    }

    fn decode(j: &Json, at: &str) -> (r: Result<Self, DecodeError>) {
        proof {
            reveal(<ConnectedWebsite as Wire>::wire);
            reveal(<ConnectedWebsite as Wire>::parse);
        }
        let members = members_of(j, at)?;
        let id = read_wide(members, "id")?;
        let domain_name = read_field::<String>(members, "domainName")?;
        let bot_user_id = read_field::<i32>(members, "botUserId")?;
        let browser = read_field::<String>(members, "browser")?;
        let platform = read_field::<String>(members, "platform")?;
        let log_in_date = read_field::<i32>(members, "logInDate")?;
        let last_active_date = read_field::<i32>(members, "lastActiveDate")?;
        let ip = read_field::<String>(members, "ip")?;
        let location = read_field::<String>(members, "location")?;
        Ok(ConnectedWebsite {
            id,
            domain_name,
            bot_user_id,
            browser,
            platform,
            log_in_date,
            last_active_date,
            ip,
            location,
        })
    }

    proof fn round_trip(&self, at: Seq<char>) {
        reveal(<ConnectedWebsite as Wire>::wire);
        reveal(<ConnectedWebsite as Wire>::parse);
        reveal_strlit("@type");
        reveal_strlit("botUserId");
        reveal_strlit("browser");
        reveal_strlit("domainName");
        reveal_strlit("id");
        reveal_strlit("ip");
        reveal_strlit("lastActiveDate");
        reveal_strlit("location");
        reveal_strlit("logInDate");
        reveal_strlit("platform");
        assert("@type"@.len() == 5);
        assert("botUserId"@.len() == 9 && "botUserId"@[0] == 'b');
        assert("browser"@.len() == 7);
        assert("domainName"@.len() == 10);
        assert("id"@.len() == 2 && "id"@[1] == 'd');
        assert("ip"@.len() == 2 && "ip"@[1] == 'p');
        assert("lastActiveDate"@.len() == 14);
        assert("location"@.len() == 8 && "location"@[0] == 'l');
        assert("logInDate"@.len() == 9 && "logInDate"@[0] == 'l');
        assert("platform"@.len() == 8 && "platform"@[0] == 'p');
        lemma_wide_round_trip(self.id, "id"@);
        self.domain_name.round_trip("domainName"@);
        self.bot_user_id.round_trip("botUserId"@);
        self.browser.round_trip("browser"@);
        self.platform.round_trip("platform"@);
        self.log_in_date.round_trip("logInDate"@);
        self.last_active_date.round_trip("lastActiveDate"@);
        self.ip.round_trip("ip"@);
        self.location.round_trip("location"@);
        let m = self.wire()->Object_0;
        assert(wide_field(m, "id"@) == Ok::<Doc, Fault>(wide_doc(self.id)));
        assert(field::<String>(m, "domainName"@) == Ok::<Doc, Fault>(self.domain_name.wire()));
        assert(field::<i32>(m, "botUserId"@) == Ok::<Doc, Fault>(self.bot_user_id.wire()));
        assert(field::<String>(m, "browser"@) == Ok::<Doc, Fault>(self.browser.wire()));
        assert(field::<String>(m, "platform"@) == Ok::<Doc, Fault>(self.platform.wire()));
        assert(field::<i32>(m, "logInDate"@) == Ok::<Doc, Fault>(self.log_in_date.wire()));
        assert(field::<i32>(m, "lastActiveDate"@)
            == Ok::<Doc, Fault>(self.last_active_date.wire()));
        assert(field::<String>(m, "ip"@) == Ok::<Doc, Fault>(self.ip.wire()));
        assert(field::<String>(m, "location"@) == Ok::<Doc, Fault>(self.location.wire()));
    }
}

impl Tagged for ConnectedWebsite {
    open spec fn known(tag: Seq<char>) -> bool {
        tag == "connectedWebsite"@
    }

    fn knows(tag: &str) -> (r: bool) {
        same_text(tag, "connectedWebsite")
    }

    proof fn tag_known(&self) {
        reveal(<ConnectedWebsite as Wire>::wire);
        assert(tag_of(self.wire()) == Some("connectedWebsite"@));
        assert(Self::known("connectedWebsite"@));
    }
}

/// Contains a list of websites the current user is logged in with Telegram
#[derive(Debug, Clone, PartialEq)]
pub struct ConnectedWebsites {
    /// List of connected websites
    pub websites: Vec<ConnectedWebsite>,
}

impl Wire for ConnectedWebsites {
    #[verifier::opaque]
    open spec fn wire(&self) -> Doc {
        tagged(
            Map::empty()
                .insert("websites"@, self.websites.wire()),
            "connectedWebsites"@,
        )
    }

    #[verifier::opaque]
    open spec fn parse(d: Doc, at: Seq<char>) -> Result<Doc, Fault> {
        match d {
            Doc::Object(m) => {
                let websites = field::<Vec<ConnectedWebsite>>(m, "websites"@);
                if websites is Err {
                    websites
                } else {
                    Ok(
                        tagged(
                            Map::empty()
                                .insert("websites"@, websites->Ok_0),
                            "connectedWebsites"@,
                        ),
                    )
                }
            },
            _ => Err(Fault::TypeMismatch(at)),
        }
    }

    fn encode(&self) -> (j: Json) {
        proof {
            reveal(<ConnectedWebsites as Wire>::wire);
        }
        let mut members: Vec<Member> = Vec::new();
        put(&mut members, "websites", self.websites.encode());
        seal(members, "connectedWebsites")
    }

    fn decode(j: &Json, at: &str) -> (r: Result<Self, DecodeError>) {
        proof {
            reveal(<ConnectedWebsites as Wire>::wire);
            reveal(<ConnectedWebsites as Wire>::parse);
        }
        let members = members_of(j, at)?;
        let websites = read_field::<Vec<ConnectedWebsite>>(members, "websites")?;
        Ok(ConnectedWebsites { websites })
    }

    proof fn round_trip(&self, at: Seq<char>) {
        reveal(<ConnectedWebsites as Wire>::wire);
        reveal(<ConnectedWebsites as Wire>::parse);
        reveal_strlit("@type");
        reveal_strlit("websites");
        assert("@type"@.len() == 5);
        assert("websites"@.len() == 8);
        self.websites.round_trip("websites"@);
    }
}

impl Tagged for ConnectedWebsites {
    open spec fn known(tag: Seq<char>) -> bool {
        tag == "connectedWebsites"@
    }

    fn knows(tag: &str) -> (r: bool) {
        same_text(tag, "connectedWebsites")
    }

    proof fn tag_known(&self) {
        reveal(<ConnectedWebsites as Wire>::wire);
        assert(tag_of(self.wire()) == Some("connectedWebsites"@));
        assert(Self::known("connectedWebsites"@));
    }
}

/// The chat contains spam messages
#[derive(Debug, Clone, PartialEq)]
pub struct ChatReportReasonSpam {}

impl Wire for ChatReportReasonSpam {
    #[verifier::opaque]
    open spec fn wire(&self) -> Doc {
        tagged(Map::empty(), "chatReportReasonSpam"@)
    }

    #[verifier::opaque]
    open spec fn parse(d: Doc, at: Seq<char>) -> Result<Doc, Fault> {
        match d {
            Doc::Object(_) => Ok(tagged(Map::empty(), "chatReportReasonSpam"@)),
            _ => Err(Fault::TypeMismatch(at)),
        }
    }

    fn encode(&self) -> (j: Json) {
        proof {
            reveal(<ChatReportReasonSpam as Wire>::wire);
        }
        seal(Vec::new(), "chatReportReasonSpam")
    }

    fn decode(j: &Json, at: &str) -> (r: Result<Self, DecodeError>) {
        proof {
            reveal(<ChatReportReasonSpam as Wire>::wire);
            reveal(<ChatReportReasonSpam as Wire>::parse);
        }
        let _ = members_of(j, at)?;
        Ok(ChatReportReasonSpam {})
    }

    proof fn round_trip(&self, at: Seq<char>) {
        reveal(<ChatReportReasonSpam as Wire>::wire);
        reveal(<ChatReportReasonSpam as Wire>::parse);
    }
}

impl Tagged for ChatReportReasonSpam {
    open spec fn known(tag: Seq<char>) -> bool {
        tag == "chatReportReasonSpam"@
    }

    fn knows(tag: &str) -> (r: bool) {
        same_text(tag, "chatReportReasonSpam")
    }

    proof fn tag_known(&self) {
        reveal(<ChatReportReasonSpam as Wire>::wire);
        assert(tag_of(self.wire()) == Some("chatReportReasonSpam"@));
        assert(Self::known("chatReportReasonSpam"@));
    }
}

/// The chat promotes violence
#[derive(Debug, Clone, PartialEq)]
pub struct ChatReportReasonViolence {}

impl Wire for ChatReportReasonViolence {
    #[verifier::opaque]
    open spec fn wire(&self) -> Doc {
        tagged(Map::empty(), "chatReportReasonViolence"@)
    }

    #[verifier::opaque]
    open spec fn parse(d: Doc, at: Seq<char>) -> Result<Doc, Fault> {
        match d {
            Doc::Object(_) => Ok(tagged(Map::empty(), "chatReportReasonViolence"@)),
            _ => Err(Fault::TypeMismatch(at)),
        }
    }

    fn encode(&self) -> (j: Json) {
        proof {
            reveal(<ChatReportReasonViolence as Wire>::wire);
        }
        seal(Vec::new(), "chatReportReasonViolence")
    }

    fn decode(j: &Json, at: &str) -> (r: Result<Self, DecodeError>) {
        proof {
            reveal(<ChatReportReasonViolence as Wire>::wire);
            reveal(<ChatReportReasonViolence as Wire>::parse);
        }
        let _ = members_of(j, at)?;
        Ok(ChatReportReasonViolence {})
    }

    proof fn round_trip(&self, at: Seq<char>) {
        reveal(<ChatReportReasonViolence as Wire>::wire);
        reveal(<ChatReportReasonViolence as Wire>::parse);
    }
}

impl Tagged for ChatReportReasonViolence {
    open spec fn known(tag: Seq<char>) -> bool {
        tag == "chatReportReasonViolence"@
    }

    fn knows(tag: &str) -> (r: bool) {
        same_text(tag, "chatReportReasonViolence")
    }

    proof fn tag_known(&self) {
        reveal(<ChatReportReasonViolence as Wire>::wire);
        assert(tag_of(self.wire()) == Some("chatReportReasonViolence"@));
        assert(Self::known("chatReportReasonViolence"@));
    }
}

/// The chat contains pornographic messages
#[derive(Debug, Clone, PartialEq)]
pub struct ChatReportReasonPornography {}

impl Wire for ChatReportReasonPornography {
    #[verifier::opaque]
    open spec fn wire(&self) -> Doc {
        tagged(Map::empty(), "chatReportReasonPornography"@)
    }

    #[verifier::opaque]
    open spec fn parse(d: Doc, at: Seq<char>) -> Result<Doc, Fault> {
        match d {
            Doc::Object(_) => Ok(tagged(Map::empty(), "chatReportReasonPornography"@)),
            _ => Err(Fault::TypeMismatch(at)),
        }
    }

    fn encode(&self) -> (j: Json) {
        proof {
            reveal(<ChatReportReasonPornography as Wire>::wire);
        }
        seal(Vec::new(), "chatReportReasonPornography")
    }

    fn decode(j: &Json, at: &str) -> (r: Result<Self, DecodeError>) {
        proof {
            reveal(<ChatReportReasonPornography as Wire>::wire);
            reveal(<ChatReportReasonPornography as Wire>::parse);
        }
        let _ = members_of(j, at)?;
        Ok(ChatReportReasonPornography {})
    }

    proof fn round_trip(&self, at: Seq<char>) {
        reveal(<ChatReportReasonPornography as Wire>::wire);
        reveal(<ChatReportReasonPornography as Wire>::parse);
    }
}

impl Tagged for ChatReportReasonPornography {
    open spec fn known(tag: Seq<char>) -> bool {
        tag == "chatReportReasonPornography"@
    }

    fn knows(tag: &str) -> (r: bool) {
        same_text(tag, "chatReportReasonPornography")
    }

    proof fn tag_known(&self) {
        reveal(<ChatReportReasonPornography as Wire>::wire);
        assert(tag_of(self.wire()) == Some("chatReportReasonPornography"@));
        assert(Self::known("chatReportReasonPornography"@));
    }
}

/// The chat has child abuse related content
#[derive(Debug, Clone, PartialEq)]
pub struct ChatReportReasonChildAbuse {}

impl Wire for ChatReportReasonChildAbuse {
    #[verifier::opaque]
    open spec fn wire(&self) -> Doc {
        tagged(Map::empty(), "chatReportReasonChildAbuse"@)
    }

    #[verifier::opaque]
    open spec fn parse(d: Doc, at: Seq<char>) -> Result<Doc, Fault> {
        match d {
            Doc::Object(_) => Ok(tagged(Map::empty(), "chatReportReasonChildAbuse"@)),
            _ => Err(Fault::TypeMismatch(at)),
        }
    }

    fn encode(&self) -> (j: Json) {
        proof {
            reveal(<ChatReportReasonChildAbuse as Wire>::wire);
        }
        seal(Vec::new(), "chatReportReasonChildAbuse")
    }

    fn decode(j: &Json, at: &str) -> (r: Result<Self, DecodeError>) {
        proof {
            reveal(<ChatReportReasonChildAbuse as Wire>::wire);
            reveal(<ChatReportReasonChildAbuse as Wire>::parse);
        }
        let _ = members_of(j, at)?;
        Ok(ChatReportReasonChildAbuse {})
    }

    proof fn round_trip(&self, at: Seq<char>) {
        reveal(<ChatReportReasonChildAbuse as Wire>::wire);
        reveal(<ChatReportReasonChildAbuse as Wire>::parse);
    }
}

impl Tagged for ChatReportReasonChildAbuse {
    open spec fn known(tag: Seq<char>) -> bool {
        tag == "chatReportReasonChildAbuse"@
    }

    fn knows(tag: &str) -> (r: bool) {
        same_text(tag, "chatReportReasonChildAbuse")
    }

    proof fn tag_known(&self) {
        reveal(<ChatReportReasonChildAbuse as Wire>::wire);
        assert(tag_of(self.wire()) == Some("chatReportReasonChildAbuse"@));
        assert(Self::known("chatReportReasonChildAbuse"@));
    }
}

/// The chat contains copyrighted content
#[derive(Debug, Clone, PartialEq)]
pub struct ChatReportReasonCopyright {}

impl Wire for ChatReportReasonCopyright {
    #[verifier::opaque]
    open spec fn wire(&self) -> Doc {
        tagged(Map::empty(), "chatReportReasonCopyright"@)
    }

    #[verifier::opaque]
    open spec fn parse(d: Doc, at: Seq<char>) -> Result<Doc, Fault> {
        match d {
            Doc::Object(_) => Ok(tagged(Map::empty(), "chatReportReasonCopyright"@)),
            _ => Err(Fault::TypeMismatch(at)),
        }
    }

    fn encode(&self) -> (j: Json) {
        proof {
            reveal(<ChatReportReasonCopyright as Wire>::wire);
        }
        seal(Vec::new(), "chatReportReasonCopyright")
    }

    fn decode(j: &Json, at: &str) -> (r: Result<Self, DecodeError>) {
        proof {
            reveal(<ChatReportReasonCopyright as Wire>::wire);
            reveal(<ChatReportReasonCopyright as Wire>::parse);
        }
        let _ = members_of(j, at)?;
        Ok(ChatReportReasonCopyright {})
    }

    proof fn round_trip(&self, at: Seq<char>) {
        reveal(<ChatReportReasonCopyright as Wire>::wire);
        reveal(<ChatReportReasonCopyright as Wire>::parse);
    }
}

impl Tagged for ChatReportReasonCopyright {
    open spec fn known(tag: Seq<char>) -> bool {
        tag == "chatReportReasonCopyright"@
    }

    fn knows(tag: &str) -> (r: bool) {
        same_text(tag, "chatReportReasonCopyright")
    }

    proof fn tag_known(&self) {
        reveal(<ChatReportReasonCopyright as Wire>::wire);
        assert(tag_of(self.wire()) == Some("chatReportReasonCopyright"@));
        assert(Self::known("chatReportReasonCopyright"@));
    }
}

/// The location-based chat is unrelated to its stated location
#[derive(Debug, Clone, PartialEq)]
pub struct ChatReportReasonUnrelatedLocation {}

impl Wire for ChatReportReasonUnrelatedLocation {
    #[verifier::opaque]
    open spec fn wire(&self) -> Doc {
        tagged(Map::empty(), "chatReportReasonUnrelatedLocation"@)
    }

    #[verifier::opaque]
    open spec fn parse(d: Doc, at: Seq<char>) -> Result<Doc, Fault> {
        match d {
            Doc::Object(_) => Ok(tagged(Map::empty(), "chatReportReasonUnrelatedLocation"@)),
            _ => Err(Fault::TypeMismatch(at)),
        }
    }

    fn encode(&self) -> (j: Json) {
        proof {
            reveal(<ChatReportReasonUnrelatedLocation as Wire>::wire);
        }
        seal(Vec::new(), "chatReportReasonUnrelatedLocation")
    }

    fn decode(j: &Json, at: &str) -> (r: Result<Self, DecodeError>) {
        proof {
            reveal(<ChatReportReasonUnrelatedLocation as Wire>::wire);
            reveal(<ChatReportReasonUnrelatedLocation as Wire>::parse);
        }
        let _ = members_of(j, at)?;
        Ok(ChatReportReasonUnrelatedLocation {})
    }

    proof fn round_trip(&self, at: Seq<char>) {
        reveal(<ChatReportReasonUnrelatedLocation as Wire>::wire);
        reveal(<ChatReportReasonUnrelatedLocation as Wire>::parse);
    }
}

impl Tagged for ChatReportReasonUnrelatedLocation {
    open spec fn known(tag: Seq<char>) -> bool {
        tag == "chatReportReasonUnrelatedLocation"@
    }

    fn knows(tag: &str) -> (r: bool) {
        same_text(tag, "chatReportReasonUnrelatedLocation")
    }

    proof fn tag_known(&self) {
        reveal(<ChatReportReasonUnrelatedLocation as Wire>::wire);
        assert(tag_of(self.wire()) == Some("chatReportReasonUnrelatedLocation"@));
        assert(Self::known("chatReportReasonUnrelatedLocation"@));
    }
}

/// A custom reason provided by the user
#[derive(Debug, Clone, PartialEq)]
pub struct ChatReportReasonCustom {
    /// Report text
    pub text: String,
}

impl Wire for ChatReportReasonCustom {
    #[verifier::opaque]
    open spec fn wire(&self) -> Doc {
        tagged(
            Map::empty()
                .insert("text"@, self.text.wire()),
            "chatReportReasonCustom"@,
        )
    }

    #[verifier::opaque]
    open spec fn parse(d: Doc, at: Seq<char>) -> Result<Doc, Fault> {
        match d {
            Doc::Object(m) => {
                let text = field::<String>(m, "text"@);
                if text is Err {
                    text
                } else {
                    Ok(
                        tagged(
                            Map::empty()
                                .insert("text"@, text->Ok_0),
                            "chatReportReasonCustom"@,
                        ),
                    )
                }
            },
            _ => Err(Fault::TypeMismatch(at)),
        }
    }

    fn encode(&self) -> (j: Json) {
        proof {
            reveal(<ChatReportReasonCustom as Wire>::wire);
        }
        let mut members: Vec<Member> = Vec::new();
        put(&mut members, "text", self.text.encode());
        seal(members, "chatReportReasonCustom")
    }

    fn decode(j: &Json, at: &str) -> (r: Result<Self, DecodeError>) {
        proof {
            reveal(<ChatReportReasonCustom as Wire>::wire);
            reveal(<ChatReportReasonCustom as Wire>::parse);
        }
        let members = members_of(j, at)?;
        let text = read_field::<String>(members, "text")?;
        Ok(ChatReportReasonCustom { text })
    }

    proof fn round_trip(&self, at: Seq<char>) {
        reveal(<ChatReportReasonCustom as Wire>::wire);
        reveal(<ChatReportReasonCustom as Wire>::parse);
        reveal_strlit("@type");
        reveal_strlit("text");
        assert("@type"@.len() == 5);
        assert("text"@.len() == 4);
        self.text.round_trip("text"@);
    }
}

impl Tagged for ChatReportReasonCustom {
    open spec fn known(tag: Seq<char>) -> bool {
        tag == "chatReportReasonCustom"@
    }

    fn knows(tag: &str) -> (r: bool) {
        same_text(tag, "chatReportReasonCustom")
    }

    proof fn tag_known(&self) {
        reveal(<ChatReportReasonCustom as Wire>::wire);
        assert(tag_of(self.wire()) == Some("chatReportReasonCustom"@));
        assert(Self::known("chatReportReasonCustom"@));
    }
}

/// Describes the reason why a chat is reported
#[derive(Debug, Clone, PartialEq)]
pub enum ChatReportReason {
    ChatReportReasonSpam(ChatReportReasonSpam),
    ChatReportReasonViolence(ChatReportReasonViolence),
    ChatReportReasonPornography(ChatReportReasonPornography),
    ChatReportReasonChildAbuse(ChatReportReasonChildAbuse),
    ChatReportReasonCopyright(ChatReportReasonCopyright),
    ChatReportReasonUnrelatedLocation(ChatReportReasonUnrelatedLocation),
    ChatReportReasonCustom(ChatReportReasonCustom),
}

impl Wire for ChatReportReason {
    #[verifier::opaque]
    open spec fn wire(&self) -> Doc {
        match self {
            Self::ChatReportReasonSpam(p) => p.wire(),
            Self::ChatReportReasonViolence(p) => p.wire(),
            Self::ChatReportReasonPornography(p) => p.wire(),
            Self::ChatReportReasonChildAbuse(p) => p.wire(),
            Self::ChatReportReasonCopyright(p) => p.wire(),
            Self::ChatReportReasonUnrelatedLocation(p) => p.wire(),
            Self::ChatReportReasonCustom(p) => p.wire(),
        }
    }

    #[verifier::opaque]
    open spec fn parse(d: Doc, at: Seq<char>) -> Result<Doc, Fault> {
        match d {
            Doc::Object(_) => match tag_of(d) {
                Some(t) => if t == "chatReportReasonSpam"@ {
                    ChatReportReasonSpam::parse(d, at)
                } else if t == "chatReportReasonViolence"@ {
                    ChatReportReasonViolence::parse(d, at)
                } else if t == "chatReportReasonPornography"@ {
                    ChatReportReasonPornography::parse(d, at)
                } else if t == "chatReportReasonChildAbuse"@ {
                    ChatReportReasonChildAbuse::parse(d, at)
                } else if t == "chatReportReasonCopyright"@ {
                    ChatReportReasonCopyright::parse(d, at)
                } else if t == "chatReportReasonUnrelatedLocation"@ {
                    ChatReportReasonUnrelatedLocation::parse(d, at)
                } else if t == "chatReportReasonCustom"@ {
                    ChatReportReasonCustom::parse(d, at)
                } else {
                    Err(Fault::UnknownVariant(t))
                },
                None => Err(Fault::MissingDiscriminator),
            },
            _ => Err(Fault::TypeMismatch(at)),
        }
    }

    fn encode(&self) -> (j: Json) {
        proof {
            reveal(<ChatReportReason as Wire>::wire);
        }
        match self {
            Self::ChatReportReasonSpam(p) => p.encode(),
            Self::ChatReportReasonViolence(p) => p.encode(),
            Self::ChatReportReasonPornography(p) => p.encode(),
            Self::ChatReportReasonChildAbuse(p) => p.encode(),
            Self::ChatReportReasonCopyright(p) => p.encode(),
            Self::ChatReportReasonUnrelatedLocation(p) => p.encode(),
            Self::ChatReportReasonCustom(p) => p.encode(),
        }
    }

    fn decode(j: &Json, at: &str) -> (r: Result<Self, DecodeError>) {
        proof {
            reveal(<ChatReportReason as Wire>::wire);
            reveal(<ChatReportReason as Wire>::parse);
        }
        let members = members_of(j, at)?;
        let tag = discriminator(members)?;
        if same_text(tag, "chatReportReasonSpam") {
            Ok(Self::ChatReportReasonSpam(ChatReportReasonSpam::decode(j, at)?))
        } else if same_text(tag, "chatReportReasonViolence") {
            Ok(Self::ChatReportReasonViolence(ChatReportReasonViolence::decode(j, at)?))
        } else if same_text(tag, "chatReportReasonPornography") {
            Ok(Self::ChatReportReasonPornography(ChatReportReasonPornography::decode(j, at)?))
        } else if same_text(tag, "chatReportReasonChildAbuse") {
            Ok(Self::ChatReportReasonChildAbuse(ChatReportReasonChildAbuse::decode(j, at)?))
        } else if same_text(tag, "chatReportReasonCopyright") {
            Ok(Self::ChatReportReasonCopyright(ChatReportReasonCopyright::decode(j, at)?))
        } else if same_text(tag, "chatReportReasonUnrelatedLocation") {
            Ok(
                Self::ChatReportReasonUnrelatedLocation(
                    ChatReportReasonUnrelatedLocation::decode(j, at)?,
                ),
            )
        } else if same_text(tag, "chatReportReasonCustom") {
            Ok(Self::ChatReportReasonCustom(ChatReportReasonCustom::decode(j, at)?))
        } else {
            Err(DecodeError::UnknownVariant(tag.to_owned()))
        }
    }

    proof fn round_trip(&self, at: Seq<char>) {
        reveal(<ChatReportReason as Wire>::wire);
        reveal(<ChatReportReason as Wire>::parse);
        reveal_strlit("chatReportReasonChildAbuse");
        reveal_strlit("chatReportReasonCopyright");
        reveal_strlit("chatReportReasonCustom");
        reveal_strlit("chatReportReasonPornography");
        reveal_strlit("chatReportReasonSpam");
        reveal_strlit("chatReportReasonUnrelatedLocation");
        reveal_strlit("chatReportReasonViolence");
        assert("chatReportReasonChildAbuse"@.len() == 26);
        assert("chatReportReasonCopyright"@.len() == 25);
        assert("chatReportReasonCustom"@.len() == 22);
        assert("chatReportReasonPornography"@.len() == 27);
        assert("chatReportReasonSpam"@.len() == 20);
        assert("chatReportReasonUnrelatedLocation"@.len() == 33);
        assert("chatReportReasonViolence"@.len() == 24);
        match self {
            Self::ChatReportReasonSpam(p) => {
                p.tag_known();
                p.round_trip(at);
            },
            Self::ChatReportReasonViolence(p) => {
                p.tag_known();
                p.round_trip(at);
            },
            Self::ChatReportReasonPornography(p) => {
                p.tag_known();
                p.round_trip(at);
            },
            Self::ChatReportReasonChildAbuse(p) => {
                p.tag_known();
                p.round_trip(at);
            },
            Self::ChatReportReasonCopyright(p) => {
                p.tag_known();
                p.round_trip(at);
            },
            Self::ChatReportReasonUnrelatedLocation(p) => {
                p.tag_known();
                p.round_trip(at);
            },
            Self::ChatReportReasonCustom(p) => {
                p.tag_known();
                p.round_trip(at);
            },
        }
    }
}

impl Tagged for ChatReportReason {
    open spec fn known(tag: Seq<char>) -> bool {
        ||| tag == "chatReportReasonSpam"@
        ||| tag == "chatReportReasonViolence"@
        ||| tag == "chatReportReasonPornography"@
        ||| tag == "chatReportReasonChildAbuse"@
        ||| tag == "chatReportReasonCopyright"@
        ||| tag == "chatReportReasonUnrelatedLocation"@
        ||| tag == "chatReportReasonCustom"@
    }

    fn knows(tag: &str) -> (r: bool) {
        same_text(tag, "chatReportReasonSpam")
            || same_text(tag, "chatReportReasonViolence")
            || same_text(tag, "chatReportReasonPornography")
            || same_text(tag, "chatReportReasonChildAbuse")
            || same_text(tag, "chatReportReasonCopyright")
            || same_text(tag, "chatReportReasonUnrelatedLocation")
            || same_text(tag, "chatReportReasonCustom")
    }

    proof fn tag_known(&self) {
        reveal(<ChatReportReason as Wire>::wire);
        match self {
            Self::ChatReportReasonSpam(p) => p.tag_known(),
            Self::ChatReportReasonViolence(p) => p.tag_known(),
            Self::ChatReportReasonPornography(p) => p.tag_known(),
            Self::ChatReportReasonChildAbuse(p) => p.tag_known(),
            Self::ChatReportReasonCopyright(p) => p.tag_known(),
            Self::ChatReportReasonUnrelatedLocation(p) => p.tag_known(),
            Self::ChatReportReasonCustom(p) => p.tag_known(),
        }
    }
}

impl Union for ChatReportReason {
    proof fn unknown_rejected(d: Doc, at: Seq<char>) {
        reveal(<ChatReportReason as Wire>::parse);
    }

    proof fn untagged_rejected(d: Doc, at: Seq<char>) {
        reveal(<ChatReportReason as Wire>::parse);
    }
}

/// Contains a public HTTPS link to a message in a supergroup or channel with a username
#[derive(Debug, Clone, PartialEq)]
pub struct PublicMessageLink {
    /// Message link
    pub link: String,
    /// HTML-code for embedding the message
    pub html: String,
}

impl Wire for PublicMessageLink {
    #[verifier::opaque]
    open spec fn wire(&self) -> Doc {
        tagged(
            Map::empty()
                .insert("link"@, self.link.wire())
                .insert("html"@, self.html.wire()),
            "publicMessageLink"@,
        )
    }

    #[verifier::opaque]
    open spec fn parse(d: Doc, at: Seq<char>) -> Result<Doc, Fault> {
        match d {
            Doc::Object(m) => {
                let link = field::<String>(m, "link"@);
                let html = field::<String>(m, "html"@);
                if link is Err {
                    link
                } else if html is Err {
                    html
                } else {
                    Ok(
                        tagged(
                            Map::empty()
                                .insert("link"@, link->Ok_0)
                                .insert("html"@, html->Ok_0),
                            "publicMessageLink"@,
                        ),
                    )
                }
            },
            _ => Err(Fault::TypeMismatch(at)),
        }
    }

    fn encode(&self) -> (j: Json) {
        proof {
            reveal(<PublicMessageLink as Wire>::wire);
        }
        let mut members: Vec<Member> = Vec::new();
        put(&mut members, "link", self.link.encode());
        put(&mut members, "html", self.html.encode());
        seal(members, "publicMessageLink")
    }

    fn decode(j: &Json, at: &str) -> (r: Result<Self, DecodeError>) {
        proof {
            reveal(<PublicMessageLink as Wire>::wire);
            reveal(<PublicMessageLink as Wire>::parse);
        }
        let members = members_of(j, at)?;
        let link = read_field::<String>(members, "link")?;
        let html = read_field::<String>(members, "html")?;
        Ok(PublicMessageLink { link, html })
    }

    proof fn round_trip(&self, at: Seq<char>) {
        reveal(<PublicMessageLink as Wire>::wire);
        reveal(<PublicMessageLink as Wire>::parse);
        reveal_strlit("@type");
        reveal_strlit("html");
        reveal_strlit("link");
        assert("@type"@.len() == 5);
        assert("html"@.len() == 4 && "html"@[0] == 'h');
        assert("link"@.len() == 4 && "link"@[0] == 'l');
        self.link.round_trip("link"@);
        self.html.round_trip("html"@);
    }
}

impl Tagged for PublicMessageLink {
    open spec fn known(tag: Seq<char>) -> bool {
        tag == "publicMessageLink"@
    }

    fn knows(tag: &str) -> (r: bool) {
        same_text(tag, "publicMessageLink")
    }

    proof fn tag_known(&self) {
        reveal(<PublicMessageLink as Wire>::wire);
        assert(tag_of(self.wire()) == Some("publicMessageLink"@));
        assert(Self::known("publicMessageLink"@));
    }
}

/// Contains information about a link to a message in a chat
#[derive(Debug, Clone, PartialEq)]
pub struct MessageLinkInfo {
    /// True, if the link is a public link for a message in a chat
    pub is_public: bool,
    /// If found, identifier of the chat to which the message belongs, 0 otherwise
    pub chat_id: i64,
    /// If found, the linked message; may be null
    pub message: Option<Message>,
    /// True, if the whole media album to which the message belongs is linked
    pub for_album: bool,
}

impl Wire for MessageLinkInfo {
    #[verifier::opaque]
    open spec fn wire(&self) -> Doc {
        tagged(
            Map::empty()
                .insert("isPublic"@, self.is_public.wire())
                .insert("chatId"@, self.chat_id.wire())
                .insert("message"@, self.message.wire())
                .insert("forAlbum"@, self.for_album.wire()),
            "messageLinkInfo"@,
        )
    }

    #[verifier::opaque]
    open spec fn parse(d: Doc, at: Seq<char>) -> Result<Doc, Fault> {
        match d {
            Doc::Object(m) => {
                let is_public = field::<bool>(m, "isPublic"@);
                let chat_id = field::<i64>(m, "chatId"@);
                let message = optional_field::<Message>(m, "message"@);
                let for_album = field::<bool>(m, "forAlbum"@);
                if is_public is Err {
                    is_public
                } else if chat_id is Err {
                    chat_id
                } else if message is Err {
                    message
                } else if for_album is Err {
                    for_album
                } else {
                    Ok(
                        tagged(
                            Map::empty()
                                .insert("isPublic"@, is_public->Ok_0)
                                .insert("chatId"@, chat_id->Ok_0)
                                .insert("message"@, message->Ok_0)
                                .insert("forAlbum"@, for_album->Ok_0),
                            "messageLinkInfo"@,
                        ),
                    )
                }
            },
            _ => Err(Fault::TypeMismatch(at)),
        }
    }

    fn encode(&self) -> (j: Json) {
        proof {
            reveal(<MessageLinkInfo as Wire>::wire);
        }
        let mut members: Vec<Member> = Vec::new();
        put(&mut members, "isPublic", self.is_public.encode());
        put(&mut members, "chatId", self.chat_id.encode());
        put(&mut members, "message", self.message.encode());
        put(&mut members, "forAlbum", self.for_album.encode());
        seal(members, "messageLinkInfo")
    }

    fn decode(j: &Json, at: &str) -> (r: Result<Self, DecodeError>) {
        proof {
            reveal(<MessageLinkInfo as Wire>::wire);
            reveal(<MessageLinkInfo as Wire>::parse);
        }
        let members = members_of(j, at)?;
        let is_public = read_field::<bool>(members, "isPublic")?;
        let chat_id = read_field::<i64>(members, "chatId")?;
        let message = read_optional::<Message>(members, "message")?;
        let for_album = read_field::<bool>(members, "forAlbum")?;
        Ok(MessageLinkInfo { is_public, chat_id, message, for_album })
    }

    proof fn round_trip(&self, at: Seq<char>) {
        reveal(<MessageLinkInfo as Wire>::wire);
        reveal(<MessageLinkInfo as Wire>::parse);
        reveal_strlit("@type");
        reveal_strlit("chatId");
        reveal_strlit("forAlbum");
        reveal_strlit("isPublic");
        reveal_strlit("message");
        assert("@type"@.len() == 5);
        assert("chatId"@.len() == 6);
        assert("forAlbum"@.len() == 8 && "forAlbum"@[0] == 'f');
        assert("isPublic"@.len() == 8 && "isPublic"@[0] == 'i');
        assert("message"@.len() == 7);
        self.is_public.round_trip("isPublic"@);
        self.chat_id.round_trip("chatId"@);
        self.message.round_trip("message"@);
        self.for_album.round_trip("forAlbum"@);
    }
}

impl Tagged for MessageLinkInfo {
    open spec fn known(tag: Seq<char>) -> bool {
        tag == "messageLinkInfo"@
    }

    fn knows(tag: &str) -> (r: bool) {
        same_text(tag, "messageLinkInfo")
    }

    proof fn tag_known(&self) {
        reveal(<MessageLinkInfo as Wire>::wire);
        assert(tag_of(self.wire()) == Some("messageLinkInfo"@));
        assert(Self::known("messageLinkInfo"@));
    }
}

/// Contains a part of a file
#[derive(Debug, Clone, PartialEq)]
pub struct FilePart {
    /// File bytes
    pub data: String,
}

impl Wire for FilePart {
    #[verifier::opaque]
    open spec fn wire(&self) -> Doc {
        tagged(
            Map::empty()
                .insert("data"@, self.data.wire()),
            "filePart"@,
        )
    }

    #[verifier::opaque]
    open spec fn parse(d: Doc, at: Seq<char>) -> Result<Doc, Fault> {
        match d {
            Doc::Object(m) => {
                let data = field::<String>(m, "data"@);
                if data is Err {
                    data
                } else {
                    Ok(
                        tagged(
                            Map::empty()
                                .insert("data"@, data->Ok_0),
                            "filePart"@,
                        ),
                    )
                }
            },
            _ => Err(Fault::TypeMismatch(at)),
        }
    }

    fn encode(&self) -> (j: Json) {
        proof {
            reveal(<FilePart as Wire>::wire);
        }
        let mut members: Vec<Member> = Vec::new();
        put(&mut members, "data", self.data.encode());
        seal(members, "filePart")
    }

    fn decode(j: &Json, at: &str) -> (r: Result<Self, DecodeError>) {
        proof {
            reveal(<FilePart as Wire>::wire);
            reveal(<FilePart as Wire>::parse);
        }
        let members = members_of(j, at)?;
        let data = read_field::<String>(members, "data")?;
        Ok(FilePart { data })
    }

    proof fn round_trip(&self, at: Seq<char>) {
        reveal(<FilePart as Wire>::wire);
        reveal(<FilePart as Wire>::parse);
        reveal_strlit("@type");
        reveal_strlit("data");
        assert("@type"@.len() == 5);
        assert("data"@.len() == 4);
        self.data.round_trip("data"@);
    }
}

impl Tagged for FilePart {
    open spec fn known(tag: Seq<char>) -> bool {
        tag == "filePart"@
    }

    fn knows(tag: &str) -> (r: bool) {
        same_text(tag, "filePart")
    }

    proof fn tag_known(&self) {
        reveal(<FilePart as Wire>::wire);
        assert(tag_of(self.wire()) == Some("filePart"@));
        assert(Self::known("filePart"@));
    }
}

} // verus!
