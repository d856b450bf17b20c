//! Language packs, device tokens, backgrounds and checks of names.

use vstd::prelude::*;
use crate::codec::{
    discriminator, encode_wide, field, lemma_wide_round_trip, members_of, optional_field, put,
    read_field, read_optional, read_wide, seal, Tagged, Union, wide_doc, wide_field, Wire,
};
use crate::error::{DecodeError, Fault};
use crate::json::{Doc, Json, Member, tag_of, tagged};
use crate::text::same_text;
use crate::types::{
    Document, InputFile,
};

verus! {

/// An ordinary language pack string
#[derive(Debug, Clone, PartialEq)]
pub struct LanguagePackStringValueOrdinary {
    /// String value
    pub value: String,
}

impl Wire for LanguagePackStringValueOrdinary {
    #[verifier::opaque]
    open spec fn wire(&self) -> Doc {
        tagged(
            Map::empty()
                .insert("value"@, self.value.wire()),
            "languagePackStringValueOrdinary"@,
        )
    }

    #[verifier::opaque]
    open spec fn parse(d: Doc, at: Seq<char>) -> Result<Doc, Fault> {
        match d {
            Doc::Object(m) => {
                let value = field::<String>(m, "value"@);
                if value is Err {
                    value
                } else {
                    Ok(
                        tagged(
                            Map::empty()
                                .insert("value"@, value->Ok_0),
                            "languagePackStringValueOrdinary"@,
                        ),
                    )
                }
            },
            _ => Err(Fault::TypeMismatch(at)),
        }
    }

    fn encode(&self) -> (j: Json) {
        proof {
            reveal(<LanguagePackStringValueOrdinary as Wire>::wire);
        }
        let mut members: Vec<Member> = Vec::new();
        put(&mut members, "value", self.value.encode());
        seal(members, "languagePackStringValueOrdinary")
    }

    fn decode(j: &Json, at: &str) -> (r: Result<Self, DecodeError>) {
        proof {
            reveal(<LanguagePackStringValueOrdinary as Wire>::wire);
            reveal(<LanguagePackStringValueOrdinary as Wire>::parse);
        }
        let members = members_of(j, at)?;
        let value = read_field::<String>(members, "value")?;
        Ok(LanguagePackStringValueOrdinary { value })
    }

    proof fn round_trip(&self, at: Seq<char>) {
        reveal(<LanguagePackStringValueOrdinary as Wire>::wire);
        reveal(<LanguagePackStringValueOrdinary as Wire>::parse);
        reveal_strlit("@type");
        reveal_strlit("value");
        assert("@type"@.len() == 5 && "@type"@[0] == '@');
        assert("value"@.len() == 5 && "value"@[0] == 'v');
        self.value.round_trip("value"@);
    }
}

impl Tagged for LanguagePackStringValueOrdinary {
    open spec fn known(tag: Seq<char>) -> bool {
        tag == "languagePackStringValueOrdinary"@
    }

    fn knows(tag: &str) -> (r: bool) {
        same_text(tag, "languagePackStringValueOrdinary")
    }

    proof fn tag_known(&self) {
        reveal(<LanguagePackStringValueOrdinary as Wire>::wire);
        assert(tag_of(self.wire()) == Some("languagePackStringValueOrdinary"@));
        assert(Self::known("languagePackStringValueOrdinary"@));
    }
}

/// A language pack string which has different forms based on the number of some object it mentions.
/// See https://www.unicode.org/cldr/charts/latest/supplemental/language_plural_rules.html for more
/// info
#[derive(Debug, Clone, PartialEq)]
pub struct LanguagePackStringValuePluralized {
    /// Value for zero objects
    pub zero_value: String,
    /// Value for one object
    pub one_value: String,
    /// Value for two objects
    pub two_value: String,
    /// Value for few objects
    pub few_value: String,
    /// Value for many objects
    pub many_value: String,
    /// Default value
    pub other_value: String,
}

impl Wire for LanguagePackStringValuePluralized {
    #[verifier::opaque]
    open spec fn wire(&self) -> Doc {
        tagged(
            Map::empty()
                .insert("zeroValue"@, self.zero_value.wire())
                .insert("oneValue"@, self.one_value.wire())
                .insert("twoValue"@, self.two_value.wire())
                .insert("fewValue"@, self.few_value.wire())
                .insert("manyValue"@, self.many_value.wire())
                .insert("otherValue"@, self.other_value.wire()),
            "languagePackStringValuePluralized"@,
        )
    }

    #[verifier::opaque]
    open spec fn parse(d: Doc, at: Seq<char>) -> Result<Doc, Fault> {
        match d {
            Doc::Object(m) => {
                let zero_value = field::<String>(m, "zeroValue"@);
                let one_value = field::<String>(m, "oneValue"@);
                let two_value = field::<String>(m, "twoValue"@);
                let few_value = field::<String>(m, "fewValue"@);
                let many_value = field::<String>(m, "manyValue"@);
                let other_value = field::<String>(m, "otherValue"@);
                if zero_value is Err {
                    zero_value
                } else if one_value is Err {
                    one_value
                } else if two_value is Err {
                    two_value
                } else if few_value is Err {
                    few_value
                } else if many_value is Err {
                    many_value
                } else if other_value is Err {
                    other_value
                } else {
                    Ok(
                        tagged(
                            Map::empty()
                                .insert("zeroValue"@, zero_value->Ok_0)
                                .insert("oneValue"@, one_value->Ok_0)
                                .insert("twoValue"@, two_value->Ok_0)
                                .insert("fewValue"@, few_value->Ok_0)
                                .insert("manyValue"@, many_value->Ok_0)
                                .insert("otherValue"@, other_value->Ok_0),
                            "languagePackStringValuePluralized"@,
                        ),
                    )
                }
            },
            _ => Err(Fault::TypeMismatch(at)),
        }
    }

    fn encode(&self) -> (j: Json) {
        proof {
            reveal(<LanguagePackStringValuePluralized as Wire>::wire);
        }
        let mut members: Vec<Member> = Vec::new();
        put(&mut members, "zeroValue", self.zero_value.encode());
        put(&mut members, "oneValue", self.one_value.encode());
        put(&mut members, "twoValue", self.two_value.encode());
        put(&mut members, "fewValue", self.few_value.encode());
        put(&mut members, "manyValue", self.many_value.encode());
        put(&mut members, "otherValue", self.other_value.encode());
        seal(members, "languagePackStringValuePluralized")
    }

    fn decode(j: &Json, at: &str) -> (r: Result<Self, DecodeError>) {
        proof {
            reveal(<LanguagePackStringValuePluralized as Wire>::wire);
            reveal(<LanguagePackStringValuePluralized as Wire>::parse);
        }
        let members = members_of(j, at)?;
        let zero_value = read_field::<String>(members, "zeroValue")?;
        let one_value = read_field::<String>(members, "oneValue")?;
        let two_value = read_field::<String>(members, "twoValue")?;
        let few_value = read_field::<String>(members, "fewValue")?;
        let many_value = read_field::<String>(members, "manyValue")?;
        let other_value = read_field::<String>(members, "otherValue")?;
        Ok(LanguagePackStringValuePluralized {
            zero_value,
            one_value,
            two_value,
            few_value,
            many_value,
            other_value,
        })
    }

    proof fn round_trip(&self, at: Seq<char>) {
        reveal(<LanguagePackStringValuePluralized as Wire>::wire);
        reveal(<LanguagePackStringValuePluralized as Wire>::parse);
        reveal_strlit("@type");
        reveal_strlit("fewValue");
        reveal_strlit("manyValue");
        reveal_strlit("oneValue");
        reveal_strlit("otherValue");
        reveal_strlit("twoValue");
        reveal_strlit("zeroValue");
        assert("@type"@.len() == 5);
        assert("fewValue"@.len() == 8 && "fewValue"@[0] == 'f');
        assert("manyValue"@.len() == 9 && "manyValue"@[0] == 'm');
        assert("oneValue"@.len() == 8 && "oneValue"@[0] == 'o');
        assert("otherValue"@.len() == 10);
        assert("twoValue"@.len() == 8 && "twoValue"@[0] == 't');
        assert("zeroValue"@.len() == 9 && "zeroValue"@[0] == 'z');
        self.zero_value.round_trip("zeroValue"@);
        self.one_value.round_trip("oneValue"@);
        self.two_value.round_trip("twoValue"@);
        self.few_value.round_trip("fewValue"@);
        self.many_value.round_trip("manyValue"@);
        self.other_value.round_trip("otherValue"@);
    }
}

impl Tagged for LanguagePackStringValuePluralized {
    open spec fn known(tag: Seq<char>) -> bool {
        tag == "languagePackStringValuePluralized"@
    }

    fn knows(tag: &str) -> (r: bool) {
        same_text(tag, "languagePackStringValuePluralized")
    }

    proof fn tag_known(&self) {
        reveal(<LanguagePackStringValuePluralized as Wire>::wire);
        assert(tag_of(self.wire()) == Some("languagePackStringValuePluralized"@));
        assert(Self::known("languagePackStringValuePluralized"@));
    }
}

/// A deleted language pack string, the value should be taken from the built-in english language
/// pack
#[derive(Debug, Clone, PartialEq)]
pub struct LanguagePackStringValueDeleted {}

impl Wire for LanguagePackStringValueDeleted {
    #[verifier::opaque]
    open spec fn wire(&self) -> Doc {
        tagged(Map::empty(), "languagePackStringValueDeleted"@)
    }

    #[verifier::opaque]
    open spec fn parse(d: Doc, at: Seq<char>) -> Result<Doc, Fault> {
        match d {
            Doc::Object(_) => Ok(tagged(Map::empty(), "languagePackStringValueDeleted"@)),
            _ => Err(Fault::TypeMismatch(at)),
        }
    }

    fn encode(&self) -> (j: Json) {
        proof {
            reveal(<LanguagePackStringValueDeleted as Wire>::wire);
        }
        seal(Vec::new(), "languagePackStringValueDeleted")
    }

    fn decode(j: &Json, at: &str) -> (r: Result<Self, DecodeError>) {
        proof {
            reveal(<LanguagePackStringValueDeleted as Wire>::wire);
            reveal(<LanguagePackStringValueDeleted as Wire>::parse);
        }
        let _ = members_of(j, at)?;
        Ok(LanguagePackStringValueDeleted {})
    }

    proof fn round_trip(&self, at: Seq<char>) {
        reveal(<LanguagePackStringValueDeleted as Wire>::wire);
        reveal(<LanguagePackStringValueDeleted as Wire>::parse);
    }
}

impl Tagged for LanguagePackStringValueDeleted {
    open spec fn known(tag: Seq<char>) -> bool {
        tag == "languagePackStringValueDeleted"@
    }

    fn knows(tag: &str) -> (r: bool) {
        same_text(tag, "languagePackStringValueDeleted")
    }

    proof fn tag_known(&self) {
        reveal(<LanguagePackStringValueDeleted as Wire>::wire);
        assert(tag_of(self.wire()) == Some("languagePackStringValueDeleted"@));
        assert(Self::known("languagePackStringValueDeleted"@));
    }
}

/// Represents the value of a string in a language pack
#[derive(Debug, Clone, PartialEq)]
pub enum LanguagePackStringValue {
    LanguagePackStringValueOrdinary(LanguagePackStringValueOrdinary),
    LanguagePackStringValuePluralized(LanguagePackStringValuePluralized),
    LanguagePackStringValueDeleted(LanguagePackStringValueDeleted),
}

impl Wire for LanguagePackStringValue {
    #[verifier::opaque]
    open spec fn wire(&self) -> Doc {
        match self {
            Self::LanguagePackStringValueOrdinary(p) => p.wire(),
            Self::LanguagePackStringValuePluralized(p) => p.wire(),
            Self::LanguagePackStringValueDeleted(p) => p.wire(),
        }
    }

    #[verifier::opaque]
    open spec fn parse(d: Doc, at: Seq<char>) -> Result<Doc, Fault> {
        match d {
            Doc::Object(_) => match tag_of(d) {
                Some(t) => if t == "languagePackStringValueOrdinary"@ {
                    LanguagePackStringValueOrdinary::parse(d, at)
                } else if t == "languagePackStringValuePluralized"@ {
                    LanguagePackStringValuePluralized::parse(d, at)
                } else if t == "languagePackStringValueDeleted"@ {
                    LanguagePackStringValueDeleted::parse(d, at)
                } else {
                    Err(Fault::UnknownVariant(t))
                },
                None => Err(Fault::MissingDiscriminator),
            },
            _ => Err(Fault::TypeMismatch(at)),
        }
    }

    fn encode(&self) -> (j: Json) {
        proof {
            reveal(<LanguagePackStringValue as Wire>::wire);
        }
        match self {
            Self::LanguagePackStringValueOrdinary(p) => p.encode(),
            Self::LanguagePackStringValuePluralized(p) => p.encode(),
            Self::LanguagePackStringValueDeleted(p) => p.encode(),
        }
    }

    fn decode(j: &Json, at: &str) -> (r: Result<Self, DecodeError>) {
        proof {
            reveal(<LanguagePackStringValue as Wire>::wire);
            reveal(<LanguagePackStringValue as Wire>::parse);
        }
        let members = members_of(j, at)?;
        let tag = discriminator(members)?;
        if same_text(tag, "languagePackStringValueOrdinary") {
            Ok(
                Self::LanguagePackStringValueOrdinary(
                    LanguagePackStringValueOrdinary::decode(j, at)?,
                ),
            )
        } else if same_text(tag, "languagePackStringValuePluralized") {
            Ok(
                Self::LanguagePackStringValuePluralized(
                    LanguagePackStringValuePluralized::decode(j, at)?,
                ),
            )
        } else if same_text(tag, "languagePackStringValueDeleted") {
            Ok(Self::LanguagePackStringValueDeleted(LanguagePackStringValueDeleted::decode(j, at)?))
        } else {
            Err(DecodeError::UnknownVariant(tag.to_owned()))
        }
    }

    proof fn round_trip(&self, at: Seq<char>) {
        reveal(<LanguagePackStringValue as Wire>::wire);
        reveal(<LanguagePackStringValue as Wire>::parse);
        reveal_strlit("languagePackStringValueDeleted");
        reveal_strlit("languagePackStringValueOrdinary");
        reveal_strlit("languagePackStringValuePluralized");
        assert("languagePackStringValueDeleted"@.len() == 30);
        assert("languagePackStringValueOrdinary"@.len() == 31);
        assert("languagePackStringValuePluralized"@.len() == 33);
        match self {
            Self::LanguagePackStringValueOrdinary(p) => {
                p.tag_known();
                p.round_trip(at);
            },
            Self::LanguagePackStringValuePluralized(p) => {
                p.tag_known();
                p.round_trip(at);
            },
            Self::LanguagePackStringValueDeleted(p) => {
                p.tag_known();
                p.round_trip(at);
            },
        }
    }
}

impl Tagged for LanguagePackStringValue {
    open spec fn known(tag: Seq<char>) -> bool {
        ||| tag == "languagePackStringValueOrdinary"@
        ||| tag == "languagePackStringValuePluralized"@
        ||| tag == "languagePackStringValueDeleted"@
    }

    fn knows(tag: &str) -> (r: bool) {
        same_text(tag, "languagePackStringValueOrdinary")
            || same_text(tag, "languagePackStringValuePluralized")
            || same_text(tag, "languagePackStringValueDeleted")
    }

    proof fn tag_known(&self) {
        reveal(<LanguagePackStringValue as Wire>::wire);
        match self {
            Self::LanguagePackStringValueOrdinary(p) => p.tag_known(),
            Self::LanguagePackStringValuePluralized(p) => p.tag_known(),
            Self::LanguagePackStringValueDeleted(p) => p.tag_known(),
        }
    }
}

impl Union for LanguagePackStringValue {
    proof fn unknown_rejected(d: Doc, at: Seq<char>) {
        reveal(<LanguagePackStringValue as Wire>::parse);
    }

    proof fn untagged_rejected(d: Doc, at: Seq<char>) {
        reveal(<LanguagePackStringValue as Wire>::parse);
    }
}

/// Represents one language pack string
#[derive(Debug, Clone, PartialEq)]
pub struct LanguagePackString {
    /// String key
    pub key: String,
    /// String value
    pub value: LanguagePackStringValue,
}

impl Wire for LanguagePackString {
    #[verifier::opaque]
    open spec fn wire(&self) -> Doc {
        tagged(
            Map::empty()
                .insert("key"@, self.key.wire())
                .insert("value"@, self.value.wire()),
            "languagePackString"@,
        )
    }

    #[verifier::opaque]
    open spec fn parse(d: Doc, at: Seq<char>) -> Result<Doc, Fault> {
        match d {
            Doc::Object(m) => {
                let key = field::<String>(m, "key"@);
                let value = field::<LanguagePackStringValue>(m, "value"@);
                if key is Err {
                    key
                } else if value is Err {
                    value
                } else {
                    Ok(
                        tagged(
                            Map::empty()
                                .insert("key"@, key->Ok_0)
                                .insert("value"@, value->Ok_0),
                            "languagePackString"@,
                        ),
                    )
                }
            },
            _ => Err(Fault::TypeMismatch(at)),
        }
    }

    fn encode(&self) -> (j: Json) {
        proof {
            reveal(<LanguagePackString as Wire>::wire);
        }
        let mut members: Vec<Member> = Vec::new();
        put(&mut members, "key", self.key.encode());
        put(&mut members, "value", self.value.encode());
        seal(members, "languagePackString")
    }

    fn decode(j: &Json, at: &str) -> (r: Result<Self, DecodeError>) {
        proof {
            reveal(<LanguagePackString as Wire>::wire);
            reveal(<LanguagePackString as Wire>::parse);
        }
        let members = members_of(j, at)?;
        let key = read_field::<String>(members, "key")?;
        let value = read_field::<LanguagePackStringValue>(members, "value")?;
        Ok(LanguagePackString { key, value })
    }

    proof fn round_trip(&self, at: Seq<char>) {
        reveal(<LanguagePackString as Wire>::wire);
        reveal(<LanguagePackString as Wire>::parse);
        reveal_strlit("@type");
        reveal_strlit("key");
        reveal_strlit("value");
        assert("@type"@.len() == 5 && "@type"@[0] == '@');
        assert("key"@.len() == 3);
        assert("value"@.len() == 5 && "value"@[0] == 'v');
        self.key.round_trip("key"@);
        self.value.round_trip("value"@);
    }
}

impl Tagged for LanguagePackString {
    open spec fn known(tag: Seq<char>) -> bool {
        tag == "languagePackString"@
    }

    fn knows(tag: &str) -> (r: bool) {
        same_text(tag, "languagePackString")
    }

    proof fn tag_known(&self) {
        reveal(<LanguagePackString as Wire>::wire);
        assert(tag_of(self.wire()) == Some("languagePackString"@));
        assert(Self::known("languagePackString"@));
    }
}

/// Contains a list of language pack strings
#[derive(Debug, Clone, PartialEq)]
pub struct LanguagePackStrings {
    /// A list of language pack strings
    pub strings: Vec<LanguagePackString>,
}

impl Wire for LanguagePackStrings {
    #[verifier::opaque]
    open spec fn wire(&self) -> Doc {
        tagged(
            Map::empty()
                .insert("strings"@, self.strings.wire()),
            "languagePackStrings"@,
        )
    }

    #[verifier::opaque]
    open spec fn parse(d: Doc, at: Seq<char>) -> Result<Doc, Fault> {
        match d {
            Doc::Object(m) => {
                let strings = field::<Vec<LanguagePackString>>(m, "strings"@);
                if strings is Err {
                    strings
                } else {
                    Ok(
                        tagged(
                            Map::empty()
                                .insert("strings"@, strings->Ok_0),
                            "languagePackStrings"@,
                        ),
                    )
                }
            },
            _ => Err(Fault::TypeMismatch(at)),
        }
    }

    fn encode(&self) -> (j: Json) {
        proof {
            reveal(<LanguagePackStrings as Wire>::wire);
        }
        let mut members: Vec<Member> = Vec::new();
        put(&mut members, "strings", self.strings.encode());
        seal(members, "languagePackStrings")
    }

    fn decode(j: &Json, at: &str) -> (r: Result<Self, DecodeError>) {
        proof {
            reveal(<LanguagePackStrings as Wire>::wire);
            reveal(<LanguagePackStrings as Wire>::parse);
        }
        let members = members_of(j, at)?;
        let strings = read_field::<Vec<LanguagePackString>>(members, "strings")?;
        Ok(LanguagePackStrings { strings })
    }

    proof fn round_trip(&self, at: Seq<char>) {
        reveal(<LanguagePackStrings as Wire>::wire);
        reveal(<LanguagePackStrings as Wire>::parse);
        reveal_strlit("@type");
        reveal_strlit("strings");
        assert("@type"@.len() == 5);
        assert("strings"@.len() == 7);
        self.strings.round_trip("strings"@);
    }
}

impl Tagged for LanguagePackStrings {
    open spec fn known(tag: Seq<char>) -> bool {
        tag == "languagePackStrings"@
    }

    fn knows(tag: &str) -> (r: bool) {
        same_text(tag, "languagePackStrings")
    }

    proof fn tag_known(&self) {
        reveal(<LanguagePackStrings as Wire>::wire);
        assert(tag_of(self.wire()) == Some("languagePackStrings"@));
        assert(Self::known("languagePackStrings"@));
    }
}

/// Contains information about a language pack
#[derive(Debug, Clone, PartialEq)]
pub struct LanguagePackInfo {
    /// Unique language pack identifier
    pub id: String,
    /// Identifier of a base language pack; may be empty. If a string is missed in the language
    /// pack, then it should be fetched from base language pack. Unsupported in custom language
    /// packs
    pub base_language_pack_id: String,
    /// Language name
    pub name: String,
    /// Name of the language in that language
    pub native_name: String,
    /// A language code to be used to apply plural forms. See
    /// https://www.unicode.org/cldr/charts/latest/supplemental/language_plural_rules.html for more
    /// info
    pub plural_code: String,
    /// True, if the language pack is official
    pub is_official: bool,
    /// True, if the language pack strings are RTL
    pub is_rtl: bool,
    /// True, if the language pack is a beta language pack
    pub is_beta: bool,
    /// True, if the language pack is installed by the current user
    pub is_installed: bool,
    /// Total number of non-deleted strings from the language pack
    pub total_string_count: i32,
    /// Total number of translated strings from the language pack
    pub translated_string_count: i32,
    /// Total number of non-deleted strings from the language pack available locally
    pub local_string_count: i32,
    /// Link to language translation interface; empty for custom local language packs
    pub translation_url: String,
}

impl Wire for LanguagePackInfo {
    #[verifier::opaque]
    open spec fn wire(&self) -> Doc {
        tagged(
            Map::empty()
                .insert("id"@, self.id.wire())
                .insert("baseLanguagePackId"@, self.base_language_pack_id.wire())
                .insert("name"@, self.name.wire())
                .insert("nativeName"@, self.native_name.wire())
                .insert("pluralCode"@, self.plural_code.wire())
                .insert("isOfficial"@, self.is_official.wire())
                .insert("isRtl"@, self.is_rtl.wire())
                .insert("isBeta"@, self.is_beta.wire())
                .insert("isInstalled"@, self.is_installed.wire())
                .insert("totalStringCount"@, self.total_string_count.wire())
                .insert("translatedStringCount"@, self.translated_string_count.wire())
                .insert("localStringCount"@, self.local_string_count.wire())
                .insert("translationUrl"@, self.translation_url.wire()),
            "languagePackInfo"@,
        )
    }

    #[verifier::opaque]
    open spec fn parse(d: Doc, at: Seq<char>) -> Result<Doc, Fault> {
        match d {
            Doc::Object(m) => {
                let id = field::<String>(m, "id"@);
                let base_language_pack_id = field::<String>(m, "baseLanguagePackId"@);
                let name = field::<String>(m, "name"@);
                let native_name = field::<String>(m, "nativeName"@);
                let plural_code = field::<String>(m, "pluralCode"@);
                let is_official = field::<bool>(m, "isOfficial"@);
                let is_rtl = field::<bool>(m, "isRtl"@);
                let is_beta = field::<bool>(m, "isBeta"@);
                let is_installed = field::<bool>(m, "isInstalled"@);
                let total_string_count = field::<i32>(m, "totalStringCount"@);
                let translated_string_count = field::<i32>(m, "translatedStringCount"@);
                let local_string_count = field::<i32>(m, "localStringCount"@);
                let translation_url = field::<String>(m, "translationUrl"@);
                if id is Err {
                    id
                } else if base_language_pack_id is Err {
                    base_language_pack_id
                } else if name is Err {
                    name
                } else if native_name is Err {
                    native_name
                } else if plural_code is Err {
                    plural_code
                } else if is_official is Err {
                    is_official
                } else if is_rtl is Err {
                    is_rtl
                } else if is_beta is Err {
                    is_beta
                } else if is_installed is Err {
                    is_installed
                } else if total_string_count is Err {
                    total_string_count
                } else if translated_string_count is Err {
                    translated_string_count
                } else if local_string_count is Err {
                    local_string_count
                } else if translation_url is Err {
                    translation_url
                } else {
                    Ok(
                        tagged(
                            Map::empty()
                                .insert("id"@, id->Ok_0)
                                .insert("baseLanguagePackId"@, base_language_pack_id->Ok_0)
                                .insert("name"@, name->Ok_0)
                                .insert("nativeName"@, native_name->Ok_0)
                                .insert("pluralCode"@, plural_code->Ok_0)
                                .insert("isOfficial"@, is_official->Ok_0)
                                .insert("isRtl"@, is_rtl->Ok_0)
                                .insert("isBeta"@, is_beta->Ok_0)
                                .insert("isInstalled"@, is_installed->Ok_0)
                                .insert("totalStringCount"@, total_string_count->Ok_0)
                                .insert("translatedStringCount"@, translated_string_count->Ok_0)
                                .insert("localStringCount"@, local_string_count->Ok_0)
                                .insert("translationUrl"@, translation_url->Ok_0),
                            "languagePackInfo"@,
                        ),
                    )
                }
            },
            _ => Err(Fault::TypeMismatch(at)),
        }
    }

    fn encode(&self) -> (j: Json) {
        proof {
            reveal(<LanguagePackInfo as Wire>::wire);
        }
        let mut members: Vec<Member> = Vec::new();
        put(&mut members, "id", self.id.encode());
        put(&mut members, "baseLanguagePackId", self.base_language_pack_id.encode());
        put(&mut members, "name", self.name.encode());
        put(&mut members, "nativeName", self.native_name.encode());
        put(&mut members, "pluralCode", self.plural_code.encode());
        put(&mut members, "isOfficial", self.is_official.encode());
        put(&mut members, "isRtl", self.is_rtl.encode());
        put(&mut members, "isBeta", self.is_beta.encode());
        put(&mut members, "isInstalled", self.is_installed.encode());
        put(&mut members, "totalStringCount", self.total_string_count.encode());
        put(&mut members, "translatedStringCount", self.translated_string_count.encode());
        put(&mut members, "localStringCount", self.local_string_count.encode());
        put(&mut members, "translationUrl", self.translation_url.encode());
        seal(members, "languagePackInfo")
    }

    fn decode(j: &Json, at: &str) -> (r: Result<Self, DecodeError>) {
        proof {
            reveal(<LanguagePackInfo as Wire>::wire);
            reveal(<LanguagePackInfo as Wire>::parse);
        }
        let members = members_of(j, at)?;
        let id = read_field::<String>(members, "id")?;
        let base_language_pack_id = read_field::<String>(members, "baseLanguagePackId")?;
        let name = read_field::<String>(members, "name")?;
        let native_name = read_field::<String>(members, "nativeName")?;
        let plural_code = read_field::<String>(members, "pluralCode")?;
        let is_official = read_field::<bool>(members, "isOfficial")?;
        let is_rtl = read_field::<bool>(members, "isRtl")?;
        let is_beta = read_field::<bool>(members, "isBeta")?;
        let is_installed = read_field::<bool>(members, "isInstalled")?;
        let total_string_count = read_field::<i32>(members, "totalStringCount")?;
        let translated_string_count = read_field::<i32>(members, "translatedStringCount")?;
        let local_string_count = read_field::<i32>(members, "localStringCount")?;
        let translation_url = read_field::<String>(members, "translationUrl")?;
        Ok(LanguagePackInfo {
            id,
            base_language_pack_id,
            name,
            native_name,
            plural_code,
            is_official,
            is_rtl,
            is_beta,
            is_installed,
            total_string_count,
            translated_string_count,
            local_string_count,
            translation_url,
        })
    }

    proof fn round_trip(&self, at: Seq<char>) {
        reveal(<LanguagePackInfo as Wire>::wire);
        reveal(<LanguagePackInfo as Wire>::parse);
        reveal_strlit("@type");
        reveal_strlit("baseLanguagePackId");
        reveal_strlit("id");
        reveal_strlit("isBeta");
        reveal_strlit("isInstalled");
        reveal_strlit("isOfficial");
        reveal_strlit("isRtl");
        reveal_strlit("localStringCount");
        reveal_strlit("name");
        reveal_strlit("nativeName");
        reveal_strlit("pluralCode");
        reveal_strlit("totalStringCount");
        reveal_strlit("translatedStringCount");
        reveal_strlit("translationUrl");
        assert("@type"@.len() == 5 && "@type"@[0] == '@');
        assert("baseLanguagePackId"@.len() == 18);
        assert("id"@.len() == 2);
        assert("isBeta"@.len() == 6);
        assert("isInstalled"@.len() == 11);
        assert("isOfficial"@.len() == 10 && "isOfficial"@[0] == 'i');
        assert("isRtl"@.len() == 5 && "isRtl"@[0] == 'i');
        assert("localStringCount"@.len() == 16 && "localStringCount"@[0] == 'l');
        assert("name"@.len() == 4);
        assert("nativeName"@.len() == 10 && "nativeName"@[0] == 'n');
        assert("pluralCode"@.len() == 10 && "pluralCode"@[0] == 'p');
        assert("totalStringCount"@.len() == 16 && "totalStringCount"@[0] == 't');
        assert("translatedStringCount"@.len() == 21);
        assert("translationUrl"@.len() == 14);
        self.id.round_trip("id"@);
        self.base_language_pack_id.round_trip("baseLanguagePackId"@);
        self.name.round_trip("name"@);
        self.native_name.round_trip("nativeName"@);
        self.plural_code.round_trip("pluralCode"@);
        self.is_official.round_trip("isOfficial"@);
        self.is_rtl.round_trip("isRtl"@);
        self.is_beta.round_trip("isBeta"@);
        self.is_installed.round_trip("isInstalled"@);
        self.total_string_count.round_trip("totalStringCount"@);
        self.translated_string_count.round_trip("translatedStringCount"@);
        self.local_string_count.round_trip("localStringCount"@);
        self.translation_url.round_trip("translationUrl"@);
        let m = self.wire()->Object_0;
        assert(field::<String>(m, "id"@) == Ok::<Doc, Fault>(self.id.wire()));
        assert(field::<String>(m, "baseLanguagePackId"@)
            == Ok::<Doc, Fault>(self.base_language_pack_id.wire()));
        assert(field::<String>(m, "name"@) == Ok::<Doc, Fault>(self.name.wire()));
        assert(field::<String>(m, "nativeName"@) == Ok::<Doc, Fault>(self.native_name.wire()));
        assert(field::<String>(m, "pluralCode"@) == Ok::<Doc, Fault>(self.plural_code.wire()));
        assert(field::<bool>(m, "isOfficial"@) == Ok::<Doc, Fault>(self.is_official.wire()));
        assert(field::<bool>(m, "isRtl"@) == Ok::<Doc, Fault>(self.is_rtl.wire()));
        assert(field::<bool>(m, "isBeta"@) == Ok::<Doc, Fault>(self.is_beta.wire()));
        assert(field::<bool>(m, "isInstalled"@) == Ok::<Doc, Fault>(self.is_installed.wire()));
        assert(field::<i32>(m, "totalStringCount"@)
            == Ok::<Doc, Fault>(self.total_string_count.wire()));
        assert(field::<i32>(m, "translatedStringCount"@)
            == Ok::<Doc, Fault>(self.translated_string_count.wire()));
        assert(field::<i32>(m, "localStringCount"@)
            == Ok::<Doc, Fault>(self.local_string_count.wire()));
        assert(field::<String>(m, "translationUrl"@)
            == Ok::<Doc, Fault>(self.translation_url.wire()));
    }
}

impl Tagged for LanguagePackInfo {
    open spec fn known(tag: Seq<char>) -> bool {
        tag == "languagePackInfo"@
    }

    fn knows(tag: &str) -> (r: bool) {
        same_text(tag, "languagePackInfo")
    }

    proof fn tag_known(&self) {
        reveal(<LanguagePackInfo as Wire>::wire);
        assert(tag_of(self.wire()) == Some("languagePackInfo"@));
        assert(Self::known("languagePackInfo"@));
    }
}

/// Contains information about the current localization target
#[derive(Debug, Clone, PartialEq)]
pub struct LocalizationTargetInfo {
    /// List of available language packs for this application
    pub language_packs: Vec<LanguagePackInfo>,
}

impl Wire for LocalizationTargetInfo {
    #[verifier::opaque]
    open spec fn wire(&self) -> Doc {
        tagged(
            Map::empty()
                .insert("languagePacks"@, self.language_packs.wire()),
            "localizationTargetInfo"@,
        )
    }

    #[verifier::opaque]
    open spec fn parse(d: Doc, at: Seq<char>) -> Result<Doc, Fault> {
        match d {
            Doc::Object(m) => {
                let language_packs = field::<Vec<LanguagePackInfo>>(m, "languagePacks"@);
                if language_packs is Err {
                    language_packs
                } else {
                    Ok(
                        tagged(
                            Map::empty()
                                .insert("languagePacks"@, language_packs->Ok_0),
                            "localizationTargetInfo"@,
                        ),
                    )
                }
            },
            _ => Err(Fault::TypeMismatch(at)),
        }
    }

    fn encode(&self) -> (j: Json) {
        proof {
            reveal(<LocalizationTargetInfo as Wire>::wire);
        }
        let mut members: Vec<Member> = Vec::new();
        put(&mut members, "languagePacks", self.language_packs.encode());
        seal(members, "localizationTargetInfo")
    }

    fn decode(j: &Json, at: &str) -> (r: Result<Self, DecodeError>) {
        proof {
            reveal(<LocalizationTargetInfo as Wire>::wire);
            reveal(<LocalizationTargetInfo as Wire>::parse);
        }
        let members = members_of(j, at)?;
        let language_packs = read_field::<Vec<LanguagePackInfo>>(members, "languagePacks")?;
        Ok(LocalizationTargetInfo { language_packs })
    }

    proof fn round_trip(&self, at: Seq<char>) {
        reveal(<LocalizationTargetInfo as Wire>::wire);
        reveal(<LocalizationTargetInfo as Wire>::parse);
        reveal_strlit("@type");
        reveal_strlit("languagePacks");
        assert("@type"@.len() == 5);
        assert("languagePacks"@.len() == 13);
        self.language_packs.round_trip("languagePacks"@);
    }
}

impl Tagged for LocalizationTargetInfo {
    open spec fn known(tag: Seq<char>) -> bool {
        tag == "localizationTargetInfo"@
    }

    fn knows(tag: &str) -> (r: bool) {
        same_text(tag, "localizationTargetInfo")
    }

    proof fn tag_known(&self) {
        reveal(<LocalizationTargetInfo as Wire>::wire);
        assert(tag_of(self.wire()) == Some("localizationTargetInfo"@));
        assert(Self::known("localizationTargetInfo"@));
    }
}

/// A token for Firebase Cloud Messaging
#[derive(Debug, Clone, PartialEq)]
pub struct DeviceTokenFirebaseCloudMessaging {
    /// Device registration token; may be empty to de-register a device
    pub token: String,
    /// True, if push notifications should be additionally encrypted
    pub encrypt: bool,
}

impl Wire for DeviceTokenFirebaseCloudMessaging {
    #[verifier::opaque]
    open spec fn wire(&self) -> Doc {
        tagged(
            Map::empty()
                .insert("token"@, self.token.wire())
                .insert("encrypt"@, self.encrypt.wire()),
            "deviceTokenFirebaseCloudMessaging"@,
        )
    }

    #[verifier::opaque]
    open spec fn parse(d: Doc, at: Seq<char>) -> Result<Doc, Fault> {
        match d {
            Doc::Object(m) => {
                let token = field::<String>(m, "token"@);
                let encrypt = field::<bool>(m, "encrypt"@);
                if token is Err {
                    token
                } else if encrypt is Err {
                    encrypt
                } else {
                    Ok(
                        tagged(
                            Map::empty()
                                .insert("token"@, token->Ok_0)
                                .insert("encrypt"@, encrypt->Ok_0),
                            "deviceTokenFirebaseCloudMessaging"@,
                        ),
                    )
                }
            },
            _ => Err(Fault::TypeMismatch(at)),
        }
    }

    fn encode(&self) -> (j: Json) {
        proof {
            reveal(<DeviceTokenFirebaseCloudMessaging as Wire>::wire);
        }
        let mut members: Vec<Member> = Vec::new();
        put(&mut members, "token", self.token.encode());
        put(&mut members, "encrypt", self.encrypt.encode());
        seal(members, "deviceTokenFirebaseCloudMessaging")
    }

    fn decode(j: &Json, at: &str) -> (r: Result<Self, DecodeError>) {
        proof {
            reveal(<DeviceTokenFirebaseCloudMessaging as Wire>::wire);
            reveal(<DeviceTokenFirebaseCloudMessaging as Wire>::parse);
        }
        let members = members_of(j, at)?;
        let token = read_field::<String>(members, "token")?;
        let encrypt = read_field::<bool>(members, "encrypt")?;
        Ok(DeviceTokenFirebaseCloudMessaging { token, encrypt })
    }

    proof fn round_trip(&self, at: Seq<char>) {
        reveal(<DeviceTokenFirebaseCloudMessaging as Wire>::wire);
        reveal(<DeviceTokenFirebaseCloudMessaging as Wire>::parse);
        reveal_strlit("@type");
        reveal_strlit("encrypt");
        reveal_strlit("token");
        assert("@type"@.len() == 5 && "@type"@[0] == '@');
        assert("encrypt"@.len() == 7);
        assert("token"@.len() == 5 && "token"@[0] == 't');
        self.token.round_trip("token"@);
        self.encrypt.round_trip("encrypt"@);
    }
}

impl Tagged for DeviceTokenFirebaseCloudMessaging {
    open spec fn known(tag: Seq<char>) -> bool {
        tag == "deviceTokenFirebaseCloudMessaging"@
    }

    fn knows(tag: &str) -> (r: bool) {
        same_text(tag, "deviceTokenFirebaseCloudMessaging")
    }

    proof fn tag_known(&self) {
        reveal(<DeviceTokenFirebaseCloudMessaging as Wire>::wire);
        assert(tag_of(self.wire()) == Some("deviceTokenFirebaseCloudMessaging"@));
        assert(Self::known("deviceTokenFirebaseCloudMessaging"@));
    }
}

/// A token for Apple Push Notification service
#[derive(Debug, Clone, PartialEq)]
pub struct DeviceTokenApplePush {
    /// Device token; may be empty to de-register a device
    pub device_token: String,
    /// True, if App Sandbox is enabled
    pub is_app_sandbox: bool,
}

impl Wire for DeviceTokenApplePush {
    #[verifier::opaque]
    open spec fn wire(&self) -> Doc {
        tagged(
            Map::empty()
                .insert("deviceToken"@, self.device_token.wire())
                .insert("isAppSandbox"@, self.is_app_sandbox.wire()),
            "deviceTokenApplePush"@,
        )
    }

    #[verifier::opaque]
    open spec fn parse(d: Doc, at: Seq<char>) -> Result<Doc, Fault> {
        match d {
            Doc::Object(m) => {
                let device_token = field::<String>(m, "deviceToken"@);
                let is_app_sandbox = field::<bool>(m, "isAppSandbox"@);
                if device_token is Err {
                    device_token
                } else if is_app_sandbox is Err {
                    is_app_sandbox
                } else {
                    Ok(
                        tagged(
                            Map::empty()
                                .insert("deviceToken"@, device_token->Ok_0)
                                .insert("isAppSandbox"@, is_app_sandbox->Ok_0),
                            "deviceTokenApplePush"@,
                        ),
                    )
                }
            },
            _ => Err(Fault::TypeMismatch(at)),
        }
    }

    fn encode(&self) -> (j: Json) {
        proof {
            reveal(<DeviceTokenApplePush as Wire>::wire);
        }
        let mut members: Vec<Member> = Vec::new();
        put(&mut members, "deviceToken", self.device_token.encode());
        put(&mut members, "isAppSandbox", self.is_app_sandbox.encode());
        seal(members, "deviceTokenApplePush")
    }

    fn decode(j: &Json, at: &str) -> (r: Result<Self, DecodeError>) {
        proof {
            reveal(<DeviceTokenApplePush as Wire>::wire);
            reveal(<DeviceTokenApplePush as Wire>::parse);
        }
        let members = members_of(j, at)?;
        let device_token = read_field::<String>(members, "deviceToken")?;
        let is_app_sandbox = read_field::<bool>(members, "isAppSandbox")?;
        Ok(DeviceTokenApplePush { device_token, is_app_sandbox })
    }

    proof fn round_trip(&self, at: Seq<char>) {
        reveal(<DeviceTokenApplePush as Wire>::wire);
        reveal(<DeviceTokenApplePush as Wire>::parse);
        reveal_strlit("@type");
        reveal_strlit("deviceToken");
        reveal_strlit("isAppSandbox");
        assert("@type"@.len() == 5);
        assert("deviceToken"@.len() == 11);
        assert("isAppSandbox"@.len() == 12);
        self.device_token.round_trip("deviceToken"@);
        self.is_app_sandbox.round_trip("isAppSandbox"@);
    }
}

impl Tagged for DeviceTokenApplePush {
    open spec fn known(tag: Seq<char>) -> bool {
        tag == "deviceTokenApplePush"@
    }

    fn knows(tag: &str) -> (r: bool) {
        same_text(tag, "deviceTokenApplePush")
    }

    proof fn tag_known(&self) {
        reveal(<DeviceTokenApplePush as Wire>::wire);
        assert(tag_of(self.wire()) == Some("deviceTokenApplePush"@));
        assert(Self::known("deviceTokenApplePush"@));
    }
}

/// A token for Apple Push Notification service VoIP notifications
#[derive(Debug, Clone, PartialEq)]
pub struct DeviceTokenApplePushVoIP {
    /// Device token; may be empty to de-register a device
    pub device_token: String,
    /// True, if App Sandbox is enabled
    pub is_app_sandbox: bool,
    /// True, if push notifications should be additionally encrypted
    pub encrypt: bool,
}

impl Wire for DeviceTokenApplePushVoIP {
    #[verifier::opaque]
    open spec fn wire(&self) -> Doc {
        tagged(
            Map::empty()
                .insert("deviceToken"@, self.device_token.wire())
                .insert("isAppSandbox"@, self.is_app_sandbox.wire())
                .insert("encrypt"@, self.encrypt.wire()),
            "deviceTokenApplePushVoIP"@,
        )
    }

    #[verifier::opaque]
    open spec fn parse(d: Doc, at: Seq<char>) -> Result<Doc, Fault> {
        match d {
            Doc::Object(m) => {
                let device_token = field::<String>(m, "deviceToken"@);
                let is_app_sandbox = field::<bool>(m, "isAppSandbox"@);
                let encrypt = field::<bool>(m, "encrypt"@);
                if device_token is Err {
                    device_token
                } else if is_app_sandbox is Err {
                    is_app_sandbox
                } else if encrypt is Err {
                    encrypt
                } else {
                    Ok(
                        tagged(
                            Map::empty()
                                .insert("deviceToken"@, device_token->Ok_0)
                                .insert("isAppSandbox"@, is_app_sandbox->Ok_0)
                                .insert("encrypt"@, encrypt->Ok_0),
                            "deviceTokenApplePushVoIP"@,
                        ),
                    )
                }
            },
            _ => Err(Fault::TypeMismatch(at)),
        }
    }

    fn encode(&self) -> (j: Json) {
        proof {
            reveal(<DeviceTokenApplePushVoIP as Wire>::wire);
        }
        let mut members: Vec<Member> = Vec::new();
        put(&mut members, "deviceToken", self.device_token.encode());
        put(&mut members, "isAppSandbox", self.is_app_sandbox.encode());
        put(&mut members, "encrypt", self.encrypt.encode());
        seal(members, "deviceTokenApplePushVoIP")
    }

    fn decode(j: &Json, at: &str) -> (r: Result<Self, DecodeError>) {
        proof {
            reveal(<DeviceTokenApplePushVoIP as Wire>::wire);
            reveal(<DeviceTokenApplePushVoIP as Wire>::parse);
        }
        let members = members_of(j, at)?;
        let device_token = read_field::<String>(members, "deviceToken")?;
        let is_app_sandbox = read_field::<bool>(members, "isAppSandbox")?;
        let encrypt = read_field::<bool>(members, "encrypt")?;
        Ok(DeviceTokenApplePushVoIP { device_token, is_app_sandbox, encrypt })
    }

    proof fn round_trip(&self, at: Seq<char>) {
        reveal(<DeviceTokenApplePushVoIP as Wire>::wire);
        reveal(<DeviceTokenApplePushVoIP as Wire>::parse);
        reveal_strlit("@type");
        reveal_strlit("deviceToken");
        reveal_strlit("encrypt");
        reveal_strlit("isAppSandbox");
        assert("@type"@.len() == 5);
        assert("deviceToken"@.len() == 11);
        assert("encrypt"@.len() == 7);
        assert("isAppSandbox"@.len() == 12);
        self.device_token.round_trip("deviceToken"@);
        self.is_app_sandbox.round_trip("isAppSandbox"@);
        self.encrypt.round_trip("encrypt"@);
    }
}

impl Tagged for DeviceTokenApplePushVoIP {
    open spec fn known(tag: Seq<char>) -> bool {
        tag == "deviceTokenApplePushVoIP"@
    }

    fn knows(tag: &str) -> (r: bool) {
        same_text(tag, "deviceTokenApplePushVoIP")
    }

    proof fn tag_known(&self) {
        reveal(<DeviceTokenApplePushVoIP as Wire>::wire);
        assert(tag_of(self.wire()) == Some("deviceTokenApplePushVoIP"@));
        assert(Self::known("deviceTokenApplePushVoIP"@));
    }
}

/// A token for Windows Push Notification Services
#[derive(Debug, Clone, PartialEq)]
pub struct DeviceTokenWindowsPush {
    /// The access token that will be used to send notifications; may be empty to de-register a
    /// device
    pub access_token: String,
}

impl Wire for DeviceTokenWindowsPush {
    #[verifier::opaque]
    open spec fn wire(&self) -> Doc {
        tagged(
            Map::empty()
                .insert("accessToken"@, self.access_token.wire()),
            "deviceTokenWindowsPush"@,
        )
    }

    #[verifier::opaque]
    open spec fn parse(d: Doc, at: Seq<char>) -> Result<Doc, Fault> {
        match d {
            Doc::Object(m) => {
                let access_token = field::<String>(m, "accessToken"@);
                if access_token is Err {
                    access_token
                } else {
                    Ok(
                        tagged(
                            Map::empty()
                                .insert("accessToken"@, access_token->Ok_0),
                            "deviceTokenWindowsPush"@,
                        ),
                    )
                }
            },
            _ => Err(Fault::TypeMismatch(at)),
        }
    }

    fn encode(&self) -> (j: Json) {
        proof {
            reveal(<DeviceTokenWindowsPush as Wire>::wire);
        }
        let mut members: Vec<Member> = Vec::new();
        put(&mut members, "accessToken", self.access_token.encode());
        seal(members, "deviceTokenWindowsPush")
    }

    fn decode(j: &Json, at: &str) -> (r: Result<Self, DecodeError>) {
        proof {
            reveal(<DeviceTokenWindowsPush as Wire>::wire);
            reveal(<DeviceTokenWindowsPush as Wire>::parse);
        }
        let members = members_of(j, at)?;
        let access_token = read_field::<String>(members, "accessToken")?;
        Ok(DeviceTokenWindowsPush { access_token })
    }

    proof fn round_trip(&self, at: Seq<char>) {
        reveal(<DeviceTokenWindowsPush as Wire>::wire);
        reveal(<DeviceTokenWindowsPush as Wire>::parse);
        reveal_strlit("@type");
        reveal_strlit("accessToken");
        assert("@type"@.len() == 5);
        assert("accessToken"@.len() == 11);
        self.access_token.round_trip("accessToken"@);
    }
}

impl Tagged for DeviceTokenWindowsPush {
    open spec fn known(tag: Seq<char>) -> bool {
        tag == "deviceTokenWindowsPush"@
    }

    fn knows(tag: &str) -> (r: bool) {
        same_text(tag, "deviceTokenWindowsPush")
    }

    proof fn tag_known(&self) {
        reveal(<DeviceTokenWindowsPush as Wire>::wire);
        assert(tag_of(self.wire()) == Some("deviceTokenWindowsPush"@));
        assert(Self::known("deviceTokenWindowsPush"@));
    }
}

/// A token for Microsoft Push Notification Service
#[derive(Debug, Clone, PartialEq)]
pub struct DeviceTokenMicrosoftPush {
    /// Push notification channel URI; may be empty to de-register a device
    pub channel_uri: String,
}

impl Wire for DeviceTokenMicrosoftPush {
    #[verifier::opaque]
    open spec fn wire(&self) -> Doc {
        tagged(
            Map::empty()
                .insert("channelUri"@, self.channel_uri.wire()),
            "deviceTokenMicrosoftPush"@,
        )
    }

    #[verifier::opaque]
    open spec fn parse(d: Doc, at: Seq<char>) -> Result<Doc, Fault> {
        match d {
            Doc::Object(m) => {
                let channel_uri = field::<String>(m, "channelUri"@);
                if channel_uri is Err {
                    channel_uri
                } else {
                    Ok(
                        tagged(
                            Map::empty()
                                .insert("channelUri"@, channel_uri->Ok_0),
                            "deviceTokenMicrosoftPush"@,
                        ),
                    )
                }
            },
            _ => Err(Fault::TypeMismatch(at)),
        }
    }

    fn encode(&self) -> (j: Json) {
        proof {
            reveal(<DeviceTokenMicrosoftPush as Wire>::wire);
        }
        let mut members: Vec<Member> = Vec::new();
        put(&mut members, "channelUri", self.channel_uri.encode());
        seal(members, "deviceTokenMicrosoftPush")
    }

    fn decode(j: &Json, at: &str) -> (r: Result<Self, DecodeError>) {
        proof {
            reveal(<DeviceTokenMicrosoftPush as Wire>::wire);
            reveal(<DeviceTokenMicrosoftPush as Wire>::parse);
        }
        let members = members_of(j, at)?;
        let channel_uri = read_field::<String>(members, "channelUri")?;
        Ok(DeviceTokenMicrosoftPush { channel_uri })
    }

    proof fn round_trip(&self, at: Seq<char>) {
        reveal(<DeviceTokenMicrosoftPush as Wire>::wire);
        reveal(<DeviceTokenMicrosoftPush as Wire>::parse);
        reveal_strlit("@type");
        reveal_strlit("channelUri");
        assert("@type"@.len() == 5);
        assert("channelUri"@.len() == 10);
        self.channel_uri.round_trip("channelUri"@);
    }
}

impl Tagged for DeviceTokenMicrosoftPush {
    open spec fn known(tag: Seq<char>) -> bool {
        tag == "deviceTokenMicrosoftPush"@
    }

    fn knows(tag: &str) -> (r: bool) {
        same_text(tag, "deviceTokenMicrosoftPush")
    }

    proof fn tag_known(&self) {
        reveal(<DeviceTokenMicrosoftPush as Wire>::wire);
        assert(tag_of(self.wire()) == Some("deviceTokenMicrosoftPush"@));
        assert(Self::known("deviceTokenMicrosoftPush"@));
    }
}

/// A token for Microsoft Push Notification Service VoIP channel
#[derive(Debug, Clone, PartialEq)]
pub struct DeviceTokenMicrosoftPushVoIP {
    /// Push notification channel URI; may be empty to de-register a device
    pub channel_uri: String,
}

impl Wire for DeviceTokenMicrosoftPushVoIP {
    #[verifier::opaque]
    open spec fn wire(&self) -> Doc {
        tagged(
            Map::empty()
                .insert("channelUri"@, self.channel_uri.wire()),
            "deviceTokenMicrosoftPushVoIP"@,
        )
    }

    #[verifier::opaque]
    open spec fn parse(d: Doc, at: Seq<char>) -> Result<Doc, Fault> {
        match d {
            Doc::Object(m) => {
                let channel_uri = field::<String>(m, "channelUri"@);
                if channel_uri is Err {
                    channel_uri
                } else {
                    Ok(
                        tagged(
                            Map::empty()
                                .insert("channelUri"@, channel_uri->Ok_0),
                            "deviceTokenMicrosoftPushVoIP"@,
                        ),
                    )
                }
            },
            _ => Err(Fault::TypeMismatch(at)),
        }
    }

    fn encode(&self) -> (j: Json) {
        proof {
            reveal(<DeviceTokenMicrosoftPushVoIP as Wire>::wire);
        }
        let mut members: Vec<Member> = Vec::new();
        put(&mut members, "channelUri", self.channel_uri.encode());
        seal(members, "deviceTokenMicrosoftPushVoIP")
    }

    fn decode(j: &Json, at: &str) -> (r: Result<Self, DecodeError>) {
        proof {
            reveal(<DeviceTokenMicrosoftPushVoIP as Wire>::wire);
            reveal(<DeviceTokenMicrosoftPushVoIP as Wire>::parse);
        }
        let members = members_of(j, at)?;
        let channel_uri = read_field::<String>(members, "channelUri")?;
        Ok(DeviceTokenMicrosoftPushVoIP { channel_uri })
    }

    proof fn round_trip(&self, at: Seq<char>) {
        reveal(<DeviceTokenMicrosoftPushVoIP as Wire>::wire);
        reveal(<DeviceTokenMicrosoftPushVoIP as Wire>::parse);
        reveal_strlit("@type");
        reveal_strlit("channelUri");
        assert("@type"@.len() == 5);
        assert("channelUri"@.len() == 10);
        self.channel_uri.round_trip("channelUri"@);
    }
}

impl Tagged for DeviceTokenMicrosoftPushVoIP {
    open spec fn known(tag: Seq<char>) -> bool {
        tag == "deviceTokenMicrosoftPushVoIP"@
    }

    fn knows(tag: &str) -> (r: bool) {
        same_text(tag, "deviceTokenMicrosoftPushVoIP")
    }

    proof fn tag_known(&self) {
        reveal(<DeviceTokenMicrosoftPushVoIP as Wire>::wire);
        assert(tag_of(self.wire()) == Some("deviceTokenMicrosoftPushVoIP"@));
        assert(Self::known("deviceTokenMicrosoftPushVoIP"@));
    }
}

/// A token for web Push API
#[derive(Debug, Clone, PartialEq)]
pub struct DeviceTokenWebPush {
    /// Absolute URL exposed by the push service where the application server can send push
    /// messages; may be empty to de-register a device
    pub endpoint: String,
    /// Base64url-encoded P-256 elliptic curve Diffie-Hellman public key
    pub p256dh_base64url: String,
    /// Base64url-encoded authentication secret
    pub auth_base64url: String,
}

impl Wire for DeviceTokenWebPush {
    #[verifier::opaque]
    open spec fn wire(&self) -> Doc {
        tagged(
            Map::empty()
                .insert("endpoint"@, self.endpoint.wire())
                .insert("p256dhBase64url"@, self.p256dh_base64url.wire())
                .insert("authBase64url"@, self.auth_base64url.wire()),
            "deviceTokenWebPush"@,
        )
    }

    #[verifier::opaque]
    open spec fn parse(d: Doc, at: Seq<char>) -> Result<Doc, Fault> {
        match d {
            Doc::Object(m) => {
                let endpoint = field::<String>(m, "endpoint"@);
                let p256dh_base64url = field::<String>(m, "p256dhBase64url"@);
                let auth_base64url = field::<String>(m, "authBase64url"@);
                if endpoint is Err {
                    endpoint
                } else if p256dh_base64url is Err {
                    p256dh_base64url
                } else if auth_base64url is Err {
                    auth_base64url
                } else {
                    Ok(
                        tagged(
                            Map::empty()
                                .insert("endpoint"@, endpoint->Ok_0)
                                .insert("p256dhBase64url"@, p256dh_base64url->Ok_0)
                                .insert("authBase64url"@, auth_base64url->Ok_0),
                            "deviceTokenWebPush"@,
                        ),
                    )
                }
            },
            _ => Err(Fault::TypeMismatch(at)),
        }
    }

    fn encode(&self) -> (j: Json) {
        proof {
            reveal(<DeviceTokenWebPush as Wire>::wire);
        }
        let mut members: Vec<Member> = Vec::new();
        put(&mut members, "endpoint", self.endpoint.encode());
        put(&mut members, "p256dhBase64url", self.p256dh_base64url.encode());
        put(&mut members, "authBase64url", self.auth_base64url.encode());
        seal(members, "deviceTokenWebPush")
    }

    fn decode(j: &Json, at: &str) -> (r: Result<Self, DecodeError>) {
        proof {
            reveal(<DeviceTokenWebPush as Wire>::wire);
            reveal(<DeviceTokenWebPush as Wire>::parse);
        }
        let members = members_of(j, at)?;
        let endpoint = read_field::<String>(members, "endpoint")?;
        let p256dh_base64url = read_field::<String>(members, "p256dhBase64url")?;
        let auth_base64url = read_field::<String>(members, "authBase64url")?;
        Ok(DeviceTokenWebPush { endpoint, p256dh_base64url, auth_base64url })
    }

    proof fn round_trip(&self, at: Seq<char>) {
        reveal(<DeviceTokenWebPush as Wire>::wire);
        reveal(<DeviceTokenWebPush as Wire>::parse);
        reveal_strlit("@type");
        reveal_strlit("authBase64url");
        reveal_strlit("endpoint");
        reveal_strlit("p256dhBase64url");
        assert("@type"@.len() == 5);
        assert("authBase64url"@.len() == 13);
        assert("endpoint"@.len() == 8);
        assert("p256dhBase64url"@.len() == 15);
        self.endpoint.round_trip("endpoint"@);
        self.p256dh_base64url.round_trip("p256dhBase64url"@);
        self.auth_base64url.round_trip("authBase64url"@);
    }
}

impl Tagged for DeviceTokenWebPush {
    open spec fn known(tag: Seq<char>) -> bool {
        tag == "deviceTokenWebPush"@
    }

    fn knows(tag: &str) -> (r: bool) {
        same_text(tag, "deviceTokenWebPush")
    }

    proof fn tag_known(&self) {
        reveal(<DeviceTokenWebPush as Wire>::wire);
        assert(tag_of(self.wire()) == Some("deviceTokenWebPush"@));
        assert(Self::known("deviceTokenWebPush"@));
    }
}

/// A token for Simple Push API for Firefox OS
#[derive(Debug, Clone, PartialEq)]
pub struct DeviceTokenSimplePush {
    /// Absolute URL exposed by the push service where the application server can send push
    /// messages; may be empty to de-register a device
    pub endpoint: String,
}

impl Wire for DeviceTokenSimplePush {
    #[verifier::opaque]
    open spec fn wire(&self) -> Doc {
        tagged(
            Map::empty()
                .insert("endpoint"@, self.endpoint.wire()),
            "deviceTokenSimplePush"@,
        )
    }

    #[verifier::opaque]
    open spec fn parse(d: Doc, at: Seq<char>) -> Result<Doc, Fault> {
        match d {
            Doc::Object(m) => {
                let endpoint = field::<String>(m, "endpoint"@);
                if endpoint is Err {
                    endpoint
                } else {
                    Ok(
                        tagged(
                            Map::empty()
                                .insert("endpoint"@, endpoint->Ok_0),
                            "deviceTokenSimplePush"@,
                        ),
                    )
                }
            },
            _ => Err(Fault::TypeMismatch(at)),
        }
    }

    fn encode(&self) -> (j: Json) {
        proof {
            reveal(<DeviceTokenSimplePush as Wire>::wire);
        }
        let mut members: Vec<Member> = Vec::new();
        put(&mut members, "endpoint", self.endpoint.encode());
        seal(members, "deviceTokenSimplePush")
    }

    fn decode(j: &Json, at: &str) -> (r: Result<Self, DecodeError>) {
        proof {
            reveal(<DeviceTokenSimplePush as Wire>::wire);
            reveal(<DeviceTokenSimplePush as Wire>::parse);
        }
        let members = members_of(j, at)?;
        let endpoint = read_field::<String>(members, "endpoint")?;
        Ok(DeviceTokenSimplePush { endpoint })
    }

    proof fn round_trip(&self, at: Seq<char>) {
        reveal(<DeviceTokenSimplePush as Wire>::wire);
        reveal(<DeviceTokenSimplePush as Wire>::parse);
        reveal_strlit("@type");
        reveal_strlit("endpoint");
        assert("@type"@.len() == 5);
        assert("endpoint"@.len() == 8);
        self.endpoint.round_trip("endpoint"@);
    }
}

impl Tagged for DeviceTokenSimplePush {
    open spec fn known(tag: Seq<char>) -> bool {
        tag == "deviceTokenSimplePush"@
    }

    fn knows(tag: &str) -> (r: bool) {
        same_text(tag, "deviceTokenSimplePush")
    }

    proof fn tag_known(&self) {
        reveal(<DeviceTokenSimplePush as Wire>::wire);
        assert(tag_of(self.wire()) == Some("deviceTokenSimplePush"@));
        assert(Self::known("deviceTokenSimplePush"@));
    }
}

/// A token for Ubuntu Push Client service
#[derive(Debug, Clone, PartialEq)]
pub struct DeviceTokenUbuntuPush {
    /// Token; may be empty to de-register a device
    pub token: String,
}

impl Wire for DeviceTokenUbuntuPush {
    #[verifier::opaque]
    open spec fn wire(&self) -> Doc {
        tagged(
            Map::empty()
                .insert("token"@, self.token.wire()),
            "deviceTokenUbuntuPush"@,
        )
    }

    #[verifier::opaque]
    open spec fn parse(d: Doc, at: Seq<char>) -> Result<Doc, Fault> {
        match d {
            Doc::Object(m) => {
                let token = field::<String>(m, "token"@);
                if token is Err {
                    token
                } else {
                    Ok(
                        tagged(
                            Map::empty()
                                .insert("token"@, token->Ok_0),
                            "deviceTokenUbuntuPush"@,
                        ),
                    )
                }
            },
            _ => Err(Fault::TypeMismatch(at)),
        }
    }

    fn encode(&self) -> (j: Json) {
        proof {
            reveal(<DeviceTokenUbuntuPush as Wire>::wire);
        }
        let mut members: Vec<Member> = Vec::new();
        put(&mut members, "token", self.token.encode());
        seal(members, "deviceTokenUbuntuPush")
    }

    fn decode(j: &Json, at: &str) -> (r: Result<Self, DecodeError>) {
        proof {
            reveal(<DeviceTokenUbuntuPush as Wire>::wire);
            reveal(<DeviceTokenUbuntuPush as Wire>::parse);
        }
        let members = members_of(j, at)?;
        let token = read_field::<String>(members, "token")?;
        Ok(DeviceTokenUbuntuPush { token })
    }

    proof fn round_trip(&self, at: Seq<char>) {
        reveal(<DeviceTokenUbuntuPush as Wire>::wire);
        reveal(<DeviceTokenUbuntuPush as Wire>::parse);
        reveal_strlit("@type");
        reveal_strlit("token");
        assert("@type"@.len() == 5 && "@type"@[0] == '@');
        assert("token"@.len() == 5 && "token"@[0] == 't');
        self.token.round_trip("token"@);
    }
}

impl Tagged for DeviceTokenUbuntuPush {
    open spec fn known(tag: Seq<char>) -> bool {
        tag == "deviceTokenUbuntuPush"@
    }

    fn knows(tag: &str) -> (r: bool) {
        same_text(tag, "deviceTokenUbuntuPush")
    }

    proof fn tag_known(&self) {
        reveal(<DeviceTokenUbuntuPush as Wire>::wire);
        assert(tag_of(self.wire()) == Some("deviceTokenUbuntuPush"@));
        assert(Self::known("deviceTokenUbuntuPush"@));
    }
}

/// A token for BlackBerry Push Service
#[derive(Debug, Clone, PartialEq)]
pub struct DeviceTokenBlackBerryPush {
    /// Token; may be empty to de-register a device
    pub token: String,
}

impl Wire for DeviceTokenBlackBerryPush {
    #[verifier::opaque]
    open spec fn wire(&self) -> Doc {
        tagged(
            Map::empty()
                .insert("token"@, self.token.wire()),
            "deviceTokenBlackBerryPush"@,
        )
    }

    #[verifier::opaque]
    open spec fn parse(d: Doc, at: Seq<char>) -> Result<Doc, Fault> {
        match d {
            Doc::Object(m) => {
                let token = field::<String>(m, "token"@);
                if token is Err {
                    token
                } else {
                    Ok(
                        tagged(
                            Map::empty()
                                .insert("token"@, token->Ok_0),
                            "deviceTokenBlackBerryPush"@,
                        ),
                    )
                }
            },
            _ => Err(Fault::TypeMismatch(at)),
        }
    }

    fn encode(&self) -> (j: Json) {
        proof {
            reveal(<DeviceTokenBlackBerryPush as Wire>::wire);
        }
        let mut members: Vec<Member> = Vec::new();
        put(&mut members, "token", self.token.encode());
        seal(members, "deviceTokenBlackBerryPush")
    }

    fn decode(j: &Json, at: &str) -> (r: Result<Self, DecodeError>) {
        proof {
            reveal(<DeviceTokenBlackBerryPush as Wire>::wire);
            reveal(<DeviceTokenBlackBerryPush as Wire>::parse);
        }
        let members = members_of(j, at)?;
        let token = read_field::<String>(members, "token")?;
        Ok(DeviceTokenBlackBerryPush { token })
    }

    proof fn round_trip(&self, at: Seq<char>) {
        reveal(<DeviceTokenBlackBerryPush as Wire>::wire);
        reveal(<DeviceTokenBlackBerryPush as Wire>::parse);
        reveal_strlit("@type");
        reveal_strlit("token");
        assert("@type"@.len() == 5 && "@type"@[0] == '@');
        assert("token"@.len() == 5 && "token"@[0] == 't');
        self.token.round_trip("token"@);
    }
}

impl Tagged for DeviceTokenBlackBerryPush {
    open spec fn known(tag: Seq<char>) -> bool {
        tag == "deviceTokenBlackBerryPush"@
    }

    fn knows(tag: &str) -> (r: bool) {
        same_text(tag, "deviceTokenBlackBerryPush")
    }

    proof fn tag_known(&self) {
        reveal(<DeviceTokenBlackBerryPush as Wire>::wire);
        assert(tag_of(self.wire()) == Some("deviceTokenBlackBerryPush"@));
        assert(Self::known("deviceTokenBlackBerryPush"@));
    }
}

/// A token for Tizen Push Service
#[derive(Debug, Clone, PartialEq)]
pub struct DeviceTokenTizenPush {
    /// Push service registration identifier; may be empty to de-register a device
    pub reg_id: String,
}

impl Wire for DeviceTokenTizenPush {
    #[verifier::opaque]
    open spec fn wire(&self) -> Doc {
        tagged(
            Map::empty()
                .insert("regId"@, self.reg_id.wire()),
            "deviceTokenTizenPush"@,
        )
    }

    #[verifier::opaque]
    open spec fn parse(d: Doc, at: Seq<char>) -> Result<Doc, Fault> {
        match d {
            Doc::Object(m) => {
                let reg_id = field::<String>(m, "regId"@);
                if reg_id is Err {
                    reg_id
                } else {
                    Ok(
                        tagged(
                            Map::empty()
                                .insert("regId"@, reg_id->Ok_0),
                            "deviceTokenTizenPush"@,
                        ),
                    )
                }
            },
            _ => Err(Fault::TypeMismatch(at)),
        }
    }

    fn encode(&self) -> (j: Json) {
        proof {
            reveal(<DeviceTokenTizenPush as Wire>::wire);
        }
        let mut members: Vec<Member> = Vec::new();
        put(&mut members, "regId", self.reg_id.encode());
        seal(members, "deviceTokenTizenPush")
    }

    fn decode(j: &Json, at: &str) -> (r: Result<Self, DecodeError>) {
        proof {
            reveal(<DeviceTokenTizenPush as Wire>::wire);
            reveal(<DeviceTokenTizenPush as Wire>::parse);
        }
        let members = members_of(j, at)?;
        let reg_id = read_field::<String>(members, "regId")?;
        Ok(DeviceTokenTizenPush { reg_id })
    }

    proof fn round_trip(&self, at: Seq<char>) {
        reveal(<DeviceTokenTizenPush as Wire>::wire);
        reveal(<DeviceTokenTizenPush as Wire>::parse);
        reveal_strlit("@type");
        reveal_strlit("regId");
        assert("@type"@.len() == 5 && "@type"@[0] == '@');
        assert("regId"@.len() == 5 && "regId"@[0] == 'r');
        self.reg_id.round_trip("regId"@);
    }
}

impl Tagged for DeviceTokenTizenPush {
    open spec fn known(tag: Seq<char>) -> bool {
        tag == "deviceTokenTizenPush"@
    }

    fn knows(tag: &str) -> (r: bool) {
        same_text(tag, "deviceTokenTizenPush")
    }

    proof fn tag_known(&self) {
        reveal(<DeviceTokenTizenPush as Wire>::wire);
        assert(tag_of(self.wire()) == Some("deviceTokenTizenPush"@));
        assert(Self::known("deviceTokenTizenPush"@));
    }
}

/// Represents a data needed to subscribe for push notifications through registerDevice method. To
/// use specific push notification service, you must specify the correct application platform and
/// upload valid server authentication data at https://my.telegram.org
#[derive(Debug, Clone, PartialEq)]
pub enum DeviceToken {
    DeviceTokenFirebaseCloudMessaging(DeviceTokenFirebaseCloudMessaging),
    DeviceTokenApplePush(DeviceTokenApplePush),
    DeviceTokenApplePushVoIP(DeviceTokenApplePushVoIP),
    DeviceTokenWindowsPush(DeviceTokenWindowsPush),
    DeviceTokenMicrosoftPush(DeviceTokenMicrosoftPush),
    DeviceTokenMicrosoftPushVoIP(DeviceTokenMicrosoftPushVoIP),
    DeviceTokenWebPush(DeviceTokenWebPush),
    DeviceTokenSimplePush(DeviceTokenSimplePush),
    DeviceTokenUbuntuPush(DeviceTokenUbuntuPush),
    DeviceTokenBlackBerryPush(DeviceTokenBlackBerryPush),
    DeviceTokenTizenPush(DeviceTokenTizenPush),
}

impl Wire for DeviceToken {
    #[verifier::opaque]
    open spec fn wire(&self) -> Doc {
        match self {
            Self::DeviceTokenFirebaseCloudMessaging(p) => p.wire(),
            Self::DeviceTokenApplePush(p) => p.wire(),
            Self::DeviceTokenApplePushVoIP(p) => p.wire(),
            Self::DeviceTokenWindowsPush(p) => p.wire(),
            Self::DeviceTokenMicrosoftPush(p) => p.wire(),
            Self::DeviceTokenMicrosoftPushVoIP(p) => p.wire(),
            Self::DeviceTokenWebPush(p) => p.wire(),
            Self::DeviceTokenSimplePush(p) => p.wire(),
            Self::DeviceTokenUbuntuPush(p) => p.wire(),
            Self::DeviceTokenBlackBerryPush(p) => p.wire(),
            Self::DeviceTokenTizenPush(p) => p.wire(),
        }
    }

    #[verifier::opaque]
    open spec fn parse(d: Doc, at: Seq<char>) -> Result<Doc, Fault> {
        match d {
            Doc::Object(_) => match tag_of(d) {
                Some(t) => if t == "deviceTokenFirebaseCloudMessaging"@ {
                    DeviceTokenFirebaseCloudMessaging::parse(d, at)
                } else if t == "deviceTokenApplePush"@ {
                    DeviceTokenApplePush::parse(d, at)
                } else if t == "deviceTokenApplePushVoIP"@ {
                    DeviceTokenApplePushVoIP::parse(d, at)
                } else if t == "deviceTokenWindowsPush"@ {
                    DeviceTokenWindowsPush::parse(d, at)
                } else if t == "deviceTokenMicrosoftPush"@ {
                    DeviceTokenMicrosoftPush::parse(d, at)
                } else if t == "deviceTokenMicrosoftPushVoIP"@ {
                    DeviceTokenMicrosoftPushVoIP::parse(d, at)
                } else if t == "deviceTokenWebPush"@ {
                    DeviceTokenWebPush::parse(d, at)
                } else if t == "deviceTokenSimplePush"@ {
                    DeviceTokenSimplePush::parse(d, at)
                } else if t == "deviceTokenUbuntuPush"@ {
                    DeviceTokenUbuntuPush::parse(d, at)
                } else if t == "deviceTokenBlackBerryPush"@ {
                    DeviceTokenBlackBerryPush::parse(d, at)
                } else if t == "deviceTokenTizenPush"@ {
                    DeviceTokenTizenPush::parse(d, at)
                } else {
                    Err(Fault::UnknownVariant(t))
                },
                None => Err(Fault::MissingDiscriminator),
            },
            _ => Err(Fault::TypeMismatch(at)),
        }
    }

    fn encode(&self) -> (j: Json) {
        proof {
            reveal(<DeviceToken as Wire>::wire);
        }
        match self {
            Self::DeviceTokenFirebaseCloudMessaging(p) => p.encode(),
            Self::DeviceTokenApplePush(p) => p.encode(),
            Self::DeviceTokenApplePushVoIP(p) => p.encode(),
            Self::DeviceTokenWindowsPush(p) => p.encode(),
            Self::DeviceTokenMicrosoftPush(p) => p.encode(),
            Self::DeviceTokenMicrosoftPushVoIP(p) => p.encode(),
            Self::DeviceTokenWebPush(p) => p.encode(),
            Self::DeviceTokenSimplePush(p) => p.encode(),
            Self::DeviceTokenUbuntuPush(p) => p.encode(),
            Self::DeviceTokenBlackBerryPush(p) => p.encode(),
            Self::DeviceTokenTizenPush(p) => p.encode(),
        }
    }

    fn decode(j: &Json, at: &str) -> (r: Result<Self, DecodeError>) {
        proof {
            reveal(<DeviceToken as Wire>::wire);
            reveal(<DeviceToken as Wire>::parse);
        }
        let members = members_of(j, at)?;
        let tag = discriminator(members)?;
        if same_text(tag, "deviceTokenFirebaseCloudMessaging") {
            Ok(
                Self::DeviceTokenFirebaseCloudMessaging(
                    DeviceTokenFirebaseCloudMessaging::decode(j, at)?,
                ),
            )
        } else if same_text(tag, "deviceTokenApplePush") {
            Ok(Self::DeviceTokenApplePush(DeviceTokenApplePush::decode(j, at)?))
        } else if same_text(tag, "deviceTokenApplePushVoIP") {
            Ok(Self::DeviceTokenApplePushVoIP(DeviceTokenApplePushVoIP::decode(j, at)?))
        } else if same_text(tag, "deviceTokenWindowsPush") {
            Ok(Self::DeviceTokenWindowsPush(DeviceTokenWindowsPush::decode(j, at)?))
        } else if same_text(tag, "deviceTokenMicrosoftPush") {
            Ok(Self::DeviceTokenMicrosoftPush(DeviceTokenMicrosoftPush::decode(j, at)?))
        } else if same_text(tag, "deviceTokenMicrosoftPushVoIP") {
            Ok(Self::DeviceTokenMicrosoftPushVoIP(DeviceTokenMicrosoftPushVoIP::decode(j, at)?))
        } else if same_text(tag, "deviceTokenWebPush") {
            Ok(Self::DeviceTokenWebPush(DeviceTokenWebPush::decode(j, at)?))
        } else if same_text(tag, "deviceTokenSimplePush") {
            Ok(Self::DeviceTokenSimplePush(DeviceTokenSimplePush::decode(j, at)?))
        } else if same_text(tag, "deviceTokenUbuntuPush") {
            Ok(Self::DeviceTokenUbuntuPush(DeviceTokenUbuntuPush::decode(j, at)?))
        } else if same_text(tag, "deviceTokenBlackBerryPush") {
            Ok(Self::DeviceTokenBlackBerryPush(DeviceTokenBlackBerryPush::decode(j, at)?))
        } else if same_text(tag, "deviceTokenTizenPush") {
            Ok(Self::DeviceTokenTizenPush(DeviceTokenTizenPush::decode(j, at)?))
        } else {
            Err(DecodeError::UnknownVariant(tag.to_owned()))
        }
    }

    proof fn round_trip(&self, at: Seq<char>) {
        reveal(<DeviceToken as Wire>::wire);
        reveal(<DeviceToken as Wire>::parse);
        reveal_strlit("deviceTokenApplePush");
        reveal_strlit("deviceTokenApplePushVoIP");
        reveal_strlit("deviceTokenBlackBerryPush");
        reveal_strlit("deviceTokenFirebaseCloudMessaging");
        reveal_strlit("deviceTokenMicrosoftPush");
        reveal_strlit("deviceTokenMicrosoftPushVoIP");
        reveal_strlit("deviceTokenSimplePush");
        reveal_strlit("deviceTokenTizenPush");
        reveal_strlit("deviceTokenUbuntuPush");
        reveal_strlit("deviceTokenWebPush");
        reveal_strlit("deviceTokenWindowsPush");
        assert("deviceTokenApplePush"@.len() == 20 && "deviceTokenApplePush"@[11] == 'A');
        assert("deviceTokenApplePushVoIP"@.len() == 24 && "deviceTokenApplePushVoIP"@[11] == 'A');
        assert("deviceTokenBlackBerryPush"@.len() == 25);
        assert("deviceTokenFirebaseCloudMessaging"@.len() == 33);
        assert("deviceTokenMicrosoftPush"@.len() == 24 && "deviceTokenMicrosoftPush"@[11] == 'M');
        assert("deviceTokenMicrosoftPushVoIP"@.len() == 28);
        assert("deviceTokenSimplePush"@.len() == 21 && "deviceTokenSimplePush"@[11] == 'S');
        assert("deviceTokenTizenPush"@.len() == 20 && "deviceTokenTizenPush"@[11] == 'T');
        assert("deviceTokenUbuntuPush"@.len() == 21 && "deviceTokenUbuntuPush"@[11] == 'U');
        assert("deviceTokenWebPush"@.len() == 18);
        assert("deviceTokenWindowsPush"@.len() == 22);
        match self {
            Self::DeviceTokenFirebaseCloudMessaging(p) => {
                p.tag_known();
                p.round_trip(at);
            },
            Self::DeviceTokenApplePush(p) => {
                p.tag_known();
                p.round_trip(at);
            },
            Self::DeviceTokenApplePushVoIP(p) => {
                p.tag_known();
                p.round_trip(at);
            },
            Self::DeviceTokenWindowsPush(p) => {
                p.tag_known();
                p.round_trip(at);
            },
            Self::DeviceTokenMicrosoftPush(p) => {
                p.tag_known();
                p.round_trip(at);
            },
            Self::DeviceTokenMicrosoftPushVoIP(p) => {
                p.tag_known();
                p.round_trip(at);
            },
            Self::DeviceTokenWebPush(p) => {
                p.tag_known();
                p.round_trip(at);
            },
            Self::DeviceTokenSimplePush(p) => {
                p.tag_known();
                p.round_trip(at);
            },
            Self::DeviceTokenUbuntuPush(p) => {
                p.tag_known();
                p.round_trip(at);
            },
            Self::DeviceTokenBlackBerryPush(p) => {
                p.tag_known();
                p.round_trip(at);
            },
            Self::DeviceTokenTizenPush(p) => {
                p.tag_known();
                p.round_trip(at);
            },
        }
    }
}

impl Tagged for DeviceToken {
    open spec fn known(tag: Seq<char>) -> bool {
        ||| tag == "deviceTokenFirebaseCloudMessaging"@
        ||| tag == "deviceTokenApplePush"@
        ||| tag == "deviceTokenApplePushVoIP"@
        ||| tag == "deviceTokenWindowsPush"@
        ||| tag == "deviceTokenMicrosoftPush"@
        ||| tag == "deviceTokenMicrosoftPushVoIP"@
        ||| tag == "deviceTokenWebPush"@
        ||| tag == "deviceTokenSimplePush"@
        ||| tag == "deviceTokenUbuntuPush"@
        ||| tag == "deviceTokenBlackBerryPush"@
        ||| tag == "deviceTokenTizenPush"@
    }

    fn knows(tag: &str) -> (r: bool) {
        same_text(tag, "deviceTokenFirebaseCloudMessaging")
            || same_text(tag, "deviceTokenApplePush")
            || same_text(tag, "deviceTokenApplePushVoIP")
            || same_text(tag, "deviceTokenWindowsPush")
            || same_text(tag, "deviceTokenMicrosoftPush")
            || same_text(tag, "deviceTokenMicrosoftPushVoIP")
            || same_text(tag, "deviceTokenWebPush")
            || same_text(tag, "deviceTokenSimplePush")
            || same_text(tag, "deviceTokenUbuntuPush")
            || same_text(tag, "deviceTokenBlackBerryPush")
            || same_text(tag, "deviceTokenTizenPush")
    }

    proof fn tag_known(&self) {
        reveal(<DeviceToken as Wire>::wire);
        match self {
            Self::DeviceTokenFirebaseCloudMessaging(p) => p.tag_known(),
            Self::DeviceTokenApplePush(p) => p.tag_known(),
            Self::DeviceTokenApplePushVoIP(p) => p.tag_known(),
            Self::DeviceTokenWindowsPush(p) => p.tag_known(),
            Self::DeviceTokenMicrosoftPush(p) => p.tag_known(),
            Self::DeviceTokenMicrosoftPushVoIP(p) => p.tag_known(),
            Self::DeviceTokenWebPush(p) => p.tag_known(),
            Self::DeviceTokenSimplePush(p) => p.tag_known(),
            Self::DeviceTokenUbuntuPush(p) => p.tag_known(),
            Self::DeviceTokenBlackBerryPush(p) => p.tag_known(),
            Self::DeviceTokenTizenPush(p) => p.tag_known(),
        }
    }
}

impl Union for DeviceToken {
    proof fn unknown_rejected(d: Doc, at: Seq<char>) {
        reveal(<DeviceToken as Wire>::parse);
    }

    proof fn untagged_rejected(d: Doc, at: Seq<char>) {
        reveal(<DeviceToken as Wire>::parse);
    }
}

/// Contains a globally unique push receiver identifier, which can be used to identify which account
/// has received a push notification
#[derive(Debug, Clone, PartialEq)]
pub struct PushReceiverId {
    /// The globally unique identifier of push notification subscription
    pub id: i64,
}

impl Wire for PushReceiverId {
    #[verifier::opaque]
    open spec fn wire(&self) -> Doc {
        tagged(
            Map::empty()
                .insert("id"@, wide_doc(self.id)),
            "pushReceiverId"@,
        )
    }

    #[verifier::opaque]
    open spec fn parse(d: Doc, at: Seq<char>) -> Result<Doc, Fault> {
        match d {
            Doc::Object(m) => {
                let id = wide_field(m, "id"@);
                if id is Err {
                    id
                } else {
                    Ok(
                        tagged(
                            Map::empty()
                                .insert("id"@, id->Ok_0),
                            "pushReceiverId"@,
                        ),
                    )
                }
            },
            _ => Err(Fault::TypeMismatch(at)),
        }
    }

    fn encode(&self) -> (j: Json) {
        proof {
            reveal(<PushReceiverId as Wire>::wire);
        }
        let mut members: Vec<Member> = Vec::new();
        put(&mut members, "id", encode_wide(self.id));
        seal(members, "pushReceiverId")
    }

    fn decode(j: &Json, at: &str) -> (r: Result<Self, DecodeError>) {
        proof {
            reveal(<PushReceiverId as Wire>::wire);
            reveal(<PushReceiverId as Wire>::parse);
        }
        let members = members_of(j, at)?;
        let id = read_wide(members, "id")?;
        Ok(PushReceiverId { id })
    }

    proof fn round_trip(&self, at: Seq<char>) {
        reveal(<PushReceiverId as Wire>::wire);
        reveal(<PushReceiverId as Wire>::parse);
        reveal_strlit("@type");
        reveal_strlit("id");
        assert("@type"@.len() == 5);
        assert("id"@.len() == 2);
        lemma_wide_round_trip(self.id, "id"@);
    }
}

impl Tagged for PushReceiverId {
    open spec fn known(tag: Seq<char>) -> bool {
        tag == "pushReceiverId"@
    }

    fn knows(tag: &str) -> (r: bool) {
        same_text(tag, "pushReceiverId")
    }

    proof fn tag_known(&self) {
        reveal(<PushReceiverId as Wire>::wire);
        assert(tag_of(self.wire()) == Some("pushReceiverId"@));
        assert(Self::known("pushReceiverId"@));
    }
}

/// Describes a solid fill of a background
#[derive(Debug, Clone, PartialEq)]
pub struct BackgroundFillSolid {
    /// A color of the background in the RGB24 format
    pub color: i32,
}

impl Wire for BackgroundFillSolid {
    #[verifier::opaque]
    open spec fn wire(&self) -> Doc {
        tagged(
            Map::empty()
                .insert("color"@, self.color.wire()),
            "backgroundFillSolid"@,
        )
    }

    #[verifier::opaque]
    open spec fn parse(d: Doc, at: Seq<char>) -> Result<Doc, Fault> {
        match d {
            Doc::Object(m) => {
                let color = field::<i32>(m, "color"@);
                if color is Err {
                    color
                } else {
                    Ok(
                        tagged(
                            Map::empty()
                                .insert("color"@, color->Ok_0),
                            "backgroundFillSolid"@,
                        ),
                    )
                }
            },
            _ => Err(Fault::TypeMismatch(at)),
        }
    }

    fn encode(&self) -> (j: Json) {
        proof {
            reveal(<BackgroundFillSolid as Wire>::wire);
        }
        let mut members: Vec<Member> = Vec::new();
        put(&mut members, "color", self.color.encode());
        seal(members, "backgroundFillSolid")
    }

    fn decode(j: &Json, at: &str) -> (r: Result<Self, DecodeError>) {
        proof {
            reveal(<BackgroundFillSolid as Wire>::wire);
            reveal(<BackgroundFillSolid as Wire>::parse);
        }
        let members = members_of(j, at)?;
        let color = read_field::<i32>(members, "color")?;
        Ok(BackgroundFillSolid { color })
    }

    proof fn round_trip(&self, at: Seq<char>) {
        reveal(<BackgroundFillSolid as Wire>::wire);
        reveal(<BackgroundFillSolid as Wire>::parse);
        reveal_strlit("@type");
        reveal_strlit("color");
        assert("@type"@.len() == 5 && "@type"@[0] == '@');
        assert("color"@.len() == 5 && "color"@[0] == 'c');
        self.color.round_trip("color"@);
    }
}

impl Tagged for BackgroundFillSolid {
    open spec fn known(tag: Seq<char>) -> bool {
        tag == "backgroundFillSolid"@
    }

    fn knows(tag: &str) -> (r: bool) {
        same_text(tag, "backgroundFillSolid")
    }

    proof fn tag_known(&self) {
        reveal(<BackgroundFillSolid as Wire>::wire);
        assert(tag_of(self.wire()) == Some("backgroundFillSolid"@));
        assert(Self::known("backgroundFillSolid"@));
    }
}

/// Describes a gradient fill of a background
#[derive(Debug, Clone, PartialEq)]
pub struct BackgroundFillGradient {
    /// A top color of the background in the RGB24 format
    pub top_color: i32,
    /// A bottom color of the background in the RGB24 format
    pub bottom_color: i32,
    /// Clockwise rotation angle of the gradient, in degrees; 0-359. Should be always divisible by
    /// 45
    pub rotation_angle: i32,
}

impl Wire for BackgroundFillGradient {
    #[verifier::opaque]
    open spec fn wire(&self) -> Doc {
        tagged(
            Map::empty()
                .insert("topColor"@, self.top_color.wire())
                .insert("bottomColor"@, self.bottom_color.wire())
                .insert("rotationAngle"@, self.rotation_angle.wire()),
            "backgroundFillGradient"@,
        )
    }

    #[verifier::opaque]
    open spec fn parse(d: Doc, at: Seq<char>) -> Result<Doc, Fault> {
        match d {
            Doc::Object(m) => {
                let top_color = field::<i32>(m, "topColor"@);
                let bottom_color = field::<i32>(m, "bottomColor"@);
                let rotation_angle = field::<i32>(m, "rotationAngle"@);
                if top_color is Err {
                    top_color
                } else if bottom_color is Err {
                    bottom_color
                } else if rotation_angle is Err {
                    rotation_angle
                } else {
                    Ok(
                        tagged(
                            Map::empty()
                                .insert("topColor"@, top_color->Ok_0)
                                .insert("bottomColor"@, bottom_color->Ok_0)
                                .insert("rotationAngle"@, rotation_angle->Ok_0),
                            "backgroundFillGradient"@,
                        ),
                    )
                }
            },
            _ => Err(Fault::TypeMismatch(at)),
        }
    }

    fn encode(&self) -> (j: Json) {
        proof {
            reveal(<BackgroundFillGradient as Wire>::wire);
        }
        let mut members: Vec<Member> = Vec::new();
        put(&mut members, "topColor", self.top_color.encode());
        put(&mut members, "bottomColor", self.bottom_color.encode());
        put(&mut members, "rotationAngle", self.rotation_angle.encode());
        seal(members, "backgroundFillGradient")
    }

    fn decode(j: &Json, at: &str) -> (r: Result<Self, DecodeError>) {
        proof {
            reveal(<BackgroundFillGradient as Wire>::wire);
            reveal(<BackgroundFillGradient as Wire>::parse);
        }
        let members = members_of(j, at)?;
        let top_color = read_field::<i32>(members, "topColor")?;
        let bottom_color = read_field::<i32>(members, "bottomColor")?;
        let rotation_angle = read_field::<i32>(members, "rotationAngle")?;
        Ok(BackgroundFillGradient { top_color, bottom_color, rotation_angle })
    }

    proof fn round_trip(&self, at: Seq<char>) {
        reveal(<BackgroundFillGradient as Wire>::wire);
        reveal(<BackgroundFillGradient as Wire>::parse);
        reveal_strlit("@type");
        reveal_strlit("bottomColor");
        reveal_strlit("rotationAngle");
        reveal_strlit("topColor");
        assert("@type"@.len() == 5);
        assert("bottomColor"@.len() == 11);
        assert("rotationAngle"@.len() == 13);
        assert("topColor"@.len() == 8);
        self.top_color.round_trip("topColor"@);
        self.bottom_color.round_trip("bottomColor"@);
        self.rotation_angle.round_trip("rotationAngle"@);
    }
}

impl Tagged for BackgroundFillGradient {
    open spec fn known(tag: Seq<char>) -> bool {
        tag == "backgroundFillGradient"@
    }

    fn knows(tag: &str) -> (r: bool) {
        same_text(tag, "backgroundFillGradient")
    }

    proof fn tag_known(&self) {
        reveal(<BackgroundFillGradient as Wire>::wire);
        assert(tag_of(self.wire()) == Some("backgroundFillGradient"@));
        assert(Self::known("backgroundFillGradient"@));
    }
}

/// Describes a fill of a background
#[derive(Debug, Clone, PartialEq)]
pub enum BackgroundFill {
    BackgroundFillSolid(BackgroundFillSolid),
    BackgroundFillGradient(BackgroundFillGradient),
}

impl Wire for BackgroundFill {
    #[verifier::opaque]
    open spec fn wire(&self) -> Doc {
        match self {
            Self::BackgroundFillSolid(p) => p.wire(),
            Self::BackgroundFillGradient(p) => p.wire(),
        }
    }

    #[verifier::opaque]
    open spec fn parse(d: Doc, at: Seq<char>) -> Result<Doc, Fault> {
        match d {
            Doc::Object(_) => match tag_of(d) {
                Some(t) => if t == "backgroundFillSolid"@ {
                    BackgroundFillSolid::parse(d, at)
                } else if t == "backgroundFillGradient"@ {
                    BackgroundFillGradient::parse(d, at)
                } else {
                    Err(Fault::UnknownVariant(t))
                },
                None => Err(Fault::MissingDiscriminator),
            },
            _ => Err(Fault::TypeMismatch(at)),
        }
    }

    fn encode(&self) -> (j: Json) {
        proof {
            reveal(<BackgroundFill as Wire>::wire);
        }
        match self {
            Self::BackgroundFillSolid(p) => p.encode(),
            Self::BackgroundFillGradient(p) => p.encode(),
        }
    }

    fn decode(j: &Json, at: &str) -> (r: Result<Self, DecodeError>) {
        proof {
            reveal(<BackgroundFill as Wire>::wire);
            reveal(<BackgroundFill as Wire>::parse);
        }
        let members = members_of(j, at)?;
        let tag = discriminator(members)?;
        if same_text(tag, "backgroundFillSolid") {
            Ok(Self::BackgroundFillSolid(BackgroundFillSolid::decode(j, at)?))
        } else if same_text(tag, "backgroundFillGradient") {
            Ok(Self::BackgroundFillGradient(BackgroundFillGradient::decode(j, at)?))
        } else {
            Err(DecodeError::UnknownVariant(tag.to_owned()))
        }
    }

    proof fn round_trip(&self, at: Seq<char>) {
        reveal(<BackgroundFill as Wire>::wire);
        reveal(<BackgroundFill as Wire>::parse);
        reveal_strlit("backgroundFillGradient");
        reveal_strlit("backgroundFillSolid");
        assert("backgroundFillGradient"@.len() == 22);
        assert("backgroundFillSolid"@.len() == 19);
        match self {
            Self::BackgroundFillSolid(p) => {
                p.tag_known();
                p.round_trip(at);
            },
            Self::BackgroundFillGradient(p) => {
                p.tag_known();
                p.round_trip(at);
            },
        }
    }
}

impl Tagged for BackgroundFill {
    open spec fn known(tag: Seq<char>) -> bool {
        ||| tag == "backgroundFillSolid"@
        ||| tag == "backgroundFillGradient"@
    }

    fn knows(tag: &str) -> (r: bool) {
        same_text(tag, "backgroundFillSolid")
            || same_text(tag, "backgroundFillGradient")
    }

    proof fn tag_known(&self) {
        reveal(<BackgroundFill as Wire>::wire);
        match self {
            Self::BackgroundFillSolid(p) => p.tag_known(),
            Self::BackgroundFillGradient(p) => p.tag_known(),
        }
    }
}

impl Union for BackgroundFill {
    proof fn unknown_rejected(d: Doc, at: Seq<char>) {
        reveal(<BackgroundFill as Wire>::parse);
    }

    proof fn untagged_rejected(d: Doc, at: Seq<char>) {
        reveal(<BackgroundFill as Wire>::parse);
    }
}

/// A wallpaper in JPEG format
#[derive(Debug, Clone, PartialEq)]
pub struct BackgroundTypeWallpaper {
    /// True, if the wallpaper must be downscaled to fit in 450x450 square and then box-blurred with
    /// radius 12
    pub is_blurred: bool,
    /// True, if the background needs to be slightly moved when device is tilted
    pub is_moving: bool,
}

impl Wire for BackgroundTypeWallpaper {
    #[verifier::opaque]
    open spec fn wire(&self) -> Doc {
        tagged(
            Map::empty()
                .insert("isBlurred"@, self.is_blurred.wire())
                .insert("isMoving"@, self.is_moving.wire()),
            "backgroundTypeWallpaper"@,
        )
    }

    #[verifier::opaque]
    open spec fn parse(d: Doc, at: Seq<char>) -> Result<Doc, Fault> {
        match d {
            Doc::Object(m) => {
                let is_blurred = field::<bool>(m, "isBlurred"@);
                let is_moving = field::<bool>(m, "isMoving"@);
                if is_blurred is Err {
                    is_blurred
                } else if is_moving is Err {
                    is_moving
                } else {
                    Ok(
                        tagged(
                            Map::empty()
                                .insert("isBlurred"@, is_blurred->Ok_0)
                                .insert("isMoving"@, is_moving->Ok_0),
                            "backgroundTypeWallpaper"@,
                        ),
                    )
                }
            },
            _ => Err(Fault::TypeMismatch(at)),
        }
    }

    fn encode(&self) -> (j: Json) {
        proof {
            reveal(<BackgroundTypeWallpaper as Wire>::wire);
        }
        let mut members: Vec<Member> = Vec::new();
        put(&mut members, "isBlurred", self.is_blurred.encode());
        put(&mut members, "isMoving", self.is_moving.encode());
        seal(members, "backgroundTypeWallpaper")
    }

    fn decode(j: &Json, at: &str) -> (r: Result<Self, DecodeError>) {
        proof {
            reveal(<BackgroundTypeWallpaper as Wire>::wire);
            reveal(<BackgroundTypeWallpaper as Wire>::parse);
        }
        let members = members_of(j, at)?;
        let is_blurred = read_field::<bool>(members, "isBlurred")?;
        let is_moving = read_field::<bool>(members, "isMoving")?;
        Ok(BackgroundTypeWallpaper { is_blurred, is_moving })
    }

    proof fn round_trip(&self, at: Seq<char>) {
        reveal(<BackgroundTypeWallpaper as Wire>::wire);
        reveal(<BackgroundTypeWallpaper as Wire>::parse);
        reveal_strlit("@type");
        reveal_strlit("isBlurred");
        reveal_strlit("isMoving");
        assert("@type"@.len() == 5);
        assert("isBlurred"@.len() == 9);
        assert("isMoving"@.len() == 8);
        self.is_blurred.round_trip("isBlurred"@);
        self.is_moving.round_trip("isMoving"@);
    }
}

impl Tagged for BackgroundTypeWallpaper {
    open spec fn known(tag: Seq<char>) -> bool {
        tag == "backgroundTypeWallpaper"@
    }

    fn knows(tag: &str) -> (r: bool) {
        same_text(tag, "backgroundTypeWallpaper")
    }

    proof fn tag_known(&self) {
        reveal(<BackgroundTypeWallpaper as Wire>::wire);
        assert(tag_of(self.wire()) == Some("backgroundTypeWallpaper"@));
        assert(Self::known("backgroundTypeWallpaper"@));
    }
}

/// A PNG or TGV (gzipped subset of SVG with MIME type "application/x-tgwallpattern") pattern to be
/// combined with the background fill chosen by the user
#[derive(Debug, Clone, PartialEq)]
pub struct BackgroundTypePattern {
    /// Description of the background fill
    pub fill: BackgroundFill,
    /// Intensity of the pattern when it is shown above the filled background, 0-100
    pub intensity: i32,
    /// True, if the background needs to be slightly moved when device is tilted
    pub is_moving: bool,
}

impl Wire for BackgroundTypePattern {
    #[verifier::opaque]
    open spec fn wire(&self) -> Doc {
        tagged(
            Map::empty()
                .insert("fill"@, self.fill.wire())
                .insert("intensity"@, self.intensity.wire())
                .insert("isMoving"@, self.is_moving.wire()),
            "backgroundTypePattern"@,
        )
    }

    #[verifier::opaque]
    open spec fn parse(d: Doc, at: Seq<char>) -> Result<Doc, Fault> {
        match d {
            Doc::Object(m) => {
                let fill = field::<BackgroundFill>(m, "fill"@);
                let intensity = field::<i32>(m, "intensity"@);
                let is_moving = field::<bool>(m, "isMoving"@);
                if fill is Err {
                    fill
                } else if intensity is Err {
                    intensity
                } else if is_moving is Err {
                    is_moving
                } else {
                    Ok(
                        tagged(
                            Map::empty()
                                .insert("fill"@, fill->Ok_0)
                                .insert("intensity"@, intensity->Ok_0)
                                .insert("isMoving"@, is_moving->Ok_0),
                            "backgroundTypePattern"@,
                        ),
                    )
                }
            },
            _ => Err(Fault::TypeMismatch(at)),
        }
    }

    fn encode(&self) -> (j: Json) {
        proof {
            reveal(<BackgroundTypePattern as Wire>::wire);
        }
        let mut members: Vec<Member> = Vec::new();
        put(&mut members, "fill", self.fill.encode());
        put(&mut members, "intensity", self.intensity.encode());
        put(&mut members, "isMoving", self.is_moving.encode());
        seal(members, "backgroundTypePattern")
    }

    fn decode(j: &Json, at: &str) -> (r: Result<Self, DecodeError>) {
        proof {
            reveal(<BackgroundTypePattern as Wire>::wire);
            reveal(<BackgroundTypePattern as Wire>::parse);
        }
        let members = members_of(j, at)?;
        let fill = read_field::<BackgroundFill>(members, "fill")?;
        let intensity = read_field::<i32>(members, "intensity")?;
        let is_moving = read_field::<bool>(members, "isMoving")?;
        Ok(BackgroundTypePattern { fill, intensity, is_moving })
    }

    proof fn round_trip(&self, at: Seq<char>) {
        reveal(<BackgroundTypePattern as Wire>::wire);
        reveal(<BackgroundTypePattern as Wire>::parse);
        reveal_strlit("@type");
        reveal_strlit("fill");
        reveal_strlit("intensity");
        reveal_strlit("isMoving");
        assert("@type"@.len() == 5);
        assert("fill"@.len() == 4);
        assert("intensity"@.len() == 9);
        assert("isMoving"@.len() == 8);
        self.fill.round_trip("fill"@);
        self.intensity.round_trip("intensity"@);
        self.is_moving.round_trip("isMoving"@);
    }
}

impl Tagged for BackgroundTypePattern {
    open spec fn known(tag: Seq<char>) -> bool {
        tag == "backgroundTypePattern"@
    }

    fn knows(tag: &str) -> (r: bool) {
        same_text(tag, "backgroundTypePattern")
    }

    proof fn tag_known(&self) {
        reveal(<BackgroundTypePattern as Wire>::wire);
        assert(tag_of(self.wire()) == Some("backgroundTypePattern"@));
        assert(Self::known("backgroundTypePattern"@));
    }
}

/// A filled background
#[derive(Debug, Clone, PartialEq)]
pub struct BackgroundTypeFill {
    /// Description of the background fill
    pub fill: BackgroundFill,
}

impl Wire for BackgroundTypeFill {
    #[verifier::opaque]
    open spec fn wire(&self) -> Doc {
        tagged(
            Map::empty()
                .insert("fill"@, self.fill.wire()),
            "backgroundTypeFill"@,
        )
    }

    #[verifier::opaque]
    open spec fn parse(d: Doc, at: Seq<char>) -> Result<Doc, Fault> {
        match d {
            Doc::Object(m) => {
                let fill = field::<BackgroundFill>(m, "fill"@);
                if fill is Err {
                    fill
                } else {
                    Ok(
                        tagged(
                            Map::empty()
                                .insert("fill"@, fill->Ok_0),
                            "backgroundTypeFill"@,
                        ),
                    )
                }
            },
            _ => Err(Fault::TypeMismatch(at)),
        }
    }

    fn encode(&self) -> (j: Json) {
        proof {
            reveal(<BackgroundTypeFill as Wire>::wire);
        }
        let mut members: Vec<Member> = Vec::new();
        put(&mut members, "fill", self.fill.encode());
        seal(members, "backgroundTypeFill")
    }

    fn decode(j: &Json, at: &str) -> (r: Result<Self, DecodeError>) {
        proof {
            reveal(<BackgroundTypeFill as Wire>::wire);
            reveal(<BackgroundTypeFill as Wire>::parse);
        }
        let members = members_of(j, at)?;
        let fill = read_field::<BackgroundFill>(members, "fill")?;
        Ok(BackgroundTypeFill { fill })
    }

    proof fn round_trip(&self, at: Seq<char>) {
        reveal(<BackgroundTypeFill as Wire>::wire);
        reveal(<BackgroundTypeFill as Wire>::parse);
        reveal_strlit("@type");
        reveal_strlit("fill");
        assert("@type"@.len() == 5);
        assert("fill"@.len() == 4);
        self.fill.round_trip("fill"@);
    }
}

impl Tagged for BackgroundTypeFill {
    open spec fn known(tag: Seq<char>) -> bool {
        tag == "backgroundTypeFill"@
    }

    fn knows(tag: &str) -> (r: bool) {
        same_text(tag, "backgroundTypeFill")
    }

    proof fn tag_known(&self) {
        reveal(<BackgroundTypeFill as Wire>::wire);
        assert(tag_of(self.wire()) == Some("backgroundTypeFill"@));
        assert(Self::known("backgroundTypeFill"@));
    }
}

/// Describes the type of a background
#[derive(Debug, Clone, PartialEq)]
pub enum BackgroundType {
    BackgroundTypeWallpaper(BackgroundTypeWallpaper),
    BackgroundTypePattern(BackgroundTypePattern),
    BackgroundTypeFill(BackgroundTypeFill),
}

impl Wire for BackgroundType {
    #[verifier::opaque]
    open spec fn wire(&self) -> Doc {
        match self {
            Self::BackgroundTypeWallpaper(p) => p.wire(),
            Self::BackgroundTypePattern(p) => p.wire(),
            Self::BackgroundTypeFill(p) => p.wire(),
        }
    }

    #[verifier::opaque]
    open spec fn parse(d: Doc, at: Seq<char>) -> Result<Doc, Fault> {
        match d {
            Doc::Object(_) => match tag_of(d) {
                Some(t) => if t == "backgroundTypeWallpaper"@ {
                    BackgroundTypeWallpaper::parse(d, at)
                } else if t == "backgroundTypePattern"@ {
                    BackgroundTypePattern::parse(d, at)
                } else if t == "backgroundTypeFill"@ {
                    BackgroundTypeFill::parse(d, at)
                } else {
                    Err(Fault::UnknownVariant(t))
                },
                None => Err(Fault::MissingDiscriminator),
            },
            _ => Err(Fault::TypeMismatch(at)),
        }
    }

    fn encode(&self) -> (j: Json) {
        proof {
            reveal(<BackgroundType as Wire>::wire);
        }
        match self {
            Self::BackgroundTypeWallpaper(p) => p.encode(),
            Self::BackgroundTypePattern(p) => p.encode(),
            Self::BackgroundTypeFill(p) => p.encode(),
        }
    }

    fn decode(j: &Json, at: &str) -> (r: Result<Self, DecodeError>) {
        proof {
            reveal(<BackgroundType as Wire>::wire);
            reveal(<BackgroundType as Wire>::parse);
        }
        let members = members_of(j, at)?;
        let tag = discriminator(members)?;
        if same_text(tag, "backgroundTypeWallpaper") {
            Ok(Self::BackgroundTypeWallpaper(BackgroundTypeWallpaper::decode(j, at)?))
        } else if same_text(tag, "backgroundTypePattern") {
            Ok(Self::BackgroundTypePattern(BackgroundTypePattern::decode(j, at)?))
        } else if same_text(tag, "backgroundTypeFill") {
            Ok(Self::BackgroundTypeFill(BackgroundTypeFill::decode(j, at)?))
        } else {
            Err(DecodeError::UnknownVariant(tag.to_owned()))
        }
    }

    proof fn round_trip(&self, at: Seq<char>) {
        reveal(<BackgroundType as Wire>::wire);
        reveal(<BackgroundType as Wire>::parse);
        reveal_strlit("backgroundTypeFill");
        reveal_strlit("backgroundTypePattern");
        reveal_strlit("backgroundTypeWallpaper");
        assert("backgroundTypeFill"@.len() == 18);
        assert("backgroundTypePattern"@.len() == 21);
        assert("backgroundTypeWallpaper"@.len() == 23);
        match self {
            Self::BackgroundTypeWallpaper(p) => {
                p.tag_known();
                p.round_trip(at);
            },
            Self::BackgroundTypePattern(p) => {
                p.tag_known();
                p.round_trip(at);
            },
            Self::BackgroundTypeFill(p) => {
                p.tag_known();
                p.round_trip(at);
            },
        }
    }
}

impl Tagged for BackgroundType {
    open spec fn known(tag: Seq<char>) -> bool {
        ||| tag == "backgroundTypeWallpaper"@
        ||| tag == "backgroundTypePattern"@
        ||| tag == "backgroundTypeFill"@
    }

    fn knows(tag: &str) -> (r: bool) {
        same_text(tag, "backgroundTypeWallpaper")
            || same_text(tag, "backgroundTypePattern")
            || same_text(tag, "backgroundTypeFill")
    }

    proof fn tag_known(&self) {
        reveal(<BackgroundType as Wire>::wire);
        match self {
            Self::BackgroundTypeWallpaper(p) => p.tag_known(),
            Self::BackgroundTypePattern(p) => p.tag_known(),
            Self::BackgroundTypeFill(p) => p.tag_known(),
        }
    }
}

impl Union for BackgroundType {
    proof fn unknown_rejected(d: Doc, at: Seq<char>) {
        reveal(<BackgroundType as Wire>::parse);
    }

    proof fn untagged_rejected(d: Doc, at: Seq<char>) {
        reveal(<BackgroundType as Wire>::parse);
    }
}

/// Describes a chat background
#[derive(Debug, Clone, PartialEq)]
pub struct Background {
    /// Unique background identifier
    pub id: i64,
    /// True, if this is one of default backgrounds
    pub is_default: bool,
    /// True, if the background is dark and is recommended to be used with dark theme
    pub is_dark: bool,
    /// Unique background name
    pub name: String,
    /// Document with the background; may be null. Null only for filled backgrounds
    pub document: Option<Document>,
    /// Type of the background
    pub type_: BackgroundType,
}

impl Wire for Background {
    #[verifier::opaque]
    open spec fn wire(&self) -> Doc {
        tagged(
            Map::empty()
                .insert("id"@, wide_doc(self.id))
                .insert("isDefault"@, self.is_default.wire())
                .insert("isDark"@, self.is_dark.wire())
                .insert("name"@, self.name.wire())
                .insert("document"@, self.document.wire())
                .insert("type"@, self.type_.wire()),
            "background"@,
        )
    }

    #[verifier::opaque]
    open spec fn parse(d: Doc, at: Seq<char>) -> Result<Doc, Fault> {
        match d {
            Doc::Object(m) => {
                let id = wide_field(m, "id"@);
                let is_default = field::<bool>(m, "isDefault"@);
                let is_dark = field::<bool>(m, "isDark"@);
                let name = field::<String>(m, "name"@);
                let document = optional_field::<Document>(m, "document"@);
                let type_ = field::<BackgroundType>(m, "type"@);
                if id is Err {
                    id
                } else if is_default is Err {
                    is_default
                } else if is_dark is Err {
                    is_dark
                } else if name is Err {
                    name
                } else if document is Err {
                    document
                } else if type_ is Err {
                    type_
                } else {
                    Ok(
                        tagged(
                            Map::empty()
                                .insert("id"@, id->Ok_0)
                                .insert("isDefault"@, is_default->Ok_0)
                                .insert("isDark"@, is_dark->Ok_0)
                                .insert("name"@, name->Ok_0)
                                .insert("document"@, document->Ok_0)
                                .insert("type"@, type_->Ok_0),
                            "background"@,
                        ),
                    )
                }
            },
            _ => Err(Fault::TypeMismatch(at)),
        }
    }

    fn encode(&self) -> (j: Json) {
        proof {
            reveal(<Background as Wire>::wire);
        }
        let mut members: Vec<Member> = Vec::new();
        put(&mut members, "id", encode_wide(self.id));
        put(&mut members, "isDefault", self.is_default.encode());
        put(&mut members, "isDark", self.is_dark.encode());
        put(&mut members, "name", self.name.encode());
        put(&mut members, "document", self.document.encode());
        put(&mut members, "type", self.type_.encode());
        seal(members, "background")
    }

    fn decode(j: &Json, at: &str) -> (r: Result<Self, DecodeError>) {
        proof {
            reveal(<Background as Wire>::wire);
            reveal(<Background as Wire>::parse);
        }
        let members = members_of(j, at)?;
        let id = read_wide(members, "id")?;
        let is_default = read_field::<bool>(members, "isDefault")?;
        let is_dark = read_field::<bool>(members, "isDark")?;
        let name = read_field::<String>(members, "name")?;
        let document = read_optional::<Document>(members, "document")?;
        let type_ = read_field::<BackgroundType>(members, "type")?;
        Ok(Background { id, is_default, is_dark, name, document, type_ })
    }

    proof fn round_trip(&self, at: Seq<char>) {
        reveal(<Background as Wire>::wire);
        reveal(<Background as Wire>::parse);
        reveal_strlit("@type");
        reveal_strlit("document");
        reveal_strlit("id");
        reveal_strlit("isDark");
        reveal_strlit("isDefault");
        reveal_strlit("name");
        reveal_strlit("type");
        assert("@type"@.len() == 5);
        assert("document"@.len() == 8);
        assert("id"@.len() == 2);
        assert("isDark"@.len() == 6);
        assert("isDefault"@.len() == 9);
        assert("name"@.len() == 4 && "name"@[0] == 'n');
        assert("type"@.len() == 4 && "type"@[0] == 't');
        lemma_wide_round_trip(self.id, "id"@);
        self.is_default.round_trip("isDefault"@);
        self.is_dark.round_trip("isDark"@);
        self.name.round_trip("name"@);
        self.document.round_trip("document"@);
        self.type_.round_trip("type"@);
    }
}

impl Tagged for Background {
    open spec fn known(tag: Seq<char>) -> bool {
        tag == "background"@
    }

    fn knows(tag: &str) -> (r: bool) {
        same_text(tag, "background")
    }

    proof fn tag_known(&self) {
        reveal(<Background as Wire>::wire);
        assert(tag_of(self.wire()) == Some("background"@));
        assert(Self::known("background"@));
    }
}

/// Contains a list of backgrounds
#[derive(Debug, Clone, PartialEq)]
pub struct Backgrounds {
    /// A list of backgrounds
    pub backgrounds: Vec<Background>,
}

impl Wire for Backgrounds {
    #[verifier::opaque]
    open spec fn wire(&self) -> Doc {
        tagged(
            Map::empty()
                .insert("backgrounds"@, self.backgrounds.wire()),
            "backgrounds"@,
        )
    }

    #[verifier::opaque]
    open spec fn parse(d: Doc, at: Seq<char>) -> Result<Doc, Fault> {
        match d {
            Doc::Object(m) => {
                let backgrounds = field::<Vec<Background>>(m, "backgrounds"@);
                if backgrounds is Err {
                    backgrounds
                } else {
                    Ok(
                        tagged(
                            Map::empty()
                                .insert("backgrounds"@, backgrounds->Ok_0),
                            "backgrounds"@,
                        ),
                    )
                }
            },
            _ => Err(Fault::TypeMismatch(at)),
        }
    }

    fn encode(&self) -> (j: Json) {
        proof {
            reveal(<Backgrounds as Wire>::wire);
        }
        let mut members: Vec<Member> = Vec::new();
        put(&mut members, "backgrounds", self.backgrounds.encode());
        seal(members, "backgrounds")
    }

    fn decode(j: &Json, at: &str) -> (r: Result<Self, DecodeError>) {
        proof {
            reveal(<Backgrounds as Wire>::wire);
            reveal(<Backgrounds as Wire>::parse);
        }
        let members = members_of(j, at)?;
        let backgrounds = read_field::<Vec<Background>>(members, "backgrounds")?;
        Ok(Backgrounds { backgrounds })
    }

    proof fn round_trip(&self, at: Seq<char>) {
        reveal(<Backgrounds as Wire>::wire);
        reveal(<Backgrounds as Wire>::parse);
        reveal_strlit("@type");
        reveal_strlit("backgrounds");
        assert("@type"@.len() == 5);
        assert("backgrounds"@.len() == 11);
        self.backgrounds.round_trip("backgrounds"@);
    }
}

impl Tagged for Backgrounds {
    open spec fn known(tag: Seq<char>) -> bool {
        tag == "backgrounds"@
    }

    fn knows(tag: &str) -> (r: bool) {
        same_text(tag, "backgrounds")
    }

    proof fn tag_known(&self) {
        reveal(<Backgrounds as Wire>::wire);
        assert(tag_of(self.wire()) == Some("backgrounds"@));
        assert(Self::known("backgrounds"@));
    }
}

/// A background from a local file
#[derive(Debug, Clone, PartialEq)]
pub struct InputBackgroundLocal {
    /// Background file to use. Only inputFileLocal and inputFileGenerated are supported. The file
    /// must be in JPEG format for wallpapers and in PNG format for patterns
    pub background: InputFile,
}

impl Wire for InputBackgroundLocal {
    #[verifier::opaque]
    open spec fn wire(&self) -> Doc {
        tagged(
            Map::empty()
                .insert("background"@, self.background.wire()),
            "inputBackgroundLocal"@,
        )
    }

    #[verifier::opaque]
    open spec fn parse(d: Doc, at: Seq<char>) -> Result<Doc, Fault> {
        match d {
            Doc::Object(m) => {
                let background = field::<InputFile>(m, "background"@);
                if background is Err {
                    background
                } else {
                    Ok(
                        tagged(
                            Map::empty()
                                .insert("background"@, background->Ok_0),
                            "inputBackgroundLocal"@,
                        ),
                    )
                }
            },
            _ => Err(Fault::TypeMismatch(at)),
        }
    }

    fn encode(&self) -> (j: Json) {
        proof {
            reveal(<InputBackgroundLocal as Wire>::wire);
        }
        let mut members: Vec<Member> = Vec::new();
        put(&mut members, "background", self.background.encode());
        seal(members, "inputBackgroundLocal")
    }

    fn decode(j: &Json, at: &str) -> (r: Result<Self, DecodeError>) {
        proof {
            reveal(<InputBackgroundLocal as Wire>::wire);
            reveal(<InputBackgroundLocal as Wire>::parse);
        }
        let members = members_of(j, at)?;
        let background = read_field::<InputFile>(members, "background")?;
        Ok(InputBackgroundLocal { background })
    }

    proof fn round_trip(&self, at: Seq<char>) {
        reveal(<InputBackgroundLocal as Wire>::wire);
        reveal(<InputBackgroundLocal as Wire>::parse);
        reveal_strlit("@type");
        reveal_strlit("background");
        assert("@type"@.len() == 5);
        assert("background"@.len() == 10);
        self.background.round_trip("background"@);
    }
}

impl Tagged for InputBackgroundLocal {
    open spec fn known(tag: Seq<char>) -> bool {
        tag == "inputBackgroundLocal"@
    }

    fn knows(tag: &str) -> (r: bool) {
        same_text(tag, "inputBackgroundLocal")
    }

    proof fn tag_known(&self) {
        reveal(<InputBackgroundLocal as Wire>::wire);
        assert(tag_of(self.wire()) == Some("inputBackgroundLocal"@));
        assert(Self::known("inputBackgroundLocal"@));
    }
}

/// A background from the server
#[derive(Debug, Clone, PartialEq)]
pub struct InputBackgroundRemote {
    /// The background identifier
    pub background_id: i64,
}

impl Wire for InputBackgroundRemote {
    #[verifier::opaque]
    open spec fn wire(&self) -> Doc {
        tagged(
            Map::empty()
                .insert("backgroundId"@, wide_doc(self.background_id)),
            "inputBackgroundRemote"@,
        )
    }

    #[verifier::opaque]
    open spec fn parse(d: Doc, at: Seq<char>) -> Result<Doc, Fault> {
        match d {
            Doc::Object(m) => {
                let background_id = wide_field(m, "backgroundId"@);
                if background_id is Err {
                    background_id
                } else {
                    Ok(
                        tagged(
                            Map::empty()
                                .insert("backgroundId"@, background_id->Ok_0),
                            "inputBackgroundRemote"@,
                        ),
                    )
                }
            },
            _ => Err(Fault::TypeMismatch(at)),
        }
    }

    fn encode(&self) -> (j: Json) {
        proof {
            reveal(<InputBackgroundRemote as Wire>::wire);
        }
        let mut members: Vec<Member> = Vec::new();
        put(&mut members, "backgroundId", encode_wide(self.background_id));
        seal(members, "inputBackgroundRemote")
    }

    fn decode(j: &Json, at: &str) -> (r: Result<Self, DecodeError>) {
        proof {
            reveal(<InputBackgroundRemote as Wire>::wire);
            reveal(<InputBackgroundRemote as Wire>::parse);
        }
        let members = members_of(j, at)?;
        let background_id = read_wide(members, "backgroundId")?;
        Ok(InputBackgroundRemote { background_id })
    }

    proof fn round_trip(&self, at: Seq<char>) {
        reveal(<InputBackgroundRemote as Wire>::wire);
        reveal(<InputBackgroundRemote as Wire>::parse);
        reveal_strlit("@type");
        reveal_strlit("backgroundId");
        assert("@type"@.len() == 5);
        assert("backgroundId"@.len() == 12);
        lemma_wide_round_trip(self.background_id, "backgroundId"@);
    }
}

impl Tagged for InputBackgroundRemote {
    open spec fn known(tag: Seq<char>) -> bool {
        tag == "inputBackgroundRemote"@
    }

    fn knows(tag: &str) -> (r: bool) {
        same_text(tag, "inputBackgroundRemote")
    }

    proof fn tag_known(&self) {
        reveal(<InputBackgroundRemote as Wire>::wire);
        assert(tag_of(self.wire()) == Some("inputBackgroundRemote"@));
        assert(Self::known("inputBackgroundRemote"@));
    }
}

/// Contains information about background to set
#[derive(Debug, Clone, PartialEq)]
pub enum InputBackground {
    InputBackgroundLocal(InputBackgroundLocal),
    InputBackgroundRemote(InputBackgroundRemote),
}

impl Wire for InputBackground {
    #[verifier::opaque]
    open spec fn wire(&self) -> Doc {
        match self {
            Self::InputBackgroundLocal(p) => p.wire(),
            Self::InputBackgroundRemote(p) => p.wire(),
        }
    }

    #[verifier::opaque]
    open spec fn parse(d: Doc, at: Seq<char>) -> Result<Doc, Fault> {
        match d {
            Doc::Object(_) => match tag_of(d) {
                Some(t) => if t == "inputBackgroundLocal"@ {
                    InputBackgroundLocal::parse(d, at)
                } else if t == "inputBackgroundRemote"@ {
                    InputBackgroundRemote::parse(d, at)
                } else {
                    Err(Fault::UnknownVariant(t))
                },
                None => Err(Fault::MissingDiscriminator),
            },
            _ => Err(Fault::TypeMismatch(at)),
        }
    }

    fn encode(&self) -> (j: Json) {
        proof {
            reveal(<InputBackground as Wire>::wire);
        }
        match self {
            Self::InputBackgroundLocal(p) => p.encode(),
            Self::InputBackgroundRemote(p) => p.encode(),
        }
    }

    fn decode(j: &Json, at: &str) -> (r: Result<Self, DecodeError>) {
        proof {
            reveal(<InputBackground as Wire>::wire);
            reveal(<InputBackground as Wire>::parse);
        }
        let members = members_of(j, at)?;
        let tag = discriminator(members)?;
        if same_text(tag, "inputBackgroundLocal") {
            Ok(Self::InputBackgroundLocal(InputBackgroundLocal::decode(j, at)?))
        } else if same_text(tag, "inputBackgroundRemote") {
            Ok(Self::InputBackgroundRemote(InputBackgroundRemote::decode(j, at)?))
        } else {
            Err(DecodeError::UnknownVariant(tag.to_owned()))
        }
    }

    proof fn round_trip(&self, at: Seq<char>) {
        reveal(<InputBackground as Wire>::wire);
        reveal(<InputBackground as Wire>::parse);
        reveal_strlit("inputBackgroundLocal");
        reveal_strlit("inputBackgroundRemote");
        assert("inputBackgroundLocal"@.len() == 20);
        assert("inputBackgroundRemote"@.len() == 21);
        match self {
            Self::InputBackgroundLocal(p) => {
                p.tag_known();
                p.round_trip(at);
            },
            Self::InputBackgroundRemote(p) => {
                p.tag_known();
                p.round_trip(at);
            },
        }
    }
}

impl Tagged for InputBackground {
    open spec fn known(tag: Seq<char>) -> bool {
        ||| tag == "inputBackgroundLocal"@
        ||| tag == "inputBackgroundRemote"@
    }

    fn knows(tag: &str) -> (r: bool) {
        same_text(tag, "inputBackgroundLocal")
            || same_text(tag, "inputBackgroundRemote")
    }

    proof fn tag_known(&self) {
        reveal(<InputBackground as Wire>::wire);
        match self {
            Self::InputBackgroundLocal(p) => p.tag_known(),
            Self::InputBackgroundRemote(p) => p.tag_known(),
        }
    }
}

impl Union for InputBackground {
    proof fn unknown_rejected(d: Doc, at: Seq<char>) {
        reveal(<InputBackground as Wire>::parse);
    }

    proof fn untagged_rejected(d: Doc, at: Seq<char>) {
        reveal(<InputBackground as Wire>::parse);
    }
}

/// Contains a list of hashtags
#[derive(Debug, Clone, PartialEq)]
pub struct Hashtags {
    /// A list of hashtags
    pub hashtags: Vec<String>,
}

impl Wire for Hashtags {
    #[verifier::opaque]
    open spec fn wire(&self) -> Doc {
        tagged(
            Map::empty()
                .insert("hashtags"@, self.hashtags.wire()),
            "hashtags"@,
        )
    }

    #[verifier::opaque]
    open spec fn parse(d: Doc, at: Seq<char>) -> Result<Doc, Fault> {
        match d {
            Doc::Object(m) => {
                let hashtags = field::<Vec<String>>(m, "hashtags"@);
                if hashtags is Err {
                    hashtags
                } else {
                    Ok(
                        tagged(
                            Map::empty()
                                .insert("hashtags"@, hashtags->Ok_0),
                            "hashtags"@,
                        ),
                    )
                }
            },
            _ => Err(Fault::TypeMismatch(at)),
        }
    }

    fn encode(&self) -> (j: Json) {
        proof {
            reveal(<Hashtags as Wire>::wire);
        }
        let mut members: Vec<Member> = Vec::new();
        put(&mut members, "hashtags", self.hashtags.encode());
        seal(members, "hashtags")
    }

    fn decode(j: &Json, at: &str) -> (r: Result<Self, DecodeError>) {
        proof {
            reveal(<Hashtags as Wire>::wire);
            reveal(<Hashtags as Wire>::parse);
        }
        let members = members_of(j, at)?;
        let hashtags = read_field::<Vec<String>>(members, "hashtags")?;
        Ok(Hashtags { hashtags })
    }

    proof fn round_trip(&self, at: Seq<char>) {
        reveal(<Hashtags as Wire>::wire);
        reveal(<Hashtags as Wire>::parse);
        reveal_strlit("@type");
        reveal_strlit("hashtags");
        assert("@type"@.len() == 5);
        assert("hashtags"@.len() == 8);
        self.hashtags.round_trip("hashtags"@);
    }
}

impl Tagged for Hashtags {
    open spec fn known(tag: Seq<char>) -> bool {
        tag == "hashtags"@
    }

    fn knows(tag: &str) -> (r: bool) {
        same_text(tag, "hashtags")
    }

    proof fn tag_known(&self) {
        reveal(<Hashtags as Wire>::wire);
        assert(tag_of(self.wire()) == Some("hashtags"@));
        assert(Self::known("hashtags"@));
    }
}

/// The session can be used
#[derive(Debug, Clone, PartialEq)]
pub struct CanTransferOwnershipResultOk {}

impl Wire for CanTransferOwnershipResultOk {
    #[verifier::opaque]
    open spec fn wire(&self) -> Doc {
        tagged(Map::empty(), "canTransferOwnershipResultOk"@)
    }

    #[verifier::opaque]
    open spec fn parse(d: Doc, at: Seq<char>) -> Result<Doc, Fault> {
        match d {
            Doc::Object(_) => Ok(tagged(Map::empty(), "canTransferOwnershipResultOk"@)),
            _ => Err(Fault::TypeMismatch(at)),
        }
    }

    fn encode(&self) -> (j: Json) {
        proof {
            reveal(<CanTransferOwnershipResultOk as Wire>::wire);
        }
        seal(Vec::new(), "canTransferOwnershipResultOk")
    }

    fn decode(j: &Json, at: &str) -> (r: Result<Self, DecodeError>) {
        proof {
            reveal(<CanTransferOwnershipResultOk as Wire>::wire);
            reveal(<CanTransferOwnershipResultOk as Wire>::parse);
        }
        let _ = members_of(j, at)?;
        Ok(CanTransferOwnershipResultOk {})
    }

    proof fn round_trip(&self, at: Seq<char>) {
        reveal(<CanTransferOwnershipResultOk as Wire>::wire);
        reveal(<CanTransferOwnershipResultOk as Wire>::parse);
    }
}

impl Tagged for CanTransferOwnershipResultOk {
    open spec fn known(tag: Seq<char>) -> bool {
        tag == "canTransferOwnershipResultOk"@
    }

    fn knows(tag: &str) -> (r: bool) {
        same_text(tag, "canTransferOwnershipResultOk")
    }

    proof fn tag_known(&self) {
        reveal(<CanTransferOwnershipResultOk as Wire>::wire);
        assert(tag_of(self.wire()) == Some("canTransferOwnershipResultOk"@));
        assert(Self::known("canTransferOwnershipResultOk"@));
    }
}

/// The 2-step verification needs to be enabled first
#[derive(Debug, Clone, PartialEq)]
pub struct CanTransferOwnershipResultPasswordNeeded {}

impl Wire for CanTransferOwnershipResultPasswordNeeded {
    #[verifier::opaque]
    open spec fn wire(&self) -> Doc {
        tagged(Map::empty(), "canTransferOwnershipResultPasswordNeeded"@)
    }

    #[verifier::opaque]
    open spec fn parse(d: Doc, at: Seq<char>) -> Result<Doc, Fault> {
        match d {
            Doc::Object(_) => Ok(tagged(Map::empty(), "canTransferOwnershipResultPasswordNeeded"@)),
            _ => Err(Fault::TypeMismatch(at)),
        }
    }

    fn encode(&self) -> (j: Json) {
        proof {
            reveal(<CanTransferOwnershipResultPasswordNeeded as Wire>::wire);
        }
        seal(Vec::new(), "canTransferOwnershipResultPasswordNeeded")
    }

    fn decode(j: &Json, at: &str) -> (r: Result<Self, DecodeError>) {
        proof {
            reveal(<CanTransferOwnershipResultPasswordNeeded as Wire>::wire);
            reveal(<CanTransferOwnershipResultPasswordNeeded as Wire>::parse);
        }
        let _ = members_of(j, at)?;
        Ok(CanTransferOwnershipResultPasswordNeeded {})
    }

    proof fn round_trip(&self, at: Seq<char>) {
        reveal(<CanTransferOwnershipResultPasswordNeeded as Wire>::wire);
        reveal(<CanTransferOwnershipResultPasswordNeeded as Wire>::parse);
    }
}

impl Tagged for CanTransferOwnershipResultPasswordNeeded {
    open spec fn known(tag: Seq<char>) -> bool {
        tag == "canTransferOwnershipResultPasswordNeeded"@
    }

    fn knows(tag: &str) -> (r: bool) {
        same_text(tag, "canTransferOwnershipResultPasswordNeeded")
    }

    proof fn tag_known(&self) {
        reveal(<CanTransferOwnershipResultPasswordNeeded as Wire>::wire);
        assert(tag_of(self.wire()) == Some("canTransferOwnershipResultPasswordNeeded"@));
        assert(Self::known("canTransferOwnershipResultPasswordNeeded"@));
    }
}

/// The 2-step verification was enabled recently, user needs to wait
#[derive(Debug, Clone, PartialEq)]
pub struct CanTransferOwnershipResultPasswordTooFresh {
    /// Time left before the session can be used to transfer ownership of a chat, in seconds
    pub retry_after: i32,
}

impl Wire for CanTransferOwnershipResultPasswordTooFresh {
    #[verifier::opaque]
    open spec fn wire(&self) -> Doc {
        tagged(
            Map::empty()
                .insert("retryAfter"@, self.retry_after.wire()),
            "canTransferOwnershipResultPasswordTooFresh"@,
        )
    }

    #[verifier::opaque]
    open spec fn parse(d: Doc, at: Seq<char>) -> Result<Doc, Fault> {
        match d {
            Doc::Object(m) => {
                let retry_after = field::<i32>(m, "retryAfter"@);
                if retry_after is Err {
                    retry_after
                } else {
                    Ok(
                        tagged(
                            Map::empty()
                                .insert("retryAfter"@, retry_after->Ok_0),
                            "canTransferOwnershipResultPasswordTooFresh"@,
                        ),
                    )
                }
            },
            _ => Err(Fault::TypeMismatch(at)),
        }
    }

    fn encode(&self) -> (j: Json) {
        proof {
            reveal(<CanTransferOwnershipResultPasswordTooFresh as Wire>::wire);
        }
        let mut members: Vec<Member> = Vec::new();
        put(&mut members, "retryAfter", self.retry_after.encode());
        seal(members, "canTransferOwnershipResultPasswordTooFresh")
    }

    fn decode(j: &Json, at: &str) -> (r: Result<Self, DecodeError>) {
        proof {
            reveal(<CanTransferOwnershipResultPasswordTooFresh as Wire>::wire);
            reveal(<CanTransferOwnershipResultPasswordTooFresh as Wire>::parse);
        }
        let members = members_of(j, at)?;
        let retry_after = read_field::<i32>(members, "retryAfter")?;
        Ok(CanTransferOwnershipResultPasswordTooFresh { retry_after })
    }

    proof fn round_trip(&self, at: Seq<char>) {
        reveal(<CanTransferOwnershipResultPasswordTooFresh as Wire>::wire);
        reveal(<CanTransferOwnershipResultPasswordTooFresh as Wire>::parse);
        reveal_strlit("@type");
        reveal_strlit("retryAfter");
        assert("@type"@.len() == 5);
        assert("retryAfter"@.len() == 10);
        self.retry_after.round_trip("retryAfter"@);
    }
}

impl Tagged for CanTransferOwnershipResultPasswordTooFresh {
    open spec fn known(tag: Seq<char>) -> bool {
        tag == "canTransferOwnershipResultPasswordTooFresh"@
    }

    fn knows(tag: &str) -> (r: bool) {
        same_text(tag, "canTransferOwnershipResultPasswordTooFresh")
    }

    proof fn tag_known(&self) {
        reveal(<CanTransferOwnershipResultPasswordTooFresh as Wire>::wire);
        assert(tag_of(self.wire()) == Some("canTransferOwnershipResultPasswordTooFresh"@));
        assert(Self::known("canTransferOwnershipResultPasswordTooFresh"@));
    }
}

/// The session was created recently, user needs to wait
#[derive(Debug, Clone, PartialEq)]
pub struct CanTransferOwnershipResultSessionTooFresh {
    /// Time left before the session can be used to transfer ownership of a chat, in seconds
    pub retry_after: i32,
}

impl Wire for CanTransferOwnershipResultSessionTooFresh {
    #[verifier::opaque]
    open spec fn wire(&self) -> Doc {
        tagged(
            Map::empty()
                .insert("retryAfter"@, self.retry_after.wire()),
            "canTransferOwnershipResultSessionTooFresh"@,
        )
    }

    #[verifier::opaque]
    open spec fn parse(d: Doc, at: Seq<char>) -> Result<Doc, Fault> {
        match d {
            Doc::Object(m) => {
                let retry_after = field::<i32>(m, "retryAfter"@);
                if retry_after is Err {
                    retry_after
                } else {
                    Ok(
                        tagged(
                            Map::empty()
                                .insert("retryAfter"@, retry_after->Ok_0),
                            "canTransferOwnershipResultSessionTooFresh"@,
                        ),
                    )
                }
            },
            _ => Err(Fault::TypeMismatch(at)),
        }
    }

    fn encode(&self) -> (j: Json) {
        proof {
            reveal(<CanTransferOwnershipResultSessionTooFresh as Wire>::wire);
        }
        let mut members: Vec<Member> = Vec::new();
        put(&mut members, "retryAfter", self.retry_after.encode());
        seal(members, "canTransferOwnershipResultSessionTooFresh")
    }

    fn decode(j: &Json, at: &str) -> (r: Result<Self, DecodeError>) {
        proof {
            reveal(<CanTransferOwnershipResultSessionTooFresh as Wire>::wire);
            reveal(<CanTransferOwnershipResultSessionTooFresh as Wire>::parse);
        }
        let members = members_of(j, at)?;
        let retry_after = read_field::<i32>(members, "retryAfter")?;
        Ok(CanTransferOwnershipResultSessionTooFresh { retry_after })
    }

    proof fn round_trip(&self, at: Seq<char>) {
        reveal(<CanTransferOwnershipResultSessionTooFresh as Wire>::wire);
        reveal(<CanTransferOwnershipResultSessionTooFresh as Wire>::parse);
        reveal_strlit("@type");
        reveal_strlit("retryAfter");
        assert("@type"@.len() == 5);
        assert("retryAfter"@.len() == 10);
        self.retry_after.round_trip("retryAfter"@);
    }
}

impl Tagged for CanTransferOwnershipResultSessionTooFresh {
    open spec fn known(tag: Seq<char>) -> bool {
        tag == "canTransferOwnershipResultSessionTooFresh"@
    }

    fn knows(tag: &str) -> (r: bool) {
        same_text(tag, "canTransferOwnershipResultSessionTooFresh")
    }

    proof fn tag_known(&self) {
        reveal(<CanTransferOwnershipResultSessionTooFresh as Wire>::wire);
        assert(tag_of(self.wire()) == Some("canTransferOwnershipResultSessionTooFresh"@));
        assert(Self::known("canTransferOwnershipResultSessionTooFresh"@));
    }
}

/// Represents result of checking whether the current session can be used to transfer a chat
/// ownership to another user
#[derive(Debug, Clone, PartialEq)]
pub enum CanTransferOwnershipResult {
    CanTransferOwnershipResultOk(CanTransferOwnershipResultOk),
    CanTransferOwnershipResultPasswordNeeded(CanTransferOwnershipResultPasswordNeeded),
    CanTransferOwnershipResultPasswordTooFresh(CanTransferOwnershipResultPasswordTooFresh),
    CanTransferOwnershipResultSessionTooFresh(CanTransferOwnershipResultSessionTooFresh),
}

impl Wire for CanTransferOwnershipResult {
    #[verifier::opaque]
    open spec fn wire(&self) -> Doc {
        match self {
            Self::CanTransferOwnershipResultOk(p) => p.wire(),
            Self::CanTransferOwnershipResultPasswordNeeded(p) => p.wire(),
            Self::CanTransferOwnershipResultPasswordTooFresh(p) => p.wire(),
            Self::CanTransferOwnershipResultSessionTooFresh(p) => p.wire(),
        }
    }

    #[verifier::opaque]
    open spec fn parse(d: Doc, at: Seq<char>) -> Result<Doc, Fault> {
        match d {
            Doc::Object(_) => match tag_of(d) {
                Some(t) => if t == "canTransferOwnershipResultOk"@ {
                    CanTransferOwnershipResultOk::parse(d, at)
                } else if t == "canTransferOwnershipResultPasswordNeeded"@ {
                    CanTransferOwnershipResultPasswordNeeded::parse(d, at)
                } else if t == "canTransferOwnershipResultPasswordTooFresh"@ {
                    CanTransferOwnershipResultPasswordTooFresh::parse(d, at)
                } else if t == "canTransferOwnershipResultSessionTooFresh"@ {
                    CanTransferOwnershipResultSessionTooFresh::parse(d, at)
                } else {
                    Err(Fault::UnknownVariant(t))
                },
                None => Err(Fault::MissingDiscriminator),
            },
            _ => Err(Fault::TypeMismatch(at)),
        }
    }

    fn encode(&self) -> (j: Json) {
        proof {
            reveal(<CanTransferOwnershipResult as Wire>::wire);
        }
        match self {
            Self::CanTransferOwnershipResultOk(p) => p.encode(),
            Self::CanTransferOwnershipResultPasswordNeeded(p) => p.encode(),
            Self::CanTransferOwnershipResultPasswordTooFresh(p) => p.encode(),
            Self::CanTransferOwnershipResultSessionTooFresh(p) => p.encode(),
        }
    }

    fn decode(j: &Json, at: &str) -> (r: Result<Self, DecodeError>) {
        proof {
            reveal(<CanTransferOwnershipResult as Wire>::wire);
            reveal(<CanTransferOwnershipResult as Wire>::parse);
        }
        let members = members_of(j, at)?;
        let tag = discriminator(members)?;
        if same_text(tag, "canTransferOwnershipResultOk") {
            Ok(Self::CanTransferOwnershipResultOk(CanTransferOwnershipResultOk::decode(j, at)?))
        } else if same_text(tag, "canTransferOwnershipResultPasswordNeeded") {
            Ok(
                Self::CanTransferOwnershipResultPasswordNeeded(
                    CanTransferOwnershipResultPasswordNeeded::decode(j, at)?,
                ),
            )
        } else if same_text(tag, "canTransferOwnershipResultPasswordTooFresh") {
            Ok(
                Self::CanTransferOwnershipResultPasswordTooFresh(
                    CanTransferOwnershipResultPasswordTooFresh::decode(j, at)?,
                ),
            )
        } else if same_text(tag, "canTransferOwnershipResultSessionTooFresh") {
            Ok(
                Self::CanTransferOwnershipResultSessionTooFresh(
                    CanTransferOwnershipResultSessionTooFresh::decode(j, at)?,
                ),
            )
        } else {
            Err(DecodeError::UnknownVariant(tag.to_owned()))
        }
    }

    proof fn round_trip(&self, at: Seq<char>) {
        reveal(<CanTransferOwnershipResult as Wire>::wire);
        reveal(<CanTransferOwnershipResult as Wire>::parse);
        reveal_strlit("canTransferOwnershipResultOk");
        reveal_strlit("canTransferOwnershipResultPasswordNeeded");
        reveal_strlit("canTransferOwnershipResultPasswordTooFresh");
        reveal_strlit("canTransferOwnershipResultSessionTooFresh");
        assert("canTransferOwnershipResultOk"@.len() == 28);
        assert("canTransferOwnershipResultPasswordNeeded"@.len() == 40);
        assert("canTransferOwnershipResultPasswordTooFresh"@.len() == 42);
        assert("canTransferOwnershipResultSessionTooFresh"@.len() == 41);
        match self {
            Self::CanTransferOwnershipResultOk(p) => {
                p.tag_known();
                p.round_trip(at);
            },
            Self::CanTransferOwnershipResultPasswordNeeded(p) => {
                p.tag_known();
                p.round_trip(at);
            },
            Self::CanTransferOwnershipResultPasswordTooFresh(p) => {
                p.tag_known();
                p.round_trip(at);
            },
            Self::CanTransferOwnershipResultSessionTooFresh(p) => {
                p.tag_known();
                p.round_trip(at);
            },
        }
    }
}

impl Tagged for CanTransferOwnershipResult {
    open spec fn known(tag: Seq<char>) -> bool {
        ||| tag == "canTransferOwnershipResultOk"@
        ||| tag == "canTransferOwnershipResultPasswordNeeded"@
        ||| tag == "canTransferOwnershipResultPasswordTooFresh"@
        ||| tag == "canTransferOwnershipResultSessionTooFresh"@
    }

    fn knows(tag: &str) -> (r: bool) {
        same_text(tag, "canTransferOwnershipResultOk")
            || same_text(tag, "canTransferOwnershipResultPasswordNeeded")
            || same_text(tag, "canTransferOwnershipResultPasswordTooFresh")
            || same_text(tag, "canTransferOwnershipResultSessionTooFresh")
    }

    proof fn tag_known(&self) {
        reveal(<CanTransferOwnershipResult as Wire>::wire);
        match self {
            Self::CanTransferOwnershipResultOk(p) => p.tag_known(),
            Self::CanTransferOwnershipResultPasswordNeeded(p) => p.tag_known(),
            Self::CanTransferOwnershipResultPasswordTooFresh(p) => p.tag_known(),
            Self::CanTransferOwnershipResultSessionTooFresh(p) => p.tag_known(),
        }
    }
}

impl Union for CanTransferOwnershipResult {
    proof fn unknown_rejected(d: Doc, at: Seq<char>) {
        reveal(<CanTransferOwnershipResult as Wire>::parse);
    }

    proof fn untagged_rejected(d: Doc, at: Seq<char>) {
        reveal(<CanTransferOwnershipResult as Wire>::parse);
    }
}

/// The username can be set
#[derive(Debug, Clone, PartialEq)]
pub struct CheckChatUsernameResultOk {}

impl Wire for CheckChatUsernameResultOk {
    #[verifier::opaque]
    open spec fn wire(&self) -> Doc {
        tagged(Map::empty(), "checkChatUsernameResultOk"@)
    }

    #[verifier::opaque]
    open spec fn parse(d: Doc, at: Seq<char>) -> Result<Doc, Fault> {
        match d {
            Doc::Object(_) => Ok(tagged(Map::empty(), "checkChatUsernameResultOk"@)),
            _ => Err(Fault::TypeMismatch(at)),
        }
    }

    fn encode(&self) -> (j: Json) {
        proof {
            reveal(<CheckChatUsernameResultOk as Wire>::wire);
        }
        seal(Vec::new(), "checkChatUsernameResultOk")
    }

    fn decode(j: &Json, at: &str) -> (r: Result<Self, DecodeError>) {
        proof {
            reveal(<CheckChatUsernameResultOk as Wire>::wire);
            reveal(<CheckChatUsernameResultOk as Wire>::parse);
        }
        let _ = members_of(j, at)?;
        Ok(CheckChatUsernameResultOk {})
    }

    proof fn round_trip(&self, at: Seq<char>) {
        reveal(<CheckChatUsernameResultOk as Wire>::wire);
        reveal(<CheckChatUsernameResultOk as Wire>::parse);
    }
}

impl Tagged for CheckChatUsernameResultOk {
    open spec fn known(tag: Seq<char>) -> bool {
        tag == "checkChatUsernameResultOk"@
    }

    fn knows(tag: &str) -> (r: bool) {
        same_text(tag, "checkChatUsernameResultOk")
    }

    proof fn tag_known(&self) {
        reveal(<CheckChatUsernameResultOk as Wire>::wire);
        assert(tag_of(self.wire()) == Some("checkChatUsernameResultOk"@));
        assert(Self::known("checkChatUsernameResultOk"@));
    }
}

/// The username is invalid
#[derive(Debug, Clone, PartialEq)]
pub struct CheckChatUsernameResultUsernameInvalid {}

impl Wire for CheckChatUsernameResultUsernameInvalid {
    #[verifier::opaque]
    open spec fn wire(&self) -> Doc {
        tagged(Map::empty(), "checkChatUsernameResultUsernameInvalid"@)
    }

    #[verifier::opaque]
    open spec fn parse(d: Doc, at: Seq<char>) -> Result<Doc, Fault> {
        match d {
            Doc::Object(_) => Ok(tagged(Map::empty(), "checkChatUsernameResultUsernameInvalid"@)),
            _ => Err(Fault::TypeMismatch(at)),
        }
    }

    fn encode(&self) -> (j: Json) {
        proof {
            reveal(<CheckChatUsernameResultUsernameInvalid as Wire>::wire);
        }
        seal(Vec::new(), "checkChatUsernameResultUsernameInvalid")
    }

    fn decode(j: &Json, at: &str) -> (r: Result<Self, DecodeError>) {
        proof {
            reveal(<CheckChatUsernameResultUsernameInvalid as Wire>::wire);
            reveal(<CheckChatUsernameResultUsernameInvalid as Wire>::parse);
        }
        let _ = members_of(j, at)?;
        Ok(CheckChatUsernameResultUsernameInvalid {})
    }

    proof fn round_trip(&self, at: Seq<char>) {
        reveal(<CheckChatUsernameResultUsernameInvalid as Wire>::wire);
        reveal(<CheckChatUsernameResultUsernameInvalid as Wire>::parse);
    }
}

impl Tagged for CheckChatUsernameResultUsernameInvalid {
    open spec fn known(tag: Seq<char>) -> bool {
        tag == "checkChatUsernameResultUsernameInvalid"@
    }

    fn knows(tag: &str) -> (r: bool) {
        same_text(tag, "checkChatUsernameResultUsernameInvalid")
    }

    proof fn tag_known(&self) {
        reveal(<CheckChatUsernameResultUsernameInvalid as Wire>::wire);
        assert(tag_of(self.wire()) == Some("checkChatUsernameResultUsernameInvalid"@));
        assert(Self::known("checkChatUsernameResultUsernameInvalid"@));
    }
}

/// The username is occupied
#[derive(Debug, Clone, PartialEq)]
pub struct CheckChatUsernameResultUsernameOccupied {}

impl Wire for CheckChatUsernameResultUsernameOccupied {
    #[verifier::opaque]
    open spec fn wire(&self) -> Doc {
        tagged(Map::empty(), "checkChatUsernameResultUsernameOccupied"@)
    }

    #[verifier::opaque]
    open spec fn parse(d: Doc, at: Seq<char>) -> Result<Doc, Fault> {
        match d {
            Doc::Object(_) => Ok(tagged(Map::empty(), "checkChatUsernameResultUsernameOccupied"@)),
            _ => Err(Fault::TypeMismatch(at)),
        }
    }

    fn encode(&self) -> (j: Json) {
        proof {
            reveal(<CheckChatUsernameResultUsernameOccupied as Wire>::wire);
        }
        seal(Vec::new(), "checkChatUsernameResultUsernameOccupied")
    }

    fn decode(j: &Json, at: &str) -> (r: Result<Self, DecodeError>) {
        proof {
            reveal(<CheckChatUsernameResultUsernameOccupied as Wire>::wire);
            reveal(<CheckChatUsernameResultUsernameOccupied as Wire>::parse);
        }
        let _ = members_of(j, at)?;
        Ok(CheckChatUsernameResultUsernameOccupied {})
    }

    proof fn round_trip(&self, at: Seq<char>) {
        reveal(<CheckChatUsernameResultUsernameOccupied as Wire>::wire);
        reveal(<CheckChatUsernameResultUsernameOccupied as Wire>::parse);
    }
}

impl Tagged for CheckChatUsernameResultUsernameOccupied {
    open spec fn known(tag: Seq<char>) -> bool {
        tag == "checkChatUsernameResultUsernameOccupied"@
    }

    fn knows(tag: &str) -> (r: bool) {
        same_text(tag, "checkChatUsernameResultUsernameOccupied")
    }

    proof fn tag_known(&self) {
        reveal(<CheckChatUsernameResultUsernameOccupied as Wire>::wire);
        assert(tag_of(self.wire()) == Some("checkChatUsernameResultUsernameOccupied"@));
        assert(Self::known("checkChatUsernameResultUsernameOccupied"@));
    }
}

/// The user has too much chats with username, one of them should be made private first
#[derive(Debug, Clone, PartialEq)]
pub struct CheckChatUsernameResultPublicChatsTooMuch {}

impl Wire for CheckChatUsernameResultPublicChatsTooMuch {
    #[verifier::opaque]
    open spec fn wire(&self) -> Doc {
        tagged(Map::empty(), "checkChatUsernameResultPublicChatsTooMuch"@)
    }

    #[verifier::opaque]
    open spec fn parse(d: Doc, at: Seq<char>) -> Result<Doc, Fault> {
        match d {
            Doc::Object(
                _) => Ok(tagged(Map::empty(),
                "checkChatUsernameResultPublicChatsTooMuch"@),
            ),
            _ => Err(Fault::TypeMismatch(at)),
        }
    }

    fn encode(&self) -> (j: Json) {
        proof {
            reveal(<CheckChatUsernameResultPublicChatsTooMuch as Wire>::wire);
        }
        seal(Vec::new(), "checkChatUsernameResultPublicChatsTooMuch")
    }

    fn decode(j: &Json, at: &str) -> (r: Result<Self, DecodeError>) {
        proof {
            reveal(<CheckChatUsernameResultPublicChatsTooMuch as Wire>::wire);
            reveal(<CheckChatUsernameResultPublicChatsTooMuch as Wire>::parse);
        }
        let _ = members_of(j, at)?;
        Ok(CheckChatUsernameResultPublicChatsTooMuch {})
    }

    proof fn round_trip(&self, at: Seq<char>) {
        reveal(<CheckChatUsernameResultPublicChatsTooMuch as Wire>::wire);
        reveal(<CheckChatUsernameResultPublicChatsTooMuch as Wire>::parse);
    }
}

impl Tagged for CheckChatUsernameResultPublicChatsTooMuch {
    open spec fn known(tag: Seq<char>) -> bool {
        tag == "checkChatUsernameResultPublicChatsTooMuch"@
    }

    fn knows(tag: &str) -> (r: bool) {
        same_text(tag, "checkChatUsernameResultPublicChatsTooMuch")
    }

    proof fn tag_known(&self) {
        reveal(<CheckChatUsernameResultPublicChatsTooMuch as Wire>::wire);
        assert(tag_of(self.wire()) == Some("checkChatUsernameResultPublicChatsTooMuch"@));
        assert(Self::known("checkChatUsernameResultPublicChatsTooMuch"@));
    }
}

/// The user can't be a member of a public supergroup
#[derive(Debug, Clone, PartialEq)]
pub struct CheckChatUsernameResultPublicGroupsUnavailable {}

impl Wire for CheckChatUsernameResultPublicGroupsUnavailable {
    #[verifier::opaque]
    open spec fn wire(&self) -> Doc {
        tagged(Map::empty(), "checkChatUsernameResultPublicGroupsUnavailable"@)
    }

    #[verifier::opaque]
    open spec fn parse(d: Doc, at: Seq<char>) -> Result<Doc, Fault> {
        match d {
            Doc::Object(
                _) => Ok(tagged(Map::empty(),
                "checkChatUsernameResultPublicGroupsUnavailable"@),
            ),
            _ => Err(Fault::TypeMismatch(at)),
        }
    }

    fn encode(&self) -> (j: Json) {
        proof {
            reveal(<CheckChatUsernameResultPublicGroupsUnavailable as Wire>::wire);
        }
        seal(Vec::new(), "checkChatUsernameResultPublicGroupsUnavailable")
    }

    fn decode(j: &Json, at: &str) -> (r: Result<Self, DecodeError>) {
        proof {
            reveal(<CheckChatUsernameResultPublicGroupsUnavailable as Wire>::wire);
            reveal(<CheckChatUsernameResultPublicGroupsUnavailable as Wire>::parse);
        }
        let _ = members_of(j, at)?;
        Ok(CheckChatUsernameResultPublicGroupsUnavailable {})
    }

    proof fn round_trip(&self, at: Seq<char>) {
        reveal(<CheckChatUsernameResultPublicGroupsUnavailable as Wire>::wire);
        reveal(<CheckChatUsernameResultPublicGroupsUnavailable as Wire>::parse);
    }
}

impl Tagged for CheckChatUsernameResultPublicGroupsUnavailable {
    open spec fn known(tag: Seq<char>) -> bool {
        tag == "checkChatUsernameResultPublicGroupsUnavailable"@
    }

    fn knows(tag: &str) -> (r: bool) {
        same_text(tag, "checkChatUsernameResultPublicGroupsUnavailable")
    }

    proof fn tag_known(&self) {
        reveal(<CheckChatUsernameResultPublicGroupsUnavailable as Wire>::wire);
        assert(tag_of(self.wire()) == Some("checkChatUsernameResultPublicGroupsUnavailable"@));
        assert(Self::known("checkChatUsernameResultPublicGroupsUnavailable"@));
    }
}

/// Represents result of checking whether a username can be set for a chat
#[derive(Debug, Clone, PartialEq)]
pub enum CheckChatUsernameResult {
    CheckChatUsernameResultOk(CheckChatUsernameResultOk),
    CheckChatUsernameResultUsernameInvalid(CheckChatUsernameResultUsernameInvalid),
    CheckChatUsernameResultUsernameOccupied(CheckChatUsernameResultUsernameOccupied),
    CheckChatUsernameResultPublicChatsTooMuch(CheckChatUsernameResultPublicChatsTooMuch),
    CheckChatUsernameResultPublicGroupsUnavailable(CheckChatUsernameResultPublicGroupsUnavailable),
}

impl Wire for CheckChatUsernameResult {
    #[verifier::opaque]
    open spec fn wire(&self) -> Doc {
        match self {
            Self::CheckChatUsernameResultOk(p) => p.wire(),
            Self::CheckChatUsernameResultUsernameInvalid(p) => p.wire(),
            Self::CheckChatUsernameResultUsernameOccupied(p) => p.wire(),
            Self::CheckChatUsernameResultPublicChatsTooMuch(p) => p.wire(),
            Self::CheckChatUsernameResultPublicGroupsUnavailable(p) => p.wire(),
        }
    }

    #[verifier::opaque]
    open spec fn parse(d: Doc, at: Seq<char>) -> Result<Doc, Fault> {
        match d {
            Doc::Object(_) => match tag_of(d) {
                Some(t) => if t == "checkChatUsernameResultOk"@ {
                    CheckChatUsernameResultOk::parse(d, at)
                } else if t == "checkChatUsernameResultUsernameInvalid"@ {
                    CheckChatUsernameResultUsernameInvalid::parse(d, at)
                } else if t == "checkChatUsernameResultUsernameOccupied"@ {
                    CheckChatUsernameResultUsernameOccupied::parse(d, at)
                } else if t == "checkChatUsernameResultPublicChatsTooMuch"@ {
                    CheckChatUsernameResultPublicChatsTooMuch::parse(d, at)
                } else if t == "checkChatUsernameResultPublicGroupsUnavailable"@ {
                    CheckChatUsernameResultPublicGroupsUnavailable::parse(d, at)
                } else {
                    Err(Fault::UnknownVariant(t))
                },
                None => Err(Fault::MissingDiscriminator),
            },
            _ => Err(Fault::TypeMismatch(at)),
        }
    }

    fn encode(&self) -> (j: Json) {
        proof {
            reveal(<CheckChatUsernameResult as Wire>::wire);
        }
        match self {
            Self::CheckChatUsernameResultOk(p) => p.encode(),
            Self::CheckChatUsernameResultUsernameInvalid(p) => p.encode(),
            Self::CheckChatUsernameResultUsernameOccupied(p) => p.encode(),
            Self::CheckChatUsernameResultPublicChatsTooMuch(p) => p.encode(),
            Self::CheckChatUsernameResultPublicGroupsUnavailable(p) => p.encode(),
        }
    }

    fn decode(j: &Json, at: &str) -> (r: Result<Self, DecodeError>) {
        proof {
            reveal(<CheckChatUsernameResult as Wire>::wire);
            reveal(<CheckChatUsernameResult as Wire>::parse);
        }
        let members = members_of(j, at)?;
        let tag = discriminator(members)?;
        if same_text(tag, "checkChatUsernameResultOk") {
            Ok(Self::CheckChatUsernameResultOk(CheckChatUsernameResultOk::decode(j, at)?))
        } else if same_text(tag, "checkChatUsernameResultUsernameInvalid") {
            Ok(
                Self::CheckChatUsernameResultUsernameInvalid(
                    CheckChatUsernameResultUsernameInvalid::decode(j, at)?,
                ),
            )
        } else if same_text(tag, "checkChatUsernameResultUsernameOccupied") {
            Ok(
                Self::CheckChatUsernameResultUsernameOccupied(
                    CheckChatUsernameResultUsernameOccupied::decode(j, at)?,
                ),
            )
        } else if same_text(tag, "checkChatUsernameResultPublicChatsTooMuch") {
            Ok(
                Self::CheckChatUsernameResultPublicChatsTooMuch(
                    CheckChatUsernameResultPublicChatsTooMuch::decode(j, at)?,
                ),
            )
        } else if same_text(tag, "checkChatUsernameResultPublicGroupsUnavailable") {
            Ok(
                Self::CheckChatUsernameResultPublicGroupsUnavailable(
                    CheckChatUsernameResultPublicGroupsUnavailable::decode(j, at)?,
                ),
            )
        } else {
            Err(DecodeError::UnknownVariant(tag.to_owned()))
        }
    }

    proof fn round_trip(&self, at: Seq<char>) {
        reveal(<CheckChatUsernameResult as Wire>::wire);
        reveal(<CheckChatUsernameResult as Wire>::parse);
        reveal_strlit("checkChatUsernameResultOk");
        reveal_strlit("checkChatUsernameResultPublicChatsTooMuch");
        reveal_strlit("checkChatUsernameResultPublicGroupsUnavailable");
        reveal_strlit("checkChatUsernameResultUsernameInvalid");
        reveal_strlit("checkChatUsernameResultUsernameOccupied");
        assert("checkChatUsernameResultOk"@.len() == 25);
        assert("checkChatUsernameResultPublicChatsTooMuch"@.len() == 41);
        assert("checkChatUsernameResultPublicGroupsUnavailable"@.len() == 46);
        assert("checkChatUsernameResultUsernameInvalid"@.len() == 38);
        assert("checkChatUsernameResultUsernameOccupied"@.len() == 39);
        match self {
            Self::CheckChatUsernameResultOk(p) => {
                p.tag_known();
                p.round_trip(at);
            },
            Self::CheckChatUsernameResultUsernameInvalid(p) => {
                p.tag_known();
                p.round_trip(at);
            },
            Self::CheckChatUsernameResultUsernameOccupied(p) => {
                p.tag_known();
                p.round_trip(at);
            },
            Self::CheckChatUsernameResultPublicChatsTooMuch(p) => {
                p.tag_known();
                p.round_trip(at);
            },
            Self::CheckChatUsernameResultPublicGroupsUnavailable(p) => {
                p.tag_known();
                p.round_trip(at);
            },
        }
    }
}

impl Tagged for CheckChatUsernameResult {
    open spec fn known(tag: Seq<char>) -> bool {
        ||| tag == "checkChatUsernameResultOk"@
        ||| tag == "checkChatUsernameResultUsernameInvalid"@
        ||| tag == "checkChatUsernameResultUsernameOccupied"@
        ||| tag == "checkChatUsernameResultPublicChatsTooMuch"@
        ||| tag == "checkChatUsernameResultPublicGroupsUnavailable"@
    }

    fn knows(tag: &str) -> (r: bool) {
        same_text(tag, "checkChatUsernameResultOk")
            || same_text(tag, "checkChatUsernameResultUsernameInvalid")
            || same_text(tag, "checkChatUsernameResultUsernameOccupied")
            || same_text(tag, "checkChatUsernameResultPublicChatsTooMuch")
            || same_text(tag, "checkChatUsernameResultPublicGroupsUnavailable")
    }

    proof fn tag_known(&self) {
        reveal(<CheckChatUsernameResult as Wire>::wire);
        match self {
            Self::CheckChatUsernameResultOk(p) => p.tag_known(),
            Self::CheckChatUsernameResultUsernameInvalid(p) => p.tag_known(),
            Self::CheckChatUsernameResultUsernameOccupied(p) => p.tag_known(),
            Self::CheckChatUsernameResultPublicChatsTooMuch(p) => p.tag_known(),
            Self::CheckChatUsernameResultPublicGroupsUnavailable(p) => p.tag_known(),
        }
    }
}

impl Union for CheckChatUsernameResult {
    proof fn unknown_rejected(d: Doc, at: Seq<char>) {
        reveal(<CheckChatUsernameResult as Wire>::parse);
    }

    proof fn untagged_rejected(d: Doc, at: Seq<char>) {
        reveal(<CheckChatUsernameResult as Wire>::parse);
    }
}

} // verus!
