//! Log streams and the objects of the test requests.

use vstd::prelude::*;
use crate::codec::{discriminator, field, members_of, put, read_field, seal, Tagged, Union, Wire};
use crate::error::{DecodeError, Fault};
use crate::json::{Doc, Json, Member, Number, tag_of, tagged};
use crate::text::same_text;

verus! {

/// The log is written to stderr or an OS specific log
#[derive(Debug, Clone, PartialEq)]
pub struct LogStreamDefault {}

impl Wire for LogStreamDefault {
    #[verifier::opaque]
    open spec fn wire(&self) -> Doc {
        tagged(Map::empty(), "logStreamDefault"@)
    }

    #[verifier::opaque]
    open spec fn parse(d: Doc, at: Seq<char>) -> Result<Doc, Fault> {
        match d {
            Doc::Object(_) => Ok(tagged(Map::empty(), "logStreamDefault"@)),
            _ => Err(Fault::TypeMismatch(at)),
        }
    }

    fn encode(&self) -> (j: Json) {
        proof {
            reveal(<LogStreamDefault as Wire>::wire);
        }
        seal(Vec::new(), "logStreamDefault")
    }

    fn decode(j: &Json, at: &str) -> (r: Result<Self, DecodeError>) {
        proof {
            reveal(<LogStreamDefault as Wire>::wire);
            reveal(<LogStreamDefault as Wire>::parse);
        }
        let _ = members_of(j, at)?;
        Ok(LogStreamDefault {})
    }

    proof fn round_trip(&self, at: Seq<char>) {
        reveal(<LogStreamDefault as Wire>::wire);
        reveal(<LogStreamDefault as Wire>::parse);
    }
}

impl Tagged for LogStreamDefault {
    open spec fn known(tag: Seq<char>) -> bool {
        tag == "logStreamDefault"@
    }

    fn knows(tag: &str) -> (r: bool) {
        same_text(tag, "logStreamDefault")
    }

    proof fn tag_known(&self) {
        reveal(<LogStreamDefault as Wire>::wire);
        assert(tag_of(self.wire()) == Some("logStreamDefault"@));
        assert(Self::known("logStreamDefault"@));
    }
}

/// The log is written to a file
#[derive(Debug, Clone, PartialEq)]
pub struct LogStreamFile {
    /// Path to the file to where the internal TDLib log will be written
    pub path: String,
    /// The maximum size of the file to where the internal TDLib log is written before the file will
    /// be auto-rotated
    pub max_file_size: i64,
}

impl Wire for LogStreamFile {
    #[verifier::opaque]
    open spec fn wire(&self) -> Doc {
        tagged(
            Map::empty()
                .insert("path"@, self.path.wire())
                .insert("maxFileSize"@, self.max_file_size.wire()),
            "logStreamFile"@,
        )
    }

    #[verifier::opaque]
    open spec fn parse(d: Doc, at: Seq<char>) -> Result<Doc, Fault> {
        match d {
            Doc::Object(m) => {
                let path = field::<String>(m, "path"@);
                let max_file_size = field::<i64>(m, "maxFileSize"@);
                if path is Err {
                    path
                } else if max_file_size is Err {
                    max_file_size
                } else {
                    Ok(
                        tagged(
                            Map::empty()
                                .insert("path"@, path->Ok_0)
                                .insert("maxFileSize"@, max_file_size->Ok_0),
                            "logStreamFile"@,
                        ),
                    )
                }
            },
            _ => Err(Fault::TypeMismatch(at)),
        }
    }

    fn encode(&self) -> (j: Json) {
        proof {
            reveal(<LogStreamFile as Wire>::wire);
        }
        let mut members: Vec<Member> = Vec::new();
        put(&mut members, "path", self.path.encode());
        put(&mut members, "maxFileSize", self.max_file_size.encode());
        seal(members, "logStreamFile")
    }

    fn decode(j: &Json, at: &str) -> (r: Result<Self, DecodeError>) {
        proof {
            reveal(<LogStreamFile as Wire>::wire);
            reveal(<LogStreamFile as Wire>::parse);
        }
        let members = members_of(j, at)?;
        let path = read_field::<String>(members, "path")?;
        let max_file_size = read_field::<i64>(members, "maxFileSize")?;
        Ok(LogStreamFile { path, max_file_size })
    }

    proof fn round_trip(&self, at: Seq<char>) {
        reveal(<LogStreamFile as Wire>::wire);
        reveal(<LogStreamFile as Wire>::parse);
        reveal_strlit("@type");
        reveal_strlit("maxFileSize");
        reveal_strlit("path");
        assert("@type"@.len() == 5);
        assert("maxFileSize"@.len() == 11);
        assert("path"@.len() == 4);
        self.path.round_trip("path"@);
        self.max_file_size.round_trip("maxFileSize"@);
    }
}

impl Tagged for LogStreamFile {
    open spec fn known(tag: Seq<char>) -> bool {
        tag == "logStreamFile"@
    }

    fn knows(tag: &str) -> (r: bool) {
        same_text(tag, "logStreamFile")
    }

    proof fn tag_known(&self) {
        reveal(<LogStreamFile as Wire>::wire);
        assert(tag_of(self.wire()) == Some("logStreamFile"@));
        assert(Self::known("logStreamFile"@));
    }
}

/// The log is written nowhere
#[derive(Debug, Clone, PartialEq)]
pub struct LogStreamEmpty {}

impl Wire for LogStreamEmpty {
    #[verifier::opaque]
    open spec fn wire(&self) -> Doc {
        tagged(Map::empty(), "logStreamEmpty"@)
    }

    #[verifier::opaque]
    open spec fn parse(d: Doc, at: Seq<char>) -> Result<Doc, Fault> {
        match d {
            Doc::Object(_) => Ok(tagged(Map::empty(), "logStreamEmpty"@)),
            _ => Err(Fault::TypeMismatch(at)),
        }
    }

    fn encode(&self) -> (j: Json) {
        proof {
            reveal(<LogStreamEmpty as Wire>::wire);
        }
        seal(Vec::new(), "logStreamEmpty")
    }

    fn decode(j: &Json, at: &str) -> (r: Result<Self, DecodeError>) {
        proof {
            reveal(<LogStreamEmpty as Wire>::wire);
            reveal(<LogStreamEmpty as Wire>::parse);
        }
        let _ = members_of(j, at)?;
        Ok(LogStreamEmpty {})
    }

    proof fn round_trip(&self, at: Seq<char>) {
        reveal(<LogStreamEmpty as Wire>::wire);
        reveal(<LogStreamEmpty as Wire>::parse);
    }
}

impl Tagged for LogStreamEmpty {
    open spec fn known(tag: Seq<char>) -> bool {
        tag == "logStreamEmpty"@
    }

    fn knows(tag: &str) -> (r: bool) {
        same_text(tag, "logStreamEmpty")
    }

    proof fn tag_known(&self) {
        reveal(<LogStreamEmpty as Wire>::wire);
        assert(tag_of(self.wire()) == Some("logStreamEmpty"@));
        assert(Self::known("logStreamEmpty"@));
    }
}

/// Describes a stream to which TDLib internal log is written
#[derive(Debug, Clone, PartialEq)]
pub enum LogStream {
    LogStreamDefault(LogStreamDefault),
    LogStreamFile(LogStreamFile),
    LogStreamEmpty(LogStreamEmpty),
}

impl Wire for LogStream {
    #[verifier::opaque]
    open spec fn wire(&self) -> Doc {
        match self {
            Self::LogStreamDefault(p) => p.wire(),
            Self::LogStreamFile(p) => p.wire(),
            Self::LogStreamEmpty(p) => p.wire(),
        }
    }

    #[verifier::opaque]
    open spec fn parse(d: Doc, at: Seq<char>) -> Result<Doc, Fault> {
        match d {
            Doc::Object(_) => match tag_of(d) {
                Some(t) => if t == "logStreamDefault"@ {
                    LogStreamDefault::parse(d, at)
                } else if t == "logStreamFile"@ {
                    LogStreamFile::parse(d, at)
                } else if t == "logStreamEmpty"@ {
                    LogStreamEmpty::parse(d, at)
                } else {
                    Err(Fault::UnknownVariant(t))
                },
                None => Err(Fault::MissingDiscriminator),
            },
            _ => Err(Fault::TypeMismatch(at)),
        }
    }

    fn encode(&self) -> (j: Json) {
        proof {
            reveal(<LogStream as Wire>::wire);
        }
        match self {
            Self::LogStreamDefault(p) => p.encode(),
            Self::LogStreamFile(p) => p.encode(),
            Self::LogStreamEmpty(p) => p.encode(),
        }
    }

    fn decode(j: &Json, at: &str) -> (r: Result<Self, DecodeError>) {
        proof {
            reveal(<LogStream as Wire>::wire);
            reveal(<LogStream as Wire>::parse);
        }
        let members = members_of(j, at)?;
        let tag = discriminator(members)?;
        if same_text(tag, "logStreamDefault") {
            Ok(Self::LogStreamDefault(LogStreamDefault::decode(j, at)?))
        } else if same_text(tag, "logStreamFile") {
            Ok(Self::LogStreamFile(LogStreamFile::decode(j, at)?))
        } else if same_text(tag, "logStreamEmpty") {
            Ok(Self::LogStreamEmpty(LogStreamEmpty::decode(j, at)?))
        } else {
            Err(DecodeError::UnknownVariant(tag.to_owned()))
        }
    }

    proof fn round_trip(&self, at: Seq<char>) {
        reveal(<LogStream as Wire>::wire);
        reveal(<LogStream as Wire>::parse);
        reveal_strlit("logStreamDefault");
        reveal_strlit("logStreamEmpty");
        reveal_strlit("logStreamFile");
        assert("logStreamDefault"@.len() == 16);
        assert("logStreamEmpty"@.len() == 14);
        assert("logStreamFile"@.len() == 13);
        match self {
            Self::LogStreamDefault(p) => {
                p.tag_known();
                p.round_trip(at);
            },
            Self::LogStreamFile(p) => {
                p.tag_known();
                p.round_trip(at);
            },
            Self::LogStreamEmpty(p) => {
                p.tag_known();
                p.round_trip(at);
            },
        }
    }
}

impl Tagged for LogStream {
    open spec fn known(tag: Seq<char>) -> bool {
        ||| tag == "logStreamDefault"@
        ||| tag == "logStreamFile"@
        ||| tag == "logStreamEmpty"@
    }

    fn knows(tag: &str) -> (r: bool) {
        same_text(tag, "logStreamDefault")
            || same_text(tag, "logStreamFile")
            || same_text(tag, "logStreamEmpty")
    }

    proof fn tag_known(&self) {
        reveal(<LogStream as Wire>::wire);
        match self {
            Self::LogStreamDefault(p) => p.tag_known(),
            Self::LogStreamFile(p) => p.tag_known(),
            Self::LogStreamEmpty(p) => p.tag_known(),
        }
    }
}

impl Union for LogStream {
    proof fn unknown_rejected(d: Doc, at: Seq<char>) {
        reveal(<LogStream as Wire>::parse);
    }

    proof fn untagged_rejected(d: Doc, at: Seq<char>) {
        reveal(<LogStream as Wire>::parse);
    }
}

/// Contains a TDLib internal log verbosity level
#[derive(Debug, Clone, PartialEq)]
pub struct LogVerbosityLevel {
    /// Log verbosity level
    pub verbosity_level: i32,
}

impl Wire for LogVerbosityLevel {
    #[verifier::opaque]
    open spec fn wire(&self) -> Doc {
        tagged(
            Map::empty()
                .insert("verbosityLevel"@, self.verbosity_level.wire()),
            "logVerbosityLevel"@,
        )
    }

    #[verifier::opaque]
    open spec fn parse(d: Doc, at: Seq<char>) -> Result<Doc, Fault> {
        match d {
            Doc::Object(m) => {
                let verbosity_level = field::<i32>(m, "verbosityLevel"@);
                if verbosity_level is Err {
                    verbosity_level
                } else {
                    Ok(
                        tagged(
                            Map::empty()
                                .insert("verbosityLevel"@, verbosity_level->Ok_0),
                            "logVerbosityLevel"@,
                        ),
                    )
                }
            },
            _ => Err(Fault::TypeMismatch(at)),
        }
    }

    fn encode(&self) -> (j: Json) {
        proof {
            reveal(<LogVerbosityLevel as Wire>::wire);
        }
        let mut members: Vec<Member> = Vec::new();
        put(&mut members, "verbosityLevel", self.verbosity_level.encode());
        seal(members, "logVerbosityLevel")
    }

    fn decode(j: &Json, at: &str) -> (r: Result<Self, DecodeError>) {
        proof {
            reveal(<LogVerbosityLevel as Wire>::wire);
            reveal(<LogVerbosityLevel as Wire>::parse);
        }
        let members = members_of(j, at)?;
        let verbosity_level = read_field::<i32>(members, "verbosityLevel")?;
        Ok(LogVerbosityLevel { verbosity_level })
    }

    proof fn round_trip(&self, at: Seq<char>) {
        reveal(<LogVerbosityLevel as Wire>::wire);
        reveal(<LogVerbosityLevel as Wire>::parse);
        reveal_strlit("@type");
        reveal_strlit("verbosityLevel");
        assert("@type"@.len() == 5);
        assert("verbosityLevel"@.len() == 14);
        self.verbosity_level.round_trip("verbosityLevel"@);
    }
}

impl Tagged for LogVerbosityLevel {
    open spec fn known(tag: Seq<char>) -> bool {
        tag == "logVerbosityLevel"@
    }

    fn knows(tag: &str) -> (r: bool) {
        same_text(tag, "logVerbosityLevel")
    }

    proof fn tag_known(&self) {
        reveal(<LogVerbosityLevel as Wire>::wire);
        assert(tag_of(self.wire()) == Some("logVerbosityLevel"@));
        assert(Self::known("logVerbosityLevel"@));
    }
}

/// Contains a list of available TDLib internal log tags
#[derive(Debug, Clone, PartialEq)]
pub struct LogTags {
    /// List of log tags
    pub tags: Vec<String>,
}

impl Wire for LogTags {
    #[verifier::opaque]
    open spec fn wire(&self) -> Doc {
        tagged(
            Map::empty()
                .insert("tags"@, self.tags.wire()),
            "logTags"@,
        )
    }

    #[verifier::opaque]
    open spec fn parse(d: Doc, at: Seq<char>) -> Result<Doc, Fault> {
        match d {
            Doc::Object(m) => {
                let tags = field::<Vec<String>>(m, "tags"@);
                if tags is Err {
                    tags
                } else {
                    Ok(
                        tagged(
                            Map::empty()
                                .insert("tags"@, tags->Ok_0),
                            "logTags"@,
                        ),
                    )
                }
            },
            _ => Err(Fault::TypeMismatch(at)),
        }
    }

    fn encode(&self) -> (j: Json) {
        proof {
            reveal(<LogTags as Wire>::wire);
        }
        let mut members: Vec<Member> = Vec::new();
        put(&mut members, "tags", self.tags.encode());
        seal(members, "logTags")
    }

    fn decode(j: &Json, at: &str) -> (r: Result<Self, DecodeError>) {
        proof {
            reveal(<LogTags as Wire>::wire);
            reveal(<LogTags as Wire>::parse);
        }
        let members = members_of(j, at)?;
        let tags = read_field::<Vec<String>>(members, "tags")?;
        Ok(LogTags { tags })
    }

    proof fn round_trip(&self, at: Seq<char>) {
        reveal(<LogTags as Wire>::wire);
        reveal(<LogTags as Wire>::parse);
        reveal_strlit("@type");
        reveal_strlit("tags");
        assert("@type"@.len() == 5);
        assert("tags"@.len() == 4);
        self.tags.round_trip("tags"@);
    }
}

impl Tagged for LogTags {
    open spec fn known(tag: Seq<char>) -> bool {
        tag == "logTags"@
    }

    fn knows(tag: &str) -> (r: bool) {
        same_text(tag, "logTags")
    }

    proof fn tag_known(&self) {
        reveal(<LogTags as Wire>::wire);
        assert(tag_of(self.wire()) == Some("logTags"@));
        assert(Self::known("logTags"@));
    }
}

/// A simple object containing a number; for testing only
#[derive(Debug, Clone, PartialEq)]
pub struct TestInt {
    /// Number
    pub value: i32,
}

impl Wire for TestInt {
    #[verifier::opaque]
    open spec fn wire(&self) -> Doc {
        tagged(
            Map::empty()
                .insert("value"@, self.value.wire()),
            "testInt"@,
        )
    }

    #[verifier::opaque]
    open spec fn parse(d: Doc, at: Seq<char>) -> Result<Doc, Fault> {
        match d {
            Doc::Object(m) => {
                let value = field::<i32>(m, "value"@);
                if value is Err {
                    value
                } else {
                    Ok(
                        tagged(
                            Map::empty()
                                .insert("value"@, value->Ok_0),
                            "testInt"@,
                        ),
                    )
                }
            },
            _ => Err(Fault::TypeMismatch(at)),
        }
    }

    fn encode(&self) -> (j: Json) {
        proof {
            reveal(<TestInt as Wire>::wire);
        }
        let mut members: Vec<Member> = Vec::new();
        put(&mut members, "value", self.value.encode());
        seal(members, "testInt")
    }

    fn decode(j: &Json, at: &str) -> (r: Result<Self, DecodeError>) {
        proof {
            reveal(<TestInt as Wire>::wire);
            reveal(<TestInt as Wire>::parse);
        }
        let members = members_of(j, at)?;
        let value = read_field::<i32>(members, "value")?;
        Ok(TestInt { value })
    }

    proof fn round_trip(&self, at: Seq<char>) {
        reveal(<TestInt as Wire>::wire);
        reveal(<TestInt as Wire>::parse);
        reveal_strlit("@type");
        reveal_strlit("value");
        assert("@type"@.len() == 5 && "@type"@[0] == '@');
        assert("value"@.len() == 5 && "value"@[0] == 'v');
        self.value.round_trip("value"@);
    }
}

impl Tagged for TestInt {
    open spec fn known(tag: Seq<char>) -> bool {
        tag == "testInt"@
    }

    fn knows(tag: &str) -> (r: bool) {
        same_text(tag, "testInt")
    }

    proof fn tag_known(&self) {
        reveal(<TestInt as Wire>::wire);
        assert(tag_of(self.wire()) == Some("testInt"@));
        assert(Self::known("testInt"@));
    }
}

/// A simple object containing a string; for testing only
#[derive(Debug, Clone, PartialEq)]
pub struct TestString {
    /// String
    pub value: String,
}

impl Wire for TestString {
    #[verifier::opaque]
    open spec fn wire(&self) -> Doc {
        tagged(
            Map::empty()
                .insert("value"@, self.value.wire()),
            "testString"@,
        )
    }

    #[verifier::opaque]
    open spec fn parse(d: Doc, at: Seq<char>) -> Result<Doc, Fault> {
        match d {
            Doc::Object(m) => {
                let value = field::<String>(m, "value"@);
                if value is Err {
                    value
                } else {
                    Ok(
                        tagged(
                            Map::empty()
                                .insert("value"@, value->Ok_0),
                            "testString"@,
                        ),
                    )
                }
            },
            _ => Err(Fault::TypeMismatch(at)),
        }
    }

    fn encode(&self) -> (j: Json) {
        proof {
            reveal(<TestString as Wire>::wire);
        }
        let mut members: Vec<Member> = Vec::new();
        put(&mut members, "value", self.value.encode());
        seal(members, "testString")
    }

    fn decode(j: &Json, at: &str) -> (r: Result<Self, DecodeError>) {
        proof {
            reveal(<TestString as Wire>::wire);
            reveal(<TestString as Wire>::parse);
        }
        let members = members_of(j, at)?;
        let value = read_field::<String>(members, "value")?;
        Ok(TestString { value })
    }

    proof fn round_trip(&self, at: Seq<char>) {
        reveal(<TestString as Wire>::wire);
        reveal(<TestString as Wire>::parse);
        reveal_strlit("@type");
        reveal_strlit("value");
        assert("@type"@.len() == 5 && "@type"@[0] == '@');
        assert("value"@.len() == 5 && "value"@[0] == 'v');
        self.value.round_trip("value"@);
    }
}

impl Tagged for TestString {
    open spec fn known(tag: Seq<char>) -> bool {
        tag == "testString"@
    }

    fn knows(tag: &str) -> (r: bool) {
        same_text(tag, "testString")
    }

    proof fn tag_known(&self) {
        reveal(<TestString as Wire>::wire);
        assert(tag_of(self.wire()) == Some("testString"@));
        assert(Self::known("testString"@));
    }
}

/// A simple object containing a sequence of bytes; for testing only
#[derive(Debug, Clone, PartialEq)]
pub struct TestBytes {
    /// Bytes
    pub value: String,
}

impl Wire for TestBytes {
    #[verifier::opaque]
    open spec fn wire(&self) -> Doc {
        tagged(
            Map::empty()
                .insert("value"@, self.value.wire()),
            "testBytes"@,
        )
    }

    #[verifier::opaque]
    open spec fn parse(d: Doc, at: Seq<char>) -> Result<Doc, Fault> {
        match d {
            Doc::Object(m) => {
                let value = field::<String>(m, "value"@);
                if value is Err {
                    value
                } else {
                    Ok(
                        tagged(
                            Map::empty()
                                .insert("value"@, value->Ok_0),
                            "testBytes"@,
                        ),
                    )
                }
            },
            _ => Err(Fault::TypeMismatch(at)),
        }
    }

    fn encode(&self) -> (j: Json) {
        proof {
            reveal(<TestBytes as Wire>::wire);
        }
        let mut members: Vec<Member> = Vec::new();
        put(&mut members, "value", self.value.encode());
        seal(members, "testBytes")
    }

    fn decode(j: &Json, at: &str) -> (r: Result<Self, DecodeError>) {
        proof {
            reveal(<TestBytes as Wire>::wire);
            reveal(<TestBytes as Wire>::parse);
        }
        let members = members_of(j, at)?;
        let value = read_field::<String>(members, "value")?;
        Ok(TestBytes { value })
    }

    proof fn round_trip(&self, at: Seq<char>) {
        reveal(<TestBytes as Wire>::wire);
        reveal(<TestBytes as Wire>::parse);
        reveal_strlit("@type");
        reveal_strlit("value");
        assert("@type"@.len() == 5 && "@type"@[0] == '@');
        assert("value"@.len() == 5 && "value"@[0] == 'v');
        self.value.round_trip("value"@);
    }
}

impl Tagged for TestBytes {
    open spec fn known(tag: Seq<char>) -> bool {
        tag == "testBytes"@
    }

    fn knows(tag: &str) -> (r: bool) {
        same_text(tag, "testBytes")
    }

    proof fn tag_known(&self) {
        reveal(<TestBytes as Wire>::wire);
        assert(tag_of(self.wire()) == Some("testBytes"@));
        assert(Self::known("testBytes"@));
    }
}

/// A simple object containing a vector of numbers; for testing only
#[derive(Debug, Clone, PartialEq)]
pub struct TestVectorInt {
    /// Vector of numbers
    pub value: Vec<i32>,
}

impl Wire for TestVectorInt {
    #[verifier::opaque]
    open spec fn wire(&self) -> Doc {
        tagged(
            Map::empty()
                .insert("value"@, self.value.wire()),
            "testVectorInt"@,
        )
    }

    #[verifier::opaque]
    open spec fn parse(d: Doc, at: Seq<char>) -> Result<Doc, Fault> {
        match d {
            Doc::Object(m) => {
                let value = field::<Vec<i32>>(m, "value"@);
                if value is Err {
                    value
                } else {
                    Ok(
                        tagged(
                            Map::empty()
                                .insert("value"@, value->Ok_0),
                            "testVectorInt"@,
                        ),
                    )
                }
            },
            _ => Err(Fault::TypeMismatch(at)),
        }
    }

    fn encode(&self) -> (j: Json) {
        proof {
            reveal(<TestVectorInt as Wire>::wire);
        }
        let mut members: Vec<Member> = Vec::new();
        put(&mut members, "value", self.value.encode());
        seal(members, "testVectorInt")
    }

    fn decode(j: &Json, at: &str) -> (r: Result<Self, DecodeError>) {
        proof {
            reveal(<TestVectorInt as Wire>::wire);
            reveal(<TestVectorInt as Wire>::parse);
        }
        let members = members_of(j, at)?;
        let value = read_field::<Vec<i32>>(members, "value")?;
        Ok(TestVectorInt { value })
    }

    proof fn round_trip(&self, at: Seq<char>) {
        reveal(<TestVectorInt as Wire>::wire);
        reveal(<TestVectorInt as Wire>::parse);
        reveal_strlit("@type");
        reveal_strlit("value");
        assert("@type"@.len() == 5 && "@type"@[0] == '@');
        assert("value"@.len() == 5 && "value"@[0] == 'v');
        self.value.round_trip("value"@);
    }
}

impl Tagged for TestVectorInt {
    open spec fn known(tag: Seq<char>) -> bool {
        tag == "testVectorInt"@
    }

    fn knows(tag: &str) -> (r: bool) {
        same_text(tag, "testVectorInt")
    }

    proof fn tag_known(&self) {
        reveal(<TestVectorInt as Wire>::wire);
        assert(tag_of(self.wire()) == Some("testVectorInt"@));
        assert(Self::known("testVectorInt"@));
    }
}

/// A simple object containing a vector of objects that hold a number; for testing only
#[derive(Debug, Clone, PartialEq)]
pub struct TestVectorIntObject {
    /// Vector of objects
    pub value: Vec<TestInt>,
}

impl Wire for TestVectorIntObject {
    #[verifier::opaque]
    open spec fn wire(&self) -> Doc {
        tagged(
            Map::empty()
                .insert("value"@, self.value.wire()),
            "testVectorIntObject"@,
        )
    }

    #[verifier::opaque]
    open spec fn parse(d: Doc, at: Seq<char>) -> Result<Doc, Fault> {
        match d {
            Doc::Object(m) => {
                let value = field::<Vec<TestInt>>(m, "value"@);
                if value is Err {
                    value
                } else {
                    Ok(
                        tagged(
                            Map::empty()
                                .insert("value"@, value->Ok_0),
                            "testVectorIntObject"@,
                        ),
                    )
                }
            },
            _ => Err(Fault::TypeMismatch(at)),
        }
    }

    fn encode(&self) -> (j: Json) {
        proof {
            reveal(<TestVectorIntObject as Wire>::wire);
        }
        let mut members: Vec<Member> = Vec::new();
        put(&mut members, "value", self.value.encode());
        seal(members, "testVectorIntObject")
    }

    fn decode(j: &Json, at: &str) -> (r: Result<Self, DecodeError>) {
        proof {
            reveal(<TestVectorIntObject as Wire>::wire);
            reveal(<TestVectorIntObject as Wire>::parse);
        }
        let members = members_of(j, at)?;
        let value = read_field::<Vec<TestInt>>(members, "value")?;
        Ok(TestVectorIntObject { value })
    }

    proof fn round_trip(&self, at: Seq<char>) {
        reveal(<TestVectorIntObject as Wire>::wire);
        reveal(<TestVectorIntObject as Wire>::parse);
        reveal_strlit("@type");
        reveal_strlit("value");
        assert("@type"@.len() == 5 && "@type"@[0] == '@');
        assert("value"@.len() == 5 && "value"@[0] == 'v');
        self.value.round_trip("value"@);
    }
}

impl Tagged for TestVectorIntObject {
    open spec fn known(tag: Seq<char>) -> bool {
        tag == "testVectorIntObject"@
    }

    fn knows(tag: &str) -> (r: bool) {
        same_text(tag, "testVectorIntObject")
    }

    proof fn tag_known(&self) {
        reveal(<TestVectorIntObject as Wire>::wire);
        assert(tag_of(self.wire()) == Some("testVectorIntObject"@));
        assert(Self::known("testVectorIntObject"@));
    }
}

/// A simple object containing a vector of strings; for testing only
#[derive(Debug, Clone, PartialEq)]
pub struct TestVectorString {
    /// Vector of strings
    pub value: Vec<String>,
}

impl Wire for TestVectorString {
    #[verifier::opaque]
    open spec fn wire(&self) -> Doc {
        tagged(
            Map::empty()
                .insert("value"@, self.value.wire()),
            "testVectorString"@,
        )
    }

    #[verifier::opaque]
    open spec fn parse(d: Doc, at: Seq<char>) -> Result<Doc, Fault> {
        match d {
            Doc::Object(m) => {
                let value = field::<Vec<String>>(m, "value"@);
                if value is Err {
                    value
                } else {
                    Ok(
                        tagged(
                            Map::empty()
                                .insert("value"@, value->Ok_0),
                            "testVectorString"@,
                        ),
                    )
                }
            },
            _ => Err(Fault::TypeMismatch(at)),
        }
    }

    fn encode(&self) -> (j: Json) {
        proof {
            reveal(<TestVectorString as Wire>::wire);
        }
        let mut members: Vec<Member> = Vec::new();
        put(&mut members, "value", self.value.encode());
        seal(members, "testVectorString")
    }

    fn decode(j: &Json, at: &str) -> (r: Result<Self, DecodeError>) {
        proof {
            reveal(<TestVectorString as Wire>::wire);
            reveal(<TestVectorString as Wire>::parse);
        }
        let members = members_of(j, at)?;
        let value = read_field::<Vec<String>>(members, "value")?;
        Ok(TestVectorString { value })
    }

    proof fn round_trip(&self, at: Seq<char>) {
        reveal(<TestVectorString as Wire>::wire);
        reveal(<TestVectorString as Wire>::parse);
        reveal_strlit("@type");
        reveal_strlit("value");
        assert("@type"@.len() == 5 && "@type"@[0] == '@');
        assert("value"@.len() == 5 && "value"@[0] == 'v');
        self.value.round_trip("value"@);
    }
}

impl Tagged for TestVectorString {
    open spec fn known(tag: Seq<char>) -> bool {
        tag == "testVectorString"@
    }

    fn knows(tag: &str) -> (r: bool) {
        same_text(tag, "testVectorString")
    }

    proof fn tag_known(&self) {
        reveal(<TestVectorString as Wire>::wire);
        assert(tag_of(self.wire()) == Some("testVectorString"@));
        assert(Self::known("testVectorString"@));
    }
}

/// A simple object containing a vector of objects that hold a string; for testing only
#[derive(Debug, Clone, PartialEq)]
pub struct TestVectorStringObject {
    /// Vector of objects
    pub value: Vec<TestString>,
}

impl Wire for TestVectorStringObject {
    #[verifier::opaque]
    open spec fn wire(&self) -> Doc {
        tagged(
            Map::empty()
                .insert("value"@, self.value.wire()),
            "testVectorStringObject"@,
        )
    }

    #[verifier::opaque]
    open spec fn parse(d: Doc, at: Seq<char>) -> Result<Doc, Fault> {
        match d {
            Doc::Object(m) => {
                let value = field::<Vec<TestString>>(m, "value"@);
                if value is Err {
                    value
                } else {
                    Ok(
                        tagged(
                            Map::empty()
                                .insert("value"@, value->Ok_0),
                            "testVectorStringObject"@,
                        ),
                    )
                }
            },
            _ => Err(Fault::TypeMismatch(at)),
        }
    }

    fn encode(&self) -> (j: Json) {
        proof {
            reveal(<TestVectorStringObject as Wire>::wire);
        }
        let mut members: Vec<Member> = Vec::new();
        put(&mut members, "value", self.value.encode());
        seal(members, "testVectorStringObject")
    }

    fn decode(j: &Json, at: &str) -> (r: Result<Self, DecodeError>) {
        proof {
            reveal(<TestVectorStringObject as Wire>::wire);
            reveal(<TestVectorStringObject as Wire>::parse);
        }
        let members = members_of(j, at)?;
        let value = read_field::<Vec<TestString>>(members, "value")?;
        Ok(TestVectorStringObject { value })
    }

    proof fn round_trip(&self, at: Seq<char>) {
        reveal(<TestVectorStringObject as Wire>::wire);
        reveal(<TestVectorStringObject as Wire>::parse);
        reveal_strlit("@type");
        reveal_strlit("value");
        assert("@type"@.len() == 5 && "@type"@[0] == '@');
        assert("value"@.len() == 5 && "value"@[0] == 'v');
        self.value.round_trip("value"@);
    }
}

impl Tagged for TestVectorStringObject {
    open spec fn known(tag: Seq<char>) -> bool {
        tag == "testVectorStringObject"@
    }

    fn knows(tag: &str) -> (r: bool) {
        same_text(tag, "testVectorStringObject")
    }

    proof fn tag_known(&self) {
        reveal(<TestVectorStringObject as Wire>::wire);
        assert(tag_of(self.wire()) == Some("testVectorStringObject"@));
        assert(Self::known("testVectorStringObject"@));
    }
}

} // verus!
