//! The codec: how typed values become JSON documents and back.
//!
//! Every type of the protocol implements [`Wire`]. Its contracts are stated
//! over [`Doc`], the mathematical model of a JSON document: `wire` gives the
//! canonical document of a value, and `parse` says what decoding any
//! document yields, as the canonical document of the decoded value or as
//! the fault that decoding stops on.
//!
//! Policies that the codec fixes:
//! - A required field that is absent is a `MissingField`. An optional field
//!   that is absent or `null` decodes to `None`, and `None` is written as an
//!   explicit `null`.
//! - Keys that a type does not declare are ignored.
//! - A field that the schema marks as wide is written as decimal text and
//!   read from decimal text; every other integer is a JSON number.

use vstd::prelude::*;
use crate::error::{DecodeError, Fault};
use crate::json::{docs_of, map_of, tag_of, tagged, Doc, Json, Member, Number};
use crate::num::{
    from_str_to_t, lemma_text_round_trip, text_of_wide, to_decimal, wide_of_text, NumError,
};
use crate::text::same_text;

verus! {

/// A type that has a wire form.
pub trait Wire: Sized {
    /// The canonical document of a value.
    spec fn wire(&self) -> Doc;

    /// What decoding the document `d`, found at the place named `at`,
    /// yields: the canonical document of the decoded value, or the fault.
    spec fn parse(d: Doc, at: Seq<char>) -> Result<Doc, Fault>;

    fn encode(&self) -> (j: Json)
        ensures
            j@ == self.wire(),
    ;

    /// Decodes the value found at the place named `at`; the name is what a
    /// `TypeMismatch` reports.
    fn decode(j: &Json, at: &str) -> (r: Result<Self, DecodeError>)
        ensures
            match r {
                Ok(v) => Self::parse(j@, at@) == Ok::<Doc, Fault>(v.wire()),
                Err(e) => Self::parse(j@, at@) == Err::<Doc, Fault>(e@),
            },
    ;

    /// Decoding what a value encodes to gives the value back.
    proof fn round_trip(&self, at: Seq<char>)
        ensures
            Self::parse(self.wire(), at) == Ok::<Doc, Fault>(self.wire()),
    ;
}

/// A type whose values travel as objects that carry a discriminator.
pub trait Tagged: Wire {
    /// Whether `tag` is one of the discriminators of this type.
    spec fn known(tag: Seq<char>) -> bool;

    fn knows(tag: &str) -> (r: bool)
        ensures
            r == Self::known(tag@),
    ;

    /// The document of every value carries a discriminator of the type.
    proof fn tag_known(&self)
        ensures
            tag_of(self.wire()) is Some,
            Self::known(tag_of(self.wire())->Some_0),
    ;
}

/// A union: a closed set of variants, told apart by the discriminator alone.
pub trait Union: Tagged {
    /// An object whose discriminator the union does not know is rejected
    /// with that discriminator, whatever else the object holds.
    proof fn unknown_rejected(d: Doc, at: Seq<char>)
        requires
            tag_of(d) matches Some(t) && !Self::known(t),
        ensures
            tag_of(d) matches Some(t) && Self::parse(d, at) == Err::<Doc, Fault>(
                Fault::UnknownVariant(t),
            ),
    ;

    /// An object without a discriminator is rejected as such.
    proof fn untagged_rejected(d: Doc, at: Seq<char>)
        requires
            d is Object,
            tag_of(d) is None,
        ensures
            Self::parse(d, at) == Err::<Doc, Fault>(Fault::MissingDiscriminator),
    ;
}

impl Wire for bool {
    open spec fn wire(&self) -> Doc {
        Doc::Bool(*self)
    }

    open spec fn parse(d: Doc, at: Seq<char>) -> Result<Doc, Fault> {
        match d {
            Doc::Bool(_) => Ok(d),
            _ => Err(Fault::TypeMismatch(at)),
        }
    }

    fn encode(&self) -> (j: Json) {
        Json::Bool(*self)
    }

    fn decode(j: &Json, at: &str) -> (r: Result<Self, DecodeError>) {
        match j {
            Json::Bool(b) => Ok(*b),
            _ => Err(DecodeError::TypeMismatch(at.to_owned())),
        }
    }

    proof fn round_trip(&self, at: Seq<char>) {
    }
}

impl Wire for i32 {
    open spec fn wire(&self) -> Doc {
        Doc::Int(*self as int)
    }

    open spec fn parse(d: Doc, at: Seq<char>) -> Result<Doc, Fault> {
        match d {
            Doc::Int(n) if i32::MIN <= n <= i32::MAX => Ok(d),
            _ => Err(Fault::TypeMismatch(at)),
        }
    }

    fn encode(&self) -> (j: Json) {
        Json::Int(*self as i64)
    }

    fn decode(j: &Json, at: &str) -> (r: Result<Self, DecodeError>) {
        match j {
            Json::Int(n) => {
                if -2147483648 <= *n && *n <= 2147483647 {
                    Ok(*n as i32)
                } else {
                    Err(DecodeError::TypeMismatch(at.to_owned()))
                }
            },
            _ => Err(DecodeError::TypeMismatch(at.to_owned())),
        }
    }

    proof fn round_trip(&self, at: Seq<char>) {
    }
}

impl Wire for i64 {
    open spec fn wire(&self) -> Doc {
        Doc::Int(*self as int)
    }

    open spec fn parse(d: Doc, at: Seq<char>) -> Result<Doc, Fault> {
        match d {
            Doc::Int(n) if i64::MIN <= n <= i64::MAX => Ok(d),
            _ => Err(Fault::TypeMismatch(at)),
        }
    }

    fn encode(&self) -> (j: Json) {
        Json::Int(*self)
    }

    fn decode(j: &Json, at: &str) -> (r: Result<Self, DecodeError>) {
        match j {
            Json::Int(n) => Ok(*n),
            _ => Err(DecodeError::TypeMismatch(at.to_owned())),
        }
    }

    proof fn round_trip(&self, at: Seq<char>) {
    }
}

impl Wire for Number {
    open spec fn wire(&self) -> Doc {
        match self {
            Number::Int(n) => Doc::Int(*n as int),
            Number::Real(bits) => Doc::Real(*bits),
        }
    }

    open spec fn parse(d: Doc, at: Seq<char>) -> Result<Doc, Fault> {
        match d {
            Doc::Int(n) if i64::MIN <= n <= i64::MAX => Ok(d),
            Doc::Real(_) => Ok(d),
            _ => Err(Fault::TypeMismatch(at)),
        }
    }

    fn encode(&self) -> (j: Json) {
        match self {
            Number::Int(n) => Json::Int(*n),
            Number::Real(bits) => Json::Real(*bits),
        }
    }

    fn decode(j: &Json, at: &str) -> (r: Result<Self, DecodeError>) {
        match j {
            Json::Int(n) => Ok(Number::Int(*n)),
            Json::Real(bits) => Ok(Number::Real(*bits)),
            _ => Err(DecodeError::TypeMismatch(at.to_owned())),
        }
    }

    proof fn round_trip(&self, at: Seq<char>) {
    }
}

impl Wire for String {
    open spec fn wire(&self) -> Doc {
        Doc::Text(self@)
    }

    open spec fn parse(d: Doc, at: Seq<char>) -> Result<Doc, Fault> {
        match d {
            Doc::Text(_) => Ok(d),
            _ => Err(Fault::TypeMismatch(at)),
        }
    }

    fn encode(&self) -> (j: Json) {
        Json::Text(self.clone())
    }

    fn decode(j: &Json, at: &str) -> (r: Result<Self, DecodeError>) {
        match j {
            Json::Text(s) => Ok(s.clone()),
            _ => Err(DecodeError::TypeMismatch(at.to_owned())),
        }
    }

    proof fn round_trip(&self, at: Seq<char>) {
    }
}

impl<T: Wire> Wire for Box<T> {
    open spec fn wire(&self) -> Doc {
        (**self).wire()
    }

    open spec fn parse(d: Doc, at: Seq<char>) -> Result<Doc, Fault> {
        T::parse(d, at)
    }

    fn encode(&self) -> (j: Json) {
        (**self).encode()
    }

    fn decode(j: &Json, at: &str) -> (r: Result<Self, DecodeError>) {
        match T::decode(j, at) {
            Ok(v) => Ok(Box::new(v)),
            Err(e) => Err(e),
        }
    }

    proof fn round_trip(&self, at: Seq<char>) {
        (**self).round_trip(at);
    }
}

/// `None` is `null`; a value that is there is written as itself.
impl<T: Wire> Wire for Option<T> {
    open spec fn wire(&self) -> Doc {
        match self {
            Some(v) => v.wire(),
            None => Doc::Null,
        }
    }

    open spec fn parse(d: Doc, at: Seq<char>) -> Result<Doc, Fault> {
        match d {
            Doc::Null => Ok(Doc::Null),
            _ => T::parse(d, at),
        }
    }

    fn encode(&self) -> (j: Json) {
        match self {
            Some(v) => v.encode(),
            None => Json::Null,
        }
    }

    fn decode(j: &Json, at: &str) -> (r: Result<Self, DecodeError>) {
        match j {
            Json::Null => Ok(None),
            _ => match T::decode(j, at) {
                Ok(v) => Ok(Some(v)),
                Err(e) => Err(e),
            },
        }
    }

    proof fn round_trip(&self, at: Seq<char>) {
        match self {
            Some(v) => v.round_trip(at),
            None => {},
        }
    }
}

/// The canonical documents of the items of a list.
pub open spec fn wire_items<T: Wire>(items: Seq<T>) -> Seq<Doc> {
    Seq::new(items.len(), |i: int| items[i].wire())
}

/// What decoding the items of a list yields: the canonical documents of
/// all of them, or the fault of the first item that has one.
pub open spec fn parse_items<T: Wire>(items: Seq<Doc>, at: Seq<char>) -> Result<Seq<Doc>, Fault>
    decreases items.len(),
{
    if items.len() == 0 {
        Ok(Seq::empty())
    } else {
        match parse_items::<T>(items.drop_last(), at) {
            Err(e) => Err(e),
            Ok(front) => match T::parse(items.last(), at) {
                Err(e) => Err(e),
                Ok(c) => Ok(front.push(c)),
            },
        }
    }
}

proof fn lemma_parse_items_step<T: Wire>(items: Seq<Doc>, i: int, at: Seq<char>)
    requires
        0 <= i < items.len(),
    ensures
        parse_items::<T>(items.take(i + 1), at) == match parse_items::<T>(items.take(i), at) {
            Err(e) => Err::<Seq<Doc>, Fault>(e),
            Ok(front) => match T::parse(items[i], at) {
                Err(e) => Err(e),
                Ok(c) => Ok(front.push(c)),
            },
        },
{
    assert(items.take(i + 1).drop_last() =~= items.take(i));
}

proof fn lemma_parse_items_fault<T: Wire>(items: Seq<Doc>, i: int, at: Seq<char>)
    requires
        0 <= i <= items.len(),
        parse_items::<T>(items.take(i), at) is Err,
    ensures
        parse_items::<T>(items, at) == parse_items::<T>(items.take(i), at),
    decreases items.len() - i,
{
    if i < items.len() {
        lemma_parse_items_step::<T>(items, i, at);
        lemma_parse_items_fault::<T>(items, i + 1, at);
    } else {
        assert(items.take(i) =~= items);
    }
}

proof fn lemma_parse_items_round_trip<T: Wire>(items: Seq<T>, at: Seq<char>)
    ensures
        parse_items::<T>(wire_items(items), at) == Ok::<Seq<Doc>, Fault>(wire_items(items)),
    decreases items.len(),
{
    let docs = wire_items(items);
    if items.len() == 0 {
        assert(docs =~= Seq::<Doc>::empty());
    } else {
        lemma_parse_items_round_trip::<T>(items.drop_last(), at);
        assert(docs.drop_last() =~= wire_items(items.drop_last()));
        items.last().round_trip(at);
        assert(docs.drop_last().push(docs.last()) =~= docs);
    }
}

impl<T: Wire> Wire for Vec<T> {
    open spec fn wire(&self) -> Doc {
        Doc::List(wire_items(self@))
    }

    open spec fn parse(d: Doc, at: Seq<char>) -> Result<Doc, Fault> {
        match d {
            Doc::List(items) => match parse_items::<T>(items, at) {
                Ok(docs) => Ok(Doc::List(docs)),
                Err(e) => Err(e),
            },
            _ => Err(Fault::TypeMismatch(at)),
        }
    }

    fn encode(&self) -> (j: Json) {
        let mut out: Vec<Json> = Vec::new();
        let mut i: usize = 0;
        while i < self.len()
            invariant
                i <= self.len(),
                out.len() == i,
                forall|k: int| 0 <= k < i ==> out[k]@ == self[k].wire(),
            decreases self.len() - i,
        {
            out.push(self[i].encode());
            i += 1;
        }
        assert(docs_of(out@) =~= wire_items(self@));
        Json::List(out)
    }

    fn decode(j: &Json, at: &str) -> (r: Result<Self, DecodeError>) {
        match j {
            Json::List(items) => {
                let mut out: Vec<T> = Vec::new();
                let mut i: usize = 0;
                let ghost docs = docs_of(items@);
                assert(docs.take(0) =~= Seq::<Doc>::empty());
                assert(wire_items(out@) =~= Seq::<Doc>::empty());
                while i < items.len()
                    invariant
                        i <= items.len(),
                        docs == docs_of(items@),
                        j@ == Doc::List(docs),
                        parse_items::<T>(docs.take(i as int), at@) == Ok::<Seq<Doc>, Fault>(
                            wire_items(out@),
                        ),
                    decreases items.len() - i,
                {
                    proof {
                        lemma_parse_items_step::<T>(docs, i as int, at@);
                        assert(docs[i as int] == items[i as int]@);
                    }
                    let ghost before = out@;
                    match T::decode(&items[i], at) {
                        Ok(v) => {
                            out.push(v);
                            assert(wire_items(out@) =~= wire_items(before).push(v.wire()));
                        },
                        Err(e) => {
                            proof {
                                lemma_parse_items_fault::<T>(docs, i + 1, at@);
                            }
                            return Err(e);
                        },
                    }
                    i += 1;
                }
                assert(docs.take(i as int) =~= docs);
                Ok(out)
            },
            _ => Err(DecodeError::TypeMismatch(at.to_owned())),
        }
    }

    proof fn round_trip(&self, at: Seq<char>) {
        lemma_parse_items_round_trip::<T>(self@, at);
    }
}

/// What reading the required field `key` of an object yields.
pub open spec fn field<T: Wire>(m: Map<Seq<char>, Doc>, key: Seq<char>) -> Result<Doc, Fault> {
    if m.contains_key(key) {
        T::parse(m[key], key)
    } else {
        Err(Fault::MissingField(key))
    }
}

/// What reading the optional field `key` of an object yields: an absent
/// field is the same as a `null`.
pub open spec fn optional_field<T: Wire>(m: Map<Seq<char>, Doc>, key: Seq<char>) -> Result<
    Doc,
    Fault,
> {
    if m.contains_key(key) {
        Option::<T>::parse(m[key], key)
    } else {
        Ok(Doc::Null)
    }
}

/// The document of a wide integer: its canonical decimal text.
pub open spec fn wide_doc(n: i64) -> Doc {
    Doc::Text(text_of_wide(n as int))
}

/// What reading a wide integer from a document yields.
pub open spec fn parse_wide(d: Doc, at: Seq<char>) -> Result<Doc, Fault> {
    match d {
        Doc::Text(s) => match wide_of_text(s) {
            Ok(n) => Ok(wide_doc(n)),
            Err(NumError::ParseError) => Err(Fault::ParseError(at)),
            Err(NumError::Overflow) => Err(Fault::NumericOverflow(at)),
        },
        _ => Err(Fault::TypeMismatch(at)),
    }
}

/// What reading the required wide-integer field `key` of an object yields.
pub open spec fn wide_field(m: Map<Seq<char>, Doc>, key: Seq<char>) -> Result<Doc, Fault> {
    if m.contains_key(key) {
        parse_wide(m[key], key)
    } else {
        Err(Fault::MissingField(key))
    }
}

proof fn lemma_last_counts(members: Seq<Member>, i: int, key: Seq<char>)
    requires
        0 <= i < members.len(),
        members[i].key@ == key,
        forall|k: int| i < k < members.len() ==> members[k].key@ != key,
    ensures
        map_of(members).contains_key(key),
        map_of(members)[key] == members[i].value@,
    decreases members.len(),
{
    if i < members.len() - 1 {
        lemma_last_counts(members.drop_last(), i, key);
    }
}

proof fn lemma_absent(members: Seq<Member>, key: Seq<char>)
    requires
        forall|k: int| 0 <= k < members.len() ==> members[k].key@ != key,
    ensures
        !map_of(members).contains_key(key),
    decreases members.len(),
{
    if members.len() > 0 {
        lemma_absent(members.drop_last(), key);
    }
}

/// The value that an object holds under `key`, if it holds one. The value
/// is a part of the object, and so smaller than it.
pub fn find<'a>(members: &'a Vec<Member>, key: &str) -> (r: Option<&'a Json>)
    ensures
        match r {
            Some(v) => map_of(members@).contains_key(key@) && map_of(members@)[key@] == v@
                && decreases_to!(members => v),
            None => !map_of(members@).contains_key(key@),
        },
{
    let mut i: usize = members.len();
    while i > 0
        invariant
            i <= members.len(),
            forall|k: int| i <= k < members.len() ==> members[k].key@ != key@,
        decreases i,
    {
        i -= 1;
        if same_text(members[i].key.as_str(), key) {
            proof {
                lemma_last_counts(members@, i as int, key@);
                assert(decreases_to!(members => members[i as int]));
            }
            return Some(&members[i].value);
        }
    }
    proof {
        lemma_absent(members@, key@);
    }
    None
}

/// The members of a document that is an object; any other document is a
/// `TypeMismatch` at the place named `at`.
pub fn members_of<'a>(j: &'a Json, at: &str) -> (r: Result<&'a Vec<Member>, DecodeError>)
    ensures
        match r {
            Ok(members) => j@ == Doc::Object(map_of(members@)) && decreases_to!(j => members),
            Err(e) => !(j@ is Object) && e@ == Fault::TypeMismatch(at@),
        },
{
    match j {
        Json::Object(members) => Ok(members),
        _ => Err(DecodeError::TypeMismatch(at.to_owned())),
    }
}

/// The discriminator of an object.
pub fn discriminator<'a>(members: &'a Vec<Member>) -> (r: Result<&'a str, DecodeError>)
    ensures
        match r {
            Ok(t) => tag_of(Doc::Object(map_of(members@))) == Some(t@),
            Err(e) => tag_of(Doc::Object(map_of(members@))) is None && e@
                == Fault::MissingDiscriminator,
        },
{
    match find(members, "@type") {
        Some(Json::Text(t)) => Ok(t.as_str()),
        _ => Err(DecodeError::MissingDiscriminator),
    }
}

/// Whether a document is an object whose discriminator is `tag`.
pub fn has_tag(j: &Json, tag: &str) -> (r: bool)
    ensures
        r == (tag_of(j@) == Some(tag@)),
{
    match j {
        Json::Object(members) => match discriminator(members) {
            Ok(t) => same_text(t, tag),
            Err(_) => false,
        },
        _ => false,
    }
}

/// Reads a required field.
pub fn read_field<T: Wire>(members: &Vec<Member>, key: &str) -> (r: Result<T, DecodeError>)
    ensures
        match r {
            Ok(v) => field::<T>(map_of(members@), key@) == Ok::<Doc, Fault>(v.wire()),
            Err(e) => field::<T>(map_of(members@), key@) == Err::<Doc, Fault>(e@),
        },
{
    match find(members, key) {
        Some(v) => T::decode(v, key),
        None => Err(DecodeError::MissingField(key.to_owned())),
    }
}

/// Reads an optional field.
pub fn read_optional<T: Wire>(members: &Vec<Member>, key: &str) -> (r: Result<
    Option<T>,
    DecodeError,
>)
    ensures
        match r {
            Ok(v) => optional_field::<T>(map_of(members@), key@) == Ok::<Doc, Fault>(v.wire()),
            Err(e) => optional_field::<T>(map_of(members@), key@) == Err::<Doc, Fault>(e@),
        },
{
    match find(members, key) {
        Some(v) => Option::<T>::decode(v, key),
        None => Ok(None),
    }
}

/// Decodes a wide integer from its document.
pub fn decode_wide(j: &Json, at: &str) -> (r: Result<i64, DecodeError>)
    ensures
        match r {
            Ok(n) => parse_wide(j@, at@) == Ok::<Doc, Fault>(wide_doc(n)),
            Err(e) => parse_wide(j@, at@) == Err::<Doc, Fault>(e@),
        },
{
    match j {
        Json::Text(s) => match from_str_to_t(s.as_str()) {
            Ok(n) => Ok(n),
            Err(NumError::ParseError) => Err(DecodeError::ParseError(at.to_owned())),
            Err(NumError::Overflow) => Err(DecodeError::NumericOverflow(at.to_owned())),
        },
        _ => Err(DecodeError::TypeMismatch(at.to_owned())),
    }
}

/// Encodes a wide integer as its document.
pub fn encode_wide(n: i64) -> (j: Json)
    ensures
        j@ == wide_doc(n),
{
    Json::Text(to_decimal(n))
}

/// Reads a required wide-integer field.
pub fn read_wide(members: &Vec<Member>, key: &str) -> (r: Result<i64, DecodeError>)
    ensures
        match r {
            Ok(n) => wide_field(map_of(members@), key@) == Ok::<Doc, Fault>(wide_doc(n)),
            Err(e) => wide_field(map_of(members@), key@) == Err::<Doc, Fault>(e@),
        },
{
    match find(members, key) {
        Some(v) => decode_wide(v, key),
        None => Err(DecodeError::MissingField(key.to_owned())),
    }
}

/// Adds a member to an object under construction.
pub fn put(members: &mut Vec<Member>, key: &str, value: Json)
    ensures
        map_of(final(members)@) == map_of(old(members)@).insert(key@, value@),
{
    let ghost before = members@;
    members.push(Member { key: key.to_owned(), value });
    assert(members@.drop_last() =~= before);
}

/// Closes an object under construction with its discriminator.
pub fn seal(members: Vec<Member>, tag: &str) -> (j: Json)
    ensures
        j@ == tagged(map_of(members@), tag@),
{
    let mut members = members;
    put(&mut members, "@type", Json::Text(tag.to_owned()));
    Json::Object(members)
}

/// What decoding a tagged value of type `T` from a document yields, the
/// discriminator read first.
pub open spec fn parse_tagged<T: Tagged>(d: Doc) -> Result<Doc, Fault> {
    match d {
        Doc::Object(_) => match tag_of(d) {
            Some(t) => if T::known(t) {
                T::parse(d, Seq::empty())
            } else {
                Err(Fault::UnknownVariant(t))
            },
            None => Err(Fault::MissingDiscriminator),
        },
        _ => Err(Fault::TypeMismatch(Seq::empty())),
    }
}

/// Decodes one message: a tagged value of type `T`.
///
/// The discriminator is read first, wherever it stands in the object. A
/// document that is not an object is a `TypeMismatch` with the empty name;
/// an object without a textual discriminator is a `MissingDiscriminator`;
/// a discriminator that `T` does not know is an `UnknownVariant`.
pub fn decode_tagged<T: Tagged>(j: &Json) -> (r: Result<T, DecodeError>)
    ensures
        match r {
            Ok(v) => parse_tagged::<T>(j@) == Ok::<Doc, Fault>(v.wire()),
            Err(e) => parse_tagged::<T>(j@) == Err::<Doc, Fault>(e@),
        },
{
    proof {
        reveal_strlit("");
        assert(""@ =~= Seq::<char>::empty());
    }
    let members = members_of(j, "")?;
    let tag = discriminator(members)?;
    if T::knows(tag) {
        T::decode(j, "")
    } else {
        Err(DecodeError::UnknownVariant(tag.to_owned()))
    }
}

/// A wide integer survives the wire: reading its document gives it back.
pub proof fn lemma_wide_round_trip(n: i64, at: Seq<char>)
    ensures
        parse_wide(wide_doc(n), at) == Ok::<Doc, Fault>(wide_doc(n)),
{
    lemma_text_round_trip(n);
}

/// A required field that is absent is reported by its name.
pub proof fn lemma_absent_required<T: Wire>(m: Map<Seq<char>, Doc>, key: Seq<char>)
    requires
        !m.contains_key(key),
    ensures
        field::<T>(m, key) == Err::<Doc, Fault>(Fault::MissingField(key)),
        wide_field(m, key) == Err::<Doc, Fault>(Fault::MissingField(key)),
{
}

/// An optional field that is absent, or `null`, decodes to `None`.
pub proof fn lemma_absent_optional<T: Wire>(m: Map<Seq<char>, Doc>, key: Seq<char>)
    requires
        !m.contains_key(key) || m[key] == Doc::Null,
    ensures
        optional_field::<T>(m, key) == Ok::<Doc, Fault>(None::<T>.wire()),
{
}

/// Decoding the message that a value encodes to gives the value back.
pub proof fn lemma_tagged_round_trip<T: Tagged>(v: T)
    ensures
        parse_tagged::<T>(v.wire()) == Ok::<Doc, Fault>(v.wire()),
{
    v.tag_known();
    v.round_trip(Seq::empty());
}

/// A message whose discriminator `T` does not know is rejected with it.
pub proof fn lemma_unknown_tag_rejected<T: Tagged>(d: Doc)
    requires
        tag_of(d) matches Some(t) && !T::known(t),
    ensures
        tag_of(d) matches Some(t) && parse_tagged::<T>(d) == Err::<Doc, Fault>(
            Fault::UnknownVariant(t),
        ),
{
}

} // verus!
