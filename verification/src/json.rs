//! JSON documents: the tree that is handed about, and the mathematical
//! model that the contracts of the codec speak of.

use vstd::prelude::*;

verus! {

/// The mathematical model of a JSON document: what a [`Json`] tree means.
///
/// An object is a finite map from keys to documents, so the order in which
/// members are written carries no meaning.
pub enum Doc {
    Null,
    Bool(bool),
    Int(int),
    /// A number with a fractional part, given by its IEEE 754 binary64 bits.
    Real(u64),
    Text(Seq<char>),
    List(Seq<Doc>),
    Object(Map<Seq<char>, Doc>),
}

/// A JSON number where the schema allows a fractional part: either the
/// integer that was written, or the IEEE 754 binary64 bits of the number.
#[derive(Debug, Clone, Copy, PartialEq)]
pub enum Number {
    Int(i64),
    Real(u64),
}

/// One `key: value` pair of a JSON object.
#[derive(Debug, PartialEq)]
pub struct Member {
    pub key: String,
    pub value: Json,
}

/// A JSON document as a tree of plain values.
#[derive(Debug, PartialEq)]
pub enum Json {
    Null,
    Bool(bool),
    Int(i64),
    /// A number with a fractional part, given by its IEEE 754 binary64 bits.
    Real(u64),
    Text(String),
    List(Vec<Json>),
    /// The members in the order they were written. Where a key occurs more
    /// than once, the last occurrence is the one that counts.
    Object(Vec<Member>),
}

/// The documents of a sequence of trees, position by position.
pub open spec fn docs_of(items: Seq<Json>) -> Seq<Doc>
    decreases items,
{
    Seq::new(items.len(), |i: int| if 0 <= i < items.len() { doc_of(items[i]) } else { Doc::Null })
}

/// The map that a sequence of members denotes: later members override
/// earlier ones with the same key.
pub open spec fn map_of(members: Seq<Member>) -> Map<Seq<char>, Doc>
    decreases members, members.len(),
{
    if members.len() == 0 {
        Map::empty()
    } else {
        map_of(members.drop_last()).insert(members.last().key@, doc_of(members.last().value))
    }
}

/// The document that a tree denotes.
pub open spec fn doc_of(j: Json) -> Doc
    decreases j,
{
    match j {
        Json::Null => Doc::Null,
        Json::Bool(b) => Doc::Bool(b),
        Json::Int(n) => Doc::Int(n as int),
        Json::Real(bits) => Doc::Real(bits),
        Json::Text(s) => Doc::Text(s@),
        Json::List(items) => Doc::List(docs_of(items@)),
        Json::Object(members) => Doc::Object(map_of(members@)),
    }
}

/// The discriminator of a document: the text under the key `@type`, where
/// the document is an object that has one.
pub open spec fn tag_of(d: Doc) -> Option<Seq<char>> {
    match d {
        Doc::Object(m) => if m.contains_key("@type"@) {
            match m["@type"@] {
                Doc::Text(t) => Some(t),
                _ => None,
            }
        } else {
            None
        },
        _ => None,
    }
}

/// The object with the fields `fields` and the discriminator `tag`.
pub open spec fn tagged(fields: Map<Seq<char>, Doc>, tag: Seq<char>) -> Doc {
    Doc::Object(fields.insert("@type"@, Doc::Text(tag)))
}

/// Two members with different keys may change places: the object stays the
/// same document.
pub proof fn lemma_members_commute(members: Seq<Member>, a: Member, b: Member)
    requires
        a.key@ != b.key@,
    ensures
        map_of(members.push(a).push(b)) == map_of(members.push(b).push(a)),
{
    let ab = members.push(a).push(b);
    let ba = members.push(b).push(a);
    assert(ab.drop_last() =~= members.push(a));
    assert(ab.drop_last().drop_last() =~= members);
    assert(ba.drop_last() =~= members.push(b));
    assert(ba.drop_last().drop_last() =~= members);
    assert(map_of(members.push(a)) == map_of(members).insert(a.key@, doc_of(a.value)));
    assert(map_of(members.push(b)) == map_of(members).insert(b.key@, doc_of(b.value)));
    assert(map_of(ab) =~= map_of(ba));
}

/// A member that is written again replaces what was written before.
pub proof fn lemma_last_member_wins(members: Seq<Member>, a: Member)
    ensures
        map_of(members.push(a)).contains_key(a.key@),
        map_of(members.push(a))[a.key@] == a.value@,
{
    assert(members.push(a).drop_last() =~= members);
}

impl View for Json {
    type V = Doc;

    open spec fn view(&self) -> Doc {
        doc_of(*self)
    }
}

impl Clone for Json {
    fn clone(&self) -> (r: Self)
        ensures
            r@ == self@,
        decreases *self,
    {
        match self {
            Json::Null => Json::Null,
            Json::Bool(b) => Json::Bool(*b),
            Json::Int(n) => Json::Int(*n),
            Json::Real(bits) => Json::Real(*bits),
            Json::Text(s) => Json::Text(s.clone()),
            Json::List(items) => {
                let mut out: Vec<Json> = Vec::new();
                let mut i: usize = 0;
                while i < items.len()
                    invariant
                        i <= items.len(),
                        out.len() == i,
                        *self == Json::List(*items),
                        forall|k: int| 0 <= k < i ==> out[k]@ == items[k]@,
                    decreases items.len() - i,
                {
                    proof {
                        assert(decreases_to!(*self => self->List_0));
                        assert(decreases_to!(*items => items[i as int]));
                    }
                    let item = items[i].clone();
                    out.push(item);
                    i += 1;
                }
                assert(docs_of(out@) =~= docs_of(items@));
                Json::List(out)
            },
            Json::Object(members) => {
                let mut out: Vec<Member> = Vec::new();
                let mut i: usize = 0;
                while i < members.len()
                    invariant
                        i <= members.len(),
                        out.len() == i,
                        *self == Json::Object(*members),
                        map_of(out@) == map_of(members@.take(i as int)),
                    decreases members.len() - i,
                {
                    proof {
                        assert(decreases_to!(*self => self->Object_0));
                        assert(decreases_to!(*members => members[i as int]));
                    }
                    let value = members[i].value.clone();
                    let ghost before = out@;
                    out.push(Member { key: members[i].key.clone(), value });
                    proof {
                        assert(out@.drop_last() =~= before);
                        assert(members@.take(i + 1).drop_last() =~= members@.take(i as int));
                    }
                    i += 1;
                }
                assert(members@.take(i as int) =~= members@);
                Json::Object(out)
            },
        }
    }
}

impl Clone for Member {
    fn clone(&self) -> (r: Self)
        ensures
            r.key@ == self.key@,
            r.value@ == self.value@,
    {
        Member { key: self.key.clone(), value: self.value.clone() }
    }
}

} // verus!
