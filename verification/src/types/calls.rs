//! Calls, contacts and URLs.

use vstd::prelude::*;
use crate::codec::{
    discriminator, encode_wide, field, lemma_wide_round_trip, members_of, put, read_field,
    read_wide, seal, Tagged, Union, wide_doc, wide_field, Wire,
};
use crate::error::{DecodeError, Fault};
use crate::json::{Doc, Json, Member, tag_of, tagged};
use crate::text::same_text;
use crate::types::{
    Animation, Error,
};

verus! {

/// The call wasn't discarded, or the reason is unknown
#[derive(Debug, Clone, PartialEq)]
pub struct CallDiscardReasonEmpty {}

impl Wire for CallDiscardReasonEmpty {
    #[verifier::opaque]
    open spec fn wire(&self) -> Doc {
        tagged(Map::empty(), "callDiscardReasonEmpty"@)
    }

    #[verifier::opaque]
    open spec fn parse(d: Doc, at: Seq<char>) -> Result<Doc, Fault> {
        match d {
            Doc::Object(_) => Ok(tagged(Map::empty(), "callDiscardReasonEmpty"@)),
            _ => Err(Fault::TypeMismatch(at)),
        }
    }

    fn encode(&self) -> (j: Json) {
        proof {
            reveal(<CallDiscardReasonEmpty as Wire>::wire);
        }
        seal(Vec::new(), "callDiscardReasonEmpty")
    }

    fn decode(j: &Json, at: &str) -> (r: Result<Self, DecodeError>) {
        proof {
            reveal(<CallDiscardReasonEmpty as Wire>::wire);
            reveal(<CallDiscardReasonEmpty as Wire>::parse);
        }
        let _ = members_of(j, at)?;
        Ok(CallDiscardReasonEmpty {})
    }

    proof fn round_trip(&self, at: Seq<char>) {
        reveal(<CallDiscardReasonEmpty as Wire>::wire);
        reveal(<CallDiscardReasonEmpty as Wire>::parse);
    }
}

impl Tagged for CallDiscardReasonEmpty {
    open spec fn known(tag: Seq<char>) -> bool {
        tag == "callDiscardReasonEmpty"@
    }

    fn knows(tag: &str) -> (r: bool) {
        same_text(tag, "callDiscardReasonEmpty")
    }

    proof fn tag_known(&self) {
        reveal(<CallDiscardReasonEmpty as Wire>::wire);
        assert(tag_of(self.wire()) == Some("callDiscardReasonEmpty"@));
        assert(Self::known("callDiscardReasonEmpty"@));
    }
}

/// The call was ended before the conversation started. It was cancelled by the caller or missed by
/// the other party
#[derive(Debug, Clone, PartialEq)]
pub struct CallDiscardReasonMissed {}

impl Wire for CallDiscardReasonMissed {
    #[verifier::opaque]
    open spec fn wire(&self) -> Doc {
        tagged(Map::empty(), "callDiscardReasonMissed"@)
    }

    #[verifier::opaque]
    open spec fn parse(d: Doc, at: Seq<char>) -> Result<Doc, Fault> {
        match d {
            Doc::Object(_) => Ok(tagged(Map::empty(), "callDiscardReasonMissed"@)),
            _ => Err(Fault::TypeMismatch(at)),
        }
    }

    fn encode(&self) -> (j: Json) {
        proof {
            reveal(<CallDiscardReasonMissed as Wire>::wire);
        }
        seal(Vec::new(), "callDiscardReasonMissed")
    }

    fn decode(j: &Json, at: &str) -> (r: Result<Self, DecodeError>) {
        proof {
            reveal(<CallDiscardReasonMissed as Wire>::wire);
            reveal(<CallDiscardReasonMissed as Wire>::parse);
        }
        let _ = members_of(j, at)?;
        Ok(CallDiscardReasonMissed {})
    }

    proof fn round_trip(&self, at: Seq<char>) {
        reveal(<CallDiscardReasonMissed as Wire>::wire);
        reveal(<CallDiscardReasonMissed as Wire>::parse);
    }
}

impl Tagged for CallDiscardReasonMissed {
    open spec fn known(tag: Seq<char>) -> bool {
        tag == "callDiscardReasonMissed"@
    }

    fn knows(tag: &str) -> (r: bool) {
        same_text(tag, "callDiscardReasonMissed")
    }

    proof fn tag_known(&self) {
        reveal(<CallDiscardReasonMissed as Wire>::wire);
        assert(tag_of(self.wire()) == Some("callDiscardReasonMissed"@));
        assert(Self::known("callDiscardReasonMissed"@));
    }
}

/// The call was ended before the conversation started. It was declined by the other party
#[derive(Debug, Clone, PartialEq)]
pub struct CallDiscardReasonDeclined {}

impl Wire for CallDiscardReasonDeclined {
    #[verifier::opaque]
    open spec fn wire(&self) -> Doc {
        tagged(Map::empty(), "callDiscardReasonDeclined"@)
    }

    #[verifier::opaque]
    open spec fn parse(d: Doc, at: Seq<char>) -> Result<Doc, Fault> {
        match d {
            Doc::Object(_) => Ok(tagged(Map::empty(), "callDiscardReasonDeclined"@)),
            _ => Err(Fault::TypeMismatch(at)),
        }
    }

    fn encode(&self) -> (j: Json) {
        proof {
            reveal(<CallDiscardReasonDeclined as Wire>::wire);
        }
        seal(Vec::new(), "callDiscardReasonDeclined")
    }

    fn decode(j: &Json, at: &str) -> (r: Result<Self, DecodeError>) {
        proof {
            reveal(<CallDiscardReasonDeclined as Wire>::wire);
            reveal(<CallDiscardReasonDeclined as Wire>::parse);
        }
        let _ = members_of(j, at)?;
        Ok(CallDiscardReasonDeclined {})
    }

    proof fn round_trip(&self, at: Seq<char>) {
        reveal(<CallDiscardReasonDeclined as Wire>::wire);
        reveal(<CallDiscardReasonDeclined as Wire>::parse);
    }
}

impl Tagged for CallDiscardReasonDeclined {
    open spec fn known(tag: Seq<char>) -> bool {
        tag == "callDiscardReasonDeclined"@
    }

    fn knows(tag: &str) -> (r: bool) {
        same_text(tag, "callDiscardReasonDeclined")
    }

    proof fn tag_known(&self) {
        reveal(<CallDiscardReasonDeclined as Wire>::wire);
        assert(tag_of(self.wire()) == Some("callDiscardReasonDeclined"@));
        assert(Self::known("callDiscardReasonDeclined"@));
    }
}

/// The call was ended during the conversation because the users were disconnected
#[derive(Debug, Clone, PartialEq)]
pub struct CallDiscardReasonDisconnected {}

impl Wire for CallDiscardReasonDisconnected {
    #[verifier::opaque]
    open spec fn wire(&self) -> Doc {
        tagged(Map::empty(), "callDiscardReasonDisconnected"@)
    }

    #[verifier::opaque]
    open spec fn parse(d: Doc, at: Seq<char>) -> Result<Doc, Fault> {
        match d {
            Doc::Object(_) => Ok(tagged(Map::empty(), "callDiscardReasonDisconnected"@)),
            _ => Err(Fault::TypeMismatch(at)),
        }
    }

    fn encode(&self) -> (j: Json) {
        proof {
            reveal(<CallDiscardReasonDisconnected as Wire>::wire);
        }
        seal(Vec::new(), "callDiscardReasonDisconnected")
    }

    fn decode(j: &Json, at: &str) -> (r: Result<Self, DecodeError>) {
        proof {
            reveal(<CallDiscardReasonDisconnected as Wire>::wire);
            reveal(<CallDiscardReasonDisconnected as Wire>::parse);
        }
        let _ = members_of(j, at)?;
        Ok(CallDiscardReasonDisconnected {})
    }

    proof fn round_trip(&self, at: Seq<char>) {
        reveal(<CallDiscardReasonDisconnected as Wire>::wire);
        reveal(<CallDiscardReasonDisconnected as Wire>::parse);
    }
}

impl Tagged for CallDiscardReasonDisconnected {
    open spec fn known(tag: Seq<char>) -> bool {
        tag == "callDiscardReasonDisconnected"@
    }

    fn knows(tag: &str) -> (r: bool) {
        same_text(tag, "callDiscardReasonDisconnected")
    }

    proof fn tag_known(&self) {
        reveal(<CallDiscardReasonDisconnected as Wire>::wire);
        assert(tag_of(self.wire()) == Some("callDiscardReasonDisconnected"@));
        assert(Self::known("callDiscardReasonDisconnected"@));
    }
}

/// The call was ended because one of the parties hung up
#[derive(Debug, Clone, PartialEq)]
pub struct CallDiscardReasonHungUp {}

impl Wire for CallDiscardReasonHungUp {
    #[verifier::opaque]
    open spec fn wire(&self) -> Doc {
        tagged(Map::empty(), "callDiscardReasonHungUp"@)
    }

    #[verifier::opaque]
    open spec fn parse(d: Doc, at: Seq<char>) -> Result<Doc, Fault> {
        match d {
            Doc::Object(_) => Ok(tagged(Map::empty(), "callDiscardReasonHungUp"@)),
            _ => Err(Fault::TypeMismatch(at)),
        }
    }

    fn encode(&self) -> (j: Json) {
        proof {
            reveal(<CallDiscardReasonHungUp as Wire>::wire);
        }
        seal(Vec::new(), "callDiscardReasonHungUp")
    }

    fn decode(j: &Json, at: &str) -> (r: Result<Self, DecodeError>) {
        proof {
            reveal(<CallDiscardReasonHungUp as Wire>::wire);
            reveal(<CallDiscardReasonHungUp as Wire>::parse);
        }
        let _ = members_of(j, at)?;
        Ok(CallDiscardReasonHungUp {})
    }

    proof fn round_trip(&self, at: Seq<char>) {
        reveal(<CallDiscardReasonHungUp as Wire>::wire);
        reveal(<CallDiscardReasonHungUp as Wire>::parse);
    }
}

impl Tagged for CallDiscardReasonHungUp {
    open spec fn known(tag: Seq<char>) -> bool {
        tag == "callDiscardReasonHungUp"@
    }

    fn knows(tag: &str) -> (r: bool) {
        same_text(tag, "callDiscardReasonHungUp")
    }

    proof fn tag_known(&self) {
        reveal(<CallDiscardReasonHungUp as Wire>::wire);
        assert(tag_of(self.wire()) == Some("callDiscardReasonHungUp"@));
        assert(Self::known("callDiscardReasonHungUp"@));
    }
}

/// Describes the reason why a call was discarded
#[derive(Debug, Clone, PartialEq)]
pub enum CallDiscardReason {
    CallDiscardReasonEmpty(CallDiscardReasonEmpty),
    CallDiscardReasonMissed(CallDiscardReasonMissed),
    CallDiscardReasonDeclined(CallDiscardReasonDeclined),
    CallDiscardReasonDisconnected(CallDiscardReasonDisconnected),
    CallDiscardReasonHungUp(CallDiscardReasonHungUp),
}

impl Wire for CallDiscardReason {
    #[verifier::opaque]
    open spec fn wire(&self) -> Doc {
        match self {
            Self::CallDiscardReasonEmpty(p) => p.wire(),
            Self::CallDiscardReasonMissed(p) => p.wire(),
            Self::CallDiscardReasonDeclined(p) => p.wire(),
            Self::CallDiscardReasonDisconnected(p) => p.wire(),
            Self::CallDiscardReasonHungUp(p) => p.wire(),
        }
    }

    #[verifier::opaque]
    open spec fn parse(d: Doc, at: Seq<char>) -> Result<Doc, Fault> {
        match d {
            Doc::Object(_) => match tag_of(d) {
                Some(t) => if t == "callDiscardReasonEmpty"@ {
                    CallDiscardReasonEmpty::parse(d, at)
                } else if t == "callDiscardReasonMissed"@ {
                    CallDiscardReasonMissed::parse(d, at)
                } else if t == "callDiscardReasonDeclined"@ {
                    CallDiscardReasonDeclined::parse(d, at)
                } else if t == "callDiscardReasonDisconnected"@ {
                    CallDiscardReasonDisconnected::parse(d, at)
                } else if t == "callDiscardReasonHungUp"@ {
                    CallDiscardReasonHungUp::parse(d, at)
                } else {
                    Err(Fault::UnknownVariant(t))
                },
                None => Err(Fault::MissingDiscriminator),
            },
            _ => Err(Fault::TypeMismatch(at)),
        }
    }

    fn encode(&self) -> (j: Json) {
        proof {
            reveal(<CallDiscardReason as Wire>::wire);
        }
        match self {
            Self::CallDiscardReasonEmpty(p) => p.encode(),
            Self::CallDiscardReasonMissed(p) => p.encode(),
            Self::CallDiscardReasonDeclined(p) => p.encode(),
            Self::CallDiscardReasonDisconnected(p) => p.encode(),
            Self::CallDiscardReasonHungUp(p) => p.encode(),
        }
    }

    fn decode(j: &Json, at: &str) -> (r: Result<Self, DecodeError>) {
        proof {
            reveal(<CallDiscardReason as Wire>::wire);
            reveal(<CallDiscardReason as Wire>::parse);
        }
        let members = members_of(j, at)?;
        let tag = discriminator(members)?;
        if same_text(tag, "callDiscardReasonEmpty") {
            Ok(Self::CallDiscardReasonEmpty(CallDiscardReasonEmpty::decode(j, at)?))
        } else if same_text(tag, "callDiscardReasonMissed") {
            Ok(Self::CallDiscardReasonMissed(CallDiscardReasonMissed::decode(j, at)?))
        } else if same_text(tag, "callDiscardReasonDeclined") {
            Ok(Self::CallDiscardReasonDeclined(CallDiscardReasonDeclined::decode(j, at)?))
        } else if same_text(tag, "callDiscardReasonDisconnected") {
            Ok(Self::CallDiscardReasonDisconnected(CallDiscardReasonDisconnected::decode(j, at)?))
        } else if same_text(tag, "callDiscardReasonHungUp") {
            Ok(Self::CallDiscardReasonHungUp(CallDiscardReasonHungUp::decode(j, at)?))
        } else {
            Err(DecodeError::UnknownVariant(tag.to_owned()))
        }
    }

    proof fn round_trip(&self, at: Seq<char>) {
        reveal(<CallDiscardReason as Wire>::wire);
        reveal(<CallDiscardReason as Wire>::parse);
        reveal_strlit("callDiscardReasonDeclined");
        reveal_strlit("callDiscardReasonDisconnected");
        reveal_strlit("callDiscardReasonEmpty");
        reveal_strlit("callDiscardReasonHungUp");
        reveal_strlit("callDiscardReasonMissed");
        assert("callDiscardReasonDeclined"@.len() == 25);
        assert("callDiscardReasonDisconnected"@.len() == 29);
        assert("callDiscardReasonEmpty"@.len() == 22);
        assert("callDiscardReasonHungUp"@.len() == 23 && "callDiscardReasonHungUp"@[17] == 'H');
        assert("callDiscardReasonMissed"@.len() == 23 && "callDiscardReasonMissed"@[17] == 'M');
        match self {
            Self::CallDiscardReasonEmpty(p) => {
                p.tag_known();
                p.round_trip(at);
            },
            Self::CallDiscardReasonMissed(p) => {
                p.tag_known();
                p.round_trip(at);
            },
            Self::CallDiscardReasonDeclined(p) => {
                p.tag_known();
                p.round_trip(at);
            },
            Self::CallDiscardReasonDisconnected(p) => {
                p.tag_known();
                p.round_trip(at);
            },
            Self::CallDiscardReasonHungUp(p) => {
                p.tag_known();
                p.round_trip(at);
            },
        }
    }
}

impl Tagged for CallDiscardReason {
    open spec fn known(tag: Seq<char>) -> bool {
        ||| tag == "callDiscardReasonEmpty"@
        ||| tag == "callDiscardReasonMissed"@
        ||| tag == "callDiscardReasonDeclined"@
        ||| tag == "callDiscardReasonDisconnected"@
        ||| tag == "callDiscardReasonHungUp"@
    }

    fn knows(tag: &str) -> (r: bool) {
        same_text(tag, "callDiscardReasonEmpty")
            || same_text(tag, "callDiscardReasonMissed")
            || same_text(tag, "callDiscardReasonDeclined")
            || same_text(tag, "callDiscardReasonDisconnected")
            || same_text(tag, "callDiscardReasonHungUp")
    }

    proof fn tag_known(&self) {
        reveal(<CallDiscardReason as Wire>::wire);
        match self {
            Self::CallDiscardReasonEmpty(p) => p.tag_known(),
            Self::CallDiscardReasonMissed(p) => p.tag_known(),
            Self::CallDiscardReasonDeclined(p) => p.tag_known(),
            Self::CallDiscardReasonDisconnected(p) => p.tag_known(),
            Self::CallDiscardReasonHungUp(p) => p.tag_known(),
        }
    }
}

impl Union for CallDiscardReason {
    proof fn unknown_rejected(d: Doc, at: Seq<char>) {
        reveal(<CallDiscardReason as Wire>::parse);
    }

    proof fn untagged_rejected(d: Doc, at: Seq<char>) {
        reveal(<CallDiscardReason as Wire>::parse);
    }
}

/// Specifies the supported call protocols
#[derive(Debug, Clone, PartialEq)]
pub struct CallProtocol {
    /// True, if UDP peer-to-peer connections are supported
    pub udp_p2p: bool,
    /// True, if connection through UDP reflectors is supported
    pub udp_reflector: bool,
    /// The minimum supported API layer; use 65
    pub min_layer: i32,
    /// The maximum supported API layer; use 65
    pub max_layer: i32,
}

impl Wire for CallProtocol {
    #[verifier::opaque]
    open spec fn wire(&self) -> Doc {
        tagged(
            Map::empty()
                .insert("udpP2p"@, self.udp_p2p.wire())
                .insert("udpReflector"@, self.udp_reflector.wire())
                .insert("minLayer"@, self.min_layer.wire())
                .insert("maxLayer"@, self.max_layer.wire()),
            "callProtocol"@,
        )
    }

    #[verifier::opaque]
    open spec fn parse(d: Doc, at: Seq<char>) -> Result<Doc, Fault> {
        match d {
            Doc::Object(m) => {
                let udp_p2p = field::<bool>(m, "udpP2p"@);
                let udp_reflector = field::<bool>(m, "udpReflector"@);
                let min_layer = field::<i32>(m, "minLayer"@);
                let max_layer = field::<i32>(m, "maxLayer"@);
                if udp_p2p is Err {
                    udp_p2p
                } else if udp_reflector is Err {
                    udp_reflector
                } else if min_layer is Err {
                    min_layer
                } else if max_layer is Err {
                    max_layer
                } else {
                    Ok(
                        tagged(
                            Map::empty()
                                .insert("udpP2p"@, udp_p2p->Ok_0)
                                .insert("udpReflector"@, udp_reflector->Ok_0)
                                .insert("minLayer"@, min_layer->Ok_0)
                                .insert("maxLayer"@, max_layer->Ok_0),
                            "callProtocol"@,
                        ),
                    )
                }
            },
            _ => Err(Fault::TypeMismatch(at)),
        }
    }

    fn encode(&self) -> (j: Json) {
        proof {
            reveal(<CallProtocol as Wire>::wire);
        }
        let mut members: Vec<Member> = Vec::new();
        put(&mut members, "udpP2p", self.udp_p2p.encode());
        put(&mut members, "udpReflector", self.udp_reflector.encode());
        put(&mut members, "minLayer", self.min_layer.encode());
        put(&mut members, "maxLayer", self.max_layer.encode());
        seal(members, "callProtocol")
    }

    fn decode(j: &Json, at: &str) -> (r: Result<Self, DecodeError>) {
        proof {
            reveal(<CallProtocol as Wire>::wire);
            reveal(<CallProtocol as Wire>::parse);
        }
        let members = members_of(j, at)?;
        let udp_p2p = read_field::<bool>(members, "udpP2p")?;
        let udp_reflector = read_field::<bool>(members, "udpReflector")?;
        let min_layer = read_field::<i32>(members, "minLayer")?;
        let max_layer = read_field::<i32>(members, "maxLayer")?;
        Ok(CallProtocol { udp_p2p, udp_reflector, min_layer, max_layer })
    }

    proof fn round_trip(&self, at: Seq<char>) {
        reveal(<CallProtocol as Wire>::wire);
        reveal(<CallProtocol as Wire>::parse);
        reveal_strlit("@type");
        reveal_strlit("maxLayer");
        reveal_strlit("minLayer");
        reveal_strlit("udpP2p");
        reveal_strlit("udpReflector");
        assert("@type"@.len() == 5);
        assert("maxLayer"@.len() == 8 && "maxLayer"@[1] == 'a');
        assert("minLayer"@.len() == 8 && "minLayer"@[1] == 'i');
        assert("udpP2p"@.len() == 6);
        assert("udpReflector"@.len() == 12);
        self.udp_p2p.round_trip("udpP2p"@);
        self.udp_reflector.round_trip("udpReflector"@);
        self.min_layer.round_trip("minLayer"@);
        self.max_layer.round_trip("maxLayer"@);
    }
}

impl Tagged for CallProtocol {
    open spec fn known(tag: Seq<char>) -> bool {
        tag == "callProtocol"@
    }

    fn knows(tag: &str) -> (r: bool) {
        same_text(tag, "callProtocol")
    }

    proof fn tag_known(&self) {
        reveal(<CallProtocol as Wire>::wire);
        assert(tag_of(self.wire()) == Some("callProtocol"@));
        assert(Self::known("callProtocol"@));
    }
}

/// Describes the address of UDP reflectors
#[derive(Debug, Clone, PartialEq)]
pub struct CallConnection {
    /// Reflector identifier
    pub id: i64,
    /// IPv4 reflector address
    pub ip: String,
    /// IPv6 reflector address
    pub ipv6: String,
    /// Reflector port number
    pub port: i32,
    /// Connection peer tag
    pub peer_tag: String,
}

impl Wire for CallConnection {
    #[verifier::opaque]
    open spec fn wire(&self) -> Doc {
        tagged(
            Map::empty()
                .insert("id"@, wide_doc(self.id))
                .insert("ip"@, self.ip.wire())
                .insert("ipv6"@, self.ipv6.wire())
                .insert("port"@, self.port.wire())
                .insert("peerTag"@, self.peer_tag.wire()),
            "callConnection"@,
        )
    }

    #[verifier::opaque]
    open spec fn parse(d: Doc, at: Seq<char>) -> Result<Doc, Fault> {
        match d {
            Doc::Object(m) => {
                let id = wide_field(m, "id"@);
                let ip = field::<String>(m, "ip"@);
                let ipv6 = field::<String>(m, "ipv6"@);
                let port = field::<i32>(m, "port"@);
                let peer_tag = field::<String>(m, "peerTag"@);
                if id is Err {
                    id
                } else if ip is Err {
                    ip
                } else if ipv6 is Err {
                    ipv6
                } else if port is Err {
                    port
                } else if peer_tag is Err {
                    peer_tag
                } else {
                    Ok(
                        tagged(
                            Map::empty()
                                .insert("id"@, id->Ok_0)
                                .insert("ip"@, ip->Ok_0)
                                .insert("ipv6"@, ipv6->Ok_0)
                                .insert("port"@, port->Ok_0)
                                .insert("peerTag"@, peer_tag->Ok_0),
                            "callConnection"@,
                        ),
                    )
                }
            },
            _ => Err(Fault::TypeMismatch(at)),
        }
    }

    fn encode(&self) -> (j: Json) {
        proof {
            reveal(<CallConnection as Wire>::wire);
        }
        let mut members: Vec<Member> = Vec::new();
        put(&mut members, "id", encode_wide(self.id));
        put(&mut members, "ip", self.ip.encode());
        put(&mut members, "ipv6", self.ipv6.encode());
        put(&mut members, "port", self.port.encode());
        put(&mut members, "peerTag", self.peer_tag.encode());
        seal(members, "callConnection")
    }

    fn decode(j: &Json, at: &str) -> (r: Result<Self, DecodeError>) {
        proof {
            reveal(<CallConnection as Wire>::wire);
            reveal(<CallConnection as Wire>::parse);
        }
        let members = members_of(j, at)?;
        let id = read_wide(members, "id")?;
        let ip = read_field::<String>(members, "ip")?;
        let ipv6 = read_field::<String>(members, "ipv6")?;
        let port = read_field::<i32>(members, "port")?;
        let peer_tag = read_field::<String>(members, "peerTag")?;
        Ok(CallConnection { id, ip, ipv6, port, peer_tag })
    }

    proof fn round_trip(&self, at: Seq<char>) {
        reveal(<CallConnection as Wire>::wire);
        reveal(<CallConnection as Wire>::parse);
        reveal_strlit("@type");
        reveal_strlit("id");
        reveal_strlit("ip");
        reveal_strlit("ipv6");
        reveal_strlit("peerTag");
        reveal_strlit("port");
        assert("@type"@.len() == 5);
        assert("id"@.len() == 2 && "id"@[1] == 'd');
        assert("ip"@.len() == 2 && "ip"@[1] == 'p');
        assert("ipv6"@.len() == 4 && "ipv6"@[0] == 'i');
        assert("peerTag"@.len() == 7);
        assert("port"@.len() == 4 && "port"@[0] == 'p');
        lemma_wide_round_trip(self.id, "id"@);
        self.ip.round_trip("ip"@);
        self.ipv6.round_trip("ipv6"@);
        self.port.round_trip("port"@);
        self.peer_tag.round_trip("peerTag"@);
    }
}

impl Tagged for CallConnection {
    open spec fn known(tag: Seq<char>) -> bool {
        tag == "callConnection"@
    }

    fn knows(tag: &str) -> (r: bool) {
        same_text(tag, "callConnection")
    }

    proof fn tag_known(&self) {
        reveal(<CallConnection as Wire>::wire);
        assert(tag_of(self.wire()) == Some("callConnection"@));
        assert(Self::known("callConnection"@));
    }
}

/// Contains the call identifier
#[derive(Debug, Clone, PartialEq)]
pub struct CallId {
    /// Call identifier
    pub id: i32,
}

impl Wire for CallId {
    #[verifier::opaque]
    open spec fn wire(&self) -> Doc {
        tagged(
            Map::empty()
                .insert("id"@, self.id.wire()),
            "callId"@,
        )
    }

    #[verifier::opaque]
    open spec fn parse(d: Doc, at: Seq<char>) -> Result<Doc, Fault> {
        match d {
            Doc::Object(m) => {
                let id = field::<i32>(m, "id"@);
                if id is Err {
                    id
                } else {
                    Ok(
                        tagged(
                            Map::empty()
                                .insert("id"@, id->Ok_0),
                            "callId"@,
                        ),
                    )
                }
            },
            _ => Err(Fault::TypeMismatch(at)),
        }
    }

    fn encode(&self) -> (j: Json) {
        proof {
            reveal(<CallId as Wire>::wire);
        }
        let mut members: Vec<Member> = Vec::new();
        put(&mut members, "id", self.id.encode());
        seal(members, "callId")
    }

    fn decode(j: &Json, at: &str) -> (r: Result<Self, DecodeError>) {
        proof {
            reveal(<CallId as Wire>::wire);
            reveal(<CallId as Wire>::parse);
        }
        let members = members_of(j, at)?;
        let id = read_field::<i32>(members, "id")?;
        Ok(CallId { id })
    }

    proof fn round_trip(&self, at: Seq<char>) {
        reveal(<CallId as Wire>::wire);
        reveal(<CallId as Wire>::parse);
        reveal_strlit("@type");
        reveal_strlit("id");
        assert("@type"@.len() == 5);
        assert("id"@.len() == 2);
        self.id.round_trip("id"@);
    }
}

impl Tagged for CallId {
    open spec fn known(tag: Seq<char>) -> bool {
        tag == "callId"@
    }

    fn knows(tag: &str) -> (r: bool) {
        same_text(tag, "callId")
    }

    proof fn tag_known(&self) {
        reveal(<CallId as Wire>::wire);
        assert(tag_of(self.wire()) == Some("callId"@));
        assert(Self::known("callId"@));
    }
}

/// The call is pending, waiting to be accepted by a user
#[derive(Debug, Clone, PartialEq)]
pub struct CallStatePending {
    /// True, if the call has already been created by the server
    pub is_created: bool,
    /// True, if the call has already been received by the other party
    pub is_received: bool,
}

impl Wire for CallStatePending {
    #[verifier::opaque]
    open spec fn wire(&self) -> Doc {
        tagged(
            Map::empty()
                .insert("isCreated"@, self.is_created.wire())
                .insert("isReceived"@, self.is_received.wire()),
            "callStatePending"@,
        )
    }

    #[verifier::opaque]
    open spec fn parse(d: Doc, at: Seq<char>) -> Result<Doc, Fault> {
        match d {
            Doc::Object(m) => {
                let is_created = field::<bool>(m, "isCreated"@);
                let is_received = field::<bool>(m, "isReceived"@);
                if is_created is Err {
                    is_created
                } else if is_received is Err {
                    is_received
                } else {
                    Ok(
                        tagged(
                            Map::empty()
                                .insert("isCreated"@, is_created->Ok_0)
                                .insert("isReceived"@, is_received->Ok_0),
                            "callStatePending"@,
                        ),
                    )
                }
            },
            _ => Err(Fault::TypeMismatch(at)),
        }
    }

    fn encode(&self) -> (j: Json) {
        proof {
            reveal(<CallStatePending as Wire>::wire);
        }
        let mut members: Vec<Member> = Vec::new();
        put(&mut members, "isCreated", self.is_created.encode());
        put(&mut members, "isReceived", self.is_received.encode());
        seal(members, "callStatePending")
    }

    fn decode(j: &Json, at: &str) -> (r: Result<Self, DecodeError>) {
        proof {
            reveal(<CallStatePending as Wire>::wire);
            reveal(<CallStatePending as Wire>::parse);
        }
        let members = members_of(j, at)?;
        let is_created = read_field::<bool>(members, "isCreated")?;
        let is_received = read_field::<bool>(members, "isReceived")?;
        Ok(CallStatePending { is_created, is_received })
    }

    proof fn round_trip(&self, at: Seq<char>) {
        reveal(<CallStatePending as Wire>::wire);
        reveal(<CallStatePending as Wire>::parse);
        reveal_strlit("@type");
        reveal_strlit("isCreated");
        reveal_strlit("isReceived");
        assert("@type"@.len() == 5);
        assert("isCreated"@.len() == 9);
        assert("isReceived"@.len() == 10);
        self.is_created.round_trip("isCreated"@);
        self.is_received.round_trip("isReceived"@);
    }
}

impl Tagged for CallStatePending {
    open spec fn known(tag: Seq<char>) -> bool {
        tag == "callStatePending"@
    }

    fn knows(tag: &str) -> (r: bool) {
        same_text(tag, "callStatePending")
    }

    proof fn tag_known(&self) {
        reveal(<CallStatePending as Wire>::wire);
        assert(tag_of(self.wire()) == Some("callStatePending"@));
        assert(Self::known("callStatePending"@));
    }
}

/// The call has been answered and encryption keys are being exchanged
#[derive(Debug, Clone, PartialEq)]
pub struct CallStateExchangingKeys {}

impl Wire for CallStateExchangingKeys {
    #[verifier::opaque]
    open spec fn wire(&self) -> Doc {
        tagged(Map::empty(), "callStateExchangingKeys"@)
    }

    #[verifier::opaque]
    open spec fn parse(d: Doc, at: Seq<char>) -> Result<Doc, Fault> {
        match d {
            Doc::Object(_) => Ok(tagged(Map::empty(), "callStateExchangingKeys"@)),
            _ => Err(Fault::TypeMismatch(at)),
        }
    }

    fn encode(&self) -> (j: Json) {
        proof {
            reveal(<CallStateExchangingKeys as Wire>::wire);
        }
        seal(Vec::new(), "callStateExchangingKeys")
    }

    fn decode(j: &Json, at: &str) -> (r: Result<Self, DecodeError>) {
        proof {
            reveal(<CallStateExchangingKeys as Wire>::wire);
            reveal(<CallStateExchangingKeys as Wire>::parse);
        }
        let _ = members_of(j, at)?;
        Ok(CallStateExchangingKeys {})
    }

    proof fn round_trip(&self, at: Seq<char>) {
        reveal(<CallStateExchangingKeys as Wire>::wire);
        reveal(<CallStateExchangingKeys as Wire>::parse);
    }
}

impl Tagged for CallStateExchangingKeys {
    open spec fn known(tag: Seq<char>) -> bool {
        tag == "callStateExchangingKeys"@
    }

    fn knows(tag: &str) -> (r: bool) {
        same_text(tag, "callStateExchangingKeys")
    }

    proof fn tag_known(&self) {
        reveal(<CallStateExchangingKeys as Wire>::wire);
        assert(tag_of(self.wire()) == Some("callStateExchangingKeys"@));
        assert(Self::known("callStateExchangingKeys"@));
    }
}

/// The call is ready to use
#[derive(Debug, Clone, PartialEq)]
pub struct CallStateReady {
    /// Call protocols supported by the peer
    pub protocol: CallProtocol,
    /// Available UDP reflectors
    pub connections: Vec<CallConnection>,
    /// A JSON-encoded call config
    pub config: String,
    /// Call encryption key
    pub encryption_key: String,
    /// Encryption key emojis fingerprint
    pub emojis: Vec<String>,
    /// True, if peer-to-peer connection is allowed by users privacy settings
    pub allow_p2p: bool,
}

impl Wire for CallStateReady {
    #[verifier::opaque]
    open spec fn wire(&self) -> Doc {
        tagged(
            Map::empty()
                .insert("protocol"@, self.protocol.wire())
                .insert("connections"@, self.connections.wire())
                .insert("config"@, self.config.wire())
                .insert("encryptionKey"@, self.encryption_key.wire())
                .insert("emojis"@, self.emojis.wire())
                .insert("allowP2p"@, self.allow_p2p.wire()),
            "callStateReady"@,
        )
    }

    #[verifier::opaque]
    open spec fn parse(d: Doc, at: Seq<char>) -> Result<Doc, Fault> {
        match d {
            Doc::Object(m) => {
                let protocol = field::<CallProtocol>(m, "protocol"@);
                let connections = field::<Vec<CallConnection>>(m, "connections"@);
                let config = field::<String>(m, "config"@);
                let encryption_key = field::<String>(m, "encryptionKey"@);
                let emojis = field::<Vec<String>>(m, "emojis"@);
                let allow_p2p = field::<bool>(m, "allowP2p"@);
                if protocol is Err {
                    protocol
                } else if connections is Err {
                    connections
                } else if config is Err {
                    config
                } else if encryption_key is Err {
                    encryption_key
                } else if emojis is Err {
                    emojis
                } else if allow_p2p is Err {
                    allow_p2p
                } else {
                    Ok(
                        tagged(
                            Map::empty()
                                .insert("protocol"@, protocol->Ok_0)
                                .insert("connections"@, connections->Ok_0)
                                .insert("config"@, config->Ok_0)
                                .insert("encryptionKey"@, encryption_key->Ok_0)
                                .insert("emojis"@, emojis->Ok_0)
                                .insert("allowP2p"@, allow_p2p->Ok_0),
                            "callStateReady"@,
                        ),
                    )
                }
            },
            _ => Err(Fault::TypeMismatch(at)),
        }
    }

    fn encode(&self) -> (j: Json) {
        proof {
            reveal(<CallStateReady as Wire>::wire);
        }
        let mut members: Vec<Member> = Vec::new();
        put(&mut members, "protocol", self.protocol.encode());
        put(&mut members, "connections", self.connections.encode());
        put(&mut members, "config", self.config.encode());
        put(&mut members, "encryptionKey", self.encryption_key.encode());
        put(&mut members, "emojis", self.emojis.encode());
        put(&mut members, "allowP2p", self.allow_p2p.encode());
        seal(members, "callStateReady")
    }

    fn decode(j: &Json, at: &str) -> (r: Result<Self, DecodeError>) {
        proof {
            reveal(<CallStateReady as Wire>::wire);
            reveal(<CallStateReady as Wire>::parse);
        }
        let members = members_of(j, at)?;
        let protocol = read_field::<CallProtocol>(members, "protocol")?;
        let connections = read_field::<Vec<CallConnection>>(members, "connections")?;
        let config = read_field::<String>(members, "config")?;
        let encryption_key = read_field::<String>(members, "encryptionKey")?;
        let emojis = read_field::<Vec<String>>(members, "emojis")?;
        let allow_p2p = read_field::<bool>(members, "allowP2p")?;
        Ok(CallStateReady { protocol, connections, config, encryption_key, emojis, allow_p2p })
    }

    proof fn round_trip(&self, at: Seq<char>) {
        reveal(<CallStateReady as Wire>::wire);
        reveal(<CallStateReady as Wire>::parse);
        reveal_strlit("@type");
        reveal_strlit("allowP2p");
        reveal_strlit("config");
        reveal_strlit("connections");
        reveal_strlit("emojis");
        reveal_strlit("encryptionKey");
        reveal_strlit("protocol");
        assert("@type"@.len() == 5);
        assert("allowP2p"@.len() == 8 && "allowP2p"@[0] == 'a');
        assert("config"@.len() == 6 && "config"@[0] == 'c');
        assert("connections"@.len() == 11);
        assert("emojis"@.len() == 6 && "emojis"@[0] == 'e');
        assert("encryptionKey"@.len() == 13);
        assert("protocol"@.len() == 8 && "protocol"@[0] == 'p');
        self.protocol.round_trip("protocol"@);
        self.connections.round_trip("connections"@);
        self.config.round_trip("config"@);
        self.encryption_key.round_trip("encryptionKey"@);
        self.emojis.round_trip("emojis"@);
        self.allow_p2p.round_trip("allowP2p"@);
    }
}

impl Tagged for CallStateReady {
    open spec fn known(tag: Seq<char>) -> bool {
        tag == "callStateReady"@
    }

    fn knows(tag: &str) -> (r: bool) {
        same_text(tag, "callStateReady")
    }

    proof fn tag_known(&self) {
        reveal(<CallStateReady as Wire>::wire);
        assert(tag_of(self.wire()) == Some("callStateReady"@));
        assert(Self::known("callStateReady"@));
    }
}

/// The call is hanging up after discardCall has been called
#[derive(Debug, Clone, PartialEq)]
pub struct CallStateHangingUp {}

impl Wire for CallStateHangingUp {
    #[verifier::opaque]
    open spec fn wire(&self) -> Doc {
        tagged(Map::empty(), "callStateHangingUp"@)
    }

    #[verifier::opaque]
    open spec fn parse(d: Doc, at: Seq<char>) -> Result<Doc, Fault> {
        match d {
            Doc::Object(_) => Ok(tagged(Map::empty(), "callStateHangingUp"@)),
            _ => Err(Fault::TypeMismatch(at)),
        }
    }

    fn encode(&self) -> (j: Json) {
        proof {
            reveal(<CallStateHangingUp as Wire>::wire);
        }
        seal(Vec::new(), "callStateHangingUp")
    }

    fn decode(j: &Json, at: &str) -> (r: Result<Self, DecodeError>) {
        proof {
            reveal(<CallStateHangingUp as Wire>::wire);
            reveal(<CallStateHangingUp as Wire>::parse);
        }
        let _ = members_of(j, at)?;
        Ok(CallStateHangingUp {})
    }

    proof fn round_trip(&self, at: Seq<char>) {
        reveal(<CallStateHangingUp as Wire>::wire);
        reveal(<CallStateHangingUp as Wire>::parse);
    }
}

impl Tagged for CallStateHangingUp {
    open spec fn known(tag: Seq<char>) -> bool {
        tag == "callStateHangingUp"@
    }

    fn knows(tag: &str) -> (r: bool) {
        same_text(tag, "callStateHangingUp")
    }

    proof fn tag_known(&self) {
        reveal(<CallStateHangingUp as Wire>::wire);
        assert(tag_of(self.wire()) == Some("callStateHangingUp"@));
        assert(Self::known("callStateHangingUp"@));
    }
}

/// The call has ended successfully
#[derive(Debug, Clone, PartialEq)]
pub struct CallStateDiscarded {
    /// The reason, why the call has ended
    pub reason: CallDiscardReason,
    /// True, if the call rating should be sent to the server
    pub need_rating: bool,
    /// True, if the call debug information should be sent to the server
    pub need_debug_information: bool,
}

impl Wire for CallStateDiscarded {
    #[verifier::opaque]
    open spec fn wire(&self) -> Doc {
        tagged(
            Map::empty()
                .insert("reason"@, self.reason.wire())
                .insert("needRating"@, self.need_rating.wire())
                .insert("needDebugInformation"@, self.need_debug_information.wire()),
            "callStateDiscarded"@,
        )
    }

    #[verifier::opaque]
    open spec fn parse(d: Doc, at: Seq<char>) -> Result<Doc, Fault> {
        match d {
            Doc::Object(m) => {
                let reason = field::<CallDiscardReason>(m, "reason"@);
                let need_rating = field::<bool>(m, "needRating"@);
                let need_debug_information = field::<bool>(m, "needDebugInformation"@);
                if reason is Err {
                    reason
                } else if need_rating is Err {
                    need_rating
                } else if need_debug_information is Err {
                    need_debug_information
                } else {
                    Ok(
                        tagged(
                            Map::empty()
                                .insert("reason"@, reason->Ok_0)
                                .insert("needRating"@, need_rating->Ok_0)
                                .insert("needDebugInformation"@, need_debug_information->Ok_0),
                            "callStateDiscarded"@,
                        ),
                    )
                }
            },
            _ => Err(Fault::TypeMismatch(at)),
        }
    }

    fn encode(&self) -> (j: Json) {
        proof {
            reveal(<CallStateDiscarded as Wire>::wire);
        }
        let mut members: Vec<Member> = Vec::new();
        put(&mut members, "reason", self.reason.encode());
        put(&mut members, "needRating", self.need_rating.encode());
        put(&mut members, "needDebugInformation", self.need_debug_information.encode());
        seal(members, "callStateDiscarded")
    }

    fn decode(j: &Json, at: &str) -> (r: Result<Self, DecodeError>) {
        proof {
            reveal(<CallStateDiscarded as Wire>::wire);
            reveal(<CallStateDiscarded as Wire>::parse);
        }
        let members = members_of(j, at)?;
        let reason = read_field::<CallDiscardReason>(members, "reason")?;
        let need_rating = read_field::<bool>(members, "needRating")?;
        let need_debug_information = read_field::<bool>(members, "needDebugInformation")?;
        Ok(CallStateDiscarded { reason, need_rating, need_debug_information })
    }

    proof fn round_trip(&self, at: Seq<char>) {
        reveal(<CallStateDiscarded as Wire>::wire);
        reveal(<CallStateDiscarded as Wire>::parse);
        reveal_strlit("@type");
        reveal_strlit("needDebugInformation");
        reveal_strlit("needRating");
        reveal_strlit("reason");
        assert("@type"@.len() == 5);
        assert("needDebugInformation"@.len() == 20);
        assert("needRating"@.len() == 10);
        assert("reason"@.len() == 6);
        self.reason.round_trip("reason"@);
        self.need_rating.round_trip("needRating"@);
        self.need_debug_information.round_trip("needDebugInformation"@);
    }
}

impl Tagged for CallStateDiscarded {
    open spec fn known(tag: Seq<char>) -> bool {
        tag == "callStateDiscarded"@
    }

    fn knows(tag: &str) -> (r: bool) {
        same_text(tag, "callStateDiscarded")
    }

    proof fn tag_known(&self) {
        reveal(<CallStateDiscarded as Wire>::wire);
        assert(tag_of(self.wire()) == Some("callStateDiscarded"@));
        assert(Self::known("callStateDiscarded"@));
    }
}

/// The call has ended with an error
#[derive(Debug, Clone, PartialEq)]
pub struct CallStateError {
    /// Error. An error with the code 4005000 will be returned if an outgoing call is missed because
    /// of an expired timeout
    pub error: Error,
}

impl Wire for CallStateError {
    #[verifier::opaque]
    open spec fn wire(&self) -> Doc {
        tagged(
            Map::empty()
                .insert("error"@, self.error.wire()),
            "callStateError"@,
        )
    }

    #[verifier::opaque]
    open spec fn parse(d: Doc, at: Seq<char>) -> Result<Doc, Fault> {
        match d {
            Doc::Object(m) => {
                let error = field::<Error>(m, "error"@);
                if error is Err {
                    error
                } else {
                    Ok(
                        tagged(
                            Map::empty()
                                .insert("error"@, error->Ok_0),
                            "callStateError"@,
                        ),
                    )
                }
            },
            _ => Err(Fault::TypeMismatch(at)),
        }
    }

    fn encode(&self) -> (j: Json) {
        proof {
            reveal(<CallStateError as Wire>::wire);
        }
        let mut members: Vec<Member> = Vec::new();
        put(&mut members, "error", self.error.encode());
        seal(members, "callStateError")
    }

    fn decode(j: &Json, at: &str) -> (r: Result<Self, DecodeError>) {
        proof {
            reveal(<CallStateError as Wire>::wire);
            reveal(<CallStateError as Wire>::parse);
        }
        let members = members_of(j, at)?;
        let error = read_field::<Error>(members, "error")?;
        Ok(CallStateError { error })
    }

    proof fn round_trip(&self, at: Seq<char>) {
        reveal(<CallStateError as Wire>::wire);
        reveal(<CallStateError as Wire>::parse);
        reveal_strlit("@type");
        reveal_strlit("error");
        assert("@type"@.len() == 5 && "@type"@[0] == '@');
        assert("error"@.len() == 5 && "error"@[0] == 'e');
        self.error.round_trip("error"@);
    }
}

impl Tagged for CallStateError {
    open spec fn known(tag: Seq<char>) -> bool {
        tag == "callStateError"@
    }

    fn knows(tag: &str) -> (r: bool) {
        same_text(tag, "callStateError")
    }

    proof fn tag_known(&self) {
        reveal(<CallStateError as Wire>::wire);
        assert(tag_of(self.wire()) == Some("callStateError"@));
        assert(Self::known("callStateError"@));
    }
}

/// Describes the current call state
#[derive(Debug, Clone, PartialEq)]
pub enum CallState {
    CallStatePending(CallStatePending),
    CallStateExchangingKeys(CallStateExchangingKeys),
    CallStateReady(CallStateReady),
    CallStateHangingUp(CallStateHangingUp),
    CallStateDiscarded(CallStateDiscarded),
    CallStateError(CallStateError),
}

impl Wire for CallState {
    #[verifier::opaque]
    open spec fn wire(&self) -> Doc {
        match self {
            Self::CallStatePending(p) => p.wire(),
            Self::CallStateExchangingKeys(p) => p.wire(),
            Self::CallStateReady(p) => p.wire(),
            Self::CallStateHangingUp(p) => p.wire(),
            Self::CallStateDiscarded(p) => p.wire(),
            Self::CallStateError(p) => p.wire(),
        }
    }

    #[verifier::opaque]
    open spec fn parse(d: Doc, at: Seq<char>) -> Result<Doc, Fault> {
        match d {
            Doc::Object(_) => match tag_of(d) {
                Some(t) => if t == "callStatePending"@ {
                    CallStatePending::parse(d, at)
                } else if t == "callStateExchangingKeys"@ {
                    CallStateExchangingKeys::parse(d, at)
                } else if t == "callStateReady"@ {
                    CallStateReady::parse(d, at)
                } else if t == "callStateHangingUp"@ {
                    CallStateHangingUp::parse(d, at)
                } else if t == "callStateDiscarded"@ {
                    CallStateDiscarded::parse(d, at)
                } else if t == "callStateError"@ {
                    CallStateError::parse(d, at)
                } else {
                    Err(Fault::UnknownVariant(t))
                },
                None => Err(Fault::MissingDiscriminator),
            },
            _ => Err(Fault::TypeMismatch(at)),
        }
    }

    fn encode(&self) -> (j: Json) {
        proof {
            reveal(<CallState as Wire>::wire);
        }
        match self {
            Self::CallStatePending(p) => p.encode(),
            Self::CallStateExchangingKeys(p) => p.encode(),
            Self::CallStateReady(p) => p.encode(),
            Self::CallStateHangingUp(p) => p.encode(),
            Self::CallStateDiscarded(p) => p.encode(),
            Self::CallStateError(p) => p.encode(),
        }
    }

    fn decode(j: &Json, at: &str) -> (r: Result<Self, DecodeError>) {
        proof {
            reveal(<CallState as Wire>::wire);
            reveal(<CallState as Wire>::parse);
        }
        let members = members_of(j, at)?;
        let tag = discriminator(members)?;
        if same_text(tag, "callStatePending") {
            Ok(Self::CallStatePending(CallStatePending::decode(j, at)?))
        } else if same_text(tag, "callStateExchangingKeys") {
            Ok(Self::CallStateExchangingKeys(CallStateExchangingKeys::decode(j, at)?))
        } else if same_text(tag, "callStateReady") {
            Ok(Self::CallStateReady(CallStateReady::decode(j, at)?))
        } else if same_text(tag, "callStateHangingUp") {
            Ok(Self::CallStateHangingUp(CallStateHangingUp::decode(j, at)?))
        } else if same_text(tag, "callStateDiscarded") {
            Ok(Self::CallStateDiscarded(CallStateDiscarded::decode(j, at)?))
        } else if same_text(tag, "callStateError") {
            Ok(Self::CallStateError(CallStateError::decode(j, at)?))
        } else {
            Err(DecodeError::UnknownVariant(tag.to_owned()))
        }
    }

    proof fn round_trip(&self, at: Seq<char>) {
        reveal(<CallState as Wire>::wire);
        reveal(<CallState as Wire>::parse);
        reveal_strlit("callStateDiscarded");
        reveal_strlit("callStateError");
        reveal_strlit("callStateExchangingKeys");
        reveal_strlit("callStateHangingUp");
        reveal_strlit("callStatePending");
        reveal_strlit("callStateReady");
        assert("callStateDiscarded"@.len() == 18 && "callStateDiscarded"@[9] == 'D');
        assert("callStateError"@.len() == 14 && "callStateError"@[9] == 'E');
        assert("callStateExchangingKeys"@.len() == 23);
        assert("callStateHangingUp"@.len() == 18 && "callStateHangingUp"@[9] == 'H');
        assert("callStatePending"@.len() == 16);
        assert("callStateReady"@.len() == 14 && "callStateReady"@[9] == 'R');
        match self {
            Self::CallStatePending(p) => {
                p.tag_known();
                p.round_trip(at);
            },
            Self::CallStateExchangingKeys(p) => {
                p.tag_known();
                p.round_trip(at);
            },
            Self::CallStateReady(p) => {
                p.tag_known();
                p.round_trip(at);
            },
            Self::CallStateHangingUp(p) => {
                p.tag_known();
                p.round_trip(at);
            },
            Self::CallStateDiscarded(p) => {
                p.tag_known();
                p.round_trip(at);
            },
            Self::CallStateError(p) => {
                p.tag_known();
                p.round_trip(at);
            },
        }
    }
}

impl Tagged for CallState {
    open spec fn known(tag: Seq<char>) -> bool {
        ||| tag == "callStatePending"@
        ||| tag == "callStateExchangingKeys"@
        ||| tag == "callStateReady"@
        ||| tag == "callStateHangingUp"@
        ||| tag == "callStateDiscarded"@
        ||| tag == "callStateError"@
    }

    fn knows(tag: &str) -> (r: bool) {
        same_text(tag, "callStatePending")
            || same_text(tag, "callStateExchangingKeys")
            || same_text(tag, "callStateReady")
            || same_text(tag, "callStateHangingUp")
            || same_text(tag, "callStateDiscarded")
            || same_text(tag, "callStateError")
    }

    proof fn tag_known(&self) {
        reveal(<CallState as Wire>::wire);
        match self {
            Self::CallStatePending(p) => p.tag_known(),
            Self::CallStateExchangingKeys(p) => p.tag_known(),
            Self::CallStateReady(p) => p.tag_known(),
            Self::CallStateHangingUp(p) => p.tag_known(),
            Self::CallStateDiscarded(p) => p.tag_known(),
            Self::CallStateError(p) => p.tag_known(),
        }
    }
}

impl Union for CallState {
    proof fn unknown_rejected(d: Doc, at: Seq<char>) {
        reveal(<CallState as Wire>::parse);
    }

    proof fn untagged_rejected(d: Doc, at: Seq<char>) {
        reveal(<CallState as Wire>::parse);
    }
}

/// The user heard their own voice
#[derive(Debug, Clone, PartialEq)]
pub struct CallProblemEcho {}

impl Wire for CallProblemEcho {
    #[verifier::opaque]
    open spec fn wire(&self) -> Doc {
        tagged(Map::empty(), "callProblemEcho"@)
    }

    #[verifier::opaque]
    open spec fn parse(d: Doc, at: Seq<char>) -> Result<Doc, Fault> {
        match d {
            Doc::Object(_) => Ok(tagged(Map::empty(), "callProblemEcho"@)),
            _ => Err(Fault::TypeMismatch(at)),
        }
    }

    fn encode(&self) -> (j: Json) {
        proof {
            reveal(<CallProblemEcho as Wire>::wire);
        }
        seal(Vec::new(), "callProblemEcho")
    }

    fn decode(j: &Json, at: &str) -> (r: Result<Self, DecodeError>) {
        proof {
            reveal(<CallProblemEcho as Wire>::wire);
            reveal(<CallProblemEcho as Wire>::parse);
        }
        let _ = members_of(j, at)?;
        Ok(CallProblemEcho {})
    }

    proof fn round_trip(&self, at: Seq<char>) {
        reveal(<CallProblemEcho as Wire>::wire);
        reveal(<CallProblemEcho as Wire>::parse);
    }
}

impl Tagged for CallProblemEcho {
    open spec fn known(tag: Seq<char>) -> bool {
        tag == "callProblemEcho"@
    }

    fn knows(tag: &str) -> (r: bool) {
        same_text(tag, "callProblemEcho")
    }

    proof fn tag_known(&self) {
        reveal(<CallProblemEcho as Wire>::wire);
        assert(tag_of(self.wire()) == Some("callProblemEcho"@));
        assert(Self::known("callProblemEcho"@));
    }
}

/// The user heard background noise
#[derive(Debug, Clone, PartialEq)]
pub struct CallProblemNoise {}

impl Wire for CallProblemNoise {
    #[verifier::opaque]
    open spec fn wire(&self) -> Doc {
        tagged(Map::empty(), "callProblemNoise"@)
    }

    #[verifier::opaque]
    open spec fn parse(d: Doc, at: Seq<char>) -> Result<Doc, Fault> {
        match d {
            Doc::Object(_) => Ok(tagged(Map::empty(), "callProblemNoise"@)),
            _ => Err(Fault::TypeMismatch(at)),
        }
    }

    fn encode(&self) -> (j: Json) {
        proof {
            reveal(<CallProblemNoise as Wire>::wire);
        }
        seal(Vec::new(), "callProblemNoise")
    }

    fn decode(j: &Json, at: &str) -> (r: Result<Self, DecodeError>) {
        proof {
            reveal(<CallProblemNoise as Wire>::wire);
            reveal(<CallProblemNoise as Wire>::parse);
        }
        let _ = members_of(j, at)?;
        Ok(CallProblemNoise {})
    }

    proof fn round_trip(&self, at: Seq<char>) {
        reveal(<CallProblemNoise as Wire>::wire);
        reveal(<CallProblemNoise as Wire>::parse);
    }
}

impl Tagged for CallProblemNoise {
    open spec fn known(tag: Seq<char>) -> bool {
        tag == "callProblemNoise"@
    }

    fn knows(tag: &str) -> (r: bool) {
        same_text(tag, "callProblemNoise")
    }

    proof fn tag_known(&self) {
        reveal(<CallProblemNoise as Wire>::wire);
        assert(tag_of(self.wire()) == Some("callProblemNoise"@));
        assert(Self::known("callProblemNoise"@));
    }
}

/// The other side kept disappearing
#[derive(Debug, Clone, PartialEq)]
pub struct CallProblemInterruptions {}

impl Wire for CallProblemInterruptions {
    #[verifier::opaque]
    open spec fn wire(&self) -> Doc {
        tagged(Map::empty(), "callProblemInterruptions"@)
    }

    #[verifier::opaque]
    open spec fn parse(d: Doc, at: Seq<char>) -> Result<Doc, Fault> {
        match d {
            Doc::Object(_) => Ok(tagged(Map::empty(), "callProblemInterruptions"@)),
            _ => Err(Fault::TypeMismatch(at)),
        }
    }

    fn encode(&self) -> (j: Json) {
        proof {
            reveal(<CallProblemInterruptions as Wire>::wire);
        }
        seal(Vec::new(), "callProblemInterruptions")
    }

    fn decode(j: &Json, at: &str) -> (r: Result<Self, DecodeError>) {
        proof {
            reveal(<CallProblemInterruptions as Wire>::wire);
            reveal(<CallProblemInterruptions as Wire>::parse);
        }
        let _ = members_of(j, at)?;
        Ok(CallProblemInterruptions {})
    }

    proof fn round_trip(&self, at: Seq<char>) {
        reveal(<CallProblemInterruptions as Wire>::wire);
        reveal(<CallProblemInterruptions as Wire>::parse);
    }
}

impl Tagged for CallProblemInterruptions {
    open spec fn known(tag: Seq<char>) -> bool {
        tag == "callProblemInterruptions"@
    }

    fn knows(tag: &str) -> (r: bool) {
        same_text(tag, "callProblemInterruptions")
    }

    proof fn tag_known(&self) {
        reveal(<CallProblemInterruptions as Wire>::wire);
        assert(tag_of(self.wire()) == Some("callProblemInterruptions"@));
        assert(Self::known("callProblemInterruptions"@));
    }
}

/// The speech was distorted
#[derive(Debug, Clone, PartialEq)]
pub struct CallProblemDistortedSpeech {}

impl Wire for CallProblemDistortedSpeech {
    #[verifier::opaque]
    open spec fn wire(&self) -> Doc {
        tagged(Map::empty(), "callProblemDistortedSpeech"@)
    }

    #[verifier::opaque]
    open spec fn parse(d: Doc, at: Seq<char>) -> Result<Doc, Fault> {
        match d {
            Doc::Object(_) => Ok(tagged(Map::empty(), "callProblemDistortedSpeech"@)),
            _ => Err(Fault::TypeMismatch(at)),
        }
    }

    fn encode(&self) -> (j: Json) {
        proof {
            reveal(<CallProblemDistortedSpeech as Wire>::wire);
        }
        seal(Vec::new(), "callProblemDistortedSpeech")
    }

    fn decode(j: &Json, at: &str) -> (r: Result<Self, DecodeError>) {
        proof {
            reveal(<CallProblemDistortedSpeech as Wire>::wire);
            reveal(<CallProblemDistortedSpeech as Wire>::parse);
        }
        let _ = members_of(j, at)?;
        Ok(CallProblemDistortedSpeech {})
    }

    proof fn round_trip(&self, at: Seq<char>) {
        reveal(<CallProblemDistortedSpeech as Wire>::wire);
        reveal(<CallProblemDistortedSpeech as Wire>::parse);
    }
}

impl Tagged for CallProblemDistortedSpeech {
    open spec fn known(tag: Seq<char>) -> bool {
        tag == "callProblemDistortedSpeech"@
    }

    fn knows(tag: &str) -> (r: bool) {
        same_text(tag, "callProblemDistortedSpeech")
    }

    proof fn tag_known(&self) {
        reveal(<CallProblemDistortedSpeech as Wire>::wire);
        assert(tag_of(self.wire()) == Some("callProblemDistortedSpeech"@));
        assert(Self::known("callProblemDistortedSpeech"@));
    }
}

/// The user couldn't hear the other side
#[derive(Debug, Clone, PartialEq)]
pub struct CallProblemSilentLocal {}

impl Wire for CallProblemSilentLocal {
    #[verifier::opaque]
    open spec fn wire(&self) -> Doc {
        tagged(Map::empty(), "callProblemSilentLocal"@)
    }

    #[verifier::opaque]
    open spec fn parse(d: Doc, at: Seq<char>) -> Result<Doc, Fault> {
        match d {
            Doc::Object(_) => Ok(tagged(Map::empty(), "callProblemSilentLocal"@)),
            _ => Err(Fault::TypeMismatch(at)),
        }
    }

    fn encode(&self) -> (j: Json) {
        proof {
            reveal(<CallProblemSilentLocal as Wire>::wire);
        }
        seal(Vec::new(), "callProblemSilentLocal")
    }

    fn decode(j: &Json, at: &str) -> (r: Result<Self, DecodeError>) {
        proof {
            reveal(<CallProblemSilentLocal as Wire>::wire);
            reveal(<CallProblemSilentLocal as Wire>::parse);
        }
        let _ = members_of(j, at)?;
        Ok(CallProblemSilentLocal {})
    }

    proof fn round_trip(&self, at: Seq<char>) {
        reveal(<CallProblemSilentLocal as Wire>::wire);
        reveal(<CallProblemSilentLocal as Wire>::parse);
    }
}

impl Tagged for CallProblemSilentLocal {
    open spec fn known(tag: Seq<char>) -> bool {
        tag == "callProblemSilentLocal"@
    }

    fn knows(tag: &str) -> (r: bool) {
        same_text(tag, "callProblemSilentLocal")
    }

    proof fn tag_known(&self) {
        reveal(<CallProblemSilentLocal as Wire>::wire);
        assert(tag_of(self.wire()) == Some("callProblemSilentLocal"@));
        assert(Self::known("callProblemSilentLocal"@));
    }
}

/// The other side couldn't hear the user
#[derive(Debug, Clone, PartialEq)]
pub struct CallProblemSilentRemote {}

impl Wire for CallProblemSilentRemote {
    #[verifier::opaque]
    open spec fn wire(&self) -> Doc {
        tagged(Map::empty(), "callProblemSilentRemote"@)
    }

    #[verifier::opaque]
    open spec fn parse(d: Doc, at: Seq<char>) -> Result<Doc, Fault> {
        match d {
            Doc::Object(_) => Ok(tagged(Map::empty(), "callProblemSilentRemote"@)),
            _ => Err(Fault::TypeMismatch(at)),
        }
    }

    fn encode(&self) -> (j: Json) {
        proof {
            reveal(<CallProblemSilentRemote as Wire>::wire);
        }
        seal(Vec::new(), "callProblemSilentRemote")
    }

    fn decode(j: &Json, at: &str) -> (r: Result<Self, DecodeError>) {
        proof {
            reveal(<CallProblemSilentRemote as Wire>::wire);
            reveal(<CallProblemSilentRemote as Wire>::parse);
        }
        let _ = members_of(j, at)?;
        Ok(CallProblemSilentRemote {})
    }

    proof fn round_trip(&self, at: Seq<char>) {
        reveal(<CallProblemSilentRemote as Wire>::wire);
        reveal(<CallProblemSilentRemote as Wire>::parse);
    }
}

impl Tagged for CallProblemSilentRemote {
    open spec fn known(tag: Seq<char>) -> bool {
        tag == "callProblemSilentRemote"@
    }

    fn knows(tag: &str) -> (r: bool) {
        same_text(tag, "callProblemSilentRemote")
    }

    proof fn tag_known(&self) {
        reveal(<CallProblemSilentRemote as Wire>::wire);
        assert(tag_of(self.wire()) == Some("callProblemSilentRemote"@));
        assert(Self::known("callProblemSilentRemote"@));
    }
}

/// The call ended unexpectedly
#[derive(Debug, Clone, PartialEq)]
pub struct CallProblemDropped {}

impl Wire for CallProblemDropped {
    #[verifier::opaque]
    open spec fn wire(&self) -> Doc {
        tagged(Map::empty(), "callProblemDropped"@)
    }

    #[verifier::opaque]
    open spec fn parse(d: Doc, at: Seq<char>) -> Result<Doc, Fault> {
        match d {
            Doc::Object(_) => Ok(tagged(Map::empty(), "callProblemDropped"@)),
            _ => Err(Fault::TypeMismatch(at)),
        }
    }

    fn encode(&self) -> (j: Json) {
        proof {
            reveal(<CallProblemDropped as Wire>::wire);
        }
        seal(Vec::new(), "callProblemDropped")
    }

    fn decode(j: &Json, at: &str) -> (r: Result<Self, DecodeError>) {
        proof {
            reveal(<CallProblemDropped as Wire>::wire);
            reveal(<CallProblemDropped as Wire>::parse);
        }
        let _ = members_of(j, at)?;
        Ok(CallProblemDropped {})
    }

    proof fn round_trip(&self, at: Seq<char>) {
        reveal(<CallProblemDropped as Wire>::wire);
        reveal(<CallProblemDropped as Wire>::parse);
    }
}

impl Tagged for CallProblemDropped {
    open spec fn known(tag: Seq<char>) -> bool {
        tag == "callProblemDropped"@
    }

    fn knows(tag: &str) -> (r: bool) {
        same_text(tag, "callProblemDropped")
    }

    proof fn tag_known(&self) {
        reveal(<CallProblemDropped as Wire>::wire);
        assert(tag_of(self.wire()) == Some("callProblemDropped"@));
        assert(Self::known("callProblemDropped"@));
    }
}

/// Describes the exact type of a problem with a call
#[derive(Debug, Clone, PartialEq)]
pub enum CallProblem {
    CallProblemEcho(CallProblemEcho),
    CallProblemNoise(CallProblemNoise),
    CallProblemInterruptions(CallProblemInterruptions),
    CallProblemDistortedSpeech(CallProblemDistortedSpeech),
    CallProblemSilentLocal(CallProblemSilentLocal),
    CallProblemSilentRemote(CallProblemSilentRemote),
    CallProblemDropped(CallProblemDropped),
}

impl Wire for CallProblem {
    #[verifier::opaque]
    open spec fn wire(&self) -> Doc {
        match self {
            Self::CallProblemEcho(p) => p.wire(),
            Self::CallProblemNoise(p) => p.wire(),
            Self::CallProblemInterruptions(p) => p.wire(),
            Self::CallProblemDistortedSpeech(p) => p.wire(),
            Self::CallProblemSilentLocal(p) => p.wire(),
            Self::CallProblemSilentRemote(p) => p.wire(),
            Self::CallProblemDropped(p) => p.wire(),
        }
    }

    #[verifier::opaque]
    open spec fn parse(d: Doc, at: Seq<char>) -> Result<Doc, Fault> {
        match d {
            Doc::Object(_) => match tag_of(d) {
                Some(t) => if t == "callProblemEcho"@ {
                    CallProblemEcho::parse(d, at)
                } else if t == "callProblemNoise"@ {
                    CallProblemNoise::parse(d, at)
                } else if t == "callProblemInterruptions"@ {
                    CallProblemInterruptions::parse(d, at)
                } else if t == "callProblemDistortedSpeech"@ {
                    CallProblemDistortedSpeech::parse(d, at)
                } else if t == "callProblemSilentLocal"@ {
                    CallProblemSilentLocal::parse(d, at)
                } else if t == "callProblemSilentRemote"@ {
                    CallProblemSilentRemote::parse(d, at)
                } else if t == "callProblemDropped"@ {
                    CallProblemDropped::parse(d, at)
                } else {
                    Err(Fault::UnknownVariant(t))
                },
                None => Err(Fault::MissingDiscriminator),
            },
            _ => Err(Fault::TypeMismatch(at)),
        }
    }

    fn encode(&self) -> (j: Json) {
        proof {
            reveal(<CallProblem as Wire>::wire);
        }
        match self {
            Self::CallProblemEcho(p) => p.encode(),
            Self::CallProblemNoise(p) => p.encode(),
            Self::CallProblemInterruptions(p) => p.encode(),
            Self::CallProblemDistortedSpeech(p) => p.encode(),
            Self::CallProblemSilentLocal(p) => p.encode(),
            Self::CallProblemSilentRemote(p) => p.encode(),
            Self::CallProblemDropped(p) => p.encode(),
        }
    }

    fn decode(j: &Json, at: &str) -> (r: Result<Self, DecodeError>) {
        proof {
            reveal(<CallProblem as Wire>::wire);
            reveal(<CallProblem as Wire>::parse);
        }
        let members = members_of(j, at)?;
        let tag = discriminator(members)?;
        if same_text(tag, "callProblemEcho") {
            Ok(Self::CallProblemEcho(CallProblemEcho::decode(j, at)?))
        } else if same_text(tag, "callProblemNoise") {
            Ok(Self::CallProblemNoise(CallProblemNoise::decode(j, at)?))
        } else if same_text(tag, "callProblemInterruptions") {
            Ok(Self::CallProblemInterruptions(CallProblemInterruptions::decode(j, at)?))
        } else if same_text(tag, "callProblemDistortedSpeech") {
            Ok(Self::CallProblemDistortedSpeech(CallProblemDistortedSpeech::decode(j, at)?))
        } else if same_text(tag, "callProblemSilentLocal") {
            Ok(Self::CallProblemSilentLocal(CallProblemSilentLocal::decode(j, at)?))
        } else if same_text(tag, "callProblemSilentRemote") {
            Ok(Self::CallProblemSilentRemote(CallProblemSilentRemote::decode(j, at)?))
        } else if same_text(tag, "callProblemDropped") {
            Ok(Self::CallProblemDropped(CallProblemDropped::decode(j, at)?))
        } else {
            Err(DecodeError::UnknownVariant(tag.to_owned()))
        }
    }

    proof fn round_trip(&self, at: Seq<char>) {
        reveal(<CallProblem as Wire>::wire);
        reveal(<CallProblem as Wire>::parse);
        reveal_strlit("callProblemDistortedSpeech");
        reveal_strlit("callProblemDropped");
        reveal_strlit("callProblemEcho");
        reveal_strlit("callProblemInterruptions");
        reveal_strlit("callProblemNoise");
        reveal_strlit("callProblemSilentLocal");
        reveal_strlit("callProblemSilentRemote");
        assert("callProblemDistortedSpeech"@.len() == 26);
        assert("callProblemDropped"@.len() == 18);
        assert("callProblemEcho"@.len() == 15);
        assert("callProblemInterruptions"@.len() == 24);
        assert("callProblemNoise"@.len() == 16);
        assert("callProblemSilentLocal"@.len() == 22);
        assert("callProblemSilentRemote"@.len() == 23);
        match self {
            Self::CallProblemEcho(p) => {
                p.tag_known();
                p.round_trip(at);
            },
            Self::CallProblemNoise(p) => {
                p.tag_known();
                p.round_trip(at);
            },
            Self::CallProblemInterruptions(p) => {
                p.tag_known();
                p.round_trip(at);
            },
            Self::CallProblemDistortedSpeech(p) => {
                p.tag_known();
                p.round_trip(at);
            },
            Self::CallProblemSilentLocal(p) => {
                p.tag_known();
                p.round_trip(at);
            },
            Self::CallProblemSilentRemote(p) => {
                p.tag_known();
                p.round_trip(at);
            },
            Self::CallProblemDropped(p) => {
                p.tag_known();
                p.round_trip(at);
            },
        }
    }
}

impl Tagged for CallProblem {
    open spec fn known(tag: Seq<char>) -> bool {
        ||| tag == "callProblemEcho"@
        ||| tag == "callProblemNoise"@
        ||| tag == "callProblemInterruptions"@
        ||| tag == "callProblemDistortedSpeech"@
        ||| tag == "callProblemSilentLocal"@
        ||| tag == "callProblemSilentRemote"@
        ||| tag == "callProblemDropped"@
    }

    fn knows(tag: &str) -> (r: bool) {
        same_text(tag, "callProblemEcho")
            || same_text(tag, "callProblemNoise")
            || same_text(tag, "callProblemInterruptions")
            || same_text(tag, "callProblemDistortedSpeech")
            || same_text(tag, "callProblemSilentLocal")
            || same_text(tag, "callProblemSilentRemote")
            || same_text(tag, "callProblemDropped")
    }

    proof fn tag_known(&self) {
        reveal(<CallProblem as Wire>::wire);
        match self {
            Self::CallProblemEcho(p) => p.tag_known(),
            Self::CallProblemNoise(p) => p.tag_known(),
            Self::CallProblemInterruptions(p) => p.tag_known(),
            Self::CallProblemDistortedSpeech(p) => p.tag_known(),
            Self::CallProblemSilentLocal(p) => p.tag_known(),
            Self::CallProblemSilentRemote(p) => p.tag_known(),
            Self::CallProblemDropped(p) => p.tag_known(),
        }
    }
}

impl Union for CallProblem {
    proof fn unknown_rejected(d: Doc, at: Seq<char>) {
        reveal(<CallProblem as Wire>::parse);
    }

    proof fn untagged_rejected(d: Doc, at: Seq<char>) {
        reveal(<CallProblem as Wire>::parse);
    }
}

/// Describes a call
#[derive(Debug, Clone, PartialEq)]
pub struct Call {
    /// Call identifier, not persistent
    pub id: i32,
    /// Peer user identifier
    pub user_id: i32,
    /// True, if the call is outgoing
    pub is_outgoing: bool,
    /// Call state
    pub state: CallState,
}

impl Wire for Call {
    #[verifier::opaque]
    open spec fn wire(&self) -> Doc {
        tagged(
            Map::empty()
                .insert("id"@, self.id.wire())
                .insert("userId"@, self.user_id.wire())
                .insert("isOutgoing"@, self.is_outgoing.wire())
                .insert("state"@, self.state.wire()),
            "call"@,
        )
    }

    #[verifier::opaque]
    open spec fn parse(d: Doc, at: Seq<char>) -> Result<Doc, Fault> {
        match d {
            Doc::Object(m) => {
                let id = field::<i32>(m, "id"@);
                let user_id = field::<i32>(m, "userId"@);
                let is_outgoing = field::<bool>(m, "isOutgoing"@);
                let state = field::<CallState>(m, "state"@);
                if id is Err {
                    id
                } else if user_id is Err {
                    user_id
                } else if is_outgoing is Err {
                    is_outgoing
                } else if state is Err {
                    state
                } else {
                    Ok(
                        tagged(
                            Map::empty()
                                .insert("id"@, id->Ok_0)
                                .insert("userId"@, user_id->Ok_0)
                                .insert("isOutgoing"@, is_outgoing->Ok_0)
                                .insert("state"@, state->Ok_0),
                            "call"@,
                        ),
                    )
                }
            },
            _ => Err(Fault::TypeMismatch(at)),
        }
    }

    fn encode(&self) -> (j: Json) {
        proof {
            reveal(<Call as Wire>::wire);
        }
        let mut members: Vec<Member> = Vec::new();
        put(&mut members, "id", self.id.encode());
        put(&mut members, "userId", self.user_id.encode());
        put(&mut members, "isOutgoing", self.is_outgoing.encode());
        put(&mut members, "state", self.state.encode());
        seal(members, "call")
    }

    fn decode(j: &Json, at: &str) -> (r: Result<Self, DecodeError>) {
        proof {
            reveal(<Call as Wire>::wire);
            reveal(<Call as Wire>::parse);
        }
        let members = members_of(j, at)?;
        let id = read_field::<i32>(members, "id")?;
        let user_id = read_field::<i32>(members, "userId")?;
        let is_outgoing = read_field::<bool>(members, "isOutgoing")?;
        let state = read_field::<CallState>(members, "state")?;
        Ok(Call { id, user_id, is_outgoing, state })
    }

    proof fn round_trip(&self, at: Seq<char>) {
        reveal(<Call as Wire>::wire);
        reveal(<Call as Wire>::parse);
        reveal_strlit("@type");
        reveal_strlit("id");
        reveal_strlit("isOutgoing");
        reveal_strlit("state");
        reveal_strlit("userId");
        assert("@type"@.len() == 5 && "@type"@[0] == '@');
        assert("id"@.len() == 2);
        assert("isOutgoing"@.len() == 10);
        assert("state"@.len() == 5 && "state"@[0] == 's');
        assert("userId"@.len() == 6);
        self.id.round_trip("id"@);
        self.user_id.round_trip("userId"@);
        self.is_outgoing.round_trip("isOutgoing"@);
        self.state.round_trip("state"@);
    }
}

impl Tagged for Call {
    open spec fn known(tag: Seq<char>) -> bool {
        tag == "call"@
    }

    fn knows(tag: &str) -> (r: bool) {
        same_text(tag, "call")
    }

    proof fn tag_known(&self) {
        reveal(<Call as Wire>::wire);
        assert(tag_of(self.wire()) == Some("call"@));
        assert(Self::known("call"@));
    }
}

/// Contains settings for the authentication of the user's phone number
#[derive(Debug, Clone, PartialEq)]
pub struct PhoneNumberAuthenticationSettings {
    /// Pass true if the authentication code may be sent via flash call to the specified phone
    /// number
    pub allow_flash_call: bool,
    /// Pass true if the authenticated phone number is used on the current device
    pub is_current_phone_number: bool,
    /// For official applications only. True, if the app can use Android SMS Retriever API (requires
    /// Google Play Services >= 10.2) to automatically receive the authentication code from the SMS.
    /// See https://developers.google.com/identity/sms-retriever/ for more details
    pub allow_sms_retriever_api: bool,
}

impl Wire for PhoneNumberAuthenticationSettings {
    #[verifier::opaque]
    open spec fn wire(&self) -> Doc {
        tagged(
            Map::empty()
                .insert("allowFlashCall"@, self.allow_flash_call.wire())
                .insert("isCurrentPhoneNumber"@, self.is_current_phone_number.wire())
                .insert("allowSmsRetrieverApi"@, self.allow_sms_retriever_api.wire()),
            "phoneNumberAuthenticationSettings"@,
        )
    }

    #[verifier::opaque]
    open spec fn parse(d: Doc, at: Seq<char>) -> Result<Doc, Fault> {
        match d {
            Doc::Object(m) => {
                let allow_flash_call = field::<bool>(m, "allowFlashCall"@);
                let is_current_phone_number = field::<bool>(m, "isCurrentPhoneNumber"@);
                let allow_sms_retriever_api = field::<bool>(m, "allowSmsRetrieverApi"@);
                if allow_flash_call is Err {
                    allow_flash_call
                } else if is_current_phone_number is Err {
                    is_current_phone_number
                } else if allow_sms_retriever_api is Err {
                    allow_sms_retriever_api
                } else {
                    Ok(
                        tagged(
                            Map::empty()
                                .insert("allowFlashCall"@, allow_flash_call->Ok_0)
                                .insert("isCurrentPhoneNumber"@, is_current_phone_number->Ok_0)
                                .insert("allowSmsRetrieverApi"@, allow_sms_retriever_api->Ok_0),
                            "phoneNumberAuthenticationSettings"@,
                        ),
                    )
                }
            },
            _ => Err(Fault::TypeMismatch(at)),
        }
    }

    fn encode(&self) -> (j: Json) {
        proof {
            reveal(<PhoneNumberAuthenticationSettings as Wire>::wire);
        }
        let mut members: Vec<Member> = Vec::new();
        put(&mut members, "allowFlashCall", self.allow_flash_call.encode());
        put(&mut members, "isCurrentPhoneNumber", self.is_current_phone_number.encode());
        put(&mut members, "allowSmsRetrieverApi", self.allow_sms_retriever_api.encode());
        seal(members, "phoneNumberAuthenticationSettings")
    }

    fn decode(j: &Json, at: &str) -> (r: Result<Self, DecodeError>) {
        proof {
            reveal(<PhoneNumberAuthenticationSettings as Wire>::wire);
            reveal(<PhoneNumberAuthenticationSettings as Wire>::parse);
        }
        let members = members_of(j, at)?;
        let allow_flash_call = read_field::<bool>(members, "allowFlashCall")?;
        let is_current_phone_number = read_field::<bool>(members, "isCurrentPhoneNumber")?;
        let allow_sms_retriever_api = read_field::<bool>(members, "allowSmsRetrieverApi")?;
        Ok(PhoneNumberAuthenticationSettings {
            allow_flash_call,
            is_current_phone_number,
            allow_sms_retriever_api,
        })
    }

    proof fn round_trip(&self, at: Seq<char>) {
        reveal(<PhoneNumberAuthenticationSettings as Wire>::wire);
        reveal(<PhoneNumberAuthenticationSettings as Wire>::parse);
        reveal_strlit("@type");
        reveal_strlit("allowFlashCall");
        reveal_strlit("allowSmsRetrieverApi");
        reveal_strlit("isCurrentPhoneNumber");
        assert("@type"@.len() == 5);
        assert("allowFlashCall"@.len() == 14);
        assert("allowSmsRetrieverApi"@.len() == 20 && "allowSmsRetrieverApi"@[0] == 'a');
        assert("isCurrentPhoneNumber"@.len() == 20 && "isCurrentPhoneNumber"@[0] == 'i');
        self.allow_flash_call.round_trip("allowFlashCall"@);
        self.is_current_phone_number.round_trip("isCurrentPhoneNumber"@);
        self.allow_sms_retriever_api.round_trip("allowSmsRetrieverApi"@);
    }
}

impl Tagged for PhoneNumberAuthenticationSettings {
    open spec fn known(tag: Seq<char>) -> bool {
        tag == "phoneNumberAuthenticationSettings"@
    }

    fn knows(tag: &str) -> (r: bool) {
        same_text(tag, "phoneNumberAuthenticationSettings")
    }

    proof fn tag_known(&self) {
        reveal(<PhoneNumberAuthenticationSettings as Wire>::wire);
        assert(tag_of(self.wire()) == Some("phoneNumberAuthenticationSettings"@));
        assert(Self::known("phoneNumberAuthenticationSettings"@));
    }
}

/// Represents a list of animations
#[derive(Debug, Clone, PartialEq)]
pub struct Animations {
    /// List of animations
    pub animations: Vec<Animation>,
}

impl Wire for Animations {
    #[verifier::opaque]
    open spec fn wire(&self) -> Doc {
        tagged(
            Map::empty()
                .insert("animations"@, self.animations.wire()),
            "animations"@,
        )
    }

    #[verifier::opaque]
    open spec fn parse(d: Doc, at: Seq<char>) -> Result<Doc, Fault> {
        match d {
            Doc::Object(m) => {
                let animations = field::<Vec<Animation>>(m, "animations"@);
                if animations is Err {
                    animations
                } else {
                    Ok(
                        tagged(
                            Map::empty()
                                .insert("animations"@, animations->Ok_0),
                            "animations"@,
                        ),
                    )
                }
            },
            _ => Err(Fault::TypeMismatch(at)),
        }
    }

    fn encode(&self) -> (j: Json) {
        proof {
            reveal(<Animations as Wire>::wire);
        }
        let mut members: Vec<Member> = Vec::new();
        put(&mut members, "animations", self.animations.encode());
        seal(members, "animations")
    }

    fn decode(j: &Json, at: &str) -> (r: Result<Self, DecodeError>) {
        proof {
            reveal(<Animations as Wire>::wire);
            reveal(<Animations as Wire>::parse);
        }
        let members = members_of(j, at)?;
        let animations = read_field::<Vec<Animation>>(members, "animations")?;
        Ok(Animations { animations })
    }

    proof fn round_trip(&self, at: Seq<char>) {
        reveal(<Animations as Wire>::wire);
        reveal(<Animations as Wire>::parse);
        reveal_strlit("@type");
        reveal_strlit("animations");
        assert("@type"@.len() == 5);
        assert("animations"@.len() == 10);
        self.animations.round_trip("animations"@);
    }
}

impl Tagged for Animations {
    open spec fn known(tag: Seq<char>) -> bool {
        tag == "animations"@
    }

    fn knows(tag: &str) -> (r: bool) {
        same_text(tag, "animations")
    }

    proof fn tag_known(&self) {
        reveal(<Animations as Wire>::wire);
        assert(tag_of(self.wire()) == Some("animations"@));
        assert(Self::known("animations"@));
    }
}

/// Represents the result of an ImportContacts request
#[derive(Debug, Clone, PartialEq)]
pub struct ImportedContacts {
    /// User identifiers of the imported contacts in the same order as they were specified in the
    /// request; 0 if the contact is not yet a registered user
    pub user_ids: Vec<i32>,
    /// The number of users that imported the corresponding contact; 0 for already registered users
    /// or if unavailable
    pub importer_count: Vec<i32>,
}

impl Wire for ImportedContacts {
    #[verifier::opaque]
    open spec fn wire(&self) -> Doc {
        tagged(
            Map::empty()
                .insert("userIds"@, self.user_ids.wire())
                .insert("importerCount"@, self.importer_count.wire()),
            "importedContacts"@,
        )
    }

    #[verifier::opaque]
    open spec fn parse(d: Doc, at: Seq<char>) -> Result<Doc, Fault> {
        match d {
            Doc::Object(m) => {
                let user_ids = field::<Vec<i32>>(m, "userIds"@);
                let importer_count = field::<Vec<i32>>(m, "importerCount"@);
                if user_ids is Err {
                    user_ids
                } else if importer_count is Err {
                    importer_count
                } else {
                    Ok(
                        tagged(
                            Map::empty()
                                .insert("userIds"@, user_ids->Ok_0)
                                .insert("importerCount"@, importer_count->Ok_0),
                            "importedContacts"@,
                        ),
                    )
                }
            },
            _ => Err(Fault::TypeMismatch(at)),
        }
    }

    fn encode(&self) -> (j: Json) {
        proof {
            reveal(<ImportedContacts as Wire>::wire);
        }
        let mut members: Vec<Member> = Vec::new();
        put(&mut members, "userIds", self.user_ids.encode());
        put(&mut members, "importerCount", self.importer_count.encode());
        seal(members, "importedContacts")
    }

    fn decode(j: &Json, at: &str) -> (r: Result<Self, DecodeError>) {
        proof {
            reveal(<ImportedContacts as Wire>::wire);
            reveal(<ImportedContacts as Wire>::parse);
        }
        let members = members_of(j, at)?;
        let user_ids = read_field::<Vec<i32>>(members, "userIds")?;
        let importer_count = read_field::<Vec<i32>>(members, "importerCount")?;
        Ok(ImportedContacts { user_ids, importer_count })
    }

    proof fn round_trip(&self, at: Seq<char>) {
        reveal(<ImportedContacts as Wire>::wire);
        reveal(<ImportedContacts as Wire>::parse);
        reveal_strlit("@type");
        reveal_strlit("importerCount");
        reveal_strlit("userIds");
        assert("@type"@.len() == 5);
        assert("importerCount"@.len() == 13);
        assert("userIds"@.len() == 7);
        self.user_ids.round_trip("userIds"@);
        self.importer_count.round_trip("importerCount"@);
    }
}

impl Tagged for ImportedContacts {
    open spec fn known(tag: Seq<char>) -> bool {
        tag == "importedContacts"@
    }

    fn knows(tag: &str) -> (r: bool) {
        same_text(tag, "importedContacts")
    }

    proof fn tag_known(&self) {
        reveal(<ImportedContacts as Wire>::wire);
        assert(tag_of(self.wire()) == Some("importedContacts"@));
        assert(Self::known("importedContacts"@));
    }
}

/// Contains an HTTP URL
#[derive(Debug, Clone, PartialEq)]
pub struct HttpUrl {
    /// The URL
    pub url: String,
}

impl Wire for HttpUrl {
    #[verifier::opaque]
    open spec fn wire(&self) -> Doc {
        tagged(
            Map::empty()
                .insert("url"@, self.url.wire()),
            "httpUrl"@,
        )
    }

    #[verifier::opaque]
    open spec fn parse(d: Doc, at: Seq<char>) -> Result<Doc, Fault> {
        match d {
            Doc::Object(m) => {
                let url = field::<String>(m, "url"@);
                if url is Err {
                    url
                } else {
                    Ok(
                        tagged(
                            Map::empty()
                                .insert("url"@, url->Ok_0),
                            "httpUrl"@,
                        ),
                    )
                }
            },
            _ => Err(Fault::TypeMismatch(at)),
        }
    }

    fn encode(&self) -> (j: Json) {
        proof {
            reveal(<HttpUrl as Wire>::wire);
        }
        let mut members: Vec<Member> = Vec::new();
        put(&mut members, "url", self.url.encode());
        seal(members, "httpUrl")
    }

    fn decode(j: &Json, at: &str) -> (r: Result<Self, DecodeError>) {
        proof {
            reveal(<HttpUrl as Wire>::wire);
            reveal(<HttpUrl as Wire>::parse);
        }
        let members = members_of(j, at)?;
        let url = read_field::<String>(members, "url")?;
        Ok(HttpUrl { url })
    }

    proof fn round_trip(&self, at: Seq<char>) {
        reveal(<HttpUrl as Wire>::wire);
        reveal(<HttpUrl as Wire>::parse);
        reveal_strlit("@type");
        reveal_strlit("url");
        assert("@type"@.len() == 5);
        assert("url"@.len() == 3);
        self.url.round_trip("url"@);
    }
}

impl Tagged for HttpUrl {
    open spec fn known(tag: Seq<char>) -> bool {
        tag == "httpUrl"@
    }

    fn knows(tag: &str) -> (r: bool) {
        same_text(tag, "httpUrl")
    }

    proof fn tag_known(&self) {
        reveal(<HttpUrl as Wire>::wire);
        assert(tag_of(self.wire()) == Some("httpUrl"@));
        assert(Self::known("httpUrl"@));
    }
}

} // verus!
