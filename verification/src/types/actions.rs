//! Search filters, chat actions, user statuses and sticker sets.

use vstd::prelude::*;
use crate::codec::{
    discriminator, encode_wide, field, lemma_wide_round_trip, members_of, optional_field, put,
    read_field, read_optional, read_wide, seal, Tagged, Union, wide_doc, wide_field, Wire,
};
use crate::error::{DecodeError, Fault};
use crate::json::{Doc, Json, Member, tag_of, tagged};
use crate::text::same_text;
use crate::types::{
    PhotoSize, Sticker,
};

verus! {

/// Returns all found messages, no filter is applied
#[derive(Debug, Clone, PartialEq)]
pub struct SearchMessagesFilterEmpty {}

impl Wire for SearchMessagesFilterEmpty {
    #[verifier::opaque]
    open spec fn wire(&self) -> Doc {
        tagged(Map::empty(), "searchMessagesFilterEmpty"@)
    }

    #[verifier::opaque]
    open spec fn parse(d: Doc, at: Seq<char>) -> Result<Doc, Fault> {
        match d {
            Doc::Object(_) => Ok(tagged(Map::empty(), "searchMessagesFilterEmpty"@)),
            _ => Err(Fault::TypeMismatch(at)),
        }
    }

    fn encode(&self) -> (j: Json) {
        proof {
            reveal(<SearchMessagesFilterEmpty as Wire>::wire);
        }
        seal(Vec::new(), "searchMessagesFilterEmpty")
    }

    fn decode(j: &Json, at: &str) -> (r: Result<Self, DecodeError>) {
        proof {
            reveal(<SearchMessagesFilterEmpty as Wire>::wire);
            reveal(<SearchMessagesFilterEmpty as Wire>::parse);
        }
        let _ = members_of(j, at)?;
        Ok(SearchMessagesFilterEmpty {})
    }

    proof fn round_trip(&self, at: Seq<char>) {
        reveal(<SearchMessagesFilterEmpty as Wire>::wire);
        reveal(<SearchMessagesFilterEmpty as Wire>::parse);
    }
}

impl Tagged for SearchMessagesFilterEmpty {
    open spec fn known(tag: Seq<char>) -> bool {
        tag == "searchMessagesFilterEmpty"@
    }

    fn knows(tag: &str) -> (r: bool) {
        same_text(tag, "searchMessagesFilterEmpty")
    }

    proof fn tag_known(&self) {
        reveal(<SearchMessagesFilterEmpty as Wire>::wire);
        assert(tag_of(self.wire()) == Some("searchMessagesFilterEmpty"@));
        assert(Self::known("searchMessagesFilterEmpty"@));
    }
}

/// Returns only animation messages
#[derive(Debug, Clone, PartialEq)]
pub struct SearchMessagesFilterAnimation {}

impl Wire for SearchMessagesFilterAnimation {
    #[verifier::opaque]
    open spec fn wire(&self) -> Doc {
        tagged(Map::empty(), "searchMessagesFilterAnimation"@)
    }

    #[verifier::opaque]
    open spec fn parse(d: Doc, at: Seq<char>) -> Result<Doc, Fault> {
        match d {
            Doc::Object(_) => Ok(tagged(Map::empty(), "searchMessagesFilterAnimation"@)),
            _ => Err(Fault::TypeMismatch(at)),
        }
    }

    fn encode(&self) -> (j: Json) {
        proof {
            reveal(<SearchMessagesFilterAnimation as Wire>::wire);
        }
        seal(Vec::new(), "searchMessagesFilterAnimation")
    }

    fn decode(j: &Json, at: &str) -> (r: Result<Self, DecodeError>) {
        proof {
            reveal(<SearchMessagesFilterAnimation as Wire>::wire);
            reveal(<SearchMessagesFilterAnimation as Wire>::parse);
        }
        let _ = members_of(j, at)?;
        Ok(SearchMessagesFilterAnimation {})
    }

    proof fn round_trip(&self, at: Seq<char>) {
        reveal(<SearchMessagesFilterAnimation as Wire>::wire);
        reveal(<SearchMessagesFilterAnimation as Wire>::parse);
    }
}

impl Tagged for SearchMessagesFilterAnimation {
    open spec fn known(tag: Seq<char>) -> bool {
        tag == "searchMessagesFilterAnimation"@
    }

    fn knows(tag: &str) -> (r: bool) {
        same_text(tag, "searchMessagesFilterAnimation")
    }

    proof fn tag_known(&self) {
        reveal(<SearchMessagesFilterAnimation as Wire>::wire);
        assert(tag_of(self.wire()) == Some("searchMessagesFilterAnimation"@));
        assert(Self::known("searchMessagesFilterAnimation"@));
    }
}

/// Returns only audio messages
#[derive(Debug, Clone, PartialEq)]
pub struct SearchMessagesFilterAudio {}

impl Wire for SearchMessagesFilterAudio {
    #[verifier::opaque]
    open spec fn wire(&self) -> Doc {
        tagged(Map::empty(), "searchMessagesFilterAudio"@)
    }

    #[verifier::opaque]
    open spec fn parse(d: Doc, at: Seq<char>) -> Result<Doc, Fault> {
        match d {
            Doc::Object(_) => Ok(tagged(Map::empty(), "searchMessagesFilterAudio"@)),
            _ => Err(Fault::TypeMismatch(at)),
        }
    }

    fn encode(&self) -> (j: Json) {
        proof {
            reveal(<SearchMessagesFilterAudio as Wire>::wire);
        }
        seal(Vec::new(), "searchMessagesFilterAudio")
    }

    fn decode(j: &Json, at: &str) -> (r: Result<Self, DecodeError>) {
        proof {
            reveal(<SearchMessagesFilterAudio as Wire>::wire);
            reveal(<SearchMessagesFilterAudio as Wire>::parse);
        }
        let _ = members_of(j, at)?;
        Ok(SearchMessagesFilterAudio {})
    }

    proof fn round_trip(&self, at: Seq<char>) {
        reveal(<SearchMessagesFilterAudio as Wire>::wire);
        reveal(<SearchMessagesFilterAudio as Wire>::parse);
    }
}

impl Tagged for SearchMessagesFilterAudio {
    open spec fn known(tag: Seq<char>) -> bool {
        tag == "searchMessagesFilterAudio"@
    }

    fn knows(tag: &str) -> (r: bool) {
        same_text(tag, "searchMessagesFilterAudio")
    }

    proof fn tag_known(&self) {
        reveal(<SearchMessagesFilterAudio as Wire>::wire);
        assert(tag_of(self.wire()) == Some("searchMessagesFilterAudio"@));
        assert(Self::known("searchMessagesFilterAudio"@));
    }
}

/// Returns only document messages
#[derive(Debug, Clone, PartialEq)]
pub struct SearchMessagesFilterDocument {}

impl Wire for SearchMessagesFilterDocument {
    #[verifier::opaque]
    open spec fn wire(&self) -> Doc {
        tagged(Map::empty(), "searchMessagesFilterDocument"@)
    }

    #[verifier::opaque]
    open spec fn parse(d: Doc, at: Seq<char>) -> Result<Doc, Fault> {
        match d {
            Doc::Object(_) => Ok(tagged(Map::empty(), "searchMessagesFilterDocument"@)),
            _ => Err(Fault::TypeMismatch(at)),
        }
    }

    fn encode(&self) -> (j: Json) {
        proof {
            reveal(<SearchMessagesFilterDocument as Wire>::wire);
        }
        seal(Vec::new(), "searchMessagesFilterDocument")
    }

    fn decode(j: &Json, at: &str) -> (r: Result<Self, DecodeError>) {
        proof {
            reveal(<SearchMessagesFilterDocument as Wire>::wire);
            reveal(<SearchMessagesFilterDocument as Wire>::parse);
        }
        let _ = members_of(j, at)?;
        Ok(SearchMessagesFilterDocument {})
    }

    proof fn round_trip(&self, at: Seq<char>) {
        reveal(<SearchMessagesFilterDocument as Wire>::wire);
        reveal(<SearchMessagesFilterDocument as Wire>::parse);
    }
}

impl Tagged for SearchMessagesFilterDocument {
    open spec fn known(tag: Seq<char>) -> bool {
        tag == "searchMessagesFilterDocument"@
    }

    fn knows(tag: &str) -> (r: bool) {
        same_text(tag, "searchMessagesFilterDocument")
    }

    proof fn tag_known(&self) {
        reveal(<SearchMessagesFilterDocument as Wire>::wire);
        assert(tag_of(self.wire()) == Some("searchMessagesFilterDocument"@));
        assert(Self::known("searchMessagesFilterDocument"@));
    }
}

/// Returns only photo messages
#[derive(Debug, Clone, PartialEq)]
pub struct SearchMessagesFilterPhoto {}

impl Wire for SearchMessagesFilterPhoto {
    #[verifier::opaque]
    open spec fn wire(&self) -> Doc {
        tagged(Map::empty(), "searchMessagesFilterPhoto"@)
    }

    #[verifier::opaque]
    open spec fn parse(d: Doc, at: Seq<char>) -> Result<Doc, Fault> {
        match d {
            Doc::Object(_) => Ok(tagged(Map::empty(), "searchMessagesFilterPhoto"@)),
            _ => Err(Fault::TypeMismatch(at)),
        }
    }

    fn encode(&self) -> (j: Json) {
        proof {
            reveal(<SearchMessagesFilterPhoto as Wire>::wire);
        }
        seal(Vec::new(), "searchMessagesFilterPhoto")
    }

    fn decode(j: &Json, at: &str) -> (r: Result<Self, DecodeError>) {
        proof {
            reveal(<SearchMessagesFilterPhoto as Wire>::wire);
            reveal(<SearchMessagesFilterPhoto as Wire>::parse);
        }
        let _ = members_of(j, at)?;
        Ok(SearchMessagesFilterPhoto {})
    }

    proof fn round_trip(&self, at: Seq<char>) {
        reveal(<SearchMessagesFilterPhoto as Wire>::wire);
        reveal(<SearchMessagesFilterPhoto as Wire>::parse);
    }
}

impl Tagged for SearchMessagesFilterPhoto {
    open spec fn known(tag: Seq<char>) -> bool {
        tag == "searchMessagesFilterPhoto"@
    }

    fn knows(tag: &str) -> (r: bool) {
        same_text(tag, "searchMessagesFilterPhoto")
    }

    proof fn tag_known(&self) {
        reveal(<SearchMessagesFilterPhoto as Wire>::wire);
        assert(tag_of(self.wire()) == Some("searchMessagesFilterPhoto"@));
        assert(Self::known("searchMessagesFilterPhoto"@));
    }
}

/// Returns only video messages
#[derive(Debug, Clone, PartialEq)]
pub struct SearchMessagesFilterVideo {}

impl Wire for SearchMessagesFilterVideo {
    #[verifier::opaque]
    open spec fn wire(&self) -> Doc {
        tagged(Map::empty(), "searchMessagesFilterVideo"@)
    }

    #[verifier::opaque]
    open spec fn parse(d: Doc, at: Seq<char>) -> Result<Doc, Fault> {
        match d {
            Doc::Object(_) => Ok(tagged(Map::empty(), "searchMessagesFilterVideo"@)),
            _ => Err(Fault::TypeMismatch(at)),
        }
    }

    fn encode(&self) -> (j: Json) {
        proof {
            reveal(<SearchMessagesFilterVideo as Wire>::wire);
        }
        seal(Vec::new(), "searchMessagesFilterVideo")
    }

    fn decode(j: &Json, at: &str) -> (r: Result<Self, DecodeError>) {
        proof {
            reveal(<SearchMessagesFilterVideo as Wire>::wire);
            reveal(<SearchMessagesFilterVideo as Wire>::parse);
        }
        let _ = members_of(j, at)?;
        Ok(SearchMessagesFilterVideo {})
    }

    proof fn round_trip(&self, at: Seq<char>) {
        reveal(<SearchMessagesFilterVideo as Wire>::wire);
        reveal(<SearchMessagesFilterVideo as Wire>::parse);
    }
}

impl Tagged for SearchMessagesFilterVideo {
    open spec fn known(tag: Seq<char>) -> bool {
        tag == "searchMessagesFilterVideo"@
    }

    fn knows(tag: &str) -> (r: bool) {
        same_text(tag, "searchMessagesFilterVideo")
    }

    proof fn tag_known(&self) {
        reveal(<SearchMessagesFilterVideo as Wire>::wire);
        assert(tag_of(self.wire()) == Some("searchMessagesFilterVideo"@));
        assert(Self::known("searchMessagesFilterVideo"@));
    }
}

/// Returns only voice note messages
#[derive(Debug, Clone, PartialEq)]
pub struct SearchMessagesFilterVoiceNote {}

impl Wire for SearchMessagesFilterVoiceNote {
    #[verifier::opaque]
    open spec fn wire(&self) -> Doc {
        tagged(Map::empty(), "searchMessagesFilterVoiceNote"@)
    }

    #[verifier::opaque]
    open spec fn parse(d: Doc, at: Seq<char>) -> Result<Doc, Fault> {
        match d {
            Doc::Object(_) => Ok(tagged(Map::empty(), "searchMessagesFilterVoiceNote"@)),
            _ => Err(Fault::TypeMismatch(at)),
        }
    }

    fn encode(&self) -> (j: Json) {
        proof {
            reveal(<SearchMessagesFilterVoiceNote as Wire>::wire);
        }
        seal(Vec::new(), "searchMessagesFilterVoiceNote")
    }

    fn decode(j: &Json, at: &str) -> (r: Result<Self, DecodeError>) {
        proof {
            reveal(<SearchMessagesFilterVoiceNote as Wire>::wire);
            reveal(<SearchMessagesFilterVoiceNote as Wire>::parse);
        }
        let _ = members_of(j, at)?;
        Ok(SearchMessagesFilterVoiceNote {})
    }

    proof fn round_trip(&self, at: Seq<char>) {
        reveal(<SearchMessagesFilterVoiceNote as Wire>::wire);
        reveal(<SearchMessagesFilterVoiceNote as Wire>::parse);
    }
}

impl Tagged for SearchMessagesFilterVoiceNote {
    open spec fn known(tag: Seq<char>) -> bool {
        tag == "searchMessagesFilterVoiceNote"@
    }

    fn knows(tag: &str) -> (r: bool) {
        same_text(tag, "searchMessagesFilterVoiceNote")
    }

    proof fn tag_known(&self) {
        reveal(<SearchMessagesFilterVoiceNote as Wire>::wire);
        assert(tag_of(self.wire()) == Some("searchMessagesFilterVoiceNote"@));
        assert(Self::known("searchMessagesFilterVoiceNote"@));
    }
}

/// Returns only photo and video messages
#[derive(Debug, Clone, PartialEq)]
pub struct SearchMessagesFilterPhotoAndVideo {}

impl Wire for SearchMessagesFilterPhotoAndVideo {
    #[verifier::opaque]
    open spec fn wire(&self) -> Doc {
        tagged(Map::empty(), "searchMessagesFilterPhotoAndVideo"@)
    }

    #[verifier::opaque]
    open spec fn parse(d: Doc, at: Seq<char>) -> Result<Doc, Fault> {
        match d {
            Doc::Object(_) => Ok(tagged(Map::empty(), "searchMessagesFilterPhotoAndVideo"@)),
            _ => Err(Fault::TypeMismatch(at)),
        }
    }

    fn encode(&self) -> (j: Json) {
        proof {
            reveal(<SearchMessagesFilterPhotoAndVideo as Wire>::wire);
        }
        seal(Vec::new(), "searchMessagesFilterPhotoAndVideo")
    }

    fn decode(j: &Json, at: &str) -> (r: Result<Self, DecodeError>) {
        proof {
            reveal(<SearchMessagesFilterPhotoAndVideo as Wire>::wire);
            reveal(<SearchMessagesFilterPhotoAndVideo as Wire>::parse);
        }
        let _ = members_of(j, at)?;
        Ok(SearchMessagesFilterPhotoAndVideo {})
    }

    proof fn round_trip(&self, at: Seq<char>) {
        reveal(<SearchMessagesFilterPhotoAndVideo as Wire>::wire);
        reveal(<SearchMessagesFilterPhotoAndVideo as Wire>::parse);
    }
}

impl Tagged for SearchMessagesFilterPhotoAndVideo {
    open spec fn known(tag: Seq<char>) -> bool {
        tag == "searchMessagesFilterPhotoAndVideo"@
    }

    fn knows(tag: &str) -> (r: bool) {
        same_text(tag, "searchMessagesFilterPhotoAndVideo")
    }

    proof fn tag_known(&self) {
        reveal(<SearchMessagesFilterPhotoAndVideo as Wire>::wire);
        assert(tag_of(self.wire()) == Some("searchMessagesFilterPhotoAndVideo"@));
        assert(Self::known("searchMessagesFilterPhotoAndVideo"@));
    }
}

/// Returns only messages containing URLs
#[derive(Debug, Clone, PartialEq)]
pub struct SearchMessagesFilterUrl {}

impl Wire for SearchMessagesFilterUrl {
    #[verifier::opaque]
    open spec fn wire(&self) -> Doc {
        tagged(Map::empty(), "searchMessagesFilterUrl"@)
    }

    #[verifier::opaque]
    open spec fn parse(d: Doc, at: Seq<char>) -> Result<Doc, Fault> {
        match d {
            Doc::Object(_) => Ok(tagged(Map::empty(), "searchMessagesFilterUrl"@)),
            _ => Err(Fault::TypeMismatch(at)),
        }
    }

    fn encode(&self) -> (j: Json) {
        proof {
            reveal(<SearchMessagesFilterUrl as Wire>::wire);
        }
        seal(Vec::new(), "searchMessagesFilterUrl")
    }

    fn decode(j: &Json, at: &str) -> (r: Result<Self, DecodeError>) {
        proof {
            reveal(<SearchMessagesFilterUrl as Wire>::wire);
            reveal(<SearchMessagesFilterUrl as Wire>::parse);
        }
        let _ = members_of(j, at)?;
        Ok(SearchMessagesFilterUrl {})
    }

    proof fn round_trip(&self, at: Seq<char>) {
        reveal(<SearchMessagesFilterUrl as Wire>::wire);
        reveal(<SearchMessagesFilterUrl as Wire>::parse);
    }
}

impl Tagged for SearchMessagesFilterUrl {
    open spec fn known(tag: Seq<char>) -> bool {
        tag == "searchMessagesFilterUrl"@
    }

    fn knows(tag: &str) -> (r: bool) {
        same_text(tag, "searchMessagesFilterUrl")
    }

    proof fn tag_known(&self) {
        reveal(<SearchMessagesFilterUrl as Wire>::wire);
        assert(tag_of(self.wire()) == Some("searchMessagesFilterUrl"@));
        assert(Self::known("searchMessagesFilterUrl"@));
    }
}

/// Returns only messages containing chat photos
#[derive(Debug, Clone, PartialEq)]
pub struct SearchMessagesFilterChatPhoto {}

impl Wire for SearchMessagesFilterChatPhoto {
    #[verifier::opaque]
    open spec fn wire(&self) -> Doc {
        tagged(Map::empty(), "searchMessagesFilterChatPhoto"@)
    }

    #[verifier::opaque]
    open spec fn parse(d: Doc, at: Seq<char>) -> Result<Doc, Fault> {
        match d {
            Doc::Object(_) => Ok(tagged(Map::empty(), "searchMessagesFilterChatPhoto"@)),
            _ => Err(Fault::TypeMismatch(at)),
        }
    }

    fn encode(&self) -> (j: Json) {
        proof {
            reveal(<SearchMessagesFilterChatPhoto as Wire>::wire);
        }
        seal(Vec::new(), "searchMessagesFilterChatPhoto")
    }

    fn decode(j: &Json, at: &str) -> (r: Result<Self, DecodeError>) {
        proof {
            reveal(<SearchMessagesFilterChatPhoto as Wire>::wire);
            reveal(<SearchMessagesFilterChatPhoto as Wire>::parse);
        }
        let _ = members_of(j, at)?;
        Ok(SearchMessagesFilterChatPhoto {})
    }

    proof fn round_trip(&self, at: Seq<char>) {
        reveal(<SearchMessagesFilterChatPhoto as Wire>::wire);
        reveal(<SearchMessagesFilterChatPhoto as Wire>::parse);
    }
}

impl Tagged for SearchMessagesFilterChatPhoto {
    open spec fn known(tag: Seq<char>) -> bool {
        tag == "searchMessagesFilterChatPhoto"@
    }

    fn knows(tag: &str) -> (r: bool) {
        same_text(tag, "searchMessagesFilterChatPhoto")
    }

    proof fn tag_known(&self) {
        reveal(<SearchMessagesFilterChatPhoto as Wire>::wire);
        assert(tag_of(self.wire()) == Some("searchMessagesFilterChatPhoto"@));
        assert(Self::known("searchMessagesFilterChatPhoto"@));
    }
}

/// Returns only call messages
#[derive(Debug, Clone, PartialEq)]
pub struct SearchMessagesFilterCall {}

impl Wire for SearchMessagesFilterCall {
    #[verifier::opaque]
    open spec fn wire(&self) -> Doc {
        tagged(Map::empty(), "searchMessagesFilterCall"@)
    }

    #[verifier::opaque]
    open spec fn parse(d: Doc, at: Seq<char>) -> Result<Doc, Fault> {
        match d {
            Doc::Object(_) => Ok(tagged(Map::empty(), "searchMessagesFilterCall"@)),
            _ => Err(Fault::TypeMismatch(at)),
        }
    }

    fn encode(&self) -> (j: Json) {
        proof {
            reveal(<SearchMessagesFilterCall as Wire>::wire);
        }
        seal(Vec::new(), "searchMessagesFilterCall")
    }

    fn decode(j: &Json, at: &str) -> (r: Result<Self, DecodeError>) {
        proof {
            reveal(<SearchMessagesFilterCall as Wire>::wire);
            reveal(<SearchMessagesFilterCall as Wire>::parse);
        }
        let _ = members_of(j, at)?;
        Ok(SearchMessagesFilterCall {})
    }

    proof fn round_trip(&self, at: Seq<char>) {
        reveal(<SearchMessagesFilterCall as Wire>::wire);
        reveal(<SearchMessagesFilterCall as Wire>::parse);
    }
}

impl Tagged for SearchMessagesFilterCall {
    open spec fn known(tag: Seq<char>) -> bool {
        tag == "searchMessagesFilterCall"@
    }

    fn knows(tag: &str) -> (r: bool) {
        same_text(tag, "searchMessagesFilterCall")
    }

    proof fn tag_known(&self) {
        reveal(<SearchMessagesFilterCall as Wire>::wire);
        assert(tag_of(self.wire()) == Some("searchMessagesFilterCall"@));
        assert(Self::known("searchMessagesFilterCall"@));
    }
}

/// Returns only incoming call messages with missed/declined discard reasons
#[derive(Debug, Clone, PartialEq)]
pub struct SearchMessagesFilterMissedCall {}

impl Wire for SearchMessagesFilterMissedCall {
    #[verifier::opaque]
    open spec fn wire(&self) -> Doc {
        tagged(Map::empty(), "searchMessagesFilterMissedCall"@)
    }

    #[verifier::opaque]
    open spec fn parse(d: Doc, at: Seq<char>) -> Result<Doc, Fault> {
        match d {
            Doc::Object(_) => Ok(tagged(Map::empty(), "searchMessagesFilterMissedCall"@)),
            _ => Err(Fault::TypeMismatch(at)),
        }
    }

    fn encode(&self) -> (j: Json) {
        proof {
            reveal(<SearchMessagesFilterMissedCall as Wire>::wire);
        }
        seal(Vec::new(), "searchMessagesFilterMissedCall")
    }

    fn decode(j: &Json, at: &str) -> (r: Result<Self, DecodeError>) {
        proof {
            reveal(<SearchMessagesFilterMissedCall as Wire>::wire);
            reveal(<SearchMessagesFilterMissedCall as Wire>::parse);
        }
        let _ = members_of(j, at)?;
        Ok(SearchMessagesFilterMissedCall {})
    }

    proof fn round_trip(&self, at: Seq<char>) {
        reveal(<SearchMessagesFilterMissedCall as Wire>::wire);
        reveal(<SearchMessagesFilterMissedCall as Wire>::parse);
    }
}

impl Tagged for SearchMessagesFilterMissedCall {
    open spec fn known(tag: Seq<char>) -> bool {
        tag == "searchMessagesFilterMissedCall"@
    }

    fn knows(tag: &str) -> (r: bool) {
        same_text(tag, "searchMessagesFilterMissedCall")
    }

    proof fn tag_known(&self) {
        reveal(<SearchMessagesFilterMissedCall as Wire>::wire);
        assert(tag_of(self.wire()) == Some("searchMessagesFilterMissedCall"@));
        assert(Self::known("searchMessagesFilterMissedCall"@));
    }
}

/// Returns only video note messages
#[derive(Debug, Clone, PartialEq)]
pub struct SearchMessagesFilterVideoNote {}

impl Wire for SearchMessagesFilterVideoNote {
    #[verifier::opaque]
    open spec fn wire(&self) -> Doc {
        tagged(Map::empty(), "searchMessagesFilterVideoNote"@)
    }

    #[verifier::opaque]
    open spec fn parse(d: Doc, at: Seq<char>) -> Result<Doc, Fault> {
        match d {
            Doc::Object(_) => Ok(tagged(Map::empty(), "searchMessagesFilterVideoNote"@)),
            _ => Err(Fault::TypeMismatch(at)),
        }
    }

    fn encode(&self) -> (j: Json) {
        proof {
            reveal(<SearchMessagesFilterVideoNote as Wire>::wire);
        }
        seal(Vec::new(), "searchMessagesFilterVideoNote")
    }

    fn decode(j: &Json, at: &str) -> (r: Result<Self, DecodeError>) {
        proof {
            reveal(<SearchMessagesFilterVideoNote as Wire>::wire);
            reveal(<SearchMessagesFilterVideoNote as Wire>::parse);
        }
        let _ = members_of(j, at)?;
        Ok(SearchMessagesFilterVideoNote {})
    }

    proof fn round_trip(&self, at: Seq<char>) {
        reveal(<SearchMessagesFilterVideoNote as Wire>::wire);
        reveal(<SearchMessagesFilterVideoNote as Wire>::parse);
    }
}

impl Tagged for SearchMessagesFilterVideoNote {
    open spec fn known(tag: Seq<char>) -> bool {
        tag == "searchMessagesFilterVideoNote"@
    }

    fn knows(tag: &str) -> (r: bool) {
        same_text(tag, "searchMessagesFilterVideoNote")
    }

    proof fn tag_known(&self) {
        reveal(<SearchMessagesFilterVideoNote as Wire>::wire);
        assert(tag_of(self.wire()) == Some("searchMessagesFilterVideoNote"@));
        assert(Self::known("searchMessagesFilterVideoNote"@));
    }
}

/// Returns only voice and video note messages
#[derive(Debug, Clone, PartialEq)]
pub struct SearchMessagesFilterVoiceAndVideoNote {}

impl Wire for SearchMessagesFilterVoiceAndVideoNote {
    #[verifier::opaque]
    open spec fn wire(&self) -> Doc {
        tagged(Map::empty(), "searchMessagesFilterVoiceAndVideoNote"@)
    }

    #[verifier::opaque]
    open spec fn parse(d: Doc, at: Seq<char>) -> Result<Doc, Fault> {
        match d {
            Doc::Object(_) => Ok(tagged(Map::empty(), "searchMessagesFilterVoiceAndVideoNote"@)),
            _ => Err(Fault::TypeMismatch(at)),
        }
    }

    fn encode(&self) -> (j: Json) {
        proof {
            reveal(<SearchMessagesFilterVoiceAndVideoNote as Wire>::wire);
        }
        seal(Vec::new(), "searchMessagesFilterVoiceAndVideoNote")
    }

    fn decode(j: &Json, at: &str) -> (r: Result<Self, DecodeError>) {
        proof {
            reveal(<SearchMessagesFilterVoiceAndVideoNote as Wire>::wire);
            reveal(<SearchMessagesFilterVoiceAndVideoNote as Wire>::parse);
        }
        let _ = members_of(j, at)?;
        Ok(SearchMessagesFilterVoiceAndVideoNote {})
    }

    proof fn round_trip(&self, at: Seq<char>) {
        reveal(<SearchMessagesFilterVoiceAndVideoNote as Wire>::wire);
        reveal(<SearchMessagesFilterVoiceAndVideoNote as Wire>::parse);
    }
}

impl Tagged for SearchMessagesFilterVoiceAndVideoNote {
    open spec fn known(tag: Seq<char>) -> bool {
        tag == "searchMessagesFilterVoiceAndVideoNote"@
    }

    fn knows(tag: &str) -> (r: bool) {
        same_text(tag, "searchMessagesFilterVoiceAndVideoNote")
    }

    proof fn tag_known(&self) {
        reveal(<SearchMessagesFilterVoiceAndVideoNote as Wire>::wire);
        assert(tag_of(self.wire()) == Some("searchMessagesFilterVoiceAndVideoNote"@));
        assert(Self::known("searchMessagesFilterVoiceAndVideoNote"@));
    }
}

/// Returns only messages with mentions of the current user, or messages that are replies to their
/// messages
#[derive(Debug, Clone, PartialEq)]
pub struct SearchMessagesFilterMention {}

impl Wire for SearchMessagesFilterMention {
    #[verifier::opaque]
    open spec fn wire(&self) -> Doc {
        tagged(Map::empty(), "searchMessagesFilterMention"@)
    }

    #[verifier::opaque]
    open spec fn parse(d: Doc, at: Seq<char>) -> Result<Doc, Fault> {
        match d {
            Doc::Object(_) => Ok(tagged(Map::empty(), "searchMessagesFilterMention"@)),
            _ => Err(Fault::TypeMismatch(at)),
        }
    }

    fn encode(&self) -> (j: Json) {
        proof {
            reveal(<SearchMessagesFilterMention as Wire>::wire);
        }
        seal(Vec::new(), "searchMessagesFilterMention")
    }

    fn decode(j: &Json, at: &str) -> (r: Result<Self, DecodeError>) {
        proof {
            reveal(<SearchMessagesFilterMention as Wire>::wire);
            reveal(<SearchMessagesFilterMention as Wire>::parse);
        }
        let _ = members_of(j, at)?;
        Ok(SearchMessagesFilterMention {})
    }

    proof fn round_trip(&self, at: Seq<char>) {
        reveal(<SearchMessagesFilterMention as Wire>::wire);
        reveal(<SearchMessagesFilterMention as Wire>::parse);
    }
}

impl Tagged for SearchMessagesFilterMention {
    open spec fn known(tag: Seq<char>) -> bool {
        tag == "searchMessagesFilterMention"@
    }

    fn knows(tag: &str) -> (r: bool) {
        same_text(tag, "searchMessagesFilterMention")
    }

    proof fn tag_known(&self) {
        reveal(<SearchMessagesFilterMention as Wire>::wire);
        assert(tag_of(self.wire()) == Some("searchMessagesFilterMention"@));
        assert(Self::known("searchMessagesFilterMention"@));
    }
}

/// Returns only messages with unread mentions of the current user, or messages that are replies to
/// their messages. When using this filter the results can't be additionally filtered by a query or
/// by the sending user
#[derive(Debug, Clone, PartialEq)]
pub struct SearchMessagesFilterUnreadMention {}

impl Wire for SearchMessagesFilterUnreadMention {
    #[verifier::opaque]
    open spec fn wire(&self) -> Doc {
        tagged(Map::empty(), "searchMessagesFilterUnreadMention"@)
    }

    #[verifier::opaque]
    open spec fn parse(d: Doc, at: Seq<char>) -> Result<Doc, Fault> {
        match d {
            Doc::Object(_) => Ok(tagged(Map::empty(), "searchMessagesFilterUnreadMention"@)),
            _ => Err(Fault::TypeMismatch(at)),
        }
    }

    fn encode(&self) -> (j: Json) {
        proof {
            reveal(<SearchMessagesFilterUnreadMention as Wire>::wire);
        }
        seal(Vec::new(), "searchMessagesFilterUnreadMention")
    }

    fn decode(j: &Json, at: &str) -> (r: Result<Self, DecodeError>) {
        proof {
            reveal(<SearchMessagesFilterUnreadMention as Wire>::wire);
            reveal(<SearchMessagesFilterUnreadMention as Wire>::parse);
        }
        let _ = members_of(j, at)?;
        Ok(SearchMessagesFilterUnreadMention {})
    }

    proof fn round_trip(&self, at: Seq<char>) {
        reveal(<SearchMessagesFilterUnreadMention as Wire>::wire);
        reveal(<SearchMessagesFilterUnreadMention as Wire>::parse);
    }
}

impl Tagged for SearchMessagesFilterUnreadMention {
    open spec fn known(tag: Seq<char>) -> bool {
        tag == "searchMessagesFilterUnreadMention"@
    }

    fn knows(tag: &str) -> (r: bool) {
        same_text(tag, "searchMessagesFilterUnreadMention")
    }

    proof fn tag_known(&self) {
        reveal(<SearchMessagesFilterUnreadMention as Wire>::wire);
        assert(tag_of(self.wire()) == Some("searchMessagesFilterUnreadMention"@));
        assert(Self::known("searchMessagesFilterUnreadMention"@));
    }
}

/// Represents a filter for message search results
#[derive(Debug, Clone, PartialEq)]
pub enum SearchMessagesFilter {
    SearchMessagesFilterEmpty(SearchMessagesFilterEmpty),
    SearchMessagesFilterAnimation(SearchMessagesFilterAnimation),
    SearchMessagesFilterAudio(SearchMessagesFilterAudio),
    SearchMessagesFilterDocument(SearchMessagesFilterDocument),
    SearchMessagesFilterPhoto(SearchMessagesFilterPhoto),
    SearchMessagesFilterVideo(SearchMessagesFilterVideo),
    SearchMessagesFilterVoiceNote(SearchMessagesFilterVoiceNote),
    SearchMessagesFilterPhotoAndVideo(SearchMessagesFilterPhotoAndVideo),
    SearchMessagesFilterUrl(SearchMessagesFilterUrl),
    SearchMessagesFilterChatPhoto(SearchMessagesFilterChatPhoto),
    SearchMessagesFilterCall(SearchMessagesFilterCall),
    SearchMessagesFilterMissedCall(SearchMessagesFilterMissedCall),
    SearchMessagesFilterVideoNote(SearchMessagesFilterVideoNote),
    SearchMessagesFilterVoiceAndVideoNote(SearchMessagesFilterVoiceAndVideoNote),
    SearchMessagesFilterMention(SearchMessagesFilterMention),
    SearchMessagesFilterUnreadMention(SearchMessagesFilterUnreadMention),
}

impl Wire for SearchMessagesFilter {
    #[verifier::opaque]
    open spec fn wire(&self) -> Doc {
        match self {
            Self::SearchMessagesFilterEmpty(p) => p.wire(),
            Self::SearchMessagesFilterAnimation(p) => p.wire(),
            Self::SearchMessagesFilterAudio(p) => p.wire(),
            Self::SearchMessagesFilterDocument(p) => p.wire(),
            Self::SearchMessagesFilterPhoto(p) => p.wire(),
            Self::SearchMessagesFilterVideo(p) => p.wire(),
            Self::SearchMessagesFilterVoiceNote(p) => p.wire(),
            Self::SearchMessagesFilterPhotoAndVideo(p) => p.wire(),
            Self::SearchMessagesFilterUrl(p) => p.wire(),
            Self::SearchMessagesFilterChatPhoto(p) => p.wire(),
            Self::SearchMessagesFilterCall(p) => p.wire(),
            Self::SearchMessagesFilterMissedCall(p) => p.wire(),
            Self::SearchMessagesFilterVideoNote(p) => p.wire(),
            Self::SearchMessagesFilterVoiceAndVideoNote(p) => p.wire(),
            Self::SearchMessagesFilterMention(p) => p.wire(),
            Self::SearchMessagesFilterUnreadMention(p) => p.wire(),
        }
    }

    #[verifier::opaque]
    open spec fn parse(d: Doc, at: Seq<char>) -> Result<Doc, Fault> {
        match d {
            Doc::Object(_) => match tag_of(d) {
                Some(t) => if t == "searchMessagesFilterEmpty"@ {
                    SearchMessagesFilterEmpty::parse(d, at)
                } else if t == "searchMessagesFilterAnimation"@ {
                    SearchMessagesFilterAnimation::parse(d, at)
                } else if t == "searchMessagesFilterAudio"@ {
                    SearchMessagesFilterAudio::parse(d, at)
                } else if t == "searchMessagesFilterDocument"@ {
                    SearchMessagesFilterDocument::parse(d, at)
                } else if t == "searchMessagesFilterPhoto"@ {
                    SearchMessagesFilterPhoto::parse(d, at)
                } else if t == "searchMessagesFilterVideo"@ {
                    SearchMessagesFilterVideo::parse(d, at)
                } else if t == "searchMessagesFilterVoiceNote"@ {
                    SearchMessagesFilterVoiceNote::parse(d, at)
                } else if t == "searchMessagesFilterPhotoAndVideo"@ {
                    SearchMessagesFilterPhotoAndVideo::parse(d, at)
                } else if t == "searchMessagesFilterUrl"@ {
                    SearchMessagesFilterUrl::parse(d, at)
                } else if t == "searchMessagesFilterChatPhoto"@ {
                    SearchMessagesFilterChatPhoto::parse(d, at)
                } else if t == "searchMessagesFilterCall"@ {
                    SearchMessagesFilterCall::parse(d, at)
                } else if t == "searchMessagesFilterMissedCall"@ {
                    SearchMessagesFilterMissedCall::parse(d, at)
                } else if t == "searchMessagesFilterVideoNote"@ {
                    SearchMessagesFilterVideoNote::parse(d, at)
                } else if t == "searchMessagesFilterVoiceAndVideoNote"@ {
                    SearchMessagesFilterVoiceAndVideoNote::parse(d, at)
                } else if t == "searchMessagesFilterMention"@ {
                    SearchMessagesFilterMention::parse(d, at)
                } else if t == "searchMessagesFilterUnreadMention"@ {
                    SearchMessagesFilterUnreadMention::parse(d, at)
                } else {
                    Err(Fault::UnknownVariant(t))
                },
                None => Err(Fault::MissingDiscriminator),
            },
            _ => Err(Fault::TypeMismatch(at)),
        }
    }

    fn encode(&self) -> (j: Json) {
        proof {
            reveal(<SearchMessagesFilter as Wire>::wire);
        }
        match self {
            Self::SearchMessagesFilterEmpty(p) => p.encode(),
            Self::SearchMessagesFilterAnimation(p) => p.encode(),
            Self::SearchMessagesFilterAudio(p) => p.encode(),
            Self::SearchMessagesFilterDocument(p) => p.encode(),
            Self::SearchMessagesFilterPhoto(p) => p.encode(),
            Self::SearchMessagesFilterVideo(p) => p.encode(),
            Self::SearchMessagesFilterVoiceNote(p) => p.encode(),
            Self::SearchMessagesFilterPhotoAndVideo(p) => p.encode(),
            Self::SearchMessagesFilterUrl(p) => p.encode(),
            Self::SearchMessagesFilterChatPhoto(p) => p.encode(),
            Self::SearchMessagesFilterCall(p) => p.encode(),
            Self::SearchMessagesFilterMissedCall(p) => p.encode(),
            Self::SearchMessagesFilterVideoNote(p) => p.encode(),
            Self::SearchMessagesFilterVoiceAndVideoNote(p) => p.encode(),
            Self::SearchMessagesFilterMention(p) => p.encode(),
            Self::SearchMessagesFilterUnreadMention(p) => p.encode(),
        }
    }

    fn decode(j: &Json, at: &str) -> (r: Result<Self, DecodeError>) {
        proof {
            reveal(<SearchMessagesFilter as Wire>::wire);
            reveal(<SearchMessagesFilter as Wire>::parse);
        }
        let members = members_of(j, at)?;
        let tag = discriminator(members)?;
        if same_text(tag, "searchMessagesFilterEmpty") {
            Ok(Self::SearchMessagesFilterEmpty(SearchMessagesFilterEmpty::decode(j, at)?))
        } else if same_text(tag, "searchMessagesFilterAnimation") {
            Ok(Self::SearchMessagesFilterAnimation(SearchMessagesFilterAnimation::decode(j, at)?))
        } else if same_text(tag, "searchMessagesFilterAudio") {
            Ok(Self::SearchMessagesFilterAudio(SearchMessagesFilterAudio::decode(j, at)?))
        } else if same_text(tag, "searchMessagesFilterDocument") {
            Ok(Self::SearchMessagesFilterDocument(SearchMessagesFilterDocument::decode(j, at)?))
        } else if same_text(tag, "searchMessagesFilterPhoto") {
            Ok(Self::SearchMessagesFilterPhoto(SearchMessagesFilterPhoto::decode(j, at)?))
        } else if same_text(tag, "searchMessagesFilterVideo") {
            Ok(Self::SearchMessagesFilterVideo(SearchMessagesFilterVideo::decode(j, at)?))
        } else if same_text(tag, "searchMessagesFilterVoiceNote") {
            Ok(Self::SearchMessagesFilterVoiceNote(SearchMessagesFilterVoiceNote::decode(j, at)?))
        } else if same_text(tag, "searchMessagesFilterPhotoAndVideo") {
            Ok(
                Self::SearchMessagesFilterPhotoAndVideo(
                    SearchMessagesFilterPhotoAndVideo::decode(j, at)?,
                ),
            )
        } else if same_text(tag, "searchMessagesFilterUrl") {
            Ok(Self::SearchMessagesFilterUrl(SearchMessagesFilterUrl::decode(j, at)?))
        } else if same_text(tag, "searchMessagesFilterChatPhoto") {
            Ok(Self::SearchMessagesFilterChatPhoto(SearchMessagesFilterChatPhoto::decode(j, at)?))
        } else if same_text(tag, "searchMessagesFilterCall") {
            Ok(Self::SearchMessagesFilterCall(SearchMessagesFilterCall::decode(j, at)?))
        } else if same_text(tag, "searchMessagesFilterMissedCall") {
            Ok(Self::SearchMessagesFilterMissedCall(SearchMessagesFilterMissedCall::decode(j, at)?))
        } else if same_text(tag, "searchMessagesFilterVideoNote") {
            Ok(Self::SearchMessagesFilterVideoNote(SearchMessagesFilterVideoNote::decode(j, at)?))
        } else if same_text(tag, "searchMessagesFilterVoiceAndVideoNote") {
            Ok(
                Self::SearchMessagesFilterVoiceAndVideoNote(
                    SearchMessagesFilterVoiceAndVideoNote::decode(j, at)?,
                ),
            )
        } else if same_text(tag, "searchMessagesFilterMention") {
            Ok(Self::SearchMessagesFilterMention(SearchMessagesFilterMention::decode(j, at)?))
        } else if same_text(tag, "searchMessagesFilterUnreadMention") {
            Ok(
                Self::SearchMessagesFilterUnreadMention(
                    SearchMessagesFilterUnreadMention::decode(j, at)?,
                ),
            )
        } else {
            Err(DecodeError::UnknownVariant(tag.to_owned()))
        }
    }

    proof fn round_trip(&self, at: Seq<char>) {
        reveal(<SearchMessagesFilter as Wire>::wire);
        reveal(<SearchMessagesFilter as Wire>::parse);
        reveal_strlit("searchMessagesFilterAnimation");
        reveal_strlit("searchMessagesFilterAudio");
        reveal_strlit("searchMessagesFilterCall");
        reveal_strlit("searchMessagesFilterChatPhoto");
        reveal_strlit("searchMessagesFilterDocument");
        reveal_strlit("searchMessagesFilterEmpty");
        reveal_strlit("searchMessagesFilterMention");
        reveal_strlit("searchMessagesFilterMissedCall");
        reveal_strlit("searchMessagesFilterPhoto");
        reveal_strlit("searchMessagesFilterPhotoAndVideo");
        reveal_strlit("searchMessagesFilterUnreadMention");
        reveal_strlit("searchMessagesFilterUrl");
        reveal_strlit("searchMessagesFilterVideo");
        reveal_strlit("searchMessagesFilterVideoNote");
        reveal_strlit("searchMessagesFilterVoiceAndVideoNote");
        reveal_strlit("searchMessagesFilterVoiceNote");
        assert({
            &&& "searchMessagesFilterAnimation"@.len() == 29
            &&& "searchMessagesFilterAnimation"@[21] == 'n'
        });
        assert("searchMessagesFilterAudio"@.len() == 25 && "searchMessagesFilterAudio"@[20] == 'A');
        assert("searchMessagesFilterCall"@.len() == 24);
        assert({
            &&& "searchMessagesFilterChatPhoto"@.len() == 29
            &&& "searchMessagesFilterChatPhoto"@[21] == 'h'
        });
        assert("searchMessagesFilterDocument"@.len() == 28);
        assert("searchMessagesFilterEmpty"@.len() == 25 && "searchMessagesFilterEmpty"@[20] == 'E');
        assert("searchMessagesFilterMention"@.len() == 27);
        assert("searchMessagesFilterMissedCall"@.len() == 30);
        assert("searchMessagesFilterPhoto"@.len() == 25 && "searchMessagesFilterPhoto"@[20] == 'P');
        assert({
            &&& "searchMessagesFilterPhotoAndVideo"@.len() == 33
            &&& "searchMessagesFilterPhotoAndVideo"@[20] == 'P'
        });
        assert({
            &&& "searchMessagesFilterUnreadMention"@.len() == 33
            &&& "searchMessagesFilterUnreadMention"@[20] == 'U'
        });
        assert("searchMessagesFilterUrl"@.len() == 23);
        assert("searchMessagesFilterVideo"@.len() == 25 && "searchMessagesFilterVideo"@[20] == 'V');
        assert({
            &&& "searchMessagesFilterVideoNote"@.len() == 29
            &&& "searchMessagesFilterVideoNote"@[21] == 'i'
        });
        assert("searchMessagesFilterVoiceAndVideoNote"@.len() == 37);
        assert({
            &&& "searchMessagesFilterVoiceNote"@.len() == 29
            &&& "searchMessagesFilterVoiceNote"@[21] == 'o'
        });
        match self {
            Self::SearchMessagesFilterEmpty(p) => {
                p.tag_known();
                p.round_trip(at);
            },
            Self::SearchMessagesFilterAnimation(p) => {
                p.tag_known();
                p.round_trip(at);
            },
            Self::SearchMessagesFilterAudio(p) => {
                p.tag_known();
                p.round_trip(at);
            },
            Self::SearchMessagesFilterDocument(p) => {
                p.tag_known();
                p.round_trip(at);
            },
            Self::SearchMessagesFilterPhoto(p) => {
                p.tag_known();
                p.round_trip(at);
            },
            Self::SearchMessagesFilterVideo(p) => {
                p.tag_known();
                p.round_trip(at);
            },
            Self::SearchMessagesFilterVoiceNote(p) => {
                p.tag_known();
                p.round_trip(at);
            },
            Self::SearchMessagesFilterPhotoAndVideo(p) => {
                p.tag_known();
                p.round_trip(at);
            },
            Self::SearchMessagesFilterUrl(p) => {
                p.tag_known();
                p.round_trip(at);
            },
            Self::SearchMessagesFilterChatPhoto(p) => {
                p.tag_known();
                p.round_trip(at);
            },
            Self::SearchMessagesFilterCall(p) => {
                p.tag_known();
                p.round_trip(at);
            },
            Self::SearchMessagesFilterMissedCall(p) => {
                p.tag_known();
                p.round_trip(at);
            },
            Self::SearchMessagesFilterVideoNote(p) => {
                p.tag_known();
                p.round_trip(at);
            },
            Self::SearchMessagesFilterVoiceAndVideoNote(p) => {
                p.tag_known();
                p.round_trip(at);
            },
            Self::SearchMessagesFilterMention(p) => {
                p.tag_known();
                p.round_trip(at);
            },
            Self::SearchMessagesFilterUnreadMention(p) => {
                p.tag_known();
                p.round_trip(at);
            },
        }
    }
}

impl Tagged for SearchMessagesFilter {
    open spec fn known(tag: Seq<char>) -> bool {
        ||| tag == "searchMessagesFilterEmpty"@
        ||| tag == "searchMessagesFilterAnimation"@
        ||| tag == "searchMessagesFilterAudio"@
        ||| tag == "searchMessagesFilterDocument"@
        ||| tag == "searchMessagesFilterPhoto"@
        ||| tag == "searchMessagesFilterVideo"@
        ||| tag == "searchMessagesFilterVoiceNote"@
        ||| tag == "searchMessagesFilterPhotoAndVideo"@
        ||| tag == "searchMessagesFilterUrl"@
        ||| tag == "searchMessagesFilterChatPhoto"@
        ||| tag == "searchMessagesFilterCall"@
        ||| tag == "searchMessagesFilterMissedCall"@
        ||| tag == "searchMessagesFilterVideoNote"@
        ||| tag == "searchMessagesFilterVoiceAndVideoNote"@
        ||| tag == "searchMessagesFilterMention"@
        ||| tag == "searchMessagesFilterUnreadMention"@
    }

    fn knows(tag: &str) -> (r: bool) {
        same_text(tag, "searchMessagesFilterEmpty")
            || same_text(tag, "searchMessagesFilterAnimation")
            || same_text(tag, "searchMessagesFilterAudio")
            || same_text(tag, "searchMessagesFilterDocument")
            || same_text(tag, "searchMessagesFilterPhoto")
            || same_text(tag, "searchMessagesFilterVideo")
            || same_text(tag, "searchMessagesFilterVoiceNote")
            || same_text(tag, "searchMessagesFilterPhotoAndVideo")
            || same_text(tag, "searchMessagesFilterUrl")
            || same_text(tag, "searchMessagesFilterChatPhoto")
            || same_text(tag, "searchMessagesFilterCall")
            || same_text(tag, "searchMessagesFilterMissedCall")
            || same_text(tag, "searchMessagesFilterVideoNote")
            || same_text(tag, "searchMessagesFilterVoiceAndVideoNote")
            || same_text(tag, "searchMessagesFilterMention")
            || same_text(tag, "searchMessagesFilterUnreadMention")
    }

    proof fn tag_known(&self) {
        reveal(<SearchMessagesFilter as Wire>::wire);
        match self {
            Self::SearchMessagesFilterEmpty(p) => p.tag_known(),
            Self::SearchMessagesFilterAnimation(p) => p.tag_known(),
            Self::SearchMessagesFilterAudio(p) => p.tag_known(),
            Self::SearchMessagesFilterDocument(p) => p.tag_known(),
            Self::SearchMessagesFilterPhoto(p) => p.tag_known(),
            Self::SearchMessagesFilterVideo(p) => p.tag_known(),
            Self::SearchMessagesFilterVoiceNote(p) => p.tag_known(),
            Self::SearchMessagesFilterPhotoAndVideo(p) => p.tag_known(),
            Self::SearchMessagesFilterUrl(p) => p.tag_known(),
            Self::SearchMessagesFilterChatPhoto(p) => p.tag_known(),
            Self::SearchMessagesFilterCall(p) => p.tag_known(),
            Self::SearchMessagesFilterMissedCall(p) => p.tag_known(),
            Self::SearchMessagesFilterVideoNote(p) => p.tag_known(),
            Self::SearchMessagesFilterVoiceAndVideoNote(p) => p.tag_known(),
            Self::SearchMessagesFilterMention(p) => p.tag_known(),
            Self::SearchMessagesFilterUnreadMention(p) => p.tag_known(),
        }
    }
}

impl Union for SearchMessagesFilter {
    proof fn unknown_rejected(d: Doc, at: Seq<char>) {
        reveal(<SearchMessagesFilter as Wire>::parse);
    }

    proof fn untagged_rejected(d: Doc, at: Seq<char>) {
        reveal(<SearchMessagesFilter as Wire>::parse);
    }
}

/// The user is typing a message
#[derive(Debug, Clone, PartialEq)]
pub struct ChatActionTyping {}

impl Wire for ChatActionTyping {
    #[verifier::opaque]
    open spec fn wire(&self) -> Doc {
        tagged(Map::empty(), "chatActionTyping"@)
    }

    #[verifier::opaque]
    open spec fn parse(d: Doc, at: Seq<char>) -> Result<Doc, Fault> {
        match d {
            Doc::Object(_) => Ok(tagged(Map::empty(), "chatActionTyping"@)),
            _ => Err(Fault::TypeMismatch(at)),
        }
    }

    fn encode(&self) -> (j: Json) {
        proof {
            reveal(<ChatActionTyping as Wire>::wire);
        }
        seal(Vec::new(), "chatActionTyping")
    }

    fn decode(j: &Json, at: &str) -> (r: Result<Self, DecodeError>) {
        proof {
            reveal(<ChatActionTyping as Wire>::wire);
            reveal(<ChatActionTyping as Wire>::parse);
        }
        let _ = members_of(j, at)?;
        Ok(ChatActionTyping {})
    }

    proof fn round_trip(&self, at: Seq<char>) {
        reveal(<ChatActionTyping as Wire>::wire);
        reveal(<ChatActionTyping as Wire>::parse);
    }
}

impl Tagged for ChatActionTyping {
    open spec fn known(tag: Seq<char>) -> bool {
        tag == "chatActionTyping"@
    }

    fn knows(tag: &str) -> (r: bool) {
        same_text(tag, "chatActionTyping")
    }

    proof fn tag_known(&self) {
        reveal(<ChatActionTyping as Wire>::wire);
        assert(tag_of(self.wire()) == Some("chatActionTyping"@));
        assert(Self::known("chatActionTyping"@));
    }
}

/// The user is recording a video
#[derive(Debug, Clone, PartialEq)]
pub struct ChatActionRecordingVideo {}

impl Wire for ChatActionRecordingVideo {
    #[verifier::opaque]
    open spec fn wire(&self) -> Doc {
        tagged(Map::empty(), "chatActionRecordingVideo"@)
    }

    #[verifier::opaque]
    open spec fn parse(d: Doc, at: Seq<char>) -> Result<Doc, Fault> {
        match d {
            Doc::Object(_) => Ok(tagged(Map::empty(), "chatActionRecordingVideo"@)),
            _ => Err(Fault::TypeMismatch(at)),
        }
    }

    fn encode(&self) -> (j: Json) {
        proof {
            reveal(<ChatActionRecordingVideo as Wire>::wire);
        }
        seal(Vec::new(), "chatActionRecordingVideo")
    }

    fn decode(j: &Json, at: &str) -> (r: Result<Self, DecodeError>) {
        proof {
            reveal(<ChatActionRecordingVideo as Wire>::wire);
            reveal(<ChatActionRecordingVideo as Wire>::parse);
        }
        let _ = members_of(j, at)?;
        Ok(ChatActionRecordingVideo {})
    }

    proof fn round_trip(&self, at: Seq<char>) {
        reveal(<ChatActionRecordingVideo as Wire>::wire);
        reveal(<ChatActionRecordingVideo as Wire>::parse);
    }
}

impl Tagged for ChatActionRecordingVideo {
    open spec fn known(tag: Seq<char>) -> bool {
        tag == "chatActionRecordingVideo"@
    }

    fn knows(tag: &str) -> (r: bool) {
        same_text(tag, "chatActionRecordingVideo")
    }

    proof fn tag_known(&self) {
        reveal(<ChatActionRecordingVideo as Wire>::wire);
        assert(tag_of(self.wire()) == Some("chatActionRecordingVideo"@));
        assert(Self::known("chatActionRecordingVideo"@));
    }
}

/// The user is uploading a video
#[derive(Debug, Clone, PartialEq)]
pub struct ChatActionUploadingVideo {
    /// Upload progress, as a percentage
    pub progress: i32,
}

impl Wire for ChatActionUploadingVideo {
    #[verifier::opaque]
    open spec fn wire(&self) -> Doc {
        tagged(
            Map::empty()
                .insert("progress"@, self.progress.wire()),
            "chatActionUploadingVideo"@,
        )
    }

    #[verifier::opaque]
    open spec fn parse(d: Doc, at: Seq<char>) -> Result<Doc, Fault> {
        match d {
            Doc::Object(m) => {
                let progress = field::<i32>(m, "progress"@);
                if progress is Err {
                    progress
                } else {
                    Ok(
                        tagged(
                            Map::empty()
                                .insert("progress"@, progress->Ok_0),
                            "chatActionUploadingVideo"@,
                        ),
                    )
                }
            },
            _ => Err(Fault::TypeMismatch(at)),
        }
    }

    fn encode(&self) -> (j: Json) {
        proof {
            reveal(<ChatActionUploadingVideo as Wire>::wire);
        }
        let mut members: Vec<Member> = Vec::new();
        put(&mut members, "progress", self.progress.encode());
        seal(members, "chatActionUploadingVideo")
    }

    fn decode(j: &Json, at: &str) -> (r: Result<Self, DecodeError>) {
        proof {
            reveal(<ChatActionUploadingVideo as Wire>::wire);
            reveal(<ChatActionUploadingVideo as Wire>::parse);
        }
        let members = members_of(j, at)?;
        let progress = read_field::<i32>(members, "progress")?;
        Ok(ChatActionUploadingVideo { progress })
    }

    proof fn round_trip(&self, at: Seq<char>) {
        reveal(<ChatActionUploadingVideo as Wire>::wire);
        reveal(<ChatActionUploadingVideo as Wire>::parse);
        reveal_strlit("@type");
        reveal_strlit("progress");
        assert("@type"@.len() == 5);
        assert("progress"@.len() == 8);
        self.progress.round_trip("progress"@);
    }
}

impl Tagged for ChatActionUploadingVideo {
    open spec fn known(tag: Seq<char>) -> bool {
        tag == "chatActionUploadingVideo"@
    }

    fn knows(tag: &str) -> (r: bool) {
        same_text(tag, "chatActionUploadingVideo")
    }

    proof fn tag_known(&self) {
        reveal(<ChatActionUploadingVideo as Wire>::wire);
        assert(tag_of(self.wire()) == Some("chatActionUploadingVideo"@));
        assert(Self::known("chatActionUploadingVideo"@));
    }
}

/// The user is recording a voice note
#[derive(Debug, Clone, PartialEq)]
pub struct ChatActionRecordingVoiceNote {}

impl Wire for ChatActionRecordingVoiceNote {
    #[verifier::opaque]
    open spec fn wire(&self) -> Doc {
        tagged(Map::empty(), "chatActionRecordingVoiceNote"@)
    }

    #[verifier::opaque]
    open spec fn parse(d: Doc, at: Seq<char>) -> Result<Doc, Fault> {
        match d {
            Doc::Object(_) => Ok(tagged(Map::empty(), "chatActionRecordingVoiceNote"@)),
            _ => Err(Fault::TypeMismatch(at)),
        }
    }

    fn encode(&self) -> (j: Json) {
        proof {
            reveal(<ChatActionRecordingVoiceNote as Wire>::wire);
        }
        seal(Vec::new(), "chatActionRecordingVoiceNote")
    }

    fn decode(j: &Json, at: &str) -> (r: Result<Self, DecodeError>) {
        proof {
            reveal(<ChatActionRecordingVoiceNote as Wire>::wire);
            reveal(<ChatActionRecordingVoiceNote as Wire>::parse);
        }
        let _ = members_of(j, at)?;
        Ok(ChatActionRecordingVoiceNote {})
    }

    proof fn round_trip(&self, at: Seq<char>) {
        reveal(<ChatActionRecordingVoiceNote as Wire>::wire);
        reveal(<ChatActionRecordingVoiceNote as Wire>::parse);
    }
}

impl Tagged for ChatActionRecordingVoiceNote {
    open spec fn known(tag: Seq<char>) -> bool {
        tag == "chatActionRecordingVoiceNote"@
    }

    fn knows(tag: &str) -> (r: bool) {
        same_text(tag, "chatActionRecordingVoiceNote")
    }

    proof fn tag_known(&self) {
        reveal(<ChatActionRecordingVoiceNote as Wire>::wire);
        assert(tag_of(self.wire()) == Some("chatActionRecordingVoiceNote"@));
        assert(Self::known("chatActionRecordingVoiceNote"@));
    }
}

/// The user is uploading a voice note
#[derive(Debug, Clone, PartialEq)]
pub struct ChatActionUploadingVoiceNote {
    /// Upload progress, as a percentage
    pub progress: i32,
}

impl Wire for ChatActionUploadingVoiceNote {
    #[verifier::opaque]
    open spec fn wire(&self) -> Doc {
        tagged(
            Map::empty()
                .insert("progress"@, self.progress.wire()),
            "chatActionUploadingVoiceNote"@,
        )
    }

    #[verifier::opaque]
    open spec fn parse(d: Doc, at: Seq<char>) -> Result<Doc, Fault> {
        match d {
            Doc::Object(m) => {
                let progress = field::<i32>(m, "progress"@);
                if progress is Err {
                    progress
                } else {
                    Ok(
                        tagged(
                            Map::empty()
                                .insert("progress"@, progress->Ok_0),
                            "chatActionUploadingVoiceNote"@,
                        ),
                    )
                }
            },
            _ => Err(Fault::TypeMismatch(at)),
        }
    }

    fn encode(&self) -> (j: Json) {
        proof {
            reveal(<ChatActionUploadingVoiceNote as Wire>::wire);
        }
        let mut members: Vec<Member> = Vec::new();
        put(&mut members, "progress", self.progress.encode());
        seal(members, "chatActionUploadingVoiceNote")
    }

    fn decode(j: &Json, at: &str) -> (r: Result<Self, DecodeError>) {
        proof {
            reveal(<ChatActionUploadingVoiceNote as Wire>::wire);
            reveal(<ChatActionUploadingVoiceNote as Wire>::parse);
        }
        let members = members_of(j, at)?;
        let progress = read_field::<i32>(members, "progress")?;
        Ok(ChatActionUploadingVoiceNote { progress })
    }

    proof fn round_trip(&self, at: Seq<char>) {
        reveal(<ChatActionUploadingVoiceNote as Wire>::wire);
        reveal(<ChatActionUploadingVoiceNote as Wire>::parse);
        reveal_strlit("@type");
        reveal_strlit("progress");
        assert("@type"@.len() == 5);
        assert("progress"@.len() == 8);
        self.progress.round_trip("progress"@);
    }
}

impl Tagged for ChatActionUploadingVoiceNote {
    open spec fn known(tag: Seq<char>) -> bool {
        tag == "chatActionUploadingVoiceNote"@
    }

    fn knows(tag: &str) -> (r: bool) {
        same_text(tag, "chatActionUploadingVoiceNote")
    }

    proof fn tag_known(&self) {
        reveal(<ChatActionUploadingVoiceNote as Wire>::wire);
        assert(tag_of(self.wire()) == Some("chatActionUploadingVoiceNote"@));
        assert(Self::known("chatActionUploadingVoiceNote"@));
    }
}

/// The user is uploading a photo
#[derive(Debug, Clone, PartialEq)]
pub struct ChatActionUploadingPhoto {
    /// Upload progress, as a percentage
    pub progress: i32,
}

impl Wire for ChatActionUploadingPhoto {
    #[verifier::opaque]
    open spec fn wire(&self) -> Doc {
        tagged(
            Map::empty()
                .insert("progress"@, self.progress.wire()),
            "chatActionUploadingPhoto"@,
        )
    }

    #[verifier::opaque]
    open spec fn parse(d: Doc, at: Seq<char>) -> Result<Doc, Fault> {
        match d {
            Doc::Object(m) => {
                let progress = field::<i32>(m, "progress"@);
                if progress is Err {
                    progress
                } else {
                    Ok(
                        tagged(
                            Map::empty()
                                .insert("progress"@, progress->Ok_0),
                            "chatActionUploadingPhoto"@,
                        ),
                    )
                }
            },
            _ => Err(Fault::TypeMismatch(at)),
        }
    }

    fn encode(&self) -> (j: Json) {
        proof {
            reveal(<ChatActionUploadingPhoto as Wire>::wire);
        }
        let mut members: Vec<Member> = Vec::new();
        put(&mut members, "progress", self.progress.encode());
        seal(members, "chatActionUploadingPhoto")
    }

    fn decode(j: &Json, at: &str) -> (r: Result<Self, DecodeError>) {
        proof {
            reveal(<ChatActionUploadingPhoto as Wire>::wire);
            reveal(<ChatActionUploadingPhoto as Wire>::parse);
        }
        let members = members_of(j, at)?;
        let progress = read_field::<i32>(members, "progress")?;
        Ok(ChatActionUploadingPhoto { progress })
    }

    proof fn round_trip(&self, at: Seq<char>) {
        reveal(<ChatActionUploadingPhoto as Wire>::wire);
        reveal(<ChatActionUploadingPhoto as Wire>::parse);
        reveal_strlit("@type");
        reveal_strlit("progress");
        assert("@type"@.len() == 5);
        assert("progress"@.len() == 8);
        self.progress.round_trip("progress"@);
    }
}

impl Tagged for ChatActionUploadingPhoto {
    open spec fn known(tag: Seq<char>) -> bool {
        tag == "chatActionUploadingPhoto"@
    }

    fn knows(tag: &str) -> (r: bool) {
        same_text(tag, "chatActionUploadingPhoto")
    }

    proof fn tag_known(&self) {
        reveal(<ChatActionUploadingPhoto as Wire>::wire);
        assert(tag_of(self.wire()) == Some("chatActionUploadingPhoto"@));
        assert(Self::known("chatActionUploadingPhoto"@));
    }
}

/// The user is uploading a document
#[derive(Debug, Clone, PartialEq)]
pub struct ChatActionUploadingDocument {
    /// Upload progress, as a percentage
    pub progress: i32,
}

impl Wire for ChatActionUploadingDocument {
    #[verifier::opaque]
    open spec fn wire(&self) -> Doc {
        tagged(
            Map::empty()
                .insert("progress"@, self.progress.wire()),
            "chatActionUploadingDocument"@,
        )
    }

    #[verifier::opaque]
    open spec fn parse(d: Doc, at: Seq<char>) -> Result<Doc, Fault> {
        match d {
            Doc::Object(m) => {
                let progress = field::<i32>(m, "progress"@);
                if progress is Err {
                    progress
                } else {
                    Ok(
                        tagged(
                            Map::empty()
                                .insert("progress"@, progress->Ok_0),
                            "chatActionUploadingDocument"@,
                        ),
                    )
                }
            },
            _ => Err(Fault::TypeMismatch(at)),
        }
    }

    fn encode(&self) -> (j: Json) {
        proof {
            reveal(<ChatActionUploadingDocument as Wire>::wire);
        }
        let mut members: Vec<Member> = Vec::new();
        put(&mut members, "progress", self.progress.encode());
        seal(members, "chatActionUploadingDocument")
    }

    fn decode(j: &Json, at: &str) -> (r: Result<Self, DecodeError>) {
        proof {
            reveal(<ChatActionUploadingDocument as Wire>::wire);
            reveal(<ChatActionUploadingDocument as Wire>::parse);
        }
        let members = members_of(j, at)?;
        let progress = read_field::<i32>(members, "progress")?;
        Ok(ChatActionUploadingDocument { progress })
    }

    proof fn round_trip(&self, at: Seq<char>) {
        reveal(<ChatActionUploadingDocument as Wire>::wire);
        reveal(<ChatActionUploadingDocument as Wire>::parse);
        reveal_strlit("@type");
        reveal_strlit("progress");
        assert("@type"@.len() == 5);
        assert("progress"@.len() == 8);
        self.progress.round_trip("progress"@);
    }
}

impl Tagged for ChatActionUploadingDocument {
    open spec fn known(tag: Seq<char>) -> bool {
        tag == "chatActionUploadingDocument"@
    }

    fn knows(tag: &str) -> (r: bool) {
        same_text(tag, "chatActionUploadingDocument")
    }

    proof fn tag_known(&self) {
        reveal(<ChatActionUploadingDocument as Wire>::wire);
        assert(tag_of(self.wire()) == Some("chatActionUploadingDocument"@));
        assert(Self::known("chatActionUploadingDocument"@));
    }
}

/// The user is picking a location or venue to send
#[derive(Debug, Clone, PartialEq)]
pub struct ChatActionChoosingLocation {}

impl Wire for ChatActionChoosingLocation {
    #[verifier::opaque]
    open spec fn wire(&self) -> Doc {
        tagged(Map::empty(), "chatActionChoosingLocation"@)
    }

    #[verifier::opaque]
    open spec fn parse(d: Doc, at: Seq<char>) -> Result<Doc, Fault> {
        match d {
            Doc::Object(_) => Ok(tagged(Map::empty(), "chatActionChoosingLocation"@)),
            _ => Err(Fault::TypeMismatch(at)),
        }
    }

    fn encode(&self) -> (j: Json) {
        proof {
            reveal(<ChatActionChoosingLocation as Wire>::wire);
        }
        seal(Vec::new(), "chatActionChoosingLocation")
    }

    fn decode(j: &Json, at: &str) -> (r: Result<Self, DecodeError>) {
        proof {
            reveal(<ChatActionChoosingLocation as Wire>::wire);
            reveal(<ChatActionChoosingLocation as Wire>::parse);
        }
        let _ = members_of(j, at)?;
        Ok(ChatActionChoosingLocation {})
    }

    proof fn round_trip(&self, at: Seq<char>) {
        reveal(<ChatActionChoosingLocation as Wire>::wire);
        reveal(<ChatActionChoosingLocation as Wire>::parse);
    }
}

impl Tagged for ChatActionChoosingLocation {
    open spec fn known(tag: Seq<char>) -> bool {
        tag == "chatActionChoosingLocation"@
    }

    fn knows(tag: &str) -> (r: bool) {
        same_text(tag, "chatActionChoosingLocation")
    }

    proof fn tag_known(&self) {
        reveal(<ChatActionChoosingLocation as Wire>::wire);
        assert(tag_of(self.wire()) == Some("chatActionChoosingLocation"@));
        assert(Self::known("chatActionChoosingLocation"@));
    }
}

/// The user is picking a contact to send
#[derive(Debug, Clone, PartialEq)]
pub struct ChatActionChoosingContact {}

impl Wire for ChatActionChoosingContact {
    #[verifier::opaque]
    open spec fn wire(&self) -> Doc {
        tagged(Map::empty(), "chatActionChoosingContact"@)
    }

    #[verifier::opaque]
    open spec fn parse(d: Doc, at: Seq<char>) -> Result<Doc, Fault> {
        match d {
            Doc::Object(_) => Ok(tagged(Map::empty(), "chatActionChoosingContact"@)),
            _ => Err(Fault::TypeMismatch(at)),
        }
    }

    fn encode(&self) -> (j: Json) {
        proof {
            reveal(<ChatActionChoosingContact as Wire>::wire);
        }
        seal(Vec::new(), "chatActionChoosingContact")
    }

    fn decode(j: &Json, at: &str) -> (r: Result<Self, DecodeError>) {
        proof {
            reveal(<ChatActionChoosingContact as Wire>::wire);
            reveal(<ChatActionChoosingContact as Wire>::parse);
        }
        let _ = members_of(j, at)?;
        Ok(ChatActionChoosingContact {})
    }

    proof fn round_trip(&self, at: Seq<char>) {
        reveal(<ChatActionChoosingContact as Wire>::wire);
        reveal(<ChatActionChoosingContact as Wire>::parse);
    }
}

impl Tagged for ChatActionChoosingContact {
    open spec fn known(tag: Seq<char>) -> bool {
        tag == "chatActionChoosingContact"@
    }

    fn knows(tag: &str) -> (r: bool) {
        same_text(tag, "chatActionChoosingContact")
    }

    proof fn tag_known(&self) {
        reveal(<ChatActionChoosingContact as Wire>::wire);
        assert(tag_of(self.wire()) == Some("chatActionChoosingContact"@));
        assert(Self::known("chatActionChoosingContact"@));
    }
}

/// The user has started to play a game
#[derive(Debug, Clone, PartialEq)]
pub struct ChatActionStartPlayingGame {}

impl Wire for ChatActionStartPlayingGame {
    #[verifier::opaque]
    open spec fn wire(&self) -> Doc {
        tagged(Map::empty(), "chatActionStartPlayingGame"@)
    }

    #[verifier::opaque]
    open spec fn parse(d: Doc, at: Seq<char>) -> Result<Doc, Fault> {
        match d {
            Doc::Object(_) => Ok(tagged(Map::empty(), "chatActionStartPlayingGame"@)),
            _ => Err(Fault::TypeMismatch(at)),
        }
    }

    fn encode(&self) -> (j: Json) {
        proof {
            reveal(<ChatActionStartPlayingGame as Wire>::wire);
        }
        seal(Vec::new(), "chatActionStartPlayingGame")
    }

    fn decode(j: &Json, at: &str) -> (r: Result<Self, DecodeError>) {
        proof {
            reveal(<ChatActionStartPlayingGame as Wire>::wire);
            reveal(<ChatActionStartPlayingGame as Wire>::parse);
        }
        let _ = members_of(j, at)?;
        Ok(ChatActionStartPlayingGame {})
    }

    proof fn round_trip(&self, at: Seq<char>) {
        reveal(<ChatActionStartPlayingGame as Wire>::wire);
        reveal(<ChatActionStartPlayingGame as Wire>::parse);
    }
}

impl Tagged for ChatActionStartPlayingGame {
    open spec fn known(tag: Seq<char>) -> bool {
        tag == "chatActionStartPlayingGame"@
    }

    fn knows(tag: &str) -> (r: bool) {
        same_text(tag, "chatActionStartPlayingGame")
    }

    proof fn tag_known(&self) {
        reveal(<ChatActionStartPlayingGame as Wire>::wire);
        assert(tag_of(self.wire()) == Some("chatActionStartPlayingGame"@));
        assert(Self::known("chatActionStartPlayingGame"@));
    }
}

/// The user is recording a video note
#[derive(Debug, Clone, PartialEq)]
pub struct ChatActionRecordingVideoNote {}

impl Wire for ChatActionRecordingVideoNote {
    #[verifier::opaque]
    open spec fn wire(&self) -> Doc {
        tagged(Map::empty(), "chatActionRecordingVideoNote"@)
    }

    #[verifier::opaque]
    open spec fn parse(d: Doc, at: Seq<char>) -> Result<Doc, Fault> {
        match d {
            Doc::Object(_) => Ok(tagged(Map::empty(), "chatActionRecordingVideoNote"@)),
            _ => Err(Fault::TypeMismatch(at)),
        }
    }

    fn encode(&self) -> (j: Json) {
        proof {
            reveal(<ChatActionRecordingVideoNote as Wire>::wire);
        }
        seal(Vec::new(), "chatActionRecordingVideoNote")
    }

    fn decode(j: &Json, at: &str) -> (r: Result<Self, DecodeError>) {
        proof {
            reveal(<ChatActionRecordingVideoNote as Wire>::wire);
            reveal(<ChatActionRecordingVideoNote as Wire>::parse);
        }
        let _ = members_of(j, at)?;
        Ok(ChatActionRecordingVideoNote {})
    }

    proof fn round_trip(&self, at: Seq<char>) {
        reveal(<ChatActionRecordingVideoNote as Wire>::wire);
        reveal(<ChatActionRecordingVideoNote as Wire>::parse);
    }
}

impl Tagged for ChatActionRecordingVideoNote {
    open spec fn known(tag: Seq<char>) -> bool {
        tag == "chatActionRecordingVideoNote"@
    }

    fn knows(tag: &str) -> (r: bool) {
        same_text(tag, "chatActionRecordingVideoNote")
    }

    proof fn tag_known(&self) {
        reveal(<ChatActionRecordingVideoNote as Wire>::wire);
        assert(tag_of(self.wire()) == Some("chatActionRecordingVideoNote"@));
        assert(Self::known("chatActionRecordingVideoNote"@));
    }
}

/// The user is uploading a video note
#[derive(Debug, Clone, PartialEq)]
pub struct ChatActionUploadingVideoNote {
    /// Upload progress, as a percentage
    pub progress: i32,
}

impl Wire for ChatActionUploadingVideoNote {
    #[verifier::opaque]
    open spec fn wire(&self) -> Doc {
        tagged(
            Map::empty()
                .insert("progress"@, self.progress.wire()),
            "chatActionUploadingVideoNote"@,
        )
    }

    #[verifier::opaque]
    open spec fn parse(d: Doc, at: Seq<char>) -> Result<Doc, Fault> {
        match d {
            Doc::Object(m) => {
                let progress = field::<i32>(m, "progress"@);
                if progress is Err {
                    progress
                } else {
                    Ok(
                        tagged(
                            Map::empty()
                                .insert("progress"@, progress->Ok_0),
                            "chatActionUploadingVideoNote"@,
                        ),
                    )
                }
            },
            _ => Err(Fault::TypeMismatch(at)),
        }
    }

    fn encode(&self) -> (j: Json) {
        proof {
            reveal(<ChatActionUploadingVideoNote as Wire>::wire);
        }
        let mut members: Vec<Member> = Vec::new();
        put(&mut members, "progress", self.progress.encode());
        seal(members, "chatActionUploadingVideoNote")
    }

    fn decode(j: &Json, at: &str) -> (r: Result<Self, DecodeError>) {
        proof {
            reveal(<ChatActionUploadingVideoNote as Wire>::wire);
            reveal(<ChatActionUploadingVideoNote as Wire>::parse);
        }
        let members = members_of(j, at)?;
        let progress = read_field::<i32>(members, "progress")?;
        Ok(ChatActionUploadingVideoNote { progress })
    }

    proof fn round_trip(&self, at: Seq<char>) {
        reveal(<ChatActionUploadingVideoNote as Wire>::wire);
        reveal(<ChatActionUploadingVideoNote as Wire>::parse);
        reveal_strlit("@type");
        reveal_strlit("progress");
        assert("@type"@.len() == 5);
        assert("progress"@.len() == 8);
        self.progress.round_trip("progress"@);
    }
}

impl Tagged for ChatActionUploadingVideoNote {
    open spec fn known(tag: Seq<char>) -> bool {
        tag == "chatActionUploadingVideoNote"@
    }

    fn knows(tag: &str) -> (r: bool) {
        same_text(tag, "chatActionUploadingVideoNote")
    }

    proof fn tag_known(&self) {
        reveal(<ChatActionUploadingVideoNote as Wire>::wire);
        assert(tag_of(self.wire()) == Some("chatActionUploadingVideoNote"@));
        assert(Self::known("chatActionUploadingVideoNote"@));
    }
}

/// The user has cancelled the previous action
#[derive(Debug, Clone, PartialEq)]
pub struct ChatActionCancel {}

impl Wire for ChatActionCancel {
    #[verifier::opaque]
    open spec fn wire(&self) -> Doc {
        tagged(Map::empty(), "chatActionCancel"@)
    }

    #[verifier::opaque]
    open spec fn parse(d: Doc, at: Seq<char>) -> Result<Doc, Fault> {
        match d {
            Doc::Object(_) => Ok(tagged(Map::empty(), "chatActionCancel"@)),
            _ => Err(Fault::TypeMismatch(at)),
        }
    }

    fn encode(&self) -> (j: Json) {
        proof {
            reveal(<ChatActionCancel as Wire>::wire);
        }
        seal(Vec::new(), "chatActionCancel")
    }

    fn decode(j: &Json, at: &str) -> (r: Result<Self, DecodeError>) {
        proof {
            reveal(<ChatActionCancel as Wire>::wire);
            reveal(<ChatActionCancel as Wire>::parse);
        }
        let _ = members_of(j, at)?;
        Ok(ChatActionCancel {})
    }

    proof fn round_trip(&self, at: Seq<char>) {
        reveal(<ChatActionCancel as Wire>::wire);
        reveal(<ChatActionCancel as Wire>::parse);
    }
}

impl Tagged for ChatActionCancel {
    open spec fn known(tag: Seq<char>) -> bool {
        tag == "chatActionCancel"@
    }

    fn knows(tag: &str) -> (r: bool) {
        same_text(tag, "chatActionCancel")
    }

    proof fn tag_known(&self) {
        reveal(<ChatActionCancel as Wire>::wire);
        assert(tag_of(self.wire()) == Some("chatActionCancel"@));
        assert(Self::known("chatActionCancel"@));
    }
}

/// Describes the different types of activity in a chat
#[derive(Debug, Clone, PartialEq)]
pub enum ChatAction {
    ChatActionTyping(ChatActionTyping),
    ChatActionRecordingVideo(ChatActionRecordingVideo),
    ChatActionUploadingVideo(ChatActionUploadingVideo),
    ChatActionRecordingVoiceNote(ChatActionRecordingVoiceNote),
    ChatActionUploadingVoiceNote(ChatActionUploadingVoiceNote),
    ChatActionUploadingPhoto(ChatActionUploadingPhoto),
    ChatActionUploadingDocument(ChatActionUploadingDocument),
    ChatActionChoosingLocation(ChatActionChoosingLocation),
    ChatActionChoosingContact(ChatActionChoosingContact),
    ChatActionStartPlayingGame(ChatActionStartPlayingGame),
    ChatActionRecordingVideoNote(ChatActionRecordingVideoNote),
    ChatActionUploadingVideoNote(ChatActionUploadingVideoNote),
    ChatActionCancel(ChatActionCancel),
}

impl Wire for ChatAction {
    #[verifier::opaque]
    open spec fn wire(&self) -> Doc {
        match self {
            Self::ChatActionTyping(p) => p.wire(),
            Self::ChatActionRecordingVideo(p) => p.wire(),
            Self::ChatActionUploadingVideo(p) => p.wire(),
            Self::ChatActionRecordingVoiceNote(p) => p.wire(),
            Self::ChatActionUploadingVoiceNote(p) => p.wire(),
            Self::ChatActionUploadingPhoto(p) => p.wire(),
            Self::ChatActionUploadingDocument(p) => p.wire(),
            Self::ChatActionChoosingLocation(p) => p.wire(),
            Self::ChatActionChoosingContact(p) => p.wire(),
            Self::ChatActionStartPlayingGame(p) => p.wire(),
            Self::ChatActionRecordingVideoNote(p) => p.wire(),
            Self::ChatActionUploadingVideoNote(p) => p.wire(),
            Self::ChatActionCancel(p) => p.wire(),
        }
    }

    #[verifier::opaque]
    open spec fn parse(d: Doc, at: Seq<char>) -> Result<Doc, Fault> {
        match d {
            Doc::Object(_) => match tag_of(d) {
                Some(t) => if t == "chatActionTyping"@ {
                    ChatActionTyping::parse(d, at)
                } else if t == "chatActionRecordingVideo"@ {
                    ChatActionRecordingVideo::parse(d, at)
                } else if t == "chatActionUploadingVideo"@ {
                    ChatActionUploadingVideo::parse(d, at)
                } else if t == "chatActionRecordingVoiceNote"@ {
                    ChatActionRecordingVoiceNote::parse(d, at)
                } else if t == "chatActionUploadingVoiceNote"@ {
                    ChatActionUploadingVoiceNote::parse(d, at)
                } else if t == "chatActionUploadingPhoto"@ {
                    ChatActionUploadingPhoto::parse(d, at)
                } else if t == "chatActionUploadingDocument"@ {
                    ChatActionUploadingDocument::parse(d, at)
                } else if t == "chatActionChoosingLocation"@ {
                    ChatActionChoosingLocation::parse(d, at)
                } else if t == "chatActionChoosingContact"@ {
                    ChatActionChoosingContact::parse(d, at)
                } else if t == "chatActionStartPlayingGame"@ {
                    ChatActionStartPlayingGame::parse(d, at)
                } else if t == "chatActionRecordingVideoNote"@ {
                    ChatActionRecordingVideoNote::parse(d, at)
                } else if t == "chatActionUploadingVideoNote"@ {
                    ChatActionUploadingVideoNote::parse(d, at)
                } else if t == "chatActionCancel"@ {
                    ChatActionCancel::parse(d, at)
                } else {
                    Err(Fault::UnknownVariant(t))
                },
                None => Err(Fault::MissingDiscriminator),
            },
            _ => Err(Fault::TypeMismatch(at)),
        }
    }

    fn encode(&self) -> (j: Json) {
        proof {
            reveal(<ChatAction as Wire>::wire);
        }
        match self {
            Self::ChatActionTyping(p) => p.encode(),
            Self::ChatActionRecordingVideo(p) => p.encode(),
            Self::ChatActionUploadingVideo(p) => p.encode(),
            Self::ChatActionRecordingVoiceNote(p) => p.encode(),
            Self::ChatActionUploadingVoiceNote(p) => p.encode(),
            Self::ChatActionUploadingPhoto(p) => p.encode(),
            Self::ChatActionUploadingDocument(p) => p.encode(),
            Self::ChatActionChoosingLocation(p) => p.encode(),
            Self::ChatActionChoosingContact(p) => p.encode(),
            Self::ChatActionStartPlayingGame(p) => p.encode(),
            Self::ChatActionRecordingVideoNote(p) => p.encode(),
            Self::ChatActionUploadingVideoNote(p) => p.encode(),
            Self::ChatActionCancel(p) => p.encode(),
        }
    }

    fn decode(j: &Json, at: &str) -> (r: Result<Self, DecodeError>) {
        proof {
            reveal(<ChatAction as Wire>::wire);
            reveal(<ChatAction as Wire>::parse);
        }
        let members = members_of(j, at)?;
        let tag = discriminator(members)?;
        if same_text(tag, "chatActionTyping") {
            Ok(Self::ChatActionTyping(ChatActionTyping::decode(j, at)?))
        } else if same_text(tag, "chatActionRecordingVideo") {
            Ok(Self::ChatActionRecordingVideo(ChatActionRecordingVideo::decode(j, at)?))
        } else if same_text(tag, "chatActionUploadingVideo") {
            Ok(Self::ChatActionUploadingVideo(ChatActionUploadingVideo::decode(j, at)?))
        } else if same_text(tag, "chatActionRecordingVoiceNote") {
            Ok(Self::ChatActionRecordingVoiceNote(ChatActionRecordingVoiceNote::decode(j, at)?))
        } else if same_text(tag, "chatActionUploadingVoiceNote") {
            Ok(Self::ChatActionUploadingVoiceNote(ChatActionUploadingVoiceNote::decode(j, at)?))
        } else if same_text(tag, "chatActionUploadingPhoto") {
            Ok(Self::ChatActionUploadingPhoto(ChatActionUploadingPhoto::decode(j, at)?))
        } else if same_text(tag, "chatActionUploadingDocument") {
            Ok(Self::ChatActionUploadingDocument(ChatActionUploadingDocument::decode(j, at)?))
        } else if same_text(tag, "chatActionChoosingLocation") {
            Ok(Self::ChatActionChoosingLocation(ChatActionChoosingLocation::decode(j, at)?))
        } else if same_text(tag, "chatActionChoosingContact") {
            Ok(Self::ChatActionChoosingContact(ChatActionChoosingContact::decode(j, at)?))
        } else if same_text(tag, "chatActionStartPlayingGame") {
            Ok(Self::ChatActionStartPlayingGame(ChatActionStartPlayingGame::decode(j, at)?))
        } else if same_text(tag, "chatActionRecordingVideoNote") {
            Ok(Self::ChatActionRecordingVideoNote(ChatActionRecordingVideoNote::decode(j, at)?))
        } else if same_text(tag, "chatActionUploadingVideoNote") {
            Ok(Self::ChatActionUploadingVideoNote(ChatActionUploadingVideoNote::decode(j, at)?))
        } else if same_text(tag, "chatActionCancel") {
            Ok(Self::ChatActionCancel(ChatActionCancel::decode(j, at)?))
        } else {
            Err(DecodeError::UnknownVariant(tag.to_owned()))
        }
    }

    proof fn round_trip(&self, at: Seq<char>) {
        reveal(<ChatAction as Wire>::wire);
        reveal(<ChatAction as Wire>::parse);
        reveal_strlit("chatActionCancel");
        reveal_strlit("chatActionChoosingContact");
        reveal_strlit("chatActionChoosingLocation");
        reveal_strlit("chatActionRecordingVideo");
        reveal_strlit("chatActionRecordingVideoNote");
        reveal_strlit("chatActionRecordingVoiceNote");
        reveal_strlit("chatActionStartPlayingGame");
        reveal_strlit("chatActionTyping");
        reveal_strlit("chatActionUploadingDocument");
        reveal_strlit("chatActionUploadingPhoto");
        reveal_strlit("chatActionUploadingVideo");
        reveal_strlit("chatActionUploadingVideoNote");
        reveal_strlit("chatActionUploadingVoiceNote");
        assert("chatActionCancel"@.len() == 16 && "chatActionCancel"@[10] == 'C');
        assert("chatActionChoosingContact"@.len() == 25);
        assert({
            &&& "chatActionChoosingLocation"@.len() == 26
            &&& "chatActionChoosingLocation"@[10] == 'C'
        });
        assert({
            &&& "chatActionRecordingVideo"@.len() == 24
            &&& "chatActionRecordingVideo"@[10] == 'R'
            &&& "chatActionRecordingVideo"@[19] == 'V'
        });
        assert({
            &&& "chatActionRecordingVideoNote"@.len() == 28
            &&& "chatActionRecordingVideoNote"@[10] == 'R'
            &&& "chatActionRecordingVideoNote"@[20] == 'i'
        });
        assert({
            &&& "chatActionRecordingVoiceNote"@.len() == 28
            &&& "chatActionRecordingVoiceNote"@[10] == 'R'
            &&& "chatActionRecordingVoiceNote"@[20] == 'o'
        });
        assert({
            &&& "chatActionStartPlayingGame"@.len() == 26
            &&& "chatActionStartPlayingGame"@[10] == 'S'
        });
        assert("chatActionTyping"@.len() == 16 && "chatActionTyping"@[10] == 'T');
        assert("chatActionUploadingDocument"@.len() == 27);
        assert({
            &&& "chatActionUploadingPhoto"@.len() == 24
            &&& "chatActionUploadingPhoto"@[10] == 'U'
            &&& "chatActionUploadingPhoto"@[19] == 'P'
        });
        assert({
            &&& "chatActionUploadingVideo"@.len() == 24
            &&& "chatActionUploadingVideo"@[10] == 'U'
            &&& "chatActionUploadingVideo"@[19] == 'V'
        });
        assert({
            &&& "chatActionUploadingVideoNote"@.len() == 28
            &&& "chatActionUploadingVideoNote"@[10] == 'U'
            &&& "chatActionUploadingVideoNote"@[20] == 'i'
        });
        assert({
            &&& "chatActionUploadingVoiceNote"@.len() == 28
            &&& "chatActionUploadingVoiceNote"@[10] == 'U'
            &&& "chatActionUploadingVoiceNote"@[20] == 'o'
        });
        match self {
            Self::ChatActionTyping(p) => {
                p.tag_known();
                p.round_trip(at);
            },
            Self::ChatActionRecordingVideo(p) => {
                p.tag_known();
                p.round_trip(at);
            },
            Self::ChatActionUploadingVideo(p) => {
                p.tag_known();
                p.round_trip(at);
            },
            Self::ChatActionRecordingVoiceNote(p) => {
                p.tag_known();
                p.round_trip(at);
            },
            Self::ChatActionUploadingVoiceNote(p) => {
                p.tag_known();
                p.round_trip(at);
            },
            Self::ChatActionUploadingPhoto(p) => {
                p.tag_known();
                p.round_trip(at);
            },
            Self::ChatActionUploadingDocument(p) => {
                p.tag_known();
                p.round_trip(at);
            },
            Self::ChatActionChoosingLocation(p) => {
                p.tag_known();
                p.round_trip(at);
            },
            Self::ChatActionChoosingContact(p) => {
                p.tag_known();
                p.round_trip(at);
            },
            Self::ChatActionStartPlayingGame(p) => {
                p.tag_known();
                p.round_trip(at);
            },
            Self::ChatActionRecordingVideoNote(p) => {
                p.tag_known();
                p.round_trip(at);
            },
            Self::ChatActionUploadingVideoNote(p) => {
                p.tag_known();
                p.round_trip(at);
            },
            Self::ChatActionCancel(p) => {
                p.tag_known();
                p.round_trip(at);
            },
        }
    }
}

impl Tagged for ChatAction {
    open spec fn known(tag: Seq<char>) -> bool {
        ||| tag == "chatActionTyping"@
        ||| tag == "chatActionRecordingVideo"@
        ||| tag == "chatActionUploadingVideo"@
        ||| tag == "chatActionRecordingVoiceNote"@
        ||| tag == "chatActionUploadingVoiceNote"@
        ||| tag == "chatActionUploadingPhoto"@
        ||| tag == "chatActionUploadingDocument"@
        ||| tag == "chatActionChoosingLocation"@
        ||| tag == "chatActionChoosingContact"@
        ||| tag == "chatActionStartPlayingGame"@
        ||| tag == "chatActionRecordingVideoNote"@
        ||| tag == "chatActionUploadingVideoNote"@
        ||| tag == "chatActionCancel"@
    }

    fn knows(tag: &str) -> (r: bool) {
        same_text(tag, "chatActionTyping")
            || same_text(tag, "chatActionRecordingVideo")
            || same_text(tag, "chatActionUploadingVideo")
            || same_text(tag, "chatActionRecordingVoiceNote")
            || same_text(tag, "chatActionUploadingVoiceNote")
            || same_text(tag, "chatActionUploadingPhoto")
            || same_text(tag, "chatActionUploadingDocument")
            || same_text(tag, "chatActionChoosingLocation")
            || same_text(tag, "chatActionChoosingContact")
            || same_text(tag, "chatActionStartPlayingGame")
            || same_text(tag, "chatActionRecordingVideoNote")
            || same_text(tag, "chatActionUploadingVideoNote")
            || same_text(tag, "chatActionCancel")
    }

    proof fn tag_known(&self) {
        reveal(<ChatAction as Wire>::wire);
        match self {
            Self::ChatActionTyping(p) => p.tag_known(),
            Self::ChatActionRecordingVideo(p) => p.tag_known(),
            Self::ChatActionUploadingVideo(p) => p.tag_known(),
            Self::ChatActionRecordingVoiceNote(p) => p.tag_known(),
            Self::ChatActionUploadingVoiceNote(p) => p.tag_known(),
            Self::ChatActionUploadingPhoto(p) => p.tag_known(),
            Self::ChatActionUploadingDocument(p) => p.tag_known(),
            Self::ChatActionChoosingLocation(p) => p.tag_known(),
            Self::ChatActionChoosingContact(p) => p.tag_known(),
            Self::ChatActionStartPlayingGame(p) => p.tag_known(),
            Self::ChatActionRecordingVideoNote(p) => p.tag_known(),
            Self::ChatActionUploadingVideoNote(p) => p.tag_known(),
            Self::ChatActionCancel(p) => p.tag_known(),
        }
    }
}

impl Union for ChatAction {
    proof fn unknown_rejected(d: Doc, at: Seq<char>) {
        reveal(<ChatAction as Wire>::parse);
    }

    proof fn untagged_rejected(d: Doc, at: Seq<char>) {
        reveal(<ChatAction as Wire>::parse);
    }
}

/// The user status was never changed
#[derive(Debug, Clone, PartialEq)]
pub struct UserStatusEmpty {}

impl Wire for UserStatusEmpty {
    #[verifier::opaque]
    open spec fn wire(&self) -> Doc {
        tagged(Map::empty(), "userStatusEmpty"@)
    }

    #[verifier::opaque]
    open spec fn parse(d: Doc, at: Seq<char>) -> Result<Doc, Fault> {
        match d {
            Doc::Object(_) => Ok(tagged(Map::empty(), "userStatusEmpty"@)),
            _ => Err(Fault::TypeMismatch(at)),
        }
    }

    fn encode(&self) -> (j: Json) {
        proof {
            reveal(<UserStatusEmpty as Wire>::wire);
        }
        seal(Vec::new(), "userStatusEmpty")
    }

    fn decode(j: &Json, at: &str) -> (r: Result<Self, DecodeError>) {
        proof {
            reveal(<UserStatusEmpty as Wire>::wire);
            reveal(<UserStatusEmpty as Wire>::parse);
        }
        let _ = members_of(j, at)?;
        Ok(UserStatusEmpty {})
    }

    proof fn round_trip(&self, at: Seq<char>) {
        reveal(<UserStatusEmpty as Wire>::wire);
        reveal(<UserStatusEmpty as Wire>::parse);
    }
}

impl Tagged for UserStatusEmpty {
    open spec fn known(tag: Seq<char>) -> bool {
        tag == "userStatusEmpty"@
    }

    fn knows(tag: &str) -> (r: bool) {
        same_text(tag, "userStatusEmpty")
    }

    proof fn tag_known(&self) {
        reveal(<UserStatusEmpty as Wire>::wire);
        assert(tag_of(self.wire()) == Some("userStatusEmpty"@));
        assert(Self::known("userStatusEmpty"@));
    }
}

/// The user is online
#[derive(Debug, Clone, PartialEq)]
pub struct UserStatusOnline {
    /// Point in time (Unix timestamp) when the user's online status will expire
    pub expires: i32,
}

impl Wire for UserStatusOnline {
    #[verifier::opaque]
    open spec fn wire(&self) -> Doc {
        tagged(
            Map::empty()
                .insert("expires"@, self.expires.wire()),
            "userStatusOnline"@,
        )
    }

    #[verifier::opaque]
    open spec fn parse(d: Doc, at: Seq<char>) -> Result<Doc, Fault> {
        match d {
            Doc::Object(m) => {
                let expires = field::<i32>(m, "expires"@);
                if expires is Err {
                    expires
                } else {
                    Ok(
                        tagged(
                            Map::empty()
                                .insert("expires"@, expires->Ok_0),
                            "userStatusOnline"@,
                        ),
                    )
                }
            },
            _ => Err(Fault::TypeMismatch(at)),
        }
    }

    fn encode(&self) -> (j: Json) {
        proof {
            reveal(<UserStatusOnline as Wire>::wire);
        }
        let mut members: Vec<Member> = Vec::new();
        put(&mut members, "expires", self.expires.encode());
        seal(members, "userStatusOnline")
    }

    fn decode(j: &Json, at: &str) -> (r: Result<Self, DecodeError>) {
        proof {
            reveal(<UserStatusOnline as Wire>::wire);
            reveal(<UserStatusOnline as Wire>::parse);
        }
        let members = members_of(j, at)?;
        let expires = read_field::<i32>(members, "expires")?;
        Ok(UserStatusOnline { expires })
    }

    proof fn round_trip(&self, at: Seq<char>) {
        reveal(<UserStatusOnline as Wire>::wire);
        reveal(<UserStatusOnline as Wire>::parse);
        reveal_strlit("@type");
        reveal_strlit("expires");
        assert("@type"@.len() == 5);
        assert("expires"@.len() == 7);
        self.expires.round_trip("expires"@);
    }
}

impl Tagged for UserStatusOnline {
    open spec fn known(tag: Seq<char>) -> bool {
        tag == "userStatusOnline"@
    }

    fn knows(tag: &str) -> (r: bool) {
        same_text(tag, "userStatusOnline")
    }

    proof fn tag_known(&self) {
        reveal(<UserStatusOnline as Wire>::wire);
        assert(tag_of(self.wire()) == Some("userStatusOnline"@));
        assert(Self::known("userStatusOnline"@));
    }
}

/// The user is offline
#[derive(Debug, Clone, PartialEq)]
pub struct UserStatusOffline {
    /// Point in time (Unix timestamp) when the user was last online
    pub was_online: i32,
}

impl Wire for UserStatusOffline {
    #[verifier::opaque]
    open spec fn wire(&self) -> Doc {
        tagged(
            Map::empty()
                .insert("wasOnline"@, self.was_online.wire()),
            "userStatusOffline"@,
        )
    }

    #[verifier::opaque]
    open spec fn parse(d: Doc, at: Seq<char>) -> Result<Doc, Fault> {
        match d {
            Doc::Object(m) => {
                let was_online = field::<i32>(m, "wasOnline"@);
                if was_online is Err {
                    was_online
                } else {
                    Ok(
                        tagged(
                            Map::empty()
                                .insert("wasOnline"@, was_online->Ok_0),
                            "userStatusOffline"@,
                        ),
                    )
                }
            },
            _ => Err(Fault::TypeMismatch(at)),
        }
    }

    fn encode(&self) -> (j: Json) {
        proof {
            reveal(<UserStatusOffline as Wire>::wire);
        }
        let mut members: Vec<Member> = Vec::new();
        put(&mut members, "wasOnline", self.was_online.encode());
        seal(members, "userStatusOffline")
    }

    fn decode(j: &Json, at: &str) -> (r: Result<Self, DecodeError>) {
        proof {
            reveal(<UserStatusOffline as Wire>::wire);
            reveal(<UserStatusOffline as Wire>::parse);
        }
        let members = members_of(j, at)?;
        let was_online = read_field::<i32>(members, "wasOnline")?;
        Ok(UserStatusOffline { was_online })
    }

    proof fn round_trip(&self, at: Seq<char>) {
        reveal(<UserStatusOffline as Wire>::wire);
        reveal(<UserStatusOffline as Wire>::parse);
        reveal_strlit("@type");
        reveal_strlit("wasOnline");
        assert("@type"@.len() == 5);
        assert("wasOnline"@.len() == 9);
        self.was_online.round_trip("wasOnline"@);
    }
}

impl Tagged for UserStatusOffline {
    open spec fn known(tag: Seq<char>) -> bool {
        tag == "userStatusOffline"@
    }

    fn knows(tag: &str) -> (r: bool) {
        same_text(tag, "userStatusOffline")
    }

    proof fn tag_known(&self) {
        reveal(<UserStatusOffline as Wire>::wire);
        assert(tag_of(self.wire()) == Some("userStatusOffline"@));
        assert(Self::known("userStatusOffline"@));
    }
}

/// The user was online recently
#[derive(Debug, Clone, PartialEq)]
pub struct UserStatusRecently {}

impl Wire for UserStatusRecently {
    #[verifier::opaque]
    open spec fn wire(&self) -> Doc {
        tagged(Map::empty(), "userStatusRecently"@)
    }

    #[verifier::opaque]
    open spec fn parse(d: Doc, at: Seq<char>) -> Result<Doc, Fault> {
        match d {
            Doc::Object(_) => Ok(tagged(Map::empty(), "userStatusRecently"@)),
            _ => Err(Fault::TypeMismatch(at)),
        }
    }

    fn encode(&self) -> (j: Json) {
        proof {
            reveal(<UserStatusRecently as Wire>::wire);
        }
        seal(Vec::new(), "userStatusRecently")
    }

    fn decode(j: &Json, at: &str) -> (r: Result<Self, DecodeError>) {
        proof {
            reveal(<UserStatusRecently as Wire>::wire);
            reveal(<UserStatusRecently as Wire>::parse);
        }
        let _ = members_of(j, at)?;
        Ok(UserStatusRecently {})
    }

    proof fn round_trip(&self, at: Seq<char>) {
        reveal(<UserStatusRecently as Wire>::wire);
        reveal(<UserStatusRecently as Wire>::parse);
    }
}

impl Tagged for UserStatusRecently {
    open spec fn known(tag: Seq<char>) -> bool {
        tag == "userStatusRecently"@
    }

    fn knows(tag: &str) -> (r: bool) {
        same_text(tag, "userStatusRecently")
    }

    proof fn tag_known(&self) {
        reveal(<UserStatusRecently as Wire>::wire);
        assert(tag_of(self.wire()) == Some("userStatusRecently"@));
        assert(Self::known("userStatusRecently"@));
    }
}

/// The user is offline, but was online last week
#[derive(Debug, Clone, PartialEq)]
pub struct UserStatusLastWeek {}

impl Wire for UserStatusLastWeek {
    #[verifier::opaque]
    open spec fn wire(&self) -> Doc {
        tagged(Map::empty(), "userStatusLastWeek"@)
    }

    #[verifier::opaque]
    open spec fn parse(d: Doc, at: Seq<char>) -> Result<Doc, Fault> {
        match d {
            Doc::Object(_) => Ok(tagged(Map::empty(), "userStatusLastWeek"@)),
            _ => Err(Fault::TypeMismatch(at)),
        }
    }

    fn encode(&self) -> (j: Json) {
        proof {
            reveal(<UserStatusLastWeek as Wire>::wire);
        }
        seal(Vec::new(), "userStatusLastWeek")
    }

    fn decode(j: &Json, at: &str) -> (r: Result<Self, DecodeError>) {
        proof {
            reveal(<UserStatusLastWeek as Wire>::wire);
            reveal(<UserStatusLastWeek as Wire>::parse);
        }
        let _ = members_of(j, at)?;
        Ok(UserStatusLastWeek {})
    }

    proof fn round_trip(&self, at: Seq<char>) {
        reveal(<UserStatusLastWeek as Wire>::wire);
        reveal(<UserStatusLastWeek as Wire>::parse);
    }
}

impl Tagged for UserStatusLastWeek {
    open spec fn known(tag: Seq<char>) -> bool {
        tag == "userStatusLastWeek"@
    }

    fn knows(tag: &str) -> (r: bool) {
        same_text(tag, "userStatusLastWeek")
    }

    proof fn tag_known(&self) {
        reveal(<UserStatusLastWeek as Wire>::wire);
        assert(tag_of(self.wire()) == Some("userStatusLastWeek"@));
        assert(Self::known("userStatusLastWeek"@));
    }
}

/// The user is offline, but was online last month
#[derive(Debug, Clone, PartialEq)]
pub struct UserStatusLastMonth {}

impl Wire for UserStatusLastMonth {
    #[verifier::opaque]
    open spec fn wire(&self) -> Doc {
        tagged(Map::empty(), "userStatusLastMonth"@)
    }

    #[verifier::opaque]
    open spec fn parse(d: Doc, at: Seq<char>) -> Result<Doc, Fault> {
        match d {
            Doc::Object(_) => Ok(tagged(Map::empty(), "userStatusLastMonth"@)),
            _ => Err(Fault::TypeMismatch(at)),
        }
    }

    fn encode(&self) -> (j: Json) {
        proof {
            reveal(<UserStatusLastMonth as Wire>::wire);
        }
        seal(Vec::new(), "userStatusLastMonth")
    }

    fn decode(j: &Json, at: &str) -> (r: Result<Self, DecodeError>) {
        proof {
            reveal(<UserStatusLastMonth as Wire>::wire);
            reveal(<UserStatusLastMonth as Wire>::parse);
        }
        let _ = members_of(j, at)?;
        Ok(UserStatusLastMonth {})
    }

    proof fn round_trip(&self, at: Seq<char>) {
        reveal(<UserStatusLastMonth as Wire>::wire);
        reveal(<UserStatusLastMonth as Wire>::parse);
    }
}

impl Tagged for UserStatusLastMonth {
    open spec fn known(tag: Seq<char>) -> bool {
        tag == "userStatusLastMonth"@
    }

    fn knows(tag: &str) -> (r: bool) {
        same_text(tag, "userStatusLastMonth")
    }

    proof fn tag_known(&self) {
        reveal(<UserStatusLastMonth as Wire>::wire);
        assert(tag_of(self.wire()) == Some("userStatusLastMonth"@));
        assert(Self::known("userStatusLastMonth"@));
    }
}

/// Describes the last time the user was online
#[derive(Debug, Clone, PartialEq)]
pub enum UserStatus {
    UserStatusEmpty(UserStatusEmpty),
    UserStatusOnline(UserStatusOnline),
    UserStatusOffline(UserStatusOffline),
    UserStatusRecently(UserStatusRecently),
    UserStatusLastWeek(UserStatusLastWeek),
    UserStatusLastMonth(UserStatusLastMonth),
}

impl Wire for UserStatus {
    #[verifier::opaque]
    open spec fn wire(&self) -> Doc {
        match self {
            Self::UserStatusEmpty(p) => p.wire(),
            Self::UserStatusOnline(p) => p.wire(),
            Self::UserStatusOffline(p) => p.wire(),
            Self::UserStatusRecently(p) => p.wire(),
            Self::UserStatusLastWeek(p) => p.wire(),
            Self::UserStatusLastMonth(p) => p.wire(),
        }
    }

    #[verifier::opaque]
    open spec fn parse(d: Doc, at: Seq<char>) -> Result<Doc, Fault> {
        match d {
            Doc::Object(_) => match tag_of(d) {
                Some(t) => if t == "userStatusEmpty"@ {
                    UserStatusEmpty::parse(d, at)
                } else if t == "userStatusOnline"@ {
                    UserStatusOnline::parse(d, at)
                } else if t == "userStatusOffline"@ {
                    UserStatusOffline::parse(d, at)
                } else if t == "userStatusRecently"@ {
                    UserStatusRecently::parse(d, at)
                } else if t == "userStatusLastWeek"@ {
                    UserStatusLastWeek::parse(d, at)
                } else if t == "userStatusLastMonth"@ {
                    UserStatusLastMonth::parse(d, at)
                } else {
                    Err(Fault::UnknownVariant(t))
                },
                None => Err(Fault::MissingDiscriminator),
            },
            _ => Err(Fault::TypeMismatch(at)),
        }
    }

    fn encode(&self) -> (j: Json) {
        proof {
            reveal(<UserStatus as Wire>::wire);
        }
        match self {
            Self::UserStatusEmpty(p) => p.encode(),
            Self::UserStatusOnline(p) => p.encode(),
            Self::UserStatusOffline(p) => p.encode(),
            Self::UserStatusRecently(p) => p.encode(),
            Self::UserStatusLastWeek(p) => p.encode(),
            Self::UserStatusLastMonth(p) => p.encode(),
        }
    }

    fn decode(j: &Json, at: &str) -> (r: Result<Self, DecodeError>) {
        proof {
            reveal(<UserStatus as Wire>::wire);
            reveal(<UserStatus as Wire>::parse);
        }
        let members = members_of(j, at)?;
        let tag = discriminator(members)?;
        if same_text(tag, "userStatusEmpty") {
            Ok(Self::UserStatusEmpty(UserStatusEmpty::decode(j, at)?))
        } else if same_text(tag, "userStatusOnline") {
            Ok(Self::UserStatusOnline(UserStatusOnline::decode(j, at)?))
        } else if same_text(tag, "userStatusOffline") {
            Ok(Self::UserStatusOffline(UserStatusOffline::decode(j, at)?))
        } else if same_text(tag, "userStatusRecently") {
            Ok(Self::UserStatusRecently(UserStatusRecently::decode(j, at)?))
        } else if same_text(tag, "userStatusLastWeek") {
            Ok(Self::UserStatusLastWeek(UserStatusLastWeek::decode(j, at)?))
        } else if same_text(tag, "userStatusLastMonth") {
            Ok(Self::UserStatusLastMonth(UserStatusLastMonth::decode(j, at)?))
        } else {
            Err(DecodeError::UnknownVariant(tag.to_owned()))
        }
    }

    proof fn round_trip(&self, at: Seq<char>) {
        reveal(<UserStatus as Wire>::wire);
        reveal(<UserStatus as Wire>::parse);
        reveal_strlit("userStatusEmpty");
        reveal_strlit("userStatusLastMonth");
        reveal_strlit("userStatusLastWeek");
        reveal_strlit("userStatusOffline");
        reveal_strlit("userStatusOnline");
        reveal_strlit("userStatusRecently");
        assert("userStatusEmpty"@.len() == 15);
        assert("userStatusLastMonth"@.len() == 19);
        assert("userStatusLastWeek"@.len() == 18 && "userStatusLastWeek"@[10] == 'L');
        assert("userStatusOffline"@.len() == 17);
        assert("userStatusOnline"@.len() == 16);
        assert("userStatusRecently"@.len() == 18 && "userStatusRecently"@[10] == 'R');
        match self {
            Self::UserStatusEmpty(p) => {
                p.tag_known();
                p.round_trip(at);
            },
            Self::UserStatusOnline(p) => {
                p.tag_known();
                p.round_trip(at);
            },
            Self::UserStatusOffline(p) => {
                p.tag_known();
                p.round_trip(at);
            },
            Self::UserStatusRecently(p) => {
                p.tag_known();
                p.round_trip(at);
            },
            Self::UserStatusLastWeek(p) => {
                p.tag_known();
                p.round_trip(at);
            },
            Self::UserStatusLastMonth(p) => {
                p.tag_known();
                p.round_trip(at);
            },
        }
    }
}

impl Tagged for UserStatus {
    open spec fn known(tag: Seq<char>) -> bool {
        ||| tag == "userStatusEmpty"@
        ||| tag == "userStatusOnline"@
        ||| tag == "userStatusOffline"@
        ||| tag == "userStatusRecently"@
        ||| tag == "userStatusLastWeek"@
        ||| tag == "userStatusLastMonth"@
    }

    fn knows(tag: &str) -> (r: bool) {
        same_text(tag, "userStatusEmpty")
            || same_text(tag, "userStatusOnline")
            || same_text(tag, "userStatusOffline")
            || same_text(tag, "userStatusRecently")
            || same_text(tag, "userStatusLastWeek")
            || same_text(tag, "userStatusLastMonth")
    }

    proof fn tag_known(&self) {
        reveal(<UserStatus as Wire>::wire);
        match self {
            Self::UserStatusEmpty(p) => p.tag_known(),
            Self::UserStatusOnline(p) => p.tag_known(),
            Self::UserStatusOffline(p) => p.tag_known(),
            Self::UserStatusRecently(p) => p.tag_known(),
            Self::UserStatusLastWeek(p) => p.tag_known(),
            Self::UserStatusLastMonth(p) => p.tag_known(),
        }
    }
}

impl Union for UserStatus {
    proof fn unknown_rejected(d: Doc, at: Seq<char>) {
        reveal(<UserStatus as Wire>::parse);
    }

    proof fn untagged_rejected(d: Doc, at: Seq<char>) {
        reveal(<UserStatus as Wire>::parse);
    }
}

/// Represents a list of stickers
#[derive(Debug, Clone, PartialEq)]
pub struct Stickers {
    /// List of stickers
    pub stickers: Vec<Sticker>,
}

impl Wire for Stickers {
    #[verifier::opaque]
    open spec fn wire(&self) -> Doc {
        tagged(
            Map::empty()
                .insert("stickers"@, self.stickers.wire()),
            "stickers"@,
        )
    }

    #[verifier::opaque]
    open spec fn parse(d: Doc, at: Seq<char>) -> Result<Doc, Fault> {
        match d {
            Doc::Object(m) => {
                let stickers = field::<Vec<Sticker>>(m, "stickers"@);
                if stickers is Err {
                    stickers
                } else {
                    Ok(
                        tagged(
                            Map::empty()
                                .insert("stickers"@, stickers->Ok_0),
                            "stickers"@,
                        ),
                    )
                }
            },
            _ => Err(Fault::TypeMismatch(at)),
        }
    }

    fn encode(&self) -> (j: Json) {
        proof {
            reveal(<Stickers as Wire>::wire);
        }
        let mut members: Vec<Member> = Vec::new();
        put(&mut members, "stickers", self.stickers.encode());
        seal(members, "stickers")
    }

    fn decode(j: &Json, at: &str) -> (r: Result<Self, DecodeError>) {
        proof {
            reveal(<Stickers as Wire>::wire);
            reveal(<Stickers as Wire>::parse);
        }
        let members = members_of(j, at)?;
        let stickers = read_field::<Vec<Sticker>>(members, "stickers")?;
        Ok(Stickers { stickers })
    }

    proof fn round_trip(&self, at: Seq<char>) {
        reveal(<Stickers as Wire>::wire);
        reveal(<Stickers as Wire>::parse);
        reveal_strlit("@type");
        reveal_strlit("stickers");
        assert("@type"@.len() == 5);
        assert("stickers"@.len() == 8);
        self.stickers.round_trip("stickers"@);
    }
}

impl Tagged for Stickers {
    open spec fn known(tag: Seq<char>) -> bool {
        tag == "stickers"@
    }

    fn knows(tag: &str) -> (r: bool) {
        same_text(tag, "stickers")
    }

    proof fn tag_known(&self) {
        reveal(<Stickers as Wire>::wire);
        assert(tag_of(self.wire()) == Some("stickers"@));
        assert(Self::known("stickers"@));
    }
}

/// Represents a list of emoji
#[derive(Debug, Clone, PartialEq)]
pub struct Emojis {
    /// List of emojis
    pub emojis: Vec<String>,
}

impl Wire for Emojis {
    #[verifier::opaque]
    open spec fn wire(&self) -> Doc {
        tagged(
            Map::empty()
                .insert("emojis"@, self.emojis.wire()),
            "emojis"@,
        )
    }

    #[verifier::opaque]
    open spec fn parse(d: Doc, at: Seq<char>) -> Result<Doc, Fault> {
        match d {
            Doc::Object(m) => {
                let emojis = field::<Vec<String>>(m, "emojis"@);
                if emojis is Err {
                    emojis
                } else {
                    Ok(
                        tagged(
                            Map::empty()
                                .insert("emojis"@, emojis->Ok_0),
                            "emojis"@,
                        ),
                    )
                }
            },
            _ => Err(Fault::TypeMismatch(at)),
        }
    }

    fn encode(&self) -> (j: Json) {
        proof {
            reveal(<Emojis as Wire>::wire);
        }
        let mut members: Vec<Member> = Vec::new();
        put(&mut members, "emojis", self.emojis.encode());
        seal(members, "emojis")
    }

    fn decode(j: &Json, at: &str) -> (r: Result<Self, DecodeError>) {
        proof {
            reveal(<Emojis as Wire>::wire);
            reveal(<Emojis as Wire>::parse);
        }
        let members = members_of(j, at)?;
        let emojis = read_field::<Vec<String>>(members, "emojis")?;
        Ok(Emojis { emojis })
    }

    proof fn round_trip(&self, at: Seq<char>) {
        reveal(<Emojis as Wire>::wire);
        reveal(<Emojis as Wire>::parse);
        reveal_strlit("@type");
        reveal_strlit("emojis");
        assert("@type"@.len() == 5);
        assert("emojis"@.len() == 6);
        self.emojis.round_trip("emojis"@);
    }
}

impl Tagged for Emojis {
    open spec fn known(tag: Seq<char>) -> bool {
        tag == "emojis"@
    }

    fn knows(tag: &str) -> (r: bool) {
        same_text(tag, "emojis")
    }

    proof fn tag_known(&self) {
        reveal(<Emojis as Wire>::wire);
        assert(tag_of(self.wire()) == Some("emojis"@));
        assert(Self::known("emojis"@));
    }
}

/// Represents a sticker set
#[derive(Debug, Clone, PartialEq)]
pub struct StickerSet {
    /// Identifier of the sticker set
    pub id: i64,
    /// Title of the sticker set
    pub title: String,
    /// Name of the sticker set
    pub name: String,
    /// Sticker set thumbnail in WEBP format with width and height 100; may be null. The file can be
    /// downloaded only before the thumbnail is changed
    pub thumbnail: Option<PhotoSize>,
    /// True, if the sticker set has been installed by the current user
    pub is_installed: bool,
    /// True, if the sticker set has been archived. A sticker set can't be installed and archived
    /// simultaneously
    pub is_archived: bool,
    /// True, if the sticker set is official
    pub is_official: bool,
    /// True, is the stickers in the set are animated
    pub is_animated: bool,
    /// True, if the stickers in the set are masks
    pub is_masks: bool,
    /// True for already viewed trending sticker sets
    pub is_viewed: bool,
    /// List of stickers in this set
    pub stickers: Vec<Sticker>,
    /// A list of emoji corresponding to the stickers in the same order. The list is only for
    /// informational purposes, because a sticker is always sent with a fixed emoji from the
    /// corresponding Sticker object
    pub emojis: Vec<Emojis>,
}

impl Wire for StickerSet {
    #[verifier::opaque]
    open spec fn wire(&self) -> Doc {
        tagged(
            Map::empty()
                .insert("id"@, wide_doc(self.id))
                .insert("title"@, self.title.wire())
                .insert("name"@, self.name.wire())
                .insert("thumbnail"@, self.thumbnail.wire())
                .insert("isInstalled"@, self.is_installed.wire())
                .insert("isArchived"@, self.is_archived.wire())
                .insert("isOfficial"@, self.is_official.wire())
                .insert("isAnimated"@, self.is_animated.wire())
                .insert("isMasks"@, self.is_masks.wire())
                .insert("isViewed"@, self.is_viewed.wire())
                .insert("stickers"@, self.stickers.wire())
                .insert("emojis"@, self.emojis.wire()),
            "stickerSet"@,
        )
    }

    #[verifier::opaque]
    open spec fn parse(d: Doc, at: Seq<char>) -> Result<Doc, Fault> {
        match d {
            Doc::Object(m) => {
                let id = wide_field(m, "id"@);
                let title = field::<String>(m, "title"@);
                let name = field::<String>(m, "name"@);
                let thumbnail = optional_field::<PhotoSize>(m, "thumbnail"@);
                let is_installed = field::<bool>(m, "isInstalled"@);
                let is_archived = field::<bool>(m, "isArchived"@);
                let is_official = field::<bool>(m, "isOfficial"@);
                let is_animated = field::<bool>(m, "isAnimated"@);
                let is_masks = field::<bool>(m, "isMasks"@);
                let is_viewed = field::<bool>(m, "isViewed"@);
                let stickers = field::<Vec<Sticker>>(m, "stickers"@);
                let emojis = field::<Vec<Emojis>>(m, "emojis"@);
                if id is Err {
                    id
                } else if title is Err {
                    title
                } else if name is Err {
                    name
                } else if thumbnail is Err {
                    thumbnail
                } else if is_installed is Err {
                    is_installed
                } else if is_archived is Err {
                    is_archived
                } else if is_official is Err {
                    is_official
                } else if is_animated is Err {
                    is_animated
                } else if is_masks is Err {
                    is_masks
                } else if is_viewed is Err {
                    is_viewed
                } else if stickers is Err {
                    stickers
                } else if emojis is Err {
                    emojis
                } else {
                    Ok(
                        tagged(
                            Map::empty()
                                .insert("id"@, id->Ok_0)
                                .insert("title"@, title->Ok_0)
                                .insert("name"@, name->Ok_0)
                                .insert("thumbnail"@, thumbnail->Ok_0)
                                .insert("isInstalled"@, is_installed->Ok_0)
                                .insert("isArchived"@, is_archived->Ok_0)
                                .insert("isOfficial"@, is_official->Ok_0)
                                .insert("isAnimated"@, is_animated->Ok_0)
                                .insert("isMasks"@, is_masks->Ok_0)
                                .insert("isViewed"@, is_viewed->Ok_0)
                                .insert("stickers"@, stickers->Ok_0)
                                .insert("emojis"@, emojis->Ok_0),
                            "stickerSet"@,
                        ),
                    )
                }
            },
            _ => Err(Fault::TypeMismatch(at)),
        }
    }

    fn encode(&self) -> (j: Json) {
        proof {
            reveal(<StickerSet as Wire>::wire);
        }
        let mut members: Vec<Member> = Vec::new();
        put(&mut members, "id", encode_wide(self.id));
        put(&mut members, "title", self.title.encode());
        put(&mut members, "name", self.name.encode());
        put(&mut members, "thumbnail", self.thumbnail.encode());
        put(&mut members, "isInstalled", self.is_installed.encode());
        put(&mut members, "isArchived", self.is_archived.encode());
        put(&mut members, "isOfficial", self.is_official.encode());
        put(&mut members, "isAnimated", self.is_animated.encode());
        put(&mut members, "isMasks", self.is_masks.encode());
        put(&mut members, "isViewed", self.is_viewed.encode());
        put(&mut members, "stickers", self.stickers.encode());
        put(&mut members, "emojis", self.emojis.encode());
        seal(members, "stickerSet")
    }

    fn decode(j: &Json, at: &str) -> (r: Result<Self, DecodeError>) {
        proof {
            reveal(<StickerSet as Wire>::wire);
            reveal(<StickerSet as Wire>::parse);
        }
        let members = members_of(j, at)?;
        let id = read_wide(members, "id")?;
        let title = read_field::<String>(members, "title")?;
        let name = read_field::<String>(members, "name")?;
        let thumbnail = read_optional::<PhotoSize>(members, "thumbnail")?;
        let is_installed = read_field::<bool>(members, "isInstalled")?;
        let is_archived = read_field::<bool>(members, "isArchived")?;
        let is_official = read_field::<bool>(members, "isOfficial")?;
        let is_animated = read_field::<bool>(members, "isAnimated")?;
        let is_masks = read_field::<bool>(members, "isMasks")?;
        let is_viewed = read_field::<bool>(members, "isViewed")?;
        let stickers = read_field::<Vec<Sticker>>(members, "stickers")?;
        let emojis = read_field::<Vec<Emojis>>(members, "emojis")?;
        Ok(StickerSet {
            id,
            title,
            name,
            thumbnail,
            is_installed,
            is_archived,
            is_official,
            is_animated,
            is_masks,
            is_viewed,
            stickers,
            emojis,
        })
    }

    proof fn round_trip(&self, at: Seq<char>) {
        reveal(<StickerSet as Wire>::wire);
        reveal(<StickerSet as Wire>::parse);
        reveal_strlit("@type");
        reveal_strlit("emojis");
        reveal_strlit("id");
        reveal_strlit("isAnimated");
        reveal_strlit("isArchived");
        reveal_strlit("isInstalled");
        reveal_strlit("isMasks");
        reveal_strlit("isOfficial");
        reveal_strlit("isViewed");
        reveal_strlit("name");
        reveal_strlit("stickers");
        reveal_strlit("thumbnail");
        reveal_strlit("title");
        assert("@type"@.len() == 5 && "@type"@[0] == '@');
        assert("emojis"@.len() == 6);
        assert("id"@.len() == 2);
        assert("isAnimated"@.len() == 10 && "isAnimated"@[3] == 'n');
        assert("isArchived"@.len() == 10 && "isArchived"@[3] == 'r');
        assert("isInstalled"@.len() == 11);
        assert("isMasks"@.len() == 7);
        assert("isOfficial"@.len() == 10 && "isOfficial"@[3] == 'f');
        assert("isViewed"@.len() == 8 && "isViewed"@[0] == 'i');
        assert("name"@.len() == 4);
        assert("stickers"@.len() == 8 && "stickers"@[0] == 's');
        assert("thumbnail"@.len() == 9);
        assert("title"@.len() == 5 && "title"@[0] == 't');
        lemma_wide_round_trip(self.id, "id"@);
        self.title.round_trip("title"@);
        self.name.round_trip("name"@);
        self.thumbnail.round_trip("thumbnail"@);
        self.is_installed.round_trip("isInstalled"@);
        self.is_archived.round_trip("isArchived"@);
        self.is_official.round_trip("isOfficial"@);
        self.is_animated.round_trip("isAnimated"@);
        self.is_masks.round_trip("isMasks"@);
        self.is_viewed.round_trip("isViewed"@);
        self.stickers.round_trip("stickers"@);
        self.emojis.round_trip("emojis"@);
        let m = self.wire()->Object_0;
        assert(wide_field(m, "id"@) == Ok::<Doc, Fault>(wide_doc(self.id)));
        assert(field::<String>(m, "title"@) == Ok::<Doc, Fault>(self.title.wire()));
        assert(field::<String>(m, "name"@) == Ok::<Doc, Fault>(self.name.wire()));
        assert(optional_field::<PhotoSize>(m, "thumbnail"@)
            == Ok::<Doc, Fault>(self.thumbnail.wire()));
        assert(field::<bool>(m, "isInstalled"@) == Ok::<Doc, Fault>(self.is_installed.wire()));
        assert(field::<bool>(m, "isArchived"@) == Ok::<Doc, Fault>(self.is_archived.wire()));
        assert(field::<bool>(m, "isOfficial"@) == Ok::<Doc, Fault>(self.is_official.wire()));
        assert(field::<bool>(m, "isAnimated"@) == Ok::<Doc, Fault>(self.is_animated.wire()));
        assert(field::<bool>(m, "isMasks"@) == Ok::<Doc, Fault>(self.is_masks.wire()));
        assert(field::<bool>(m, "isViewed"@) == Ok::<Doc, Fault>(self.is_viewed.wire()));
        assert(field::<Vec<Sticker>>(m, "stickers"@) == Ok::<Doc, Fault>(self.stickers.wire()));
        assert(field::<Vec<Emojis>>(m, "emojis"@) == Ok::<Doc, Fault>(self.emojis.wire()));
    }
}

impl Tagged for StickerSet {
    open spec fn known(tag: Seq<char>) -> bool {
        tag == "stickerSet"@
    }

    fn knows(tag: &str) -> (r: bool) {
        same_text(tag, "stickerSet")
    }

    proof fn tag_known(&self) {
        reveal(<StickerSet as Wire>::wire);
        assert(tag_of(self.wire()) == Some("stickerSet"@));
        assert(Self::known("stickerSet"@));
    }
}

/// Represents short information about a sticker set
#[derive(Debug, Clone, PartialEq)]
pub struct StickerSetInfo {
    /// Identifier of the sticker set
    pub id: i64,
    /// Title of the sticker set
    pub title: String,
    /// Name of the sticker set
    pub name: String,
    /// Sticker set thumbnail in WEBP format with width and height 100; may be null
    pub thumbnail: Option<PhotoSize>,
    /// True, if the sticker set has been installed by current user
    pub is_installed: bool,
    /// True, if the sticker set has been archived. A sticker set can't be installed and archived
    /// simultaneously
    pub is_archived: bool,
    /// True, if the sticker set is official
    pub is_official: bool,
    /// True, is the stickers in the set are animated
    pub is_animated: bool,
    /// True, if the stickers in the set are masks
    pub is_masks: bool,
    /// True for already viewed trending sticker sets
    pub is_viewed: bool,
    /// Total number of stickers in the set
    pub size: i32,
    /// Contains up to the first 5 stickers from the set, depending on the context. If the client
    /// needs more stickers the full set should be requested
    pub covers: Vec<Sticker>,
}

impl Wire for StickerSetInfo {
    #[verifier::opaque]
    open spec fn wire(&self) -> Doc {
        tagged(
            Map::empty()
                .insert("id"@, wide_doc(self.id))
                .insert("title"@, self.title.wire())
                .insert("name"@, self.name.wire())
                .insert("thumbnail"@, self.thumbnail.wire())
                .insert("isInstalled"@, self.is_installed.wire())
                .insert("isArchived"@, self.is_archived.wire())
                .insert("isOfficial"@, self.is_official.wire())
                .insert("isAnimated"@, self.is_animated.wire())
                .insert("isMasks"@, self.is_masks.wire())
                .insert("isViewed"@, self.is_viewed.wire())
                .insert("size"@, self.size.wire())
                .insert("covers"@, self.covers.wire()),
            "stickerSetInfo"@,
        )
    }

    #[verifier::opaque]
    open spec fn parse(d: Doc, at: Seq<char>) -> Result<Doc, Fault> {
        match d {
            Doc::Object(m) => {
                let id = wide_field(m, "id"@);
                let title = field::<String>(m, "title"@);
                let name = field::<String>(m, "name"@);
                let thumbnail = optional_field::<PhotoSize>(m, "thumbnail"@);
                let is_installed = field::<bool>(m, "isInstalled"@);
                let is_archived = field::<bool>(m, "isArchived"@);
                let is_official = field::<bool>(m, "isOfficial"@);
                let is_animated = field::<bool>(m, "isAnimated"@);
                let is_masks = field::<bool>(m, "isMasks"@);
                let is_viewed = field::<bool>(m, "isViewed"@);
                let size = field::<i32>(m, "size"@);
                let covers = field::<Vec<Sticker>>(m, "covers"@);
                if id is Err {
                    id
                } else if title is Err {
                    title
                } else if name is Err {
                    name
                } else if thumbnail is Err {
                    thumbnail
                } else if is_installed is Err {
                    is_installed
                } else if is_archived is Err {
                    is_archived
                } else if is_official is Err {
                    is_official
                } else if is_animated is Err {
                    is_animated
                } else if is_masks is Err {
                    is_masks
                } else if is_viewed is Err {
                    is_viewed
                } else if size is Err {
                    size
                } else if covers is Err {
                    covers
                } else {
                    Ok(
                        tagged(
                            Map::empty()
                                .insert("id"@, id->Ok_0)
                                .insert("title"@, title->Ok_0)
                                .insert("name"@, name->Ok_0)
                                .insert("thumbnail"@, thumbnail->Ok_0)
                                .insert("isInstalled"@, is_installed->Ok_0)
                                .insert("isArchived"@, is_archived->Ok_0)
                                .insert("isOfficial"@, is_official->Ok_0)
                                .insert("isAnimated"@, is_animated->Ok_0)
                                .insert("isMasks"@, is_masks->Ok_0)
                                .insert("isViewed"@, is_viewed->Ok_0)
                                .insert("size"@, size->Ok_0)
                                .insert("covers"@, covers->Ok_0),
                            "stickerSetInfo"@,
                        ),
                    )
                }
            },
            _ => Err(Fault::TypeMismatch(at)),
        }
    }

    fn encode(&self) -> (j: Json) {
        proof {
            reveal(<StickerSetInfo as Wire>::wire);
        }
        let mut members: Vec<Member> = Vec::new();
        put(&mut members, "id", encode_wide(self.id));
        put(&mut members, "title", self.title.encode());
        put(&mut members, "name", self.name.encode());
        put(&mut members, "thumbnail", self.thumbnail.encode());
        put(&mut members, "isInstalled", self.is_installed.encode());
        put(&mut members, "isArchived", self.is_archived.encode());
        put(&mut members, "isOfficial", self.is_official.encode());
        put(&mut members, "isAnimated", self.is_animated.encode());
        put(&mut members, "isMasks", self.is_masks.encode());
        put(&mut members, "isViewed", self.is_viewed.encode());
        put(&mut members, "size", self.size.encode());
        put(&mut members, "covers", self.covers.encode());
        seal(members, "stickerSetInfo")
    }

    fn decode(j: &Json, at: &str) -> (r: Result<Self, DecodeError>) {
        proof {
            reveal(<StickerSetInfo as Wire>::wire);
            reveal(<StickerSetInfo as Wire>::parse);
        }
        let members = members_of(j, at)?;
        let id = read_wide(members, "id")?;
        let title = read_field::<String>(members, "title")?;
        let name = read_field::<String>(members, "name")?;
        let thumbnail = read_optional::<PhotoSize>(members, "thumbnail")?;
        let is_installed = read_field::<bool>(members, "isInstalled")?;
        let is_archived = read_field::<bool>(members, "isArchived")?;
        let is_official = read_field::<bool>(members, "isOfficial")?;
        let is_animated = read_field::<bool>(members, "isAnimated")?;
        let is_masks = read_field::<bool>(members, "isMasks")?;
        let is_viewed = read_field::<bool>(members, "isViewed")?;
        let size = read_field::<i32>(members, "size")?;
        let covers = read_field::<Vec<Sticker>>(members, "covers")?;
        Ok(StickerSetInfo {
            id,
            title,
            name,
            thumbnail,
            is_installed,
            is_archived,
            is_official,
            is_animated,
            is_masks,
            is_viewed,
            size,
            covers,
        })
    }

    proof fn round_trip(&self, at: Seq<char>) {
        reveal(<StickerSetInfo as Wire>::wire);
        reveal(<StickerSetInfo as Wire>::parse);
        reveal_strlit("@type");
        reveal_strlit("covers");
        reveal_strlit("id");
        reveal_strlit("isAnimated");
        reveal_strlit("isArchived");
        reveal_strlit("isInstalled");
        reveal_strlit("isMasks");
        reveal_strlit("isOfficial");
        reveal_strlit("isViewed");
        reveal_strlit("name");
        reveal_strlit("size");
        reveal_strlit("thumbnail");
        reveal_strlit("title");
        assert("@type"@.len() == 5 && "@type"@[0] == '@');
        assert("covers"@.len() == 6);
        assert("id"@.len() == 2);
        assert("isAnimated"@.len() == 10 && "isAnimated"@[3] == 'n');
        assert("isArchived"@.len() == 10 && "isArchived"@[3] == 'r');
        assert("isInstalled"@.len() == 11);
        assert("isMasks"@.len() == 7);
        assert("isOfficial"@.len() == 10 && "isOfficial"@[3] == 'f');
        assert("isViewed"@.len() == 8);
        assert("name"@.len() == 4 && "name"@[0] == 'n');
        assert("size"@.len() == 4 && "size"@[0] == 's');
        assert("thumbnail"@.len() == 9);
        assert("title"@.len() == 5 && "title"@[0] == 't');
        lemma_wide_round_trip(self.id, "id"@);
        self.title.round_trip("title"@);
        self.name.round_trip("name"@);
        self.thumbnail.round_trip("thumbnail"@);
        self.is_installed.round_trip("isInstalled"@);
        self.is_archived.round_trip("isArchived"@);
        self.is_official.round_trip("isOfficial"@);
        self.is_animated.round_trip("isAnimated"@);
        self.is_masks.round_trip("isMasks"@);
        self.is_viewed.round_trip("isViewed"@);
        self.size.round_trip("size"@);
        self.covers.round_trip("covers"@);
        let m = self.wire()->Object_0;
        assert(wide_field(m, "id"@) == Ok::<Doc, Fault>(wide_doc(self.id)));
        assert(field::<String>(m, "title"@) == Ok::<Doc, Fault>(self.title.wire()));
        assert(field::<String>(m, "name"@) == Ok::<Doc, Fault>(self.name.wire()));
        assert(optional_field::<PhotoSize>(m, "thumbnail"@)
            == Ok::<Doc, Fault>(self.thumbnail.wire()));
        assert(field::<bool>(m, "isInstalled"@) == Ok::<Doc, Fault>(self.is_installed.wire()));
        assert(field::<bool>(m, "isArchived"@) == Ok::<Doc, Fault>(self.is_archived.wire()));
        assert(field::<bool>(m, "isOfficial"@) == Ok::<Doc, Fault>(self.is_official.wire()));
        assert(field::<bool>(m, "isAnimated"@) == Ok::<Doc, Fault>(self.is_animated.wire()));
        assert(field::<bool>(m, "isMasks"@) == Ok::<Doc, Fault>(self.is_masks.wire()));
        assert(field::<bool>(m, "isViewed"@) == Ok::<Doc, Fault>(self.is_viewed.wire()));
        assert(field::<i32>(m, "size"@) == Ok::<Doc, Fault>(self.size.wire()));
        assert(field::<Vec<Sticker>>(m, "covers"@) == Ok::<Doc, Fault>(self.covers.wire()));
    }
}

impl Tagged for StickerSetInfo {
    open spec fn known(tag: Seq<char>) -> bool {
        tag == "stickerSetInfo"@
    }

    fn knows(tag: &str) -> (r: bool) {
        same_text(tag, "stickerSetInfo")
    }

    proof fn tag_known(&self) {
        reveal(<StickerSetInfo as Wire>::wire);
        assert(tag_of(self.wire()) == Some("stickerSetInfo"@));
        assert(Self::known("stickerSetInfo"@));
    }
}

/// Represents a list of sticker sets
#[derive(Debug, Clone, PartialEq)]
pub struct StickerSets {
    /// Approximate total number of sticker sets found
    pub total_count: i32,
    /// List of sticker sets
    pub sets: Vec<StickerSetInfo>,
}

impl Wire for StickerSets {
    #[verifier::opaque]
    open spec fn wire(&self) -> Doc {
        tagged(
            Map::empty()
                .insert("totalCount"@, self.total_count.wire())
                .insert("sets"@, self.sets.wire()),
            "stickerSets"@,
        )
    }

    #[verifier::opaque]
    open spec fn parse(d: Doc, at: Seq<char>) -> Result<Doc, Fault> {
        match d {
            Doc::Object(m) => {
                let total_count = field::<i32>(m, "totalCount"@);
                let sets = field::<Vec<StickerSetInfo>>(m, "sets"@);
                if total_count is Err {
                    total_count
                } else if sets is Err {
                    sets
                } else {
                    Ok(
                        tagged(
                            Map::empty()
                                .insert("totalCount"@, total_count->Ok_0)
                                .insert("sets"@, sets->Ok_0),
                            "stickerSets"@,
                        ),
                    )
                }
            },
            _ => Err(Fault::TypeMismatch(at)),
        }
    }

    fn encode(&self) -> (j: Json) {
        proof {
            reveal(<StickerSets as Wire>::wire);
        }
        let mut members: Vec<Member> = Vec::new();
        put(&mut members, "totalCount", self.total_count.encode());
        put(&mut members, "sets", self.sets.encode());
        seal(members, "stickerSets")
    }

    fn decode(j: &Json, at: &str) -> (r: Result<Self, DecodeError>) {
        proof {
            reveal(<StickerSets as Wire>::wire);
            reveal(<StickerSets as Wire>::parse);
        }
        let members = members_of(j, at)?;
        let total_count = read_field::<i32>(members, "totalCount")?;
        let sets = read_field::<Vec<StickerSetInfo>>(members, "sets")?;
        Ok(StickerSets { total_count, sets })
    }

    proof fn round_trip(&self, at: Seq<char>) {
        reveal(<StickerSets as Wire>::wire);
        reveal(<StickerSets as Wire>::parse);
        reveal_strlit("@type");
        reveal_strlit("sets");
        reveal_strlit("totalCount");
        assert("@type"@.len() == 5);
        assert("sets"@.len() == 4);
        assert("totalCount"@.len() == 10);
        self.total_count.round_trip("totalCount"@);
        self.sets.round_trip("sets"@);
    }
}

impl Tagged for StickerSets {
    open spec fn known(tag: Seq<char>) -> bool {
        tag == "stickerSets"@
    }

    fn knows(tag: &str) -> (r: bool) {
        same_text(tag, "stickerSets")
    }

    proof fn tag_known(&self) {
        reveal(<StickerSets as Wire>::wire);
        assert(tag_of(self.wire()) == Some("stickerSets"@));
        assert(Self::known("stickerSets"@));
    }
}

} // verus!
