//! Storage and network statistics, connection state, links and proxies.

use vstd::prelude::*;
use crate::codec::{
    discriminator, encode_wide, field, lemma_wide_round_trip, members_of, optional_field, put,
    read_field, read_optional, read_wide, seal, Tagged, Union, wide_doc, wide_field, Wire,
};
use crate::error::{DecodeError, Fault};
use crate::json::{Doc, Json, Member, Number, tag_of, tagged};
use crate::text::same_text;
use crate::types::{
    ChatInviteLinkInfo, FormattedText, InputFile, MaskPosition,
};

verus! {

/// The data is not a file
#[derive(Debug, Clone, PartialEq)]
pub struct FileTypeNone {}

impl Wire for FileTypeNone {
    #[verifier::opaque]
    open spec fn wire(&self) -> Doc {
        tagged(Map::empty(), "fileTypeNone"@)
    }

    #[verifier::opaque]
    open spec fn parse(d: Doc, at: Seq<char>) -> Result<Doc, Fault> {
        match d {
            Doc::Object(_) => Ok(tagged(Map::empty(), "fileTypeNone"@)),
            _ => Err(Fault::TypeMismatch(at)),
        }
    }

    fn encode(&self) -> (j: Json) {
        proof {
            reveal(<FileTypeNone as Wire>::wire);
        }
        seal(Vec::new(), "fileTypeNone")
    }

    fn decode(j: &Json, at: &str) -> (r: Result<Self, DecodeError>) {
        proof {
            reveal(<FileTypeNone as Wire>::wire);
            reveal(<FileTypeNone as Wire>::parse);
        }
        let _ = members_of(j, at)?;
        Ok(FileTypeNone {})
    }

    proof fn round_trip(&self, at: Seq<char>) {
        reveal(<FileTypeNone as Wire>::wire);
        reveal(<FileTypeNone as Wire>::parse);
    }
}

impl Tagged for FileTypeNone {
    open spec fn known(tag: Seq<char>) -> bool {
        tag == "fileTypeNone"@
    }

    fn knows(tag: &str) -> (r: bool) {
        same_text(tag, "fileTypeNone")
    }

    proof fn tag_known(&self) {
        reveal(<FileTypeNone as Wire>::wire);
        assert(tag_of(self.wire()) == Some("fileTypeNone"@));
        assert(Self::known("fileTypeNone"@));
    }
}

/// The file is an animation
#[derive(Debug, Clone, PartialEq)]
pub struct FileTypeAnimation {}

impl Wire for FileTypeAnimation {
    #[verifier::opaque]
    open spec fn wire(&self) -> Doc {
        tagged(Map::empty(), "fileTypeAnimation"@)
    }

    #[verifier::opaque]
    open spec fn parse(d: Doc, at: Seq<char>) -> Result<Doc, Fault> {
        match d {
            Doc::Object(_) => Ok(tagged(Map::empty(), "fileTypeAnimation"@)),
            _ => Err(Fault::TypeMismatch(at)),
        }
    }

    fn encode(&self) -> (j: Json) {
        proof {
            reveal(<FileTypeAnimation as Wire>::wire);
        }
        seal(Vec::new(), "fileTypeAnimation")
    }

    fn decode(j: &Json, at: &str) -> (r: Result<Self, DecodeError>) {
        proof {
            reveal(<FileTypeAnimation as Wire>::wire);
            reveal(<FileTypeAnimation as Wire>::parse);
        }
        let _ = members_of(j, at)?;
        Ok(FileTypeAnimation {})
    }

    proof fn round_trip(&self, at: Seq<char>) {
        reveal(<FileTypeAnimation as Wire>::wire);
        reveal(<FileTypeAnimation as Wire>::parse);
    }
}

impl Tagged for FileTypeAnimation {
    open spec fn known(tag: Seq<char>) -> bool {
        tag == "fileTypeAnimation"@
    }

    fn knows(tag: &str) -> (r: bool) {
        same_text(tag, "fileTypeAnimation")
    }

    proof fn tag_known(&self) {
        reveal(<FileTypeAnimation as Wire>::wire);
        assert(tag_of(self.wire()) == Some("fileTypeAnimation"@));
        assert(Self::known("fileTypeAnimation"@));
    }
}

/// The file is an audio file
#[derive(Debug, Clone, PartialEq)]
pub struct FileTypeAudio {}

impl Wire for FileTypeAudio {
    #[verifier::opaque]
    open spec fn wire(&self) -> Doc {
        tagged(Map::empty(), "fileTypeAudio"@)
    }

    #[verifier::opaque]
    open spec fn parse(d: Doc, at: Seq<char>) -> Result<Doc, Fault> {
        match d {
            Doc::Object(_) => Ok(tagged(Map::empty(), "fileTypeAudio"@)),
            _ => Err(Fault::TypeMismatch(at)),
        }
    }

    fn encode(&self) -> (j: Json) {
        proof {
            reveal(<FileTypeAudio as Wire>::wire);
        }
        seal(Vec::new(), "fileTypeAudio")
    }

    fn decode(j: &Json, at: &str) -> (r: Result<Self, DecodeError>) {
        proof {
            reveal(<FileTypeAudio as Wire>::wire);
            reveal(<FileTypeAudio as Wire>::parse);
        }
        let _ = members_of(j, at)?;
        Ok(FileTypeAudio {})
    }

    proof fn round_trip(&self, at: Seq<char>) {
        reveal(<FileTypeAudio as Wire>::wire);
        reveal(<FileTypeAudio as Wire>::parse);
    }
}

impl Tagged for FileTypeAudio {
    open spec fn known(tag: Seq<char>) -> bool {
        tag == "fileTypeAudio"@
    }

    fn knows(tag: &str) -> (r: bool) {
        same_text(tag, "fileTypeAudio")
    }

    proof fn tag_known(&self) {
        reveal(<FileTypeAudio as Wire>::wire);
        assert(tag_of(self.wire()) == Some("fileTypeAudio"@));
        assert(Self::known("fileTypeAudio"@));
    }
}

/// The file is a document
#[derive(Debug, Clone, PartialEq)]
pub struct FileTypeDocument {}

impl Wire for FileTypeDocument {
    #[verifier::opaque]
    open spec fn wire(&self) -> Doc {
        tagged(Map::empty(), "fileTypeDocument"@)
    }

    #[verifier::opaque]
    open spec fn parse(d: Doc, at: Seq<char>) -> Result<Doc, Fault> {
        match d {
            Doc::Object(_) => Ok(tagged(Map::empty(), "fileTypeDocument"@)),
            _ => Err(Fault::TypeMismatch(at)),
        }
    }

    fn encode(&self) -> (j: Json) {
        proof {
            reveal(<FileTypeDocument as Wire>::wire);
        }
        seal(Vec::new(), "fileTypeDocument")
    }

    fn decode(j: &Json, at: &str) -> (r: Result<Self, DecodeError>) {
        proof {
            reveal(<FileTypeDocument as Wire>::wire);
            reveal(<FileTypeDocument as Wire>::parse);
        }
        let _ = members_of(j, at)?;
        Ok(FileTypeDocument {})
    }

    proof fn round_trip(&self, at: Seq<char>) {
        reveal(<FileTypeDocument as Wire>::wire);
        reveal(<FileTypeDocument as Wire>::parse);
    }
}

impl Tagged for FileTypeDocument {
    open spec fn known(tag: Seq<char>) -> bool {
        tag == "fileTypeDocument"@
    }

    fn knows(tag: &str) -> (r: bool) {
        same_text(tag, "fileTypeDocument")
    }

    proof fn tag_known(&self) {
        reveal(<FileTypeDocument as Wire>::wire);
        assert(tag_of(self.wire()) == Some("fileTypeDocument"@));
        assert(Self::known("fileTypeDocument"@));
    }
}

/// The file is a photo
#[derive(Debug, Clone, PartialEq)]
pub struct FileTypePhoto {}

impl Wire for FileTypePhoto {
    #[verifier::opaque]
    open spec fn wire(&self) -> Doc {
        tagged(Map::empty(), "fileTypePhoto"@)
    }

    #[verifier::opaque]
    open spec fn parse(d: Doc, at: Seq<char>) -> Result<Doc, Fault> {
        match d {
            Doc::Object(_) => Ok(tagged(Map::empty(), "fileTypePhoto"@)),
            _ => Err(Fault::TypeMismatch(at)),
        }
    }

    fn encode(&self) -> (j: Json) {
        proof {
            reveal(<FileTypePhoto as Wire>::wire);
        }
        seal(Vec::new(), "fileTypePhoto")
    }

    fn decode(j: &Json, at: &str) -> (r: Result<Self, DecodeError>) {
        proof {
            reveal(<FileTypePhoto as Wire>::wire);
            reveal(<FileTypePhoto as Wire>::parse);
        }
        let _ = members_of(j, at)?;
        Ok(FileTypePhoto {})
    }

    proof fn round_trip(&self, at: Seq<char>) {
        reveal(<FileTypePhoto as Wire>::wire);
        reveal(<FileTypePhoto as Wire>::parse);
    }
}

impl Tagged for FileTypePhoto {
    open spec fn known(tag: Seq<char>) -> bool {
        tag == "fileTypePhoto"@
    }

    fn knows(tag: &str) -> (r: bool) {
        same_text(tag, "fileTypePhoto")
    }

    proof fn tag_known(&self) {
        reveal(<FileTypePhoto as Wire>::wire);
        assert(tag_of(self.wire()) == Some("fileTypePhoto"@));
        assert(Self::known("fileTypePhoto"@));
    }
}

/// The file is a profile photo
#[derive(Debug, Clone, PartialEq)]
pub struct FileTypeProfilePhoto {}

impl Wire for FileTypeProfilePhoto {
    #[verifier::opaque]
    open spec fn wire(&self) -> Doc {
        tagged(Map::empty(), "fileTypeProfilePhoto"@)
    }

    #[verifier::opaque]
    open spec fn parse(d: Doc, at: Seq<char>) -> Result<Doc, Fault> {
        match d {
            Doc::Object(_) => Ok(tagged(Map::empty(), "fileTypeProfilePhoto"@)),
            _ => Err(Fault::TypeMismatch(at)),
        }
    }

    fn encode(&self) -> (j: Json) {
        proof {
            reveal(<FileTypeProfilePhoto as Wire>::wire);
        }
        seal(Vec::new(), "fileTypeProfilePhoto")
    }

    fn decode(j: &Json, at: &str) -> (r: Result<Self, DecodeError>) {
        proof {
            reveal(<FileTypeProfilePhoto as Wire>::wire);
            reveal(<FileTypeProfilePhoto as Wire>::parse);
        }
        let _ = members_of(j, at)?;
        Ok(FileTypeProfilePhoto {})
    }

    proof fn round_trip(&self, at: Seq<char>) {
        reveal(<FileTypeProfilePhoto as Wire>::wire);
        reveal(<FileTypeProfilePhoto as Wire>::parse);
    }
}

impl Tagged for FileTypeProfilePhoto {
    open spec fn known(tag: Seq<char>) -> bool {
        tag == "fileTypeProfilePhoto"@
    }

    fn knows(tag: &str) -> (r: bool) {
        same_text(tag, "fileTypeProfilePhoto")
    }

    proof fn tag_known(&self) {
        reveal(<FileTypeProfilePhoto as Wire>::wire);
        assert(tag_of(self.wire()) == Some("fileTypeProfilePhoto"@));
        assert(Self::known("fileTypeProfilePhoto"@));
    }
}

/// The file was sent to a secret chat (the file type is not known to the server)
#[derive(Debug, Clone, PartialEq)]
pub struct FileTypeSecret {}

impl Wire for FileTypeSecret {
    #[verifier::opaque]
    open spec fn wire(&self) -> Doc {
        tagged(Map::empty(), "fileTypeSecret"@)
    }

    #[verifier::opaque]
    open spec fn parse(d: Doc, at: Seq<char>) -> Result<Doc, Fault> {
        match d {
            Doc::Object(_) => Ok(tagged(Map::empty(), "fileTypeSecret"@)),
            _ => Err(Fault::TypeMismatch(at)),
        }
    }

    fn encode(&self) -> (j: Json) {
        proof {
            reveal(<FileTypeSecret as Wire>::wire);
        }
        seal(Vec::new(), "fileTypeSecret")
    }

    fn decode(j: &Json, at: &str) -> (r: Result<Self, DecodeError>) {
        proof {
            reveal(<FileTypeSecret as Wire>::wire);
            reveal(<FileTypeSecret as Wire>::parse);
        }
        let _ = members_of(j, at)?;
        Ok(FileTypeSecret {})
    }

    proof fn round_trip(&self, at: Seq<char>) {
        reveal(<FileTypeSecret as Wire>::wire);
        reveal(<FileTypeSecret as Wire>::parse);
    }
}

impl Tagged for FileTypeSecret {
    open spec fn known(tag: Seq<char>) -> bool {
        tag == "fileTypeSecret"@
    }

    fn knows(tag: &str) -> (r: bool) {
        same_text(tag, "fileTypeSecret")
    }

    proof fn tag_known(&self) {
        reveal(<FileTypeSecret as Wire>::wire);
        assert(tag_of(self.wire()) == Some("fileTypeSecret"@));
        assert(Self::known("fileTypeSecret"@));
    }
}

/// The file is a thumbnail of a file from a secret chat
#[derive(Debug, Clone, PartialEq)]
pub struct FileTypeSecretThumbnail {}

impl Wire for FileTypeSecretThumbnail {
    #[verifier::opaque]
    open spec fn wire(&self) -> Doc {
        tagged(Map::empty(), "fileTypeSecretThumbnail"@)
    }

    #[verifier::opaque]
    open spec fn parse(d: Doc, at: Seq<char>) -> Result<Doc, Fault> {
        match d {
            Doc::Object(_) => Ok(tagged(Map::empty(), "fileTypeSecretThumbnail"@)),
            _ => Err(Fault::TypeMismatch(at)),
        }
    }

    fn encode(&self) -> (j: Json) {
        proof {
            reveal(<FileTypeSecretThumbnail as Wire>::wire);
        }
        seal(Vec::new(), "fileTypeSecretThumbnail")
    }

    fn decode(j: &Json, at: &str) -> (r: Result<Self, DecodeError>) {
        proof {
            reveal(<FileTypeSecretThumbnail as Wire>::wire);
            reveal(<FileTypeSecretThumbnail as Wire>::parse);
        }
        let _ = members_of(j, at)?;
        Ok(FileTypeSecretThumbnail {})
    }

    proof fn round_trip(&self, at: Seq<char>) {
        reveal(<FileTypeSecretThumbnail as Wire>::wire);
        reveal(<FileTypeSecretThumbnail as Wire>::parse);
    }
}

impl Tagged for FileTypeSecretThumbnail {
    open spec fn known(tag: Seq<char>) -> bool {
        tag == "fileTypeSecretThumbnail"@
    }

    fn knows(tag: &str) -> (r: bool) {
        same_text(tag, "fileTypeSecretThumbnail")
    }

    proof fn tag_known(&self) {
        reveal(<FileTypeSecretThumbnail as Wire>::wire);
        assert(tag_of(self.wire()) == Some("fileTypeSecretThumbnail"@));
        assert(Self::known("fileTypeSecretThumbnail"@));
    }
}

/// The file is a file from Secure storage used for storing Telegram Passport files
#[derive(Debug, Clone, PartialEq)]
pub struct FileTypeSecure {}

impl Wire for FileTypeSecure {
    #[verifier::opaque]
    open spec fn wire(&self) -> Doc {
        tagged(Map::empty(), "fileTypeSecure"@)
    }

    #[verifier::opaque]
    open spec fn parse(d: Doc, at: Seq<char>) -> Result<Doc, Fault> {
        match d {
            Doc::Object(_) => Ok(tagged(Map::empty(), "fileTypeSecure"@)),
            _ => Err(Fault::TypeMismatch(at)),
        }
    }

    fn encode(&self) -> (j: Json) {
        proof {
            reveal(<FileTypeSecure as Wire>::wire);
        }
        seal(Vec::new(), "fileTypeSecure")
    }

    fn decode(j: &Json, at: &str) -> (r: Result<Self, DecodeError>) {
        proof {
            reveal(<FileTypeSecure as Wire>::wire);
            reveal(<FileTypeSecure as Wire>::parse);
        }
        let _ = members_of(j, at)?;
        Ok(FileTypeSecure {})
    }

    proof fn round_trip(&self, at: Seq<char>) {
        reveal(<FileTypeSecure as Wire>::wire);
        reveal(<FileTypeSecure as Wire>::parse);
    }
}

impl Tagged for FileTypeSecure {
    open spec fn known(tag: Seq<char>) -> bool {
        tag == "fileTypeSecure"@
    }

    fn knows(tag: &str) -> (r: bool) {
        same_text(tag, "fileTypeSecure")
    }

    proof fn tag_known(&self) {
        reveal(<FileTypeSecure as Wire>::wire);
        assert(tag_of(self.wire()) == Some("fileTypeSecure"@));
        assert(Self::known("fileTypeSecure"@));
    }
}

/// The file is a sticker
#[derive(Debug, Clone, PartialEq)]
pub struct FileTypeSticker {}

impl Wire for FileTypeSticker {
    #[verifier::opaque]
    open spec fn wire(&self) -> Doc {
        tagged(Map::empty(), "fileTypeSticker"@)
    }

    #[verifier::opaque]
    open spec fn parse(d: Doc, at: Seq<char>) -> Result<Doc, Fault> {
        match d {
            Doc::Object(_) => Ok(tagged(Map::empty(), "fileTypeSticker"@)),
            _ => Err(Fault::TypeMismatch(at)),
        }
    }

    fn encode(&self) -> (j: Json) {
        proof {
            reveal(<FileTypeSticker as Wire>::wire);
        }
        seal(Vec::new(), "fileTypeSticker")
    }

    fn decode(j: &Json, at: &str) -> (r: Result<Self, DecodeError>) {
        proof {
            reveal(<FileTypeSticker as Wire>::wire);
            reveal(<FileTypeSticker as Wire>::parse);
        }
        let _ = members_of(j, at)?;
        Ok(FileTypeSticker {})
    }

    proof fn round_trip(&self, at: Seq<char>) {
        reveal(<FileTypeSticker as Wire>::wire);
        reveal(<FileTypeSticker as Wire>::parse);
    }
}

impl Tagged for FileTypeSticker {
    open spec fn known(tag: Seq<char>) -> bool {
        tag == "fileTypeSticker"@
    }

    fn knows(tag: &str) -> (r: bool) {
        same_text(tag, "fileTypeSticker")
    }

    proof fn tag_known(&self) {
        reveal(<FileTypeSticker as Wire>::wire);
        assert(tag_of(self.wire()) == Some("fileTypeSticker"@));
        assert(Self::known("fileTypeSticker"@));
    }
}

/// The file is a thumbnail of another file
#[derive(Debug, Clone, PartialEq)]
pub struct FileTypeThumbnail {}

impl Wire for FileTypeThumbnail {
    #[verifier::opaque]
    open spec fn wire(&self) -> Doc {
        tagged(Map::empty(), "fileTypeThumbnail"@)
    }

    #[verifier::opaque]
    open spec fn parse(d: Doc, at: Seq<char>) -> Result<Doc, Fault> {
        match d {
            Doc::Object(_) => Ok(tagged(Map::empty(), "fileTypeThumbnail"@)),
            _ => Err(Fault::TypeMismatch(at)),
        }
    }

    fn encode(&self) -> (j: Json) {
        proof {
            reveal(<FileTypeThumbnail as Wire>::wire);
        }
        seal(Vec::new(), "fileTypeThumbnail")
    }

    fn decode(j: &Json, at: &str) -> (r: Result<Self, DecodeError>) {
        proof {
            reveal(<FileTypeThumbnail as Wire>::wire);
            reveal(<FileTypeThumbnail as Wire>::parse);
        }
        let _ = members_of(j, at)?;
        Ok(FileTypeThumbnail {})
    }

    proof fn round_trip(&self, at: Seq<char>) {
        reveal(<FileTypeThumbnail as Wire>::wire);
        reveal(<FileTypeThumbnail as Wire>::parse);
    }
}

impl Tagged for FileTypeThumbnail {
    open spec fn known(tag: Seq<char>) -> bool {
        tag == "fileTypeThumbnail"@
    }

    fn knows(tag: &str) -> (r: bool) {
        same_text(tag, "fileTypeThumbnail")
    }

    proof fn tag_known(&self) {
        reveal(<FileTypeThumbnail as Wire>::wire);
        assert(tag_of(self.wire()) == Some("fileTypeThumbnail"@));
        assert(Self::known("fileTypeThumbnail"@));
    }
}

/// The file type is not yet known
#[derive(Debug, Clone, PartialEq)]
pub struct FileTypeUnknown {}

impl Wire for FileTypeUnknown {
    #[verifier::opaque]
    open spec fn wire(&self) -> Doc {
        tagged(Map::empty(), "fileTypeUnknown"@)
    }

    #[verifier::opaque]
    open spec fn parse(d: Doc, at: Seq<char>) -> Result<Doc, Fault> {
        match d {
            Doc::Object(_) => Ok(tagged(Map::empty(), "fileTypeUnknown"@)),
            _ => Err(Fault::TypeMismatch(at)),
        }
    }

    fn encode(&self) -> (j: Json) {
        proof {
            reveal(<FileTypeUnknown as Wire>::wire);
        }
        seal(Vec::new(), "fileTypeUnknown")
    }

    fn decode(j: &Json, at: &str) -> (r: Result<Self, DecodeError>) {
        proof {
            reveal(<FileTypeUnknown as Wire>::wire);
            reveal(<FileTypeUnknown as Wire>::parse);
        }
        let _ = members_of(j, at)?;
        Ok(FileTypeUnknown {})
    }

    proof fn round_trip(&self, at: Seq<char>) {
        reveal(<FileTypeUnknown as Wire>::wire);
        reveal(<FileTypeUnknown as Wire>::parse);
    }
}

impl Tagged for FileTypeUnknown {
    open spec fn known(tag: Seq<char>) -> bool {
        tag == "fileTypeUnknown"@
    }

    fn knows(tag: &str) -> (r: bool) {
        same_text(tag, "fileTypeUnknown")
    }

    proof fn tag_known(&self) {
        reveal(<FileTypeUnknown as Wire>::wire);
        assert(tag_of(self.wire()) == Some("fileTypeUnknown"@));
        assert(Self::known("fileTypeUnknown"@));
    }
}

/// The file is a video
#[derive(Debug, Clone, PartialEq)]
pub struct FileTypeVideo {}

impl Wire for FileTypeVideo {
    #[verifier::opaque]
    open spec fn wire(&self) -> Doc {
        tagged(Map::empty(), "fileTypeVideo"@)
    }

    #[verifier::opaque]
    open spec fn parse(d: Doc, at: Seq<char>) -> Result<Doc, Fault> {
        match d {
            Doc::Object(_) => Ok(tagged(Map::empty(), "fileTypeVideo"@)),
            _ => Err(Fault::TypeMismatch(at)),
        }
    }

    fn encode(&self) -> (j: Json) {
        proof {
            reveal(<FileTypeVideo as Wire>::wire);
        }
        seal(Vec::new(), "fileTypeVideo")
    }

    fn decode(j: &Json, at: &str) -> (r: Result<Self, DecodeError>) {
        proof {
            reveal(<FileTypeVideo as Wire>::wire);
            reveal(<FileTypeVideo as Wire>::parse);
        }
        let _ = members_of(j, at)?;
        Ok(FileTypeVideo {})
    }

    proof fn round_trip(&self, at: Seq<char>) {
        reveal(<FileTypeVideo as Wire>::wire);
        reveal(<FileTypeVideo as Wire>::parse);
    }
}

impl Tagged for FileTypeVideo {
    open spec fn known(tag: Seq<char>) -> bool {
        tag == "fileTypeVideo"@
    }

    fn knows(tag: &str) -> (r: bool) {
        same_text(tag, "fileTypeVideo")
    }

    proof fn tag_known(&self) {
        reveal(<FileTypeVideo as Wire>::wire);
        assert(tag_of(self.wire()) == Some("fileTypeVideo"@));
        assert(Self::known("fileTypeVideo"@));
    }
}

/// The file is a video note
#[derive(Debug, Clone, PartialEq)]
pub struct FileTypeVideoNote {}

impl Wire for FileTypeVideoNote {
    #[verifier::opaque]
    open spec fn wire(&self) -> Doc {
        tagged(Map::empty(), "fileTypeVideoNote"@)
    }

    #[verifier::opaque]
    open spec fn parse(d: Doc, at: Seq<char>) -> Result<Doc, Fault> {
        match d {
            Doc::Object(_) => Ok(tagged(Map::empty(), "fileTypeVideoNote"@)),
            _ => Err(Fault::TypeMismatch(at)),
        }
    }

    fn encode(&self) -> (j: Json) {
        proof {
            reveal(<FileTypeVideoNote as Wire>::wire);
        }
        seal(Vec::new(), "fileTypeVideoNote")
    }

    fn decode(j: &Json, at: &str) -> (r: Result<Self, DecodeError>) {
        proof {
            reveal(<FileTypeVideoNote as Wire>::wire);
            reveal(<FileTypeVideoNote as Wire>::parse);
        }
        let _ = members_of(j, at)?;
        Ok(FileTypeVideoNote {})
    }

    proof fn round_trip(&self, at: Seq<char>) {
        reveal(<FileTypeVideoNote as Wire>::wire);
        reveal(<FileTypeVideoNote as Wire>::parse);
    }
}

impl Tagged for FileTypeVideoNote {
    open spec fn known(tag: Seq<char>) -> bool {
        tag == "fileTypeVideoNote"@
    }

    fn knows(tag: &str) -> (r: bool) {
        same_text(tag, "fileTypeVideoNote")
    }

    proof fn tag_known(&self) {
        reveal(<FileTypeVideoNote as Wire>::wire);
        assert(tag_of(self.wire()) == Some("fileTypeVideoNote"@));
        assert(Self::known("fileTypeVideoNote"@));
    }
}

/// The file is a voice note
#[derive(Debug, Clone, PartialEq)]
pub struct FileTypeVoiceNote {}

impl Wire for FileTypeVoiceNote {
    #[verifier::opaque]
    open spec fn wire(&self) -> Doc {
        tagged(Map::empty(), "fileTypeVoiceNote"@)
    }

    #[verifier::opaque]
    open spec fn parse(d: Doc, at: Seq<char>) -> Result<Doc, Fault> {
        match d {
            Doc::Object(_) => Ok(tagged(Map::empty(), "fileTypeVoiceNote"@)),
            _ => Err(Fault::TypeMismatch(at)),
        }
    }

    fn encode(&self) -> (j: Json) {
        proof {
            reveal(<FileTypeVoiceNote as Wire>::wire);
        }
        seal(Vec::new(), "fileTypeVoiceNote")
    }

    fn decode(j: &Json, at: &str) -> (r: Result<Self, DecodeError>) {
        proof {
            reveal(<FileTypeVoiceNote as Wire>::wire);
            reveal(<FileTypeVoiceNote as Wire>::parse);
        }
        let _ = members_of(j, at)?;
        Ok(FileTypeVoiceNote {})
    }

    proof fn round_trip(&self, at: Seq<char>) {
        reveal(<FileTypeVoiceNote as Wire>::wire);
        reveal(<FileTypeVoiceNote as Wire>::parse);
    }
}

impl Tagged for FileTypeVoiceNote {
    open spec fn known(tag: Seq<char>) -> bool {
        tag == "fileTypeVoiceNote"@
    }

    fn knows(tag: &str) -> (r: bool) {
        same_text(tag, "fileTypeVoiceNote")
    }

    proof fn tag_known(&self) {
        reveal(<FileTypeVoiceNote as Wire>::wire);
        assert(tag_of(self.wire()) == Some("fileTypeVoiceNote"@));
        assert(Self::known("fileTypeVoiceNote"@));
    }
}

/// The file is a wallpaper or a background pattern
#[derive(Debug, Clone, PartialEq)]
pub struct FileTypeWallpaper {}

impl Wire for FileTypeWallpaper {
    #[verifier::opaque]
    open spec fn wire(&self) -> Doc {
        tagged(Map::empty(), "fileTypeWallpaper"@)
    }

    #[verifier::opaque]
    open spec fn parse(d: Doc, at: Seq<char>) -> Result<Doc, Fault> {
        match d {
            Doc::Object(_) => Ok(tagged(Map::empty(), "fileTypeWallpaper"@)),
            _ => Err(Fault::TypeMismatch(at)),
        }
    }

    fn encode(&self) -> (j: Json) {
        proof {
            reveal(<FileTypeWallpaper as Wire>::wire);
        }
        seal(Vec::new(), "fileTypeWallpaper")
    }

    fn decode(j: &Json, at: &str) -> (r: Result<Self, DecodeError>) {
        proof {
            reveal(<FileTypeWallpaper as Wire>::wire);
            reveal(<FileTypeWallpaper as Wire>::parse);
        }
        let _ = members_of(j, at)?;
        Ok(FileTypeWallpaper {})
    }

    proof fn round_trip(&self, at: Seq<char>) {
        reveal(<FileTypeWallpaper as Wire>::wire);
        reveal(<FileTypeWallpaper as Wire>::parse);
    }
}

impl Tagged for FileTypeWallpaper {
    open spec fn known(tag: Seq<char>) -> bool {
        tag == "fileTypeWallpaper"@
    }

    fn knows(tag: &str) -> (r: bool) {
        same_text(tag, "fileTypeWallpaper")
    }

    proof fn tag_known(&self) {
        reveal(<FileTypeWallpaper as Wire>::wire);
        assert(tag_of(self.wire()) == Some("fileTypeWallpaper"@));
        assert(Self::known("fileTypeWallpaper"@));
    }
}

/// Represents the type of a file
#[derive(Debug, Clone, PartialEq)]
pub enum FileType {
    FileTypeNone(FileTypeNone),
    FileTypeAnimation(FileTypeAnimation),
    FileTypeAudio(FileTypeAudio),
    FileTypeDocument(FileTypeDocument),
    FileTypePhoto(FileTypePhoto),
    FileTypeProfilePhoto(FileTypeProfilePhoto),
    FileTypeSecret(FileTypeSecret),
    FileTypeSecretThumbnail(FileTypeSecretThumbnail),
    FileTypeSecure(FileTypeSecure),
    FileTypeSticker(FileTypeSticker),
    FileTypeThumbnail(FileTypeThumbnail),
    FileTypeUnknown(FileTypeUnknown),
    FileTypeVideo(FileTypeVideo),
    FileTypeVideoNote(FileTypeVideoNote),
    FileTypeVoiceNote(FileTypeVoiceNote),
    FileTypeWallpaper(FileTypeWallpaper),
}

impl Wire for FileType {
    #[verifier::opaque]
    open spec fn wire(&self) -> Doc {
        match self {
            Self::FileTypeNone(p) => p.wire(),
            Self::FileTypeAnimation(p) => p.wire(),
            Self::FileTypeAudio(p) => p.wire(),
            Self::FileTypeDocument(p) => p.wire(),
            Self::FileTypePhoto(p) => p.wire(),
            Self::FileTypeProfilePhoto(p) => p.wire(),
            Self::FileTypeSecret(p) => p.wire(),
            Self::FileTypeSecretThumbnail(p) => p.wire(),
            Self::FileTypeSecure(p) => p.wire(),
            Self::FileTypeSticker(p) => p.wire(),
            Self::FileTypeThumbnail(p) => p.wire(),
            Self::FileTypeUnknown(p) => p.wire(),
            Self::FileTypeVideo(p) => p.wire(),
            Self::FileTypeVideoNote(p) => p.wire(),
            Self::FileTypeVoiceNote(p) => p.wire(),
            Self::FileTypeWallpaper(p) => p.wire(),
        }
    }

    #[verifier::opaque]
    open spec fn parse(d: Doc, at: Seq<char>) -> Result<Doc, Fault> {
        match d {
            Doc::Object(_) => match tag_of(d) {
                Some(t) => if t == "fileTypeNone"@ {
                    FileTypeNone::parse(d, at)
                } else if t == "fileTypeAnimation"@ {
                    FileTypeAnimation::parse(d, at)
                } else if t == "fileTypeAudio"@ {
                    FileTypeAudio::parse(d, at)
                } else if t == "fileTypeDocument"@ {
                    FileTypeDocument::parse(d, at)
                } else if t == "fileTypePhoto"@ {
                    FileTypePhoto::parse(d, at)
                } else if t == "fileTypeProfilePhoto"@ {
                    FileTypeProfilePhoto::parse(d, at)
                } else if t == "fileTypeSecret"@ {
                    FileTypeSecret::parse(d, at)
                } else if t == "fileTypeSecretThumbnail"@ {
                    FileTypeSecretThumbnail::parse(d, at)
                } else if t == "fileTypeSecure"@ {
                    FileTypeSecure::parse(d, at)
                } else if t == "fileTypeSticker"@ {
                    FileTypeSticker::parse(d, at)
                } else if t == "fileTypeThumbnail"@ {
                    FileTypeThumbnail::parse(d, at)
                } else if t == "fileTypeUnknown"@ {
                    FileTypeUnknown::parse(d, at)
                } else if t == "fileTypeVideo"@ {
                    FileTypeVideo::parse(d, at)
                } else if t == "fileTypeVideoNote"@ {
                    FileTypeVideoNote::parse(d, at)
                } else if t == "fileTypeVoiceNote"@ {
                    FileTypeVoiceNote::parse(d, at)
                } else if t == "fileTypeWallpaper"@ {
                    FileTypeWallpaper::parse(d, at)
                } else {
                    Err(Fault::UnknownVariant(t))
                },
                None => Err(Fault::MissingDiscriminator),
            },
            _ => Err(Fault::TypeMismatch(at)),
        }
    }

    fn encode(&self) -> (j: Json) {
        proof {
            reveal(<FileType as Wire>::wire);
        }
        match self {
            Self::FileTypeNone(p) => p.encode(),
            Self::FileTypeAnimation(p) => p.encode(),
            Self::FileTypeAudio(p) => p.encode(),
            Self::FileTypeDocument(p) => p.encode(),
            Self::FileTypePhoto(p) => p.encode(),
            Self::FileTypeProfilePhoto(p) => p.encode(),
            Self::FileTypeSecret(p) => p.encode(),
            Self::FileTypeSecretThumbnail(p) => p.encode(),
            Self::FileTypeSecure(p) => p.encode(),
            Self::FileTypeSticker(p) => p.encode(),
            Self::FileTypeThumbnail(p) => p.encode(),
            Self::FileTypeUnknown(p) => p.encode(),
            Self::FileTypeVideo(p) => p.encode(),
            Self::FileTypeVideoNote(p) => p.encode(),
            Self::FileTypeVoiceNote(p) => p.encode(),
            Self::FileTypeWallpaper(p) => p.encode(),
        }
    }

    fn decode(j: &Json, at: &str) -> (r: Result<Self, DecodeError>) {
        proof {
            reveal(<FileType as Wire>::wire);
            reveal(<FileType as Wire>::parse);
        }
        let members = members_of(j, at)?;
        let tag = discriminator(members)?;
        if same_text(tag, "fileTypeNone") {
            Ok(Self::FileTypeNone(FileTypeNone::decode(j, at)?))
        } else if same_text(tag, "fileTypeAnimation") {
            Ok(Self::FileTypeAnimation(FileTypeAnimation::decode(j, at)?))
        } else if same_text(tag, "fileTypeAudio") {
            Ok(Self::FileTypeAudio(FileTypeAudio::decode(j, at)?))
        } else if same_text(tag, "fileTypeDocument") {
            Ok(Self::FileTypeDocument(FileTypeDocument::decode(j, at)?))
        } else if same_text(tag, "fileTypePhoto") {
            Ok(Self::FileTypePhoto(FileTypePhoto::decode(j, at)?))
        } else if same_text(tag, "fileTypeProfilePhoto") {
            Ok(Self::FileTypeProfilePhoto(FileTypeProfilePhoto::decode(j, at)?))
        } else if same_text(tag, "fileTypeSecret") {
            Ok(Self::FileTypeSecret(FileTypeSecret::decode(j, at)?))
        } else if same_text(tag, "fileTypeSecretThumbnail") {
            Ok(Self::FileTypeSecretThumbnail(FileTypeSecretThumbnail::decode(j, at)?))
        } else if same_text(tag, "fileTypeSecure") {
            Ok(Self::FileTypeSecure(FileTypeSecure::decode(j, at)?))
        } else if same_text(tag, "fileTypeSticker") {
            Ok(Self::FileTypeSticker(FileTypeSticker::decode(j, at)?))
        } else if same_text(tag, "fileTypeThumbnail") {
            Ok(Self::FileTypeThumbnail(FileTypeThumbnail::decode(j, at)?))
        } else if same_text(tag, "fileTypeUnknown") {
            Ok(Self::FileTypeUnknown(FileTypeUnknown::decode(j, at)?))
        } else if same_text(tag, "fileTypeVideo") {
            Ok(Self::FileTypeVideo(FileTypeVideo::decode(j, at)?))
        } else if same_text(tag, "fileTypeVideoNote") {
            Ok(Self::FileTypeVideoNote(FileTypeVideoNote::decode(j, at)?))
        } else if same_text(tag, "fileTypeVoiceNote") {
            Ok(Self::FileTypeVoiceNote(FileTypeVoiceNote::decode(j, at)?))
        } else if same_text(tag, "fileTypeWallpaper") {
            Ok(Self::FileTypeWallpaper(FileTypeWallpaper::decode(j, at)?))
        } else {
            Err(DecodeError::UnknownVariant(tag.to_owned()))
        }
    }

    proof fn round_trip(&self, at: Seq<char>) {
        reveal(<FileType as Wire>::wire);
        reveal(<FileType as Wire>::parse);
        reveal_strlit("fileTypeAnimation");
        reveal_strlit("fileTypeAudio");
        reveal_strlit("fileTypeDocument");
        reveal_strlit("fileTypeNone");
        reveal_strlit("fileTypePhoto");
        reveal_strlit("fileTypeProfilePhoto");
        reveal_strlit("fileTypeSecret");
        reveal_strlit("fileTypeSecretThumbnail");
        reveal_strlit("fileTypeSecure");
        reveal_strlit("fileTypeSticker");
        reveal_strlit("fileTypeThumbnail");
        reveal_strlit("fileTypeUnknown");
        reveal_strlit("fileTypeVideo");
        reveal_strlit("fileTypeVideoNote");
        reveal_strlit("fileTypeVoiceNote");
        reveal_strlit("fileTypeWallpaper");
        assert("fileTypeAnimation"@.len() == 17 && "fileTypeAnimation"@[9] == 'n');
        assert("fileTypeAudio"@.len() == 13 && "fileTypeAudio"@[8] == 'A');
        assert("fileTypeDocument"@.len() == 16);
        assert("fileTypeNone"@.len() == 12);
        assert("fileTypePhoto"@.len() == 13 && "fileTypePhoto"@[8] == 'P');
        assert("fileTypeProfilePhoto"@.len() == 20);
        assert("fileTypeSecret"@.len() == 14 && "fileTypeSecret"@[11] == 'r');
        assert("fileTypeSecretThumbnail"@.len() == 23);
        assert("fileTypeSecure"@.len() == 14 && "fileTypeSecure"@[11] == 'u');
        assert("fileTypeSticker"@.len() == 15 && "fileTypeSticker"@[8] == 'S');
        assert("fileTypeThumbnail"@.len() == 17 && "fileTypeThumbnail"@[9] == 'h');
        assert("fileTypeUnknown"@.len() == 15 && "fileTypeUnknown"@[8] == 'U');
        assert("fileTypeVideo"@.len() == 13 && "fileTypeVideo"@[8] == 'V');
        assert("fileTypeVideoNote"@.len() == 17 && "fileTypeVideoNote"@[9] == 'i');
        assert("fileTypeVoiceNote"@.len() == 17 && "fileTypeVoiceNote"@[9] == 'o');
        assert("fileTypeWallpaper"@.len() == 17 && "fileTypeWallpaper"@[9] == 'a');
        match self {
            Self::FileTypeNone(p) => {
                p.tag_known();
                p.round_trip(at);
            },
            Self::FileTypeAnimation(p) => {
                p.tag_known();
                p.round_trip(at);
            },
            Self::FileTypeAudio(p) => {
                p.tag_known();
                p.round_trip(at);
            },
            Self::FileTypeDocument(p) => {
                p.tag_known();
                p.round_trip(at);
            },
            Self::FileTypePhoto(p) => {
                p.tag_known();
                p.round_trip(at);
            },
            Self::FileTypeProfilePhoto(p) => {
                p.tag_known();
                p.round_trip(at);
            },
            Self::FileTypeSecret(p) => {
                p.tag_known();
                p.round_trip(at);
            },
            Self::FileTypeSecretThumbnail(p) => {
                p.tag_known();
                p.round_trip(at);
            },
            Self::FileTypeSecure(p) => {
                p.tag_known();
                p.round_trip(at);
            },
            Self::FileTypeSticker(p) => {
                p.tag_known();
                p.round_trip(at);
            },
            Self::FileTypeThumbnail(p) => {
                p.tag_known();
                p.round_trip(at);
            },
            Self::FileTypeUnknown(p) => {
                p.tag_known();
                p.round_trip(at);
            },
            Self::FileTypeVideo(p) => {
                p.tag_known();
                p.round_trip(at);
            },
            Self::FileTypeVideoNote(p) => {
                p.tag_known();
                p.round_trip(at);
            },
            Self::FileTypeVoiceNote(p) => {
                p.tag_known();
                p.round_trip(at);
            },
            Self::FileTypeWallpaper(p) => {
                p.tag_known();
                p.round_trip(at);
            },
        }
    }
}

impl Tagged for FileType {
    open spec fn known(tag: Seq<char>) -> bool {
        ||| tag == "fileTypeNone"@
        ||| tag == "fileTypeAnimation"@
        ||| tag == "fileTypeAudio"@
        ||| tag == "fileTypeDocument"@
        ||| tag == "fileTypePhoto"@
        ||| tag == "fileTypeProfilePhoto"@
        ||| tag == "fileTypeSecret"@
        ||| tag == "fileTypeSecretThumbnail"@
        ||| tag == "fileTypeSecure"@
        ||| tag == "fileTypeSticker"@
        ||| tag == "fileTypeThumbnail"@
        ||| tag == "fileTypeUnknown"@
        ||| tag == "fileTypeVideo"@
        ||| tag == "fileTypeVideoNote"@
        ||| tag == "fileTypeVoiceNote"@
        ||| tag == "fileTypeWallpaper"@
    }

    fn knows(tag: &str) -> (r: bool) {
        same_text(tag, "fileTypeNone")
            || same_text(tag, "fileTypeAnimation")
            || same_text(tag, "fileTypeAudio")
            || same_text(tag, "fileTypeDocument")
            || same_text(tag, "fileTypePhoto")
            || same_text(tag, "fileTypeProfilePhoto")
            || same_text(tag, "fileTypeSecret")
            || same_text(tag, "fileTypeSecretThumbnail")
            || same_text(tag, "fileTypeSecure")
            || same_text(tag, "fileTypeSticker")
            || same_text(tag, "fileTypeThumbnail")
            || same_text(tag, "fileTypeUnknown")
            || same_text(tag, "fileTypeVideo")
            || same_text(tag, "fileTypeVideoNote")
            || same_text(tag, "fileTypeVoiceNote")
            || same_text(tag, "fileTypeWallpaper")
    }

    proof fn tag_known(&self) {
        reveal(<FileType as Wire>::wire);
        match self {
            Self::FileTypeNone(p) => p.tag_known(),
            Self::FileTypeAnimation(p) => p.tag_known(),
            Self::FileTypeAudio(p) => p.tag_known(),
            Self::FileTypeDocument(p) => p.tag_known(),
            Self::FileTypePhoto(p) => p.tag_known(),
            Self::FileTypeProfilePhoto(p) => p.tag_known(),
            Self::FileTypeSecret(p) => p.tag_known(),
            Self::FileTypeSecretThumbnail(p) => p.tag_known(),
            Self::FileTypeSecure(p) => p.tag_known(),
            Self::FileTypeSticker(p) => p.tag_known(),
            Self::FileTypeThumbnail(p) => p.tag_known(),
            Self::FileTypeUnknown(p) => p.tag_known(),
            Self::FileTypeVideo(p) => p.tag_known(),
            Self::FileTypeVideoNote(p) => p.tag_known(),
            Self::FileTypeVoiceNote(p) => p.tag_known(),
            Self::FileTypeWallpaper(p) => p.tag_known(),
        }
    }
}

impl Union for FileType {
    proof fn unknown_rejected(d: Doc, at: Seq<char>) {
        reveal(<FileType as Wire>::parse);
    }

    proof fn untagged_rejected(d: Doc, at: Seq<char>) {
        reveal(<FileType as Wire>::parse);
    }
}

/// Contains the storage usage statistics for a specific file type
#[derive(Debug, Clone, PartialEq)]
pub struct StorageStatisticsByFileType {
    /// File type
    pub file_type: FileType,
    /// Total size of the files
    pub size: i64,
    /// Total number of files
    pub count: i32,
}

impl Wire for StorageStatisticsByFileType {
    #[verifier::opaque]
    open spec fn wire(&self) -> Doc {
        tagged(
            Map::empty()
                .insert("fileType"@, self.file_type.wire())
                .insert("size"@, self.size.wire())
                .insert("count"@, self.count.wire()),
            "storageStatisticsByFileType"@,
        )
    }

    #[verifier::opaque]
    open spec fn parse(d: Doc, at: Seq<char>) -> Result<Doc, Fault> {
        match d {
            Doc::Object(m) => {
                let file_type = field::<FileType>(m, "fileType"@);
                let size = field::<i64>(m, "size"@);
                let count = field::<i32>(m, "count"@);
                if file_type is Err {
                    file_type
                } else if size is Err {
                    size
                } else if count is Err {
                    count
                } else {
                    Ok(
                        tagged(
                            Map::empty()
                                .insert("fileType"@, file_type->Ok_0)
                                .insert("size"@, size->Ok_0)
                                .insert("count"@, count->Ok_0),
                            "storageStatisticsByFileType"@,
                        ),
                    )
                }
            },
            _ => Err(Fault::TypeMismatch(at)),
        }
    }

    fn encode(&self) -> (j: Json) {
        proof {
            reveal(<StorageStatisticsByFileType as Wire>::wire);
        }
        let mut members: Vec<Member> = Vec::new();
        put(&mut members, "fileType", self.file_type.encode());
        put(&mut members, "size", self.size.encode());
        put(&mut members, "count", self.count.encode());
        seal(members, "storageStatisticsByFileType")
    }

    fn decode(j: &Json, at: &str) -> (r: Result<Self, DecodeError>) {
        proof {
            reveal(<StorageStatisticsByFileType as Wire>::wire);
            reveal(<StorageStatisticsByFileType as Wire>::parse);
        }
        let members = members_of(j, at)?;
        let file_type = read_field::<FileType>(members, "fileType")?;
        let size = read_field::<i64>(members, "size")?;
        let count = read_field::<i32>(members, "count")?;
        Ok(StorageStatisticsByFileType { file_type, size, count })
    }

    proof fn round_trip(&self, at: Seq<char>) {
        reveal(<StorageStatisticsByFileType as Wire>::wire);
        reveal(<StorageStatisticsByFileType as Wire>::parse);
        reveal_strlit("@type");
        reveal_strlit("count");
        reveal_strlit("fileType");
        reveal_strlit("size");
        assert("@type"@.len() == 5 && "@type"@[0] == '@');
        assert("count"@.len() == 5 && "count"@[0] == 'c');
        assert("fileType"@.len() == 8);
        assert("size"@.len() == 4);
        self.file_type.round_trip("fileType"@);
        self.size.round_trip("size"@);
        self.count.round_trip("count"@);
    }
}

impl Tagged for StorageStatisticsByFileType {
    open spec fn known(tag: Seq<char>) -> bool {
        tag == "storageStatisticsByFileType"@
    }

    fn knows(tag: &str) -> (r: bool) {
        same_text(tag, "storageStatisticsByFileType")
    }

    proof fn tag_known(&self) {
        reveal(<StorageStatisticsByFileType as Wire>::wire);
        assert(tag_of(self.wire()) == Some("storageStatisticsByFileType"@));
        assert(Self::known("storageStatisticsByFileType"@));
    }
}

/// Contains the storage usage statistics for a specific chat
#[derive(Debug, Clone, PartialEq)]
pub struct StorageStatisticsByChat {
    /// Chat identifier; 0 if none
    pub chat_id: i64,
    /// Total size of the files in the chat
    pub size: i64,
    /// Total number of files in the chat
    pub count: i32,
    /// Statistics split by file types
    pub by_file_type: Vec<StorageStatisticsByFileType>,
}

impl Wire for StorageStatisticsByChat {
    #[verifier::opaque]
    open spec fn wire(&self) -> Doc {
        tagged(
            Map::empty()
                .insert("chatId"@, self.chat_id.wire())
                .insert("size"@, self.size.wire())
                .insert("count"@, self.count.wire())
                .insert("byFileType"@, self.by_file_type.wire()),
            "storageStatisticsByChat"@,
        )
    }

    #[verifier::opaque]
    open spec fn parse(d: Doc, at: Seq<char>) -> Result<Doc, Fault> {
        match d {
            Doc::Object(m) => {
                let chat_id = field::<i64>(m, "chatId"@);
                let size = field::<i64>(m, "size"@);
                let count = field::<i32>(m, "count"@);
                let by_file_type = field::<Vec<StorageStatisticsByFileType>>(m, "byFileType"@);
                if chat_id is Err {
                    chat_id
                } else if size is Err {
                    size
                } else if count is Err {
                    count
                } else if by_file_type is Err {
                    by_file_type
                } else {
                    Ok(
                        tagged(
                            Map::empty()
                                .insert("chatId"@, chat_id->Ok_0)
                                .insert("size"@, size->Ok_0)
                                .insert("count"@, count->Ok_0)
                                .insert("byFileType"@, by_file_type->Ok_0),
                            "storageStatisticsByChat"@,
                        ),
                    )
                }
            },
            _ => Err(Fault::TypeMismatch(at)),
        }
    }

    fn encode(&self) -> (j: Json) {
        proof {
            reveal(<StorageStatisticsByChat as Wire>::wire);
        }
        let mut members: Vec<Member> = Vec::new();
        put(&mut members, "chatId", self.chat_id.encode());
        put(&mut members, "size", self.size.encode());
        put(&mut members, "count", self.count.encode());
        put(&mut members, "byFileType", self.by_file_type.encode());
        seal(members, "storageStatisticsByChat")
    }

    fn decode(j: &Json, at: &str) -> (r: Result<Self, DecodeError>) {
        proof {
            reveal(<StorageStatisticsByChat as Wire>::wire);
            reveal(<StorageStatisticsByChat as Wire>::parse);
        }
        let members = members_of(j, at)?;
        let chat_id = read_field::<i64>(members, "chatId")?;
        let size = read_field::<i64>(members, "size")?;
        let count = read_field::<i32>(members, "count")?;
        let by_file_type = read_field::<Vec<StorageStatisticsByFileType>>(members, "byFileType")?;
        Ok(StorageStatisticsByChat { chat_id, size, count, by_file_type })
    }

    proof fn round_trip(&self, at: Seq<char>) {
        reveal(<StorageStatisticsByChat as Wire>::wire);
        reveal(<StorageStatisticsByChat as Wire>::parse);
        reveal_strlit("@type");
        reveal_strlit("byFileType");
        reveal_strlit("chatId");
        reveal_strlit("count");
        reveal_strlit("size");
        assert("@type"@.len() == 5 && "@type"@[0] == '@');
        assert("byFileType"@.len() == 10);
        assert("chatId"@.len() == 6);
        assert("count"@.len() == 5 && "count"@[0] == 'c');
        assert("size"@.len() == 4);
        self.chat_id.round_trip("chatId"@);
        self.size.round_trip("size"@);
        self.count.round_trip("count"@);
        self.by_file_type.round_trip("byFileType"@);
    }
}

impl Tagged for StorageStatisticsByChat {
    open spec fn known(tag: Seq<char>) -> bool {
        tag == "storageStatisticsByChat"@
    }

    fn knows(tag: &str) -> (r: bool) {
        same_text(tag, "storageStatisticsByChat")
    }

    proof fn tag_known(&self) {
        reveal(<StorageStatisticsByChat as Wire>::wire);
        assert(tag_of(self.wire()) == Some("storageStatisticsByChat"@));
        assert(Self::known("storageStatisticsByChat"@));
    }
}

/// Contains the exact storage usage statistics split by chats and file type
#[derive(Debug, Clone, PartialEq)]
pub struct StorageStatistics {
    /// Total size of files
    pub size: i64,
    /// Total number of files
    pub count: i32,
    /// Statistics split by chats
    pub by_chat: Vec<StorageStatisticsByChat>,
}

impl Wire for StorageStatistics {
    #[verifier::opaque]
    open spec fn wire(&self) -> Doc {
        tagged(
            Map::empty()
                .insert("size"@, self.size.wire())
                .insert("count"@, self.count.wire())
                .insert("byChat"@, self.by_chat.wire()),
            "storageStatistics"@,
        )
    }

    #[verifier::opaque]
    open spec fn parse(d: Doc, at: Seq<char>) -> Result<Doc, Fault> {
        match d {
            Doc::Object(m) => {
                let size = field::<i64>(m, "size"@);
                let count = field::<i32>(m, "count"@);
                let by_chat = field::<Vec<StorageStatisticsByChat>>(m, "byChat"@);
                if size is Err {
                    size
                } else if count is Err {
                    count
                } else if by_chat is Err {
                    by_chat
                } else {
                    Ok(
                        tagged(
                            Map::empty()
                                .insert("size"@, size->Ok_0)
                                .insert("count"@, count->Ok_0)
                                .insert("byChat"@, by_chat->Ok_0),
                            "storageStatistics"@,
                        ),
                    )
                }
            },
            _ => Err(Fault::TypeMismatch(at)),
        }
    }

    fn encode(&self) -> (j: Json) {
        proof {
            reveal(<StorageStatistics as Wire>::wire);
        }
        let mut members: Vec<Member> = Vec::new();
        put(&mut members, "size", self.size.encode());
        put(&mut members, "count", self.count.encode());
        put(&mut members, "byChat", self.by_chat.encode());
        seal(members, "storageStatistics")
    }

    fn decode(j: &Json, at: &str) -> (r: Result<Self, DecodeError>) {
        proof {
            reveal(<StorageStatistics as Wire>::wire);
            reveal(<StorageStatistics as Wire>::parse);
        }
        let members = members_of(j, at)?;
        let size = read_field::<i64>(members, "size")?;
        let count = read_field::<i32>(members, "count")?;
        let by_chat = read_field::<Vec<StorageStatisticsByChat>>(members, "byChat")?;
        Ok(StorageStatistics { size, count, by_chat })
    }

    proof fn round_trip(&self, at: Seq<char>) {
        reveal(<StorageStatistics as Wire>::wire);
        reveal(<StorageStatistics as Wire>::parse);
        reveal_strlit("@type");
        reveal_strlit("byChat");
        reveal_strlit("count");
        reveal_strlit("size");
        assert("@type"@.len() == 5 && "@type"@[0] == '@');
        assert("byChat"@.len() == 6);
        assert("count"@.len() == 5 && "count"@[0] == 'c');
        assert("size"@.len() == 4);
        self.size.round_trip("size"@);
        self.count.round_trip("count"@);
        self.by_chat.round_trip("byChat"@);
    }
}

impl Tagged for StorageStatistics {
    open spec fn known(tag: Seq<char>) -> bool {
        tag == "storageStatistics"@
    }

    fn knows(tag: &str) -> (r: bool) {
        same_text(tag, "storageStatistics")
    }

    proof fn tag_known(&self) {
        reveal(<StorageStatistics as Wire>::wire);
        assert(tag_of(self.wire()) == Some("storageStatistics"@));
        assert(Self::known("storageStatistics"@));
    }
}

/// Contains approximate storage usage statistics, excluding files of unknown file type
#[derive(Debug, Clone, PartialEq)]
pub struct StorageStatisticsFast {
    /// Approximate total size of files
    pub files_size: i64,
    /// Approximate number of files
    pub file_count: i32,
    /// Size of the database
    pub database_size: i64,
    /// Size of the language pack database
    pub language_pack_database_size: i64,
    /// Size of the TDLib internal log
    pub log_size: i64,
}

impl Wire for StorageStatisticsFast {
    #[verifier::opaque]
    open spec fn wire(&self) -> Doc {
        tagged(
            Map::empty()
                .insert("filesSize"@, self.files_size.wire())
                .insert("fileCount"@, self.file_count.wire())
                .insert("databaseSize"@, self.database_size.wire())
                .insert("languagePackDatabaseSize"@, self.language_pack_database_size.wire())
                .insert("logSize"@, self.log_size.wire()),
            "storageStatisticsFast"@,
        )
    }

    #[verifier::opaque]
    open spec fn parse(d: Doc, at: Seq<char>) -> Result<Doc, Fault> {
        match d {
            Doc::Object(m) => {
                let files_size = field::<i64>(m, "filesSize"@);
                let file_count = field::<i32>(m, "fileCount"@);
                let database_size = field::<i64>(m, "databaseSize"@);
                let language_pack_database_size = field::<i64>(m, "languagePackDatabaseSize"@);
                let log_size = field::<i64>(m, "logSize"@);
                if files_size is Err {
                    files_size
                } else if file_count is Err {
                    file_count
                } else if database_size is Err {
                    database_size
                } else if language_pack_database_size is Err {
                    language_pack_database_size
                } else if log_size is Err {
                    log_size
                } else {
                    Ok(
                        tagged(
                            Map::empty()
                                .insert("filesSize"@, files_size->Ok_0)
                                .insert("fileCount"@, file_count->Ok_0)
                                .insert("databaseSize"@, database_size->Ok_0)
                                .insert(
                                    "languagePackDatabaseSize"@,
                                    language_pack_database_size->Ok_0,
                                )
                                .insert("logSize"@, log_size->Ok_0),
                            "storageStatisticsFast"@,
                        ),
                    )
                }
            },
            _ => Err(Fault::TypeMismatch(at)),
        }
    }

    fn encode(&self) -> (j: Json) {
        proof {
            reveal(<StorageStatisticsFast as Wire>::wire);
        }
        let mut members: Vec<Member> = Vec::new();
        put(&mut members, "filesSize", self.files_size.encode());
        put(&mut members, "fileCount", self.file_count.encode());
        put(&mut members, "databaseSize", self.database_size.encode());
        put(&mut members, "languagePackDatabaseSize", self.language_pack_database_size.encode());
        put(&mut members, "logSize", self.log_size.encode());
        seal(members, "storageStatisticsFast")
    }

    fn decode(j: &Json, at: &str) -> (r: Result<Self, DecodeError>) {
        proof {
            reveal(<StorageStatisticsFast as Wire>::wire);
            reveal(<StorageStatisticsFast as Wire>::parse);
        }
        let members = members_of(j, at)?;
        let files_size = read_field::<i64>(members, "filesSize")?;
        let file_count = read_field::<i32>(members, "fileCount")?;
        let database_size = read_field::<i64>(members, "databaseSize")?;
        let language_pack_database_size = read_field::<i64>(members, "languagePackDatabaseSize")?;
        let log_size = read_field::<i64>(members, "logSize")?;
        Ok(StorageStatisticsFast {
            files_size,
            file_count,
            database_size,
            language_pack_database_size,
            log_size,
        })
    }

    proof fn round_trip(&self, at: Seq<char>) {
        reveal(<StorageStatisticsFast as Wire>::wire);
        reveal(<StorageStatisticsFast as Wire>::parse);
        reveal_strlit("@type");
        reveal_strlit("databaseSize");
        reveal_strlit("fileCount");
        reveal_strlit("filesSize");
        reveal_strlit("languagePackDatabaseSize");
        reveal_strlit("logSize");
        assert("@type"@.len() == 5);
        assert("databaseSize"@.len() == 12);
        assert("fileCount"@.len() == 9 && "fileCount"@[4] == 'C');
        assert("filesSize"@.len() == 9 && "filesSize"@[4] == 's');
        assert("languagePackDatabaseSize"@.len() == 24);
        assert("logSize"@.len() == 7);
        self.files_size.round_trip("filesSize"@);
        self.file_count.round_trip("fileCount"@);
        self.database_size.round_trip("databaseSize"@);
        self.language_pack_database_size.round_trip("languagePackDatabaseSize"@);
        self.log_size.round_trip("logSize"@);
    }
}

impl Tagged for StorageStatisticsFast {
    open spec fn known(tag: Seq<char>) -> bool {
        tag == "storageStatisticsFast"@
    }

    fn knows(tag: &str) -> (r: bool) {
        same_text(tag, "storageStatisticsFast")
    }

    proof fn tag_known(&self) {
        reveal(<StorageStatisticsFast as Wire>::wire);
        assert(tag_of(self.wire()) == Some("storageStatisticsFast"@));
        assert(Self::known("storageStatisticsFast"@));
    }
}

/// Contains database statistics
#[derive(Debug, Clone, PartialEq)]
pub struct DatabaseStatistics {
    /// Database statistics in an unspecified human-readable format
    pub statistics: String,
}

impl Wire for DatabaseStatistics {
    #[verifier::opaque]
    open spec fn wire(&self) -> Doc {
        tagged(
            Map::empty()
                .insert("statistics"@, self.statistics.wire()),
            "databaseStatistics"@,
        )
    }

    #[verifier::opaque]
    open spec fn parse(d: Doc, at: Seq<char>) -> Result<Doc, Fault> {
        match d {
            Doc::Object(m) => {
                let statistics = field::<String>(m, "statistics"@);
                if statistics is Err {
                    statistics
                } else {
                    Ok(
                        tagged(
                            Map::empty()
                                .insert("statistics"@, statistics->Ok_0),
                            "databaseStatistics"@,
                        ),
                    )
                }
            },
            _ => Err(Fault::TypeMismatch(at)),
        }
    }

    fn encode(&self) -> (j: Json) {
        proof {
            reveal(<DatabaseStatistics as Wire>::wire);
        }
        let mut members: Vec<Member> = Vec::new();
        put(&mut members, "statistics", self.statistics.encode());
        seal(members, "databaseStatistics")
    }

    fn decode(j: &Json, at: &str) -> (r: Result<Self, DecodeError>) {
        proof {
            reveal(<DatabaseStatistics as Wire>::wire);
            reveal(<DatabaseStatistics as Wire>::parse);
        }
        let members = members_of(j, at)?;
        let statistics = read_field::<String>(members, "statistics")?;
        Ok(DatabaseStatistics { statistics })
    }

    proof fn round_trip(&self, at: Seq<char>) {
        reveal(<DatabaseStatistics as Wire>::wire);
        reveal(<DatabaseStatistics as Wire>::parse);
        reveal_strlit("@type");
        reveal_strlit("statistics");
        assert("@type"@.len() == 5);
        assert("statistics"@.len() == 10);
        self.statistics.round_trip("statistics"@);
    }
}

impl Tagged for DatabaseStatistics {
    open spec fn known(tag: Seq<char>) -> bool {
        tag == "databaseStatistics"@
    }

    fn knows(tag: &str) -> (r: bool) {
        same_text(tag, "databaseStatistics")
    }

    proof fn tag_known(&self) {
        reveal(<DatabaseStatistics as Wire>::wire);
        assert(tag_of(self.wire()) == Some("databaseStatistics"@));
        assert(Self::known("databaseStatistics"@));
    }
}

/// The network is not available
#[derive(Debug, Clone, PartialEq)]
pub struct NetworkTypeNone {}

impl Wire for NetworkTypeNone {
    #[verifier::opaque]
    open spec fn wire(&self) -> Doc {
        tagged(Map::empty(), "networkTypeNone"@)
    }

    #[verifier::opaque]
    open spec fn parse(d: Doc, at: Seq<char>) -> Result<Doc, Fault> {
        match d {
            Doc::Object(_) => Ok(tagged(Map::empty(), "networkTypeNone"@)),
            _ => Err(Fault::TypeMismatch(at)),
        }
    }

    fn encode(&self) -> (j: Json) {
        proof {
            reveal(<NetworkTypeNone as Wire>::wire);
        }
        seal(Vec::new(), "networkTypeNone")
    }

    fn decode(j: &Json, at: &str) -> (r: Result<Self, DecodeError>) {
        proof {
            reveal(<NetworkTypeNone as Wire>::wire);
            reveal(<NetworkTypeNone as Wire>::parse);
        }
        let _ = members_of(j, at)?;
        Ok(NetworkTypeNone {})
    }

    proof fn round_trip(&self, at: Seq<char>) {
        reveal(<NetworkTypeNone as Wire>::wire);
        reveal(<NetworkTypeNone as Wire>::parse);
    }
}

impl Tagged for NetworkTypeNone {
    open spec fn known(tag: Seq<char>) -> bool {
        tag == "networkTypeNone"@
    }

    fn knows(tag: &str) -> (r: bool) {
        same_text(tag, "networkTypeNone")
    }

    proof fn tag_known(&self) {
        reveal(<NetworkTypeNone as Wire>::wire);
        assert(tag_of(self.wire()) == Some("networkTypeNone"@));
        assert(Self::known("networkTypeNone"@));
    }
}

/// A mobile network
#[derive(Debug, Clone, PartialEq)]
pub struct NetworkTypeMobile {}

impl Wire for NetworkTypeMobile {
    #[verifier::opaque]
    open spec fn wire(&self) -> Doc {
        tagged(Map::empty(), "networkTypeMobile"@)
    }

    #[verifier::opaque]
    open spec fn parse(d: Doc, at: Seq<char>) -> Result<Doc, Fault> {
        match d {
            Doc::Object(_) => Ok(tagged(Map::empty(), "networkTypeMobile"@)),
            _ => Err(Fault::TypeMismatch(at)),
        }
    }

    fn encode(&self) -> (j: Json) {
        proof {
            reveal(<NetworkTypeMobile as Wire>::wire);
        }
        seal(Vec::new(), "networkTypeMobile")
    }

    fn decode(j: &Json, at: &str) -> (r: Result<Self, DecodeError>) {
        proof {
            reveal(<NetworkTypeMobile as Wire>::wire);
            reveal(<NetworkTypeMobile as Wire>::parse);
        }
        let _ = members_of(j, at)?;
        Ok(NetworkTypeMobile {})
    }

    proof fn round_trip(&self, at: Seq<char>) {
        reveal(<NetworkTypeMobile as Wire>::wire);
        reveal(<NetworkTypeMobile as Wire>::parse);
    }
}

impl Tagged for NetworkTypeMobile {
    open spec fn known(tag: Seq<char>) -> bool {
        tag == "networkTypeMobile"@
    }

    fn knows(tag: &str) -> (r: bool) {
        same_text(tag, "networkTypeMobile")
    }

    proof fn tag_known(&self) {
        reveal(<NetworkTypeMobile as Wire>::wire);
        assert(tag_of(self.wire()) == Some("networkTypeMobile"@));
        assert(Self::known("networkTypeMobile"@));
    }
}

/// A mobile roaming network
#[derive(Debug, Clone, PartialEq)]
pub struct NetworkTypeMobileRoaming {}

impl Wire for NetworkTypeMobileRoaming {
    #[verifier::opaque]
    open spec fn wire(&self) -> Doc {
        tagged(Map::empty(), "networkTypeMobileRoaming"@)
    }

    #[verifier::opaque]
    open spec fn parse(d: Doc, at: Seq<char>) -> Result<Doc, Fault> {
        match d {
            Doc::Object(_) => Ok(tagged(Map::empty(), "networkTypeMobileRoaming"@)),
            _ => Err(Fault::TypeMismatch(at)),
        }
    }

    fn encode(&self) -> (j: Json) {
        proof {
            reveal(<NetworkTypeMobileRoaming as Wire>::wire);
        }
        seal(Vec::new(), "networkTypeMobileRoaming")
    }

    fn decode(j: &Json, at: &str) -> (r: Result<Self, DecodeError>) {
        proof {
            reveal(<NetworkTypeMobileRoaming as Wire>::wire);
            reveal(<NetworkTypeMobileRoaming as Wire>::parse);
        }
        let _ = members_of(j, at)?;
        Ok(NetworkTypeMobileRoaming {})
    }

    proof fn round_trip(&self, at: Seq<char>) {
        reveal(<NetworkTypeMobileRoaming as Wire>::wire);
        reveal(<NetworkTypeMobileRoaming as Wire>::parse);
    }
}

impl Tagged for NetworkTypeMobileRoaming {
    open spec fn known(tag: Seq<char>) -> bool {
        tag == "networkTypeMobileRoaming"@
    }

    fn knows(tag: &str) -> (r: bool) {
        same_text(tag, "networkTypeMobileRoaming")
    }

    proof fn tag_known(&self) {
        reveal(<NetworkTypeMobileRoaming as Wire>::wire);
        assert(tag_of(self.wire()) == Some("networkTypeMobileRoaming"@));
        assert(Self::known("networkTypeMobileRoaming"@));
    }
}

/// A Wi-Fi network
#[derive(Debug, Clone, PartialEq)]
pub struct NetworkTypeWiFi {}

impl Wire for NetworkTypeWiFi {
    #[verifier::opaque]
    open spec fn wire(&self) -> Doc {
        tagged(Map::empty(), "networkTypeWiFi"@)
    }

    #[verifier::opaque]
    open spec fn parse(d: Doc, at: Seq<char>) -> Result<Doc, Fault> {
        match d {
            Doc::Object(_) => Ok(tagged(Map::empty(), "networkTypeWiFi"@)),
            _ => Err(Fault::TypeMismatch(at)),
        }
    }

    fn encode(&self) -> (j: Json) {
        proof {
            reveal(<NetworkTypeWiFi as Wire>::wire);
        }
        seal(Vec::new(), "networkTypeWiFi")
    }

    fn decode(j: &Json, at: &str) -> (r: Result<Self, DecodeError>) {
        proof {
            reveal(<NetworkTypeWiFi as Wire>::wire);
            reveal(<NetworkTypeWiFi as Wire>::parse);
        }
        let _ = members_of(j, at)?;
        Ok(NetworkTypeWiFi {})
    }

    proof fn round_trip(&self, at: Seq<char>) {
        reveal(<NetworkTypeWiFi as Wire>::wire);
        reveal(<NetworkTypeWiFi as Wire>::parse);
    }
}

impl Tagged for NetworkTypeWiFi {
    open spec fn known(tag: Seq<char>) -> bool {
        tag == "networkTypeWiFi"@
    }

    fn knows(tag: &str) -> (r: bool) {
        same_text(tag, "networkTypeWiFi")
    }

    proof fn tag_known(&self) {
        reveal(<NetworkTypeWiFi as Wire>::wire);
        assert(tag_of(self.wire()) == Some("networkTypeWiFi"@));
        assert(Self::known("networkTypeWiFi"@));
    }
}

/// A different network type (e.g., Ethernet network)
#[derive(Debug, Clone, PartialEq)]
pub struct NetworkTypeOther {}

impl Wire for NetworkTypeOther {
    #[verifier::opaque]
    open spec fn wire(&self) -> Doc {
        tagged(Map::empty(), "networkTypeOther"@)
    }

    #[verifier::opaque]
    open spec fn parse(d: Doc, at: Seq<char>) -> Result<Doc, Fault> {
        match d {
            Doc::Object(_) => Ok(tagged(Map::empty(), "networkTypeOther"@)),
            _ => Err(Fault::TypeMismatch(at)),
        }
    }

    fn encode(&self) -> (j: Json) {
        proof {
            reveal(<NetworkTypeOther as Wire>::wire);
        }
        seal(Vec::new(), "networkTypeOther")
    }

    fn decode(j: &Json, at: &str) -> (r: Result<Self, DecodeError>) {
        proof {
            reveal(<NetworkTypeOther as Wire>::wire);
            reveal(<NetworkTypeOther as Wire>::parse);
        }
        let _ = members_of(j, at)?;
        Ok(NetworkTypeOther {})
    }

    proof fn round_trip(&self, at: Seq<char>) {
        reveal(<NetworkTypeOther as Wire>::wire);
        reveal(<NetworkTypeOther as Wire>::parse);
    }
}

impl Tagged for NetworkTypeOther {
    open spec fn known(tag: Seq<char>) -> bool {
        tag == "networkTypeOther"@
    }

    fn knows(tag: &str) -> (r: bool) {
        same_text(tag, "networkTypeOther")
    }

    proof fn tag_known(&self) {
        reveal(<NetworkTypeOther as Wire>::wire);
        assert(tag_of(self.wire()) == Some("networkTypeOther"@));
        assert(Self::known("networkTypeOther"@));
    }
}

/// Represents the type of a network
#[derive(Debug, Clone, PartialEq)]
pub enum NetworkType {
    NetworkTypeNone(NetworkTypeNone),
    NetworkTypeMobile(NetworkTypeMobile),
    NetworkTypeMobileRoaming(NetworkTypeMobileRoaming),
    NetworkTypeWiFi(NetworkTypeWiFi),
    NetworkTypeOther(NetworkTypeOther),
}

impl Wire for NetworkType {
    #[verifier::opaque]
    open spec fn wire(&self) -> Doc {
        match self {
            Self::NetworkTypeNone(p) => p.wire(),
            Self::NetworkTypeMobile(p) => p.wire(),
            Self::NetworkTypeMobileRoaming(p) => p.wire(),
            Self::NetworkTypeWiFi(p) => p.wire(),
            Self::NetworkTypeOther(p) => p.wire(),
        }
    }

    #[verifier::opaque]
    open spec fn parse(d: Doc, at: Seq<char>) -> Result<Doc, Fault> {
        match d {
            Doc::Object(_) => match tag_of(d) {
                Some(t) => if t == "networkTypeNone"@ {
                    NetworkTypeNone::parse(d, at)
                } else if t == "networkTypeMobile"@ {
                    NetworkTypeMobile::parse(d, at)
                } else if t == "networkTypeMobileRoaming"@ {
                    NetworkTypeMobileRoaming::parse(d, at)
                } else if t == "networkTypeWiFi"@ {
                    NetworkTypeWiFi::parse(d, at)
                } else if t == "networkTypeOther"@ {
                    NetworkTypeOther::parse(d, at)
                } else {
                    Err(Fault::UnknownVariant(t))
                },
                None => Err(Fault::MissingDiscriminator),
            },
            _ => Err(Fault::TypeMismatch(at)),
        }
    }

    fn encode(&self) -> (j: Json) {
        proof {
            reveal(<NetworkType as Wire>::wire);
        }
        match self {
            Self::NetworkTypeNone(p) => p.encode(),
            Self::NetworkTypeMobile(p) => p.encode(),
            Self::NetworkTypeMobileRoaming(p) => p.encode(),
            Self::NetworkTypeWiFi(p) => p.encode(),
            Self::NetworkTypeOther(p) => p.encode(),
        }
    }

    fn decode(j: &Json, at: &str) -> (r: Result<Self, DecodeError>) {
        proof {
            reveal(<NetworkType as Wire>::wire);
            reveal(<NetworkType as Wire>::parse);
        }
        let members = members_of(j, at)?;
        let tag = discriminator(members)?;
        if same_text(tag, "networkTypeNone") {
            Ok(Self::NetworkTypeNone(NetworkTypeNone::decode(j, at)?))
        } else if same_text(tag, "networkTypeMobile") {
            Ok(Self::NetworkTypeMobile(NetworkTypeMobile::decode(j, at)?))
        } else if same_text(tag, "networkTypeMobileRoaming") {
            Ok(Self::NetworkTypeMobileRoaming(NetworkTypeMobileRoaming::decode(j, at)?))
        } else if same_text(tag, "networkTypeWiFi") {
            Ok(Self::NetworkTypeWiFi(NetworkTypeWiFi::decode(j, at)?))
        } else if same_text(tag, "networkTypeOther") {
            Ok(Self::NetworkTypeOther(NetworkTypeOther::decode(j, at)?))
        } else {
            Err(DecodeError::UnknownVariant(tag.to_owned()))
        }
    }

    proof fn round_trip(&self, at: Seq<char>) {
        reveal(<NetworkType as Wire>::wire);
        reveal(<NetworkType as Wire>::parse);
        reveal_strlit("networkTypeMobile");
        reveal_strlit("networkTypeMobileRoaming");
        reveal_strlit("networkTypeNone");
        reveal_strlit("networkTypeOther");
        reveal_strlit("networkTypeWiFi");
        assert("networkTypeMobile"@.len() == 17);
        assert("networkTypeMobileRoaming"@.len() == 24);
        assert("networkTypeNone"@.len() == 15 && "networkTypeNone"@[11] == 'N');
        assert("networkTypeOther"@.len() == 16);
        assert("networkTypeWiFi"@.len() == 15 && "networkTypeWiFi"@[11] == 'W');
        match self {
            Self::NetworkTypeNone(p) => {
                p.tag_known();
                p.round_trip(at);
            },
            Self::NetworkTypeMobile(p) => {
                p.tag_known();
                p.round_trip(at);
            },
            Self::NetworkTypeMobileRoaming(p) => {
                p.tag_known();
                p.round_trip(at);
            },
            Self::NetworkTypeWiFi(p) => {
                p.tag_known();
                p.round_trip(at);
            },
            Self::NetworkTypeOther(p) => {
                p.tag_known();
                p.round_trip(at);
            },
        }
    }
}

impl Tagged for NetworkType {
    open spec fn known(tag: Seq<char>) -> bool {
        ||| tag == "networkTypeNone"@
        ||| tag == "networkTypeMobile"@
        ||| tag == "networkTypeMobileRoaming"@
        ||| tag == "networkTypeWiFi"@
        ||| tag == "networkTypeOther"@
    }

    fn knows(tag: &str) -> (r: bool) {
        same_text(tag, "networkTypeNone")
            || same_text(tag, "networkTypeMobile")
            || same_text(tag, "networkTypeMobileRoaming")
            || same_text(tag, "networkTypeWiFi")
            || same_text(tag, "networkTypeOther")
    }

    proof fn tag_known(&self) {
        reveal(<NetworkType as Wire>::wire);
        match self {
            Self::NetworkTypeNone(p) => p.tag_known(),
            Self::NetworkTypeMobile(p) => p.tag_known(),
            Self::NetworkTypeMobileRoaming(p) => p.tag_known(),
            Self::NetworkTypeWiFi(p) => p.tag_known(),
            Self::NetworkTypeOther(p) => p.tag_known(),
        }
    }
}

impl Union for NetworkType {
    proof fn unknown_rejected(d: Doc, at: Seq<char>) {
        reveal(<NetworkType as Wire>::parse);
    }

    proof fn untagged_rejected(d: Doc, at: Seq<char>) {
        reveal(<NetworkType as Wire>::parse);
    }
}

/// Contains information about the total amount of data that was used to send and receive files
#[derive(Debug, Clone, PartialEq)]
pub struct NetworkStatisticsEntryFile {
    /// Type of the file the data is part of
    pub file_type: FileType,
    /// Type of the network the data was sent through. Call setNetworkType to maintain the actual
    /// network type
    pub network_type: NetworkType,
    /// Total number of bytes sent
    pub sent_bytes: i64,
    /// Total number of bytes received
    pub received_bytes: i64,
}

impl Wire for NetworkStatisticsEntryFile {
    #[verifier::opaque]
    open spec fn wire(&self) -> Doc {
        tagged(
            Map::empty()
                .insert("fileType"@, self.file_type.wire())
                .insert("networkType"@, self.network_type.wire())
                .insert("sentBytes"@, self.sent_bytes.wire())
                .insert("receivedBytes"@, self.received_bytes.wire()),
            "networkStatisticsEntryFile"@,
        )
    }

    #[verifier::opaque]
    open spec fn parse(d: Doc, at: Seq<char>) -> Result<Doc, Fault> {
        match d {
            Doc::Object(m) => {
                let file_type = field::<FileType>(m, "fileType"@);
                let network_type = field::<NetworkType>(m, "networkType"@);
                let sent_bytes = field::<i64>(m, "sentBytes"@);
                let received_bytes = field::<i64>(m, "receivedBytes"@);
                if file_type is Err {
                    file_type
                } else if network_type is Err {
                    network_type
                } else if sent_bytes is Err {
                    sent_bytes
                } else if received_bytes is Err {
                    received_bytes
                } else {
                    Ok(
                        tagged(
                            Map::empty()
                                .insert("fileType"@, file_type->Ok_0)
                                .insert("networkType"@, network_type->Ok_0)
                                .insert("sentBytes"@, sent_bytes->Ok_0)
                                .insert("receivedBytes"@, received_bytes->Ok_0),
                            "networkStatisticsEntryFile"@,
                        ),
                    )
                }
            },
            _ => Err(Fault::TypeMismatch(at)),
        }
    }

    fn encode(&self) -> (j: Json) {
        proof {
            reveal(<NetworkStatisticsEntryFile as Wire>::wire);
        }
        let mut members: Vec<Member> = Vec::new();
        put(&mut members, "fileType", self.file_type.encode());
        put(&mut members, "networkType", self.network_type.encode());
        put(&mut members, "sentBytes", self.sent_bytes.encode());
        put(&mut members, "receivedBytes", self.received_bytes.encode());
        seal(members, "networkStatisticsEntryFile")
    }

    fn decode(j: &Json, at: &str) -> (r: Result<Self, DecodeError>) {
        proof {
            reveal(<NetworkStatisticsEntryFile as Wire>::wire);
            reveal(<NetworkStatisticsEntryFile as Wire>::parse);
        }
        let members = members_of(j, at)?;
        let file_type = read_field::<FileType>(members, "fileType")?;
        let network_type = read_field::<NetworkType>(members, "networkType")?;
        let sent_bytes = read_field::<i64>(members, "sentBytes")?;
        let received_bytes = read_field::<i64>(members, "receivedBytes")?;
        Ok(NetworkStatisticsEntryFile { file_type, network_type, sent_bytes, received_bytes })
    }

    proof fn round_trip(&self, at: Seq<char>) {
        reveal(<NetworkStatisticsEntryFile as Wire>::wire);
        reveal(<NetworkStatisticsEntryFile as Wire>::parse);
        reveal_strlit("@type");
        reveal_strlit("fileType");
        reveal_strlit("networkType");
        reveal_strlit("receivedBytes");
        reveal_strlit("sentBytes");
        assert("@type"@.len() == 5);
        assert("fileType"@.len() == 8);
        assert("networkType"@.len() == 11);
        assert("receivedBytes"@.len() == 13);
        assert("sentBytes"@.len() == 9);
        self.file_type.round_trip("fileType"@);
        self.network_type.round_trip("networkType"@);
        self.sent_bytes.round_trip("sentBytes"@);
        self.received_bytes.round_trip("receivedBytes"@);
    }
}

impl Tagged for NetworkStatisticsEntryFile {
    open spec fn known(tag: Seq<char>) -> bool {
        tag == "networkStatisticsEntryFile"@
    }

    fn knows(tag: &str) -> (r: bool) {
        same_text(tag, "networkStatisticsEntryFile")
    }

    proof fn tag_known(&self) {
        reveal(<NetworkStatisticsEntryFile as Wire>::wire);
        assert(tag_of(self.wire()) == Some("networkStatisticsEntryFile"@));
        assert(Self::known("networkStatisticsEntryFile"@));
    }
}

/// Contains information about the total amount of data that was used for calls
#[derive(Debug, Clone, PartialEq)]
pub struct NetworkStatisticsEntryCall {
    /// Type of the network the data was sent through. Call setNetworkType to maintain the actual
    /// network type
    pub network_type: NetworkType,
    /// Total number of bytes sent
    pub sent_bytes: i64,
    /// Total number of bytes received
    pub received_bytes: i64,
    /// Total call duration, in seconds
    pub duration: Number,
}

impl Wire for NetworkStatisticsEntryCall {
    #[verifier::opaque]
    open spec fn wire(&self) -> Doc {
        tagged(
            Map::empty()
                .insert("networkType"@, self.network_type.wire())
                .insert("sentBytes"@, self.sent_bytes.wire())
                .insert("receivedBytes"@, self.received_bytes.wire())
                .insert("duration"@, self.duration.wire()),
            "networkStatisticsEntryCall"@,
        )
    }

    #[verifier::opaque]
    open spec fn parse(d: Doc, at: Seq<char>) -> Result<Doc, Fault> {
        match d {
            Doc::Object(m) => {
                let network_type = field::<NetworkType>(m, "networkType"@);
                let sent_bytes = field::<i64>(m, "sentBytes"@);
                let received_bytes = field::<i64>(m, "receivedBytes"@);
                let duration = field::<Number>(m, "duration"@);
                if network_type is Err {
                    network_type
                } else if sent_bytes is Err {
                    sent_bytes
                } else if received_bytes is Err {
                    received_bytes
                } else if duration is Err {
                    duration
                } else {
                    Ok(
                        tagged(
                            Map::empty()
                                .insert("networkType"@, network_type->Ok_0)
                                .insert("sentBytes"@, sent_bytes->Ok_0)
                                .insert("receivedBytes"@, received_bytes->Ok_0)
                                .insert("duration"@, duration->Ok_0),
                            "networkStatisticsEntryCall"@,
                        ),
                    )
                }
            },
            _ => Err(Fault::TypeMismatch(at)),
        }
    }

    fn encode(&self) -> (j: Json) {
        proof {
            reveal(<NetworkStatisticsEntryCall as Wire>::wire);
        }
        let mut members: Vec<Member> = Vec::new();
        put(&mut members, "networkType", self.network_type.encode());
        put(&mut members, "sentBytes", self.sent_bytes.encode());
        put(&mut members, "receivedBytes", self.received_bytes.encode());
        put(&mut members, "duration", self.duration.encode());
        seal(members, "networkStatisticsEntryCall")
    }

    fn decode(j: &Json, at: &str) -> (r: Result<Self, DecodeError>) {
        proof {
            reveal(<NetworkStatisticsEntryCall as Wire>::wire);
            reveal(<NetworkStatisticsEntryCall as Wire>::parse);
        }
        let members = members_of(j, at)?;
        let network_type = read_field::<NetworkType>(members, "networkType")?;
        let sent_bytes = read_field::<i64>(members, "sentBytes")?;
        let received_bytes = read_field::<i64>(members, "receivedBytes")?;
        let duration = read_field::<Number>(members, "duration")?;
        Ok(NetworkStatisticsEntryCall { network_type, sent_bytes, received_bytes, duration })
    }

    proof fn round_trip(&self, at: Seq<char>) {
        reveal(<NetworkStatisticsEntryCall as Wire>::wire);
        reveal(<NetworkStatisticsEntryCall as Wire>::parse);
        reveal_strlit("@type");
        reveal_strlit("duration");
        reveal_strlit("networkType");
        reveal_strlit("receivedBytes");
        reveal_strlit("sentBytes");
        assert("@type"@.len() == 5);
        assert("duration"@.len() == 8);
        assert("networkType"@.len() == 11);
        assert("receivedBytes"@.len() == 13);
        assert("sentBytes"@.len() == 9);
        self.network_type.round_trip("networkType"@);
        self.sent_bytes.round_trip("sentBytes"@);
        self.received_bytes.round_trip("receivedBytes"@);
        self.duration.round_trip("duration"@);
    }
}

impl Tagged for NetworkStatisticsEntryCall {
    open spec fn known(tag: Seq<char>) -> bool {
        tag == "networkStatisticsEntryCall"@
    }

    fn knows(tag: &str) -> (r: bool) {
        same_text(tag, "networkStatisticsEntryCall")
    }

    proof fn tag_known(&self) {
        reveal(<NetworkStatisticsEntryCall as Wire>::wire);
        assert(tag_of(self.wire()) == Some("networkStatisticsEntryCall"@));
        assert(Self::known("networkStatisticsEntryCall"@));
    }
}

/// Contains statistics about network usage
#[derive(Debug, Clone, PartialEq)]
pub enum NetworkStatisticsEntry {
    NetworkStatisticsEntryFile(NetworkStatisticsEntryFile),
    NetworkStatisticsEntryCall(NetworkStatisticsEntryCall),
}

impl Wire for NetworkStatisticsEntry {
    #[verifier::opaque]
    open spec fn wire(&self) -> Doc {
        match self {
            Self::NetworkStatisticsEntryFile(p) => p.wire(),
            Self::NetworkStatisticsEntryCall(p) => p.wire(),
        }
    }

    #[verifier::opaque]
    open spec fn parse(d: Doc, at: Seq<char>) -> Result<Doc, Fault> {
        match d {
            Doc::Object(_) => match tag_of(d) {
                Some(t) => if t == "networkStatisticsEntryFile"@ {
                    NetworkStatisticsEntryFile::parse(d, at)
                } else if t == "networkStatisticsEntryCall"@ {
                    NetworkStatisticsEntryCall::parse(d, at)
                } else {
                    Err(Fault::UnknownVariant(t))
                },
                None => Err(Fault::MissingDiscriminator),
            },
            _ => Err(Fault::TypeMismatch(at)),
        }
    }

    fn encode(&self) -> (j: Json) {
        proof {
            reveal(<NetworkStatisticsEntry as Wire>::wire);
        }
        match self {
            Self::NetworkStatisticsEntryFile(p) => p.encode(),
            Self::NetworkStatisticsEntryCall(p) => p.encode(),
        }
    }

    fn decode(j: &Json, at: &str) -> (r: Result<Self, DecodeError>) {
        proof {
            reveal(<NetworkStatisticsEntry as Wire>::wire);
            reveal(<NetworkStatisticsEntry as Wire>::parse);
        }
        let members = members_of(j, at)?;
        let tag = discriminator(members)?;
        if same_text(tag, "networkStatisticsEntryFile") {
            Ok(Self::NetworkStatisticsEntryFile(NetworkStatisticsEntryFile::decode(j, at)?))
        } else if same_text(tag, "networkStatisticsEntryCall") {
            Ok(Self::NetworkStatisticsEntryCall(NetworkStatisticsEntryCall::decode(j, at)?))
        } else {
            Err(DecodeError::UnknownVariant(tag.to_owned()))
        }
    }

    proof fn round_trip(&self, at: Seq<char>) {
        reveal(<NetworkStatisticsEntry as Wire>::wire);
        reveal(<NetworkStatisticsEntry as Wire>::parse);
        reveal_strlit("networkStatisticsEntryCall");
        reveal_strlit("networkStatisticsEntryFile");
        assert({
            &&& "networkStatisticsEntryCall"@.len() == 26
            &&& "networkStatisticsEntryCall"@[22] == 'C'
        });
        assert({
            &&& "networkStatisticsEntryFile"@.len() == 26
            &&& "networkStatisticsEntryFile"@[22] == 'F'
        });
        match self {
            Self::NetworkStatisticsEntryFile(p) => {
                p.tag_known();
                p.round_trip(at);
            },
            Self::NetworkStatisticsEntryCall(p) => {
                p.tag_known();
                p.round_trip(at);
            },
        }
    }
}

impl Tagged for NetworkStatisticsEntry {
    open spec fn known(tag: Seq<char>) -> bool {
        ||| tag == "networkStatisticsEntryFile"@
        ||| tag == "networkStatisticsEntryCall"@
    }

    fn knows(tag: &str) -> (r: bool) {
        same_text(tag, "networkStatisticsEntryFile")
            || same_text(tag, "networkStatisticsEntryCall")
    }

    proof fn tag_known(&self) {
        reveal(<NetworkStatisticsEntry as Wire>::wire);
        match self {
            Self::NetworkStatisticsEntryFile(p) => p.tag_known(),
            Self::NetworkStatisticsEntryCall(p) => p.tag_known(),
        }
    }
}

impl Union for NetworkStatisticsEntry {
    proof fn unknown_rejected(d: Doc, at: Seq<char>) {
        reveal(<NetworkStatisticsEntry as Wire>::parse);
    }

    proof fn untagged_rejected(d: Doc, at: Seq<char>) {
        reveal(<NetworkStatisticsEntry as Wire>::parse);
    }
}

/// A full list of available network statistic entries
#[derive(Debug, Clone, PartialEq)]
pub struct NetworkStatistics {
    /// Point in time (Unix timestamp) when the app began collecting statistics
    pub since_date: i32,
    /// Network statistics entries
    pub entries: Vec<NetworkStatisticsEntry>,
}

impl Wire for NetworkStatistics {
    #[verifier::opaque]
    open spec fn wire(&self) -> Doc {
        tagged(
            Map::empty()
                .insert("sinceDate"@, self.since_date.wire())
                .insert("entries"@, self.entries.wire()),
            "networkStatistics"@,
        )
    }

    #[verifier::opaque]
    open spec fn parse(d: Doc, at: Seq<char>) -> Result<Doc, Fault> {
        match d {
            Doc::Object(m) => {
                let since_date = field::<i32>(m, "sinceDate"@);
                let entries = field::<Vec<NetworkStatisticsEntry>>(m, "entries"@);
                if since_date is Err {
                    since_date
                } else if entries is Err {
                    entries
                } else {
                    Ok(
                        tagged(
                            Map::empty()
                                .insert("sinceDate"@, since_date->Ok_0)
                                .insert("entries"@, entries->Ok_0),
                            "networkStatistics"@,
                        ),
                    )
                }
            },
            _ => Err(Fault::TypeMismatch(at)),
        }
    }

    fn encode(&self) -> (j: Json) {
        proof {
            reveal(<NetworkStatistics as Wire>::wire);
        }
        let mut members: Vec<Member> = Vec::new();
        put(&mut members, "sinceDate", self.since_date.encode());
        put(&mut members, "entries", self.entries.encode());
        seal(members, "networkStatistics")
    }

    fn decode(j: &Json, at: &str) -> (r: Result<Self, DecodeError>) {
        proof {
            reveal(<NetworkStatistics as Wire>::wire);
            reveal(<NetworkStatistics as Wire>::parse);
        }
        let members = members_of(j, at)?;
        let since_date = read_field::<i32>(members, "sinceDate")?;
        let entries = read_field::<Vec<NetworkStatisticsEntry>>(members, "entries")?;
        Ok(NetworkStatistics { since_date, entries })
    }

    proof fn round_trip(&self, at: Seq<char>) {
        reveal(<NetworkStatistics as Wire>::wire);
        reveal(<NetworkStatistics as Wire>::parse);
        reveal_strlit("@type");
        reveal_strlit("entries");
        reveal_strlit("sinceDate");
        assert("@type"@.len() == 5);
        assert("entries"@.len() == 7);
        assert("sinceDate"@.len() == 9);
        self.since_date.round_trip("sinceDate"@);
        self.entries.round_trip("entries"@);
    }
}

impl Tagged for NetworkStatistics {
    open spec fn known(tag: Seq<char>) -> bool {
        tag == "networkStatistics"@
    }

    fn knows(tag: &str) -> (r: bool) {
        same_text(tag, "networkStatistics")
    }

    proof fn tag_known(&self) {
        reveal(<NetworkStatistics as Wire>::wire);
        assert(tag_of(self.wire()) == Some("networkStatistics"@));
        assert(Self::known("networkStatistics"@));
    }
}

/// Contains auto-download settings
#[derive(Debug, Clone, PartialEq)]
pub struct AutoDownloadSettings {
    /// True, if the auto-download is enabled
    pub is_auto_download_enabled: bool,
    /// The maximum size of a photo file to be auto-downloaded
    pub max_photo_file_size: i32,
    /// The maximum size of a video file to be auto-downloaded
    pub max_video_file_size: i32,
    /// The maximum size of other file types to be auto-downloaded
    pub max_other_file_size: i32,
    /// The maximum suggested bitrate for uploaded videos
    pub video_upload_bitrate: i32,
    /// True, if the beginning of videos needs to be preloaded for instant playback
    pub preload_large_videos: bool,
    /// True, if the next audio track needs to be preloaded while the user is listening to an audio
    /// file
    pub preload_next_audio: bool,
    /// True, if "use less data for calls" option needs to be enabled
    pub use_less_data_for_calls: bool,
}

impl Wire for AutoDownloadSettings {
    #[verifier::opaque]
    open spec fn wire(&self) -> Doc {
        tagged(
            Map::empty()
                .insert("isAutoDownloadEnabled"@, self.is_auto_download_enabled.wire())
                .insert("maxPhotoFileSize"@, self.max_photo_file_size.wire())
                .insert("maxVideoFileSize"@, self.max_video_file_size.wire())
                .insert("maxOtherFileSize"@, self.max_other_file_size.wire())
                .insert("videoUploadBitrate"@, self.video_upload_bitrate.wire())
                .insert("preloadLargeVideos"@, self.preload_large_videos.wire())
                .insert("preloadNextAudio"@, self.preload_next_audio.wire())
                .insert("useLessDataForCalls"@, self.use_less_data_for_calls.wire()),
            "autoDownloadSettings"@,
        )
    }

    #[verifier::opaque]
    open spec fn parse(d: Doc, at: Seq<char>) -> Result<Doc, Fault> {
        match d {
            Doc::Object(m) => {
                let is_auto_download_enabled = field::<bool>(m, "isAutoDownloadEnabled"@);
                let max_photo_file_size = field::<i32>(m, "maxPhotoFileSize"@);
                let max_video_file_size = field::<i32>(m, "maxVideoFileSize"@);
                let max_other_file_size = field::<i32>(m, "maxOtherFileSize"@);
                let video_upload_bitrate = field::<i32>(m, "videoUploadBitrate"@);
                let preload_large_videos = field::<bool>(m, "preloadLargeVideos"@);
                let preload_next_audio = field::<bool>(m, "preloadNextAudio"@);
                let use_less_data_for_calls = field::<bool>(m, "useLessDataForCalls"@);
                if is_auto_download_enabled is Err {
                    is_auto_download_enabled
                } else if max_photo_file_size is Err {
                    max_photo_file_size
                } else if max_video_file_size is Err {
                    max_video_file_size
                } else if max_other_file_size is Err {
                    max_other_file_size
                } else if video_upload_bitrate is Err {
                    video_upload_bitrate
                } else if preload_large_videos is Err {
                    preload_large_videos
                } else if preload_next_audio is Err {
                    preload_next_audio
                } else if use_less_data_for_calls is Err {
                    use_less_data_for_calls
                } else {
                    Ok(
                        tagged(
                            Map::empty()
                                .insert("isAutoDownloadEnabled"@, is_auto_download_enabled->Ok_0)
                                .insert("maxPhotoFileSize"@, max_photo_file_size->Ok_0)
                                .insert("maxVideoFileSize"@, max_video_file_size->Ok_0)
                                .insert("maxOtherFileSize"@, max_other_file_size->Ok_0)
                                .insert("videoUploadBitrate"@, video_upload_bitrate->Ok_0)
                                .insert("preloadLargeVideos"@, preload_large_videos->Ok_0)
                                .insert("preloadNextAudio"@, preload_next_audio->Ok_0)
                                .insert("useLessDataForCalls"@, use_less_data_for_calls->Ok_0),
                            "autoDownloadSettings"@,
                        ),
                    )
                }
            },
            _ => Err(Fault::TypeMismatch(at)),
        }
    }

    fn encode(&self) -> (j: Json) {
        proof {
            reveal(<AutoDownloadSettings as Wire>::wire);
        }
        let mut members: Vec<Member> = Vec::new();
        put(&mut members, "isAutoDownloadEnabled", self.is_auto_download_enabled.encode());
        put(&mut members, "maxPhotoFileSize", self.max_photo_file_size.encode());
        put(&mut members, "maxVideoFileSize", self.max_video_file_size.encode());
        put(&mut members, "maxOtherFileSize", self.max_other_file_size.encode());
        put(&mut members, "videoUploadBitrate", self.video_upload_bitrate.encode());
        put(&mut members, "preloadLargeVideos", self.preload_large_videos.encode());
        put(&mut members, "preloadNextAudio", self.preload_next_audio.encode());
        put(&mut members, "useLessDataForCalls", self.use_less_data_for_calls.encode());
        seal(members, "autoDownloadSettings")
    }

    fn decode(j: &Json, at: &str) -> (r: Result<Self, DecodeError>) {
        proof {
            reveal(<AutoDownloadSettings as Wire>::wire);
            reveal(<AutoDownloadSettings as Wire>::parse);
        }
        let members = members_of(j, at)?;
        let is_auto_download_enabled = read_field::<bool>(members, "isAutoDownloadEnabled")?;
        let max_photo_file_size = read_field::<i32>(members, "maxPhotoFileSize")?;
        let max_video_file_size = read_field::<i32>(members, "maxVideoFileSize")?;
        let max_other_file_size = read_field::<i32>(members, "maxOtherFileSize")?;
        let video_upload_bitrate = read_field::<i32>(members, "videoUploadBitrate")?;
        let preload_large_videos = read_field::<bool>(members, "preloadLargeVideos")?;
        let preload_next_audio = read_field::<bool>(members, "preloadNextAudio")?;
        let use_less_data_for_calls = read_field::<bool>(members, "useLessDataForCalls")?;
        Ok(AutoDownloadSettings {
            is_auto_download_enabled,
            max_photo_file_size,
            max_video_file_size,
            max_other_file_size,
            video_upload_bitrate,
            preload_large_videos,
            preload_next_audio,
            use_less_data_for_calls,
        })
    }

    proof fn round_trip(&self, at: Seq<char>) {
        reveal(<AutoDownloadSettings as Wire>::wire);
        reveal(<AutoDownloadSettings as Wire>::parse);
        reveal_strlit("@type");
        reveal_strlit("isAutoDownloadEnabled");
        reveal_strlit("maxOtherFileSize");
        reveal_strlit("maxPhotoFileSize");
        reveal_strlit("maxVideoFileSize");
        reveal_strlit("preloadLargeVideos");
        reveal_strlit("preloadNextAudio");
        reveal_strlit("useLessDataForCalls");
        reveal_strlit("videoUploadBitrate");
        assert("@type"@.len() == 5);
        assert("isAutoDownloadEnabled"@.len() == 21);
        assert("maxOtherFileSize"@.len() == 16 && "maxOtherFileSize"@[3] == 'O');
        assert("maxPhotoFileSize"@.len() == 16 && "maxPhotoFileSize"@[3] == 'P');
        assert("maxVideoFileSize"@.len() == 16 && "maxVideoFileSize"@[3] == 'V');
        assert("preloadLargeVideos"@.len() == 18 && "preloadLargeVideos"@[0] == 'p');
        assert("preloadNextAudio"@.len() == 16 && "preloadNextAudio"@[3] == 'l');
        assert("useLessDataForCalls"@.len() == 19);
        assert("videoUploadBitrate"@.len() == 18 && "videoUploadBitrate"@[0] == 'v');
        self.is_auto_download_enabled.round_trip("isAutoDownloadEnabled"@);
        self.max_photo_file_size.round_trip("maxPhotoFileSize"@);
        self.max_video_file_size.round_trip("maxVideoFileSize"@);
        self.max_other_file_size.round_trip("maxOtherFileSize"@);
        self.video_upload_bitrate.round_trip("videoUploadBitrate"@);
        self.preload_large_videos.round_trip("preloadLargeVideos"@);
        self.preload_next_audio.round_trip("preloadNextAudio"@);
        self.use_less_data_for_calls.round_trip("useLessDataForCalls"@);
    }
}

impl Tagged for AutoDownloadSettings {
    open spec fn known(tag: Seq<char>) -> bool {
        tag == "autoDownloadSettings"@
    }

    fn knows(tag: &str) -> (r: bool) {
        same_text(tag, "autoDownloadSettings")
    }

    proof fn tag_known(&self) {
        reveal(<AutoDownloadSettings as Wire>::wire);
        assert(tag_of(self.wire()) == Some("autoDownloadSettings"@));
        assert(Self::known("autoDownloadSettings"@));
    }
}

/// Contains auto-download settings presets for the user
#[derive(Debug, Clone, PartialEq)]
pub struct AutoDownloadSettingsPresets {
    /// Preset with lowest settings; supposed to be used by default when roaming
    pub low: AutoDownloadSettings,
    /// Preset with medium settings; supposed to be used by default when using mobile data
    pub medium: AutoDownloadSettings,
    /// Preset with highest settings; supposed to be used by default when connected on Wi-Fi
    pub high: AutoDownloadSettings,
}

impl Wire for AutoDownloadSettingsPresets {
    #[verifier::opaque]
    open spec fn wire(&self) -> Doc {
        tagged(
            Map::empty()
                .insert("low"@, self.low.wire())
                .insert("medium"@, self.medium.wire())
                .insert("high"@, self.high.wire()),
            "autoDownloadSettingsPresets"@,
        )
    }

    #[verifier::opaque]
    open spec fn parse(d: Doc, at: Seq<char>) -> Result<Doc, Fault> {
        match d {
            Doc::Object(m) => {
                let low = field::<AutoDownloadSettings>(m, "low"@);
                let medium = field::<AutoDownloadSettings>(m, "medium"@);
                let high = field::<AutoDownloadSettings>(m, "high"@);
                if low is Err {
                    low
                } else if medium is Err {
                    medium
                } else if high is Err {
                    high
                } else {
                    Ok(
                        tagged(
                            Map::empty()
                                .insert("low"@, low->Ok_0)
                                .insert("medium"@, medium->Ok_0)
                                .insert("high"@, high->Ok_0),
                            "autoDownloadSettingsPresets"@,
                        ),
                    )
                }
            },
            _ => Err(Fault::TypeMismatch(at)),
        }
    }

    fn encode(&self) -> (j: Json) {
        proof {
            reveal(<AutoDownloadSettingsPresets as Wire>::wire);
        }
        let mut members: Vec<Member> = Vec::new();
        put(&mut members, "low", self.low.encode());
        put(&mut members, "medium", self.medium.encode());
        put(&mut members, "high", self.high.encode());
        seal(members, "autoDownloadSettingsPresets")
    }

    fn decode(j: &Json, at: &str) -> (r: Result<Self, DecodeError>) {
        proof {
            reveal(<AutoDownloadSettingsPresets as Wire>::wire);
            reveal(<AutoDownloadSettingsPresets as Wire>::parse);
        }
        let members = members_of(j, at)?;
        let low = read_field::<AutoDownloadSettings>(members, "low")?;
        let medium = read_field::<AutoDownloadSettings>(members, "medium")?;
        let high = read_field::<AutoDownloadSettings>(members, "high")?;
        Ok(AutoDownloadSettingsPresets { low, medium, high })
    }

    proof fn round_trip(&self, at: Seq<char>) {
        reveal(<AutoDownloadSettingsPresets as Wire>::wire);
        reveal(<AutoDownloadSettingsPresets as Wire>::parse);
        reveal_strlit("@type");
        reveal_strlit("high");
        reveal_strlit("low");
        reveal_strlit("medium");
        assert("@type"@.len() == 5);
        assert("high"@.len() == 4);
        assert("low"@.len() == 3);
        assert("medium"@.len() == 6);
        self.low.round_trip("low"@);
        self.medium.round_trip("medium"@);
        self.high.round_trip("high"@);
    }
}

impl Tagged for AutoDownloadSettingsPresets {
    open spec fn known(tag: Seq<char>) -> bool {
        tag == "autoDownloadSettingsPresets"@
    }

    fn knows(tag: &str) -> (r: bool) {
        same_text(tag, "autoDownloadSettingsPresets")
    }

    proof fn tag_known(&self) {
        reveal(<AutoDownloadSettingsPresets as Wire>::wire);
        assert(tag_of(self.wire()) == Some("autoDownloadSettingsPresets"@));
        assert(Self::known("autoDownloadSettingsPresets"@));
    }
}

/// Currently waiting for the network to become available. Use setNetworkType to change the
/// available network type
#[derive(Debug, Clone, PartialEq)]
pub struct ConnectionStateWaitingForNetwork {}

impl Wire for ConnectionStateWaitingForNetwork {
    #[verifier::opaque]
    open spec fn wire(&self) -> Doc {
        tagged(Map::empty(), "connectionStateWaitingForNetwork"@)
    }

    #[verifier::opaque]
    open spec fn parse(d: Doc, at: Seq<char>) -> Result<Doc, Fault> {
        match d {
            Doc::Object(_) => Ok(tagged(Map::empty(), "connectionStateWaitingForNetwork"@)),
            _ => Err(Fault::TypeMismatch(at)),
        }
    }

    fn encode(&self) -> (j: Json) {
        proof {
            reveal(<ConnectionStateWaitingForNetwork as Wire>::wire);
        }
        seal(Vec::new(), "connectionStateWaitingForNetwork")
    }

    fn decode(j: &Json, at: &str) -> (r: Result<Self, DecodeError>) {
        proof {
            reveal(<ConnectionStateWaitingForNetwork as Wire>::wire);
            reveal(<ConnectionStateWaitingForNetwork as Wire>::parse);
        }
        let _ = members_of(j, at)?;
        Ok(ConnectionStateWaitingForNetwork {})
    }

    proof fn round_trip(&self, at: Seq<char>) {
        reveal(<ConnectionStateWaitingForNetwork as Wire>::wire);
        reveal(<ConnectionStateWaitingForNetwork as Wire>::parse);
    }
}

impl Tagged for ConnectionStateWaitingForNetwork {
    open spec fn known(tag: Seq<char>) -> bool {
        tag == "connectionStateWaitingForNetwork"@
    }

    fn knows(tag: &str) -> (r: bool) {
        same_text(tag, "connectionStateWaitingForNetwork")
    }

    proof fn tag_known(&self) {
        reveal(<ConnectionStateWaitingForNetwork as Wire>::wire);
        assert(tag_of(self.wire()) == Some("connectionStateWaitingForNetwork"@));
        assert(Self::known("connectionStateWaitingForNetwork"@));
    }
}

/// Currently establishing a connection with a proxy server
#[derive(Debug, Clone, PartialEq)]
pub struct ConnectionStateConnectingToProxy {}

impl Wire for ConnectionStateConnectingToProxy {
    #[verifier::opaque]
    open spec fn wire(&self) -> Doc {
        tagged(Map::empty(), "connectionStateConnectingToProxy"@)
    }

    #[verifier::opaque]
    open spec fn parse(d: Doc, at: Seq<char>) -> Result<Doc, Fault> {
        match d {
            Doc::Object(_) => Ok(tagged(Map::empty(), "connectionStateConnectingToProxy"@)),
            _ => Err(Fault::TypeMismatch(at)),
        }
    }

    fn encode(&self) -> (j: Json) {
        proof {
            reveal(<ConnectionStateConnectingToProxy as Wire>::wire);
        }
        seal(Vec::new(), "connectionStateConnectingToProxy")
    }

    fn decode(j: &Json, at: &str) -> (r: Result<Self, DecodeError>) {
        proof {
            reveal(<ConnectionStateConnectingToProxy as Wire>::wire);
            reveal(<ConnectionStateConnectingToProxy as Wire>::parse);
        }
        let _ = members_of(j, at)?;
        Ok(ConnectionStateConnectingToProxy {})
    }

    proof fn round_trip(&self, at: Seq<char>) {
        reveal(<ConnectionStateConnectingToProxy as Wire>::wire);
        reveal(<ConnectionStateConnectingToProxy as Wire>::parse);
    }
}

impl Tagged for ConnectionStateConnectingToProxy {
    open spec fn known(tag: Seq<char>) -> bool {
        tag == "connectionStateConnectingToProxy"@
    }

    fn knows(tag: &str) -> (r: bool) {
        same_text(tag, "connectionStateConnectingToProxy")
    }

    proof fn tag_known(&self) {
        reveal(<ConnectionStateConnectingToProxy as Wire>::wire);
        assert(tag_of(self.wire()) == Some("connectionStateConnectingToProxy"@));
        assert(Self::known("connectionStateConnectingToProxy"@));
    }
}

/// Currently establishing a connection to the Telegram servers
#[derive(Debug, Clone, PartialEq)]
pub struct ConnectionStateConnecting {}

impl Wire for ConnectionStateConnecting {
    #[verifier::opaque]
    open spec fn wire(&self) -> Doc {
        tagged(Map::empty(), "connectionStateConnecting"@)
    }

    #[verifier::opaque]
    open spec fn parse(d: Doc, at: Seq<char>) -> Result<Doc, Fault> {
        match d {
            Doc::Object(_) => Ok(tagged(Map::empty(), "connectionStateConnecting"@)),
            _ => Err(Fault::TypeMismatch(at)),
        }
    }

    fn encode(&self) -> (j: Json) {
        proof {
            reveal(<ConnectionStateConnecting as Wire>::wire);
        }
        seal(Vec::new(), "connectionStateConnecting")
    }

    fn decode(j: &Json, at: &str) -> (r: Result<Self, DecodeError>) {
        proof {
            reveal(<ConnectionStateConnecting as Wire>::wire);
            reveal(<ConnectionStateConnecting as Wire>::parse);
        }
        let _ = members_of(j, at)?;
        Ok(ConnectionStateConnecting {})
    }

    proof fn round_trip(&self, at: Seq<char>) {
        reveal(<ConnectionStateConnecting as Wire>::wire);
        reveal(<ConnectionStateConnecting as Wire>::parse);
    }
}

impl Tagged for ConnectionStateConnecting {
    open spec fn known(tag: Seq<char>) -> bool {
        tag == "connectionStateConnecting"@
    }

    fn knows(tag: &str) -> (r: bool) {
        same_text(tag, "connectionStateConnecting")
    }

    proof fn tag_known(&self) {
        reveal(<ConnectionStateConnecting as Wire>::wire);
        assert(tag_of(self.wire()) == Some("connectionStateConnecting"@));
        assert(Self::known("connectionStateConnecting"@));
    }
}

/// Downloading data received while the client was offline
#[derive(Debug, Clone, PartialEq)]
pub struct ConnectionStateUpdating {}

impl Wire for ConnectionStateUpdating {
    #[verifier::opaque]
    open spec fn wire(&self) -> Doc {
        tagged(Map::empty(), "connectionStateUpdating"@)
    }

    #[verifier::opaque]
    open spec fn parse(d: Doc, at: Seq<char>) -> Result<Doc, Fault> {
        match d {
            Doc::Object(_) => Ok(tagged(Map::empty(), "connectionStateUpdating"@)),
            _ => Err(Fault::TypeMismatch(at)),
        }
    }

    fn encode(&self) -> (j: Json) {
        proof {
            reveal(<ConnectionStateUpdating as Wire>::wire);
        }
        seal(Vec::new(), "connectionStateUpdating")
    }

    fn decode(j: &Json, at: &str) -> (r: Result<Self, DecodeError>) {
        proof {
            reveal(<ConnectionStateUpdating as Wire>::wire);
            reveal(<ConnectionStateUpdating as Wire>::parse);
        }
        let _ = members_of(j, at)?;
        Ok(ConnectionStateUpdating {})
    }

    proof fn round_trip(&self, at: Seq<char>) {
        reveal(<ConnectionStateUpdating as Wire>::wire);
        reveal(<ConnectionStateUpdating as Wire>::parse);
    }
}

impl Tagged for ConnectionStateUpdating {
    open spec fn known(tag: Seq<char>) -> bool {
        tag == "connectionStateUpdating"@
    }

    fn knows(tag: &str) -> (r: bool) {
        same_text(tag, "connectionStateUpdating")
    }

    proof fn tag_known(&self) {
        reveal(<ConnectionStateUpdating as Wire>::wire);
        assert(tag_of(self.wire()) == Some("connectionStateUpdating"@));
        assert(Self::known("connectionStateUpdating"@));
    }
}

/// There is a working connection to the Telegram servers
#[derive(Debug, Clone, PartialEq)]
pub struct ConnectionStateReady {}

impl Wire for ConnectionStateReady {
    #[verifier::opaque]
    open spec fn wire(&self) -> Doc {
        tagged(Map::empty(), "connectionStateReady"@)
    }

    #[verifier::opaque]
    open spec fn parse(d: Doc, at: Seq<char>) -> Result<Doc, Fault> {
        match d {
            Doc::Object(_) => Ok(tagged(Map::empty(), "connectionStateReady"@)),
            _ => Err(Fault::TypeMismatch(at)),
        }
    }

    fn encode(&self) -> (j: Json) {
        proof {
            reveal(<ConnectionStateReady as Wire>::wire);
        }
        seal(Vec::new(), "connectionStateReady")
    }

    fn decode(j: &Json, at: &str) -> (r: Result<Self, DecodeError>) {
        proof {
            reveal(<ConnectionStateReady as Wire>::wire);
            reveal(<ConnectionStateReady as Wire>::parse);
        }
        let _ = members_of(j, at)?;
        Ok(ConnectionStateReady {})
    }

    proof fn round_trip(&self, at: Seq<char>) {
        reveal(<ConnectionStateReady as Wire>::wire);
        reveal(<ConnectionStateReady as Wire>::parse);
    }
}

impl Tagged for ConnectionStateReady {
    open spec fn known(tag: Seq<char>) -> bool {
        tag == "connectionStateReady"@
    }

    fn knows(tag: &str) -> (r: bool) {
        same_text(tag, "connectionStateReady")
    }

    proof fn tag_known(&self) {
        reveal(<ConnectionStateReady as Wire>::wire);
        assert(tag_of(self.wire()) == Some("connectionStateReady"@));
        assert(Self::known("connectionStateReady"@));
    }
}

/// Describes the current state of the connection to Telegram servers
#[derive(Debug, Clone, PartialEq)]
pub enum ConnectionState {
    ConnectionStateWaitingForNetwork(ConnectionStateWaitingForNetwork),
    ConnectionStateConnectingToProxy(ConnectionStateConnectingToProxy),
    ConnectionStateConnecting(ConnectionStateConnecting),
    ConnectionStateUpdating(ConnectionStateUpdating),
    ConnectionStateReady(ConnectionStateReady),
}

impl Wire for ConnectionState {
    #[verifier::opaque]
    open spec fn wire(&self) -> Doc {
        match self {
            Self::ConnectionStateWaitingForNetwork(p) => p.wire(),
            Self::ConnectionStateConnectingToProxy(p) => p.wire(),
            Self::ConnectionStateConnecting(p) => p.wire(),
            Self::ConnectionStateUpdating(p) => p.wire(),
            Self::ConnectionStateReady(p) => p.wire(),
        }
    }

    #[verifier::opaque]
    open spec fn parse(d: Doc, at: Seq<char>) -> Result<Doc, Fault> {
        match d {
            Doc::Object(_) => match tag_of(d) {
                Some(t) => if t == "connectionStateWaitingForNetwork"@ {
                    ConnectionStateWaitingForNetwork::parse(d, at)
                } else if t == "connectionStateConnectingToProxy"@ {
                    ConnectionStateConnectingToProxy::parse(d, at)
                } else if t == "connectionStateConnecting"@ {
                    ConnectionStateConnecting::parse(d, at)
                } else if t == "connectionStateUpdating"@ {
                    ConnectionStateUpdating::parse(d, at)
                } else if t == "connectionStateReady"@ {
                    ConnectionStateReady::parse(d, at)
                } else {
                    Err(Fault::UnknownVariant(t))
                },
                None => Err(Fault::MissingDiscriminator),
            },
            _ => Err(Fault::TypeMismatch(at)),
        }
    }

    fn encode(&self) -> (j: Json) {
        proof {
            reveal(<ConnectionState as Wire>::wire);
        }
        match self {
            Self::ConnectionStateWaitingForNetwork(p) => p.encode(),
            Self::ConnectionStateConnectingToProxy(p) => p.encode(),
            Self::ConnectionStateConnecting(p) => p.encode(),
            Self::ConnectionStateUpdating(p) => p.encode(),
            Self::ConnectionStateReady(p) => p.encode(),
        }
    }

    fn decode(j: &Json, at: &str) -> (r: Result<Self, DecodeError>) {
        proof {
            reveal(<ConnectionState as Wire>::wire);
            reveal(<ConnectionState as Wire>::parse);
        }
        let members = members_of(j, at)?;
        let tag = discriminator(members)?;
        if same_text(tag, "connectionStateWaitingForNetwork") {
            Ok(
                Self::ConnectionStateWaitingForNetwork(
                    ConnectionStateWaitingForNetwork::decode(j, at)?,
                ),
            )
        } else if same_text(tag, "connectionStateConnectingToProxy") {
            Ok(
                Self::ConnectionStateConnectingToProxy(
                    ConnectionStateConnectingToProxy::decode(j, at)?,
                ),
            )
        } else if same_text(tag, "connectionStateConnecting") {
            Ok(Self::ConnectionStateConnecting(ConnectionStateConnecting::decode(j, at)?))
        } else if same_text(tag, "connectionStateUpdating") {
            Ok(Self::ConnectionStateUpdating(ConnectionStateUpdating::decode(j, at)?))
        } else if same_text(tag, "connectionStateReady") {
            Ok(Self::ConnectionStateReady(ConnectionStateReady::decode(j, at)?))
        } else {
            Err(DecodeError::UnknownVariant(tag.to_owned()))
        }
    }

    proof fn round_trip(&self, at: Seq<char>) {
        reveal(<ConnectionState as Wire>::wire);
        reveal(<ConnectionState as Wire>::parse);
        reveal_strlit("connectionStateConnecting");
        reveal_strlit("connectionStateConnectingToProxy");
        reveal_strlit("connectionStateReady");
        reveal_strlit("connectionStateUpdating");
        reveal_strlit("connectionStateWaitingForNetwork");
        assert("connectionStateConnecting"@.len() == 25);
        assert({
            &&& "connectionStateConnectingToProxy"@.len() == 32
            &&& "connectionStateConnectingToProxy"@[15] == 'C'
        });
        assert("connectionStateReady"@.len() == 20);
        assert("connectionStateUpdating"@.len() == 23);
        assert({
            &&& "connectionStateWaitingForNetwork"@.len() == 32
            &&& "connectionStateWaitingForNetwork"@[15] == 'W'
        });
        match self {
            Self::ConnectionStateWaitingForNetwork(p) => {
                p.tag_known();
                p.round_trip(at);
            },
            Self::ConnectionStateConnectingToProxy(p) => {
                p.tag_known();
                p.round_trip(at);
            },
            Self::ConnectionStateConnecting(p) => {
                p.tag_known();
                p.round_trip(at);
            },
            Self::ConnectionStateUpdating(p) => {
                p.tag_known();
                p.round_trip(at);
            },
            Self::ConnectionStateReady(p) => {
                p.tag_known();
                p.round_trip(at);
            },
        }
    }
}

impl Tagged for ConnectionState {
    open spec fn known(tag: Seq<char>) -> bool {
        ||| tag == "connectionStateWaitingForNetwork"@
        ||| tag == "connectionStateConnectingToProxy"@
        ||| tag == "connectionStateConnecting"@
        ||| tag == "connectionStateUpdating"@
        ||| tag == "connectionStateReady"@
    }

    fn knows(tag: &str) -> (r: bool) {
        same_text(tag, "connectionStateWaitingForNetwork")
            || same_text(tag, "connectionStateConnectingToProxy")
            || same_text(tag, "connectionStateConnecting")
            || same_text(tag, "connectionStateUpdating")
            || same_text(tag, "connectionStateReady")
    }

    proof fn tag_known(&self) {
        reveal(<ConnectionState as Wire>::wire);
        match self {
            Self::ConnectionStateWaitingForNetwork(p) => p.tag_known(),
            Self::ConnectionStateConnectingToProxy(p) => p.tag_known(),
            Self::ConnectionStateConnecting(p) => p.tag_known(),
            Self::ConnectionStateUpdating(p) => p.tag_known(),
            Self::ConnectionStateReady(p) => p.tag_known(),
        }
    }
}

impl Union for ConnectionState {
    proof fn unknown_rejected(d: Doc, at: Seq<char>) {
        reveal(<ConnectionState as Wire>::parse);
    }

    proof fn untagged_rejected(d: Doc, at: Seq<char>) {
        reveal(<ConnectionState as Wire>::parse);
    }
}

/// A category containing frequently used private chats with non-bot users
#[derive(Debug, Clone, PartialEq)]
pub struct TopChatCategoryUsers {}

impl Wire for TopChatCategoryUsers {
    #[verifier::opaque]
    open spec fn wire(&self) -> Doc {
        tagged(Map::empty(), "topChatCategoryUsers"@)
    }

    #[verifier::opaque]
    open spec fn parse(d: Doc, at: Seq<char>) -> Result<Doc, Fault> {
        match d {
            Doc::Object(_) => Ok(tagged(Map::empty(), "topChatCategoryUsers"@)),
            _ => Err(Fault::TypeMismatch(at)),
        }
    }

    fn encode(&self) -> (j: Json) {
        proof {
            reveal(<TopChatCategoryUsers as Wire>::wire);
        }
        seal(Vec::new(), "topChatCategoryUsers")
    }

    fn decode(j: &Json, at: &str) -> (r: Result<Self, DecodeError>) {
        proof {
            reveal(<TopChatCategoryUsers as Wire>::wire);
            reveal(<TopChatCategoryUsers as Wire>::parse);
        }
        let _ = members_of(j, at)?;
        Ok(TopChatCategoryUsers {})
    }

    proof fn round_trip(&self, at: Seq<char>) {
        reveal(<TopChatCategoryUsers as Wire>::wire);
        reveal(<TopChatCategoryUsers as Wire>::parse);
    }
}

impl Tagged for TopChatCategoryUsers {
    open spec fn known(tag: Seq<char>) -> bool {
        tag == "topChatCategoryUsers"@
    }

    fn knows(tag: &str) -> (r: bool) {
        same_text(tag, "topChatCategoryUsers")
    }

    proof fn tag_known(&self) {
        reveal(<TopChatCategoryUsers as Wire>::wire);
        assert(tag_of(self.wire()) == Some("topChatCategoryUsers"@));
        assert(Self::known("topChatCategoryUsers"@));
    }
}

/// A category containing frequently used private chats with bot users
#[derive(Debug, Clone, PartialEq)]
pub struct TopChatCategoryBots {}

impl Wire for TopChatCategoryBots {
    #[verifier::opaque]
    open spec fn wire(&self) -> Doc {
        tagged(Map::empty(), "topChatCategoryBots"@)
    }

    #[verifier::opaque]
    open spec fn parse(d: Doc, at: Seq<char>) -> Result<Doc, Fault> {
        match d {
            Doc::Object(_) => Ok(tagged(Map::empty(), "topChatCategoryBots"@)),
            _ => Err(Fault::TypeMismatch(at)),
        }
    }

    fn encode(&self) -> (j: Json) {
        proof {
            reveal(<TopChatCategoryBots as Wire>::wire);
        }
        seal(Vec::new(), "topChatCategoryBots")
    }

    fn decode(j: &Json, at: &str) -> (r: Result<Self, DecodeError>) {
        proof {
            reveal(<TopChatCategoryBots as Wire>::wire);
            reveal(<TopChatCategoryBots as Wire>::parse);
        }
        let _ = members_of(j, at)?;
        Ok(TopChatCategoryBots {})
    }

    proof fn round_trip(&self, at: Seq<char>) {
        reveal(<TopChatCategoryBots as Wire>::wire);
        reveal(<TopChatCategoryBots as Wire>::parse);
    }
}

impl Tagged for TopChatCategoryBots {
    open spec fn known(tag: Seq<char>) -> bool {
        tag == "topChatCategoryBots"@
    }

    fn knows(tag: &str) -> (r: bool) {
        same_text(tag, "topChatCategoryBots")
    }

    proof fn tag_known(&self) {
        reveal(<TopChatCategoryBots as Wire>::wire);
        assert(tag_of(self.wire()) == Some("topChatCategoryBots"@));
        assert(Self::known("topChatCategoryBots"@));
    }
}

/// A category containing frequently used basic groups and supergroups
#[derive(Debug, Clone, PartialEq)]
pub struct TopChatCategoryGroups {}

impl Wire for TopChatCategoryGroups {
    #[verifier::opaque]
    open spec fn wire(&self) -> Doc {
        tagged(Map::empty(), "topChatCategoryGroups"@)
    }

    #[verifier::opaque]
    open spec fn parse(d: Doc, at: Seq<char>) -> Result<Doc, Fault> {
        match d {
            Doc::Object(_) => Ok(tagged(Map::empty(), "topChatCategoryGroups"@)),
            _ => Err(Fault::TypeMismatch(at)),
        }
    }

    fn encode(&self) -> (j: Json) {
        proof {
            reveal(<TopChatCategoryGroups as Wire>::wire);
        }
        seal(Vec::new(), "topChatCategoryGroups")
    }

    fn decode(j: &Json, at: &str) -> (r: Result<Self, DecodeError>) {
        proof {
            reveal(<TopChatCategoryGroups as Wire>::wire);
            reveal(<TopChatCategoryGroups as Wire>::parse);
        }
        let _ = members_of(j, at)?;
        Ok(TopChatCategoryGroups {})
    }

    proof fn round_trip(&self, at: Seq<char>) {
        reveal(<TopChatCategoryGroups as Wire>::wire);
        reveal(<TopChatCategoryGroups as Wire>::parse);
    }
}

impl Tagged for TopChatCategoryGroups {
    open spec fn known(tag: Seq<char>) -> bool {
        tag == "topChatCategoryGroups"@
    }

    fn knows(tag: &str) -> (r: bool) {
        same_text(tag, "topChatCategoryGroups")
    }

    proof fn tag_known(&self) {
        reveal(<TopChatCategoryGroups as Wire>::wire);
        assert(tag_of(self.wire()) == Some("topChatCategoryGroups"@));
        assert(Self::known("topChatCategoryGroups"@));
    }
}

/// A category containing frequently used channels
#[derive(Debug, Clone, PartialEq)]
pub struct TopChatCategoryChannels {}

impl Wire for TopChatCategoryChannels {
    #[verifier::opaque]
    open spec fn wire(&self) -> Doc {
        tagged(Map::empty(), "topChatCategoryChannels"@)
    }

    #[verifier::opaque]
    open spec fn parse(d: Doc, at: Seq<char>) -> Result<Doc, Fault> {
        match d {
            Doc::Object(_) => Ok(tagged(Map::empty(), "topChatCategoryChannels"@)),
            _ => Err(Fault::TypeMismatch(at)),
        }
    }

    fn encode(&self) -> (j: Json) {
        proof {
            reveal(<TopChatCategoryChannels as Wire>::wire);
        }
        seal(Vec::new(), "topChatCategoryChannels")
    }

    fn decode(j: &Json, at: &str) -> (r: Result<Self, DecodeError>) {
        proof {
            reveal(<TopChatCategoryChannels as Wire>::wire);
            reveal(<TopChatCategoryChannels as Wire>::parse);
        }
        let _ = members_of(j, at)?;
        Ok(TopChatCategoryChannels {})
    }

    proof fn round_trip(&self, at: Seq<char>) {
        reveal(<TopChatCategoryChannels as Wire>::wire);
        reveal(<TopChatCategoryChannels as Wire>::parse);
    }
}

impl Tagged for TopChatCategoryChannels {
    open spec fn known(tag: Seq<char>) -> bool {
        tag == "topChatCategoryChannels"@
    }

    fn knows(tag: &str) -> (r: bool) {
        same_text(tag, "topChatCategoryChannels")
    }

    proof fn tag_known(&self) {
        reveal(<TopChatCategoryChannels as Wire>::wire);
        assert(tag_of(self.wire()) == Some("topChatCategoryChannels"@));
        assert(Self::known("topChatCategoryChannels"@));
    }
}

/// A category containing frequently used chats with inline bots sorted by their usage in inline
/// mode
#[derive(Debug, Clone, PartialEq)]
pub struct TopChatCategoryInlineBots {}

impl Wire for TopChatCategoryInlineBots {
    #[verifier::opaque]
    open spec fn wire(&self) -> Doc {
        tagged(Map::empty(), "topChatCategoryInlineBots"@)
    }

    #[verifier::opaque]
    open spec fn parse(d: Doc, at: Seq<char>) -> Result<Doc, Fault> {
        match d {
            Doc::Object(_) => Ok(tagged(Map::empty(), "topChatCategoryInlineBots"@)),
            _ => Err(Fault::TypeMismatch(at)),
        }
    }

    fn encode(&self) -> (j: Json) {
        proof {
            reveal(<TopChatCategoryInlineBots as Wire>::wire);
        }
        seal(Vec::new(), "topChatCategoryInlineBots")
    }

    fn decode(j: &Json, at: &str) -> (r: Result<Self, DecodeError>) {
        proof {
            reveal(<TopChatCategoryInlineBots as Wire>::wire);
            reveal(<TopChatCategoryInlineBots as Wire>::parse);
        }
        let _ = members_of(j, at)?;
        Ok(TopChatCategoryInlineBots {})
    }

    proof fn round_trip(&self, at: Seq<char>) {
        reveal(<TopChatCategoryInlineBots as Wire>::wire);
        reveal(<TopChatCategoryInlineBots as Wire>::parse);
    }
}

impl Tagged for TopChatCategoryInlineBots {
    open spec fn known(tag: Seq<char>) -> bool {
        tag == "topChatCategoryInlineBots"@
    }

    fn knows(tag: &str) -> (r: bool) {
        same_text(tag, "topChatCategoryInlineBots")
    }

    proof fn tag_known(&self) {
        reveal(<TopChatCategoryInlineBots as Wire>::wire);
        assert(tag_of(self.wire()) == Some("topChatCategoryInlineBots"@));
        assert(Self::known("topChatCategoryInlineBots"@));
    }
}

/// A category containing frequently used chats used for calls
#[derive(Debug, Clone, PartialEq)]
pub struct TopChatCategoryCalls {}

impl Wire for TopChatCategoryCalls {
    #[verifier::opaque]
    open spec fn wire(&self) -> Doc {
        tagged(Map::empty(), "topChatCategoryCalls"@)
    }

    #[verifier::opaque]
    open spec fn parse(d: Doc, at: Seq<char>) -> Result<Doc, Fault> {
        match d {
            Doc::Object(_) => Ok(tagged(Map::empty(), "topChatCategoryCalls"@)),
            _ => Err(Fault::TypeMismatch(at)),
        }
    }

    fn encode(&self) -> (j: Json) {
        proof {
            reveal(<TopChatCategoryCalls as Wire>::wire);
        }
        seal(Vec::new(), "topChatCategoryCalls")
    }

    fn decode(j: &Json, at: &str) -> (r: Result<Self, DecodeError>) {
        proof {
            reveal(<TopChatCategoryCalls as Wire>::wire);
            reveal(<TopChatCategoryCalls as Wire>::parse);
        }
        let _ = members_of(j, at)?;
        Ok(TopChatCategoryCalls {})
    }

    proof fn round_trip(&self, at: Seq<char>) {
        reveal(<TopChatCategoryCalls as Wire>::wire);
        reveal(<TopChatCategoryCalls as Wire>::parse);
    }
}

impl Tagged for TopChatCategoryCalls {
    open spec fn known(tag: Seq<char>) -> bool {
        tag == "topChatCategoryCalls"@
    }

    fn knows(tag: &str) -> (r: bool) {
        same_text(tag, "topChatCategoryCalls")
    }

    proof fn tag_known(&self) {
        reveal(<TopChatCategoryCalls as Wire>::wire);
        assert(tag_of(self.wire()) == Some("topChatCategoryCalls"@));
        assert(Self::known("topChatCategoryCalls"@));
    }
}

/// A category containing frequently used chats used to forward messages
#[derive(Debug, Clone, PartialEq)]
pub struct TopChatCategoryForwardChats {}

impl Wire for TopChatCategoryForwardChats {
    #[verifier::opaque]
    open spec fn wire(&self) -> Doc {
        tagged(Map::empty(), "topChatCategoryForwardChats"@)
    }

    #[verifier::opaque]
    open spec fn parse(d: Doc, at: Seq<char>) -> Result<Doc, Fault> {
        match d {
            Doc::Object(_) => Ok(tagged(Map::empty(), "topChatCategoryForwardChats"@)),
            _ => Err(Fault::TypeMismatch(at)),
        }
    }

    fn encode(&self) -> (j: Json) {
        proof {
            reveal(<TopChatCategoryForwardChats as Wire>::wire);
        }
        seal(Vec::new(), "topChatCategoryForwardChats")
    }

    fn decode(j: &Json, at: &str) -> (r: Result<Self, DecodeError>) {
        proof {
            reveal(<TopChatCategoryForwardChats as Wire>::wire);
            reveal(<TopChatCategoryForwardChats as Wire>::parse);
        }
        let _ = members_of(j, at)?;
        Ok(TopChatCategoryForwardChats {})
    }

    proof fn round_trip(&self, at: Seq<char>) {
        reveal(<TopChatCategoryForwardChats as Wire>::wire);
        reveal(<TopChatCategoryForwardChats as Wire>::parse);
    }
}

impl Tagged for TopChatCategoryForwardChats {
    open spec fn known(tag: Seq<char>) -> bool {
        tag == "topChatCategoryForwardChats"@
    }

    fn knows(tag: &str) -> (r: bool) {
        same_text(tag, "topChatCategoryForwardChats")
    }

    proof fn tag_known(&self) {
        reveal(<TopChatCategoryForwardChats as Wire>::wire);
        assert(tag_of(self.wire()) == Some("topChatCategoryForwardChats"@));
        assert(Self::known("topChatCategoryForwardChats"@));
    }
}

/// Represents the categories of chats for which a list of frequently used chats can be retrieved
#[derive(Debug, Clone, PartialEq)]
pub enum TopChatCategory {
    TopChatCategoryUsers(TopChatCategoryUsers),
    TopChatCategoryBots(TopChatCategoryBots),
    TopChatCategoryGroups(TopChatCategoryGroups),
    TopChatCategoryChannels(TopChatCategoryChannels),
    TopChatCategoryInlineBots(TopChatCategoryInlineBots),
    TopChatCategoryCalls(TopChatCategoryCalls),
    TopChatCategoryForwardChats(TopChatCategoryForwardChats),
}

impl Wire for TopChatCategory {
    #[verifier::opaque]
    open spec fn wire(&self) -> Doc {
        match self {
            Self::TopChatCategoryUsers(p) => p.wire(),
            Self::TopChatCategoryBots(p) => p.wire(),
            Self::TopChatCategoryGroups(p) => p.wire(),
            Self::TopChatCategoryChannels(p) => p.wire(),
            Self::TopChatCategoryInlineBots(p) => p.wire(),
            Self::TopChatCategoryCalls(p) => p.wire(),
            Self::TopChatCategoryForwardChats(p) => p.wire(),
        }
    }

    #[verifier::opaque]
    open spec fn parse(d: Doc, at: Seq<char>) -> Result<Doc, Fault> {
        match d {
            Doc::Object(_) => match tag_of(d) {
                Some(t) => if t == "topChatCategoryUsers"@ {
                    TopChatCategoryUsers::parse(d, at)
                } else if t == "topChatCategoryBots"@ {
                    TopChatCategoryBots::parse(d, at)
                } else if t == "topChatCategoryGroups"@ {
                    TopChatCategoryGroups::parse(d, at)
                } else if t == "topChatCategoryChannels"@ {
                    TopChatCategoryChannels::parse(d, at)
                } else if t == "topChatCategoryInlineBots"@ {
                    TopChatCategoryInlineBots::parse(d, at)
                } else if t == "topChatCategoryCalls"@ {
                    TopChatCategoryCalls::parse(d, at)
                } else if t == "topChatCategoryForwardChats"@ {
                    TopChatCategoryForwardChats::parse(d, at)
                } else {
                    Err(Fault::UnknownVariant(t))
                },
                None => Err(Fault::MissingDiscriminator),
            },
            _ => Err(Fault::TypeMismatch(at)),
        }
    }

    fn encode(&self) -> (j: Json) {
        proof {
            reveal(<TopChatCategory as Wire>::wire);
        }
        match self {
            Self::TopChatCategoryUsers(p) => p.encode(),
            Self::TopChatCategoryBots(p) => p.encode(),
            Self::TopChatCategoryGroups(p) => p.encode(),
            Self::TopChatCategoryChannels(p) => p.encode(),
            Self::TopChatCategoryInlineBots(p) => p.encode(),
            Self::TopChatCategoryCalls(p) => p.encode(),
            Self::TopChatCategoryForwardChats(p) => p.encode(),
        }
    }

    fn decode(j: &Json, at: &str) -> (r: Result<Self, DecodeError>) {
        proof {
            reveal(<TopChatCategory as Wire>::wire);
            reveal(<TopChatCategory as Wire>::parse);
        }
        let members = members_of(j, at)?;
        let tag = discriminator(members)?;
        if same_text(tag, "topChatCategoryUsers") {
            Ok(Self::TopChatCategoryUsers(TopChatCategoryUsers::decode(j, at)?))
        } else if same_text(tag, "topChatCategoryBots") {
            Ok(Self::TopChatCategoryBots(TopChatCategoryBots::decode(j, at)?))
        } else if same_text(tag, "topChatCategoryGroups") {
            Ok(Self::TopChatCategoryGroups(TopChatCategoryGroups::decode(j, at)?))
        } else if same_text(tag, "topChatCategoryChannels") {
            Ok(Self::TopChatCategoryChannels(TopChatCategoryChannels::decode(j, at)?))
        } else if same_text(tag, "topChatCategoryInlineBots") {
            Ok(Self::TopChatCategoryInlineBots(TopChatCategoryInlineBots::decode(j, at)?))
        } else if same_text(tag, "topChatCategoryCalls") {
            Ok(Self::TopChatCategoryCalls(TopChatCategoryCalls::decode(j, at)?))
        } else if same_text(tag, "topChatCategoryForwardChats") {
            Ok(Self::TopChatCategoryForwardChats(TopChatCategoryForwardChats::decode(j, at)?))
        } else {
            Err(DecodeError::UnknownVariant(tag.to_owned()))
        }
    }

    proof fn round_trip(&self, at: Seq<char>) {
        reveal(<TopChatCategory as Wire>::wire);
        reveal(<TopChatCategory as Wire>::parse);
        reveal_strlit("topChatCategoryBots");
        reveal_strlit("topChatCategoryCalls");
        reveal_strlit("topChatCategoryChannels");
        reveal_strlit("topChatCategoryForwardChats");
        reveal_strlit("topChatCategoryGroups");
        reveal_strlit("topChatCategoryInlineBots");
        reveal_strlit("topChatCategoryUsers");
        assert("topChatCategoryBots"@.len() == 19);
        assert("topChatCategoryCalls"@.len() == 20 && "topChatCategoryCalls"@[15] == 'C');
        assert("topChatCategoryChannels"@.len() == 23);
        assert("topChatCategoryForwardChats"@.len() == 27);
        assert("topChatCategoryGroups"@.len() == 21);
        assert("topChatCategoryInlineBots"@.len() == 25);
        assert("topChatCategoryUsers"@.len() == 20 && "topChatCategoryUsers"@[15] == 'U');
        match self {
            Self::TopChatCategoryUsers(p) => {
                p.tag_known();
                p.round_trip(at);
            },
            Self::TopChatCategoryBots(p) => {
                p.tag_known();
                p.round_trip(at);
            },
            Self::TopChatCategoryGroups(p) => {
                p.tag_known();
                p.round_trip(at);
            },
            Self::TopChatCategoryChannels(p) => {
                p.tag_known();
                p.round_trip(at);
            },
            Self::TopChatCategoryInlineBots(p) => {
                p.tag_known();
                p.round_trip(at);
            },
            Self::TopChatCategoryCalls(p) => {
                p.tag_known();
                p.round_trip(at);
            },
            Self::TopChatCategoryForwardChats(p) => {
                p.tag_known();
                p.round_trip(at);
            },
        }
    }
}

impl Tagged for TopChatCategory {
    open spec fn known(tag: Seq<char>) -> bool {
        ||| tag == "topChatCategoryUsers"@
        ||| tag == "topChatCategoryBots"@
        ||| tag == "topChatCategoryGroups"@
        ||| tag == "topChatCategoryChannels"@
        ||| tag == "topChatCategoryInlineBots"@
        ||| tag == "topChatCategoryCalls"@
        ||| tag == "topChatCategoryForwardChats"@
    }

    fn knows(tag: &str) -> (r: bool) {
        same_text(tag, "topChatCategoryUsers")
            || same_text(tag, "topChatCategoryBots")
            || same_text(tag, "topChatCategoryGroups")
            || same_text(tag, "topChatCategoryChannels")
            || same_text(tag, "topChatCategoryInlineBots")
            || same_text(tag, "topChatCategoryCalls")
            || same_text(tag, "topChatCategoryForwardChats")
    }

    proof fn tag_known(&self) {
        reveal(<TopChatCategory as Wire>::wire);
        match self {
            Self::TopChatCategoryUsers(p) => p.tag_known(),
            Self::TopChatCategoryBots(p) => p.tag_known(),
            Self::TopChatCategoryGroups(p) => p.tag_known(),
            Self::TopChatCategoryChannels(p) => p.tag_known(),
            Self::TopChatCategoryInlineBots(p) => p.tag_known(),
            Self::TopChatCategoryCalls(p) => p.tag_known(),
            Self::TopChatCategoryForwardChats(p) => p.tag_known(),
        }
    }
}

impl Union for TopChatCategory {
    proof fn unknown_rejected(d: Doc, at: Seq<char>) {
        reveal(<TopChatCategory as Wire>::parse);
    }

    proof fn untagged_rejected(d: Doc, at: Seq<char>) {
        reveal(<TopChatCategory as Wire>::parse);
    }
}

/// A URL linking to a user
#[derive(Debug, Clone, PartialEq)]
pub struct TMeUrlTypeUser {
    /// Identifier of the user
    pub user_id: i32,
}

impl Wire for TMeUrlTypeUser {
    #[verifier::opaque]
    open spec fn wire(&self) -> Doc {
        tagged(
            Map::empty()
                .insert("userId"@, self.user_id.wire()),
            "tMeUrlTypeUser"@,
        )
    }

    #[verifier::opaque]
    open spec fn parse(d: Doc, at: Seq<char>) -> Result<Doc, Fault> {
        match d {
            Doc::Object(m) => {
                let user_id = field::<i32>(m, "userId"@);
                if user_id is Err {
                    user_id
                } else {
                    Ok(
                        tagged(
                            Map::empty()
                                .insert("userId"@, user_id->Ok_0),
                            "tMeUrlTypeUser"@,
                        ),
                    )
                }
            },
            _ => Err(Fault::TypeMismatch(at)),
        }
    }

    fn encode(&self) -> (j: Json) {
        proof {
            reveal(<TMeUrlTypeUser as Wire>::wire);
        }
        let mut members: Vec<Member> = Vec::new();
        put(&mut members, "userId", self.user_id.encode());
        seal(members, "tMeUrlTypeUser")
    }

    fn decode(j: &Json, at: &str) -> (r: Result<Self, DecodeError>) {
        proof {
            reveal(<TMeUrlTypeUser as Wire>::wire);
            reveal(<TMeUrlTypeUser as Wire>::parse);
        }
        let members = members_of(j, at)?;
        let user_id = read_field::<i32>(members, "userId")?;
        Ok(TMeUrlTypeUser { user_id })
    }

    proof fn round_trip(&self, at: Seq<char>) {
        reveal(<TMeUrlTypeUser as Wire>::wire);
        reveal(<TMeUrlTypeUser as Wire>::parse);
        reveal_strlit("@type");
        reveal_strlit("userId");
        assert("@type"@.len() == 5);
        assert("userId"@.len() == 6);
        self.user_id.round_trip("userId"@);
    }
}

impl Tagged for TMeUrlTypeUser {
    open spec fn known(tag: Seq<char>) -> bool {
        tag == "tMeUrlTypeUser"@
    }

    fn knows(tag: &str) -> (r: bool) {
        same_text(tag, "tMeUrlTypeUser")
    }

    proof fn tag_known(&self) {
        reveal(<TMeUrlTypeUser as Wire>::wire);
        assert(tag_of(self.wire()) == Some("tMeUrlTypeUser"@));
        assert(Self::known("tMeUrlTypeUser"@));
    }
}

/// A URL linking to a public supergroup or channel
#[derive(Debug, Clone, PartialEq)]
pub struct TMeUrlTypeSupergroup {
    /// Identifier of the supergroup or channel
    pub supergroup_id: i64,
}

impl Wire for TMeUrlTypeSupergroup {
    #[verifier::opaque]
    open spec fn wire(&self) -> Doc {
        tagged(
            Map::empty()
                .insert("supergroupId"@, self.supergroup_id.wire()),
            "tMeUrlTypeSupergroup"@,
        )
    }

    #[verifier::opaque]
    open spec fn parse(d: Doc, at: Seq<char>) -> Result<Doc, Fault> {
        match d {
            Doc::Object(m) => {
                let supergroup_id = field::<i64>(m, "supergroupId"@);
                if supergroup_id is Err {
                    supergroup_id
                } else {
                    Ok(
                        tagged(
                            Map::empty()
                                .insert("supergroupId"@, supergroup_id->Ok_0),
                            "tMeUrlTypeSupergroup"@,
                        ),
                    )
                }
            },
            _ => Err(Fault::TypeMismatch(at)),
        }
    }

    fn encode(&self) -> (j: Json) {
        proof {
            reveal(<TMeUrlTypeSupergroup as Wire>::wire);
        }
        let mut members: Vec<Member> = Vec::new();
        put(&mut members, "supergroupId", self.supergroup_id.encode());
        seal(members, "tMeUrlTypeSupergroup")
    }

    fn decode(j: &Json, at: &str) -> (r: Result<Self, DecodeError>) {
        proof {
            reveal(<TMeUrlTypeSupergroup as Wire>::wire);
            reveal(<TMeUrlTypeSupergroup as Wire>::parse);
        }
        let members = members_of(j, at)?;
        let supergroup_id = read_field::<i64>(members, "supergroupId")?;
        Ok(TMeUrlTypeSupergroup { supergroup_id })
    }

    proof fn round_trip(&self, at: Seq<char>) {
        reveal(<TMeUrlTypeSupergroup as Wire>::wire);
        reveal(<TMeUrlTypeSupergroup as Wire>::parse);
        reveal_strlit("@type");
        reveal_strlit("supergroupId");
        assert("@type"@.len() == 5);
        assert("supergroupId"@.len() == 12);
        self.supergroup_id.round_trip("supergroupId"@);
    }
}

impl Tagged for TMeUrlTypeSupergroup {
    open spec fn known(tag: Seq<char>) -> bool {
        tag == "tMeUrlTypeSupergroup"@
    }

    fn knows(tag: &str) -> (r: bool) {
        same_text(tag, "tMeUrlTypeSupergroup")
    }

    proof fn tag_known(&self) {
        reveal(<TMeUrlTypeSupergroup as Wire>::wire);
        assert(tag_of(self.wire()) == Some("tMeUrlTypeSupergroup"@));
        assert(Self::known("tMeUrlTypeSupergroup"@));
    }
}

/// A chat invite link
#[derive(Debug, Clone, PartialEq)]
pub struct TMeUrlTypeChatInvite {
    /// Chat invite link info
    pub info: ChatInviteLinkInfo,
}

impl Wire for TMeUrlTypeChatInvite {
    #[verifier::opaque]
    open spec fn wire(&self) -> Doc {
        tagged(
            Map::empty()
                .insert("info"@, self.info.wire()),
            "tMeUrlTypeChatInvite"@,
        )
    }

    #[verifier::opaque]
    open spec fn parse(d: Doc, at: Seq<char>) -> Result<Doc, Fault> {
        match d {
            Doc::Object(m) => {
                let info = field::<ChatInviteLinkInfo>(m, "info"@);
                if info is Err {
                    info
                } else {
                    Ok(
                        tagged(
                            Map::empty()
                                .insert("info"@, info->Ok_0),
                            "tMeUrlTypeChatInvite"@,
                        ),
                    )
                }
            },
            _ => Err(Fault::TypeMismatch(at)),
        }
    }

    fn encode(&self) -> (j: Json) {
        proof {
            reveal(<TMeUrlTypeChatInvite as Wire>::wire);
        }
        let mut members: Vec<Member> = Vec::new();
        put(&mut members, "info", self.info.encode());
        seal(members, "tMeUrlTypeChatInvite")
    }

    fn decode(j: &Json, at: &str) -> (r: Result<Self, DecodeError>) {
        proof {
            reveal(<TMeUrlTypeChatInvite as Wire>::wire);
            reveal(<TMeUrlTypeChatInvite as Wire>::parse);
        }
        let members = members_of(j, at)?;
        let info = read_field::<ChatInviteLinkInfo>(members, "info")?;
        Ok(TMeUrlTypeChatInvite { info })
    }

    proof fn round_trip(&self, at: Seq<char>) {
        reveal(<TMeUrlTypeChatInvite as Wire>::wire);
        reveal(<TMeUrlTypeChatInvite as Wire>::parse);
        reveal_strlit("@type");
        reveal_strlit("info");
        assert("@type"@.len() == 5);
        assert("info"@.len() == 4);
        self.info.round_trip("info"@);
    }
}

impl Tagged for TMeUrlTypeChatInvite {
    open spec fn known(tag: Seq<char>) -> bool {
        tag == "tMeUrlTypeChatInvite"@
    }

    fn knows(tag: &str) -> (r: bool) {
        same_text(tag, "tMeUrlTypeChatInvite")
    }

    proof fn tag_known(&self) {
        reveal(<TMeUrlTypeChatInvite as Wire>::wire);
        assert(tag_of(self.wire()) == Some("tMeUrlTypeChatInvite"@));
        assert(Self::known("tMeUrlTypeChatInvite"@));
    }
}

/// A URL linking to a sticker set
#[derive(Debug, Clone, PartialEq)]
pub struct TMeUrlTypeStickerSet {
    /// Identifier of the sticker set
    pub sticker_set_id: i64,
}

impl Wire for TMeUrlTypeStickerSet {
    #[verifier::opaque]
    open spec fn wire(&self) -> Doc {
        tagged(
            Map::empty()
                .insert("stickerSetId"@, wide_doc(self.sticker_set_id)),
            "tMeUrlTypeStickerSet"@,
        )
    }

    #[verifier::opaque]
    open spec fn parse(d: Doc, at: Seq<char>) -> Result<Doc, Fault> {
        match d {
            Doc::Object(m) => {
                let sticker_set_id = wide_field(m, "stickerSetId"@);
                if sticker_set_id is Err {
                    sticker_set_id
                } else {
                    Ok(
                        tagged(
                            Map::empty()
                                .insert("stickerSetId"@, sticker_set_id->Ok_0),
                            "tMeUrlTypeStickerSet"@,
                        ),
                    )
                }
            },
            _ => Err(Fault::TypeMismatch(at)),
        }
    }

    fn encode(&self) -> (j: Json) {
        proof {
            reveal(<TMeUrlTypeStickerSet as Wire>::wire);
        }
        let mut members: Vec<Member> = Vec::new();
        put(&mut members, "stickerSetId", encode_wide(self.sticker_set_id));
        seal(members, "tMeUrlTypeStickerSet")
    }

    fn decode(j: &Json, at: &str) -> (r: Result<Self, DecodeError>) {
        proof {
            reveal(<TMeUrlTypeStickerSet as Wire>::wire);
            reveal(<TMeUrlTypeStickerSet as Wire>::parse);
        }
        let members = members_of(j, at)?;
        let sticker_set_id = read_wide(members, "stickerSetId")?;
        Ok(TMeUrlTypeStickerSet { sticker_set_id })
    }

    proof fn round_trip(&self, at: Seq<char>) {
        reveal(<TMeUrlTypeStickerSet as Wire>::wire);
        reveal(<TMeUrlTypeStickerSet as Wire>::parse);
        reveal_strlit("@type");
        reveal_strlit("stickerSetId");
        assert("@type"@.len() == 5);
        assert("stickerSetId"@.len() == 12);
        lemma_wide_round_trip(self.sticker_set_id, "stickerSetId"@);
    }
}

impl Tagged for TMeUrlTypeStickerSet {
    open spec fn known(tag: Seq<char>) -> bool {
        tag == "tMeUrlTypeStickerSet"@
    }

    fn knows(tag: &str) -> (r: bool) {
        same_text(tag, "tMeUrlTypeStickerSet")
    }

    proof fn tag_known(&self) {
        reveal(<TMeUrlTypeStickerSet as Wire>::wire);
        assert(tag_of(self.wire()) == Some("tMeUrlTypeStickerSet"@));
        assert(Self::known("tMeUrlTypeStickerSet"@));
    }
}

/// Describes the type of a URL linking to an internal Telegram entity
#[derive(Debug, Clone, PartialEq)]
pub enum TMeUrlType {
    TMeUrlTypeUser(TMeUrlTypeUser),
    TMeUrlTypeSupergroup(TMeUrlTypeSupergroup),
    TMeUrlTypeChatInvite(Box<TMeUrlTypeChatInvite>),
    TMeUrlTypeStickerSet(TMeUrlTypeStickerSet),
}

impl Wire for TMeUrlType {
    #[verifier::opaque]
    open spec fn wire(&self) -> Doc {
        match self {
            Self::TMeUrlTypeUser(p) => p.wire(),
            Self::TMeUrlTypeSupergroup(p) => p.wire(),
            Self::TMeUrlTypeChatInvite(p) => p.wire(),
            Self::TMeUrlTypeStickerSet(p) => p.wire(),
        }
    }

    #[verifier::opaque]
    open spec fn parse(d: Doc, at: Seq<char>) -> Result<Doc, Fault> {
        match d {
            Doc::Object(_) => match tag_of(d) {
                Some(t) => if t == "tMeUrlTypeUser"@ {
                    TMeUrlTypeUser::parse(d, at)
                } else if t == "tMeUrlTypeSupergroup"@ {
                    TMeUrlTypeSupergroup::parse(d, at)
                } else if t == "tMeUrlTypeChatInvite"@ {
                    TMeUrlTypeChatInvite::parse(d, at)
                } else if t == "tMeUrlTypeStickerSet"@ {
                    TMeUrlTypeStickerSet::parse(d, at)
                } else {
                    Err(Fault::UnknownVariant(t))
                },
                None => Err(Fault::MissingDiscriminator),
            },
            _ => Err(Fault::TypeMismatch(at)),
        }
    }

    fn encode(&self) -> (j: Json) {
        proof {
            reveal(<TMeUrlType as Wire>::wire);
        }
        match self {
            Self::TMeUrlTypeUser(p) => p.encode(),
            Self::TMeUrlTypeSupergroup(p) => p.encode(),
            Self::TMeUrlTypeChatInvite(p) => p.encode(),
            Self::TMeUrlTypeStickerSet(p) => p.encode(),
        }
    }

    fn decode(j: &Json, at: &str) -> (r: Result<Self, DecodeError>) {
        proof {
            reveal(<TMeUrlType as Wire>::wire);
            reveal(<TMeUrlType as Wire>::parse);
        }
        let members = members_of(j, at)?;
        let tag = discriminator(members)?;
        if same_text(tag, "tMeUrlTypeUser") {
            Ok(Self::TMeUrlTypeUser(TMeUrlTypeUser::decode(j, at)?))
        } else if same_text(tag, "tMeUrlTypeSupergroup") {
            Ok(Self::TMeUrlTypeSupergroup(TMeUrlTypeSupergroup::decode(j, at)?))
        } else if same_text(tag, "tMeUrlTypeChatInvite") {
            Ok(Self::TMeUrlTypeChatInvite(Box::<TMeUrlTypeChatInvite>::decode(j, at)?))
        } else if same_text(tag, "tMeUrlTypeStickerSet") {
            Ok(Self::TMeUrlTypeStickerSet(TMeUrlTypeStickerSet::decode(j, at)?))
        } else {
            Err(DecodeError::UnknownVariant(tag.to_owned()))
        }
    }

    proof fn round_trip(&self, at: Seq<char>) {
        reveal(<TMeUrlType as Wire>::wire);
        reveal(<TMeUrlType as Wire>::parse);
        reveal_strlit("tMeUrlTypeChatInvite");
        reveal_strlit("tMeUrlTypeStickerSet");
        reveal_strlit("tMeUrlTypeSupergroup");
        reveal_strlit("tMeUrlTypeUser");
        assert("tMeUrlTypeChatInvite"@.len() == 20 && "tMeUrlTypeChatInvite"@[11] == 'h');
        assert("tMeUrlTypeStickerSet"@.len() == 20 && "tMeUrlTypeStickerSet"@[11] == 't');
        assert("tMeUrlTypeSupergroup"@.len() == 20 && "tMeUrlTypeSupergroup"@[11] == 'u');
        assert("tMeUrlTypeUser"@.len() == 14);
        match self {
            Self::TMeUrlTypeUser(p) => {
                p.tag_known();
                p.round_trip(at);
            },
            Self::TMeUrlTypeSupergroup(p) => {
                p.tag_known();
                p.round_trip(at);
            },
            Self::TMeUrlTypeChatInvite(p) => {
                (**p).tag_known();
                p.round_trip(at);
            },
            Self::TMeUrlTypeStickerSet(p) => {
                p.tag_known();
                p.round_trip(at);
            },
        }
    }
}

impl Tagged for TMeUrlType {
    open spec fn known(tag: Seq<char>) -> bool {
        ||| tag == "tMeUrlTypeUser"@
        ||| tag == "tMeUrlTypeSupergroup"@
        ||| tag == "tMeUrlTypeChatInvite"@
        ||| tag == "tMeUrlTypeStickerSet"@
    }

    fn knows(tag: &str) -> (r: bool) {
        same_text(tag, "tMeUrlTypeUser")
            || same_text(tag, "tMeUrlTypeSupergroup")
            || same_text(tag, "tMeUrlTypeChatInvite")
            || same_text(tag, "tMeUrlTypeStickerSet")
    }

    proof fn tag_known(&self) {
        reveal(<TMeUrlType as Wire>::wire);
        match self {
            Self::TMeUrlTypeUser(p) => p.tag_known(),
            Self::TMeUrlTypeSupergroup(p) => p.tag_known(),
            Self::TMeUrlTypeChatInvite(p) => (**p).tag_known(),
            Self::TMeUrlTypeStickerSet(p) => p.tag_known(),
        }
    }
}

impl Union for TMeUrlType {
    proof fn unknown_rejected(d: Doc, at: Seq<char>) {
        reveal(<TMeUrlType as Wire>::parse);
    }

    proof fn untagged_rejected(d: Doc, at: Seq<char>) {
        reveal(<TMeUrlType as Wire>::parse);
    }
}

/// Represents a URL linking to an internal Telegram entity
#[derive(Debug, Clone, PartialEq)]
pub struct TMeUrl {
    /// URL
    pub url: String,
    /// Type of the URL
    pub type_: TMeUrlType,
}

impl Wire for TMeUrl {
    #[verifier::opaque]
    open spec fn wire(&self) -> Doc {
        tagged(
            Map::empty()
                .insert("url"@, self.url.wire())
                .insert("type"@, self.type_.wire()),
            "tMeUrl"@,
        )
    }

    #[verifier::opaque]
    open spec fn parse(d: Doc, at: Seq<char>) -> Result<Doc, Fault> {
        match d {
            Doc::Object(m) => {
                let url = field::<String>(m, "url"@);
                let type_ = field::<TMeUrlType>(m, "type"@);
                if url is Err {
                    url
                } else if type_ is Err {
                    type_
                } else {
                    Ok(
                        tagged(
                            Map::empty()
                                .insert("url"@, url->Ok_0)
                                .insert("type"@, type_->Ok_0),
                            "tMeUrl"@,
                        ),
                    )
                }
            },
            _ => Err(Fault::TypeMismatch(at)),
        }
    }

    fn encode(&self) -> (j: Json) {
        proof {
            reveal(<TMeUrl as Wire>::wire);
        }
        let mut members: Vec<Member> = Vec::new();
        put(&mut members, "url", self.url.encode());
        put(&mut members, "type", self.type_.encode());
        seal(members, "tMeUrl")
    }

    fn decode(j: &Json, at: &str) -> (r: Result<Self, DecodeError>) {
        proof {
            reveal(<TMeUrl as Wire>::wire);
            reveal(<TMeUrl as Wire>::parse);
        }
        let members = members_of(j, at)?;
        let url = read_field::<String>(members, "url")?;
        let type_ = read_field::<TMeUrlType>(members, "type")?;
        Ok(TMeUrl { url, type_ })
    }

    proof fn round_trip(&self, at: Seq<char>) {
        reveal(<TMeUrl as Wire>::wire);
        reveal(<TMeUrl as Wire>::parse);
        reveal_strlit("@type");
        reveal_strlit("type");
        reveal_strlit("url");
        assert("@type"@.len() == 5);
        assert("type"@.len() == 4);
        assert("url"@.len() == 3);
        self.url.round_trip("url"@);
        self.type_.round_trip("type"@);
    }
}

impl Tagged for TMeUrl {
    open spec fn known(tag: Seq<char>) -> bool {
        tag == "tMeUrl"@
    }

    fn knows(tag: &str) -> (r: bool) {
        same_text(tag, "tMeUrl")
    }

    proof fn tag_known(&self) {
        reveal(<TMeUrl as Wire>::wire);
        assert(tag_of(self.wire()) == Some("tMeUrl"@));
        assert(Self::known("tMeUrl"@));
    }
}

/// Contains a list of t.me URLs
#[derive(Debug, Clone, PartialEq)]
pub struct TMeUrls {
    /// List of URLs
    pub urls: Vec<TMeUrl>,
}

impl Wire for TMeUrls {
    #[verifier::opaque]
    open spec fn wire(&self) -> Doc {
        tagged(
            Map::empty()
                .insert("urls"@, self.urls.wire()),
            "tMeUrls"@,
        )
    }

    #[verifier::opaque]
    open spec fn parse(d: Doc, at: Seq<char>) -> Result<Doc, Fault> {
        match d {
            Doc::Object(m) => {
                let urls = field::<Vec<TMeUrl>>(m, "urls"@);
                if urls is Err {
                    urls
                } else {
                    Ok(
                        tagged(
                            Map::empty()
                                .insert("urls"@, urls->Ok_0),
                            "tMeUrls"@,
                        ),
                    )
                }
            },
            _ => Err(Fault::TypeMismatch(at)),
        }
    }

    fn encode(&self) -> (j: Json) {
        proof {
            reveal(<TMeUrls as Wire>::wire);
        }
        let mut members: Vec<Member> = Vec::new();
        put(&mut members, "urls", self.urls.encode());
        seal(members, "tMeUrls")
    }

    fn decode(j: &Json, at: &str) -> (r: Result<Self, DecodeError>) {
        proof {
            reveal(<TMeUrls as Wire>::wire);
            reveal(<TMeUrls as Wire>::parse);
        }
        let members = members_of(j, at)?;
        let urls = read_field::<Vec<TMeUrl>>(members, "urls")?;
        Ok(TMeUrls { urls })
    }

    proof fn round_trip(&self, at: Seq<char>) {
        reveal(<TMeUrls as Wire>::wire);
        reveal(<TMeUrls as Wire>::parse);
        reveal_strlit("@type");
        reveal_strlit("urls");
        assert("@type"@.len() == 5);
        assert("urls"@.len() == 4);
        self.urls.round_trip("urls"@);
    }
}

impl Tagged for TMeUrls {
    open spec fn known(tag: Seq<char>) -> bool {
        tag == "tMeUrls"@
    }

    fn knows(tag: &str) -> (r: bool) {
        same_text(tag, "tMeUrls")
    }

    proof fn tag_known(&self) {
        reveal(<TMeUrls as Wire>::wire);
        assert(tag_of(self.wire()) == Some("tMeUrls"@));
        assert(Self::known("tMeUrls"@));
    }
}

/// Contains a counter
#[derive(Debug, Clone, PartialEq)]
pub struct Count {
    /// Count
    pub count: i32,
}

impl Wire for Count {
    #[verifier::opaque]
    open spec fn wire(&self) -> Doc {
        tagged(
            Map::empty()
                .insert("count"@, self.count.wire()),
            "count"@,
        )
    }

    #[verifier::opaque]
    open spec fn parse(d: Doc, at: Seq<char>) -> Result<Doc, Fault> {
        match d {
            Doc::Object(m) => {
                let count = field::<i32>(m, "count"@);
                if count is Err {
                    count
                } else {
                    Ok(
                        tagged(
                            Map::empty()
                                .insert("count"@, count->Ok_0),
                            "count"@,
                        ),
                    )
                }
            },
            _ => Err(Fault::TypeMismatch(at)),
        }
    }

    fn encode(&self) -> (j: Json) {
        proof {
            reveal(<Count as Wire>::wire);
        }
        let mut members: Vec<Member> = Vec::new();
        put(&mut members, "count", self.count.encode());
        seal(members, "count")
    }

    fn decode(j: &Json, at: &str) -> (r: Result<Self, DecodeError>) {
        proof {
            reveal(<Count as Wire>::wire);
            reveal(<Count as Wire>::parse);
        }
        let members = members_of(j, at)?;
        let count = read_field::<i32>(members, "count")?;
        Ok(Count { count })
    }

    proof fn round_trip(&self, at: Seq<char>) {
        reveal(<Count as Wire>::wire);
        reveal(<Count as Wire>::parse);
        reveal_strlit("@type");
        reveal_strlit("count");
        assert("@type"@.len() == 5 && "@type"@[0] == '@');
        assert("count"@.len() == 5 && "count"@[0] == 'c');
        self.count.round_trip("count"@);
    }
}

impl Tagged for Count {
    open spec fn known(tag: Seq<char>) -> bool {
        tag == "count"@
    }

    fn knows(tag: &str) -> (r: bool) {
        same_text(tag, "count")
    }

    proof fn tag_known(&self) {
        reveal(<Count as Wire>::wire);
        assert(tag_of(self.wire()) == Some("count"@));
        assert(Self::known("count"@));
    }
}

/// Contains some text
#[derive(Debug, Clone, PartialEq)]
pub struct Text {
    /// Text
    pub text: String,
}

impl Wire for Text {
    #[verifier::opaque]
    open spec fn wire(&self) -> Doc {
        tagged(
            Map::empty()
                .insert("text"@, self.text.wire()),
            "text"@,
        )
    }

    #[verifier::opaque]
    open spec fn parse(d: Doc, at: Seq<char>) -> Result<Doc, Fault> {
        match d {
            Doc::Object(m) => {
                let text = field::<String>(m, "text"@);
                if text is Err {
                    text
                } else {
                    Ok(
                        tagged(
                            Map::empty()
                                .insert("text"@, text->Ok_0),
                            "text"@,
                        ),
                    )
                }
            },
            _ => Err(Fault::TypeMismatch(at)),
        }
    }

    fn encode(&self) -> (j: Json) {
        proof {
            reveal(<Text as Wire>::wire);
        }
        let mut members: Vec<Member> = Vec::new();
        put(&mut members, "text", self.text.encode());
        seal(members, "text")
    }

    fn decode(j: &Json, at: &str) -> (r: Result<Self, DecodeError>) {
        proof {
            reveal(<Text as Wire>::wire);
            reveal(<Text as Wire>::parse);
        }
        let members = members_of(j, at)?;
        let text = read_field::<String>(members, "text")?;
        Ok(Text { text })
    }

    proof fn round_trip(&self, at: Seq<char>) {
        reveal(<Text as Wire>::wire);
        reveal(<Text as Wire>::parse);
        reveal_strlit("@type");
        reveal_strlit("text");
        assert("@type"@.len() == 5);
        assert("text"@.len() == 4);
        self.text.round_trip("text"@);
    }
}

impl Tagged for Text {
    open spec fn known(tag: Seq<char>) -> bool {
        tag == "text"@
    }

    fn knows(tag: &str) -> (r: bool) {
        same_text(tag, "text")
    }

    proof fn tag_known(&self) {
        reveal(<Text as Wire>::wire);
        assert(tag_of(self.wire()) == Some("text"@));
        assert(Self::known("text"@));
    }
}

/// Contains a value representing a number of seconds
#[derive(Debug, Clone, PartialEq)]
pub struct Seconds {
    /// Number of seconds
    pub seconds: Number,
}

impl Wire for Seconds {
    #[verifier::opaque]
    open spec fn wire(&self) -> Doc {
        tagged(
            Map::empty()
                .insert("seconds"@, self.seconds.wire()),
            "seconds"@,
        )
    }

    #[verifier::opaque]
    open spec fn parse(d: Doc, at: Seq<char>) -> Result<Doc, Fault> {
        match d {
            Doc::Object(m) => {
                let seconds = field::<Number>(m, "seconds"@);
                if seconds is Err {
                    seconds
                } else {
                    Ok(
                        tagged(
                            Map::empty()
                                .insert("seconds"@, seconds->Ok_0),
                            "seconds"@,
                        ),
                    )
                }
            },
            _ => Err(Fault::TypeMismatch(at)),
        }
    }

    fn encode(&self) -> (j: Json) {
        proof {
            reveal(<Seconds as Wire>::wire);
        }
        let mut members: Vec<Member> = Vec::new();
        put(&mut members, "seconds", self.seconds.encode());
        seal(members, "seconds")
    }

    fn decode(j: &Json, at: &str) -> (r: Result<Self, DecodeError>) {
        proof {
            reveal(<Seconds as Wire>::wire);
            reveal(<Seconds as Wire>::parse);
        }
        let members = members_of(j, at)?;
        let seconds = read_field::<Number>(members, "seconds")?;
        Ok(Seconds { seconds })
    }

    proof fn round_trip(&self, at: Seq<char>) {
        reveal(<Seconds as Wire>::wire);
        reveal(<Seconds as Wire>::parse);
        reveal_strlit("@type");
        reveal_strlit("seconds");
        assert("@type"@.len() == 5);
        assert("seconds"@.len() == 7);
        self.seconds.round_trip("seconds"@);
    }
}

impl Tagged for Seconds {
    open spec fn known(tag: Seq<char>) -> bool {
        tag == "seconds"@
    }

    fn knows(tag: &str) -> (r: bool) {
        same_text(tag, "seconds")
    }

    proof fn tag_known(&self) {
        reveal(<Seconds as Wire>::wire);
        assert(tag_of(self.wire()) == Some("seconds"@));
        assert(Self::known("seconds"@));
    }
}

/// Contains information about a tg:// deep link
#[derive(Debug, Clone, PartialEq)]
pub struct DeepLinkInfo {
    /// Text to be shown to the user
    pub text: FormattedText,
    /// True, if user should be asked to update the application
    pub need_update_application: bool,
}

impl Wire for DeepLinkInfo {
    #[verifier::opaque]
    open spec fn wire(&self) -> Doc {
        tagged(
            Map::empty()
                .insert("text"@, self.text.wire())
                .insert("needUpdateApplication"@, self.need_update_application.wire()),
            "deepLinkInfo"@,
        )
    }

    #[verifier::opaque]
    open spec fn parse(d: Doc, at: Seq<char>) -> Result<Doc, Fault> {
        match d {
            Doc::Object(m) => {
                let text = field::<FormattedText>(m, "text"@);
                let need_update_application = field::<bool>(m, "needUpdateApplication"@);
                if text is Err {
                    text
                } else if need_update_application is Err {
                    need_update_application
                } else {
                    Ok(
                        tagged(
                            Map::empty()
                                .insert("text"@, text->Ok_0)
                                .insert("needUpdateApplication"@, need_update_application->Ok_0),
                            "deepLinkInfo"@,
                        ),
                    )
                }
            },
            _ => Err(Fault::TypeMismatch(at)),
        }
    }

    fn encode(&self) -> (j: Json) {
        proof {
            reveal(<DeepLinkInfo as Wire>::wire);
        }
        let mut members: Vec<Member> = Vec::new();
        put(&mut members, "text", self.text.encode());
        put(&mut members, "needUpdateApplication", self.need_update_application.encode());
        seal(members, "deepLinkInfo")
    }

    fn decode(j: &Json, at: &str) -> (r: Result<Self, DecodeError>) {
        proof {
            reveal(<DeepLinkInfo as Wire>::wire);
            reveal(<DeepLinkInfo as Wire>::parse);
        }
        let members = members_of(j, at)?;
        let text = read_field::<FormattedText>(members, "text")?;
        let need_update_application = read_field::<bool>(members, "needUpdateApplication")?;
        Ok(DeepLinkInfo { text, need_update_application })
    }

    proof fn round_trip(&self, at: Seq<char>) {
        reveal(<DeepLinkInfo as Wire>::wire);
        reveal(<DeepLinkInfo as Wire>::parse);
        reveal_strlit("@type");
        reveal_strlit("needUpdateApplication");
        reveal_strlit("text");
        assert("@type"@.len() == 5);
        assert("needUpdateApplication"@.len() == 21);
        assert("text"@.len() == 4);
        self.text.round_trip("text"@);
        self.need_update_application.round_trip("needUpdateApplication"@);
    }
}

impl Tagged for DeepLinkInfo {
    open spec fn known(tag: Seq<char>) -> bool {
        tag == "deepLinkInfo"@
    }

    fn knows(tag: &str) -> (r: bool) {
        same_text(tag, "deepLinkInfo")
    }

    proof fn tag_known(&self) {
        reveal(<DeepLinkInfo as Wire>::wire);
        assert(tag_of(self.wire()) == Some("deepLinkInfo"@));
        assert(Self::known("deepLinkInfo"@));
    }
}

/// The text should be parsed in markdown-style
#[derive(Debug, Clone, PartialEq)]
pub struct TextParseModeMarkdown {
    /// Version of the parser: 0 or 1 - Bot API Markdown parse mode, 2 - Bot API MarkdownV2 parse
    /// mode
    pub version: i32,
}

impl Wire for TextParseModeMarkdown {
    #[verifier::opaque]
    open spec fn wire(&self) -> Doc {
        tagged(
            Map::empty()
                .insert("version"@, self.version.wire()),
            "textParseModeMarkdown"@,
        )
    }

    #[verifier::opaque]
    open spec fn parse(d: Doc, at: Seq<char>) -> Result<Doc, Fault> {
        match d {
            Doc::Object(m) => {
                let version = field::<i32>(m, "version"@);
                if version is Err {
                    version
                } else {
                    Ok(
                        tagged(
                            Map::empty()
                                .insert("version"@, version->Ok_0),
                            "textParseModeMarkdown"@,
                        ),
                    )
                }
            },
            _ => Err(Fault::TypeMismatch(at)),
        }
    }

    fn encode(&self) -> (j: Json) {
        proof {
            reveal(<TextParseModeMarkdown as Wire>::wire);
        }
        let mut members: Vec<Member> = Vec::new();
        put(&mut members, "version", self.version.encode());
        seal(members, "textParseModeMarkdown")
    }

    fn decode(j: &Json, at: &str) -> (r: Result<Self, DecodeError>) {
        proof {
            reveal(<TextParseModeMarkdown as Wire>::wire);
            reveal(<TextParseModeMarkdown as Wire>::parse);
        }
        let members = members_of(j, at)?;
        let version = read_field::<i32>(members, "version")?;
        Ok(TextParseModeMarkdown { version })
    }

    proof fn round_trip(&self, at: Seq<char>) {
        reveal(<TextParseModeMarkdown as Wire>::wire);
        reveal(<TextParseModeMarkdown as Wire>::parse);
        reveal_strlit("@type");
        reveal_strlit("version");
        assert("@type"@.len() == 5);
        assert("version"@.len() == 7);
        self.version.round_trip("version"@);
    }
}

impl Tagged for TextParseModeMarkdown {
    open spec fn known(tag: Seq<char>) -> bool {
        tag == "textParseModeMarkdown"@
    }

    fn knows(tag: &str) -> (r: bool) {
        same_text(tag, "textParseModeMarkdown")
    }

    proof fn tag_known(&self) {
        reveal(<TextParseModeMarkdown as Wire>::wire);
        assert(tag_of(self.wire()) == Some("textParseModeMarkdown"@));
        assert(Self::known("textParseModeMarkdown"@));
    }
}

/// The text should be parsed in HTML-style
#[derive(Debug, Clone, PartialEq)]
pub struct TextParseModeHTML {}

impl Wire for TextParseModeHTML {
    #[verifier::opaque]
    open spec fn wire(&self) -> Doc {
        tagged(Map::empty(), "textParseModeHTML"@)
    }

    #[verifier::opaque]
    open spec fn parse(d: Doc, at: Seq<char>) -> Result<Doc, Fault> {
        match d {
            Doc::Object(_) => Ok(tagged(Map::empty(), "textParseModeHTML"@)),
            _ => Err(Fault::TypeMismatch(at)),
        }
    }

    fn encode(&self) -> (j: Json) {
        proof {
            reveal(<TextParseModeHTML as Wire>::wire);
        }
        seal(Vec::new(), "textParseModeHTML")
    }

    fn decode(j: &Json, at: &str) -> (r: Result<Self, DecodeError>) {
        proof {
            reveal(<TextParseModeHTML as Wire>::wire);
            reveal(<TextParseModeHTML as Wire>::parse);
        }
        let _ = members_of(j, at)?;
        Ok(TextParseModeHTML {})
    }

    proof fn round_trip(&self, at: Seq<char>) {
        reveal(<TextParseModeHTML as Wire>::wire);
        reveal(<TextParseModeHTML as Wire>::parse);
    }
}

impl Tagged for TextParseModeHTML {
    open spec fn known(tag: Seq<char>) -> bool {
        tag == "textParseModeHTML"@
    }

    fn knows(tag: &str) -> (r: bool) {
        same_text(tag, "textParseModeHTML")
    }

    proof fn tag_known(&self) {
        reveal(<TextParseModeHTML as Wire>::wire);
        assert(tag_of(self.wire()) == Some("textParseModeHTML"@));
        assert(Self::known("textParseModeHTML"@));
    }
}

/// Describes the way the text should be parsed for TextEntities
#[derive(Debug, Clone, PartialEq)]
pub enum TextParseMode {
    TextParseModeMarkdown(TextParseModeMarkdown),
    TextParseModeHTML(TextParseModeHTML),
}

impl Wire for TextParseMode {
    #[verifier::opaque]
    open spec fn wire(&self) -> Doc {
        match self {
            Self::TextParseModeMarkdown(p) => p.wire(),
            Self::TextParseModeHTML(p) => p.wire(),
        }
    }

    #[verifier::opaque]
    open spec fn parse(d: Doc, at: Seq<char>) -> Result<Doc, Fault> {
        match d {
            Doc::Object(_) => match tag_of(d) {
                Some(t) => if t == "textParseModeMarkdown"@ {
                    TextParseModeMarkdown::parse(d, at)
                } else if t == "textParseModeHTML"@ {
                    TextParseModeHTML::parse(d, at)
                } else {
                    Err(Fault::UnknownVariant(t))
                },
                None => Err(Fault::MissingDiscriminator),
            },
            _ => Err(Fault::TypeMismatch(at)),
        }
    }

    fn encode(&self) -> (j: Json) {
        proof {
            reveal(<TextParseMode as Wire>::wire);
        }
        match self {
            Self::TextParseModeMarkdown(p) => p.encode(),
            Self::TextParseModeHTML(p) => p.encode(),
        }
    }

    fn decode(j: &Json, at: &str) -> (r: Result<Self, DecodeError>) {
        proof {
            reveal(<TextParseMode as Wire>::wire);
            reveal(<TextParseMode as Wire>::parse);
        }
        let members = members_of(j, at)?;
        let tag = discriminator(members)?;
        if same_text(tag, "textParseModeMarkdown") {
            Ok(Self::TextParseModeMarkdown(TextParseModeMarkdown::decode(j, at)?))
        } else if same_text(tag, "textParseModeHTML") {
            Ok(Self::TextParseModeHTML(TextParseModeHTML::decode(j, at)?))
        } else {
            Err(DecodeError::UnknownVariant(tag.to_owned()))
        }
    }

    proof fn round_trip(&self, at: Seq<char>) {
        reveal(<TextParseMode as Wire>::wire);
        reveal(<TextParseMode as Wire>::parse);
        reveal_strlit("textParseModeHTML");
        reveal_strlit("textParseModeMarkdown");
        assert("textParseModeHTML"@.len() == 17);
        assert("textParseModeMarkdown"@.len() == 21);
        match self {
            Self::TextParseModeMarkdown(p) => {
                p.tag_known();
                p.round_trip(at);
            },
            Self::TextParseModeHTML(p) => {
                p.tag_known();
                p.round_trip(at);
            },
        }
    }
}

impl Tagged for TextParseMode {
    open spec fn known(tag: Seq<char>) -> bool {
        ||| tag == "textParseModeMarkdown"@
        ||| tag == "textParseModeHTML"@
    }

    fn knows(tag: &str) -> (r: bool) {
        same_text(tag, "textParseModeMarkdown")
            || same_text(tag, "textParseModeHTML")
    }

    proof fn tag_known(&self) {
        reveal(<TextParseMode as Wire>::wire);
        match self {
            Self::TextParseModeMarkdown(p) => p.tag_known(),
            Self::TextParseModeHTML(p) => p.tag_known(),
        }
    }
}

impl Union for TextParseMode {
    proof fn unknown_rejected(d: Doc, at: Seq<char>) {
        reveal(<TextParseMode as Wire>::parse);
    }

    proof fn untagged_rejected(d: Doc, at: Seq<char>) {
        reveal(<TextParseMode as Wire>::parse);
    }
}

/// A SOCKS5 proxy server
#[derive(Debug, Clone, PartialEq)]
pub struct ProxyTypeSocks5 {
    /// Username for logging in; may be empty
    pub username: String,
    /// Password for logging in; may be empty
    pub password: String,
}

impl Wire for ProxyTypeSocks5 {
    #[verifier::opaque]
    open spec fn wire(&self) -> Doc {
        tagged(
            Map::empty()
                .insert("username"@, self.username.wire())
                .insert("password"@, self.password.wire()),
            "proxyTypeSocks5"@,
        )
    }

    #[verifier::opaque]
    open spec fn parse(d: Doc, at: Seq<char>) -> Result<Doc, Fault> {
        match d {
            Doc::Object(m) => {
                let username = field::<String>(m, "username"@);
                let password = field::<String>(m, "password"@);
                if username is Err {
                    username
                } else if password is Err {
                    password
                } else {
                    Ok(
                        tagged(
                            Map::empty()
                                .insert("username"@, username->Ok_0)
                                .insert("password"@, password->Ok_0),
                            "proxyTypeSocks5"@,
                        ),
                    )
                }
            },
            _ => Err(Fault::TypeMismatch(at)),
        }
    }

    fn encode(&self) -> (j: Json) {
        proof {
            reveal(<ProxyTypeSocks5 as Wire>::wire);
        }
        let mut members: Vec<Member> = Vec::new();
        put(&mut members, "username", self.username.encode());
        put(&mut members, "password", self.password.encode());
        seal(members, "proxyTypeSocks5")
    }

    fn decode(j: &Json, at: &str) -> (r: Result<Self, DecodeError>) {
        proof {
            reveal(<ProxyTypeSocks5 as Wire>::wire);
            reveal(<ProxyTypeSocks5 as Wire>::parse);
        }
        let members = members_of(j, at)?;
        let username = read_field::<String>(members, "username")?;
        let password = read_field::<String>(members, "password")?;
        Ok(ProxyTypeSocks5 { username, password })
    }

    proof fn round_trip(&self, at: Seq<char>) {
        reveal(<ProxyTypeSocks5 as Wire>::wire);
        reveal(<ProxyTypeSocks5 as Wire>::parse);
        reveal_strlit("@type");
        reveal_strlit("password");
        reveal_strlit("username");
        assert("@type"@.len() == 5);
        assert("password"@.len() == 8 && "password"@[0] == 'p');
        assert("username"@.len() == 8 && "username"@[0] == 'u');
        self.username.round_trip("username"@);
        self.password.round_trip("password"@);
    }
}

impl Tagged for ProxyTypeSocks5 {
    open spec fn known(tag: Seq<char>) -> bool {
        tag == "proxyTypeSocks5"@
    }

    fn knows(tag: &str) -> (r: bool) {
        same_text(tag, "proxyTypeSocks5")
    }

    proof fn tag_known(&self) {
        reveal(<ProxyTypeSocks5 as Wire>::wire);
        assert(tag_of(self.wire()) == Some("proxyTypeSocks5"@));
        assert(Self::known("proxyTypeSocks5"@));
    }
}

/// A HTTP transparent proxy server
#[derive(Debug, Clone, PartialEq)]
pub struct ProxyTypeHttp {
    /// Username for logging in; may be empty
    pub username: String,
    /// Password for logging in; may be empty
    pub password: String,
    /// Pass true, if the proxy supports only HTTP requests and doesn't support transparent TCP
    /// connections via HTTP CONNECT method
    pub http_only: bool,
}

impl Wire for ProxyTypeHttp {
    #[verifier::opaque]
    open spec fn wire(&self) -> Doc {
        tagged(
            Map::empty()
                .insert("username"@, self.username.wire())
                .insert("password"@, self.password.wire())
                .insert("httpOnly"@, self.http_only.wire()),
            "proxyTypeHttp"@,
        )
    }

    #[verifier::opaque]
    open spec fn parse(d: Doc, at: Seq<char>) -> Result<Doc, Fault> {
        match d {
            Doc::Object(m) => {
                let username = field::<String>(m, "username"@);
                let password = field::<String>(m, "password"@);
                let http_only = field::<bool>(m, "httpOnly"@);
                if username is Err {
                    username
                } else if password is Err {
                    password
                } else if http_only is Err {
                    http_only
                } else {
                    Ok(
                        tagged(
                            Map::empty()
                                .insert("username"@, username->Ok_0)
                                .insert("password"@, password->Ok_0)
                                .insert("httpOnly"@, http_only->Ok_0),
                            "proxyTypeHttp"@,
                        ),
                    )
                }
            },
            _ => Err(Fault::TypeMismatch(at)),
        }
    }

    fn encode(&self) -> (j: Json) {
        proof {
            reveal(<ProxyTypeHttp as Wire>::wire);
        }
        let mut members: Vec<Member> = Vec::new();
        put(&mut members, "username", self.username.encode());
        put(&mut members, "password", self.password.encode());
        put(&mut members, "httpOnly", self.http_only.encode());
        seal(members, "proxyTypeHttp")
    }

    fn decode(j: &Json, at: &str) -> (r: Result<Self, DecodeError>) {
        proof {
            reveal(<ProxyTypeHttp as Wire>::wire);
            reveal(<ProxyTypeHttp as Wire>::parse);
        }
        let members = members_of(j, at)?;
        let username = read_field::<String>(members, "username")?;
        let password = read_field::<String>(members, "password")?;
        let http_only = read_field::<bool>(members, "httpOnly")?;
        Ok(ProxyTypeHttp { username, password, http_only })
    }

    proof fn round_trip(&self, at: Seq<char>) {
        reveal(<ProxyTypeHttp as Wire>::wire);
        reveal(<ProxyTypeHttp as Wire>::parse);
        reveal_strlit("@type");
        reveal_strlit("httpOnly");
        reveal_strlit("password");
        reveal_strlit("username");
        assert("@type"@.len() == 5);
        assert("httpOnly"@.len() == 8 && "httpOnly"@[0] == 'h');
        assert("password"@.len() == 8 && "password"@[0] == 'p');
        assert("username"@.len() == 8 && "username"@[0] == 'u');
        self.username.round_trip("username"@);
        self.password.round_trip("password"@);
        self.http_only.round_trip("httpOnly"@);
    }
}

impl Tagged for ProxyTypeHttp {
    open spec fn known(tag: Seq<char>) -> bool {
        tag == "proxyTypeHttp"@
    }

    fn knows(tag: &str) -> (r: bool) {
        same_text(tag, "proxyTypeHttp")
    }

    proof fn tag_known(&self) {
        reveal(<ProxyTypeHttp as Wire>::wire);
        assert(tag_of(self.wire()) == Some("proxyTypeHttp"@));
        assert(Self::known("proxyTypeHttp"@));
    }
}

/// An MTProto proxy server
#[derive(Debug, Clone, PartialEq)]
pub struct ProxyTypeMtproto {
    /// The proxy's secret in hexadecimal encoding
    pub secret: String,
}

impl Wire for ProxyTypeMtproto {
    #[verifier::opaque]
    open spec fn wire(&self) -> Doc {
        tagged(
            Map::empty()
                .insert("secret"@, self.secret.wire()),
            "proxyTypeMtproto"@,
        )
    }

    #[verifier::opaque]
    open spec fn parse(d: Doc, at: Seq<char>) -> Result<Doc, Fault> {
        match d {
            Doc::Object(m) => {
                let secret = field::<String>(m, "secret"@);
                if secret is Err {
                    secret
                } else {
                    Ok(
                        tagged(
                            Map::empty()
                                .insert("secret"@, secret->Ok_0),
                            "proxyTypeMtproto"@,
                        ),
                    )
                }
            },
            _ => Err(Fault::TypeMismatch(at)),
        }
    }

    fn encode(&self) -> (j: Json) {
        proof {
            reveal(<ProxyTypeMtproto as Wire>::wire);
        }
        let mut members: Vec<Member> = Vec::new();
        put(&mut members, "secret", self.secret.encode());
        seal(members, "proxyTypeMtproto")
    }

    fn decode(j: &Json, at: &str) -> (r: Result<Self, DecodeError>) {
        proof {
            reveal(<ProxyTypeMtproto as Wire>::wire);
            reveal(<ProxyTypeMtproto as Wire>::parse);
        }
        let members = members_of(j, at)?;
        let secret = read_field::<String>(members, "secret")?;
        Ok(ProxyTypeMtproto { secret })
    }

    proof fn round_trip(&self, at: Seq<char>) {
        reveal(<ProxyTypeMtproto as Wire>::wire);
        reveal(<ProxyTypeMtproto as Wire>::parse);
        reveal_strlit("@type");
        reveal_strlit("secret");
        assert("@type"@.len() == 5);
        assert("secret"@.len() == 6);
        self.secret.round_trip("secret"@);
    }
}

impl Tagged for ProxyTypeMtproto {
    open spec fn known(tag: Seq<char>) -> bool {
        tag == "proxyTypeMtproto"@
    }

    fn knows(tag: &str) -> (r: bool) {
        same_text(tag, "proxyTypeMtproto")
    }

    proof fn tag_known(&self) {
        reveal(<ProxyTypeMtproto as Wire>::wire);
        assert(tag_of(self.wire()) == Some("proxyTypeMtproto"@));
        assert(Self::known("proxyTypeMtproto"@));
    }
}

/// Describes the type of a proxy server
#[derive(Debug, Clone, PartialEq)]
pub enum ProxyType {
    ProxyTypeSocks5(ProxyTypeSocks5),
    ProxyTypeHttp(ProxyTypeHttp),
    ProxyTypeMtproto(ProxyTypeMtproto),
}

impl Wire for ProxyType {
    #[verifier::opaque]
    open spec fn wire(&self) -> Doc {
        match self {
            Self::ProxyTypeSocks5(p) => p.wire(),
            Self::ProxyTypeHttp(p) => p.wire(),
            Self::ProxyTypeMtproto(p) => p.wire(),
        }
    }

    #[verifier::opaque]
    open spec fn parse(d: Doc, at: Seq<char>) -> Result<Doc, Fault> {
        match d {
            Doc::Object(_) => match tag_of(d) {
                Some(t) => if t == "proxyTypeSocks5"@ {
                    ProxyTypeSocks5::parse(d, at)
                } else if t == "proxyTypeHttp"@ {
                    ProxyTypeHttp::parse(d, at)
                } else if t == "proxyTypeMtproto"@ {
                    ProxyTypeMtproto::parse(d, at)
                } else {
                    Err(Fault::UnknownVariant(t))
                },
                None => Err(Fault::MissingDiscriminator),
            },
            _ => Err(Fault::TypeMismatch(at)),
        }
    }

    fn encode(&self) -> (j: Json) {
        proof {
            reveal(<ProxyType as Wire>::wire);
        }
        match self {
            Self::ProxyTypeSocks5(p) => p.encode(),
            Self::ProxyTypeHttp(p) => p.encode(),
            Self::ProxyTypeMtproto(p) => p.encode(),
        }
    }

    fn decode(j: &Json, at: &str) -> (r: Result<Self, DecodeError>) {
        proof {
            reveal(<ProxyType as Wire>::wire);
            reveal(<ProxyType as Wire>::parse);
        }
        let members = members_of(j, at)?;
        let tag = discriminator(members)?;
        if same_text(tag, "proxyTypeSocks5") {
            Ok(Self::ProxyTypeSocks5(ProxyTypeSocks5::decode(j, at)?))
        } else if same_text(tag, "proxyTypeHttp") {
            Ok(Self::ProxyTypeHttp(ProxyTypeHttp::decode(j, at)?))
        } else if same_text(tag, "proxyTypeMtproto") {
            Ok(Self::ProxyTypeMtproto(ProxyTypeMtproto::decode(j, at)?))
        } else {
            Err(DecodeError::UnknownVariant(tag.to_owned()))
        }
    }

    proof fn round_trip(&self, at: Seq<char>) {
        reveal(<ProxyType as Wire>::wire);
        reveal(<ProxyType as Wire>::parse);
        reveal_strlit("proxyTypeHttp");
        reveal_strlit("proxyTypeMtproto");
        reveal_strlit("proxyTypeSocks5");
        assert("proxyTypeHttp"@.len() == 13);
        assert("proxyTypeMtproto"@.len() == 16);
        assert("proxyTypeSocks5"@.len() == 15);
        match self {
            Self::ProxyTypeSocks5(p) => {
                p.tag_known();
                p.round_trip(at);
            },
            Self::ProxyTypeHttp(p) => {
                p.tag_known();
                p.round_trip(at);
            },
            Self::ProxyTypeMtproto(p) => {
                p.tag_known();
                p.round_trip(at);
            },
        }
    }
}

impl Tagged for ProxyType {
    open spec fn known(tag: Seq<char>) -> bool {
        ||| tag == "proxyTypeSocks5"@
        ||| tag == "proxyTypeHttp"@
        ||| tag == "proxyTypeMtproto"@
    }

    fn knows(tag: &str) -> (r: bool) {
        same_text(tag, "proxyTypeSocks5")
            || same_text(tag, "proxyTypeHttp")
            || same_text(tag, "proxyTypeMtproto")
    }

    proof fn tag_known(&self) {
        reveal(<ProxyType as Wire>::wire);
        match self {
            Self::ProxyTypeSocks5(p) => p.tag_known(),
            Self::ProxyTypeHttp(p) => p.tag_known(),
            Self::ProxyTypeMtproto(p) => p.tag_known(),
        }
    }
}

impl Union for ProxyType {
    proof fn unknown_rejected(d: Doc, at: Seq<char>) {
        reveal(<ProxyType as Wire>::parse);
    }

    proof fn untagged_rejected(d: Doc, at: Seq<char>) {
        reveal(<ProxyType as Wire>::parse);
    }
}

/// Contains information about a proxy server
#[derive(Debug, Clone, PartialEq)]
pub struct Proxy {
    /// Unique identifier of the proxy
    pub id: i32,
    /// Proxy server IP address
    pub server: String,
    /// Proxy server port
    pub port: i32,
    /// Point in time (Unix timestamp) when the proxy was last used; 0 if never
    pub last_used_date: i32,
    /// True, if the proxy is enabled now
    pub is_enabled: bool,
    /// Type of the proxy
    pub type_: ProxyType,
}

impl Wire for Proxy {
    #[verifier::opaque]
    open spec fn wire(&self) -> Doc {
        tagged(
            Map::empty()
                .insert("id"@, self.id.wire())
                .insert("server"@, self.server.wire())
                .insert("port"@, self.port.wire())
                .insert("lastUsedDate"@, self.last_used_date.wire())
                .insert("isEnabled"@, self.is_enabled.wire())
                .insert("type"@, self.type_.wire()),
            "proxy"@,
        )
    }

    #[verifier::opaque]
    open spec fn parse(d: Doc, at: Seq<char>) -> Result<Doc, Fault> {
        match d {
            Doc::Object(m) => {
                let id = field::<i32>(m, "id"@);
                let server = field::<String>(m, "server"@);
                let port = field::<i32>(m, "port"@);
                let last_used_date = field::<i32>(m, "lastUsedDate"@);
                let is_enabled = field::<bool>(m, "isEnabled"@);
                let type_ = field::<ProxyType>(m, "type"@);
                if id is Err {
                    id
                } else if server is Err {
                    server
                } else if port is Err {
                    port
                } else if last_used_date is Err {
                    last_used_date
                } else if is_enabled is Err {
                    is_enabled
                } else if type_ is Err {
                    type_
                } else {
                    Ok(
                        tagged(
                            Map::empty()
                                .insert("id"@, id->Ok_0)
                                .insert("server"@, server->Ok_0)
                                .insert("port"@, port->Ok_0)
                                .insert("lastUsedDate"@, last_used_date->Ok_0)
                                .insert("isEnabled"@, is_enabled->Ok_0)
                                .insert("type"@, type_->Ok_0),
                            "proxy"@,
                        ),
                    )
                }
            },
            _ => Err(Fault::TypeMismatch(at)),
        }
    }

    fn encode(&self) -> (j: Json) {
        proof {
            reveal(<Proxy as Wire>::wire);
        }
        let mut members: Vec<Member> = Vec::new();
        put(&mut members, "id", self.id.encode());
        put(&mut members, "server", self.server.encode());
        put(&mut members, "port", self.port.encode());
        put(&mut members, "lastUsedDate", self.last_used_date.encode());
        put(&mut members, "isEnabled", self.is_enabled.encode());
        put(&mut members, "type", self.type_.encode());
        seal(members, "proxy")
    }

    fn decode(j: &Json, at: &str) -> (r: Result<Self, DecodeError>) {
        proof {
            reveal(<Proxy as Wire>::wire);
            reveal(<Proxy as Wire>::parse);
        }
        let members = members_of(j, at)?;
        let id = read_field::<i32>(members, "id")?;
        let server = read_field::<String>(members, "server")?;
        let port = read_field::<i32>(members, "port")?;
        let last_used_date = read_field::<i32>(members, "lastUsedDate")?;
        let is_enabled = read_field::<bool>(members, "isEnabled")?;
        let type_ = read_field::<ProxyType>(members, "type")?;
        Ok(Proxy { id, server, port, last_used_date, is_enabled, type_ })
    }

    proof fn round_trip(&self, at: Seq<char>) {
        reveal(<Proxy as Wire>::wire);
        reveal(<Proxy as Wire>::parse);
        reveal_strlit("@type");
        reveal_strlit("id");
        reveal_strlit("isEnabled");
        reveal_strlit("lastUsedDate");
        reveal_strlit("port");
        reveal_strlit("server");
        reveal_strlit("type");
        assert("@type"@.len() == 5);
        assert("id"@.len() == 2);
        assert("isEnabled"@.len() == 9);
        assert("lastUsedDate"@.len() == 12);
        assert("port"@.len() == 4 && "port"@[0] == 'p');
        assert("server"@.len() == 6);
        assert("type"@.len() == 4 && "type"@[0] == 't');
        self.id.round_trip("id"@);
        self.server.round_trip("server"@);
        self.port.round_trip("port"@);
        self.last_used_date.round_trip("lastUsedDate"@);
        self.is_enabled.round_trip("isEnabled"@);
        self.type_.round_trip("type"@);
    }
}

impl Tagged for Proxy {
    open spec fn known(tag: Seq<char>) -> bool {
        tag == "proxy"@
    }

    fn knows(tag: &str) -> (r: bool) {
        same_text(tag, "proxy")
    }

    proof fn tag_known(&self) {
        reveal(<Proxy as Wire>::wire);
        assert(tag_of(self.wire()) == Some("proxy"@));
        assert(Self::known("proxy"@));
    }
}

/// Represents a list of proxy servers
#[derive(Debug, Clone, PartialEq)]
pub struct Proxies {
    /// List of proxy servers
    pub proxies: Vec<Proxy>,
}

impl Wire for Proxies {
    #[verifier::opaque]
    open spec fn wire(&self) -> Doc {
        tagged(
            Map::empty()
                .insert("proxies"@, self.proxies.wire()),
            "proxies"@,
        )
    }

    #[verifier::opaque]
    open spec fn parse(d: Doc, at: Seq<char>) -> Result<Doc, Fault> {
        match d {
            Doc::Object(m) => {
                let proxies = field::<Vec<Proxy>>(m, "proxies"@);
                if proxies is Err {
                    proxies
                } else {
                    Ok(
                        tagged(
                            Map::empty()
                                .insert("proxies"@, proxies->Ok_0),
                            "proxies"@,
                        ),
                    )
                }
            },
            _ => Err(Fault::TypeMismatch(at)),
        }
    }

    fn encode(&self) -> (j: Json) {
        proof {
            reveal(<Proxies as Wire>::wire);
        }
        let mut members: Vec<Member> = Vec::new();
        put(&mut members, "proxies", self.proxies.encode());
        seal(members, "proxies")
    }

    fn decode(j: &Json, at: &str) -> (r: Result<Self, DecodeError>) {
        proof {
            reveal(<Proxies as Wire>::wire);
            reveal(<Proxies as Wire>::parse);
        }
        let members = members_of(j, at)?;
        let proxies = read_field::<Vec<Proxy>>(members, "proxies")?;
        Ok(Proxies { proxies })
    }

    proof fn round_trip(&self, at: Seq<char>) {
        reveal(<Proxies as Wire>::wire);
        reveal(<Proxies as Wire>::parse);
        reveal_strlit("@type");
        reveal_strlit("proxies");
        assert("@type"@.len() == 5);
        assert("proxies"@.len() == 7);
        self.proxies.round_trip("proxies"@);
    }
}

impl Tagged for Proxies {
    open spec fn known(tag: Seq<char>) -> bool {
        tag == "proxies"@
    }

    fn knows(tag: &str) -> (r: bool) {
        same_text(tag, "proxies")
    }

    proof fn tag_known(&self) {
        reveal(<Proxies as Wire>::wire);
        assert(tag_of(self.wire()) == Some("proxies"@));
        assert(Self::known("proxies"@));
    }
}

/// Describes a sticker that should be added to a sticker set
#[derive(Debug, Clone, PartialEq)]
pub struct InputSticker {
    /// PNG image with the sticker; must be up to 512 kB in size and fit in a 512x512 square
    pub png_sticker: InputFile,
    /// Emoji corresponding to the sticker
    pub emojis: String,
    /// For masks, position where the mask should be placed; may be null
    pub mask_position: Option<MaskPosition>,
}

impl Wire for InputSticker {
    #[verifier::opaque]
    open spec fn wire(&self) -> Doc {
        tagged(
            Map::empty()
                .insert("pngSticker"@, self.png_sticker.wire())
                .insert("emojis"@, self.emojis.wire())
                .insert("maskPosition"@, self.mask_position.wire()),
            "inputSticker"@,
        )
    }

    #[verifier::opaque]
    open spec fn parse(d: Doc, at: Seq<char>) -> Result<Doc, Fault> {
        match d {
            Doc::Object(m) => {
                let png_sticker = field::<InputFile>(m, "pngSticker"@);
                let emojis = field::<String>(m, "emojis"@);
                let mask_position = optional_field::<MaskPosition>(m, "maskPosition"@);
                if png_sticker is Err {
                    png_sticker
                } else if emojis is Err {
                    emojis
                } else if mask_position is Err {
                    mask_position
                } else {
                    Ok(
                        tagged(
                            Map::empty()
                                .insert("pngSticker"@, png_sticker->Ok_0)
                                .insert("emojis"@, emojis->Ok_0)
                                .insert("maskPosition"@, mask_position->Ok_0),
                            "inputSticker"@,
                        ),
                    )
                }
            },
            _ => Err(Fault::TypeMismatch(at)),
        }
    }

    fn encode(&self) -> (j: Json) {
        proof {
            reveal(<InputSticker as Wire>::wire);
        }
        let mut members: Vec<Member> = Vec::new();
        put(&mut members, "pngSticker", self.png_sticker.encode());
        put(&mut members, "emojis", self.emojis.encode());
        put(&mut members, "maskPosition", self.mask_position.encode());
        seal(members, "inputSticker")
    }

    fn decode(j: &Json, at: &str) -> (r: Result<Self, DecodeError>) {
        proof {
            reveal(<InputSticker as Wire>::wire);
            reveal(<InputSticker as Wire>::parse);
        }
        let members = members_of(j, at)?;
        let png_sticker = read_field::<InputFile>(members, "pngSticker")?;
        let emojis = read_field::<String>(members, "emojis")?;
        let mask_position = read_optional::<MaskPosition>(members, "maskPosition")?;
        Ok(InputSticker { png_sticker, emojis, mask_position })
    }

    proof fn round_trip(&self, at: Seq<char>) {
        reveal(<InputSticker as Wire>::wire);
        reveal(<InputSticker as Wire>::parse);
        reveal_strlit("@type");
        reveal_strlit("emojis");
        reveal_strlit("maskPosition");
        reveal_strlit("pngSticker");
        assert("@type"@.len() == 5);
        assert("emojis"@.len() == 6);
        assert("maskPosition"@.len() == 12);
        assert("pngSticker"@.len() == 10);
        self.png_sticker.round_trip("pngSticker"@);
        self.emojis.round_trip("emojis"@);
        self.mask_position.round_trip("maskPosition"@);
    }
}

impl Tagged for InputSticker {
    open spec fn known(tag: Seq<char>) -> bool {
        tag == "inputSticker"@
    }

    fn knows(tag: &str) -> (r: bool) {
        same_text(tag, "inputSticker")
    }

    proof fn tag_known(&self) {
        reveal(<InputSticker as Wire>::wire);
        assert(tag_of(self.wire()) == Some("inputSticker"@));
        assert(Self::known("inputSticker"@));
    }
}

} // verus!
