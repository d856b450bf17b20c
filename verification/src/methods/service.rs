//! Requests on sticker sets, proxies, logs and tests.

use vstd::prelude::*;
use crate::codec::{
    encode_wide, field, lemma_wide_round_trip, members_of, put, read_field, read_wide, seal,
    Tagged, wide_doc, wide_field, Wire,
};
use crate::error::{DecodeError, Fault};
use crate::json::{Doc, Json, Member, Number, tag_of, tagged};
use crate::methods::Method;
use crate::text::same_text;
use crate::types::{
    CustomRequestResult, DeepLinkInfo, Error, File, InputFile, InputSticker, JsonValue, Location,
    LogStream, LogTags, LogVerbosityLevel, Okay, Proxies, Proxy, ProxyType, Seconds, StickerSet,
    TestBytes, TestInt, TestString, TestVectorInt, TestVectorIntObject, TestVectorString,
    TestVectorStringObject, Text, Update,
};

verus! {

/// Informs the server about the number of pending bot updates if they haven't been processed for a
/// long time; for bots only
#[derive(Debug, Clone)]
pub struct SetBotUpdatesStatus {
    /// The number of pending updates
    pub pending_update_count: i32,
    /// The last error message
    pub error_message: String,
}

impl Wire for SetBotUpdatesStatus {
    #[verifier::opaque]
    open spec fn wire(&self) -> Doc {
        tagged(
            Map::empty()
                .insert("pendingUpdateCount"@, self.pending_update_count.wire())
                .insert("errorMessage"@, self.error_message.wire()),
            "setBotUpdatesStatus"@,
        )
    }

    #[verifier::opaque]
    open spec fn parse(d: Doc, at: Seq<char>) -> Result<Doc, Fault> {
        match d {
            Doc::Object(m) => {
                let pending_update_count = field::<i32>(m, "pendingUpdateCount"@);
                let error_message = field::<String>(m, "errorMessage"@);
                if pending_update_count is Err {
                    pending_update_count
                } else if error_message is Err {
                    error_message
                } else {
                    Ok(
                        tagged(
                            Map::empty()
                                .insert("pendingUpdateCount"@, pending_update_count->Ok_0)
                                .insert("errorMessage"@, error_message->Ok_0),
                            "setBotUpdatesStatus"@,
                        ),
                    )
                }
            },
            _ => Err(Fault::TypeMismatch(at)),
        }
    }

    fn encode(&self) -> (j: Json) {
        proof {
            reveal(<SetBotUpdatesStatus as Wire>::wire);
        }
        let mut members: Vec<Member> = Vec::new();
        put(&mut members, "pendingUpdateCount", self.pending_update_count.encode());
        put(&mut members, "errorMessage", self.error_message.encode());
        seal(members, "setBotUpdatesStatus")
    }

    fn decode(j: &Json, at: &str) -> (r: Result<Self, DecodeError>) {
        proof {
            reveal(<SetBotUpdatesStatus as Wire>::wire);
            reveal(<SetBotUpdatesStatus as Wire>::parse);
        }
        let members = members_of(j, at)?;
        let pending_update_count = read_field::<i32>(members, "pendingUpdateCount")?;
        let error_message = read_field::<String>(members, "errorMessage")?;
        Ok(SetBotUpdatesStatus { pending_update_count, error_message })
    }

    proof fn round_trip(&self, at: Seq<char>) {
        reveal(<SetBotUpdatesStatus as Wire>::wire);
        reveal(<SetBotUpdatesStatus as Wire>::parse);
        reveal_strlit("@type");
        reveal_strlit("errorMessage");
        reveal_strlit("pendingUpdateCount");
        assert("@type"@.len() == 5);
        assert("errorMessage"@.len() == 12);
        assert("pendingUpdateCount"@.len() == 18);
        self.pending_update_count.round_trip("pendingUpdateCount"@);
        self.error_message.round_trip("errorMessage"@);
    }
}

impl Tagged for SetBotUpdatesStatus {
    open spec fn known(tag: Seq<char>) -> bool {
        tag == "setBotUpdatesStatus"@
    }

    fn knows(tag: &str) -> (r: bool) {
        same_text(tag, "setBotUpdatesStatus")
    }

    proof fn tag_known(&self) {
        reveal(<SetBotUpdatesStatus as Wire>::wire);
        assert(tag_of(self.wire()) == Some("setBotUpdatesStatus"@));
        assert(Self::known("setBotUpdatesStatus"@));
    }
}

impl Method for SetBotUpdatesStatus {
    const TYPE: &'static str = "setBotUpdatesStatus";

    type Response = Okay;

    proof fn type_is_tag(&self) {
        reveal(<SetBotUpdatesStatus as Wire>::wire);
        assert(tag_of(self.wire()) == Some("setBotUpdatesStatus"@));
    }
}

/// Uploads a PNG image with a sticker; for bots only; returns the uploaded file
#[derive(Debug, Clone)]
pub struct UploadStickerFile {
    /// Sticker file owner
    pub user_id: i32,
    /// PNG image with the sticker; must be up to 512 kB in size and fit in 512x512 square
    pub png_sticker: InputFile,
}

impl Wire for UploadStickerFile {
    #[verifier::opaque]
    open spec fn wire(&self) -> Doc {
        tagged(
            Map::empty()
                .insert("userId"@, self.user_id.wire())
                .insert("pngSticker"@, self.png_sticker.wire()),
            "uploadStickerFile"@,
        )
    }

    #[verifier::opaque]
    open spec fn parse(d: Doc, at: Seq<char>) -> Result<Doc, Fault> {
        match d {
            Doc::Object(m) => {
                let user_id = field::<i32>(m, "userId"@);
                let png_sticker = field::<InputFile>(m, "pngSticker"@);
                if user_id is Err {
                    user_id
                } else if png_sticker is Err {
                    png_sticker
                } else {
                    Ok(
                        tagged(
                            Map::empty()
                                .insert("userId"@, user_id->Ok_0)
                                .insert("pngSticker"@, png_sticker->Ok_0),
                            "uploadStickerFile"@,
                        ),
                    )
                }
            },
            _ => Err(Fault::TypeMismatch(at)),
        }
    }

    fn encode(&self) -> (j: Json) {
        proof {
            reveal(<UploadStickerFile as Wire>::wire);
        }
        let mut members: Vec<Member> = Vec::new();
        put(&mut members, "userId", self.user_id.encode());
        put(&mut members, "pngSticker", self.png_sticker.encode());
        seal(members, "uploadStickerFile")
    }

    fn decode(j: &Json, at: &str) -> (r: Result<Self, DecodeError>) {
        proof {
            reveal(<UploadStickerFile as Wire>::wire);
            reveal(<UploadStickerFile as Wire>::parse);
        }
        let members = members_of(j, at)?;
        let user_id = read_field::<i32>(members, "userId")?;
        let png_sticker = read_field::<InputFile>(members, "pngSticker")?;
        Ok(UploadStickerFile { user_id, png_sticker })
    }

    proof fn round_trip(&self, at: Seq<char>) {
        reveal(<UploadStickerFile as Wire>::wire);
        reveal(<UploadStickerFile as Wire>::parse);
        reveal_strlit("@type");
        reveal_strlit("pngSticker");
        reveal_strlit("userId");
        assert("@type"@.len() == 5);
        assert("pngSticker"@.len() == 10);
        assert("userId"@.len() == 6);
        self.user_id.round_trip("userId"@);
        self.png_sticker.round_trip("pngSticker"@);
    }
}

impl Tagged for UploadStickerFile {
    open spec fn known(tag: Seq<char>) -> bool {
        tag == "uploadStickerFile"@
    }

    fn knows(tag: &str) -> (r: bool) {
        same_text(tag, "uploadStickerFile")
    }

    proof fn tag_known(&self) {
        reveal(<UploadStickerFile as Wire>::wire);
        assert(tag_of(self.wire()) == Some("uploadStickerFile"@));
        assert(Self::known("uploadStickerFile"@));
    }
}

impl Method for UploadStickerFile {
    const TYPE: &'static str = "uploadStickerFile";

    type Response = File;

    proof fn type_is_tag(&self) {
        reveal(<UploadStickerFile as Wire>::wire);
        assert(tag_of(self.wire()) == Some("uploadStickerFile"@));
    }
}

/// Creates a new sticker set; for bots only. Returns the newly created sticker set
#[derive(Debug, Clone)]
pub struct CreateNewStickerSet {
    /// Sticker set owner
    pub user_id: i32,
    /// Sticker set title; 1-64 characters
    pub title: String,
    /// Sticker set name. Can contain only English letters, digits and underscores. Must end with
    /// *"_by_<bot username>"* (*<bot_username>* is case insensitive); 1-64 characters
    pub name: String,
    /// True, if stickers are masks
    pub is_masks: bool,
    /// List of stickers to be added to the set
    pub stickers: Vec<InputSticker>,
}

impl Wire for CreateNewStickerSet {
    #[verifier::opaque]
    open spec fn wire(&self) -> Doc {
        tagged(
            Map::empty()
                .insert("userId"@, self.user_id.wire())
                .insert("title"@, self.title.wire())
                .insert("name"@, self.name.wire())
                .insert("isMasks"@, self.is_masks.wire())
                .insert("stickers"@, self.stickers.wire()),
            "createNewStickerSet"@,
        )
    }

    #[verifier::opaque]
    open spec fn parse(d: Doc, at: Seq<char>) -> Result<Doc, Fault> {
        match d {
            Doc::Object(m) => {
                let user_id = field::<i32>(m, "userId"@);
                let title = field::<String>(m, "title"@);
                let name = field::<String>(m, "name"@);
                let is_masks = field::<bool>(m, "isMasks"@);
                let stickers = field::<Vec<InputSticker>>(m, "stickers"@);
                if user_id is Err {
                    user_id
                } else if title is Err {
                    title
                } else if name is Err {
                    name
                } else if is_masks is Err {
                    is_masks
                } else if stickers is Err {
                    stickers
                } else {
                    Ok(
                        tagged(
                            Map::empty()
                                .insert("userId"@, user_id->Ok_0)
                                .insert("title"@, title->Ok_0)
                                .insert("name"@, name->Ok_0)
                                .insert("isMasks"@, is_masks->Ok_0)
                                .insert("stickers"@, stickers->Ok_0),
                            "createNewStickerSet"@,
                        ),
                    )
                }
            },
            _ => Err(Fault::TypeMismatch(at)),
        }
    }

    fn encode(&self) -> (j: Json) {
        proof {
            reveal(<CreateNewStickerSet as Wire>::wire);
        }
        let mut members: Vec<Member> = Vec::new();
        put(&mut members, "userId", self.user_id.encode());
        put(&mut members, "title", self.title.encode());
        put(&mut members, "name", self.name.encode());
        put(&mut members, "isMasks", self.is_masks.encode());
        put(&mut members, "stickers", self.stickers.encode());
        seal(members, "createNewStickerSet")
    }

    fn decode(j: &Json, at: &str) -> (r: Result<Self, DecodeError>) {
        proof {
            reveal(<CreateNewStickerSet as Wire>::wire);
            reveal(<CreateNewStickerSet as Wire>::parse);
        }
        let members = members_of(j, at)?;
        let user_id = read_field::<i32>(members, "userId")?;
        let title = read_field::<String>(members, "title")?;
        let name = read_field::<String>(members, "name")?;
        let is_masks = read_field::<bool>(members, "isMasks")?;
        let stickers = read_field::<Vec<InputSticker>>(members, "stickers")?;
        Ok(CreateNewStickerSet { user_id, title, name, is_masks, stickers })
    }

    proof fn round_trip(&self, at: Seq<char>) {
        reveal(<CreateNewStickerSet as Wire>::wire);
        reveal(<CreateNewStickerSet as Wire>::parse);
        reveal_strlit("@type");
        reveal_strlit("isMasks");
        reveal_strlit("name");
        reveal_strlit("stickers");
        reveal_strlit("title");
        reveal_strlit("userId");
        assert("@type"@.len() == 5 && "@type"@[0] == '@');
        assert("isMasks"@.len() == 7);
        assert("name"@.len() == 4);
        assert("stickers"@.len() == 8);
        assert("title"@.len() == 5 && "title"@[0] == 't');
        assert("userId"@.len() == 6);
        self.user_id.round_trip("userId"@);
        self.title.round_trip("title"@);
        self.name.round_trip("name"@);
        self.is_masks.round_trip("isMasks"@);
        self.stickers.round_trip("stickers"@);
    }
}

impl Tagged for CreateNewStickerSet {
    open spec fn known(tag: Seq<char>) -> bool {
        tag == "createNewStickerSet"@
    }

    fn knows(tag: &str) -> (r: bool) {
        same_text(tag, "createNewStickerSet")
    }

    proof fn tag_known(&self) {
        reveal(<CreateNewStickerSet as Wire>::wire);
        assert(tag_of(self.wire()) == Some("createNewStickerSet"@));
        assert(Self::known("createNewStickerSet"@));
    }
}

impl Method for CreateNewStickerSet {
    const TYPE: &'static str = "createNewStickerSet";

    type Response = StickerSet;

    proof fn type_is_tag(&self) {
        reveal(<CreateNewStickerSet as Wire>::wire);
        assert(tag_of(self.wire()) == Some("createNewStickerSet"@));
    }
}

/// Adds a new sticker to a set; for bots only. Returns the sticker set
#[derive(Debug, Clone)]
pub struct AddStickerToSet {
    /// Sticker set owner
    pub user_id: i32,
    /// Sticker set name
    pub name: String,
    /// Sticker to add to the set
    pub sticker: InputSticker,
}

impl Wire for AddStickerToSet {
    #[verifier::opaque]
    open spec fn wire(&self) -> Doc {
        tagged(
            Map::empty()
                .insert("userId"@, self.user_id.wire())
                .insert("name"@, self.name.wire())
                .insert("sticker"@, self.sticker.wire()),
            "addStickerToSet"@,
        )
    }

    #[verifier::opaque]
    open spec fn parse(d: Doc, at: Seq<char>) -> Result<Doc, Fault> {
        match d {
            Doc::Object(m) => {
                let user_id = field::<i32>(m, "userId"@);
                let name = field::<String>(m, "name"@);
                let sticker = field::<InputSticker>(m, "sticker"@);
                if user_id is Err {
                    user_id
                } else if name is Err {
                    name
                } else if sticker is Err {
                    sticker
                } else {
                    Ok(
                        tagged(
                            Map::empty()
                                .insert("userId"@, user_id->Ok_0)
                                .insert("name"@, name->Ok_0)
                                .insert("sticker"@, sticker->Ok_0),
                            "addStickerToSet"@,
                        ),
                    )
                }
            },
            _ => Err(Fault::TypeMismatch(at)),
        }
    }

    fn encode(&self) -> (j: Json) {
        proof {
            reveal(<AddStickerToSet as Wire>::wire);
        }
        let mut members: Vec<Member> = Vec::new();
        put(&mut members, "userId", self.user_id.encode());
        put(&mut members, "name", self.name.encode());
        put(&mut members, "sticker", self.sticker.encode());
        seal(members, "addStickerToSet")
    }

    fn decode(j: &Json, at: &str) -> (r: Result<Self, DecodeError>) {
        proof {
            reveal(<AddStickerToSet as Wire>::wire);
            reveal(<AddStickerToSet as Wire>::parse);
        }
        let members = members_of(j, at)?;
        let user_id = read_field::<i32>(members, "userId")?;
        let name = read_field::<String>(members, "name")?;
        let sticker = read_field::<InputSticker>(members, "sticker")?;
        Ok(AddStickerToSet { user_id, name, sticker })
    }

    proof fn round_trip(&self, at: Seq<char>) {
        reveal(<AddStickerToSet as Wire>::wire);
        reveal(<AddStickerToSet as Wire>::parse);
        reveal_strlit("@type");
        reveal_strlit("name");
        reveal_strlit("sticker");
        reveal_strlit("userId");
        assert("@type"@.len() == 5);
        assert("name"@.len() == 4);
        assert("sticker"@.len() == 7);
        assert("userId"@.len() == 6);
        self.user_id.round_trip("userId"@);
        self.name.round_trip("name"@);
        self.sticker.round_trip("sticker"@);
    }
}

impl Tagged for AddStickerToSet {
    open spec fn known(tag: Seq<char>) -> bool {
        tag == "addStickerToSet"@
    }

    fn knows(tag: &str) -> (r: bool) {
        same_text(tag, "addStickerToSet")
    }

    proof fn tag_known(&self) {
        reveal(<AddStickerToSet as Wire>::wire);
        assert(tag_of(self.wire()) == Some("addStickerToSet"@));
        assert(Self::known("addStickerToSet"@));
    }
}

impl Method for AddStickerToSet {
    const TYPE: &'static str = "addStickerToSet";

    type Response = StickerSet;

    proof fn type_is_tag(&self) {
        reveal(<AddStickerToSet as Wire>::wire);
        assert(tag_of(self.wire()) == Some("addStickerToSet"@));
    }
}

/// Changes the position of a sticker in the set to which it belongs; for bots only. The sticker set
/// must have been created by the bot
#[derive(Debug, Clone)]
pub struct SetStickerPositionInSet {
    /// Sticker
    pub sticker: InputFile,
    /// New position of the sticker in the set, zero-based
    pub position: i32,
}

impl Wire for SetStickerPositionInSet {
    #[verifier::opaque]
    open spec fn wire(&self) -> Doc {
        tagged(
            Map::empty()
                .insert("sticker"@, self.sticker.wire())
                .insert("position"@, self.position.wire()),
            "setStickerPositionInSet"@,
        )
    }

    #[verifier::opaque]
    open spec fn parse(d: Doc, at: Seq<char>) -> Result<Doc, Fault> {
        match d {
            Doc::Object(m) => {
                let sticker = field::<InputFile>(m, "sticker"@);
                let position = field::<i32>(m, "position"@);
                if sticker is Err {
                    sticker
                } else if position is Err {
                    position
                } else {
                    Ok(
                        tagged(
                            Map::empty()
                                .insert("sticker"@, sticker->Ok_0)
                                .insert("position"@, position->Ok_0),
                            "setStickerPositionInSet"@,
                        ),
                    )
                }
            },
            _ => Err(Fault::TypeMismatch(at)),
        }
    }

    fn encode(&self) -> (j: Json) {
        proof {
            reveal(<SetStickerPositionInSet as Wire>::wire);
        }
        let mut members: Vec<Member> = Vec::new();
        put(&mut members, "sticker", self.sticker.encode());
        put(&mut members, "position", self.position.encode());
        seal(members, "setStickerPositionInSet")
    }

    fn decode(j: &Json, at: &str) -> (r: Result<Self, DecodeError>) {
        proof {
            reveal(<SetStickerPositionInSet as Wire>::wire);
            reveal(<SetStickerPositionInSet as Wire>::parse);
        }
        let members = members_of(j, at)?;
        let sticker = read_field::<InputFile>(members, "sticker")?;
        let position = read_field::<i32>(members, "position")?;
        Ok(SetStickerPositionInSet { sticker, position })
    }

    proof fn round_trip(&self, at: Seq<char>) {
        reveal(<SetStickerPositionInSet as Wire>::wire);
        reveal(<SetStickerPositionInSet as Wire>::parse);
        reveal_strlit("@type");
        reveal_strlit("position");
        reveal_strlit("sticker");
        assert("@type"@.len() == 5);
        assert("position"@.len() == 8);
        assert("sticker"@.len() == 7);
        self.sticker.round_trip("sticker"@);
        self.position.round_trip("position"@);
    }
}

impl Tagged for SetStickerPositionInSet {
    open spec fn known(tag: Seq<char>) -> bool {
        tag == "setStickerPositionInSet"@
    }

    fn knows(tag: &str) -> (r: bool) {
        same_text(tag, "setStickerPositionInSet")
    }

    proof fn tag_known(&self) {
        reveal(<SetStickerPositionInSet as Wire>::wire);
        assert(tag_of(self.wire()) == Some("setStickerPositionInSet"@));
        assert(Self::known("setStickerPositionInSet"@));
    }
}

impl Method for SetStickerPositionInSet {
    const TYPE: &'static str = "setStickerPositionInSet";

    type Response = Okay;

    proof fn type_is_tag(&self) {
        reveal(<SetStickerPositionInSet as Wire>::wire);
        assert(tag_of(self.wire()) == Some("setStickerPositionInSet"@));
    }
}

/// Removes a sticker from the set to which it belongs; for bots only. The sticker set must have
/// been created by the bot
#[derive(Debug, Clone)]
pub struct RemoveStickerFromSet {
    /// Sticker
    pub sticker: InputFile,
}

impl Wire for RemoveStickerFromSet {
    #[verifier::opaque]
    open spec fn wire(&self) -> Doc {
        tagged(
            Map::empty()
                .insert("sticker"@, self.sticker.wire()),
            "removeStickerFromSet"@,
        )
    }

    #[verifier::opaque]
    open spec fn parse(d: Doc, at: Seq<char>) -> Result<Doc, Fault> {
        match d {
            Doc::Object(m) => {
                let sticker = field::<InputFile>(m, "sticker"@);
                if sticker is Err {
                    sticker
                } else {
                    Ok(
                        tagged(
                            Map::empty()
                                .insert("sticker"@, sticker->Ok_0),
                            "removeStickerFromSet"@,
                        ),
                    )
                }
            },
            _ => Err(Fault::TypeMismatch(at)),
        }
    }

    fn encode(&self) -> (j: Json) {
        proof {
            reveal(<RemoveStickerFromSet as Wire>::wire);
        }
        let mut members: Vec<Member> = Vec::new();
        put(&mut members, "sticker", self.sticker.encode());
        seal(members, "removeStickerFromSet")
    }

    fn decode(j: &Json, at: &str) -> (r: Result<Self, DecodeError>) {
        proof {
            reveal(<RemoveStickerFromSet as Wire>::wire);
            reveal(<RemoveStickerFromSet as Wire>::parse);
        }
        let members = members_of(j, at)?;
        let sticker = read_field::<InputFile>(members, "sticker")?;
        Ok(RemoveStickerFromSet { sticker })
    }

    proof fn round_trip(&self, at: Seq<char>) {
        reveal(<RemoveStickerFromSet as Wire>::wire);
        reveal(<RemoveStickerFromSet as Wire>::parse);
        reveal_strlit("@type");
        reveal_strlit("sticker");
        assert("@type"@.len() == 5);
        assert("sticker"@.len() == 7);
        self.sticker.round_trip("sticker"@);
    }
}

impl Tagged for RemoveStickerFromSet {
    open spec fn known(tag: Seq<char>) -> bool {
        tag == "removeStickerFromSet"@
    }

    fn knows(tag: &str) -> (r: bool) {
        same_text(tag, "removeStickerFromSet")
    }

    proof fn tag_known(&self) {
        reveal(<RemoveStickerFromSet as Wire>::wire);
        assert(tag_of(self.wire()) == Some("removeStickerFromSet"@));
        assert(Self::known("removeStickerFromSet"@));
    }
}

impl Method for RemoveStickerFromSet {
    const TYPE: &'static str = "removeStickerFromSet";

    type Response = Okay;

    proof fn type_is_tag(&self) {
        reveal(<RemoveStickerFromSet as Wire>::wire);
        assert(tag_of(self.wire()) == Some("removeStickerFromSet"@));
    }
}

/// Returns information about a file with a map thumbnail in PNG format. Only map thumbnail files
/// with size less than 1MB can be downloaded
#[derive(Debug, Clone)]
pub struct GetMapThumbnailFile {
    /// Location of the map center
    pub location: Location,
    /// Map zoom level; 13-20
    pub zoom: i32,
    /// Map width in pixels before applying scale; 16-1024
    pub width: i32,
    /// Map height in pixels before applying scale; 16-1024
    pub height: i32,
    /// Map scale; 1-3
    pub scale: i32,
    /// Identifier of a chat, in which the thumbnail will be shown. Use 0 if unknown
    pub chat_id: i64,
}

impl Wire for GetMapThumbnailFile {
    #[verifier::opaque]
    open spec fn wire(&self) -> Doc {
        tagged(
            Map::empty()
                .insert("location"@, self.location.wire())
                .insert("zoom"@, self.zoom.wire())
                .insert("width"@, self.width.wire())
                .insert("height"@, self.height.wire())
                .insert("scale"@, self.scale.wire())
                .insert("chatId"@, self.chat_id.wire()),
            "getMapThumbnailFile"@,
        )
    }

    #[verifier::opaque]
    open spec fn parse(d: Doc, at: Seq<char>) -> Result<Doc, Fault> {
        match d {
            Doc::Object(m) => {
                let location = field::<Location>(m, "location"@);
                let zoom = field::<i32>(m, "zoom"@);
                let width = field::<i32>(m, "width"@);
                let height = field::<i32>(m, "height"@);
                let scale = field::<i32>(m, "scale"@);
                let chat_id = field::<i64>(m, "chatId"@);
                if location is Err {
                    location
                } else if zoom is Err {
                    zoom
                } else if width is Err {
                    width
                } else if height is Err {
                    height
                } else if scale is Err {
                    scale
                } else if chat_id is Err {
                    chat_id
                } else {
                    Ok(
                        tagged(
                            Map::empty()
                                .insert("location"@, location->Ok_0)
                                .insert("zoom"@, zoom->Ok_0)
                                .insert("width"@, width->Ok_0)
                                .insert("height"@, height->Ok_0)
                                .insert("scale"@, scale->Ok_0)
                                .insert("chatId"@, chat_id->Ok_0),
                            "getMapThumbnailFile"@,
                        ),
                    )
                }
            },
            _ => Err(Fault::TypeMismatch(at)),
        }
    }

    fn encode(&self) -> (j: Json) {
        proof {
            reveal(<GetMapThumbnailFile as Wire>::wire);
        }
        let mut members: Vec<Member> = Vec::new();
        put(&mut members, "location", self.location.encode());
        put(&mut members, "zoom", self.zoom.encode());
        put(&mut members, "width", self.width.encode());
        put(&mut members, "height", self.height.encode());
        put(&mut members, "scale", self.scale.encode());
        put(&mut members, "chatId", self.chat_id.encode());
        seal(members, "getMapThumbnailFile")
    }

    fn decode(j: &Json, at: &str) -> (r: Result<Self, DecodeError>) {
        proof {
            reveal(<GetMapThumbnailFile as Wire>::wire);
            reveal(<GetMapThumbnailFile as Wire>::parse);
        }
        let members = members_of(j, at)?;
        let location = read_field::<Location>(members, "location")?;
        let zoom = read_field::<i32>(members, "zoom")?;
        let width = read_field::<i32>(members, "width")?;
        let height = read_field::<i32>(members, "height")?;
        let scale = read_field::<i32>(members, "scale")?;
        let chat_id = read_field::<i64>(members, "chatId")?;
        Ok(GetMapThumbnailFile { location, zoom, width, height, scale, chat_id })
    }

    proof fn round_trip(&self, at: Seq<char>) {
        reveal(<GetMapThumbnailFile as Wire>::wire);
        reveal(<GetMapThumbnailFile as Wire>::parse);
        reveal_strlit("@type");
        reveal_strlit("chatId");
        reveal_strlit("height");
        reveal_strlit("location");
        reveal_strlit("scale");
        reveal_strlit("width");
        reveal_strlit("zoom");
        assert("@type"@.len() == 5 && "@type"@[0] == '@');
        assert("chatId"@.len() == 6 && "chatId"@[0] == 'c');
        assert("height"@.len() == 6 && "height"@[0] == 'h');
        assert("location"@.len() == 8);
        assert("scale"@.len() == 5 && "scale"@[0] == 's');
        assert("width"@.len() == 5 && "width"@[0] == 'w');
        assert("zoom"@.len() == 4);
        self.location.round_trip("location"@);
        self.zoom.round_trip("zoom"@);
        self.width.round_trip("width"@);
        self.height.round_trip("height"@);
        self.scale.round_trip("scale"@);
        self.chat_id.round_trip("chatId"@);
    }
}

impl Tagged for GetMapThumbnailFile {
    open spec fn known(tag: Seq<char>) -> bool {
        tag == "getMapThumbnailFile"@
    }

    fn knows(tag: &str) -> (r: bool) {
        same_text(tag, "getMapThumbnailFile")
    }

    proof fn tag_known(&self) {
        reveal(<GetMapThumbnailFile as Wire>::wire);
        assert(tag_of(self.wire()) == Some("getMapThumbnailFile"@));
        assert(Self::known("getMapThumbnailFile"@));
    }
}

impl Method for GetMapThumbnailFile {
    const TYPE: &'static str = "getMapThumbnailFile";

    type Response = File;

    proof fn type_is_tag(&self) {
        reveal(<GetMapThumbnailFile as Wire>::wire);
        assert(tag_of(self.wire()) == Some("getMapThumbnailFile"@));
    }
}

/// Accepts Telegram terms of services
#[derive(Debug, Clone)]
pub struct AcceptTermsOfService {
    /// Terms of service identifier
    pub terms_of_service_id: String,
}

impl Wire for AcceptTermsOfService {
    #[verifier::opaque]
    open spec fn wire(&self) -> Doc {
        tagged(
            Map::empty()
                .insert("termsOfServiceId"@, self.terms_of_service_id.wire()),
            "acceptTermsOfService"@,
        )
    }

    #[verifier::opaque]
    open spec fn parse(d: Doc, at: Seq<char>) -> Result<Doc, Fault> {
        match d {
            Doc::Object(m) => {
                let terms_of_service_id = field::<String>(m, "termsOfServiceId"@);
                if terms_of_service_id is Err {
                    terms_of_service_id
                } else {
                    Ok(
                        tagged(
                            Map::empty()
                                .insert("termsOfServiceId"@, terms_of_service_id->Ok_0),
                            "acceptTermsOfService"@,
                        ),
                    )
                }
            },
            _ => Err(Fault::TypeMismatch(at)),
        }
    }

    fn encode(&self) -> (j: Json) {
        proof {
            reveal(<AcceptTermsOfService as Wire>::wire);
        }
        let mut members: Vec<Member> = Vec::new();
        put(&mut members, "termsOfServiceId", self.terms_of_service_id.encode());
        seal(members, "acceptTermsOfService")
    }

    fn decode(j: &Json, at: &str) -> (r: Result<Self, DecodeError>) {
        proof {
            reveal(<AcceptTermsOfService as Wire>::wire);
            reveal(<AcceptTermsOfService as Wire>::parse);
        }
        let members = members_of(j, at)?;
        let terms_of_service_id = read_field::<String>(members, "termsOfServiceId")?;
        Ok(AcceptTermsOfService { terms_of_service_id })
    }

    proof fn round_trip(&self, at: Seq<char>) {
        reveal(<AcceptTermsOfService as Wire>::wire);
        reveal(<AcceptTermsOfService as Wire>::parse);
        reveal_strlit("@type");
        reveal_strlit("termsOfServiceId");
        assert("@type"@.len() == 5);
        assert("termsOfServiceId"@.len() == 16);
        self.terms_of_service_id.round_trip("termsOfServiceId"@);
    }
}

impl Tagged for AcceptTermsOfService {
    open spec fn known(tag: Seq<char>) -> bool {
        tag == "acceptTermsOfService"@
    }

    fn knows(tag: &str) -> (r: bool) {
        same_text(tag, "acceptTermsOfService")
    }

    proof fn tag_known(&self) {
        reveal(<AcceptTermsOfService as Wire>::wire);
        assert(tag_of(self.wire()) == Some("acceptTermsOfService"@));
        assert(Self::known("acceptTermsOfService"@));
    }
}

impl Method for AcceptTermsOfService {
    const TYPE: &'static str = "acceptTermsOfService";

    type Response = Okay;

    proof fn type_is_tag(&self) {
        reveal(<AcceptTermsOfService as Wire>::wire);
        assert(tag_of(self.wire()) == Some("acceptTermsOfService"@));
    }
}

/// Sends a custom request; for bots only
#[derive(Debug, Clone)]
pub struct SendCustomRequest {
    /// The method name
    pub method: String,
    /// JSON-serialized method parameters
    pub parameters: String,
}

impl Wire for SendCustomRequest {
    #[verifier::opaque]
    open spec fn wire(&self) -> Doc {
        tagged(
            Map::empty()
                .insert("method"@, self.method.wire())
                .insert("parameters"@, self.parameters.wire()),
            "sendCustomRequest"@,
        )
    }

    #[verifier::opaque]
    open spec fn parse(d: Doc, at: Seq<char>) -> Result<Doc, Fault> {
        match d {
            Doc::Object(m) => {
                let method = field::<String>(m, "method"@);
                let parameters = field::<String>(m, "parameters"@);
                if method is Err {
                    method
                } else if parameters is Err {
                    parameters
                } else {
                    Ok(
                        tagged(
                            Map::empty()
                                .insert("method"@, method->Ok_0)
                                .insert("parameters"@, parameters->Ok_0),
                            "sendCustomRequest"@,
                        ),
                    )
                }
            },
            _ => Err(Fault::TypeMismatch(at)),
        }
    }

    fn encode(&self) -> (j: Json) {
        proof {
            reveal(<SendCustomRequest as Wire>::wire);
        }
        let mut members: Vec<Member> = Vec::new();
        put(&mut members, "method", self.method.encode());
        put(&mut members, "parameters", self.parameters.encode());
        seal(members, "sendCustomRequest")
    }

    fn decode(j: &Json, at: &str) -> (r: Result<Self, DecodeError>) {
        proof {
            reveal(<SendCustomRequest as Wire>::wire);
            reveal(<SendCustomRequest as Wire>::parse);
        }
        let members = members_of(j, at)?;
        let method = read_field::<String>(members, "method")?;
        let parameters = read_field::<String>(members, "parameters")?;
        Ok(SendCustomRequest { method, parameters })
    }

    proof fn round_trip(&self, at: Seq<char>) {
        reveal(<SendCustomRequest as Wire>::wire);
        reveal(<SendCustomRequest as Wire>::parse);
        reveal_strlit("@type");
        reveal_strlit("method");
        reveal_strlit("parameters");
        assert("@type"@.len() == 5);
        assert("method"@.len() == 6);
        assert("parameters"@.len() == 10);
        self.method.round_trip("method"@);
        self.parameters.round_trip("parameters"@);
    }
}

impl Tagged for SendCustomRequest {
    open spec fn known(tag: Seq<char>) -> bool {
        tag == "sendCustomRequest"@
    }

    fn knows(tag: &str) -> (r: bool) {
        same_text(tag, "sendCustomRequest")
    }

    proof fn tag_known(&self) {
        reveal(<SendCustomRequest as Wire>::wire);
        assert(tag_of(self.wire()) == Some("sendCustomRequest"@));
        assert(Self::known("sendCustomRequest"@));
    }
}

impl Method for SendCustomRequest {
    const TYPE: &'static str = "sendCustomRequest";

    type Response = CustomRequestResult;

    proof fn type_is_tag(&self) {
        reveal(<SendCustomRequest as Wire>::wire);
        assert(tag_of(self.wire()) == Some("sendCustomRequest"@));
    }
}

/// Answers a custom query; for bots only
#[derive(Debug, Clone)]
pub struct AnswerCustomQuery {
    /// Identifier of a custom query
    pub custom_query_id: i64,
    /// JSON-serialized answer to the query
    pub data: String,
}

impl Wire for AnswerCustomQuery {
    #[verifier::opaque]
    open spec fn wire(&self) -> Doc {
        tagged(
            Map::empty()
                .insert("customQueryId"@, wide_doc(self.custom_query_id))
                .insert("data"@, self.data.wire()),
            "answerCustomQuery"@,
        )
    }

    #[verifier::opaque]
    open spec fn parse(d: Doc, at: Seq<char>) -> Result<Doc, Fault> {
        match d {
            Doc::Object(m) => {
                let custom_query_id = wide_field(m, "customQueryId"@);
                let data = field::<String>(m, "data"@);
                if custom_query_id is Err {
                    custom_query_id
                } else if data is Err {
                    data
                } else {
                    Ok(
                        tagged(
                            Map::empty()
                                .insert("customQueryId"@, custom_query_id->Ok_0)
                                .insert("data"@, data->Ok_0),
                            "answerCustomQuery"@,
                        ),
                    )
                }
            },
            _ => Err(Fault::TypeMismatch(at)),
        }
    }

    fn encode(&self) -> (j: Json) {
        proof {
            reveal(<AnswerCustomQuery as Wire>::wire);
        }
        let mut members: Vec<Member> = Vec::new();
        put(&mut members, "customQueryId", encode_wide(self.custom_query_id));
        put(&mut members, "data", self.data.encode());
        seal(members, "answerCustomQuery")
    }

    fn decode(j: &Json, at: &str) -> (r: Result<Self, DecodeError>) {
        proof {
            reveal(<AnswerCustomQuery as Wire>::wire);
            reveal(<AnswerCustomQuery as Wire>::parse);
        }
        let members = members_of(j, at)?;
        let custom_query_id = read_wide(members, "customQueryId")?;
        let data = read_field::<String>(members, "data")?;
        Ok(AnswerCustomQuery { custom_query_id, data })
    }

    proof fn round_trip(&self, at: Seq<char>) {
        reveal(<AnswerCustomQuery as Wire>::wire);
        reveal(<AnswerCustomQuery as Wire>::parse);
        reveal_strlit("@type");
        reveal_strlit("customQueryId");
        reveal_strlit("data");
        assert("@type"@.len() == 5);
        assert("customQueryId"@.len() == 13);
        assert("data"@.len() == 4);
        lemma_wide_round_trip(self.custom_query_id, "customQueryId"@);
        self.data.round_trip("data"@);
    }
}

impl Tagged for AnswerCustomQuery {
    open spec fn known(tag: Seq<char>) -> bool {
        tag == "answerCustomQuery"@
    }

    fn knows(tag: &str) -> (r: bool) {
        same_text(tag, "answerCustomQuery")
    }

    proof fn tag_known(&self) {
        reveal(<AnswerCustomQuery as Wire>::wire);
        assert(tag_of(self.wire()) == Some("answerCustomQuery"@));
        assert(Self::known("answerCustomQuery"@));
    }
}

impl Method for AnswerCustomQuery {
    const TYPE: &'static str = "answerCustomQuery";

    type Response = Okay;

    proof fn type_is_tag(&self) {
        reveal(<AnswerCustomQuery as Wire>::wire);
        assert(tag_of(self.wire()) == Some("answerCustomQuery"@));
    }
}

/// Succeeds after a specified amount of time has passed. Can be called before authorization. Can be
/// called before initialization
#[derive(Debug, Clone)]
pub struct SetAlarm {
    /// Number of seconds before the function returns
    pub seconds: Number,
}

impl Wire for SetAlarm {
    #[verifier::opaque]
    open spec fn wire(&self) -> Doc {
        tagged(
            Map::empty()
                .insert("seconds"@, self.seconds.wire()),
            "setAlarm"@,
        )
    }

    #[verifier::opaque]
    open spec fn parse(d: Doc, at: Seq<char>) -> Result<Doc, Fault> {
        match d {
            Doc::Object(m) => {
                let seconds = field::<Number>(m, "seconds"@);
                if seconds is Err {
                    seconds
                } else {
                    Ok(
                        tagged(
                            Map::empty()
                                .insert("seconds"@, seconds->Ok_0),
                            "setAlarm"@,
                        ),
                    )
                }
            },
            _ => Err(Fault::TypeMismatch(at)),
        }
    }

    fn encode(&self) -> (j: Json) {
        proof {
            reveal(<SetAlarm as Wire>::wire);
        }
        let mut members: Vec<Member> = Vec::new();
        put(&mut members, "seconds", self.seconds.encode());
        seal(members, "setAlarm")
    }

    fn decode(j: &Json, at: &str) -> (r: Result<Self, DecodeError>) {
        proof {
            reveal(<SetAlarm as Wire>::wire);
            reveal(<SetAlarm as Wire>::parse);
        }
        let members = members_of(j, at)?;
        let seconds = read_field::<Number>(members, "seconds")?;
        Ok(SetAlarm { seconds })
    }

    proof fn round_trip(&self, at: Seq<char>) {
        reveal(<SetAlarm as Wire>::wire);
        reveal(<SetAlarm as Wire>::parse);
        reveal_strlit("@type");
        reveal_strlit("seconds");
        assert("@type"@.len() == 5);
        assert("seconds"@.len() == 7);
        self.seconds.round_trip("seconds"@);
    }
}

impl Tagged for SetAlarm {
    open spec fn known(tag: Seq<char>) -> bool {
        tag == "setAlarm"@
    }

    fn knows(tag: &str) -> (r: bool) {
        same_text(tag, "setAlarm")
    }

    proof fn tag_known(&self) {
        reveal(<SetAlarm as Wire>::wire);
        assert(tag_of(self.wire()) == Some("setAlarm"@));
        assert(Self::known("setAlarm"@));
    }
}

impl Method for SetAlarm {
    const TYPE: &'static str = "setAlarm";

    type Response = Okay;

    proof fn type_is_tag(&self) {
        reveal(<SetAlarm as Wire>::wire);
        assert(tag_of(self.wire()) == Some("setAlarm"@));
    }
}

/// Uses current user IP to found their country. Returns two-letter ISO 3166-1 alpha-2 country code.
/// Can be called before authorization
#[derive(Debug, Clone)]
pub struct GetCountryCode {}

impl Wire for GetCountryCode {
    #[verifier::opaque]
    open spec fn wire(&self) -> Doc {
        tagged(Map::empty(), "getCountryCode"@)
    }

    #[verifier::opaque]
    open spec fn parse(d: Doc, at: Seq<char>) -> Result<Doc, Fault> {
        match d {
            Doc::Object(_) => Ok(tagged(Map::empty(), "getCountryCode"@)),
            _ => Err(Fault::TypeMismatch(at)),
        }
    }

    fn encode(&self) -> (j: Json) {
        proof {
            reveal(<GetCountryCode as Wire>::wire);
        }
        seal(Vec::new(), "getCountryCode")
    }

    fn decode(j: &Json, at: &str) -> (r: Result<Self, DecodeError>) {
        proof {
            reveal(<GetCountryCode as Wire>::wire);
            reveal(<GetCountryCode as Wire>::parse);
        }
        let _ = members_of(j, at)?;
        Ok(GetCountryCode {})
    }

    proof fn round_trip(&self, at: Seq<char>) {
        reveal(<GetCountryCode as Wire>::wire);
        reveal(<GetCountryCode as Wire>::parse);
    }
}

impl Tagged for GetCountryCode {
    open spec fn known(tag: Seq<char>) -> bool {
        tag == "getCountryCode"@
    }

    fn knows(tag: &str) -> (r: bool) {
        same_text(tag, "getCountryCode")
    }

    proof fn tag_known(&self) {
        reveal(<GetCountryCode as Wire>::wire);
        assert(tag_of(self.wire()) == Some("getCountryCode"@));
        assert(Self::known("getCountryCode"@));
    }
}

impl Method for GetCountryCode {
    const TYPE: &'static str = "getCountryCode";

    type Response = Text;

    proof fn type_is_tag(&self) {
        reveal(<GetCountryCode as Wire>::wire);
        assert(tag_of(self.wire()) == Some("getCountryCode"@));
    }
}

/// Returns the default text for invitation messages to be used as a placeholder when the current
/// user invites friends to Telegram
#[derive(Debug, Clone)]
pub struct GetInviteText {}

impl Wire for GetInviteText {
    #[verifier::opaque]
    open spec fn wire(&self) -> Doc {
        tagged(Map::empty(), "getInviteText"@)
    }

    #[verifier::opaque]
    open spec fn parse(d: Doc, at: Seq<char>) -> Result<Doc, Fault> {
        match d {
            Doc::Object(_) => Ok(tagged(Map::empty(), "getInviteText"@)),
            _ => Err(Fault::TypeMismatch(at)),
        }
    }

    fn encode(&self) -> (j: Json) {
        proof {
            reveal(<GetInviteText as Wire>::wire);
        }
        seal(Vec::new(), "getInviteText")
    }

    fn decode(j: &Json, at: &str) -> (r: Result<Self, DecodeError>) {
        proof {
            reveal(<GetInviteText as Wire>::wire);
            reveal(<GetInviteText as Wire>::parse);
        }
        let _ = members_of(j, at)?;
        Ok(GetInviteText {})
    }

    proof fn round_trip(&self, at: Seq<char>) {
        reveal(<GetInviteText as Wire>::wire);
        reveal(<GetInviteText as Wire>::parse);
    }
}

impl Tagged for GetInviteText {
    open spec fn known(tag: Seq<char>) -> bool {
        tag == "getInviteText"@
    }

    fn knows(tag: &str) -> (r: bool) {
        same_text(tag, "getInviteText")
    }

    proof fn tag_known(&self) {
        reveal(<GetInviteText as Wire>::wire);
        assert(tag_of(self.wire()) == Some("getInviteText"@));
        assert(Self::known("getInviteText"@));
    }
}

impl Method for GetInviteText {
    const TYPE: &'static str = "getInviteText";

    type Response = Text;

    proof fn type_is_tag(&self) {
        reveal(<GetInviteText as Wire>::wire);
        assert(tag_of(self.wire()) == Some("getInviteText"@));
    }
}

/// Returns information about a tg:// deep link. Use "tg://need_update_for_some_feature" or
/// "tg:some_unsupported_feature" for testing. Returns a 404 error for unknown links. Can be called
/// before authorization
#[derive(Debug, Clone)]
pub struct GetDeepLinkInfo {
    /// The link
    pub link: String,
}

impl Wire for GetDeepLinkInfo {
    #[verifier::opaque]
    open spec fn wire(&self) -> Doc {
        tagged(
            Map::empty()
                .insert("link"@, self.link.wire()),
            "getDeepLinkInfo"@,
        )
    }

    #[verifier::opaque]
    open spec fn parse(d: Doc, at: Seq<char>) -> Result<Doc, Fault> {
        match d {
            Doc::Object(m) => {
                let link = field::<String>(m, "link"@);
                if link is Err {
                    link
                } else {
                    Ok(
                        tagged(
                            Map::empty()
                                .insert("link"@, link->Ok_0),
                            "getDeepLinkInfo"@,
                        ),
                    )
                }
            },
            _ => Err(Fault::TypeMismatch(at)),
        }
    }

    fn encode(&self) -> (j: Json) {
        proof {
            reveal(<GetDeepLinkInfo as Wire>::wire);
        }
        let mut members: Vec<Member> = Vec::new();
        put(&mut members, "link", self.link.encode());
        seal(members, "getDeepLinkInfo")
    }

    fn decode(j: &Json, at: &str) -> (r: Result<Self, DecodeError>) {
        proof {
            reveal(<GetDeepLinkInfo as Wire>::wire);
            reveal(<GetDeepLinkInfo as Wire>::parse);
        }
        let members = members_of(j, at)?;
        let link = read_field::<String>(members, "link")?;
        Ok(GetDeepLinkInfo { link })
    }

    proof fn round_trip(&self, at: Seq<char>) {
        reveal(<GetDeepLinkInfo as Wire>::wire);
        reveal(<GetDeepLinkInfo as Wire>::parse);
        reveal_strlit("@type");
        reveal_strlit("link");
        assert("@type"@.len() == 5);
        assert("link"@.len() == 4);
        self.link.round_trip("link"@);
    }
}

impl Tagged for GetDeepLinkInfo {
    open spec fn known(tag: Seq<char>) -> bool {
        tag == "getDeepLinkInfo"@
    }

    fn knows(tag: &str) -> (r: bool) {
        same_text(tag, "getDeepLinkInfo")
    }

    proof fn tag_known(&self) {
        reveal(<GetDeepLinkInfo as Wire>::wire);
        assert(tag_of(self.wire()) == Some("getDeepLinkInfo"@));
        assert(Self::known("getDeepLinkInfo"@));
    }
}

impl Method for GetDeepLinkInfo {
    const TYPE: &'static str = "getDeepLinkInfo";

    type Response = DeepLinkInfo;

    proof fn type_is_tag(&self) {
        reveal(<GetDeepLinkInfo as Wire>::wire);
        assert(tag_of(self.wire()) == Some("getDeepLinkInfo"@));
    }
}

/// Returns application config, provided by the server. Can be called before authorization
#[derive(Debug, Clone)]
pub struct GetApplicationConfig {}

impl Wire for GetApplicationConfig {
    #[verifier::opaque]
    open spec fn wire(&self) -> Doc {
        tagged(Map::empty(), "getApplicationConfig"@)
    }

    #[verifier::opaque]
    open spec fn parse(d: Doc, at: Seq<char>) -> Result<Doc, Fault> {
        match d {
            Doc::Object(_) => Ok(tagged(Map::empty(), "getApplicationConfig"@)),
            _ => Err(Fault::TypeMismatch(at)),
        }
    }

    fn encode(&self) -> (j: Json) {
        proof {
            reveal(<GetApplicationConfig as Wire>::wire);
        }
        seal(Vec::new(), "getApplicationConfig")
    }

    fn decode(j: &Json, at: &str) -> (r: Result<Self, DecodeError>) {
        proof {
            reveal(<GetApplicationConfig as Wire>::wire);
            reveal(<GetApplicationConfig as Wire>::parse);
        }
        let _ = members_of(j, at)?;
        Ok(GetApplicationConfig {})
    }

    proof fn round_trip(&self, at: Seq<char>) {
        reveal(<GetApplicationConfig as Wire>::wire);
        reveal(<GetApplicationConfig as Wire>::parse);
    }
}

impl Tagged for GetApplicationConfig {
    open spec fn known(tag: Seq<char>) -> bool {
        tag == "getApplicationConfig"@
    }

    fn knows(tag: &str) -> (r: bool) {
        same_text(tag, "getApplicationConfig")
    }

    proof fn tag_known(&self) {
        reveal(<GetApplicationConfig as Wire>::wire);
        assert(tag_of(self.wire()) == Some("getApplicationConfig"@));
        assert(Self::known("getApplicationConfig"@));
    }
}

impl Method for GetApplicationConfig {
    const TYPE: &'static str = "getApplicationConfig";

    type Response = JsonValue;

    proof fn type_is_tag(&self) {
        reveal(<GetApplicationConfig as Wire>::wire);
        assert(tag_of(self.wire()) == Some("getApplicationConfig"@));
    }
}

/// Saves application log event on the server. Can be called before authorization
#[derive(Debug, Clone)]
pub struct SaveApplicationLogEvent {
    /// Event type
    pub type_: String,
    /// Optional chat identifier, associated with the event
    pub chat_id: i64,
    /// The log event data
    pub data: JsonValue,
}

impl Wire for SaveApplicationLogEvent {
    #[verifier::opaque]
    open spec fn wire(&self) -> Doc {
        tagged(
            Map::empty()
                .insert("type"@, self.type_.wire())
                .insert("chatId"@, self.chat_id.wire())
                .insert("data"@, self.data.wire()),
            "saveApplicationLogEvent"@,
        )
    }

    #[verifier::opaque]
    open spec fn parse(d: Doc, at: Seq<char>) -> Result<Doc, Fault> {
        match d {
            Doc::Object(m) => {
                let type_ = field::<String>(m, "type"@);
                let chat_id = field::<i64>(m, "chatId"@);
                let data = field::<JsonValue>(m, "data"@);
                if type_ is Err {
                    type_
                } else if chat_id is Err {
                    chat_id
                } else if data is Err {
                    data
                } else {
                    Ok(
                        tagged(
                            Map::empty()
                                .insert("type"@, type_->Ok_0)
                                .insert("chatId"@, chat_id->Ok_0)
                                .insert("data"@, data->Ok_0),
                            "saveApplicationLogEvent"@,
                        ),
                    )
                }
            },
            _ => Err(Fault::TypeMismatch(at)),
        }
    }

    fn encode(&self) -> (j: Json) {
        proof {
            reveal(<SaveApplicationLogEvent as Wire>::wire);
        }
        let mut members: Vec<Member> = Vec::new();
        put(&mut members, "type", self.type_.encode());
        put(&mut members, "chatId", self.chat_id.encode());
        put(&mut members, "data", self.data.encode());
        seal(members, "saveApplicationLogEvent")
    }

    fn decode(j: &Json, at: &str) -> (r: Result<Self, DecodeError>) {
        proof {
            reveal(<SaveApplicationLogEvent as Wire>::wire);
            reveal(<SaveApplicationLogEvent as Wire>::parse);
        }
        let members = members_of(j, at)?;
        let type_ = read_field::<String>(members, "type")?;
        let chat_id = read_field::<i64>(members, "chatId")?;
        let data = read_field::<JsonValue>(members, "data")?;
        Ok(SaveApplicationLogEvent { type_, chat_id, data })
    }

    proof fn round_trip(&self, at: Seq<char>) {
        reveal(<SaveApplicationLogEvent as Wire>::wire);
        reveal(<SaveApplicationLogEvent as Wire>::parse);
        reveal_strlit("@type");
        reveal_strlit("chatId");
        reveal_strlit("data");
        reveal_strlit("type");
        assert("@type"@.len() == 5);
        assert("chatId"@.len() == 6);
        assert("data"@.len() == 4 && "data"@[0] == 'd');
        assert("type"@.len() == 4 && "type"@[0] == 't');
        self.type_.round_trip("type"@);
        self.chat_id.round_trip("chatId"@);
        self.data.round_trip("data"@);
    }
}

impl Tagged for SaveApplicationLogEvent {
    open spec fn known(tag: Seq<char>) -> bool {
        tag == "saveApplicationLogEvent"@
    }

    fn knows(tag: &str) -> (r: bool) {
        same_text(tag, "saveApplicationLogEvent")
    }

    proof fn tag_known(&self) {
        reveal(<SaveApplicationLogEvent as Wire>::wire);
        assert(tag_of(self.wire()) == Some("saveApplicationLogEvent"@));
        assert(Self::known("saveApplicationLogEvent"@));
    }
}

impl Method for SaveApplicationLogEvent {
    const TYPE: &'static str = "saveApplicationLogEvent";

    type Response = Okay;

    proof fn type_is_tag(&self) {
        reveal(<SaveApplicationLogEvent as Wire>::wire);
        assert(tag_of(self.wire()) == Some("saveApplicationLogEvent"@));
    }
}

/// Adds a proxy server for network requests. Can be called before authorization
#[derive(Debug, Clone)]
pub struct AddProxy {
    /// Proxy server IP address
    pub server: String,
    /// Proxy server port
    pub port: i32,
    /// True, if the proxy should be enabled
    pub enable: bool,
    /// Proxy type
    pub type_: ProxyType,
}

impl Wire for AddProxy {
    #[verifier::opaque]
    open spec fn wire(&self) -> Doc {
        tagged(
            Map::empty()
                .insert("server"@, self.server.wire())
                .insert("port"@, self.port.wire())
                .insert("enable"@, self.enable.wire())
                .insert("type"@, self.type_.wire()),
            "addProxy"@,
        )
    }

    #[verifier::opaque]
    open spec fn parse(d: Doc, at: Seq<char>) -> Result<Doc, Fault> {
        match d {
            Doc::Object(m) => {
                let server = field::<String>(m, "server"@);
                let port = field::<i32>(m, "port"@);
                let enable = field::<bool>(m, "enable"@);
                let type_ = field::<ProxyType>(m, "type"@);
                if server is Err {
                    server
                } else if port is Err {
                    port
                } else if enable is Err {
                    enable
                } else if type_ is Err {
                    type_
                } else {
                    Ok(
                        tagged(
                            Map::empty()
                                .insert("server"@, server->Ok_0)
                                .insert("port"@, port->Ok_0)
                                .insert("enable"@, enable->Ok_0)
                                .insert("type"@, type_->Ok_0),
                            "addProxy"@,
                        ),
                    )
                }
            },
            _ => Err(Fault::TypeMismatch(at)),
        }
    }

    fn encode(&self) -> (j: Json) {
        proof {
            reveal(<AddProxy as Wire>::wire);
        }
        let mut members: Vec<Member> = Vec::new();
        put(&mut members, "server", self.server.encode());
        put(&mut members, "port", self.port.encode());
        put(&mut members, "enable", self.enable.encode());
        put(&mut members, "type", self.type_.encode());
        seal(members, "addProxy")
    }

    fn decode(j: &Json, at: &str) -> (r: Result<Self, DecodeError>) {
        proof {
            reveal(<AddProxy as Wire>::wire);
            reveal(<AddProxy as Wire>::parse);
        }
        let members = members_of(j, at)?;
        let server = read_field::<String>(members, "server")?;
        let port = read_field::<i32>(members, "port")?;
        let enable = read_field::<bool>(members, "enable")?;
        let type_ = read_field::<ProxyType>(members, "type")?;
        Ok(AddProxy { server, port, enable, type_ })
    }

    proof fn round_trip(&self, at: Seq<char>) {
        reveal(<AddProxy as Wire>::wire);
        reveal(<AddProxy as Wire>::parse);
        reveal_strlit("@type");
        reveal_strlit("enable");
        reveal_strlit("port");
        reveal_strlit("server");
        reveal_strlit("type");
        assert("@type"@.len() == 5);
        assert("enable"@.len() == 6 && "enable"@[0] == 'e');
        assert("port"@.len() == 4 && "port"@[0] == 'p');
        assert("server"@.len() == 6 && "server"@[0] == 's');
        assert("type"@.len() == 4 && "type"@[0] == 't');
        self.server.round_trip("server"@);
        self.port.round_trip("port"@);
        self.enable.round_trip("enable"@);
        self.type_.round_trip("type"@);
    }
}

impl Tagged for AddProxy {
    open spec fn known(tag: Seq<char>) -> bool {
        tag == "addProxy"@
    }

    fn knows(tag: &str) -> (r: bool) {
        same_text(tag, "addProxy")
    }

    proof fn tag_known(&self) {
        reveal(<AddProxy as Wire>::wire);
        assert(tag_of(self.wire()) == Some("addProxy"@));
        assert(Self::known("addProxy"@));
    }
}

impl Method for AddProxy {
    const TYPE: &'static str = "addProxy";

    type Response = Proxy;

    proof fn type_is_tag(&self) {
        reveal(<AddProxy as Wire>::wire);
        assert(tag_of(self.wire()) == Some("addProxy"@));
    }
}

/// Edits an existing proxy server for network requests. Can be called before authorization
#[derive(Debug, Clone)]
pub struct EditProxy {
    /// Proxy identifier
    pub proxy_id: i32,
    /// Proxy server IP address
    pub server: String,
    /// Proxy server port
    pub port: i32,
    /// True, if the proxy should be enabled
    pub enable: bool,
    /// Proxy type
    pub type_: ProxyType,
}

impl Wire for EditProxy {
    #[verifier::opaque]
    open spec fn wire(&self) -> Doc {
        tagged(
            Map::empty()
                .insert("proxyId"@, self.proxy_id.wire())
                .insert("server"@, self.server.wire())
                .insert("port"@, self.port.wire())
                .insert("enable"@, self.enable.wire())
                .insert("type"@, self.type_.wire()),
            "editProxy"@,
        )
    }

    #[verifier::opaque]
    open spec fn parse(d: Doc, at: Seq<char>) -> Result<Doc, Fault> {
        match d {
            Doc::Object(m) => {
                let proxy_id = field::<i32>(m, "proxyId"@);
                let server = field::<String>(m, "server"@);
                let port = field::<i32>(m, "port"@);
                let enable = field::<bool>(m, "enable"@);
                let type_ = field::<ProxyType>(m, "type"@);
                if proxy_id is Err {
                    proxy_id
                } else if server is Err {
                    server
                } else if port is Err {
                    port
                } else if enable is Err {
                    enable
                } else if type_ is Err {
                    type_
                } else {
                    Ok(
                        tagged(
                            Map::empty()
                                .insert("proxyId"@, proxy_id->Ok_0)
                                .insert("server"@, server->Ok_0)
                                .insert("port"@, port->Ok_0)
                                .insert("enable"@, enable->Ok_0)
                                .insert("type"@, type_->Ok_0),
                            "editProxy"@,
                        ),
                    )
                }
            },
            _ => Err(Fault::TypeMismatch(at)),
        }
    }

    fn encode(&self) -> (j: Json) {
        proof {
            reveal(<EditProxy as Wire>::wire);
        }
        let mut members: Vec<Member> = Vec::new();
        put(&mut members, "proxyId", self.proxy_id.encode());
        put(&mut members, "server", self.server.encode());
        put(&mut members, "port", self.port.encode());
        put(&mut members, "enable", self.enable.encode());
        put(&mut members, "type", self.type_.encode());
        seal(members, "editProxy")
    }

    fn decode(j: &Json, at: &str) -> (r: Result<Self, DecodeError>) {
        proof {
            reveal(<EditProxy as Wire>::wire);
            reveal(<EditProxy as Wire>::parse);
        }
        let members = members_of(j, at)?;
        let proxy_id = read_field::<i32>(members, "proxyId")?;
        let server = read_field::<String>(members, "server")?;
        let port = read_field::<i32>(members, "port")?;
        let enable = read_field::<bool>(members, "enable")?;
        let type_ = read_field::<ProxyType>(members, "type")?;
        Ok(EditProxy { proxy_id, server, port, enable, type_ })
    }

    proof fn round_trip(&self, at: Seq<char>) {
        reveal(<EditProxy as Wire>::wire);
        reveal(<EditProxy as Wire>::parse);
        reveal_strlit("@type");
        reveal_strlit("enable");
        reveal_strlit("port");
        reveal_strlit("proxyId");
        reveal_strlit("server");
        reveal_strlit("type");
        assert("@type"@.len() == 5);
        assert("enable"@.len() == 6 && "enable"@[0] == 'e');
        assert("port"@.len() == 4 && "port"@[0] == 'p');
        assert("proxyId"@.len() == 7);
        assert("server"@.len() == 6 && "server"@[0] == 's');
        assert("type"@.len() == 4 && "type"@[0] == 't');
        self.proxy_id.round_trip("proxyId"@);
        self.server.round_trip("server"@);
        self.port.round_trip("port"@);
        self.enable.round_trip("enable"@);
        self.type_.round_trip("type"@);
    }
}

impl Tagged for EditProxy {
    open spec fn known(tag: Seq<char>) -> bool {
        tag == "editProxy"@
    }

    fn knows(tag: &str) -> (r: bool) {
        same_text(tag, "editProxy")
    }

    proof fn tag_known(&self) {
        reveal(<EditProxy as Wire>::wire);
        assert(tag_of(self.wire()) == Some("editProxy"@));
        assert(Self::known("editProxy"@));
    }
}

impl Method for EditProxy {
    const TYPE: &'static str = "editProxy";

    type Response = Proxy;

    proof fn type_is_tag(&self) {
        reveal(<EditProxy as Wire>::wire);
        assert(tag_of(self.wire()) == Some("editProxy"@));
    }
}

/// Enables a proxy. Only one proxy can be enabled at a time. Can be called before authorization
#[derive(Debug, Clone)]
pub struct EnableProxy {
    /// Proxy identifier
    pub proxy_id: i32,
}

impl Wire for EnableProxy {
    #[verifier::opaque]
    open spec fn wire(&self) -> Doc {
        tagged(
            Map::empty()
                .insert("proxyId"@, self.proxy_id.wire()),
            "enableProxy"@,
        )
    }

    #[verifier::opaque]
    open spec fn parse(d: Doc, at: Seq<char>) -> Result<Doc, Fault> {
        match d {
            Doc::Object(m) => {
                let proxy_id = field::<i32>(m, "proxyId"@);
                if proxy_id is Err {
                    proxy_id
                } else {
                    Ok(
                        tagged(
                            Map::empty()
                                .insert("proxyId"@, proxy_id->Ok_0),
                            "enableProxy"@,
                        ),
                    )
                }
            },
            _ => Err(Fault::TypeMismatch(at)),
        }
    }

    fn encode(&self) -> (j: Json) {
        proof {
            reveal(<EnableProxy as Wire>::wire);
        }
        let mut members: Vec<Member> = Vec::new();
        put(&mut members, "proxyId", self.proxy_id.encode());
        seal(members, "enableProxy")
    }

    fn decode(j: &Json, at: &str) -> (r: Result<Self, DecodeError>) {
        proof {
            reveal(<EnableProxy as Wire>::wire);
            reveal(<EnableProxy as Wire>::parse);
        }
        let members = members_of(j, at)?;
        let proxy_id = read_field::<i32>(members, "proxyId")?;
        Ok(EnableProxy { proxy_id })
    }

    proof fn round_trip(&self, at: Seq<char>) {
        reveal(<EnableProxy as Wire>::wire);
        reveal(<EnableProxy as Wire>::parse);
        reveal_strlit("@type");
        reveal_strlit("proxyId");
        assert("@type"@.len() == 5);
        assert("proxyId"@.len() == 7);
        self.proxy_id.round_trip("proxyId"@);
    }
}

impl Tagged for EnableProxy {
    open spec fn known(tag: Seq<char>) -> bool {
        tag == "enableProxy"@
    }

    fn knows(tag: &str) -> (r: bool) {
        same_text(tag, "enableProxy")
    }

    proof fn tag_known(&self) {
        reveal(<EnableProxy as Wire>::wire);
        assert(tag_of(self.wire()) == Some("enableProxy"@));
        assert(Self::known("enableProxy"@));
    }
}

impl Method for EnableProxy {
    const TYPE: &'static str = "enableProxy";

    type Response = Okay;

    proof fn type_is_tag(&self) {
        reveal(<EnableProxy as Wire>::wire);
        assert(tag_of(self.wire()) == Some("enableProxy"@));
    }
}

/// Disables the currently enabled proxy. Can be called before authorization
#[derive(Debug, Clone)]
pub struct DisableProxy {}

impl Wire for DisableProxy {
    #[verifier::opaque]
    open spec fn wire(&self) -> Doc {
        tagged(Map::empty(), "disableProxy"@)
    }

    #[verifier::opaque]
    open spec fn parse(d: Doc, at: Seq<char>) -> Result<Doc, Fault> {
        match d {
            Doc::Object(_) => Ok(tagged(Map::empty(), "disableProxy"@)),
            _ => Err(Fault::TypeMismatch(at)),
        }
    }

    fn encode(&self) -> (j: Json) {
        proof {
            reveal(<DisableProxy as Wire>::wire);
        }
        seal(Vec::new(), "disableProxy")
    }

    fn decode(j: &Json, at: &str) -> (r: Result<Self, DecodeError>) {
        proof {
            reveal(<DisableProxy as Wire>::wire);
            reveal(<DisableProxy as Wire>::parse);
        }
        let _ = members_of(j, at)?;
        Ok(DisableProxy {})
    }

    proof fn round_trip(&self, at: Seq<char>) {
        reveal(<DisableProxy as Wire>::wire);
        reveal(<DisableProxy as Wire>::parse);
    }
}

impl Tagged for DisableProxy {
    open spec fn known(tag: Seq<char>) -> bool {
        tag == "disableProxy"@
    }

    fn knows(tag: &str) -> (r: bool) {
        same_text(tag, "disableProxy")
    }

    proof fn tag_known(&self) {
        reveal(<DisableProxy as Wire>::wire);
        assert(tag_of(self.wire()) == Some("disableProxy"@));
        assert(Self::known("disableProxy"@));
    }
}

impl Method for DisableProxy {
    const TYPE: &'static str = "disableProxy";

    type Response = Okay;

    proof fn type_is_tag(&self) {
        reveal(<DisableProxy as Wire>::wire);
        assert(tag_of(self.wire()) == Some("disableProxy"@));
    }
}

/// Removes a proxy server. Can be called before authorization
#[derive(Debug, Clone)]
pub struct RemoveProxy {
    /// Proxy identifier
    pub proxy_id: i32,
}

impl Wire for RemoveProxy {
    #[verifier::opaque]
    open spec fn wire(&self) -> Doc {
        tagged(
            Map::empty()
                .insert("proxyId"@, self.proxy_id.wire()),
            "removeProxy"@,
        )
    }

    #[verifier::opaque]
    open spec fn parse(d: Doc, at: Seq<char>) -> Result<Doc, Fault> {
        match d {
            Doc::Object(m) => {
                let proxy_id = field::<i32>(m, "proxyId"@);
                if proxy_id is Err {
                    proxy_id
                } else {
                    Ok(
                        tagged(
                            Map::empty()
                                .insert("proxyId"@, proxy_id->Ok_0),
                            "removeProxy"@,
                        ),
                    )
                }
            },
            _ => Err(Fault::TypeMismatch(at)),
        }
    }

    fn encode(&self) -> (j: Json) {
        proof {
            reveal(<RemoveProxy as Wire>::wire);
        }
        let mut members: Vec<Member> = Vec::new();
        put(&mut members, "proxyId", self.proxy_id.encode());
        seal(members, "removeProxy")
    }

    fn decode(j: &Json, at: &str) -> (r: Result<Self, DecodeError>) {
        proof {
            reveal(<RemoveProxy as Wire>::wire);
            reveal(<RemoveProxy as Wire>::parse);
        }
        let members = members_of(j, at)?;
        let proxy_id = read_field::<i32>(members, "proxyId")?;
        Ok(RemoveProxy { proxy_id })
    }

    proof fn round_trip(&self, at: Seq<char>) {
        reveal(<RemoveProxy as Wire>::wire);
        reveal(<RemoveProxy as Wire>::parse);
        reveal_strlit("@type");
        reveal_strlit("proxyId");
        assert("@type"@.len() == 5);
        assert("proxyId"@.len() == 7);
        self.proxy_id.round_trip("proxyId"@);
    }
}

impl Tagged for RemoveProxy {
    open spec fn known(tag: Seq<char>) -> bool {
        tag == "removeProxy"@
    }

    fn knows(tag: &str) -> (r: bool) {
        same_text(tag, "removeProxy")
    }

    proof fn tag_known(&self) {
        reveal(<RemoveProxy as Wire>::wire);
        assert(tag_of(self.wire()) == Some("removeProxy"@));
        assert(Self::known("removeProxy"@));
    }
}

impl Method for RemoveProxy {
    const TYPE: &'static str = "removeProxy";

    type Response = Okay;

    proof fn type_is_tag(&self) {
        reveal(<RemoveProxy as Wire>::wire);
        assert(tag_of(self.wire()) == Some("removeProxy"@));
    }
}

/// Returns list of proxies that are currently set up. Can be called before authorization
#[derive(Debug, Clone)]
pub struct GetProxies {}

impl Wire for GetProxies {
    #[verifier::opaque]
    open spec fn wire(&self) -> Doc {
        tagged(Map::empty(), "getProxies"@)
    }

    #[verifier::opaque]
    open spec fn parse(d: Doc, at: Seq<char>) -> Result<Doc, Fault> {
        match d {
            Doc::Object(_) => Ok(tagged(Map::empty(), "getProxies"@)),
            _ => Err(Fault::TypeMismatch(at)),
        }
    }

    fn encode(&self) -> (j: Json) {
        proof {
            reveal(<GetProxies as Wire>::wire);
        }
        seal(Vec::new(), "getProxies")
    }

    fn decode(j: &Json, at: &str) -> (r: Result<Self, DecodeError>) {
        proof {
            reveal(<GetProxies as Wire>::wire);
            reveal(<GetProxies as Wire>::parse);
        }
        let _ = members_of(j, at)?;
        Ok(GetProxies {})
    }

    proof fn round_trip(&self, at: Seq<char>) {
        reveal(<GetProxies as Wire>::wire);
        reveal(<GetProxies as Wire>::parse);
    }
}

impl Tagged for GetProxies {
    open spec fn known(tag: Seq<char>) -> bool {
        tag == "getProxies"@
    }

    fn knows(tag: &str) -> (r: bool) {
        same_text(tag, "getProxies")
    }

    proof fn tag_known(&self) {
        reveal(<GetProxies as Wire>::wire);
        assert(tag_of(self.wire()) == Some("getProxies"@));
        assert(Self::known("getProxies"@));
    }
}

impl Method for GetProxies {
    const TYPE: &'static str = "getProxies";

    type Response = Proxies;

    proof fn type_is_tag(&self) {
        reveal(<GetProxies as Wire>::wire);
        assert(tag_of(self.wire()) == Some("getProxies"@));
    }
}

/// Returns an HTTPS link, which can be used to add a proxy. Available only for SOCKS5 and MTProto
/// proxies. Can be called before authorization
#[derive(Debug, Clone)]
pub struct GetProxyLink {
    /// Proxy identifier
    pub proxy_id: i32,
}

impl Wire for GetProxyLink {
    #[verifier::opaque]
    open spec fn wire(&self) -> Doc {
        tagged(
            Map::empty()
                .insert("proxyId"@, self.proxy_id.wire()),
            "getProxyLink"@,
        )
    }

    #[verifier::opaque]
    open spec fn parse(d: Doc, at: Seq<char>) -> Result<Doc, Fault> {
        match d {
            Doc::Object(m) => {
                let proxy_id = field::<i32>(m, "proxyId"@);
                if proxy_id is Err {
                    proxy_id
                } else {
                    Ok(
                        tagged(
                            Map::empty()
                                .insert("proxyId"@, proxy_id->Ok_0),
                            "getProxyLink"@,
                        ),
                    )
                }
            },
            _ => Err(Fault::TypeMismatch(at)),
        }
    }

    fn encode(&self) -> (j: Json) {
        proof {
            reveal(<GetProxyLink as Wire>::wire);
        }
        let mut members: Vec<Member> = Vec::new();
        put(&mut members, "proxyId", self.proxy_id.encode());
        seal(members, "getProxyLink")
    }

    fn decode(j: &Json, at: &str) -> (r: Result<Self, DecodeError>) {
        proof {
            reveal(<GetProxyLink as Wire>::wire);
            reveal(<GetProxyLink as Wire>::parse);
        }
        let members = members_of(j, at)?;
        let proxy_id = read_field::<i32>(members, "proxyId")?;
        Ok(GetProxyLink { proxy_id })
    }

    proof fn round_trip(&self, at: Seq<char>) {
        reveal(<GetProxyLink as Wire>::wire);
        reveal(<GetProxyLink as Wire>::parse);
        reveal_strlit("@type");
        reveal_strlit("proxyId");
        assert("@type"@.len() == 5);
        assert("proxyId"@.len() == 7);
        self.proxy_id.round_trip("proxyId"@);
    }
}

impl Tagged for GetProxyLink {
    open spec fn known(tag: Seq<char>) -> bool {
        tag == "getProxyLink"@
    }

    fn knows(tag: &str) -> (r: bool) {
        same_text(tag, "getProxyLink")
    }

    proof fn tag_known(&self) {
        reveal(<GetProxyLink as Wire>::wire);
        assert(tag_of(self.wire()) == Some("getProxyLink"@));
        assert(Self::known("getProxyLink"@));
    }
}

impl Method for GetProxyLink {
    const TYPE: &'static str = "getProxyLink";

    type Response = Text;

    proof fn type_is_tag(&self) {
        reveal(<GetProxyLink as Wire>::wire);
        assert(tag_of(self.wire()) == Some("getProxyLink"@));
    }
}

/// Computes time needed to receive a response from a Telegram server through a proxy. Can be called
/// before authorization
#[derive(Debug, Clone)]
pub struct PingProxy {
    /// Proxy identifier. Use 0 to ping a Telegram server without a proxy
    pub proxy_id: i32,
}

impl Wire for PingProxy {
    #[verifier::opaque]
    open spec fn wire(&self) -> Doc {
        tagged(
            Map::empty()
                .insert("proxyId"@, self.proxy_id.wire()),
            "pingProxy"@,
        )
    }

    #[verifier::opaque]
    open spec fn parse(d: Doc, at: Seq<char>) -> Result<Doc, Fault> {
        match d {
            Doc::Object(m) => {
                let proxy_id = field::<i32>(m, "proxyId"@);
                if proxy_id is Err {
                    proxy_id
                } else {
                    Ok(
                        tagged(
                            Map::empty()
                                .insert("proxyId"@, proxy_id->Ok_0),
                            "pingProxy"@,
                        ),
                    )
                }
            },
            _ => Err(Fault::TypeMismatch(at)),
        }
    }

    fn encode(&self) -> (j: Json) {
        proof {
            reveal(<PingProxy as Wire>::wire);
        }
        let mut members: Vec<Member> = Vec::new();
        put(&mut members, "proxyId", self.proxy_id.encode());
        seal(members, "pingProxy")
    }

    fn decode(j: &Json, at: &str) -> (r: Result<Self, DecodeError>) {
        proof {
            reveal(<PingProxy as Wire>::wire);
            reveal(<PingProxy as Wire>::parse);
        }
        let members = members_of(j, at)?;
        let proxy_id = read_field::<i32>(members, "proxyId")?;
        Ok(PingProxy { proxy_id })
    }

    proof fn round_trip(&self, at: Seq<char>) {
        reveal(<PingProxy as Wire>::wire);
        reveal(<PingProxy as Wire>::parse);
        reveal_strlit("@type");
        reveal_strlit("proxyId");
        assert("@type"@.len() == 5);
        assert("proxyId"@.len() == 7);
        self.proxy_id.round_trip("proxyId"@);
    }
}

impl Tagged for PingProxy {
    open spec fn known(tag: Seq<char>) -> bool {
        tag == "pingProxy"@
    }

    fn knows(tag: &str) -> (r: bool) {
        same_text(tag, "pingProxy")
    }

    proof fn tag_known(&self) {
        reveal(<PingProxy as Wire>::wire);
        assert(tag_of(self.wire()) == Some("pingProxy"@));
        assert(Self::known("pingProxy"@));
    }
}

impl Method for PingProxy {
    const TYPE: &'static str = "pingProxy";

    type Response = Seconds;

    proof fn type_is_tag(&self) {
        reveal(<PingProxy as Wire>::wire);
        assert(tag_of(self.wire()) == Some("pingProxy"@));
    }
}

/// Sets new log stream for internal logging of TDLib. This is an offline method. Can be called
/// before authorization. Can be called synchronously
#[derive(Debug, Clone)]
pub struct SetLogStream {
    /// New log stream
    pub log_stream: LogStream,
}

impl Wire for SetLogStream {
    #[verifier::opaque]
    open spec fn wire(&self) -> Doc {
        tagged(
            Map::empty()
                .insert("logStream"@, self.log_stream.wire()),
            "setLogStream"@,
        )
    }

    #[verifier::opaque]
    open spec fn parse(d: Doc, at: Seq<char>) -> Result<Doc, Fault> {
        match d {
            Doc::Object(m) => {
                let log_stream = field::<LogStream>(m, "logStream"@);
                if log_stream is Err {
                    log_stream
                } else {
                    Ok(
                        tagged(
                            Map::empty()
                                .insert("logStream"@, log_stream->Ok_0),
                            "setLogStream"@,
                        ),
                    )
                }
            },
            _ => Err(Fault::TypeMismatch(at)),
        }
    }

    fn encode(&self) -> (j: Json) {
        proof {
            reveal(<SetLogStream as Wire>::wire);
        }
        let mut members: Vec<Member> = Vec::new();
        put(&mut members, "logStream", self.log_stream.encode());
        seal(members, "setLogStream")
    }

    fn decode(j: &Json, at: &str) -> (r: Result<Self, DecodeError>) {
        proof {
            reveal(<SetLogStream as Wire>::wire);
            reveal(<SetLogStream as Wire>::parse);
        }
        let members = members_of(j, at)?;
        let log_stream = read_field::<LogStream>(members, "logStream")?;
        Ok(SetLogStream { log_stream })
    }

    proof fn round_trip(&self, at: Seq<char>) {
        reveal(<SetLogStream as Wire>::wire);
        reveal(<SetLogStream as Wire>::parse);
        reveal_strlit("@type");
        reveal_strlit("logStream");
        assert("@type"@.len() == 5);
        assert("logStream"@.len() == 9);
        self.log_stream.round_trip("logStream"@);
    }
}

impl Tagged for SetLogStream {
    open spec fn known(tag: Seq<char>) -> bool {
        tag == "setLogStream"@
    }

    fn knows(tag: &str) -> (r: bool) {
        same_text(tag, "setLogStream")
    }

    proof fn tag_known(&self) {
        reveal(<SetLogStream as Wire>::wire);
        assert(tag_of(self.wire()) == Some("setLogStream"@));
        assert(Self::known("setLogStream"@));
    }
}

impl Method for SetLogStream {
    const TYPE: &'static str = "setLogStream";

    type Response = Okay;

    proof fn type_is_tag(&self) {
        reveal(<SetLogStream as Wire>::wire);
        assert(tag_of(self.wire()) == Some("setLogStream"@));
    }
}

/// Returns information about currently used log stream for internal logging of TDLib. This is an
/// offline method. Can be called before authorization. Can be called synchronously
#[derive(Debug, Clone)]
pub struct GetLogStream {}

impl Wire for GetLogStream {
    #[verifier::opaque]
    open spec fn wire(&self) -> Doc {
        tagged(Map::empty(), "getLogStream"@)
    }

    #[verifier::opaque]
    open spec fn parse(d: Doc, at: Seq<char>) -> Result<Doc, Fault> {
        match d {
            Doc::Object(_) => Ok(tagged(Map::empty(), "getLogStream"@)),
            _ => Err(Fault::TypeMismatch(at)),
        }
    }

    fn encode(&self) -> (j: Json) {
        proof {
            reveal(<GetLogStream as Wire>::wire);
        }
        seal(Vec::new(), "getLogStream")
    }

    fn decode(j: &Json, at: &str) -> (r: Result<Self, DecodeError>) {
        proof {
            reveal(<GetLogStream as Wire>::wire);
            reveal(<GetLogStream as Wire>::parse);
        }
        let _ = members_of(j, at)?;
        Ok(GetLogStream {})
    }

    proof fn round_trip(&self, at: Seq<char>) {
        reveal(<GetLogStream as Wire>::wire);
        reveal(<GetLogStream as Wire>::parse);
    }
}

impl Tagged for GetLogStream {
    open spec fn known(tag: Seq<char>) -> bool {
        tag == "getLogStream"@
    }

    fn knows(tag: &str) -> (r: bool) {
        same_text(tag, "getLogStream")
    }

    proof fn tag_known(&self) {
        reveal(<GetLogStream as Wire>::wire);
        assert(tag_of(self.wire()) == Some("getLogStream"@));
        assert(Self::known("getLogStream"@));
    }
}

impl Method for GetLogStream {
    const TYPE: &'static str = "getLogStream";

    type Response = LogStream;

    proof fn type_is_tag(&self) {
        reveal(<GetLogStream as Wire>::wire);
        assert(tag_of(self.wire()) == Some("getLogStream"@));
    }
}

/// Sets the verbosity level of the internal logging of TDLib. This is an offline method. Can be
/// called before authorization. Can be called synchronously
#[derive(Debug, Clone)]
pub struct SetLogVerbosityLevel {
    /// New value of the verbosity level for logging. Value 0 corresponds to fatal errors, value 1
    /// corresponds to errors, value 2 corresponds to warnings and debug warnings, value 3
    /// corresponds to informational, value 4 corresponds to debug, value 5 corresponds to verbose
    /// debug, value greater than 5 and up to 1023 can be used to enable even more logging
    pub new_verbosity_level: i32,
}

impl Wire for SetLogVerbosityLevel {
    #[verifier::opaque]
    open spec fn wire(&self) -> Doc {
        tagged(
            Map::empty()
                .insert("newVerbosityLevel"@, self.new_verbosity_level.wire()),
            "setLogVerbosityLevel"@,
        )
    }

    #[verifier::opaque]
    open spec fn parse(d: Doc, at: Seq<char>) -> Result<Doc, Fault> {
        match d {
            Doc::Object(m) => {
                let new_verbosity_level = field::<i32>(m, "newVerbosityLevel"@);
                if new_verbosity_level is Err {
                    new_verbosity_level
                } else {
                    Ok(
                        tagged(
                            Map::empty()
                                .insert("newVerbosityLevel"@, new_verbosity_level->Ok_0),
                            "setLogVerbosityLevel"@,
                        ),
                    )
                }
            },
            _ => Err(Fault::TypeMismatch(at)),
        }
    }

    fn encode(&self) -> (j: Json) {
        proof {
            reveal(<SetLogVerbosityLevel as Wire>::wire);
        }
        let mut members: Vec<Member> = Vec::new();
        put(&mut members, "newVerbosityLevel", self.new_verbosity_level.encode());
        seal(members, "setLogVerbosityLevel")
    }

    fn decode(j: &Json, at: &str) -> (r: Result<Self, DecodeError>) {
        proof {
            reveal(<SetLogVerbosityLevel as Wire>::wire);
            reveal(<SetLogVerbosityLevel as Wire>::parse);
        }
        let members = members_of(j, at)?;
        let new_verbosity_level = read_field::<i32>(members, "newVerbosityLevel")?;
        Ok(SetLogVerbosityLevel { new_verbosity_level })
    }

    proof fn round_trip(&self, at: Seq<char>) {
        reveal(<SetLogVerbosityLevel as Wire>::wire);
        reveal(<SetLogVerbosityLevel as Wire>::parse);
        reveal_strlit("@type");
        reveal_strlit("newVerbosityLevel");
        assert("@type"@.len() == 5);
        assert("newVerbosityLevel"@.len() == 17);
        self.new_verbosity_level.round_trip("newVerbosityLevel"@);
    }
}

impl Tagged for SetLogVerbosityLevel {
    open spec fn known(tag: Seq<char>) -> bool {
        tag == "setLogVerbosityLevel"@
    }

    fn knows(tag: &str) -> (r: bool) {
        same_text(tag, "setLogVerbosityLevel")
    }

    proof fn tag_known(&self) {
        reveal(<SetLogVerbosityLevel as Wire>::wire);
        assert(tag_of(self.wire()) == Some("setLogVerbosityLevel"@));
        assert(Self::known("setLogVerbosityLevel"@));
    }
}

impl Method for SetLogVerbosityLevel {
    const TYPE: &'static str = "setLogVerbosityLevel";

    type Response = Okay;

    proof fn type_is_tag(&self) {
        reveal(<SetLogVerbosityLevel as Wire>::wire);
        assert(tag_of(self.wire()) == Some("setLogVerbosityLevel"@));
    }
}

/// Returns current verbosity level of the internal logging of TDLib. This is an offline method. Can
/// be called before authorization. Can be called synchronously
#[derive(Debug, Clone)]
pub struct GetLogVerbosityLevel {}

impl Wire for GetLogVerbosityLevel {
    #[verifier::opaque]
    open spec fn wire(&self) -> Doc {
        tagged(Map::empty(), "getLogVerbosityLevel"@)
    }

    #[verifier::opaque]
    open spec fn parse(d: Doc, at: Seq<char>) -> Result<Doc, Fault> {
        match d {
            Doc::Object(_) => Ok(tagged(Map::empty(), "getLogVerbosityLevel"@)),
            _ => Err(Fault::TypeMismatch(at)),
        }
    }

    fn encode(&self) -> (j: Json) {
        proof {
            reveal(<GetLogVerbosityLevel as Wire>::wire);
        }
        seal(Vec::new(), "getLogVerbosityLevel")
    }

    fn decode(j: &Json, at: &str) -> (r: Result<Self, DecodeError>) {
        proof {
            reveal(<GetLogVerbosityLevel as Wire>::wire);
            reveal(<GetLogVerbosityLevel as Wire>::parse);
        }
        let _ = members_of(j, at)?;
        Ok(GetLogVerbosityLevel {})
    }

    proof fn round_trip(&self, at: Seq<char>) {
        reveal(<GetLogVerbosityLevel as Wire>::wire);
        reveal(<GetLogVerbosityLevel as Wire>::parse);
    }
}

impl Tagged for GetLogVerbosityLevel {
    open spec fn known(tag: Seq<char>) -> bool {
        tag == "getLogVerbosityLevel"@
    }

    fn knows(tag: &str) -> (r: bool) {
        same_text(tag, "getLogVerbosityLevel")
    }

    proof fn tag_known(&self) {
        reveal(<GetLogVerbosityLevel as Wire>::wire);
        assert(tag_of(self.wire()) == Some("getLogVerbosityLevel"@));
        assert(Self::known("getLogVerbosityLevel"@));
    }
}

impl Method for GetLogVerbosityLevel {
    const TYPE: &'static str = "getLogVerbosityLevel";

    type Response = LogVerbosityLevel;

    proof fn type_is_tag(&self) {
        reveal(<GetLogVerbosityLevel as Wire>::wire);
        assert(tag_of(self.wire()) == Some("getLogVerbosityLevel"@));
    }
}

/// Returns list of available TDLib internal log tags, for example, ["actor", "binlog",
/// "connections", "notifications", "proxy"]. This is an offline method. Can be called before
/// authorization. Can be called synchronously
#[derive(Debug, Clone)]
pub struct GetLogTags {}

impl Wire for GetLogTags {
    #[verifier::opaque]
    open spec fn wire(&self) -> Doc {
        tagged(Map::empty(), "getLogTags"@)
    }

    #[verifier::opaque]
    open spec fn parse(d: Doc, at: Seq<char>) -> Result<Doc, Fault> {
        match d {
            Doc::Object(_) => Ok(tagged(Map::empty(), "getLogTags"@)),
            _ => Err(Fault::TypeMismatch(at)),
        }
    }

    fn encode(&self) -> (j: Json) {
        proof {
            reveal(<GetLogTags as Wire>::wire);
        }
        seal(Vec::new(), "getLogTags")
    }

    fn decode(j: &Json, at: &str) -> (r: Result<Self, DecodeError>) {
        proof {
            reveal(<GetLogTags as Wire>::wire);
            reveal(<GetLogTags as Wire>::parse);
        }
        let _ = members_of(j, at)?;
        Ok(GetLogTags {})
    }

    proof fn round_trip(&self, at: Seq<char>) {
        reveal(<GetLogTags as Wire>::wire);
        reveal(<GetLogTags as Wire>::parse);
    }
}

impl Tagged for GetLogTags {
    open spec fn known(tag: Seq<char>) -> bool {
        tag == "getLogTags"@
    }

    fn knows(tag: &str) -> (r: bool) {
        same_text(tag, "getLogTags")
    }

    proof fn tag_known(&self) {
        reveal(<GetLogTags as Wire>::wire);
        assert(tag_of(self.wire()) == Some("getLogTags"@));
        assert(Self::known("getLogTags"@));
    }
}

impl Method for GetLogTags {
    const TYPE: &'static str = "getLogTags";

    type Response = LogTags;

    proof fn type_is_tag(&self) {
        reveal(<GetLogTags as Wire>::wire);
        assert(tag_of(self.wire()) == Some("getLogTags"@));
    }
}

/// Sets the verbosity level for a specified TDLib internal log tag. This is an offline method. Can
/// be called before authorization. Can be called synchronously
#[derive(Debug, Clone)]
pub struct SetLogTagVerbosityLevel {
    /// Logging tag to change verbosity level
    pub tag: String,
    /// New verbosity level; 1-1024
    pub new_verbosity_level: i32,
}

impl Wire for SetLogTagVerbosityLevel {
    #[verifier::opaque]
    open spec fn wire(&self) -> Doc {
        tagged(
            Map::empty()
                .insert("tag"@, self.tag.wire())
                .insert("newVerbosityLevel"@, self.new_verbosity_level.wire()),
            "setLogTagVerbosityLevel"@,
        )
    }

    #[verifier::opaque]
    open spec fn parse(d: Doc, at: Seq<char>) -> Result<Doc, Fault> {
        match d {
            Doc::Object(m) => {
                let tag_ = field::<String>(m, "tag"@);
                let new_verbosity_level = field::<i32>(m, "newVerbosityLevel"@);
                if tag_ is Err {
                    tag_
                } else if new_verbosity_level is Err {
                    new_verbosity_level
                } else {
                    Ok(
                        tagged(
                            Map::empty()
                                .insert("tag"@, tag_->Ok_0)
                                .insert("newVerbosityLevel"@, new_verbosity_level->Ok_0),
                            "setLogTagVerbosityLevel"@,
                        ),
                    )
                }
            },
            _ => Err(Fault::TypeMismatch(at)),
        }
    }

    fn encode(&self) -> (j: Json) {
        proof {
            reveal(<SetLogTagVerbosityLevel as Wire>::wire);
        }
        let mut members: Vec<Member> = Vec::new();
        put(&mut members, "tag", self.tag.encode());
        put(&mut members, "newVerbosityLevel", self.new_verbosity_level.encode());
        seal(members, "setLogTagVerbosityLevel")
    }

    fn decode(j: &Json, at: &str) -> (r: Result<Self, DecodeError>) {
        proof {
            reveal(<SetLogTagVerbosityLevel as Wire>::wire);
            reveal(<SetLogTagVerbosityLevel as Wire>::parse);
        }
        let members = members_of(j, at)?;
        let tag_ = read_field::<String>(members, "tag")?;
        let new_verbosity_level = read_field::<i32>(members, "newVerbosityLevel")?;
        Ok(SetLogTagVerbosityLevel { tag: tag_, new_verbosity_level })
    }

    proof fn round_trip(&self, at: Seq<char>) {
        reveal(<SetLogTagVerbosityLevel as Wire>::wire);
        reveal(<SetLogTagVerbosityLevel as Wire>::parse);
        reveal_strlit("@type");
        reveal_strlit("newVerbosityLevel");
        reveal_strlit("tag");
        assert("@type"@.len() == 5);
        assert("newVerbosityLevel"@.len() == 17);
        assert("tag"@.len() == 3);
        self.tag.round_trip("tag"@);
        self.new_verbosity_level.round_trip("newVerbosityLevel"@);
    }
}

impl Tagged for SetLogTagVerbosityLevel {
    open spec fn known(tag: Seq<char>) -> bool {
        tag == "setLogTagVerbosityLevel"@
    }

    fn knows(tag: &str) -> (r: bool) {
        same_text(tag, "setLogTagVerbosityLevel")
    }

    proof fn tag_known(&self) {
        reveal(<SetLogTagVerbosityLevel as Wire>::wire);
        assert(tag_of(self.wire()) == Some("setLogTagVerbosityLevel"@));
        assert(Self::known("setLogTagVerbosityLevel"@));
    }
}

impl Method for SetLogTagVerbosityLevel {
    const TYPE: &'static str = "setLogTagVerbosityLevel";

    type Response = Okay;

    proof fn type_is_tag(&self) {
        reveal(<SetLogTagVerbosityLevel as Wire>::wire);
        assert(tag_of(self.wire()) == Some("setLogTagVerbosityLevel"@));
    }
}

/// Returns current verbosity level for a specified TDLib internal log tag. This is an offline
/// method. Can be called before authorization. Can be called synchronously
#[derive(Debug, Clone)]
pub struct GetLogTagVerbosityLevel {
    /// Logging tag to change verbosity level
    pub tag: String,
}

impl Wire for GetLogTagVerbosityLevel {
    #[verifier::opaque]
    open spec fn wire(&self) -> Doc {
        tagged(
            Map::empty()
                .insert("tag"@, self.tag.wire()),
            "getLogTagVerbosityLevel"@,
        )
    }

    #[verifier::opaque]
    open spec fn parse(d: Doc, at: Seq<char>) -> Result<Doc, Fault> {
        match d {
            Doc::Object(m) => {
                let tag_ = field::<String>(m, "tag"@);
                if tag_ is Err {
                    tag_
                } else {
                    Ok(
                        tagged(
                            Map::empty()
                                .insert("tag"@, tag_->Ok_0),
                            "getLogTagVerbosityLevel"@,
                        ),
                    )
                }
            },
            _ => Err(Fault::TypeMismatch(at)),
        }
    }

    fn encode(&self) -> (j: Json) {
        proof {
            reveal(<GetLogTagVerbosityLevel as Wire>::wire);
        }
        let mut members: Vec<Member> = Vec::new();
        put(&mut members, "tag", self.tag.encode());
        seal(members, "getLogTagVerbosityLevel")
    }

    fn decode(j: &Json, at: &str) -> (r: Result<Self, DecodeError>) {
        proof {
            reveal(<GetLogTagVerbosityLevel as Wire>::wire);
            reveal(<GetLogTagVerbosityLevel as Wire>::parse);
        }
        let members = members_of(j, at)?;
        let tag_ = read_field::<String>(members, "tag")?;
        Ok(GetLogTagVerbosityLevel { tag: tag_ })
    }

    proof fn round_trip(&self, at: Seq<char>) {
        reveal(<GetLogTagVerbosityLevel as Wire>::wire);
        reveal(<GetLogTagVerbosityLevel as Wire>::parse);
        reveal_strlit("@type");
        reveal_strlit("tag");
        assert("@type"@.len() == 5);
        assert("tag"@.len() == 3);
        self.tag.round_trip("tag"@);
    }
}

impl Tagged for GetLogTagVerbosityLevel {
    open spec fn known(tag: Seq<char>) -> bool {
        tag == "getLogTagVerbosityLevel"@
    }

    fn knows(tag: &str) -> (r: bool) {
        same_text(tag, "getLogTagVerbosityLevel")
    }

    proof fn tag_known(&self) {
        reveal(<GetLogTagVerbosityLevel as Wire>::wire);
        assert(tag_of(self.wire()) == Some("getLogTagVerbosityLevel"@));
        assert(Self::known("getLogTagVerbosityLevel"@));
    }
}

impl Method for GetLogTagVerbosityLevel {
    const TYPE: &'static str = "getLogTagVerbosityLevel";

    type Response = LogVerbosityLevel;

    proof fn type_is_tag(&self) {
        reveal(<GetLogTagVerbosityLevel as Wire>::wire);
        assert(tag_of(self.wire()) == Some("getLogTagVerbosityLevel"@));
    }
}

/// Adds a message to TDLib internal log. This is an offline method. Can be called before
/// authorization. Can be called synchronously
#[derive(Debug, Clone)]
pub struct AddLogMessage {
    /// The minimum verbosity level needed for the message to be logged, 0-1023
    pub verbosity_level: i32,
    /// Text of a message to log
    pub text: String,
}

impl Wire for AddLogMessage {
    #[verifier::opaque]
    open spec fn wire(&self) -> Doc {
        tagged(
            Map::empty()
                .insert("verbosityLevel"@, self.verbosity_level.wire())
                .insert("text"@, self.text.wire()),
            "addLogMessage"@,
        )
    }

    #[verifier::opaque]
    open spec fn parse(d: Doc, at: Seq<char>) -> Result<Doc, Fault> {
        match d {
            Doc::Object(m) => {
                let verbosity_level = field::<i32>(m, "verbosityLevel"@);
                let text = field::<String>(m, "text"@);
                if verbosity_level is Err {
                    verbosity_level
                } else if text is Err {
                    text
                } else {
                    Ok(
                        tagged(
                            Map::empty()
                                .insert("verbosityLevel"@, verbosity_level->Ok_0)
                                .insert("text"@, text->Ok_0),
                            "addLogMessage"@,
                        ),
                    )
                }
            },
            _ => Err(Fault::TypeMismatch(at)),
        }
    }

    fn encode(&self) -> (j: Json) {
        proof {
            reveal(<AddLogMessage as Wire>::wire);
        }
        let mut members: Vec<Member> = Vec::new();
        put(&mut members, "verbosityLevel", self.verbosity_level.encode());
        put(&mut members, "text", self.text.encode());
        seal(members, "addLogMessage")
    }

    fn decode(j: &Json, at: &str) -> (r: Result<Self, DecodeError>) {
        proof {
            reveal(<AddLogMessage as Wire>::wire);
            reveal(<AddLogMessage as Wire>::parse);
        }
        let members = members_of(j, at)?;
        let verbosity_level = read_field::<i32>(members, "verbosityLevel")?;
        let text = read_field::<String>(members, "text")?;
        Ok(AddLogMessage { verbosity_level, text })
    }

    proof fn round_trip(&self, at: Seq<char>) {
        reveal(<AddLogMessage as Wire>::wire);
        reveal(<AddLogMessage as Wire>::parse);
        reveal_strlit("@type");
        reveal_strlit("text");
        reveal_strlit("verbosityLevel");
        assert("@type"@.len() == 5);
        assert("text"@.len() == 4);
        assert("verbosityLevel"@.len() == 14);
        self.verbosity_level.round_trip("verbosityLevel"@);
        self.text.round_trip("text"@);
    }
}

impl Tagged for AddLogMessage {
    open spec fn known(tag: Seq<char>) -> bool {
        tag == "addLogMessage"@
    }

    fn knows(tag: &str) -> (r: bool) {
        same_text(tag, "addLogMessage")
    }

    proof fn tag_known(&self) {
        reveal(<AddLogMessage as Wire>::wire);
        assert(tag_of(self.wire()) == Some("addLogMessage"@));
        assert(Self::known("addLogMessage"@));
    }
}

impl Method for AddLogMessage {
    const TYPE: &'static str = "addLogMessage";

    type Response = Okay;

    proof fn type_is_tag(&self) {
        reveal(<AddLogMessage as Wire>::wire);
        assert(tag_of(self.wire()) == Some("addLogMessage"@));
    }
}

/// Does nothing; for testing only. This is an offline method. Can be called before authorization
#[derive(Debug, Clone)]
pub struct TestCallEmpty {}

impl Wire for TestCallEmpty {
    #[verifier::opaque]
    open spec fn wire(&self) -> Doc {
        tagged(Map::empty(), "testCallEmpty"@)
    }

    #[verifier::opaque]
    open spec fn parse(d: Doc, at: Seq<char>) -> Result<Doc, Fault> {
        match d {
            Doc::Object(_) => Ok(tagged(Map::empty(), "testCallEmpty"@)),
            _ => Err(Fault::TypeMismatch(at)),
        }
    }

    fn encode(&self) -> (j: Json) {
        proof {
            reveal(<TestCallEmpty as Wire>::wire);
        }
        seal(Vec::new(), "testCallEmpty")
    }

    fn decode(j: &Json, at: &str) -> (r: Result<Self, DecodeError>) {
        proof {
            reveal(<TestCallEmpty as Wire>::wire);
            reveal(<TestCallEmpty as Wire>::parse);
        }
        let _ = members_of(j, at)?;
        Ok(TestCallEmpty {})
    }

    proof fn round_trip(&self, at: Seq<char>) {
        reveal(<TestCallEmpty as Wire>::wire);
        reveal(<TestCallEmpty as Wire>::parse);
    }
}

impl Tagged for TestCallEmpty {
    open spec fn known(tag: Seq<char>) -> bool {
        tag == "testCallEmpty"@
    }

    fn knows(tag: &str) -> (r: bool) {
        same_text(tag, "testCallEmpty")
    }

    proof fn tag_known(&self) {
        reveal(<TestCallEmpty as Wire>::wire);
        assert(tag_of(self.wire()) == Some("testCallEmpty"@));
        assert(Self::known("testCallEmpty"@));
    }
}

impl Method for TestCallEmpty {
    const TYPE: &'static str = "testCallEmpty";

    type Response = Okay;

    proof fn type_is_tag(&self) {
        reveal(<TestCallEmpty as Wire>::wire);
        assert(tag_of(self.wire()) == Some("testCallEmpty"@));
    }
}

/// Returns the received string; for testing only. This is an offline method. Can be called before
/// authorization
#[derive(Debug, Clone)]
pub struct TestCallString {
    /// String to return
    pub x: String,
}

impl Wire for TestCallString {
    #[verifier::opaque]
    open spec fn wire(&self) -> Doc {
        tagged(
            Map::empty()
                .insert("x"@, self.x.wire()),
            "testCallString"@,
        )
    }

    #[verifier::opaque]
    open spec fn parse(d: Doc, at: Seq<char>) -> Result<Doc, Fault> {
        match d {
            Doc::Object(m) => {
                let x = field::<String>(m, "x"@);
                if x is Err {
                    x
                } else {
                    Ok(
                        tagged(
                            Map::empty()
                                .insert("x"@, x->Ok_0),
                            "testCallString"@,
                        ),
                    )
                }
            },
            _ => Err(Fault::TypeMismatch(at)),
        }
    }

    fn encode(&self) -> (j: Json) {
        proof {
            reveal(<TestCallString as Wire>::wire);
        }
        let mut members: Vec<Member> = Vec::new();
        put(&mut members, "x", self.x.encode());
        seal(members, "testCallString")
    }

    fn decode(j: &Json, at: &str) -> (r: Result<Self, DecodeError>) {
        proof {
            reveal(<TestCallString as Wire>::wire);
            reveal(<TestCallString as Wire>::parse);
        }
        let members = members_of(j, at)?;
        let x = read_field::<String>(members, "x")?;
        Ok(TestCallString { x })
    }

    proof fn round_trip(&self, at: Seq<char>) {
        reveal(<TestCallString as Wire>::wire);
        reveal(<TestCallString as Wire>::parse);
        reveal_strlit("@type");
        reveal_strlit("x");
        assert("@type"@.len() == 5);
        assert("x"@.len() == 1);
        self.x.round_trip("x"@);
    }
}

impl Tagged for TestCallString {
    open spec fn known(tag: Seq<char>) -> bool {
        tag == "testCallString"@
    }

    fn knows(tag: &str) -> (r: bool) {
        same_text(tag, "testCallString")
    }

    proof fn tag_known(&self) {
        reveal(<TestCallString as Wire>::wire);
        assert(tag_of(self.wire()) == Some("testCallString"@));
        assert(Self::known("testCallString"@));
    }
}

impl Method for TestCallString {
    const TYPE: &'static str = "testCallString";

    type Response = TestString;

    proof fn type_is_tag(&self) {
        reveal(<TestCallString as Wire>::wire);
        assert(tag_of(self.wire()) == Some("testCallString"@));
    }
}

/// Returns the received bytes; for testing only. This is an offline method. Can be called before
/// authorization
#[derive(Debug, Clone)]
pub struct TestCallBytes {
    /// Bytes to return
    pub x: String,
}

impl Wire for TestCallBytes {
    #[verifier::opaque]
    open spec fn wire(&self) -> Doc {
        tagged(
            Map::empty()
                .insert("x"@, self.x.wire()),
            "testCallBytes"@,
        )
    }

    #[verifier::opaque]
    open spec fn parse(d: Doc, at: Seq<char>) -> Result<Doc, Fault> {
        match d {
            Doc::Object(m) => {
                let x = field::<String>(m, "x"@);
                if x is Err {
                    x
                } else {
                    Ok(
                        tagged(
                            Map::empty()
                                .insert("x"@, x->Ok_0),
                            "testCallBytes"@,
                        ),
                    )
                }
            },
            _ => Err(Fault::TypeMismatch(at)),
        }
    }

    fn encode(&self) -> (j: Json) {
        proof {
            reveal(<TestCallBytes as Wire>::wire);
        }
        let mut members: Vec<Member> = Vec::new();
        put(&mut members, "x", self.x.encode());
        seal(members, "testCallBytes")
    }

    fn decode(j: &Json, at: &str) -> (r: Result<Self, DecodeError>) {
        proof {
            reveal(<TestCallBytes as Wire>::wire);
            reveal(<TestCallBytes as Wire>::parse);
        }
        let members = members_of(j, at)?;
        let x = read_field::<String>(members, "x")?;
        Ok(TestCallBytes { x })
    }

    proof fn round_trip(&self, at: Seq<char>) {
        reveal(<TestCallBytes as Wire>::wire);
        reveal(<TestCallBytes as Wire>::parse);
        reveal_strlit("@type");
        reveal_strlit("x");
        assert("@type"@.len() == 5);
        assert("x"@.len() == 1);
        self.x.round_trip("x"@);
    }
}

impl Tagged for TestCallBytes {
    open spec fn known(tag: Seq<char>) -> bool {
        tag == "testCallBytes"@
    }

    fn knows(tag: &str) -> (r: bool) {
        same_text(tag, "testCallBytes")
    }

    proof fn tag_known(&self) {
        reveal(<TestCallBytes as Wire>::wire);
        assert(tag_of(self.wire()) == Some("testCallBytes"@));
        assert(Self::known("testCallBytes"@));
    }
}

impl Method for TestCallBytes {
    const TYPE: &'static str = "testCallBytes";

    type Response = TestBytes;

    proof fn type_is_tag(&self) {
        reveal(<TestCallBytes as Wire>::wire);
        assert(tag_of(self.wire()) == Some("testCallBytes"@));
    }
}

/// Returns the received vector of numbers; for testing only. This is an offline method. Can be
/// called before authorization
#[derive(Debug, Clone)]
pub struct TestCallVectorInt {
    /// Vector of numbers to return
    pub x: Vec<i32>,
}

impl Wire for TestCallVectorInt {
    #[verifier::opaque]
    open spec fn wire(&self) -> Doc {
        tagged(
            Map::empty()
                .insert("x"@, self.x.wire()),
            "testCallVectorInt"@,
        )
    }

    #[verifier::opaque]
    open spec fn parse(d: Doc, at: Seq<char>) -> Result<Doc, Fault> {
        match d {
            Doc::Object(m) => {
                let x = field::<Vec<i32>>(m, "x"@);
                if x is Err {
                    x
                } else {
                    Ok(
                        tagged(
                            Map::empty()
                                .insert("x"@, x->Ok_0),
                            "testCallVectorInt"@,
                        ),
                    )
                }
            },
            _ => Err(Fault::TypeMismatch(at)),
        }
    }

    fn encode(&self) -> (j: Json) {
        proof {
            reveal(<TestCallVectorInt as Wire>::wire);
        }
        let mut members: Vec<Member> = Vec::new();
        put(&mut members, "x", self.x.encode());
        seal(members, "testCallVectorInt")
    }

    fn decode(j: &Json, at: &str) -> (r: Result<Self, DecodeError>) {
        proof {
            reveal(<TestCallVectorInt as Wire>::wire);
            reveal(<TestCallVectorInt as Wire>::parse);
        }
        let members = members_of(j, at)?;
        let x = read_field::<Vec<i32>>(members, "x")?;
        Ok(TestCallVectorInt { x })
    }

    proof fn round_trip(&self, at: Seq<char>) {
        reveal(<TestCallVectorInt as Wire>::wire);
        reveal(<TestCallVectorInt as Wire>::parse);
        reveal_strlit("@type");
        reveal_strlit("x");
        assert("@type"@.len() == 5);
        assert("x"@.len() == 1);
        self.x.round_trip("x"@);
    }
}

impl Tagged for TestCallVectorInt {
    open spec fn known(tag: Seq<char>) -> bool {
        tag == "testCallVectorInt"@
    }

    fn knows(tag: &str) -> (r: bool) {
        same_text(tag, "testCallVectorInt")
    }

    proof fn tag_known(&self) {
        reveal(<TestCallVectorInt as Wire>::wire);
        assert(tag_of(self.wire()) == Some("testCallVectorInt"@));
        assert(Self::known("testCallVectorInt"@));
    }
}

impl Method for TestCallVectorInt {
    const TYPE: &'static str = "testCallVectorInt";

    type Response = TestVectorInt;

    proof fn type_is_tag(&self) {
        reveal(<TestCallVectorInt as Wire>::wire);
        assert(tag_of(self.wire()) == Some("testCallVectorInt"@));
    }
}

/// Returns the received vector of objects containing a number; for testing only. This is an offline
/// method. Can be called before authorization
#[derive(Debug, Clone)]
pub struct TestCallVectorIntObject {
    /// Vector of objects to return
    pub x: Vec<TestInt>,
}

impl Wire for TestCallVectorIntObject {
    #[verifier::opaque]
    open spec fn wire(&self) -> Doc {
        tagged(
            Map::empty()
                .insert("x"@, self.x.wire()),
            "testCallVectorIntObject"@,
        )
    }

    #[verifier::opaque]
    open spec fn parse(d: Doc, at: Seq<char>) -> Result<Doc, Fault> {
        match d {
            Doc::Object(m) => {
                let x = field::<Vec<TestInt>>(m, "x"@);
                if x is Err {
                    x
                } else {
                    Ok(
                        tagged(
                            Map::empty()
                                .insert("x"@, x->Ok_0),
                            "testCallVectorIntObject"@,
                        ),
                    )
                }
            },
            _ => Err(Fault::TypeMismatch(at)),
        }
    }

    fn encode(&self) -> (j: Json) {
        proof {
            reveal(<TestCallVectorIntObject as Wire>::wire);
        }
        let mut members: Vec<Member> = Vec::new();
        put(&mut members, "x", self.x.encode());
        seal(members, "testCallVectorIntObject")
    }

    fn decode(j: &Json, at: &str) -> (r: Result<Self, DecodeError>) {
        proof {
            reveal(<TestCallVectorIntObject as Wire>::wire);
            reveal(<TestCallVectorIntObject as Wire>::parse);
        }
        let members = members_of(j, at)?;
        let x = read_field::<Vec<TestInt>>(members, "x")?;
        Ok(TestCallVectorIntObject { x })
    }

    proof fn round_trip(&self, at: Seq<char>) {
        reveal(<TestCallVectorIntObject as Wire>::wire);
        reveal(<TestCallVectorIntObject as Wire>::parse);
        reveal_strlit("@type");
        reveal_strlit("x");
        assert("@type"@.len() == 5);
        assert("x"@.len() == 1);
        self.x.round_trip("x"@);
    }
}

impl Tagged for TestCallVectorIntObject {
    open spec fn known(tag: Seq<char>) -> bool {
        tag == "testCallVectorIntObject"@
    }

    fn knows(tag: &str) -> (r: bool) {
        same_text(tag, "testCallVectorIntObject")
    }

    proof fn tag_known(&self) {
        reveal(<TestCallVectorIntObject as Wire>::wire);
        assert(tag_of(self.wire()) == Some("testCallVectorIntObject"@));
        assert(Self::known("testCallVectorIntObject"@));
    }
}

impl Method for TestCallVectorIntObject {
    const TYPE: &'static str = "testCallVectorIntObject";

    type Response = TestVectorIntObject;

    proof fn type_is_tag(&self) {
        reveal(<TestCallVectorIntObject as Wire>::wire);
        assert(tag_of(self.wire()) == Some("testCallVectorIntObject"@));
    }
}

/// Returns the received vector of strings; for testing only. This is an offline method. Can be
/// called before authorization
#[derive(Debug, Clone)]
pub struct TestCallVectorString {
    /// Vector of strings to return
    pub x: Vec<String>,
}

impl Wire for TestCallVectorString {
    #[verifier::opaque]
    open spec fn wire(&self) -> Doc {
        tagged(
            Map::empty()
                .insert("x"@, self.x.wire()),
            "testCallVectorString"@,
        )
    }

    #[verifier::opaque]
    open spec fn parse(d: Doc, at: Seq<char>) -> Result<Doc, Fault> {
        match d {
            Doc::Object(m) => {
                let x = field::<Vec<String>>(m, "x"@);
                if x is Err {
                    x
                } else {
                    Ok(
                        tagged(
                            Map::empty()
                                .insert("x"@, x->Ok_0),
                            "testCallVectorString"@,
                        ),
                    )
                }
            },
            _ => Err(Fault::TypeMismatch(at)),
        }
    }

    fn encode(&self) -> (j: Json) {
        proof {
            reveal(<TestCallVectorString as Wire>::wire);
        }
        let mut members: Vec<Member> = Vec::new();
        put(&mut members, "x", self.x.encode());
        seal(members, "testCallVectorString")
    }

    fn decode(j: &Json, at: &str) -> (r: Result<Self, DecodeError>) {
        proof {
            reveal(<TestCallVectorString as Wire>::wire);
            reveal(<TestCallVectorString as Wire>::parse);
        }
        let members = members_of(j, at)?;
        let x = read_field::<Vec<String>>(members, "x")?;
        Ok(TestCallVectorString { x })
    }

    proof fn round_trip(&self, at: Seq<char>) {
        reveal(<TestCallVectorString as Wire>::wire);
        reveal(<TestCallVectorString as Wire>::parse);
        reveal_strlit("@type");
        reveal_strlit("x");
        assert("@type"@.len() == 5);
        assert("x"@.len() == 1);
        self.x.round_trip("x"@);
    }
}

impl Tagged for TestCallVectorString {
    open spec fn known(tag: Seq<char>) -> bool {
        tag == "testCallVectorString"@
    }

    fn knows(tag: &str) -> (r: bool) {
        same_text(tag, "testCallVectorString")
    }

    proof fn tag_known(&self) {
        reveal(<TestCallVectorString as Wire>::wire);
        assert(tag_of(self.wire()) == Some("testCallVectorString"@));
        assert(Self::known("testCallVectorString"@));
    }
}

impl Method for TestCallVectorString {
    const TYPE: &'static str = "testCallVectorString";

    type Response = TestVectorString;

    proof fn type_is_tag(&self) {
        reveal(<TestCallVectorString as Wire>::wire);
        assert(tag_of(self.wire()) == Some("testCallVectorString"@));
    }
}

/// Returns the received vector of objects containing a string; for testing only. This is an offline
/// method. Can be called before authorization
#[derive(Debug, Clone)]
pub struct TestCallVectorStringObject {
    /// Vector of objects to return
    pub x: Vec<TestString>,
}

impl Wire for TestCallVectorStringObject {
    #[verifier::opaque]
    open spec fn wire(&self) -> Doc {
        tagged(
            Map::empty()
                .insert("x"@, self.x.wire()),
            "testCallVectorStringObject"@,
        )
    }

    #[verifier::opaque]
    open spec fn parse(d: Doc, at: Seq<char>) -> Result<Doc, Fault> {
        match d {
            Doc::Object(m) => {
                let x = field::<Vec<TestString>>(m, "x"@);
                if x is Err {
                    x
                } else {
                    Ok(
                        tagged(
                            Map::empty()
                                .insert("x"@, x->Ok_0),
                            "testCallVectorStringObject"@,
                        ),
                    )
                }
            },
            _ => Err(Fault::TypeMismatch(at)),
        }
    }

    fn encode(&self) -> (j: Json) {
        proof {
            reveal(<TestCallVectorStringObject as Wire>::wire);
        }
        let mut members: Vec<Member> = Vec::new();
        put(&mut members, "x", self.x.encode());
        seal(members, "testCallVectorStringObject")
    }

    fn decode(j: &Json, at: &str) -> (r: Result<Self, DecodeError>) {
        proof {
            reveal(<TestCallVectorStringObject as Wire>::wire);
            reveal(<TestCallVectorStringObject as Wire>::parse);
        }
        let members = members_of(j, at)?;
        let x = read_field::<Vec<TestString>>(members, "x")?;
        Ok(TestCallVectorStringObject { x })
    }

    proof fn round_trip(&self, at: Seq<char>) {
        reveal(<TestCallVectorStringObject as Wire>::wire);
        reveal(<TestCallVectorStringObject as Wire>::parse);
        reveal_strlit("@type");
        reveal_strlit("x");
        assert("@type"@.len() == 5);
        assert("x"@.len() == 1);
        self.x.round_trip("x"@);
    }
}

impl Tagged for TestCallVectorStringObject {
    open spec fn known(tag: Seq<char>) -> bool {
        tag == "testCallVectorStringObject"@
    }

    fn knows(tag: &str) -> (r: bool) {
        same_text(tag, "testCallVectorStringObject")
    }

    proof fn tag_known(&self) {
        reveal(<TestCallVectorStringObject as Wire>::wire);
        assert(tag_of(self.wire()) == Some("testCallVectorStringObject"@));
        assert(Self::known("testCallVectorStringObject"@));
    }
}

impl Method for TestCallVectorStringObject {
    const TYPE: &'static str = "testCallVectorStringObject";

    type Response = TestVectorStringObject;

    proof fn type_is_tag(&self) {
        reveal(<TestCallVectorStringObject as Wire>::wire);
        assert(tag_of(self.wire()) == Some("testCallVectorStringObject"@));
    }
}

/// Returns the squared received number; for testing only. This is an offline method. Can be called
/// before authorization
#[derive(Debug, Clone)]
pub struct TestSquareInt {
    /// Number to square
    pub x: i32,
}

impl Wire for TestSquareInt {
    #[verifier::opaque]
    open spec fn wire(&self) -> Doc {
        tagged(
            Map::empty()
                .insert("x"@, self.x.wire()),
            "testSquareInt"@,
        )
    }

    #[verifier::opaque]
    open spec fn parse(d: Doc, at: Seq<char>) -> Result<Doc, Fault> {
        match d {
            Doc::Object(m) => {
                let x = field::<i32>(m, "x"@);
                if x is Err {
                    x
                } else {
                    Ok(
                        tagged(
                            Map::empty()
                                .insert("x"@, x->Ok_0),
                            "testSquareInt"@,
                        ),
                    )
                }
            },
            _ => Err(Fault::TypeMismatch(at)),
        }
    }

    fn encode(&self) -> (j: Json) {
        proof {
            reveal(<TestSquareInt as Wire>::wire);
        }
        let mut members: Vec<Member> = Vec::new();
        put(&mut members, "x", self.x.encode());
        seal(members, "testSquareInt")
    }

    fn decode(j: &Json, at: &str) -> (r: Result<Self, DecodeError>) {
        proof {
            reveal(<TestSquareInt as Wire>::wire);
            reveal(<TestSquareInt as Wire>::parse);
        }
        let members = members_of(j, at)?;
        let x = read_field::<i32>(members, "x")?;
        Ok(TestSquareInt { x })
    }

    proof fn round_trip(&self, at: Seq<char>) {
        reveal(<TestSquareInt as Wire>::wire);
        reveal(<TestSquareInt as Wire>::parse);
        reveal_strlit("@type");
        reveal_strlit("x");
        assert("@type"@.len() == 5);
        assert("x"@.len() == 1);
        self.x.round_trip("x"@);
    }
}

impl Tagged for TestSquareInt {
    open spec fn known(tag: Seq<char>) -> bool {
        tag == "testSquareInt"@
    }

    fn knows(tag: &str) -> (r: bool) {
        same_text(tag, "testSquareInt")
    }

    proof fn tag_known(&self) {
        reveal(<TestSquareInt as Wire>::wire);
        assert(tag_of(self.wire()) == Some("testSquareInt"@));
        assert(Self::known("testSquareInt"@));
    }
}

impl Method for TestSquareInt {
    const TYPE: &'static str = "testSquareInt";

    type Response = TestInt;

    proof fn type_is_tag(&self) {
        reveal(<TestSquareInt as Wire>::wire);
        assert(tag_of(self.wire()) == Some("testSquareInt"@));
    }
}

/// Sends a simple network request to the Telegram servers; for testing only. Can be called before
/// authorization
#[derive(Debug, Clone)]
pub struct TestNetwork {}

impl Wire for TestNetwork {
    #[verifier::opaque]
    open spec fn wire(&self) -> Doc {
        tagged(Map::empty(), "testNetwork"@)
    }

    #[verifier::opaque]
    open spec fn parse(d: Doc, at: Seq<char>) -> Result<Doc, Fault> {
        match d {
            Doc::Object(_) => Ok(tagged(Map::empty(), "testNetwork"@)),
            _ => Err(Fault::TypeMismatch(at)),
        }
    }

    fn encode(&self) -> (j: Json) {
        proof {
            reveal(<TestNetwork as Wire>::wire);
        }
        seal(Vec::new(), "testNetwork")
    }

    fn decode(j: &Json, at: &str) -> (r: Result<Self, DecodeError>) {
        proof {
            reveal(<TestNetwork as Wire>::wire);
            reveal(<TestNetwork as Wire>::parse);
        }
        let _ = members_of(j, at)?;
        Ok(TestNetwork {})
    }

    proof fn round_trip(&self, at: Seq<char>) {
        reveal(<TestNetwork as Wire>::wire);
        reveal(<TestNetwork as Wire>::parse);
    }
}

impl Tagged for TestNetwork {
    open spec fn known(tag: Seq<char>) -> bool {
        tag == "testNetwork"@
    }

    fn knows(tag: &str) -> (r: bool) {
        same_text(tag, "testNetwork")
    }

    proof fn tag_known(&self) {
        reveal(<TestNetwork as Wire>::wire);
        assert(tag_of(self.wire()) == Some("testNetwork"@));
        assert(Self::known("testNetwork"@));
    }
}

impl Method for TestNetwork {
    const TYPE: &'static str = "testNetwork";

    type Response = Okay;

    proof fn type_is_tag(&self) {
        reveal(<TestNetwork as Wire>::wire);
        assert(tag_of(self.wire()) == Some("testNetwork"@));
    }
}

/// Sends a simple network request to the Telegram servers via proxy; for testing only. Can be
/// called before authorization
#[derive(Debug, Clone)]
pub struct TestProxy {
    /// Proxy server IP address
    pub server: String,
    /// Proxy server port
    pub port: i32,
    /// Proxy type
    pub type_: ProxyType,
    /// Identifier of a datacenter, with which to test connection
    pub dc_id: i32,
    /// The maximum overall timeout for the request
    pub timeout: Number,
}

impl Wire for TestProxy {
    #[verifier::opaque]
    open spec fn wire(&self) -> Doc {
        tagged(
            Map::empty()
                .insert("server"@, self.server.wire())
                .insert("port"@, self.port.wire())
                .insert("type"@, self.type_.wire())
                .insert("dcId"@, self.dc_id.wire())
                .insert("timeout"@, self.timeout.wire()),
            "testProxy"@,
        )
    }

    #[verifier::opaque]
    open spec fn parse(d: Doc, at: Seq<char>) -> Result<Doc, Fault> {
        match d {
            Doc::Object(m) => {
                let server = field::<String>(m, "server"@);
                let port = field::<i32>(m, "port"@);
                let type_ = field::<ProxyType>(m, "type"@);
                let dc_id = field::<i32>(m, "dcId"@);
                let timeout = field::<Number>(m, "timeout"@);
                if server is Err {
                    server
                } else if port is Err {
                    port
                } else if type_ is Err {
                    type_
                } else if dc_id is Err {
                    dc_id
                } else if timeout is Err {
                    timeout
                } else {
                    Ok(
                        tagged(
                            Map::empty()
                                .insert("server"@, server->Ok_0)
                                .insert("port"@, port->Ok_0)
                                .insert("type"@, type_->Ok_0)
                                .insert("dcId"@, dc_id->Ok_0)
                                .insert("timeout"@, timeout->Ok_0),
                            "testProxy"@,
                        ),
                    )
                }
            },
            _ => Err(Fault::TypeMismatch(at)),
        }
    }

    fn encode(&self) -> (j: Json) {
        proof {
            reveal(<TestProxy as Wire>::wire);
        }
        let mut members: Vec<Member> = Vec::new();
        put(&mut members, "server", self.server.encode());
        put(&mut members, "port", self.port.encode());
        put(&mut members, "type", self.type_.encode());
        put(&mut members, "dcId", self.dc_id.encode());
        put(&mut members, "timeout", self.timeout.encode());
        seal(members, "testProxy")
    }

    fn decode(j: &Json, at: &str) -> (r: Result<Self, DecodeError>) {
        proof {
            reveal(<TestProxy as Wire>::wire);
            reveal(<TestProxy as Wire>::parse);
        }
        let members = members_of(j, at)?;
        let server = read_field::<String>(members, "server")?;
        let port = read_field::<i32>(members, "port")?;
        let type_ = read_field::<ProxyType>(members, "type")?;
        let dc_id = read_field::<i32>(members, "dcId")?;
        let timeout = read_field::<Number>(members, "timeout")?;
        Ok(TestProxy { server, port, type_, dc_id, timeout })
    }

    proof fn round_trip(&self, at: Seq<char>) {
        reveal(<TestProxy as Wire>::wire);
        reveal(<TestProxy as Wire>::parse);
        reveal_strlit("@type");
        reveal_strlit("dcId");
        reveal_strlit("port");
        reveal_strlit("server");
        reveal_strlit("timeout");
        reveal_strlit("type");
        assert("@type"@.len() == 5);
        assert("dcId"@.len() == 4 && "dcId"@[0] == 'd');
        assert("port"@.len() == 4 && "port"@[0] == 'p');
        assert("server"@.len() == 6);
        assert("timeout"@.len() == 7);
        assert("type"@.len() == 4 && "type"@[0] == 't');
        self.server.round_trip("server"@);
        self.port.round_trip("port"@);
        self.type_.round_trip("type"@);
        self.dc_id.round_trip("dcId"@);
        self.timeout.round_trip("timeout"@);
    }
}

impl Tagged for TestProxy {
    open spec fn known(tag: Seq<char>) -> bool {
        tag == "testProxy"@
    }

    fn knows(tag: &str) -> (r: bool) {
        same_text(tag, "testProxy")
    }

    proof fn tag_known(&self) {
        reveal(<TestProxy as Wire>::wire);
        assert(tag_of(self.wire()) == Some("testProxy"@));
        assert(Self::known("testProxy"@));
    }
}

impl Method for TestProxy {
    const TYPE: &'static str = "testProxy";

    type Response = Okay;

    proof fn type_is_tag(&self) {
        reveal(<TestProxy as Wire>::wire);
        assert(tag_of(self.wire()) == Some("testProxy"@));
    }
}

/// Forces an updates.getDifference call to the Telegram servers; for testing only
#[derive(Debug, Clone)]
pub struct TestGetDifference {}

impl Wire for TestGetDifference {
    #[verifier::opaque]
    open spec fn wire(&self) -> Doc {
        tagged(Map::empty(), "testGetDifference"@)
    }

    #[verifier::opaque]
    open spec fn parse(d: Doc, at: Seq<char>) -> Result<Doc, Fault> {
        match d {
            Doc::Object(_) => Ok(tagged(Map::empty(), "testGetDifference"@)),
            _ => Err(Fault::TypeMismatch(at)),
        }
    }

    fn encode(&self) -> (j: Json) {
        proof {
            reveal(<TestGetDifference as Wire>::wire);
        }
        seal(Vec::new(), "testGetDifference")
    }

    fn decode(j: &Json, at: &str) -> (r: Result<Self, DecodeError>) {
        proof {
            reveal(<TestGetDifference as Wire>::wire);
            reveal(<TestGetDifference as Wire>::parse);
        }
        let _ = members_of(j, at)?;
        Ok(TestGetDifference {})
    }

    proof fn round_trip(&self, at: Seq<char>) {
        reveal(<TestGetDifference as Wire>::wire);
        reveal(<TestGetDifference as Wire>::parse);
    }
}

impl Tagged for TestGetDifference {
    open spec fn known(tag: Seq<char>) -> bool {
        tag == "testGetDifference"@
    }

    fn knows(tag: &str) -> (r: bool) {
        same_text(tag, "testGetDifference")
    }

    proof fn tag_known(&self) {
        reveal(<TestGetDifference as Wire>::wire);
        assert(tag_of(self.wire()) == Some("testGetDifference"@));
        assert(Self::known("testGetDifference"@));
    }
}

impl Method for TestGetDifference {
    const TYPE: &'static str = "testGetDifference";

    type Response = Okay;

    proof fn type_is_tag(&self) {
        reveal(<TestGetDifference as Wire>::wire);
        assert(tag_of(self.wire()) == Some("testGetDifference"@));
    }
}

/// Does nothing and ensures that the Update object is used; for testing only. This is an offline
/// method. Can be called before authorization
#[derive(Debug, Clone)]
pub struct TestUseUpdate {}

impl Wire for TestUseUpdate {
    #[verifier::opaque]
    open spec fn wire(&self) -> Doc {
        tagged(Map::empty(), "testUseUpdate"@)
    }

    #[verifier::opaque]
    open spec fn parse(d: Doc, at: Seq<char>) -> Result<Doc, Fault> {
        match d {
            Doc::Object(_) => Ok(tagged(Map::empty(), "testUseUpdate"@)),
            _ => Err(Fault::TypeMismatch(at)),
        }
    }

    fn encode(&self) -> (j: Json) {
        proof {
            reveal(<TestUseUpdate as Wire>::wire);
        }
        seal(Vec::new(), "testUseUpdate")
    }

    fn decode(j: &Json, at: &str) -> (r: Result<Self, DecodeError>) {
        proof {
            reveal(<TestUseUpdate as Wire>::wire);
            reveal(<TestUseUpdate as Wire>::parse);
        }
        let _ = members_of(j, at)?;
        Ok(TestUseUpdate {})
    }

    proof fn round_trip(&self, at: Seq<char>) {
        reveal(<TestUseUpdate as Wire>::wire);
        reveal(<TestUseUpdate as Wire>::parse);
    }
}

impl Tagged for TestUseUpdate {
    open spec fn known(tag: Seq<char>) -> bool {
        tag == "testUseUpdate"@
    }

    fn knows(tag: &str) -> (r: bool) {
        same_text(tag, "testUseUpdate")
    }

    proof fn tag_known(&self) {
        reveal(<TestUseUpdate as Wire>::wire);
        assert(tag_of(self.wire()) == Some("testUseUpdate"@));
        assert(Self::known("testUseUpdate"@));
    }
}

impl Method for TestUseUpdate {
    const TYPE: &'static str = "testUseUpdate";

    type Response = Update;

    proof fn type_is_tag(&self) {
        reveal(<TestUseUpdate as Wire>::wire);
        assert(tag_of(self.wire()) == Some("testUseUpdate"@));
    }
}

/// Returns the specified error and ensures that the Error object is used; for testing only. This is
/// an offline method. Can be called before authorization. Can be called synchronously
#[derive(Debug, Clone)]
pub struct TestReturnError {
    /// The error to be returned
    pub error: Error,
}

impl Wire for TestReturnError {
    #[verifier::opaque]
    open spec fn wire(&self) -> Doc {
        tagged(
            Map::empty()
                .insert("error"@, self.error.wire()),
            "testReturnError"@,
        )
    }

    #[verifier::opaque]
    open spec fn parse(d: Doc, at: Seq<char>) -> Result<Doc, Fault> {
        match d {
            Doc::Object(m) => {
                let error = field::<Error>(m, "error"@);
                if error is Err {
                    error
                } else {
                    Ok(
                        tagged(
                            Map::empty()
                                .insert("error"@, error->Ok_0),
                            "testReturnError"@,
                        ),
                    )
                }
            },
            _ => Err(Fault::TypeMismatch(at)),
        }
    }

    fn encode(&self) -> (j: Json) {
        proof {
            reveal(<TestReturnError as Wire>::wire);
        }
        let mut members: Vec<Member> = Vec::new();
        put(&mut members, "error", self.error.encode());
        seal(members, "testReturnError")
    }

    fn decode(j: &Json, at: &str) -> (r: Result<Self, DecodeError>) {
        proof {
            reveal(<TestReturnError as Wire>::wire);
            reveal(<TestReturnError as Wire>::parse);
        }
        let members = members_of(j, at)?;
        let error = read_field::<Error>(members, "error")?;
        Ok(TestReturnError { error })
    }

    proof fn round_trip(&self, at: Seq<char>) {
        reveal(<TestReturnError as Wire>::wire);
        reveal(<TestReturnError as Wire>::parse);
        reveal_strlit("@type");
        reveal_strlit("error");
        assert("@type"@.len() == 5 && "@type"@[0] == '@');
        assert("error"@.len() == 5 && "error"@[0] == 'e');
        self.error.round_trip("error"@);
    }
}

impl Tagged for TestReturnError {
    open spec fn known(tag: Seq<char>) -> bool {
        tag == "testReturnError"@
    }

    fn knows(tag: &str) -> (r: bool) {
        same_text(tag, "testReturnError")
    }

    proof fn tag_known(&self) {
        reveal(<TestReturnError as Wire>::wire);
        assert(tag_of(self.wire()) == Some("testReturnError"@));
        assert(Self::known("testReturnError"@));
    }
}

impl Method for TestReturnError {
    const TYPE: &'static str = "testReturnError";

    type Response = Error;

    proof fn type_is_tag(&self) {
        reveal(<TestReturnError as Wire>::wire);
        assert(tag_of(self.wire()) == Some("testReturnError"@));
    }
}

} // verus!
