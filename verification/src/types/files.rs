//! Files and the media that are made of them.

use vstd::prelude::*;
use crate::codec::{
    discriminator, encode_wide, field, lemma_wide_round_trip, members_of, optional_field, put,
    read_field, read_optional, read_wide, seal, Tagged, Union, wide_doc, wide_field, Wire,
};
use crate::error::{DecodeError, Fault};
use crate::json::{Doc, Json, Member, Number, tag_of, tagged};
use crate::text::same_text;
use crate::types::{
    FormattedText,
};

verus! {

/// Represents a local file
#[derive(Debug, Clone, PartialEq)]
pub struct LocalFile {
    /// Local path to the locally available file part; may be empty
    pub path: String,
    /// True, if it is possible to try to download or generate the file
    pub can_be_downloaded: bool,
    /// True, if the file can be deleted
    pub can_be_deleted: bool,
    /// True, if the file is currently being downloaded (or a local copy is being generated by some
    /// other means)
    pub is_downloading_active: bool,
    /// True, if the local copy is fully available
    pub is_downloading_completed: bool,
    /// Download will be started from this offset. downloaded_prefix_size is calculated from this
    /// offset
    pub download_offset: i32,
    /// If is_downloading_completed is false, then only some prefix of the file starting from
    /// download_offset is ready to be read. downloaded_prefix_size is the size of that prefix
    pub downloaded_prefix_size: i32,
    /// Total downloaded file bytes. Should be used only for calculating download progress. The
    /// actual file size may be bigger, and some parts of it may contain garbage
    pub downloaded_size: i32,
}

impl Wire for LocalFile {
    #[verifier::opaque]
    open spec fn wire(&self) -> Doc {
        tagged(
            Map::empty()
                .insert("path"@, self.path.wire())
                .insert("canBeDownloaded"@, self.can_be_downloaded.wire())
                .insert("canBeDeleted"@, self.can_be_deleted.wire())
                .insert("isDownloadingActive"@, self.is_downloading_active.wire())
                .insert("isDownloadingCompleted"@, self.is_downloading_completed.wire())
                .insert("downloadOffset"@, self.download_offset.wire())
                .insert("downloadedPrefixSize"@, self.downloaded_prefix_size.wire())
                .insert("downloadedSize"@, self.downloaded_size.wire()),
            "localFile"@,
        )
    }

    #[verifier::opaque]
    open spec fn parse(d: Doc, at: Seq<char>) -> Result<Doc, Fault> {
        match d {
            Doc::Object(m) => {
                let path = field::<String>(m, "path"@);
                let can_be_downloaded = field::<bool>(m, "canBeDownloaded"@);
                let can_be_deleted = field::<bool>(m, "canBeDeleted"@);
                let is_downloading_active = field::<bool>(m, "isDownloadingActive"@);
                let is_downloading_completed = field::<bool>(m, "isDownloadingCompleted"@);
                let download_offset = field::<i32>(m, "downloadOffset"@);
                let downloaded_prefix_size = field::<i32>(m, "downloadedPrefixSize"@);
                let downloaded_size = field::<i32>(m, "downloadedSize"@);
                if path is Err {
                    path
                } else if can_be_downloaded is Err {
                    can_be_downloaded
                } else if can_be_deleted is Err {
                    can_be_deleted
                } else if is_downloading_active is Err {
                    is_downloading_active
                } else if is_downloading_completed is Err {
                    is_downloading_completed
                } else if download_offset is Err {
                    download_offset
                } else if downloaded_prefix_size is Err {
                    downloaded_prefix_size
                } else if downloaded_size is Err {
                    downloaded_size
                } else {
                    Ok(
                        tagged(
                            Map::empty()
                                .insert("path"@, path->Ok_0)
                                .insert("canBeDownloaded"@, can_be_downloaded->Ok_0)
                                .insert("canBeDeleted"@, can_be_deleted->Ok_0)
                                .insert("isDownloadingActive"@, is_downloading_active->Ok_0)
                                .insert("isDownloadingCompleted"@, is_downloading_completed->Ok_0)
                                .insert("downloadOffset"@, download_offset->Ok_0)
                                .insert("downloadedPrefixSize"@, downloaded_prefix_size->Ok_0)
                                .insert("downloadedSize"@, downloaded_size->Ok_0),
                            "localFile"@,
                        ),
                    )
                }
            },
            _ => Err(Fault::TypeMismatch(at)),
        }
    }

    fn encode(&self) -> (j: Json) {
        proof {
            reveal(<LocalFile as Wire>::wire);
        }
        let mut members: Vec<Member> = Vec::new();
        put(&mut members, "path", self.path.encode());
        put(&mut members, "canBeDownloaded", self.can_be_downloaded.encode());
        put(&mut members, "canBeDeleted", self.can_be_deleted.encode());
        put(&mut members, "isDownloadingActive", self.is_downloading_active.encode());
        put(&mut members, "isDownloadingCompleted", self.is_downloading_completed.encode());
        put(&mut members, "downloadOffset", self.download_offset.encode());
        put(&mut members, "downloadedPrefixSize", self.downloaded_prefix_size.encode());
        put(&mut members, "downloadedSize", self.downloaded_size.encode());
        seal(members, "localFile")
    }

    fn decode(j: &Json, at: &str) -> (r: Result<Self, DecodeError>) {
        proof {
            reveal(<LocalFile as Wire>::wire);
            reveal(<LocalFile as Wire>::parse);
        }
        let members = members_of(j, at)?;
        let path = read_field::<String>(members, "path")?;
        let can_be_downloaded = read_field::<bool>(members, "canBeDownloaded")?;
        let can_be_deleted = read_field::<bool>(members, "canBeDeleted")?;
        let is_downloading_active = read_field::<bool>(members, "isDownloadingActive")?;
        let is_downloading_completed = read_field::<bool>(members, "isDownloadingCompleted")?;
        let download_offset = read_field::<i32>(members, "downloadOffset")?;
        let downloaded_prefix_size = read_field::<i32>(members, "downloadedPrefixSize")?;
        let downloaded_size = read_field::<i32>(members, "downloadedSize")?;
        Ok(LocalFile {
            path,
            can_be_downloaded,
            can_be_deleted,
            is_downloading_active,
            is_downloading_completed,
            download_offset,
            downloaded_prefix_size,
            downloaded_size,
        })
    }

    proof fn round_trip(&self, at: Seq<char>) {
        reveal(<LocalFile as Wire>::wire);
        reveal(<LocalFile as Wire>::parse);
        reveal_strlit("@type");
        reveal_strlit("canBeDeleted");
        reveal_strlit("canBeDownloaded");
        reveal_strlit("downloadOffset");
        reveal_strlit("downloadedPrefixSize");
        reveal_strlit("downloadedSize");
        reveal_strlit("isDownloadingActive");
        reveal_strlit("isDownloadingCompleted");
        reveal_strlit("path");
        assert("@type"@.len() == 5);
        assert("canBeDeleted"@.len() == 12);
        assert("canBeDownloaded"@.len() == 15);
        assert("downloadOffset"@.len() == 14 && "downloadOffset"@[8] == 'O');
        assert("downloadedPrefixSize"@.len() == 20);
        assert("downloadedSize"@.len() == 14 && "downloadedSize"@[8] == 'e');
        assert("isDownloadingActive"@.len() == 19);
        assert("isDownloadingCompleted"@.len() == 22);
        assert("path"@.len() == 4);
        self.path.round_trip("path"@);
        self.can_be_downloaded.round_trip("canBeDownloaded"@);
        self.can_be_deleted.round_trip("canBeDeleted"@);
        self.is_downloading_active.round_trip("isDownloadingActive"@);
        self.is_downloading_completed.round_trip("isDownloadingCompleted"@);
        self.download_offset.round_trip("downloadOffset"@);
        self.downloaded_prefix_size.round_trip("downloadedPrefixSize"@);
        self.downloaded_size.round_trip("downloadedSize"@);
    }
}

impl Tagged for LocalFile {
    open spec fn known(tag: Seq<char>) -> bool {
        tag == "localFile"@
    }

    fn knows(tag: &str) -> (r: bool) {
        same_text(tag, "localFile")
    }

    proof fn tag_known(&self) {
        reveal(<LocalFile as Wire>::wire);
        assert(tag_of(self.wire()) == Some("localFile"@));
        assert(Self::known("localFile"@));
    }
}

/// Represents a remote file
#[derive(Debug, Clone, PartialEq)]
pub struct RemoteFile {
    /// Remote file identifier; may be empty. Can be used across application restarts or even from
    /// other devices for the current user. Uniquely identifies a file, but a file can have a lot of
    /// different valid identifiers. If the ID starts with "http://" or "https://", it represents
    /// the HTTP URL of the file. TDLib is currently unable to download files if only their URL is
    /// known. If downloadFile is called on such a file or if it is sent to a secret chat, TDLib
    /// starts a file generation process by sending updateFileGenerationStart to the client with the
    /// HTTP URL in the original_path and "#url#" as the conversion string. Clients should generate
    /// the file by downloading it to the specified location
    pub id: String,
    /// Unique file identifier; may be empty if unknown. The unique file identifier which is the
    /// same for the same file even for different users and is persistent over time
    pub unique_id: String,
    /// True, if the file is currently being uploaded (or a remote copy is being generated by some
    /// other means)
    pub is_uploading_active: bool,
    /// True, if a remote copy is fully available
    pub is_uploading_completed: bool,
    /// Size of the remote available part of the file; 0 if unknown
    pub uploaded_size: i32,
}

impl Wire for RemoteFile {
    #[verifier::opaque]
    open spec fn wire(&self) -> Doc {
        tagged(
            Map::empty()
                .insert("id"@, self.id.wire())
                .insert("uniqueId"@, self.unique_id.wire())
                .insert("isUploadingActive"@, self.is_uploading_active.wire())
                .insert("isUploadingCompleted"@, self.is_uploading_completed.wire())
                .insert("uploadedSize"@, self.uploaded_size.wire()),
            "remoteFile"@,
        )
    }

    #[verifier::opaque]
    open spec fn parse(d: Doc, at: Seq<char>) -> Result<Doc, Fault> {
        match d {
            Doc::Object(m) => {
                let id = field::<String>(m, "id"@);
                let unique_id = field::<String>(m, "uniqueId"@);
                let is_uploading_active = field::<bool>(m, "isUploadingActive"@);
                let is_uploading_completed = field::<bool>(m, "isUploadingCompleted"@);
                let uploaded_size = field::<i32>(m, "uploadedSize"@);
                if id is Err {
                    id
                } else if unique_id is Err {
                    unique_id
                } else if is_uploading_active is Err {
                    is_uploading_active
                } else if is_uploading_completed is Err {
                    is_uploading_completed
                } else if uploaded_size is Err {
                    uploaded_size
                } else {
                    Ok(
                        tagged(
                            Map::empty()
                                .insert("id"@, id->Ok_0)
                                .insert("uniqueId"@, unique_id->Ok_0)
                                .insert("isUploadingActive"@, is_uploading_active->Ok_0)
                                .insert("isUploadingCompleted"@, is_uploading_completed->Ok_0)
                                .insert("uploadedSize"@, uploaded_size->Ok_0),
                            "remoteFile"@,
                        ),
                    )
                }
            },
            _ => Err(Fault::TypeMismatch(at)),
        }
    }

    fn encode(&self) -> (j: Json) {
        proof {
            reveal(<RemoteFile as Wire>::wire);
        }
        let mut members: Vec<Member> = Vec::new();
        put(&mut members, "id", self.id.encode());
        put(&mut members, "uniqueId", self.unique_id.encode());
        put(&mut members, "isUploadingActive", self.is_uploading_active.encode());
        put(&mut members, "isUploadingCompleted", self.is_uploading_completed.encode());
        put(&mut members, "uploadedSize", self.uploaded_size.encode());
        seal(members, "remoteFile")
    }

    fn decode(j: &Json, at: &str) -> (r: Result<Self, DecodeError>) {
        proof {
            reveal(<RemoteFile as Wire>::wire);
            reveal(<RemoteFile as Wire>::parse);
        }
        let members = members_of(j, at)?;
        let id = read_field::<String>(members, "id")?;
        let unique_id = read_field::<String>(members, "uniqueId")?;
        let is_uploading_active = read_field::<bool>(members, "isUploadingActive")?;
        let is_uploading_completed = read_field::<bool>(members, "isUploadingCompleted")?;
        let uploaded_size = read_field::<i32>(members, "uploadedSize")?;
        Ok(RemoteFile { id, unique_id, is_uploading_active, is_uploading_completed, uploaded_size })
    }

    proof fn round_trip(&self, at: Seq<char>) {
        reveal(<RemoteFile as Wire>::wire);
        reveal(<RemoteFile as Wire>::parse);
        reveal_strlit("@type");
        reveal_strlit("id");
        reveal_strlit("isUploadingActive");
        reveal_strlit("isUploadingCompleted");
        reveal_strlit("uniqueId");
        reveal_strlit("uploadedSize");
        assert("@type"@.len() == 5);
        assert("id"@.len() == 2);
        assert("isUploadingActive"@.len() == 17);
        assert("isUploadingCompleted"@.len() == 20);
        assert("uniqueId"@.len() == 8);
        assert("uploadedSize"@.len() == 12);
        self.id.round_trip("id"@);
        self.unique_id.round_trip("uniqueId"@);
        self.is_uploading_active.round_trip("isUploadingActive"@);
        self.is_uploading_completed.round_trip("isUploadingCompleted"@);
        self.uploaded_size.round_trip("uploadedSize"@);
    }
}

impl Tagged for RemoteFile {
    open spec fn known(tag: Seq<char>) -> bool {
        tag == "remoteFile"@
    }

    fn knows(tag: &str) -> (r: bool) {
        same_text(tag, "remoteFile")
    }

    proof fn tag_known(&self) {
        reveal(<RemoteFile as Wire>::wire);
        assert(tag_of(self.wire()) == Some("remoteFile"@));
        assert(Self::known("remoteFile"@));
    }
}

/// Represents a file
#[derive(Debug, Clone, PartialEq)]
pub struct File {
    /// Unique file identifier
    pub id: i32,
    /// File size; 0 if unknown
    pub size: i32,
    /// Expected file size in case the exact file size is unknown, but an approximate size is known.
    /// Can be used to show download/upload progress
    pub expected_size: i32,
    /// Information about the local copy of the file
    pub local: LocalFile,
    /// Information about the remote copy of the file
    pub remote: RemoteFile,
}

impl Wire for File {
    #[verifier::opaque]
    open spec fn wire(&self) -> Doc {
        tagged(
            Map::empty()
                .insert("id"@, self.id.wire())
                .insert("size"@, self.size.wire())
                .insert("expectedSize"@, self.expected_size.wire())
                .insert("local"@, self.local.wire())
                .insert("remote"@, self.remote.wire()),
            "file"@,
        )
    }

    #[verifier::opaque]
    open spec fn parse(d: Doc, at: Seq<char>) -> Result<Doc, Fault> {
        match d {
            Doc::Object(m) => {
                let id = field::<i32>(m, "id"@);
                let size = field::<i32>(m, "size"@);
                let expected_size = field::<i32>(m, "expectedSize"@);
                let local = field::<LocalFile>(m, "local"@);
                let remote = field::<RemoteFile>(m, "remote"@);
                if id is Err {
                    id
                } else if size is Err {
                    size
                } else if expected_size is Err {
                    expected_size
                } else if local is Err {
                    local
                } else if remote is Err {
                    remote
                } else {
                    Ok(
                        tagged(
                            Map::empty()
                                .insert("id"@, id->Ok_0)
                                .insert("size"@, size->Ok_0)
                                .insert("expectedSize"@, expected_size->Ok_0)
                                .insert("local"@, local->Ok_0)
                                .insert("remote"@, remote->Ok_0),
                            "file"@,
                        ),
                    )
                }
            },
            _ => Err(Fault::TypeMismatch(at)),
        }
    }

    fn encode(&self) -> (j: Json) {
        proof {
            reveal(<File as Wire>::wire);
        }
        let mut members: Vec<Member> = Vec::new();
        put(&mut members, "id", self.id.encode());
        put(&mut members, "size", self.size.encode());
        put(&mut members, "expectedSize", self.expected_size.encode());
        put(&mut members, "local", self.local.encode());
        put(&mut members, "remote", self.remote.encode());
        seal(members, "file")
    }

    fn decode(j: &Json, at: &str) -> (r: Result<Self, DecodeError>) {
        proof {
            reveal(<File as Wire>::wire);
            reveal(<File as Wire>::parse);
        }
        let members = members_of(j, at)?;
        let id = read_field::<i32>(members, "id")?;
        let size = read_field::<i32>(members, "size")?;
        let expected_size = read_field::<i32>(members, "expectedSize")?;
        let local = read_field::<LocalFile>(members, "local")?;
        let remote = read_field::<RemoteFile>(members, "remote")?;
        Ok(File { id, size, expected_size, local, remote })
    }

    proof fn round_trip(&self, at: Seq<char>) {
        reveal(<File as Wire>::wire);
        reveal(<File as Wire>::parse);
        reveal_strlit("@type");
        reveal_strlit("expectedSize");
        reveal_strlit("id");
        reveal_strlit("local");
        reveal_strlit("remote");
        reveal_strlit("size");
        assert("@type"@.len() == 5 && "@type"@[0] == '@');
        assert("expectedSize"@.len() == 12);
        assert("id"@.len() == 2);
        assert("local"@.len() == 5 && "local"@[0] == 'l');
        assert("remote"@.len() == 6);
        assert("size"@.len() == 4);
        self.id.round_trip("id"@);
        self.size.round_trip("size"@);
        self.expected_size.round_trip("expectedSize"@);
        self.local.round_trip("local"@);
        self.remote.round_trip("remote"@);
    }
}

impl Tagged for File {
    open spec fn known(tag: Seq<char>) -> bool {
        tag == "file"@
    }

    fn knows(tag: &str) -> (r: bool) {
        same_text(tag, "file")
    }

    proof fn tag_known(&self) {
        reveal(<File as Wire>::wire);
        assert(tag_of(self.wire()) == Some("file"@));
        assert(Self::known("file"@));
    }
}

/// A file defined by its unique ID
#[derive(Debug, Clone, PartialEq)]
pub struct InputFileId {
    /// Unique file identifier
    pub id: i32,
}

impl Wire for InputFileId {
    #[verifier::opaque]
    open spec fn wire(&self) -> Doc {
        tagged(
            Map::empty()
                .insert("id"@, self.id.wire()),
            "inputFileId"@,
        )
    }

    #[verifier::opaque]
    open spec fn parse(d: Doc, at: Seq<char>) -> Result<Doc, Fault> {
        match d {
            Doc::Object(m) => {
                let id = field::<i32>(m, "id"@);
                if id is Err {
                    id
                } else {
                    Ok(
                        tagged(
                            Map::empty()
                                .insert("id"@, id->Ok_0),
                            "inputFileId"@,
                        ),
                    )
                }
            },
            _ => Err(Fault::TypeMismatch(at)),
        }
    }

    fn encode(&self) -> (j: Json) {
        proof {
            reveal(<InputFileId as Wire>::wire);
        }
        let mut members: Vec<Member> = Vec::new();
        put(&mut members, "id", self.id.encode());
        seal(members, "inputFileId")
    }

    fn decode(j: &Json, at: &str) -> (r: Result<Self, DecodeError>) {
        proof {
            reveal(<InputFileId as Wire>::wire);
            reveal(<InputFileId as Wire>::parse);
        }
        let members = members_of(j, at)?;
        let id = read_field::<i32>(members, "id")?;
        Ok(InputFileId { id })
    }

    proof fn round_trip(&self, at: Seq<char>) {
        reveal(<InputFileId as Wire>::wire);
        reveal(<InputFileId as Wire>::parse);
        reveal_strlit("@type");
        reveal_strlit("id");
        assert("@type"@.len() == 5);
        assert("id"@.len() == 2);
        self.id.round_trip("id"@);
    }
}

impl Tagged for InputFileId {
    open spec fn known(tag: Seq<char>) -> bool {
        tag == "inputFileId"@
    }

    fn knows(tag: &str) -> (r: bool) {
        same_text(tag, "inputFileId")
    }

    proof fn tag_known(&self) {
        reveal(<InputFileId as Wire>::wire);
        assert(tag_of(self.wire()) == Some("inputFileId"@));
        assert(Self::known("inputFileId"@));
    }
}

/// A file defined by its remote ID. The remote ID is guaranteed to be usable only if the
/// corresponding file is still accessible to the user and known to TDLib. For example, if the file
/// is from a message, then the message must be not deleted and accessible to the user. If the file
/// database is disabled, then the corresponding object with the file must be preloaded by the
/// client
#[derive(Debug, Clone, PartialEq)]
pub struct InputFileRemote {
    /// Remote file identifier
    pub id: String,
}

impl Wire for InputFileRemote {
    #[verifier::opaque]
    open spec fn wire(&self) -> Doc {
        tagged(
            Map::empty()
                .insert("id"@, self.id.wire()),
            "inputFileRemote"@,
        )
    }

    #[verifier::opaque]
    open spec fn parse(d: Doc, at: Seq<char>) -> Result<Doc, Fault> {
        match d {
            Doc::Object(m) => {
                let id = field::<String>(m, "id"@);
                if id is Err {
                    id
                } else {
                    Ok(
                        tagged(
                            Map::empty()
                                .insert("id"@, id->Ok_0),
                            "inputFileRemote"@,
                        ),
                    )
                }
            },
            _ => Err(Fault::TypeMismatch(at)),
        }
    }

    fn encode(&self) -> (j: Json) {
        proof {
            reveal(<InputFileRemote as Wire>::wire);
        }
        let mut members: Vec<Member> = Vec::new();
        put(&mut members, "id", self.id.encode());
        seal(members, "inputFileRemote")
    }

    fn decode(j: &Json, at: &str) -> (r: Result<Self, DecodeError>) {
        proof {
            reveal(<InputFileRemote as Wire>::wire);
            reveal(<InputFileRemote as Wire>::parse);
        }
        let members = members_of(j, at)?;
        let id = read_field::<String>(members, "id")?;
        Ok(InputFileRemote { id })
    }

    proof fn round_trip(&self, at: Seq<char>) {
        reveal(<InputFileRemote as Wire>::wire);
        reveal(<InputFileRemote as Wire>::parse);
        reveal_strlit("@type");
        reveal_strlit("id");
        assert("@type"@.len() == 5);
        assert("id"@.len() == 2);
        self.id.round_trip("id"@);
    }
}

impl Tagged for InputFileRemote {
    open spec fn known(tag: Seq<char>) -> bool {
        tag == "inputFileRemote"@
    }

    fn knows(tag: &str) -> (r: bool) {
        same_text(tag, "inputFileRemote")
    }

    proof fn tag_known(&self) {
        reveal(<InputFileRemote as Wire>::wire);
        assert(tag_of(self.wire()) == Some("inputFileRemote"@));
        assert(Self::known("inputFileRemote"@));
    }
}

/// A file defined by a local path
#[derive(Debug, Clone, PartialEq)]
pub struct InputFileLocal {
    /// Local path to the file
    pub path: String,
}

impl Wire for InputFileLocal {
    #[verifier::opaque]
    open spec fn wire(&self) -> Doc {
        tagged(
            Map::empty()
                .insert("path"@, self.path.wire()),
            "inputFileLocal"@,
        )
    }

    #[verifier::opaque]
    open spec fn parse(d: Doc, at: Seq<char>) -> Result<Doc, Fault> {
        match d {
            Doc::Object(m) => {
                let path = field::<String>(m, "path"@);
                if path is Err {
                    path
                } else {
                    Ok(
                        tagged(
                            Map::empty()
                                .insert("path"@, path->Ok_0),
                            "inputFileLocal"@,
                        ),
                    )
                }
            },
            _ => Err(Fault::TypeMismatch(at)),
        }
    }

    fn encode(&self) -> (j: Json) {
        proof {
            reveal(<InputFileLocal as Wire>::wire);
        }
        let mut members: Vec<Member> = Vec::new();
        put(&mut members, "path", self.path.encode());
        seal(members, "inputFileLocal")
    }

    fn decode(j: &Json, at: &str) -> (r: Result<Self, DecodeError>) {
        proof {
            reveal(<InputFileLocal as Wire>::wire);
            reveal(<InputFileLocal as Wire>::parse);
        }
        let members = members_of(j, at)?;
        let path = read_field::<String>(members, "path")?;
        Ok(InputFileLocal { path })
    }

    proof fn round_trip(&self, at: Seq<char>) {
        reveal(<InputFileLocal as Wire>::wire);
        reveal(<InputFileLocal as Wire>::parse);
        reveal_strlit("@type");
        reveal_strlit("path");
        assert("@type"@.len() == 5);
        assert("path"@.len() == 4);
        self.path.round_trip("path"@);
    }
}

impl Tagged for InputFileLocal {
    open spec fn known(tag: Seq<char>) -> bool {
        tag == "inputFileLocal"@
    }

    fn knows(tag: &str) -> (r: bool) {
        same_text(tag, "inputFileLocal")
    }

    proof fn tag_known(&self) {
        reveal(<InputFileLocal as Wire>::wire);
        assert(tag_of(self.wire()) == Some("inputFileLocal"@));
        assert(Self::known("inputFileLocal"@));
    }
}

/// A file generated by the client
#[derive(Debug, Clone, PartialEq)]
pub struct InputFileGenerated {
    /// Local path to a file from which the file is generated; may be empty if there is no such file
    pub original_path: String,
    /// String specifying the conversion applied to the original file; should be persistent across
    /// application restarts. Conversions beginning with '#' are reserved for internal TDLib usage
    pub conversion: String,
    /// Expected size of the generated file; 0 if unknown
    pub expected_size: i32,
}

impl Wire for InputFileGenerated {
    #[verifier::opaque]
    open spec fn wire(&self) -> Doc {
        tagged(
            Map::empty()
                .insert("originalPath"@, self.original_path.wire())
                .insert("conversion"@, self.conversion.wire())
                .insert("expectedSize"@, self.expected_size.wire()),
            "inputFileGenerated"@,
        )
    }

    #[verifier::opaque]
    open spec fn parse(d: Doc, at: Seq<char>) -> Result<Doc, Fault> {
        match d {
            Doc::Object(m) => {
                let original_path = field::<String>(m, "originalPath"@);
                let conversion = field::<String>(m, "conversion"@);
                let expected_size = field::<i32>(m, "expectedSize"@);
                if original_path is Err {
                    original_path
                } else if conversion is Err {
                    conversion
                } else if expected_size is Err {
                    expected_size
                } else {
                    Ok(
                        tagged(
                            Map::empty()
                                .insert("originalPath"@, original_path->Ok_0)
                                .insert("conversion"@, conversion->Ok_0)
                                .insert("expectedSize"@, expected_size->Ok_0),
                            "inputFileGenerated"@,
                        ),
                    )
                }
            },
            _ => Err(Fault::TypeMismatch(at)),
        }
    }

    fn encode(&self) -> (j: Json) {
        proof {
            reveal(<InputFileGenerated as Wire>::wire);
        }
        let mut members: Vec<Member> = Vec::new();
        put(&mut members, "originalPath", self.original_path.encode());
        put(&mut members, "conversion", self.conversion.encode());
        put(&mut members, "expectedSize", self.expected_size.encode());
        seal(members, "inputFileGenerated")
    }

    fn decode(j: &Json, at: &str) -> (r: Result<Self, DecodeError>) {
        proof {
            reveal(<InputFileGenerated as Wire>::wire);
            reveal(<InputFileGenerated as Wire>::parse);
        }
        let members = members_of(j, at)?;
        let original_path = read_field::<String>(members, "originalPath")?;
        let conversion = read_field::<String>(members, "conversion")?;
        let expected_size = read_field::<i32>(members, "expectedSize")?;
        Ok(InputFileGenerated { original_path, conversion, expected_size })
    }

    proof fn round_trip(&self, at: Seq<char>) {
        reveal(<InputFileGenerated as Wire>::wire);
        reveal(<InputFileGenerated as Wire>::parse);
        reveal_strlit("@type");
        reveal_strlit("conversion");
        reveal_strlit("expectedSize");
        reveal_strlit("originalPath");
        assert("@type"@.len() == 5);
        assert("conversion"@.len() == 10);
        assert("expectedSize"@.len() == 12 && "expectedSize"@[0] == 'e');
        assert("originalPath"@.len() == 12 && "originalPath"@[0] == 'o');
        self.original_path.round_trip("originalPath"@);
        self.conversion.round_trip("conversion"@);
        self.expected_size.round_trip("expectedSize"@);
    }
}

impl Tagged for InputFileGenerated {
    open spec fn known(tag: Seq<char>) -> bool {
        tag == "inputFileGenerated"@
    }

    fn knows(tag: &str) -> (r: bool) {
        same_text(tag, "inputFileGenerated")
    }

    proof fn tag_known(&self) {
        reveal(<InputFileGenerated as Wire>::wire);
        assert(tag_of(self.wire()) == Some("inputFileGenerated"@));
        assert(Self::known("inputFileGenerated"@));
    }
}

/// Points to a file
#[derive(Debug, Clone, PartialEq)]
pub enum InputFile {
    InputFileId(InputFileId),
    InputFileRemote(InputFileRemote),
    InputFileLocal(InputFileLocal),
    InputFileGenerated(InputFileGenerated),
}

impl Wire for InputFile {
    #[verifier::opaque]
    open spec fn wire(&self) -> Doc {
        match self {
            Self::InputFileId(p) => p.wire(),
            Self::InputFileRemote(p) => p.wire(),
            Self::InputFileLocal(p) => p.wire(),
            Self::InputFileGenerated(p) => p.wire(),
        }
    }

    #[verifier::opaque]
    open spec fn parse(d: Doc, at: Seq<char>) -> Result<Doc, Fault> {
        match d {
            Doc::Object(_) => match tag_of(d) {
                Some(t) => if t == "inputFileId"@ {
                    InputFileId::parse(d, at)
                } else if t == "inputFileRemote"@ {
                    InputFileRemote::parse(d, at)
                } else if t == "inputFileLocal"@ {
                    InputFileLocal::parse(d, at)
                } else if t == "inputFileGenerated"@ {
                    InputFileGenerated::parse(d, at)
                } else {
                    Err(Fault::UnknownVariant(t))
                },
                None => Err(Fault::MissingDiscriminator),
            },
            _ => Err(Fault::TypeMismatch(at)),
        }
    }

    fn encode(&self) -> (j: Json) {
        proof {
            reveal(<InputFile as Wire>::wire);
        }
        match self {
            Self::InputFileId(p) => p.encode(),
            Self::InputFileRemote(p) => p.encode(),
            Self::InputFileLocal(p) => p.encode(),
            Self::InputFileGenerated(p) => p.encode(),
        }
    }

    fn decode(j: &Json, at: &str) -> (r: Result<Self, DecodeError>) {
        proof {
            reveal(<InputFile as Wire>::wire);
            reveal(<InputFile as Wire>::parse);
        }
        let members = members_of(j, at)?;
        let tag = discriminator(members)?;
        if same_text(tag, "inputFileId") {
            Ok(Self::InputFileId(InputFileId::decode(j, at)?))
        } else if same_text(tag, "inputFileRemote") {
            Ok(Self::InputFileRemote(InputFileRemote::decode(j, at)?))
        } else if same_text(tag, "inputFileLocal") {
            Ok(Self::InputFileLocal(InputFileLocal::decode(j, at)?))
        } else if same_text(tag, "inputFileGenerated") {
            Ok(Self::InputFileGenerated(InputFileGenerated::decode(j, at)?))
        } else {
            Err(DecodeError::UnknownVariant(tag.to_owned()))
        }
    }

    proof fn round_trip(&self, at: Seq<char>) {
        reveal(<InputFile as Wire>::wire);
        reveal(<InputFile as Wire>::parse);
        reveal_strlit("inputFileGenerated");
        reveal_strlit("inputFileId");
        reveal_strlit("inputFileLocal");
        reveal_strlit("inputFileRemote");
        assert("inputFileGenerated"@.len() == 18);
        assert("inputFileId"@.len() == 11);
        assert("inputFileLocal"@.len() == 14);
        assert("inputFileRemote"@.len() == 15);
        match self {
            Self::InputFileId(p) => {
                p.tag_known();
                p.round_trip(at);
            },
            Self::InputFileRemote(p) => {
                p.tag_known();
                p.round_trip(at);
            },
            Self::InputFileLocal(p) => {
                p.tag_known();
                p.round_trip(at);
            },
            Self::InputFileGenerated(p) => {
                p.tag_known();
                p.round_trip(at);
            },
        }
    }
}

impl Tagged for InputFile {
    open spec fn known(tag: Seq<char>) -> bool {
        ||| tag == "inputFileId"@
        ||| tag == "inputFileRemote"@
        ||| tag == "inputFileLocal"@
        ||| tag == "inputFileGenerated"@
    }

    fn knows(tag: &str) -> (r: bool) {
        same_text(tag, "inputFileId")
            || same_text(tag, "inputFileRemote")
            || same_text(tag, "inputFileLocal")
            || same_text(tag, "inputFileGenerated")
    }

    proof fn tag_known(&self) {
        reveal(<InputFile as Wire>::wire);
        match self {
            Self::InputFileId(p) => p.tag_known(),
            Self::InputFileRemote(p) => p.tag_known(),
            Self::InputFileLocal(p) => p.tag_known(),
            Self::InputFileGenerated(p) => p.tag_known(),
        }
    }
}

impl Union for InputFile {
    proof fn unknown_rejected(d: Doc, at: Seq<char>) {
        reveal(<InputFile as Wire>::parse);
    }

    proof fn untagged_rejected(d: Doc, at: Seq<char>) {
        reveal(<InputFile as Wire>::parse);
    }
}

/// Photo description
#[derive(Debug, Clone, PartialEq)]
pub struct PhotoSize {
    /// Thumbnail type (see https://core.telegram.org/constructor/photoSize)
    pub type_: String,
    /// Information about the photo file
    pub photo: File,
    /// Photo width
    pub width: i32,
    /// Photo height
    pub height: i32,
}

impl Wire for PhotoSize {
    #[verifier::opaque]
    open spec fn wire(&self) -> Doc {
        tagged(
            Map::empty()
                .insert("type"@, self.type_.wire())
                .insert("photo"@, self.photo.wire())
                .insert("width"@, self.width.wire())
                .insert("height"@, self.height.wire()),
            "photoSize"@,
        )
    }

    #[verifier::opaque]
    open spec fn parse(d: Doc, at: Seq<char>) -> Result<Doc, Fault> {
        match d {
            Doc::Object(m) => {
                let type_ = field::<String>(m, "type"@);
                let photo = field::<File>(m, "photo"@);
                let width = field::<i32>(m, "width"@);
                let height = field::<i32>(m, "height"@);
                if type_ is Err {
                    type_
                } else if photo is Err {
                    photo
                } else if width is Err {
                    width
                } else if height is Err {
                    height
                } else {
                    Ok(
                        tagged(
                            Map::empty()
                                .insert("type"@, type_->Ok_0)
                                .insert("photo"@, photo->Ok_0)
                                .insert("width"@, width->Ok_0)
                                .insert("height"@, height->Ok_0),
                            "photoSize"@,
                        ),
                    )
                }
            },
            _ => Err(Fault::TypeMismatch(at)),
        }
    }

    fn encode(&self) -> (j: Json) {
        proof {
            reveal(<PhotoSize as Wire>::wire);
        }
        let mut members: Vec<Member> = Vec::new();
        put(&mut members, "type", self.type_.encode());
        put(&mut members, "photo", self.photo.encode());
        put(&mut members, "width", self.width.encode());
        put(&mut members, "height", self.height.encode());
        seal(members, "photoSize")
    }

    fn decode(j: &Json, at: &str) -> (r: Result<Self, DecodeError>) {
        proof {
            reveal(<PhotoSize as Wire>::wire);
            reveal(<PhotoSize as Wire>::parse);
        }
        let members = members_of(j, at)?;
        let type_ = read_field::<String>(members, "type")?;
        let photo = read_field::<File>(members, "photo")?;
        let width = read_field::<i32>(members, "width")?;
        let height = read_field::<i32>(members, "height")?;
        Ok(PhotoSize { type_, photo, width, height })
    }

    proof fn round_trip(&self, at: Seq<char>) {
        reveal(<PhotoSize as Wire>::wire);
        reveal(<PhotoSize as Wire>::parse);
        reveal_strlit("@type");
        reveal_strlit("height");
        reveal_strlit("photo");
        reveal_strlit("type");
        reveal_strlit("width");
        assert("@type"@.len() == 5 && "@type"@[0] == '@');
        assert("height"@.len() == 6);
        assert("photo"@.len() == 5 && "photo"@[0] == 'p');
        assert("type"@.len() == 4);
        assert("width"@.len() == 5 && "width"@[0] == 'w');
        self.type_.round_trip("type"@);
        self.photo.round_trip("photo"@);
        self.width.round_trip("width"@);
        self.height.round_trip("height"@);
    }
}

impl Tagged for PhotoSize {
    open spec fn known(tag: Seq<char>) -> bool {
        tag == "photoSize"@
    }

    fn knows(tag: &str) -> (r: bool) {
        same_text(tag, "photoSize")
    }

    proof fn tag_known(&self) {
        reveal(<PhotoSize as Wire>::wire);
        assert(tag_of(self.wire()) == Some("photoSize"@));
        assert(Self::known("photoSize"@));
    }
}

/// Thumbnail image of a very poor quality and low resolution
#[derive(Debug, Clone, PartialEq)]
pub struct Minithumbnail {
    /// Thumbnail width, usually doesn't exceed 40
    pub width: i32,
    /// Thumbnail height, usually doesn't exceed 40
    pub height: i32,
    /// The thumbnail in JPEG format
    pub data: String,
}

impl Wire for Minithumbnail {
    #[verifier::opaque]
    open spec fn wire(&self) -> Doc {
        tagged(
            Map::empty()
                .insert("width"@, self.width.wire())
                .insert("height"@, self.height.wire())
                .insert("data"@, self.data.wire()),
            "minithumbnail"@,
        )
    }

    #[verifier::opaque]
    open spec fn parse(d: Doc, at: Seq<char>) -> Result<Doc, Fault> {
        match d {
            Doc::Object(m) => {
                let width = field::<i32>(m, "width"@);
                let height = field::<i32>(m, "height"@);
                let data = field::<String>(m, "data"@);
                if width is Err {
                    width
                } else if height is Err {
                    height
                } else if data is Err {
                    data
                } else {
                    Ok(
                        tagged(
                            Map::empty()
                                .insert("width"@, width->Ok_0)
                                .insert("height"@, height->Ok_0)
                                .insert("data"@, data->Ok_0),
                            "minithumbnail"@,
                        ),
                    )
                }
            },
            _ => Err(Fault::TypeMismatch(at)),
        }
    }

    fn encode(&self) -> (j: Json) {
        proof {
            reveal(<Minithumbnail as Wire>::wire);
        }
        let mut members: Vec<Member> = Vec::new();
        put(&mut members, "width", self.width.encode());
        put(&mut members, "height", self.height.encode());
        put(&mut members, "data", self.data.encode());
        seal(members, "minithumbnail")
    }

    fn decode(j: &Json, at: &str) -> (r: Result<Self, DecodeError>) {
        proof {
            reveal(<Minithumbnail as Wire>::wire);
            reveal(<Minithumbnail as Wire>::parse);
        }
        let members = members_of(j, at)?;
        let width = read_field::<i32>(members, "width")?;
        let height = read_field::<i32>(members, "height")?;
        let data = read_field::<String>(members, "data")?;
        Ok(Minithumbnail { width, height, data })
    }

    proof fn round_trip(&self, at: Seq<char>) {
        reveal(<Minithumbnail as Wire>::wire);
        reveal(<Minithumbnail as Wire>::parse);
        reveal_strlit("@type");
        reveal_strlit("data");
        reveal_strlit("height");
        reveal_strlit("width");
        assert("@type"@.len() == 5 && "@type"@[0] == '@');
        assert("data"@.len() == 4);
        assert("height"@.len() == 6);
        assert("width"@.len() == 5 && "width"@[0] == 'w');
        self.width.round_trip("width"@);
        self.height.round_trip("height"@);
        self.data.round_trip("data"@);
    }
}

impl Tagged for Minithumbnail {
    open spec fn known(tag: Seq<char>) -> bool {
        tag == "minithumbnail"@
    }

    fn knows(tag: &str) -> (r: bool) {
        same_text(tag, "minithumbnail")
    }

    proof fn tag_known(&self) {
        reveal(<Minithumbnail as Wire>::wire);
        assert(tag_of(self.wire()) == Some("minithumbnail"@));
        assert(Self::known("minithumbnail"@));
    }
}

/// A mask should be placed relatively to the forehead
#[derive(Debug, Clone, PartialEq)]
pub struct MaskPointForehead {}

impl Wire for MaskPointForehead {
    #[verifier::opaque]
    open spec fn wire(&self) -> Doc {
        tagged(Map::empty(), "maskPointForehead"@)
    }

    #[verifier::opaque]
    open spec fn parse(d: Doc, at: Seq<char>) -> Result<Doc, Fault> {
        match d {
            Doc::Object(_) => Ok(tagged(Map::empty(), "maskPointForehead"@)),
            _ => Err(Fault::TypeMismatch(at)),
        }
    }

    fn encode(&self) -> (j: Json) {
        proof {
            reveal(<MaskPointForehead as Wire>::wire);
        }
        seal(Vec::new(), "maskPointForehead")
    }

    fn decode(j: &Json, at: &str) -> (r: Result<Self, DecodeError>) {
        proof {
            reveal(<MaskPointForehead as Wire>::wire);
            reveal(<MaskPointForehead as Wire>::parse);
        }
        let _ = members_of(j, at)?;
        Ok(MaskPointForehead {})
    }

    proof fn round_trip(&self, at: Seq<char>) {
        reveal(<MaskPointForehead as Wire>::wire);
        reveal(<MaskPointForehead as Wire>::parse);
    }
}

impl Tagged for MaskPointForehead {
    open spec fn known(tag: Seq<char>) -> bool {
        tag == "maskPointForehead"@
    }

    fn knows(tag: &str) -> (r: bool) {
        same_text(tag, "maskPointForehead")
    }

    proof fn tag_known(&self) {
        reveal(<MaskPointForehead as Wire>::wire);
        assert(tag_of(self.wire()) == Some("maskPointForehead"@));
        assert(Self::known("maskPointForehead"@));
    }
}

/// A mask should be placed relatively to the eyes
#[derive(Debug, Clone, PartialEq)]
pub struct MaskPointEyes {}

impl Wire for MaskPointEyes {
    #[verifier::opaque]
    open spec fn wire(&self) -> Doc {
        tagged(Map::empty(), "maskPointEyes"@)
    }

    #[verifier::opaque]
    open spec fn parse(d: Doc, at: Seq<char>) -> Result<Doc, Fault> {
        match d {
            Doc::Object(_) => Ok(tagged(Map::empty(), "maskPointEyes"@)),
            _ => Err(Fault::TypeMismatch(at)),
        }
    }

    fn encode(&self) -> (j: Json) {
        proof {
            reveal(<MaskPointEyes as Wire>::wire);
        }
        seal(Vec::new(), "maskPointEyes")
    }

    fn decode(j: &Json, at: &str) -> (r: Result<Self, DecodeError>) {
        proof {
            reveal(<MaskPointEyes as Wire>::wire);
            reveal(<MaskPointEyes as Wire>::parse);
        }
        let _ = members_of(j, at)?;
        Ok(MaskPointEyes {})
    }

    proof fn round_trip(&self, at: Seq<char>) {
        reveal(<MaskPointEyes as Wire>::wire);
        reveal(<MaskPointEyes as Wire>::parse);
    }
}

impl Tagged for MaskPointEyes {
    open spec fn known(tag: Seq<char>) -> bool {
        tag == "maskPointEyes"@
    }

    fn knows(tag: &str) -> (r: bool) {
        same_text(tag, "maskPointEyes")
    }

    proof fn tag_known(&self) {
        reveal(<MaskPointEyes as Wire>::wire);
        assert(tag_of(self.wire()) == Some("maskPointEyes"@));
        assert(Self::known("maskPointEyes"@));
    }
}

/// A mask should be placed relatively to the mouth
#[derive(Debug, Clone, PartialEq)]
pub struct MaskPointMouth {}

impl Wire for MaskPointMouth {
    #[verifier::opaque]
    open spec fn wire(&self) -> Doc {
        tagged(Map::empty(), "maskPointMouth"@)
    }

    #[verifier::opaque]
    open spec fn parse(d: Doc, at: Seq<char>) -> Result<Doc, Fault> {
        match d {
            Doc::Object(_) => Ok(tagged(Map::empty(), "maskPointMouth"@)),
            _ => Err(Fault::TypeMismatch(at)),
        }
    }

    fn encode(&self) -> (j: Json) {
        proof {
            reveal(<MaskPointMouth as Wire>::wire);
        }
        seal(Vec::new(), "maskPointMouth")
    }

    fn decode(j: &Json, at: &str) -> (r: Result<Self, DecodeError>) {
        proof {
            reveal(<MaskPointMouth as Wire>::wire);
            reveal(<MaskPointMouth as Wire>::parse);
        }
        let _ = members_of(j, at)?;
        Ok(MaskPointMouth {})
    }

    proof fn round_trip(&self, at: Seq<char>) {
        reveal(<MaskPointMouth as Wire>::wire);
        reveal(<MaskPointMouth as Wire>::parse);
    }
}

impl Tagged for MaskPointMouth {
    open spec fn known(tag: Seq<char>) -> bool {
        tag == "maskPointMouth"@
    }

    fn knows(tag: &str) -> (r: bool) {
        same_text(tag, "maskPointMouth")
    }

    proof fn tag_known(&self) {
        reveal(<MaskPointMouth as Wire>::wire);
        assert(tag_of(self.wire()) == Some("maskPointMouth"@));
        assert(Self::known("maskPointMouth"@));
    }
}

/// A mask should be placed relatively to the chin
#[derive(Debug, Clone, PartialEq)]
pub struct MaskPointChin {}

impl Wire for MaskPointChin {
    #[verifier::opaque]
    open spec fn wire(&self) -> Doc {
        tagged(Map::empty(), "maskPointChin"@)
    }

    #[verifier::opaque]
    open spec fn parse(d: Doc, at: Seq<char>) -> Result<Doc, Fault> {
        match d {
            Doc::Object(_) => Ok(tagged(Map::empty(), "maskPointChin"@)),
            _ => Err(Fault::TypeMismatch(at)),
        }
    }

    fn encode(&self) -> (j: Json) {
        proof {
            reveal(<MaskPointChin as Wire>::wire);
        }
        seal(Vec::new(), "maskPointChin")
    }

    fn decode(j: &Json, at: &str) -> (r: Result<Self, DecodeError>) {
        proof {
            reveal(<MaskPointChin as Wire>::wire);
            reveal(<MaskPointChin as Wire>::parse);
        }
        let _ = members_of(j, at)?;
        Ok(MaskPointChin {})
    }

    proof fn round_trip(&self, at: Seq<char>) {
        reveal(<MaskPointChin as Wire>::wire);
        reveal(<MaskPointChin as Wire>::parse);
    }
}

impl Tagged for MaskPointChin {
    open spec fn known(tag: Seq<char>) -> bool {
        tag == "maskPointChin"@
    }

    fn knows(tag: &str) -> (r: bool) {
        same_text(tag, "maskPointChin")
    }

    proof fn tag_known(&self) {
        reveal(<MaskPointChin as Wire>::wire);
        assert(tag_of(self.wire()) == Some("maskPointChin"@));
        assert(Self::known("maskPointChin"@));
    }
}

/// Part of the face, relative to which a mask should be placed
#[derive(Debug, Clone, PartialEq)]
pub enum MaskPoint {
    MaskPointForehead(MaskPointForehead),
    MaskPointEyes(MaskPointEyes),
    MaskPointMouth(MaskPointMouth),
    MaskPointChin(MaskPointChin),
}

impl Wire for MaskPoint {
    #[verifier::opaque]
    open spec fn wire(&self) -> Doc {
        match self {
            Self::MaskPointForehead(p) => p.wire(),
            Self::MaskPointEyes(p) => p.wire(),
            Self::MaskPointMouth(p) => p.wire(),
            Self::MaskPointChin(p) => p.wire(),
        }
    }

    #[verifier::opaque]
    open spec fn parse(d: Doc, at: Seq<char>) -> Result<Doc, Fault> {
        match d {
            Doc::Object(_) => match tag_of(d) {
                Some(t) => if t == "maskPointForehead"@ {
                    MaskPointForehead::parse(d, at)
                } else if t == "maskPointEyes"@ {
                    MaskPointEyes::parse(d, at)
                } else if t == "maskPointMouth"@ {
                    MaskPointMouth::parse(d, at)
                } else if t == "maskPointChin"@ {
                    MaskPointChin::parse(d, at)
                } else {
                    Err(Fault::UnknownVariant(t))
                },
                None => Err(Fault::MissingDiscriminator),
            },
            _ => Err(Fault::TypeMismatch(at)),
        }
    }

    fn encode(&self) -> (j: Json) {
        proof {
            reveal(<MaskPoint as Wire>::wire);
        }
        match self {
            Self::MaskPointForehead(p) => p.encode(),
            Self::MaskPointEyes(p) => p.encode(),
            Self::MaskPointMouth(p) => p.encode(),
            Self::MaskPointChin(p) => p.encode(),
        }
    }

    fn decode(j: &Json, at: &str) -> (r: Result<Self, DecodeError>) {
        proof {
            reveal(<MaskPoint as Wire>::wire);
            reveal(<MaskPoint as Wire>::parse);
        }
        let members = members_of(j, at)?;
        let tag = discriminator(members)?;
        if same_text(tag, "maskPointForehead") {
            Ok(Self::MaskPointForehead(MaskPointForehead::decode(j, at)?))
        } else if same_text(tag, "maskPointEyes") {
            Ok(Self::MaskPointEyes(MaskPointEyes::decode(j, at)?))
        } else if same_text(tag, "maskPointMouth") {
            Ok(Self::MaskPointMouth(MaskPointMouth::decode(j, at)?))
        } else if same_text(tag, "maskPointChin") {
            Ok(Self::MaskPointChin(MaskPointChin::decode(j, at)?))
        } else {
            Err(DecodeError::UnknownVariant(tag.to_owned()))
        }
    }

    proof fn round_trip(&self, at: Seq<char>) {
        reveal(<MaskPoint as Wire>::wire);
        reveal(<MaskPoint as Wire>::parse);
        reveal_strlit("maskPointChin");
        reveal_strlit("maskPointEyes");
        reveal_strlit("maskPointForehead");
        reveal_strlit("maskPointMouth");
        assert("maskPointChin"@.len() == 13 && "maskPointChin"@[9] == 'C');
        assert("maskPointEyes"@.len() == 13 && "maskPointEyes"@[9] == 'E');
        assert("maskPointForehead"@.len() == 17);
        assert("maskPointMouth"@.len() == 14);
        match self {
            Self::MaskPointForehead(p) => {
                p.tag_known();
                p.round_trip(at);
            },
            Self::MaskPointEyes(p) => {
                p.tag_known();
                p.round_trip(at);
            },
            Self::MaskPointMouth(p) => {
                p.tag_known();
                p.round_trip(at);
            },
            Self::MaskPointChin(p) => {
                p.tag_known();
                p.round_trip(at);
            },
        }
    }
}

impl Tagged for MaskPoint {
    open spec fn known(tag: Seq<char>) -> bool {
        ||| tag == "maskPointForehead"@
        ||| tag == "maskPointEyes"@
        ||| tag == "maskPointMouth"@
        ||| tag == "maskPointChin"@
    }

    fn knows(tag: &str) -> (r: bool) {
        same_text(tag, "maskPointForehead")
            || same_text(tag, "maskPointEyes")
            || same_text(tag, "maskPointMouth")
            || same_text(tag, "maskPointChin")
    }

    proof fn tag_known(&self) {
        reveal(<MaskPoint as Wire>::wire);
        match self {
            Self::MaskPointForehead(p) => p.tag_known(),
            Self::MaskPointEyes(p) => p.tag_known(),
            Self::MaskPointMouth(p) => p.tag_known(),
            Self::MaskPointChin(p) => p.tag_known(),
        }
    }
}

impl Union for MaskPoint {
    proof fn unknown_rejected(d: Doc, at: Seq<char>) {
        reveal(<MaskPoint as Wire>::parse);
    }

    proof fn untagged_rejected(d: Doc, at: Seq<char>) {
        reveal(<MaskPoint as Wire>::parse);
    }
}

/// Position on a photo where a mask should be placed
#[derive(Debug, Clone, PartialEq)]
pub struct MaskPosition {
    /// Part of the face, relative to which the mask should be placed
    pub point: MaskPoint,
    /// Shift by X-axis measured in widths of the mask scaled to the face size, from left to right.
    /// (For example, -1.0 will place the mask just to the left of the default mask position)
    pub x_shift: Number,
    /// Shift by Y-axis measured in heights of the mask scaled to the face size, from top to bottom.
    /// (For example, 1.0 will place the mask just below the default mask position)
    pub y_shift: Number,
    /// Mask scaling coefficient. (For example, 2.0 means a doubled size)
    pub scale: Number,
}

impl Wire for MaskPosition {
    #[verifier::opaque]
    open spec fn wire(&self) -> Doc {
        tagged(
            Map::empty()
                .insert("point"@, self.point.wire())
                .insert("xShift"@, self.x_shift.wire())
                .insert("yShift"@, self.y_shift.wire())
                .insert("scale"@, self.scale.wire()),
            "maskPosition"@,
        )
    }

    #[verifier::opaque]
    open spec fn parse(d: Doc, at: Seq<char>) -> Result<Doc, Fault> {
        match d {
            Doc::Object(m) => {
                let point = field::<MaskPoint>(m, "point"@);
                let x_shift = field::<Number>(m, "xShift"@);
                let y_shift = field::<Number>(m, "yShift"@);
                let scale = field::<Number>(m, "scale"@);
                if point is Err {
                    point
                } else if x_shift is Err {
                    x_shift
                } else if y_shift is Err {
                    y_shift
                } else if scale is Err {
                    scale
                } else {
                    Ok(
                        tagged(
                            Map::empty()
                                .insert("point"@, point->Ok_0)
                                .insert("xShift"@, x_shift->Ok_0)
                                .insert("yShift"@, y_shift->Ok_0)
                                .insert("scale"@, scale->Ok_0),
                            "maskPosition"@,
                        ),
                    )
                }
            },
            _ => Err(Fault::TypeMismatch(at)),
        }
    }

    fn encode(&self) -> (j: Json) {
        proof {
            reveal(<MaskPosition as Wire>::wire);
        }
        let mut members: Vec<Member> = Vec::new();
        put(&mut members, "point", self.point.encode());
        put(&mut members, "xShift", self.x_shift.encode());
        put(&mut members, "yShift", self.y_shift.encode());
        put(&mut members, "scale", self.scale.encode());
        seal(members, "maskPosition")
    }

    fn decode(j: &Json, at: &str) -> (r: Result<Self, DecodeError>) {
        proof {
            reveal(<MaskPosition as Wire>::wire);
            reveal(<MaskPosition as Wire>::parse);
        }
        let members = members_of(j, at)?;
        let point = read_field::<MaskPoint>(members, "point")?;
        let x_shift = read_field::<Number>(members, "xShift")?;
        let y_shift = read_field::<Number>(members, "yShift")?;
        let scale = read_field::<Number>(members, "scale")?;
        Ok(MaskPosition { point, x_shift, y_shift, scale })
    }

    proof fn round_trip(&self, at: Seq<char>) {
        reveal(<MaskPosition as Wire>::wire);
        reveal(<MaskPosition as Wire>::parse);
        reveal_strlit("@type");
        reveal_strlit("point");
        reveal_strlit("scale");
        reveal_strlit("xShift");
        reveal_strlit("yShift");
        assert("@type"@.len() == 5 && "@type"@[0] == '@');
        assert("point"@.len() == 5 && "point"@[0] == 'p');
        assert("scale"@.len() == 5 && "scale"@[0] == 's');
        assert("xShift"@.len() == 6 && "xShift"@[0] == 'x');
        assert("yShift"@.len() == 6 && "yShift"@[0] == 'y');
        self.point.round_trip("point"@);
        self.x_shift.round_trip("xShift"@);
        self.y_shift.round_trip("yShift"@);
        self.scale.round_trip("scale"@);
    }
}

impl Tagged for MaskPosition {
    open spec fn known(tag: Seq<char>) -> bool {
        tag == "maskPosition"@
    }

    fn knows(tag: &str) -> (r: bool) {
        same_text(tag, "maskPosition")
    }

    proof fn tag_known(&self) {
        reveal(<MaskPosition as Wire>::wire);
        assert(tag_of(self.wire()) == Some("maskPosition"@));
        assert(Self::known("maskPosition"@));
    }
}

/// Describes one answer option of a poll
#[derive(Debug, Clone, PartialEq)]
pub struct PollOption {
    /// Option text, 1-100 characters
    pub text: String,
    /// Number of voters for this option, available only for closed or voted polls
    pub voter_count: i32,
    /// The percentage of votes for this option, 0-100
    pub vote_percentage: i32,
    /// True, if the option was chosen by the user
    pub is_chosen: bool,
    /// True, if the option is being chosen by a pending setPollAnswer request
    pub is_being_chosen: bool,
}

impl Wire for PollOption {
    #[verifier::opaque]
    open spec fn wire(&self) -> Doc {
        tagged(
            Map::empty()
                .insert("text"@, self.text.wire())
                .insert("voterCount"@, self.voter_count.wire())
                .insert("votePercentage"@, self.vote_percentage.wire())
                .insert("isChosen"@, self.is_chosen.wire())
                .insert("isBeingChosen"@, self.is_being_chosen.wire()),
            "pollOption"@,
        )
    }

    #[verifier::opaque]
    open spec fn parse(d: Doc, at: Seq<char>) -> Result<Doc, Fault> {
        match d {
            Doc::Object(m) => {
                let text = field::<String>(m, "text"@);
                let voter_count = field::<i32>(m, "voterCount"@);
                let vote_percentage = field::<i32>(m, "votePercentage"@);
                let is_chosen = field::<bool>(m, "isChosen"@);
                let is_being_chosen = field::<bool>(m, "isBeingChosen"@);
                if text is Err {
                    text
                } else if voter_count is Err {
                    voter_count
                } else if vote_percentage is Err {
                    vote_percentage
                } else if is_chosen is Err {
                    is_chosen
                } else if is_being_chosen is Err {
                    is_being_chosen
                } else {
                    Ok(
                        tagged(
                            Map::empty()
                                .insert("text"@, text->Ok_0)
                                .insert("voterCount"@, voter_count->Ok_0)
                                .insert("votePercentage"@, vote_percentage->Ok_0)
                                .insert("isChosen"@, is_chosen->Ok_0)
                                .insert("isBeingChosen"@, is_being_chosen->Ok_0),
                            "pollOption"@,
                        ),
                    )
                }
            },
            _ => Err(Fault::TypeMismatch(at)),
        }
    }

    fn encode(&self) -> (j: Json) {
        proof {
            reveal(<PollOption as Wire>::wire);
        }
        let mut members: Vec<Member> = Vec::new();
        put(&mut members, "text", self.text.encode());
        put(&mut members, "voterCount", self.voter_count.encode());
        put(&mut members, "votePercentage", self.vote_percentage.encode());
        put(&mut members, "isChosen", self.is_chosen.encode());
        put(&mut members, "isBeingChosen", self.is_being_chosen.encode());
        seal(members, "pollOption")
    }

    fn decode(j: &Json, at: &str) -> (r: Result<Self, DecodeError>) {
        proof {
            reveal(<PollOption as Wire>::wire);
            reveal(<PollOption as Wire>::parse);
        }
        let members = members_of(j, at)?;
        let text = read_field::<String>(members, "text")?;
        let voter_count = read_field::<i32>(members, "voterCount")?;
        let vote_percentage = read_field::<i32>(members, "votePercentage")?;
        let is_chosen = read_field::<bool>(members, "isChosen")?;
        let is_being_chosen = read_field::<bool>(members, "isBeingChosen")?;
        Ok(PollOption { text, voter_count, vote_percentage, is_chosen, is_being_chosen })
    }

    proof fn round_trip(&self, at: Seq<char>) {
        reveal(<PollOption as Wire>::wire);
        reveal(<PollOption as Wire>::parse);
        reveal_strlit("@type");
        reveal_strlit("isBeingChosen");
        reveal_strlit("isChosen");
        reveal_strlit("text");
        reveal_strlit("votePercentage");
        reveal_strlit("voterCount");
        assert("@type"@.len() == 5);
        assert("isBeingChosen"@.len() == 13);
        assert("isChosen"@.len() == 8);
        assert("text"@.len() == 4);
        assert("votePercentage"@.len() == 14);
        assert("voterCount"@.len() == 10);
        self.text.round_trip("text"@);
        self.voter_count.round_trip("voterCount"@);
        self.vote_percentage.round_trip("votePercentage"@);
        self.is_chosen.round_trip("isChosen"@);
        self.is_being_chosen.round_trip("isBeingChosen"@);
    }
}

impl Tagged for PollOption {
    open spec fn known(tag: Seq<char>) -> bool {
        tag == "pollOption"@
    }

    fn knows(tag: &str) -> (r: bool) {
        same_text(tag, "pollOption")
    }

    proof fn tag_known(&self) {
        reveal(<PollOption as Wire>::wire);
        assert(tag_of(self.wire()) == Some("pollOption"@));
        assert(Self::known("pollOption"@));
    }
}

/// A regular poll
#[derive(Debug, Clone, PartialEq)]
pub struct PollTypeRegular {
    /// True, if multiple answer options can be chosen simultaneously
    pub allow_multiple_answers: bool,
}

impl Wire for PollTypeRegular {
    #[verifier::opaque]
    open spec fn wire(&self) -> Doc {
        tagged(
            Map::empty()
                .insert("allowMultipleAnswers"@, self.allow_multiple_answers.wire()),
            "pollTypeRegular"@,
        )
    }

    #[verifier::opaque]
    open spec fn parse(d: Doc, at: Seq<char>) -> Result<Doc, Fault> {
        match d {
            Doc::Object(m) => {
                let allow_multiple_answers = field::<bool>(m, "allowMultipleAnswers"@);
                if allow_multiple_answers is Err {
                    allow_multiple_answers
                } else {
                    Ok(
                        tagged(
                            Map::empty()
                                .insert("allowMultipleAnswers"@, allow_multiple_answers->Ok_0),
                            "pollTypeRegular"@,
                        ),
                    )
                }
            },
            _ => Err(Fault::TypeMismatch(at)),
        }
    }

    fn encode(&self) -> (j: Json) {
        proof {
            reveal(<PollTypeRegular as Wire>::wire);
        }
        let mut members: Vec<Member> = Vec::new();
        put(&mut members, "allowMultipleAnswers", self.allow_multiple_answers.encode());
        seal(members, "pollTypeRegular")
    }

    fn decode(j: &Json, at: &str) -> (r: Result<Self, DecodeError>) {
        proof {
            reveal(<PollTypeRegular as Wire>::wire);
            reveal(<PollTypeRegular as Wire>::parse);
        }
        let members = members_of(j, at)?;
        let allow_multiple_answers = read_field::<bool>(members, "allowMultipleAnswers")?;
        Ok(PollTypeRegular { allow_multiple_answers })
    }

    proof fn round_trip(&self, at: Seq<char>) {
        reveal(<PollTypeRegular as Wire>::wire);
        reveal(<PollTypeRegular as Wire>::parse);
        reveal_strlit("@type");
        reveal_strlit("allowMultipleAnswers");
        assert("@type"@.len() == 5);
        assert("allowMultipleAnswers"@.len() == 20);
        self.allow_multiple_answers.round_trip("allowMultipleAnswers"@);
    }
}

impl Tagged for PollTypeRegular {
    open spec fn known(tag: Seq<char>) -> bool {
        tag == "pollTypeRegular"@
    }

    fn knows(tag: &str) -> (r: bool) {
        same_text(tag, "pollTypeRegular")
    }

    proof fn tag_known(&self) {
        reveal(<PollTypeRegular as Wire>::wire);
        assert(tag_of(self.wire()) == Some("pollTypeRegular"@));
        assert(Self::known("pollTypeRegular"@));
    }
}

/// A poll in quiz mode, which has exactly one correct answer option and can be answered only once
#[derive(Debug, Clone, PartialEq)]
pub struct PollTypeQuiz {
    /// 0-based identifier of the correct answer option; -1 for a yet unanswered poll
    pub correct_option_id: i32,
}

impl Wire for PollTypeQuiz {
    #[verifier::opaque]
    open spec fn wire(&self) -> Doc {
        tagged(
            Map::empty()
                .insert("correctOptionId"@, self.correct_option_id.wire()),
            "pollTypeQuiz"@,
        )
    }

    #[verifier::opaque]
    open spec fn parse(d: Doc, at: Seq<char>) -> Result<Doc, Fault> {
        match d {
            Doc::Object(m) => {
                let correct_option_id = field::<i32>(m, "correctOptionId"@);
                if correct_option_id is Err {
                    correct_option_id
                } else {
                    Ok(
                        tagged(
                            Map::empty()
                                .insert("correctOptionId"@, correct_option_id->Ok_0),
                            "pollTypeQuiz"@,
                        ),
                    )
                }
            },
            _ => Err(Fault::TypeMismatch(at)),
        }
    }

    fn encode(&self) -> (j: Json) {
        proof {
            reveal(<PollTypeQuiz as Wire>::wire);
        }
        let mut members: Vec<Member> = Vec::new();
        put(&mut members, "correctOptionId", self.correct_option_id.encode());
        seal(members, "pollTypeQuiz")
    }

    fn decode(j: &Json, at: &str) -> (r: Result<Self, DecodeError>) {
        proof {
            reveal(<PollTypeQuiz as Wire>::wire);
            reveal(<PollTypeQuiz as Wire>::parse);
        }
        let members = members_of(j, at)?;
        let correct_option_id = read_field::<i32>(members, "correctOptionId")?;
        Ok(PollTypeQuiz { correct_option_id })
    }

    proof fn round_trip(&self, at: Seq<char>) {
        reveal(<PollTypeQuiz as Wire>::wire);
        reveal(<PollTypeQuiz as Wire>::parse);
        reveal_strlit("@type");
        reveal_strlit("correctOptionId");
        assert("@type"@.len() == 5);
        assert("correctOptionId"@.len() == 15);
        self.correct_option_id.round_trip("correctOptionId"@);
    }
}

impl Tagged for PollTypeQuiz {
    open spec fn known(tag: Seq<char>) -> bool {
        tag == "pollTypeQuiz"@
    }

    fn knows(tag: &str) -> (r: bool) {
        same_text(tag, "pollTypeQuiz")
    }

    proof fn tag_known(&self) {
        reveal(<PollTypeQuiz as Wire>::wire);
        assert(tag_of(self.wire()) == Some("pollTypeQuiz"@));
        assert(Self::known("pollTypeQuiz"@));
    }
}

/// Describes the type of a poll
#[derive(Debug, Clone, PartialEq)]
pub enum PollType {
    PollTypeRegular(PollTypeRegular),
    PollTypeQuiz(PollTypeQuiz),
}

impl Wire for PollType {
    #[verifier::opaque]
    open spec fn wire(&self) -> Doc {
        match self {
            Self::PollTypeRegular(p) => p.wire(),
            Self::PollTypeQuiz(p) => p.wire(),
        }
    }

    #[verifier::opaque]
    open spec fn parse(d: Doc, at: Seq<char>) -> Result<Doc, Fault> {
        match d {
            Doc::Object(_) => match tag_of(d) {
                Some(t) => if t == "pollTypeRegular"@ {
                    PollTypeRegular::parse(d, at)
                } else if t == "pollTypeQuiz"@ {
                    PollTypeQuiz::parse(d, at)
                } else {
                    Err(Fault::UnknownVariant(t))
                },
                None => Err(Fault::MissingDiscriminator),
            },
            _ => Err(Fault::TypeMismatch(at)),
        }
    }

    fn encode(&self) -> (j: Json) {
        proof {
            reveal(<PollType as Wire>::wire);
        }
        match self {
            Self::PollTypeRegular(p) => p.encode(),
            Self::PollTypeQuiz(p) => p.encode(),
        }
    }

    fn decode(j: &Json, at: &str) -> (r: Result<Self, DecodeError>) {
        proof {
            reveal(<PollType as Wire>::wire);
            reveal(<PollType as Wire>::parse);
        }
        let members = members_of(j, at)?;
        let tag = discriminator(members)?;
        if same_text(tag, "pollTypeRegular") {
            Ok(Self::PollTypeRegular(PollTypeRegular::decode(j, at)?))
        } else if same_text(tag, "pollTypeQuiz") {
            Ok(Self::PollTypeQuiz(PollTypeQuiz::decode(j, at)?))
        } else {
            Err(DecodeError::UnknownVariant(tag.to_owned()))
        }
    }

    proof fn round_trip(&self, at: Seq<char>) {
        reveal(<PollType as Wire>::wire);
        reveal(<PollType as Wire>::parse);
        reveal_strlit("pollTypeQuiz");
        reveal_strlit("pollTypeRegular");
        assert("pollTypeQuiz"@.len() == 12);
        assert("pollTypeRegular"@.len() == 15);
        match self {
            Self::PollTypeRegular(p) => {
                p.tag_known();
                p.round_trip(at);
            },
            Self::PollTypeQuiz(p) => {
                p.tag_known();
                p.round_trip(at);
            },
        }
    }
}

impl Tagged for PollType {
    open spec fn known(tag: Seq<char>) -> bool {
        ||| tag == "pollTypeRegular"@
        ||| tag == "pollTypeQuiz"@
    }

    fn knows(tag: &str) -> (r: bool) {
        same_text(tag, "pollTypeRegular")
            || same_text(tag, "pollTypeQuiz")
    }

    proof fn tag_known(&self) {
        reveal(<PollType as Wire>::wire);
        match self {
            Self::PollTypeRegular(p) => p.tag_known(),
            Self::PollTypeQuiz(p) => p.tag_known(),
        }
    }
}

impl Union for PollType {
    proof fn unknown_rejected(d: Doc, at: Seq<char>) {
        reveal(<PollType as Wire>::parse);
    }

    proof fn untagged_rejected(d: Doc, at: Seq<char>) {
        reveal(<PollType as Wire>::parse);
    }
}

/// Describes an animation file. The animation must be encoded in GIF or MPEG4 format
#[derive(Debug, Clone, PartialEq)]
pub struct Animation {
    /// Duration of the animation, in seconds; as defined by the sender
    pub duration: i32,
    /// Width of the animation
    pub width: i32,
    /// Height of the animation
    pub height: i32,
    /// Original name of the file; as defined by the sender
    pub file_name: String,
    /// MIME type of the file, usually "image/gif" or "video/mp4"
    pub mime_type: String,
    /// Animation minithumbnail; may be null
    pub minithumbnail: Option<Minithumbnail>,
    /// Animation thumbnail; may be null
    pub thumbnail: Option<PhotoSize>,
    /// File containing the animation
    pub animation: File,
}

impl Wire for Animation {
    #[verifier::opaque]
    open spec fn wire(&self) -> Doc {
        tagged(
            Map::empty()
                .insert("duration"@, self.duration.wire())
                .insert("width"@, self.width.wire())
                .insert("height"@, self.height.wire())
                .insert("fileName"@, self.file_name.wire())
                .insert("mimeType"@, self.mime_type.wire())
                .insert("minithumbnail"@, self.minithumbnail.wire())
                .insert("thumbnail"@, self.thumbnail.wire())
                .insert("animation"@, self.animation.wire()),
            "animation"@,
        )
    }

    #[verifier::opaque]
    open spec fn parse(d: Doc, at: Seq<char>) -> Result<Doc, Fault> {
        match d {
            Doc::Object(m) => {
                let duration = field::<i32>(m, "duration"@);
                let width = field::<i32>(m, "width"@);
                let height = field::<i32>(m, "height"@);
                let file_name = field::<String>(m, "fileName"@);
                let mime_type = field::<String>(m, "mimeType"@);
                let minithumbnail = optional_field::<Minithumbnail>(m, "minithumbnail"@);
                let thumbnail = optional_field::<PhotoSize>(m, "thumbnail"@);
                let animation = field::<File>(m, "animation"@);
                if duration is Err {
                    duration
                } else if width is Err {
                    width
                } else if height is Err {
                    height
                } else if file_name is Err {
                    file_name
                } else if mime_type is Err {
                    mime_type
                } else if minithumbnail is Err {
                    minithumbnail
                } else if thumbnail is Err {
                    thumbnail
                } else if animation is Err {
                    animation
                } else {
                    Ok(
                        tagged(
                            Map::empty()
                                .insert("duration"@, duration->Ok_0)
                                .insert("width"@, width->Ok_0)
                                .insert("height"@, height->Ok_0)
                                .insert("fileName"@, file_name->Ok_0)
                                .insert("mimeType"@, mime_type->Ok_0)
                                .insert("minithumbnail"@, minithumbnail->Ok_0)
                                .insert("thumbnail"@, thumbnail->Ok_0)
                                .insert("animation"@, animation->Ok_0),
                            "animation"@,
                        ),
                    )
                }
            },
            _ => Err(Fault::TypeMismatch(at)),
        }
    }

    fn encode(&self) -> (j: Json) {
        proof {
            reveal(<Animation as Wire>::wire);
        }
        let mut members: Vec<Member> = Vec::new();
        put(&mut members, "duration", self.duration.encode());
        put(&mut members, "width", self.width.encode());
        put(&mut members, "height", self.height.encode());
        put(&mut members, "fileName", self.file_name.encode());
        put(&mut members, "mimeType", self.mime_type.encode());
        put(&mut members, "minithumbnail", self.minithumbnail.encode());
        put(&mut members, "thumbnail", self.thumbnail.encode());
        put(&mut members, "animation", self.animation.encode());
        seal(members, "animation")
    }

    fn decode(j: &Json, at: &str) -> (r: Result<Self, DecodeError>) {
        proof {
            reveal(<Animation as Wire>::wire);
            reveal(<Animation as Wire>::parse);
        }
        let members = members_of(j, at)?;
        let duration = read_field::<i32>(members, "duration")?;
        let width = read_field::<i32>(members, "width")?;
        let height = read_field::<i32>(members, "height")?;
        let file_name = read_field::<String>(members, "fileName")?;
        let mime_type = read_field::<String>(members, "mimeType")?;
        let minithumbnail = read_optional::<Minithumbnail>(members, "minithumbnail")?;
        let thumbnail = read_optional::<PhotoSize>(members, "thumbnail")?;
        let animation = read_field::<File>(members, "animation")?;
        Ok(Animation {
            duration,
            width,
            height,
            file_name,
            mime_type,
            minithumbnail,
            thumbnail,
            animation,
        })
    }

    proof fn round_trip(&self, at: Seq<char>) {
        reveal(<Animation as Wire>::wire);
        reveal(<Animation as Wire>::parse);
        reveal_strlit("@type");
        reveal_strlit("animation");
        reveal_strlit("duration");
        reveal_strlit("fileName");
        reveal_strlit("height");
        reveal_strlit("mimeType");
        reveal_strlit("minithumbnail");
        reveal_strlit("thumbnail");
        reveal_strlit("width");
        assert("@type"@.len() == 5 && "@type"@[0] == '@');
        assert("animation"@.len() == 9 && "animation"@[0] == 'a');
        assert("duration"@.len() == 8 && "duration"@[0] == 'd');
        assert("fileName"@.len() == 8 && "fileName"@[0] == 'f');
        assert("height"@.len() == 6);
        assert("mimeType"@.len() == 8 && "mimeType"@[0] == 'm');
        assert("minithumbnail"@.len() == 13);
        assert("thumbnail"@.len() == 9 && "thumbnail"@[0] == 't');
        assert("width"@.len() == 5 && "width"@[0] == 'w');
        self.duration.round_trip("duration"@);
        self.width.round_trip("width"@);
        self.height.round_trip("height"@);
        self.file_name.round_trip("fileName"@);
        self.mime_type.round_trip("mimeType"@);
        self.minithumbnail.round_trip("minithumbnail"@);
        self.thumbnail.round_trip("thumbnail"@);
        self.animation.round_trip("animation"@);
    }
}

impl Tagged for Animation {
    open spec fn known(tag: Seq<char>) -> bool {
        tag == "animation"@
    }

    fn knows(tag: &str) -> (r: bool) {
        same_text(tag, "animation")
    }

    proof fn tag_known(&self) {
        reveal(<Animation as Wire>::wire);
        assert(tag_of(self.wire()) == Some("animation"@));
        assert(Self::known("animation"@));
    }
}

/// Describes an audio file. Audio is usually in MP3 or M4A format
#[derive(Debug, Clone, PartialEq)]
pub struct Audio {
    /// Duration of the audio, in seconds; as defined by the sender
    pub duration: i32,
    /// Title of the audio; as defined by the sender
    pub title: String,
    /// Performer of the audio; as defined by the sender
    pub performer: String,
    /// Original name of the file; as defined by the sender
    pub file_name: String,
    /// The MIME type of the file; as defined by the sender
    pub mime_type: String,
    /// The minithumbnail of the album cover; may be null
    pub album_cover_minithumbnail: Option<Minithumbnail>,
    /// The thumbnail of the album cover; as defined by the sender. The full size thumbnail should
    /// be extracted from the downloaded file; may be null
    pub album_cover_thumbnail: Option<PhotoSize>,
    /// File containing the audio
    pub audio: File,
}

impl Wire for Audio {
    #[verifier::opaque]
    open spec fn wire(&self) -> Doc {
        tagged(
            Map::empty()
                .insert("duration"@, self.duration.wire())
                .insert("title"@, self.title.wire())
                .insert("performer"@, self.performer.wire())
                .insert("fileName"@, self.file_name.wire())
                .insert("mimeType"@, self.mime_type.wire())
                .insert("albumCoverMinithumbnail"@, self.album_cover_minithumbnail.wire())
                .insert("albumCoverThumbnail"@, self.album_cover_thumbnail.wire())
                .insert("audio"@, self.audio.wire()),
            "audio"@,
        )
    }

    #[verifier::opaque]
    open spec fn parse(d: Doc, at: Seq<char>) -> Result<Doc, Fault> {
        match d {
            Doc::Object(m) => {
                let duration = field::<i32>(m, "duration"@);
                let title = field::<String>(m, "title"@);
                let performer = field::<String>(m, "performer"@);
                let file_name = field::<String>(m, "fileName"@);
                let mime_type = field::<String>(m, "mimeType"@);
                let album_cover_minithumbnail = optional_field::<Minithumbnail>(
                    m,
                    "albumCoverMinithumbnail"@,
                );
                let album_cover_thumbnail = optional_field::<PhotoSize>(m, "albumCoverThumbnail"@);
                let audio = field::<File>(m, "audio"@);
                if duration is Err {
                    duration
                } else if title is Err {
                    title
                } else if performer is Err {
                    performer
                } else if file_name is Err {
                    file_name
                } else if mime_type is Err {
                    mime_type
                } else if album_cover_minithumbnail is Err {
                    album_cover_minithumbnail
                } else if album_cover_thumbnail is Err {
                    album_cover_thumbnail
                } else if audio is Err {
                    audio
                } else {
                    Ok(
                        tagged(
                            Map::empty()
                                .insert("duration"@, duration->Ok_0)
                                .insert("title"@, title->Ok_0)
                                .insert("performer"@, performer->Ok_0)
                                .insert("fileName"@, file_name->Ok_0)
                                .insert("mimeType"@, mime_type->Ok_0)
                                .insert("albumCoverMinithumbnail"@, album_cover_minithumbnail->Ok_0)
                                .insert("albumCoverThumbnail"@, album_cover_thumbnail->Ok_0)
                                .insert("audio"@, audio->Ok_0),
                            "audio"@,
                        ),
                    )
                }
            },
            _ => Err(Fault::TypeMismatch(at)),
        }
    }

    fn encode(&self) -> (j: Json) {
        proof {
            reveal(<Audio as Wire>::wire);
        }
        let mut members: Vec<Member> = Vec::new();
        put(&mut members, "duration", self.duration.encode());
        put(&mut members, "title", self.title.encode());
        put(&mut members, "performer", self.performer.encode());
        put(&mut members, "fileName", self.file_name.encode());
        put(&mut members, "mimeType", self.mime_type.encode());
        put(&mut members, "albumCoverMinithumbnail", self.album_cover_minithumbnail.encode());
        put(&mut members, "albumCoverThumbnail", self.album_cover_thumbnail.encode());
        put(&mut members, "audio", self.audio.encode());
        seal(members, "audio")
    }

    fn decode(j: &Json, at: &str) -> (r: Result<Self, DecodeError>) {
        proof {
            reveal(<Audio as Wire>::wire);
            reveal(<Audio as Wire>::parse);
        }
        let members = members_of(j, at)?;
        let duration = read_field::<i32>(members, "duration")?;
        let title = read_field::<String>(members, "title")?;
        let performer = read_field::<String>(members, "performer")?;
        let file_name = read_field::<String>(members, "fileName")?;
        let mime_type = read_field::<String>(members, "mimeType")?;
        let album_cover_minithumbnail = read_optional::<Minithumbnail>(
            members,
            "albumCoverMinithumbnail",
        )?;
        let album_cover_thumbnail = read_optional::<PhotoSize>(members, "albumCoverThumbnail")?;
        let audio = read_field::<File>(members, "audio")?;
        Ok(Audio {
            duration,
            title,
            performer,
            file_name,
            mime_type,
            album_cover_minithumbnail,
            album_cover_thumbnail,
            audio,
        })
    }

    proof fn round_trip(&self, at: Seq<char>) {
        reveal(<Audio as Wire>::wire);
        reveal(<Audio as Wire>::parse);
        reveal_strlit("@type");
        reveal_strlit("albumCoverMinithumbnail");
        reveal_strlit("albumCoverThumbnail");
        reveal_strlit("audio");
        reveal_strlit("duration");
        reveal_strlit("fileName");
        reveal_strlit("mimeType");
        reveal_strlit("performer");
        reveal_strlit("title");
        assert("@type"@.len() == 5 && "@type"@[0] == '@');
        assert("albumCoverMinithumbnail"@.len() == 23);
        assert("albumCoverThumbnail"@.len() == 19);
        assert("audio"@.len() == 5 && "audio"@[0] == 'a');
        assert("duration"@.len() == 8 && "duration"@[0] == 'd');
        assert("fileName"@.len() == 8 && "fileName"@[0] == 'f');
        assert("mimeType"@.len() == 8 && "mimeType"@[0] == 'm');
        assert("performer"@.len() == 9);
        assert("title"@.len() == 5 && "title"@[0] == 't');
        self.duration.round_trip("duration"@);
        self.title.round_trip("title"@);
        self.performer.round_trip("performer"@);
        self.file_name.round_trip("fileName"@);
        self.mime_type.round_trip("mimeType"@);
        self.album_cover_minithumbnail.round_trip("albumCoverMinithumbnail"@);
        self.album_cover_thumbnail.round_trip("albumCoverThumbnail"@);
        self.audio.round_trip("audio"@);
    }
}

impl Tagged for Audio {
    open spec fn known(tag: Seq<char>) -> bool {
        tag == "audio"@
    }

    fn knows(tag: &str) -> (r: bool) {
        same_text(tag, "audio")
    }

    proof fn tag_known(&self) {
        reveal(<Audio as Wire>::wire);
        assert(tag_of(self.wire()) == Some("audio"@));
        assert(Self::known("audio"@));
    }
}

/// Describes a document of any type
#[derive(Debug, Clone, PartialEq)]
pub struct Document {
    /// Original name of the file; as defined by the sender
    pub file_name: String,
    /// MIME type of the file; as defined by the sender
    pub mime_type: String,
    /// Document minithumbnail; may be null
    pub minithumbnail: Option<Minithumbnail>,
    /// Document thumbnail in JPEG or PNG format (PNG will be used only for background patterns); as
    /// defined by the sender; may be null
    pub thumbnail: Option<PhotoSize>,
    /// File containing the document
    pub document: File,
}

impl Wire for Document {
    #[verifier::opaque]
    open spec fn wire(&self) -> Doc {
        tagged(
            Map::empty()
                .insert("fileName"@, self.file_name.wire())
                .insert("mimeType"@, self.mime_type.wire())
                .insert("minithumbnail"@, self.minithumbnail.wire())
                .insert("thumbnail"@, self.thumbnail.wire())
                .insert("document"@, self.document.wire()),
            "document"@,
        )
    }

    #[verifier::opaque]
    open spec fn parse(d: Doc, at: Seq<char>) -> Result<Doc, Fault> {
        match d {
            Doc::Object(m) => {
                let file_name = field::<String>(m, "fileName"@);
                let mime_type = field::<String>(m, "mimeType"@);
                let minithumbnail = optional_field::<Minithumbnail>(m, "minithumbnail"@);
                let thumbnail = optional_field::<PhotoSize>(m, "thumbnail"@);
                let document = field::<File>(m, "document"@);
                if file_name is Err {
                    file_name
                } else if mime_type is Err {
                    mime_type
                } else if minithumbnail is Err {
                    minithumbnail
                } else if thumbnail is Err {
                    thumbnail
                } else if document is Err {
                    document
                } else {
                    Ok(
                        tagged(
                            Map::empty()
                                .insert("fileName"@, file_name->Ok_0)
                                .insert("mimeType"@, mime_type->Ok_0)
                                .insert("minithumbnail"@, minithumbnail->Ok_0)
                                .insert("thumbnail"@, thumbnail->Ok_0)
                                .insert("document"@, document->Ok_0),
                            "document"@,
                        ),
                    )
                }
            },
            _ => Err(Fault::TypeMismatch(at)),
        }
    }

    fn encode(&self) -> (j: Json) {
        proof {
            reveal(<Document as Wire>::wire);
        }
        let mut members: Vec<Member> = Vec::new();
        put(&mut members, "fileName", self.file_name.encode());
        put(&mut members, "mimeType", self.mime_type.encode());
        put(&mut members, "minithumbnail", self.minithumbnail.encode());
        put(&mut members, "thumbnail", self.thumbnail.encode());
        put(&mut members, "document", self.document.encode());
        seal(members, "document")
    }

    fn decode(j: &Json, at: &str) -> (r: Result<Self, DecodeError>) {
        proof {
            reveal(<Document as Wire>::wire);
            reveal(<Document as Wire>::parse);
        }
        let members = members_of(j, at)?;
        let file_name = read_field::<String>(members, "fileName")?;
        let mime_type = read_field::<String>(members, "mimeType")?;
        let minithumbnail = read_optional::<Minithumbnail>(members, "minithumbnail")?;
        let thumbnail = read_optional::<PhotoSize>(members, "thumbnail")?;
        let document = read_field::<File>(members, "document")?;
        Ok(Document { file_name, mime_type, minithumbnail, thumbnail, document })
    }

    proof fn round_trip(&self, at: Seq<char>) {
        reveal(<Document as Wire>::wire);
        reveal(<Document as Wire>::parse);
        reveal_strlit("@type");
        reveal_strlit("document");
        reveal_strlit("fileName");
        reveal_strlit("mimeType");
        reveal_strlit("minithumbnail");
        reveal_strlit("thumbnail");
        assert("@type"@.len() == 5);
        assert("document"@.len() == 8 && "document"@[0] == 'd');
        assert("fileName"@.len() == 8 && "fileName"@[0] == 'f');
        assert("mimeType"@.len() == 8 && "mimeType"@[0] == 'm');
        assert("minithumbnail"@.len() == 13);
        assert("thumbnail"@.len() == 9);
        self.file_name.round_trip("fileName"@);
        self.mime_type.round_trip("mimeType"@);
        self.minithumbnail.round_trip("minithumbnail"@);
        self.thumbnail.round_trip("thumbnail"@);
        self.document.round_trip("document"@);
    }
}

impl Tagged for Document {
    open spec fn known(tag: Seq<char>) -> bool {
        tag == "document"@
    }

    fn knows(tag: &str) -> (r: bool) {
        same_text(tag, "document")
    }

    proof fn tag_known(&self) {
        reveal(<Document as Wire>::wire);
        assert(tag_of(self.wire()) == Some("document"@));
        assert(Self::known("document"@));
    }
}

/// Describes a photo
#[derive(Debug, Clone, PartialEq)]
pub struct Photo {
    /// True, if stickers were added to the photo
    pub has_stickers: bool,
    /// Photo minithumbnail; may be null
    pub minithumbnail: Option<Minithumbnail>,
    /// Available variants of the photo, in different sizes
    pub sizes: Vec<PhotoSize>,
}

impl Wire for Photo {
    #[verifier::opaque]
    open spec fn wire(&self) -> Doc {
        tagged(
            Map::empty()
                .insert("hasStickers"@, self.has_stickers.wire())
                .insert("minithumbnail"@, self.minithumbnail.wire())
                .insert("sizes"@, self.sizes.wire()),
            "photo"@,
        )
    }

    #[verifier::opaque]
    open spec fn parse(d: Doc, at: Seq<char>) -> Result<Doc, Fault> {
        match d {
            Doc::Object(m) => {
                let has_stickers = field::<bool>(m, "hasStickers"@);
                let minithumbnail = optional_field::<Minithumbnail>(m, "minithumbnail"@);
                let sizes = field::<Vec<PhotoSize>>(m, "sizes"@);
                if has_stickers is Err {
                    has_stickers
                } else if minithumbnail is Err {
                    minithumbnail
                } else if sizes is Err {
                    sizes
                } else {
                    Ok(
                        tagged(
                            Map::empty()
                                .insert("hasStickers"@, has_stickers->Ok_0)
                                .insert("minithumbnail"@, minithumbnail->Ok_0)
                                .insert("sizes"@, sizes->Ok_0),
                            "photo"@,
                        ),
                    )
                }
            },
            _ => Err(Fault::TypeMismatch(at)),
        }
    }

    fn encode(&self) -> (j: Json) {
        proof {
            reveal(<Photo as Wire>::wire);
        }
        let mut members: Vec<Member> = Vec::new();
        put(&mut members, "hasStickers", self.has_stickers.encode());
        put(&mut members, "minithumbnail", self.minithumbnail.encode());
        put(&mut members, "sizes", self.sizes.encode());
        seal(members, "photo")
    }

    fn decode(j: &Json, at: &str) -> (r: Result<Self, DecodeError>) {
        proof {
            reveal(<Photo as Wire>::wire);
            reveal(<Photo as Wire>::parse);
        }
        let members = members_of(j, at)?;
        let has_stickers = read_field::<bool>(members, "hasStickers")?;
        let minithumbnail = read_optional::<Minithumbnail>(members, "minithumbnail")?;
        let sizes = read_field::<Vec<PhotoSize>>(members, "sizes")?;
        Ok(Photo { has_stickers, minithumbnail, sizes })
    }

    proof fn round_trip(&self, at: Seq<char>) {
        reveal(<Photo as Wire>::wire);
        reveal(<Photo as Wire>::parse);
        reveal_strlit("@type");
        reveal_strlit("hasStickers");
        reveal_strlit("minithumbnail");
        reveal_strlit("sizes");
        assert("@type"@.len() == 5 && "@type"@[0] == '@');
        assert("hasStickers"@.len() == 11);
        assert("minithumbnail"@.len() == 13);
        assert("sizes"@.len() == 5 && "sizes"@[0] == 's');
        self.has_stickers.round_trip("hasStickers"@);
        self.minithumbnail.round_trip("minithumbnail"@);
        self.sizes.round_trip("sizes"@);
    }
}

impl Tagged for Photo {
    open spec fn known(tag: Seq<char>) -> bool {
        tag == "photo"@
    }

    fn knows(tag: &str) -> (r: bool) {
        same_text(tag, "photo")
    }

    proof fn tag_known(&self) {
        reveal(<Photo as Wire>::wire);
        assert(tag_of(self.wire()) == Some("photo"@));
        assert(Self::known("photo"@));
    }
}

/// Describes a sticker
#[derive(Debug, Clone, PartialEq)]
pub struct Sticker {
    /// The identifier of the sticker set to which the sticker belongs; 0 if none
    pub set_id: i64,
    /// Sticker width; as defined by the sender
    pub width: i32,
    /// Sticker height; as defined by the sender
    pub height: i32,
    /// Emoji corresponding to the sticker
    pub emoji: String,
    /// True, if the sticker is an animated sticker in TGS format
    pub is_animated: bool,
    /// True, if the sticker is a mask
    pub is_mask: bool,
    /// Position where the mask should be placed; may be null
    pub mask_position: Option<MaskPosition>,
    /// Sticker thumbnail in WEBP or JPEG format; may be null
    pub thumbnail: Option<PhotoSize>,
    /// File containing the sticker
    pub sticker: File,
}

impl Wire for Sticker {
    #[verifier::opaque]
    open spec fn wire(&self) -> Doc {
        tagged(
            Map::empty()
                .insert("setId"@, wide_doc(self.set_id))
                .insert("width"@, self.width.wire())
                .insert("height"@, self.height.wire())
                .insert("emoji"@, self.emoji.wire())
                .insert("isAnimated"@, self.is_animated.wire())
                .insert("isMask"@, self.is_mask.wire())
                .insert("maskPosition"@, self.mask_position.wire())
                .insert("thumbnail"@, self.thumbnail.wire())
                .insert("sticker"@, self.sticker.wire()),
            "sticker"@,
        )
    }

    #[verifier::opaque]
    open spec fn parse(d: Doc, at: Seq<char>) -> Result<Doc, Fault> {
        match d {
            Doc::Object(m) => {
                let set_id = wide_field(m, "setId"@);
                let width = field::<i32>(m, "width"@);
                let height = field::<i32>(m, "height"@);
                let emoji = field::<String>(m, "emoji"@);
                let is_animated = field::<bool>(m, "isAnimated"@);
                let is_mask = field::<bool>(m, "isMask"@);
                let mask_position = optional_field::<MaskPosition>(m, "maskPosition"@);
                let thumbnail = optional_field::<PhotoSize>(m, "thumbnail"@);
                let sticker = field::<File>(m, "sticker"@);
                if set_id is Err {
                    set_id
                } else if width is Err {
                    width
                } else if height is Err {
                    height
                } else if emoji is Err {
                    emoji
                } else if is_animated is Err {
                    is_animated
                } else if is_mask is Err {
                    is_mask
                } else if mask_position is Err {
                    mask_position
                } else if thumbnail is Err {
                    thumbnail
                } else if sticker is Err {
                    sticker
                } else {
                    Ok(
                        tagged(
                            Map::empty()
                                .insert("setId"@, set_id->Ok_0)
                                .insert("width"@, width->Ok_0)
                                .insert("height"@, height->Ok_0)
                                .insert("emoji"@, emoji->Ok_0)
                                .insert("isAnimated"@, is_animated->Ok_0)
                                .insert("isMask"@, is_mask->Ok_0)
                                .insert("maskPosition"@, mask_position->Ok_0)
                                .insert("thumbnail"@, thumbnail->Ok_0)
                                .insert("sticker"@, sticker->Ok_0),
                            "sticker"@,
                        ),
                    )
                }
            },
            _ => Err(Fault::TypeMismatch(at)),
        }
    }

    fn encode(&self) -> (j: Json) {
        proof {
            reveal(<Sticker as Wire>::wire);
        }
        let mut members: Vec<Member> = Vec::new();
        put(&mut members, "setId", encode_wide(self.set_id));
        put(&mut members, "width", self.width.encode());
        put(&mut members, "height", self.height.encode());
        put(&mut members, "emoji", self.emoji.encode());
        put(&mut members, "isAnimated", self.is_animated.encode());
        put(&mut members, "isMask", self.is_mask.encode());
        put(&mut members, "maskPosition", self.mask_position.encode());
        put(&mut members, "thumbnail", self.thumbnail.encode());
        put(&mut members, "sticker", self.sticker.encode());
        seal(members, "sticker")
    }

    fn decode(j: &Json, at: &str) -> (r: Result<Self, DecodeError>) {
        proof {
            reveal(<Sticker as Wire>::wire);
            reveal(<Sticker as Wire>::parse);
        }
        let members = members_of(j, at)?;
        let set_id = read_wide(members, "setId")?;
        let width = read_field::<i32>(members, "width")?;
        let height = read_field::<i32>(members, "height")?;
        let emoji = read_field::<String>(members, "emoji")?;
        let is_animated = read_field::<bool>(members, "isAnimated")?;
        let is_mask = read_field::<bool>(members, "isMask")?;
        let mask_position = read_optional::<MaskPosition>(members, "maskPosition")?;
        let thumbnail = read_optional::<PhotoSize>(members, "thumbnail")?;
        let sticker = read_field::<File>(members, "sticker")?;
        Ok(Sticker {
            set_id,
            width,
            height,
            emoji,
            is_animated,
            is_mask,
            mask_position,
            thumbnail,
            sticker,
        })
    }

    proof fn round_trip(&self, at: Seq<char>) {
        reveal(<Sticker as Wire>::wire);
        reveal(<Sticker as Wire>::parse);
        reveal_strlit("@type");
        reveal_strlit("emoji");
        reveal_strlit("height");
        reveal_strlit("isAnimated");
        reveal_strlit("isMask");
        reveal_strlit("maskPosition");
        reveal_strlit("setId");
        reveal_strlit("sticker");
        reveal_strlit("thumbnail");
        reveal_strlit("width");
        assert("@type"@.len() == 5 && "@type"@[0] == '@');
        assert("emoji"@.len() == 5 && "emoji"@[0] == 'e');
        assert("height"@.len() == 6 && "height"@[0] == 'h');
        assert("isAnimated"@.len() == 10);
        assert("isMask"@.len() == 6 && "isMask"@[0] == 'i');
        assert("maskPosition"@.len() == 12);
        assert("setId"@.len() == 5 && "setId"@[0] == 's');
        assert("sticker"@.len() == 7);
        assert("thumbnail"@.len() == 9);
        assert("width"@.len() == 5 && "width"@[0] == 'w');
        lemma_wide_round_trip(self.set_id, "setId"@);
        self.width.round_trip("width"@);
        self.height.round_trip("height"@);
        self.emoji.round_trip("emoji"@);
        self.is_animated.round_trip("isAnimated"@);
        self.is_mask.round_trip("isMask"@);
        self.mask_position.round_trip("maskPosition"@);
        self.thumbnail.round_trip("thumbnail"@);
        self.sticker.round_trip("sticker"@);
        let m = self.wire()->Object_0;
        assert(wide_field(m, "setId"@) == Ok::<Doc, Fault>(wide_doc(self.set_id)));
        assert(field::<i32>(m, "width"@) == Ok::<Doc, Fault>(self.width.wire()));
        assert(field::<i32>(m, "height"@) == Ok::<Doc, Fault>(self.height.wire()));
        assert(field::<String>(m, "emoji"@) == Ok::<Doc, Fault>(self.emoji.wire()));
        assert(field::<bool>(m, "isAnimated"@) == Ok::<Doc, Fault>(self.is_animated.wire()));
        assert(field::<bool>(m, "isMask"@) == Ok::<Doc, Fault>(self.is_mask.wire()));
        assert(optional_field::<MaskPosition>(m, "maskPosition"@)
            == Ok::<Doc, Fault>(self.mask_position.wire()));
        assert(optional_field::<PhotoSize>(m, "thumbnail"@)
            == Ok::<Doc, Fault>(self.thumbnail.wire()));
        assert(field::<File>(m, "sticker"@) == Ok::<Doc, Fault>(self.sticker.wire()));
    }
}

impl Tagged for Sticker {
    open spec fn known(tag: Seq<char>) -> bool {
        tag == "sticker"@
    }

    fn knows(tag: &str) -> (r: bool) {
        same_text(tag, "sticker")
    }

    proof fn tag_known(&self) {
        reveal(<Sticker as Wire>::wire);
        assert(tag_of(self.wire()) == Some("sticker"@));
        assert(Self::known("sticker"@));
    }
}

/// Describes a video file
#[derive(Debug, Clone, PartialEq)]
pub struct Video {
    /// Duration of the video, in seconds; as defined by the sender
    pub duration: i32,
    /// Video width; as defined by the sender
    pub width: i32,
    /// Video height; as defined by the sender
    pub height: i32,
    /// Original name of the file; as defined by the sender
    pub file_name: String,
    /// MIME type of the file; as defined by the sender
    pub mime_type: String,
    /// True, if stickers were added to the video
    pub has_stickers: bool,
    /// True, if the video should be tried to be streamed
    pub supports_streaming: bool,
    /// Video minithumbnail; may be null
    pub minithumbnail: Option<Minithumbnail>,
    /// Video thumbnail; as defined by the sender; may be null
    pub thumbnail: Option<PhotoSize>,
    /// File containing the video
    pub video: File,
}

impl Wire for Video {
    #[verifier::opaque]
    open spec fn wire(&self) -> Doc {
        tagged(
            Map::empty()
                .insert("duration"@, self.duration.wire())
                .insert("width"@, self.width.wire())
                .insert("height"@, self.height.wire())
                .insert("fileName"@, self.file_name.wire())
                .insert("mimeType"@, self.mime_type.wire())
                .insert("hasStickers"@, self.has_stickers.wire())
                .insert("supportsStreaming"@, self.supports_streaming.wire())
                .insert("minithumbnail"@, self.minithumbnail.wire())
                .insert("thumbnail"@, self.thumbnail.wire())
                .insert("video"@, self.video.wire()),
            "video"@,
        )
    }

    #[verifier::opaque]
    open spec fn parse(d: Doc, at: Seq<char>) -> Result<Doc, Fault> {
        match d {
            Doc::Object(m) => {
                let duration = field::<i32>(m, "duration"@);
                let width = field::<i32>(m, "width"@);
                let height = field::<i32>(m, "height"@);
                let file_name = field::<String>(m, "fileName"@);
                let mime_type = field::<String>(m, "mimeType"@);
                let has_stickers = field::<bool>(m, "hasStickers"@);
                let supports_streaming = field::<bool>(m, "supportsStreaming"@);
                let minithumbnail = optional_field::<Minithumbnail>(m, "minithumbnail"@);
                let thumbnail = optional_field::<PhotoSize>(m, "thumbnail"@);
                let video = field::<File>(m, "video"@);
                if duration is Err {
                    duration
                } else if width is Err {
                    width
                } else if height is Err {
                    height
                } else if file_name is Err {
                    file_name
                } else if mime_type is Err {
                    mime_type
                } else if has_stickers is Err {
                    has_stickers
                } else if supports_streaming is Err {
                    supports_streaming
                } else if minithumbnail is Err {
                    minithumbnail
                } else if thumbnail is Err {
                    thumbnail
                } else if video is Err {
                    video
                } else {
                    Ok(
                        tagged(
                            Map::empty()
                                .insert("duration"@, duration->Ok_0)
                                .insert("width"@, width->Ok_0)
                                .insert("height"@, height->Ok_0)
                                .insert("fileName"@, file_name->Ok_0)
                                .insert("mimeType"@, mime_type->Ok_0)
                                .insert("hasStickers"@, has_stickers->Ok_0)
                                .insert("supportsStreaming"@, supports_streaming->Ok_0)
                                .insert("minithumbnail"@, minithumbnail->Ok_0)
                                .insert("thumbnail"@, thumbnail->Ok_0)
                                .insert("video"@, video->Ok_0),
                            "video"@,
                        ),
                    )
                }
            },
            _ => Err(Fault::TypeMismatch(at)),
        }
    }

    fn encode(&self) -> (j: Json) {
        proof {
            reveal(<Video as Wire>::wire);
        }
        let mut members: Vec<Member> = Vec::new();
        put(&mut members, "duration", self.duration.encode());
        put(&mut members, "width", self.width.encode());
        put(&mut members, "height", self.height.encode());
        put(&mut members, "fileName", self.file_name.encode());
        put(&mut members, "mimeType", self.mime_type.encode());
        put(&mut members, "hasStickers", self.has_stickers.encode());
        put(&mut members, "supportsStreaming", self.supports_streaming.encode());
        put(&mut members, "minithumbnail", self.minithumbnail.encode());
        put(&mut members, "thumbnail", self.thumbnail.encode());
        put(&mut members, "video", self.video.encode());
        seal(members, "video")
    }

    fn decode(j: &Json, at: &str) -> (r: Result<Self, DecodeError>) {
        proof {
            reveal(<Video as Wire>::wire);
            reveal(<Video as Wire>::parse);
        }
        let members = members_of(j, at)?;
        let duration = read_field::<i32>(members, "duration")?;
        let width = read_field::<i32>(members, "width")?;
        let height = read_field::<i32>(members, "height")?;
        let file_name = read_field::<String>(members, "fileName")?;
        let mime_type = read_field::<String>(members, "mimeType")?;
        let has_stickers = read_field::<bool>(members, "hasStickers")?;
        let supports_streaming = read_field::<bool>(members, "supportsStreaming")?;
        let minithumbnail = read_optional::<Minithumbnail>(members, "minithumbnail")?;
        let thumbnail = read_optional::<PhotoSize>(members, "thumbnail")?;
        let video = read_field::<File>(members, "video")?;
        Ok(Video {
            duration,
            width,
            height,
            file_name,
            mime_type,
            has_stickers,
            supports_streaming,
            minithumbnail,
            thumbnail,
            video,
        })
    }

    proof fn round_trip(&self, at: Seq<char>) {
        reveal(<Video as Wire>::wire);
        reveal(<Video as Wire>::parse);
        reveal_strlit("@type");
        reveal_strlit("duration");
        reveal_strlit("fileName");
        reveal_strlit("hasStickers");
        reveal_strlit("height");
        reveal_strlit("mimeType");
        reveal_strlit("minithumbnail");
        reveal_strlit("supportsStreaming");
        reveal_strlit("thumbnail");
        reveal_strlit("video");
        reveal_strlit("width");
        assert("@type"@.len() == 5 && "@type"@[0] == '@');
        assert("duration"@.len() == 8 && "duration"@[0] == 'd');
        assert("fileName"@.len() == 8 && "fileName"@[0] == 'f');
        assert("hasStickers"@.len() == 11);
        assert("height"@.len() == 6);
        assert("mimeType"@.len() == 8 && "mimeType"@[0] == 'm');
        assert("minithumbnail"@.len() == 13);
        assert("supportsStreaming"@.len() == 17);
        assert("thumbnail"@.len() == 9);
        assert("video"@.len() == 5 && "video"@[0] == 'v');
        assert("width"@.len() == 5 && "width"@[0] == 'w');
        self.duration.round_trip("duration"@);
        self.width.round_trip("width"@);
        self.height.round_trip("height"@);
        self.file_name.round_trip("fileName"@);
        self.mime_type.round_trip("mimeType"@);
        self.has_stickers.round_trip("hasStickers"@);
        self.supports_streaming.round_trip("supportsStreaming"@);
        self.minithumbnail.round_trip("minithumbnail"@);
        self.thumbnail.round_trip("thumbnail"@);
        self.video.round_trip("video"@);
        let m = self.wire()->Object_0;
        assert(field::<i32>(m, "duration"@) == Ok::<Doc, Fault>(self.duration.wire()));
        assert(field::<i32>(m, "width"@) == Ok::<Doc, Fault>(self.width.wire()));
        assert(field::<i32>(m, "height"@) == Ok::<Doc, Fault>(self.height.wire()));
        assert(field::<String>(m, "fileName"@) == Ok::<Doc, Fault>(self.file_name.wire()));
        assert(field::<String>(m, "mimeType"@) == Ok::<Doc, Fault>(self.mime_type.wire()));
        assert(field::<bool>(m, "hasStickers"@) == Ok::<Doc, Fault>(self.has_stickers.wire()));
        assert(field::<bool>(m, "supportsStreaming"@)
            == Ok::<Doc, Fault>(self.supports_streaming.wire()));
        assert(optional_field::<Minithumbnail>(m, "minithumbnail"@)
            == Ok::<Doc, Fault>(self.minithumbnail.wire()));
        assert(optional_field::<PhotoSize>(m, "thumbnail"@)
            == Ok::<Doc, Fault>(self.thumbnail.wire()));
        assert(field::<File>(m, "video"@) == Ok::<Doc, Fault>(self.video.wire()));
    }
}

impl Tagged for Video {
    open spec fn known(tag: Seq<char>) -> bool {
        tag == "video"@
    }

    fn knows(tag: &str) -> (r: bool) {
        same_text(tag, "video")
    }

    proof fn tag_known(&self) {
        reveal(<Video as Wire>::wire);
        assert(tag_of(self.wire()) == Some("video"@));
        assert(Self::known("video"@));
    }
}

/// Describes a video note. The video must be equal in width and height, cropped to a circle, and
/// stored in MPEG4 format
#[derive(Debug, Clone, PartialEq)]
pub struct VideoNote {
    /// Duration of the video, in seconds; as defined by the sender
    pub duration: i32,
    /// Video width and height; as defined by the sender
    pub length: i32,
    /// Video minithumbnail; may be null
    pub minithumbnail: Option<Minithumbnail>,
    /// Video thumbnail; as defined by the sender; may be null
    pub thumbnail: Option<PhotoSize>,
    /// File containing the video
    pub video: File,
}

impl Wire for VideoNote {
    #[verifier::opaque]
    open spec fn wire(&self) -> Doc {
        tagged(
            Map::empty()
                .insert("duration"@, self.duration.wire())
                .insert("length"@, self.length.wire())
                .insert("minithumbnail"@, self.minithumbnail.wire())
                .insert("thumbnail"@, self.thumbnail.wire())
                .insert("video"@, self.video.wire()),
            "videoNote"@,
        )
    }

    #[verifier::opaque]
    open spec fn parse(d: Doc, at: Seq<char>) -> Result<Doc, Fault> {
        match d {
            Doc::Object(m) => {
                let duration = field::<i32>(m, "duration"@);
                let length = field::<i32>(m, "length"@);
                let minithumbnail = optional_field::<Minithumbnail>(m, "minithumbnail"@);
                let thumbnail = optional_field::<PhotoSize>(m, "thumbnail"@);
                let video = field::<File>(m, "video"@);
                if duration is Err {
                    duration
                } else if length is Err {
                    length
                } else if minithumbnail is Err {
                    minithumbnail
                } else if thumbnail is Err {
                    thumbnail
                } else if video is Err {
                    video
                } else {
                    Ok(
                        tagged(
                            Map::empty()
                                .insert("duration"@, duration->Ok_0)
                                .insert("length"@, length->Ok_0)
                                .insert("minithumbnail"@, minithumbnail->Ok_0)
                                .insert("thumbnail"@, thumbnail->Ok_0)
                                .insert("video"@, video->Ok_0),
                            "videoNote"@,
                        ),
                    )
                }
            },
            _ => Err(Fault::TypeMismatch(at)),
        }
    }

    fn encode(&self) -> (j: Json) {
        proof {
            reveal(<VideoNote as Wire>::wire);
        }
        let mut members: Vec<Member> = Vec::new();
        put(&mut members, "duration", self.duration.encode());
        put(&mut members, "length", self.length.encode());
        put(&mut members, "minithumbnail", self.minithumbnail.encode());
        put(&mut members, "thumbnail", self.thumbnail.encode());
        put(&mut members, "video", self.video.encode());
        seal(members, "videoNote")
    }

    fn decode(j: &Json, at: &str) -> (r: Result<Self, DecodeError>) {
        proof {
            reveal(<VideoNote as Wire>::wire);
            reveal(<VideoNote as Wire>::parse);
        }
        let members = members_of(j, at)?;
        let duration = read_field::<i32>(members, "duration")?;
        let length = read_field::<i32>(members, "length")?;
        let minithumbnail = read_optional::<Minithumbnail>(members, "minithumbnail")?;
        let thumbnail = read_optional::<PhotoSize>(members, "thumbnail")?;
        let video = read_field::<File>(members, "video")?;
        Ok(VideoNote { duration, length, minithumbnail, thumbnail, video })
    }

    proof fn round_trip(&self, at: Seq<char>) {
        reveal(<VideoNote as Wire>::wire);
        reveal(<VideoNote as Wire>::parse);
        reveal_strlit("@type");
        reveal_strlit("duration");
        reveal_strlit("length");
        reveal_strlit("minithumbnail");
        reveal_strlit("thumbnail");
        reveal_strlit("video");
        assert("@type"@.len() == 5 && "@type"@[0] == '@');
        assert("duration"@.len() == 8);
        assert("length"@.len() == 6);
        assert("minithumbnail"@.len() == 13);
        assert("thumbnail"@.len() == 9);
        assert("video"@.len() == 5 && "video"@[0] == 'v');
        self.duration.round_trip("duration"@);
        self.length.round_trip("length"@);
        self.minithumbnail.round_trip("minithumbnail"@);
        self.thumbnail.round_trip("thumbnail"@);
        self.video.round_trip("video"@);
    }
}

impl Tagged for VideoNote {
    open spec fn known(tag: Seq<char>) -> bool {
        tag == "videoNote"@
    }

    fn knows(tag: &str) -> (r: bool) {
        same_text(tag, "videoNote")
    }

    proof fn tag_known(&self) {
        reveal(<VideoNote as Wire>::wire);
        assert(tag_of(self.wire()) == Some("videoNote"@));
        assert(Self::known("videoNote"@));
    }
}

/// Describes a voice note. The voice note must be encoded with the Opus codec, and stored inside an
/// OGG container. Voice notes can have only a single audio channel
#[derive(Debug, Clone, PartialEq)]
pub struct VoiceNote {
    /// Duration of the voice note, in seconds; as defined by the sender
    pub duration: i32,
    /// A waveform representation of the voice note in 5-bit format
    pub waveform: String,
    /// MIME type of the file; as defined by the sender
    pub mime_type: String,
    /// File containing the voice note
    pub voice: File,
}

impl Wire for VoiceNote {
    #[verifier::opaque]
    open spec fn wire(&self) -> Doc {
        tagged(
            Map::empty()
                .insert("duration"@, self.duration.wire())
                .insert("waveform"@, self.waveform.wire())
                .insert("mimeType"@, self.mime_type.wire())
                .insert("voice"@, self.voice.wire()),
            "voiceNote"@,
        )
    }

    #[verifier::opaque]
    open spec fn parse(d: Doc, at: Seq<char>) -> Result<Doc, Fault> {
        match d {
            Doc::Object(m) => {
                let duration = field::<i32>(m, "duration"@);
                let waveform = field::<String>(m, "waveform"@);
                let mime_type = field::<String>(m, "mimeType"@);
                let voice = field::<File>(m, "voice"@);
                if duration is Err {
                    duration
                } else if waveform is Err {
                    waveform
                } else if mime_type is Err {
                    mime_type
                } else if voice is Err {
                    voice
                } else {
                    Ok(
                        tagged(
                            Map::empty()
                                .insert("duration"@, duration->Ok_0)
                                .insert("waveform"@, waveform->Ok_0)
                                .insert("mimeType"@, mime_type->Ok_0)
                                .insert("voice"@, voice->Ok_0),
                            "voiceNote"@,
                        ),
                    )
                }
            },
            _ => Err(Fault::TypeMismatch(at)),
        }
    }

    fn encode(&self) -> (j: Json) {
        proof {
            reveal(<VoiceNote as Wire>::wire);
        }
        let mut members: Vec<Member> = Vec::new();
        put(&mut members, "duration", self.duration.encode());
        put(&mut members, "waveform", self.waveform.encode());
        put(&mut members, "mimeType", self.mime_type.encode());
        put(&mut members, "voice", self.voice.encode());
        seal(members, "voiceNote")
    }

    fn decode(j: &Json, at: &str) -> (r: Result<Self, DecodeError>) {
        proof {
            reveal(<VoiceNote as Wire>::wire);
            reveal(<VoiceNote as Wire>::parse);
        }
        let members = members_of(j, at)?;
        let duration = read_field::<i32>(members, "duration")?;
        let waveform = read_field::<String>(members, "waveform")?;
        let mime_type = read_field::<String>(members, "mimeType")?;
        let voice = read_field::<File>(members, "voice")?;
        Ok(VoiceNote { duration, waveform, mime_type, voice })
    }

    proof fn round_trip(&self, at: Seq<char>) {
        reveal(<VoiceNote as Wire>::wire);
        reveal(<VoiceNote as Wire>::parse);
        reveal_strlit("@type");
        reveal_strlit("duration");
        reveal_strlit("mimeType");
        reveal_strlit("voice");
        reveal_strlit("waveform");
        assert("@type"@.len() == 5 && "@type"@[0] == '@');
        assert("duration"@.len() == 8 && "duration"@[0] == 'd');
        assert("mimeType"@.len() == 8 && "mimeType"@[0] == 'm');
        assert("voice"@.len() == 5 && "voice"@[0] == 'v');
        assert("waveform"@.len() == 8 && "waveform"@[0] == 'w');
        self.duration.round_trip("duration"@);
        self.waveform.round_trip("waveform"@);
        self.mime_type.round_trip("mimeType"@);
        self.voice.round_trip("voice"@);
    }
}

impl Tagged for VoiceNote {
    open spec fn known(tag: Seq<char>) -> bool {
        tag == "voiceNote"@
    }

    fn knows(tag: &str) -> (r: bool) {
        same_text(tag, "voiceNote")
    }

    proof fn tag_known(&self) {
        reveal(<VoiceNote as Wire>::wire);
        assert(tag_of(self.wire()) == Some("voiceNote"@));
        assert(Self::known("voiceNote"@));
    }
}

/// Describes a user contact
#[derive(Debug, Clone, PartialEq)]
pub struct Contact {
    /// Phone number of the user
    pub phone_number: String,
    /// First name of the user; 1-255 characters in length
    pub first_name: String,
    /// Last name of the user
    pub last_name: String,
    /// Additional data about the user in a form of vCard; 0-2048 bytes in length
    pub vcard: String,
    /// Identifier of the user, if known; otherwise 0
    pub user_id: i32,
}

impl Wire for Contact {
    #[verifier::opaque]
    open spec fn wire(&self) -> Doc {
        tagged(
            Map::empty()
                .insert("phoneNumber"@, self.phone_number.wire())
                .insert("firstName"@, self.first_name.wire())
                .insert("lastName"@, self.last_name.wire())
                .insert("vcard"@, self.vcard.wire())
                .insert("userId"@, self.user_id.wire()),
            "contact"@,
        )
    }

    #[verifier::opaque]
    open spec fn parse(d: Doc, at: Seq<char>) -> Result<Doc, Fault> {
        match d {
            Doc::Object(m) => {
                let phone_number = field::<String>(m, "phoneNumber"@);
                let first_name = field::<String>(m, "firstName"@);
                let last_name = field::<String>(m, "lastName"@);
                let vcard = field::<String>(m, "vcard"@);
                let user_id = field::<i32>(m, "userId"@);
                if phone_number is Err {
                    phone_number
                } else if first_name is Err {
                    first_name
                } else if last_name is Err {
                    last_name
                } else if vcard is Err {
                    vcard
                } else if user_id is Err {
                    user_id
                } else {
                    Ok(
                        tagged(
                            Map::empty()
                                .insert("phoneNumber"@, phone_number->Ok_0)
                                .insert("firstName"@, first_name->Ok_0)
                                .insert("lastName"@, last_name->Ok_0)
                                .insert("vcard"@, vcard->Ok_0)
                                .insert("userId"@, user_id->Ok_0),
                            "contact"@,
                        ),
                    )
                }
            },
            _ => Err(Fault::TypeMismatch(at)),
        }
    }

    fn encode(&self) -> (j: Json) {
        proof {
            reveal(<Contact as Wire>::wire);
        }
        let mut members: Vec<Member> = Vec::new();
        put(&mut members, "phoneNumber", self.phone_number.encode());
        put(&mut members, "firstName", self.first_name.encode());
        put(&mut members, "lastName", self.last_name.encode());
        put(&mut members, "vcard", self.vcard.encode());
        put(&mut members, "userId", self.user_id.encode());
        seal(members, "contact")
    }

    fn decode(j: &Json, at: &str) -> (r: Result<Self, DecodeError>) {
        proof {
            reveal(<Contact as Wire>::wire);
            reveal(<Contact as Wire>::parse);
        }
        let members = members_of(j, at)?;
        let phone_number = read_field::<String>(members, "phoneNumber")?;
        let first_name = read_field::<String>(members, "firstName")?;
        let last_name = read_field::<String>(members, "lastName")?;
        let vcard = read_field::<String>(members, "vcard")?;
        let user_id = read_field::<i32>(members, "userId")?;
        Ok(Contact { phone_number, first_name, last_name, vcard, user_id })
    }

    proof fn round_trip(&self, at: Seq<char>) {
        reveal(<Contact as Wire>::wire);
        reveal(<Contact as Wire>::parse);
        reveal_strlit("@type");
        reveal_strlit("firstName");
        reveal_strlit("lastName");
        reveal_strlit("phoneNumber");
        reveal_strlit("userId");
        reveal_strlit("vcard");
        assert("@type"@.len() == 5 && "@type"@[0] == '@');
        assert("firstName"@.len() == 9);
        assert("lastName"@.len() == 8);
        assert("phoneNumber"@.len() == 11);
        assert("userId"@.len() == 6);
        assert("vcard"@.len() == 5 && "vcard"@[0] == 'v');
        self.phone_number.round_trip("phoneNumber"@);
        self.first_name.round_trip("firstName"@);
        self.last_name.round_trip("lastName"@);
        self.vcard.round_trip("vcard"@);
        self.user_id.round_trip("userId"@);
    }
}

impl Tagged for Contact {
    open spec fn known(tag: Seq<char>) -> bool {
        tag == "contact"@
    }

    fn knows(tag: &str) -> (r: bool) {
        same_text(tag, "contact")
    }

    proof fn tag_known(&self) {
        reveal(<Contact as Wire>::wire);
        assert(tag_of(self.wire()) == Some("contact"@));
        assert(Self::known("contact"@));
    }
}

/// Describes a location on planet Earth
#[derive(Debug, Clone, PartialEq)]
pub struct Location {
    /// Latitude of the location in degrees; as defined by the sender
    pub latitude: Number,
    /// Longitude of the location, in degrees; as defined by the sender
    pub longitude: Number,
}

impl Wire for Location {
    #[verifier::opaque]
    open spec fn wire(&self) -> Doc {
        tagged(
            Map::empty()
                .insert("latitude"@, self.latitude.wire())
                .insert("longitude"@, self.longitude.wire()),
            "location"@,
        )
    }

    #[verifier::opaque]
    open spec fn parse(d: Doc, at: Seq<char>) -> Result<Doc, Fault> {
        match d {
            Doc::Object(m) => {
                let latitude = field::<Number>(m, "latitude"@);
                let longitude = field::<Number>(m, "longitude"@);
                if latitude is Err {
                    latitude
                } else if longitude is Err {
                    longitude
                } else {
                    Ok(
                        tagged(
                            Map::empty()
                                .insert("latitude"@, latitude->Ok_0)
                                .insert("longitude"@, longitude->Ok_0),
                            "location"@,
                        ),
                    )
                }
            },
            _ => Err(Fault::TypeMismatch(at)),
        }
    }

    fn encode(&self) -> (j: Json) {
        proof {
            reveal(<Location as Wire>::wire);
        }
        let mut members: Vec<Member> = Vec::new();
        put(&mut members, "latitude", self.latitude.encode());
        put(&mut members, "longitude", self.longitude.encode());
        seal(members, "location")
    }

    fn decode(j: &Json, at: &str) -> (r: Result<Self, DecodeError>) {
        proof {
            reveal(<Location as Wire>::wire);
            reveal(<Location as Wire>::parse);
        }
        let members = members_of(j, at)?;
        let latitude = read_field::<Number>(members, "latitude")?;
        let longitude = read_field::<Number>(members, "longitude")?;
        Ok(Location { latitude, longitude })
    }

    proof fn round_trip(&self, at: Seq<char>) {
        reveal(<Location as Wire>::wire);
        reveal(<Location as Wire>::parse);
        reveal_strlit("@type");
        reveal_strlit("latitude");
        reveal_strlit("longitude");
        assert("@type"@.len() == 5);
        assert("latitude"@.len() == 8);
        assert("longitude"@.len() == 9);
        self.latitude.round_trip("latitude"@);
        self.longitude.round_trip("longitude"@);
    }
}

impl Tagged for Location {
    open spec fn known(tag: Seq<char>) -> bool {
        tag == "location"@
    }

    fn knows(tag: &str) -> (r: bool) {
        same_text(tag, "location")
    }

    proof fn tag_known(&self) {
        reveal(<Location as Wire>::wire);
        assert(tag_of(self.wire()) == Some("location"@));
        assert(Self::known("location"@));
    }
}

/// Describes a venue
#[derive(Debug, Clone, PartialEq)]
pub struct Venue {
    /// Venue location; as defined by the sender
    pub location: Location,
    /// Venue name; as defined by the sender
    pub title: String,
    /// Venue address; as defined by the sender
    pub address: String,
    /// Provider of the venue database; as defined by the sender. Currently only "foursquare" needs
    /// to be supported
    pub provider: String,
    /// Identifier of the venue in the provider database; as defined by the sender
    pub id: String,
    /// Type of the venue in the provider database; as defined by the sender
    pub type_: String,
}

impl Wire for Venue {
    #[verifier::opaque]
    open spec fn wire(&self) -> Doc {
        tagged(
            Map::empty()
                .insert("location"@, self.location.wire())
                .insert("title"@, self.title.wire())
                .insert("address"@, self.address.wire())
                .insert("provider"@, self.provider.wire())
                .insert("id"@, self.id.wire())
                .insert("type"@, self.type_.wire()),
            "venue"@,
        )
    }

    #[verifier::opaque]
    open spec fn parse(d: Doc, at: Seq<char>) -> Result<Doc, Fault> {
        match d {
            Doc::Object(m) => {
                let location = field::<Location>(m, "location"@);
                let title = field::<String>(m, "title"@);
                let address = field::<String>(m, "address"@);
                let provider = field::<String>(m, "provider"@);
                let id = field::<String>(m, "id"@);
                let type_ = field::<String>(m, "type"@);
                if location is Err {
                    location
                } else if title is Err {
                    title
                } else if address is Err {
                    address
                } else if provider is Err {
                    provider
                } else if id is Err {
                    id
                } else if type_ is Err {
                    type_
                } else {
                    Ok(
                        tagged(
                            Map::empty()
                                .insert("location"@, location->Ok_0)
                                .insert("title"@, title->Ok_0)
                                .insert("address"@, address->Ok_0)
                                .insert("provider"@, provider->Ok_0)
                                .insert("id"@, id->Ok_0)
                                .insert("type"@, type_->Ok_0),
                            "venue"@,
                        ),
                    )
                }
            },
            _ => Err(Fault::TypeMismatch(at)),
        }
    }

    fn encode(&self) -> (j: Json) {
        proof {
            reveal(<Venue as Wire>::wire);
        }
        let mut members: Vec<Member> = Vec::new();
        put(&mut members, "location", self.location.encode());
        put(&mut members, "title", self.title.encode());
        put(&mut members, "address", self.address.encode());
        put(&mut members, "provider", self.provider.encode());
        put(&mut members, "id", self.id.encode());
        put(&mut members, "type", self.type_.encode());
        seal(members, "venue")
    }

    fn decode(j: &Json, at: &str) -> (r: Result<Self, DecodeError>) {
        proof {
            reveal(<Venue as Wire>::wire);
            reveal(<Venue as Wire>::parse);
        }
        let members = members_of(j, at)?;
        let location = read_field::<Location>(members, "location")?;
        let title = read_field::<String>(members, "title")?;
        let address = read_field::<String>(members, "address")?;
        let provider = read_field::<String>(members, "provider")?;
        let id = read_field::<String>(members, "id")?;
        let type_ = read_field::<String>(members, "type")?;
        Ok(Venue { location, title, address, provider, id, type_ })
    }

    proof fn round_trip(&self, at: Seq<char>) {
        reveal(<Venue as Wire>::wire);
        reveal(<Venue as Wire>::parse);
        reveal_strlit("@type");
        reveal_strlit("address");
        reveal_strlit("id");
        reveal_strlit("location");
        reveal_strlit("provider");
        reveal_strlit("title");
        reveal_strlit("type");
        assert("@type"@.len() == 5 && "@type"@[0] == '@');
        assert("address"@.len() == 7);
        assert("id"@.len() == 2);
        assert("location"@.len() == 8 && "location"@[0] == 'l');
        assert("provider"@.len() == 8 && "provider"@[0] == 'p');
        assert("title"@.len() == 5 && "title"@[0] == 't');
        assert("type"@.len() == 4);
        self.location.round_trip("location"@);
        self.title.round_trip("title"@);
        self.address.round_trip("address"@);
        self.provider.round_trip("provider"@);
        self.id.round_trip("id"@);
        self.type_.round_trip("type"@);
    }
}

impl Tagged for Venue {
    open spec fn known(tag: Seq<char>) -> bool {
        tag == "venue"@
    }

    fn knows(tag: &str) -> (r: bool) {
        same_text(tag, "venue")
    }

    proof fn tag_known(&self) {
        reveal(<Venue as Wire>::wire);
        assert(tag_of(self.wire()) == Some("venue"@));
        assert(Self::known("venue"@));
    }
}

/// Describes a game
#[derive(Debug, Clone, PartialEq)]
pub struct Game {
    /// Game ID
    pub id: i64,
    /// Game short name. To share a game use the URL
    /// https://t.me/{bot_username}?game={game_short_name}
    pub short_name: String,
    /// Game title
    pub title: String,
    /// Game text, usually containing scoreboards for a game
    pub text: FormattedText,
    /// Describes a game
    pub description: String,
    /// Game photo
    pub photo: Photo,
    /// Game animation; may be null
    pub animation: Option<Animation>,
}

impl Wire for Game {
    #[verifier::opaque]
    open spec fn wire(&self) -> Doc {
        tagged(
            Map::empty()
                .insert("id"@, wide_doc(self.id))
                .insert("shortName"@, self.short_name.wire())
                .insert("title"@, self.title.wire())
                .insert("text"@, self.text.wire())
                .insert("description"@, self.description.wire())
                .insert("photo"@, self.photo.wire())
                .insert("animation"@, self.animation.wire()),
            "game"@,
        )
    }

    #[verifier::opaque]
    open spec fn parse(d: Doc, at: Seq<char>) -> Result<Doc, Fault> {
        match d {
            Doc::Object(m) => {
                let id = wide_field(m, "id"@);
                let short_name = field::<String>(m, "shortName"@);
                let title = field::<String>(m, "title"@);
                let text = field::<FormattedText>(m, "text"@);
                let description = field::<String>(m, "description"@);
                let photo = field::<Photo>(m, "photo"@);
                let animation = optional_field::<Animation>(m, "animation"@);
                if id is Err {
                    id
                } else if short_name is Err {
                    short_name
                } else if title is Err {
                    title
                } else if text is Err {
                    text
                } else if description is Err {
                    description
                } else if photo is Err {
                    photo
                } else if animation is Err {
                    animation
                } else {
                    Ok(
                        tagged(
                            Map::empty()
                                .insert("id"@, id->Ok_0)
                                .insert("shortName"@, short_name->Ok_0)
                                .insert("title"@, title->Ok_0)
                                .insert("text"@, text->Ok_0)
                                .insert("description"@, description->Ok_0)
                                .insert("photo"@, photo->Ok_0)
                                .insert("animation"@, animation->Ok_0),
                            "game"@,
                        ),
                    )
                }
            },
            _ => Err(Fault::TypeMismatch(at)),
        }
    }

    fn encode(&self) -> (j: Json) {
        proof {
            reveal(<Game as Wire>::wire);
        }
        let mut members: Vec<Member> = Vec::new();
        put(&mut members, "id", encode_wide(self.id));
        put(&mut members, "shortName", self.short_name.encode());
        put(&mut members, "title", self.title.encode());
        put(&mut members, "text", self.text.encode());
        put(&mut members, "description", self.description.encode());
        put(&mut members, "photo", self.photo.encode());
        put(&mut members, "animation", self.animation.encode());
        seal(members, "game")
    }

    fn decode(j: &Json, at: &str) -> (r: Result<Self, DecodeError>) {
        proof {
            reveal(<Game as Wire>::wire);
            reveal(<Game as Wire>::parse);
        }
        let members = members_of(j, at)?;
        let id = read_wide(members, "id")?;
        let short_name = read_field::<String>(members, "shortName")?;
        let title = read_field::<String>(members, "title")?;
        let text = read_field::<FormattedText>(members, "text")?;
        let description = read_field::<String>(members, "description")?;
        let photo = read_field::<Photo>(members, "photo")?;
        let animation = read_optional::<Animation>(members, "animation")?;
        Ok(Game { id, short_name, title, text, description, photo, animation })
    }

    proof fn round_trip(&self, at: Seq<char>) {
        reveal(<Game as Wire>::wire);
        reveal(<Game as Wire>::parse);
        reveal_strlit("@type");
        reveal_strlit("animation");
        reveal_strlit("description");
        reveal_strlit("id");
        reveal_strlit("photo");
        reveal_strlit("shortName");
        reveal_strlit("text");
        reveal_strlit("title");
        assert("@type"@.len() == 5 && "@type"@[0] == '@');
        assert("animation"@.len() == 9 && "animation"@[0] == 'a');
        assert("description"@.len() == 11);
        assert("id"@.len() == 2);
        assert("photo"@.len() == 5 && "photo"@[0] == 'p');
        assert("shortName"@.len() == 9 && "shortName"@[0] == 's');
        assert("text"@.len() == 4);
        assert("title"@.len() == 5 && "title"@[0] == 't');
        lemma_wide_round_trip(self.id, "id"@);
        self.short_name.round_trip("shortName"@);
        self.title.round_trip("title"@);
        self.text.round_trip("text"@);
        self.description.round_trip("description"@);
        self.photo.round_trip("photo"@);
        self.animation.round_trip("animation"@);
    }
}

impl Tagged for Game {
    open spec fn known(tag: Seq<char>) -> bool {
        tag == "game"@
    }

    fn knows(tag: &str) -> (r: bool) {
        same_text(tag, "game")
    }

    proof fn tag_known(&self) {
        reveal(<Game as Wire>::wire);
        assert(tag_of(self.wire()) == Some("game"@));
        assert(Self::known("game"@));
    }
}

/// Describes a poll
#[derive(Debug, Clone, PartialEq)]
pub struct Poll {
    /// Unique poll identifier
    pub id: i64,
    /// Poll question, 1-255 characters
    pub question: String,
    /// List of poll answer options
    pub options: Vec<PollOption>,
    /// Total number of voters, participating in the poll
    pub total_voter_count: i32,
    /// User identifiers of recent voters, if the poll is non-anonymous
    pub recent_voter_user_ids: Vec<i32>,
    /// True, if the poll is anonymous
    pub is_anonymous: bool,
    /// Type of the poll
    pub type_: PollType,
    /// True, if the poll is closed
    pub is_closed: bool,
}

impl Wire for Poll {
    #[verifier::opaque]
    open spec fn wire(&self) -> Doc {
        tagged(
            Map::empty()
                .insert("id"@, wide_doc(self.id))
                .insert("question"@, self.question.wire())
                .insert("options"@, self.options.wire())
                .insert("totalVoterCount"@, self.total_voter_count.wire())
                .insert("recentVoterUserIds"@, self.recent_voter_user_ids.wire())
                .insert("isAnonymous"@, self.is_anonymous.wire())
                .insert("type"@, self.type_.wire())
                .insert("isClosed"@, self.is_closed.wire()),
            "poll"@,
        )
    }

    #[verifier::opaque]
    open spec fn parse(d: Doc, at: Seq<char>) -> Result<Doc, Fault> {
        match d {
            Doc::Object(m) => {
                let id = wide_field(m, "id"@);
                let question = field::<String>(m, "question"@);
                let options = field::<Vec<PollOption>>(m, "options"@);
                let total_voter_count = field::<i32>(m, "totalVoterCount"@);
                let recent_voter_user_ids = field::<Vec<i32>>(m, "recentVoterUserIds"@);
                let is_anonymous = field::<bool>(m, "isAnonymous"@);
                let type_ = field::<PollType>(m, "type"@);
                let is_closed = field::<bool>(m, "isClosed"@);
                if id is Err {
                    id
                } else if question is Err {
                    question
                } else if options is Err {
                    options
                } else if total_voter_count is Err {
                    total_voter_count
                } else if recent_voter_user_ids is Err {
                    recent_voter_user_ids
                } else if is_anonymous is Err {
                    is_anonymous
                } else if type_ is Err {
                    type_
                } else if is_closed is Err {
                    is_closed
                } else {
                    Ok(
                        tagged(
                            Map::empty()
                                .insert("id"@, id->Ok_0)
                                .insert("question"@, question->Ok_0)
                                .insert("options"@, options->Ok_0)
                                .insert("totalVoterCount"@, total_voter_count->Ok_0)
                                .insert("recentVoterUserIds"@, recent_voter_user_ids->Ok_0)
                                .insert("isAnonymous"@, is_anonymous->Ok_0)
                                .insert("type"@, type_->Ok_0)
                                .insert("isClosed"@, is_closed->Ok_0),
                            "poll"@,
                        ),
                    )
                }
            },
            _ => Err(Fault::TypeMismatch(at)),
        }
    }

    fn encode(&self) -> (j: Json) {
        proof {
            reveal(<Poll as Wire>::wire);
        }
        let mut members: Vec<Member> = Vec::new();
        put(&mut members, "id", encode_wide(self.id));
        put(&mut members, "question", self.question.encode());
        put(&mut members, "options", self.options.encode());
        put(&mut members, "totalVoterCount", self.total_voter_count.encode());
        put(&mut members, "recentVoterUserIds", self.recent_voter_user_ids.encode());
        put(&mut members, "isAnonymous", self.is_anonymous.encode());
        put(&mut members, "type", self.type_.encode());
        put(&mut members, "isClosed", self.is_closed.encode());
        seal(members, "poll")
    }

    fn decode(j: &Json, at: &str) -> (r: Result<Self, DecodeError>) {
        proof {
            reveal(<Poll as Wire>::wire);
            reveal(<Poll as Wire>::parse);
        }
        let members = members_of(j, at)?;
        let id = read_wide(members, "id")?;
        let question = read_field::<String>(members, "question")?;
        let options = read_field::<Vec<PollOption>>(members, "options")?;
        let total_voter_count = read_field::<i32>(members, "totalVoterCount")?;
        let recent_voter_user_ids = read_field::<Vec<i32>>(members, "recentVoterUserIds")?;
        let is_anonymous = read_field::<bool>(members, "isAnonymous")?;
        let type_ = read_field::<PollType>(members, "type")?;
        let is_closed = read_field::<bool>(members, "isClosed")?;
        Ok(Poll {
            id,
            question,
            options,
            total_voter_count,
            recent_voter_user_ids,
            is_anonymous,
            type_,
            is_closed,
        })
    }

    proof fn round_trip(&self, at: Seq<char>) {
        reveal(<Poll as Wire>::wire);
        reveal(<Poll as Wire>::parse);
        reveal_strlit("@type");
        reveal_strlit("id");
        reveal_strlit("isAnonymous");
        reveal_strlit("isClosed");
        reveal_strlit("options");
        reveal_strlit("question");
        reveal_strlit("recentVoterUserIds");
        reveal_strlit("totalVoterCount");
        reveal_strlit("type");
        assert("@type"@.len() == 5);
        assert("id"@.len() == 2);
        assert("isAnonymous"@.len() == 11);
        assert("isClosed"@.len() == 8 && "isClosed"@[0] == 'i');
        assert("options"@.len() == 7);
        assert("question"@.len() == 8 && "question"@[0] == 'q');
        assert("recentVoterUserIds"@.len() == 18);
        assert("totalVoterCount"@.len() == 15);
        assert("type"@.len() == 4);
        lemma_wide_round_trip(self.id, "id"@);
        self.question.round_trip("question"@);
        self.options.round_trip("options"@);
        self.total_voter_count.round_trip("totalVoterCount"@);
        self.recent_voter_user_ids.round_trip("recentVoterUserIds"@);
        self.is_anonymous.round_trip("isAnonymous"@);
        self.type_.round_trip("type"@);
        self.is_closed.round_trip("isClosed"@);
    }
}

impl Tagged for Poll {
    open spec fn known(tag: Seq<char>) -> bool {
        tag == "poll"@
    }

    fn knows(tag: &str) -> (r: bool) {
        same_text(tag, "poll")
    }

    proof fn tag_known(&self) {
        reveal(<Poll as Wire>::wire);
        assert(tag_of(self.wire()) == Some("poll"@));
        assert(Self::known("poll"@));
    }
}

} // verus!
